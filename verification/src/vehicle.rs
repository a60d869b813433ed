//! Aerial vehicles: what they are called and how they fly.
//!
//! A vehicle keeps the heading and the speed it appeared with. Flying moves
//! its position along the heading by `speed / 30` distance units a second,
//! in thousandths of a unit, the rest dropped.

use crate::heading::{
    cos_deg, cosine, lemma_axis_directions, lemma_direction_range, lemma_unit_direction, sin_deg,
    sine, unit_length, unit_slack, TRIG_SCALE,
};
use crate::plane::{Point, SUBUNITS_PER_UNIT};
use crate::timer::NANOS_PER_SECOND;
use vstd::prelude::*;

verus! {

/// `String::push` appends the given character to the end of the string.
pub assume_specification[ String::push ](text: &mut String, c: char)
    ensures
        final(text)@ == old(text)@.push(c),
;

/// A vehicle flying at `s` knots covers `s / 30` distance units per second.
pub const KNOTS_PER_UNIT_SPEED: u64 = 30;

/// What the product of a speed in knots, a direction in millionths, a time
/// in nanoseconds and the thousandths in a unit is divided by to give
/// thousandths of a unit: 30 times a million times a thousand million.
pub const TRAVEL_DIVISOR: u128 = 30_000_000_000_000_000;

/// The divisor is what the units say it is.
pub proof fn lemma_travel_divisor()
    ensures
        TRAVEL_DIVISOR == KNOTS_PER_UNIT_SPEED * TRIG_SCALE * NANOS_PER_SECOND,
{
}

/// The decimal digit `d` as a character: the digits start at code 48.
pub open spec fn digit(d: nat) -> char
    recommends
        d < 10,
{
    ((48 + d) as u8) as char
}

/// The decimal numeral of `n`, without leading zeros.
pub open spec fn decimal(n: nat) -> Seq<char>
    decreases n,
{
    if n < 10 {
        seq![digit(n)]
    } else {
        decimal(n / 10).push(digit(n % 10))
    }
}

/// Appends the decimal numeral of `n` to `text`.
fn push_decimal(text: &mut String, n: u16)
    ensures
        final(text)@ == old(text)@ + decimal(n as nat),
    decreases n,
{
    if n >= 10 {
        push_decimal(text, n / 10);
    }
    let d: u8 = (n % 10) as u8;
    text.push((48u8 + d) as char);
}

/// The callsign made of two letters and a number.
pub open spec fn callsign_text(first: char, second: char, number: u16) -> Seq<char> {
    seq![first, second] + decimal(number as nat)
}

/// The distance covered along one axis, in thousandths of a distance unit,
/// by a vehicle at `speed` knots in `elapsed` nanoseconds, when `component`
/// is the cosine or sine of its heading in millionths. A fraction of a
/// thousandth is dropped, towards zero.
pub open spec fn travel(speed: nat, component: int, elapsed: nat) -> int {
    let size = if component >= 0 {
        component
    } else {
        -component
    };
    let covered = (speed * size * elapsed * SUBUNITS_PER_UNIT) / (TRAVEL_DIVISOR as int);
    if component >= 0 {
        covered
    } else {
        -covered
    }
}

/// A coordinate moved by `by`, held at the ends of the `i64` range.
pub open spec fn shifted(coordinate: i64, by: int) -> i64 {
    if coordinate + by > i64::MAX {
        i64::MAX
    } else if coordinate + by < i64::MIN {
        i64::MIN
    } else {
        (coordinate + by) as i64
    }
}

/// Where a vehicle at `position` is after flying `elapsed` nanoseconds at
/// `speed` knots on `heading` degrees.
pub open spec fn flown(position: Point, speed: u32, heading: u16, elapsed: nat) -> Point {
    Point {
        x: shifted(position.x, travel(speed as nat, cosine(heading as int), elapsed)),
        y: shifted(position.y, travel(speed as nat, sine(heading as int), elapsed)),
    }
}

/// Moves `coordinate` by what a vehicle at `speed` covers in `elapsed` along
/// an axis with direction `component`.
fn advance_coordinate(coordinate: i64, speed: u32, component: i64, elapsed: u64) -> (moved: i64)
    requires
        -TRIG_SCALE <= component <= TRIG_SCALE,
    ensures
        moved == shifted(coordinate, travel(speed as nat, component as int, elapsed as nat)),
{
    let size: u128 = if component >= 0 {
        component as u128
    } else {
        (-component) as u128
    };
    assert(speed * size <= 0x1_0000_0000 * 1_000_000) by (nonlinear_arith)
        requires
            0 <= speed <= 0xffff_ffff,
            0 <= size <= 1_000_000,
    ;
    let rate: u128 = speed as u128 * size;
    assert(rate * elapsed <= 0x1_0000_0000 * 1_000_000 * 0x1_0000_0000_0000_0000)
        by (nonlinear_arith)
        requires
            0 <= rate <= 0x1_0000_0000 * 1_000_000,
            0 <= elapsed <= 0xffff_ffff_ffff_ffff,
    ;
    let far: u128 = rate * elapsed as u128;
    let numerator: u128 = far * SUBUNITS_PER_UNIT as u128;
    let covered: u128 = numerator / TRAVEL_DIVISOR;
    assert(numerator == speed as nat * size as nat * elapsed as nat * SUBUNITS_PER_UNIT)
        by (nonlinear_arith)
        requires
            numerator == far * SUBUNITS_PER_UNIT,
            far == rate * elapsed,
            rate == speed * size,
    ;
    let by: i128 = if component >= 0 {
        covered as i128
    } else {
        -(covered as i128)
    };
    let landed: i128 = coordinate as i128 + by;
    if landed > i64::MAX as i128 {
        i64::MAX
    } else if landed < i64::MIN as i128 {
        i64::MIN
    } else {
        landed as i64
    }
}

/// A moving vehicle.
#[derive(Debug, PartialEq, Eq)]
pub struct AerialVehicle {
    /// The callsign: two capital letters and a number.
    pub name: String,
    /// The altitude, as sampled when the vehicle appeared.
    pub altitude: u32,
    /// The speed in knots.
    pub speed: u32,
    /// The heading in whole degrees.
    pub heading: u16,
    /// The name of the airport the vehicle is bound for.
    pub target: String,
    /// Where the vehicle is.
    pub position: Point,
}

/// The mathematical value of an [`AerialVehicle`].
pub struct VehicleView {
    pub name: Seq<char>,
    pub altitude: u32,
    pub speed: u32,
    pub heading: u16,
    pub target: Seq<char>,
    pub position: Point,
}

impl VehicleView {
    /// The vehicle after flying `elapsed` nanoseconds: only its position
    /// changes.
    pub open spec fn flown(self, elapsed: nat) -> VehicleView {
        VehicleView { position: flown(self.position, self.speed, self.heading, elapsed), ..self }
    }
}

impl View for AerialVehicle {
    type V = VehicleView;

    open spec fn view(&self) -> VehicleView {
        VehicleView {
            name: self.name@,
            altitude: self.altitude,
            speed: self.speed,
            heading: self.heading,
            target: self.target@,
            position: self.position,
        }
    }
}

impl DeepView for AerialVehicle {
    type V = VehicleView;

    open spec fn deep_view(&self) -> VehicleView {
        self@
    }
}

impl Clone for AerialVehicle {
    fn clone(&self) -> (copy: Self)
        ensures
            copy@ == self@,
    {
        AerialVehicle {
            name: self.name.clone(),
            altitude: self.altitude,
            speed: self.speed,
            heading: self.heading,
            target: self.target.clone(),
            position: self.position,
        }
    }
}

/// Every vehicle of `vehicles` after flying `elapsed` nanoseconds.
pub open spec fn all_flown(vehicles: Seq<VehicleView>, elapsed: nat) -> Seq<VehicleView> {
    Seq::new(vehicles.len(), |i: int| vehicles[i].flown(elapsed))
}

impl AerialVehicle {
    /// The callsign made of `first`, `second` and the decimal numeral of
    /// `number`.
    pub fn callsign(first: char, second: char, number: u16) -> (name: String)
        ensures
            name@ == callsign_text(first, second, number),
    {
        let mut name = String::new();
        name.push(first);
        name.push(second);
        push_decimal(&mut name, number);
        name
    }

    /// Flies the vehicle for `elapsed` nanoseconds along its heading.
    pub fn fly(&mut self, elapsed: u64)
        ensures
            final(self)@ == old(self)@.flown(elapsed as nat),
    {
        let along = cos_deg(self.heading);
        let across = sin_deg(self.heading);
        proof {
            lemma_direction_range(self.heading as int);
        }
        let x = advance_coordinate(self.position.x, self.speed, along, elapsed);
        let y = advance_coordinate(self.position.y, self.speed, across, elapsed);
        self.position = Point { x, y };
    }
}

/// Along the reference axis nothing is lost to the direction: on heading 0
/// a vehicle at `speed` knots covers `speed / 30` distance units a second
/// along that axis, a fraction of a thousandth dropped, and nothing along
/// the other.
pub proof fn lemma_flight_along_the_axis(position: Point, speed: u32, elapsed: nat)
    ensures
        flown(position, speed, 0, elapsed) == (Point {
            x: shifted(
                position.x,
                (speed * elapsed * SUBUNITS_PER_UNIT) / (KNOTS_PER_UNIT_SPEED * NANOS_PER_SECOND),
            ),
            y: position.y,
        }),
{
    lemma_axis_directions();
    let distance = speed as int * elapsed as int * SUBUNITS_PER_UNIT as int;
    assert(speed as nat * (TRIG_SCALE as int) * elapsed * SUBUNITS_PER_UNIT == TRIG_SCALE * distance)
        by (nonlinear_arith)
        requires
            distance == speed as int * elapsed as int * SUBUNITS_PER_UNIT as int,
    ;
    vstd::arithmetic::div_mod::lemma_div_multiples_vanish_quotient(
        TRIG_SCALE as int,
        distance,
        KNOTS_PER_UNIT_SPEED * NANOS_PER_SECOND,
    );
    assert(travel(speed as nat, sine(0), elapsed) == 0) by {
        assert(speed as nat * 0 * elapsed * SUBUNITS_PER_UNIT == 0) by (nonlinear_arith);
    }
}

/// The size of a number.
pub open spec fn size(n: int) -> int {
    if n >= 0 {
        n
    } else {
        -n
    }
}

/// What a vehicle at `speed` knots covers in `elapsed` nanoseconds, in
/// thousandths of a distance unit, before the division by 30 and by the
/// nanoseconds in a second.
pub open spec fn run(speed: nat, elapsed: nat) -> int {
    speed * elapsed * SUBUNITS_PER_UNIT
}

/// Along one axis a vehicle covers its share of the run, short of it by
/// less than a thousandth of a distance unit and never beyond it.
pub proof fn lemma_travel_is_exact_to_a_thousandth(speed: nat, component: int, elapsed: nat)
    ensures
        size(travel(speed, component, elapsed)) * TRAVEL_DIVISOR <= run(speed, elapsed) * size(
            component,
        ) < size(travel(speed, component, elapsed)) * TRAVEL_DIVISOR + TRAVEL_DIVISOR,
        component >= 0 ==> travel(speed, component, elapsed) >= 0,
        component <= 0 ==> travel(speed, component, elapsed) <= 0,
{
    let c = size(component);
    let product = speed * c * elapsed * SUBUNITS_PER_UNIT;
    assert(product == run(speed, elapsed) * c) by (nonlinear_arith)
        requires
            product == speed * c * elapsed * SUBUNITS_PER_UNIT,
            run(speed, elapsed) == speed * elapsed * SUBUNITS_PER_UNIT,
    ;
    assert(product >= 0) by (nonlinear_arith)
        requires
            product == speed * c * elapsed * SUBUNITS_PER_UNIT,
            c >= 0,
            SUBUNITS_PER_UNIT == 1000,
    ;
    let divisor = TRAVEL_DIVISOR as int;
    vstd::arithmetic::div_mod::lemma_fundamental_div_mod(product, divisor);
    vstd::arithmetic::div_mod::lemma_mod_bound(product, divisor);
    vstd::arithmetic::div_mod::lemma_div_pos_is_pos(product, divisor);
    assert(divisor * (product / divisor) == (product / divisor) * divisor) by (nonlinear_arith);
    if component == 0 {
        assert(product == 0) by (nonlinear_arith)
            requires
                product == run(speed, elapsed) * c,
                c == 0,
        ;
    }
}

/// The square of a number that is short of `whole` by less than `step` is
/// short of the square of `whole` by less than twice `step` times `whole`.
proof fn lemma_square_short(part: int, whole: int, step: int)
    requires
        0 <= part <= whole < part + step,
    ensures
        whole * whole - 2 * step * whole <= part * part <= whole * whole,
{
    assert(part * part <= whole * whole) by (nonlinear_arith)
        requires
            0 <= part <= whole,
    ;
    assert(whole * whole - part * part == (whole - part) * (whole + part)) by (nonlinear_arith);
    assert((whole - part) * (whole + part) <= step * (2 * whole)) by (nonlinear_arith)
        requires
            0 <= whole - part <= step,
            0 <= whole + part <= 2 * whole,
    ;
    assert(step * (2 * whole) == 2 * step * whole) by (nonlinear_arith);
}

/// The distance covered: whatever the heading, a vehicle at `speed` knots
/// covers `speed / 30` distance units a second. The squares of what it
/// covers along the two axes sum to the square of that distance, to within
/// the rounding of the direction and the thousandth dropped on each axis.
/// Both sides are scaled by the square of the travel divisor.
pub proof fn lemma_distance_covered(speed: u32, heading: u16, elapsed: nat)
    ensures
        ({
            let along = travel(speed as nat, cosine(heading as int), elapsed);
            let across = travel(speed as nat, sine(heading as int), elapsed);
            let covered = (along * along + across * across) * (TRAVEL_DIVISOR * TRAVEL_DIVISOR);
            let whole = run(speed as nat, elapsed);
            let exact = whole * whole * (TRIG_SCALE * TRIG_SCALE);
            &&& covered <= exact + whole * whole * unit_slack()
            &&& covered >= exact - whole * whole * unit_slack() - 4 * TRAVEL_DIVISOR * whole
                * TRIG_SCALE
        }),
{
    let c = cosine(heading as int);
    let s = sine(heading as int);
    let along = travel(speed as nat, c, elapsed);
    let across = travel(speed as nat, s, elapsed);
    let whole = run(speed as nat, elapsed);
    let d = TRAVEL_DIVISOR as int;
    let scale = TRIG_SCALE as int;
    lemma_direction_range(heading as int);
    lemma_unit_direction(heading as int);
    lemma_travel_is_exact_to_a_thousandth(speed as nat, c, elapsed);
    lemma_travel_is_exact_to_a_thousandth(speed as nat, s, elapsed);
    assert(whole >= 0) by (nonlinear_arith)
        requires
            whole == speed as nat * elapsed * SUBUNITS_PER_UNIT,
            SUBUNITS_PER_UNIT == 1000,
    ;
    let px = size(along) * d;
    let py = size(across) * d;
    let wx = whole * size(c);
    let wy = whole * size(s);
    lemma_square_short(px, wx, d);
    lemma_square_short(py, wy, d);
    assert(px * px == along * along * (d * d)) by (nonlinear_arith)
        requires
            px == size(along) * d,
            size(along) == along || size(along) == -along,
    ;
    assert(py * py == across * across * (d * d)) by (nonlinear_arith)
        requires
            py == size(across) * d,
            size(across) == across || size(across) == -across,
    ;
    assert((along * along + across * across) * (d * d) == px * px + py * py)
        by (nonlinear_arith)
        requires
            px * px == along * along * (d * d),
            py * py == across * across * (d * d),
    ;
    assert(wx * wx + wy * wy == whole * whole * (c * c + s * s)) by (nonlinear_arith)
        requires
            wx == whole * size(c),
            wy == whole * size(s),
            size(c) == c || size(c) == -c,
            size(s) == s || size(s) == -s,
    ;
    let unit = c * c + s * s;
    assert(whole * whole * unit <= whole * whole * (scale * scale) + whole * whole * unit_slack()
        && whole * whole * unit >= whole * whole * (scale * scale) - whole * whole * unit_slack())
        by (nonlinear_arith)
        requires
            scale * scale - unit_slack() <= unit <= scale * scale + unit_slack(),
    ;
    assert(2 * d * wx <= 2 * d * whole * scale && 2 * d * wy <= 2 * d * whole * scale)
        by (nonlinear_arith)
        requires
            wx == whole * size(c),
            wy == whole * size(s),
            0 <= size(c) <= scale,
            0 <= size(s) <= scale,
            whole >= 0,
            d > 0,
    ;
    assert(2 * d * whole * scale + 2 * d * whole * scale == 4 * d * whole * scale)
        by (nonlinear_arith);
}

/// A vehicle that flies for no time stays where it is.
pub proof fn lemma_no_time_no_travel(vehicle: VehicleView)
    ensures
        vehicle.flown(0) == vehicle,
{
}

} // verus!
