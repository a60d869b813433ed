//! Traffic: the density-paced spawner and the updater that moves the
//! vehicles.

use crate::airport::{Airport, AirportView};
use crate::error::SimError;
use crate::plane::{Plane, Point};
use crate::random::{Generator, Stream};
use crate::timer::{Timer, TimerMode, TimerView, NANOS_PER_SECOND};
use crate::vehicle::{all_flown, callsign_text, AerialVehicle, VehicleView};
use vstd::prelude::*;

verus! {

/// How often new vehicles appear.
#[derive(Clone, Copy, Debug, PartialEq, Eq, Structural)]
pub enum TrafficDensity {
    /// A vehicle every 15 seconds.
    Low,
    /// A vehicle every 10 seconds.
    Medium,
    /// A vehicle every 5 seconds.
    High,
}

impl TrafficDensity {
    /// The time between two spawns, in nanoseconds.
    pub open spec fn interval(self) -> nat {
        match self {
            TrafficDensity::Low => 15 * NANOS_PER_SECOND as nat,
            TrafficDensity::Medium => 10 * NANOS_PER_SECOND as nat,
            TrafficDensity::High => 5 * NANOS_PER_SECOND as nat,
        }
    }

    /// The density that `name` selects, if any.
    pub open spec fn named(name: Seq<char>) -> Option<TrafficDensity> {
        if name == "low"@ {
            Some(TrafficDensity::Low)
        } else if name == "medium"@ {
            Some(TrafficDensity::Medium)
        } else if name == "high"@ {
            Some(TrafficDensity::High)
        } else {
            None
        }
    }

    /// The time between two spawns, in nanoseconds.
    pub fn spawn_interval(&self) -> (interval: u64)
        ensures
            interval == self.interval(),
    {
        match self {
            TrafficDensity::Low => 15 * NANOS_PER_SECOND,
            TrafficDensity::Medium => 10 * NANOS_PER_SECOND,
            TrafficDensity::High => 5 * NANOS_PER_SECOND,
        }
    }

    /// Decodes a density selection: `low`, `medium` or `high`. Any other
    /// name is refused with [`SimError::InvalidConfiguration`].
    pub fn from_name(name: &str) -> (selected: Result<TrafficDensity, SimError>)
        ensures
            selected == match Self::named(name@) {
                Some(density) => Ok::<TrafficDensity, SimError>(density),
                None => Err(SimError::InvalidConfiguration),
            },
    {
        let given = name.to_owned();
        if given == "low".to_owned() {
            Ok(TrafficDensity::Low)
        } else if given == "medium".to_owned() {
            Ok(TrafficDensity::Medium)
        } else if given == "high".to_owned() {
            Ok(TrafficDensity::High)
        } else {
            Err(SimError::InvalidConfiguration)
        }
    }
}

/// The mathematical state of a [`TrafficConfig`].
pub struct TrafficConfigView {
    pub density: TrafficDensity,
    pub spawn_timer: TimerView,
    pub update_timer: TimerView,
}

impl TrafficConfigView {
    /// Both timers are one-shot, well formed and running; the spawn timer
    /// counts the density's interval, the update timer one second.
    pub open spec fn wf(self) -> bool {
        &&& self.spawn_timer.wf()
        &&& self.spawn_timer.mode == TimerMode::Once
        &&& !self.spawn_timer.finished
        &&& self.spawn_timer.duration == self.density.interval()
        &&& self.update_timer.wf()
        &&& self.update_timer.mode == TimerMode::Once
        &&& !self.update_timer.finished
        &&& self.update_timer.duration == NANOS_PER_SECOND
    }

    /// The configuration a run starts with.
    pub open spec fn initial(density: TrafficDensity) -> TrafficConfigView {
        TrafficConfigView {
            density,
            spawn_timer: TimerView::fresh(density.interval(), TimerMode::Once),
            update_timer: TimerView::fresh(NANOS_PER_SECOND as nat, TimerMode::Once),
        }
    }

    /// Whether a frame of `delta` nanoseconds makes the spawn timer expire.
    pub open spec fn spawn_due(self, delta: nat) -> bool {
        self.spawn_timer.tick(delta).finished
    }

    /// The configuration after the spawner saw a frame of `delta`
    /// nanoseconds: the spawn timer has advanced, or expired and been reset.
    pub open spec fn after_spawner(self, delta: nat) -> TrafficConfigView {
        let ticked = self.spawn_timer.tick(delta);
        TrafficConfigView {
            spawn_timer: if ticked.finished {
                ticked.reset()
            } else {
                ticked
            },
            ..self
        }
    }

    /// Whether a frame of `delta` nanoseconds makes the update timer expire.
    pub open spec fn update_due(self, delta: nat) -> bool {
        self.update_timer.tick(delta).finished
    }

    /// The time that an update after a frame of `delta` nanoseconds
    /// accounts for: what the update timer shows when it has expired, which
    /// is all the time since the last update.
    pub open spec fn update_elapsed(self, delta: nat) -> nat {
        self.update_timer.tick(delta).elapsed
    }

    /// The configuration after the updater saw a frame of `delta`
    /// nanoseconds: the update timer has advanced, or expired and been reset.
    pub open spec fn after_updater(self, delta: nat) -> TrafficConfigView {
        let ticked = self.update_timer.tick(delta);
        TrafficConfigView {
            update_timer: if ticked.finished {
                ticked.reset()
            } else {
                ticked
            },
            ..self
        }
    }

    /// The vehicles after the updater saw a frame of `delta` nanoseconds:
    /// all flown by the elapsed time when the update timer expires, else
    /// untouched.
    pub open spec fn updated(self, delta: nat, vehicles: Seq<VehicleView>) -> Seq<VehicleView> {
        if self.update_due(delta) {
            all_flown(vehicles, self.update_elapsed(delta))
        } else {
            vehicles
        }
    }
}

/// An update after a frame of no time leaves every vehicle, and so every
/// position, unchanged.
pub proof fn lemma_zero_tick_keeps_positions(config: TrafficConfigView, vehicles: Seq<VehicleView>)
    requires
        config.wf(),
    ensures
        config.updated(0, vehicles) == vehicles,
        config.after_updater(0) == config,
{
}

/// An update is due exactly when the time since the last update reaches one
/// second, and it accounts for all of that time, held at the largest `u64`,
/// however long the frame was.
pub proof fn lemma_update_accounts_for_all_the_time(config: TrafficConfigView, delta: nat)
    requires
        config.wf(),
    ensures
        config.update_due(delta) <==> config.update_timer.elapsed + delta >= NANOS_PER_SECOND,
        config.update_due(delta) ==> config.update_elapsed(delta) == TimerView::held(
            config.update_timer.elapsed + delta,
        ),
        config.update_due(delta) ==> config.after_updater(delta).update_timer.elapsed == 0,
        config.after_updater(delta).wf(),
{
}

/// The spawner fires exactly when the time counted since the last spawn
/// reaches the interval. The count then restarts from zero, however far the
/// frame overshot; otherwise the frame is added to it.
pub proof fn lemma_spawn_cadence(config: TrafficConfigView, delta: nat)
    requires
        config.wf(),
    ensures
        config.spawn_due(delta) <==> config.spawn_timer.elapsed + delta
            >= config.density.interval(),
        config.spawn_due(delta) ==> config.after_spawner(delta).spawn_timer.elapsed == 0,
        !config.spawn_due(delta) ==> config.after_spawner(delta).spawn_timer.elapsed
            == config.spawn_timer.elapsed + delta,
        config.after_spawner(delta).wf(),
{
}

/// The sum of the frames' durations.
pub open spec fn total(frames: Seq<nat>) -> nat
    decreases frames.len(),
{
    if frames.len() == 0 {
        0
    } else {
        frames[0] + total(frames.drop_first())
    }
}

/// How many of `frames`, fed to the spawner one after the other, make it
/// fire.
pub open spec fn spawn_count(config: TrafficConfigView, frames: Seq<nat>) -> nat
    decreases frames.len(),
{
    if frames.len() == 0 {
        0
    } else {
        (if config.spawn_due(frames[0]) {
            1nat
        } else {
            0nat
        }) + spawn_count(config.after_spawner(frames[0]), frames.drop_first())
    }
}

/// The configuration after the spawner saw all of `frames`.
pub open spec fn after_frames(config: TrafficConfigView, frames: Seq<nat>) -> TrafficConfigView
    decreases frames.len(),
{
    if frames.len() == 0 {
        config
    } else {
        after_frames(config.after_spawner(frames[0]), frames.drop_first())
    }
}

/// Frames that together stay short of the interval never make the spawner
/// fire, however they are cut: the spawn timer just adds them up.
pub proof fn lemma_short_frames_spawn_nothing(config: TrafficConfigView, frames: Seq<nat>)
    requires
        config.wf(),
        config.spawn_timer.elapsed + total(frames) < config.density.interval(),
    ensures
        spawn_count(config, frames) == 0,
        after_frames(config, frames).wf(),
        after_frames(config, frames).spawn_timer.elapsed == config.spawn_timer.elapsed + total(
            frames,
        ),
    decreases frames.len(),
{
    if frames.len() > 0 {
        lemma_spawn_cadence(config, frames[0]);
        lemma_short_frames_spawn_nothing(config.after_spawner(frames[0]), frames.drop_first());
    }
}

/// Spawn cadence: frames that stay short of the interval, followed by one
/// frame that reaches it, make the spawner fire exactly once, on that last
/// frame, and leave the spawn timer at zero.
pub proof fn lemma_spawns_once_per_interval(
    config: TrafficConfigView,
    frames: Seq<nat>,
    last: nat,
)
    requires
        config.wf(),
        config.spawn_timer.elapsed + total(frames) < config.density.interval(),
        config.spawn_timer.elapsed + total(frames) + last >= config.density.interval(),
    ensures
        spawn_count(config, frames.push(last)) == 1,
        spawn_count(config, frames) == 0,
        after_frames(config, frames.push(last)).spawn_timer.elapsed == 0,
    decreases frames.len(),
{
    if frames.len() == 0 {
        assert(frames.push(last).drop_first() =~= Seq::<nat>::empty());
        lemma_spawn_cadence(config, last);
        assert(spawn_count(config.after_spawner(last), Seq::<nat>::empty()) == 0);
        assert(after_frames(config.after_spawner(last), Seq::<nat>::empty())
            == config.after_spawner(last));
    } else {
        lemma_spawn_cadence(config, frames[0]);
        assert(frames.push(last).drop_first() =~= frames.drop_first().push(last));
        lemma_spawns_once_per_interval(config.after_spawner(frames[0]), frames.drop_first(), last);
    }
}

/// The traffic settings of a run and the two timers that pace it.
#[derive(Clone, Copy, Debug)]
pub struct TrafficConfig {
    density: TrafficDensity,
    spawn_timer: Timer,
    update_timer: Timer,
}

impl View for TrafficConfig {
    type V = TrafficConfigView;

    closed spec fn view(&self) -> TrafficConfigView {
        TrafficConfigView {
            density: self.density,
            spawn_timer: self.spawn_timer@,
            update_timer: self.update_timer@,
        }
    }
}

impl TrafficConfig {
    /// Every configuration is well formed.
    #[verifier::type_invariant]
    pub open spec fn inv(self) -> bool {
        self@.wf()
    }

    /// The density of the run.
    pub fn density(&self) -> (density: TrafficDensity)
        ensures
            density == self@.density,
    {
        self.density
    }

    /// The timer that paces the spawner.
    pub fn spawn_timer(&self) -> (timer: Timer)
        ensures
            timer@ == self@.spawn_timer,
            self@.wf(),
    {
        proof {
            use_type_invariant(self);
        }
        self.spawn_timer
    }

    /// The timer that paces the updater.
    pub fn update_timer(&self) -> (timer: Timer)
        ensures
            timer@ == self@.update_timer,
            self@.wf(),
    {
        proof {
            use_type_invariant(self);
        }
        self.update_timer
    }
}

impl AerialVehicle {
    /// Updates the positions of all vehicles at the update timer's pace.
    ///
    /// The update timer advances by `delta` nanoseconds. When it expires,
    /// every vehicle flies for the time the timer shows, which is all the
    /// time since the last update, and the timer is reset. Otherwise no
    /// vehicle moves.
    pub fn update_position(vehicles: &mut Vec<AerialVehicle>, delta: u64, config: &mut TrafficConfig)
        ensures
            final(config)@ == old(config)@.after_updater(delta as nat),
            final(config)@.wf(),
            final(vehicles).deep_view() == old(config)@.updated(
                delta as nat,
                old(vehicles).deep_view(),
            ),
            final(vehicles)@.len() == old(vehicles)@.len(),
            delta == 0 ==> final(vehicles).deep_view() == old(vehicles).deep_view(),
    {
        proof {
            use_type_invariant(&*config);
        }
        let mut timer = config.update_timer;
        timer.tick(delta);
        if timer.finished() {
            let elapsed = timer.elapsed();
            let mut i: usize = 0;
            while i < vehicles.len()
                invariant
                    i <= vehicles@.len(),
                    vehicles@.len() == old(vehicles)@.len(),
                    forall|k: int|
                        0 <= k < i ==> (#[trigger] vehicles@[k])@ == old(vehicles)@[k]@.flown(
                            elapsed as nat,
                        ),
                    forall|k: int|
                        i <= k < vehicles@.len() ==> (#[trigger] vehicles@[k]) == old(vehicles)@[k],
                decreases vehicles@.len() - i,
            {
                let vehicle = &mut vehicles[i];
                vehicle.fly(elapsed);
                i += 1;
            }
            timer.reset();
        } else {
        }
        config.update_timer = timer;
    }
}

/// The first and the last capital letter, as character codes.
pub const LETTER_FIRST: i64 = 65;

pub const LETTER_LAST: i64 = 90;

/// The range of the number in a callsign.
pub const NUMBER_MIN: i64 = 1;

pub const NUMBER_MAX: i64 = 999;

/// The range of altitudes at which vehicles appear.
pub const ALTITUDE_MIN: i64 = 40_000;

pub const ALTITUDE_MAX: i64 = 100_000;

/// The range of speeds, in knots, at which vehicles appear.
pub const SPEED_MIN: i64 = 200;

pub const SPEED_MAX: i64 = 500;

/// The range of headings, in degrees, on which vehicles appear.
pub const HEADING_MIN: i64 = 0;

pub const HEADING_MAX: i64 = 360;

/// The capital letter with code `code`.
pub open spec fn letter(code: i64) -> char
    recommends
        LETTER_FIRST <= code <= LETTER_LAST,
{
    (code as u8) as char
}

/// The largest index that a target may be picked at among `airports`
/// airports.
pub open spec fn last_pick(airports: nat) -> i64
    recommends
        airports > 0,
{
    if airports - 1 > i64::MAX {
        i64::MAX
    } else {
        (airports - 1) as i64
    }
}

/// The target of a vehicle: the name of the airport picked at `pick`, or
/// DXB where there is no such airport.
pub open spec fn target_name(airports: Seq<AirportView>, pick: int) -> Seq<char> {
    if 0 <= pick < airports.len() {
        airports[pick].name
    } else {
        "DXB"@
    }
}

/// What the spawner draws for a new vehicle, in the order it draws: two
/// letters, the number, altitude, speed, heading, the pick of a target if
/// there is an airport, and the position.
pub struct Draws {
    pub first: i64,
    pub second: i64,
    pub number: i64,
    pub altitude: i64,
    pub speed: i64,
    pub heading: i64,
    pub pick: int,
    pub position: Point,
    pub stream: Stream,
}

/// The draws that a generator in state `stream` makes for a new vehicle, and
/// its state afterwards. With no airport nothing is drawn for the target and
/// the pick is -1.
pub open spec fn draws(stream: Stream, airports: nat, plane: Plane) -> Draws {
    let s1 = stream.after(LETTER_FIRST, LETTER_LAST);
    let s2 = s1.after(LETTER_FIRST, LETTER_LAST);
    let s3 = s2.after(NUMBER_MIN, NUMBER_MAX);
    let s4 = s3.after(ALTITUDE_MIN, ALTITUDE_MAX);
    let s5 = s4.after(SPEED_MIN, SPEED_MAX);
    let s6 = s5.after(HEADING_MIN, HEADING_MAX);
    let s7 = if airports > 0 {
        s6.after(0, last_pick(airports))
    } else {
        s6
    };
    Draws {
        first: stream.value(LETTER_FIRST, LETTER_LAST),
        second: s1.value(LETTER_FIRST, LETTER_LAST),
        number: s2.value(NUMBER_MIN, NUMBER_MAX),
        altitude: s3.value(ALTITUDE_MIN, ALTITUDE_MAX),
        speed: s4.value(SPEED_MIN, SPEED_MAX),
        heading: s5.value(HEADING_MIN, HEADING_MAX),
        pick: if airports > 0 {
            s6.value(0, last_pick(airports)) as int
        } else {
            -1
        },
        position: plane.sampled(s7),
        stream: plane.after_sample(s7),
    }
}

/// The vehicle that `drawn` describes when the airports are `airports`.
pub open spec fn vehicle_of(drawn: Draws, airports: Seq<AirportView>) -> VehicleView {
    VehicleView {
        name: callsign_text(letter(drawn.first), letter(drawn.second), drawn.number as u16),
        altitude: drawn.altitude as u32,
        speed: drawn.speed as u32,
        heading: drawn.heading as u16,
        target: target_name(airports, drawn.pick),
        position: drawn.position,
    }
}

/// Whether `c` is one of the capital letters A to Z.
pub open spec fn is_capital(c: char) -> bool {
    LETTER_FIRST <= c as u32 <= LETTER_LAST
}

/// What holds of every vehicle the spawner makes, whatever was drawn: the
/// name is two capital letters and a number from 1 to 999; altitude, speed
/// and heading lie in their ranges; the target is one of the airports, or
/// DXB where there is none; the position lies in the sampled region.
pub open spec fn newly_spawned(vehicle: VehicleView, airports: Seq<AirportView>, plane: Plane) -> bool {
    &&& exists|first: char, second: char, number: u16|
        is_capital(first) && is_capital(second) && NUMBER_MIN <= number <= NUMBER_MAX
            && vehicle.name == #[trigger] callsign_text(first, second, number)
    &&& ALTITUDE_MIN <= vehicle.altitude <= ALTITUDE_MAX
    &&& SPEED_MIN <= vehicle.speed <= SPEED_MAX
    &&& HEADING_MIN <= vehicle.heading <= HEADING_MAX
    &&& if airports.len() > 0 {
        exists|k: int| 0 <= k < airports.len() && vehicle.target == (#[trigger] airports[k]).name
    } else {
        vehicle.target == "DXB"@
    }
    &&& plane.covers(vehicle.position)
}

/// The traffic component, configured with a density.
#[derive(Clone, Copy, Debug)]
pub struct TrafficPlugin {
    density: TrafficDensity,
}

impl TrafficPlugin {
    /// The component for `density`.
    pub fn from_density(density: TrafficDensity) -> (plugin: Self)
        ensures
            plugin.density() == density,
    {
        Self { density }
    }

    /// The density this component spawns at.
    #[verifier::when_used_as_spec(spec_density)]
    pub fn density(&self) -> (density: TrafficDensity)
        ensures
            density == self.spec_density(),
    {
        self.density
    }

    /// The density this component spawns at.
    pub closed spec fn spec_density(&self) -> TrafficDensity {
        self.density
    }

    /// A fresh one-shot timer over the density's spawn interval.
    pub fn create_spawn_timer(&self) -> (timer: Timer)
        ensures
            timer@ == TimerView::fresh(self.density().interval(), TimerMode::Once),
    {
        Timer::new(self.density.spawn_interval(), TimerMode::Once)
    }

    /// The configuration a run starts with: the density, a fresh spawn timer
    /// and a fresh update timer of one second.
    pub fn build(&self) -> (config: TrafficConfig)
        ensures
            config@ == TrafficConfigView::initial(self.density()),
            config@.wf(),
    {
        TrafficConfig {
            density: self.density,
            spawn_timer: self.create_spawn_timer(),
            update_timer: Timer::from_seconds(1, TimerMode::Once),
        }
    }

    /// The name of the airport picked at `pick` as a target, or DXB where
    /// there is no such airport.
    pub fn choose_target(airports: &Vec<Airport>, pick: usize) -> (target: String)
        ensures
            target@ == target_name(airports.deep_view(), pick as int),
    {
        if pick < airports.len() {
            airports[pick].name.clone()
        } else {
            "DXB".to_owned()
        }
    }

    /// The vehicle with the given attributes at the point (`x`, `y`).
    pub fn spawn_av(
        name: String,
        altitude: u32,
        speed: u32,
        heading: u16,
        target: String,
        x: i64,
        y: i64,
    ) -> (vehicle: AerialVehicle)
        ensures
            vehicle@ == (VehicleView {
                name: name@,
                altitude,
                speed,
                heading,
                target: target@,
                position: Point { x, y },
            }),
    {
        AerialVehicle { name, altitude, speed, heading, target, position: Point { x, y } }
    }

    /// Spawns new traffic at the pace of the density.
    ///
    /// The spawn timer advances by `delta` nanoseconds. When it expires, one
    /// vehicle is made from fresh draws and the timer is reset to zero,
    /// however far `delta` overshot the interval. Otherwise nothing is drawn
    /// and nothing is made.
    pub fn traffic_spawner(
        config: &mut TrafficConfig,
        delta: u64,
        rng: &mut Generator,
        airports: &Vec<Airport>,
        plane: &Plane,
    ) -> (spawned: Option<AerialVehicle>)
        ensures
            final(config)@ == old(config)@.after_spawner(delta as nat),
            final(config)@.wf(),
            old(config)@.spawn_due(delta as nat) ==> final(rng)@ == draws(
                old(rng)@,
                airports@.len(),
                *plane,
            ).stream,
            old(config)@.spawn_due(delta as nat) ==> (spawned matches Some(vehicle) && vehicle@
                == vehicle_of(draws(old(rng)@, airports@.len(), *plane), airports.deep_view())
                && newly_spawned(vehicle@, airports.deep_view(), *plane)),
            !old(config)@.spawn_due(delta as nat) ==> spawned.is_none() && final(rng)@ == old(rng)@,
    {
        proof {
            use_type_invariant(&*config);
        }
        let mut timer = config.spawn_timer;
        timer.tick(delta);
        if !timer.finished() {
            config.spawn_timer = timer;
            return None;
        }
        let first = rng.draw_in_range(LETTER_FIRST, LETTER_LAST);
        let second = rng.draw_in_range(LETTER_FIRST, LETTER_LAST);
        let number = rng.draw_in_range(NUMBER_MIN, NUMBER_MAX);
        let altitude = rng.draw_in_range(ALTITUDE_MIN, ALTITUDE_MAX);
        let speed = rng.draw_in_range(SPEED_MIN, SPEED_MAX);
        let heading = rng.draw_in_range(HEADING_MIN, HEADING_MAX);
        let target = if airports.len() > 0 {
            let last: u64 = (airports.len() - 1) as u64;
            let high: i64 = if last > 0x7fff_ffff_ffff_ffff {
                0x7fff_ffff_ffff_ffff
            } else {
                last as i64
            };
            let pick = rng.draw_in_range(0, high);
            Self::choose_target(airports, pick as usize)
        } else {
            Self::choose_target(airports, 0)
        };
        timer.reset();
        config.spawn_timer = timer;
        let point = plane.sample_point(rng);
        let name = AerialVehicle::callsign(first as u8 as char, second as u8 as char, number as u16);
        Some(
            Self::spawn_av(
                name,
                altitude as u32,
                speed as u32,
                heading as u16,
                target,
                point.x,
                point.y,
            ),
        )
    }
}

} // verus!
