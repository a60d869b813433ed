//! Direction of flight: fixed-point sine and cosine of a heading in whole
//! degrees.
//!
//! A heading is an angle in degrees, measured from the reference axis towards
//! the perpendicular axis. A vehicle on heading 0 flies along the reference
//! axis, one on heading 90 along the perpendicular axis. Headings that differ
//! by a multiple of 360 are the same direction.
//!
//! Sines come from a table of the first quarter turn, in millionths. Along
//! the axes the direction is exact; elsewhere it is a unit vector to within
//! the rounding of the table.

use vstd::prelude::*;

verus! {

/// The fixed-point value of 1: sines and cosines are held in millionths.
pub const TRIG_SCALE: i64 = 1_000_000;

/// Sines of 0 to 90 degrees in millionths, rounded to the nearest.
pub const QUARTER_SINE: [u32; 91] = [
    0, 17452, 34899, 52336, 69756, 87156, 104528, 121869, 139173, 156434,
    173648, 190809, 207912, 224951, 241922, 258819, 275637, 292372, 309017, 325568,
    342020, 358368, 374607, 390731, 406737, 422618, 438371, 453990, 469472, 484810,
    500000, 515038, 529919, 544639, 559193, 573576, 587785, 601815, 615661, 629320,
    642788, 656059, 669131, 681998, 694658, 707107, 719340, 731354, 743145, 754710,
    766044, 777146, 788011, 798636, 809017, 819152, 829038, 838671, 848048, 857167,
    866025, 874620, 882948, 891007, 898794, 906308, 913545, 920505, 927184, 933580,
    939693, 945519, 951057, 956305, 961262, 965926, 970296, 974370, 978148, 981627,
    984808, 987688, 990268, 992546, 994522, 996195, 997564, 998630, 999391, 999848,
    1000000,
];

/// The sine of `degrees` in millionths, for `degrees` from 0 to 90.
pub open spec fn quarter_sine(degrees: int) -> int
    recommends
        0 <= degrees <= 90,
{
    QUARTER_SINE@[degrees] as int
}

/// The sine of `degrees` in millionths, `degrees` already reduced to
/// `0..360`: the quarter wave mirrored about 90 and negated past 180.
pub open spec fn reduced_sine(degrees: int) -> int
    recommends
        0 <= degrees < 360,
{
    if degrees <= 90 {
        quarter_sine(degrees)
    } else if degrees <= 180 {
        quarter_sine(180 - degrees)
    } else if degrees <= 270 {
        -quarter_sine(degrees - 180)
    } else {
        -quarter_sine(360 - degrees)
    }
}

/// The sine of a heading, in millionths.
pub open spec fn sine(heading: int) -> int {
    reduced_sine(heading % 360)
}

/// The cosine of a heading, in millionths: the sine a quarter turn on.
pub open spec fn cosine(heading: int) -> int {
    reduced_sine((heading + 90) % 360)
}

/// Every entry of the quarter wave lies between 0 and the scale, the wave
/// starts at 0 and ends at the scale.
pub proof fn lemma_quarter_sine_range(degrees: int)
    ensures
        0 <= degrees <= 90 ==> 0 <= quarter_sine(degrees) <= TRIG_SCALE,
        quarter_sine(0) == 0,
        quarter_sine(90) == TRIG_SCALE,
{
}

/// Sine and cosine of any heading lie between minus the scale and the scale.
pub proof fn lemma_direction_range(heading: int)
    ensures
        -TRIG_SCALE <= sine(heading) <= TRIG_SCALE,
        -TRIG_SCALE <= cosine(heading) <= TRIG_SCALE,
{
    let r = heading % 360;
    let q = (heading + 90) % 360;
    lemma_quarter_sine_range(r);
    lemma_quarter_sine_range(180 - r);
    lemma_quarter_sine_range(r - 180);
    lemma_quarter_sine_range(360 - r);
    lemma_quarter_sine_range(q);
    lemma_quarter_sine_range(180 - q);
    lemma_quarter_sine_range(q - 180);
    lemma_quarter_sine_range(360 - q);
}

/// A full turn changes nothing.
pub proof fn lemma_full_turn(heading: int)
    ensures
        sine(heading + 360) == sine(heading),
        cosine(heading + 360) == cosine(heading),
{
    vstd::arithmetic::div_mod::lemma_mod_add_multiples_vanish(heading, 360);
    vstd::arithmetic::div_mod::lemma_mod_add_multiples_vanish(heading + 90, 360);
}

/// Along the axes the direction is exact: the scale along one axis, nothing
/// along the other.
pub proof fn lemma_axis_directions()
    ensures
        cosine(0) == TRIG_SCALE && sine(0) == 0,
        cosine(90) == 0 && sine(90) == TRIG_SCALE,
        cosine(180) == -TRIG_SCALE && sine(180) == 0,
        cosine(270) == 0 && sine(270) == -TRIG_SCALE,
{
}

/// How far the squares of a sine and a cosine may fall from the square of
/// the scale: the table entries are rounded, so the sum is close, not equal.
pub open spec fn unit_slack() -> int {
    2 * TRIG_SCALE
}

/// Whether `along` and `across` are the components of a unit vector, to
/// within the slack.
pub open spec fn unit_length(along: int, across: int) -> bool {
    TRIG_SCALE * TRIG_SCALE - unit_slack() <= along * along + across * across <= TRIG_SCALE
        * TRIG_SCALE + unit_slack()
}

/// Two table entries with the values `first` and `second`, which form a
/// unit vector, form one themselves.
proof fn lemma_unit_pair(along: int, across: int, first: int, second: int)
    requires
        along == first,
        across == second,
        unit_length(first, second),
    ensures
        unit_length(along, across),
        unit_length(across, along),
{
}

/// An angle of the quarter wave and its complement: their sines are the sine
/// and the cosine of one angle, and form a unit vector to within the slack.
/// Proved entry by entry.
pub proof fn lemma_quarter_unit(degrees: int)
    requires
        0 <= degrees <= 90,
    ensures
        unit_length(quarter_sine(degrees), quarter_sine(90 - degrees)),
{
    if degrees == 0 || degrees == 90 {
        lemma_unit_pair(quarter_sine(0), quarter_sine(90), 0, 1000000);
    }
    if degrees == 1 || degrees == 89 {
        lemma_unit_pair(quarter_sine(1), quarter_sine(89), 17452, 999848);
    }
    if degrees == 2 || degrees == 88 {
        lemma_unit_pair(quarter_sine(2), quarter_sine(88), 34899, 999391);
    }
    if degrees == 3 || degrees == 87 {
        lemma_unit_pair(quarter_sine(3), quarter_sine(87), 52336, 998630);
    }
    if degrees == 4 || degrees == 86 {
        lemma_unit_pair(quarter_sine(4), quarter_sine(86), 69756, 997564);
    }
    if degrees == 5 || degrees == 85 {
        lemma_unit_pair(quarter_sine(5), quarter_sine(85), 87156, 996195);
    }
    if degrees == 6 || degrees == 84 {
        lemma_unit_pair(quarter_sine(6), quarter_sine(84), 104528, 994522);
    }
    if degrees == 7 || degrees == 83 {
        lemma_unit_pair(quarter_sine(7), quarter_sine(83), 121869, 992546);
    }
    if degrees == 8 || degrees == 82 {
        lemma_unit_pair(quarter_sine(8), quarter_sine(82), 139173, 990268);
    }
    if degrees == 9 || degrees == 81 {
        lemma_unit_pair(quarter_sine(9), quarter_sine(81), 156434, 987688);
    }
    if degrees == 10 || degrees == 80 {
        lemma_unit_pair(quarter_sine(10), quarter_sine(80), 173648, 984808);
    }
    if degrees == 11 || degrees == 79 {
        lemma_unit_pair(quarter_sine(11), quarter_sine(79), 190809, 981627);
    }
    if degrees == 12 || degrees == 78 {
        lemma_unit_pair(quarter_sine(12), quarter_sine(78), 207912, 978148);
    }
    if degrees == 13 || degrees == 77 {
        lemma_unit_pair(quarter_sine(13), quarter_sine(77), 224951, 974370);
    }
    if degrees == 14 || degrees == 76 {
        lemma_unit_pair(quarter_sine(14), quarter_sine(76), 241922, 970296);
    }
    if degrees == 15 || degrees == 75 {
        lemma_unit_pair(quarter_sine(15), quarter_sine(75), 258819, 965926);
    }
    if degrees == 16 || degrees == 74 {
        lemma_unit_pair(quarter_sine(16), quarter_sine(74), 275637, 961262);
    }
    if degrees == 17 || degrees == 73 {
        lemma_unit_pair(quarter_sine(17), quarter_sine(73), 292372, 956305);
    }
    if degrees == 18 || degrees == 72 {
        lemma_unit_pair(quarter_sine(18), quarter_sine(72), 309017, 951057);
    }
    if degrees == 19 || degrees == 71 {
        lemma_unit_pair(quarter_sine(19), quarter_sine(71), 325568, 945519);
    }
    if degrees == 20 || degrees == 70 {
        lemma_unit_pair(quarter_sine(20), quarter_sine(70), 342020, 939693);
    }
    if degrees == 21 || degrees == 69 {
        lemma_unit_pair(quarter_sine(21), quarter_sine(69), 358368, 933580);
    }
    if degrees == 22 || degrees == 68 {
        lemma_unit_pair(quarter_sine(22), quarter_sine(68), 374607, 927184);
    }
    if degrees == 23 || degrees == 67 {
        lemma_unit_pair(quarter_sine(23), quarter_sine(67), 390731, 920505);
    }
    if degrees == 24 || degrees == 66 {
        lemma_unit_pair(quarter_sine(24), quarter_sine(66), 406737, 913545);
    }
    if degrees == 25 || degrees == 65 {
        lemma_unit_pair(quarter_sine(25), quarter_sine(65), 422618, 906308);
    }
    if degrees == 26 || degrees == 64 {
        lemma_unit_pair(quarter_sine(26), quarter_sine(64), 438371, 898794);
    }
    if degrees == 27 || degrees == 63 {
        lemma_unit_pair(quarter_sine(27), quarter_sine(63), 453990, 891007);
    }
    if degrees == 28 || degrees == 62 {
        lemma_unit_pair(quarter_sine(28), quarter_sine(62), 469472, 882948);
    }
    if degrees == 29 || degrees == 61 {
        lemma_unit_pair(quarter_sine(29), quarter_sine(61), 484810, 874620);
    }
    if degrees == 30 || degrees == 60 {
        lemma_unit_pair(quarter_sine(30), quarter_sine(60), 500000, 866025);
    }
    if degrees == 31 || degrees == 59 {
        lemma_unit_pair(quarter_sine(31), quarter_sine(59), 515038, 857167);
    }
    if degrees == 32 || degrees == 58 {
        lemma_unit_pair(quarter_sine(32), quarter_sine(58), 529919, 848048);
    }
    if degrees == 33 || degrees == 57 {
        lemma_unit_pair(quarter_sine(33), quarter_sine(57), 544639, 838671);
    }
    if degrees == 34 || degrees == 56 {
        lemma_unit_pair(quarter_sine(34), quarter_sine(56), 559193, 829038);
    }
    if degrees == 35 || degrees == 55 {
        lemma_unit_pair(quarter_sine(35), quarter_sine(55), 573576, 819152);
    }
    if degrees == 36 || degrees == 54 {
        lemma_unit_pair(quarter_sine(36), quarter_sine(54), 587785, 809017);
    }
    if degrees == 37 || degrees == 53 {
        lemma_unit_pair(quarter_sine(37), quarter_sine(53), 601815, 798636);
    }
    if degrees == 38 || degrees == 52 {
        lemma_unit_pair(quarter_sine(38), quarter_sine(52), 615661, 788011);
    }
    if degrees == 39 || degrees == 51 {
        lemma_unit_pair(quarter_sine(39), quarter_sine(51), 629320, 777146);
    }
    if degrees == 40 || degrees == 50 {
        lemma_unit_pair(quarter_sine(40), quarter_sine(50), 642788, 766044);
    }
    if degrees == 41 || degrees == 49 {
        lemma_unit_pair(quarter_sine(41), quarter_sine(49), 656059, 754710);
    }
    if degrees == 42 || degrees == 48 {
        lemma_unit_pair(quarter_sine(42), quarter_sine(48), 669131, 743145);
    }
    if degrees == 43 || degrees == 47 {
        lemma_unit_pair(quarter_sine(43), quarter_sine(47), 681998, 731354);
    }
    if degrees == 44 || degrees == 46 {
        lemma_unit_pair(quarter_sine(44), quarter_sine(46), 694658, 719340);
    }
    if degrees == 45 || degrees == 45 {
        lemma_unit_pair(quarter_sine(45), quarter_sine(45), 707107, 707107);
    }
}

/// Swapping the components of a unit vector, or turning one of them round,
/// leaves a unit vector.
proof fn lemma_unit_mirrored(along: int, across: int)
    requires
        unit_length(along, across),
    ensures
        unit_length(across, along),
        unit_length(-along, across),
        unit_length(along, -across),
        unit_length(-along, -across),
{
    assert((-along) * (-along) == along * along) by (nonlinear_arith);
    assert((-across) * (-across) == across * across) by (nonlinear_arith);
}

/// The direction of any heading is a unit vector to within the slack.
pub proof fn lemma_unit_direction(heading: int)
    ensures
        unit_length(cosine(heading), sine(heading)),
{
    let r = heading % 360;
    let q = (heading + 90) % 360;
    assert(q == if r < 270 {
        r + 90
    } else {
        r - 270
    });
    if r <= 90 {
        lemma_quarter_unit(r);
        lemma_unit_mirrored(quarter_sine(r), quarter_sine(90 - r));
        assert(sine(heading) == quarter_sine(r));
        assert(cosine(heading) == quarter_sine(180 - q));
    } else if r <= 180 {
        lemma_quarter_unit(180 - r);
        lemma_unit_mirrored(quarter_sine(180 - r), quarter_sine(r - 90));
        lemma_unit_mirrored(quarter_sine(r - 90), quarter_sine(180 - r));
        assert(sine(heading) == quarter_sine(180 - r));
        assert(cosine(heading) == -quarter_sine(q - 180));
    } else if r < 270 {
        lemma_quarter_unit(r - 180);
        lemma_unit_mirrored(quarter_sine(r - 180), quarter_sine(270 - r));
        lemma_unit_mirrored(quarter_sine(270 - r), quarter_sine(r - 180));
        assert(sine(heading) == -quarter_sine(r - 180));
        assert(cosine(heading) == -quarter_sine(360 - q));
    } else {
        lemma_quarter_unit(360 - r);
        lemma_unit_mirrored(quarter_sine(360 - r), quarter_sine(r - 270));
        lemma_unit_mirrored(quarter_sine(r - 270), quarter_sine(360 - r));
        assert(sine(heading) == -quarter_sine(360 - r));
        assert(cosine(heading) == quarter_sine(q));
    }
}

fn reduced_sin(degrees: u16) -> (value: i64)
    requires
        degrees < 360,
    ensures
        value == reduced_sine(degrees as int),
{
    if degrees <= 90 {
        QUARTER_SINE[degrees as usize] as i64
    } else if degrees <= 180 {
        QUARTER_SINE[(180 - degrees) as usize] as i64
    } else if degrees <= 270 {
        -(QUARTER_SINE[(degrees - 180) as usize] as i64)
    } else {
        -(QUARTER_SINE[(360 - degrees) as usize] as i64)
    }
}

/// The sine of `heading` degrees, in millionths.
pub fn sin_deg(heading: u16) -> (value: i64)
    ensures
        value == sine(heading as int),
{
    reduced_sin(heading % 360)
}

/// The cosine of `heading` degrees, in millionths.
pub fn cos_deg(heading: u16) -> (value: i64)
    ensures
        value == cosine(heading as int),
{
    reduced_sin((heading % 360 + 90) % 360)
}

} // verus!
