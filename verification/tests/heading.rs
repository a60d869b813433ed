use mayday::heading::{cos_deg, sin_deg, QUARTER_SINE, TRIG_SCALE};

#[test]
fn directions_along_the_axes_are_exact() {
    assert_eq!((cos_deg(0), sin_deg(0)), (1_000_000, 0));
    assert_eq!((cos_deg(90), sin_deg(90)), (0, 1_000_000));
    assert_eq!((cos_deg(180), sin_deg(180)), (-1_000_000, 0));
    assert_eq!((cos_deg(270), sin_deg(270)), (0, -1_000_000));
    assert_eq!((cos_deg(360), sin_deg(360)), (1_000_000, 0));
}

#[test]
fn directions_in_each_quadrant() {
    assert_eq!((cos_deg(30), sin_deg(30)), (866_025, 500_000));
    assert_eq!((cos_deg(45), sin_deg(45)), (707_107, 707_107));
    assert_eq!((cos_deg(120), sin_deg(120)), (-500_000, 866_025));
    assert_eq!((cos_deg(225), sin_deg(225)), (-707_107, -707_107));
    assert_eq!((cos_deg(300), sin_deg(300)), (500_000, -866_025));
    assert_eq!((cos_deg(1), sin_deg(1)), (999_848, 17_452));
    assert_eq!((cos_deg(359), sin_deg(359)), (999_848, -17_452));
}

#[test]
fn headings_wrap_after_a_full_turn() {
    for h in 0u16..=360 {
        assert_eq!(sin_deg(h + 360), sin_deg(h));
        assert_eq!(cos_deg(h + 720), cos_deg(h));
    }
    assert_eq!(sin_deg(u16::MAX), sin_deg(u16::MAX % 360));
    assert_eq!(cos_deg(u16::MAX), cos_deg(u16::MAX % 360));
}

#[test]
fn table_matches_the_sine() {
    assert_eq!(QUARTER_SINE.len(), 91);
    for (d, entry) in QUARTER_SINE.iter().enumerate() {
        let exact = (d as f64).to_radians().sin() * TRIG_SCALE as f64;
        assert_eq!(*entry as i64, exact.round() as i64);
    }
}

#[test]
fn directions_are_unit_vectors() {
    let scale = TRIG_SCALE as i128;
    for h in 0u16..=360 {
        let c = cos_deg(h) as i128;
        let s = sin_deg(h) as i128;
        assert!(c.abs() <= scale && s.abs() <= scale);
        let off = (c * c + s * s - scale * scale).abs();
        assert!(off <= 2 * scale);
        let exact = (h as f64).to_radians();
        assert!((c as f64 / 1e6 - exact.cos()).abs() < 1e-6);
        assert!((s as f64 / 1e6 - exact.sin()).abs() < 1e-6);
    }
}
