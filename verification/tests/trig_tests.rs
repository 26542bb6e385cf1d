use mecanum_core::trig::cos_mdeg;
use mecanum_core::trig::sin_mdeg;

#[test]
fn sine_exact_nodes() {
    // The rational approximation is exact at these angles.
    assert_eq!(sin_mdeg(0), 0);
    assert_eq!(sin_mdeg(30_000), 500);
    assert_eq!(sin_mdeg(90_000), 1000);
    assert_eq!(sin_mdeg(150_000), 500);
    assert_eq!(sin_mdeg(180_000), 0);
    assert_eq!(sin_mdeg(210_000), -500);
    assert_eq!(sin_mdeg(270_000), -1000);
    assert_eq!(sin_mdeg(330_000), -500);
}

#[test]
fn cosine_exact_nodes() {
    assert_eq!(cos_mdeg(0), 1000);
    assert_eq!(cos_mdeg(60_000), 500);
    assert_eq!(cos_mdeg(90_000), 0);
    assert_eq!(cos_mdeg(120_000), -500);
    assert_eq!(cos_mdeg(180_000), -1000);
    assert_eq!(cos_mdeg(270_000), 0);
}

#[test]
fn sine_forty_five_degrees() {
    // 4 * 45 * 135 / (40500 - 45 * 135) = 0.70588..., scaled and floored.
    assert_eq!(sin_mdeg(45_000), 705);
    assert_eq!(cos_mdeg(45_000), 705);
}

#[test]
fn sine_stays_scaled() {
    let mut a: i64 = 0;
    while a < 360_000 {
        let s = sin_mdeg(a);
        let c = cos_mdeg(a);
        assert!((-1000..=1000).contains(&s));
        assert!((-1000..=1000).contains(&c));
        a += 1_111;
    }
}
