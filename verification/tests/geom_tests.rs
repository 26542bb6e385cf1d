use mecanum_core::geom::distance_mm;
use mecanum_core::geom::isqrt_u64;
use mecanum_core::geom::Point;

#[test]
fn isqrt_small_values() {
    assert_eq!(isqrt_u64(0), 0);
    assert_eq!(isqrt_u64(1), 1);
    assert_eq!(isqrt_u64(2), 1);
    assert_eq!(isqrt_u64(3), 1);
    assert_eq!(isqrt_u64(4), 2);
    assert_eq!(isqrt_u64(15), 3);
    assert_eq!(isqrt_u64(16), 4);
    assert_eq!(isqrt_u64(17), 4);
}

#[test]
fn isqrt_large_values() {
    assert_eq!(isqrt_u64(1_000_000_000_000), 1_000_000);
    assert_eq!(isqrt_u64(999_999_999_999), 999_999);
    assert_eq!(isqrt_u64(u64::MAX), 4_294_967_295);
}

#[test]
fn distance_pythagorean() {
    let a = Point { x: 0, y: 0 };
    let b = Point { x: 3_000, y: 4_000 };
    assert_eq!(distance_mm(a, b), 5_000);
    assert_eq!(distance_mm(b, a), 5_000);
}

#[test]
fn distance_zero_and_rounding() {
    let p = Point { x: -123, y: 456 };
    assert_eq!(distance_mm(p, p), 0);
    // sqrt(2) * 1000 = 1414.2..., floored.
    let o = Point { x: 0, y: 0 };
    let q = Point { x: 1_000, y: 1_000 };
    assert_eq!(distance_mm(o, q), 1_414);
}

#[test]
fn distance_negative_coordinates() {
    let a = Point { x: -3_000, y: -4_000 };
    let b = Point { x: 0, y: 0 };
    assert_eq!(distance_mm(a, b), 5_000);
}
