use cursor_quads::fixed::{div_floor, div_nearest};

#[test]
fn floor_division_goes_toward_minus_infinity() {
    assert_eq!(div_floor(7, 2), 3);
    assert_eq!(div_floor(-7, 2), -4);
    assert_eq!(div_floor(-8, 2), -4);
    assert_eq!(div_floor(-1, 1_000_000), -1);
    assert_eq!(div_floor(0, 5), 0);
    assert_eq!(div_floor(i128::MIN, 1), i128::MIN);
    assert_eq!(div_floor(i128::MIN, i128::MAX), -2);
    assert_eq!(div_floor(i128::MAX, i128::MAX), 1);
    assert_eq!(div_floor(-5, 5), -1);
    assert_eq!(div_floor(-6, 5), -2);
}

#[test]
fn nearest_division_sends_ties_upward() {
    assert_eq!(div_nearest(7, 2), 4);
    assert_eq!(div_nearest(5, 2), 3);
    assert_eq!(div_nearest(-5, 2), -2);
    assert_eq!(div_nearest(-7, 2), -3);
    assert_eq!(div_nearest(14, 10), 1);
    assert_eq!(div_nearest(15, 10), 2);
    assert_eq!(div_nearest(16, 10), 2);
    assert_eq!(div_nearest(-14, 10), -1);
    assert_eq!(div_nearest(-15, 10), -1);
    assert_eq!(div_nearest(-16, 10), -2);
    assert_eq!(div_nearest(0, 3), 0);
    assert_eq!(div_nearest(1_600_000_000_000, 1_000_000_000_000), 2);
}
