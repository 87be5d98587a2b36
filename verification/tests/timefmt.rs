use rusic::millis_to_minutes;
use rusic::to_millis;

#[test]
fn to_millis_combines_seconds_and_nanos() {
    assert_eq!(to_millis(0, 0), 0);
    assert_eq!(to_millis(3, 0), 3000);
    assert_eq!(to_millis(3, 999_999), 3000);
    assert_eq!(to_millis(3, 1_000_000), 3001);
    assert_eq!(to_millis(59, 999_999_999), 59_999);
}

#[test]
fn minutes_render_with_two_second_digits() {
    assert_eq!(millis_to_minutes(0), "0:00");
    assert_eq!(millis_to_minutes(999), "0:00");
    assert_eq!(millis_to_minutes(1000), "0:01");
    assert_eq!(millis_to_minutes(59_999), "0:59");
    assert_eq!(millis_to_minutes(60_000), "1:00");
    assert_eq!(millis_to_minutes(65_000), "1:05");
    assert_eq!(millis_to_minutes(3_600_000), "60:00");
    assert_eq!(millis_to_minutes(754_000), "12:34");
}
