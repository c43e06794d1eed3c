use shop_server::clock::{is_after, time_left, Moment};

#[test]
fn whole_second_moment() {
    let m = Moment::at_second(1_700_000_000).unwrap();
    assert_eq!(m.seconds(), 1_700_000_000);
    assert_eq!(m.nanoseconds(), 0);
}

#[test]
fn out_of_range_second_has_no_moment() {
    assert!(Moment::at_second(i64::MAX).is_none());
    assert!(Moment::at_second(i64::MIN).is_none());
    assert!(Moment::at_second(253_402_300_799).is_some());
}

#[test]
fn order_of_moments() {
    let a = Moment::at_second(10).unwrap();
    let b = Moment::at_second(11).unwrap();
    assert!(is_after(b, a));
    assert!(!is_after(a, b));
    assert!(!is_after(a, a));
}

#[test]
fn time_left_in_whole_seconds() {
    let now = Moment::at_second(100).unwrap();
    assert_eq!(time_left(Moment::at_second(110).unwrap(), now), "10s");
    assert_eq!(time_left(Moment::at_second(190).unwrap(), now), "1m30s");
}

#[test]
fn time_left_with_nanoseconds() {
    let now = Moment::now();
    assert!(now.nanoseconds() < 1_000_000_000);
    let until = Moment::at_second(now.seconds() + 5).unwrap();
    let text = time_left(until, now);
    if now.nanoseconds() == 0 {
        assert_eq!(text, "5s");
    } else {
        assert!(text.starts_with("4s"));
    }
}
