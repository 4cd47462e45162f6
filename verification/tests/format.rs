use game_time_manager::format::{push_decimal, run_time_message};

#[test]
fn run_time_message_hours_and_minutes() {
    assert_eq!(run_time_message(3725), "1h 2m");
}

#[test]
fn run_time_message_zero() {
    assert_eq!(run_time_message(0), "0h 0m");
}

#[test]
fn run_time_message_drops_seconds() {
    assert_eq!(run_time_message(59), "0h 0m");
    assert_eq!(run_time_message(3599), "0h 59m");
    assert_eq!(run_time_message(3600), "1h 0m");
}

#[test]
fn run_time_message_many_hours() {
    assert_eq!(run_time_message(360000 + 45 * 60 + 7), "100h 45m");
}

#[test]
fn run_time_message_largest() {
    let rt = u64::MAX;
    let expected = format!("{}h {}m", rt / 60 / 60, rt / 60 % 60);
    assert_eq!(run_time_message(rt), expected);
}

#[test]
fn push_decimal_appends() {
    let mut s = String::from("x=");
    push_decimal(&mut s, 1234567890);
    assert_eq!(s, "x=1234567890");
    let mut z = String::new();
    push_decimal(&mut z, 0);
    assert_eq!(z, "0");
}

#[test]
fn decimal_round_trip_on_values() {
    for n in [0u64, 7, 10, 99, 100, 65535, 1 << 40] {
        let mut s = String::new();
        push_decimal(&mut s, n);
        assert_eq!(s.parse::<u64>().unwrap(), n);
    }
}
