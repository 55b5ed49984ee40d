use timesnapper_checker::tray::SystemTray;

fn render(count: u64, interval_seconds: u64) -> String {
    SystemTray::new().get_hrs_mins(count, interval_seconds)
}

#[test]
fn nothing_captured_is_zero_seconds() {
    assert_eq!(render(0, 60), "0 seconds");
}

#[test]
fn one_minute_is_written_in_minutes() {
    assert_eq!(render(1, 60), "1 mins");
}

#[test]
fn sixty_minutes_are_one_hour() {
    assert_eq!(render(60, 60), "1 hr");
}

#[test]
fn ninety_minutes_are_one_hour_thirty() {
    assert_eq!(render(90, 60), "1 hr 30 mins");
}

#[test]
fn several_full_hours_are_plural() {
    assert_eq!(render(120, 60), "2 hrs");
    assert_eq!(render(600, 60), "10 hrs");
}

#[test]
fn several_hours_with_minutes() {
    assert_eq!(render(150, 60), "2 hrs 30 mins");
    assert_eq!(render(1439, 60), "23 hrs 59 mins");
}

#[test]
fn under_a_minute_shows_seconds() {
    assert_eq!(render(59, 1), "59 seconds");
    assert_eq!(render(1, 59), "59 seconds");
    assert_eq!(render(3, 10), "30 seconds");
}

#[test]
fn seconds_beyond_the_minute_are_dropped() {
    assert_eq!(render(61, 1), "1 mins");
    assert_eq!(render(119, 1), "1 mins");
    assert_eq!(render(3599, 1), "59 mins");
}

#[test]
fn an_hour_and_a_few_seconds_is_a_full_hour() {
    assert_eq!(render(3600, 1), "1 hr");
    assert_eq!(render(3659, 1), "1 hr");
    assert_eq!(render(3661, 1), "1 hr 1 mins");
    assert_eq!(render(7259, 1), "2 hrs");
}

#[test]
fn interval_scales_the_count() {
    assert_eq!(render(10, 30), "5 mins");
    assert_eq!(render(480, 30), "4 hrs");
    assert_eq!(render(7, 999), "1 hr 56 mins");
}

#[test]
fn zero_interval_is_zero_seconds() {
    assert_eq!(render(500, 0), "0 seconds");
}

#[test]
fn largest_inputs_do_not_overflow() {
    // (2^64 - 1)^2 seconds
    assert_eq!(
        render(u64::MAX, u64::MAX),
        "94522879700260684285133644245652530 hrs 3 mins"
    );
}
