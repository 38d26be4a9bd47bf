use kusanagi::duration::{
    format_age, format_duration, format_event_age, format_job_duration, format_uptime,
};

#[test]
fn ninety_thousand_seconds_is_one_day_one_hour() {
    assert_eq!(format_duration(90_000), "1d 1h");
}

#[test]
fn three_thousand_six_hundred_sixty_one_seconds_is_one_hour_one_minute() {
    assert_eq!(format_duration(3_661), "1h 1m");
}

#[test]
fn forty_five_seconds_renders_as_seconds() {
    assert_eq!(format_duration(45), "45s");
}

#[test]
fn negative_duration_is_just_now() {
    assert_eq!(format_duration(-5), "just now");
}

#[test]
fn minute_bucket_drops_seconds() {
    assert_eq!(format_duration(125), "2m");
}

#[test]
fn zero_seconds() {
    assert_eq!(format_duration(0), "0s");
}

#[test]
fn age_is_compact() {
    assert_eq!(format_age(90_000), "1d1h");
    assert_eq!(format_age(3_661), "1h1m");
    assert_eq!(format_age(125), "2m");
    assert_eq!(format_age(45), "45s");
    assert_eq!(format_age(-1), "just now");
}

#[test]
fn uptime_negative_is_just_started() {
    assert_eq!(format_uptime(-10), "just started");
    assert_eq!(format_uptime(90_000), "1d 1h");
}

#[test]
fn event_age_is_hour_bucketed_with_ago() {
    assert_eq!(format_event_age(3_661), "1h 1m ago");
    assert_eq!(format_event_age(125), "2m ago");
    assert_eq!(format_event_age(45), "45s ago");
    assert_eq!(format_event_age(-3), "just now");
}

#[test]
fn job_duration_has_a_seconds_bucket() {
    assert_eq!(format_job_duration(90_000), "1d 1h");
    assert_eq!(format_job_duration(3_661), "1h 1m");
    assert_eq!(format_job_duration(125), "2m 5s");
    assert_eq!(format_job_duration(45), "45s");
    assert_eq!(format_job_duration(-9), "just now");
}
