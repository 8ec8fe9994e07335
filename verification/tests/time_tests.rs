use ctf_events::dtos::{DurationDto, EventDto, OrganizerDto};
use ctf_events::numfmt::{i64_to_dec, u64_to_dec};
use ctf_events::record::{EventRecord, RecordError};
use ctf_events::time_window::{hours_left, is_ongoing, query_window};

fn dto(id: i64, title: &str, start: &str, finish: &str, participants: i64) -> EventDto {
    EventDto {
        organizers: vec![OrganizerDto { id: 1, name: String::from("team one") }],
        ctftime_url: String::from("https://ctftime.example/event/1/"),
        ctf_id: 7,
        weight: String::from("25.00"),
        duration: DurationDto { hours: 2, days: 0 },
        live_feed: String::new(),
        logo: String::new(),
        id,
        title: String::from(title),
        start: String::from(start),
        participants,
        location: String::new(),
        finish: String::from(finish),
        description: String::from("desc"),
        format: String::from("Jeopardy"),
        is_votable_now: false,
        prizes: String::new(),
        format_id: 1,
        onsite: false,
        restrictions: String::from("Open"),
        url: String::from("https://example.org"),
        public_votable: false,
    }
}

// 2024-01-01T10:00:00Z and 2024-01-01T12:00:00Z as Unix seconds.
const START: i64 = 1704103200;
const END: i64 = 1704110400;

fn record() -> EventRecord {
    let d = dto(
        5,
        "Event",
        "2024-01-01T10:00:00+00:00",
        "2024-01-01T12:00:00+00:00",
        10,
    );
    EventRecord::from_dto(&d).unwrap()
}

#[test]
fn parsing_normalizes_to_unix_seconds() {
    let rec = record();
    assert_eq!(rec.start_instant, START);
    assert_eq!(rec.end_instant, END);
}

#[test]
fn parsing_honors_timezone_offsets() {
    // The same instant written with a +03:00 offset.
    let d = dto(
        5,
        "Event",
        "2024-01-01T13:00:00+03:00",
        "2024-01-01T15:00:00+03:00",
        10,
    );
    let rec = EventRecord::from_dto(&d).unwrap();
    assert_eq!(rec.start_instant, START);
    assert_eq!(rec.end_instant, END);
}

#[test]
fn malformed_timestamp_fails_construction() {
    let d = dto(5, "Event", "not a timestamp", "2024-01-01T12:00:00+00:00", 10);
    let r = EventRecord::from_dto(&d);
    assert!(matches!(r, Err(RecordError::MalformedTimestamp)));
}

#[test]
fn ongoing_is_strict_at_both_boundaries() {
    let rec = record();
    assert!(!is_ongoing(&rec, START));
    assert!(!is_ongoing(&rec, END));
    assert!(is_ongoing(&rec, START + 1));
    assert!(is_ongoing(&rec, END - 1));
    assert!(is_ongoing(&rec, (START + END) / 2));
    assert!(!is_ongoing(&rec, START - 1));
    assert!(!is_ongoing(&rec, END + 1));
}

#[test]
fn query_window_spans_seven_days_each_way() {
    let (lo, hi) = query_window(START);
    assert_eq!(lo, START - 7 * 24 * 60 * 60);
    assert_eq!(hi, START + 7 * 24 * 60 * 60);
}

#[test]
fn hours_left_rounds_down() {
    let rec = record();
    assert_eq!(hours_left(&rec, END - 3600), 1);
    assert_eq!(hours_left(&rec, END - 3601), 1);
    assert_eq!(hours_left(&rec, END - 7200), 2);
    assert_eq!(hours_left(&rec, END - 1), 0);
    assert_eq!(hours_left(&rec, END), 0);
}

#[test]
fn hours_left_is_negative_after_the_end() {
    let rec = record();
    assert_eq!(hours_left(&rec, END + 1), -1);
    assert_eq!(hours_left(&rec, END + 3600), -1);
    assert_eq!(hours_left(&rec, END + 3601), -2);
}

#[test]
fn decimal_rendering_is_exact() {
    assert_eq!(u64_to_dec(0), "0");
    assert_eq!(u64_to_dec(7), "7");
    assert_eq!(u64_to_dec(1234567890), "1234567890");
    assert_eq!(i64_to_dec(-45), "-45");
    assert_eq!(i64_to_dec(0), "0");
    assert_eq!(i64_to_dec(i64::MIN), "-9223372036854775808");
    assert_eq!(i64_to_dec(i64::MAX), "9223372036854775807");
}

#[test]
fn duration_pretty_prints_days_then_hours() {
    let d = DurationDto { days: 2, hours: 5 };
    assert_eq!(d.pretty_print(), "2d 5h");
    let z = DurationDto { days: 0, hours: 0 };
    assert_eq!(z.pretty_print(), "0d 0h");
}
