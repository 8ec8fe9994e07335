use ctf_events::assemble::{assemble_inline_article, assemble_reply};
use ctf_events::dtos::{DurationDto, EventDto, OrganizerDto};
use ctf_events::escape::Syntax;
use ctf_events::metrics::{init_metrics, QueryKind};
use ctf_events::rank::rank;
use ctf_events::record::{build_records, EventRecord};
use ctf_events::templates::{detail_reply_text, render_summary, EventLookup};
use ctf_events::time_window::filter_ongoing;

// 2024-01-15T10:00:00Z as Unix seconds; displayed at UTC+3 as 13:00 15-Jan-2024.
const NOW: i64 = 1705312800;

fn feed_dto(id: i64, title: &str, start: &str, finish: &str, participants: i64, format: &str) -> EventDto {
    EventDto {
        organizers: vec![OrganizerDto { id: 1, name: String::from("team one") }],
        ctftime_url: String::from("https://ctftime.example/event/1/"),
        ctf_id: 7,
        weight: String::from("25.00"),
        duration: DurationDto { hours: 2, days: 0 },
        live_feed: String::new(),
        logo: String::new(),
        id,
        title: String::from(title),
        start: String::from(start),
        participants,
        location: String::new(),
        finish: String::from(finish),
        description: String::from("desc"),
        format: String::from(format),
        is_votable_now: false,
        prizes: String::new(),
        format_id: 1,
        onsite: false,
        restrictions: String::from("Open"),
        url: String::from("https://example.org"),
        public_votable: false,
    }
}

fn plain_record(id: i64, title: &str, participants: i64, start: i64, end: i64) -> EventRecord {
    EventRecord {
        organizers: Vec::new(),
        ctftime_url: String::new(),
        ctf_id: 7,
        weight: String::from("0.00"),
        duration: DurationDto { hours: 0, days: 0 },
        live_feed: String::new(),
        logo: String::new(),
        id,
        title: String::from(title),
        start_instant: start,
        participants,
        location: String::new(),
        end_instant: end,
        description: String::new(),
        format: String::from("Jeopardy"),
        is_votable_now: false,
        prizes: String::new(),
        format_id: 1,
        onsite: false,
        restrictions: String::new(),
        url: String::new(),
        public_votable: false,
    }
}

#[test]
fn ranking_orders_by_participants_descending() {
    let records = vec![
        plain_record(1, "small", 3, NOW - 10, NOW + 10),
        plain_record(2, "big", 10, NOW - 10, NOW + 10),
        plain_record(3, "middle", 5, NOW - 10, NOW + 10),
    ];
    let ranked = rank(records);
    let ids: Vec<i64> = ranked.iter().map(|r| r.id).collect();
    assert_eq!(ids, vec![2, 3, 1]);
}

#[test]
fn ranking_keeps_ties_in_feed_order() {
    let records = vec![
        plain_record(1, "a", 5, NOW - 10, NOW + 10),
        plain_record(2, "b", 10, NOW - 10, NOW + 10),
        plain_record(3, "c", 5, NOW - 10, NOW + 10),
        plain_record(4, "d", 10, NOW - 10, NOW + 10),
    ];
    let ranked = rank(records);
    let ids: Vec<i64> = ranked.iter().map(|r| r.id).collect();
    assert_eq!(ids, vec![2, 4, 1, 3]);
}

#[test]
fn ranking_twice_changes_nothing() {
    let records = vec![
        plain_record(1, "a", 5, NOW - 10, NOW + 10),
        plain_record(2, "b", 10, NOW - 10, NOW + 10),
        plain_record(3, "c", 5, NOW - 10, NOW + 10),
    ];
    let once = rank(records);
    let ids_once: Vec<i64> = once.iter().map(|r| r.id).collect();
    let twice = rank(once);
    let ids_twice: Vec<i64> = twice.iter().map(|r| r.id).collect();
    assert_eq!(ids_once, ids_twice);
}

#[test]
fn filtering_keeps_only_ongoing_events() {
    let records = vec![
        plain_record(1, "past", 9, NOW - 100, NOW - 50),
        plain_record(2, "live", 5, NOW - 10, NOW + 10),
        plain_record(3, "future", 7, NOW + 50, NOW + 100),
        plain_record(4, "at start", 8, NOW, NOW + 10),
    ];
    let kept = filter_ongoing(records, NOW);
    let ids: Vec<i64> = kept.iter().map(|r| r.id).collect();
    assert_eq!(ids, vec![2]);
}

#[test]
fn batch_drops_malformed_records_and_reports_their_ids() {
    let good = feed_dto(
        1,
        "Good",
        "2024-01-15T09:00:00+00:00",
        "2024-01-15T11:00:00+00:00",
        10,
        "Jeopardy",
    );
    let bad = feed_dto(2, "Bad", "yesterday-ish", "2024-01-15T11:00:00+00:00", 4, "Jeopardy");
    let (records, failed) = build_records(&vec![good, bad]);
    assert_eq!(records.len(), 1);
    assert_eq!(records[0].id, 1);
    assert_eq!(failed, vec![2]);
}

#[test]
fn summary_scenario_ranks_and_counts_hours() {
    let alpha = feed_dto(
        1,
        "Alpha",
        "2024-01-15T09:00:00+00:00",
        "2024-01-15T11:00:00+00:00",
        10,
        "Jeopardy",
    );
    let beta = feed_dto(
        2,
        "Beta",
        "2024-01-15T09:00:00+00:00",
        "2024-01-15T11:00:00+00:00",
        3,
        "Attack-Defense",
    );
    // Beta first in the feed: the ranking, not feed order, must put Alpha first.
    let (records, failed) = build_records(&vec![beta, alpha]);
    assert!(failed.is_empty());
    let out = render_summary(records, NOW, Syntax::Plain);
    assert_eq!(
        out,
        "Ongoing events at 13:00 15-Jan-2024\n\
         Alpha /J/ 12:00 15-Jan-2024 to 14:00 15-Jan-2024, 1h left, 10 teams\n\
         Beta /A/D/ 12:00 15-Jan-2024 to 14:00 15-Jan-2024, 1h left, 3 teams\n"
    );
}

#[test]
fn summary_excludes_events_outside_their_window() {
    let live = feed_dto(
        1,
        "Live",
        "2024-01-15T09:00:00+00:00",
        "2024-01-15T11:00:00+00:00",
        10,
        "Jeopardy",
    );
    let over = feed_dto(
        2,
        "Over",
        "2024-01-14T09:00:00+00:00",
        "2024-01-14T11:00:00+00:00",
        90,
        "Jeopardy",
    );
    let (records, _) = build_records(&vec![live, over]);
    let out = render_summary(records, NOW, Syntax::Plain);
    assert!(out.contains("Live"));
    assert!(!out.contains("Over"));
}

#[test]
fn detail_scenario_renders_found_event() {
    let beta = feed_dto(
        2,
        "Beta",
        "2024-01-15T09:00:00+00:00",
        "2024-01-15T11:00:00+00:00",
        3,
        "Attack-Defense",
    );
    let out = detail_reply_text(&EventLookup::Found(beta), Syntax::Plain);
    assert!(out.starts_with("Title: Beta\nFormat: Attack-Defense\n"));
    assert!(out.contains("Start: 12:00 15-Jan-2024\n"));
    assert!(out.contains("Participants: 3\n"));
}

#[test]
fn detail_of_malformed_event_degrades_to_designated_text() {
    let broken = feed_dto(2, "Beta", "not a date", "2024-01-15T11:00:00+00:00", 3, "Jeopardy");
    let out = detail_reply_text(&EventLookup::Found(broken), Syntax::Plain);
    assert_eq!(out, "Could not read the event data.");
}

#[test]
fn assembling_counts_requests_by_kind() {
    let mut sink = init_metrics();
    let article = assemble_inline_article(String::from("body"), Syntax::Html, &mut sink);
    assert_eq!(article.id, "0");
    assert_eq!(article.title, "Show ongoing");
    assert_eq!(article.message_text, "body");
    assert_eq!(sink.ongoing_requests, 1);
    assert_eq!(sink.event_requests, 0);
    let reply = assemble_reply(String::from("detail"), Syntax::Html, &mut sink);
    assert_eq!(reply.message_text, "detail");
    assert_eq!(sink.ongoing_requests, 1);
    assert_eq!(sink.event_requests, 1);
}

#[test]
fn latency_observations_append_per_kind() {
    let mut sink = init_metrics();
    sink.observe_latency(QueryKind::Ongoing, 12);
    sink.observe_latency(QueryKind::Ongoing, 34);
    sink.observe_latency(QueryKind::EventDetail, 56);
    assert_eq!(sink.ongoing_latency_ms, vec![12, 34]);
    assert_eq!(sink.event_latency_ms, vec![56]);
}
