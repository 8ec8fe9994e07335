use ctf_events::dtos::{DurationDto, OrganizerDto};
use ctf_events::escape::Syntax;
use ctf_events::record::EventRecord;
use ctf_events::templates::{
    detail_reply_text, short_format, EventDetailedTemplate, EventLookup, EventTemplate,
    OngoingEventsTemplate,
};

// 2024-01-15T10:00:00Z as Unix seconds; displayed at UTC+3 as 13:00 15-Jan-2024.
const NOW: i64 = 1705312800;

fn sample_record(id: i64, title: &str, participants: i64, format: &str) -> EventRecord {
    EventRecord {
        organizers: vec![OrganizerDto { id: 1, name: String::from("team one") }],
        ctftime_url: String::from("https://ctftime.example/event/1/"),
        ctf_id: 7,
        weight: String::from("25.00"),
        duration: DurationDto { hours: 2, days: 0 },
        live_feed: String::new(),
        logo: String::new(),
        id,
        title: String::from(title),
        start_instant: NOW - 3600,
        participants,
        location: String::new(),
        end_instant: NOW + 3600,
        description: String::from("desc"),
        format: String::from(format),
        is_votable_now: false,
        prizes: String::new(),
        format_id: 1,
        onsite: false,
        restrictions: String::from("Open"),
        url: String::from("https://example.org"),
        public_votable: false,
    }
}

#[test]
fn format_shortens_known_kinds_only() {
    assert_eq!(short_format("Jeopardy"), "J");
    assert_eq!(short_format("Attack-Defense"), "A/D");
    assert_eq!(short_format("Hack quest"), "Hack quest");
    assert_eq!(short_format(""), "");
}

#[test]
fn summary_row_carries_escaped_fields_and_hours() {
    let rec = sample_record(5, "Alpha (CTF)", 10, "Attack-Defense");
    let row = EventTemplate::from_dto(&rec, NOW, Syntax::EscapedMarkdown);
    assert_eq!(row.title, ">Alpha \\(CTF\\)");
    assert_eq!(row.format, ">A/D");
    assert_eq!(row.hours_left, 1);
    assert_eq!(row.participants, 10);
    assert_eq!(row.start_dt, ">12:00 15\\-Jan\\-2024");
    assert_eq!(row.end_dt, ">14:00 15\\-Jan\\-2024");
}

#[test]
fn summary_renders_header_and_rows_exactly() {
    let alpha = sample_record(5, "Alpha", 10, "Jeopardy");
    let beta = sample_record(6, "Beta", 3, "Attack-Defense");
    let rows = vec![
        EventTemplate::from_dto(&alpha, NOW, Syntax::Plain),
        EventTemplate::from_dto(&beta, NOW, Syntax::Plain),
    ];
    let view = OngoingEventsTemplate {
        current_dt: String::from("13:00 15-Jan-2024"),
        events: rows,
    };
    let out = view.render();
    assert_eq!(
        out,
        "Ongoing events at 13:00 15-Jan-2024\n\
         Alpha /J/ 12:00 15-Jan-2024 to 14:00 15-Jan-2024, 1h left, 10 teams\n\
         Beta /A/D/ 12:00 15-Jan-2024 to 14:00 15-Jan-2024, 1h left, 3 teams\n"
    );
}

#[test]
fn summary_with_no_events_is_header_only() {
    let view = OngoingEventsTemplate {
        current_dt: String::from("13:00 15-Jan-2024"),
        events: Vec::new(),
    };
    assert_eq!(view.render(), "Ongoing events at 13:00 15-Jan-2024\n");
}

#[test]
fn detail_renders_every_field_exactly() {
    let rec = sample_record(5, "Beta", 3, "Attack-Defense");
    let view = EventDetailedTemplate::from_dto(&rec, Syntax::Plain);
    let out = EventDetailedTemplate::render(&Some(view));
    assert_eq!(
        out,
        "Title: Beta\nFormat: Attack-Defense\nStart: 12:00 15-Jan-2024\n\
         End: 14:00 15-Jan-2024\nDuration: 0d 2h\nParticipants: 3\nWeight: 25.00\n\
         Location: \nOnsite: no\nVotable now: no\nPublicly votable: no\n\
         Organizers: team one\nURL: https://example.org\n\
         CTFtime: https://ctftime.example/event/1/\nDescription: desc\nPrizes: \n\
         Restrictions: Open\n"
    );
}

#[test]
fn detail_joins_organizers_in_feed_order() {
    let mut rec = sample_record(5, "Beta", 3, "Jeopardy");
    rec.organizers = vec![
        OrganizerDto { id: 1, name: String::from("first") },
        OrganizerDto { id: 2, name: String::from("second") },
        OrganizerDto { id: 3, name: String::from("third") },
    ];
    let view = EventDetailedTemplate::from_dto(&rec, Syntax::Plain);
    let out = EventDetailedTemplate::render(&Some(view));
    assert!(out.contains("Organizers: first, second, third\n"));
}

#[test]
fn empty_fields_render_empty_without_stray_markers() {
    let mut rec = sample_record(5, "Beta", 3, "Jeopardy");
    rec.description = String::new();
    rec.prizes = String::new();
    let view = EventDetailedTemplate::from_dto(&rec, Syntax::EscapedMarkdown);
    let out = EventDetailedTemplate::render(&Some(view));
    assert!(out.contains("\nDescription: \nPrizes: \n"));
    assert!(!out.contains("Description: >"));
    assert!(!out.contains("Prizes: >"));
}

#[test]
fn missing_event_renders_designated_not_found_text() {
    let out = EventDetailedTemplate::render(&None);
    assert_eq!(out, "Event not found.");
    assert!(!out.is_empty());
}

#[test]
fn lookup_outcomes_render_distinct_texts() {
    let not_found = detail_reply_text(&EventLookup::NotFound, Syntax::Plain);
    let failed = detail_reply_text(&EventLookup::Failed, Syntax::Plain);
    assert_eq!(not_found, "Event not found.");
    assert_eq!(failed, "Could not reach the events service.");
    assert_ne!(not_found, failed);
}

#[test]
fn detail_escapes_untrusted_fields_in_markdown() {
    let mut rec = sample_record(5, "Beta", 3, "Jeopardy");
    rec.description = String::from("a (test) - done.");
    let view = EventDetailedTemplate::from_dto(&rec, Syntax::EscapedMarkdown);
    let out = EventDetailedTemplate::render(&Some(view));
    assert!(out.contains("Description: >a \\(test\\) \\- done\\.\n"));
    assert!(!out.contains("\\\\"));
}
