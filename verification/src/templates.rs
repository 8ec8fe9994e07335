use vstd::prelude::*;

verus! {

use crate::dtos::EventDto;
use crate::dtos::OrganizerDto;
use crate::dtos::spec_pretty_duration;
use crate::escape::Syntax;
use crate::escape::escape;
use crate::escape::spec_escape;
use crate::numfmt::i64_to_dec;
use crate::numfmt::spec_idec;
use crate::rank::rank;
use crate::rank::spec_rank;
use crate::record::EventRecord;
use crate::record::record_matches_dto;
use crate::record::timestamps_parse;
use crate::record::instant_bound;
use crate::time_window::filter_ongoing;
use crate::time_window::lemma_filter_ongoing_sound;
use crate::time_window::spec_filter_ongoing;
use crate::time_window::spec_hours_left;
use crate::timefmt::dt_text;
use crate::timefmt::rfc3339_instant;
use crate::timefmt::format_display_dt;
use crate::time_window::hours_left;

/// Character-wise equality of two texts.
fn str_matches(a: &str, b: &str) -> (r: bool)
    ensures
        r == (a@ == b@),
{
    let na = a.unicode_len();
    let nb = b.unicode_len();
    if na != nb {
        return false;
    }
    let mut i: usize = 0;
    while i < na
        invariant
            na == a@.len(),
            na == b@.len(),
            i <= na,
            forall|k: int| 0 <= k < i ==> a@[k] == b@[k],
        decreases na - i,
    {
        let ca = a.get_char(i);
        let cb = b.get_char(i);
        if ca != cb {
            return false;
        }
        i = i + 1;
    }
    proof {
        assert(a@ =~= b@);
    }
    true
}

/// The compact form of the competition format: exactly "J" for Jeopardy,
/// "A/D" for Attack-Defense, and otherwise the raw text unchanged.
pub open spec fn spec_short_format(s: Seq<char>) -> Seq<char> {
    if s == seq!['J', 'e', 'o', 'p', 'a', 'r', 'd', 'y'] {
        seq!['J']
    } else if s == seq!['A', 't', 't', 'a', 'c', 'k', '-', 'D', 'e', 'f', 'e', 'n', 's', 'e'] {
        seq!['A', '/', 'D']
    } else {
        s
    }
}

/// Shorten the format text for the compact summary row.
pub fn short_format(format: &str) -> (r: String)
    ensures
        r@ == spec_short_format(format@),
{
    proof {
        reveal_strlit("Jeopardy");
        reveal_strlit("Attack-Defense");
        reveal_strlit("J");
        reveal_strlit("A/D");
        assert("Jeopardy"@ =~= seq!['J', 'e', 'o', 'p', 'a', 'r', 'd', 'y']);
        assert("Attack-Defense"@ =~= seq![
            'A',
            't',
            't',
            'a',
            'c',
            'k',
            '-',
            'D',
            'e',
            'f',
            'e',
            'n',
            's',
            'e',
        ]);
        assert("J"@ =~= seq!['J']);
        assert("A/D"@ =~= seq!['A', '/', 'D']);
    }
    if str_matches(format, "Jeopardy") {
        "J".to_owned()
    } else if str_matches(format, "Attack-Defense") {
        "A/D".to_owned()
    } else {
        format.to_owned()
    }
}

/// One row of the summary view: every text field already escaped for the
/// target syntax, numbers kept as numbers until rendering.
pub struct EventTemplate {
    pub title: String,
    pub start_dt: String,
    pub end_dt: String,
    pub hours_left: i64,
    pub participants: i64,
    pub format: String,
}

/// The summary row carries the record's data: text fields escaped exactly
/// once, the format shortened then escaped, the instants rendered for
/// display then escaped, and the hours left evaluated at the explicit
/// instant `now`.
pub open spec fn template_matches(t: EventTemplate, e: EventRecord, now: int, syntax: Syntax) -> bool {
    &&& t.title@ == spec_escape(syntax, e.title@)
    &&& t.start_dt@ == spec_escape(syntax, dt_text(e.start_instant))
    &&& t.end_dt@ == spec_escape(syntax, dt_text(e.end_instant))
    &&& t.hours_left == spec_hours_left(e, now)
    &&& t.participants == e.participants
    &&& t.format@ == spec_escape(syntax, spec_short_format(e.format@))
}

impl EventTemplate {
    /// Build one summary row from a normalized record, escaping each
    /// untrusted field exactly once, at this single point of embedding.
    pub fn from_dto(e: &EventRecord, now: i64, syntax: Syntax) -> (r: EventTemplate)
        requires
            e.wf(),
            -instant_bound() < now < instant_bound(),
        ensures
            template_matches(r, *e, now as int, syntax),
    {
        let start_raw = format_display_dt(e.start_instant);
        let end_raw = format_display_dt(e.end_instant);
        let short = short_format(e.format.as_str());
        EventTemplate {
            title: escape(syntax, e.title.as_str()),
            start_dt: escape(syntax, start_raw.as_str()),
            end_dt: escape(syntax, end_raw.as_str()),
            hours_left: hours_left(e, now),
            participants: e.participants,
            format: escape(syntax, short.as_str()),
        }
    }
}

/// The whole summary view: a header stamped with the (already escaped)
/// display rendering of the evaluation instant, then one row per event.
pub struct OngoingEventsTemplate {
    pub current_dt: String,
    pub events: Vec<EventTemplate>,
}

/// One rendered summary row.
pub open spec fn spec_event_line(t: EventTemplate) -> Seq<char> {
    t.title@ + " /"@ + t.format@ + "/ "@ + t.start_dt@ + " to "@ + t.end_dt@ + ", "@ + spec_idec(
        t.hours_left as int,
    ) + "h left, "@ + spec_idec(t.participants as int) + " teams\n"@
}

/// The rendered summary rows, in view order.
pub open spec fn spec_event_lines(ts: Seq<EventTemplate>) -> Seq<char>
    decreases ts.len(),
{
    if ts.len() == 0 {
        Seq::empty()
    } else {
        spec_event_lines(ts.drop_last()) + spec_event_line(ts.last())
    }
}

/// The whole rendered summary: header line, then the rows; zero events
/// render a header with an empty body.
pub open spec fn spec_ongoing_text(t: OngoingEventsTemplate) -> Seq<char> {
    "Ongoing events at "@ + t.current_dt@ + "\n"@ + spec_event_lines(t.events@)
}

impl OngoingEventsTemplate {
    /// Render the summary view. The view's fields are embedded as they
    /// are: escaping already happened exactly once, when the view was
    /// built.
    #[verifier::rlimit(60)]
    pub fn render(&self) -> (r: String)
        ensures
            r@ == spec_ongoing_text(*self),
    {
        let mut out = String::new();
        out.append("Ongoing events at ");
        out.append(self.current_dt.as_str());
        out.append("\n");
        let ghost head = "Ongoing events at "@ + self.current_dt@ + "\n"@;
        proof {
            assert(out@ =~= head + spec_event_lines(self.events@.take(0)));
        }
        let mut i: usize = 0;
        while i < self.events.len()
            invariant
                i <= self.events@.len(),
                out@ == head + spec_event_lines(self.events@.take(i as int)),
            decreases self.events@.len() - i,
        {
            let ev = &self.events[i];
            out.append(ev.title.as_str());
            out.append(" /");
            out.append(ev.format.as_str());
            out.append("/ ");
            out.append(ev.start_dt.as_str());
            out.append(" to ");
            out.append(ev.end_dt.as_str());
            out.append(", ");
            let h = i64_to_dec(ev.hours_left);
            out.append(h.as_str());
            out.append("h left, ");
            let p = i64_to_dec(ev.participants);
            out.append(p.as_str());
            out.append(" teams\n");
            proof {
                assert(self.events@.take(i + 1).drop_last() =~= self.events@.take(i as int));
                assert(self.events@.take(i + 1).last() == self.events@[i as int]);
                assert(out@ =~= head + spec_event_lines(self.events@.take(i + 1)));
            }
            i = i + 1;
        }
        proof {
            assert(self.events@.take(self.events@.len() as int) =~= self.events@);
        }
        out
    }
}

/// One summary row, stated straight over the normalized record.
pub open spec fn spec_line_of(e: EventRecord, now: int, syntax: Syntax) -> Seq<char> {
    spec_escape(syntax, e.title@) + " /"@ + spec_escape(syntax, spec_short_format(e.format@))
        + "/ "@ + spec_escape(syntax, dt_text(e.start_instant)) + " to "@ + spec_escape(
        syntax,
        dt_text(e.end_instant),
    ) + ", "@ + spec_idec(spec_hours_left(e, now)) + "h left, "@ + spec_idec(e.participants as int)
        + " teams\n"@
}

/// The rendered rows of a batch of records, in batch order.
pub open spec fn spec_lines_of(rs: Seq<EventRecord>, now: int, syntax: Syntax) -> Seq<char>
    decreases rs.len(),
{
    if rs.len() == 0 {
        Seq::empty()
    } else {
        spec_lines_of(rs.drop_last(), now, syntax) + spec_line_of(rs.last(), now, syntax)
    }
}

/// The whole summary of a batch: header stamped with the evaluation
/// instant, then one row per ongoing event, ranked.
pub open spec fn spec_summary_text(rs: Seq<EventRecord>, now: i64, syntax: Syntax) -> Seq<char> {
    "Ongoing events at "@ + spec_escape(syntax, dt_text(now)) + "\n"@ + spec_lines_of(
        spec_rank(spec_filter_ongoing(rs, now as int)),
        now as int,
        syntax,
    )
}

proof fn lemma_lines_bridge(ts: Seq<EventTemplate>, rs: Seq<EventRecord>, now: int, syntax: Syntax)
    requires
        ts.len() == rs.len(),
        forall|i: int| 0 <= i < ts.len() ==> template_matches(#[trigger] ts[i], rs[i], now, syntax),
    ensures
        spec_event_lines(ts) == spec_lines_of(rs, now, syntax),
    decreases ts.len(),
{
    if ts.len() > 0 {
        assert forall|i: int| 0 <= i < ts.drop_last().len() implies template_matches(
            #[trigger] ts.drop_last()[i],
            rs.drop_last()[i],
            now,
            syntax,
        ) by {
            assert(ts.drop_last()[i] == ts[i]);
            assert(rs.drop_last()[i] == rs[i]);
        }
        lemma_lines_bridge(ts.drop_last(), rs.drop_last(), now, syntax);
        assert(template_matches(ts[ts.len() - 1], rs[ts.len() - 1], now, syntax));
        assert(spec_event_line(ts.last()) =~= spec_line_of(rs.last(), now, syntax));
    }
}

/// The presenter's summary pipeline: keep the ongoing events, rank them,
/// build one escaped row per event and render the whole view, headed by
/// the display rendering of the evaluation instant.
pub fn render_summary(records: Vec<EventRecord>, now: i64, syntax: Syntax) -> (r: String)
    requires
        -instant_bound() < now < instant_bound(),
        forall|j: int| 0 <= j < records@.len() ==> (#[trigger] records@[j]).wf(),
    ensures
        r@ == spec_summary_text(records@, now, syntax),
{
    let ghost all = records@;
    let ongoing = filter_ongoing(records, now);
    proof {
        lemma_filter_ongoing_sound(all, now as int);
        assert forall|j: int| 0 <= j < ongoing@.len() implies (#[trigger] ongoing@[j]).wf() by {
            let i = choose|i: int| 0 <= i < all.len() && all[i] == ongoing@[j];
        }
    }
    let ghost kept = ongoing@;
    let ranked = rank(ongoing);
    proof {
        assert forall|j: int| 0 <= j < ranked@.len() implies (#[trigger] ranked@[j]).wf() by {
            let i = choose|i: int| 0 <= i < kept.len() && kept[i] == ranked@[j];
        }
    }
    let mut rows: Vec<EventTemplate> = Vec::new();
    let mut i: usize = 0;
    while i < ranked.len()
        invariant
            -instant_bound() < now < instant_bound(),
            forall|j: int| 0 <= j < ranked@.len() ==> (#[trigger] ranked@[j]).wf(),
            i <= ranked@.len(),
            rows@.len() == i,
            forall|j: int|
                0 <= j < i ==> template_matches(#[trigger] rows@[j], ranked@[j], now as int, syntax),
        decreases ranked@.len() - i,
    {
        let row = EventTemplate::from_dto(&ranked[i], now, syntax);
        rows.push(row);
        i = i + 1;
    }
    let header_raw = format_display_dt(now);
    let current_dt = escape(syntax, header_raw.as_str());
    let view = OngoingEventsTemplate { current_dt, events: rows };
    let out = view.render();
    proof {
        lemma_lines_bridge(view.events@, ranked@, now as int, syntax);
        assert(out@ =~= spec_summary_text(all, now, syntax));
    }
    out
}


/// The full detail view: every text field already escaped for the target
/// syntax, numbers and booleans kept as values until rendering.
pub struct EventDetailedTemplate {
    pub organizers: Vec<String>,
    pub ct_url: String,
    pub url: String,
    pub weight: String,
    pub duration: String,
    pub title: String,
    pub start_dt: String,
    pub end_dt: String,
    pub participants: i64,
    pub location: String,
    pub description: String,
    pub format: String,
    pub is_votable_now: bool,
    pub public_votable: bool,
    pub prizes: String,
    pub onsite: bool,
    pub restrictions: String,
}

/// The detail view carries the record's full field set: each untrusted
/// text field escaped exactly once, the duration pretty-printed then
/// escaped, the instants rendered for display then escaped.
pub open spec fn detail_matches(t: EventDetailedTemplate, e: EventRecord, syntax: Syntax) -> bool {
    &&& t.organizers@.len() == e.organizers@.len()
    &&& forall|i: int|
        0 <= i < t.organizers@.len() ==> (#[trigger] t.organizers@[i])@ == spec_escape(
            syntax,
            e.organizers@[i].name@,
        )
    &&& t.ct_url@ == spec_escape(syntax, e.ctftime_url@)
    &&& t.url@ == spec_escape(syntax, e.url@)
    &&& t.weight@ == spec_escape(syntax, e.weight@)
    &&& t.duration@ == spec_escape(
        syntax,
        spec_pretty_duration(e.duration.days as int, e.duration.hours as int),
    )
    &&& t.title@ == spec_escape(syntax, e.title@)
    &&& t.start_dt@ == spec_escape(syntax, dt_text(e.start_instant))
    &&& t.end_dt@ == spec_escape(syntax, dt_text(e.end_instant))
    &&& t.participants == e.participants
    &&& t.location@ == spec_escape(syntax, e.location@)
    &&& t.description@ == spec_escape(syntax, e.description@)
    &&& t.format@ == spec_escape(syntax, e.format@)
    &&& t.is_votable_now == e.is_votable_now
    &&& t.public_votable == e.public_votable
    &&& t.prizes@ == spec_escape(syntax, e.prizes@)
    &&& t.onsite == e.onsite
    &&& t.restrictions@ == spec_escape(syntax, e.restrictions@)
}

impl EventDetailedTemplate {
    /// Build the detail view from a normalized record, escaping each
    /// untrusted field exactly once, at this single point of embedding.
    pub fn from_dto(e: &EventRecord, syntax: Syntax) -> (r: EventDetailedTemplate)
        ensures
            detail_matches(r, *e, syntax),
    {
        let mut organizers: Vec<String> = Vec::new();
        let mut i: usize = 0;
        while i < e.organizers.len()
            invariant
                i <= e.organizers@.len(),
                organizers@.len() == i,
                forall|j: int|
                    0 <= j < i ==> (#[trigger] organizers@[j])@ == spec_escape(
                        syntax,
                        e.organizers@[j].name@,
                    ),
            decreases e.organizers@.len() - i,
        {
            let name = escape(syntax, e.organizers[i].name.as_str());
            organizers.push(name);
            i = i + 1;
        }
        let start_raw = format_display_dt(e.start_instant);
        let end_raw = format_display_dt(e.end_instant);
        let duration_raw = e.duration.pretty_print();
        EventDetailedTemplate {
            organizers,
            ct_url: escape(syntax, e.ctftime_url.as_str()),
            url: escape(syntax, e.url.as_str()),
            weight: escape(syntax, e.weight.as_str()),
            duration: escape(syntax, duration_raw.as_str()),
            title: escape(syntax, e.title.as_str()),
            start_dt: escape(syntax, start_raw.as_str()),
            end_dt: escape(syntax, end_raw.as_str()),
            participants: e.participants,
            location: escape(syntax, e.location.as_str()),
            description: escape(syntax, e.description.as_str()),
            format: escape(syntax, e.format.as_str()),
            is_votable_now: e.is_votable_now,
            public_votable: e.public_votable,
            prizes: escape(syntax, e.prizes.as_str()),
            onsite: e.onsite,
            restrictions: escape(syntax, e.restrictions.as_str()),
        }
    }
}

/// "yes" or "no", for the boolean fields of the detail view.
pub open spec fn spec_yes_no(b: bool) -> Seq<char> {
    if b {
        "yes"@
    } else {
        "no"@
    }
}

fn yes_no(b: bool) -> (r: &'static str)
    ensures
        r@ == spec_yes_no(b),
{
    if b {
        "yes"
    } else {
        "no"
    }
}

/// The organizer names joined by a comma separator, in feed order.
pub open spec fn spec_join_names(names: Seq<String>) -> Seq<char>
    decreases names.len(),
{
    if names.len() == 0 {
        Seq::empty()
    } else if names.len() == 1 {
        names.last()@
    } else {
        spec_join_names(names.drop_last()) + ", "@ + names.last()@
    }
}

fn join_names(names: &Vec<String>) -> (r: String)
    ensures
        r@ == spec_join_names(names@),
{
    let mut out = String::new();
    proof {
        assert(names@.take(0) =~= Seq::<String>::empty());
    }
    let mut i: usize = 0;
    while i < names.len()
        invariant
            i <= names@.len(),
            out@ == spec_join_names(names@.take(i as int)),
        decreases names@.len() - i,
    {
        if i > 0 {
            out.append(", ");
        }
        out.append(names[i].as_str());
        proof {
            assert(names@.take(i + 1).drop_last() =~= names@.take(i as int));
            assert(names@.take(i + 1).last() == names@[i as int]);
            assert(out@ =~= spec_join_names(names@.take(i + 1)));
        }
        i = i + 1;
    }
    proof {
        assert(names@.take(names@.len() as int) =~= names@);
    }
    out
}

/// The rendered detail body, field by field, one labeled line each.
pub open spec fn spec_detail_body(t: EventDetailedTemplate) -> Seq<char> {
    "Title: "@ + t.title@ + "\nFormat: "@ + t.format@ + "\nStart: "@ + t.start_dt@ + "\nEnd: "@
        + t.end_dt@ + "\nDuration: "@ + t.duration@ + "\nParticipants: "@ + spec_idec(
        t.participants as int,
    ) + "\nWeight: "@ + t.weight@ + "\nLocation: "@ + t.location@ + "\nOnsite: "@ + spec_yes_no(
        t.onsite,
    ) + "\nVotable now: "@ + spec_yes_no(t.is_votable_now) + "\nPublicly votable: "@ + spec_yes_no(
        t.public_votable,
    ) + "\nOrganizers: "@ + spec_join_names(t.organizers@) + "\nURL: "@ + t.url@ + "\nCTFtime: "@
        + t.ct_url@ + "\nDescription: "@ + t.description@ + "\nPrizes: "@ + t.prizes@
        + "\nRestrictions: "@ + t.restrictions@ + "\n"@
}

/// The designated rendering when no event has the requested id: a
/// first-class outcome, never an exception.
pub open spec fn spec_not_found_text() -> Seq<char> {
    "Event not found."@
}

/// Law: the not-found rendering is a designated, non-empty text, so a
/// missing id can never yield an empty response.
pub proof fn lemma_not_found_nonempty()
    ensures
        spec_not_found_text().len() > 0,
{
    reveal_strlit("Event not found.");
}

fn append_field(out: &mut String, label: &str, value: &str)
    ensures
        final(out)@ == old(out)@ + label@ + value@,
{
    out.append(label);
    out.append(value);
}

impl EventDetailedTemplate {
    /// Render the detail view, or the designated not-found text when no
    /// event was found for the requested id. The view's fields are
    /// embedded as they are: escaping already happened exactly once, when
    /// the view was built.
    #[verifier::rlimit(100)]
    pub fn render(data: &Option<EventDetailedTemplate>) -> (r: String)
        ensures
            data is Some ==> r@ == spec_detail_body(data->0),
            data is None ==> r@ == spec_not_found_text(),
    {
        match data {
            None => "Event not found.".to_owned(),
            Some(t) => {
                let mut out = String::new();
                proof {
                    assert(out@ + "Title: "@ =~= "Title: "@);
                }
                append_field(&mut out, "Title: ", t.title.as_str());
                append_field(&mut out, "\nFormat: ", t.format.as_str());
                append_field(&mut out, "\nStart: ", t.start_dt.as_str());
                append_field(&mut out, "\nEnd: ", t.end_dt.as_str());
                append_field(&mut out, "\nDuration: ", t.duration.as_str());
                let p = i64_to_dec(t.participants);
                append_field(&mut out, "\nParticipants: ", p.as_str());
                append_field(&mut out, "\nWeight: ", t.weight.as_str());
                append_field(&mut out, "\nLocation: ", t.location.as_str());
                append_field(&mut out, "\nOnsite: ", yes_no(t.onsite));
                append_field(&mut out, "\nVotable now: ", yes_no(t.is_votable_now));
                append_field(&mut out, "\nPublicly votable: ", yes_no(t.public_votable));
                let joined = join_names(&t.organizers);
                append_field(&mut out, "\nOrganizers: ", joined.as_str());
                append_field(&mut out, "\nURL: ", t.url.as_str());
                append_field(&mut out, "\nCTFtime: ", t.ct_url.as_str());
                append_field(&mut out, "\nDescription: ", t.description.as_str());
                append_field(&mut out, "\nPrizes: ", t.prizes.as_str());
                append_field(&mut out, "\nRestrictions: ", t.restrictions.as_str());
                out.append("\n");
                out
            },
        }
    }
}

/// The organizer names of the record, escaped and joined by a comma
/// separator, stated straight over the normalized record.
pub open spec fn spec_join_escaped(orgs: Seq<OrganizerDto>, syntax: Syntax) -> Seq<char>
    decreases orgs.len(),
{
    if orgs.len() == 0 {
        Seq::empty()
    } else if orgs.len() == 1 {
        spec_escape(syntax, orgs.last().name@)
    } else {
        spec_join_escaped(orgs.drop_last(), syntax) + ", "@ + spec_escape(
            syntax,
            orgs.last().name@,
        )
    }
}

proof fn lemma_join_bridge(names: Seq<String>, orgs: Seq<OrganizerDto>, syntax: Syntax)
    requires
        names.len() == orgs.len(),
        forall|i: int|
            0 <= i < names.len() ==> (#[trigger] names[i])@ == spec_escape(
                syntax,
                orgs[i].name@,
            ),
    ensures
        spec_join_names(names) == spec_join_escaped(orgs, syntax),
    decreases names.len(),
{
    if names.len() > 1 {
        assert forall|i: int| 0 <= i < names.drop_last().len() implies (#[trigger] names.drop_last()[i])@
            == spec_escape(syntax, orgs.drop_last()[i].name@) by {
            assert(names.drop_last()[i] == names[i]);
            assert(orgs.drop_last()[i] == orgs[i]);
        }
        lemma_join_bridge(names.drop_last(), orgs.drop_last(), syntax);
        assert(names.last() == names[names.len() - 1]);
        assert(orgs.last() == orgs[orgs.len() - 1]);
    } else if names.len() == 1 {
        assert(names.last() == names[0]);
        assert(orgs.last() == orgs[0]);
    }
}

/// The rendered detail body, stated straight over the normalized record.
pub open spec fn spec_detail_of(e: EventRecord, syntax: Syntax) -> Seq<char> {
    "Title: "@ + spec_escape(syntax, e.title@) + "\nFormat: "@ + spec_escape(syntax, e.format@)
        + "\nStart: "@ + spec_escape(syntax, dt_text(e.start_instant)) + "\nEnd: "@ + spec_escape(
        syntax,
        dt_text(e.end_instant),
    ) + "\nDuration: "@ + spec_escape(
        syntax,
        spec_pretty_duration(e.duration.days as int, e.duration.hours as int),
    ) + "\nParticipants: "@ + spec_idec(e.participants as int) + "\nWeight: "@ + spec_escape(
        syntax,
        e.weight@,
    ) + "\nLocation: "@ + spec_escape(syntax, e.location@) + "\nOnsite: "@ + spec_yes_no(e.onsite)
        + "\nVotable now: "@ + spec_yes_no(e.is_votable_now) + "\nPublicly votable: "@
        + spec_yes_no(e.public_votable) + "\nOrganizers: "@ + spec_join_escaped(
        e.organizers@,
        syntax,
    ) + "\nURL: "@ + spec_escape(syntax, e.url@) + "\nCTFtime: "@ + spec_escape(
        syntax,
        e.ctftime_url@,
    ) + "\nDescription: "@ + spec_escape(syntax, e.description@) + "\nPrizes: "@ + spec_escape(
        syntax,
        e.prizes@,
    ) + "\nRestrictions: "@ + spec_escape(syntax, e.restrictions@) + "\n"@
}

/// Law: a detail view built from a record renders exactly the record's
/// detail text.
pub proof fn lemma_detail_bridge(t: EventDetailedTemplate, e: EventRecord, syntax: Syntax)
    requires
        detail_matches(t, e, syntax),
    ensures
        spec_detail_body(t) == spec_detail_of(e, syntax),
{
    lemma_join_bridge(t.organizers@, e.organizers@, syntax);
    assert(spec_detail_body(t) =~= spec_detail_of(e, syntax));
}

/// The rendered detail text of one raw event whose timestamps parse,
/// stated straight over the raw record and the instants its timestamp
/// texts denote.
pub open spec fn spec_detail_dto_text(d: EventDto, syntax: Syntax) -> Seq<char>
    recommends
        timestamps_parse(d),
{
    "Title: "@ + spec_escape(syntax, d.title@) + "\nFormat: "@ + spec_escape(syntax, d.format@)
        + "\nStart: "@ + spec_escape(syntax, dt_text(rfc3339_instant(d.start@).unwrap()))
        + "\nEnd: "@ + spec_escape(syntax, dt_text(rfc3339_instant(d.finish@).unwrap()))
        + "\nDuration: "@ + spec_escape(
        syntax,
        spec_pretty_duration(d.duration.days as int, d.duration.hours as int),
    ) + "\nParticipants: "@ + spec_idec(d.participants as int) + "\nWeight: "@ + spec_escape(
        syntax,
        d.weight@,
    ) + "\nLocation: "@ + spec_escape(syntax, d.location@) + "\nOnsite: "@ + spec_yes_no(d.onsite)
        + "\nVotable now: "@ + spec_yes_no(d.is_votable_now) + "\nPublicly votable: "@
        + spec_yes_no(d.public_votable) + "\nOrganizers: "@ + spec_join_escaped(
        d.organizers@,
        syntax,
    ) + "\nURL: "@ + spec_escape(syntax, d.url@) + "\nCTFtime: "@ + spec_escape(
        syntax,
        d.ctftime_url@,
    ) + "\nDescription: "@ + spec_escape(syntax, d.description@) + "\nPrizes: "@ + spec_escape(
        syntax,
        d.prizes@,
    ) + "\nRestrictions: "@ + spec_escape(syntax, d.restrictions@) + "\n"@
}

/// Law: a record normalized from a raw event renders exactly the raw
/// event's detail text.
pub proof fn lemma_detail_dto_bridge(e: EventRecord, d: EventDto, syntax: Syntax)
    requires
        record_matches_dto(e, d),
    ensures
        spec_detail_of(e, syntax) == spec_detail_dto_text(d, syntax),
{
    assert(spec_detail_of(e, syntax) =~= spec_detail_dto_text(d, syntax));
}

/// The designated rendering when the remote fetch did not complete.
pub open spec fn spec_fetch_failed_text() -> Seq<char> {
    "Could not reach the events service."@
}

/// The designated rendering when the found event's data cannot be read.
pub open spec fn spec_malformed_text() -> Seq<char> {
    "Could not read the event data."@
}

/// The tri-state outcome of a detail lookup: an event was found, no event
/// has the requested id, or the fetch did not complete. The three are
/// never conflated; absence is a first-class outcome, not an error.
pub enum EventLookup {
    Found(EventDto),
    NotFound,
    Failed,
}

/// The full reply text for one detail request. A found event renders its
/// detail view; a missing id renders the designated not-found text; a
/// fetch that did not complete, or a found event whose timestamps cannot
/// be read, degrades to a designated message — never a crash, never an
/// empty reply.
pub fn detail_reply_text(lookup: &EventLookup, syntax: Syntax) -> (r: String)
    ensures
        lookup is NotFound ==> r@ == spec_not_found_text(),
        lookup is Failed ==> r@ == spec_fetch_failed_text(),
        *lookup matches EventLookup::Found(d) ==> r@ == (if timestamps_parse(d) {
            spec_detail_dto_text(d, syntax)
        } else {
            spec_malformed_text()
        }),
{
    match lookup {
        EventLookup::NotFound => EventDetailedTemplate::render(&None),
        EventLookup::Failed => "Could not reach the events service.".to_owned(),
        EventLookup::Found(d) => match crate::record::EventRecord::from_dto(d) {
            Ok(rec) => {
                let t = EventDetailedTemplate::from_dto(&rec, syntax);
                proof {
                    lemma_detail_bridge(t, rec, syntax);
                    lemma_detail_dto_bridge(rec, *d, syntax);
                }
                EventDetailedTemplate::render(&Some(t))
            },
            Err(_) => "Could not read the event data.".to_owned(),
        },
    }
}

} // verus!
