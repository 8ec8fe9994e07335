use vstd::prelude::*;

verus! {

use crate::dtos::DurationDto;
use crate::dtos::EventDto;
use crate::dtos::OrganizerDto;
use crate::timefmt::parse_rfc3339_unix;
use crate::timefmt::rfc3339_instant;

/// Every instant a well-formed record holds stays strictly inside this
/// bound, which covers the whole calendar range a timestamp parse can
/// yield and leaves ample room for arithmetic on instants.
pub open spec fn instant_bound() -> int {
    10_000_000_000_000
}

/// One competition, normalized from the remote feed: the raw timestamp
/// texts have been parsed into absolute instants (seconds from the Unix
/// epoch). All comparisons work on these instants; a display offset enters
/// only when an instant is rendered. Text fields remain untrusted.
pub struct EventRecord {
    pub organizers: Vec<OrganizerDto>,
    pub ctftime_url: String,
    pub ctf_id: i64,
    pub weight: String,
    pub duration: DurationDto,
    pub live_feed: String,
    pub logo: String,
    pub id: i64,
    pub title: String,
    pub start_instant: i64,
    pub participants: i64,
    pub location: String,
    pub end_instant: i64,
    pub description: String,
    pub format: String,
    pub is_votable_now: bool,
    pub prizes: String,
    pub format_id: i64,
    pub onsite: bool,
    pub restrictions: String,
    pub url: String,
    pub public_votable: bool,
}

/// Why one remote record could not be normalized.
#[derive(Clone, Copy, PartialEq, Eq, Structural, Debug)]
pub enum RecordError {
    MalformedTimestamp,
}

/// Both raw timestamp texts of the record denote instants.
pub open spec fn timestamps_parse(d: EventDto) -> bool {
    rfc3339_instant(d.start@) is Some && rfc3339_instant(d.finish@) is Some
}

/// The normalized record carries exactly the raw record's data, with the
/// two instants those that its timestamp texts denote.
pub open spec fn record_matches_dto(r: EventRecord, d: EventDto) -> bool {
    &&& r.organizers@ == d.organizers@
    &&& r.ctftime_url == d.ctftime_url
    &&& r.ctf_id == d.ctf_id
    &&& r.weight == d.weight
    &&& r.duration == d.duration
    &&& r.live_feed == d.live_feed
    &&& r.logo == d.logo
    &&& r.id == d.id
    &&& r.title == d.title
    &&& Some(r.start_instant) == rfc3339_instant(d.start@)
    &&& r.participants == d.participants
    &&& r.location == d.location
    &&& Some(r.end_instant) == rfc3339_instant(d.finish@)
    &&& r.description == d.description
    &&& r.format == d.format
    &&& r.is_votable_now == d.is_votable_now
    &&& r.prizes == d.prizes
    &&& r.format_id == d.format_id
    &&& r.onsite == d.onsite
    &&& r.restrictions == d.restrictions
    &&& r.url == d.url
    &&& r.public_votable == d.public_votable
}

impl EventRecord {
    /// Both instants lie strictly inside the calendar bound.
    pub open spec fn wf(&self) -> bool {
        &&& -instant_bound() < self.start_instant < instant_bound()
        &&& -instant_bound() < self.end_instant < instant_bound()
    }

    /// Normalize one raw event. A record whose start or finish text does
    /// not denote an instant is rejected as malformed, never defaulted.
    pub fn from_dto(dto: &EventDto) -> (r: Result<EventRecord, RecordError>)
        ensures
            r is Ok <==> timestamps_parse(*dto),
            r is Ok ==> record_matches_dto(r->Ok_0, *dto) && (r->Ok_0).wf(),
            r is Err ==> r->Err_0 == RecordError::MalformedTimestamp,
    {
        let start_instant = match parse_rfc3339_unix(dto.start.as_str()) {
            Some(v) => v,
            None => {
                return Err(RecordError::MalformedTimestamp);
            },
        };
        let end_instant = match parse_rfc3339_unix(dto.finish.as_str()) {
            Some(v) => v,
            None => {
                return Err(RecordError::MalformedTimestamp);
            },
        };
        let organizers = dto.organizers.clone();
        proof {
            assert forall|i: int| 0 <= i < organizers@.len() implies organizers@[i]
                == dto.organizers@[i] by {
                assert(cloned::<OrganizerDto>(dto.organizers@[i], organizers@[i]));
            }
            assert(organizers@ =~= dto.organizers@);
        }
        Ok(
            EventRecord {
                organizers,
                ctftime_url: dto.ctftime_url.clone(),
                ctf_id: dto.ctf_id,
                weight: dto.weight.clone(),
                duration: dto.duration.clone(),
                live_feed: dto.live_feed.clone(),
                logo: dto.logo.clone(),
                id: dto.id,
                title: dto.title.clone(),
                start_instant,
                participants: dto.participants,
                location: dto.location.clone(),
                end_instant,
                description: dto.description.clone(),
                format: dto.format.clone(),
                is_votable_now: dto.is_votable_now,
                prizes: dto.prizes.clone(),
                format_id: dto.format_id,
                onsite: dto.onsite,
                restrictions: dto.restrictions.clone(),
                url: dto.url.clone(),
                public_votable: dto.public_votable,
            },
        )
    }
}

/// The raw events whose timestamps parse, in feed order.
pub open spec fn spec_ok_dtos(s: Seq<EventDto>) -> Seq<EventDto>
    decreases s.len(),
{
    if s.len() == 0 {
        Seq::empty()
    } else if timestamps_parse(s.last()) {
        spec_ok_dtos(s.drop_last()) + seq![s.last()]
    } else {
        spec_ok_dtos(s.drop_last())
    }
}

/// The ids of the raw events whose timestamps do not parse, in feed order.
pub open spec fn spec_failed_ids(s: Seq<EventDto>) -> Seq<i64>
    decreases s.len(),
{
    if s.len() == 0 {
        Seq::empty()
    } else if !timestamps_parse(s.last()) {
        spec_failed_ids(s.drop_last()) + seq![s.last().id]
    } else {
        spec_failed_ids(s.drop_last())
    }
}

/// Normalize a whole batch of raw events. A malformed record is dropped
/// from the batch, never defaulted, and its id is reported back so the
/// caller can log which remote record failed; the rest of the batch still
/// goes through.
pub fn build_records(dtos: &Vec<EventDto>) -> (r: (Vec<EventRecord>, Vec<i64>))
    ensures
        r.0@.len() == spec_ok_dtos(dtos@).len(),
        forall|j: int|
            0 <= j < r.0@.len() ==> record_matches_dto(#[trigger] r.0@[j], spec_ok_dtos(dtos@)[j])
                && r.0@[j].wf(),
        r.1@ == spec_failed_ids(dtos@),
{
    let mut recs: Vec<EventRecord> = Vec::new();
    let mut failed: Vec<i64> = Vec::new();
    let mut i: usize = 0;
    proof {
        assert(dtos@.take(0) =~= Seq::<EventDto>::empty());
    }
    while i < dtos.len()
        invariant
            i <= dtos@.len(),
            recs@.len() == spec_ok_dtos(dtos@.take(i as int)).len(),
            forall|j: int|
                0 <= j < recs@.len() ==> record_matches_dto(
                    #[trigger] recs@[j],
                    spec_ok_dtos(dtos@.take(i as int))[j],
                ) && recs@[j].wf(),
            failed@ == spec_failed_ids(dtos@.take(i as int)),
        decreases dtos@.len() - i,
    {
        let ghost done = dtos@.take(i as int);
        match EventRecord::from_dto(&dtos[i]) {
            Ok(rec) => recs.push(rec),
            Err(_) => failed.push(dtos[i].id),
        }
        proof {
            assert(dtos@.take(i + 1).drop_last() =~= done);
            assert(dtos@.take(i + 1).last() == dtos@[i as int]);
            if timestamps_parse(dtos@[i as int]) {
                assert(spec_ok_dtos(dtos@.take(i + 1)) =~= spec_ok_dtos(done) + seq![dtos@[i as int]]);
            } else {
                assert(spec_failed_ids(dtos@.take(i + 1)) =~= spec_failed_ids(done) + seq![
                    dtos@[i as int].id,
                ]);
            }
        }
        i = i + 1;
    }
    proof {
        assert(dtos@.take(dtos@.len() as int) =~= dtos@);
    }
    (recs, failed)
}

} // verus!
