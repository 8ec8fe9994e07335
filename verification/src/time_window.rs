use vstd::prelude::*;

verus! {

use crate::record::EventRecord;
use crate::record::instant_bound;
use crate::spec_seconds_per_hour;
use crate::spec_week_seconds;
use vstd::arithmetic::div_mod::lemma_fundamental_div_mod;
use vstd::arithmetic::div_mod::lemma_fundamental_div_mod_converse;

/// An event is ongoing strictly between its start and end instants; at the
/// exact start or end instant it is not ongoing.
pub open spec fn spec_is_ongoing(e: EventRecord, now: int) -> bool {
    e.start_instant < now && now < e.end_instant
}

/// Instantaneous event state at the explicit evaluation instant `now`.
pub fn is_ongoing(e: &EventRecord, now: i64) -> (r: bool)
    ensures
        r == spec_is_ongoing(*e, now as int),
{
    e.start_instant < now && now < e.end_instant
}

/// Law: the ongoing state has strict boundaries. An event at its exact
/// start or end instant is not ongoing; strictly between the two it is;
/// at or outside either boundary it is not.
pub proof fn lemma_ongoing_strict_boundaries(e: EventRecord, now: int)
    ensures
        now == e.start_instant ==> !spec_is_ongoing(e, now),
        now == e.end_instant ==> !spec_is_ongoing(e, now),
        (e.start_instant < now && now < e.end_instant) <==> spec_is_ongoing(e, now),
        (now <= e.start_instant || now >= e.end_instant) ==> !spec_is_ongoing(e, now),
{
}

/// The bounded range handed to the remote fetch: seven days before to
/// seven days after the explicit evaluation instant.
pub fn query_window(now: i64) -> (r: (i64, i64))
    requires
        i64::MIN + spec_week_seconds() <= now <= i64::MAX - spec_week_seconds(),
    ensures
        r.0 == now - spec_week_seconds(),
        r.1 == now + spec_week_seconds(),
{
    (now - 604800, now + 604800)
}

/// Whole hours from `now` to the event's end, rounded toward minus
/// infinity; negative once the event has finished.
pub open spec fn spec_hours_left(e: EventRecord, now: int) -> int {
    (e.end_instant - now) / spec_seconds_per_hour()
}

/// Hours left before the event ends, at the explicit instant `now`.
pub fn hours_left(e: &EventRecord, now: i64) -> (r: i64)
    requires
        e.wf(),
        -instant_bound() < now < instant_bound(),
    ensures
        r == spec_hours_left(*e, now as int),
{
    let diff: i64 = e.end_instant - now;
    if diff >= 0 {
        let q: u64 = (diff as u64) / 3600;
        q as i64
    } else {
        let p: u64 = (-(diff + 1)) as u64;
        let q: u64 = p / 3600;
        proof {
            lemma_fundamental_div_mod(p as int, 3600);
            let rem = (p as int) % 3600;
            assert(diff as int == (-(q as int) - 1) * 3600 + (3599 - rem)) by {
                assert(p as int == 3600 * (q as int) + rem);
            }
            lemma_fundamental_div_mod_converse(diff as int, 3600, -(q as int) - 1, 3599 - rem);
        }
        -(q as i64) - 1
    }
}

/// The ongoing events of a batch at the instant `now`, in batch order.
pub open spec fn spec_filter_ongoing(s: Seq<EventRecord>, now: int) -> Seq<EventRecord>
    decreases s.len(),
{
    if s.len() == 0 {
        Seq::empty()
    } else if spec_is_ongoing(s.last(), now) {
        spec_filter_ongoing(s.drop_last(), now) + seq![s.last()]
    } else {
        spec_filter_ongoing(s.drop_last(), now)
    }
}

/// Law: filtering keeps only ongoing events, and every kept event comes
/// from the batch.
pub proof fn lemma_filter_ongoing_sound(s: Seq<EventRecord>, now: int)
    ensures
        forall|j: int|
            0 <= j < spec_filter_ongoing(s, now).len() ==> spec_is_ongoing(
                #[trigger] spec_filter_ongoing(s, now)[j],
                now,
            ) && s.contains(spec_filter_ongoing(s, now)[j]),
    decreases s.len(),
{
    if s.len() > 0 {
        lemma_filter_ongoing_sound(s.drop_last(), now);
        let f = spec_filter_ongoing(s, now);
        let fd = spec_filter_ongoing(s.drop_last(), now);
        assert forall|j: int| 0 <= j < f.len() implies spec_is_ongoing(#[trigger] f[j], now)
            && s.contains(f[j]) by {
            if j < fd.len() {
                assert(f[j] == fd[j]);
                let i = choose|i: int|
                    0 <= i < s.drop_last().len() && s.drop_last()[i] == fd[j];
                assert(s[i] == fd[j]);
                assert(s.contains(f[j]));
            } else {
                assert(f[j] == s.last());
                assert(s[s.len() - 1] == s.last());
                assert(s.contains(f[j]));
            }
        }
    }
}

/// Keep exactly the events that are ongoing at the instant `now`, in the
/// order the batch came in.
pub fn filter_ongoing(events: Vec<EventRecord>, now: i64) -> (r: Vec<EventRecord>)
    ensures
        r@ == spec_filter_ongoing(events@, now as int),
{
    let ghost all = events@;
    let mut rest = events;
    let mut out: Vec<EventRecord> = Vec::new();
    proof {
        assert(all.take(0) =~= Seq::<EventRecord>::empty());
        assert(rest@ =~= all.skip(0));
    }
    while rest.len() > 0
        invariant
            rest@.len() <= all.len(),
            rest@ == all.skip(all.len() - rest@.len()),
            out@ == spec_filter_ongoing(all.take(all.len() - rest@.len()), now as int),
        decreases rest@.len(),
    {
        let ghost k = all.len() - rest@.len();
        let e = rest.remove(0);
        proof {
            assert(e == all[k as int]);
            assert(rest@ =~= all.skip(k + 1));
            assert(all.take(k + 1).drop_last() =~= all.take(k as int));
            assert(all.take(k + 1).last() == all[k as int]);
        }
        if is_ongoing(&e, now) {
            out.push(e);
        }
        proof {
            if spec_is_ongoing(all[k as int], now as int) {
                assert(out@ =~= spec_filter_ongoing(all.take(k as int), now as int) + seq![
                    all[k as int],
                ]);
            }
            assert(out@ == spec_filter_ongoing(all.take(k + 1), now as int));
        }
    }
    proof {
        assert(all.take(all.len() as int) =~= all);
    }
    out
}

} // verus!
