use vstd::prelude::*;

verus! {

use crate::record::EventRecord;

/// Stable insertion of one event into an already ranked tail: the event
/// goes after every event with strictly more participants and before the
/// first with as many or fewer. Every event of the tail stands later in
/// the batch than the inserted one, so ties keep batch order.
pub open spec fn spec_insert_ranked(e: EventRecord, s: Seq<EventRecord>) -> Seq<EventRecord>
    decreases s.len(),
{
    if s.len() == 0 {
        seq![e]
    } else if s.first().participants > e.participants {
        seq![s.first()] + spec_insert_ranked(e, s.drop_first())
    } else {
        seq![e] + s
    }
}

/// The display ranking: participants descending, ties in batch order.
pub open spec fn spec_rank(s: Seq<EventRecord>) -> Seq<EventRecord>
    decreases s.len(),
{
    if s.len() == 0 {
        s
    } else {
        spec_insert_ranked(s.first(), spec_rank(s.drop_first()))
    }
}

/// Participant counts never increase along the sequence.
pub open spec fn sorted_desc(s: Seq<EventRecord>) -> bool {
    forall|i: int, j: int| 0 <= i < j < s.len() ==> s[i].participants >= s[j].participants
}

/// The subsequence of events with exactly `k` participants, in order.
pub open spec fn spec_ties(s: Seq<EventRecord>, k: int) -> Seq<EventRecord>
    decreases s.len(),
{
    if s.len() == 0 {
        Seq::empty()
    } else if s.first().participants == k {
        seq![s.first()] + spec_ties(s.drop_first(), k)
    } else {
        spec_ties(s.drop_first(), k)
    }
}

proof fn lemma_insert_ranked_elems(e: EventRecord, s: Seq<EventRecord>)
    ensures
        spec_insert_ranked(e, s).len() == s.len() + 1,
        forall|j: int|
            0 <= j < spec_insert_ranked(e, s).len() ==> spec_insert_ranked(e, s)[j] == e
                || s.contains(#[trigger] spec_insert_ranked(e, s)[j]),
    decreases s.len(),
{
    if s.len() == 0 {
    } else if s.first().participants > e.participants {
        lemma_insert_ranked_elems(e, s.drop_first());
        let t = spec_insert_ranked(e, s);
        let td = spec_insert_ranked(e, s.drop_first());
        assert forall|j: int| 0 <= j < t.len() implies t[j] == e || s.contains(#[trigger] t[j]) by {
            if j == 0 {
                assert(s[0] == s.first());
                assert(s.contains(t[j]));
            } else {
                assert(t[j] == td[j - 1]);
                if td[j - 1] == e {
                } else {
                    let i = choose|i: int|
                        0 <= i < s.drop_first().len() && s.drop_first()[i] == td[j - 1];
                    assert(s[i + 1] == td[j - 1]);
                    assert(s.contains(t[j]));
                }
            }
        }
    } else {
        let t = spec_insert_ranked(e, s);
        assert forall|j: int| 0 <= j < t.len() implies t[j] == e || s.contains(#[trigger] t[j]) by {
            if j > 0 {
                assert(t[j] == s[j - 1]);
                assert(s.contains(t[j]));
            }
        }
    }
}

proof fn lemma_insert_ranked_sorted(e: EventRecord, s: Seq<EventRecord>)
    requires
        sorted_desc(s),
    ensures
        sorted_desc(spec_insert_ranked(e, s)),
    decreases s.len(),
{
    lemma_insert_ranked_elems(e, s);
    if s.len() == 0 {
    } else if s.first().participants > e.participants {
        assert(sorted_desc(s.drop_first())) by {
            assert forall|i: int, j: int|
                0 <= i < j < s.drop_first().len() implies s.drop_first()[i].participants
                >= s.drop_first()[j].participants by {
                assert(s.drop_first()[i] == s[i + 1]);
                assert(s.drop_first()[j] == s[j + 1]);
            }
        }
        lemma_insert_ranked_sorted(e, s.drop_first());
        lemma_insert_ranked_elems(e, s.drop_first());
        let t = spec_insert_ranked(e, s);
        let td = spec_insert_ranked(e, s.drop_first());
        assert forall|i: int, j: int|
            0 <= i < j < t.len() implies t[i].participants >= t[j].participants by {
            if i == 0 {
                assert(t[0] == s.first());
                assert(t[j] == td[j - 1]);
                if td[j - 1] == e {
                } else {
                    let m = choose|m: int|
                        0 <= m < s.drop_first().len() && s.drop_first()[m] == td[j - 1];
                    assert(s.drop_first()[m] == s[m + 1]);
                    assert(s.first() == s[0]);
                }
            } else {
                assert(t[i] == td[i - 1]);
                assert(t[j] == td[j - 1]);
            }
        }
    } else {
        let t = spec_insert_ranked(e, s);
        assert forall|i: int, j: int|
            0 <= i < j < t.len() implies t[i].participants >= t[j].participants by {
            if i == 0 {
                assert(t[0] == e);
                assert(t[j] == s[j - 1]);
                assert(s[0] == s.first());
            } else {
                assert(t[i] == s[i - 1]);
                assert(t[j] == s[j - 1]);
            }
        }
    }
}

proof fn lemma_rank_elems(s: Seq<EventRecord>)
    ensures
        spec_rank(s).len() == s.len(),
        forall|j: int|
            0 <= j < spec_rank(s).len() ==> s.contains(#[trigger] spec_rank(s)[j]),
    decreases s.len(),
{
    if s.len() > 0 {
        lemma_rank_elems(s.drop_first());
        lemma_insert_ranked_elems(s.first(), spec_rank(s.drop_first()));
        let r = spec_rank(s);
        let rd = spec_rank(s.drop_first());
        assert forall|j: int| 0 <= j < r.len() implies s.contains(#[trigger] r[j]) by {
            if r[j] == s.first() {
                assert(s[0] == s.first());
                assert(s.contains(r[j]));
            } else {
                assert(rd.contains(r[j]));
                let i = choose|i: int| 0 <= i < rd.len() && rd[i] == r[j];
                let m = choose|m: int|
                    0 <= m < s.drop_first().len() && s.drop_first()[m] == rd[i];
                assert(s[m + 1] == r[j]);
                assert(s.contains(r[j]));
            }
        }
    }
}

/// Law: the ranking is sorted, participants descending, and holds exactly
/// as many events as the batch, each taken from the batch.
pub proof fn lemma_rank_sorted(s: Seq<EventRecord>)
    ensures
        sorted_desc(spec_rank(s)),
        spec_rank(s).len() == s.len(),
        forall|j: int|
            0 <= j < spec_rank(s).len() ==> s.contains(#[trigger] spec_rank(s)[j]),
    decreases s.len(),
{
    lemma_rank_elems(s);
    if s.len() > 0 {
        lemma_rank_sorted(s.drop_first());
        lemma_insert_ranked_sorted(s.first(), spec_rank(s.drop_first()));
    }
}

/// Law: ranking an already ranked sequence changes nothing.
pub proof fn lemma_rank_of_sorted(s: Seq<EventRecord>)
    requires
        sorted_desc(s),
    ensures
        spec_rank(s) == s,
    decreases s.len(),
{
    if s.len() > 0 {
        assert(sorted_desc(s.drop_first())) by {
            assert forall|i: int, j: int|
                0 <= i < j < s.drop_first().len() implies s.drop_first()[i].participants
                >= s.drop_first()[j].participants by {
                assert(s.drop_first()[i] == s[i + 1]);
                assert(s.drop_first()[j] == s[j + 1]);
            }
        }
        lemma_rank_of_sorted(s.drop_first());
        if s.len() == 1 {
            assert(spec_insert_ranked(s.first(), s.drop_first()) =~= s);
        } else {
            assert(s.drop_first().first() == s[1]);
            assert(s[0].participants >= s[1].participants);
            assert(spec_insert_ranked(s.first(), s.drop_first()) =~= seq![s.first()]
                + s.drop_first());
            assert(seq![s.first()] + s.drop_first() =~= s);
        }
    }
}

/// Law: ranking is idempotent — ranking a ranked batch returns it as it is.
pub proof fn lemma_rank_idempotent(s: Seq<EventRecord>)
    ensures
        spec_rank(spec_rank(s)) == spec_rank(s),
{
    lemma_rank_sorted(s);
    lemma_rank_of_sorted(spec_rank(s));
}

proof fn lemma_ties_insert(e: EventRecord, s: Seq<EventRecord>, k: int)
    ensures
        spec_ties(spec_insert_ranked(e, s), k) == if e.participants == k {
            seq![e] + spec_ties(s, k)
        } else {
            spec_ties(s, k)
        },
    decreases s.len(),
{
    if s.len() == 0 {
        assert(seq![e].first() == e);
        assert(seq![e].drop_first() =~= Seq::<EventRecord>::empty());
        assert(spec_ties(Seq::<EventRecord>::empty(), k) == Seq::<EventRecord>::empty());
        if e.participants == k {
            assert(spec_ties(seq![e], k) =~= seq![e] + spec_ties(s, k));
        } else {
            assert(spec_ties(seq![e], k) =~= spec_ties(s, k));
        }
    } else if s.first().participants > e.participants {
        lemma_ties_insert(e, s.drop_first(), k);
        let t = seq![s.first()] + spec_insert_ranked(e, s.drop_first());
        assert(t.first() == s.first());
        assert(t.drop_first() =~= spec_insert_ranked(e, s.drop_first()));
        assert(s == seq![s.first()] + s.drop_first()) by {
            assert(s =~= seq![s.first()] + s.drop_first());
        }
        if e.participants == k {
            assert(s.first().participants != k);
            assert(spec_ties(t, k) =~= seq![e] + spec_ties(s, k));
        } else {
            if s.first().participants == k {
                assert(spec_ties(t, k) =~= seq![s.first()] + spec_ties(s.drop_first(), k));
                assert(spec_ties(s, k) =~= seq![s.first()] + spec_ties(s.drop_first(), k));
            } else {
                assert(spec_ties(t, k) =~= spec_ties(s, k));
            }
        }
    } else {
        let t = seq![e] + s;
        assert(t.first() == e);
        assert(t.drop_first() =~= s);
        if e.participants == k {
            assert(spec_ties(t, k) =~= seq![e] + spec_ties(s, k));
        } else {
            assert(spec_ties(t, k) =~= spec_ties(s, k));
        }
    }
}

/// Law: ranking is stable — for every participant count, the events tied
/// at that count keep exactly the order the batch gave them.
pub proof fn lemma_rank_stable(s: Seq<EventRecord>, k: int)
    ensures
        spec_ties(spec_rank(s), k) == spec_ties(s, k),
    decreases s.len(),
{
    if s.len() > 0 {
        lemma_rank_stable(s.drop_first(), k);
        lemma_ties_insert(s.first(), spec_rank(s.drop_first()), k);
        assert(s =~= seq![s.first()] + s.drop_first());
        let t = seq![s.first()] + s.drop_first();
        assert(t.first() == s.first());
        assert(t.drop_first() =~= s.drop_first());
        if s.first().participants == k {
            assert(spec_ties(s, k) =~= seq![s.first()] + spec_ties(s.drop_first(), k));
            assert(spec_ties(spec_rank(s), k) =~= seq![s.first()] + spec_ties(
                s.drop_first(),
                k,
            ));
        } else {
            assert(spec_ties(s, k) =~= spec_ties(s.drop_first(), k));
        }
    }
}

fn insert_ranked(e: EventRecord, out: &mut Vec<EventRecord>)
    ensures
        final(out)@ == spec_insert_ranked(e, old(out)@),
{
    let mut j: usize = 0;
    while j < out.len() && out[j].participants > e.participants
        invariant
            j <= out@.len(),
            forall|k: int| 0 <= k < j ==> out@[k].participants > e.participants,
        decreases out@.len() - j,
    {
        j = j + 1;
    }
    proof {
        lemma_insert_ranked_at(e, out@, j as int);
    }
    out.insert(j, e);
}

proof fn lemma_insert_ranked_at(e: EventRecord, s: Seq<EventRecord>, j: int)
    requires
        0 <= j <= s.len(),
        forall|k: int| 0 <= k < j ==> s[k].participants > e.participants,
        j < s.len() ==> s[j].participants <= e.participants,
    ensures
        spec_insert_ranked(e, s) == s.insert(j, e),
    decreases s.len(),
{
    if j == 0 {
        if s.len() == 0 {
            assert(spec_insert_ranked(e, s) =~= s.insert(0, e));
        } else {
            assert(s[0] == s.first());
            assert(spec_insert_ranked(e, s) =~= s.insert(0, e));
        }
    } else {
        assert(s[0] == s.first());
        assert forall|k: int| 0 <= k < j - 1 implies s.drop_first()[k].participants
            > e.participants by {
            assert(s.drop_first()[k] == s[k + 1]);
        }
        assert(j - 1 < s.drop_first().len() ==> s.drop_first()[j - 1].participants
            <= e.participants) by {
            if j - 1 < s.drop_first().len() {
                assert(s.drop_first()[j - 1] == s[j]);
            }
        }
        lemma_insert_ranked_at(e, s.drop_first(), j - 1);
        assert(spec_insert_ranked(e, s) =~= seq![s.first()] + s.drop_first().insert(j - 1, e));
        assert(seq![s.first()] + s.drop_first().insert(j - 1, e) =~= s.insert(j, e));
    }
}

/// Rank a batch for display: participants descending, ties in batch
/// order. Re-ranking a ranked batch returns it unchanged.
pub fn rank(events: Vec<EventRecord>) -> (r: Vec<EventRecord>)
    ensures
        r@ == spec_rank(events@),
        sorted_desc(r@),
        forall|j: int| 0 <= j < r@.len() ==> events@.contains(#[trigger] r@[j]),
{
    let ghost all = events@;
    let mut rest = events;
    let mut out: Vec<EventRecord> = Vec::new();
    proof {
        assert(all.skip(all.len() as int) =~= Seq::<EventRecord>::empty());
    }
    while rest.len() > 0
        invariant
            rest@.len() <= all.len(),
            rest@ == all.take(rest@.len() as int),
            out@ == spec_rank(all.skip(rest@.len() as int)),
        decreases rest@.len(),
    {
        let ghost k = rest@.len() - 1;
        let e = rest.pop().unwrap();
        proof {
            assert(e == all[k as int]);
            assert(rest@ =~= all.take(k as int));
            assert(all.skip(k as int).first() == all[k as int]);
            assert(all.skip(k as int).drop_first() =~= all.skip(k + 1));
        }
        insert_ranked(e, &mut out);
    }
    proof {
        assert(all.skip(0) =~= all);
        lemma_rank_sorted(all);
    }
    out
}

} // verus!
