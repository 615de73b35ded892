//! The order in which verdicts are reported: most urgent first.

use vstd::multiset::Multiset;
use vstd::prelude::*;

use crate::verdict::StalenessVerdict;

verus! {

/// Whether `a` is strictly more urgent than `b`: less time left, or as much
/// and the lower issue number.
pub open spec fn more_urgent(a: StalenessVerdict, b: StalenessVerdict) -> bool {
    ||| a.time_until_eligible@ < b.time_until_eligible@
    ||| a.time_until_eligible@ == b.time_until_eligible@ && a.number < b.number
}

/// Whether no verdict in `s` stands behind one that it is more urgent than.
pub open spec fn is_ranked(s: Seq<StalenessVerdict>) -> bool {
    forall|i: int, j: int| 0 <= i < j < s.len() ==> !more_urgent(s[j], s[i])
}

/// `s`, which is ranked, with `v` put in: behind every verdict that is more
/// urgent than `v`, in front of all others.
pub open spec fn insert_ranked(s: Seq<StalenessVerdict>, v: StalenessVerdict) -> Seq<
    StalenessVerdict,
>
    decreases s.len(),
{
    if s.len() > 0 && more_urgent(s.first(), v) {
        seq![s.first()] + insert_ranked(s.drop_first(), v)
    } else {
        seq![v] + s
    }
}

/// The verdicts of `s` from the most urgent to the least. Verdicts that are
/// equally urgent keep the order they have in `s`.
pub open spec fn ranked(s: Seq<StalenessVerdict>) -> Seq<StalenessVerdict>
    decreases s.len(),
{
    if s.len() == 0 {
        s
    } else {
        insert_ranked(ranked(s.drop_first()), s.first())
    }
}

/// Putting `v` in at `at` is `insert_ranked` when the verdicts in front of
/// `at` are the ones more urgent than `v`.
proof fn lemma_insert_at(s: Seq<StalenessVerdict>, v: StalenessVerdict, at: int)
    requires
        0 <= at <= s.len(),
        forall|k: int| 0 <= k < at ==> more_urgent(#[trigger] s[k], v),
        at < s.len() ==> !more_urgent(s[at], v),
    ensures
        insert_ranked(s, v) == s.insert(at, v),
    decreases s.len(),
{
    if at == 0 {
        assert(s.insert(0, v) =~= seq![v] + s);
    } else {
        let rest = s.drop_first();
        assert forall|k: int| 0 <= k < at - 1 implies more_urgent(#[trigger] rest[k], v) by {
            assert(rest[k] == s[k + 1]);
        }
        lemma_insert_at(rest, v, at - 1);
        assert(s.insert(at, v) =~= seq![s.first()] + rest.insert(at - 1, v));
    }
}

/// `insert_ranked` keeps a ranked sequence ranked and adds just `v`.
pub proof fn lemma_insert_ranked(s: Seq<StalenessVerdict>, v: StalenessVerdict)
    requires
        is_ranked(s),
    ensures
        is_ranked(insert_ranked(s, v)),
        insert_ranked(s, v).len() == s.len() + 1,
        insert_ranked(s, v).to_multiset() == s.to_multiset().insert(v),
    decreases s.len(),
{
    broadcast use vstd::seq_lib::group_to_multiset_ensures;

    let r = insert_ranked(s, v);
    if s.len() > 0 && more_urgent(s.first(), v) {
        let rest = s.drop_first();
        assert forall|i: int, j: int| 0 <= i < j < rest.len() implies !more_urgent(
            rest[j],
            rest[i],
        ) by {
            assert(rest[i] == s[i + 1] && rest[j] == s[j + 1]);
        }
        lemma_insert_ranked(rest, v);
        let tail = insert_ranked(rest, v);
        assert(r == seq![s.first()] + tail);
        assert forall|x: StalenessVerdict| tail.contains(x) implies !more_urgent(
            x,
            s.first(),
        ) by {
            assert(tail.to_multiset().count(x) > 0);
            if x != v {
                assert(rest.to_multiset().count(x) > 0);
                assert(rest.contains(x));
                let k = choose|k: int| 0 <= k < rest.len() && rest[k] == x;
                assert(s[k + 1] == x);
            }
        }
        assert forall|i: int, j: int| 0 <= i < j < r.len() implies !more_urgent(r[j], r[i]) by {
            assert(r[j] == tail[j - 1]);
            if i == 0 {
                assert(tail.contains(tail[j - 1]));
            } else {
                assert(r[i] == tail[i - 1]);
            }
        }
        vstd::seq_lib::lemma_multiset_commutative(seq![s.first()], tail);
        vstd::seq_lib::lemma_multiset_commutative(seq![s.first()], rest);
        assert(s =~= seq![s.first()] + rest);
        assert(r.to_multiset() =~= s.to_multiset().insert(v));
    } else {
        assert forall|i: int, j: int| 0 <= i < j < r.len() implies !more_urgent(r[j], r[i]) by {
            assert(r[j] == s[j - 1]);
            if i == 0 {
                if more_urgent(s[j - 1], v) {
                    assert(!more_urgent(s[j - 1], s[0]));
                }
            } else {
                assert(r[i] == s[i - 1]);
            }
        }
        vstd::seq_lib::lemma_multiset_commutative(seq![v], s);
        assert(seq![v].to_multiset() =~= Multiset::empty().insert(v)) by {
            assert(seq![v] =~= Seq::<StalenessVerdict>::empty().push(v));
        }
        assert(r.to_multiset() =~= s.to_multiset().insert(v));
    }
}

/// Ranking orders the verdicts by urgency and neither drops nor adds one.
pub proof fn lemma_ranked(s: Seq<StalenessVerdict>)
    ensures
        is_ranked(ranked(s)),
        ranked(s).len() == s.len(),
        ranked(s).to_multiset() == s.to_multiset(),
    decreases s.len(),
{
    broadcast use vstd::seq_lib::group_to_multiset_ensures;

    if s.len() > 0 {
        let rest = s.drop_first();
        lemma_ranked(rest);
        lemma_insert_ranked(ranked(rest), s.first());
        vstd::seq_lib::lemma_multiset_commutative(seq![s.first()], rest);
        assert(s =~= seq![s.first()] + rest);
        assert(seq![s.first()].to_multiset() =~= Multiset::empty().insert(s.first())) by {
            assert(seq![s.first()] =~= Seq::<StalenessVerdict>::empty().push(s.first()));
        }
        assert(ranked(s).to_multiset() =~= s.to_multiset());
    }
}

/// Whether `a` and `b` are equally urgent: neither comes before the other
/// by the time left or by the issue number.
pub open spec fn equally_urgent(a: StalenessVerdict, b: StalenessVerdict) -> bool {
    a.time_until_eligible@ == b.time_until_eligible@ && a.number == b.number
}

/// The test for being as urgent as `v`.
pub open spec fn as_urgent_as(v: StalenessVerdict) -> spec_fn(StalenessVerdict) -> bool {
    |other: StalenessVerdict| equally_urgent(other, v)
}

/// What a test leaves of a single verdict.
proof fn lemma_filter_one(v: StalenessVerdict, test: spec_fn(StalenessVerdict) -> bool)
    ensures
        seq![v].filter(test) == if test(v) {
            seq![v]
        } else {
            Seq::empty()
        },
{
    reveal_with_fuel(Seq::filter, 2);
    assert(seq![v].drop_last() =~= Seq::empty());
    assert(Seq::<StalenessVerdict>::empty().push(v) =~= seq![v]);
}

/// Putting `v` into a ranked sequence puts it in front of the verdicts that
/// are as urgent as `v`, and leaves the others as they stood to each other.
proof fn lemma_insert_is_stable(s: Seq<StalenessVerdict>, v: StalenessVerdict, like: StalenessVerdict)
    ensures
        insert_ranked(s, v).filter(as_urgent_as(like)) == seq![v].filter(as_urgent_as(like))
            + s.filter(as_urgent_as(like)),
    decreases s.len(),
{
    broadcast use Seq::filter_distributes_over_add;

    let test = as_urgent_as(like);
    if s.len() > 0 && more_urgent(s.first(), v) {
        let head = seq![s.first()];
        let rest = s.drop_first();
        lemma_insert_is_stable(rest, v, like);
        lemma_filter_one(s.first(), test);
        lemma_filter_one(v, test);
        assert(s =~= head + rest);
        assert(!(test(s.first()) && test(v)));
        assert(head.filter(test) + (seq![v].filter(test) + rest.filter(test)) =~= seq![v].filter(
            test,
        ) + (head.filter(test) + rest.filter(test)));
    }
}

/// Ranking is stable: verdicts that are equally urgent keep the order in
/// which they came.
pub proof fn lemma_ranked_is_stable(s: Seq<StalenessVerdict>, like: StalenessVerdict)
    ensures
        ranked(s).filter(as_urgent_as(like)) == s.filter(as_urgent_as(like)),
    decreases s.len(),
{
    broadcast use Seq::filter_distributes_over_add;

    if s.len() > 0 {
        let rest = s.drop_first();
        lemma_ranked_is_stable(rest, like);
        lemma_insert_is_stable(ranked(rest), s.first(), like);
        assert(s =~= seq![s.first()] + rest);
    }
}

/// In a ranked sequence the time left never falls from one verdict to the
/// next, and where it stays the same the issue number does not fall.
pub proof fn lemma_ranked_order(s: Seq<StalenessVerdict>, i: int, j: int)
    requires
        is_ranked(s),
        0 <= i < j < s.len(),
    ensures
        s[i].time_until_eligible@ <= s[j].time_until_eligible@,
        s[i].time_until_eligible@ == s[j].time_until_eligible@ ==> s[i].number <= s[j].number,
{
    assert(!more_urgent(s[j], s[i]));
}

/// Whether `a` is strictly more urgent than `b`.
pub fn is_more_urgent(a: &StalenessVerdict, b: &StalenessVerdict) -> (yes: bool)
    ensures
        yes == more_urgent(*a, *b),
{
    let left: i64 = a.time_until_eligible.num_seconds();
    let right: i64 = b.time_until_eligible.num_seconds();
    left < right || (left == right && a.number < b.number)
}

/// Orders the verdicts from the most urgent to the least: by the time left
/// until the issue may be closed, the most overdue first, and among equals
/// by issue number. Verdicts that agree in both keep their order.
pub fn rank(verdicts: Vec<StalenessVerdict>) -> (ordered: Vec<StalenessVerdict>)
    ensures
        ordered@ == ranked(verdicts@),
        is_ranked(ordered@),
        ordered@.len() == verdicts@.len(),
        ordered@.to_multiset() == verdicts@.to_multiset(),
{
    let ghost all = verdicts@;
    let mut rest = verdicts;
    let mut ordered: Vec<StalenessVerdict> = Vec::new();
    while rest.len() > 0
        invariant
            rest@.len() <= all.len(),
            rest@ == all.take(rest@.len() as int),
            ordered@ == ranked(all.skip(rest@.len() as int)),
        decreases rest.len(),
    {
        let ghost before = rest@.len() as int;
        let verdict = rest.remove(rest.len() - 1);
        let mut at: usize = 0;
        while at < ordered.len() && is_more_urgent(&ordered[at], &verdict)
            invariant
                at <= ordered.len(),
                forall|k: int| 0 <= k < at ==> more_urgent(#[trigger] ordered@[k], verdict),
            decreases ordered.len() - at,
        {
            at += 1;
        }
        proof {
            let tail = all.skip(before - 1);
            assert(verdict == all[before - 1]);
            assert(tail.first() == verdict);
            assert(tail.drop_first() == all.skip(before));
            assert(rest@ == all.take(before - 1));
            lemma_insert_at(ordered@, verdict, at as int);
        }
        ordered.insert(at, verdict);
    }
    proof {
        assert(all.skip(0) == all);
        lemma_ranked(all);
    }
    ordered
}

} // verus!
