//! Severity ranking of station snapshots: most severe first, ties broken by
//! reading value descending (a missing reading loses every tie), and, as a
//! documented deterministic extension, by the stable display-order hint
//! ascending, so that the relation is a strict total order on rank keys.
use crate::Station;
use vstd::prelude::*;
use vstd::seq_lib::group_to_multiset_ensures;

verus! {

/// The tie-break key for the reading: any real reading beats a missing one,
/// and real readings compare by value.
pub open spec fn value_key(s: Station) -> int {
    match s.value {
        Some(v) => v as int,
        None => i64::MIN as int - 1,
    }
}

/// `a` may stand at or before `b` in the ranked list: severity score
/// descending, then reading value descending, then display-order hint
/// ascending.
pub open spec fn ranks_before(a: Station, b: Station) -> bool {
    ||| a.spec_score() > b.spec_score()
    ||| (a.spec_score() == b.spec_score() && value_key(a) > value_key(b))
    ||| (a.spec_score() == b.spec_score() && value_key(a) == value_key(b) && a.ordinamento
        <= b.ordinamento)
}

/// `a` ranks strictly above `b`: it must stand before it, and not conversely.
pub open spec fn ranks_above(a: Station, b: Station) -> bool {
    ranks_before(a, b) && !ranks_before(b, a)
}

/// The ranked order is total: of any two snapshots, at least one may stand
/// at or before the other.
pub proof fn lemma_ranks_before_total(a: Station, b: Station)
    ensures
        ranks_before(a, b) || ranks_before(b, a),
{
}

/// The ranked order is transitive.
pub proof fn lemma_ranks_before_transitive(a: Station, b: Station, c: Station)
    requires
        ranks_before(a, b),
        ranks_before(b, c),
    ensures
        ranks_before(a, c),
{
}

/// Strict ranking is a strict order: transitive, irreflexive and asymmetric.
pub proof fn lemma_ranks_above_strict_order(a: Station, b: Station, c: Station)
    ensures
        ranks_above(a, b) && ranks_above(b, c) ==> ranks_above(a, c),
        !ranks_above(a, a),
        ranks_above(a, b) ==> !ranks_above(b, a),
{
}

/// Strict ranking is total up to rank-key equality: two snapshots that agree
/// on none of score, reading key and display-order hint are strictly ordered
/// one way or the other.
pub proof fn lemma_ranks_above_total(a: Station, b: Station)
    requires
        a.spec_score() != b.spec_score() || value_key(a) != value_key(b) || a.ordinamento
            != b.ordinamento,
    ensures
        ranks_above(a, b) != ranks_above(b, a),
{
}

/// A station exceeding more thresholds ranks above one exceeding fewer,
/// regardless of the raw reading values.
pub proof fn lemma_higher_score_ranks_above(a: Station, b: Station)
    requires
        a.spec_score() > b.spec_score(),
    ensures
        ranks_above(a, b),
{
}

/// At equal severity score, stations order by reading value descending.
pub proof fn lemma_tie_break_by_value(a: Station, b: Station, va: i64, vb: i64)
    requires
        a.spec_score() == b.spec_score(),
        a.value == Some(va),
        b.value == Some(vb),
        va > vb,
    ensures
        ranks_above(a, b),
{
}

/// A station with no reading never outranks one with any reading at equal
/// severity score.
pub proof fn lemma_no_reading_loses_ties(a: Station, b: Station)
    requires
        a.spec_score() == b.spec_score(),
        a.value is None,
        b.value is Some,
    ensures
        !ranks_above(a, b),
        ranks_above(b, a),
{
}

/// Decide whether `a` may stand at or before `b` in the ranked list.
pub fn ranks_at_or_before(a: &Station, b: &Station) -> (r: bool)
    ensures
        r == ranks_before(*a, *b),
{
    let sa = a.score();
    let sb = b.score();
    if sa != sb {
        return sa > sb;
    }
    match (a.value, b.value) {
        (Some(x), Some(y)) => {
            if x != y {
                x > y
            } else {
                a.ordinamento <= b.ordinamento
            }
        },
        (Some(_), None) => true,
        (None, Some(_)) => false,
        (None, None) => a.ordinamento <= b.ordinamento,
    }
}

/// A sequence is ranked: every snapshot may stand at or before each one
/// after it.
pub open spec fn sorted_by_rank(s: Seq<Station>) -> bool {
    forall|i: int, j: int| 0 <= i < j < s.len() ==> ranks_before(s[i], s[j])
}

/// Sort a station list most-severe-first. The result is a permutation of the
/// input, ranked per `ranks_before`.
pub fn sort_stations(v: &mut Vec<Station>)
    ensures
        sorted_by_rank(final(v)@),
        final(v)@.to_multiset() == old(v)@.to_multiset(),
        final(v)@.len() == old(v)@.len(),
{
    broadcast use group_to_multiset_ensures;
    broadcast use vstd::multiset::group_multiset_axioms;

    let ghost orig = v@;
    if v.len() < 2 {
        return ;
    }
    let mut i: usize = 1;
    while i < v.len()
        invariant
            1 <= i <= v@.len(),
            v@.len() == orig.len(),
            v@.to_multiset() == orig.to_multiset(),
            sorted_by_rank(v@.take(i as int)),
        decreases v@.len() - i,
    {
        let ghost before = v@;
        let x = v.remove(i);
        let mut j: usize = 0;
        while j < i && ranks_at_or_before(&v[j], &x)
            invariant
                j <= i,
                i < before.len(),
                v@ == before.remove(i as int),
                forall|k: int| 0 <= k < j ==> ranks_before(v@[k], x),
            decreases i - j,
        {
            j = j + 1;
        }
        v.insert(j, x);
        proof {
            let after = before.remove(i as int).insert(j as int, x);
            assert(v@ == after);
            assert(v@.to_multiset() == orig.to_multiset()) by {
                vstd::seq_lib::to_multiset_remove(before, i as int);
                vstd::seq_lib::to_multiset_insert(before.remove(i as int), j as int, x);
                vstd::seq_lib::to_multiset_contains(before, x);
                assert(before.contains(x)) by {
                    assert(before[i as int] == x);
                }
                assert(v@.to_multiset() =~= before.to_multiset());
            }
            assert(sorted_by_rank(v@.take(i as int + 1))) by {
                let prev = before.take(i as int);
                let cur = v@.take(i as int + 1);
                assert(before.remove(i as int).take(i as int) =~= prev);
                assert(forall|k: int| 0 <= k < j ==> cur[k] == prev[k]);
                assert(cur[j as int] == x);
                assert(forall|k: int| j < k < cur.len() ==> cur[k] == prev[k - 1]);
                assert forall|p: int, q: int| 0 <= p < q < cur.len() implies ranks_before(
                    cur[p],
                    cur[q],
                ) by {
                    if q == j {
                        // everything before position j was checked against x
                        assert(ranks_before(cur[p], x));
                    } else if p == j {
                        // x stands before the element it displaced, and that
                        // element stands before all later ones
                        if j < i {
                            assert(!ranks_before(prev[j as int], x));
                            lemma_ranks_before_total(prev[j as int], x);
                            assert(ranks_before(x, prev[j as int]));
                            if q > j + 1 {
                                lemma_ranks_before_transitive(x, prev[j as int], prev[q - 1]);
                            }
                        }
                    } else if p < j && q > j {
                        assert(ranks_before(prev[p], prev[q - 1]));
                    }
                }
            }
        }
        i = i + 1;
    }
    proof {
        assert(v@.take(v@.len() as int) =~= v@);
    }
}

} // verus!
