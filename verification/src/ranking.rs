//! Ranking by time, newest first.
//!
//! A ranking of a sequence of times lists the positions of the sequence so
//! that later times come first and equal times keep their order. There is
//! exactly one such list, so a contract that speaks of a ranking names one
//! result.

use vstd::prelude::*;

verus! {

/// Whether the position `a` comes before the position `b` when `times` is
/// ranked newest first: its time is later, or the same and it stands first.
pub open spec fn ranks_before(times: Seq<u64>, a: int, b: int) -> bool {
    times[a] > times[b] || (times[a] == times[b] && a < b)
}

/// Whether `order` lists each of the first `count` positions of `times`
/// once, newest first.
pub open spec fn is_ranking_of(times: Seq<u64>, count: int, order: Seq<int>) -> bool {
    &&& order.len() == count
    &&& forall|i: int| 0 <= i < order.len() ==> 0 <= #[trigger] order[i] < count
    &&& forall|k: int| 0 <= k < count ==> order.contains(k)
    &&& forall|i: int, j: int|
        0 <= i < j < order.len() ==> ranks_before(times, #[trigger] order[i], #[trigger] order[j])
}

/// Whether `order` lists the positions of `times` newest first.
pub open spec fn is_ranking(times: Seq<u64>, order: Seq<int>) -> bool {
    is_ranking_of(times, times.len() as int, order)
}

/// The positions that a vector of positions holds.
pub open spec fn positions(order: Seq<usize>) -> Seq<int> {
    order.map_values(|position: usize| position as int)
}

/// Two rankings of the same times are the same list.
pub proof fn lemma_ranking_unique(times: Seq<u64>, first: Seq<int>, second: Seq<int>)
    requires
        is_ranking(times, first),
        is_ranking(times, second),
    ensures
        first == second,
{
    assert forall|i: int| 0 <= i < first.len() implies first[i] == second[i] by {
        lemma_ranking_agrees(times, first, second, i);
    }
    assert(first =~= second);
}

/// The entry at `i` of a ranking is the position that exactly `i` positions
/// rank before.
proof fn lemma_rank_counts(times: Seq<u64>, order: Seq<int>, i: int)
    requires
        is_ranking(times, order),
        0 <= i < order.len(),
    ensures
        Set::new(|k: int| 0 <= k < times.len() && ranks_before(times, k, order[i])).len() == i,
        Set::new(|k: int| 0 <= k < times.len() && ranks_before(times, k, order[i])).finite(),
{
    let before = Set::new(|k: int| 0 <= k < times.len() && ranks_before(times, k, order[i]));
    let head = order.take(i);
    assert forall|a: int, b: int| 0 <= a < b < order.len() implies order[a] != order[b] by {
        assert(ranks_before(times, order[a], order[b]));
    }
    assert(head.no_duplicates());
    assert forall|k: int| before.contains(k) <==> head.contains(k) by {
        if before.contains(k) {
            assert(order.contains(k));
            let j = choose|j: int| 0 <= j < order.len() && order[j] == k;
            if j > i {
                assert(ranks_before(times, order[i], order[j]));
            }
            assert(j != i);
            assert(head[j] == k);
        }
        if head.contains(k) {
            let j = choose|j: int| 0 <= j < head.len() && head[j] == k;
            assert(order[j] == k);
            assert(ranks_before(times, order[j], order[i]));
        }
    }
    assert(before =~= head.to_set());
    head.unique_seq_to_set();
}

/// Two rankings of the same times agree at every entry.
proof fn lemma_ranking_agrees(times: Seq<u64>, first: Seq<int>, second: Seq<int>, i: int)
    requires
        is_ranking(times, first),
        is_ranking(times, second),
        0 <= i < first.len(),
    ensures
        first[i] == second[i],
{
    let k = first[i];
    assert(second.contains(k));
    let j = choose|j: int| 0 <= j < second.len() && second[j] == k;
    lemma_rank_counts(times, first, i);
    lemma_rank_counts(times, second, j);
}

/// The ranking of `times`: its positions, newest first, equal times in
/// their order.
pub open spec fn ranking(times: Seq<u64>) -> Seq<int> {
    choose|order: Seq<int>| is_ranking(times, order)
}

/// The first `limit` entries of `order`, or all of them where there are
/// fewer.
pub open spec fn at_most<T>(order: Seq<T>, limit: int) -> Seq<T> {
    if order.len() <= limit {
        order
    } else {
        order.take(limit)
    }
}

/// Ranks the positions of `times`, newest first; equal times keep their
/// order.
pub fn rank_newest_first(times: &Vec<u64>) -> (order: Vec<usize>)
    ensures
        is_ranking(times@, positions(order@)),
        positions(order@) == ranking(times@),
        order@.len() == times@.len(),
        forall|i: int| 0 <= i < order@.len() ==> #[trigger] order@[i] < times@.len(),
{
    let order = rank_positions(times);
    proof {
        lemma_ranking_unique(times@, positions(order@), ranking(times@));
        assert forall|i: int| 0 <= i < order@.len() implies #[trigger] order@[i] < times@.len() by {
            assert(0 <= positions(order@)[i] < times@.len());
        }
    }
    order
}

/// Ranks by insertion: each position goes behind the positions that rank
/// before it.
fn rank_positions(times: &Vec<u64>) -> (order: Vec<usize>)
    ensures
        is_ranking(times@, positions(order@)),
{
    let mut order: Vec<usize> = Vec::new();
    let mut next: usize = 0;
    while next < times.len()
        invariant
            next <= times.len(),
            is_ranking_of(times@, next as int, positions(order@)),
        decreases times.len() - next,
    {
        let mut place: usize = 0;
        assert forall|a: int| 0 <= a < order.len() implies #[trigger] order@[a] < next by {
            assert(0 <= positions(order@)[a] < next);
        }
        while place < order.len() && times[order[place]] >= times[next]
            invariant
                place <= order.len(),
                next < times.len(),
                is_ranking_of(times@, next as int, positions(order@)),
                forall|a: int| 0 <= a < order.len() ==> #[trigger] order@[a] < next,
                forall|a: int|
                    0 <= a < place ==> times@[(#[trigger] positions(order@)[a])]
                        >= times@[next as int],
            decreases order.len() - place,
        {
            assert(positions(order@)[place as int] == order@[place as int]);
            place += 1;
        }
        let ghost before = positions(order@);
        assert(place < order.len() ==> 0 <= before[place as int] < next);
        order.insert(place, next);
        proof {
            let after = positions(order@);
            assert(after =~= before.insert(place as int, next as int));
            assert forall|k: int| 0 <= k < next + 1 implies after.contains(k) by {
                if k < next {
                    assert(before.contains(k));
                    let j = choose|j: int| 0 <= j < before.len() && before[j] == k;
                    if j < place {
                        assert(after[j] == k);
                    } else {
                        assert(after[j + 1] == k);
                    }
                } else {
                    assert(after[place as int] == k);
                }
            }
            assert forall|i: int, j: int| 0 <= i < j < after.len() implies ranks_before(
                times@,
                #[trigger] after[i],
                #[trigger] after[j],
            ) by {
                if j < place {
                    assert(after[i] == before[i] && after[j] == before[j]);
                } else if j == place {
                    assert(after[i] == before[i]);
                } else if i < place {
                    assert(after[i] == before[i] && after[j] == before[j - 1]);
                } else if i == place {
                    assert(after[j] == before[j - 1]);
                    if j - 1 > place {
                        assert(ranks_before(times@, before[place as int], before[j - 1]));
                    }
                } else {
                    assert(after[i] == before[i - 1] && after[j] == before[j - 1]);
                }
            }
        }
        next += 1;
    }
    order
}

} // verus!
