//! Searching and filtering sequences: the vocabulary in which the store's
//! contracts are written.

use vstd::prelude::*;

verus! {

/// The first element of `s` that satisfies `p`, if there is one.
pub open spec fn first_match<T>(s: Seq<T>, p: spec_fn(T) -> bool) -> Option<T>
    decreases s.len(),
{
    if s.len() == 0 {
        None
    } else if p(s[0]) {
        Some(s[0])
    } else {
        first_match(s.drop_first(), p)
    }
}

/// The elements of `s` that satisfy `p`, in their order.
pub open spec fn keep<T>(s: Seq<T>, p: spec_fn(T) -> bool) -> Seq<T>
    decreases s.len(),
{
    if s.len() == 0 {
        Seq::empty()
    } else if p(s.last()) {
        keep(s.drop_last(), p).push(s.last())
    } else {
        keep(s.drop_last(), p)
    }
}

/// Whether some element of `s` satisfies `p`.
pub open spec fn any<T>(s: Seq<T>, p: spec_fn(T) -> bool) -> bool {
    exists|i: int| 0 <= i < s.len() && p(#[trigger] s[i])
}

/// A search finds nothing exactly when no element satisfies the predicate.
pub proof fn lemma_first_match_none<T>(s: Seq<T>, p: spec_fn(T) -> bool)
    ensures
        first_match(s, p) is None <==> !any(s, p),
    decreases s.len(),
{
    if s.len() > 0 {
        let rest = s.drop_first();
        lemma_first_match_none(rest, p);
        if p(s[0]) {
            assert(any(s, p));
        } else if any(rest, p) {
            let i = choose|i: int| 0 <= i < rest.len() && p(#[trigger] rest[i]);
            assert(p(s[i + 1]));
        } else if any(s, p) {
            let i = choose|i: int| 0 <= i < s.len() && p(#[trigger] s[i]);
            assert(p(rest[i - 1]));
        }
    }
}

/// What a search finds is an element of the sequence that satisfies the
/// predicate.
pub proof fn lemma_first_match_holds<T>(s: Seq<T>, p: spec_fn(T) -> bool)
    requires
        first_match(s, p) is Some,
    ensures
        p(first_match(s, p)->0),
        s.contains(first_match(s, p)->0),
    decreases s.len(),
{
    if p(s[0]) {
        assert(s[0] == first_match(s, p)->0);
    } else {
        let rest = s.drop_first();
        lemma_first_match_holds(rest, p);
        let found = first_match(rest, p)->0;
        let k = choose|k: int| 0 <= k < rest.len() && rest[k] == found;
        assert(s[k + 1] == found);
    }
}

/// The element at `i` is what a search finds if it satisfies the predicate
/// and nothing before it does.
pub proof fn lemma_first_match_at<T>(s: Seq<T>, p: spec_fn(T) -> bool, i: int)
    requires
        0 <= i < s.len(),
        p(s[i]),
        forall|j: int| 0 <= j < i ==> !p(#[trigger] s[j]),
    ensures
        first_match(s, p) == Some(s[i]),
    decreases i,
{
    if i > 0 {
        let rest = s.drop_first();
        assert(!p(s[0]));
        assert forall|j: int| 0 <= j < i - 1 implies !p(#[trigger] rest[j]) by {
            assert(rest[j] == s[j + 1]);
        }
        lemma_first_match_at(rest, p, i - 1);
    }
}

/// Every element that is kept satisfies the predicate and comes from the
/// sequence; every element of the sequence that satisfies it is kept.
pub proof fn lemma_keep_members<T>(s: Seq<T>, p: spec_fn(T) -> bool)
    ensures
        keep(s, p).len() <= s.len(),
        forall|i: int|
            0 <= i < keep(s, p).len() ==> p(#[trigger] keep(s, p)[i]) && s.contains(keep(s, p)[i]),
        forall|j: int| 0 <= j < s.len() && p(#[trigger] s[j]) ==> keep(s, p).contains(s[j]),
    decreases s.len(),
{
    if s.len() > 0 {
        let front = s.drop_last();
        lemma_keep_members(front, p);
        let kept = keep(s, p);
        assert forall|i: int| 0 <= i < kept.len() implies p(#[trigger] kept[i]) && s.contains(
            kept[i],
        ) by {
            if i < keep(front, p).len() {
                assert(kept[i] == keep(front, p)[i]);
                let k = choose|k: int| 0 <= k < front.len() && front[k] == kept[i];
                assert(s[k] == kept[i]);
            } else {
                assert(kept[i] == s.last());
                assert(s[s.len() - 1] == kept[i]);
            }
        }
        assert forall|j: int| 0 <= j < s.len() && p(#[trigger] s[j]) implies kept.contains(
            s[j],
        ) by {
            if j < front.len() {
                assert(front[j] == s[j]);
                let k = choose|k: int| 0 <= k < keep(front, p).len() && keep(front, p)[k] == s[j];
                assert(kept[k] == s[j]);
            } else {
                assert(kept[kept.len() - 1] == s[j]);
            }
        }
    }
}

/// The kept elements stand in the order in which the sequence has them: each
/// comes from a position of the sequence, and later ones from later
/// positions.
pub proof fn lemma_keep_sorted_out<T>(s: Seq<T>, p: spec_fn(T) -> bool)
    ensures
        exists|from: Seq<int>|
            #![trigger from.len()]
            from.len() == keep(s, p).len() && (forall|i: int|
                0 <= i < from.len() ==> 0 <= #[trigger] from[i] < s.len() && s[from[i]] == keep(
                    s,
                    p,
                )[i]) && (forall|i: int, j: int|
                0 <= i < j < from.len() ==> #[trigger] from[i] < #[trigger] from[j]),
    decreases s.len(),
{
    if s.len() == 0 {
        let from = Seq::<int>::empty();
        assert(from.len() == keep(s, p).len());
    } else {
        let front = s.drop_last();
        lemma_keep_sorted_out(front, p);
        let inner = choose|from: Seq<int>|
            #![trigger from.len()]
            from.len() == keep(front, p).len() && (forall|i: int|
                0 <= i < from.len() ==> 0 <= #[trigger] from[i] < front.len() && front[from[i]]
                    == keep(front, p)[i]) && (forall|i: int, j: int|
                0 <= i < j < from.len() ==> #[trigger] from[i] < #[trigger] from[j]);
        if p(s.last()) {
            let from = inner.push(s.len() - 1);
            assert(from.len() == keep(s, p).len());
            assert forall|i: int| 0 <= i < from.len() implies 0 <= #[trigger] from[i] < s.len()
                && s[from[i]] == keep(s, p)[i] by {
                if i < inner.len() {
                    assert(front[inner[i]] == keep(front, p)[i]);
                }
            }
        } else {
            assert(inner.len() == keep(s, p).len());
            assert forall|i: int| 0 <= i < inner.len() implies 0 <= #[trigger] inner[i] < s.len()
                && s[inner[i]] == keep(s, p)[i] by {
                assert(front[inner[i]] == keep(front, p)[i]);
            }
        }
    }
}

/// Where every element satisfies the predicate, all are kept.
pub proof fn lemma_keep_all<T>(s: Seq<T>, p: spec_fn(T) -> bool)
    requires
        forall|i: int| 0 <= i < s.len() ==> p(#[trigger] s[i]),
    ensures
        keep(s, p) == s,
    decreases s.len(),
{
    if s.len() > 0 {
        let front = s.drop_last();
        assert forall|i: int| 0 <= i < front.len() implies p(#[trigger] front[i]) by {
            assert(front[i] == s[i]);
        }
        lemma_keep_all(front, p);
        assert(front.push(s.last()) =~= s);
    } else {
        assert(s =~= Seq::empty());
    }
}

/// Where one element alone fails the predicate, filtering removes that
/// element and nothing else.
pub proof fn lemma_keep_all_but_one<T>(s: Seq<T>, p: spec_fn(T) -> bool, i: int)
    requires
        0 <= i < s.len(),
        !p(s[i]),
        forall|j: int| 0 <= j < s.len() && j != i ==> p(#[trigger] s[j]),
    ensures
        keep(s, p) == s.remove(i),
    decreases s.len(),
{
    let front = s.drop_last();
    if i == s.len() - 1 {
        assert forall|j: int| 0 <= j < front.len() implies p(#[trigger] front[j]) by {
            assert(front[j] == s[j]);
        }
        lemma_keep_all(front, p);
        assert(front =~= s.remove(i));
    } else {
        assert(front[i] == s[i]);
        assert forall|j: int| 0 <= j < front.len() && j != i implies p(#[trigger] front[j]) by {
            assert(front[j] == s[j]);
        }
        lemma_keep_all_but_one(front, p, i);
        assert(p(s[s.len() - 1]));
        assert(front.remove(i).push(s.last()) =~= s.remove(i));
    }
}

/// Filtering twice by the same predicate is filtering once.
pub proof fn lemma_keep_idempotent<T>(s: Seq<T>, p: spec_fn(T) -> bool)
    ensures
        keep(keep(s, p), p) == keep(s, p),
{
    lemma_keep_members(s, p);
    lemma_keep_all(keep(s, p), p);
}

} // verus!
