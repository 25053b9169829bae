//! Choosing the greatest of the elements that pass a filter.
//!
//! The queries of a version list all have one shape: keep the releases that
//! match, then take the first of those that none of the kept exceeds.  This
//! module states that shape once, for any element type, filter and order.

use vstd::prelude::*;

verus! {

/// `before` ranks elements: nothing is before itself, before-ness chains, and
/// an element that is before another is before, or after, every third one.
/// Elements of which neither is before the other tie.
pub open spec fn strict_weak_order<T>(before: spec_fn(T, T) -> bool) -> bool {
    &&& forall|x: T| !#[trigger] before(x, x)
    &&& forall|x: T, y: T, z: T| #[trigger] before(x, y) && #[trigger] before(y, z) ==> before(x, z)
    &&& forall|x: T, y: T, z: T| #[trigger] before(x, z) ==> #[trigger] before(x, y) || before(y, z)
}

/// The element at `i` is kept, no kept element of `s` is greater, and every
/// kept element in front of it is smaller: it is the first of the greatest.
pub open spec fn is_first_max<T>(
    s: Seq<T>,
    i: int,
    keep: spec_fn(T) -> bool,
    before: spec_fn(T, T) -> bool,
) -> bool {
    &&& 0 <= i < s.len()
    &&& keep(s[i])
    &&& forall|j: int| 0 <= j < s.len() && keep(#[trigger] s[j]) ==> !before(s[i], s[j])
    &&& forall|j: int| 0 <= j < i && keep(#[trigger] s[j]) ==> before(s[j], s[i])
}

/// `r` is the answer to the query on `s`: nothing where no element is kept,
/// else the first of the greatest kept elements.
pub open spec fn selects<T>(
    s: Seq<T>,
    keep: spec_fn(T) -> bool,
    before: spec_fn(T, T) -> bool,
    r: Option<T>,
) -> bool {
    match r {
        None => forall|j: int| 0 <= j < s.len() ==> !keep(#[trigger] s[j]),
        Some(x) => exists|i: int| #[trigger] is_first_max(s, i, keep, before) && s[i] == x,
    }
}

/// The answer to the query on `s`, computed from the front: the greatest so
/// far gives way only to a kept element that is strictly greater.
pub open spec fn pick<T>(s: Seq<T>, keep: spec_fn(T) -> bool, before: spec_fn(T, T) -> bool)
    -> Option<T>
    decreases s.len(),
{
    if s.len() == 0 {
        None
    } else {
        let rest = pick(s.drop_last(), keep, before);
        if !keep(s.last()) {
            rest
        } else {
            match rest {
                None => Some(s.last()),
                Some(m) => if before(m, s.last()) {
                    Some(s.last())
                } else {
                    Some(m)
                },
            }
        }
    }
}

/// A filter that keeps everything.
pub open spec fn keep_all<T>() -> spec_fn(T) -> bool {
    |x: T| true
}

/// A query has one answer: whatever two runs over the same sequence return,
/// they return the same.
pub proof fn lemma_selects_unique<T>(
    s: Seq<T>,
    keep: spec_fn(T) -> bool,
    before: spec_fn(T, T) -> bool,
    r1: Option<T>,
    r2: Option<T>,
)
    requires
        selects(s, keep, before, r1),
        selects(s, keep, before, r2),
    ensures
        r1 == r2,
{
    match (r1, r2) {
        (Some(x), Some(y)) => {
            let i = choose|i: int| #[trigger] is_first_max(s, i, keep, before) && s[i] == x;
            let j = choose|j: int| #[trigger] is_first_max(s, j, keep, before) && s[j] == y;
            if i < j {
                assert(keep(s[i]) && before(s[i], s[j]));
                assert(keep(s[j]) && !before(s[i], s[j]));
            } else if j < i {
                assert(keep(s[j]) && before(s[j], s[i]));
                assert(keep(s[i]) && !before(s[j], s[i]));
            }
        },
        (Some(x), None) => {
            let i = choose|i: int| #[trigger] is_first_max(s, i, keep, before) && s[i] == x;
            assert(keep(s[i]));
        },
        (None, Some(y)) => {
            let j = choose|j: int| #[trigger] is_first_max(s, j, keep, before) && s[j] == y;
            assert(keep(s[j]));
        },
        (None, None) => {},
    }
}

/// Under an order that ranks the elements, [`pick`] computes the answer to
/// the query.
pub proof fn lemma_pick_selects<T>(
    s: Seq<T>,
    keep: spec_fn(T) -> bool,
    before: spec_fn(T, T) -> bool,
)
    requires
        strict_weak_order(before),
    ensures
        selects(s, keep, before, pick(s, keep, before)),
    decreases s.len(),
{
    if s.len() > 0 {
        let t = s.drop_last();
        let x = s.last();
        let n = s.len() - 1;
        lemma_pick_selects(t, keep, before);
        assert forall|j: int| 0 <= j < n implies t[j] == s[j] by {}
        match pick(t, keep, before) {
            None => {
                if keep(x) {
                    assert(is_first_max(s, n, keep, before)) by {
                        assert forall|j: int| 0 <= j < s.len() && keep(#[trigger] s[j]) implies !before(
                            s[n],
                            s[j],
                        ) by {
                            if j < n {
                                assert(!keep(t[j]));
                            }
                        }
                        assert forall|j: int| 0 <= j < n && keep(#[trigger] s[j]) implies before(
                            s[j],
                            s[n],
                        ) by {
                            assert(!keep(t[j]));
                        }
                    }
                } else {
                    assert forall|j: int| 0 <= j < s.len() implies !keep(#[trigger] s[j]) by {
                        if j < n {
                            assert(!keep(t[j]));
                        }
                    }
                }
            },
            Some(m) => {
                let i = choose|i: int| #[trigger] is_first_max(t, i, keep, before) && t[i] == m;
                if keep(x) && before(m, x) {
                    assert(is_first_max(s, n, keep, before)) by {
                        assert forall|j: int| 0 <= j < s.len() && keep(#[trigger] s[j]) implies !before(
                            s[n],
                            s[j],
                        ) by {
                            if j < n {
                                assert(keep(t[j]) && !before(t[i], t[j]));
                                if before(x, s[j]) {
                                    assert(before(m, s[j]));
                                }
                            }
                        }
                        assert forall|j: int| 0 <= j < n && keep(#[trigger] s[j]) implies before(
                            s[j],
                            s[n],
                        ) by {
                            assert(keep(t[j]) && !before(t[i], t[j]));
                            assert(before(m, s[j]) || before(s[j], x));
                        }
                    }
                } else {
                    assert(is_first_max(s, i, keep, before)) by {
                        assert forall|j: int| 0 <= j < s.len() && keep(#[trigger] s[j]) implies !before(
                            s[i],
                            s[j],
                        ) by {
                            if j < n {
                                assert(keep(t[j]) && !before(t[i], t[j]));
                            }
                        }
                        assert forall|j: int| 0 <= j < i && keep(#[trigger] s[j]) implies before(
                            s[j],
                            s[i],
                        ) by {
                            assert(keep(t[j]) && before(t[j], t[i]));
                        }
                    }
                }
            },
        }
    }
}

/// A constrained query is the unconstrained query on what the constraint
/// keeps: picking among the kept elements of `s` gives what picking among all
/// elements of `s.filter(keep)` gives.
pub proof fn lemma_pick_filter<T>(
    s: Seq<T>,
    keep: spec_fn(T) -> bool,
    before: spec_fn(T, T) -> bool,
)
    ensures
        pick(s, keep, before) == pick(s.filter(keep), keep_all(), before),
    decreases s.len(),
{
    reveal(Seq::filter);
    if s.len() > 0 {
        lemma_pick_filter(s.drop_last(), keep, before);
        if keep(s.last()) {
            let f = s.drop_last().filter(keep);
            assert(f.push(s.last()).drop_last() =~= f);
        }
    }
}

} // verus!
