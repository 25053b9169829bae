//! What holds of the queries for every version list.

use vstd::prelude::*;
use crate::decode::CratesioResponse;
use crate::release::{Version, VersionView};
use crate::select::{is_first_max, keep_all, lemma_pick_filter, pick, selects};
use crate::semantic::lemma_precedes_total;
use crate::versions::{by_time, by_version, is_max, is_newest, kept};

verus! {

/// The view of the release that a query returns.
pub open spec fn viewed(r: Option<Version>) -> Option<VersionView> {
    match r {
        Some(v) => Some(v@),
        None => None,
    }
}

/// `max_version` returns nothing exactly for the empty list.  What it
/// returns otherwise is a release of the list, and the version number of
/// every release of the list is lower than its version number or of the same
/// precedence.
pub proof fn lemma_max_version_is_greatest(s: Seq<Version>, r: Option<Version>)
    requires
        is_max(s, None, None, None, r),
    ensures
        r is None <==> s.len() == 0,
        r matches Some(x) ==> {
            &&& exists|i: int| 0 <= i < s.len() && s[i] == x
            &&& forall|j: int|
                0 <= j < s.len() ==> (#[trigger] s[j])@.version.precedes(x@.version)
                    || s[j]@.version.same_precedence(x@.version)
        },
{
    let keep = kept(None, None, None);
    match r {
        Some(x) => {
            let i = choose|i: int| #[trigger] is_first_max(s, i, keep, by_version()) && s[i] == x;
            assert forall|j: int| 0 <= j < s.len() implies (#[trigger] s[j])@.version.precedes(
                x@.version,
            ) || s[j]@.version.same_precedence(x@.version) by {
                assert(keep(s[j]));
                lemma_precedes_total(s[j]@.version, x@.version);
            }
        },
        None => {
            if s.len() > 0 {
                assert(keep(s[0]));
            }
        },
    }
}

/// Where every release of the list was yanked, `max_unyanked_version`
/// returns nothing, while `max_version` returns a release unless the list is
/// empty.
pub proof fn lemma_all_yanked(s: Seq<Version>, unyanked: Option<Version>, any: Option<Version>)
    requires
        forall|i: int| 0 <= i < s.len() ==> (#[trigger] s[i]).yanked,
        is_max(s, Some(false), None, None, unyanked),
        is_max(s, None, None, None, any),
    ensures
        unyanked is None,
        s.len() > 0 ==> any is Some,
{
    if let Some(x) = unyanked {
        let i = choose|i: int|
            #[trigger] is_first_max(s, i, kept(Some(false), None, None), by_version()) && s[i]
                == x;
        assert(s[i].yanked);
    }
    if s.len() > 0 {
        assert(kept(None, None, None)(s[0]));
    }
}

/// A constrained query is the unconstrained query on the filtered list: the
/// greatest version among the releases of `s` that pass a filter is what
/// `max_version` returns for the list of the releases of `s` that pass it.
pub proof fn lemma_constrained_is_filtered(
    s: Seq<Version>,
    yanked: Option<bool>,
    major: Option<u64>,
    minor: Option<u64>,
    constrained: Option<Version>,
    filtered: Option<Version>,
)
    requires
        is_max(s, yanked, major, minor, constrained),
        is_max(s.filter(kept(yanked, major, minor)), None, None, None, filtered),
    ensures
        constrained == filtered,
{
    lemma_pick_filter(s, kept(yanked, major, minor), by_version());
    assert(kept(None, None, None) =~= keep_all::<Version>());
}

/// The same holds of the queries by publication time.
pub proof fn lemma_newest_constrained_is_filtered(
    s: Seq<Version>,
    yanked: Option<bool>,
    constrained: Option<Version>,
    filtered: Option<Version>,
)
    requires
        is_newest(s, yanked, constrained),
        is_newest(s.filter(kept(yanked, None, None)), None, filtered),
    ensures
        constrained == filtered,
{
    lemma_pick_filter(s, kept(yanked, None, None), by_time());
    assert(kept(None, None, None) =~= keep_all::<Version>());
}

/// A query on a list that has not changed gives the same answer again.
pub proof fn lemma_query_repeatable(
    s: Seq<Version>,
    yanked: Option<bool>,
    major: Option<u64>,
    minor: Option<u64>,
    first: Option<Version>,
    second: Option<Version>,
)
    requires
        is_max(s, yanked, major, minor, first),
        is_max(s, yanked, major, minor, second),
    ensures
        first == second,
{
}

/// The same holds of the queries by publication time.
pub proof fn lemma_newest_query_repeatable(
    s: Seq<Version>,
    yanked: Option<bool>,
    first: Option<Version>,
    second: Option<Version>,
)
    requires
        is_newest(s, yanked, first),
        is_newest(s, yanked, second),
    ensures
        first == second,
{
}

/// Two lists that hold releases of the same views, in the same order, answer
/// every query alike.
pub proof fn lemma_queries_read_views(
    a: Seq<Version>,
    b: Seq<Version>,
    yanked: Option<bool>,
    major: Option<u64>,
    minor: Option<u64>,
)
    requires
        a.len() == b.len(),
        forall|i: int| 0 <= i < a.len() ==> (#[trigger] a[i])@ == b[i]@,
    ensures
        viewed(pick(a, kept(yanked, major, minor), by_version())) == viewed(
            pick(b, kept(yanked, major, minor), by_version()),
        ),
        viewed(pick(a, kept(yanked, major, minor), by_time())) == viewed(
            pick(b, kept(yanked, major, minor), by_time()),
        ),
    decreases a.len(),
{
    if a.len() > 0 {
        let n = a.len() - 1;
        assert(a[n]@ == b[n]@);
        assert forall|i: int| 0 <= i < n implies (#[trigger] a.drop_last()[i])@ == b.drop_last()[i]@ by {
            assert(a[i]@ == b[i]@);
        }
        lemma_queries_read_views(a.drop_last(), b.drop_last(), yanked, major, minor);
    }
}

/// Decoding neither reorders the releases nor loses what a query reads: the
/// list that a response is decoded to answers every query as does any list
/// that was built from the releases which the response denotes.
pub proof fn lemma_decoding_keeps_answers(
    response: CratesioResponse,
    decoded: Seq<Version>,
    built: Seq<Version>,
    yanked: Option<bool>,
    major: Option<u64>,
    minor: Option<u64>,
)
    requires
        response.denotes(decoded),
        response.denotes(built),
    ensures
        viewed(pick(decoded, kept(yanked, major, minor), by_version())) == viewed(
            pick(built, kept(yanked, major, minor), by_version()),
        ),
        viewed(pick(decoded, kept(yanked, major, minor), by_time())) == viewed(
            pick(built, kept(yanked, major, minor), by_time()),
        ),
{
    let items = response.versions->0;
    assert forall|i: int| 0 <= i < decoded.len() implies (#[trigger] decoded[i])@ == built[i]@ by {
        assert(items@[i].release() == Some(decoded[i]@));
        assert(items@[i].release() == Some(built[i]@));
    }
    lemma_queries_read_views(decoded, built, yanked, major, minor);
}

} // verus!
