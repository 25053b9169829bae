//! The version list of one package, and the queries on it.

use vstd::prelude::*;
use crate::release::Version;
use crate::select::{lemma_pick_selects, pick, selects, strict_weak_order};
use crate::semantic::{
    lemma_precedes_irreflexive, lemma_precedes_total, lemma_precedes_transitive,
    lemma_same_precedence_congruent,
};

verus! {

/// A collection of `Version`s.
#[derive(Debug)]
pub struct Versions {
    versions: Vec<Version>,
}

impl View for Versions {
    type V = Seq<Version>;

    /// The releases of the list, in the order in which the registry gave them.
    closed spec fn view(&self) -> Seq<Version> {
        self.versions@
    }
}

/// The order of releases by the precedence of their version numbers.
pub open spec fn by_version() -> spec_fn(Version, Version) -> bool {
    |a: Version, b: Version| a@.version.precedes(b@.version)
}

/// The order of releases by the time at which they were published.
pub open spec fn by_time() -> spec_fn(Version, Version) -> bool {
    |a: Version, b: Version| a.created_at.earlier(b.created_at)
}

/// The release passes the filter: it is yanked or not as `yanked` asks, and
/// its major and minor numbers are those asked for.  `None` asks nothing.
pub open spec fn matches(
    v: Version,
    yanked: Option<bool>,
    major: Option<u64>,
    minor: Option<u64>,
) -> bool {
    &&& yanked matches Some(y) ==> v.yanked == y
    &&& major matches Some(m) ==> v.version.major == m
    &&& minor matches Some(n) ==> v.version.minor == n
}

/// The filter of a query, see [`matches`].
pub open spec fn kept(yanked: Option<bool>, major: Option<u64>, minor: Option<u64>) -> spec_fn(
    Version,
) -> bool {
    |v: Version| matches(v, yanked, major, minor)
}

/// The release that a query hands out by reference, as a value.
pub open spec fn owned(r: Option<&Version>) -> Option<Version> {
    match r {
        Some(v) => Some(*v),
        None => None,
    }
}

/// `r` answers the query for the greatest version number among the releases
/// of `s` that pass the filter.
pub open spec fn is_max(
    s: Seq<Version>,
    yanked: Option<bool>,
    major: Option<u64>,
    minor: Option<u64>,
    r: Option<Version>,
) -> bool {
    &&& selects(s, kept(yanked, major, minor), by_version(), r)
    &&& r == pick(s, kept(yanked, major, minor), by_version())
}

/// `r` answers the query for the latest published among the releases of `s`
/// that are yanked or not as `yanked` asks.
pub open spec fn is_newest(s: Seq<Version>, yanked: Option<bool>, r: Option<Version>) -> bool {
    &&& selects(s, kept(yanked, None, None), by_time(), r)
    &&& r == pick(s, kept(yanked, None, None), by_time())
}

/// Version numbers rank the releases.
pub proof fn lemma_by_version_ranks()
    ensures
        strict_weak_order(by_version()),
{
    let before = by_version();
    assert forall|x: Version| !#[trigger] before(x, x) by {
        lemma_precedes_irreflexive(x@.version);
    }
    assert forall|x: Version, y: Version, z: Version| #[trigger]
        before(x, y) && #[trigger] before(y, z) implies before(x, z) by {
        lemma_precedes_transitive(x@.version, y@.version, z@.version);
    }
    assert forall|x: Version, y: Version, z: Version| #[trigger] before(x, z) implies #[trigger] before(
        x,
        y,
    ) || before(y, z) by {
        lemma_precedes_total(x@.version, y@.version);
        if y@.version.precedes(x@.version) {
            lemma_precedes_transitive(y@.version, x@.version, z@.version);
        } else if x@.version.same_precedence(y@.version) {
            lemma_same_precedence_congruent(x@.version, y@.version, z@.version);
        }
    }
}

/// Publication times rank the releases.
pub proof fn lemma_by_time_ranks()
    ensures
        strict_weak_order(by_time()),
{
}

impl Versions {
    /// The list that holds `versions`, in their order.
    pub fn from_releases(versions: Vec<Version>) -> (r: Versions)
        ensures
            r@ == versions@,
    {
        Versions { versions }
    }

    /// Whether the release passes the filter.
    fn passes(v: &Version, yanked: Option<bool>, major: Option<u64>, minor: Option<u64>) -> (r:
        bool)
        ensures
            r == matches(*v, yanked, major, minor),
    {
        let yanked_ok = match yanked {
            Some(y) => v.yanked == y,
            None => true,
        };
        let major_ok = match major {
            Some(m) => v.version.major == m,
            None => true,
        };
        let minor_ok = match minor {
            Some(n) => v.version.minor == n,
            None => true,
        };
        yanked_ok && major_ok && minor_ok
    }

    /// Where the first of the greatest releases that pass the filter stands:
    /// greatest by publication time where `newest` is set, by version number
    /// where it is not.
    fn first_max(
        &self,
        yanked: Option<bool>,
        major: Option<u64>,
        minor: Option<u64>,
        newest: bool,
    ) -> (r: Option<usize>)
        ensures
            r matches Some(i) ==> i < self@.len(),
            selects(
                self@,
                kept(yanked, major, minor),
                if newest {
                    by_time()
                } else {
                    by_version()
                },
                match r {
                    Some(i) => Some(self@[i as int]),
                    None => None,
                },
            ),
            pick(
                self@,
                kept(yanked, major, minor),
                if newest {
                    by_time()
                } else {
                    by_version()
                },
            ) == match r {
                Some(i) => Some(self@[i as int]),
                None => None,
            },
    {
        let ghost s = self@;
        let ghost keep = kept(yanked, major, minor);
        let ghost before = if newest {
            by_time()
        } else {
            by_version()
        };
        let mut best: Option<usize> = None;
        let mut i: usize = 0;
        while i < self.versions.len()
            invariant
                i <= self.versions.len(),
                s == self.versions@,
                keep == kept(yanked, major, minor),
                before == if newest {
                    by_time()
                } else {
                    by_version()
                },
                best matches Some(b) ==> b < i,
                pick(s.take(i as int), keep, before) == match best {
                    Some(b) => Some(s[b as int]),
                    None => None,
                },
            decreases self.versions.len() - i,
        {
            assert(s.take(i + 1).drop_last() =~= s.take(i as int));
            let v = &self.versions[i];
            if Self::passes(v, yanked, major, minor) {
                match best {
                    None => {
                        best = Some(i);
                    },
                    Some(b) => {
                        let m = &self.versions[b];
                        let greater = if newest {
                            m.created_at.is_earlier(&v.created_at)
                        } else {
                            m.version.precedes(&v.version)
                        };
                        if greater {
                            best = Some(i);
                        }
                    },
                }
            }
            i += 1;
        }
        proof {
            assert(s.take(i as int) =~= s);
            lemma_by_version_ranks();
            lemma_by_time_ranks();
            lemma_pick_selects(s, keep, before);
        }
        best
    }

    /// The release that stands at `at`, if any.
    fn release(&self, at: Option<usize>) -> (r: Option<&Version>)
        requires
            at matches Some(i) ==> i < self@.len(),
        ensures
            owned(r) == match at {
                Some(i) => Some(self@[i as int]),
                None => None,
            },
    {
        match at {
            Some(i) => Some(&self.versions[i]),
            None => None,
        }
    }

    /// Gives up the list for the release that stands at `at`, if any.
    fn into_release(self, at: Option<usize>) -> (r: Option<Version>)
        requires
            at matches Some(i) ==> i < self@.len(),
        ensures
            r == match at {
                Some(i) => Some(self@[i as int]),
                None => None,
            },
    {
        let mut versions = self.versions;
        match at {
            Some(i) => Some(versions.swap_remove(i)),
            None => None,
        }
    }

    /// Gets *any* max version.
    ///
    /// Returns nothing exactly where the list is empty, and else the first
    /// release whose version number none in the list exceeds.
    pub fn max_version(&self) -> (r: Option<&Version>)
        ensures
            is_max(self@, None, None, None, owned(r)),
    {
        self.release(self.first_max(None, None, None, false))
    }

    /// Gets the max version that hasn't been yanked.
    pub fn max_unyanked_version(&self) -> (r: Option<&Version>)
        ensures
            is_max(self@, Some(false), None, None, owned(r)),
    {
        self.release(self.first_max(Some(false), None, None, false))
    }

    /// Gets max version that has been yanked.
    pub fn max_yanked_version(&self) -> (r: Option<&Version>)
        ensures
            is_max(self@, Some(true), None, None, owned(r)),
    {
        self.release(self.first_max(Some(true), None, None, false))
    }

    /// Gets *any* max version with the same major version.
    ///
    /// For example, if `major` = 1, then `1.0.0 <= max_minor_version < 2.0.0`.
    pub fn max_minor_version(&self, major: u64) -> (r: Option<&Version>)
        ensures
            is_max(self@, None, Some(major), None, owned(r)),
    {
        self.release(self.first_max(None, Some(major), None, false))
    }

    /// Gets the max version that hasn't been yanked with the same major
    /// version.
    ///
    /// For example, if `major` = 1, then `1.0.0 <= max_minor_version < 2.0.0`.
    pub fn max_unyanked_minor_version(&self, major: u64) -> (r: Option<&Version>)
        ensures
            is_max(self@, Some(false), Some(major), None, owned(r)),
    {
        self.release(self.first_max(Some(false), Some(major), None, false))
    }

    /// Gets max version that has been yanked with the same major version.
    ///
    /// For example, if `major` = 1, then `1.0.0 <= max_minor_version < 2.0.0`.
    pub fn max_yanked_minor_version(&self, major: u64) -> (r: Option<&Version>)
        ensures
            is_max(self@, Some(true), Some(major), None, owned(r)),
    {
        self.release(self.first_max(Some(true), Some(major), None, false))
    }

    /// Gets *any* max version with the same major and minor version.
    ///
    /// For example, if `major` = 1 and `minor` = 2,
    /// then `1.2.0 <= max_patch < 1.3.0`.
    pub fn max_patch(&self, major: u64, minor: u64) -> (r: Option<&Version>)
        ensures
            is_max(self@, None, Some(major), Some(minor), owned(r)),
    {
        self.release(self.first_max(None, Some(major), Some(minor), false))
    }

    /// Gets the max version that hasn't been yanked with the same major
    /// and minor version.
    ///
    /// For example, if `major` = 1 and `minor` = 2,
    /// then `1.2.0 <= max_patch < 1.3.0`.
    pub fn max_unyanked_patch(&self, major: u64, minor: u64) -> (r: Option<&Version>)
        ensures
            is_max(self@, Some(false), Some(major), Some(minor), owned(r)),
    {
        self.release(self.first_max(Some(false), Some(major), Some(minor), false))
    }

    /// Gets max version that has been yanked with the same major and minor
    /// version.
    ///
    /// For example, if `major` = 1 and `minor` = 2,
    /// then `1.2.0 <= max_patch < 1.3.0`.
    pub fn max_yanked_patch(&self, major: u64, minor: u64) -> (r: Option<&Version>)
        ensures
            is_max(self@, Some(true), Some(major), Some(minor), owned(r)),
    {
        self.release(self.first_max(Some(true), Some(major), Some(minor), false))
    }

    /// Gets *any* newest version.
    ///
    /// Returns nothing exactly where the list is empty, and else the first
    /// release than which none in the list was published later.
    pub fn newest_version(&self) -> (r: Option<&Version>)
        ensures
            is_newest(self@, None, owned(r)),
    {
        self.release(self.first_max(None, None, None, true))
    }

    /// Gets the newest version that hasn't been yanked.
    pub fn newest_unyanked_version(&self) -> (r: Option<&Version>)
        ensures
            is_newest(self@, Some(false), owned(r)),
    {
        self.release(self.first_max(Some(false), None, None, true))
    }

    /// Gets newest version that has been yanked.
    pub fn newest_yanked_version(&self) -> (r: Option<&Version>)
        ensures
            is_newest(self@, Some(true), owned(r)),
    {
        self.release(self.first_max(Some(true), None, None, true))
    }

    /// As [`Versions::max_version`], but gives up the list and hands out the
    /// release itself.
    pub fn max_version_owned(self) -> (r: Option<Version>)
        ensures
            is_max(self@, None, None, None, r),
    {
        let at = self.first_max(None, None, None, false);
        self.into_release(at)
    }

    /// As [`Versions::max_unyanked_version`], but gives up the list and hands out the
    /// release itself.
    pub fn max_unyanked_version_owned(self) -> (r: Option<Version>)
        ensures
            is_max(self@, Some(false), None, None, r),
    {
        let at = self.first_max(Some(false), None, None, false);
        self.into_release(at)
    }

    /// As [`Versions::max_yanked_version`], but gives up the list and hands out the
    /// release itself.
    pub fn max_yanked_version_owned(self) -> (r: Option<Version>)
        ensures
            is_max(self@, Some(true), None, None, r),
    {
        let at = self.first_max(Some(true), None, None, false);
        self.into_release(at)
    }

    /// As [`Versions::max_minor_version`], but gives up the list and hands out the
    /// release itself.
    pub fn max_minor_version_owned(self, major: u64) -> (r: Option<Version>)
        ensures
            is_max(self@, None, Some(major), None, r),
    {
        let at = self.first_max(None, Some(major), None, false);
        self.into_release(at)
    }

    /// As [`Versions::max_unyanked_minor_version`], but gives up the list and hands out the
    /// release itself.
    pub fn max_unyanked_minor_version_owned(self, major: u64) -> (r: Option<Version>)
        ensures
            is_max(self@, Some(false), Some(major), None, r),
    {
        let at = self.first_max(Some(false), Some(major), None, false);
        self.into_release(at)
    }

    /// As [`Versions::max_yanked_minor_version`], but gives up the list and hands out the
    /// release itself.
    pub fn max_yanked_minor_version_owned(self, major: u64) -> (r: Option<Version>)
        ensures
            is_max(self@, Some(true), Some(major), None, r),
    {
        let at = self.first_max(Some(true), Some(major), None, false);
        self.into_release(at)
    }

    /// As [`Versions::max_patch`], but gives up the list and hands out the
    /// release itself.
    pub fn max_patch_owned(self, major: u64, minor: u64) -> (r: Option<Version>)
        ensures
            is_max(self@, None, Some(major), Some(minor), r),
    {
        let at = self.first_max(None, Some(major), Some(minor), false);
        self.into_release(at)
    }

    /// As [`Versions::max_unyanked_patch`], but gives up the list and hands out the
    /// release itself.
    pub fn max_unyanked_patch_owned(self, major: u64, minor: u64) -> (r: Option<Version>)
        ensures
            is_max(self@, Some(false), Some(major), Some(minor), r),
    {
        let at = self.first_max(Some(false), Some(major), Some(minor), false);
        self.into_release(at)
    }

    /// As [`Versions::max_yanked_patch`], but gives up the list and hands out the
    /// release itself.
    pub fn max_yanked_patch_owned(self, major: u64, minor: u64) -> (r: Option<Version>)
        ensures
            is_max(self@, Some(true), Some(major), Some(minor), r),
    {
        let at = self.first_max(Some(true), Some(major), Some(minor), false);
        self.into_release(at)
    }

    /// As [`Versions::newest_version`], but gives up the list and hands out the
    /// release itself.
    pub fn newest_version_owned(self) -> (r: Option<Version>)
        ensures
            is_newest(self@, None, r),
    {
        let at = self.first_max(None, None, None, true);
        self.into_release(at)
    }

    /// As [`Versions::newest_unyanked_version`], but gives up the list and hands out the
    /// release itself.
    pub fn newest_unyanked_version_owned(self) -> (r: Option<Version>)
        ensures
            is_newest(self@, Some(false), r),
    {
        let at = self.first_max(Some(false), None, None, true);
        self.into_release(at)
    }

    /// As [`Versions::newest_yanked_version`], but gives up the list and hands out the
    /// release itself.
    pub fn newest_yanked_version_owned(self) -> (r: Option<Version>)
        ensures
            is_newest(self@, Some(true), r),
    {
        let at = self.first_max(Some(true), None, None, true);
        self.into_release(at)
    }

    /// Gets the full list of versions that were found.
    pub fn versions(&self) -> (r: &Vec<Version>)
        ensures
            r@ == self@,
    {
        &self.versions
    }

    /// Gets a mutable list of versions that were found.
    pub fn versions_mut(&mut self) -> (r: &mut Vec<Version>)
        ensures
            r@ == old(self)@,
            final(self)@ == final(r)@,
    {
        &mut self.versions
    }

    /// Takes ownership of `self` and returns owned versions list.
    pub fn versions_owned(self) -> (r: Vec<Version>)
        ensures
            r@ == self@,
    {
        self.versions
    }
}

} // verus!
