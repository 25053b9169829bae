//! "Is there a newer release than mine?"
//!
//! Each check reads the caller's current version, asks the version list for
//! a candidate among the releases that were not yanked, and reports the
//! candidate only where it is strictly newer than the current version.

use vstd::prelude::*;
use crate::error::{is_error, Error, Stage};
use crate::parse::spec_parse;
use crate::release::Version;
use crate::select::pick;
use crate::semantic::{SemVer, SemVerView};
use crate::versions::{by_time, by_version, kept, owned, Versions};

verus! {

/// The text of the error that a current version which cannot be read gives.
pub open spec fn input_message() -> Seq<char> {
    "Couldn't parse current version"@
}

/// The candidate's version number where it is strictly newer than `current`,
/// and nothing where it is not, or where there is no candidate.
pub open spec fn newer_than(candidate: Option<Version>, current: SemVerView) -> Option<
    SemVerView,
> {
    match candidate {
        Some(c) => if current.precedes(c@.version) {
            Some(c@.version)
        } else {
            None
        },
        None => None,
    }
}

/// `r` is what a check returns for the current version `text`, where
/// `candidate` gives the release to hold against the version that was read.
pub open spec fn reports(
    text: Seq<char>,
    candidate: spec_fn(SemVerView) -> Option<Version>,
    r: Result<Option<SemVer>, Error>,
) -> bool {
    match r {
        Ok(found) => {
            &&& spec_parse(text) matches Ok(current)
            &&& match found {
                Some(v) => newer_than(candidate(current), current) == Some(v@),
                None => newer_than(candidate(current), current) is None,
            }
        },
        Err(e) => spec_parse(text) is Err && is_error(e, Stage::Input, input_message()),
    }
}

/// Reads the caller's current version.
fn current(text: &str) -> (r: Result<SemVer, Error>)
    ensures
        match r {
            Ok(v) => spec_parse(text@) == Ok::<SemVerView, crate::parse::ParseFailure>(v@),
            Err(e) => spec_parse(text@) is Err && is_error(e, Stage::Input, input_message()),
        },
{
    match SemVer::parse(text) {
        Ok(v) => Ok(v),
        Err(_) => Err(Error::new(Stage::Input, "Couldn't parse current version")),
    }
}

/// The candidate's version number where it is strictly newer than `current`.
fn newer(candidate: Option<&Version>, current: &SemVer) -> (r: Option<SemVer>)
    ensures
        match r {
            Some(v) => newer_than(owned(candidate), current@) == Some(v@),
            None => newer_than(owned(candidate), current@) is None,
        },
{
    match candidate {
        Some(c) => if current.precedes(&c.version) {
            Some(c.version.clone())
        } else {
            None
        },
        None => None,
    }
}

/// The version numbers of the releases of `s` that were not yanked, in the
/// order of the list.
pub open spec fn unyanked_numbers(s: Seq<Version>) -> Seq<SemVerView> {
    s.filter(kept(Some(false), None, None)).map_values(|v: Version| v@.version)
}

/// The version numbers that a list of versions stands for.
pub open spec fn numbers_view(versions: Seq<SemVer>) -> Seq<SemVerView> {
    versions.map_values(|v: SemVer| v@)
}

/// The version numbers of the releases that were not yanked, in the order in
/// which the registry gave them.
pub fn get_version_list(versions: &Versions) -> (r: Vec<SemVer>)
    ensures
        numbers_view(r@) == unyanked_numbers(versions@),
{
    let list = versions.versions();
    let ghost s = versions@;
    let mut numbers: Vec<SemVer> = Vec::new();
    let mut i: usize = 0;
    while i < list.len()
        invariant
            i <= list.len(),
            list@ == s,
            numbers_view(numbers@) =~= unyanked_numbers(s.take(i as int)),
        decreases list.len() - i,
    {
        let ghost keep = kept(Some(false), None, None);
        let ghost before = s.take(i as int).filter(keep);
        let ghost after = s.take(i + 1).filter(keep);
        proof {
            reveal(Seq::filter);
            assert(s.take(i + 1).drop_last() =~= s.take(i as int));
            assert(s.take(i + 1).last() == s[i as int]);
            assert(after == if keep(s[i as int]) {
                before.push(s[i as int])
            } else {
                before
            });
        }
        if !list[i].yanked {
            let ghost old_numbers = numbers@;
            numbers.push(list[i].version.clone());
            assert(numbers_view(numbers@) =~= numbers_view(old_numbers).push(s[i as int]@.version));
            assert(unyanked_numbers(s.take(i + 1)) =~= unyanked_numbers(s.take(i as int)).push(
                s[i as int]@.version,
            ));
        }
        i += 1;
    }
    assert(s.take(i as int) =~= s);
    numbers
}

/// Compares the current crate version to the maximum version available.
///
/// # Returns
/// - `Ok(Some(version))` if the current version < max version, where the
///   max version is that of [`Versions::max_unyanked_version`]
/// - `Ok(None)` if current version >= max version, or nothing is left
///   unyanked
/// - `Err(_)`, an input error, if the current version cannot be read
pub fn get_max_version(versions: &Versions, current_crate_version: &str) -> (r: Result<
    Option<SemVer>,
    Error,
>)
    ensures
        reports(
            current_crate_version@,
            |current: SemVerView| pick(versions@, kept(Some(false), None, None), by_version()),
            r,
        ),
{
    let current = current(current_crate_version)?;
    Ok(newer(versions.max_unyanked_version(), &current))
}

/// Gets the largest minor version available with the same major version.
///
/// # Returns
///
/// If `version` is `x.y.z` and the max unyanked version `x.b.c`, see
/// [`Versions::max_unyanked_minor_version`]:
///
/// - `Ok(Some(version))` if `x.y.z` < `x.b.c`
/// - `Ok(None)` if there is no such version or `x.y.z` >= `x.b.c`
/// - `Err(_)`, an input error, if `version` cannot be read
pub fn get_max_minor_version(versions: &Versions, version: &str) -> (r: Result<
    Option<SemVer>,
    Error,
>)
    ensures
        reports(
            version@,
            |current: SemVerView|
                pick(versions@, kept(Some(false), Some(current.major), None), by_version()),
            r,
        ),
{
    let current = current(version)?;
    Ok(newer(versions.max_unyanked_minor_version(current.major), &current))
}

/// Gets the largest patch available with the same major and minor version.
///
/// # Returns
///
/// If `version` is `x.y.z` and the max unyanked version `x.y.c`, see
/// [`Versions::max_unyanked_patch`]:
///
/// - `Ok(Some(version))` if `x.y.z` < `x.y.c`
/// - `Ok(None)` if there is no such version or `x.y.z` >= `x.y.c`
/// - `Err(_)`, an input error, if `version` cannot be read
pub fn get_max_patch(versions: &Versions, version: &str) -> (r: Result<Option<SemVer>, Error>)
    ensures
        reports(
            version@,
            |current: SemVerView|
                pick(
                    versions@,
                    kept(Some(false), Some(current.major), Some(current.minor)),
                    by_version(),
                ),
            r,
        ),
{
    let current = current(version)?;
    Ok(newer(versions.max_unyanked_patch(current.major, current.minor), &current))
}

/// Compares the current crate version to the newest version available.
///
/// Please note that the newest version is *not* always the maximum version.
/// A patch may have been released for an old major version that is still being
/// maintained, for example.
///
/// # Returns
/// - `Ok(Some(version))` if the current version < newest version, where the
///   newest version is that of [`Versions::newest_unyanked_version`]
/// - `Ok(None)` if current version >= newest version, or nothing is left
///   unyanked
/// - `Err(_)`, an input error, if the current version cannot be read
pub fn get_newest_version(versions: &Versions, current_crate_version: &str) -> (r: Result<
    Option<SemVer>,
    Error,
>)
    ensures
        reports(
            current_crate_version@,
            |current: SemVerView| pick(versions@, kept(Some(false), None, None), by_time()),
            r,
        ),
{
    let current = current(current_crate_version)?;
    Ok(newer(versions.newest_unyanked_version(), &current))
}

/// The greatest and the latest of the releases that were not yanked.
#[derive(Debug)]
pub struct MaxAndNew {
    /// The version number of [`Versions::max_unyanked_version`].
    pub max_version: SemVer,
    /// The version number of [`Versions::newest_unyanked_version`].
    pub newest_version: SemVer,
}

impl MaxAndNew {
    /// The summary of a version list: nothing where every release was yanked
    /// or there is none, else the version numbers of the greatest and of the
    /// latest unyanked release.
    pub fn of(versions: &Versions) -> (r: Option<MaxAndNew>)
        ensures
            match r {
                Some(summary) => {
                    &&& pick(versions@, kept(Some(false), None, None), by_version()) matches Some(
                        max,
                    )
                    &&& pick(versions@, kept(Some(false), None, None), by_time()) matches Some(
                        newest,
                    )
                    &&& summary.max_version@ == max@.version
                    &&& summary.newest_version@ == newest@.version
                },
                None => forall|i: int| 0 <= i < versions@.len() ==> (#[trigger] versions@[i]).yanked,
            },
    {
        match (versions.max_unyanked_version(), versions.newest_unyanked_version()) {
            (Some(max), Some(newest)) => Some(
                MaxAndNew {
                    max_version: max.version.clone(),
                    newest_version: newest.version.clone(),
                },
            ),
            _ => None,
        }
    }
}

} // verus!
