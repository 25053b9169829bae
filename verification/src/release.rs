//! One published release of a package.

use vstd::prelude::*;
use vstd::std_specs::convert::FromSpecImpl;
use vstd::string::StringExecFns;
use crate::parse::rendered_version;
use crate::semantic::{SemVer, SemVerView};
use crate::timestamp::Timestamp;

verus! {

/// A release to [Crates.io].
///
/// [Crates.io]: https://crates.io/
#[derive(Debug)]
pub struct Version {
    /// The version number of the release
    pub version: SemVer,
    /// If this version was yanked
    pub yanked: bool,
    /// When this version was published
    pub created_at: Timestamp,
}

/// What a [`Version`] stands for.
pub struct VersionView {
    pub version: SemVerView,
    pub yanked: bool,
    pub created_at: Timestamp,
}

impl View for Version {
    type V = VersionView;

    open spec fn view(&self) -> VersionView {
        VersionView {
            version: self.version@,
            yanked: self.yanked,
            created_at: self.created_at,
        }
    }
}

/// The marker that follows the version number of a yanked release.
pub open spec fn yanked_marker() -> Seq<char> {
    " (yanked)"@
}

impl Version {
    /// What [`Version::to_string`] returns.
    pub open spec fn rendered(&self) -> Seq<char> {
        if self.yanked {
            rendered_version(self@.version) + yanked_marker()
        } else {
            rendered_version(self@.version)
        }
    }

    /// The release of `version` that was published at `created_at`.
    pub fn new(version: SemVer, yanked: bool, created_at: Timestamp) -> (r: Version)
        ensures
            r == (Version { version, yanked, created_at }),
    {
        Version { version, yanked, created_at }
    }

    /// The version number of the release.
    pub fn version(&self) -> (r: &SemVer)
        ensures
            *r == self.version,
    {
        &self.version
    }

    /// Gets the SemVer MAJOR version
    pub fn major(&self) -> (r: u64)
        ensures
            r == self@.version.major,
    {
        self.version.major
    }

    /// Gets the SemVer MINOR version
    pub fn minor(&self) -> (r: u64)
        ensures
            r == self@.version.minor,
    {
        self.version.minor
    }

    /// Gets the SemVer PATCH version
    pub fn patch(&self) -> (r: u64)
        ensures
            r == self@.version.patch,
    {
        self.version.patch
    }

    /// The release as text: its version number, followed by a marker where
    /// the release was yanked.
    pub fn to_string(&self) -> (text: String)
        ensures
            text@ == self.rendered(),
    {
        let mut text = self.version.to_string();
        if self.yanked {
            text.append(" (yanked)");
        }
        text
    }

}

impl From<Version> for SemVer {
    /// Gives up the release for its version number.
    fn from(v: Version) -> (r: SemVer) {
        v.version
    }
}

impl FromSpecImpl<Version> for SemVer {
    open spec fn obeys_from_spec() -> bool {
        true
    }

    open spec fn from_spec(v: Version) -> SemVer {
        v.version
    }
}

impl Clone for Version {
    fn clone(&self) -> (r: Version)
        ensures
            r@ == self@,
            r.version.pre@ == self.version.pre@,
            r.version.build@ == self.version.build@,
    {
        Version {
            version: self.version.clone(),
            yanked: self.yanked,
            created_at: self.created_at,
        }
    }
}

} // verus!
