//! `==` and `<` between releases, version numbers and version texts.
//!
//! Two version numbers are equal where they have the same precedence, so
//! build metadata is not looked at.  A release compares as its version number
//! does.  A text compares as the version that it denotes, and a text that
//! denotes none is neither equal to nor ordered with anything.  Instants
//! are ordered by the time that they denote.

use vstd::prelude::*;
use vstd::std_specs::cmp::{PartialEqSpecImpl, PartialOrdSpecImpl};
use std::cmp::Ordering;
use crate::parse::spec_parse;
use crate::release::Version;
use crate::semantic::{SemVer, SemVerView};
use crate::timestamp::Timestamp;

verus! {

/// How `a` stands to `b` in precedence.
pub open spec fn precedence(a: SemVerView, b: SemVerView) -> Ordering {
    if a.precedes(b) {
        Ordering::Less
    } else if b.precedes(a) {
        Ordering::Greater
    } else {
        Ordering::Equal
    }
}

/// How the version `a` stands to the version that `text` denotes, if any.
pub open spec fn precedence_to_text(a: SemVerView, text: Seq<char>) -> Option<Ordering> {
    match spec_parse(text) {
        Ok(b) => Some(precedence(a, b)),
        Err(_) => None,
    }
}

/// Whether `text` denotes a version of the same precedence as `a`.
pub open spec fn same_as_text(a: SemVerView, text: Seq<char>) -> bool {
    match spec_parse(text) {
        Ok(b) => a.same_precedence(b),
        Err(_) => false,
    }
}

/// How `a` stands to `b` in precedence.
pub fn compare(a: &SemVer, b: &SemVer) -> (r: Ordering)
    ensures
        r == precedence(a@, b@),
{
    if a.precedes(b) {
        Ordering::Less
    } else if b.precedes(a) {
        Ordering::Greater
    } else {
        Ordering::Equal
    }
}

/// How the instant `a` stands to the instant `b`.
pub open spec fn succession(a: Timestamp, b: Timestamp) -> Ordering {
    if a.earlier(b) {
        Ordering::Less
    } else if b.earlier(a) {
        Ordering::Greater
    } else {
        Ordering::Equal
    }
}

impl PartialOrd for Timestamp {
    fn partial_cmp(&self, other: &Timestamp) -> (r: Option<Ordering>) {
        if self.is_earlier(other) {
            Some(Ordering::Less)
        } else if other.is_earlier(self) {
            Some(Ordering::Greater)
        } else {
            Some(Ordering::Equal)
        }
    }
}

impl PartialOrdSpecImpl for Timestamp {
    open spec fn obeys_partial_cmp_spec() -> bool {
        true
    }

    open spec fn partial_cmp_spec(&self, other: &Timestamp) -> Option<Ordering> {
        Some(succession(*self, *other))
    }
}

impl PartialEq for SemVer {
    fn eq(&self, other: &SemVer) -> (r: bool) {
        self.same_precedence(other)
    }
}

impl PartialEqSpecImpl for SemVer {
    open spec fn obeys_eq_spec() -> bool {
        true
    }

    open spec fn eq_spec(&self, other: &SemVer) -> bool {
        self@.same_precedence(other@)
    }
}

impl PartialOrd for SemVer {
    fn partial_cmp(&self, other: &SemVer) -> (r: Option<Ordering>) {
        Some(compare(self, other))
    }
}

impl PartialOrdSpecImpl for SemVer {
    open spec fn obeys_partial_cmp_spec() -> bool {
        true
    }

    open spec fn partial_cmp_spec(&self, other: &SemVer) -> Option<Ordering> {
        Some(precedence(self@, other@))
    }
}

impl PartialEq<SemVer> for Version {
    fn eq(&self, rhs: &SemVer) -> (r: bool) {
        self.version.same_precedence(rhs)
    }
}

impl PartialEqSpecImpl<SemVer> for Version {
    open spec fn obeys_eq_spec() -> bool {
        true
    }

    open spec fn eq_spec(&self, rhs: &SemVer) -> bool {
        self@.version.same_precedence(rhs@)
    }
}

impl PartialOrd<SemVer> for Version {
    fn partial_cmp(&self, rhs: &SemVer) -> (r: Option<Ordering>) {
        Some(compare(&self.version, rhs))
    }
}

impl PartialOrdSpecImpl<SemVer> for Version {
    open spec fn obeys_partial_cmp_spec() -> bool {
        true
    }

    open spec fn partial_cmp_spec(&self, rhs: &SemVer) -> Option<Ordering> {
        Some(precedence(self@.version, rhs@))
    }
}

impl PartialEq<str> for Version {
    fn eq(&self, rhs: &str) -> (r: bool) {
        match SemVer::parse(rhs) {
            Ok(version) => self.version.same_precedence(&version),
            Err(_) => false,
        }
    }
}

impl PartialEqSpecImpl<str> for Version {
    open spec fn obeys_eq_spec() -> bool {
        true
    }

    open spec fn eq_spec(&self, rhs: &str) -> bool {
        same_as_text(self@.version, rhs@)
    }
}

impl PartialOrd<str> for Version {
    fn partial_cmp(&self, rhs: &str) -> (r: Option<Ordering>) {
        match SemVer::parse(rhs) {
            Ok(version) => Some(compare(&self.version, &version)),
            Err(_) => None,
        }
    }
}

impl PartialOrdSpecImpl<str> for Version {
    open spec fn obeys_partial_cmp_spec() -> bool {
        true
    }

    open spec fn partial_cmp_spec(&self, rhs: &str) -> Option<Ordering> {
        precedence_to_text(self@.version, rhs@)
    }
}

impl PartialEq<&str> for Version {
    fn eq(&self, rhs: &&str) -> (r: bool) {
        match SemVer::parse(*rhs) {
            Ok(version) => self.version.same_precedence(&version),
            Err(_) => false,
        }
    }
}

impl PartialEqSpecImpl<&str> for Version {
    open spec fn obeys_eq_spec() -> bool {
        true
    }

    open spec fn eq_spec(&self, rhs: &&str) -> bool {
        same_as_text(self@.version, rhs@)
    }
}

impl PartialOrd<&str> for Version {
    fn partial_cmp(&self, rhs: &&str) -> (r: Option<Ordering>) {
        match SemVer::parse(*rhs) {
            Ok(version) => Some(compare(&self.version, &version)),
            Err(_) => None,
        }
    }
}

impl PartialOrdSpecImpl<&str> for Version {
    open spec fn obeys_partial_cmp_spec() -> bool {
        true
    }

    open spec fn partial_cmp_spec(&self, rhs: &&str) -> Option<Ordering> {
        precedence_to_text(self@.version, rhs@)
    }
}

} // verus!
