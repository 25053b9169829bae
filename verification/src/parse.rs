//! Reading and writing version numbers as text.

use vstd::prelude::*;
use vstd::utf8::encode_utf8;
use crate::semantic::{Identifier, SemVer, SemVerView};

verus! {

/// The error of `semver::Version::parse`.  Nothing is read from it.
#[verifier::external_type_specification]
#[verifier::external_body]
pub struct ExSemVerError(semver::SemVerError);

/// The most hyphens that a text may hold and still be handed to the parser.
pub const MAX_HYPHENS: usize = 255;

/// Why a text was not read as a version.
#[derive(Clone, Copy, Debug, PartialEq, Eq, Structural)]
pub enum ParseFailure {
    /// The text is not of the form `MAJOR.MINOR.PATCH[-PRERELEASE][+BUILD]`.
    Malformed,
    /// The text holds more than [`MAX_HYPHENS`] hyphens.
    TooManyHyphens,
}

/// The version that the semver crate reads from `text`, or `None` where it
/// rejects the text.
pub uninterp spec fn parsed_version(text: Seq<char>) -> Option<SemVerView>;

/// The text that the semver crate writes for a version.
pub uninterp spec fn rendered_version(version: SemVerView) -> Seq<char>;

/// How many of the bytes are hyphens.
pub open spec fn hyphens(bytes: Seq<u8>) -> nat
    decreases bytes.len(),
{
    if bytes.len() == 0 {
        0
    } else {
        hyphens(bytes.drop_last()) + if bytes.last() == 0x2d {
            1nat
        } else {
            0nat
        }
    }
}

/// What [`SemVer::parse`] returns for `text`.
pub open spec fn spec_parse(text: Seq<char>) -> Result<SemVerView, ParseFailure> {
    if hyphens(encode_utf8(text)) > MAX_HYPHENS {
        Err(ParseFailure::TooManyHyphens)
    } else {
        match parsed_version(text) {
            Some(v) => Ok(v),
            None => Err(ParseFailure::Malformed),
        }
    }
}

/// Reads a version through `semver::Version::parse`.
///
/// The contract claims that the outcome depends on the text alone: whether
/// a version is read, and which.  The fields of what was read are handed on
/// as they are.  The parser gives up with a panic on an identifier in which
/// more than 255 parts are joined by hyphens, so texts with more hyphens than
/// that are kept from it.
#[verifier::external_body]
fn version_from_text(text: &str) -> (r: Result<SemVer, semver::SemVerError>)
    requires
        hyphens(encode_utf8(text@)) <= MAX_HYPHENS,
    ensures
        match r {
            Ok(v) => parsed_version(text@) == Some(v@),
            Err(_) => parsed_version(text@) is None,
        },
{
    let plain = |i: semver::Identifier| match i {
        semver::Identifier::Numeric(n) => Identifier::Numeric(n),
        semver::Identifier::AlphaNumeric(s) => Identifier::AlphaNumeric(s),
    };
    let v = semver::Version::parse(text)?;
    Ok(SemVer {
        major: v.major,
        minor: v.minor,
        patch: v.patch,
        pre: v.pre.into_iter().map(plain).collect(),
        build: v.build.into_iter().map(plain).collect(),
    })
}

/// Writes a version through the semver crate's `Display` for `Version`.
///
/// The contract claims only that the text depends on the version alone.
#[verifier::external_body]
fn text_from_version(version: &SemVer) -> (text: String)
    ensures
        text@ == rendered_version(version@),
{
    let outside = |i: &Identifier| match i {
        Identifier::Numeric(n) => semver::Identifier::Numeric(*n),
        Identifier::AlphaNumeric(s) => semver::Identifier::AlphaNumeric(s.clone()),
    };
    let v = semver::Version {
        major: version.major,
        minor: version.minor,
        patch: version.patch,
        pre: version.pre.iter().map(outside).collect(),
        build: version.build.iter().map(outside).collect(),
    };
    v.to_string()
}

/// Counts the hyphens among the bytes.
fn count_hyphens(bytes: &[u8]) -> (n: usize)
    ensures
        n == hyphens(bytes@),
{
    let mut n: usize = 0;
    let mut i: usize = 0;
    while i < bytes.len()
        invariant
            i <= bytes.len(),
            n <= i,
            n == hyphens(bytes@.take(i as int)),
        decreases bytes.len() - i,
    {
        assert(bytes@.take(i + 1).drop_last() =~= bytes@.take(i as int));
        if bytes[i] == 0x2d {
            n += 1;
        }
        i += 1;
    }
    assert(bytes@.take(i as int) =~= bytes@);
    n
}

impl SemVer {
    /// Reads a version of the form `MAJOR.MINOR.PATCH[-PRERELEASE][+BUILD]`.
    ///
    /// Succeeds exactly on the texts that hold at most [`MAX_HYPHENS`] hyphens
    /// and that the semver crate accepts, with the version that it reads.
    pub fn parse(text: &str) -> (r: Result<SemVer, ParseFailure>)
        ensures
            match r {
                Ok(v) => spec_parse(text@) == Ok::<SemVerView, ParseFailure>(v@),
                Err(e) => spec_parse(text@) == Err::<SemVerView, ParseFailure>(e),
            },
    {
        if count_hyphens(text.as_bytes()) > MAX_HYPHENS {
            return Err(ParseFailure::TooManyHyphens);
        }
        match version_from_text(text) {
            Ok(v) => Ok(v),
            Err(_) => Err(ParseFailure::Malformed),
        }
    }

    /// The version as text: `MAJOR.MINOR.PATCH`, then `-` and the pre-release
    /// suffix and `+` and the build metadata, each where there is one.
    pub fn to_string(&self) -> (text: String)
        ensures
            text@ == rendered_version(self@),
    {
        text_from_version(self)
    }
}

} // verus!
