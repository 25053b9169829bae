//! From the registry's response to the version list.
//!
//! The response is taken as it was read from the wire: every field may be
//! missing, and version numbers and times are still text.  Decoding checks
//! each entry and reads its texts.  One entry that cannot be read fails the
//! whole response, so that a list never comes out shorter than it was sent.
//!
//! A request that brought no response at all is an outcome too, see
//! [`Fetched`]: it becomes a transport error, told apart from a response
//! that cannot be decoded.

use vstd::prelude::*;
use crate::error::{is_error, Error, Stage};
use crate::parse::spec_parse;
use crate::release::{Version, VersionView};
use crate::semantic::SemVer;
use crate::timestamp::{parsed_instant, Timestamp};
use crate::versions::Versions;

verus! {

/// One entry of the `versions` array of a response.
#[derive(Debug)]
pub struct VersionListItem {
    /// The field `num`: the version number, as text.
    pub num: Option<String>,
    /// The field `yanked`.
    pub yanked: Option<bool>,
    /// The field `created_at`: the time of publication, as RFC 3339 text.
    pub created_at: Option<String>,
}

/// What the registry answers to a request for a package's metadata.
#[derive(Debug)]
pub struct CratesioResponse {
    /// The field `versions`.
    pub versions: Option<Vec<VersionListItem>>,
}

/// How an attempt to fetch a package's metadata ended.
#[derive(Debug)]
pub enum Fetched {
    /// The request could not be built.
    NoClient,
    /// The request did not complete: the registry was not reached, or it
    /// answered with a failure.
    NoAnswer,
    /// An answer came, and its body is not a JSON document of the kind that
    /// was asked for.
    Unreadable,
    /// An answer came, with this document.
    Document(CratesioResponse),
}

/// The text of the error that a response which cannot be decoded gives.
pub open spec fn decode_message() -> Seq<char> {
    "Couldn't read as JSON"@
}

/// The text of the error that a request which could not be built gives.
pub open spec fn client_message() -> Seq<char> {
    "Couldn't build client"@
}

/// The text of the error that a request which did not complete gives.
pub open spec fn request_message() -> Seq<char> {
    "Couldn't request crate info"@
}


impl VersionListItem {
    /// The release that the entry denotes, if it denotes one: its version
    /// number and its time of publication must be there and readable, and a
    /// release is yanked only where the entry says so.
    pub open spec fn release(&self) -> Option<VersionView> {
        match (self.num, self.created_at) {
            (Some(num), Some(at)) => match (spec_parse(num@), parsed_instant(at@)) {
                (Ok(version), Some(created_at)) => Some(
                    VersionView {
                        version,
                        yanked: match self.yanked {
                            Some(y) => y,
                            None => false,
                        },
                        created_at,
                    },
                ),
                _ => None,
            },
            _ => None,
        }
    }

    /// Reads the entry.
    pub fn decode(&self) -> (r: Option<Version>)
        ensures
            match r {
                Some(v) => self.release() == Some(v@),
                None => self.release() is None,
            },
    {
        let num = match &self.num {
            Some(num) => num,
            None => {
                return None;
            },
        };
        let at = match &self.created_at {
            Some(at) => at,
            None => {
                return None;
            },
        };
        let version = match SemVer::parse(num.as_str()) {
            Ok(version) => version,
            Err(_) => {
                return None;
            },
        };
        let created_at = match Timestamp::parse(at.as_str()) {
            Some(created_at) => created_at,
            None => {
                return None;
            },
        };
        let yanked = match self.yanked {
            Some(y) => y,
            None => false,
        };
        Some(Version::new(version, yanked, created_at))
    }
}

impl CratesioResponse {
    /// The response holds a version list of which every entry denotes a
    /// release.
    pub open spec fn decodable(&self) -> bool {
        match self.versions {
            Some(items) => forall|i: int|
                0 <= i < items@.len() ==> (#[trigger] items@[i]).release() is Some,
            None => false,
        }
    }

    /// `releases` is what the response denotes: one release for each entry,
    /// in the order of the entries.
    pub open spec fn denotes(&self, releases: Seq<Version>) -> bool {
        match self.versions {
            Some(items) => {
                &&& releases.len() == items@.len()
                &&& forall|i: int|
                    0 <= i < items@.len() ==> (#[trigger] items@[i]).release() == Some(
                        releases[i]@,
                    )
            },
            None => false,
        }
    }
}

impl Versions {
    /// Turns a response into the version list that it denotes.
    ///
    /// Succeeds exactly where the response holds the field `versions` and
    /// every entry of it can be read; the list then holds the entries'
    /// releases in their order.  Any other response is a decode error.
    pub fn new(response: &CratesioResponse) -> (r: Result<Versions, Error>)
        ensures
            match r {
                Ok(versions) => response.denotes(versions@),
                Err(e) => !response.decodable() && is_error(e, Stage::Decode, decode_message()),
            },
    {
        let items = match &response.versions {
            Some(items) => items,
            None => {
                return Err(Error::new(Stage::Decode, "Couldn't read as JSON"));
            },
        };
        let mut releases: Vec<Version> = Vec::new();
        let mut i: usize = 0;
        while i < items.len()
            invariant
                response.versions == Some(*items),
                i <= items.len(),
                releases@.len() == i,
                forall|j: int|
                    0 <= j < i ==> (#[trigger] items@[j]).release() == Some(releases@[j]@),
            decreases items.len() - i,
        {
            match items[i].decode() {
                Some(release) => {
                    releases.push(release);
                },
                None => {
                    assert(items@[i as int].release() is None);
                    return Err(Error::new(Stage::Decode, "Couldn't read as JSON"));
                },
            }
            i += 1;
        }
        Ok(Versions::from_releases(releases))
    }

    /// Turns the outcome of a fetch into the version list.
    ///
    /// A request that was not built or did not complete is a transport error,
    /// and a body that is no JSON document of the expected kind is a decode
    /// error.  A document is decoded as [`Versions::new`] decodes it.
    pub fn from_fetch(outcome: &Fetched) -> (r: Result<Versions, Error>)
        ensures
            match *outcome {
                Fetched::NoClient => r matches Err(e) && is_error(
                    e,
                    Stage::Transport,
                    client_message(),
                ),
                Fetched::NoAnswer => r matches Err(e) && is_error(
                    e,
                    Stage::Transport,
                    request_message(),
                ),
                Fetched::Unreadable => r matches Err(e) && is_error(
                    e,
                    Stage::Decode,
                    decode_message(),
                ),
                Fetched::Document(response) => match r {
                    Ok(versions) => response.denotes(versions@),
                    Err(e) => !response.decodable() && is_error(
                        e,
                        Stage::Decode,
                        decode_message(),
                    ),
                },
            },
    {
        match outcome {
            Fetched::NoClient => Err(Error::new(Stage::Transport, "Couldn't build client")),
            Fetched::NoAnswer => Err(Error::new(Stage::Transport, "Couldn't request crate info")),
            Fetched::Unreadable => Err(Error::new(Stage::Decode, "Couldn't read as JSON")),
            Fetched::Document(response) => Versions::new(response),
        }
    }
}

} // verus!
