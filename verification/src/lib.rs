//! Answers "is there a newer release?" from the version list that a package
//! registry publishes for one package.
//!
//! The crate holds the in-memory model of that list ([`Versions`], a sequence
//! of [`Version`] releases), the queries that select a maximum under a filter,
//! the step that turns a fetched registry response into the model, and the
//! checks that hold the outcome of a query against the caller's own version.
//! Every function is verified against the contract written on it; fetching
//! the response over the network is left to the caller.

pub mod compare;
pub mod decode;
pub mod error;
pub mod laws;
pub mod lexical;
pub mod newer;
pub mod parse;
pub mod release;
pub mod select;
pub mod semantic;
pub mod timestamp;
pub mod url;
pub mod versions;

pub use crate::compare::compare;
pub use crate::decode::{CratesioResponse, Fetched, VersionListItem};
pub use crate::error::{Error, Stage};
pub use crate::newer::{
    get_max_minor_version, get_max_patch, get_max_version, get_newest_version, get_version_list,
    MaxAndNew,
};
pub use crate::parse::{ParseFailure, MAX_HYPHENS};
pub use crate::release::Version;
pub use crate::semantic::{Identifier, SemVer};
pub use crate::timestamp::Timestamp;
pub use crate::url::build_url;
pub use crate::versions::Versions;
