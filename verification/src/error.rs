//! The error that every fallible operation of the crate reports.

use vstd::prelude::*;

verus! {

/// The step of a lookup at which a failure arose.
#[derive(Clone, Copy, Debug, PartialEq, Eq, Structural)]
pub enum Stage {
    /// The request could not be built or did not complete.
    Transport,
    /// The registry's response could not be turned into a version list.
    Decode,
    /// The caller's own version string is not a semantic version.
    Input,
}

/// Error for failed version checking/comparison.
#[derive(Debug)]
pub struct Error {
    stage: Stage,
    message: String,
}

impl Error {
    /// The stage that this error reports.
    pub closed spec fn spec_stage(&self) -> Stage {
        self.stage
    }

    /// The text that this error carries.
    pub closed spec fn spec_message(&self) -> Seq<char> {
        self.message@
    }

    /// An error of the given stage with the given text.
    pub fn new(stage: Stage, message: &str) -> (e: Error)
        ensures
            e.spec_stage() == stage,
            e.spec_message() == message@,
    {
        Error { stage, message: message.to_owned() }
    }

    /// The stage at which the failure arose.
    #[verifier::when_used_as_spec(spec_stage)]
    pub fn stage(&self) -> (s: Stage)
        ensures
            s == self.spec_stage(),
    {
        self.stage
    }

    /// The text of the error, as it is shown to a user.
    pub fn to_string(&self) -> (s: String)
        ensures
            s@ == self.spec_message(),
    {
        self.message.clone()
    }
}

/// `e` is the error of the given stage and text.
pub open spec fn is_error(e: Error, stage: Stage, message: Seq<char>) -> bool {
    e.spec_stage() == stage && e.spec_message() == message
}

} // verus!
