//! Errors of request-body construction.
use vstd::prelude::*;

verus! {

/// A request body lacks a required field.
#[derive(Clone, Copy, Debug, PartialEq, Eq, Structural)]
pub enum RequestBodyBuildError {
    SourceUrlNotSet,
    ScriptNotSet,
    PresenterIdNotSet,
}

impl RequestBodyBuildError {
    pub open spec fn spec_message(self) -> Seq<char> {
        match self {
            RequestBodyBuildError::SourceUrlNotSet => "source url must be set"@,
            RequestBodyBuildError::ScriptNotSet => "script must be set"@,
            RequestBodyBuildError::PresenterIdNotSet => "presenter id must be set"@,
        }
    }

    /// A human-readable description of the error.
    pub fn message(&self) -> (r: String)
        ensures
            r@ == self.spec_message(),
    {
        match self {
            RequestBodyBuildError::SourceUrlNotSet => "source url must be set".to_string(),
            RequestBodyBuildError::ScriptNotSet => "script must be set".to_string(),
            RequestBodyBuildError::PresenterIdNotSet => "presenter id must be set".to_string(),
        }
    }
}

} // verus!
