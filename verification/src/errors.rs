//! The error of a sampling run.

use vstd::prelude::*;
use vstd::std_specs::convert::FromSpecImpl;

verus! {

/// The error that the JSON decoder gives for a malformed line.
#[verifier::external_type_specification]
#[verifier::external_body]
pub struct ExJsonError(serde_json::Error);

/// An error of the sampling process, by its source.
#[derive(Debug)]
pub enum MadError {
    /// The language table does not hold a code.
    ParseLanguageError(isolang::ParseLanguageError),
    /// Any other failure, in words.
    Custom(String),
    /// A line is no record.
    SerdeJson(serde_json::Error),
}

impl From<isolang::ParseLanguageError> for MadError {
    fn from(err: isolang::ParseLanguageError) -> (e: MadError) {
        MadError::ParseLanguageError(err)
    }
}

impl FromSpecImpl<isolang::ParseLanguageError> for MadError {
    open spec fn obeys_from_spec() -> bool {
        true
    }

    open spec fn from_spec(err: isolang::ParseLanguageError) -> MadError {
        MadError::ParseLanguageError(err)
    }
}

impl From<serde_json::Error> for MadError {
    fn from(err: serde_json::Error) -> (e: MadError) {
        MadError::SerdeJson(err)
    }
}

impl FromSpecImpl<serde_json::Error> for MadError {
    open spec fn obeys_from_spec() -> bool {
        true
    }

    open spec fn from_spec(err: serde_json::Error) -> MadError {
        MadError::SerdeJson(err)
    }
}

impl From<String> for MadError {
    fn from(err: String) -> (e: MadError) {
        MadError::Custom(err)
    }
}

impl FromSpecImpl<String> for MadError {
    open spec fn obeys_from_spec() -> bool {
        true
    }

    open spec fn from_spec(err: String) -> MadError {
        MadError::Custom(err)
    }
}

impl MadError {
    /// The error in words: the text of the source's own message.
    pub fn message(&self) -> (text: String)
        ensures
            self matches MadError::Custom(s) ==> text@ == s@,
            self matches MadError::ParseLanguageError(e)
                ==> vstd::string::to_string_from_display_ensures::<isolang::ParseLanguageError>(
                &e,
                text,
            ),
            self matches MadError::SerdeJson(e) ==> vstd::string::to_string_from_display_ensures::<
                serde_json::Error,
            >(&e, text),
    {
        match self {
            MadError::ParseLanguageError(err) => err.to_string(),
            MadError::SerdeJson(err) => err.to_string(),
            MadError::Custom(err) => err.clone(),
        }
    }
}

} // verus!
