//! The table of ISO 639 language codes.

use isolang::Language;
use std::str::FromStr;
use vstd::prelude::*;

verus! {

/// The error that the language table gives for a code it does not hold.
#[verifier::external_type_specification]
#[verifier::external_body]
pub struct ExParseLanguageError(isolang::ParseLanguageError);

/// The ISO 639-3 code that the language table gives for `code`, where it holds `code`.
pub uninterp spec fn iso_639_3(code: Seq<char>) -> Option<Seq<char>>;

/// `Language::from_str` of isolang, and `Language::to_639_3` on what it found.
/// Believed, not proved: the table answers for a code always in the same way,
/// which `iso_639_3` names; a code it does not hold gives the table's error;
/// the code it answers with has three characters.
#[verifier::external_body]
pub(crate) fn lookup_639_3(code: &str) -> (r: Result<String, isolang::ParseLanguageError>)
    ensures
        r matches Ok(s) ==> iso_639_3(code@) == Some(s@) && s@.len() == 3,
        r is Err ==> iso_639_3(code@) is None,
{
    match Language::from_str(code) {
        Ok(language) => Ok(language.to_639_3().to_owned()),
        Err(e) => Err(e),
    }
}

/// The ISO 639-3 code that the language table gives for the two-letter code
/// `code`, where it holds `code` as an ISO 639-1 code.
pub uninterp spec fn iso_639_1_to_3(code: Seq<char>) -> Option<Seq<char>>;

/// `Language::from_639_1` of isolang, and `Language::to_639_3` on what it
/// found. Believed, not proved: the table answers for a code always in the
/// same way, which `iso_639_1_to_3` names; the code it answers with has three
/// characters.
#[verifier::external_body]
pub(crate) fn lookup_639_1(code: &str) -> (r: Option<String>)
    ensures
        r matches Some(s) ==> iso_639_1_to_3(code@) == Some(s@) && s@.len() == 3,
        r is None ==> iso_639_1_to_3(code@) is None,
{
    match Language::from_639_1(code) {
        Some(language) => Some(language.to_639_3().to_owned()),
        None => None,
    }
}

} // verus!
