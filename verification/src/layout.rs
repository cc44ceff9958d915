//! The layout of the input: which files of a directory are read, by their names.

use crate::language::{iso_639_1_to_3, lookup_639_1};
use crate::tag::opt_view;
use crate::text::{contains, contains_seq, ends_with, ends_with_seq, starts_with, starts_with_seq};
use vstd::prelude::*;

verus! {

/// The part of a file name that marks a clean source.
pub open spec fn clean_marker() -> Seq<char> {
    "clean_"@
}

/// The part of a file name that marks a noisy source.
pub open spec fn noisy_marker() -> Seq<char> {
    "noisy_"@
}

/// Whether the file at `path` belongs to the clean subset of its directory.
pub fn is_clean_source(path: &str) -> (clean: bool)
    ensures
        clean == contains_seq(path@, clean_marker()),
{
    contains(path, "clean_")
}

/// Whether the file at `path` belongs to the noisy subset of its directory.
pub fn is_noisy_source(path: &str) -> (noisy: bool)
    ensures
        noisy == contains_seq(path@, noisy_marker()),
{
    contains(path, "noisy_")
}

/// Whether a file holds columnar data, by its name.
pub fn is_columnar_file(name: &str) -> (columnar: bool)
    ensures
        columnar == ends_with_seq(name@, ".parquet"@),
{
    ends_with(name, ".parquet")
}

/// A file of line-delimited records is read unless it holds the English, the
/// unidentified or the multilingual part of the corpus.
pub open spec fn record_file(name: Seq<char>) -> bool {
    &&& ends_with_seq(name, ".jsonl"@)
    &&& !starts_with_seq(name, "en_meta"@)
    &&& !starts_with_seq(name, "x-eml_meta"@)
    &&& !starts_with_seq(name, "multi_meta"@)
}

/// Whether a file of line-delimited records is read, by its name.
pub fn is_record_file(name: &str) -> (read: bool)
    ensures
        read == record_file(name@),
{
    ends_with(name, ".jsonl") && !starts_with(name, "en_meta") && !starts_with(name, "x-eml_meta")
        && !starts_with(name, "multi_meta")
}

/// What follows the language in the name of a file of records.
pub open spec fn record_suffix() -> Seq<char> {
    "_meta.jsonl"@
}

/// Why the name of a file gives no language.
#[derive(Debug, Clone, Copy, PartialEq, Eq, Structural)]
pub enum FileNameError {
    /// The name does not end as the name of a file of records does.
    NotARecordFile,
    /// The two-letter code in front is unknown to the language table.
    UnknownLanguageCode,
}

/// The language of a file of records, from what stands in front of the
/// suffix, and what the language table says of it where it has two characters.
pub open spec fn language_from(stem: Seq<char>, table: Option<Seq<char>>) -> Result<
    Seq<char>,
    FileNameError,
> {
    if stem.len() == 2 {
        match table {
            Some(code) => Ok(code),
            None => Err(FileNameError::UnknownLanguageCode),
        }
    } else {
        Ok(stem)
    }
}

/// The language of a file of records, by its name.
pub open spec fn file_language_of(name: Seq<char>) -> Result<Seq<char>, FileNameError> {
    if ends_with_seq(name, record_suffix()) {
        let stem = name.subrange(0, name.len() - record_suffix().len());
        language_from(stem, iso_639_1_to_3(stem))
    } else {
        Err(FileNameError::NotARecordFile)
    }
}

/// Decides the language of a file from the stem of its name and the answer
/// of the language table for that stem: a stem of two characters is replaced
/// by the three-letter code of the table and refused where the table has
/// none; any other stem is the language as it stands.
pub fn language_of_stem(stem: &str, table: Option<String>) -> (r: Result<String, FileNameError>)
    ensures
        match r {
            Ok(code) => language_from(stem@, opt_view(table)) == Ok::<
                Seq<char>,
                FileNameError,
            >(code@),
            Err(e) => language_from(stem@, opt_view(table)) == Err::<
                Seq<char>,
                FileNameError,
            >(e),
        },
{
    if stem.unicode_len() == 2 {
        match table {
            Some(code) => Ok(code),
            None => Err(FileNameError::UnknownLanguageCode),
        }
    } else {
        Ok(stem.to_owned())
    }
}

/// The language of a file of records, by its name: the name without its
/// suffix, mapped through the language table where it has two characters.
pub fn file_language(name: &str) -> (r: Result<String, FileNameError>)
    ensures
        match r {
            Ok(code) => file_language_of(name@) == Ok::<Seq<char>, FileNameError>(code@),
            Err(e) => file_language_of(name@) == Err::<Seq<char>, FileNameError>(e),
        },
        r == Err::<String, FileNameError>(FileNameError::NotARecordFile) <==> !ends_with_seq(
            name@,
            record_suffix(),
        ),
{
    if !ends_with(name, "_meta.jsonl") {
        return Err(FileNameError::NotARecordFile);
    }
    let n = name.unicode_len();
    let m = "_meta.jsonl".unicode_len();
    let stem = name.substring_char(0, n - m);
    let table = if stem.unicode_len() == 2 {
        lookup_639_1(stem)
    } else {
        None
    };
    language_of_stem(stem, table)
}

} // verus!
