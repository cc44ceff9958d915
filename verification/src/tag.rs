//! Resolution of a directory name into a language tag.
//!
//! A name has one to three parts separated by `_`. The first part is a
//! language code; a second and third part are script and locale.

use crate::language::{iso_639_3, lookup_639_3};
use crate::text::{contains, contains_seq, split, split_on, views};
use crate::unicode::{
    alphabetic_count, is_alphabetic_char, is_uppercase_char, lemma_all_uppercase_iff_counts_agree,
    letter_counts,
};
use vstd::prelude::*;

verus! {

/// Why a directory name gives no tag.
#[derive(Debug, Clone, Copy, PartialEq, Eq, Structural)]
pub enum TagError {
    /// The name has no part, or more than three.
    InvalidTagFormat,
    /// The language table does not hold the first part.
    UnknownLanguageCode,
}

/// What a subtag that stands alone behind the language is taken for.
#[derive(Debug, Clone, Copy, PartialEq, Eq, Structural)]
pub enum SubtagKind {
    Script,
    Locale,
}

/// The normalized identifier of one corpus subset.
#[derive(Debug, Clone, PartialEq, Eq)]
pub struct LanguageTag {
    /// ISO 639-3 code of the language.
    pub language: String,
    /// Writing system, where the name gives one.
    pub script: Option<String>,
    /// Region or variant, where the name gives one.
    pub locale: Option<String>,
}

/// A language tag as plain values.
pub ghost struct LanguageTagView {
    pub language: Seq<char>,
    pub script: Option<Seq<char>>,
    pub locale: Option<Seq<char>>,
}

/// The characters of an optional string.
pub open spec fn opt_view(o: Option<String>) -> Option<Seq<char>> {
    match o {
        Some(s) => Some(s@),
        None => None,
    }
}

impl View for LanguageTag {
    type V = LanguageTagView;

    open spec fn view(&self) -> LanguageTagView {
        LanguageTagView {
            language: self.language@,
            script: opt_view(self.script),
            locale: opt_view(self.locale),
        }
    }
}

/// The separator between the parts of a directory name.
pub const PART_SEPARATOR: char = '_';

/// A lone subtag is a locale when it has exactly two alphabetic characters
/// and every alphabetic character in it is uppercase.
pub open spec fn is_locale_subtag(part: Seq<char>) -> bool {
    &&& alphabetic_count(part) == 2
    &&& forall|i: int|
        0 <= i < part.len() && is_alphabetic_char(part[i]) ==> is_uppercase_char(part[i])
}

/// The kind of a lone subtag.
pub open spec fn kind_of(part: Seq<char>) -> SubtagKind {
    if is_locale_subtag(part) {
        SubtagKind::Locale
    } else {
        SubtagKind::Script
    }
}

/// The kind that the two letter counts of a lone subtag give.
pub open spec fn kind_of_counts(letters: nat, uppercase: nat) -> SubtagKind {
    if letters == 2 && uppercase == letters {
        SubtagKind::Locale
    } else {
        SubtagKind::Script
    }
}

/// The tag that parts, the table's answer for the first part, and the kind of
/// the second part give.
pub open spec fn assembled(
    parts: Seq<Seq<char>>,
    language: Option<Seq<char>>,
    second: SubtagKind,
) -> Result<LanguageTagView, TagError> {
    if parts.len() < 1 || parts.len() > 3 {
        Err(TagError::InvalidTagFormat)
    } else {
        match language {
            None => Err(TagError::UnknownLanguageCode),
            Some(code) => Ok(
                if parts.len() == 1 {
                    LanguageTagView { language: code, script: None, locale: None }
                } else if parts.len() == 2 {
                    match second {
                        SubtagKind::Locale => LanguageTagView {
                            language: code,
                            script: None,
                            locale: Some(parts[1]),
                        },
                        SubtagKind::Script => LanguageTagView {
                            language: code,
                            script: Some(parts[1]),
                            locale: None,
                        },
                    }
                } else {
                    LanguageTagView {
                        language: code,
                        script: Some(parts[1]),
                        locale: Some(parts[2]),
                    }
                },
            ),
        }
    }
}

/// The kind of the second part of a name, where it has one.
pub open spec fn second_kind(parts: Seq<Seq<char>>) -> SubtagKind {
    if parts.len() >= 2 {
        kind_of(parts[1])
    } else {
        SubtagKind::Script
    }
}

/// What a directory name resolves to.
pub open spec fn resolved(name: Seq<char>) -> Result<LanguageTagView, TagError> {
    let parts = split_on(name, PART_SEPARATOR);
    assembled(parts, iso_639_3(parts[0]), second_kind(parts))
}

/// The kind of a lone subtag, from the number of its alphabetic characters and
/// the number of those that are uppercase.
pub fn subtag_kind(letters: usize, uppercase: usize) -> (kind: SubtagKind)
    ensures
        kind == kind_of_counts(letters as nat, uppercase as nat),
        kind == SubtagKind::Locale <==> letters == 2 && uppercase == 2,
{
    if letters == 2 && uppercase == letters {
        SubtagKind::Locale
    } else {
        SubtagKind::Script
    }
}

/// Decides whether a lone subtag is a script or a locale.
pub fn classify_subtag(part: &str) -> (kind: SubtagKind)
    ensures
        kind == kind_of(part@),
        kind == SubtagKind::Locale <==> is_locale_subtag(part@),
{
    let (letters, uppercase) = letter_counts(part);
    proof {
        lemma_all_uppercase_iff_counts_agree(part@);
    }
    subtag_kind(letters, uppercase)
}

/// A copy of an optional string.
pub fn clone_opt(o: &Option<String>) -> (r: Option<String>)
    ensures
        opt_view(r) == opt_view(*o),
{
    match o {
        Some(s) => Some(s.clone()),
        None => None,
    }
}

impl LanguageTag {
    /// A copy of the tag.
    pub fn duplicate(&self) -> (r: LanguageTag)
        ensures
            r@ == self@,
    {
        LanguageTag {
            language: self.language.clone(),
            script: clone_opt(&self.script),
            locale: clone_opt(&self.locale),
        }
    }
}

/// Builds the tag from the parts of a name, the table's answer for the first
/// part and the kind of the second part.
pub fn assemble_tag(parts: &Vec<String>, language: Option<String>, second: SubtagKind) -> (r:
    Result<LanguageTag, TagError>)
    ensures
        match r {
            Ok(tag) => assembled(views(parts@), opt_view(language), second) == Ok::<
                LanguageTagView,
                TagError,
            >(tag@),
            Err(e) => assembled(views(parts@), opt_view(language), second) == Err::<
                LanguageTagView,
                TagError,
            >(e),
        },
        r is Ok <==> 1 <= parts.len() <= 3 && language is Some,
        parts.len() == 0 || parts.len() > 3 ==> r == Err::<LanguageTag, TagError>(
            TagError::InvalidTagFormat,
        ),
{
    let n = parts.len();
    if n < 1 || n > 3 {
        return Err(TagError::InvalidTagFormat);
    }
    let code = match language {
        Some(code) => code,
        None => {
            return Err(TagError::UnknownLanguageCode);
        },
    };
    let tag = if n == 1 {
        LanguageTag { language: code, script: None, locale: None }
    } else if n == 2 {
        let part = parts[1].clone();
        match second {
            SubtagKind::Locale => LanguageTag { language: code, script: None, locale: Some(part) },
            SubtagKind::Script => LanguageTag { language: code, script: Some(part), locale: None },
        }
    } else {
        LanguageTag {
            language: code,
            script: Some(parts[1].clone()),
            locale: Some(parts[2].clone()),
        }
    };
    Ok(tag)
}

/// Resolves a directory name into a language tag.
///
/// The name is split at `_`. One part is a language alone. Of three parts the
/// second is the script and the third the locale, whatever their case. Of two
/// parts the second is a locale where it has exactly two alphabetic characters,
/// all uppercase, and a script otherwise. More than three parts are refused,
/// and so is a first part that the language table does not hold.
pub fn resolve_tag(name: &str) -> (r: Result<LanguageTag, TagError>)
    ensures
        match r {
            Ok(tag) => resolved(name@) == Ok::<LanguageTagView, TagError>(tag@),
            Err(e) => resolved(name@) == Err::<LanguageTagView, TagError>(e),
        },
        split_on(name@, PART_SEPARATOR).len() == 1 ==> (r matches Ok(tag) ==> tag.script is None
            && tag.locale is None),
        split_on(name@, PART_SEPARATOR).len() == 2 ==> (r matches Ok(tag) ==> if is_locale_subtag(
            split_on(name@, PART_SEPARATOR)[1],
        ) {
            tag.script is None && opt_view(tag.locale) == Some(split_on(name@, PART_SEPARATOR)[1])
        } else {
            tag.locale is None && opt_view(tag.script) == Some(split_on(name@, PART_SEPARATOR)[1])
        }),
        split_on(name@, PART_SEPARATOR).len() == 3 ==> (r matches Ok(tag) ==> opt_view(tag.script)
            == Some(split_on(name@, PART_SEPARATOR)[1]) && opt_view(tag.locale) == Some(
            split_on(name@, PART_SEPARATOR)[2],
        )),
        split_on(name@, PART_SEPARATOR).len() > 3 ==> r == Err::<LanguageTag, TagError>(
            TagError::InvalidTagFormat,
        ),
        r is Ok <==> split_on(name@, PART_SEPARATOR).len() <= 3 && iso_639_3(
            split_on(name@, PART_SEPARATOR)[0],
        ) is Some,
        r matches Ok(tag) ==> tag.language@.len() == 3,
{
    let parts = split(name, PART_SEPARATOR);
    assert(views(parts@).len() == parts@.len());
    if parts.len() > 3 {
        return Err(TagError::InvalidTagFormat);
    }
    assert(views(parts@)[0] == parts@[0]@);
    let language = match lookup_639_3(parts[0].as_str()) {
        Ok(code) => Some(code),
        Err(_) => None,
    };
    let second = if parts.len() >= 2 {
        assert(views(parts@)[1] == parts@[1]@);
        classify_subtag(parts[1].as_str())
    } else {
        SubtagKind::Script
    };
    assemble_tag(&parts, language, second)
}

/// The marker in a path that tells the later revision of the dataset.
pub open spec fn revision_marker() -> Seq<char> {
    "data-v1p5"@
}

/// The release tag of the dataset that a directory path belongs to.
pub open spec fn version_of(path: Seq<char>) -> Seq<char> {
    if contains_seq(path, revision_marker()) {
        "v1.5"@
    } else {
        "v1"@
    }
}

/// Tells the dataset revision from the full path of a directory: the later
/// revision where the path holds its marker, the first one otherwise.
pub fn dataset_version(path: &str) -> (version: String)
    ensures
        version@ == version_of(path@),
{
    if contains(path, "data-v1p5") {
        "v1.5".to_owned()
    } else {
        "v1".to_owned()
    }
}

} // verus!
