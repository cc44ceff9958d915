//! The records that are read from a corpus and the rows that are written out.

use crate::errors::MadError;
use crate::tag::{clone_opt, opt_view, LanguageTag, LanguageTagView};
use vstd::prelude::*;

verus! {

/// One record of the corpus, as a line of it encodes it.
#[derive(Debug, Clone, PartialEq, Eq)]
pub struct MadDocument {
    pub text: String,
    pub timestamp: Option<String>,
    pub url: Option<String>,
}

/// One sampled unit of corpus text: a row of the output.
#[derive(Debug, Clone, PartialEq, Eq)]
pub struct Document {
    pub text: String,
    pub lang: String,
    pub script: Option<String>,
    pub locale: Option<String>,
    pub timestamp: Option<String>,
    pub url: Option<String>,
    /// `true` in the clean stratum, `false` in the noisy one.
    pub clean: bool,
    /// Where the text comes from.
    pub source: String,
    /// Release of the corpus.
    pub version: String,
}

/// A corpus record as plain values.
pub ghost struct MadDocumentView {
    pub text: Seq<char>,
    pub timestamp: Option<Seq<char>>,
    pub url: Option<Seq<char>>,
}

/// A row as plain values.
pub ghost struct DocumentView {
    pub text: Seq<char>,
    pub lang: Seq<char>,
    pub script: Option<Seq<char>>,
    pub locale: Option<Seq<char>>,
    pub timestamp: Option<Seq<char>>,
    pub url: Option<Seq<char>>,
    pub clean: bool,
    pub source: Seq<char>,
    pub version: Seq<char>,
}

impl View for MadDocument {
    type V = MadDocumentView;

    open spec fn view(&self) -> MadDocumentView {
        MadDocumentView {
            text: self.text@,
            timestamp: opt_view(self.timestamp),
            url: opt_view(self.url),
        }
    }
}

impl View for Document {
    type V = DocumentView;

    open spec fn view(&self) -> DocumentView {
        DocumentView {
            text: self.text@,
            lang: self.lang@,
            script: opt_view(self.script),
            locale: opt_view(self.locale),
            timestamp: opt_view(self.timestamp),
            url: opt_view(self.url),
            clean: self.clean,
            source: self.source@,
            version: self.version@,
        }
    }
}

/// The views of a sequence of rows.
pub open spec fn doc_views(rows: Seq<Document>) -> Seq<DocumentView> {
    rows.map_values(|d: Document| d@)
}

/// The provenance that every row carries.
pub open spec fn source_name() -> Seq<char> {
    "MADLAD"@
}

/// The row that a record gives under a tag, a stratum and a release.
pub open spec fn stamped(
    record: MadDocumentView,
    tag: LanguageTagView,
    clean: bool,
    version: Seq<char>,
) -> DocumentView {
    DocumentView {
        text: record.text,
        lang: tag.language,
        script: tag.script,
        locale: tag.locale,
        timestamp: record.timestamp,
        url: record.url,
        clean,
        source: source_name(),
        version,
    }
}

impl MadDocument {
    /// A copy of the record.
    pub fn duplicate(&self) -> (r: MadDocument)
        ensures
            r@ == self@,
    {
        MadDocument {
            text: self.text.clone(),
            timestamp: clone_opt(&self.timestamp),
            url: clone_opt(&self.url),
        }
    }
}

impl Document {
    /// The row that a record gives under a tag, a stratum and a release.
    pub fn stamp(record: MadDocument, tag: &LanguageTag, clean: bool, version: &String) -> (doc:
        Document)
        ensures
            doc@ == stamped(record@, tag@, clean, version@),
    {
        Document {
            text: record.text,
            lang: tag.language.clone(),
            script: clone_opt(&tag.script),
            locale: clone_opt(&tag.locale),
            timestamp: record.timestamp,
            url: record.url,
            clean,
            source: "MADLAD".to_owned(),
            version: version.clone(),
        }
    }

    /// The record that the row was made from.
    pub open spec fn record(self) -> MadDocumentView {
        MadDocumentView { text: self@.text, timestamp: self@.timestamp, url: self@.url }
    }
}

/// Turns a decoded line into a row, stamped with the language, the stratum and
/// the release of its directory. A line that did not decode gives the
/// decoder's error.
pub fn process_jsonline(
    decoded: Result<MadDocument, serde_json::Error>,
    lang: String,
    script: Option<String>,
    locale: Option<String>,
    clean: bool,
    version: String,
) -> (r: Result<Document, MadError>)
    ensures
        match decoded {
            Ok(record) => r matches Ok(doc) && doc@ == stamped(
                record@,
                LanguageTagView {
                    language: lang@,
                    script: opt_view(script),
                    locale: opt_view(locale),
                },
                clean,
                version@,
            ),
            Err(e) => r matches Err(MadError::SerdeJson(cause)) && cause == e,
        },
{
    let mad_doc = match decoded {
        Ok(record) => record,
        Err(e) => {
            return Err(MadError::from(e));
        },
    };
    let doc = Document {
        text: mad_doc.text,
        lang,
        script,
        locale,
        timestamp: mad_doc.timestamp,
        url: mad_doc.url,
        clean,
        source: "MADLAD".to_owned(),
        version,
    };
    Ok(doc)
}

} // verus!
