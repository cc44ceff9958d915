//! One directory from its name to its sample, and the account of a run.

use crate::filter::{FilterPolicy, FilterPolicyView};
use crate::hosts::{
    extract_rows, extracted_rows, lote_views, record_views, HostRecord, HostRecordView, Lote,
    LoteView,
};
use crate::layout::{file_language, file_language_of, is_record_file, record_file};
use crate::sampler::{
    clean_sample, line_views, noisy_sample, sample_directory, SourceLine, SourceLineView, CLEAN_CAP,
};
use crate::schemas::{doc_views, Document, DocumentView};
use crate::tag::{
    dataset_version, resolve_tag, resolved, version_of, LanguageTagView, TagError,
};
use crate::writer::capped_sum;
use vstd::prelude::*;

verus! {

/// The sample of a directory under a tag: the clean documents, then the noisy ones.
pub open spec fn directory_sample(
    tag: LanguageTagView,
    version: Seq<char>,
    policy: FilterPolicyView,
    clean_cap: nat,
    clean_lines: Seq<SourceLineView>,
    noisy_lines: Seq<SourceLineView>,
) -> Seq<DocumentView> {
    let clean = clean_sample(tag, version, policy, clean_cap, clean_lines);
    clean + noisy_sample(tag, version, policy, clean.len(), noisy_lines)
}

/// Processes one language directory whose lines are at hand.
///
/// The name of the directory is resolved into a tag; a name that does not
/// resolve skips the directory with the resolver's error. The path tells the
/// release. The sample holds up to `CLEAN_CAP` clean documents and up to
/// twice as many noisy documents as clean ones were found.
pub fn process_lang(
    name: &str,
    path: &str,
    policy: FilterPolicy,
    clean_lines: &Vec<SourceLine>,
    noisy_lines: &Vec<SourceLine>,
) -> (r: Result<Vec<Document>, TagError>)
    ensures
        match resolved(name@) {
            Ok(tag) => r matches Ok(records) && doc_views(records@) == directory_sample(
                tag,
                version_of(path@),
                policy@,
                CLEAN_CAP as nat,
                line_views(clean_lines@),
                line_views(noisy_lines@),
            ),
            Err(e) => r == Err::<Vec<Document>, TagError>(e),
        },
{
    let tag = match resolve_tag(name) {
        Ok(tag) => tag,
        Err(e) => {
            return Err(e);
        },
    };
    let version = dataset_version(path);
    Ok(sample_directory(tag, version, CLEAN_CAP, policy, clean_lines, noisy_lines))
}

/// What became of one directory.
#[derive(Debug, Clone, Copy, PartialEq, Eq, Structural)]
pub enum DirectoryOutcome {
    /// The name gave no tag: the directory was skipped.
    Skipped(TagError),
    /// The directory gave no document: this is reported, and no error.
    Empty,
    /// The documents of the directory are to be written.
    Sampled(usize),
}

/// Decides what becomes of a directory from the result of processing it.
pub fn directory_outcome(result: &Result<Vec<Document>, TagError>) -> (outcome: DirectoryOutcome)
    ensures
        outcome == match *result {
            Err(e) => DirectoryOutcome::Skipped(e),
            Ok(records) => if records.len() == 0 {
                DirectoryOutcome::Empty
            } else {
                DirectoryOutcome::Sampled(records.len())
            },
        },
{
    match result {
        Err(e) => DirectoryOutcome::Skipped(*e),
        Ok(records) => if records.len() == 0 {
            DirectoryOutcome::Empty
        } else {
            DirectoryOutcome::Sampled(records.len())
        },
    }
}

/// The account of a run: how many directories were skipped, were empty, and
/// were sampled, and how many documents the sampled ones gave. Each count is
/// held at the largest count.
#[derive(Debug, Clone, Copy, PartialEq, Eq, Structural)]
pub struct RunReport {
    pub skipped: u64,
    pub empty: u64,
    pub sampled: u64,
    pub documents: u64,
}

fn add_capped(a: u64, b: u64) -> (sum: u64)
    ensures
        sum == capped_sum(a as nat, b as nat),
{
    if b > u64::MAX - a {
        u64::MAX
    } else {
        a + b
    }
}

impl RunReport {
    /// The account after one more directory.
    pub open spec fn noted(self, outcome: DirectoryOutcome) -> RunReport {
        match outcome {
            DirectoryOutcome::Skipped(_) => RunReport {
                skipped: capped_sum(self.skipped as nat, 1) as u64,
                ..self
            },
            DirectoryOutcome::Empty => RunReport {
                empty: capped_sum(self.empty as nat, 1) as u64,
                ..self
            },
            DirectoryOutcome::Sampled(n) => RunReport {
                sampled: capped_sum(self.sampled as nat, 1) as u64,
                documents: capped_sum(self.documents as nat, n as nat) as u64,
                ..self
            },
        }
    }

    /// The two accounts taken together.
    pub open spec fn merged(self, other: RunReport) -> RunReport {
        RunReport {
            skipped: capped_sum(self.skipped as nat, other.skipped as nat) as u64,
            empty: capped_sum(self.empty as nat, other.empty as nat) as u64,
            sampled: capped_sum(self.sampled as nat, other.sampled as nat) as u64,
            documents: capped_sum(self.documents as nat, other.documents as nat) as u64,
        }
    }

    /// The account of a run that has seen no directory.
    pub fn new() -> (report: RunReport)
        ensures
            report == (RunReport { skipped: 0, empty: 0, sampled: 0, documents: 0 }),
    {
        RunReport { skipped: 0, empty: 0, sampled: 0, documents: 0 }
    }

    /// Notes what became of one directory. A failure is counted and the run goes on.
    pub fn note(&mut self, outcome: DirectoryOutcome)
        ensures
            *final(self) == old(self).noted(outcome),
    {
        match outcome {
            DirectoryOutcome::Skipped(_) => {
                self.skipped = add_capped(self.skipped, 1);
            },
            DirectoryOutcome::Empty => {
                self.empty = add_capped(self.empty, 1);
            },
            DirectoryOutcome::Sampled(n) => {
                self.sampled = add_capped(self.sampled, 1);
                self.documents = add_capped(self.documents, n as u64);
            },
        }
    }

    /// Takes the accounts of two workers together.
    pub fn merge(self, other: RunReport) -> (both: RunReport)
        ensures
            both == self.merged(other),
    {
        RunReport {
            skipped: add_capped(self.skipped, other.skipped),
            empty: add_capped(self.empty, other.empty),
            sampled: add_capped(self.sampled, other.sampled),
            documents: add_capped(self.documents, other.documents),
        }
    }
}

/// One language directory with the lines of its files: the clean files
/// first to last, then the noisy files first to last.
#[derive(Debug, Clone, PartialEq, Eq)]
pub struct Directory {
    pub name: String,
    pub path: String,
    pub clean_lines: Vec<SourceLine>,
    pub noisy_lines: Vec<SourceLine>,
}

/// A directory as plain values.
pub ghost struct DirectoryView {
    pub name: Seq<char>,
    pub path: Seq<char>,
    pub clean_lines: Seq<SourceLineView>,
    pub noisy_lines: Seq<SourceLineView>,
}

impl View for Directory {
    type V = DirectoryView;

    open spec fn view(&self) -> DirectoryView {
        DirectoryView {
            name: self.name@,
            path: self.path@,
            clean_lines: line_views(self.clean_lines@),
            noisy_lines: line_views(self.noisy_lines@),
        }
    }
}

/// The views of a sequence of directories.
pub open spec fn directory_views(dirs: Seq<Directory>) -> Seq<DirectoryView> {
    dirs.map_values(|d: Directory| d@)
}

/// The documents that a directory gives; none where its name does not resolve.
pub open spec fn directory_rows(policy: FilterPolicyView, dir: DirectoryView) -> Seq<DocumentView> {
    match resolved(dir.name) {
        Ok(tag) => directory_sample(
            tag,
            version_of(dir.path),
            policy,
            CLEAN_CAP as nat,
            dir.clean_lines,
            dir.noisy_lines,
        ),
        Err(_) => Seq::empty(),
    }
}

/// What becomes of a directory.
pub open spec fn directory_outcome_of(policy: FilterPolicyView, dir: DirectoryView) -> DirectoryOutcome {
    match resolved(dir.name) {
        Ok(_) => if directory_rows(policy, dir).len() == 0 {
            DirectoryOutcome::Empty
        } else {
            DirectoryOutcome::Sampled(directory_rows(policy, dir).len() as usize)
        },
        Err(e) => DirectoryOutcome::Skipped(e),
    }
}

/// The documents of a run: those of its directories, in the order of the directories.
pub open spec fn run_rows(policy: FilterPolicyView, dirs: Seq<DirectoryView>) -> Seq<DocumentView>
    decreases dirs.len(),
{
    if dirs.len() == 0 {
        Seq::empty()
    } else {
        run_rows(policy, dirs.drop_last()) + directory_rows(policy, dirs.last())
    }
}

/// The account of a run over the directories.
pub open spec fn run_report(policy: FilterPolicyView, dirs: Seq<DirectoryView>) -> RunReport
    decreases dirs.len(),
{
    if dirs.len() == 0 {
        RunReport { skipped: 0, empty: 0, sampled: 0, documents: 0 }
    } else {
        run_report(policy, dirs.drop_last()).noted(directory_outcome_of(policy, dirs.last()))
    }
}

/// Samples every directory in turn into one table. A directory whose name
/// does not resolve is skipped and counted, and the run goes on; a directory
/// without documents is counted and adds nothing.
pub fn sample(directories: &Vec<Directory>, policy: &FilterPolicy) -> (run: (Vec<Document>, RunReport))
    ensures
        doc_views(run.0@) == run_rows(policy@, directory_views(directories@)),
        run.1 == run_report(policy@, directory_views(directories@)),
{
    let ghost all = directory_views(directories@);
    let mut rows: Vec<Document> = Vec::new();
    let mut report = RunReport::new();
    let mut i: usize = 0;
    assert(all.take(0) =~= Seq::empty());
    assert(doc_views(rows@) =~= Seq::empty());
    while i < directories.len()
        invariant
            i <= directories.len(),
            all == directory_views(directories@),
            doc_views(rows@) == run_rows(policy@, all.take(i as int)),
            report == run_report(policy@, all.take(i as int)),
        decreases directories.len() - i,
    {
        let dir = &directories[i];
        proof {
            assert(all.take(i + 1).drop_last() == all.take(i as int));
            assert(all.take(i + 1).last() == dir@);
        }
        let result = process_lang(
            dir.name.as_str(),
            dir.path.as_str(),
            policy.duplicate(),
            &dir.clean_lines,
            &dir.noisy_lines,
        );
        report.note(directory_outcome(&result));
        match result {
            Ok(mut records) => {
                let ghost before = doc_views(rows@);
                let ghost added = doc_views(records@);
                rows.append(&mut records);
                assert(doc_views(rows@) =~= before + added);
            },
            Err(_) => {
                assert(doc_views(rows@) + Seq::<DocumentView>::empty() =~= doc_views(rows@));
            },
        }
        i += 1;
    }
    assert(all.take(i as int) == all);
    (rows, report)
}

/// One file of records with its records.
#[derive(Debug, Clone, PartialEq, Eq)]
pub struct RecordFile {
    pub name: String,
    pub records: Vec<HostRecord>,
}

/// A file of records as plain values.
pub ghost struct RecordFileView {
    pub name: Seq<char>,
    pub records: Seq<HostRecordView>,
}

impl View for RecordFile {
    type V = RecordFileView;

    open spec fn view(&self) -> RecordFileView {
        RecordFileView { name: self.name@, records: record_views(self.records@) }
    }
}

/// The views of a sequence of files.
pub open spec fn file_views(files: Seq<RecordFile>) -> Seq<RecordFileView> {
    files.map_values(|f: RecordFile| f@)
}

/// The host table of one language.
#[derive(Debug, Clone, PartialEq, Eq)]
pub struct HostTable {
    pub lang: String,
    pub rows: Vec<Lote>,
}

/// A host table as plain values.
pub ghost struct HostTableView {
    pub lang: Seq<char>,
    pub rows: Seq<LoteView>,
}

impl View for HostTable {
    type V = HostTableView;

    open spec fn view(&self) -> HostTableView {
        HostTableView { lang: self.lang@, rows: lote_views(self.rows@) }
    }
}

/// The views of a sequence of host tables.
pub open spec fn table_views(tables: Seq<HostTable>) -> Seq<HostTableView> {
    tables.map_values(|t: HostTable| t@)
}

/// The host table that a file gives, if it gives one: the file must be one
/// that is read, its name must tell a language, and its records must give at
/// least one row.
pub open spec fn table_of(policy: FilterPolicyView, file: RecordFileView) -> Option<HostTableView> {
    if !record_file(file.name) {
        None
    } else {
        match file_language_of(file.name) {
            Err(_) => None,
            Ok(lang) => {
                let rows = extracted_rows(policy, lang, file.records);
                if rows.len() == 0 {
                    None
                } else {
                    Some(HostTableView { lang, rows })
                }
            },
        }
    }
}

/// The host tables of a run, in the order of the files.
pub open spec fn run_tables(policy: FilterPolicyView, files: Seq<RecordFileView>) -> Seq<
    HostTableView,
>
    decreases files.len(),
{
    if files.len() == 0 {
        Seq::empty()
    } else {
        let before = run_tables(policy, files.drop_last());
        match table_of(policy, files.last()) {
            Some(table) => before.push(table),
            None => before,
        }
    }
}

/// Extracts the host table of every file that is read. A file whose name
/// tells no language is skipped, and a table without rows is not kept.
pub fn extract_lote(files: &Vec<RecordFile>, policy: &FilterPolicy) -> (tables: Vec<HostTable>)
    ensures
        table_views(tables@) == run_tables(policy@, file_views(files@)),
        forall|k: int| 0 <= k < tables.len() ==> (#[trigger] tables[k]).rows.len() > 0,
{
    let ghost all = file_views(files@);
    let mut tables: Vec<HostTable> = Vec::new();
    let mut i: usize = 0;
    assert(all.take(0) =~= Seq::empty());
    assert(table_views(tables@) =~= Seq::empty());
    while i < files.len()
        invariant
            i <= files.len(),
            all == file_views(files@),
            table_views(tables@) == run_tables(policy@, all.take(i as int)),
            forall|k: int| 0 <= k < tables.len() ==> (#[trigger] tables[k]).rows.len() > 0,
        decreases files.len() - i,
    {
        let file = &files[i];
        proof {
            assert(all.take(i + 1).drop_last() == all.take(i as int));
            assert(all.take(i + 1).last() == file@);
        }
        if is_record_file(file.name.as_str()) {
            match file_language(file.name.as_str()) {
                Ok(lang) => {
                    let rows = extract_rows(policy, lang.as_str(), &file.records);
                    if rows.len() > 0 {
                        let table = HostTable { lang, rows };
                        let ghost before = table_views(tables@);
                        let ghost added = table@;
                        tables.push(table);
                        assert(table_views(tables@) =~= before.push(added));
                    }
                },
                Err(_) => {},
            }
        }
        i += 1;
    }
    assert(all.take(i as int) == all);
    tables
}

/// Accounts can be taken together in any order.
pub proof fn lemma_merge_commutes(a: RunReport, b: RunReport)
    ensures
        a.merged(b) == b.merged(a),
{
}

} // verus!
