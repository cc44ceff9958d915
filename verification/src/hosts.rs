//! Extraction of hosts: from each record that passes the filter, the host of
//! its address, its language and the address itself.

use crate::columns::{
    batch_columns, batch_of, cell_bytes, cells_bytes, column_models, finish_text, no_nulls, opt_cell,
    push_opt_text, push_text, struct_columns, struct_nulls, struct_of, text_bytes_used, text_cells,
    text_column, text_fits, Cell, ColumnKind, ColumnModel, NamedColumn, RowBatch, StructColumns,
    TextColumn, MAX_COLUMN_BYTES,
};
use crate::batch::{cell_opt, cell_text};
use crate::errors::MadError;
use crate::filter::{refused, FilterPolicy, FilterPolicyView, Metadata, MetadataView};
use crate::layout::{file_language, file_language_of, FileNameError};
use crate::tag::{clone_opt, opt_view};
use crate::writer::capped_sum;
use url::Url;
use vstd::prelude::*;

verus! {

/// The error that the address parser gives.
#[verifier::external_type_specification]
#[verifier::external_body]
pub struct ExUrlParseError(url::ParseError);

/// Whether the address parser accepts `address`.
pub uninterp spec fn url_parses(address: Seq<char>) -> bool;

/// The host of `address`, where the parser accepts it and finds a host in it.
pub uninterp spec fn url_host(address: Seq<char>) -> Option<Seq<char>>;

/// `Url::parse` of url, and `Url::host_str` on what it gave. Believed, not
/// proved: the parser accepts or refuses an address always in the same way,
/// which `url_parses` names, and finds in one that it accepts always the same
/// host or none, which `url_host` names.
#[verifier::external_body]
pub(crate) fn parse_host(address: &str) -> (r: Result<Option<String>, url::ParseError>)
    ensures
        r is Ok <==> url_parses(address@),
        r matches Ok(host) ==> url_host(address@) == opt_view(host),
{
    match Url::parse(address) {
        Ok(parsed) => Ok(parsed.host_str().map(|host| host.to_owned())),
        Err(e) => Err(e),
    }
}

/// One row of the host table.
#[derive(Debug, Clone, PartialEq, Eq)]
pub struct Lote {
    pub host: String,
    pub lang: String,
    pub url: Option<String>,
}

/// A row of the host table as plain values.
pub ghost struct LoteView {
    pub host: Seq<char>,
    pub lang: Seq<char>,
    pub url: Option<Seq<char>>,
}

impl View for Lote {
    type V = LoteView;

    open spec fn view(&self) -> LoteView {
        LoteView { host: self.host@, lang: self.lang@, url: opt_view(self.url) }
    }
}

/// The views of a sequence of rows.
pub open spec fn lote_views(rows: Seq<Lote>) -> Seq<LoteView> {
    rows.map_values(|r: Lote| r@)
}

/// What a record gives to the host table.
#[derive(Debug, Clone, PartialEq, Eq)]
pub enum Extraction {
    /// A row.
    Row(Lote),
    /// Nothing: the filter refuses the record.
    Refused,
    /// Nothing: the record has no address.
    NoUrl,
    /// Nothing: the address does not parse.
    UnparsableUrl,
    /// Nothing: the address has no host.
    NoHost,
    /// Nothing: the line did not decode to a record.
    Undecodable,
}

/// What a record gives, as plain values.
pub ghost enum ExtractionView {
    Row(LoteView),
    Refused,
    NoUrl,
    UnparsableUrl,
    NoHost,
    Undecodable,
}

impl View for Extraction {
    type V = ExtractionView;

    open spec fn view(&self) -> ExtractionView {
        match self {
            Extraction::Row(row) => ExtractionView::Row(row@),
            Extraction::Refused => ExtractionView::Refused,
            Extraction::NoUrl => ExtractionView::NoUrl,
            Extraction::UnparsableUrl => ExtractionView::UnparsableUrl,
            Extraction::NoHost => ExtractionView::NoHost,
            Extraction::Undecodable => ExtractionView::Undecodable,
        }
    }
}

/// What an address gives once the parser has answered: `None` where it
/// refused the address, else the host that it found, if any.
pub open spec fn row_of_answer(
    lang: Seq<char>,
    address: Seq<char>,
    answer: Option<Option<Seq<char>>>,
) -> ExtractionView {
    match answer {
        None => ExtractionView::UnparsableUrl,
        Some(None) => ExtractionView::NoHost,
        Some(Some(host)) => ExtractionView::Row(LoteView { host, lang, url: Some(address) }),
    }
}

/// The parser's answer for an address.
pub open spec fn answer_for(address: Seq<char>) -> Option<Option<Seq<char>>> {
    if url_parses(address) {
        Some(url_host(address))
    } else {
        None
    }
}

/// What a record gives: nothing where the filter refuses it or it has no
/// address; else what its address gives.
pub open spec fn extracted(
    policy: FilterPolicyView,
    lang: Seq<char>,
    meta: MetadataView,
    address: Option<Seq<char>>,
) -> ExtractionView {
    if refused(policy, meta) {
        ExtractionView::Refused
    } else {
        match address {
            None => ExtractionView::NoUrl,
            Some(a) => row_of_answer(lang, a, answer_for(a)),
        }
    }
}

/// Builds the row of an address from the answer of the address parser.
pub fn row_from_answer(lang: &str, address: String, answer: Result<Option<String>, url::ParseError>) -> (r:
    Extraction)
    ensures
        r@ == row_of_answer(
            lang@,
            address@,
            match answer {
                Ok(host) => Some(opt_view(host)),
                Err(_) => None,
            },
        ),
{
    match answer {
        Err(_) => Extraction::UnparsableUrl,
        Ok(None) => Extraction::NoHost,
        Ok(Some(host)) => Extraction::Row(Lote { host, lang: lang.to_owned(), url: Some(address) }),
    }
}

/// Decides what one record gives to the host table.
///
/// The filter is asked first; a record that it refuses gives nothing,
/// whatever its address. Then the record needs an address that parses and
/// has a host.
pub fn extract_row(policy: &FilterPolicy, lang: &str, meta: &Metadata, address: Option<String>) -> (r:
    Extraction)
    ensures
        r@ == extracted(policy@, lang@, meta@, opt_view(address)),
        refused(policy@, meta@) ==> r == Extraction::Refused,
        r is Row ==> !refused(policy@, meta@) && address is Some,
{
    if policy.rejects(meta) {
        return Extraction::Refused;
    }
    let address = match address {
        Some(a) => a,
        None => {
            return Extraction::NoUrl;
        },
    };
    let answer = parse_host(address.as_str());
    row_from_answer(lang, address, answer)
}

/// One record of a file: its metadata and its address.
#[derive(Debug, Clone, PartialEq, Eq)]
pub struct HostRecord {
    pub meta: Metadata,
    pub url: Option<String>,
}

/// A record as plain values.
pub ghost struct HostRecordView {
    pub meta: MetadataView,
    pub url: Option<Seq<char>>,
}

impl View for HostRecord {
    type V = HostRecordView;

    open spec fn view(&self) -> HostRecordView {
        HostRecordView { meta: self.meta@, url: opt_view(self.url) }
    }
}

/// The views of a sequence of records.
pub open spec fn record_views(records: Seq<HostRecord>) -> Seq<HostRecordView> {
    records.map_values(|r: HostRecord| r@)
}

/// The rows that the records of a file give, in the order of the records.
pub open spec fn extracted_rows(
    policy: FilterPolicyView,
    lang: Seq<char>,
    records: Seq<HostRecordView>,
) -> Seq<LoteView>
    decreases records.len(),
{
    if records.len() == 0 {
        Seq::empty()
    } else {
        let before = extracted_rows(policy, lang, records.drop_last());
        match extracted(policy, lang, records.last().meta, records.last().url) {
            ExtractionView::Row(row) => before.push(row),
            _ => before,
        }
    }
}

/// The rows that the records give under a language.
pub fn extract_rows(policy: &FilterPolicy, lang: &str, records: &Vec<HostRecord>) -> (rows: Vec<Lote>)
    ensures
        lote_views(rows@) == extracted_rows(policy@, lang@, record_views(records@)),
{
    let ghost all = record_views(records@);
    let mut rows: Vec<Lote> = Vec::new();
    let mut i: usize = 0;
    assert(all.take(0) =~= Seq::empty());
    assert(lote_views(rows@) =~= Seq::empty());
    while i < records.len()
        invariant
            i <= records.len(),
            all == record_views(records@),
            lote_views(rows@) == extracted_rows(policy@, lang@, all.take(i as int)),
        decreases records.len() - i,
    {
        let record = &records[i];
        proof {
            assert(all.take(i + 1).drop_last() == all.take(i as int));
            assert(all.take(i + 1).last() == record@);
        }
        let address = clone_opt(&record.url);
        match extract_row(policy, lang, &record.meta, address) {
            Extraction::Row(row) => {
                let ghost before = lote_views(rows@);
                let ghost added = row@;
                rows.push(row);
                assert(lote_views(rows@) =~= before.push(added));
            },
            _ => {},
        }
        i += 1;
    }
    assert(all.take(i as int) == all);
    rows
}

/// Processes one file of records whose records are at hand: the name of the
/// file tells the language, and each record that passes the filter and has
/// an address with a host gives a row. A name that tells no language skips
/// the file.
pub fn process_file(name: &str, policy: &FilterPolicy, records: &Vec<HostRecord>) -> (r: Result<
    Vec<Lote>,
    FileNameError,
>)
    ensures
        match file_language_of(name@) {
            Ok(lang) => r matches Ok(rows) && lote_views(rows@) == extracted_rows(
                policy@,
                lang,
                record_views(records@),
            ),
            Err(e) => r == Err::<Vec<Lote>, FileNameError>(e),
        },
{
    let lang = match file_language(name) {
        Ok(lang) => lang,
        Err(e) => {
            return Err(e);
        },
    };
    Ok(extract_rows(policy, lang.as_str(), records))
}

/// The state of a host extractor as plain values.
pub ghost struct HostExtractorView {
    pub lang: Seq<char>,
    pub policy: FilterPolicyView,
    pub flush_at: nat,
    pub pending: Seq<LoteView>,
    pub documents: nat,
    pub records: nat,
}

impl HostExtractorView {
    /// The buffer of rows is handed out when a row brings it to the threshold.
    pub open spec fn flushes(self, e: ExtractionView) -> bool {
        e is Row && self.pending.len() + 1 >= self.flush_at
    }

    /// The state after a record gave `e`.
    pub open spec fn after(self, e: ExtractionView) -> HostExtractorView {
        match e {
            ExtractionView::Row(row) => HostExtractorView {
                pending: if self.flushes(e) {
                    Seq::empty()
                } else {
                    self.pending.push(row)
                },
                documents: capped_sum(self.documents, 1),
                records: capped_sum(self.records, 1),
                ..self
            },
            _ => HostExtractorView { documents: capped_sum(self.documents, 1), ..self },
        }
    }

    /// The rows that are handed out after a record gave `e`, if any.
    pub open spec fn handed_out(self, e: ExtractionView) -> Option<Seq<LoteView>> {
        match e {
            ExtractionView::Row(row) => if self.flushes(e) {
                Some(self.pending.push(row))
            } else {
                None
            },
            _ => None,
        }
    }

    /// What a record gives in this state.
    pub open spec fn gives(self, record: HostRecordView) -> ExtractionView {
        extracted(self.policy, self.lang, record.meta, record.url)
    }

    /// The state after the records were offered in order.
    pub open spec fn after_records(self, records: Seq<HostRecordView>) -> HostExtractorView
        decreases records.len(),
    {
        if records.len() == 0 {
            self
        } else {
            let before = self.after_records(records.drop_last());
            before.after(before.gives(records.last()))
        }
    }

    /// The rows of all buffers that were handed out while the records were
    /// offered in order, one buffer after the other.
    pub open spec fn handed_out_during(self, records: Seq<HostRecordView>) -> Seq<LoteView>
        decreases records.len(),
    {
        if records.len() == 0 {
            Seq::empty()
        } else {
            let before = self.after_records(records.drop_last());
            let earlier = self.handed_out_during(records.drop_last());
            match before.handed_out(before.gives(records.last())) {
                Some(rows) => earlier + rows,
                None => earlier,
            }
        }
    }
}

/// Over a whole file nothing is lost and nothing comes twice: the buffers
/// that were handed out, followed by the rows that are still buffered at the
/// end, are the rows that were buffered at the start followed by the rows
/// that the records give, in the order of the records. The language, the
/// policy and the threshold stay as they were.
pub proof fn lemma_extractor_gives_every_row(start: HostExtractorView, records: Seq<HostRecordView>)
    ensures
        start.handed_out_during(records) + start.after_records(records).pending == start.pending
            + extracted_rows(start.policy, start.lang, records),
        start.after_records(records).lang == start.lang,
        start.after_records(records).policy == start.policy,
        start.after_records(records).flush_at == start.flush_at,
    decreases records.len(),
{
    if records.len() == 0 {
        assert(start.handed_out_during(records) + start.pending =~= start.pending
            + extracted_rows(start.policy, start.lang, records));
    } else {
        let shorter = records.drop_last();
        lemma_extractor_gives_every_row(start, shorter);
        let before = start.after_records(shorter);
        let e = before.gives(records.last());
        let earlier = start.handed_out_during(shorter);
        let rows = extracted_rows(start.policy, start.lang, shorter);
        assert(earlier + before.pending == start.pending + rows);
        match e {
            ExtractionView::Row(row) => {
                assert(start.handed_out_during(records) + start.after_records(records).pending
                    =~= (earlier + before.pending).push(row));
                assert(start.pending + extracted_rows(start.policy, start.lang, records) =~= (
                start.pending + rows).push(row));
            },
            _ => {},
        }
    }
}

/// The views of rows that are handed out, if any.
pub open spec fn opt_lote_views(rows: Option<Vec<Lote>>) -> Option<Seq<LoteView>> {
    match rows {
        Some(v) => Some(lote_views(v@)),
        None => None,
    }
}

/// Collects the rows of one file of records. Rows are buffered; when the
/// buffer reaches its threshold it is handed out to be written.
pub struct HostExtractor {
    lang: String,
    policy: FilterPolicy,
    flush_at: usize,
    pending: Vec<Lote>,
    documents: u64,
    records: u64,
}

impl View for HostExtractor {
    type V = HostExtractorView;

    closed spec fn view(&self) -> HostExtractorView {
        HostExtractorView {
            lang: self.lang@,
            policy: self.policy@,
            flush_at: self.flush_at as nat,
            pending: lote_views(self.pending@),
            documents: self.documents as nat,
            records: self.records as nat,
        }
    }
}

fn count_one_more(n: u64) -> (m: u64)
    ensures
        m == capped_sum(n as nat, 1),
{
    if n == u64::MAX {
        n
    } else {
        n + 1
    }
}

impl HostExtractor {
    /// An extractor that has seen no record.
    pub fn new(lang: String, policy: FilterPolicy, flush_at: usize) -> (x: HostExtractor)
        ensures
            x@ == (HostExtractorView {
                lang: lang@,
                policy: policy@,
                flush_at: flush_at as nat,
                pending: Seq::empty(),
                documents: 0,
                records: 0,
            }),
    {
        let x = HostExtractor {
            lang,
            policy,
            flush_at,
            pending: Vec::new(),
            documents: 0,
            records: 0,
        };
        assert(lote_views(x.pending@) =~= Seq::empty());
        x
    }

    /// The number of records seen, held at the largest count.
    pub fn documents(&self) -> (n: u64)
        ensures
            n == self@.documents,
    {
        self.documents
    }

    /// The number of rows that the records gave, held at the largest count.
    pub fn records(&self) -> (n: u64)
        ensures
            n == self@.records,
    {
        self.records
    }

    /// Takes the row that a record gave, if it gave one, and hands out the
    /// buffer where that row filled it.
    pub fn take(&mut self, extraction: Extraction) -> (flush: Option<Vec<Lote>>)
        ensures
            final(self)@ == old(self)@.after(extraction@),
            opt_lote_views(flush) == old(self)@.handed_out(extraction@),
    {
        self.documents = count_one_more(self.documents);
        match extraction {
            Extraction::Row(row) => {
                self.records = count_one_more(self.records);
                let ghost before = lote_views(self.pending@);
                let ghost added = row@;
                self.pending.push(row);
                assert(lote_views(self.pending@) =~= before.push(added));
                if self.pending.len() >= self.flush_at {
                    let mut out: Vec<Lote> = Vec::new();
                    std::mem::swap(&mut self.pending, &mut out);
                    assert(lote_views(self.pending@) =~= Seq::empty());
                    Some(out)
                } else {
                    None
                }
            },
            _ => None,
        }
    }

    /// Offers one record: decides what it gives, buffers the row if it gives
    /// one, and hands out the buffer where that row filled it.
    pub fn offer(&mut self, meta: &Metadata, address: Option<String>) -> (flush: Option<Vec<Lote>>)
        ensures
            final(self)@ == old(self)@.after(
                extracted(old(self)@.policy, old(self)@.lang, meta@, opt_view(address)),
            ),
            opt_lote_views(flush) == old(self)@.handed_out(
                extracted(old(self)@.policy, old(self)@.lang, meta@, opt_view(address)),
            ),
            refused(old(self)@.policy, meta@) ==> flush is None && final(self)@.pending == old(
                self,
            )@.pending,
    {
        let extraction = extract_row(&self.policy, self.lang.as_str(), meta, address);
        self.take(extraction)
    }

    /// Offers the outcome of decoding one line. A line that did not decode is
    /// counted and skipped: no row is buffered, and the decoder's error comes back.
    pub fn offer_decoded(&mut self, decoded: Result<HostRecord, serde_json::Error>) -> (r: Result<
        Option<Vec<Lote>>,
        MadError,
    >)
        ensures
            match decoded {
                Ok(record) => r matches Ok(flush) && final(self)@ == old(self)@.after(
                    old(self)@.gives(record@),
                ) && opt_lote_views(flush) == old(self)@.handed_out(old(self)@.gives(record@)),
                Err(e) => r matches Err(MadError::SerdeJson(cause)) && cause == e && final(self)@
                    == old(self)@.after(ExtractionView::Undecodable),
            },
    {
        match decoded {
            Ok(record) => Ok(self.offer(&record.meta, record.url)),
            Err(e) => {
                self.take(Extraction::Undecodable);
                Err(MadError::from(e))
            },
        }
    }

    /// The rows that are still buffered when the file ends.
    pub fn finish(self) -> (rest: Vec<Lote>)
        ensures
            lote_views(rest@) == self@.pending,
    {
        self.pending
    }
}

/// Number of columns of the host table.
pub const HOST_COLUMNS: usize = 3;

/// The slots that a row of the host table fills, in the order of its schema.
pub open spec fn lote_cells(row: LoteView) -> Seq<Cell> {
    seq![Cell::Text(row.host), Cell::Text(row.lang), opt_cell(row.url)]
}

/// The slots of column `j` of the host table.
pub open spec fn lote_column(rows: Seq<LoteView>, j: int) -> Seq<Cell> {
    rows.map_values(|row: LoteView| lote_cells(row)[j])
}

/// The columns that rows of the host table give under its schema: three
/// columns of strings; host and language are required, the address may be null.
pub open spec fn lote_columns(rows: Seq<LoteView>) -> Seq<ColumnModel> {
    seq![
        ColumnModel {
            name: "host"@,
            kind: ColumnKind::Text,
            nullable: false,
            cells: lote_column(rows, 0),
        },
        ColumnModel {
            name: "lang"@,
            kind: ColumnKind::Text,
            nullable: false,
            cells: lote_column(rows, 1),
        },
        ColumnModel {
            name: "url"@,
            kind: ColumnKind::Text,
            nullable: true,
            cells: lote_column(rows, 2),
        },
    ]
}

/// The strings of each column of the host table fit into one buffer of the engine.
pub open spec fn lote_batch_fits(rows: Seq<LoteView>) -> bool {
    forall|j: int|
        0 <= j < HOST_COLUMNS ==> cells_bytes(#[trigger] lote_column(rows, j)) <= MAX_COLUMN_BYTES
}

/// A row more adds its slot to each column of the host table.
pub proof fn lemma_lote_column_push(rows: Seq<LoteView>, row: LoteView, j: int)
    ensures
        lote_column(rows.push(row), j) == lote_column(rows, j).push(lote_cells(row)[j]),
        cells_bytes(lote_column(rows.push(row), j)) == cells_bytes(lote_column(rows, j)) + cell_bytes(
            lote_cells(row)[j],
        ),
{
    let longer = lote_column(rows, j).push(lote_cells(row)[j]);
    assert(lote_column(rows.push(row), j) =~= longer);
    assert(longer.drop_last() =~= lote_column(rows, j));
}

/// The strings of the first rows take no more bytes than those of all rows.
pub proof fn lemma_lote_prefix_fits(rows: Seq<LoteView>, k: int)
    requires
        0 <= k <= rows.len(),
        lote_batch_fits(rows),
    ensures
        lote_batch_fits(rows.take(k)),
    decreases rows.len() - k,
{
    if k < rows.len() {
        lemma_lote_prefix_fits(rows, k + 1);
        assert(rows.take(k + 1) == rows.take(k).push(rows[k]));
        assert forall|j: int| 0 <= j < HOST_COLUMNS implies cells_bytes(
            #[trigger] lote_column(rows.take(k), j),
        ) <= MAX_COLUMN_BYTES by {
            lemma_lote_column_push(rows.take(k), rows[k], j);
            assert(cells_bytes(lote_column(rows.take(k + 1), j)) <= MAX_COLUMN_BYTES);
        }
    } else {
        assert(rows.take(k) == rows);
    }
}

/// Accumulates rows of the host table in one buffer for each column.
pub struct LoteBuilder {
    host: TextColumn,
    lang: TextColumn,
    url: TextColumn,
}

impl LoteBuilder {
    /// The slots of column `j`.
    pub closed spec fn cells(&self, j: int) -> Seq<Cell> {
        if j == 0 {
            text_cells(self.host)
        } else if j == 1 {
            text_cells(self.lang)
        } else {
            text_cells(self.url)
        }
    }

    /// Row `i` of the builder.
    pub closed spec fn row_at(&self, i: int) -> LoteView {
        LoteView {
            host: cell_text(self.cells(0)[i]),
            lang: cell_text(self.cells(1)[i]),
            url: cell_opt(self.cells(2)[i]),
        }
    }

    /// The rows that were appended.
    pub closed spec fn rows(&self) -> Seq<LoteView> {
        Seq::new(self.cells(0).len(), |i: int| self.row_at(i))
    }

    /// The invariant of a builder: each column holds the slots of its rows.
    pub closed spec fn wf(&self) -> bool {
        forall|j: int|
            0 <= j < HOST_COLUMNS ==> #[trigger] self.cells(j) == lote_column(self.rows(), j)
    }

    /// A builder without rows.
    pub fn new() -> (builder: LoteBuilder)
        ensures
            builder.wf(),
            builder.rows() == Seq::<LoteView>::empty(),
    {
        let builder = LoteBuilder { host: text_column(), lang: text_column(), url: text_column() };
        proof {
            assert(builder.rows() =~= Seq::<LoteView>::empty());
            assert forall|j: int| 0 <= j < HOST_COLUMNS implies #[trigger] builder.cells(j)
                == lote_column(builder.rows(), j) by {
                assert(builder.cells(j) =~= lote_column(builder.rows(), j));
            }
        }
        builder
    }

    /// Appends one row where the strings of each column still fit into the
    /// engine's buffer, and says whether it did.
    pub fn append(&mut self, lote: &Lote) -> (done: bool)
        requires
            old(self).wf(),
        ensures
            final(self).wf(),
            done == lote_batch_fits(old(self).rows().push(lote@)),
            done ==> final(self).rows() == old(self).rows().push(lote@),
            !done ==> final(self).rows() == old(self).rows(),
    {
        let ghost before = self.rows();
        let ghost next = before.push(lote@);
        proof {
            assert forall|j: int| 0 <= j < HOST_COLUMNS implies cells_bytes(
                #[trigger] lote_column(next, j),
            ) == cells_bytes(self.cells(j)) + cell_bytes(lote_cells(lote@)[j]) by {
                lemma_lote_column_push(before, lote@, j);
                assert(self.cells(j) == lote_column(before, j));
            }
        }
        let url_ok = match &lote.url {
            Some(u) => text_fits(&self.url, u.as_str()),
            None => text_bytes_used(&self.url) <= MAX_COLUMN_BYTES,
        };
        let ok = text_fits(&self.host, lote.host.as_str()) && text_fits(
            &self.lang,
            lote.lang.as_str(),
        ) && url_ok;
        proof {
            if ok {
                assert(cells_bytes(lote_column(next, 0)) <= MAX_COLUMN_BYTES);
                assert(cells_bytes(lote_column(next, 1)) <= MAX_COLUMN_BYTES);
                assert(cells_bytes(lote_column(next, 2)) <= MAX_COLUMN_BYTES);
            } else {
                assert(cells_bytes(lote_column(next, 0)) > MAX_COLUMN_BYTES || cells_bytes(
                    lote_column(next, 1),
                ) > MAX_COLUMN_BYTES || cells_bytes(lote_column(next, 2)) > MAX_COLUMN_BYTES);
            }
        }
        if !ok {
            return false;
        }
        push_text(&mut self.host, lote.host.as_str());
        push_text(&mut self.lang, lote.lang.as_str());
        push_opt_text(&mut self.url, lote.url.as_ref());
        proof {
            assert forall|j: int| 0 <= j < HOST_COLUMNS implies #[trigger] self.cells(j) == old(
                self,
            ).cells(j).push(lote_cells(lote@)[j]) by {}
            assert forall|i: int| 0 <= i < before.len() implies self.row_at(i) == before[i] by {
                assert(forall|j: int|
                    0 <= j < HOST_COLUMNS ==> (#[trigger] self.cells(j))[i] == old(self).cells(
                        j,
                    )[i]);
                assert(before[i] == old(self).row_at(i));
            }
            assert(self.row_at(before.len() as int) == lote@);
            assert(self.rows() =~= next);
            assert forall|j: int| 0 <= j < HOST_COLUMNS implies #[trigger] self.cells(j)
                == lote_column(self.rows(), j) by {
                lemma_lote_column_push(before, lote@, j);
                assert(old(self).cells(j) == lote_column(before, j));
            }
        }
        true
    }

    /// Finishes the rows into one array of structs under the schema of the
    /// host table. The builder is used up: the next batch needs a new builder.
    pub fn finish(self) -> (array: StructColumns)
        requires
            self.wf(),
        ensures
            struct_columns(array) == lote_columns(self.rows()),
            struct_nulls(array) == 0,
    {
        let ghost rows = self.rows();
        let mut buffers = self;
        let mut columns: Vec<NamedColumn> = Vec::new();
        columns.push(finish_text(&mut buffers.host, "host", false));
        columns.push(finish_text(&mut buffers.lang, "lang", false));
        columns.push(finish_text(&mut buffers.url, "url", true));
        proof {
            let models = column_models(columns@);
            assert forall|j: int| 0 <= j < HOST_COLUMNS implies #[trigger] models[j]
                == lote_columns(rows)[j] by {
                assert(self.cells(j) == lote_column(rows, j));
            }
            assert(models =~= lote_columns(rows));
            assert forall|j: int| 0 <= j < models.len() && !(#[trigger] models[j]).nullable implies no_nulls(
                models[j].cells,
            ) by {
                assert(models[j] == lote_columns(rows)[j]);
            }
        }
        struct_of(columns)
    }
}

/// Lays rows of the host table out in one batch under its schema, unless
/// the strings of some column do not fit into one buffer of the engine.
pub fn lotes_to_batch(rows: &[Lote]) -> (batch: Option<RowBatch>)
    ensures
        batch is Some <==> lote_batch_fits(lote_views(rows@)),
        batch matches Some(b) ==> batch_columns(b) == lote_columns(lote_views(rows@)),
{
    let ghost all = lote_views(rows@);
    let mut builder = LoteBuilder::new();
    let mut i: usize = 0;
    assert(all.take(0) =~= Seq::<LoteView>::empty());
    while i < rows.len()
        invariant
            i <= rows.len(),
            builder.wf(),
            all == lote_views(rows@),
            builder.rows() == all.take(i as int),
            lote_batch_fits(all.take(i as int)),
        decreases rows.len() - i,
    {
        proof {
            assert(all.take(i + 1) =~= all.take(i as int).push(rows@[i as int]@));
        }
        if !builder.append(&rows[i]) {
            proof {
                if lote_batch_fits(all) {
                    lemma_lote_prefix_fits(all, i + 1);
                }
            }
            return None;
        }
        i += 1;
    }
    assert(all.take(i as int) =~= all);
    let array = builder.finish();
    Some(batch_of(&array))
}

} // verus!
