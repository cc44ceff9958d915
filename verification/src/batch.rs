//! The batch builder of the sample: rows are laid out in nine columns under
//! a fixed schema, and finished into one batch.

use crate::columns::{
    batch_columns, batch_of, cell_bytes, cells_bytes, column_models, finish_flags, finish_text,
    flag_cells, flag_column, no_nulls, opt_cell, push_flag, push_opt_text, push_text, struct_columns,
    struct_nulls, struct_of, text_bytes_used, text_cells, text_column, text_fits, Cell, ColumnKind,
    ColumnModel, NamedColumn, RowBatch, StructColumns, TextColumn, MAX_COLUMN_BYTES,
};
use crate::tag::opt_view;
use crate::schemas::{doc_views, Document, DocumentView};
use arrow::array::BooleanBuilder;
use vstd::prelude::*;

verus! {

/// Number of columns of the schema.
pub const COLUMNS: usize = 9;

/// The slots that a row fills, one in each column, in the order of the schema.
pub open spec fn row_cells(row: DocumentView) -> Seq<Cell> {
    seq![
        Cell::Text(row.text),
        Cell::Text(row.lang),
        opt_cell(row.script),
        opt_cell(row.locale),
        opt_cell(row.timestamp),
        opt_cell(row.url),
        Cell::Flag(row.clean),
        Cell::Text(row.source),
        Cell::Text(row.version),
    ]
}

/// The slots of column `j` that the rows fill, in the order of the rows.
pub open spec fn column_cells(rows: Seq<DocumentView>, j: int) -> Seq<Cell> {
    rows.map_values(|row: DocumentView| row_cells(row)[j])
}

/// The names of the columns.
pub open spec fn field_names() -> Seq<Seq<char>> {
    seq![
        "text"@,
        "lang"@,
        "script"@,
        "locale"@,
        "timestamp"@,
        "url"@,
        "clean"@,
        "source"@,
        "version"@,
    ]
}

/// The types of the columns: `clean` is boolean, the others are strings.
pub open spec fn field_kinds() -> Seq<ColumnKind> {
    seq![
        ColumnKind::Text,
        ColumnKind::Text,
        ColumnKind::Text,
        ColumnKind::Text,
        ColumnKind::Text,
        ColumnKind::Text,
        ColumnKind::Flag,
        ColumnKind::Text,
        ColumnKind::Text,
    ]
}

/// Which columns may hold a null: those of the optional fields.
pub open spec fn field_nullable() -> Seq<bool> {
    seq![false, false, true, true, true, true, false, false, false]
}

/// The columns that the rows give under the schema.
pub open spec fn mad_columns(rows: Seq<DocumentView>) -> Seq<ColumnModel> {
    Seq::new(
        COLUMNS as nat,
        |j: int|
            ColumnModel {
                name: field_names()[j],
                kind: field_kinds()[j],
                nullable: field_nullable()[j],
                cells: column_cells(rows, j),
            },
    )
}

/// The strings of each column fit into one buffer of the engine.
pub open spec fn batch_fits(rows: Seq<DocumentView>) -> bool {
    forall|j: int| 0 <= j < COLUMNS ==> cells_bytes(#[trigger] column_cells(rows, j)) <= MAX_COLUMN_BYTES
}

/// A row more adds its slot to each column.
pub proof fn lemma_column_push(rows: Seq<DocumentView>, row: DocumentView, j: int)
    ensures
        column_cells(rows.push(row), j) == column_cells(rows, j).push(row_cells(row)[j]),
        cells_bytes(column_cells(rows.push(row), j)) == cells_bytes(column_cells(rows, j))
            + cell_bytes(row_cells(row)[j]),
{
    let longer = column_cells(rows, j).push(row_cells(row)[j]);
    assert(column_cells(rows.push(row), j) =~= longer);
    assert(longer.drop_last() =~= column_cells(rows, j));
}

/// The strings of the first rows take no more bytes than those of all rows.
pub proof fn lemma_prefix_bytes(rows: Seq<DocumentView>, k: int, j: int)
    requires
        0 <= k <= rows.len(),
    ensures
        cells_bytes(column_cells(rows.take(k), j)) <= cells_bytes(column_cells(rows, j)),
    decreases rows.len() - k,
{
    if k < rows.len() {
        lemma_prefix_bytes(rows, k + 1, j);
        assert(rows.take(k + 1) == rows.take(k).push(rows[k]));
        lemma_column_push(rows.take(k), rows[k], j);
    } else {
        assert(rows.take(k) == rows);
    }
}

/// Rows that fit still fit when the last ones are left out.
pub proof fn lemma_prefix_fits(rows: Seq<DocumentView>, k: int)
    requires
        0 <= k <= rows.len(),
        batch_fits(rows),
    ensures
        batch_fits(rows.take(k)),
{
    assert forall|j: int| 0 <= j < COLUMNS implies cells_bytes(
        #[trigger] column_cells(rows.take(k), j),
    ) <= MAX_COLUMN_BYTES by {
        lemma_prefix_bytes(rows, k, j);
        assert(cells_bytes(column_cells(rows, j)) <= MAX_COLUMN_BYTES);
    }
}

/// The string of a slot, where it holds one.
pub open spec fn cell_text(c: Cell) -> Seq<char> {
    match c {
        Cell::Text(s) => s,
        _ => Seq::empty(),
    }
}

/// The optional string of a slot.
pub open spec fn cell_opt(c: Cell) -> Option<Seq<char>> {
    match c {
        Cell::Text(s) => Some(s),
        _ => None,
    }
}

/// The boolean of a slot, where it holds one.
pub open spec fn cell_flag(c: Cell) -> bool {
    c matches Cell::Flag(b) && b
}

/// Accumulates rows in one buffer for each column of the schema.
pub struct MadBuilder {
    text: TextColumn,
    lang: TextColumn,
    script: TextColumn,
    locale: TextColumn,
    timestamp: TextColumn,
    url: TextColumn,
    clean: BooleanBuilder,
    source: TextColumn,
    version: TextColumn,
}

/// Whether an optional string may still be appended to a column.
fn opt_fits(column: &TextColumn, value: &Option<String>) -> (ok: bool)
    ensures
        ok == (cells_bytes(text_cells(*column)) + cell_bytes(opt_cell(opt_view(*value)))
            <= MAX_COLUMN_BYTES),
{
    match value {
        Some(s) => text_fits(column, s.as_str()),
        None => text_bytes_used(column) <= MAX_COLUMN_BYTES,
    }
}

impl MadBuilder {
    /// The slots of column `j`.
    pub closed spec fn cells(&self, j: int) -> Seq<Cell> {
        if j == 0 {
            text_cells(self.text)
        } else if j == 1 {
            text_cells(self.lang)
        } else if j == 2 {
            text_cells(self.script)
        } else if j == 3 {
            text_cells(self.locale)
        } else if j == 4 {
            text_cells(self.timestamp)
        } else if j == 5 {
            text_cells(self.url)
        } else if j == 6 {
            flag_cells(self.clean)
        } else if j == 7 {
            text_cells(self.source)
        } else {
            text_cells(self.version)
        }
    }

    /// Row `i` of the builder.
    pub closed spec fn row_at(&self, i: int) -> DocumentView {
        DocumentView {
            text: cell_text(self.cells(0)[i]),
            lang: cell_text(self.cells(1)[i]),
            script: cell_opt(self.cells(2)[i]),
            locale: cell_opt(self.cells(3)[i]),
            timestamp: cell_opt(self.cells(4)[i]),
            url: cell_opt(self.cells(5)[i]),
            clean: cell_flag(self.cells(6)[i]),
            source: cell_text(self.cells(7)[i]),
            version: cell_text(self.cells(8)[i]),
        }
    }

    /// The rows that were appended.
    pub closed spec fn rows(&self) -> Seq<DocumentView> {
        Seq::new(self.cells(0).len(), |i: int| self.row_at(i))
    }

    /// The invariant of a builder: each column holds the slots of its rows,
    /// so that row and column correspond.
    pub closed spec fn wf(&self) -> bool {
        forall|j: int| 0 <= j < COLUMNS ==> #[trigger] self.cells(j) == column_cells(self.rows(), j)
    }

    /// A builder without rows.
    pub fn new() -> (builder: MadBuilder)
        ensures
            builder.wf(),
            builder.rows() == Seq::<DocumentView>::empty(),
    {
        let builder = MadBuilder {
            text: text_column(),
            lang: text_column(),
            script: text_column(),
            locale: text_column(),
            timestamp: text_column(),
            url: text_column(),
            clean: flag_column(),
            source: text_column(),
            version: text_column(),
        };
        proof {
            assert(builder.rows() =~= Seq::<DocumentView>::empty());
            assert forall|j: int| 0 <= j < COLUMNS implies #[trigger] builder.cells(j)
                == column_cells(builder.rows(), j) by {
                assert(builder.cells(j) =~= column_cells(builder.rows(), j));
            }
        }
        builder
    }

    /// Whether the builder can take the row: the strings of each column must
    /// still fit into the engine's buffer.
    pub fn fits(&self, document: &Document) -> (ok: bool)
        requires
            self.wf(),
        ensures
            ok == batch_fits(self.rows().push(document@)),
    {
        proof {
            assert forall|j: int| 0 <= j < COLUMNS implies cells_bytes(
                #[trigger] column_cells(self.rows().push(document@), j),
            ) == cells_bytes(self.cells(j)) + cell_bytes(row_cells(document@)[j]) by {
                lemma_column_push(self.rows(), document@, j);
                assert(self.cells(j) == column_cells(self.rows(), j));
            }
            assert(cells_bytes(flag_cells(self.clean)) + 0 == cells_bytes(self.cells(6)));
        }
        let ok = text_fits(&self.text, document.text.as_str()) && text_fits(
            &self.lang,
            document.lang.as_str(),
        ) && opt_fits(&self.script, &document.script) && opt_fits(&self.locale, &document.locale)
            && opt_fits(&self.timestamp, &document.timestamp) && opt_fits(&self.url, &document.url)
            && text_fits(&self.source, document.source.as_str()) && text_fits(
            &self.version,
            document.version.as_str(),
        );
        proof {
            let next = self.rows().push(document@);
            if ok {
                assert(cells_bytes(column_cells(next, 0)) <= MAX_COLUMN_BYTES);
                assert(cells_bytes(column_cells(next, 1)) <= MAX_COLUMN_BYTES);
                assert(cells_bytes(column_cells(next, 2)) <= MAX_COLUMN_BYTES);
                assert(cells_bytes(column_cells(next, 3)) <= MAX_COLUMN_BYTES);
                assert(cells_bytes(column_cells(next, 4)) <= MAX_COLUMN_BYTES);
                assert(cells_bytes(column_cells(next, 5)) <= MAX_COLUMN_BYTES);
                assert(cells_bytes(column_cells(next, 7)) <= MAX_COLUMN_BYTES);
                assert(cells_bytes(column_cells(next, 8)) <= MAX_COLUMN_BYTES);
                lemma_flags_take_no_bytes(column_cells(next, 6));
            } else {
                assert(cells_bytes(column_cells(next, 0)) > MAX_COLUMN_BYTES || cells_bytes(
                    column_cells(next, 1),
                ) > MAX_COLUMN_BYTES || cells_bytes(column_cells(next, 2)) > MAX_COLUMN_BYTES
                    || cells_bytes(column_cells(next, 3)) > MAX_COLUMN_BYTES || cells_bytes(
                    column_cells(next, 4),
                ) > MAX_COLUMN_BYTES || cells_bytes(column_cells(next, 5)) > MAX_COLUMN_BYTES
                    || cells_bytes(column_cells(next, 7)) > MAX_COLUMN_BYTES || cells_bytes(
                    column_cells(next, 8),
                ) > MAX_COLUMN_BYTES);
            }
        }
        ok
    }

    /// Appends one row: each of its fields goes to the end of its column.
    pub fn append(&mut self, document: &Document)
        requires
            old(self).wf(),
            batch_fits(old(self).rows().push(document@)),
        ensures
            final(self).wf(),
            final(self).rows() == old(self).rows().push(document@),
    {
        let ghost before = self.rows();
        let ghost next = before.push(document@);
        proof {
            assert forall|j: int| 0 <= j < COLUMNS implies cells_bytes(#[trigger] self.cells(j))
                + cell_bytes(row_cells(document@)[j]) <= MAX_COLUMN_BYTES by {
                lemma_column_push(before, document@, j);
                assert(self.cells(j) == column_cells(before, j));
                assert(cells_bytes(column_cells(next, j)) <= MAX_COLUMN_BYTES);
            }
            assert(cells_bytes(self.cells(0)) + cell_bytes(row_cells(document@)[0])
                <= MAX_COLUMN_BYTES);
            assert(cells_bytes(self.cells(1)) + cell_bytes(row_cells(document@)[1])
                <= MAX_COLUMN_BYTES);
            assert(cells_bytes(self.cells(2)) + cell_bytes(row_cells(document@)[2])
                <= MAX_COLUMN_BYTES);
            assert(cells_bytes(self.cells(3)) + cell_bytes(row_cells(document@)[3])
                <= MAX_COLUMN_BYTES);
            assert(cells_bytes(self.cells(4)) + cell_bytes(row_cells(document@)[4])
                <= MAX_COLUMN_BYTES);
            assert(cells_bytes(self.cells(5)) + cell_bytes(row_cells(document@)[5])
                <= MAX_COLUMN_BYTES);
            assert(cells_bytes(self.cells(7)) + cell_bytes(row_cells(document@)[7])
                <= MAX_COLUMN_BYTES);
            assert(cells_bytes(self.cells(8)) + cell_bytes(row_cells(document@)[8])
                <= MAX_COLUMN_BYTES);
        }
        push_text(&mut self.text, document.text.as_str());
        push_text(&mut self.lang, document.lang.as_str());
        push_opt_text(&mut self.script, document.script.as_ref());
        push_opt_text(&mut self.locale, document.locale.as_ref());
        push_opt_text(&mut self.timestamp, document.timestamp.as_ref());
        push_opt_text(&mut self.url, document.url.as_ref());
        push_flag(&mut self.clean, document.clean);
        push_text(&mut self.source, document.source.as_str());
        push_text(&mut self.version, document.version.as_str());
        proof {
            assert forall|j: int| 0 <= j < COLUMNS implies #[trigger] self.cells(j) == old(
                self,
            ).cells(j).push(row_cells(document@)[j]) by {}
            assert forall|i: int| 0 <= i < before.len() implies self.row_at(i) == before[i] by {
                assert(forall|j: int| 0 <= j < COLUMNS ==> (#[trigger] self.cells(j))[i] == old(
                    self,
                ).cells(j)[i]);
                assert(before[i] == old(self).row_at(i));
            }
            assert(self.row_at(before.len() as int) == document@);
            assert(self.rows() =~= next);
            assert forall|j: int| 0 <= j < COLUMNS implies #[trigger] self.cells(j) == column_cells(
                self.rows(),
                j,
            ) by {
                lemma_column_push(before, document@, j);
                assert(old(self).cells(j) == column_cells(before, j));
            }
        }
    }

    /// Appends the row where it fits, and says whether it did.
    pub fn try_append(&mut self, document: &Document) -> (done: bool)
        requires
            old(self).wf(),
        ensures
            final(self).wf(),
            done == batch_fits(old(self).rows().push(document@)),
            done ==> final(self).rows() == old(self).rows().push(document@),
            !done ==> final(self).rows() == old(self).rows(),
    {
        if self.fits(document) {
            self.append(document);
            true
        } else {
            false
        }
    }

    /// Appends the rows in order.
    pub fn extend(&mut self, rows: &[Document])
        requires
            old(self).wf(),
            batch_fits(old(self).rows() + doc_views(rows@)),
        ensures
            final(self).wf(),
            final(self).rows() == old(self).rows() + doc_views(rows@),
    {
        let ghost all = old(self).rows() + doc_views(rows@);
        let ghost had = old(self).rows().len() as int;
        let mut i: usize = 0;
        assert(all.take(had) =~= old(self).rows());
        while i < rows.len()
            invariant
                i <= rows.len(),
                self.wf(),
                all == old(self).rows() + doc_views(rows@),
                had == old(self).rows().len(),
                batch_fits(all),
                self.rows() == all.take(had + i),
            decreases rows.len() - i,
        {
            proof {
                assert(all.take(had + i + 1) =~= all.take(had + i).push(rows@[i as int]@));
                lemma_prefix_fits(all, had + i + 1);
            }
            self.append(&rows[i]);
            i += 1;
        }
        assert(all.take(had + i) =~= all);
    }

    /// Finishes the rows into one array of structs under the schema. The
    /// builder is used up: the next batch needs a new builder.
    pub fn finish(self) -> (array: StructColumns)
        requires
            self.wf(),
        ensures
            struct_columns(array) == mad_columns(self.rows()),
            struct_nulls(array) == 0,
    {
        let ghost rows = self.rows();
        let mut buffers = self;
        let mut columns: Vec<NamedColumn> = Vec::new();
        columns.push(finish_text(&mut buffers.text, "text", false));
        columns.push(finish_text(&mut buffers.lang, "lang", false));
        columns.push(finish_text(&mut buffers.script, "script", true));
        columns.push(finish_text(&mut buffers.locale, "locale", true));
        columns.push(finish_text(&mut buffers.timestamp, "timestamp", true));
        columns.push(finish_text(&mut buffers.url, "url", true));
        columns.push(finish_flags(&mut buffers.clean, "clean", false));
        columns.push(finish_text(&mut buffers.source, "source", false));
        columns.push(finish_text(&mut buffers.version, "version", false));
        proof {
            let models = column_models(columns@);
            assert forall|j: int| 0 <= j < COLUMNS implies #[trigger] models[j] == mad_columns(
                rows,
            )[j] by {
                assert(self.cells(j) == column_cells(rows, j));
            }
            assert(models =~= mad_columns(rows));
            assert forall|j: int| 0 <= j < models.len() && !(#[trigger] models[j]).nullable implies no_nulls(
                models[j].cells,
            ) by {
                assert(models[j] == mad_columns(rows)[j]);
            }
        }
        struct_of(columns)
    }
}

impl Default for MadBuilder {
    fn default() -> (builder: MadBuilder)
        ensures
            builder.wf(),
            builder.rows() == Seq::<DocumentView>::empty(),
    {
        MadBuilder::new()
    }
}

/// Lays the rows out in one batch under the schema. Row `i` of the batch is
/// row `i` of the slice, and column `j` holds field `j` of every row.
pub fn rows_to_batch(rows: &[Document]) -> (batch: RowBatch)
    requires
        batch_fits(doc_views(rows@)),
    ensures
        batch_columns(batch) == mad_columns(doc_views(rows@)),
{
    let mut builder = MadBuilder::new();
    assert(builder.rows() + doc_views(rows@) =~= doc_views(rows@));
    builder.extend(rows);
    let array = builder.finish();
    batch_of(&array)
}

/// Lays the rows out in one batch, unless the strings of some column do not
/// fit into one buffer of the engine.
pub fn try_rows_to_batch(rows: &[Document]) -> (batch: Option<RowBatch>)
    ensures
        batch is Some <==> batch_fits(doc_views(rows@)),
        batch matches Some(b) ==> batch_columns(b) == mad_columns(doc_views(rows@)),
{
    let ghost all = doc_views(rows@);
    let mut builder = MadBuilder::new();
    let mut i: usize = 0;
    assert(all.take(0) =~= Seq::<DocumentView>::empty());
    while i < rows.len()
        invariant
            i <= rows.len(),
            builder.wf(),
            all == doc_views(rows@),
            builder.rows() == all.take(i as int),
            batch_fits(all.take(i as int)),
        decreases rows.len() - i,
    {
        proof {
            assert(all.take(i + 1) =~= all.take(i as int).push(rows@[i as int]@));
        }
        if !builder.try_append(&rows[i]) {
            proof {
                if batch_fits(all) {
                    lemma_prefix_fits(all, i + 1);
                }
            }
            return None;
        }
        i += 1;
    }
    assert(all.take(i as int) =~= all);
    let array = builder.finish();
    Some(batch_of(&array))
}

/// The schema is the same for every batch, also for one without rows: nine
/// columns in a fixed order, `clean` boolean and the others strings, and
/// nullable exactly the four columns of the optional fields.
pub proof fn lemma_schema_is_fixed(rows: Seq<DocumentView>)
    ensures
        mad_columns(rows).len() == 9,
        forall|j: int|
            0 <= j < 9 ==> (#[trigger] mad_columns(rows)[j]).name == field_names()[j]
                && mad_columns(rows)[j].cells.len() == rows.len(),
        forall|j: int|
            0 <= j < 9 ==> ((#[trigger] mad_columns(rows)[j]).kind == ColumnKind::Flag <==> j == 6),
        forall|j: int|
            0 <= j < 9 ==> ((#[trigger] mad_columns(rows)[j]).kind == ColumnKind::Text <==> j != 6),
        forall|j: int|
            0 <= j < 9 ==> ((#[trigger] mad_columns(rows)[j]).nullable <==> 2 <= j <= 5),
{
}

/// Where every row has text, every slot of the text column of the batch
/// holds a string that is not empty: no document without text reaches a batch.
pub proof fn lemma_text_column_has_text(rows: Seq<DocumentView>)
    requires
        forall|i: int| 0 <= i < rows.len() ==> (#[trigger] rows[i]).text.len() > 0,
    ensures
        mad_columns(rows)[0].name == "text"@,
        mad_columns(rows)[0].cells.len() == rows.len(),
        forall|i: int|
            0 <= i < rows.len() ==> cell_text(#[trigger] mad_columns(rows)[0].cells[i]).len() > 0,
{
    assert forall|i: int| 0 <= i < rows.len() implies cell_text(
        #[trigger] mad_columns(rows)[0].cells[i],
    ).len() > 0 by {
        assert(mad_columns(rows)[0].cells[i] == row_cells(rows[i])[0]);
    }
}

/// A column without strings takes no bytes.
pub proof fn lemma_flags_take_no_bytes(cells: Seq<Cell>)
    requires
        forall|i: int| 0 <= i < cells.len() ==> !(#[trigger] cells[i] is Text),
    ensures
        cells_bytes(cells) == 0,
    decreases cells.len(),
{
    if cells.len() > 0 {
        lemma_flags_take_no_bytes(cells.drop_last());
    }
}

} // verus!
