//! The column buffers of the columnar engine, and what they hold.
//!
//! The buffers, the struct array and the record batch are values of the
//! engine. What each holds is named here as plain values, and each call into
//! the engine states over those names what the engine does.

use arrow::array::{ArrayRef, BooleanBuilder, RecordBatch, StringBuilder, StructArray};
use arrow::datatypes::{DataType, Field, FieldRef};
use std::sync::Arc;
use vstd::prelude::*;

verus! {

/// The engine's buffer of strings. Its type has parameters bound by traits
/// of the engine, which cannot be declared; it is held here.
#[verifier::external_body]
pub struct TextColumn {
    inner: StringBuilder,
}

/// The engine's buffer of booleans.
#[verifier::external_type_specification]
#[verifier::external_body]
pub struct ExBooleanBuilder(BooleanBuilder);

/// A finished column of the engine together with its field. The engine's
/// array is a trait object, which cannot be declared; it is held here.
#[verifier::external_body]
pub struct NamedColumn {
    field: FieldRef,
    values: ArrayRef,
}

/// The engine's array of structs: columns of equal length, each with a
/// field. The engine indexes it by trait objects, so it is held here.
#[verifier::external_body]
pub struct StructColumns {
    pub array: StructArray,
}

/// The engine's batch of rows, held here for the same reason.
#[verifier::external_body]
pub struct RowBatch {
    pub batch: RecordBatch,
}

/// One slot of a column.
pub ghost enum Cell {
    Null,
    Text(Seq<char>),
    Flag(bool),
}

/// The type of the values of a column.
pub ghost enum ColumnKind {
    /// Strings in UTF-8.
    Text,
    /// Booleans.
    Flag,
}

/// A column as plain values.
pub ghost struct ColumnModel {
    pub name: Seq<char>,
    pub kind: ColumnKind,
    pub nullable: bool,
    pub cells: Seq<Cell>,
}

/// The slots of a string buffer, in the order in which they were appended.
pub uninterp spec fn text_cells(b: TextColumn) -> Seq<Cell>;

/// The slots of a boolean buffer, in the order in which they were appended.
pub uninterp spec fn flag_cells(b: BooleanBuilder) -> Seq<Cell>;

/// The name, the type, the nullability and the slots of a finished column.
pub uninterp spec fn column_model(c: NamedColumn) -> ColumnModel;

/// The columns of a struct array, in order.
pub uninterp spec fn struct_columns(a: StructColumns) -> Seq<ColumnModel>;

/// The number of rows of a struct array that are null as a whole.
pub uninterp spec fn struct_nulls(a: StructColumns) -> nat;

/// The columns of a record batch, in order.
pub uninterp spec fn batch_columns(b: RowBatch) -> Seq<ColumnModel>;

/// Most bytes that the strings of one column may have together: the engine
/// keeps their offsets as 32-bit signed integers.
pub const MAX_COLUMN_BYTES: usize = 0x7fff_ffff;

/// The number of bytes of a string in UTF-8.
pub open spec fn utf8_len(s: Seq<char>) -> nat {
    vstd::utf8::encode_utf8(s).len()
}

/// The bytes that a slot adds to its column.
pub open spec fn cell_bytes(c: Cell) -> nat {
    match c {
        Cell::Text(s) => utf8_len(s),
        _ => 0,
    }
}

/// The bytes of all strings of a column.
pub open spec fn cells_bytes(cells: Seq<Cell>) -> nat
    decreases cells.len(),
{
    if cells.len() == 0 {
        0
    } else {
        cells_bytes(cells.drop_last()) + cell_bytes(cells.last())
    }
}

/// The slot that an optional string fills.
pub open spec fn opt_cell(o: Option<Seq<char>>) -> Cell {
    match o {
        Some(s) => Cell::Text(s),
        None => Cell::Null,
    }
}

/// No slot of the column is null.
pub open spec fn no_nulls(cells: Seq<Cell>) -> bool {
    forall|i: int| 0 <= i < cells.len() ==> cells[i] != Cell::Null
}

/// `GenericByteBuilder::new` of arrow. Believed, not proved: the new buffer holds no slot.
#[verifier::external_body]
pub(crate) fn text_column() -> (b: TextColumn)
    ensures
        text_cells(b) == Seq::<Cell>::empty(),
{
    TextColumn { inner: StringBuilder::new() }
}

/// `BooleanBuilder::new` of arrow. Believed, not proved: the new buffer holds no slot.
#[verifier::external_body]
pub(crate) fn flag_column() -> (b: BooleanBuilder)
    ensures
        flag_cells(b) == Seq::<Cell>::empty(),
{
    BooleanBuilder::new()
}

/// `GenericByteBuilder::values_slice` of arrow, by its length. Believed, not
/// proved: the values buffer holds the bytes of the strings appended so far.
#[verifier::external_body]
pub(crate) fn text_bytes_used(b: &TextColumn) -> (n: usize)
    ensures
        n == cells_bytes(text_cells(*b)),
{
    b.inner.values_slice().len()
}

/// Whether a string may still be appended to a column: the bytes of the
/// column must stay within the largest offset.
pub(crate) fn text_fits(column: &TextColumn, value: &str) -> (ok: bool)
    ensures
        ok == (cells_bytes(text_cells(*column)) + utf8_len(value@) <= MAX_COLUMN_BYTES),
{
    let used = text_bytes_used(column);
    let more = value.as_bytes().len();
    used <= MAX_COLUMN_BYTES && more <= MAX_COLUMN_BYTES - used
}

/// `GenericByteBuilder::append_value` of arrow. Believed, not proved: the
/// string becomes the last slot. The call panics where the bytes of the
/// column would exceed the largest offset, which `requires` leaves out.
#[verifier::external_body]
pub(crate) fn push_text(b: &mut TextColumn, v: &str)
    requires
        cells_bytes(text_cells(*old(b))) + utf8_len(v@) <= MAX_COLUMN_BYTES,
    ensures
        text_cells(*final(b)) == text_cells(*old(b)).push(Cell::Text(v@)),
{
    b.inner.append_value(v)
}

/// `GenericByteBuilder::append_option` of arrow. Believed, not proved: the
/// string becomes the last slot, or a null slot where there is none. The call
/// panics as `append_value` does, which `requires` leaves out.
#[verifier::external_body]
pub(crate) fn push_opt_text(b: &mut TextColumn, v: Option<&String>)
    requires
        v matches Some(s) ==> cells_bytes(text_cells(*old(b))) + utf8_len(s@)
            <= MAX_COLUMN_BYTES,
    ensures
        text_cells(*final(b)) == text_cells(*old(b)).push(
            match v {
                Some(s) => Cell::Text(s@),
                None => Cell::Null,
            },
        ),
{
    b.inner.append_option(v)
}

/// `BooleanBuilder::append_value` of arrow. Believed, not proved: the value
/// becomes the last slot.
#[verifier::external_body]
pub(crate) fn push_flag(b: &mut BooleanBuilder, v: bool)
    ensures
        flag_cells(*final(b)) == flag_cells(*old(b)).push(Cell::Flag(v)),
{
    b.append_value(v)
}

/// `GenericByteBuilder::finish` of arrow, with `Field::new` for the column's
/// field. Believed, not proved: the column is a column of strings and holds
/// the slots that the buffer held, under the given name and nullability.
#[verifier::external_body]
pub(crate) fn finish_text(b: &mut TextColumn, name: &str, nullable: bool) -> (c: NamedColumn)
    ensures
        column_model(c) == (ColumnModel {
            name: name@,
            kind: ColumnKind::Text,
            nullable,
            cells: text_cells(*old(b)),
        }),
{
    let values: ArrayRef = Arc::new(b.inner.finish());
    NamedColumn { field: Arc::new(Field::new(name, DataType::Utf8, nullable)), values }
}

/// `BooleanBuilder::finish` of arrow, with `Field::new` for the column's
/// field. Believed, not proved: the column is a column of booleans and holds
/// the slots that the buffer held, under the given name and nullability.
#[verifier::external_body]
pub(crate) fn finish_flags(b: &mut BooleanBuilder, name: &str, nullable: bool) -> (c: NamedColumn)
    ensures
        column_model(c) == (ColumnModel {
            name: name@,
            kind: ColumnKind::Flag,
            nullable,
            cells: flag_cells(*old(b)),
        }),
{
    let values: ArrayRef = Arc::new(b.finish());
    NamedColumn { field: Arc::new(Field::new(name, DataType::Boolean, nullable)), values }
}

/// The models of a sequence of columns.
pub open spec fn column_models(columns: Seq<NamedColumn>) -> Seq<ColumnModel> {
    columns.map_values(|c: NamedColumn| column_model(c))
}

/// The columns can stand together in one struct array: there is at least
/// one, all have the same length, and none that is not nullable has a null.
pub open spec fn columns_agree(columns: Seq<ColumnModel>) -> bool {
    &&& columns.len() > 0
    &&& forall|j: int|
        0 <= j < columns.len() ==> (#[trigger] columns[j]).cells.len() == columns[0].cells.len()
    &&& forall|j: int|
        0 <= j < columns.len() && !(#[trigger] columns[j]).nullable ==> no_nulls(columns[j].cells)
}

/// `StructArray::from` of arrow, on pairs of field and array. Believed, not
/// proved: the struct array holds the columns in the given order, and none of
/// its rows is null as a whole. The call panics on no column, on columns of
/// different lengths and on a null in a column that is not nullable, which
/// `requires` leaves out; a finished column always has the type of its field.
#[verifier::external_body]
pub(crate) fn struct_of(columns: Vec<NamedColumn>) -> (a: StructColumns)
    requires
        columns_agree(column_models(columns@)),
    ensures
        struct_columns(a) == column_models(columns@),
        struct_nulls(a) == 0,
{
    let pairs: Vec<(FieldRef, ArrayRef)> = columns.into_iter().map(|c| (c.field, c.values)).collect();
    StructColumns { array: StructArray::from(pairs) }
}

/// `RecordBatch::from` of arrow, on a struct array. Believed, not proved: the
/// batch holds the columns of the struct array. The call panics where a row
/// of the struct array is null as a whole, which `requires` leaves out.
#[verifier::external_body]
pub(crate) fn batch_of(a: &StructColumns) -> (b: RowBatch)
    requires
        struct_nulls(*a) == 0,
    ensures
        batch_columns(b) == struct_columns(*a),
{
    RowBatch { batch: RecordBatch::from(&a.array) }
}

} // verus!
