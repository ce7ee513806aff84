//! Errors of schema construction and of the write-compatibility check.

use vstd::prelude::*;
use crate::arrow::ArrowSchemaMetaKey;
use crate::column_schema::{ColumnId, CompatErrorView};
use crate::datum::DatumKind;

verus! {

/// Why a schema could not be constructed.
#[derive(Debug)]
pub enum Error {
    ProjectionTooLong { max: usize, given: usize },
    InvalidProjectionIndex { max: usize, given: usize },
    ProjectionMissTimestamp,
    /// A column of this name was added before.
    ColumnNameExists { name: String },
    /// A column of this id was added before.
    ColumnIdExists { name: String, id: ColumnId },
    /// The kind of the column cannot take part in a key.
    KeyColumnType { name: String, kind: DatumKind },
    /// A timestamp key column was added before.
    TimestampKeyExists { timestamp_column: String, given_column: String },
    /// No key column of timestamp kind was added.
    MissingTimestampKey,
    /// Key columns refuse nulls.
    NullKeyColumn { name: String },
    /// The kind of a field of a columnar schema is not supported.
    InvalidArrowField { field_name: String },
    /// The synthetic key is enabled but the columns do not provide for it.
    InvalidTsidSchema,
    /// A metadata entry is present but its value cannot be read.
    InvalidArrowSchemaMetaValue { key: ArrowSchemaMetaKey, raw_value: String },
    /// A metadata entry is absent.
    ArrowSchemaMetaKeyNotFound { key: ArrowSchemaMetaKey },
}

/// Mathematical value of an [`Error`].
pub enum ErrorView {
    ProjectionTooLong { max: usize, given: usize },
    InvalidProjectionIndex { max: usize, given: usize },
    ProjectionMissTimestamp,
    ColumnNameExists { name: Seq<char> },
    ColumnIdExists { name: Seq<char>, id: ColumnId },
    KeyColumnType { name: Seq<char>, kind: DatumKind },
    TimestampKeyExists { timestamp_column: Seq<char>, given_column: Seq<char> },
    MissingTimestampKey,
    NullKeyColumn { name: Seq<char> },
    InvalidArrowField { field_name: Seq<char> },
    InvalidTsidSchema,
    InvalidArrowSchemaMetaValue { key: ArrowSchemaMetaKey, raw_value: Seq<char> },
    ArrowSchemaMetaKeyNotFound { key: ArrowSchemaMetaKey },
}

impl View for Error {
    type V = ErrorView;

    open spec fn view(&self) -> ErrorView {
        match *self {
            Error::ProjectionTooLong { max, given } => ErrorView::ProjectionTooLong { max, given },
            Error::InvalidProjectionIndex { max, given } => ErrorView::InvalidProjectionIndex {
                max,
                given,
            },
            Error::ProjectionMissTimestamp => ErrorView::ProjectionMissTimestamp,
            Error::ColumnNameExists { name } => ErrorView::ColumnNameExists { name: name@ },
            Error::ColumnIdExists { name, id } => ErrorView::ColumnIdExists { name: name@, id },
            Error::KeyColumnType { name, kind } => ErrorView::KeyColumnType { name: name@, kind },
            Error::TimestampKeyExists {
                timestamp_column,
                given_column,
            } => ErrorView::TimestampKeyExists {
                timestamp_column: timestamp_column@,
                given_column: given_column@,
            },
            Error::MissingTimestampKey => ErrorView::MissingTimestampKey,
            Error::NullKeyColumn { name } => ErrorView::NullKeyColumn { name: name@ },
            Error::InvalidArrowField { field_name } => ErrorView::InvalidArrowField {
                field_name: field_name@,
            },
            Error::InvalidTsidSchema => ErrorView::InvalidTsidSchema,
            Error::InvalidArrowSchemaMetaValue {
                key,
                raw_value,
            } => ErrorView::InvalidArrowSchemaMetaValue { key, raw_value: raw_value@ },
            Error::ArrowSchemaMetaKeyNotFound { key } => ErrorView::ArrowSchemaMetaKeyNotFound {
                key,
            },
        }
    }
}

/// Why rows of a writer's schema cannot be written into a table.
#[derive(Debug)]
pub enum CompatError {
    /// A column of the table and the writer's column of that name disagree.
    IncompatWriteColumn { source: crate::column_schema::CompatError },
    /// The writer lacks a column which the table cannot fill with null.
    MissingWriteColumn { name: String },
    /// The writer has columns which the table does not know.
    WriteMoreColumn { names: Vec<String> },
}

/// Mathematical value of a [`CompatError`].
pub enum WriteErrorView {
    IncompatWriteColumn { source: CompatErrorView },
    MissingWriteColumn { name: Seq<char> },
    WriteMoreColumn { names: Seq<Seq<char>> },
}

/// The texts of a sequence of strings.
pub open spec fn texts(names: Seq<String>) -> Seq<Seq<char>> {
    Seq::new(names.len(), |i: int| names[i]@)
}

impl View for CompatError {
    type V = WriteErrorView;

    open spec fn view(&self) -> WriteErrorView {
        match *self {
            CompatError::IncompatWriteColumn { source } => WriteErrorView::IncompatWriteColumn {
                source: source@,
            },
            CompatError::MissingWriteColumn { name } => WriteErrorView::MissingWriteColumn {
                name: name@,
            },
            CompatError::WriteMoreColumn { names } => WriteErrorView::WriteMoreColumn {
                names: texts(names@),
            },
        }
    }
}

} // verus!
