//! The schema of a table, its projections and the check that rows of
//! another schema may be written into it.

use vstd::prelude::*;
use vstd::slice::slice_subrange;
use std::sync::Arc;
use crate::shared::share;
use crate::arrow::{column_of, fields_of, ArrowField, ArrowSchema, ArrowSchemaView, MetaEntry};
use crate::column_schema::{views, write_check, ColumnSchema, ColumnView};
use crate::error::{CompatError, Error, ErrorView, WriteErrorView};
use crate::registry::{offset_at, position_of, same_columns, ColumnSchemas};

verus! {

/// Version of a schema; schemas of one version are taken to be identical.
pub type Version = u32;

/// A shared columnar schema.
pub type ArrowSchemaRef = Arc<ArrowSchema>;

/// For each column of a table, the position of that column in the
/// writer's schema, or `None` where the writer has no such column and the
/// write fills in null.
#[derive(Debug)]
pub struct IndexInWriterSchema(Vec<Option<usize>>);

impl Default for IndexInWriterSchema {
    fn default() -> (r: Self)
        ensures
            r@ == Seq::<Option<usize>>::empty(),
    {
        IndexInWriterSchema(Vec::new())
    }
}

impl View for IndexInWriterSchema {
    type V = Seq<Option<usize>>;

    closed spec fn view(&self) -> Seq<Option<usize>> {
        self.0@
    }
}

/// The index map under which every column is found at its own position.
pub open spec fn identity_entries(n: nat) -> Seq<Option<usize>> {
    Seq::new(n, |i: int| Some(i as usize))
}

impl IndexInWriterSchema {
    /// The empty map.
    pub fn new() -> (r: Self)
        ensures
            r@ == Seq::<Option<usize>>::empty(),
    {
        IndexInWriterSchema(Vec::new())
    }

    /// The map of a writer whose schema is that of the table: every column
    /// at its own position.
    pub fn for_same_schema(num_columns: usize) -> (r: Self)
        ensures
            r@ == identity_entries(num_columns as nat),
    {
        let mut indexes: Vec<Option<usize>> = Vec::with_capacity(num_columns);
        let mut i: usize = 0;
        proof {
            assert(indexes@ =~= identity_entries(0));
        }
        while i < num_columns
            invariant
                i <= num_columns,
                indexes@ == identity_entries(i as nat),
            decreases num_columns - i,
        {
            indexes.push(Some(i));
            i += 1;
            proof {
                assert(indexes@ =~= identity_entries(i as nat));
            }
        }
        IndexInWriterSchema(indexes)
    }

    /// Position in the writer's schema of the table column at
    /// `index_in_table`; `None` if that column is to be filled with null.
    pub fn column_index_in_writer(&self, index_in_table: usize) -> (r: Option<usize>)
        requires
            index_in_table < self@.len(),
        ensures
            r == self@[index_in_table as int],
    {
        self.0[index_in_table]
    }

    /// Number of table columns the map covers.
    pub fn len(&self) -> (r: usize)
        ensures
            r == self@.len(),
    {
        self.0.len()
    }
}

/// The columns that the fields of a columnar schema decode to, as far as
/// the first `n` fields go; `Err` with the position of the first field
/// whose type is not supported.
pub open spec fn decoded_columns(fields: Seq<crate::arrow::ArrowFieldView>, n: nat) -> Result<
    Seq<ColumnView>,
    nat,
>
    decreases n,
{
    if n == 0 {
        Ok(Seq::empty())
    } else {
        match decoded_columns(fields, (n - 1) as nat) {
            Err(i) => Err(i),
            Ok(front) => match column_of(fields[n - 1]) {
                Some(c) => Ok(front.push(c)),
                None => Err((n - 1) as nat),
            },
        }
    }
}

/// Decodes the fields of a columnar schema into columns; fails on the
/// first field of an unsupported type, naming it.
pub fn decode_fields(fields: &Vec<ArrowField>) -> (r: Result<Vec<ColumnSchema>, Error>)
    ensures
        match decoded_columns(Seq::new(fields@.len(), |i: int| fields@[i]@), fields@.len()) {
            Ok(columns) => r matches Ok(v) && views(v@) == columns,
            Err(i) => r matches Err(e) && e@ == (ErrorView::InvalidArrowField {
                field_name: fields@[i as int].name@,
            }),
        },
{
    let ghost model = Seq::new(fields@.len(), |i: int| fields@[i]@);
    let mut columns: Vec<ColumnSchema> = Vec::with_capacity(fields.len());
    let mut i: usize = 0;
    proof {
        assert(views(columns@) =~= Seq::empty());
        lemma_decoded_len(model, fields@.len());
    }
    while i < fields.len()
        invariant
            i <= fields@.len(),
            model == Seq::new(fields@.len(), |k: int| fields@[k]@),
            decoded_columns(model, i as nat) == Ok::<Seq<ColumnView>, nat>(views(columns@)),
        decreases fields@.len() - i,
    {
        let ghost before = views(columns@);
        match ColumnSchema::from_arrow_field(&fields[i]) {
            Some(column) => {
                columns.push(column);
                proof {
                    assert(views(columns@) =~= before.push(column@));
                }
            },
            None => {
                proof {
                    assert(decoded_columns(model, (i + 1) as nat) == Err::<Seq<ColumnView>, nat>(
                        i as nat,
                    ));
                    lemma_decode_error_stays(model, (i + 1) as nat, fields@.len());
                }
                return Err(Error::InvalidArrowField { field_name: fields[i].name.clone() });
            },
        }
        i += 1;
    }
    Ok(columns)
}

/// Once a field failed to decode, decoding more fields fails at the same
/// field.
pub proof fn lemma_decode_error_stays(fields: Seq<crate::arrow::ArrowFieldView>, n: nat, m: nat)
    requires
        n <= m,
        decoded_columns(fields, n) is Err,
    ensures
        decoded_columns(fields, m) == decoded_columns(fields, n),
    decreases m,
{
    if n < m {
        lemma_decode_error_stays(fields, n, (m - 1) as nat);
    }
}

/// Encodes columns as the fields of a columnar schema.
pub fn encode_fields(columns: &[ColumnSchema]) -> (r: Vec<ArrowField>)
    ensures
        Seq::new(r@.len(), |i: int| r@[i]@) == fields_of(views(columns@)),
{
    let mut fields: Vec<ArrowField> = Vec::with_capacity(columns.len());
    let mut i: usize = 0;
    while i < columns.len()
        invariant
            i <= columns@.len(),
            fields@.len() == i,
            forall|k: int| 0 <= k < i ==> fields@[k]@ == crate::arrow::field_of(columns@[k]@),
        decreases columns@.len() - i,
    {
        fields.push(columns[i].to_arrow_field());
        i += 1;
    }
    proof {
        assert(Seq::new(fields@.len(), |i: int| fields@[i]@) =~= fields_of(views(columns@)));
    }
    fields
}

/// A list of columns for query results, derived from a table's schema or
/// from a columnar schema. It is no schema to write with.
#[derive(Debug, Eq)]
pub struct RecordSchema {
    arrow_schema: ArrowSchemaRef,
    column_schemas: Arc<ColumnSchemas>,
}

/// Mathematical value of a [`RecordSchema`].
pub struct RecordSchemaView {
    pub columns: Seq<ColumnView>,
    pub arrow: ArrowSchemaView,
}

impl View for RecordSchema {
    type V = RecordSchemaView;

    closed spec fn view(&self) -> RecordSchemaView {
        RecordSchemaView { columns: self.column_schemas@, arrow: self.arrow_schema@ }
    }
}

impl PartialEq for RecordSchema {
    fn eq(&self, other: &Self) -> (r: bool) {
        same_columns(self.column_schemas.columns(), other.column_schemas.columns())
    }
}

impl vstd::std_specs::cmp::PartialEqSpecImpl for RecordSchema {
    open spec fn obeys_eq_spec() -> bool {
        true
    }

    /// Two record schemas are equal if they hold the same columns in the
    /// same order.
    open spec fn eq_spec(&self, other: &Self) -> bool {
        self@.columns == other@.columns
    }
}

impl Clone for RecordSchema {
    fn clone(&self) -> (r: Self)
        ensures
            r@ == self@,
            self.wf() ==> r.wf(),
    {
        RecordSchema {
            arrow_schema: share(&self.arrow_schema),
            column_schemas: share(&self.column_schemas),
        }
    }
}

impl RecordSchema {
    /// The row layout is that of the columns.
    pub closed spec fn wf(&self) -> bool {
        self.column_schemas.wf()
    }

    /// The record schema of a registry: its columnar form has one field per
    /// column and an empty dictionary.
    pub fn from_column_schemas(column_schemas: ColumnSchemas) -> (r: Self)
        ensures
            r@.columns == column_schemas@,
            r@.arrow == (ArrowSchemaView {
                fields: fields_of(column_schemas@),
                metadata: Seq::empty(),
            }),
            column_schemas.wf() ==> r.wf(),
    {
        let fields = encode_fields(column_schemas.columns());
        let metadata: Vec<MetaEntry> = Vec::new();
        let arrow_schema = ArrowSchema { fields, metadata };
        proof {
            assert(arrow_schema@.metadata =~= Seq::empty());
        }
        RecordSchema {
            arrow_schema: Arc::new(arrow_schema),
            column_schemas: Arc::new(column_schemas),
        }
    }

    /// The record schema that a columnar schema describes. Fails with
    /// `InvalidArrowField` on the first field of an unsupported type.
    pub fn try_from_arrow(arrow_schema: &ArrowSchema) -> (r: Result<Self, Error>)
        requires
            8 * arrow_schema@.fields.len() <= usize::MAX,
        ensures
            match decoded_columns(arrow_schema@.fields, arrow_schema@.fields.len()) {
                Ok(columns) => r matches Ok(s) && s.wf() && s@.columns == columns && s@.arrow == (
                ArrowSchemaView { fields: fields_of(columns), metadata: Seq::empty() }),
                Err(i) => r matches Err(e) && e@ == (ErrorView::InvalidArrowField {
                    field_name: arrow_schema@.fields[i as int].name,
                }),
            },
    {
        proof {
            lemma_decoded_len(arrow_schema@.fields, arrow_schema@.fields.len());
        }
        match decode_fields(&arrow_schema.fields) {
            Ok(columns) => Ok(Self::from_column_schemas(ColumnSchemas::new(columns))),
            Err(e) => Err(e),
        }
    }

    pub fn num_columns(&self) -> (r: usize)
        ensures
            r == self@.columns.len(),
    {
        self.column_schemas.num_columns()
    }

    pub fn columns(&self) -> (r: &[ColumnSchema])
        ensures
            views(r@) == self@.columns,
    {
        self.column_schemas.columns()
    }

    pub fn index_of(&self, name: &str) -> (r: Option<usize>)
        ensures
            r matches Some(p) ==> position_of(self@.columns, name@) == Some(p as nat),
            r is None ==> position_of(self@.columns, name@) is None,
    {
        self.column_schemas.index_of(name)
    }

    pub fn column(&self, i: usize) -> (r: &ColumnSchema)
        requires
            i < self@.columns.len(),
        ensures
            r@ == self@.columns[i as int],
    {
        self.column_schemas.column(i)
    }

    /// The columnar form of this record schema.
    pub fn to_arrow_schema_ref(&self) -> (r: ArrowSchemaRef)
        ensures
            r@ == self@.arrow,
    {
        share(&self.arrow_schema)
    }
}

/// Decoding `n` fields gives `n` columns.
pub proof fn lemma_decoded_len(fields: Seq<crate::arrow::ArrowFieldView>, n: nat)
    ensures
        decoded_columns(fields, n) matches Ok(columns) ==> columns.len() == n,
        decoded_columns(fields, n) matches Err(i) ==> i < n,
    decreases n,
{
    if n > 0 {
        lemma_decoded_len(fields, (n - 1) as nat);
    }
}

/// A record schema whose first columns are the key columns of the table
/// it was derived from.
#[derive(Debug, Eq)]
pub struct RecordSchemaWithKey {
    record_schema: RecordSchema,
    num_key_columns: usize,
}

/// Mathematical value of a [`RecordSchemaWithKey`].
pub struct RecordSchemaWithKeyView {
    pub columns: Seq<ColumnView>,
    pub arrow: ArrowSchemaView,
    pub num_key_columns: usize,
}

impl View for RecordSchemaWithKey {
    type V = RecordSchemaWithKeyView;

    closed spec fn view(&self) -> RecordSchemaWithKeyView {
        RecordSchemaWithKeyView {
            columns: self.record_schema@.columns,
            arrow: self.record_schema@.arrow,
            num_key_columns: self.num_key_columns,
        }
    }
}

impl PartialEq for RecordSchemaWithKey {
    fn eq(&self, other: &Self) -> (r: bool) {
        self.num_key_columns == other.num_key_columns && same_columns(
            self.record_schema.columns(),
            other.record_schema.columns(),
        )
    }
}

impl vstd::std_specs::cmp::PartialEqSpecImpl for RecordSchemaWithKey {
    open spec fn obeys_eq_spec() -> bool {
        true
    }

    /// Two such schemas are equal if they hold the same columns in the
    /// same order and as many key columns.
    open spec fn eq_spec(&self, other: &Self) -> bool {
        self@.columns == other@.columns && self@.num_key_columns == other@.num_key_columns
    }
}

impl Clone for RecordSchemaWithKey {
    fn clone(&self) -> (r: Self)
        ensures
            r@ == self@,
    {
        RecordSchemaWithKey {
            record_schema: self.record_schema.clone(),
            num_key_columns: self.num_key_columns,
        }
    }
}

impl RecordSchemaWithKey {
    pub fn num_columns(&self) -> (r: usize)
        ensures
            r == self@.columns.len(),
    {
        self.record_schema.num_columns()
    }

    pub fn index_of(&self, name: &str) -> (r: Option<usize>)
        ensures
            r matches Some(p) ==> position_of(self@.columns, name@) == Some(p as nat),
            r is None ==> position_of(self@.columns, name@) is None,
    {
        self.record_schema.index_of(name)
    }

    pub fn columns(&self) -> (r: &[ColumnSchema])
        ensures
            views(r@) == self@.columns,
    {
        self.record_schema.columns()
    }

    /// The key columns: the first `num_key_columns` columns.
    pub fn key_columns(&self) -> (r: &[ColumnSchema])
        requires
            self@.num_key_columns <= self@.columns.len(),
        ensures
            views(r@) == self@.columns.take(self@.num_key_columns as int),
    {
        let all = self.record_schema.columns();
        let r = slice_subrange(all, 0, self.num_key_columns);
        proof {
            assert(views(all@).len() == all@.len());
            assert(views(r@) =~= views(all@).take(self.num_key_columns as int));
        }
        r
    }

    /// The record schema without the key-column count.
    pub fn into_record_schema(self) -> (r: RecordSchema)
        ensures
            r@.columns == self@.columns,
            r@.arrow == self@.arrow,
    {
        self.record_schema
    }

    /// The columnar form of this record schema.
    pub fn to_arrow_schema_ref(&self) -> (r: ArrowSchemaRef)
        ensures
            r@ == self@.arrow,
    {
        self.record_schema.to_arrow_schema_ref()
    }

    pub fn num_key_columns(&self) -> (r: usize)
        ensures
            r == self@.num_key_columns,
    {
        self.num_key_columns
    }
}

/// Mathematical value of a [`Schema`].
pub struct SchemaView {
    /// The columns, key columns first.
    pub columns: Seq<ColumnView>,
    /// The key columns are the first `num_key_columns` columns.
    pub num_key_columns: usize,
    /// Position of the timestamp key column.
    pub timestamp_index: usize,
    /// Position of the synthetic key column, where that key is enabled.
    pub tsid_index: Option<usize>,
    pub enable_tsid_primary_key: bool,
    pub version: Version,
    /// The columnar form.
    pub arrow: ArrowSchemaView,
}

/// Schema of a table. Immutable once constructed.
#[derive(Debug, Eq)]
pub struct Schema {
    arrow_schema: ArrowSchemaRef,
    num_key_columns: usize,
    timestamp_index: usize,
    tsid_index: Option<usize>,
    enable_tsid_primary_key: bool,
    column_schemas: Arc<ColumnSchemas>,
    version: Version,
}

impl View for Schema {
    type V = SchemaView;

    closed spec fn view(&self) -> SchemaView {
        SchemaView {
            columns: self.column_schemas@,
            num_key_columns: self.num_key_columns,
            timestamp_index: self.timestamp_index,
            tsid_index: self.tsid_index,
            enable_tsid_primary_key: self.enable_tsid_primary_key,
            version: self.version,
            arrow: self.arrow_schema@,
        }
    }
}

/// Equality of schemas: the same columns in the same order and the same
/// facts. The columnar form and the row layout follow from these and
/// are not compared.
pub open spec fn same_schema(a: SchemaView, b: SchemaView) -> bool {
    &&& a.columns == b.columns
    &&& a.num_key_columns == b.num_key_columns
    &&& a.timestamp_index == b.timestamp_index
    &&& a.tsid_index == b.tsid_index
    &&& a.enable_tsid_primary_key == b.enable_tsid_primary_key
    &&& a.version == b.version
}

impl PartialEq for Schema {
    fn eq(&self, other: &Self) -> (r: bool) {
        self.num_key_columns == other.num_key_columns && self.timestamp_index
            == other.timestamp_index && self.tsid_index == other.tsid_index
            && self.enable_tsid_primary_key == other.enable_tsid_primary_key && self.version
            == other.version && same_columns(
            self.column_schemas.columns(),
            other.column_schemas.columns(),
        )
    }
}

impl vstd::std_specs::cmp::PartialEqSpecImpl for Schema {
    open spec fn obeys_eq_spec() -> bool {
        true
    }

    open spec fn eq_spec(&self, other: &Self) -> bool {
        same_schema(self@, other@)
    }
}

impl Clone for Schema {
    fn clone(&self) -> (r: Self)
        ensures
            r@ == self@,
            self.wf() ==> r.wf(),
    {
        Schema {
            arrow_schema: share(&self.arrow_schema),
            num_key_columns: self.num_key_columns,
            timestamp_index: self.timestamp_index,
            tsid_index: self.tsid_index,
            enable_tsid_primary_key: self.enable_tsid_primary_key,
            column_schemas: share(&self.column_schemas),
            version: self.version,
        }
    }
}

/// Position of the writer's column for a column of the table.
pub open spec fn writer_entry(target: ColumnView, writer: Seq<ColumnView>) -> Option<usize> {
    match position_of(writer, target.name) {
        Some(p) => Some(p as usize),
        None => None,
    }
}

/// The first `n` entries of the index map of `writer` for `target`.
pub open spec fn index_entries(target: Seq<ColumnView>, writer: Seq<ColumnView>, n: nat) -> Seq<
    Option<usize>,
> {
    Seq::new(n, |i: int| writer_entry(target[i], writer))
}

/// Why a column of the table refuses the writer: the writer's column of
/// that name does not fit, or the writer has none and the column cannot be
/// null.
pub open spec fn column_write_error(target: ColumnView, writer: Seq<ColumnView>) -> Option<
    WriteErrorView,
> {
    match position_of(writer, target.name) {
        Some(p) => match write_check(target, writer[p as int]) {
            Some(e) => Some(WriteErrorView::IncompatWriteColumn { source: e }),
            None => None,
        },
        None => if target.is_nullable {
            None
        } else {
            Some(WriteErrorView::MissingWriteColumn { name: target.name })
        },
    }
}

/// The first of the first `n` columns of the table that refuses the
/// writer, with the reason.
pub open spec fn first_write_error(target: Seq<ColumnView>, writer: Seq<ColumnView>, n: nat)
    -> Option<(nat, WriteErrorView)>
    decreases n,
{
    if n == 0 {
        None
    } else {
        match first_write_error(target, writer, (n - 1) as nat) {
            Some(x) => Some(x),
            None => match column_write_error(target[n - 1], writer) {
                Some(e) => Some(((n - 1) as nat, e)),
                None => None,
            },
        }
    }
}

/// How many of the first `n` columns of the table the writer has.
pub open spec fn matched_count(target: Seq<ColumnView>, writer: Seq<ColumnView>, n: nat) -> nat
    decreases n,
{
    if n == 0 {
        0
    } else {
        matched_count(target, writer, (n - 1) as nat) + if position_of(writer, target[n - 1].name)
            is Some {
            1nat
        } else {
            0nat
        }
    }
}

/// The names of those of the first `n` columns of the writer that the
/// table does not have, in the writer's order.
pub open spec fn unmatched_names(writer: Seq<ColumnView>, target: Seq<ColumnView>, n: nat) -> Seq<
    Seq<char>,
>
    decreases n,
{
    if n == 0 {
        Seq::empty()
    } else {
        let front = unmatched_names(writer, target, (n - 1) as nat);
        if position_of(target, writer[n - 1].name) is None {
            front.push(writer[n - 1].name)
        } else {
            front
        }
    }
}

/// Outcome of the write-compatibility check of `writer` against `target`.
pub open spec fn write_compat_error(target: Seq<ColumnView>, writer: Seq<ColumnView>) -> Option<
    WriteErrorView,
> {
    match first_write_error(target, writer, target.len()) {
        Some((_, e)) => Some(e),
        None => if matched_count(target, writer, target.len()) == writer.len() {
            None
        } else {
            Some(
                WriteErrorView::WriteMoreColumn {
                    names: unmatched_names(writer, target, writer.len()),
                },
            )
        },
    }
}

/// How many entries the check appends to the index map: one per column
/// of the table up to the first that refuses the writer.
pub open spec fn entries_written(target: Seq<ColumnView>, writer: Seq<ColumnView>) -> nat {
    match first_write_error(target, writer, target.len()) {
        Some((i, _)) => i,
        None => target.len(),
    }
}

/// The first refusal among more columns is the first among fewer, once
/// there is one.
pub proof fn lemma_write_error_stays(
    target: Seq<ColumnView>,
    writer: Seq<ColumnView>,
    n: nat,
    m: nat,
)
    requires
        n <= m,
        first_write_error(target, writer, n) is Some,
    ensures
        first_write_error(target, writer, m) == first_write_error(target, writer, n),
    decreases m,
{
    if n < m {
        lemma_write_error_stays(target, writer, n, (m - 1) as nat);
    }
}

/// At most `n` of the first `n` columns are matched.
pub proof fn lemma_matched_count_bound(target: Seq<ColumnView>, writer: Seq<ColumnView>, n: nat)
    ensures
        matched_count(target, writer, n) <= n,
    decreases n,
{
    if n > 0 {
        lemma_matched_count_bound(target, writer, (n - 1) as nat);
    }
}

/// The picks of a projection: the column at each projected position.
pub open spec fn projected(columns: Seq<ColumnView>, projection: Seq<usize>) -> Seq<ColumnView> {
    Seq::new(projection.len(), |i: int| columns[projection[i] as int])
}

/// The normal columns among the first `n` picks of a projection, in the
/// projection's order; picks of key columns are left out.
pub open spec fn normal_picks(
    columns: Seq<ColumnView>,
    num_key_columns: nat,
    projection: Seq<usize>,
    n: nat,
) -> Seq<ColumnView>
    decreases n,
{
    if n == 0 {
        Seq::empty()
    } else {
        let front = normal_picks(columns, num_key_columns, projection, (n - 1) as nat);
        if projection[n - 1] >= num_key_columns {
            front.push(columns[projection[n - 1] as int])
        } else {
            front
        }
    }
}

/// The columns of a projection that keeps the key: all key columns in
/// their order, then the projected normal columns.
pub open spec fn projected_with_key(
    columns: Seq<ColumnView>,
    num_key_columns: nat,
    projection: Seq<usize>,
) -> Seq<ColumnView> {
    columns.take(num_key_columns as int) + normal_picks(
        columns,
        num_key_columns,
        projection,
        projection.len(),
    )
}

/// A projection picks at most one normal column per entry.
pub proof fn lemma_normal_picks_len(
    columns: Seq<ColumnView>,
    num_key_columns: nat,
    projection: Seq<usize>,
    n: nat,
)
    ensures
        normal_picks(columns, num_key_columns, projection, n).len() <= n,
    decreases n,
{
    if n > 0 {
        lemma_normal_picks_len(columns, num_key_columns, projection, (n - 1) as nat);
    }
}

impl Schema {
    /// The row layout and the fields of the columnar form are those of
    /// the columns.
    pub closed spec fn wf(&self) -> bool {
        &&& self.column_schemas.wf()
        &&& self.arrow_schema@.fields == fields_of(self.column_schemas@)
    }

    /// The byte offsets of the columns, by position.
    pub closed spec fn offsets(&self) -> Seq<usize> {
        self.column_schemas.offsets()
    }

    /// Puts a schema together from its parts.
    pub(crate) fn assemble(
        arrow_schema: ArrowSchemaRef,
        num_key_columns: usize,
        timestamp_index: usize,
        tsid_index: Option<usize>,
        enable_tsid_primary_key: bool,
        column_schemas: ColumnSchemas,
        version: Version,
    ) -> (r: Self)
        requires
            column_schemas.wf(),
            arrow_schema@.fields == fields_of(column_schemas@),
        ensures
            r.wf(),
            r@ == (SchemaView {
                columns: column_schemas@,
                num_key_columns,
                timestamp_index,
                tsid_index,
                enable_tsid_primary_key,
                version,
                arrow: arrow_schema@,
            }),
    {
        Schema {
            arrow_schema,
            num_key_columns,
            timestamp_index,
            tsid_index,
            enable_tsid_primary_key,
            column_schemas: Arc::new(column_schemas),
            version,
        }
    }

    /// In a well-formed schema the columnar form has one field per column
    /// and there is one byte offset per column, the sum of the widths
    /// before it.
    pub proof fn lemma_wf(&self)
        requires
            self.wf(),
        ensures
            self@.arrow.fields == fields_of(self@.columns),
            self.offsets().len() == self@.columns.len(),
            forall|i: int|
                0 <= i < self@.columns.len() ==> #[trigger] self.offsets()[i] == offset_at(
                    self@.columns,
                    i as nat,
                ),
    {
        self.column_schemas.lemma_offsets();
    }

    /// All columns, key columns first.
    pub fn columns(&self) -> (r: &[ColumnSchema])
        ensures
            views(r@) == self@.columns,
    {
        self.column_schemas.columns()
    }

    /// The key columns.
    pub fn key_columns(&self) -> (r: &[ColumnSchema])
        requires
            self@.num_key_columns <= self@.columns.len(),
        ensures
            views(r@) == self@.columns.take(self@.num_key_columns as int),
    {
        let all = self.column_schemas.columns();
        let r = slice_subrange(all, 0, self.num_key_columns);
        proof {
            assert(views(all@).len() == all@.len());
            assert(views(r@) =~= views(all@).take(self.num_key_columns as int));
        }
        r
    }

    /// The columns that are no key columns.
    pub fn normal_columns(&self) -> (r: &[ColumnSchema])
        requires
            self@.num_key_columns <= self@.columns.len(),
        ensures
            views(r@) == self@.columns.skip(self@.num_key_columns as int),
    {
        let all = self.column_schemas.columns();
        let r = slice_subrange(all, self.num_key_columns, all.len());
        proof {
            assert(views(all@).len() == all@.len());
            assert(views(r@) =~= views(all@).skip(self.num_key_columns as int));
        }
        r
    }

    /// Position of the synthetic key column.
    pub fn index_of_tsid(&self) -> (r: Option<usize>)
        ensures
            r == self@.tsid_index,
    {
        self.tsid_index
    }

    /// The synthetic key column.
    pub fn tsid_column(&self) -> (r: Option<&ColumnSchema>)
        requires
            self@.tsid_index matches Some(i) ==> i < self@.columns.len(),
        ensures
            match self@.tsid_index {
                Some(i) => r matches Some(c) && c@ == self@.columns[i as int],
                None => r is None,
            },
    {
        match self.tsid_index {
            Some(idx) => Some(self.column_schemas.column(idx)),
            None => None,
        }
    }

    /// Number of columns.
    pub fn num_columns(&self) -> (r: usize)
        ensures
            r == self@.columns.len(),
    {
        self.column_schemas.num_columns()
    }

    /// The column of this name.
    pub fn column_with_name(&self, name: &str) -> (r: Option<&ColumnSchema>)
        ensures
            match position_of(self@.columns, name@) {
                Some(p) => r matches Some(c) && c@ == self@.columns[p as int],
                None => r is None,
            },
    {
        proof {
            crate::registry::lemma_position_of(self@.columns, name@);
        }
        match self.column_schemas.index_of(name) {
            Some(index) => Some(self.column_schemas.column(index)),
            None => None,
        }
    }

    /// The column at position `i`.
    pub fn column(&self, i: usize) -> (r: &ColumnSchema)
        requires
            i < self@.columns.len(),
        ensures
            r@ == self@.columns[i as int],
    {
        self.column_schemas.column(i)
    }

    /// The columnar form.
    pub fn as_arrow_schema_ref(&self) -> (r: &ArrowSchemaRef)
        ensures
            r@ == self@.arrow,
    {
        &self.arrow_schema
    }

    /// A copy of the columnar form.
    pub fn to_arrow_schema_ref(&self) -> (r: ArrowSchemaRef)
        ensures
            r@ == self@.arrow,
    {
        share(&self.arrow_schema)
    }

    /// The columnar form, consuming the schema.
    pub fn into_arrow_schema_ref(self) -> (r: ArrowSchemaRef)
        ensures
            r@ == self@.arrow,
    {
        self.arrow_schema
    }

    /// Position of the column of this name.
    pub fn index_of(&self, name: &str) -> (r: Option<usize>)
        ensures
            r matches Some(p) ==> position_of(self@.columns, name@) == Some(p as nat),
            r is None ==> position_of(self@.columns, name@) is None,
    {
        self.column_schemas.index_of(name)
    }

    /// Number of key columns.
    pub fn num_key_columns(&self) -> (r: usize)
        ensures
            r == self@.num_key_columns,
    {
        self.num_key_columns
    }

    /// Name of the timestamp key column.
    pub fn timestamp_name(&self) -> (r: &str)
        requires
            self@.timestamp_index < self@.columns.len(),
        ensures
            r@ == self@.columns[self@.timestamp_index as int].name,
    {
        self.column_schemas.column(self.timestamp_index).name.as_str()
    }

    /// Is the synthetic key the primary key.
    pub fn is_tsid_primary_key_enabled(&self) -> (r: bool)
        ensures
            r == self@.enable_tsid_primary_key,
    {
        self.enable_tsid_primary_key
    }

    /// Position of the timestamp key column.
    pub fn timestamp_index(&self) -> (r: usize)
        ensures
            r == self@.timestamp_index,
    {
        self.timestamp_index
    }

    /// Version of this schema.
    pub fn version(&self) -> (r: Version)
        ensures
            r == self@.version,
    {
        self.version
    }

    /// Checks that rows of `writer_schema` can be written into a table of
    /// this schema, and appends to `index_in_writer`, for each column of
    /// this schema, where the writer has it.
    ///
    /// The columns are taken in order. The first that the writer has
    /// under the same name but with which it does not fit, or that the
    /// writer lacks though it cannot be null, ends the check with its
    /// error; the entries of the columns before it have been appended.
    /// If all columns pass but the writer has columns that were not
    /// matched, the error lists the writer's columns unknown here.
    pub fn compatible_for_write(
        &self,
        writer_schema: &Schema,
        index_in_writer: &mut IndexInWriterSchema,
    ) -> (r: Result<(), CompatError>)
        ensures
            r is Ok <==> write_compat_error(self@.columns, writer_schema@.columns) is None,
            r matches Err(e) ==> Some(e@) == write_compat_error(
                self@.columns,
                writer_schema@.columns,
            ),
            final(index_in_writer)@ == old(index_in_writer)@ + index_entries(
                self@.columns,
                writer_schema@.columns,
                entries_written(self@.columns, writer_schema@.columns),
            ),
    {
        let ghost target = self@.columns;
        let ghost writer = writer_schema@.columns;
        let ghost before = index_in_writer@;
        let columns = self.column_schemas.columns();
        index_in_writer.0.reserve(columns.len());
        let mut num_col_in_writer: usize = 0;
        let mut i: usize = 0;
        proof {
            assert(index_in_writer@ =~= before + index_entries(target, writer, 0));
        }
        while i < columns.len()
            invariant
                i <= columns@.len(),
                views(columns@) == target,
                target == self@.columns,
                writer == writer_schema@.columns,
                before == old(index_in_writer)@,
                first_write_error(target, writer, i as nat) is None,
                num_col_in_writer == matched_count(target, writer, i as nat),
                index_in_writer@ == before + index_entries(target, writer, i as nat),
            decreases columns@.len() - i,
        {
            let column = &columns[i];
            proof {
                assert(column@ == target[i as int]);
                crate::registry::lemma_position_of(writer, column@.name);
                lemma_matched_count_bound(target, writer, i as nat);
            }
            match writer_schema.index_of(column.name.as_str()) {
                Some(writer_index) => {
                    let writer_column = writer_schema.column(writer_index);
                    num_col_in_writer += 1;
                    match column.compatible_for_write(writer_column) {
                        Ok(()) => {},
                        Err(source) => {
                            proof {
                                assert(column_write_error(target[i as int], writer) == Some(
                                    WriteErrorView::IncompatWriteColumn { source: source@ },
                                ));
                                assert(first_write_error(target, writer, (i + 1) as nat) == Some(
                                    (i as nat, WriteErrorView::IncompatWriteColumn { source: source@ }),
                                ));
                                lemma_write_error_stays(
                                    target,
                                    writer,
                                    (i + 1) as nat,
                                    target.len(),
                                );
                            }
                            return Err(CompatError::IncompatWriteColumn { source });
                        },
                    }
                    index_in_writer.0.push(Some(writer_index));
                },
                None => {
                    if !column.is_nullable {
                        proof {
                            assert(first_write_error(target, writer, (i + 1) as nat) == Some(
                                (
                                    i as nat,
                                    WriteErrorView::MissingWriteColumn { name: target[i as int].name },
                                ),
                            ));
                            lemma_write_error_stays(target, writer, (i + 1) as nat, target.len());
                        }
                        return Err(CompatError::MissingWriteColumn { name: column.name.clone() });
                    }
                    index_in_writer.0.push(None);
                },
            }
            proof {
                assert(index_in_writer@ =~= before + index_entries(
                    target,
                    writer,
                    (i + 1) as nat,
                ));
            }
            i += 1;
        }
        if num_col_in_writer != writer_schema.num_columns() {
            let names = self.unknown_columns_of(writer_schema);
            return Err(CompatError::WriteMoreColumn { names });
        }
        Ok(())
    }

    /// The names of the columns of `writer_schema` that this schema does
    /// not have, in the writer's order.
    pub fn unknown_columns_of(&self, writer_schema: &Schema) -> (names: Vec<String>)
        ensures
            crate::error::texts(names@) == unmatched_names(
                writer_schema@.columns,
                self@.columns,
                writer_schema@.columns.len(),
            ),
    {
        let writer_columns = writer_schema.column_schemas.columns();
        let ghost writer = writer_schema@.columns;
        let ghost target = self@.columns;
        let mut names: Vec<String> = Vec::new();
        let mut k: usize = 0;
        proof {
            assert(crate::error::texts(names@) =~= unmatched_names(writer, target, 0));
        }
        while k < writer_columns.len()
            invariant
                k <= writer_columns@.len(),
                views(writer_columns@) == writer,
                target == self@.columns,
                crate::error::texts(names@) == unmatched_names(writer, target, k as nat),
            decreases writer_columns@.len() - k,
        {
            let c = &writer_columns[k];
            let ghost front = crate::error::texts(names@);
            proof {
                assert(c@ == writer[k as int]);
            }
            if self.column_schemas.index_of(c.name.as_str()).is_none() {
                let name = c.name.clone();
                names.push(name);
                proof {
                    assert(crate::error::texts(names@) =~= front.push(c@.name));
                }
            }
            k += 1;
        }
        names
    }

    /// This schema as a record schema.
    pub fn to_record_schema(&self) -> (r: RecordSchema)
        ensures
            r@.columns == self@.columns,
            r@.arrow == self@.arrow,
            self.wf() ==> r.wf(),
    {
        RecordSchema {
            arrow_schema: share(&self.arrow_schema),
            column_schemas: share(&self.column_schemas),
        }
    }

    /// This schema as a record schema that knows its key columns.
    pub fn to_record_schema_with_key(&self) -> (r: RecordSchemaWithKey)
        ensures
            r@.columns == self@.columns,
            r@.arrow == self@.arrow,
            r@.num_key_columns == self@.num_key_columns,
    {
        RecordSchemaWithKey {
            record_schema: self.to_record_schema(),
            num_key_columns: self.num_key_columns,
        }
    }

    /// The record schema of a projection that keeps the key: all key
    /// columns in their order, whether projected or not, then the normal
    /// columns that `projection` names, in its order.
    pub fn project_record_schema_with_key(&self, projection: &[usize]) -> (r: RecordSchemaWithKey)
        requires
            self@.num_key_columns <= self@.columns.len(),
            forall|i: int| 0 <= i < projection@.len() ==> projection@[i] < self@.columns.len(),
            8 * (self@.num_key_columns + projection@.len()) <= usize::MAX,
        ensures
            r@.columns == projected_with_key(
                self@.columns,
                self@.num_key_columns as nat,
                projection@,
            ),
            r@.num_key_columns == self@.num_key_columns,
            r@.arrow == (ArrowSchemaView { fields: fields_of(r@.columns), metadata: Seq::empty() }),
    {
        let ghost model = self@.columns;
        let ghost nk = self@.num_key_columns as nat;
        let all = self.column_schemas.columns();
        let mut columns: Vec<ColumnSchema> = Vec::with_capacity(self.num_key_columns);
        let mut i: usize = 0;
        while i < self.num_key_columns
            invariant
                i <= self.num_key_columns <= all@.len(),
                views(all@) == model,
                columns@.len() == i,
                forall|k: int| 0 <= k < i ==> columns@[k]@ == model[k],
            decreases self.num_key_columns - i,
        {
            proof {
                assert(all@[i as int]@ == model[i as int]);
            }
            columns.push(all[i].clone());
            i += 1;
        }
        proof {
            assert(views(columns@) =~= model.take(nk as int) + normal_picks(
                model,
                nk,
                projection@,
                0,
            ));
        }
        let mut j: usize = 0;
        while j < projection.len()
            invariant
                j <= projection@.len(),
                nk == self.num_key_columns,
                nk <= model.len(),
                views(all@) == model,
                forall|k: int| 0 <= k < projection@.len() ==> projection@[k] < model.len(),
                views(columns@) == model.take(nk as int) + normal_picks(
                    model,
                    nk,
                    projection@,
                    j as nat,
                ),
            decreases projection@.len() - j,
        {
            let p = projection[j];
            let ghost front = views(columns@);
            if p >= self.num_key_columns {
                proof {
                    assert(all@[p as int]@ == model[p as int]);
                }
                columns.push(all[p].clone());
                proof {
                    assert(views(columns@) =~= front.push(model[p as int]));
                    assert(front.push(model[p as int]) =~= model.take(nk as int) + normal_picks(
                        model,
                        nk,
                        projection@,
                        (j + 1) as nat,
                    ));
                }
            }
            j += 1;
        }
        proof {
            lemma_normal_picks_len(model, nk, projection@, projection@.len());
            assert(views(columns@).len() == columns@.len());
        }
        let record_schema = RecordSchema::from_column_schemas(ColumnSchemas::new(columns));
        RecordSchemaWithKey { record_schema, num_key_columns: self.num_key_columns }
    }

    /// The record schema of a projection: the column at each position
    /// that `projection` names, in its order.
    pub fn project_record_schema(&self, projection: &[usize]) -> (r: RecordSchema)
        requires
            forall|i: int| 0 <= i < projection@.len() ==> projection@[i] < self@.columns.len(),
            8 * projection@.len() <= usize::MAX,
        ensures
            r@.columns == projected(self@.columns, projection@),
            r@.arrow == (ArrowSchemaView { fields: fields_of(r@.columns), metadata: Seq::empty() }),
            r.wf(),
    {
        let ghost model = self@.columns;
        let all = self.column_schemas.columns();
        let mut columns: Vec<ColumnSchema> = Vec::with_capacity(projection.len());
        let mut j: usize = 0;
        while j < projection.len()
            invariant
                j <= projection@.len(),
                views(all@) == model,
                forall|k: int| 0 <= k < projection@.len() ==> projection@[k] < model.len(),
                columns@.len() == j,
                forall|k: int| 0 <= k < j ==> columns@[k]@ == model[projection@[k] as int],
            decreases projection@.len() - j,
        {
            let p = projection[j];
            proof {
                assert(all@[p as int]@ == model[p as int]);
            }
            columns.push(all[p].clone());
            j += 1;
        }
        proof {
            assert(views(columns@) =~= projected(model, projection@));
        }
        RecordSchema::from_column_schemas(ColumnSchemas::new(columns))
    }

    /// The byte offsets of the columns in a contiguous row: for each
    /// column the widths of the columns in front of it, summed.
    pub fn byte_offsets(&self) -> (r: &[usize])
        ensures
            r@ == self.offsets(),
            self.wf() ==> r@.len() == self@.columns.len() && forall|i: int|
                0 <= i < self@.columns.len() ==> #[trigger] r@[i] == offset_at(
                    self@.columns,
                    i as nat,
                ),
    {
        self.column_schemas.byte_offsets()
    }

    /// Byte offset in a contiguous row of the column at `index`.
    pub fn byte_offset(&self, index: usize) -> (r: usize)
        requires
            self.wf(),
            index < self@.columns.len(),
        ensures
            r == offset_at(self@.columns, index as nat),
    {
        self.column_schemas.byte_offset(index)
    }

    /// Where the string buffer starts in a contiguous row.
    pub fn string_buffer_offset(&self) -> (r: usize)
        requires
            self.wf(),
        ensures
            r == offset_at(self@.columns, self@.columns.len()),
    {
        self.column_schemas.string_buffer_offset()
    }
}

} // verus!
