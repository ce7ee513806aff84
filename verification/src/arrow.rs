//! The columnar representation of a schema that is exchanged with the query
//! engine: an ordered list of fields and a dictionary of text entries.

use vstd::prelude::*;
use crate::column_schema::{ColumnId, ColumnSchema, ColumnView};
use crate::datum::DatumKind;

verus! {

/// Entries of the dictionary that carry the facts of a schema.
#[derive(Copy, Clone, Debug, PartialEq, Eq, Structural)]
pub enum ArrowSchemaMetaKey {
    NumKeyColumns,
    TimestampIndex,
    EnableTsidPrimaryKey,
    Version,
}

impl ArrowSchemaMetaKey {
    /// The key under which the entry is stored.
    pub open spec fn text(self) -> Seq<char> {
        match self {
            ArrowSchemaMetaKey::NumKeyColumns => "schema:num_key_columns"@,
            ArrowSchemaMetaKey::TimestampIndex => "schema::timestamp_index"@,
            ArrowSchemaMetaKey::EnableTsidPrimaryKey => "schema::enable_tsid_primary_key"@,
            ArrowSchemaMetaKey::Version => "schema::version"@,
        }
    }

    pub fn as_str(&self) -> (r: &'static str)
        ensures
            r@ == self.text(),
    {
        match self {
            ArrowSchemaMetaKey::NumKeyColumns => "schema:num_key_columns",
            ArrowSchemaMetaKey::TimestampIndex => "schema::timestamp_index",
            ArrowSchemaMetaKey::EnableTsidPrimaryKey => "schema::enable_tsid_primary_key",
            ArrowSchemaMetaKey::Version => "schema::version",
        }
    }

    pub fn to_string(&self) -> (r: String)
        ensures
            r@ == self.text(),
    {
        String::from_str(self.as_str())
    }
}

/// No two entries share a key.
pub proof fn lemma_meta_keys_distinct(a: ArrowSchemaMetaKey, b: ArrowSchemaMetaKey)
    ensures
        a.text() == b.text() <==> a == b,
{
    reveal_strlit("schema:num_key_columns");
    reveal_strlit("schema::timestamp_index");
    reveal_strlit("schema::enable_tsid_primary_key");
    reveal_strlit("schema::version");
    assert("schema:num_key_columns"@.len() == 22);
    assert("schema::timestamp_index"@.len() == 23);
    assert("schema::enable_tsid_primary_key"@.len() == 31);
    assert("schema::version"@.len() == 15);
}

/// Physical type of a field of the columnar representation.
#[derive(Copy, Clone, Debug, PartialEq, Eq, Structural)]
pub enum ArrowDataType {
    Null,
    TimestampMillisecond,
    Float64,
    Float32,
    Binary,
    Utf8,
    UInt64,
    UInt32,
    UInt16,
    UInt8,
    Int64,
    Int32,
    Int16,
    Int8,
    Boolean,
    /// Any type that no kind of datum is stored as.
    Unsupported,
}

/// The physical type that values of a kind are stored as.
pub open spec fn arrow_type_of(kind: DatumKind) -> ArrowDataType {
    match kind {
        DatumKind::Null => ArrowDataType::Null,
        DatumKind::Timestamp => ArrowDataType::TimestampMillisecond,
        DatumKind::Double => ArrowDataType::Float64,
        DatumKind::Float => ArrowDataType::Float32,
        DatumKind::Varbinary => ArrowDataType::Binary,
        DatumKind::String => ArrowDataType::Utf8,
        DatumKind::UInt64 => ArrowDataType::UInt64,
        DatumKind::UInt32 => ArrowDataType::UInt32,
        DatumKind::UInt16 => ArrowDataType::UInt16,
        DatumKind::UInt8 => ArrowDataType::UInt8,
        DatumKind::Int64 => ArrowDataType::Int64,
        DatumKind::Int32 => ArrowDataType::Int32,
        DatumKind::Int16 => ArrowDataType::Int16,
        DatumKind::Int8 => ArrowDataType::Int8,
        DatumKind::Boolean => ArrowDataType::Boolean,
    }
}

/// The kind of datum that a physical type stores, if any.
pub open spec fn kind_of_arrow_type(data_type: ArrowDataType) -> Option<DatumKind> {
    match data_type {
        ArrowDataType::Null => Some(DatumKind::Null),
        ArrowDataType::TimestampMillisecond => Some(DatumKind::Timestamp),
        ArrowDataType::Float64 => Some(DatumKind::Double),
        ArrowDataType::Float32 => Some(DatumKind::Float),
        ArrowDataType::Binary => Some(DatumKind::Varbinary),
        ArrowDataType::Utf8 => Some(DatumKind::String),
        ArrowDataType::UInt64 => Some(DatumKind::UInt64),
        ArrowDataType::UInt32 => Some(DatumKind::UInt32),
        ArrowDataType::UInt16 => Some(DatumKind::UInt16),
        ArrowDataType::UInt8 => Some(DatumKind::UInt8),
        ArrowDataType::Int64 => Some(DatumKind::Int64),
        ArrowDataType::Int32 => Some(DatumKind::Int32),
        ArrowDataType::Int16 => Some(DatumKind::Int16),
        ArrowDataType::Int8 => Some(DatumKind::Int8),
        ArrowDataType::Boolean => Some(DatumKind::Boolean),
        ArrowDataType::Unsupported => None,
    }
}

impl DatumKind {
    pub fn to_arrow_type(&self) -> (r: ArrowDataType)
        ensures
            r == arrow_type_of(*self),
    {
        match self {
            DatumKind::Null => ArrowDataType::Null,
            DatumKind::Timestamp => ArrowDataType::TimestampMillisecond,
            DatumKind::Double => ArrowDataType::Float64,
            DatumKind::Float => ArrowDataType::Float32,
            DatumKind::Varbinary => ArrowDataType::Binary,
            DatumKind::String => ArrowDataType::Utf8,
            DatumKind::UInt64 => ArrowDataType::UInt64,
            DatumKind::UInt32 => ArrowDataType::UInt32,
            DatumKind::UInt16 => ArrowDataType::UInt16,
            DatumKind::UInt8 => ArrowDataType::UInt8,
            DatumKind::Int64 => ArrowDataType::Int64,
            DatumKind::Int32 => ArrowDataType::Int32,
            DatumKind::Int16 => ArrowDataType::Int16,
            DatumKind::Int8 => ArrowDataType::Int8,
            DatumKind::Boolean => ArrowDataType::Boolean,
        }
    }

    pub fn from_arrow_type(data_type: ArrowDataType) -> (r: Option<DatumKind>)
        ensures
            r == kind_of_arrow_type(data_type),
    {
        match data_type {
            ArrowDataType::Null => Some(DatumKind::Null),
            ArrowDataType::TimestampMillisecond => Some(DatumKind::Timestamp),
            ArrowDataType::Float64 => Some(DatumKind::Double),
            ArrowDataType::Float32 => Some(DatumKind::Float),
            ArrowDataType::Binary => Some(DatumKind::Varbinary),
            ArrowDataType::Utf8 => Some(DatumKind::String),
            ArrowDataType::UInt64 => Some(DatumKind::UInt64),
            ArrowDataType::UInt32 => Some(DatumKind::UInt32),
            ArrowDataType::UInt16 => Some(DatumKind::UInt16),
            ArrowDataType::UInt8 => Some(DatumKind::UInt8),
            ArrowDataType::Int64 => Some(DatumKind::Int64),
            ArrowDataType::Int32 => Some(DatumKind::Int32),
            ArrowDataType::Int16 => Some(DatumKind::Int16),
            ArrowDataType::Int8 => Some(DatumKind::Int8),
            ArrowDataType::Boolean => Some(DatumKind::Boolean),
            ArrowDataType::Unsupported => None,
        }
    }
}

/// A field of the columnar representation: name, physical type and
/// nullability, and what the field's own dictionary keeps of the column.
#[derive(Debug, PartialEq, Eq)]
pub struct ArrowField {
    pub name: String,
    pub data_type: ArrowDataType,
    pub is_nullable: bool,
    pub id: ColumnId,
    pub is_tag: bool,
    pub comment: String,
}

/// Mathematical value of an [`ArrowField`].
pub struct ArrowFieldView {
    pub name: Seq<char>,
    pub data_type: ArrowDataType,
    pub is_nullable: bool,
    pub id: ColumnId,
    pub is_tag: bool,
    pub comment: Seq<char>,
}

impl View for ArrowField {
    type V = ArrowFieldView;

    open spec fn view(&self) -> ArrowFieldView {
        ArrowFieldView {
            name: self.name@,
            data_type: self.data_type,
            is_nullable: self.is_nullable,
            id: self.id,
            is_tag: self.is_tag,
            comment: self.comment@,
        }
    }
}

impl Clone for ArrowField {
    fn clone(&self) -> (r: Self)
        ensures
            r@ == self@,
    {
        ArrowField {
            name: self.name.clone(),
            data_type: self.data_type,
            is_nullable: self.is_nullable,
            id: self.id,
            is_tag: self.is_tag,
            comment: self.comment.clone(),
        }
    }
}

/// The field that represents a column.
pub open spec fn field_of(column: ColumnView) -> ArrowFieldView {
    ArrowFieldView {
        name: column.name,
        data_type: arrow_type_of(column.data_type),
        is_nullable: column.is_nullable,
        id: column.id,
        is_tag: column.is_tag,
        comment: column.comment,
    }
}

/// The column that a field represents, if its type is supported.
pub open spec fn column_of(field: ArrowFieldView) -> Option<ColumnView> {
    match kind_of_arrow_type(field.data_type) {
        Some(kind) => Some(
            ColumnView {
                id: field.id,
                name: field.name,
                data_type: kind,
                is_nullable: field.is_nullable,
                is_tag: field.is_tag,
                comment: field.comment,
            },
        ),
        None => None,
    }
}

/// The fields that represent a sequence of columns.
pub open spec fn fields_of(columns: Seq<ColumnView>) -> Seq<ArrowFieldView> {
    Seq::new(columns.len(), |i: int| field_of(columns[i]))
}

/// A column is recovered from its field.
pub proof fn lemma_field_round_trip(column: ColumnView)
    ensures
        column_of(field_of(column)) == Some(column),
{
}

/// A field of a supported type is recovered from its column.
pub proof fn lemma_column_round_trip(field: ArrowFieldView)
    requires
        column_of(field) is Some,
    ensures
        field_of(column_of(field).unwrap()) == field,
{
}

impl ColumnSchema {
    /// The field that represents this column.
    pub fn to_arrow_field(&self) -> (r: ArrowField)
        ensures
            r@ == field_of(self@),
    {
        ArrowField {
            name: self.name.clone(),
            data_type: self.data_type.to_arrow_type(),
            is_nullable: self.is_nullable,
            id: self.id,
            is_tag: self.is_tag,
            comment: self.comment.clone(),
        }
    }

    /// The column that a field represents; `None` if the field's type is
    /// not supported.
    pub fn from_arrow_field(field: &ArrowField) -> (r: Option<ColumnSchema>)
        ensures
            r is Some <==> column_of(field@) is Some,
            r matches Some(c) ==> Some(c@) == column_of(field@),
    {
        match DatumKind::from_arrow_type(field.data_type) {
            Some(kind) => Some(
                ColumnSchema {
                    id: field.id,
                    name: field.name.clone(),
                    data_type: kind,
                    is_nullable: field.is_nullable,
                    is_tag: field.is_tag,
                    comment: field.comment.clone(),
                },
            ),
            None => None,
        }
    }
}

/// One entry of the dictionary.
#[derive(Debug, PartialEq, Eq)]
pub struct MetaEntry {
    pub key: String,
    pub value: String,
}

impl Clone for MetaEntry {
    fn clone(&self) -> (r: Self)
        ensures
            r.key@ == self.key@,
            r.value@ == self.value@,
    {
        MetaEntry { key: self.key.clone(), value: self.value.clone() }
    }
}

/// The entries of a dictionary as pairs of texts.
pub open spec fn entries(metadata: Seq<MetaEntry>) -> Seq<(Seq<char>, Seq<char>)> {
    Seq::new(metadata.len(), |i: int| (metadata[i].key@, metadata[i].value@))
}

/// The value stored under a key: that of the last entry with the key, as
/// a later entry replaces an earlier one.
pub open spec fn meta_lookup(entries: Seq<(Seq<char>, Seq<char>)>, key: Seq<char>) -> Option<
    Seq<char>,
>
    decreases entries.len(),
{
    if entries.len() == 0 {
        None
    } else if entries.last().0 == key {
        Some(entries.last().1)
    } else {
        meta_lookup(entries.drop_last(), key)
    }
}

/// The columnar representation of a schema.
#[derive(Debug, PartialEq, Eq)]
pub struct ArrowSchema {
    pub fields: Vec<ArrowField>,
    pub metadata: Vec<MetaEntry>,
}

/// Mathematical value of an [`ArrowSchema`].
pub struct ArrowSchemaView {
    pub fields: Seq<ArrowFieldView>,
    pub metadata: Seq<(Seq<char>, Seq<char>)>,
}

impl View for ArrowSchema {
    type V = ArrowSchemaView;

    open spec fn view(&self) -> ArrowSchemaView {
        ArrowSchemaView {
            fields: Seq::new(self.fields@.len(), |i: int| self.fields@[i]@),
            metadata: entries(self.metadata@),
        }
    }
}

impl Clone for ArrowSchema {
    fn clone(&self) -> (r: Self)
        ensures
            r@ == self@,
    {
        let mut fields: Vec<ArrowField> = Vec::with_capacity(self.fields.len());
        let mut i: usize = 0;
        while i < self.fields.len()
            invariant
                i <= self.fields@.len(),
                fields@.len() == i,
                forall|j: int| 0 <= j < i ==> fields@[j]@ == self.fields@[j]@,
            decreases self.fields@.len() - i,
        {
            fields.push(self.fields[i].clone());
            i += 1;
        }
        let mut metadata: Vec<MetaEntry> = Vec::with_capacity(self.metadata.len());
        let mut k: usize = 0;
        while k < self.metadata.len()
            invariant
                k <= self.metadata@.len(),
                metadata@.len() == k,
                forall|j: int|
                    0 <= j < k ==> metadata@[j].key@ == self.metadata@[j].key@ && metadata@[j].value@
                        == self.metadata@[j].value@,
            decreases self.metadata@.len() - k,
        {
            metadata.push(self.metadata[k].clone());
            k += 1;
        }
        let r = ArrowSchema { fields, metadata };
        proof {
            assert(r@.fields =~= self@.fields);
            assert(r@.metadata =~= self@.metadata);
        }
        r
    }
}

impl ArrowSchema {
    /// The value stored under `key`, if any.
    pub fn meta_value(&self, key: &str) -> (r: Option<&String>)
        ensures
            r is Some <==> meta_lookup(self@.metadata, key@) is Some,
            r matches Some(v) ==> Some(v@) == meta_lookup(self@.metadata, key@),
    {
        let wanted = String::from_str(key);
        let mut i: usize = self.metadata.len();
        proof {
            assert(self@.metadata.take(i as int) =~= self@.metadata);
        }
        while i > 0
            invariant
                i <= self.metadata@.len(),
                wanted@ == key@,
                meta_lookup(self@.metadata, key@) == meta_lookup(
                    self@.metadata.take(i as int),
                    key@,
                ),
            decreases i,
        {
            let ghost prefix = self@.metadata.take(i as int);
            i -= 1;
            proof {
                assert(prefix.last() == self@.metadata[i as int]);
                assert(prefix.drop_last() =~= self@.metadata.take(i as int));
            }
            if self.metadata[i].key == wanted {
                return Some(&self.metadata[i].value);
            }
        }
        proof {
            assert(self@.metadata.take(0).len() == 0);
        }
        None
    }
}

} // verus!
