//! A valid schema survives the way through its columnar form and through
//! its wire message.

use vstd::prelude::*;
use crate::arrow::{
    fields_of, lemma_field_round_trip, lemma_meta_keys_distinct, meta_lookup, ArrowSchemaMetaKey,
};
use crate::builder::{
    admission_error, after_key, after_normal, build_error, built_schema, count_entry, flag_entry,
    has_id, key_admission_error, lemma_first_named, max_id, meta_of, parsed_meta, schema_of_arrow,
    version_entry, ArrowSchemaMeta, BuilderView,
};
use crate::builder_laws::valid_schema;
use crate::column_schema::{ColumnId, ColumnView, COLUMN_ID_UNINIT};
use crate::registry::has_name;
use crate::schema::{decoded_columns, SchemaView, Version};
use crate::text::{lemma_decimal_round_trip, lemma_flag_round_trip};
use crate::wire::{admitted, schema_of_wire, wire_of, wire_start};

verus! {

/// The fields of some columns decode to these columns.
pub proof fn lemma_decode_encoded(columns: Seq<ColumnView>, n: nat)
    requires
        n <= columns.len(),
    ensures
        decoded_columns(fields_of(columns), n) == Ok::<Seq<ColumnView>, nat>(
            columns.take(n as int),
        ),
    decreases n,
{
    if n == 0 {
        assert(columns.take(0) =~= Seq::empty());
    } else {
        lemma_decode_encoded(columns, (n - 1) as nat);
        lemma_field_round_trip(columns[n - 1]);
        assert(columns.take(n - 1).push(columns[n - 1]) =~= columns.take(n as int));
    }
}

/// Each fact is found in the dictionary under its key.
pub proof fn lemma_meta_entries(
    num_key_columns: usize,
    timestamp_index: usize,
    version: Version,
    enable_tsid_primary_key: bool,
)
    ensures
        parsed_meta(
            meta_of(num_key_columns, timestamp_index, version, enable_tsid_primary_key),
        ) == Ok::<ArrowSchemaMeta, crate::error::ErrorView>(
            ArrowSchemaMeta { num_key_columns, timestamp_index, enable_tsid_primary_key, version },
        ),
{
    let m = meta_of(num_key_columns, timestamp_index, version, enable_tsid_primary_key);
    let m3 = m.drop_last();
    let m2 = m3.drop_last();
    let m1 = m2.drop_last();
    assert(m.last() == m[3] && m3.last() == m[2] && m2.last() == m[1] && m1.last() == m[0]);
    assert(m.len() == 4 && m3.len() == 3 && m2.len() == 2 && m1.len() == 1);
    lemma_meta_keys_distinct(
        ArrowSchemaMetaKey::NumKeyColumns,
        ArrowSchemaMetaKey::TimestampIndex,
    );
    lemma_meta_keys_distinct(ArrowSchemaMetaKey::NumKeyColumns, ArrowSchemaMetaKey::Version);
    lemma_meta_keys_distinct(
        ArrowSchemaMetaKey::NumKeyColumns,
        ArrowSchemaMetaKey::EnableTsidPrimaryKey,
    );
    lemma_meta_keys_distinct(ArrowSchemaMetaKey::TimestampIndex, ArrowSchemaMetaKey::Version);
    lemma_meta_keys_distinct(
        ArrowSchemaMetaKey::TimestampIndex,
        ArrowSchemaMetaKey::EnableTsidPrimaryKey,
    );
    lemma_meta_keys_distinct(
        ArrowSchemaMetaKey::Version,
        ArrowSchemaMetaKey::EnableTsidPrimaryKey,
    );
    let k_count = ArrowSchemaMetaKey::NumKeyColumns.text();
    let k_time = ArrowSchemaMetaKey::TimestampIndex.text();
    let k_version = ArrowSchemaMetaKey::Version.text();
    let k_flag = ArrowSchemaMetaKey::EnableTsidPrimaryKey.text();
    assert(meta_lookup(m, k_flag) == Some(m[3].1));
    assert(meta_lookup(m3, k_version) == Some(m[2].1));
    assert(meta_lookup(m, k_version) == meta_lookup(m3, k_version));
    assert(meta_lookup(m2, k_time) == Some(m[1].1));
    assert(meta_lookup(m3, k_time) == meta_lookup(m2, k_time));
    assert(meta_lookup(m, k_time) == meta_lookup(m3, k_time));
    assert(meta_lookup(m1, k_count) == Some(m[0].1));
    assert(meta_lookup(m2, k_count) == meta_lookup(m1, k_count));
    assert(meta_lookup(m3, k_count) == meta_lookup(m2, k_count));
    assert(meta_lookup(m, k_count) == meta_lookup(m3, k_count));
    lemma_decimal_round_trip(num_key_columns as nat, usize::MAX as nat);
    lemma_decimal_round_trip(timestamp_index as nat, usize::MAX as nat);
    lemma_decimal_round_trip(version as nat, u32::MAX as nat);
    lemma_flag_round_trip(enable_tsid_primary_key);
    assert(count_entry(m, ArrowSchemaMetaKey::NumKeyColumns) == Ok::<
        usize,
        crate::error::ErrorView,
    >(num_key_columns));
    assert(count_entry(m, ArrowSchemaMetaKey::TimestampIndex) == Ok::<
        usize,
        crate::error::ErrorView,
    >(timestamp_index));
    assert(flag_entry(m, ArrowSchemaMetaKey::EnableTsidPrimaryKey) == Ok::<
        bool,
        crate::error::ErrorView,
    >(enable_tsid_primary_key));
    assert(version_entry(m, ArrowSchemaMetaKey::Version) == Ok::<Version, crate::error::ErrorView>(
        version,
    ));
}

/// Round trip through the columnar form: the columnar form of a valid
/// schema describes that schema, field for field and entry for entry.
pub proof fn lemma_arrow_round_trip(s: SchemaView)
    requires
        valid_schema(s),
    ensures
        schema_of_arrow(s.arrow) == Ok::<SchemaView, crate::error::ErrorView>(s),
{
    lemma_decode_encoded(s.columns, s.columns.len());
    assert(s.columns.take(s.columns.len() as int) =~= s.columns);
    assert(s.arrow.fields.len() == s.columns.len());
    lemma_meta_entries(
        s.num_key_columns,
        s.timestamp_index,
        s.version,
        s.enable_tsid_primary_key,
    );
}

/// The greatest id among the first `n` columns, or the id that stands
/// for none if there are no columns.
pub open spec fn max_id_upto(columns: Seq<ColumnView>, n: nat) -> ColumnId
    decreases n,
{
    if n == 0 {
        COLUMN_ID_UNINIT
    } else {
        max_id(max_id_upto(columns, (n - 1) as nat), columns[n - 1].id)
    }
}

/// The builder that has taken the first `n` columns of a schema.
pub open spec fn builder_upto(s: SchemaView, n: nat) -> BuilderView {
    BuilderView {
        columns: s.columns.take(n as int),
        num_key_columns: if n < s.num_key_columns {
            n as usize
        } else {
            s.num_key_columns
        },
        timestamp_index: if s.timestamp_index < n {
            Some(s.timestamp_index)
        } else {
            None
        },
        version: s.version,
        auto_increment_column_id: false,
        max_column_id: max_id_upto(s.columns, n),
        enable_tsid_primary_key: s.enable_tsid_primary_key,
    }
}

/// Reading the message of a valid schema adds its columns one by one
/// without error.
pub proof fn lemma_wire_columns_admitted(s: SchemaView, n: nat)
    requires
        valid_schema(s),
        s.num_key_columns <= u32::MAX,
        n <= s.columns.len(),
    ensures
        admitted(wire_of(s), n) == Ok::<BuilderView, crate::error::ErrorView>(builder_upto(s, n)),
    decreases n,
{
    let pb = wire_of(s);
    if n == 0 {
        assert(s.columns.take(0) =~= Seq::empty());
        assert(builder_upto(s, 0) == wire_start(pb));
    } else {
        let m = (n - 1) as nat;
        lemma_wire_columns_admitted(s, m);
        let b = builder_upto(s, m);
        let c = s.columns[n - 1];
        assert(pb.columns[n - 1] == c);
        assert(!has_name(b.columns, c.name)) by {
            if has_name(b.columns, c.name) {
                let i = choose|i: int| 0 <= i < b.columns.len() && b.columns[i].name == c.name;
                assert(s.columns[i].name == s.columns[n - 1].name);
            }
        }
        assert(!has_id(b.columns, c.id)) by {
            if has_id(b.columns, c.id) {
                let i = choose|i: int| 0 <= i < b.columns.len() && b.columns[i].id == c.id;
                assert(s.columns[i].id == s.columns[n - 1].id);
            }
        }
        assert(admission_error(b, c) is None);
        if m < s.num_key_columns {
            assert(key_admission_error(b, c) is None);
            assert(after_key(b, c).columns =~= s.columns.take(n as int));
            assert(after_key(b, c) == builder_upto(s, n));
        } else {
            assert(after_normal(b, c).columns =~= s.columns.take(n as int));
            assert(after_normal(b, c) == builder_upto(s, n));
        }
    }
}

/// Round trip through the wire message: the message of a valid schema
/// describes that schema, as long as its key-column count fits into the
/// 32 bits that the message has for it.
pub proof fn lemma_wire_round_trip(s: SchemaView)
    requires
        valid_schema(s),
        s.num_key_columns <= u32::MAX,
    ensures
        schema_of_wire(wire_of(s)) == Ok::<SchemaView, crate::error::ErrorView>(s),
{
    lemma_wire_columns_admitted(s, s.columns.len());
    let b = builder_upto(s, s.columns.len());
    assert(s.columns.take(s.columns.len() as int) =~= s.columns);
    lemma_first_named(s.columns, "tsid"@, s.columns.len());
    assert(b.columns == s.columns);
    assert(build_error(b) is None);
    assert(built_schema(b) == s);
}

} // verus!
