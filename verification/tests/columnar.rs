use std::sync::Arc;

use table_schema::arrow::{ArrowDataType, ArrowField, ArrowSchema, ArrowSchemaMetaKey, MetaEntry};
use table_schema::builder::{ArrowSchemaMeta, Builder, TSID_COLUMN, TIMESTAMP_COLUMN};
use table_schema::column_schema::{self, ColumnSchema};
use table_schema::datum::DatumKind;
use table_schema::error::Error;
use table_schema::schema::{RecordSchema, Schema};
use table_schema::text::{flag_string, parse_bool, read_u32, read_usize, write_decimal};
use table_schema::wire::TableSchemaPb;

fn col(name: &str, kind: DatumKind, id: u32) -> ColumnSchema {
    column_schema::Builder::new(name.to_string(), kind)
        .id(id)
        .build()
        .unwrap()
}

fn field(name: &str, data_type: ArrowDataType) -> ArrowField {
    ArrowField {
        name: name.to_string(),
        data_type,
        is_nullable: true,
        id: 0,
        is_tag: false,
        comment: String::new(),
    }
}

fn entry(key: &str, value: &str) -> MetaEntry {
    MetaEntry { key: key.to_string(), value: value.to_string() }
}

fn full_meta(count: &str, time: &str, flag: &str, version: &str) -> Vec<MetaEntry> {
    vec![
        entry("schema:num_key_columns", count),
        entry("schema::timestamp_index", time),
        entry("schema::enable_tsid_primary_key", flag),
        entry("schema::version", version),
    ]
}

fn sample() -> Schema {
    Builder::new()
        .version(12)
        .add_key_column(col("k", DatumKind::Int64, 4))
        .unwrap()
        .add_key_column(col(TIMESTAMP_COLUMN, DatumKind::Timestamp, 9))
        .unwrap()
        .add_normal_column(
            column_schema::Builder::new("v".to_string(), DatumKind::String)
                .id(2)
                .is_nullable(true)
                .is_tag(true)
                .comment("a value".to_string())
                .build()
                .unwrap(),
        )
        .unwrap()
        .build()
        .unwrap()
}

#[test]
fn metadata_keys_have_their_text() {
    assert_eq!("schema:num_key_columns", ArrowSchemaMetaKey::NumKeyColumns.as_str());
    assert_eq!("schema::timestamp_index", ArrowSchemaMetaKey::TimestampIndex.as_str());
    assert_eq!(
        "schema::enable_tsid_primary_key",
        ArrowSchemaMetaKey::EnableTsidPrimaryKey.as_str()
    );
    assert_eq!("schema::version", ArrowSchemaMetaKey::Version.as_str());
    assert_eq!("schema::version", ArrowSchemaMetaKey::Version.to_string());
}

#[test]
fn built_schema_stores_its_facts_as_text() {
    let schema = sample();
    let arrow = schema.as_arrow_schema_ref();
    assert_eq!(3, arrow.fields.len());
    assert_eq!(ArrowDataType::Int64, arrow.fields[0].data_type);
    assert_eq!(ArrowDataType::TimestampMillisecond, arrow.fields[1].data_type);
    assert_eq!(ArrowDataType::Utf8, arrow.fields[2].data_type);
    assert!(arrow.fields[2].is_nullable);
    assert_eq!(Some(&"2".to_string()), arrow.meta_value("schema:num_key_columns"));
    assert_eq!(Some(&"1".to_string()), arrow.meta_value("schema::timestamp_index"));
    assert_eq!(Some(&"12".to_string()), arrow.meta_value("schema::version"));
    assert_eq!(
        Some(&"false".to_string()),
        arrow.meta_value("schema::enable_tsid_primary_key")
    );
    assert_eq!(None, arrow.meta_value("schema::other"));
    assert_eq!(4, arrow.metadata.len());
}

#[test]
fn columnar_round_trip_gives_an_equal_schema() {
    let schema = sample();
    let back = Builder::build_from_arrow_schema(schema.to_arrow_schema_ref()).unwrap();
    assert_eq!(schema, back);
    assert_eq!(12, back.version());
    assert_eq!(2, back.num_key_columns());
    assert_eq!(1, back.timestamp_index());
    assert_eq!(None, back.index_of_tsid());
    assert!(back.tsid_column().is_none());
    assert_eq!("a value", back.column(2).comment);
}

#[test]
fn wire_round_trip_gives_an_equal_schema() {
    let schema = sample();
    let pb = TableSchemaPb::from_schema(schema.clone());
    assert_eq!(2, pb.num_key_columns);
    assert_eq!(12, pb.version);
    assert!(!pb.enable_tsid_primary_key);
    assert_eq!(3, pb.columns.len());
    assert_eq!(schema, Schema::try_from_pb(pb).unwrap());
}

#[test]
fn wire_message_without_timestamp_key_is_refused() {
    let pb = TableSchemaPb {
        columns: vec![col("k", DatumKind::Int64, 1), col("t", DatumKind::Timestamp, 2)],
        num_key_columns: 1,
        enable_tsid_primary_key: false,
        version: 1,
    };
    assert!(matches!(Schema::try_from_pb(pb), Err(Error::MissingTimestampKey)));
    let pb = TableSchemaPb {
        columns: vec![col("k", DatumKind::Double, 1), col("t", DatumKind::Timestamp, 2)],
        num_key_columns: 2,
        enable_tsid_primary_key: false,
        version: 1,
    };
    assert!(matches!(Schema::try_from_pb(pb), Err(Error::KeyColumnType { .. })));
}

#[test]
fn missing_metadata_gives_the_default_facts() {
    let arrow = ArrowSchema {
        fields: vec![field("a", ArrowDataType::Int32), field("b", ArrowDataType::Float64)],
        metadata: vec![entry("schema:num_key_columns", "1")],
    };
    let schema = Builder::build_from_arrow_schema(Arc::new(arrow)).unwrap();
    assert_eq!(0, schema.num_key_columns());
    assert_eq!(0, schema.timestamp_index());
    assert_eq!(0, schema.version());
    assert_eq!(None, schema.index_of_tsid());
    assert_eq!(2, schema.num_columns());
    assert_eq!(DatumKind::Double, schema.column(1).data_type);
    let empty = ArrowSchema { fields: vec![], metadata: vec![] };
    assert_eq!(
        ArrowSchemaMeta {
            num_key_columns: 0,
            timestamp_index: 0,
            enable_tsid_primary_key: false,
            version: 0
        },
        Builder::parse_arrow_schema_meta_or_default(&empty).unwrap()
    );
    assert!(matches!(
        Builder::parse_arrow_schema_meta(&empty),
        Err(Error::ArrowSchemaMetaKeyNotFound { key: ArrowSchemaMetaKey::NumKeyColumns })
    ));
}

#[test]
fn malformed_metadata_is_an_error() {
    let fields = || vec![field("a", ArrowDataType::Int32)];
    let arrow = ArrowSchema { fields: fields(), metadata: full_meta("one", "0", "false", "3") };
    match Builder::build_from_arrow_schema(Arc::new(arrow)) {
        Err(Error::InvalidArrowSchemaMetaValue { key, raw_value }) => {
            assert_eq!(ArrowSchemaMetaKey::NumKeyColumns, key);
            assert_eq!("one", raw_value);
        }
        _ => panic!("expected a malformed value"),
    }
    let arrow = ArrowSchema { fields: fields(), metadata: full_meta("1", "-0", "false", "3") };
    assert!(matches!(
        Builder::build_from_arrow_schema(Arc::new(arrow)),
        Err(Error::InvalidArrowSchemaMetaValue { key: ArrowSchemaMetaKey::TimestampIndex, .. })
    ));
    let arrow = ArrowSchema { fields: fields(), metadata: full_meta("1", "0", "True", "3") };
    assert!(matches!(
        Builder::build_from_arrow_schema(Arc::new(arrow)),
        Err(Error::InvalidArrowSchemaMetaValue {
            key: ArrowSchemaMetaKey::EnableTsidPrimaryKey,
            ..
        })
    ));
    let arrow =
        ArrowSchema { fields: fields(), metadata: full_meta("1", "0", "false", "4294967296") };
    assert!(matches!(
        Builder::build_from_arrow_schema(Arc::new(arrow)),
        Err(Error::InvalidArrowSchemaMetaValue { key: ArrowSchemaMetaKey::Version, .. })
    ));
    let arrow = ArrowSchema { fields: fields(), metadata: full_meta("", "0", "false", "3") };
    assert!(Builder::build_from_arrow_schema(Arc::new(arrow)).is_err());
}

#[test]
fn well_formed_metadata_is_read() {
    let arrow = ArrowSchema {
        fields: vec![field("a", ArrowDataType::Int32), field("tsid", ArrowDataType::UInt64)],
        metadata: full_meta("+2", "007", "true", "4294967295"),
    };
    let meta = Builder::parse_arrow_schema_meta(&arrow).unwrap();
    assert_eq!(2, meta.num_key_columns);
    assert_eq!(7, meta.timestamp_index);
    assert!(meta.enable_tsid_primary_key);
    assert_eq!(4294967295, meta.version);
    assert_eq!(
        "+2",
        Builder::parse_arrow_schema_meta_value(&arrow, ArrowSchemaMetaKey::NumKeyColumns).unwrap()
    );
    assert_eq!(2, Builder::parse_meta_count(&arrow, ArrowSchemaMetaKey::NumKeyColumns).unwrap());
    assert_eq!(
        4294967295,
        Builder::parse_meta_version(&arrow, ArrowSchemaMetaKey::Version).unwrap()
    );
    assert!(Builder::parse_meta_flag(&arrow, ArrowSchemaMetaKey::EnableTsidPrimaryKey).unwrap());
    let schema = Builder::build_from_arrow_schema(Arc::new(arrow)).unwrap();
    assert_eq!(Some(1), schema.index_of_tsid());
    assert_eq!(2, schema.num_key_columns());
}

#[test]
fn later_metadata_entry_replaces_an_earlier_one() {
    let mut metadata = full_meta("1", "0", "false", "3");
    metadata.push(entry("schema::version", "8"));
    let arrow = ArrowSchema { fields: vec![], metadata };
    assert_eq!(8, Builder::parse_arrow_schema_meta(&arrow).unwrap().version);
}

#[test]
fn enabled_tsid_without_tsid_field_is_refused() {
    let arrow = ArrowSchema {
        fields: vec![field("a", ArrowDataType::Int32)],
        metadata: full_meta("1", "0", "true", "3"),
    };
    assert!(matches!(Builder::build_from_arrow_schema(Arc::new(arrow)), Err(Error::InvalidTsidSchema)));
    let none: [ColumnSchema; 0] = [];
    assert_eq!(None, Builder::find_tsid_index(false, &none).unwrap());
    assert!(matches!(Builder::find_tsid_index(true, &none), Err(Error::InvalidTsidSchema)));
    let some = [col("a", DatumKind::Int8, 1), col(TSID_COLUMN, DatumKind::UInt64, 2)];
    assert_eq!(Some(1), Builder::find_tsid_index(true, &some).unwrap());
    assert_eq!(None, Builder::find_tsid_index(false, &some).unwrap());
}

#[test]
fn unsupported_field_is_refused_and_named() {
    let arrow = ArrowSchema {
        fields: vec![
            field("a", ArrowDataType::Int32),
            field("odd", ArrowDataType::Unsupported),
            field("odder", ArrowDataType::Unsupported),
        ],
        metadata: vec![],
    };
    match RecordSchema::try_from_arrow(&arrow) {
        Err(Error::InvalidArrowField { field_name }) => assert_eq!("odd", field_name),
        _ => panic!("expected an invalid field"),
    }
    match Builder::build_from_arrow_schema(Arc::new(arrow)) {
        Err(Error::InvalidArrowField { field_name }) => assert_eq!("odd", field_name),
        _ => panic!("expected an invalid field"),
    }
}

#[test]
fn clones_share_the_columnar_form() {
    let schema = sample();
    let copy = schema.clone();
    assert!(Arc::ptr_eq(schema.as_arrow_schema_ref(), copy.as_arrow_schema_ref()));
    assert!(Arc::ptr_eq(&schema.to_arrow_schema_ref(), &copy.into_arrow_schema_ref()));
    assert_eq!(schema, schema.clone());
    let record = schema.to_record_schema();
    assert!(Arc::ptr_eq(&record.to_arrow_schema_ref(), schema.as_arrow_schema_ref()));
    let built = Builder::build_from_record_schema(record).unwrap();
    assert_eq!(schema, built);
}

#[test]
fn record_schema_of_columnar_schema_drops_the_dictionary() {
    let schema = sample();
    let record = RecordSchema::try_from_arrow(schema.as_arrow_schema_ref()).unwrap();
    assert_eq!(3, record.num_columns());
    assert_eq!(schema.columns(), record.columns());
    assert!(record.to_arrow_schema_ref().metadata.is_empty());
    assert_eq!(schema.as_arrow_schema_ref().fields, record.to_arrow_schema_ref().fields);
}

#[test]
fn every_kind_has_its_physical_type() {
    let kinds = [
        (DatumKind::Null, ArrowDataType::Null, false, 1),
        (DatumKind::Timestamp, ArrowDataType::TimestampMillisecond, true, 8),
        (DatumKind::Double, ArrowDataType::Float64, false, 8),
        (DatumKind::Float, ArrowDataType::Float32, false, 4),
        (DatumKind::Varbinary, ArrowDataType::Binary, true, 4),
        (DatumKind::String, ArrowDataType::Utf8, true, 4),
        (DatumKind::UInt64, ArrowDataType::UInt64, true, 8),
        (DatumKind::UInt32, ArrowDataType::UInt32, true, 4),
        (DatumKind::UInt16, ArrowDataType::UInt16, true, 2),
        (DatumKind::UInt8, ArrowDataType::UInt8, true, 1),
        (DatumKind::Int64, ArrowDataType::Int64, true, 8),
        (DatumKind::Int32, ArrowDataType::Int32, true, 4),
        (DatumKind::Int16, ArrowDataType::Int16, true, 2),
        (DatumKind::Int8, ArrowDataType::Int8, true, 1),
        (DatumKind::Boolean, ArrowDataType::Boolean, true, 1),
    ];
    for (kind, data_type, is_key, size) in kinds {
        assert_eq!(data_type, kind.to_arrow_type());
        assert_eq!(Some(kind), DatumKind::from_arrow_type(data_type));
        assert_eq!(is_key, kind.is_key_kind());
        assert_eq!(size, kind.byte_size());
        assert_eq!(kind == DatumKind::Timestamp, kind.is_timestamp());
    }
    assert_eq!(None, DatumKind::from_arrow_type(ArrowDataType::Unsupported));
}

#[test]
fn flags_are_written_and_read_as_literals() {
    assert_eq!("true", flag_string(true));
    assert_eq!("false", flag_string(false));
    assert_eq!(Some(true), parse_bool("true"));
    assert_eq!(Some(false), parse_bool("false"));
    assert_eq!(None, parse_bool("1"));
    assert_eq!(None, parse_bool(""));
}

#[test]
fn tag_of_a_kind_that_is_no_key_kind_is_refused() {
    assert!(matches!(
        column_schema::Builder::new("t".to_string(), DatumKind::Double).is_tag(true).build(),
        Err(column_schema::Error::InvalidTagType { data_type: DatumKind::Double })
    ));
    let c = column_schema::Builder::new("t".to_string(), DatumKind::String)
        .is_tag(true)
        .build()
        .unwrap();
    assert!(c.is_tag);
    assert_eq!(c, c.clone());
}

#[test]
fn numbers_are_written_and_read_in_decimal() {
    assert_eq!("0", write_decimal(0));
    assert_eq!("7", write_decimal(7));
    assert_eq!("1203", write_decimal(1203));
    assert_eq!("18446744073709551615", write_decimal(u64::MAX));
    assert_eq!(Some(0), read_usize("0"));
    assert_eq!(Some(1203), read_usize("1203"));
    assert_eq!(Some(12), read_usize("+12"));
    assert_eq!(Some(12), read_usize("0012"));
    assert_eq!(None, read_usize(""));
    assert_eq!(None, read_usize("+"));
    assert_eq!(None, read_usize("-1"));
    assert_eq!(None, read_usize("1 "));
    assert_eq!(None, read_usize("1_000"));
    assert_eq!(None, read_usize("99999999999999999999999999"));
    assert_eq!(Some(4294967295), read_u32("4294967295"));
    assert_eq!(None, read_u32("4294967296"));
    assert_eq!(None, read_u32("12a"));
}
