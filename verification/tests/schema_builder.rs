use table_schema::builder::{Builder, TSID_COLUMN};
use table_schema::column_schema;
use table_schema::datum::DatumKind;
use table_schema::error::Error;
use table_schema::schema::Schema;
use table_schema::wire::TableSchemaPb;

fn column(name: &str, kind: DatumKind) -> column_schema::ColumnSchema {
    column_schema::Builder::new(name.to_string(), kind)
        .build()
        .expect("should succeed build column schema")
}

fn column_with_id(name: &str, kind: DatumKind, id: u32) -> column_schema::ColumnSchema {
    column_schema::Builder::new(name.to_string(), kind)
        .id(id)
        .build()
        .expect("should succeed build column schema")
}

#[test]
fn test_schema() {
    let schema = Builder::new()
        .auto_increment_column_id(true)
        .add_key_column(
            column_schema::Builder::new("key1".to_string(), DatumKind::Varbinary)
                .build()
                .expect("should succeed build column schema"),
        )
        .unwrap()
        .add_key_column(
            column_schema::Builder::new("timestamp".to_string(), DatumKind::Timestamp)
                .build()
                .expect("should succeed build column schema"),
        )
        .unwrap()
        .add_normal_column(
            column_schema::Builder::new("field1".to_string(), DatumKind::Double)
                .build()
                .expect("should succeed build column schema"),
        )
        .unwrap()
        .add_normal_column(
            column_schema::Builder::new("field2".to_string(), DatumKind::Double)
                .build()
                .expect("should succeed build column schema"),
        )
        .unwrap()
        .build()
        .unwrap();

    // Length related test
    assert_eq!(4, schema.columns().len());
    assert_eq!(4, schema.num_columns());
    assert_eq!(2, schema.num_key_columns());
    assert_eq!(1, schema.timestamp_index());

    // Test key columns
    assert_eq!(2, schema.key_columns().len());
    assert_eq!("key1", &schema.key_columns()[0].name);
    assert_eq!("timestamp", &schema.key_columns()[1].name);

    // Test normal columns
    assert_eq!(2, schema.normal_columns().len());
    assert_eq!("field1", &schema.normal_columns()[0].name);
    assert_eq!("field2", &schema.normal_columns()[1].name);

    // Test column_with_name()
    let field1 = schema.column_with_name("field1").unwrap();
    assert_eq!(3, field1.id);
    assert_eq!("field1", field1.name);
    assert!(schema.column_with_name("not exists").is_none());

    // Test column()
    assert_eq!(field1, schema.column(2));

    // Test arrow schema
    let arrow_schema = schema.as_arrow_schema_ref();
    let key1 = &arrow_schema.fields[0];
    assert_eq!("key1", key1.name);
    let field2 = &arrow_schema.fields[3];
    assert_eq!("field2", field2.name);

    // Test index_of()
    assert_eq!(1, schema.index_of("timestamp").unwrap());
    assert!(schema.index_of("not exists").is_none());

    // Test pb convert
    let schema_pb = TableSchemaPb::from_schema(schema.clone());
    let schema_from_pb = Schema::try_from_pb(schema_pb).unwrap();
    assert_eq!(schema, schema_from_pb);
}

#[test]
fn test_build_unordered() {
    let schema = Builder::new()
        .auto_increment_column_id(true)
        .add_normal_column(
            column_schema::Builder::new("field1".to_string(), DatumKind::Double)
                .build()
                .expect("should succeed build column schema"),
        )
        .unwrap()
        .add_key_column(
            column_schema::Builder::new("key1".to_string(), DatumKind::Timestamp)
                .build()
                .expect("should succeed build column schema"),
        )
        .unwrap()
        .add_key_column(
            column_schema::Builder::new("key2".to_string(), DatumKind::Varbinary)
                .build()
                .expect("should succeed build column schema"),
        )
        .unwrap()
        .add_normal_column(
            column_schema::Builder::new("field2".to_string(), DatumKind::Double)
                .build()
                .expect("should succeed build column schema"),
        )
        .unwrap()
        .build()
        .unwrap();

    let columns = schema.columns();
    assert_eq!(2, columns[0].id);
    assert_eq!("key1", columns[0].name);
    assert_eq!(3, columns[1].id);
    assert_eq!("key2", columns[1].name);
    assert_eq!(1, columns[2].id);
    assert_eq!("field1", columns[2].name);
    assert_eq!(4, columns[3].id);
    assert_eq!("field2", columns[3].name);
}

#[test]
fn test_name_exists() {
    let builder = Builder::new()
        .auto_increment_column_id(true)
        .add_normal_column(
            column_schema::Builder::new("field1".to_string(), DatumKind::Double)
                .build()
                .expect("should succeed build column schema"),
        )
        .unwrap();
    assert!(builder
        .add_normal_column(
            column_schema::Builder::new("field1".to_string(), DatumKind::Double)
                .build()
                .expect("should succeed build column schema"),
        )
        .is_err());
}

#[test]
fn test_id_exists() {
    let builder = Builder::new()
        .add_normal_column(
            column_schema::Builder::new("field1".to_string(), DatumKind::Double)
                .id(1)
                .build()
                .expect("should succeed build column schema"),
        )
        .unwrap();
    assert!(builder
        .add_normal_column(
            column_schema::Builder::new("field2".to_string(), DatumKind::Double)
                .id(1)
                .build()
                .expect("should succeed build column schema")
        )
        .is_err());
}

#[test]
fn test_key_column_type() {
    assert!(Builder::new()
        .add_key_column(
            column_schema::Builder::new("key".to_string(), DatumKind::Double)
                .id(1)
                .build()
                .expect("should succeed build column schema")
        )
        .is_err());
}

#[test]
fn test_timestamp_key_exists() {
    let builder = Builder::new()
        .auto_increment_column_id(true)
        .add_key_column(
            column_schema::Builder::new("key1".to_string(), DatumKind::Timestamp)
                .build()
                .expect("should succeed build column schema"),
        )
        .unwrap();
    assert!(builder
        .add_key_column(
            column_schema::Builder::new("key2".to_string(), DatumKind::Timestamp)
                .build()
                .expect("should succeed build column schema")
        )
        .is_err());
}

#[test]
fn test_mulitple_timestamp() {
    Builder::new()
        .auto_increment_column_id(true)
        .add_key_column(
            column_schema::Builder::new("key1".to_string(), DatumKind::Timestamp)
                .build()
                .expect("should succeed build column schema"),
        )
        .unwrap()
        .add_normal_column(
            column_schema::Builder::new("field1".to_string(), DatumKind::Timestamp)
                .build()
                .expect("should succeed build column schema"),
        )
        .unwrap()
        .build()
        .unwrap();
}

#[test]
fn test_missing_timestamp_key() {
    let builder = Builder::new()
        .auto_increment_column_id(true)
        .add_key_column(
            column_schema::Builder::new("key1".to_string(), DatumKind::Varbinary)
                .build()
                .expect("should succeed build column schema"),
        )
        .unwrap()
        .add_normal_column(
            column_schema::Builder::new("field1".to_string(), DatumKind::Double)
                .build()
                .expect("should succeed build column schema"),
        )
        .unwrap();
    assert!(builder.build().is_err());
}

#[test]
fn test_null_key() {
    assert!(Builder::new()
        .add_key_column(
            column_schema::Builder::new("key1".to_string(), DatumKind::Varbinary)
                .id(1)
                .is_nullable(true)
                .build()
                .expect("should succeed build column schema")
        )
        .is_err());
}

#[test]
fn test_max_column_id() {
    let builder = Builder::new()
        .add_key_column(
            column_schema::Builder::new("key1".to_string(), DatumKind::Varbinary)
                .id(2)
                .build()
                .expect("should succeed build column schema"),
        )
        .unwrap()
        .add_normal_column(
            column_schema::Builder::new("field1".to_string(), DatumKind::Timestamp)
                .id(5)
                .build()
                .expect("should succeed build column schema"),
        )
        .unwrap();

    let schema = builder
        .auto_increment_column_id(true)
        .add_key_column(
            column_schema::Builder::new("key2".to_string(), DatumKind::Timestamp)
                .build()
                .expect("should succeed build column schema"),
        )
        .unwrap()
        .add_normal_column(
            column_schema::Builder::new("field2".to_string(), DatumKind::Timestamp)
                .build()
                .expect("should succeed build column schema"),
        )
        .unwrap()
        .build()
        .unwrap();

    let columns = schema.columns();
    // Check key1
    assert_eq!("key1", &columns[0].name);
    assert_eq!(2, columns[0].id);
    // Check key2
    assert_eq!("key2", &columns[1].name);
    assert_eq!(6, columns[1].id);
    // Check field1
    assert_eq!("field1", &columns[2].name);
    assert_eq!(5, columns[2].id);
    // Check field2
    assert_eq!("field2", &columns[3].name);
    assert_eq!(7, columns[3].id);
}

#[test]
fn test_build_from_arrow_schema() {
    let schema = Builder::new()
        .auto_increment_column_id(true)
        .enable_tsid_primary_key(true)
        .add_key_column(
            column_schema::Builder::new(TSID_COLUMN.to_string(), DatumKind::UInt64)
                .build()
                .expect("should succeed build column schema"),
        )
        .unwrap()
        .add_key_column(
            column_schema::Builder::new("timestamp".to_string(), DatumKind::Timestamp)
                .build()
                .expect("should succeed build column schema"),
        )
        .unwrap()
        .add_normal_column(
            column_schema::Builder::new("value".to_string(), DatumKind::Double)
                .build()
                .expect("should succeed build column schema"),
        )
        .unwrap()
        .build()
        .expect("should succeed to build schema");

    let arrow_schema = schema.clone().into_arrow_schema_ref();
    let new_schema = Builder::build_from_arrow_schema(arrow_schema)
        .expect("should succeed to build new schema");

    assert_eq!(schema, new_schema);
}

#[test]
fn explicit_errors_name_their_cause() {
    let builder = Builder::new()
        .add_key_column(column_with_id("ts", DatumKind::Timestamp, 1))
        .unwrap();
    match builder.add_key_column(column_with_id("ts2", DatumKind::Timestamp, 2)) {
        Err(Error::TimestampKeyExists { timestamp_column, given_column }) => {
            assert_eq!("ts", timestamp_column);
            assert_eq!("ts2", given_column);
        }
        _ => panic!("expected a timestamp conflict"),
    }
    match Builder::new().add_key_column(column_with_id("k", DatumKind::Float, 1)) {
        Err(Error::KeyColumnType { name, kind }) => {
            assert_eq!("k", name);
            assert_eq!(DatumKind::Float, kind);
        }
        _ => panic!("expected a key kind error"),
    }
    match Builder::new()
        .add_normal_column(column_with_id("a", DatumKind::Double, 3))
        .unwrap()
        .add_normal_column(column_with_id("b", DatumKind::Double, 3))
    {
        Err(Error::ColumnIdExists { name, id }) => {
            assert_eq!("b", name);
            assert_eq!(3, id);
        }
        _ => panic!("expected an id conflict"),
    }
    match Builder::new()
        .add_normal_column(column_with_id("a", DatumKind::Double, 3))
        .unwrap()
        .add_key_column(column_with_id("a", DatumKind::Double, 3))
    {
        Err(Error::ColumnNameExists { name }) => assert_eq!("a", name),
        _ => panic!("expected a name conflict"),
    }
    assert!(matches!(
        Builder::new().add_key_column(
            column_schema::Builder::new("k".to_string(), DatumKind::Int32)
                .is_nullable(true)
                .build()
                .unwrap()
        ),
        Err(Error::NullKeyColumn { .. })
    ));
    assert!(matches!(
        Builder::new()
            .add_key_column(column("k", DatumKind::Int32))
            .unwrap()
            .build(),
        Err(Error::MissingTimestampKey)
    ));
}

#[test]
fn tsid_mode_needs_two_keys_one_named_tsid() {
    let three_keys = Builder::new()
        .auto_increment_column_id(true)
        .enable_tsid_primary_key(true)
        .add_key_column(column(TSID_COLUMN, DatumKind::UInt64))
        .unwrap()
        .add_key_column(column("timestamp", DatumKind::Timestamp))
        .unwrap()
        .add_key_column(column("other", DatumKind::Int64))
        .unwrap()
        .build();
    assert!(matches!(three_keys, Err(Error::InvalidTsidSchema)));

    let no_tsid = Builder::new()
        .auto_increment_column_id(true)
        .enable_tsid_primary_key(true)
        .add_key_column(column("id", DatumKind::UInt64))
        .unwrap()
        .add_key_column(column("timestamp", DatumKind::Timestamp))
        .unwrap()
        .build();
    assert!(matches!(no_tsid, Err(Error::InvalidTsidSchema)));

    let tsid_not_key = Builder::new()
        .auto_increment_column_id(true)
        .enable_tsid_primary_key(true)
        .add_key_column(column("id", DatumKind::UInt64))
        .unwrap()
        .add_key_column(column("timestamp", DatumKind::Timestamp))
        .unwrap()
        .add_normal_column(column(TSID_COLUMN, DatumKind::UInt64))
        .unwrap()
        .build();
    assert!(matches!(tsid_not_key, Err(Error::InvalidTsidSchema)));

    let good = Builder::new()
        .auto_increment_column_id(true)
        .enable_tsid_primary_key(true)
        .add_key_column(column("timestamp", DatumKind::Timestamp))
        .unwrap()
        .add_key_column(column(TSID_COLUMN, DatumKind::UInt64))
        .unwrap()
        .build()
        .unwrap();
    assert_eq!(Some(1), good.index_of_tsid());
    assert_eq!("tsid", good.tsid_column().unwrap().name);
    assert_eq!("timestamp", good.timestamp_name());
}

#[test]
fn key_columns_keep_call_order_whatever_the_interleaving() {
    let schema = Builder::default()
        .add_normal_column(column_with_id("n1", DatumKind::Double, 10))
        .unwrap()
        .add_key_column(column_with_id("k1", DatumKind::Int64, 11))
        .unwrap()
        .add_normal_column(column_with_id("n2", DatumKind::String, 12))
        .unwrap()
        .add_key_column(column_with_id("k2", DatumKind::Timestamp, 13))
        .unwrap()
        .add_normal_column(column_with_id("n3", DatumKind::Null, 14))
        .unwrap()
        .add_key_column(column_with_id("k3", DatumKind::Boolean, 15))
        .unwrap()
        .build()
        .unwrap();
    let keys: Vec<&str> = schema.key_columns().iter().map(|c| c.name.as_str()).collect();
    assert_eq!(vec!["k1", "k2", "k3"], keys);
    let normal: Vec<&str> = schema.normal_columns().iter().map(|c| c.name.as_str()).collect();
    assert_eq!(vec!["n1", "n2", "n3"], normal);
    assert_eq!(3, schema.num_key_columns());
    assert_eq!(1, schema.timestamp_index());
    assert_eq!(1, schema.version());
    assert_eq!(Some(4), schema.index_of("n2"));
}

#[test]
fn schemas_are_equal_by_columns_and_facts() {
    let build = |version: u32, name: &str| {
        Builder::new()
            .version(version)
            .add_key_column(column_with_id("ts", DatumKind::Timestamp, 1))
            .unwrap()
            .add_normal_column(column_with_id(name, DatumKind::Double, 2))
            .unwrap()
            .build()
            .unwrap()
    };
    assert_eq!(build(3, "v"), build(3, "v"));
    assert_ne!(build(3, "v"), build(4, "v"));
    assert_ne!(build(3, "v"), build(3, "w"));
    assert_eq!(build(3, "v").to_record_schema(), build(4, "v").to_record_schema());
    assert_ne!(build(3, "v").to_record_schema(), build(3, "w").to_record_schema());
    assert_eq!(
        build(3, "v").to_record_schema_with_key(),
        build(3, "v").to_record_schema_with_key()
    );
}

#[test]
fn unassigned_id_stays_without_auto_increment() {
    let schema = Builder::new()
        .add_key_column(column("ts", DatumKind::Timestamp))
        .unwrap()
        .build()
        .unwrap();
    assert_eq!(0, schema.column(0).id);
    assert!(matches!(
        Builder::new()
            .add_key_column(column("ts", DatumKind::Timestamp))
            .unwrap()
            .add_normal_column(column("v", DatumKind::Double)),
        Err(Error::ColumnIdExists { id: 0, .. })
    ));
}
