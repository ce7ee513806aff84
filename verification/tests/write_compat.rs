use table_schema::builder::Builder;
use table_schema::column_schema::{self, ColumnSchema};
use table_schema::datum::DatumKind;
use table_schema::error::CompatError;
use table_schema::schema::{IndexInWriterSchema, Schema};

fn col(name: &str, kind: DatumKind, nullable: bool) -> ColumnSchema {
    column_schema::Builder::new(name.to_string(), kind)
        .is_nullable(nullable)
        .build()
        .unwrap()
}

fn schema_of(normal: Vec<ColumnSchema>) -> Schema {
    let mut builder = Builder::new()
        .auto_increment_column_id(true)
        .add_key_column(col("k1", DatumKind::Varbinary, false))
        .unwrap()
        .add_key_column(col("k2", DatumKind::Timestamp, false))
        .unwrap();
    for c in normal {
        builder = builder.add_normal_column(c).unwrap();
    }
    builder.build().unwrap()
}

fn entries(index: &IndexInWriterSchema) -> Vec<Option<usize>> {
    (0..index.len()).map(|i| index.column_index_in_writer(i)).collect()
}

#[test]
fn same_schema_gives_identity_map() {
    let schema = schema_of(vec![
        col("f1", DatumKind::Double, true),
        col("f2", DatumKind::Int32, false),
    ]);
    let mut index = IndexInWriterSchema::default();
    assert!(schema.compatible_for_write(&schema, &mut index).is_ok());
    assert_eq!(vec![Some(0), Some(1), Some(2), Some(3)], entries(&index));
    assert_eq!(entries(&IndexInWriterSchema::for_same_schema(4)), entries(&index));
}

#[test]
fn for_same_schema_of_no_columns_is_empty() {
    let index = IndexInWriterSchema::for_same_schema(0);
    assert_eq!(0, index.len());
    let index = IndexInWriterSchema::for_same_schema(3);
    assert_eq!(Some(2), index.column_index_in_writer(2));
}

#[test]
fn reordered_writer_is_mapped_by_name() {
    let target = schema_of(vec![
        col("f1", DatumKind::Double, true),
        col("f2", DatumKind::Int32, false),
    ]);
    let writer = schema_of(vec![
        col("f2", DatumKind::Int32, false),
        col("f1", DatumKind::Double, true),
    ]);
    let mut index = IndexInWriterSchema::new();
    assert!(target.compatible_for_write(&writer, &mut index).is_ok());
    assert_eq!(vec![Some(0), Some(1), Some(3), Some(2)], entries(&index));
}

#[test]
fn missing_non_nullable_column_is_refused() {
    let target = schema_of(vec![
        col("f1", DatumKind::Double, true),
        col("f2", DatumKind::Int32, false),
    ]);
    let writer = schema_of(vec![col("f1", DatumKind::Double, true)]);
    let mut index = IndexInWriterSchema::default();
    match target.compatible_for_write(&writer, &mut index) {
        Err(CompatError::MissingWriteColumn { name }) => assert_eq!("f2", name),
        _ => panic!("expected a missing column"),
    }
    assert_eq!(vec![Some(0), Some(1), Some(2)], entries(&index));
}

#[test]
fn unknown_writer_column_is_refused_and_named() {
    let target = schema_of(vec![col("f1", DatumKind::Double, true)]);
    let writer = schema_of(vec![
        col("x", DatumKind::Int64, true),
        col("f1", DatumKind::Double, true),
        col("y", DatumKind::Int64, true),
    ]);
    let mut index = IndexInWriterSchema::default();
    match target.compatible_for_write(&writer, &mut index) {
        Err(CompatError::WriteMoreColumn { names }) => {
            assert_eq!(vec!["x".to_string(), "y".to_string()], names)
        }
        _ => panic!("expected unknown columns"),
    }
    assert_eq!(vec![Some(0), Some(1), Some(3)], entries(&index));
    assert_eq!(
        vec!["x".to_string(), "y".to_string()],
        target.unknown_columns_of(&writer)
    );
}

#[test]
fn absent_nullable_column_is_filled_with_null() {
    let target = schema_of(vec![
        col("f1", DatumKind::Double, true),
        col("f2", DatumKind::Int32, true),
    ]);
    let writer = schema_of(vec![col("f1", DatumKind::Double, true)]);
    let mut index = IndexInWriterSchema::default();
    assert!(target.compatible_for_write(&writer, &mut index).is_ok());
    assert_eq!(vec![Some(0), Some(1), Some(2), None], entries(&index));
}

#[test]
fn column_of_other_kind_is_refused() {
    let target = schema_of(vec![col("f1", DatumKind::Double, true)]);
    let writer = schema_of(vec![col("f1", DatumKind::Float, true)]);
    let mut index = IndexInWriterSchema::default();
    match target.compatible_for_write(&writer, &mut index) {
        Err(CompatError::IncompatWriteColumn {
            source: column_schema::CompatError::IncompatDataType { name, expect, given },
        }) => {
            assert_eq!("f1", name);
            assert_eq!(DatumKind::Double, expect);
            assert_eq!(DatumKind::Float, given);
        }
        _ => panic!("expected an incompatible column"),
    }
    assert_eq!(vec![Some(0), Some(1)], entries(&index));
}

#[test]
fn nullable_writer_into_non_nullable_column_is_refused() {
    let target = schema_of(vec![col("f1", DatumKind::Double, false)]);
    let writer = schema_of(vec![col("f1", DatumKind::Double, true)]);
    let mut index = IndexInWriterSchema::default();
    assert!(matches!(
        target.compatible_for_write(&writer, &mut index),
        Err(CompatError::IncompatWriteColumn {
            source: column_schema::CompatError::NotNullable { .. }
        })
    ));
    let mut index = IndexInWriterSchema::default();
    assert!(writer.compatible_for_write(&target, &mut index).is_ok());
}

#[test]
fn check_appends_to_a_map_that_is_not_empty() {
    let schema = schema_of(vec![]);
    let mut index = IndexInWriterSchema::for_same_schema(1);
    assert!(schema.compatible_for_write(&schema, &mut index).is_ok());
    assert_eq!(vec![Some(0), Some(0), Some(1)], entries(&index));
}

#[test]
fn project_with_key_keeps_all_key_columns() {
    let schema = schema_of(vec![
        col("f1", DatumKind::Double, true),
        col("f2", DatumKind::Int32, true),
        col("f3", DatumKind::String, true),
    ]);
    let view = schema.project_record_schema_with_key(&[3]);
    let names: Vec<&str> = view.columns().iter().map(|c| c.name.as_str()).collect();
    assert_eq!(vec!["k1", "k2", "f2"], names);
    assert_eq!(2, view.num_key_columns());
    assert_eq!(3, view.num_columns());
    assert_eq!(2, view.key_columns().len());
    assert_eq!(Some(2), view.index_of("f2"));
    assert_eq!(None, view.index_of("f1"));

    let view = schema.project_record_schema_with_key(&[4, 0, 2, 1, 4]);
    let names: Vec<&str> = view.columns().iter().map(|c| c.name.as_str()).collect();
    assert_eq!(vec!["k1", "k2", "f3", "f1", "f3"], names);
    assert_eq!(2, view.num_key_columns());
    let arrow = view.to_arrow_schema_ref();
    assert_eq!(5, arrow.fields.len());
    assert!(arrow.metadata.is_empty());
    let record = view.into_record_schema();
    assert_eq!(5, record.num_columns());

    let view = schema.project_record_schema_with_key(&[]);
    assert_eq!(2, view.num_columns());
}

#[test]
fn project_picks_columns_in_projection_order() {
    let schema = schema_of(vec![
        col("f1", DatumKind::Double, true),
        col("f2", DatumKind::Int32, true),
    ]);
    let view = schema.project_record_schema(&[3, 0, 3]);
    let names: Vec<&str> = view.columns().iter().map(|c| c.name.as_str()).collect();
    assert_eq!(vec!["f2", "k1", "f2"], names);
    assert_eq!("k1", view.column(1).name);
    assert_eq!(Some(2), view.index_of("f2"));
    assert_eq!(0, schema.project_record_schema(&[]).num_columns());
}

#[test]
fn byte_offsets_sum_the_widths_in_front() {
    let schema = Builder::new()
        .auto_increment_column_id(true)
        .add_key_column(col("k1", DatumKind::Varbinary, false))
        .unwrap()
        .add_key_column(col("k2", DatumKind::Timestamp, false))
        .unwrap()
        .add_normal_column(col("a", DatumKind::Boolean, true))
        .unwrap()
        .add_normal_column(col("b", DatumKind::Int16, true))
        .unwrap()
        .add_normal_column(col("c", DatumKind::Double, true))
        .unwrap()
        .add_normal_column(col("d", DatumKind::String, true))
        .unwrap()
        .build()
        .unwrap();
    assert_eq!(&[0usize, 4, 12, 13, 15, 23], schema.byte_offsets());
    assert_eq!(0, schema.byte_offset(0));
    assert_eq!(15, schema.byte_offset(4));
    assert_eq!(27, schema.string_buffer_offset());
    let record = schema.to_record_schema();
    assert_eq!(6, record.num_columns());
    assert_eq!(schema.to_arrow_schema_ref(), record.to_arrow_schema_ref());
}
