use std::cmp::Ordering;

use table_schema::builder::Builder;
use table_schema::column_schema;
use table_schema::datum::DatumKind;
use table_schema::row::{compare_bytes, compare_row, Datum, Order};
use table_schema::schema::Schema;

fn assert_row_compare(ordering: Ordering, schema: &Schema, row1: &Vec<Datum>, row2: &Vec<Datum>) {
    let schema_with_key = schema.to_record_schema_with_key();
    assert_eq!(ordering, schema.compare_row(row1, row2));
    assert_eq!(ordering, schema_with_key.compare_row(row1, row2));
}

#[test]
fn test_compare_row() {
    let schema = Builder::new()
        .auto_increment_column_id(true)
        .add_key_column(
            column_schema::Builder::new("key1".to_string(), DatumKind::Varbinary)
                .build()
                .expect("should succeed build column schema"),
        )
        .unwrap()
        .add_key_column(
            column_schema::Builder::new("key2".to_string(), DatumKind::Timestamp)
                .build()
                .expect("should succeed build column schema"),
        )
        .unwrap()
        .add_normal_column(
            column_schema::Builder::new("field1".to_string(), DatumKind::Double)
                .build()
                .expect("should succeed build column schema"),
        )
        .unwrap()
        .build()
        .unwrap();

    // Test equal
    {
        let row1 = vec![
            Datum::Varbinary(b"key1".to_vec()),
            Datum::Timestamp(1005),
            Datum::Double(12.5f64.to_bits()),
        ];
        let row2 = vec![
            Datum::Varbinary(b"key1".to_vec()),
            Datum::Timestamp(1005),
            Datum::Double(15.5f64.to_bits()),
        ];

        assert_row_compare(Ordering::Equal, &schema, &row1, &row2);
    }

    // Test first key column less
    {
        let row1 = vec![
            Datum::Varbinary(b"key2".to_vec()),
            Datum::Timestamp(1005),
            Datum::Double(17.5f64.to_bits()),
        ];
        let row2 = vec![
            Datum::Varbinary(b"key5".to_vec()),
            Datum::Timestamp(1005),
            Datum::Double(17.5f64.to_bits()),
        ];

        assert_row_compare(Ordering::Less, &schema, &row1, &row2);
    }

    // Test second key column less
    {
        let row1 = vec![
            Datum::Varbinary(b"key2".to_vec()),
            Datum::Timestamp(1002),
            Datum::Double(17.5f64.to_bits()),
        ];
        let row2 = vec![
            Datum::Varbinary(b"key2".to_vec()),
            Datum::Timestamp(1005),
            Datum::Double(17.5f64.to_bits()),
        ];

        assert_row_compare(Ordering::Less, &schema, &row1, &row2);
    }

    // Test first key column greater
    {
        let row1 = vec![
            Datum::Varbinary(b"key7".to_vec()),
            Datum::Timestamp(1005),
            Datum::Double(17.5f64.to_bits()),
        ];
        let row2 = vec![
            Datum::Varbinary(b"key5".to_vec()),
            Datum::Timestamp(1005),
            Datum::Double(17.5f64.to_bits()),
        ];

        assert_row_compare(Ordering::Greater, &schema, &row1, &row2);
    }

    // Test second key column greater
    {
        let row1 = vec![
            Datum::Varbinary(b"key2".to_vec()),
            Datum::Timestamp(1007),
            Datum::Double(17.5f64.to_bits()),
        ];
        let row2 = vec![
            Datum::Varbinary(b"key2".to_vec()),
            Datum::Timestamp(1005),
            Datum::Double(17.5f64.to_bits()),
        ];

        assert_row_compare(Ordering::Greater, &schema, &row1, &row2);
    }
}

#[test]
fn byte_strings_compare_lexicographically() {
    assert_eq!(Order::Equal, compare_bytes(&vec![], &vec![]));
    assert_eq!(Order::Less, compare_bytes(&vec![], &vec![0]));
    assert_eq!(Order::Greater, compare_bytes(&vec![0], &vec![]));
    assert_eq!(Order::Less, compare_bytes(&vec![1, 2], &vec![1, 2, 0]));
    assert_eq!(Order::Greater, compare_bytes(&vec![1, 3], &vec![1, 2, 9]));
    assert_eq!(Order::Less, compare_bytes(&vec![1, 2, 200], &vec![1, 2, 201]));
}

#[test]
fn compare_row_ignores_values_behind_the_key() {
    let a = vec![Datum::Int32(-4), Datum::Boolean(false), Datum::UInt8(9)];
    let b = vec![Datum::Int32(-4), Datum::Boolean(true), Datum::UInt8(1)];
    assert_eq!(Ordering::Equal, compare_row(0, &a, &b));
    assert_eq!(Ordering::Equal, compare_row(1, &a, &b));
    assert_eq!(Ordering::Less, compare_row(2, &a, &b));
    assert_eq!(Ordering::Greater, compare_row(2, &b, &a));
    assert_eq!(Ordering::Equal, compare_row(2, &a, &a));
    let c = vec![Datum::Int32(-4), Datum::Boolean(false), Datum::UInt8(200)];
    assert_eq!(compare_row(2, &a, &b), compare_row(2, &c, &b));
    let d = vec![Datum::Int32(-5), Datum::Boolean(true), Datum::UInt8(200)];
    assert_eq!(Ordering::Less, compare_row(2, &d, &a));
    assert_eq!(Ordering::Less, compare_row(2, &d, &b));
}
