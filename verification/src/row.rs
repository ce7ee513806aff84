//! Values of a row and the order of rows by their key columns.

use vstd::prelude::*;
use std::cmp::Ordering;
use crate::datum::DatumKind;
use crate::schema::{RecordSchemaWithKey, Schema};

verus! {

/// A value of a row. Floating-point values are kept as the bits of their
/// IEEE 754 form; variable-length values as their bytes.
#[derive(Debug, PartialEq, Eq)]
pub enum Datum {
    Null,
    Timestamp(i64),
    Double(u64),
    Float(u32),
    Varbinary(Vec<u8>),
    String(Vec<u8>),
    UInt64(u64),
    UInt32(u32),
    UInt16(u16),
    UInt8(u8),
    Int64(i64),
    Int32(i32),
    Int16(i16),
    Int8(i8),
    Boolean(bool),
}

/// Outcome of a comparison.
#[derive(Clone, Copy, Debug, PartialEq, Eq, Structural)]
pub enum Order {
    Less,
    Equal,
    Greater,
}

/// Mathematical value of a [`Datum`].
pub enum DatumView {
    Null,
    Timestamp(i64),
    Double(u64),
    Float(u32),
    Varbinary(Seq<u8>),
    String(Seq<u8>),
    UInt64(u64),
    UInt32(u32),
    UInt16(u16),
    UInt8(u8),
    Int64(i64),
    Int32(i32),
    Int16(i16),
    Int8(i8),
    Boolean(bool),
}

impl View for Datum {
    type V = DatumView;

    open spec fn view(&self) -> DatumView {
        match *self {
            Datum::Null => DatumView::Null,
            Datum::Timestamp(v) => DatumView::Timestamp(v),
            Datum::Double(v) => DatumView::Double(v),
            Datum::Float(v) => DatumView::Float(v),
            Datum::Varbinary(v) => DatumView::Varbinary(v@),
            Datum::String(v) => DatumView::String(v@),
            Datum::UInt64(v) => DatumView::UInt64(v),
            Datum::UInt32(v) => DatumView::UInt32(v),
            Datum::UInt16(v) => DatumView::UInt16(v),
            Datum::UInt8(v) => DatumView::UInt8(v),
            Datum::Int64(v) => DatumView::Int64(v),
            Datum::Int32(v) => DatumView::Int32(v),
            Datum::Int16(v) => DatumView::Int16(v),
            Datum::Int8(v) => DatumView::Int8(v),
            Datum::Boolean(v) => DatumView::Boolean(v),
        }
    }
}

impl Clone for Datum {
    fn clone(&self) -> (r: Self)
        ensures
            r@ == self@,
    {
        match self {
            Datum::Null => Datum::Null,
            Datum::Timestamp(v) => Datum::Timestamp(*v),
            Datum::Double(v) => Datum::Double(*v),
            Datum::Float(v) => Datum::Float(*v),
            Datum::Varbinary(v) => Datum::Varbinary(v.clone()),
            Datum::String(v) => Datum::String(v.clone()),
            Datum::UInt64(v) => Datum::UInt64(*v),
            Datum::UInt32(v) => Datum::UInt32(*v),
            Datum::UInt16(v) => Datum::UInt16(*v),
            Datum::UInt8(v) => Datum::UInt8(*v),
            Datum::Int64(v) => Datum::Int64(*v),
            Datum::Int32(v) => Datum::Int32(*v),
            Datum::Int16(v) => Datum::Int16(*v),
            Datum::Int8(v) => Datum::Int8(*v),
            Datum::Boolean(v) => Datum::Boolean(*v),
        }
    }
}

impl Datum {
    /// The kind of the value.
    pub open spec fn spec_kind(&self) -> DatumKind {
        match *self {
            Datum::Null => DatumKind::Null,
            Datum::Timestamp(_) => DatumKind::Timestamp,
            Datum::Double(_) => DatumKind::Double,
            Datum::Float(_) => DatumKind::Float,
            Datum::Varbinary(_) => DatumKind::Varbinary,
            Datum::String(_) => DatumKind::String,
            Datum::UInt64(_) => DatumKind::UInt64,
            Datum::UInt32(_) => DatumKind::UInt32,
            Datum::UInt16(_) => DatumKind::UInt16,
            Datum::UInt8(_) => DatumKind::UInt8,
            Datum::Int64(_) => DatumKind::Int64,
            Datum::Int32(_) => DatumKind::Int32,
            Datum::Int16(_) => DatumKind::Int16,
            Datum::Int8(_) => DatumKind::Int8,
            Datum::Boolean(_) => DatumKind::Boolean,
        }
    }

    /// The kind of the value.
    #[verifier::when_used_as_spec(spec_kind)]
    pub fn kind(&self) -> (r: DatumKind)
        ensures
            r == self.spec_kind(),
    {
        match self {
            Datum::Null => DatumKind::Null,
            Datum::Timestamp(_) => DatumKind::Timestamp,
            Datum::Double(_) => DatumKind::Double,
            Datum::Float(_) => DatumKind::Float,
            Datum::Varbinary(_) => DatumKind::Varbinary,
            Datum::String(_) => DatumKind::String,
            Datum::UInt64(_) => DatumKind::UInt64,
            Datum::UInt32(_) => DatumKind::UInt32,
            Datum::UInt16(_) => DatumKind::UInt16,
            Datum::UInt8(_) => DatumKind::UInt8,
            Datum::Int64(_) => DatumKind::Int64,
            Datum::Int32(_) => DatumKind::Int32,
            Datum::Int16(_) => DatumKind::Int16,
            Datum::Int8(_) => DatumKind::Int8,
            Datum::Boolean(_) => DatumKind::Boolean,
        }
    }
}

/// The number by which a value of a fixed-width, non-floating kind is
/// ordered; false is before true. Zero for all other values.
pub open spec fn scalar_of(d: Datum) -> int {
    match d {
        Datum::Timestamp(v) => v as int,
        Datum::UInt64(v) => v as int,
        Datum::UInt32(v) => v as int,
        Datum::UInt16(v) => v as int,
        Datum::UInt8(v) => v as int,
        Datum::Int64(v) => v as int,
        Datum::Int32(v) => v as int,
        Datum::Int16(v) => v as int,
        Datum::Int8(v) => v as int,
        Datum::Boolean(v) => if v {
            1
        } else {
            0
        },
        _ => 0,
    }
}

/// Order of two numbers.
pub open spec fn int_order(a: int, b: int) -> Order {
    if a < b {
        Order::Less
    } else if a > b {
        Order::Greater
    } else {
        Order::Equal
    }
}

/// Lexicographic order of two byte strings: by the first byte in which
/// they differ; a proper prefix is before what it is a prefix of.
pub open spec fn lex_order(a: Seq<u8>, b: Seq<u8>) -> Order
    decreases a.len(),
{
    if a.len() == 0 {
        if b.len() == 0 {
            Order::Equal
        } else {
            Order::Less
        }
    } else if b.len() == 0 {
        Order::Greater
    } else if a[0] < b[0] {
        Order::Less
    } else if a[0] > b[0] {
        Order::Greater
    } else {
        lex_order(a.skip(1), b.skip(1))
    }
}

/// Two values can be compared if they are of the same kind and that kind
/// is no floating-point kind.
pub open spec fn comparable(l: Datum, r: Datum) -> bool {
    l.spec_kind() == r.spec_kind() && !(l.spec_kind() is Double) && !(l.spec_kind() is Float)
}

/// Order of two comparable values: byte strings lexicographically, all
/// others by their number.
pub open spec fn datum_order(l: Datum, r: Datum) -> Order {
    match (l, r) {
        (Datum::Varbinary(a), Datum::Varbinary(b)) => lex_order(a@, b@),
        (Datum::String(a), Datum::String(b)) => lex_order(a@, b@),
        _ => int_order(scalar_of(l), scalar_of(r)),
    }
}

/// The values of both rows can be compared at each of the first `n`
/// positions.
pub open spec fn keys_comparable(n: nat, l: Seq<Datum>, r: Seq<Datum>) -> bool {
    &&& n <= l.len()
    &&& n <= r.len()
    &&& forall|i: int| 0 <= i < n ==> comparable(#[trigger] l[i], r[i])
}

/// Order of two rows by their first `n` values: that of the first
/// position at which the values are not equal, and equal if there is
/// none.
pub open spec fn row_order(n: nat, l: Seq<Datum>, r: Seq<Datum>) -> Order
    decreases n,
{
    if n == 0 {
        Order::Equal
    } else {
        match row_order((n - 1) as nat, l, r) {
            Order::Equal => datum_order(l[n - 1], r[n - 1]),
            o => o,
        }
    }
}

/// [`keys_comparable`] for a count of key columns.
pub open spec fn key_columns_comparable(num_key_columns: usize, l: Seq<Datum>, r: Seq<Datum>)
    -> bool {
    keys_comparable(num_key_columns as nat, l, r)
}

/// [`row_order`] for a count of key columns.
pub open spec fn key_order(num_key_columns: usize, l: Seq<Datum>, r: Seq<Datum>) -> Order {
    row_order(num_key_columns as nat, l, r)
}

/// The outcome that an ordering of the standard library stands for.
pub open spec fn order_of(o: Ordering) -> Order {
    match o {
        Ordering::Less => Order::Less,
        Ordering::Equal => Order::Equal,
        Ordering::Greater => Order::Greater,
    }
}

/// Once two rows differ in a key position, further positions do not
/// change their order.
pub proof fn lemma_row_order_stays(n: nat, m: nat, l: Seq<Datum>, r: Seq<Datum>)
    requires
        n <= m,
        row_order(n, l, r) != Order::Equal,
    ensures
        row_order(m, l, r) == row_order(n, l, r),
    decreases m,
{
    if n < m {
        lemma_row_order_stays(n, (m - 1) as nat, l, r);
    }
}

/// Compares two byte strings lexicographically.
pub fn compare_bytes(a: &Vec<u8>, b: &Vec<u8>) -> (o: Order)
    ensures
        o == lex_order(a@, b@),
{
    let mut i: usize = 0;
    proof {
        assert(a@.skip(0) =~= a@);
        assert(b@.skip(0) =~= b@);
    }
    while i < a.len() && i < b.len()
        invariant
            i <= a@.len(),
            i <= b@.len(),
            lex_order(a@, b@) == lex_order(a@.skip(i as int), b@.skip(i as int)),
        decreases a@.len() - i,
    {
        proof {
            assert(a@.skip(i as int)[0] == a@[i as int]);
            assert(b@.skip(i as int)[0] == b@[i as int]);
            assert(a@.skip(i as int).skip(1) =~= a@.skip(i + 1));
            assert(b@.skip(i as int).skip(1) =~= b@.skip(i + 1));
        }
        if a[i] < b[i] {
            return Order::Less;
        }
        if a[i] > b[i] {
            return Order::Greater;
        }
        i += 1;
    }
    proof {
        assert(a@.skip(i as int).len() == a@.len() - i);
        assert(b@.skip(i as int).len() == b@.len() - i);
    }
    if i < b.len() {
        Order::Less
    } else if i < a.len() {
        Order::Greater
    } else {
        Order::Equal
    }
}

/// Compares two values of the same kind.
pub fn compare_datum(l: &Datum, r: &Datum) -> (o: Order)
    requires
        comparable(*l, *r),
    ensures
        o == datum_order(*l, *r),
{
    match (l, r) {
        (Datum::Varbinary(a), Datum::Varbinary(b)) => compare_bytes(a, b),
        (Datum::String(a), Datum::String(b)) => compare_bytes(a, b),
        (Datum::Timestamp(a), Datum::Timestamp(b)) => order_i64(*a, *b),
        (Datum::UInt64(a), Datum::UInt64(b)) => order_u64(*a, *b),
        (Datum::UInt32(a), Datum::UInt32(b)) => order_u64(*a as u64, *b as u64),
        (Datum::UInt16(a), Datum::UInt16(b)) => order_u64(*a as u64, *b as u64),
        (Datum::UInt8(a), Datum::UInt8(b)) => order_u64(*a as u64, *b as u64),
        (Datum::Int64(a), Datum::Int64(b)) => order_i64(*a, *b),
        (Datum::Int32(a), Datum::Int32(b)) => order_i64(*a as i64, *b as i64),
        (Datum::Int16(a), Datum::Int16(b)) => order_i64(*a as i64, *b as i64),
        (Datum::Int8(a), Datum::Int8(b)) => order_i64(*a as i64, *b as i64),
        (Datum::Boolean(a), Datum::Boolean(b)) => {
            if !*a && *b {
                Order::Less
            } else if *a && !*b {
                Order::Greater
            } else {
                Order::Equal
            }
        },
        _ => Order::Equal,
    }
}

/// Order of two signed numbers.
pub fn order_i64(a: i64, b: i64) -> (o: Order)
    ensures
        o == int_order(a as int, b as int),
{
    if a < b {
        Order::Less
    } else if a > b {
        Order::Greater
    } else {
        Order::Equal
    }
}

/// Order of two unsigned numbers.
pub fn order_u64(a: u64, b: u64) -> (o: Order)
    ensures
        o == int_order(a as int, b as int),
{
    if a < b {
        Order::Less
    } else if a > b {
        Order::Greater
    } else {
        Order::Equal
    }
}

/// Compares two rows by their first `num_key_columns` values.
pub fn compare_key(num_key_columns: usize, lhs: &[Datum], rhs: &[Datum]) -> (o: Order)
    requires
        key_columns_comparable(num_key_columns, lhs@, rhs@),
    ensures
        o == key_order(num_key_columns, lhs@, rhs@),
{
    let mut i: usize = 0;
    while i < num_key_columns
        invariant
            i <= num_key_columns,
            keys_comparable(num_key_columns as nat, lhs@, rhs@),
            row_order(i as nat, lhs@, rhs@) == Order::Equal,
        decreases num_key_columns - i,
    {
        let o = compare_datum(&lhs[i], &rhs[i]);
        match o {
            Order::Equal => {},
            _ => {
                proof {
                    assert(row_order((i + 1) as nat, lhs@, rhs@) == o);
                    lemma_row_order_stays((i + 1) as nat, num_key_columns as nat, lhs@, rhs@);
                }
                return o;
            },
        }
        i += 1;
    }
    Order::Equal
}

/// Compares two rows by their key columns: the first key position at
/// which the rows differ decides, and rows that agree in all key
/// positions are equal.
pub fn compare_row(num_key_columns: usize, lhs: &[Datum], rhs: &[Datum]) -> (o: Ordering)
    requires
        key_columns_comparable(num_key_columns, lhs@, rhs@),
    ensures
        order_of(o) == key_order(num_key_columns, lhs@, rhs@),
{
    match compare_key(num_key_columns, lhs, rhs) {
        Order::Less => Ordering::Less,
        Order::Equal => Ordering::Equal,
        Order::Greater => Ordering::Greater,
    }
}

impl Schema {
    /// Compares two rows of this schema by its key columns.
    pub fn compare_row(&self, lhs: &[Datum], rhs: &[Datum]) -> (o: Ordering)
        requires
            key_columns_comparable(self@.num_key_columns, lhs@, rhs@),
        ensures
            order_of(o) == key_order(self@.num_key_columns, lhs@, rhs@),
    {
        compare_row(self.num_key_columns(), lhs, rhs)
    }
}

impl RecordSchemaWithKey {
    /// Compares two rows of this schema by its key columns.
    pub fn compare_row(&self, lhs: &[Datum], rhs: &[Datum]) -> (o: Ordering)
        requires
            key_columns_comparable(self@.num_key_columns, lhs@, rhs@),
        ensures
            order_of(o) == key_order(self@.num_key_columns, lhs@, rhs@),
    {
        compare_row(self.num_key_columns(), lhs, rhs)
    }
}

} // verus!
