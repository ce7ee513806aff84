//! The order of rows by their key columns is a strict weak ordering.

use vstd::prelude::*;
use crate::row::{comparable, datum_order, keys_comparable, lex_order, row_order, Datum, Order};

verus! {

/// The outcome of the comparison with the sides exchanged.
pub open spec fn flip(o: Order) -> Order {
    match o {
        Order::Less => Order::Greater,
        Order::Equal => Order::Equal,
        Order::Greater => Order::Less,
    }
}

/// The outcome of comparing a first with a third thing, given that the
/// first is not behind the second and the second not behind the third.
pub open spec fn chain(first: Order, second: Order) -> Order {
    if first == Order::Equal && second == Order::Equal {
        Order::Equal
    } else {
        Order::Less
    }
}

/// A byte string is equal to itself.
pub proof fn lemma_lex_reflexive(a: Seq<u8>)
    ensures
        lex_order(a, a) == Order::Equal,
    decreases a.len(),
{
    if a.len() > 0 {
        lemma_lex_reflexive(a.skip(1));
    }
}

/// Exchanging two byte strings exchanges less and greater.
pub proof fn lemma_lex_antisymmetric(a: Seq<u8>, b: Seq<u8>)
    ensures
        lex_order(b, a) == flip(lex_order(a, b)),
    decreases a.len(),
{
    if a.len() > 0 && b.len() > 0 && a[0] == b[0] {
        lemma_lex_antisymmetric(a.skip(1), b.skip(1));
    }
}

/// The lexicographic order is transitive.
pub proof fn lemma_lex_transitive(a: Seq<u8>, b: Seq<u8>, c: Seq<u8>)
    requires
        lex_order(a, b) != Order::Greater,
        lex_order(b, c) != Order::Greater,
    ensures
        lex_order(a, c) == chain(lex_order(a, b), lex_order(b, c)),
    decreases a.len(),
{
    if a.len() > 0 && b.len() > 0 && c.len() > 0 && a[0] == b[0] && b[0] == c[0] {
        lemma_lex_transitive(a.skip(1), b.skip(1), c.skip(1));
    }
}

/// A value is equal to itself.
pub proof fn lemma_datum_reflexive(a: Datum)
    ensures
        datum_order(a, a) == Order::Equal,
{
    match a {
        Datum::Varbinary(x) => lemma_lex_reflexive(x@),
        Datum::String(x) => lemma_lex_reflexive(x@),
        _ => {},
    }
}

/// Exchanging two comparable values exchanges less and greater.
pub proof fn lemma_datum_antisymmetric(a: Datum, b: Datum)
    requires
        comparable(a, b),
    ensures
        datum_order(b, a) == flip(datum_order(a, b)),
{
    match (a, b) {
        (Datum::Varbinary(x), Datum::Varbinary(y)) => lemma_lex_antisymmetric(x@, y@),
        (Datum::String(x), Datum::String(y)) => lemma_lex_antisymmetric(x@, y@),
        _ => {},
    }
}

/// The order of comparable values is transitive.
pub proof fn lemma_datum_transitive(a: Datum, b: Datum, c: Datum)
    requires
        comparable(a, b),
        comparable(b, c),
        datum_order(a, b) != Order::Greater,
        datum_order(b, c) != Order::Greater,
    ensures
        datum_order(a, c) == chain(datum_order(a, b), datum_order(b, c)),
{
    match (a, b, c) {
        (Datum::Varbinary(x), Datum::Varbinary(y), Datum::Varbinary(z)) => lemma_lex_transitive(
            x@,
            y@,
            z@,
        ),
        (Datum::String(x), Datum::String(y), Datum::String(z)) => lemma_lex_transitive(
            x@,
            y@,
            z@,
        ),
        _ => {},
    }
}

/// Reflexivity: every row is equal to itself by its key.
pub proof fn lemma_row_order_reflexive(n: nat, a: Seq<Datum>)
    requires
        n <= a.len(),
    ensures
        row_order(n, a, a) == Order::Equal,
    decreases n,
{
    if n > 0 {
        lemma_row_order_reflexive((n - 1) as nat, a);
        lemma_datum_reflexive(a[n - 1]);
    }
}

/// Antisymmetry: if a row is before another, the other is behind it, and
/// the reverse; rows that are equal one way are equal the other way.
pub proof fn lemma_row_order_antisymmetric(n: nat, a: Seq<Datum>, b: Seq<Datum>)
    requires
        keys_comparable(n, a, b),
    ensures
        row_order(n, b, a) == flip(row_order(n, a, b)),
    decreases n,
{
    if n > 0 {
        lemma_row_order_antisymmetric((n - 1) as nat, a, b);
        assert(comparable(a[n - 1], b[n - 1]));
        lemma_datum_antisymmetric(a[n - 1], b[n - 1]);
    }
}

/// Transitivity: if a first row is not behind a second and the second
/// not behind a third, the first is not behind the third; it is equal to
/// the third only if all three are equal, and before it otherwise.
pub proof fn lemma_row_order_transitive(n: nat, a: Seq<Datum>, b: Seq<Datum>, c: Seq<Datum>)
    requires
        keys_comparable(n, a, b),
        keys_comparable(n, b, c),
        row_order(n, a, b) != Order::Greater,
        row_order(n, b, c) != Order::Greater,
    ensures
        row_order(n, a, c) == chain(row_order(n, a, b), row_order(n, b, c)),
    decreases n,
{
    if n > 0 {
        let m = (n - 1) as nat;
        assert(comparable(a[n - 1], b[n - 1]));
        assert(comparable(b[n - 1], c[n - 1]));
        lemma_row_order_transitive(m, a, b, c);
        if row_order(m, a, b) == Order::Equal && row_order(m, b, c) == Order::Equal {
            lemma_datum_transitive(a[n - 1], b[n - 1], c[n - 1]);
        }
    }
}

/// The order of two values is that of any two values equal to them.
pub proof fn lemma_datum_order_of_equals(a: Datum, b: Datum, a2: Datum, b2: Datum)
    requires
        a@ == a2@,
        b@ == b2@,
    ensures
        datum_order(a2, b2) == datum_order(a, b),
{
}

/// Only the key counts: rows that agree with `a` and `b` in the first `n`
/// values compare as `a` and `b` do, whatever their other values are.
pub proof fn lemma_row_order_key_only(
    n: nat,
    a: Seq<Datum>,
    b: Seq<Datum>,
    a2: Seq<Datum>,
    b2: Seq<Datum>,
)
    requires
        n <= a.len(),
        n <= b.len(),
        n <= a2.len(),
        n <= b2.len(),
        forall|i: int| 0 <= i < n ==> a[i]@ == a2[i]@ && b[i]@ == b2[i]@,
    ensures
        row_order(n, a2, b2) == row_order(n, a, b),
    decreases n,
{
    if n > 0 {
        lemma_row_order_key_only((n - 1) as nat, a, b, a2, b2);
        lemma_datum_order_of_equals(a[n - 1], b[n - 1], a2[n - 1], b2[n - 1]);
    }
}

} // verus!
