//! What holds of every schema that a builder yields.

use vstd::prelude::*;
use crate::arrow::{fields_of, ArrowSchemaView};
use crate::builder::{
    admission_error, after_key, after_normal, build_error, builder_wf, built_schema, has_id,
    key_admission_error, lemma_after_key_wf, lemma_after_normal_wf, lemma_first_named,
    meta_of, tsid_position, with_id, BuilderView,
};
use crate::column_schema::ColumnView;
use crate::error::ErrorView;
use crate::registry::{has_name, ids_unique, names_unique};
use crate::schema::SchemaView;

verus! {

/// The invariants of a schema: there is a key; the key columns are of
/// key-capable kind and refuse nulls; exactly one of them is of timestamp
/// kind, and the timestamp position is its position; names and ids are
/// unique; where the synthetic key is enabled there are two key columns,
/// one of them the column with the reserved name; and the columnar form
/// mirrors the columns and keeps the facts in its dictionary.
pub open spec fn valid_schema(s: SchemaView) -> bool {
    &&& 1 <= s.num_key_columns <= s.columns.len() <= usize::MAX
    &&& s.timestamp_index < s.num_key_columns
    &&& forall|i: int|
        0 <= i < s.num_key_columns ==> (s.columns[i].data_type is Timestamp <==> i
            == s.timestamp_index)
    &&& forall|i: int|
        0 <= i < s.num_key_columns ==> s.columns[i].data_type.spec_is_key_kind()
            && !s.columns[i].is_nullable
    &&& names_unique(s.columns)
    &&& ids_unique(s.columns)
    &&& s.tsid_index == tsid_position(s.columns, s.enable_tsid_primary_key)
    &&& s.enable_tsid_primary_key ==> s.num_key_columns == 2 && (s.tsid_index matches Some(p) && p
        < s.num_key_columns)
    &&& s.arrow == (ArrowSchemaView {
        fields: fields_of(s.columns),
        metadata: meta_of(
            s.num_key_columns,
            s.timestamp_index,
            s.version,
            s.enable_tsid_primary_key,
        ),
    })
}

/// Every schema that a builder yields is valid.
pub proof fn lemma_built_schema_valid(b: BuilderView)
    requires
        builder_wf(b),
        build_error(b) is None,
    ensures
        valid_schema(built_schema(b)),
{
    lemma_first_named(b.columns, "tsid"@, b.columns.len());
}

/// A builder with a key column of timestamp kind can be built, unless
/// the synthetic key is enabled.
pub proof fn lemma_build_succeeds(b: BuilderView, i: int)
    requires
        builder_wf(b),
        0 <= i < b.num_key_columns,
        b.columns[i].data_type is Timestamp,
        !b.enable_tsid_primary_key,
    ensures
        build_error(b) is None,
{
}

/// A builder without a key column of timestamp kind cannot be built: the
/// timestamp key is missing.
pub proof fn lemma_build_without_timestamp_fails(b: BuilderView)
    requires
        builder_wf(b),
        forall|i: int| 0 <= i < b.num_key_columns ==> !(b.columns[i].data_type is Timestamp),
    ensures
        build_error(b) == Some(ErrorView::MissingTimestampKey),
{
    if b.timestamp_index is Some {
        let t = b.timestamp_index.unwrap() as int;
        assert(b.columns[t].data_type is Timestamp);
    }
}

/// A second key column of timestamp kind is refused, whatever else holds
/// of it; if nothing else is wrong with it, the error names both columns.
pub proof fn lemma_second_timestamp_key_fails(b: BuilderView, first: ColumnView, second: ColumnView)
    requires
        builder_wf(b),
        first.data_type is Timestamp,
        second.data_type is Timestamp,
        key_admission_error(b, first) is None,
    ensures
        key_admission_error(after_key(b, first), second) is Some,
        admission_error(after_key(b, first), second) is None && !second.is_nullable
            ==> key_admission_error(after_key(b, first), second) == Some(
            ErrorView::TimestampKeyExists {
                timestamp_column: first.name,
                given_column: second.name,
            },
        ),
{
}

/// Once a timestamp key column is recorded, every further key column of
/// timestamp kind is refused.
pub proof fn lemma_timestamp_key_exists(b: BuilderView, c: ColumnView)
    requires
        b.timestamp_index is Some,
        c.data_type is Timestamp,
    ensures
        key_admission_error(b, c) is Some,
{
}

/// A nullable column is refused as a key column; if its name and id are
/// free and its kind is key-capable, for being nullable.
pub proof fn lemma_nullable_key_fails(b: BuilderView, c: ColumnView)
    requires
        c.is_nullable,
    ensures
        key_admission_error(b, c) is Some,
        admission_error(b, c) is None && c.data_type.spec_is_key_kind() ==> key_admission_error(
            b,
            c,
        ) == Some(ErrorView::NullKeyColumn { name: c.name }),
{
}

/// A column whose kind is not key-capable is refused as a key column; if
/// its name and id are free, for its kind.
pub proof fn lemma_key_kind_fails(b: BuilderView, c: ColumnView)
    requires
        !c.data_type.spec_is_key_kind(),
    ensures
        key_admission_error(b, c) is Some,
        admission_error(b, c) is None ==> key_admission_error(b, c) == Some(
            ErrorView::KeyColumnType { name: c.name, kind: c.data_type },
        ),
{
}

/// An allocated id is greater than every id that the builder has seen.
pub proof fn lemma_allocated_id_is_new(b: BuilderView, c: ColumnView)
    requires
        builder_wf(b),
        crate::builder::allocates_id(b, c),
        b.max_column_id < u32::MAX,
    ensures
        with_id(b, c).id == b.max_column_id + 1,
        forall|i: int| 0 <= i < b.columns.len() ==> b.columns[i].id < with_id(b, c).id,
        !has_id(b.columns, with_id(b, c).id),
{
}

/// With the synthetic key enabled, a builder with a timestamp key cannot
/// be built unless it has exactly two key columns.
pub proof fn lemma_tsid_needs_two_keys(b: BuilderView)
    requires
        b.enable_tsid_primary_key,
        b.timestamp_index is Some,
        b.num_key_columns != 2,
    ensures
        build_error(b) == Some(ErrorView::InvalidTsidSchema),
{
}

/// With the synthetic key enabled, a builder with a timestamp key cannot
/// be built unless one of its key columns has the reserved name.
pub proof fn lemma_tsid_needs_named_key(b: BuilderView)
    requires
        builder_wf(b),
        b.enable_tsid_primary_key,
        b.timestamp_index is Some,
        forall|i: int| 0 <= i < b.num_key_columns ==> b.columns[i].name != "tsid"@,
    ensures
        build_error(b) == Some(ErrorView::InvalidTsidSchema),
{
    lemma_first_named(b.columns, "tsid"@, b.columns.len());
}

/// One call of the builder: a column added as key column or as normal
/// column.
pub enum Admission {
    Key(ColumnView),
    Normal(ColumnView),
}

/// The builder after one call, or the error of the call.
pub open spec fn apply_call(b: BuilderView, call: Admission) -> Result<BuilderView, ErrorView> {
    match call {
        Admission::Key(c) => match key_admission_error(b, with_id(b, c)) {
            Some(e) => Err(e),
            None => Ok(after_key(b, with_id(b, c))),
        },
        Admission::Normal(c) => match admission_error(b, with_id(b, c)) {
            Some(e) => Err(e),
            None => Ok(after_normal(b, with_id(b, c))),
        },
    }
}

/// The builder after a sequence of calls, or the error of the first call
/// that failed.
pub open spec fn apply_calls(b: BuilderView, calls: Seq<Admission>) -> Result<BuilderView, ErrorView>
    decreases calls.len(),
{
    if calls.len() == 0 {
        Ok(b)
    } else {
        match apply_calls(b, calls.drop_last()) {
            Err(e) => Err(e),
            Ok(before) => apply_call(before, calls.last()),
        }
    }
}

/// The columns that a sequence of calls added as key columns
/// (`as_key`) or as normal columns (`!as_key`), in the order of the
/// calls, each as the builder took it.
pub open spec fn added(b: BuilderView, calls: Seq<Admission>, as_key: bool) -> Seq<ColumnView>
    decreases calls.len(),
{
    if calls.len() == 0 {
        Seq::empty()
    } else {
        let front = added(b, calls.drop_last(), as_key);
        match (apply_calls(b, calls.drop_last()), calls.last()) {
            (Ok(before), Admission::Key(c)) => if as_key {
                front.push(with_id(before, c))
            } else {
                front
            },
            (Ok(before), Admission::Normal(c)) => if as_key {
                front
            } else {
                front.push(with_id(before, c))
            },
            _ => front,
        }
    }
}

/// However calls that add key columns and calls that add normal columns
/// are interleaved, the key columns of the builder are those it had, then
/// those added as key columns in the order of their calls; and likewise
/// the normal columns. The builder stays well formed.
pub proof fn lemma_key_columns_in_call_order(b: BuilderView, calls: Seq<Admission>)
    requires
        builder_wf(b),
        apply_calls(b, calls) is Ok,
        b.columns.len() + calls.len() < usize::MAX,
    ensures
        ({
            let a = apply_calls(b, calls)->Ok_0;
            &&& builder_wf(a)
            &&& a.columns.len() == b.columns.len() + calls.len()
            &&& a.columns.take(a.num_key_columns as int) == b.columns.take(
                b.num_key_columns as int,
            ) + added(b, calls, true)
            &&& a.columns.skip(a.num_key_columns as int) == b.columns.skip(
                b.num_key_columns as int,
            ) + added(b, calls, false)
        }),
    decreases calls.len(),
{
    if calls.len() == 0 {
        assert(b.columns.take(b.num_key_columns as int) + added(b, calls, true)
            =~= b.columns.take(b.num_key_columns as int));
        assert(b.columns.skip(b.num_key_columns as int) + added(b, calls, false)
            =~= b.columns.skip(b.num_key_columns as int));
    } else {
        lemma_key_columns_in_call_order(b, calls.drop_last());
        let before = apply_calls(b, calls.drop_last())->Ok_0;
        let a = apply_calls(b, calls)->Ok_0;
        let k = before.num_key_columns as int;
        match calls.last() {
            Admission::Key(c) => {
                let taken = with_id(before, c);
                lemma_after_key_wf(before, taken);
                assert(a.columns.take(a.num_key_columns as int) =~= before.columns.take(k).push(
                    taken,
                ));
                assert(a.columns.skip(a.num_key_columns as int) =~= before.columns.skip(k));
                assert(a.columns.take(a.num_key_columns as int) =~= b.columns.take(
                    b.num_key_columns as int,
                ) + added(b, calls, true));
            },
            Admission::Normal(c) => {
                let taken = with_id(before, c);
                lemma_after_normal_wf(before, taken);
                assert(a.columns.take(a.num_key_columns as int) =~= before.columns.take(k));
                assert(a.columns.skip(a.num_key_columns as int) =~= before.columns.skip(k).push(
                    taken,
                ));
                assert(a.columns.skip(a.num_key_columns as int) =~= b.columns.skip(
                    b.num_key_columns as int,
                ) + added(b, calls, false));
            },
        }
    }
}

/// The column that a call hands to the builder.
pub open spec fn call_column(call: Admission) -> ColumnView {
    match call {
        Admission::Key(c) => c,
        Admission::Normal(c) => c,
    }
}

/// Does the call add a key column of timestamp kind.
pub open spec fn is_timestamp_key(call: Admission) -> bool {
    call matches Admission::Key(c) && c.data_type is Timestamp
}

/// The columns of the calls that add key columns, in the order of the
/// calls.
pub open spec fn keys_in(calls: Seq<Admission>) -> Seq<ColumnView>
    decreases calls.len(),
{
    if calls.len() == 0 {
        Seq::empty()
    } else {
        match calls.last() {
            Admission::Key(c) => keys_in(calls.drop_last()).push(c),
            Admission::Normal(_) => keys_in(calls.drop_last()),
        }
    }
}

/// A list of calls that no builder without columns refuses: no two
/// columns share a name or an id, the key columns are of key-capable kind
/// and refuse nulls, and at most one key column is of timestamp kind.
pub open spec fn admissible(calls: Seq<Admission>) -> bool {
    &&& forall|i: int, j: int|
        0 <= i < calls.len() && 0 <= j < calls.len() && i != j ==> call_column(
            #[trigger] calls[i],
        ).name != call_column(#[trigger] calls[j]).name
    &&& forall|i: int, j: int|
        0 <= i < calls.len() && 0 <= j < calls.len() && i != j ==> call_column(
            #[trigger] calls[i],
        ).id != call_column(#[trigger] calls[j]).id
    &&& forall|i: int|
        0 <= i < calls.len() ==> (#[trigger] calls[i] matches Admission::Key(c)
            ==> c.data_type.spec_is_key_kind() && !c.is_nullable)
    &&& forall|i: int, j: int|
        0 <= i < calls.len() && 0 <= j < calls.len() && i != j ==> !(is_timestamp_key(
            #[trigger] calls[i],
        ) && is_timestamp_key(#[trigger] calls[j]))
}

/// A builder that has no columns yet and allocates no ids.
pub open spec fn is_fresh(b: BuilderView) -> bool {
    &&& b.columns.len() == 0
    &&& b.num_key_columns == 0
    &&& b.timestamp_index is None
    &&& !b.auto_increment_column_id
}

/// Every column is the column of one of the calls.
pub open spec fn from_calls(columns: Seq<ColumnView>, calls: Seq<Admission>) -> bool {
    forall|i: int|
        0 <= i < columns.len() ==> exists|j: int|
            0 <= j < calls.len() && #[trigger] columns[i] == call_column(#[trigger] calls[j])
}

/// A fresh builder accepts every admissible list of calls. It then holds
/// the columns of the calls, its key columns are the columns added as key
/// columns in the order of their calls, and it has a timestamp key
/// exactly if one of the calls added one.
pub proof fn lemma_admissible_calls_succeed(b: BuilderView, calls: Seq<Admission>)
    requires
        is_fresh(b),
        builder_wf(b),
        admissible(calls),
        calls.len() < usize::MAX,
    ensures
        apply_calls(b, calls) is Ok,
        ({
            let a = apply_calls(b, calls)->Ok_0;
            &&& builder_wf(a)
            &&& !a.auto_increment_column_id
            &&& a.enable_tsid_primary_key == b.enable_tsid_primary_key
            &&& a.version == b.version
            &&& a.columns.len() == calls.len()
            &&& from_calls(a.columns, calls)
            &&& a.timestamp_index is Some <==> exists|j: int|
                0 <= j < calls.len() && is_timestamp_key(#[trigger] calls[j])
            &&& a.columns.take(a.num_key_columns as int) == keys_in(calls)
        }),
    decreases calls.len(),
{
    if calls.len() == 0 {
        assert(b.columns.take(0) =~= keys_in(calls));
    } else {
        let front = calls.drop_last();
        let n = front.len() as int;
        assert forall|i: int| 0 <= i < front.len() implies front[i] == calls[i] by {}
        assert(admissible(front)) by {
            assert forall|i: int, j: int|
                0 <= i < front.len() && 0 <= j < front.len() && i != j implies call_column(
                #[trigger] front[i],
            ).name != call_column(#[trigger] front[j]).name by {
                assert(front[i] == calls[i] && front[j] == calls[j]);
            }
            assert forall|i: int, j: int|
                0 <= i < front.len() && 0 <= j < front.len() && i != j implies call_column(
                #[trigger] front[i],
            ).id != call_column(#[trigger] front[j]).id by {
                assert(front[i] == calls[i] && front[j] == calls[j]);
            }
            assert forall|i: int, j: int|
                0 <= i < front.len() && 0 <= j < front.len() && i != j implies !(
            is_timestamp_key(#[trigger] front[i]) && is_timestamp_key(#[trigger] front[j])) by {
                assert(front[i] == calls[i] && front[j] == calls[j]);
            }
            assert forall|i: int| 0 <= i < front.len() implies (#[trigger] front[i] matches Admission::Key(
                c,
            ) ==> c.data_type.spec_is_key_kind() && !c.is_nullable) by {
                assert(front[i] == calls[i]);
            }
        }
        lemma_admissible_calls_succeed(b, front);
        let before = apply_calls(b, front)->Ok_0;
        let c = call_column(calls.last());
        assert(calls.last() == calls[n]);
        assert(with_id(before, c) == c);
        assert(!has_name(before.columns, c.name)) by {
            if has_name(before.columns, c.name) {
                let i = choose|i: int|
                    0 <= i < before.columns.len() && before.columns[i].name == c.name;
                let j = choose|j: int|
                    0 <= j < front.len() && before.columns[i] == call_column(front[j]);
                assert(front[j] == calls[j]);
                assert(call_column(calls[j]).name != call_column(calls[n]).name);
            }
        }
        assert(!has_id(before.columns, c.id)) by {
            if has_id(before.columns, c.id) {
                let i = choose|i: int|
                    0 <= i < before.columns.len() && before.columns[i].id == c.id;
                let j = choose|j: int|
                    0 <= j < front.len() && before.columns[i] == call_column(front[j]);
                assert(front[j] == calls[j]);
                assert(call_column(calls[j]).id != call_column(calls[n]).id);
            }
        }
        assert(admission_error(before, c) is None);
        let k = before.num_key_columns as int;
        match calls.last() {
            Admission::Key(_) => {
                if c.data_type is Timestamp && before.timestamp_index is Some {
                    let j = choose|j: int| 0 <= j < front.len() && is_timestamp_key(front[j]);
                    assert(front[j] == calls[j]);
                    assert(is_timestamp_key(calls[j]) && is_timestamp_key(calls[n]));
                }
                assert(key_admission_error(before, c) is None);
                lemma_after_key_wf(before, c);
                let a = after_key(before, c);
                assert(apply_calls(b, calls) == Ok::<BuilderView, ErrorView>(a));
                assert(a.columns.take(a.num_key_columns as int) =~= before.columns.take(k).push(
                    c,
                ));
                assert forall|i: int| 0 <= i < a.columns.len() implies exists|j: int|
                    0 <= j < calls.len() && #[trigger] a.columns[i] == call_column(
                        #[trigger] calls[j],
                    ) by {
                    if i == k {
                        assert(a.columns[i] == call_column(calls[n]));
                    } else {
                        let i0 = if i < k {
                            i
                        } else {
                            i - 1
                        };
                        assert(a.columns[i] == before.columns[i0]);
                        let j = choose|j: int|
                            0 <= j < front.len() && before.columns[i0] == call_column(front[j]);
                        assert(front[j] == calls[j]);
                    }
                }
            },
            Admission::Normal(_) => {
                lemma_after_normal_wf(before, c);
                let a = after_normal(before, c);
                assert(apply_calls(b, calls) == Ok::<BuilderView, ErrorView>(a));
                assert(a.columns.take(a.num_key_columns as int) =~= before.columns.take(k));
                assert forall|i: int| 0 <= i < a.columns.len() implies exists|j: int|
                    0 <= j < calls.len() && #[trigger] a.columns[i] == call_column(
                        #[trigger] calls[j],
                    ) by {
                    if i == n {
                        assert(a.columns[i] == call_column(calls[n]));
                    } else {
                        assert(a.columns[i] == before.columns[i]);
                        let j = choose|j: int|
                            0 <= j < front.len() && before.columns[i] == call_column(front[j]);
                        assert(front[j] == calls[j]);
                    }
                }
            },
        }
        let a = apply_calls(b, calls)->Ok_0;
        if a.timestamp_index is Some {
            if before.timestamp_index is Some {
                let j = choose|j: int| 0 <= j < front.len() && is_timestamp_key(front[j]);
                assert(front[j] == calls[j]);
                assert(is_timestamp_key(calls[j]));
            } else {
                assert(is_timestamp_key(calls[n]));
            }
        }
        if exists|j: int| 0 <= j < calls.len() && is_timestamp_key(#[trigger] calls[j]) {
            let j = choose|j: int| 0 <= j < calls.len() && is_timestamp_key(#[trigger] calls[j]);
            if j < n {
                assert(front[j] == calls[j]);
                assert(is_timestamp_key(front[j]));
                assert(before.timestamp_index is Some);
            }
        }
    }
}

/// Whatever the order of the calls: a fresh builder without synthetic
/// key that is given columns of unique names and ids, among them exactly
/// one key column of timestamp kind, and key columns of key-capable kind
/// that refuse nulls, accepts all of them and can be built; and the key
/// columns of the schema are the columns added as key columns, in the
/// order of their calls.
pub proof fn lemma_valid_columns_build(b: BuilderView, calls: Seq<Admission>, t: int)
    requires
        is_fresh(b),
        builder_wf(b),
        !b.enable_tsid_primary_key,
        admissible(calls),
        calls.len() < usize::MAX,
        0 <= t < calls.len(),
        is_timestamp_key(calls[t]),
    ensures
        apply_calls(b, calls) is Ok,
        build_error(apply_calls(b, calls)->Ok_0) is None,
        ({
            let s = built_schema(apply_calls(b, calls)->Ok_0);
            &&& valid_schema(s)
            &&& s.columns.take(s.num_key_columns as int) == keys_in(calls)
        }),
{
    lemma_admissible_calls_succeed(b, calls);
    lemma_built_schema_valid(apply_calls(b, calls)->Ok_0);
}

} // verus!
