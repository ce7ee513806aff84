//! What the write-compatibility check answers for related schemas.

use vstd::prelude::*;
use vstd::set_lib::{lemma_int_range, lemma_len_subset, set_int_range};
use crate::column_schema::ColumnView;
use crate::error::WriteErrorView;
use crate::registry::{has_name, lemma_position_of, names_unique, position_of};
use crate::schema::{
    column_write_error, entries_written, first_write_error, identity_entries, index_entries,
    lemma_write_error_stays, matched_count, unmatched_names, write_compat_error, writer_entry,
};

verus! {

/// If the first `n` columns of the table are the first `n` columns of the
/// writer and the writer's names are unique, these columns pass and are
/// all matched.
pub proof fn lemma_common_prefix_passes(target: Seq<ColumnView>, writer: Seq<ColumnView>, n: nat)
    requires
        names_unique(writer),
        n <= target.len(),
        n <= writer.len(),
        forall|i: int| 0 <= i < n ==> target[i] == writer[i],
    ensures
        first_write_error(target, writer, n) is None,
        matched_count(target, writer, n) == n,
        forall|i: int| 0 <= i < n ==> position_of(writer, target[i].name) == Some(i as nat),
    decreases n,
{
    if n > 0 {
        lemma_common_prefix_passes(target, writer, (n - 1) as nat);
        lemma_position_of(writer, target[n - 1].name);
        assert(position_of(writer, target[n - 1].name) == Some((n - 1) as nat));
    }
}

/// A writer whose schema is that of the table may write, and the index
/// map is the identity.
pub proof fn lemma_same_schema_compatible(columns: Seq<ColumnView>)
    requires
        names_unique(columns),
        columns.len() <= usize::MAX,
    ensures
        write_compat_error(columns, columns) is None,
        entries_written(columns, columns) == columns.len(),
        index_entries(columns, columns, columns.len()) == identity_entries(columns.len()),
{
    lemma_common_prefix_passes(columns, columns, columns.len());
    assert(index_entries(columns, columns, columns.len()) =~= identity_entries(columns.len()));
}

/// If some column of the table refuses the writer, the check fails.
pub proof fn lemma_refusing_column_fails(
    target: Seq<ColumnView>,
    writer: Seq<ColumnView>,
    i: int,
    n: nat,
)
    requires
        0 <= i < n <= target.len(),
        column_write_error(target[i], writer) is Some,
    ensures
        first_write_error(target, writer, n) is Some,
    decreases n,
{
    if i < n - 1 {
        lemma_refusing_column_fails(target, writer, i, (n - 1) as nat);
    }
}

/// A writer that lacks a column which the table cannot fill with null may
/// not write. If the columns in front of that column pass, the error is
/// that the column is missing, and the entries of the columns in front of
/// it are what has been appended to the index map.
pub proof fn lemma_missing_column_fails(target: Seq<ColumnView>, writer: Seq<ColumnView>, i: int)
    requires
        0 <= i < target.len(),
        !has_name(writer, target[i].name),
        !target[i].is_nullable,
    ensures
        write_compat_error(target, writer) is Some,
        first_write_error(target, writer, i as nat) is None ==> write_compat_error(target, writer)
            == Some(WriteErrorView::MissingWriteColumn { name: target[i].name })
            && entries_written(target, writer) == i,
{
    lemma_position_of(writer, target[i].name);
    assert(column_write_error(target[i], writer) == Some(
        WriteErrorView::MissingWriteColumn { name: target[i].name },
    ));
    lemma_refusing_column_fails(target, writer, i, target.len());
    if first_write_error(target, writer, i as nat) is None {
        assert(first_write_error(target, writer, (i + 1) as nat) == Some(
            (i as nat, WriteErrorView::MissingWriteColumn { name: target[i].name }),
        ));
        lemma_write_error_stays(target, writer, (i + 1) as nat, target.len());
    }
}

/// A nullable column of the table that the writer lacks passes, and its
/// entry in the index map is `None`.
pub proof fn lemma_absent_nullable_column_passes(target: ColumnView, writer: Seq<ColumnView>)
    requires
        target.is_nullable,
        !has_name(writer, target.name),
    ensures
        column_write_error(target, writer) is None,
        writer_entry(target, writer) is None,
{
    lemma_position_of(writer, target.name);
}

/// A table that has, behind the columns of the writer, one more column,
/// which is nullable, accepts the writer; the index map is the identity
/// on the writer's columns and `None` for the additional column.
pub proof fn lemma_extra_nullable_column_compatible(writer: Seq<ColumnView>, extra: ColumnView)
    requires
        names_unique(writer),
        writer.len() < usize::MAX,
        !has_name(writer, extra.name),
        extra.is_nullable,
    ensures
        write_compat_error(writer.push(extra), writer) is None,
        index_entries(writer.push(extra), writer, writer.len() + 1) == identity_entries(
            writer.len(),
        ).push(None),
{
    let target = writer.push(extra);
    lemma_common_prefix_passes(target, writer, writer.len());
    lemma_absent_nullable_column_passes(extra, writer);
    assert(target[writer.len() as int] == extra);
    assert(first_write_error(target, writer, target.len()) is None);
    assert(matched_count(target, writer, target.len()) == writer.len());
    assert(index_entries(target, writer, writer.len() + 1) =~= identity_entries(
        writer.len(),
    ).push(None));
}

/// None of the first `n` columns of the writer is unknown to a table
/// that starts with them.
pub proof fn lemma_known_columns_are_not_listed(
    writer: Seq<ColumnView>,
    target: Seq<ColumnView>,
    n: nat,
)
    requires
        n <= target.len(),
        n <= writer.len(),
        forall|i: int| 0 <= i < n ==> target[i] == writer[i],
    ensures
        unmatched_names(writer, target, n) == Seq::<Seq<char>>::empty(),
    decreases n,
{
    if n > 0 {
        lemma_known_columns_are_not_listed(writer, target, (n - 1) as nat);
        lemma_position_of(target, writer[n - 1].name);
        assert(target[n - 1].name == writer[n - 1].name);
    }
}

/// A writer that has, behind the columns of the table, one more column
/// may not write: the error lists that column.
pub proof fn lemma_extra_writer_column_fails(target: Seq<ColumnView>, extra: ColumnView)
    requires
        names_unique(target),
        !has_name(target, extra.name),
    ensures
        write_compat_error(target, target.push(extra)) == Some(
            WriteErrorView::WriteMoreColumn { names: seq![extra.name] },
        ),
{
    let writer = target.push(extra);
    assert(names_unique(writer)) by {
        assert forall|i: int, j: int|
            0 <= i < writer.len() && 0 <= j < writer.len() && i != j implies writer[i].name
            != writer[j].name by {
            if i < target.len() && j < target.len() {
                assert(target[i].name != target[j].name);
            } else if i < target.len() {
                assert(target[i].name != extra.name);
            } else {
                assert(target[j].name != extra.name);
            }
        }
    }
    lemma_common_prefix_passes(target, writer, target.len());
    lemma_known_columns_are_not_listed(writer, target, target.len());
    lemma_position_of(target, extra.name);
    assert(writer[target.len() as int] == extra);
    assert(unmatched_names(writer, target, writer.len()) =~= seq![extra.name]);
}

/// The positions in the writer's schema that the first `n` columns of the
/// table are found at.
pub open spec fn matched_positions(target: Seq<ColumnView>, writer: Seq<ColumnView>, n: nat) -> Set<
    int,
>
    decreases n,
{
    if n == 0 {
        Set::empty()
    } else {
        let front = matched_positions(target, writer, (n - 1) as nat);
        match position_of(writer, target[n - 1].name) {
            Some(p) => front.insert(p as int),
            None => front,
        }
    }
}

/// Each matched position is that of a column of the writer that has the
/// name of one of the first `n` columns of the table.
pub proof fn lemma_matched_positions(
    target: Seq<ColumnView>,
    writer: Seq<ColumnView>,
    n: nat,
    p: int,
)
    requires
        n <= target.len(),
        matched_positions(target, writer, n).contains(p),
    ensures
        0 <= p < writer.len(),
        exists|i: int| 0 <= i < n && #[trigger] target[i].name == writer[p].name,
    decreases n,
{
    if n > 0 {
        lemma_position_of(writer, target[n - 1].name);
        match position_of(writer, target[n - 1].name) {
            Some(q) => {
                if q == p {
                    assert(target[n - 1].name == writer[p].name);
                } else {
                    lemma_matched_positions(target, writer, (n - 1) as nat, p);
                }
            },
            None => {
                lemma_matched_positions(target, writer, (n - 1) as nat, p);
            },
        }
    }
}

/// Where the names of the table are unique, its matched columns are found
/// at as many positions as there are matched columns.
pub proof fn lemma_matched_positions_len(target: Seq<ColumnView>, writer: Seq<ColumnView>, n: nat)
    requires
        names_unique(target),
        n <= target.len(),
    ensures
        matched_positions(target, writer, n).finite(),
        matched_positions(target, writer, n).len() == matched_count(target, writer, n),
    decreases n,
{
    if n > 0 {
        let m = (n - 1) as nat;
        lemma_matched_positions_len(target, writer, m);
        let front = matched_positions(target, writer, m);
        match position_of(writer, target[n - 1].name) {
            Some(p) => {
                lemma_position_of(writer, target[n - 1].name);
                if front.contains(p as int) {
                    lemma_matched_positions(target, writer, m, p as int);
                    let i = choose|i: int|
                        0 <= i < m && #[trigger] target[i].name == writer[p as int].name;
                    assert(target[i].name == target[n - 1].name);
                }
            },
            None => {},
        }
    }
}

/// The name of a column is listed among the unknown columns of the
/// writer once the column is among those looked at and the table does
/// not have it.
pub proof fn lemma_unknown_column_is_listed(
    writer: Seq<ColumnView>,
    target: Seq<ColumnView>,
    j: int,
    n: nat,
)
    requires
        0 <= j < n <= writer.len(),
        !has_name(target, writer[j].name),
    ensures
        unmatched_names(writer, target, n).contains(writer[j].name),
    decreases n,
{
    let front = unmatched_names(writer, target, (n - 1) as nat);
    if j < n - 1 {
        lemma_unknown_column_is_listed(writer, target, j, (n - 1) as nat);
        let k = choose|k: int| 0 <= k < front.len() && front[k] == writer[j].name;
        if position_of(target, writer[n - 1].name) is None {
            assert(front.push(writer[n - 1].name)[k] == writer[j].name);
        }
    } else {
        lemma_position_of(target, writer[j].name);
        assert(front.push(writer[j].name)[front.len() as int] == writer[j].name);
    }
}

/// A writer with a column that the table does not have may not write.
/// Where the names of the table are unique and each of its columns passes
/// for itself, the error lists the writer's columns unknown to the
/// table, that column among them.
pub proof fn lemma_unknown_writer_column_fails(
    target: Seq<ColumnView>,
    writer: Seq<ColumnView>,
    j: int,
)
    requires
        names_unique(target),
        0 <= j < writer.len(),
        !has_name(target, writer[j].name),
    ensures
        write_compat_error(target, writer) is Some,
        first_write_error(target, writer, target.len()) is None ==> write_compat_error(
            target,
            writer,
        ) == Some(
            WriteErrorView::WriteMoreColumn {
                names: unmatched_names(writer, target, writer.len()),
            },
        ),
        unmatched_names(writer, target, writer.len()).contains(writer[j].name),
{
    let hits = matched_positions(target, writer, target.len());
    let others = set_int_range(0, writer.len() as int).remove(j);
    lemma_matched_positions_len(target, writer, target.len());
    lemma_int_range(0, writer.len() as int);
    assert forall|p: int| hits.contains(p) implies others.contains(p) by {
        lemma_matched_positions(target, writer, target.len(), p);
        let i = choose|i: int| 0 <= i < target.len() && #[trigger] target[i].name == writer[p].name;
        if p == j {
            assert(has_name(target, writer[j].name));
        }
    }
    lemma_len_subset(hits, others);
    assert(others.len() == writer.len() - 1);
    lemma_unknown_column_is_listed(writer, target, j, writer.len());
}

} // verus!
