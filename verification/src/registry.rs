//! The ordered columns of a schema with the lookups derived from them.

use vstd::prelude::*;
use crate::column_schema::{views, ColumnSchema, ColumnView};

verus! {

/// Byte offset of the fixed-width slot of column `i` in a contiguous row:
/// the widths of all columns before it, summed. At `i == columns.len()`
/// this is the total fixed width, where the string buffer starts.
pub open spec fn offset_at(columns: Seq<ColumnView>, i: nat) -> nat
    decreases i,
{
    if i == 0 {
        0
    } else {
        offset_at(columns, (i - 1) as nat) + columns[i - 1].data_type.spec_byte_size()
    }
}

/// Position that a name resolves to: that of the last column of this
/// name, `None` if there is none.
pub open spec fn position_of(columns: Seq<ColumnView>, name: Seq<char>) -> Option<nat>
    decreases columns.len(),
{
    if columns.len() == 0 {
        None
    } else if columns.last().name == name {
        Some((columns.len() - 1) as nat)
    } else {
        position_of(columns.drop_last(), name)
    }
}

/// No two columns share a name.
pub open spec fn names_unique(columns: Seq<ColumnView>) -> bool {
    forall|i: int, j: int|
        0 <= i < columns.len() && 0 <= j < columns.len() && i != j ==> columns[i].name
            != columns[j].name
}

/// No two columns share an id.
pub open spec fn ids_unique(columns: Seq<ColumnView>) -> bool {
    forall|i: int, j: int|
        0 <= i < columns.len() && 0 <= j < columns.len() && i != j ==> columns[i].id
            != columns[j].id
}

/// Some column has this name.
pub open spec fn has_name(columns: Seq<ColumnView>, name: Seq<char>) -> bool {
    exists|i: int| 0 <= i < columns.len() && columns[i].name == name
}

/// Offsets never decrease, and no slot is wider than eight bytes.
pub proof fn lemma_offset_bounds(columns: Seq<ColumnView>, i: nat, j: nat)
    requires
        i <= j,
    ensures
        offset_at(columns, i) <= offset_at(columns, j),
        offset_at(columns, j) <= 8 * j,
    decreases j,
{
    if j > 0 {
        if i < j {
            lemma_offset_bounds(columns, i, (j - 1) as nat);
        } else {
            lemma_offset_bounds(columns, (j - 1) as nat, (j - 1) as nat);
        }
    }
}

/// What [`position_of`] finds: a column of the name with no column of the
/// name behind it; and it finds one whenever the name occurs.
pub proof fn lemma_position_of(columns: Seq<ColumnView>, name: Seq<char>)
    ensures
        match position_of(columns, name) {
            Some(p) => p < columns.len() && columns[p as int].name == name && forall|j: int|
                p < j < columns.len() ==> columns[j].name != name,
            None => forall|j: int| 0 <= j < columns.len() ==> columns[j].name != name,
        },
        position_of(columns, name) is Some <==> has_name(columns, name),
    decreases columns.len(),
{
    if columns.len() > 0 {
        let front = columns.drop_last();
        lemma_position_of(front, name);
        assert forall|j: int| 0 <= j < front.len() implies front[j] == columns[j] by {}
        if columns.last().name != name {
            match position_of(front, name) {
                Some(p) => {
                    assert(columns[p as int].name == name);
                    assert forall|j: int| p < j < columns.len() implies columns[j].name
                        != name by {
                        if j < front.len() {
                            assert(front[j] == columns[j]);
                        }
                    }
                    assert(has_name(columns, name));
                },
                None => {
                    assert forall|j: int| 0 <= j < columns.len() implies columns[j].name
                        != name by {
                        if j < front.len() {
                            assert(front[j] == columns[j]);
                        }
                    }
                },
            }
        } else {
            assert(columns[columns.len() - 1].name == name);
            assert(has_name(columns, name));
        }
    }
}

/// Where names are unique, a column's name resolves to its own position.
pub proof fn lemma_position_of_unique(columns: Seq<ColumnView>, i: int)
    requires
        names_unique(columns),
        0 <= i < columns.len(),
    ensures
        position_of(columns, columns[i].name) == Some(i as nat),
{
    lemma_position_of(columns, columns[i].name);
}

/// The columns of a schema, in order, with the byte offsets of their
/// slots in a contiguous row.
#[derive(Debug, Eq)]
pub struct ColumnSchemas {
    columns: Vec<ColumnSchema>,
    byte_offsets: Vec<usize>,
    string_buffer_offset: usize,
}

impl View for ColumnSchemas {
    type V = Seq<ColumnView>;

    closed spec fn view(&self) -> Seq<ColumnView> {
        views(self.columns@)
    }
}

/// Do two lists hold equal columns at every position.
pub fn same_columns(a: &[ColumnSchema], b: &[ColumnSchema]) -> (r: bool)
    ensures
        r == (views(a@) == views(b@)),
{
    if a.len() != b.len() {
        proof {
            assert(views(a@).len() != views(b@).len());
        }
        return false;
    }
    let mut i: usize = 0;
    while i < a.len()
        invariant
            i <= a@.len(),
            a@.len() == b@.len(),
            forall|j: int| 0 <= j < i ==> a@[j]@ == b@[j]@,
        decreases a@.len() - i,
    {
        if !(a[i] == b[i]) {
            proof {
                assert(views(a@)[i as int] != views(b@)[i as int]);
            }
            return false;
        }
        i += 1;
    }
    proof {
        assert(views(a@) =~= views(b@));
    }
    true
}

impl PartialEq for ColumnSchemas {
    fn eq(&self, other: &Self) -> (r: bool) {
        same_columns(self.columns.as_slice(), other.columns.as_slice())
    }
}

impl vstd::std_specs::cmp::PartialEqSpecImpl for ColumnSchemas {
    open spec fn obeys_eq_spec() -> bool {
        true
    }

    /// Two registries are equal if they hold the same columns in the same
    /// order; the offsets, which follow from the columns, are not compared.
    open spec fn eq_spec(&self, other: &Self) -> bool {
        self@ == other@
    }
}

impl ColumnSchemas {
    /// The derived offsets are those of the columns.
    pub closed spec fn wf(&self) -> bool {
        &&& self.byte_offsets@.len() == self.columns@.len()
        &&& forall|i: int|
            0 <= i < self.columns@.len() ==> self.byte_offsets@[i] == offset_at(self@, i as nat)
        &&& self.string_buffer_offset == offset_at(self@, self.columns@.len())
    }

    /// The byte offsets, by position.
    pub closed spec fn offsets(&self) -> Seq<usize> {
        self.byte_offsets@
    }

    pub fn new(columns: Vec<ColumnSchema>) -> (r: Self)
        requires
            8 * columns@.len() <= usize::MAX,
        ensures
            r.wf(),
            r@ == views(columns@),
    {
        let ghost model = views(columns@);
        let mut current_offset: usize = 0;
        let mut byte_offsets: Vec<usize> = Vec::with_capacity(columns.len());
        let mut i: usize = 0;
        while i < columns.len()
            invariant
                i <= columns@.len(),
                8 * columns@.len() <= usize::MAX,
                model == views(columns@),
                byte_offsets@.len() == i,
                current_offset == offset_at(model, i as nat),
                forall|j: int| 0 <= j < i ==> byte_offsets@[j] == offset_at(model, j as nat),
            decreases columns@.len() - i,
        {
            proof {
                lemma_offset_bounds(model, i as nat, i as nat);
            }
            byte_offsets.push(current_offset);
            current_offset = current_offset + columns[i].data_type.byte_size();
            i += 1;
        }
        ColumnSchemas { columns, byte_offsets, string_buffer_offset: current_offset }
    }

    pub fn num_columns(&self) -> (r: usize)
        ensures
            r == self@.len(),
    {
        self.columns.len()
    }

    pub fn columns(&self) -> (r: &[ColumnSchema])
        ensures
            views(r@) == self@,
    {
        self.columns.as_slice()
    }

    pub fn column(&self, i: usize) -> (r: &ColumnSchema)
        requires
            i < self@.len(),
        ensures
            r@ == self@[i as int],
    {
        &self.columns[i]
    }

    /// Position of the column named `name`.
    pub fn index_of(&self, name: &str) -> (r: Option<usize>)
        ensures
            r matches Some(p) ==> position_of(self@, name@) == Some(p as nat),
            r is None ==> position_of(self@, name@) is None,
    {
        let wanted = String::from_str(name);
        let mut i: usize = self.columns.len();
        proof {
            assert(self@.take(i as int) =~= self@);
        }
        while i > 0
            invariant
                i <= self.columns@.len(),
                wanted@ == name@,
                self@ == views(self.columns@),
                position_of(self@, name@) == position_of(self@.take(i as int), name@),
            decreases i,
        {
            let ghost prefix = self@.take(i as int);
            i -= 1;
            proof {
                assert(prefix.last() == self@[i as int]);
                assert(prefix.drop_last() =~= self@.take(i as int));
            }
            if self.columns[i].name == wanted {
                return Some(i);
            }
        }
        proof {
            assert(self@.take(0).len() == 0);
        }
        None
    }

    /// All byte offsets, by position.
    pub fn byte_offsets(&self) -> (r: &[usize])
        ensures
            r@ == self.offsets(),
            self.wf() ==> r@.len() == self@.len() && forall|i: int|
                0 <= i < self@.len() ==> #[trigger] r@[i] == offset_at(self@, i as nat),
    {
        self.byte_offsets.as_slice()
    }

    /// Byte offset of the slot of column `index`.
    pub fn byte_offset(&self, index: usize) -> (r: usize)
        requires
            self.wf(),
            index < self@.len(),
        ensures
            r == offset_at(self@, index as nat),
    {
        self.byte_offsets[index]
    }

    /// Where the string buffer starts: the total width of the slots.
    pub fn string_buffer_offset(&self) -> (r: usize)
        requires
            self.wf(),
        ensures
            r == offset_at(self@, self@.len()),
    {
        self.string_buffer_offset
    }

    /// In a well-formed registry there is one offset per column, each the
    /// sum of the widths before it.
    pub proof fn lemma_offsets(&self)
        requires
            self.wf(),
        ensures
            self.offsets().len() == self@.len(),
            forall|i: int|
                0 <= i < self@.len() ==> #[trigger] self.offsets()[i] == offset_at(self@, i as nat),
    {
    }
}

impl Clone for ColumnSchemas {
    fn clone(&self) -> (r: Self)
        ensures
            r@ == self@,
            self.wf() ==> r.wf(),
    {
        let mut columns: Vec<ColumnSchema> = Vec::with_capacity(self.columns.len());
        let mut i: usize = 0;
        while i < self.columns.len()
            invariant
                i <= self.columns@.len(),
                columns@.len() == i,
                forall|j: int| 0 <= j < i ==> columns@[j]@ == self.columns@[j]@,
            decreases self.columns@.len() - i,
        {
            columns.push(self.columns[i].clone());
            i += 1;
        }
        let byte_offsets = self.byte_offsets.clone();
        proof {
            assert(views(columns@) =~= views(self.columns@));
            assert(byte_offsets@ =~= self.byte_offsets@);
        }
        ColumnSchemas { columns, byte_offsets, string_buffer_offset: self.string_buffer_offset }
    }
}

} // verus!
