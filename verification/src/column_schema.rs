//! Descriptor of a single column.

use vstd::prelude::*;
use crate::datum::DatumKind;

verus! {

/// Identifier of a column inside one table.
pub type ColumnId = u32;

/// Id of a column whose id has not been assigned yet.
pub const COLUMN_ID_UNINIT: ColumnId = 0;

/// Error of building a column descriptor.
#[derive(Debug)]
pub enum Error {
    /// A tag column must hold values of a key-capable kind.
    InvalidTagType { data_type: DatumKind },
}

/// Why a writer's column cannot be written into a table's column.
#[derive(Debug)]
pub enum CompatError {
    /// The two columns hold values of different kinds.
    IncompatDataType { name: String, expect: DatumKind, given: DatumKind },
    /// The writer may send nulls but the table column refuses them.
    NotNullable { name: String },
}

/// Mathematical value of a [`CompatError`].
pub enum CompatErrorView {
    IncompatDataType { name: Seq<char>, expect: DatumKind, given: DatumKind },
    NotNullable { name: Seq<char> },
}

impl View for CompatError {
    type V = CompatErrorView;

    open spec fn view(&self) -> CompatErrorView {
        match *self {
            CompatError::IncompatDataType { name, expect, given } => CompatErrorView::IncompatDataType {
                name: name@,
                expect,
                given,
            },
            CompatError::NotNullable { name } => CompatErrorView::NotNullable { name: name@ },
        }
    }
}

/// Descriptor of a column.
#[derive(Debug, Eq)]
pub struct ColumnSchema {
    /// Id of the column, [`COLUMN_ID_UNINIT`] while unassigned.
    pub id: ColumnId,
    /// Name of the column.
    pub name: String,
    /// Kind of the values.
    pub data_type: DatumKind,
    /// May the column hold nulls.
    pub is_nullable: bool,
    /// Is the column a tag.
    pub is_tag: bool,
    /// Free text.
    pub comment: String,
}

/// Mathematical value of a [`ColumnSchema`].
pub struct ColumnView {
    pub id: ColumnId,
    pub name: Seq<char>,
    pub data_type: DatumKind,
    pub is_nullable: bool,
    pub is_tag: bool,
    pub comment: Seq<char>,
}

impl View for ColumnSchema {
    type V = ColumnView;

    open spec fn view(&self) -> ColumnView {
        ColumnView {
            id: self.id,
            name: self.name@,
            data_type: self.data_type,
            is_nullable: self.is_nullable,
            is_tag: self.is_tag,
            comment: self.comment@,
        }
    }
}

impl PartialEq for ColumnSchema {
    fn eq(&self, other: &Self) -> (r: bool) {
        self.id == other.id && self.name == other.name && self.data_type == other.data_type
            && self.is_nullable == other.is_nullable && self.is_tag == other.is_tag
            && self.comment == other.comment
    }
}

impl vstd::std_specs::cmp::PartialEqSpecImpl for ColumnSchema {
    open spec fn obeys_eq_spec() -> bool {
        true
    }

    /// Two descriptors are equal if they have the same value.
    open spec fn eq_spec(&self, other: &Self) -> bool {
        self@ == other@
    }
}

impl Clone for ColumnSchema {
    fn clone(&self) -> (r: Self)
        ensures
            r@ == self@,
    {
        ColumnSchema {
            id: self.id,
            name: self.name.clone(),
            data_type: self.data_type,
            is_nullable: self.is_nullable,
            is_tag: self.is_tag,
            comment: self.comment.clone(),
        }
    }
}

/// The values of a sequence of columns, position by position.
pub open spec fn views(columns: Seq<ColumnSchema>) -> Seq<ColumnView> {
    Seq::new(columns.len(), |i: int| columns[i]@)
}

/// Outcome of checking that rows of `writer` fit into `target`: the kinds
/// must agree, and a column that refuses nulls takes no nullable writer.
pub open spec fn write_check(target: ColumnView, writer: ColumnView) -> Option<CompatErrorView> {
    if target.data_type != writer.data_type {
        Some(
            CompatErrorView::IncompatDataType {
                name: target.name,
                expect: target.data_type,
                given: writer.data_type,
            },
        )
    } else if !target.is_nullable && writer.is_nullable {
        Some(CompatErrorView::NotNullable { name: target.name })
    } else {
        None
    }
}

impl ColumnSchema {
    /// Checks that values written for `writer_schema` can be stored in this
    /// column.
    pub fn compatible_for_write(&self, writer_schema: &ColumnSchema) -> (r: Result<(), CompatError>)
        ensures
            r is Ok <==> write_check(self@, writer_schema@) is None,
            r matches Err(e) ==> Some(e@) == write_check(self@, writer_schema@),
    {
        if self.data_type != writer_schema.data_type {
            return Err(
                CompatError::IncompatDataType {
                    name: self.name.clone(),
                    expect: self.data_type,
                    given: writer_schema.data_type,
                },
            );
        }
        if !self.is_nullable && writer_schema.is_nullable {
            return Err(CompatError::NotNullable { name: self.name.clone() });
        }
        Ok(())
    }
}

/// Builder of a [`ColumnSchema`].
#[must_use]
pub struct Builder {
    pub id: ColumnId,
    pub name: String,
    pub data_type: DatumKind,
    pub is_nullable: bool,
    pub is_tag: bool,
    pub comment: String,
}

impl Builder {
    /// A builder of a non-nullable, untagged column without id.
    pub fn new(name: String, data_type: DatumKind) -> (r: Self)
        ensures
            r.id == COLUMN_ID_UNINIT,
            r.name@ == name@,
            r.data_type == data_type,
            !r.is_nullable,
            !r.is_tag,
            r.comment@ == Seq::<char>::empty(),
    {
        Builder {
            id: COLUMN_ID_UNINIT,
            name,
            data_type,
            is_nullable: false,
            is_tag: false,
            comment: String::new(),
        }
    }

    pub fn id(self, id: ColumnId) -> (r: Self)
        ensures
            r == (Builder { id, ..self }),
    {
        let mut b = self;
        b.id = id;
        b
    }

    pub fn is_nullable(self, is_nullable: bool) -> (r: Self)
        ensures
            r == (Builder { is_nullable, ..self }),
    {
        let mut b = self;
        b.is_nullable = is_nullable;
        b
    }

    pub fn is_tag(self, is_tag: bool) -> (r: Self)
        ensures
            r == (Builder { is_tag, ..self }),
    {
        let mut b = self;
        b.is_tag = is_tag;
        b
    }

    pub fn comment(self, comment: String) -> (r: Self)
        ensures
            r == (Builder { comment, ..self }),
    {
        let mut b = self;
        b.comment = comment;
        b
    }

    /// Builds the descriptor; a tag of a kind that cannot be a key is refused.
    pub fn build(self) -> (r: Result<ColumnSchema, Error>)
        ensures
            r is Ok <==> (self.is_tag ==> self.data_type.spec_is_key_kind()),
            r matches Ok(c) ==> c@ == (ColumnView {
                id: self.id,
                name: self.name@,
                data_type: self.data_type,
                is_nullable: self.is_nullable,
                is_tag: self.is_tag,
                comment: self.comment@,
            }),
            r matches Err(e) ==> e == (Error::InvalidTagType { data_type: self.data_type }),
    {
        if self.is_tag && !self.data_type.is_key_kind() {
            return Err(Error::InvalidTagType { data_type: self.data_type });
        }
        Ok(
            ColumnSchema {
                id: self.id,
                name: self.name,
                data_type: self.data_type,
                is_nullable: self.is_nullable,
                is_tag: self.is_tag,
                comment: self.comment,
            },
        )
    }
}

} // verus!
