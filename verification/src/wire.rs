//! The message in which a schema travels between the nodes of a cluster.

use vstd::prelude::*;
use crate::builder::{
    admission_error, after_key, after_normal, build_error, built_schema, key_admission_error,
    Builder, BuilderView,
};
use crate::builder_laws::valid_schema;
use crate::column_schema::{views, ColumnSchema, ColumnView, COLUMN_ID_UNINIT};
use crate::error::{Error, ErrorView};
use crate::schema::{Schema, SchemaView};

verus! {

/// A schema as it is sent: the columns in order, the number of key
/// columns, the synthetic-key flag and the version. The position of the
/// timestamp column is not sent: the receiver finds the column by its
/// kind.
#[derive(Debug, PartialEq, Eq)]
pub struct TableSchemaPb {
    pub columns: Vec<ColumnSchema>,
    pub num_key_columns: u32,
    pub enable_tsid_primary_key: bool,
    pub version: u32,
}

/// Mathematical value of a [`TableSchemaPb`].
pub struct TableSchemaPbView {
    pub columns: Seq<ColumnView>,
    pub num_key_columns: u32,
    pub enable_tsid_primary_key: bool,
    pub version: u32,
}

impl View for TableSchemaPb {
    type V = TableSchemaPbView;

    open spec fn view(&self) -> TableSchemaPbView {
        TableSchemaPbView {
            columns: views(self.columns@),
            num_key_columns: self.num_key_columns,
            enable_tsid_primary_key: self.enable_tsid_primary_key,
            version: self.version,
        }
    }
}

/// The message of a schema. A count beyond 32 bits is cut to 32 bits.
pub open spec fn wire_of(schema: SchemaView) -> TableSchemaPbView {
    TableSchemaPbView {
        columns: schema.columns,
        num_key_columns: schema.num_key_columns as u32,
        enable_tsid_primary_key: schema.enable_tsid_primary_key,
        version: schema.version,
    }
}

/// The builder that a message starts from.
pub open spec fn wire_start(pb: TableSchemaPbView) -> BuilderView {
    BuilderView {
        columns: Seq::empty(),
        num_key_columns: 0,
        timestamp_index: None,
        version: pb.version,
        auto_increment_column_id: false,
        max_column_id: COLUMN_ID_UNINIT,
        enable_tsid_primary_key: pb.enable_tsid_primary_key,
    }
}

/// The builder after the first `n` columns of a message were added to it
/// in order, the first `num_key_columns` of them as key columns and the
/// others as normal columns; or the error of the first column refused.
pub open spec fn admitted(pb: TableSchemaPbView, n: nat) -> Result<BuilderView, ErrorView>
    decreases n,
{
    if n == 0 {
        Ok(wire_start(pb))
    } else {
        match admitted(pb, (n - 1) as nat) {
            Err(e) => Err(e),
            Ok(b) => {
                let c = pb.columns[n - 1];
                if n - 1 < pb.num_key_columns {
                    match key_admission_error(b, c) {
                        Some(e) => Err(e),
                        None => Ok(after_key(b, c)),
                    }
                } else {
                    match admission_error(b, c) {
                        Some(e) => Err(e),
                        None => Ok(after_normal(b, c)),
                    }
                }
            },
        }
    }
}

/// The schema that a message describes: what the builder yields after
/// all columns of the message were added.
pub open spec fn schema_of_wire(pb: TableSchemaPbView) -> Result<SchemaView, ErrorView> {
    match admitted(pb, pb.columns.len()) {
        Err(e) => Err(e),
        Ok(b) => match build_error(b) {
            Some(e) => Err(e),
            None => Ok(built_schema(b)),
        },
    }
}

/// Once a column was refused, adding more columns gives the same error.
pub proof fn lemma_admitted_error_stays(pb: TableSchemaPbView, n: nat, m: nat)
    requires
        n <= m,
        admitted(pb, n) is Err,
    ensures
        admitted(pb, m) == admitted(pb, n),
    decreases m,
{
    if n < m {
        lemma_admitted_error_stays(pb, n, (m - 1) as nat);
    }
}

impl TableSchemaPb {
    /// The message of a schema.
    pub fn from_schema(schema: Schema) -> (r: Self)
        ensures
            r@ == wire_of(schema@),
    {
        let all = schema.columns();
        let mut columns: Vec<ColumnSchema> = Vec::with_capacity(all.len());
        let mut i: usize = 0;
        while i < all.len()
            invariant
                i <= all@.len(),
                columns@.len() == i,
                forall|k: int| 0 <= k < i ==> columns@[k]@ == all@[k]@,
            decreases all@.len() - i,
        {
            columns.push(all[i].clone());
            i += 1;
        }
        proof {
            assert(views(columns@) =~= views(all@));
        }
        TableSchemaPb {
            columns,
            num_key_columns: #[verifier::truncate]
            (schema.num_key_columns() as u32),
            enable_tsid_primary_key: schema.is_tsid_primary_key_enabled(),
            version: schema.version(),
        }
    }
}

impl Schema {
    /// The schema that a message describes. The columns are added to a
    /// builder of the message's version and flag, so a message whose
    /// columns no builder accepts is refused with the builder's error.
    pub fn try_from_pb(schema: TableSchemaPb) -> (r: Result<Schema, Error>)
        requires
            8 * schema@.columns.len() <= usize::MAX,
        ensures
            match schema_of_wire(schema@) {
                Ok(v) => r matches Ok(s) && s.wf() && s@ == v && valid_schema(v),
                Err(e) => r matches Err(err) && err@ == e,
            },
    {
        let ghost pb = schema@;
        let mut builder = Builder::with_capacity(schema.columns.len()).version(
            schema.version,
        ).enable_tsid_primary_key(schema.enable_tsid_primary_key);
        let mut i: usize = 0;
        while i < schema.columns.len()
            invariant
                i <= schema.columns@.len(),
                pb == schema@,
                builder.wf(),
                !builder@.auto_increment_column_id,
                builder@.columns.len() == i,
                admitted(pb, i as nat) == Ok::<BuilderView, ErrorView>(builder@),
            decreases schema.columns@.len() - i,
        {
            let column = schema.columns[i].clone();
            proof {
                assert(column@ == pb.columns[i as int]);
            }
            let added = if i < schema.num_key_columns as usize {
                builder.add_key_column(column)
            } else {
                builder.add_normal_column(column)
            };
            match added {
                Ok(b) => {
                    builder = b;
                },
                Err(e) => {
                    proof {
                        assert(admitted(pb, (i + 1) as nat) is Err);
                        lemma_admitted_error_stays(pb, (i + 1) as nat, pb.columns.len());
                    }
                    return Err(e);
                },
            }
            i += 1;
        }
        builder.build()
    }
}

} // verus!
