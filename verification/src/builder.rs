//! The validating builder of a [`Schema`].

use vstd::prelude::*;
use crate::arrow::{fields_of, ArrowSchema, ArrowSchemaMetaKey, ArrowSchemaView, MetaEntry};
use crate::column_schema::{views, ColumnId, ColumnSchema, ColumnView, COLUMN_ID_UNINIT};
use crate::error::{Error, ErrorView};
use crate::registry::{has_name, ids_unique, names_unique, ColumnSchemas};
use crate::schema::{encode_fields, ArrowSchemaRef, Schema, SchemaView, Version};
use std::sync::Arc;
use crate::arrow::{meta_lookup, ArrowFieldView};
use crate::builder_laws::{lemma_built_schema_valid, valid_schema};
use crate::schema::{decode_fields, decoded_columns, lemma_decoded_len};
use crate::text::{bool_text, decimal, flag_string, write_decimal};
use crate::text::{parse_bool, parse_flag, parse_unsigned, read_u32, read_usize};

verus! {

/// Name that the synthetic key column must have.
pub const TSID_COLUMN: &'static str = "tsid";

/// Customary name of the timestamp column.
pub const TIMESTAMP_COLUMN: &'static str = "timestamp";

/// Version of a schema whose builder was given none.
pub const DEFAULT_SCHEMA_VERSION: Version = 1;

/// Mathematical value of a [`Builder`].
pub struct BuilderView {
    /// The columns admitted so far, key columns first.
    pub columns: Seq<ColumnView>,
    pub num_key_columns: usize,
    /// Position of the timestamp key column, once one was admitted.
    pub timestamp_index: Option<usize>,
    pub version: Version,
    pub auto_increment_column_id: bool,
    /// The greatest column id seen.
    pub max_column_id: ColumnId,
    pub enable_tsid_primary_key: bool,
}

/// What holds of every builder: the key columns are a prefix of the
/// columns, are of key-capable kind and refuse nulls; names and ids are
/// unique; the timestamp position is that of the one key column of
/// timestamp kind, if there is one; no id exceeds the greatest seen.
pub open spec fn builder_wf(b: BuilderView) -> bool {
    &&& b.num_key_columns <= b.columns.len() <= usize::MAX
    &&& names_unique(b.columns)
    &&& ids_unique(b.columns)
    &&& forall|i: int|
        0 <= i < b.num_key_columns ==> b.columns[i].data_type.spec_is_key_kind()
            && !b.columns[i].is_nullable
    &&& match b.timestamp_index {
        Some(t) => t < b.num_key_columns && forall|i: int|
            0 <= i < b.num_key_columns ==> (b.columns[i].data_type is Timestamp <==> i == t),
        None => forall|i: int|
            0 <= i < b.num_key_columns ==> !(b.columns[i].data_type is Timestamp),
    }
    &&& forall|i: int| 0 <= i < b.columns.len() ==> b.columns[i].id <= b.max_column_id
}

/// Some column has this id.
pub open spec fn has_id(columns: Seq<ColumnView>, id: ColumnId) -> bool {
    exists|i: int| 0 <= i < columns.len() && columns[i].id == id
}

/// Does the builder give the column an id of its own choosing.
pub open spec fn allocates_id(b: BuilderView, column: ColumnView) -> bool {
    b.auto_increment_column_id && column.id == COLUMN_ID_UNINIT
}

/// The column as the builder takes it: with the id after the greatest
/// seen, where the builder allocates one, else unchanged.
pub open spec fn with_id(b: BuilderView, column: ColumnView) -> ColumnView {
    if allocates_id(b, column) {
        ColumnView { id: (b.max_column_id + 1) as ColumnId, ..column }
    } else {
        column
    }
}

/// An id can be allocated as long as the greatest seen is not the last.
pub open spec fn id_available(b: BuilderView, column: ColumnView) -> bool {
    allocates_id(b, column) ==> b.max_column_id < u32::MAX
}

/// Why a column is refused whatever it is added as: its name or its id
/// is taken.
pub open spec fn admission_error(b: BuilderView, c: ColumnView) -> Option<ErrorView> {
    if has_name(b.columns, c.name) {
        Some(ErrorView::ColumnNameExists { name: c.name })
    } else if has_id(b.columns, c.id) {
        Some(ErrorView::ColumnIdExists { name: c.name, id: c.id })
    } else {
        None
    }
}

/// Why a column is refused as a key column, in the order of the checks:
/// name taken, id taken, kind not key-capable, nullable, second
/// timestamp.
pub open spec fn key_admission_error(b: BuilderView, c: ColumnView) -> Option<ErrorView> {
    if admission_error(b, c) is Some {
        admission_error(b, c)
    } else if !c.data_type.spec_is_key_kind() {
        Some(ErrorView::KeyColumnType { name: c.name, kind: c.data_type })
    } else if c.is_nullable {
        Some(ErrorView::NullKeyColumn { name: c.name })
    } else if c.data_type is Timestamp && b.timestamp_index is Some {
        Some(
            ErrorView::TimestampKeyExists {
                timestamp_column: b.columns[b.timestamp_index.unwrap() as int].name,
                given_column: c.name,
            },
        )
    } else {
        None
    }
}

/// The greater of two ids.
pub open spec fn max_id(a: ColumnId, b: ColumnId) -> ColumnId {
    if a >= b {
        a
    } else {
        b
    }
}

/// The builder after it admitted `c` as a key column: `c` stands behind
/// the key columns admitted before and in front of all normal columns.
pub open spec fn after_key(b: BuilderView, c: ColumnView) -> BuilderView {
    BuilderView {
        columns: b.columns.insert(b.num_key_columns as int, c),
        num_key_columns: (b.num_key_columns + 1) as usize,
        timestamp_index: if c.data_type is Timestamp {
            Some(b.num_key_columns)
        } else {
            b.timestamp_index
        },
        max_column_id: max_id(b.max_column_id, c.id),
        ..b
    }
}

/// The builder after it admitted `c` as a normal column: `c` stands
/// behind all columns admitted before.
pub open spec fn after_normal(b: BuilderView, c: ColumnView) -> BuilderView {
    BuilderView { columns: b.columns.push(c), max_column_id: max_id(b.max_column_id, c.id), ..b }
}

/// The first of the first `n` columns that has this name.
pub open spec fn first_named(columns: Seq<ColumnView>, name: Seq<char>, n: nat) -> Option<nat>
    decreases n,
{
    if n == 0 {
        None
    } else {
        match first_named(columns, name, (n - 1) as nat) {
            Some(p) => Some(p),
            None => if columns[n - 1].name == name {
                Some((n - 1) as nat)
            } else {
                None
            },
        }
    }
}

/// Position of the synthetic key column: that of the first column with
/// the reserved name, where the synthetic key is enabled.
pub open spec fn tsid_position(columns: Seq<ColumnView>, enabled: bool) -> Option<usize> {
    if enabled {
        match first_named(columns, "tsid"@, columns.len()) {
            Some(p) => Some(p as usize),
            None => None,
        }
    } else {
        None
    }
}

/// The dictionary that a schema stores its facts in.
pub open spec fn meta_of(
    num_key_columns: usize,
    timestamp_index: usize,
    version: Version,
    enable_tsid_primary_key: bool,
) -> Seq<(Seq<char>, Seq<char>)> {
    seq![
        (ArrowSchemaMetaKey::NumKeyColumns.text(), decimal(num_key_columns as nat)),
        (ArrowSchemaMetaKey::TimestampIndex.text(), decimal(timestamp_index as nat)),
        (ArrowSchemaMetaKey::Version.text(), decimal(version as nat)),
        (ArrowSchemaMetaKey::EnableTsidPrimaryKey.text(), bool_text(enable_tsid_primary_key)),
    ]
}

/// Why a builder cannot be built: it has no timestamp key column; or the
/// synthetic key is enabled and there are not exactly two key columns,
/// one of them with the reserved name.
pub open spec fn build_error(b: BuilderView) -> Option<ErrorView> {
    if b.timestamp_index is None {
        Some(ErrorView::MissingTimestampKey)
    } else if b.enable_tsid_primary_key && b.num_key_columns != 2 {
        Some(ErrorView::InvalidTsidSchema)
    } else if b.enable_tsid_primary_key && !(first_named(b.columns, "tsid"@, b.columns.len())
        matches Some(p) && p < b.num_key_columns) {
        Some(ErrorView::InvalidTsidSchema)
    } else {
        None
    }
}

/// The schema that a builder yields.
pub open spec fn built_schema(b: BuilderView) -> SchemaView {
    SchemaView {
        columns: b.columns,
        num_key_columns: b.num_key_columns,
        timestamp_index: b.timestamp_index.unwrap(),
        tsid_index: tsid_position(b.columns, b.enable_tsid_primary_key),
        enable_tsid_primary_key: b.enable_tsid_primary_key,
        version: b.version,
        arrow: ArrowSchemaView {
            fields: fields_of(b.columns),
            metadata: meta_of(
                b.num_key_columns,
                b.timestamp_index.unwrap(),
                b.version,
                b.enable_tsid_primary_key,
            ),
        },
    }
}

/// Once a column of the name was found, looking at more columns finds
/// the same.
pub proof fn lemma_first_named_stays(columns: Seq<ColumnView>, name: Seq<char>, n: nat, m: nat)
    requires
        n <= m,
        first_named(columns, name, n) is Some,
    ensures
        first_named(columns, name, m) == first_named(columns, name, n),
    decreases m,
{
    if n < m {
        lemma_first_named_stays(columns, name, n, (m - 1) as nat);
    }
}

/// What [`first_named`] finds: a column of the name with none of the name
/// in front of it.
pub proof fn lemma_first_named(columns: Seq<ColumnView>, name: Seq<char>, n: nat)
    requires
        n <= columns.len(),
    ensures
        match first_named(columns, name, n) {
            Some(p) => p < n && columns[p as int].name == name && forall|j: int|
                0 <= j < p ==> columns[j].name != name,
            None => forall|j: int| 0 <= j < n ==> columns[j].name != name,
        },
    decreases n,
{
    if n > 0 {
        lemma_first_named(columns, name, (n - 1) as nat);
    }
}

/// Builder of a [`Schema`].
#[must_use]
pub struct Builder {
    columns: Vec<ColumnSchema>,
    num_key_columns: usize,
    timestamp_index: Option<usize>,
    version: Version,
    auto_increment_column_id: bool,
    max_column_id: ColumnId,
    enable_tsid_primary_key: bool,
}

impl View for Builder {
    type V = BuilderView;

    closed spec fn view(&self) -> BuilderView {
        BuilderView {
            columns: views(self.columns@),
            num_key_columns: self.num_key_columns,
            timestamp_index: self.timestamp_index,
            version: self.version,
            auto_increment_column_id: self.auto_increment_column_id,
            max_column_id: self.max_column_id,
            enable_tsid_primary_key: self.enable_tsid_primary_key,
        }
    }
}

/// Does one of the columns have this name.
pub fn contains_name(columns: &Vec<ColumnSchema>, name: &str) -> (r: bool)
    ensures
        r == has_name(views(columns@), name@),
{
    let wanted = String::from_str(name);
    let mut i: usize = 0;
    while i < columns.len()
        invariant
            i <= columns@.len(),
            wanted@ == name@,
            forall|j: int| 0 <= j < i ==> views(columns@)[j].name != name@,
        decreases columns@.len() - i,
    {
        if columns[i].name == wanted {
            proof {
                assert(views(columns@)[i as int].name == name@);
            }
            return true;
        }
        i += 1;
    }
    false
}

/// Does one of the columns have this id.
pub fn contains_id(columns: &Vec<ColumnSchema>, id: ColumnId) -> (r: bool)
    ensures
        r == has_id(views(columns@), id),
{
    let mut i: usize = 0;
    while i < columns.len()
        invariant
            i <= columns@.len(),
            forall|j: int| 0 <= j < i ==> views(columns@)[j].id != id,
        decreases columns@.len() - i,
    {
        if columns[i].id == id {
            proof {
                assert(views(columns@)[i as int].id == id);
            }
            return true;
        }
        i += 1;
    }
    false
}

/// Admitting a key column keeps the builder well formed.
pub proof fn lemma_after_key_wf(b: BuilderView, c: ColumnView)
    requires
        builder_wf(b),
        key_admission_error(b, c) is None,
        b.columns.len() < usize::MAX,
    ensures
        builder_wf(after_key(b, c)),
{
    let a = after_key(b, c);
    let k = b.num_key_columns as int;
    assert forall|i: int| 0 <= i < a.columns.len() implies a.columns[i] == (if i < k {
        b.columns[i]
    } else if i == k {
        c
    } else {
        b.columns[i - 1]
    }) by {}
    assert(forall|i: int| 0 <= i < b.columns.len() ==> b.columns[i].name != c.name);
    assert(forall|i: int| 0 <= i < b.columns.len() ==> b.columns[i].id != c.id);
    assert(names_unique(a.columns));
    assert(ids_unique(a.columns));
}

/// Admitting a normal column keeps the builder well formed.
pub proof fn lemma_after_normal_wf(b: BuilderView, c: ColumnView)
    requires
        builder_wf(b),
        admission_error(b, c) is None,
        b.columns.len() < usize::MAX,
    ensures
        builder_wf(after_normal(b, c)),
{
    let a = after_normal(b, c);
    assert(forall|i: int| 0 <= i < b.columns.len() ==> b.columns[i].name != c.name);
    assert(forall|i: int| 0 <= i < b.columns.len() ==> b.columns[i].id != c.id);
    assert(names_unique(a.columns));
    assert(ids_unique(a.columns));
}

impl Default for Builder {
    fn default() -> (r: Self)
        ensures
            r.wf(),
            r@ == (BuilderView {
                columns: Seq::empty(),
                num_key_columns: 0,
                timestamp_index: None,
                version: DEFAULT_SCHEMA_VERSION,
                auto_increment_column_id: false,
                max_column_id: COLUMN_ID_UNINIT,
                enable_tsid_primary_key: false,
            }),
    {
        Self::new()
    }
}

impl Builder {
    /// See [`builder_wf`].
    pub open spec fn wf(&self) -> bool {
        builder_wf(self@)
    }

    /// A builder without columns, of the default version, that allocates
    /// no ids and has the synthetic key disabled.
    pub fn new() -> (r: Self)
        ensures
            r.wf(),
            r@ == (BuilderView {
                columns: Seq::empty(),
                num_key_columns: 0,
                timestamp_index: None,
                version: DEFAULT_SCHEMA_VERSION,
                auto_increment_column_id: false,
                max_column_id: COLUMN_ID_UNINIT,
                enable_tsid_primary_key: false,
            }),
    {
        Self::with_capacity(0)
    }

    /// As [`Builder::new`], with room for `capacity` columns.
    pub fn with_capacity(capacity: usize) -> (r: Self)
        ensures
            r.wf(),
            r@ == (BuilderView {
                columns: Seq::empty(),
                num_key_columns: 0,
                timestamp_index: None,
                version: DEFAULT_SCHEMA_VERSION,
                auto_increment_column_id: false,
                max_column_id: COLUMN_ID_UNINIT,
                enable_tsid_primary_key: false,
            }),
    {
        let r = Builder {
            columns: Vec::with_capacity(capacity),
            num_key_columns: 0,
            timestamp_index: None,
            version: DEFAULT_SCHEMA_VERSION,
            auto_increment_column_id: false,
            max_column_id: COLUMN_ID_UNINIT,
            enable_tsid_primary_key: false,
        };
        proof {
            assert(r@.columns =~= Seq::empty());
        }
        r
    }

    /// Adds a key column behind the key columns added before.
    pub fn add_key_column(self, column: ColumnSchema) -> (r: Result<Self, Error>)
        requires
            self.wf(),
            id_available(self@, column@),
        ensures
            match key_admission_error(self@, with_id(self@, column@)) {
                Some(e) => r matches Err(err) && err@ == e,
                None => r matches Ok(b) && b.wf() && b@ == after_key(
                    self@,
                    with_id(self@, column@),
                ),
            },
    {
        let ghost start = self@;
        let mut this = self;
        let mut column = column;
        this.may_alloc_column_id(&mut column);
        match this.validate_column(&column, true) {
            Ok(()) => {},
            Err(e) => {
                return Err(e);
            },
        }
        if column.is_nullable {
            return Err(Error::NullKeyColumn { name: column.name });
        }
        if column.data_type.is_timestamp() {
            match this.timestamp_index {
                Some(t) => {
                    return Err(
                        Error::TimestampKeyExists {
                            timestamp_column: this.columns[t].name.clone(),
                            given_column: column.name,
                        },
                    );
                },
                None => {},
            }
            this.timestamp_index = Some(this.num_key_columns);
        }
        let ghost admitted = column@;
        this.insert_new_key_column(column);
        proof {
            lemma_after_key_wf(start, admitted);
        }
        Ok(this)
    }

    /// Adds a normal column behind all columns added before.
    pub fn add_normal_column(self, column: ColumnSchema) -> (r: Result<Self, Error>)
        requires
            self.wf(),
            id_available(self@, column@),
        ensures
            match admission_error(self@, with_id(self@, column@)) {
                Some(e) => r matches Err(err) && err@ == e,
                None => r matches Ok(b) && b.wf() && b@ == after_normal(
                    self@,
                    with_id(self@, column@),
                ),
            },
    {
        let ghost start = self@;
        let mut this = self;
        let mut column = column;
        this.may_alloc_column_id(&mut column);
        match this.validate_column(&column, false) {
            Ok(()) => {},
            Err(e) => {
                return Err(e);
            },
        }
        let ghost admitted = column@;
        this.insert_new_normal_column(column);
        proof {
            lemma_after_normal_wf(start, admitted);
        }
        Ok(this)
    }

    /// Sets the version of the schema.
    pub fn version(self, version: Version) -> (r: Self)
        ensures
            r@ == (BuilderView { version, ..self@ }),
            self.wf() ==> r.wf(),
    {
        let mut this = self;
        this.version = version;
        this
    }

    /// Sets whether a column that comes without id is given the id after
    /// the greatest seen.
    pub fn auto_increment_column_id(self, auto_increment: bool) -> (r: Self)
        ensures
            r@ == (BuilderView { auto_increment_column_id: auto_increment, ..self@ }),
            self.wf() ==> r.wf(),
    {
        let mut this = self;
        this.auto_increment_column_id = auto_increment;
        this
    }

    /// Sets whether the synthetic key is the primary key.
    pub fn enable_tsid_primary_key(self, enable_tsid_primary_key: bool) -> (r: Self)
        ensures
            r@ == (BuilderView { enable_tsid_primary_key, ..self@ }),
            self.wf() ==> r.wf(),
    {
        let mut this = self;
        this.enable_tsid_primary_key = enable_tsid_primary_key;
        this
    }

    /// Gives the column its id, where one is to be allocated, and records
    /// the column's id as seen.
    fn may_alloc_column_id(&mut self, column: &mut ColumnSchema)
        requires
            id_available(old(self)@, old(column)@),
        ensures
            final(column)@ == with_id(old(self)@, old(column)@),
            final(self)@ == (BuilderView {
                max_column_id: max_id(old(self)@.max_column_id, final(column)@.id),
                ..old(self)@
            }),
    {
        if self.auto_increment_column_id && column.id == COLUMN_ID_UNINIT {
            column.id = self.max_column_id + 1;
        }
        if column.id > self.max_column_id {
            self.max_column_id = column.id;
        }
    }

    /// Checks what must hold of a column before it is added: a fresh name,
    /// a fresh id and, for a key column, a key-capable kind.
    fn validate_column(&self, column: &ColumnSchema, is_key: bool) -> (r: Result<(), Error>)
        ensures
            match admission_error(self@, column@) {
                Some(e) => r matches Err(err) && err@ == e,
                None => if is_key && !column@.data_type.spec_is_key_kind() {
                    r matches Err(err) && err@ == (ErrorView::KeyColumnType {
                        name: column@.name,
                        kind: column@.data_type,
                    })
                } else {
                    r is Ok
                },
            },
    {
        if contains_name(&self.columns, column.name.as_str()) {
            return Err(Error::ColumnNameExists { name: column.name.clone() });
        }
        if contains_id(&self.columns, column.id) {
            return Err(Error::ColumnIdExists { name: column.name.clone(), id: column.id });
        }
        if is_key && !column.data_type.is_key_kind() {
            return Err(Error::KeyColumnType { name: column.name.clone(), kind: column.data_type });
        }
        Ok(())
    }

    /// Puts the column behind the key columns. That the column could be
    /// put there shows that the columns were fewer than a vector can hold.
    fn insert_new_key_column(&mut self, column: ColumnSchema)
        requires
            old(self)@.num_key_columns <= old(self)@.columns.len(),
        ensures
            final(self)@ == (BuilderView {
                columns: old(self)@.columns.insert(old(self)@.num_key_columns as int, column@),
                num_key_columns: (old(self)@.num_key_columns + 1) as usize,
                ..old(self)@
            }),
            old(self)@.columns.len() < usize::MAX,
    {
        let ghost before = views(self.columns@);
        let ghost c = column@;
        self.columns.insert(self.num_key_columns, column);
        let n = self.columns.len();
        proof {
            assert(views(self.columns@) =~= before.insert(self.num_key_columns as int, c));
            assert(before.len() + 1 == n);
            assert(self.num_key_columns < n);
        }
        self.num_key_columns = self.num_key_columns + 1;
    }

    /// Puts the column behind all columns. That the column could be put
    /// there shows that the columns were fewer than a vector can hold.
    fn insert_new_normal_column(&mut self, column: ColumnSchema)
        ensures
            final(self)@ == (BuilderView {
                columns: old(self)@.columns.push(column@),
                ..old(self)@
            }),
            old(self)@.columns.len() < usize::MAX,
    {
        let ghost before = views(self.columns@);
        let ghost c = column@;
        self.columns.push(column);
        let n = self.columns.len();
        proof {
            assert(views(self.columns@) =~= before.push(c));
            assert(before.len() + 1 == n);
        }
    }

    /// Position of the synthetic key column among `columns`: `None` where
    /// the key is disabled; else that of the first column with the
    /// reserved name, and an error if there is none.
    pub fn find_tsid_index(enable_tsid_primary_key: bool, columns: &[ColumnSchema]) -> (r: Result<
        Option<usize>,
        Error,
    >)
        ensures
            match r {
                Ok(index) => index == tsid_position(views(columns@), enable_tsid_primary_key) && (
                enable_tsid_primary_key ==> index is Some),
                Err(e) => e@ == ErrorView::InvalidTsidSchema && enable_tsid_primary_key
                    && first_named(views(columns@), "tsid"@, columns@.len() as nat) is None,
            },
    {
        if !enable_tsid_primary_key {
            return Ok(None);
        }
        let ghost model = views(columns@);
        let reserved = String::from_str("tsid");
        let mut i: usize = 0;
        while i < columns.len()
            invariant
                i <= columns@.len(),
                reserved@ == "tsid"@,
                enable_tsid_primary_key,
                model == views(columns@),
                first_named(model, "tsid"@, i as nat) is None,
            decreases columns@.len() - i,
        {
            if columns[i].name == reserved {
                proof {
                    assert(model.len() == columns@.len());
                    assert(model[i as int].name == "tsid"@);
                    assert(first_named(model, "tsid"@, (i + 1) as nat) == Some(i as nat));
                    lemma_first_named_stays(model, "tsid"@, (i + 1) as nat, columns@.len() as nat);
                }
                return Ok(Some(i));
            }
            i += 1;
        }
        Err(Error::InvalidTsidSchema)
    }

    /// The dictionary of the schema that is being built.
    pub fn build_arrow_schema_meta(&self) -> (r: Vec<MetaEntry>)
        requires
            self@.timestamp_index is Some,
        ensures
            crate::arrow::entries(r@) == meta_of(
                self@.num_key_columns,
                self@.timestamp_index.unwrap(),
                self@.version,
                self@.enable_tsid_primary_key,
            ),
    {
        let mut meta: Vec<MetaEntry> = Vec::with_capacity(4);
        let timestamp_index = match self.timestamp_index {
            Some(t) => t,
            None => 0,
        };
        meta.push(
            MetaEntry {
                key: ArrowSchemaMetaKey::NumKeyColumns.to_string(),
                value: write_decimal(self.num_key_columns as u64),
            },
        );
        meta.push(
            MetaEntry {
                key: ArrowSchemaMetaKey::TimestampIndex.to_string(),
                value: write_decimal(timestamp_index as u64),
            },
        );
        meta.push(
            MetaEntry {
                key: ArrowSchemaMetaKey::Version.to_string(),
                value: write_decimal(self.version as u64),
            },
        );
        meta.push(
            MetaEntry {
                key: ArrowSchemaMetaKey::EnableTsidPrimaryKey.to_string(),
                value: flag_string(self.enable_tsid_primary_key),
            },
        );
        proof {
            assert(crate::arrow::entries(meta@) =~= meta_of(
                self@.num_key_columns,
                self@.timestamp_index.unwrap(),
                self@.version,
                self@.enable_tsid_primary_key,
            ));
        }
        meta
    }

    /// Builds the schema.
    pub fn build(self) -> (r: Result<Schema, Error>)
        requires
            self.wf(),
            8 * self@.columns.len() <= usize::MAX,
        ensures
            match build_error(self@) {
                Some(e) => r matches Err(err) && err@ == e,
                None => r matches Ok(s) && s.wf() && s@ == built_schema(self@) && valid_schema(s@),
            },
    {
        proof {
            assert(self@.columns.len() == self.columns@.len());
            lemma_first_named(self@.columns, "tsid"@, self@.columns.len());
            if build_error(self@) is None {
                lemma_built_schema_valid(self@);
            }
        }
        let timestamp_index = match self.timestamp_index {
            Some(t) => t,
            None => {
                return Err(Error::MissingTimestampKey);
            },
        };
        if self.enable_tsid_primary_key && self.num_key_columns != 2 {
            return Err(Error::InvalidTsidSchema);
        }
        let tsid_index = match Self::find_tsid_index(
            self.enable_tsid_primary_key,
            self.columns.as_slice(),
        ) {
            Ok(index) => index,
            Err(e) => {
                return Err(e);
            },
        };
        match tsid_index {
            Some(p) => {
                if p >= self.num_key_columns {
                    return Err(Error::InvalidTsidSchema);
                }
            },
            None => {},
        }
        let fields = encode_fields(self.columns.as_slice());
        let metadata = self.build_arrow_schema_meta();
        let arrow_schema = Arc::new(ArrowSchema { fields, metadata });
        let column_schemas = ColumnSchemas::new(self.columns);
        Ok(
            Schema::assemble(
                arrow_schema,
                self.num_key_columns,
                timestamp_index,
                tsid_index,
                self.enable_tsid_primary_key,
                column_schemas,
                self.version,
            ),
        )
    }
}

/// The facts of a schema that the dictionary of its columnar form keeps.
#[derive(Clone, Copy, Debug, PartialEq, Eq)]
pub struct ArrowSchemaMeta {
    pub num_key_columns: usize,
    pub timestamp_index: usize,
    pub enable_tsid_primary_key: bool,
    pub version: Version,
}

/// The count stored under `key`: an error if the entry is absent, another
/// if its value is no decimal number that fits.
pub open spec fn count_entry(meta: Seq<(Seq<char>, Seq<char>)>, key: ArrowSchemaMetaKey) -> Result<
    usize,
    ErrorView,
> {
    match meta_lookup(meta, key.text()) {
        None => Err(ErrorView::ArrowSchemaMetaKeyNotFound { key }),
        Some(raw) => match parse_unsigned(raw, usize::MAX as nat) {
            Some(v) => Ok(v as usize),
            None => Err(ErrorView::InvalidArrowSchemaMetaValue { key, raw_value: raw }),
        },
    }
}

/// The version stored under `key`, read as [`count_entry`] reads a count.
pub open spec fn version_entry(meta: Seq<(Seq<char>, Seq<char>)>, key: ArrowSchemaMetaKey)
    -> Result<Version, ErrorView> {
    match meta_lookup(meta, key.text()) {
        None => Err(ErrorView::ArrowSchemaMetaKeyNotFound { key }),
        Some(raw) => match parse_unsigned(raw, u32::MAX as nat) {
            Some(v) => Ok(v as Version),
            None => Err(ErrorView::InvalidArrowSchemaMetaValue { key, raw_value: raw }),
        },
    }
}

/// The flag stored under `key`: an error if the entry is absent, another
/// if its value is neither `true` nor `false`.
pub open spec fn flag_entry(meta: Seq<(Seq<char>, Seq<char>)>, key: ArrowSchemaMetaKey) -> Result<
    bool,
    ErrorView,
> {
    match meta_lookup(meta, key.text()) {
        None => Err(ErrorView::ArrowSchemaMetaKeyNotFound { key }),
        Some(raw) => match parse_flag(raw) {
            Some(v) => Ok(v),
            None => Err(ErrorView::InvalidArrowSchemaMetaValue { key, raw_value: raw }),
        },
    }
}

/// The facts that a dictionary keeps. The entries are read in the order
/// key-column count, timestamp position, synthetic-key flag, version, and
/// the first that is absent or unreadable gives the error.
pub open spec fn parsed_meta(meta: Seq<(Seq<char>, Seq<char>)>) -> Result<
    ArrowSchemaMeta,
    ErrorView,
> {
    match count_entry(meta, ArrowSchemaMetaKey::NumKeyColumns) {
        Err(e) => Err(e),
        Ok(num_key_columns) => match count_entry(meta, ArrowSchemaMetaKey::TimestampIndex) {
            Err(e) => Err(e),
            Ok(timestamp_index) => match flag_entry(
                meta,
                ArrowSchemaMetaKey::EnableTsidPrimaryKey,
            ) {
                Err(e) => Err(e),
                Ok(enable_tsid_primary_key) => match version_entry(
                    meta,
                    ArrowSchemaMetaKey::Version,
                ) {
                    Err(e) => Err(e),
                    Ok(version) => Ok(
                        ArrowSchemaMeta {
                            num_key_columns,
                            timestamp_index,
                            enable_tsid_primary_key,
                            version,
                        },
                    ),
                },
            },
        },
    }
}

/// The facts taken when an entry is absent.
pub open spec fn default_meta() -> ArrowSchemaMeta {
    ArrowSchemaMeta {
        num_key_columns: 0,
        timestamp_index: 0,
        enable_tsid_primary_key: false,
        version: 0,
    }
}

/// As [`parsed_meta`], but an absent entry gives the default facts and
/// no error. An unreadable entry remains an error.
pub open spec fn parsed_meta_or_default(meta: Seq<(Seq<char>, Seq<char>)>) -> Result<
    ArrowSchemaMeta,
    ErrorView,
> {
    match parsed_meta(meta) {
        Err(ErrorView::ArrowSchemaMetaKeyNotFound { .. }) => Ok(default_meta()),
        other => other,
    }
}

/// The schema that a columnar schema describes: its fields decoded, its
/// facts read from the dictionary, the synthetic key column found by
/// name. Nothing else is checked.
pub open spec fn schema_of_arrow(arrow: ArrowSchemaView) -> Result<SchemaView, ErrorView> {
    match decoded_columns(arrow.fields, arrow.fields.len()) {
        Err(i) => Err(ErrorView::InvalidArrowField { field_name: arrow.fields[i as int].name }),
        Ok(columns) => match parsed_meta_or_default(arrow.metadata) {
            Err(e) => Err(e),
            Ok(meta) => if meta.enable_tsid_primary_key && first_named(
                columns,
                "tsid"@,
                columns.len(),
            ) is None {
                Err(ErrorView::InvalidTsidSchema)
            } else {
                Ok(
                    SchemaView {
                        columns,
                        num_key_columns: meta.num_key_columns,
                        timestamp_index: meta.timestamp_index,
                        tsid_index: tsid_position(columns, meta.enable_tsid_primary_key),
                        enable_tsid_primary_key: meta.enable_tsid_primary_key,
                        version: meta.version,
                        arrow,
                    },
                )
            },
        },
    }
}

/// The fields that decode to some columns are the fields of these
/// columns.
pub proof fn lemma_decoded_fields(fields: Seq<ArrowFieldView>, n: nat)
    requires
        n <= fields.len(),
    ensures
        decoded_columns(fields, n) matches Ok(columns) ==> fields_of(columns) == fields.take(
            n as int,
        ),
    decreases n,
{
    if n > 0 {
        lemma_decoded_fields(fields, (n - 1) as nat);
        lemma_decoded_len(fields, (n - 1) as nat);
        match decoded_columns(fields, n) {
            Ok(columns) => {
                let front = decoded_columns(fields, (n - 1) as nat)->Ok_0;
                assert(fields_of(front) == fields.take(n - 1));
                assert forall|i: int| 0 <= i < n implies fields_of(columns)[i] == fields[i] by {
                    if i < n - 1 {
                        assert(fields_of(front)[i] == fields.take(n - 1)[i]);
                    } else {
                        crate::arrow::lemma_column_round_trip(fields[i]);
                    }
                }
                assert(fields_of(columns) =~= fields.take(n as int));
            },
            Err(_) => {},
        }
    } else {
        assert(fields_of(Seq::<ColumnView>::empty()) =~= fields.take(0));
    }
}

impl Builder {
    /// The raw value that the dictionary of `arrow_schema` stores under
    /// `key`.
    pub fn parse_arrow_schema_meta_value(arrow_schema: &ArrowSchema, key: ArrowSchemaMetaKey) -> (r:
        Result<&String, Error>)
        ensures
            match meta_lookup(arrow_schema@.metadata, key.text()) {
                Some(raw) => r matches Ok(v) && v@ == raw,
                None => r matches Err(e) && e@ == (ErrorView::ArrowSchemaMetaKeyNotFound { key }),
            },
    {
        match arrow_schema.meta_value(key.as_str()) {
            Some(raw) => Ok(raw),
            None => Err(Error::ArrowSchemaMetaKeyNotFound { key }),
        }
    }

    /// The count that the dictionary stores under `key`.
    pub fn parse_meta_count(arrow_schema: &ArrowSchema, key: ArrowSchemaMetaKey) -> (r: Result<
        usize,
        Error,
    >)
        ensures
            match count_entry(arrow_schema@.metadata, key) {
                Ok(v) => r matches Ok(x) && x == v,
                Err(e) => r matches Err(err) && err@ == e,
            },
    {
        let raw = match Self::parse_arrow_schema_meta_value(arrow_schema, key) {
            Ok(raw) => raw,
            Err(e) => {
                return Err(e);
            },
        };
        match read_usize(raw.as_str()) {
            Some(v) => Ok(v),
            None => Err(Error::InvalidArrowSchemaMetaValue { key, raw_value: raw.clone() }),
        }
    }

    /// The version that the dictionary stores under `key`.
    pub fn parse_meta_version(arrow_schema: &ArrowSchema, key: ArrowSchemaMetaKey) -> (r: Result<
        Version,
        Error,
    >)
        ensures
            match version_entry(arrow_schema@.metadata, key) {
                Ok(v) => r matches Ok(x) && x == v,
                Err(e) => r matches Err(err) && err@ == e,
            },
    {
        let raw = match Self::parse_arrow_schema_meta_value(arrow_schema, key) {
            Ok(raw) => raw,
            Err(e) => {
                return Err(e);
            },
        };
        match read_u32(raw.as_str()) {
            Some(v) => Ok(v),
            None => Err(Error::InvalidArrowSchemaMetaValue { key, raw_value: raw.clone() }),
        }
    }

    /// The flag that the dictionary stores under `key`.
    pub fn parse_meta_flag(arrow_schema: &ArrowSchema, key: ArrowSchemaMetaKey) -> (r: Result<
        bool,
        Error,
    >)
        ensures
            match flag_entry(arrow_schema@.metadata, key) {
                Ok(v) => r matches Ok(x) && x == v,
                Err(e) => r matches Err(err) && err@ == e,
            },
    {
        let raw = match Self::parse_arrow_schema_meta_value(arrow_schema, key) {
            Ok(raw) => raw,
            Err(e) => {
                return Err(e);
            },
        };
        match parse_bool(raw.as_str()) {
            Some(v) => Ok(v),
            None => Err(Error::InvalidArrowSchemaMetaValue { key, raw_value: raw.clone() }),
        }
    }

    /// The facts that the dictionary of `arrow_schema` keeps.
    pub fn parse_arrow_schema_meta(arrow_schema: &ArrowSchema) -> (r: Result<
        ArrowSchemaMeta,
        Error,
    >)
        ensures
            match parsed_meta(arrow_schema@.metadata) {
                Ok(v) => r matches Ok(x) && x == v,
                Err(e) => r matches Err(err) && err@ == e,
            },
    {
        let num_key_columns = match Self::parse_meta_count(
            arrow_schema,
            ArrowSchemaMetaKey::NumKeyColumns,
        ) {
            Ok(v) => v,
            Err(e) => {
                return Err(e);
            },
        };
        let timestamp_index = match Self::parse_meta_count(
            arrow_schema,
            ArrowSchemaMetaKey::TimestampIndex,
        ) {
            Ok(v) => v,
            Err(e) => {
                return Err(e);
            },
        };
        let enable_tsid_primary_key = match Self::parse_meta_flag(
            arrow_schema,
            ArrowSchemaMetaKey::EnableTsidPrimaryKey,
        ) {
            Ok(v) => v,
            Err(e) => {
                return Err(e);
            },
        };
        let version = match Self::parse_meta_version(arrow_schema, ArrowSchemaMetaKey::Version) {
            Ok(v) => v,
            Err(e) => {
                return Err(e);
            },
        };
        Ok(ArrowSchemaMeta { num_key_columns, timestamp_index, enable_tsid_primary_key, version })
    }

    /// The facts that the dictionary keeps, or the default facts if an
    /// entry is absent.
    pub fn parse_arrow_schema_meta_or_default(arrow_schema: &ArrowSchema) -> (r: Result<
        ArrowSchemaMeta,
        Error,
    >)
        ensures
            match parsed_meta_or_default(arrow_schema@.metadata) {
                Ok(v) => r matches Ok(x) && x == v,
                Err(e) => r matches Err(err) && err@ == e,
            },
    {
        match Self::parse_arrow_schema_meta(arrow_schema) {
            Ok(v) => Ok(v),
            Err(Error::ArrowSchemaMetaKeyNotFound { .. }) => Ok(
                ArrowSchemaMeta {
                    num_key_columns: 0,
                    timestamp_index: 0,
                    enable_tsid_primary_key: false,
                    version: 0,
                },
            ),
            Err(e) => Err(e),
        }
    }

    /// The schema that the columnar form of a record schema describes.
    pub fn build_from_record_schema(record_schema: crate::schema::RecordSchema) -> (r: Result<
        Schema,
        Error,
    >)
        requires
            8 * record_schema@.arrow.fields.len() <= usize::MAX,
        ensures
            match schema_of_arrow(record_schema@.arrow) {
                Ok(v) => r matches Ok(s) && s.wf() && s@ == v,
                Err(e) => r matches Err(err) && err@ == e,
            },
    {
        Self::build_from_arrow_schema(record_schema.to_arrow_schema_ref())
    }

    /// The schema that a columnar schema describes. The invariants that
    /// [`Builder::build`] establishes are not checked again.
    pub fn build_from_arrow_schema(arrow_schema: ArrowSchemaRef) -> (r: Result<Schema, Error>)
        requires
            8 * arrow_schema@.fields.len() <= usize::MAX,
        ensures
            match schema_of_arrow(arrow_schema@) {
                Ok(v) => r matches Ok(s) && s.wf() && s@ == v,
                Err(e) => r matches Err(err) && err@ == e,
            },
    {
        proof {
            lemma_decoded_len(arrow_schema@.fields, arrow_schema@.fields.len());
            lemma_decoded_fields(arrow_schema@.fields, arrow_schema@.fields.len());
            assert(arrow_schema@.fields.take(arrow_schema@.fields.len() as int)
                =~= arrow_schema@.fields);
        }
        let columns = match decode_fields(&arrow_schema.fields) {
            Ok(columns) => columns,
            Err(e) => {
                return Err(e);
            },
        };
        let meta = match Self::parse_arrow_schema_meta_or_default(&arrow_schema) {
            Ok(meta) => meta,
            Err(e) => {
                return Err(e);
            },
        };
        proof {
            assert(views(columns@).len() == columns@.len());
        }
        let tsid_index = match Self::find_tsid_index(
            meta.enable_tsid_primary_key,
            columns.as_slice(),
        ) {
            Ok(index) => index,
            Err(e) => {
                return Err(e);
            },
        };
        let column_schemas = ColumnSchemas::new(columns);
        Ok(
            Schema::assemble(
                arrow_schema,
                meta.num_key_columns,
                meta.timestamp_index,
                tsid_index,
                meta.enable_tsid_primary_key,
                column_schemas,
                meta.version,
            ),
        )
    }
}

} // verus!
