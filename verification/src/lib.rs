//! Table schema of a column-oriented store: column registry, validating
//! builder, row ordering, projections and write compatibility.

pub mod datum;
pub mod column_schema;
pub mod text;
mod shared;
pub mod arrow;
pub mod error;
pub mod registry;
pub mod schema;
pub mod builder;
pub mod wire;
pub mod row;
pub mod row_laws;
pub mod builder_laws;
pub mod codec_laws;
pub mod compat_laws;
