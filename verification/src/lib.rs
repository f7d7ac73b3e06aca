//! Verified core of a one-directional bulk migration of relational rows
//! (goods and comments) into nested documents for a document store.
//!
//! The library owns the logic: typing and mapping of relational rows into
//! records, assembly of nested documents, pagination, and the cursor-driven
//! migration loop. The two database engines are external collaborators; the
//! binary around this library performs the actual reads and writes.

pub mod row;
pub mod records;
pub mod doc_model;
pub mod bson_sink;
pub mod assemble;
pub mod extract;
pub mod migrate;
