//! Backend-agnostic SQL clause trees and the scalar codecs that carry native
//! values to and from a backend's binary wire representation.
//!
//! * [`backend`]: the backends and the capabilities that each declares.
//! * [`sql_types`]: the tags of the SQL types.
//! * [`byte_order`], [`serialize`], [`deserialize`], [`pg`]: the value
//!   codecs. Integers travel in network byte order at their fixed width.
//! * [`query_builder`], [`expression`]: the fragments of a statement, the
//!   pass that renders them, and the limit/offset clause in its typed and in
//!   its boxed form.
//! * [`query_source`]: tables, columns, and the mapping of rows to records.

pub mod backend;
pub mod byte_order;
pub mod deserialize;
pub mod expression;
pub mod pg;
pub mod query_builder;
pub mod query_source;
pub mod serialize;
pub mod sql_types;
