//! The codecs of the PostgreSQL types.

pub mod integers;
