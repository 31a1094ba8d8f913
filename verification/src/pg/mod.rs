//! PostgreSQL: its wire values and the codecs of its types.

pub mod types;

use crate::backend::Pg;
use crate::deserialize::RawValue;
use vstd::prelude::*;

verus! {

/// A wire value of PostgreSQL.
pub type PgValue<'a> = RawValue<'a, Pg>;

} // verus!
