//! Encoding: from a native value to the bytes that a backend expects.
//!
//! An encoder either writes the value's bytes to the sink and reports that a
//! value is there, or writes nothing and reports a null; never both. The sink
//! is held in memory and only ever grows.

use crate::backend::Backend;
use crate::sql_types::Nullable;
use core::marker::PhantomData;
use vstd::prelude::*;

verus! {

/// Whether an encoder wrote a value or left a null.
#[derive(Debug, Clone, Copy, PartialEq, Eq, Structural)]
pub enum IsNull {
    /// Nothing was written: the value is null.
    Yes,
    /// The bytes of the value were written.
    No,
}

/// The byte sink that encoders for the backend `DB` write to.
pub struct Output<DB> {
    bytes: Vec<u8>,
    backend: PhantomData<DB>,
}

impl<DB> View for Output<DB> {
    type V = Seq<u8>;

    closed spec fn view(&self) -> Seq<u8> {
        self.bytes@
    }
}

impl<DB> Output<DB> {
    /// An empty sink.
    pub fn new() -> (out: Self)
        ensures
            out@ == Seq::<u8>::empty(),
    {
        Output { bytes: Vec::new(), backend: PhantomData }
    }

    /// Appends `buf` to what was written so far.
    pub fn write_all(&mut self, buf: &[u8])
        ensures
            final(self)@ == old(self)@ + buf@,
    {
        let mut i: usize = 0;
        while i < buf.len()
            invariant
                i <= buf@.len(),
                self.bytes@ == old(self).bytes@ + buf@.subrange(0, i as int),
            decreases buf@.len() - i,
        {
            self.bytes.push(buf[i]);
            i += 1;
            assert(self.bytes@ =~= old(self).bytes@ + buf@.subrange(0, i as int));
        }
        assert(buf@.subrange(0, i as int) =~= buf@);
    }

    /// What was written so far.
    pub fn bytes(&self) -> (bytes: &Vec<u8>)
        ensures
            bytes@ == self@,
    {
        &self.bytes
    }

    /// Gives up the sink for what was written to it.
    pub fn into_bytes(self) -> (bytes: Vec<u8>)
        ensures
            bytes@ == self@,
    {
        self.bytes
    }
}

/// What `is_null` an encoder reports for a value with the wire form `wire`.
pub open spec fn presence(wire: Option<Seq<u8>>) -> IsNull {
    match wire {
        Some(_) => IsNull::No,
        None => IsNull::Yes,
    }
}

/// The bytes that an encoder writes for a value with the wire form `wire`.
pub open spec fn written(wire: Option<Seq<u8>>) -> Seq<u8> {
    match wire {
        Some(bytes) => bytes,
        None => Seq::empty(),
    }
}

/// A native type that is encoded in the wire form that the backend `DB` gives
/// to the SQL type `ST`.
pub trait ToSql<ST, DB: Backend> {
    /// The wire form of the value: its payload, or nothing for a null.
    spec fn wire(&self) -> Option<Seq<u8>>;

    /// Encodes the value at the end of `out`.
    fn to_sql(&self, out: &mut Output<DB>) -> (is_null: IsNull)
        ensures
            is_null == presence(self.wire()),
            final(out)@ == old(out)@ + written(self.wire()),
    ;
}

/// The nullable encoder: `None` is a null and writes nothing, `Some` is
/// encoded as the value itself.
impl<T, ST, DB> ToSql<Nullable<ST>, DB> for Option<T> where T: ToSql<ST, DB>, DB: Backend {
    open spec fn wire(&self) -> Option<Seq<u8>> {
        match self {
            Some(inner) => inner.wire(),
            None => None,
        }
    }

    fn to_sql(&self, out: &mut Output<DB>) -> (is_null: IsNull) {
        match self {
            Some(inner) => inner.to_sql(out),
            None => IsNull::Yes,
        }
    }
}

} // verus!
