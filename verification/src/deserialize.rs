//! Decoding: from a backend's wire value to a native value.
//!
//! A wire value is the payload of one column of one row: raw bytes, or
//! nothing at all where the column is null. A fixed-width scalar is decoded
//! only from a payload of exactly its width; a null, a short or a long payload
//! is an error, never a default.

use crate::backend::Backend;
use crate::sql_types::Nullable;
use core::marker::PhantomData;
use vstd::prelude::*;

verus! {

/// Why a wire value could not be decoded.
#[derive(Debug, Clone, Copy, PartialEq, Eq, Structural)]
pub enum DeserializeError {
    /// A null reached a decoder of a type that has no null.
    UnexpectedNull,
    /// The payload is shorter than the fixed width of the type. A value of a
    /// narrower type was probably taken for this one.
    TooFewBytes,
    /// The payload is longer than the fixed width of the type. A value of a
    /// wider type was probably taken for this one.
    TooManyBytes,
}

/// The payload that the backend `DB` handed over for one column that is not
/// null. It is borrowed for the time of one decoding.
pub struct RawValue<'a, DB> {
    bytes: &'a [u8],
    backend: PhantomData<DB>,
}

impl<'a, DB> View for RawValue<'a, DB> {
    type V = Seq<u8>;

    closed spec fn view(&self) -> Seq<u8> {
        self.bytes@
    }
}

impl<'a, DB> RawValue<'a, DB> {
    /// The wire value with the payload `bytes`.
    pub fn new(bytes: &'a [u8]) -> (value: Self)
        ensures
            value@ == bytes@,
    {
        RawValue { bytes, backend: PhantomData }
    }

    /// The payload.
    pub fn bytes(&self) -> (bytes: &'a [u8])
        ensures
            bytes@ == self@,
    {
        self.bytes
    }
}

/// What a column holds, seen as a value: nothing for null, else the payload.
pub open spec fn payload_of<DB>(value: Option<RawValue<'_, DB>>) -> Option<Seq<u8>> {
    match value {
        Some(raw) => Some(raw@),
        None => None,
    }
}

/// The payload of a column of a type that is `width` bytes wide and has no
/// null, or the reason why the column cannot hold such a value.
pub open spec fn fixed_width(payload: Option<Seq<u8>>, width: nat) -> Result<
    Seq<u8>,
    DeserializeError,
> {
    match payload {
        None => Err(DeserializeError::UnexpectedNull),
        Some(bytes) => if bytes.len() > width {
            Err(DeserializeError::TooManyBytes)
        } else if bytes.len() < width {
            Err(DeserializeError::TooFewBytes)
        } else {
            Ok(bytes)
        },
    }
}

/// Checks that `value` is present and exactly `width` bytes long, and hands
/// out its bytes. Every decoder of a fixed-width scalar starts here.
pub fn expect_width<'a, DB>(value: Option<RawValue<'a, DB>>, width: usize) -> (result: Result<
    &'a [u8],
    DeserializeError,
>)
    ensures
        match fixed_width(payload_of(value), width as nat) {
            Ok(bytes) => result is Ok && result->Ok_0@ == bytes,
            Err(reason) => result == Err::<&[u8], DeserializeError>(reason),
        },
{
    match value {
        None => Err(DeserializeError::UnexpectedNull),
        Some(raw) => {
            let bytes = raw.bytes();
            if bytes.len() > width {
                Err(DeserializeError::TooManyBytes)
            } else if bytes.len() < width {
                Err(DeserializeError::TooFewBytes)
            } else {
                Ok(bytes)
            }
        },
    }
}

/// A native type that is decoded from the wire form that the backend `DB`
/// gives to the SQL type `ST`.
pub trait FromSql<ST, DB: Backend>: Sized {
    /// The outcome of decoding a column that holds `payload`.
    spec fn decoded(payload: Option<Seq<u8>>) -> Result<Self, DeserializeError>;

    /// Decodes one column.
    fn from_sql(value: Option<RawValue<'_, DB>>) -> (result: Result<Self, DeserializeError>)
        ensures
            result == Self::decoded(payload_of(value)),
    ;
}

/// The nullable decoder: a null is the value `None`, anything else is decoded
/// as the type itself.
impl<T, ST, DB> FromSql<Nullable<ST>, DB> for Option<T> where T: FromSql<ST, DB>, DB: Backend {
    open spec fn decoded(payload: Option<Seq<u8>>) -> Result<Option<T>, DeserializeError> {
        match payload {
            None => Ok(None),
            Some(_) => match T::decoded(payload) {
                Ok(inner) => Ok(Some(inner)),
                Err(reason) => Err(reason),
            },
        }
    }

    fn from_sql(value: Option<RawValue<'_, DB>>) -> (result: Result<Option<T>, DeserializeError>) {
        match value {
            None => Ok(None),
            Some(raw) => match T::from_sql(Some(raw)) {
                Ok(inner) => Ok(Some(inner)),
                Err(reason) => Err(reason),
            },
        }
    }
}

/// The columns of a row, seen as values.
pub open spec fn row_payloads<DB>(row: Seq<Option<RawValue<'_, DB>>>) -> Seq<Option<Seq<u8>>> {
    row.map_values(|value: Option<RawValue<'_, DB>>| payload_of(value))
}

/// A tuple of native values that is decoded from a row whose columns have the
/// SQL types `ST`, in order.
pub trait FromSqlRow<ST, DB: Backend>: Sized {
    /// The number of columns that the tuple takes.
    spec fn width() -> nat;

    /// The outcome of decoding a row that holds `row`.
    spec fn row_decoded(row: Seq<Option<Seq<u8>>>) -> Result<Self, DeserializeError>;

    /// The number of columns that the tuple takes.
    fn fields_needed() -> (count: usize)
        ensures
            count == Self::width(),
    ;

    /// Decodes a row of exactly as many columns as the tuple takes. The row
    /// decodes as a whole or not at all: the error is that of the first column
    /// that fails.
    fn build_from_row(row: &[Option<RawValue<'_, DB>>]) -> (result: Result<Self, DeserializeError>)
        requires
            row@.len() == Self::width(),
        ensures
            result == Self::row_decoded(row_payloads(row@)),
    ;
}

/// The column number `index` of `row`.
pub fn column<'a, DB>(row: &[Option<RawValue<'a, DB>>], index: usize) -> (value: Option<
    RawValue<'a, DB>,
>)
    requires
        index < row@.len(),
    ensures
        payload_of(value) == row_payloads(row@)[index as int],
{
    match &row[index] {
        Some(raw) => Some(RawValue::new(raw.bytes())),
        None => None,
    }
}

impl<A, SA, DB> FromSqlRow<(SA,), DB> for (A,) where A: FromSql<SA, DB>, DB: Backend {
    open spec fn width() -> nat {
        1
    }

    open spec fn row_decoded(row: Seq<Option<Seq<u8>>>) -> Result<Self, DeserializeError> {
        match A::decoded(row[0]) {
            Ok(a) => Ok((a,)),
            Err(reason) => Err(reason),
        }
    }

    fn fields_needed() -> (count: usize) {
        1
    }

    fn build_from_row(row: &[Option<RawValue<'_, DB>>]) -> (result: Result<Self, DeserializeError>) {
        match A::from_sql(column(row, 0)) {
            Ok(a) => Ok((a,)),
            Err(reason) => Err(reason),
        }
    }
}

impl<A, B, SA, SB, DB> FromSqlRow<(SA, SB), DB> for (A, B) where
    A: FromSql<SA, DB>,
    B: FromSql<SB, DB>,
    DB: Backend,
 {
    open spec fn width() -> nat {
        2
    }

    open spec fn row_decoded(row: Seq<Option<Seq<u8>>>) -> Result<Self, DeserializeError> {
        match A::decoded(row[0]) {
            Ok(a) => match B::decoded(row[1]) {
                Ok(b) => Ok((a, b)),
                Err(reason) => Err(reason),
            },
            Err(reason) => Err(reason),
        }
    }

    fn fields_needed() -> (count: usize) {
        2
    }

    fn build_from_row(row: &[Option<RawValue<'_, DB>>]) -> (result: Result<Self, DeserializeError>) {
        match A::from_sql(column(row, 0)) {
            Ok(a) => match B::from_sql(column(row, 1)) {
                Ok(b) => Ok((a, b)),
                Err(reason) => Err(reason),
            },
            Err(reason) => Err(reason),
        }
    }
}

impl<A, B, C, SA, SB, SC, DB> FromSqlRow<(SA, SB, SC), DB> for (A, B, C) where
    A: FromSql<SA, DB>,
    B: FromSql<SB, DB>,
    C: FromSql<SC, DB>,
    DB: Backend,
 {
    open spec fn width() -> nat {
        3
    }

    open spec fn row_decoded(row: Seq<Option<Seq<u8>>>) -> Result<Self, DeserializeError> {
        match A::decoded(row[0]) {
            Ok(a) => match B::decoded(row[1]) {
                Ok(b) => match C::decoded(row[2]) {
                    Ok(c) => Ok((a, b, c)),
                    Err(reason) => Err(reason),
                },
                Err(reason) => Err(reason),
            },
            Err(reason) => Err(reason),
        }
    }

    fn fields_needed() -> (count: usize) {
        3
    }

    fn build_from_row(row: &[Option<RawValue<'_, DB>>]) -> (result: Result<Self, DeserializeError>) {
        match A::from_sql(column(row, 0)) {
            Ok(a) => match B::from_sql(column(row, 1)) {
                Ok(b) => match C::from_sql(column(row, 2)) {
                    Ok(c) => Ok((a, b, c)),
                    Err(reason) => Err(reason),
                },
                Err(reason) => Err(reason),
            },
            Err(reason) => Err(reason),
        }
    }
}

} // verus!
