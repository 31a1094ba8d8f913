//! The integers of PostgreSQL on the wire: fixed width, network byte order,
//! no padding and no length prefix. The width is implied by the SQL type, so a
//! payload of any other length is refused.

use crate::backend::Pg;
use crate::byte_order::{
    be_bytes, be_value, i16_network_bytes, i32_network_bytes, i64_network_bytes,
    lemma_be_bytes_len, lemma_be_bytes_of_value, lemma_be_value_bound, lemma_be_value_of_bytes,
    lemma_radix_values, lemma_signed_unsigned, read_i16_network, read_i32_network,
    read_i64_network, read_u32_network, signed_of, u32_network_bytes, unsigned_of,
};
use crate::deserialize::{expect_width, fixed_width, DeserializeError, FromSql};
use crate::pg::PgValue;
use crate::serialize::{IsNull, Output, ToSql};
use crate::sql_types::{BigInt, Integer, Oid, SmallInt};
use vstd::prelude::*;

verus! {

/// A `SMALLINT` is decoded from exactly two bytes, as a signed number.
impl FromSql<SmallInt, Pg> for i16 {
    open spec fn decoded(payload: Option<Seq<u8>>) -> Result<i16, DeserializeError> {
        match fixed_width(payload, 2) {
            Ok(bytes) => Ok(signed_of(be_value(bytes), 2) as i16),
            Err(reason) => Err(reason),
        }
    }

    fn from_sql(value: Option<PgValue<'_>>) -> (result: Result<i16, DeserializeError>) {
        match expect_width(value, 2) {
            Ok(bytes) => {
                assert(bytes@.subrange(0, 2) =~= bytes@);
                Ok(read_i16_network(bytes))
            },
            Err(reason) => Err(reason),
        }
    }
}

/// A `SMALLINT` is encoded as its two bytes; it is never null.
impl ToSql<SmallInt, Pg> for i16 {
    open spec fn wire(&self) -> Option<Seq<u8>> {
        Some(be_bytes(unsigned_of(*self as int, 2), 2))
    }

    fn to_sql(&self, out: &mut Output<Pg>) -> (is_null: IsNull) {
        let buf = i16_network_bytes(*self);
        out.write_all(buf.as_slice());
        IsNull::No
    }
}

/// An `INTEGER` is decoded from exactly four bytes, as a signed number.
impl FromSql<Integer, Pg> for i32 {
    open spec fn decoded(payload: Option<Seq<u8>>) -> Result<i32, DeserializeError> {
        match fixed_width(payload, 4) {
            Ok(bytes) => Ok(signed_of(be_value(bytes), 4) as i32),
            Err(reason) => Err(reason),
        }
    }

    fn from_sql(value: Option<PgValue<'_>>) -> (result: Result<i32, DeserializeError>) {
        match expect_width(value, 4) {
            Ok(bytes) => {
                assert(bytes@.subrange(0, 4) =~= bytes@);
                Ok(read_i32_network(bytes))
            },
            Err(reason) => Err(reason),
        }
    }
}

/// An `INTEGER` is encoded as its four bytes; it is never null.
impl ToSql<Integer, Pg> for i32 {
    open spec fn wire(&self) -> Option<Seq<u8>> {
        Some(be_bytes(unsigned_of(*self as int, 4), 4))
    }

    fn to_sql(&self, out: &mut Output<Pg>) -> (is_null: IsNull) {
        let buf = i32_network_bytes(*self);
        out.write_all(buf.as_slice());
        IsNull::No
    }
}

/// A `BIGINT` is decoded from exactly eight bytes, as a signed number.
impl FromSql<BigInt, Pg> for i64 {
    open spec fn decoded(payload: Option<Seq<u8>>) -> Result<i64, DeserializeError> {
        match fixed_width(payload, 8) {
            Ok(bytes) => Ok(signed_of(be_value(bytes), 8) as i64),
            Err(reason) => Err(reason),
        }
    }

    fn from_sql(value: Option<PgValue<'_>>) -> (result: Result<i64, DeserializeError>) {
        match expect_width(value, 8) {
            Ok(bytes) => {
                assert(bytes@.subrange(0, 8) =~= bytes@);
                Ok(read_i64_network(bytes))
            },
            Err(reason) => Err(reason),
        }
    }
}

/// A `BIGINT` is encoded as its eight bytes; it is never null.
impl ToSql<BigInt, Pg> for i64 {
    open spec fn wire(&self) -> Option<Seq<u8>> {
        Some(be_bytes(unsigned_of(*self as int, 8), 8))
    }

    fn to_sql(&self, out: &mut Output<Pg>) -> (is_null: IsNull) {
        let buf = i64_network_bytes(*self);
        out.write_all(buf.as_slice());
        IsNull::No
    }
}

/// An `OID` is decoded from exactly four bytes, as an unsigned number.
impl FromSql<Oid, Pg> for u32 {
    open spec fn decoded(payload: Option<Seq<u8>>) -> Result<u32, DeserializeError> {
        match fixed_width(payload, 4) {
            Ok(bytes) => Ok(be_value(bytes) as u32),
            Err(reason) => Err(reason),
        }
    }

    fn from_sql(value: Option<PgValue<'_>>) -> (result: Result<u32, DeserializeError>) {
        match expect_width(value, 4) {
            Ok(bytes) => {
                assert(bytes@.subrange(0, 4) =~= bytes@);
                Ok(read_u32_network(bytes))
            },
            Err(reason) => Err(reason),
        }
    }
}

/// An `OID` is encoded as its four bytes; it is never null.
impl ToSql<Oid, Pg> for u32 {
    open spec fn wire(&self) -> Option<Seq<u8>> {
        Some(be_bytes(*self as nat, 4))
    }

    fn to_sql(&self, out: &mut Output<Pg>) -> (is_null: IsNull) {
        let buf = u32_network_bytes(*self);
        out.write_all(buf.as_slice());
        IsNull::No
    }
}

/// Decoding what was encoded gives the value back, for every value of each
/// of the four types.
pub proof fn lemma_round_trip(small: i16, integer: i32, big: i64, oid: u32)
    ensures
        <i16 as FromSql<SmallInt, Pg>>::decoded(<i16 as ToSql<SmallInt, Pg>>::wire(&small)) == Ok::<
            i16,
            DeserializeError,
        >(small),
        <i32 as FromSql<Integer, Pg>>::decoded(<i32 as ToSql<Integer, Pg>>::wire(&integer)) == Ok::<
            i32,
            DeserializeError,
        >(integer),
        <i64 as FromSql<BigInt, Pg>>::decoded(<i64 as ToSql<BigInt, Pg>>::wire(&big)) == Ok::<
            i64,
            DeserializeError,
        >(big),
        <u32 as FromSql<Oid, Pg>>::decoded(<u32 as ToSql<Oid, Pg>>::wire(&oid)) == Ok::<
            u32,
            DeserializeError,
        >(oid),
{
    lemma_radix_values();
    lemma_signed_unsigned(small as int, 2);
    lemma_be_bytes_len(unsigned_of(small as int, 2), 2);
    lemma_be_value_of_bytes(unsigned_of(small as int, 2), 2);
    lemma_signed_unsigned(integer as int, 4);
    lemma_be_bytes_len(unsigned_of(integer as int, 4), 4);
    lemma_be_value_of_bytes(unsigned_of(integer as int, 4), 4);
    lemma_signed_unsigned(big as int, 8);
    lemma_be_bytes_len(unsigned_of(big as int, 8), 8);
    lemma_be_value_of_bytes(unsigned_of(big as int, 8), 8);
    lemma_be_bytes_len(oid as nat, 4);
    lemma_be_value_of_bytes(oid as nat, 4);
}

/// A null is refused by the decoder of each of the four types, with the
/// error that names the null.
pub proof fn lemma_null_is_refused()
    ensures
        <i16 as FromSql<SmallInt, Pg>>::decoded(None) == Err::<i16, DeserializeError>(
            DeserializeError::UnexpectedNull,
        ),
        <i32 as FromSql<Integer, Pg>>::decoded(None) == Err::<i32, DeserializeError>(
            DeserializeError::UnexpectedNull,
        ),
        <i64 as FromSql<BigInt, Pg>>::decoded(None) == Err::<i64, DeserializeError>(
            DeserializeError::UnexpectedNull,
        ),
        <u32 as FromSql<Oid, Pg>>::decoded(None) == Err::<u32, DeserializeError>(
            DeserializeError::UnexpectedNull,
        ),
{
}

/// A payload that is shorter or longer than the width of the type fails the
/// length check of its decoder: two bytes for the 16-bit integer, four for
/// the 32-bit integer and the object identifier, eight for the 64-bit integer.
pub proof fn lemma_wrong_length_is_refused(payload: Seq<u8>)
    ensures
        payload.len() < 2 ==> <i16 as FromSql<SmallInt, Pg>>::decoded(Some(payload)) == Err::<
            i16,
            DeserializeError,
        >(DeserializeError::TooFewBytes),
        payload.len() > 2 ==> <i16 as FromSql<SmallInt, Pg>>::decoded(Some(payload)) == Err::<
            i16,
            DeserializeError,
        >(DeserializeError::TooManyBytes),
        payload.len() < 4 ==> <i32 as FromSql<Integer, Pg>>::decoded(Some(payload)) == Err::<
            i32,
            DeserializeError,
        >(DeserializeError::TooFewBytes),
        payload.len() > 4 ==> <i32 as FromSql<Integer, Pg>>::decoded(Some(payload)) == Err::<
            i32,
            DeserializeError,
        >(DeserializeError::TooManyBytes),
        payload.len() < 8 ==> <i64 as FromSql<BigInt, Pg>>::decoded(Some(payload)) == Err::<
            i64,
            DeserializeError,
        >(DeserializeError::TooFewBytes),
        payload.len() > 8 ==> <i64 as FromSql<BigInt, Pg>>::decoded(Some(payload)) == Err::<
            i64,
            DeserializeError,
        >(DeserializeError::TooManyBytes),
        payload.len() < 4 ==> <u32 as FromSql<Oid, Pg>>::decoded(Some(payload)) == Err::<
            u32,
            DeserializeError,
        >(DeserializeError::TooFewBytes),
        payload.len() > 4 ==> <u32 as FromSql<Oid, Pg>>::decoded(Some(payload)) == Err::<
            u32,
            DeserializeError,
        >(DeserializeError::TooManyBytes),
{
}

/// A payload of the right width always decodes, and the value it decodes to
/// is encoded as that very payload: no two payloads stand for one value.
pub proof fn lemma_payload_round_trip(payload: Seq<u8>)
    ensures
        payload.len() == 2 ==> {
            let decoded = <i16 as FromSql<SmallInt, Pg>>::decoded(Some(payload));
            decoded is Ok && <i16 as ToSql<SmallInt, Pg>>::wire(&decoded->Ok_0) == Some(payload)
        },
        payload.len() == 4 ==> {
            let decoded = <i32 as FromSql<Integer, Pg>>::decoded(Some(payload));
            decoded is Ok && <i32 as ToSql<Integer, Pg>>::wire(&decoded->Ok_0) == Some(payload)
        },
        payload.len() == 8 ==> {
            let decoded = <i64 as FromSql<BigInt, Pg>>::decoded(Some(payload));
            decoded is Ok && <i64 as ToSql<BigInt, Pg>>::wire(&decoded->Ok_0) == Some(payload)
        },
        payload.len() == 4 ==> {
            let decoded = <u32 as FromSql<Oid, Pg>>::decoded(Some(payload));
            decoded is Ok && <u32 as ToSql<Oid, Pg>>::wire(&decoded->Ok_0) == Some(payload)
        },
{
    lemma_radix_values();
    lemma_be_value_bound(payload);
    lemma_be_bytes_of_value(payload);
}

} // verus!
