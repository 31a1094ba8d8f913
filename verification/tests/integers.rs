use sqlcore::backend::Pg;
use sqlcore::deserialize::{DeserializeError, FromSql};
use sqlcore::pg::PgValue;
use sqlcore::serialize::{IsNull, Output, ToSql};
use sqlcore::sql_types::{BigInt, Integer, Nullable, Oid, SmallInt};

#[test]
fn i16_to_sql() {
    let mut bytes = Output::<Pg>::new();
    ToSql::<SmallInt, Pg>::to_sql(&1i16, &mut bytes);
    ToSql::<SmallInt, Pg>::to_sql(&0i16, &mut bytes);
    ToSql::<SmallInt, Pg>::to_sql(&-1i16, &mut bytes);
    assert_eq!(bytes.into_bytes(), vec![0, 1, 0, 0, 255, 255]);
}

#[test]
fn i32_to_sql() {
    let mut bytes = Output::<Pg>::new();
    ToSql::<Integer, Pg>::to_sql(&1i32, &mut bytes);
    ToSql::<Integer, Pg>::to_sql(&0i32, &mut bytes);
    ToSql::<Integer, Pg>::to_sql(&-1i32, &mut bytes);
    assert_eq!(bytes.into_bytes(), vec![0, 0, 0, 1, 0, 0, 0, 0, 255, 255, 255, 255]);
}

#[test]
fn i64_to_sql() {
    let mut bytes = Output::<Pg>::new();
    ToSql::<BigInt, Pg>::to_sql(&1i64, &mut bytes);
    ToSql::<BigInt, Pg>::to_sql(&0i64, &mut bytes);
    ToSql::<BigInt, Pg>::to_sql(&-1i64, &mut bytes);
    assert_eq!(
        bytes.into_bytes(),
        vec![
            0, 0, 0, 0, 0, 0, 0, 1, 0, 0, 0, 0, 0, 0, 0, 0, 255, 255, 255, 255, 255, 255, 255, 255,
        ]
    );
}

#[test]
fn oid_to_sql() {
    let mut bytes = Output::<Pg>::new();
    let is_null = ToSql::<Oid, Pg>::to_sql(&0x0102_0304u32, &mut bytes);
    assert_eq!(is_null, IsNull::No);
    ToSql::<Oid, Pg>::to_sql(&u32::MAX, &mut bytes);
    assert_eq!(bytes.bytes(), &vec![1, 2, 3, 4, 255, 255, 255, 255]);
}

#[test]
fn encoders_report_a_written_value() {
    let mut bytes = Output::<Pg>::new();
    assert_eq!(ToSql::<SmallInt, Pg>::to_sql(&7i16, &mut bytes), IsNull::No);
    assert_eq!(ToSql::<Integer, Pg>::to_sql(&7i32, &mut bytes), IsNull::No);
    assert_eq!(ToSql::<BigInt, Pg>::to_sql(&7i64, &mut bytes), IsNull::No);
    assert_eq!(bytes.bytes().len(), 14);
}

fn round_trip_i16(value: i16) -> i16 {
    let mut out = Output::<Pg>::new();
    ToSql::<SmallInt, Pg>::to_sql(&value, &mut out);
    let bytes = out.into_bytes();
    <i16 as FromSql<SmallInt, Pg>>::from_sql(Some(PgValue::new(&bytes))).unwrap()
}

fn round_trip_i32(value: i32) -> i32 {
    let mut out = Output::<Pg>::new();
    ToSql::<Integer, Pg>::to_sql(&value, &mut out);
    let bytes = out.into_bytes();
    <i32 as FromSql<Integer, Pg>>::from_sql(Some(PgValue::new(&bytes))).unwrap()
}

fn round_trip_i64(value: i64) -> i64 {
    let mut out = Output::<Pg>::new();
    ToSql::<BigInt, Pg>::to_sql(&value, &mut out);
    let bytes = out.into_bytes();
    <i64 as FromSql<BigInt, Pg>>::from_sql(Some(PgValue::new(&bytes))).unwrap()
}

fn round_trip_oid(value: u32) -> u32 {
    let mut out = Output::<Pg>::new();
    ToSql::<Oid, Pg>::to_sql(&value, &mut out);
    let bytes = out.into_bytes();
    <u32 as FromSql<Oid, Pg>>::from_sql(Some(PgValue::new(&bytes))).unwrap()
}

#[test]
fn i16_round_trip() {
    for value in [0i16, 1, -1, 193, -132, i16::MAX, i16::MIN] {
        assert_eq!(round_trip_i16(value), value);
    }
}

#[test]
fn i32_round_trip() {
    for value in [0i32, 1, -1, 70_000, -70_000, i32::MAX, i32::MIN] {
        assert_eq!(round_trip_i32(value), value);
    }
}

#[test]
fn i64_round_trip() {
    for value in [0i64, 1, -1, 5_000_000_000, -5_000_000_000, i64::MAX, i64::MIN] {
        assert_eq!(round_trip_i64(value), value);
    }
}

#[test]
fn oid_round_trip() {
    for value in [0u32, 1, 0x8000_0000, u32::MAX] {
        assert_eq!(round_trip_oid(value), value);
    }
}

#[test]
fn i16_from_sql_reads_network_order() {
    let bytes = [0x00u8, 0xc1];
    assert_eq!(<i16 as FromSql<SmallInt, Pg>>::from_sql(Some(PgValue::new(&bytes))), Ok(193));
    let bytes = [0xffu8, 0x7c];
    assert_eq!(<i16 as FromSql<SmallInt, Pg>>::from_sql(Some(PgValue::new(&bytes))), Ok(-132));
}

#[test]
fn i32_from_sql_reads_network_order() {
    let bytes = [0x00u8, 0x01, 0x00, 0x02];
    assert_eq!(<i32 as FromSql<Integer, Pg>>::from_sql(Some(PgValue::new(&bytes))), Ok(65_538));
    let bytes = [0xffu8, 0xff, 0xff, 0xfe];
    assert_eq!(<i32 as FromSql<Integer, Pg>>::from_sql(Some(PgValue::new(&bytes))), Ok(-2));
}

#[test]
fn i64_from_sql_reads_network_order() {
    let bytes = [0u8, 0, 0, 1, 0, 0, 0, 0];
    assert_eq!(
        <i64 as FromSql<BigInt, Pg>>::from_sql(Some(PgValue::new(&bytes))),
        Ok(4_294_967_296)
    );
    let bytes = [0x80u8, 0, 0, 0, 0, 0, 0, 0];
    assert_eq!(<i64 as FromSql<BigInt, Pg>>::from_sql(Some(PgValue::new(&bytes))), Ok(i64::MIN));
}

#[test]
fn oid_from_sql_reads_network_order() {
    let bytes = [0x80u8, 0, 0, 1];
    assert_eq!(<u32 as FromSql<Oid, Pg>>::from_sql(Some(PgValue::new(&bytes))), Ok(2_147_483_649));
}

#[test]
fn null_is_refused_by_every_scalar() {
    assert_eq!(
        <i16 as FromSql<SmallInt, Pg>>::from_sql(None),
        Err(DeserializeError::UnexpectedNull)
    );
    assert_eq!(
        <i32 as FromSql<Integer, Pg>>::from_sql(None),
        Err(DeserializeError::UnexpectedNull)
    );
    assert_eq!(
        <i64 as FromSql<BigInt, Pg>>::from_sql(None),
        Err(DeserializeError::UnexpectedNull)
    );
    assert_eq!(<u32 as FromSql<Oid, Pg>>::from_sql(None), Err(DeserializeError::UnexpectedNull));
}

#[test]
fn short_payload_is_refused() {
    let one = [7u8];
    let three = [1u8, 2, 3];
    let seven = [1u8, 2, 3, 4, 5, 6, 7];
    let empty: [u8; 0] = [];
    assert_eq!(
        <i16 as FromSql<SmallInt, Pg>>::from_sql(Some(PgValue::new(&one))),
        Err(DeserializeError::TooFewBytes)
    );
    assert_eq!(
        <i16 as FromSql<SmallInt, Pg>>::from_sql(Some(PgValue::new(&empty))),
        Err(DeserializeError::TooFewBytes)
    );
    assert_eq!(
        <i32 as FromSql<Integer, Pg>>::from_sql(Some(PgValue::new(&three))),
        Err(DeserializeError::TooFewBytes)
    );
    assert_eq!(
        <i64 as FromSql<BigInt, Pg>>::from_sql(Some(PgValue::new(&seven))),
        Err(DeserializeError::TooFewBytes)
    );
    assert_eq!(
        <u32 as FromSql<Oid, Pg>>::from_sql(Some(PgValue::new(&three))),
        Err(DeserializeError::TooFewBytes)
    );
}

#[test]
fn long_payload_is_refused() {
    let three = [1u8, 2, 3];
    let five = [1u8, 2, 3, 4, 5];
    let nine = [1u8, 2, 3, 4, 5, 6, 7, 8, 9];
    assert_eq!(
        <i16 as FromSql<SmallInt, Pg>>::from_sql(Some(PgValue::new(&three))),
        Err(DeserializeError::TooManyBytes)
    );
    assert_eq!(
        <i32 as FromSql<Integer, Pg>>::from_sql(Some(PgValue::new(&five))),
        Err(DeserializeError::TooManyBytes)
    );
    assert_eq!(
        <i64 as FromSql<BigInt, Pg>>::from_sql(Some(PgValue::new(&nine))),
        Err(DeserializeError::TooManyBytes)
    );
    assert_eq!(
        <u32 as FromSql<Oid, Pg>>::from_sql(Some(PgValue::new(&five))),
        Err(DeserializeError::TooManyBytes)
    );
}

#[test]
fn nullable_decodes_null_as_none() {
    assert_eq!(<Option<i32> as FromSql<Nullable<Integer>, Pg>>::from_sql(None), Ok(None));
    let bytes = [0u8, 0, 0, 9];
    assert_eq!(
        <Option<i32> as FromSql<Nullable<Integer>, Pg>>::from_sql(Some(PgValue::new(&bytes))),
        Ok(Some(9))
    );
    let short = [0u8, 9];
    assert_eq!(
        <Option<i32> as FromSql<Nullable<Integer>, Pg>>::from_sql(Some(PgValue::new(&short))),
        Err(DeserializeError::TooFewBytes)
    );
}

#[test]
fn nullable_encodes_none_as_null() {
    let mut out = Output::<Pg>::new();
    let absent: Option<i16> = None;
    assert_eq!(ToSql::<Nullable<SmallInt>, Pg>::to_sql(&absent, &mut out), IsNull::Yes);
    assert!(out.bytes().is_empty());
    assert_eq!(ToSql::<Nullable<SmallInt>, Pg>::to_sql(&Some(258i16), &mut out), IsNull::No);
    assert_eq!(out.into_bytes(), vec![1, 2]);
}
