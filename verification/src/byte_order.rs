//! Big-endian (network order) fixed-width integers.
//!
//! The mathematical model lives here: what number a byte string denotes, what
//! byte string denotes a number, and how a signed value maps onto the unsigned
//! range of its width. The conversions themselves are done by the `byteorder`
//! crate; their contracts are stated over this model.

use byteorder::{ByteOrder, NetworkEndian};
use vstd::prelude::*;

verus! {

/// The number of distinct values that `width` bytes can hold: 256 to the
/// power `width`.
pub open spec fn radix(width: nat) -> nat
    decreases width,
{
    if width == 0 {
        1
    } else {
        256 * radix((width - 1) as nat)
    }
}

/// The natural number that `bytes` denotes when read most significant byte
/// first.
pub open spec fn be_value(bytes: Seq<u8>) -> nat
    decreases bytes.len(),
{
    if bytes.len() == 0 {
        0
    } else {
        256 * be_value(bytes.drop_last()) + bytes.last() as nat
    }
}

/// The `width` least significant bytes of `n`, most significant byte first.
pub open spec fn be_bytes(n: nat, width: nat) -> Seq<u8>
    decreases width,
{
    if width == 0 {
        Seq::empty()
    } else {
        be_bytes(n / 256, (width - 1) as nat).push((n % 256) as u8)
    }
}

/// The two's complement image of `v` in the unsigned range of `width` bytes.
pub open spec fn unsigned_of(v: int, width: nat) -> nat {
    if v < 0 {
        (v + radix(width)) as nat
    } else {
        v as nat
    }
}

/// The signed value whose two's complement image in `width` bytes is `u`.
pub open spec fn signed_of(u: nat, width: nat) -> int {
    if 2 * u >= radix(width) {
        u - radix(width)
    } else {
        u as int
    }
}

/// The radix of the widths that the codecs use.
pub proof fn lemma_radix_values()
    ensures
        radix(0) == 1,
        radix(1) == 0x100,
        radix(2) == 0x1_0000,
        radix(4) == 0x1_0000_0000,
        radix(8) == 0x1_0000_0000_0000_0000,
{
    reveal_with_fuel(radix, 9);
}

/// A byte string of length `n` denotes a number below `radix(n)`.
pub proof fn lemma_be_value_bound(bytes: Seq<u8>)
    ensures
        be_value(bytes) < radix(bytes.len()),
    decreases bytes.len(),
{
    if bytes.len() > 0 {
        lemma_be_value_bound(bytes.drop_last());
    }
}

/// `be_bytes` yields exactly `width` bytes.
pub proof fn lemma_be_bytes_len(n: nat, width: nat)
    ensures
        be_bytes(n, width).len() == width,
    decreases width,
{
    if width > 0 {
        lemma_be_bytes_len(n / 256, (width - 1) as nat);
    }
}

/// Reading back the representation of a number that fits gives the number.
pub proof fn lemma_be_value_of_bytes(n: nat, width: nat)
    requires
        n < radix(width),
    ensures
        be_value(be_bytes(n, width)) == n,
    decreases width,
{
    if width > 0 {
        let rest = be_bytes(n / 256, (width - 1) as nat);
        lemma_be_value_of_bytes(n / 256, (width - 1) as nat);
        assert(be_bytes(n, width).drop_last() == rest);
        assert(be_bytes(n, width).last() == (n % 256) as u8);
    }
}

/// Writing out the number that a byte string denotes gives the byte string.
pub proof fn lemma_be_bytes_of_value(bytes: Seq<u8>)
    ensures
        be_bytes(be_value(bytes), bytes.len()) == bytes,
    decreases bytes.len(),
{
    if bytes.len() > 0 {
        let n = be_value(bytes);
        lemma_be_bytes_of_value(bytes.drop_last());
        assert(n / 256 == be_value(bytes.drop_last()));
        assert(n % 256 == bytes.last() as nat);
        assert(be_bytes(n, bytes.len()) == bytes.drop_last().push(bytes.last()));
    }
}

/// Signed and unsigned readings of one width are inverse to each other.
pub proof fn lemma_signed_unsigned(v: int, width: nat)
    requires
        width > 0,
        -(radix(width) as int) <= 2 * v < radix(width),
    ensures
        unsigned_of(v, width) < radix(width),
        signed_of(unsigned_of(v, width), width) == v,
{
}

/// The 16-bit signed integer that the first two bytes of `buf` hold in network
/// order.
///
/// Calls `byteorder::ByteOrder::read_i16` for `NetworkEndian`, which reads
/// `buf[..2]` as an unsigned big-endian number and reinterprets it as two's
/// complement. It panics on a shorter slice, hence the precondition.
#[verifier::external_body]
pub(crate) fn read_i16_network(buf: &[u8]) -> (value: i16)
    requires
        buf@.len() >= 2,
    ensures
        value as int == signed_of(be_value(buf@.subrange(0, 2)), 2),
{
    NetworkEndian::read_i16(buf)
}

/// The two bytes that hold `value` in network order.
///
/// Calls `byteorder::ByteOrder::write_i16` for `NetworkEndian`, which stores
/// the big-endian bytes of the two's complement image of `value`.
#[verifier::external_body]
pub(crate) fn i16_network_bytes(value: i16) -> (buf: [u8; 2])
    ensures
        buf@ == be_bytes(unsigned_of(value as int, 2), 2),
{
    let mut buf = [0u8; 2];
    NetworkEndian::write_i16(&mut buf, value);
    buf
}

/// The 32-bit signed integer that the first four bytes of `buf` hold in network
/// order.
///
/// Calls `byteorder::ByteOrder::read_i32` for `NetworkEndian`, which reads
/// `buf[..4]` as an unsigned big-endian number and reinterprets it as two's
/// complement. It panics on a shorter slice, hence the precondition.
#[verifier::external_body]
pub(crate) fn read_i32_network(buf: &[u8]) -> (value: i32)
    requires
        buf@.len() >= 4,
    ensures
        value as int == signed_of(be_value(buf@.subrange(0, 4)), 4),
{
    NetworkEndian::read_i32(buf)
}

/// The four bytes that hold `value` in network order.
///
/// Calls `byteorder::ByteOrder::write_i32` for `NetworkEndian`, which stores
/// the big-endian bytes of the two's complement image of `value`.
#[verifier::external_body]
pub(crate) fn i32_network_bytes(value: i32) -> (buf: [u8; 4])
    ensures
        buf@ == be_bytes(unsigned_of(value as int, 4), 4),
{
    let mut buf = [0u8; 4];
    NetworkEndian::write_i32(&mut buf, value);
    buf
}

/// The 64-bit signed integer that the first eight bytes of `buf` hold in network
/// order.
///
/// Calls `byteorder::ByteOrder::read_i64` for `NetworkEndian`, which reads
/// `buf[..8]` as an unsigned big-endian number and reinterprets it as two's
/// complement. It panics on a shorter slice, hence the precondition.
#[verifier::external_body]
pub(crate) fn read_i64_network(buf: &[u8]) -> (value: i64)
    requires
        buf@.len() >= 8,
    ensures
        value as int == signed_of(be_value(buf@.subrange(0, 8)), 8),
{
    NetworkEndian::read_i64(buf)
}

/// The eight bytes that hold `value` in network order.
///
/// Calls `byteorder::ByteOrder::write_i64` for `NetworkEndian`, which stores
/// the big-endian bytes of the two's complement image of `value`.
#[verifier::external_body]
pub(crate) fn i64_network_bytes(value: i64) -> (buf: [u8; 8])
    ensures
        buf@ == be_bytes(unsigned_of(value as int, 8), 8),
{
    let mut buf = [0u8; 8];
    NetworkEndian::write_i64(&mut buf, value);
    buf
}

/// The 32-bit unsigned integer that the first four bytes of `buf` hold in network
/// order.
///
/// Calls `byteorder::ByteOrder::read_u32` for `NetworkEndian`, which reads
/// `buf[..4]` as a big-endian number. It panics on a shorter slice, hence
/// the precondition.
#[verifier::external_body]
pub(crate) fn read_u32_network(buf: &[u8]) -> (value: u32)
    requires
        buf@.len() >= 4,
    ensures
        value as nat == be_value(buf@.subrange(0, 4)),
{
    NetworkEndian::read_u32(buf)
}

/// The four bytes that hold `value` in network order.
///
/// Calls `byteorder::ByteOrder::write_u32` for `NetworkEndian`, which stores
/// the big-endian bytes of `value`.
#[verifier::external_body]
pub(crate) fn u32_network_bytes(value: u32) -> (buf: [u8; 4])
    ensures
        buf@ == be_bytes(value as nat, 4),
{
    let mut buf = [0u8; 4];
    NetworkEndian::write_u32(&mut buf, value);
    buf
}

} // verus!
