use byteorder::{ByteOrder, LittleEndian};
use vstd::prelude::*;

verus! {

/// Largest magnitude of a signed 10-bit normalized component.
pub const SNORM10_MAX: i32 = 511;

/// The little-endian bytes of a 16-bit word.
pub open spec fn le16(n: u16) -> Seq<u8> {
    seq![(n % 256) as u8, (n / 256) as u8]
}

/// The little-endian bytes of a 32-bit word.
pub open spec fn le32(n: u32) -> Seq<u8> {
    seq![(n % 256) as u8, ((n / 256) % 256) as u8, ((n / 65536) % 256) as u8, (n / 16777216) as u8]
}

/// A signed component in [-511, 511] as a 10-bit two's-complement field.
pub open spec fn field10(q: int) -> int {
    if q >= 0 {
        q
    } else {
        q + 1024
    }
}

/// Three fields at bits 0, 10 and 20; the top two bits stay clear.
pub open spec fn packed_triple(x: int, y: int, z: int) -> int {
    field10(x) + field10(y) * 1024 + field10(z) * 1048576
}

/// Relies on byteorder's `LittleEndian::write_u16`, which stores
/// `n.to_le_bytes()` in the first two bytes of the buffer.
#[verifier::external_body]
fn le_u16(n: u16) -> (r: [u8; 2])
    ensures
        r@ == le16(n),
{
    let mut buf = [0u8; 2];
    LittleEndian::write_u16(&mut buf, n);
    buf
}

/// Relies on byteorder's `LittleEndian::write_u32`, which stores
/// `n.to_le_bytes()` in the first four bytes of the buffer.
#[verifier::external_body]
fn le_u32(n: u32) -> (r: [u8; 4])
    ensures
        r@ == le32(n),
{
    let mut buf = [0u8; 4];
    LittleEndian::write_u32(&mut buf, n);
    buf
}

/// Appends a 16-bit word, least significant byte first.
pub fn push_u16(data: &mut Vec<u8>, n: u16)
    ensures
        final(data)@ == old(data)@ + le16(n),
{
    let b = le_u16(n);
    data.push(b[0]);
    data.push(b[1]);
    assert(final(data)@ =~= old(data)@ + le16(n));
}

/// Appends a 32-bit word, least significant byte first.
pub fn push_u32(data: &mut Vec<u8>, n: u32)
    ensures
        final(data)@ == old(data)@ + le32(n),
{
    let b = le_u32(n);
    data.push(b[0]);
    data.push(b[1]);
    data.push(b[2]);
    data.push(b[3]);
    assert(final(data)@ =~= old(data)@ + le32(n));
}

fn snorm10_field(q: i32) -> (r: u32)
    requires
        -SNORM10_MAX <= q <= SNORM10_MAX,
    ensures
        r as int == field10(q as int),
        r < 1024,
{
    if q >= 0 {
        q as u32
    } else {
        (q + 1024) as u32
    }
}

/// Packs three quantized components, each in [-511, 511], as 10-bit
/// two's-complement fields at bits 0, 10 and 20 of one word.
pub fn pack_i2_10_10_10(x: i32, y: i32, z: i32) -> (r: u32)
    requires
        -SNORM10_MAX <= x <= SNORM10_MAX,
        -SNORM10_MAX <= y <= SNORM10_MAX,
        -SNORM10_MAX <= z <= SNORM10_MAX,
    ensures
        r as int == packed_triple(x as int, y as int, z as int),
{
    let a = snorm10_field(x);
    let b = snorm10_field(y);
    let c = snorm10_field(z);
    let r = a | (b << 10u32) | (c << 20u32);
    assert(r == a + b * 1024 + c * 1048576) by (bit_vector)
        requires
            a < 1024,
            b < 1024,
            c < 1024,
            r == a | (b << 10u32) | (c << 20u32),
    ;
    r
}

} // verus!
