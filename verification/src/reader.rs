//! Little-endian field reading over byte slices, with a cursor.
use vstd::prelude::*;

verus! {

/// Unsigned 16-bit little-endian value of `b[p..p+2]`.
pub open spec fn le_u16(b: Seq<u8>, p: int) -> u16 {
    (b[p] as int + 256 * b[p + 1] as int) as u16
}

/// Unsigned 32-bit little-endian value of `b[p..p+4]`.
pub open spec fn le_u32(b: Seq<u8>, p: int) -> u32 {
    (b[p] as int + 256 * b[p + 1] as int + 65536 * b[p + 2] as int + 16777216 * b[p + 3] as int) as u32
}

/// Two's-complement reading of a 16-bit pattern.
pub open spec fn signed16(u: u16) -> i16 {
    if u < 32768 { u as i16 } else { (u - 65536) as i16 }
}

/// Two's-complement reading of a 32-bit pattern.
pub open spec fn signed32(u: u32) -> i32 {
    if u < 0x8000_0000 { u as i32 } else { (u - 0x1_0000_0000) as i32 }
}

/// Two's-complement reading of an 8-bit pattern.
pub open spec fn signed8(u: u8) -> i8 {
    if u < 128 { u as i8 } else { (u - 256) as i8 }
}

/// Signed 16-bit little-endian value of `b[p..p+2]`.
pub open spec fn le_i16(b: Seq<u8>, p: int) -> i16 {
    signed16(le_u16(b, p))
}

/// Signed 32-bit little-endian value of `b[p..p+4]`.
pub open spec fn le_i32(b: Seq<u8>, p: int) -> i32 {
    signed32(le_u32(b, p))
}

/// The error a reader reports when fewer bytes remain than a field needs.
#[derive(Debug, Clone, Copy, PartialEq, Eq)]
pub enum ReadError {
    UnexpectedEof,
}

/// Little-endian `u16` from two bytes.
pub fn u16_from_le(b0: u8, b1: u8) -> (r: u16)
    ensures
        r == (b0 as int + 256 * b1 as int),
{
    b0 as u16 + 256 * (b1 as u16)
}

/// Little-endian `u32` from four bytes.
pub fn u32_from_le(b0: u8, b1: u8, b2: u8, b3: u8) -> (r: u32)
    ensures
        r == (b0 as int + 256 * b1 as int + 65536 * b2 as int + 16777216 * b3 as int),
{
    b0 as u32 + 256 * (b1 as u32) + 65536 * (b2 as u32) + 16777216 * (b3 as u32)
}

/// Reinterprets a 16-bit pattern as two's complement.
pub fn to_signed16(u: u16) -> (r: i16)
    ensures
        r == signed16(u),
{
    if u < 32768 {
        u as i16
    } else {
        let d: u16 = u - 32768;
        (d as i16) - 32767 - 1
    }
}

/// Reinterprets a 32-bit pattern as two's complement.
pub fn to_signed32(u: u32) -> (r: i32)
    ensures
        r == signed32(u),
{
    if u < 0x8000_0000 {
        u as i32
    } else {
        let d: u32 = u - 0x8000_0000;
        (d as i32) - 0x7fff_ffff - 1
    }
}

/// Reinterprets an 8-bit pattern as two's complement.
pub fn to_signed8(u: u8) -> (r: i8)
    ensures
        r == signed8(u),
{
    if u < 128 {
        u as i8
    } else {
        let d: u8 = u - 128;
        (d as i8) - 127 - 1
    }
}

/// Reinterprets an 8-bit signed value as its bit pattern.
pub fn to_unsigned8(v: i8) -> (r: u8)
    ensures
        signed8(r) == v,
        r == (if v >= 0 { v as int } else { v + 256 }),
{
    if v >= 0 {
        v as u8
    } else {
        let w: i16 = v as i16 + 256;
        w as u8
    }
}

/// Two bytes, least significant first, of a 16-bit pattern.
pub fn u16_to_le(v: u16) -> (r: (u8, u8))
    ensures
        r.0 as int + 256 * r.1 as int == v,
        r.0 == v % 256,
        r.1 == v / 256,
{
    ((v % 256) as u8, (v / 256) as u8)
}

/// Four bytes, least significant first, of a 32-bit pattern.
pub fn u32_to_le(v: u32) -> (r: (u8, u8, u8, u8))
    ensures
        r.0 as int + 256 * r.1 as int + 65536 * r.2 as int + 16777216 * r.3 as int == v,
        r.0 == v % 256,
        r.1 == (v / 256) % 256,
        r.2 == (v / 65536) % 256,
        r.3 == v / 16777216,
{
    ((v % 256) as u8, ((v / 256) % 256) as u8, ((v / 65536) % 256) as u8, (v / 16777216) as u8)
}

/// The bit pattern of a signed 16-bit value.
pub fn i16_bits(v: i16) -> (r: u16)
    ensures
        signed16(r) == v,
        r == (if v >= 0 { v as int } else { v + 65536 }),
{
    if v >= 0 {
        v as u16
    } else {
        let w: i32 = v as i32 + 65536;
        w as u16
    }
}

/// The bit pattern of a signed 32-bit value.
pub fn i32_bits(v: i32) -> (r: u32)
    ensures
        signed32(r) == v,
        r == (if v >= 0 { v as int } else { v + 0x1_0000_0000 }),
{
    if v >= 0 {
        v as u32
    } else {
        let w: i64 = v as i64 + 0x1_0000_0000;
        w as u32
    }
}

/// Reads a little-endian `u32` at the cursor and advances it past the field.
pub fn read_u32(data: &[u8], pos: &mut usize) -> (res: Result<u32, ReadError>)
    ensures
        *old(pos) + 4 <= data@.len() ==> res == Ok::<u32, ReadError>(le_u32(data@, *old(pos) as int))
            && *final(pos) == *old(pos) + 4,
        *old(pos) + 4 > data@.len() ==> res == Err::<u32, ReadError>(ReadError::UnexpectedEof)
            && *final(pos) == *old(pos),
{
    if data.len() < 4 || *pos > data.len() - 4 {
        return Err(ReadError::UnexpectedEof);
    }
    let p = *pos;
    let v = u32_from_le(data[p], data[p + 1], data[p + 2], data[p + 3]);
    *pos = p + 4;
    Ok(v)
}

/// Reads a little-endian `i32` at the cursor and advances it past the field.
pub fn read_i32(data: &[u8], pos: &mut usize) -> (res: Result<i32, ReadError>)
    ensures
        *old(pos) + 4 <= data@.len() ==> res == Ok::<i32, ReadError>(le_i32(data@, *old(pos) as int))
            && *final(pos) == *old(pos) + 4,
        *old(pos) + 4 > data@.len() ==> res == Err::<i32, ReadError>(ReadError::UnexpectedEof)
            && *final(pos) == *old(pos),
{
    let u = read_u32(data, pos)?;
    Ok(to_signed32(u))
}

/// Reads a little-endian `i16` at the cursor and advances it past the field.
pub fn read_i16(data: &[u8], pos: &mut usize) -> (res: Result<i16, ReadError>)
    ensures
        *old(pos) + 2 <= data@.len() ==> res == Ok::<i16, ReadError>(le_i16(data@, *old(pos) as int))
            && *final(pos) == *old(pos) + 2,
        *old(pos) + 2 > data@.len() ==> res == Err::<i16, ReadError>(ReadError::UnexpectedEof)
            && *final(pos) == *old(pos),
{
    if data.len() < 2 || *pos > data.len() - 2 {
        return Err(ReadError::UnexpectedEof);
    }
    let p = *pos;
    let u = u16_from_le(data[p], data[p + 1]);
    *pos = p + 2;
    Ok(to_signed16(u))
}

/// Reads one byte at the cursor and advances it.
pub fn read_u8(data: &[u8], pos: &mut usize) -> (res: Result<u8, ReadError>)
    ensures
        *old(pos) < data@.len() ==> res == Ok::<u8, ReadError>(data@[*old(pos) as int])
            && *final(pos) == *old(pos) + 1,
        *old(pos) >= data@.len() ==> res == Err::<u8, ReadError>(ReadError::UnexpectedEof)
            && *final(pos) == *old(pos),
{
    if *pos >= data.len() {
        return Err(ReadError::UnexpectedEof);
    }
    let p = *pos;
    *pos = p + 1;
    Ok(data[p])
}

/// Reads one two's-complement byte at the cursor and advances it.
pub fn read_i8(data: &[u8], pos: &mut usize) -> (res: Result<i8, ReadError>)
    ensures
        *old(pos) < data@.len() ==> res == Ok::<i8, ReadError>(signed8(data@[*old(pos) as int]))
            && *final(pos) == *old(pos) + 1,
        *old(pos) >= data@.len() ==> res == Err::<i8, ReadError>(ReadError::UnexpectedEof)
            && *final(pos) == *old(pos),
{
    let b = read_u8(data, pos)?;
    Ok(to_signed8(b))
}

/// The little-endian `u16` at `data[p..p+2]`.
pub fn get_u16(data: &[u8], p: usize) -> (r: u16)
    requires
        p + 2 <= data@.len(),
    ensures
        r == le_u16(data@, p as int),
{
    u16_from_le(data[p], data[p + 1])
}

/// The little-endian `i16` at `data[p..p+2]`.
pub fn get_i16(data: &[u8], p: usize) -> (r: i16)
    requires
        p + 2 <= data@.len(),
    ensures
        r == le_i16(data@, p as int),
{
    to_signed16(u16_from_le(data[p], data[p + 1]))
}

/// The little-endian `u32` at `data[p..p+4]`.
pub fn get_u32(data: &[u8], p: usize) -> (r: u32)
    requires
        p + 4 <= data@.len(),
    ensures
        r == le_u32(data@, p as int),
{
    u32_from_le(data[p], data[p + 1], data[p + 2], data[p + 3])
}

/// The little-endian `i32` at `data[p..p+4]`.
pub fn get_i32(data: &[u8], p: usize) -> (r: i32)
    requires
        p + 4 <= data@.len(),
    ensures
        r == le_i32(data@, p as int),
{
    to_signed32(u32_from_le(data[p], data[p + 1], data[p + 2], data[p + 3]))
}

/// The two's-complement byte at `data[p]`.
pub fn get_i8(data: &[u8], p: usize) -> (r: i8)
    requires
        p < data@.len(),
    ensures
        r == signed8(data@[p as int]),
{
    to_signed8(data[p])
}

/// The bytes of a little-endian 16-bit value are its base-256 digits.
pub proof fn lemma_le16_digits(b0: u8, b1: u8)
    ensures
        (b0 as int + 256 * b1 as int) % 256 == b0,
        (b0 as int + 256 * b1 as int) / 256 == b1,
{
    assert((b0 as int + 256 * b1 as int) % 256 == b0 && (b0 as int + 256 * b1 as int) / 256 == b1) by (nonlinear_arith)
        requires 0 <= b0 < 256, 0 <= b1 < 256;
}

/// The bytes of a little-endian 32-bit value are its base-256 digits.
pub proof fn lemma_le32_digits(b0: u8, b1: u8, b2: u8, b3: u8)
    ensures
        ({
            let v = b0 as int + 256 * b1 as int + 65536 * b2 as int + 16777216 * b3 as int;
            &&& v % 256 == b0
            &&& (v / 256) % 256 == b1
            &&& (v / 65536) % 256 == b2
            &&& v / 16777216 == b3
        }),
{
    let v = b0 as int + 256 * b1 as int + 65536 * b2 as int + 16777216 * b3 as int;
    assert(v % 256 == b0 && v / 256 == b1 as int + 256 * b2 as int + 65536 * b3 as int) by (nonlinear_arith)
        requires v == b0 as int + 256 * b1 as int + 65536 * b2 as int + 16777216 * b3 as int, 0 <= b0 < 256;
    let w = b1 as int + 256 * b2 as int + 65536 * b3 as int;
    assert(w % 256 == b1 && w / 256 == b2 as int + 256 * b3 as int) by (nonlinear_arith)
        requires w == b1 as int + 256 * b2 as int + 65536 * b3 as int, 0 <= b1 < 256;
    assert(v / 65536 == w / 256) by (nonlinear_arith)
        requires v / 256 == w, v >= 0;
    let x = b2 as int + 256 * b3 as int;
    assert(x % 256 == b2 && x / 256 == b3) by (nonlinear_arith)
        requires x == b2 as int + 256 * b3 as int, 0 <= b2 < 256, 0 <= b3;
    assert(v / 16777216 == x / 256) by (nonlinear_arith)
        requires v / 65536 == x, v >= 0;
}

/// Copies `data[start..end]` into a new vector.
pub fn copy_range(data: &[u8], start: usize, end: usize) -> (r: Vec<u8>)
    requires
        start <= end <= data@.len(),
    ensures
        r@ == data@.subrange(start as int, end as int),
{
    let mut r: Vec<u8> = Vec::with_capacity(end - start);
    let mut i = start;
    while i < end
        invariant
            start <= i <= end <= data@.len(),
            r@ == data@.subrange(start as int, i as int),
        decreases end - i,
    {
        r.push(data[i]);
        i += 1;
    }
    r
}

} // verus!
