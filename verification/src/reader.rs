//! Bounds-checked extraction of little-endian fixed-width fields and of
//! null-terminated text from a byte slice.

use vstd::prelude::*;
use vstd::slice::slice_subrange;
use crate::model::{
    as_signed16, as_signed32, chars_of, le16_at, le32_at, le64_at, lemma_first_nul_is, name_of,
};

verus! {

/// The byte at `off`.
pub(crate) fn read_u8(bytes: &[u8], off: usize) -> (r: u8)
    requires
        off < bytes@.len(),
    ensures
        r == bytes@[off as int],
{
    bytes[off]
}

/// The 16-bit little-endian value at `off`.
pub(crate) fn read_u16(bytes: &[u8], off: usize) -> (r: u16)
    requires
        off + 2 <= bytes@.len(),
    ensures
        r as int == le16_at(bytes@, off as int),
{
    bytes[off] as u16 + bytes[off + 1] as u16 * 0x100
}

/// The 32-bit little-endian value at `off`.
pub(crate) fn read_u32(bytes: &[u8], off: usize) -> (r: u32)
    requires
        off + 4 <= bytes@.len(),
    ensures
        r as int == le32_at(bytes@, off as int),
{
    bytes[off] as u32 + bytes[off + 1] as u32 * 0x100 + bytes[off + 2] as u32 * 0x1_0000 + bytes[off
        + 3] as u32 * 0x100_0000
}

/// The 64-bit little-endian value at `off`.
pub(crate) fn read_u64(bytes: &[u8], off: usize) -> (r: u64)
    requires
        off + 8 <= bytes@.len(),
    ensures
        r as int == le64_at(bytes@, off as int),
{
    let n = bytes.len();
    assert(off + 8 <= n);
    let lo = read_u32(bytes, off);
    let hi = read_u32(bytes, off + 4);
    lo as u64 + hi as u64 * 0x1_0000_0000
}

/// The 32-bit little-endian value at `off`, reinterpreted as signed.
pub(crate) fn read_i32(bytes: &[u8], off: usize) -> (r: i32)
    requires
        off + 4 <= bytes@.len(),
    ensures
        r as int == as_signed32(le32_at(bytes@, off as int)),
{
    let u = read_u32(bytes, off);
    if u >= 0x8000_0000 {
        -((u32::MAX - u) as i32) - 1
    } else {
        u as i32
    }
}

/// The 16-bit little-endian value at `off`, reinterpreted as signed.
pub(crate) fn read_i16(bytes: &[u8], off: usize) -> (r: i16)
    requires
        off + 2 <= bytes@.len(),
    ensures
        r as int == as_signed16(le16_at(bytes@, off as int)),
{
    let u = read_u16(bytes, off);
    if u >= 0x8000 {
        -((u16::MAX - u) as i16) - 1
    } else {
        u as i16
    }
}

/// The `size` bytes of `bytes` that start at `start_offset`.
pub fn build_slice(bytes: &[u8], start_offset: usize, size: usize) -> (r: &[u8])
    requires
        start_offset + size <= bytes@.len(),
    ensures
        r@ == bytes@.subrange(start_offset as int, start_offset + size),
{
    let n = bytes.len();
    assert(start_offset + size <= n);
    slice_subrange(bytes, start_offset, start_offset + size)
}

/// The payload of the load command at `pos`: the record's bytes after its
/// 8-byte prefix, copied out of the buffer.
pub(crate) fn payload_vec(bytes: &[u8], pos: usize, cmdsize: u32) -> (v: Vec<u8>)
    requires
        8 <= cmdsize,
        pos + cmdsize <= bytes@.len(),
    ensures
        v@ == bytes@.subrange(pos + 8, pos + cmdsize as int),
{
    let n = bytes.len();
    assert(pos + cmdsize <= n);
    let s = build_slice(bytes, pos + 8, cmdsize as usize - 8);
    let v = vstd::slice::slice_to_vec(s);
    proof {
        assert(bytes@.subrange(pos + 8, (pos + 8) + (cmdsize as usize - 8)) =~= bytes@.subrange(
            pos + 8,
            pos + cmdsize as int,
        ));
    }
    v
}

/// Relies on String::push: it appends the given character to the end of
/// the string.
#[verifier::external_body]
fn push_char(s: &mut String, c: char)
    ensures
        final(s)@ == old(s)@.push(c),
{
    s.push(c)
}

/// The bytes of `[start, end)` as text, each byte read as the character
/// with that code point.
pub(crate) fn bytes_to_string(bytes: &[u8], start: usize, end: usize) -> (s: String)
    requires
        start <= end <= bytes@.len(),
    ensures
        s@ == chars_of(bytes@.subrange(start as int, end as int)),
{
    let mut s = String::new();
    let mut i = start;
    while i < end
        invariant
            start <= i <= end <= bytes@.len(),
            s@ == chars_of(bytes@.subrange(start as int, i as int)),
        decreases end - i,
    {
        let c = bytes[i] as char;
        push_char(&mut s, c);
        i = i + 1;
        proof {
            assert(bytes@.subrange(start as int, i as int).map_values(|x: u8| x as char)
                =~= bytes@.subrange(start as int, i - 1).map_values(|x: u8| x as char).push(c));
        }
    }
    proof {
        assert(bytes@.subrange(start as int, i as int) =~= bytes@.subrange(
            start as int,
            end as int,
        ));
    }
    s
}

/// The 16-byte name field at `off`, read as text up to its first null
/// terminator, or whole if it has none.
pub(crate) fn read_name(bytes: &[u8], off: usize) -> (s: String)
    requires
        off + 16 <= bytes@.len(),
    ensures
        s@ == name_of(bytes@.subrange(off as int, off + 16)),
{
    let ghost field = bytes@.subrange(off as int, off + 16);
    let n = bytes.len();
    let mut j: usize = 0;
    while j < 16 && bytes[off + j] != 0
        invariant
            off + 16 <= n == bytes@.len(),
            field == bytes@.subrange(off as int, off + 16),
            0 <= j <= 16,
            forall|k: int| 0 <= k < j ==> field[k] != 0,
        decreases 16 - j,
    {
        assert(field[j as int] == bytes@[off + j]);
        j = j + 1;
    }
    proof {
        if j < 16 {
            assert(field[j as int] == bytes@[off + j]);
        }
        lemma_first_nul_is(field, j as int);
        assert(bytes@.subrange(off as int, off + j) =~= field.take(j as int));
    }
    bytes_to_string(bytes, off, off + j)
}

} // verus!
