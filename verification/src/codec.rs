//! Fixed-layout byte decoding and encoding for the wire protocol.
//!
//! Multi-byte integers on the wire are little-endian, except the base
//! version word, which is big-endian.

use vstd::prelude::*;

verus! {

/// The little-endian 32-bit word spelled by the four bytes at `i`.
pub open spec fn le_word_at(bytes: Seq<u8>, i: int) -> u32
    recommends
        0 <= i,
        i + 4 <= bytes.len(),
{
    (bytes[i] + bytes[i + 1] * 0x100 + bytes[i + 2] * 0x10000 + bytes[i + 3] * 0x1000000) as u32
}

/// The big-endian 16-bit word spelled by the two bytes at `i`.
pub open spec fn be_word16_at(bytes: Seq<u8>, i: int) -> u16
    recommends
        0 <= i,
        i + 2 <= bytes.len(),
{
    (bytes[i] * 0x100 + bytes[i + 1]) as u16
}

/// Reads a little-endian 32-bit word from the four bytes at `i`.
pub fn read_u32_le(buf: &[u8], i: usize) -> (r: u32)
    requires
        i + 4 <= buf@.len(),
    ensures
        r == le_word_at(buf@, i as int),
{
    let b0 = buf[i] as u32;
    let b1 = buf[i + 1] as u32;
    let b2 = buf[i + 2] as u32;
    let b3 = buf[i + 3] as u32;
    b0 + b1 * 0x100 + b2 * 0x10000 + b3 * 0x1000000
}

/// Reads a big-endian 16-bit word from the two bytes at `i`.
pub fn read_u16_be(buf: &[u8], i: usize) -> (r: u16)
    requires
        i + 2 <= buf@.len(),
    ensures
        r == be_word16_at(buf@, i as int),
{
    let b0 = buf[i] as u16;
    let b1 = buf[i + 1] as u16;
    b0 * 0x100 + b1
}

/// The low byte of a 16-bit value, as it goes first on the wire.
pub open spec fn spec_lo8(v: u16) -> u8 {
    (v & 0xFF) as u8
}

/// The high byte of a 16-bit value, as it goes second on the wire.
pub open spec fn spec_hi8(v: u16) -> u8 {
    ((v >> 8) & 0xFF) as u8
}

/// Splits a 16-bit value into its little-endian wire bytes.
pub fn u16_le_parts(v: u16) -> (r: (u8, u8))
    ensures
        r.0 == spec_lo8(v),
        r.1 == spec_hi8(v),
        r.0 + r.1 * 0x100 == v,
{
    let lo = (v & 0xFF) as u8;
    let hi = ((v >> 8) & 0xFF) as u8;
    proof {
        assert((v & 0xFF) + ((v >> 8) & 0xFF) * 0x100 == v) by (bit_vector);
        assert(v & 0xFF < 0x100) by (bit_vector);
        assert((v >> 8) & 0xFF < 0x100) by (bit_vector);
    }
    (lo, hi)
}

/// The byte of a 32-bit value that goes `k`-th on the wire, little-endian.
pub open spec fn spec_byte32(v: u32, k: int) -> u8 {
    ((v >> (8 * k)) & 0xFF) as u8
}

/// Splits a 32-bit value into its four little-endian wire bytes.
pub fn u32_le_parts(v: u32) -> (r: (u8, u8, u8, u8))
    ensures
        r.0 == spec_byte32(v, 0),
        r.1 == spec_byte32(v, 1),
        r.2 == spec_byte32(v, 2),
        r.3 == spec_byte32(v, 3),
        r.0 + r.1 * 0x100 + r.2 * 0x10000 + r.3 * 0x1000000 == v,
{
    let b0 = (v & 0xFF) as u8;
    let b1 = ((v >> 8) & 0xFF) as u8;
    let b2 = ((v >> 16) & 0xFF) as u8;
    let b3 = ((v >> 24) & 0xFF) as u8;
    proof {
        assert(v >> 0 == v) by (bit_vector);
        assert((v & 0xFF) + ((v >> 8) & 0xFF) * 0x100 + ((v >> 16) & 0xFF) * 0x10000 + ((v >> 24)
            & 0xFF) * 0x1000000 == v) by (bit_vector);
        assert(v & 0xFF < 0x100) by (bit_vector);
        assert((v >> 8) & 0xFF < 0x100) by (bit_vector);
        assert((v >> 16) & 0xFF < 0x100) by (bit_vector);
        assert((v >> 24) & 0xFF < 0x100) by (bit_vector);
    }
    (b0, b1, b2, b3)
}

/// The hardware-version field of the big-endian base version word:
/// its top four bits.
pub open spec fn spec_hw_version(word: u16) -> u8 {
    ((word >> 12) & 0x0F) as u8
}

/// The firmware-version field of the big-endian base version word:
/// six bits starting at bit 6.
pub open spec fn spec_jtag_version(word: u16) -> u8 {
    ((word >> 6) & 0x3F) as u8
}

/// Extracts the hardware-version and firmware-version fields from the
/// base version word.
pub fn parse_version_word(word: u16) -> (r: (u8, u8))
    ensures
        r.0 == spec_hw_version(word),
        r.1 == spec_jtag_version(word),
        r.0 <= 0x0F,
        r.1 <= 0x3F,
{
    proof {
        assert((word >> 12) & 0x0F <= 0x0F) by (bit_vector);
        assert((word >> 6) & 0x3F <= 0x3F) by (bit_vector);
    }
    let hw = ((word >> 12) & 0x0F) as u8;
    let fw = ((word >> 6) & 0x3F) as u8;
    (hw, fw)
}

/// The number of entries carried by a frequency-list response: its third
/// word, capped at ten.
pub open spec fn spec_freq_count(bytes: Seq<u8>) -> int
    recommends
        bytes.len() == 52,
{
    if le_word_at(bytes, 8) > 10 {
        10
    } else {
        le_word_at(bytes, 8) as int
    }
}

/// Parses a frequency-list response: word one is the currently active
/// frequency, word two the entry count capped at ten, and the entries
/// begin at word three.  Returns the available list and the active value.
pub fn parse_com_freq_response(buf: &[u8]) -> (r: (Vec<u32>, u32))
    requires
        buf@.len() == 52,
    ensures
        r.1 == le_word_at(buf@, 4),
        r.0@.len() == spec_freq_count(buf@),
        forall|j: int| 0 <= j < r.0@.len() ==> r.0@[j] == le_word_at(buf@, 12 + 4 * j),
{
    let current = read_u32_le(buf, 4);
    let raw_count = read_u32_le(buf, 8);
    let count: usize = if raw_count > 10 {
        10
    } else {
        raw_count as usize
    };
    let mut values: Vec<u32> = Vec::new();
    let mut j: usize = 0;
    while j < count
        invariant
            count == spec_freq_count(buf@),
            buf@.len() == 52,
            j <= count,
            values@.len() == j,
            forall|k: int| 0 <= k < j ==> values@[k] == le_word_at(buf@, 12 + 4 * k),
        decreases count - j,
    {
        values.push(read_u32_le(buf, 12 + 4 * j));
        j = j + 1;
    }
    (values, current)
}

} // verus!
