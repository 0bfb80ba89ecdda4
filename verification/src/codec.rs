//! Wire payloads: UAC2 levels (Q8.8, 1/256 dB steps, i16 little-endian) and
//! the 4-byte boolean payload of the extension units.
//!
//! Conversion between dB as a real number and Q8.8 is rounding of a real
//! number and lives with the front end; this module works on the Q8.8 value.

use vstd::prelude::*;

verus! {

/// The unsigned 16-bit pattern of a signed 16-bit value (two's complement).
pub open spec fn spec_u16_pattern(raw: i16) -> int {
    if raw < 0 {
        raw as int + 65536
    } else {
        raw as int
    }
}

/// The little-endian wire bytes of a Q8.8 level.
pub open spec fn spec_level_bytes(raw: i16) -> Seq<u8> {
    seq![(spec_u16_pattern(raw) % 256) as u8, (spec_u16_pattern(raw) / 256) as u8]
}

/// The Q8.8 level held in the first two little-endian bytes of `b`.
pub open spec fn spec_level_value(b: Seq<u8>) -> i16 {
    let pattern = b[0] as int + 256 * b[1] as int;
    if pattern >= 32768 {
        (pattern - 65536) as i16
    } else {
        pattern as i16
    }
}

/// The value of a little-endian 32-bit word held in the first four bytes.
pub open spec fn spec_le32(b: Seq<u8>) -> int {
    b[0] as int + 256 * b[1] as int + 65536 * b[2] as int + 16777216 * b[3] as int
}

/// The 4-byte boolean payload: the little-endian word 1 or 0.
pub open spec fn spec_eu_bytes(value: bool) -> Seq<u8> {
    if value {
        seq![1u8, 0u8, 0u8, 0u8]
    } else {
        seq![0u8, 0u8, 0u8, 0u8]
    }
}

/// A boolean payload reads as true exactly when it holds at least four bytes
/// and their little-endian word is 1.
pub open spec fn spec_eu_value(bytes: Seq<u8>) -> bool {
    bytes.len() >= 4 && spec_le32(bytes) == 1
}

/// Encode a 4-byte boolean payload (phantom and mute controls).
///
/// EU58 and EU59 require the full 4 bytes; short writes are silently ignored.
pub fn bool_to_eu(value: bool) -> (bytes: [u8; 4])
    ensures
        bytes@ == spec_eu_bytes(value),
        spec_eu_value(bytes@) == value,
{
    let bytes: [u8; 4] = if value {
        [1u8, 0u8, 0u8, 0u8]
    } else {
        [0u8, 0u8, 0u8, 0u8]
    };
    assert(bytes@ =~= spec_eu_bytes(value));
    bytes
}

/// Decode a 4-byte boolean payload: true only for the word 1.
pub fn eu_to_bool(bytes: &[u8]) -> (value: bool)
    ensures
        value == spec_eu_value(bytes@),
{
    if bytes.len() < 4 {
        return false;
    }
    let word: u32 = bytes[0] as u32 + 256 * (bytes[1] as u32) + 65536 * (bytes[2] as u32)
        + 16777216 * (bytes[3] as u32);
    word == 1
}

/// Encode a Q8.8 level as its two little-endian wire bytes.
pub fn level_to_le(raw: i16) -> (bytes: [u8; 2])
    ensures
        bytes@ == spec_level_bytes(raw),
{
    let pattern: u16 = if raw < 0 {
        (raw as i32 + 65536) as u16
    } else {
        raw as u16
    };
    let bytes: [u8; 2] = [(pattern % 256) as u8, (pattern / 256) as u8];
    assert(bytes@ =~= spec_level_bytes(raw));
    bytes
}

/// Decode a Q8.8 level from the first two little-endian bytes of a reply.
///
/// A reply of fewer than two bytes has no level in it.
pub fn level_from_le(bytes: &[u8]) -> (raw: i16)
    requires
        bytes@.len() >= 2,
    ensures
        spec_level_bytes(raw) == bytes@.take(2),
        raw == spec_level_value(bytes@),
{
    let pattern: u16 = bytes[0] as u16 + 256 * (bytes[1] as u16);
    let raw: i16 = if pattern >= 32768 {
        (pattern as i32 - 65536) as i16
    } else {
        pattern as i16
    };
    assert(spec_level_bytes(raw) =~= bytes@.take(2));
    raw
}

/// A level survives its wire encoding: decoding the bytes of a level gives
/// the level back.
pub proof fn lemma_level_round_trip(raw: i16)
    ensures
        spec_level_bytes(raw).len() == 2,
        spec_level_value(spec_level_bytes(raw)) == raw,
        forall|other: i16| spec_level_bytes(other) == spec_level_bytes(raw) ==> other == raw,
{
    let b = spec_u16_pattern(raw);
    assert(b == (b / 256) * 256 + b % 256);
    assert forall|other: i16| spec_level_bytes(other) == spec_level_bytes(raw) implies other
        == raw by {
        let a = spec_u16_pattern(other);
        let b = spec_u16_pattern(raw);
        assert(spec_level_bytes(other)[0] == spec_level_bytes(raw)[0]);
        assert(spec_level_bytes(other)[1] == spec_level_bytes(raw)[1]);
        assert(a == (a / 256) * 256 + a % 256);
        assert(b == (b / 256) * 256 + b % 256);
    }
}

/// A boolean survives its wire encoding.
pub proof fn lemma_eu_round_trip(value: bool)
    ensures
        spec_eu_value(spec_eu_bytes(value)) == value,
{
}

} // verus!
