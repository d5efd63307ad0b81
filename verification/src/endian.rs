//! Sixteen-bit signed values as two bytes, most significant byte first: the
//! form in which the sensor's registers hold them.

use vstd::prelude::*;

verus! {

/// The signed value of the two bytes `hi`, `lo` read as one big-endian word.
pub open spec fn i16_from_be(hi: u8, lo: u8) -> int {
    let word = hi as int * 256 + lo as int;
    if word >= 0x8000 {
        word - 0x1_0000
    } else {
        word
    }
}

/// The two bytes, most significant first, that hold `value`.
pub open spec fn i16_to_be(value: i16) -> (u8, u8) {
    let word = if value < 0 {
        value as int + 0x1_0000
    } else {
        value as int
    };
    ((word / 256) as u8, (word % 256) as u8)
}

/// Reads two bytes as one big-endian signed word.
pub fn read_i16_be(hi: u8, lo: u8) -> (r: i16)
    ensures
        r as int == i16_from_be(hi, lo),
{
    let word: i32 = (hi as i32) * 256 + (lo as i32);
    if word >= 0x8000 {
        (word - 0x1_0000) as i16
    } else {
        word as i16
    }
}

/// Splits a signed word into its two bytes, most significant first.
pub fn write_i16_be(value: i16) -> (r: (u8, u8))
    ensures
        r == i16_to_be(value),
{
    let word: i32 = if value < 0 {
        value as i32 + 0x1_0000
    } else {
        value as i32
    };
    ((word / 256) as u8, (word % 256) as u8)
}

/// Writing a word out and reading it back gives the word; reading two bytes
/// and writing the word out gives the bytes.
pub proof fn lemma_be_round_trip(value: i16, hi: u8, lo: u8)
    ensures
        i16_from_be(i16_to_be(value).0, i16_to_be(value).1) == value,
        i16::MIN <= i16_from_be(hi, lo) <= i16::MAX,
        i16_to_be(i16_from_be(hi, lo) as i16) == (hi, lo),
{
}

} // verus!
