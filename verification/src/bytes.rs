//! Little-endian integers, the byte order of every platform AudioToolbox runs on.
use vstd::prelude::*;

verus! {

/// The value of two little-endian bytes.
pub open spec fn u16_of(b0: u8, b1: u8) -> int {
    b0 + 0x100 * b1
}

/// The value of four little-endian bytes of `s`, starting at `at`.
pub open spec fn u32_at(s: Seq<u8>, at: int) -> int {
    s[at] + 0x100 * s[at + 1] + 0x1_0000 * s[at + 2] + 0x100_0000 * s[at + 3]
}

/// The value of eight little-endian bytes of `s`, starting at `at`.
pub open spec fn u64_at(s: Seq<u8>, at: int) -> int {
    u32_at(s, at) + 0x1_0000_0000 * u32_at(s, at + 4)
}

/// The four little-endian bytes of `v`.
pub open spec fn u32_bytes(v: u32) -> Seq<u8> {
    seq![
        (v % 0x100) as u8,
        (v / 0x100 % 0x100) as u8,
        (v / 0x1_0000 % 0x100) as u8,
        (v / 0x100_0000) as u8,
    ]
}

/// The signed reading of a 16-bit pattern.
pub open spec fn as_signed_16(v: int) -> int {
    if v < 0x8000 {
        v
    } else {
        v - 0x1_0000
    }
}

/// Reads two bytes of `s` at `at`.
pub fn read_u16(s: &[u8], at: usize) -> (v: u16)
    requires
        at + 2 <= s@.len(),
    ensures
        v == u16_of(s@[at as int], s@[at + 1]),
{
    s[at] as u16 + 0x100 * (s[at + 1] as u16)
}

/// Reads two bytes of `s` at `at` as a signed number.
pub fn read_i16(s: &[u8], at: usize) -> (v: i16)
    requires
        at + 2 <= s@.len(),
    ensures
        v == as_signed_16(u16_of(s@[at as int], s@[at + 1])),
{
    let raw: u16 = read_u16(s, at);
    if raw < 0x8000 {
        raw as i16
    } else {
        (raw as i32 - 0x1_0000) as i16
    }
}

/// Reads four bytes of `s` at `at`.
pub fn read_u32(s: &[u8], at: usize) -> (v: u32)
    requires
        at + 4 <= s@.len(),
    ensures
        v == u32_at(s@, at as int),
{
    s[at] as u32 + 0x100 * (s[at + 1] as u32) + 0x1_0000 * (s[at + 2] as u32) + 0x100_0000 * (
    s[at + 3] as u32)
}

/// Reads eight bytes of `s` at `at`.
pub fn read_u64(s: &[u8], at: usize) -> (v: u64)
    requires
        at + 8 <= s@.len(),
    ensures
        v == u64_at(s@, at as int),
{
    assert(s@.len() == s.len());
    let low: u32 = read_u32(s, at);
    let high: u32 = read_u32(s, at + 4);
    low as u64 + 0x1_0000_0000 * (high as u64)
}

/// Appends the four bytes of `v` to `out`.
pub fn push_u32(out: &mut Vec<u8>, v: u32)
    ensures
        final(out)@ == old(out)@ + u32_bytes(v),
{
    out.push((v % 0x100) as u8);
    out.push((v / 0x100 % 0x100) as u8);
    out.push((v / 0x1_0000 % 0x100) as u8);
    out.push((v / 0x100_0000) as u8);
}

/// Reading four bytes back gives the value they were written from.
pub proof fn u32_round_trip(v: u32, before: Seq<u8>, after: Seq<u8>)
    ensures
        u32_at(before + u32_bytes(v) + after, before.len() as int) == v,
{
    let s = before + u32_bytes(v) + after;
    let n = before.len() as int;
    assert(s[n] == u32_bytes(v)[0]);
    assert(s[n + 1] == u32_bytes(v)[1]);
    assert(s[n + 2] == u32_bytes(v)[2]);
    assert(s[n + 3] == u32_bytes(v)[3]);
}

/// The bytes of a number come lowest first: each counts 256 times the one before
/// it.
pub proof fn bytes_come_lowest_first(s: Seq<u8>, at: int, v: u32)
    ensures
        u16_of(s[at], s[at + 1]) == s[at] + 256 * s[at + 1],
        u32_at(s, at) == u16_of(s[at], s[at + 1]) + 65536 * u16_of(s[at + 2], s[at + 3]),
        u64_at(s, at) == u32_at(s, at) + 0x1_0000_0000 * u32_at(s, at + 4),
        0 <= u32_at(s, at) <= u32::MAX,
        u32_bytes(v).len() == 4,
        u32_at(u32_bytes(v), 0) == v,
{
}

/// A 16-bit pattern with its top bit set is a negative number.
pub proof fn the_top_bit_is_the_sign(v: u16)
    ensures
        v < 32768 ==> as_signed_16(v as int) == v,
        v >= 32768 ==> as_signed_16(v as int) == v - 65536,
{
}

} // verus!
