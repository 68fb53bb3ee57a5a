use vstd::prelude::*;

verus! {

/// The big-endian 16-bit value at `i`.
pub open spec fn be16(s: Seq<u8>, i: int) -> u16 {
    (s[i] as nat * 256 + s[i + 1] as nat) as u16
}

/// The big-endian 24-bit value at `i`.
pub open spec fn be24(s: Seq<u8>, i: int) -> u32 {
    (s[i] as nat * 65536 + s[i + 1] as nat * 256 + s[i + 2] as nat) as u32
}

/// The big-endian 32-bit value at `i`.
pub open spec fn be32(s: Seq<u8>, i: int) -> u32 {
    (s[i] as nat * 16777216 + s[i + 1] as nat * 65536 + s[i + 2] as nat * 256 + s[i + 3] as nat) as u32
}

/// Whether the top bit (`0x80`) of `b` is set.
pub open spec fn flag_hi(b: u8) -> bool {
    b >= 128
}

/// Whether the second bit from the top (`0x40`) of `b` is set.
pub open spec fn flag_lo(b: u8) -> bool {
    (b / 64) % 2 == 1
}

/// Reads the big-endian 16-bit value at `i`.
pub fn read_u16(s: &[u8], i: usize) -> (r: u16)
    requires
        i + 2 <= s.len(),
    ensures
        r == be16(s@, i as int),
{
    (s[i] as u16) * 256 + s[i + 1] as u16
}

/// Reads the big-endian 24-bit value at `i`.
pub fn read_u24(s: &[u8], i: usize) -> (r: u32)
    requires
        i + 3 <= s.len(),
    ensures
        r == be24(s@, i as int),
{
    (s[i] as u32) * 65536 + (s[i + 1] as u32) * 256 + s[i + 2] as u32
}

/// Reads the big-endian 32-bit value at `i`.
pub fn read_u32(s: &[u8], i: usize) -> (r: u32)
    requires
        i + 4 <= s.len(),
    ensures
        r == be32(s@, i as int),
{
    (s[i] as u32) * 16777216 + (s[i + 1] as u32) * 65536 + (s[i + 2] as u32) * 256 + s[i + 3] as u32
}

/// Reads the top bit (`0x80`) of `b`.
pub fn read_flag_hi(b: u8) -> (r: bool)
    ensures
        r == flag_hi(b),
{
    let r = b & 0x80 != 0;
    assert(r == (b >= 128)) by (bit_vector)
        requires
            r == (b & 0x80 != 0),
    ;
    r
}

/// Reads the second bit from the top (`0x40`) of `b`.
pub fn read_flag_lo(b: u8) -> (r: bool)
    ensures
        r == flag_lo(b),
{
    let r = b & 0x40 != 0;
    assert(r == ((b / 64) % 2 == 1)) by (bit_vector)
        requires
            r == (b & 0x40 != 0),
    ;
    r
}

} // verus!
