//! Little-endian 64-bit words read from byte buffers.
//!
//! Every hasher in this crate reads its input in 8-byte words at the machine's
//! natural (little-endian) byte order; this module gives that read a
//! mathematical definition and a verified loader.

use vstd::prelude::*;

verus! {

/// The 64-bit word formed by the 8 bytes `bytes[off .. off + 8]`, least
/// significant byte first.
pub open spec fn word_le(bytes: Seq<u8>, off: int) -> u64 {
    (bytes[off] as u64)
        | ((bytes[off + 1] as u64) << 8u64)
        | ((bytes[off + 2] as u64) << 16u64)
        | ((bytes[off + 3] as u64) << 24u64)
        | ((bytes[off + 4] as u64) << 32u64)
        | ((bytes[off + 5] as u64) << 40u64)
        | ((bytes[off + 6] as u64) << 48u64)
        | ((bytes[off + 7] as u64) << 56u64)
}

/// The little-endian byte sequence of `v`: 8 bytes, least significant first.
pub open spec fn u64_le_bytes(v: u64) -> Seq<u8> {
    seq![
        (v & 0xff) as u8,
        ((v >> 8u64) & 0xff) as u8,
        ((v >> 16u64) & 0xff) as u8,
        ((v >> 24u64) & 0xff) as u8,
        ((v >> 32u64) & 0xff) as u8,
        ((v >> 40u64) & 0xff) as u8,
        ((v >> 48u64) & 0xff) as u8,
        ((v >> 56u64) & 0xff) as u8,
    ]
}

/// Reading back the little-endian bytes of `v` recovers `v` exactly.
pub proof fn lemma_word_le_roundtrip(v: u64)
    ensures
        word_le(u64_le_bytes(v), 0) == v,
{
    assert({
        ((v & 0xff) as u8 as u64)
            | ((((v >> 8u64) & 0xff) as u8 as u64) << 8u64)
            | ((((v >> 16u64) & 0xff) as u8 as u64) << 16u64)
            | ((((v >> 24u64) & 0xff) as u8 as u64) << 24u64)
            | ((((v >> 32u64) & 0xff) as u8 as u64) << 32u64)
            | ((((v >> 40u64) & 0xff) as u8 as u64) << 40u64)
            | ((((v >> 48u64) & 0xff) as u8 as u64) << 48u64)
            | ((((v >> 56u64) & 0xff) as u8 as u64) << 56u64) == v
    }) by (bit_vector);
}

/// Read the 8 bytes at `bytes[off .. off + 8]` as one little-endian word.
pub fn load_word_le(bytes: &[u8], off: usize) -> (w: u64)
    requires
        off + 8 <= bytes@.len(),
    ensures
        w == word_le(bytes@, off as int),
{
    (bytes[off] as u64)
        | ((bytes[off + 1] as u64) << 8u64)
        | ((bytes[off + 2] as u64) << 16u64)
        | ((bytes[off + 3] as u64) << 24u64)
        | ((bytes[off + 4] as u64) << 32u64)
        | ((bytes[off + 5] as u64) << 40u64)
        | ((bytes[off + 6] as u64) << 48u64)
        | ((bytes[off + 7] as u64) << 56u64)
}

} // verus!
