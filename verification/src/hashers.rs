//! Fixed-width hashers for keys that are already 64-bit integers.
//!
//! Both hashers here accept exactly 8-byte inputs: anything else is a caller
//! error with no defined digest, so `write` requires the exact length and
//! `try_write` reports the violation without touching the state.

use vstd::prelude::*;
use crate::words::word_le;
use crate::mix::fib_mix;
use crate::mix::hash_u64;

verus! {

/// The length of the key handed to a fixed-width hasher was not 8 bytes.
/// Truncating or padding would produce an undocumented digest, so the
/// absorb is refused and the state is left unchanged.
#[derive(Clone, Copy, Debug, PartialEq, Eq, Structural)]
pub struct KeyLengthError {
    /// The offending input length.
    pub len: usize,
}

/// A hasher for keys that are already well-distributed 64-bit integers:
/// an 8-byte key is read as a little-endian word and stored unchanged.
pub struct IdentityHash {
    hash: u64,
}

impl View for IdentityHash {
    type V = u64;

    closed spec fn view(&self) -> u64 {
        self.hash
    }
}

impl IdentityHash {
    /// A fresh hasher with the default seed 0.
    pub fn new() -> (h: IdentityHash)
        ensures
            h@ == 0,
    {
        IdentityHash { hash: 0 }
    }

    /// A fresh hasher carrying a caller-supplied seed.
    pub fn with_seed(seed: u64) -> (h: IdentityHash)
        ensures
            h@ == seed,
    {
        IdentityHash { hash: seed }
    }

    /// Absorb an exactly 8-byte key: the state becomes the key itself,
    /// read as a little-endian 64-bit word, so by
    /// [`crate::words::lemma_word_le_roundtrip`] absorbing the bytes of a
    /// 64-bit integer stores exactly that integer.
    pub fn write(&mut self, msg: &[u8])
        requires
            msg@.len() == 8,
        ensures
            final(self)@ == word_le(msg@, 0),
    {
        self.hash = crate::words::load_word_le(msg, 0);
    }

    /// Absorb an 8-byte key, or refuse any other length, leaving the
    /// state unchanged.
    pub fn try_write(&mut self, msg: &[u8]) -> (r: Result<(), KeyLengthError>)
        ensures
            msg@.len() == 8 <==> r is Ok,
            msg@.len() == 8 ==> final(self)@ == word_le(msg@, 0),
            msg@.len() != 8 ==> final(self)@ == old(self)@ && r == Err::<(), KeyLengthError>(
                KeyLengthError { len: msg@.len() as usize },
            ),
    {
        if msg.len() == 8 {
            self.write(msg);
            Ok(())
        } else {
            Err(KeyLengthError { len: msg.len() })
        }
    }

    /// The current digest; reading it never changes the state.
    pub fn finish(&self) -> (digest: u64)
        ensures
            digest == self@,
    {
        self.hash
    }

    /// Derive a fresh hasher seeded with the current state.
    pub fn build_hasher(&self) -> (h: IdentityHash)
        ensures
            h@ == self@,
    {
        IdentityHash { hash: self.hash }
    }
}

/// A hasher for sequential or low-entropy 64-bit integer keys: an 8-byte
/// key is read as a little-endian word and redistributed through one round
/// of Fibonacci mixing.
pub struct U64Hash {
    hash: u64,
}

impl View for U64Hash {
    type V = u64;

    closed spec fn view(&self) -> u64 {
        self.hash
    }
}

impl U64Hash {
    /// A fresh hasher with the default seed 0.
    pub fn new() -> (h: U64Hash)
        ensures
            h@ == 0,
    {
        U64Hash { hash: 0 }
    }

    /// A fresh hasher carrying a caller-supplied seed.
    pub fn with_seed(seed: u64) -> (h: U64Hash)
        ensures
            h@ == seed,
    {
        U64Hash { hash: seed }
    }

    /// Absorb an exactly 8-byte key: the state becomes the Fibonacci
    /// mix of the key, read as a little-endian 64-bit word.
    pub fn write(&mut self, msg: &[u8])
        requires
            msg@.len() == 8,
        ensures
            final(self)@ == fib_mix(word_le(msg@, 0)),
    {
        let value = crate::words::load_word_le(msg, 0);
        self.hash = hash_u64(value);
    }

    /// Absorb an 8-byte key, or refuse any other length, leaving the
    /// state unchanged.
    pub fn try_write(&mut self, msg: &[u8]) -> (r: Result<(), KeyLengthError>)
        ensures
            msg@.len() == 8 <==> r is Ok,
            msg@.len() == 8 ==> final(self)@ == fib_mix(word_le(msg@, 0)),
            msg@.len() != 8 ==> final(self)@ == old(self)@ && r == Err::<(), KeyLengthError>(
                KeyLengthError { len: msg@.len() as usize },
            ),
    {
        if msg.len() == 8 {
            self.write(msg);
            Ok(())
        } else {
            Err(KeyLengthError { len: msg.len() })
        }
    }

    /// The current digest; reading it never changes the state.
    pub fn finish(&self) -> (digest: u64)
        ensures
            digest == self@,
    {
        self.hash
    }

    /// Derive a fresh hasher seeded with the current state.
    pub fn build_hasher(&self) -> (h: U64Hash)
        ensures
            h@ == self@,
    {
        U64Hash { hash: self.hash }
    }
}

} // verus!
