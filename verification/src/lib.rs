//! A small family of 64-bit non-cryptographic hashers behind one uniform
//! interface: absorb byte buffers, then finalize to a 64-bit digest, with a
//! factory method that re-derives a fresh hasher from the current state.
//!
//! - `IdentityHash` stores an 8-byte key, read as a little-endian word,
//!   unchanged.
//! - `U64Hash` stores the 8-byte key after one round of Fibonacci
//!   (golden-ratio multiplicative) mixing.
//! - `Murmur2_64a` is the streaming MurmurHash2 64-bit-A algorithm over
//!   arbitrary-length buffers, seed-chaining across absorb calls.

pub mod hashers;
pub mod mix;
pub mod murmur;
pub mod words;

pub use murmur::avalanche;
pub use murmur::murmur64a;
pub use murmur::murmur_hash64a;
pub use murmur::Murmur2_64a;
pub use murmur::MURMUR_M;
pub use murmur::MURMUR_R;

pub use hashers::IdentityHash;
pub use hashers::KeyLengthError;
pub use hashers::U64Hash;
pub use mix::fib_mix;
pub use mix::hash_u64;
pub use mix::FIB_MULTIPLIER;
pub use words::lemma_word_le_roundtrip;
pub use words::load_word_le;
pub use words::u64_le_bytes;
pub use words::word_le;
