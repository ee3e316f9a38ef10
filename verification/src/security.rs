//! Seed/key provider used by the UDS SecurityAccess tests.
//!
//! The seed is the requested level byte and the expected key is the first seed byte
//! XOR `0xFF`: a deterministic, trivially predictable algorithm meant only for tests.

use vstd::prelude::*;

verus! {

/// Failure of a seed generation or key validation.
#[derive(Debug, Clone, Copy, PartialEq, Eq)]
pub enum SecurityError {
    /// The key did not match, or no room was left for the seed.
    InvalidKey,
}

/// The key that unlocks a level whose seed starts with `first`: `first` XOR `0xFF`,
/// which for a byte is `255 - first`.
pub open spec fn key_for_seed(first: u8) -> u8 {
    (255 - first) as u8
}

/// The first byte of a seed, or zero for an empty seed.
pub open spec fn seed_head(seed: Seq<u8>) -> u8 {
    if seed.len() == 0 { 0 } else { seed[0] }
}

/// Whether `key` is accepted for `seed`.
pub open spec fn key_accepted(seed: Seq<u8>, key: Seq<u8>) -> bool {
    key.len() > 0 && key[0] == key_for_seed(seed_head(seed))
}

/// Fixed XOR security provider for tests.
#[derive(Debug, Clone, Copy)]
pub struct TestSecurityProvider;

impl TestSecurityProvider {
    /// Writes the one-byte seed for `level` (the level itself) into `buf`.
    pub fn generate_seed(&mut self, level: u8, buf: &mut [u8]) -> (r: Result<usize, SecurityError>)
        ensures
            old(buf)@.len() == 0 ==> r == Err::<usize, SecurityError>(SecurityError::InvalidKey)
                && final(buf)@ == old(buf)@,
            old(buf)@.len() > 0 ==> r == Ok::<usize, SecurityError>(1)
                && final(buf)@ == old(buf)@.update(0, level),
    {
        if buf.len() == 0 {
            return Err(SecurityError::InvalidKey);
        }
        buf[0] = level;
        Ok(1)
    }

    /// Accepts `key` when its first byte is the first seed byte XOR `0xFF`.
    pub fn validate_key(&self, level: u8, seed: &[u8], key: &[u8]) -> (r: Result<(), SecurityError>)
        ensures
            r is Ok <==> key_accepted(seed@, key@),
            r is Err ==> r == Err::<(), SecurityError>(SecurityError::InvalidKey),
            seed@.len() > 0 ==> (r is Ok <==> key@.len() > 0 && key@[0] + seed@[0] == 255),
            seed@.len() == 0 ==> (r is Ok <==> key@.len() > 0 && key@[0] == 255),
    {
        let first: u8 = if seed.len() > 0 { seed[0] } else { 0 };
        let expected_key: u8 = first ^ 0xFF;
        assert(expected_key == 255 - first) by (bit_vector)
            requires
                expected_key == first ^ 0xFF,
        ;
        if key.len() > 0 && key[0] == expected_key {
            Ok(())
        } else {
            Err(SecurityError::InvalidKey)
        }
    }
}

/// A tester that answers a freshly generated seed with that seed XOR `0xFF` (for a
/// byte, `255 - seed`) is accepted, whatever the level; any other first key byte is
/// refused.
pub proof fn lemma_generated_seed_unlocks(level: u8, buf: Seq<u8>, key: u8)
    requires
        buf.len() > 0,
    ensures
        key_accepted(buf.update(0, level), seq![key]) <==> key == 255 - level,
{
}

/// Only the first key byte decides: a key is accepted exactly when it is not empty
/// and its first byte is the first seed byte XOR `0xFF` (zero standing in for an
/// empty seed), so the first byte plus the first seed byte is 255; whatever follows
/// the first key byte changes nothing, and a key whose first byte is any other value
/// is refused however it continues.
pub proof fn law_first_key_byte_decides(seed: Seq<u8>, key: Seq<u8>, rest: Seq<u8>)
    ensures
        seed.len() > 0 ==> (key_accepted(seed, key) <==> key.len() > 0 && key[0] + seed[0] == 255),
        seed.len() == 0 ==> (key_accepted(seed, key) <==> key.len() > 0 && key[0] == 255),
        key.len() > 0 ==> key_accepted(seed, key + rest) == key_accepted(seed, key),
        key.len() > 0 ==> key_accepted(seed, key) == key_accepted(seed, seq![key[0]]),
        key_accepted(seed, key) ==> key.len() > 0 && (key[0] ^ 0xFF) == seed_head(seed),
{
    if key.len() > 0 {
        assert((key + rest)[0] == key[0]);
        let k = key[0];
        let h = seed_head(seed);
        assert(k == (255 - h) as u8 ==> (k ^ 0xFF) == h) by (bit_vector);
    }
}

} // verus!
