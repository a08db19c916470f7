//! Single-use challenges that authenticate a new poll's callback to its factory.

use vstd::prelude::*;
use vstd::utf8::encode_utf8;
use crate::crypto::{
    base64_encode, base64_of, be_bytes_u64, chacha20_chunk, ct_eq_bytes, push_be_u64, push_bytes,
    sha256_of, sha_256, Prng,
};

verus! {

/// The length in bytes of a hashed challenge.
pub const CHALLENGE_SIZE: usize = 32;

/// The entropy a challenge is drawn with: block height and block time, eight
/// bytes each, most significant first, then the requester's address.
pub open spec fn challenge_entropy(height: u64, time: u64, requester: Seq<char>) -> Seq<u8> {
    be_bytes_u64(height) + be_bytes_u64(time) + encode_utf8(requester)
}

/// The challenge issued for these block data, requester and seed: the first 32
/// bytes of a generator keyed by `sha256(seed || entropy)`, hashed, in base64.
pub open spec fn challenge_text(height: u64, time: u64, requester: Seq<char>, seed: Seq<u8>) -> Seq<
    char,
> {
    base64_of(sha256_of(chacha20_chunk(sha256_of(seed + challenge_entropy(height, time, requester)), 0)))
}

/// The stored form of a challenge: the digest of its UTF-8 bytes.
pub open spec fn hashed_text(s: Seq<char>) -> Seq<u8> {
    sha256_of(encode_utf8(s))
}

/// A challenge, in its external (base64) representation.
#[derive(Debug, PartialEq, Eq)]
pub struct Challenge(pub String);

impl Clone for Challenge {
    fn clone(&self) -> (r: Self)
        ensures
            r == *self,
    {
        Challenge(self.0.clone())
    }
}

impl Challenge {
    /// Whether this challenge hashes to `hashed_pw`, compared in constant time.
    pub fn check_challenge(&self, hashed_pw: &[u8]) -> (r: bool)
        ensures
            r == (hashed_text(self.0@) == hashed_pw@),
    {
        let mine_hashed = create_hashed_password(self.0.as_str());
        ct_slice_compare(&mine_hashed, hashed_pw)
    }

    /// Issues the challenge for a block height, a block time, a requester and a seed.
    pub fn new(height: u64, time: u64, requester: &str, seed: &[u8]) -> (r: Self)
        ensures
            r.0@ == challenge_text(height, time, requester@, seed@),
    {
        let mut rng_entropy: Vec<u8> = Vec::new();
        push_be_u64(&mut rng_entropy, height);
        push_be_u64(&mut rng_entropy, time);
        push_bytes(&mut rng_entropy, requester.as_bytes());
        let mut rng = Prng::new(seed, rng_entropy.as_slice());
        let rand_slice = rng.rand_bytes();
        let ch = sha_256(&rand_slice);
        Challenge(base64_encode(&ch))
    }

    /// The stored form of this challenge.
    pub fn to_hashed(&self) -> (r: [u8; CHALLENGE_SIZE])
        ensures
            r@ == hashed_text(self.0@),
    {
        create_hashed_password(self.0.as_str())
    }

    /// The UTF-8 bytes of this challenge.
    pub fn as_bytes(&self) -> (r: &[u8])
        ensures
            r@ == encode_utf8(self.0@),
    {
        self.0.as_str().as_bytes()
    }

    /// The challenge's text.
    pub fn to_string(&self) -> (r: String)
        ensures
            r@ == self.0@,
    {
        self.0.clone()
    }
}

/// Whether two byte slices are equal; slices of equal length are compared in
/// time that does not depend on where they differ.
pub fn ct_slice_compare(s1: &[u8], s2: &[u8]) -> (r: bool)
    ensures
        r == (s1@ == s2@),
{
    ct_eq_bytes(s1, s2)
}

/// The digest of a password's UTF-8 bytes.
pub fn create_hashed_password(s1: &str) -> (r: [u8; CHALLENGE_SIZE])
    ensures
        r@ == hashed_text(s1@),
{
    sha_256(s1.as_bytes())
}

} // verus!
