//! Hashing, hex and base64 encodings, constant-time comparison, byte
//! layouts of integers, and a deterministic keyed generator.

use vstd::prelude::*;
use rand_core::{RngCore, SeedableRng};
use sha2::{Digest, Sha256};
use subtle::ConstantTimeEq;

verus! {

/// The SHA-256 digest of a byte sequence.
pub uninterp spec fn sha256_of(data: Seq<u8>) -> Seq<u8>;

/// The SHA-256 digest of `data`.
///
/// Relies on `sha2::Sha256::digest`: the digest depends on the bytes alone
/// and is 32 bytes long.
#[verifier::external_body]
pub fn sha_256(data: &[u8]) -> (r: [u8; 32])
    ensures
        r@ == sha256_of(data@),
{
    Sha256::digest(data).into()
}

/// The lowercase hexadecimal digit for `n < 16`.
pub open spec fn hex_digit(n: int) -> char {
    seq!['0', '1', '2', '3', '4', '5', '6', '7', '8', '9', 'a', 'b', 'c', 'd', 'e', 'f'][n]
}

/// Two lowercase hex digits per byte, high nibble first.
pub open spec fn hex_of(b: Seq<u8>) -> Seq<char>
    decreases b.len(),
{
    if b.len() == 0 {
        Seq::empty()
    } else {
        seq![hex_digit(b[0] as int / 16), hex_digit(b[0] as int % 16)] + hex_of(b.drop_first())
    }
}

/// Relies on `hex::encode`: two lowercase digits for each byte, high nibble first.
#[verifier::external_body]
pub(crate) fn hex_encode(b: &[u8]) -> (r: String)
    ensures
        r@ == hex_of(b@),
{
    hex::encode(b)
}


/// The base64 digit for `n < 64` (standard alphabet).
pub open spec fn base64_digit(n: int) -> char {
    seq![
        'A', 'B', 'C', 'D', 'E', 'F', 'G', 'H', 'I', 'J', 'K', 'L', 'M', 'N', 'O', 'P',
        'Q', 'R', 'S', 'T', 'U', 'V', 'W', 'X', 'Y', 'Z', 'a', 'b', 'c', 'd', 'e', 'f',
        'g', 'h', 'i', 'j', 'k', 'l', 'm', 'n', 'o', 'p', 'q', 'r', 's', 't', 'u', 'v',
        'w', 'x', 'y', 'z', '0', '1', '2', '3', '4', '5', '6', '7', '8', '9', '+', '/',
    ][n]
}

/// Standard, padded base64: four digits for each group of three bytes, the
/// last group padded with `=`.
pub open spec fn base64_of(b: Seq<u8>) -> Seq<char>
    decreases b.len(),
{
    let b0 = if b.len() > 0 { b[0] as int } else { 0 };
    let b1 = if b.len() > 1 { b[1] as int } else { 0 };
    let b2 = if b.len() > 2 { b[2] as int } else { 0 };
    if b.len() == 0 {
        Seq::empty()
    } else if b.len() == 1 {
        seq![base64_digit(b0 / 4), base64_digit((b0 % 4) * 16), '=', '=']
    } else if b.len() == 2 {
        seq![
            base64_digit(b0 / 4),
            base64_digit((b0 % 4) * 16 + b1 / 16),
            base64_digit((b1 % 16) * 4),
            '=',
        ]
    } else {
        seq![
            base64_digit(b0 / 4),
            base64_digit((b0 % 4) * 16 + b1 / 16),
            base64_digit((b1 % 16) * 4 + b2 / 64),
            base64_digit(b2 % 64),
        ] + base64_of(b.subrange(3, b.len() as int))
    }
}

/// Relies on `base64::encode`: the standard alphabet, with padding.
#[verifier::external_body]
pub(crate) fn base64_encode(b: &[u8]) -> (r: String)
    ensures
        r@ == base64_of(b@),
{
    base64::encode(b)
}

/// Relies on `subtle::ConstantTimeEq::ct_eq` on slices, read through
/// `bool::from`: true exactly when both slices hold the same bytes. Slices of
/// equal length are compared in time that does not depend on their contents.
#[verifier::external_body]
pub(crate) fn ct_eq_bytes(a: &[u8], b: &[u8]) -> (r: bool)
    ensures
        r == (a@ == b@),
{
    bool::from(a.ct_eq(b))
}

/// The eight bytes of `v`, most significant first.
pub open spec fn be_bytes_u64(v: u64) -> Seq<u8> {
    seq![
        (v / 0x0100_0000_0000_0000 % 256) as u8,
        (v / 0x0001_0000_0000_0000 % 256) as u8,
        (v / 0x0000_0100_0000_0000 % 256) as u8,
        (v / 0x0000_0001_0000_0000 % 256) as u8,
        (v / 0x0100_0000 % 256) as u8,
        (v / 0x0001_0000 % 256) as u8,
        (v / 0x0100 % 256) as u8,
        (v % 256) as u8,
    ]
}

/// The low eight bytes of `v`, least significant first.
pub open spec fn le_bytes_low64(v: u128) -> Seq<u8> {
    seq![
        (v % 256) as u8,
        (v / 0x0100 % 256) as u8,
        (v / 0x0001_0000 % 256) as u8,
        (v / 0x0100_0000 % 256) as u8,
        (v / 0x0000_0001_0000_0000 % 256) as u8,
        (v / 0x0000_0100_0000_0000 % 256) as u8,
        (v / 0x0001_0000_0000_0000 % 256) as u8,
        (v / 0x0100_0000_0000_0000 % 256) as u8,
    ]
}

/// Appends the eight bytes of `v`, most significant first.
pub fn push_be_u64(out: &mut Vec<u8>, v: u64)
    ensures
        final(out)@ == old(out)@ + be_bytes_u64(v),
{
    out.push((v / 0x0100_0000_0000_0000 % 256) as u8);
    out.push((v / 0x0001_0000_0000_0000 % 256) as u8);
    out.push((v / 0x0000_0100_0000_0000 % 256) as u8);
    out.push((v / 0x0000_0001_0000_0000 % 256) as u8);
    out.push((v / 0x0100_0000 % 256) as u8);
    out.push((v / 0x0001_0000 % 256) as u8);
    out.push((v / 0x0100 % 256) as u8);
    out.push((v % 256) as u8);
    assert(out@ =~= old(out)@ + be_bytes_u64(v));
}

/// Appends the low eight bytes of `v`, least significant first.
pub fn push_le_low64(out: &mut Vec<u8>, v: u128)
    ensures
        final(out)@ == old(out)@ + le_bytes_low64(v),
{
    out.push((v % 256) as u8);
    out.push((v / 0x0100 % 256) as u8);
    out.push((v / 0x0001_0000 % 256) as u8);
    out.push((v / 0x0100_0000 % 256) as u8);
    out.push((v / 0x0000_0001_0000_0000 % 256) as u8);
    out.push((v / 0x0000_0100_0000_0000 % 256) as u8);
    out.push((v / 0x0001_0000_0000_0000 % 256) as u8);
    out.push((v / 0x0100_0000_0000_0000 % 256) as u8);
    assert(out@ =~= old(out)@ + le_bytes_low64(v));
}

/// Appends the bytes of `b`.
pub fn push_bytes(out: &mut Vec<u8>, b: &[u8])
    ensures
        final(out)@ == old(out)@ + b@,
{
    let mut i: usize = 0;
    while i < b.len()
        invariant
            0 <= i <= b@.len(),
            out@ == old(out)@ + b@.subrange(0, i as int),
        decreases b@.len() - i,
    {
        out.push(b[i]);
        i = i + 1;
        assert(out@ =~= old(out)@ + b@.subrange(0, i as int));
    }
    assert(b@.subrange(0, i as int) =~= b@);
}

/// Bytes `32 * index` up to `32 * index + 32` of the ChaCha20 keystream under
/// `key`, with a zero nonce and the block counter starting at zero.
pub uninterp spec fn chacha20_chunk(key: Seq<u8>, index: nat) -> Seq<u8>;

/// rand_chacha's ChaCha20 generator, held as an opaque value.
#[verifier::external_type_specification]
#[verifier::external_body]
pub struct ExChaCha20Rng(rand_chacha::ChaCha20Rng);

/// Relies on rand_core's `SeedableRng::from_seed` for rand_chacha's
/// `ChaCha20Rng`: a generator keyed by `seed`, at the start of its stream.
#[verifier::external_body]
fn chacha_from_seed(seed: [u8; 32]) -> rand_chacha::ChaCha20Rng {
    rand_chacha::ChaCha20Rng::from_seed(seed)
}

/// A deterministic generator keyed by the digest of a seed and some entropy.
pub struct Prng {
    rng: rand_chacha::ChaCha20Rng,
    key: Ghost<Seq<u8>>,
    drawn: Ghost<nat>,
}

impl Prng {
    /// The ChaCha20 key the generator was made with.
    pub closed spec fn key(&self) -> Seq<u8> {
        self.key@
    }

    /// How many 32-byte chunks have been drawn.
    pub closed spec fn drawn(&self) -> nat {
        self.drawn@
    }

    /// A generator keyed by `sha256(seed || entropy)`.
    pub fn new(seed: &[u8], entropy: &[u8]) -> (r: Self)
        ensures
            r.key() == sha256_of(seed@ + entropy@),
            r.drawn() == 0,
    {
        let mut input: Vec<u8> = Vec::new();
        push_bytes(&mut input, seed);
        push_bytes(&mut input, entropy);
        let hash = sha_256(input.as_slice());
        Prng { rng: chacha_from_seed(hash), key: Ghost(hash@), drawn: Ghost(0) }
    }

    /// The next 32 bytes of the stream.
    ///
    /// Relies on rand_core's `RngCore::fill_bytes` for `ChaCha20Rng`: the
    /// generator hands out its keystream in order, eight 32-bit words at a
    /// time for a 32-byte buffer, so each call yields the next chunk. The
    /// generator is keyed in `new` and advanced only here.
    #[verifier::external_body]
    pub fn rand_bytes(&mut self) -> (r: [u8; 32])
        ensures
            r@ == chacha20_chunk(old(self).key(), old(self).drawn()),
            final(self).key() == old(self).key(),
            final(self).drawn() == old(self).drawn() + 1,
    {
        let mut bytes = [0u8; 32];
        self.rng.fill_bytes(&mut bytes);
        bytes
    }
}

} // verus!
