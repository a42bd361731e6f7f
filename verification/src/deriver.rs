use vstd::prelude::*;

use parity_scale_codec::Encode;

verus! {

/// The SCALE encoding of a derivation payload `(entropy, sender, tx_index)`:
/// a pure function of the three values, named rather than spelled out.
pub uninterp spec fn encoded_payload_of(entropy: Seq<u8>, sender: u64, tx_index: u64) -> Seq<u8>;

/// The 16-byte Blake2 digest of a byte string: a pure function of its
/// input, named rather than spelled out.
pub uninterp spec fn blake2_128_of(data: Seq<u8>) -> Seq<u8>;

/// The trait vector derived for one transaction: the 128-bit hash of the
/// encoded `(entropy, sender, tx_index)` payload.
pub open spec fn dna_of(entropy: Seq<u8>, sender: u64, tx_index: u64) -> Seq<u8> {
    blake2_128_of(encoded_payload_of(entropy, sender, tx_index))
}

/// Relies on `parity_scale_codec::Encode::encode`: the SCALE encoding of a
/// `(&[u8], u64, u64)` tuple depends on the three encoded values alone.
/// The slice's length is encoded as a compact 32-bit prefix, so the
/// encoder only takes slices up to `u32::MAX` bytes.
#[verifier::external_body]
fn encode_payload(entropy: &[u8], sender: u64, tx_index: u64) -> (r: Vec<u8>)
    requires
        entropy@.len() <= u32::MAX,
    ensures
        r@ == encoded_payload_of(entropy@, sender, tx_index),
{
    (entropy, sender, tx_index).encode()
}

/// Relies on `sp_io::hashing::blake2_128`: a 128-bit Blake2b digest that
/// depends on the input bytes alone.
#[verifier::external_body]
fn blake2_128_digest(data: &[u8]) -> (r: [u8; 16])
    ensures
        r@ == blake2_128_of(data@),
{
    sp_io::hashing::blake2_128(data)
}

/// Derives a fresh trait vector from the collaborator-supplied entropy
/// seed, the caller's identity and the transaction index.  This is
/// deterministic per-transaction pseudo-randomness: the same three inputs
/// always give the same vector, and it is exactly as unpredictable as the
/// entropy seed handed in.  The seed must fit the encoding's compact
/// 32-bit length prefix.
pub fn random_value(entropy: &[u8], sender: u64, tx_index: u64) -> (r: [u8; 16])
    requires
        entropy@.len() <= u32::MAX,
    ensures
        r@ == dna_of(entropy@, sender, tx_index),
{
    let payload = encode_payload(entropy, sender, tx_index);
    blake2_128_digest(payload.as_slice())
}

} // verus!
