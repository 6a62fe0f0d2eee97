//! The calls into the hashing, hex and signature crates, each behind one
//! trusted item, and the address of a public key built from them.

use vstd::prelude::*;
use sha3::Digest;
use crate::entry::{PublicKey, Signature};

verus! {

/// The SHA3-256 digest of a byte string (computed by the `sha3` crate).
pub uninterp spec fn sha3_256(data: Seq<u8>) -> Seq<u8>;

/// Whether `sig` is a valid ed25519 signature of the UTF-8 bytes of `msg`
/// under the public key `pk` (strict verification of `ed25519-dalek`).
pub uninterp spec fn ed25519_verifies(sig: Seq<u8>, msg: Seq<char>, pk: Seq<u8>) -> bool;

/// The lowercase hexadecimal digit of a value below sixteen.
pub open spec fn hex_digit(v: u8) -> char {
    if v < 10 {
        (48 + v) as char
    } else {
        (87 + v) as char
    }
}

/// Lowercase hexadecimal encoding: two digits per byte, high nibble first.
pub open spec fn hex_lower(bytes: Seq<u8>) -> Seq<char>
    decreases bytes.len(),
{
    if bytes.len() == 0 {
        Seq::empty()
    } else {
        seq![hex_digit(bytes[0] / 16), hex_digit(bytes[0] % 16)] + hex_lower(bytes.drop_first())
    }
}

/// A hex encoding has two digits per byte.
pub proof fn lemma_hex_lower_len(bytes: Seq<u8>)
    ensures
        hex_lower(bytes).len() == 2 * bytes.len(),
    decreases bytes.len(),
{
    if bytes.len() > 0 {
        lemma_hex_lower_len(bytes.drop_first());
    }
}

/// The address of a public key: the lowercase hex encoding of the SHA3-256
/// digest of its bytes.
pub open spec fn address_of(pub_key: PublicKey) -> Seq<char> {
    hex_lower(sha3_256(pub_key.0@))
}

/// Trusted: calls `<sha3::Sha3_256 as Digest>::digest`, which returns the
/// 32-byte SHA3-256 digest of `data`; claimed: the result is the digest named
/// `sha3_256` of the input bytes, and it is 32 bytes long.
#[verifier::external_body]
fn sha3_256_digest(data: &[u8]) -> (r: Vec<u8>)
    ensures
        r@ == sha3_256(data@),
        r@.len() == 32,
{
    sha3::Sha3_256::digest(data).to_vec()
}

/// Trusted: calls `hex::encode`, which writes each byte as two lowercase hex
/// digits, high nibble first; claimed: the result is `hex_lower` of the input.
#[verifier::external_body]
fn hex_encode(data: &[u8]) -> (r: String)
    ensures
        r@ == hex_lower(data@),
{
    hex::encode(data)
}

/// Trusted: decodes the key with `ed25519_dalek::VerifyingKey::from_bytes`
/// and checks the signature with `VerifyingKey::verify_strict` over the UTF-8
/// bytes of `msg`; a key that does not decode verifies nothing. Claimed: the
/// result is the named outcome `ed25519_verifies` of the three inputs.
#[verifier::external_body]
pub(crate) fn verify_detached(sig: &Signature, msg: &String, pub_key: &PublicKey) -> (r: bool)
    ensures
        r == ed25519_verifies(sig.0@, msg@, pub_key.0@),
{
    match ed25519_dalek::VerifyingKey::from_bytes(&pub_key.0) {
        Ok(key) => key.verify_strict(msg.as_bytes(), &ed25519_dalek::Signature::from_bytes(&sig.0)).is_ok(),
        Err(_) => false,
    }
}

/// Builds the address of a public key: the lowercase hex encoding of the
/// SHA3-256 digest of the key's bytes.
pub fn construct_address(pub_key: &PublicKey) -> (r: String)
    ensures
        r@ == address_of(*pub_key),
        r@.len() == 64,
{
    let digest = sha3_256_digest(pub_key.0.as_slice());
    proof {
        lemma_hex_lower_len(digest@);
    }
    hex_encode(digest.as_slice())
}

} // verus!
