//! The server's asymmetric key material: an RSA key pair generated once at
//! startup and the DER encoding of its public half, which is sent to clients
//! during authentication. Both are computed here through the outside
//! cryptography crates and stored immutably by the shared state cell.

use vstd::prelude::*;
use rand::rngs::OsRng;
use rsa::traits::PublicKeyParts;

verus! {

/// External type: `rsa::RsaPrivateKey`, the server's key pair. Opaque to the
/// core; it is generated once and carried, never inspected.
#[verifier::external_type_specification]
#[verifier::external_body]
pub struct ExRsaPrivateKey(rsa::RsaPrivateKey);

/// External type: `rsa::Error`, what key generation reports on failure.
#[verifier::external_type_specification]
#[verifier::external_body]
pub struct ExRsaError(rsa::Error);

/// The DER encoding of the public key whose modulus and exponent have the
/// given big-endian bytes. The encoding is fixed by the DER format, so it is
/// a function of those bytes alone; its exact shape is left unstated and
/// [`der_encode_public_key`] is the one way to compute it.
pub uninterp spec fn public_key_der_of(n: Seq<u8>, e: Seq<u8>) -> Seq<u8>;

/// Relies on `rsa::RsaPrivateKey::new`: generates a fresh key pair of the
/// given bit size from the operating system's randomness source. The result
/// depends on that randomness, so nothing is promised of the value; too
/// small a bit size is reported as an error, not a panic.
#[verifier::external_body]
pub fn generate_rsa_key(bits: usize) -> (r: Result<rsa::RsaPrivateKey, rsa::Error>) {
    rsa::RsaPrivateKey::new(&mut OsRng, bits)
}

/// Relies on `rsa::traits::PublicKeyParts::n` (and
/// `BigUint::to_bytes_be` to turn the value into bytes): the big-endian
/// bytes of the key's public modulus. The key is opaque to the core, so
/// nothing further is stated of the bytes.
#[verifier::external_body]
pub fn rsa_modulus_be(key: &rsa::RsaPrivateKey) -> (r: Vec<u8>) {
    key.n().to_bytes_be()
}

/// Relies on `rsa::traits::PublicKeyParts::e` (and `BigUint::to_bytes_be`):
/// the big-endian bytes of the key's public exponent.
#[verifier::external_body]
pub fn rsa_exponent_be(key: &rsa::RsaPrivateKey) -> (r: Vec<u8>) {
    key.e().to_bytes_be()
}

/// Relies on `rsa_der::public_key_to_der`: encodes a public key, given as
/// big-endian modulus and exponent bytes, in DER. The encoding is a pure
/// function of the two byte strings, named here [`public_key_der_of`].
#[verifier::external_body]
pub fn der_encode_public_key(n: &Vec<u8>, e: &Vec<u8>) -> (r: Vec<u8>)
    ensures
        r@ == public_key_der_of(n@, e@),
{
    rsa_der::public_key_to_der(n.as_slice(), e.as_slice())
}

} // verus!
