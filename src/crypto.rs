//! The calls into openssl, jsonwebtoken and base64, each behind a contract
//! that states what the outside crate documents of it.
use vstd::prelude::*;
use crate::keys::{KeyType, SigningAlgorithm};
use jsonwebtoken::EncodingKey;
use openssl::error::ErrorStack;
use openssl::x509::X509;

verus! {

#[verifier::external_type_specification]
#[verifier::external_body]
pub struct ExX509(X509);

#[verifier::external_type_specification]
#[verifier::external_body]
pub struct ExErrorStack(ErrorStack);

#[verifier::external_type_specification]
#[verifier::external_body]
pub struct ExEncodingKey(EncodingKey);

#[verifier::external_type_specification]
#[verifier::external_body]
pub struct ExJwtError(jsonwebtoken::errors::Error);

/// The SHA-256 digest of `data`.
pub uninterp spec fn sha256_of(data: Seq<u8>) -> Seq<u8>;

/// `data` in base64 with the URL-safe alphabet and no padding.
pub uninterp spec fn b64url_of(data: Seq<u8>) -> Seq<char>;

/// The DER encoding of the certificate that `pem` holds, or `None` where
/// openssl cannot read one from it.
pub uninterp spec fn pem_certificate_der(pem: Seq<u8>) -> Option<Seq<u8>>;

/// The type of the unencrypted private key that `pem` holds, as openssl
/// reports it, or `None` where openssl cannot read one from it.
pub uninterp spec fn pem_key_type(pem: Seq<u8>) -> Option<KeyType>;

/// Whether jsonwebtoken reads an RSA private key from `pem`.
pub uninterp spec fn rsa_pem_accepted(pem: Seq<u8>) -> bool;

/// Whether jsonwebtoken reads a PKCS#8 elliptic-curve private key from `pem`.
pub uninterp spec fn ec_pem_accepted(pem: Seq<u8>) -> bool;

/// The length of unpadded base64 of `n` bytes: four characters for each
/// three bytes, and one more than the bytes left over, if any are.
pub open spec fn b64url_len(n: nat) -> nat {
    4 * (n / 3) + if n % 3 == 0 {
        0nat
    } else {
        (n % 3 + 1) as nat
    }
}

/// A character of the URL-safe base64 alphabet.
pub open spec fn is_b64url_char(c: char) -> bool {
    ('A' <= c && c <= 'Z') || ('a' <= c && c <= 'z') || ('0' <= c && c <= '9') || c == '-' || c
        == '_'
}

/// Relies on openssl's `X509::from_pem`, then `X509::to_der` on the parsed
/// certificate. openssl takes the input's length as a C `int`.
#[verifier::external_body]
pub(crate) fn parse_certificate(pem: &[u8]) -> (r: Result<(X509, Vec<u8>), ErrorStack>)
    requires
        pem@.len() <= i32::MAX,
    ensures
        r is Ok <==> pem_certificate_der(pem@) is Some,
        r is Ok ==> pem_certificate_der(pem@) == Some(r->Ok_0.1@),
{
    let certificate = X509::from_pem(pem)?;
    let der = certificate.to_der()?;
    Ok((certificate, der))
}

/// Relies on `openssl::sha::sha256`: the 32-byte digest, which depends on the
/// data alone.
#[verifier::external_body]
pub(crate) fn sha256(data: &[u8]) -> (r: Vec<u8>)
    ensures
        r@ == sha256_of(data@),
        r@.len() == 32,
{
    openssl::sha::sha256(data).to_vec()
}

/// Relies on base64's `encode_config` with the URL-safe character set and
/// padding switched off: its `encoded_size` gives the length, its
/// `URL_SAFE_ENCODE` table the alphabet.
#[verifier::external_body]
pub(crate) fn base64url(data: &[u8]) -> (r: String)
    ensures
        r@ == b64url_of(data@),
        r@.len() == b64url_len(data@.len()),
        forall|i: int| 0 <= i < r@.len() ==> is_b64url_char(#[trigger] r@[i]),
{
    base64::encode_config(data, base64::Config::new(base64::CharacterSet::UrlSafe, false))
}

/// Relies on openssl's `PKey::private_key_from_pem_passphrase` with an empty
/// passphrase, so that an encrypted key is refused rather than prompted for,
/// and on `PKey::id` for the type. openssl takes the input's length as a C
/// `int`.
#[verifier::external_body]
pub(crate) fn private_key_type(pem: &[u8]) -> (r: Result<KeyType, ErrorStack>)
    requires
        pem@.len() <= i32::MAX,
    ensures
        r is Ok <==> pem_key_type(pem@) is Some,
        r is Ok ==> pem_key_type(pem@) == Some(r->Ok_0),
{
    match openssl::pkey::PKey::private_key_from_pem_passphrase(pem, b"") {
        Ok(key) => Ok(match key.id() {
            openssl::pkey::Id::RSA => KeyType::Rsa,
            openssl::pkey::Id::EC => KeyType::Ec,
            other => KeyType::Other(other.as_raw()),
        }),
        Err(e) => Err(e),
    }
}

/// Relies on jsonwebtoken's `EncodingKey::from_rsa_pem`: an RSA signing key.
#[verifier::external_body]
pub(crate) fn rsa_encoding_key(pem: &[u8]) -> (r: Result<EncodingKey, jsonwebtoken::errors::Error>)
    ensures
        r is Ok <==> rsa_pem_accepted(pem@),
{
    EncodingKey::from_rsa_pem(pem)
}

/// Relies on jsonwebtoken's `EncodingKey::from_ec_pem`: an ECDSA signing key
/// from a PKCS#8 PEM.
#[verifier::external_body]
pub(crate) fn ec_encoding_key(pem: &[u8]) -> (r: Result<EncodingKey, jsonwebtoken::errors::Error>)
    ensures
        r is Ok <==> ec_pem_accepted(pem@),
{
    EncodingKey::from_ec_pem(pem)
}

/// Relies on `jsonwebtoken::crypto::sign`: the base64url signature of
/// `message`. ECDSA signatures are randomised, so nothing is stated of it.
#[verifier::external_body]
pub(crate) fn sign_message(
    message: &[u8],
    key: &EncodingKey,
    algorithm: SigningAlgorithm,
) -> (r: Result<String, jsonwebtoken::errors::Error>) {
    let algorithm = match algorithm {
        SigningAlgorithm::Rs256 => jsonwebtoken::Algorithm::RS256,
        SigningAlgorithm::Es256 => jsonwebtoken::Algorithm::ES256,
    };
    jsonwebtoken::crypto::sign(message, key, algorithm)
}

} // verus!
