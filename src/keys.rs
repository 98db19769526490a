use vstd::prelude::*;
use crate::crypto::{
    b64url_len, b64url_of, base64url, ec_encoding_key, ec_pem_accepted, parse_certificate,
    pem_certificate_der, pem_key_type, private_key_type, rsa_encoding_key, rsa_pem_accepted,
    sha256, sha256_of,
};
use jsonwebtoken::EncodingKey;
use openssl::x509::X509;

verus! {

/// The type of a parsed private key.
#[derive(Clone, Copy, Debug, PartialEq, Eq, Structural)]
pub enum KeyType {
    Rsa,
    Ec,
    /// Any other type, by openssl's numeric identifier.
    Other(i32),
}

/// The signature algorithm of issued tokens.
#[derive(Clone, Copy, Debug, PartialEq, Eq, Structural)]
pub enum SigningAlgorithm {
    /// RSASSA-PKCS1-v1_5 with SHA-256.
    Rs256,
    /// ECDSA on P-256 with SHA-256.
    Es256,
}

/// A private key of a type that cannot sign tokens.
#[derive(Clone, Copy, Debug, PartialEq, Eq, Structural)]
pub struct UnsupportedKeyType {
    /// openssl's numeric identifier of the key type.
    pub key_type: i32,
}

/// A diagnostic that names no key material.
#[derive(Debug)]
pub struct KeyError {
    message: String,
}

/// Why key material could not be loaded. Each of these stops startup.
#[derive(Clone, Copy, Debug, PartialEq, Eq, Structural)]
pub enum KeyLoadError {
    /// The certificate is not a PEM-encoded X.509 certificate.
    Certificate,
    /// The private key is not a PEM-encoded private key of its declared type.
    PrivateKey,
    /// The private key is neither RSA nor elliptic-curve.
    UnsupportedKeyType(UnsupportedKeyType),
}

/// The algorithm that signs with a key of type `t`, if any does.
pub open spec fn algorithm_for(t: KeyType) -> Option<SigningAlgorithm> {
    match t {
        KeyType::Rsa => Some(SigningAlgorithm::Rs256),
        KeyType::Ec => Some(SigningAlgorithm::Es256),
        KeyType::Other(_) => None,
    }
}

/// The thumbprint of a certificate: its SHA-256 digest in unpadded
/// URL-safe base64.
pub open spec fn thumbprint_of(certificate_der: Seq<u8>) -> Seq<char> {
    b64url_of(sha256_of(certificate_der))
}

/// Whether `pem` holds a private key that can sign tokens: an RSA key that
/// jsonwebtoken reads as RSA, or an elliptic-curve key that it reads as EC.
pub open spec fn private_key_loads(pem: Seq<u8>) -> bool {
    match pem_key_type(pem) {
        Some(KeyType::Rsa) => rsa_pem_accepted(pem),
        Some(KeyType::Ec) => ec_pem_accepted(pem),
        _ => false,
    }
}

/// The error for a private key that does not load: the key's type where it
/// is neither RSA nor elliptic-curve, else a malformed key.
pub open spec fn private_key_error(pem: Seq<u8>) -> KeyLoadError {
    match pem_key_type(pem) {
        Some(KeyType::Other(id)) => KeyLoadError::UnsupportedKeyType(UnsupportedKeyType { key_type: id }),
        _ => KeyLoadError::PrivateKey,
    }
}

/// The diagnostic reported for a load error.
pub open spec fn load_error_message(e: KeyLoadError) -> Seq<char> {
    match e {
        KeyLoadError::Certificate => "unable to read the certificate"@,
        KeyLoadError::PrivateKey => "unable to read the private key"@,
        KeyLoadError::UnsupportedKeyType(_) => "unsupported private key type"@,
    }
}

impl View for KeyError {
    type V = Seq<char>;

    closed spec fn view(&self) -> Seq<char> {
        self.message@
    }
}

impl KeyError {
    pub fn new(message: &str) -> (r: KeyError)
        ensures
            r@ == message@,
    {
        KeyError { message: message.to_owned() }
    }

    pub fn message(&self) -> (r: &str)
        ensures
            r@ == self@,
    {
        self.message.as_str()
    }
}

impl KeyLoadError {
    /// A diagnostic for startup to report.
    pub fn describe(&self) -> (r: KeyError)
        ensures
            r@ == load_error_message(*self),
    {
        match self {
            KeyLoadError::Certificate => KeyError::new("unable to read the certificate"),
            KeyLoadError::PrivateKey => KeyError::new("unable to read the private key"),
            KeyLoadError::UnsupportedKeyType(_) => KeyError::new("unsupported private key type"),
        }
    }
}

/// The algorithm for a key of type `key_type`, or the error that rejects it.
pub fn signing_algorithm(key_type: KeyType) -> (r: Result<SigningAlgorithm, UnsupportedKeyType>)
    ensures
        match algorithm_for(key_type) {
            Some(alg) => r == Ok::<SigningAlgorithm, UnsupportedKeyType>(alg),
            None => r == Err::<SigningAlgorithm, UnsupportedKeyType>(
                UnsupportedKeyType { key_type: key_type->Other_0 },
            ),
        },
{
    match key_type {
        KeyType::Rsa => Ok(SigningAlgorithm::Rs256),
        KeyType::Ec => Ok(SigningAlgorithm::Es256),
        KeyType::Other(id) => Err(UnsupportedKeyType { key_type: id }),
    }
}

/// A parsed X.509 certificate with its DER encoding.
pub struct Certificate {
    x509: X509,
    der: Vec<u8>,
}

impl View for Certificate {
    type V = Seq<u8>;

    closed spec fn view(&self) -> Seq<u8> {
        self.der@
    }
}

impl Certificate {
    /// The DER encoding.
    pub fn der(&self) -> (r: &[u8])
        ensures
            r@ == self@,
    {
        self.der.as_slice()
    }

    pub fn x509(&self) -> &X509 {
        &self.x509
    }
}

/// A private key that can sign tokens, with the algorithm it signs with.
pub struct SigningKey {
    key: EncodingKey,
    algorithm: SigningAlgorithm,
}

impl SigningKey {
    pub closed spec fn spec_algorithm(&self) -> SigningAlgorithm {
        self.algorithm
    }

    pub fn algorithm(&self) -> (r: SigningAlgorithm)
        ensures
            r == self.spec_algorithm(),
    {
        self.algorithm
    }
}

/// Parses a PEM-encoded X.509 certificate.
pub fn load_cert(pem: &[u8]) -> (r: Result<Certificate, KeyLoadError>)
    requires
        pem@.len() <= i32::MAX,
    ensures
        r is Ok <==> pem_certificate_der(pem@) is Some,
        r is Ok ==> pem_certificate_der(pem@) == Some(r->Ok_0@),
        r is Err ==> r->Err_0 == KeyLoadError::Certificate,
{
    match parse_certificate(pem) {
        Ok((x509, der)) => Ok(Certificate { x509, der }),
        Err(_) => Err(KeyLoadError::Certificate),
    }
}

/// Parses a PEM-encoded private key and prepares it for signing, with RS256
/// for an RSA key and ES256 for an elliptic-curve key. A key of any other
/// type is refused with its type.
pub fn load_private_key(pem: &[u8]) -> (r: Result<SigningKey, KeyLoadError>)
    requires
        pem@.len() <= i32::MAX,
    ensures
        r is Ok <==> private_key_loads(pem@),
        r is Ok ==> algorithm_for(pem_key_type(pem@)->Some_0) == Some(r->Ok_0.spec_algorithm()),
        r is Err ==> r->Err_0 == private_key_error(pem@),
{
    let key_type = match private_key_type(pem) {
        Ok(t) => t,
        Err(_) => return Err(KeyLoadError::PrivateKey),
    };
    let algorithm = match signing_algorithm(key_type) {
        Ok(alg) => alg,
        Err(unsupported) => return Err(KeyLoadError::UnsupportedKeyType(unsupported)),
    };
    let key = match algorithm {
        SigningAlgorithm::Rs256 => rsa_encoding_key(pem),
        SigningAlgorithm::Es256 => ec_encoding_key(pem),
    };
    match key {
        Ok(key) => Ok(SigningKey { key, algorithm }),
        Err(_) => Err(KeyLoadError::PrivateKey),
    }
}

/// What key material holds, as the contracts see it.
pub struct KeyMaterialView {
    /// The DER encoding of the certificate.
    pub certificate_der: Seq<u8>,
    pub algorithm: SigningAlgorithm,
    pub key_id: Seq<char>,
}

/// The certificate and private key that sign tokens, with the certificate's
/// thumbprint computed once and the key's identifier.
pub struct KeyMaterial {
    certificate: Certificate,
    key: SigningKey,
    thumbprint: String,
    key_id: String,
}

impl View for KeyMaterial {
    type V = KeyMaterialView;

    closed spec fn view(&self) -> KeyMaterialView {
        KeyMaterialView {
            certificate_der: self.certificate@,
            algorithm: self.key.algorithm,
            key_id: self.key_id@,
        }
    }
}

/// Key material loaded twice from the same certificate bytes carries the
/// same thumbprint both times.
pub proof fn lemma_same_certificate_same_thumbprint(
    cert_pem: Seq<u8>,
    first: KeyMaterialView,
    second: KeyMaterialView,
)
    requires
        pem_certificate_der(cert_pem) is Some,
        first.certificate_der == pem_certificate_der(cert_pem)->Some_0,
        second.certificate_der == pem_certificate_der(cert_pem)->Some_0,
    ensures
        thumbprint_of(first.certificate_der) == thumbprint_of(second.certificate_der),
{
}

impl KeyMaterial {
    #[verifier::type_invariant]
    spec fn thumbprint_matches(&self) -> bool {
        &&& self.thumbprint@ == thumbprint_of(self.certificate@)
        &&& self.thumbprint@.len() == 43
    }

    /// Puts a certificate and a signing key together under `key_id`,
    /// computing the certificate's thumbprint.
    pub fn new(certificate: Certificate, key: SigningKey, key_id: String) -> (r: KeyMaterial)
        ensures
            r@.certificate_der == certificate@,
            r@.algorithm == key.spec_algorithm(),
            r@.key_id == key_id@,
    {
        let digest = sha256(certificate.der());
        let thumbprint = base64url(digest.as_slice());
        assert(b64url_len(32) == 43);
        KeyMaterial { certificate, key, thumbprint, key_id }
    }

    /// Loads key material from a PEM certificate and a PEM private key. Every
    /// failure is reported; nothing partial is returned.
    pub fn load(cert_pem: &[u8], key_pem: &[u8], key_id: &str) -> (r: Result<KeyMaterial, KeyLoadError>)
        requires
            cert_pem@.len() <= i32::MAX,
            key_pem@.len() <= i32::MAX,
        ensures
            r is Ok <==> pem_certificate_der(cert_pem@) is Some && private_key_loads(key_pem@),
            r is Ok ==> {
                &&& r->Ok_0@.certificate_der == pem_certificate_der(cert_pem@)->Some_0
                &&& algorithm_for(pem_key_type(key_pem@)->Some_0) == Some(r->Ok_0@.algorithm)
                &&& r->Ok_0@.key_id == key_id@
            },
            r is Err ==> r->Err_0 == if pem_certificate_der(cert_pem@) is None {
                KeyLoadError::Certificate
            } else {
                private_key_error(key_pem@)
            },
    {
        let certificate = match load_cert(cert_pem) {
            Ok(c) => c,
            Err(e) => return Err(e),
        };
        let key = match load_private_key(key_pem) {
            Ok(k) => k,
            Err(e) => return Err(e),
        };
        Ok(KeyMaterial::new(certificate, key, key_id.to_owned()))
    }

    /// The certificate's thumbprint, fixed when the material was loaded.
    pub fn thumbprint(&self) -> (r: &str)
        ensures
            r@ == thumbprint_of(self@.certificate_der),
            r@.len() == 43,
    {
        proof {
            use_type_invariant(self);
        }
        self.thumbprint.as_str()
    }

    pub fn key_id(&self) -> (r: &str)
        ensures
            r@ == self@.key_id,
    {
        self.key_id.as_str()
    }

    pub fn algorithm(&self) -> (r: SigningAlgorithm)
        ensures
            r == self@.algorithm,
    {
        self.key.algorithm
    }

    pub fn certificate(&self) -> (r: &Certificate)
        ensures
            r@ == self@.certificate_der,
    {
        &self.certificate
    }

    pub(crate) fn encoding_key(&self) -> &EncodingKey {
        &self.key.key
    }
}

} // verus!
