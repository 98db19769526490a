use vstd::prelude::*;
use vstd::string::*;
use vstd::utf8::encode_utf8;
use crate::crypto::{b64url_of, base64url, sign_message};
use crate::json::{append_decimal, append_json_string, decimal, json_string};
use crate::keys::{thumbprint_of, KeyMaterial, SigningAlgorithm};

verus! {

/// The claim set of a token.
#[derive(Debug, Default)]
pub struct Claims {
    /// Audience.
    pub aud: String,
    /// Expiry, in Unix seconds.
    pub exp: u64,
    /// Issue time, in Unix seconds.
    pub iat: u64,
}

/// Why a claim set could not be built.
#[derive(Clone, Copy, Debug, PartialEq, Eq, Structural)]
pub enum ClaimsError {
    /// The lifetime is zero seconds, so the token would expire as it is issued.
    ZeroDuration,
    /// The expiry does not fit in 64 bits.
    ExpiryOverflow,
}

/// Why a token could not be signed.
#[derive(Clone, Copy, Debug, PartialEq, Eq, Structural)]
pub enum SignError {
    /// The signing key refused the message.
    Crypto,
}

impl Claims {
    /// The claims of a token for `audience`, issued at `now` and valid for
    /// `duration` seconds.
    pub fn new(audience: &str, now: u64, duration: u32) -> (r: Result<Claims, ClaimsError>)
        ensures
            duration == 0 ==> r == Err::<Claims, ClaimsError>(ClaimsError::ZeroDuration),
            duration > 0 && now + duration > u64::MAX ==> r == Err::<Claims, ClaimsError>(
                ClaimsError::ExpiryOverflow,
            ),
            duration > 0 && now + duration <= u64::MAX ==> r is Ok
                && r->Ok_0.aud@ == audience@
                && r->Ok_0.iat == now
                && r->Ok_0.exp == now + duration,
    {
        if duration == 0 {
            return Err(ClaimsError::ZeroDuration);
        }
        match now.checked_add(duration as u64) {
            Some(exp) => Ok(Claims { aud: audience.to_owned(), exp, iat: now }),
            None => Err(ClaimsError::ExpiryOverflow),
        }
    }
}

/// The `alg` header value of an algorithm.
pub open spec fn algorithm_name(alg: SigningAlgorithm) -> Seq<char> {
    match alg {
        SigningAlgorithm::Rs256 => "RS256"@,
        SigningAlgorithm::Es256 => "ES256"@,
    }
}

/// The JSON of a token header naming the algorithm, the key identifier and
/// the certificate thumbprint.
pub open spec fn header_json(alg: SigningAlgorithm, kid: Seq<char>, thumbprint: Seq<char>) -> Seq<char> {
    "{\"typ\":\"JWT\",\"alg\":\""@ + algorithm_name(alg) + "\",\"kid\":"@ + json_string(kid)
        + ",\"x5t#S256\":"@ + json_string(thumbprint) + "}"@
}

/// The JSON of a claim set.
pub open spec fn claims_json(aud: Seq<char>, exp: nat, iat: nat) -> Seq<char> {
    "{\"aud\":"@ + json_string(aud) + ",\"exp\":"@ + decimal(exp) + ",\"iat\":"@ + decimal(iat) + "}"@
}

/// One segment of a compact token: the UTF-8 bytes of a JSON text, in
/// unpadded URL-safe base64.
pub open spec fn segment(json: Seq<char>) -> Seq<char> {
    b64url_of(encode_utf8(json))
}

/// The text a token's signature covers: the encoded header and the encoded
/// claims, joined by a dot.
pub open spec fn signing_input(
    alg: SigningAlgorithm,
    kid: Seq<char>,
    thumbprint: Seq<char>,
    aud: Seq<char>,
    exp: nat,
    iat: nat,
) -> Seq<char> {
    segment(header_json(alg, kid, thumbprint)) + seq!['.'] + segment(claims_json(aud, exp, iat))
}

/// A compact token: the signing input, a dot and the encoded signature.
pub open spec fn compact(signing_input: Seq<char>, signature: Seq<char>) -> Seq<char> {
    signing_input + seq!['.'] + signature
}

/// The header JSON for the given algorithm, key identifier and thumbprint.
pub fn header_to_json(alg: SigningAlgorithm, kid: &str, thumbprint: &str) -> (r: String)
    ensures
        r@ == header_json(alg, kid@, thumbprint@),
{
    let mut out = String::from_str("{\"typ\":\"JWT\",\"alg\":\"");
    match alg {
        SigningAlgorithm::Rs256 => out.append("RS256"),
        SigningAlgorithm::Es256 => out.append("ES256"),
    }
    out.append("\",\"kid\":");
    append_json_string(&mut out, kid);
    out.append(",\"x5t#S256\":");
    append_json_string(&mut out, thumbprint);
    out.append("}");
    out
}

impl Claims {
    /// The claim set as JSON.
    pub fn to_json(&self) -> (r: String)
        ensures
            r@ == claims_json(self.aud@, self.exp as nat, self.iat as nat),
    {
        let mut out = String::from_str("{\"aud\":");
        append_json_string(&mut out, self.aud.as_str());
        out.append(",\"exp\":");
        append_decimal(&mut out, self.exp);
        out.append(",\"iat\":");
        append_decimal(&mut out, self.iat);
        out.append("}");
        out
    }
}

/// Joins a signing input and an encoded signature into a compact token.
pub fn assemble_token(signing_input: String, signature: &str) -> (r: String)
    ensures
        r@ == compact(signing_input@, signature@),
{
    let mut token = signing_input;
    token.append(".");
    token.append(signature);
    proof {
        reveal_strlit(".");
    }
    token
}

/// The text that the signature of a token for `claims` covers: the header
/// for `key_material` and the claims, each encoded, joined by a dot.
pub fn signing_input_text(claims: &Claims, key_material: &KeyMaterial) -> (r: String)
    ensures
        r@ == signing_input(
            key_material@.algorithm,
            key_material@.key_id,
            thumbprint_of(key_material@.certificate_der),
            claims.aud@,
            claims.exp as nat,
            claims.iat as nat,
        ),
{
    let header = header_to_json(key_material.algorithm(), key_material.key_id(), key_material.thumbprint());
    let claims_text = claims.to_json();
    let mut input = base64url(header.as_str().as_bytes());
    input.append(".");
    let encoded_claims = base64url(claims_text.as_str().as_bytes());
    input.append(encoded_claims.as_str());
    proof {
        reveal_strlit(".");
    }
    assert(input@ =~= signing_input(
        key_material@.algorithm,
        key_material@.key_id,
        thumbprint_of(key_material@.certificate_der),
        claims.aud@,
        claims.exp as nat,
        claims.iat as nat,
    ));
    input
}

/// Signs `claims` with `key_material`: the signature covers
/// `signing_input_text(claims, key_material)` and is made with the key's
/// algorithm. A signing failure is reported, never retried.
pub fn sign(claims: &Claims, key_material: &KeyMaterial) -> (r: Result<String, SignError>)
    ensures
        r is Ok ==> exists|signature: Seq<char>|
            r->Ok_0@ == compact(
                signing_input(
                    key_material@.algorithm,
                    key_material@.key_id,
                    thumbprint_of(key_material@.certificate_der),
                    claims.aud@,
                    claims.exp as nat,
                    claims.iat as nat,
                ),
                signature,
            ),
        r is Err ==> r->Err_0 == SignError::Crypto,
{
    let input = signing_input_text(claims, key_material);
    match sign_message(input.as_str().as_bytes(), key_material.encoding_key(), key_material.algorithm()) {
        Ok(signature) => {
            let ghost expected = input@;
            let token = assemble_token(input, signature.as_str());
            assert(token@ == compact(expected, signature@));
            Ok(token)
        },
        Err(_) => Err(SignError::Crypto),
    }
}

} // verus!
