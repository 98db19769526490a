use vstd::prelude::*;
use crate::config::{exceeds_maximum, granted_lifetime, Config, DEFAULT_AUDIENCE};
use crate::jwt::{compact, sign, signing_input, Claims, ClaimsError, SignError};
use crate::keys::{thumbprint_of, KeyMaterial};

verus! {

/// A request for a token.
#[derive(Clone, Copy, Debug, PartialEq, Eq, Structural)]
pub struct TokenRequest {
    /// Requested lifetime in seconds; zero asks for the default.
    pub duration: u32,
}

/// An issued token.
#[derive(Debug)]
pub struct TokenResponse {
    /// Lifetime granted, in seconds.
    pub duration: u32,
    /// The signed token in compact serialization.
    pub token: String,
}

/// A fault inside the service, not caused by the request.
#[derive(Clone, Copy, Debug, PartialEq, Eq, Structural)]
pub enum InternalError {
    Claims(ClaimsError),
    Signing(SignError),
}

/// Why a request got no token.
#[derive(Clone, Copy, Debug, PartialEq, Eq, Structural)]
pub enum ServiceError {
    /// The request asks for more than the configured maximum lifetime.
    InvalidArgument,
    /// The service could not build or sign the token.
    Internal(InternalError),
}

impl ServiceError {
    /// A message for the caller, which names no key material.
    pub fn message(&self) -> (r: &'static str)
        ensures
            r@ == match *self {
                ServiceError::InvalidArgument => "requested duration exceeds the maximum"@,
                ServiceError::Internal(InternalError::Claims(_)) => "unable to build token claims"@,
                ServiceError::Internal(InternalError::Signing(_)) => "unable to create token"@,
            },
    {
        match *self {
            ServiceError::InvalidArgument => "requested duration exceeds the maximum",
            ServiceError::Internal(InternalError::Claims(_)) => "unable to build token claims",
            ServiceError::Internal(InternalError::Signing(_)) => "unable to create token",
        }
    }
}

/// Issues tokens signed with key material loaded once at startup.
pub struct TokenService {
    config: Config,
    key_material: KeyMaterial,
}

impl TokenService {
    pub closed spec fn spec_config(&self) -> Config {
        self.config
    }

    pub closed spec fn spec_key_material(&self) -> KeyMaterial {
        self.key_material
    }

    pub fn new(config: Config, key_material: KeyMaterial) -> (r: TokenService)
        ensures
            r.spec_config() == config,
            r.spec_key_material() == key_material,
    {
        TokenService { config, key_material }
    }

    pub fn config(&self) -> (r: &Config)
        ensures
            *r == self.spec_config(),
    {
        &self.config
    }

    pub fn key_material(&self) -> (r: &KeyMaterial)
        ensures
            *r == self.spec_key_material(),
    {
        &self.key_material
    }

    /// Issues a token for `request` at time `now` (Unix seconds). A request
    /// over the maximum lifetime is refused; otherwise the token lives for
    /// the granted lifetime, its header names the loaded key's algorithm,
    /// identifier and certificate thumbprint, and the response reports the
    /// granted lifetime.
    pub fn get_token(&self, request: TokenRequest, now: u64) -> (r: Result<TokenResponse, ServiceError>)
        ensures
            exceeds_maximum(self.spec_config().max_duration, request.duration) ==> r
                == Err::<TokenResponse, ServiceError>(ServiceError::InvalidArgument),
            !exceeds_maximum(self.spec_config().max_duration, request.duration) ==> ({
                let granted = granted_lifetime(self.spec_config().default_duration, request.duration);
                let km = self.spec_key_material()@;
                &&& granted == 0 ==> r == Err::<TokenResponse, ServiceError>(
                    ServiceError::Internal(InternalError::Claims(ClaimsError::ZeroDuration)),
                )
                &&& granted > 0 && now + granted > u64::MAX ==> r == Err::<TokenResponse, ServiceError>(
                    ServiceError::Internal(InternalError::Claims(ClaimsError::ExpiryOverflow)),
                )
                &&& granted > 0 && now + granted <= u64::MAX ==> (r is Ok || r
                    == Err::<TokenResponse, ServiceError>(
                    ServiceError::Internal(InternalError::Signing(SignError::Crypto)),
                ))
                &&& r is Err ==> r->Err_0 is Internal
                &&& r is Ok ==> r->Ok_0.duration == granted && exists|signature: Seq<char>|
                    r->Ok_0.token@ == #[trigger] compact(
                        signing_input(
                            km.algorithm,
                            km.key_id,
                            thumbprint_of(km.certificate_der),
                            DEFAULT_AUDIENCE@,
                            (now + granted) as nat,
                            now as nat,
                        ),
                        signature,
                    )
            }),
    {
        let granted = match self.config.granted_lifetime(request.duration) {
            Some(d) => d,
            None => return Err(ServiceError::InvalidArgument),
        };
        let claims = match Claims::new(DEFAULT_AUDIENCE, now, granted) {
            Ok(claims) => claims,
            Err(e) => return Err(ServiceError::Internal(InternalError::Claims(e))),
        };
        match sign(&claims, &self.key_material) {
            Ok(token) => {
                proof {
                    let km = self.key_material@;
                    let signature = choose|signature: Seq<char>|
                        token@ == compact(
                            signing_input(
                                km.algorithm,
                                km.key_id,
                                thumbprint_of(km.certificate_der),
                                claims.aud@,
                                claims.exp as nat,
                                claims.iat as nat,
                            ),
                            signature,
                        );
                    assert(token@ == compact(
                        signing_input(
                            km.algorithm,
                            km.key_id,
                            thumbprint_of(km.certificate_der),
                            DEFAULT_AUDIENCE@,
                            (now + granted) as nat,
                            now as nat,
                        ),
                        signature,
                    ));
                }
                Ok(TokenResponse { duration: granted, token })
            },
            Err(e) => Err(ServiceError::Internal(InternalError::Signing(e))),
        }
    }
}

} // verus!
