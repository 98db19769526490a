//! A security token service: loads a certificate and its private key, binds
//! issued tokens to the certificate through a SHA-256 thumbprint, and signs
//! short-lived JSON Web Tokens on request.
pub mod config;
pub mod crypto;
pub mod json;
pub mod jwt;
pub mod keys;
pub mod service;

pub use config::{Config, DEFAULT_AUDIENCE, DEFAULT_DURATION, DEFAULT_KEY_ID, DEFAULT_LISTEN_PORT};
pub use jwt::{signing_input_text, Claims, ClaimsError, SignError};
pub use keys::{
    load_cert, load_private_key, Certificate, KeyError, KeyLoadError, KeyMaterial, KeyType, SigningAlgorithm,
    SigningKey, UnsupportedKeyType,
};
pub use service::{InternalError, ServiceError, TokenRequest, TokenResponse, TokenService};
