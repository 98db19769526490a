use vstd::prelude::*;

verus! {

/// Lifetime in seconds of a token whose request names none, when the
/// configuration sets no default either.
pub const DEFAULT_DURATION: u32 = 900;

/// Port on which the service listens unless configured otherwise.
pub const DEFAULT_LISTEN_PORT: u16 = 0xB47E;

/// Key identifier placed in token headers unless configured otherwise.
pub const DEFAULT_KEY_ID: &'static str = "MAKO_STS_KEY";

/// Audience of every issued token.
pub const DEFAULT_AUDIENCE: &'static str = "internal_service";

/// Settings resolved once at startup and never changed afterwards.
pub struct Config {
    /// Upper bound, in seconds, on the lifetime a request may ask for.
    pub max_duration: Option<u32>,
    /// Lifetime, in seconds, of a token whose request asks for none.
    pub default_duration: Option<u32>,
    pub listen_port: u16,
    /// Where the PEM certificate is kept.
    pub cert_file: String,
    /// Where the PEM private key is kept.
    pub priv_key_file: String,
    /// Identifier of the signing key, written into each token header.
    pub key_id: String,
}

/// Whether `requested` is over the configured maximum, if there is one.
pub open spec fn exceeds_maximum(max_duration: Option<u32>, requested: u32) -> bool {
    match max_duration {
        Some(max) => requested > max,
        None => false,
    }
}

/// The lifetime used when a request asks for none.
pub open spec fn default_lifetime(default_duration: Option<u32>) -> u32 {
    match default_duration {
        Some(d) => d,
        None => DEFAULT_DURATION,
    }
}

/// The lifetime granted for an admissible request: the one asked for, or the
/// default where the request asks for zero seconds.
pub open spec fn granted_lifetime(default_duration: Option<u32>, requested: u32) -> u32 {
    if requested == 0 {
        default_lifetime(default_duration)
    } else {
        requested
    }
}

impl Config {
    /// A configuration with no maximum, the default lifetime, port and key id,
    /// reading its key material from the two given places.
    pub fn new(cert_file: String, priv_key_file: String) -> (r: Config)
        ensures
            r.max_duration is None,
            r.default_duration is None,
            r.listen_port == DEFAULT_LISTEN_PORT,
            r.cert_file@ == cert_file@,
            r.priv_key_file@ == priv_key_file@,
            r.key_id@ == DEFAULT_KEY_ID@,
    {
        Config {
            max_duration: None,
            default_duration: None,
            listen_port: DEFAULT_LISTEN_PORT,
            cert_file,
            priv_key_file,
            key_id: DEFAULT_KEY_ID.to_owned(),
        }
    }

    /// The lifetime used when a request asks for none.
    pub fn default_lifetime(&self) -> (r: u32)
        ensures
            r == default_lifetime(self.default_duration),
    {
        match self.default_duration {
            Some(d) => d,
            None => DEFAULT_DURATION,
        }
    }

    /// The lifetime granted for a request of `requested` seconds, or `None`
    /// where the request asks for more than the configured maximum.
    pub fn granted_lifetime(&self, requested: u32) -> (r: Option<u32>)
        ensures
            exceeds_maximum(self.max_duration, requested) ==> r is None,
            !exceeds_maximum(self.max_duration, requested) ==> r == Some(
                granted_lifetime(self.default_duration, requested),
            ),
    {
        if let Some(max) = self.max_duration {
            if requested > max {
                return None;
            }
        }
        if requested == 0 {
            Some(self.default_lifetime())
        } else {
            Some(requested)
        }
    }
}

} // verus!
