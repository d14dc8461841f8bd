//! Settings for signing tokens.

use vstd::prelude::*;
use vstd::string::*;

verus! {

/// Seconds for which a token is valid.
pub const TOKEN_LIFETIME: i64 = 86_400;

/// The secret that signs tokens, and how long a token lasts.
pub struct AuthConfig {
    pub secret: String,
    pub expires_in: i64,
}

impl AuthConfig {
    /// The settings for the secret `configured`, or for the stand-in secret
    /// where none is configured. A token lasts a day.
    pub fn new(configured: Option<String>) -> (config: AuthConfig)
        ensures
            config.expires_in == TOKEN_LIFETIME,
            config.secret@ == match configured {
                Some(secret) => secret@,
                None => "seu_jwt_secret_aqui"@,
            },
    {
        let secret = match configured {
            Some(secret) => secret,
            None => String::from_str("seu_jwt_secret_aqui"),
        };
        AuthConfig { secret, expires_in: TOKEN_LIFETIME }
    }
}

} // verus!
