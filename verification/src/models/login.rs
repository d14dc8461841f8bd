//! What a token says of its bearer.

use vstd::prelude::*;

verus! {

/// The claims of a token: the data of the customer, and the instant, in
/// seconds since the Unix epoch, at which the token expires.
pub struct Claims {
    pub cliente: String,
    pub exp: usize,
}

impl Claims {
    /// The claims of a token for `cliente`, issued at `issued_at` and valid
    /// for `expires_in` seconds: the token expires at the instant of issue
    /// plus the lifetime. There are no such claims where that instant is
    /// negative or beyond what a claim can hold.
    pub open spec fn issued(cliente: String, issued_at: i64, expires_in: i64) -> Option<Claims> {
        if 0 <= issued_at + expires_in <= usize::MAX {
            Some(Claims { cliente, exp: (issued_at + expires_in) as usize })
        } else {
            None
        }
    }

    /// The claims of a token for `cliente`, issued at `issued_at` and valid
    /// for `expires_in` seconds; `None` where the instant of expiry is
    /// negative or beyond what a claim can hold.
    pub fn new(cliente: String, issued_at: i64, expires_in: i64) -> (claims: Option<Claims>)
        ensures
            claims == Self::issued(cliente, issued_at, expires_in),
    {
        let expiry: i128 = issued_at as i128 + expires_in as i128;
        if expiry < 0 || expiry > usize::MAX as i128 {
            None
        } else {
            Some(Claims { cliente, exp: expiry as usize })
        }
    }
}

} // verus!
