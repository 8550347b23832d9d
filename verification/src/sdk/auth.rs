//! The claims of a session token.
use vstd::prelude::*;

verus! {

/// The claims that a session token carries.
#[derive(Debug)]
pub struct AuthClaims {
    pub id: String,
    pub audience: Option<String>,
    /// The second at which the token expires; 0 where it never does.
    pub expires_at: i64,
    pub jti: String,
    pub issued_at: i64,
    pub issuer: String,
    pub not_before: Option<i64>,
    pub subject: String,
}

/// Whether a token that expires at the start of second `expires_at` is still
/// good at the instant `nanos` nanoseconds into the second `secs`: it is where
/// it never expires, and where the instant is not past its expiry.
pub open spec fn good_at(expires_at: int, secs: int, nanos: int) -> bool {
    expires_at == 0 || secs < expires_at || (secs == expires_at && nanos == 0)
}

impl AuthClaims {
    /// Whether the token of these claims is still good at an instant, given
    /// as seconds and nanoseconds since the epoch.
    pub fn is_good_at(&self, secs: i64, nanos: u32) -> (r: bool)
        ensures
            r == good_at(self.expires_at as int, secs as int, nanos as int),
    {
        self.expires_at == 0 || secs < self.expires_at || (secs == self.expires_at && nanos == 0)
    }
}

} // verus!
