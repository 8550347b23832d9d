//! The guard of the write path: a request must carry the hash that the service
//! was issued.
use crate::error::BadgeError;
use crate::text::str_eq;
use vstd::prelude::*;

verus! {

/// The method of the requests that pass unchecked.
pub const PREFLIGHT_METHOD: &'static str = "OPTIONS";

/// The header that carries the hash.
pub const AUTH_HEADER: &'static str = "X_AUTH_HEADER";

/// Whether a request passes the guard: a preflight request always does, any
/// other only with a token that is not empty and equals the hash.
pub open spec fn authorised(method: Seq<char>, token: Option<Seq<char>>, hash: Seq<char>) -> bool {
    method == PREFLIGHT_METHOD@ || (token is Some && token->0.len() > 0 && token->0 == hash)
}

/// The guard of the write path.
#[derive(Debug, Clone, Copy)]
pub struct AuthMiddleware;

impl AuthMiddleware {
    /// Checks a request, given its method, the value of its `X_AUTH_HEADER`
    /// header where it has a readable one, and the hash of the service. Fails
    /// with `Unauthorised` exactly when the request does not pass.
    pub fn start(&self, method: &str, token: Option<&str>, hash: &str) -> (r: Result<
        (),
        BadgeError,
    >)
        ensures
            r is Ok <==> authorised(
                method@,
                match token {
                    Some(t) => Some(t@),
                    None => None,
                },
                hash@,
            ),
            r is Err ==> r->Err_0 is Unauthorised,
    {
        if str_eq(method, PREFLIGHT_METHOD) {
            return Ok(());
        }
        match token {
            Some(t) => {
                if !t.is_empty() && str_eq(t, hash) {
                    Ok(())
                } else {
                    Err(BadgeError::Unauthorised)
                }
            },
            None => Err(BadgeError::Unauthorised),
        }
    }
}

} // verus!
