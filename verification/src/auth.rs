//! The caller's authentication state as the handlers see it: verified token
//! claims, or the weak form that records whether a valid token was present
//! at all.

use vstd::prelude::*;

verus! {

/// The claims carried by a verified session token.
pub struct Claims {
    pub email: String,
    pub nickname: String,
    pub exp: i64,
}

impl Clone for Claims {
    fn clone(&self) -> (r: Self)
        ensures
            r == *self,
    {
        Claims { email: self.email.clone(), nickname: self.nickname.clone(), exp: self.exp }
    }
}

/// The weak authentication state: `Some` claims when the request carried a
/// valid token, `None` for an anonymous visitor.
pub struct WeekClaims {
    pub claims: Option<Claims>,
}

impl WeekClaims {
    /// Whether the caller is the authenticated manager.
    pub open spec fn spec_is_authed(self) -> bool {
        self.claims is Some
    }

    pub fn is_authed(&self) -> (r: bool)
        ensures
            r == self.spec_is_authed(),
    {
        self.claims.is_some()
    }
}

/// The credentials a login request carries.
pub struct AuthPayload {
    pub email: String,
    pub password: String,
}

} // verus!
