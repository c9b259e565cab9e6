use vstd::prelude::*;
use crate::errors::GatewayError;

verus! {

/// Authentication state with the upstream vault.
pub enum SessionState {
    Unauthenticated,
    Authenticated,
}

/// Owns the authentication state of one vault session. This gateway creates
/// one session per request: no sharing, no locking, one login per request.
/// Queries may proceed only against an authenticated session; a failed login
/// leaves the session `Unauthenticated` and is not retried implicitly.
pub struct VaultSession {
    pub state: SessionState,
}

impl VaultSession {
    pub open spec fn is_ready(self) -> bool {
        self.state is Authenticated
    }

    /// A fresh, unauthenticated session.
    pub fn new() -> (s: VaultSession)
        ensures
            s.state is Unauthenticated,
    {
        VaultSession { state: SessionState::Unauthenticated }
    }

    /// Applies the outcome of one login call against the vault's identity
    /// endpoint. Success authenticates the session (idempotently, from either
    /// state); any failure leaves it unauthenticated and surfaces the vault
    /// authentication error.
    pub fn apply_login(&mut self, success: bool) -> (r: Result<(), GatewayError>)
        ensures
            success <==> r is Ok,
            success ==> final(self).state is Authenticated,
            !success ==> final(self).state is Unauthenticated && (r matches Err(e)
                && e is VaultAuth),
    {
        if success {
            self.state = SessionState::Authenticated;
            Ok(())
        } else {
            self.state = SessionState::Unauthenticated;
            Err(GatewayError::VaultAuth)
        }
    }
}

} // verus!
