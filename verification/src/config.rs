use vstd::prelude::*;
use crate::errors::GatewayError;

verus! {

/// Startup check of the environment-sourced vault access token. Absence is a
/// fatal configuration error: the process must terminate before binding the
/// listener when this returns `Err`. The same check backs the per-request
/// missing-configuration response.
pub fn require_vault_token(token: Option<String>) -> (r: Result<String, GatewayError>)
    ensures
        match token {
            Some(t) => r matches Ok(v) && v == t,
            None => r matches Err(e) && e is ConfigMissing,
        },
{
    match token {
        Some(t) => Ok(t),
        None => Err(GatewayError::ConfigMissing),
    }
}

} // verus!
