use vstd::prelude::*;

verus! {

/// The gateway's error taxonomy.
///
/// `AuthDenied` and `SecretNotFound` are terminal and never retried;
/// `ConfigMissing` is a process misconfiguration; `VaultAuth` is a failed
/// vault login; `VaultQuery` is a transport or parse failure during a list or
/// fetch call, the only class the retry policy is applied to. The `detail` of
/// a `VaultQuery` is for operator logs only: response mapping never echoes it
/// to the caller.
pub enum GatewayError {
    AuthDenied,
    ConfigMissing,
    VaultAuth,
    VaultQuery { detail: String },
    SecretNotFound { available: Vec<String> },
    MalformedInput,
}

} // verus!
