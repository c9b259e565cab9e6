use vstd::prelude::*;

verus! {

/// Lightweight metadata locating one secret in the vault without exposing its
/// value. An immutable snapshot of vault state at the time of the listing
/// call; it may be stale relative to concurrent vault-side mutations.
pub struct SecretIdentifier {
    pub id: String,
    pub organization_id: String,
    pub project_id: String,
    pub key: String,
    pub creation_date: String,
    pub revision_date: String,
}

/// The sensitive payload, fetched only after identifier resolution.
pub struct SecretValue {
    pub key: String,
    pub value: String,
    pub note: Option<String>,
}

/// A validated resolution request: the secret name to look up and, when the
/// lookup is scoped, the organization identifier already brought to canonical
/// form.
pub struct ResolutionRequest {
    pub secret_name: String,
    pub organization_id: Option<String>,
}

impl ResolutionRequest {
    /// The request's scope as a mathematical value: the canonical
    /// organization id's characters, if the lookup is scoped.
    pub open spec fn org_view(self) -> Option<Seq<char>> {
        match self.organization_id {
            Some(s) => Some(s@),
            None => None,
        }
    }
}

} // verus!
