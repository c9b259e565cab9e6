use vstd::prelude::*;
use crate::errors::GatewayError;
use crate::model::ResolutionRequest;

verus! {

/// The canonical text of the organization identifier written in `s`: `Some`
/// exactly when `s` is a well-formed UUID in one of the accepted textual
/// forms, and then its hyphenated lower-case rendering — the form the vault
/// reports in identifier listings.
pub uninterp spec fn uuid_canonical_of(s: Seq<char>) -> Option<Seq<char>>;

/// Relies on `uuid::Uuid::parse_str` and on `uuid`'s `Display` rendering of
/// the parsed value: parsing accepts the hyphenated, simple, braced and URN
/// forms, the rendering is the hyphenated lower-case form, and both depend on
/// the input characters alone.
#[verifier::external_body]
fn uuid_normalize(s: &str) -> (r: Option<String>)
    ensures
        r matches Some(c) ==> uuid_canonical_of(s@) == Some(c@),
        r is None ==> uuid_canonical_of(s@) is None,
{
    match uuid::Uuid::parse_str(s) {
        Ok(u) => Some(u.to_string()),
        Err(_) => None,
    }
}

/// Builds the validated resolution request from the caller-supplied path
/// parameters. An unscoped request passes through; a scoped one is accepted
/// exactly when its organization id is a well-formed identifier, which is
/// then carried in canonical form; anything else is `MalformedInput`.
pub fn validate_request(secret_name: String, organization_id: Option<String>) -> (r: Result<
    ResolutionRequest,
    GatewayError,
>)
    ensures
        match organization_id {
            None => r matches Ok(req) && req.secret_name == secret_name
                && req.organization_id is None,
            Some(o) => match uuid_canonical_of(o@) {
                Some(c) => r matches Ok(req) && req.secret_name == secret_name
                    && (req.organization_id matches Some(x) && x@ == c),
                None => r matches Err(e) && e is MalformedInput,
            },
        },
{
    match organization_id {
        None => Ok(ResolutionRequest { secret_name, organization_id: None }),
        Some(o) => match uuid_normalize(o.as_str()) {
            Some(c) => Ok(ResolutionRequest { secret_name, organization_id: Some(c) }),
            None => Err(GatewayError::MalformedInput),
        },
    }
}

} // verus!
