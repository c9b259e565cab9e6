use vstd::prelude::*;
use crate::errors::GatewayError;
use crate::model::{ResolutionRequest, SecretIdentifier, SecretValue};

verus! {

/// Whether `ident` lies in the scope of a lookup: always, for an unscoped
/// lookup; for a scoped one, only when its organization id is the requested
/// one.
pub open spec fn in_scope(ident: SecretIdentifier, org: Option<Seq<char>>) -> bool {
    org matches Some(o) ==> ident.organization_id@ == o
}

/// Whether `ident` answers a lookup for `name` scoped to `org`: the key is
/// exactly the requested name and the identifier lies in scope.
pub open spec fn identifier_matches(
    ident: SecretIdentifier,
    name: Seq<char>,
    org: Option<Seq<char>>,
) -> bool {
    &&& ident.key@ == name
    &&& in_scope(ident, org)
}

/// Index of the first identifier at or after `start` that answers the
/// lookup, in vault-returned order. When several identifiers carry the same
/// name in the same scope the vault leaves the choice open; taking the first
/// is this gateway's documented, deterministic choice.
pub open spec fn first_match_from(
    ids: Seq<SecretIdentifier>,
    name: Seq<char>,
    org: Option<Seq<char>>,
    start: int,
) -> Option<int>
    decreases ids.len() - start,
{
    if start < 0 || start >= ids.len() {
        None
    } else if identifier_matches(ids[start], name, org) {
        Some(start)
    } else {
        first_match_from(ids, name, org, start + 1)
    }
}

/// Index of the first identifier answering the lookup, if any.
pub open spec fn first_match(
    ids: Seq<SecretIdentifier>,
    name: Seq<char>,
    org: Option<Seq<char>>,
) -> Option<int> {
    first_match_from(ids, name, org, 0)
}

/// The keys of the identifiers in scope, in vault-returned order: the
/// diagnostic enumeration a failed lookup may disclose.
pub open spec fn keys_in_scope(ids: Seq<SecretIdentifier>, org: Option<Seq<char>>) -> Seq<
    Seq<char>,
>
    decreases ids.len(),
{
    if ids.len() == 0 {
        Seq::empty()
    } else {
        let prefix = keys_in_scope(ids.drop_last(), org);
        if in_scope(ids.last(), org) {
            prefix.push(ids.last().key@)
        } else {
            prefix
        }
    }
}

/// `first_match_from` finds a match exactly when one exists at or after
/// `start`, and then the earliest one.
pub proof fn lemma_first_match_from_props(
    ids: Seq<SecretIdentifier>,
    name: Seq<char>,
    org: Option<Seq<char>>,
    start: int,
)
    requires
        0 <= start <= ids.len(),
    ensures
        match first_match_from(ids, name, org, start) {
            Some(i) => start <= i < ids.len() && identifier_matches(ids[i], name, org) && forall|
                j: int,
            | start <= j < i ==> !identifier_matches(ids[j], name, org),
            None => forall|j: int|
                start <= j < ids.len() ==> !identifier_matches(ids[j], name, org),
        },
    decreases ids.len() - start,
{
    if start < ids.len() && !identifier_matches(ids[start], name, org) {
        lemma_first_match_from_props(ids, name, org, start + 1);
    }
}

/// A lookup whose name no listed identifier carries matches nothing, so
/// resolution ends in `SecretNotFound`.
pub proof fn lemma_absent_name_matches_nothing(
    ids: Seq<SecretIdentifier>,
    name: Seq<char>,
    org: Option<Seq<char>>,
)
    requires
        forall|j: int| 0 <= j < ids.len() ==> ids[j].key@ != name,
    ensures
        first_match(ids, name, org) is None,
{
    lemma_first_match_from_props(ids, name, org, 0);
}

/// When exactly one identifier answers the lookup, selection picks that
/// identifier; resolution then fetches by its id, and the fetched value is
/// returned unchanged (`resolve_listing`, `finish_fetch`). For a static
/// listing the whole name-to-id-to-value round trip is thus determined by
/// that one identifier.
pub proof fn lemma_unique_match_selected(
    ids: Seq<SecretIdentifier>,
    name: Seq<char>,
    org: Option<Seq<char>>,
    i: int,
)
    requires
        0 <= i < ids.len(),
        identifier_matches(ids[i], name, org),
        forall|j: int|
            0 <= j < ids.len() && j != i ==> !identifier_matches(ids[j], name, org),
    ensures
        first_match(ids, name, org) == Some(i),
{
    lemma_first_match_from_props(ids, name, org, 0);
}

/// Picks the first listed identifier whose key is the requested name, scoped
/// to the request's organization when one was supplied.
pub fn select_identifier(ids: &Vec<SecretIdentifier>, request: &ResolutionRequest) -> (r: Option<
    usize,
>)
    ensures
        match r {
            Some(i) => first_match(ids@, request.secret_name@, request.org_view()) == Some(
                i as int,
            ),
            None => first_match(ids@, request.secret_name@, request.org_view()) is None,
        },
{
    let n = ids.len();
    let mut i: usize = 0;
    while i < n
        invariant
            n == ids@.len(),
            0 <= i <= n,
            first_match(ids@, request.secret_name@, request.org_view()) == first_match_from(
                ids@,
                request.secret_name@,
                request.org_view(),
                i as int,
            ),
        decreases n - i,
    {
        let ident = &ids[i];
        let key_hit = ident.key.eq(&request.secret_name);
        let scope_hit = match &request.organization_id {
            None => true,
            Some(o) => ident.organization_id.eq(o),
        };
        if key_hit && scope_hit {
            return Some(i);
        }
        i = i + 1;
    }
    None
}

/// Collects the keys of the identifiers in scope, in vault-returned order,
/// for the not-found diagnostic.
pub fn available_keys(ids: &Vec<SecretIdentifier>, organization_id: &Option<String>) -> (r: Vec<
    String,
>)
    ensures
        r.deep_view() == keys_in_scope(ids@, org_view(*organization_id)),
{
    let n = ids.len();
    let mut r: Vec<String> = Vec::new();
    let mut i: usize = 0;
    while i < n
        invariant
            n == ids@.len(),
            0 <= i <= n,
            r.deep_view() == keys_in_scope(ids@.take(i as int), org_view(*organization_id)),
        decreases n - i,
    {
        let ident = &ids[i];
        let scope_hit = match organization_id {
            None => true,
            Some(o) => ident.organization_id.eq(o),
        };
        proof {
            assert(ids@.take(i as int + 1).drop_last() =~= ids@.take(i as int));
            assert(ids@.take(i as int + 1).last() == ids@[i as int]);
        }
        if scope_hit {
            r.push(ident.key.clone());
            proof {
                assert(r.deep_view() =~~= keys_in_scope(
                    ids@.take(i as int + 1),
                    org_view(*organization_id),
                ));
            }
        } else {
            proof {
                assert(r.deep_view() =~~= keys_in_scope(
                    ids@.take(i as int + 1),
                    org_view(*organization_id),
                ));
            }
        }
        i = i + 1;
    }
    proof {
        assert(ids@.take(n as int) =~= ids@);
    }
    r
}

/// The scope of an optional organization id, as a mathematical value.
pub open spec fn org_view(o: Option<String>) -> Option<Seq<char>> {
    match o {
        Some(s) => Some(s@),
        None => None,
    }
}

/// Pure phase of the two-phase lookup: given the identifiers the vault
/// listed, either the id to fetch — the first match in vault-returned order —
/// or `SecretNotFound` carrying the keys available in scope. This step is
/// local computation and is never retried.
pub fn resolve_listing(ids: &Vec<SecretIdentifier>, request: &ResolutionRequest) -> (r: Result<
    String,
    GatewayError,
>)
    ensures
        match first_match(ids@, request.secret_name@, request.org_view()) {
            Some(i) => r matches Ok(id) && id@ == ids@[i].id@,
            None => r matches Err(e) && (e matches GatewayError::SecretNotFound { available }
                && available.deep_view() == keys_in_scope(ids@, request.org_view())),
        },
{
    proof {
        lemma_first_match_from_props(ids@, request.secret_name@, request.org_view(), 0);
    }
    match select_identifier(ids, request) {
        Some(i) => Ok(ids[i].id.clone()),
        None => Err(
            GatewayError::SecretNotFound {
                available: available_keys(ids, &request.organization_id),
            },
        ),
    }
}

/// Completes the second phase: maps the outcome of the fetch-by-id vault
/// call. A fetched value is returned unchanged; a failure becomes
/// `VaultQuery` carrying the underlying cause for the operator log.
pub fn finish_fetch(outcome: Result<SecretValue, String>) -> (r: Result<
    SecretValue,
    GatewayError,
>)
    ensures
        match outcome {
            Ok(v) => r matches Ok(rv) && rv == v,
            Err(d) => r matches Err(e) && (e matches GatewayError::VaultQuery { detail }
                && detail == d),
        },
{
    match outcome {
        Ok(v) => Ok(v),
        Err(d) => Err(GatewayError::VaultQuery { detail: d }),
    }
}

} // verus!
