use secret_gateway::errors::GatewayError;
use secret_gateway::gateway::{GatewayAction, RequestFlow, ResponseBody};
use secret_gateway::model::{SecretIdentifier, SecretValue};
use secret_gateway::retry::RetryPolicy;

fn ident(id: &str, org: &str, key: &str) -> SecretIdentifier {
    SecretIdentifier {
        id: id.to_string(),
        organization_id: org.to_string(),
        project_id: "proj".to_string(),
        key: key.to_string(),
        creation_date: "2024-01-01T00:00:00Z".to_string(),
        revision_date: "2024-01-02T00:00:00Z".to_string(),
    }
}

fn new_flow(credential: &str, token_present: bool) -> RequestFlow {
    RequestFlow::new(
        credential.to_string(),
        token_present,
        RetryPolicy::default_policy(),
    )
}

#[test]
fn secret_resolved_end_to_end() {
    let mut flow = new_flow("s3cr3t", true);
    let a = flow.begin(
        Some("Bearer s3cr3t".to_string()),
        "DB_PASS".to_string(),
        None,
    );
    assert!(matches!(a, GatewayAction::Login));
    let b = flow.on_login(true);
    match b {
        GatewayAction::List {
            organization_id,
            delay_ms,
        } => {
            assert!(organization_id.is_none());
            assert_eq!(delay_ms, 0);
        }
        _ => panic!("expected a listing call"),
    }
    let listing = vec![ident("abc", "org-1", "DB_PASS")];
    let c = flow.on_list(Ok(listing));
    match c {
        GatewayAction::Fetch {
            secret_id,
            delay_ms,
        } => {
            assert_eq!(secret_id, "abc");
            assert_eq!(delay_ms, 0);
        }
        _ => panic!("expected a fetch call"),
    }
    let value = SecretValue {
        key: "DB_PASS".to_string(),
        value: "hunter2".to_string(),
        note: None,
    };
    let d = flow.on_fetch(Ok(value));
    match d {
        GatewayAction::Respond { response } => {
            assert_eq!(response.status, 200);
            match response.body {
                ResponseBody::Secret { key, value } => {
                    assert_eq!(key, "DB_PASS");
                    assert_eq!(value, "hunter2");
                }
                _ => panic!("expected the secret payload"),
            }
        }
        _ => panic!("expected the final response"),
    }
}

#[test]
fn wrong_bearer_token_is_unauthorized() {
    let mut flow = new_flow("s3cr3t", true);
    let a = flow.begin(
        Some("Bearer wrong".to_string()),
        "DB_PASS".to_string(),
        None,
    );
    match a {
        GatewayAction::Respond { response } => {
            assert_eq!(response.status, 401);
            match response.body {
                ResponseBody::Message { text } => assert_eq!(text, "Unauthorized"),
                _ => panic!("expected a plain unauthorized body"),
            }
        }
        _ => panic!("expected an immediate rejection"),
    }
}

#[test]
fn missing_header_is_unauthorized() {
    let mut flow = new_flow("s3cr3t", true);
    let a = flow.begin(None, "DB_PASS".to_string(), None);
    match a {
        GatewayAction::Respond { response } => assert_eq!(response.status, 401),
        _ => panic!("expected an immediate rejection"),
    }
}

#[test]
fn wrong_scheme_is_unauthorized() {
    let mut flow = new_flow("s3cr3t", true);
    let a = flow.begin(Some("Basic s3cr3t".to_string()), "DB_PASS".to_string(), None);
    match a {
        GatewayAction::Respond { response } => assert_eq!(response.status, 401),
        _ => panic!("expected an immediate rejection"),
    }
}

#[test]
fn missing_secret_is_not_found_without_leaks() {
    let mut flow = new_flow("s3cr3t", true);
    let a = flow.begin(
        Some("Bearer s3cr3t".to_string()),
        "MISSING".to_string(),
        None,
    );
    assert!(matches!(a, GatewayAction::Login));
    let _ = flow.on_login(true);
    let listing = vec![ident("abc", "org-1", "DB_PASS")];
    let c = flow.on_list(Ok(listing));
    match c {
        GatewayAction::Respond { response } => {
            assert_eq!(response.status, 404);
            match response.body {
                ResponseBody::Failure { message, available } => {
                    assert_eq!(message, "Secret not found");
                    let keys = available.expect("the diagnostic key list");
                    assert_eq!(keys, vec!["DB_PASS".to_string()]);
                    // The body must not leak the caller credential, the vault
                    // token or any session data.
                    assert!(!message.contains("s3cr3t"));
                    for k in keys.iter() {
                        assert!(!k.contains("s3cr3t"));
                    }
                }
                _ => panic!("expected the not-found diagnostic"),
            }
        }
        _ => panic!("expected the final response"),
    }
}

#[test]
fn missing_vault_token_fails_before_any_vault_work() {
    let mut flow = new_flow("s3cr3t", false);
    let a = flow.begin(
        Some("Bearer s3cr3t".to_string()),
        "DB_PASS".to_string(),
        None,
    );
    match a {
        GatewayAction::Respond { response } => {
            assert_eq!(response.status, 500);
            match response.body {
                ResponseBody::Failure { message, available } => {
                    assert_eq!(message, "Vault access token is not configured");
                    assert!(available.is_none());
                }
                _ => panic!("expected a configuration failure body"),
            }
        }
        _ => panic!("expected an immediate failure"),
    }
}

#[test]
fn vault_token_required_at_startup() {
    // The process must terminate before binding the listener when the vault
    // access token is absent from the environment.
    let missing = secret_gateway::config::require_vault_token(None);
    assert!(matches!(missing, Err(GatewayError::ConfigMissing)));
    let present = secret_gateway::config::require_vault_token(Some("tok".to_string()));
    assert_eq!(present.ok(), Some("tok".to_string()));
}

#[test]
fn failed_login_is_a_server_error() {
    let mut flow = new_flow("s3cr3t", true);
    let a = flow.begin(
        Some("Bearer s3cr3t".to_string()),
        "DB_PASS".to_string(),
        None,
    );
    assert!(matches!(a, GatewayAction::Login));
    let b = flow.on_login(false);
    match b {
        GatewayAction::Respond { response } => {
            assert_eq!(response.status, 500);
            match response.body {
                ResponseBody::Failure { message, available } => {
                    assert_eq!(message, "Vault authentication failed");
                    assert!(available.is_none());
                }
                _ => panic!("expected an authentication failure body"),
            }
        }
        _ => panic!("expected the final response"),
    }
}

#[test]
fn malformed_organization_id_is_bad_request() {
    let mut flow = new_flow("s3cr3t", true);
    let a = flow.begin(
        Some("Bearer s3cr3t".to_string()),
        "DB_PASS".to_string(),
        Some("not-a-uuid".to_string()),
    );
    assert!(matches!(a, GatewayAction::Login));
    let b = flow.on_login(true);
    match b {
        GatewayAction::Respond { response } => {
            assert_eq!(response.status, 400);
            match response.body {
                ResponseBody::Failure { message, available } => {
                    assert_eq!(message, "Invalid organization ID format");
                    assert!(available.is_none());
                }
                _ => panic!("expected a bad-request body"),
            }
        }
        _ => panic!("expected the final response"),
    }
}

#[test]
fn organization_id_is_canonicalized_for_the_vault() {
    let mut flow = new_flow("s3cr3t", true);
    let a = flow.begin(
        Some("Bearer s3cr3t".to_string()),
        "DB_PASS".to_string(),
        Some("{550E8400-E29B-41D4-A716-446655440000}".to_string()),
    );
    assert!(matches!(a, GatewayAction::Login));
    let b = flow.on_login(true);
    match b {
        GatewayAction::List {
            organization_id, ..
        } => {
            assert_eq!(
                organization_id,
                Some("550e8400-e29b-41d4-a716-446655440000".to_string())
            );
        }
        _ => panic!("expected a listing call"),
    }
}

#[test]
fn scoped_lookup_matches_organization() {
    let org = "550e8400-e29b-41d4-a716-446655440000";
    let mut flow = new_flow("s3cr3t", true);
    let a = flow.begin(
        Some("Bearer s3cr3t".to_string()),
        "DB_PASS".to_string(),
        Some(org.to_string()),
    );
    assert!(matches!(a, GatewayAction::Login));
    let _ = flow.on_login(true);
    // The same key in another organization must not match, nor appear in the
    // diagnostic listing.
    let listing = vec![
        ident("other", "11111111-2222-3333-4444-555555555555", "DB_PASS"),
        ident("abc", org, "DB_PASS"),
    ];
    let c = flow.on_list(Ok(listing));
    match c {
        GatewayAction::Fetch { secret_id, .. } => assert_eq!(secret_id, "abc"),
        _ => panic!("expected a fetch call"),
    }
}

#[test]
fn scoped_lookup_filters_diagnostic_keys() {
    let org = "550e8400-e29b-41d4-a716-446655440000";
    let mut flow = new_flow("s3cr3t", true);
    let a = flow.begin(
        Some("Bearer s3cr3t".to_string()),
        "MISSING".to_string(),
        Some(org.to_string()),
    );
    assert!(matches!(a, GatewayAction::Login));
    let _ = flow.on_login(true);
    let listing = vec![
        ident("o1", "11111111-2222-3333-4444-555555555555", "OUT_OF_SCOPE"),
        ident("a1", org, "IN_SCOPE_A"),
        ident("a2", org, "IN_SCOPE_B"),
    ];
    let c = flow.on_list(Ok(listing));
    match c {
        GatewayAction::Respond { response } => {
            assert_eq!(response.status, 404);
            match response.body {
                ResponseBody::Failure { available, .. } => {
                    assert_eq!(
                        available.expect("the diagnostic key list"),
                        vec!["IN_SCOPE_A".to_string(), "IN_SCOPE_B".to_string()]
                    );
                }
                _ => panic!("expected the not-found diagnostic"),
            }
        }
        _ => panic!("expected the final response"),
    }
}

#[test]
fn duplicate_keys_resolve_to_first_listed() {
    // Duplicate-key resolution is implementation-defined here: deterministically
    // the first match in vault-returned order.
    let mut flow = new_flow("s3cr3t", true);
    let a = flow.begin(
        Some("Bearer s3cr3t".to_string()),
        "DB_PASS".to_string(),
        None,
    );
    assert!(matches!(a, GatewayAction::Login));
    let _ = flow.on_login(true);
    let listing = vec![
        ident("first", "org-1", "DB_PASS"),
        ident("second", "org-1", "DB_PASS"),
    ];
    let c = flow.on_list(Ok(listing));
    match c {
        GatewayAction::Fetch { secret_id, .. } => assert_eq!(secret_id, "first"),
        _ => panic!("expected a fetch call"),
    }
}

#[test]
fn listing_failures_are_retried_then_surface() {
    let mut flow = new_flow("s3cr3t", true);
    let a = flow.begin(
        Some("Bearer s3cr3t".to_string()),
        "DB_PASS".to_string(),
        None,
    );
    assert!(matches!(a, GatewayAction::Login));
    let _ = flow.on_login(true);
    let b = flow.on_list(Err("timeout".to_string()));
    match b {
        GatewayAction::List { delay_ms, .. } => assert_eq!(delay_ms, 50),
        _ => panic!("expected a retried listing call"),
    }
    let c = flow.on_list(Err("timeout".to_string()));
    match c {
        GatewayAction::List { delay_ms, .. } => assert_eq!(delay_ms, 100),
        _ => panic!("expected a second retried listing call"),
    }
    let d = flow.on_list(Err("timeout".to_string()));
    match d {
        GatewayAction::Respond { response } => {
            assert_eq!(response.status, 500);
            match response.body {
                ResponseBody::Failure { message, available } => {
                    // The generic message only: no raw vault error detail.
                    assert_eq!(message, "Vault query failed");
                    assert!(available.is_none());
                }
                _ => panic!("expected a query failure body"),
            }
        }
        _ => panic!("expected the final response"),
    }
}

#[test]
fn fetch_failures_are_retried_against_the_same_id() {
    let mut flow = new_flow("s3cr3t", true);
    let a = flow.begin(
        Some("Bearer s3cr3t".to_string()),
        "DB_PASS".to_string(),
        None,
    );
    assert!(matches!(a, GatewayAction::Login));
    let _ = flow.on_login(true);
    let listing = vec![ident("abc", "org-1", "DB_PASS")];
    let _ = flow.on_list(Ok(listing));
    let b = flow.on_fetch(Err("timeout".to_string()));
    match b {
        GatewayAction::Fetch {
            secret_id,
            delay_ms,
        } => {
            assert_eq!(secret_id, "abc");
            assert_eq!(delay_ms, 50);
        }
        _ => panic!("expected a retried fetch call"),
    }
    let value = SecretValue {
        key: "DB_PASS".to_string(),
        value: "hunter2".to_string(),
        note: Some("note".to_string()),
    };
    let c = flow.on_fetch(Ok(value));
    match c {
        GatewayAction::Respond { response } => assert_eq!(response.status, 200),
        _ => panic!("expected the final response"),
    }
}
