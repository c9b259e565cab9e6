use vstd::prelude::*;
use vstd::pervasive::unreached;
use vstd::string::StringExecFns;
use crate::auth::{authenticate, bearer_line, AuthDecision};
use crate::errors::GatewayError;
use crate::model::{SecretIdentifier, SecretValue};
use crate::orgid::{uuid_canonical_of, validate_request};
use crate::resolver::{finish_fetch, first_match, keys_in_scope, resolve_listing, org_view};
use crate::retry::{backoff_delay, RetryDecision, RetryPolicy, RetryState};
use crate::session::VaultSession;

verus! {

/// A transport-independent response: the HTTP status to send and the
/// structured body to render.
pub struct HttpResponse {
    pub status: u16,
    pub body: ResponseBody,
}

/// Structured response bodies. `Secret` is the successful payload; `Failure`
/// carries a fixed user-visible message and, only for a failed lookup, the
/// keys available in scope — never internal error detail, tokens or session
/// data.
pub enum ResponseBody {
    Message { text: String },
    Secret { key: String, value: String },
    Failure { message: String, available: Option<Vec<String>> },
}

/// Translates each error of the taxonomy to its response: `AuthDenied` 401,
/// `MalformedInput` 400, `SecretNotFound` 404 with the available-keys
/// diagnostic, and every configuration or vault failure 500 with a generic
/// message. The `detail` of a `VaultQuery` is deliberately not echoed.
pub fn response_for_error(e: GatewayError) -> (r: HttpResponse)
    ensures
        e is AuthDenied ==> r.status == 401 && (r.body matches ResponseBody::Message { text }
            && text@ == "Unauthorized"@),
        e is ConfigMissing ==> r.status == 500 && (r.body matches ResponseBody::Failure {
            message,
            available,
        } && message@ == "Vault access token is not configured"@ && available is None),
        e is VaultAuth ==> r.status == 500 && (r.body matches ResponseBody::Failure {
            message,
            available,
        } && message@ == "Vault authentication failed"@ && available is None),
        e is VaultQuery ==> r.status == 500 && (r.body matches ResponseBody::Failure {
            message,
            available,
        } && message@ == "Vault query failed"@ && available is None),
        e matches GatewayError::SecretNotFound { available: av } ==> r.status == 404 && (
        r.body matches ResponseBody::Failure { message, available } && message@
            == "Secret not found"@ && (available matches Some(ks) && ks == av)),
        e is MalformedInput ==> r.status == 400 && (r.body matches ResponseBody::Failure {
            message,
            available,
        } && message@ == "Invalid organization ID format"@ && available is None),
{
    match e {
        GatewayError::AuthDenied => HttpResponse {
            status: 401,
            body: ResponseBody::Message {
                text: <String as StringExecFns>::from_str("Unauthorized"),
            },
        },
        GatewayError::ConfigMissing => HttpResponse {
            status: 500,
            body: ResponseBody::Failure {
                message: <String as StringExecFns>::from_str(
                    "Vault access token is not configured",
                ),
                available: None,
            },
        },
        GatewayError::VaultAuth => HttpResponse {
            status: 500,
            body: ResponseBody::Failure {
                message: <String as StringExecFns>::from_str("Vault authentication failed"),
                available: None,
            },
        },
        GatewayError::VaultQuery { detail: _ } => HttpResponse {
            status: 500,
            body: ResponseBody::Failure {
                message: <String as StringExecFns>::from_str("Vault query failed"),
                available: None,
            },
        },
        GatewayError::SecretNotFound { available } => HttpResponse {
            status: 404,
            body: ResponseBody::Failure {
                message: <String as StringExecFns>::from_str("Secret not found"),
                available: Some(available),
            },
        },
        GatewayError::MalformedInput => HttpResponse {
            status: 400,
            body: ResponseBody::Failure {
                message: <String as StringExecFns>::from_str("Invalid organization ID format"),
                available: None,
            },
        },
    }
}

/// The successful response: 200 with the resolved key and value, exactly as
/// fetched.
pub fn response_for_secret(v: SecretValue) -> (r: HttpResponse)
    ensures
        r.status == 200,
        r.body matches ResponseBody::Secret { key, value } && key == v.key && value == v.value,
{
    HttpResponse { status: 200, body: ResponseBody::Secret { key: v.key, value: v.value } }
}

/// The health endpoint's response: 200 "OK" when the vault backend capability
/// is reachable, 503 otherwise. No authentication required.
pub fn health_response(backend_available: bool) -> (r: HttpResponse)
    ensures
        backend_available ==> r.status == 200 && (r.body matches ResponseBody::Message { text }
            && text@ == "OK"@),
        !backend_available ==> r.status == 503 && (r.body matches ResponseBody::Message { text }
            && text@ == "Vault backend unavailable"@),
{
    if backend_available {
        HttpResponse {
            status: 200,
            body: ResponseBody::Message { text: <String as StringExecFns>::from_str("OK") },
        }
    } else {
        HttpResponse {
            status: 503,
            body: ResponseBody::Message {
                text: <String as StringExecFns>::from_str("Vault backend unavailable"),
            },
        }
    }
}

/// Where one request stands: which vault call the flow is waiting on, with
/// the data that call was derived from.
pub enum Phase {
    Ready,
    AwaitingLogin { secret_name: String, organization_id: Option<String> },
    AwaitingList { request: crate::model::ResolutionRequest, retry: RetryState },
    AwaitingFetch { secret_id: String, retry: RetryState },
    Finished,
}

/// What the driver must do next: perform a vault call (waiting `delay_ms`
/// first when the call is a retry), or send the response. The vault calls are
/// the collaborator's `login`, `listIdentifiers` and `getById`.
pub enum GatewayAction {
    Login,
    List { organization_id: Option<String>, delay_ms: u64 },
    Fetch { secret_id: String, delay_ms: u64 },
    Respond { response: HttpResponse },
}

/// Whether `presented` is exactly the bearer line for `expected`.
pub open spec fn spec_authorized(presented: Option<String>, expected: String) -> bool {
    presented matches Some(h) && h@ == bearer_line(expected@)
}

/// The decision core of one inbound request: authenticate, establish a vault
/// session, run the two-phase lookup with retries, and map the outcome to a
/// response. The driver performs each returned action — the actual vault
/// calls, waits and I/O — and feeds the outcome back in; every decision
/// between those calls is made (and verified) here.
pub struct RequestFlow {
    pub expected_credential: String,
    pub vault_token_present: bool,
    pub policy: RetryPolicy,
    pub session: VaultSession,
    pub phase: Phase,
}

impl RequestFlow {
    /// The flow invariant: the retry bookkeeping always matches the policy,
    /// and no list or fetch call is ever awaited without an authenticated
    /// session.
    pub open spec fn wf(self) -> bool {
        &&& self.policy.wf()
        &&& match self.phase {
            Phase::AwaitingList { request: _, retry } => self.session.is_ready()
                && self.policy.state_wf(retry) && retry.failures < self.policy.max_attempts,
            Phase::AwaitingFetch { secret_id: _, retry } => self.session.is_ready()
                && self.policy.state_wf(retry) && retry.failures < self.policy.max_attempts,
            _ => true,
        }
    }

    /// A fresh flow for one request: unauthenticated session, nothing begun.
    pub fn new(expected_credential: String, vault_token_present: bool, policy: RetryPolicy) -> (g:
        RequestFlow)
        requires
            policy.wf(),
        ensures
            g.wf(),
            g.phase is Ready,
            g.session.state is Unauthenticated,
            g.expected_credential == expected_credential,
            g.vault_token_present == vault_token_present,
            g.policy == policy,
    {
        RequestFlow {
            expected_credential,
            vault_token_present,
            policy,
            session: VaultSession::new(),
            phase: Phase::Ready,
        }
    }

    /// Starts handling one request. A credential mismatch is rejected with
    /// 401 before any vault work; with the vault token missing from
    /// configuration the request fails 500; otherwise the flow heads for
    /// vault login.
    pub fn begin(
        &mut self,
        presented_header: Option<String>,
        secret_name: String,
        organization_id: Option<String>,
    ) -> (a: GatewayAction)
        requires
            old(self).wf(),
            old(self).phase is Ready,
        ensures
            final(self).wf(),
            final(self).expected_credential == old(self).expected_credential,
            final(self).vault_token_present == old(self).vault_token_present,
            final(self).policy == old(self).policy,
            final(self).session == old(self).session,
            !spec_authorized(presented_header, old(self).expected_credential) ==> (
            a matches GatewayAction::Respond { response } && response.status == 401 && (
            response.body matches ResponseBody::Message { text } && text@ == "Unauthorized"@))
                && final(self).phase is Finished,
            spec_authorized(presented_header, old(self).expected_credential) && !old(self).vault_token_present ==> (a matches GatewayAction::Respond { response }
                && response.status == 500 && (response.body matches ResponseBody::Failure {
                message,
                available,
            } && message@ == "Vault access token is not configured"@ && available is None))
                && final(self).phase is Finished,
            spec_authorized(presented_header, old(self).expected_credential) && old(self).vault_token_present ==> a is Login && (
            final(self).phase matches Phase::AwaitingLogin { secret_name: n, organization_id: o }
                && n == secret_name && o == organization_id),
    {
        match authenticate(&presented_header, self.expected_credential.as_str()) {
            AuthDecision::Denied => {
                self.phase = Phase::Finished;
                GatewayAction::Respond { response: response_for_error(GatewayError::AuthDenied) }
            },
            AuthDecision::Allowed => {
                if !self.vault_token_present {
                    self.phase = Phase::Finished;
                    GatewayAction::Respond {
                        response: response_for_error(GatewayError::ConfigMissing),
                    }
                } else {
                    self.phase = Phase::AwaitingLogin { secret_name, organization_id };
                    GatewayAction::Login
                }
            },
        }
    }

    /// Applies the outcome of the vault login. Failure ends the request with
    /// 500 and an unauthenticated session. Success authenticates the session
    /// and validates the path parameters: a malformed organization id ends
    /// the request with 400; otherwise the first listing call is issued, with
    /// the organization id in canonical form when the lookup is scoped.
    pub fn on_login(&mut self, success: bool) -> (a: GatewayAction)
        requires
            old(self).wf(),
            old(self).phase matches Phase::AwaitingLogin { .. },
        ensures
            final(self).wf(),
            final(self).expected_credential == old(self).expected_credential,
            final(self).vault_token_present == old(self).vault_token_present,
            final(self).policy == old(self).policy,
            !success ==> final(self).session.state is Unauthenticated && (
            a matches GatewayAction::Respond { response } && response.status == 500 && (
            response.body matches ResponseBody::Failure { message, available } && message@
                == "Vault authentication failed"@ && available is None)) && final(self).phase is Finished,
            success ==> final(self).session.is_ready(),
            old(self).phase matches Phase::AwaitingLogin {
                secret_name,
                organization_id: None,
            } ==> success ==> (a matches GatewayAction::List { organization_id: org_a, delay_ms }
                && org_a is None && delay_ms == 0) && (
            final(self).phase matches Phase::AwaitingList { request, retry }
                && request.secret_name == secret_name && request.organization_id is None
                && retry.failures == 0),
            old(self).phase matches Phase::AwaitingLogin {
                secret_name,
                organization_id: Some(o),
            } ==> success ==> match uuid_canonical_of(o@) {
                Some(c) => (a matches GatewayAction::List { organization_id: org_a, delay_ms } && (
                org_a matches Some(oc) && oc@ == c) && delay_ms == 0) && (
                final(self).phase matches Phase::AwaitingList { request, retry }
                    && request.secret_name == secret_name && (
                request.organization_id matches Some(x) && x@ == c) && retry.failures == 0),
                None => (a matches GatewayAction::Respond { response } && response.status == 400
                    && (response.body matches ResponseBody::Failure { message, available }
                    && message@ == "Invalid organization ID format"@ && available is None))
                    && final(self).phase is Finished,
            },
    {
        let mut ph = Phase::Ready;
        core::mem::swap(&mut ph, &mut self.phase);
        match self.session.apply_login(success) {
            Err(e) => {
                self.phase = Phase::Finished;
                GatewayAction::Respond { response: response_for_error(e) }
            },
            Ok(()) => match ph {
                Phase::AwaitingLogin { secret_name, organization_id } => {
                    match validate_request(secret_name, organization_id) {
                        Err(e) => {
                            self.phase = Phase::Finished;
                            GatewayAction::Respond { response: response_for_error(e) }
                        },
                        Ok(request) => {
                            let retry = self.policy.start();
                            let org_for_call = clone_opt_string(&request.organization_id);
                            self.phase = Phase::AwaitingList { request, retry };
                            GatewayAction::List { organization_id: org_for_call, delay_ms: 0 }
                        },
                    }
                },
                _ => unreached(),
            },
        }
    }

    /// Applies the outcome of one listing call. A listing in hand makes the
    /// lookup pure: the first matching identifier's id is fetched next, and
    /// no match ends the request with 404 and the keys available in scope. A
    /// failed call is retried on the backoff schedule until the attempts are
    /// exhausted, then ends the request with 500.
    pub fn on_list(&mut self, outcome: Result<Vec<SecretIdentifier>, String>) -> (a: GatewayAction)
        requires
            old(self).wf(),
            old(self).phase matches Phase::AwaitingList { .. },
        ensures
            final(self).wf(),
            final(self).expected_credential == old(self).expected_credential,
            final(self).vault_token_present == old(self).vault_token_present,
            final(self).policy == old(self).policy,
            final(self).session == old(self).session,
            old(self).phase matches Phase::AwaitingList { request, retry: _ }
                && outcome matches Ok(ids) ==> match first_match(
                ids@,
                request.secret_name@,
                request.org_view(),
            ) {
                Some(i) => (a matches GatewayAction::Fetch { secret_id, delay_ms } && secret_id@
                    == ids@[i].id@ && delay_ms == 0) && (
                final(self).phase matches Phase::AwaitingFetch { secret_id: s2, retry: r2 } && s2@
                    == ids@[i].id@ && r2.failures == 0),
                None => (a matches GatewayAction::Respond { response } && response.status == 404
                    && (response.body matches ResponseBody::Failure { message, available }
                    && message@ == "Secret not found"@ && (available matches Some(ks)
                    && ks.deep_view() == keys_in_scope(ids@, request.org_view())))) && final(self).phase is Finished,
            },
            old(self).phase matches Phase::AwaitingList { request, retry }
                && outcome matches Err(d) ==> if retry.failures + 1 < old(self).policy.max_attempts {
                (a matches GatewayAction::List { organization_id, delay_ms } && org_view(
                    organization_id,
                ) == request.org_view() && delay_ms == backoff_delay(
                    old(self).policy.base_delay_ms as nat,
                    retry.failures as nat,
                )) && (final(self).phase matches Phase::AwaitingList { request: req2, retry: r2 }
                    && req2 == request && r2.failures == retry.failures + 1)
            } else {
                (a matches GatewayAction::Respond { response } && response.status == 500 && (
                response.body matches ResponseBody::Failure { message, available } && message@
                    == "Vault query failed"@ && available is None)) && final(self).phase is Finished
            },
    {
        let mut ph = Phase::Ready;
        core::mem::swap(&mut ph, &mut self.phase);
        match ph {
            Phase::AwaitingList { request, mut retry } => match outcome {
                Ok(ids) => match resolve_listing(&ids, &request) {
                    Ok(secret_id) => {
                        let retry2 = self.policy.start();
                        let sid_for_call = secret_id.clone();
                        self.phase = Phase::AwaitingFetch { secret_id, retry: retry2 };
                        GatewayAction::Fetch { secret_id: sid_for_call, delay_ms: 0 }
                    },
                    Err(e) => {
                        self.phase = Phase::Finished;
                        GatewayAction::Respond { response: response_for_error(e) }
                    },
                },
                Err(d) => match self.policy.on_failure(&mut retry) {
                    RetryDecision::RetryAfter { delay_ms } => {
                        let org_for_call = clone_opt_string(&request.organization_id);
                        self.phase = Phase::AwaitingList { request, retry };
                        GatewayAction::List { organization_id: org_for_call, delay_ms }
                    },
                    RetryDecision::GiveUp => {
                        self.phase = Phase::Finished;
                        GatewayAction::Respond {
                            response: response_for_error(GatewayError::VaultQuery { detail: d }),
                        }
                    },
                },
            },
            _ => unreached(),
        }
    }

    /// Applies the outcome of one fetch-by-id call. A fetched value ends the
    /// request with 200 carrying the value unchanged. A failed call is
    /// retried against the same id on the backoff schedule until the attempts
    /// are exhausted, then ends the request with 500.
    pub fn on_fetch(&mut self, outcome: Result<SecretValue, String>) -> (a: GatewayAction)
        requires
            old(self).wf(),
            old(self).phase matches Phase::AwaitingFetch { .. },
        ensures
            final(self).wf(),
            final(self).expected_credential == old(self).expected_credential,
            final(self).vault_token_present == old(self).vault_token_present,
            final(self).policy == old(self).policy,
            final(self).session == old(self).session,
            outcome matches Ok(v) ==> (a matches GatewayAction::Respond { response }
                && response.status == 200 && (response.body matches ResponseBody::Secret {
                key,
                value,
            } && key == v.key && value == v.value)) && final(self).phase is Finished,
            old(self).phase matches Phase::AwaitingFetch { secret_id, retry }
                && outcome matches Err(d) ==> if retry.failures + 1 < old(self).policy.max_attempts {
                (a matches GatewayAction::Fetch { secret_id: sid, delay_ms } && sid == secret_id
                    && delay_ms == backoff_delay(
                    old(self).policy.base_delay_ms as nat,
                    retry.failures as nat,
                )) && (final(self).phase matches Phase::AwaitingFetch { secret_id: s2, retry: r2 }
                    && s2 == secret_id && r2.failures == retry.failures + 1)
            } else {
                (a matches GatewayAction::Respond { response } && response.status == 500 && (
                response.body matches ResponseBody::Failure { message, available } && message@
                    == "Vault query failed"@ && available is None)) && final(self).phase is Finished
            },
    {
        let mut ph = Phase::Ready;
        core::mem::swap(&mut ph, &mut self.phase);
        match ph {
            Phase::AwaitingFetch { secret_id, mut retry } => match finish_fetch(outcome) {
                Ok(v) => {
                    self.phase = Phase::Finished;
                    GatewayAction::Respond { response: response_for_secret(v) }
                },
                Err(e) => match self.policy.on_failure(&mut retry) {
                    RetryDecision::RetryAfter { delay_ms } => {
                        let sid_for_call = secret_id.clone();
                        self.phase = Phase::AwaitingFetch { secret_id, retry };
                        GatewayAction::Fetch { secret_id: sid_for_call, delay_ms }
                    },
                    RetryDecision::GiveUp => {
                        self.phase = Phase::Finished;
                        GatewayAction::Respond { response: response_for_error(e) }
                    },
                },
            },
            _ => unreached(),
        }
    }
}

/// Copies the optional canonical organization id handed out with a listing
/// action.
fn clone_opt_string(o: &Option<String>) -> (r: Option<String>)
    ensures
        r == *o,
{
    match o {
        None => None,
        Some(s) => Some(s.clone()),
    }
}

} // verus!
