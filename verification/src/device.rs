//! The device-authorization client.
//!
//! `StartDeviceLogin` creates a device-code session; `PollDeviceToken` polls
//! until the user has authorized in a browser. The RPC transport runs in the
//! application; this module owns the in-memory session, builds the request
//! payloads, classifies remote failures into the taxonomy callers branch on,
//! and turns a successful answer into a stored credential.

use vstd::prelude::*;
use vstd::string::StringExecFns;
use crate::credblob::Credential;
use crate::ids::fresh_uuid;
use crate::textutil::contains_substring;
use crate::textutil::has_substring;
use crate::types::DeviceCodeResponse;
use crate::types::TokenResponse;

verus! {

/// The transport-level status code of a failed poll, as the application
/// reports it back from the RPC layer.
pub enum RpcCode {
    FailedPrecondition,
    ResourceExhausted,
    Unauthenticated,
    Other,
}

/// The classification of a failed poll, the taxonomy callers branch on.
pub enum PollClass {
    /// The user has not finished authorizing; keep polling.
    Pending,
    /// The device code has expired; the session is dead and login must be
    /// restarted.
    Expired,
    /// The service asks for a longer polling interval.
    SlowDown,
    /// The client identifier was rejected; fatal and non-retryable.
    InvalidClient,
    /// A precondition failure that is neither pending nor expired, with the
    /// remote message.
    PreconditionFailed(String),
    /// Any other failure, surfaced verbatim.
    OtherFailure(String),
}

/// A poll answer is classified as pending when the remote precondition
/// message names `authorization_pending`.
pub open spec fn spec_is_pending(code: RpcCode, msg: Seq<char>) -> bool {
    code is FailedPrecondition && has_substring(msg, "authorization_pending"@)
}

/// A poll answer is classified as expired when the remote precondition
/// message names `expired_token` (and not `authorization_pending`).
pub open spec fn spec_is_expired_answer(code: RpcCode, msg: Seq<char>) -> bool {
    code is FailedPrecondition && !has_substring(msg, "authorization_pending"@) && has_substring(
        msg,
        "expired_token"@,
    )
}

/// The request payload of `StartDeviceLogin`.
pub struct DeviceCodeRequest {
    pub client_id: String,
    pub scope: String,
    pub idempotency_key: String,
    pub user_agent: String,
}

/// The request payload of `PollDeviceToken`.
pub struct PollRequest {
    pub device_code: String,
    pub client_id: String,
}

/// The fixed client identifier this tool presents to the auth service.
pub fn auth_client_id() -> (r: &'static str)
    ensures
        r@ == "snailer-cli"@,
{
    "snailer-cli"
}

/// The payload of a create-device-code call: fixed client id and scope, a
/// fresh idempotency key, and a user agent naming the application version.
pub fn new_device_code_request(app_version: &str) -> (r: DeviceCodeRequest)
    ensures
        r.client_id@ == "snailer-cli"@,
        r.scope@ == "read write"@,
        r.idempotency_key@.len() == 36,
        r.user_agent@ == "snailer-gui/"@ + app_version@,
{
    let mut ua = String::from_str("snailer-gui/");
    ua.append(app_version);
    DeviceCodeRequest {
        client_id: String::from_str(auth_client_id()),
        scope: String::from_str("read write"),
        idempotency_key: fresh_uuid(),
        user_agent: ua,
    }
}

/// The payload of a poll call for the given device code.
pub fn new_poll_request(device_code: String) -> (r: PollRequest)
    ensures
        r.device_code == device_code,
        r.client_id@ == "snailer-cli"@,
{
    PollRequest { device_code, client_id: String::from_str(auth_client_id()) }
}

/// The request timeout of the create-device-code call, in seconds.
pub fn create_code_timeout_secs() -> (r: u64)
    ensures
        r == 10,
{
    10
}

/// The request timeout of one poll call, in seconds.
pub fn poll_timeout_secs() -> (r: u64)
    ensures
        r == 5,
{
    5
}

/// The poll interval to use: what the service returned, or 5 seconds when it
/// returned a non-positive value.
pub fn normalize_interval(interval: i32) -> (r: i32)
    ensures
        interval > 0 ==> r == interval,
        interval <= 0 ==> r == 5,
{
    if interval > 0 {
        interval
    } else {
        5
    }
}

/// Classify a failed poll by its status code and message, by substring match
/// only — never by guessing.
pub fn classify_poll_failure(code: &RpcCode, message: &str) -> (r: PollClass)
    ensures
        spec_is_pending(*code, message@) ==> r is Pending,
        spec_is_expired_answer(*code, message@) ==> r is Expired,
        (code is FailedPrecondition && !has_substring(message@, "authorization_pending"@)
            && !has_substring(message@, "expired_token"@)) ==> (r matches
        PollClass::PreconditionFailed(m) && m@ == message@),
        code is ResourceExhausted ==> r is SlowDown,
        code is Unauthenticated ==> r is InvalidClient,
        code is Other ==> (r matches PollClass::OtherFailure(m) && m@ == message@),
{
    match code {
        RpcCode::FailedPrecondition => {
            if contains_substring(message, "authorization_pending") {
                PollClass::Pending
            } else if contains_substring(message, "expired_token") {
                PollClass::Expired
            } else {
                PollClass::PreconditionFailed(String::from_str(message))
            }
        },
        RpcCode::ResourceExhausted => PollClass::SlowDown,
        RpcCode::Unauthenticated => PollClass::InvalidClient,
        RpcCode::Other => PollClass::OtherFailure(String::from_str(message)),
    }
}

/// The session after a failed poll: an expired answer ends it; any other
/// answer leaves it as it was.
pub open spec fn spec_session_after_failure(
    session: Option<DeviceCodeResponse>,
    code: RpcCode,
    msg: Seq<char>,
) -> Option<DeviceCodeResponse> {
    if spec_is_expired_answer(code, msg) {
        Option::None
    } else {
        session
    }
}

/// A poll for `code` is accepted only while a session with that device code
/// is in flight.
pub open spec fn spec_poll_allowed(session: Option<DeviceCodeResponse>, code: Seq<char>) -> bool {
    session matches Some(s) && s.device_code@ == code
}

/// The device-authorization client: at most one session in flight, held only
/// in memory.
pub struct DeviceAuthClient {
    pub session: Option<DeviceCodeResponse>,
}

impl DeviceAuthClient {
    /// A client with no session in flight.
    pub fn new() -> (c: Self)
        ensures
            c.session is None,
    {
        DeviceAuthClient { session: None }
    }

    /// The session currently in flight, if any.
    pub fn auth_state(&self) -> (r: &Option<DeviceCodeResponse>)
        ensures
            *r == self.session,
    {
        &self.session
    }

    /// Store the session a successful create-device-code call returned,
    /// replacing any prior session; a non-positive poll interval is replaced
    /// by the 5-second default. Returns the stored session.
    pub fn begin_session(&mut self, resp: DeviceCodeResponse) -> (r: DeviceCodeResponse)
        ensures
            final(self).session == (Some(r)),
            r.device_code == resp.device_code,
            r.user_code == resp.user_code,
            r.verification_uri == resp.verification_uri,
            r.verification_uri_complete == resp.verification_uri_complete,
            r.expires_in == resp.expires_in,
            resp.interval > 0 ==> r.interval == resp.interval,
            resp.interval <= 0 ==> r.interval == 5,
    {
        let normalized = DeviceCodeResponse {
            interval: normalize_interval(resp.interval),
            device_code: resp.device_code,
            user_code: resp.user_code,
            verification_uri: resp.verification_uri,
            verification_uri_complete: resp.verification_uri_complete,
            expires_in: resp.expires_in,
        };
        let r = normalized.clone();
        self.session = Some(normalized);
        r
    }

    /// Whether a poll for `device_code` may be issued: only while a session
    /// with that code is in flight.
    pub fn poll_allowed(&self, device_code: &str) -> (b: bool)
        ensures
            b == spec_poll_allowed(self.session, device_code@),
    {
        match &self.session {
            Option::None => false,
            Option::Some(s) => crate::textutil::str_eq(s.device_code.as_str(), device_code),
        }
    }

    /// Record a failed poll: classify it, and end the session when the
    /// answer says the device code has expired.
    pub fn handle_poll_failure(&mut self, code: &RpcCode, message: &str) -> (r: PollClass)
        ensures
            final(self).session == spec_session_after_failure(old(self).session, *code, message@),
            spec_is_pending(*code, message@) ==> r is Pending,
            spec_is_expired_answer(*code, message@) ==> r is Expired,
            code is ResourceExhausted ==> r is SlowDown,
            code is Unauthenticated ==> r is InvalidClient,
    {
        let class = classify_poll_failure(code, message);
        if let PollClass::Expired = class {
            self.session = None;
            return PollClass::Expired;
        }
        class
    }

    /// Record a successful poll: the session is cleared.
    pub fn end_session(&mut self)
        ensures
            final(self).session is None,
    {
        self.session = None;
    }

    /// `Logout`: clear the in-flight session unconditionally.
    pub fn logout(&mut self)
        ensures
            final(self).session is None,
    {
        self.session = None;
    }
}

/// The stored credential for a successful token exchange at time `now`: the
/// returned identity with an absolute expiry computed from the relative
/// lifetime.
pub fn token_to_credential(t: TokenResponse, now: i64) -> (c: Credential)
    requires
        i64::MIN <= now + t.expires_in <= i64::MAX,
    ensures
        c.access_token == t.access_token,
        c.refresh_token == t.refresh_token,
        c.account_id == t.account_id,
        c.email == t.email,
        c.name == t.name,
        c.expires_at == (Some((now + t.expires_in as i64) as i64)),
{
    Credential {
        access_token: t.access_token,
        refresh_token: t.refresh_token,
        account_id: t.account_id,
        email: t.email,
        name: t.name,
        expires_at: Some(now + t.expires_in as i64),
    }
}

/// Law: a pending answer leaves the in-flight session intact, and polling
/// the same code stays allowed; an expired answer ends the session, after
/// which a poll with that same code is rejected.
pub proof fn lemma_poll_session_lifecycle(s: DeviceCodeResponse, code: RpcCode, msg: Seq<char>)
    requires
        code is FailedPrecondition,
    ensures
        has_substring(msg, "authorization_pending"@) ==> spec_session_after_failure(
            Some(s),
            code,
            msg,
        ) == Some(s) && spec_poll_allowed(
            spec_session_after_failure(Some(s), code, msg),
            s.device_code@,
        ),
        spec_is_expired_answer(code, msg) ==> spec_session_after_failure(Some(s), code, msg)
            is None && !spec_poll_allowed(
            spec_session_after_failure(Some(s), code, msg),
            s.device_code@,
        ),
{
}

/// `Logout`: clear secure storage and the in-flight session unconditionally;
/// a store with nothing to clear is not a failure, and no store error stops
/// the session from being cleared.
pub fn auth_logout(client: &mut DeviceAuthClient)
    ensures
        final(client).session is None,
{
    let _ = crate::credstore::auth_keychain_clear();
    client.logout();
}

} // verus!
