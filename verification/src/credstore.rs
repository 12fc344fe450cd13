//! The secure credential store and the login-status decision.
//!
//! One credential record lives in the OS-native secure store under a fixed
//! service and account name. Reads and writes go through the `keyring`
//! crate; everything around those calls — blob encoding and parsing, the
//! treatment of missing entries, expiry, and the migration of a legacy
//! plaintext record — is verified.

use vstd::prelude::*;
use vstd::string::StringExecFns;
use crate::credblob::Credential;
use crate::credblob::credential_matches;
use crate::credblob::encode_credential;
use crate::credblob::parse_credential;
use crate::credblob::spec_parse_credential;
use crate::types::TokenResponse;

verus! {

impl Clone for Credential {
    fn clone(&self) -> (r: Self)
        ensures
            r == *self,
    {
        Credential {
            access_token: self.access_token.clone(),
            refresh_token: self.refresh_token.clone(),
            account_id: self.account_id.clone(),
            email: self.email.clone(),
            name: self.name.clone(),
            expires_at: self.expires_at,
        }
    }
}

/// How a secure-storage call can fail, as the library distinguishes it.
pub enum KeychainFailure {
    /// No record is stored under the entry.
    NoEntry,
    /// Any other backend failure, with its message.
    Other(String),
}

/// Declares `keyring::Entry`, the handle to one record of the platform
/// credential store; opaque here.
#[verifier::external_type_specification]
#[verifier::external_body]
pub struct ExKeyringEntry(keyring::Entry);

/// Relies on `keyring::Entry::new`: opens the entry for the given service
/// and account in the platform credential store.
#[verifier::external_body]
fn keychain_entry(service: &str, account: &str) -> (r: Result<keyring::Entry, String>) {
    keyring::Entry::new(service, account).map_err(|e| format!("keychain init failed: {}", e))
}

/// Relies on `keyring::Entry::get_password`: reads the stored text;
/// `Error::NoEntry` means nothing is stored.
#[verifier::external_body]
fn entry_get_password(e: &keyring::Entry) -> (r: Result<String, KeychainFailure>) {
    match e.get_password() {
        Ok(text) => Ok(text),
        Err(keyring::Error::NoEntry) => Err(KeychainFailure::NoEntry),
        Err(other) => Err(KeychainFailure::Other(format!("{}", other))),
    }
}

/// Relies on `keyring::Entry::set_password`: stores the given text.
#[verifier::external_body]
fn entry_set_password(e: &keyring::Entry, value: &str) -> (r: Result<(), String>) {
    e.set_password(value).map_err(|e| format!("keychain write failed: {}", e))
}

/// Relies on `keyring::Entry::delete_credential`: removes the stored record;
/// `Error::NoEntry` means there was none.
#[verifier::external_body]
fn entry_delete(e: &keyring::Entry) -> (r: Result<(), KeychainFailure>) {
    match e.delete_credential() {
        Ok(()) => Ok(()),
        Err(keyring::Error::NoEntry) => Err(KeychainFailure::NoEntry),
        Err(other) => Err(KeychainFailure::Other(format!("{}", other))),
    }
}

/// The service name the credential entry is stored under.
pub fn keychain_service() -> (r: &'static str)
    ensures
        r@ == "com.snailer.gui"@,
{
    "com.snailer.gui"
}

/// The account name the credential entry is stored under.
pub fn keychain_auth_key() -> (r: &'static str)
    ensures
        r@ == "snailer-auth"@,
{
    "snailer-auth"
}

/// Interpret a raw secure-storage read: a missing entry is a normal empty
/// result; a blob the encoder cannot have produced, or any other backend
/// failure, is an error.
pub fn interpret_keychain_read(outcome: Result<String, KeychainFailure>) -> (r: Result<
    Option<Credential>,
    String,
>)
    ensures
        (match outcome {
            Ok(text) => (match spec_parse_credential(text@) {
                Option::Some((fs, e)) => (r matches Ok(o) && o matches Some(c)
                    && credential_matches(c, fs, e)),
                Option::None => r is Err,
            }),
            Err(KeychainFailure::NoEntry) => r matches Ok(o) && o is None,
            Err(KeychainFailure::Other(_)) => r is Err,
        }),
{
    match outcome {
        Ok(text) => match parse_credential(text.as_str()) {
            Option::Some(c) => Ok(Some(c)),
            Option::None => Err(String::from_str("keychain data invalid")),
        },
        Err(KeychainFailure::NoEntry) => Ok(None),
        Err(KeychainFailure::Other(m)) => {
            let mut s = String::from_str("keychain read failed: ");
            s.append(m.as_str());
            Err(s)
        },
    }
}

/// Interpret a raw delete: clearing an entry that does not exist already
/// satisfies `Clear`, so only other failures are errors.
pub fn interpret_keychain_clear(outcome: Result<(), KeychainFailure>) -> (r: Result<(), String>)
    ensures
        (match outcome {
            Ok(_) => r is Ok,
            Err(KeychainFailure::NoEntry) => r is Ok,
            Err(KeychainFailure::Other(_)) => r is Err,
        }),
{
    match outcome {
        Ok(_) => Ok(()),
        Err(KeychainFailure::NoEntry) => Ok(()),
        Err(KeychainFailure::Other(m)) => {
            let mut s = String::from_str("keychain delete failed: ");
            s.append(m.as_str());
            Err(s)
        },
    }
}

/// `Get()`: read and decode the stored credential. A missing entry is
/// `Ok(None)`; the decoded record, whatever the store returned, is exactly a
/// parse of the stored blob. The result is a function of unknowable store
/// state, so no contract here could pin it down; the whole interpretation of
/// the raw read is stated and verified on `interpret_keychain_read`, which
/// this function applies to the one raw read it performs.
pub fn auth_keychain_get() -> (r: Result<Option<Credential>, String>) {
    let entry = match keychain_entry(keychain_service(), keychain_auth_key()) {
        Ok(e) => e,
        Err(m) => {
            return Err(m);
        },
    };
    let raw = entry_get_password(&entry);
    interpret_keychain_read(raw)
}

/// `Set(c)`: encode and store the credential, overwriting any prior record.
pub fn auth_keychain_set(c: &Credential) -> (r: Result<(), String>) {
    let entry = match keychain_entry(keychain_service(), keychain_auth_key()) {
        Ok(e) => e,
        Err(m) => {
            return Err(m);
        },
    };
    let blob = encode_credential(c);
    entry_set_password(&entry, blob.as_str())
}

/// `Clear()`: delete the stored credential; a record that was never stored
/// is not an error. As with `Get()`, the outcome is a function of unknowable
/// store state; the interpretation of the raw delete is stated and verified
/// on `interpret_keychain_clear`.
pub fn auth_keychain_clear() -> (r: Result<(), String>) {
    let entry = match keychain_entry(keychain_service(), keychain_auth_key()) {
        Ok(e) => e,
        Err(m) => {
            return Err(m);
        },
    };
    let raw = entry_delete(&entry);
    interpret_keychain_clear(raw)
}

/// `c` is expired at time `now`.
pub open spec fn spec_expired(c: Credential, now: int) -> bool {
    c.expires_at matches Some(t) && now > t
}

/// The remaining lifetime reported for `c` at time `now`: seconds until
/// expiry, clamped to `[0, i32::MAX]`; 0 when no expiry is known.
pub open spec fn spec_expires_in(c: Credential, now: int) -> int {
    match c.expires_at {
        Option::None => 0,
        Option::Some(t) => if t - now < 0 {
            0
        } else if t - now > i32::MAX {
            i32::MAX as int
        } else {
            t - now
        },
    }
}

/// `t` reports exactly the identity and remaining lifetime of `c` at `now`.
pub open spec fn spec_token_matches(t: TokenResponse, c: Credential, now: int) -> bool {
    &&& t.access_token@ == c.access_token@
    &&& t.refresh_token@ == c.refresh_token@
    &&& t.account_id@ == c.account_id@
    &&& t.email@ == c.email@
    &&& t.name@ == c.name@
    &&& t.expires_in as int == spec_expires_in(c, now)
}

/// The record `CheckStatus` reports: the secure record when present and
/// unexpired; otherwise, read through to a valid legacy record.
pub open spec fn spec_status_record(
    secure: Option<Credential>,
    legacy: Option<Credential>,
    now: int,
) -> Option<Credential> {
    match secure {
        Option::Some(c) => if spec_expired(c, now) {
            Option::None
        } else {
            Option::Some(c)
        },
        Option::None => match legacy {
            Option::Some(l) => if spec_expired(l, now) {
                Option::None
            } else {
                Option::Some(l)
            },
            Option::None => Option::None,
        },
    }
}

/// The record to copy into secure storage: a valid legacy record seen while
/// secure storage is empty, and nothing else.
pub open spec fn spec_status_migrate(
    secure: Option<Credential>,
    legacy: Option<Credential>,
    now: int,
) -> Option<Credential> {
    match legacy {
        Option::Some(l) => if secure is None && !spec_expired(l, now) {
            Option::Some(l)
        } else {
            Option::None
        },
        Option::None => Option::None,
    }
}

/// Whether the stored record should be cleaned up, best-effort: only when
/// secure storage holds an expired record.
pub open spec fn spec_status_cleanup(secure: Option<Credential>, now: int) -> bool {
    secure matches Some(c) && spec_expired(c, now)
}

/// What one `CheckStatus` pass reports and does.
pub struct StatusOutcome {
    /// The reported login state; `None` is "not logged in".
    pub response: Option<TokenResponse>,
    /// A legacy record to copy into secure storage (write-through; the
    /// legacy source is left in place).
    pub migrate: Option<Credential>,
    /// Best-effort removal of an expired stored record.
    pub cleanup: bool,
}

fn token_of(c: &Credential, now: i64) -> (t: TokenResponse)
    ensures
        spec_token_matches(t, *c, now as int),
{
    let expires_in: i32 = match &c.expires_at {
        Option::None => 0,
        Option::Some(t) => {
            let diff: i128 = (*t as i128) - (now as i128);
            if diff < 0 {
                0
            } else if diff > i32::MAX as i128 {
                i32::MAX
            } else {
                diff as i32
            }
        },
    };
    TokenResponse {
        access_token: c.access_token.clone(),
        refresh_token: c.refresh_token.clone(),
        account_id: c.account_id.clone(),
        email: c.email.clone(),
        name: c.name.clone(),
        expires_in,
    }
}

/// The `CheckStatus` decision: what to report and what to write, given the
/// secure-store record, the legacy record, and the time.
pub fn check_status_decision(
    secure: Option<Credential>,
    legacy: Option<Credential>,
    now: i64,
) -> (r: StatusOutcome)
    ensures
        r.migrate == spec_status_migrate(secure, legacy, now as int),
        r.cleanup == spec_status_cleanup(secure, now as int),
        (match spec_status_record(secure, legacy, now as int) {
            Option::None => r.response is None,
            Option::Some(c) => r.response matches Some(t) && spec_token_matches(t, c, now as int),
        }),
{
    match secure {
        Option::Some(c) => {
            if is_expired(&c, now) {
                StatusOutcome { response: None, migrate: None, cleanup: true }
            } else {
                StatusOutcome { response: Some(token_of(&c, now)), migrate: None, cleanup: false }
            }
        },
        Option::None => match legacy {
            Option::Some(l) => {
                if is_expired(&l, now) {
                    StatusOutcome { response: None, migrate: None, cleanup: false }
                } else {
                    let t = token_of(&l, now);
                    StatusOutcome { response: Some(t), migrate: Some(l), cleanup: false }
                }
            },
            Option::None => StatusOutcome { response: None, migrate: None, cleanup: false },
        },
    }
}

/// Whether `c` is expired at `now`.
pub fn is_expired(c: &Credential, now: i64) -> (b: bool)
    ensures
        b == spec_expired(*c, now as int),
{
    match &c.expires_at {
        Option::None => false,
        Option::Some(t) => now > *t,
    }
}

/// Law: a stored credential whose expiry has passed is reported as not
/// logged in, while an unexpired one is reported as stored.
pub proof fn lemma_expired_is_logged_out(c: Credential, now: int)
    ensures
        spec_expired(c, now) ==> spec_status_record(Some(c), None, now) is None,
        !spec_expired(c, now) ==> spec_status_record(Some(c), None, now) == Some(c),
{
}

/// Law: given only a valid legacy record and no secure entry, one
/// `CheckStatus` pass reports that record and copies it into secure storage;
/// afterwards both stores hold the same record, later passes report it
/// unchanged and migrate nothing further.
pub proof fn lemma_legacy_migration(l: Credential, now: int)
    requires
        !spec_expired(l, now),
    ensures
        spec_status_record(None, Some(l), now) == Some(l),
        spec_status_migrate(None, Some(l), now) == Some(l),
        spec_status_record(Some(l), Some(l), now) == Some(l),
        spec_status_migrate(Some(l), Some(l), now) is None,
{
}

/// One full `CheckStatus` pass against the real secure store: read, decide,
/// write a migrated record through, and clean up an expired record —
/// migration and cleanup are best-effort and never fail the check. Whatever
/// the store returned, a reported login is the rendering of some credential
/// that is unexpired at `now`; the full decision, for each possible store
/// content, is stated and verified on `check_status_decision`.
pub fn auth_check(legacy: Option<Credential>, now: i64) -> (r: Result<
    Option<TokenResponse>,
    String,
>)
    ensures
        (match r {
            Ok(resp) => (match resp {
                Option::Some(t) => exists|c: Credential|
                    spec_token_matches(t, c, now as int) && !spec_expired(c, now as int),
                Option::None => true,
            }),
            Err(_) => true,
        }),
{
    let secure = match auth_keychain_get() {
        Ok(s) => s,
        Err(m) => {
            return Err(m);
        },
    };
    let ghost gsecure = secure;
    let ghost glegacy = legacy;
    let outcome = check_status_decision(secure, legacy, now);
    proof {
        match spec_status_record(gsecure, glegacy, now as int) {
            Option::Some(c) => {
                assert(!spec_expired(c, now as int));
                match &outcome.response {
                    Option::Some(t) => {
                        assert(spec_token_matches(*t, c, now as int) && !spec_expired(
                            c,
                            now as int,
                        ));
                    },
                    Option::None => {},
                }
            },
            Option::None => {},
        }
    }
    match &outcome.migrate {
        Option::Some(l) => {
            let _ = auth_keychain_set(l);
        },
        Option::None => {},
    }
    if outcome.cleanup {
        let _ = auth_keychain_clear();
    }
    Ok(outcome.response)
}

/// The credential stored for a manually entered API key: the key as access
/// token, no refresh token or account identity, and no known expiry.
pub fn api_key_credential(api_key: String) -> (c: Credential)
    ensures
        c.access_token == api_key,
        c.refresh_token@ == Seq::<char>::empty(),
        c.account_id@ == Seq::<char>::empty(),
        c.email@ == "API Key User"@,
        c.name@ == "API Key"@,
        c.expires_at is None,
{
    Credential {
        access_token: api_key,
        refresh_token: String::new(),
        account_id: String::new(),
        email: String::from_str("API Key User"),
        name: String::from_str("API Key"),
        expires_at: None,
    }
}

/// `SetApiKey`: store a caller-supplied key directly, with no expiry.
pub fn auth_set_api_key(api_key: String) -> (r: Result<(), String>) {
    let c = api_key_credential(api_key);
    auth_keychain_set(&c)
}

} // verus!
