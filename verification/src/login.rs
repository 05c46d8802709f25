//! Logging in: how an attempt starts, and how a login that the server has not
//! certified yet is taken to its end.
use vstd::prelude::*;
use vstd::string::*;
use crate::account_runtime::account_session_state;
use crate::credentials;
use crate::credentials::{
    map_account_client_error, AccountClientError, AccountKeyMaterial, AccountLoginProvisional,
    AccountSession, AccountTokenSet, StoredKeysReadable, StoredPendingLogin,
};
use crate::error::ClientError;
use crate::external;
use crate::ids;
use crate::ids::Uuid;
use crate::model::{AccountAuthResult, AccountSessionState};
use crate::organization_flow::parse_uuid;
use crate::profile_runtime::{canonical, canonical_of};
use crate::text;
use crate::text::str_eq;

verus! {

#[derive(Debug, Clone, Copy, PartialEq, Eq, Structural)]
pub enum AccountAuthMode {
    Register,
    Login,
}

/// The first request that a pending login makes.
#[derive(Debug, Clone, Copy, PartialEq, Eq, Structural)]
pub enum PendingLoginNetworkStep {
    Certify,
    RefreshCertifiedDevice,
}

pub open spec fn pending_step(now_ms: i64, access_expires_at_ms: i64) -> PendingLoginNetworkStep {
    if access_expires_at_ms <= now_ms {
        PendingLoginNetworkStep::RefreshCertifiedDevice
    } else {
        PendingLoginNetworkStep::Certify
    }
}

/// Decides the first request of a pending login. The refresh skew of certified sessions
/// does not count: the server refuses to refresh devices that are not certified.
pub fn pending_login_network_step(now_ms: i64, access_expires_at_ms: i64) -> (r:
    PendingLoginNetworkStep)
    ensures
        r == pending_step(now_ms, access_expires_at_ms),
{
    if access_expires_at_ms <= now_ms {
        PendingLoginNetworkStep::RefreshCertifiedDevice
    } else {
        PendingLoginNetworkStep::Certify
    }
}

/// How an attempt to authenticate goes on.
pub enum AuthStart {
    ResumePending(StoredPendingLogin),
    Register { server_url: String },
    Login { server_url: String },
}

/// Whether a pending login is the one that is asked for again.
pub open spec fn resumes(
    mode: AccountAuthMode,
    pending: StoredPendingLogin,
    server_url: Seq<char>,
    email: Seq<char>,
) -> bool {
    &&& mode == AccountAuthMode::Login
    &&& pending.issuer@ == server_url
    &&& text::same_ignoring_case(pending.email@, external::trimmed(email))
}

/// How an attempt goes on at a server whose address has the canonical form `origin`.
pub open spec fn auth_started(
    r: Result<AuthStart, ClientError>,
    mode: AccountAuthMode,
    origin: Option<String>,
    email: Seq<char>,
    pending: Result<Option<StoredPendingLogin>, ClientError>,
    active_session: Result<bool, ClientError>,
) -> bool {
    match origin {
        None => r is Err && r->Err_0 == ClientError::AccountRequest,
        Some(server_url) => match pending {
            Err(error) => r is Err && r->Err_0 == error,
            Ok(Some(login)) => if resumes(mode, login, server_url@, email) {
                r is Ok && r->Ok_0 == AuthStart::ResumePending(login)
            } else {
                r is Err && r->Err_0 == ClientError::AccountRequest
            },
            Ok(None) => match active_session {
                Err(error) => r is Err && r->Err_0 == error,
                Ok(true) => r is Err && r->Err_0 == ClientError::AccountRequest,
                Ok(false) => r is Ok && r->Ok_0 == (match mode {
                    AccountAuthMode::Register => AuthStart::Register { server_url },
                    AccountAuthMode::Login => AuthStart::Login { server_url },
                }),
            },
        },
    }
}

/// The server that is asked for: the one that was named or, without a name, the
/// profile's own.
pub open spec fn asked_server(
    named: Option<String>,
    own: Result<String, ClientError>,
) -> Result<String, ClientError> {
    match named {
        Some(server_url) => Ok(server_url),
        None => own,
    }
}

/// Starts an attempt. A login that still waits for certification can only be resumed,
/// with the same account at the same server; an active session must be logged out
/// first.
///
/// `own_server` is the server that the profile talks to; `canonical_origin` brings an
/// address into its canonical form, where it has one.
pub fn begin_account_auth<O: Fn(&str) -> Option<String>>(
    mode: AccountAuthMode,
    server_url: Option<String>,
    own_server: Result<String, ClientError>,
    canonical_origin: O,
    email: &str,
    pending: Result<Option<StoredPendingLogin>, ClientError>,
    active_session: Result<bool, ClientError>,
) -> (r: Result<AuthStart, ClientError>)
    requires
        forall|address: &str| #[trigger] canonical_origin.requires((address,)),
    ensures
        match asked_server(server_url, own_server) {
            Err(error) => r is Err && r->Err_0 == error,
            Ok(asked) => exists|origin: Option<String>| #[trigger]
                canonical(canonical_origin, asked@, origin) && auth_started(
                    r,
                    mode,
                    origin,
                    email@,
                    pending,
                    active_session,
                ),
        },
{
    let ghost wanted = asked_server(server_url, own_server);
    let asked = match server_url {
        Some(server_url) => server_url,
        None => match own_server {
            Err(error) => {
                return Err(error);
            },
            Ok(server_url) => server_url,
        },
    };
    let origin = canonical_of(&canonical_origin, asked.as_str());
    proof {
        assert(wanted->Ok_0 == asked);
        assert(canonical(canonical_origin, wanted->Ok_0@, origin));
    }
    let server_url = match origin {
        None => {
            return Err(ClientError::AccountRequest);
        },
        Some(server_url) => server_url,
    };
    match pending {
        Err(error) => {
            return Err(error);
        },
        Ok(Some(login)) => {
            let login_mode: bool = match mode {
                AccountAuthMode::Login => true,
                AccountAuthMode::Register => false,
            };
            if !login_mode || !str_eq(login.issuer.as_str(), server_url.as_str())
                || !text::eq_ignore_ascii_case(login.email.as_str(), external::trim(email)) {
                return Err(ClientError::AccountRequest);
            }
            return Ok(AuthStart::ResumePending(login));
        },
        Ok(None) => {},
    }
    match active_session {
        Err(error) => {
            return Err(error);
        },
        Ok(active) => {
            if active {
                return Err(ClientError::AccountRequest);
            }
        },
    }
    match mode {
        AccountAuthMode::Register => Ok(AuthStart::Register { server_url }),
        AccountAuthMode::Login => Ok(AuthStart::Login { server_url }),
    }
}

/// Registration needs a profile that no account was ever bound to.
pub fn ensure_profile_is_unbound_for_registration(
    bound: Result<bool, ClientError>,
    legacy_bound: Result<bool, ClientError>,
) -> (r: Result<(), ClientError>)
    ensures
        r == (match bound {
            Err(error) => Err::<(), ClientError>(error),
            Ok(true) => Err(ClientError::ProfileAlreadyBound),
            Ok(false) => match legacy_bound {
                Err(error) => Err(error),
                Ok(true) => Err(ClientError::ProfileAlreadyBound),
                Ok(false) => Ok(()),
            },
        }),
{
    match bound {
        Err(error) => {
            return Err(error);
        },
        Ok(is_bound) => {
            if is_bound {
                return Err(ClientError::ProfileAlreadyBound);
            }
        },
    }
    match legacy_bound {
        Err(error) => Err(error),
        Ok(is_bound) => if is_bound {
            Err(ClientError::ProfileAlreadyBound)
        } else {
            Ok(())
        },
    }
}

/// When the parts of a pending login expire.
#[derive(Debug, Clone, Copy, PartialEq, Eq, Structural)]
pub struct LoginTimes {
    pub access_expires_at_ms: i64,
    pub refresh_expires_at_ms: i64,
    pub challenge_expires_at_ms: i64,
}

/// What to do next with a pending login.
#[derive(Debug, Clone, Copy, PartialEq, Eq, Structural)]
pub enum LoginStep {
    /// Check that the profile belongs to the same tenant and user.
    ValidateIdentity,
    /// Read the clock.
    ReadClock,
    /// Ask the server for new tokens.
    RefreshTokens { now: i64 },
    /// Store the login with its new tokens.
    StoreRefreshed { now: i64 },
    /// Ask the server to certify the device.
    Certify { now: i64 },
    /// Revoke the login at the server; `error` is reported in the end.
    Revoke { error: ClientError },
    /// Delete the stored credential; `error` is reported in the end.
    DeleteCredential { error: ClientError },
    /// Take over the keys that the profile already has.
    CoverLocalKeys,
    StoreDeviceIdentity,
    PersistAccount,
    StoreServerUrl,
    ReplaceRuntime,
    Done,
    Failed(ClientError),
}

/// What a step came to.
pub enum LoginEvent {
    Completed,
    Clock(i64),
    /// The server handed out new tokens.
    Refreshed(AccountTokenSet),
    /// The tenant key that the login goes on with.
    Covered { tenant_generation: u64, tenant_root_dek: [u8; 32] },
    Failed(ClientError),
    Refused(AccountClientError),
}

/// The error that a failed step is reported with.
pub open spec fn login_error(event: LoginEvent) -> ClientError {
    match event {
        LoginEvent::Failed(error) => error,
        LoginEvent::Refused(error) => credentials::account_error(error),
        _ => ClientError::RuntimeState,
    }
}

/// How a pending login goes on.
///
/// An identity that does not fit, a challenge that is over: the login is revoked at
/// the server first, and only then forgotten. Where the revocation fails the stored
/// credential stays, so that it can be tried again.
pub open spec fn next_login_step(
    times: LoginTimes,
    step: LoginStep,
    event: LoginEvent,
) -> LoginStep {
    let failed = LoginStep::Failed(login_error(event));
    match step {
        LoginStep::ValidateIdentity => match event {
            LoginEvent::Completed => LoginStep::ReadClock,
            LoginEvent::Failed(error) => LoginStep::Revoke { error },
            _ => failed,
        },
        LoginStep::Revoke { error } => match event {
            LoginEvent::Completed => LoginStep::DeleteCredential { error },
            _ => failed,
        },
        LoginStep::DeleteCredential { error } => match event {
            LoginEvent::Completed => LoginStep::Failed(error),
            _ => failed,
        },
        LoginStep::ReadClock => match event {
            LoginEvent::Clock(now) => if times.refresh_expires_at_ms <= now {
                LoginStep::DeleteCredential { error: ClientError::AccountRequest }
            } else {
                match pending_step(now, times.access_expires_at_ms) {
                    PendingLoginNetworkStep::RefreshCertifiedDevice => LoginStep::RefreshTokens {
                        now,
                    },
                    PendingLoginNetworkStep::Certify => LoginStep::Certify { now },
                }
            },
            _ => failed,
        },
        LoginStep::RefreshTokens { now } => match event {
            LoginEvent::Refreshed(_) => LoginStep::StoreRefreshed { now },
            LoginEvent::Refused(AccountClientError::InvalidGrant) => {
                if times.challenge_expires_at_ms <= now {
                    LoginStep::Revoke { error: ClientError::AccountRequest }
                } else {
                    failed
                }
            },
            _ => failed,
        },
        LoginStep::StoreRefreshed { now } => match event {
            LoginEvent::Completed => LoginStep::Certify { now },
            _ => failed,
        },
        LoginStep::Certify { now } => match event {
            LoginEvent::Completed => LoginStep::CoverLocalKeys,
            LoginEvent::Refused(error) => if times.challenge_expires_at_ms <= now {
                LoginStep::Revoke { error: credentials::account_error(error) }
            } else {
                failed
            },
            _ => failed,
        },
        LoginStep::CoverLocalKeys => match event {
            LoginEvent::Covered { .. } => LoginStep::StoreDeviceIdentity,
            _ => failed,
        },
        LoginStep::StoreDeviceIdentity => match event {
            LoginEvent::Completed => LoginStep::PersistAccount,
            _ => failed,
        },
        LoginStep::PersistAccount => match event {
            LoginEvent::Completed => LoginStep::StoreServerUrl,
            _ => failed,
        },
        LoginStep::StoreServerUrl => match event {
            LoginEvent::Completed => LoginStep::ReplaceRuntime,
            _ => failed,
        },
        LoginStep::ReplaceRuntime => match event {
            LoginEvent::Completed => LoginStep::Done,
            _ => failed,
        },
        LoginStep::Done => step,
        LoginStep::Failed(_) => step,
    }
}

fn login_failure(event: &LoginEvent) -> (r: ClientError)
    ensures
        r == login_error(*event),
{
    match event {
        LoginEvent::Failed(error) => *error,
        LoginEvent::Refused(error) => map_account_client_error(*error),
        _ => ClientError::RuntimeState,
    }
}

fn decide_login_step(times: LoginTimes, step: LoginStep, event: &LoginEvent) -> (r: LoginStep)
    ensures
        r == next_login_step(times, step, *event),
{
    let completed: bool = match event {
        LoginEvent::Completed => true,
        _ => false,
    };
    match step {
        LoginStep::ValidateIdentity => match event {
            LoginEvent::Completed => LoginStep::ReadClock,
            LoginEvent::Failed(error) => LoginStep::Revoke { error: *error },
            _ => LoginStep::Failed(login_failure(event)),
        },
        LoginStep::Revoke { error } => if completed {
            LoginStep::DeleteCredential { error }
        } else {
            LoginStep::Failed(login_failure(event))
        },
        LoginStep::DeleteCredential { error } => if completed {
            LoginStep::Failed(error)
        } else {
            LoginStep::Failed(login_failure(event))
        },
        LoginStep::ReadClock => match event {
            LoginEvent::Clock(now) => if times.refresh_expires_at_ms <= *now {
                LoginStep::DeleteCredential { error: ClientError::AccountRequest }
            } else {
                match pending_login_network_step(*now, times.access_expires_at_ms) {
                    PendingLoginNetworkStep::RefreshCertifiedDevice => LoginStep::RefreshTokens {
                        now: *now,
                    },
                    PendingLoginNetworkStep::Certify => LoginStep::Certify { now: *now },
                }
            },
            _ => LoginStep::Failed(login_failure(event)),
        },
        LoginStep::RefreshTokens { now } => match event {
            LoginEvent::Refreshed(_) => LoginStep::StoreRefreshed { now },
            LoginEvent::Refused(AccountClientError::InvalidGrant) => {
                if times.challenge_expires_at_ms <= now {
                    LoginStep::Revoke { error: ClientError::AccountRequest }
                } else {
                    LoginStep::Failed(login_failure(event))
                }
            },
            _ => LoginStep::Failed(login_failure(event)),
        },
        LoginStep::StoreRefreshed { now } => if completed {
            LoginStep::Certify { now }
        } else {
            LoginStep::Failed(login_failure(event))
        },
        LoginStep::Certify { now } => match event {
            LoginEvent::Completed => LoginStep::CoverLocalKeys,
            LoginEvent::Refused(error) => if times.challenge_expires_at_ms <= now {
                LoginStep::Revoke { error: map_account_client_error(*error) }
            } else {
                LoginStep::Failed(login_failure(event))
            },
            _ => LoginStep::Failed(login_failure(event)),
        },
        LoginStep::CoverLocalKeys => match event {
            LoginEvent::Covered { .. } => LoginStep::StoreDeviceIdentity,
            _ => LoginStep::Failed(login_failure(event)),
        },
        LoginStep::StoreDeviceIdentity => if completed {
            LoginStep::PersistAccount
        } else {
            LoginStep::Failed(login_failure(event))
        },
        LoginStep::PersistAccount => if completed {
            LoginStep::StoreServerUrl
        } else {
            LoginStep::Failed(login_failure(event))
        },
        LoginStep::StoreServerUrl => if completed {
            LoginStep::ReplaceRuntime
        } else {
            LoginStep::Failed(login_failure(event))
        },
        LoginStep::ReplaceRuntime => if completed {
            LoginStep::Done
        } else {
            LoginStep::Failed(login_failure(event))
        },
        LoginStep::Done => step,
        LoginStep::Failed(_) => step,
    }
}

/// A pending login on its way to its end.
pub struct PendingLoginRun {
    pub issuer: String,
    pub login: AccountLoginProvisional,
    pub step: LoginStep,
}

/// When the parts of a login expire.
pub open spec fn times_of(login: AccountLoginProvisional) -> LoginTimes {
    LoginTimes {
        access_expires_at_ms: login.session.tokens.access_expires_at_ms,
        refresh_expires_at_ms: login.session.tokens.refresh_expires_at_ms,
        challenge_expires_at_ms: login.challenge_expires_at_ms,
    }
}

/// What an event changes of the login itself: new tokens replace the old ones, and the
/// tenant key of the profile replaces that of the server.
pub open spec fn login_after(
    login: AccountLoginProvisional,
    step: LoginStep,
    event: LoginEvent,
) -> AccountLoginProvisional {
    match (step, event) {
        (
            LoginStep::RefreshTokens { .. },
            LoginEvent::Refreshed(tokens),
        ) => AccountLoginProvisional {
            session: AccountSession { tokens, ..login.session },
            ..login
        },
        (
            LoginStep::CoverLocalKeys,
            LoginEvent::Covered { tenant_generation, tenant_root_dek },
        ) => AccountLoginProvisional {
            keys: AccountKeyMaterial { tenant_generation, tenant_root_dek, ..login.keys },
            ..login
        },
        _ => login,
    }
}

impl PendingLoginRun {
    /// Takes up a login that waits for certification.
    pub fn begin(
        pending: &StoredPendingLogin,
        canonical_issuer: &Option<String>,
        readable: StoredKeysReadable,
    ) -> (r: Result<PendingLoginRun, ClientError>)
        ensures
            if pending.valid(credentials::origin_view(*canonical_issuer))
                && readable.account_root_private && readable.account_root_public
                && readable.device_identity {
                &&& r is Ok
                &&& r->Ok_0.issuer@ == pending.issuer@
                &&& pending.stores(pending.issuer@, r->Ok_0.login)
                &&& r->Ok_0.step == LoginStep::ValidateIdentity
            } else {
                r is Err && r->Err_0 == ClientError::IncompleteAccountState
            },
    {
        match pending.to_provisional(canonical_issuer, readable) {
            Err(error) => Err(error),
            Ok(login) => Ok(
                PendingLoginRun {
                    issuer: pending.issuer.clone(),
                    login,
                    step: LoginStep::ValidateIdentity,
                },
            ),
        }
    }

    /// The tenant and the user that the profile must belong to.
    pub fn identity(&self) -> (r: Result<(Uuid, Uuid), ClientError>)
        ensures
            match ids::parsed(self.login.session.tenant_id@) {
                None => r is Err && r->Err_0 == ClientError::IncompleteAccountState,
                Some(tenant_id) => match ids::parsed(self.login.session.user_id@) {
                    None => r is Err && r->Err_0 == ClientError::IncompleteAccountState,
                    Some(user_id) => r == Ok::<_, ClientError>((tenant_id, user_id)),
                },
            },
    {
        match parse_uuid(self.login.session.tenant_id.as_str()) {
            Err(error) => Err(error),
            Ok(tenant_id) => match parse_uuid(self.login.session.user_id.as_str()) {
                Err(error) => Err(error),
                Ok(user_id) => Ok((tenant_id, user_id)),
            },
        }
    }

    /// Goes on with the login after an event.
    pub fn resume_pending_login(&mut self, event: LoginEvent)
        ensures
            final(self).step == next_login_step(times_of(old(self).login), old(self).step, event),
            final(self).login == login_after(old(self).login, old(self).step, event),
            final(self).issuer == old(self).issuer,
    {
        let times = LoginTimes {
            access_expires_at_ms: self.login.session.tokens.access_expires_at_ms,
            refresh_expires_at_ms: self.login.session.tokens.refresh_expires_at_ms,
            challenge_expires_at_ms: self.login.challenge_expires_at_ms,
        };
        let step: LoginStep = self.step;
        self.step = decide_login_step(times, step, &event);
        match event {
            LoginEvent::Refreshed(tokens) => match step {
                LoginStep::RefreshTokens { .. } => {
                    self.login.session.tokens = tokens;
                },
                _ => {},
            },
            LoginEvent::Covered { tenant_generation, tenant_root_dek } => match step {
                LoginStep::CoverLocalKeys => {
                    self.login.keys.tenant_generation = tenant_generation;
                    self.login.keys.tenant_root_dek = tenant_root_dek;
                },
                _ => {},
            },
            _ => {},
        }
    }
}

/// What a frontend is told of a session.
pub open spec fn told_of(state: AccountSessionState, session: AccountSession) -> bool {
    &&& state.logged_in
    &&& credentials::origin_view(state.email) == Some(session.email@)
    &&& credentials::origin_view(state.user_id) == Some(session.user_id@)
    &&& credentials::origin_view(state.tenant_id) == Some(session.tenant_id@)
    &&& credentials::origin_view(state.device_id) == Some(session.device_id@)
    &&& !state.recovery_pending
}

/// What an authentication is answered with. Only a registration hands out a recovery
/// key.
pub fn authenticated(session: &AccountSession, recovery_key: Option<String>) -> (r:
    AccountAuthResult)
    ensures
        told_of(r.session, *session),
        r.recovery_key == recovery_key,
{
    AccountAuthResult {
        session: account_session_state(
            session.email.clone(),
            session.user_id.clone(),
            session.tenant_id.clone(),
            session.device_id.clone(),
        ),
        recovery_key,
    }
}

/// The steps that only a certified device gets to.
pub open spec fn after_certification(step: LoginStep) -> bool {
    ||| step is CoverLocalKeys
    ||| step is StoreDeviceIdentity
    ||| step is PersistAccount
    ||| step is StoreServerUrl
    ||| step is ReplaceRuntime
    ||| step is Done
}

/// Nothing of an account is stored before the server certified the device.
pub proof fn law_only_certified_logins_complete(
    times: LoginTimes,
    step: LoginStep,
    event: LoginEvent,
)
    requires
        after_certification(next_login_step(times, step, event)),
    ensures
        after_certification(step) || (step is Certify && event is Completed),
{
}

/// A stored credential is only deleted once the server revoked the login, or when its
/// refresh token has run out.
pub proof fn law_credential_outlives_failed_revocation(
    times: LoginTimes,
    step: LoginStep,
    event: LoginEvent,
)
    requires
        !(step is DeleteCredential),
        next_login_step(times, step, event) is DeleteCredential,
    ensures
        (step is Revoke && event is Completed) || (step is ReadClock && event is Clock
            && times.refresh_expires_at_ms <= event->Clock_0),
{
}

/// A login that is not certified is refreshed only when its access token has run out;
/// otherwise certification is tried first, even when the challenge is over.
pub proof fn law_certification_comes_before_refresh(times: LoginTimes, now: i64)
    requires
        now < times.refresh_expires_at_ms,
    ensures
        next_login_step(times, LoginStep::ReadClock, LoginEvent::Clock(now)) == (
        if times.access_expires_at_ms <= now {
            LoginStep::RefreshTokens { now }
        } else {
            LoginStep::Certify { now }
        }),
{
}

/// What is certified and persisted in the end is the login that was begun, but for the
/// tokens that the server renewed and the tenant key that the profile already had.
pub proof fn law_login_keeps_its_identity(
    login: AccountLoginProvisional,
    step: LoginStep,
    event: LoginEvent,
)
    ensures
        ({
            let after = login_after(login, step, event);
            &&& after.session.user_id == login.session.user_id
            &&& after.session.tenant_id == login.session.tenant_id
            &&& after.session.device_id == login.session.device_id
            &&& after.session.email == login.session.email
            &&& after.keys.generation == login.keys.generation
            &&& after.keys.master_key == login.keys.master_key
            &&& after.keys.account_root_private == login.keys.account_root_private
            &&& after.keys.account_root_public == login.keys.account_root_public
            &&& after.local_wrapped_master_key == login.local_wrapped_master_key
            &&& after.device_identity == login.device_identity
            &&& after.enrollment == login.enrollment
            &&& after.challenge_expires_at_ms == login.challenge_expires_at_ms
        }),
{
}

/// How far a pending login still is from its end.
pub open spec fn login_rank(step: LoginStep) -> nat {
    match step {
        LoginStep::ValidateIdentity => 11,
        LoginStep::ReadClock => 10,
        LoginStep::RefreshTokens { .. } => 9,
        LoginStep::StoreRefreshed { .. } => 8,
        LoginStep::Certify { .. } => 7,
        LoginStep::CoverLocalKeys => 6,
        LoginStep::StoreDeviceIdentity => 5,
        LoginStep::PersistAccount => 4,
        LoginStep::StoreServerUrl => 3,
        LoginStep::ReplaceRuntime => 2,
        LoginStep::Revoke { .. } => 2,
        LoginStep::DeleteCredential { .. } => 1,
        LoginStep::Done => 0,
        LoginStep::Failed(_) => 0,
    }
}

/// Every pending login comes to an end.
pub proof fn law_login_ends(times: LoginTimes, step: LoginStep, event: LoginEvent)
    requires
        !(step is Done),
        !(step is Failed),
    ensures
        login_rank(next_login_step(times, step, event)) < login_rank(step),
{
}

} // verus!
