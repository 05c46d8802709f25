//! Accounts: credentials and tokens, logins, sessions, and the order in which an account
//! is stored.
use vstd::prelude::*;
use crate::account_persistence;
use crate::account_runtime;
use crate::credentials;
use crate::external;
use crate::ids;
use crate::login;
use crate::text;
use crate::account_persistence::{PersistStep, RebindStep, RegistrationStep, StepResult};
use crate::account_runtime::{
    AccountRuntimeState, CryptoRuntimeState, KeyRefreshStep, LegacySettings, LocalMutationState,
    RefreshedKeys, SessionRestore, StoredAccount, StoredValue, SyncKeyOwner,
};
use crate::credentials::{
    AccountClientError, AccountLoginProvisional, AccountSession, AccountTokenSet,
    StoredCredentialRead, StoredPendingLogin, StoredSessionCredential, StoredSessionTokens,
    TokenEvent, TokenStep,
};
use crate::error::ClientError;
use crate::ids::Uuid;
use crate::login::{AccountAuthMode, AuthStart, LoginEvent, LoginStep, LoginTimes};
use crate::model::{AccountSessionState, BillingState};
use crate::protocol::account::BillingResponseDto;

verus! {

/// A missing entitlement is told as that, and every other refusal of the server as a
/// failed request.
pub proof fn law_account_errors(error: AccountClientError)
    ensures
        error is EntitlementRequired <==>
            credentials::account_error(error) is EntitlementRequired,
        !(error is EntitlementRequired) <==>
            credentials::account_error(error) is AccountRequest,
{
}

/// Stored tokens are of the second version, of the issuer that gave them, and hold both
/// tokens and both times under their names.
pub proof fn law_stored_tokens_keep_their_names(
    stored: StoredSessionTokens,
    issuer: Seq<char>,
    tokens: AccountTokenSet,
)
    requires
        stored.stores(issuer, tokens),
    ensures
        stored.version == 2,
        stored.issuer@ == issuer,
        stored.access_token@ == tokens.access_token@,
        stored.access_expires_at_ms == tokens.access_expires_at_ms,
        stored.refresh_token@ == tokens.refresh_token@,
        stored.refresh_expires_at_ms == tokens.refresh_expires_at_ms,
{
}

/// Stored tokens are valid if and only if they are of the second version, name their
/// issuer in its canonical notation, and hold two tokens that are not empty and two
/// times after the epoch.
pub proof fn law_valid_tokens(stored: StoredSessionTokens, canonical: Option<Seq<char>>)
    ensures
        stored.valid(canonical) <==>
            stored.version == 2
                && canonical is Some
                && canonical->Some_0 == stored.issuer@
                && stored.access_token@.len() > 0
                && stored.refresh_token@.len() > 0
                && stored.access_expires_at_ms > 0
                && stored.refresh_expires_at_ms > 0,
{
}

/// A stored login that waits for its device holds the session, the tokens, the keys and
/// the enrollment of the login, each under its name.
pub proof fn law_pending_login_keeps_its_fields(
    stored: StoredPendingLogin,
    issuer: Seq<char>,
    login: AccountLoginProvisional,
)
    requires
        stored.stores(issuer, login),
    ensures
        stored.version == 2,
        stored.issuer@ == issuer,
        stored.email@ == login.session.email@,
        stored.user_id@ == login.session.user_id@,
        stored.tenant_id@ == login.session.tenant_id@,
        stored.device_id@ == login.session.device_id@,
        stored.access_token@ == login.session.tokens.access_token@,
        stored.access_expires_at_ms == login.session.tokens.access_expires_at_ms,
        stored.refresh_token@ == login.session.tokens.refresh_token@,
        stored.refresh_expires_at_ms == login.session.tokens.refresh_expires_at_ms,
        stored.challenge_expires_at_ms == login.challenge_expires_at_ms,
        stored.local_wrapped_master_key@ == login.local_wrapped_master_key@,
        stored.generation == login.keys.generation,
        stored.tenant_generation == login.keys.tenant_generation,
        stored.master_key@ == login.keys.master_key@,
        stored.account_root_private@ == login.keys.account_root_private@,
        stored.tenant_root_dek@ == login.keys.tenant_root_dek@,
        stored.enrollment_suite_id == login.enrollment.suite_id,
        stored.enrollment_account_root_public@ == login.enrollment.account_root_public@,
        stored.enrollment_device_certificate@ == login.enrollment.device_certificate@,
        stored.enrollment_certificate_fingerprint@ == login.enrollment.certificate_fingerprint@,
        stored.enrollment_proof_signature@ == login.enrollment.proof_signature@,
        login.keys.account_root_public is Some,
        stored.account_root_public@ == login.keys.account_root_public->Some_0@,
        login.device_identity is Some,
        stored.device_identity@ == login.device_identity->Some_0@,
{
}

/// A stored login that waits for its device is valid if and only if it is of the second
/// version, names its issuer in its canonical notation, holds an address, tokens, times
/// after the epoch, generations above zero, keys of their lengths, a device identity,
/// and three identifiers that can be read.
pub proof fn law_valid_pending_login(stored: StoredPendingLogin, canonical: Option<Seq<char>>)
    ensures
        stored.valid(canonical) <==>
            stored.version == 2
                && canonical is Some
                && canonical->Some_0 == stored.issuer@
                && stored.email@.len() > 0
                && stored.access_token@.len() > 0
                && stored.refresh_token@.len() > 0
                && stored.access_expires_at_ms > 0
                && stored.refresh_expires_at_ms > 0
                && stored.challenge_expires_at_ms > 0
                && stored.generation > 0
                && stored.tenant_generation > 0
                && stored.master_key@.len() == 32
                && stored.account_root_private@.len() == 64
                && stored.tenant_root_dek@.len() == 32
                && stored.device_identity@.len() > 0
                && ids::parsed(stored.user_id@) is Some
                && ids::parsed(stored.tenant_id@) is Some
                && ids::parsed(stored.device_id@) is Some,
{
}

/// Two logins that count as the same agree in the session, the tokens, the keys, the
/// device identity and the enrollment.
pub proof fn law_same_login(a: AccountLoginProvisional, b: AccountLoginProvisional)
    requires
        credentials::same_login(a, b),
    ensures
        a.session.user_id@ == b.session.user_id@,
        a.session.tenant_id@ == b.session.tenant_id@,
        a.session.device_id@ == b.session.device_id@,
        a.session.email@ == b.session.email@,
        a.session.tokens.access_token@ == b.session.tokens.access_token@,
        a.session.tokens.access_expires_at_ms == b.session.tokens.access_expires_at_ms,
        a.session.tokens.refresh_token@ == b.session.tokens.refresh_token@,
        a.session.tokens.refresh_expires_at_ms == b.session.tokens.refresh_expires_at_ms,
        a.local_wrapped_master_key@ == b.local_wrapped_master_key@,
        a.keys.generation == b.keys.generation,
        a.keys.tenant_generation == b.keys.tenant_generation,
        a.keys.master_key@ == b.keys.master_key@,
        a.keys.account_root_private@ == b.keys.account_root_private@,
        a.keys.tenant_root_dek@ == b.keys.tenant_root_dek@,
        a.enrollment.suite_id == b.enrollment.suite_id,
        a.enrollment.account_root_public@ == b.enrollment.account_root_public@,
        a.enrollment.device_certificate@ == b.enrollment.device_certificate@,
        a.enrollment.certificate_fingerprint@ == b.enrollment.certificate_fingerprint@,
        a.enrollment.proof_signature@ == b.enrollment.proof_signature@,
        a.challenge_expires_at_ms == b.challenge_expires_at_ms,
        a.device_identity is Some <==> b.device_identity is Some,
        a.device_identity is Some ==> a.device_identity->Some_0@ == b.device_identity->Some_0@,
        a.keys.account_root_public is Some <==> b.keys.account_root_public is Some,
        a.keys.account_root_public is Some ==>
            a.keys.account_root_public->Some_0@ == b.keys.account_root_public->Some_0@,
{
}

/// A credential has the issuer and the refresh token of the tokens or of the pending
/// login that it is, and is valid as these are.
pub proof fn law_credential_of_either_kind(
    tokens: StoredSessionTokens,
    pending: Box<StoredPendingLogin>,
    canonical: Option<Seq<char>>,
)
    ensures
        StoredSessionCredential::Active(tokens).issuer_view() == tokens.issuer@,
        StoredSessionCredential::PendingDeviceCertification(pending).issuer_view() == pending.issuer@,
        StoredSessionCredential::Active(tokens).refresh_token_view() == tokens.refresh_token@,
        StoredSessionCredential::PendingDeviceCertification(pending).refresh_token_view() == pending.refresh_token@,
        StoredSessionCredential::Active(tokens).valid(canonical) <==> tokens.valid(canonical),
        StoredSessionCredential::PendingDeviceCertification(pending).valid(canonical) <==>
            pending.valid(canonical),
{
}

/// A failed read is passed on, nothing stored is no credential, a valid credential is
/// what was stored, and anything else leaves the account incomplete.
pub proof fn law_credential_is_loaded_if_valid(
    stored: Result<StoredCredentialRead, ClientError>,
    canonical: Option<Seq<char>>,
)
    ensures
        stored is Err ==>
            credentials::credential_loaded(stored, canonical) is Err
                && credentials::credential_loaded(stored, canonical)->Err_0 == stored->Err_0,
        stored is Ok && stored->Ok_0 is Absent ==>
            credentials::credential_loaded(stored, canonical) is Ok
                && credentials::credential_loaded(stored, canonical)->Ok_0 is None,
        stored is Ok && stored->Ok_0 is Unreadable ==>
            credentials::credential_loaded(stored, canonical) is Err
                && credentials::credential_loaded(stored, canonical)->Err_0 is IncompleteAccountState,
        stored is Ok && stored->Ok_0 is Read && stored->Ok_0->Read_0.valid(canonical) ==>
            credentials::credential_loaded(stored, canonical) is Ok
                && credentials::credential_loaded(stored, canonical)->Ok_0 == Some(stored->Ok_0->Read_0),
        stored is Ok && stored->Ok_0 is Read && !stored->Ok_0->Read_0.valid(canonical) ==>
            credentials::credential_loaded(stored, canonical) is Err
                && credentials::credential_loaded(stored, canonical)->Err_0 is IncompleteAccountState,
{
}

/// What may be absent is seen as absent, and what is there as its text or its bytes.
pub proof fn law_optional_views(origin: Option<String>, bytes: Option<Vec<u8>>)
    ensures
        origin is None <==> credentials::origin_view(origin) is None,
        origin is Some ==> credentials::origin_view(origin)->Some_0 == origin->Some_0@,
        bytes is None <==> credentials::bytes_view(bytes) is None,
        bytes is Some ==> credentials::bytes_view(bytes)->Some_0 == bytes->Some_0@,
{
}

/// Tokens whose refresh token is over are invalid; otherwise the access token is
/// refreshed where that is asked for or it ends within a minute, and used as it is
/// where neither holds.
pub proof fn law_token_is_refreshed_a_minute_early(
    now: i64,
    access: i64,
    refresh: i64,
    force: bool,
)
    ensures
        credentials::token_step(now, access, refresh, force) is Invalidate <==> refresh <= now,
        credentials::token_step(now, access, refresh, force) is Refresh <==>
            refresh > now
                && (force || access <= now + 60_000 || now + 60_000 > i64::MAX),
        credentials::token_step(now, access, refresh, force) is UseStored <==>
            refresh > now
                && !force
                && access > now + 60_000,
{
}

/// The clock decides what becomes of the stored tokens: invalid ones are given up, ones
/// that are to be refreshed are refreshed, and others are handed out. Refreshed tokens
/// are stored for the same issuer before they are handed out, and a grant that is not
/// valid any more gives the tokens up.
pub proof fn law_token_goes_in_order(step: TokenStep, event: TokenEvent, r: TokenStep)
    requires
        credentials::token_step_follows(step, event, r),
    ensures
        step is ReadClock && event is Clock && event->Clock_0 is Err ==>
            r == TokenStep::Done(Err(event->Clock_0->Err_0)),
        step is ReadClock
            && event is Clock
            && event->Clock_0 is Ok
            && step->ReadClock_tokens.refresh_expires_at_ms <= event->Clock_0->Ok_0 ==>
            r is Invalidate,
        step is ReadClock
            && event is Clock
            && event->Clock_0 is Ok
            && step->ReadClock_tokens.refresh_expires_at_ms > event->Clock_0->Ok_0
            && (step->force_refresh || step->ReadClock_tokens.access_expires_at_ms <= event->Clock_0->Ok_0 + 60_000) ==>
            r == (TokenStep::Refresh { tokens: step->ReadClock_tokens }),
        step is ReadClock
            && event is Clock
            && event->Clock_0 is Ok
            && step->ReadClock_tokens.refresh_expires_at_ms > event->Clock_0->Ok_0
            && !step->force_refresh
            && step->ReadClock_tokens.access_expires_at_ms > event->Clock_0->Ok_0 + 60_000 ==>
            r is Done
                && r->Done_0 is Ok
                && r->Done_0->Ok_0.issuer@ == step->ReadClock_tokens.issuer@
                && r->Done_0->Ok_0.token@ == step->ReadClock_tokens.access_token@,
        step is Invalidate && event is Invalidated && event->Invalidated_0 is Err ==>
            r == TokenStep::Done(Err(event->Invalidated_0->Err_0)),
        step is Invalidate && event is Invalidated && event->Invalidated_0 is Ok ==>
            r == TokenStep::Done(Err(ClientError::AccountRequest)),
        step is Refresh && event is Refreshed && event->Refreshed_0 is Ok ==>
            r is Store
                && r->Store_tokens.version == 2
                && r->Store_tokens.issuer@ == step->Refresh_tokens.issuer@
                && r->Store_tokens.access_token@ == event->Refreshed_0->Ok_0.access_token@
                && r->Store_tokens.access_expires_at_ms == event->Refreshed_0->Ok_0.access_expires_at_ms
                && r->Store_tokens.refresh_token@ == event->Refreshed_0->Ok_0.refresh_token@
                && r->Store_tokens.refresh_expires_at_ms == event->Refreshed_0->Ok_0.refresh_expires_at_ms,
        step is Refresh
            && event is Refreshed
            && event->Refreshed_0 is Err
            && event->Refreshed_0->Err_0 is InvalidGrant ==>
            r is Invalidate,
        step is Refresh
            && event is Refreshed
            && event->Refreshed_0 is Err
            && event->Refreshed_0->Err_0 is EntitlementRequired ==>
            r == TokenStep::Done(Err(ClientError::EntitlementRequired)),
        step is Refresh
            && event is Refreshed
            && event->Refreshed_0 is Err
            && (event->Refreshed_0->Err_0 is Server || event->Refreshed_0->Err_0 is Other) ==>
            r == TokenStep::Done(Err(ClientError::AccountRequest)),
        step is Store && event is Stored && event->Stored_0 is Err ==>
            r == TokenStep::Done(Err(event->Stored_0->Err_0)),
        step is Store && event is Stored && event->Stored_0 is Ok ==>
            r is Done
                && r->Done_0 is Ok
                && r->Done_0->Ok_0.issuer@ == step->Store_tokens.issuer@
                && r->Done_0->Ok_0.token@ == step->Store_tokens.access_token@,
        step is Done ==> r == step,
        (step is ReadClock && !(event is Clock))
            || (step is Invalidate && !(event is Invalidated))
            || (step is Refresh && !(event is Refreshed))
            || (step is Store && !(event is Stored)) ==>
            r == TokenStep::Done(Err(ClientError::RuntimeState)),
{
}

/// A login that waits for its device is certified while its access token lasts, and
/// refreshes it once it is over.
pub proof fn law_pending_login_certifies_while_its_token_lasts(
    now_ms: i64,
    access_expires_at_ms: i64,
)
    ensures
        login::pending_step(now_ms, access_expires_at_ms) is Certify <==>
            access_expires_at_ms > now_ms,
        login::pending_step(now_ms, access_expires_at_ms) is RefreshCertifiedDevice <==>
            access_expires_at_ms <= now_ms,
{
}

/// A stored login is resumed if and only if it is asked for as a login, at the server
/// that gave it, under its address in any case of its letters and with blanks around it
/// or without.
pub proof fn law_only_the_same_login_resumes(
    mode: AccountAuthMode,
    pending: StoredPendingLogin,
    server_url: Seq<char>,
    email: Seq<char>,
)
    ensures
        login::resumes(mode, pending, server_url, email) <==>
            mode is Login
                && pending.issuer@ == server_url
                && text::same_ignoring_case(pending.email@, external::trimmed(email)),
{
}

/// Without a server the request fails. A stored login is resumed by the same login and
/// bars everything else; without one, an active session bars the request, and otherwise
/// it registers or logs in, as asked, at the server.
pub proof fn law_authentication_starts_in_order(
    r: Result<AuthStart, ClientError>,
    mode: AccountAuthMode,
    origin: Option<String>,
    email: Seq<char>,
    pending: Result<Option<StoredPendingLogin>, ClientError>,
    active: Result<bool, ClientError>,
)
    requires
        login::auth_started(r, mode, origin, email, pending, active),
    ensures
        origin is None ==> r is Err && r->Err_0 is AccountRequest,
        origin is Some && pending is Err ==> r is Err && r->Err_0 == pending->Err_0,
        origin is Some
            && pending is Ok
            && pending->Ok_0 is Some
            && mode is Login
            && pending->Ok_0->Some_0.issuer@ == origin->Some_0@
            && text::same_ignoring_case(pending->Ok_0->Some_0.email@, external::trimmed(email)) ==>
            r is Ok
                && r->Ok_0 == AuthStart::ResumePending(pending->Ok_0->Some_0),
        origin is Some
            && pending is Ok
            && pending->Ok_0 is Some
            && !(mode is Login && pending->Ok_0->Some_0.issuer@ == origin->Some_0@ && text::same_ignoring_case(pending->Ok_0->Some_0.email@, external::trimmed(email))) ==>
            r is Err
                && r->Err_0 is AccountRequest,
        origin is Some && pending is Ok && pending->Ok_0 is None && active is Err ==>
            r is Err
                && r->Err_0 == active->Err_0,
        origin is Some
            && pending is Ok
            && pending->Ok_0 is None
            && active is Ok
            && active->Ok_0 ==>
            r is Err
                && r->Err_0 is AccountRequest,
        origin is Some
            && pending is Ok
            && pending->Ok_0 is None
            && active is Ok
            && !active->Ok_0
            && mode is Register ==>
            r is Ok
                && r->Ok_0 == (AuthStart::Register { server_url: origin->Some_0 }),
        origin is Some
            && pending is Ok
            && pending->Ok_0 is None
            && active is Ok
            && !active->Ok_0
            && mode is Login ==>
            r is Ok
                && r->Ok_0 == (AuthStart::Login { server_url: origin->Some_0 }),
{
}

/// A server that is named is asked; otherwise the one of the profile is.
pub proof fn law_named_server_comes_first(
    named: Option<String>,
    own: Result<String, ClientError>,
)
    ensures
        named is Some ==>
            login::asked_server(named, own) is Ok
                && login::asked_server(named, own)->Ok_0 == named->Some_0,
        named is None ==> login::asked_server(named, own) == own,
{
}

/// A failure is told as it is, a refusal of the server as the error that it stands for,
/// and anything else as an event out of step.
pub proof fn law_login_errors(event: LoginEvent)
    ensures
        event is Failed ==> login::login_error(event) == event->Failed_0,
        event is Refused && event->Refused_0 is EntitlementRequired ==>
            login::login_error(event) is EntitlementRequired,
        event is Refused && !(event->Refused_0 is EntitlementRequired) ==>
            login::login_error(event) is AccountRequest,
        !(event is Failed || event is Refused) ==> login::login_error(event) is RuntimeState,
{
}

/// A login checks whom it is for, then the clock; it is certified, under refreshed and
/// stored tokens where the old ones are over; and only then are the keys covered, the
/// identity of the device stored, the account and its server stored and the runtime
/// replaced.
pub proof fn law_login_goes_in_order(times: LoginTimes, step: LoginStep, event: LoginEvent)
    ensures
        step is ValidateIdentity && event is Completed ==>
            login::next_login_step(times, step, event) is ReadClock,
        step is ReadClock
            && event is Clock
            && times.refresh_expires_at_ms > event->Clock_0
            && times.access_expires_at_ms > event->Clock_0 ==>
            login::next_login_step(times, step, event) == (LoginStep::Certify { now: event->Clock_0 }),
        step is ReadClock
            && event is Clock
            && times.refresh_expires_at_ms > event->Clock_0
            && times.access_expires_at_ms <= event->Clock_0 ==>
            login::next_login_step(times, step, event) == (LoginStep::RefreshTokens { now: event->Clock_0 }),
        step is RefreshTokens && event is Refreshed ==>
            login::next_login_step(times, step, event) == (LoginStep::StoreRefreshed { now: step->RefreshTokens_now }),
        step is StoreRefreshed && event is Completed ==>
            login::next_login_step(times, step, event) == (LoginStep::Certify { now: step->StoreRefreshed_now }),
        step is Certify && event is Completed ==>
            login::next_login_step(times, step, event) is CoverLocalKeys,
        step is CoverLocalKeys && event is Covered ==>
            login::next_login_step(times, step, event) is StoreDeviceIdentity,
        step is StoreDeviceIdentity && event is Completed ==>
            login::next_login_step(times, step, event) is PersistAccount,
        step is PersistAccount && event is Completed ==>
            login::next_login_step(times, step, event) is StoreServerUrl,
        step is StoreServerUrl && event is Completed ==>
            login::next_login_step(times, step, event) is ReplaceRuntime,
        step is ReplaceRuntime && event is Completed ==>
            login::next_login_step(times, step, event) is Done,
        step is Done || step is Failed ==> login::next_login_step(times, step, event) == step,
{
}

/// A login for another identity is revoked and its credential deleted before its
/// failure is told; one whose refresh token is over has its credential deleted; a
/// refused certification, and a grant that is not valid any more, give the login up
/// only once its challenge is over.
pub proof fn law_login_is_given_up_in_order(
    times: LoginTimes,
    step: LoginStep,
    event: LoginEvent,
)
    ensures
        step is ValidateIdentity && event is Failed ==>
            login::next_login_step(times, step, event) == (LoginStep::Revoke { error: event->Failed_0 }),
        step is ReadClock && event is Clock && times.refresh_expires_at_ms <= event->Clock_0 ==>
            login::next_login_step(times, step, event) == (LoginStep::DeleteCredential { error: ClientError::AccountRequest }),
        step is Revoke && event is Completed ==>
            login::next_login_step(times, step, event) == (LoginStep::DeleteCredential { error: step->Revoke_error }),
        step is DeleteCredential && event is Completed ==>
            login::next_login_step(times, step, event) == LoginStep::Failed(step->DeleteCredential_error),
        step is RefreshTokens
            && event is Refused
            && event->Refused_0 is InvalidGrant
            && times.challenge_expires_at_ms <= step->RefreshTokens_now ==>
            login::next_login_step(times, step, event) == (LoginStep::Revoke { error: ClientError::AccountRequest }),
        step is RefreshTokens
            && event is Refused
            && !(event->Refused_0 is InvalidGrant && times.challenge_expires_at_ms <= step->RefreshTokens_now) ==>
            login::next_login_step(times, step, event) == LoginStep::Failed(login::login_error(event)),
        step is Certify
            && event is Refused
            && times.challenge_expires_at_ms <= step->Certify_now ==>
            login::next_login_step(times, step, event) == (LoginStep::Revoke { error: credentials::account_error(event->Refused_0) }),
        step is Certify
            && event is Refused
            && times.challenge_expires_at_ms > step->Certify_now ==>
            login::next_login_step(times, step, event) == LoginStep::Failed(login::login_error(event)),
        !(step is Done || step is Failed || step is ValidateIdentity) && event is Failed ==>
            login::next_login_step(times, step, event) == LoginStep::Failed(event->Failed_0),
{
}

/// What does not belong to the step of a login fails it.
pub proof fn law_login_out_of_step_fails(times: LoginTimes, step: LoginStep, event: LoginEvent)
    requires
        !(step is Done || step is Failed),
        !(event is Failed || event is Refused),
        (event is Clock && !(step is ReadClock))
            || (event is Refreshed && !(step is RefreshTokens))
            || (event is Covered && !(step is CoverLocalKeys))
            || (event is Completed && (step is ReadClock || step is RefreshTokens || step is CoverLocalKeys)),
    ensures
        login::next_login_step(times, step, event) == LoginStep::Failed(ClientError::RuntimeState),
{
}

/// The times that decide over a login are those of its tokens and of its challenge.
pub proof fn law_times_of_a_login(login: AccountLoginProvisional)
    ensures
        login::times_of(login).access_expires_at_ms == login.session.tokens.access_expires_at_ms,
        login::times_of(login).refresh_expires_at_ms == login.session.tokens.refresh_expires_at_ms,
        login::times_of(login).challenge_expires_at_ms == login.challenge_expires_at_ms,
{
}

/// Refreshed tokens replace the tokens of a login and nothing else, a covered tenant
/// key replaces its generation and its key and nothing else, and no other step changes
/// it.
pub proof fn law_login_changes_only_tokens_and_tenant_key(
    login: AccountLoginProvisional,
    step: LoginStep,
    event: LoginEvent,
)
    ensures
        step is RefreshTokens && event is Refreshed ==>
            login::login_after(login, step, event).session.tokens == event->Refreshed_0,
        step is RefreshTokens && event is Refreshed ==>
            login::login_after(login, step, event).session.user_id == login.session.user_id,
        step is RefreshTokens && event is Refreshed ==>
            login::login_after(login, step, event).session.tenant_id == login.session.tenant_id,
        step is RefreshTokens && event is Refreshed ==>
            login::login_after(login, step, event).session.device_id == login.session.device_id,
        step is RefreshTokens && event is Refreshed ==>
            login::login_after(login, step, event).session.email == login.session.email,
        step is RefreshTokens && event is Refreshed ==>
            login::login_after(login, step, event).keys == login.keys,
        step is RefreshTokens && event is Refreshed ==>
            login::login_after(login, step, event).local_wrapped_master_key == login.local_wrapped_master_key,
        step is RefreshTokens && event is Refreshed ==>
            login::login_after(login, step, event).device_identity == login.device_identity,
        step is RefreshTokens && event is Refreshed ==>
            login::login_after(login, step, event).enrollment == login.enrollment,
        step is RefreshTokens && event is Refreshed ==>
            login::login_after(login, step, event).challenge_expires_at_ms == login.challenge_expires_at_ms,
        step is CoverLocalKeys && event is Covered ==>
            login::login_after(login, step, event).keys.tenant_generation == event->tenant_generation
                && login::login_after(login, step, event).keys.tenant_root_dek == event->tenant_root_dek,
        step is CoverLocalKeys && event is Covered ==>
            login::login_after(login, step, event).session == login.session,
        step is CoverLocalKeys && event is Covered ==>
            login::login_after(login, step, event).keys.generation == login.keys.generation,
        step is CoverLocalKeys && event is Covered ==>
            login::login_after(login, step, event).keys.master_key == login.keys.master_key,
        step is CoverLocalKeys && event is Covered ==>
            login::login_after(login, step, event).keys.account_root_private == login.keys.account_root_private,
        step is CoverLocalKeys && event is Covered ==>
            login::login_after(login, step, event).keys.account_root_public == login.keys.account_root_public,
        step is CoverLocalKeys && event is Covered ==>
            login::login_after(login, step, event).local_wrapped_master_key == login.local_wrapped_master_key,
        step is CoverLocalKeys && event is Covered ==>
            login::login_after(login, step, event).device_identity == login.device_identity,
        step is CoverLocalKeys && event is Covered ==>
            login::login_after(login, step, event).enrollment == login.enrollment,
        step is CoverLocalKeys && event is Covered ==>
            login::login_after(login, step, event).challenge_expires_at_ms == login.challenge_expires_at_ms,
        !(step is RefreshTokens && event is Refreshed)
            && !(step is CoverLocalKeys && event is Covered) ==>
            login::login_after(login, step, event) == login,
{
}

/// The state told of a session is logged in, names its address and its three
/// identifiers, and has no recovery pending.
pub proof fn law_session_told_of_a_login(state: AccountSessionState, session: AccountSession)
    requires
        login::told_of(state, session),
    ensures
        state.logged_in,
        !state.recovery_pending,
        state.email is Some,
        state.email->Some_0@ == session.email@,
        state.user_id is Some,
        state.user_id->Some_0@ == session.user_id@,
        state.tenant_id is Some,
        state.tenant_id->Some_0@ == session.tenant_id@,
        state.device_id is Some,
        state.device_id->Some_0@ == session.device_id@,
{
}

/// A runtime that was not loaded has no session, has restored none, has loaded no
/// credential and no keys.
pub proof fn law_unloaded_runtime(state: AccountRuntimeState)
    ensures
        account_runtime::is_unloaded(state) <==>
            state.session is None
                && !state.session_restored
                && state.loaded_credential_generation is None
                && state.crypto is Unloaded,
        state.logged_in_session() is Some <==>
            state.session is Some
                && state.session->Some_0.logged_in,
        state.logged_in_session() is Some ==> state.logged_in_session() == state.session,
{
}

/// A session of an account is logged in, names its address and its three identifiers,
/// and has no recovery pending.
pub proof fn law_session_of_an_account(
    session: AccountSessionState,
    email: String,
    user_id: String,
    tenant_id: String,
    device_id: String,
)
    ensures
        account_runtime::session_of(session, email, user_id, tenant_id, device_id) <==>
            session.logged_in
                && session.email == Some(email)
                && session.user_id == Some(user_id)
                && session.tenant_id == Some(tenant_id)
                && session.device_id == Some(device_id)
                && !session.recovery_pending,
{
}

/// A session that is logged out names nobody and has no recovery pending.
pub proof fn law_logged_out_session(session: AccountSessionState)
    ensures
        session.is_logged_out() <==>
            !session.logged_in
                && session.email is None
                && session.user_id is None
                && session.tenant_id is None
                && session.device_id is None
                && !session.recovery_pending,
{
}

/// An identifier of a session is the one that its text names, and a missing or
/// unreadable one leaves the account incomplete.
pub proof fn law_identifier_of_a_session(value: Option<String>)
    ensures
        account_runtime::session_id(value) is Ok <==>
            value is Some
                && ids::parsed(value->Some_0@) is Some,
        account_runtime::session_id(value) is Ok ==>
            ids::parsed(value->Some_0@) == Some(account_runtime::session_id(value)->Ok_0),
        account_runtime::session_id(value) is Err ==>
            account_runtime::session_id(value)->Err_0 is IncompleteAccountState,
{
}

/// A value counts if and only if there is more in it than blanks, and then as it is.
pub proof fn law_blank_counts_as_missing(value: Option<String>)
    ensures
        account_runtime::not_blank(value) is Some <==>
            value is Some
                && external::trimmed(value->Some_0@).len() > 0,
        account_runtime::not_blank(value) is Some ==>
            account_runtime::not_blank(value) == value,
{
}

/// A profile counts as bound as soon as one of its settings is there: the address, the
/// user, the tenant, the device, the end of the session, in this order; a failed read
/// is passed on where it is made; without any of them the wrapped key decides.
pub proof fn law_any_trace_of_an_account_binds(
    settings: LegacySettings,
    wrapped: Result<bool, ClientError>,
)
    ensures
        settings.email is Err ==>
            account_runtime::legacy_binding(settings, wrapped) is Err
                && account_runtime::legacy_binding(settings, wrapped)->Err_0 == settings.email->Err_0,
        settings.email is Ok && settings.email->Ok_0 is Some ==>
            account_runtime::legacy_binding(settings, wrapped) is Ok
                && account_runtime::legacy_binding(settings, wrapped)->Ok_0,
        settings.email is Ok && settings.email->Ok_0 is None && settings.user_id is Err ==>
            account_runtime::legacy_binding(settings, wrapped) is Err
                && account_runtime::legacy_binding(settings, wrapped)->Err_0 == settings.user_id->Err_0,
        settings.email is Ok
            && settings.email->Ok_0 is None
            && settings.user_id is Ok
            && settings.user_id->Ok_0 is Some ==>
            account_runtime::legacy_binding(settings, wrapped) is Ok
                && account_runtime::legacy_binding(settings, wrapped)->Ok_0,
        settings.email is Ok
            && settings.email->Ok_0 is None
            && settings.user_id is Ok
            && settings.user_id->Ok_0 is None
            && settings.tenant_id is Err ==>
            account_runtime::legacy_binding(settings, wrapped) is Err
                && account_runtime::legacy_binding(settings, wrapped)->Err_0 == settings.tenant_id->Err_0,
        settings.email is Ok
            && settings.email->Ok_0 is None
            && settings.user_id is Ok
            && settings.user_id->Ok_0 is None
            && settings.tenant_id is Ok
            && settings.tenant_id->Ok_0 is Some ==>
            account_runtime::legacy_binding(settings, wrapped) is Ok
                && account_runtime::legacy_binding(settings, wrapped)->Ok_0,
        settings.email is Ok
            && settings.email->Ok_0 is None
            && settings.user_id is Ok
            && settings.user_id->Ok_0 is None
            && settings.tenant_id is Ok
            && settings.tenant_id->Ok_0 is None
            && settings.device_id is Err ==>
            account_runtime::legacy_binding(settings, wrapped) is Err
                && account_runtime::legacy_binding(settings, wrapped)->Err_0 == settings.device_id->Err_0,
        settings.email is Ok
            && settings.email->Ok_0 is None
            && settings.user_id is Ok
            && settings.user_id->Ok_0 is None
            && settings.tenant_id is Ok
            && settings.tenant_id->Ok_0 is None
            && settings.device_id is Ok
            && settings.device_id->Ok_0 is Some ==>
            account_runtime::legacy_binding(settings, wrapped) is Ok
                && account_runtime::legacy_binding(settings, wrapped)->Ok_0,
        settings.email is Ok
            && settings.email->Ok_0 is None
            && settings.user_id is Ok
            && settings.user_id->Ok_0 is None
            && settings.tenant_id is Ok
            && settings.tenant_id->Ok_0 is None
            && settings.device_id is Ok
            && settings.device_id->Ok_0 is None
            && settings.session_expires_at is Err ==>
            account_runtime::legacy_binding(settings, wrapped) is Err
                && account_runtime::legacy_binding(settings, wrapped)->Err_0 == settings.session_expires_at->Err_0,
        settings.email is Ok
            && settings.email->Ok_0 is None
            && settings.user_id is Ok
            && settings.user_id->Ok_0 is None
            && settings.tenant_id is Ok
            && settings.tenant_id->Ok_0 is None
            && settings.device_id is Ok
            && settings.device_id->Ok_0 is None
            && settings.session_expires_at is Ok
            && settings.session_expires_at->Ok_0 is Some ==>
            account_runtime::legacy_binding(settings, wrapped) is Ok
                && account_runtime::legacy_binding(settings, wrapped)->Ok_0,
        settings.email is Ok
            && settings.email->Ok_0 is None
            && settings.user_id is Ok
            && settings.user_id->Ok_0 is None
            && settings.tenant_id is Ok
            && settings.tenant_id->Ok_0 is None
            && settings.device_id is Ok
            && settings.device_id->Ok_0 is None
            && settings.session_expires_at is Ok
            && settings.session_expires_at->Ok_0 is None ==>
            account_runtime::legacy_binding(settings, wrapped) == wrapped,
{
}

/// A profile that was bound before is taken over if and only if the stored tenant and
/// the stored user are those of the account. A failed read is passed on, a missing or
/// unreadable identifier leaves the account incomplete, and another one is another
/// identity; the tenant is looked at first.
pub proof fn law_legacy_identity_must_be_the_same(
    tenant: Result<Option<String>, ClientError>,
    user: Result<Option<String>, ClientError>,
    tenant_id: Uuid,
    user_id: Uuid,
)
    ensures
        account_runtime::legacy_identity(tenant, user, tenant_id, user_id) is Ok <==>
            tenant is Ok
                && tenant->Ok_0 is Some
                && user is Ok
                && user->Ok_0 is Some
                && ids::parsed(tenant->Ok_0->Some_0@) == Some(tenant_id)
                && ids::parsed(user->Ok_0->Some_0@) == Some(user_id),
        tenant is Err ==>
            account_runtime::legacy_identity(tenant, user, tenant_id, user_id)->Err_0 == tenant->Err_0,
        tenant is Ok && tenant->Ok_0 is None ==>
            account_runtime::legacy_identity(tenant, user, tenant_id, user_id)->Err_0 is IncompleteAccountState,
        tenant is Ok && tenant->Ok_0 is Some && user is Err ==>
            account_runtime::legacy_identity(tenant, user, tenant_id, user_id)->Err_0 == user->Err_0,
        tenant is Ok && tenant->Ok_0 is Some && user is Ok && user->Ok_0 is None ==>
            account_runtime::legacy_identity(tenant, user, tenant_id, user_id)->Err_0 is IncompleteAccountState,
        tenant is Ok
            && tenant->Ok_0 is Some
            && user is Ok
            && user->Ok_0 is Some
            && ids::parsed(tenant->Ok_0->Some_0@) is None ==>
            account_runtime::legacy_identity(tenant, user, tenant_id, user_id)->Err_0 is IncompleteAccountState,
        tenant is Ok
            && tenant->Ok_0 is Some
            && user is Ok
            && user->Ok_0 is Some
            && ids::parsed(tenant->Ok_0->Some_0@) is Some
            && ids::parsed(tenant->Ok_0->Some_0@) != Some(tenant_id) ==>
            account_runtime::legacy_identity(tenant, user, tenant_id, user_id)->Err_0 is ProfileIdentityMismatch,
        tenant is Ok
            && tenant->Ok_0 is Some
            && user is Ok
            && user->Ok_0 is Some
            && ids::parsed(tenant->Ok_0->Some_0@) == Some(tenant_id)
            && ids::parsed(user->Ok_0->Some_0@) is None ==>
            account_runtime::legacy_identity(tenant, user, tenant_id, user_id)->Err_0 is IncompleteAccountState,
        tenant is Ok
            && tenant->Ok_0 is Some
            && user is Ok
            && user->Ok_0 is Some
            && ids::parsed(tenant->Ok_0->Some_0@) == Some(tenant_id)
            && ids::parsed(user->Ok_0->Some_0@) is Some
            && ids::parsed(user->Ok_0->Some_0@) != Some(user_id) ==>
            account_runtime::legacy_identity(tenant, user, tenant_id, user_id)->Err_0 is ProfileIdentityMismatch,
{
}

/// Without stored tokens nothing is restored; tokens that are over are to be deleted;
/// and while they last the session is restored with the stored address and identifiers,
/// unless one of these is missing. A failed read is passed on where it is made.
pub proof fn law_session_is_restored_while_it_lasts(
    r: Result<SessionRestore, ClientError>,
    end: Option<i64>,
    now: Result<i64, ClientError>,
    account: StoredAccount,
)
    requires
        account_runtime::restored_as(r, end, now, account),
    ensures
        end is None ==> r is Ok && r->Ok_0 is Nothing,
        end is Some && now is Err ==> r is Err && r->Err_0 == now->Err_0,
        end is Some && now is Ok ==>
            (end->Some_0 <= now->Ok_0 <==> r is Ok && r->Ok_0 is DeleteExpired),
        end is Some && now is Ok && end->Some_0 > now->Ok_0 && account.email is Err ==>
            r is Err
                && r->Err_0 == account.email->Err_0,
        end is Some
            && now is Ok
            && end->Some_0 > now->Ok_0
            && account.email is Ok
            && account.email->Ok_0 is None ==>
            r is Ok
                && r->Ok_0 is Nothing,
        end is Some
            && now is Ok
            && end->Some_0 > now->Ok_0
            && account.email is Ok
            && account.email->Ok_0 is Some
            && account.user_id is Err ==>
            r is Err
                && r->Err_0 == account.user_id->Err_0,
        end is Some
            && now is Ok
            && end->Some_0 > now->Ok_0
            && account.email is Ok
            && account.email->Ok_0 is Some
            && account.user_id is Ok
            && account.user_id->Ok_0 is None ==>
            r is Ok
                && r->Ok_0 is Nothing,
        end is Some
            && now is Ok
            && end->Some_0 > now->Ok_0
            && account.email is Ok
            && account.email->Ok_0 is Some
            && account.user_id is Ok
            && account.user_id->Ok_0 is Some
            && account.tenant_id is Err ==>
            r is Err
                && r->Err_0 == account.tenant_id->Err_0,
        end is Some
            && now is Ok
            && end->Some_0 > now->Ok_0
            && account.email is Ok
            && account.email->Ok_0 is Some
            && account.user_id is Ok
            && account.user_id->Ok_0 is Some
            && account.tenant_id is Ok
            && account.tenant_id->Ok_0 is None ==>
            r is Ok
                && r->Ok_0 is Nothing,
        end is Some
            && now is Ok
            && end->Some_0 > now->Ok_0
            && account.email is Ok
            && account.email->Ok_0 is Some
            && account.user_id is Ok
            && account.user_id->Ok_0 is Some
            && account.tenant_id is Ok
            && account.tenant_id->Ok_0 is Some
            && account.device_id is Err ==>
            r is Err
                && r->Err_0 == account.device_id->Err_0,
        end is Some
            && now is Ok
            && end->Some_0 > now->Ok_0
            && account.email is Ok
            && account.email->Ok_0 is Some
            && account.user_id is Ok
            && account.user_id->Ok_0 is Some
            && account.tenant_id is Ok
            && account.tenant_id->Ok_0 is Some
            && account.device_id is Ok
            && account.device_id->Ok_0 is None ==>
            r is Ok
                && r->Ok_0 is Nothing,
        end is Some
            && now is Ok
            && end->Some_0 > now->Ok_0
            && account.email is Ok
            && account.email->Ok_0 is Some
            && account.user_id is Ok
            && account.user_id->Ok_0 is Some
            && account.tenant_id is Ok
            && account.tenant_id->Ok_0 is Some
            && account.device_id is Ok
            && account.device_id->Ok_0 is Some ==>
            r is Ok
                && r->Ok_0 is Restore
                && r->Ok_0->Restore_0.logged_in
                && !r->Ok_0->Restore_0.recovery_pending,
        end is Some
            && now is Ok
            && end->Some_0 > now->Ok_0
            && account.email is Ok
            && account.email->Ok_0 is Some
            && account.user_id is Ok
            && account.user_id->Ok_0 is Some
            && account.tenant_id is Ok
            && account.tenant_id->Ok_0 is Some
            && account.device_id is Ok
            && account.device_id->Ok_0 is Some ==>
            r->Ok_0->Restore_0.email == account.email->Ok_0,
        end is Some
            && now is Ok
            && end->Some_0 > now->Ok_0
            && account.email is Ok
            && account.email->Ok_0 is Some
            && account.user_id is Ok
            && account.user_id->Ok_0 is Some
            && account.tenant_id is Ok
            && account.tenant_id->Ok_0 is Some
            && account.device_id is Ok
            && account.device_id->Ok_0 is Some ==>
            r->Ok_0->Restore_0.user_id == account.user_id->Ok_0,
        end is Some
            && now is Ok
            && end->Some_0 > now->Ok_0
            && account.email is Ok
            && account.email->Ok_0 is Some
            && account.user_id is Ok
            && account.user_id->Ok_0 is Some
            && account.tenant_id is Ok
            && account.tenant_id->Ok_0 is Some
            && account.device_id is Ok
            && account.device_id->Ok_0 is Some ==>
            r->Ok_0->Restore_0.tenant_id == account.tenant_id->Ok_0,
        end is Some
            && now is Ok
            && end->Some_0 > now->Ok_0
            && account.email is Ok
            && account.email->Ok_0 is Some
            && account.user_id is Ok
            && account.user_id->Ok_0 is Some
            && account.tenant_id is Ok
            && account.tenant_id->Ok_0 is Some
            && account.device_id is Ok
            && account.device_id->Ok_0 is Some ==>
            r->Ok_0->Restore_0.device_id == account.device_id->Ok_0,
{
}

/// A session is over if and only if its end was read, the clock was read, and the end
/// is not after the time.
pub proof fn law_session_is_over_at_its_end(
    stored: Result<Option<i64>, ClientError>,
    now: Result<i64, ClientError>,
)
    ensures
        account_runtime::session_is_over(stored, now) <==>
            stored is Ok
                && stored->Ok_0 is Some
                && now is Ok
                && stored->Ok_0->Some_0 <= now->Ok_0,
{
}

/// A restored session is the session; otherwise the session stays as it was. A failed
/// restoration is passed on, and expired tokens that cannot be deleted are a failure of
/// the key store.
pub proof fn law_restoring_leaves_the_right_session<D: FnOnce() -> bool>(
    before: AccountRuntimeState,
    after: AccountRuntimeState,
    r: Result<(), ClientError>,
    restored: Result<SessionRestore, ClientError>,
    delete_expired: D,
)
    requires
        account_runtime::session_left(before, after, r, restored, delete_expired),
    ensures
        restored is Err ==>
            r is Err
                && r->Err_0 == restored->Err_0
                && after.session == before.session,
        restored is Ok && restored->Ok_0 is Nothing ==>
            r is Ok
                && after.session == before.session,
        restored is Ok && restored->Ok_0 is Restore ==>
            r is Ok
                && after.session == Some(restored->Ok_0->Restore_0),
        restored is Ok && restored->Ok_0 is DeleteExpired ==> after.session == before.session,
        restored is Ok && restored->Ok_0 is DeleteExpired && r is Ok ==>
            delete_expired.ensures((), true),
        restored is Ok && restored->Ok_0 is DeleteExpired && r is Err ==>
            r->Err_0 is KeyStore
                && delete_expired.ensures((), false),
{
}

/// A session that was restored is not restored again; a failed read of the tokens is
/// passed on and leaves it to be restored later; and any other read counts as restored.
pub proof fn law_session_is_restored_once<
    T: FnOnce() -> Result<Option<i64>, ClientError>, D: FnOnce() -> bool,
>(
    before: AccountRuntimeState,
    after: AccountRuntimeState,
    r: Result<(), ClientError>,
    stored_session: T,
    now: Result<i64, ClientError>,
    account: StoredAccount,
    delete_expired: D,
)
    requires
        account_runtime::session_ensured(before, after, r, stored_session, now, account, delete_expired),
    ensures
        before.session_restored ==>
            r is Ok
                && after.session == before.session
                && after.session_restored,
        !before.session_restored && !after.session_restored ==>
            r is Err
                && after.session == before.session
                && exists|stored: Result<Option<i64>, ClientError>| #[trigger] stored_session.ensures((), stored)
                && stored is Err
                && stored->Err_0 == r->Err_0,
        !before.session_restored && after.session_restored ==>
            exists|stored: Result<Option<i64>, ClientError>| #[trigger] stored_session.ensures((), stored)
                && stored is Ok,
{
    if !before.session_restored {
        let stored = choose|stored: Result<Option<i64>, ClientError>| #[trigger]
            stored_session.ensures((), stored) && account_runtime::session_settled(before, after, r, stored, now, account, delete_expired);
        assert(stored_session.ensures((), stored));
    }
}

/// Billing is asked for the tenant of the logged-in session; without one, or without a
/// tenant in it, the request fails, and an unreadable tenant leaves the account
/// incomplete.
pub proof fn law_billing_is_of_the_session(state: AccountRuntimeState)
    ensures
        account_runtime::billing_tenant_of(state) is Ok <==>
            state.session is Some
                && state.session->Some_0.logged_in
                && state.session->Some_0.tenant_id is Some
                && ids::parsed(state.session->Some_0.tenant_id->Some_0@) is Some,
        account_runtime::billing_tenant_of(state) is Ok ==>
            ids::parsed(state.session->Some_0.tenant_id->Some_0@) == Some(account_runtime::billing_tenant_of(state)->Ok_0),
        account_runtime::billing_tenant_of(state) is Err
            && state.session is Some
            && state.session->Some_0.logged_in
            && state.session->Some_0.tenant_id is Some ==>
            account_runtime::billing_tenant_of(state)->Err_0 is IncompleteAccountState,
        (state.session is None || !state.session->Some_0.logged_in || state.session->Some_0.tenant_id is None) ==>
            account_runtime::billing_tenant_of(state)->Err_0 is AccountRequest,
{
}

/// A billing state holds under each name what the service tells under that name.
pub proof fn law_billing_keeps_its_fields(state: BillingState, response: BillingResponseDto)
    requires
        account_runtime::billing_shows(state, response),
    ensures
        state.provider == response.provider,
        state.provider_app_user_id@ == external::uuid_text(response.provider_app_user_id.value),
        state.lookup_key == response.entitlement.lookup_key,
        state.status == response.entitlement.status,
        state.sync_allowed == response.entitlement.sync_allowed,
        state.store_product_identifier == response.entitlement.store_product_identifier,
        state.expires_at == response.entitlement.expires_at,
        state.grace_expires_at == response.entitlement.grace_expires_at,
        state.will_renew == response.entitlement.will_renew,
        state.environment == response.entitlement.environment,
        state.updated_at == response.entitlement.updated_at,
{
}

/// Keys are refreshed for the tenant, the user and the device of the unlocked keys and
/// under their master key; without a logged-in session the request fails, and without
/// unlocked keys the account is unavailable.
pub proof fn law_keys_are_refreshed_for_the_unlocked_profile(
    r: Result<SyncKeyOwner, ClientError>,
    state: AccountRuntimeState,
)
    requires
        account_runtime::owner_of(r, state),
    ensures
        r is Ok <==>
            state.session is Some
                && state.session->Some_0.logged_in
                && state.crypto is Ready,
        r is Ok ==> r->Ok_0.identity_spec().tenant_id == state.crypto->Ready_0.tenant_id,
        r is Ok ==> r->Ok_0.identity_spec().user_id == state.crypto->Ready_0.user_id,
        r is Ok ==> r->Ok_0.identity_spec().device_id == state.crypto->Ready_0.device_id,
        r is Ok ==> r->Ok_0.master_key_spec() == state.crypto->Ready_0.master_key,
        (state.session is None || !state.session->Some_0.logged_in) ==>
            r->Err_0 is AccountRequest,
        r is Err && state.session is Some && state.session->Some_0.logged_in ==>
            r->Err_0 is AccountBoundUnavailable,
{
}

/// Refreshed keys are of the tenant that they were asked for, with the unwrapped key as
/// the active one at the generation told and the unwrapped older keys as they are; a
/// rotation is behind them if and only if their generation is above the one that is
/// unlocked.
pub proof fn law_refreshed_keys_are_those_unwrapped(
    r: Result<RefreshedKeys, ClientError>,
    owner: SyncKeyOwner,
    generation: u64,
    active: [u8; 32],
    historical: Vec<(u64, [u8; 32])>,
    state: AccountRuntimeState,
)
    requires
        account_runtime::keys_compared(r, owner, generation, active, historical, state),
    ensures
        r is Ok <==> state.crypto is Ready,
        r is Err ==> r->Err_0 is AccountBoundUnavailable,
        r is Ok ==>
            r->Ok_0.identity == owner.identity_spec()
                && r->Ok_0.keys.tenant_id == owner.identity_spec().tenant_id
                && r->Ok_0.keys.tenant_root_dek == Some(active)
                && r->Ok_0.keys.tenant_generation == generation
                && r->Ok_0.keys.historical_tenant_root_deks == historical,
        r is Ok ==>
            (r->Ok_0.rotation_backfill <==> generation > state.crypto->Ready_0.sync_keys.tenant_generation),
{
}

/// Keys are refreshed only where a generation was told and both the active key and the
/// older ones could be unwrapped, for the tenant and with the master key of their
/// owner.
pub proof fn law_keys_are_unwrapped_with_the_master_key<
    A: FnOnce(Uuid, [u8; 32]) -> Option<[u8; 32]>, H: FnOnce(Uuid, [u8; 32]) -> Option<Vec<(u64, [u8; 32])>>,
>(
    r: Result<RefreshedKeys, ClientError>,
    owner: SyncKeyOwner,
    generation: Option<u64>,
    unwrap_active: A,
    unwrap_historical: H,
    state: AccountRuntimeState,
)
    requires
        account_runtime::keys_refreshed(r, owner, generation, unwrap_active, unwrap_historical, state),
    ensures
        generation is None ==> r is Err && r->Err_0 is AccountRequest,
        generation is Some && r is Err ==> r->Err_0 is AccountBoundUnavailable,
        r is Ok ==>
            generation == Some(r->Ok_0.keys.tenant_generation)
                && r->Ok_0.keys.tenant_root_dek is Some
                && unwrap_active.ensures((owner.identity_spec().tenant_id, owner.master_key_spec()), r->Ok_0.keys.tenant_root_dek)
                && unwrap_historical.ensures((owner.identity_spec().tenant_id, owner.master_key_spec()), Some(r->Ok_0.keys.historical_tenant_root_deks)),
{
}

/// Refreshed keys are stored after the records of the rotation were enqueued, the mark
/// of the rotation is cleared only after that, and the runtime is replaced last; a
/// failure ends the refresh.
pub proof fn law_key_refresh_goes_in_order(step: KeyRefreshStep, failed: Option<ClientError>)
    ensures
        failed is None && step is ReadRecords ==>
            account_runtime::next_key_refresh_step(step, failed) is BackfillRotation,
        failed is None && step is BackfillRotation ==>
            account_runtime::next_key_refresh_step(step, failed) is PersistKeys,
        failed is None && step is PersistKeys ==>
            account_runtime::next_key_refresh_step(step, failed) is ReadClock,
        failed is None && step is ReadClock ==>
            account_runtime::next_key_refresh_step(step, failed) is ClearRotationMark,
        failed is None && step is ClearRotationMark ==>
            account_runtime::next_key_refresh_step(step, failed) is ReplaceRuntime,
        failed is None && step is ReplaceRuntime ==>
            account_runtime::next_key_refresh_step(step, failed) is Done,
        step is Done || step is Failed ==>
            account_runtime::next_key_refresh_step(step, failed) == step,
        failed is Some && (step is BackfillRotation || step is ClearRotationMark) ==>
            account_runtime::next_key_refresh_step(step, failed) == KeyRefreshStep::Failed(ClientError::SyncRun),
        failed is Some
            && (step is ReadRecords || step is PersistKeys || step is ReadClock || step is ReplaceRuntime) ==>
            account_runtime::next_key_refresh_step(step, failed) == KeyRefreshStep::Failed(failed->Some_0),
{
}

/// A generation that is needed is the number that was stored; a failed read is passed
/// on, and a missing one or one that is no number leaves the account incomplete.
pub proof fn law_needed_generation(value: Result<Option<String>, ClientError>)
    ensures
        value is Err ==>
            account_runtime::needed_generation(value) is Err
                && account_runtime::needed_generation(value)->Err_0 == value->Err_0,
        value is Ok
            && (value->Ok_0 is None || text::unsigned_value(value->Ok_0->Some_0@, u64::MAX as nat) is None) ==>
            account_runtime::needed_generation(value) is Err
                && account_runtime::needed_generation(value)->Err_0 is IncompleteAccountState,
        value is Ok
            && value->Ok_0 is Some
            && text::unsigned_value(value->Ok_0->Some_0@, u64::MAX as nat) is Some ==>
            account_runtime::needed_generation(value) is Ok
                && (account_runtime::needed_generation(value)->Ok_0) as nat == text::unsigned_value(value->Ok_0->Some_0@, u64::MAX as nat)->Some_0,
{
}

/// A session binds a profile to the tenant, the user and the device that it names, and
/// to none where one of them is missing or unreadable.
pub proof fn law_identity_of_a_session(session: AccountSessionState)
    ensures
        account_runtime::session_identity(session) is Ok <==>
            session.tenant_id is Some
                && ids::parsed(session.tenant_id->Some_0@) is Some
                && session.user_id is Some
                && ids::parsed(session.user_id->Some_0@) is Some
                && session.device_id is Some
                && ids::parsed(session.device_id->Some_0@) is Some,
        account_runtime::session_identity(session) is Err ==>
            account_runtime::session_identity(session)->Err_0 is IncompleteAccountState,
        account_runtime::session_identity(session) is Ok ==>
            ids::parsed(session.tenant_id->Some_0@) == Some(account_runtime::session_identity(session)->Ok_0.tenant_id),
        account_runtime::session_identity(session) is Ok ==>
            ids::parsed(session.user_id->Some_0@) == Some(account_runtime::session_identity(session)->Ok_0.user_id),
        account_runtime::session_identity(session) is Ok ==>
            ids::parsed(session.device_id->Some_0@) == Some(account_runtime::session_identity(session)->Ok_0.device_id),
{
}

/// Each stored value of an account is kept under its name.
pub proof fn law_names_of_stored_values(value: StoredValue)
    ensures
        value is SyncServerUrl ==> value.key() == "sync_server_url"@,
        value is Email ==> value.key() == "account_email"@,
        value is UserId ==> value.key() == "account_user_id"@,
        value is TenantId ==> value.key() == "account_tenant_id"@,
        value is DeviceId ==> value.key() == "account_device_id"@,
        value is SessionExpiresAt ==> value.key() == "account_session_expires_at"@,
        value is RootPublic ==> value.key() == "account_root_public"@,
        value is MasterKeyGeneration ==> value.key() == "account_mk_generation"@,
{
}

/// What may be absent is stored as its text, and as an empty one where it is absent.
pub proof fn law_missing_text_is_empty(value: Option<String>)
    ensures
        value is Some ==> account_runtime::or_empty(value) == value->Some_0@,
        value is None ==> account_runtime::or_empty(value).len() == 0,
{
}

/// Local changes are stamped with the device and encrypted with the keys that are
/// unlocked; an anonymous profile needs neither; and any other may not change anything.
pub proof fn law_mutations_need_the_keys(crypto: CryptoRuntimeState, state: LocalMutationState)
    requires
        account_runtime::mutation_allowed(crypto, state),
    ensures
        state is Ready <==> crypto is Ready,
        state is Anonymous <==> crypto is Anonymous,
        state is AccountBoundUnavailable <==> crypto is Unloaded || crypto is Unavailable,
        crypto is Ready ==>
            state->Ready_0.device_id@ == external::uuid_text(crypto->Ready_0.device_id.value),
        crypto is Ready ==>
            state->Ready_0.keys.tenant_id == crypto->Ready_0.sync_keys.tenant_id,
        crypto is Ready ==>
            state->Ready_0.keys.tenant_root_dek == crypto->Ready_0.sync_keys.tenant_root_dek,
        crypto is Ready ==>
            state->Ready_0.keys.tenant_generation == crypto->Ready_0.sync_keys.tenant_generation,
        crypto is Ready ==>
            state->Ready_0.keys.historical_tenant_root_deks@ == crypto->Ready_0.sync_keys.historical_tenant_root_deks@,
{
}

/// Rebinding begins a transaction, rebinds the device, stores its identifier and
/// commits; a failure anywhere ends it as a failed sync.
pub proof fn law_rebinding_goes_in_order(step: RebindStep, result: StepResult)
    ensures
        result is Completed && step is BeginTransaction ==>
            account_persistence::next_rebind_step(step, result) is RebindDevice,
        result is Completed && step is RebindDevice ==>
            account_persistence::next_rebind_step(step, result) is StoreDeviceId,
        result is Completed && step is StoreDeviceId ==>
            account_persistence::next_rebind_step(step, result) is Commit,
        result is Completed && step is Commit ==>
            account_persistence::next_rebind_step(step, result) is Done,
        step is Done || step is Failed ==>
            account_persistence::next_rebind_step(step, result) == step,
        result is Failed && !(step is Done || step is Failed) ==>
            account_persistence::next_rebind_step(step, result) == RebindStep::Failed(ClientError::Sync),
{
}

/// An account is stored from the device over the keys and the settings to the wrapped
/// root, and its credential is published last; a failure ends it as it is.
pub proof fn law_account_is_stored_in_order(step: PersistStep, result: StepResult)
    ensures
        result is Completed && step is RebindDevice ==>
            account_persistence::next_persist_step(step, result) is PersistCrypto,
        result is Completed && step is PersistCrypto ==>
            account_persistence::next_persist_step(step, result) is StoreWrappedMasterKey,
        result is Completed && step is StoreWrappedMasterKey ==>
            account_persistence::next_persist_step(step, result) is StoreEmail,
        result is Completed && step is StoreEmail ==>
            account_persistence::next_persist_step(step, result) is StoreUserId,
        result is Completed && step is StoreUserId ==>
            account_persistence::next_persist_step(step, result) is StoreTenantId,
        result is Completed && step is StoreTenantId ==>
            account_persistence::next_persist_step(step, result) is StoreDeviceId,
        result is Completed && step is StoreDeviceId ==>
            account_persistence::next_persist_step(step, result) is StoreRootPublic,
        result is Completed && step is StoreRootPublic ==>
            account_persistence::next_persist_step(step, result) is StoreMasterKeyGeneration,
        result is Completed && step is StoreMasterKeyGeneration ==>
            account_persistence::next_persist_step(step, result) is StoreWrappedRoot,
        result is Completed && step is StoreWrappedRoot ==>
            account_persistence::next_persist_step(step, result) is PublishCredential,
        result is Completed && step is PublishCredential ==>
            account_persistence::next_persist_step(step, result) is Done,
        step is Done || step is Failed ==>
            account_persistence::next_persist_step(step, result) == step,
        result is Failed && !(step is Done || step is Failed) ==>
            account_persistence::next_persist_step(step, result) == PersistStep::Failed(result->Failed_0),
{
}

/// A registration checks that the profile is not bound before it registers; then it
/// stores the identity of the device, the account and the server, and replaces the
/// runtime last. A refused registration is a failed request, and every other failure is
/// told as it is.
pub proof fn law_registration_goes_in_order(step: RegistrationStep, result: StepResult)
    ensures
        result is Completed && step is CheckUnbound ==>
            account_persistence::next_registration_step(step, result) is Register,
        result is Completed && step is Register ==>
            account_persistence::next_registration_step(step, result) is StoreDeviceIdentity,
        result is Completed && step is StoreDeviceIdentity ==>
            account_persistence::next_registration_step(step, result) is PersistAccount,
        result is Completed && step is PersistAccount ==>
            account_persistence::next_registration_step(step, result) is StoreServer,
        result is Completed && step is StoreServer ==>
            account_persistence::next_registration_step(step, result) is ReplaceRuntime,
        result is Completed && step is ReplaceRuntime ==>
            account_persistence::next_registration_step(step, result) is Done,
        step is Done || step is Failed ==>
            account_persistence::next_registration_step(step, result) == step,
        result is Failed && step is Register ==>
            account_persistence::next_registration_step(step, result) == RegistrationStep::Failed(ClientError::AccountRequest),
        result is Failed && !(step is Done || step is Failed || step is Register) ==>
            account_persistence::next_registration_step(step, result) == RegistrationStep::Failed(result->Failed_0),
{
}

} // verus!
