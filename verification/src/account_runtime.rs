//! The account side of an open profile: which account it belongs to, whether its keys
//! are unlocked, and what a session may do.
use vstd::prelude::*;
use vstd::string::*;
use crate::credentials;
use crate::credentials::AccountClientError;
use crate::domain::List;
use crate::error::ClientError;
use crate::external;
use crate::ids;
use crate::ids::Uuid;
use crate::local_crypto::{
    LocalCryptoAvailability, LocalCryptoContext, LocalCryptoIdentity, LocalCryptoUnavailable,
    LocalMutationContext, LocalProfileBinding, LocalSyncKeys,
};
use crate::model::{AccountSessionState, BillingState};
use crate::organization_flow;
use crate::organization_flow::{need_setting, parse_uuid, AccountRootPublicKeys};
use crate::protocol::account::BillingResponseDto;
use crate::text;

verus! {

pub enum CryptoRuntimeState {
    Unloaded,
    Anonymous,
    Ready(Box<LocalCryptoContext>),
    Unavailable(LocalCryptoUnavailable),
}

/// What a running client knows of its account.
pub struct AccountRuntimeState {
    pub session: Option<AccountSessionState>,
    pub session_restored: bool,
    pub loaded_credential_generation: Option<String>,
    pub crypto: CryptoRuntimeState,
}

/// The state before anything was restored.
pub open spec fn is_unloaded(state: AccountRuntimeState) -> bool {
    &&& state.session is None
    &&& !state.session_restored
    &&& state.loaded_credential_generation is None
    &&& state.crypto is Unloaded
}

impl AccountRuntimeState {
    /// The state of a client that was just opened.
    pub fn unloaded() -> (r: AccountRuntimeState)
        ensures
            is_unloaded(r),
    {
        AccountRuntimeState {
            session: None,
            session_restored: false,
            loaded_credential_generation: None,
            crypto: CryptoRuntimeState::Unloaded,
        }
    }

    /// Forgets everything that was restored, as after a change of the profile's keys.
    pub fn reset(&mut self)
        ensures
            is_unloaded(*final(self)),
    {
        self.session = None;
        self.session_restored = false;
        self.loaded_credential_generation = None;
        self.crypto = CryptoRuntimeState::Unloaded;
    }

    /// Takes over a session and unlocked keys.
    pub fn replace_account_runtime(
        &mut self,
        session: Option<AccountSessionState>,
        crypto: LocalCryptoContext,
    )
        ensures
            final(self).session == session,
            final(self).session_restored,
            final(self).loaded_credential_generation == old(self).loaded_credential_generation,
            final(self).crypto == CryptoRuntimeState::Ready(Box::new(crypto)),
    {
        self.session = session;
        self.session_restored = true;
        self.crypto = CryptoRuntimeState::Ready(Box::new(crypto));
    }

    /// Drops the session. The keys stay, so that local work goes on.
    pub fn invalidate_remote_session(&mut self)
        ensures
            final(self).session is None,
            final(self).session_restored,
            final(self).loaded_credential_generation == old(self).loaded_credential_generation,
            final(self).crypto == old(self).crypto,
    {
        self.session = None;
        self.session_restored = true;
    }

    /// The session that is logged in.
    pub open spec fn logged_in_session(self) -> Option<AccountSessionState> {
        match self.session {
            Some(session) => if session.logged_in {
                Some(session)
            } else {
                None
            },
            None => None,
        }
    }
}

/// Ends the session of an account. The server is told first: as long as it has not
/// revoked the session, the credential stays and so does the session. The keys stay in
/// any case, so that local work goes on.
///
/// `revocation` is what the server answered, where there was a credential to revoke;
/// `delete_credential` deletes it from the key store.
pub fn account_logout<D: FnOnce() -> bool>(
    state: &mut AccountRuntimeState,
    revocation: Option<Result<(), AccountClientError>>,
    delete_credential: D,
) -> (r: Result<(), ClientError>)
    requires
        !(revocation is Some && revocation->Some_0 is Err) ==> delete_credential.requires(()),
    ensures
        match revocation {
            Some(Err(error)) => {
                &&& r == Err::<(), ClientError>(credentials::account_error(error))
                &&& *final(state) == *old(state)
            },
            _ => exists|deleted: bool| #[trigger]
                delete_credential.ensures((), deleted) && if deleted {
                    &&& r is Ok
                    &&& final(state).session is None
                    &&& final(state).session_restored
                    &&& final(state).loaded_credential_generation
                        == old(state).loaded_credential_generation
                    &&& final(state).crypto == old(state).crypto
                } else {
                    &&& r == Err::<(), ClientError>(ClientError::KeyStore)
                    &&& *final(state) == *old(state)
                },
        },
{
    match revocation {
        Some(Err(error)) => {
            return Err(credentials::map_account_client_error(error));
        },
        _ => {},
    }
    let deleted: bool = delete_credential();
    proof {
        assert(delete_credential.ensures((), deleted));
    }
    if !deleted {
        return Err(ClientError::KeyStore);
    }
    state.invalidate_remote_session();
    Ok(())
}

/// The session that goes with an account.
pub open spec fn session_of(
    session: AccountSessionState,
    email: String,
    user_id: String,
    tenant_id: String,
    device_id: String,
) -> bool {
    &&& session.logged_in
    &&& session.email == Some(email)
    &&& session.user_id == Some(user_id)
    &&& session.tenant_id == Some(tenant_id)
    &&& session.device_id == Some(device_id)
    &&& !session.recovery_pending
}

pub fn account_session_state(
    email: String,
    user_id: String,
    tenant_id: String,
    device_id: String,
) -> (r: AccountSessionState)
    ensures
        session_of(r, email, user_id, tenant_id, device_id),
{
    AccountSessionState {
        logged_in: true,
        email: Some(email),
        user_id: Some(user_id),
        tenant_id: Some(tenant_id),
        device_id: Some(device_id),
        recovery_pending: false,
    }
}

/// The identifier in a session.
pub open spec fn session_id(value: Option<String>) -> Result<Uuid, ClientError> {
    match value {
        None => Err(ClientError::IncompleteAccountState),
        Some(text) => match ids::parsed(text@) {
            Some(id) => Ok(id),
            None => Err(ClientError::IncompleteAccountState),
        },
    }
}

pub fn parse_session_id(value: &Option<String>) -> (r: Result<Uuid, ClientError>)
    ensures
        r == session_id(*value),
{
    match value {
        None => Err(ClientError::IncompleteAccountState),
        Some(text) => parse_uuid(text.as_str()),
    }
}

/// A setting that counts only when it is not blank.
pub open spec fn not_blank(value: Option<String>) -> Option<String> {
    match value {
        Some(text) => if external::trimmed(text@).len() == 0 {
            None
        } else {
            Some(text)
        },
        None => None,
    }
}

/// Takes a stored value, unless it is blank.
pub fn non_empty_internal_metadata(value: Result<Option<String>, ClientError>) -> (r: Result<
    Option<String>,
    ClientError,
>)
    ensures
        match value {
            Err(error) => r is Err && r->Err_0 == error,
            Ok(held) => r is Ok && r->Ok_0 == not_blank(held),
        },
{
    match value {
        Err(error) => Err(error),
        Ok(None) => Ok(None),
        Ok(Some(text)) => if external::trim(text.as_str()).is_empty() {
            Ok(None)
        } else {
            Ok(Some(text))
        },
    }
}

/// What earlier versions of the client left in the settings, each without blanks.
pub struct LegacySettings {
    pub email: Result<Option<String>, ClientError>,
    pub user_id: Result<Option<String>, ClientError>,
    pub tenant_id: Result<Option<String>, ClientError>,
    pub device_id: Result<Option<String>, ClientError>,
    pub session_expires_at: Result<Option<String>, ClientError>,
}

/// What a setting says of a binding: one that is there or cannot be read decides.
pub open spec fn decides(setting: Result<Option<String>, ClientError>) -> Option<
    Result<bool, ClientError>,
> {
    match setting {
        Err(error) => Some(Err(error)),
        Ok(Some(_)) => Some(Ok(true)),
        Ok(None) => None,
    }
}

/// The first setting that decides does so, else whether a master key is kept.
pub open spec fn legacy_binding(
    settings: LegacySettings,
    wrapped_master_key: Result<bool, ClientError>,
) -> Result<bool, ClientError> {
    match decides(settings.email) {
        Some(answer) => answer,
        None => match decides(settings.user_id) {
            Some(answer) => answer,
            None => match decides(settings.tenant_id) {
                Some(answer) => answer,
                None => match decides(settings.device_id) {
                    Some(answer) => answer,
                    None => match decides(settings.session_expires_at) {
                        Some(answer) => answer,
                        None => wrapped_master_key,
                    },
                },
            },
        },
    }
}

fn setting_decides(setting: &Result<Option<String>, ClientError>) -> (r: Option<
    Result<bool, ClientError>,
>)
    ensures
        r == decides(*setting),
{
    match setting {
        Err(error) => Some(Err(*error)),
        Ok(Some(_)) => Some(Ok(true)),
        Ok(None) => None,
    }
}

/// Whether an earlier version of the client bound the profile to an account.
pub fn has_legacy_account_binding(
    settings: &LegacySettings,
    wrapped_master_key: Result<bool, ClientError>,
) -> (r: Result<bool, ClientError>)
    ensures
        r == legacy_binding(*settings, wrapped_master_key),
{
    if let Some(answer) = setting_decides(&settings.email) {
        return answer;
    }
    if let Some(answer) = setting_decides(&settings.user_id) {
        return answer;
    }
    if let Some(answer) = setting_decides(&settings.tenant_id) {
        return answer;
    }
    if let Some(answer) = setting_decides(&settings.device_id) {
        return answer;
    }
    if let Some(answer) = setting_decides(&settings.session_expires_at) {
        return answer;
    }
    wrapped_master_key
}

/// Checks that a profile which already belongs to an account belongs to this one.
pub fn validate_existing_profile_identity(
    binding: Result<Option<LocalProfileBinding>, ClientError>,
    legacy_bound: Result<bool, ClientError>,
    legacy_tenant: Result<Option<String>, ClientError>,
    legacy_user: Result<Option<String>, ClientError>,
    tenant_id: Uuid,
    user_id: Uuid,
) -> (r: Result<(), ClientError>)
    ensures
        r == (match binding {
            Err(error) => Err::<(), ClientError>(error),
            Ok(Some(bound)) => if bound.tenant_id != tenant_id || bound.user_id != user_id {
                Err(ClientError::ProfileIdentityMismatch)
            } else {
                Ok(())
            },
            Ok(None) => match legacy_bound {
                Err(error) => Err(error),
                Ok(false) => Ok(()),
                Ok(true) => legacy_identity(legacy_tenant, legacy_user, tenant_id, user_id),
            },
        }),
{
    match binding {
        Err(error) => {
            return Err(error);
        },
        Ok(Some(bound)) => {
            if bound.tenant_id != tenant_id || bound.user_id != user_id {
                return Err(ClientError::ProfileIdentityMismatch);
            }
            return Ok(());
        },
        Ok(None) => {},
    }
    match legacy_bound {
        Err(error) => {
            return Err(error);
        },
        Ok(is_bound) => {
            if !is_bound {
                return Ok(());
            }
        },
    }
    let tenant = match need_setting(legacy_tenant) {
        Err(error) => {
            return Err(error);
        },
        Ok(text) => text,
    };
    let user = match need_setting(legacy_user) {
        Err(error) => {
            return Err(error);
        },
        Ok(text) => text,
    };
    match parse_uuid(tenant.as_str()) {
        Err(error) => {
            return Err(error);
        },
        Ok(id) => {
            if id != tenant_id {
                return Err(ClientError::ProfileIdentityMismatch);
            }
        },
    }
    match parse_uuid(user.as_str()) {
        Err(error) => Err(error),
        Ok(id) => if id != user_id {
            Err(ClientError::ProfileIdentityMismatch)
        } else {
            Ok(())
        },
    }
}

/// Whether the identity that an earlier version stored is the given one.
pub open spec fn legacy_identity(
    legacy_tenant: Result<Option<String>, ClientError>,
    legacy_user: Result<Option<String>, ClientError>,
    tenant_id: Uuid,
    user_id: Uuid,
) -> Result<(), ClientError> {
    match organization_flow::needed_setting(legacy_tenant) {
        Err(error) => Err(error),
        Ok(tenant) => match organization_flow::needed_setting(legacy_user) {
            Err(error) => Err(error),
            Ok(user) => match ids::parsed(tenant) {
                None => Err(ClientError::IncompleteAccountState),
                Some(id) => if id != tenant_id {
                    Err(ClientError::ProfileIdentityMismatch)
                } else {
                    match ids::parsed(user) {
                        None => Err(ClientError::IncompleteAccountState),
                        Some(other) => if other != user_id {
                            Err(ClientError::ProfileIdentityMismatch)
                        } else {
                            Ok(())
                        },
                    }
                },
            },
        },
    }
}

/// The master key that restoring a profile can use: a wrapped one needs to know whose
/// it is, and may still fail to unwrap.
pub fn restorable_master_key<U: FnOnce(Uuid) -> Option<[u8; 32]>>(
    wrapped_present: bool,
    user_setting: Result<Option<String>, ClientError>,
    unwrap_key: U,
) -> (r: Result<Option<[u8; 32]>, ClientError>)
    requires
        wrapped_present ==> (organization_flow::needed_id(user_setting) matches Ok(user_id)
            ==> unwrap_key.requires((user_id,))),
    ensures
        if !wrapped_present {
            r is Ok && r->Ok_0 is None
        } else {
            match organization_flow::needed_id(user_setting) {
                Err(error) => r is Err && r->Err_0 == error,
                Ok(user_id) => r is Ok && unwrap_key.ensures((user_id,), r->Ok_0),
            }
        },
{
    if !wrapped_present {
        return Ok(None);
    }
    let user_id: Uuid = match need_setting(user_setting) {
        Err(error) => {
            return Err(error);
        },
        Ok(text) => match parse_uuid(text.as_str()) {
            Err(error) => {
                return Err(error);
            },
            Ok(id) => id,
        },
    };
    Ok(unwrap_key(user_id))
}

/// The state that a profile's keys are restored to. A profile that looks anonymous but
/// was bound by an earlier version has lost its master key.
pub fn restored_crypto(
    availability: Result<LocalCryptoAvailability, ClientError>,
    legacy_bound: Result<bool, ClientError>,
) -> (r: Result<CryptoRuntimeState, ClientError>)
    ensures
        match availability {
            Err(error) => r is Err && r->Err_0 == error,
            Ok(LocalCryptoAvailability::Ready(context)) => r == Ok::<_, ClientError>(
                CryptoRuntimeState::Ready(context),
            ),
            Ok(LocalCryptoAvailability::AccountBoundUnavailable(reason)) => r == Ok::<
                _,
                ClientError,
            >(CryptoRuntimeState::Unavailable(reason)),
            Ok(LocalCryptoAvailability::Anonymous) => match legacy_bound {
                Err(error) => r is Err && r->Err_0 == error,
                Ok(true) => r == Ok::<_, ClientError>(
                    CryptoRuntimeState::Unavailable(LocalCryptoUnavailable::MissingMasterKey),
                ),
                Ok(false) => r is Ok && r->Ok_0 is Anonymous,
            },
        },
{
    match availability {
        Err(error) => Err(error),
        Ok(LocalCryptoAvailability::Ready(context)) => Ok(CryptoRuntimeState::Ready(context)),
        Ok(LocalCryptoAvailability::AccountBoundUnavailable(reason)) => Ok(
            CryptoRuntimeState::Unavailable(reason),
        ),
        Ok(LocalCryptoAvailability::Anonymous) => match legacy_bound {
            Err(error) => Err(error),
            Ok(bound) => if bound {
                Ok(CryptoRuntimeState::Unavailable(LocalCryptoUnavailable::MissingMasterKey))
            } else {
                Ok(CryptoRuntimeState::Anonymous)
            },
        },
    }
}

/// What restoring a session comes to.
pub enum SessionRestore {
    /// There is no session to restore.
    Nothing,
    /// The stored tokens are over and are to be deleted.
    DeleteExpired,
    Restore(AccountSessionState),
}

/// The settings that name an account, each without blanks.
pub struct StoredAccount {
    pub email: Result<Option<String>, ClientError>,
    pub user_id: Result<Option<String>, ClientError>,
    pub tenant_id: Result<Option<String>, ClientError>,
    pub device_id: Result<Option<String>, ClientError>,
}

/// What the settings of an account give: a session where all four are there.
pub open spec fn session_from_settings(
    r: Result<SessionRestore, ClientError>,
    email: Result<Option<String>, ClientError>,
    user_id: Result<Option<String>, ClientError>,
    tenant_id: Result<Option<String>, ClientError>,
    device_id: Result<Option<String>, ClientError>,
) -> bool {
    match email {
        Err(error) => r is Err && r->Err_0 == error,
        Ok(None) => r is Ok && r->Ok_0 is Nothing,
        Ok(Some(email)) => match user_id {
            Err(error) => r is Err && r->Err_0 == error,
            Ok(None) => r is Ok && r->Ok_0 is Nothing,
            Ok(Some(user_id)) => match tenant_id {
                Err(error) => r is Err && r->Err_0 == error,
                Ok(None) => r is Ok && r->Ok_0 is Nothing,
                Ok(Some(tenant_id)) => match device_id {
                    Err(error) => r is Err && r->Err_0 == error,
                    Ok(None) => r is Ok && r->Ok_0 is Nothing,
                    Ok(Some(device_id)) => {
                        &&& r is Ok
                        &&& r->Ok_0 is Restore
                        &&& session_of(r->Ok_0->Restore_0, email, user_id, tenant_id, device_id)
                    },
                },
            },
        },
    }
}

/// What restoring a session comes to, from the end of the stored session, the time and
/// the settings.
pub open spec fn restored_as(
    r: Result<SessionRestore, ClientError>,
    refresh_expires_at_ms: Option<i64>,
    now: Result<i64, ClientError>,
    account: StoredAccount,
) -> bool {
    match refresh_expires_at_ms {
        None => r is Ok && r->Ok_0 is Nothing,
        Some(end) => match now {
            Err(error) => r is Err && r->Err_0 == error,
            Ok(time) => if end <= time {
                r is Ok && r->Ok_0 is DeleteExpired
            } else {
                session_from_settings(
                    r,
                    account.email,
                    account.user_id,
                    account.tenant_id,
                    account.device_id,
                )
            },
        },
    }
}

/// Restores the session of a profile from its stored tokens and settings.
///
/// `refresh_expires_at_ms` is the end of the stored session, where there is one.
pub fn restore_session(
    refresh_expires_at_ms: Option<i64>,
    now: Result<i64, ClientError>,
    account: StoredAccount,
) -> (r: Result<SessionRestore, ClientError>)
    ensures
        restored_as(r, refresh_expires_at_ms, now, account),
{
    let end: i64 = match refresh_expires_at_ms {
        None => {
            return Ok(SessionRestore::Nothing);
        },
        Some(end) => end,
    };
    match now {
        Err(error) => {
            return Err(error);
        },
        Ok(time) => {
            if end <= time {
                return Ok(SessionRestore::DeleteExpired);
            }
        },
    }
    let email = match account.email {
        Err(error) => {
            return Err(error);
        },
        Ok(None) => {
            return Ok(SessionRestore::Nothing);
        },
        Ok(Some(text)) => text,
    };
    let user_id = match account.user_id {
        Err(error) => {
            return Err(error);
        },
        Ok(None) => {
            return Ok(SessionRestore::Nothing);
        },
        Ok(Some(text)) => text,
    };
    let tenant_id = match account.tenant_id {
        Err(error) => {
            return Err(error);
        },
        Ok(None) => {
            return Ok(SessionRestore::Nothing);
        },
        Ok(Some(text)) => text,
    };
    let device_id = match account.device_id {
        Err(error) => {
            return Err(error);
        },
        Ok(None) => {
            return Ok(SessionRestore::Nothing);
        },
        Ok(Some(text)) => text,
    };
    Ok(SessionRestore::Restore(account_session_state(email, user_id, tenant_id, device_id)))
}

/// What an attempt to restore a session leaves.
pub open spec fn session_left<D: FnOnce() -> bool>(
    before: AccountRuntimeState,
    after: AccountRuntimeState,
    r: Result<(), ClientError>,
    restored: Result<SessionRestore, ClientError>,
    delete_expired: D,
) -> bool {
    match restored {
        Err(error) => r == Err::<(), ClientError>(error) && after.session == before.session,
        Ok(SessionRestore::Nothing) => r is Ok && after.session == before.session,
        Ok(SessionRestore::Restore(session)) => r is Ok && after.session == Some(session),
        Ok(SessionRestore::DeleteExpired) => {
            &&& after.session == before.session
            &&& exists|deleted: bool| #[trigger]
                delete_expired.ensures((), deleted) && if deleted {
                    r is Ok
                } else {
                    r == Err::<(), ClientError>(ClientError::KeyStore)
                }
        },
    }
}

/// What restoring the session of a runtime comes to. It is tried once: a store that
/// could be read settles the matter, whatever it held.
pub open spec fn session_settled<D: FnOnce() -> bool>(
    before: AccountRuntimeState,
    after: AccountRuntimeState,
    r: Result<(), ClientError>,
    stored_session: Result<Option<i64>, ClientError>,
    now: Result<i64, ClientError>,
    account: StoredAccount,
    delete_expired: D,
) -> bool {
    match stored_session {
        Err(error) => {
            &&& r == Err::<(), ClientError>(error)
            &&& after.session == before.session
            &&& !after.session_restored
        },
        Ok(end) => {
            &&& after.session_restored
            &&& exists|restored: Result<SessionRestore, ClientError>| #[trigger]
                restored_as(restored, end, now, account) && session_left(
                    before,
                    after,
                    r,
                    restored,
                    delete_expired,
                )
        },
    }
}

/// What the session part of a restoration comes to.
pub open spec fn session_ensured<
    T: FnOnce() -> Result<Option<i64>, ClientError>,
    D: FnOnce() -> bool,
>(
    before: AccountRuntimeState,
    after: AccountRuntimeState,
    r: Result<(), ClientError>,
    stored_session: T,
    now: Result<i64, ClientError>,
    account: StoredAccount,
    delete_expired: D,
) -> bool {
    if before.session_restored {
        r is Ok && after.session == before.session && after.session_restored
    } else {
        exists|stored: Result<Option<i64>, ClientError>| #[trigger]
            stored_session.ensures((), stored) && session_settled(
                before,
                after,
                r,
                stored,
                now,
                account,
                delete_expired,
            )
    }
}

/// A stored session whose end has come.
pub open spec fn session_is_over(
    stored: Result<Option<i64>, ClientError>,
    now: Result<i64, ClientError>,
) -> bool {
    stored is Ok && stored->Ok_0 is Some && now is Ok && stored->Ok_0->Some_0 <= now->Ok_0
}

/// Restores what a runtime has not restored yet: its keys, then its session. The session
/// is read only once the keys are there, and a credential is deleted only once the
/// session that was read is over.
///
/// `restore_crypto` unlocks the keys (see `restored_crypto`); `stored_session` reads,
/// under the credential lock, the end of the stored session; `delete_expired` deletes a
/// credential that is over.
pub fn ensure_account_runtime_restored<
    K: FnOnce() -> Result<CryptoRuntimeState, ClientError>,
    T: FnOnce() -> Result<Option<i64>, ClientError>,
    D: FnOnce() -> bool,
>(
    state: &mut AccountRuntimeState,
    restore_crypto: K,
    stored_session: T,
    now: Result<i64, ClientError>,
    account: StoredAccount,
    delete_expired: D,
) -> (r: Result<(), ClientError>)
    requires
        old(state).crypto is Unloaded ==> restore_crypto.requires(()),
        !(old(state).crypto is Unloaded) && !old(state).session_restored
            ==> stored_session.requires(()),
        old(state).crypto is Unloaded && !old(state).session_restored ==> forall|
            crypto: Result<CryptoRuntimeState, ClientError>,
        | #[trigger]
            restore_crypto.ensures((), crypto) && crypto is Ok ==> stored_session.requires(()),
        forall|stored: Result<Option<i64>, ClientError>| #[trigger]
            stored_session.ensures((), stored) && session_is_over(stored, now)
                ==> delete_expired.requires(()),
    ensures
        final(state).loaded_credential_generation == old(state).loaded_credential_generation,
        !(old(state).crypto is Unloaded) ==> {
            &&& final(state).crypto == old(state).crypto
            &&& session_ensured(
                *old(state),
                *final(state),
                r,
                stored_session,
                now,
                account,
                delete_expired,
            )
        },
        old(state).crypto is Unloaded ==> exists|crypto: Result<CryptoRuntimeState, ClientError>|
         #[trigger]
            restore_crypto.ensures((), crypto) && match crypto {
                Err(error) => r == Err::<(), ClientError>(error) && *final(state) == *old(state),
                Ok(keys) => {
                    &&& final(state).crypto == keys
                    &&& session_ensured(
                        *old(state),
                        *final(state),
                        r,
                        stored_session,
                        now,
                        account,
                        delete_expired,
                    )
                },
            },
{
    let unloaded: bool = match &state.crypto {
        CryptoRuntimeState::Unloaded => true,
        _ => false,
    };
    if unloaded {
        let crypto = restore_crypto();
        proof {
            assert(restore_crypto.ensures((), crypto));
        }
        match crypto {
            Err(error) => {
                return Err(error);
            },
            Ok(keys) => {
                state.crypto = keys;
            },
        }
    }
    if state.session_restored {
        return Ok(());
    }
    let stored = stored_session();
    proof {
        assert(stored_session.ensures((), stored));
    }
    let end: Option<i64> = match stored {
        Err(error) => {
            return Err(error);
        },
        Ok(end) => end,
    };
    state.session_restored = true;
    let restored = restore_session(end, now, account);
    proof {
        assert(restored_as(restored, end, now, account));
    }
    match restored {
        Err(error) => Err(error),
        Ok(SessionRestore::Nothing) => Ok(()),
        Ok(SessionRestore::Restore(session)) => {
            state.session = Some(session);
            Ok(())
        },
        Ok(SessionRestore::DeleteExpired) => {
            let deleted: bool = delete_expired();
            proof {
                assert(delete_expired.ensures((), deleted));
            }
            if deleted {
                Ok(())
            } else {
                Err(ClientError::KeyStore)
            }
        },
    }
}

/// What a client says of its session.
pub fn current_session_state(session: Option<AccountSessionState>) -> (r: AccountSessionState)
    ensures
        match session {
            Some(held) => r == held,
            None => r.is_logged_out(),
        },
{
    match session {
        Some(held) => held,
        None => AccountSessionState::logged_out(),
    }
}

/// The tenant whose billing is asked for.
pub open spec fn billing_tenant_of(state: AccountRuntimeState) -> Result<Uuid, ClientError> {
    match state.logged_in_session() {
        None => Err(ClientError::AccountRequest),
        Some(session) => match session.tenant_id {
            None => Err(ClientError::AccountRequest),
            Some(text) => match ids::parsed(text@) {
                Some(id) => Ok(id),
                None => Err(ClientError::IncompleteAccountState),
            },
        },
    }
}

pub fn billing_tenant(state: &AccountRuntimeState) -> (r: Result<Uuid, ClientError>)
    ensures
        r == billing_tenant_of(*state),
{
    match &state.session {
        None => Err(ClientError::AccountRequest),
        Some(session) => if !session.logged_in {
            Err(ClientError::AccountRequest)
        } else {
            match &session.tenant_id {
                None => Err(ClientError::AccountRequest),
                Some(text) => parse_uuid(text.as_str()),
            }
        },
    }
}

/// Billing as the frontend sees it.
pub open spec fn billing_shows(state: BillingState, response: BillingResponseDto) -> bool {
    &&& state.provider == response.provider
    &&& state.provider_app_user_id@ == response.provider_app_user_id.text_spec()
    &&& state.lookup_key == response.entitlement.lookup_key
    &&& state.status == response.entitlement.status
    &&& state.sync_allowed == response.entitlement.sync_allowed
    &&& state.store_product_identifier == response.entitlement.store_product_identifier
    &&& state.expires_at == response.entitlement.expires_at
    &&& state.grace_expires_at == response.entitlement.grace_expires_at
    &&& state.will_renew == response.entitlement.will_renew
    &&& state.environment == response.entitlement.environment
    &&& state.updated_at == response.entitlement.updated_at
}

pub fn billing_state(response: BillingResponseDto) -> (r: BillingState)
    ensures
        billing_shows(r, response),
{
    BillingState {
        provider: response.provider,
        provider_app_user_id: response.provider_app_user_id.text(),
        lookup_key: response.entitlement.lookup_key,
        status: response.entitlement.status,
        sync_allowed: response.entitlement.sync_allowed,
        store_product_identifier: response.entitlement.store_product_identifier,
        expires_at: response.entitlement.expires_at,
        grace_expires_at: response.entitlement.grace_expires_at,
        will_renew: response.entitlement.will_renew,
        environment: response.entitlement.environment,
        updated_at: response.entitlement.updated_at,
    }
}

/// Whose keys a sync refreshes: the identity and the master key of unlocked keys.
pub struct SyncKeyOwner {
    identity: LocalCryptoIdentity,
    master_key: [u8; 32],
}

impl SyncKeyOwner {
    pub closed spec fn identity_spec(self) -> LocalCryptoIdentity {
        self.identity
    }

    pub closed spec fn master_key_spec(self) -> [u8; 32] {
        self.master_key
    }

    /// The tenant, account and device of the keys. The server is asked for the bundle of
    /// this tenant.
    pub fn identity(&self) -> (r: LocalCryptoIdentity)
        ensures
            r == self.identity_spec(),
    {
        self.identity
    }
}

/// An owner is that of the unlocked keys of a state with a session.
pub open spec fn owner_of(
    r: Result<SyncKeyOwner, ClientError>,
    state: AccountRuntimeState,
) -> bool {
    if state.logged_in_session() is None {
        r is Err && r->Err_0 == ClientError::AccountRequest
    } else {
        match state.crypto {
            CryptoRuntimeState::Ready(context) => {
                &&& r is Ok
                &&& r->Ok_0.identity_spec().tenant_id == context.tenant_id
                &&& r->Ok_0.identity_spec().user_id == context.user_id
                &&& r->Ok_0.identity_spec().device_id == context.device_id
                &&& r->Ok_0.master_key_spec() == context.master_key
            },
            _ => r is Err && r->Err_0 == ClientError::AccountBoundUnavailable,
        }
    }
}

/// Whose keys a sync may refresh: a session must be logged in and the keys unlocked.
pub fn sync_key_owner(state: &AccountRuntimeState) -> (r: Result<SyncKeyOwner, ClientError>)
    ensures
        owner_of(r, *state),
{
    match &state.session {
        None => {
            return Err(ClientError::AccountRequest);
        },
        Some(session) => {
            if !session.logged_in {
                return Err(ClientError::AccountRequest);
            }
        },
    }
    match &state.crypto {
        CryptoRuntimeState::Ready(context) => Ok(
            SyncKeyOwner {
                identity: LocalCryptoIdentity {
                    tenant_id: context.tenant_id,
                    user_id: context.user_id,
                    device_id: context.device_id,
                },
                master_key: context.master_key,
            },
        ),
        _ => Err(ClientError::AccountBoundUnavailable),
    }
}

/// The keys that the server hands out, once they are unwrapped, whose they are, and whether
/// the records must be sent again under them.
pub struct RefreshedKeys {
    pub identity: LocalCryptoIdentity,
    pub keys: LocalSyncKeys,
    pub rotation_backfill: bool,
}

/// What the unwrapped keys of a bundle come to, next to the keys at hand.
pub open spec fn keys_compared(
    r: Result<RefreshedKeys, ClientError>,
    owner: SyncKeyOwner,
    generation: u64,
    active: [u8; 32],
    historical: Vec<(u64, [u8; 32])>,
    state: AccountRuntimeState,
) -> bool {
    match state.crypto {
        CryptoRuntimeState::Ready(context) => {
            &&& r is Ok
            &&& r->Ok_0.identity == owner.identity_spec()
            &&& r->Ok_0.keys == (LocalSyncKeys {
                tenant_id: owner.identity_spec().tenant_id,
                tenant_root_dek: Some(active),
                tenant_generation: generation,
                historical_tenant_root_deks: historical,
            })
            &&& r->Ok_0.rotation_backfill == (generation > context.sync_keys.tenant_generation)
        },
        _ => r is Err && r->Err_0 == ClientError::AccountBoundUnavailable,
    }
}

/// What a bundle comes to whose newest key was or was not unwrapped.
pub open spec fn history_unwrapped<H: FnOnce(Uuid, [u8; 32]) -> Option<Vec<(u64, [u8; 32])>>>(
    r: Result<RefreshedKeys, ClientError>,
    owner: SyncKeyOwner,
    generation: u64,
    active: Option<[u8; 32]>,
    unwrap_historical: H,
    state: AccountRuntimeState,
) -> bool {
    match active {
        None => r is Err && r->Err_0 == ClientError::AccountBoundUnavailable,
        Some(key) => exists|historical: Option<Vec<(u64, [u8; 32])>>| #[trigger]
            unwrap_historical.ensures(
                (owner.identity_spec().tenant_id, owner.master_key_spec()),
                historical,
            ) && match historical {
                None => r is Err && r->Err_0 == ClientError::AccountBoundUnavailable,
                Some(keys) => keys_compared(r, owner, generation, key, keys, state),
            },
    }
}

/// What refreshing the keys of an owner comes to.
pub open spec fn keys_refreshed<
    A: FnOnce(Uuid, [u8; 32]) -> Option<[u8; 32]>,
    H: FnOnce(Uuid, [u8; 32]) -> Option<Vec<(u64, [u8; 32])>>,
>(
    r: Result<RefreshedKeys, ClientError>,
    owner: SyncKeyOwner,
    generation: Option<u64>,
    unwrap_active: A,
    unwrap_historical: H,
    state: AccountRuntimeState,
) -> bool {
    match generation {
        None => r is Err && r->Err_0 == ClientError::AccountRequest,
        Some(generation) => exists|active: Option<[u8; 32]>| #[trigger]
            unwrap_active.ensures(
                (owner.identity_spec().tenant_id, owner.master_key_spec()),
                active,
            ) && history_unwrapped(r, owner, generation, active, unwrap_historical, state),
    }
}

/// Puts the keys of an active bundle together and compares them with those at hand.
///
/// `generation` is that of the bundle which the server handed out for the owner's tenant,
/// where it did. `unwrap_active` and `unwrap_historical` unwrap the bundle for a tenant with a
/// master key: its newest key, then the others. A bundle of a newer generation means that
/// everything is to be sent again.
pub fn refresh_tenant_keys_for_sync<
    A: FnOnce(Uuid, [u8; 32]) -> Option<[u8; 32]>,
    H: FnOnce(Uuid, [u8; 32]) -> Option<Vec<(u64, [u8; 32])>>,
>(
    owner: &SyncKeyOwner,
    generation: Option<u64>,
    unwrap_active: A,
    unwrap_historical: H,
    state: &AccountRuntimeState,
) -> (r: Result<RefreshedKeys, ClientError>)
    requires
        generation is Some ==> unwrap_active.requires(
            (owner.identity_spec().tenant_id, owner.master_key_spec()),
        ),
        generation is Some ==> forall|active: Option<[u8; 32]>| #[trigger]
            unwrap_active.ensures(
                (owner.identity_spec().tenant_id, owner.master_key_spec()),
                active,
            ) && active is Some ==> unwrap_historical.requires(
                (owner.identity_spec().tenant_id, owner.master_key_spec()),
            ),
    ensures
        keys_refreshed(r, *owner, generation, unwrap_active, unwrap_historical, *state),
{
    let generation: u64 = match generation {
        None => {
            return Err(ClientError::AccountRequest);
        },
        Some(generation) => generation,
    };
    let tenant_id: Uuid = owner.identity.tenant_id;
    let unwrapped = unwrap_active(tenant_id, owner.master_key);
    proof {
        assert(unwrap_active.ensures((tenant_id, owner.master_key), unwrapped));
    }
    let active: [u8; 32] = match unwrapped {
        None => {
            return Err(ClientError::AccountBoundUnavailable);
        },
        Some(key) => key,
    };
    let older = unwrap_historical(tenant_id, owner.master_key);
    proof {
        assert(unwrap_historical.ensures((tenant_id, owner.master_key), older));
    }
    let historical = match older {
        None => {
            return Err(ClientError::AccountBoundUnavailable);
        },
        Some(keys) => keys,
    };
    let previous_generation: u64 = match &state.crypto {
        CryptoRuntimeState::Ready(context) => context.sync_keys.tenant_generation,
        _ => {
            return Err(ClientError::AccountBoundUnavailable);
        },
    };
    Ok(
        RefreshedKeys {
            identity: owner.identity(),
            keys: LocalSyncKeys {
                tenant_id,
                tenant_root_dek: Some(active),
                tenant_generation: generation,
                historical_tenant_root_deks: historical,
            },
            rotation_backfill: generation > previous_generation,
        },
    )
}

/// Refreshed keys are those of the tenant whose keys were unlocked when the refresh began,
/// and a refresh begins only with a session and unlocked keys.
pub proof fn law_refreshed_keys_are_the_unlocked_tenants<
    A: FnOnce(Uuid, [u8; 32]) -> Option<[u8; 32]>,
    H: FnOnce(Uuid, [u8; 32]) -> Option<Vec<(u64, [u8; 32])>>,
>(
    before: AccountRuntimeState,
    owner: Result<SyncKeyOwner, ClientError>,
    generation: Option<u64>,
    unwrap_active: A,
    unwrap_historical: H,
    state: AccountRuntimeState,
    r: Result<RefreshedKeys, ClientError>,
)
    requires
        owner_of(owner, before),
        owner is Ok,
        keys_refreshed(r, owner->Ok_0, generation, unwrap_active, unwrap_historical, state),
        r is Ok,
    ensures
        before.logged_in_session() is Some,
        before.crypto is Ready,
        r->Ok_0.keys.tenant_id == before.crypto->Ready_0.tenant_id,
        r->Ok_0.identity.tenant_id == before.crypto->Ready_0.tenant_id,
        r->Ok_0.identity.user_id == before.crypto->Ready_0.user_id,
        r->Ok_0.identity.device_id == before.crypto->Ready_0.device_id,
        generation == Some(r->Ok_0.keys.tenant_generation),
{
}

/// All lists of a profile: those in use, then the archived ones.
pub fn local_lists_including_archived(
    in_use: Result<Vec<List>, ClientError>,
    archived: Result<Vec<List>, ClientError>,
) -> (r: Result<Vec<List>, ClientError>)
    ensures
        match in_use {
            Err(error) => r is Err && r->Err_0 == error,
            Ok(lists) => match archived {
                Err(error) => r is Err && r->Err_0 == error,
                Ok(more) => r is Ok && r->Ok_0@ == lists@ + more@,
            },
        },
{
    let mut lists = match in_use {
        Err(error) => {
            return Err(error);
        },
        Ok(lists) => lists,
    };
    match archived {
        Err(error) => Err(error),
        Ok(more) => {
            let mut more = more;
            lists.append(&mut more);
            Ok(lists)
        },
    }
}

/// The steps that make refreshed keys durable.
#[derive(Debug, Clone, Copy, PartialEq, Eq, Structural)]
pub enum KeyRefreshStep {
    /// Read the records that are to be sent again under the new key.
    ReadRecords,
    /// Put them into the outbox, in one transaction.
    BackfillRotation,
    PersistKeys,
    ReadClock,
    /// Store that no rotation is pending any more.
    ClearRotationMark,
    ReplaceRuntime,
    Done,
    Failed(ClientError),
}

/// Keys of a newer generation are followed by a backfill; others are just stored.
pub fn begin_key_refresh(refreshed: &RefreshedKeys) -> (r: KeyRefreshStep)
    ensures
        r == (if refreshed.rotation_backfill {
            KeyRefreshStep::ReadRecords
        } else {
            KeyRefreshStep::PersistKeys
        }),
{
    if refreshed.rotation_backfill {
        KeyRefreshStep::ReadRecords
    } else {
        KeyRefreshStep::PersistKeys
    }
}

/// What follows a step; `failed` is how the step failed. What the sync store refuses is a
/// failed run.
pub open spec fn next_key_refresh_step(
    step: KeyRefreshStep,
    failed: Option<ClientError>,
) -> KeyRefreshStep {
    match (step, failed) {
        (KeyRefreshStep::Done, _) => step,
        (KeyRefreshStep::Failed(_), _) => step,
        (KeyRefreshStep::BackfillRotation, Some(_)) => KeyRefreshStep::Failed(ClientError::SyncRun),
        (KeyRefreshStep::ClearRotationMark, Some(_)) => KeyRefreshStep::Failed(
            ClientError::SyncRun,
        ),
        (_, Some(error)) => KeyRefreshStep::Failed(error),
        (KeyRefreshStep::ReadRecords, None) => KeyRefreshStep::BackfillRotation,
        (KeyRefreshStep::BackfillRotation, None) => KeyRefreshStep::PersistKeys,
        (KeyRefreshStep::PersistKeys, None) => KeyRefreshStep::ReadClock,
        (KeyRefreshStep::ReadClock, None) => KeyRefreshStep::ClearRotationMark,
        (KeyRefreshStep::ClearRotationMark, None) => KeyRefreshStep::ReplaceRuntime,
        (KeyRefreshStep::ReplaceRuntime, None) => KeyRefreshStep::Done,
    }
}

/// Decides how refreshed keys are made durable.
pub fn key_refresh_step(step: KeyRefreshStep, failed: Option<ClientError>) -> (r: KeyRefreshStep)
    ensures
        r == next_key_refresh_step(step, failed),
{
    match (step, failed) {
        (KeyRefreshStep::Done, _) => step,
        (KeyRefreshStep::Failed(_), _) => step,
        (KeyRefreshStep::BackfillRotation, Some(_)) => KeyRefreshStep::Failed(ClientError::SyncRun),
        (KeyRefreshStep::ClearRotationMark, Some(_)) => KeyRefreshStep::Failed(
            ClientError::SyncRun,
        ),
        (_, Some(error)) => KeyRefreshStep::Failed(error),
        (KeyRefreshStep::ReadRecords, None) => KeyRefreshStep::BackfillRotation,
        (KeyRefreshStep::BackfillRotation, None) => KeyRefreshStep::PersistKeys,
        (KeyRefreshStep::PersistKeys, None) => KeyRefreshStep::ReadClock,
        (KeyRefreshStep::ReadClock, None) => KeyRefreshStep::ClearRotationMark,
        (KeyRefreshStep::ClearRotationMark, None) => KeyRefreshStep::ReplaceRuntime,
        (KeyRefreshStep::ReplaceRuntime, None) => KeyRefreshStep::Done,
    }
}

/// A rotation counts as pending until its records are in the outbox and its keys are
/// stored, and new keys are used only once all of that is durable.
pub proof fn law_rotation_stays_pending_until_durable(
    step: KeyRefreshStep,
    failed: Option<ClientError>,
)
    ensures
        next_key_refresh_step(step, failed) is PersistKeys ==> step is BackfillRotation
            && failed is None,
        next_key_refresh_step(step, failed) is ReadClock ==> step is PersistKeys && failed is None,
        next_key_refresh_step(step, failed) is ClearRotationMark ==> step is ReadClock
            && failed is None,
        next_key_refresh_step(step, failed) is ReplaceRuntime ==> step is ClearRotationMark
            && failed is None,
        next_key_refresh_step(step, failed) is Done && !(step is Done) ==> step is ReplaceRuntime
            && failed is None,
{
}

/// Which tenant key a login goes on with: the profile's own where it has one.
pub fn ensure_key_material_covers_local_lists(
    availability: Result<LocalCryptoAvailability, ClientError>,
    tenant_generation: u64,
    tenant_root_dek: [u8; 32],
) -> (r: Result<(u64, [u8; 32]), ClientError>)
    ensures
        match availability {
            Err(error) => r is Err && r->Err_0 == error,
            Ok(LocalCryptoAvailability::Ready(local)) => match local.sync_keys.tenant_root_dek {
                Some(key) => r == Ok::<_, ClientError>((local.sync_keys.tenant_generation, key)),
                None => r is Err && r->Err_0 == ClientError::AccountBoundUnavailable,
            },
            Ok(LocalCryptoAvailability::AccountBoundUnavailable(_)) => r is Err && r->Err_0
                == ClientError::AccountBoundUnavailable,
            Ok(LocalCryptoAvailability::Anonymous) => r == Ok::<_, ClientError>(
                (tenant_generation, tenant_root_dek),
            ),
        },
{
    match availability {
        Err(error) => Err(error),
        Ok(LocalCryptoAvailability::Ready(local)) => match local.sync_keys.tenant_root_dek {
            Some(key) => Ok((local.sync_keys.tenant_generation, key)),
            None => Err(ClientError::AccountBoundUnavailable),
        },
        Ok(LocalCryptoAvailability::AccountBoundUnavailable(_)) => Err(
            ClientError::AccountBoundUnavailable,
        ),
        Ok(LocalCryptoAvailability::Anonymous) => Ok((tenant_generation, tenant_root_dek)),
    }
}

/// What unwrapping the account root needs: whose it is, with which key, and of which
/// generation.
pub struct AccountRootRequest {
    pub user_id: Uuid,
    pub master_key: [u8; 32],
    pub generation: u64,
    pub wrapped: Vec<u8>,
}

/// A generation in a setting.
pub open spec fn needed_generation(value: Result<Option<String>, ClientError>) -> Result<
    u64,
    ClientError,
> {
    match organization_flow::needed_setting(value) {
        Err(error) => Err(error),
        Ok(held) => match text::unsigned_value(held, u64::MAX as nat) {
            Some(n) => Ok(n as u64),
            None => Err(ClientError::IncompleteAccountState),
        },
    }
}

fn need_generation(value: Result<Option<String>, ClientError>) -> (r: Result<u64, ClientError>)
    ensures
        r == needed_generation(value),
{
    match need_setting(value) {
        Err(error) => Err(error),
        Ok(held) => {
            let chars = text::chars_of(held.as_str());
            proof {
                assert(chars@.subrange(0, chars@.len() as int) =~= held@);
            }
            match text::parse_unsigned(chars.as_slice(), 0, chars.len(), u64::MAX) {
                Some(n) => Ok(n),
                None => Err(ClientError::IncompleteAccountState),
            }
        },
    }
}

/// Gathers what unwrapping the account root needs.
pub fn account_root_request(
    state: &AccountRuntimeState,
    generation_setting: Result<Option<String>, ClientError>,
    wrapped: Result<Option<Vec<u8>>, ClientError>,
) -> (r: Result<AccountRootRequest, ClientError>)
    ensures
        match state.crypto {
            CryptoRuntimeState::Ready(context) => match needed_generation(generation_setting) {
                Err(error) => r is Err && r->Err_0 == error,
                Ok(generation) => match wrapped {
                    Err(error) => r is Err && r->Err_0 == error,
                    Ok(None) => r is Err && r->Err_0 == ClientError::IncompleteAccountState,
                    Ok(Some(bytes)) => r == Ok::<_, ClientError>(
                        AccountRootRequest {
                            user_id: context.user_id,
                            master_key: context.master_key,
                            generation,
                            wrapped: bytes,
                        },
                    ),
                },
            },
            _ => r is Err && r->Err_0 == ClientError::AccountBoundUnavailable,
        },
{
    let (user_id, master_key): (Uuid, [u8; 32]) = match &state.crypto {
        CryptoRuntimeState::Ready(context) => (context.user_id, context.master_key),
        _ => {
            return Err(ClientError::AccountBoundUnavailable);
        },
    };
    let generation: u64 = match need_generation(generation_setting) {
        Err(error) => {
            return Err(error);
        },
        Ok(generation) => generation,
    };
    match wrapped {
        Err(error) => Err(error),
        Ok(None) => Err(ClientError::IncompleteAccountState),
        Ok(Some(bytes)) => Ok(
            AccountRootRequest { user_id, master_key, generation, wrapped: bytes },
        ),
    }
}

/// The stored public root, as its base64 text says it; `decode` reads the bytes.
pub fn stored_account_root<D: FnOnce(Vec<u8>) -> Option<AccountRootPublicKeys>>(
    setting: Result<Option<String>, ClientError>,
    decode: D,
) -> (r: Result<AccountRootPublicKeys, ClientError>)
    requires
        forall|bytes: Vec<u8>| #[trigger] decode.requires((bytes,)),
    ensures
        match organization_flow::needed_setting(setting) {
            Err(error) => r is Err && r->Err_0 == error,
            Ok(held) => match external::base64_decoded(held) {
                None => r is Err && r->Err_0 == ClientError::IncompleteAccountState,
                Some(raw) => exists|bytes: Vec<u8>, reply: Option<AccountRootPublicKeys>|
                    {
                        &&& bytes@ == raw
                        &&& #[trigger] decode.ensures((bytes,), reply)
                        &&& match reply {
                            Some(root) => r is Ok && r->Ok_0 == root,
                            None => r is Err && r->Err_0 == ClientError::IncompleteAccountState,
                        }
                    },
            },
        },
{
    let held = match need_setting(setting) {
        Err(error) => {
            return Err(error);
        },
        Ok(held) => held,
    };
    match external::base64_decode(held.as_str()) {
        None => Err(ClientError::IncompleteAccountState),
        Some(bytes) => {
            let reply = decode(bytes);
            proof {
                assert(decode.ensures((bytes,), reply));
            }
            match reply {
                Some(root) => Ok(root),
                None => Err(ClientError::IncompleteAccountState),
            }
        },
    }
}

/// Checks that the private root at hand belongs to the stored public one.
/// `private_read` says whether the private root could be unwrapped and read; `derived`
/// is its public root, where it has one.
pub fn load_account_root_keys(
    private_read: bool,
    stored: Result<AccountRootPublicKeys, ClientError>,
    derived: Option<AccountRootPublicKeys>,
) -> (r: Result<AccountRootPublicKeys, ClientError>)
    ensures
        !private_read ==> r is Err && r->Err_0 == ClientError::AccountBoundUnavailable,
        private_read ==> match stored {
            Err(error) => r is Err && r->Err_0 == error,
            Ok(public) => if derived is Some && derived.unwrap().user_id == public.user_id
                && derived.unwrap().encoded@ == public.encoded@ {
                r is Ok && r->Ok_0 == public
            } else {
                r is Err && r->Err_0 == ClientError::AccountBoundUnavailable
            },
        },
{
    if !private_read {
        return Err(ClientError::AccountBoundUnavailable);
    }
    let public = match stored {
        Err(error) => {
            return Err(error);
        },
        Ok(public) => public,
    };
    match derived {
        None => Err(ClientError::AccountBoundUnavailable),
        Some(own) => if own.user_id == public.user_id && text::bytes_eq(
            own.encoded.as_slice(),
            public.encoded.as_slice(),
        ) {
            Ok(public)
        } else {
            Err(ClientError::AccountBoundUnavailable)
        },
    }
}

/// The identity that a session binds a profile to.
pub open spec fn session_identity(session: AccountSessionState) -> Result<
    LocalCryptoIdentity,
    ClientError,
> {
    match session_id(session.tenant_id) {
        Err(error) => Err(error),
        Ok(tenant_id) => match session_id(session.user_id) {
            Err(error) => Err(error),
            Ok(user_id) => match session_id(session.device_id) {
                Err(error) => Err(error),
                Ok(device_id) => Ok(LocalCryptoIdentity { tenant_id, user_id, device_id }),
            },
        },
    }
}

pub fn account_identity(session: &AccountSessionState) -> (r: Result<
    LocalCryptoIdentity,
    ClientError,
>)
    ensures
        r == session_identity(*session),
{
    let tenant_id: Uuid = match parse_session_id(&session.tenant_id) {
        Err(error) => {
            return Err(error);
        },
        Ok(id) => id,
    };
    let user_id: Uuid = match parse_session_id(&session.user_id) {
        Err(error) => {
            return Err(error);
        },
        Ok(id) => id,
    };
    match parse_session_id(&session.device_id) {
        Err(error) => Err(error),
        Ok(device_id) => Ok(LocalCryptoIdentity { tenant_id, user_id, device_id }),
    }
}

/// The values of an account and of its server that a profile stores by name.
#[derive(Debug, Clone, Copy, PartialEq, Eq, Structural)]
pub enum StoredValue {
    SyncServerUrl,
    Email,
    UserId,
    TenantId,
    DeviceId,
    SessionExpiresAt,
    RootPublic,
    MasterKeyGeneration,
}

impl StoredValue {
    pub open spec fn key(self) -> Seq<char> {
        match self {
            StoredValue::SyncServerUrl => "sync_server_url"@,
            StoredValue::Email => "account_email"@,
            StoredValue::UserId => "account_user_id"@,
            StoredValue::TenantId => "account_tenant_id"@,
            StoredValue::DeviceId => "account_device_id"@,
            StoredValue::SessionExpiresAt => "account_session_expires_at"@,
            StoredValue::RootPublic => "account_root_public"@,
            StoredValue::MasterKeyGeneration => "account_mk_generation"@,
        }
    }

    /// The name that the value is stored under.
    pub fn name(self) -> (r: &'static str)
        ensures
            r@ == self.key(),
    {
        match self {
            StoredValue::SyncServerUrl => "sync_server_url",
            StoredValue::Email => "account_email",
            StoredValue::UserId => "account_user_id",
            StoredValue::TenantId => "account_tenant_id",
            StoredValue::DeviceId => "account_device_id",
            StoredValue::SessionExpiresAt => "account_session_expires_at",
            StoredValue::RootPublic => "account_root_public",
            StoredValue::MasterKeyGeneration => "account_mk_generation",
        }
    }
}

/// No two values are stored under one name.
pub proof fn law_stored_values_have_names_of_their_own(a: StoredValue, b: StoredValue)
    ensures
        a.key() == b.key() ==> a == b,
{
    reveal_strlit("sync_server_url");
    reveal_strlit("account_email");
    reveal_strlit("account_user_id");
    reveal_strlit("account_tenant_id");
    reveal_strlit("account_device_id");
    reveal_strlit("account_session_expires_at");
    reveal_strlit("account_root_public");
    reveal_strlit("account_mk_generation");
    assert("sync_server_url"@.len() == 15 && "sync_server_url"@[0] == 's');
    assert("account_email"@.len() == 13);
    assert("account_user_id"@.len() == 15 && "account_user_id"@[0] == 'a');
    assert("account_tenant_id"@.len() == 17);
    assert("account_device_id"@.len() == 17);
    assert("account_session_expires_at"@.len() == 26);
    assert("account_root_public"@.len() == 19);
    assert("account_mk_generation"@.len() == 21);
    assert("account_tenant_id"@[8] == 't');
    assert("account_device_id"@[8] == 'd');
}

/// The settings that an account leaves in its profile.
pub struct AccountSettings {
    pub email: String,
    pub user_id: String,
    pub tenant_id: String,
    pub device_id: String,
    pub root_public: String,
    pub master_key_generation: String,
}

/// A value, or nothing written out.
pub open spec fn or_empty(value: Option<String>) -> Seq<char> {
    match value {
        Some(text) => text@,
        None => Seq::<char>::empty(),
    }
}

fn value_or_empty(value: &Option<String>) -> (r: String)
    ensures
        r@ == or_empty(*value),
{
    match value {
        Some(text) => text.clone(),
        None => String::new(),
    }
}

/// Decides what settings persisting an account writes.
pub fn persist_account_state(
    session: &AccountSessionState,
    account_root_public: &Option<Vec<u8>>,
    generation: u64,
) -> (r: Result<AccountSettings, ClientError>)
    requires
        account_root_public is Some ==> account_root_public.unwrap()@.len() <= usize::MAX / 4,
    ensures
        if account_root_public is None {
            r is Err && r->Err_0 == ClientError::AccountBoundUnavailable
        } else {
            &&& r is Ok
            &&& r->Ok_0.email@ == or_empty(session.email)
            &&& r->Ok_0.user_id@ == or_empty(session.user_id)
            &&& r->Ok_0.tenant_id@ == or_empty(session.tenant_id)
            &&& r->Ok_0.device_id@ == or_empty(session.device_id)
            &&& r->Ok_0.root_public@ == external::base64_text(account_root_public.unwrap()@)
            &&& external::base64_decoded(r->Ok_0.root_public@) == Some(
                account_root_public.unwrap()@,
            )
            &&& r->Ok_0.master_key_generation@ == text::decimal(generation as nat)
        },
{
    let root_public = match account_root_public {
        None => {
            return Err(ClientError::AccountBoundUnavailable);
        },
        Some(bytes) => external::base64_encode(bytes.as_slice()),
    };
    Ok(
        AccountSettings {
            email: value_or_empty(&session.email),
            user_id: value_or_empty(&session.user_id),
            tenant_id: value_or_empty(&session.tenant_id),
            device_id: value_or_empty(&session.device_id),
            root_public,
            master_key_generation: text::decimal_text(generation),
        },
    )
}

/// The settings of an account say what loading it again needs: the generation is read
/// back, and so are its identifiers.
pub proof fn law_account_settings_load_back(
    session: AccountSessionState,
    settings: AccountSettings,
    generation: u64,
)
    requires
        session_identity(session) is Ok,
        settings.tenant_id@ == or_empty(session.tenant_id),
        settings.user_id@ == or_empty(session.user_id),
        settings.device_id@ == or_empty(session.device_id),
        settings.master_key_generation@ == text::decimal(generation as nat),
    ensures
        needed_generation(Ok(Some(settings.master_key_generation))) == Ok::<u64, ClientError>(
            generation,
        ),
        organization_flow::needed_id(Ok(Some(settings.user_id))) == Ok::<Uuid, ClientError>(
            session_identity(session)->Ok_0.user_id,
        ),
        organization_flow::needed_id(Ok(Some(settings.tenant_id))) == Ok::<Uuid, ClientError>(
            session_identity(session)->Ok_0.tenant_id,
        ),
        organization_flow::needed_id(Ok(Some(settings.device_id))) == Ok::<Uuid, ClientError>(
            session_identity(session)->Ok_0.device_id,
        ),
{
    text::lemma_decimal_reads_back(generation as nat, u64::MAX as nat);
}

/// What local changes may be made with.
pub enum LocalMutationState {
    Anonymous,
    Ready(LocalMutationContext),
    AccountBoundUnavailable,
}

/// What the keys of a profile allow.
pub open spec fn mutation_allowed(crypto: CryptoRuntimeState, state: LocalMutationState) -> bool {
    match crypto {
        CryptoRuntimeState::Ready(context) => {
            &&& state is Ready
            &&& state->Ready_0.device_id@ == context.device_id.text_spec()
            &&& state->Ready_0.keys.tenant_id == context.sync_keys.tenant_id
            &&& state->Ready_0.keys.tenant_root_dek == context.sync_keys.tenant_root_dek
            &&& state->Ready_0.keys.tenant_generation == context.sync_keys.tenant_generation
            &&& state->Ready_0.keys.historical_tenant_root_deks@
                == context.sync_keys.historical_tenant_root_deks@
        },
        CryptoRuntimeState::Anonymous => state is Anonymous,
        _ => state is AccountBoundUnavailable,
    }
}

pub fn local_mutation_state(state: &AccountRuntimeState) -> (r: LocalMutationState)
    ensures
        mutation_allowed(state.crypto, r),
{
    match &state.crypto {
        CryptoRuntimeState::Ready(context) => LocalMutationState::Ready(context.mutation_context()),
        CryptoRuntimeState::Anonymous => LocalMutationState::Anonymous,
        CryptoRuntimeState::Unavailable(_) => LocalMutationState::AccountBoundUnavailable,
        CryptoRuntimeState::Unloaded => LocalMutationState::AccountBoundUnavailable,
    }
}

/// Whether local changes may be made at all.
pub fn preflight_sync_mutation(state: &LocalMutationState) -> (r: Result<(), ClientError>)
    ensures
        r == (if state is AccountBoundUnavailable {
            Err::<(), ClientError>(ClientError::AccountBoundUnavailable)
        } else {
            Ok(())
        }),
{
    match state {
        LocalMutationState::Anonymous => Ok(()),
        LocalMutationState::Ready(_) => Ok(()),
        LocalMutationState::AccountBoundUnavailable => Err(ClientError::AccountBoundUnavailable),
    }
}

/// A profile that belongs to an account never falls back to anonymous changes: without
/// its keys it refuses them.
pub proof fn law_bound_profile_is_not_anonymous(
    crypto: CryptoRuntimeState,
    state: LocalMutationState,
)
    requires
        mutation_allowed(crypto, state),
        !(crypto is Anonymous),
    ensures
        !(state is Anonymous),
        crypto is Ready || state is AccountBoundUnavailable,
{
}

} // verus!
