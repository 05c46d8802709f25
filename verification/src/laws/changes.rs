//! Changes: what each operation changes of the state that it is given, and what it leaves.
use vstd::prelude::*;
use crate::account_runtime;
use crate::credentials;
use crate::profile_coordination;
use crate::profile_runtime;
use crate::sync;
use crate::account_runtime::{AccountRuntimeState, CryptoRuntimeState, StoredAccount};
use crate::credentials::{AccountClientError, OriginBoundAccessToken};
use crate::error::{ClientError, StorageError};
use crate::local_crypto::LocalCryptoContext;
use crate::login::{LoginEvent, PendingLoginRun};
use crate::model::{AccountSessionState, SyncStatus};
use crate::profile_coordination::{ProcessLockState, ProfileIdentity, SessionLockState};
use crate::profile_runtime::{LoadedRuntime, RuntimeRefresh};
use crate::sync::{
    ActiveSyncContext, SyncReadiness, SyncRunSummary, SyncRuntimeState, SyncStart,
};
use crate::sync_store::SqliteSyncStore;

verus! {

/// A run starts where the profile is ready and none is under way; it then runs, forgets
/// the last error and keeps the rest. Otherwise nothing changes: a profile that is
/// logged out, or a run that is under way, is answered with the status, and any other
/// want is told.
pub proof fn law_run_starts_once(
    readiness: SyncReadiness,
    state: &mut SyncRuntimeState,
    r: Result<SyncStart, ClientError>,
)
    requires
        call_ensures(sync::begin_sync_now, (readiness, state,), r),
    ensures
        readiness is Ready && !old(state).running ==>
            r is Ok
                && r->Ok_0 is Run
                && r->Ok_0->Run_0 == readiness->Ready_0
                && final(state).running
                && final(state).last_error is None
                && final(state).last_success_at == old(state).last_success_at
                && final(state).last_failure_at == old(state).last_failure_at
                && final(state).last_summary == old(state).last_summary,
        !(readiness is Ready && !old(state).running) ==> *final(state) == *old(state),
        readiness is Ready && old(state).running ==>
            r is Ok
                && r->Ok_0 is Answer
                && r->Ok_0->Answer_0.logged_in
                && r->Ok_0->Answer_0.running,
        readiness is LoggedOut ==> r is Ok && r->Ok_0 is Answer && !r->Ok_0->Answer_0.logged_in,
        readiness is CredentialUnavailable ==> r is Err && r->Err_0 is CredentialUnavailable,
        readiness is AccountBoundUnavailable ==>
            r is Err
                && r->Err_0 is AccountBoundUnavailable,
{
}

/// A run that is cancelled is not running, and nothing else changes.
pub proof fn law_cancelled_run_is_not_running(state: &mut SyncRuntimeState)
    requires
        call_ensures(sync::cancel_sync_run, (state,), ()),
    ensures
        !final(state).running,
        final(state).last_success_at == old(state).last_success_at
            && final(state).last_failure_at == old(state).last_failure_at
            && final(state).last_error == old(state).last_error
            && final(state).last_summary == old(state).last_summary,
{
}

/// A run that ends is not running. A success records its time and its counts and
/// forgets the last error, a failure records its time and its name and keeps the
/// counts; the status tells the state, and the error is answered unless the run needs
/// an upgrade.
pub proof fn law_finished_run_is_recorded(
    logged_in: bool,
    state: &mut SyncRuntimeState,
    result: Result<SyncRunSummary, ClientError>,
    timestamp: i64,
    r: (SyncStatus, Option<ClientError>),
)
    requires
        call_ensures(sync::finish_sync_run, (logged_in, state, result, timestamp,), r),
    ensures
        !final(state).running,
        result is Ok ==>
            final(state).last_success_at == Some(timestamp)
                && final(state).last_error is None
                && final(state).last_summary == result->Ok_0
                && final(state).last_failure_at == old(state).last_failure_at,
        result is Err ==>
            final(state).last_failure_at == Some(timestamp)
                && final(state).last_error is Some
                && final(state).last_summary == old(state).last_summary
                && final(state).last_success_at == old(state).last_success_at,
        result is Err && result->Err_0 is UpgradeRequired ==>
            final(state).last_error->Some_0 is UpgradeRequired
                && r.0.upgrade_required
                && r.1 is None,
        result is Err && !(result->Err_0 is UpgradeRequired) ==>
            r.1 == Some(result->Err_0)
                && !r.0.upgrade_required,
        result is Ok ==> r.1 is None,
        r.0.logged_in == logged_in
            && !r.0.running
            && r.0.last_success_at == final(state).last_success_at
            && r.0.last_failure_at == final(state).last_failure_at
            && r.0.pulled_count == final(state).last_summary.pulled_count
            && r.0.pushed_count == final(state).last_summary.pushed_count,
{
}

/// Adding up the counts of two runs adds each count to the count of the same name.
pub proof fn law_counts_are_added_in_place(target: &mut SyncRunSummary, value: SyncRunSummary)
    requires
        old(target).pushed_count + value.pushed_count <= usize::MAX,
        old(target).push_acked_count + value.push_acked_count <= usize::MAX,
        old(target).push_superseded_count + value.push_superseded_count <= usize::MAX,
        old(target).push_conflict_count + value.push_conflict_count <= usize::MAX,
        old(target).pulled_count + value.pulled_count <= usize::MAX,
        old(target).applied_count + value.applied_count <= usize::MAX,
        old(target).deleted_count + value.deleted_count <= usize::MAX,
        old(target).decrypt_failed_count + value.decrypt_failed_count <= usize::MAX,
        old(target).repush_count + value.repush_count <= usize::MAX,
        old(target).missing_key_quarantined_count + value.missing_key_quarantined_count <= usize::MAX,
        old(target).corruption_quarantined_count + value.corruption_quarantined_count <= usize::MAX,
        old(target).resolved_quarantine_count + value.resolved_quarantine_count <= usize::MAX,
        call_ensures(sync::add_sync_summary, (target, &value,), ()),
    ensures
        final(target).pushed_count == old(target).pushed_count + value.pushed_count,
        final(target).push_acked_count == old(target).push_acked_count + value.push_acked_count,
        final(target).push_superseded_count == old(target).push_superseded_count + value.push_superseded_count,
        final(target).push_conflict_count == old(target).push_conflict_count + value.push_conflict_count,
        final(target).pulled_count == old(target).pulled_count + value.pulled_count,
        final(target).applied_count == old(target).applied_count + value.applied_count,
        final(target).deleted_count == old(target).deleted_count + value.deleted_count,
        final(target).decrypt_failed_count == old(target).decrypt_failed_count + value.decrypt_failed_count,
        final(target).repush_count == old(target).repush_count + value.repush_count,
        final(target).missing_key_quarantined_count == old(target).missing_key_quarantined_count + value.missing_key_quarantined_count,
        final(target).corruption_quarantined_count == old(target).corruption_quarantined_count + value.corruption_quarantined_count,
        final(target).resolved_quarantine_count == old(target).resolved_quarantine_count + value.resolved_quarantine_count,
{
}

/// A token that a run goes on with replaces the server and the token of its context,
/// and nothing else.
pub proof fn law_fresh_token_replaces_the_old(
    context: &mut ActiveSyncContext,
    token: OriginBoundAccessToken,
)
    requires
        call_ensures(sync::use_access_token, (context, token,), ()),
    ensures
        final(context).server_url == token.issuer,
        final(context).session_token == token.token,
        final(context).tenant_id == old(context).tenant_id
            && final(context).device_id == old(context).device_id
            && final(context).keys == old(context).keys
            && final(context).manifest_auth_key == old(context).manifest_auth_key,
{
}

/// A session that the server does not revoke stays, with its credential, and the
/// refusal is told. Otherwise the credential is deleted: where that works the session
/// ends and the keys stay, and where it does not nothing changes.
pub proof fn law_logout_waits_for_the_server<D: FnOnce() -> bool>(
    state: &mut AccountRuntimeState,
    revocation: Option<Result<(), AccountClientError>>,
    delete: D,
    r: Result<(), ClientError>,
)
    requires
        call_ensures(account_runtime::account_logout::<D>, (state, revocation, delete,), r),
    ensures
        revocation is Some && revocation->Some_0 is Err ==>
            r is Err
                && r->Err_0 == credentials::account_error(revocation->Some_0->Err_0)
                && *final(state) == *old(state),
        r is Err ==> *final(state) == *old(state),
        r is Ok ==>
            delete.ensures((), true)
                && final(state).session is None
                && final(state).session_restored
                && final(state).crypto == old(state).crypto
                && final(state).loaded_credential_generation == old(state).loaded_credential_generation,
        !(revocation is Some && revocation->Some_0 is Err) && r is Err ==>
            r->Err_0 is KeyStore
                && delete.ensures((), false),
{
}

/// A session that the server does not know any more ends; the keys stay.
pub proof fn law_invalid_session_ends(state: &mut AccountRuntimeState)
    requires
        call_ensures(AccountRuntimeState::invalidate_remote_session, (state,), ()),
    ensures
        final(state).session is None,
        final(state).session_restored,
        final(state).crypto == old(state).crypto
            && final(state).loaded_credential_generation == old(state).loaded_credential_generation,
{
}

/// A runtime that is replaced has the session and the keys handed over and counts as
/// restored.
pub proof fn law_runtime_is_replaced(
    state: &mut AccountRuntimeState,
    session: Option<AccountSessionState>,
    crypto: LocalCryptoContext,
)
    requires
        call_ensures(AccountRuntimeState::replace_account_runtime, (state, session, crypto,), ()),
    ensures
        final(state).session == session,
        final(state).session_restored,
        final(state).crypto is Ready,
        *final(state).crypto->Ready_0 == crypto,
        final(state).loaded_credential_generation == old(state).loaded_credential_generation,
{
}

/// Keys that were loaded stay; keys that were not are restored first, and a failure
/// there changes nothing. Then the session is restored, unless it was.
pub proof fn law_keys_are_restored_before_the_session<
    K: FnOnce() -> Result<CryptoRuntimeState, ClientError>,
    T: FnOnce() -> Result<Option<i64>, ClientError>, D: FnOnce() -> bool,
>(
    state: &mut AccountRuntimeState,
    restore: K,
    stored: T,
    now: Result<i64, ClientError>,
    account: StoredAccount,
    delete: D,
    r: Result<(), ClientError>,
)
    requires
        call_ensures(account_runtime::ensure_account_runtime_restored::<K, T, D>, (state, restore, stored, now, account, delete,), r),
    ensures
        !(old(state).crypto is Unloaded) ==> final(state).crypto == old(state).crypto,
        old(state).crypto is Unloaded && *final(state) != *old(state) ==>
            restore.ensures((), Ok(final(state).crypto)),
        old(state).session_restored && !(old(state).crypto is Unloaded) ==>
            r is Ok
                && final(state).session == old(state).session
                && final(state).session_restored,
        final(state).loaded_credential_generation == old(state).loaded_credential_generation,
{
    if old(state).crypto is Unloaded && *final(state) != *old(state) {
        let keys = choose|keys: Result<CryptoRuntimeState, ClientError>| #[trigger] restore.ensures((), keys) && match keys {
            Err(error) => r == Err::<(), ClientError>(error) && *final(state) == *old(state),
            Ok(held) => {
                &&& final(state).crypto == held
                &&& account_runtime::session_ensured(*old(state), *final(state), r, stored, now, account, delete)
            },
        };
        assert(keys == Ok::<CryptoRuntimeState, ClientError>(final(state).crypto));
    }
}

/// A runtime that is refreshed is at the epoch and the generation that were read. Its
/// key is replaced where the generation is another, and its account is forgotten where
/// the epoch is; a failed read, or no capsule, changes nothing.
pub proof fn law_runtime_is_refreshed_where_it_is_behind(
    loaded: &mut LoadedRuntime,
    account: &mut AccountRuntimeState,
    generation: Result<Option<u64>, ClientError>,
    epoch: Result<i64, ClientError>,
    r: Result<RuntimeRefresh, ClientError>,
)
    requires
        call_ensures(profile_runtime::refresh_profile_runtime, (loaded, account, generation, epoch,), r),
    ensures
        r is Ok <==> generation is Ok && generation->Ok_0 is Some && epoch is Ok,
        r is Err ==> *final(loaded) == *old(loaded) && *final(account) == *old(account),
        generation is Err ==> r->Err_0 == generation->Err_0,
        generation is Ok && generation->Ok_0 is None ==> r->Err_0 is LocalKeyState,
        generation is Ok && generation->Ok_0 is Some && epoch is Err ==>
            r->Err_0 == epoch->Err_0,
        r is Ok ==>
            final(loaded).runtime_epoch == epoch->Ok_0
                && final(loaded).capsule_generation == generation->Ok_0->Some_0,
        r is Ok ==>
            (r->Ok_0.replace_db_key <==> generation->Ok_0->Some_0 != old(loaded).capsule_generation)
                && (r->Ok_0.reset_account <==> epoch->Ok_0 != old(loaded).runtime_epoch),
        r is Ok && epoch->Ok_0 != old(loaded).runtime_epoch ==>
            final(account).session is None
                && !final(account).session_restored
                && final(account).crypto is Unloaded
                && final(account).loaded_credential_generation is None,
        r is Ok && epoch->Ok_0 == old(loaded).runtime_epoch ==>
            *final(account) == *old(account),
{
}

/// A pending capsule is recovered where it opened, its generation fits and it could be
/// published; the runtime is then at the epoch published and forgets its account.
/// Otherwise nothing changes.
pub proof fn law_capsule_is_recovered_whole<P: FnOnce(i64) -> Result<i64, ClientError>>(
    loaded: &mut LoadedRuntime,
    account: &mut AccountRuntimeState,
    generation: u64,
    opened: Result<(), ClientError>,
    publish: P,
    r: Result<(), ClientError>,
)
    requires
        call_ensures(profile_runtime::recover_pending_capsule::<P>, (loaded, account, generation, opened, publish,), r),
    ensures
        r is Err ==> *final(loaded) == *old(loaded) && *final(account) == *old(account),
        opened is Err ==> r is Err && r->Err_0 == opened->Err_0,
        opened is Ok && generation > i64::MAX ==> r is Err && r->Err_0 is LocalKeyState,
        r is Ok ==>
            final(loaded).capsule_generation == generation
                && publish.ensures((generation as i64,), Ok(final(loaded).runtime_epoch))
                && final(account).session is None
                && !final(account).session_restored
                && final(account).crypto is Unloaded,
{
    if r is Ok {
        let published = choose|published: Result<i64, ClientError>| #[trigger] publish.ensures((generation as i64,), published) && match published {
            Err(error) => r == Err::<(), ClientError>(error),
            Ok(epoch) => {
                &&& r == Ok::<(), ClientError>(())
                &&& *final(loaded) == profile_runtime::caught_up(epoch, generation)
                &&& account_runtime::is_unloaded(*final(account))
            },
        };
        assert(published == Ok::<i64, ClientError>(final(loaded).runtime_epoch));
    }
}

/// An epoch is published if and only if the runtime is still at the one expected;
/// otherwise the lease is lost and nothing changes.
pub proof fn law_epoch_is_published_if_current(
    loaded: &mut LoadedRuntime,
    expected: i64,
    epoch: i64,
    r: Result<(), ClientError>,
)
    requires
        call_ensures(profile_runtime::publish_runtime_epoch_if_current, (loaded, expected, epoch,), r),
    ensures
        r is Ok <==> old(loaded).runtime_epoch == expected,
        r is Ok ==>
            final(loaded).runtime_epoch == epoch
                && final(loaded).capsule_generation == old(loaded).capsule_generation,
        r is Err ==> r->Err_0 is LeaseLost && *final(loaded) == *old(loaded),
{
}

/// A database is pinned where none was; the same one is accepted after that, and
/// another is refused; a failed read changes nothing.
pub proof fn law_database_is_pinned_once(
    pinned: &mut Option<ProfileIdentity>,
    database: Result<ProfileIdentity, ClientError>,
    r: Result<(), ClientError>,
)
    requires
        call_ensures(profile_coordination::pin_database, (pinned, database,), r),
    ensures
        database is Err ==>
            r is Err
                && r->Err_0 == database->Err_0
                && *final(pinned) == *old(pinned),
        database is Ok && *old(pinned) is None ==>
            r is Ok
                && *final(pinned) == Some(database->Ok_0),
        database is Ok && *old(pinned) is Some ==>
            *final(pinned) == *old(pinned)
                && (r is Ok <==> (*old(pinned))->Some_0 == database->Ok_0),
        database is Ok && r is Err ==> r->Err_0 is ProfileLockUnsupported,
{
}

/// A shared lock is given to another reader without asking for the file, and to the
/// first where the file could be locked; a writer and a poisoned lock bar it.
pub proof fn law_shared_lock_is_taken<K: FnOnce() -> Result<(), ClientError>>(
    state: &mut ProcessLockState,
    lock: K,
    r: Result<(), ClientError>,
)
    requires
        call_ensures(ProcessLockState::try_shared::<K>, (state, lock,), r),
    ensures
        r is Ok ==>
            !old(state).poisoned
                && !old(state).writer
                && final(state).readers == old(state).readers + 1
                && !final(state).writer
                && !final(state).poisoned,
        r is Err ==> *final(state) == *old(state),
        old(state).poisoned ==> r is Err && r->Err_0 is ProfileLockUnsupported,
        !old(state).poisoned && old(state).writer ==> r is Err && r->Err_0 is ProfileBusy,
        !old(state).poisoned && !old(state).writer && 0 < old(state).readers < usize::MAX ==>
            r is Ok,
        !old(state).poisoned && !old(state).writer && old(state).readers == 0 ==>
            exists|reply: Result<(), ClientError>| #[trigger] lock.ensures((), reply)
                && (r is Ok <==> reply is Ok)
                && (reply is Err ==> r->Err_0 == reply->Err_0),
{
}

/// The exclusive lock is given where nobody reads or writes and the file could be
/// locked; anybody else and a poisoned lock bar it.
pub proof fn law_exclusive_lock_is_taken<K: FnOnce() -> Result<(), ClientError>>(
    state: &mut ProcessLockState,
    lock: K,
    r: Result<(), ClientError>,
)
    requires
        call_ensures(ProcessLockState::try_exclusive::<K>, (state, lock,), r),
    ensures
        r is Ok ==>
            !old(state).poisoned
                && !old(state).writer
                && old(state).readers == 0
                && final(state).writer
                && final(state).readers == 0
                && !final(state).poisoned,
        r is Err ==> *final(state) == *old(state),
        old(state).poisoned ==> r is Err && r->Err_0 is ProfileLockUnsupported,
        !old(state).poisoned && (old(state).writer || old(state).readers > 0) ==>
            r is Err
                && r->Err_0 is ProfileBusy,
        !old(state).poisoned && !old(state).writer && old(state).readers == 0 ==>
            exists|reply: Result<(), ClientError>| #[trigger] lock.ensures((), reply)
                && (r is Ok <==> reply is Ok)
                && (reply is Err ==> r->Err_0 == reply->Err_0),
{
}

/// A reader that leaves is counted off; the last one unlocks the file, or poisons the
/// lock where that fails.
pub proof fn law_shared_lock_is_given_back<U: FnOnce() -> bool>(
    state: &mut ProcessLockState,
    unlock: U,
)
    requires
        call_ensures(ProcessLockState::release_shared::<U>, (state, unlock,), ()),
    ensures
        old(state).readers > 1 ==>
            final(state).readers == old(state).readers - 1
                && final(state).poisoned == old(state).poisoned,
        old(state).readers == 0 ==> final(state).poisoned,
        old(state).readers == 1 && !final(state).poisoned ==>
            final(state).readers == 0
                && unlock.ensures((), true),
        final(state).writer == old(state).writer,
{
}

/// A writer that leaves unlocks the file, or poisons the lock where that fails.
pub proof fn law_exclusive_lock_is_given_back<U: FnOnce() -> bool>(
    state: &mut ProcessLockState,
    unlock: U,
)
    requires
        call_ensures(ProcessLockState::release_exclusive::<U>, (state, unlock,), ()),
    ensures
        old(state).writer && !final(state).poisoned ==>
            !final(state).writer
                && unlock.ensures((), true),
        !old(state).writer ==> final(state).poisoned,
        final(state).readers == old(state).readers,
{
}

/// A session that leaves unlocks the file, or poisons the lock where that fails.
pub proof fn law_session_lock_is_given_back<U: FnOnce() -> bool>(
    state: &mut SessionLockState,
    unlock: U,
)
    requires
        call_ensures(SessionLockState::release_session::<U>, (state, unlock,), ()),
    ensures
        old(state).held && !final(state).poisoned ==>
            !final(state).held
                && unlock.ensures((), true),
        !old(state).held ==> final(state).poisoned,
{
}

/// A lease is acquired by a store that has none, and is then to be given back; a store
/// that has one loses nothing, and a failure changes nothing.
pub proof fn law_lease_is_acquired_once<L, A: FnOnce() -> Result<L, StorageError>>(
    store: &mut SqliteSyncStore<L>,
    acquire: A,
    r: Result<(), StorageError>,
)
    requires
        call_ensures(SqliteSyncStore::<L>::acquire_sync_lease::<A>, (store, acquire,), r),
    ensures
        old(store).lease is Some ==>
            r is Err
                && r->Err_0 is SyncLeaseLost
                && *final(store) == *old(store),
        r is Err ==> *final(store) == *old(store),
        r is Ok ==>
            old(store).lease is None
                && final(store).lease is Some
                && final(store).release_lease_on_drop
                && acquire.ensures((), Ok(final(store).lease->Some_0)),
        final(store).coordination == old(store).coordination
            && final(store).preflight_calls == old(store).preflight_calls
            && final(store).fail_preflight_on_call == old(store).fail_preflight_on_call,
{
    if r is Ok {
        let reply = choose|reply: Result<L, StorageError>| #[trigger] acquire.ensures((), reply) && match reply {
            Err(error) => r == Err::<(), StorageError>(error) && *final(store) == *old(store),
            Ok(lease) => {
                &&& r is Ok
                &&& final(store).lease == Some(lease)
                &&& final(store).release_lease_on_drop
            },
        };
        assert(reply == Ok::<L, StorageError>(final(store).lease->Some_0));
    }
}

/// A lease is renewed where there is one and replaced by the new one; without one
/// nothing is renewed, and a failure changes nothing.
pub proof fn law_lease_is_renewed<L, R: FnOnce(&L) -> Result<L, StorageError>>(
    store: &mut SqliteSyncStore<L>,
    renew: R,
    r: Result<bool, StorageError>,
)
    requires
        call_ensures(SqliteSyncStore::<L>::renew_sync_lease::<R>, (store, renew,), r),
    ensures
        old(store).lease is None ==> r is Ok && !r->Ok_0 && *final(store) == *old(store),
        r is Err ==> *final(store) == *old(store),
        old(store).lease is Some && r is Ok ==> r->Ok_0 && final(store).lease is Some,
        final(store).coordination == old(store).coordination
            && final(store).preflight_calls == old(store).preflight_calls
            && final(store).fail_preflight_on_call == old(store).fail_preflight_on_call
            && final(store).release_lease_on_drop == old(store).release_lease_on_drop,
{
}

/// A lease that is released is gone; without one nothing happens, and a failure keeps
/// it.
pub proof fn law_lease_is_released<L, R: FnOnce(&L) -> Result<(), StorageError>>(
    store: &mut SqliteSyncStore<L>,
    release: R,
    r: Result<(), StorageError>,
)
    requires
        call_ensures(SqliteSyncStore::<L>::release_sync_lease::<R>, (store, release,), r),
    ensures
        old(store).lease is None ==> r is Ok && *final(store) == *old(store),
        r is Err ==> *final(store) == *old(store),
        r is Ok ==> final(store).lease is None,
        old(store).lease is Some && r is Ok ==> !final(store).release_lease_on_drop,
        final(store).coordination == old(store).coordination
            && final(store).preflight_calls == old(store).preflight_calls
            && final(store).fail_preflight_on_call == old(store).fail_preflight_on_call,
{
}

/// A store that is given up releases the lease that it acquired, and leaves any other
/// alone.
pub proof fn law_store_gives_up_its_own_lease<L, R: FnOnce(&L) -> Result<(), StorageError>>(
    store: &mut SqliteSyncStore<L>,
    release: R,
)
    requires
        call_ensures(SqliteSyncStore::<L>::give_up::<R>, (store, release,), ()),
    ensures
        !old(store).release_lease_on_drop || old(store).lease is None ==>
            *final(store) == *old(store),
        final(store).lease is None || *final(store) == *old(store),
        final(store).coordination == old(store).coordination
            && final(store).preflight_calls == old(store).preflight_calls
            && final(store).fail_preflight_on_call == old(store).fail_preflight_on_call,
{
}

/// Before a request the lease is renewed and asserted; a store that needs one and has
/// none has lost it.
pub proof fn law_no_request_without_a_lease<
    L, R: FnOnce(&L) -> Result<L, StorageError>, A: FnOnce(&L) -> Result<(), StorageError>,
>(
    store: &mut SqliteSyncStore<L>,
    renew: R,
    assert_lease: A,
    r: Result<(), StorageError>,
)
    requires
        call_ensures(SqliteSyncStore::<L>::preflight_network_request::<R, A>, (store, renew, assert_lease,), r),
    ensures
        old(store).lease is None && !(old(store).coordination is UnfencedProtocolHarness) ==>
            r is Err
                && r->Err_0 is SyncLeaseLost
                && *final(store) == *old(store),
        old(store).lease is Some && r is Ok ==>
            final(store).lease is Some
                && exists|held: Result<(), StorageError>| #[trigger] assert_lease.ensures((&final(store).lease->Some_0,), held)
                && held is Ok,
        old(store).lease is None && old(store).coordination is UnfencedProtocolHarness ==>
            final(store).preflight_calls == old(store).preflight_calls + 1
                && (r is Err <==> old(store).fail_preflight_on_call == Some((old(store).preflight_calls + 1) as usize)),
        final(store).release_lease_on_drop == old(store).release_lease_on_drop
            && final(store).coordination == old(store).coordination
            && final(store).fail_preflight_on_call == old(store).fail_preflight_on_call,
{
    if old(store).lease is Some && r is Ok {
        assert(assert_lease.ensures((&final(store).lease->Some_0,), r));
    }
}

/// A login that is resumed moves by its step and what happened, under the times of its
/// tokens and its challenge; its issuer stays, and so does everything that the step
/// does not replace.
pub proof fn law_login_moves_by_its_step(run: &mut PendingLoginRun, event: LoginEvent)
    requires
        call_ensures(PendingLoginRun::resume_pending_login, (run, event,), ()),
    ensures
        final(run).issuer == old(run).issuer,
        old(run).step is Certify && event is Completed ==> final(run).step is CoverLocalKeys,
        old(run).step is Certify && !(event is Completed) ==>
            !(final(run).step is CoverLocalKeys),
        old(run).step is RefreshTokens && event is Refreshed ==>
            final(run).login.session.tokens == event->Refreshed_0,
        old(run).step is CoverLocalKeys && event is Covered ==>
            final(run).login.keys.tenant_root_dek == event->tenant_root_dek,
        final(run).login.session.user_id == old(run).login.session.user_id,
        final(run).login.session.tenant_id == old(run).login.session.tenant_id,
        final(run).login.session.device_id == old(run).login.session.device_id,
        final(run).login.session.email == old(run).login.session.email,
{
}

} // verus!
