//! Synchronization: who may run, what a run does in which order, and what is told of it.
use vstd::prelude::*;
use crate::account_runtime::AccountRuntimeState;
use crate::credentials;
use crate::external;
use crate::ids;
use crate::sync;
use crate::sync_run;
use crate::credentials::{AccountClientError, OriginBoundAccessToken};
use crate::error::{ClientError, StorageError};
use crate::sync::{
    AccountReadiness, SyncReadiness, SyncRunSummary, SyncRuntimeState, TicketEvent, TicketStep,
};
use crate::sync_run::{
    AfterAttempt, AttemptEvent, AttemptFailure, AttemptStep, BackfillEvent, BackfillStep,
    RunEvent, RunStep,
};

verus! {

/// A logged-in session with unlocked keys, the key of the manifest and an access token
/// is ready if the user, the tenant and the device that the session names are those of
/// the unlocked keys, and is refused for another identity if any one of the three
/// differs.
pub proof fn law_run_is_of_the_unlocked_profile(
    readiness: Result<AccountReadiness, ClientError>,
    state: AccountRuntimeState,
    key: Option<Vec<u8>>,
    token: Result<Option<OriginBoundAccessToken>, ClientError>,
    r: Result<SyncReadiness, ClientError>,
)
    requires
        call_ensures(sync::sync_readiness, (readiness, &state, key, token), r),
        readiness is Ok,
        readiness->Ok_0 is Ready,
        state.session is Some,
        state.session->Some_0.logged_in,
        state.crypto is Ready,
        state.session->Some_0.user_id is Some,
        ids::parsed(state.session->Some_0.user_id->Some_0@) is Some,
        state.session->Some_0.tenant_id is Some,
        ids::parsed(state.session->Some_0.tenant_id->Some_0@) is Some,
        state.session->Some_0.device_id is Some,
        ids::parsed(state.session->Some_0.device_id->Some_0@) is Some,
        key is Some,
        token is Ok,
        token->Ok_0 is Some,
        token->Ok_0->Some_0.token@.len() > 0,
    ensures
        r is Ok && r->Ok_0 is Ready <==>
            ids::parsed(state.session->Some_0.user_id->Some_0@) == Some(state.crypto->Ready_0.user_id)
                && ids::parsed(state.session->Some_0.tenant_id->Some_0@) == Some(state.crypto->Ready_0.tenant_id)
                && ids::parsed(state.session->Some_0.device_id->Some_0@) == Some(state.crypto->Ready_0.device_id),
        (ids::parsed(state.session->Some_0.user_id->Some_0@) != Some(state.crypto->Ready_0.user_id) || ids::parsed(state.session->Some_0.tenant_id->Some_0@) != Some(state.crypto->Ready_0.tenant_id) || ids::parsed(state.session->Some_0.device_id->Some_0@) != Some(state.crypto->Ready_0.device_id)) ==>
            r is Err
                && r->Err_0 is ProfileIdentityMismatch,
{
}

/// Another identity is refused before the key of the manifest and the access token are
/// looked at.
pub proof fn law_other_identity_is_refused_first(
    readiness: Result<AccountReadiness, ClientError>,
    state: AccountRuntimeState,
    key: Option<Vec<u8>>,
    token: Result<Option<OriginBoundAccessToken>, ClientError>,
    r: Result<SyncReadiness, ClientError>,
)
    requires
        call_ensures(sync::sync_readiness, (readiness, &state, key, token), r),
        readiness is Ok,
        readiness->Ok_0 is Ready,
        state.session is Some,
        state.session->Some_0.logged_in,
        state.crypto is Ready,
        state.session->Some_0.user_id is Some,
        ids::parsed(state.session->Some_0.user_id->Some_0@) is Some,
        state.session->Some_0.tenant_id is Some,
        ids::parsed(state.session->Some_0.tenant_id->Some_0@) is Some,
        state.session->Some_0.device_id is Some,
        ids::parsed(state.session->Some_0.device_id->Some_0@) is Some,
        ids::parsed(state.session->Some_0.user_id->Some_0@) != Some(state.crypto->Ready_0.user_id)
            || ids::parsed(state.session->Some_0.tenant_id->Some_0@) != Some(state.crypto->Ready_0.tenant_id)
            || ids::parsed(state.session->Some_0.device_id->Some_0@) != Some(state.crypto->Ready_0.device_id),
    ensures
        r is Err,
        r->Err_0 is ProfileIdentityMismatch,
{
}

/// A failed read of the account is passed on; an account that is logged out, lacks its
/// credential or lacks its keys is told as that.
pub proof fn law_unready_account_is_told(
    readiness: Result<AccountReadiness, ClientError>,
    state: AccountRuntimeState,
    key: Option<Vec<u8>>,
    token: Result<Option<OriginBoundAccessToken>, ClientError>,
    r: Result<SyncReadiness, ClientError>,
)
    requires
        call_ensures(sync::sync_readiness, (readiness, &state, key, token), r),
    ensures
        readiness is Err ==> r is Err && r->Err_0 == readiness->Err_0,
        readiness is Ok && readiness->Ok_0 is LoggedOut ==> r is Ok && r->Ok_0 is LoggedOut,
        readiness is Ok && readiness->Ok_0 is CredentialUnavailable ==>
            r is Ok
                && r->Ok_0 is CredentialUnavailable,
        readiness is Ok && readiness->Ok_0 is AccountBoundUnavailable ==>
            r is Ok
                && r->Ok_0 is AccountBoundUnavailable,
{
}

/// Without a logged-in session the credential is unavailable, and with one but without
/// unlocked keys the account is.
pub proof fn law_run_needs_a_session(
    readiness: Result<AccountReadiness, ClientError>,
    state: AccountRuntimeState,
    key: Option<Vec<u8>>,
    token: Result<Option<OriginBoundAccessToken>, ClientError>,
    r: Result<SyncReadiness, ClientError>,
)
    requires
        call_ensures(sync::sync_readiness, (readiness, &state, key, token), r),
        readiness is Ok,
        readiness->Ok_0 is Ready,
    ensures
        (state.session is None || !state.session->Some_0.logged_in) ==>
            r is Err
                && r->Err_0 is CredentialUnavailable,
        state.session is Some && state.session->Some_0.logged_in && !(state.crypto is Ready) ==>
            r is Ok
                && r->Ok_0 is AccountBoundUnavailable,
        state.session is Some
            && state.session->Some_0.logged_in
            && state.crypto is Ready
            && (state.session->Some_0.user_id is None || ids::parsed(state.session->Some_0.user_id->Some_0@) is None || state.session->Some_0.tenant_id is None || ids::parsed(state.session->Some_0.tenant_id->Some_0@) is None || state.session->Some_0.device_id is None || ids::parsed(state.session->Some_0.device_id->Some_0@) is None) ==>
            r is Err
                && r->Err_0 is IncompleteAccountState,
{
}

/// Where the identity fits, a missing key of the manifest makes the account
/// unavailable, then a failed read of the token is passed on, then a missing or empty
/// token makes the credential unavailable.
pub proof fn law_run_needs_its_keys_and_token(
    readiness: Result<AccountReadiness, ClientError>,
    state: AccountRuntimeState,
    key: Option<Vec<u8>>,
    token: Result<Option<OriginBoundAccessToken>, ClientError>,
    r: Result<SyncReadiness, ClientError>,
)
    requires
        call_ensures(sync::sync_readiness, (readiness, &state, key, token), r),
        readiness is Ok,
        readiness->Ok_0 is Ready,
        state.session is Some,
        state.session->Some_0.logged_in,
        state.crypto is Ready,
        state.session->Some_0.user_id is Some,
        ids::parsed(state.session->Some_0.user_id->Some_0@) is Some,
        state.session->Some_0.tenant_id is Some,
        ids::parsed(state.session->Some_0.tenant_id->Some_0@) is Some,
        state.session->Some_0.device_id is Some,
        ids::parsed(state.session->Some_0.device_id->Some_0@) is Some,
        ids::parsed(state.session->Some_0.user_id->Some_0@) == Some(state.crypto->Ready_0.user_id),
        ids::parsed(state.session->Some_0.tenant_id->Some_0@) == Some(state.crypto->Ready_0.tenant_id),
        ids::parsed(state.session->Some_0.device_id->Some_0@) == Some(state.crypto->Ready_0.device_id),
    ensures
        key is None ==> r is Err && r->Err_0 is AccountBoundUnavailable,
        key is Some && token is Err ==> r is Err && r->Err_0 == token->Err_0,
        key is Some && token is Ok && token->Ok_0 is None ==>
            r is Err
                && r->Err_0 is CredentialUnavailable,
        key is Some
            && token is Ok
            && token->Ok_0 is Some
            && token->Ok_0->Some_0.token@.len() == 0 ==>
            r is Ok
                && r->Ok_0 is CredentialUnavailable,
{
}

/// A run that is ready goes to the issuer of the token with the words of the token, for
/// the tenant and the device of the unlocked keys, with these keys and the key of the
/// manifest.
pub proof fn law_run_uses_the_unlocked_keys(
    readiness: Result<AccountReadiness, ClientError>,
    state: AccountRuntimeState,
    key: Option<Vec<u8>>,
    token: Result<Option<OriginBoundAccessToken>, ClientError>,
    r: Result<SyncReadiness, ClientError>,
)
    requires
        call_ensures(sync::sync_readiness, (readiness, &state, key, token), r),
        r is Ok,
        r->Ok_0 is Ready,
    ensures
        state.crypto is Ready,
        key is Some,
        token is Ok,
        token->Ok_0 is Some,
        (*r->Ok_0->Ready_0).server_url == token->Ok_0->Some_0.issuer,
        (*r->Ok_0->Ready_0).session_token == token->Ok_0->Some_0.token,
        (*r->Ok_0->Ready_0).tenant_id == state.crypto->Ready_0.tenant_id,
        (*r->Ok_0->Ready_0).device_id@ == external::uuid_text(state.crypto->Ready_0.device_id.value),
        (*r->Ok_0->Ready_0).manifest_auth_key == key->Some_0,
        (*r->Ok_0->Ready_0).keys.tenant_id == state.crypto->Ready_0.sync_keys.tenant_id,
        (*r->Ok_0->Ready_0).keys.tenant_root_dek == state.crypto->Ready_0.sync_keys.tenant_root_dek,
        (*r->Ok_0->Ready_0).keys.tenant_generation == state.crypto->Ready_0.sync_keys.tenant_generation,
        (*r->Ok_0->Ready_0).keys.historical_tenant_root_deks@ == state.crypto->Ready_0.sync_keys.historical_tenant_root_deks@,
{
}

/// Each count of two runs together is the sum of their counts of that name.
pub proof fn law_counts_add_up(one: SyncRunSummary, more: SyncRunSummary)
    requires
        one.pushed_count + more.pushed_count <= usize::MAX,
        one.push_acked_count + more.push_acked_count <= usize::MAX,
        one.push_superseded_count + more.push_superseded_count <= usize::MAX,
        one.push_conflict_count + more.push_conflict_count <= usize::MAX,
        one.pulled_count + more.pulled_count <= usize::MAX,
        one.applied_count + more.applied_count <= usize::MAX,
        one.deleted_count + more.deleted_count <= usize::MAX,
        one.decrypt_failed_count + more.decrypt_failed_count <= usize::MAX,
        one.repush_count + more.repush_count <= usize::MAX,
        one.missing_key_quarantined_count + more.missing_key_quarantined_count <= usize::MAX,
        one.corruption_quarantined_count + more.corruption_quarantined_count <= usize::MAX,
        one.resolved_quarantine_count + more.resolved_quarantine_count <= usize::MAX,
    ensures
        one.fits(more),
        one.plus(more).pushed_count == one.pushed_count + more.pushed_count,
        one.plus(more).push_acked_count == one.push_acked_count + more.push_acked_count,
        one.plus(more).push_superseded_count == one.push_superseded_count + more.push_superseded_count,
        one.plus(more).push_conflict_count == one.push_conflict_count + more.push_conflict_count,
        one.plus(more).pulled_count == one.pulled_count + more.pulled_count,
        one.plus(more).applied_count == one.applied_count + more.applied_count,
        one.plus(more).deleted_count == one.deleted_count + more.deleted_count,
        one.plus(more).decrypt_failed_count == one.decrypt_failed_count + more.decrypt_failed_count,
        one.plus(more).repush_count == one.repush_count + more.repush_count,
        one.plus(more).missing_key_quarantined_count == one.missing_key_quarantined_count + more.missing_key_quarantined_count,
        one.plus(more).corruption_quarantined_count == one.corruption_quarantined_count + more.corruption_quarantined_count,
        one.plus(more).resolved_quarantine_count == one.resolved_quarantine_count + more.resolved_quarantine_count,
{
}

/// Two runs can be added up only where no sum of two counts of one name is too large.
pub proof fn law_counts_that_do_not_fit(one: SyncRunSummary, more: SyncRunSummary)
    requires
        one.fits(more),
    ensures
        one.pushed_count + more.pushed_count <= usize::MAX,
        one.push_acked_count + more.push_acked_count <= usize::MAX,
        one.push_superseded_count + more.push_superseded_count <= usize::MAX,
        one.push_conflict_count + more.push_conflict_count <= usize::MAX,
        one.pulled_count + more.pulled_count <= usize::MAX,
        one.applied_count + more.applied_count <= usize::MAX,
        one.deleted_count + more.deleted_count <= usize::MAX,
        one.decrypt_failed_count + more.decrypt_failed_count <= usize::MAX,
        one.repush_count + more.repush_count <= usize::MAX,
        one.missing_key_quarantined_count + more.missing_key_quarantined_count <= usize::MAX,
        one.corruption_quarantined_count + more.corruption_quarantined_count <= usize::MAX,
        one.resolved_quarantine_count + more.resolved_quarantine_count <= usize::MAX,
{
}

/// A run that did nothing counts nothing, and adds nothing.
pub proof fn law_empty_run_counts_nothing(more: SyncRunSummary)
    ensures
        SyncRunSummary::nothing().pushed_count == 0,
        SyncRunSummary::nothing().push_acked_count == 0,
        SyncRunSummary::nothing().push_superseded_count == 0,
        SyncRunSummary::nothing().push_conflict_count == 0,
        SyncRunSummary::nothing().pulled_count == 0,
        SyncRunSummary::nothing().applied_count == 0,
        SyncRunSummary::nothing().deleted_count == 0,
        SyncRunSummary::nothing().decrypt_failed_count == 0,
        SyncRunSummary::nothing().repush_count == 0,
        SyncRunSummary::nothing().missing_key_quarantined_count == 0,
        SyncRunSummary::nothing().corruption_quarantined_count == 0,
        SyncRunSummary::nothing().resolved_quarantine_count == 0,
        SyncRunSummary::nothing().plus(more) == more,
{
}

/// A status says what was asked of the login and, under each name, what the state or
/// its last summary holds under that name; an upgrade is required if and only if the
/// last run failed for the want of one.
pub proof fn law_status_tells_the_state(logged_in: bool, state: SyncRuntimeState)
    ensures
        sync::status_of(logged_in, state).logged_in == logged_in,
        sync::status_of(logged_in, state).running == state.running,
        sync::status_of(logged_in, state).last_success_at == state.last_success_at,
        sync::status_of(logged_in, state).last_failure_at == state.last_failure_at,
        sync::status_of(logged_in, state).last_error == state.last_error,
        sync::status_of(logged_in, state).pushed_count == state.last_summary.pushed_count,
        sync::status_of(logged_in, state).push_acked_count == state.last_summary.push_acked_count,
        sync::status_of(logged_in, state).push_superseded_count == state.last_summary.push_superseded_count,
        sync::status_of(logged_in, state).pulled_count == state.last_summary.pulled_count,
        sync::status_of(logged_in, state).applied_count == state.last_summary.applied_count,
        sync::status_of(logged_in, state).deleted_count == state.last_summary.deleted_count,
        sync::status_of(logged_in, state).decrypt_failed_count == state.last_summary.decrypt_failed_count,
        sync::status_of(logged_in, state).repush_count == state.last_summary.repush_count,
        sync::status_of(logged_in, state).missing_key_quarantined_count == state.last_summary.missing_key_quarantined_count,
        sync::status_of(logged_in, state).corruption_quarantined_count == state.last_summary.corruption_quarantined_count,
        sync::status_of(logged_in, state).resolved_quarantine_count == state.last_summary.resolved_quarantine_count,
        sync::status_of(logged_in, state).upgrade_required <==>
            state.last_error is Some
                && state.last_error->Some_0 is UpgradeRequired,
{
}

/// A run fails under the name of the error that ended it; a busy credential store is
/// told as that, and every other error as a failed sync.
pub proof fn law_run_failure_keeps_its_name(error: ClientError)
    ensures
        error is UpgradeRequired <==> sync::run_failure(error) is UpgradeRequired,
        error is Unauthorized <==> sync::run_failure(error) is Unauthorized,
        error is EntitlementRequired <==> sync::run_failure(error) is EntitlementRequired,
        error is SyncLeaseBusy <==> sync::run_failure(error) is SyncLeaseBusy,
        error is LeaseLost <==> sync::run_failure(error) is LeaseLost,
        error is DatabaseBusy <==> sync::run_failure(error) is DatabaseBusy,
        error is ClockSkewRetryable <==> sync::run_failure(error) is ClockSkewRetryable,
        error is CredentialUnavailable <==> sync::run_failure(error) is CredentialUnavailable,
        error is AccountBoundUnavailable <==>
            sync::run_failure(error) is AccountBoundUnavailable,
        error is ProfileBusy <==> sync::run_failure(error) is ProfileBusy,
        error is Busy <==> sync::run_failure(error) is CredentialBusy,
        sync::run_failure(error) is SyncFailed <==>
            !(error is UpgradeRequired || error is Unauthorized || error is EntitlementRequired || error is SyncLeaseBusy || error is LeaseLost || error is DatabaseBusy || error is ClockSkewRetryable || error is CredentialUnavailable || error is AccountBoundUnavailable || error is ProfileBusy || error is Busy),
{
}

/// After a run nothing is running. A success records its time and its counts and
/// forgets the last error; a failure records its time and its name; everything else
/// stays.
pub proof fn law_state_after_a_run(
    state: SyncRuntimeState,
    summary: SyncRunSummary,
    error: ClientError,
    timestamp: i64,
)
    ensures
        !sync::state_after(state, Ok(summary), timestamp).running,
        sync::state_after(state, Ok(summary), timestamp).last_success_at == Some(timestamp),
        sync::state_after(state, Ok(summary), timestamp).last_failure_at == state.last_failure_at,
        sync::state_after(state, Ok(summary), timestamp).last_error is None,
        sync::state_after(state, Ok(summary), timestamp).last_summary == summary,
        !sync::state_after(state, Err(error), timestamp).running,
        sync::state_after(state, Err(error), timestamp).last_success_at == state.last_success_at,
        sync::state_after(state, Err(error), timestamp).last_failure_at == Some(timestamp),
        sync::state_after(state, Err(error), timestamp).last_summary == state.last_summary,
        sync::state_after(state, Err(error), timestamp).last_error is Some,
        error is UpgradeRequired <==>
            sync::state_after(state, Err(error), timestamp).last_error->Some_0 is UpgradeRequired,
        error is Unauthorized <==>
            sync::state_after(state, Err(error), timestamp).last_error->Some_0 is Unauthorized,
        error is EntitlementRequired <==>
            sync::state_after(state, Err(error), timestamp).last_error->Some_0 is EntitlementRequired,
        error is SyncLeaseBusy <==>
            sync::state_after(state, Err(error), timestamp).last_error->Some_0 is SyncLeaseBusy,
        error is LeaseLost <==>
            sync::state_after(state, Err(error), timestamp).last_error->Some_0 is LeaseLost,
        error is DatabaseBusy <==>
            sync::state_after(state, Err(error), timestamp).last_error->Some_0 is DatabaseBusy,
        error is ClockSkewRetryable <==>
            sync::state_after(state, Err(error), timestamp).last_error->Some_0 is ClockSkewRetryable,
        error is CredentialUnavailable <==>
            sync::state_after(state, Err(error), timestamp).last_error->Some_0 is CredentialUnavailable,
        error is AccountBoundUnavailable <==>
            sync::state_after(state, Err(error), timestamp).last_error->Some_0 is AccountBoundUnavailable,
        error is ProfileBusy <==>
            sync::state_after(state, Err(error), timestamp).last_error->Some_0 is ProfileBusy,
{
}

/// A run is answered with its error, unless it succeeded or needs an upgrade.
pub proof fn law_only_the_upgrade_is_not_surfaced(result: Result<SyncRunSummary, ClientError>)
    ensures
        sync::surfaced(result) is None <==> result is Ok || result->Err_0 is UpgradeRequired,
        sync::surfaced(result) matches Some(error) ==> result is Err && result->Err_0 == error,
{
}

/// Each of the words that a run fails with names one error, and every other word a
/// failed run.
pub proof fn law_words_of_a_failed_run(words: Seq<char>)
    ensures
        words == "upgrade required"@ <==> sync::run_error(words) is UpgradeRequired,
        words == "entitlement required"@ <==> sync::run_error(words) is EntitlementRequired,
        words == "clock skew retryable"@ <==> sync::run_error(words) is ClockSkewRetryable,
        words == "credential unavailable"@ <==> sync::run_error(words) is CredentialUnavailable,
        words == "account-bound unavailable"@ <==>
            sync::run_error(words) is AccountBoundUnavailable,
        words == "profile busy"@ <==> sync::run_error(words) is ProfileBusy,
        words == "credential busy"@ <==> sync::run_error(words) is Busy,
        words == "sync lease busy"@ <==> sync::run_error(words) is SyncLeaseBusy,
        words == "sync lease lost"@ <==> sync::run_error(words) is LeaseLost,
        words == "database busy"@ <==> sync::run_error(words) is DatabaseBusy,
        sync::run_error(words) is SyncRun <==>
            !(words == "upgrade required"@ || words == "entitlement required"@ || words == "clock skew retryable"@ || words == "credential unavailable"@ || words == "account-bound unavailable"@ || words == "profile busy"@ || words == "credential busy"@ || words == "sync lease busy"@ || words == "sync lease lost"@ || words == "database busy"@),
{
    reveal_strlit("upgrade required");
    reveal_strlit("entitlement required");
    reveal_strlit("clock skew retryable");
    reveal_strlit("credential unavailable");
    reveal_strlit("account-bound unavailable");
    reveal_strlit("profile busy");
    reveal_strlit("credential busy");
    reveal_strlit("sync lease busy");
    reveal_strlit("sync lease lost");
    reveal_strlit("database busy");
    reveal_strlit("sync failed");
    assert("upgrade required"@.len() == 16);
    assert("entitlement required"@.len() == 20);
    assert("clock skew retryable"@.len() == 20);
    assert("credential unavailable"@.len() == 22);
    assert("account-bound unavailable"@.len() == 25);
    assert("profile busy"@.len() == 12);
    assert("credential busy"@.len() == 15);
    assert("sync lease busy"@.len() == 15);
    assert("sync lease lost"@.len() == 15);
    assert("database busy"@.len() == 13);
    assert("sync failed"@.len() == 11);
    assert("entitlement required"@[0] == 'e' && "clock skew retryable"@[0] == 'c');
    assert("credential busy"@[0] == 'c' && "sync lease busy"@[0] == 's');
    assert("sync lease lost"@[0] == 's');
    assert("sync lease busy"@[11] == 'b' && "sync lease lost"@[11] == 'l');
}

/// Each error of the client that a run can tell has words of its own; a lost lease and
/// a changed epoch of the profile have those of a lost lease, a busy database those of
/// one, and every other error those of a failed sync.
pub proof fn law_words_of_a_client_error(error: ClientError)
    ensures
        error is UpgradeRequired <==> sync::client_error_text(error) == "upgrade required"@,
        error is EntitlementRequired <==>
            sync::client_error_text(error) == "entitlement required"@,
        error is ClockSkewRetryable <==>
            sync::client_error_text(error) == "clock skew retryable"@,
        error is CredentialUnavailable <==>
            sync::client_error_text(error) == "credential unavailable"@,
        error is AccountBoundUnavailable <==>
            sync::client_error_text(error) == "account-bound unavailable"@,
        error is ProfileBusy <==> sync::client_error_text(error) == "profile busy"@,
        error is Busy <==> sync::client_error_text(error) == "credential busy"@,
        error is SyncLeaseBusy <==> sync::client_error_text(error) == "sync lease busy"@,
        (error is LeaseLost || error == ClientError::Storage(StorageError::SyncLeaseLost) || error == ClientError::Storage(StorageError::ProfileRuntimeEpochChanged)) <==>
            sync::client_error_text(error) == "sync lease lost"@,
        (error is DatabaseBusy || error == ClientError::Storage(StorageError::DatabaseBusy)) <==>
            sync::client_error_text(error) == "database busy"@,
        sync::client_error_text(error) == "sync failed"@ <==>
            !(error is UpgradeRequired || error is EntitlementRequired || error is ClockSkewRetryable || error is CredentialUnavailable || error is AccountBoundUnavailable || error is ProfileBusy || error is Busy || error is SyncLeaseBusy || error is LeaseLost || error == ClientError::Storage(StorageError::SyncLeaseLost) || error == ClientError::Storage(StorageError::ProfileRuntimeEpochChanged) || error is DatabaseBusy || error == ClientError::Storage(StorageError::DatabaseBusy)),
{
    reveal_strlit("upgrade required");
    reveal_strlit("entitlement required");
    reveal_strlit("clock skew retryable");
    reveal_strlit("credential unavailable");
    reveal_strlit("account-bound unavailable");
    reveal_strlit("profile busy");
    reveal_strlit("credential busy");
    reveal_strlit("sync lease busy");
    reveal_strlit("sync lease lost");
    reveal_strlit("database busy");
    reveal_strlit("sync failed");
    assert("upgrade required"@.len() == 16);
    assert("entitlement required"@.len() == 20);
    assert("clock skew retryable"@.len() == 20);
    assert("credential unavailable"@.len() == 22);
    assert("account-bound unavailable"@.len() == 25);
    assert("profile busy"@.len() == 12);
    assert("credential busy"@.len() == 15);
    assert("sync lease busy"@.len() == 15);
    assert("sync lease lost"@.len() == 15);
    assert("database busy"@.len() == 13);
    assert("sync failed"@.len() == 11);
    assert("entitlement required"@[0] == 'e' && "clock skew retryable"@[0] == 'c');
    assert("credential busy"@[0] == 'c' && "sync lease busy"@[0] == 's');
    assert("sync lease lost"@[0] == 's');
    assert("sync lease busy"@[11] == 'b' && "sync lease lost"@[11] == 'l');
}

/// A busy database, a busy lease and a lost lease have words of their own, a changed
/// epoch of the profile those of a lost lease, and every other error of the database
/// those of a failed sync.
pub proof fn law_words_of_a_lease_error(error: StorageError)
    ensures
        error is DatabaseBusy <==> sync::lease_error_text(error) == "database busy"@,
        error is SyncLeaseBusy <==> sync::lease_error_text(error) == "sync lease busy"@,
        error is SyncLeaseLost || error is ProfileRuntimeEpochChanged <==>
            sync::lease_error_text(error) == "sync lease lost"@,
        !(error is DatabaseBusy || error is SyncLeaseBusy || error is SyncLeaseLost || error is ProfileRuntimeEpochChanged) <==>
            sync::lease_error_text(error) == "sync failed"@,
{
    reveal_strlit("upgrade required");
    reveal_strlit("entitlement required");
    reveal_strlit("clock skew retryable");
    reveal_strlit("credential unavailable");
    reveal_strlit("account-bound unavailable");
    reveal_strlit("profile busy");
    reveal_strlit("credential busy");
    reveal_strlit("sync lease busy");
    reveal_strlit("sync lease lost");
    reveal_strlit("database busy");
    reveal_strlit("sync failed");
    assert("upgrade required"@.len() == 16);
    assert("entitlement required"@.len() == 20);
    assert("clock skew retryable"@.len() == 20);
    assert("credential unavailable"@.len() == 22);
    assert("account-bound unavailable"@.len() == 25);
    assert("profile busy"@.len() == 12);
    assert("credential busy"@.len() == 15);
    assert("sync lease busy"@.len() == 15);
    assert("sync lease lost"@.len() == 15);
    assert("database busy"@.len() == 13);
    assert("sync failed"@.len() == 11);
    assert("entitlement required"@[0] == 'e' && "clock skew retryable"@[0] == 'c');
    assert("credential busy"@[0] == 'c' && "sync lease busy"@[0] == 's');
    assert("sync lease lost"@[0] == 's');
    assert("sync lease busy"@[11] == 'b' && "sync lease lost"@[11] == 'l');
}

/// An error of the lease ends a run as the client error of the same meaning.
pub proof fn law_lease_error_ends_a_run(error: StorageError)
    ensures
        error is DatabaseBusy <==> sync_run::lease_failure(error) is DatabaseBusy,
        error is SyncLeaseBusy <==> sync_run::lease_failure(error) is SyncLeaseBusy,
        error is SyncLeaseLost || error is ProfileRuntimeEpochChanged <==>
            sync_run::lease_failure(error) is LeaseLost,
        !(error is DatabaseBusy || error is SyncLeaseBusy || error is SyncLeaseLost || error is ProfileRuntimeEpochChanged) <==>
            sync_run::lease_failure(error) is SyncRun,
{
    law_words_of_a_lease_error(error);
    law_words_of_a_failed_run(sync::lease_error_text(error));
    reveal_strlit("upgrade required");
    reveal_strlit("entitlement required");
    reveal_strlit("clock skew retryable");
    reveal_strlit("credential unavailable");
    reveal_strlit("account-bound unavailable");
    reveal_strlit("profile busy");
    reveal_strlit("credential busy");
    reveal_strlit("sync lease busy");
    reveal_strlit("sync lease lost");
    reveal_strlit("database busy");
    reveal_strlit("sync failed");
    assert("upgrade required"@.len() == 16);
    assert("entitlement required"@.len() == 20);
    assert("clock skew retryable"@.len() == 20);
    assert("credential unavailable"@.len() == 22);
    assert("account-bound unavailable"@.len() == 25);
    assert("profile busy"@.len() == 12);
    assert("credential busy"@.len() == 15);
    assert("sync lease busy"@.len() == 15);
    assert("sync lease lost"@.len() == 15);
    assert("database busy"@.len() == 13);
    assert("sync failed"@.len() == 11);
    assert("entitlement required"@[0] == 'e' && "clock skew retryable"@[0] == 'c');
    assert("credential busy"@[0] == 'c' && "sync lease busy"@[0] == 's');
    assert("sync lease lost"@[0] == 's');
    assert("sync lease busy"@[11] == 'b' && "sync lease lost"@[11] == 'l');
}

/// A failed attempt has the words of what it failed at.
pub proof fn law_words_of_a_failed_attempt(
    error: StorageError,
    words: String,
    client: ClientError,
)
    ensures
        AttemptFailure::Lease(error).words() == sync::lease_error_text(error),
        AttemptFailure::Engine(words).words() == words@,
        AttemptFailure::Clock.words() == "sync failed"@,
        AttemptFailure::Settlement(client).words() == sync::client_error_text(client),
        AttemptFailure::OutOfStep.words() == "sync failed"@,
{
}

/// An attempt exchanges, then settles what came; where settling changed the outbox it
/// exchanges again, and otherwise reads the outbox. An ended attempt stays as it is,
/// and a failure ends it.
pub proof fn law_attempt_goes_in_order(step: AttemptStep, event: AttemptEvent)
    ensures
        step is Done || step is Failed ==> sync_run::next_attempt_step(step, event) == step,
        !(step is Done || step is Failed) && event is Failed ==>
            sync_run::next_attempt_step(step, event) == AttemptStep::Failed(event->Failed_0),
        step is Exchange && event is Exchanged ==>
            sync_run::next_attempt_step(step, event) == (AttemptStep::Settle { summary: event->Exchanged_0 }),
        step is Settle && event is Settled && event->outbox_changed ==>
            sync_run::next_attempt_step(step, event) == (AttemptStep::FollowUp { summary: step->Settle_summary, has_more: event->has_more }),
        step is Settle && event is Settled && !event->outbox_changed ==>
            sync_run::next_attempt_step(step, event) == (AttemptStep::ReadOutbox { summary: step->Settle_summary, has_more: event->has_more }),
        step is ReadOutbox && event is Outbox && event->heads == 0 ==>
            sync_run::next_attempt_step(step, event) == (AttemptStep::Done { summary: step->ReadOutbox_summary }),
        step is ReadOutbox && event is Outbox && event->heads > 0 ==>
            sync_run::next_attempt_step(step, event) == (AttemptStep::FollowUp { summary: step->ReadOutbox_summary, has_more: step->ReadOutbox_has_more }),
        step is FollowUp && event is Exchanged && step->FollowUp_has_more ==>
            sync_run::next_attempt_step(step, event) == (AttemptStep::Settle { summary: step->FollowUp_summary.plus(event->Exchanged_0) }),
        step is FollowUp && event is Exchanged && !step->FollowUp_has_more ==>
            sync_run::next_attempt_step(step, event) == (AttemptStep::ReadDrained { summary: step->FollowUp_summary.plus(event->Exchanged_0) }),
        step is ReadDrained && event is Outbox && event->heads == 0 ==>
            sync_run::next_attempt_step(step, event) == (AttemptStep::Done { summary: step->ReadDrained_summary }),
        step is ReadDrained && event is Outbox && event->heads > 0 ==>
            sync_run::next_attempt_step(step, event) == (AttemptStep::Settle { summary: step->ReadDrained_summary }),
{
}

/// What does not belong to the step of an attempt fails it.
pub proof fn law_attempt_out_of_step_fails(step: AttemptStep, event: AttemptEvent)
    requires
        !(step is Done || step is Failed),
        !(event is Failed),
        !((step is Exchange || step is FollowUp) && event is Exchanged),
        !(step is Settle && event is Settled),
        !((step is ReadOutbox || step is ReadDrained) && event is Outbox),
    ensures
        sync_run::next_attempt_step(step, event) is Failed,
        sync_run::next_attempt_step(step, event)->Failed_0 is OutOfStep,
{
}

/// An attempt is repeated if and only if it is the first and the server did not accept
/// its token; otherwise what it came to is the end.
pub proof fn law_only_a_refused_token_repeats_an_attempt(
    result: Result<SyncRunSummary, String>,
    retried: bool,
)
    ensures
        sync_run::attempt_follow_up(result, retried) is RefreshTokenAndRetry <==>
            !retried
                && result is Err
                && result->Err_0@ == "unauthorized"@,
        result is Ok ==>
            sync_run::attempt_follow_up(result, retried) == AfterAttempt::Finish(Ok(result->Ok_0)),
        result is Err && (retried || result->Err_0@ != "unauthorized"@) ==>
            sync_run::attempt_follow_up(result, retried) == AfterAttempt::Finish(Err(sync::run_error(result->Err_0@))),
{
}

/// A run succeeds if and only if it did its work and gave its lease back; an error of
/// the work is told before one of the lease.
pub proof fn law_error_of_the_run_comes_first(
    result: Result<SyncRunSummary, ClientError>,
    release: Result<(), ClientError>,
)
    ensures
        sync_run::settled(result, release) is Ok <==> result is Ok && release is Ok,
        result is Ok && release is Ok ==>
            sync_run::settled(result, release)->Ok_0 == result->Ok_0,
        result is Err ==> sync_run::settled(result, release)->Err_0 == result->Err_0,
        result is Ok && release is Err ==>
            sync_run::settled(result, release)->Err_0 == release->Err_0,
{
}

/// A run takes its lease, fetches a token, makes an attempt under it, and gives the
/// lease back, whatever the attempt came to; a refused token is refreshed and the
/// attempt repeated once.
pub proof fn law_run_goes_in_order(step: RunStep, event: RunEvent)
    ensures
        step is AcquireLease && event is Lease && event->Lease_0 is Ok ==>
            sync_run::next_run_step(step, event) == (RunStep::FetchToken { force_refresh: false }),
        step is AcquireLease && event is Lease && event->Lease_0 is Err ==>
            sync_run::next_run_step(step, event) == RunStep::Done(Err(sync_run::lease_failure(event->Lease_0->Err_0))),
        step is AcquireLease && !(event is Lease) ==>
            sync_run::next_run_step(step, event) == RunStep::Done(Err(ClientError::SyncRun)),
        step is FetchToken && event is Token && event->Token_0 is Ok ==>
            sync_run::next_run_step(step, event) == (RunStep::Attempt { token: event->Token_0->Ok_0, retried: step->force_refresh }),
        step is FetchToken && event is Token && event->Token_0 is Err ==>
            sync_run::next_run_step(step, event) == (RunStep::ReleaseLease { result: Err(event->Token_0->Err_0) }),
        step is FetchToken && !(event is Token) ==>
            sync_run::next_run_step(step, event) == (RunStep::ReleaseLease { result: Err(ClientError::SyncRun) }),
        step is Attempt && event is Attempted && event->Attempted_0 is Ok ==>
            sync_run::next_run_step(step, event) == (RunStep::ReleaseLease { result: Ok(event->Attempted_0->Ok_0) }),
        step is Attempt
            && event is Attempted
            && event->Attempted_0 is Err
            && !step->retried
            && event->Attempted_0->Err_0@ == "unauthorized"@ ==>
            sync_run::next_run_step(step, event) == (RunStep::FetchToken { force_refresh: true }),
        step is Attempt
            && event is Attempted
            && event->Attempted_0 is Err
            && (step->retried || event->Attempted_0->Err_0@ != "unauthorized"@) ==>
            sync_run::next_run_step(step, event) == (RunStep::ReleaseLease { result: Err(sync::run_error(event->Attempted_0->Err_0@)) }),
        step is Attempt && !(event is Attempted) ==>
            sync_run::next_run_step(step, event) == (RunStep::ReleaseLease { result: Err(ClientError::SyncRun) }),
        step is ReleaseLease && event is Released && event->Released_0 is Ok ==>
            sync_run::next_run_step(step, event) == RunStep::Done(step->result),
        step is ReleaseLease
            && event is Released
            && event->Released_0 is Err
            && step->result is Ok ==>
            sync_run::next_run_step(step, event) == RunStep::Done(Err(sync_run::lease_failure(event->Released_0->Err_0))),
        step is ReleaseLease
            && event is Released
            && event->Released_0 is Err
            && step->result is Err ==>
            sync_run::next_run_step(step, event) == RunStep::Done(step->result),
        step is ReleaseLease && !(event is Released) ==>
            sync_run::next_run_step(step, event) == step,
        step is Done ==> sync_run::next_run_step(step, event) == step,
{
}

/// The first backfill reads its mark and is done where there is one; otherwise it reads
/// the records and, in one transaction, enqueues them and stores the mark with the time
/// read for it, and commits. A failure ends it as it is told, and so does what does not
/// belong to its step.
pub proof fn law_backfill_goes_in_order(step: BackfillStep, event: BackfillEvent)
    ensures
        step is ReadMark && event is Mark && event->Mark_0 is Ok && event->Mark_0->Ok_0 is Some ==>
            sync_run::next_backfill_step(step, event) is Done,
        step is ReadMark && event is Mark && event->Mark_0 is Ok && event->Mark_0->Ok_0 is None ==>
            sync_run::next_backfill_step(step, event) is ReadRecords,
        step is ReadMark && event is Mark && event->Mark_0 is Err ==>
            sync_run::next_backfill_step(step, event) == BackfillStep::Failed(sync::run_error(event->Mark_0->Err_0@)),
        step is ReadMark && !(event is Mark) ==>
            sync_run::next_backfill_step(step, event) == BackfillStep::Failed(ClientError::SyncRun),
        step is ReadRecords && event is Records && event->Records_0 is Ok ==>
            sync_run::next_backfill_step(step, event) is BeginTransaction,
        step is ReadRecords && event is Records && event->Records_0 is Err ==>
            sync_run::next_backfill_step(step, event) == BackfillStep::Failed(event->Records_0->Err_0),
        step is ReadRecords && !(event is Records) ==>
            sync_run::next_backfill_step(step, event) == BackfillStep::Failed(ClientError::SyncRun),
        step is ReadClock && event is Clock && event->Clock_0 is Ok ==>
            sync_run::next_backfill_step(step, event) == (BackfillStep::StoreMark { updated_at: event->Clock_0->Ok_0 }),
        step is ReadClock && event is Clock && event->Clock_0 is Err ==>
            sync_run::next_backfill_step(step, event) == BackfillStep::Failed(event->Clock_0->Err_0),
        step is ReadClock && !(event is Clock) ==>
            sync_run::next_backfill_step(step, event) == BackfillStep::Failed(ClientError::SyncRun),
        step is BeginTransaction && event is Written && event->Written_0 is Ok ==>
            sync_run::next_backfill_step(step, event) == BackfillStep::EnqueueRecords,
        step is EnqueueRecords && event is Written && event->Written_0 is Ok ==>
            sync_run::next_backfill_step(step, event) == BackfillStep::ReadClock,
        step is StoreMark && event is Written && event->Written_0 is Ok ==>
            sync_run::next_backfill_step(step, event) == BackfillStep::Commit,
        step is Commit && event is Written && event->Written_0 is Ok ==>
            sync_run::next_backfill_step(step, event) == BackfillStep::Done,
        (step is BeginTransaction || step is EnqueueRecords || step is StoreMark || step is Commit)
            && event is Written
            && event->Written_0 is Err ==>
            sync_run::next_backfill_step(step, event) == BackfillStep::Failed(sync::run_error(event->Written_0->Err_0@)),
        (step is BeginTransaction || step is EnqueueRecords || step is StoreMark || step is Commit)
            && !(event is Written) ==>
            sync_run::next_backfill_step(step, event) == BackfillStep::Failed(ClientError::SyncRun),
        step is Done || step is Failed ==> sync_run::next_backfill_step(step, event) == step,
{
}

/// A ticket is asked for with the token that was fetched, in the context that the
/// request began with; a token that the server does not accept is refreshed once, every
/// other refusal is the end, and so is what does not belong to the step.
pub proof fn law_ticket_goes_in_order(step: TicketStep, event: TicketEvent)
    ensures
        step is Done ==> sync::next_ticket_step(step, event) == step,
        step is FetchToken && event is Token && event->Token_0 is Ok ==>
            sync::next_ticket_step(step, event) == (TicketStep::Ask { context: step->FetchToken_context, token: event->Token_0->Ok_0, retried: step->force_refresh }),
        step is FetchToken && event is Token && event->Token_0 is Err ==>
            sync::next_ticket_step(step, event) == TicketStep::Done(Err(event->Token_0->Err_0)),
        step is Ask && event is Answered && event->Answered_0 is Ok ==>
            sync::next_ticket_step(step, event) == TicketStep::Done(Ok(event->Answered_0->Ok_0)),
        step is Ask
            && event is Answered
            && event->Answered_0 is Err
            && !step->retried
            && event->Answered_0->Err_0 == AccountClientError::Server(401) ==>
            sync::next_ticket_step(step, event) == (TicketStep::FetchToken { context: step->Ask_context, force_refresh: true }),
        step is Ask
            && event is Answered
            && event->Answered_0 is Err
            && (step->retried || event->Answered_0->Err_0 != AccountClientError::Server(401)) ==>
            sync::next_ticket_step(step, event) == TicketStep::Done(Err(credentials::account_error(event->Answered_0->Err_0))),
        step is FetchToken && event is Answered ==>
            sync::next_ticket_step(step, event) == TicketStep::Done(Err(ClientError::RuntimeState)),
        step is Ask && event is Token ==>
            sync::next_ticket_step(step, event) == TicketStep::Done(Err(ClientError::RuntimeState)),
{
}

} // verus!
