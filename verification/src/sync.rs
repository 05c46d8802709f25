//! Synchronization: who may start a run, what its errors are called, and what is
//! reported in the end.
use vstd::prelude::*;
use vstd::string::*;
use crate::account_runtime::{
    parse_session_id, session_id, AccountRuntimeState, CryptoRuntimeState,
};
use crate::credentials;
use crate::credentials::{map_account_client_error, AccountClientError, OriginBoundAccessToken};
use crate::error::{ClientError, StorageError};
use crate::ids::Uuid;
use crate::local_crypto::LocalSyncKeys;
use crate::model::{RealtimeTicket, SyncRunFailure, SyncStatus};
use crate::text::str_eq;

verus! {

pub const SYNC_LEASE_TTL_MS: i64 = 300_000;

/// What a run did.
#[derive(Debug, Clone, Copy, PartialEq, Eq, Structural)]
pub struct SyncRunSummary {
    pub pushed_count: usize,
    pub push_acked_count: usize,
    pub push_superseded_count: usize,
    pub push_conflict_count: usize,
    pub pulled_count: usize,
    pub applied_count: usize,
    pub deleted_count: usize,
    pub decrypt_failed_count: usize,
    pub repush_count: usize,
    pub missing_key_quarantined_count: usize,
    pub corruption_quarantined_count: usize,
    pub resolved_quarantine_count: usize,
}

impl SyncRunSummary {
    pub open spec fn nothing() -> SyncRunSummary {
        SyncRunSummary {
            pushed_count: 0,
            push_acked_count: 0,
            push_superseded_count: 0,
            push_conflict_count: 0,
            pulled_count: 0,
            applied_count: 0,
            deleted_count: 0,
            decrypt_failed_count: 0,
            repush_count: 0,
            missing_key_quarantined_count: 0,
            corruption_quarantined_count: 0,
            resolved_quarantine_count: 0,
        }
    }

    /// The counts of two runs can be added up.
    pub open spec fn fits(self, more: SyncRunSummary) -> bool {
        &&& self.pushed_count + more.pushed_count <= usize::MAX
        &&& self.push_acked_count + more.push_acked_count <= usize::MAX
        &&& self.push_superseded_count + more.push_superseded_count <= usize::MAX
        &&& self.push_conflict_count + more.push_conflict_count <= usize::MAX
        &&& self.pulled_count + more.pulled_count <= usize::MAX
        &&& self.applied_count + more.applied_count <= usize::MAX
        &&& self.deleted_count + more.deleted_count <= usize::MAX
        &&& self.decrypt_failed_count + more.decrypt_failed_count <= usize::MAX
        &&& self.repush_count + more.repush_count <= usize::MAX
        &&& self.missing_key_quarantined_count + more.missing_key_quarantined_count <= usize::MAX
        &&& self.corruption_quarantined_count + more.corruption_quarantined_count <= usize::MAX
        &&& self.resolved_quarantine_count + more.resolved_quarantine_count <= usize::MAX
    }

    pub open spec fn plus(self, more: SyncRunSummary) -> SyncRunSummary {
        SyncRunSummary {
            pushed_count: (self.pushed_count + more.pushed_count) as usize,
            push_acked_count: (self.push_acked_count + more.push_acked_count) as usize,
            push_superseded_count: (self.push_superseded_count
                + more.push_superseded_count) as usize,
            push_conflict_count: (self.push_conflict_count + more.push_conflict_count) as usize,
            pulled_count: (self.pulled_count + more.pulled_count) as usize,
            applied_count: (self.applied_count + more.applied_count) as usize,
            deleted_count: (self.deleted_count + more.deleted_count) as usize,
            decrypt_failed_count: (self.decrypt_failed_count + more.decrypt_failed_count) as usize,
            repush_count: (self.repush_count + more.repush_count) as usize,
            missing_key_quarantined_count: (self.missing_key_quarantined_count
                + more.missing_key_quarantined_count) as usize,
            corruption_quarantined_count: (self.corruption_quarantined_count
                + more.corruption_quarantined_count) as usize,
            resolved_quarantine_count: (self.resolved_quarantine_count
                + more.resolved_quarantine_count) as usize,
        }
    }
}

impl Default for SyncRunSummary {
    fn default() -> (r: SyncRunSummary)
        ensures
            r == SyncRunSummary::nothing(),
    {
        SyncRunSummary {
            pushed_count: 0,
            push_acked_count: 0,
            push_superseded_count: 0,
            push_conflict_count: 0,
            pulled_count: 0,
            applied_count: 0,
            deleted_count: 0,
            decrypt_failed_count: 0,
            repush_count: 0,
            missing_key_quarantined_count: 0,
            corruption_quarantined_count: 0,
            resolved_quarantine_count: 0,
        }
    }
}

/// Adds up the counts of two runs.
pub fn add_sync_summary(target: &mut SyncRunSummary, value: &SyncRunSummary)
    requires
        old(target).fits(*value),
    ensures
        *final(target) == old(target).plus(*value),
{
    target.pushed_count = target.pushed_count + value.pushed_count;
    target.push_acked_count = target.push_acked_count + value.push_acked_count;
    target.push_superseded_count = target.push_superseded_count + value.push_superseded_count;
    target.push_conflict_count = target.push_conflict_count + value.push_conflict_count;
    target.pulled_count = target.pulled_count + value.pulled_count;
    target.applied_count = target.applied_count + value.applied_count;
    target.deleted_count = target.deleted_count + value.deleted_count;
    target.decrypt_failed_count = target.decrypt_failed_count + value.decrypt_failed_count;
    target.repush_count = target.repush_count + value.repush_count;
    target.missing_key_quarantined_count = target.missing_key_quarantined_count
        + value.missing_key_quarantined_count;
    target.corruption_quarantined_count = target.corruption_quarantined_count
        + value.corruption_quarantined_count;
    target.resolved_quarantine_count = target.resolved_quarantine_count
        + value.resolved_quarantine_count;
}

/// Whether the counts of two runs can be added up.
pub fn summaries_fit(a: &SyncRunSummary, b: &SyncRunSummary) -> (r: bool)
    ensures
        r == a.fits(*b),
{
    a.pushed_count.checked_add(b.pushed_count).is_some() && a.push_acked_count.checked_add(
        b.push_acked_count,
    ).is_some() && a.push_superseded_count.checked_add(b.push_superseded_count).is_some()
        && a.push_conflict_count.checked_add(b.push_conflict_count).is_some()
        && a.pulled_count.checked_add(b.pulled_count).is_some() && a.applied_count.checked_add(
        b.applied_count,
    ).is_some() && a.deleted_count.checked_add(b.deleted_count).is_some()
        && a.decrypt_failed_count.checked_add(b.decrypt_failed_count).is_some()
        && a.repush_count.checked_add(b.repush_count).is_some()
        && a.missing_key_quarantined_count.checked_add(b.missing_key_quarantined_count).is_some()
        && a.corruption_quarantined_count.checked_add(b.corruption_quarantined_count).is_some()
        && a.resolved_quarantine_count.checked_add(b.resolved_quarantine_count).is_some()
}

/// What a running client remembers of its sync runs.
#[derive(Debug, Clone, Copy, PartialEq, Eq, Structural)]
pub struct SyncRuntimeState {
    pub running: bool,
    pub last_success_at: Option<i64>,
    pub last_failure_at: Option<i64>,
    pub last_error: Option<SyncRunFailure>,
    pub last_summary: SyncRunSummary,
}

impl Default for SyncRuntimeState {
    fn default() -> (r: SyncRuntimeState)
        ensures
            r == (SyncRuntimeState {
                running: false,
                last_success_at: None,
                last_failure_at: None,
                last_error: None,
                last_summary: SyncRunSummary::nothing(),
            }),
    {
        SyncRuntimeState {
            running: false,
            last_success_at: None,
            last_failure_at: None,
            last_error: None,
            last_summary: SyncRunSummary::default(),
        }
    }
}

/// What a frontend sees of a state.
pub open spec fn status_of(logged_in: bool, state: SyncRuntimeState) -> SyncStatus {
    SyncStatus {
        logged_in,
        running: state.running,
        last_success_at: state.last_success_at,
        last_failure_at: state.last_failure_at,
        last_error: state.last_error,
        pushed_count: state.last_summary.pushed_count,
        push_acked_count: state.last_summary.push_acked_count,
        push_superseded_count: state.last_summary.push_superseded_count,
        pulled_count: state.last_summary.pulled_count,
        applied_count: state.last_summary.applied_count,
        deleted_count: state.last_summary.deleted_count,
        decrypt_failed_count: state.last_summary.decrypt_failed_count,
        repush_count: state.last_summary.repush_count,
        missing_key_quarantined_count: state.last_summary.missing_key_quarantined_count,
        corruption_quarantined_count: state.last_summary.corruption_quarantined_count,
        resolved_quarantine_count: state.last_summary.resolved_quarantine_count,
        upgrade_required: state.last_error == Some(SyncRunFailure::UpgradeRequired),
    }
}

pub fn sync_status(logged_in: bool, state: &SyncRuntimeState) -> (r: SyncStatus)
    ensures
        r == status_of(logged_in, *state),
{
    let upgrade_required: bool = match state.last_error {
        Some(SyncRunFailure::UpgradeRequired) => true,
        _ => false,
    };
    SyncStatus {
        logged_in,
        running: state.running,
        last_success_at: state.last_success_at,
        last_failure_at: state.last_failure_at,
        last_error: state.last_error,
        pushed_count: state.last_summary.pushed_count,
        push_acked_count: state.last_summary.push_acked_count,
        push_superseded_count: state.last_summary.push_superseded_count,
        pulled_count: state.last_summary.pulled_count,
        applied_count: state.last_summary.applied_count,
        deleted_count: state.last_summary.deleted_count,
        decrypt_failed_count: state.last_summary.decrypt_failed_count,
        repush_count: state.last_summary.repush_count,
        missing_key_quarantined_count: state.last_summary.missing_key_quarantined_count,
        corruption_quarantined_count: state.last_summary.corruption_quarantined_count,
        resolved_quarantine_count: state.last_summary.resolved_quarantine_count,
        upgrade_required,
    }
}

/// How a run failed.
pub open spec fn run_failure(error: ClientError) -> SyncRunFailure {
    match error {
        ClientError::UpgradeRequired => SyncRunFailure::UpgradeRequired,
        ClientError::Unauthorized => SyncRunFailure::Unauthorized,
        ClientError::EntitlementRequired => SyncRunFailure::EntitlementRequired,
        ClientError::SyncLeaseBusy => SyncRunFailure::SyncLeaseBusy,
        ClientError::LeaseLost => SyncRunFailure::LeaseLost,
        ClientError::DatabaseBusy => SyncRunFailure::DatabaseBusy,
        ClientError::ClockSkewRetryable => SyncRunFailure::ClockSkewRetryable,
        ClientError::CredentialUnavailable => SyncRunFailure::CredentialUnavailable,
        ClientError::AccountBoundUnavailable => SyncRunFailure::AccountBoundUnavailable,
        ClientError::ProfileBusy => SyncRunFailure::ProfileBusy,
        ClientError::Busy => SyncRunFailure::CredentialBusy,
        _ => SyncRunFailure::SyncFailed,
    }
}

/// The state after a run: a success forgets the last error, a failure keeps the last
/// summary.
pub open spec fn state_after(
    state: SyncRuntimeState,
    result: Result<SyncRunSummary, ClientError>,
    timestamp: i64,
) -> SyncRuntimeState {
    match result {
        Ok(summary) => SyncRuntimeState {
            running: false,
            last_success_at: Some(timestamp),
            last_error: None,
            last_summary: summary,
            ..state
        },
        Err(error) => SyncRuntimeState {
            running: false,
            last_failure_at: Some(timestamp),
            last_error: Some(run_failure(error)),
            ..state
        },
    }
}

/// The error that a run is answered with: every failure but the need for an upgrade,
/// which the status itself tells.
pub open spec fn surfaced(result: Result<SyncRunSummary, ClientError>) -> Option<ClientError> {
    match result {
        Ok(_) => None,
        Err(ClientError::UpgradeRequired) => None,
        Err(error) => Some(error),
    }
}

/// Records the end of a run.
pub fn finish_sync_run(
    logged_in: bool,
    state: &mut SyncRuntimeState,
    result: Result<SyncRunSummary, ClientError>,
    timestamp: i64,
) -> (r: (SyncStatus, Option<ClientError>))
    ensures
        *final(state) == state_after(*old(state), result, timestamp),
        r.0 == status_of(logged_in, *final(state)),
        r.1 == surfaced(result),
{
    state.running = false;
    let mut surfaced_error: Option<ClientError> = None;
    match result {
        Ok(summary) => {
            state.last_success_at = Some(timestamp);
            state.last_error = None;
            state.last_summary = summary;
        },
        Err(error) => {
            state.last_failure_at = Some(timestamp);
            state.last_error = Some(failure_of(error));
            surfaced_error =
            match error {
                ClientError::UpgradeRequired => None,
                _ => Some(error),
            };
        },
    }
    (sync_status(logged_in, state), surfaced_error)
}

fn failure_of(error: ClientError) -> (r: SyncRunFailure)
    ensures
        r == run_failure(error),
{
    match error {
        ClientError::UpgradeRequired => SyncRunFailure::UpgradeRequired,
        ClientError::Unauthorized => SyncRunFailure::Unauthorized,
        ClientError::EntitlementRequired => SyncRunFailure::EntitlementRequired,
        ClientError::SyncLeaseBusy => SyncRunFailure::SyncLeaseBusy,
        ClientError::LeaseLost => SyncRunFailure::LeaseLost,
        ClientError::DatabaseBusy => SyncRunFailure::DatabaseBusy,
        ClientError::ClockSkewRetryable => SyncRunFailure::ClockSkewRetryable,
        ClientError::CredentialUnavailable => SyncRunFailure::CredentialUnavailable,
        ClientError::AccountBoundUnavailable => SyncRunFailure::AccountBoundUnavailable,
        ClientError::ProfileBusy => SyncRunFailure::ProfileBusy,
        ClientError::Busy => SyncRunFailure::CredentialBusy,
        _ => SyncRunFailure::SyncFailed,
    }
}

/// A finished run is not running, and only a success changes the summary.
pub proof fn law_finished_run_is_not_running(
    state: SyncRuntimeState,
    result: Result<SyncRunSummary, ClientError>,
    timestamp: i64,
)
    ensures
        !state_after(state, result, timestamp).running,
        result is Err ==> state_after(state, result, timestamp).last_summary == state.last_summary
            && state_after(state, result, timestamp).last_success_at == state.last_success_at,
        result is Ok ==> state_after(state, result, timestamp).last_error is None
            && state_after(state, result, timestamp).last_failure_at == state.last_failure_at,
{
}

/// A failure that asks for an upgrade is told by the status alone; every other failure
/// is surfaced as it is.
pub proof fn law_failures_are_surfaced(
    state: SyncRuntimeState,
    error: ClientError,
    timestamp: i64,
    logged_in: bool,
)
    ensures
        surfaced(Err(error)) is None <==> status_of(
            logged_in,
            state_after(state, Err(error), timestamp),
        ).upgrade_required,
        surfaced(Err(error)) is Some ==> surfaced(Err(error)) == Some(error),
{
}

/// The words that the sync engine uses for a database error.
pub open spec fn lease_error_text(error: StorageError) -> Seq<char> {
    match error {
        StorageError::DatabaseBusy => "database busy"@,
        StorageError::SyncLeaseBusy => "sync lease busy"@,
        StorageError::SyncLeaseLost => "sync lease lost"@,
        StorageError::ProfileRuntimeEpochChanged => "sync lease lost"@,
        _ => "sync failed"@,
    }
}

pub fn map_sync_lease_error(error: StorageError) -> (r: String)
    ensures
        r@ == lease_error_text(error),
{
    if error.is_database_busy() {
        return "database busy".to_owned();
    }
    match error {
        StorageError::SyncLeaseBusy => "sync lease busy".to_owned(),
        StorageError::SyncLeaseLost => "sync lease lost".to_owned(),
        StorageError::ProfileRuntimeEpochChanged => "sync lease lost".to_owned(),
        _ => "sync failed".to_owned(),
    }
}

/// The client error that the sync engine's words stand for.
pub open spec fn run_error(error: Seq<char>) -> ClientError {
    if error == "upgrade required"@ {
        ClientError::UpgradeRequired
    } else if error == "entitlement required"@ {
        ClientError::EntitlementRequired
    } else if error == "clock skew retryable"@ {
        ClientError::ClockSkewRetryable
    } else if error == "credential unavailable"@ {
        ClientError::CredentialUnavailable
    } else if error == "account-bound unavailable"@ {
        ClientError::AccountBoundUnavailable
    } else if error == "profile busy"@ {
        ClientError::ProfileBusy
    } else if error == "credential busy"@ {
        ClientError::Busy
    } else if error == "sync lease busy"@ {
        ClientError::SyncLeaseBusy
    } else if error == "sync lease lost"@ {
        ClientError::LeaseLost
    } else if error == "database busy"@ {
        ClientError::DatabaseBusy
    } else {
        ClientError::SyncRun
    }
}

pub fn map_sync_run_error(error: &str) -> (r: ClientError)
    ensures
        r == run_error(error@),
{
    if str_eq(error, "upgrade required") {
        ClientError::UpgradeRequired
    } else if str_eq(error, "entitlement required") {
        ClientError::EntitlementRequired
    } else if str_eq(error, "clock skew retryable") {
        ClientError::ClockSkewRetryable
    } else if str_eq(error, "credential unavailable") {
        ClientError::CredentialUnavailable
    } else if str_eq(error, "account-bound unavailable") {
        ClientError::AccountBoundUnavailable
    } else if str_eq(error, "profile busy") {
        ClientError::ProfileBusy
    } else if str_eq(error, "credential busy") {
        ClientError::Busy
    } else if str_eq(error, "sync lease busy") {
        ClientError::SyncLeaseBusy
    } else if str_eq(error, "sync lease lost") {
        ClientError::LeaseLost
    } else if str_eq(error, "database busy") {
        ClientError::DatabaseBusy
    } else {
        ClientError::SyncRun
    }
}

/// The sync engine's words for a client error.
pub open spec fn client_error_text(error: ClientError) -> Seq<char> {
    match error {
        ClientError::UpgradeRequired => "upgrade required"@,
        ClientError::EntitlementRequired => "entitlement required"@,
        ClientError::ClockSkewRetryable => "clock skew retryable"@,
        ClientError::CredentialUnavailable => "credential unavailable"@,
        ClientError::AccountBoundUnavailable => "account-bound unavailable"@,
        ClientError::ProfileBusy => "profile busy"@,
        ClientError::Busy => "credential busy"@,
        ClientError::SyncLeaseBusy => "sync lease busy"@,
        ClientError::LeaseLost => "sync lease lost"@,
        ClientError::Storage(StorageError::SyncLeaseLost) => "sync lease lost"@,
        ClientError::Storage(StorageError::ProfileRuntimeEpochChanged) => "sync lease lost"@,
        ClientError::DatabaseBusy => "database busy"@,
        ClientError::Storage(StorageError::DatabaseBusy) => "database busy"@,
        _ => "sync failed"@,
    }
}

pub fn map_sync_lease_error_from_client(error: &ClientError) -> (r: String)
    ensures
        r@ == client_error_text(*error),
{
    match *error {
        ClientError::UpgradeRequired => "upgrade required".to_owned(),
        ClientError::EntitlementRequired => "entitlement required".to_owned(),
        ClientError::ClockSkewRetryable => "clock skew retryable".to_owned(),
        ClientError::CredentialUnavailable => "credential unavailable".to_owned(),
        ClientError::AccountBoundUnavailable => "account-bound unavailable".to_owned(),
        ClientError::ProfileBusy => "profile busy".to_owned(),
        ClientError::Busy => "credential busy".to_owned(),
        ClientError::SyncLeaseBusy => "sync lease busy".to_owned(),
        ClientError::LeaseLost => "sync lease lost".to_owned(),
        ClientError::Storage(StorageError::SyncLeaseLost) => "sync lease lost".to_owned(),
        ClientError::Storage(StorageError::ProfileRuntimeEpochChanged) =>
            "sync lease lost".to_owned(),
        ClientError::DatabaseBusy => "database busy".to_owned(),
        ClientError::Storage(StorageError::DatabaseBusy) => "database busy".to_owned(),
        _ => "sync failed".to_owned(),
    }
}

/// The client errors that keep their type through the sync engine.
pub open spec fn is_typed(error: ClientError) -> bool {
    match error {
        ClientError::UpgradeRequired => true,
        ClientError::EntitlementRequired => true,
        ClientError::ClockSkewRetryable => true,
        ClientError::CredentialUnavailable => true,
        ClientError::AccountBoundUnavailable => true,
        ClientError::ProfileBusy => true,
        ClientError::Busy => true,
        ClientError::SyncLeaseBusy => true,
        ClientError::LeaseLost => true,
        ClientError::DatabaseBusy => true,
        _ => false,
    }
}

proof fn lemma_words_differ()
    ensures
        "upgrade required"@.len() == 16 && "upgrade required"@[0] == 'u',
        "entitlement required"@.len() == 20 && "entitlement required"@[0] == 'e',
        "clock skew retryable"@.len() == 20 && "clock skew retryable"@[0] == 'c',
        "credential unavailable"@.len() == 22,
        "account-bound unavailable"@.len() == 25,
        "profile busy"@.len() == 12,
        "credential busy"@.len() == 15 && "credential busy"@[0] == 'c',
        "sync lease busy"@.len() == 15 && "sync lease busy"@[0] == 's' && "sync lease busy"@[11]
            == 'b',
        "sync lease lost"@.len() == 15 && "sync lease lost"@[0] == 's' && "sync lease lost"@[11]
            == 'l',
        "database busy"@.len() == 13,
        "sync failed"@.len() == 11,
{
    reveal_strlit("upgrade required");
    reveal_strlit("entitlement required");
    reveal_strlit("clock skew retryable");
    reveal_strlit("credential unavailable");
    reveal_strlit("account-bound unavailable");
    reveal_strlit("profile busy");
    reveal_strlit("credential busy");
    reveal_strlit("sync lease busy");
    reveal_strlit("sync lease lost");
    reveal_strlit("database busy");
    reveal_strlit("sync failed");
}

/// Coordination failures remain typed across the sync engine: a typed client error comes
/// back as itself, a lost lease and a busy database come back as that, and everything
/// else as a failed run.
pub proof fn law_typed_errors_survive(error: ClientError)
    ensures
        is_typed(error) ==> run_error(client_error_text(error)) == error,
        error == ClientError::Storage(StorageError::SyncLeaseLost) ==> run_error(
            client_error_text(error),
        ) == ClientError::LeaseLost,
        error == ClientError::Storage(StorageError::ProfileRuntimeEpochChanged) ==> run_error(
            client_error_text(error),
        ) == ClientError::LeaseLost,
        error == ClientError::Storage(StorageError::DatabaseBusy) ==> run_error(
            client_error_text(error),
        ) == ClientError::DatabaseBusy,
        !is_typed(error) && error != ClientError::Storage(StorageError::SyncLeaseLost) && error
            != ClientError::Storage(StorageError::ProfileRuntimeEpochChanged) && error
            != ClientError::Storage(StorageError::DatabaseBusy) ==> run_error(
            client_error_text(error),
        ) == ClientError::SyncRun,
{
    lemma_words_differ();
}

/// A database error comes out of the sync engine as the matching client error.
pub proof fn law_lease_errors_are_typed(error: StorageError)
    ensures
        run_error(lease_error_text(error)) == (match error {
            StorageError::DatabaseBusy => ClientError::DatabaseBusy,
            StorageError::SyncLeaseBusy => ClientError::SyncLeaseBusy,
            StorageError::SyncLeaseLost => ClientError::LeaseLost,
            StorageError::ProfileRuntimeEpochChanged => ClientError::LeaseLost,
            _ => ClientError::SyncRun,
        }),
{
    lemma_words_differ();
}

/// Whether the outbox must be sent once more: settling changed it, or something is in
/// it. `outbox_heads` counts what a read of the outbox found.
pub fn dirty_follow_up_required(
    outbox_heads: Result<usize, String>,
    settlement_changed_outbox: bool,
) -> (r: Result<bool, String>)
    ensures
        if settlement_changed_outbox {
            r is Ok && r->Ok_0
        } else {
            match outbox_heads {
                Ok(n) => r is Ok && r->Ok_0 == (n != 0),
                Err(error) => r is Err && r->Err_0 == error,
            }
        },
{
    if settlement_changed_outbox {
        return Ok(true);
    }
    match outbox_heads {
        Ok(n) => Ok(n != 0),
        Err(error) => Err(error),
    }
}

/// Accepts refreshed keys only while the profile is still at the epoch of the lease.
pub fn check_refreshed_keys(
    keys: Result<LocalSyncKeys, ClientError>,
    lease_epoch: i64,
    durable_epoch: Result<i64, StorageError>,
) -> (r: Result<LocalSyncKeys, String>)
    ensures
        match keys {
            Err(error) => r is Err && r->Err_0@ == client_error_text(error),
            Ok(refreshed) => match durable_epoch {
                Err(error) => r is Err && r->Err_0@ == lease_error_text(error),
                Ok(epoch) => if epoch != lease_epoch {
                    r is Err && r->Err_0@ == "sync lease lost"@
                } else {
                    r is Ok && r->Ok_0 == refreshed
                },
            },
        },
{
    let refreshed = match keys {
        Err(error) => {
            return Err(map_sync_lease_error_from_client(&error));
        },
        Ok(refreshed) => refreshed,
    };
    match durable_epoch {
        Err(error) => Err(map_sync_lease_error(error)),
        Ok(epoch) => if epoch != lease_epoch {
            Err("sync lease lost".to_owned())
        } else {
            Ok(refreshed)
        },
    }
}

/// Whether an account is there to sync with.
#[derive(Debug, Clone, Copy, PartialEq, Eq, Structural)]
pub enum AccountReadiness {
    LoggedOut,
    Ready,
    CredentialUnavailable,
    AccountBoundUnavailable,
}

/// Everything that a run needs.
pub struct ActiveSyncContext {
    pub server_url: String,
    pub tenant_id: Uuid,
    pub device_id: String,
    pub session_token: String,
    pub keys: LocalSyncKeys,
    pub manifest_auth_key: Vec<u8>,
}

pub enum SyncReadiness {
    LoggedOut,
    Ready(Box<ActiveSyncContext>),
    CredentialUnavailable,
    AccountBoundUnavailable,
}

/// The identity check of a run: a logged-in session whose user, tenant and device are
/// those of the unlocked keys.
pub open spec fn session_fits(state: AccountRuntimeState) -> Result<bool, ClientError> {
    match state.logged_in_session() {
        None => Err(ClientError::CredentialUnavailable),
        Some(session) => match state.crypto {
            CryptoRuntimeState::Ready(context) => match session_id(session.user_id) {
                Err(error) => Err(error),
                Ok(user_id) => match session_id(session.tenant_id) {
                    Err(error) => Err(error),
                    Ok(tenant_id) => match session_id(session.device_id) {
                        Err(error) => Err(error),
                        Ok(device_id) => if user_id != context.user_id || tenant_id
                            != context.tenant_id || device_id != context.device_id {
                            Err(ClientError::ProfileIdentityMismatch)
                        } else {
                            Ok(true)
                        },
                    },
                },
            },
            _ => Ok(false),
        },
    }
}

fn check_session_fits(state: &AccountRuntimeState) -> (r: Result<bool, ClientError>)
    ensures
        r == session_fits(*state),
{
    let session = match &state.session {
        None => {
            return Err(ClientError::CredentialUnavailable);
        },
        Some(session) => {
            if !session.logged_in {
                return Err(ClientError::CredentialUnavailable);
            }
            session
        },
    };
    let context = match &state.crypto {
        CryptoRuntimeState::Ready(context) => context,
        _ => {
            return Ok(false);
        },
    };
    let user_id: Uuid = match parse_session_id(&session.user_id) {
        Err(error) => {
            return Err(error);
        },
        Ok(id) => id,
    };
    let tenant_id: Uuid = match parse_session_id(&session.tenant_id) {
        Err(error) => {
            return Err(error);
        },
        Ok(id) => id,
    };
    let device_id: Uuid = match parse_session_id(&session.device_id) {
        Err(error) => {
            return Err(error);
        },
        Ok(id) => id,
    };
    if user_id != context.user_id || tenant_id != context.tenant_id || device_id
        != context.device_id {
        return Err(ClientError::ProfileIdentityMismatch);
    }
    Ok(true)
}

/// The context of a run, put together from the unlocked keys and the access token.
pub open spec fn context_of(
    context: ActiveSyncContext,
    state: AccountRuntimeState,
    manifest_auth_key: Vec<u8>,
    token: OriginBoundAccessToken,
) -> bool {
    let crypto = state.crypto->Ready_0;
    &&& context.server_url == token.issuer
    &&& context.tenant_id == crypto.tenant_id
    &&& context.device_id@ == crypto.device_id.text_spec()
    &&& context.session_token == token.token
    &&& context.keys.tenant_id == crypto.sync_keys.tenant_id
    &&& context.keys.tenant_root_dek == crypto.sync_keys.tenant_root_dek
    &&& context.keys.tenant_generation == crypto.sync_keys.tenant_generation
    &&& context.keys.historical_tenant_root_deks@ == crypto.sync_keys.historical_tenant_root_deks@
    &&& context.manifest_auth_key == manifest_auth_key
}

/// Decides whether a run can start, and with what.
///
/// `manifest_auth_key` is derived from the master key, where that works; `token` is
/// the current access token.
pub fn sync_readiness(
    readiness: Result<AccountReadiness, ClientError>,
    state: &AccountRuntimeState,
    manifest_auth_key: Option<Vec<u8>>,
    token: Result<Option<OriginBoundAccessToken>, ClientError>,
) -> (r: Result<SyncReadiness, ClientError>)
    ensures
        match readiness {
            Err(error) => r is Err && r->Err_0 == error,
            Ok(AccountReadiness::LoggedOut) => r is Ok && r->Ok_0 is LoggedOut,
            Ok(AccountReadiness::CredentialUnavailable) => r is Ok
                && r->Ok_0 is CredentialUnavailable,
            Ok(AccountReadiness::AccountBoundUnavailable) => r is Ok
                && r->Ok_0 is AccountBoundUnavailable,
            Ok(AccountReadiness::Ready) => match session_fits(*state) {
                Err(error) => r is Err && r->Err_0 == error,
                Ok(false) => r is Ok && r->Ok_0 is AccountBoundUnavailable,
                Ok(true) => match manifest_auth_key {
                    None => r is Err && r->Err_0 == ClientError::AccountBoundUnavailable,
                    Some(key) => match token {
                        Err(error) => r is Err && r->Err_0 == error,
                        Ok(None) => r is Err && r->Err_0 == ClientError::CredentialUnavailable,
                        Ok(Some(held)) => if held.token@.len() == 0 {
                            r is Ok && r->Ok_0 is CredentialUnavailable
                        } else {
                            &&& r is Ok
                            &&& r->Ok_0 is Ready
                            &&& context_of(*r->Ok_0->Ready_0, *state, key, held)
                        },
                    },
                },
            },
        },
{
    match readiness {
        Err(error) => {
            return Err(error);
        },
        Ok(AccountReadiness::LoggedOut) => {
            return Ok(SyncReadiness::LoggedOut);
        },
        Ok(AccountReadiness::CredentialUnavailable) => {
            return Ok(SyncReadiness::CredentialUnavailable);
        },
        Ok(AccountReadiness::AccountBoundUnavailable) => {
            return Ok(SyncReadiness::AccountBoundUnavailable);
        },
        Ok(AccountReadiness::Ready) => {},
    }
    match check_session_fits(state) {
        Err(error) => {
            return Err(error);
        },
        Ok(fits) => {
            if !fits {
                return Ok(SyncReadiness::AccountBoundUnavailable);
            }
        },
    }
    let key = match manifest_auth_key {
        None => {
            return Err(ClientError::AccountBoundUnavailable);
        },
        Some(key) => key,
    };
    let held = match token {
        Err(error) => {
            return Err(error);
        },
        Ok(None) => {
            return Err(ClientError::CredentialUnavailable);
        },
        Ok(Some(held)) => held,
    };
    if held.token.as_str().is_empty() {
        return Ok(SyncReadiness::CredentialUnavailable);
    }
    match &state.crypto {
        CryptoRuntimeState::Ready(crypto) => Ok(
            SyncReadiness::Ready(
                Box::new(
                    ActiveSyncContext {
                        server_url: held.issuer,
                        tenant_id: crypto.tenant_id,
                        device_id: crypto.device_id.text(),
                        session_token: held.token,
                        keys: crypto.sync_keys.duplicate(),
                        manifest_auth_key: key,
                    },
                ),
            ),
        ),
        _ => Ok(SyncReadiness::AccountBoundUnavailable),
    }
}

/// Whether a profile counts as logged in, for its status.
pub fn readiness_logged_in(readiness: &SyncReadiness) -> (r: Result<bool, ClientError>)
    ensures
        match *readiness {
            SyncReadiness::LoggedOut => r == Ok::<bool, ClientError>(false),
            SyncReadiness::Ready(_) => r == Ok::<bool, ClientError>(true),
            SyncReadiness::CredentialUnavailable => r == Err::<bool, ClientError>(
                ClientError::CredentialUnavailable,
            ),
            SyncReadiness::AccountBoundUnavailable => r == Err::<bool, ClientError>(
                ClientError::AccountBoundUnavailable,
            ),
        },
{
    match readiness {
        SyncReadiness::LoggedOut => Ok(false),
        SyncReadiness::Ready(_) => Ok(true),
        SyncReadiness::CredentialUnavailable => Err(ClientError::CredentialUnavailable),
        SyncReadiness::AccountBoundUnavailable => Err(ClientError::AccountBoundUnavailable),
    }
}

/// How a request to sync goes on.
pub enum SyncStart {
    /// Answer with this status: nobody is logged in, or a run is under way.
    Answer(SyncStatus),
    Run(Box<ActiveSyncContext>),
}

/// Starts a run, unless one is under way. A run that starts forgets the last error.
pub fn begin_sync_now(
    readiness: SyncReadiness,
    state: &mut SyncRuntimeState,
) -> (r: Result<SyncStart, ClientError>)
    ensures
        match readiness {
            SyncReadiness::LoggedOut => {
                &&& r == Ok::<_, ClientError>(SyncStart::Answer(status_of(false, *old(state))))
                &&& *final(state) == *old(state)
            },
            SyncReadiness::CredentialUnavailable => {
                &&& r is Err && r->Err_0 == ClientError::CredentialUnavailable
                &&& *final(state) == *old(state)
            },
            SyncReadiness::AccountBoundUnavailable => {
                &&& r is Err && r->Err_0 == ClientError::AccountBoundUnavailable
                &&& *final(state) == *old(state)
            },
            SyncReadiness::Ready(context) => if old(state).running {
                &&& r == Ok::<_, ClientError>(SyncStart::Answer(status_of(true, *old(state))))
                &&& *final(state) == *old(state)
            } else {
                &&& r == Ok::<_, ClientError>(SyncStart::Run(context))
                &&& *final(state) == (SyncRuntimeState {
                    running: true,
                    last_error: None,
                    ..*old(state)
                })
            },
        },
{
    match readiness {
        SyncReadiness::LoggedOut => Ok(SyncStart::Answer(sync_status(false, state))),
        SyncReadiness::CredentialUnavailable => Err(ClientError::CredentialUnavailable),
        SyncReadiness::AccountBoundUnavailable => Err(ClientError::AccountBoundUnavailable),
        SyncReadiness::Ready(context) => {
            if state.running {
                return Ok(SyncStart::Answer(sync_status(true, state)));
            }
            state.running = true;
            state.last_error = None;
            Ok(SyncStart::Run(context))
        },
    }
}

/// What ended a run early leaves: it is not running any more.
pub fn cancel_sync_run(state: &mut SyncRuntimeState)
    ensures
        *final(state) == (SyncRuntimeState { running: false, ..*old(state) }),
{
    state.running = false;
}

/// Takes the token that a run goes on with: its server and its words replace those of
/// the context.
pub fn use_access_token(context: &mut ActiveSyncContext, token: OriginBoundAccessToken)
    ensures
        *final(context) == (ActiveSyncContext {
            server_url: token.issuer,
            session_token: token.token,
            ..*old(context)
        }),
{
    context.server_url = token.issuer;
    context.session_token = token.token;
}

/// How a realtime ticket is come by.
pub enum TicketStep {
    FetchToken { context: Box<ActiveSyncContext>, force_refresh: bool },
    /// Ask the server of the context for a ticket.
    Ask { context: Box<ActiveSyncContext>, token: OriginBoundAccessToken, retried: bool },
    Done(Result<RealtimeTicket, ClientError>),
}

/// What a step came to.
pub enum TicketEvent {
    Token(Result<OriginBoundAccessToken, ClientError>),
    Answered(Result<RealtimeTicket, AccountClientError>),
}

/// A ticket is asked for by a profile that could sync.
pub fn begin_realtime_ticket(readiness: SyncReadiness) -> (r: TicketStep)
    ensures
        match readiness {
            SyncReadiness::Ready(context) => r == (TicketStep::FetchToken {
                context,
                force_refresh: false,
            }),
            SyncReadiness::AccountBoundUnavailable => r == TicketStep::Done(
                Err(ClientError::AccountBoundUnavailable),
            ),
            _ => r == TicketStep::Done(Err(ClientError::CredentialUnavailable)),
        },
{
    match readiness {
        SyncReadiness::Ready(context) => TicketStep::FetchToken { context, force_refresh: false },
        SyncReadiness::AccountBoundUnavailable => TicketStep::Done(
            Err(ClientError::AccountBoundUnavailable),
        ),
        SyncReadiness::LoggedOut => TicketStep::Done(Err(ClientError::CredentialUnavailable)),
        SyncReadiness::CredentialUnavailable => TicketStep::Done(
            Err(ClientError::CredentialUnavailable),
        ),
    }
}

/// How a request for a ticket goes on: a token that the server does not accept is
/// refreshed once.
pub open spec fn next_ticket_step(step: TicketStep, event: TicketEvent) -> TicketStep {
    match (step, event) {
        (TicketStep::Done(_), _) => step,
        (TicketStep::FetchToken { context, force_refresh }, TicketEvent::Token(Ok(token))) =>
            TicketStep::Ask { context, token, retried: force_refresh },
        (TicketStep::FetchToken { .. }, TicketEvent::Token(Err(error))) => TicketStep::Done(
            Err(error),
        ),
        (TicketStep::Ask { .. }, TicketEvent::Answered(Ok(ticket))) => TicketStep::Done(
            Ok(ticket),
        ),
        (TicketStep::Ask { context, token, retried }, TicketEvent::Answered(Err(error))) =>
            if !retried && error == AccountClientError::Server(401) {
                TicketStep::FetchToken { context, force_refresh: true }
            } else {
                TicketStep::Done(Err(credentials::account_error(error)))
            },
        _ => TicketStep::Done(Err(ClientError::RuntimeState)),
    }
}

/// Decides how a request for a ticket goes on.
pub fn realtime_ticket(step: TicketStep, event: TicketEvent) -> (r: TicketStep)
    ensures
        r == next_ticket_step(step, event),
{
    match step {
        TicketStep::Done(result) => TicketStep::Done(result),
        TicketStep::FetchToken { context, force_refresh } => match event {
            TicketEvent::Token(Ok(token)) => TicketStep::Ask {
                context,
                token,
                retried: force_refresh,
            },
            TicketEvent::Token(Err(error)) => TicketStep::Done(Err(error)),
            TicketEvent::Answered(_) => TicketStep::Done(Err(ClientError::RuntimeState)),
        },
        TicketStep::Ask { context, token: _, retried } => match event {
            TicketEvent::Answered(Ok(ticket)) => TicketStep::Done(Ok(ticket)),
            TicketEvent::Answered(Err(error)) => {
                let unauthorized: bool = match error {
                    AccountClientError::Server(code) => code == 401,
                    _ => false,
                };
                if !retried && unauthorized {
                    TicketStep::FetchToken { context, force_refresh: true }
                } else {
                    TicketStep::Done(Err(map_account_client_error(error)))
                }
            },
            TicketEvent::Token(_) => TicketStep::Done(Err(ClientError::RuntimeState)),
        },
    }
}

/// How many requests a ticket may still take.
pub open spec fn ticket_rank(step: TicketStep) -> nat {
    match step {
        TicketStep::FetchToken { force_refresh, .. } => if force_refresh {
            2
        } else {
            4
        },
        TicketStep::Ask { retried, .. } => if retried {
            1
        } else {
            3
        },
        TicketStep::Done(_) => 0,
    }
}

/// The server is asked for a ticket at most twice, always with the context that the
/// request began with.
pub proof fn law_ticket_is_asked_for_twice_at_most(step: TicketStep, event: TicketEvent)
    requires
        !(step is Done),
    ensures
        ticket_rank(next_ticket_step(step, event)) < ticket_rank(step),
        step matches TicketStep::FetchToken { context, .. } ==> (next_ticket_step(
            step,
            event,
        ) matches TicketStep::Ask { context: kept, .. } ==> kept == context),
        step matches TicketStep::Ask { context, .. } ==> (next_ticket_step(
            step,
            event,
        ) matches TicketStep::FetchToken { context: kept, .. } ==> kept == context),
{
}

} // verus!
