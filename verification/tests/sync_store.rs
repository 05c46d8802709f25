use std::cell::{Cell, RefCell};

use taskveil::domain::{Task, TaskContent, TaskStatus};
use taskveil::error::StorageError;
use taskveil::ids::Uuid;
use taskveil::sync_convert::{
    list_record_states, local_cursor_to_storage, local_outbox_to_storage,
    local_quarantine_to_storage, local_record_to_storage, storage_alias_to_local,
    storage_cursor_to_local, storage_outbox_to_local, storage_quarantine_to_local,
    storage_record_to_local, storage_resync_to_local, storage_sweep_to_local, EncryptedSyncState,
    FullResyncPhase, FullResyncProgress, FullResyncSweepSummary, ListAlias, LocalFullResyncPhase,
    LocalSyncOutboxEntry, LocalSyncQuarantineEntry, LocalSyncRecordState, LocalSyncSemanticState,
    StableCursor, SyncOutboxState,
};
use taskveil::sync_store::{
    coordination_now_ms, fenced_write, found, list_tasks_by_list_for_sync, replace_list_aliases,
    rotation_backfill_snapshot, sync_coordination_error, LocalListAlias, SqliteSyncStore,
    SqliteSyncWriteTx,
};

/// A lease as a database row hands it out.
#[derive(Clone, Debug, PartialEq, Eq)]
struct Lease {
    owner: String,
    runtime_epoch: i64,
}

/// The one lease row of a profile, and the epoch that the profile is in.
struct LeaseTable {
    holder: RefCell<Option<Lease>>,
    runtime_epoch: Cell<i64>,
    locked: Cell<bool>,
}

impl LeaseTable {
    fn new() -> Self {
        LeaseTable {
            holder: RefCell::new(None),
            runtime_epoch: Cell::new(1),
            locked: Cell::new(false),
        }
    }

    fn acquire(&self, owner: &str, runtime_epoch: i64) -> Result<Lease, StorageError> {
        if runtime_epoch != self.runtime_epoch.get() {
            return Err(StorageError::ProfileRuntimeEpochChanged);
        }
        if self.holder.borrow().is_some() {
            return Err(StorageError::SyncLeaseBusy);
        }
        let lease = Lease {
            owner: owner.to_string(),
            runtime_epoch,
        };
        *self.holder.borrow_mut() = Some(lease.clone());
        Ok(lease)
    }

    fn assert_held(&self, lease: &Lease) -> Result<(), StorageError> {
        if lease.runtime_epoch != self.runtime_epoch.get() {
            return Err(StorageError::ProfileRuntimeEpochChanged);
        }
        match self.holder.borrow().as_ref() {
            Some(held) if held == lease => Ok(()),
            _ => Err(StorageError::SyncLeaseLost),
        }
    }

    fn renew(&self, lease: &Lease) -> Result<Lease, StorageError> {
        self.assert_held(lease).map(|()| lease.clone())
    }

    fn begin(&self) -> Result<(), StorageError> {
        if self.locked.get() {
            Err(StorageError::DatabaseBusy)
        } else {
            Ok(())
        }
    }

    fn expire(&self) {
        *self.holder.borrow_mut() = None;
    }

    fn begin_write(&self, store: &mut SqliteSyncStore<Lease>) -> Result<bool, String> {
        store
            .begin_write_transaction(
                |lease: &Lease| self.renew(lease),
                || self.begin(),
                |_transaction: &(), lease: &Lease| self.assert_held(lease),
            )
            .map(|(_transaction, fenced)| fenced)
            .map_err(named)
    }

    fn give_up(&self, mut store: SqliteSyncStore<Lease>) {
        store.give_up(|lease: &Lease| {
            self.assert_held(lease)?;
            self.expire();
            Ok(())
        });
    }

    fn preflight(&self, store: &mut SqliteSyncStore<Lease>) -> Result<(), String> {
        store
            .preflight_network_request(
                |lease: &Lease| self.renew(lease),
                |lease: &Lease| self.assert_held(lease),
            )
            .map_err(named)
    }
}

fn named(error: StorageError) -> String {
    sync_coordination_error(error, "other".to_string())
}

#[test]
fn lost_lease_is_preserved_as_a_typed_sync_error_across_string_traits() {
    let table = LeaseTable::new();
    let mut store = SqliteSyncStore::new();
    store.acquire_sync_lease(|| table.acquire("owner", 1)).unwrap();
    table.expire();
    match table.begin_write(&mut store) {
        Err(error) => assert_eq!(error, "sync lease lost"),
        Ok(_) => panic!("expired lease unexpectedly started a write transaction"),
    }
}

#[test]
fn production_sync_store_without_a_lease_fails_closed() {
    let table = LeaseTable::new();
    let mut store = SqliteSyncStore::new_secret();

    assert_eq!(table.preflight(&mut store).unwrap_err(), "sync lease lost");
    match table.begin_write(&mut store) {
        Err(error) => assert_eq!(error, "sync lease lost"),
        Ok(_) => panic!("production sync store opened an unfenced transaction"),
    }
}

#[test]
fn protocol_harness_can_fail_an_exact_network_preflight() {
    let table = LeaseTable::new();
    let mut store = SqliteSyncStore::new();
    store.fail_preflight_on_call(2);

    table.preflight(&mut store).unwrap();
    assert_eq!(
        table.preflight(&mut store),
        Err("sync lease lost".to_string())
    );
    assert_eq!(store.preflight_call_count(), 2);
}

#[test]
fn storage_coordination_errors_have_stable_sync_adapter_names() {
    assert_eq!(named(StorageError::SyncLeaseBusy), "sync lease busy");
    assert_eq!(named(StorageError::SyncLeaseLost), "sync lease lost");
    assert_eq!(
        named(StorageError::ProfileRuntimeEpochChanged),
        "sync lease lost"
    );
    assert_eq!(named(StorageError::DatabaseBusy), "database busy");
    assert_eq!(named(StorageError::NotFound), "other");
}

#[test]
fn sqlite_write_contention_is_preserved_as_database_busy() {
    let table = LeaseTable::new();
    table.locked.set(true);
    let mut contender = SqliteSyncStore::new();

    match table.begin_write(&mut contender) {
        Err(error) => assert_eq!(error, "database busy"),
        Ok(_) => panic!("contending writer unexpectedly acquired the database"),
    }
}

#[test]
fn takeover_stops_the_old_run_before_the_next_network_request() {
    let table = LeaseTable::new();
    let mut old_store = SqliteSyncStore::new();
    old_store
        .acquire_sync_lease(|| table.acquire("old-run", 1))
        .unwrap();

    table.expire();
    let mut new_store = SqliteSyncStore::new();
    new_store
        .acquire_sync_lease(|| table.acquire("new-run", 1))
        .unwrap();

    let mut remote_request_count = 0;
    let result = table.preflight(&mut old_store).map(|()| {
        remote_request_count += 1;
    });

    assert_eq!(result.unwrap_err(), "sync lease lost");
    assert_eq!(remote_request_count, 0);
}

#[test]
fn epoch_change_aborts_old_store_and_only_a_new_run_can_acquire() {
    let table = LeaseTable::new();
    let mut old_store = SqliteSyncStore::new();
    old_store
        .acquire_sync_lease(|| table.acquire("old-run", 1))
        .unwrap();
    table.runtime_epoch.set(2);

    match table.begin_write(&mut old_store) {
        Err(error) => assert_eq!(error, "sync lease lost"),
        Ok(_) => panic!("stale run unexpectedly started a write transaction"),
    }
    assert!(matches!(
        old_store.acquire_sync_lease(|| table.acquire("old-run", 2)),
        Err(StorageError::SyncLeaseLost)
    ));

    table.expire();
    let mut new_store = SqliteSyncStore::new();
    new_store
        .acquire_sync_lease(|| table.acquire("new-run", 2))
        .unwrap();
    table.begin_write(&mut new_store).unwrap();
}

#[test]
fn runtime_cutover_remains_sticky_across_two_key_persists_in_one_transaction() {
    let table = LeaseTable::new();
    let mut store = SqliteSyncStore::new();
    store.acquire_sync_lease(|| table.acquire("owner", 1)).unwrap();
    table.begin_write(&mut store).unwrap();
    let mut transaction = SqliteSyncWriteTx::new(store.lease.clone());
    transaction
        .persist_local_crypto_context(
            |lease: &Lease| table.assert_held(lease),
            || {
                table.runtime_epoch.set(2);
                Ok((10, true))
            },
        )
        .unwrap();
    transaction
        .persist_local_crypto_context(
            |lease: &Lease| table.assert_held(lease),
            || Ok((11, false)),
        )
        .unwrap();
    assert!(transaction.has_runtime_cutover());
    transaction
        .check(|lease: &Lease| table.assert_held(lease))
        .expect("the first cutover remains authoritative");

    assert_eq!(table.runtime_epoch.get(), 2);
}

#[test]
fn a_refused_lease_stores_no_keys() {
    let table = LeaseTable::new();
    let lease = table.acquire("owner", 1).unwrap();
    table.expire();
    let mut transaction = SqliteSyncWriteTx::new(Some(lease));
    let mut stored = false;
    let result = transaction.persist_local_crypto_context(
        |lease: &Lease| table.assert_held(lease),
        || {
            stored = true;
            Ok(((), true))
        },
    );
    assert!(matches!(result, Err(StorageError::SyncLeaseLost)));
    assert!(!stored);
    assert!(!transaction.has_runtime_cutover());
}

#[test]
fn a_released_lease_can_be_taken_again() {
    let table = LeaseTable::new();
    let mut first = SqliteSyncStore::new_secret();
    first.acquire_sync_lease(|| table.acquire("first", 1)).unwrap();
    assert!(first.release_lease_on_drop);
    let mut second = SqliteSyncStore::new_secret();
    assert!(matches!(
        second.acquire_sync_lease(|| table.acquire("second", 1)),
        Err(StorageError::SyncLeaseBusy)
    ));
    first
        .release_sync_lease(|_lease: &Lease| {
            table.expire();
            Ok(())
        })
        .unwrap();
    assert!(first.lease.is_none());
    second
        .acquire_sync_lease(|| table.acquire("second", 1))
        .unwrap();
    assert_eq!(second.active_lease().unwrap().owner, "second");
    assert!(second
        .renew_sync_lease(|lease: &Lease| table.renew(lease))
        .unwrap());
}

#[test]
fn cancel_and_error_drop_release_the_sync_lease() {
    let table = LeaseTable::new();

    let mut canceled = SqliteSyncStore::new_secret();
    canceled
        .acquire_sync_lease(|| table.acquire("canceled", 1))
        .unwrap();
    // Dropping the future that owns this store follows this path.
    table.give_up(canceled);

    let mut after_cancel = SqliteSyncStore::new_secret();
    after_cancel
        .acquire_sync_lease(|| table.acquire("after-cancel", 1))
        .unwrap();
    table.give_up(after_cancel);

    let transport_error = (|| -> Result<(), &'static str> {
        let mut failed = SqliteSyncStore::new_secret();
        let taken = failed.acquire_sync_lease(|| table.acquire("failed", 1));
        let result = match taken {
            Ok(()) => Err("transport"),
            Err(_) => Err("lease"),
        };
        table.give_up(failed);
        result
    })();
    assert_eq!(transport_error, Err("transport"));
    let mut after_error = SqliteSyncStore::new_secret();
    after_error
        .acquire_sync_lease(|| table.acquire("after-error", 1))
        .unwrap();
}

#[test]
fn a_lent_lease_stays_when_its_store_is_given_up() {
    let table = LeaseTable::new();
    let lent = table.acquire("lender", 1).unwrap();
    table.give_up(SqliteSyncStore::new_secret_with_lease(lent.clone()));
    assert_eq!(table.assert_held(&lent), Ok(()));

    let mut stale = SqliteSyncStore::new_secret();
    table.expire();
    stale.acquire_sync_lease(|| table.acquire("stale", 1)).unwrap();
    table.expire();
    stale.give_up(|lease: &Lease| table.assert_held(lease));
    assert!(stale.lease.is_some() && stale.release_lease_on_drop);
}

/// The metadata of a profile, and a transaction on it that is only a copy until it is
/// committed.
struct MetadataTable {
    settings: RefCell<Vec<(String, String)>>,
    cursor: Cell<Option<i64>>,
}

struct MetadataTransaction {
    settings: Vec<(String, String)>,
    cursor: Option<i64>,
}

impl MetadataTable {
    fn write<F: FnOnce(&mut MetadataTransaction)>(
        &self,
        leases: &LeaseTable,
        store: &mut SqliteSyncStore<Lease>,
        change: F,
    ) -> Result<(), String> {
        fenced_write(
            || {
                let begun = store
                    .begin_write_transaction(
                        |lease: &Lease| leases.renew(lease),
                        || {
                            Ok(MetadataTransaction {
                                settings: self.settings.borrow().clone(),
                                cursor: self.cursor.get(),
                            })
                        },
                        |_transaction: &MetadataTransaction, lease: &Lease| {
                            leases.assert_held(lease)
                        },
                    )
                    .map(|(transaction, _fenced)| transaction)
                    .map_err(named)?;
                Ok((begun, SqliteSyncWriteTx::new(store.lease.clone())))
            },
            |mut transaction: MetadataTransaction| {
                change(&mut transaction);
                Ok((transaction, ()))
            },
            |_transaction: &MetadataTransaction, lease: &Lease| {
                leases.assert_held(lease).map_err(named)
            },
            |transaction: MetadataTransaction| {
                *self.settings.borrow_mut() = transaction.settings;
                self.cursor.set(transaction.cursor);
                Ok(())
            },
        )
    }

    fn set_setting(
        &self,
        leases: &LeaseTable,
        store: &mut SqliteSyncStore<Lease>,
        key: &str,
        value: &str,
    ) -> Result<(), String> {
        self.write(leases, store, |transaction| {
            transaction.settings.retain(|(held, _)| held != key);
            transaction.settings.push((key.to_string(), value.to_string()));
        })
    }

    fn set_cursor(
        &self,
        leases: &LeaseTable,
        store: &mut SqliteSyncStore<Lease>,
        seq: Option<i64>,
    ) -> Result<(), String> {
        self.write(leases, store, |transaction| {
            transaction.cursor = seq;
        })
    }

    fn get_setting(&self, key: &str) -> Option<String> {
        self.settings
            .borrow()
            .iter()
            .find(|(held, _)| held == key)
            .map(|(_, value)| value.clone())
    }
}

#[test]
fn takeover_rejects_every_outer_metadata_write_from_the_old_run() {
    let table = LeaseTable::new();
    let metadata = MetadataTable {
        settings: RefCell::new(Vec::new()),
        cursor: Cell::new(None),
    };
    let mut old_store = SqliteSyncStore::new();
    metadata
        .set_setting(&table, &mut old_store, "sync_upgrade_required", "old")
        .unwrap();
    metadata.set_cursor(&table, &mut old_store, Some(1)).unwrap();
    old_store
        .acquire_sync_lease(|| table.acquire("old-run", 1))
        .unwrap();

    table.expire();
    let mut new_store = SqliteSyncStore::new();
    new_store
        .acquire_sync_lease(|| table.acquire("new-run", 1))
        .unwrap();
    metadata
        .set_setting(&table, &mut new_store, "sync_upgrade_required", "new")
        .unwrap();
    metadata.set_cursor(&table, &mut new_store, Some(2)).unwrap();

    let others = [
        "sync_full_resync_page_token",
        "sync_full_resync_completion_token",
        "key_rotation_pending",
    ];
    for key in ["sync_upgrade_required", others[0], others[1], others[2]] {
        assert_eq!(
            metadata
                .set_setting(&table, &mut old_store, key, "stale")
                .unwrap_err(),
            "sync lease lost"
        );
    }
    assert_eq!(
        metadata
            .set_cursor(&table, &mut old_store, Some(3))
            .unwrap_err(),
        "sync lease lost"
    );
    assert_eq!(
        metadata.set_cursor(&table, &mut old_store, None).unwrap_err(),
        "sync lease lost"
    );
    assert_eq!(
        metadata
            .write(&table, &mut old_store, |_transaction| {
                panic!("a stale run reached its write")
            })
            .unwrap_err(),
        "sync lease lost"
    );
    match table.begin_write(&mut old_store) {
        Err(error) => assert_eq!(error, "sync lease lost"),
        Ok(_) => panic!("stale run unexpectedly opened a resync write transaction"),
    }

    assert_eq!(
        metadata.get_setting("sync_upgrade_required"),
        Some("new".to_string())
    );
    assert_eq!(metadata.cursor.get(), Some(2));
    for key in others {
        assert_eq!(metadata.get_setting(key), None);
    }
}

#[test]
fn a_lease_is_asked_for_within_the_transaction_that_was_begun() {
    let table = LeaseTable::new();
    let calls = RefCell::new(Vec::new());
    let mut store = SqliteSyncStore::new_secret();
    let begun = store.begin_write_transaction(
        |lease: &Lease| table.renew(lease),
        || {
            calls.borrow_mut().push("begin");
            Ok(7)
        },
        |_transaction: &i32, lease: &Lease| table.assert_held(lease),
    );
    assert_eq!(begun, Err(StorageError::SyncLeaseLost));
    assert!(calls.borrow().is_empty());

    store.acquire_sync_lease(|| table.acquire("owner", 1)).unwrap();
    let begun = store.begin_write_transaction(
        |lease: &Lease| {
            calls.borrow_mut().push("renew");
            table.renew(lease)
        },
        || {
            calls.borrow_mut().push("begin");
            Ok(7)
        },
        |transaction: &i32, lease: &Lease| {
            assert_eq!(*transaction, 7);
            calls.borrow_mut().push("assert");
            table.assert_held(lease)
        },
    );
    assert_eq!(begun, Ok((7, true)));
    assert_eq!(*calls.borrow(), vec!["renew", "begin", "assert"]);
}

#[test]
fn durable_completion_token_exposes_awaiting_ack_until_atomically_cleared() {
    let progress = || FullResyncProgress::<()> {
        generation_id: Uuid { value: 9 },
        continuity_generation: 7,
        phase: FullResyncPhase::Delta,
        base_seq: 11,
        base_cursor: None,
        delta_cursor: 11,
        closure_high_water: None,
        sweep_cursor: None,
    };

    assert_eq!(
        storage_resync_to_local(progress(), &Some("completion-token".to_string())).phase,
        LocalFullResyncPhase::BaseAwaitingAck
    );
    assert_eq!(
        storage_resync_to_local(progress(), &Some(String::new())).phase,
        LocalFullResyncPhase::Delta
    );
    assert_eq!(
        storage_resync_to_local(progress(), &None).phase,
        LocalFullResyncPhase::Delta
    );
}

#[test]
fn stored_records_are_read_back() {
    let record = Uuid { value: 5 };
    let state = LocalSyncRecordState {
        current_revision_hlc: Some("1:0:device".to_string()),
        state: LocalSyncSemanticState::Live {
            mutation_hlc: "1:0:device".to_string(),
            plaintext_json: "{}".to_string(),
        },
    };
    let stored = local_record_to_storage("lists".to_string(), record, state.clone(), 1);
    assert_eq!(stored.collection, "lists");
    assert_eq!(storage_record_to_local(stored.clone()), state);
    assert_eq!(list_record_states(vec![stored]), vec![(record, state)]);

    let entry = LocalSyncOutboxEntry {
        op_id: Uuid { value: 1 },
        record_id: record,
        collection: 3_u8,
        base_revision_hlc: None,
        revision_hlc: "0000000000001:00000:device".to_string(),
        state: EncryptedSyncState::Tombstone {
            delete_hlc: "0000000000001:00000:device".to_string(),
        },
        created_at: 1,
    };
    let stored = local_outbox_to_storage(entry.clone(), "lists".to_string());
    assert_eq!(
        stored.state,
        SyncOutboxState::Tombstone {
            delete_hlc: "0000000000001:00000:device".to_string()
        }
    );
    assert_eq!(storage_outbox_to_local(stored.clone(), Ok(3_u8)), Ok(entry));
    assert_eq!(
        storage_outbox_to_local::<u8>(stored, Err("unknown collection".to_string())),
        Err("unknown collection".to_string())
    );

    let quarantined = LocalSyncQuarantineEntry {
        record_id: record,
        collection: 3_u8,
        seq: 1,
        revision_hlc: "1:0:device".to_string(),
        state: EncryptedSyncState::Live {
            mutation_hlc: "1:0:device".to_string(),
            blob: vec![1],
        },
        reason: 8_u8,
        required_list_id: None,
        first_failed_at: 1,
        last_failed_at: 1,
        attempt_count: 1,
    };
    let stored = local_quarantine_to_storage(
        quarantined.clone(),
        "lists".to_string(),
        "invalid_plaintext".to_string(),
    );
    assert_eq!(stored.reason, "invalid_plaintext");
    assert_eq!(
        storage_quarantine_to_local(stored, Ok(3_u8), Ok(8_u8)),
        Ok(quarantined)
    );
}

#[test]
fn aliases_must_agree_on_one_canonical_list() {
    let canonical = Uuid { value: 1 };
    let alias = Uuid { value: 2 };
    let aliases = vec![LocalListAlias {
        alias_list_id: alias,
        canonical_list_id: canonical,
    }];
    let replaced = match replace_list_aliases(&aliases, Ok(Vec::new())) {
        Ok(Some(replaced)) => replaced,
        _ => panic!("aliases of one list were refused"),
    };
    assert_eq!(replaced.canonical_list_id, canonical);
    assert_eq!(replaced.alias_list_ids, vec![alias]);

    let cleared = match replace_list_aliases(&Vec::new(), Ok(aliases)) {
        Ok(Some(cleared)) => cleared,
        _ => panic!("aliases were not cleared"),
    };
    assert_eq!(cleared.canonical_list_id, canonical);
    assert!(cleared.alias_list_ids.is_empty());
    assert!(matches!(
        replace_list_aliases(&Vec::new(), Ok(Vec::new())),
        Ok(None)
    ));

    let own_alias = vec![LocalListAlias {
        alias_list_id: canonical,
        canonical_list_id: canonical,
    }];
    assert!(matches!(
        replace_list_aliases(&own_alias, Ok(Vec::new())),
        Err(error) if error == "invalid canonical Inbox alias set"
    ));
}

fn task(id: u128, list: u128) -> Task {
    Task {
        id: Uuid { value: id },
        list_id: Uuid { value: list },
        parent_task_id: None,
        content: TaskContent {
            title: "late".to_string(),
            note: String::new(),
            priority: 0,
            estimated_minutes: None,
        },
        status: TaskStatus::Todo,
        due: None,
        scheduled_at: None,
        sort_order: "a0".to_string(),
        completed_at: None,
        closed_reason: None,
        deleted_at: None,
        assignee: None,
        created_at: 1,
        updated_at: 1,
    }
}

#[test]
fn only_the_tasks_of_a_list_are_listed_and_in_order() {
    let all = vec![task(1, 7), task(2, 8), task(3, 7)];
    let here = list_tasks_by_list_for_sync(Ok(all), Uuid { value: 7 }).unwrap();
    assert_eq!(here, vec![task(1, 7), task(3, 7)]);
    assert!(matches!(
        list_tasks_by_list_for_sync(Err(StorageError::DatabaseBusy), Uuid { value: 7 }),
        Err(StorageError::DatabaseBusy)
    ));
}

#[test]
fn missing_records_and_clock_faults_are_told_apart() {
    assert!(matches!(found(Ok(3)), Ok(Some(3))));
    assert!(matches!(
        found::<u8>(Err(StorageError::NotFound)),
        Ok(None)
    ));
    assert!(matches!(
        found::<u8>(Err(StorageError::Other)),
        Err(StorageError::Other)
    ));
    assert!(matches!(coordination_now_ms(Some(42)), Ok(42)));
    assert!(matches!(
        coordination_now_ms(None),
        Err(StorageError::ProfileCoordinationClockRollback)
    ));
    assert!(matches!(
        coordination_now_ms(Some(i64::MAX as u128 + 1)),
        Err(StorageError::ProfileCoordinationOverflow)
    ));
}

#[test]
fn an_outer_write_is_committed_only_when_it_was_written() {
    let harness = || SqliteSyncWriteTx::<Lease>::new(None);
    let mut committed = Vec::new();
    let written: Result<&str, String> = fenced_write(
        || Ok((vec![1], harness())),
        |mut transaction: Vec<u8>| {
            transaction.push(2);
            Ok((transaction, "written"))
        },
        |_: &Vec<u8>, _: &Lease| panic!("there is no lease to ask for"),
        |transaction: Vec<u8>| {
            committed = transaction;
            Ok(())
        },
    );
    assert_eq!(written, Ok("written"));
    assert_eq!(committed, vec![1, 2]);
    let refused: Result<u8, String> = fenced_write(
        || Ok((1, harness())),
        |_: u8| Err("invalid entry".to_string()),
        |_: &u8, _: &Lease| Ok(()),
        |_: u8| panic!("a failed write was committed"),
    );
    assert_eq!(refused, Err("invalid entry".to_string()));
    let unfenced: Result<u8, String> = fenced_write(
        || Err::<(u8, SqliteSyncWriteTx<Lease>), String>("sync lease lost".to_string()),
        |_: u8| panic!("a write began without a lease"),
        |_: &u8, _: &Lease| Ok(()),
        |_: u8| Ok(()),
    );
    assert_eq!(unfenced, Err("sync lease lost".to_string()));
    let uncommitted: Result<u8, String> = fenced_write(
        || Ok((1, harness())),
        |transaction: u8| Ok((transaction, 7)),
        |_: &u8, _: &Lease| Ok(()),
        |_: u8| Err("database busy".to_string()),
    );
    assert_eq!(uncommitted, Err("database busy".to_string()));
}

#[test]
fn a_lease_that_is_lost_while_writing_stops_the_commit() {
    let table = LeaseTable::new();
    let lease = table.acquire("owner", 1).unwrap();
    let write = |lost: bool| -> Result<u8, String> {
        fenced_write(
            || Ok((1, SqliteSyncWriteTx::new(Some(lease.clone())))),
            |transaction: u8| {
                if lost {
                    table.expire();
                }
                Ok((transaction, 7))
            },
            |_: &u8, held: &Lease| table.assert_held(held).map_err(named),
            |_: u8| {
                assert!(!lost, "a stale transaction was committed");
                Ok(())
            },
        )
    };
    assert_eq!(write(false), Ok(7));
    assert_eq!(write(true), Err("sync lease lost".to_string()));

    // A transaction that moves the profile on is not held up by the lease it outdates.
    let mut cutover = SqliteSyncWriteTx::new(Some(lease.clone()));
    cutover.record_persist(true);
    let committed: Result<(), StorageError> = cutover.commit(
        5,
        |_: &i32, _: &Lease| Err(StorageError::SyncLeaseLost),
        |transaction: i32| {
            assert_eq!(transaction, 5);
            Ok(())
        },
    );
    assert_eq!(committed, Ok(()));
    let stale: Result<(), StorageError> = SqliteSyncWriteTx::new(Some(lease.clone())).commit(
        5,
        |_: &i32, held: &Lease| table.assert_held(held),
        |_: i32| panic!("a stale transaction was committed"),
    );
    assert_eq!(stale, Err(StorageError::SyncLeaseLost));
}

#[test]
fn a_rotation_sends_everything_or_the_first_failure() {
    let all = rotation_backfill_snapshot(
        Ok(Vec::new()),
        Ok(Vec::new()),
        Ok(Vec::new()),
        Ok(Vec::new()),
        Ok(Vec::new()),
    );
    assert!(matches!(all, Ok(snapshot) if snapshot.tasks.is_empty()));
    assert!(matches!(
        rotation_backfill_snapshot(
            Ok(Vec::new()),
            Ok(Vec::new()),
            Err(StorageError::NotFound),
            Ok(Vec::new()),
            Err(StorageError::SyncLeaseLost),
        ),
        Err(StorageError::NotFound)
    ));
}

#[test]
fn cursors_sweeps_and_aliases_keep_their_values() {
    let cursor = StableCursor {
        collection: 7,
        record_id: Uuid { value: 3 },
    };
    let stored = local_cursor_to_storage(&cursor, "tasks".to_string());
    assert_eq!(stored.collection, "tasks");
    let read = storage_cursor_to_local(stored, 7);
    assert_eq!(read.collection, cursor.collection);
    assert_eq!(read.record_id, cursor.record_id);

    let sweep = storage_sweep_to_local(FullResyncSweepSummary {
        scanned_records: 1,
        swept_lists: 2,
        swept_tasks: 3,
        swept_templates: 4,
        swept_task_series: 5,
        swept_timer_sessions: 6,
        swept_record_states: 7,
    });
    assert_eq!(sweep.scanned_records, 1);
    assert_eq!(sweep.swept_lists, 2);
    assert_eq!(sweep.swept_tasks, 3);
    assert_eq!(sweep.swept_templates, 4);
    assert_eq!(sweep.swept_task_series, 5);
    assert_eq!(sweep.swept_timer_sessions, 6);
    assert_eq!(sweep.swept_record_states, 7);

    let alias = storage_alias_to_local(ListAlias {
        alias_list_id: Uuid { value: 1 },
        canonical_list_id: Uuid { value: 2 },
        updated_at: 9,
    });
    assert_eq!(alias.alias_list_id, Uuid { value: 1 });
    assert_eq!(alias.canonical_list_id, Uuid { value: 2 });
}

#[test]
fn a_borrowed_lease_is_left_to_its_owner() {
    let borrowed = SqliteSyncStore::new_secret_with_lease(7);
    assert_eq!(borrowed.active_lease(), Ok(&7));
    assert!(!borrowed.release_lease_on_drop);
}
