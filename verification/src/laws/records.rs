//! Records and their store: every field keeps its name, and what is written is fenced by
//! the lease.
use vstd::prelude::*;
use crate::sync_convert;
use crate::sync_store;
use crate::domain::{CompletedTimerSession, List, Task, TaskSeries, TaskTemplate};
use crate::error::StorageError;
use crate::ids::Uuid;
use crate::sync_convert::{
    EncryptedSyncState, FullResyncPhase, LocalSyncOutboxEntry, LocalSyncQuarantineEntry,
    LocalSyncRecordState, SyncOutboxEntry, SyncOutboxState, SyncQuarantineEntry,
    SyncRecordState,
};
use crate::sync_store::{LocalListAlias, SqliteSyncStore, SqliteSyncWriteTx};

verus! {

/// What is live is stored as live, with its clock and its ciphertext, and what is
/// deleted as deleted, with its clock.
pub proof fn law_record_state_is_stored_as_it_is(state: EncryptedSyncState)
    ensures
        state is Live <==> state.stored() is Live,
        state is Tombstone <==> state.stored() is Tombstone,
        state is Live ==>
            state.stored()->mutation_hlc == state->mutation_hlc
                && state.stored()->blob == state->blob,
        state is Tombstone ==> state.stored()->delete_hlc == state->delete_hlc,
{
}

/// What is stored as live is loaded as live, with its clock and its ciphertext, and
/// what is stored as deleted as deleted, with its clock.
pub proof fn law_record_state_is_loaded_as_it_is(state: SyncOutboxState)
    ensures
        state is Live <==> state.loaded() is Live,
        state is Tombstone <==> state.loaded() is Tombstone,
        state is Live ==>
            state.loaded()->mutation_hlc == state->mutation_hlc
                && state.loaded()->blob == state->blob,
        state is Tombstone ==> state.loaded()->delete_hlc == state->delete_hlc,
{
}

/// An outbox entry is stored under the name of its collection and, under each other
/// name, as it is.
pub proof fn law_outbox_entry_keeps_its_fields<C>(entry: LocalSyncOutboxEntry<C>, name: String)
    ensures
        sync_convert::outbox_stored(entry, name).op_id == entry.op_id,
        sync_convert::outbox_stored(entry, name).record_id == entry.record_id,
        sync_convert::outbox_stored(entry, name).base_revision_hlc == entry.base_revision_hlc,
        sync_convert::outbox_stored(entry, name).revision_hlc == entry.revision_hlc,
        sync_convert::outbox_stored(entry, name).created_at == entry.created_at,
        sync_convert::outbox_stored(entry, name).collection == name,
        entry.state is Live <==> sync_convert::outbox_stored(entry, name).state is Live,
        entry.state is Tombstone <==>
            sync_convert::outbox_stored(entry, name).state is Tombstone,
        entry.state is Live ==>
            sync_convert::outbox_stored(entry, name).state->mutation_hlc == entry.state->mutation_hlc
                && sync_convert::outbox_stored(entry, name).state->blob == entry.state->blob,
        entry.state is Tombstone ==>
            sync_convert::outbox_stored(entry, name).state->delete_hlc == entry.state->delete_hlc,
{
}

/// A stored outbox entry is loaded into the collection that its name stands for and,
/// under each other name, as it is.
pub proof fn law_outbox_entry_is_loaded_field_by_field<C>(entry: SyncOutboxEntry, collection: C)
    ensures
        sync_convert::outbox_loaded(entry, collection).op_id == entry.op_id,
        sync_convert::outbox_loaded(entry, collection).record_id == entry.record_id,
        sync_convert::outbox_loaded(entry, collection).base_revision_hlc == entry.base_revision_hlc,
        sync_convert::outbox_loaded(entry, collection).revision_hlc == entry.revision_hlc,
        sync_convert::outbox_loaded(entry, collection).created_at == entry.created_at,
        sync_convert::outbox_loaded(entry, collection).collection == collection,
        entry.state is Live <==> sync_convert::outbox_loaded(entry, collection).state is Live,
        entry.state is Tombstone <==>
            sync_convert::outbox_loaded(entry, collection).state is Tombstone,
        entry.state is Live ==>
            sync_convert::outbox_loaded(entry, collection).state->mutation_hlc == entry.state->mutation_hlc
                && sync_convert::outbox_loaded(entry, collection).state->blob == entry.state->blob,
        entry.state is Tombstone ==>
            sync_convert::outbox_loaded(entry, collection).state->delete_hlc == entry.state->delete_hlc,
{
}

/// A quarantined record is stored under the names of its collection and its reason and,
/// under each other name, as it is.
pub proof fn law_quarantine_entry_keeps_its_fields<C, P>(
    entry: LocalSyncQuarantineEntry<C, P>,
    name: String,
    reason: String,
)
    ensures
        sync_convert::quarantine_stored(entry, name, reason).record_id == entry.record_id,
        sync_convert::quarantine_stored(entry, name, reason).seq == entry.seq,
        sync_convert::quarantine_stored(entry, name, reason).revision_hlc == entry.revision_hlc,
        sync_convert::quarantine_stored(entry, name, reason).required_list_id == entry.required_list_id,
        sync_convert::quarantine_stored(entry, name, reason).first_failed_at == entry.first_failed_at,
        sync_convert::quarantine_stored(entry, name, reason).last_failed_at == entry.last_failed_at,
        sync_convert::quarantine_stored(entry, name, reason).attempt_count == entry.attempt_count,
        sync_convert::quarantine_stored(entry, name, reason).collection == name,
        sync_convert::quarantine_stored(entry, name, reason).reason == reason,
        entry.state is Live <==>
            sync_convert::quarantine_stored(entry, name, reason).state is Live,
        entry.state is Tombstone <==>
            sync_convert::quarantine_stored(entry, name, reason).state is Tombstone,
        entry.state is Live ==>
            sync_convert::quarantine_stored(entry, name, reason).state->mutation_hlc == entry.state->mutation_hlc
                && sync_convert::quarantine_stored(entry, name, reason).state->blob == entry.state->blob,
        entry.state is Tombstone ==>
            sync_convert::quarantine_stored(entry, name, reason).state->delete_hlc == entry.state->delete_hlc,
{
}

/// A stored quarantined record is loaded with the collection and the reason that its
/// names stand for and, under each other name, as it is.
pub proof fn law_quarantine_entry_is_loaded_field_by_field<C, P>(
    entry: SyncQuarantineEntry,
    collection: C,
    reason: P,
)
    ensures
        sync_convert::quarantine_loaded(entry, collection, reason).record_id == entry.record_id,
        sync_convert::quarantine_loaded(entry, collection, reason).seq == entry.seq,
        sync_convert::quarantine_loaded(entry, collection, reason).revision_hlc == entry.revision_hlc,
        sync_convert::quarantine_loaded(entry, collection, reason).required_list_id == entry.required_list_id,
        sync_convert::quarantine_loaded(entry, collection, reason).first_failed_at == entry.first_failed_at,
        sync_convert::quarantine_loaded(entry, collection, reason).last_failed_at == entry.last_failed_at,
        sync_convert::quarantine_loaded(entry, collection, reason).attempt_count == entry.attempt_count,
        sync_convert::quarantine_loaded(entry, collection, reason).collection == collection,
        sync_convert::quarantine_loaded(entry, collection, reason).reason == reason,
        entry.state is Live <==>
            sync_convert::quarantine_loaded(entry, collection, reason).state is Live,
        entry.state is Tombstone <==>
            sync_convert::quarantine_loaded(entry, collection, reason).state is Tombstone,
        entry.state is Live ==>
            sync_convert::quarantine_loaded(entry, collection, reason).state->mutation_hlc == entry.state->mutation_hlc
                && sync_convert::quarantine_loaded(entry, collection, reason).state->blob == entry.state->blob,
        entry.state is Tombstone ==>
            sync_convert::quarantine_loaded(entry, collection, reason).state->delete_hlc == entry.state->delete_hlc,
{
}

/// A stored record is loaded with its revision and, live or deleted, with its clock and
/// its text.
pub proof fn law_record_is_loaded_field_by_field(state: SyncRecordState)
    ensures
        sync_convert::record_loaded(state).current_revision_hlc == state.current_revision_hlc,
        state.state is Live <==> sync_convert::record_loaded(state).state is Live,
        state.state is Tombstone <==> sync_convert::record_loaded(state).state is Tombstone,
        state.state is Live ==>
            sync_convert::record_loaded(state).state->mutation_hlc == state.state->mutation_hlc
                && sync_convert::record_loaded(state).state->plaintext_json == state.state->plaintext_json,
        state.state is Tombstone ==>
            sync_convert::record_loaded(state).state->delete_hlc == state.state->delete_hlc,
{
}

/// A record is stored under the name of its collection and its identifier, with the
/// time of the update, its revision and, live or deleted, its clock and its text.
pub proof fn law_record_keeps_its_fields(
    name: String,
    record_id: Uuid,
    state: LocalSyncRecordState,
    updated_at: i64,
)
    ensures
        sync_convert::record_stored(name, record_id, state, updated_at).collection == name,
        sync_convert::record_stored(name, record_id, state, updated_at).record_id == record_id,
        sync_convert::record_stored(name, record_id, state, updated_at).updated_at == updated_at,
        sync_convert::record_stored(name, record_id, state, updated_at).current_revision_hlc == state.current_revision_hlc,
        state.state is Live <==>
            sync_convert::record_stored(name, record_id, state, updated_at).state is Live,
        state.state is Tombstone <==>
            sync_convert::record_stored(name, record_id, state, updated_at).state is Tombstone,
        state.state is Live ==>
            sync_convert::record_stored(name, record_id, state, updated_at).state->mutation_hlc == state.state->mutation_hlc
                && sync_convert::record_stored(name, record_id, state, updated_at).state->plaintext_json == state.state->plaintext_json,
        state.state is Tombstone ==>
            sync_convert::record_stored(name, record_id, state, updated_at).state->delete_hlc == state.state->delete_hlc,
{
}

/// The base and the sweep of a full resync are told as these; the delta waits for the
/// acknowledgement of the base as long as it is owed, and is the delta after that.
pub proof fn law_resync_phase_keeps_its_name(phase: FullResyncPhase, awaiting: bool)
    ensures
        phase is Base <==> sync_convert::phase_of(phase, awaiting) is Base,
        phase is Sweep <==> sync_convert::phase_of(phase, awaiting) is Sweep,
        phase is Delta && awaiting <==>
            sync_convert::phase_of(phase, awaiting) is BaseAwaitingAck,
        phase is Delta && !awaiting <==> sync_convert::phase_of(phase, awaiting) is Delta,
{
}

/// A busy database, a busy lease and a lost lease have words of their own, a changed
/// epoch of the profile those of a lost lease, and every other error the words that it
/// came with.
pub proof fn law_coordination_errors_have_fixed_words(error: StorageError, words: Seq<char>)
    ensures
        error is DatabaseBusy ==>
            sync_store::coordination_text(error, words) == "database busy"@,
        error is SyncLeaseBusy ==>
            sync_store::coordination_text(error, words) == "sync lease busy"@,
        error is SyncLeaseLost || error is ProfileRuntimeEpochChanged ==>
            sync_store::coordination_text(error, words) == "sync lease lost"@,
        !(error is DatabaseBusy || error is SyncLeaseBusy || error is SyncLeaseLost || error is ProfileRuntimeEpochChanged) ==>
            sync_store::coordination_text(error, words) == words,
{
}

/// Of the reads of lists, templates, schedules, tasks and finished timers, the first
/// that failed, in this order, is told.
pub proof fn law_first_failed_read_is_told(
    lists: Result<Vec<List>, StorageError>,
    templates: Result<Vec<TaskTemplate>, StorageError>,
    schedules: Result<Vec<TaskSeries>, StorageError>,
    tasks: Result<Vec<Task>, StorageError>,
    timer_sessions: Result<Vec<CompletedTimerSession>, StorageError>,
)
    ensures
        lists is Err ==>
            sync_store::first_failure(lists, templates, schedules, tasks, timer_sessions) == Some(lists->Err_0),
        lists is Ok && templates is Err ==>
            sync_store::first_failure(lists, templates, schedules, tasks, timer_sessions) == Some(templates->Err_0),
        lists is Ok && templates is Ok && schedules is Err ==>
            sync_store::first_failure(lists, templates, schedules, tasks, timer_sessions) == Some(schedules->Err_0),
        lists is Ok && templates is Ok && schedules is Ok && tasks is Err ==>
            sync_store::first_failure(lists, templates, schedules, tasks, timer_sessions) == Some(tasks->Err_0),
        lists is Ok
            && templates is Ok
            && schedules is Ok
            && tasks is Ok
            && timer_sessions is Err ==>
            sync_store::first_failure(lists, templates, schedules, tasks, timer_sessions) == Some(timer_sessions->Err_0),
        sync_store::first_failure(lists, templates, schedules, tasks, timer_sessions) is None <==>
            lists is Ok
                && templates is Ok
                && schedules is Ok
                && tasks is Ok
                && timer_sessions is Ok,
{
}

/// Aliases agree if and only if any two stand for one list and none is an alias of
/// itself.
pub proof fn law_aliases_of_one_list(aliases: Seq<LocalListAlias>)
    ensures
        sync_store::aliases_agree(aliases) <==>
            (forall|i: int, j: int| 0 <= i < aliases.len() && 0 <= j < aliases.len() ==> (#[trigger] aliases[i]).canonical_list_id == (#[trigger] aliases[j]).canonical_list_id && aliases[i].alias_list_id != aliases[j].canonical_list_id),
{
    if forall|i: int, j: int|
        0 <= i < aliases.len() && 0 <= j < aliases.len() ==> (#[trigger] aliases[i]).canonical_list_id
            == (#[trigger] aliases[j]).canonical_list_id && aliases[i].alias_list_id
            != aliases[j].canonical_list_id {
        assert forall|i: int| 0 <= i < aliases.len() implies (#[trigger] aliases[i]).canonical_list_id
            == aliases[0].canonical_list_id && aliases[i].alias_list_id
            != aliases[0].canonical_list_id by {
            let first = aliases[0];
        }
    }
}

/// A write is checked against its lease if and only if it has one and the runtime was
/// not replaced within it.
pub proof fn law_write_is_checked_until_the_cutover<L>(write: SqliteSyncWriteTx<L>)
    ensures
        write.is_checked() <==> write.lease is Some && !write.runtime_cutover,
{
}

/// A failed store is passed on and changes nothing; a store that succeeds hands its
/// context on, keeps the lease, and marks the write where the runtime changed, for
/// good.
pub proof fn law_stored_context_is_handed_on<L, T>(
    before: SqliteSyncWriteTx<L>,
    after: SqliteSyncWriteTx<L>,
    stored: Result<(T, bool), StorageError>,
    r: Result<T, StorageError>,
)
    requires
        before.persisted(after, stored, r),
    ensures
        stored is Err ==> r is Err && r->Err_0 == stored->Err_0 && after == before,
        stored is Ok ==> r is Ok && r->Ok_0 == stored->Ok_0.0 && after.lease == before.lease,
        stored is Ok ==> (after.runtime_cutover <==> before.runtime_cutover || stored->Ok_0.1),
{
}

/// A checked write asks for the lease that it has, and the answer is the answer; an
/// unchecked one asks for nothing.
pub proof fn law_lease_is_asserted_where_it_is_checked<
    L, A: FnOnce(&L) -> Result<(), StorageError>,
>(
    write: SqliteSyncWriteTx<L>,
    assert_lease: A,
    checked: Result<(), StorageError>,
)
    requires
        write.lease_checked(assert_lease, checked),
    ensures
        write.lease is Some && !write.runtime_cutover ==>
            assert_lease.ensures((&write.lease->Some_0,), checked),
        write.lease is None || write.runtime_cutover ==> checked is Ok,
{
}

/// A checked write asks for the lease that it has within its transaction; an unchecked
/// one asks for nothing.
pub proof fn law_lease_is_asserted_in_the_transaction<
    L, W, E, A: FnOnce(&W, &L) -> Result<(), E>,
>(
    write: SqliteSyncWriteTx<L>,
    transaction: W,
    assert_lease: A,
    checked: Result<(), E>,
)
    requires
        write.lease_checked_in(transaction, assert_lease, checked),
    ensures
        write.lease is Some && !write.runtime_cutover ==>
            assert_lease.ensures((&transaction, &write.lease->Some_0), checked),
        write.lease is None || write.runtime_cutover ==> checked is Ok,
{
}

/// Two stores differ in nothing but their lease where their coordination and their
/// preflight counts agree; a store is unfenced if and only if it is told to be and has
/// no lease.
pub proof fn law_store_keeps_what_the_lease_is_not<L>(
    one: SqliteSyncStore<L>,
    other: SqliteSyncStore<L>,
)
    ensures
        one.same_but_lease(other) <==>
            one.coordination == other.coordination
                && one.preflight_calls == other.preflight_calls
                && one.fail_preflight_on_call == other.fail_preflight_on_call,
        one.unfenced() <==> one.coordination is UnfencedProtocolHarness && one.lease is None,
{
}

/// A write that is committed was committed in its transaction, and where it is checked
/// its lease was held there; a lease that is lost is told and nothing is committed.
pub proof fn law_commit_follows_the_lease<
    L, W, E, A: FnOnce(&W, &L) -> Result<(), E>, C: FnOnce(W) -> Result<(), E>,
>(
    write: SqliteSyncWriteTx<L>,
    r: Result<(), E>,
    transaction: W,
    assert_lease: A,
    commit: C,
)
    requires
        write.committed(r, transaction, assert_lease, commit),
    ensures
        r is Ok ==> commit.ensures((transaction,), r),
        r is Ok && write.lease is Some && !write.runtime_cutover ==>
            exists|held: Result<(), E>| #[trigger] assert_lease.ensures((&transaction, &write.lease->Some_0), held)
                && held is Ok,
        r is Err && !(write.lease is Some && !write.runtime_cutover) ==>
            commit.ensures((transaction,), r),
        r is Err ==>
            commit.ensures((transaction,), r) || exists|held: Result<(), E>| #[trigger] assert_lease.ensures((&transaction, &write.lease->Some_0), held)
                && held is Err
                && held->Err_0 == r->Err_0,
{
    let checked = choose|checked: Result<(), E>| #[trigger] write.lease_checked_in(transaction, assert_lease, checked) && match checked {
        Err(error) => r == Err::<(), E>(error),
        Ok(_) => commit.ensures((transaction,), r),
    };
    if write.lease is Some && !write.runtime_cutover {
        assert(assert_lease.ensures((&transaction, &write.lease->Some_0), checked));
    }
}

/// A transaction that does not begin, and a write that fails, are told; a result that
/// is handed on was written in the transaction that began, which was then committed
/// under its fence.
pub proof fn law_written_result_is_handed_on<
    L, W, T, E, F: FnOnce(W) -> Result<(W, T), E>, A: FnOnce(&W, &L) -> Result<(), E>, C: FnOnce(W) -> Result<(), E>,
>(
    r: Result<T, E>,
    begun: Result<(W, SqliteSyncWriteTx<L>), E>,
    write: F,
    assert_lease: A,
    commit: C,
)
    requires
        sync_store::written_in(r, begun, write, assert_lease, commit),
    ensures
        begun is Err ==> r is Err && r->Err_0 == begun->Err_0,
        begun is Ok && r is Ok ==>
            exists|written: Result<(W, T), E>, done: Result<(), E>| #[trigger] write.ensures((begun->Ok_0.0,), written)
                && written is Ok
                && written->Ok_0.1 == r->Ok_0
                && #[trigger] begun->Ok_0.1.committed(done, written->Ok_0.0, assert_lease, commit)
                && done is Ok,
{
    if begun is Ok && r is Ok {
        let written = choose|written: Result<(W, T), E>| #[trigger] write.ensures((begun->Ok_0.0,), written) && sync_store::written_and_committed(r, begun->Ok_0.1, written, assert_lease, commit);
        let done = choose|done: Result<(), E>| #[trigger] begun->Ok_0.1.committed(done, written->Ok_0.0, assert_lease, commit) && match done {
            Err(error) => r == Err::<T, E>(error),
            Ok(_) => r == Ok::<T, E>(written->Ok_0.1),
        };
        assert(write.ensures((begun->Ok_0.0,), written));
        assert(begun->Ok_0.1.committed(done, written->Ok_0.0, assert_lease, commit));
    }
}

/// A store that needs a lease and has none begins no write. One that has a lease renews
/// it, begins, and asserts the renewed lease in the transaction, which is then fenced;
/// an unfenced one begins without. Whatever happens, nothing but the lease of the store
/// changes.
pub proof fn law_write_begins_under_the_lease<
    L, W, R: FnOnce(&L) -> Result<L, StorageError>, B: FnOnce() -> Result<W, StorageError>, A: FnOnce(&W, &L) -> Result<(), StorageError>,
>(
    before: SqliteSyncStore<L>,
    after: SqliteSyncStore<L>,
    r: Result<(W, bool), StorageError>,
    renew: R,
    begin: B,
    assert_lease: A,
)
    requires
        before.write_begun(after, r, renew, begin, assert_lease),
    ensures
        before.lease is None && before.coordination is LeaseRequired ==>
            r is Err
                && r->Err_0 is SyncLeaseLost
                && after == before,
        before.lease is None && before.coordination is UnfencedProtocolHarness ==>
            after == before,
        before.lease is None && before.coordination is UnfencedProtocolHarness && r is Ok ==>
            !r->Ok_0.1,
        before.lease is Some && r is Ok ==>
            r->Ok_0.1
                && after.lease is Some
                && exists|held: Result<(), StorageError>| #[trigger] assert_lease.ensures((&r->Ok_0.0, &after.lease->Some_0), held)
                && held is Ok,
        before.lease is Some && r is Ok ==>
            exists|renewed: Result<L, StorageError>| #[trigger] renew.ensures((&before.lease->Some_0,), renewed)
                && renewed is Ok
                && after.lease == Some(renewed->Ok_0),
        after.coordination == before.coordination,
        after.preflight_calls == before.preflight_calls,
        after.fail_preflight_on_call == before.fail_preflight_on_call,
        after.release_lease_on_drop == before.release_lease_on_drop,
{
    if before.lease is Some && r is Ok {
        let renewed = choose|renewed: Result<L, StorageError>| #[trigger] renew.ensures((&before.lease.unwrap(),), renewed) && match renewed {
            Err(error) => r is Err && r->Err_0 == error && after == before,
            Ok(lease) => after.lease == Some(lease) && sync_store::fenced_write_begun(r, lease, begin, assert_lease),
        };
        assert(renew.ensures((&before.lease->Some_0,), renewed));
        let lease = renewed->Ok_0;
        let begun = choose|begun: Result<W, StorageError>| #[trigger] begin.ensures((), begun) && match begun {
            Err(error) => r is Err && r->Err_0 == error,
            Ok(transaction) => exists|held: Result<(), StorageError>| #[trigger] assert_lease.ensures((&transaction, &lease), held) && match held {
                Err(error) => r is Err && r->Err_0 == error,
                Ok(()) => r == Ok::<(W, bool), StorageError>((transaction, true)),
            },
        };
        let transaction = begun->Ok_0;
        let held = choose|held: Result<(), StorageError>| #[trigger] assert_lease.ensures((&transaction, &lease), held) && match held {
            Err(error) => r is Err && r->Err_0 == error,
            Ok(()) => r == Ok::<(W, bool), StorageError>((transaction, true)),
        };
        assert(assert_lease.ensures((&r->Ok_0.0, &after.lease->Some_0), held));
    }
}

} // verus!
