//! Records of the sync engine and of the database, in both directions. Collections and
//! failure reasons are types of the engine; the database keeps their names.
use vstd::prelude::*;
use crate::ids::Uuid;
use crate::sync_store::LocalListAlias;

verus! {

/// What the engine keeps of a record: its ciphertext, or that it is gone.
#[derive(Debug, Clone, PartialEq, Eq)]
pub enum EncryptedSyncState {
    Live { mutation_hlc: String, blob: Vec<u8> },
    Tombstone { delete_hlc: String },
}

/// The same in the database.
#[derive(Debug, Clone, PartialEq, Eq)]
pub enum SyncOutboxState {
    Live { mutation_hlc: String, blob: Vec<u8> },
    Tombstone { delete_hlc: String },
}

impl EncryptedSyncState {
    pub open spec fn stored(self) -> SyncOutboxState {
        match self {
            EncryptedSyncState::Live { mutation_hlc, blob } => SyncOutboxState::Live {
                mutation_hlc,
                blob,
            },
            EncryptedSyncState::Tombstone { delete_hlc } => SyncOutboxState::Tombstone {
                delete_hlc,
            },
        }
    }

    fn into_stored(self) -> (r: SyncOutboxState)
        ensures
            r == self.stored(),
    {
        match self {
            EncryptedSyncState::Live { mutation_hlc, blob } => SyncOutboxState::Live {
                mutation_hlc,
                blob,
            },
            EncryptedSyncState::Tombstone { delete_hlc } => SyncOutboxState::Tombstone {
                delete_hlc,
            },
        }
    }
}

impl SyncOutboxState {
    pub open spec fn loaded(self) -> EncryptedSyncState {
        match self {
            SyncOutboxState::Live { mutation_hlc, blob } => EncryptedSyncState::Live {
                mutation_hlc,
                blob,
            },
            SyncOutboxState::Tombstone { delete_hlc } => EncryptedSyncState::Tombstone {
                delete_hlc,
            },
        }
    }

    fn into_local(self) -> (r: EncryptedSyncState)
        ensures
            r == self.loaded(),
    {
        match self {
            SyncOutboxState::Live { mutation_hlc, blob } => EncryptedSyncState::Live {
                mutation_hlc,
                blob,
            },
            SyncOutboxState::Tombstone { delete_hlc } => EncryptedSyncState::Tombstone {
                delete_hlc,
            },
        }
    }
}

/// A change on its way to the server; `C` is a collection.
#[derive(Debug, Clone, PartialEq, Eq)]
pub struct LocalSyncOutboxEntry<C> {
    pub op_id: Uuid,
    pub record_id: Uuid,
    pub collection: C,
    pub base_revision_hlc: Option<String>,
    pub revision_hlc: String,
    pub state: EncryptedSyncState,
    pub created_at: i64,
}

#[derive(Debug, Clone, PartialEq, Eq)]
pub struct SyncOutboxEntry {
    pub op_id: Uuid,
    pub record_id: Uuid,
    pub collection: String,
    pub base_revision_hlc: Option<String>,
    pub revision_hlc: String,
    pub state: SyncOutboxState,
    pub created_at: i64,
}

pub open spec fn outbox_stored<C>(
    entry: LocalSyncOutboxEntry<C>,
    collection_name: String,
) -> SyncOutboxEntry {
    SyncOutboxEntry {
        op_id: entry.op_id,
        record_id: entry.record_id,
        collection: collection_name,
        base_revision_hlc: entry.base_revision_hlc,
        revision_hlc: entry.revision_hlc,
        state: entry.state.stored(),
        created_at: entry.created_at,
    }
}

pub open spec fn outbox_loaded<C>(
    entry: SyncOutboxEntry,
    collection: C,
) -> LocalSyncOutboxEntry<C> {
    LocalSyncOutboxEntry {
        op_id: entry.op_id,
        record_id: entry.record_id,
        collection,
        base_revision_hlc: entry.base_revision_hlc,
        revision_hlc: entry.revision_hlc,
        state: entry.state.loaded(),
        created_at: entry.created_at,
    }
}

/// Prepares a change for the database.
pub fn local_outbox_to_storage<C>(
    entry: LocalSyncOutboxEntry<C>,
    collection_name: String,
) -> (r: SyncOutboxEntry)
    ensures
        r == outbox_stored(entry, collection_name),
{
    SyncOutboxEntry {
        op_id: entry.op_id,
        record_id: entry.record_id,
        collection: collection_name,
        base_revision_hlc: entry.base_revision_hlc,
        revision_hlc: entry.revision_hlc,
        state: entry.state.into_stored(),
        created_at: entry.created_at,
    }
}

/// Reads a change from the database; `collection` is what its collection's name stands
/// for.
pub fn storage_outbox_to_local<C>(entry: SyncOutboxEntry, collection: Result<C, String>) -> (r:
    Result<LocalSyncOutboxEntry<C>, String>)
    ensures
        match collection {
            Ok(known) => r is Ok && r->Ok_0 == outbox_loaded(entry, known),
            Err(error) => r is Err && r->Err_0 == error,
        },
{
    match collection {
        Err(error) => Err(error),
        Ok(known) => Ok(
            LocalSyncOutboxEntry {
                op_id: entry.op_id,
                record_id: entry.record_id,
                collection: known,
                base_revision_hlc: entry.base_revision_hlc,
                revision_hlc: entry.revision_hlc,
                state: entry.state.into_local(),
                created_at: entry.created_at,
            },
        ),
    }
}

/// A record that could not be applied; `C` is a collection, `P` a reason.
#[derive(Debug, Clone, PartialEq, Eq)]
pub struct LocalSyncQuarantineEntry<C, P> {
    pub record_id: Uuid,
    pub collection: C,
    pub seq: i64,
    pub revision_hlc: String,
    pub state: EncryptedSyncState,
    pub reason: P,
    pub required_list_id: Option<Uuid>,
    pub first_failed_at: i64,
    pub last_failed_at: i64,
    pub attempt_count: i64,
}

#[derive(Debug, Clone, PartialEq, Eq)]
pub struct SyncQuarantineEntry {
    pub record_id: Uuid,
    pub collection: String,
    pub seq: i64,
    pub revision_hlc: String,
    pub state: SyncOutboxState,
    pub reason: String,
    pub required_list_id: Option<Uuid>,
    pub first_failed_at: i64,
    pub last_failed_at: i64,
    pub attempt_count: i64,
}

pub open spec fn quarantine_stored<C, P>(
    entry: LocalSyncQuarantineEntry<C, P>,
    collection_name: String,
    reason_name: String,
) -> SyncQuarantineEntry {
    SyncQuarantineEntry {
        record_id: entry.record_id,
        collection: collection_name,
        seq: entry.seq,
        revision_hlc: entry.revision_hlc,
        state: entry.state.stored(),
        reason: reason_name,
        required_list_id: entry.required_list_id,
        first_failed_at: entry.first_failed_at,
        last_failed_at: entry.last_failed_at,
        attempt_count: entry.attempt_count,
    }
}

pub open spec fn quarantine_loaded<C, P>(
    entry: SyncQuarantineEntry,
    collection: C,
    reason: P,
) -> LocalSyncQuarantineEntry<C, P> {
    LocalSyncQuarantineEntry {
        record_id: entry.record_id,
        collection,
        seq: entry.seq,
        revision_hlc: entry.revision_hlc,
        state: entry.state.loaded(),
        reason,
        required_list_id: entry.required_list_id,
        first_failed_at: entry.first_failed_at,
        last_failed_at: entry.last_failed_at,
        attempt_count: entry.attempt_count,
    }
}

/// Prepares a quarantined record for the database.
pub fn local_quarantine_to_storage<C, P>(
    entry: LocalSyncQuarantineEntry<C, P>,
    collection_name: String,
    reason_name: String,
) -> (r: SyncQuarantineEntry)
    ensures
        r == quarantine_stored(entry, collection_name, reason_name),
{
    SyncQuarantineEntry {
        record_id: entry.record_id,
        collection: collection_name,
        seq: entry.seq,
        revision_hlc: entry.revision_hlc,
        state: entry.state.into_stored(),
        reason: reason_name,
        required_list_id: entry.required_list_id,
        first_failed_at: entry.first_failed_at,
        last_failed_at: entry.last_failed_at,
        attempt_count: entry.attempt_count,
    }
}

/// Reads a quarantined record from the database.
pub fn storage_quarantine_to_local<C, P>(
    entry: SyncQuarantineEntry,
    collection: Result<C, String>,
    reason: Result<P, String>,
) -> (r: Result<LocalSyncQuarantineEntry<C, P>, String>)
    ensures
        match collection {
            Err(error) => r is Err && r->Err_0 == error,
            Ok(known) => match reason {
                Err(error) => r is Err && r->Err_0 == error,
                Ok(why) => r is Ok && r->Ok_0 == quarantine_loaded(entry, known, why),
            },
        },
{
    let known = match collection {
        Err(error) => {
            return Err(error);
        },
        Ok(known) => known,
    };
    let why = match reason {
        Err(error) => {
            return Err(error);
        },
        Ok(why) => why,
    };
    Ok(
        LocalSyncQuarantineEntry {
            record_id: entry.record_id,
            collection: known,
            seq: entry.seq,
            revision_hlc: entry.revision_hlc,
            state: entry.state.into_local(),
            reason: why,
            required_list_id: entry.required_list_id,
            first_failed_at: entry.first_failed_at,
            last_failed_at: entry.last_failed_at,
            attempt_count: entry.attempt_count,
        },
    )
}

/// What is known of a record in the clear.
#[derive(Debug, Clone, PartialEq, Eq)]
pub enum LocalSyncSemanticState {
    Live { mutation_hlc: String, plaintext_json: String },
    Tombstone { delete_hlc: String },
}

#[derive(Debug, Clone, PartialEq, Eq)]
pub enum SyncRecordSemanticState {
    Live { mutation_hlc: String, plaintext_json: String },
    Tombstone { delete_hlc: String },
}

#[derive(Debug, Clone, PartialEq, Eq)]
pub struct LocalSyncRecordState {
    pub current_revision_hlc: Option<String>,
    pub state: LocalSyncSemanticState,
}

#[derive(Debug, Clone, PartialEq, Eq)]
pub struct SyncRecordState {
    pub record_id: Uuid,
    pub collection: String,
    pub current_revision_hlc: Option<String>,
    pub state: SyncRecordSemanticState,
    pub updated_at: i64,
}

pub open spec fn record_loaded(state: SyncRecordState) -> LocalSyncRecordState {
    LocalSyncRecordState {
        current_revision_hlc: state.current_revision_hlc,
        state: match state.state {
            SyncRecordSemanticState::Live { mutation_hlc, plaintext_json } =>
                LocalSyncSemanticState::Live { mutation_hlc, plaintext_json },
            SyncRecordSemanticState::Tombstone { delete_hlc } =>
                LocalSyncSemanticState::Tombstone { delete_hlc },
        },
    }
}

pub open spec fn record_stored(
    collection_name: String,
    record_id: Uuid,
    state: LocalSyncRecordState,
    updated_at: i64,
) -> SyncRecordState {
    SyncRecordState {
        record_id,
        collection: collection_name,
        current_revision_hlc: state.current_revision_hlc,
        state: match state.state {
            LocalSyncSemanticState::Live { mutation_hlc, plaintext_json } =>
                SyncRecordSemanticState::Live { mutation_hlc, plaintext_json },
            LocalSyncSemanticState::Tombstone { delete_hlc } =>
                SyncRecordSemanticState::Tombstone { delete_hlc },
        },
        updated_at,
    }
}

/// Reads the state of a record from the database.
pub fn storage_record_to_local(state: SyncRecordState) -> (r: LocalSyncRecordState)
    ensures
        r == record_loaded(state),
{
    LocalSyncRecordState {
        current_revision_hlc: state.current_revision_hlc,
        state: match state.state {
            SyncRecordSemanticState::Live { mutation_hlc, plaintext_json } =>
                LocalSyncSemanticState::Live { mutation_hlc, plaintext_json },
            SyncRecordSemanticState::Tombstone { delete_hlc } =>
                LocalSyncSemanticState::Tombstone { delete_hlc },
        },
    }
}

/// Prepares the state of a record for the database.
pub fn local_record_to_storage(
    collection_name: String,
    record_id: Uuid,
    state: LocalSyncRecordState,
    updated_at: i64,
) -> (r: SyncRecordState)
    ensures
        r == record_stored(collection_name, record_id, state, updated_at),
{
    SyncRecordState {
        record_id,
        collection: collection_name,
        current_revision_hlc: state.current_revision_hlc,
        state: match state.state {
            LocalSyncSemanticState::Live { mutation_hlc, plaintext_json } =>
                SyncRecordSemanticState::Live { mutation_hlc, plaintext_json },
            LocalSyncSemanticState::Tombstone { delete_hlc } =>
                SyncRecordSemanticState::Tombstone { delete_hlc },
        },
        updated_at,
    }
}

/// Reads the states of a collection, each with the record it belongs to.
pub fn list_record_states(states: Vec<SyncRecordState>) -> (r: Vec<(Uuid, LocalSyncRecordState)>)
    ensures
        r@ == states@.map_values(
            |state: SyncRecordState| (state.record_id, record_loaded(state)),
        ),
{
    let ghost every = states@;
    let mut loaded: Vec<(Uuid, LocalSyncRecordState)> = Vec::new();
    for state in iter: states
        invariant
            iter.seq() == every,
            loaded@ == every.take(iter.index() as int).map_values(
                |state: SyncRecordState| (state.record_id, record_loaded(state)),
            ),
    {
        let record_id: Uuid = state.record_id;
        proof {
            let at = iter.index() as int;
            assert(state == every[at]);
            assert(every.take(at + 1) =~= every.take(at).push(state));
        }
        loaded.push((record_id, storage_record_to_local(state)));
        proof {
            assert(loaded@ =~= every.take(iter.index() as int + 1).map_values(
                |state: SyncRecordState| (state.record_id, record_loaded(state)),
            ));
        }
    }
    proof {
        assert(every.take(every.len() as int) =~= every);
    }
    loaded
}

/// A place in the order of all records.
#[derive(Debug, Clone, PartialEq, Eq)]
pub struct StableCursor<C> {
    pub collection: C,
    pub record_id: Uuid,
}

#[derive(Debug, Clone, PartialEq, Eq)]
pub struct FullResyncStableCursor {
    pub collection: String,
    pub record_id: Uuid,
}

pub fn local_cursor_to_storage<C>(cursor: &StableCursor<C>, collection_name: String) -> (r:
    FullResyncStableCursor)
    ensures
        r.collection == collection_name,
        r.record_id == cursor.record_id,
{
    FullResyncStableCursor { collection: collection_name, record_id: cursor.record_id }
}

/// Reads a cursor; the database only keeps names of collections that exist.
pub fn storage_cursor_to_local<C>(cursor: FullResyncStableCursor, collection: C) -> (r:
    StableCursor<C>)
    ensures
        r.collection == collection,
        r.record_id == cursor.record_id,
{
    StableCursor { collection, record_id: cursor.record_id }
}

/// How far a full resync got, as the database keeps it.
#[derive(Debug, Clone, Copy, PartialEq, Eq, Structural)]
pub enum FullResyncPhase {
    Base,
    Delta,
    Sweep,
}

/// How far a full resync got, as the engine sees it. A base that is complete still waits
/// until the server was told.
#[derive(Debug, Clone, Copy, PartialEq, Eq, Structural)]
pub enum LocalFullResyncPhase {
    Base,
    BaseAwaitingAck,
    Delta,
    Sweep,
}

pub open spec fn phase_of(phase: FullResyncPhase, awaiting_base_ack: bool) -> LocalFullResyncPhase {
    match phase {
        FullResyncPhase::Base => LocalFullResyncPhase::Base,
        FullResyncPhase::Delta => if awaiting_base_ack {
            LocalFullResyncPhase::BaseAwaitingAck
        } else {
            LocalFullResyncPhase::Delta
        },
        FullResyncPhase::Sweep => LocalFullResyncPhase::Sweep,
    }
}

#[derive(Debug, Clone, PartialEq, Eq)]
pub struct FullResyncProgress<K> {
    pub generation_id: Uuid,
    pub continuity_generation: i64,
    pub phase: FullResyncPhase,
    pub base_seq: i64,
    pub base_cursor: Option<K>,
    pub delta_cursor: i64,
    pub closure_high_water: Option<i64>,
    pub sweep_cursor: Option<K>,
}

#[derive(Debug, Clone, PartialEq, Eq)]
pub struct LocalFullResyncProgress<K> {
    pub generation_id: Uuid,
    pub continuity_generation: i64,
    pub phase: LocalFullResyncPhase,
    pub base_seq: i64,
    pub base_cursor: Option<K>,
    pub delta_cursor: i64,
    pub closure_high_water: Option<i64>,
    pub sweep_cursor: Option<K>,
}

/// Reads the progress of a full resync. A completion token that is not empty means that
/// the server was not told yet; `K` is a cursor as the engine has it.
pub fn storage_resync_to_local<K>(
    progress: FullResyncProgress<K>,
    completion_token: &Option<String>,
) -> (r: LocalFullResyncProgress<K>)
    ensures
        r.generation_id == progress.generation_id,
        r.continuity_generation == progress.continuity_generation,
        r.phase == phase_of(
            progress.phase,
            completion_token is Some && completion_token.unwrap()@.len() > 0,
        ),
        r.base_seq == progress.base_seq,
        r.base_cursor == progress.base_cursor,
        r.delta_cursor == progress.delta_cursor,
        r.closure_high_water == progress.closure_high_water,
        r.sweep_cursor == progress.sweep_cursor,
{
    let awaiting_base_ack: bool = match completion_token {
        Some(token) => !token.as_str().is_empty(),
        None => false,
    };
    let phase: LocalFullResyncPhase = match progress.phase {
        FullResyncPhase::Base => LocalFullResyncPhase::Base,
        FullResyncPhase::Delta => if awaiting_base_ack {
            LocalFullResyncPhase::BaseAwaitingAck
        } else {
            LocalFullResyncPhase::Delta
        },
        FullResyncPhase::Sweep => LocalFullResyncPhase::Sweep,
    };
    LocalFullResyncProgress {
        generation_id: progress.generation_id,
        continuity_generation: progress.continuity_generation,
        phase,
        base_seq: progress.base_seq,
        base_cursor: progress.base_cursor,
        delta_cursor: progress.delta_cursor,
        closure_high_water: progress.closure_high_water,
        sweep_cursor: progress.sweep_cursor,
    }
}

/// What a sweep removed.
#[derive(Debug, Clone, Copy, PartialEq, Eq, Structural)]
pub struct FullResyncSweepSummary {
    pub scanned_records: usize,
    pub swept_lists: usize,
    pub swept_tasks: usize,
    pub swept_templates: usize,
    pub swept_task_series: usize,
    pub swept_timer_sessions: usize,
    pub swept_record_states: usize,
}

#[derive(Debug, Clone, Copy, PartialEq, Eq, Structural)]
pub struct LocalFullResyncSweepSummary {
    pub scanned_records: usize,
    pub swept_lists: usize,
    pub swept_tasks: usize,
    pub swept_templates: usize,
    pub swept_task_series: usize,
    pub swept_timer_sessions: usize,
    pub swept_record_states: usize,
}

pub fn storage_sweep_to_local(summary: FullResyncSweepSummary) -> (r: LocalFullResyncSweepSummary)
    ensures
        r.scanned_records == summary.scanned_records,
        r.swept_lists == summary.swept_lists,
        r.swept_tasks == summary.swept_tasks,
        r.swept_templates == summary.swept_templates,
        r.swept_task_series == summary.swept_task_series,
        r.swept_timer_sessions == summary.swept_timer_sessions,
        r.swept_record_states == summary.swept_record_states,
{
    LocalFullResyncSweepSummary {
        scanned_records: summary.scanned_records,
        swept_lists: summary.swept_lists,
        swept_tasks: summary.swept_tasks,
        swept_templates: summary.swept_templates,
        swept_task_series: summary.swept_task_series,
        swept_timer_sessions: summary.swept_timer_sessions,
        swept_record_states: summary.swept_record_states,
    }
}

/// A list alias as the database keeps it.
#[derive(Debug, Clone, Copy, PartialEq, Eq, Structural)]
pub struct ListAlias {
    pub alias_list_id: Uuid,
    pub canonical_list_id: Uuid,
    pub updated_at: i64,
}

pub fn storage_alias_to_local(alias: ListAlias) -> (r: LocalListAlias)
    ensures
        r.alias_list_id == alias.alias_list_id,
        r.canonical_list_id == alias.canonical_list_id,
{
    LocalListAlias {
        alias_list_id: alias.alias_list_id,
        canonical_list_id: alias.canonical_list_id,
    }
}

/// What the engine stores it reads back: changes, quarantined records and record states
/// come out of the database as they went in, as long as the names of collections and
/// reasons are read back as what they name.
pub proof fn law_stored_records_read_back<C, P>(
    change: LocalSyncOutboxEntry<C>,
    quarantined: LocalSyncQuarantineEntry<C, P>,
    record_id: Uuid,
    state: LocalSyncRecordState,
    collection_name: String,
    reason_name: String,
    updated_at: i64,
)
    ensures
        outbox_loaded(outbox_stored(change, collection_name), change.collection) == change,
        quarantine_loaded(
            quarantine_stored(quarantined, collection_name, reason_name),
            quarantined.collection,
            quarantined.reason,
        ) == quarantined,
        record_loaded(record_stored(collection_name, record_id, state, updated_at)) == state,
{
}

} // verus!
