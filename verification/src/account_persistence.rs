//! In what order an account is made durable: which step follows which, what a failed
//! step comes to, and that the credential is always published last.
use vstd::prelude::*;
use crate::error::ClientError;

verus! {

/// What a step came to.
#[derive(Debug, Clone, Copy, PartialEq, Eq, Structural)]
pub enum StepResult {
    Completed,
    Failed(ClientError),
}

/// The steps that bind the sync clock and the pending changes to a device. All of them
/// belong to one transaction.
#[derive(Debug, Clone, Copy, PartialEq, Eq, Structural)]
pub enum RebindStep {
    BeginTransaction,
    RebindDevice,
    StoreDeviceId,
    Commit,
    Done,
    Failed(ClientError),
}

/// What follows a step of a rebinding. Whatever goes wrong is a sync failure, and a
/// transaction that does not get to its commit leaves nothing behind.
pub open spec fn next_rebind_step(step: RebindStep, result: StepResult) -> RebindStep {
    match (step, result) {
        (RebindStep::Done, _) => step,
        (RebindStep::Failed(_), _) => step,
        (_, StepResult::Failed(_)) => RebindStep::Failed(ClientError::Sync),
        (RebindStep::BeginTransaction, _) => RebindStep::RebindDevice,
        (RebindStep::RebindDevice, _) => RebindStep::StoreDeviceId,
        (RebindStep::StoreDeviceId, _) => RebindStep::Commit,
        (RebindStep::Commit, _) => RebindStep::Done,
    }
}

pub fn rebind_sync_device(step: RebindStep, result: StepResult) -> (r: RebindStep)
    ensures
        r == next_rebind_step(step, result),
{
    match (step, result) {
        (RebindStep::Done, _) => step,
        (RebindStep::Failed(_), _) => step,
        (_, StepResult::Failed(_)) => RebindStep::Failed(ClientError::Sync),
        (RebindStep::BeginTransaction, _) => RebindStep::RebindDevice,
        (RebindStep::RebindDevice, _) => RebindStep::StoreDeviceId,
        (RebindStep::StoreDeviceId, _) => RebindStep::Commit,
        (RebindStep::Commit, _) => RebindStep::Done,
    }
}

/// The steps that make an account durable.
#[derive(Debug, Clone, Copy, PartialEq, Eq, Structural)]
pub enum PersistStep {
    RebindDevice,
    PersistCrypto,
    StoreWrappedMasterKey,
    StoreEmail,
    StoreUserId,
    StoreTenantId,
    StoreDeviceId,
    StoreRootPublic,
    StoreMasterKeyGeneration,
    StoreWrappedRoot,
    PublishCredential,
    Done,
    Failed(ClientError),
}

/// How far a persisting account has come.
pub open spec fn persist_rank(step: PersistStep) -> nat {
    match step {
        PersistStep::RebindDevice => 0,
        PersistStep::PersistCrypto => 1,
        PersistStep::StoreWrappedMasterKey => 2,
        PersistStep::StoreEmail => 3,
        PersistStep::StoreUserId => 4,
        PersistStep::StoreTenantId => 5,
        PersistStep::StoreDeviceId => 6,
        PersistStep::StoreRootPublic => 7,
        PersistStep::StoreMasterKeyGeneration => 8,
        PersistStep::StoreWrappedRoot => 9,
        PersistStep::PublishCredential => 10,
        PersistStep::Done => 11,
        PersistStep::Failed(_) => 12,
    }
}

/// What follows a step that was completed.
pub open spec fn after_persist_step(step: PersistStep) -> PersistStep {
    match step {
        PersistStep::RebindDevice => PersistStep::PersistCrypto,
        PersistStep::PersistCrypto => PersistStep::StoreWrappedMasterKey,
        PersistStep::StoreWrappedMasterKey => PersistStep::StoreEmail,
        PersistStep::StoreEmail => PersistStep::StoreUserId,
        PersistStep::StoreUserId => PersistStep::StoreTenantId,
        PersistStep::StoreTenantId => PersistStep::StoreDeviceId,
        PersistStep::StoreDeviceId => PersistStep::StoreRootPublic,
        PersistStep::StoreRootPublic => PersistStep::StoreMasterKeyGeneration,
        PersistStep::StoreMasterKeyGeneration => PersistStep::StoreWrappedRoot,
        PersistStep::StoreWrappedRoot => PersistStep::PublishCredential,
        PersistStep::PublishCredential => PersistStep::Done,
        PersistStep::Done => PersistStep::Done,
        PersistStep::Failed(error) => PersistStep::Failed(error),
    }
}

/// What follows a step of persisting an account.
pub open spec fn next_persist_step(step: PersistStep, result: StepResult) -> PersistStep {
    match (step, result) {
        (PersistStep::Done, _) => step,
        (PersistStep::Failed(_), _) => step,
        (_, StepResult::Failed(error)) => PersistStep::Failed(error),
        (_, StepResult::Completed) => after_persist_step(step),
    }
}

pub fn persist_account_step(step: PersistStep, result: StepResult) -> (r: PersistStep)
    ensures
        r == next_persist_step(step, result),
{
    match (step, result) {
        (PersistStep::Done, _) => step,
        (PersistStep::Failed(_), _) => step,
        (_, StepResult::Failed(error)) => PersistStep::Failed(error),
        (PersistStep::RebindDevice, _) => PersistStep::PersistCrypto,
        (PersistStep::PersistCrypto, _) => PersistStep::StoreWrappedMasterKey,
        (PersistStep::StoreWrappedMasterKey, _) => PersistStep::StoreEmail,
        (PersistStep::StoreEmail, _) => PersistStep::StoreUserId,
        (PersistStep::StoreUserId, _) => PersistStep::StoreTenantId,
        (PersistStep::StoreTenantId, _) => PersistStep::StoreDeviceId,
        (PersistStep::StoreDeviceId, _) => PersistStep::StoreRootPublic,
        (PersistStep::StoreRootPublic, _) => PersistStep::StoreMasterKeyGeneration,
        (PersistStep::StoreMasterKeyGeneration, _) => PersistStep::StoreWrappedRoot,
        (PersistStep::StoreWrappedRoot, _) => PersistStep::PublishCredential,
        (PersistStep::PublishCredential, _) => PersistStep::Done,
    }
}

/// The step that a run of results leads to.
pub open spec fn persist_run(step: PersistStep, results: Seq<StepResult>) -> PersistStep
    decreases results.len(),
{
    if results.len() == 0 {
        step
    } else {
        next_persist_step(persist_run(step, results.drop_last()), results.last())
    }
}

proof fn lemma_persist_run(results: Seq<StepResult>)
    ensures
        !(persist_run(PersistStep::RebindDevice, results) is Failed) ==> {
            &&& forall|i: int|
                0 <= i < results.len() && i < 11 ==> #[trigger] results[i] == StepResult::Completed
            &&& persist_rank(persist_run(PersistStep::RebindDevice, results)) == if results.len()
                <= 11 {
                results.len()
            } else {
                11
            }
        },
    decreases results.len(),
{
    if results.len() > 0 {
        let shorter = results.drop_last();
        lemma_persist_run(shorter);
        let before = persist_run(PersistStep::RebindDevice, shorter);
        if !(persist_run(PersistStep::RebindDevice, results) is Failed) {
            assert(!(before is Failed));
            assert forall|i: int| 0 <= i < results.len() && i < 11 implies #[trigger] results[i]
                == StepResult::Completed by {
                if i < shorter.len() {
                    assert(shorter[i] == results[i]);
                } else {
                    assert(persist_rank(before) == i);
                }
            }
        }
    }
}

/// The credential is published only after everything else is durable, and an account
/// counts as persisted only after the credential is: until then a login that waits can
/// be taken up again.
pub proof fn law_credential_is_published_last(results: Seq<StepResult>)
    ensures
        persist_run(PersistStep::RebindDevice, results) is PublishCredential ==> results.len() == 10
            && forall|i: int| 0 <= i < 10 ==> #[trigger] results[i] == StepResult::Completed,
        persist_run(PersistStep::RebindDevice, results) is Done ==> results.len() >= 11
            && forall|i: int| 0 <= i < 11 ==> #[trigger] results[i] == StepResult::Completed,
{
    lemma_persist_run(results);
}

proof fn lemma_done_stays_done(results: Seq<StepResult>, k: int)
    requires
        0 <= k <= results.len(),
        persist_run(PersistStep::RebindDevice, results.take(k)) is Done,
    ensures
        persist_run(PersistStep::RebindDevice, results) is Done,
    decreases results.len(),
{
    if k == results.len() {
        assert(results.take(k) =~= results);
    } else {
        assert(results.drop_last().take(k) =~= results.take(k));
        lemma_done_stays_done(results.drop_last(), k);
    }
}

proof fn lemma_completed_run(n: nat)
    requires
        n <= 11,
    ensures
        persist_rank(
            persist_run(
                PersistStep::RebindDevice,
                Seq::new(n, |i: int| StepResult::Completed),
            ),
        ) == n,
    decreases n,
{
    if n > 0 {
        let results = Seq::new(n, |i: int| StepResult::Completed);
        let shorter = Seq::new((n - 1) as nat, |i: int| StepResult::Completed);
        assert(results.drop_last() =~= shorter);
        lemma_completed_run((n - 1) as nat);
    }
}

/// Where a run fails, the credential was published at no point of it, and a later run that
/// starts over can still complete.
pub proof fn law_failed_run_publishes_nothing(results: Seq<StepResult>)
    requires
        persist_run(PersistStep::RebindDevice, results) is Failed,
    ensures
        forall|k: int|
            0 <= k <= results.len() ==> !(persist_run(
                PersistStep::RebindDevice,
                #[trigger] results.take(k),
            ) is Done),
        persist_run(PersistStep::RebindDevice, Seq::new(11, |i: int| StepResult::Completed))
            is Done,
{
    assert forall|k: int| 0 <= k <= results.len() implies !(persist_run(
        PersistStep::RebindDevice,
        #[trigger] results.take(k),
    ) is Done) by {
        if persist_run(PersistStep::RebindDevice, results.take(k)) is Done {
            lemma_done_stays_done(results, k);
        }
    }
    lemma_completed_run(11);
}

/// A rebinding is done only after its transaction was committed, and the commit comes
/// only after both the clock and the stored device were moved.
pub proof fn law_rebinding_is_one_transaction(step: RebindStep, result: StepResult)
    ensures
        next_rebind_step(step, result) is Done && !(step is Done) ==> step is Commit
            && result is Completed,
        next_rebind_step(step, result) is Commit ==> step is StoreDeviceId && result is Completed,
        next_rebind_step(step, result) is StoreDeviceId ==> step is RebindDevice
            && result is Completed,
        !(step is Done) && !(step is Failed) && result is Failed ==> next_rebind_step(step, result)
            == RebindStep::Failed(ClientError::Sync),
{
}

/// The steps of a registration.
#[derive(Debug, Clone, Copy, PartialEq, Eq, Structural)]
pub enum RegistrationStep {
    CheckUnbound,
    Register,
    StoreDeviceIdentity,
    PersistAccount,
    StoreServer,
    ReplaceRuntime,
    Done,
    Failed(ClientError),
}

/// What follows a step of a registration. What the server refuses is an account error,
/// whatever the reason.
pub open spec fn next_registration_step(
    step: RegistrationStep,
    result: StepResult,
) -> RegistrationStep {
    match (step, result) {
        (RegistrationStep::Done, _) => step,
        (RegistrationStep::Failed(_), _) => step,
        (RegistrationStep::Register, StepResult::Failed(_)) => RegistrationStep::Failed(
            ClientError::AccountRequest,
        ),
        (_, StepResult::Failed(error)) => RegistrationStep::Failed(error),
        (RegistrationStep::CheckUnbound, _) => RegistrationStep::Register,
        (RegistrationStep::Register, _) => RegistrationStep::StoreDeviceIdentity,
        (RegistrationStep::StoreDeviceIdentity, _) => RegistrationStep::PersistAccount,
        (RegistrationStep::PersistAccount, _) => RegistrationStep::StoreServer,
        (RegistrationStep::StoreServer, _) => RegistrationStep::ReplaceRuntime,
        (RegistrationStep::ReplaceRuntime, _) => RegistrationStep::Done,
    }
}

pub fn account_register(step: RegistrationStep, result: StepResult) -> (r: RegistrationStep)
    ensures
        r == next_registration_step(step, result),
{
    match (step, result) {
        (RegistrationStep::Done, _) => step,
        (RegistrationStep::Failed(_), _) => step,
        (RegistrationStep::Register, StepResult::Failed(_)) => RegistrationStep::Failed(
            ClientError::AccountRequest,
        ),
        (_, StepResult::Failed(error)) => RegistrationStep::Failed(error),
        (RegistrationStep::CheckUnbound, _) => RegistrationStep::Register,
        (RegistrationStep::Register, _) => RegistrationStep::StoreDeviceIdentity,
        (RegistrationStep::StoreDeviceIdentity, _) => RegistrationStep::PersistAccount,
        (RegistrationStep::PersistAccount, _) => RegistrationStep::StoreServer,
        (RegistrationStep::StoreServer, _) => RegistrationStep::ReplaceRuntime,
        (RegistrationStep::ReplaceRuntime, _) => RegistrationStep::Done,
    }
}

/// Nobody registers on a profile that may already be bound to an account.
pub proof fn law_registration_needs_an_unbound_profile(step: RegistrationStep, result: StepResult)
    ensures
        next_registration_step(step, result) is Register ==> step is CheckUnbound
            && result is Completed,
{
}

/// Puts the wrapped master key into the active key capsule. A profile without an
/// active capsule has lost its local keys.
pub fn store_active_wrapped_master_key<
    C,
    W: FnOnce(C, Vec<u8>) -> Option<C>,
    S: FnOnce(C) -> bool,
>(
    active: Option<Option<C>>,
    wrapped_master_key: Vec<u8>,
    with_wrapped_key: W,
    store: S,
) -> (r: Result<(), ClientError>)
    requires
        active matches Some(Some(capsule)) ==> with_wrapped_key.requires(
            (capsule, wrapped_master_key),
        ),
        active matches Some(Some(capsule)) ==> forall|next: C| #[trigger]
            with_wrapped_key.ensures((capsule, wrapped_master_key), Some(next))
                ==> store.requires((next,)),
    ensures
        match active {
            None => r == Err::<(), ClientError>(ClientError::KeyStore),
            Some(None) => r == Err::<(), ClientError>(ClientError::LocalKeyState),
            Some(Some(capsule)) => exists|updated: Option<C>| #[trigger]
                with_wrapped_key.ensures((capsule, wrapped_master_key), updated) && match updated {
                    None => r == Err::<(), ClientError>(ClientError::KeyStore),
                    Some(next) => exists|stored: bool| #[trigger]
                        store.ensures((next,), stored) && (r is Ok == stored) && (!stored ==> r
                            == Err::<(), ClientError>(ClientError::KeyStore)),
                },
        },
{
    let capsule = match active {
        None => {
            return Err(ClientError::KeyStore);
        },
        Some(None) => {
            return Err(ClientError::LocalKeyState);
        },
        Some(Some(capsule)) => capsule,
    };
    let updated = with_wrapped_key(capsule, wrapped_master_key);
    proof {
        assert(with_wrapped_key.ensures((capsule, wrapped_master_key), updated));
    }
    let next = match updated {
        None => {
            return Err(ClientError::KeyStore);
        },
        Some(next) => next,
    };
    let stored: bool = store(next);
    proof {
        assert(store.ensures((next,), stored));
    }
    if stored {
        Ok(())
    } else {
        Err(ClientError::KeyStore)
    }
}

} // verus!
