//! The runtime of an open profile: which server it talks to, which key generation and
//! epoch it has loaded, and when what it loaded is out of date.
use vstd::prelude::*;
use vstd::string::*;
use crate::account_runtime;
use crate::account_runtime::AccountRuntimeState;
use crate::error::{ClientError, StorageError};
use crate::text::str_eq;

verus! {

/// How one local encrypted profile is opened.
///
/// This selects local persistence and bootstrap values only; account identity,
/// credentials and session state are not configuration.
#[derive(Debug, Clone)]
pub struct LocalProfileConfig {
    pub db_dir: String,
    pub default_inbox_name: String,
}

impl LocalProfileConfig {
    pub fn new(db_dir: String, default_inbox_name: String) -> (r: LocalProfileConfig)
        ensures
            r.db_dir == db_dir,
            r.default_inbox_name == default_inbox_name,
    {
        LocalProfileConfig { db_dir, default_inbox_name }
    }
}

/// The server that a profile talks to when nothing else was chosen.
pub fn default_sync_server_url() -> (r: &'static str)
    ensures
        r@ == "http://localhost:3000"@,
{
    "http://localhost:3000"
}

/// What the canonical form of a server's address may come to.
pub open spec fn canonical<O: Fn(&str) -> Option<String>>(
    canonical_origin: O,
    address: Seq<char>,
    origin: Option<String>,
) -> bool {
    exists|asked: &str| asked@ == address && #[trigger] canonical_origin.ensures((asked,), origin)
}

/// Brings a server's address into its canonical form.
pub fn canonical_of<O: Fn(&str) -> Option<String>>(canonical_origin: &O, address: &str) -> (r:
    Option<String>)
    requires
        canonical_origin.requires((address,)),
    ensures
        canonical(*canonical_origin, address@, r),
{
    let origin = canonical_origin(address);
    proof {
        assert(canonical_origin.ensures((address,), origin));
    }
    origin
}

/// The address that is looked at: the stored one or, without one, the default.
pub open spec fn requested_server(stored: Option<String>) -> Seq<char> {
    match stored {
        Some(address) => address@,
        None => "http://localhost:3000"@,
    }
}

/// The server of a profile whose credential was issued by a server with the canonical
/// form `bound`.
pub open spec fn bound_server(
    r: Result<String, ClientError>,
    stored: Option<String>,
    origin: String,
    bound: Option<String>,
) -> bool {
    match bound {
        None => r is Err && r->Err_0 == ClientError::AccountRequest,
        Some(server) => if stored is Some && origin@ != server@ {
            r is Err && r->Err_0 == ClientError::AccountRequest
        } else {
            r is Ok && r->Ok_0 == server
        },
    }
}

/// The server of a profile whose requested address has the canonical form `origin`.
pub open spec fn chosen_server<O: Fn(&str) -> Option<String>>(
    r: Result<String, ClientError>,
    canonical_origin: O,
    stored: Option<String>,
    issuer: Result<Option<String>, ClientError>,
    origin: Option<String>,
) -> bool {
    match origin {
        None => r is Err && r->Err_0 == ClientError::AccountRequest,
        Some(server) => match issuer {
            Err(error) => r is Err && r->Err_0 == error,
            Ok(None) => r is Ok && r->Ok_0 == server,
            Ok(Some(held)) => exists|bound: Option<String>| #[trigger]
                canonical(canonical_origin, held@, bound) && bound_server(r, stored, server, bound),
        },
    }
}

/// The server a profile talks to: the one its stored credential is bound to. A stored
/// choice that contradicts the credential is an error.
///
/// `stored` is the stored choice, `issuer` the server that issued the stored credential;
/// `canonical_origin` brings an address into its canonical form, where it has one.
pub fn sync_server_url<O: Fn(&str) -> Option<String>>(
    stored: Result<Option<String>, ClientError>,
    issuer: Result<Option<String>, ClientError>,
    canonical_origin: O,
) -> (r: Result<String, ClientError>)
    requires
        forall|address: &str| #[trigger] canonical_origin.requires((address,)),
    ensures
        match stored {
            Err(error) => r is Err && r->Err_0 == error,
            Ok(choice) => exists|origin: Option<String>| #[trigger]
                canonical(canonical_origin, requested_server(choice), origin) && chosen_server(
                    r,
                    canonical_origin,
                    choice,
                    issuer,
                    origin,
                ),
        },
{
    let choice = match stored {
        Err(error) => {
            return Err(error);
        },
        Ok(choice) => choice,
    };
    let origin = match &choice {
        Some(address) => canonical_of(&canonical_origin, address.as_str()),
        None => canonical_of(&canonical_origin, default_sync_server_url()),
    };
    proof {
        assert(canonical(canonical_origin, requested_server(choice), origin));
    }
    let server = match origin {
        None => {
            return Err(ClientError::AccountRequest);
        },
        Some(server) => server,
    };
    let held = match issuer {
        Err(error) => {
            return Err(error);
        },
        Ok(None) => {
            return Ok(server);
        },
        Ok(Some(held)) => held,
    };
    let bound = canonical_of(&canonical_origin, held.as_str());
    proof {
        assert(canonical(canonical_origin, held@, bound));
    }
    match bound {
        None => Err(ClientError::AccountRequest),
        Some(issuing) => {
            if choice.is_some() && !str_eq(server.as_str(), issuing.as_str()) {
                return Err(ClientError::AccountRequest);
            }
            Ok(issuing)
        },
    }
}

/// What choosing a server whose address has the canonical form `origin` comes to.
pub open spec fn accepted_server(
    r: Result<String, ClientError>,
    issuer: Result<Option<String>, ClientError>,
    origin: Option<String>,
) -> bool {
    match origin {
        None => r is Err && r->Err_0 == ClientError::AccountRequest,
        Some(server) => match issuer {
            Err(error) => r is Err && r->Err_0 == error,
            Ok(Some(bound)) => if bound@ != server@ {
                r is Err && r->Err_0 == ClientError::AccountRequest
            } else {
                r is Ok && r->Ok_0 == server
            },
            Ok(None) => r is Ok && r->Ok_0 == server,
        },
    }
}

/// Chooses a server: a stored credential blocks every server but its own. Gives the
/// value to store.
pub fn set_sync_server_url<O: Fn(&str) -> Option<String>>(
    server_url: &str,
    issuer: Result<Option<String>, ClientError>,
    canonical_origin: O,
) -> (r: Result<String, ClientError>)
    requires
        forall|address: &str| #[trigger] canonical_origin.requires((address,)),
    ensures
        exists|origin: Option<String>| #[trigger]
            canonical(canonical_origin, server_url@, origin) && accepted_server(r, issuer, origin),
{
    let origin = canonical_of(&canonical_origin, server_url);
    proof {
        assert(canonical(canonical_origin, server_url@, origin));
    }
    let server = match origin {
        None => {
            return Err(ClientError::AccountRequest);
        },
        Some(server) => server,
    };
    match issuer {
        Err(error) => Err(error),
        Ok(None) => Ok(server),
        Ok(Some(bound)) => if !str_eq(bound.as_str(), server.as_str()) {
            Err(ClientError::AccountRequest)
        } else {
            Ok(server)
        },
    }
}

/// A profile with a stored credential only ever talks to the server that issued it, and
/// accepts no other choice.
pub proof fn law_credential_binds_the_server<O: Fn(&str) -> Option<String>>(
    read: Result<String, ClientError>,
    chosen: Result<String, ClientError>,
    canonical_origin: O,
    stored: Option<String>,
    issuer: String,
    origin: Option<String>,
)
    requires
        forall|bound: Option<String>| #[trigger]
            canonical(canonical_origin, issuer@, bound) ==> bound is Some && bound.unwrap()@
                == issuer@,
        chosen_server(read, canonical_origin, stored, Ok(Some(issuer)), origin),
        accepted_server(chosen, Ok(Some(issuer)), origin),
    ensures
        read is Ok ==> read->Ok_0@ == issuer@,
        chosen is Ok ==> chosen->Ok_0@ == issuer@,
{
}

/// What a client has loaded of its profile.
#[derive(Debug, Clone, Copy, PartialEq, Eq, Structural)]
pub struct LoadedRuntime {
    pub runtime_epoch: i64,
    pub capsule_generation: u64,
}

/// What must be loaded anew.
#[derive(Debug, Clone, Copy, PartialEq, Eq, Structural)]
pub struct RuntimeRefresh {
    /// The key capsule changed: derive the database key again.
    pub replace_db_key: bool,
    /// The epoch changed: forget what was restored and restore it again.
    pub reset_account: bool,
}

/// Whether the database key must be derived again before the database is opened.
pub fn db_key_is_stale(loaded: &LoadedRuntime, capsule_generation: u64) -> (r: bool)
    ensures
        r == (capsule_generation != loaded.capsule_generation),
{
    capsule_generation != loaded.capsule_generation
}

/// What a client has loaded once it caught up with its profile.
pub open spec fn caught_up(runtime_epoch: i64, capsule_generation: u64) -> LoadedRuntime {
    LoadedRuntime { runtime_epoch, capsule_generation }
}

/// Catches up with the profile: an epoch that moved means that everything restored
/// from it is out of date.
///
/// `capsule_generation` is that of the active key capsule, where there is one;
/// `runtime_epoch` is what the database holds.
pub fn refresh_profile_runtime(
    loaded: &mut LoadedRuntime,
    account: &mut AccountRuntimeState,
    capsule_generation: Result<Option<u64>, ClientError>,
    runtime_epoch: Result<i64, ClientError>,
) -> (r: Result<RuntimeRefresh, ClientError>)
    ensures
        match capsule_generation {
            Err(error) => {
                &&& r is Err && r->Err_0 == error
                &&& *final(loaded) == *old(loaded)
                &&& *final(account) == *old(account)
            },
            Ok(None) => {
                &&& r is Err && r->Err_0 == ClientError::LocalKeyState
                &&& *final(loaded) == *old(loaded)
                &&& *final(account) == *old(account)
            },
            Ok(Some(generation)) => match runtime_epoch {
                Err(error) => {
                    &&& r is Err && r->Err_0 == error
                    &&& *final(loaded) == *old(loaded)
                    &&& *final(account) == *old(account)
                },
                Ok(epoch) => {
                    &&& r == Ok::<_, ClientError>(
                        RuntimeRefresh {
                            replace_db_key: generation != old(loaded).capsule_generation,
                            reset_account: epoch != old(loaded).runtime_epoch,
                        },
                    )
                    &&& *final(loaded) == caught_up(epoch, generation)
                    &&& epoch != old(loaded).runtime_epoch ==> account_runtime::is_unloaded(
                        *final(account),
                    )
                    &&& epoch == old(loaded).runtime_epoch ==> *final(account) == *old(account)
                },
            },
        },
{
    let generation: u64 = match capsule_generation {
        Err(error) => {
            return Err(error);
        },
        Ok(None) => {
            return Err(ClientError::LocalKeyState);
        },
        Ok(Some(generation)) => generation,
    };
    let replace_db_key: bool = db_key_is_stale(loaded, generation);
    let epoch: i64 = match runtime_epoch {
        Err(error) => {
            return Err(error);
        },
        Ok(epoch) => epoch,
    };
    let reset_account: bool = epoch != loaded.runtime_epoch;
    if reset_account {
        account.reset();
        loaded.runtime_epoch = epoch;
        loaded.capsule_generation = generation;
    } else if loaded.capsule_generation != generation {
        loaded.capsule_generation = generation;
    }
    Ok(RuntimeRefresh { replace_db_key, reset_account })
}

/// The generation of a key capsule as the database counts it.
pub fn capsule_generation_to_store(generation: u64) -> (r: Result<i64, ClientError>)
    ensures
        r == (if generation <= i64::MAX {
            Ok::<i64, ClientError>(generation as i64)
        } else {
            Err(ClientError::LocalKeyState)
        }),
{
    if generation <= i64::MAX as u64 {
        Ok(generation as i64)
    } else {
        Err(ClientError::LocalKeyState)
    }
}

/// Publishes the epoch that an operation brought about, unless another one came first.
pub fn publish_runtime_epoch_if_current(
    loaded: &mut LoadedRuntime,
    expected: i64,
    runtime_epoch: i64,
) -> (r: Result<(), ClientError>)
    ensures
        if old(loaded).runtime_epoch == expected {
            r == Ok::<(), ClientError>(()) && *final(loaded) == (LoadedRuntime {
                runtime_epoch,
                ..*old(loaded)
            })
        } else {
            r == Err::<(), ClientError>(ClientError::LeaseLost) && *final(loaded) == *old(loaded)
        },
{
    if loaded.runtime_epoch == expected {
        loaded.runtime_epoch = runtime_epoch;
        Ok(())
    } else {
        Err(ClientError::LeaseLost)
    }
}

/// Whether a command is to be run once more: its first run met a profile that had moved
/// on, which is found out before anything is written.
pub open spec fn epoch_changed<T>(result: Result<T, ClientError>) -> bool {
    result matches Err(error) && error == ClientError::Storage(
        StorageError::ProfileRuntimeEpochChanged,
    )
}

/// Runs a command, and runs it once more after catching up where the profile had moved
/// on. A second mismatch is reported, not repeated.
///
/// `operation` is the command, `catch_up` brings the runtime up to date, and `again` is the
/// command once more, in the runtime that `catch_up` gave.
pub fn retry_runtime_epoch_once<
    T,
    K,
    O: FnOnce() -> Result<T, ClientError>,
    C: FnOnce() -> Result<K, ClientError>,
    A: FnOnce(K) -> Result<T, ClientError>,
>(operation: O, catch_up: C, again: A) -> (r: Result<T, ClientError>)
    requires
        operation.requires(()),
        forall|first: Result<T, ClientError>| #[trigger]
            operation.ensures((), first) && epoch_changed(first) ==> catch_up.requires(()),
        forall|runtime: K| #[trigger]
            catch_up.ensures((), Ok(runtime)) ==> again.requires((runtime,)),
    ensures
        exists|first: Result<T, ClientError>| #[trigger]
            operation.ensures((), first) && if !epoch_changed(first) {
                r == first
            } else {
                exists|caught: Result<K, ClientError>| #[trigger]
                    catch_up.ensures((), caught) && match caught {
                        Err(error) => r is Err && r->Err_0 == error,
                        Ok(runtime) => again.ensures((runtime,), r),
                    }
            },
{
    let first = operation();
    proof {
        assert(operation.ensures((), first));
    }
    let changed: bool = match &first {
        Err(ClientError::Storage(StorageError::ProfileRuntimeEpochChanged)) => true,
        _ => false,
    };
    if !changed {
        return first;
    }
    let caught = catch_up();
    proof {
        assert(catch_up.ensures((), caught));
    }
    match caught {
        Err(error) => Err(error),
        Ok(runtime) => again(runtime),
    }
}

/// The current time in milliseconds, from what the system clock says; a clock before the
/// epoch or beyond the range is no time.
pub fn now_ms(millis_since_epoch: Option<u128>) -> (r: Result<i64, ClientError>)
    ensures
        match millis_since_epoch {
            None => r == Err::<i64, ClientError>(ClientError::RuntimeState),
            Some(millis) => if millis <= i64::MAX {
                r is Ok && r->Ok_0 == millis
            } else {
                r == Err::<i64, ClientError>(ClientError::RuntimeState)
            },
        },
{
    match millis_since_epoch {
        None => Err(ClientError::RuntimeState),
        Some(millis) => if millis <= i64::MAX as u128 {
            Ok(millis as i64)
        } else {
            Err(ClientError::RuntimeState)
        },
    }
}

/// What beginning an operation does next.
#[derive(Debug, Clone, Copy, PartialEq, Eq, Structural)]
pub enum OperationStep {
    LockShared,
    ValidatePaths,
    CheckPendingCapsule,
    /// Give the shared lock back and take the exclusive one.
    LockExclusive,
    ValidatePathsExclusively,
    RecoverCapsule,
    /// Give the exclusive lock back and take the shared one again.
    LockSharedAgain,
    ValidatePathsAgain,
    RefreshRuntime,
    Ready,
    Failed(ClientError),
}

/// What a step came to.
#[derive(Debug, Clone, Copy, PartialEq, Eq, Structural)]
pub enum OperationEvent {
    Completed,
    Pending(bool),
    Failed(ClientError),
}

/// How an operation begins: a pending key capsule is recovered under the exclusive lock
/// before the operation goes on under the shared one, and the paths are checked under
/// every lock.
pub open spec fn next_operation_step(step: OperationStep, event: OperationEvent) -> OperationStep {
    match (step, event) {
        (OperationStep::Ready, _) => step,
        (OperationStep::Failed(_), _) => step,
        (_, OperationEvent::Failed(error)) => OperationStep::Failed(error),
        (OperationStep::LockShared, OperationEvent::Completed) => OperationStep::ValidatePaths,
        (OperationStep::ValidatePaths, OperationEvent::Completed) =>
            OperationStep::CheckPendingCapsule,
        (OperationStep::CheckPendingCapsule, OperationEvent::Pending(pending)) => if pending {
            OperationStep::LockExclusive
        } else {
            OperationStep::ValidatePathsAgain
        },
        (OperationStep::LockExclusive, OperationEvent::Completed) =>
            OperationStep::ValidatePathsExclusively,
        (OperationStep::ValidatePathsExclusively, OperationEvent::Completed) =>
            OperationStep::RecoverCapsule,
        (OperationStep::RecoverCapsule, OperationEvent::Completed) =>
            OperationStep::LockSharedAgain,
        (OperationStep::LockSharedAgain, OperationEvent::Completed) =>
            OperationStep::ValidatePathsAgain,
        (OperationStep::ValidatePathsAgain, OperationEvent::Completed) =>
            OperationStep::RefreshRuntime,
        (OperationStep::RefreshRuntime, OperationEvent::Completed) => OperationStep::Ready,
        _ => OperationStep::Failed(ClientError::RuntimeState),
    }
}

/// Decides how an operation begins.
pub fn begin_operation(step: OperationStep, event: OperationEvent) -> (r: OperationStep)
    ensures
        r == next_operation_step(step, event),
{
    match (step, event) {
        (OperationStep::Ready, _) => step,
        (OperationStep::Failed(_), _) => step,
        (_, OperationEvent::Failed(error)) => OperationStep::Failed(error),
        (OperationStep::LockShared, OperationEvent::Completed) => OperationStep::ValidatePaths,
        (OperationStep::ValidatePaths, OperationEvent::Completed) =>
            OperationStep::CheckPendingCapsule,
        (OperationStep::CheckPendingCapsule, OperationEvent::Pending(pending)) => if pending {
            OperationStep::LockExclusive
        } else {
            OperationStep::ValidatePathsAgain
        },
        (OperationStep::LockExclusive, OperationEvent::Completed) =>
            OperationStep::ValidatePathsExclusively,
        (OperationStep::ValidatePathsExclusively, OperationEvent::Completed) =>
            OperationStep::RecoverCapsule,
        (OperationStep::RecoverCapsule, OperationEvent::Completed) =>
            OperationStep::LockSharedAgain,
        (OperationStep::LockSharedAgain, OperationEvent::Completed) =>
            OperationStep::ValidatePathsAgain,
        (OperationStep::ValidatePathsAgain, OperationEvent::Completed) =>
            OperationStep::RefreshRuntime,
        (OperationStep::RefreshRuntime, OperationEvent::Completed) => OperationStep::Ready,
        _ => OperationStep::Failed(ClientError::RuntimeState),
    }
}

/// An operation is never ready before the runtime caught up, and a pending key capsule
/// is only recovered after the paths were checked under the exclusive lock.
pub proof fn law_operation_order(step: OperationStep, event: OperationEvent)
    ensures
        next_operation_step(step, event) is Ready && !(step is Ready) ==> step is RefreshRuntime
            && event is Completed,
        next_operation_step(step, event) is RefreshRuntime ==> step is ValidatePathsAgain
            && event is Completed,
        next_operation_step(step, event) is RecoverCapsule ==> step is ValidatePathsExclusively
            && event is Completed,
        next_operation_step(step, event) is LockExclusive ==> event == OperationEvent::Pending(
            true,
        ),
{
}

/// What beginning an operation that has the profile to itself does next.
#[derive(Debug, Clone, Copy, PartialEq, Eq, Structural)]
pub enum ExclusiveStep {
    LockExclusive,
    ValidatePaths,
    /// Recover a key capsule, where one is pending.
    RecoverCapsule,
    ValidatePathsAgain,
    RefreshRuntime,
    Ready,
    Failed(ClientError),
}

/// What follows a step; `failed` is how the step failed.
pub open spec fn next_exclusive_step(
    step: ExclusiveStep,
    failed: Option<ClientError>,
) -> ExclusiveStep {
    match (step, failed) {
        (ExclusiveStep::Ready, _) => step,
        (ExclusiveStep::Failed(_), _) => step,
        (_, Some(error)) => ExclusiveStep::Failed(error),
        (ExclusiveStep::LockExclusive, None) => ExclusiveStep::ValidatePaths,
        (ExclusiveStep::ValidatePaths, None) => ExclusiveStep::RecoverCapsule,
        (ExclusiveStep::RecoverCapsule, None) => ExclusiveStep::ValidatePathsAgain,
        (ExclusiveStep::ValidatePathsAgain, None) => ExclusiveStep::RefreshRuntime,
        (ExclusiveStep::RefreshRuntime, None) => ExclusiveStep::Ready,
    }
}

/// Decides how an operation begins that has the profile to itself.
pub fn begin_exclusive_operation(step: ExclusiveStep, failed: Option<ClientError>) -> (r:
    ExclusiveStep)
    ensures
        r == next_exclusive_step(step, failed),
{
    match (step, failed) {
        (ExclusiveStep::Ready, _) => step,
        (ExclusiveStep::Failed(_), _) => step,
        (_, Some(error)) => ExclusiveStep::Failed(error),
        (ExclusiveStep::LockExclusive, None) => ExclusiveStep::ValidatePaths,
        (ExclusiveStep::ValidatePaths, None) => ExclusiveStep::RecoverCapsule,
        (ExclusiveStep::RecoverCapsule, None) => ExclusiveStep::ValidatePathsAgain,
        (ExclusiveStep::ValidatePathsAgain, None) => ExclusiveStep::RefreshRuntime,
        (ExclusiveStep::RefreshRuntime, None) => ExclusiveStep::Ready,
    }
}

/// An operation that has the profile to itself is ready only after the paths were
/// checked under the lock, a pending key capsule was recovered and the runtime caught
/// up.
pub proof fn law_exclusive_operation_order(step: ExclusiveStep, failed: Option<ClientError>)
    ensures
        next_exclusive_step(step, failed) is Ready && !(step is Ready) ==> step is RefreshRuntime
            && failed is None,
        next_exclusive_step(step, failed) is RefreshRuntime ==> step is ValidatePathsAgain,
        next_exclusive_step(step, failed) is ValidatePathsAgain ==> step is RecoverCapsule,
        next_exclusive_step(step, failed) is RecoverCapsule ==> step is ValidatePaths,
        next_exclusive_step(step, failed) is ValidatePaths ==> step is LockExclusive,
{
}

/// What opening a profile does next.
#[derive(Debug, Clone, Copy, PartialEq, Eq, Structural)]
pub enum OpenStep {
    Coordinate,
    LockExclusive,
    ResolveCapsule,
    OpenDatabase,
    EnsureDefaultList,
    PinDatabase,
    /// Publish the generation of the active key capsule.
    PublishGeneration,
    Opened,
    Failed(ClientError),
}

/// What follows a step of opening a profile; `failed` is how the step failed.
pub open spec fn next_open_step(step: OpenStep, failed: Option<ClientError>) -> OpenStep {
    match (step, failed) {
        (OpenStep::Opened, _) => step,
        (OpenStep::Failed(_), _) => step,
        (_, Some(error)) => OpenStep::Failed(error),
        (OpenStep::Coordinate, None) => OpenStep::LockExclusive,
        (OpenStep::LockExclusive, None) => OpenStep::ResolveCapsule,
        (OpenStep::ResolveCapsule, None) => OpenStep::OpenDatabase,
        (OpenStep::OpenDatabase, None) => OpenStep::EnsureDefaultList,
        (OpenStep::EnsureDefaultList, None) => OpenStep::PinDatabase,
        (OpenStep::PinDatabase, None) => OpenStep::PublishGeneration,
        (OpenStep::PublishGeneration, None) => OpenStep::Opened,
    }
}

/// Decides how a profile is opened.
pub fn open_profile(step: OpenStep, failed: Option<ClientError>) -> (r: OpenStep)
    ensures
        r == next_open_step(step, failed),
{
    match (step, failed) {
        (OpenStep::Opened, _) => step,
        (OpenStep::Failed(_), _) => step,
        (_, Some(error)) => OpenStep::Failed(error),
        (OpenStep::Coordinate, None) => OpenStep::LockExclusive,
        (OpenStep::LockExclusive, None) => OpenStep::ResolveCapsule,
        (OpenStep::ResolveCapsule, None) => OpenStep::OpenDatabase,
        (OpenStep::OpenDatabase, None) => OpenStep::EnsureDefaultList,
        (OpenStep::EnsureDefaultList, None) => OpenStep::PinDatabase,
        (OpenStep::PinDatabase, None) => OpenStep::PublishGeneration,
        (OpenStep::PublishGeneration, None) => OpenStep::Opened,
    }
}

/// Nothing of a profile is read before the exclusive lock is held, and a profile is open
/// only with its database pinned and its key generation published.
pub proof fn law_profile_opens_under_the_exclusive_lock(step: OpenStep, failed: Option<ClientError>)
    ensures
        next_open_step(step, failed) is ResolveCapsule ==> step is LockExclusive && failed is None,
        next_open_step(step, failed) is PublishGeneration ==> step is PinDatabase
            && failed is None,
        next_open_step(step, failed) is Opened && !(step is Opened) ==> step is PublishGeneration
            && failed is None,
{
}

/// Takes over a key capsule that was pending: whatever was restored with the old one is
/// forgotten.
///
/// `opened` is the outcome of opening the database with the key of the capsule; `publish`
/// publishes a generation in it at the current time and gives the epoch that goes with it.
pub fn recover_pending_capsule<P: FnOnce(i64) -> Result<i64, ClientError>>(
    loaded: &mut LoadedRuntime,
    account: &mut AccountRuntimeState,
    capsule_generation: u64,
    opened: Result<(), ClientError>,
    publish: P,
) -> (r: Result<(), ClientError>)
    requires
        opened is Ok && capsule_generation <= i64::MAX ==> publish.requires(
            (capsule_generation as i64,),
        ),
    ensures
        r is Err ==> *final(loaded) == *old(loaded) && *final(account) == *old(account),
        match opened {
            Err(error) => r == Err::<(), ClientError>(error),
            Ok(_) => if capsule_generation > i64::MAX {
                r == Err::<(), ClientError>(ClientError::LocalKeyState)
            } else {
                exists|published: Result<i64, ClientError>| #[trigger]
                    publish.ensures((capsule_generation as i64,), published) && match published {
                        Err(error) => r == Err::<(), ClientError>(error),
                        Ok(epoch) => {
                            &&& r == Ok::<(), ClientError>(())
                            &&& *final(loaded) == caught_up(epoch, capsule_generation)
                            &&& account_runtime::is_unloaded(*final(account))
                        },
                    }
            },
        },
{
    match opened {
        Err(error) => {
            return Err(error);
        },
        Ok(()) => {},
    }
    let generation: i64 = match capsule_generation_to_store(capsule_generation) {
        Err(error) => {
            return Err(error);
        },
        Ok(generation) => generation,
    };
    let published = publish(generation);
    proof {
        assert(publish.ensures((capsule_generation as i64,), published));
    }
    match published {
        Err(error) => Err(error),
        Ok(epoch) => {
            account.reset();
            loaded.runtime_epoch = epoch;
            loaded.capsule_generation = capsule_generation;
            Ok(())
        },
    }
}

} // verus!
