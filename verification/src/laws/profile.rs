//! Profiles: which server they are of, in which order they are opened and worked in, and
//! who holds their locks.
use vstd::prelude::*;
use crate::profile_coordination;
use crate::profile_runtime;
use crate::error::ClientError;
use crate::profile_coordination::{
    ProcessLockState, ProfileIdentity, SessionLockState, UnixMetadata,
};
use crate::profile_runtime::{ExclusiveStep, OpenStep, OperationEvent, OperationStep};

verus! {

/// The server asked for is the stored one, and the local one where none is stored.
pub proof fn law_server_of_a_profile(stored: Option<String>)
    ensures
        stored is Some ==> profile_runtime::requested_server(stored) == stored->Some_0@,
        stored is None ==>
            profile_runtime::requested_server(stored) == "http://localhost:3000"@,
{
}

/// A credential binds the profile to its own server: an unreadable one fails the
/// request, and so does a stored server that is another.
pub proof fn law_credential_decides_over_the_server(
    r: Result<String, ClientError>,
    stored: Option<String>,
    origin: String,
    bound: Option<String>,
)
    requires
        profile_runtime::bound_server(r, stored, origin, bound),
    ensures
        r is Ok <==> bound is Some && (stored is None || origin@ == bound->Some_0@),
        r is Ok ==> r->Ok_0 == bound->Some_0,
        r is Err ==> r->Err_0 is AccountRequest,
{
}

/// A server that has no canonical address fails the request; then a failed read of the
/// credential is passed on; without a credential the server stands, and with one the
/// credential decides.
pub proof fn law_server_is_chosen_in_order<O: Fn(&str) -> Option<String>>(
    r: Result<String, ClientError>,
    canonical_origin: O,
    stored: Option<String>,
    issuer: Result<Option<String>, ClientError>,
    origin: Option<String>,
)
    requires
        profile_runtime::chosen_server(r, canonical_origin, stored, issuer, origin),
    ensures
        origin is None ==> r is Err && r->Err_0 is AccountRequest,
        origin is Some && issuer is Err ==> r is Err && r->Err_0 == issuer->Err_0,
        origin is Some && issuer is Ok && issuer->Ok_0 is None ==>
            r is Ok
                && r->Ok_0 == origin->Some_0,
        origin is Some && issuer is Ok && issuer->Ok_0 is Some ==>
            exists|bound: Option<String>| #[trigger] profile_runtime::canonical(canonical_origin, issuer->Ok_0->Some_0@, bound)
                && (r is Ok <==> bound is Some && (stored is None || origin->Some_0@ == bound->Some_0@))
                && (r is Ok ==> r->Ok_0 == bound->Some_0)
                && (r is Err ==> r->Err_0 is AccountRequest),
{
}

/// A server that has no canonical address fails the request; then a failed read of the
/// credential is passed on; then a credential of another server fails the request; and
/// otherwise the server is the canonical one.
pub proof fn law_server_is_set_in_order(
    r: Result<String, ClientError>,
    issuer: Result<Option<String>, ClientError>,
    origin: Option<String>,
)
    requires
        profile_runtime::accepted_server(r, issuer, origin),
    ensures
        r is Ok <==>
            origin is Some
                && issuer is Ok
                && (issuer->Ok_0 is None || issuer->Ok_0->Some_0@ == origin->Some_0@),
        r is Ok ==> r->Ok_0 == origin->Some_0,
        origin is None ==> r->Err_0 is AccountRequest,
        origin is Some && issuer is Err ==> r->Err_0 == issuer->Err_0,
        origin is Some && issuer is Ok && r is Err ==> r->Err_0 is AccountRequest,
{
}

/// A runtime that caught up is at the epoch and the capsule generation that were read.
pub proof fn law_runtime_is_as_loaded(runtime_epoch: i64, capsule_generation: u64)
    ensures
        profile_runtime::caught_up(runtime_epoch, capsule_generation).runtime_epoch == runtime_epoch,
        profile_runtime::caught_up(runtime_epoch, capsule_generation).capsule_generation == capsule_generation,
{
}

/// A result tells of a changed epoch if and only if it failed with the error of the
/// database for it.
pub proof fn law_changed_epoch_is_recognized<T>(result: Result<T, ClientError>)
    ensures
        profile_runtime::epoch_changed(result) <==>
            result is Err
                && result->Err_0 is Storage
                && result->Err_0->Storage_0 is ProfileRuntimeEpochChanged,
{
}

/// An operation takes the shared lock, validates the paths and looks for a pending
/// capsule; where there is one, it is recovered under the exclusive lock and behind
/// validated paths, and the shared lock is taken again; then the paths are validated
/// once more and the runtime is refreshed. A failure ends it, and so does what does not
/// belong to its step.
pub proof fn law_operation_begins_in_order(step: OperationStep, event: OperationEvent)
    ensures
        event is Completed && step is LockShared ==>
            profile_runtime::next_operation_step(step, event) is ValidatePaths,
        event is Completed && step is ValidatePaths ==>
            profile_runtime::next_operation_step(step, event) is CheckPendingCapsule,
        event is Completed && step is LockExclusive ==>
            profile_runtime::next_operation_step(step, event) is ValidatePathsExclusively,
        event is Completed && step is ValidatePathsExclusively ==>
            profile_runtime::next_operation_step(step, event) is RecoverCapsule,
        event is Completed && step is RecoverCapsule ==>
            profile_runtime::next_operation_step(step, event) is LockSharedAgain,
        event is Completed && step is LockSharedAgain ==>
            profile_runtime::next_operation_step(step, event) is ValidatePathsAgain,
        event is Completed && step is ValidatePathsAgain ==>
            profile_runtime::next_operation_step(step, event) is RefreshRuntime,
        event is Completed && step is RefreshRuntime ==>
            profile_runtime::next_operation_step(step, event) is Ready,
        step is CheckPendingCapsule && event is Pending && event->Pending_0 ==>
            profile_runtime::next_operation_step(step, event) is LockExclusive,
        step is CheckPendingCapsule && event is Pending && !event->Pending_0 ==>
            profile_runtime::next_operation_step(step, event) is ValidatePathsAgain,
        step is Ready || step is Failed ==>
            profile_runtime::next_operation_step(step, event) == step,
        event is Failed && !(step is Ready || step is Failed) ==>
            profile_runtime::next_operation_step(step, event) == OperationStep::Failed(event->Failed_0),
        event is Completed && step is CheckPendingCapsule ==>
            profile_runtime::next_operation_step(step, event) == OperationStep::Failed(ClientError::RuntimeState),
        event is Pending && !(step is Ready || step is Failed || step is CheckPendingCapsule) ==>
            profile_runtime::next_operation_step(step, event) == OperationStep::Failed(ClientError::RuntimeState),
{
}

/// An exclusive operation takes the exclusive lock, validates the paths, recovers the
/// capsule, validates the paths again and refreshes the runtime; a failure ends it.
pub proof fn law_exclusive_operation_begins_in_order(
    step: ExclusiveStep,
    failed: Option<ClientError>,
)
    ensures
        failed is None && step is LockExclusive ==>
            profile_runtime::next_exclusive_step(step, failed) is ValidatePaths,
        failed is None && step is ValidatePaths ==>
            profile_runtime::next_exclusive_step(step, failed) is RecoverCapsule,
        failed is None && step is RecoverCapsule ==>
            profile_runtime::next_exclusive_step(step, failed) is ValidatePathsAgain,
        failed is None && step is ValidatePathsAgain ==>
            profile_runtime::next_exclusive_step(step, failed) is RefreshRuntime,
        failed is None && step is RefreshRuntime ==>
            profile_runtime::next_exclusive_step(step, failed) is Ready,
        step is Ready || step is Failed ==>
            profile_runtime::next_exclusive_step(step, failed) == step,
        failed is Some && !(step is Ready || step is Failed) ==>
            profile_runtime::next_exclusive_step(step, failed) == ExclusiveStep::Failed(failed->Some_0),
{
}

/// A profile is coordinated, locked, its capsule resolved, its database opened, its
/// default list ensured, its database pinned, and its generation published last; a
/// failure ends it.
pub proof fn law_profile_opens_in_order(step: OpenStep, failed: Option<ClientError>)
    ensures
        failed is None && step is Coordinate ==>
            profile_runtime::next_open_step(step, failed) is LockExclusive,
        failed is None && step is LockExclusive ==>
            profile_runtime::next_open_step(step, failed) is ResolveCapsule,
        failed is None && step is ResolveCapsule ==>
            profile_runtime::next_open_step(step, failed) is OpenDatabase,
        failed is None && step is OpenDatabase ==>
            profile_runtime::next_open_step(step, failed) is EnsureDefaultList,
        failed is None && step is EnsureDefaultList ==>
            profile_runtime::next_open_step(step, failed) is PinDatabase,
        failed is None && step is PinDatabase ==>
            profile_runtime::next_open_step(step, failed) is PublishGeneration,
        failed is None && step is PublishGeneration ==>
            profile_runtime::next_open_step(step, failed) is Opened,
        step is Opened || step is Failed ==>
            profile_runtime::next_open_step(step, failed) == step,
        failed is Some && !(step is Opened || step is Failed) ==>
            profile_runtime::next_open_step(step, failed) == OpenStep::Failed(failed->Some_0),
{
}

/// A fresh lock has no reader, no writer and no session, and is not poisoned.
pub proof fn law_fresh_locks_are_free()
    ensures
        ProcessLockState::unlocked().readers == 0,
        !ProcessLockState::unlocked().writer,
        !ProcessLockState::unlocked().poisoned,
        !SessionLockState::unlocked().held,
        !SessionLockState::unlocked().poisoned,
{
}

/// A shared lock is given if and only if the lock is not poisoned, nobody writes, the
/// count can grow, and the file could be locked where this is the first reader; it then
/// has one reader more. Otherwise nothing changes and the first of these that fails is
/// told.
pub proof fn law_shared_lock(state: ProcessLockState, reply: Result<(), ClientError>)
    ensures
        state.shared_with(reply).1 is Ok <==>
            !state.poisoned
                && !state.writer
                && (state.readers > 0 || reply is Ok)
                && state.readers < usize::MAX,
        state.shared_with(reply).1 is Ok ==>
            state.shared_with(reply).0.readers == state.readers + 1
                && state.shared_with(reply).0.writer == state.writer
                && state.shared_with(reply).0.poisoned == state.poisoned,
        state.shared_with(reply).1 is Err ==> state.shared_with(reply).0 == state,
        state.poisoned ==> state.shared_with(reply).1->Err_0 is ProfileLockUnsupported,
        !state.poisoned && state.writer ==> state.shared_with(reply).1->Err_0 is ProfileBusy,
        !state.poisoned && !state.writer && state.readers == 0 && reply is Err ==>
            state.shared_with(reply).1->Err_0 == reply->Err_0,
        !state.poisoned && !state.writer && state.readers == usize::MAX ==>
            state.shared_with(reply).1->Err_0 is RuntimeState,
{
}

/// The exclusive lock is given if and only if the lock is not poisoned, nobody reads or
/// writes, and the file could be locked; somebody then writes. Otherwise nothing
/// changes and the first of these that fails is told.
pub proof fn law_exclusive_lock(state: ProcessLockState, reply: Result<(), ClientError>)
    ensures
        state.exclusive_with(reply).1 is Ok <==>
            !state.poisoned
                && !state.writer
                && state.readers == 0
                && reply is Ok,
        state.exclusive_with(reply).1 is Ok ==>
            state.exclusive_with(reply).0.writer
                && state.exclusive_with(reply).0.readers == 0
                && !state.exclusive_with(reply).0.poisoned,
        state.exclusive_with(reply).1 is Err ==> state.exclusive_with(reply).0 == state,
        state.poisoned ==> state.exclusive_with(reply).1->Err_0 is ProfileLockUnsupported,
        !state.poisoned && (state.writer || state.readers > 0) ==>
            state.exclusive_with(reply).1->Err_0 is ProfileBusy,
        !state.poisoned && !state.writer && state.readers == 0 && reply is Err ==>
            state.exclusive_with(reply).1->Err_0 == reply->Err_0,
{
}

/// A reader that leaves is counted off; the last one unlocks the file, and a file that
/// cannot be unlocked, or a release without a lock, poisons the lock. A writer that
/// leaves unlocks the file or poisons the lock.
pub proof fn law_releasing_locks(state: ProcessLockState, unlocked: bool)
    ensures
        state.readers > 1 ==>
            state.after_shared_release(unlocked) == (ProcessLockState { readers: (state.readers - 1) as usize, writer: state.writer, poisoned: state.poisoned }),
        state.readers == 1 && unlocked ==>
            state.after_shared_release(unlocked) == (ProcessLockState { readers: 0, writer: state.writer, poisoned: state.poisoned }),
        state.readers == 0 || (state.readers == 1 && !unlocked) ==>
            state.after_shared_release(unlocked) == (ProcessLockState { readers: state.readers, writer: state.writer, poisoned: true }),
        state.writer && unlocked ==>
            state.after_exclusive_release(unlocked) == (ProcessLockState { readers: state.readers, writer: false, poisoned: state.poisoned }),
        !(state.writer && unlocked) ==>
            state.after_exclusive_release(unlocked) == (ProcessLockState { readers: state.readers, writer: state.writer, poisoned: true }),
        state.valid() <==> !(state.writer && state.readers > 0),
{
}

/// The lock of a session is given if and only if it is not poisoned, not held, and the
/// file could be locked; a lock that is held, here or elsewhere, is busy, and every
/// other failure is told as it is. A release unlocks the file or poisons the lock.
pub proof fn law_session_lock(
    state: SessionLockState,
    reply: Result<(), ClientError>,
    unlocked: bool,
)
    ensures
        state.session_with(reply).1 is Ok <==> !state.poisoned && !state.held && reply is Ok,
        state.session_with(reply).1 is Ok ==>
            state.session_with(reply).0.held
                && !state.session_with(reply).0.poisoned,
        state.session_with(reply).1 is Err ==> state.session_with(reply).0 == state,
        state.poisoned ==> state.session_with(reply).1->Err_0 is ProfileLockUnsupported,
        !state.poisoned && state.held ==> state.session_with(reply).1->Err_0 is Busy,
        !state.poisoned && !state.held && reply is Err && reply->Err_0 is ProfileBusy ==>
            state.session_with(reply).1->Err_0 is Busy,
        !state.poisoned && !state.held && reply is Err && !(reply->Err_0 is ProfileBusy) ==>
            state.session_with(reply).1->Err_0 == reply->Err_0,
        state.held && unlocked ==>
            state.after_release(unlocked) == (SessionLockState { held: false, poisoned: state.poisoned }),
        !(state.held && unlocked) ==>
            state.after_release(unlocked) == (SessionLockState { held: state.held, poisoned: true }),
{
}

/// The first identity is pinned; the same one is accepted after that, and any other is
/// refused; what is pinned stays.
pub proof fn law_pinned_identity_is_the_first(
    pinned: Option<ProfileIdentity>,
    identity: ProfileIdentity,
)
    ensures
        pinned is None ==>
            profile_coordination::pinned_with(pinned, identity).0 == Some(identity)
                && profile_coordination::pinned_with(pinned, identity).1 is Ok,
        pinned is Some ==> profile_coordination::pinned_with(pinned, identity).0 == pinned,
        pinned is Some ==>
            (profile_coordination::pinned_with(pinned, identity).1 is Ok <==> pinned->Some_0 == identity),
        profile_coordination::pinned_with(pinned, identity).1 is Err ==>
            profile_coordination::pinned_with(pinned, identity).1->Err_0 is ProfileLockUnsupported,
{
}

/// The directory of a profile is safe if it is one, is of the user, and is written by
/// nobody else; its database if it is a plain file with one name, is of the user, and
/// is written by nobody else; and a lock file if it is a plain file with one name, is
/// of the user, and is open to nobody else.
pub proof fn law_safe_files(metadata: UnixMetadata, euid: u32)
    ensures
        profile_coordination::root_is_safe(metadata, euid) <==>
            metadata.is_dir
                && metadata.uid == euid
                && metadata.mode & 0o022 == 0,
        profile_coordination::database_is_safe(metadata, euid) <==>
            metadata.is_file
                && !metadata.is_symlink
                && metadata.uid == euid
                && metadata.nlink == 1
                && metadata.mode & 0o022 == 0,
        profile_coordination::lock_file_is_safe(metadata, euid) <==>
            metadata.is_file
                && metadata.uid == euid
                && metadata.nlink == 1
                && metadata.mode & 0o077 == 0,
{
}

/// Locking is unsupported where the system says so, or where its code is one of those
/// of the platform.
pub proof fn law_unsupported_locks(
    unsupported: bool,
    os_code: Option<i32>,
    platform_codes: Seq<i32>,
)
    ensures
        profile_coordination::unsupported_spec(unsupported, os_code, platform_codes) <==>
            unsupported
                || (os_code is Some && (exists|i: int| 0 <= i < platform_codes.len() && #[trigger] platform_codes[i] == os_code->Some_0)),
{
}

/// Every coordinator that is still held is kept.
pub proof fn law_held_coordinators_are_kept<C>(
    entries: Seq<(ProfileIdentity, C)>,
    held: Seq<bool>,
    i: int,
)
    requires
        held.len() == entries.len(),
        0 <= i < entries.len(),
        held[i],
    ensures
        profile_coordination::kept(entries, held).contains(entries[i]),
    decreases entries.len(),
{
    let before = entries.drop_last();
    let still = held.drop_last();
    let rest = profile_coordination::kept(before, still);
    let all = profile_coordination::kept(entries, held);
    if i < before.len() {
        law_held_coordinators_are_kept(before, still, i);
        let k = choose|k: int| 0 <= k < rest.len() && rest[k] == before[i];
        assert(all[k] == entries[i]);
    } else {
        assert(all[all.len() - 1] == entries[i]);
    }
}

/// No coordinator is kept that is not held any more, and none twice.
pub proof fn law_only_held_coordinators_are_kept<C>(
    entries: Seq<(ProfileIdentity, C)>,
    held: Seq<bool>,
    k: int,
)
    requires
        held.len() == entries.len(),
        0 <= k < profile_coordination::kept(entries, held).len(),
    ensures
        exists|i: int| k <= i < entries.len()
            && #[trigger] held[i]
            && entries[i] == profile_coordination::kept(entries, held)[k],
    decreases entries.len(),
{
    let before = entries.drop_last();
    let still = held.drop_last();
    let last = entries.len() - 1;
    let rest = profile_coordination::kept(before, still);
    let all = profile_coordination::kept(entries, held);
    lemma_kept_is_no_longer(before, still);
    if k < rest.len() {
        law_only_held_coordinators_are_kept(before, still, k);
        assert(all[k] == rest[k]);
        let i = choose|i: int| k <= i < before.len() && #[trigger] still[i] && before[i] == rest[k];
        assert(held[i] && entries[i] == all[k]);
    } else {
        assert(held[last] && entries[last] == all[k]);
    }
}

proof fn lemma_kept_is_no_longer<C>(entries: Seq<(ProfileIdentity, C)>, held: Seq<bool>)
    ensures
        profile_coordination::kept(entries, held).len() <= entries.len(),
    decreases entries.len(),
{
    if entries.len() > 0 {
        lemma_kept_is_no_longer(entries.drop_last(), held.drop_last());
    }
}

/// A coordinator stands for an identity where its entry bears it, and a registry is
/// sound if and only if no two entries bear one identity.
pub proof fn law_coordinator_is_found_by_its_identity<C>(
    entries: Seq<(ProfileIdentity, C)>,
    identity: ProfileIdentity,
    i: int,
)
    ensures
        profile_coordination::registered(entries, identity, i) <==>
            0 <= i < entries.len()
                && entries[i].0 == identity,
        profile_coordination::distinct(entries) <==>
            (forall|j: int, k: int| 0 <= j < entries.len() && 0 <= k < entries.len() && j != k ==> (#[trigger] entries[j]).0 != (#[trigger] entries[k]).0),
{
}

} // verus!
