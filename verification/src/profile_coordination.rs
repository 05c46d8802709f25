//! Locks that coordinate the processes of one profile, and the conditions under which
//! a profile directory, database or lock file may be used at all.
use vstd::prelude::*;
use crate::error::ClientError;

verus! {

/// Which file or directory a handle stands for.
#[derive(Debug, Clone, Copy, PartialEq, Eq, Structural, Hash)]
pub struct ProfileIdentity {
    pub volume_serial_or_device: u64,
    pub file_index_or_inode: u64,
}

/// The profile lock within one process: readers share one operating-system lock, a
/// writer holds it alone. Once poisoned it refuses everything.
#[derive(Debug, Clone, Copy, PartialEq, Eq, Structural)]
pub struct ProcessLockState {
    pub readers: usize,
    pub writer: bool,
    pub poisoned: bool,
}

/// The session lock within one process.
#[derive(Debug, Clone, Copy, PartialEq, Eq, Structural)]
pub struct SessionLockState {
    pub held: bool,
    pub poisoned: bool,
}

impl Default for ProcessLockState {
    fn default() -> (r: ProcessLockState)
        ensures
            r == ProcessLockState::unlocked(),
    {
        ProcessLockState { readers: 0, writer: false, poisoned: false }
    }
}

impl Default for SessionLockState {
    fn default() -> (r: SessionLockState)
        ensures
            r == SessionLockState::unlocked(),
    {
        SessionLockState { held: false, poisoned: false }
    }
}

impl ProcessLockState {
    pub open spec fn unlocked() -> ProcessLockState {
        ProcessLockState { readers: 0, writer: false, poisoned: false }
    }

    /// A writer excludes readers.
    pub open spec fn valid(self) -> bool {
        self.writer ==> self.readers == 0
    }

    /// What asking for the shared lock comes to when the operating system's answer, if it
    /// is needed, is `reply`.
    pub open spec fn shared_with(self, reply: Result<(), ClientError>) -> (
        ProcessLockState,
        Result<(), ClientError>,
    ) {
        if self.poisoned {
            (self, Err(ClientError::ProfileLockUnsupported))
        } else if self.writer {
            (self, Err(ClientError::ProfileBusy))
        } else if self.readers == 0 && reply is Err {
            (self, reply)
        } else if self.readers == usize::MAX {
            (self, Err(ClientError::RuntimeState))
        } else {
            (
                ProcessLockState { readers: (self.readers + 1) as usize, ..self },
                Ok(()),
            )
        }
    }

    /// Asks for the shared lock; `lock` takes the operating system's lock and is called
    /// for the first reader only.
    pub fn try_shared<L: FnOnce() -> Result<(), ClientError>>(&mut self, lock: L) -> (r: Result<
        (),
        ClientError,
    >)
        requires
            !old(self).poisoned && !old(self).writer && old(self).readers == 0
                ==> lock.requires(()),
            old(self).valid(),
        ensures
            final(self).valid(),
            old(self).poisoned || old(self).writer || old(self).readers != 0 ==> (
                *final(self),
                r,
            ) == old(self).shared_with(Ok(())),
            !old(self).poisoned && !old(self).writer && old(self).readers == 0 ==> exists|
                reply: Result<(), ClientError>,
            | #[trigger]
                lock.ensures((), reply) && (*final(self), r) == old(self).shared_with(reply),
    {
        if self.poisoned {
            return Err(ClientError::ProfileLockUnsupported);
        }
        if self.writer {
            return Err(ClientError::ProfileBusy);
        }
        if self.readers == 0 {
            let reply = lock();
            proof {
                assert(lock.ensures((), reply));
            }
            match reply {
                Err(error) => {
                    return Err(error);
                },
                Ok(()) => {
                    self.readers = 1;
                    return Ok(());
                },
            }
        }
        match self.readers.checked_add(1) {
            None => Err(ClientError::RuntimeState),
            Some(readers) => {
                self.readers = readers;
                Ok(())
            },
        }
    }

    /// What asking for the exclusive lock comes to.
    pub open spec fn exclusive_with(self, reply: Result<(), ClientError>) -> (
        ProcessLockState,
        Result<(), ClientError>,
    ) {
        if self.poisoned {
            (self, Err(ClientError::ProfileLockUnsupported))
        } else if self.writer || self.readers != 0 {
            (self, Err(ClientError::ProfileBusy))
        } else if reply is Err {
            (self, reply)
        } else {
            (ProcessLockState { writer: true, ..self }, Ok(()))
        }
    }

    /// Asks for the exclusive lock; `lock` takes the operating system's lock and is
    /// called only where nobody in this process holds the profile.
    pub fn try_exclusive<L: FnOnce() -> Result<(), ClientError>>(&mut self, lock: L) -> (r: Result<
        (),
        ClientError,
    >)
        requires
            !old(self).poisoned && !old(self).writer && old(self).readers == 0
                ==> lock.requires(()),
            old(self).valid(),
        ensures
            final(self).valid(),
            old(self).poisoned || old(self).writer || old(self).readers != 0 ==> (
                *final(self),
                r,
            ) == old(self).exclusive_with(Ok(())),
            !old(self).poisoned && !old(self).writer && old(self).readers == 0 ==> exists|
                reply: Result<(), ClientError>,
            | #[trigger]
                lock.ensures((), reply) && (*final(self), r) == old(self).exclusive_with(reply),
    {
        if self.poisoned {
            return Err(ClientError::ProfileLockUnsupported);
        }
        if self.writer || self.readers != 0 {
            return Err(ClientError::ProfileBusy);
        }
        let reply = lock();
        proof {
            assert(lock.ensures((), reply));
        }
        match reply {
            Err(error) => Err(error),
            Ok(()) => {
                self.writer = true;
                Ok(())
            },
        }
    }

    /// The state after a reader left; `unlocked` is the operating system's answer, which
    /// counts for the last reader only.
    pub open spec fn after_shared_release(self, unlocked: bool) -> ProcessLockState {
        if self.readers == 0 {
            ProcessLockState { poisoned: true, ..self }
        } else if self.readers == 1 {
            if unlocked {
                ProcessLockState { readers: 0, ..self }
            } else {
                ProcessLockState { poisoned: true, ..self }
            }
        } else {
            ProcessLockState { readers: (self.readers - 1) as usize, ..self }
        }
    }

    /// A reader leaves; `unlock` gives the operating system's lock back and tells whether
    /// that worked. It is called for the last reader only.
    pub fn release_shared<U: FnOnce() -> bool>(&mut self, unlock: U)
        requires
            old(self).readers == 1 ==> unlock.requires(()),
            old(self).valid(),
        ensures
            final(self).valid(),
            old(self).readers != 1 ==> *final(self) == old(self).after_shared_release(true),
            old(self).readers == 1 ==> exists|unlocked: bool| #[trigger]
                unlock.ensures((), unlocked) && *final(self) == old(self).after_shared_release(
                    unlocked,
                ),
    {
        if self.readers == 0 {
            self.poisoned = true;
        } else if self.readers == 1 {
            let unlocked: bool = unlock();
            proof {
                assert(unlock.ensures((), unlocked));
            }
            if unlocked {
                self.readers = 0;
            } else {
                self.poisoned = true;
            }
        } else {
            self.readers = self.readers - 1;
        }
    }

    /// The state after the writer left.
    pub open spec fn after_exclusive_release(self, unlocked: bool) -> ProcessLockState {
        if self.writer && unlocked {
            ProcessLockState { writer: false, ..self }
        } else {
            ProcessLockState { poisoned: true, ..self }
        }
    }

    /// The writer leaves. Where there is none, nothing is unlocked.
    pub fn release_exclusive<U: FnOnce() -> bool>(&mut self, unlock: U)
        requires
            old(self).writer ==> unlock.requires(()),
            old(self).valid(),
        ensures
            final(self).valid(),
            !old(self).writer ==> *final(self) == old(self).after_exclusive_release(true),
            old(self).writer ==> exists|unlocked: bool| #[trigger]
                unlock.ensures((), unlocked) && *final(self) == old(self).after_exclusive_release(
                    unlocked,
                ),
    {
        if !self.writer {
            self.poisoned = true;
            return;
        }
        let unlocked: bool = unlock();
        proof {
            assert(unlock.ensures((), unlocked));
        }
        if unlocked {
            self.writer = false;
        } else {
            self.poisoned = true;
        }
    }
}

impl SessionLockState {
    pub open spec fn unlocked() -> SessionLockState {
        SessionLockState { held: false, poisoned: false }
    }

    /// What asking for the session lock comes to. Another process that holds it makes the
    /// session busy, not the profile.
    pub open spec fn session_with(self, reply: Result<(), ClientError>) -> (
        SessionLockState,
        Result<(), ClientError>,
    ) {
        if self.poisoned {
            (self, Err(ClientError::ProfileLockUnsupported))
        } else if self.held {
            (self, Err(ClientError::Busy))
        } else {
            match reply {
                Ok(()) => (SessionLockState { held: true, ..self }, Ok(())),
                Err(ClientError::ProfileBusy) => (self, Err(ClientError::Busy)),
                Err(error) => (self, Err(error)),
            }
        }
    }

    /// Asks for the session lock; `verify` checks that the lock file is still the one
    /// that was opened, `lock` takes the operating system's lock. It is taken only once
    /// the file was found to be the same.
    pub fn try_session<
        V: FnOnce() -> Result<(), ClientError>,
        L: FnOnce() -> Result<(), ClientError>,
    >(&mut self, verify: V, lock: L) -> (r: Result<(), ClientError>)
        requires
            !old(self).poisoned && !old(self).held ==> verify.requires(()),
            !old(self).poisoned && !old(self).held ==> forall|checked: Result<(), ClientError>|
             #[trigger]
                verify.ensures((), checked) && checked is Ok ==> lock.requires(()),
        ensures
            old(self).poisoned || old(self).held ==> (*final(self), r) == old(self).session_with(
                Ok(()),
            ),
            !old(self).poisoned && !old(self).held ==> {
                ||| exists|error: ClientError| #[trigger]
                    verify.ensures((), Err(error)) && r == Err::<(), _>(error) && *final(self)
                        == *old(self)
                ||| exists|checked: Result<(), ClientError>, reply: Result<(), ClientError>|
                    {
                        &&& #[trigger] verify.ensures((), checked)
                        &&& checked is Ok
                        &&& #[trigger] lock.ensures((), reply)
                        &&& (*final(self), r) == old(self).session_with(reply)
                    }
            },
    {
        if self.poisoned {
            return Err(ClientError::ProfileLockUnsupported);
        }
        if self.held {
            return Err(ClientError::Busy);
        }
        let checked = verify();
        proof {
            assert(verify.ensures((), checked));
        }
        match checked {
            Err(error) => {
                return Err(error);
            },
            Ok(()) => {},
        }
        let reply = lock();
        proof {
            assert(lock.ensures((), reply));
        }
        match reply {
            Ok(()) => {
                self.held = true;
                Ok(())
            },
            Err(ClientError::ProfileBusy) => Err(ClientError::Busy),
            Err(error) => Err(error),
        }
    }

    /// The state after the session lock was given back.
    pub open spec fn after_release(self, unlocked: bool) -> SessionLockState {
        if self.held && unlocked {
            SessionLockState { held: false, ..self }
        } else {
            SessionLockState { poisoned: true, ..self }
        }
    }

    /// Gives the session lock back.
    pub fn release_session<U: FnOnce() -> bool>(&mut self, unlock: U)
        requires
            old(self).held ==> unlock.requires(()),
        ensures
            !old(self).held ==> *final(self) == old(self).after_release(true),
            old(self).held ==> exists|unlocked: bool| #[trigger]
                unlock.ensures((), unlocked) && *final(self) == old(self).after_release(unlocked),
    {
        if !self.held {
            self.poisoned = true;
            return;
        }
        let unlocked: bool = unlock();
        proof {
            assert(unlock.ensures((), unlocked));
        }
        if unlocked {
            self.held = false;
        } else {
            self.poisoned = true;
        }
    }
}

/// A poisoned lock stays poisoned and refuses everything, whatever is tried.
pub proof fn law_poison_is_permanent(
    state: ProcessLockState,
    session: SessionLockState,
    reply: Result<(), ClientError>,
    unlocked: bool,
)
    requires
        state.poisoned,
        session.poisoned,
    ensures
        state.shared_with(reply) == (
            state,
            Err::<(), ClientError>(ClientError::ProfileLockUnsupported),
        ),
        state.exclusive_with(reply) == (
            state,
            Err::<(), ClientError>(ClientError::ProfileLockUnsupported),
        ),
        state.after_shared_release(unlocked).poisoned,
        state.after_exclusive_release(unlocked).poisoned,
        session.session_with(reply) == (
            session,
            Err::<(), ClientError>(ClientError::ProfileLockUnsupported),
        ),
        session.after_release(unlocked).poisoned,
{
}

/// A failed unlock of the last holder poisons the lock.
pub proof fn law_failed_unlock_poisons(state: ProcessLockState, session: SessionLockState)
    ensures
        state.readers <= 1 ==> state.after_shared_release(false).poisoned,
        state.after_exclusive_release(false).poisoned,
        session.after_release(false).poisoned,
{
}

/// Leaving undoes entering.
pub proof fn law_release_undoes_acquire(state: ProcessLockState, session: SessionLockState)
    requires
        state.valid(),
    ensures
        state.shared_with(Ok(())).1 is Ok ==> state.shared_with(Ok(())).0.after_shared_release(true)
            == state,
        state.exclusive_with(Ok(())).1 is Ok ==> state.exclusive_with(
            Ok(()),
        ).0.after_exclusive_release(true) == state,
        session.session_with(Ok(())).1 is Ok ==> session.session_with(Ok(())).0.after_release(true)
            == session,
{
}

/// A writer excludes everyone, readers exclude a writer, and a held session lock
/// excludes another holder.
pub proof fn law_locks_exclude(
    state: ProcessLockState,
    session: SessionLockState,
    reply: Result<(), ClientError>,
)
    requires
        !state.poisoned,
        !session.poisoned,
    ensures
        state.writer ==> state.shared_with(reply).1 == Err::<(), ClientError>(
            ClientError::ProfileBusy,
        ),
        state.writer || state.readers != 0 ==> state.exclusive_with(reply).1 == Err::<
            (),
            ClientError,
        >(ClientError::ProfileBusy),
        session.held ==> session.session_with(reply).1 == Err::<(), ClientError>(
            ClientError::Busy,
        ),
{
}

/// While another reader is there, one reader's leaving takes that reader off the count
/// and nothing else, whatever the operating system would answer.
pub proof fn law_other_readers_keep_the_lock(state: ProcessLockState)
    requires
        state.readers >= 2,
    ensures
        forall|unlocked: bool|
            #[trigger] state.after_shared_release(unlocked) == (ProcessLockState {
                readers: (state.readers - 1) as usize,
                ..state
            }),
{
}

/// What happens to the lock of a profile within this process: somebody asks for a guard and
/// the operating system answers, or a guard is dropped and unlocking works or not.
pub enum LockEvent {
    AskShared(Result<(), ClientError>),
    AskExclusive(Result<(), ClientError>),
    DropShared(bool),
    DropExclusive(bool),
}

/// The lock of a profile beside the guards that are alive.
pub struct GuardedLock {
    pub state: ProcessLockState,
    pub shared_guards: nat,
    pub exclusive_guard: bool,
}

impl GuardedLock {
    /// A lock that nobody has asked for.
    pub open spec fn fresh() -> GuardedLock {
        GuardedLock {
            state: ProcessLockState::unlocked(),
            shared_guards: 0,
            exclusive_guard: false,
        }
    }

    /// What an event leaves. A guard that is not there is not dropped.
    pub open spec fn after(self, event: LockEvent) -> GuardedLock {
        match event {
            LockEvent::AskShared(reply) => {
                let (state, r) = self.state.shared_with(reply);
                GuardedLock {
                    state,
                    shared_guards: if r is Ok {
                        self.shared_guards + 1
                    } else {
                        self.shared_guards
                    },
                    exclusive_guard: self.exclusive_guard,
                }
            },
            LockEvent::AskExclusive(reply) => {
                let (state, r) = self.state.exclusive_with(reply);
                GuardedLock {
                    state,
                    shared_guards: self.shared_guards,
                    exclusive_guard: self.exclusive_guard || r is Ok,
                }
            },
            LockEvent::DropShared(unlocked) => if self.shared_guards == 0 {
                self
            } else {
                GuardedLock {
                    state: self.state.after_shared_release(unlocked),
                    shared_guards: (self.shared_guards - 1) as nat,
                    exclusive_guard: self.exclusive_guard,
                }
            },
            LockEvent::DropExclusive(unlocked) => if !self.exclusive_guard {
                self
            } else {
                GuardedLock {
                    state: self.state.after_exclusive_release(unlocked),
                    shared_guards: self.shared_guards,
                    exclusive_guard: false,
                }
            },
        }
    }

    /// What a run of events leaves.
    pub open spec fn after_all(self, events: Seq<LockEvent>) -> GuardedLock
        decreases events.len(),
    {
        if events.len() == 0 {
            self
        } else {
            self.after_all(events.drop_last()).after(events.last())
        }
    }

    /// As long as no unlock failed the lock counts exactly the guards that are alive, and a
    /// writer is alone.
    pub open spec fn counts_its_guards(self) -> bool {
        &&& self.state.valid()
        &&& self.exclusive_guard ==> self.shared_guards == 0
        &&& !self.state.poisoned ==> {
            &&& self.state.readers == self.shared_guards
            &&& self.state.writer == self.exclusive_guard
        }
    }
}

/// Whatever happened to a lock: while its exclusive guard is alive nobody else gets a guard,
/// while a shared guard is alive shared guards are given out and no exclusive one, and when
/// every guard is dropped either can be had again.
pub proof fn law_guards_exclude_after_every_run(events: Seq<LockEvent>)
    ensures
        ({
            let lock = GuardedLock::fresh().after_all(events);
            &&& lock.counts_its_guards()
            &&& !lock.state.poisoned && lock.exclusive_guard ==> forall|
                reply: Result<(), ClientError>,
            |
                (#[trigger] lock.state.shared_with(reply)).1 == Err::<(), ClientError>(
                    ClientError::ProfileBusy,
                ) && lock.state.exclusive_with(reply).1 == Err::<(), ClientError>(
                    ClientError::ProfileBusy,
                )
            &&& !lock.state.poisoned && 0 < lock.shared_guards < usize::MAX ==> forall|
                reply: Result<(), ClientError>,
            |
                (#[trigger] lock.state.shared_with(reply)).1 is Ok && lock.state.exclusive_with(
                    reply,
                ).1 == Err::<(), ClientError>(ClientError::ProfileBusy)
            &&& !lock.state.poisoned && lock.shared_guards == 0 && !lock.exclusive_guard ==> {
                &&& lock.state.shared_with(Ok(())).1 is Ok
                &&& lock.state.exclusive_with(Ok(())).1 is Ok
            }
        }),
    decreases events.len(),
{
    if events.len() > 0 {
        law_guards_exclude_after_every_run(events.drop_last());
    }
}

/// Once an unlock failed, everything is refused forever, whatever happens afterwards.
pub proof fn law_poison_outlasts_every_run(lock: GuardedLock, events: Seq<LockEvent>)
    requires
        lock.state.poisoned,
    ensures
        lock.after_all(events).state.poisoned,
        forall|reply: Result<(), ClientError>|
            (#[trigger] lock.after_all(events).state.shared_with(reply)).1 == Err::<
                (),
                ClientError,
            >(ClientError::ProfileLockUnsupported) && lock.after_all(events).state.exclusive_with(
                reply,
            ).1 == Err::<(), ClientError>(ClientError::ProfileLockUnsupported),
    decreases events.len(),
{
    if events.len() > 0 {
        law_poison_outlasts_every_run(lock, events.drop_last());
    }
}

/// The database that a profile was opened with.
pub open spec fn pinned_with(pinned: Option<ProfileIdentity>, identity: ProfileIdentity) -> (
    Option<ProfileIdentity>,
    Result<(), ClientError>,
) {
    match pinned {
        Some(expected) => if expected != identity {
            (pinned, Err(ClientError::ProfileLockUnsupported))
        } else {
            (pinned, Ok(()))
        },
        None => (Some(identity), Ok(())),
    }
}

/// Pins the database of a profile, or checks that it is the one pinned before.
pub fn pin_database(
    pinned: &mut Option<ProfileIdentity>,
    database: Result<ProfileIdentity, ClientError>,
) -> (r: Result<(), ClientError>)
    ensures
        match database {
            Err(error) => r == Err::<(), _>(error) && *final(pinned) == *old(pinned),
            Ok(identity) => (*final(pinned), r) == pinned_with(*old(pinned), identity),
        },
{
    let identity: ProfileIdentity = match database {
        Err(error) => {
            return Err(error);
        },
        Ok(identity) => identity,
    };
    match *pinned {
        Some(expected) => if expected != identity {
            Err(ClientError::ProfileLockUnsupported)
        } else {
            Ok(())
        },
        None => {
            *pinned = Some(identity);
            Ok(())
        },
    }
}

/// Checks that root and database are still those that were pinned.
pub fn validate_pinned_paths(
    root: Result<(), ClientError>,
    pinned: Option<ProfileIdentity>,
    database: Result<ProfileIdentity, ClientError>,
) -> (r: Result<(), ClientError>)
    ensures
        r == (match root {
            Err(error) => Err::<(), ClientError>(error),
            Ok(()) => match pinned {
                None => Err(ClientError::ProfileLockUnsupported),
                Some(expected) => match database {
                    Err(error) => Err(error),
                    Ok(identity) => if identity == expected {
                        Ok(())
                    } else {
                        Err(ClientError::ProfileLockUnsupported)
                    },
                },
            },
        }),
{
    match root {
        Err(error) => {
            return Err(error);
        },
        Ok(()) => {},
    }
    let expected: ProfileIdentity = match pinned {
        None => {
            return Err(ClientError::ProfileLockUnsupported);
        },
        Some(expected) => expected,
    };
    match database {
        Err(error) => Err(error),
        Ok(identity) => if identity == expected {
            Ok(())
        } else {
            Err(ClientError::ProfileLockUnsupported)
        },
    }
}

/// A pinned database is never replaced, and pinning it again succeeds.
pub proof fn law_pin_is_kept(
    pinned: Option<ProfileIdentity>,
    first: ProfileIdentity,
    second: ProfileIdentity,
)
    requires
        pinned_with(pinned, first).1 is Ok,
    ensures
        pinned_with(pinned_with(pinned, first).0, second).0 == Some(first),
        pinned_with(pinned_with(pinned, first).0, second).1 is Ok == (first == second),
{
}

/// What Unix tells of a file.
#[derive(Debug, Clone, Copy, PartialEq, Eq, Structural)]
pub struct UnixMetadata {
    pub is_dir: bool,
    pub is_file: bool,
    pub is_symlink: bool,
    pub uid: u32,
    pub mode: u32,
    pub nlink: u64,
    pub identity: ProfileIdentity,
}

/// Nobody but the owner may write.
pub open spec fn owner_writes_only(mode: u32) -> bool {
    mode & 0o022 == 0
}

/// Nobody but the owner has any access.
pub open spec fn owner_access_only(mode: u32) -> bool {
    mode & 0o077 == 0
}

/// A directory that the user alone can change.
pub open spec fn root_is_safe(metadata: UnixMetadata, euid: u32) -> bool {
    metadata.is_dir && metadata.uid == euid && owner_writes_only(metadata.mode)
}

/// A plain file that the user alone can change and that has one name.
pub open spec fn database_is_safe(metadata: UnixMetadata, euid: u32) -> bool {
    metadata.is_file && !metadata.is_symlink && metadata.uid == euid && metadata.nlink == 1
        && owner_writes_only(metadata.mode)
}

/// A plain file that the user alone can open and that has one name.
pub open spec fn lock_file_is_safe(metadata: UnixMetadata, euid: u32) -> bool {
    metadata.is_file && metadata.uid == euid && metadata.nlink == 1 && owner_access_only(
        metadata.mode,
    )
}

/// Accepts the opened directory of a profile.
pub fn accept_unix_root(metadata: &UnixMetadata, euid: u32) -> (r: Result<
    ProfileIdentity,
    ClientError,
>)
    ensures
        r == (if root_is_safe(*metadata, euid) {
            Ok::<ProfileIdentity, ClientError>(metadata.identity)
        } else {
            Err(ClientError::ProfileLockUnsupported)
        }),
{
    if !metadata.is_dir || metadata.uid != euid || metadata.mode & 0o022 != 0 {
        return Err(ClientError::ProfileLockUnsupported);
    }
    Ok(metadata.identity)
}

/// Checks the directory of a profile by its path; there is no metadata where it could
/// not be read.
pub fn validate_profile_root_path(
    metadata: Option<UnixMetadata>,
    euid: u32,
    expected: ProfileIdentity,
) -> (r: Result<(), ClientError>)
    ensures
        r == (if metadata is Some && root_is_safe(metadata.unwrap(), euid)
            && !metadata.unwrap().is_symlink && metadata.unwrap().identity == expected {
            Ok::<(), ClientError>(())
        } else {
            Err(ClientError::ProfileLockUnsupported)
        }),
{
    match metadata {
        None => Err(ClientError::ProfileLockUnsupported),
        Some(metadata) => if !metadata.is_dir || metadata.is_symlink || metadata.uid != euid
            || metadata.mode & 0o022 != 0 || metadata.identity != expected {
            Err(ClientError::ProfileLockUnsupported)
        } else {
            Ok(())
        },
    }
}

/// Checks the database of a profile by its path.
pub fn validate_profile_database_path(metadata: Option<UnixMetadata>, euid: u32) -> (r: Result<
    ProfileIdentity,
    ClientError,
>)
    ensures
        r == (if metadata is Some && database_is_safe(metadata.unwrap(), euid) {
            Ok::<ProfileIdentity, ClientError>(metadata.unwrap().identity)
        } else {
            Err(ClientError::ProfileLockUnsupported)
        }),
{
    match metadata {
        None => Err(ClientError::ProfileLockUnsupported),
        Some(metadata) => if !metadata.is_file || metadata.is_symlink || metadata.uid != euid
            || metadata.nlink != 1 || metadata.mode & 0o022 != 0 {
            Err(ClientError::ProfileLockUnsupported)
        } else {
            Ok(metadata.identity)
        },
    }
}

/// Accepts a lock file that was opened in the profile's directory.
pub fn accept_unix_lock_file(metadata: Option<UnixMetadata>, euid: u32) -> (r: Result<
    ProfileIdentity,
    ClientError,
>)
    ensures
        r == (if metadata is Some && lock_file_is_safe(metadata.unwrap(), euid) {
            Ok::<ProfileIdentity, ClientError>(metadata.unwrap().identity)
        } else {
            Err(ClientError::ProfileLockUnsupported)
        }),
{
    match metadata {
        None => Err(ClientError::ProfileLockUnsupported),
        Some(metadata) => if !metadata.is_file || metadata.uid != euid || metadata.nlink != 1
            || metadata.mode & 0o077 != 0 {
            Err(ClientError::ProfileLockUnsupported)
        } else {
            Ok(metadata.identity)
        },
    }
}

/// Checks that a lock file is still the one that was opened.
pub fn verify_unix_lock_file(
    metadata: Option<UnixMetadata>,
    euid: u32,
    expected: ProfileIdentity,
) -> (r: Result<(), ClientError>)
    ensures
        r == (if metadata is Some && lock_file_is_safe(metadata.unwrap(), euid)
            && metadata.unwrap().identity == expected {
            Ok::<(), ClientError>(())
        } else {
            Err(ClientError::ProfileLockUnsupported)
        }),
{
    match accept_unix_lock_file(metadata, euid) {
        Err(error) => Err(error),
        Ok(identity) => if identity == expected {
            Ok(())
        } else {
            Err(ClientError::ProfileLockUnsupported)
        },
    }
}

/// What the operating system answers to a lock request.
#[derive(Debug, Clone, Copy, PartialEq, Eq, Structural)]
pub enum LockOutcome {
    Locked,
    WouldBlock,
    Failed { unsupported: bool, os_code: Option<i32> },
}

/// Whether an error says that the file system knows no such locks: by its kind, or by
/// one of the codes that the platform has for it.
pub open spec fn unsupported_spec(
    unsupported: bool,
    os_code: Option<i32>,
    platform_codes: Seq<i32>,
) -> bool {
    unsupported || (os_code is Some && platform_codes.contains(os_code.unwrap()))
}

pub fn is_unsupported_lock_error(
    unsupported: bool,
    os_code: Option<i32>,
    platform_codes: &Vec<i32>,
) -> (r: bool)
    ensures
        r == unsupported_spec(unsupported, os_code, platform_codes@),
{
    if unsupported {
        return true;
    }
    match os_code {
        None => false,
        Some(code) => {
            let mut i: usize = 0;
            while i < platform_codes.len()
                invariant
                    i <= platform_codes@.len(),
                    os_code == Some(code),
                    forall|j: int| 0 <= j < i ==> platform_codes@[j] != code,
                decreases platform_codes@.len() - i,
            {
                if platform_codes[i] == code {
                    proof {
                        assert(platform_codes@[i as int] == code);
                    }
                    return true;
                }
                i = i + 1;
            }
            false
        },
    }
}

/// What a lock request came to.
pub fn lock_result(outcome: LockOutcome, platform_codes: &Vec<i32>) -> (r: Result<
    (),
    ClientError,
>)
    ensures
        r == (match outcome {
            LockOutcome::Locked => Ok::<(), ClientError>(()),
            LockOutcome::WouldBlock => Err(ClientError::ProfileBusy),
            LockOutcome::Failed { unsupported, os_code } => if unsupported_spec(
                unsupported,
                os_code,
                platform_codes@,
            ) {
                Err(ClientError::ProfileLockUnsupported)
            } else {
                Err(ClientError::Io)
            },
        }),
{
    match outcome {
        LockOutcome::Locked => Ok(()),
        LockOutcome::WouldBlock => Err(ClientError::ProfileBusy),
        LockOutcome::Failed { unsupported, os_code } => if is_unsupported_lock_error(
            unsupported,
            os_code,
            platform_codes,
        ) {
            Err(ClientError::ProfileLockUnsupported)
        } else {
            Err(ClientError::Io)
        },
    }
}

/// What a request for the session lock of a profile came to. Unlike the profile lock,
/// a session that is in use is only busy.
pub fn acquire_session_token_set_lock(outcome: LockOutcome) -> (r: Result<(), ClientError>)
    ensures
        r == (match outcome {
            LockOutcome::Locked => Ok::<(), ClientError>(()),
            LockOutcome::WouldBlock => Err(ClientError::Busy),
            LockOutcome::Failed { .. } => Err(ClientError::Io),
        }),
{
    match outcome {
        LockOutcome::Locked => Ok(()),
        LockOutcome::WouldBlock => Err(ClientError::Busy),
        LockOutcome::Failed { .. } => Err(ClientError::Io),
    }
}

/// The coordinators of a process, each under the directory it stands for; `C` refers
/// to a coordinator without keeping it.
pub struct CoordinatorRegistry<C> {
    pub entries: Vec<(ProfileIdentity, C)>,
}

/// Where the coordinator of a directory is registered.
pub open spec fn registered<C>(
    entries: Seq<(ProfileIdentity, C)>,
    identity: ProfileIdentity,
    i: int,
) -> bool {
    0 <= i < entries.len() && entries[i].0 == identity
}

/// The entries that are held, in their order.
pub open spec fn kept<C>(entries: Seq<(ProfileIdentity, C)>, held: Seq<bool>) -> Seq<
    (ProfileIdentity, C),
>
    decreases entries.len(),
{
    if entries.len() == 0 {
        Seq::empty()
    } else if held.last() {
        kept(entries.drop_last(), held.drop_last()).push(entries.last())
    } else {
        kept(entries.drop_last(), held.drop_last())
    }
}

/// No directory stands twice.
pub open spec fn distinct<C>(entries: Seq<(ProfileIdentity, C)>) -> bool {
    forall|i: int, j: int|
        0 <= i < j < entries.len() ==> (#[trigger] entries[i]).0 != (#[trigger] entries[j]).0
}

proof fn lemma_kept_is_valid<C>(entries: Seq<(ProfileIdentity, C)>, held: Seq<bool>)
    requires
        distinct(entries),
        held.len() == entries.len(),
    ensures
        distinct(kept(entries, held)),
        forall|i: int|
            0 <= i < kept(entries, held).len() ==> entries.contains(
                #[trigger] kept(entries, held)[i],
            ),
    decreases entries.len(),
{
    if entries.len() > 0 {
        let shorter = entries.drop_last();
        assert(distinct(shorter)) by {
            assert forall|i: int, j: int| 0 <= i < j < shorter.len() implies (
            #[trigger] shorter[i]).0 != (#[trigger] shorter[j]).0 by {
                assert(entries[i].0 != entries[j].0);
            }
        }
        lemma_kept_is_valid(shorter, held.drop_last());
        let rest = kept(shorter, held.drop_last());
        let all = kept(entries, held);
        assert forall|i: int| 0 <= i < rest.len() implies entries.contains(#[trigger] rest[i])
            && rest[i].0 != entries.last().0 by {
            assert(shorter.contains(rest[i]));
            let k = choose|k: int| 0 <= k < shorter.len() && shorter[k] == rest[i];
            assert(entries[k] == rest[i]);
            assert(entries[k].0 != entries[entries.len() - 1].0);
        }
        assert(entries.contains(entries.last()));
        assert forall|i: int| 0 <= i < all.len() implies entries.contains(#[trigger] all[i]) by {
            if i < rest.len() {
                assert(all[i] == rest[i]);
            }
        }
        assert forall|i: int, j: int| 0 <= i < j < all.len() implies (#[trigger] all[i]).0 != (
        #[trigger] all[j]).0 by {
            assert(all[i] == rest[i]);
            if j < rest.len() {
                assert(all[j] == rest[j]);
            }
        }
    }
}

impl<C> CoordinatorRegistry<C> {
    /// No directory is registered twice.
    pub open spec fn valid(self) -> bool {
        distinct(self.entries@)
    }

    pub fn new() -> (r: CoordinatorRegistry<C>)
        ensures
            r.valid(),
            r.entries@.len() == 0,
    {
        CoordinatorRegistry { entries: Vec::new() }
    }

    /// Forgets the coordinators that nobody holds any more; `alive` tells which are held.
    pub fn retain_live<A: Fn(&C) -> bool>(&mut self, alive: A)
        requires
            old(self).valid(),
            forall|i: int|
                0 <= i < old(self).entries@.len() ==> #[trigger] alive.requires(
                    (&old(self).entries@[i].1,),
                ),
        ensures
            final(self).valid(),
            exists|held: Seq<bool>|
                {
                    &&& #[trigger] held.len() == old(self).entries@.len()
                    &&& forall|i: int|
                        0 <= i < held.len() ==> alive.ensures(
                            (&old(self).entries@[i].1,),
                            #[trigger] held[i],
                        )
                    &&& final(self).entries@ == kept(old(self).entries@, held)
                },
    {
        let ghost before = self.entries@;
        let mut entries: Vec<(ProfileIdentity, C)> = Vec::new();
        core::mem::swap(&mut entries, &mut self.entries);
        let mut live: Vec<(ProfileIdentity, C)> = Vec::new();
        let ghost mut held: Seq<bool> = Seq::empty();
        for entry in iter: entries
            invariant
                iter.seq() == before,
                forall|i: int|
                    0 <= i < before.len() ==> #[trigger] alive.requires((&before[i].1,)),
                held.len() == iter.index(),
                forall|i: int|
                    0 <= i < held.len() ==> alive.ensures((&before[i].1,), #[trigger] held[i]),
                live@ == kept(before.take(iter.index() as int), held),
        {
            let ghost at = iter.index() as int;
            assert(entry == before[at]);
            let verdict: bool = alive(&entry.1);
            proof {
                assert(before.take(at + 1).drop_last() =~= before.take(at));
                assert(held.push(verdict).drop_last() =~= held);
                assert(before.take(at + 1).last() == entry);
                held = held.push(verdict);
            }
            if verdict {
                live.push(entry);
            }
        }
        proof {
            assert(before.take(before.len() as int) =~= before);
            lemma_kept_is_valid(before, held);
        }
        self.entries = live;
    }

    /// The coordinator of a directory: the one that is registered, as long as somebody
    /// holds it, and `None` where a new one is to be made and registered.
    pub fn coordinator<H, U: Fn(&C) -> Option<H>>(
        &self,
        identity: ProfileIdentity,
        upgrade: U,
    ) -> (r: Option<H>)
        requires
            self.valid(),
            forall|i: int|
                0 <= i < self.entries@.len() ==> #[trigger] upgrade.requires(
                    (&self.entries@[i].1,),
                ),
        ensures
            (forall|i: int| !#[trigger] registered(self.entries@, identity, i)) ==> r is None,
            forall|i: int| #[trigger]
                registered(self.entries@, identity, i) ==> upgrade.ensures(
                    (&self.entries@[i].1,),
                    r,
                ),
    {
        let mut i: usize = 0;
        while i < self.entries.len()
            invariant
                i <= self.entries@.len(),
                self.valid(),
                forall|j: int|
                    0 <= j < self.entries@.len() ==> #[trigger] upgrade.requires(
                        (&self.entries@[j].1,),
                    ),
                forall|j: int| 0 <= j < i ==> (#[trigger] self.entries@[j]).0 != identity,
            decreases self.entries@.len() - i,
        {
            if self.entries[i].0 == identity {
                let found = upgrade(&self.entries[i].1);
                proof {
                    assert(registered(self.entries@, identity, i as int));
                    assert forall|j: int| #[trigger]
                        registered(self.entries@, identity, j) implies j == i by {
                        assert(self.entries@[j].0 == self.entries@[i as int].0);
                    }
                }
                return found;
            }
            i = i + 1;
        }
        proof {
            assert forall|j: int| !#[trigger] registered(self.entries@, identity, j) by {
                if 0 <= j < self.entries@.len() {
                    assert(self.entries@[j].0 != identity);
                }
            }
        }
        None
    }

    /// Registers a coordinator. One that was registered for the same directory before,
    /// and that nobody holds any more, gives way.
    pub fn register(&mut self, identity: ProfileIdentity, coordinator: C)
        requires
            old(self).valid(),
        ensures
            final(self).valid(),
            exists|i: int|
                #[trigger] registered(final(self).entries@, identity, i)
                    && final(self).entries@[i].1 == coordinator,
            forall|other: ProfileIdentity, i: int|
                other != identity && #[trigger] registered(old(self).entries@, other, i)
                    ==> final(self).entries@[i] == old(self).entries@[i],
            forall|other: ProfileIdentity, i: int|
                other != identity && #[trigger] registered(final(self).entries@, other, i)
                    ==> registered(old(self).entries@, other, i),
    {
        let mut i: usize = 0;
        while i < self.entries.len()
            invariant
                i <= self.entries@.len(),
                self.valid(),
                self.entries@ == old(self).entries@,
                forall|j: int| 0 <= j < i ==> (#[trigger] self.entries@[j]).0 != identity,
            decreases self.entries@.len() - i,
        {
            if self.entries[i].0 == identity {
                self.entries.set(i, (identity, coordinator));
                proof {
                    assert(registered(self.entries@, identity, i as int));
                    assert forall|a: int, b: int| 0 <= a < b < self.entries@.len() implies (
                    #[trigger] self.entries@[a]).0 != (#[trigger] self.entries@[b]).0 by {
                        assert(old(self).entries@[a].0 != old(self).entries@[b].0);
                    }
                }
                return;
            }
            i = i + 1;
        }
        self.entries.push((identity, coordinator));
        proof {
            assert(registered(self.entries@, identity, i as int));
            assert forall|a: int, b: int| 0 <= a < b < self.entries@.len() implies (
            #[trigger] self.entries@[a]).0 != (#[trigger] self.entries@[b]).0 by {
                if b < i {
                    assert(old(self).entries@[a].0 != old(self).entries@[b].0);
                }
            }
        }
    }
}

/// Two directories never share a coordinator's entry, and one directory never has two:
/// what one profile locks, another does not see, and every alias of a profile does.
pub proof fn law_one_coordinator_per_directory<C>(
    registry: CoordinatorRegistry<C>,
    one: ProfileIdentity,
    other: ProfileIdentity,
    i: int,
    j: int,
)
    requires
        registry.valid(),
        registered(registry.entries@, one, i),
        registered(registry.entries@, other, j),
    ensures
        i == j <==> one == other,
{
}

} // verus!
