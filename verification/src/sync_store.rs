//! The lease under which a sync run writes: who holds it, when it is renewed and
//! checked, and what fails closed without it.
use vstd::prelude::*;
use vstd::string::*;
use crate::domain::{CompletedTimerSession, List, Task, TaskSeries, TaskTemplate};
use crate::error::StorageError;
use crate::ids::Uuid;

verus! {

/// Whether a store may work without a lease. Only protocol harnesses may.
#[derive(Debug, Clone, Copy, PartialEq, Eq, Structural)]
pub enum SyncStoreCoordination {
    LeaseRequired,
    UnfencedProtocolHarness,
}

/// The lease side of a sync store; `L` is a lease as the database hands it out.
pub struct SqliteSyncStore<L> {
    pub lease: Option<L>,
    pub release_lease_on_drop: bool,
    pub coordination: SyncStoreCoordination,
    pub preflight_calls: usize,
    pub fail_preflight_on_call: Option<usize>,
}

/// The words for a lost lease.
pub open spec fn lease_lost_text() -> Seq<char> {
    "sync lease lost"@
}

/// The stable names of coordination errors; every other error keeps its own words.
pub open spec fn coordination_text(error: StorageError, words: Seq<char>) -> Seq<char> {
    match error {
        StorageError::DatabaseBusy => "database busy"@,
        StorageError::SyncLeaseBusy => "sync lease busy"@,
        StorageError::SyncLeaseLost => lease_lost_text(),
        StorageError::ProfileRuntimeEpochChanged => lease_lost_text(),
        _ => words,
    }
}

/// The name of an error; `words` is what the error says of itself.
pub fn sync_coordination_error(error: StorageError, words: String) -> (r: String)
    ensures
        r@ == coordination_text(error, words@),
{
    if error.is_database_busy() {
        return "database busy".to_owned();
    }
    match error {
        StorageError::SyncLeaseBusy => "sync lease busy".to_owned(),
        StorageError::SyncLeaseLost => "sync lease lost".to_owned(),
        StorageError::ProfileRuntimeEpochChanged => "sync lease lost".to_owned(),
        _ => words,
    }
}

/// The time on which leases run, from what the system clock says.
pub fn coordination_now_ms(millis_since_epoch: Option<u128>) -> (r: Result<i64, StorageError>)
    ensures
        match millis_since_epoch {
            None => r == Err::<i64, StorageError>(StorageError::ProfileCoordinationClockRollback),
            Some(millis) => if millis <= i64::MAX {
                r is Ok && r->Ok_0 == millis
            } else {
                r == Err::<i64, StorageError>(StorageError::ProfileCoordinationOverflow)
            },
        },
{
    match millis_since_epoch {
        None => Err(StorageError::ProfileCoordinationClockRollback),
        Some(millis) => if millis <= i64::MAX as u128 {
            Ok(millis as i64)
        } else {
            Err(StorageError::ProfileCoordinationOverflow)
        },
    }
}

/// What the beginning of a write under a renewed lease comes to.
pub open spec fn fenced_write_begun<
    L,
    W,
    B: FnOnce() -> Result<W, StorageError>,
    A: FnOnce(&W, &L) -> Result<(), StorageError>,
>(r: Result<(W, bool), StorageError>, lease: L, begin: B, assert_lease: A) -> bool {
    exists|begun: Result<W, StorageError>| #[trigger]
        begin.ensures((), begun) && match begun {
            Err(error) => r is Err && r->Err_0 == error,
            Ok(transaction) => exists|held: Result<(), StorageError>| #[trigger]
                assert_lease.ensures((&transaction, &lease), held) && match held {
                    Err(error) => r is Err && r->Err_0 == error,
                    Ok(()) => r == Ok::<(W, bool), StorageError>((transaction, true)),
                },
        }
}

impl<L> SqliteSyncStore<L> {
    /// A store for protocol harnesses, without a lease.
    pub fn new() -> (r: SqliteSyncStore<L>)
        ensures
            r.lease is None,
            !r.release_lease_on_drop,
            r.coordination == SyncStoreCoordination::UnfencedProtocolHarness,
            r.preflight_calls == 0,
            r.fail_preflight_on_call is None,
    {
        SqliteSyncStore {
            lease: None,
            release_lease_on_drop: false,
            coordination: SyncStoreCoordination::UnfencedProtocolHarness,
            preflight_calls: 0,
            fail_preflight_on_call: None,
        }
    }

    /// A store that does nothing before it has a lease.
    pub fn new_secret() -> (r: SqliteSyncStore<L>)
        ensures
            r.lease is None,
            !r.release_lease_on_drop,
            r.coordination == SyncStoreCoordination::LeaseRequired,
            r.preflight_calls == 0,
            r.fail_preflight_on_call is None,
    {
        SqliteSyncStore {
            lease: None,
            release_lease_on_drop: false,
            coordination: SyncStoreCoordination::LeaseRequired,
            preflight_calls: 0,
            fail_preflight_on_call: None,
        }
    }

    /// A store that works under a lease somebody else will give back.
    pub fn new_secret_with_lease(lease: L) -> (r: SqliteSyncStore<L>)
        ensures
            r.lease == Some(lease),
            !r.release_lease_on_drop,
            r.coordination == SyncStoreCoordination::LeaseRequired,
            r.preflight_calls == 0,
            r.fail_preflight_on_call is None,
    {
        SqliteSyncStore {
            lease: Some(lease),
            release_lease_on_drop: false,
            coordination: SyncStoreCoordination::LeaseRequired,
            preflight_calls: 0,
            fail_preflight_on_call: None,
        }
    }

    /// Two stores that differ in nothing but the lease and who gives it back.
    pub open spec fn same_but_lease(self, other: SqliteSyncStore<L>) -> bool {
        &&& self.coordination == other.coordination
        &&& self.preflight_calls == other.preflight_calls
        &&& self.fail_preflight_on_call == other.fail_preflight_on_call
    }

    /// Makes a harness lose its lease at an exact request. Calls count from one.
    pub fn fail_preflight_on_call(&mut self, call: usize)
        requires
            call > 0,
        ensures
            final(self).fail_preflight_on_call == Some(call),
            final(self).lease == old(self).lease,
            final(self).release_lease_on_drop == old(self).release_lease_on_drop,
            final(self).coordination == old(self).coordination,
            final(self).preflight_calls == old(self).preflight_calls,
    {
        self.fail_preflight_on_call = Some(call);
    }

    pub fn preflight_call_count(&self) -> (r: usize)
        ensures
            r == self.preflight_calls,
    {
        self.preflight_calls
    }

    /// Takes a lease; `acquire` asks the database for it. A store that already has one
    /// has lost track of it.
    pub fn acquire_sync_lease<A: FnOnce() -> Result<L, StorageError>>(&mut self, acquire: A) -> (r:
        Result<(), StorageError>)
        requires
            old(self).lease is None ==> acquire.requires(()),
        ensures
            final(self).same_but_lease(*old(self)),
            old(self).lease is Some ==> {
                &&& r == Err::<(), StorageError>(StorageError::SyncLeaseLost)
                &&& *final(self) == *old(self)
            },
            old(self).lease is None ==> exists|reply: Result<L, StorageError>| #[trigger]
                acquire.ensures((), reply) && match reply {
                    Err(error) => r == Err::<(), StorageError>(error) && *final(self) == *old(self),
                    Ok(lease) => {
                        &&& r is Ok
                        &&& final(self).lease == Some(lease)
                        &&& final(self).release_lease_on_drop
                    },
                },
    {
        if self.lease.is_some() {
            return Err(StorageError::SyncLeaseLost);
        }
        let reply = acquire();
        proof {
            assert(acquire.ensures((), reply));
        }
        match reply {
            Err(error) => Err(error),
            Ok(lease) => {
                self.lease = Some(lease);
                self.release_lease_on_drop = true;
                Ok(())
            },
        }
    }

    /// Gives the lease back; `release` tells the database. Where that fails the store
    /// keeps its lease.
    pub fn release_sync_lease<R: FnOnce(&L) -> Result<(), StorageError>>(
        &mut self,
        release: R,
    ) -> (r: Result<(), StorageError>)
        requires
            old(self).lease matches Some(lease) ==> release.requires((&lease,)),
        ensures
            final(self).same_but_lease(*old(self)),
            old(self).lease is None ==> r is Ok && *final(self) == *old(self),
            old(self).lease is Some ==> exists|reply: Result<(), StorageError>| #[trigger]
                release.ensures((&old(self).lease.unwrap(),), reply) && match reply {
                    Err(error) => r == Err::<(), StorageError>(error) && *final(self) == *old(self),
                    Ok(()) => {
                        &&& r is Ok
                        &&& final(self).lease is None
                        &&& !final(self).release_lease_on_drop
                    },
                },
    {
        let reply: Result<(), StorageError> = match &self.lease {
            None => {
                return Ok(());
            },
            Some(lease) => release(lease),
        };
        proof {
            assert(release.ensures((&old(self).lease.unwrap(),), reply));
        }
        match reply {
            Err(error) => Err(error),
            Ok(()) => {
                self.lease = None;
                self.release_lease_on_drop = false;
                Ok(())
            },
        }
    }

    /// What becomes of a store that is given up, at its end or in the middle of a run: a
    /// lease that it took itself goes back, and one that somebody else will give back
    /// stays. Nobody is told where the release fails.
    pub fn give_up<R: FnOnce(&L) -> Result<(), StorageError>>(&mut self, release: R)
        requires
            old(self).release_lease_on_drop ==> (old(self).lease matches Some(lease)
                ==> release.requires((&lease,))),
        ensures
            final(self).same_but_lease(*old(self)),
            !old(self).release_lease_on_drop || old(self).lease is None ==> *final(self)
                == *old(self),
            old(self).release_lease_on_drop && old(self).lease is Some ==> exists|
                reply: Result<(), StorageError>,
            | #[trigger]
                release.ensures((&old(self).lease.unwrap(),), reply) && match reply {
                    Err(_) => *final(self) == *old(self),
                    Ok(()) => final(self).lease is None && !final(self).release_lease_on_drop,
                },
    {
        if self.release_lease_on_drop {
            let _ = self.release_sync_lease(release);
        }
    }

    /// Renews the lease; `renew` asks the database. Tells whether there is one.
    pub fn renew_sync_lease<R: FnOnce(&L) -> Result<L, StorageError>>(&mut self, renew: R) -> (r:
        Result<bool, StorageError>)
        requires
            old(self).lease matches Some(lease) ==> renew.requires((&lease,)),
        ensures
            final(self).same_but_lease(*old(self)),
            final(self).release_lease_on_drop == old(self).release_lease_on_drop,
            old(self).lease is None ==> r == Ok::<bool, StorageError>(false) && *final(self)
                == *old(self),
            old(self).lease is Some ==> exists|reply: Result<L, StorageError>| #[trigger]
                renew.ensures((&old(self).lease.unwrap(),), reply) && match reply {
                    Err(error) => r == Err::<bool, StorageError>(error) && *final(self)
                        == *old(self),
                    Ok(lease) => r == Ok::<bool, StorageError>(true) && final(self).lease == Some(
                        lease,
                    ),
                },
    {
        let reply: Result<L, StorageError> = match &self.lease {
            None => {
                return Ok(false);
            },
            Some(lease) => renew(lease),
        };
        proof {
            assert(renew.ensures((&old(self).lease.unwrap(),), reply));
        }
        match reply {
            Err(error) => Err(error),
            Ok(lease) => {
                self.lease = Some(lease);
                Ok(true)
            },
        }
    }

    /// The lease that a run works under.
    pub fn active_lease(&self) -> (r: Result<&L, StorageError>)
        ensures
            match self.lease {
                Some(lease) => r is Ok && *r->Ok_0 == lease,
                None => r is Err && r->Err_0 == StorageError::SyncLeaseLost,
            },
    {
        match &self.lease {
            Some(lease) => Ok(lease),
            None => Err(StorageError::SyncLeaseLost),
        }
    }

    /// A harness that has no lease.
    pub open spec fn unfenced(self) -> bool {
        self.coordination == SyncStoreCoordination::UnfencedProtocolHarness && self.lease is None
    }

    /// Checks the lease before a network request: it is renewed, and the database must
    /// still know it. Without a lease nothing is sent.
    pub fn preflight_network_request<
        R: FnOnce(&L) -> Result<L, StorageError>,
        A: FnOnce(&L) -> Result<(), StorageError>,
    >(&mut self, renew: R, assert_lease: A) -> (r: Result<(), StorageError>)
        requires
            old(self).unfenced() ==> old(self).preflight_calls < usize::MAX,
            old(self).lease matches Some(lease) ==> renew.requires((&lease,)),
            old(self).lease matches Some(lease) ==> forall|renewed: L| #[trigger]
                renew.ensures((&lease,), Ok(renewed)) ==> assert_lease.requires((&renewed,)),
        ensures
            old(self).unfenced() ==> {
                &&& final(self).preflight_calls == old(self).preflight_calls + 1
                &&& final(self).lease is None
                &&& final(self).fail_preflight_on_call == old(self).fail_preflight_on_call
                &&& final(self).coordination == old(self).coordination
                &&& r is Err <==> old(self).fail_preflight_on_call == Some(
                    (old(self).preflight_calls + 1) as usize,
                )
                &&& r is Err ==> r->Err_0 == StorageError::SyncLeaseLost
            },
            !old(self).unfenced() && old(self).lease is None ==> {
                &&& r is Err && r->Err_0 == StorageError::SyncLeaseLost
                &&& *final(self) == *old(self)
            },
            old(self).lease is Some ==> exists|renewed: Result<L, StorageError>| #[trigger]
                renew.ensures((&old(self).lease.unwrap(),), renewed) && match renewed {
                    Err(error) => r is Err && r->Err_0 == error && *final(self) == *old(self),
                    Ok(lease) => {
                        &&& final(self).lease == Some(lease)
                        &&& final(self).same_but_lease(*old(self))
                        &&& assert_lease.ensures((&lease,), r)
                    },
                },
            final(self).release_lease_on_drop == old(self).release_lease_on_drop,
    {
        let harness: bool = match self.coordination {
            SyncStoreCoordination::UnfencedProtocolHarness => true,
            SyncStoreCoordination::LeaseRequired => false,
        };
        if harness && self.lease.is_none() {
            self.preflight_calls = self.preflight_calls + 1;
            return match self.fail_preflight_on_call {
                Some(call) => if call == self.preflight_calls {
                    Err(StorageError::SyncLeaseLost)
                } else {
                    Ok(())
                },
                None => Ok(()),
            };
        }
        match self.renew_sync_lease(renew) {
            Err(error) => Err(error),
            Ok(_) => match &self.lease {
                None => Err(StorageError::SyncLeaseLost),
                Some(lease) => assert_lease(lease),
            },
        }
    }

    /// What the beginning of a write comes to.
    pub open spec fn write_begun<
        W,
        R: FnOnce(&L) -> Result<L, StorageError>,
        B: FnOnce() -> Result<W, StorageError>,
        A: FnOnce(&W, &L) -> Result<(), StorageError>,
    >(
        self,
        after: SqliteSyncStore<L>,
        r: Result<(W, bool), StorageError>,
        renew: R,
        begin: B,
        assert_lease: A,
    ) -> bool {
        &&& after.same_but_lease(self)
        &&& after.release_lease_on_drop == self.release_lease_on_drop
        &&& self.lease is None && self.coordination == SyncStoreCoordination::LeaseRequired ==> {
            &&& r is Err && r->Err_0 == StorageError::SyncLeaseLost
            &&& after == self
        }
        &&& self.unfenced() ==> after == self && exists|begun: Result<W, StorageError>| #[trigger]
            begin.ensures((), begun) && match begun {
                Err(error) => r is Err && r->Err_0 == error,
                Ok(transaction) => r == Ok::<(W, bool), StorageError>((transaction, false)),
            }
        &&& self.lease is Some ==> exists|renewed: Result<L, StorageError>| #[trigger]
            renew.ensures((&self.lease.unwrap(),), renewed) && match renewed {
                Err(error) => r is Err && r->Err_0 == error && after == self,
                Ok(lease) => after.lease == Some(lease) && fenced_write_begun(
                    r,
                    lease,
                    begin,
                    assert_lease,
                ),
            }
    }

    /// Begins a write: under a renewed lease that the database still knows, or, in a
    /// harness alone, under none. Hands out the transaction and tells whether it is fenced
    /// by a lease.
    ///
    /// The lease is renewed before `begin` begins the transaction, and `assert_lease` asks
    /// for it within that transaction. A store that needs a lease and has none begins
    /// nothing.
    pub fn begin_write_transaction<
        W,
        R: FnOnce(&L) -> Result<L, StorageError>,
        B: FnOnce() -> Result<W, StorageError>,
        A: FnOnce(&W, &L) -> Result<(), StorageError>,
    >(&mut self, renew: R, begin: B, assert_lease: A) -> (r: Result<(W, bool), StorageError>)
        requires
            old(self).unfenced() ==> begin.requires(()),
            old(self).lease matches Some(lease) ==> renew.requires((&lease,)),
            old(self).lease matches Some(lease) ==> forall|renewed: Result<L, StorageError>|
             #[trigger]
                renew.ensures((&lease,), renewed) && renewed is Ok ==> begin.requires(()),
            old(self).lease matches Some(lease) ==> forall|transaction: W, renewed: L| #[trigger]
                begin.ensures((), Ok(transaction)) && #[trigger] renew.ensures(
                    (&lease,),
                    Ok(renewed),
                ) ==> assert_lease.requires((&transaction, &renewed)),
        ensures
            old(self).write_begun(*final(self), r, renew, begin, assert_lease),
    {
        let fenced: bool = match self.renew_sync_lease(renew) {
            Err(error) => {
                return Err(error);
            },
            Ok(fenced) => fenced,
        };
        let harness: bool = match self.coordination {
            SyncStoreCoordination::UnfencedProtocolHarness => true,
            SyncStoreCoordination::LeaseRequired => false,
        };
        if !fenced && !harness {
            return Err(StorageError::SyncLeaseLost);
        }
        let begun = begin();
        proof {
            assert(begin.ensures((), begun));
        }
        let transaction = match begun {
            Err(error) => {
                return Err(error);
            },
            Ok(transaction) => transaction,
        };
        let held: Result<(), StorageError> = match &self.lease {
            None => {
                return Ok((transaction, false));
            },
            Some(lease) => assert_lease(&transaction, lease),
        };
        proof {
            assert(assert_lease.ensures((&transaction, &self.lease.unwrap()), held));
        }
        match held {
            Err(error) => Err(error),
            Ok(()) => Ok((transaction, true)),
        }
    }
}

/// The fence of one write transaction. Once the transaction itself moves the profile to
/// another epoch its lease is bound to be out of date and is not checked any more.
pub struct SqliteSyncWriteTx<L> {
    pub lease: Option<L>,
    pub runtime_cutover: bool,
}

impl<L> SqliteSyncWriteTx<L> {
    pub fn new(lease: Option<L>) -> (r: SqliteSyncWriteTx<L>)
        ensures
            r.lease == lease,
            !r.runtime_cutover,
    {
        SqliteSyncWriteTx { lease, runtime_cutover: false }
    }

    /// Whether the lease must be checked before a write is made final.
    pub open spec fn is_checked(self) -> bool {
        !self.runtime_cutover && self.lease is Some
    }

    /// Checks the lease where it must be checked.
    pub fn check<A: FnOnce(&L) -> Result<(), StorageError>>(&self, assert_lease: A) -> (r: Result<
        (),
        StorageError,
    >)
        requires
            self.is_checked() ==> assert_lease.requires((&self.lease.unwrap(),)),
        ensures
            !self.is_checked() ==> r is Ok,
            self.is_checked() ==> assert_lease.ensures((&self.lease.unwrap(),), r),
    {
        if self.runtime_cutover {
            return Ok(());
        }
        match &self.lease {
            None => Ok(()),
            Some(lease) => assert_lease(lease),
        }
    }

    /// Records that keys were stored, and whether that moved the profile on.
    pub fn record_persist(&mut self, runtime_changed: bool)
        ensures
            final(self).lease == old(self).lease,
            final(self).runtime_cutover == (old(self).runtime_cutover || runtime_changed),
    {
        self.runtime_cutover = self.runtime_cutover || runtime_changed;
    }

    /// What the check of the lease comes to: nothing speaks against a transaction that
    /// needs no check.
    pub open spec fn lease_checked<A: FnOnce(&L) -> Result<(), StorageError>>(
        self,
        assert_lease: A,
        checked: Result<(), StorageError>,
    ) -> bool {
        if self.is_checked() {
            assert_lease.ensures((&self.lease.unwrap(),), checked)
        } else {
            checked is Ok
        }
    }

    /// What the storing of keys comes to.
    pub open spec fn persisted<T>(
        self,
        after: SqliteSyncWriteTx<L>,
        stored: Result<(T, bool), StorageError>,
        r: Result<T, StorageError>,
    ) -> bool {
        match stored {
            Err(error) => r == Err::<T, StorageError>(error) && after == self,
            Ok((context, runtime_changed)) => {
                &&& r == Ok::<T, StorageError>(context)
                &&& after.lease == self.lease
                &&& after.runtime_cutover == (self.runtime_cutover || runtime_changed)
            },
        }
    }

    /// Stores keys within the transaction: the lease is checked first, where it must be,
    /// and a refused lease leaves everything as it is. `persist` stores the keys and
    /// tells whether that moved the profile on.
    pub fn persist_local_crypto_context<
        T,
        A: FnOnce(&L) -> Result<(), StorageError>,
        P: FnOnce() -> Result<(T, bool), StorageError>,
    >(&mut self, assert_lease: A, persist: P) -> (r: Result<T, StorageError>)
        requires
            old(self).is_checked() ==> assert_lease.requires((&old(self).lease.unwrap(),)),
            forall|checked: Result<(), StorageError>| #[trigger]
                old(self).lease_checked(assert_lease, checked) && checked is Ok
                    ==> persist.requires(()),
        ensures
            final(self).lease == old(self).lease,
            exists|checked: Result<(), StorageError>| #[trigger]
                old(self).lease_checked(assert_lease, checked) && match checked {
                    Err(error) => r == Err::<T, StorageError>(error) && *final(self) == *old(self),
                    Ok(_) => exists|stored: Result<(T, bool), StorageError>| #[trigger]
                        persist.ensures((), stored) && old(self).persisted(*final(self), stored, r),
                },
    {
        let checked = self.check(assert_lease);
        proof {
            assert(self.lease_checked(assert_lease, checked));
        }
        match checked {
            Err(error) => {
                return Err(error);
            },
            Ok(()) => {},
        }
        let stored = persist();
        proof {
            assert(persist.ensures((), stored));
        }
        match stored {
            Err(error) => Err(error),
            Ok((context, runtime_changed)) => {
                self.record_persist(runtime_changed);
                Ok(context)
            },
        }
    }

    /// What the check of the lease within a transaction comes to.
    pub open spec fn lease_checked_in<W, E, A: FnOnce(&W, &L) -> Result<(), E>>(
        self,
        transaction: W,
        assert_lease: A,
        checked: Result<(), E>,
    ) -> bool {
        if self.is_checked() {
            assert_lease.ensures((&transaction, &self.lease.unwrap()), checked)
        } else {
            checked is Ok
        }
    }

    /// What the commit of a transaction comes to: a refused lease stops it.
    pub open spec fn committed<
        W,
        E,
        A: FnOnce(&W, &L) -> Result<(), E>,
        C: FnOnce(W) -> Result<(), E>,
    >(self, r: Result<(), E>, transaction: W, assert_lease: A, commit: C) -> bool {
        exists|checked: Result<(), E>| #[trigger]
            self.lease_checked_in(transaction, assert_lease, checked) && match checked {
                Err(error) => r == Err::<(), E>(error),
                Ok(_) => commit.ensures((transaction,), r),
            }
    }

    /// Makes a transaction final: the lease is asked for once more within it, where it must
    /// be, and `commit` commits only what it still fences.
    pub fn commit<
        W,
        E,
        A: FnOnce(&W, &L) -> Result<(), E>,
        C: FnOnce(W) -> Result<(), E>,
    >(self, transaction: W, assert_lease: A, commit: C) -> (r: Result<(), E>)
        requires
            self.is_checked() ==> assert_lease.requires((&transaction, &self.lease.unwrap())),
            forall|checked: Result<(), E>| #[trigger]
                self.lease_checked_in(transaction, assert_lease, checked) && checked is Ok
                    ==> commit.requires((transaction,)),
        ensures
            self.committed(r, transaction, assert_lease, commit),
    {
        let checked: Result<(), E> = if self.runtime_cutover {
            Ok(())
        } else {
            match &self.lease {
                None => Ok(()),
                Some(lease) => assert_lease(&transaction, lease),
            }
        };
        proof {
            assert(self.lease_checked_in(transaction, assert_lease, checked));
        }
        match checked {
            Err(error) => Err(error),
            Ok(()) => commit(transaction),
        }
    }

    pub fn has_runtime_cutover(&self) -> (r: bool)
        ensures
            r == self.runtime_cutover,
    {
        self.runtime_cutover
    }
}

/// A cutover stays a cutover, whatever else is stored in the same transaction, and its
/// lease is not checked any more.
pub proof fn law_cutover_is_sticky<L, T>(
    before: SqliteSyncWriteTx<L>,
    after: SqliteSyncWriteTx<L>,
    stored: Result<(T, bool), StorageError>,
    r: Result<T, StorageError>,
)
    requires
        before.runtime_cutover,
        before.persisted(after, stored, r),
    ensures
        after.runtime_cutover,
        !after.is_checked(),
{
}

/// What a write came to: it is committed only where everything in it was written, and only
/// under the lease of its transaction.
pub open spec fn written_and_committed<
    L,
    W,
    T,
    E,
    A: FnOnce(&W, &L) -> Result<(), E>,
    C: FnOnce(W) -> Result<(), E>,
>(
    r: Result<T, E>,
    fence: SqliteSyncWriteTx<L>,
    written: Result<(W, T), E>,
    assert_lease: A,
    commit: C,
) -> bool {
    match written {
        Err(error) => r == Err::<T, E>(error),
        Ok((transaction, result)) => exists|done: Result<(), E>| #[trigger]
            fence.committed(done, transaction, assert_lease, commit) && match done {
                Err(error) => r == Err::<T, E>(error),
                Ok(_) => r == Ok::<T, E>(result),
            },
    }
}

/// What a transaction that was or was not begun comes to.
pub open spec fn written_in<
    L,
    W,
    T,
    E,
    F: FnOnce(W) -> Result<(W, T), E>,
    A: FnOnce(&W, &L) -> Result<(), E>,
    C: FnOnce(W) -> Result<(), E>,
>(
    r: Result<T, E>,
    begun: Result<(W, SqliteSyncWriteTx<L>), E>,
    write: F,
    assert_lease: A,
    commit: C,
) -> bool {
    match begun {
        Err(error) => r == Err::<T, E>(error),
        Ok((transaction, fence)) => exists|written: Result<(W, T), E>| #[trigger]
            write.ensures((transaction,), written) && written_and_committed(
                r,
                fence,
                written,
                assert_lease,
                commit,
            ),
    }
}

/// Makes a change in a transaction of its own. Every change from outside goes this way, so
/// that none is published after the lease was lost.
///
/// `begin` begins the transaction under the lease and gives its fence, `write` writes in it,
/// `assert_lease` asks for the lease within it once everything is written, and `commit` makes
/// it final.
pub fn fenced_write<
    L,
    W,
    T,
    E,
    B: FnOnce() -> Result<(W, SqliteSyncWriteTx<L>), E>,
    F: FnOnce(W) -> Result<(W, T), E>,
    A: FnOnce(&W, &L) -> Result<(), E>,
    C: FnOnce(W) -> Result<(), E>,
>(begin: B, write: F, assert_lease: A, commit: C) -> (r: Result<T, E>)
    requires
        begin.requires(()),
        forall|transaction: W, fence: SqliteSyncWriteTx<L>| #[trigger]
            begin.ensures((), Ok((transaction, fence))) ==> write.requires((transaction,)),
        forall|transaction: W, fence: SqliteSyncWriteTx<L>, written: W, result: T| #[trigger]
            begin.ensures((), Ok((transaction, fence))) && #[trigger] write.ensures(
                (transaction,),
                Ok((written, result)),
            ) && fence.is_checked() ==> assert_lease.requires((&written, &fence.lease.unwrap())),
        forall|
            transaction: W,
            fence: SqliteSyncWriteTx<L>,
            written: W,
            result: T,
            checked: Result<(), E>,
        |
            #[trigger] begin.ensures((), Ok((transaction, fence))) && #[trigger] write.ensures(
                (transaction,),
                Ok((written, result)),
            ) && #[trigger] fence.lease_checked_in(written, assert_lease, checked) && checked is Ok
                ==> commit.requires((written,)),
    ensures
        exists|begun: Result<(W, SqliteSyncWriteTx<L>), E>| #[trigger]
            begin.ensures((), begun) && written_in(r, begun, write, assert_lease, commit),
{
    let begun = begin();
    let ghost started = begun;
    proof {
        assert(begin.ensures((), started));
    }
    let (transaction, fence) = match begun {
        Err(error) => {
            return Err(error);
        },
        Ok(begun) => begun,
    };
    let written = write(transaction);
    let ghost outcome = written;
    proof {
        assert(write.ensures((transaction,), outcome));
    }
    let (transaction, result) = match written {
        Err(error) => {
            proof {
                assert(written_in(Err::<T, E>(error), started, write, assert_lease, commit));
            }
            return Err(error);
        },
        Ok(written) => written,
    };
    let ghost kept = fence;
    let done = fence.commit(transaction, assert_lease, commit);
    proof {
        assert(kept.committed(done, transaction, assert_lease, commit));
    }
    match done {
        Err(error) => {
            proof {
                assert(written_in(Err::<T, E>(error), started, write, assert_lease, commit));
            }
            Err(error)
        },
        Ok(()) => {
            proof {
                assert(written_in(Ok::<T, E>(result), started, write, assert_lease, commit));
            }
            Ok(result)
        },
    }
}

/// A store that needs a lease begins a write only under one: the lease was renewed, and the
/// database still knew it within the transaction that was begun. Without a lease, or with one
/// that is renewed no more, there is no transaction.
pub proof fn law_no_write_without_a_held_lease<
    L,
    W,
    R: FnOnce(&L) -> Result<L, StorageError>,
    B: FnOnce() -> Result<W, StorageError>,
    A: FnOnce(&W, &L) -> Result<(), StorageError>,
>(
    before: SqliteSyncStore<L>,
    after: SqliteSyncStore<L>,
    r: Result<(W, bool), StorageError>,
    renew: R,
    begin: B,
    assert_lease: A,
)
    requires
        before.coordination == SyncStoreCoordination::LeaseRequired,
        before.write_begun(after, r, renew, begin, assert_lease),
    ensures
        before.lease is None ==> r == Err::<(W, bool), StorageError>(StorageError::SyncLeaseLost)
            && after == before,
        r is Ok ==> {
            &&& before.lease is Some
            &&& after.lease is Some
            &&& r->Ok_0.1
            &&& renew.ensures((&before.lease.unwrap(),), Ok(after.lease.unwrap()))
            &&& begin.ensures((), Ok(r->Ok_0.0))
            &&& exists|held: Result<(), StorageError>| #[trigger]
                assert_lease.ensures((&r->Ok_0.0, &after.lease.unwrap()), held) && held is Ok
        },
        before.lease is Some && (forall|renewed: Result<L, StorageError>| #[trigger]
            renew.ensures((&before.lease.unwrap(),), renewed) ==> renewed == Err::<
                L,
                StorageError,
            >(StorageError::SyncLeaseLost)) ==> r == Err::<(W, bool), StorageError>(
            StorageError::SyncLeaseLost,
        ),
{
}

/// What is committed under a lease was still fenced by it: the database knew the lease within
/// the transaction after everything was written.
pub proof fn law_nothing_is_committed_after_the_lease_was_lost<
    L,
    W,
    E,
    A: FnOnce(&W, &L) -> Result<(), E>,
    C: FnOnce(W) -> Result<(), E>,
>(
    fence: SqliteSyncWriteTx<L>,
    transaction: W,
    assert_lease: A,
    commit: C,
    r: Result<(), E>,
)
    requires
        fence.is_checked(),
        fence.committed(r, transaction, assert_lease, commit),
    ensures
        r is Ok ==> commit.ensures((transaction,), r) && exists|held: Result<(), E>| #[trigger]
            assert_lease.ensures((&transaction, &fence.lease.unwrap()), held) && held is Ok,
        (forall|held: Result<(), E>| #[trigger]
            assert_lease.ensures((&transaction, &fence.lease.unwrap()), held) ==> held is Err)
            ==> r is Err,
{
}

/// Everything of a profile that a rotation of its keys sends again.
pub struct RotationBackfillSnapshot {
    pub lists: Vec<List>,
    pub templates: Vec<TaskTemplate>,
    pub schedules: Vec<TaskSeries>,
    pub tasks: Vec<Task>,
    pub timer_sessions: Vec<CompletedTimerSession>,
}

/// The first of the reads that failed, if any.
pub open spec fn first_failure(
    lists: Result<Vec<List>, StorageError>,
    templates: Result<Vec<TaskTemplate>, StorageError>,
    schedules: Result<Vec<TaskSeries>, StorageError>,
    tasks: Result<Vec<Task>, StorageError>,
    timer_sessions: Result<Vec<CompletedTimerSession>, StorageError>,
) -> Option<StorageError> {
    if lists is Err {
        Some(lists->Err_0)
    } else if templates is Err {
        Some(templates->Err_0)
    } else if schedules is Err {
        Some(schedules->Err_0)
    } else if tasks is Err {
        Some(tasks->Err_0)
    } else if timer_sessions is Err {
        Some(timer_sessions->Err_0)
    } else {
        None
    }
}

/// Puts together what a rotation sends again: all of it, or the first failure.
pub fn rotation_backfill_snapshot(
    lists: Result<Vec<List>, StorageError>,
    templates: Result<Vec<TaskTemplate>, StorageError>,
    schedules: Result<Vec<TaskSeries>, StorageError>,
    tasks: Result<Vec<Task>, StorageError>,
    timer_sessions: Result<Vec<CompletedTimerSession>, StorageError>,
) -> (r: Result<RotationBackfillSnapshot, StorageError>)
    ensures
        match first_failure(lists, templates, schedules, tasks, timer_sessions) {
            Some(error) => r == Err::<RotationBackfillSnapshot, StorageError>(error),
            None => r == Ok::<_, StorageError>(
                RotationBackfillSnapshot {
                    lists: lists->Ok_0,
                    templates: templates->Ok_0,
                    schedules: schedules->Ok_0,
                    tasks: tasks->Ok_0,
                    timer_sessions: timer_sessions->Ok_0,
                },
            ),
        },
{
    match (lists, templates, schedules, tasks, timer_sessions) {
        (Err(error), _, _, _, _) => Err(error),
        (_, Err(error), _, _, _) => Err(error),
        (_, _, Err(error), _, _) => Err(error),
        (_, _, _, Err(error), _) => Err(error),
        (_, _, _, _, Err(error)) => Err(error),
        (Ok(lists), Ok(templates), Ok(schedules), Ok(tasks), Ok(timer_sessions)) => Ok(
            RotationBackfillSnapshot { lists, templates, schedules, tasks, timer_sessions },
        ),
    }
}

/// A list that stands for another one.
#[derive(Debug, Clone, Copy, PartialEq, Eq, Structural)]
pub struct LocalListAlias {
    pub alias_list_id: Uuid,
    pub canonical_list_id: Uuid,
}

/// All aliases name one canonical list, which is not among them.
pub open spec fn aliases_agree(aliases: Seq<LocalListAlias>) -> bool {
    forall|i: int|
        0 <= i < aliases.len() ==> (#[trigger] aliases[i]).canonical_list_id
            == aliases[0].canonical_list_id && aliases[i].alias_list_id
            != aliases[0].canonical_list_id
}

/// The alias set to store: the canonical list and the lists that stand for it.
pub struct AliasReplacement {
    pub canonical_list_id: Uuid,
    pub alias_list_ids: Vec<Uuid>,
}

/// Decides what replacing the aliases of the inbox stores. An empty set clears the
/// aliases of the list that has some now.
pub fn replace_list_aliases(
    aliases: &Vec<LocalListAlias>,
    existing: Result<Vec<LocalListAlias>, String>,
) -> (r: Result<Option<AliasReplacement>, String>)
    ensures
        if aliases@.len() > 0 {
            if aliases_agree(aliases@) {
                &&& r is Ok
                &&& r->Ok_0 is Some
                &&& r->Ok_0.unwrap().canonical_list_id == aliases@[0].canonical_list_id
                &&& r->Ok_0.unwrap().alias_list_ids@ == aliases@.map_values(
                    |alias: LocalListAlias| alias.alias_list_id,
                )
            } else {
                r is Err && r->Err_0@ == "invalid canonical Inbox alias set"@
            }
        } else {
            match existing {
                Err(error) => r is Err && r->Err_0 == error,
                Ok(held) => if held@.len() == 0 {
                    r is Ok && r->Ok_0 is None
                } else {
                    &&& r is Ok
                    &&& r->Ok_0 is Some
                    &&& r->Ok_0.unwrap().canonical_list_id == held@[0].canonical_list_id
                    &&& r->Ok_0.unwrap().alias_list_ids@.len() == 0
                },
            }
        },
{
    if aliases.len() == 0 {
        return match existing {
            Err(error) => Err(error),
            Ok(held) => if held.len() == 0 {
                Ok(None)
            } else {
                Ok(
                    Some(
                        AliasReplacement {
                            canonical_list_id: held[0].canonical_list_id,
                            alias_list_ids: Vec::new(),
                        },
                    ),
                )
            },
        };
    }
    let canonical_list_id: Uuid = aliases[0].canonical_list_id;
    let mut alias_list_ids: Vec<Uuid> = Vec::new();
    let mut i: usize = 0;
    while i < aliases.len()
        invariant
            i <= aliases@.len(),
            aliases@.len() > 0,
            canonical_list_id == aliases@[0].canonical_list_id,
            forall|j: int|
                0 <= j < i ==> (#[trigger] aliases@[j]).canonical_list_id == canonical_list_id
                    && aliases@[j].alias_list_id != canonical_list_id,
            alias_list_ids@ == aliases@.take(i as int).map_values(
                |alias: LocalListAlias| alias.alias_list_id,
            ),
        decreases aliases@.len() - i,
    {
        let alias: LocalListAlias = aliases[i];
        if alias.canonical_list_id != canonical_list_id || alias.alias_list_id
            == canonical_list_id {
            return Err("invalid canonical Inbox alias set".to_owned());
        }
        alias_list_ids.push(alias.alias_list_id);
        proof {
            assert(aliases@.take(i + 1) =~= aliases@.take(i as int).push(aliases@[i as int]));
            assert(alias_list_ids@ =~= aliases@.take(i + 1).map_values(
                |alias: LocalListAlias| alias.alias_list_id,
            ));
        }
        i = i + 1;
    }
    proof {
        assert(aliases@.take(i as int) =~= aliases@);
    }
    Ok(Some(AliasReplacement { canonical_list_id, alias_list_ids }))
}

/// A record that may be missing.
pub fn found<T>(result: Result<T, StorageError>) -> (r: Result<Option<T>, StorageError>)
    ensures
        match result {
            Ok(record) => r is Ok && r->Ok_0 == Some(record),
            Err(StorageError::NotFound) => r is Ok && r->Ok_0 is None,
            Err(error) => r is Err && r->Err_0 == error,
        },
{
    match result {
        Ok(record) => Ok(Some(record)),
        Err(StorageError::NotFound) => Ok(None),
        Err(error) => Err(error),
    }
}

/// The tasks of a list among all tasks, in their order.
pub fn list_tasks_by_list_for_sync(
    tasks: Result<Vec<Task>, StorageError>,
    list_id: Uuid,
) -> (r: Result<Vec<Task>, StorageError>)
    ensures
        match tasks {
            Err(error) => r is Err && r->Err_0 == error,
            Ok(all) => r is Ok && r->Ok_0@ == all@.filter(|task: Task| task.list_id == list_id),
        },
{
    let all = match tasks {
        Err(error) => {
            return Err(error);
        },
        Ok(all) => all,
    };
    let ghost every = all@;
    let ghost here = |task: Task| task.list_id == list_id;
    let mut kept: Vec<Task> = Vec::new();
    for task in iter: all
        invariant
            iter.seq() == every,
            here == (|task: Task| task.list_id == list_id),
            kept@ == every.take(iter.index() as int).filter(here),
    {
        proof {
            reveal(Seq::filter);
            let at = iter.index() as int;
            assert(task == every[at]);
            assert(every.take(at + 1).drop_last() =~= every.take(at));
            assert(every.take(at + 1).last() == task);
        }
        if task.list_id == list_id {
            kept.push(task);
        }
    }
    proof {
        assert(every.take(every.len() as int) =~= every);
    }
    Ok(kept)
}

} // verus!
