//! One synchronization run: how the lease, the tokens, the attempts and their
//! follow-ups are strung together.
use vstd::prelude::*;
use vstd::string::*;
use crate::credentials::OriginBoundAccessToken;
use crate::error::{ClientError, StorageError};
use crate::sync;
use crate::sync::{
    add_sync_summary, map_sync_lease_error, map_sync_lease_error_from_client, map_sync_run_error,
    SyncRunSummary,
};
use crate::text::str_eq;

verus! {

/// How an attempt failed.
#[derive(Debug, Clone, PartialEq, Eq)]
pub enum AttemptFailure {
    /// The run holds no lease, or it cannot be read.
    Lease(StorageError),
    /// An exchange, or a read of the outbox, failed with these words.
    Engine(String),
    /// The clock could not be read before settling.
    Clock,
    /// What was pulled could not be settled.
    Settlement(ClientError),
    /// Something happened that does not belong to the step.
    OutOfStep,
}

impl AttemptFailure {
    /// The sync engine's words for the failure.
    pub open spec fn words(self) -> Seq<char> {
        match self {
            AttemptFailure::Lease(error) => sync::lease_error_text(error),
            AttemptFailure::Engine(words) => words@,
            AttemptFailure::Clock => "sync failed"@,
            AttemptFailure::Settlement(error) => sync::client_error_text(error),
            AttemptFailure::OutOfStep => "sync failed"@,
        }
    }

    pub fn into_words(self) -> (r: String)
        ensures
            r@ == self.words(),
    {
        match self {
            AttemptFailure::Lease(error) => map_sync_lease_error(error),
            AttemptFailure::Engine(words) => words,
            AttemptFailure::Clock => "sync failed".to_owned(),
            AttemptFailure::Settlement(error) => map_sync_lease_error_from_client(&error),
            AttemptFailure::OutOfStep => "sync failed".to_owned(),
        }
    }
}

/// What an attempt does next.
#[derive(Debug, Clone, PartialEq, Eq)]
pub enum AttemptStep {
    /// Exchange changes with the server.
    Exchange,
    /// Settle what was pulled.
    Settle { summary: SyncRunSummary },
    /// Look whether the outbox holds anything.
    ReadOutbox { summary: SyncRunSummary, has_more: bool },
    /// Exchange changes again.
    FollowUp { summary: SyncRunSummary, has_more: bool },
    /// Look whether the outbox is empty at last.
    ReadDrained { summary: SyncRunSummary },
    Done { summary: SyncRunSummary },
    Failed(AttemptFailure),
}

/// What a step came to.
#[derive(Debug, Clone, PartialEq, Eq)]
pub enum AttemptEvent {
    Exchanged(SyncRunSummary),
    Settled { outbox_changed: bool, has_more: bool },
    Outbox { heads: usize },
    Failed(AttemptFailure),
}

/// How an attempt goes on: it is done only when a read of the outbox found it empty.
pub open spec fn next_attempt_step(step: AttemptStep, event: AttemptEvent) -> AttemptStep {
    match (step, event) {
        (AttemptStep::Done { .. }, _) => step,
        (AttemptStep::Failed(_), _) => step,
        (_, AttemptEvent::Failed(failure)) => AttemptStep::Failed(failure),
        (AttemptStep::Exchange, AttemptEvent::Exchanged(summary)) => AttemptStep::Settle {
            summary,
        },
        (AttemptStep::Settle { summary }, AttemptEvent::Settled { outbox_changed, has_more }) =>
            if outbox_changed {
                AttemptStep::FollowUp { summary, has_more }
            } else {
                AttemptStep::ReadOutbox { summary, has_more }
            },
        (
            AttemptStep::ReadOutbox { summary, has_more },
            AttemptEvent::Outbox { heads },
        ) => if heads == 0 {
            AttemptStep::Done { summary }
        } else {
            AttemptStep::FollowUp { summary, has_more }
        },
        (AttemptStep::FollowUp { summary, has_more }, AttemptEvent::Exchanged(more)) =>
            if has_more {
                AttemptStep::Settle { summary: summary.plus(more) }
            } else {
                AttemptStep::ReadDrained { summary: summary.plus(more) }
            },
        (AttemptStep::ReadDrained { summary }, AttemptEvent::Outbox { heads }) => if heads == 0 {
            AttemptStep::Done { summary }
        } else {
            AttemptStep::Settle { summary }
        },
        _ => AttemptStep::Failed(AttemptFailure::OutOfStep),
    }
}

/// The counts that a step adds up stay within the machine's numbers.
pub open spec fn counts_fit(step: AttemptStep, event: AttemptEvent) -> bool {
    match (step, event) {
        (AttemptStep::FollowUp { summary, .. }, AttemptEvent::Exchanged(more)) => summary.fits(
            more,
        ),
        _ => true,
    }
}

/// Decides how an attempt goes on.
pub fn run_sync_attempt(step: AttemptStep, event: AttemptEvent) -> (r: AttemptStep)
    requires
        counts_fit(step, event),
    ensures
        r == next_attempt_step(step, event),
{
    match step {
        AttemptStep::Done { summary } => AttemptStep::Done { summary },
        AttemptStep::Failed(failure) => AttemptStep::Failed(failure),
        AttemptStep::Exchange => match event {
            AttemptEvent::Exchanged(summary) => AttemptStep::Settle { summary },
            AttemptEvent::Failed(failure) => AttemptStep::Failed(failure),
            _ => AttemptStep::Failed(AttemptFailure::OutOfStep),
        },
        AttemptStep::Settle { summary } => match event {
            AttemptEvent::Settled { outbox_changed, has_more } => if outbox_changed {
                AttemptStep::FollowUp { summary, has_more }
            } else {
                AttemptStep::ReadOutbox { summary, has_more }
            },
            AttemptEvent::Failed(failure) => AttemptStep::Failed(failure),
            _ => AttemptStep::Failed(AttemptFailure::OutOfStep),
        },
        AttemptStep::ReadOutbox { summary, has_more } => match event {
            AttemptEvent::Outbox { heads } => if heads == 0 {
                AttemptStep::Done { summary }
            } else {
                AttemptStep::FollowUp { summary, has_more }
            },
            AttemptEvent::Failed(failure) => AttemptStep::Failed(failure),
            _ => AttemptStep::Failed(AttemptFailure::OutOfStep),
        },
        AttemptStep::FollowUp { summary, has_more } => match event {
            AttemptEvent::Exchanged(more) => {
                let mut total = summary;
                add_sync_summary(&mut total, &more);
                if has_more {
                    AttemptStep::Settle { summary: total }
                } else {
                    AttemptStep::ReadDrained { summary: total }
                }
            },
            AttemptEvent::Failed(failure) => AttemptStep::Failed(failure),
            _ => AttemptStep::Failed(AttemptFailure::OutOfStep),
        },
        AttemptStep::ReadDrained { summary } => match event {
            AttemptEvent::Outbox { heads } => if heads == 0 {
                AttemptStep::Done { summary }
            } else {
                AttemptStep::Settle { summary }
            },
            AttemptEvent::Failed(failure) => AttemptStep::Failed(failure),
            _ => AttemptStep::Failed(AttemptFailure::OutOfStep),
        },
    }
}

/// What an attempt came to, once it came to something.
pub fn attempt_result(step: AttemptStep) -> (r: Option<Result<SyncRunSummary, String>>)
    ensures
        match step {
            AttemptStep::Done { summary } => r == Some(Ok::<SyncRunSummary, String>(summary)),
            AttemptStep::Failed(failure) => {
                &&& r is Some
                &&& r.unwrap() is Err
                &&& r.unwrap()->Err_0@ == failure.words()
            },
            _ => r is None,
        },
{
    match step {
        AttemptStep::Done { summary } => Some(Ok(summary)),
        AttemptStep::Failed(failure) => Some(Err(failure.into_words())),
        _ => None,
    }
}

/// An attempt is only ever done at a read that found the outbox empty, so that nothing
/// committed before that read is left behind.
pub proof fn law_done_means_outbox_was_empty(step: AttemptStep, event: AttemptEvent)
    requires
        !(step is Done),
        next_attempt_step(step, event) is Done,
    ensures
        event == (AttemptEvent::Outbox { heads: 0 }),
{
}

/// No exchange is forgotten: the summary of an attempt grows by every exchange.
pub proof fn law_summary_counts_every_exchange(
    summary: SyncRunSummary,
    more: SyncRunSummary,
    has_more: bool,
)
    requires
        summary.fits(more),
    ensures
        ({
            let next = next_attempt_step(
                AttemptStep::FollowUp { summary, has_more },
                AttemptEvent::Exchanged(more),
            );
            ||| next == (AttemptStep::Settle { summary: summary.plus(more) })
            ||| next == (AttemptStep::ReadDrained { summary: summary.plus(more) })
        }),
        summary.plus(more).pulled_count == summary.pulled_count + more.pulled_count,
        summary.plus(more).pushed_count == summary.pushed_count + more.pushed_count,
{
}

/// What follows an attempt under one token.
pub enum AfterAttempt {
    /// The server did not accept the token: fetch a new one and try once more.
    RefreshTokenAndRetry,
    Finish(Result<SyncRunSummary, ClientError>),
}

/// Only the first attempt may be repeated, and only because of its token.
pub open spec fn attempt_follow_up(
    result: Result<SyncRunSummary, String>,
    retried: bool,
) -> AfterAttempt {
    match result {
        Ok(summary) => AfterAttempt::Finish(Ok(summary)),
        Err(error) => if !retried && error@ == "unauthorized"@ {
            AfterAttempt::RefreshTokenAndRetry
        } else {
            AfterAttempt::Finish(Err(sync::run_error(error@)))
        },
    }
}

/// Decides what follows an attempt.
pub fn after_attempt(result: Result<SyncRunSummary, String>, retried: bool) -> (r: AfterAttempt)
    ensures
        r == attempt_follow_up(result, retried),
{
    match result {
        Ok(summary) => AfterAttempt::Finish(Ok(summary)),
        Err(error) => {
            if !retried && str_eq(error.as_str(), "unauthorized") {
                return AfterAttempt::RefreshTokenAndRetry;
            }
            AfterAttempt::Finish(Err(map_sync_run_error(error.as_str())))
        },
    }
}

/// The result of a run whose lease was given back: the run's own error comes first.
pub open spec fn settled(
    result: Result<SyncRunSummary, ClientError>,
    release: Result<(), ClientError>,
) -> Result<SyncRunSummary, ClientError> {
    match (result, release) {
        (Ok(summary), Ok(())) => Ok(summary),
        (Err(error), _) => Err(error),
        (Ok(_), Err(error)) => Err(error),
    }
}

pub fn settle_sync_run(
    result: Result<SyncRunSummary, ClientError>,
    release: Result<(), ClientError>,
) -> (r: Result<SyncRunSummary, ClientError>)
    ensures
        r == settled(result, release),
{
    match (result, release) {
        (Ok(summary), Ok(())) => Ok(summary),
        (Err(error), _) => Err(error),
        (Ok(_), Err(error)) => Err(error),
    }
}

/// What a run does next.
pub enum RunStep {
    AcquireLease,
    FetchToken { force_refresh: bool },
    /// Make an attempt under this token.
    Attempt { token: OriginBoundAccessToken, retried: bool },
    /// Give the lease back; `result` is what the attempts came to.
    ReleaseLease { result: Result<SyncRunSummary, ClientError> },
    Done(Result<SyncRunSummary, ClientError>),
}

/// What a step came to.
pub enum RunEvent {
    Lease(Result<(), StorageError>),
    Token(Result<OriginBoundAccessToken, ClientError>),
    Attempted(Result<SyncRunSummary, String>),
    Released(Result<(), StorageError>),
}

/// A database error as a run reports it.
pub open spec fn lease_failure(error: StorageError) -> ClientError {
    sync::run_error(sync::lease_error_text(error))
}

fn map_lease_failure(error: StorageError) -> (r: ClientError)
    ensures
        r == lease_failure(error),
{
    let words = map_sync_lease_error(error);
    map_sync_run_error(words.as_str())
}

/// How a run goes on. Whatever happens once it holds the lease, the lease is given back
/// before it is done.
pub open spec fn next_run_step(step: RunStep, event: RunEvent) -> RunStep {
    match step {
        RunStep::AcquireLease => match event {
            RunEvent::Lease(Ok(())) => RunStep::FetchToken { force_refresh: false },
            RunEvent::Lease(Err(error)) => RunStep::Done(Err(lease_failure(error))),
            _ => RunStep::Done(Err(ClientError::SyncRun)),
        },
        RunStep::FetchToken { force_refresh } => match event {
            RunEvent::Token(Ok(token)) => RunStep::Attempt { token, retried: force_refresh },
            RunEvent::Token(Err(error)) => RunStep::ReleaseLease { result: Err(error) },
            _ => RunStep::ReleaseLease { result: Err(ClientError::SyncRun) },
        },
        RunStep::Attempt { retried, .. } => match event {
            RunEvent::Attempted(result) => match attempt_follow_up(result, retried) {
                AfterAttempt::RefreshTokenAndRetry => RunStep::FetchToken { force_refresh: true },
                AfterAttempt::Finish(outcome) => RunStep::ReleaseLease { result: outcome },
            },
            _ => RunStep::ReleaseLease { result: Err(ClientError::SyncRun) },
        },
        RunStep::ReleaseLease { result } => match event {
            RunEvent::Released(Ok(())) => RunStep::Done(settled(result, Ok(()))),
            RunEvent::Released(Err(error)) => RunStep::Done(
                settled(result, Err(lease_failure(error))),
            ),
            _ => step,
        },
        RunStep::Done(_) => step,
    }
}

/// Decides how a run goes on.
pub fn run_sync_now(step: RunStep, event: RunEvent) -> (r: RunStep)
    ensures
        r == next_run_step(step, event),
{
    match step {
        RunStep::AcquireLease => match event {
            RunEvent::Lease(Ok(())) => RunStep::FetchToken { force_refresh: false },
            RunEvent::Lease(Err(error)) => RunStep::Done(Err(map_lease_failure(error))),
            _ => RunStep::Done(Err(ClientError::SyncRun)),
        },
        RunStep::FetchToken { force_refresh } => match event {
            RunEvent::Token(Ok(token)) => RunStep::Attempt { token, retried: force_refresh },
            RunEvent::Token(Err(error)) => RunStep::ReleaseLease { result: Err(error) },
            _ => RunStep::ReleaseLease { result: Err(ClientError::SyncRun) },
        },
        RunStep::Attempt { token: _, retried } => match event {
            RunEvent::Attempted(result) => match after_attempt(result, retried) {
                AfterAttempt::RefreshTokenAndRetry => RunStep::FetchToken { force_refresh: true },
                AfterAttempt::Finish(outcome) => RunStep::ReleaseLease { result: outcome },
            },
            _ => RunStep::ReleaseLease { result: Err(ClientError::SyncRun) },
        },
        RunStep::ReleaseLease { result } => match event {
            RunEvent::Released(Ok(())) => RunStep::Done(settle_sync_run(result, Ok(()))),
            RunEvent::Released(Err(error)) => RunStep::Done(
                settle_sync_run(result, Err(map_lease_failure(error))),
            ),
            _ => RunStep::ReleaseLease { result },
        },
        RunStep::Done(result) => RunStep::Done(result),
    }
}

/// The steps during which a run holds the lease.
pub open spec fn holds_lease(step: RunStep) -> bool {
    ||| step is FetchToken
    ||| step is Attempt
    ||| step is ReleaseLease
}

/// A lease that was acquired is given back: a run that holds one is not done before it
/// tried to release it.
pub proof fn law_lease_is_given_back(step: RunStep, event: RunEvent)
    ensures
        holds_lease(step) && !(step is ReleaseLease) ==> holds_lease(next_run_step(step, event)),
        next_run_step(step, event) is Done && holds_lease(step) ==> step is ReleaseLease
            && event is Released,
        step is AcquireLease ==> (holds_lease(next_run_step(step, event)) <==> event is Lease
            && event->Lease_0 is Ok),
{
}

/// How far a run still is from its end.
pub open spec fn run_rank(step: RunStep) -> nat {
    match step {
        RunStep::AcquireLease => 6,
        RunStep::FetchToken { force_refresh } => if force_refresh {
            3
        } else {
            5
        },
        RunStep::Attempt { retried, .. } => if retried {
            2
        } else {
            4
        },
        RunStep::ReleaseLease { .. } => 1,
        RunStep::Done(_) => 0,
    }
}

/// A run ends, and refreshes its token at most once: every event takes it nearer to its
/// end.
pub proof fn law_token_is_refreshed_once(step: RunStep, event: RunEvent)
    requires
        !(step is Done),
        step is ReleaseLease ==> event is Released,
    ensures
        run_rank(next_run_step(step, event)) < run_rank(step),
{
}

/// The name of the cursor that marks the initial backfill.
pub fn initial_backfill_cursor_name() -> (r: &'static str)
    ensures
        r@ == "initial_backfill"@,
{
    "initial_backfill"
}

/// The sequence that the mark of the initial backfill is stored with.
pub const INITIAL_BACKFILL_MARK: i64 = 1;

/// What putting the records of a profile into the outbox for the first time does next.
#[derive(Debug, Clone, Copy, PartialEq, Eq, Structural)]
pub enum BackfillStep {
    ReadMark,
    ReadRecords,
    BeginTransaction,
    EnqueueRecords,
    ReadClock,
    /// Store the mark, in the same transaction.
    StoreMark { updated_at: i64 },
    Commit,
    Done,
    Failed(ClientError),
}

/// What a step came to.
#[derive(Debug, PartialEq, Eq)]
pub enum BackfillEvent {
    Mark(Result<Option<i64>, String>),
    Records(Result<(), ClientError>),
    Clock(Result<i64, ClientError>),
    /// What the transaction answered to being begun, written to or committed.
    Written(Result<(), String>),
}

/// What follows a write of the backfill.
pub open spec fn after_backfill_write(event: BackfillEvent, next: BackfillStep) -> BackfillStep {
    match event {
        BackfillEvent::Written(Ok(())) => next,
        BackfillEvent::Written(Err(error)) => BackfillStep::Failed(sync::run_error(error@)),
        _ => BackfillStep::Failed(ClientError::SyncRun),
    }
}

fn backfill_write(event: BackfillEvent, next: BackfillStep) -> (r: BackfillStep)
    ensures
        r == after_backfill_write(event, next),
{
    match event {
        BackfillEvent::Written(Ok(())) => next,
        BackfillEvent::Written(Err(error)) => BackfillStep::Failed(
            map_sync_run_error(error.as_str()),
        ),
        _ => BackfillStep::Failed(ClientError::SyncRun),
    }
}

/// How the initial backfill goes on: a profile that carries the mark has had it.
pub open spec fn next_backfill_step(step: BackfillStep, event: BackfillEvent) -> BackfillStep {
    match step {
        BackfillStep::ReadMark => match event {
            BackfillEvent::Mark(Ok(None)) => BackfillStep::ReadRecords,
            BackfillEvent::Mark(Ok(Some(_))) => BackfillStep::Done,
            BackfillEvent::Mark(Err(error)) => BackfillStep::Failed(sync::run_error(error@)),
            _ => BackfillStep::Failed(ClientError::SyncRun),
        },
        BackfillStep::ReadRecords => match event {
            BackfillEvent::Records(Ok(())) => BackfillStep::BeginTransaction,
            BackfillEvent::Records(Err(error)) => BackfillStep::Failed(error),
            _ => BackfillStep::Failed(ClientError::SyncRun),
        },
        BackfillStep::BeginTransaction => after_backfill_write(event, BackfillStep::EnqueueRecords),
        BackfillStep::EnqueueRecords => after_backfill_write(event, BackfillStep::ReadClock),
        BackfillStep::ReadClock => match event {
            BackfillEvent::Clock(Ok(now)) => BackfillStep::StoreMark { updated_at: now },
            BackfillEvent::Clock(Err(error)) => BackfillStep::Failed(error),
            _ => BackfillStep::Failed(ClientError::SyncRun),
        },
        BackfillStep::StoreMark { .. } => after_backfill_write(event, BackfillStep::Commit),
        BackfillStep::Commit => after_backfill_write(event, BackfillStep::Done),
        BackfillStep::Done => step,
        BackfillStep::Failed(_) => step,
    }
}

/// Decides how the initial backfill goes on.
pub fn run_initial_backfill_if_needed(step: BackfillStep, event: BackfillEvent) -> (r: BackfillStep)
    ensures
        r == next_backfill_step(step, event),
{
    match step {
        BackfillStep::ReadMark => match event {
            BackfillEvent::Mark(Ok(None)) => BackfillStep::ReadRecords,
            BackfillEvent::Mark(Ok(Some(_))) => BackfillStep::Done,
            BackfillEvent::Mark(Err(error)) => BackfillStep::Failed(
                map_sync_run_error(error.as_str()),
            ),
            _ => BackfillStep::Failed(ClientError::SyncRun),
        },
        BackfillStep::ReadRecords => match event {
            BackfillEvent::Records(Ok(())) => BackfillStep::BeginTransaction,
            BackfillEvent::Records(Err(error)) => BackfillStep::Failed(error),
            _ => BackfillStep::Failed(ClientError::SyncRun),
        },
        BackfillStep::BeginTransaction => backfill_write(event, BackfillStep::EnqueueRecords),
        BackfillStep::EnqueueRecords => backfill_write(event, BackfillStep::ReadClock),
        BackfillStep::ReadClock => match event {
            BackfillEvent::Clock(Ok(now)) => BackfillStep::StoreMark { updated_at: now },
            BackfillEvent::Clock(Err(error)) => BackfillStep::Failed(error),
            _ => BackfillStep::Failed(ClientError::SyncRun),
        },
        BackfillStep::StoreMark { updated_at: _ } => backfill_write(event, BackfillStep::Commit),
        BackfillStep::Commit => backfill_write(event, BackfillStep::Done),
        BackfillStep::Done => step,
        BackfillStep::Failed(_) => step,
    }
}

/// The records are put into the outbox once: a profile counts as backfilled only where
/// its mark was found, or where the mark was committed together with the records.
pub proof fn law_backfill_is_marked_with_its_records(step: BackfillStep, event: BackfillEvent)
    ensures
        next_backfill_step(step, event) is Done && !(step is Done) ==> {
            ||| step is ReadMark && event is Mark && event->Mark_0 is Ok
                && event->Mark_0->Ok_0 is Some
            ||| step is Commit && event is Written && event->Written_0 is Ok
        },
        next_backfill_step(step, event) is Commit ==> step is StoreMark,
        next_backfill_step(step, event) is StoreMark ==> step is ReadClock,
        next_backfill_step(step, event) is ReadClock ==> step is EnqueueRecords && event is Written
            && event->Written_0 is Ok,
{
}

} // verus!
