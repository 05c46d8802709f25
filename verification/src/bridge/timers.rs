//! The timer that runs and the sessions that ran.
use vstd::prelude::*;
use crate::bridge::conversions;
use crate::bridge::dto::{
    ActiveTimerSessionDto, ActiveTimerStartOutcomeDto, CompletedTimerSessionDto,
};
use crate::bridge::error;
use crate::bridge::error::BridgeErrorDto;
use crate::domain;
use crate::domain::{ActiveTimerSession, CompletedTimerSession};
use crate::error::{ClientError, ClientFailure};
use crate::ids;
use crate::ids::{UtcTime, Uuid};

verus! {

/// The timer that runs, where one does.
pub fn get_active_timer_session<F: FnOnce() -> Result<Option<ActiveTimerSession>, ClientFailure>>(
    client: Result<F, ClientFailure>,
) -> (r: Result<Option<ActiveTimerSessionDto>, BridgeErrorDto>)
    requires
        client matches Ok(run) ==> run.requires(()),
        client matches Ok(run) ==> forall|
            reply: Result<Option<ActiveTimerSession>, ClientFailure>,
        | #[trigger]
            run.ensures((), reply) ==> (reply matches Ok(Some(session))
                ==> session.valid()),
    ensures
        match client {
            Err(failure) => error::not_reached(failure, r),
            Ok(run) => exists|reply: Result<Option<ActiveTimerSession>, ClientFailure>| #[trigger]
                run.ensures((), reply) && error::answered(
                    reply,
                    r,
                    |session: Option<ActiveTimerSession>, dto: Option<ActiveTimerSessionDto>|
                        conversions::shows_optional(
                            session,
                            dto,
                            |value: ActiveTimerSession, shown: ActiveTimerSessionDto|
                                shown.shows(value),
                        ),
                ),
        },
{
    let run = match client {
        Ok(run) => run,
        Err(failure) => {
            return Err(BridgeErrorDto::from(failure));
        },
    };
    let reply = run();
    proof {
        assert(run.ensures((), reply));
    }
    match reply {
        Ok(value) => Ok(match value {
            None => None,
            Some(inner) => Some(conversions::active_timer_to_dto(inner)),
        }),
        Err(failure) => Err(BridgeErrorDto::from(failure)),
    }
}

/// What the start of a timer comes to: that another one runs is an outcome, not an
/// error.
pub open spec fn start_told(
    reply: Result<(), ClientFailure>,
    r: Result<ActiveTimerStartOutcomeDto, BridgeErrorDto>,
) -> bool {
    match reply {
        Ok(_) => r == Ok::<ActiveTimerStartOutcomeDto, BridgeErrorDto>(
            ActiveTimerStartOutcomeDto::Started,
        ),
        Err(failure) => if failure.error == ClientError::ActiveTimerConflict {
            r == Ok::<ActiveTimerStartOutcomeDto, BridgeErrorDto>(
                ActiveTimerStartOutcomeDto::Conflict,
            )
        } else {
            r is Err && r->Err_0.tells(failure)
        },
    }
}

/// Starts a timer.
pub fn start_active_timer_session<F: FnOnce(ActiveTimerSession) -> Result<(), ClientFailure>>(
    client: Result<F, ClientFailure>,
    session: ActiveTimerSessionDto,
) -> (r: Result<ActiveTimerStartOutcomeDto, BridgeErrorDto>)
    requires
        session.valid(),
        client matches Ok(run) ==> (session.meant() matches Some(meant) ==> run.requires((meant,))),
    ensures
        match client {
            Err(failure) => error::not_reached(failure, r),
            Ok(run) => match session.meant() {
                Some(meant) => exists|reply: Result<(), ClientFailure>| #[trigger]
                    run.ensures((meant,), reply) && start_told(reply, r),
                None => error::refused(r),
            },
        },
{
    let run = match client {
        Ok(run) => run,
        Err(failure) => {
            return Err(BridgeErrorDto::from(failure));
        },
    };
    let meant = match conversions::parse_active_timer(session) {
        Ok(meant) => meant,
        Err(refusal) => {
            return Err(refusal);
        },
    };
    let reply = run(meant);
    proof {
        assert(run.ensures((meant,), reply));
    }
    match reply {
        Ok(()) => Ok(ActiveTimerStartOutcomeDto::Started),
        Err(failure) => match failure.error {
            ClientError::ActiveTimerConflict => Ok(ActiveTimerStartOutcomeDto::Conflict),
            _ => Err(BridgeErrorDto::from(failure)),
        },
    }
}

/// Stores how the timer that runs stands.
pub fn update_active_timer_session<F: FnOnce(ActiveTimerSession) -> Result<(), ClientFailure>>(
    client: Result<F, ClientFailure>,
    session: ActiveTimerSessionDto,
) -> (r: Result<(), BridgeErrorDto>)
    requires
        session.valid(),
        client matches Ok(run) ==> (session.meant() matches Some(meant) ==> run.requires((meant,))),
    ensures
        match client {
            Err(failure) => error::not_reached(failure, r),
            Ok(run) => match session.meant() {
                Some(meant) => exists|reply: Result<(), ClientFailure>| #[trigger]
                    run.ensures((meant,), reply) && error::handed_on(reply, r),
                None => error::refused(r),
            },
        },
{
    let run = match client {
        Ok(run) => run,
        Err(failure) => {
            return Err(BridgeErrorDto::from(failure));
        },
    };
    let meant = match conversions::parse_active_timer(session) {
        Ok(meant) => meant,
        Err(refusal) => {
            return Err(refusal);
        },
    };
    let reply = run(meant);
    proof {
        assert(run.ensures((meant,), reply));
    }
    conversions::client_result(reply)
}

/// When a timer reaches its target. `reached_at` is the domain's rule for it, in
/// milliseconds.
pub fn pomodoro_target_reached_at<G: FnOnce(&ActiveTimerSession) -> Option<i64>>(
    reached_at: G,
    session: ActiveTimerSessionDto,
) -> (r: Result<UtcTime, BridgeErrorDto>)
    requires
        session.valid(),
        session.meant() matches Some(meant) ==> reached_at.requires((&meant,)),
    ensures
        match session.meant() {
            None => error::refused(r),
            Some(meant) => exists|reached: Option<i64>| #[trigger]
                reached_at.ensures((&meant,), reached) && match reached {
                    None => error::refused(r),
                    Some(millis) => if domain::in_calendar(millis) {
                        r == Ok::<UtcTime, BridgeErrorDto>(UtcTime::of_millis(millis as int))
                    } else {
                        error::refused(r)
                    },
                },
        },
{
    let meant = match conversions::parse_active_timer(session) {
        Ok(meant) => meant,
        Err(refusal) => {
            return Err(refusal);
        },
    };
    let reached = reached_at(&meant);
    proof {
        assert(reached_at.ensures((&meant,), reached));
    }
    match reached {
        None => Err(BridgeErrorDto::invalid_input()),
        Some(millis) => match UtcTime::from_millis(millis) {
            Some(at) => Ok(at),
            None => Err(BridgeErrorDto::invalid_input()),
        },
    }
}

/// Throws the timer that runs away, where it is the expected one.
pub fn discard_active_timer_session<F: FnOnce(Uuid) -> Result<bool, ClientFailure>>(
    client: Result<F, ClientFailure>,
    expected_session_id: String,
) -> (r: Result<bool, BridgeErrorDto>)
    requires
        client matches Ok(run) ==> (ids::parsed(expected_session_id@) matches Some(id) ==> run.requires(
            (id,),
        )),
    ensures
        match client {
            Err(failure) => error::not_reached(failure, r),
            Ok(run) => match ids::parsed(expected_session_id@) {
                Some(id) => exists|reply: Result<bool, ClientFailure>| #[trigger]
                    run.ensures((id,), reply) && error::handed_on(reply, r),
                None => error::refused(r),
            },
        },
{
    let run = match client {
        Ok(run) => run,
        Err(failure) => {
            return Err(BridgeErrorDto::from(failure));
        },
    };
    let id = match conversions::parse_uuid(expected_session_id.as_str()) {
        Ok(id) => id,
        Err(refusal) => {
            return Err(refusal);
        },
    };
    let reply = run(id);
    proof {
        assert(run.ensures((id,), reply));
    }
    conversions::client_result(reply)
}

/// Ends the timer that runs and keeps the session, where it is the expected one.
pub fn finish_active_timer_session<
    F: FnOnce(CompletedTimerSession) -> Result<bool, ClientFailure>,
>(
    client: Result<F, ClientFailure>,
    session: CompletedTimerSessionDto,
) -> (r: Result<bool, BridgeErrorDto>)
    requires
        session.valid(),
        client matches Ok(run) ==> (session.meant() matches Some(meant) ==> run.requires((meant,))),
    ensures
        match client {
            Err(failure) => error::not_reached(failure, r),
            Ok(run) => match session.meant() {
                Some(meant) => exists|reply: Result<bool, ClientFailure>| #[trigger]
                    run.ensures((meant,), reply) && error::handed_on(reply, r),
                None => error::refused(r),
            },
        },
{
    let run = match client {
        Ok(run) => run,
        Err(failure) => {
            return Err(BridgeErrorDto::from(failure));
        },
    };
    let meant = match conversions::parse_completed_timer(session) {
        Ok(meant) => meant,
        Err(refusal) => {
            return Err(refusal);
        },
    };
    let reply = run(meant);
    proof {
        assert(run.ensures((meant,), reply));
    }
    conversions::client_result(reply)
}

/// The sessions that ran for a task.
pub fn get_completed_timer_sessions<
    F: FnOnce(Uuid) -> Result<Vec<CompletedTimerSession>, ClientFailure>,
>(
    client: Result<F, ClientFailure>,
    task_id: String,
) -> (r: Result<Vec<CompletedTimerSessionDto>, BridgeErrorDto>)
    requires
        client matches Ok(run) ==> (ids::parsed(task_id@) matches Some(id) ==> run.requires((id,))),
        client matches Ok(run) ==> (ids::parsed(task_id@) matches Some(id) ==> forall|
            reply: Result<Vec<CompletedTimerSession>, ClientFailure>,
        | #[trigger]
            run.ensures((id,), reply) ==> (reply matches Ok(sessions) ==> forall|i: int|
                0 <= i < sessions@.len() ==> (#[trigger] sessions@[i]).valid())),
    ensures
        match client {
            Err(failure) => error::not_reached(failure, r),
            Ok(run) => match ids::parsed(task_id@) {
                Some(id) => exists|
                    reply: Result<Vec<CompletedTimerSession>, ClientFailure>,
                | #[trigger]
                    run.ensures((id,), reply) && error::answered(
                        reply,
                        r,
                        |sessions: Vec<CompletedTimerSession>, dtos: Vec<CompletedTimerSessionDto>|
                            conversions::shows_all(
                                sessions@,
                                dtos@,
                                |value: CompletedTimerSession, shown: CompletedTimerSessionDto|
                                    shown.shows(value),
                            ),
                    ),
                None => error::refused(r),
            },
        },
{
    let run = match client {
        Ok(run) => run,
        Err(failure) => {
            return Err(BridgeErrorDto::from(failure));
        },
    };
    let id = match conversions::parse_uuid(task_id.as_str()) {
        Ok(id) => id,
        Err(refusal) => {
            return Err(refusal);
        },
    };
    let reply = run(id);
    proof {
        assert(run.ensures((id,), reply));
    }
    match reply {
        Ok(value) => Ok(conversions::convert_all(value, conversions::completed_timer_to_dto)),
        Err(failure) => Err(BridgeErrorDto::from(failure)),
    }
}

} // verus!
