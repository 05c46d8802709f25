//! Reminders and the notifications that a platform shows for them.
use vstd::prelude::*;
use crate::bridge::conversions;
use crate::bridge::dto::{ReminderDto, ReminderNotificationCommandDto};
use crate::bridge::error;
use crate::bridge::error::BridgeErrorDto;
use crate::domain::{ReminderNotificationCommandView, ReminderView};
use crate::error::ClientFailure;
use crate::ids;
use crate::ids::Uuid;

verus! {

/// Sets a reminder for a task.
pub fn create_task_reminder<F: FnOnce(Uuid, i64) -> Result<ReminderView, ClientFailure>>(
    client: Result<F, ClientFailure>,
    task_id: String,
    remind_at: i64,
) -> (r: Result<ReminderDto, BridgeErrorDto>)
    requires
        client matches Ok(run) ==> (ids::parsed(task_id@) matches Some(id) ==> run.requires(
            (id, remind_at),
        )),
    ensures
        match ids::parsed(task_id@) {
            Some(id) => match client {
                Err(failure) => error::not_reached(failure, r),
                Ok(run) => exists|reply: Result<ReminderView, ClientFailure>| #[trigger]
                    run.ensures((id, remind_at), reply) && error::answered(
                        reply,
                        r,
                        |reminder: ReminderView, dto: ReminderDto| dto.shows(reminder),
                    ),
            },
            None => error::refused(r),
        },
{
    let id = match conversions::parse_uuid(task_id.as_str()) {
        Ok(id) => id,
        Err(refusal) => {
            return Err(refusal);
        },
    };
    let run = match client {
        Ok(run) => run,
        Err(failure) => {
            return Err(BridgeErrorDto::from(failure));
        },
    };
    let reply = run(id, remind_at);
    proof {
        assert(run.ensures((id, remind_at), reply));
    }
    match reply {
        Ok(value) => Ok(conversions::reminder_to_dto(value)),
        Err(failure) => Err(BridgeErrorDto::from(failure)),
    }
}

/// Moves a reminder.
pub fn update_reminder<F: FnOnce(Uuid, i64) -> Result<ReminderView, ClientFailure>>(
    client: Result<F, ClientFailure>,
    reminder_id: String,
    remind_at: i64,
) -> (r: Result<ReminderDto, BridgeErrorDto>)
    requires
        client matches Ok(run) ==> (ids::parsed(reminder_id@) matches Some(id) ==> run.requires(
            (id, remind_at),
        )),
    ensures
        match ids::parsed(reminder_id@) {
            Some(id) => match client {
                Err(failure) => error::not_reached(failure, r),
                Ok(run) => exists|reply: Result<ReminderView, ClientFailure>| #[trigger]
                    run.ensures((id, remind_at), reply) && error::answered(
                        reply,
                        r,
                        |reminder: ReminderView, dto: ReminderDto| dto.shows(reminder),
                    ),
            },
            None => error::refused(r),
        },
{
    let id = match conversions::parse_uuid(reminder_id.as_str()) {
        Ok(id) => id,
        Err(refusal) => {
            return Err(refusal);
        },
    };
    let run = match client {
        Ok(run) => run,
        Err(failure) => {
            return Err(BridgeErrorDto::from(failure));
        },
    };
    let reply = run(id, remind_at);
    proof {
        assert(run.ensures((id, remind_at), reply));
    }
    match reply {
        Ok(value) => Ok(conversions::reminder_to_dto(value)),
        Err(failure) => Err(BridgeErrorDto::from(failure)),
    }
}

/// Deletes a reminder.
pub fn delete_reminder<F: FnOnce(Uuid) -> Result<ReminderView, ClientFailure>>(
    client: Result<F, ClientFailure>,
    reminder_id: String,
) -> (r: Result<ReminderDto, BridgeErrorDto>)
    requires
        client matches Ok(run) ==> (ids::parsed(reminder_id@) matches Some(id) ==> run.requires(
            (id,),
        )),
    ensures
        match ids::parsed(reminder_id@) {
            Some(id) => match client {
                Err(failure) => error::not_reached(failure, r),
                Ok(run) => exists|reply: Result<ReminderView, ClientFailure>| #[trigger]
                    run.ensures((id,), reply) && error::answered(
                        reply,
                        r,
                        |reminder: ReminderView, dto: ReminderDto| dto.shows(reminder),
                    ),
            },
            None => error::refused(r),
        },
{
    let id = match conversions::parse_uuid(reminder_id.as_str()) {
        Ok(id) => id,
        Err(refusal) => {
            return Err(refusal);
        },
    };
    let run = match client {
        Ok(run) => run,
        Err(failure) => {
            return Err(BridgeErrorDto::from(failure));
        },
    };
    let reply = run(id);
    proof {
        assert(run.ensures((id,), reply));
    }
    match reply {
        Ok(value) => Ok(conversions::reminder_to_dto(value)),
        Err(failure) => Err(BridgeErrorDto::from(failure)),
    }
}

/// Deletes every reminder of a task.
pub fn clear_task_reminders<F: FnOnce(Uuid) -> Result<Vec<ReminderView>, ClientFailure>>(
    client: Result<F, ClientFailure>,
    task_id: String,
) -> (r: Result<Vec<ReminderDto>, BridgeErrorDto>)
    requires
        client matches Ok(run) ==> (ids::parsed(task_id@) matches Some(id) ==> run.requires((id,))),
    ensures
        match ids::parsed(task_id@) {
            Some(id) => match client {
                Err(failure) => error::not_reached(failure, r),
                Ok(run) => exists|reply: Result<Vec<ReminderView>, ClientFailure>| #[trigger]
                    run.ensures((id,), reply) && error::answered(
                        reply,
                        r,
                        |reminders: Vec<ReminderView>, dtos: Vec<ReminderDto>|
                            conversions::shows_reminders(dtos@, reminders@),
                    ),
            },
            None => error::refused(r),
        },
{
    let id = match conversions::parse_uuid(task_id.as_str()) {
        Ok(id) => id,
        Err(refusal) => {
            return Err(refusal);
        },
    };
    let run = match client {
        Ok(run) => run,
        Err(failure) => {
            return Err(BridgeErrorDto::from(failure));
        },
    };
    let reply = run(id);
    proof {
        assert(run.ensures((id,), reply));
    }
    match reply {
        Ok(value) => Ok(conversions::reminders_to_dtos(value)),
        Err(failure) => Err(BridgeErrorDto::from(failure)),
    }
}

/// The reminders of a task.
pub fn get_task_reminders<F: FnOnce(Uuid) -> Result<Vec<ReminderView>, ClientFailure>>(
    client: Result<F, ClientFailure>,
    task_id: String,
) -> (r: Result<Vec<ReminderDto>, BridgeErrorDto>)
    requires
        client matches Ok(run) ==> (ids::parsed(task_id@) matches Some(id) ==> run.requires((id,))),
    ensures
        match ids::parsed(task_id@) {
            Some(id) => match client {
                Err(failure) => error::not_reached(failure, r),
                Ok(run) => exists|reply: Result<Vec<ReminderView>, ClientFailure>| #[trigger]
                    run.ensures((id,), reply) && error::answered(
                        reply,
                        r,
                        |reminders: Vec<ReminderView>, dtos: Vec<ReminderDto>|
                            conversions::shows_reminders(dtos@, reminders@),
                    ),
            },
            None => error::refused(r),
        },
{
    let id = match conversions::parse_uuid(task_id.as_str()) {
        Ok(id) => id,
        Err(refusal) => {
            return Err(refusal);
        },
    };
    let run = match client {
        Ok(run) => run,
        Err(failure) => {
            return Err(BridgeErrorDto::from(failure));
        },
    };
    let reply = run(id);
    proof {
        assert(run.ensures((id,), reply));
    }
    match reply {
        Ok(value) => Ok(conversions::reminders_to_dtos(value)),
        Err(failure) => Err(BridgeErrorDto::from(failure)),
    }
}

/// The reminders of a task and of the tasks below it.
pub fn get_task_subtree_reminders<F: FnOnce(Uuid) -> Result<Vec<ReminderView>, ClientFailure>>(
    client: Result<F, ClientFailure>,
    task_id: String,
) -> (r: Result<Vec<ReminderDto>, BridgeErrorDto>)
    requires
        client matches Ok(run) ==> (ids::parsed(task_id@) matches Some(id) ==> run.requires((id,))),
    ensures
        match ids::parsed(task_id@) {
            Some(id) => match client {
                Err(failure) => error::not_reached(failure, r),
                Ok(run) => exists|reply: Result<Vec<ReminderView>, ClientFailure>| #[trigger]
                    run.ensures((id,), reply) && error::answered(
                        reply,
                        r,
                        |reminders: Vec<ReminderView>, dtos: Vec<ReminderDto>|
                            conversions::shows_reminders(dtos@, reminders@),
                    ),
            },
            None => error::refused(r),
        },
{
    let id = match conversions::parse_uuid(task_id.as_str()) {
        Ok(id) => id,
        Err(refusal) => {
            return Err(refusal);
        },
    };
    let run = match client {
        Ok(run) => run,
        Err(failure) => {
            return Err(BridgeErrorDto::from(failure));
        },
    };
    let reply = run(id);
    proof {
        assert(run.ensures((id,), reply));
    }
    match reply {
        Ok(value) => Ok(conversions::reminders_to_dtos(value)),
        Err(failure) => Err(BridgeErrorDto::from(failure)),
    }
}

/// The reminders of the tasks of a list.
pub fn get_list_reminders<F: FnOnce(Uuid) -> Result<Vec<ReminderView>, ClientFailure>>(
    client: Result<F, ClientFailure>,
    list_id: String,
) -> (r: Result<Vec<ReminderDto>, BridgeErrorDto>)
    requires
        client matches Ok(run) ==> (ids::parsed(list_id@) matches Some(id) ==> run.requires((id,))),
    ensures
        match ids::parsed(list_id@) {
            Some(id) => match client {
                Err(failure) => error::not_reached(failure, r),
                Ok(run) => exists|reply: Result<Vec<ReminderView>, ClientFailure>| #[trigger]
                    run.ensures((id,), reply) && error::answered(
                        reply,
                        r,
                        |reminders: Vec<ReminderView>, dtos: Vec<ReminderDto>|
                            conversions::shows_reminders(dtos@, reminders@),
                    ),
            },
            None => error::refused(r),
        },
{
    let id = match conversions::parse_uuid(list_id.as_str()) {
        Ok(id) => id,
        Err(refusal) => {
            return Err(refusal);
        },
    };
    let run = match client {
        Ok(run) => run,
        Err(failure) => {
            return Err(BridgeErrorDto::from(failure));
        },
    };
    let reply = run(id);
    proof {
        assert(run.ensures((id,), reply));
    }
    match reply {
        Ok(value) => Ok(conversions::reminders_to_dtos(value)),
        Err(failure) => Err(BridgeErrorDto::from(failure)),
    }
}

/// The reminders that are still to come.
pub fn list_pending_reminders<F: FnOnce(i64) -> Result<Vec<ReminderView>, ClientFailure>>(
    client: Result<F, ClientFailure>,
    now_ms: i64,
) -> (r: Result<Vec<ReminderDto>, BridgeErrorDto>)
    requires
        client matches Ok(run) ==> run.requires((now_ms,)),
    ensures
        match client {
            Err(failure) => error::not_reached(failure, r),
            Ok(run) => exists|reply: Result<Vec<ReminderView>, ClientFailure>| #[trigger]
                run.ensures((now_ms,), reply) && error::answered(
                    reply,
                    r,
                    |reminders: Vec<ReminderView>, dtos: Vec<ReminderDto>|
                        conversions::shows_reminders(dtos@, reminders@),
                ),
        },
{
    let run = match client {
        Ok(run) => run,
        Err(failure) => {
            return Err(BridgeErrorDto::from(failure));
        },
    };
    let reply = run(now_ms);
    proof {
        assert(run.ensures((now_ms,), reply));
    }
    match reply {
        Ok(value) => Ok(conversions::reminders_to_dtos(value)),
        Err(failure) => Err(BridgeErrorDto::from(failure)),
    }
}

/// Puts a reminder off.
pub fn snooze_reminder<F: FnOnce(Uuid, i64) -> Result<ReminderView, ClientFailure>>(
    client: Result<F, ClientFailure>,
    reminder_id: String,
    snoozed_until: i64,
) -> (r: Result<ReminderDto, BridgeErrorDto>)
    requires
        client matches Ok(run) ==> (ids::parsed(reminder_id@) matches Some(id) ==> run.requires(
            (id, snoozed_until),
        )),
    ensures
        match ids::parsed(reminder_id@) {
            Some(id) => match client {
                Err(failure) => error::not_reached(failure, r),
                Ok(run) => exists|reply: Result<ReminderView, ClientFailure>| #[trigger]
                    run.ensures((id, snoozed_until), reply) && error::answered(
                        reply,
                        r,
                        |reminder: ReminderView, dto: ReminderDto| dto.shows(reminder),
                    ),
            },
            None => error::refused(r),
        },
{
    let id = match conversions::parse_uuid(reminder_id.as_str()) {
        Ok(id) => id,
        Err(refusal) => {
            return Err(refusal);
        },
    };
    let run = match client {
        Ok(run) => run,
        Err(failure) => {
            return Err(BridgeErrorDto::from(failure));
        },
    };
    let reply = run(id, snoozed_until);
    proof {
        assert(run.ensures((id, snoozed_until), reply));
    }
    match reply {
        Ok(value) => Ok(conversions::reminder_to_dto(value)),
        Err(failure) => Err(BridgeErrorDto::from(failure)),
    }
}

/// Works out anew which notifications the platform is to show.
pub fn prepare_reminder_notification_reconciliation<
    F: FnOnce(i64) -> Result<Vec<ReminderNotificationCommandView>, ClientFailure>,
>(
    client: Result<F, ClientFailure>,
    now_ms: i64,
) -> (r: Result<Vec<ReminderNotificationCommandDto>, BridgeErrorDto>)
    requires
        client matches Ok(run) ==> run.requires((now_ms,)),
    ensures
        match client {
            Err(failure) => error::not_reached(failure, r),
            Ok(run) => exists|
                reply: Result<Vec<ReminderNotificationCommandView>, ClientFailure>,
            | #[trigger]
                run.ensures((now_ms,), reply) && error::answered(
                    reply,
                    r,
                    |
                        commands: Vec<ReminderNotificationCommandView>,
                        dtos: Vec<ReminderNotificationCommandDto>,
                    | conversions::shows_commands(dtos@, commands@),
                ),
        },
{
    let run = match client {
        Ok(run) => run,
        Err(failure) => {
            return Err(BridgeErrorDto::from(failure));
        },
    };
    let reply = run(now_ms);
    proof {
        assert(run.ensures((now_ms,), reply));
    }
    match reply {
        Ok(value) => Ok(conversions::notification_commands_to_dtos(value)),
        Err(failure) => Err(BridgeErrorDto::from(failure)),
    }
}

/// The first `limit` commands that the platform has not carried out.
pub fn list_reminder_notification_commands<
    F: FnOnce(i64, usize) -> Result<Vec<ReminderNotificationCommandView>, ClientFailure>,
>(
    client: Result<F, ClientFailure>,
    now_ms: i64,
    limit: u32,
) -> (r: Result<Vec<ReminderNotificationCommandDto>, BridgeErrorDto>)
    requires
        client matches Ok(run) ==> run.requires((now_ms, limit as usize)),
    ensures
        match client {
            Err(failure) => error::not_reached(failure, r),
            Ok(run) => exists|
                reply: Result<Vec<ReminderNotificationCommandView>, ClientFailure>,
            | #[trigger]
                run.ensures((now_ms, limit as usize), reply) && error::answered(
                    reply,
                    r,
                    |
                        commands: Vec<ReminderNotificationCommandView>,
                        dtos: Vec<ReminderNotificationCommandDto>,
                    | conversions::shows_commands(dtos@, commands@),
                ),
        },
{
    let run = match client {
        Ok(run) => run,
        Err(failure) => {
            return Err(BridgeErrorDto::from(failure));
        },
    };
    let reply = run(now_ms, limit as usize);
    proof {
        assert(run.ensures((now_ms, limit as usize), reply));
    }
    match reply {
        Ok(value) => Ok(conversions::notification_commands_to_dtos(value)),
        Err(failure) => Err(BridgeErrorDto::from(failure)),
    }
}

/// Notes that the platform carried out a command, and tells whether it was still current.
pub fn ack_reminder_notification_command<F: FnOnce(Uuid, i64) -> Result<bool, ClientFailure>>(
    client: Result<F, ClientFailure>,
    reminder_id: String,
    revision: i64,
) -> (r: Result<bool, BridgeErrorDto>)
    requires
        client matches Ok(run) ==> (ids::parsed(reminder_id@) matches Some(id) ==> run.requires(
            (id, revision),
        )),
    ensures
        match ids::parsed(reminder_id@) {
            Some(id) => match client {
                Err(failure) => error::not_reached(failure, r),
                Ok(run) => exists|reply: Result<bool, ClientFailure>| #[trigger]
                    run.ensures((id, revision), reply) && error::handed_on(reply, r),
            },
            None => error::refused(r),
        },
{
    let id = match conversions::parse_uuid(reminder_id.as_str()) {
        Ok(id) => id,
        Err(refusal) => {
            return Err(refusal);
        },
    };
    let run = match client {
        Ok(run) => run,
        Err(failure) => {
            return Err(BridgeErrorDto::from(failure));
        },
    };
    let reply = run(id, revision);
    proof {
        assert(run.ensures((id, revision), reply));
    }
    conversions::client_result(reply)
}

} // verus!
