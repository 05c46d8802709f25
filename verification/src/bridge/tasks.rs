//! Tasks. `date` and `date_time` are the domain's readers of due values.
use vstd::prelude::*;
use crate::bridge::conversions;
use crate::bridge::dto::{
    CalendarOccurrenceDto, CalendarRangeInput, HomeTaskDto, TaskDto, TaskDueInput, TaskUndoDto,
};
use crate::bridge::error;
use crate::bridge::error::BridgeErrorDto;
use crate::domain::{
    CalendarOccurrenceView, CreateTaskCommand, HomeTaskView, ReorderTaskCommand,
    SetTaskStatusCommand, Task, TaskDue, TaskUndoView, UpdateTaskCommand,
};
use crate::error::ClientFailure;
use crate::ids;
use crate::ids::Uuid;

verus! {

/// The priority that is given, or none.
pub open spec fn priority_or_none(priority: Option<i32>) -> i32 {
    match priority {
        Some(given) => given,
        None => 0,
    }
}

/// Makes a task. Where it stands among its siblings is up to the client.
pub fn create_task<
    F: FnOnce(CreateTaskCommand) -> Result<Task, ClientFailure>,
    M: FnOnce(String) -> Option<TaskDue>,
    N: FnOnce(i64, String) -> Option<TaskDue>,
>(
    client: Result<F, ClientFailure>,
    date: M,
    date_time: N,
    list_id: String,
    title: String,
    parent_task_id: Option<String>,
    due: Option<TaskDueInput>,
    note: Option<String>,
    priority: Option<i32>,
    scheduled_at: Option<i64>,
    estimated_minutes: Option<i32>,
) -> (r: Result<TaskDto, BridgeErrorDto>)
    requires
        client matches Ok(run) ==> match (
            ids::parsed(list_id@),
            conversions::parsed_or_absent(parent_task_id),
        ) {
            (Some(list), Some(parent)) => forall|made: Result<Option<TaskDue>, String>| #[trigger]
                conversions::optional_due_parsed(due, date, date_time, made) && made is Ok
                    ==> run.requires(
                    (
                        CreateTaskCommand {
                            list_id: list,
                            title,
                            parent_task_id: parent,
                            due: made->Ok_0,
                            note,
                            priority: priority_or_none(priority),
                            scheduled_at,
                            estimated_minutes,
                        },
                    ),
                ),
            _ => true,
        },
        due matches Some(asked) ==> conversions::due_input_valid(asked),
        forall|due_on: String| #[trigger] date.requires((due_on,)),
        forall|millis: i64, time_zone: String| #[trigger] date_time.requires((millis, time_zone)),
    ensures
        match (ids::parsed(list_id@), conversions::parsed_or_absent(parent_task_id)) {
            (Some(list), Some(parent)) => exists|made: Result<Option<TaskDue>, String>| #[trigger]
                conversions::optional_due_parsed(due, date, date_time, made) && match made {
                    Err(_) => error::refused(r),
                    Ok(due_value) => match client {
                        Err(failure) => error::not_reached(failure, r),
                        Ok(run) => exists|reply: Result<Task, ClientFailure>| #[trigger]
                            run.ensures(
                                (
                                    CreateTaskCommand {
                                        list_id: list,
                                        title,
                                        parent_task_id: parent,
                                        due: due_value,
                                        note,
                                        priority: priority_or_none(priority),
                                        scheduled_at,
                                        estimated_minutes,
                                    },
                                ),
                                reply,
                            ) && error::answered(
                                reply,
                                r,
                                |task: Task, dto: TaskDto| dto.shows(task),
                            ),
                    },
                },
            _ => error::refused(r),
        },
{
    let list = match conversions::parse_uuid(list_id.as_str()) {
        Ok(id) => id,
        Err(refusal) => {
            return Err(refusal);
        },
    };
    let parent = match conversions::parse_optional_uuid(&parent_task_id) {
        Ok(id) => id,
        Err(refusal) => {
            return Err(refusal);
        },
    };
    let made = conversions::parse_optional_due(due, date, date_time);
    proof {
        assert(conversions::optional_due_parsed(due, date, date_time, made));
    }
    let due_value = match made {
        Ok(due_value) => due_value,
        Err(_) => {
            return Err(BridgeErrorDto::invalid_input());
        },
    };
    let run = match client {
        Ok(run) => run,
        Err(failure) => {
            return Err(BridgeErrorDto::from(failure));
        },
    };
    let rank: i32 = match priority {
        Some(given) => given,
        None => 0,
    };
    let command = CreateTaskCommand {
        list_id: list,
        title,
        parent_task_id: parent,
        due: due_value,
        note,
        priority: rank,
        scheduled_at,
        estimated_minutes,
    };
    let reply = run(command);
    proof {
        assert(run.ensures((command,), reply));
    }
    match reply {
        Ok(value) => Ok(conversions::task_to_dto(value)),
        Err(failure) => Err(BridgeErrorDto::from(failure)),
    }
}

/// Puts a task between two of its siblings.
pub fn reorder_task<F: FnOnce(ReorderTaskCommand) -> Result<Task, ClientFailure>>(
    client: Result<F, ClientFailure>,
    task_id: String,
    previous_task_id: Option<String>,
    next_task_id: Option<String>,
) -> (r: Result<TaskDto, BridgeErrorDto>)
    requires
        client matches Ok(run) ==> match (
            ids::parsed(task_id@),
            conversions::parsed_or_absent(previous_task_id),
            conversions::parsed_or_absent(next_task_id),
        ) {
            (Some(id), Some(previous), Some(next)) => run.requires(
                (
                    ReorderTaskCommand {
                        task_id: id,
                        previous_task_id: previous,
                        next_task_id: next,
                    },
                ),
            ),
            _ => true,
        },
    ensures
        match (
            ids::parsed(task_id@),
            conversions::parsed_or_absent(previous_task_id),
            conversions::parsed_or_absent(next_task_id),
        ) {
            (Some(id), Some(previous), Some(next)) => match client {
                Err(failure) => error::not_reached(failure, r),
                Ok(run) => exists|reply: Result<Task, ClientFailure>| #[trigger]
                    run.ensures(
                        (
                            ReorderTaskCommand {
                                task_id: id,
                                previous_task_id: previous,
                                next_task_id: next,
                            },
                        ),
                        reply,
                    ) && error::answered(
                        reply,
                        r,
                        |task: Task, dto: TaskDto| dto.shows(task),
                    ),
            },
            _ => error::refused(r),
        },
{
    let id = match conversions::parse_uuid(task_id.as_str()) {
        Ok(id) => id,
        Err(refusal) => {
            return Err(refusal);
        },
    };
    let previous = match conversions::parse_optional_uuid(&previous_task_id) {
        Ok(id) => id,
        Err(refusal) => {
            return Err(refusal);
        },
    };
    let next = match conversions::parse_optional_uuid(&next_task_id) {
        Ok(id) => id,
        Err(refusal) => {
            return Err(refusal);
        },
    };
    let run = match client {
        Ok(run) => run,
        Err(failure) => {
            return Err(BridgeErrorDto::from(failure));
        },
    };
    let command = ReorderTaskCommand {
        task_id: id,
        previous_task_id: previous,
        next_task_id: next,
    };
    let reply = run(command);
    proof {
        assert(run.ensures((command,), reply));
    }
    match reply {
        Ok(value) => Ok(conversions::task_to_dto(value)),
        Err(failure) => Err(BridgeErrorDto::from(failure)),
    }
}

/// The tasks of a list.
pub fn get_tasks<F: FnOnce(Uuid) -> Result<Vec<Task>, ClientFailure>>(
    client: Result<F, ClientFailure>,
    list_id: String,
) -> (r: Result<Vec<TaskDto>, BridgeErrorDto>)
    requires
        client matches Ok(run) ==> (ids::parsed(list_id@) matches Some(id) ==> run.requires((id,))),
    ensures
        match ids::parsed(list_id@) {
            Some(id) => match client {
                Err(failure) => error::not_reached(failure, r),
                Ok(run) => exists|reply: Result<Vec<Task>, ClientFailure>| #[trigger]
                    run.ensures((id,), reply) && error::answered(
                        reply,
                        r,
                        |tasks: Vec<Task>, dtos: Vec<TaskDto>|
                            conversions::shows_tasks(dtos@, tasks@),
                    ),
            },
            None => error::refused(r),
        },
{
    let id = match conversions::parse_uuid(list_id.as_str()) {
        Ok(id) => id,
        Err(refusal) => {
            return Err(refusal);
        },
    };
    let run = match client {
        Ok(run) => run,
        Err(failure) => {
            return Err(BridgeErrorDto::from(failure));
        },
    };
    let reply = run(id);
    proof {
        assert(run.ensures((id,), reply));
    }
    match reply {
        Ok(value) => Ok(conversions::tasks_to_dtos(value)),
        Err(failure) => Err(BridgeErrorDto::from(failure)),
    }
}

/// The tasks that a query finds.
pub fn search_tasks<F: FnOnce(String) -> Result<Vec<Task>, ClientFailure>>(
    client: Result<F, ClientFailure>,
    query: String,
) -> (r: Result<Vec<TaskDto>, BridgeErrorDto>)
    requires
        client matches Ok(run) ==> run.requires((query,)),
    ensures
        match client {
            Err(failure) => error::not_reached(failure, r),
            Ok(run) => exists|reply: Result<Vec<Task>, ClientFailure>| #[trigger]
                run.ensures((query,), reply) && error::answered(
                    reply,
                    r,
                    |tasks: Vec<Task>, dtos: Vec<TaskDto>|
                        conversions::shows_tasks(dtos@, tasks@),
                ),
        },
{
    let run = match client {
        Ok(run) => run,
        Err(failure) => {
            return Err(BridgeErrorDto::from(failure));
        },
    };
    let reply = run(query);
    proof {
        assert(run.ensures((query,), reply));
    }
    match reply {
        Ok(value) => Ok(conversions::tasks_to_dtos(value)),
        Err(failure) => Err(BridgeErrorDto::from(failure)),
    }
}

/// The tasks of the home view, for the day between two milliseconds.
pub fn get_home_tasks<F: FnOnce(i64, i64) -> Result<Vec<HomeTaskView>, ClientFailure>>(
    client: Result<F, ClientFailure>,
    today_start_ms: i64,
    tomorrow_start_ms: i64,
) -> (r: Result<Vec<HomeTaskDto>, BridgeErrorDto>)
    requires
        client matches Ok(run) ==> run.requires((today_start_ms, tomorrow_start_ms)),
    ensures
        match client {
            Err(failure) => error::not_reached(failure, r),
            Ok(run) => exists|reply: Result<Vec<HomeTaskView>, ClientFailure>| #[trigger]
                run.ensures((today_start_ms, tomorrow_start_ms), reply) && error::answered(
                    reply,
                    r,
                    |tasks: Vec<HomeTaskView>, dtos: Vec<HomeTaskDto>|
                        conversions::shows_all(
                            tasks@,
                            dtos@,
                            |value: HomeTaskView, shown: HomeTaskDto| shown.shows(value),
                        ),
                ),
        },
{
    let run = match client {
        Ok(run) => run,
        Err(failure) => {
            return Err(BridgeErrorDto::from(failure));
        },
    };
    let reply = run(today_start_ms, tomorrow_start_ms);
    proof {
        assert(run.ensures((today_start_ms, tomorrow_start_ms), reply));
    }
    match reply {
        Ok(value) => Ok(conversions::convert_all(value, conversions::home_task_to_dto)),
        Err(failure) => Err(BridgeErrorDto::from(failure)),
    }
}

impl CalendarRangeInput {
    /// A frontend names times of the calendar.
    pub open spec fn valid(self) -> bool {
        &&& self.start_at.valid()
        &&& self.end_at.valid()
    }
}

/// What happens on the days of a range. `make_range` is the domain's reader of ranges;
/// what it does not take never reaches the client.
pub fn get_calendar_occurrences<
    R,
    M: FnOnce(String, String, i64, i64) -> Option<R>,
    F: FnOnce(R) -> Result<Vec<CalendarOccurrenceView>, ClientFailure>,
>(
    client: Result<F, ClientFailure>,
    make_range: M,
    range: CalendarRangeInput,
) -> (r: Result<Vec<CalendarOccurrenceDto>, BridgeErrorDto>)
    requires
        range.valid(),
        make_range.requires(
            (
                range.start_on,
                range.end_on,
                range.start_at.millis_spec() as i64,
                range.end_at.millis_spec() as i64,
            ),
        ),
        client matches Ok(run) ==> forall|made: R| #[trigger]
            make_range.ensures(
                (
                    range.start_on,
                    range.end_on,
                    range.start_at.millis_spec() as i64,
                    range.end_at.millis_spec() as i64,
                ),
                Some(made),
            ) ==> run.requires((made,)),
    ensures
        exists|start_at: i64, end_at: i64, made: Option<R>|
            {
                &&& start_at == range.start_at.millis_spec()
                &&& end_at == range.end_at.millis_spec()
                &&& #[trigger] make_range.ensures(
                    (range.start_on, range.end_on, start_at, end_at),
                    made,
                )
                &&& match made {
                    None => error::refused(r),
                    Some(days) => match client {
                        Err(failure) => error::not_reached(failure, r),
                        Ok(run) => exists|
                            reply: Result<Vec<CalendarOccurrenceView>, ClientFailure>,
                        | #[trigger]
                            run.ensures((days,), reply) && error::answered(
                                reply,
                                r,
                                |
                                    occurrences: Vec<CalendarOccurrenceView>,
                                    dtos: Vec<CalendarOccurrenceDto>,
                                |
                                    conversions::shows_all(
                                        occurrences@,
                                        dtos@,
                                        |
                                            value: CalendarOccurrenceView,
                                            shown: CalendarOccurrenceDto,
                                        |
                                            shown.shows(value),
                                    ),
                            ),
                    },
                }
            },
{
    let start_at: i64 = range.start_at.millis();
    let end_at: i64 = range.end_at.millis();
    let made = make_range(range.start_on, range.end_on, start_at, end_at);
    proof {
        assert(make_range.ensures((range.start_on, range.end_on, start_at, end_at), made));
    }
    let days = match made {
        Some(days) => days,
        None => {
            return Err(BridgeErrorDto::invalid_input());
        },
    };
    let run = match client {
        Ok(run) => run,
        Err(failure) => {
            return Err(BridgeErrorDto::from(failure));
        },
    };
    let reply = run(days);
    proof {
        assert(run.ensures((days,), reply));
    }
    match reply {
        Ok(value) => Ok(
            conversions::convert_all(value, conversions::calendar_occurrence_to_dto),
        ),
        Err(failure) => Err(BridgeErrorDto::from(failure)),
    }
}

/// What a count tells: the count, where a frontend can hold it.
pub open spec fn count_told(
    reply: Result<usize, ClientFailure>,
    r: Result<i32, BridgeErrorDto>,
) -> bool {
    match reply {
        Ok(count) => if count <= i32::MAX {
            r == Ok::<i32, BridgeErrorDto>(count as i32)
        } else {
            error::refused(r)
        },
        Err(failure) => r is Err && r->Err_0.tells(failure),
    }
}

fn tell_count(reply: Result<usize, ClientFailure>) -> (r: Result<i32, BridgeErrorDto>)
    ensures
        count_told(reply, r),
{
    match reply {
        Ok(count) => match conversions::count_to_i32(count) {
            Ok(told) => Ok(told),
            Err(_) => Err(BridgeErrorDto::invalid_input()),
        },
        Err(failure) => Err(BridgeErrorDto::from(failure)),
    }
}

/// How many tasks stand below a task.
pub fn count_task_descendants<F: FnOnce(Uuid) -> Result<usize, ClientFailure>>(
    client: Result<F, ClientFailure>,
    task_id: String,
) -> (r: Result<i32, BridgeErrorDto>)
    requires
        client matches Ok(run) ==> (ids::parsed(task_id@) matches Some(id) ==> run.requires((id,))),
    ensures
        match ids::parsed(task_id@) {
            Some(id) => match client {
                Err(failure) => error::not_reached(failure, r),
                Ok(run) => exists|reply: Result<usize, ClientFailure>| #[trigger]
                    run.ensures((id,), reply) && count_told(reply, r),
            },
            None => error::refused(r),
        },
{
    let id = match conversions::parse_uuid(task_id.as_str()) {
        Ok(id) => id,
        Err(refusal) => {
            return Err(refusal);
        },
    };
    let run = match client {
        Ok(run) => run,
        Err(failure) => {
            return Err(BridgeErrorDto::from(failure));
        },
    };
    let reply = run(id);
    proof {
        assert(run.ensures((id,), reply));
    }
    tell_count(reply)
}

/// How many tasks a list holds.
pub fn count_tasks_in_list<F: FnOnce(Uuid) -> Result<usize, ClientFailure>>(
    client: Result<F, ClientFailure>,
    list_id: String,
) -> (r: Result<i32, BridgeErrorDto>)
    requires
        client matches Ok(run) ==> (ids::parsed(list_id@) matches Some(id) ==> run.requires((id,))),
    ensures
        match ids::parsed(list_id@) {
            Some(id) => match client {
                Err(failure) => error::not_reached(failure, r),
                Ok(run) => exists|reply: Result<usize, ClientFailure>| #[trigger]
                    run.ensures((id,), reply) && count_told(reply, r),
            },
            None => error::refused(r),
        },
{
    let id = match conversions::parse_uuid(list_id.as_str()) {
        Ok(id) => id,
        Err(refusal) => {
            return Err(refusal);
        },
    };
    let run = match client {
        Ok(run) => run,
        Err(failure) => {
            return Err(BridgeErrorDto::from(failure));
        },
    };
    let reply = run(id);
    proof {
        assert(run.ensures((id,), reply));
    }
    tell_count(reply)
}

/// Changes the content of a task.
pub fn update_task<
    F: FnOnce(UpdateTaskCommand) -> Result<Task, ClientFailure>,
    M: FnOnce(String) -> Option<TaskDue>,
    N: FnOnce(i64, String) -> Option<TaskDue>,
>(
    client: Result<F, ClientFailure>,
    date: M,
    date_time: N,
    task_id: String,
    title: String,
    note: String,
    priority: i32,
    due: Option<TaskDueInput>,
    scheduled_at: Option<i64>,
    estimated_minutes: Option<i32>,
) -> (r: Result<TaskDto, BridgeErrorDto>)
    requires
        client matches Ok(run) ==> match ids::parsed(task_id@) {
            Some(id) => forall|made: Result<Option<TaskDue>, String>| #[trigger]
                conversions::optional_due_parsed(due, date, date_time, made) && made is Ok
                    ==> run.requires(
                    (
                        UpdateTaskCommand {
                            task_id: id,
                            title,
                            note,
                            priority,
                            due: made->Ok_0,
                            scheduled_at,
                            estimated_minutes,
                        },
                    ),
                ),
            None => true,
        },
        due matches Some(asked) ==> conversions::due_input_valid(asked),
        forall|due_on: String| #[trigger] date.requires((due_on,)),
        forall|millis: i64, time_zone: String| #[trigger] date_time.requires((millis, time_zone)),
    ensures
        match ids::parsed(task_id@) {
            Some(id) => exists|made: Result<Option<TaskDue>, String>| #[trigger]
                conversions::optional_due_parsed(due, date, date_time, made) && match made {
                    Err(_) => error::refused(r),
                    Ok(due_value) => match client {
                        Err(failure) => error::not_reached(failure, r),
                        Ok(run) => exists|reply: Result<Task, ClientFailure>| #[trigger]
                            run.ensures(
                                (
                                    UpdateTaskCommand {
                                        task_id: id,
                                        title,
                                        note,
                                        priority,
                                        due: due_value,
                                        scheduled_at,
                                        estimated_minutes,
                                    },
                                ),
                                reply,
                            ) && error::answered(
                                reply,
                                r,
                                |task: Task, dto: TaskDto| dto.shows(task),
                            ),
                    },
                },
            None => error::refused(r),
        },
{
    let id = match conversions::parse_uuid(task_id.as_str()) {
        Ok(id) => id,
        Err(refusal) => {
            return Err(refusal);
        },
    };
    let made = conversions::parse_optional_due(due, date, date_time);
    proof {
        assert(conversions::optional_due_parsed(due, date, date_time, made));
    }
    let due_value = match made {
        Ok(due_value) => due_value,
        Err(_) => {
            return Err(BridgeErrorDto::invalid_input());
        },
    };
    let run = match client {
        Ok(run) => run,
        Err(failure) => {
            return Err(BridgeErrorDto::from(failure));
        },
    };
    let command = UpdateTaskCommand {
        task_id: id,
        title,
        note,
        priority,
        due: due_value,
        scheduled_at,
        estimated_minutes,
    };
    let reply = run(command);
    proof {
        assert(run.ensures((command,), reply));
    }
    match reply {
        Ok(value) => Ok(conversions::task_to_dto(value)),
        Err(failure) => Err(BridgeErrorDto::from(failure)),
    }
}

/// Moves a task to a status, which is given by its word.
pub fn set_task_status<F: FnOnce(SetTaskStatusCommand) -> Result<Task, ClientFailure>>(
    client: Result<F, ClientFailure>,
    task_id: String,
    status: String,
    closed_reason: Option<String>,
) -> (r: Result<TaskDto, BridgeErrorDto>)
    requires
        client matches Ok(run) ==> match (
            ids::parsed(task_id@),
            conversions::status_of_word(status@),
        ) {
            (Some(id), Some(named)) => run.requires(
                (
                    SetTaskStatusCommand {
                        task_id: id,
                        status: named,
                        closed_reason,
                    },
                ),
            ),
            _ => true,
        },
    ensures
        match (ids::parsed(task_id@), conversions::status_of_word(status@)) {
            (Some(id), Some(named)) => match client {
                Err(failure) => error::not_reached(failure, r),
                Ok(run) => exists|reply: Result<Task, ClientFailure>| #[trigger]
                    run.ensures(
                        (
                            SetTaskStatusCommand {
                                task_id: id,
                                status: named,
                                closed_reason,
                            },
                        ),
                        reply,
                    ) && error::answered(
                        reply,
                        r,
                        |task: Task, dto: TaskDto| dto.shows(task),
                    ),
            },
            _ => error::refused(r),
        },
{
    let id = match conversions::parse_uuid(task_id.as_str()) {
        Ok(id) => id,
        Err(refusal) => {
            return Err(refusal);
        },
    };
    let named = match conversions::parse_status(status.as_str()) {
        Ok(named) => named,
        Err(_) => {
            return Err(BridgeErrorDto::invalid_input());
        },
    };
    let run = match client {
        Ok(run) => run,
        Err(failure) => {
            return Err(BridgeErrorDto::from(failure));
        },
    };
    let command = SetTaskStatusCommand { task_id: id, status: named, closed_reason };
    let reply = run(command);
    proof {
        assert(run.ensures((command,), reply));
    }
    match reply {
        Ok(value) => Ok(conversions::task_to_dto(value)),
        Err(failure) => Err(BridgeErrorDto::from(failure)),
    }
}

/// Deletes a task.
pub fn delete_task<F: FnOnce(Uuid) -> Result<(), ClientFailure>>(
    client: Result<F, ClientFailure>,
    task_id: String,
) -> (r: Result<(), BridgeErrorDto>)
    requires
        client matches Ok(run) ==> (ids::parsed(task_id@) matches Some(id) ==> run.requires((id,))),
    ensures
        match ids::parsed(task_id@) {
            Some(id) => match client {
                Err(failure) => error::not_reached(failure, r),
                Ok(run) => exists|reply: Result<(), ClientFailure>| #[trigger]
                    run.ensures((id,), reply) && error::handed_on(reply, r),
            },
            None => error::refused(r),
        },
{
    let id = match conversions::parse_uuid(task_id.as_str()) {
        Ok(id) => id,
        Err(refusal) => {
            return Err(refusal);
        },
    };
    let run = match client {
        Ok(run) => run,
        Err(failure) => {
            return Err(BridgeErrorDto::from(failure));
        },
    };
    let reply = run(id);
    proof {
        assert(run.ensures((id,), reply));
    }
    conversions::client_result(reply)
}

/// What was done last and may be undone.
pub fn get_latest_task_undo<F: FnOnce() -> Result<Option<TaskUndoView>, ClientFailure>>(
    client: Result<F, ClientFailure>,
) -> (r: Result<Option<TaskUndoDto>, BridgeErrorDto>)
    requires
        client matches Ok(run) ==> run.requires(()),
    ensures
        match client {
            Err(failure) => error::not_reached(failure, r),
            Ok(run) => exists|reply: Result<Option<TaskUndoView>, ClientFailure>| #[trigger]
                run.ensures((), reply) && error::answered(
                    reply,
                    r,
                    |entry: Option<TaskUndoView>, dto: Option<TaskUndoDto>|
                        conversions::shows_optional(
                            entry,
                            dto,
                            |value: TaskUndoView, shown: TaskUndoDto| shown.shows(value),
                        ),
                ),
        },
{
    let run = match client {
        Ok(run) => run,
        Err(failure) => {
            return Err(BridgeErrorDto::from(failure));
        },
    };
    let reply = run();
    proof {
        assert(run.ensures((), reply));
    }
    match reply {
        Ok(value) => Ok(match value {
            None => None,
            Some(inner) => Some(conversions::task_undo_to_dto(inner)),
        }),
        Err(failure) => Err(BridgeErrorDto::from(failure)),
    }
}

/// Undoes what was done to a task.
pub fn undo_task_operation<F: FnOnce(Uuid) -> Result<Task, ClientFailure>>(
    client: Result<F, ClientFailure>,
    undo_id: String,
) -> (r: Result<TaskDto, BridgeErrorDto>)
    requires
        client matches Ok(run) ==> (ids::parsed(undo_id@) matches Some(id) ==> run.requires((id,))),
    ensures
        match ids::parsed(undo_id@) {
            Some(id) => match client {
                Err(failure) => error::not_reached(failure, r),
                Ok(run) => exists|reply: Result<Task, ClientFailure>| #[trigger]
                    run.ensures((id,), reply) && error::answered(
                        reply,
                        r,
                        |task: Task, dto: TaskDto| dto.shows(task),
                    ),
            },
            None => error::refused(r),
        },
{
    let id = match conversions::parse_uuid(undo_id.as_str()) {
        Ok(id) => id,
        Err(refusal) => {
            return Err(refusal);
        },
    };
    let run = match client {
        Ok(run) => run,
        Err(failure) => {
            return Err(BridgeErrorDto::from(failure));
        },
    };
    let reply = run(id);
    proof {
        assert(run.ensures((id,), reply));
    }
    match reply {
        Ok(value) => Ok(conversions::task_to_dto(value)),
        Err(failure) => Err(BridgeErrorDto::from(failure)),
    }
}

} // verus!
