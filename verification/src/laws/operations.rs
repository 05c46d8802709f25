//! What the operations of the bridge hand to the client, and what they show of its answers.
use vstd::prelude::*;
use crate::bridge::{
    account, conversions, error, lists, reminders, series, settings, tasks, timers,
};
use crate::bridge::dto::{
    AccountAuthResultDto, AccountRegistrationPendingDto, AccountRegistrationStateDto,
    AccountSessionStateDto, ActiveTimerSessionDto, ActiveTimerStartOutcomeDto, BillingStateDto,
    CalendarOccurrenceDto, CalendarRangeInput, CompletedTimerSessionDto, FrontendSettingKeyDto,
    HomeTaskDto, ListDto, OrganizationSafetyStateDto, RealtimeTicketDto, ReminderDto,
    ReminderNotificationCommandDto, SettlementSummaryDto, StreakDto, SyncStatusDto,
    TaskBlueprintNodeDto, TaskDto, TaskDueInput, TaskSeriesDto, TaskUndoDto, TemplateDto,
};
use crate::bridge::error::BridgeErrorDto;
use crate::domain::{
    AccountRegistrationPending, AccountRegistrationState, ActiveTimerSession,
    CalendarOccurrenceView, CompletedTimerSession, CreateTaskCommand,
    CreateTaskSeriesFromTaskCommand, CreateTaskSeriesFromTemplateCommand, CreateTemplateCommand,
    HomeTaskView, List, ReminderNotificationCommandView, ReminderView, ReorderTaskCommand,
    ReplaceTaskBlueprintCommand, SaveTemplateCommand, SetTaskStatusCommand, SettlementSummary,
    Streak, Task, TaskBlueprint, TaskDue, TaskSeries, TaskTemplate, TaskUndoView,
    UpdateTaskCommand, UpdateTaskSeriesCommand, UpdateTemplateCommand,
};
use crate::error::ClientFailure;
use crate::domain;
use crate::ids;
use crate::ids::{UtcTime, Uuid};
use crate::model::{
    AccountAuthResult, AccountSessionState, BillingState, FrontendSettingKey,
    OrganizationSafetyState, RealtimeTicket, SyncStatus,
};

verus! {

/// A task that is created is the one asked for: in the list and under the parent named,
/// with the title, the note, the times and the estimate given, and without a priority
/// where none is given; and what the client made of it is shown.
pub proof fn law_created_task_is_the_one_asked_for<
    F: FnOnce(CreateTaskCommand) -> Result<Task, ClientFailure>,
    M: FnOnce(String) -> Option<TaskDue>,
    N: FnOnce(i64, String) -> Option<TaskDue>,
>(
    client: Result<F, ClientFailure>,
    date: M,
    date_time: N,
    list_id: String,
    title: String,
    parent_task_id: Option<String>,
    due: Option<TaskDueInput>,
    note: Option<String>,
    priority: Option<i32>,
    scheduled_at: Option<i64>,
    estimated_minutes: Option<i32>,
    r: Result<TaskDto, BridgeErrorDto>,
)
    requires
        call_ensures(tasks::create_task::<F, M, N>, (client, date, date_time, list_id, title, parent_task_id, due, note, priority, scheduled_at, estimated_minutes,), r),
    ensures
        r is Ok ==>
            client is Ok
                && exists|command: CreateTaskCommand, reply: Result<Task, ClientFailure>| #[trigger] client->Ok_0.ensures((command,), reply)
                && reply is Ok
                && r->Ok_0.shows(reply->Ok_0)
                && ids::parsed(list_id@) == Some(command.list_id)
                && (parent_task_id is None <==> command.parent_task_id is None)
                && (parent_task_id is Some ==> ids::parsed(parent_task_id->Some_0@) == command.parent_task_id)
                && command.title == title
                && command.note == note
                && command.scheduled_at == scheduled_at
                && command.estimated_minutes == estimated_minutes
                && (priority is None ==> command.priority == 0)
                && (priority is Some ==> command.priority == priority->Some_0)
                && (due is None ==> command.due is None)
                && (due is Some ==> command.due is Some),
        ids::parsed(list_id@) is None ==>
            r is Err
                && r->Err_0.code is InvalidInput
                && !r->Err_0.retryable
                && r->Err_0.arguments@.len() == 0,
        parent_task_id is Some && ids::parsed(parent_task_id->Some_0@) is None ==>
            r is Err
                && r->Err_0.code is InvalidInput
                && !r->Err_0.retryable
                && r->Err_0.arguments@.len() == 0,
{
}

/// A task that is updated is the one named, with the title, the note, the priority, the
/// times and the estimate given; and what the client made of it is shown.
pub proof fn law_updated_task_is_the_one_asked_for<
    F: FnOnce(UpdateTaskCommand) -> Result<Task, ClientFailure>,
    M: FnOnce(String) -> Option<TaskDue>,
    N: FnOnce(i64, String) -> Option<TaskDue>,
>(
    client: Result<F, ClientFailure>,
    date: M,
    date_time: N,
    task_id: String,
    title: String,
    note: String,
    priority: i32,
    due: Option<TaskDueInput>,
    scheduled_at: Option<i64>,
    estimated_minutes: Option<i32>,
    r: Result<TaskDto, BridgeErrorDto>,
)
    requires
        call_ensures(tasks::update_task::<F, M, N>, (client, date, date_time, task_id, title, note, priority, due, scheduled_at, estimated_minutes,), r),
    ensures
        r is Ok ==>
            client is Ok
                && exists|command: UpdateTaskCommand, reply: Result<Task, ClientFailure>| #[trigger] client->Ok_0.ensures((command,), reply)
                && reply is Ok
                && r->Ok_0.shows(reply->Ok_0)
                && ids::parsed(task_id@) == Some(command.task_id)
                && command.title == title
                && command.note == note
                && command.priority == priority
                && command.scheduled_at == scheduled_at
                && command.estimated_minutes == estimated_minutes
                && (due is None ==> command.due is None)
                && (due is Some ==> command.due is Some),
        ids::parsed(task_id@) is None ==>
            r is Err
                && r->Err_0.code is InvalidInput
                && !r->Err_0.retryable
                && r->Err_0.arguments@.len() == 0,
{
}

/// A task that is reordered goes behind the one named before it and in front of the one
/// named after it.
pub proof fn law_reordered_task_goes_between_its_neighbours<
    F: FnOnce(ReorderTaskCommand) -> Result<Task, ClientFailure>,
>(
    client: Result<F, ClientFailure>,
    task_id: String,
    previous_task_id: Option<String>,
    next_task_id: Option<String>,
    r: Result<TaskDto, BridgeErrorDto>,
)
    requires
        call_ensures(tasks::reorder_task::<F>, (client, task_id, previous_task_id, next_task_id,), r),
    ensures
        r is Ok ==>
            client is Ok
                && exists|command: ReorderTaskCommand, reply: Result<Task, ClientFailure>| #[trigger] client->Ok_0.ensures((command,), reply)
                && reply is Ok
                && r->Ok_0.shows(reply->Ok_0)
                && ids::parsed(task_id@) == Some(command.task_id)
                && (previous_task_id is None <==> command.previous_task_id is None)
                && (previous_task_id is Some ==> ids::parsed(previous_task_id->Some_0@) == command.previous_task_id)
                && (next_task_id is None <==> command.next_task_id is None)
                && (next_task_id is Some ==> ids::parsed(next_task_id->Some_0@) == command.next_task_id),
        ids::parsed(task_id@) is None ==>
            r is Err
                && r->Err_0.code is InvalidInput
                && !r->Err_0.retryable
                && r->Err_0.arguments@.len() == 0,
        previous_task_id is Some && ids::parsed(previous_task_id->Some_0@) is None ==>
            r is Err
                && r->Err_0.code is InvalidInput
                && !r->Err_0.retryable
                && r->Err_0.arguments@.len() == 0,
        next_task_id is Some && ids::parsed(next_task_id->Some_0@) is None ==>
            r is Err
                && r->Err_0.code is InvalidInput
                && !r->Err_0.retryable
                && r->Err_0.arguments@.len() == 0,
{
}

/// A task gets the status that the word names, with the reason given.
pub proof fn law_task_gets_the_status_named<
    F: FnOnce(SetTaskStatusCommand) -> Result<Task, ClientFailure>,
>(
    client: Result<F, ClientFailure>,
    task_id: String,
    status: String,
    closed_reason: Option<String>,
    r: Result<TaskDto, BridgeErrorDto>,
)
    requires
        call_ensures(tasks::set_task_status::<F>, (client, task_id, status, closed_reason,), r),
    ensures
        r is Ok ==>
            client is Ok
                && exists|command: SetTaskStatusCommand, reply: Result<Task, ClientFailure>| #[trigger] client->Ok_0.ensures((command,), reply)
                && reply is Ok
                && r->Ok_0.shows(reply->Ok_0)
                && ids::parsed(task_id@) == Some(command.task_id)
                && status@ == command.status.word()
                && command.closed_reason == closed_reason,
        ids::parsed(task_id@) is None ==>
            r is Err
                && r->Err_0.code is InvalidInput
                && !r->Err_0.retryable
                && r->Err_0.arguments@.len() == 0,
{
}

/// A template is made of the task named, under the name and for the list given.
pub proof fn law_template_is_made_of_the_task_named<
    F: FnOnce(SaveTemplateCommand) -> Result<TaskTemplate, ClientFailure>,
>(
    client: Result<F, ClientFailure>,
    task_id: String,
    name: String,
    default_list_id: Option<String>,
    r: Result<TemplateDto, BridgeErrorDto>,
)
    requires
        call_ensures(series::save_task_as_template::<F>, (client, task_id, name, default_list_id,), r),
    ensures
        r is Ok ==>
            client is Ok
                && exists|command: SaveTemplateCommand, reply: Result<TaskTemplate, ClientFailure>| #[trigger] client->Ok_0.ensures((command,), reply)
                && reply is Ok
                && r->Ok_0.shows(reply->Ok_0)
                && ids::parsed(task_id@) == Some(command.task_id)
                && command.name == name
                && (default_list_id is None <==> command.default_list_id is None)
                && (default_list_id is Some ==> ids::parsed(default_list_id->Some_0@) == command.default_list_id),
        ids::parsed(task_id@) is None ==>
            r is Err
                && r->Err_0.code is InvalidInput
                && !r->Err_0.retryable
                && r->Err_0.arguments@.len() == 0,
        default_list_id is Some && ids::parsed(default_list_id->Some_0@) is None ==>
            r is Err
                && r->Err_0.code is InvalidInput
                && !r->Err_0.retryable
                && r->Err_0.arguments@.len() == 0,
{
}

/// A template that is created has the name, the list and the nodes given.
pub proof fn law_created_template_is_the_one_asked_for<
    F: FnOnce(CreateTemplateCommand) -> Result<TaskTemplate, ClientFailure>,
    V: FnOnce(&TaskBlueprint) -> Result<(), String>,
>(
    client: Result<F, ClientFailure>,
    schema_revision: u32,
    validate: V,
    name: String,
    default_list_id: Option<String>,
    nodes: Vec<TaskBlueprintNodeDto>,
    r: Result<TemplateDto, BridgeErrorDto>,
)
    requires
        call_ensures(series::create_template::<F, V>, (client, schema_revision, validate, name, default_list_id, nodes,), r),
    ensures
        r is Ok ==>
            client is Ok
                && exists|command: CreateTemplateCommand, reply: Result<TaskTemplate, ClientFailure>| #[trigger] client->Ok_0.ensures((command,), reply)
                && reply is Ok
                && r->Ok_0.shows(reply->Ok_0)
                && command.name == name
                && (default_list_id is None <==> command.default_list_id is None)
                && (default_list_id is Some ==> ids::parsed(default_list_id->Some_0@) == command.default_list_id)
                && command.blueprint.schema_revision == schema_revision
                && conversions::shows_nodes(nodes@, command.blueprint.nodes@),
        default_list_id is Some && ids::parsed(default_list_id->Some_0@) is None ==>
            r is Err
                && r->Err_0.code is InvalidInput
                && !r->Err_0.retryable
                && r->Err_0.arguments@.len() == 0,
{
}

/// A template that is updated is the one named, with the name, the list and the nodes
/// given.
pub proof fn law_updated_template_is_the_one_asked_for<
    F: FnOnce(UpdateTemplateCommand) -> Result<TaskTemplate, ClientFailure>,
    V: FnOnce(&TaskBlueprint) -> Result<(), String>,
>(
    client: Result<F, ClientFailure>,
    schema_revision: u32,
    validate: V,
    template_id: String,
    name: String,
    default_list_id: Option<String>,
    nodes: Vec<TaskBlueprintNodeDto>,
    r: Result<TemplateDto, BridgeErrorDto>,
)
    requires
        call_ensures(series::update_template::<F, V>, (client, schema_revision, validate, template_id, name, default_list_id, nodes,), r),
    ensures
        r is Ok ==>
            client is Ok
                && exists|command: UpdateTemplateCommand, reply: Result<TaskTemplate, ClientFailure>| #[trigger] client->Ok_0.ensures((command,), reply)
                && reply is Ok
                && r->Ok_0.shows(reply->Ok_0)
                && ids::parsed(template_id@) == Some(command.template_id)
                && command.name == name
                && (default_list_id is None <==> command.default_list_id is None)
                && (default_list_id is Some ==> ids::parsed(default_list_id->Some_0@) == command.default_list_id)
                && command.blueprint is Some
                && command.blueprint->Some_0.schema_revision == schema_revision
                && conversions::shows_nodes(nodes@, command.blueprint->Some_0.nodes@),
        ids::parsed(template_id@) is None ==>
            r is Err
                && r->Err_0.code is InvalidInput
                && !r->Err_0.retryable
                && r->Err_0.arguments@.len() == 0,
        default_list_id is Some && ids::parsed(default_list_id->Some_0@) is None ==>
            r is Err
                && r->Err_0.code is InvalidInput
                && !r->Err_0.retryable
                && r->Err_0.arguments@.len() == 0,
{
}

/// The blueprint of the template named is replaced by that of the task named.
pub proof fn law_blueprint_is_taken_from_the_task_named<
    F: FnOnce(ReplaceTaskBlueprintCommand) -> Result<TaskTemplate, ClientFailure>,
>(
    client: Result<F, ClientFailure>,
    template_id: String,
    task_id: String,
    r: Result<TemplateDto, BridgeErrorDto>,
)
    requires
        call_ensures(series::replace_template_blueprint::<F>, (client, template_id, task_id,), r),
    ensures
        r is Ok ==>
            client is Ok
                && exists|command: ReplaceTaskBlueprintCommand, reply: Result<TaskTemplate, ClientFailure>| #[trigger] client->Ok_0.ensures((command,), reply)
                && reply is Ok
                && r->Ok_0.shows(reply->Ok_0)
                && ids::parsed(template_id@) == Some(command.template_id)
                && ids::parsed(task_id@) == Some(command.task_id),
        ids::parsed(template_id@) is None ==>
            r is Err
                && r->Err_0.code is InvalidInput
                && !r->Err_0.retryable
                && r->Err_0.arguments@.len() == 0,
        ids::parsed(task_id@) is None ==>
            r is Err
                && r->Err_0.code is InvalidInput
                && !r->Err_0.retryable
                && r->Err_0.arguments@.len() == 0,
{
}

/// A series is made of the task named, for the list, by the rule, from the time and in
/// the time zone given.
pub proof fn law_series_is_made_of_the_task_named<
    F: FnOnce(CreateTaskSeriesFromTaskCommand) -> Result<TaskSeries, ClientFailure>,
>(
    client: Result<F, ClientFailure>,
    task_id: String,
    target_list_id: Option<String>,
    rrule: String,
    starts_at: i64,
    time_zone: String,
    r: Result<TaskSeriesDto, BridgeErrorDto>,
)
    requires
        call_ensures(series::create_task_series_from_task::<F>, (client, task_id, target_list_id, rrule, starts_at, time_zone,), r),
    ensures
        r is Ok ==>
            client is Ok
                && exists|command: CreateTaskSeriesFromTaskCommand, reply: Result<TaskSeries, ClientFailure>| #[trigger] client->Ok_0.ensures((command,), reply)
                && reply is Ok
                && r->Ok_0.shows(reply->Ok_0)
                && ids::parsed(task_id@) == Some(command.task_id)
                && (target_list_id is None <==> command.target_list_id is None)
                && (target_list_id is Some ==> ids::parsed(target_list_id->Some_0@) == command.target_list_id)
                && command.rrule == rrule
                && command.starts_at == starts_at
                && command.time_zone == time_zone,
        ids::parsed(task_id@) is None ==>
            r is Err
                && r->Err_0.code is InvalidInput
                && !r->Err_0.retryable
                && r->Err_0.arguments@.len() == 0,
        target_list_id is Some && ids::parsed(target_list_id->Some_0@) is None ==>
            r is Err
                && r->Err_0.code is InvalidInput
                && !r->Err_0.retryable
                && r->Err_0.arguments@.len() == 0,
{
}

/// A series is made of the template named, by the rule, from the time and in the time
/// zone given.
pub proof fn law_series_is_made_of_the_template_named<
    F: FnOnce(CreateTaskSeriesFromTemplateCommand) -> Result<TaskSeries, ClientFailure>,
>(
    client: Result<F, ClientFailure>,
    template_id: String,
    rrule: String,
    starts_at: i64,
    time_zone: String,
    r: Result<TaskSeriesDto, BridgeErrorDto>,
)
    requires
        call_ensures(series::create_task_series_from_template::<F>, (client, template_id, rrule, starts_at, time_zone,), r),
    ensures
        r is Ok ==>
            client is Ok
                && exists|command: CreateTaskSeriesFromTemplateCommand, reply: Result<TaskSeries, ClientFailure>| #[trigger] client->Ok_0.ensures((command,), reply)
                && reply is Ok
                && r->Ok_0.shows(reply->Ok_0)
                && ids::parsed(template_id@) == Some(command.template_id)
                && command.rrule == rrule
                && command.starts_at == starts_at
                && command.time_zone == time_zone,
        ids::parsed(template_id@) is None ==>
            r is Err
                && r->Err_0.code is InvalidInput
                && !r->Err_0.retryable
                && r->Err_0.arguments@.len() == 0,
{
}

/// A series that is updated is the one named, with the list, the nodes, the rule, the
/// time and the time zone given, and enabled as asked.
pub proof fn law_updated_series_is_the_one_asked_for<
    F: FnOnce(UpdateTaskSeriesCommand) -> Result<TaskSeries, ClientFailure>,
    V: FnOnce(&TaskBlueprint) -> Result<(), String>,
>(
    client: Result<F, ClientFailure>,
    schema_revision: u32,
    validate: V,
    series_id: String,
    target_list_id: Option<String>,
    nodes: Vec<TaskBlueprintNodeDto>,
    rrule: String,
    starts_at: i64,
    time_zone: String,
    enabled: bool,
    r: Result<TaskSeriesDto, BridgeErrorDto>,
)
    requires
        call_ensures(series::update_task_series::<F, V>, (client, schema_revision, validate, series_id, target_list_id, nodes, rrule, starts_at, time_zone, enabled,), r),
    ensures
        r is Ok ==>
            client is Ok
                && exists|command: UpdateTaskSeriesCommand, reply: Result<TaskSeries, ClientFailure>| #[trigger] client->Ok_0.ensures((command,), reply)
                && reply is Ok
                && r->Ok_0.shows(reply->Ok_0)
                && ids::parsed(series_id@) == Some(command.series_id)
                && (target_list_id is None <==> command.target_list_id is None)
                && (target_list_id is Some ==> ids::parsed(target_list_id->Some_0@) == command.target_list_id)
                && command.blueprint.schema_revision == schema_revision
                && conversions::shows_nodes(nodes@, command.blueprint.nodes@)
                && command.rrule == rrule
                && command.starts_at == starts_at
                && command.time_zone == time_zone
                && command.enabled == enabled,
        ids::parsed(series_id@) is None ==>
            r is Err
                && r->Err_0.code is InvalidInput
                && !r->Err_0.retryable
                && r->Err_0.arguments@.len() == 0,
        target_list_id is Some && ids::parsed(target_list_id->Some_0@) is None ==>
            r is Err
                && r->Err_0.code is InvalidInput
                && !r->Err_0.retryable
                && r->Err_0.arguments@.len() == 0,
{
}

/// The tasks that are shown are those of the list named, each as the client has it.
pub proof fn law_tasks_of_the_list_are_shown<
    F: FnOnce(Uuid) -> Result<Vec<Task>, ClientFailure>,
>(
    client: Result<F, ClientFailure>,
    list_id: String,
    r: Result<Vec<TaskDto>, BridgeErrorDto>,
)
    requires
        call_ensures(tasks::get_tasks::<F>, (client, list_id,), r),
    ensures
        r is Ok ==>
            client is Ok
                && ids::parsed(list_id@) is Some
                && exists|reply: Result<Vec<Task>, ClientFailure>| #[trigger] client->Ok_0.ensures((ids::parsed(list_id@)->Some_0,), reply)
                && reply is Ok
                && r->Ok_0@.len() == reply->Ok_0@.len()
                && (forall|i: int| 0 <= i < r->Ok_0@.len() ==> (#[trigger] r->Ok_0@[i]).shows(reply->Ok_0@[i])),
        client is Ok && ids::parsed(list_id@) is None ==>
            r is Err
                && r->Err_0.code is InvalidInput
                && !r->Err_0.retryable
                && r->Err_0.arguments@.len() == 0,
        client is Err && ids::parsed(list_id@) is Some ==>
            r is Err
                && r->Err_0.retryable == client->Err_0.retryable
                && r->Err_0.arguments@.len() == 0,
{
}

/// The tasks that are shown are those that the client finds for the words given.
pub proof fn law_found_tasks_are_shown<F: FnOnce(String) -> Result<Vec<Task>, ClientFailure>>(
    client: Result<F, ClientFailure>,
    query: String,
    r: Result<Vec<TaskDto>, BridgeErrorDto>,
)
    requires
        call_ensures(tasks::search_tasks::<F>, (client, query,), r),
    ensures
        r is Ok ==>
            client is Ok
                && exists|reply: Result<Vec<Task>, ClientFailure>| #[trigger] client->Ok_0.ensures((query,), reply)
                && reply is Ok
                && r->Ok_0@.len() == reply->Ok_0@.len()
                && (forall|i: int| 0 <= i < r->Ok_0@.len() ==> (#[trigger] r->Ok_0@[i]).shows(reply->Ok_0@[i])),
        client is Err ==>
            r is Err
                && r->Err_0.retryable == client->Err_0.retryable
                && r->Err_0.arguments@.len() == 0,
{
}

/// What is undone is the operation named, and the task is shown as it then is.
pub proof fn law_undone_task_is_shown<F: FnOnce(Uuid) -> Result<Task, ClientFailure>>(
    client: Result<F, ClientFailure>,
    undo_id: String,
    r: Result<TaskDto, BridgeErrorDto>,
)
    requires
        call_ensures(tasks::undo_task_operation::<F>, (client, undo_id,), r),
    ensures
        r is Ok ==>
            client is Ok
                && ids::parsed(undo_id@) is Some
                && exists|reply: Result<Task, ClientFailure>| #[trigger] client->Ok_0.ensures((ids::parsed(undo_id@)->Some_0,), reply)
                && reply is Ok
                && r->Ok_0.shows(reply->Ok_0),
        client is Ok && ids::parsed(undo_id@) is None ==>
            r is Err
                && r->Err_0.code is InvalidInput
                && !r->Err_0.retryable
                && r->Err_0.arguments@.len() == 0,
        client is Err && ids::parsed(undo_id@) is Some ==>
            r is Err
                && r->Err_0.retryable == client->Err_0.retryable
                && r->Err_0.arguments@.len() == 0,
{
}

/// The task that is deleted is the one named.
pub proof fn law_task_named_is_deleted<F: FnOnce(Uuid) -> Result<(), ClientFailure>>(
    client: Result<F, ClientFailure>,
    task_id: String,
    r: Result<(), BridgeErrorDto>,
)
    requires
        call_ensures(tasks::delete_task::<F>, (client, task_id,), r),
    ensures
        r is Ok ==>
            client is Ok
                && ids::parsed(task_id@) is Some
                && exists|reply: Result<(), ClientFailure>| #[trigger] client->Ok_0.ensures((ids::parsed(task_id@)->Some_0,), reply)
                && reply is Ok
                && reply is Ok,
        client is Ok && ids::parsed(task_id@) is None ==>
            r is Err
                && r->Err_0.code is InvalidInput
                && !r->Err_0.retryable
                && r->Err_0.arguments@.len() == 0,
        client is Err && ids::parsed(task_id@) is Some ==>
            r is Err
                && r->Err_0.retryable == client->Err_0.retryable
                && r->Err_0.arguments@.len() == 0,
{
}

/// The home tasks that are shown are those between the two days given.
pub proof fn law_home_tasks_are_shown<
    F: FnOnce(i64, i64) -> Result<Vec<HomeTaskView>, ClientFailure>,
>(
    client: Result<F, ClientFailure>,
    today_start_ms: i64,
    tomorrow_start_ms: i64,
    r: Result<Vec<HomeTaskDto>, BridgeErrorDto>,
)
    requires
        call_ensures(tasks::get_home_tasks::<F>, (client, today_start_ms, tomorrow_start_ms,), r),
    ensures
        r is Ok ==>
            client is Ok
                && exists|reply: Result<Vec<HomeTaskView>, ClientFailure>| #[trigger] client->Ok_0.ensures((today_start_ms, tomorrow_start_ms), reply)
                && reply is Ok
                && r->Ok_0@.len() == reply->Ok_0@.len()
                && (forall|i: int| 0 <= i < r->Ok_0@.len() ==> (#[trigger] r->Ok_0@[i]).shows(reply->Ok_0@[i])),
        client is Err ==>
            r is Err
                && r->Err_0.retryable == client->Err_0.retryable
                && r->Err_0.arguments@.len() == 0,
{
}

/// A list is created under the name given and shown as it is.
pub proof fn law_created_list_is_shown<F: FnOnce(String) -> Result<List, ClientFailure>>(
    client: Result<F, ClientFailure>,
    name: String,
    sort_order: String,
    r: Result<ListDto, BridgeErrorDto>,
)
    requires
        call_ensures(lists::create_list::<F>, (client, name, sort_order,), r),
    ensures
        r is Ok ==>
            client is Ok
                && exists|reply: Result<List, ClientFailure>| #[trigger] client->Ok_0.ensures((name,), reply)
                && reply is Ok
                && r->Ok_0.shows(reply->Ok_0),
        client is Err ==>
            r is Err
                && r->Err_0.retryable == client->Err_0.retryable
                && r->Err_0.arguments@.len() == 0,
{
}

/// The list that is renamed is the one named, under the name given.
pub proof fn law_renamed_list_is_shown<
    F: FnOnce(Uuid, String) -> Result<List, ClientFailure>,
>(
    client: Result<F, ClientFailure>,
    list_id: String,
    name: String,
    r: Result<ListDto, BridgeErrorDto>,
)
    requires
        call_ensures(lists::rename_list::<F>, (client, list_id, name,), r),
    ensures
        r is Ok ==>
            client is Ok
                && ids::parsed(list_id@) is Some
                && exists|reply: Result<List, ClientFailure>| #[trigger] client->Ok_0.ensures((ids::parsed(list_id@)->Some_0, name), reply)
                && reply is Ok
                && r->Ok_0.shows(reply->Ok_0),
        client is Ok && ids::parsed(list_id@) is None ==>
            r is Err
                && r->Err_0.code is InvalidInput
                && !r->Err_0.retryable
                && r->Err_0.arguments@.len() == 0,
        client is Err && ids::parsed(list_id@) is Some ==>
            r is Err
                && r->Err_0.retryable == client->Err_0.retryable
                && r->Err_0.arguments@.len() == 0,
{
}

/// The list that is archived is the one named.
pub proof fn law_archived_list_is_shown<F: FnOnce(Uuid) -> Result<List, ClientFailure>>(
    client: Result<F, ClientFailure>,
    list_id: String,
    r: Result<ListDto, BridgeErrorDto>,
)
    requires
        call_ensures(lists::archive_list::<F>, (client, list_id,), r),
    ensures
        r is Ok ==>
            client is Ok
                && ids::parsed(list_id@) is Some
                && exists|reply: Result<List, ClientFailure>| #[trigger] client->Ok_0.ensures((ids::parsed(list_id@)->Some_0,), reply)
                && reply is Ok
                && r->Ok_0.shows(reply->Ok_0),
        client is Ok && ids::parsed(list_id@) is None ==>
            r is Err
                && r->Err_0.code is InvalidInput
                && !r->Err_0.retryable
                && r->Err_0.arguments@.len() == 0,
        client is Err && ids::parsed(list_id@) is Some ==>
            r is Err
                && r->Err_0.retryable == client->Err_0.retryable
                && r->Err_0.arguments@.len() == 0,
{
}

/// The list that is taken back from the archive is the one named.
pub proof fn law_unarchived_list_is_shown<F: FnOnce(Uuid) -> Result<List, ClientFailure>>(
    client: Result<F, ClientFailure>,
    list_id: String,
    r: Result<ListDto, BridgeErrorDto>,
)
    requires
        call_ensures(lists::unarchive_list::<F>, (client, list_id,), r),
    ensures
        r is Ok ==>
            client is Ok
                && ids::parsed(list_id@) is Some
                && exists|reply: Result<List, ClientFailure>| #[trigger] client->Ok_0.ensures((ids::parsed(list_id@)->Some_0,), reply)
                && reply is Ok
                && r->Ok_0.shows(reply->Ok_0),
        client is Ok && ids::parsed(list_id@) is None ==>
            r is Err
                && r->Err_0.code is InvalidInput
                && !r->Err_0.retryable
                && r->Err_0.arguments@.len() == 0,
        client is Err && ids::parsed(list_id@) is Some ==>
            r is Err
                && r->Err_0.retryable == client->Err_0.retryable
                && r->Err_0.arguments@.len() == 0,
{
}

/// The list that is deleted is the one named.
pub proof fn law_list_named_is_deleted<F: FnOnce(Uuid) -> Result<(), ClientFailure>>(
    client: Result<F, ClientFailure>,
    list_id: String,
    r: Result<(), BridgeErrorDto>,
)
    requires
        call_ensures(lists::delete_list::<F>, (client, list_id,), r),
    ensures
        r is Ok ==>
            client is Ok
                && ids::parsed(list_id@) is Some
                && exists|reply: Result<(), ClientFailure>| #[trigger] client->Ok_0.ensures((ids::parsed(list_id@)->Some_0,), reply)
                && reply is Ok
                && reply is Ok,
        client is Ok && ids::parsed(list_id@) is None ==>
            r is Err
                && r->Err_0.code is InvalidInput
                && !r->Err_0.retryable
                && r->Err_0.arguments@.len() == 0,
        client is Err && ids::parsed(list_id@) is Some ==>
            r is Err
                && r->Err_0.retryable == client->Err_0.retryable
                && r->Err_0.arguments@.len() == 0,
{
}

/// The lists that are shown are those of the client, each as the client has it.
pub proof fn law_lists_are_shown<F: FnOnce() -> Result<Vec<List>, ClientFailure>>(
    client: Result<F, ClientFailure>,
    r: Result<Vec<ListDto>, BridgeErrorDto>,
)
    requires
        call_ensures(lists::get_lists::<F>, (client,), r),
    ensures
        r is Ok ==>
            client is Ok
                && exists|reply: Result<Vec<List>, ClientFailure>| #[trigger] client->Ok_0.ensures((), reply)
                && reply is Ok
                && r->Ok_0@.len() == reply->Ok_0@.len()
                && (forall|i: int| 0 <= i < r->Ok_0@.len() ==> (#[trigger] r->Ok_0@[i]).shows(reply->Ok_0@[i])),
        client is Err ==>
            r is Err
                && r->Err_0.retryable == client->Err_0.retryable
                && r->Err_0.arguments@.len() == 0,
{
}

/// The archived lists that are shown are those of the client, each as the client has
/// it.
pub proof fn law_archived_lists_are_shown<F: FnOnce() -> Result<Vec<List>, ClientFailure>>(
    client: Result<F, ClientFailure>,
    r: Result<Vec<ListDto>, BridgeErrorDto>,
)
    requires
        call_ensures(lists::get_archived_lists::<F>, (client,), r),
    ensures
        r is Ok ==>
            client is Ok
                && exists|reply: Result<Vec<List>, ClientFailure>| #[trigger] client->Ok_0.ensures((), reply)
                && reply is Ok
                && r->Ok_0@.len() == reply->Ok_0@.len()
                && (forall|i: int| 0 <= i < r->Ok_0@.len() ==> (#[trigger] r->Ok_0@[i]).shows(reply->Ok_0@[i])),
        client is Err ==>
            r is Err
                && r->Err_0.retryable == client->Err_0.retryable
                && r->Err_0.arguments@.len() == 0,
{
}

/// A reminder is created for the task named and the time given.
pub proof fn law_created_reminder_is_shown<
    F: FnOnce(Uuid, i64) -> Result<ReminderView, ClientFailure>,
>(
    client: Result<F, ClientFailure>,
    task_id: String,
    remind_at: i64,
    r: Result<ReminderDto, BridgeErrorDto>,
)
    requires
        call_ensures(reminders::create_task_reminder::<F>, (client, task_id, remind_at,), r),
    ensures
        r is Ok ==>
            client is Ok
                && ids::parsed(task_id@) is Some
                && exists|reply: Result<ReminderView, ClientFailure>| #[trigger] client->Ok_0.ensures((ids::parsed(task_id@)->Some_0, remind_at), reply)
                && reply is Ok
                && r->Ok_0.shows(reply->Ok_0),
        client is Ok && ids::parsed(task_id@) is None ==>
            r is Err
                && r->Err_0.code is InvalidInput
                && !r->Err_0.retryable
                && r->Err_0.arguments@.len() == 0,
        client is Err && ids::parsed(task_id@) is Some ==>
            r is Err
                && r->Err_0.retryable == client->Err_0.retryable
                && r->Err_0.arguments@.len() == 0,
{
}

/// The reminder that is updated is the one named, for the time given.
pub proof fn law_updated_reminder_is_shown<
    F: FnOnce(Uuid, i64) -> Result<ReminderView, ClientFailure>,
>(
    client: Result<F, ClientFailure>,
    reminder_id: String,
    remind_at: i64,
    r: Result<ReminderDto, BridgeErrorDto>,
)
    requires
        call_ensures(reminders::update_reminder::<F>, (client, reminder_id, remind_at,), r),
    ensures
        r is Ok ==>
            client is Ok
                && ids::parsed(reminder_id@) is Some
                && exists|reply: Result<ReminderView, ClientFailure>| #[trigger] client->Ok_0.ensures((ids::parsed(reminder_id@)->Some_0, remind_at), reply)
                && reply is Ok
                && r->Ok_0.shows(reply->Ok_0),
        client is Ok && ids::parsed(reminder_id@) is None ==>
            r is Err
                && r->Err_0.code is InvalidInput
                && !r->Err_0.retryable
                && r->Err_0.arguments@.len() == 0,
        client is Err && ids::parsed(reminder_id@) is Some ==>
            r is Err
                && r->Err_0.retryable == client->Err_0.retryable
                && r->Err_0.arguments@.len() == 0,
{
}

/// The reminder that is snoozed is the one named, until the time given.
pub proof fn law_snoozed_reminder_is_shown<
    F: FnOnce(Uuid, i64) -> Result<ReminderView, ClientFailure>,
>(
    client: Result<F, ClientFailure>,
    reminder_id: String,
    snoozed_until: i64,
    r: Result<ReminderDto, BridgeErrorDto>,
)
    requires
        call_ensures(reminders::snooze_reminder::<F>, (client, reminder_id, snoozed_until,), r),
    ensures
        r is Ok ==>
            client is Ok
                && ids::parsed(reminder_id@) is Some
                && exists|reply: Result<ReminderView, ClientFailure>| #[trigger] client->Ok_0.ensures((ids::parsed(reminder_id@)->Some_0, snoozed_until), reply)
                && reply is Ok
                && r->Ok_0.shows(reply->Ok_0),
        client is Ok && ids::parsed(reminder_id@) is None ==>
            r is Err
                && r->Err_0.code is InvalidInput
                && !r->Err_0.retryable
                && r->Err_0.arguments@.len() == 0,
        client is Err && ids::parsed(reminder_id@) is Some ==>
            r is Err
                && r->Err_0.retryable == client->Err_0.retryable
                && r->Err_0.arguments@.len() == 0,
{
}

/// The reminder that is deleted is the one named.
pub proof fn law_deleted_reminder_is_shown<
    F: FnOnce(Uuid) -> Result<ReminderView, ClientFailure>,
>(
    client: Result<F, ClientFailure>,
    reminder_id: String,
    r: Result<ReminderDto, BridgeErrorDto>,
)
    requires
        call_ensures(reminders::delete_reminder::<F>, (client, reminder_id,), r),
    ensures
        r is Ok ==>
            client is Ok
                && ids::parsed(reminder_id@) is Some
                && exists|reply: Result<ReminderView, ClientFailure>| #[trigger] client->Ok_0.ensures((ids::parsed(reminder_id@)->Some_0,), reply)
                && reply is Ok
                && r->Ok_0.shows(reply->Ok_0),
        client is Ok && ids::parsed(reminder_id@) is None ==>
            r is Err
                && r->Err_0.code is InvalidInput
                && !r->Err_0.retryable
                && r->Err_0.arguments@.len() == 0,
        client is Err && ids::parsed(reminder_id@) is Some ==>
            r is Err
                && r->Err_0.retryable == client->Err_0.retryable
                && r->Err_0.arguments@.len() == 0,
{
}

/// The reminders that are shown are those of the task named.
pub proof fn law_reminders_of_the_task_are_shown<
    F: FnOnce(Uuid) -> Result<Vec<ReminderView>, ClientFailure>,
>(
    client: Result<F, ClientFailure>,
    task_id: String,
    r: Result<Vec<ReminderDto>, BridgeErrorDto>,
)
    requires
        call_ensures(reminders::get_task_reminders::<F>, (client, task_id,), r),
    ensures
        r is Ok ==>
            client is Ok
                && ids::parsed(task_id@) is Some
                && exists|reply: Result<Vec<ReminderView>, ClientFailure>| #[trigger] client->Ok_0.ensures((ids::parsed(task_id@)->Some_0,), reply)
                && reply is Ok
                && r->Ok_0@.len() == reply->Ok_0@.len()
                && (forall|i: int| 0 <= i < r->Ok_0@.len() ==> (#[trigger] r->Ok_0@[i]).shows(reply->Ok_0@[i])),
        client is Ok && ids::parsed(task_id@) is None ==>
            r is Err
                && r->Err_0.code is InvalidInput
                && !r->Err_0.retryable
                && r->Err_0.arguments@.len() == 0,
        client is Err && ids::parsed(task_id@) is Some ==>
            r is Err
                && r->Err_0.retryable == client->Err_0.retryable
                && r->Err_0.arguments@.len() == 0,
{
}

/// The reminders that are shown are those of the task named and of the tasks below it,
/// as the client has them.
pub proof fn law_reminders_below_the_task_are_shown<
    F: FnOnce(Uuid) -> Result<Vec<ReminderView>, ClientFailure>,
>(
    client: Result<F, ClientFailure>,
    task_id: String,
    r: Result<Vec<ReminderDto>, BridgeErrorDto>,
)
    requires
        call_ensures(reminders::get_task_subtree_reminders::<F>, (client, task_id,), r),
    ensures
        r is Ok ==>
            client is Ok
                && ids::parsed(task_id@) is Some
                && exists|reply: Result<Vec<ReminderView>, ClientFailure>| #[trigger] client->Ok_0.ensures((ids::parsed(task_id@)->Some_0,), reply)
                && reply is Ok
                && r->Ok_0@.len() == reply->Ok_0@.len()
                && (forall|i: int| 0 <= i < r->Ok_0@.len() ==> (#[trigger] r->Ok_0@[i]).shows(reply->Ok_0@[i])),
        client is Ok && ids::parsed(task_id@) is None ==>
            r is Err
                && r->Err_0.code is InvalidInput
                && !r->Err_0.retryable
                && r->Err_0.arguments@.len() == 0,
        client is Err && ids::parsed(task_id@) is Some ==>
            r is Err
                && r->Err_0.retryable == client->Err_0.retryable
                && r->Err_0.arguments@.len() == 0,
{
}

/// The reminders that are shown are those of the list named.
pub proof fn law_reminders_of_the_list_are_shown<
    F: FnOnce(Uuid) -> Result<Vec<ReminderView>, ClientFailure>,
>(
    client: Result<F, ClientFailure>,
    list_id: String,
    r: Result<Vec<ReminderDto>, BridgeErrorDto>,
)
    requires
        call_ensures(reminders::get_list_reminders::<F>, (client, list_id,), r),
    ensures
        r is Ok ==>
            client is Ok
                && ids::parsed(list_id@) is Some
                && exists|reply: Result<Vec<ReminderView>, ClientFailure>| #[trigger] client->Ok_0.ensures((ids::parsed(list_id@)->Some_0,), reply)
                && reply is Ok
                && r->Ok_0@.len() == reply->Ok_0@.len()
                && (forall|i: int| 0 <= i < r->Ok_0@.len() ==> (#[trigger] r->Ok_0@[i]).shows(reply->Ok_0@[i])),
        client is Ok && ids::parsed(list_id@) is None ==>
            r is Err
                && r->Err_0.code is InvalidInput
                && !r->Err_0.retryable
                && r->Err_0.arguments@.len() == 0,
        client is Err && ids::parsed(list_id@) is Some ==>
            r is Err
                && r->Err_0.retryable == client->Err_0.retryable
                && r->Err_0.arguments@.len() == 0,
{
}

/// The reminders that are cleared are those of the task named.
pub proof fn law_cleared_reminders_are_shown<
    F: FnOnce(Uuid) -> Result<Vec<ReminderView>, ClientFailure>,
>(
    client: Result<F, ClientFailure>,
    task_id: String,
    r: Result<Vec<ReminderDto>, BridgeErrorDto>,
)
    requires
        call_ensures(reminders::clear_task_reminders::<F>, (client, task_id,), r),
    ensures
        r is Ok ==>
            client is Ok
                && ids::parsed(task_id@) is Some
                && exists|reply: Result<Vec<ReminderView>, ClientFailure>| #[trigger] client->Ok_0.ensures((ids::parsed(task_id@)->Some_0,), reply)
                && reply is Ok
                && r->Ok_0@.len() == reply->Ok_0@.len()
                && (forall|i: int| 0 <= i < r->Ok_0@.len() ==> (#[trigger] r->Ok_0@[i]).shows(reply->Ok_0@[i])),
        client is Ok && ids::parsed(task_id@) is None ==>
            r is Err
                && r->Err_0.code is InvalidInput
                && !r->Err_0.retryable
                && r->Err_0.arguments@.len() == 0,
        client is Err && ids::parsed(task_id@) is Some ==>
            r is Err
                && r->Err_0.retryable == client->Err_0.retryable
                && r->Err_0.arguments@.len() == 0,
{
}

/// The command that is acknowledged is the one of the reminder named, at the revision
/// given.
pub proof fn law_acknowledged_command<F: FnOnce(Uuid, i64) -> Result<bool, ClientFailure>>(
    client: Result<F, ClientFailure>,
    reminder_id: String,
    revision: i64,
    r: Result<bool, BridgeErrorDto>,
)
    requires
        call_ensures(reminders::ack_reminder_notification_command::<F>, (client, reminder_id, revision,), r),
    ensures
        r is Ok ==>
            client is Ok
                && ids::parsed(reminder_id@) is Some
                && exists|reply: Result<bool, ClientFailure>| #[trigger] client->Ok_0.ensures((ids::parsed(reminder_id@)->Some_0, revision), reply)
                && reply is Ok
                && r->Ok_0 == reply->Ok_0,
        client is Ok && ids::parsed(reminder_id@) is None ==>
            r is Err
                && r->Err_0.code is InvalidInput
                && !r->Err_0.retryable
                && r->Err_0.arguments@.len() == 0,
        client is Err && ids::parsed(reminder_id@) is Some ==>
            r is Err
                && r->Err_0.retryable == client->Err_0.retryable
                && r->Err_0.arguments@.len() == 0,
{
}

/// The pending reminders that are shown are those at the time given.
pub proof fn law_pending_reminders_are_shown<
    F: FnOnce(i64) -> Result<Vec<ReminderView>, ClientFailure>,
>(
    client: Result<F, ClientFailure>,
    now_ms: i64,
    r: Result<Vec<ReminderDto>, BridgeErrorDto>,
)
    requires
        call_ensures(reminders::list_pending_reminders::<F>, (client, now_ms,), r),
    ensures
        r is Ok ==>
            client is Ok
                && exists|reply: Result<Vec<ReminderView>, ClientFailure>| #[trigger] client->Ok_0.ensures((now_ms,), reply)
                && reply is Ok
                && r->Ok_0@.len() == reply->Ok_0@.len()
                && (forall|i: int| 0 <= i < r->Ok_0@.len() ==> (#[trigger] r->Ok_0@[i]).shows(reply->Ok_0@[i])),
        client is Err ==>
            r is Err
                && r->Err_0.retryable == client->Err_0.retryable
                && r->Err_0.arguments@.len() == 0,
{
}

/// The commands that are prepared are those at the time given.
pub proof fn law_prepared_commands_are_shown<
    F: FnOnce(i64) -> Result<Vec<ReminderNotificationCommandView>, ClientFailure>,
>(
    client: Result<F, ClientFailure>,
    now_ms: i64,
    r: Result<Vec<ReminderNotificationCommandDto>, BridgeErrorDto>,
)
    requires
        call_ensures(reminders::prepare_reminder_notification_reconciliation::<F>, (client, now_ms,), r),
    ensures
        r is Ok ==>
            client is Ok
                && exists|reply: Result<Vec<ReminderNotificationCommandView>, ClientFailure>| #[trigger] client->Ok_0.ensures((now_ms,), reply)
                && reply is Ok
                && r->Ok_0@.len() == reply->Ok_0@.len()
                && (forall|i: int| 0 <= i < r->Ok_0@.len() ==> (#[trigger] r->Ok_0@[i]).shows(reply->Ok_0@[i])),
        client is Err ==>
            r is Err
                && r->Err_0.retryable == client->Err_0.retryable
                && r->Err_0.arguments@.len() == 0,
{
}

/// The commands that are listed are those at the time given, as many as asked for.
pub proof fn law_listed_commands_are_shown<
    F: FnOnce(i64, usize) -> Result<Vec<ReminderNotificationCommandView>, ClientFailure>,
>(
    client: Result<F, ClientFailure>,
    now_ms: i64,
    limit: u32,
    r: Result<Vec<ReminderNotificationCommandDto>, BridgeErrorDto>,
)
    requires
        call_ensures(reminders::list_reminder_notification_commands::<F>, (client, now_ms, limit,), r),
    ensures
        r is Ok ==>
            client is Ok
                && exists|reply: Result<Vec<ReminderNotificationCommandView>, ClientFailure>| #[trigger] client->Ok_0.ensures((now_ms, limit as usize), reply)
                && reply is Ok
                && r->Ok_0@.len() == reply->Ok_0@.len()
                && (forall|i: int| 0 <= i < r->Ok_0@.len() ==> (#[trigger] r->Ok_0@[i]).shows(reply->Ok_0@[i])),
        client is Err ==>
            r is Err
                && r->Err_0.retryable == client->Err_0.retryable
                && r->Err_0.arguments@.len() == 0,
{
}

/// The template that is deleted is the one named.
pub proof fn law_template_named_is_deleted<F: FnOnce(Uuid) -> Result<(), ClientFailure>>(
    client: Result<F, ClientFailure>,
    template_id: String,
    r: Result<(), BridgeErrorDto>,
)
    requires
        call_ensures(series::delete_template::<F>, (client, template_id,), r),
    ensures
        r is Ok ==>
            client is Ok
                && ids::parsed(template_id@) is Some
                && exists|reply: Result<(), ClientFailure>| #[trigger] client->Ok_0.ensures((ids::parsed(template_id@)->Some_0,), reply)
                && reply is Ok
                && reply is Ok,
        client is Ok && ids::parsed(template_id@) is None ==>
            r is Err
                && r->Err_0.code is InvalidInput
                && !r->Err_0.retryable
                && r->Err_0.arguments@.len() == 0,
        client is Err && ids::parsed(template_id@) is Some ==>
            r is Err
                && r->Err_0.retryable == client->Err_0.retryable
                && r->Err_0.arguments@.len() == 0,
{
}

/// The series that is deleted is the one named.
pub proof fn law_series_named_is_deleted<F: FnOnce(Uuid) -> Result<(), ClientFailure>>(
    client: Result<F, ClientFailure>,
    series_id: String,
    r: Result<(), BridgeErrorDto>,
)
    requires
        call_ensures(series::delete_task_series::<F>, (client, series_id,), r),
    ensures
        r is Ok ==>
            client is Ok
                && ids::parsed(series_id@) is Some
                && exists|reply: Result<(), ClientFailure>| #[trigger] client->Ok_0.ensures((ids::parsed(series_id@)->Some_0,), reply)
                && reply is Ok
                && reply is Ok,
        client is Ok && ids::parsed(series_id@) is None ==>
            r is Err
                && r->Err_0.code is InvalidInput
                && !r->Err_0.retryable
                && r->Err_0.arguments@.len() == 0,
        client is Err && ids::parsed(series_id@) is Some ==>
            r is Err
                && r->Err_0.retryable == client->Err_0.retryable
                && r->Err_0.arguments@.len() == 0,
{
}

/// The tasks that are shown are those that the client makes of the template named.
pub proof fn law_tasks_of_the_template_are_shown<
    F: FnOnce(Uuid) -> Result<Vec<Task>, ClientFailure>,
>(
    client: Result<F, ClientFailure>,
    template_id: String,
    r: Result<Vec<TaskDto>, BridgeErrorDto>,
)
    requires
        call_ensures(series::instantiate_template::<F>, (client, template_id,), r),
    ensures
        r is Ok ==>
            client is Ok
                && ids::parsed(template_id@) is Some
                && exists|reply: Result<Vec<Task>, ClientFailure>| #[trigger] client->Ok_0.ensures((ids::parsed(template_id@)->Some_0,), reply)
                && reply is Ok
                && r->Ok_0@.len() == reply->Ok_0@.len()
                && (forall|i: int| 0 <= i < r->Ok_0@.len() ==> (#[trigger] r->Ok_0@[i]).shows(reply->Ok_0@[i])),
        client is Ok && ids::parsed(template_id@) is None ==>
            r is Err
                && r->Err_0.code is InvalidInput
                && !r->Err_0.retryable
                && r->Err_0.arguments@.len() == 0,
        client is Err && ids::parsed(template_id@) is Some ==>
            r is Err
                && r->Err_0.retryable == client->Err_0.retryable
                && r->Err_0.arguments@.len() == 0,
{
}

/// The templates that are shown are those of the client, each as the client has it.
pub proof fn law_templates_are_shown<F: FnOnce() -> Result<Vec<TaskTemplate>, ClientFailure>>(
    client: Result<F, ClientFailure>,
    r: Result<Vec<TemplateDto>, BridgeErrorDto>,
)
    requires
        call_ensures(series::get_templates::<F>, (client,), r),
    ensures
        r is Ok ==>
            client is Ok
                && exists|reply: Result<Vec<TaskTemplate>, ClientFailure>| #[trigger] client->Ok_0.ensures((), reply)
                && reply is Ok
                && r->Ok_0@.len() == reply->Ok_0@.len()
                && (forall|i: int| 0 <= i < r->Ok_0@.len() ==> (#[trigger] r->Ok_0@[i]).shows(reply->Ok_0@[i])),
        client is Err ==>
            r is Err
                && r->Err_0.retryable == client->Err_0.retryable
                && r->Err_0.arguments@.len() == 0,
{
}

/// The series that are shown are those of the client, each as the client has it.
pub proof fn law_all_series_are_shown<F: FnOnce() -> Result<Vec<TaskSeries>, ClientFailure>>(
    client: Result<F, ClientFailure>,
    r: Result<Vec<TaskSeriesDto>, BridgeErrorDto>,
)
    requires
        call_ensures(series::get_task_series::<F>, (client,), r),
    ensures
        r is Ok ==>
            client is Ok
                && exists|reply: Result<Vec<TaskSeries>, ClientFailure>| #[trigger] client->Ok_0.ensures((), reply)
                && reply is Ok
                && r->Ok_0@.len() == reply->Ok_0@.len()
                && (forall|i: int| 0 <= i < r->Ok_0@.len() ==> (#[trigger] r->Ok_0@[i]).shows(reply->Ok_0@[i])),
        client is Err ==>
            r is Err
                && r->Err_0.retryable == client->Err_0.retryable
                && r->Err_0.arguments@.len() == 0,
{
}

/// The streak that is shown is that of the series named, at the time given.
pub proof fn law_streak_is_shown<F: FnOnce(Uuid, i64) -> Result<Streak, ClientFailure>>(
    client: Result<F, ClientFailure>,
    series_id: String,
    at_ms: i64,
    r: Result<StreakDto, BridgeErrorDto>,
)
    requires
        call_ensures(series::get_task_series_streak::<F>, (client, series_id, at_ms,), r),
    ensures
        r is Ok ==>
            client is Ok
                && ids::parsed(series_id@) is Some
                && exists|reply: Result<Streak, ClientFailure>| #[trigger] client->Ok_0.ensures((ids::parsed(series_id@)->Some_0, at_ms), reply)
                && reply is Ok
                && r->Ok_0.current == reply->Ok_0.current
                && r->Ok_0.finalized == reply->Ok_0.finalized,
        client is Ok && ids::parsed(series_id@) is None ==>
            r is Err
                && r->Err_0.code is InvalidInput
                && !r->Err_0.retryable
                && r->Err_0.arguments@.len() == 0,
        client is Err && ids::parsed(series_id@) is Some ==>
            r is Err
                && r->Err_0.retryable == client->Err_0.retryable
                && r->Err_0.arguments@.len() == 0,
{
}

/// What is settled is settled at the time given.
pub proof fn law_settlement_is_shown<
    F: FnOnce(i64) -> Result<SettlementSummary, ClientFailure>,
>(
    client: Result<F, ClientFailure>,
    at_ms: i64,
    r: Result<SettlementSummaryDto, BridgeErrorDto>,
)
    requires
        call_ensures(series::settle_due_series::<F>, (client, at_ms,), r),
    ensures
        r is Ok ==>
            client is Ok
                && exists|reply: Result<SettlementSummary, ClientFailure>| #[trigger] client->Ok_0.ensures((at_ms,), reply)
                && reply is Ok
                && r->Ok_0.shows(reply->Ok_0),
        client is Err ==>
            r is Err
                && r->Err_0.retryable == client->Err_0.retryable
                && r->Err_0.arguments@.len() == 0,
{
}

/// The rule that is validated is the one given, from the time and in the time zone
/// given.
pub proof fn law_validated_rule_is_handed_on<
    F: FnOnce(String, i64, String) -> Result<String, ClientFailure>,
>(
    client: Result<F, ClientFailure>,
    rrule: String,
    starts_at: i64,
    time_zone: String,
    r: Result<String, BridgeErrorDto>,
)
    requires
        call_ensures(series::validate_recurrence_rule::<F>, (client, rrule, starts_at, time_zone,), r),
    ensures
        r is Ok ==>
            client is Ok
                && exists|reply: Result<String, ClientFailure>| #[trigger] client->Ok_0.ensures((rrule, starts_at, time_zone), reply)
                && reply is Ok
                && r->Ok_0 == reply->Ok_0,
        client is Err ==>
            r is Err
                && r->Err_0.retryable == client->Err_0.retryable
                && r->Err_0.arguments@.len() == 0,
{
}

/// The timer that is discarded is the one named.
pub proof fn law_discarded_timer<F: FnOnce(Uuid) -> Result<bool, ClientFailure>>(
    client: Result<F, ClientFailure>,
    expected_session_id: String,
    r: Result<bool, BridgeErrorDto>,
)
    requires
        call_ensures(timers::discard_active_timer_session::<F>, (client, expected_session_id,), r),
    ensures
        r is Ok ==>
            client is Ok
                && ids::parsed(expected_session_id@) is Some
                && exists|reply: Result<bool, ClientFailure>| #[trigger] client->Ok_0.ensures((ids::parsed(expected_session_id@)->Some_0,), reply)
                && reply is Ok
                && r->Ok_0 == reply->Ok_0,
        client is Ok && ids::parsed(expected_session_id@) is None ==>
            r is Err
                && r->Err_0.code is InvalidInput
                && !r->Err_0.retryable
                && r->Err_0.arguments@.len() == 0,
        client is Err && ids::parsed(expected_session_id@) is Some ==>
            r is Err
                && r->Err_0.retryable == client->Err_0.retryable
                && r->Err_0.arguments@.len() == 0,
{
}

/// The finished timers that are shown are those of the task named.
pub proof fn law_completed_timers_are_shown<
    F: FnOnce(Uuid) -> Result<Vec<CompletedTimerSession>, ClientFailure>,
>(
    client: Result<F, ClientFailure>,
    task_id: String,
    r: Result<Vec<CompletedTimerSessionDto>, BridgeErrorDto>,
)
    requires
        call_ensures(timers::get_completed_timer_sessions::<F>, (client, task_id,), r),
    ensures
        r is Ok ==>
            client is Ok
                && ids::parsed(task_id@) is Some
                && exists|reply: Result<Vec<CompletedTimerSession>, ClientFailure>| #[trigger] client->Ok_0.ensures((ids::parsed(task_id@)->Some_0,), reply)
                && reply is Ok
                && r->Ok_0@.len() == reply->Ok_0@.len()
                && (forall|i: int| 0 <= i < r->Ok_0@.len() ==> (#[trigger] r->Ok_0@[i]).shows(reply->Ok_0@[i])),
        client is Ok && ids::parsed(task_id@) is None ==>
            r is Err
                && r->Err_0.code is InvalidInput
                && !r->Err_0.retryable
                && r->Err_0.arguments@.len() == 0,
        client is Err && ids::parsed(task_id@) is Some ==>
            r is Err
                && r->Err_0.retryable == client->Err_0.retryable
                && r->Err_0.arguments@.len() == 0,
{
}

/// The server that is set is the one given.
pub proof fn law_server_given_is_set<F: FnOnce(String) -> Result<(), ClientFailure>>(
    client: Result<F, ClientFailure>,
    server_url: String,
    r: Result<(), BridgeErrorDto>,
)
    requires
        call_ensures(settings::set_sync_server_url::<F>, (client, server_url,), r),
    ensures
        r is Ok ==>
            client is Ok
                && exists|reply: Result<(), ClientFailure>| #[trigger] client->Ok_0.ensures((server_url,), reply)
                && reply is Ok
                && reply is Ok,
        client is Err ==>
            r is Err
                && r->Err_0.retryable == client->Err_0.retryable
                && r->Err_0.arguments@.len() == 0,
{
}

/// The server that is told is that of the client.
pub proof fn law_server_is_handed_on<F: FnOnce() -> Result<String, ClientFailure>>(
    client: Result<F, ClientFailure>,
    r: Result<String, BridgeErrorDto>,
)
    requires
        call_ensures(settings::get_sync_server_url::<F>, (client,), r),
    ensures
        r is Ok ==>
            client is Ok
                && exists|reply: Result<String, ClientFailure>| #[trigger] client->Ok_0.ensures((), reply)
                && reply is Ok
                && r->Ok_0 == reply->Ok_0,
        client is Err ==>
            r is Err
                && r->Err_0.retryable == client->Err_0.retryable
                && r->Err_0.arguments@.len() == 0,
{
}

/// The time zone that is told is that of the client.
pub proof fn law_time_zone_is_handed_on<F: FnOnce() -> Result<String, ClientFailure>>(
    client: Result<F, ClientFailure>,
    r: Result<String, BridgeErrorDto>,
)
    requires
        call_ensures(settings::get_local_time_zone::<F>, (client,), r),
    ensures
        r is Ok ==>
            client is Ok
                && exists|reply: Result<String, ClientFailure>| #[trigger] client->Ok_0.ensures((), reply)
                && reply is Ok
                && r->Ok_0 == reply->Ok_0,
        client is Err ==>
            r is Err
                && r->Err_0.retryable == client->Err_0.retryable
                && r->Err_0.arguments@.len() == 0,
{
}

/// The undo entry that is shown is the latest of the client, if it has one.
pub proof fn law_latest_undo_is_shown<
    F: FnOnce() -> Result<Option<TaskUndoView>, ClientFailure>,
>(
    client: Result<F, ClientFailure>,
    r: Result<Option<TaskUndoDto>, BridgeErrorDto>,
)
    requires
        call_ensures(tasks::get_latest_task_undo::<F>, (client,), r),
    ensures
        r is Ok ==>
            client is Ok
                && exists|reply: Result<Option<TaskUndoView>, ClientFailure>| #[trigger] client->Ok_0.ensures((), reply)
                && reply is Ok
                && (r->Ok_0 is Some <==> reply->Ok_0 is Some)
                && (r->Ok_0 is Some ==> r->Ok_0->Some_0.shows(reply->Ok_0->Some_0)),
        client is Err ==>
            r is Err
                && r->Err_0.retryable == client->Err_0.retryable
                && r->Err_0.arguments@.len() == 0,
{
}

/// The running timer that is shown is that of the client, if it has one.
pub proof fn law_active_timer_is_shown<
    F: FnOnce() -> Result<Option<ActiveTimerSession>, ClientFailure>,
>(
    client: Result<F, ClientFailure>,
    r: Result<Option<ActiveTimerSessionDto>, BridgeErrorDto>,
)
    requires
        call_ensures(timers::get_active_timer_session::<F>, (client,), r),
    ensures
        r is Ok ==>
            client is Ok
                && exists|reply: Result<Option<ActiveTimerSession>, ClientFailure>| #[trigger] client->Ok_0.ensures((), reply)
                && reply is Ok
                && (r->Ok_0 is Some <==> reply->Ok_0 is Some)
                && (r->Ok_0 is Some ==> r->Ok_0->Some_0.shows(reply->Ok_0->Some_0)),
        client is Err ==>
            r is Err
                && r->Err_0.retryable == client->Err_0.retryable
                && r->Err_0.arguments@.len() == 0,
{
}

/// The registration that is shown is that of the client, if it has one.
pub proof fn law_registration_is_shown<
    F: FnOnce() -> Result<Option<AccountRegistrationState>, ClientFailure>,
>(
    client: Result<F, ClientFailure>,
    r: Result<Option<AccountRegistrationStateDto>, BridgeErrorDto>,
)
    requires
        call_ensures(account::account_registration_state::<F>, (client,), r),
    ensures
        r is Ok ==>
            client is Ok
                && exists|reply: Result<Option<AccountRegistrationState>, ClientFailure>| #[trigger] client->Ok_0.ensures((), reply)
                && reply is Ok
                && (r->Ok_0 is Some <==> reply->Ok_0 is Some)
                && (r->Ok_0 is Some ==> r->Ok_0->Some_0.shows(reply->Ok_0->Some_0)),
        client is Err ==>
            r is Err
                && r->Err_0.retryable == client->Err_0.retryable
                && r->Err_0.arguments@.len() == 0,
{
}

/// The billing state that is shown is the one that the client keeps, if it keeps one.
pub proof fn law_cached_billing_is_shown<
    F: FnOnce() -> Result<Option<BillingState>, ClientFailure>,
>(
    client: Result<F, ClientFailure>,
    r: Result<Option<BillingStateDto>, BridgeErrorDto>,
)
    requires
        call_ensures(account::get_cached_billing::<F>, (client,), r),
    ensures
        r is Ok ==>
            client is Ok
                && exists|reply: Result<Option<BillingState>, ClientFailure>| #[trigger] client->Ok_0.ensures((), reply)
                && reply is Ok
                && (r->Ok_0 is Some <==> reply->Ok_0 is Some)
                && (r->Ok_0 is Some ==> r->Ok_0->Some_0.shows(reply->Ok_0->Some_0)),
        client is Err ==>
            r is Err
                && r->Err_0.retryable == client->Err_0.retryable
                && r->Err_0.arguments@.len() == 0,
{
}

/// The session that is shown is that of the client.
pub proof fn law_session_is_shown<F: FnOnce() -> Result<AccountSessionState, ClientFailure>>(
    client: Result<F, ClientFailure>,
    r: Result<AccountSessionStateDto, BridgeErrorDto>,
)
    requires
        call_ensures(account::get_account_session_state::<F>, (client,), r),
    ensures
        r is Ok ==>
            client is Ok
                && exists|reply: Result<AccountSessionState, ClientFailure>| #[trigger] client->Ok_0.ensures((), reply)
                && reply is Ok
                && r->Ok_0.shows(reply->Ok_0),
        client is Err ==>
            r is Err
                && r->Err_0.retryable == client->Err_0.retryable
                && r->Err_0.arguments@.len() == 0,
{
}

/// The sync status that is shown is that of the client.
pub proof fn law_sync_status_is_shown<F: FnOnce() -> Result<SyncStatus, ClientFailure>>(
    client: Result<F, ClientFailure>,
    r: Result<SyncStatusDto, BridgeErrorDto>,
)
    requires
        call_ensures(account::get_sync_status::<F>, (client,), r),
    ensures
        r is Ok ==>
            client is Ok
                && exists|reply: Result<SyncStatus, ClientFailure>| #[trigger] client->Ok_0.ensures((), reply)
                && reply is Ok
                && r->Ok_0.shows(reply->Ok_0),
        client is Err ==>
            r is Err
                && r->Err_0.retryable == client->Err_0.retryable
                && r->Err_0.arguments@.len() == 0,
{
}

/// A registration is cancelled where the client cancels it.
pub proof fn law_registration_is_cancelled<F: FnOnce() -> Result<(), ClientFailure>>(
    client: Result<F, ClientFailure>,
    r: Result<(), BridgeErrorDto>,
)
    requires
        call_ensures(account::account_registration_cancel::<F>, (client,), r),
    ensures
        r is Ok ==>
            client is Ok
                && exists|reply: Result<(), ClientFailure>| #[trigger] client->Ok_0.ensures((), reply)
                && reply is Ok
                && reply is Ok,
        client is Err ==>
            r is Err
                && r->Err_0.retryable == client->Err_0.retryable
                && r->Err_0.arguments@.len() == 0,
{
}

/// The recovery key is acknowledged where the client acknowledges it.
pub proof fn law_recovery_key_is_acknowledged<F: FnOnce() -> Result<(), ClientFailure>>(
    client: Result<F, ClientFailure>,
    r: Result<(), BridgeErrorDto>,
)
    requires
        call_ensures(account::account_registration_ack_recovery_key::<F>, (client,), r),
    ensures
        r is Ok ==>
            client is Ok
                && exists|reply: Result<(), ClientFailure>| #[trigger] client->Ok_0.ensures((), reply)
                && reply is Ok
                && reply is Ok,
        client is Err ==>
            r is Err
                && r->Err_0.retryable == client->Err_0.retryable
                && r->Err_0.arguments@.len() == 0,
{
}

/// The recovery key that is told is that of the client.
pub proof fn law_recovery_key_is_handed_on<
    F: FnOnce() -> Result<Option<String>, ClientFailure>,
>(
    client: Result<F, ClientFailure>,
    r: Result<Option<String>, BridgeErrorDto>,
)
    requires
        call_ensures(account::account_registration_recovery_key::<F>, (client,), r),
    ensures
        r is Ok ==>
            client is Ok
                && exists|reply: Result<Option<String>, ClientFailure>| #[trigger] client->Ok_0.ensures((), reply)
                && reply is Ok
                && r->Ok_0 == reply->Ok_0,
        client is Err ==>
            r is Err
                && r->Err_0.retryable == client->Err_0.retryable
                && r->Err_0.arguments@.len() == 0,
{
}

/// A registration that has begun is shown as the client answered.
pub proof fn law_begun_registration_is_shown(
    reply: Result<AccountRegistrationPending, ClientFailure>,
    r: Result<AccountRegistrationPendingDto, BridgeErrorDto>,
)
    requires
        call_ensures(account::account_registration_begun, (reply,), r),
    ensures
        reply is Ok <==> r is Ok,
        r is Ok ==> r->Ok_0.shows(reply->Ok_0),
        r is Err ==>
            r->Err_0.retryable == reply->Err_0.retryable
                && r->Err_0.arguments@.len() == 0,
{
}

/// A registration whose code was sent again is shown as the client answered.
pub proof fn law_resent_registration_is_shown(
    reply: Result<AccountRegistrationPending, ClientFailure>,
    r: Result<AccountRegistrationPendingDto, BridgeErrorDto>,
)
    requires
        call_ensures(account::account_registration_resend, (reply,), r),
    ensures
        reply is Ok <==> r is Ok,
        r is Ok ==> r->Ok_0.shows(reply->Ok_0),
        r is Err ==>
            r->Err_0.retryable == reply->Err_0.retryable
                && r->Err_0.arguments@.len() == 0,
{
}

/// A login is shown as the client answered.
pub proof fn law_login_is_shown(
    reply: Result<AccountAuthResult, ClientFailure>,
    r: Result<AccountAuthResultDto, BridgeErrorDto>,
)
    requires
        call_ensures(account::account_login, (reply,), r),
    ensures
        reply is Ok <==> r is Ok,
        r is Ok ==> r->Ok_0.shows(reply->Ok_0),
        r is Err ==>
            r->Err_0.retryable == reply->Err_0.retryable
                && r->Err_0.arguments@.len() == 0,
{
}

/// A registration that is complete is shown as the client answered.
pub proof fn law_completed_registration_is_shown(
    reply: Result<AccountAuthResult, ClientFailure>,
    r: Result<AccountAuthResultDto, BridgeErrorDto>,
)
    requires
        call_ensures(account::account_registration_complete, (reply,), r),
    ensures
        reply is Ok <==> r is Ok,
        r is Ok ==> r->Ok_0.shows(reply->Ok_0),
        r is Err ==>
            r->Err_0.retryable == reply->Err_0.retryable
                && r->Err_0.arguments@.len() == 0,
{
}

/// A safety number that was confirmed is shown as the client answered.
pub proof fn law_confirmed_safety_number_is_shown(
    reply: Result<OrganizationSafetyState, ClientFailure>,
    r: Result<OrganizationSafetyStateDto, BridgeErrorDto>,
)
    requires
        call_ensures(account::confirm_organization_safety_number, (reply,), r),
    ensures
        reply is Ok <==> r is Ok,
        r is Ok ==> r->Ok_0.shows(reply->Ok_0),
        r is Err ==>
            r->Err_0.retryable == reply->Err_0.retryable
                && r->Err_0.arguments@.len() == 0,
{
}

/// A safety number is shown as the client answered.
pub proof fn law_safety_number_is_shown(
    reply: Result<OrganizationSafetyState, ClientFailure>,
    r: Result<OrganizationSafetyStateDto, BridgeErrorDto>,
)
    requires
        call_ensures(account::organization_safety_number, (reply,), r),
    ensures
        reply is Ok <==> r is Ok,
        r is Ok ==> r->Ok_0.shows(reply->Ok_0),
        r is Err ==>
            r->Err_0.retryable == reply->Err_0.retryable
                && r->Err_0.arguments@.len() == 0,
{
}

/// A ticket is shown as the client answered.
pub proof fn law_ticket_is_shown(
    reply: Result<RealtimeTicket, ClientFailure>,
    r: Result<RealtimeTicketDto, BridgeErrorDto>,
)
    requires
        call_ensures(account::get_realtime_ticket, (reply,), r),
    ensures
        reply is Ok <==> r is Ok,
        r is Ok ==> r->Ok_0.shows(reply->Ok_0),
        r is Err ==>
            r->Err_0.retryable == reply->Err_0.retryable
                && r->Err_0.arguments@.len() == 0,
{
}

/// A billing state is shown as the client answered.
pub proof fn law_billing_is_shown(
    reply: Result<BillingState, ClientFailure>,
    r: Result<BillingStateDto, BridgeErrorDto>,
)
    requires
        call_ensures(account::billing_bootstrap, (reply,), r),
    ensures
        reply is Ok <==> r is Ok,
        r is Ok ==> r->Ok_0.shows(reply->Ok_0),
        r is Err ==>
            r->Err_0.retryable == reply->Err_0.retryable
                && r->Err_0.arguments@.len() == 0,
{
}

/// A refreshed billing state is shown as the client answered.
pub proof fn law_refreshed_billing_is_shown(
    reply: Result<BillingState, ClientFailure>,
    r: Result<BillingStateDto, BridgeErrorDto>,
)
    requires
        call_ensures(account::refresh_billing, (reply,), r),
    ensures
        reply is Ok <==> r is Ok,
        r is Ok ==> r->Ok_0.shows(reply->Ok_0),
        r is Err ==>
            r->Err_0.retryable == reply->Err_0.retryable
                && r->Err_0.arguments@.len() == 0,
{
}

/// A sync is shown as the client answered.
pub proof fn law_sync_is_shown(
    reply: Result<SyncStatus, ClientFailure>,
    r: Result<SyncStatusDto, BridgeErrorDto>,
)
    requires
        call_ensures(account::sync_now, (reply,), r),
    ensures
        reply is Ok <==> r is Ok,
        r is Ok ==> r->Ok_0.shows(reply->Ok_0),
        r is Err ==>
            r->Err_0.retryable == reply->Err_0.retryable
                && r->Err_0.arguments@.len() == 0,
{
}

/// A registration begins for the address given; a server that is given is chosen first,
/// and its refusal is told.
pub proof fn law_registration_begins_at_the_server_given<
    F: FnOnce(String) -> Result<(), ClientFailure>,
>(
    client: Result<F, ClientFailure>,
    email: String,
    server_url: Option<String>,
    r: Result<String, BridgeErrorDto>,
)
    requires
        call_ensures(account::account_registration_begin::<F>, (client, email, server_url), r),
    ensures
        r is Ok ==> client is Ok && r->Ok_0 == email,
        client is Ok && server_url is None ==> r is Ok,
        r is Ok && server_url is Some ==>
            exists|chosen: Result<(), ClientFailure>| #[trigger] client->Ok_0.ensures((server_url->Some_0,), chosen)
                && chosen is Ok,
{
}

/// The occurrences that are shown are those of the range given: from its first to its
/// last day and from the millisecond of its start to that of its end.
pub proof fn law_calendar_is_of_the_range<
    R,
    M: FnOnce(String, String, i64, i64) -> Option<R>,
    F: FnOnce(R) -> Result<Vec<CalendarOccurrenceView>, ClientFailure>,
>(
    client: Result<F, ClientFailure>,
    make_range: M,
    range: CalendarRangeInput,
    r: Result<Vec<CalendarOccurrenceDto>, BridgeErrorDto>,
)
    requires
        call_ensures(tasks::get_calendar_occurrences::<R, M, F>, (client, make_range, range), r),
        r is Ok,
    ensures
        client is Ok,
        exists|start_at: i64, end_at: i64, made: Option<R>| #[trigger] make_range.ensures((range.start_on, range.end_on, start_at, end_at), made)
            && start_at == range.start_at.seconds * 1000 + range.start_at.nanos as int / 1_000_000
            && end_at == range.end_at.seconds * 1000 + range.end_at.nanos as int / 1_000_000
            && made is Some
            && exists|reply: Result<Vec<CalendarOccurrenceView>, ClientFailure>| #[trigger] client->Ok_0.ensures((made->Some_0,), reply)
            && reply is Ok
            && reply->Ok_0@.len() == r->Ok_0@.len()
            && (forall|i: int| 0 <= i < r->Ok_0@.len() ==> (#[trigger] r->Ok_0@[i]).shows(reply->Ok_0@[i])),
{
}

/// The time at which a timer reaches its target is the one that is computed, where it
/// lies in the calendar; anything else is refused.
pub proof fn law_target_is_reached_in_the_calendar<
    G: FnOnce(&ActiveTimerSession) -> Option<i64>,
>(
    reached_at: G,
    session: ActiveTimerSessionDto,
    r: Result<UtcTime, BridgeErrorDto>,
)
    requires
        call_ensures(timers::pomodoro_target_reached_at::<G>, (reached_at, session), r),
    ensures
        r is Ok ==>
            session.meant() is Some
                && exists|reached: Option<i64>| #[trigger] reached_at.ensures((&session.meant()->Some_0,), reached)
                && reached is Some
                && -8_334_601_228_800_000 <= reached->Some_0 <= 8_210_266_876_799_999
                && in_millis(r->Ok_0) == reached->Some_0,
        r is Err ==> r->Err_0.code is InvalidInput && !r->Err_0.retryable,
        r is Err && session.meant() is Some ==>
            exists|reached: Option<i64>| #[trigger] reached_at.ensures((&session.meant()->Some_0,), reached)
                && (reached is None || reached->Some_0 < -8_334_601_228_800_000 || reached->Some_0 > 8_210_266_876_799_999),
{
    if r is Ok {
        let reached = choose|reached: Option<i64>| #[trigger] reached_at.ensures((&session.meant()->Some_0,), reached) && match reached {
            None => error::refused(r),
            Some(millis) => if domain::in_calendar(millis) {
                r == Ok::<UtcTime, BridgeErrorDto>(UtcTime::of_millis(millis as int))
            } else {
                error::refused(r)
            },
        };
        assert(reached_at.ensures((&session.meant()->Some_0,), reached));
        assert(in_millis(r->Ok_0) == reached->Some_0);
    }
}

/// Milliseconds since the epoch.
pub open spec fn in_millis(time: UtcTime) -> int {
    time.seconds * 1000 + time.nanos as int / 1_000_000
}

/// The setting that is read is the one of the same name.
pub proof fn law_setting_named_is_read<
    F: FnOnce(FrontendSettingKey) -> Result<Option<String>, ClientFailure>,
>(
    client: Result<F, ClientFailure>,
    key: FrontendSettingKeyDto,
    r: Result<Option<String>, BridgeErrorDto>,
)
    requires
        call_ensures(settings::get_frontend_setting::<F>, (client, key,), r),
        r is Ok,
    ensures
        client is Ok,
        exists|named: FrontendSettingKey, reply: Result<Option<String>, ClientFailure>| #[trigger] client->Ok_0.ensures((named,), reply)
            && reply is Ok
            && r->Ok_0 == reply->Ok_0
            && (key is UiMode <==> named is UiMode)
            && (key is OnboardingCompleted <==> named is OnboardingCompleted)
            && (key is CalendarWeekStart <==> named is CalendarWeekStart)
            && (key is TimerSettings <==> named is TimerSettings)
            && (key is TimerRuntime <==> named is TimerRuntime),
{
}

/// The setting that is written is the one of the same name, with the value given.
pub proof fn law_setting_named_is_written<
    F: FnOnce(FrontendSettingKey, String) -> Result<(), ClientFailure>,
>(
    client: Result<F, ClientFailure>,
    key: FrontendSettingKeyDto,
    value: String,
    r: Result<(), BridgeErrorDto>,
)
    requires
        call_ensures(settings::set_frontend_setting::<F>, (client, key, value,), r),
        r is Ok,
    ensures
        client is Ok,
        exists|named: FrontendSettingKey, reply: Result<(), ClientFailure>| #[trigger] client->Ok_0.ensures((named, value), reply)
            && reply is Ok
            && reply is Ok
            && (key is UiMode <==> named is UiMode)
            && (key is OnboardingCompleted <==> named is OnboardingCompleted)
            && (key is CalendarWeekStart <==> named is CalendarWeekStart)
            && (key is TimerSettings <==> named is TimerSettings)
            && (key is TimerRuntime <==> named is TimerRuntime),
{
}

/// The timer that is started is the one given: of the same identifier, with the choices
/// of the same names and the same durations.
pub proof fn law_started_timer_is_the_one_given<
    F: FnOnce(ActiveTimerSession) -> Result<(), ClientFailure>,
>(
    client: Result<F, ClientFailure>,
    session: ActiveTimerSessionDto,
    r: Result<ActiveTimerStartOutcomeDto, BridgeErrorDto>,
)
    requires
        call_ensures(timers::start_active_timer_session::<F>, (client, session), r),
        r is Ok,
    ensures
        client is Ok,
        exists|meant: ActiveTimerSession, reply: Result<(), ClientFailure>| #[trigger] client->Ok_0.ensures((meant,), reply)
            && (r->Ok_0 is Started <==> reply is Ok)
            && ids::parsed(session.session_id@) == Some(meant.session_id)
            && meant.accumulated_active_ms == session.accumulated_active_ms
            && meant.target_duration_ms == session.target_duration_ms
            && (session.mode is Pomodoro <==> meant.mode is Pomodoro)
            && (session.mode is Stopwatch <==> meant.mode is Stopwatch)
            && (session.phase is Work <==> meant.phase is Work)
            && (session.phase is ShortBreak <==> meant.phase is ShortBreak)
            && (session.phase is LongBreak <==> meant.phase is LongBreak)
            && (session.state is Running <==> meant.state is Running)
            && (session.state is Paused <==> meant.state is Paused),
{
}

/// The timer that is updated is the one given: of the same identifier, with the choices
/// of the same names and the same durations.
pub proof fn law_updated_timer_is_the_one_given<
    F: FnOnce(ActiveTimerSession) -> Result<(), ClientFailure>,
>(
    client: Result<F, ClientFailure>,
    session: ActiveTimerSessionDto,
    r: Result<(), BridgeErrorDto>,
)
    requires
        call_ensures(timers::update_active_timer_session::<F>, (client, session), r),
        r is Ok,
    ensures
        client is Ok,
        exists|meant: ActiveTimerSession, reply: Result<(), ClientFailure>| #[trigger] client->Ok_0.ensures((meant,), reply)
            && reply is Ok
            && ids::parsed(session.session_id@) == Some(meant.session_id)
            && meant.accumulated_active_ms == session.accumulated_active_ms
            && meant.target_duration_ms == session.target_duration_ms
            && (session.mode is Pomodoro <==> meant.mode is Pomodoro)
            && (session.mode is Stopwatch <==> meant.mode is Stopwatch)
            && (session.phase is Work <==> meant.phase is Work)
            && (session.phase is ShortBreak <==> meant.phase is ShortBreak)
            && (session.phase is LongBreak <==> meant.phase is LongBreak)
            && (session.state is Running <==> meant.state is Running)
            && (session.state is Paused <==> meant.state is Paused),
{
}

/// The timer that is finished is the one given: of the same identifier, with the
/// choices of the same names and the same durations.
pub proof fn law_finished_timer_is_the_one_given<
    F: FnOnce(CompletedTimerSession) -> Result<bool, ClientFailure>,
>(
    client: Result<F, ClientFailure>,
    session: CompletedTimerSessionDto,
    r: Result<bool, BridgeErrorDto>,
)
    requires
        call_ensures(timers::finish_active_timer_session::<F>, (client, session), r),
        r is Ok,
    ensures
        client is Ok,
        exists|meant: CompletedTimerSession, reply: Result<bool, ClientFailure>| #[trigger] client->Ok_0.ensures((meant,), reply)
            && reply is Ok
            && r->Ok_0 == reply->Ok_0
            && ids::parsed(session.id@) == Some(meant.id)
            && meant.active_duration_ms == session.active_duration_ms
            && (session.mode is Pomodoro <==> meant.mode is Pomodoro)
            && (session.mode is Stopwatch <==> meant.mode is Stopwatch)
            && (session.finish_kind is Completed <==> meant.finish_kind is Completed)
            && (session.finish_kind is Interrupted <==> meant.finish_kind is Interrupted),
{
}

} // verus!
