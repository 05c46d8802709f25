//! What crosses the bridge: every field keeps its name, every choice keeps its name, and
//! every answer of the client is passed on.
use vstd::prelude::*;
use crate::bridge::{account, conversions, error, settings, tasks, timers};
use crate::bridge::dto::{
    AccountAuthResultDto, AccountRegistrationPendingDto, AccountRegistrationStateDto,
    AccountSessionStateDto, ActiveTimerSessionDto, ActiveTimerStartOutcomeDto, BillingStateDto,
    CalendarOccurrenceDto, CalendarOccurrenceKindDto, CompletedTimerSessionDto,
    FrontendSettingKeyDto, HomeTaskDto, ListDto, OrganizationSafetyStateDto, RealtimeTicketDto,
    ReminderDto, ReminderNotificationCommandDto, SettlementSummaryDto, SyncNowOutcomeDto,
    SyncStatusDto, TaskBlueprintNodeDto, TaskDto, TaskDueDto, TaskDueInput, TaskSeriesDto,
    TaskUndoDto, TemplateDto, TimerFinishKindDto, TimerModeDto, TimerPhaseDto, TimerRunStateDto,
};
use crate::bridge::error::BridgeErrorDto;
use crate::domain::{
    AccountRegistrationPending, AccountRegistrationState, ActiveTimerSession,
    CalendarOccurrenceKind, CalendarOccurrenceView, CompletedTimerSession, HomeTaskView, List,
    ReminderNotificationCommandView, ReminderView, SettlementSummary, Task, TaskBlueprint,
    TaskBlueprintNode, TaskDue, TaskSeries, TaskStatus, TaskTemplate, TaskUndoKind,
    TaskUndoView, TimerFinishKind, TimerMode, TimerPhase, TimerRunState,
};
use crate::error::{ClientErrorKind, ClientFailure};
use crate::external;
use crate::ids;
use crate::ids::Uuid;
use crate::model::{
    AccountAuthResult, AccountSessionState, BillingState, OrganizationSafetyState,
    RealtimeTicket, SyncRunFailure, SyncStatus,
};

verus! {

/// A shown list bears the identifier of the list and, under each other name, what the
/// list holds under that name.
pub proof fn law_list_keeps_its_fields(list: List, shown: ListDto)
    requires
        shown.shows(list),
    ensures
        shown.id@ == external::uuid_text(list.id.value),
        shown.name == list.name,
        shown.color == list.color,
        shown.icon == list.icon,
        shown.sort_order == list.sort_order,
        shown.is_default == list.is_default,
        shown.archived_at == list.archived_at,
        shown.created_at == list.created_at,
        shown.updated_at == list.updated_at,
{
}

/// A shown due value is a date where the due value is one, with the same date, and a
/// point in time where it is one, with the same millisecond and the same time zone.
pub proof fn law_due_keeps_its_fields(due: TaskDue, shown: TaskDueDto)
    requires
        shown.shows(due),
    ensures
        due is Date <==> shown is Date,
        due is DateTime <==> shown is DateTime,
        due matches TaskDue::Date { due_on } ==> shown->due_on == due_on,
        due matches TaskDue::DateTime { due_at, time_zone } ==>
            shown->time_zone == time_zone
                && shown->due_at.seconds * 1000 + shown->due_at.nanos as int / 1_000_000 == due_at.millis_spec()
                && shown->due_at.nanos < 1_000_000_000,
{
}

/// A shown task bears the identifiers of the task, its list, its parent and its
/// assignee, the word of its status, its due value and, under each other name, what the
/// task holds under that name.
pub proof fn law_task_keeps_its_fields(task: Task, shown: TaskDto)
    requires
        shown.shows(task),
    ensures
        shown.id@ == external::uuid_text(task.id.value),
        shown.list_id@ == external::uuid_text(task.list_id.value),
        task.parent_task_id is None <==> shown.parent_task_id is None,
        task.parent_task_id matches Some(id) ==>
            shown.parent_task_id->Some_0@ == external::uuid_text(id.value),
        task.assignee is None <==> shown.assignee is None,
        task.assignee matches Some(id) ==>
            shown.assignee->Some_0@ == external::uuid_text(id.value),
        shown.title == task.content.title,
        shown.note == task.content.note,
        shown.priority == task.content.priority,
        shown.estimated_minutes == task.content.estimated_minutes,
        task.status is Todo <==> shown.status@ == "todo"@,
        task.status is InProgress <==> shown.status@ == "in_progress"@,
        task.status is Done <==> shown.status@ == "done"@,
        task.status is WontDo <==> shown.status@ == "wont_do"@,
        task.due is None <==> shown.due is None,
        task.due matches Some(due) ==> shown.due->Some_0.shows(due),
        shown.scheduled_at == task.scheduled_at,
        shown.sort_order == task.sort_order,
        shown.completed_at == task.completed_at,
        shown.closed_reason == task.closed_reason,
        shown.deleted_at == task.deleted_at,
        shown.created_at == task.created_at,
        shown.updated_at == task.updated_at,
{
    law_status_words(task.status);
}

/// Each status has a word of its own, which names no other status.
pub proof fn law_status_words(status: TaskStatus)
    ensures
        status is Todo <==> status.word() == "todo"@,
        status is InProgress <==> status.word() == "in_progress"@,
        status is Done <==> status.word() == "done"@,
        status is WontDo <==> status.word() == "wont_do"@,
{
    reveal_strlit("todo");
    reveal_strlit("in_progress");
    reveal_strlit("done");
    reveal_strlit("wont_do");
    assert("todo"@[0] == 't' && "done"@[0] == 'd');
    assert("in_progress"@[0] == 'i' && "wont_do"@[0] == 'w');
}

/// A word names a status if and only if it is one of the four words, and each of the
/// four names the status that it stands for.
pub proof fn law_words_name_statuses(word: Seq<char>)
    ensures
        conversions::status_of_word(word) == Some(TaskStatus::Todo) <==> word == "todo"@,
        conversions::status_of_word(word) == Some(TaskStatus::InProgress) <==> word == "in_progress"@,
        conversions::status_of_word(word) == Some(TaskStatus::Done) <==> word == "done"@,
        conversions::status_of_word(word) == Some(TaskStatus::WontDo) <==> word == "wont_do"@,
{
    reveal_strlit("todo");
    reveal_strlit("in_progress");
    reveal_strlit("done");
    reveal_strlit("wont_do");
    assert("todo"@[0] == 't' && "done"@[0] == 'd');
    assert("in_progress"@[0] == 'i' && "wont_do"@[0] == 'w');
}

/// A shown blueprint node bears its key, the key of its parent, its place among its
/// siblings and its content.
pub proof fn law_blueprint_node_keeps_its_fields(
    node: TaskBlueprintNode,
    shown: TaskBlueprintNodeDto,
)
    requires
        shown.shows(node),
    ensures
        shown.node_key == node.node_key,
        shown.parent_node_key == node.parent_node_key,
        shown.sibling_order == node.sibling_order,
        shown.title == node.content.title,
        shown.note == node.content.note,
        shown.priority == node.content.priority,
        shown.estimated_minutes == node.content.estimated_minutes,
{
}

/// A shown template bears the identifiers of the template and of its default list,
/// every node of its blueprint in order and, under each other name, what the template
/// holds under that name.
pub proof fn law_template_keeps_its_fields(template: TaskTemplate, shown: TemplateDto)
    requires
        shown.shows(template),
    ensures
        shown.id@ == external::uuid_text(template.id.value),
        template.default_list_id is None <==> shown.default_list_id is None,
        template.default_list_id matches Some(id) ==>
            shown.default_list_id->Some_0@ == external::uuid_text(id.value),
        shown.name == template.name,
        shown.blueprint_revision == template.blueprint_revision,
        shown.created_at == template.created_at,
        shown.updated_at == template.updated_at,
        shown.nodes@.len() == template.blueprint.nodes@.len(),
        forall|i: int| 0 <= i < shown.nodes@.len() ==>
            (#[trigger] shown.nodes@[i]).shows(template.blueprint.nodes@[i]),
{
}

/// A shown series bears the identifiers of the series and of its target list, every
/// node of its blueprint in order, its configuration and, under each other name, what
/// the series holds under that name.
pub proof fn law_series_keeps_its_fields(series: TaskSeries, shown: TaskSeriesDto)
    requires
        shown.shows(series),
    ensures
        shown.id@ == external::uuid_text(series.id.value),
        series.config.target_list_id is None <==> shown.target_list_id is None,
        series.config.target_list_id matches Some(id) ==>
            shown.target_list_id->Some_0@ == external::uuid_text(id.value),
        shown.rrule == series.config.rrule,
        shown.starts_at == series.config.starts_at,
        shown.time_zone == series.config.time_zone,
        shown.enabled == series.config.enabled,
        shown.config_revision == series.config.config_revision,
        shown.next_run_at == series.next_run_at,
        shown.created_at == series.created_at,
        shown.updated_at == series.updated_at,
        shown.nodes@.len() == series.config.blueprint.nodes@.len(),
        forall|i: int| 0 <= i < shown.nodes@.len() ==>
            (#[trigger] shown.nodes@[i]).shows(series.config.blueprint.nodes@[i]),
{
}

/// A shown settlement bears both counts and both answers under their names.
pub proof fn law_settlement_keeps_its_fields(
    summary: SettlementSummary,
    shown: SettlementSummaryDto,
)
    requires
        shown.shows(summary),
    ensures
        shown.generated_occurrences == summary.generated_occurrences,
        shown.generated_tasks == summary.generated_tasks,
        shown.has_more == summary.has_more,
        shown.outbox_changed == summary.outbox_changed,
{
}

/// A shown home task shows the task, names its list and says whether the task is the
/// target.
pub proof fn law_home_task_keeps_its_fields(home_task: HomeTaskView, shown: HomeTaskDto)
    requires
        shown.shows(home_task),
    ensures
        shown.task.shows(home_task.task),
        shown.list_name == home_task.list_name,
        shown.is_home_target == home_task.is_home_target,
{
}

/// A shown calendar occurrence is of the kind that the occurrence is of, with the same
/// date, millisecond and time zone.
pub proof fn law_occurrence_kind_is_kept(
    kind: CalendarOccurrenceKind,
    shown: CalendarOccurrenceKindDto,
)
    requires
        shown.shows(kind),
    ensures
        kind is DateDue <==> shown is DateDue,
        kind is DateTimeDue <==> shown is DateTimeDue,
        kind is Scheduled <==> shown is Scheduled,
        kind is Completed <==> shown is Completed,
        kind matches CalendarOccurrenceKind::DateDue { due_on } ==> shown->due_on == due_on,
        kind matches CalendarOccurrenceKind::DateTimeDue { due_at, time_zone } ==>
            shown->time_zone == time_zone
                && shown->due_at.seconds * 1000 + shown->due_at.nanos as int / 1_000_000 == due_at.millis_spec()
                && shown->due_at.nanos < 1_000_000_000,
        kind matches CalendarOccurrenceKind::Scheduled { scheduled_at } ==>
            shown->scheduled_at.seconds * 1000 + shown->scheduled_at.nanos as int / 1_000_000 == scheduled_at.millis_spec()
                && shown->scheduled_at.nanos < 1_000_000_000,
        kind matches CalendarOccurrenceKind::Completed { completed_at } ==>
            shown->completed_at.seconds * 1000 + shown->completed_at.nanos as int / 1_000_000 == completed_at.millis_spec()
                && shown->completed_at.nanos < 1_000_000_000,
{
}

/// A shown calendar occurrence shows the task and the kind, names the list and says
/// whether the list is archived.
pub proof fn law_occurrence_keeps_its_fields(
    occurrence: CalendarOccurrenceView,
    shown: CalendarOccurrenceDto,
)
    requires
        shown.shows(occurrence),
    ensures
        shown.task.shows(occurrence.task),
        shown.kind.shows(occurrence.kind),
        shown.list_name == occurrence.list_name,
        shown.list_archived == occurrence.list_archived,
{
}

/// Each timer mode that a frontend names means the one of the same name, and each is
/// shown under its own name.
pub proof fn law_timer_mode_keeps_its_name(value: TimerMode, named: TimerModeDto)
    ensures
        value is Pomodoro <==> conversions::shown_mode(value) is Pomodoro,
        value is Stopwatch <==> conversions::shown_mode(value) is Stopwatch,
        named is Pomodoro <==> conversions::meant_mode(named) is Pomodoro,
        named is Stopwatch <==> conversions::meant_mode(named) is Stopwatch,
{
}

/// Each timer phase that a frontend names means the one of the same name, and each is
/// shown under its own name.
pub proof fn law_timer_phase_keeps_its_name(value: TimerPhase, named: TimerPhaseDto)
    ensures
        value is Work <==> conversions::shown_phase(value) is Work,
        value is ShortBreak <==> conversions::shown_phase(value) is ShortBreak,
        value is LongBreak <==> conversions::shown_phase(value) is LongBreak,
        named is Work <==> conversions::meant_phase(named) is Work,
        named is ShortBreak <==> conversions::meant_phase(named) is ShortBreak,
        named is LongBreak <==> conversions::meant_phase(named) is LongBreak,
{
}

/// Each timer state that a frontend names means the one of the same name, and each is
/// shown under its own name.
pub proof fn law_timer_run_state_keeps_its_name(value: TimerRunState, named: TimerRunStateDto)
    ensures
        value is Running <==> conversions::shown_run_state(value) is Running,
        value is Paused <==> conversions::shown_run_state(value) is Paused,
        named is Running <==> conversions::meant_run_state(named) is Running,
        named is Paused <==> conversions::meant_run_state(named) is Paused,
{
}

/// Each timer way of ending that a frontend names means the one of the same name, and
/// each is shown under its own name.
pub proof fn law_timer_finish_kind_keeps_its_name(
    value: TimerFinishKind,
    named: TimerFinishKindDto,
)
    ensures
        value is Completed <==> conversions::shown_finish_kind(value) is Completed,
        value is Interrupted <==> conversions::shown_finish_kind(value) is Interrupted,
        named is Completed <==> conversions::meant_finish_kind(named) is Completed,
        named is Interrupted <==> conversions::meant_finish_kind(named) is Interrupted,
{
}

/// A shown running timer bears the identifiers of the session and of its task, the
/// choices of the same names, the same milliseconds and the same durations.
pub proof fn law_active_timer_keeps_its_fields(
    session: ActiveTimerSession,
    shown: ActiveTimerSessionDto,
)
    requires
        shown.shows(session),
    ensures
        shown.session_id@ == external::uuid_text(session.session_id.value),
        session.task_id is None <==> shown.task_id is None,
        session.task_id matches Some(id) ==>
            shown.task_id->Some_0@ == external::uuid_text(id.value),
        session.mode is Pomodoro <==> shown.mode is Pomodoro,
        session.mode is Stopwatch <==> shown.mode is Stopwatch,
        session.phase is Work <==> shown.phase is Work,
        session.phase is ShortBreak <==> shown.phase is ShortBreak,
        session.phase is LongBreak <==> shown.phase is LongBreak,
        session.state is Running <==> shown.state is Running,
        session.state is Paused <==> shown.state is Paused,
        shown.started_at.seconds * 1000 + shown.started_at.nanos as int / 1_000_000 == session.started_at
            && shown.started_at.nanos < 1_000_000_000,
        session.last_resumed_at is None <==> shown.last_resumed_at is None,
        session.last_resumed_at matches Some(at) ==>
            shown.last_resumed_at->Some_0.seconds * 1000 + shown.last_resumed_at->Some_0.nanos as int / 1_000_000 == at
                && shown.last_resumed_at->Some_0.nanos < 1_000_000_000,
        shown.accumulated_active_ms == session.accumulated_active_ms,
        shown.target_duration_ms == session.target_duration_ms,
{
}

/// A running timer that a frontend hands over is read where its session identifier and,
/// if it names one, its task identifier can be read; it then has these identifiers, the
/// choices of the same names, the same milliseconds and the same durations.
pub proof fn law_active_timer_is_read_field_by_field(given: ActiveTimerSessionDto)
    requires
        given.valid(),
    ensures
        given.meant() is Some <==>
            ids::parsed(given.session_id@) is Some
                && (given.task_id matches Some(text) ==> ids::parsed(text@) is Some),
        given.meant() matches Some(session) ==>
            ids::parsed(given.session_id@) == Some(session.session_id)
                && (given.task_id is None <==> session.task_id is None)
                && (given.task_id matches Some(text) ==> ids::parsed(text@) == session.task_id),
        given.meant() matches Some(session) ==>
            (given.mode is Pomodoro <==> session.mode is Pomodoro)
                && (given.mode is Stopwatch <==> session.mode is Stopwatch)
                && (given.phase is Work <==> session.phase is Work)
                && (given.phase is ShortBreak <==> session.phase is ShortBreak)
                && (given.phase is LongBreak <==> session.phase is LongBreak)
                && (given.state is Running <==> session.state is Running)
                && (given.state is Paused <==> session.state is Paused),
        given.meant() matches Some(session) ==>
            session.started_at == given.started_at.seconds * 1000 + given.started_at.nanos as int / 1_000_000
                && (given.last_resumed_at is None <==> session.last_resumed_at is None)
                && (given.last_resumed_at matches Some(at) ==> session.last_resumed_at->Some_0 == at.seconds * 1000 + at.nanos as int / 1_000_000),
        given.meant() matches Some(session) ==>
            session.accumulated_active_ms == given.accumulated_active_ms
                && session.target_duration_ms == given.target_duration_ms,
{
}

/// A shown finished timer bears the identifiers of the session and of its task, the
/// choices of the same names, the same milliseconds and the same duration.
pub proof fn law_completed_timer_keeps_its_fields(
    session: CompletedTimerSession,
    shown: CompletedTimerSessionDto,
)
    requires
        shown.shows(session),
    ensures
        shown.id@ == external::uuid_text(session.id.value),
        shown.task_id@ == external::uuid_text(session.task_id.value),
        session.mode is Pomodoro <==> shown.mode is Pomodoro,
        session.mode is Stopwatch <==> shown.mode is Stopwatch,
        session.finish_kind is Completed <==> shown.finish_kind is Completed,
        session.finish_kind is Interrupted <==> shown.finish_kind is Interrupted,
        shown.started_at.seconds * 1000 + shown.started_at.nanos as int / 1_000_000 == session.started_at
            && shown.started_at.nanos < 1_000_000_000,
        shown.ended_at.seconds * 1000 + shown.ended_at.nanos as int / 1_000_000 == session.ended_at
            && shown.ended_at.nanos < 1_000_000_000,
        shown.created_at.seconds * 1000 + shown.created_at.nanos as int / 1_000_000 == session.created_at
            && shown.created_at.nanos < 1_000_000_000,
        shown.active_duration_ms == session.active_duration_ms,
{
}

/// A finished timer that a frontend hands over is read where both its identifiers can
/// be read; it then has these identifiers, the choices of the same names, the same
/// milliseconds and the same duration.
pub proof fn law_completed_timer_is_read_field_by_field(given: CompletedTimerSessionDto)
    requires
        given.valid(),
    ensures
        given.meant() is Some <==>
            ids::parsed(given.id@) is Some
                && ids::parsed(given.task_id@) is Some,
        given.meant() matches Some(session) ==>
            ids::parsed(given.id@) == Some(session.id)
                && ids::parsed(given.task_id@) == Some(session.task_id),
        given.meant() matches Some(session) ==>
            (given.mode is Pomodoro <==> session.mode is Pomodoro)
                && (given.mode is Stopwatch <==> session.mode is Stopwatch)
                && (given.finish_kind is Completed <==> session.finish_kind is Completed)
                && (given.finish_kind is Interrupted <==> session.finish_kind is Interrupted),
        given.meant() matches Some(session) ==>
            session.started_at == given.started_at.seconds * 1000 + given.started_at.nanos as int / 1_000_000,
        given.meant() matches Some(session) ==>
            session.ended_at == given.ended_at.seconds * 1000 + given.ended_at.nanos as int / 1_000_000,
        given.meant() matches Some(session) ==>
            session.created_at == given.created_at.seconds * 1000 + given.created_at.nanos as int / 1_000_000,
        given.meant() matches Some(session) ==>
            session.active_duration_ms == given.active_duration_ms,
{
}

/// Each operation that can be undone has a word of its own.
pub proof fn law_undo_words(kind: TaskUndoKind)
    ensures
        kind is Delete <==> kind.word() == "delete"@,
        kind is Complete <==> kind.word() == "complete"@,
        kind is Edit <==> kind.word() == "edit"@,
{
    reveal_strlit("delete");
    reveal_strlit("complete");
    reveal_strlit("edit");
    assert("delete"@[0] == 'd' && "complete"@[0] == 'c' && "edit"@[0] == 'e');
}

/// A shown undo entry bears the identifiers of the entry, its task and its list, the
/// word of its operation, the title and the time.
pub proof fn law_undo_keeps_its_fields(entry: TaskUndoView, shown: TaskUndoDto)
    requires
        shown.shows(entry),
    ensures
        shown.id@ == external::uuid_text(entry.id.value),
        shown.task_id@ == external::uuid_text(entry.task_id.value),
        shown.list_id@ == external::uuid_text(entry.list_id.value),
        entry.operation is Delete <==> shown.operation_type@ == "delete"@,
        entry.operation is Complete <==> shown.operation_type@ == "complete"@,
        entry.operation is Edit <==> shown.operation_type@ == "edit"@,
        shown.task_title == entry.task_title,
        shown.created_at == entry.created_at,
{
    law_undo_words(entry.operation);
}

/// A shown reminder bears the identifiers of the reminder and of its task and, under
/// each other name, what the reminder holds under that name.
pub proof fn law_reminder_keeps_its_fields(reminder: ReminderView, shown: ReminderDto)
    requires
        shown.shows(reminder),
    ensures
        shown.id@ == external::uuid_text(reminder.id.value),
        shown.task_id@ == external::uuid_text(reminder.task_id.value),
        shown.remind_at == reminder.remind_at,
        shown.snoozed_until == reminder.snoozed_until,
        shown.created_at == reminder.created_at,
{
}

/// A shown notification command bears the identifiers of the reminder, its task and its
/// list, schedules or cancels as the command does and, under each other name, holds
/// what the command holds under that name.
pub proof fn law_reminder_command_keeps_its_fields(
    command: ReminderNotificationCommandView,
    shown: ReminderNotificationCommandDto,
)
    requires
        shown.shows(command),
    ensures
        shown.reminder_id@ == external::uuid_text(command.reminder_id.value),
        command.task_id is None <==> shown.task_id is None,
        command.task_id matches Some(id) ==>
            shown.task_id->Some_0@ == external::uuid_text(id.value),
        command.list_id is None <==> shown.list_id is None,
        command.list_id matches Some(id) ==>
            shown.list_id->Some_0@ == external::uuid_text(id.value),
        command.action is Schedule <==> shown.action is Schedule,
        command.action is Cancel <==> shown.action is Cancel,
        shown.platform_id == command.platform_id,
        shown.revision == command.revision,
        shown.scheduled_at == command.scheduled_at,
{
}

/// A shown session state holds under each name what the session state holds under that
/// name.
pub proof fn law_session_state_keeps_its_fields(
    session: AccountSessionState,
    shown: AccountSessionStateDto,
)
    requires
        shown.shows(session),
    ensures
        shown.logged_in == session.logged_in,
        shown.email == session.email,
        shown.user_id == session.user_id,
        shown.tenant_id == session.tenant_id,
        shown.device_id == session.device_id,
        shown.recovery_pending == session.recovery_pending,
{
}

/// A shown ticket holds the address, the ticket and the expiry under their names.
pub proof fn law_ticket_keeps_its_fields(ticket: RealtimeTicket, shown: RealtimeTicketDto)
    requires
        shown.shows(ticket),
    ensures
        shown.websocket_url == ticket.websocket_url,
        shown.ticket == ticket.ticket,
        shown.expires_at == ticket.expires_at,
{
}

/// A shown authentication result holds the session state, name for name, and the
/// recovery key.
pub proof fn law_auth_result_keeps_its_fields(
    result: AccountAuthResult,
    shown: AccountAuthResultDto,
)
    requires
        shown.shows(result),
    ensures
        shown.session.logged_in == result.session.logged_in,
        shown.session.email == result.session.email,
        shown.session.user_id == result.session.user_id,
        shown.session.tenant_id == result.session.tenant_id,
        shown.session.device_id == result.session.device_id,
        shown.session.recovery_pending == result.session.recovery_pending,
        shown.recovery_key == result.recovery_key,
{
}

/// A shown pending registration holds the address, the expiry and the time of the next
/// retry under their names.
pub proof fn law_registration_pending_keeps_its_fields(
    pending: AccountRegistrationPending,
    shown: AccountRegistrationPendingDto,
)
    requires
        shown.shows(pending),
    ensures
        shown.email == pending.email,
        shown.expires_at_ms == pending.expires_at_ms,
        shown.next_retry_at_ms == pending.next_retry_at_ms,
{
}

/// A shown registration holds the word of its phase and, under each other name, what
/// the registration holds under that name.
pub proof fn law_registration_state_keeps_its_fields(
    state: AccountRegistrationState,
    shown: AccountRegistrationStateDto,
)
    requires
        shown.shows(state),
    ensures
        state.phase is Email <==> shown.phase@ == "email"@,
        state.phase is Otp <==> shown.phase@ == "otp"@,
        state.phase is Password <==> shown.phase@ == "password"@,
        shown.email == state.email,
        shown.expires_at_ms == state.expires_at_ms,
        shown.next_retry_at_ms == state.next_retry_at_ms,
        shown.can_cancel == state.can_cancel,
{
    reveal_strlit("email");
    reveal_strlit("otp");
    reveal_strlit("password");
    assert("email"@[0] == 'e' && "otp"@[0] == 'o' && "password"@[0] == 'p');
}

/// A shown billing state holds under each name what the billing state holds under that
/// name.
pub proof fn law_billing_state_keeps_its_fields(state: BillingState, shown: BillingStateDto)
    requires
        shown.shows(state),
    ensures
        shown.provider == state.provider,
        shown.provider_app_user_id == state.provider_app_user_id,
        shown.lookup_key == state.lookup_key,
        shown.status == state.status,
        shown.sync_allowed == state.sync_allowed,
        shown.store_product_identifier == state.store_product_identifier,
        shown.expires_at == state.expires_at,
        shown.grace_expires_at == state.grace_expires_at,
        shown.will_renew == state.will_renew,
        shown.environment == state.environment,
        shown.updated_at == state.updated_at,
{
}

/// A shown safety state holds under each name what the safety state holds under that
/// name.
pub proof fn law_safety_state_keeps_its_fields(
    state: OrganizationSafetyState,
    shown: OrganizationSafetyStateDto,
)
    requires
        shown.shows(state),
    ensures
        shown.owner_user_id == state.owner_user_id,
        shown.member_user_id == state.member_user_id,
        shown.digest == state.digest,
        shown.decimal == state.decimal,
        shown.qr_payload == state.qr_payload,
        shown.verification_state == state.verification_state,
        shown.owner_confirmed == state.owner_confirmed,
        shown.member_confirmed == state.member_confirmed,
{
}

/// A shown sync status holds under each name what the status holds under that name; a
/// count is shown as it is up to the largest that can be shown, and as that one above
/// it; the last failure is shown by its code, without arguments.
pub proof fn law_sync_status_keeps_its_fields(status: SyncStatus, shown: SyncStatusDto)
    requires
        shown.shows(status),
    ensures
        shown.logged_in == status.logged_in,
        shown.running == status.running,
        shown.last_success_at == status.last_success_at,
        shown.last_failure_at == status.last_failure_at,
        shown.upgrade_required == status.upgrade_required,
        status.last_error is None <==> shown.last_error is None,
        status.last_error matches Some(failure) ==>
            shown.last_error->Some_0.arguments@.len() == 0
                && shown.last_error->Some_0.code == error::code_of_sync_failure(failure)
                && shown.last_error->Some_0.retryable == error::sync_failure_is_retryable(failure),
        status.pushed_count <= i32::MAX ==> shown.pushed_count == status.pushed_count,
        status.pushed_count > i32::MAX ==> shown.pushed_count == i32::MAX,
        status.push_acked_count <= i32::MAX ==>
            shown.push_acked_count == status.push_acked_count,
        status.push_acked_count > i32::MAX ==> shown.push_acked_count == i32::MAX,
        status.push_superseded_count <= i32::MAX ==>
            shown.push_superseded_count == status.push_superseded_count,
        status.push_superseded_count > i32::MAX ==> shown.push_superseded_count == i32::MAX,
        status.pulled_count <= i32::MAX ==> shown.pulled_count == status.pulled_count,
        status.pulled_count > i32::MAX ==> shown.pulled_count == i32::MAX,
        status.applied_count <= i32::MAX ==> shown.applied_count == status.applied_count,
        status.applied_count > i32::MAX ==> shown.applied_count == i32::MAX,
        status.deleted_count <= i32::MAX ==> shown.deleted_count == status.deleted_count,
        status.deleted_count > i32::MAX ==> shown.deleted_count == i32::MAX,
        status.decrypt_failed_count <= i32::MAX ==>
            shown.decrypt_failed_count == status.decrypt_failed_count,
        status.decrypt_failed_count > i32::MAX ==> shown.decrypt_failed_count == i32::MAX,
        status.repush_count <= i32::MAX ==> shown.repush_count == status.repush_count,
        status.repush_count > i32::MAX ==> shown.repush_count == i32::MAX,
        status.missing_key_quarantined_count <= i32::MAX ==>
            shown.missing_key_quarantined_count == status.missing_key_quarantined_count,
        status.missing_key_quarantined_count > i32::MAX ==>
            shown.missing_key_quarantined_count == i32::MAX,
        status.corruption_quarantined_count <= i32::MAX ==>
            shown.corruption_quarantined_count == status.corruption_quarantined_count,
        status.corruption_quarantined_count > i32::MAX ==>
            shown.corruption_quarantined_count == i32::MAX,
        status.resolved_quarantine_count <= i32::MAX ==>
            shown.resolved_quarantine_count == status.resolved_quarantine_count,
        status.resolved_quarantine_count > i32::MAX ==>
            shown.resolved_quarantine_count == i32::MAX,
{
}

/// Each setting that a frontend names means the setting of the same name.
pub proof fn law_setting_keeps_its_name(named: FrontendSettingKeyDto)
    ensures
        named is UiMode <==> conversions::meant_setting(named) is UiMode,
        named is OnboardingCompleted <==> conversions::meant_setting(named) is OnboardingCompleted,
        named is CalendarWeekStart <==> conversions::meant_setting(named) is CalendarWeekStart,
        named is TimerSettings <==> conversions::meant_setting(named) is TimerSettings,
        named is TimerRuntime <==> conversions::meant_setting(named) is TimerRuntime,
{
}

/// Shown lists are as many as the lists, and each stands where its list stands.
pub proof fn law_lists_stay_in_order(lists: Seq<List>, shown: Seq<ListDto>)
    requires
        conversions::shows_lists(shown, lists),
    ensures
        shown.len() == lists.len(),
        forall|i: int| 0 <= i < lists.len() ==> (#[trigger] shown[i]).shows(lists[i]),
{
}

/// Shown tasks are as many as the tasks, and each stands where its task stands.
pub proof fn law_tasks_stay_in_order(tasks: Seq<Task>, shown: Seq<TaskDto>)
    requires
        conversions::shows_tasks(shown, tasks),
    ensures
        shown.len() == tasks.len(),
        forall|i: int| 0 <= i < tasks.len() ==> (#[trigger] shown[i]).shows(tasks[i]),
{
}

/// Shown reminders are as many as the reminders, and each stands where its reminder
/// stands.
pub proof fn law_reminders_stay_in_order(reminders: Seq<ReminderView>, shown: Seq<ReminderDto>)
    requires
        conversions::shows_reminders(shown, reminders),
    ensures
        shown.len() == reminders.len(),
        forall|i: int| 0 <= i < reminders.len() ==> (#[trigger] shown[i]).shows(reminders[i]),
{
}

/// Shown notification commands are as many as the commands, and each stands where its
/// command stands.
pub proof fn law_reminder_commands_stay_in_order(
    commands: Seq<ReminderNotificationCommandView>,
    shown: Seq<ReminderNotificationCommandDto>,
)
    requires
        conversions::shows_commands(shown, commands),
    ensures
        shown.len() == commands.len(),
        forall|i: int| 0 <= i < commands.len() ==> (#[trigger] shown[i]).shows(commands[i]),
{
}

/// Shown blueprint nodes are as many as the nodes, and each stands where its node
/// stands.
pub proof fn law_nodes_stay_in_order(
    nodes: Seq<TaskBlueprintNode>,
    shown: Seq<TaskBlueprintNodeDto>,
)
    requires
        conversions::shows_nodes(shown, nodes),
    ensures
        shown.len() == nodes.len(),
        forall|i: int| 0 <= i < nodes.len() ==> (#[trigger] shown[i]).shows(nodes[i]),
{
}

/// Whatever is shown one for one is as many as what it shows, and each stands where
/// what it shows stands.
pub proof fn law_all_stay_in_order<T, D>(
    values: Seq<T>,
    dtos: Seq<D>,
    shown: spec_fn(T, D) -> bool,
)
    requires
        conversions::shows_all(values, dtos, shown),
    ensures
        dtos.len() == values.len(),
        forall|i: int| 0 <= i < values.len() ==> shown(values[i], #[trigger] dtos[i]),
{
}

/// An optional value is shown if and only if there is one, and then as a value is
/// shown.
pub proof fn law_optional_is_shown_where_it_is<T, D>(
    value: Option<T>,
    dto: Option<D>,
    shown: spec_fn(T, D) -> bool,
)
    requires
        conversions::shows_optional(value, dto, shown),
    ensures
        value is Some <==> dto is Some,
        value matches Some(inner) ==> shown(inner, dto->Some_0),
{
}

/// An identifier that may be absent is refused if and only if it is there and cannot be
/// read; absent it stays absent, and there it is the one that its text names.
pub proof fn law_optional_identifier_is_read(value: Option<String>)
    ensures
        conversions::parsed_or_absent(value) is None <==>
            value is Some
                && ids::parsed(value->Some_0@) is None,
        value is None ==> conversions::parsed_or_absent(value) == Some(None::<Uuid>),
        value is Some && ids::parsed(value->Some_0@) is Some ==>
            conversions::parsed_or_absent(value) == Some(ids::parsed(value->Some_0@)),
{
}

/// A date is read by the reader of dates, from the date given; a point in time by the
/// reader of times, from its millisecond and its time zone. What the reader gives is
/// the answer; where it gives nothing, the words name the kind that could not be read.
pub proof fn law_due_is_read_by_its_kind<
    D: FnOnce(String) -> Option<TaskDue>,
    T: FnOnce(i64, String) -> Option<TaskDue>,
>(
    input: TaskDueInput,
    date: D,
    date_time: T,
    r: Result<TaskDue, String>,
)
    requires
        conversions::due_parsed(input, date, date_time, r),
    ensures
        input matches TaskDueInput::Date { due_on } ==>
            (r is Ok ==> date.ensures((due_on,), Some(r->Ok_0))),
        input matches TaskDueInput::Date { due_on } ==>
            (r is Err ==> date.ensures((due_on,), None) && r->Err_0@ == "invalid date-only due value"@),
        input matches TaskDueInput::DateTime { due_at, time_zone } ==>
            (r is Ok ==> exists|millis: i64| millis == due_at.seconds * 1000 + due_at.nanos as int / 1_000_000 && #[trigger] date_time.ensures((millis, time_zone), Some(r->Ok_0))),
        input matches TaskDueInput::DateTime { due_at, time_zone } ==>
            (r is Err ==> r->Err_0@ == "invalid datetime due value"@ && exists|millis: i64| millis == due_at.seconds * 1000 + due_at.nanos as int / 1_000_000 && #[trigger] date_time.ensures((millis, time_zone), None)),
{
    if let TaskDueInput::DateTime { due_at, time_zone } = input {
        let (millis, made) = choose|millis: i64, made: Option<TaskDue>|
            millis == due_at.millis_spec() && #[trigger] date_time.ensures((millis, time_zone), made)
                && match made {
                Some(due) => r == Ok::<TaskDue, String>(due),
                None => r is Err && r->Err_0@ == "invalid datetime due value"@,
            };
        assert(date_time.ensures((millis, time_zone), made));
        assert(made is Some ==> made == Some(r->Ok_0));
    }
}

/// No due value is no due value; one that is given is read as any due value is, and its
/// refusal is passed on.
pub proof fn law_absent_due_stays_absent<
    D: FnOnce(String) -> Option<TaskDue>,
    T: FnOnce(i64, String) -> Option<TaskDue>,
>(
    input: Option<TaskDueInput>,
    date: D,
    date_time: T,
    r: Result<Option<TaskDue>, String>,
)
    requires
        conversions::optional_due_parsed(input, date, date_time, r),
    ensures
        input is None ==> r == Ok::<Option<TaskDue>, String>(None),
        input matches Some(asked) ==>
            (r is Ok ==> r->Ok_0 is Some && conversions::due_parsed(asked, date, date_time, Ok(r->Ok_0->Some_0))),
        input matches Some(asked) ==>
            (r is Err ==> conversions::due_parsed(asked, date, date_time, Err(r->Err_0))),
{
}

/// A blueprint that is made has the schema revision asked for and one node for each
/// node handed over, in order, and was found valid; the words of a refusal are those of
/// the validation.
pub proof fn law_blueprint_is_made_of_the_nodes<
    V: FnOnce(&TaskBlueprint) -> Result<(), String>,
>(
    nodes: Seq<TaskBlueprintNodeDto>,
    schema_revision: u32,
    validate: V,
    r: Result<TaskBlueprint, String>,
)
    requires
        conversions::blueprint_made(nodes, schema_revision, validate, r),
    ensures
        r matches Ok(made) ==> made.schema_revision == schema_revision
            && made.nodes@.len() == nodes.len()
            && forall|i: int| 0 <= i < nodes.len() ==> (#[trigger] nodes[i]).shows(made.nodes@[i]),
        r matches Ok(made) ==>
            exists|verdict: Result<(), String>| #[trigger] validate.ensures((&made,), verdict)
                && verdict is Ok,
        r matches Err(words) ==>
            exists|made: TaskBlueprint, verdict: Result<(), String>| #[trigger] validate.ensures((&made,), verdict)
                && verdict is Err
                && verdict->Err_0 == words,
{
    let (made, verdict) = choose|made: TaskBlueprint, verdict: Result<(), String>|
        {
            &&& made.schema_revision == schema_revision
            &&& conversions::shows_nodes(nodes, made.nodes@)
            &&& #[trigger] validate.ensures((&made,), verdict)
            &&& match verdict {
                Ok(_) => r == Ok::<TaskBlueprint, String>(made),
                Err(words) => r == Err::<TaskBlueprint, String>(words),
            }
        };
    assert(validate.ensures((&made,), verdict));
    if r is Ok {
        assert(r->Ok_0 == made);
        assert(validate.ensures((&r->Ok_0,), verdict));
    }
}

/// A text without quotation marks, backslashes and control characters is its own JSON
/// body.
pub proof fn law_json_plain_text_is_unchanged(text: Seq<char>)
    requires
        forall|i: int| 0 <= i < text.len() ==>
            #[trigger] text[i] != '"'
                && text[i] != '\\'
                && text[i] > '\u{1f}',
    ensures
        conversions::json_body(text) == text,
    decreases text.len(),
{
    if text.len() > 0 {
        law_json_plain_text_is_unchanged(text.drop_last());
        assert(text == text.drop_last() + seq![text.last()]);
    }
}

/// The JSON body of two texts in a row is the body of the first, then the body of the
/// second.
pub proof fn law_json_bodies_join(one: Seq<char>, other: Seq<char>)
    ensures
        conversions::json_body(one + other) == conversions::json_body(one) + conversions::json_body(other),
    decreases other.len(),
{
    if other.len() == 0 {
        assert(one + other == one);
    } else {
        law_json_bodies_join(one, other.drop_last());
        assert((one + other).drop_last() == one + other.drop_last());
        assert((one + other).last() == other.last());
    }
}

/// What one character becomes in a JSON body holds no control character, and holds a
/// quotation mark only behind a backslash.
pub proof fn law_json_body_has_no_bare_control_character(c: char)
    ensures
        forall|i: int| 0 <= i < conversions::json_escaped(c).len() ==>
            #[trigger] conversions::json_escaped(c)[i] > '\u{1f}',
        forall|i: int| 0 <= i < conversions::json_escaped(c).len() && #[trigger] conversions::json_escaped(c)[i] == '"' ==>
            i == 1
                && conversions::json_escaped(c)[0] == '\\',
        conversions::json_escaped('"') == seq!['\\', '"'],
        conversions::json_escaped('\\') == seq!['\\', '\\'],
        conversions::json_escaped('\n') == seq!['\\', 'n'],
        conversions::json_escaped('\r') == seq!['\\', 'r'],
        conversions::json_escaped('\t') == seq!['\\', 't'],
        conversions::json_escaped('\u{08}') == seq!['\\', 'b'],
        conversions::json_escaped('\u{0c}') == seq!['\\', 'f'],
{
}

/// Each class of client errors crosses the bridge under the code of the same name.
pub proof fn law_code_keeps_the_name_of_the_class(kind: ClientErrorKind)
    ensures
        kind is InvalidInput <==> error::code_of_kind(kind) is InvalidInput,
        kind is NotFound <==> error::code_of_kind(kind) is NotFound,
        kind is Conflict <==> error::code_of_kind(kind) is Conflict,
        kind is Unauthorized <==> error::code_of_kind(kind) is Unauthorized,
        kind is CredentialUnavailable <==> error::code_of_kind(kind) is CredentialUnavailable,
        kind is AccountBoundUnavailable <==> error::code_of_kind(kind) is AccountBoundUnavailable,
        kind is EntitlementRequired <==> error::code_of_kind(kind) is EntitlementRequired,
        kind is UpgradeRequired <==> error::code_of_kind(kind) is UpgradeRequired,
        kind is Busy <==> error::code_of_kind(kind) is Busy,
        kind is LeaseLost <==> error::code_of_kind(kind) is LeaseLost,
        kind is ClockSkew <==> error::code_of_kind(kind) is ClockSkew,
        kind is CryptoUnavailable <==> error::code_of_kind(kind) is CryptoUnavailable,
        kind is StorageFailure <==> error::code_of_kind(kind) is StorageFailure,
        kind is SyncFailure <==> error::code_of_kind(kind) is SyncFailure,
        kind is Internal <==> error::code_of_kind(kind) is Internal,
{
}

/// A failed sync that found something held elsewhere is busy; every other one crosses
/// the bridge under its own code. Retrying helps unless the user has to log in, pay,
/// upgrade or restore what is missing.
pub proof fn law_code_of_a_sync_failure(failure: SyncRunFailure)
    ensures
        failure is Unauthorized <==> error::code_of_sync_failure(failure) is Unauthorized,
        failure is UpgradeRequired <==> error::code_of_sync_failure(failure) is UpgradeRequired,
        failure is EntitlementRequired <==>
            error::code_of_sync_failure(failure) is EntitlementRequired,
        failure is LeaseLost <==> error::code_of_sync_failure(failure) is LeaseLost,
        failure is ClockSkewRetryable <==> error::code_of_sync_failure(failure) is ClockSkew,
        failure is CredentialUnavailable <==>
            error::code_of_sync_failure(failure) is CredentialUnavailable,
        failure is AccountBoundUnavailable <==>
            error::code_of_sync_failure(failure) is AccountBoundUnavailable,
        failure is SyncFailed <==> error::code_of_sync_failure(failure) is SyncFailure,
        error::code_of_sync_failure(failure) is Busy <==>
            failure is SyncLeaseBusy
                || failure is DatabaseBusy
                || failure is ProfileBusy
                || failure is CredentialBusy,
        error::sync_failure_is_retryable(failure) <==>
            failure is SyncLeaseBusy
                || failure is DatabaseBusy
                || failure is ProfileBusy
                || failure is CredentialBusy
                || failure is LeaseLost
                || failure is ClockSkewRetryable
                || failure is SyncFailed,
{
}

/// A client failure crosses the bridge as the code of its class and its retry advice,
/// without arguments.
pub proof fn law_error_tells_the_failure(failure: ClientFailure, shown: BridgeErrorDto)
    requires
        shown.tells(failure),
    ensures
        failure.kind is InvalidInput <==> shown.code is InvalidInput,
        failure.kind is NotFound <==> shown.code is NotFound,
        failure.kind is Conflict <==> shown.code is Conflict,
        failure.kind is Unauthorized <==> shown.code is Unauthorized,
        failure.kind is CredentialUnavailable <==> shown.code is CredentialUnavailable,
        failure.kind is AccountBoundUnavailable <==> shown.code is AccountBoundUnavailable,
        failure.kind is EntitlementRequired <==> shown.code is EntitlementRequired,
        failure.kind is UpgradeRequired <==> shown.code is UpgradeRequired,
        failure.kind is Busy <==> shown.code is Busy,
        failure.kind is LeaseLost <==> shown.code is LeaseLost,
        failure.kind is ClockSkew <==> shown.code is ClockSkew,
        failure.kind is CryptoUnavailable <==> shown.code is CryptoUnavailable,
        failure.kind is StorageFailure <==> shown.code is StorageFailure,
        failure.kind is SyncFailure <==> shown.code is SyncFailure,
        failure.kind is Internal <==> shown.code is Internal,
        shown.retryable == failure.retryable,
        shown.arguments@.len() == 0,
{
}

/// An input that is not understood is answered with the code of invalid input, no
/// arguments and the advice not to retry.
pub proof fn law_refused_input(shown: BridgeErrorDto)
    requires
        shown.is_invalid_input(),
    ensures
        shown.code is InvalidInput,
        !shown.retryable,
        shown.arguments@.len() == 0,
{
}

/// A refusal of the input and a client out of reach are errors: the first says that the
/// input is invalid, the second tells the failure.
pub proof fn law_refusal_is_an_error<D>(
    failure: ClientFailure,
    refusal: Result<D, BridgeErrorDto>,
    missed: Result<D, BridgeErrorDto>,
)
    requires
        error::refused(refusal),
        error::not_reached(failure, missed),
    ensures
        refusal is Err,
        refusal->Err_0.code is InvalidInput,
        !refusal->Err_0.retryable,
        refusal->Err_0.arguments@.len() == 0,
        missed is Err,
        missed->Err_0.retryable == failure.retryable,
        missed->Err_0.arguments@.len() == 0,
        failure.kind is InvalidInput <==> missed->Err_0.code is InvalidInput,
        failure.kind is NotFound <==> missed->Err_0.code is NotFound,
        failure.kind is Conflict <==> missed->Err_0.code is Conflict,
        failure.kind is Unauthorized <==> missed->Err_0.code is Unauthorized,
        failure.kind is CredentialUnavailable <==> missed->Err_0.code is CredentialUnavailable,
        failure.kind is AccountBoundUnavailable <==>
            missed->Err_0.code is AccountBoundUnavailable,
        failure.kind is EntitlementRequired <==> missed->Err_0.code is EntitlementRequired,
        failure.kind is UpgradeRequired <==> missed->Err_0.code is UpgradeRequired,
        failure.kind is Busy <==> missed->Err_0.code is Busy,
        failure.kind is LeaseLost <==> missed->Err_0.code is LeaseLost,
        failure.kind is ClockSkew <==> missed->Err_0.code is ClockSkew,
        failure.kind is CryptoUnavailable <==> missed->Err_0.code is CryptoUnavailable,
        failure.kind is StorageFailure <==> missed->Err_0.code is StorageFailure,
        failure.kind is SyncFailure <==> missed->Err_0.code is SyncFailure,
        failure.kind is Internal <==> missed->Err_0.code is Internal,
{
}

/// The client succeeds if and only if the answer is a value, which shows what the
/// client gave; a failure is told by its class and its retry advice.
pub proof fn law_answer_is_passed_on<T, D>(
    reply: Result<T, ClientFailure>,
    r: Result<D, BridgeErrorDto>,
    shown: spec_fn(T, D) -> bool,
)
    requires
        error::answered(reply, r, shown),
    ensures
        reply is Ok <==> r is Ok,
        reply matches Ok(value) ==> shown(value, r->Ok_0),
        reply matches Err(failure) ==>
            r->Err_0.retryable == failure.retryable
                && r->Err_0.arguments@.len() == 0,
        reply matches Err(failure) ==>
            (failure.kind is InvalidInput <==> r->Err_0.code is InvalidInput),
        reply matches Err(failure) ==>
            (failure.kind is NotFound <==> r->Err_0.code is NotFound),
        reply matches Err(failure) ==>
            (failure.kind is Conflict <==> r->Err_0.code is Conflict),
        reply matches Err(failure) ==>
            (failure.kind is Unauthorized <==> r->Err_0.code is Unauthorized),
        reply matches Err(failure) ==>
            (failure.kind is CredentialUnavailable <==> r->Err_0.code is CredentialUnavailable),
        reply matches Err(failure) ==>
            (failure.kind is AccountBoundUnavailable <==> r->Err_0.code is AccountBoundUnavailable),
        reply matches Err(failure) ==>
            (failure.kind is EntitlementRequired <==> r->Err_0.code is EntitlementRequired),
        reply matches Err(failure) ==>
            (failure.kind is UpgradeRequired <==> r->Err_0.code is UpgradeRequired),
        reply matches Err(failure) ==> (failure.kind is Busy <==> r->Err_0.code is Busy),
        reply matches Err(failure) ==>
            (failure.kind is LeaseLost <==> r->Err_0.code is LeaseLost),
        reply matches Err(failure) ==>
            (failure.kind is ClockSkew <==> r->Err_0.code is ClockSkew),
        reply matches Err(failure) ==>
            (failure.kind is CryptoUnavailable <==> r->Err_0.code is CryptoUnavailable),
        reply matches Err(failure) ==>
            (failure.kind is StorageFailure <==> r->Err_0.code is StorageFailure),
        reply matches Err(failure) ==>
            (failure.kind is SyncFailure <==> r->Err_0.code is SyncFailure),
        reply matches Err(failure) ==>
            (failure.kind is Internal <==> r->Err_0.code is Internal),
{
}

/// The client succeeds if and only if the answer is a value, and then it is the value
/// that the client gave; a failure is told by its class and its retry advice.
pub proof fn law_value_is_handed_on<T>(
    reply: Result<T, ClientFailure>,
    r: Result<T, BridgeErrorDto>,
)
    requires
        error::handed_on(reply, r),
    ensures
        reply is Ok <==> r is Ok,
        reply matches Ok(value) ==> r->Ok_0 == value,
        reply matches Err(failure) ==>
            r->Err_0.retryable == failure.retryable
                && r->Err_0.arguments@.len() == 0,
        reply matches Err(failure) ==>
            (failure.kind is InvalidInput <==> r->Err_0.code is InvalidInput),
        reply matches Err(failure) ==>
            (failure.kind is NotFound <==> r->Err_0.code is NotFound),
        reply matches Err(failure) ==>
            (failure.kind is Conflict <==> r->Err_0.code is Conflict),
        reply matches Err(failure) ==>
            (failure.kind is Unauthorized <==> r->Err_0.code is Unauthorized),
        reply matches Err(failure) ==>
            (failure.kind is CredentialUnavailable <==> r->Err_0.code is CredentialUnavailable),
        reply matches Err(failure) ==>
            (failure.kind is AccountBoundUnavailable <==> r->Err_0.code is AccountBoundUnavailable),
        reply matches Err(failure) ==>
            (failure.kind is EntitlementRequired <==> r->Err_0.code is EntitlementRequired),
        reply matches Err(failure) ==>
            (failure.kind is UpgradeRequired <==> r->Err_0.code is UpgradeRequired),
        reply matches Err(failure) ==> (failure.kind is Busy <==> r->Err_0.code is Busy),
        reply matches Err(failure) ==>
            (failure.kind is LeaseLost <==> r->Err_0.code is LeaseLost),
        reply matches Err(failure) ==>
            (failure.kind is ClockSkew <==> r->Err_0.code is ClockSkew),
        reply matches Err(failure) ==>
            (failure.kind is CryptoUnavailable <==> r->Err_0.code is CryptoUnavailable),
        reply matches Err(failure) ==>
            (failure.kind is StorageFailure <==> r->Err_0.code is StorageFailure),
        reply matches Err(failure) ==>
            (failure.kind is SyncFailure <==> r->Err_0.code is SyncFailure),
        reply matches Err(failure) ==>
            (failure.kind is Internal <==> r->Err_0.code is Internal),
{
}

/// A sync that ends tells its status; one that lacks the entitlement asks for payment,
/// and nothing else does; every other failure is told by its class and its retry
/// advice.
pub proof fn law_sync_asks_for_payment_only_where_it_is_missing(
    reply: Result<SyncStatus, ClientFailure>,
    r: Result<SyncNowOutcomeDto, BridgeErrorDto>,
)
    requires
        account::sync_outcome(reply, r),
    ensures
        reply is Ok <==> r is Ok && r->Ok_0 is Synced,
        reply matches Ok(status) ==> r->Ok_0->status.shows(status),
        r is Ok && r->Ok_0 is BillingRequired <==>
            reply is Err
                && reply->Err_0.error is EntitlementRequired,
        r is Err <==> reply is Err && !(reply->Err_0.error is EntitlementRequired),
        r matches Err(shown) ==> shown.tells(reply->Err_0),
{
}

/// A rotation tells the generation that it reached where that can be shown, and that
/// the keys are unavailable where it cannot; a failure is told by its class and its
/// retry advice.
pub proof fn law_rotation_tells_the_generation(
    reply: Result<u64, ClientFailure>,
    r: Result<i64, BridgeErrorDto>,
)
    requires
        settings::rotation_told(reply, r),
    ensures
        r is Ok <==> reply is Ok && reply->Ok_0 <= i64::MAX,
        r matches Ok(generation) ==> generation == reply->Ok_0,
        reply is Ok && reply->Ok_0 > i64::MAX ==>
            r->Err_0.code is CryptoUnavailable
                && !r->Err_0.retryable
                && r->Err_0.arguments@.len() == 0,
        reply matches Err(failure) ==> r->Err_0.tells(failure),
{
}

/// A count is told as it is where it can be shown, and refused where it cannot; a
/// failure is told by its class and its retry advice.
pub proof fn law_count_is_told(
    reply: Result<usize, ClientFailure>,
    r: Result<i32, BridgeErrorDto>,
)
    requires
        tasks::count_told(reply, r),
    ensures
        r is Ok <==> reply is Ok && reply->Ok_0 <= i32::MAX,
        r matches Ok(count) ==> count == reply->Ok_0,
        reply is Ok && reply->Ok_0 > i32::MAX ==>
            r->Err_0.code is InvalidInput
                && !r->Err_0.retryable
                && r->Err_0.arguments@.len() == 0,
        reply matches Err(failure) ==> r->Err_0.tells(failure),
{
}

/// A timer that starts is told as started; one that finds another running is told as a
/// conflict, and nothing else is; every other failure is told by its class and its
/// retry advice.
pub proof fn law_timer_start_tells_a_conflict(
    reply: Result<(), ClientFailure>,
    r: Result<ActiveTimerStartOutcomeDto, BridgeErrorDto>,
)
    requires
        timers::start_told(reply, r),
    ensures
        r is Ok && r->Ok_0 is Started <==> reply is Ok,
        r is Ok && r->Ok_0 is Conflict <==>
            reply is Err
                && reply->Err_0.error is ActiveTimerConflict,
        r is Err <==> reply is Err && !(reply->Err_0.error is ActiveTimerConflict),
        r matches Err(shown) ==> shown.tells(reply->Err_0),
{
}

/// A priority is taken as given, and is zero where none is given.
pub proof fn law_missing_priority_is_zero(priority: Option<i32>)
    ensures
        priority is None ==> tasks::priority_or_none(priority) == 0,
        priority matches Some(given) ==> tasks::priority_or_none(priority) == given,
{
}

} // verus!
