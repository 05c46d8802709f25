//! Conversions between the domain and what crosses the bridge.
use vstd::prelude::*;
use crate::bridge::dto::{
    AccountAuthResultDto, AccountRegistrationPendingDto, AccountRegistrationStateDto,
    AccountSessionStateDto, ActiveTimerSessionDto, BillingStateDto, CalendarOccurrenceDto,
    CalendarOccurrenceKindDto, CompletedTimerSessionDto, FrontendSettingKeyDto, HomeTaskDto,
    ListDto, OrganizationSafetyStateDto, RealtimeTicketDto, ReminderDto,
    ReminderNotificationActionDto, ReminderNotificationCommandDto, SettlementSummaryDto, StreakDto,
    SyncStatusDto, TaskBlueprintNodeDto, TaskDto, TaskDueDto, TaskDueInput, TaskSeriesDto,
    TaskUndoDto, TemplateDto, TimerFinishKindDto, TimerModeDto, TimerPhaseDto, TimerRunStateDto,
};
use crate::bridge::error;
use crate::bridge::error::BridgeErrorDto;
use crate::domain;
use crate::domain::{
    AccountRegistrationPending, AccountRegistrationPhase, AccountRegistrationState,
    ActiveTimerSession, CalendarOccurrenceKind, CalendarOccurrenceView, CompletedTimerSession,
    HomeTaskView, List, ReminderNotificationActionView, ReminderNotificationCommandView,
    ReminderView, SettlementSummary, Streak, Task, TaskBlueprint, TaskBlueprintNode, TaskContent,
    TaskDue, TaskSeries, TaskStatus, TaskTemplate, TaskUndoKind, TaskUndoView, TimerFinishKind,
    TimerMode, TimerPhase, TimerRunState, UtcInstant,
};
use crate::error::ClientFailure;
use crate::external;
use crate::ids;
use crate::ids::{UtcTime, Uuid};
use crate::model::{
    AccountAuthResult, AccountSessionState, BillingState, FrontendSettingKey,
    OrganizationSafetyState, RealtimeTicket, SyncStatus,
};
use crate::text;

verus! {

/// Reduces the failure of a client answer to what may cross the bridge.
pub fn client_result<T>(result: Result<T, ClientFailure>) -> (r: Result<T, BridgeErrorDto>)
    ensures
        error::handed_on(result, r),
{
    match result {
        Ok(value) => Ok(value),
        Err(failure) => Err(BridgeErrorDto::from(failure)),
    }
}

/// Reads an identifier.
pub fn parse_uuid(value: &str) -> (r: Result<Uuid, BridgeErrorDto>)
    ensures
        match ids::parsed(value@) {
            Some(id) => r == Ok::<Uuid, BridgeErrorDto>(id),
            None => error::refused(r),
        },
{
    match Uuid::parse(value) {
        Some(id) => Ok(id),
        None => Err(BridgeErrorDto::invalid_input()),
    }
}

/// What an identifier that may be absent names: nothing where it is absent, and
/// `None` where it is there and cannot be read.
pub open spec fn parsed_or_absent(value: Option<String>) -> Option<Option<Uuid>> {
    match value {
        None => Some(None),
        Some(text) => match ids::parsed(text@) {
            Some(id) => Some(Some(id)),
            None => None,
        },
    }
}

/// Reads an identifier that may be absent.
pub fn parse_optional_uuid(value: &Option<String>) -> (r: Result<Option<Uuid>, BridgeErrorDto>)
    ensures
        match parsed_or_absent(*value) {
            Some(id) => r == Ok::<Option<Uuid>, BridgeErrorDto>(id),
            None => error::refused(r),
        },
{
    match value {
        None => Ok(None),
        Some(text) => match Uuid::parse(text.as_str()) {
            Some(id) => Ok(Some(id)),
            None => Err(BridgeErrorDto::invalid_input()),
        },
    }
}

/// Whether an optional text is the notation of an optional identifier.
pub open spec fn names(text: Option<String>, id: Option<Uuid>) -> bool {
    match id {
        None => text is None,
        Some(id) => text is Some && text->Some_0@ == id.text_spec(),
    }
}

fn optional_text(id: Option<Uuid>) -> (r: Option<String>)
    ensures
        names(r, id),
        parsed_or_absent(r) == Some(id),
{
    match id {
        None => None,
        Some(id) => Some(id.text()),
    }
}

/// Converts every element in order.
pub fn convert_all<T, U, F: Fn(T) -> U>(items: Vec<T>, convert: F) -> (r: Vec<U>)
    requires
        forall|i: int| 0 <= i < items@.len() ==> #[trigger] convert.requires((items@[i],)),
    ensures
        r@.len() == items@.len(),
        forall|i: int|
            0 <= i < r@.len() ==> convert.ensures((items@[i],), #[trigger] r@[i]),
{
    let ghost all = items@;
    let mut r: Vec<U> = Vec::new();
    for item in iter: items
        invariant
            iter.seq() == all,
            forall|i: int| 0 <= i < all.len() ==> #[trigger] convert.requires((all[i],)),
            r@.len() == iter.index(),
            forall|i: int| 0 <= i < r@.len() ==> convert.ensures((all[i],), #[trigger] r@[i]),
    {
        assert(item == all[iter.index() as int]);
        r.push(convert(item));
    }
    r
}

/// What an optional value shows.
pub open spec fn shows_optional<T, D>(
    value: Option<T>,
    dto: Option<D>,
    shown: spec_fn(T, D) -> bool,
) -> bool {
    match value {
        None => dto is None,
        Some(inner) => dto is Some && shown(inner, dto->Some_0),
    }
}

/// What a sequence shows, element by element.
pub open spec fn shows_all<T, D>(
    values: Seq<T>,
    dtos: Seq<D>,
    shown: spec_fn(T, D) -> bool,
) -> bool {
    &&& dtos.len() == values.len()
    &&& forall|i: int| 0 <= i < dtos.len() ==> shown(values[i], #[trigger] dtos[i])
}

impl TaskStatus {
    /// The word of a status.
    pub open spec fn word(self) -> Seq<char> {
        match self {
            TaskStatus::Todo => "todo"@,
            TaskStatus::InProgress => "in_progress"@,
            TaskStatus::Done => "done"@,
            TaskStatus::WontDo => "wont_do"@,
        }
    }
}

/// The status that a word names.
pub open spec fn status_of_word(word: Seq<char>) -> Option<TaskStatus> {
    if word == "todo"@ {
        Some(TaskStatus::Todo)
    } else if word == "in_progress"@ {
        Some(TaskStatus::InProgress)
    } else if word == "done"@ {
        Some(TaskStatus::Done)
    } else if word == "wont_do"@ {
        Some(TaskStatus::WontDo)
    } else {
        None
    }
}

pub fn parse_status(value: &str) -> (r: Result<TaskStatus, String>)
    ensures
        match status_of_word(value@) {
            Some(status) => r == Ok::<TaskStatus, String>(status),
            None => r is Err && r->Err_0@ == "invalid task status: "@ + value@,
        },
{
    if text::str_eq(value, "todo") {
        Ok(TaskStatus::Todo)
    } else if text::str_eq(value, "in_progress") {
        Ok(TaskStatus::InProgress)
    } else if text::str_eq(value, "done") {
        Ok(TaskStatus::Done)
    } else if text::str_eq(value, "wont_do") {
        Ok(TaskStatus::WontDo)
    } else {
        let mut words = String::from_str("invalid task status: ");
        words.append(value);
        Err(words)
    }
}

pub fn status_to_string(status: TaskStatus) -> (r: String)
    ensures
        r@ == status.word(),
{
    match status {
        TaskStatus::Todo => String::from_str("todo"),
        TaskStatus::InProgress => String::from_str("in_progress"),
        TaskStatus::Done => String::from_str("done"),
        TaskStatus::WontDo => String::from_str("wont_do"),
    }
}

/// Every status is read back from its word, and every word that is read is the word of
/// the status it names.
pub proof fn law_status_round_trip(status: TaskStatus, word: Seq<char>)
    ensures
        status_of_word(status.word()) == Some(status),
        status_of_word(word) matches Some(named) ==> named.word() == word,
{
    reveal_strlit("todo");
    reveal_strlit("in_progress");
    reveal_strlit("done");
    reveal_strlit("wont_do");
    assert("todo"@.len() != "in_progress"@.len());
    assert("todo"@.len() != "wont_do"@.len());
    assert("done"@.len() != "in_progress"@.len());
    assert("done"@.len() != "wont_do"@.len());
    assert("in_progress"@.len() != "wont_do"@.len());
    assert("todo"@[0] != "done"@[0]);
}


impl TaskDueDto {
    pub open spec fn shows(self, due: TaskDue) -> bool {
        match due {
            TaskDue::Date { due_on } => self == (TaskDueDto::Date { due_on }),
            TaskDue::DateTime { due_at, time_zone } => self == (TaskDueDto::DateTime {
                due_at: UtcTime::of_millis(due_at.millis_spec() as int),
                time_zone,
            }),
        }
    }
}

/// Makes a due value out of a day, which `date` reads, or out of an instant and a time
/// zone, which `date_time` checks.
pub fn parse_task_due<
    D: FnOnce(String) -> Option<TaskDue>,
    T: FnOnce(i64, String) -> Option<TaskDue>,
>(
    input: TaskDueInput,
    date: D,
    date_time: T,
) -> (r: Result<TaskDue, String>)
    requires
        due_input_valid(input),
        forall|due_on: String| #[trigger] date.requires((due_on,)),
        forall|millis: i64, time_zone: String| #[trigger] date_time.requires((millis, time_zone)),
    ensures
        due_parsed(input, date, date_time, r),
{
    match input {
        TaskDueInput::Date { due_on } => {
            let made = date(due_on);
            proof {
                assert(date.ensures((due_on,), made));
            }
            match made {
                Some(due) => Ok(due),
                None => Err(String::from_str("invalid date-only due value")),
            }
        },
        TaskDueInput::DateTime { due_at, time_zone } => {
            let millis: i64 = due_at.millis();
            let made = date_time(millis, time_zone);
            proof {
                assert(date_time.ensures((millis, time_zone), made));
            }
            match made {
                Some(due) => Ok(due),
                None => Err(String::from_str("invalid datetime due value")),
            }
        },
    }
}

/// A frontend names times of the calendar.
pub open spec fn due_input_valid(input: TaskDueInput) -> bool {
    match input {
        TaskDueInput::Date { .. } => true,
        TaskDueInput::DateTime { due_at, .. } => due_at.valid(),
    }
}

/// What comes of a due value that was asked for.
pub open spec fn due_parsed<
    D: FnOnce(String) -> Option<TaskDue>,
    T: FnOnce(i64, String) -> Option<TaskDue>,
>(
    input: TaskDueInput,
    date: D,
    date_time: T,
    r: Result<TaskDue, String>,
) -> bool {
    match input {
        TaskDueInput::Date { due_on } => exists|made: Option<TaskDue>| #[trigger]
            date.ensures((due_on,), made) && match made {
                Some(due) => r == Ok::<TaskDue, String>(due),
                None => r is Err && r->Err_0@ == "invalid date-only due value"@,
            },
        TaskDueInput::DateTime { due_at, time_zone } => exists|millis: i64, made: Option<TaskDue>|
            millis == due_at.millis_spec() && #[trigger] date_time.ensures((millis, time_zone), made)
                && match made {
                Some(due) => r == Ok::<TaskDue, String>(due),
                None => r is Err && r->Err_0@ == "invalid datetime due value"@,
            },
    }
}

/// What comes of a due value that may be absent.
pub open spec fn optional_due_parsed<
    D: FnOnce(String) -> Option<TaskDue>,
    T: FnOnce(i64, String) -> Option<TaskDue>,
>(
    input: Option<TaskDueInput>,
    date: D,
    date_time: T,
    r: Result<Option<TaskDue>, String>,
) -> bool {
    match input {
        None => r == Ok::<Option<TaskDue>, String>(None),
        Some(asked) => exists|made: Result<TaskDue, String>| #[trigger]
            due_parsed(asked, date, date_time, made) && match made {
                Ok(due) => r == Ok::<Option<TaskDue>, String>(Some(due)),
                Err(words) => r == Err::<Option<TaskDue>, String>(words),
            },
    }
}

/// Makes a due value, where one is asked for.
pub fn parse_optional_due<
    D: FnOnce(String) -> Option<TaskDue>,
    T: FnOnce(i64, String) -> Option<TaskDue>,
>(
    input: Option<TaskDueInput>,
    date: D,
    date_time: T,
) -> (r: Result<Option<TaskDue>, String>)
    requires
        input matches Some(asked) ==> due_input_valid(asked),
        forall|due_on: String| #[trigger] date.requires((due_on,)),
        forall|millis: i64, time_zone: String| #[trigger] date_time.requires((millis, time_zone)),
    ensures
        optional_due_parsed(input, date, date_time, r),
{
    match input {
        None => Ok(None),
        Some(asked) => {
            let made = parse_task_due(asked, date, date_time);
            proof {
                assert(due_parsed(asked, date, date_time, made));
            }
            match made {
                Ok(due) => Ok(Some(due)),
                Err(words) => Err(words),
            }
        },
    }
}

/// A count, where a frontend can hold it.
pub fn count_to_i32(count: usize) -> (r: Result<i32, String>)
    ensures
        count <= i32::MAX ==> r == Ok::<i32, String>(count as i32),
        count > i32::MAX ==> r is Err && r->Err_0@ == "count exceeds i32 range"@,
{
    if count <= 2_147_483_647 {
        Ok(count as i32)
    } else {
        Err(String::from_str("count exceeds i32 range"))
    }
}

/// A count, or the largest that a frontend can hold.
pub open spec fn saturated(value: usize) -> i32 {
    if value <= i32::MAX {
        value as i32
    } else {
        i32::MAX
    }
}

pub fn saturating_i32(value: usize) -> (r: i32)
    ensures
        r == saturated(value),
{
    if value <= 2_147_483_647 {
        value as i32
    } else {
        i32::MAX
    }
}

impl ListDto {
    pub open spec fn shows(self, list: List) -> bool {
        &&& self.id@ == list.id.text_spec()
        &&& self.name == list.name
        &&& self.color == list.color
        &&& self.icon == list.icon
        &&& self.sort_order == list.sort_order
        &&& self.is_default == list.is_default
        &&& self.archived_at == list.archived_at
        &&& self.created_at == list.created_at
        &&& self.updated_at == list.updated_at
    }
}

pub fn list_to_dto(list: List) -> (r: ListDto)
    ensures
        r.shows(list),
{
    ListDto {
        id: list.id.text(),
        name: list.name,
        color: list.color,
        icon: list.icon,
        sort_order: list.sort_order,
        is_default: list.is_default,
        archived_at: list.archived_at,
        created_at: list.created_at,
        updated_at: list.updated_at,
    }
}

/// Element by element, what a sequence of lists shows.
pub open spec fn shows_lists(shown: Seq<ListDto>, lists: Seq<List>) -> bool {
    &&& shown.len() == lists.len()
    &&& forall|i: int| 0 <= i < shown.len() ==> (#[trigger] shown[i]).shows(lists[i])
}

pub fn lists_to_dtos(lists: Vec<List>) -> (r: Vec<ListDto>)
    ensures
        shows_lists(r@, lists@),
{
    convert_all(lists, list_to_dto)
}

/// The calendar time of an instant.
pub fn instant_to_datetime(instant: UtcInstant) -> (r: UtcTime)
    ensures
        r == UtcTime::of_millis(instant.millis_spec() as int),
        r.valid(),
{
    let millis: i64 = instant.as_millis();
    millis_to_datetime(millis)
}

/// The calendar time of a millisecond within the calendar.
pub fn millis_to_datetime(value: i64) -> (r: UtcTime)
    requires
        domain::in_calendar(value),
    ensures
        r == UtcTime::of_millis(value as int),
        r.valid(),
{
    UtcTime::from_millis(value).unwrap()
}

pub fn task_due_to_dto(due: TaskDue) -> (r: TaskDueDto)
    ensures
        r.shows(due),
{
    match due {
        TaskDue::Date { due_on } => TaskDueDto::Date { due_on },
        TaskDue::DateTime { due_at, time_zone } => TaskDueDto::DateTime {
            due_at: instant_to_datetime(due_at),
            time_zone,
        },
    }
}

impl TaskDto {
    pub open spec fn shows(self, task: Task) -> bool {
        &&& self.id@ == task.id.text_spec()
        &&& self.list_id@ == task.list_id.text_spec()
        &&& names(self.parent_task_id, task.parent_task_id)
        &&& self.title == task.content.title
        &&& self.note == task.content.note
        &&& self.status@ == task.status.word()
        &&& self.priority == task.content.priority
        &&& match task.due {
            None => self.due is None,
            Some(due) => self.due is Some && self.due->Some_0.shows(due),
        }
        &&& self.scheduled_at == task.scheduled_at
        &&& self.estimated_minutes == task.content.estimated_minutes
        &&& self.sort_order == task.sort_order
        &&& self.completed_at == task.completed_at
        &&& self.closed_reason == task.closed_reason
        &&& self.deleted_at == task.deleted_at
        &&& names(self.assignee, task.assignee)
        &&& self.created_at == task.created_at
        &&& self.updated_at == task.updated_at
    }
}

pub fn task_to_dto(task: Task) -> (r: TaskDto)
    ensures
        r.shows(task),
{
    TaskDto {
        id: task.id.text(),
        list_id: task.list_id.text(),
        parent_task_id: optional_text(task.parent_task_id),
        title: task.content.title,
        note: task.content.note,
        status: status_to_string(task.status),
        priority: task.content.priority,
        due: match task.due {
            None => None,
            Some(due) => Some(task_due_to_dto(due)),
        },
        scheduled_at: task.scheduled_at,
        estimated_minutes: task.content.estimated_minutes,
        sort_order: task.sort_order,
        completed_at: task.completed_at,
        closed_reason: task.closed_reason,
        deleted_at: task.deleted_at,
        assignee: optional_text(task.assignee),
        created_at: task.created_at,
        updated_at: task.updated_at,
    }
}

/// Element by element, what a sequence of tasks shows.
pub open spec fn shows_tasks(shown: Seq<TaskDto>, tasks: Seq<Task>) -> bool {
    &&& shown.len() == tasks.len()
    &&& forall|i: int| 0 <= i < shown.len() ==> (#[trigger] shown[i]).shows(tasks[i])
}

pub fn tasks_to_dtos(tasks: Vec<Task>) -> (r: Vec<TaskDto>)
    ensures
        shows_tasks(r@, tasks@),
{
    convert_all(tasks, task_to_dto)
}

impl TaskBlueprintNodeDto {
    pub open spec fn shows(self, node: TaskBlueprintNode) -> bool {
        self == (TaskBlueprintNodeDto {
            node_key: node.node_key,
            parent_node_key: node.parent_node_key,
            sibling_order: node.sibling_order,
            title: node.content.title,
            note: node.content.note,
            priority: node.content.priority,
            estimated_minutes: node.content.estimated_minutes,
        })
    }
}

pub fn template_node_to_dto(node: TaskBlueprintNode) -> (r: TaskBlueprintNodeDto)
    ensures
        r.shows(node),
{
    TaskBlueprintNodeDto {
        node_key: node.node_key,
        parent_node_key: node.parent_node_key,
        sibling_order: node.sibling_order,
        title: node.content.title,
        note: node.content.note,
        priority: node.content.priority,
        estimated_minutes: node.content.estimated_minutes,
    }
}

fn template_node_from_dto(node: TaskBlueprintNodeDto) -> (r: TaskBlueprintNode)
    ensures
        node.shows(r),
{
    TaskBlueprintNode {
        node_key: node.node_key,
        parent_node_key: node.parent_node_key,
        sibling_order: node.sibling_order,
        content: TaskContent {
            title: node.title,
            note: node.note,
            priority: node.priority,
            estimated_minutes: node.estimated_minutes,
        },
    }
}

/// Element by element, what a sequence of blueprint nodes shows.
pub open spec fn shows_nodes(
    shown: Seq<TaskBlueprintNodeDto>,
    nodes: Seq<TaskBlueprintNode>,
) -> bool {
    &&& shown.len() == nodes.len()
    &&& forall|i: int| 0 <= i < shown.len() ==> (#[trigger] shown[i]).shows(nodes[i])
}

fn template_nodes_to_dtos(nodes: Vec<TaskBlueprintNode>) -> (r: Vec<TaskBlueprintNodeDto>)
    ensures
        shows_nodes(r@, nodes@),
{
    convert_all(nodes, template_node_to_dto)
}

/// Makes a blueprint of the nodes in the domain's current schema revision, and lets the
/// domain check it with `validate`.
pub fn blueprint_from_dtos<V: FnOnce(&TaskBlueprint) -> Result<(), String>>(
    nodes: Vec<TaskBlueprintNodeDto>,
    schema_revision: u32,
    validate: V,
) -> (r: Result<TaskBlueprint, String>)
    requires
        forall|blueprint: TaskBlueprint| #[trigger] validate.requires((&blueprint,)),
    ensures
        blueprint_made(nodes@, schema_revision, validate, r),
{
    let ghost shown = nodes@;
    let made = convert_all(nodes, template_node_from_dto);
    let blueprint = TaskBlueprint { schema_revision, nodes: made };
    let verdict = validate(&blueprint);
    proof {
        assert(shows_nodes(shown, blueprint.nodes@));
        assert(validate.ensures((&blueprint,), verdict));
    }
    match verdict {
        Ok(()) => Ok(blueprint),
        Err(words) => Err(words),
    }
}

/// What comes of the nodes of a blueprint: the domain sees a blueprint of these nodes
/// and of this revision, and what it says stands.
pub open spec fn blueprint_made<V: FnOnce(&TaskBlueprint) -> Result<(), String>>(
    nodes: Seq<TaskBlueprintNodeDto>,
    schema_revision: u32,
    validate: V,
    r: Result<TaskBlueprint, String>,
) -> bool {
    exists|blueprint: TaskBlueprint, verdict: Result<(), String>|
        {
            &&& blueprint.schema_revision == schema_revision
            &&& shows_nodes(nodes, blueprint.nodes@)
            &&& #[trigger] validate.ensures((&blueprint,), verdict)
            &&& match verdict {
                Ok(_) => r == Ok::<TaskBlueprint, String>(blueprint),
                Err(words) => r == Err::<TaskBlueprint, String>(words),
            }
        }
}

/// A blueprint that is made of shown nodes shows those nodes again.
pub proof fn law_blueprint_nodes_round_trip(
    nodes: Seq<TaskBlueprintNodeDto>,
    kept: Seq<TaskBlueprintNode>,
    shown: Seq<TaskBlueprintNodeDto>,
)
    requires
        shows_nodes(nodes, kept),
        shows_nodes(shown, kept),
    ensures
        shown == nodes,
{
    assert forall|i: int| 0 <= i < shown.len() implies shown[i] == nodes[i] by {
        assert(nodes[i].shows(kept[i]));
        assert(shown[i].shows(kept[i]));
    }
    assert(shown =~= nodes);
}

impl TemplateDto {
    pub open spec fn shows(self, template: TaskTemplate) -> bool {
        &&& self.id@ == template.id.text_spec()
        &&& self.name == template.name
        &&& names(self.default_list_id, template.default_list_id)
        &&& self.blueprint_revision == template.blueprint_revision
        &&& shows_nodes(self.nodes@, template.blueprint.nodes@)
        &&& self.created_at == template.created_at
        &&& self.updated_at == template.updated_at
    }
}

pub fn template_to_dto(template: TaskTemplate) -> (r: TemplateDto)
    ensures
        r.shows(template),
{
    TemplateDto {
        id: template.id.text(),
        name: template.name,
        default_list_id: optional_text(template.default_list_id),
        blueprint_revision: template.blueprint_revision,
        nodes: template_nodes_to_dtos(template.blueprint.nodes),
        created_at: template.created_at,
        updated_at: template.updated_at,
    }
}

impl TaskSeriesDto {
    pub open spec fn shows(self, series: TaskSeries) -> bool {
        &&& self.id@ == series.id.text_spec()
        &&& names(self.target_list_id, series.config.target_list_id)
        &&& shows_nodes(self.nodes@, series.config.blueprint.nodes@)
        &&& self.rrule == series.config.rrule
        &&& self.starts_at == series.config.starts_at
        &&& self.time_zone == series.config.time_zone
        &&& self.next_run_at == series.next_run_at
        &&& self.enabled == series.config.enabled
        &&& self.config_revision == series.config.config_revision
        &&& self.created_at == series.created_at
        &&& self.updated_at == series.updated_at
    }
}

pub fn task_series_to_dto(series: TaskSeries) -> (r: TaskSeriesDto)
    ensures
        r.shows(series),
{
    TaskSeriesDto {
        id: series.id.text(),
        target_list_id: optional_text(series.config.target_list_id),
        nodes: template_nodes_to_dtos(series.config.blueprint.nodes),
        rrule: series.config.rrule,
        starts_at: series.config.starts_at,
        time_zone: series.config.time_zone,
        next_run_at: series.next_run_at,
        enabled: series.config.enabled,
        config_revision: series.config.config_revision,
        created_at: series.created_at,
        updated_at: series.updated_at,
    }
}

pub fn streak_to_dto(streak: Streak) -> (r: StreakDto)
    ensures
        r == (StreakDto { current: streak.current, finalized: streak.finalized }),
{
    StreakDto { current: streak.current, finalized: streak.finalized }
}

impl SettlementSummaryDto {
    pub open spec fn shows(self, summary: SettlementSummary) -> bool {
        &&& self.generated_occurrences == summary.generated_occurrences
        &&& self.generated_tasks == summary.generated_tasks
        &&& self.has_more == summary.has_more
        &&& self.outbox_changed == summary.outbox_changed
    }
}

pub fn settlement_to_dto(summary: SettlementSummary) -> (r: SettlementSummaryDto)
    ensures
        r.shows(summary),
{
    SettlementSummaryDto {
        generated_occurrences: summary.generated_occurrences,
        generated_tasks: summary.generated_tasks,
        has_more: summary.has_more,
        outbox_changed: summary.outbox_changed,
    }
}

impl HomeTaskDto {
    pub open spec fn shows(self, home_task: HomeTaskView) -> bool {
        &&& self.task.shows(home_task.task)
        &&& self.list_name == home_task.list_name
        &&& self.is_home_target == home_task.is_home_target
    }
}

pub fn home_task_to_dto(home_task: HomeTaskView) -> (r: HomeTaskDto)
    ensures
        r.shows(home_task),
{
    HomeTaskDto {
        task: task_to_dto(home_task.task),
        list_name: home_task.list_name,
        is_home_target: home_task.is_home_target,
    }
}

impl CalendarOccurrenceKindDto {
    pub open spec fn shows(self, kind: CalendarOccurrenceKind) -> bool {
        match kind {
            CalendarOccurrenceKind::DateDue { due_on } => self
                == (CalendarOccurrenceKindDto::DateDue { due_on }),
            CalendarOccurrenceKind::DateTimeDue { due_at, time_zone } => self
                == (CalendarOccurrenceKindDto::DateTimeDue {
                due_at: UtcTime::of_millis(due_at.millis_spec() as int),
                time_zone,
            }),
            CalendarOccurrenceKind::Scheduled { scheduled_at } => self
                == (CalendarOccurrenceKindDto::Scheduled {
                scheduled_at: UtcTime::of_millis(scheduled_at.millis_spec() as int),
            }),
            CalendarOccurrenceKind::Completed { completed_at } => self
                == (CalendarOccurrenceKindDto::Completed {
                completed_at: UtcTime::of_millis(completed_at.millis_spec() as int),
            }),
        }
    }
}

impl CalendarOccurrenceDto {
    pub open spec fn shows(self, occurrence: CalendarOccurrenceView) -> bool {
        &&& self.task.shows(occurrence.task)
        &&& self.list_name == occurrence.list_name
        &&& self.list_archived == occurrence.list_archived
        &&& self.kind.shows(occurrence.kind)
    }
}

pub fn calendar_occurrence_to_dto(occurrence: CalendarOccurrenceView) -> (r: CalendarOccurrenceDto)
    ensures
        r.shows(occurrence),
{
    CalendarOccurrenceDto {
        task: task_to_dto(occurrence.task),
        list_name: occurrence.list_name,
        list_archived: occurrence.list_archived,
        kind: match occurrence.kind {
            CalendarOccurrenceKind::DateDue { due_on } => CalendarOccurrenceKindDto::DateDue {
                due_on,
            },
            CalendarOccurrenceKind::DateTimeDue { due_at, time_zone } => {
                CalendarOccurrenceKindDto::DateTimeDue {
                    due_at: instant_to_datetime(due_at),
                    time_zone,
                }
            },
            CalendarOccurrenceKind::Scheduled { scheduled_at } => {
                CalendarOccurrenceKindDto::Scheduled {
                    scheduled_at: instant_to_datetime(scheduled_at),
                }
            },
            CalendarOccurrenceKind::Completed { completed_at } => {
                CalendarOccurrenceKindDto::Completed {
                    completed_at: instant_to_datetime(completed_at),
                }
            },
        },
    }
}

/// The mode of the domain that a frontend names.
pub open spec fn meant_mode(value: TimerModeDto) -> TimerMode {
    match value {
        TimerModeDto::Pomodoro => TimerMode::Pomodoro,
        TimerModeDto::Stopwatch => TimerMode::Stopwatch,
    }
}

/// The mode as a frontend sees it.
pub open spec fn shown_mode(value: TimerMode) -> TimerModeDto {
    match value {
        TimerMode::Pomodoro => TimerModeDto::Pomodoro,
        TimerMode::Stopwatch => TimerModeDto::Stopwatch,
    }
}

pub fn parse_timer_mode(value: TimerModeDto) -> (r: TimerMode)
    ensures
        r == meant_mode(value),
{
    match value {
        TimerModeDto::Pomodoro => TimerMode::Pomodoro,
        TimerModeDto::Stopwatch => TimerMode::Stopwatch,
    }
}

pub fn timer_mode_to_dto(value: TimerMode) -> (r: TimerModeDto)
    ensures
        r == shown_mode(value),
{
    match value {
        TimerMode::Pomodoro => TimerModeDto::Pomodoro,
        TimerMode::Stopwatch => TimerModeDto::Stopwatch,
    }
}

/// The phase of the domain that a frontend names.
pub open spec fn meant_phase(value: TimerPhaseDto) -> TimerPhase {
    match value {
        TimerPhaseDto::Work => TimerPhase::Work,
        TimerPhaseDto::ShortBreak => TimerPhase::ShortBreak,
        TimerPhaseDto::LongBreak => TimerPhase::LongBreak,
    }
}

/// The phase as a frontend sees it.
pub open spec fn shown_phase(value: TimerPhase) -> TimerPhaseDto {
    match value {
        TimerPhase::Work => TimerPhaseDto::Work,
        TimerPhase::ShortBreak => TimerPhaseDto::ShortBreak,
        TimerPhase::LongBreak => TimerPhaseDto::LongBreak,
    }
}

pub fn parse_timer_phase(value: TimerPhaseDto) -> (r: TimerPhase)
    ensures
        r == meant_phase(value),
{
    match value {
        TimerPhaseDto::Work => TimerPhase::Work,
        TimerPhaseDto::ShortBreak => TimerPhase::ShortBreak,
        TimerPhaseDto::LongBreak => TimerPhase::LongBreak,
    }
}

pub fn timer_phase_to_dto(value: TimerPhase) -> (r: TimerPhaseDto)
    ensures
        r == shown_phase(value),
{
    match value {
        TimerPhase::Work => TimerPhaseDto::Work,
        TimerPhase::ShortBreak => TimerPhaseDto::ShortBreak,
        TimerPhase::LongBreak => TimerPhaseDto::LongBreak,
    }
}

/// The run state of the domain that a frontend names.
pub open spec fn meant_run_state(value: TimerRunStateDto) -> TimerRunState {
    match value {
        TimerRunStateDto::Running => TimerRunState::Running,
        TimerRunStateDto::Paused => TimerRunState::Paused,
    }
}

/// The run state as a frontend sees it.
pub open spec fn shown_run_state(value: TimerRunState) -> TimerRunStateDto {
    match value {
        TimerRunState::Running => TimerRunStateDto::Running,
        TimerRunState::Paused => TimerRunStateDto::Paused,
    }
}

pub fn parse_timer_run_state(value: TimerRunStateDto) -> (r: TimerRunState)
    ensures
        r == meant_run_state(value),
{
    match value {
        TimerRunStateDto::Running => TimerRunState::Running,
        TimerRunStateDto::Paused => TimerRunState::Paused,
    }
}

pub fn timer_run_state_to_dto(value: TimerRunState) -> (r: TimerRunStateDto)
    ensures
        r == shown_run_state(value),
{
    match value {
        TimerRunState::Running => TimerRunStateDto::Running,
        TimerRunState::Paused => TimerRunStateDto::Paused,
    }
}

/// The way to finish of the domain that a frontend names.
pub open spec fn meant_finish_kind(value: TimerFinishKindDto) -> TimerFinishKind {
    match value {
        TimerFinishKindDto::Completed => TimerFinishKind::Completed,
        TimerFinishKindDto::Interrupted => TimerFinishKind::Interrupted,
    }
}

/// The way to finish as a frontend sees it.
pub open spec fn shown_finish_kind(value: TimerFinishKind) -> TimerFinishKindDto {
    match value {
        TimerFinishKind::Completed => TimerFinishKindDto::Completed,
        TimerFinishKind::Interrupted => TimerFinishKindDto::Interrupted,
    }
}

pub fn parse_timer_finish_kind(value: TimerFinishKindDto) -> (r: TimerFinishKind)
    ensures
        r == meant_finish_kind(value),
{
    match value {
        TimerFinishKindDto::Completed => TimerFinishKind::Completed,
        TimerFinishKindDto::Interrupted => TimerFinishKind::Interrupted,
    }
}

pub fn timer_finish_kind_to_dto(value: TimerFinishKind) -> (r: TimerFinishKindDto)
    ensures
        r == shown_finish_kind(value),
{
    match value {
        TimerFinishKind::Completed => TimerFinishKindDto::Completed,
        TimerFinishKind::Interrupted => TimerFinishKindDto::Interrupted,
    }
}

impl ActiveTimerSessionDto {
    /// A frontend names times of the calendar.
    pub open spec fn valid(self) -> bool {
        &&& self.started_at.valid()
        &&& self.last_resumed_at matches Some(at) ==> at.valid()
    }

    /// The session that is meant, where the identifiers can be read.
    pub open spec fn meant(self) -> Option<ActiveTimerSession> {
        match (ids::parsed(self.session_id@), parsed_or_absent(self.task_id)) {
            (Some(session_id), Some(task_id)) => Some(
                ActiveTimerSession {
                    session_id,
                    task_id,
                    mode: meant_mode(self.mode),
                    phase: meant_phase(self.phase),
                    state: meant_run_state(self.state),
                    started_at: self.started_at.millis_spec() as i64,
                    last_resumed_at: match self.last_resumed_at {
                        None => None,
                        Some(at) => Some(at.millis_spec() as i64),
                    },
                    accumulated_active_ms: self.accumulated_active_ms,
                    target_duration_ms: self.target_duration_ms,
                },
            ),
            _ => None,
        }
    }

    pub open spec fn shows(self, session: ActiveTimerSession) -> bool {
        &&& self.session_id@ == session.session_id.text_spec()
        &&& names(self.task_id, session.task_id)
        &&& self.mode == shown_mode(session.mode)
        &&& self.phase == shown_phase(session.phase)
        &&& self.state == shown_run_state(session.state)
        &&& self.started_at == UtcTime::of_millis(session.started_at as int)
        &&& self.last_resumed_at == match session.last_resumed_at {
            None => None,
            Some(at) => Some(UtcTime::of_millis(at as int)),
        }
        &&& self.accumulated_active_ms == session.accumulated_active_ms
        &&& self.target_duration_ms == session.target_duration_ms
    }
}

pub fn parse_active_timer(value: ActiveTimerSessionDto) -> (r: Result<
    ActiveTimerSession,
    BridgeErrorDto,
>)
    requires
        value.valid(),
    ensures
        match value.meant() {
            Some(session) => r == Ok::<ActiveTimerSession, BridgeErrorDto>(session),
            None => error::refused(r),
        },
{
    let session_id = match parse_uuid(value.session_id.as_str()) {
        Ok(id) => id,
        Err(refusal) => {
            return Err(refusal);
        },
    };
    let task_id = match parse_optional_uuid(&value.task_id) {
        Ok(id) => id,
        Err(refusal) => {
            return Err(refusal);
        },
    };
    Ok(
        ActiveTimerSession {
            session_id,
            task_id,
            mode: parse_timer_mode(value.mode),
            phase: parse_timer_phase(value.phase),
            state: parse_timer_run_state(value.state),
            started_at: value.started_at.millis(),
            last_resumed_at: match value.last_resumed_at {
                None => None,
                Some(at) => Some(at.millis()),
            },
            accumulated_active_ms: value.accumulated_active_ms,
            target_duration_ms: value.target_duration_ms,
        },
    )
}

pub fn active_timer_to_dto(value: ActiveTimerSession) -> (r: ActiveTimerSessionDto)
    requires
        value.valid(),
    ensures
        r.shows(value),
        r.valid(),
        r.meant() == Some(value),
{
    let shown = ActiveTimerSessionDto {
        session_id: value.session_id.text(),
        task_id: optional_text(value.task_id),
        mode: timer_mode_to_dto(value.mode),
        phase: timer_phase_to_dto(value.phase),
        state: timer_run_state_to_dto(value.state),
        started_at: millis_to_datetime(value.started_at),
        last_resumed_at: match value.last_resumed_at {
            None => None,
            Some(at) => Some(millis_to_datetime(at)),
        },
        accumulated_active_ms: value.accumulated_active_ms,
        target_duration_ms: value.target_duration_ms,
    };
    proof {
        ids::law_millis_round_trip(value.started_at as int);
        if value.last_resumed_at is Some {
            ids::law_millis_round_trip(value.last_resumed_at->Some_0 as int);
        }
    }
    shown
}

impl CompletedTimerSessionDto {
    /// A frontend names times of the calendar.
    pub open spec fn valid(self) -> bool {
        &&& self.started_at.valid()
        &&& self.ended_at.valid()
        &&& self.created_at.valid()
    }

    /// The session that is meant, where the identifiers can be read.
    pub open spec fn meant(self) -> Option<CompletedTimerSession> {
        match (ids::parsed(self.id@), ids::parsed(self.task_id@)) {
            (Some(id), Some(task_id)) => Some(
                CompletedTimerSession {
                    id,
                    task_id,
                    mode: meant_mode(self.mode),
                    finish_kind: meant_finish_kind(self.finish_kind),
                    started_at: self.started_at.millis_spec() as i64,
                    ended_at: self.ended_at.millis_spec() as i64,
                    active_duration_ms: self.active_duration_ms,
                    created_at: self.created_at.millis_spec() as i64,
                },
            ),
            _ => None,
        }
    }

    pub open spec fn shows(self, session: CompletedTimerSession) -> bool {
        &&& self.id@ == session.id.text_spec()
        &&& self.task_id@ == session.task_id.text_spec()
        &&& self.mode == shown_mode(session.mode)
        &&& self.finish_kind == shown_finish_kind(session.finish_kind)
        &&& self.started_at == UtcTime::of_millis(session.started_at as int)
        &&& self.ended_at == UtcTime::of_millis(session.ended_at as int)
        &&& self.active_duration_ms == session.active_duration_ms
        &&& self.created_at == UtcTime::of_millis(session.created_at as int)
    }
}

pub fn parse_completed_timer(value: CompletedTimerSessionDto) -> (r: Result<
    CompletedTimerSession,
    BridgeErrorDto,
>)
    requires
        value.valid(),
    ensures
        match value.meant() {
            Some(session) => r == Ok::<CompletedTimerSession, BridgeErrorDto>(session),
            None => error::refused(r),
        },
{
    let id = match parse_uuid(value.id.as_str()) {
        Ok(id) => id,
        Err(refusal) => {
            return Err(refusal);
        },
    };
    let task_id = match parse_uuid(value.task_id.as_str()) {
        Ok(id) => id,
        Err(refusal) => {
            return Err(refusal);
        },
    };
    Ok(
        CompletedTimerSession {
            id,
            task_id,
            mode: parse_timer_mode(value.mode),
            finish_kind: parse_timer_finish_kind(value.finish_kind),
            started_at: value.started_at.millis(),
            ended_at: value.ended_at.millis(),
            active_duration_ms: value.active_duration_ms,
            created_at: value.created_at.millis(),
        },
    )
}

pub fn completed_timer_to_dto(value: CompletedTimerSession) -> (r: CompletedTimerSessionDto)
    requires
        value.valid(),
    ensures
        r.shows(value),
        r.valid(),
        r.meant() == Some(value),
{
    let shown = CompletedTimerSessionDto {
        id: value.id.text(),
        task_id: value.task_id.text(),
        mode: timer_mode_to_dto(value.mode),
        finish_kind: timer_finish_kind_to_dto(value.finish_kind),
        started_at: millis_to_datetime(value.started_at),
        ended_at: millis_to_datetime(value.ended_at),
        active_duration_ms: value.active_duration_ms,
        created_at: millis_to_datetime(value.created_at),
    };
    proof {
        ids::law_millis_round_trip(value.started_at as int);
        ids::law_millis_round_trip(value.ended_at as int);
        ids::law_millis_round_trip(value.created_at as int);
    }
    shown
}

/// Every choice that a frontend names is shown back to it, and every choice of the
/// domain is meant by what is shown of it.
pub proof fn law_timer_choices_correspond(
    mode: TimerMode,
    phase: TimerPhase,
    state: TimerRunState,
    finish: TimerFinishKind,
    mode_dto: TimerModeDto,
    phase_dto: TimerPhaseDto,
    state_dto: TimerRunStateDto,
    finish_dto: TimerFinishKindDto,
)
    ensures
        meant_mode(shown_mode(mode)) == mode,
        meant_phase(shown_phase(phase)) == phase,
        meant_run_state(shown_run_state(state)) == state,
        meant_finish_kind(shown_finish_kind(finish)) == finish,
        shown_mode(meant_mode(mode_dto)) == mode_dto,
        shown_phase(meant_phase(phase_dto)) == phase_dto,
        shown_run_state(meant_run_state(state_dto)) == state_dto,
        shown_finish_kind(meant_finish_kind(finish_dto)) == finish_dto,
{
}

impl TaskUndoKind {
    /// The word of what was done and may be undone.
    pub open spec fn word(self) -> Seq<char> {
        match self {
            TaskUndoKind::Delete => "delete"@,
            TaskUndoKind::Complete => "complete"@,
            TaskUndoKind::Edit => "edit"@,
        }
    }
}

impl TaskUndoDto {
    pub open spec fn shows(self, entry: TaskUndoView) -> bool {
        &&& self.id@ == entry.id.text_spec()
        &&& self.operation_type@ == entry.operation.word()
        &&& self.task_id@ == entry.task_id.text_spec()
        &&& self.list_id@ == entry.list_id.text_spec()
        &&& self.task_title == entry.task_title
        &&& self.created_at == entry.created_at
    }
}

pub fn task_undo_to_dto(entry: TaskUndoView) -> (r: TaskUndoDto)
    ensures
        r.shows(entry),
{
    TaskUndoDto {
        id: entry.id.text(),
        operation_type: match entry.operation {
            TaskUndoKind::Delete => String::from_str("delete"),
            TaskUndoKind::Complete => String::from_str("complete"),
            TaskUndoKind::Edit => String::from_str("edit"),
        },
        task_id: entry.task_id.text(),
        list_id: entry.list_id.text(),
        task_title: entry.task_title,
        created_at: entry.created_at,
    }
}

impl ReminderDto {
    pub open spec fn shows(self, reminder: ReminderView) -> bool {
        &&& self.id@ == reminder.id.text_spec()
        &&& self.task_id@ == reminder.task_id.text_spec()
        &&& self.remind_at == reminder.remind_at
        &&& self.snoozed_until == reminder.snoozed_until
        &&& self.created_at == reminder.created_at
    }
}

pub fn reminder_to_dto(reminder: ReminderView) -> (r: ReminderDto)
    ensures
        r.shows(reminder),
{
    ReminderDto {
        id: reminder.id.text(),
        task_id: reminder.task_id.text(),
        remind_at: reminder.remind_at,
        snoozed_until: reminder.snoozed_until,
        created_at: reminder.created_at,
    }
}

/// Element by element, what a sequence of reminders shows.
pub open spec fn shows_reminders(shown: Seq<ReminderDto>, reminders: Seq<ReminderView>) -> bool {
    &&& shown.len() == reminders.len()
    &&& forall|i: int| 0 <= i < shown.len() ==> (#[trigger] shown[i]).shows(reminders[i])
}

pub fn reminders_to_dtos(reminders: Vec<ReminderView>) -> (r: Vec<ReminderDto>)
    ensures
        shows_reminders(r@, reminders@),
{
    convert_all(reminders, reminder_to_dto)
}

impl ReminderNotificationCommandDto {
    pub open spec fn shows(self, command: ReminderNotificationCommandView) -> bool {
        &&& self.reminder_id@ == command.reminder_id.text_spec()
        &&& self.platform_id == command.platform_id
        &&& self.revision == command.revision
        &&& self.action == match command.action {
            ReminderNotificationActionView::Schedule => ReminderNotificationActionDto::Schedule,
            ReminderNotificationActionView::Cancel => ReminderNotificationActionDto::Cancel,
        }
        &&& names(self.task_id, command.task_id)
        &&& names(self.list_id, command.list_id)
        &&& self.scheduled_at == command.scheduled_at
    }
}

pub fn reminder_notification_command_to_dto(command: ReminderNotificationCommandView) -> (r:
    ReminderNotificationCommandDto)
    ensures
        r.shows(command),
{
    ReminderNotificationCommandDto {
        reminder_id: command.reminder_id.text(),
        platform_id: command.platform_id,
        revision: command.revision,
        action: match command.action {
            ReminderNotificationActionView::Schedule => ReminderNotificationActionDto::Schedule,
            ReminderNotificationActionView::Cancel => ReminderNotificationActionDto::Cancel,
        },
        task_id: optional_text(command.task_id),
        list_id: optional_text(command.list_id),
        scheduled_at: command.scheduled_at,
    }
}

/// Element by element, what a sequence of notification commands shows.
pub open spec fn shows_commands(
    shown: Seq<ReminderNotificationCommandDto>,
    commands: Seq<ReminderNotificationCommandView>,
) -> bool {
    &&& shown.len() == commands.len()
    &&& forall|i: int| 0 <= i < shown.len() ==> (#[trigger] shown[i]).shows(commands[i])
}

pub fn notification_commands_to_dtos(commands: Vec<ReminderNotificationCommandView>) -> (r: Vec<
    ReminderNotificationCommandDto,
>)
    ensures
        shows_commands(r@, commands@),
{
    convert_all(commands, reminder_notification_command_to_dto)
}

impl AccountSessionStateDto {
    pub open spec fn shows(self, session: AccountSessionState) -> bool {
        &&& self.logged_in == session.logged_in
        &&& self.email == session.email
        &&& self.user_id == session.user_id
        &&& self.tenant_id == session.tenant_id
        &&& self.device_id == session.device_id
        &&& self.recovery_pending == session.recovery_pending
    }
}

pub fn account_session_to_dto(session: AccountSessionState) -> (r: AccountSessionStateDto)
    ensures
        r.shows(session),
{
    AccountSessionStateDto {
        logged_in: session.logged_in,
        email: session.email,
        user_id: session.user_id,
        tenant_id: session.tenant_id,
        device_id: session.device_id,
        recovery_pending: session.recovery_pending,
    }
}

impl RealtimeTicketDto {
    pub open spec fn shows(self, ticket: RealtimeTicket) -> bool {
        &&& self.websocket_url == ticket.websocket_url
        &&& self.ticket == ticket.ticket
        &&& self.expires_at == ticket.expires_at
    }
}

pub fn realtime_ticket_to_dto(ticket: RealtimeTicket) -> (r: RealtimeTicketDto)
    ensures
        r.shows(ticket),
{
    RealtimeTicketDto {
        websocket_url: ticket.websocket_url,
        ticket: ticket.ticket,
        expires_at: ticket.expires_at,
    }
}

impl AccountAuthResultDto {
    pub open spec fn shows(self, result: AccountAuthResult) -> bool {
        &&& self.session.shows(result.session)
        &&& self.recovery_key == result.recovery_key
    }
}

pub fn account_auth_to_dto(result: AccountAuthResult) -> (r: AccountAuthResultDto)
    ensures
        r.shows(result),
{
    AccountAuthResultDto {
        session: account_session_to_dto(result.session),
        recovery_key: result.recovery_key,
    }
}

impl AccountRegistrationPendingDto {
    pub open spec fn shows(self, pending: AccountRegistrationPending) -> bool {
        &&& self.email == pending.email
        &&& self.expires_at_ms == pending.expires_at_ms
        &&& self.next_retry_at_ms == pending.next_retry_at_ms
    }
}

pub fn account_registration_pending_to_dto(pending: AccountRegistrationPending) -> (r:
    AccountRegistrationPendingDto)
    ensures
        r.shows(pending),
{
    AccountRegistrationPendingDto {
        email: pending.email,
        expires_at_ms: pending.expires_at_ms,
        next_retry_at_ms: pending.next_retry_at_ms,
    }
}

impl AccountRegistrationPhase {
    /// The word of what a registration waits for.
    pub open spec fn word(self) -> Seq<char> {
        match self {
            AccountRegistrationPhase::Email => "email"@,
            AccountRegistrationPhase::Otp => "otp"@,
            AccountRegistrationPhase::Password => "password"@,
        }
    }
}

impl AccountRegistrationStateDto {
    pub open spec fn shows(self, state: AccountRegistrationState) -> bool {
        &&& self.phase@ == state.phase.word()
        &&& self.email == state.email
        &&& self.expires_at_ms == state.expires_at_ms
        &&& self.next_retry_at_ms == state.next_retry_at_ms
        &&& self.can_cancel == state.can_cancel
    }
}

pub fn account_registration_state_to_dto(state: AccountRegistrationState) -> (r:
    AccountRegistrationStateDto)
    ensures
        r.shows(state),
{
    AccountRegistrationStateDto {
        phase: match state.phase {
            AccountRegistrationPhase::Email => String::from_str("email"),
            AccountRegistrationPhase::Otp => String::from_str("otp"),
            AccountRegistrationPhase::Password => String::from_str("password"),
        },
        email: state.email,
        expires_at_ms: state.expires_at_ms,
        next_retry_at_ms: state.next_retry_at_ms,
        can_cancel: state.can_cancel,
    }
}

impl BillingStateDto {
    pub open spec fn shows(self, state: BillingState) -> bool {
        &&& self.provider == state.provider
        &&& self.provider_app_user_id == state.provider_app_user_id
        &&& self.lookup_key == state.lookup_key
        &&& self.status == state.status
        &&& self.sync_allowed == state.sync_allowed
        &&& self.store_product_identifier == state.store_product_identifier
        &&& self.expires_at == state.expires_at
        &&& self.grace_expires_at == state.grace_expires_at
        &&& self.will_renew == state.will_renew
        &&& self.environment == state.environment
        &&& self.updated_at == state.updated_at
    }
}

pub fn billing_state_to_dto(state: BillingState) -> (r: BillingStateDto)
    ensures
        r.shows(state),
{
    BillingStateDto {
        provider: state.provider,
        provider_app_user_id: state.provider_app_user_id,
        lookup_key: state.lookup_key,
        status: state.status,
        sync_allowed: state.sync_allowed,
        store_product_identifier: state.store_product_identifier,
        expires_at: state.expires_at,
        grace_expires_at: state.grace_expires_at,
        will_renew: state.will_renew,
        environment: state.environment,
        updated_at: state.updated_at,
    }
}

impl OrganizationSafetyStateDto {
    pub open spec fn shows(self, state: OrganizationSafetyState) -> bool {
        &&& self.owner_user_id == state.owner_user_id
        &&& self.member_user_id == state.member_user_id
        &&& self.digest == state.digest
        &&& self.decimal == state.decimal
        &&& self.qr_payload == state.qr_payload
        &&& self.verification_state == state.verification_state
        &&& self.owner_confirmed == state.owner_confirmed
        &&& self.member_confirmed == state.member_confirmed
    }
}

pub fn organization_safety_to_dto(state: OrganizationSafetyState) -> (r: OrganizationSafetyStateDto)
    ensures
        r.shows(state),
{
    OrganizationSafetyStateDto {
        owner_user_id: state.owner_user_id,
        member_user_id: state.member_user_id,
        digest: state.digest,
        decimal: state.decimal,
        qr_payload: state.qr_payload,
        verification_state: state.verification_state,
        owner_confirmed: state.owner_confirmed,
        member_confirmed: state.member_confirmed,
    }
}

impl SyncStatusDto {
    pub open spec fn shows(self, status: SyncStatus) -> bool {
        &&& self.logged_in == status.logged_in
        &&& self.running == status.running
        &&& self.last_success_at == status.last_success_at
        &&& self.last_failure_at == status.last_failure_at
        &&& match status.last_error {
            None => self.last_error is None,
            Some(failure) => self.last_error is Some && self.last_error->Some_0.is(
                error::code_of_sync_failure(failure),
                error::sync_failure_is_retryable(failure),
            ),
        }
        &&& self.pushed_count == saturated(status.pushed_count)
        &&& self.push_acked_count == saturated(status.push_acked_count)
        &&& self.push_superseded_count == saturated(status.push_superseded_count)
        &&& self.pulled_count == saturated(status.pulled_count)
        &&& self.applied_count == saturated(status.applied_count)
        &&& self.deleted_count == saturated(status.deleted_count)
        &&& self.decrypt_failed_count == saturated(status.decrypt_failed_count)
        &&& self.repush_count == saturated(status.repush_count)
        &&& self.missing_key_quarantined_count == saturated(status.missing_key_quarantined_count)
        &&& self.corruption_quarantined_count == saturated(status.corruption_quarantined_count)
        &&& self.resolved_quarantine_count == saturated(status.resolved_quarantine_count)
        &&& self.upgrade_required == status.upgrade_required
    }
}

pub fn sync_status_to_dto(status: SyncStatus) -> (r: SyncStatusDto)
    ensures
        r.shows(status),
{
    SyncStatusDto {
        logged_in: status.logged_in,
        running: status.running,
        last_success_at: status.last_success_at,
        last_failure_at: status.last_failure_at,
        last_error: match status.last_error {
            None => None,
            Some(failure) => Some(BridgeErrorDto::from(failure)),
        },
        pushed_count: saturating_i32(status.pushed_count),
        push_acked_count: saturating_i32(status.push_acked_count),
        push_superseded_count: saturating_i32(status.push_superseded_count),
        pulled_count: saturating_i32(status.pulled_count),
        applied_count: saturating_i32(status.applied_count),
        deleted_count: saturating_i32(status.deleted_count),
        decrypt_failed_count: saturating_i32(status.decrypt_failed_count),
        repush_count: saturating_i32(status.repush_count),
        missing_key_quarantined_count: saturating_i32(status.missing_key_quarantined_count),
        corruption_quarantined_count: saturating_i32(status.corruption_quarantined_count),
        resolved_quarantine_count: saturating_i32(status.resolved_quarantine_count),
        upgrade_required: status.upgrade_required,
    }
}

impl From<FrontendSettingKeyDto> for FrontendSettingKey {
    fn from(value: FrontendSettingKeyDto) -> (r: FrontendSettingKey) {
        match value {
            FrontendSettingKeyDto::UiMode => FrontendSettingKey::UiMode,
            FrontendSettingKeyDto::OnboardingCompleted => FrontendSettingKey::OnboardingCompleted,
            FrontendSettingKeyDto::CalendarWeekStart => FrontendSettingKey::CalendarWeekStart,
            FrontendSettingKeyDto::TimerSettings => FrontendSettingKey::TimerSettings,
            FrontendSettingKeyDto::TimerRuntime => FrontendSettingKey::TimerRuntime,
        }
    }
}

impl vstd::std_specs::convert::FromSpecImpl<FrontendSettingKeyDto> for FrontendSettingKey {
    open spec fn obeys_from_spec() -> bool {
        true
    }

    open spec fn from_spec(value: FrontendSettingKeyDto) -> FrontendSettingKey {
        meant_setting(value)
    }
}

/// The setting of the client that a frontend names: the one of the same name.
pub open spec fn meant_setting(value: FrontendSettingKeyDto) -> FrontendSettingKey {
    match value {
        FrontendSettingKeyDto::UiMode => FrontendSettingKey::UiMode,
        FrontendSettingKeyDto::OnboardingCompleted => FrontendSettingKey::OnboardingCompleted,
        FrontendSettingKeyDto::CalendarWeekStart => FrontendSettingKey::CalendarWeekStart,
        FrontendSettingKeyDto::TimerSettings => FrontendSettingKey::TimerSettings,
        FrontendSettingKeyDto::TimerRuntime => FrontendSettingKey::TimerRuntime,
    }
}

/// How JSON writes one character inside a string.
pub open spec fn json_escaped(c: char) -> Seq<char> {
    if c == '"' {
        seq!['\\', '"']
    } else if c == '\\' {
        seq!['\\', '\\']
    } else if c == '\u{08}' {
        seq!['\\', 'b']
    } else if c == '\u{0c}' {
        seq!['\\', 'f']
    } else if c == '\n' {
        seq!['\\', 'n']
    } else if c == '\r' {
        seq!['\\', 'r']
    } else if c == '\t' {
        seq!['\\', 't']
    } else if c <= '\u{1f}' {
        seq![
            '\\',
            'u',
            '0',
            '0',
            external::hex_char((c as nat) / 16),
            external::hex_char((c as nat) % 16),
        ]
    } else {
        seq![c]
    }
}

/// The characters of a text as JSON writes them inside a string.
pub open spec fn json_body(text: Seq<char>) -> Seq<char>
    decreases text.len(),
{
    if text.len() == 0 {
        Seq::empty()
    } else {
        json_body(text.drop_last()) + json_escaped(text.last())
    }
}

/// A text as a JSON string.
pub fn json_string(value: &str) -> (r: String)
    ensures
        r@ == seq!['"'] + json_body(value@) + seq!['"'],
{
    let mut encoded = String::new();
    encoded.push('"');
    let chars = text::chars_of(value);
    let mut i: usize = 0;
    while i < chars.len()
        invariant
            i <= chars@.len(),
            chars@ == value@,
            encoded@ == seq!['"'] + json_body(value@.take(i as int)),
        decreases chars@.len() - i,
    {
        let character = chars[i];
        let ghost before = encoded@;
        proof {
            let longer = value@.take(i as int + 1);
            assert(longer.drop_last() =~= value@.take(i as int));
            assert(longer.last() == character);
            assert(json_body(longer) == json_body(value@.take(i as int)) + json_escaped(character));
        }
        push_json_char(&mut encoded, character);
        proof {
            assert(encoded@ =~= seq!['"'] + json_body(value@.take(i as int + 1)));
        }
        i = i + 1;
    }
    proof {
        assert(value@.take(value@.len() as int) =~= value@);
    }
    encoded.push('"');
    encoded
}

fn push_json_char(encoded: &mut String, character: char)
    ensures
        final(encoded)@ == old(encoded)@ + json_escaped(character),
{
    let mut units: Vec<char> = Vec::new();
    match character {
        '"' => {
            units.push('\\');
            units.push('"');
        },
        '\\' => {
            units.push('\\');
            units.push('\\');
        },
        '\u{08}' => {
            units.push('\\');
            units.push('b');
        },
        '\u{0c}' => {
            units.push('\\');
            units.push('f');
        },
        '\n' => {
            units.push('\\');
            units.push('n');
        },
        '\r' => {
            units.push('\\');
            units.push('r');
        },
        '\t' => {
            units.push('\\');
            units.push('t');
        },
        other => {
            if other <= '\u{1f}' {
                units.push('\\');
                units.push('u');
                units.push('0');
                units.push('0');
                units.push(hex_digit(other as u32 / 16));
                units.push(hex_digit(other as u32 % 16));
            } else {
                units.push(other);
            }
        },
    }
    assert(units@ =~= json_escaped(character));
    let mut i: usize = 0;
    while i < units.len()
        invariant
            i <= units@.len(),
            encoded@ == old(encoded)@ + units@.take(i as int),
        decreases units@.len() - i,
    {
        assert(units@.take(i as int + 1) =~= units@.take(i as int).push(units@[i as int]));
        encoded.push(units[i]);
        i = i + 1;
    }
    assert(units@.take(units@.len() as int) =~= units@);
}

fn hex_digit(value: u32) -> (r: char)
    requires
        value < 16,
    ensures
        r == external::hex_char(value as nat),
{
    if value < 10 {
        (48 + value as u8) as char
    } else {
        (87 + value as u8) as char
    }
}

/// Whether a JSON reader takes a character inside a string as it stands.
pub open spec fn json_plain(c: char) -> bool {
    c != '"' && c != '\\' && c > '\u{1f}'
}

/// The value of a lower-case hexadecimal digit.
pub open spec fn hex_value(c: char) -> Option<nat> {
    if '0' <= c <= '9' {
        Some((c as nat - 48) as nat)
    } else if 'a' <= c <= 'f' {
        Some((c as nat - 87) as nat)
    } else {
        None
    }
}

/// The character that follows a backslash, read as JSON reads it.
pub open spec fn json_short_escape(c: char) -> Option<char> {
    if c == '"' {
        Some('"')
    } else if c == '\\' {
        Some('\\')
    } else if c == 'b' {
        Some('\u{08}')
    } else if c == 'f' {
        Some('\u{0c}')
    } else if c == 'n' {
        Some('\n')
    } else if c == 'r' {
        Some('\r')
    } else if c == 't' {
        Some('\t')
    } else {
        None
    }
}

/// The first character that the inside of a JSON string stands for, and how much of
/// it is used up.
pub open spec fn json_first(body: Seq<char>) -> Option<(char, int)> {
    if body.len() == 0 {
        None
    } else if body[0] != '\\' {
        if json_plain(body[0]) {
            Some((body[0], 1))
        } else {
            None
        }
    } else if body.len() < 2 {
        None
    } else if body[1] == 'u' {
        if body.len() < 6 || body[2] != '0' || body[3] != '0' {
            None
        } else {
            match (hex_value(body[4]), hex_value(body[5])) {
                (Some(high), Some(low)) => Some(((high * 16 + low) as char, 6)),
                _ => None,
            }
        }
    } else {
        match json_short_escape(body[1]) {
            Some(c) => Some((c, 2)),
            None => None,
        }
    }
}

/// What the inside of a JSON string stands for.
pub open spec fn json_read(body: Seq<char>) -> Option<Seq<char>>
    decreases body.len(),
{
    if body.len() == 0 {
        Some(Seq::empty())
    } else {
        match json_first(body) {
            None => None,
            Some((c, used)) => match json_read(body.skip(used)) {
                None => None,
                Some(rest) => Some(seq![c] + rest),
            },
        }
    }
}

proof fn lemma_json_body_from_front(text: Seq<char>)
    requires
        text.len() > 0,
    ensures
        json_body(text) == json_escaped(text[0]) + json_body(text.skip(1)),
    decreases text.len(),
{
    if text.len() == 1 {
        assert(text.drop_last() =~= Seq::empty());
        assert(text.skip(1) =~= Seq::empty());
        assert(json_body(text.drop_last()) == Seq::<char>::empty());
        assert(json_body(text.skip(1)) == Seq::<char>::empty());
        assert(json_body(text) =~= json_escaped(text[0]) + json_body(text.skip(1)));
    } else {
        let shorter = text.drop_last();
        lemma_json_body_from_front(shorter);
        assert(shorter.skip(1) =~= text.skip(1).drop_last());
        assert(text.skip(1).last() == text.last());
        assert(json_body(text) =~= json_escaped(text[0]) + json_body(text.skip(1)));
    }
}

proof fn lemma_json_first(c: char, rest: Seq<char>)
    ensures
        json_first(json_escaped(c) + rest) == Some((c, json_escaped(c).len() as int)),
{
    let written = json_escaped(c);
    let body = written + rest;
    assert(body[0] == written[0]);
    if written.len() == 2 {
        assert(body[1] == written[1]);
    } else if written.len() == 6 {
        let high = (c as nat) / 16;
        let low = (c as nat) % 16;
        assert(hex_value(external::hex_char(high)) == Some(high));
        assert(hex_value(external::hex_char(low)) == Some(low));
        assert(body[1] == written[1] && body[2] == written[2] && body[3] == written[3]);
        assert(body[4] == written[4] && body[5] == written[5]);
    }
}

/// A text is what its JSON string stands for, so that no two texts share one.
pub proof fn law_json_string_reads_back(text: Seq<char>)
    ensures
        json_read(json_body(text)) == Some(text),
    decreases text.len(),
{
    if text.len() > 0 {
        lemma_json_body_from_front(text);
        law_json_string_reads_back(text.skip(1));
        let body = json_body(text);
        let written = json_escaped(text[0]);
        let rest = json_body(text.skip(1));
        lemma_json_first(text[0], rest);
        assert(body.skip(written.len() as int) =~= rest);
        assert(seq![text[0]] + text.skip(1) =~= text);
    }
}

} // verus!
