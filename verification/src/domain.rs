//! The task domain as the bridge and the sync store read it: lists, tasks, templates,
//! series, timers and reminders.
use vstd::prelude::*;
use crate::external::{MAX_UTC_MILLIS, MIN_UTC_MILLIS};
use crate::ids::Uuid;

verus! {

/// A millisecond since the epoch that a calendar time can show. It is checked when it
/// is made.
#[derive(Clone, Copy, Debug, PartialEq, Eq, Structural)]
pub struct UtcInstant {
    millis: i64,
}

impl UtcInstant {
    #[verifier::type_invariant]
    spec fn in_calendar(self) -> bool {
        MIN_UTC_MILLIS <= self.millis <= MAX_UTC_MILLIS
    }

    pub closed spec fn millis_spec(self) -> i64 {
        self.millis
    }

    /// The instant of a millisecond, where the calendar reaches that far.
    pub fn from_millis(millis: i64) -> (r: Option<UtcInstant>)
        ensures
            r is Some <==> MIN_UTC_MILLIS <= millis <= MAX_UTC_MILLIS,
            r matches Some(instant) ==> instant.millis_spec() == millis,
    {
        if MIN_UTC_MILLIS <= millis && millis <= MAX_UTC_MILLIS {
            Some(UtcInstant { millis })
        } else {
            None
        }
    }

    pub fn as_millis(&self) -> (r: i64)
        ensures
            r == self.millis_spec(),
            MIN_UTC_MILLIS <= r <= MAX_UTC_MILLIS,
    {
        proof {
            use_type_invariant(*self);
        }
        self.millis
    }
}

#[derive(Debug, Clone, PartialEq, Eq)]
pub struct List {
    pub id: Uuid,
    pub name: String,
    pub color: String,
    pub icon: String,
    pub sort_order: String,
    pub is_default: bool,
    pub archived_at: Option<i64>,
    pub created_at: i64,
    pub updated_at: i64,
}

#[derive(Clone, Copy, Debug, PartialEq, Eq, Structural)]
pub enum TaskStatus {
    Todo,
    InProgress,
    Done,
    WontDo,
}

/// When a task is due: on a calendar day, written as the domain writes days, or at an
/// instant that is shown in a time zone.
#[derive(Debug, Clone, PartialEq, Eq)]
pub enum TaskDue {
    Date { due_on: String },
    DateTime { due_at: UtcInstant, time_zone: String },
}

#[derive(Debug, Clone, PartialEq, Eq)]
pub struct TaskContent {
    pub title: String,
    pub note: String,
    pub priority: i32,
    pub estimated_minutes: Option<i32>,
}

#[derive(Debug, Clone, PartialEq, Eq)]
pub struct Task {
    pub id: Uuid,
    pub list_id: Uuid,
    pub parent_task_id: Option<Uuid>,
    pub content: TaskContent,
    pub status: TaskStatus,
    pub due: Option<TaskDue>,
    pub scheduled_at: Option<i64>,
    pub sort_order: String,
    pub completed_at: Option<i64>,
    pub closed_reason: Option<String>,
    pub deleted_at: Option<i64>,
    pub assignee: Option<Uuid>,
    pub created_at: i64,
    pub updated_at: i64,
}

#[derive(Debug, Clone, PartialEq, Eq)]
pub struct TaskBlueprintNode {
    pub node_key: String,
    pub parent_node_key: Option<String>,
    pub sibling_order: u32,
    pub content: TaskContent,
}

/// A tree of tasks to be made, in one of the domain's schema revisions.
#[derive(Debug, Clone, PartialEq, Eq)]
pub struct TaskBlueprint {
    pub schema_revision: u32,
    pub nodes: Vec<TaskBlueprintNode>,
}

#[derive(Debug, Clone, PartialEq, Eq)]
pub struct TaskTemplate {
    pub id: Uuid,
    pub name: String,
    pub default_list_id: Option<Uuid>,
    pub blueprint_revision: String,
    pub blueprint: TaskBlueprint,
    pub created_at: i64,
    pub updated_at: i64,
}

#[derive(Debug, Clone, PartialEq, Eq)]
pub struct TaskSeriesConfig {
    pub target_list_id: Option<Uuid>,
    pub blueprint: TaskBlueprint,
    pub rrule: String,
    pub starts_at: i64,
    pub time_zone: String,
    pub enabled: bool,
    pub config_revision: String,
}

#[derive(Debug, Clone, PartialEq, Eq)]
pub struct TaskSeries {
    pub id: Uuid,
    pub config: TaskSeriesConfig,
    pub next_run_at: Option<i64>,
    pub created_at: i64,
    pub updated_at: i64,
}

#[derive(Clone, Copy, Debug, PartialEq, Eq, Structural)]
pub struct Streak {
    pub current: u32,
    pub finalized: bool,
}

#[derive(Clone, Copy, Debug, PartialEq, Eq, Structural)]
pub struct SettlementSummary {
    pub generated_occurrences: u32,
    pub generated_tasks: u32,
    pub has_more: bool,
    pub outbox_changed: bool,
}

#[derive(Debug, Clone, PartialEq, Eq)]
pub struct HomeTaskView {
    pub task: Task,
    pub list_name: String,
    pub is_home_target: bool,
}

#[derive(Debug, Clone, PartialEq, Eq)]
pub enum CalendarOccurrenceKind {
    DateDue { due_on: String },
    DateTimeDue { due_at: UtcInstant, time_zone: String },
    Scheduled { scheduled_at: UtcInstant },
    Completed { completed_at: UtcInstant },
}

#[derive(Debug, Clone, PartialEq, Eq)]
pub struct CalendarOccurrenceView {
    pub task: Task,
    pub list_name: String,
    pub list_archived: bool,
    pub kind: CalendarOccurrenceKind,
}

#[derive(Clone, Copy, Debug, PartialEq, Eq, Structural)]
pub enum TimerMode {
    Pomodoro,
    Stopwatch,
}

#[derive(Clone, Copy, Debug, PartialEq, Eq, Structural)]
pub enum TimerPhase {
    Work,
    ShortBreak,
    LongBreak,
}

#[derive(Clone, Copy, Debug, PartialEq, Eq, Structural)]
pub enum TimerRunState {
    Running,
    Paused,
}

#[derive(Clone, Copy, Debug, PartialEq, Eq, Structural)]
pub enum TimerFinishKind {
    Completed,
    Interrupted,
}

/// Whether a calendar time can show a millisecond.
pub open spec fn in_calendar(millis: i64) -> bool {
    MIN_UTC_MILLIS <= millis <= MAX_UTC_MILLIS
}

#[derive(Clone, Copy, Debug, PartialEq, Eq, Structural)]
pub struct ActiveTimerSession {
    pub session_id: Uuid,
    pub task_id: Option<Uuid>,
    pub mode: TimerMode,
    pub phase: TimerPhase,
    pub state: TimerRunState,
    pub started_at: i64,
    pub last_resumed_at: Option<i64>,
    pub accumulated_active_ms: i64,
    pub target_duration_ms: Option<i64>,
}

impl ActiveTimerSession {
    /// The domain lets a timer start and resume only within the calendar.
    pub open spec fn valid(self) -> bool {
        &&& in_calendar(self.started_at)
        &&& self.last_resumed_at matches Some(at) ==> in_calendar(at)
    }
}

#[derive(Clone, Copy, Debug, PartialEq, Eq, Structural)]
pub struct CompletedTimerSession {
    pub id: Uuid,
    pub task_id: Uuid,
    pub mode: TimerMode,
    pub finish_kind: TimerFinishKind,
    pub started_at: i64,
    pub ended_at: i64,
    pub active_duration_ms: i64,
    pub created_at: i64,
}

impl CompletedTimerSession {
    /// The domain lets a timer start and end only within the calendar.
    pub open spec fn valid(self) -> bool {
        &&& in_calendar(self.started_at)
        &&& in_calendar(self.ended_at)
        &&& in_calendar(self.created_at)
    }
}

#[derive(Clone, Copy, Debug, PartialEq, Eq, Structural)]
pub enum TaskUndoKind {
    Delete,
    Complete,
    Edit,
}

#[derive(Debug, Clone, PartialEq, Eq)]
pub struct TaskUndoView {
    pub id: Uuid,
    pub operation: TaskUndoKind,
    pub task_id: Uuid,
    pub list_id: Uuid,
    pub task_title: String,
    pub created_at: i64,
}

#[derive(Clone, Copy, Debug, PartialEq, Eq, Structural)]
pub struct ReminderView {
    pub id: Uuid,
    pub task_id: Uuid,
    pub remind_at: i64,
    pub snoozed_until: Option<i64>,
    pub created_at: i64,
}

#[derive(Clone, Copy, Debug, PartialEq, Eq, Structural)]
pub enum ReminderNotificationActionView {
    Schedule,
    Cancel,
}

#[derive(Clone, Copy, Debug, PartialEq, Eq, Structural)]
pub struct ReminderNotificationCommandView {
    pub reminder_id: Uuid,
    pub platform_id: i32,
    pub revision: i64,
    pub action: ReminderNotificationActionView,
    pub task_id: Option<Uuid>,
    pub list_id: Option<Uuid>,
    pub scheduled_at: Option<i64>,
}

#[derive(Clone, Copy, Debug, PartialEq, Eq, Structural)]
pub enum AccountRegistrationPhase {
    Email,
    Otp,
    Password,
}

#[derive(Debug, Clone, PartialEq, Eq)]
pub struct AccountRegistrationPending {
    pub email: String,
    pub expires_at_ms: i64,
    pub next_retry_at_ms: i64,
}

#[derive(Debug, Clone, PartialEq, Eq)]
pub struct AccountRegistrationState {
    pub phase: AccountRegistrationPhase,
    pub email: String,
    pub expires_at_ms: i64,
    pub next_retry_at_ms: Option<i64>,
    pub can_cancel: bool,
}

#[derive(Debug, Clone, PartialEq, Eq)]
pub struct CreateTaskCommand {
    pub list_id: Uuid,
    pub title: String,
    pub parent_task_id: Option<Uuid>,
    pub due: Option<TaskDue>,
    pub note: Option<String>,
    pub priority: i32,
    pub scheduled_at: Option<i64>,
    pub estimated_minutes: Option<i32>,
}

#[derive(Debug, Clone, PartialEq, Eq)]
pub struct UpdateTaskCommand {
    pub task_id: Uuid,
    pub title: String,
    pub note: String,
    pub priority: i32,
    pub due: Option<TaskDue>,
    pub scheduled_at: Option<i64>,
    pub estimated_minutes: Option<i32>,
}

#[derive(Debug, Clone, PartialEq, Eq)]
pub struct SetTaskStatusCommand {
    pub task_id: Uuid,
    pub status: TaskStatus,
    pub closed_reason: Option<String>,
}

#[derive(Debug, Clone, PartialEq, Eq)]
pub struct ReorderTaskCommand {
    pub task_id: Uuid,
    pub previous_task_id: Option<Uuid>,
    pub next_task_id: Option<Uuid>,
}

#[derive(Debug, Clone, PartialEq, Eq)]
pub struct SaveTemplateCommand {
    pub task_id: Uuid,
    pub name: String,
    pub default_list_id: Option<Uuid>,
}

#[derive(Debug, Clone, PartialEq, Eq)]
pub struct CreateTemplateCommand {
    pub name: String,
    pub default_list_id: Option<Uuid>,
    pub blueprint: TaskBlueprint,
}

#[derive(Debug, Clone, PartialEq, Eq)]
pub struct UpdateTemplateCommand {
    pub template_id: Uuid,
    pub name: String,
    pub default_list_id: Option<Uuid>,
    pub blueprint: Option<TaskBlueprint>,
}

#[derive(Debug, Clone, PartialEq, Eq)]
pub struct ReplaceTaskBlueprintCommand {
    pub template_id: Uuid,
    pub task_id: Uuid,
}

#[derive(Debug, Clone, PartialEq, Eq)]
pub struct CreateTaskSeriesFromTemplateCommand {
    pub template_id: Uuid,
    pub rrule: String,
    pub starts_at: i64,
    pub time_zone: String,
}

#[derive(Debug, Clone, PartialEq, Eq)]
pub struct CreateTaskSeriesFromTaskCommand {
    pub task_id: Uuid,
    pub target_list_id: Option<Uuid>,
    pub rrule: String,
    pub starts_at: i64,
    pub time_zone: String,
}

#[derive(Debug, Clone, PartialEq, Eq)]
pub struct UpdateTaskSeriesCommand {
    pub series_id: Uuid,
    pub blueprint: TaskBlueprint,
    pub target_list_id: Option<Uuid>,
    pub rrule: String,
    pub starts_at: i64,
    pub time_zone: String,
    pub enabled: bool,
}

} // verus!
