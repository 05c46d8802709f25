//! The plain values that cross the bridge, and what each of them shows.
use vstd::prelude::*;
use crate::bridge::error::BridgeErrorDto;
use crate::ids::UtcTime;

verus! {

/// A list; identifiers cross the bridge as text and times as milliseconds.
#[derive(Debug, Clone, PartialEq, Eq)]
pub struct ListDto {
    pub id: String,
    pub name: String,
    pub color: String,
    pub icon: String,
    pub sort_order: String,
    pub is_default: bool,
    pub archived_at: Option<i64>,
    pub created_at: i64,
    pub updated_at: i64,
}

/// A task with its content and where it stands.
#[derive(Debug, Clone, PartialEq, Eq)]
pub struct TaskDto {
    pub id: String,
    pub list_id: String,
    pub parent_task_id: Option<String>,
    pub title: String,
    pub note: String,
    pub status: String,
    pub priority: i32,
    pub due: Option<TaskDueDto>,
    pub scheduled_at: Option<i64>,
    pub estimated_minutes: Option<i32>,
    pub sort_order: String,
    pub completed_at: Option<i64>,
    pub closed_reason: Option<String>,
    pub deleted_at: Option<i64>,
    pub assignee: Option<String>,
    pub created_at: i64,
    pub updated_at: i64,
}

/// One task of a tree of tasks to be made.
#[derive(Debug, Clone, PartialEq, Eq)]
pub struct TaskBlueprintNodeDto {
    pub node_key: String,
    pub parent_node_key: Option<String>,
    pub sibling_order: u32,
    pub title: String,
    pub note: String,
    pub priority: i32,
    pub estimated_minutes: Option<i32>,
}

/// A template and the tasks that it makes.
#[derive(Debug, Clone, PartialEq, Eq)]
pub struct TemplateDto {
    pub id: String,
    pub name: String,
    pub default_list_id: Option<String>,
    pub blueprint_revision: String,
    pub nodes: Vec<TaskBlueprintNodeDto>,
    pub created_at: i64,
    pub updated_at: i64,
}

/// A series of tasks and when its next tasks are made.
#[derive(Debug, Clone, PartialEq, Eq)]
pub struct TaskSeriesDto {
    pub id: String,
    pub target_list_id: Option<String>,
    pub nodes: Vec<TaskBlueprintNodeDto>,
    pub rrule: String,
    pub starts_at: i64,
    pub time_zone: String,
    pub next_run_at: Option<i64>,
    pub enabled: bool,
    pub config_revision: String,
    pub created_at: i64,
    pub updated_at: i64,
}

#[derive(Clone, Copy, Debug, PartialEq, Eq, Structural)]
pub struct StreakDto {
    pub current: u32,
    pub finalized: bool,
}

#[derive(Clone, Copy, Debug, PartialEq, Eq, Structural)]
pub struct SettlementSummaryDto {
    pub generated_occurrences: u32,
    pub generated_tasks: u32,
    pub has_more: bool,
    pub outbox_changed: bool,
}

/// When a task is to be due, as a frontend asks for it.
#[derive(Debug, Clone, PartialEq, Eq)]
pub enum TaskDueInput {
    Date {
        due_on: String,
    },
    DateTime {
        due_at: UtcTime,
        time_zone: String,
    },
}

/// When a task is due.
#[derive(Debug, Clone, PartialEq, Eq)]
pub enum TaskDueDto {
    Date {
        due_on: String,
    },
    DateTime {
        due_at: UtcTime,
        time_zone: String,
    },
}

#[derive(Debug, Clone, PartialEq, Eq)]
pub struct TaskUndoDto {
    pub id: String,
    pub operation_type: String,
    pub task_id: String,
    pub list_id: String,
    pub task_title: String,
    pub created_at: i64,
}

#[derive(Debug, Clone, PartialEq, Eq)]
pub struct HomeTaskDto {
    pub task: TaskDto,
    pub list_name: String,
    pub is_home_target: bool,
}

/// A half-open range of calendar days and the instants that bound it.
#[derive(Debug, Clone, PartialEq, Eq)]
pub struct CalendarRangeInput {
    pub start_on: String,
    pub end_on: String,
    pub start_at: UtcTime,
    pub end_at: UtcTime,
}

#[derive(Debug, Clone, PartialEq, Eq)]
pub enum CalendarOccurrenceKindDto {
    DateDue {
        due_on: String,
    },
    DateTimeDue {
        due_at: UtcTime,
        time_zone: String,
    },
    Scheduled {
        scheduled_at: UtcTime,
    },
    Completed {
        completed_at: UtcTime,
    },
}

#[derive(Debug, Clone, PartialEq, Eq)]
pub struct CalendarOccurrenceDto {
    pub task: TaskDto,
    pub list_name: String,
    pub list_archived: bool,
    pub kind: CalendarOccurrenceKindDto,
}

#[derive(Clone, Copy, Debug, PartialEq, Eq, Structural)]
pub enum TimerModeDto {
    Pomodoro,
    Stopwatch,
}

#[derive(Clone, Copy, Debug, PartialEq, Eq, Structural)]
pub enum TimerPhaseDto {
    Work,
    ShortBreak,
    LongBreak,
}

#[derive(Clone, Copy, Debug, PartialEq, Eq, Structural)]
pub enum TimerRunStateDto {
    Running,
    Paused,
}

#[derive(Clone, Copy, Debug, PartialEq, Eq, Structural)]
pub enum TimerFinishKindDto {
    Completed,
    Interrupted,
}

#[derive(Clone, Copy, Debug, PartialEq, Eq, Structural)]
pub enum FrontendSettingKeyDto {
    UiMode,
    OnboardingCompleted,
    CalendarWeekStart,
    TimerSettings,
    TimerRuntime,
}

#[derive(Clone, Copy, Debug, PartialEq, Eq, Structural)]
pub enum ActiveTimerStartOutcomeDto {
    Started,
    Conflict,
}

#[derive(Debug, Clone, PartialEq, Eq)]
pub struct ActiveTimerSessionDto {
    pub session_id: String,
    pub task_id: Option<String>,
    pub mode: TimerModeDto,
    pub phase: TimerPhaseDto,
    pub state: TimerRunStateDto,
    pub started_at: UtcTime,
    pub last_resumed_at: Option<UtcTime>,
    pub accumulated_active_ms: i64,
    pub target_duration_ms: Option<i64>,
}

#[derive(Debug, Clone, PartialEq, Eq)]
pub struct CompletedTimerSessionDto {
    pub id: String,
    pub task_id: String,
    pub mode: TimerModeDto,
    pub finish_kind: TimerFinishKindDto,
    pub started_at: UtcTime,
    pub ended_at: UtcTime,
    pub active_duration_ms: i64,
    pub created_at: UtcTime,
}

#[derive(Debug, Clone, PartialEq, Eq)]
pub struct ReminderDto {
    pub id: String,
    pub task_id: String,
    pub remind_at: i64,
    pub snoozed_until: Option<i64>,
    pub created_at: i64,
}

#[derive(Clone, Copy, Debug, PartialEq, Eq, Structural)]
pub enum ReminderNotificationActionDto {
    Schedule,
    Cancel,
}

/// What a platform is to do with one notification.
#[derive(Debug, Clone, PartialEq, Eq)]
pub struct ReminderNotificationCommandDto {
    pub reminder_id: String,
    pub platform_id: i32,
    pub revision: i64,
    pub action: ReminderNotificationActionDto,
    pub task_id: Option<String>,
    pub list_id: Option<String>,
    pub scheduled_at: Option<i64>,
}

#[derive(Debug, Clone, PartialEq, Eq)]
pub struct AccountSessionStateDto {
    pub logged_in: bool,
    pub email: Option<String>,
    pub user_id: Option<String>,
    pub tenant_id: Option<String>,
    pub device_id: Option<String>,
    pub recovery_pending: bool,
}

pub struct AccountAuthResultDto {
    pub session: AccountSessionStateDto,
    pub recovery_key: Option<String>,
}

#[derive(Debug, Clone, PartialEq, Eq)]
pub struct AccountRegistrationPendingDto {
    pub email: String,
    pub expires_at_ms: i64,
    pub next_retry_at_ms: i64,
}

#[derive(Debug, Clone, PartialEq, Eq)]
pub struct AccountRegistrationStateDto {
    pub phase: String,
    pub email: String,
    pub expires_at_ms: i64,
    pub next_retry_at_ms: Option<i64>,
    pub can_cancel: bool,
}

#[derive(Debug, Clone, PartialEq, Eq)]
pub struct BillingStateDto {
    pub provider: String,
    pub provider_app_user_id: String,
    pub lookup_key: String,
    pub status: String,
    pub sync_allowed: bool,
    pub store_product_identifier: Option<String>,
    pub expires_at: Option<i64>,
    pub grace_expires_at: Option<i64>,
    pub will_renew: Option<bool>,
    pub environment: String,
    pub updated_at: Option<i64>,
}

/// How a sync that the user asked for went, where nothing is wrong with the client.
#[derive(Debug, Clone, PartialEq, Eq)]
pub enum SyncNowOutcomeDto {
    Synced { status: SyncStatusDto },
    BillingRequired,
}

#[derive(Debug, Clone, PartialEq, Eq)]
pub struct OrganizationSafetyStateDto {
    pub owner_user_id: String,
    pub member_user_id: String,
    pub digest: String,
    pub decimal: String,
    pub qr_payload: String,
    pub verification_state: String,
    pub owner_confirmed: bool,
    pub member_confirmed: bool,
}

pub struct RealtimeTicketDto {
    pub websocket_url: String,
    pub ticket: String,
    pub expires_at: UtcTime,
}

#[derive(Debug, Clone, PartialEq, Eq)]
pub struct SyncStatusDto {
    pub logged_in: bool,
    pub running: bool,
    pub last_success_at: Option<i64>,
    pub last_failure_at: Option<i64>,
    pub last_error: Option<BridgeErrorDto>,
    pub pushed_count: i32,
    pub push_acked_count: i32,
    pub push_superseded_count: i32,
    pub pulled_count: i32,
    pub applied_count: i32,
    pub deleted_count: i32,
    pub decrypt_failed_count: i32,
    pub repush_count: i32,
    pub missing_key_quarantined_count: i32,
    pub corruption_quarantined_count: i32,
    pub resolved_quarantine_count: i32,
    pub upgrade_required: bool,
}

} // verus!
