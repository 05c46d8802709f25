use std::cell::Cell;

use taskveil::bridge::account::{
    account_login, account_logout, account_registration_ack_recovery_key,
    account_registration_begin, account_registration_begun, account_registration_cancel,
    account_registration_complete, account_registration_recovery_key, account_registration_resend,
    account_registration_state, account_registration_verify_otp, billing_bootstrap,
    confirm_organization_safety_number, get_account_session_state, get_cached_billing,
    get_realtime_ticket, get_sync_status, organization_safety_number, refresh_billing, sync_now,
    sync_now_outcome,
};
use taskveil::bridge::conversions::{
    blueprint_from_dtos, count_to_i32, json_string, parse_status, parse_task_due, parse_uuid,
    saturating_i32, status_to_string, sync_status_to_dto,
};
use taskveil::bridge::dto::{
    ActiveTimerSessionDto, ActiveTimerStartOutcomeDto, CalendarOccurrenceKindDto,
    CalendarRangeInput, CompletedTimerSessionDto, FrontendSettingKeyDto,
    ReminderNotificationActionDto, SyncNowOutcomeDto, TaskBlueprintNodeDto, TaskDueDto,
    TaskDueInput, TimerFinishKindDto, TimerModeDto, TimerPhaseDto, TimerRunStateDto,
};
use taskveil::bridge::error::{BridgeErrorCodeDto, BridgeErrorDto};
use taskveil::bridge::lists::{
    archive_list, create_list, delete_list, get_archived_lists, get_lists, rename_list,
    unarchive_list,
};
use taskveil::bridge::reminders::{
    ack_reminder_notification_command, clear_task_reminders, create_task_reminder,
    delete_reminder, get_list_reminders, get_task_reminders, get_task_subtree_reminders,
    list_pending_reminders, list_reminder_notification_commands,
    prepare_reminder_notification_reconciliation, snooze_reminder, update_reminder,
};
use taskveil::bridge::series::{
    create_task_series_from_task, create_task_series_from_template, create_template,
    delete_task_series, delete_template, get_task_series, get_task_series_streak, get_templates,
    instantiate_template, replace_template_blueprint, save_task_as_template, settle_due_series,
    update_task_series, update_template, validate_recurrence_rule,
};
use taskveil::bridge::settings::{
    get_frontend_setting, get_local_time_zone, get_sync_server_url, init_core, rotate_device_key,
    set_frontend_setting, set_sync_server_url,
};
use taskveil::bridge::tasks::{
    count_task_descendants, count_tasks_in_list, create_task, delete_task,
    get_calendar_occurrences, get_home_tasks, get_latest_task_undo, get_tasks, reorder_task,
    search_tasks, set_task_status, undo_task_operation, update_task,
};
use taskveil::bridge::timers::{
    discard_active_timer_session, finish_active_timer_session, get_active_timer_session,
    get_completed_timer_sessions, pomodoro_target_reached_at, start_active_timer_session,
    update_active_timer_session,
};
use taskveil::domain::{
    AccountRegistrationPending, AccountRegistrationPhase, AccountRegistrationState,
    ActiveTimerSession, CalendarOccurrenceKind, CalendarOccurrenceView, CompletedTimerSession,
    CreateTaskCommand, CreateTaskSeriesFromTaskCommand, CreateTaskSeriesFromTemplateCommand,
    CreateTemplateCommand, HomeTaskView, List, ReminderNotificationActionView,
    ReminderNotificationCommandView, ReminderView, ReorderTaskCommand,
    ReplaceTaskBlueprintCommand, SaveTemplateCommand, SetTaskStatusCommand, SettlementSummary,
    Streak, Task, TaskBlueprint, TaskContent, TaskDue, TaskSeries, TaskSeriesConfig, TaskStatus,
    TaskTemplate, TaskUndoKind, TaskUndoView, TimerFinishKind, TimerMode, TimerPhase,
    TimerRunState, UpdateTaskCommand, UpdateTaskSeriesCommand, UpdateTemplateCommand, UtcInstant,
};
use taskveil::error::{ClientError, ClientErrorKind, ClientFailure};
use taskveil::ids::{UtcTime, Uuid};
use taskveil::model::{
    AccountAuthResult, AccountSessionState, BillingState, FrontendSettingKey,
    OrganizationSafetyState, RealtimeTicket, SyncRunFailure, SyncStatus,
};
use taskveil::sync::{sync_status, SyncRuntimeState};

fn failure(error: ClientError, kind: ClientErrorKind, retryable: bool) -> ClientFailure {
    ClientFailure {
        error,
        kind,
        retryable,
    }
}

fn busy() -> ClientFailure {
    failure(ClientError::ProfileBusy, ClientErrorKind::Busy, true)
}

fn is_busy<T>(result: Result<T, BridgeErrorDto>) -> bool {
    matches!(
        result,
        Err(BridgeErrorDto {
            code: BridgeErrorCodeDto::Busy,
            arguments,
            retryable: true,
        }) if arguments.is_empty()
    )
}

fn is_invalid<T>(result: Result<T, BridgeErrorDto>) -> bool {
    matches!(
        result,
        Err(BridgeErrorDto {
            code: BridgeErrorCodeDto::InvalidInput,
            arguments,
            retryable: false,
        }) if arguments.is_empty()
    )
}

#[test]
fn internal_error_details_are_reduced_to_allowlisted_codes() {
    let cases = [
        (
            failure(ClientError::Unauthorized, ClientErrorKind::Unauthorized, false),
            BridgeErrorCodeDto::Unauthorized,
            false,
        ),
        (
            failure(ClientError::AccountRequest, ClientErrorKind::Internal, false),
            BridgeErrorCodeDto::Internal,
            false,
        ),
        (
            failure(
                ClientError::CredentialUnavailable,
                ClientErrorKind::CredentialUnavailable,
                false,
            ),
            BridgeErrorCodeDto::CredentialUnavailable,
            false,
        ),
        (
            failure(
                ClientError::UpgradeRequired,
                ClientErrorKind::UpgradeRequired,
                false,
            ),
            BridgeErrorCodeDto::UpgradeRequired,
            false,
        ),
        (
            failure(ClientError::ProfileBusy, ClientErrorKind::Busy, true),
            BridgeErrorCodeDto::Busy,
            true,
        ),
        (
            failure(
                ClientError::LocalKeyState,
                ClientErrorKind::CryptoUnavailable,
                false,
            ),
            BridgeErrorCodeDto::CryptoUnavailable,
            false,
        ),
        (
            failure(ClientError::Io, ClientErrorKind::StorageFailure, false),
            BridgeErrorCodeDto::StorageFailure,
            false,
        ),
    ];
    for (source, code, retryable) in cases {
        let mapped = BridgeErrorDto::from(source);
        assert_eq!(mapped.code, code);
        assert_eq!(mapped.retryable, retryable);
        assert!(mapped.arguments.is_empty());
    }
}

#[test]
fn every_kind_of_client_error_has_its_code() {
    for (kind, code) in [
        (ClientErrorKind::InvalidInput, BridgeErrorCodeDto::InvalidInput),
        (ClientErrorKind::NotFound, BridgeErrorCodeDto::NotFound),
        (ClientErrorKind::Conflict, BridgeErrorCodeDto::Conflict),
        (
            ClientErrorKind::AccountBoundUnavailable,
            BridgeErrorCodeDto::AccountBoundUnavailable,
        ),
        (
            ClientErrorKind::EntitlementRequired,
            BridgeErrorCodeDto::EntitlementRequired,
        ),
        (ClientErrorKind::LeaseLost, BridgeErrorCodeDto::LeaseLost),
        (ClientErrorKind::ClockSkew, BridgeErrorCodeDto::ClockSkew),
        (ClientErrorKind::SyncFailure, BridgeErrorCodeDto::SyncFailure),
    ] {
        assert_eq!(
            BridgeErrorDto::from(failure(ClientError::Other, kind, true)).code,
            code
        );
    }
}

#[test]
fn sync_failures_say_whether_waiting_helps() {
    for (source, code, retryable) in [
        (SyncRunFailure::Unauthorized, BridgeErrorCodeDto::Unauthorized, false),
        (SyncRunFailure::UpgradeRequired, BridgeErrorCodeDto::UpgradeRequired, false),
        (
            SyncRunFailure::EntitlementRequired,
            BridgeErrorCodeDto::EntitlementRequired,
            false,
        ),
        (SyncRunFailure::SyncLeaseBusy, BridgeErrorCodeDto::Busy, true),
        (SyncRunFailure::DatabaseBusy, BridgeErrorCodeDto::Busy, true),
        (SyncRunFailure::ProfileBusy, BridgeErrorCodeDto::Busy, true),
        (SyncRunFailure::CredentialBusy, BridgeErrorCodeDto::Busy, true),
        (SyncRunFailure::LeaseLost, BridgeErrorCodeDto::LeaseLost, true),
        (SyncRunFailure::ClockSkewRetryable, BridgeErrorCodeDto::ClockSkew, true),
        (
            SyncRunFailure::CredentialUnavailable,
            BridgeErrorCodeDto::CredentialUnavailable,
            false,
        ),
        (
            SyncRunFailure::AccountBoundUnavailable,
            BridgeErrorCodeDto::AccountBoundUnavailable,
            false,
        ),
        (SyncRunFailure::SyncFailed, BridgeErrorCodeDto::SyncFailure, true),
    ] {
        let mapped = BridgeErrorDto::from(source);
        assert_eq!((mapped.code, mapped.retryable), (code, retryable));
        assert!(mapped.arguments.is_empty());
    }
}

/// The half-open ranges of the domain: days in full notation, and an order.
fn make_range(
    start_on: String,
    end_on: String,
    start_at: i64,
    end_at: i64,
) -> Option<(String, String, i64, i64)> {
    let is_day = |day: &String| {
        day.len() == 10
            && day
                .bytes()
                .enumerate()
                .all(|(i, byte)| if i == 4 || i == 7 { byte == b'-' } else { byte.is_ascii_digit() })
    };
    if is_day(&start_on) && is_day(&end_on) && start_on < end_on && start_at < end_at {
        Some((start_on, end_on, start_at, end_at))
    } else {
        None
    }
}

fn at(millis: i64) -> UtcTime {
    UtcTime::from_millis(millis).unwrap()
}

#[test]
fn calendar_bridge_rejects_invalid_or_reversed_half_open_ranges_before_client_access() {
    let start = at(1_773_035_600_000);
    let end = at(1_773_118_400_000);
    let asked = Cell::new(0);
    let client = || {
        Ok(|_range: (String, String, i64, i64)| {
            asked.set(asked.get() + 1);
            Ok(Vec::new())
        })
    };

    let invalid_date = get_calendar_occurrences(
        client(),
        make_range,
        CalendarRangeInput {
            start_on: "2026-03-8".into(),
            end_on: "2026-03-09".into(),
            start_at: start,
            end_at: end,
        },
    );
    assert!(matches!(
        invalid_date,
        Err(BridgeErrorDto {
            code: BridgeErrorCodeDto::InvalidInput,
            arguments,
            retryable: false,
        }) if arguments.is_empty()
    ));

    let reversed = get_calendar_occurrences(
        client(),
        make_range,
        CalendarRangeInput {
            start_on: "2026-03-09".into(),
            end_on: "2026-03-08".into(),
            start_at: start,
            end_at: end,
        },
    );
    assert!(matches!(
        reversed,
        Err(BridgeErrorDto {
            code: BridgeErrorCodeDto::InvalidInput,
            arguments,
            retryable: false,
        }) if arguments.is_empty()
    ));
    assert_eq!(asked.get(), 0);
}

#[test]
fn a_calendar_range_reaches_the_client_in_milliseconds() {
    let seen = Cell::new((0, 0));
    let occurrences = get_calendar_occurrences(
        Ok(|range: (String, String, i64, i64)| {
            seen.set((range.2, range.3));
            Ok(vec![CalendarOccurrenceView {
                task: task("6a"),
                list_name: "Inbox".to_string(),
                list_archived: true,
                kind: CalendarOccurrenceKind::Scheduled {
                    scheduled_at: UtcInstant::from_millis(-1).unwrap(),
                },
            }])
        }),
        make_range,
        CalendarRangeInput {
            start_on: "2026-03-08".into(),
            end_on: "2026-03-09".into(),
            start_at: at(1_773_035_600_123),
            end_at: at(1_773_118_400_000),
        },
    )
    .unwrap();
    assert_eq!(seen.get(), (1_773_035_600_123, 1_773_118_400_000));
    assert_eq!(occurrences.len(), 1);
    assert!(occurrences[0].list_archived);
    assert_eq!(
        occurrences[0].kind,
        CalendarOccurrenceKindDto::Scheduled {
            scheduled_at: UtcTime {
                seconds: -1,
                nanos: 999_000_000
            }
        }
    );
}

const ID: &str = "00000000-0000-0000-0000-0000000000aa";

fn id() -> String {
    ID.to_string()
}

fn list(name: &str) -> List {
    List {
        id: Uuid { value: 0xaa },
        name: name.to_string(),
        color: "red".to_string(),
        icon: "inbox".to_string(),
        sort_order: "a0".to_string(),
        is_default: true,
        archived_at: Some(3),
        created_at: 1,
        updated_at: 2,
    }
}

#[test]
fn lists_cross_the_bridge_as_they_are() {
    let made = create_list(
        Ok(|name: String| Ok(list(&name))),
        "Home".to_string(),
        "ignored".to_string(),
    )
    .unwrap();
    assert_eq!(made.id, ID);
    assert_eq!(made.name, "Home");
    assert_eq!(made.sort_order, "a0");
    assert_eq!(made.archived_at, Some(3));
    assert!(made.is_default);

    let lists = get_lists(Ok(|| Ok(vec![list("one"), list("two")]))).unwrap();
    assert_eq!(lists.len(), 2);
    assert_eq!(lists[1].name, "two");
    assert!(get_archived_lists(Ok(|| Ok(Vec::new()))).unwrap().is_empty());
    let renamed = rename_list(
        Ok(|id: Uuid, name: String| {
            assert_eq!(id, Uuid { value: 0xaa });
            Ok(list(&name))
        }),
        "000000000000000000000000000000AA".to_string(),
        "Work".to_string(),
    )
    .unwrap();
    assert_eq!(renamed.name, "Work");
    assert!(archive_list(Ok(|_id: Uuid| Ok(list("x"))), id()).is_ok());
    assert!(unarchive_list(Ok(|_id: Uuid| Ok(list("x"))), id()).is_ok());
    assert!(delete_list(Ok(|_id: Uuid| Ok(())), id()).is_ok());
}

type NoList = fn(Uuid) -> Result<List, ClientFailure>;
type NoUnit = fn(Uuid) -> Result<(), ClientFailure>;

#[test]
fn inputs_are_read_before_or_after_the_client_is_reached() {
    assert!(is_invalid(archive_list(
        Err::<NoList, ClientFailure>(busy()),
        "no identifier".to_string()
    )));
    assert!(is_busy(archive_list(Err::<NoList, ClientFailure>(busy()), id())));
    assert!(is_busy(delete_template(
        Err::<NoUnit, ClientFailure>(busy()),
        "no identifier".to_string()
    )));
    assert!(is_invalid(delete_template(
        Ok(|_id: Uuid| Ok(())),
        "no identifier".to_string()
    )));
    assert!(is_busy(delete_task_series(Ok(|_id: Uuid| Err(busy())), id())));
    assert!(is_busy(delete_task(Ok(|_id: Uuid| Err(busy())), id())));
}

fn task(status: &str) -> Task {
    Task {
        id: Uuid { value: 0xaa },
        list_id: Uuid { value: 2 },
        parent_task_id: Some(Uuid { value: 3 }),
        content: TaskContent {
            title: status.to_string(),
            note: "note".to_string(),
            priority: 4,
            estimated_minutes: Some(30),
        },
        status: TaskStatus::WontDo,
        due: Some(TaskDue::DateTime {
            due_at: UtcInstant::from_millis(1_500).unwrap(),
            time_zone: "Asia/Tokyo".to_string(),
        }),
        scheduled_at: Some(5),
        sort_order: "a0".to_string(),
        completed_at: None,
        closed_reason: Some("done elsewhere".to_string()),
        deleted_at: None,
        assignee: None,
        created_at: 6,
        updated_at: 7,
    }
}

#[test]
fn tasks_cross_the_bridge_as_they_are() {
    let tasks = get_tasks(Ok(|_id: Uuid| Ok(vec![task("title")])), id()).unwrap();
    let shown = &tasks[0];
    assert_eq!(shown.id, ID);
    assert_eq!(shown.list_id, "00000000-0000-0000-0000-000000000002");
    assert_eq!(
        shown.parent_task_id.as_deref(),
        Some("00000000-0000-0000-0000-000000000003")
    );
    assert_eq!(shown.title, "title");
    assert_eq!(shown.status, "wont_do");
    assert_eq!(
        shown.due,
        Some(TaskDueDto::DateTime {
            due_at: UtcTime {
                seconds: 1,
                nanos: 500_000_000
            },
            time_zone: "Asia/Tokyo".to_string()
        })
    );
    assert_eq!(shown.estimated_minutes, Some(30));
    assert_eq!(shown.assignee, None);

    let found = search_tasks(
        Ok(|query: String| Ok(vec![task(&query)])),
        "milk".to_string(),
    )
    .unwrap();
    assert_eq!(found[0].title, "milk");
    let home = get_home_tasks(
        Ok(|start: i64, end: i64| {
            assert_eq!((start, end), (1, 2));
            Ok(vec![HomeTaskView {
                task: task("home"),
                list_name: "Inbox".to_string(),
                is_home_target: true,
            }])
        }),
        1,
        2,
    )
    .unwrap();
    assert_eq!(home[0].list_name, "Inbox");
    assert!(home[0].is_home_target);
    assert!(undo_task_operation(Ok(|_id: Uuid| Ok(task("x"))), id()).is_ok());
}

fn date(due_on: String) -> Option<TaskDue> {
    if due_on == "2026-03-09" {
        Some(TaskDue::Date { due_on })
    } else {
        None
    }
}

fn date_time(millis: i64, time_zone: String) -> Option<TaskDue> {
    match UtcInstant::from_millis(millis) {
        Some(due_at) if time_zone == "UTC" => Some(TaskDue::DateTime { due_at, time_zone }),
        _ => None,
    }
}

#[test]
fn a_task_is_made_from_what_was_asked() {
    let made = create_task(
        Ok(|command: CreateTaskCommand| {
            assert_eq!(command.list_id, Uuid { value: 0xaa });
            assert_eq!(command.parent_task_id, None);
            assert_eq!(command.priority, 0);
            assert_eq!(
                command.due,
                Some(TaskDue::Date {
                    due_on: "2026-03-09".to_string()
                })
            );
            Ok(task(&command.title))
        }),
        date,
        date_time,
        id(),
        "Buy milk".to_string(),
        None,
        Some(TaskDueInput::Date {
            due_on: "2026-03-09".to_string(),
        }),
        None,
        None,
        None,
        None,
    )
    .unwrap();
    assert_eq!(made.title, "Buy milk");
    assert!(is_invalid(create_task(
        Ok(|_command: CreateTaskCommand| Ok(task("x"))),
        date,
        date_time,
        id(),
        "Buy milk".to_string(),
        None,
        Some(TaskDueInput::DateTime {
            due_at: at(5),
            time_zone: "Nowhere".to_string(),
        }),
        None,
        Some(1),
        None,
        None,
    )));
    let changed = update_task(
        Ok(|command: UpdateTaskCommand| {
            assert_eq!(command.priority, 3);
            assert_eq!(
                command.due,
                Some(TaskDue::DateTime {
                    due_at: UtcInstant::from_millis(5).unwrap(),
                    time_zone: "UTC".to_string()
                })
            );
            Ok(task(&command.note))
        }),
        date,
        date_time,
        id(),
        "title".to_string(),
        "note".to_string(),
        3,
        Some(TaskDueInput::DateTime {
            due_at: at(5),
            time_zone: "UTC".to_string(),
        }),
        None,
        None,
    )
    .unwrap();
    assert_eq!(changed.title, "note");
    assert!(is_invalid(reorder_task(
        Ok(|_command: ReorderTaskCommand| Ok(task("x"))),
        id(),
        Some("bad".to_string()),
        None
    )));
    assert!(reorder_task(
        Ok(|command: ReorderTaskCommand| {
            assert_eq!(command.next_task_id, Some(Uuid { value: 0xaa }));
            Ok(task("x"))
        }),
        id(),
        None,
        Some(id())
    )
    .is_ok());
    assert!(set_task_status(
        Ok(|command: SetTaskStatusCommand| {
            assert_eq!(command.status, TaskStatus::InProgress);
            Ok(task("x"))
        }),
        id(),
        "in_progress".to_string(),
        None
    )
    .is_ok());
    assert!(is_invalid(set_task_status(
        Ok(|_command: SetTaskStatusCommand| Ok(task("x"))),
        id(),
        "started".to_string(),
        None
    )));
}

#[test]
fn due_values_that_are_refused_say_which_kind_they_are() {
    assert!(matches!(
        parse_task_due(
            TaskDueInput::Date {
                due_on: "yesterday".to_string()
            },
            date,
            date_time
        ),
        Err(words) if words == "invalid date-only due value"
    ));
    assert!(matches!(
        parse_task_due(
            TaskDueInput::DateTime {
                due_at: at(0),
                time_zone: "Nowhere".to_string()
            },
            date,
            date_time
        ),
        Err(words) if words == "invalid datetime due value"
    ));
}

#[test]
fn statuses_are_read_back_from_their_words() {
    for (status, word) in [
        (TaskStatus::Todo, "todo"),
        (TaskStatus::InProgress, "in_progress"),
        (TaskStatus::Done, "done"),
        (TaskStatus::WontDo, "wont_do"),
    ] {
        assert_eq!(status_to_string(status), word);
        assert_eq!(parse_status(word), Ok(status));
    }
    assert_eq!(
        parse_status("Done"),
        Err("invalid task status: Done".to_string())
    );
    assert!(is_invalid(parse_uuid("x")));
    assert_eq!(parse_uuid(ID), Ok(Uuid { value: 0xaa }));
}

#[test]
fn counts_stop_at_what_a_frontend_can_hold() {
    assert_eq!(count_to_i32(i32::MAX as usize), Ok(i32::MAX));
    assert_eq!(
        count_to_i32(i32::MAX as usize + 1),
        Err("count exceeds i32 range".to_string())
    );
    assert_eq!(saturating_i32(7), 7);
    assert_eq!(saturating_i32(usize::MAX), i32::MAX);
    assert_eq!(count_task_descendants(Ok(|_id: Uuid| Ok(3)), id()), Ok(3));
    assert!(is_invalid(count_tasks_in_list(
        Ok(|_id: Uuid| Ok(usize::MAX)),
        id()
    )));
    assert!(is_busy(count_tasks_in_list(Ok(|_id: Uuid| Err(busy())), id())));
}

#[test]
fn the_last_operation_can_be_undone() {
    for (operation, word) in [
        (TaskUndoKind::Delete, "delete"),
        (TaskUndoKind::Complete, "complete"),
        (TaskUndoKind::Edit, "edit"),
    ] {
        let entry = get_latest_task_undo(Ok(|| {
            Ok(Some(TaskUndoView {
                id: Uuid { value: 0xaa },
                operation,
                task_id: Uuid { value: 1 },
                list_id: Uuid { value: 2 },
                task_title: "title".to_string(),
                created_at: 9,
            }))
        }))
        .unwrap()
        .unwrap();
        assert_eq!(entry.operation_type, word);
        assert_eq!(entry.task_title, "title");
    }
    assert!(get_latest_task_undo(Ok(|| Ok(None))).unwrap().is_none());
}

fn node(key: &str) -> TaskBlueprintNodeDto {
    TaskBlueprintNodeDto {
        node_key: key.to_string(),
        parent_node_key: Some("root".to_string()),
        sibling_order: 2,
        title: "title".to_string(),
        note: String::new(),
        priority: 1,
        estimated_minutes: None,
    }
}

fn template(name: &str, blueprint: TaskBlueprint) -> TaskTemplate {
    TaskTemplate {
        id: Uuid { value: 0xaa },
        name: name.to_string(),
        default_list_id: Some(Uuid { value: 4 }),
        blueprint_revision: "r1".to_string(),
        blueprint,
        created_at: 1,
        updated_at: 2,
    }
}

fn empty_blueprint() -> TaskBlueprint {
    TaskBlueprint {
        schema_revision: 1,
        nodes: Vec::new(),
    }
}

fn series(enabled: bool, blueprint: TaskBlueprint) -> TaskSeries {
    TaskSeries {
        id: Uuid { value: 0xaa },
        config: TaskSeriesConfig {
            target_list_id: None,
            blueprint,
            rrule: "FREQ=DAILY".to_string(),
            starts_at: 10,
            time_zone: "UTC".to_string(),
            enabled,
            config_revision: "c1".to_string(),
        },
        next_run_at: Some(11),
        created_at: 1,
        updated_at: 2,
    }
}

fn validate(blueprint: &TaskBlueprint) -> Result<(), String> {
    if blueprint.nodes.is_empty() {
        Err("blueprint has no nodes".to_string())
    } else {
        Ok(())
    }
}

#[test]
fn blueprints_are_checked_before_they_reach_the_client() {
    let made = blueprint_from_dtos(vec![node("a")], 3, validate).unwrap();
    assert_eq!(made.schema_revision, 3);
    assert_eq!(made.nodes[0].content.title, "title");
    assert_eq!(
        blueprint_from_dtos(Vec::new(), 3, validate),
        Err("blueprint has no nodes".to_string())
    );
    let shown = create_template(
        Ok(|command: CreateTemplateCommand| {
            assert_eq!(command.default_list_id, Some(Uuid { value: 0xaa }));
            Ok(template(&command.name, command.blueprint))
        }),
        1,
        validate,
        "Weekly".to_string(),
        Some(id()),
        vec![node("a"), node("b")],
    )
    .unwrap();
    assert_eq!(shown.name, "Weekly");
    assert_eq!(shown.nodes, vec![node("a"), node("b")]);
    assert_eq!(
        shown.default_list_id.as_deref(),
        Some("00000000-0000-0000-0000-000000000004")
    );
    assert!(is_invalid(create_template(
        Ok(|command: CreateTemplateCommand| Ok(template(&command.name, command.blueprint))),
        1,
        validate,
        "Weekly".to_string(),
        None,
        Vec::new(),
    )));
    let updated = update_template(
        Ok(|command: UpdateTemplateCommand| {
            Ok(template(&command.name, command.blueprint.unwrap()))
        }),
        1,
        validate,
        id(),
        "Monthly".to_string(),
        None,
        vec![node("c")],
    )
    .unwrap();
    assert_eq!(updated.nodes, vec![node("c")]);
    let changed = update_task_series(
        Ok(|command: UpdateTaskSeriesCommand| Ok(series(command.enabled, command.blueprint))),
        1,
        validate,
        id(),
        None,
        vec![node("d")],
        "FREQ=DAILY".to_string(),
        10,
        "UTC".to_string(),
        true,
    )
    .unwrap();
    assert!(changed.enabled);
    assert_eq!(changed.nodes, vec![node("d")]);
    assert_eq!(changed.next_run_at, Some(11));
}

#[test]
fn templates_and_series_cross_the_bridge_as_they_are() {
    let templates =
        get_templates(Ok(|| Ok(vec![template("one", empty_blueprint())]))).unwrap();
    assert_eq!(templates[0].name, "one");
    let all = get_task_series(Ok(|| Ok(vec![series(false, empty_blueprint())]))).unwrap();
    assert_eq!(all[0].rrule, "FREQ=DAILY");
    assert!(!all[0].enabled);
    assert_eq!(
        validate_recurrence_rule(
            Ok(|rule: String, _at: i64, _zone: String| Ok(rule)),
            "FREQ=DAILY".to_string(),
            0,
            "UTC".to_string()
        ),
        Ok("FREQ=DAILY".to_string())
    );
    assert!(save_task_as_template(
        Ok(|command: SaveTemplateCommand| Ok(template(&command.name, empty_blueprint()))),
        id(),
        "name".to_string(),
        None
    )
    .is_ok());
    assert!(replace_template_blueprint(
        Ok(|command: ReplaceTaskBlueprintCommand| {
            assert_eq!(command.template_id, command.task_id);
            Ok(template("x", empty_blueprint()))
        }),
        id(),
        id()
    )
    .is_ok());
    assert_eq!(
        instantiate_template(Ok(|_id: Uuid| Ok(vec![task("t")])), id())
            .unwrap()
            .len(),
        1
    );
    assert!(create_task_series_from_template(
        Ok(|command: CreateTaskSeriesFromTemplateCommand| {
            assert_eq!(command.starts_at, 10);
            Ok(series(true, empty_blueprint()))
        }),
        id(),
        "FREQ=DAILY".to_string(),
        10,
        "UTC".to_string()
    )
    .is_ok());
    assert!(create_task_series_from_task(
        Ok(|command: CreateTaskSeriesFromTaskCommand| {
            assert_eq!(command.target_list_id, Some(Uuid { value: 0xaa }));
            Ok(series(true, empty_blueprint()))
        }),
        id(),
        Some(id()),
        "FREQ=DAILY".to_string(),
        10,
        "UTC".to_string()
    )
    .is_ok());
    let settled = settle_due_series(
        Ok(|_at: i64| {
            Ok(SettlementSummary {
                generated_occurrences: 1,
                generated_tasks: 2,
                has_more: true,
                outbox_changed: false,
            })
        }),
        5,
    )
    .unwrap();
    assert_eq!(settled.generated_tasks, 2);
    assert!(settled.has_more);
    let streak = get_task_series_streak(
        Ok(|_id: Uuid, _at: i64| {
            Ok(Streak {
                current: 9,
                finalized: true,
            })
        }),
        id(),
        5,
    )
    .unwrap();
    assert_eq!(streak.current, 9);
    assert!(streak.finalized);
}

fn active_dto() -> ActiveTimerSessionDto {
    ActiveTimerSessionDto {
        session_id: id(),
        task_id: None,
        mode: TimerModeDto::Pomodoro,
        phase: TimerPhaseDto::LongBreak,
        state: TimerRunStateDto::Paused,
        started_at: at(1_234),
        last_resumed_at: Some(at(-1)),
        accumulated_active_ms: 77,
        target_duration_ms: None,
    }
}

#[test]
fn timers_are_read_and_shown() {
    let meant: Cell<Option<ActiveTimerSession>> = Cell::new(None);
    assert_eq!(
        start_active_timer_session(
            Ok(|session: ActiveTimerSession| {
                meant.set(Some(session));
                Ok(())
            }),
            active_dto()
        ),
        Ok(ActiveTimerStartOutcomeDto::Started)
    );
    let session = meant.get().unwrap();
    assert_eq!(session.session_id, Uuid { value: 0xaa });
    assert_eq!(session.mode, TimerMode::Pomodoro);
    assert_eq!(session.phase, TimerPhase::LongBreak);
    assert_eq!(session.state, TimerRunState::Paused);
    assert_eq!(session.started_at, 1_234);
    assert_eq!(session.last_resumed_at, Some(-1));
    let shown = get_active_timer_session(Ok(|| Ok(Some(session)))).unwrap();
    assert_eq!(shown, Some(active_dto()));
    assert_eq!(
        start_active_timer_session(
            Ok(|_session: ActiveTimerSession| {
                Err(failure(
                    ClientError::ActiveTimerConflict,
                    ClientErrorKind::Conflict,
                    false,
                ))
            }),
            active_dto()
        ),
        Ok(ActiveTimerStartOutcomeDto::Conflict)
    );
    assert!(is_busy(start_active_timer_session(
        Ok(|_session: ActiveTimerSession| Err(busy())),
        active_dto()
    )));
    let mut broken = active_dto();
    broken.task_id = Some("x".to_string());
    assert!(is_invalid(update_active_timer_session(
        Ok(|_session: ActiveTimerSession| Ok(())),
        broken
    )));
    assert_eq!(
        discard_active_timer_session(Ok(|_id: Uuid| Ok(true)), id()),
        Ok(true)
    );
}

#[test]
fn a_target_is_reached_at_a_calendar_time() {
    assert_eq!(
        pomodoro_target_reached_at(
            |session: &ActiveTimerSession| Some(session.started_at + 1),
            active_dto()
        ),
        Ok(UtcTime {
            seconds: 1,
            nanos: 235_000_000
        })
    );
    assert!(is_invalid(pomodoro_target_reached_at(
        |_session: &ActiveTimerSession| Some(i64::MAX),
        active_dto()
    )));
    assert!(is_invalid(pomodoro_target_reached_at(
        |_session: &ActiveTimerSession| None,
        active_dto()
    )));
}

#[test]
fn finished_sessions_are_read_and_shown() {
    let dto = CompletedTimerSessionDto {
        id: id(),
        task_id: id(),
        mode: TimerModeDto::Stopwatch,
        finish_kind: TimerFinishKindDto::Interrupted,
        started_at: at(1),
        ended_at: at(2),
        active_duration_ms: 1,
        created_at: at(3),
    };
    let meant: Cell<Option<CompletedTimerSession>> = Cell::new(None);
    assert_eq!(
        finish_active_timer_session(
            Ok(|session: CompletedTimerSession| {
                meant.set(Some(session));
                Ok(false)
            }),
            dto.clone()
        ),
        Ok(false)
    );
    let session = meant.get().unwrap();
    assert_eq!(session.finish_kind, TimerFinishKind::Interrupted);
    assert_eq!(session.ended_at, 2);
    let shown = get_completed_timer_sessions(Ok(|_id: Uuid| Ok(vec![session])), id()).unwrap();
    assert_eq!(shown, vec![dto]);
}

fn reminder(remind_at: i64) -> ReminderView {
    ReminderView {
        id: Uuid { value: 0xaa },
        task_id: Uuid { value: 1 },
        remind_at,
        snoozed_until: None,
        created_at: 4,
    }
}

#[test]
fn reminders_cross_the_bridge_as_they_are() {
    let set = create_task_reminder(Ok(|_id: Uuid, at: i64| Ok(reminder(at))), id(), 50).unwrap();
    assert_eq!(set.id, ID);
    assert_eq!(set.remind_at, 50);
    assert!(update_reminder(Ok(|_id: Uuid, at: i64| Ok(reminder(at))), id(), 51).is_ok());
    assert!(snooze_reminder(Ok(|_id: Uuid, at: i64| Ok(reminder(at))), id(), 52).is_ok());
    assert!(delete_reminder(Ok(|_id: Uuid| Ok(reminder(1))), id()).is_ok());
    let two = || Ok(|_id: Uuid| Ok(vec![reminder(1), reminder(2)]));
    assert_eq!(clear_task_reminders(two(), id()).unwrap().len(), 2);
    assert_eq!(get_task_reminders(two(), id()).unwrap()[1].remind_at, 2);
    assert_eq!(get_task_subtree_reminders(two(), id()).unwrap().len(), 2);
    assert_eq!(get_list_reminders(two(), id()).unwrap().len(), 2);
    assert!(is_invalid(get_list_reminders(two(), "x".to_string())));
    assert!(list_pending_reminders(Ok(|_now: i64| Ok(Vec::new())), 9)
        .unwrap()
        .is_empty());
    let commands = list_reminder_notification_commands(
        Ok(|now: i64, limit: usize| {
            assert_eq!((now, limit), (9, 20));
            Ok(vec![ReminderNotificationCommandView {
                reminder_id: Uuid { value: 0xaa },
                platform_id: -3,
                revision: 8,
                action: ReminderNotificationActionView::Cancel,
                task_id: None,
                list_id: Some(Uuid { value: 5 }),
                scheduled_at: None,
            }])
        }),
        9,
        20,
    )
    .unwrap();
    assert_eq!(commands[0].action, ReminderNotificationActionDto::Cancel);
    assert_eq!(commands[0].platform_id, -3);
    assert_eq!(
        commands[0].list_id.as_deref(),
        Some("00000000-0000-0000-0000-000000000005")
    );
    assert!(
        prepare_reminder_notification_reconciliation(Ok(|_now: i64| Ok(Vec::new())), 9)
            .unwrap()
            .is_empty()
    );
    assert_eq!(
        ack_reminder_notification_command(Ok(|_id: Uuid, _revision: i64| Ok(true)), id(), 8),
        Ok(true)
    );
}

#[test]
fn settings_are_named_by_closed_keys() {
    for (shown, meant) in [
        (FrontendSettingKeyDto::UiMode, FrontendSettingKey::UiMode),
        (
            FrontendSettingKeyDto::OnboardingCompleted,
            FrontendSettingKey::OnboardingCompleted,
        ),
        (
            FrontendSettingKeyDto::CalendarWeekStart,
            FrontendSettingKey::CalendarWeekStart,
        ),
        (FrontendSettingKeyDto::TimerSettings, FrontendSettingKey::TimerSettings),
        (FrontendSettingKeyDto::TimerRuntime, FrontendSettingKey::TimerRuntime),
    ] {
        assert_eq!(
            get_frontend_setting(
                Ok(|key: FrontendSettingKey| {
                    assert_eq!(key, meant);
                    Ok(Some("value".to_string()))
                }),
                shown
            ),
            Ok(Some("value".to_string()))
        );
        assert!(set_frontend_setting(
            Ok(|key: FrontendSettingKey, value: String| {
                assert_eq!((key, value.as_str()), (meant, "new"));
                Ok(())
            }),
            shown,
            "new".to_string()
        )
        .is_ok());
    }
}

#[test]
fn a_profile_is_started_and_its_key_rotated() {
    assert!(init_core(
        |dir: String, inbox: String| {
            assert_eq!((dir.as_str(), inbox.as_str()), ("/profile", "Inbox"));
            Ok(())
        },
        "/profile".to_string(),
        "Inbox".to_string()
    )
    .is_ok());
    assert_eq!(rotate_device_key(Ok(|| Ok(4))), Ok(4));
    assert!(matches!(
        rotate_device_key(Ok(|| Ok(u64::MAX))),
        Err(BridgeErrorDto {
            code: BridgeErrorCodeDto::CryptoUnavailable,
            retryable: false,
            ..
        })
    ));
    assert_eq!(
        get_local_time_zone(Ok(|| Ok("Asia/Tokyo".to_string()))),
        Ok("Asia/Tokyo".to_string())
    );
    assert_eq!(
        get_sync_server_url(Ok(|| Ok("http://localhost:3000".to_string()))),
        Ok("http://localhost:3000".to_string())
    );
    assert!(is_busy(set_sync_server_url(
        Ok(|_url: String| Err(busy())),
        "http://localhost:3000".to_string()
    )));
}

fn session_state() -> AccountSessionState {
    AccountSessionState {
        logged_in: true,
        email: Some("user@example.com".to_string()),
        user_id: None,
        tenant_id: None,
        device_id: None,
        recovery_pending: true,
    }
}

#[test]
fn accounts_cross_the_bridge_as_they_are() {
    let session = get_account_session_state(Ok(|| Ok(session_state()))).unwrap();
    assert!(session.logged_in);
    assert!(session.recovery_pending);
    assert_eq!(session.email.as_deref(), Some("user@example.com"));
    for (phase, word) in [
        (AccountRegistrationPhase::Email, "email"),
        (AccountRegistrationPhase::Otp, "otp"),
        (AccountRegistrationPhase::Password, "password"),
    ] {
        let state = account_registration_state(Ok(|| {
            Ok(Some(AccountRegistrationState {
                phase,
                email: "user@example.com".to_string(),
                expires_at_ms: 1,
                next_retry_at_ms: None,
                can_cancel: true,
            }))
        }))
        .unwrap()
        .unwrap();
        assert_eq!(state.phase, word);
        assert!(state.can_cancel);
    }
    assert!(account_registration_cancel(Ok(|| Ok(()))).is_ok());
    assert!(account_registration_ack_recovery_key(Ok(|| Ok(()))).is_ok());
    assert_eq!(
        account_registration_recovery_key(Ok(|| Ok(Some("key".to_string())))),
        Ok(Some("key".to_string()))
    );
    let auth = || AccountAuthResult {
        session: session_state(),
        recovery_key: Some("recovery".to_string()),
    };
    assert_eq!(
        account_login(Ok(auth())).ok().unwrap().recovery_key.as_deref(),
        Some("recovery")
    );
    assert!(account_registration_complete(Ok(auth())).is_ok());
    assert!(is_busy(account_logout(Err(busy()))));
    assert!(account_registration_verify_otp(Ok(())).is_ok());
    let pending = || AccountRegistrationPending {
        email: "user@example.com".to_string(),
        expires_at_ms: 5,
        next_retry_at_ms: 6,
    };
    assert_eq!(account_registration_begun(Ok(pending())).unwrap().expires_at_ms, 5);
    assert_eq!(
        account_registration_resend(Ok(pending())).unwrap().next_retry_at_ms,
        6
    );
}

#[test]
fn a_server_is_chosen_before_a_registration_is_asked_for() {
    let chosen = Cell::new(false);
    assert_eq!(
        account_registration_begin(
            Ok(|url: String| {
                chosen.set(url == "https://sync.example.com");
                Ok(())
            }),
            "user@example.com".to_string(),
            Some("https://sync.example.com".to_string())
        ),
        Ok("user@example.com".to_string())
    );
    assert!(chosen.get());
    assert!(is_busy(account_registration_begin(
        Ok(|_url: String| Err(busy())),
        "user@example.com".to_string(),
        Some("https://sync.example.com".to_string())
    )));
    assert!(account_registration_begin(
        Ok(|_url: String| Err(busy())),
        "user@example.com".to_string(),
        None
    )
    .is_ok());
}

fn status() -> SyncStatus {
    let state = SyncRuntimeState {
        last_error: Some(SyncRunFailure::LeaseLost),
        ..SyncRuntimeState::default()
    };
    let mut status = sync_status(true, &state);
    status.pulled_count = usize::MAX;
    status
}

#[test]
fn sync_states_cross_the_bridge_with_counts_that_fit() {
    let shown = sync_status_to_dto(status());
    assert_eq!(shown.pulled_count, i32::MAX);
    assert_eq!(shown.pushed_count, 0);
    let error = shown.last_error.unwrap();
    assert_eq!(error.code, BridgeErrorCodeDto::LeaseLost);
    assert!(error.retryable);
    assert!(get_sync_status(Ok(|| Ok(status()))).unwrap().logged_in);
    assert!(sync_now(Ok(status())).is_ok());
    assert!(matches!(
        sync_now_outcome(Ok(status())),
        Ok(SyncNowOutcomeDto::Synced { .. })
    ));
    assert!(matches!(
        sync_now_outcome(Err(failure(
            ClientError::EntitlementRequired,
            ClientErrorKind::EntitlementRequired,
            false
        ))),
        Ok(SyncNowOutcomeDto::BillingRequired)
    ));
    assert!(is_busy(sync_now_outcome(Err(busy()))));
}

#[test]
fn billing_organizations_and_tickets_cross_the_bridge_as_they_are() {
    let billing = || BillingState {
        provider: "revenuecat".to_string(),
        provider_app_user_id: id(),
        lookup_key: "pro".to_string(),
        status: "active".to_string(),
        sync_allowed: true,
        store_product_identifier: None,
        expires_at: Some(1),
        grace_expires_at: None,
        will_renew: Some(true),
        environment: "sandbox".to_string(),
        updated_at: None,
    };
    assert_eq!(billing_bootstrap(Ok(billing())).unwrap().lookup_key, "pro");
    assert_eq!(refresh_billing(Ok(billing())).unwrap().expires_at, Some(1));
    assert_eq!(
        get_cached_billing(Ok(|| Ok(Some(billing()))))
            .unwrap()
            .unwrap()
            .will_renew,
        Some(true)
    );
    assert!(get_cached_billing(Ok(|| Ok(None))).unwrap().is_none());
    let safety = || OrganizationSafetyState {
        owner_user_id: "owner".to_string(),
        member_user_id: "member".to_string(),
        digest: "digest".to_string(),
        decimal: "decimal".to_string(),
        qr_payload: "qr".to_string(),
        verification_state: "unverified".to_string(),
        owner_confirmed: true,
        member_confirmed: false,
    };
    let shown = organization_safety_number(Ok(safety())).unwrap();
    assert_eq!(shown.verification_state, "unverified");
    assert!(shown.owner_confirmed);
    assert!(!shown.member_confirmed);
    assert!(is_busy(confirm_organization_safety_number(Err(busy()))));
    let ticket = get_realtime_ticket(Ok(RealtimeTicket {
        websocket_url: "wss://sync.example.com".to_string(),
        ticket: "ticket".to_string(),
        expires_at: at(9),
    }))
    .ok()
    .unwrap();
    assert_eq!(ticket.expires_at, at(9));
}

#[test]
fn json_strings_are_escaped_as_json_asks() {
    assert_eq!(json_string("plain \u{e9}"), "\"plain \u{e9}\"");
    assert_eq!(
        json_string("\"\\\u{08}\u{0c}\n\r\t\u{1f}\u{0}"),
        "\"\\\"\\\\\\b\\f\\n\\r\\t\\u001f\\u0000\""
    );
    for text in ["", "a\u{1}b", "line\nbreak", "\u{1F600}", "\u{7f}"] {
        let read: String = serde_json::from_str(&json_string(text)).unwrap();
        assert_eq!(read, text);
    }
}

#[test]
fn milliseconds_survive_the_way_into_the_calendar_and_back() {
    for millis in [
        -8_334_601_228_800_000,
        -1_001,
        0,
        1_773_035_600_123,
        8_210_266_876_799_999,
    ] {
        let instant = UtcInstant::from_millis(millis).unwrap();
        assert_eq!(instant.as_millis(), millis);
        assert_eq!(at(millis).millis(), millis);
    }
    assert!(UtcInstant::from_millis(8_210_266_876_800_000).is_none());
    assert!(UtcTime::from_millis(-8_334_601_228_800_001).is_none());
    assert!(UtcTime::from_millis(i64::MIN).is_none());
}
