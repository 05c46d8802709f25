use taskveil::account_runtime::{AccountRuntimeState, CryptoRuntimeState};
use taskveil::credentials::{AccountClientError, OriginBoundAccessToken};
use taskveil::error::{ClientError, StorageError};
use taskveil::ids::UtcTime;
use taskveil::model::{RealtimeTicket, SyncRunFailure};
use taskveil::sync::{
    add_sync_summary, begin_realtime_ticket, begin_sync_now, cancel_sync_run,
    check_refreshed_keys, dirty_follow_up_required, finish_sync_run, map_sync_lease_error,
    map_sync_lease_error_from_client, map_sync_run_error, readiness_logged_in, realtime_ticket,
    summaries_fit, sync_readiness, sync_status, use_access_token, AccountReadiness,
    ActiveSyncContext, SyncReadiness, SyncRunSummary, SyncRuntimeState, SyncStart, TicketEvent,
    TicketStep,
};
use taskveil::sync_run::{
    after_attempt, attempt_result, initial_backfill_cursor_name, run_initial_backfill_if_needed,
    run_sync_attempt, run_sync_now, settle_sync_run, AfterAttempt, AttemptEvent, AttemptFailure,
    AttemptStep, BackfillEvent, BackfillStep, RunEvent, RunStep, INITIAL_BACKFILL_MARK,
};

#[test]
fn unauthorized_session_is_reported_logged_out_after_failed_sync() {
    let mut state = SyncRuntimeState {
        running: true,
        ..SyncRuntimeState::default()
    };

    let (status, surfaced_error) =
        finish_sync_run(false, &mut state, Err(ClientError::Unauthorized), 42);

    assert!(!status.logged_in);
    assert!(!status.running);
    assert_eq!(status.last_failure_at, Some(42));
    assert_eq!(status.last_error, Some(SyncRunFailure::Unauthorized));
    assert!(matches!(surfaced_error, Some(ClientError::Unauthorized)));
}

#[test]
fn generic_account_failure_is_not_reported_as_unauthorized() {
    let mut state = SyncRuntimeState {
        running: true,
        ..SyncRuntimeState::default()
    };

    let (status, surfaced_error) =
        finish_sync_run(true, &mut state, Err(ClientError::AccountRequest), 42);

    assert_eq!(status.last_error, Some(SyncRunFailure::SyncFailed));
    assert!(matches!(surfaced_error, Some(ClientError::AccountRequest)));
}

#[test]
fn coordination_failures_remain_typed_at_the_sync_api_boundary() {
    assert_eq!(
        map_sync_lease_error_from_client(&ClientError::LeaseLost),
        "sync lease lost"
    );
    assert_eq!(
        map_sync_lease_error_from_client(&ClientError::DatabaseBusy),
        "database busy"
    );
    assert_eq!(
        map_sync_lease_error_from_client(&ClientError::SyncLeaseBusy),
        "sync lease busy"
    );
    assert_eq!(
        map_sync_lease_error_from_client(&ClientError::ClockSkewRetryable),
        "clock skew retryable"
    );
    for expected in [
        ClientError::ClockSkewRetryable,
        ClientError::CredentialUnavailable,
        ClientError::AccountBoundUnavailable,
        ClientError::ProfileBusy,
        ClientError::Busy,
        ClientError::SyncLeaseBusy,
        ClientError::LeaseLost,
        ClientError::DatabaseBusy,
    ] {
        let mut state = SyncRuntimeState {
            running: true,
            ..SyncRuntimeState::default()
        };
        let (_, surfaced_error) = finish_sync_run(true, &mut state, Err(expected), 42);
        assert!(matches!(
            surfaced_error,
            Some(
                ClientError::ClockSkewRetryable
                    | ClientError::CredentialUnavailable
                    | ClientError::AccountBoundUnavailable
                    | ClientError::ProfileBusy
                    | ClientError::Busy
                    | ClientError::SyncLeaseBusy
                    | ClientError::LeaseLost
                    | ClientError::DatabaseBusy
            )
        ));
        assert_eq!(surfaced_error, Some(expected));
    }
}

#[test]
fn canceling_a_polled_sync_future_clears_instance_running_state() {
    let mut state = SyncRuntimeState::default();
    state.running = true;
    cancel_sync_run(&mut state);
    assert!(!state.running);
}

#[test]
fn durable_outbox_head_requests_dirty_follow_up_without_settlement_changes() {
    assert!(!dirty_follow_up_required(Ok(0), false).unwrap());
    assert!(dirty_follow_up_required(Ok(1), false).unwrap());
    assert!(dirty_follow_up_required(Ok(0), true).unwrap());
    assert_eq!(
        dirty_follow_up_required(Err("database busy".to_string()), false),
        Err("database busy".to_string())
    );
}

#[test]
fn successful_runs_clear_the_error_and_keep_the_counts() {
    let mut state = SyncRuntimeState {
        running: true,
        last_error: Some(SyncRunFailure::SyncFailed),
        ..SyncRuntimeState::default()
    };
    let summary = SyncRunSummary {
        pushed_count: 3,
        pulled_count: 5,
        ..SyncRunSummary::default()
    };
    let (status, surfaced_error) = finish_sync_run(true, &mut state, Ok(summary), 42);
    assert!(status.logged_in);
    assert!(!status.running);
    assert_eq!(status.last_success_at, Some(42));
    assert_eq!(status.last_error, None);
    assert_eq!(status.pushed_count, 3);
    assert_eq!(status.pulled_count, 5);
    assert_eq!(surfaced_error, None);
    assert_eq!(sync_status(true, &state), status);
}

#[test]
fn names_of_sync_errors_are_read_back_as_typed_errors() {
    for error in [
        ClientError::LeaseLost,
        ClientError::DatabaseBusy,
        ClientError::SyncLeaseBusy,
        ClientError::ClockSkewRetryable,
    ] {
        let name = map_sync_lease_error_from_client(&error);
        assert_eq!(map_sync_run_error(&name), error);
    }
    assert_eq!(
        map_sync_run_error(&map_sync_lease_error(StorageError::SyncLeaseLost)),
        ClientError::LeaseLost
    );
    assert_eq!(
        map_sync_run_error("upgrade required"),
        ClientError::UpgradeRequired
    );
    assert_eq!(map_sync_run_error("unauthorized"), ClientError::SyncRun);
    assert_eq!(map_sync_run_error("anything else"), ClientError::SyncRun);
}

#[test]
fn an_attempt_goes_on_until_the_outbox_is_empty() {
    let one = SyncRunSummary {
        pushed_count: 1,
        ..SyncRunSummary::default()
    };
    let mut step = AttemptStep::Exchange;
    for event in [
        AttemptEvent::Exchanged(one),
        AttemptEvent::Settled {
            outbox_changed: false,
            has_more: false,
        },
        AttemptEvent::Outbox { heads: 1 },
        AttemptEvent::Exchanged(one),
    ] {
        step = run_sync_attempt(step, event);
    }
    let drained = run_sync_attempt(step, AttemptEvent::Outbox { heads: 0 });
    match drained {
        AttemptStep::Done { summary } => assert_eq!(summary.pushed_count, 2),
        other => panic!("an empty outbox did not end the attempt: {other:?}"),
    }
    let failed = run_sync_attempt(
        AttemptStep::Exchange,
        AttemptEvent::Failed(AttemptFailure::Engine("unauthorized".to_string())),
    );
    assert_eq!(attempt_result(failed), Some(Err("unauthorized".to_string())));
    assert_eq!(attempt_result(AttemptStep::Exchange), None);
    for (failure, words) in [
        (AttemptFailure::Lease(StorageError::SyncLeaseLost), "sync lease lost"),
        (AttemptFailure::Clock, "sync failed"),
        (AttemptFailure::Settlement(ClientError::Busy), "credential busy"),
        (AttemptFailure::OutOfStep, "sync failed"),
    ] {
        assert_eq!(failure.into_words(), words);
    }
}

fn token(words: &str) -> OriginBoundAccessToken {
    OriginBoundAccessToken {
        issuer: "https://sync.example.com".to_string(),
        token: words.to_string(),
    }
}

#[test]
fn a_run_gives_its_lease_back_whatever_happens() {
    assert!(matches!(
        run_sync_now(
            RunStep::AcquireLease,
            RunEvent::Lease(Err(StorageError::SyncLeaseBusy))
        ),
        RunStep::Done(Err(ClientError::SyncLeaseBusy))
    ));
    let mut step = RunStep::AcquireLease;
    for event in [
        RunEvent::Lease(Ok(())),
        RunEvent::Token(Ok(token("old"))),
        RunEvent::Attempted(Err("unauthorized".to_string())),
    ] {
        step = run_sync_now(step, event);
    }
    assert!(matches!(step, RunStep::FetchToken { force_refresh: true }));
    step = run_sync_now(step, RunEvent::Token(Ok(token("new"))));
    match &step {
        RunStep::Attempt { token, retried } => {
            assert_eq!(token.token, "new");
            assert!(*retried);
        }
        _ => panic!("the refreshed token was not used"),
    }
    step = run_sync_now(step, RunEvent::Attempted(Err("unauthorized".to_string())));
    assert!(matches!(
        step,
        RunStep::ReleaseLease {
            result: Err(ClientError::SyncRun)
        }
    ));
    assert!(matches!(
        run_sync_now(step, RunEvent::Released(Err(StorageError::SyncLeaseLost))),
        RunStep::Done(Err(ClientError::SyncRun))
    ));
    let refused = run_sync_now(
        RunStep::FetchToken {
            force_refresh: false,
        },
        RunEvent::Token(Err(ClientError::CredentialUnavailable)),
    );
    assert!(matches!(refused, RunStep::ReleaseLease { result: Err(_) }));
    let released = run_sync_now(
        RunStep::ReleaseLease {
            result: Ok(SyncRunSummary::default()),
        },
        RunEvent::Released(Err(StorageError::SyncLeaseLost)),
    );
    assert!(matches!(released, RunStep::Done(Err(ClientError::LeaseLost))));
}

fn context() -> ActiveSyncContext {
    ActiveSyncContext {
        server_url: "https://old.example.com".to_string(),
        tenant_id: taskveil::ids::Uuid { value: 1 },
        device_id: "device".to_string(),
        session_token: "old".to_string(),
        keys: taskveil::local_crypto::LocalSyncKeys {
            tenant_id: taskveil::ids::Uuid { value: 1 },
            tenant_root_dek: Some([1; 32]),
            tenant_generation: 1,
            historical_tenant_root_deks: Vec::new(),
        },
        manifest_auth_key: vec![1],
    }
}

#[test]
fn a_run_goes_on_with_the_token_it_fetched() {
    let mut active = context();
    use_access_token(&mut active, token("new"));
    assert_eq!(active.server_url, "https://sync.example.com");
    assert_eq!(active.session_token, "new");
    assert_eq!(active.device_id, "device");
}

#[test]
fn a_ticket_is_asked_for_again_after_a_refused_token() {
    let ready = SyncReadiness::Ready(Box::new(context()));
    let mut step = begin_realtime_ticket(ready);
    for event in [
        TicketEvent::Token(Ok(token("old"))),
        TicketEvent::Answered(Err(AccountClientError::Server(401))),
    ] {
        step = realtime_ticket(step, event);
    }
    assert!(matches!(
        step,
        TicketStep::FetchToken {
            force_refresh: true,
            ..
        }
    ));
    step = realtime_ticket(step, TicketEvent::Token(Ok(token("new"))));
    let answered = RealtimeTicket {
        websocket_url: "wss://sync.example.com".to_string(),
        ticket: "ticket".to_string(),
        expires_at: UtcTime {
            seconds: 1,
            nanos: 0,
        },
    };
    match realtime_ticket(step, TicketEvent::Answered(Ok(answered))) {
        TicketStep::Done(Ok(ticket)) => assert_eq!(ticket.ticket, "ticket"),
        _ => panic!("no ticket was handed out"),
    }
    let ask = |retried: bool| TicketStep::Ask {
        context: Box::new(context()),
        token: token("new"),
        retried,
    };
    assert!(matches!(
        realtime_ticket(
            ask(true),
            TicketEvent::Answered(Err(AccountClientError::Server(401)))
        ),
        TicketStep::Done(Err(ClientError::AccountRequest))
    ));
    assert!(matches!(
        realtime_ticket(
            ask(false),
            TicketEvent::Answered(Err(AccountClientError::EntitlementRequired))
        ),
        TicketStep::Done(Err(ClientError::EntitlementRequired))
    ));
    assert!(matches!(
        begin_realtime_ticket(SyncReadiness::LoggedOut),
        TicketStep::Done(Err(ClientError::CredentialUnavailable))
    ));
    assert!(matches!(
        begin_realtime_ticket(SyncReadiness::AccountBoundUnavailable),
        TicketStep::Done(Err(ClientError::AccountBoundUnavailable))
    ));
}

#[test]
fn summaries_add_up_field_by_field() {
    let mut total = SyncRunSummary {
        applied_count: 2,
        repush_count: 7,
        ..SyncRunSummary::default()
    };
    let more = SyncRunSummary {
        applied_count: 3,
        deleted_count: 1,
        ..SyncRunSummary::default()
    };
    assert!(summaries_fit(&total, &more));
    add_sync_summary(&mut total, &more);
    assert_eq!(total.applied_count, 5);
    assert_eq!(total.deleted_count, 1);
    assert_eq!(total.repush_count, 7);
    let largest = SyncRunSummary {
        applied_count: usize::MAX,
        ..SyncRunSummary::default()
    };
    assert!(!summaries_fit(&total, &largest));
}

#[test]
fn a_refused_token_is_replaced_once() {
    assert!(matches!(
        after_attempt(Err("unauthorized".to_string()), false),
        AfterAttempt::RefreshTokenAndRetry
    ));
    assert!(matches!(
        after_attempt(Err("unauthorized".to_string()), true),
        AfterAttempt::Finish(Err(ClientError::SyncRun))
    ));
    assert!(matches!(
        after_attempt(Ok(SyncRunSummary::default()), false),
        AfterAttempt::Finish(Ok(_))
    ));
}

#[test]
fn a_lease_that_cannot_be_released_fails_a_good_run_only() {
    assert_eq!(
        settle_sync_run(Ok(SyncRunSummary::default()), Ok(())),
        Ok(SyncRunSummary::default())
    );
    assert_eq!(
        settle_sync_run(Ok(SyncRunSummary::default()), Err(ClientError::LeaseLost)),
        Err(ClientError::LeaseLost)
    );
    assert_eq!(
        settle_sync_run(Err(ClientError::Unauthorized), Err(ClientError::LeaseLost)),
        Err(ClientError::Unauthorized)
    );
}

#[test]
fn a_backfill_runs_only_without_a_mark() {
    let begin = |mark| run_initial_backfill_if_needed(BackfillStep::ReadMark, mark);
    assert_eq!(begin(BackfillEvent::Mark(Ok(Some(1)))), BackfillStep::Done);
    assert_eq!(
        begin(BackfillEvent::Mark(Err("database busy".to_string()))),
        BackfillStep::Failed(ClientError::DatabaseBusy)
    );
    let mut step = begin(BackfillEvent::Mark(Ok(None)));
    for event in [
        BackfillEvent::Records(Ok(())),
        BackfillEvent::Written(Ok(())),
        BackfillEvent::Written(Ok(())),
        BackfillEvent::Clock(Ok(42)),
    ] {
        step = run_initial_backfill_if_needed(step, event);
    }
    assert_eq!(step, BackfillStep::StoreMark { updated_at: 42 });
    step = run_initial_backfill_if_needed(step, BackfillEvent::Written(Ok(())));
    assert_eq!(step, BackfillStep::Commit);
    assert_eq!(
        run_initial_backfill_if_needed(
            step,
            BackfillEvent::Written(Err("sync lease lost".to_string()))
        ),
        BackfillStep::Failed(ClientError::LeaseLost)
    );
    assert_eq!(
        run_initial_backfill_if_needed(step, BackfillEvent::Written(Ok(()))),
        BackfillStep::Done
    );
    assert_eq!(initial_backfill_cursor_name(), "initial_backfill");
    assert_eq!(INITIAL_BACKFILL_MARK, 1);
}

#[test]
fn refreshed_keys_of_another_epoch_lose_the_lease() {
    let keys = || taskveil::local_crypto::LocalSyncKeys {
        tenant_id: taskveil::ids::Uuid { value: 1 },
        tenant_root_dek: Some([1; 32]),
        tenant_generation: 1,
        historical_tenant_root_deks: Vec::new(),
    };
    assert!(check_refreshed_keys(Ok(keys()), 4, Ok(4)).is_ok());
    assert!(matches!(
        check_refreshed_keys(Ok(keys()), 4, Ok(5)),
        Err(error) if error == "sync lease lost"
    ));
    assert!(matches!(
        check_refreshed_keys(Err(ClientError::DatabaseBusy), 4, Ok(4)),
        Err(error) if error == "database busy"
    ));
}

#[test]
fn nobody_syncs_without_a_login_or_twice_at_once() {
    let account = AccountRuntimeState {
        session: None,
        session_restored: true,
        loaded_credential_generation: None,
        crypto: CryptoRuntimeState::Anonymous,
    };
    let readiness =
        sync_readiness(Ok(AccountReadiness::LoggedOut), &account, None, Ok(None)).ok().unwrap();
    assert!(matches!(readiness, SyncReadiness::LoggedOut));
    assert_eq!(readiness_logged_in(&readiness), Ok(false));
    let mut state = SyncRuntimeState::default();
    match begin_sync_now(readiness, &mut state) {
        Ok(SyncStart::Answer(status)) => assert!(!status.logged_in),
        _ => panic!("a sync began without a login"),
    }
    assert!(!state.running);
    assert!(matches!(
        begin_sync_now(SyncReadiness::CredentialUnavailable, &mut state),
        Err(ClientError::CredentialUnavailable)
    ));
    assert!(matches!(
        begin_sync_now(SyncReadiness::AccountBoundUnavailable, &mut state),
        Err(ClientError::AccountBoundUnavailable)
    ));
}
