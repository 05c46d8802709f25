use std::cell::Cell;

use taskveil::account_runtime::{
    account_identity, account_logout, account_root_request, account_session_state,
    begin_key_refresh, billing_state, billing_tenant, current_session_state,
    ensure_account_runtime_restored, ensure_key_material_covers_local_lists,
    has_legacy_account_binding, key_refresh_step, load_account_root_keys,
    local_lists_including_archived, local_mutation_state, non_empty_internal_metadata,
    parse_session_id, persist_account_state, preflight_sync_mutation,
    refresh_tenant_keys_for_sync, restorable_master_key, restore_session, restored_crypto,
    stored_account_root, sync_key_owner, validate_existing_profile_identity, AccountRuntimeState,
    CryptoRuntimeState, KeyRefreshStep, LegacySettings, LocalMutationState, RefreshedKeys,
    SessionRestore, StoredAccount, StoredValue,
};
use taskveil::credentials::{
    access_token, access_token_step, after_refresh, begin_access_token, bound_access_token,
    current_access_token, load_pending_login, load_session_credential, load_session_tokens,
    store_session_tokens, stored_session_credential_issuer, AccessTokenStep, AccountClientError,
    AccountTokenSet, RefreshOutcome, StoredCredentialRead, StoredSessionCredential,
    StoredSessionTokens, TokenEvent, TokenStep, SESSION_TOKEN_SET_VERSION,
};
use taskveil::domain::List;
use taskveil::error::ClientError;
use taskveil::ids::Uuid;
use taskveil::local_crypto::{
    LocalCryptoAvailability, LocalCryptoContext, LocalCryptoUnavailable, LocalProfileBinding,
    LocalSyncKeys,
};
use taskveil::organization_flow::AccountRootPublicKeys;
use taskveil::profile_runtime::{
    begin_exclusive_operation, begin_operation, capsule_generation_to_store, default_sync_server_url, now_ms, open_profile,
    publish_runtime_epoch_if_current, recover_pending_capsule, refresh_profile_runtime,
    retry_runtime_epoch_once, set_sync_server_url, sync_server_url, ExclusiveStep, LoadedRuntime,
    LocalProfileConfig, OpenStep, OperationEvent, OperationStep,
};
use taskveil::protocol::account::{BillingEntitlementDto, BillingResponseDto};

fn origin() -> Option<String> {
    Some("https://sync.example.com".to_string())
}

fn tokens(access_expires_at_ms: i64, refresh_expires_at_ms: i64) -> StoredSessionTokens {
    StoredSessionTokens {
        version: SESSION_TOKEN_SET_VERSION,
        issuer: "https://sync.example.com".to_string(),
        access_token: "access-secret".to_string(),
        access_expires_at_ms,
        refresh_token: "refresh-secret".to_string(),
        refresh_expires_at_ms,
    }
}

#[test]
fn versioned_session_token_set_round_trips_as_one_payload() {
    let stored =
        store_session_tokens(tokens(1_800_000_000_000, 1_801_000_000_000), &origin()).ok().unwrap();
    let credential = load_session_credential(Ok(StoredCredentialRead::Read(stored)), &origin());
    let loaded = load_session_tokens(credential).ok().unwrap().unwrap();
    loaded.validate(&origin()).expect("validate token set");
    assert_eq!(loaded.version, SESSION_TOKEN_SET_VERSION);
    assert_eq!(loaded.issuer, "https://sync.example.com");
    assert_eq!(loaded.access_token, "access-secret");
    assert_eq!(loaded.refresh_token, "refresh-secret");
    assert_eq!(loaded.access_expires_at_ms, 1_800_000_000_000);
    assert_eq!(loaded.refresh_expires_at_ms, 1_801_000_000_000);

    assert!(serde_json::from_slice::<serde_json::Value>(b"legacy-single-token").is_err());
    assert!(matches!(
        load_session_credential(Ok(StoredCredentialRead::Unreadable), &origin()),
        Err(ClientError::IncompleteAccountState)
    ));
}

#[test]
fn incomplete_tokens_are_refused() {
    let mut old_version = tokens(1, 1);
    old_version.version = SESSION_TOKEN_SET_VERSION - 1;
    assert_eq!(
        old_version.validate(&origin()),
        Err(ClientError::IncompleteAccountState)
    );
    assert_eq!(
        tokens(0, 1).validate(&origin()),
        Err(ClientError::IncompleteAccountState)
    );
    assert_eq!(
        tokens(1, 1).validate(&Some("https://other.example".to_string())),
        Err(ClientError::IncompleteAccountState)
    );
    assert_eq!(
        tokens(1, 1).validate(&None),
        Err(ClientError::IncompleteAccountState)
    );
    assert!(matches!(
        load_session_credential(Ok(StoredCredentialRead::Absent), &None),
        Ok(None)
    ));
    assert!(matches!(load_pending_login(Ok(None)), Ok(None)));
    let active = load_session_credential(
        Ok(StoredCredentialRead::Read(StoredSessionCredential::Active(tokens(1, 1)))),
        &origin(),
    );
    assert!(matches!(load_pending_login(active), Ok(None)));
}

/// Addresses in lower case, without a final slash and the usual port.
fn canonical(address: &str) -> Option<String> {
    let address = address.to_lowercase();
    if address.starts_with("https://") || address.starts_with("http://localhost") {
        Some(address.trim_end_matches('/').trim_end_matches(":443").to_string())
    } else {
        None
    }
}

#[test]
fn active_credential_blocks_origin_change() {
    let issuer = || Ok(origin());

    assert!(set_sync_server_url("https://attacker.example", issuer(), canonical).is_err());
    assert_eq!(
        set_sync_server_url("HTTPS://SYNC.EXAMPLE.COM:443/", issuer(), canonical)
            .expect("same canonical origin"),
        "https://sync.example.com"
    );
    assert_eq!(
        sync_server_url(Ok(origin()), issuer(), canonical).unwrap(),
        "https://sync.example.com"
    );
    assert_eq!(
        sync_server_url(Ok(None), issuer(), canonical).unwrap(),
        "https://sync.example.com"
    );
    assert_eq!(
        sync_server_url(
            Ok(Some("https://attacker.example".to_string())),
            issuer(),
            canonical
        ),
        Err(ClientError::AccountRequest)
    );
    assert_eq!(
        sync_server_url(Ok(None), Ok(None), canonical).unwrap(),
        "http://localhost:3000"
    );
    assert_eq!(
        set_sync_server_url("nowhere", Ok(None), canonical),
        Err(ClientError::AccountRequest)
    );
    assert_eq!(default_sync_server_url(), "http://localhost:3000");
}

#[test]
fn access_tokens_are_refreshed_ahead_of_their_end() {
    let held = tokens(100_000, 1_000_000);
    assert_eq!(
        access_token_step(&held, 39_999, false),
        AccessTokenStep::UseStored
    );
    assert_eq!(
        access_token_step(&held, 40_000, false),
        AccessTokenStep::Refresh
    );
    assert_eq!(access_token_step(&held, 0, true), AccessTokenStep::Refresh);
    assert_eq!(
        access_token_step(&held, 1_000_000, true),
        AccessTokenStep::Invalidate
    );
    let bound = bound_access_token(&held);
    assert_eq!(bound.issuer, "https://sync.example.com");
    assert_eq!(bound.token, "access-secret");
}

#[test]
fn a_refused_grant_ends_the_session_and_nothing_else_does() {
    let fresh = AccountTokenSet {
        access_token: "new-access".to_string(),
        access_expires_at_ms: 5,
        refresh_token: "new-refresh".to_string(),
        refresh_expires_at_ms: 6,
    };
    match after_refresh("https://sync.example.com", Ok(fresh)) {
        RefreshOutcome::Store(stored) => {
            assert_eq!(stored.issuer, "https://sync.example.com");
            assert_eq!(stored.access_token, "new-access");
            assert_eq!(stored.refresh_expires_at_ms, 6);
        }
        _ => panic!("fresh tokens were not stored"),
    }
    assert!(matches!(
        after_refresh("x", Err(AccountClientError::InvalidGrant)),
        RefreshOutcome::Invalidate(ClientError::AccountRequest)
    ));
    assert!(matches!(
        after_refresh("x", Err(AccountClientError::EntitlementRequired)),
        RefreshOutcome::Fail(ClientError::EntitlementRequired)
    ));
    assert!(matches!(
        after_refresh("x", Err(AccountClientError::Other)),
        RefreshOutcome::Fail(ClientError::AccountRequest)
    ));
}

fn session() -> taskveil::model::AccountSessionState {
    account_session_state(
        "restart@example.com".to_string(),
        "00000000-0000-4000-8000-000000000001".to_string(),
        "00000000-0000-4000-8000-000000000002".to_string(),
        "00000000-0000-4000-8000-000000000003".to_string(),
    )
}

#[test]
fn logout_retains_credential_until_remote_revocation_succeeds() {
    let credential = StoredSessionCredential::Active(tokens(1_900_000_000_000, 1_901_000_000_000));
    assert_eq!(
        credential.logout_target(),
        (
            "https://sync.example.com".to_string(),
            "refresh-secret".to_string()
        )
    );
    let mut state = AccountRuntimeState {
        session: Some(session()),
        session_restored: true,
        loaded_credential_generation: None,
        crypto: CryptoRuntimeState::Anonymous,
    };
    let mut stored = Some(credential);

    assert!(account_logout(&mut state, Some(Err(AccountClientError::Server(500))), || {
        stored = None;
        true
    })
    .is_err());
    assert!(stored.is_some());
    assert!(state.session.is_some());
    account_logout(&mut state, Some(Ok(())), || {
        stored = None;
        true
    })
    .expect("remote revocation succeeds");
    assert!(stored.is_none());
    assert!(state.session.is_none());
    assert!(!current_session_state(state.session).logged_in);
}

fn stored_account(
    email: &str,
    user_id: Option<&str>,
    tenant_id: &str,
    device_id: &str,
) -> StoredAccount {
    StoredAccount {
        email: Ok(Some(email.to_string())),
        user_id: Ok(user_id.map(|value| value.to_string())),
        tenant_id: Ok(Some(tenant_id.to_string())),
        device_id: Ok(Some(device_id.to_string())),
    }
}

#[test]
fn process_restart_restores_origin_bound_session() {
    let account = || {
        stored_account(
            "restart@example.com",
            Some("00000000-0000-4000-8000-000000000001"),
            "00000000-0000-4000-8000-000000000002",
            "00000000-0000-4000-8000-000000000003",
        )
    };
    let mut state = AccountRuntimeState::unloaded();
    assert_eq!(
        ensure_account_runtime_restored(
            &mut state,
            || Ok(CryptoRuntimeState::Anonymous),
            || Ok(Some(1_901_000_000_000)),
            Ok(1_900_000_000_000),
            account(),
            || panic!("nothing is over"),
        ),
        Ok(())
    );
    assert!(matches!(state.crypto, CryptoRuntimeState::Anonymous));
    assert!(state.session_restored);
    let session = current_session_state(state.session);
    assert!(session.logged_in);
    assert_eq!(session.email.as_deref(), Some("restart@example.com"));
    let credential = Ok(Some(StoredSessionCredential::Active(tokens(
        1_900_000_000_000,
        1_901_000_000_000,
    ))));
    assert_eq!(
        stored_session_credential_issuer(&credential).unwrap(),
        Some("https://sync.example.com".to_string())
    );
    let short = |user_id| stored_account("a", user_id, "c", "d");
    assert!(matches!(
        restore_session(Some(5), Ok(5), short(Some("b"))),
        Ok(SessionRestore::DeleteExpired)
    ));
    assert!(matches!(
        restore_session(Some(5), Ok(4), short(None)),
        Ok(SessionRestore::Nothing)
    ));
    assert!(matches!(
        restore_session(None, Ok(4), short(Some("b"))),
        Ok(SessionRestore::Nothing)
    ));
}

#[test]
fn a_runtime_is_restored_once() {
    let mut state = AccountRuntimeState::unloaded();
    assert_eq!(
        ensure_account_runtime_restored(
            &mut state,
            || Err(ClientError::DatabaseBusy),
            || panic!("the keys come first"),
            Ok(1),
            stored_account("a", Some("b"), "c", "d"),
            || true,
        ),
        Err(ClientError::DatabaseBusy)
    );
    assert!(!state.session_restored);
    assert_eq!(
        ensure_account_runtime_restored(
            &mut state,
            || Ok(CryptoRuntimeState::Anonymous),
            || Ok(Some(5)),
            Ok(5),
            stored_account("a", Some("b"), "c", "d"),
            || false,
        ),
        Err(ClientError::KeyStore)
    );
    assert!(state.session_restored);
    assert!(state.session.is_none());
    assert_eq!(
        ensure_account_runtime_restored(
            &mut state,
            || panic!("the keys are there"),
            || panic!("the session was looked for"),
            Ok(5),
            stored_account("a", Some("b"), "c", "d"),
            || true,
        ),
        Ok(())
    );
}

#[test]
fn refreshed_keys_are_used_once_they_are_durable() {
    let refreshed = |rotation_backfill| RefreshedKeys {
        identity: sync_key_owner(&ready_state()).ok().unwrap().identity(),
        keys: keys(2, 1, Vec::new()),
        rotation_backfill,
    };
    assert_eq!(begin_key_refresh(&refreshed(false)), KeyRefreshStep::PersistKeys);
    let mut step = begin_key_refresh(&refreshed(true));
    for expected in [
        KeyRefreshStep::ReadRecords,
        KeyRefreshStep::BackfillRotation,
        KeyRefreshStep::PersistKeys,
        KeyRefreshStep::ReadClock,
        KeyRefreshStep::ClearRotationMark,
        KeyRefreshStep::ReplaceRuntime,
        KeyRefreshStep::Done,
    ] {
        assert_eq!(step, expected);
        step = key_refresh_step(step, None);
    }
    assert_eq!(
        key_refresh_step(KeyRefreshStep::BackfillRotation, Some(ClientError::DatabaseBusy)),
        KeyRefreshStep::Failed(ClientError::SyncRun)
    );
    assert_eq!(
        key_refresh_step(KeyRefreshStep::PersistKeys, Some(ClientError::DatabaseBusy)),
        KeyRefreshStep::Failed(ClientError::DatabaseBusy)
    );
}

#[test]
fn archived_lists_come_after_those_in_use() {
    let list = |id| List {
        id: Uuid { value: id },
        name: "list".to_string(),
        color: "blue".to_string(),
        icon: "inbox".to_string(),
        sort_order: "a".to_string(),
        is_default: false,
        archived_at: None,
        created_at: 1,
        updated_at: 1,
    };
    let all = local_lists_including_archived(Ok(vec![list(1), list(2)]), Ok(vec![list(3)]));
    let ids: Vec<u128> = all.unwrap().iter().map(|list| list.id.value).collect();
    assert_eq!(ids, vec![1, 2, 3]);
    assert!(matches!(
        local_lists_including_archived(Ok(Vec::new()), Err(ClientError::DatabaseBusy)),
        Err(ClientError::DatabaseBusy)
    ));
}

#[test]
fn an_exclusive_operation_recovers_before_it_catches_up() {
    let mut step = ExclusiveStep::LockExclusive;
    for expected in [
        ExclusiveStep::ValidatePaths,
        ExclusiveStep::RecoverCapsule,
        ExclusiveStep::ValidatePathsAgain,
        ExclusiveStep::RefreshRuntime,
        ExclusiveStep::Ready,
    ] {
        assert_eq!(
            begin_exclusive_operation(step, Some(ClientError::ProfileBusy)),
            ExclusiveStep::Failed(ClientError::ProfileBusy)
        );
        step = begin_exclusive_operation(step, None);
        assert_eq!(step, expected);
    }
}

#[test]
fn stored_values_keep_their_names() {
    for (value, name) in [
        (StoredValue::SyncServerUrl, "sync_server_url"),
        (StoredValue::Email, "account_email"),
        (StoredValue::UserId, "account_user_id"),
        (StoredValue::TenantId, "account_tenant_id"),
        (StoredValue::DeviceId, "account_device_id"),
        (StoredValue::SessionExpiresAt, "account_session_expires_at"),
        (StoredValue::RootPublic, "account_root_public"),
        (StoredValue::MasterKeyGeneration, "account_mk_generation"),
    ] {
        assert_eq!(value.name(), name);
    }
}

fn keys(generation: u64, byte: u8, historical: Vec<(u64, [u8; 32])>) -> LocalSyncKeys {
    LocalSyncKeys {
        tenant_id: Uuid {
            value: 0x00000000_0000_4000_8000_000000000002,
        },
        tenant_root_dek: Some([byte; 32]),
        tenant_generation: generation,
        historical_tenant_root_deks: historical,
    }
}

fn context(generation: u64, byte: u8) -> LocalCryptoContext {
    LocalCryptoContext {
        tenant_id: Uuid {
            value: 0x00000000_0000_4000_8000_000000000002,
        },
        user_id: Uuid {
            value: 0x00000000_0000_4000_8000_000000000001,
        },
        device_id: Uuid {
            value: 0x00000000_0000_4000_8000_000000000003,
        },
        master_key: [7; 32],
        sync_keys: keys(generation, byte, Vec::new()),
    }
}

fn ready_state() -> AccountRuntimeState {
    let mut state = AccountRuntimeState::unloaded();
    state.replace_account_runtime(Some(session()), context(1, 9));
    state
}

#[test]
fn a_ready_profile_may_be_changed_and_a_locked_one_may_not() {
    let ready = local_mutation_state(&ready_state());
    assert!(matches!(ready, LocalMutationState::Ready(_)));
    assert_eq!(preflight_sync_mutation(&ready), Ok(()));
    let mut locked = AccountRuntimeState::unloaded();
    locked.crypto = CryptoRuntimeState::Unavailable(LocalCryptoUnavailable::MissingMasterKey);
    let refused = local_mutation_state(&locked);
    assert_eq!(
        preflight_sync_mutation(&refused),
        Err(ClientError::AccountBoundUnavailable)
    );
    let owner = sync_key_owner(&ready_state()).ok().unwrap();
    assert_eq!(owner.identity().tenant_id, context(1, 9).tenant_id);
    assert!(matches!(
        sync_key_owner(&locked),
        Err(ClientError::AccountRequest)
    ));
    locked.session = Some(session());
    assert!(matches!(
        sync_key_owner(&locked),
        Err(ClientError::AccountBoundUnavailable)
    ));
}

#[test]
fn a_bound_profile_that_lost_its_key_is_not_anonymous() {
    assert!(matches!(
        restored_crypto(Ok(LocalCryptoAvailability::Anonymous), Ok(true)),
        Ok(CryptoRuntimeState::Unavailable(
            LocalCryptoUnavailable::MissingMasterKey
        ))
    ));
    assert!(matches!(
        restored_crypto(Ok(LocalCryptoAvailability::Anonymous), Ok(false)),
        Ok(CryptoRuntimeState::Anonymous)
    ));
    assert!(matches!(
        restored_crypto(Err(ClientError::DatabaseBusy), Ok(false)),
        Err(ClientError::DatabaseBusy)
    ));
    let none = || LegacySettings {
        email: Ok(None),
        user_id: Ok(None),
        tenant_id: Ok(None),
        device_id: Ok(None),
        session_expires_at: Ok(None),
    };
    let device = LegacySettings {
        device_id: Ok(Some("x".to_string())),
        session_expires_at: Err(ClientError::DatabaseBusy),
        ..none()
    };
    assert_eq!(has_legacy_account_binding(&device, Ok(false)), Ok(true));
    assert_eq!(has_legacy_account_binding(&none(), Ok(true)), Ok(true));
    assert_eq!(has_legacy_account_binding(&none(), Ok(false)), Ok(false));
    assert_eq!(
        non_empty_internal_metadata(Ok(Some(" \t".to_string()))),
        Ok(None)
    );
    assert_eq!(
        non_empty_internal_metadata(Ok(Some(" a ".to_string()))),
        Ok(Some(" a ".to_string()))
    );
}

#[test]
fn a_profile_keeps_its_identity() {
    let tenant = Uuid { value: 1 };
    let user = Uuid { value: 2 };
    let bound = LocalProfileBinding {
        tenant_id: tenant,
        user_id: user,
        device_id: Uuid { value: 3 },
        bound_at: 0,
        updated_at: 0,
    };
    assert_eq!(
        validate_existing_profile_identity(
            Ok(Some(bound)),
            Ok(false),
            Ok(None),
            Ok(None),
            tenant,
            user
        ),
        Ok(())
    );
    assert_eq!(
        validate_existing_profile_identity(
            Ok(Some(bound)),
            Ok(false),
            Ok(None),
            Ok(None),
            tenant,
            Uuid { value: 9 }
        ),
        Err(ClientError::ProfileIdentityMismatch)
    );
    assert_eq!(
        validate_existing_profile_identity(
            Ok(None),
            Ok(true),
            Ok(Some("00000000-0000-0000-0000-000000000001".to_string())),
            Ok(Some("00000000-0000-0000-0000-000000000002".to_string())),
            tenant,
            user
        ),
        Ok(())
    );
    assert_eq!(
        validate_existing_profile_identity(
            Ok(None),
            Ok(true),
            Ok(Some("not an identifier".to_string())),
            Ok(Some("00000000-0000-0000-0000-000000000002".to_string())),
            tenant,
            user
        ),
        Err(ClientError::IncompleteAccountState)
    );
}

#[test]
fn a_wrapped_master_key_belongs_to_somebody() {
    let unwrap = |user: Uuid| if user.value == 1 { Some([5; 32]) } else { None };
    assert_eq!(
        restorable_master_key(
            true,
            Ok(Some("00000000000000000000000000000001".to_string())),
            unwrap
        ),
        Ok(Some([5; 32]))
    );
    assert_eq!(restorable_master_key(false, Ok(None), unwrap), Ok(None));
    assert_eq!(
        restorable_master_key(true, Ok(None), unwrap),
        Err(ClientError::IncompleteAccountState)
    );
    assert_eq!(
        parse_session_id(&Some("nonsense".to_string())),
        Err(ClientError::IncompleteAccountState)
    );
    assert_eq!(
        parse_session_id(&Some("{00000000-0000-0000-0000-000000000004}".to_string())),
        Ok(Uuid { value: 4 })
    );
}

#[test]
fn persisted_accounts_say_what_loading_them_needs() {
    let settings = persist_account_state(&session(), &Some(vec![0, 1, 2, 255]), 12).ok().unwrap();
    assert_eq!(settings.email, "restart@example.com");
    assert_eq!(settings.tenant_id, "00000000-0000-4000-8000-000000000002");
    assert_eq!(settings.root_public, "AAEC/w==");
    assert_eq!(settings.master_key_generation, "12");
    assert!(matches!(
        persist_account_state(&session(), &None, 12),
        Err(ClientError::AccountBoundUnavailable)
    ));
    let identity = account_identity(&session()).unwrap();
    assert_eq!(
        identity.user_id,
        Uuid {
            value: 0x00000000_0000_4000_8000_000000000001
        }
    );

    let request = account_root_request(
        &ready_state(),
        Ok(Some(settings.master_key_generation)),
        Ok(Some(vec![8])),
    )
    .ok()
    .unwrap();
    assert_eq!(request.generation, 12);
    assert_eq!(request.wrapped, vec![8]);
    let root = stored_account_root(Ok(Some(settings.root_public)), |bytes: Vec<u8>| {
        Some(AccountRootPublicKeys {
            user_id: Uuid { value: 6 },
            encoded: bytes,
        })
    })
    .ok()
    .unwrap();
    assert_eq!(root.encoded, vec![0, 1, 2, 255]);
    let derived = root.clone();
    assert!(load_account_root_keys(true, Ok(root.clone()), Some(derived)).is_ok());
    assert!(matches!(
        load_account_root_keys(false, Ok(root.clone()), Some(root.clone())),
        Err(ClientError::AccountBoundUnavailable)
    ));
    assert!(matches!(
        load_account_root_keys(true, Ok(root), None),
        Err(ClientError::AccountBoundUnavailable)
    ));
}

#[test]
fn refreshed_tenant_keys_ask_for_a_backfill_after_a_rotation() {
    let held = context(1, 9);
    let owner = sync_key_owner(&ready_state()).ok().unwrap();
    let refresh = |generation, active, historical: Option<Vec<(u64, [u8; 32])>>| {
        refresh_tenant_keys_for_sync(
            &owner,
            generation,
            |tenant: Uuid, master_key: [u8; 32]| {
                assert_eq!(tenant, held.tenant_id);
                assert_eq!(master_key, held.master_key);
                active
            },
            |tenant: Uuid, master_key: [u8; 32]| {
                assert_eq!(tenant, held.tenant_id);
                assert_eq!(master_key, held.master_key);
                historical
            },
            &ready_state(),
        )
    };
    let same = refresh(Some(1), Some([9; 32]), Some(Vec::new())).ok().unwrap();
    assert!(!same.rotation_backfill);
    assert_eq!(same.keys.tenant_generation, 1);
    assert_eq!(same.keys.tenant_id, held.tenant_id);
    assert_eq!(same.identity.user_id, held.user_id);
    let rotated = refresh(Some(2), Some([10; 32]), Some(vec![(1, [9; 32])]))
        .ok()
        .unwrap();
    assert!(rotated.rotation_backfill);
    assert_eq!(rotated.keys.historical_tenant_root_deks, vec![(1, [9; 32])]);
    assert!(matches!(
        refresh(None, Some([9; 32]), Some(Vec::new())),
        Err(ClientError::AccountRequest)
    ));
    for (active, historical) in [(None, Some(Vec::new())), (Some([9; 32]), None)] {
        assert!(matches!(
            refresh(Some(2), active, historical),
            Err(ClientError::AccountBoundUnavailable)
        ));
    }
    assert!(matches!(
        refresh_tenant_keys_for_sync(
            &owner,
            Some(1),
            |_: Uuid, _: [u8; 32]| Some([9; 32]),
            |_: Uuid, _: [u8; 32]| Some(Vec::new()),
            &AccountRuntimeState::unloaded(),
        ),
        Err(ClientError::AccountBoundUnavailable)
    ));
}

#[test]
fn local_keys_are_kept_where_the_profile_has_them() {
    let available = LocalCryptoAvailability::Ready(Box::new(context(3, 4)));
    assert_eq!(
        ensure_key_material_covers_local_lists(Ok(available), 1, [1; 32]),
        Ok((3, [4; 32]))
    );
    assert_eq!(
        ensure_key_material_covers_local_lists(
            Ok(LocalCryptoAvailability::Anonymous),
            1,
            [1; 32]
        ),
        Ok((1, [1; 32]))
    );
}

#[test]
fn billing_is_asked_for_and_shown() {
    assert_eq!(billing_tenant(&ready_state()).unwrap(), context(1, 9).tenant_id);
    assert!(matches!(
        billing_tenant(&AccountRuntimeState::unloaded()),
        Err(ClientError::AccountRequest)
    ));
    let state = billing_state(BillingResponseDto {
        provider: "revenuecat".to_string(),
        provider_app_user_id: Uuid {
            value: 0x00000000_0000_4000_8000_000000000001,
        },
        entitlement: BillingEntitlementDto {
            lookup_key: "pro".to_string(),
            status: "in_grace_period".to_string(),
            sync_allowed: true,
            store_product_identifier: Some("com.taskveil.app.pro.monthly".to_string()),
            expires_at: Some(1_800_000_000_000),
            grace_expires_at: Some(1_801_382_400_000),
            will_renew: Some(false),
            environment: "sandbox".to_string(),
            updated_at: Some(1_799_999_999_000),
        },
    });
    assert_eq!(
        state.provider_app_user_id,
        "00000000-0000-4000-8000-000000000001"
    );
    assert_eq!(state.lookup_key, "pro");
    assert_eq!(state.grace_expires_at, Some(1_801_382_400_000));
}

#[test]
fn an_epoch_that_moved_resets_what_was_restored() {
    let mut loaded = LoadedRuntime {
        runtime_epoch: 1,
        capsule_generation: 1,
    };
    let mut account = ready_state();
    let same = refresh_profile_runtime(&mut loaded, &mut account, Ok(Some(1)), Ok(1)).unwrap();
    assert!(!same.replace_db_key);
    assert!(!same.reset_account);
    assert!(account.session.is_some());
    let moved = refresh_profile_runtime(&mut loaded, &mut account, Ok(Some(2)), Ok(2)).unwrap();
    assert!(moved.replace_db_key);
    assert!(moved.reset_account);
    assert!(account.session.is_none());
    assert_eq!(
        loaded,
        LoadedRuntime {
            runtime_epoch: 2,
            capsule_generation: 2
        }
    );
    assert_eq!(
        refresh_profile_runtime(&mut loaded, &mut account, Ok(None), Ok(2)),
        Err(ClientError::LocalKeyState)
    );
    assert_eq!(
        publish_runtime_epoch_if_current(&mut loaded, 2, 3),
        Ok(())
    );
    assert_eq!(
        publish_runtime_epoch_if_current(&mut loaded, 2, 4),
        Err(ClientError::LeaseLost)
    );
    assert_eq!(loaded.runtime_epoch, 3);
    let mut restored = ready_state();
    assert_eq!(
        recover_pending_capsule(&mut loaded, &mut restored, 5, Ok(()), |generation: i64| {
            assert_eq!(generation, 5);
            Ok(9)
        }),
        Ok(())
    );
    assert_eq!(loaded.runtime_epoch, 9);
    assert!(restored.session.is_none());
    assert_eq!(
        recover_pending_capsule(&mut loaded, &mut restored, u64::MAX, Ok(()), |_: i64| {
            panic!("a generation that cannot be stored was published")
        }),
        Err(ClientError::LocalKeyState)
    );
    assert_eq!(
        recover_pending_capsule(
            &mut loaded,
            &mut restored,
            u64::MAX,
            Err(ClientError::DatabaseBusy),
            |_: i64| panic!("a database that is not open was written to"),
        ),
        Err(ClientError::DatabaseBusy)
    );
    assert_eq!(
        recover_pending_capsule(&mut loaded, &mut restored, 6, Ok(()), |_: i64| Err(
            ClientError::RuntimeState
        )),
        Err(ClientError::RuntimeState)
    );
    assert_eq!(loaded.capsule_generation, 5);
    assert_eq!(
        capsule_generation_to_store(u64::MAX),
        Err(ClientError::LocalKeyState)
    );
    assert_eq!(capsule_generation_to_store(4), Ok(4));
}

#[test]
fn a_command_is_run_again_once_after_an_epoch_change() {

    let runs = Cell::new(0);
    let caught_up = Cell::new(0);
    let moved_on = || {
        ClientError::Storage(taskveil::error::StorageError::ProfileRuntimeEpochChanged)
    };
    let result: Result<i32, ClientError> = retry_runtime_epoch_once(
        || {
            runs.set(runs.get() + 1);
            Err(moved_on())
        },
        || {
            caught_up.set(caught_up.get() + 1);
            Ok(9)
        },
        |epoch: i32| {
            runs.set(runs.get() + 1);
            Ok(epoch)
        },
    );
    assert_eq!(result, Ok(9));
    assert_eq!(runs.get(), 2);
    assert_eq!(caught_up.get(), 1);
    let other: Result<i32, ClientError> = retry_runtime_epoch_once(
        || Err(ClientError::Io),
        || -> Result<(), ClientError> { panic!("nothing moved on") },
        |_: ()| panic!("nothing was caught up with"),
    );
    assert_eq!(other, Err(ClientError::Io));
    let behind: Result<i32, ClientError> = retry_runtime_epoch_once(
        || Err(moved_on()),
        || -> Result<(), ClientError> { Err(ClientError::DatabaseBusy) },
        |_: ()| panic!("catching up failed"),
    );
    assert_eq!(behind, Err(ClientError::DatabaseBusy));
    let again: Result<i32, ClientError> =
        retry_runtime_epoch_once(|| Err(moved_on()), || Ok(()), |_: ()| Err(moved_on()));
    assert_eq!(again, Err(moved_on()));
}

#[test]
fn a_setting_of_white_space_is_blank() {
    let is_white = |n: u32| {
        matches!(
            n,
            0x9..=0xd
                | 0x20
                | 0x85
                | 0xa0
                | 0x1680
                | 0x2000..=0x200a
                | 0x2028
                | 0x2029
                | 0x202f
                | 0x205f
                | 0x3000
        )
    };
    for n in 0..=0x10_ffff_u32 {
        if let Some(c) = char::from_u32(n) {
            let read = non_empty_internal_metadata(Ok(Some(c.to_string()))).unwrap();
            assert_eq!(read.is_none(), is_white(n), "{n:x}");
        }
    }
    assert_eq!(
        non_empty_internal_metadata(Ok(Some("\u{3000}x\u{85}".to_string()))),
        Ok(Some("\u{3000}x\u{85}".to_string()))
    );
}

#[test]
fn operations_begin_under_their_locks() {
    let mut step = OperationStep::LockShared;
    for event in [
        OperationEvent::Completed,
        OperationEvent::Completed,
        OperationEvent::Pending(true),
        OperationEvent::Completed,
        OperationEvent::Completed,
        OperationEvent::Completed,
        OperationEvent::Completed,
        OperationEvent::Completed,
        OperationEvent::Completed,
    ] {
        step = begin_operation(step, event);
    }
    assert_eq!(step, OperationStep::Ready);
    assert_eq!(
        begin_operation(
            OperationStep::LockExclusive,
            OperationEvent::Failed(ClientError::ProfileBusy)
        ),
        OperationStep::Failed(ClientError::ProfileBusy)
    );
    let mut opening = OpenStep::Coordinate;
    for _ in 0..7 {
        assert_eq!(
            open_profile(opening, Some(ClientError::ProfileBusy)),
            OpenStep::Failed(ClientError::ProfileBusy)
        );
        opening = open_profile(opening, None);
    }
    assert_eq!(opening, OpenStep::Opened);
    let config = LocalProfileConfig::new("/profile".to_string(), "Inbox".to_string());
    assert_eq!(config.db_dir, "/profile");
    assert_eq!(config.default_inbox_name, "Inbox");
    assert_eq!(now_ms(Some(7)), Ok(7));
    assert_eq!(now_ms(None), Err(ClientError::RuntimeState));
    assert_eq!(now_ms(Some(u128::MAX)), Err(ClientError::RuntimeState));
}

#[test]
fn an_access_token_is_refreshed_and_stored_before_it_is_used() {
    let begin = |force| begin_access_token(Ok(Some(tokens(1_000_000, 2_000_000))), force);
    match access_token(begin(false), TokenEvent::Clock(Ok(1))) {
        TokenStep::Done(Ok(token)) => assert_eq!(token.token, "access-secret"),
        _ => panic!("the stored token was not used"),
    }
    let mut step = access_token(begin(true), TokenEvent::Clock(Ok(1)));
    step = access_token(
        step,
        TokenEvent::Refreshed(Ok(AccountTokenSet {
            access_token: "fresh".to_string(),
            access_expires_at_ms: 3_000_000,
            refresh_token: "fresh refresh".to_string(),
            refresh_expires_at_ms: 4_000_000,
        })),
    );
    match &step {
        TokenStep::Store { tokens } => assert_eq!(tokens.refresh_token, "fresh refresh"),
        _ => panic!("the fresh tokens are not stored"),
    }
    match access_token(step, TokenEvent::Stored(Ok(()))) {
        TokenStep::Done(Ok(token)) => {
            assert_eq!(token.token, "fresh");
            assert_eq!(token.issuer, "https://sync.example.com");
        }
        _ => panic!("the fresh token was not handed out"),
    }
    let over = access_token(begin(false), TokenEvent::Clock(Ok(2_000_000)));
    assert!(matches!(over, TokenStep::Invalidate));
    assert!(matches!(
        access_token(over, TokenEvent::Invalidated(Ok(()))),
        TokenStep::Done(Err(ClientError::AccountRequest))
    ));
    let refresh = || TokenStep::Refresh {
        tokens: tokens(1, 2_000_000),
    };
    assert!(matches!(
        access_token(
            refresh(),
            TokenEvent::Refreshed(Err(AccountClientError::InvalidGrant))
        ),
        TokenStep::Invalidate
    ));
    assert!(matches!(
        access_token(
            refresh(),
            TokenEvent::Refreshed(Err(AccountClientError::EntitlementRequired))
        ),
        TokenStep::Done(Err(ClientError::EntitlementRequired))
    ));
    assert!(matches!(
        begin_access_token(Ok(None), false),
        TokenStep::Done(Err(ClientError::AccountRequest))
    ));
    assert!(current_access_token(&None).is_none());
    let held = current_access_token(&Some(tokens(1, 2)));
    assert_eq!(held.map(|token| token.token), Some("access-secret".to_string()));
}
