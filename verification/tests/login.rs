use taskveil::account_persistence::{
    persist_account_step, rebind_sync_device, account_register, store_active_wrapped_master_key,
    PersistStep, RebindStep, RegistrationStep, StepResult,
};
use taskveil::credentials::{
    store_pending_login, AccountClientError, AccountTokenSet, StoredKeysReadable,
    StoredPendingLogin, StoredSessionCredential, SESSION_TOKEN_SET_VERSION,
};
use taskveil::error::ClientError;
use taskveil::ids::Uuid;
use taskveil::login::{
    authenticated, begin_account_auth, ensure_profile_is_unbound_for_registration,
    pending_login_network_step, AccountAuthMode, AuthStart, LoginEvent, LoginStep,
    PendingLoginNetworkStep, PendingLoginRun,
};

#[test]
fn expired_challenge_with_still_valid_access_retries_certification_before_refresh() {
    let challenge_expires_at_ms = 10 * 60 * 1_000;
    let now_ms = challenge_expires_at_ms + 1;
    let access_expires_at_ms = 15 * 60 * 1_000;

    assert_eq!(
        pending_login_network_step(now_ms, access_expires_at_ms),
        PendingLoginNetworkStep::Certify
    );
    assert_eq!(
        pending_login_network_step(access_expires_at_ms, access_expires_at_ms),
        PendingLoginNetworkStep::RefreshCertifiedDevice
    );
}

fn begin() -> PendingLoginRun {
    let readable = StoredKeysReadable {
        account_root_private: true,
        account_root_public: true,
        device_identity: true,
    };
    match PendingLoginRun::begin(&pending(), &server(), readable) {
        Ok(run) => run,
        Err(error) => panic!("the login was not taken up: {error:?}"),
    }
}

fn run(events: Vec<LoginEvent>) -> PendingLoginRun {
    let mut run = begin();
    run.login.session.tokens.access_expires_at_ms = 1_000;
    run.login.session.tokens.refresh_expires_at_ms = 10_000;
    run.login.challenge_expires_at_ms = 500;
    for event in events {
        run.resume_pending_login(event);
    }
    run
}

fn new_tokens() -> AccountTokenSet {
    AccountTokenSet {
        access_token: "new access".to_string(),
        access_expires_at_ms: 2_000,
        refresh_token: "new refresh".to_string(),
        refresh_expires_at_ms: 20_000,
    }
}

#[test]
fn a_certified_login_completes() {
    let completed = run(vec![
        LoginEvent::Completed,
        LoginEvent::Clock(100),
        LoginEvent::Completed,
        LoginEvent::Covered {
            tenant_generation: 9,
            tenant_root_dek: [8; 32],
        },
        LoginEvent::Completed,
        LoginEvent::Completed,
        LoginEvent::Completed,
        LoginEvent::Completed,
    ]);
    assert_eq!(completed.step, LoginStep::Done);
    assert_eq!(completed.login.keys.tenant_generation, 9);
    assert_eq!(completed.login.keys.tenant_root_dek, [8; 32]);
    assert_eq!(completed.issuer, "https://sync.example.com");
    let answer = authenticated(&completed.login.session, None);
    assert!(answer.session.logged_in);
    assert_eq!(answer.session.email, Some(pending().email));
    assert_eq!(answer.session.device_id, Some(pending().device_id));
    assert_eq!(answer.recovery_key, None);
}

#[test]
fn a_login_names_the_tenant_and_the_user() {
    let mut login = begin();
    let (tenant_id, user_id) = login.identity().unwrap();
    assert_eq!(Some(tenant_id), Uuid::parse(&pending().tenant_id));
    assert_eq!(Some(user_id), Uuid::parse(&pending().user_id));
    login.login.session.user_id = "nobody".to_string();
    assert_eq!(login.identity(), Err(ClientError::IncompleteAccountState));
}

#[test]
fn an_expired_access_token_is_refreshed_before_certification() {
    let refresh = run(vec![LoginEvent::Completed, LoginEvent::Clock(1_000)]);
    assert_eq!(refresh.step, LoginStep::RefreshTokens { now: 1_000 });
    let certify = run(vec![
        LoginEvent::Completed,
        LoginEvent::Clock(1_000),
        LoginEvent::Refreshed(new_tokens()),
        LoginEvent::Completed,
    ]);
    assert_eq!(certify.step, LoginStep::Certify { now: 1_000 });
    assert_eq!(certify.login.session.tokens.refresh_token, "new refresh");
    match StoredPendingLogin::from_provisional(&certify.issuer, &certify.login) {
        Ok(stored) => assert_eq!(stored.access_token, "new access"),
        Err(error) => panic!("the login cannot be stored: {error:?}"),
    }
}

#[test]
fn a_refused_login_is_revoked_before_it_is_forgotten() {
    let refused = || {
        run(vec![
            LoginEvent::Completed,
            LoginEvent::Clock(600),
            LoginEvent::Refused(AccountClientError::EntitlementRequired),
        ])
    };
    let error = ClientError::EntitlementRequired;
    let mut revoking = refused();
    assert_eq!(revoking.step, LoginStep::Revoke { error });
    revoking.resume_pending_login(LoginEvent::Completed);
    assert_eq!(revoking.step, LoginStep::DeleteCredential { error });
    revoking.resume_pending_login(LoginEvent::Completed);
    assert_eq!(revoking.step, LoginStep::Failed(error));
    let mut kept = refused();
    kept.resume_pending_login(LoginEvent::Refused(AccountClientError::Other));
    assert_eq!(kept.step, LoginStep::Failed(ClientError::AccountRequest));
    let in_time = run(vec![
        LoginEvent::Completed,
        LoginEvent::Clock(100),
        LoginEvent::Refused(AccountClientError::Other),
    ]);
    assert_eq!(in_time.step, LoginStep::Failed(ClientError::AccountRequest));
    let error = ClientError::AccountRequest;
    let over = run(vec![LoginEvent::Completed, LoginEvent::Clock(10_000)]);
    assert_eq!(over.step, LoginStep::DeleteCredential { error });
    let ungranted = run(vec![
        LoginEvent::Completed,
        LoginEvent::Clock(1_000),
        LoginEvent::Refused(AccountClientError::InvalidGrant),
    ]);
    assert_eq!(ungranted.step, LoginStep::Revoke { error });
    let error = ClientError::ProfileIdentityMismatch;
    let stranger = run(vec![LoginEvent::Failed(error)]);
    assert_eq!(stranger.step, LoginStep::Revoke { error });
}

fn pending() -> StoredPendingLogin {
    StoredPendingLogin {
        version: SESSION_TOKEN_SET_VERSION,
        issuer: "https://sync.example.com".to_string(),
        email: "User@Example.com".to_string(),
        user_id: "00000000-0000-4000-8000-000000000001".to_string(),
        tenant_id: "00000000-0000-4000-8000-000000000002".to_string(),
        device_id: "00000000-0000-4000-8000-000000000003".to_string(),
        access_token: "access-secret".to_string(),
        access_expires_at_ms: 1_000,
        refresh_token: "refresh-secret".to_string(),
        refresh_expires_at_ms: 10_000,
        challenge_expires_at_ms: 500,
        local_wrapped_master_key: vec![1],
        generation: 1,
        tenant_generation: 1,
        master_key: vec![2; 32],
        account_root_private: vec![3; 64],
        account_root_public: vec![4],
        tenant_root_dek: vec![5; 32],
        device_identity: vec![6],
        enrollment_suite_id: 2,
        enrollment_account_root_public: "root".to_string(),
        enrollment_device_certificate: "certificate".to_string(),
        enrollment_certificate_fingerprint: "fingerprint".to_string(),
        enrollment_proof_signature: "proof".to_string(),
    }
}

fn own_server() -> Result<String, ClientError> {
    Ok("https://own.example.com/".to_string())
}

fn canonical(address: &str) -> Option<String> {
    if address.starts_with("https://") {
        Some(address.trim_end_matches('/').to_string())
    } else {
        None
    }
}

fn server() -> Option<String> {
    Some("https://sync.example.com".to_string())
}

#[test]
fn a_pending_login_is_only_resumed_by_the_same_account_at_the_same_server() {
    assert!(matches!(
        begin_account_auth(
            AccountAuthMode::Login,
            server(),
            own_server(),
            canonical,
            "  user@example.com\n",
            Ok(Some(pending())),
            Ok(false)
        ),
        Ok(AuthStart::ResumePending(_))
    ));
    assert!(matches!(
        begin_account_auth(
            AccountAuthMode::Login,
            server(),
            own_server(),
            canonical,
            "other@example.com",
            Ok(Some(pending())),
            Ok(false)
        ),
        Err(ClientError::AccountRequest)
    ));
    assert!(matches!(
        begin_account_auth(
            AccountAuthMode::Register,
            server(),
            own_server(),
            canonical,
            "user@example.com",
            Ok(Some(pending())),
            Ok(false)
        ),
        Err(ClientError::AccountRequest)
    ));
    assert!(matches!(
        begin_account_auth(
            AccountAuthMode::Login,
            Some("https://attacker.example".to_string()),
            own_server(),
            canonical,
            "user@example.com",
            Ok(Some(pending())),
            Ok(false)
        ),
        Err(ClientError::AccountRequest)
    ));
}

#[test]
fn an_active_session_or_an_unreadable_server_stops_an_attempt() {
    assert!(matches!(
        begin_account_auth(
            AccountAuthMode::Login,
            server(),
            own_server(),
            canonical,
            "a@b",
            Ok(None),
            Ok(true)
        ),
        Err(ClientError::AccountRequest)
    ));
    assert!(matches!(
        begin_account_auth(
            AccountAuthMode::Login,
            Some("nowhere".to_string()),
            own_server(),
            canonical,
            "a@b",
            Ok(None),
            Ok(false)
        ),
        Err(ClientError::AccountRequest)
    ));
    match begin_account_auth(
            AccountAuthMode::Register,
            server(),
            own_server(),
            canonical,
            "a@b",
            Ok(None),
            Ok(false)
        ) {
        Ok(AuthStart::Register { server_url }) => {
            assert_eq!(server_url, "https://sync.example.com");
        }
        _ => panic!("a registration did not start"),
    }
    let own = |server| {
        let email = "a@b";
        begin_account_auth(
            AccountAuthMode::Login,
            None,
            server,
            canonical,
            email,
            Ok(None),
            Ok(false),
        )
    };
    match own(own_server()) {
        Ok(AuthStart::Login { server_url }) => assert_eq!(server_url, "https://own.example.com"),
        _ => panic!("a login did not start"),
    }
    assert!(matches!(own(Err(ClientError::Busy)), Err(ClientError::Busy)));
}

#[test]
fn a_bound_profile_takes_no_registration() {
    assert_eq!(
        ensure_profile_is_unbound_for_registration(Ok(false), Ok(false)),
        Ok(())
    );
    assert_eq!(
        ensure_profile_is_unbound_for_registration(Ok(true), Ok(false)),
        Err(ClientError::ProfileAlreadyBound)
    );
    assert_eq!(
        ensure_profile_is_unbound_for_registration(Ok(false), Ok(true)),
        Err(ClientError::ProfileAlreadyBound)
    );
    assert_eq!(
        ensure_profile_is_unbound_for_registration(Err(ClientError::DatabaseBusy), Ok(true)),
        Err(ClientError::DatabaseBusy)
    );
}

#[test]
fn the_credential_is_the_last_thing_to_be_stored() {
    let mut step = PersistStep::RebindDevice;
    let mut steps = 0;
    while step != PersistStep::PublishCredential {
        assert_eq!(
            persist_account_step(step, StepResult::Failed(ClientError::KeyStore)),
            PersistStep::Failed(ClientError::KeyStore)
        );
        step = persist_account_step(step, StepResult::Completed);
        steps += 1;
    }
    assert_eq!(steps, 10);
    assert_eq!(
        persist_account_step(step, StepResult::Completed),
        PersistStep::Done
    );
}

#[test]
fn a_rebinding_that_fails_is_a_sync_failure() {
    let mut step = RebindStep::BeginTransaction;
    for expected in [
        RebindStep::RebindDevice,
        RebindStep::StoreDeviceId,
        RebindStep::Commit,
        RebindStep::Done,
    ] {
        assert_eq!(
            rebind_sync_device(step, StepResult::Failed(ClientError::DatabaseBusy)),
            RebindStep::Failed(ClientError::Sync)
        );
        step = rebind_sync_device(step, StepResult::Completed);
        assert_eq!(step, expected);
    }
}

/// What a rebinding moves: the clock, the stored device and the pending changes.
#[derive(Clone, Debug, PartialEq, Eq)]
struct DeviceBinding {
    clock: String,
    device_id: String,
    pending: Vec<(u128, String)>,
}

/// Rebinds a device in a transaction that is a copy until it is committed; the pending
/// changes can be made to refuse.
fn rebind(binding: &mut DeviceBinding, device_id: &str, refuses: bool) -> RebindStep {
    let mut step = RebindStep::BeginTransaction;
    let mut transaction = binding.clone();
    loop {
        let result = match step {
            RebindStep::BeginTransaction => StepResult::Completed,
            RebindStep::RebindDevice => {
                transaction.clock = format!("200:0:{device_id}");
                if refuses {
                    StepResult::Failed(ClientError::DatabaseBusy)
                } else {
                    for change in transaction.pending.iter_mut() {
                        change.1 = transaction.clock.clone();
                    }
                    StepResult::Completed
                }
            }
            RebindStep::StoreDeviceId => {
                transaction.device_id = device_id.to_string();
                StepResult::Completed
            }
            RebindStep::Commit => {
                *binding = transaction.clone();
                StepResult::Completed
            }
            RebindStep::Done | RebindStep::Failed(_) => return step,
        };
        step = rebind_sync_device(step, result);
    }
}

#[test]
fn device_rebind_failure_rolls_back_clock_outbox_and_account_device() {
    let old_device = "00000000-0000-0000-0000-000000000001";
    let old_clock = format!("100:5:{old_device}");
    let mut store = DeviceBinding {
        clock: old_clock.clone(),
        device_id: old_device.to_string(),
        pending: vec![(7, old_clock.clone())],
    };

    let new_device = "00000000-0000-0000-0000-000000000002";
    assert_eq!(
        rebind(&mut store, new_device, true),
        RebindStep::Failed(ClientError::Sync)
    );

    assert_eq!(store.clock, old_clock);
    assert_eq!(store.device_id, old_device);
    assert_eq!(store.pending.len(), 1);
    assert_eq!(store.pending[0].0, 7);
    assert_eq!(store.pending[0].1, old_clock);

    assert_eq!(rebind(&mut store, new_device, false), RebindStep::Done);
    assert_eq!(store.device_id, new_device);
    assert_eq!(store.pending[0].1, store.clock);
}

#[test]
fn a_failed_persistence_can_be_repeated_from_its_start() {
    let mut step = PersistStep::RebindDevice;
    for _ in 0..3 {
        step = persist_account_step(step, StepResult::Completed);
    }
    step = persist_account_step(step, StepResult::Failed(ClientError::DatabaseBusy));
    assert_eq!(step, PersistStep::Failed(ClientError::DatabaseBusy));
    assert_eq!(persist_account_step(step, StepResult::Completed), step);

    let mut published = 0;
    let mut step = PersistStep::RebindDevice;
    while step != PersistStep::Done {
        if step == PersistStep::PublishCredential {
            published += 1;
        }
        step = persist_account_step(step, StepResult::Completed);
    }
    assert_eq!(published, 1);
}

#[test]
fn a_registration_goes_through_its_steps() {
    let mut step = RegistrationStep::CheckUnbound;
    for expected in [
        RegistrationStep::Register,
        RegistrationStep::StoreDeviceIdentity,
        RegistrationStep::PersistAccount,
        RegistrationStep::StoreServer,
        RegistrationStep::ReplaceRuntime,
        RegistrationStep::Done,
    ] {
        step = account_register(step, StepResult::Completed);
        assert_eq!(step, expected);
    }
    assert_eq!(
        account_register(
            RegistrationStep::Register,
            StepResult::Failed(ClientError::EntitlementRequired)
        ),
        RegistrationStep::Failed(ClientError::AccountRequest)
    );
    assert_eq!(
        account_register(
            RegistrationStep::CheckUnbound,
            StepResult::Failed(ClientError::ProfileAlreadyBound)
        ),
        RegistrationStep::Failed(ClientError::ProfileAlreadyBound)
    );
}

#[test]
fn a_master_key_needs_an_active_capsule() {
    let with_key = |capsule: u8, key: Vec<u8>| Some((capsule, key));
    let wrap = |capsule: (u8, Vec<u8>), key: Vec<u8>| with_key(capsule.0, key);
    let mut stored = None;
    assert_eq!(
        store_active_wrapped_master_key(
            Some(Some((7, Vec::new()))),
            vec![1, 2],
            wrap,
            |capsule: (u8, Vec<u8>)| {
                stored = Some(capsule);
                true
            }
        ),
        Ok(())
    );
    assert_eq!(stored, Some((7, vec![1, 2])));
    assert_eq!(
        store_active_wrapped_master_key(Some(None), vec![1], wrap, |_capsule: (u8, Vec<u8>)| true),
        Err(ClientError::LocalKeyState)
    );
    assert_eq!(
        store_active_wrapped_master_key(None, vec![1], wrap, |_capsule: (u8, Vec<u8>)| true),
        Err(ClientError::KeyStore)
    );
    assert_eq!(
        store_active_wrapped_master_key(
            Some(Some((7, Vec::new()))),
            vec![1],
            wrap,
            |_capsule: (u8, Vec<u8>)| false
        ),
        Err(ClientError::KeyStore)
    );
}

#[test]
fn only_a_complete_pending_login_is_stored() {
    match store_pending_login(pending(), &server()) {
        Ok(StoredSessionCredential::PendingDeviceCertification(stored)) => {
            assert_eq!(stored.email, "User@Example.com");
        }
        _ => panic!("a complete login was not stored"),
    }
    let mut keyless = pending();
    keyless.master_key.pop();
    assert!(matches!(
        store_pending_login(keyless, &server()),
        Err(ClientError::IncompleteAccountState)
    ));
    assert!(matches!(
        store_pending_login(pending(), &None),
        Err(ClientError::IncompleteAccountState)
    ));
}
