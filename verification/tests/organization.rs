use taskveil::error::ClientError;
use taskveil::ids::Uuid;
use taskveil::organization_flow::{
    admit_organization, admit_pin, check_confirmed_digest, confirm_organization_safety_number,
    decode_trust_hash, decode_trust_root, expected_recipients, load_organization_trust_pin,
    organization_safety_number, organization_trust_pin_key, plan_bundle_check,
    plan_device_revocation, revoke_organization_device, store_organization_trust_pin,
    verify_local_safety_participant, verify_organization_active_key_bundle,
    verify_organization_device_rosters, AccountRootPublicKeys, AdmissionSettings,
    AdmittedOrganization, DeviceRoster, RosterHead, RosterSide,
};
use taskveil::organization_trust::OrganizationTrustPin;
use taskveil::protocol::organization::{OrganizationDeviceDto, OrganizationSafetyResponse};

const OWNER: Uuid = Uuid { value: 1 };
const MEMBER: Uuid = Uuid { value: 2 };

fn response() -> OrganizationSafetyResponse {
    OrganizationSafetyResponse {
        owner_user_id: OWNER,
        member_user_id: MEMBER,
        owner_root_public: "owner-root".to_string(),
        member_root_public: "member-root".to_string(),
        digest: "digest".to_string(),
        decimal: "decimal".to_string(),
        qr_payload: "qr".to_string(),
        verification_state: "verified".to_string(),
        owner_confirmed: true,
        member_confirmed: true,
    }
}

fn confirmed(shown: &OrganizationSafetyResponse) -> OrganizationTrustPin {
    let compared = check_confirmed_digest(shown.clone(), Ok(()), shown.digest.clone())
        .ok()
        .unwrap();
    let (pin, _) = confirm_organization_safety_number(&compared, shown.clone(), Ok(())).unwrap();
    pin
}

#[test]
fn organization_trust_pin_is_strict_and_root_changes_require_reconfirmation() {
    let response = response();
    let mut pin = OrganizationTrustPin::candidate(&response);
    pin.locally_confirmed = true;
    pin.minimum_generation = 7;
    pin.owner_roster_revision = 3;
    pin.member_roster_revision = 4;
    assert_eq!(
        OrganizationTrustPin::decode(&pin.encode()),
        Some(pin.clone())
    );
    assert!(pin.matches(&response));

    let mut substituted = response;
    substituted.member_root_public = "server-substituted-root".to_string();
    assert!(!pin.matches(&substituted));
    assert!(OrganizationTrustPin::decode("partial|pin").is_none());
    assert!(OrganizationTrustPin::decode("a|b|c|1|0|0|0").is_none());
}

const ZERO_HEAD: &str = "AAAAAAAAAAAAAAAAAAAAAAAAAAAAAAAAAAAAAAAAAAA=";

#[test]
fn a_written_pin_is_its_fields_with_bars_between_them() {
    let pin = OrganizationTrustPin::candidate(&response());
    assert_eq!(
        pin.encode(),
        format!("owner-root|member-root|digest|0|1|0|0|{ZERO_HEAD}|0|{ZERO_HEAD}")
    );
    for broken in [
        format!("|member-root|digest|0|1|0|0|{ZERO_HEAD}|0|{ZERO_HEAD}"),
        format!("owner-root|member-root|digest|2|1|0|0|{ZERO_HEAD}|0|{ZERO_HEAD}"),
        format!("owner-root|member-root|digest|0|0|0|0|{ZERO_HEAD}|0|{ZERO_HEAD}"),
        format!("owner-root|member-root|digest|0|5|5|0|{ZERO_HEAD}|0|{ZERO_HEAD}"),
        format!("owner-root|member-root|digest|0|1|0|0|AAAA|0|{ZERO_HEAD}"),
        format!("owner-root|member-root|digest|0|1|0|x|{ZERO_HEAD}|0|{ZERO_HEAD}"),
        format!("owner-root|member-root|digest|0|1|0|0|{ZERO_HEAD}|0|{ZERO_HEAD}|"),
    ] {
        assert!(OrganizationTrustPin::decode(&broken).is_none(), "{broken}");
    }
    let read = load_organization_trust_pin(Ok(Some(pin.encode()))).unwrap();
    assert_eq!(read, Some(pin));
    assert_eq!(load_organization_trust_pin(Ok(None)), Ok(None));
    assert_eq!(
        load_organization_trust_pin(Ok(Some("partial|pin".to_string()))),
        Err(ClientError::AccountRequest)
    );
}

#[test]
fn a_safety_number_counts_as_verified_only_after_a_confirmation_here() {
    let unseen = organization_safety_number(response(), Ok(()), Ok(None)).unwrap();
    assert_eq!(unseen.verification_state, "unverified");
    assert_eq!(
        unseen.owner_user_id,
        "00000000-0000-0000-0000-000000000001"
    );
    let compared = check_confirmed_digest(response(), Ok(()), "digest".to_string())
        .ok()
        .unwrap();
    assert_eq!(compared.digest(), "digest");
    let (pin, state) =
        confirm_organization_safety_number(&compared, response(), Ok(())).unwrap();
    assert!(pin.locally_confirmed);
    assert_eq!(state.verification_state, "verified");
    let seen = organization_safety_number(response(), Ok(()), Ok(Some(pin.clone()))).unwrap();
    assert_eq!(seen.verification_state, "verified");
    assert_eq!(admit_pin(Ok(Some(pin.clone())), &response()), Ok(pin.clone()));

    let mut substituted = response();
    substituted.owner_root_public = "server-substituted-root".to_string();
    assert_eq!(
        admit_pin(Ok(Some(pin)), &substituted),
        Err(ClientError::AccountRequest)
    );
    assert!(matches!(
        confirm_organization_safety_number(&compared, substituted, Ok(())),
        Err(ClientError::AccountRequest)
    ));
    assert_eq!(
        admit_pin(Ok(None), &response()),
        Err(ClientError::AccountRequest)
    );
    assert!(matches!(
        check_confirmed_digest(response(), Ok(()), "another".to_string()),
        Err(ClientError::AccountRequest)
    ));
    assert!(matches!(
        check_confirmed_digest(
            response(),
            Err(ClientError::IncompleteAccountState),
            "digest".to_string()
        ),
        Err(ClientError::IncompleteAccountState)
    ));
    assert!(matches!(
        organization_safety_number(response(), Err(ClientError::AccountRequest), Ok(None)),
        Err(ClientError::AccountRequest)
    ));
}

fn root(user_id: Uuid) -> impl Fn(Vec<u8>) -> Option<AccountRootPublicKeys> {
    move |bytes: Vec<u8>| {
        if bytes == [1, 2, 3] {
            Some(AccountRootPublicKeys {
                user_id,
                encoded: bytes,
            })
        } else {
            None
        }
    }
}

#[test]
fn a_profile_must_find_its_own_root_in_a_response() {
    let mut own = response();
    own.member_root_public = "AQID".to_string();
    let user = || Ok(Some("00000000-0000-0000-0000-000000000002".to_string()));
    assert_eq!(
        verify_local_safety_participant(&own, user(), Ok(Some("AQID".to_string())), &root(MEMBER)),
        Ok(())
    );
    assert_eq!(
        verify_local_safety_participant(&own, user(), Ok(Some("AQID".to_string())), &root(OWNER)),
        Err(ClientError::AccountRequest)
    );
    assert_eq!(
        verify_local_safety_participant(&own, user(), Ok(Some("AQIE".to_string())), &root(MEMBER)),
        Err(ClientError::AccountRequest)
    );
    assert_eq!(
        verify_local_safety_participant(&own, user(), Ok(None), &root(MEMBER)),
        Err(ClientError::IncompleteAccountState)
    );
    assert!(decode_trust_root("AQID", &root(OWNER)).is_ok());
    assert!(decode_trust_root("not base64!", &root(OWNER)).is_err());
}

const TENANT: Uuid = Uuid { value: 3 };
const OWNER_TEXT: &str = "00000000-0000-0000-0000-000000000001";
const MEMBER_TEXT: &str = "00000000-0000-0000-0000-000000000002";

fn pair() -> OrganizationSafetyResponse {
    let mut pair = response();
    pair.owner_root_public = "AQID".to_string();
    pair.member_root_public = "BAUG".to_string();
    pair
}

fn decode_pair(bytes: Vec<u8>) -> Option<AccountRootPublicKeys> {
    let user_id = if bytes == [1, 2, 3] {
        OWNER
    } else if bytes == [4, 5, 6] {
        MEMBER
    } else {
        return None;
    };
    Some(AccountRootPublicKeys {
        user_id,
        encoded: bytes,
    })
}

/// The settings of the owner's profile.
fn owner_settings(pin: &OrganizationTrustPin) -> AdmissionSettings {
    AdmissionSettings {
        user_id: Ok(Some(OWNER_TEXT.to_string())),
        root_public: Ok(Some("AQID".to_string())),
        pin: Ok(Some(pin.encode())),
    }
}

/// The settings of the member's profile.
fn member_settings(pin: &OrganizationTrustPin) -> AdmissionSettings {
    AdmissionSettings {
        user_id: Ok(Some(MEMBER_TEXT.to_string())),
        root_public: Ok(Some("BAUG".to_string())),
        pin: Ok(Some(pin.encode())),
    }
}

fn admitted(pin: &OrganizationTrustPin) -> AdmittedOrganization {
    admit_organization(TENANT, MEMBER, Some(pair()), owner_settings(pin), decode_pair)
        .ok()
        .unwrap()
}

#[test]
fn an_operation_needs_a_standing_pin_and_the_members_root() {
    let pin = confirmed(&pair());
    let organization = admitted(&pin);
    assert_eq!(*organization.pin(), pin);
    assert_eq!(organization.owner_root().user_id, OWNER);
    assert_eq!(organization.member_root().encoded, vec![4, 5, 6]);

    let mut unverified = pair();
    unverified.verification_state = "unverified".to_string();
    let mut substituted = pair();
    substituted.member_root_public = "BwgJ".to_string();
    let mut unconfirmed = pin.clone();
    unconfirmed.locally_confirmed = false;
    let mut without_pin = owner_settings(&pin);
    without_pin.pin = Ok(None);
    let mut broken_pin = owner_settings(&pin);
    broken_pin.pin = Ok(Some("partial|pin".to_string()));
    let refusals = [
        admit_organization(TENANT, OWNER, Some(pair()), owner_settings(&pin), decode_pair),
        admit_organization(TENANT, MEMBER, None, owner_settings(&pin), decode_pair),
        admit_organization(TENANT, MEMBER, Some(pair()), without_pin, decode_pair),
        admit_organization(TENANT, MEMBER, Some(pair()), broken_pin, decode_pair),
        admit_organization(
            TENANT,
            MEMBER,
            Some(pair()),
            owner_settings(&unconfirmed),
            decode_pair,
        ),
        admit_organization(TENANT, MEMBER, Some(unverified), owner_settings(&pin), decode_pair),
        admit_organization(TENANT, MEMBER, Some(substituted), owner_settings(&pin), decode_pair),
        admit_organization(TENANT, MEMBER, Some(response()), owner_settings(&pin), decode_pair),
    ];
    for refusal in refusals {
        assert!(matches!(refusal, Err(ClientError::AccountRequest)));
    }
    assert!(matches!(
        admit_organization(TENANT, MEMBER, Some(pair()), owner_settings(&pin), |_: Vec<u8>| None),
        Err(ClientError::AccountRequest)
    ));
    let mut nobody = owner_settings(&pin);
    nobody.user_id = Ok(None);
    assert!(matches!(
        admit_organization(TENANT, MEMBER, Some(pair()), nobody, decode_pair),
        Err(ClientError::IncompleteAccountState)
    ));
    let mut unreadable = owner_settings(&pin);
    unreadable.pin = Err(ClientError::DatabaseBusy);
    assert!(matches!(
        admit_organization(TENANT, MEMBER, Some(pair()), unreadable, decode_pair),
        Err(ClientError::DatabaseBusy)
    ));
}

#[test]
fn hashes_are_thirty_two_bytes() {
    assert_eq!(decode_trust_hash(ZERO_HEAD), Ok([0; 32]));
    assert_eq!(decode_trust_hash("AAAA"), Err(ClientError::AccountRequest));
    assert_eq!(decode_trust_hash("%"), Err(ClientError::AccountRequest));
    assert_eq!(
        organization_trust_pin_key(OWNER, MEMBER),
        "organization_trust:00000000-0000-0000-0000-000000000001:\
         00000000-0000-0000-0000-000000000002"
    );
}

fn head(revision: u64, byte: u8) -> RosterHead {
    RosterHead {
        revision,
        head_hash: [byte; 32],
    }
}

fn roster(revision: u64, byte: u8, devices: Vec<OrganizationDeviceDto>) -> DeviceRoster {
    DeviceRoster {
        head: head(revision, byte),
        devices,
    }
}

#[test]
fn rosters_that_move_ask_for_a_newer_generation() {
    let pin = confirmed(&pair());
    let trust = admitted(&pin).roster_trust(RosterSide::Owner).ok().unwrap();
    assert_eq!(trust.user_id, OWNER);
    assert_eq!(trust.root_public, "AQID");
    assert_eq!(trust.minimum_revision, 0);
    assert_eq!(trust.minimum_head_hash, [0; 32]);
    let trust = admitted(&pin).roster_trust(RosterSide::Member).ok().unwrap();
    assert_eq!(trust.user_id, MEMBER);
    assert_eq!(trust.root_public, "BAUG");

    let follow = |pin: &OrganizationTrustPin, owner, member| {
        verify_organization_device_rosters(admitted(pin), owner, member)
    };
    let moved = follow(&pin, Some(head(1, 8)), Some(head(0, 0))).unwrap();
    assert_eq!(moved.required_generation, 2);
    assert_eq!(moved.owner_roster_revision, 1);
    let again = follow(&moved, Some(head(1, 8)), Some(head(0, 0))).unwrap();
    assert_eq!(again, moved);
    for (owner, member) in [(None, Some(head(0, 0))), (Some(head(1, 8)), None)] {
        assert_eq!(
            follow(&moved, owner, member),
            Err(ClientError::AccountRequest)
        );
    }

    let check = plan_bundle_check(
        admitted(&again),
        Ok(()),
        Some(roster(1, 8, vec![device(OWNER, 10, false)])),
        Some(roster(0, 0, vec![device(MEMBER, 20, false)])),
        Some,
    )
    .ok()
    .unwrap();
    assert_eq!(check.minimum_generation(), 2);
    assert_eq!(*check.recipients(), vec![vec![1, 2, 3]; 2]);
    assert_eq!(check.organization().owner_root().user_id, OWNER);
    let (accepted, generation) = verify_organization_active_key_bundle(check, Some(3)).unwrap();
    assert_eq!(generation, 3);
    assert_eq!(accepted.minimum_generation, 3);
    assert_eq!(accepted.required_generation, 0);

    let check = plan_bundle_check(
        admitted(&accepted),
        Ok(()),
        Some(roster(1, 8, Vec::new())),
        Some(roster(0, 0, Vec::new())),
        Some,
    )
    .ok()
    .unwrap();
    assert_eq!(check.minimum_generation(), 3);
    assert!(matches!(
        verify_organization_active_key_bundle(check, None),
        Err(ClientError::AccountRequest)
    ));
    let devices = || Some(roster(1, 8, vec![device(OWNER, 10, false)]));
    let none = || Some(roster(0, 0, Vec::new()));
    assert!(matches!(
        plan_bundle_check(admitted(&accepted), Ok(()), devices(), none(), |_: Vec<u8>| None),
        Err(ClientError::AccountRequest)
    ));
    assert!(matches!(
        plan_bundle_check(
            admitted(&accepted),
            Err(ClientError::KeyStore),
            devices(),
            none(),
            Some
        ),
        Err(ClientError::KeyStore)
    ));
    assert!(matches!(
        plan_bundle_check(admitted(&accepted), Ok(()), devices(), None, Some),
        Err(ClientError::AccountRequest)
    ));

    let mut spent = accepted;
    spent.minimum_generation = u64::MAX;
    assert!(matches!(
        follow(&spent, Some(head(2, 9)), Some(head(0, 0))),
        Err(ClientError::AccountRequest)
    ));
}

fn device(user_id: Uuid, device_id: u128, revoked: bool) -> OrganizationDeviceDto {
    OrganizationDeviceDto {
        user_id,
        device_id: Uuid { value: device_id },
        account_root_public: "root".to_string(),
        certificate: "AQID".to_string(),
        certificate_fingerprint: "A".repeat(64),
        revoked,
    }
}

#[test]
fn a_device_is_revoked_under_the_next_revision() {
    let pin = confirmed(&pair());
    let organization = admitted(&pin);
    assert_eq!(organization.local_user_id(), OWNER);
    assert_eq!(organization.revocation_side(), RosterSide::Owner);
    let devices = |revision| {
        Some(roster(
            revision,
            7,
            vec![device(OWNER, 10, false), device(OWNER, 11, true)],
        ))
    };
    let plan = |roster, device_id, root_keys, now| {
        plan_device_revocation(
            admitted(&pin),
            roster,
            Uuid { value: device_id },
            root_keys,
            now,
        )
    };
    let ready = || plan(devices(4), 10, Ok(()), Ok(99)).ok().unwrap();
    let statement = ready();
    let statement = statement.statement();
    assert_eq!(statement.revision, 5);
    assert_eq!(statement.previous_head_hash, [7; 32]);
    assert_eq!(statement.device_id, Uuid { value: 10 });
    assert_eq!(statement.revoked_at_ms, 99);
    assert_eq!(statement.certificate_fingerprint, vec![0; 48]);
    let foreign = || Some(roster(4, 7, vec![device(MEMBER, 10, false)]));
    for refusal in [
        plan(devices(4), 12, Ok(()), Ok(99)),
        plan(foreign(), 10, Ok(()), Ok(99)),
        plan(None, 10, Ok(()), Ok(99)),
        plan(devices(u64::MAX), 10, Ok(()), Err(ClientError::RuntimeState)),
    ] {
        assert!(matches!(refusal, Err(ClientError::AccountRequest)));
    }
    assert!(matches!(
        plan(devices(4), 10, Err(ClientError::KeyStore), Err(ClientError::RuntimeState)),
        Err(ClientError::KeyStore)
    ));
    assert!(matches!(
        plan(devices(4), 10, Ok(()), Err(ClientError::RuntimeState)),
        Err(ClientError::RuntimeState)
    ));

    let revoked = revoke_organization_device(ready(), true, Some([3; 32])).unwrap();
    assert_eq!(revoked.owner_roster_revision, 5);
    assert_eq!(revoked.member_roster_revision, 0);
    assert_eq!(revoked.minimum_generation, 1);
    assert_eq!(revoked.required_generation, 2);
    assert_eq!(decode_trust_hash(&revoked.owner_roster_head_hash), Ok([3; 32]));
    assert_eq!(revoked.member_roster_head_hash, pin.member_roster_head_hash);
    assert_eq!(
        revoke_organization_device(ready(), false, Some([3; 32])),
        Err(ClientError::AccountRequest)
    );
    assert_eq!(
        revoke_organization_device(ready(), true, None),
        Err(ClientError::AccountRequest)
    );

    let members = admit_organization(
        TENANT,
        MEMBER,
        Some(pair()),
        member_settings(&pin),
        decode_pair,
    )
    .ok()
    .unwrap();
    assert_eq!(members.revocation_side(), RosterSide::Member);
    let of_member = plan_device_revocation(
        members,
        Some(roster(2, 6, vec![device(MEMBER, 20, false)])),
        Uuid { value: 20 },
        Ok(()),
        Ok(1),
    )
    .ok()
    .unwrap();
    let revoked = revoke_organization_device(of_member, true, Some([4; 32])).unwrap();
    assert_eq!(revoked.member_roster_revision, 3);
    assert_eq!(revoked.owner_roster_revision, 0);
    let (key, value) = store_organization_trust_pin(TENANT, MEMBER, &revoked);
    assert_eq!(key, organization_trust_pin_key(TENANT, MEMBER));
    assert_eq!(load_organization_trust_pin(Ok(Some(value))), Ok(Some(revoked)));
}

#[test]
fn keys_go_to_every_device_of_both_rosters() {
    let owners = vec![device(OWNER, 10, false)];
    let members = vec![device(MEMBER, 20, false), device(MEMBER, 21, false)];
    let recipients = expected_recipients(&owners, &members, &|certificate: Vec<u8>| {
        Some(certificate.into_iter().rev().collect())
    })
    .unwrap();
    assert_eq!(recipients, vec![vec![3, 2, 1]; 3]);
    assert!(matches!(
        expected_recipients(&owners, &members, &|_certificate: Vec<u8>| None),
        Err(ClientError::AccountRequest)
    ));
}
