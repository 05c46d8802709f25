use taskveil::error::ClientError;
use taskveil::profile_coordination::ProfileIdentity;
use taskveil::windows_security::{
    advance_lock_open, begin_lock_open, judge_ace, map_windows_open_error,
    reject_untrusted_raw_write_aces, validate_windows_directory_info,
    validate_windows_file_security, validate_windows_lock_info, validate_windows_object_security,
    validate_windows_profile_security, windows_identity, windows_security_failure, AceVerdict,
    ExplicitEntry, LockOpenEvent, LockOpenStep, ObjectSecurity, OpenFailure, RawAce,
    SecurityReason, SidFacts, TrusteeForm, TrusteeIdentity, WindowsHandleInfo, DANGEROUS_RIGHTS,
    INHERIT_ONLY, PROFILE_FILE_ACCESS, PROFILE_ROOT_ACCESS,
};

fn ace(ace_type: u8, flags: u8, mask: u32, behind: &[u8]) -> RawAce {
    let mut body = mask.to_le_bytes().to_vec();
    body.extend_from_slice(behind);
    RawAce {
        ace_type,
        flags,
        size: 4 + body.len() as u16,
        body,
    }
}

#[test]
fn entries_are_judged_by_their_bytes() {
    let sid = [1; 12];
    let harmless = AceVerdict::Harmless;
    assert_eq!(
        judge_ace(&ace(0, 0, 0x2, &sid), DANGEROUS_RIGHTS, false),
        AceVerdict::GrantsTo { sid_offset: 8 }
    );
    assert_eq!(judge_ace(&ace(0, 0, 0x1, &sid), DANGEROUS_RIGHTS, false), harmless);
    assert_eq!(judge_ace(&ace(1, 0, 0x2, &sid), DANGEROUS_RIGHTS, false), harmless);
    assert_eq!(
        judge_ace(&ace(0, INHERIT_ONLY | 1, 0x2, &sid), DANGEROUS_RIGHTS, false),
        harmless
    );
    assert_eq!(
        judge_ace(&ace(0, INHERIT_ONLY | 1, 0x2, &sid), DANGEROUS_RIGHTS, true),
        AceVerdict::GrantsTo { sid_offset: 8 }
    );
    let mut object = 3_u32.to_le_bytes().to_vec();
    object.extend_from_slice(&[0; 44]);
    assert_eq!(
        judge_ace(&ace(5, 0, 0x2, &object), DANGEROUS_RIGHTS, false),
        AceVerdict::GrantsTo { sid_offset: 44 }
    );
    assert_eq!(
        judge_ace(&ace(4, 0, 0x2, &sid), DANGEROUS_RIGHTS, false),
        AceVerdict::Rejected(SecurityReason::CompoundAllowAce)
    );
    assert_eq!(
        judge_ace(&ace(99, 0, 0x2, &sid), DANGEROUS_RIGHTS, false),
        AceVerdict::Rejected(SecurityReason::UnknownAllowAce)
    );
    assert_eq!(
        judge_ace(&ace(5, 0, 0x2, &[]), DANGEROUS_RIGHTS, false),
        AceVerdict::Rejected(SecurityReason::ObjectAceSize)
    );
    assert_eq!(
        judge_ace(&ace(0, 0, 0x2, &[]), DANGEROUS_RIGHTS, false),
        AceVerdict::Rejected(SecurityReason::RawSidOffset)
    );
    let stub = RawAce {
        ace_type: 0,
        flags: 0,
        size: 4,
        body: Vec::new(),
    };
    assert_eq!(
        judge_ace(&stub, DANGEROUS_RIGHTS, false),
        AceVerdict::Rejected(SecurityReason::RawAceSize)
    );
}

const NOBODY: TrusteeIdentity = TrusteeIdentity {
    is_user: false,
    is_system: false,
    is_administrators: false,
    is_creator_owner: false,
    is_creator_owner_rights: false,
};

fn facts(valid: bool, length: usize, is_user: bool) -> SidFacts {
    SidFacts {
        valid,
        length,
        identity: TrusteeIdentity { is_user, ..NOBODY },
    }
}

#[test]
fn the_user_the_machine_and_the_placeholders_of_owners_are_trusted() {
    assert!(!NOBODY.is_trusted());
    for identity in [
        TrusteeIdentity { is_user: true, ..NOBODY },
        TrusteeIdentity { is_system: true, ..NOBODY },
        TrusteeIdentity { is_administrators: true, ..NOBODY },
        TrusteeIdentity { is_creator_owner: true, ..NOBODY },
        TrusteeIdentity { is_creator_owner_rights: true, ..NOBODY },
    ] {
        assert!(identity.is_trusted());
    }
}

#[test]
fn an_untrusted_grant_is_refused() {
    let aces = || vec![Some(ace(1, 0, 0x2, &[1; 12])), Some(ace(0, 0, 0x2, &[1; 12]))];
    let judge = |sid: SidFacts| {
        reject_untrusted_raw_write_aces(
            &aces(),
            DANGEROUS_RIGHTS,
            false,
            |_index: usize, _offset: usize| sid,
        )
    };
    assert_eq!(judge(facts(true, 12, true)), Ok(()));
    assert_eq!(
        judge(facts(true, 12, false)),
        Err(SecurityReason::UntrustedRawWrite)
    );
    assert_eq!(judge(facts(false, 12, true)), Err(SecurityReason::RawSid));
    assert_eq!(judge(facts(true, 13, true)), Err(SecurityReason::RawSidSize));
    assert_eq!(judge(facts(true, 0, true)), Err(SecurityReason::RawSidSize));
    assert_eq!(
        reject_untrusted_raw_write_aces(
            &vec![None],
            DANGEROUS_RIGHTS,
            false,
            |_index: usize, _offset: usize| facts(true, 12, true)
        ),
        Err(SecurityReason::RawAce)
    );
    assert_eq!(
        windows_security_failure(SecurityReason::RawAce),
        ClientError::ProfileLockUnsupported
    );
}

fn object(entries: Vec<ExplicitEntry>) -> ObjectSecurity {
    ObjectSecurity {
        descriptor_read: true,
        token_read: true,
        token_user_present: true,
        machine_sids_known: true,
        owner_is_user: true,
        owner_is_system: false,
        owner_is_administrators: false,
        access_checked: true,
        access_allowed: true,
        granted_access: 0x7,
        creator_sids_known: true,
        entries: Some(entries),
    }
}

fn entry() -> ExplicitEntry {
    ExplicitEntry {
        multiple_trustee: false,
        form: TrusteeForm::Sid,
        sid_present: true,
        identity: NOBODY,
        effective: Some(0x1),
    }
}

fn stranger(_index: usize, _offset: usize) -> SidFacts {
    SidFacts {
        valid: true,
        length: 12,
        identity: NOBODY,
    }
}

fn verdict(object: &ObjectSecurity) -> Result<(), SecurityReason> {
    validate_windows_object_security(object, 0x3, false, &Vec::new(), stranger)
}

#[test]
fn an_object_is_refused_for_the_first_thing_that_is_wrong_with_it() {
    assert_eq!(verdict(&object(vec![entry()])), Ok(()));
    let mut unread = object(Vec::new());
    unread.descriptor_read = false;
    assert_eq!(verdict(&unread), Err(SecurityReason::SecurityDescriptor));
    let mut tokenless = object(Vec::new());
    tokenless.token_read = false;
    assert_eq!(verdict(&tokenless), Err(SecurityReason::Token));
    let mut nobody = object(Vec::new());
    nobody.token_user_present = false;
    assert_eq!(verdict(&nobody), Err(SecurityReason::TokenUser));
    let mut unknown = object(Vec::new());
    unknown.machine_sids_known = false;
    assert_eq!(verdict(&unknown), Err(SecurityReason::WellKnownSid));
    let mut foreign = object(Vec::new());
    foreign.owner_is_user = false;
    assert_eq!(verdict(&foreign), Err(SecurityReason::Owner));
    let mut weak = object(Vec::new());
    weak.granted_access = 0x1;
    assert_eq!(verdict(&weak), Err(SecurityReason::CurrentAccess));
    let mut unlisted = object(Vec::new());
    unlisted.entries = None;
    assert_eq!(verdict(&unlisted), Err(SecurityReason::AclEntries));
    assert_eq!(
        validate_windows_object_security(
            &object(Vec::new()),
            0x3,
            false,
            &vec![Some(ace(0, 0, 0x2, &[1; 12]))],
            stranger
        ),
        Err(SecurityReason::UntrustedRawWrite)
    );
}

#[test]
fn what_children_inherit_counts_for_the_directory_alone() {
    let mut whole = object(Vec::new());
    whole.granted_access = PROFILE_ROOT_ACCESS;
    let inherited = vec![Some(ace(0, INHERIT_ONLY | 1, 0x2, &[1; 12]))];
    assert_eq!(
        validate_windows_profile_security(&whole, &Vec::new(), stranger),
        Ok(())
    );
    assert_eq!(
        validate_windows_profile_security(&whole, &inherited, stranger),
        Err(ClientError::ProfileLockUnsupported)
    );
    assert_eq!(
        validate_windows_file_security(&whole, &inherited, stranger),
        Ok(())
    );
    whole.granted_access = PROFILE_FILE_ACCESS;
    assert_eq!(
        validate_windows_file_security(&whole, &Vec::new(), stranger),
        Ok(())
    );
    assert_eq!(
        validate_windows_profile_security(&whole, &Vec::new(), stranger),
        Err(ClientError::ProfileLockUnsupported)
    );
}

#[test]
fn explicit_entries_are_judged_one_by_one() {
    let mut multiple = entry();
    multiple.multiple_trustee = true;
    assert_eq!(
        verdict(&object(vec![entry(), multiple])),
        Err(SecurityReason::MultipleTrustee)
    );
    let mut faceless = entry();
    faceless.form = TrusteeForm::ObjectsAndSid {
        object_present: false,
    };
    assert_eq!(
        verdict(&object(vec![faceless])),
        Err(SecurityReason::ObjectTrustee)
    );
    let mut odd = entry();
    odd.form = TrusteeForm::Unknown;
    assert_eq!(verdict(&object(vec![odd])), Err(SecurityReason::TrusteeForm));
    let mut anonymous = entry();
    anonymous.sid_present = false;
    assert_eq!(
        verdict(&object(vec![anonymous])),
        Err(SecurityReason::TrusteeSid)
    );
    let mut writer = entry();
    writer.effective = Some(0x2);
    assert_eq!(
        verdict(&object(vec![writer])),
        Err(SecurityReason::UntrustedEffectiveWrite)
    );
    writer.identity.is_system = true;
    assert_eq!(verdict(&object(vec![writer])), Ok(()));
    let mut opaque = entry();
    opaque.effective = None;
    assert_eq!(
        verdict(&object(vec![opaque])),
        Err(SecurityReason::UntrustedEffectiveWrite)
    );
}

fn info(inode: u64, attributes: u32, link_count: u32) -> WindowsHandleInfo {
    WindowsHandleInfo {
        identity: ProfileIdentity {
            volume_serial_or_device: 1,
            file_index_or_inode: inode,
        },
        attributes,
        link_count,
    }
}

#[test]
fn directories_links_and_reparse_points_are_no_lock_files() {
    assert_eq!(validate_windows_lock_info(&info(1, 0, 1)), Ok(()));
    for odd in [info(1, 16, 1), info(1, 1024, 1), info(1, 0, 2)] {
        assert_eq!(
            validate_windows_lock_info(&odd),
            Err(ClientError::ProfileLockUnsupported)
        );
    }
    assert_eq!(validate_windows_directory_info(&info(1, 16, 1)), Ok(()));
    assert_eq!(
        validate_windows_directory_info(&info(1, 16 | 1024, 1)),
        Err(ClientError::ProfileLockUnsupported)
    );
    assert_eq!(
        windows_identity(7, 1, 2),
        ProfileIdentity {
            volume_serial_or_device: 7,
            file_index_or_inode: 0x1_0000_0002
        }
    );
    assert_eq!(
        map_windows_open_error(OpenFailure::Unsupported),
        ClientError::ProfileLockUnsupported
    );
    assert_eq!(map_windows_open_error(OpenFailure::Other), ClientError::Io);
}

#[test]
fn the_file_that_is_locked_is_the_one_that_was_looked_at() {
    let inspected = advance_lock_open(begin_lock_open(), LockOpenEvent::Info(info(5, 0, 1)));
    assert_eq!(
        advance_lock_open(inspected, LockOpenEvent::Info(info(5, 0, 1))),
        LockOpenStep::CheckSecurity
    );
    assert_eq!(
        advance_lock_open(inspected, LockOpenEvent::Info(info(6, 0, 1))),
        LockOpenStep::Failed(ClientError::ProfileLockUnsupported)
    );
    let missing = LockOpenEvent::OpenFailed(OpenFailure::NotFound);
    let raced = LockOpenEvent::OpenFailed(OpenFailure::AlreadyExists);
    let mut step = begin_lock_open();
    for _ in 0..3 {
        step = advance_lock_open(step, missing);
        step = advance_lock_open(step, raced);
    }
    step = advance_lock_open(step, missing);
    assert_eq!(
        advance_lock_open(step, raced),
        LockOpenStep::Failed(ClientError::ProfileLockUnsupported)
    );
    let created = advance_lock_open(step, LockOpenEvent::Info(info(8, 0, 1)));
    assert_eq!(
        advance_lock_open(created, LockOpenEvent::Info(info(8, 0, 1))),
        LockOpenStep::CheckSecurity
    );
    assert_eq!(
        advance_lock_open(created, LockOpenEvent::InfoFailed),
        LockOpenStep::Failed(ClientError::ProfileLockUnsupported)
    );
}
