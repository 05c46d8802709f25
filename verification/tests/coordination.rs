use std::rc::{Rc, Weak};

use taskveil::error::ClientError;
use taskveil::profile_coordination::{
    accept_unix_lock_file, accept_unix_root, acquire_session_token_set_lock,
    is_unsupported_lock_error, lock_result, pin_database, validate_pinned_paths,
    validate_profile_database_path, validate_profile_root_path, verify_unix_lock_file,
    CoordinatorRegistry, LockOutcome, ProcessLockState, ProfileIdentity, SessionLockState,
    UnixMetadata,
};

fn identity(inode: u64) -> ProfileIdentity {
    ProfileIdentity {
        volume_serial_or_device: 1,
        file_index_or_inode: inode,
    }
}

#[test]
fn canonical_aliases_share_process_coordinator() {
    let mut registry: CoordinatorRegistry<Weak<u8>> = CoordinatorRegistry::new();
    let first = Rc::new(1);
    assert!(registry
        .coordinator(identity(7), |held: &Weak<u8>| held.upgrade())
        .is_none());
    registry.register(identity(7), Rc::downgrade(&first));
    let second = registry
        .coordinator(identity(7), |held: &Weak<u8>| held.upgrade())
        .unwrap();
    assert!(Rc::ptr_eq(&first, &second));

    let mut shared = ProcessLockState::default();
    shared.try_exclusive(|| Ok(())).unwrap();
    assert!(matches!(
        shared.try_shared(|| Ok(())),
        Err(ClientError::ProfileBusy)
    ));

    drop(first);
    drop(second);
    assert!(registry
        .coordinator(identity(7), |held: &Weak<u8>| held.upgrade())
        .is_none());
    let replacement = Rc::new(2);
    registry.register(identity(7), Rc::downgrade(&replacement));
    assert_eq!(registry.entries.len(), 1);
}

#[test]
fn coordinators_that_nobody_holds_are_forgotten() {
    let mut registry: CoordinatorRegistry<Weak<u8>> = CoordinatorRegistry::new();
    let kept = Rc::new(1);
    let dropped = Rc::new(2);
    registry.register(identity(1), Rc::downgrade(&dropped));
    registry.register(identity(2), Rc::downgrade(&kept));
    drop(dropped);
    registry.retain_live(|held: &Weak<u8>| held.strong_count() != 0);
    assert_eq!(registry.entries.len(), 1);
    assert_eq!(registry.entries[0].0, identity(2));
}

#[test]
fn different_profiles_do_not_contend() {
    let mut registry: CoordinatorRegistry<u8> = CoordinatorRegistry::new();
    registry.register(identity(1), 11);
    registry.register(identity(2), 22);
    assert_eq!(registry.coordinator(identity(1), |held: &u8| Some(*held)), Some(11));
    assert_eq!(registry.coordinator(identity(2), |held: &u8| Some(*held)), Some(22));
    let mut first = ProcessLockState::default();
    let mut second = ProcessLockState::default();
    first.try_exclusive(|| Ok(())).unwrap();
    second.try_exclusive(|| Ok(())).unwrap();
}

#[test]
fn session_sublock_excludes_same_process_instances() {
    let mut session = SessionLockState::default();
    session.try_session(|| Ok(()), || Ok(())).unwrap();
    assert!(matches!(
        session.try_session(|| Ok(()), || Ok(())),
        Err(ClientError::Busy)
    ));
    session.release_session(|| true);
    session.try_session(|| Ok(()), || Ok(())).unwrap();
}

#[test]
fn session_token_set_lock_excludes_another_profile_instance() {
    assert_eq!(acquire_session_token_set_lock(LockOutcome::Locked), Ok(()));
    assert!(matches!(
        acquire_session_token_set_lock(LockOutcome::WouldBlock),
        Err(ClientError::Busy)
    ));
    assert!(matches!(
        acquire_session_token_set_lock(LockOutcome::Failed {
            unsupported: true,
            os_code: None
        }),
        Err(ClientError::Io)
    ));
}

#[test]
fn unlock_failure_permanently_poisons_the_coordinator() {
    let mut lock = ProcessLockState::default();
    lock.try_exclusive(|| Ok(())).unwrap();
    lock.release_exclusive(|| false);
    assert!(matches!(
        lock.try_shared(|| Ok(())),
        Err(ClientError::ProfileLockUnsupported)
    ));
    assert!(matches!(
        lock.try_exclusive(|| Ok(())),
        Err(ClientError::ProfileLockUnsupported)
    ));
    let mut session = SessionLockState::default();
    session.try_session(|| Ok(()), || Ok(())).unwrap();
    session.release_session(|| false);
    assert!(matches!(
        session.try_session(|| Ok(()), || Ok(())),
        Err(ClientError::ProfileLockUnsupported)
    ));
}

#[test]
fn dropping_one_shared_handle_does_not_release_the_other_process_lock() {
    let mut lock = ProcessLockState::default();
    let mut asked = 0;
    lock.try_shared(|| {
        asked += 1;
        Ok(())
    })
    .unwrap();
    lock.try_shared(|| {
        asked += 1;
        Ok(())
    })
    .unwrap();
    assert_eq!(asked, 1);
    let mut unlocked = 0;
    lock.release_shared(|| {
        unlocked += 1;
        true
    });
    assert_eq!(unlocked, 0);
    assert!(matches!(
        lock.try_exclusive(|| Ok(())),
        Err(ClientError::ProfileBusy)
    ));
    lock.release_shared(|| {
        unlocked += 1;
        true
    });
    assert_eq!(unlocked, 1);
    lock.try_exclusive(|| Ok(())).unwrap();
}

#[test]
fn a_lock_that_the_system_refuses_is_not_held() {
    let mut lock = ProcessLockState::default();
    assert_eq!(
        lock.try_shared(|| Err(ClientError::ProfileBusy)),
        Err(ClientError::ProfileBusy)
    );
    assert_eq!(lock, ProcessLockState::default());
    let mut session = SessionLockState::default();
    assert!(session
        .try_session(|| Err(ClientError::ProfileLockUnsupported), || Ok(()))
        .is_err());
    assert!(!session.held);
}

#[test]
fn a_database_is_pinned_once() {
    let mut pinned = None;
    pin_database(&mut pinned, Ok(identity(5))).unwrap();
    pin_database(&mut pinned, Ok(identity(5))).unwrap();
    assert_eq!(
        pin_database(&mut pinned, Ok(identity(6))),
        Err(ClientError::ProfileLockUnsupported)
    );
    assert_eq!(pinned, Some(identity(5)));
    assert_eq!(validate_pinned_paths(Ok(()), pinned, Ok(identity(5))), Ok(()));
    assert_eq!(
        validate_pinned_paths(Ok(()), pinned, Ok(identity(6))),
        Err(ClientError::ProfileLockUnsupported)
    );
    assert_eq!(
        validate_pinned_paths(Ok(()), None, Ok(identity(6))),
        Err(ClientError::ProfileLockUnsupported)
    );
}

fn directory() -> UnixMetadata {
    UnixMetadata {
        is_dir: true,
        is_file: false,
        is_symlink: false,
        uid: 501,
        mode: 0o40_755,
        nlink: 2,
        identity: identity(9),
    }
}

fn lock_file() -> UnixMetadata {
    UnixMetadata {
        is_dir: false,
        is_file: true,
        is_symlink: false,
        uid: 501,
        mode: 0o100_600,
        nlink: 1,
        identity: identity(10),
    }
}

#[test]
fn only_the_owner_may_write_to_a_profile() {
    assert_eq!(accept_unix_root(&directory(), 501), Ok(identity(9)));
    for unsafe_root in [
        UnixMetadata {
            mode: 0o40_775,
            ..directory()
        },
        UnixMetadata {
            uid: 0,
            ..directory()
        },
        UnixMetadata {
            is_dir: false,
            ..directory()
        },
    ] {
        assert_eq!(
            accept_unix_root(&unsafe_root, 501),
            Err(ClientError::ProfileLockUnsupported)
        );
    }
    assert_eq!(
        validate_profile_root_path(Some(directory()), 501, identity(9)),
        Ok(())
    );
    assert_eq!(
        validate_profile_root_path(Some(directory()), 501, identity(8)),
        Err(ClientError::ProfileLockUnsupported)
    );
    assert_eq!(
        validate_profile_root_path(None, 501, identity(9)),
        Err(ClientError::ProfileLockUnsupported)
    );
    assert_eq!(
        validate_profile_database_path(Some(lock_file()), 501),
        Ok(identity(10))
    );
    assert_eq!(
        validate_profile_database_path(None, 501),
        Err(ClientError::ProfileLockUnsupported)
    );
}

#[test]
fn a_lock_file_is_private_and_the_one_that_was_opened() {
    assert_eq!(accept_unix_lock_file(Some(lock_file()), 501), Ok(identity(10)));
    for unsafe_file in [
        UnixMetadata {
            mode: 0o100_640,
            ..lock_file()
        },
        UnixMetadata {
            nlink: 2,
            ..lock_file()
        },
        UnixMetadata {
            is_file: false,
            ..lock_file()
        },
    ] {
        assert_eq!(
            accept_unix_lock_file(Some(unsafe_file), 501),
            Err(ClientError::ProfileLockUnsupported)
        );
    }
    assert_eq!(
        verify_unix_lock_file(Some(lock_file()), 501, identity(10)),
        Ok(())
    );
    assert_eq!(
        verify_unix_lock_file(Some(lock_file()), 501, identity(11)),
        Err(ClientError::ProfileLockUnsupported)
    );
}

#[test]
fn lock_outcomes_are_told_apart() {
    let codes = vec![38, 95];
    assert_eq!(lock_result(LockOutcome::Locked, &codes), Ok(()));
    assert_eq!(
        lock_result(LockOutcome::WouldBlock, &codes),
        Err(ClientError::ProfileBusy)
    );
    assert_eq!(
        lock_result(
            LockOutcome::Failed {
                unsupported: false,
                os_code: Some(95)
            },
            &codes
        ),
        Err(ClientError::ProfileLockUnsupported)
    );
    assert_eq!(
        lock_result(
            LockOutcome::Failed {
                unsupported: false,
                os_code: Some(5)
            },
            &codes
        ),
        Err(ClientError::Io)
    );
    assert!(is_unsupported_lock_error(true, None, &Vec::new()));
    assert!(!is_unsupported_lock_error(false, None, &codes));
}

#[test]
fn guards_exclude_each_other_after_any_run() {
    let mut lock = ProcessLockState::default();
    lock.try_shared(|| Ok(())).unwrap();
    lock.try_shared(|| panic!("the lock is held already")).unwrap();
    lock.release_shared(|| panic!("another reader is there"));
    assert!(matches!(
        lock.try_exclusive(|| panic!("a reader is there")),
        Err(ClientError::ProfileBusy)
    ));
    lock.release_shared(|| true);
    lock.try_exclusive(|| Ok(())).unwrap();
    assert!(matches!(
        lock.try_shared(|| panic!("a writer is there")),
        Err(ClientError::ProfileBusy)
    ));
    lock.release_exclusive(|| true);
    lock.try_shared(|| Ok(())).unwrap();
    lock.release_shared(|| false);
    for _ in 0..3 {
        assert!(matches!(
            lock.try_shared(|| panic!("the lock is poisoned")),
            Err(ClientError::ProfileLockUnsupported)
        ));
        assert!(matches!(
            lock.try_exclusive(|| panic!("the lock is poisoned")),
            Err(ClientError::ProfileLockUnsupported)
        ));
    }
}
