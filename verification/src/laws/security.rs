//! Who may change the files of a profile where rights are granted entry by entry.
use vstd::prelude::*;
use crate::windows_security;
use crate::error::ClientError;
use crate::windows_security::{
    AceVerdict, ExplicitEntry, LockOpenEvent, LockOpenStep, ObjectSecurity, OpenFailure, RawAce,
    SecurityReason, SidFacts, TrusteeForm, TrusteeIdentity, WindowsHandleInfo,
};

verus! {

/// An entry counts if it is not only inherited, or if the children are looked at and
/// some of them inherit it.
pub proof fn law_entry_counts_where_it_applies(flags: u8, children: bool)
    ensures
        windows_security::ace_counts(flags, children) <==>
            flags & 8 == 0 || (children && flags & 3 != 0),
{
}

/// A number of four bytes is written with the lowest byte first.
pub proof fn law_raw_numbers(bytes: Seq<u8>, at: int)
    requires
        0 <= at,
        at + 4 <= bytes.len(),
    ensures
        windows_security::le_u32(bytes, at) == bytes[at] + 256 * bytes[at + 1] + 65_536 * bytes[at + 2] + 16_777_216 * bytes[at + 3],
{
}

/// The trustee of an entry for an object stands behind the rights and the flags, and
/// behind each of the two identifiers that the flags announce.
pub proof fn law_place_of_the_trustee(flags: u32)
    ensures
        flags & 1 == 0 && flags & 2 == 0 ==> windows_security::object_sid_offset(flags) == 12,
        flags & 1 != 0 && flags & 2 == 0 ==> windows_security::object_sid_offset(flags) == 28,
        flags & 1 == 0 && flags & 2 != 0 ==> windows_security::object_sid_offset(flags) == 28,
        flags & 1 != 0 && flags & 2 != 0 ==> windows_security::object_sid_offset(flags) == 44,
{
}

/// An entry that does not apply, or gives no dangerous right, is harmless; one that is
/// cut short is refused. An entry that allows a dangerous right is held to its trustee,
/// which must lie within it; entries for objects name theirs behind their identifiers;
/// compound entries and unknown kinds are refused, and every other known kind is
/// harmless.
pub proof fn law_judged_entries(ace: RawAce, dangerous: u32, children: bool)
    ensures
        !(ace.flags & 8 == 0 || (children && ace.flags & 3 != 0)) ==>
            windows_security::ace_verdict(ace, dangerous, children) is Harmless,
        (ace.flags & 8 == 0 || (children && ace.flags & 3 != 0)) && ace.size < 8 ==>
            windows_security::ace_verdict(ace, dangerous, children) == AceVerdict::Rejected(SecurityReason::RawAceSize),
        (ace.flags & 8 == 0 || (children && ace.flags & 3 != 0))
            && ace.size >= 8
            && !(windows_security::le_u32(ace.body@, 0) & dangerous != 0) ==>
            windows_security::ace_verdict(ace, dangerous, children) is Harmless,
        (ace.flags & 8 == 0 || (children && ace.flags & 3 != 0))
            && ace.size >= 8
            && windows_security::le_u32(ace.body@, 0) & dangerous != 0
            && (ace.ace_type == 0 || ace.ace_type == 9) ==>
            windows_security::ace_verdict(ace, dangerous, children) == (if ace.size > 8 { AceVerdict::GrantsTo { sid_offset: 8 } } else { AceVerdict::Rejected(SecurityReason::RawSidOffset) }),
        (ace.flags & 8 == 0 || (children && ace.flags & 3 != 0))
            && ace.size >= 8
            && windows_security::le_u32(ace.body@, 0) & dangerous != 0
            && (ace.ace_type == 5 || ace.ace_type == 11)
            && ace.size < 12 ==>
            windows_security::ace_verdict(ace, dangerous, children) == AceVerdict::Rejected(SecurityReason::ObjectAceSize),
        (ace.flags & 8 == 0 || (children && ace.flags & 3 != 0))
            && ace.size >= 12
            && windows_security::le_u32(ace.body@, 0) & dangerous != 0
            && (ace.ace_type == 5 || ace.ace_type == 11) ==>
            windows_security::ace_verdict(ace, dangerous, children) == (if windows_security::object_sid_offset(windows_security::le_u32(ace.body@, 4)) < ace.size { AceVerdict::GrantsTo { sid_offset: windows_security::object_sid_offset(windows_security::le_u32(ace.body@, 4)) } } else { AceVerdict::Rejected(SecurityReason::RawSidOffset) }),
        (ace.flags & 8 == 0 || (children && ace.flags & 3 != 0))
            && ace.size >= 8
            && windows_security::le_u32(ace.body@, 0) & dangerous != 0
            && ace.ace_type == 4 ==>
            windows_security::ace_verdict(ace, dangerous, children) == AceVerdict::Rejected(SecurityReason::CompoundAllowAce),
        (ace.flags & 8 == 0 || (children && ace.flags & 3 != 0))
            && ace.size >= 8
            && windows_security::le_u32(ace.body@, 0) & dangerous != 0
            && ace.ace_type > 21 ==>
            windows_security::ace_verdict(ace, dangerous, children) == AceVerdict::Rejected(SecurityReason::UnknownAllowAce),
        (ace.flags & 8 == 0 || (children && ace.flags & 3 != 0))
            && ace.size >= 8
            && windows_security::le_u32(ace.body@, 0) & dangerous != 0
            && ace.ace_type <= 21
            && !(ace.ace_type == 0 || ace.ace_type == 4 || ace.ace_type == 5 || ace.ace_type == 9 || ace.ace_type == 11) ==>
            windows_security::ace_verdict(ace, dangerous, children) is Harmless,
{
}

/// The user, the system, the administrators, the creator and owner, and the rights of
/// the owner are trusted, and nobody else.
pub proof fn law_trusted_trustees(identity: TrusteeIdentity)
    ensures
        identity.trusted() <==>
            identity.is_user
                || identity.is_system
                || identity.is_administrators
                || identity.is_creator_owner
                || identity.is_creator_owner_rights,
{
}

/// A trustee that is not valid is refused, then one that does not lie within its entry,
/// then one that is not trusted.
pub proof fn law_trustee_is_refused_in_order(facts: SidFacts, offset: usize, size: u16)
    ensures
        !facts.valid ==>
            windows_security::sid_fault(facts, offset, size) == Some(SecurityReason::RawSid),
        facts.valid && (facts.length == 0 || offset + facts.length > size) ==>
            windows_security::sid_fault(facts, offset, size) == Some(SecurityReason::RawSidSize),
        facts.valid
            && facts.length > 0
            && offset + facts.length <= size
            && !facts.identity.trusted() ==>
            windows_security::sid_fault(facts, offset, size) == Some(SecurityReason::UntrustedRawWrite),
        windows_security::sid_fault(facts, offset, size) is None <==>
            facts.valid
                && facts.length > 0
                && offset + facts.length <= size
                && facts.identity.trusted(),
{
}

/// An explicit entry is refused for several trustees, then for a missing object, then
/// for an unknown form, then for a missing trustee, and then, where the trustee is not
/// trusted, for rights in effect that are dangerous or unknown.
pub proof fn law_explicit_entry_is_refused_in_order(entry: ExplicitEntry, dangerous: u32)
    ensures
        entry.multiple_trustee ==>
            windows_security::entry_fault(entry, dangerous) == Some(SecurityReason::MultipleTrustee),
        !entry.multiple_trustee
            && entry.form == (TrusteeForm::ObjectsAndSid { object_present: false }) ==>
            windows_security::entry_fault(entry, dangerous) == Some(SecurityReason::ObjectTrustee),
        !entry.multiple_trustee && entry.form is Unknown ==>
            windows_security::entry_fault(entry, dangerous) == Some(SecurityReason::TrusteeForm),
        !entry.multiple_trustee
            && !(entry.form == (TrusteeForm::ObjectsAndSid { object_present: false }))
            && !(entry.form is Unknown)
            && !entry.sid_present ==>
            windows_security::entry_fault(entry, dangerous) == Some(SecurityReason::TrusteeSid),
        !entry.multiple_trustee
            && !(entry.form == (TrusteeForm::ObjectsAndSid { object_present: false }))
            && !(entry.form is Unknown)
            && entry.sid_present
            && entry.identity.trusted() ==>
            windows_security::entry_fault(entry, dangerous) is None,
        !entry.multiple_trustee
            && !(entry.form == (TrusteeForm::ObjectsAndSid { object_present: false }))
            && !(entry.form is Unknown)
            && entry.sid_present
            && !entry.identity.trusted() ==>
            windows_security::entry_fault(entry, dangerous) == (if entry.effective is Some && entry.effective->Some_0 & dangerous == 0 { None } else { Some(SecurityReason::UntrustedEffectiveWrite) }),
{
}

/// An object is refused, in this order, for a descriptor or a token that cannot be
/// read, a token without a user, unknown machine trustees, an owner that is neither the
/// user nor the system nor the administrators, rights that the user lacks, unknown
/// creator trustees, and entries that cannot be read.
pub proof fn law_object_is_refused_in_order(facts: ObjectSecurity, access: u32)
    ensures
        !facts.descriptor_read ==>
            windows_security::object_fault(facts, access) == Some(SecurityReason::SecurityDescriptor),
        facts.descriptor_read && !facts.token_read ==>
            windows_security::object_fault(facts, access) == Some(SecurityReason::Token),
        facts.descriptor_read && facts.token_read && !facts.token_user_present ==>
            windows_security::object_fault(facts, access) == Some(SecurityReason::TokenUser),
        facts.descriptor_read
            && facts.token_read
            && facts.token_user_present
            && !facts.machine_sids_known ==>
            windows_security::object_fault(facts, access) == Some(SecurityReason::WellKnownSid),
        facts.descriptor_read
            && facts.token_read
            && facts.token_user_present
            && facts.machine_sids_known
            && !(facts.owner_is_user || facts.owner_is_system || facts.owner_is_administrators) ==>
            windows_security::object_fault(facts, access) == Some(SecurityReason::Owner),
        facts.descriptor_read
            && facts.token_read
            && facts.token_user_present
            && facts.machine_sids_known
            && (facts.owner_is_user || facts.owner_is_system || facts.owner_is_administrators)
            && !(facts.access_checked && facts.access_allowed && facts.granted_access & access == access) ==>
            windows_security::object_fault(facts, access) == Some(SecurityReason::CurrentAccess),
        facts.descriptor_read
            && facts.token_read
            && facts.token_user_present
            && facts.machine_sids_known
            && (facts.owner_is_user || facts.owner_is_system || facts.owner_is_administrators)
            && (facts.access_checked && facts.access_allowed && facts.granted_access & access == access)
            && !facts.creator_sids_known ==>
            windows_security::object_fault(facts, access) == Some(SecurityReason::WellKnownSid),
        facts.descriptor_read
            && facts.token_read
            && facts.token_user_present
            && facts.machine_sids_known
            && (facts.owner_is_user || facts.owner_is_system || facts.owner_is_administrators)
            && (facts.access_checked && facts.access_allowed && facts.granted_access & access == access)
            && facts.creator_sids_known
            && facts.entries is None ==>
            windows_security::object_fault(facts, access) == Some(SecurityReason::AclEntries),
        windows_security::object_fault(facts, access) is None <==>
            facts.descriptor_read
                && facts.token_read
                && facts.token_user_present
                && facts.machine_sids_known
                && (facts.owner_is_user || facts.owner_is_system || facts.owner_is_administrators)
                && (facts.access_checked && facts.access_allowed && facts.granted_access & access == access)
                && facts.creator_sids_known
                && !(facts.entries is None),
{
}

/// Explicit entries pass if and only if each of them does, and the first that does not
/// is told.
pub proof fn law_entries_are_all_judged(
    entries: Seq<ExplicitEntry>,
    dangerous: u32,
    r: Result<(), SecurityReason>,
)
    requires
        windows_security::entries_judged(entries, dangerous, r),
    ensures
        r is Ok <==>
            (forall|i: int| 0 <= i < entries.len() ==> windows_security::entry_fault(#[trigger] entries[i], dangerous) is None),
        r is Err ==>
            exists|i: int| 0 <= i < entries.len()
                && windows_security::entry_fault(#[trigger] entries[i], dangerous) == Some(r->Err_0)
                && (forall|j: int| 0 <= j < i ==> windows_security::entry_fault(#[trigger] entries[j], dangerous) is None),
{
}

/// Raw entries that pass are all there, none is refused, and each that grants a
/// dangerous right grants it to a trustee that is valid, lies within it and is trusted.
pub proof fn law_raw_entries_are_all_judged<S: Fn(usize, usize) -> SidFacts>(
    aces: Seq<Option<RawAce>>,
    dangerous: u32,
    children: bool,
    sid_at: S,
    r: Result<(), SecurityReason>,
    i: int,
)
    requires
        windows_security::aces_judged(aces, dangerous, children, sid_at, r),
        r is Ok,
        0 <= i < aces.len(),
    ensures
        aces[i] is Some,
        !(windows_security::ace_verdict(aces[i]->Some_0, dangerous, children) is Rejected),
        windows_security::ace_verdict(aces[i]->Some_0, dangerous, children) is GrantsTo ==>
            exists|facts: SidFacts| #[trigger] sid_at.ensures((i as usize, windows_security::ace_verdict(aces[i]->Some_0, dangerous, children)->sid_offset), facts)
                && facts.valid
                && facts.identity.trusted()
                && facts.length > 0
                && windows_security::ace_verdict(aces[i]->Some_0, dangerous, children)->sid_offset + facts.length <= aces[i]->Some_0.size,
{
    assert(windows_security::ace_passes(aces, i, dangerous, children, sid_at));
}

/// Where raw entries are refused, one of them is, for the reason told, and none before
/// it.
pub proof fn law_first_refused_raw_entry_is_told<S: Fn(usize, usize) -> SidFacts>(
    aces: Seq<Option<RawAce>>,
    dangerous: u32,
    children: bool,
    sid_at: S,
    r: Result<(), SecurityReason>,
)
    requires
        windows_security::aces_judged(aces, dangerous, children, sid_at, r),
        r is Err,
    ensures
        exists|i: int| 0 <= i < aces.len()
            && #[trigger] windows_security::ace_fails(aces, i, dangerous, children, sid_at, r->Err_0)
            && (forall|j: int| 0 <= j < i ==> #[trigger] windows_security::ace_passes(aces, j, dangerous, children, sid_at)),
{
}

/// An entry that cannot be read fails as that, a refused one for the reason that it is
/// refused, and a harmless one never.
pub proof fn law_missing_raw_entry_fails<S: Fn(usize, usize) -> SidFacts>(
    aces: Seq<Option<RawAce>>,
    i: int,
    dangerous: u32,
    children: bool,
    sid_at: S,
    reason: SecurityReason,
)
    requires
        windows_security::ace_fails(aces, i, dangerous, children, sid_at, reason),
    ensures
        aces[i] is None ==> reason is RawAce,
        aces[i] is Some ==>
            !(windows_security::ace_verdict(aces[i]->Some_0, dangerous, children) is Harmless),
        aces[i] is Some
            && windows_security::ace_verdict(aces[i]->Some_0, dangerous, children) is Rejected ==>
            reason == windows_security::ace_verdict(aces[i]->Some_0, dangerous, children)->Rejected_0,
{
}

/// A secure object has nothing to refuse in itself, its raw entries all pass, and so do
/// its explicit ones, for the rights to write, delete, or change the access or the
/// owner.
pub proof fn law_secure_object<S: Fn(usize, usize) -> SidFacts>(
    facts: ObjectSecurity,
    access: u32,
    children: bool,
    aces: Seq<Option<RawAce>>,
    sid_at: S,
    r: Result<(), SecurityReason>,
)
    requires
        windows_security::object_secure(facts, access, children, aces, sid_at, r),
    ensures
        windows_security::object_fault(facts, access) is Some ==>
            r is Err
                && r->Err_0 == windows_security::object_fault(facts, access)->Some_0,
        r is Ok ==>
            windows_security::object_fault(facts, access) is None
                && (forall|i: int| 0 <= i < aces.len() ==> #[trigger] windows_security::ace_passes(aces, i, 0x500D_0156, children, sid_at))
                && (forall|i: int| 0 <= i < facts.entries->Some_0@.len() ==> windows_security::entry_fault(#[trigger] facts.entries->Some_0@[i], 0x500D_0156) is None),
{
}

/// A plain directory is a directory and no link to another place; a plain file is
/// neither and has one name.
pub proof fn law_plain_files(info: WindowsHandleInfo)
    ensures
        windows_security::is_plain_directory(info) <==>
            info.attributes & 16 != 0
                && info.attributes & 1024 == 0,
        windows_security::is_plain_file(info) <==>
            info.attributes & 16 == 0
                && info.attributes & 1024 == 0
                && info.link_count == 1,
{
    let attributes = info.attributes;
    assert(attributes & 1040 == 0 <==> attributes & 16 == 0 && attributes & 1024 == 0) by (bit_vector);
}

/// A file system without locks is told as that, and every other failure to open as one
/// of input or output.
pub proof fn law_open_errors(failure: OpenFailure)
    ensures
        failure is Unsupported <==>
            windows_security::open_error(failure) is ProfileLockUnsupported,
        !(failure is Unsupported) <==> windows_security::open_error(failure) is Io,
{
}

/// A lock file is inspected, and opened or created as it is there or not; one that is
/// opened must be the plain file that was inspected, and one that is created the plain
/// file that its path then names. A file that appeared in between is inspected again,
/// as often as attempts are left. Anything else is refused.
pub proof fn law_lock_file_opens_in_order(step: LockOpenStep, event: LockOpenEvent)
    ensures
        step is Failed || step is CheckSecurity ==>
            windows_security::next_lock_step(step, event) == step,
        !(step is Failed || step is CheckSecurity) && event is InfoFailed ==>
            windows_security::next_lock_step(step, event) == LockOpenStep::Failed(ClientError::ProfileLockUnsupported),
        step is Inspect && event is Info ==>
            windows_security::next_lock_step(step, event) == (if windows_security::is_plain_file(event->Info_0) { LockOpenStep::OpenExisting { attempts_left: step->Inspect_attempts_left, inspected: event->Info_0 } } else { LockOpenStep::Failed(ClientError::ProfileLockUnsupported) }),
        step is Inspect && event == LockOpenEvent::OpenFailed(OpenFailure::NotFound) ==>
            windows_security::next_lock_step(step, event) == (LockOpenStep::CreateNew { attempts_left: step->Inspect_attempts_left }),
        step is OpenExisting && event is Info ==>
            windows_security::next_lock_step(step, event) == (if windows_security::is_plain_file(event->Info_0) && event->Info_0.identity == step->inspected.identity { LockOpenStep::CheckSecurity } else { LockOpenStep::Failed(ClientError::ProfileLockUnsupported) }),
        step is CreateNew && event is Info ==>
            windows_security::next_lock_step(step, event) == (if windows_security::is_plain_file(event->Info_0) { LockOpenStep::VerifyCreated { opened: event->Info_0 } } else { LockOpenStep::Failed(ClientError::ProfileLockUnsupported) }),
        step is CreateNew && event == LockOpenEvent::OpenFailed(OpenFailure::AlreadyExists) ==>
            windows_security::next_lock_step(step, event) == (if step->CreateNew_attempts_left > 0 { LockOpenStep::Inspect { attempts_left: (step->CreateNew_attempts_left - 1) as usize } } else { LockOpenStep::Failed(ClientError::ProfileLockUnsupported) }),
        step is VerifyCreated && event is Info ==>
            windows_security::next_lock_step(step, event) == (if windows_security::is_plain_file(event->Info_0) && event->Info_0.identity == step->opened.identity { LockOpenStep::CheckSecurity } else { LockOpenStep::Failed(ClientError::ProfileLockUnsupported) }),
        !(step is Failed || step is CheckSecurity)
            && event is OpenFailed
            && !(step is Inspect && event->OpenFailed_0 is NotFound)
            && !(step is CreateNew && event->OpenFailed_0 is AlreadyExists) ==>
            windows_security::next_lock_step(step, event) == LockOpenStep::Failed(windows_security::open_error(event->OpenFailed_0)),
{
}

} // verus!
