//! Who may write to a profile on Windows: the rules by which owners, access control
//! entries and lock files are accepted. What the system reports comes in as values.
use vstd::prelude::*;
use crate::error::ClientError;
use crate::profile_coordination::ProfileIdentity;

verus! {

/// An access control entry that children may inherit.
pub const OBJECT_OR_CONTAINER_INHERIT: u8 = 3;

/// An access control entry that does not apply to the object itself.
pub const INHERIT_ONLY: u8 = 8;

pub const ATTRIBUTE_DIRECTORY: u32 = 16;

pub const ATTRIBUTE_REPARSE_POINT: u32 = 1024;

pub const ATTRIBUTE_DIRECTORY_OR_REPARSE_POINT: u32 = 1040;

/// The rights that let their holder change an object or what is in it: write and
/// append data, write attributes, add and delete children, delete, change the access
/// list or the owner, and the generic write and full rights.
pub const DANGEROUS_RIGHTS: u32 = 0x500D_0156;

/// How often opening a lock file starts over when it appears and disappears.
pub const WINDOWS_LOCK_OPEN_RETRIES: usize = 4;

/// Why a profile object is refused.
#[derive(Debug, Clone, Copy, PartialEq, Eq, Structural)]
pub enum SecurityReason {
    SecurityDescriptor,
    Token,
    TokenUser,
    WellKnownSid,
    Owner,
    CurrentAccess,
    AclEntries,
    RawAce,
    RawAceSize,
    ObjectAceSize,
    CompoundAllowAce,
    UnknownAllowAce,
    RawSidOffset,
    RawSid,
    RawSidSize,
    UntrustedRawWrite,
    MultipleTrustee,
    ObjectTrustee,
    TrusteeForm,
    TrusteeSid,
    UntrustedEffectiveWrite,
}

/// Whatever the reason, the profile cannot be locked safely.
pub fn windows_security_failure(reason: SecurityReason) -> (r: ClientError)
    ensures
        r == ClientError::ProfileLockUnsupported,
{
    ClientError::ProfileLockUnsupported
}

/// An access control entry as the system keeps it: its header, and the bytes behind
/// the header.
pub struct RawAce {
    pub ace_type: u8,
    pub flags: u8,
    pub size: u16,
    pub body: Vec<u8>,
}

impl RawAce {
    /// The header's size counts the four bytes of the header and all bytes behind it.
    pub open spec fn valid(self) -> bool {
        self.body@.len() == (if self.size >= 4 {
            self.size - 4
        } else {
            0
        })
    }
}

/// Four bytes as a number, the lowest first.
pub open spec fn le_u32(bytes: Seq<u8>, at: int) -> u32 {
    (bytes[at] + bytes[at + 1] * 0x100 + bytes[at + 2] * 0x1_0000 + bytes[at + 3]
        * 0x100_0000) as u32
}

fn read_le_u32(bytes: &Vec<u8>, at: usize) -> (r: u32)
    requires
        at <= 4,
        at + 4 <= bytes@.len(),
    ensures
        r == le_u32(bytes@, at as int),
{
    bytes[at] as u32 + bytes[at + 1] as u32 * 0x100 + bytes[at + 2] as u32 * 0x1_0000 + bytes[at
        + 3] as u32 * 0x100_0000
}

/// What an access control entry means for the safety of a profile.
#[derive(Debug, Clone, Copy, PartialEq, Eq, Structural)]
pub enum AceVerdict {
    Harmless,
    Rejected(SecurityReason),
    GrantsTo { sid_offset: usize },
}

/// An entry counts where it applies to the object, or where children inherit it and
/// that is looked at.
pub open spec fn ace_counts(flags: u8, inspect_child_inheritance: bool) -> bool {
    flags & INHERIT_ONLY == 0 || (inspect_child_inheritance && flags & OBJECT_OR_CONTAINER_INHERIT
        != 0)
}

/// How far the identifiers of object types push the trustee's identifier back.
pub open spec fn object_sid_offset(object_flags: u32) -> usize {
    (12 + (if object_flags & 1 != 0 {
        16int
    } else {
        0
    }) + (if object_flags & 2 != 0 {
        16int
    } else {
        0
    })) as usize
}

/// Where the trustee's identifier starts in an entry that grants dangerous rights, or
/// what else there is to say of the entry. Known kinds that deny, audit or label grant
/// nothing; an unknown kind is refused.
pub open spec fn granting_verdict(ace: RawAce) -> AceVerdict {
    if ace.ace_type == 0 || ace.ace_type == 9 {
        AceVerdict::GrantsTo { sid_offset: 8 }
    } else if ace.ace_type == 5 || ace.ace_type == 11 {
        if ace.size < 12 {
            AceVerdict::Rejected(SecurityReason::ObjectAceSize)
        } else {
            AceVerdict::GrantsTo { sid_offset: object_sid_offset(le_u32(ace.body@, 4)) }
        }
    } else if ace.ace_type == 4 {
        AceVerdict::Rejected(SecurityReason::CompoundAllowAce)
    } else if ace.ace_type <= 21 {
        AceVerdict::Harmless
    } else {
        AceVerdict::Rejected(SecurityReason::UnknownAllowAce)
    }
}

/// The verdict on an entry.
pub open spec fn ace_verdict(
    ace: RawAce,
    dangerous: u32,
    inspect_child_inheritance: bool,
) -> AceVerdict {
    if !ace_counts(ace.flags, inspect_child_inheritance) {
        AceVerdict::Harmless
    } else if ace.size < 8 {
        AceVerdict::Rejected(SecurityReason::RawAceSize)
    } else if le_u32(ace.body@, 0) & dangerous == 0 {
        AceVerdict::Harmless
    } else {
        match granting_verdict(ace) {
            AceVerdict::GrantsTo { sid_offset } => if sid_offset >= ace.size {
                AceVerdict::Rejected(SecurityReason::RawSidOffset)
            } else {
                AceVerdict::GrantsTo { sid_offset }
            },
            verdict => verdict,
        }
    }
}

/// Judges an entry by its bytes.
pub fn judge_ace(ace: &RawAce, dangerous: u32, inspect_child_inheritance: bool) -> (r: AceVerdict)
    requires
        ace.valid(),
    ensures
        r == ace_verdict(*ace, dangerous, inspect_child_inheritance),
{
    let applies_to_object: bool = ace.flags & INHERIT_ONLY == 0;
    let inherited_to_children: bool = ace.flags & OBJECT_OR_CONTAINER_INHERIT != 0;
    if !applies_to_object && !(inspect_child_inheritance && inherited_to_children) {
        return AceVerdict::Harmless;
    }
    if ace.size < 8 {
        return AceVerdict::Rejected(SecurityReason::RawAceSize);
    }
    let mask: u32 = read_le_u32(&ace.body, 0);
    if mask & dangerous == 0 {
        return AceVerdict::Harmless;
    }
    let sid_offset: usize = if ace.ace_type == 0 || ace.ace_type == 9 {
        8
    } else if ace.ace_type == 5 || ace.ace_type == 11 {
        if ace.size < 12 {
            return AceVerdict::Rejected(SecurityReason::ObjectAceSize);
        }
        let object_flags: u32 = read_le_u32(&ace.body, 4);
        let object_type: usize = if object_flags & 1 != 0 {
            16
        } else {
            0
        };
        let inherited_type: usize = if object_flags & 2 != 0 {
            16
        } else {
            0
        };
        12 + object_type + inherited_type
    } else if ace.ace_type == 4 {
        return AceVerdict::Rejected(SecurityReason::CompoundAllowAce);
    } else if ace.ace_type <= 21 {
        return AceVerdict::Harmless;
    } else {
        return AceVerdict::Rejected(SecurityReason::UnknownAllowAce);
    };
    if sid_offset >= ace.size as usize {
        return AceVerdict::Rejected(SecurityReason::RawSidOffset);
    }
    AceVerdict::GrantsTo { sid_offset }
}

/// Which of the known identifiers a trustee's identifier equals.
#[derive(Debug, Clone, Copy, PartialEq, Eq, Structural)]
pub struct TrusteeIdentity {
    pub is_user: bool,
    pub is_system: bool,
    pub is_administrators: bool,
    pub is_creator_owner: bool,
    pub is_creator_owner_rights: bool,
}

impl TrusteeIdentity {
    /// This user, the machine itself, its administrators, and the placeholders for whoever
    /// owns an object are trusted.
    pub open spec fn trusted(self) -> bool {
        self.is_user || self.is_system || self.is_administrators || self.is_creator_owner
            || self.is_creator_owner_rights
    }

    pub fn is_trusted(&self) -> (r: bool)
        ensures
            r == self.trusted(),
    {
        self.is_user || self.is_system || self.is_administrators || self.is_creator_owner
            || self.is_creator_owner_rights
    }
}

/// What the system says of the identifier at some place of an entry: whether it is
/// one, how long it is, and whom it names.
#[derive(Debug, Clone, Copy, PartialEq, Eq, Structural)]
pub struct SidFacts {
    pub valid: bool,
    pub length: usize,
    pub identity: TrusteeIdentity,
}

/// Why a trustee is refused.
pub open spec fn sid_fault(facts: SidFacts, sid_offset: usize, size: u16) -> Option<
    SecurityReason,
> {
    if !facts.valid {
        Some(SecurityReason::RawSid)
    } else if facts.length == 0 || sid_offset + facts.length > size {
        Some(SecurityReason::RawSidSize)
    } else if facts.identity.trusted() {
        None
    } else {
        Some(SecurityReason::UntrustedRawWrite)
    }
}

/// An entry that does not endanger the profile.
pub open spec fn ace_passes<S: Fn(usize, usize) -> SidFacts>(
    aces: Seq<Option<RawAce>>,
    i: int,
    dangerous: u32,
    inspect_child_inheritance: bool,
    sid_at: S,
) -> bool {
    &&& aces[i] is Some
    &&& match ace_verdict(aces[i].unwrap(), dangerous, inspect_child_inheritance) {
        AceVerdict::Harmless => true,
        AceVerdict::Rejected(_) => false,
        AceVerdict::GrantsTo { sid_offset } => exists|facts: SidFacts| #[trigger]
            sid_at.ensures((i as usize, sid_offset), facts) && sid_fault(
                facts,
                sid_offset,
                aces[i].unwrap().size,
            ) is None,
    }
}

/// An entry that endangers the profile, and why.
pub open spec fn ace_fails<S: Fn(usize, usize) -> SidFacts>(
    aces: Seq<Option<RawAce>>,
    i: int,
    dangerous: u32,
    inspect_child_inheritance: bool,
    sid_at: S,
    reason: SecurityReason,
) -> bool {
    match aces[i] {
        None => reason == SecurityReason::RawAce,
        Some(ace) => match ace_verdict(ace, dangerous, inspect_child_inheritance) {
            AceVerdict::Harmless => false,
            AceVerdict::Rejected(why) => reason == why,
            AceVerdict::GrantsTo { sid_offset } => exists|facts: SidFacts| #[trigger]
                sid_at.ensures((i as usize, sid_offset), facts) && sid_fault(
                    facts,
                    sid_offset,
                    ace.size,
                ) == Some(reason),
        },
    }
}

/// What an access list comes to: all entries pass, or the first that fails says why.
pub open spec fn aces_judged<S: Fn(usize, usize) -> SidFacts>(
    aces: Seq<Option<RawAce>>,
    dangerous: u32,
    inspect_child_inheritance: bool,
    sid_at: S,
    r: Result<(), SecurityReason>,
) -> bool {
    match r {
        Ok(_) => forall|i: int|
            0 <= i < aces.len() ==> #[trigger] ace_passes(
                aces,
                i,
                dangerous,
                inspect_child_inheritance,
                sid_at,
            ),
        Err(reason) => exists|i: int|
            0 <= i < aces.len() && #[trigger] ace_fails(
                aces,
                i,
                dangerous,
                inspect_child_inheritance,
                sid_at,
                reason,
            ) && forall|j: int|
                0 <= j < i ==> #[trigger] ace_passes(
                    aces,
                    j,
                    dangerous,
                    inspect_child_inheritance,
                    sid_at,
                ),
    }
}

/// Refuses an access list in which somebody untrusted is granted dangerous rights, on
/// the object or, where that is looked at, on its children. An entry that could not be
/// read is `None`; `sid_at` asks the system about the identifier at an offset of an
/// entry.
pub fn reject_untrusted_raw_write_aces<S: Fn(usize, usize) -> SidFacts>(
    aces: &Vec<Option<RawAce>>,
    dangerous: u32,
    inspect_child_inheritance: bool,
    sid_at: S,
) -> (r: Result<(), SecurityReason>)
    requires
        aces_whole(aces@),
        forall|i: usize, offset: usize| #[trigger] sid_at.requires((i, offset)),
    ensures
        aces_judged(aces@, dangerous, inspect_child_inheritance, sid_at, r),
{
    let mut i: usize = 0;
    while i < aces.len()
        invariant
            i <= aces@.len(),
            aces_whole(aces@),
            forall|j: usize, offset: usize| #[trigger] sid_at.requires((j, offset)),
            forall|j: int|
                0 <= j < i ==> #[trigger] ace_passes(
                    aces@,
                    j,
                    dangerous,
                    inspect_child_inheritance,
                    sid_at,
                ),
        decreases aces@.len() - i,
    {
        let mut fault: Option<SecurityReason> = None;
        match &aces[i] {
            None => {
                fault = Some(SecurityReason::RawAce);
            },
            Some(ace) => match judge_ace(ace, dangerous, inspect_child_inheritance) {
                AceVerdict::Harmless => {},
                AceVerdict::Rejected(reason) => {
                    fault = Some(reason);
                },
                AceVerdict::GrantsTo { sid_offset } => {
                    let facts: SidFacts = sid_at(i, sid_offset);
                    proof {
                        assert(sid_at.ensures((i, sid_offset), facts));
                    }
                    if !facts.valid {
                        fault = Some(SecurityReason::RawSid);
                    } else if facts.length == 0 || facts.length > ace.size as usize - sid_offset {
                        fault = Some(SecurityReason::RawSidSize);
                    } else if !facts.identity.is_trusted() {
                        fault = Some(SecurityReason::UntrustedRawWrite);
                    }
                },
            },
        }
        match fault {
            Some(reason) => {
                proof {
                    assert(ace_fails(
                        aces@,
                        i as int,
                        dangerous,
                        inspect_child_inheritance,
                        sid_at,
                        reason,
                    ));
                }
                return Err(reason);
            },
            None => {},
        }
        proof {
            assert(ace_passes(aces@, i as int, dangerous, inspect_child_inheritance, sid_at));
        }
        i = i + 1;
    }
    Ok(())
}

/// How an explicit entry names its trustee.
#[derive(Debug, Clone, Copy, PartialEq, Eq, Structural)]
pub enum TrusteeForm {
    Sid,
    ObjectsAndSid { object_present: bool },
    Unknown,
}

/// What the system reports of one explicit entry. `effective` are the rights that the
/// trustee has in effect, where they could be computed.
#[derive(Debug, Clone, Copy, PartialEq, Eq, Structural)]
pub struct ExplicitEntry {
    pub multiple_trustee: bool,
    pub form: TrusteeForm,
    pub sid_present: bool,
    pub identity: TrusteeIdentity,
    pub effective: Option<u32>,
}

/// Why an explicit entry is refused.
pub open spec fn entry_fault(entry: ExplicitEntry, dangerous: u32) -> Option<SecurityReason> {
    if entry.multiple_trustee {
        Some(SecurityReason::MultipleTrustee)
    } else if entry.form == (TrusteeForm::ObjectsAndSid { object_present: false }) {
        Some(SecurityReason::ObjectTrustee)
    } else if entry.form == TrusteeForm::Unknown {
        Some(SecurityReason::TrusteeForm)
    } else if !entry.sid_present {
        Some(SecurityReason::TrusteeSid)
    } else if entry.identity.trusted() {
        None
    } else if entry.effective is None || entry.effective.unwrap() & dangerous != 0 {
        Some(SecurityReason::UntrustedEffectiveWrite)
    } else {
        None
    }
}

fn judge_entry(entry: &ExplicitEntry, dangerous: u32) -> (r: Option<SecurityReason>)
    ensures
        r == entry_fault(*entry, dangerous),
{
    if entry.multiple_trustee {
        return Some(SecurityReason::MultipleTrustee);
    }
    match entry.form {
        TrusteeForm::Sid => {},
        TrusteeForm::ObjectsAndSid { object_present } => {
            if !object_present {
                return Some(SecurityReason::ObjectTrustee);
            }
        },
        TrusteeForm::Unknown => {
            return Some(SecurityReason::TrusteeForm);
        },
    }
    if !entry.sid_present {
        return Some(SecurityReason::TrusteeSid);
    }
    if entry.identity.is_trusted() {
        return None;
    }
    match entry.effective {
        None => Some(SecurityReason::UntrustedEffectiveWrite),
        Some(effective) => if effective & dangerous != 0 {
            Some(SecurityReason::UntrustedEffectiveWrite)
        } else {
            None
        },
    }
}

fn judge_entries(entries: &Vec<ExplicitEntry>, dangerous: u32) -> (r: Result<(), SecurityReason>)
    ensures
        entries_judged(entries@, dangerous, r),
{
    let mut i: usize = 0;
    while i < entries.len()
        invariant
            i <= entries@.len(),
            forall|j: int| 0 <= j < i ==> entry_fault(#[trigger] entries@[j], dangerous) is None,
        decreases entries@.len() - i,
    {
        match judge_entry(&entries[i], dangerous) {
            Some(reason) => {
                proof {
                    assert(entry_fault(entries@[i as int], dangerous) == Some(reason));
                }
                return Err(reason);
            },
            None => {},
        }
        i = i + 1;
    }
    Ok(())
}

/// What the system reports of an object and of the process that wants to use it.
pub struct ObjectSecurity {
    pub descriptor_read: bool,
    pub token_read: bool,
    pub token_user_present: bool,
    pub machine_sids_known: bool,
    pub owner_is_user: bool,
    pub owner_is_system: bool,
    pub owner_is_administrators: bool,
    pub access_checked: bool,
    pub access_allowed: bool,
    pub granted_access: u32,
    pub creator_sids_known: bool,
    pub entries: Option<Vec<ExplicitEntry>>,
}

/// The first thing that speaks against an object before its access list is read.
pub open spec fn object_fault(facts: ObjectSecurity, desired_current_access: u32) -> Option<
    SecurityReason,
> {
    if !facts.descriptor_read {
        Some(SecurityReason::SecurityDescriptor)
    } else if !facts.token_read {
        Some(SecurityReason::Token)
    } else if !facts.token_user_present {
        Some(SecurityReason::TokenUser)
    } else if !facts.machine_sids_known {
        Some(SecurityReason::WellKnownSid)
    } else if !facts.owner_is_user && !facts.owner_is_system && !facts.owner_is_administrators {
        Some(SecurityReason::Owner)
    } else if !facts.access_checked || !facts.access_allowed || facts.granted_access
        & desired_current_access != desired_current_access {
        Some(SecurityReason::CurrentAccess)
    } else if !facts.creator_sids_known {
        Some(SecurityReason::WellKnownSid)
    } else if facts.entries is None {
        Some(SecurityReason::AclEntries)
    } else {
        None
    }
}

/// The first entry that is refused.
pub open spec fn first_entry_fault(
    entries: Seq<ExplicitEntry>,
    dangerous: u32,
    reason: SecurityReason,
) -> bool {
    exists|i: int|
        {
            &&& 0 <= i < entries.len()
            &&& entry_fault(#[trigger] entries[i], dangerous) == Some(reason)
            &&& forall|j: int|
                0 <= j < i ==> entry_fault(#[trigger] entries[j], dangerous) is None
        }
}

/// What the explicit entries of an access list come to.
pub open spec fn entries_judged(
    entries: Seq<ExplicitEntry>,
    dangerous: u32,
    r: Result<(), SecurityReason>,
) -> bool {
    match r {
        Ok(_) => forall|i: int|
            0 <= i < entries.len() ==> entry_fault(#[trigger] entries[i], dangerous) is None,
        Err(reason) => first_entry_fault(entries, dangerous, reason),
    }
}

/// What an object comes to, from what its access list itself came to.
pub open spec fn object_judged(
    facts: ObjectSecurity,
    raw_aces: Result<(), SecurityReason>,
    r: Result<(), SecurityReason>,
) -> bool {
    match raw_aces {
        Err(reason) => r == Err::<(), _>(reason),
        Ok(_) => entries_judged(facts.entries.unwrap()@, DANGEROUS_RIGHTS, r),
    }
}

/// Whether an object may be part of a profile.
pub open spec fn object_secure<S: Fn(usize, usize) -> SidFacts>(
    facts: ObjectSecurity,
    desired_current_access: u32,
    inspect_child_inheritance: bool,
    aces: Seq<Option<RawAce>>,
    sid_at: S,
    r: Result<(), SecurityReason>,
) -> bool {
    match object_fault(facts, desired_current_access) {
        Some(reason) => r == Err::<(), _>(reason),
        None => exists|raw_aces: Result<(), SecurityReason>| #[trigger]
            aces_judged(aces, DANGEROUS_RIGHTS, inspect_child_inheritance, sid_at, raw_aces)
                && object_judged(facts, raw_aces, r),
    }
}

/// All entries that could be read are whole.
pub open spec fn aces_whole(aces: Seq<Option<RawAce>>) -> bool {
    forall|i: int|
        0 <= i < aces.len() ==> ((#[trigger] aces[i]) is Some ==> aces[i].unwrap().valid())
}

/// Decides whether an object may be part of a profile: its owner is the user or the
/// machine, this process has the access it needs, and nobody untrusted can write.
/// `aces` are the entries of its access list, as `reject_untrusted_raw_write_aces` takes
/// them.
pub fn validate_windows_object_security<S: Fn(usize, usize) -> SidFacts>(
    facts: &ObjectSecurity,
    desired_current_access: u32,
    inspect_child_inheritance: bool,
    aces: &Vec<Option<RawAce>>,
    sid_at: S,
) -> (r: Result<(), SecurityReason>)
    requires
        aces_whole(aces@),
        forall|i: usize, offset: usize| #[trigger] sid_at.requires((i, offset)),
    ensures
        object_secure(
            *facts,
            desired_current_access,
            inspect_child_inheritance,
            aces@,
            sid_at,
            r,
        ),
{
    if !facts.descriptor_read {
        return Err(SecurityReason::SecurityDescriptor);
    }
    if !facts.token_read {
        return Err(SecurityReason::Token);
    }
    if !facts.token_user_present {
        return Err(SecurityReason::TokenUser);
    }
    if !facts.machine_sids_known {
        return Err(SecurityReason::WellKnownSid);
    }
    if !facts.owner_is_user && !facts.owner_is_system && !facts.owner_is_administrators {
        return Err(SecurityReason::Owner);
    }
    if !facts.access_checked || !facts.access_allowed || facts.granted_access
        & desired_current_access != desired_current_access {
        return Err(SecurityReason::CurrentAccess);
    }
    if !facts.creator_sids_known {
        return Err(SecurityReason::WellKnownSid);
    }
    let entries = match &facts.entries {
        None => {
            return Err(SecurityReason::AclEntries);
        },
        Some(entries) => entries,
    };
    let raw_aces = reject_untrusted_raw_write_aces(
        aces,
        DANGEROUS_RIGHTS,
        inspect_child_inheritance,
        sid_at,
    );
    match raw_aces {
        Err(reason) => Err(reason),
        Ok(()) => judge_entries(entries, DANGEROUS_RIGHTS),
    }
}

/// The access that a process needs to the directory of a profile: to read and write it,
/// and to add and delete what is in it.
pub const PROFILE_ROOT_ACCESS: u32 = 0x0012_01DF;

/// The access that a process needs to a file of a profile: to read and write it.
pub const PROFILE_FILE_ACCESS: u32 = 0x0012_019F;

/// Decides whether a directory may be that of a profile. What its children inherit
/// counts, too.
pub fn validate_windows_profile_security<S: Fn(usize, usize) -> SidFacts>(
    facts: &ObjectSecurity,
    aces: &Vec<Option<RawAce>>,
    sid_at: S,
) -> (r: Result<(), ClientError>)
    requires
        aces_whole(aces@),
        forall|i: usize, offset: usize| #[trigger] sid_at.requires((i, offset)),
    ensures
        exists|verdict: Result<(), SecurityReason>| #[trigger]
            object_secure(*facts, PROFILE_ROOT_ACCESS, true, aces@, sid_at, verdict) && (if verdict
                is Ok {
                r == Ok::<(), ClientError>(())
            } else {
                r == Err::<(), ClientError>(ClientError::ProfileLockUnsupported)
            }),
{
    let verdict = validate_windows_object_security(facts, PROFILE_ROOT_ACCESS, true, aces, sid_at);
    match verdict {
        Ok(()) => Ok(()),
        Err(reason) => Err(windows_security_failure(reason)),
    }
}

/// Decides whether a file may be part of a profile.
pub fn validate_windows_file_security<S: Fn(usize, usize) -> SidFacts>(
    facts: &ObjectSecurity,
    aces: &Vec<Option<RawAce>>,
    sid_at: S,
) -> (r: Result<(), ClientError>)
    requires
        aces_whole(aces@),
        forall|i: usize, offset: usize| #[trigger] sid_at.requires((i, offset)),
    ensures
        exists|verdict: Result<(), SecurityReason>| #[trigger]
            object_secure(*facts, PROFILE_FILE_ACCESS, false, aces@, sid_at, verdict) && (
            if verdict is Ok {
                r == Ok::<(), ClientError>(())
            } else {
                r == Err::<(), ClientError>(ClientError::ProfileLockUnsupported)
            }),
{
    let verdict = validate_windows_object_security(facts, PROFILE_FILE_ACCESS, false, aces, sid_at);
    match verdict {
        Ok(()) => Ok(()),
        Err(reason) => Err(windows_security_failure(reason)),
    }
}

/// What a handle stands for on Windows.
#[derive(Debug, Clone, Copy, PartialEq, Eq, Structural)]
pub struct WindowsHandleInfo {
    pub identity: ProfileIdentity,
    pub attributes: u32,
    pub link_count: u32,
}

/// A real directory.
pub open spec fn is_plain_directory(info: WindowsHandleInfo) -> bool {
    info.attributes & ATTRIBUTE_DIRECTORY != 0 && info.attributes & ATTRIBUTE_REPARSE_POINT == 0
}

/// A real file with one name.
pub open spec fn is_plain_file(info: WindowsHandleInfo) -> bool {
    info.attributes & ATTRIBUTE_DIRECTORY_OR_REPARSE_POINT == 0 && info.link_count == 1
}

pub fn validate_windows_directory_info(info: &WindowsHandleInfo) -> (r: Result<(), ClientError>)
    ensures
        r == (if is_plain_directory(*info) {
            Ok::<(), ClientError>(())
        } else {
            Err(ClientError::ProfileLockUnsupported)
        }),
{
    if info.attributes & ATTRIBUTE_DIRECTORY == 0 || info.attributes & ATTRIBUTE_REPARSE_POINT
        != 0 {
        return Err(ClientError::ProfileLockUnsupported);
    }
    Ok(())
}

pub fn validate_windows_lock_info(info: &WindowsHandleInfo) -> (r: Result<(), ClientError>)
    ensures
        r == (if is_plain_file(*info) {
            Ok::<(), ClientError>(())
        } else {
            Err(ClientError::ProfileLockUnsupported)
        }),
{
    if info.attributes & ATTRIBUTE_DIRECTORY_OR_REPARSE_POINT != 0 || info.link_count != 1 {
        return Err(ClientError::ProfileLockUnsupported);
    }
    Ok(())
}

/// The identity of a file from the two halves of its index.
pub fn windows_identity(volume_serial: u32, index_high: u32, index_low: u32) -> (r: ProfileIdentity)
    ensures
        r.volume_serial_or_device == volume_serial,
        r.file_index_or_inode == index_high * 0x1_0000_0000 + index_low,
{
    ProfileIdentity {
        volume_serial_or_device: volume_serial as u64,
        file_index_or_inode: index_high as u64 * 0x1_0000_0000 + index_low as u64,
    }
}

/// Why a file could not be opened.
#[derive(Debug, Clone, Copy, PartialEq, Eq, Structural)]
pub enum OpenFailure {
    NotFound,
    AlreadyExists,
    Unsupported,
    Other,
}

pub open spec fn open_error(failure: OpenFailure) -> ClientError {
    match failure {
        OpenFailure::Unsupported => ClientError::ProfileLockUnsupported,
        _ => ClientError::Io,
    }
}

/// The client error that an open failure is reported as.
pub fn map_windows_open_error(failure: OpenFailure) -> (r: ClientError)
    ensures
        r == open_error(failure),
{
    match failure {
        OpenFailure::Unsupported => ClientError::ProfileLockUnsupported,
        _ => ClientError::Io,
    }
}

/// The next step in opening a lock file. `attempts_left` counts the rounds that may
/// still follow the current one.
#[derive(Debug, Clone, Copy, PartialEq, Eq, Structural)]
pub enum LockOpenStep {
    Inspect { attempts_left: usize },
    OpenExisting { attempts_left: usize, inspected: WindowsHandleInfo },
    CreateNew { attempts_left: usize },
    VerifyCreated { opened: WindowsHandleInfo },
    CheckSecurity,
    Failed(ClientError),
}

/// What a step found out.
#[derive(Debug, Clone, Copy, PartialEq, Eq, Structural)]
pub enum LockOpenEvent {
    Info(WindowsHandleInfo),
    OpenFailed(OpenFailure),
    InfoFailed,
}

/// What follows a step: an existing file is opened and must be the one that was
/// inspected; a missing one is created and must be what its path then names; a file
/// that appears in between starts the next round.
pub open spec fn next_lock_step(step: LockOpenStep, event: LockOpenEvent) -> LockOpenStep {
    let unsupported = LockOpenStep::Failed(ClientError::ProfileLockUnsupported);
    match (step, event) {
        (LockOpenStep::Failed(error), _) => step,
        (LockOpenStep::CheckSecurity, _) => step,
        (_, LockOpenEvent::InfoFailed) => unsupported,
        (LockOpenStep::Inspect { attempts_left }, LockOpenEvent::Info(info)) => if is_plain_file(
            info,
        ) {
            LockOpenStep::OpenExisting { attempts_left, inspected: info }
        } else {
            unsupported
        },
        (
            LockOpenStep::Inspect { attempts_left },
            LockOpenEvent::OpenFailed(OpenFailure::NotFound),
        ) => LockOpenStep::CreateNew { attempts_left },
        (LockOpenStep::OpenExisting { attempts_left, inspected }, LockOpenEvent::Info(info)) =>
            if is_plain_file(info) && info.identity == inspected.identity {
                LockOpenStep::CheckSecurity
            } else {
                unsupported
            },
        (LockOpenStep::CreateNew { attempts_left }, LockOpenEvent::Info(info)) => if is_plain_file(
            info,
        ) {
            LockOpenStep::VerifyCreated { opened: info }
        } else {
            unsupported
        },
        (
            LockOpenStep::CreateNew { attempts_left },
            LockOpenEvent::OpenFailed(OpenFailure::AlreadyExists),
        ) => if attempts_left == 0 {
            unsupported
        } else {
            LockOpenStep::Inspect { attempts_left: (attempts_left - 1) as usize }
        },
        (LockOpenStep::VerifyCreated { opened }, LockOpenEvent::Info(info)) => if is_plain_file(
            info,
        ) && info.identity == opened.identity {
            LockOpenStep::CheckSecurity
        } else {
            unsupported
        },
        (_, LockOpenEvent::OpenFailed(failure)) => LockOpenStep::Failed(open_error(failure)),
    }
}

/// The first step.
pub fn begin_lock_open() -> (r: LockOpenStep)
    ensures
        r == (LockOpenStep::Inspect { attempts_left: (WINDOWS_LOCK_OPEN_RETRIES - 1) as usize }),
{
    LockOpenStep::Inspect { attempts_left: WINDOWS_LOCK_OPEN_RETRIES - 1 }
}

/// Decides how opening a lock file goes on.
pub fn advance_lock_open(step: LockOpenStep, event: LockOpenEvent) -> (r: LockOpenStep)
    ensures
        r == next_lock_step(step, event),
{
    let failure: Option<OpenFailure> = match event {
        LockOpenEvent::OpenFailed(failure) => Some(failure),
        _ => None,
    };
    let info: Option<WindowsHandleInfo> = match event {
        LockOpenEvent::Info(info) => if validate_windows_lock_info(&info).is_ok() {
            Some(info)
        } else {
            None
        },
        _ => None,
    };
    match step {
        LockOpenStep::Failed(_) => {
            return step;
        },
        LockOpenStep::CheckSecurity => {
            return step;
        },
        LockOpenStep::Inspect { attempts_left } => {
            if let Some(inspected) = info {
                return LockOpenStep::OpenExisting { attempts_left, inspected };
            }
            if let Some(OpenFailure::NotFound) = failure {
                return LockOpenStep::CreateNew { attempts_left };
            }
        },
        LockOpenStep::OpenExisting { attempts_left: _, inspected } => {
            if let Some(opened) = info {
                if opened.identity == inspected.identity {
                    return LockOpenStep::CheckSecurity;
                }
            }
        },
        LockOpenStep::CreateNew { attempts_left } => {
            if let Some(opened) = info {
                return LockOpenStep::VerifyCreated { opened };
            }
            if let Some(OpenFailure::AlreadyExists) = failure {
                if attempts_left > 0 {
                    return LockOpenStep::Inspect { attempts_left: attempts_left - 1 };
                }
                return LockOpenStep::Failed(ClientError::ProfileLockUnsupported);
            }
        },
        LockOpenStep::VerifyCreated { opened } => {
            if let Some(verified) = info {
                if opened.identity == verified.identity {
                    return LockOpenStep::CheckSecurity;
                }
            }
        },
    }
    match failure {
        Some(failure) => LockOpenStep::Failed(map_windows_open_error(failure)),
        None => LockOpenStep::Failed(ClientError::ProfileLockUnsupported),
    }
}

/// How far opening a lock file still is from its end.
pub open spec fn lock_open_rank(step: LockOpenStep) -> nat {
    match step {
        LockOpenStep::Inspect { attempts_left } => (4 * attempts_left + 3) as nat,
        LockOpenStep::CreateNew { attempts_left } => (4 * attempts_left + 2) as nat,
        LockOpenStep::OpenExisting { attempts_left, .. } => 1,
        LockOpenStep::VerifyCreated { .. } => 1,
        LockOpenStep::CheckSecurity => 0,
        LockOpenStep::Failed(_) => 0,
    }
}

/// Opening a lock file comes to an end: every step that is not the last brings the end
/// nearer, and there are at most fifteen of them.
pub proof fn law_lock_open_ends(step: LockOpenStep, event: LockOpenEvent)
    requires
        !(step is CheckSecurity),
        !(step is Failed),
    ensures
        lock_open_rank(next_lock_step(step, event)) < lock_open_rank(step),
        lock_open_rank(
            LockOpenStep::Inspect { attempts_left: (WINDOWS_LOCK_OPEN_RETRIES - 1) as usize },
        ) == 15,
{
}

/// A lock file is only accepted when the handle in use and the path name the same
/// plain file.
pub proof fn law_lock_file_is_the_inspected_one(step: LockOpenStep, event: LockOpenEvent)
    requires
        !(step is CheckSecurity),
        next_lock_step(step, event) is CheckSecurity,
    ensures
        event is Info,
        is_plain_file(event->Info_0),
        step is OpenExisting || step is VerifyCreated,
        step matches LockOpenStep::OpenExisting { attempts_left, inspected }
            ==> event->Info_0.identity == inspected.identity,
        step matches LockOpenStep::VerifyCreated { opened } ==> event->Info_0.identity
            == opened.identity,
{
}

/// Nobody untrusted is granted dangerous rights on an accepted object: an entry that
/// counts and carries them denies, audits or labels, or names somebody trusted.
pub proof fn law_untrusted_grant_is_refused<S: Fn(usize, usize) -> SidFacts>(
    aces: Seq<Option<RawAce>>,
    i: int,
    dangerous: u32,
    inspect_child_inheritance: bool,
    sid_at: S,
)
    requires
        ace_passes(aces, i, dangerous, inspect_child_inheritance, sid_at),
        ace_counts(aces[i].unwrap().flags, inspect_child_inheritance),
        le_u32(aces[i].unwrap().body@, 0) & dangerous != 0,
    ensures
        granting_verdict(aces[i].unwrap()) is Harmless || granting_verdict(
            aces[i].unwrap(),
        ) is GrantsTo,
        granting_verdict(aces[i].unwrap()) matches AceVerdict::GrantsTo { sid_offset } ==> exists|
            facts: SidFacts,
        | #[trigger]
            sid_at.ensures((i as usize, sid_offset), facts) && facts.valid
                && facts.identity.trusted(),
{
}

} // verus!
