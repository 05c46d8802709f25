//! Decisions: what each of them makes of what it is given.
use vstd::prelude::*;
use crate::{
    account_runtime, credentials, external, ids, login, organization_flow, profile_coordination,
    profile_runtime, sync, sync_convert, sync_run, sync_store, text, windows_security,
};
use crate::account_runtime::{
    AccountRootRequest, AccountRuntimeState, AccountSettings, CryptoRuntimeState,
    KeyRefreshStep, LocalMutationState, RefreshedKeys,
};
use crate::credentials::{
    AccountLoginProvisional, OriginBoundAccessToken, StoredPendingLogin,
    StoredSessionCredential, StoredSessionTokens, TokenStep,
};
use crate::domain::{CompletedTimerSession, List, Task, TaskSeries, TaskTemplate};
use crate::error::{ClientError, StorageError};
use crate::ids::Uuid;
use crate::local_crypto::{LocalCryptoAvailability, LocalProfileBinding, LocalSyncKeys};
use crate::model::{AccountSessionState, OrganizationSafetyState};
use crate::organization_flow::{
    AccountRootPublicKeys, AdmittedOrganization, BundleCheck, ComparedSafetyNumber,
    DeviceRoster, RosterHead,
};
use crate::organization_trust::OrganizationTrustPin;
use crate::profile_coordination::{LockOutcome, ProfileIdentity, UnixMetadata};
use crate::protocol::organization::OrganizationSafetyResponse;
use crate::sync::{SyncReadiness, SyncRunSummary, TicketStep};
use crate::sync_convert::{
    FullResyncProgress, FullResyncSweepSummary, LocalFullResyncProgress,
    LocalFullResyncSweepSummary,
};
use crate::sync_run::AttemptStep;
use crate::sync_store::{AliasReplacement, LocalListAlias, RotationBackfillSnapshot};
use crate::windows_security::{
    ObjectSecurity, RawAce, SecurityReason, SidFacts, WindowsHandleInfo,
};

verus! {

/// Verifying rosters of which one moved, by its revision or its head, of the owner or
/// of the member, stores a pin that demands the next generation and has seen both.
pub proof fn law_verified_rosters_move_the_pin(
    organization: AdmittedOrganization,
    owner: RosterHead,
    member: RosterHead,
    r: Result<OrganizationTrustPin, ClientError>,
)
    requires
        call_ensures(organization_flow::verify_organization_device_rosters, (organization, Some(owner), Some(member),), r),
        external::base64_signs(organization.pin_spec().owner_roster_head_hash@),
        external::base64_decoded(organization.pin_spec().owner_roster_head_hash@) is Some,
        external::base64_decoded(organization.pin_spec().owner_roster_head_hash@).unwrap().len() == 32,
        external::base64_signs(organization.pin_spec().member_roster_head_hash@),
        external::base64_decoded(organization.pin_spec().member_roster_head_hash@) is Some,
        external::base64_decoded(organization.pin_spec().member_roster_head_hash@).unwrap().len() == 32,
        organization.pin_spec().minimum_generation < u64::MAX,
        owner.revision != organization.pin_spec().owner_roster_revision
            || Some(owner.head_hash@) != external::base64_decoded(organization.pin_spec().owner_roster_head_hash@)
            || member.revision != organization.pin_spec().member_roster_revision
            || Some(member.head_hash@) != external::base64_decoded(organization.pin_spec().member_roster_head_hash@),
    ensures
        r is Ok,
        r->Ok_0.required_generation == organization.pin_spec().minimum_generation + 1,
        r->Ok_0.minimum_generation == organization.pin_spec().minimum_generation,
        r->Ok_0.owner_roster_revision == owner.revision,
        external::base64_decoded(r->Ok_0.owner_roster_head_hash@) == Some(owner.head_hash@),
        r->Ok_0.member_roster_revision == member.revision,
        external::base64_decoded(r->Ok_0.member_roster_head_hash@) == Some(member.head_hash@),
{
}

/// Verifying the rosters that the pin has seen demands nothing new.
pub proof fn law_verified_rosters_keep_the_pin(
    organization: AdmittedOrganization,
    owner: RosterHead,
    member: RosterHead,
    r: Result<OrganizationTrustPin, ClientError>,
)
    requires
        call_ensures(organization_flow::verify_organization_device_rosters, (organization, Some(owner), Some(member),), r),
        external::base64_signs(organization.pin_spec().owner_roster_head_hash@),
        external::base64_decoded(organization.pin_spec().owner_roster_head_hash@) is Some,
        external::base64_decoded(organization.pin_spec().owner_roster_head_hash@).unwrap().len() == 32,
        external::base64_signs(organization.pin_spec().member_roster_head_hash@),
        external::base64_decoded(organization.pin_spec().member_roster_head_hash@) is Some,
        external::base64_decoded(organization.pin_spec().member_roster_head_hash@).unwrap().len() == 32,
        owner.revision == organization.pin_spec().owner_roster_revision,
        Some(owner.head_hash@) == external::base64_decoded(organization.pin_spec().owner_roster_head_hash@),
        member.revision == organization.pin_spec().member_roster_revision,
        Some(member.head_hash@) == external::base64_decoded(organization.pin_spec().member_roster_head_hash@),
    ensures
        r is Ok,
        r->Ok_0.required_generation == organization.pin_spec().required_generation,
        r->Ok_0.minimum_generation == organization.pin_spec().minimum_generation,
        r->Ok_0.owner_roster_revision == owner.revision,
        external::base64_decoded(r->Ok_0.owner_roster_head_hash@) == Some(owner.head_hash@),
        r->Ok_0.member_roster_revision == member.revision,
        external::base64_decoded(r->Ok_0.member_roster_head_hash@) == Some(member.head_hash@),
{
}

/// A check that is planned after a roster moved asks for the generation after the one
/// that the pin holds.
pub proof fn law_planned_check_asks_for_the_next_generation<
    F: Fn(Vec<u8>) -> Option<Vec<u8>>,
>(
    organization: AdmittedOrganization,
    device_identity: Result<(), ClientError>,
    owner: DeviceRoster,
    member: DeviceRoster,
    fingerprint: F,
    r: Result<BundleCheck, ClientError>,
)
    requires
        call_ensures(organization_flow::plan_bundle_check::<F>, (organization, device_identity, Some(owner), Some(member), fingerprint,), r),
        r is Ok,
        organization.pin_spec().minimum_generation < u64::MAX,
        owner.head.revision != organization.pin_spec().owner_roster_revision
            || Some(owner.head.head_hash@) != external::base64_decoded(organization.pin_spec().owner_roster_head_hash@)
            || member.head.revision != organization.pin_spec().member_roster_revision
            || Some(member.head.head_hash@) != external::base64_decoded(organization.pin_spec().member_roster_head_hash@),
    ensures
        r->Ok_0.minimum_generation_spec() == organization.pin_spec().minimum_generation + 1,
        device_identity is Ok,
{
}

/// A safety number is shown as verified only where a pin is stored that the user
/// confirmed here and that holds what the service names; a participant that is refused
/// and a pin that cannot be read are told.
pub proof fn law_safety_number_is_shown_as_it_stands(
    response: OrganizationSafetyResponse,
    participant: Result<(), ClientError>,
    stored: Result<Option<OrganizationTrustPin>, ClientError>,
    r: Result<OrganizationSafetyState, ClientError>,
)
    requires
        call_ensures(organization_flow::organization_safety_number, (response, participant, stored,), r),
    ensures
        participant is Err ==> r is Err && r->Err_0 == participant->Err_0,
        participant is Ok && stored is Err ==> r is Err && r->Err_0 == stored->Err_0,
        participant is Ok && stored is Ok ==> r is Ok,
        r is Ok ==>
            r->Ok_0.digest == response.digest
                && r->Ok_0.decimal == response.decimal
                && r->Ok_0.qr_payload == response.qr_payload,
        r is Ok
            && stored->Ok_0 is Some
            && stored->Ok_0->Some_0.locally_confirmed
            && stored->Ok_0->Some_0.owner_root_public@ == response.owner_root_public@
            && stored->Ok_0->Some_0.member_root_public@ == response.member_root_public@
            && stored->Ok_0->Some_0.digest@ == response.digest@
            && response.verification_state@ == "verified"@ ==>
            r->Ok_0.verification_state@ == "verified"@,
        r is Ok
            && (stored->Ok_0 is None || !stored->Ok_0->Some_0.locally_confirmed || stored->Ok_0->Some_0.owner_root_public@ != response.owner_root_public@ || stored->Ok_0->Some_0.member_root_public@ != response.member_root_public@ || stored->Ok_0->Some_0.digest@ != response.digest@ || response.verification_state@ != "verified"@) ==>
            r->Ok_0.verification_state@ == "unverified"@,
{
}

/// A number is compared if and only if the participant is accepted and it is the number
/// that the service names now.
pub proof fn law_compared_number_must_be_the_current_one(
    current: OrganizationSafetyResponse,
    participant: Result<(), ClientError>,
    digest: String,
    r: Result<ComparedSafetyNumber, ClientError>,
)
    requires
        call_ensures(organization_flow::check_confirmed_digest, (current, participant, digest,), r),
    ensures
        r is Ok <==> participant is Ok && current.digest@ == digest@,
        participant is Err ==> r->Err_0 == participant->Err_0,
        participant is Ok && r is Err ==> r->Err_0 is AccountRequest,
        r is Ok ==> r->Ok_0.current_spec() == current && r->Ok_0.digest_spec() == digest,
{
}

/// A confirmation pins the compared number if and only if the participant is accepted
/// and the service answers for the same roots and the same number; the pin is confirmed
/// here, holds the first generation and demands none.
pub proof fn law_confirmation_pins_the_compared_number(
    compared: ComparedSafetyNumber,
    response: OrganizationSafetyResponse,
    participant: Result<(), ClientError>,
    r: Result<(OrganizationTrustPin, OrganizationSafetyState), ClientError>,
)
    requires
        call_ensures(organization_flow::confirm_organization_safety_number, (&compared, response, participant,), r),
    ensures
        r is Ok <==>
            participant is Ok
                && compared.current_spec().owner_root_public@ == response.owner_root_public@
                && compared.current_spec().member_root_public@ == response.member_root_public@
                && compared.current_spec().digest@ == response.digest@,
        participant is Err ==> r->Err_0 == participant->Err_0,
        participant is Ok && r is Err ==> r->Err_0 is AccountRequest,
        r is Ok ==>
            r->Ok_0.0.locally_confirmed
                && r->Ok_0.0.minimum_generation == 1
                && r->Ok_0.0.required_generation == 0
                && r->Ok_0.0.digest@ == compared.digest_spec()@,
        r is Ok ==> r->Ok_0.0.owner_root_public@ == response.owner_root_public@,
        r is Ok ==> r->Ok_0.0.member_root_public@ == response.member_root_public@,
        r is Ok ==> r->Ok_0.0.digest@ == response.digest@,
        r is Ok && response.verification_state@ != "verified"@ ==>
            r->Ok_0.1.verification_state@ == "unverified"@,
        r is Ok && response.verification_state@ == "verified"@ ==>
            r->Ok_0.1.verification_state@ == "verified"@,
{
}

/// A pin that is put up for comparison holds both roots and the number, is not
/// confirmed, holds the first generation, demands none and has seen neither roster.
pub proof fn law_candidate_pin_is_not_confirmed(
    response: OrganizationSafetyResponse,
    r: OrganizationTrustPin,
)
    requires
        call_ensures(OrganizationTrustPin::candidate, (&response,), r),
    ensures
        r.owner_root_public@ == response.owner_root_public@,
        r.member_root_public@ == response.member_root_public@,
        r.digest@ == response.digest@,
        !r.locally_confirmed,
        r.minimum_generation == 1,
        r.required_generation == 0,
        r.owner_roster_revision == 0,
        r.member_roster_revision == 0,
{
}

/// A bound profile is of the tenant and the user that it is bound to; one that is not
/// bound takes any, unless it was bound before, in which case the stored identity
/// decides.
pub proof fn law_bound_profile_keeps_its_identity(
    binding: Result<Option<LocalProfileBinding>, ClientError>,
    legacy_bound: Result<bool, ClientError>,
    legacy_tenant: Result<Option<String>, ClientError>,
    legacy_user: Result<Option<String>, ClientError>,
    tenant_id: Uuid,
    user_id: Uuid,
    r: Result<(), ClientError>,
)
    requires
        call_ensures(account_runtime::validate_existing_profile_identity, (binding, legacy_bound, legacy_tenant, legacy_user, tenant_id, user_id,), r),
    ensures
        binding is Err ==> r is Err && r->Err_0 == binding->Err_0,
        binding is Ok && binding->Ok_0 is Some ==>
            (r is Ok <==> binding->Ok_0->Some_0.tenant_id == tenant_id && binding->Ok_0->Some_0.user_id == user_id),
        binding is Ok && binding->Ok_0 is Some && r is Err ==>
            r->Err_0 is ProfileIdentityMismatch,
        binding is Ok && binding->Ok_0 is None && legacy_bound is Err ==>
            r is Err
                && r->Err_0 == legacy_bound->Err_0,
        binding is Ok && binding->Ok_0 is None && legacy_bound is Ok && !legacy_bound->Ok_0 ==>
            r is Ok,
        binding is Ok
            && binding->Ok_0 is None
            && legacy_bound is Ok
            && legacy_bound->Ok_0
            && r is Ok ==>
            legacy_tenant is Ok
                && legacy_tenant->Ok_0 is Some
                && ids::parsed(legacy_tenant->Ok_0->Some_0@) == Some(tenant_id)
                && legacy_user is Ok
                && legacy_user->Ok_0 is Some
                && ids::parsed(legacy_user->Ok_0->Some_0@) == Some(user_id),
{
}

/// The keys of a profile are restored as they are available; an anonymous profile that
/// was bound before lacks its master key.
pub proof fn law_restored_keys(
    availability: Result<LocalCryptoAvailability, ClientError>,
    legacy_bound: Result<bool, ClientError>,
    r: Result<CryptoRuntimeState, ClientError>,
)
    requires
        call_ensures(account_runtime::restored_crypto, (availability, legacy_bound,), r),
    ensures
        availability is Err ==> r is Err && r->Err_0 == availability->Err_0,
        availability is Ok && availability->Ok_0 is Ready ==>
            r is Ok
                && r->Ok_0 is Ready
                && r->Ok_0->Ready_0 == availability->Ok_0->Ready_0,
        availability is Ok && availability->Ok_0 is AccountBoundUnavailable ==>
            r is Ok
                && r->Ok_0 is Unavailable
                && r->Ok_0->Unavailable_0 == availability->Ok_0->AccountBoundUnavailable_0,
        availability is Ok && availability->Ok_0 is Anonymous && legacy_bound is Err ==>
            r is Err
                && r->Err_0 == legacy_bound->Err_0,
        availability is Ok
            && availability->Ok_0 is Anonymous
            && legacy_bound is Ok
            && legacy_bound->Ok_0 ==>
            r is Ok
                && r->Ok_0 is Unavailable
                && r->Ok_0->Unavailable_0 is MissingMasterKey,
        availability is Ok
            && availability->Ok_0 is Anonymous
            && legacy_bound is Ok
            && !legacy_bound->Ok_0 ==>
            r is Ok
                && r->Ok_0 is Anonymous,
{
}

/// A login keeps the tenant key that is unlocked here, and takes the one handed over
/// where the profile is anonymous; where the account is bound and its keys are not
/// there, it is unavailable.
pub proof fn law_local_tenant_key_is_kept(
    availability: Result<LocalCryptoAvailability, ClientError>,
    tenant_generation: u64,
    tenant_root_dek: [u8; 32],
    r: Result<(u64, [u8; 32]), ClientError>,
)
    requires
        call_ensures(account_runtime::ensure_key_material_covers_local_lists, (availability, tenant_generation, tenant_root_dek,), r),
    ensures
        availability is Err ==> r is Err && r->Err_0 == availability->Err_0,
        availability is Ok && availability->Ok_0 is Anonymous ==>
            r is Ok
                && r->Ok_0.0 == tenant_generation
                && r->Ok_0.1 == tenant_root_dek,
        availability is Ok
            && availability->Ok_0 is Ready
            && availability->Ok_0->Ready_0.sync_keys.tenant_root_dek is Some ==>
            r is Ok
                && r->Ok_0.0 == availability->Ok_0->Ready_0.sync_keys.tenant_generation
                && Some(r->Ok_0.1) == availability->Ok_0->Ready_0.sync_keys.tenant_root_dek,
        availability is Ok
            && availability->Ok_0 is Ready
            && availability->Ok_0->Ready_0.sync_keys.tenant_root_dek is None ==>
            r is Err
                && r->Err_0 is AccountBoundUnavailable,
        availability is Ok && availability->Ok_0 is AccountBoundUnavailable ==>
            r is Err
                && r->Err_0 is AccountBoundUnavailable,
{
}

/// The root of an account is accepted if and only if its private part could be read,
/// its public part is stored, and the one derived from the private part is of the same
/// user and the same bytes.
pub proof fn law_root_must_be_the_stored_one(
    private_read: bool,
    stored: Result<AccountRootPublicKeys, ClientError>,
    derived: Option<AccountRootPublicKeys>,
    r: Result<AccountRootPublicKeys, ClientError>,
)
    requires
        call_ensures(account_runtime::load_account_root_keys, (private_read, stored, derived,), r),
    ensures
        r is Ok <==>
            private_read
                && stored is Ok
                && derived is Some
                && derived->Some_0.user_id == stored->Ok_0.user_id
                && derived->Some_0.encoded@ == stored->Ok_0.encoded@,
        r is Ok ==> r->Ok_0 == stored->Ok_0,
        private_read && stored is Err ==> r->Err_0 == stored->Err_0,
        r is Err && (!private_read || stored is Ok) ==> r->Err_0 is AccountBoundUnavailable,
{
}

/// The root of an account is unwrapped for the user and with the master key that are
/// unlocked, at the generation that is stored.
pub proof fn law_root_is_asked_for_with_the_unlocked_key(
    state: AccountRuntimeState,
    generation: Result<Option<String>, ClientError>,
    wrapped: Result<Option<Vec<u8>>, ClientError>,
    r: Result<AccountRootRequest, ClientError>,
)
    requires
        call_ensures(account_runtime::account_root_request, (&state, generation, wrapped,), r),
    ensures
        !(state.crypto is Ready) ==> r is Err && r->Err_0 is AccountBoundUnavailable,
        r is Ok ==>
            state.crypto is Ready
                && r->Ok_0.user_id == state.crypto->Ready_0.user_id
                && r->Ok_0.master_key == state.crypto->Ready_0.master_key,
        r is Ok ==>
            generation is Ok
                && generation->Ok_0 is Some
                && text::unsigned_value(generation->Ok_0->Some_0@, u64::MAX as nat) == Some(r->Ok_0.generation as nat),
        r is Ok ==> wrapped is Ok && wrapped->Ok_0 == Some(r->Ok_0.wrapped),
        state.crypto is Ready && generation is Err ==>
            r is Err
                && r->Err_0 == generation->Err_0,
        r is Err && state.crypto is Ready && generation is Ok && wrapped is Ok ==>
            r->Err_0 is IncompleteAccountState,
{
}

/// The settings of an account hold the address and the identifiers of its session under
/// their names, its root in text and its generation in digits.
pub proof fn law_stored_account_keeps_its_names(
    session: AccountSessionState,
    root: Option<Vec<u8>>,
    generation: u64,
    r: Result<AccountSettings, ClientError>,
)
    requires
        call_ensures(account_runtime::persist_account_state, (&session, &root, generation,), r),
    ensures
        root is None ==> r is Err && r->Err_0 is AccountBoundUnavailable,
        root is Some ==> r is Ok,
        r is Ok && session.email is Some ==> r->Ok_0.email@ == session.email->Some_0@,
        r is Ok && session.email is None ==> r->Ok_0.email@.len() == 0,
        r is Ok && session.user_id is Some ==> r->Ok_0.user_id@ == session.user_id->Some_0@,
        r is Ok && session.user_id is None ==> r->Ok_0.user_id@.len() == 0,
        r is Ok && session.tenant_id is Some ==>
            r->Ok_0.tenant_id@ == session.tenant_id->Some_0@,
        r is Ok && session.tenant_id is None ==> r->Ok_0.tenant_id@.len() == 0,
        r is Ok && session.device_id is Some ==>
            r->Ok_0.device_id@ == session.device_id->Some_0@,
        r is Ok && session.device_id is None ==> r->Ok_0.device_id@.len() == 0,
        r is Ok ==> external::base64_decoded(r->Ok_0.root_public@) == Some(root->Some_0@),
        r is Ok ==> r->Ok_0.master_key_generation@ == text::decimal(generation as nat),
{
}

/// A refresh of the keys begins with the records where a rotation is behind it, and
/// with the keys where none is.
pub proof fn law_refresh_begins_with_the_records_of_a_rotation(
    refreshed: RefreshedKeys,
    r: KeyRefreshStep,
)
    requires
        call_ensures(account_runtime::begin_key_refresh, (&refreshed,), r),
    ensures
        refreshed.rotation_backfill <==> r is ReadRecords,
        !refreshed.rotation_backfill <==> r is PersistKeys,
{
}

/// A profile is changed unless its keys are unavailable.
pub proof fn law_unavailable_profile_is_not_changed(
    state: LocalMutationState,
    r: Result<(), ClientError>,
)
    requires
        call_ensures(account_runtime::preflight_sync_mutation, (&state,), r),
    ensures
        r is Ok <==> !(state is AccountBoundUnavailable),
        r is Err ==> r->Err_0 is AccountBoundUnavailable,
{
}

/// A profile registers if and only if it is not bound and was not before; a failed read
/// is passed on.
pub proof fn law_only_an_unbound_profile_registers(
    bound: Result<bool, ClientError>,
    legacy_bound: Result<bool, ClientError>,
    r: Result<(), ClientError>,
)
    requires
        call_ensures(login::ensure_profile_is_unbound_for_registration, (bound, legacy_bound,), r),
    ensures
        r is Ok <==> bound is Ok && !bound->Ok_0 && legacy_bound is Ok && !legacy_bound->Ok_0,
        bound is Err ==> r->Err_0 == bound->Err_0,
        bound is Ok && bound->Ok_0 ==> r->Err_0 is ProfileAlreadyBound,
        bound is Ok && !bound->Ok_0 && legacy_bound is Err ==> r->Err_0 == legacy_bound->Err_0,
        bound is Ok && !bound->Ok_0 && legacy_bound is Ok && legacy_bound->Ok_0 ==>
            r->Err_0 is ProfileAlreadyBound,
{
}

/// Tokens are loaded from a credential that is active, and from no other.
pub proof fn law_active_tokens_are_loaded(
    credential: Result<Option<StoredSessionCredential>, ClientError>,
    r: Result<Option<StoredSessionTokens>, ClientError>,
)
    requires
        call_ensures(credentials::load_session_tokens, (credential,), r),
    ensures
        credential is Err ==> r is Err && r->Err_0 == credential->Err_0,
        credential is Ok ==> r is Ok,
        credential is Ok && credential->Ok_0 is Some && credential->Ok_0->Some_0 is Active ==>
            r->Ok_0 == Some(credential->Ok_0->Some_0->Active_0),
        credential is Ok && !(credential->Ok_0 is Some && credential->Ok_0->Some_0 is Active) ==>
            r->Ok_0 is None,
{
}

/// A login that waits for its device is loaded from a credential that is one, and from
/// no other.
pub proof fn law_pending_login_is_loaded(
    credential: Result<Option<StoredSessionCredential>, ClientError>,
    r: Result<Option<StoredPendingLogin>, ClientError>,
)
    requires
        call_ensures(credentials::load_pending_login, (credential,), r),
    ensures
        credential is Err ==> r is Err && r->Err_0 == credential->Err_0,
        credential is Ok ==> r is Ok,
        credential is Ok
            && credential->Ok_0 is Some
            && credential->Ok_0->Some_0 is PendingDeviceCertification ==>
            r->Ok_0 == Some(*credential->Ok_0->Some_0->PendingDeviceCertification_0),
        credential is Ok
            && !(credential->Ok_0 is Some && credential->Ok_0->Some_0 is PendingDeviceCertification) ==>
            r->Ok_0 is None,
{
}

/// Tokens are stored if and only if they are valid for the canonical address of their
/// issuer, and then as an active credential.
pub proof fn law_only_valid_tokens_are_stored(
    tokens: StoredSessionTokens,
    canonical: Option<String>,
    r: Result<StoredSessionCredential, ClientError>,
)
    requires
        call_ensures(credentials::store_session_tokens, (tokens, &canonical,), r),
    ensures
        r is Ok <==>
            tokens.version == 2
                && canonical is Some
                && canonical->Some_0@ == tokens.issuer@
                && tokens.access_token@.len() > 0
                && tokens.refresh_token@.len() > 0
                && tokens.access_expires_at_ms > 0
                && tokens.refresh_expires_at_ms > 0,
        r is Ok ==> r->Ok_0 is Active && r->Ok_0->Active_0 == tokens,
        r is Err ==> r->Err_0 is IncompleteAccountState,
{
}

/// A login is stored for its device if it has the public part of its root and the
/// identity of the device; the root is looked at first.
pub proof fn law_login_without_its_keys_is_not_stored(
    issuer: &str,
    login: AccountLoginProvisional,
    r: Result<StoredPendingLogin, ClientError>,
)
    requires
        call_ensures(StoredPendingLogin::from_provisional, (issuer, &login,), r),
    ensures
        r is Ok <==> login.keys.account_root_public is Some && login.device_identity is Some,
        login.keys.account_root_public is None ==> r->Err_0 is AccountBoundUnavailable,
        login.keys.account_root_public is Some && login.device_identity is None ==>
            r->Err_0 is AccountRequest,
        r is Ok ==>
            r->Ok_0.issuer@ == issuer@
                && r->Ok_0.user_id@ == login.session.user_id@
                && r->Ok_0.tenant_id@ == login.session.tenant_id@
                && r->Ok_0.device_id@ == login.session.device_id@,
{
}

/// A token is come by from stored tokens alone, beginning with the clock; a failed read
/// is passed on, and without tokens the request fails.
pub proof fn law_token_begins_with_the_clock(
    tokens: Result<Option<StoredSessionTokens>, ClientError>,
    force: bool,
    r: TokenStep,
)
    requires
        call_ensures(credentials::begin_access_token, (tokens, force,), r),
    ensures
        tokens is Err ==> r == TokenStep::Done(Err(tokens->Err_0)),
        tokens is Ok && tokens->Ok_0 is None ==>
            r == TokenStep::Done(Err(ClientError::AccountRequest)),
        tokens is Ok && tokens->Ok_0 is Some ==>
            r == (TokenStep::ReadClock { tokens: tokens->Ok_0->Some_0, force_refresh: force }),
{
}

/// A token that is handed out is the access token, bound to the issuer of the tokens.
pub proof fn law_token_is_bound_to_its_issuer(
    tokens: StoredSessionTokens,
    r: OriginBoundAccessToken,
)
    requires
        call_ensures(credentials::bound_access_token, (&tokens,), r),
    ensures
        r.issuer@ == tokens.issuer@,
        r.token@ == tokens.access_token@,
{
}

/// A ticket is asked for by a profile that could sync, in its context and without a
/// forced refresh; missing keys are told as that, and every other want as a missing
/// credential.
pub proof fn law_ticket_begins_where_a_sync_could(readiness: SyncReadiness, r: TicketStep)
    requires
        call_ensures(sync::begin_realtime_ticket, (readiness,), r),
    ensures
        readiness is Ready ==>
            r == (TicketStep::FetchToken { context: readiness->Ready_0, force_refresh: false }),
        readiness is AccountBoundUnavailable ==>
            r == TicketStep::Done(Err(ClientError::AccountBoundUnavailable)),
        readiness is LoggedOut || readiness is CredentialUnavailable ==>
            r == TicketStep::Done(Err(ClientError::CredentialUnavailable)),
{
}

/// A profile that is ready is logged in, one that is logged out is not, and any other
/// want is told.
pub proof fn law_login_for_the_status(readiness: SyncReadiness, r: Result<bool, ClientError>)
    requires
        call_ensures(sync::readiness_logged_in, (&readiness,), r),
    ensures
        readiness is Ready ==> r is Ok && r->Ok_0,
        readiness is LoggedOut ==> r is Ok && !r->Ok_0,
        readiness is CredentialUnavailable ==> r is Err && r->Err_0 is CredentialUnavailable,
        readiness is AccountBoundUnavailable ==>
            r is Err
                && r->Err_0 is AccountBoundUnavailable,
{
}

/// Refreshed keys are taken if and only if the profile is still at the epoch of the
/// lease; otherwise the lease is lost, and a failure is told in its words.
pub proof fn law_refreshed_keys_are_of_the_lease(
    keys: Result<LocalSyncKeys, ClientError>,
    lease_epoch: i64,
    durable_epoch: Result<i64, StorageError>,
    r: Result<LocalSyncKeys, String>,
)
    requires
        call_ensures(sync::check_refreshed_keys, (keys, lease_epoch, durable_epoch,), r),
    ensures
        r is Ok <==> keys is Ok && durable_epoch is Ok && durable_epoch->Ok_0 == lease_epoch,
        r is Ok ==> r->Ok_0 == keys->Ok_0,
        keys is Err ==> r->Err_0@ == sync::client_error_text(keys->Err_0),
        keys is Ok && durable_epoch is Err ==>
            r->Err_0@ == sync::lease_error_text(durable_epoch->Err_0),
        keys is Ok && durable_epoch is Ok && durable_epoch->Ok_0 != lease_epoch ==>
            r->Err_0@ == "sync lease lost"@,
{
}

/// The outbox is sent once more if settling changed it or something is in it; a failed
/// read matters only where settling changed nothing.
pub proof fn law_outbox_is_sent_again(
    heads: Result<usize, String>,
    changed: bool,
    r: Result<bool, String>,
)
    requires
        call_ensures(sync::dirty_follow_up_required, (heads, changed,), r),
    ensures
        changed ==> r is Ok && r->Ok_0,
        !changed && heads is Ok ==> r is Ok && (r->Ok_0 <==> heads->Ok_0 > 0),
        !changed && heads is Err ==> r is Err && r->Err_0 == heads->Err_0,
{
}

/// An attempt that is done came to its summary, a failed one to its words, and any
/// other to nothing yet.
pub proof fn law_what_an_attempt_came_to(
    step: AttemptStep,
    r: Option<Result<SyncRunSummary, String>>,
)
    requires
        call_ensures(sync_run::attempt_result, (step,), r),
    ensures
        step is Done ==> r == Some(Ok::<SyncRunSummary, String>(step->Done_summary)),
        step is Failed ==>
            r is Some
                && r->Some_0 is Err
                && r->Some_0->Err_0@ == step->Failed_0.words(),
        !(step is Done || step is Failed) ==> r is None,
{
}

/// Paths are valid if and only if the root is, a database was pinned, and the database
/// found is the pinned one.
pub proof fn law_pinned_paths(
    root: Result<(), ClientError>,
    pinned: Option<ProfileIdentity>,
    database: Result<ProfileIdentity, ClientError>,
    r: Result<(), ClientError>,
)
    requires
        call_ensures(profile_coordination::validate_pinned_paths, (root, pinned, database,), r),
    ensures
        r is Ok <==>
            root is Ok
                && pinned is Some
                && database is Ok
                && database->Ok_0 == pinned->Some_0,
        root is Err ==> r->Err_0 == root->Err_0,
        root is Ok && pinned is None ==> r->Err_0 is ProfileLockUnsupported,
        root is Ok && pinned is Some && database is Err ==> r->Err_0 == database->Err_0,
        root is Ok && pinned is Some && database is Ok && r is Err ==>
            r->Err_0 is ProfileLockUnsupported,
{
}

/// A lock that is held elsewhere is busy, one that the file system does not know is
/// unsupported, and every other failure is one of input or output.
pub proof fn law_outcome_of_a_lock(
    outcome: LockOutcome,
    codes: Vec<i32>,
    r: Result<(), ClientError>,
)
    requires
        call_ensures(profile_coordination::lock_result, (outcome, &codes,), r),
    ensures
        r is Ok <==> outcome is Locked,
        outcome is WouldBlock ==> r->Err_0 is ProfileBusy,
        outcome is Failed
            && (outcome->unsupported || (outcome->os_code is Some && codes@.contains(outcome->os_code->Some_0))) ==>
            r->Err_0 is ProfileLockUnsupported,
        outcome is Failed
            && !(outcome->unsupported || (outcome->os_code is Some && codes@.contains(outcome->os_code->Some_0))) ==>
            r->Err_0 is Io,
{
}

/// A credential store that is locked elsewhere is busy, and every other failure is one
/// of input or output.
pub proof fn law_outcome_of_a_session_lock(outcome: LockOutcome, r: Result<(), ClientError>)
    requires
        call_ensures(profile_coordination::acquire_session_token_set_lock, (outcome,), r),
    ensures
        r is Ok <==> outcome is Locked,
        outcome is WouldBlock ==> r->Err_0 is Busy,
        outcome is Failed ==> r->Err_0 is Io,
{
}

/// The directory of a profile is accepted if it is a directory and no link, of the
/// user, written by nobody else, and the one expected.
pub proof fn law_accepted_root(
    metadata: Option<UnixMetadata>,
    euid: u32,
    expected: ProfileIdentity,
    r: Result<(), ClientError>,
)
    requires
        call_ensures(profile_coordination::validate_profile_root_path, (metadata, euid, expected,), r),
    ensures
        r is Ok <==>
            metadata is Some
                && metadata->Some_0.is_dir
                && !metadata->Some_0.is_symlink
                && metadata->Some_0.uid == euid
                && metadata->Some_0.mode & 0o022 == 0
                && metadata->Some_0.identity == expected,
        r is Err ==> r->Err_0 is ProfileLockUnsupported,
{
}

/// The database of a profile is accepted if it is a plain file with one name, of the
/// user, and written by nobody else; it is then known by its identity.
pub proof fn law_accepted_database(
    metadata: Option<UnixMetadata>,
    euid: u32,
    r: Result<ProfileIdentity, ClientError>,
)
    requires
        call_ensures(profile_coordination::validate_profile_database_path, (metadata, euid,), r),
    ensures
        r is Ok <==>
            metadata is Some
                && metadata->Some_0.is_file
                && !metadata->Some_0.is_symlink
                && metadata->Some_0.uid == euid
                && metadata->Some_0.nlink == 1
                && metadata->Some_0.mode & 0o022 == 0,
        r is Ok ==> r->Ok_0 == metadata->Some_0.identity,
        r is Err ==> r->Err_0 is ProfileLockUnsupported,
{
}

/// A lock file is accepted if it is a plain file with one name, of the user, and open
/// to nobody else; it is then known by its identity, and must stay the one that it was.
pub proof fn law_accepted_lock_file(
    metadata: Option<UnixMetadata>,
    euid: u32,
    expected: ProfileIdentity,
    r: Result<(), ClientError>,
    found: Result<ProfileIdentity, ClientError>,
)
    requires
        call_ensures(profile_coordination::verify_unix_lock_file, (metadata, euid, expected,), r),
        call_ensures(profile_coordination::accept_unix_lock_file, (metadata, euid), found),
    ensures
        found is Ok <==>
            metadata is Some
                && metadata->Some_0.is_file
                && metadata->Some_0.uid == euid
                && metadata->Some_0.nlink == 1
                && metadata->Some_0.mode & 0o077 == 0,
        found is Ok ==> found->Ok_0 == metadata->Some_0.identity,
        r is Ok <==> found is Ok && found->Ok_0 == expected,
        r is Err ==> r->Err_0 is ProfileLockUnsupported,
        found is Err ==> found->Err_0 is ProfileLockUnsupported,
{
}

/// The clock is told in milliseconds since the epoch where it is after it and the
/// number fits.
pub proof fn law_clock_in_milliseconds(
    millis: Option<u128>,
    r: Result<i64, ClientError>,
    s: Result<i64, StorageError>,
)
    requires
        call_ensures(profile_runtime::now_ms, (millis,), r),
        call_ensures(sync_store::coordination_now_ms, (millis,), s),
    ensures
        r is Ok <==> millis is Some && millis->Some_0 <= i64::MAX,
        r is Ok ==> r->Ok_0 as int == millis->Some_0 as int,
        r is Err ==> r->Err_0 is RuntimeState,
        s is Ok <==> millis is Some && millis->Some_0 <= i64::MAX,
        s is Ok ==> s->Ok_0 as int == millis->Some_0 as int,
        millis is None ==> s->Err_0 is ProfileCoordinationClockRollback,
        millis is Some && s is Err ==> s->Err_0 is ProfileCoordinationOverflow,
{
}

/// The generation of a capsule is stored as it is where it fits, and is otherwise a
/// fault of the local keys.
pub proof fn law_capsule_generation_fits(generation: u64, r: Result<i64, ClientError>)
    requires
        call_ensures(profile_runtime::capsule_generation_to_store, (generation,), r),
    ensures
        r is Ok <==> generation <= i64::MAX,
        r is Ok ==> r->Ok_0 as int == generation as int,
        r is Err ==> r->Err_0 is LocalKeyState,
{
}

/// An operation is repeated only where the epoch changed under it, and only after the
/// runtime caught up; what it comes to then is the answer, and a runtime that does not
/// catch up is.
pub proof fn law_changed_epoch_is_retried_once<
    T, K, O: FnOnce() -> Result<T, ClientError>, C: FnOnce() -> Result<K, ClientError>, A: FnOnce(K) -> Result<T, ClientError>,
>(
    operation: O,
    catch_up: C,
    again: A,
    r: Result<T, ClientError>,
)
    requires
        call_ensures(profile_runtime::retry_runtime_epoch_once::<T, K, O, C, A>, (operation, catch_up, again,), r),
    ensures
        exists|first: Result<T, ClientError>| #[trigger] operation.ensures((), first)
            && (!(first is Err && first->Err_0 is Storage && first->Err_0->Storage_0 is ProfileRuntimeEpochChanged) ==> r == first)
            && (first is Err && first->Err_0 is Storage && first->Err_0->Storage_0 is ProfileRuntimeEpochChanged ==> exists|caught: Result<K, ClientError>| #[trigger] catch_up.ensures((), caught) && (caught is Err ==> r is Err && r->Err_0 == caught->Err_0) && (caught is Ok ==> again.ensures((caught->Ok_0,), r))),
{
}

/// A file is accepted if and only if it is secure for the rights that the library needs
/// of it.
pub proof fn law_secure_file<S: Fn(usize, usize) -> SidFacts>(
    facts: ObjectSecurity,
    aces: Vec<Option<RawAce>>,
    sid_at: S,
    r: Result<(), ClientError>,
)
    requires
        call_ensures(windows_security::validate_windows_file_security::<S>, (&facts, &aces, sid_at,), r),
    ensures
        exists|verdict: Result<(), SecurityReason>| #[trigger] windows_security::object_secure(facts, 0x0012_019F, false, aces@, sid_at, verdict)
            && (r is Ok <==> verdict is Ok),
        r is Err ==> r->Err_0 is ProfileLockUnsupported,
{
}

/// A directory is accepted if and only if it is secure for the rights that the library
/// needs of it and for what its children inherit.
pub proof fn law_secure_profile<S: Fn(usize, usize) -> SidFacts>(
    facts: ObjectSecurity,
    aces: Vec<Option<RawAce>>,
    sid_at: S,
    r: Result<(), ClientError>,
)
    requires
        call_ensures(windows_security::validate_windows_profile_security::<S>, (&facts, &aces, sid_at,), r),
    ensures
        exists|verdict: Result<(), SecurityReason>| #[trigger] windows_security::object_secure(facts, 0x0012_01DF, true, aces@, sid_at, verdict)
            && (r is Ok <==> verdict is Ok),
        r is Err ==> r->Err_0 is ProfileLockUnsupported,
{
}

/// A handle is accepted as a directory where it is one and no link to another place,
/// and as a lock file where it is neither and has one name.
pub proof fn law_accepted_handles(
    info: WindowsHandleInfo,
    d: Result<(), ClientError>,
    r: Result<(), ClientError>,
)
    requires
        call_ensures(windows_security::validate_windows_directory_info, (&info,), d),
        call_ensures(windows_security::validate_windows_lock_info, (&info,), r),
    ensures
        d is Ok <==> info.attributes & 16 != 0 && info.attributes & 1024 == 0,
        r is Ok <==>
            info.attributes & 16 == 0
                && info.attributes & 1024 == 0
                && info.link_count == 1,
        d is Err ==> d->Err_0 is ProfileLockUnsupported,
        r is Err ==> r->Err_0 is ProfileLockUnsupported,
{
    let attributes = info.attributes;
    assert(attributes & 1040 == 0 <==> attributes & 16 == 0 && attributes & 1024 == 0) by (bit_vector);
}

/// The progress of a full resync is told under its names; the base waits for its
/// acknowledgement as long as a completion is owed for it.
pub proof fn law_resync_keeps_its_fields<K>(
    progress: FullResyncProgress<K>,
    token: Option<String>,
    r: LocalFullResyncProgress<K>,
)
    requires
        call_ensures(sync_convert::storage_resync_to_local::<K>, (progress, &token,), r),
    ensures
        r.generation_id == progress.generation_id,
        r.continuity_generation == progress.continuity_generation,
        r.base_seq == progress.base_seq,
        r.base_cursor == progress.base_cursor,
        r.delta_cursor == progress.delta_cursor,
        r.closure_high_water == progress.closure_high_water,
        r.sweep_cursor == progress.sweep_cursor,
        progress.phase is Base <==> r.phase is Base,
        progress.phase is Sweep <==> r.phase is Sweep,
        progress.phase is Delta && token is Some && token->Some_0@.len() > 0 <==>
            r.phase is BaseAwaitingAck,
{
}

/// The counts of a sweep are told under their names.
pub proof fn law_sweep_keeps_its_counts(
    summary: FullResyncSweepSummary,
    r: LocalFullResyncSweepSummary,
)
    requires
        call_ensures(sync_convert::storage_sweep_to_local, (summary,), r),
    ensures
        r.scanned_records == summary.scanned_records,
        r.swept_lists == summary.swept_lists,
        r.swept_tasks == summary.swept_tasks,
        r.swept_templates == summary.swept_templates,
        r.swept_task_series == summary.swept_task_series,
        r.swept_timer_sessions == summary.swept_timer_sessions,
        r.swept_record_states == summary.swept_record_states,
{
}

/// Aliases that agree replace those of the list that they stand for; aliases that do
/// not are refused; and none at all take away those that there were.
pub proof fn law_aliases_are_replaced(
    aliases: Vec<LocalListAlias>,
    existing: Result<Vec<LocalListAlias>, String>,
    r: Result<Option<AliasReplacement>, String>,
)
    requires
        call_ensures(sync_store::replace_list_aliases, (&aliases, existing,), r),
    ensures
        aliases@.len() > 0 && r is Ok ==>
            r->Ok_0 is Some
                && (forall|i: int| 0 <= i < aliases@.len() ==> (#[trigger] aliases@[i]).canonical_list_id == r->Ok_0->Some_0.canonical_list_id && aliases@[i].alias_list_id != r->Ok_0->Some_0.canonical_list_id),
        aliases@.len() > 0 && r is Ok ==>
            r->Ok_0->Some_0.alias_list_ids@.len() == aliases@.len()
                && (forall|i: int| 0 <= i < aliases@.len() ==> #[trigger] r->Ok_0->Some_0.alias_list_ids@[i] == aliases@[i].alias_list_id),
        aliases@.len() > 0 && r is Err ==> r->Err_0@ == "invalid canonical Inbox alias set"@,
        aliases@.len() == 0 && existing is Err ==> r is Err && r->Err_0 == existing->Err_0,
        aliases@.len() == 0 && existing is Ok ==>
            r is Ok
                && (r->Ok_0 is Some <==> existing->Ok_0@.len() > 0),
        aliases@.len() == 0 && existing is Ok && existing->Ok_0@.len() > 0 ==>
            r->Ok_0->Some_0.canonical_list_id == existing->Ok_0@[0].canonical_list_id
                && r->Ok_0->Some_0.alias_list_ids@.len() == 0,
{
}

/// A record that is found is told, one that is not is none, and every other failure is
/// passed on.
pub proof fn law_missing_record_is_no_failure<T>(
    result: Result<T, StorageError>,
    r: Result<Option<T>, StorageError>,
)
    requires
        call_ensures(sync_store::found::<T>, (result,), r),
    ensures
        result is Ok ==> r is Ok && r->Ok_0 == Some(result->Ok_0),
        result is Err && result->Err_0 is NotFound ==> r is Ok && r->Ok_0 is None,
        result is Err && !(result->Err_0 is NotFound) ==> r is Err && r->Err_0 == result->Err_0,
{
}

/// A snapshot holds what each of the five reads gave.
pub proof fn law_snapshot_holds_every_read(
    lists: Result<Vec<List>, StorageError>,
    templates: Result<Vec<TaskTemplate>, StorageError>,
    schedules: Result<Vec<TaskSeries>, StorageError>,
    tasks: Result<Vec<Task>, StorageError>,
    timers: Result<Vec<CompletedTimerSession>, StorageError>,
    r: Result<RotationBackfillSnapshot, StorageError>,
)
    requires
        call_ensures(sync_store::rotation_backfill_snapshot, (lists, templates, schedules, tasks, timers,), r),
    ensures
        r is Ok <==>
            lists is Ok
                && templates is Ok
                && schedules is Ok
                && tasks is Ok
                && timers is Ok,
        r is Ok ==>
            r->Ok_0.lists == lists->Ok_0
                && r->Ok_0.templates == templates->Ok_0
                && r->Ok_0.schedules == schedules->Ok_0
                && r->Ok_0.tasks == tasks->Ok_0
                && r->Ok_0.timer_sessions == timers->Ok_0,
        lists is Err ==> r->Err_0 == lists->Err_0,
{
}

/// The tasks of a list are those of all tasks that are in it, and no others; a failed
/// read is passed on.
pub proof fn law_tasks_of_one_list(
    tasks: Result<Vec<Task>, StorageError>,
    list_id: Uuid,
    r: Result<Vec<Task>, StorageError>,
    task: Task,
)
    requires
        call_ensures(sync_store::list_tasks_by_list_for_sync, (tasks, list_id,), r),
    ensures
        tasks is Err ==> r is Err && r->Err_0 == tasks->Err_0,
        tasks is Ok ==> r is Ok,
        r is Ok ==>
            (r->Ok_0@.contains(task) <==> tasks->Ok_0@.contains(task) && task.list_id == list_id),
{
    if r is Ok {
        let all = tasks->Ok_0@;
        let wanted = |task: Task| task.list_id == list_id;
        assert(r->Ok_0@ == all.filter(wanted));
        lemma_filtered(all, wanted, task);
    }
}

proof fn lemma_filtered(all: Seq<Task>, wanted: spec_fn(Task) -> bool, task: Task)
    ensures
        all.filter(wanted).contains(task) <==> all.contains(task) && wanted(task),
{
    broadcast use vstd::seq_lib::group_filter_ensures;

    if all.contains(task) && wanted(task) {
        let i = choose|i: int| 0 <= i < all.len() && all[i] == task;
        assert(all.filter(wanted).contains(all[i]));
    }
    if all.filter(wanted).contains(task) {
        let i = choose|i: int| 0 <= i < all.filter(wanted).len() && all.filter(wanted)[i] == task;
        assert(wanted(all.filter(wanted)[i]));
        all.lemma_filter_contains_rev(wanted, task);
    }
}

} // verus!
