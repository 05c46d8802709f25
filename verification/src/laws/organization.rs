//! Organizations: what makes a pin stand, what moves it, and what is demanded of the
//! keys and the devices of its members.
use vstd::prelude::*;
use crate::error::ClientError;
use crate::external;
use crate::ids;
use crate::organization_flow;
use crate::organization_trust;
use crate::text;
use crate::ids::Uuid;
use crate::model::OrganizationSafetyState;
use crate::organization_flow::{
    AccountRootPublicKeys, AdmissionSettings, AdmittedOrganization, BundleCheck, DeviceRoster,
    OrganizationRosterTrust, RevocationPlan, RosterHead, RosterSide,
};
use crate::organization_trust::OrganizationTrustPin;
use crate::protocol::organization::{OrganizationDeviceDto, OrganizationSafetyResponse};

verus! {

/// Where the revision or the head of either roster differs from what the pin has seen,
/// of the owner or of the member, the generation after the one that the pin holds is
/// demanded.
pub proof fn law_moved_roster_demands_the_next_generation(
    pin: OrganizationTrustPin,
    owner: RosterHead,
    member: RosterHead,
)
    requires
        external::base64_signs(pin.owner_roster_head_hash@),
        external::base64_decoded(pin.owner_roster_head_hash@) is Some,
        external::base64_decoded(pin.owner_roster_head_hash@).unwrap().len() == 32,
        external::base64_signs(pin.member_roster_head_hash@),
        external::base64_decoded(pin.member_roster_head_hash@) is Some,
        external::base64_decoded(pin.member_roster_head_hash@).unwrap().len() == 32,
        pin.minimum_generation < u64::MAX,
        owner.revision != pin.owner_roster_revision
            || Some(owner.head_hash@) != external::base64_decoded(pin.owner_roster_head_hash@)
            || member.revision != pin.member_roster_revision
            || Some(member.head_hash@) != external::base64_decoded(pin.member_roster_head_hash@),
    ensures
        organization_flow::required_after(pin, owner, member) == Some((pin.minimum_generation + 1) as u64),
{
}

/// Where both rosters are those that the pin has seen, what the pin demands stays as it
/// is.
pub proof fn law_unmoved_rosters_demand_nothing_new(
    pin: OrganizationTrustPin,
    owner: RosterHead,
    member: RosterHead,
)
    requires
        external::base64_signs(pin.owner_roster_head_hash@),
        external::base64_decoded(pin.owner_roster_head_hash@) is Some,
        external::base64_decoded(pin.owner_roster_head_hash@).unwrap().len() == 32,
        external::base64_signs(pin.member_roster_head_hash@),
        external::base64_decoded(pin.member_roster_head_hash@) is Some,
        external::base64_decoded(pin.member_roster_head_hash@).unwrap().len() == 32,
        owner.revision == pin.owner_roster_revision,
        Some(owner.head_hash@) == external::base64_decoded(pin.owner_roster_head_hash@),
        member.revision == pin.member_roster_revision,
        Some(member.head_hash@) == external::base64_decoded(pin.member_roster_head_hash@),
    ensures
        organization_flow::required_after(pin, owner, member) == Some(pin.required_generation),
{
}

/// A pin whose owner or member roster head is not the text of a hash can be followed by
/// no roster, and neither can a pin that holds the last generation be followed by a
/// roster that moved.
pub proof fn law_unreadable_head_demands_nothing(
    pin: OrganizationTrustPin,
    owner: RosterHead,
    member: RosterHead,
)
    ensures
        !(external::base64_signs(pin.owner_roster_head_hash@) && external::base64_decoded(pin.owner_roster_head_hash@) is Some && external::base64_decoded(pin.owner_roster_head_hash@).unwrap().len() == 32 && external::base64_signs(pin.member_roster_head_hash@) && external::base64_decoded(pin.member_roster_head_hash@) is Some && external::base64_decoded(pin.member_roster_head_hash@).unwrap().len() == 32) ==>
            organization_flow::required_after(pin, owner, member) is None,
        pin.minimum_generation == u64::MAX
            && (owner.revision != pin.owner_roster_revision || Some(owner.head_hash@) != external::base64_decoded(pin.owner_roster_head_hash@) || member.revision != pin.member_roster_revision || Some(member.head_hash@) != external::base64_decoded(pin.member_roster_head_hash@)) ==>
            organization_flow::required_after(pin, owner, member) is None,
{
}

/// Following rosters of which one moved stores a pin that demands the next generation,
/// has seen both rosters and is otherwise as it was.
pub proof fn law_following_a_moved_roster(
    r: Result<OrganizationTrustPin, ClientError>,
    pin: OrganizationTrustPin,
    owner: RosterHead,
    member: RosterHead,
)
    requires
        organization_flow::rosters_followed(r, pin, Some(owner), Some(member)),
        external::base64_signs(pin.owner_roster_head_hash@),
        external::base64_decoded(pin.owner_roster_head_hash@) is Some,
        external::base64_decoded(pin.owner_roster_head_hash@).unwrap().len() == 32,
        external::base64_signs(pin.member_roster_head_hash@),
        external::base64_decoded(pin.member_roster_head_hash@) is Some,
        external::base64_decoded(pin.member_roster_head_hash@).unwrap().len() == 32,
        pin.minimum_generation < u64::MAX,
        owner.revision != pin.owner_roster_revision
            || Some(owner.head_hash@) != external::base64_decoded(pin.owner_roster_head_hash@)
            || member.revision != pin.member_roster_revision
            || Some(member.head_hash@) != external::base64_decoded(pin.member_roster_head_hash@),
    ensures
        r is Ok,
        r->Ok_0.required_generation == pin.minimum_generation + 1,
        r->Ok_0.minimum_generation == pin.minimum_generation,
        r->Ok_0.owner_root_public == pin.owner_root_public,
        r->Ok_0.member_root_public == pin.member_root_public,
        r->Ok_0.digest == pin.digest,
        r->Ok_0.locally_confirmed == pin.locally_confirmed,
        r->Ok_0.owner_roster_revision == owner.revision,
        r->Ok_0.owner_roster_head_hash@ == external::base64_text(owner.head_hash@),
        external::base64_decoded(r->Ok_0.owner_roster_head_hash@) == Some(owner.head_hash@),
        r->Ok_0.member_roster_revision == member.revision,
        r->Ok_0.member_roster_head_hash@ == external::base64_text(member.head_hash@),
        external::base64_decoded(r->Ok_0.member_roster_head_hash@) == Some(member.head_hash@),
{
}

/// Following the rosters that the pin has seen stores a pin that demands what it
/// demanded and is otherwise as it was.
pub proof fn law_following_unmoved_rosters(
    r: Result<OrganizationTrustPin, ClientError>,
    pin: OrganizationTrustPin,
    owner: RosterHead,
    member: RosterHead,
)
    requires
        organization_flow::rosters_followed(r, pin, Some(owner), Some(member)),
        external::base64_signs(pin.owner_roster_head_hash@),
        external::base64_decoded(pin.owner_roster_head_hash@) is Some,
        external::base64_decoded(pin.owner_roster_head_hash@).unwrap().len() == 32,
        external::base64_signs(pin.member_roster_head_hash@),
        external::base64_decoded(pin.member_roster_head_hash@) is Some,
        external::base64_decoded(pin.member_roster_head_hash@).unwrap().len() == 32,
        owner.revision == pin.owner_roster_revision,
        Some(owner.head_hash@) == external::base64_decoded(pin.owner_roster_head_hash@),
        member.revision == pin.member_roster_revision,
        Some(member.head_hash@) == external::base64_decoded(pin.member_roster_head_hash@),
    ensures
        r is Ok,
        r->Ok_0.required_generation == pin.required_generation,
        r->Ok_0.minimum_generation == pin.minimum_generation,
        r->Ok_0.owner_root_public == pin.owner_root_public,
        r->Ok_0.member_root_public == pin.member_root_public,
        r->Ok_0.digest == pin.digest,
        r->Ok_0.locally_confirmed == pin.locally_confirmed,
        r->Ok_0.owner_roster_revision == owner.revision,
        r->Ok_0.owner_roster_head_hash@ == external::base64_text(owner.head_hash@),
        external::base64_decoded(r->Ok_0.owner_roster_head_hash@) == Some(owner.head_hash@),
        r->Ok_0.member_roster_revision == member.revision,
        r->Ok_0.member_roster_head_hash@ == external::base64_text(member.head_hash@),
        external::base64_decoded(r->Ok_0.member_roster_head_hash@) == Some(member.head_hash@),
{
}

/// Where the roster of the owner or of the member is not verified, the pin does not
/// change.
pub proof fn law_missing_roster_is_refused(
    r: Result<OrganizationTrustPin, ClientError>,
    pin: OrganizationTrustPin,
    owner: Option<RosterHead>,
    member: Option<RosterHead>,
)
    requires
        organization_flow::rosters_followed(r, pin, owner, member),
        owner is None || member is None,
    ensures
        r is Err,
        r->Err_0 is AccountRequest,
{
}

/// Where a roster moved, the check of a key bundle asks for the generation after the
/// one that the pin holds.
pub proof fn law_bundle_check_asks_for_the_next_generation<F: Fn(Vec<u8>) -> Option<Vec<u8>>>(
    r: Result<BundleCheck, ClientError>,
    organization: AdmittedOrganization,
    owner: DeviceRoster,
    member: DeviceRoster,
    fingerprint: F,
)
    requires
        organization_flow::check_planned(r, organization, owner, member, fingerprint),
        r is Ok,
        organization.pin_spec().minimum_generation < u64::MAX,
        owner.head.revision != organization.pin_spec().owner_roster_revision
            || Some(owner.head.head_hash@) != external::base64_decoded(organization.pin_spec().owner_roster_head_hash@)
            || member.head.revision != organization.pin_spec().member_roster_revision
            || Some(member.head.head_hash@) != external::base64_decoded(organization.pin_spec().member_roster_head_hash@),
    ensures
        r->Ok_0.minimum_generation_spec() == organization.pin_spec().minimum_generation + 1,
{
}

/// Where no roster moved, the check of a key bundle asks for the larger of the
/// generation that the pin holds and the one that it demands.
pub proof fn law_bundle_check_without_a_move<F: Fn(Vec<u8>) -> Option<Vec<u8>>>(
    r: Result<BundleCheck, ClientError>,
    organization: AdmittedOrganization,
    owner: DeviceRoster,
    member: DeviceRoster,
    fingerprint: F,
)
    requires
        organization_flow::check_planned(r, organization, owner, member, fingerprint),
        r is Ok,
        owner.head.revision == organization.pin_spec().owner_roster_revision,
        Some(owner.head.head_hash@) == external::base64_decoded(organization.pin_spec().owner_roster_head_hash@),
        member.head.revision == organization.pin_spec().member_roster_revision,
        Some(member.head.head_hash@) == external::base64_decoded(organization.pin_spec().member_roster_head_hash@),
    ensures
        r->Ok_0.minimum_generation_spec() >= organization.pin_spec().minimum_generation,
        r->Ok_0.minimum_generation_spec() >= organization.pin_spec().required_generation,
        r->Ok_0.minimum_generation_spec() == organization.pin_spec().minimum_generation
            || r->Ok_0.minimum_generation_spec() == organization.pin_spec().required_generation,
{
}

/// The check of a key bundle speaks of the organization and the rosters that it was
/// planned for and names one recipient for each device.
pub proof fn law_bundle_check_is_of_what_it_was_planned_for<
    F: Fn(Vec<u8>) -> Option<Vec<u8>>,
>(
    r: Result<BundleCheck, ClientError>,
    organization: AdmittedOrganization,
    owner: DeviceRoster,
    member: DeviceRoster,
    fingerprint: F,
)
    requires
        organization_flow::check_planned(r, organization, owner, member, fingerprint),
        r is Ok,
    ensures
        r->Ok_0.organization_spec() == organization,
        r->Ok_0.owner_spec() == owner.head,
        r->Ok_0.member_spec() == member.head,
        r->Ok_0.recipients_spec().len() == owner.devices@.len() + member.devices@.len(),
{
}

/// The recipients of a checked key bundle are, first, the fingerprints of the
/// certificates of the devices of the owner, in order.
pub proof fn law_owner_devices_come_first<F: Fn(Vec<u8>) -> Option<Vec<u8>>>(
    r: Result<BundleCheck, ClientError>,
    organization: AdmittedOrganization,
    owner: DeviceRoster,
    member: DeviceRoster,
    fingerprint: F,
    i: int,
)
    requires
        organization_flow::check_planned(r, organization, owner, member, fingerprint),
        r is Ok,
        0 <= i < owner.devices@.len(),
    ensures
        external::base64_decoded(owner.devices@[i].certificate@) is Some,
        exists|bytes: Vec<u8>, reply: Option<Vec<u8>>| external::base64_decoded(owner.devices@[i].certificate@) == Some(bytes@)
            && reply == Some(r->Ok_0.recipients_spec()[i])
            && #[trigger] fingerprint.ensures((bytes,), reply),
{
    let devices = owner.devices@ + member.devices@;
    assert(devices[i] == owner.devices@[i]);
}

/// The recipients of a checked key bundle are, after those of the owner, the
/// fingerprints of the certificates of the devices of the member, in order.
pub proof fn law_member_devices_come_after<F: Fn(Vec<u8>) -> Option<Vec<u8>>>(
    r: Result<BundleCheck, ClientError>,
    organization: AdmittedOrganization,
    owner: DeviceRoster,
    member: DeviceRoster,
    fingerprint: F,
    i: int,
)
    requires
        organization_flow::check_planned(r, organization, owner, member, fingerprint),
        r is Ok,
        0 <= i < member.devices@.len(),
    ensures
        external::base64_decoded(member.devices@[i].certificate@) is Some,
        exists|bytes: Vec<u8>, reply: Option<Vec<u8>>| external::base64_decoded(member.devices@[i].certificate@) == Some(bytes@)
            && reply == Some(r->Ok_0.recipients_spec()[owner.devices@.len() + i])
            && #[trigger] fingerprint.ensures((bytes,), reply),
{
    let devices = owner.devices@ + member.devices@;
    assert(devices[owner.devices@.len() + i] == member.devices@[i]);
}

/// A check that could be demanded is refused only for a device, of the owner or of the
/// member, whose certificate cannot be decoded or has no fingerprint.
pub proof fn law_unknown_recipient_refuses_the_check<F: Fn(Vec<u8>) -> Option<Vec<u8>>>(
    r: Result<BundleCheck, ClientError>,
    organization: AdmittedOrganization,
    owner: DeviceRoster,
    member: DeviceRoster,
    fingerprint: F,
)
    requires
        organization_flow::check_planned(r, organization, owner, member, fingerprint),
        r is Err,
        organization_flow::required_after(organization.pin_spec(), owner.head, member.head) is Some,
    ensures
        r->Err_0 is AccountRequest,
        exists|i: int| 0 <= i < owner.devices@.len() + member.devices@.len()
            && (external::base64_decoded((#[trigger] (owner.devices@ + member.devices@)[i]).certificate@) is None || exists|bytes: Vec<u8>| external::base64_decoded((owner.devices@ + member.devices@)[i].certificate@) == Some(bytes@) && #[trigger] fingerprint.ensures((bytes,), None)),
{
    let devices = owner.devices@ + member.devices@;
    let i = choose|i: int| 0 <= i < devices.len() && organization_flow::recipient_unknown(fingerprint, #[trigger] devices[i]);
    if external::base64_decoded(devices[i].certificate@) is Some {
        let bytes = choose|bytes: Vec<u8>| bytes@ == external::base64_decoded(devices[i].certificate@).unwrap() && #[trigger] fingerprint.ensures((bytes,), None);
        assert(fingerprint.ensures((bytes,), None));
    }
}

/// Without the keys of the device nothing is checked and their failure is the answer;
/// without either roster the request fails.
pub proof fn law_bundle_check_is_refused_for_a_reason<F: Fn(Vec<u8>) -> Option<Vec<u8>>>(
    r: Result<BundleCheck, ClientError>,
    organization: AdmittedOrganization,
    device_identity: Result<(), ClientError>,
    owner: Option<DeviceRoster>,
    member: Option<DeviceRoster>,
    fingerprint: F,
)
    requires
        organization_flow::bundle_planned(r, organization, device_identity, owner, member, fingerprint),
    ensures
        device_identity matches Err(error) ==> r is Err && r->Err_0 == error,
        device_identity is Ok && (owner is None || member is None) ==>
            r is Err
                && r->Err_0 is AccountRequest,
        device_identity is Ok && owner is Some && member is Some ==>
            organization_flow::check_planned(r, organization, owner->Some_0, member->Some_0, fingerprint),
{
}

/// A bundle that verified at a generation stores a pin that holds that generation,
/// demands none, has seen both rosters and is otherwise as it was; one that did not
/// verify changes nothing.
pub proof fn law_checked_bundle_moves_the_pin(
    r: Result<(OrganizationTrustPin, u64), ClientError>,
    check: BundleCheck,
    verified: Option<u64>,
)
    requires
        organization_flow::bundle_judged(r, check, verified),
    ensures
        verified is None ==> r is Err && r->Err_0 is AccountRequest,
        verified matches Some(generation) ==>
            r is Ok
                && r->Ok_0.1 == generation
                && r->Ok_0.0.minimum_generation == generation
                && r->Ok_0.0.required_generation == 0,
        verified is Some ==>
            r->Ok_0.0.owner_root_public == check.organization_spec().pin_spec().owner_root_public,
        verified is Some ==>
            r->Ok_0.0.member_root_public == check.organization_spec().pin_spec().member_root_public,
        verified is Some ==> r->Ok_0.0.digest == check.organization_spec().pin_spec().digest,
        verified is Some ==>
            r->Ok_0.0.locally_confirmed == check.organization_spec().pin_spec().locally_confirmed,
        verified is Some ==> r->Ok_0.0.owner_roster_revision == check.owner_spec().revision,
        verified is Some ==>
            r->Ok_0.0.owner_roster_head_hash@ == external::base64_text(check.owner_spec().head_hash@),
        verified is Some ==>
            external::base64_decoded(r->Ok_0.0.owner_roster_head_hash@) == Some(check.owner_spec().head_hash@),
        verified is Some ==> r->Ok_0.0.member_roster_revision == check.member_spec().revision,
        verified is Some ==>
            r->Ok_0.0.member_roster_head_hash@ == external::base64_text(check.member_spec().head_hash@),
        verified is Some ==>
            external::base64_decoded(r->Ok_0.0.member_roster_head_hash@) == Some(check.member_spec().head_hash@),
{
}

/// Every check of a key bundle asks for at least the generation that the pin holds, and
/// for the one after it where a roster moved.
pub proof fn law_check_minimum_rests_on_the_pin(check: BundleCheck)
    requires
        check.fits(),
    ensures
        check.minimum_generation_spec() >= check.organization_spec().pin_spec().minimum_generation,
        (check.owner_spec().revision != check.organization_spec().pin_spec().owner_roster_revision || Some(check.owner_spec().head_hash@) != external::base64_decoded(check.organization_spec().pin_spec().owner_roster_head_hash@) || check.member_spec().revision != check.organization_spec().pin_spec().member_roster_revision || Some(check.member_spec().head_hash@) != external::base64_decoded(check.organization_spec().pin_spec().member_roster_head_hash@)) ==>
            check.minimum_generation_spec() == check.organization_spec().pin_spec().minimum_generation + 1,
{
}

/// The least generation that a pin accepts is the larger of the one that it holds and
/// the one that it demands.
pub proof fn law_least_generation_is_the_larger(pin: OrganizationTrustPin)
    ensures
        organization_flow::least_generation(pin) >= pin.minimum_generation,
        organization_flow::least_generation(pin) >= pin.required_generation,
        organization_flow::least_generation(pin) == pin.minimum_generation
            || organization_flow::least_generation(pin) == pin.required_generation,
{
}

/// A stored pin is admitted if and only if the user confirmed it here, it holds both
/// roots and the number that the service names now, and the service calls the pair
/// verified. A failed read is passed on; every other case fails the request.
pub proof fn law_pin_stands_on_three_things(
    stored: Result<Option<OrganizationTrustPin>, ClientError>,
    safety: OrganizationSafetyResponse,
)
    ensures
        stored matches Err(error) ==>
            organization_flow::admitted(stored, safety) == Err::<OrganizationTrustPin, ClientError>(error),
        organization_flow::admitted(stored, safety) is Ok <==>
            stored is Ok
                && stored->Ok_0 is Some
                && stored->Ok_0->Some_0.locally_confirmed
                && stored->Ok_0->Some_0.owner_root_public@ == safety.owner_root_public@
                && stored->Ok_0->Some_0.member_root_public@ == safety.member_root_public@
                && stored->Ok_0->Some_0.digest@ == safety.digest@
                && safety.verification_state@ == "verified"@,
        organization_flow::admitted(stored, safety) matches Ok(pin) ==>
            stored == Ok::<Option<OrganizationTrustPin>, ClientError>(Some(pin)),
        stored is Ok && organization_flow::admitted(stored, safety) is Err ==>
            organization_flow::admitted(stored, safety)->Err_0 is AccountRequest,
{
}

/// A pin stands if and only if the user confirmed it here, both roots and the number
/// are those that the service names, and the service calls the pair verified.
pub proof fn law_standing_pin_is_confirmed_and_current(
    pin: OrganizationTrustPin,
    response: OrganizationSafetyResponse,
)
    ensures
        organization_flow::pin_stands(pin, response) <==>
            pin.locally_confirmed
                && pin.owner_root_public@ == response.owner_root_public@
                && pin.member_root_public@ == response.member_root_public@
                && pin.digest@ == response.digest@
                && response.verification_state@ == "verified"@,
        pin.matches_spec(response) <==>
            pin.owner_root_public@ == response.owner_root_public@
                && pin.member_root_public@ == response.member_root_public@
                && pin.digest@ == response.digest@,
        organization_flow::is_verified(response) <==> response.verification_state@ == "verified"@,
{
}

/// What a frontend sees of a safety number bears the two users, the number in its three
/// notations and both confirmations as the service names them, and the state that the
/// service names only where the pin stands here.
pub proof fn law_safety_state_is_verified_only_here(
    state: OrganizationSafetyState,
    response: OrganizationSafetyResponse,
    here: bool,
)
    requires
        organization_flow::safety_state_shows(state, response, here),
    ensures
        state.owner_user_id@ == external::uuid_text(response.owner_user_id.value),
        state.member_user_id@ == external::uuid_text(response.member_user_id.value),
        state.digest == response.digest,
        state.decimal == response.decimal,
        state.qr_payload == response.qr_payload,
        state.owner_confirmed == response.owner_confirmed,
        state.member_confirmed == response.member_confirmed,
        here ==> state.verification_state@ == response.verification_state@,
        !here ==> state.verification_state@ == "unverified"@,
{
}

/// A root that is read is what the reader makes of the decoded text; nothing else fails
/// the read than a text that cannot be decoded or that the reader refuses.
pub proof fn law_root_is_read_from_its_text<D: Fn(Vec<u8>) -> Option<AccountRootPublicKeys>>(
    decode: D,
    value: Seq<char>,
    r: Result<AccountRootPublicKeys, ClientError>,
)
    requires
        organization_flow::root_read(decode, value, r),
    ensures
        r is Err ==> r->Err_0 is AccountRequest,
        r matches Ok(root) ==>
            exists|bytes: Vec<u8>, reply: Option<AccountRootPublicKeys>| external::base64_decoded(value) == Some(bytes@)
                && reply == Some(root)
                && #[trigger] decode.ensures((bytes,), reply),
        r is Err ==>
            external::base64_decoded(value) is None || exists|bytes: Vec<u8>, reply: Option<AccountRootPublicKeys>| external::base64_decoded(value) == Some(bytes@)
                && reply is None
                && #[trigger] decode.ensures((bytes,), reply),
{
}

/// A setting that is needed is what was stored; a failed read is passed on and a
/// missing one leaves the account incomplete. An identifier is the one that the setting
/// names.
pub proof fn law_needed_setting(value: Result<Option<String>, ClientError>)
    ensures
        value matches Err(error) ==>
            organization_flow::needed_setting(value) == Err::<Seq<char>, ClientError>(error)
                && organization_flow::needed_id(value) == Err::<Uuid, ClientError>(error),
        value is Ok && value->Ok_0 is None ==>
            organization_flow::needed_setting(value) == Err::<Seq<char>, ClientError>(ClientError::IncompleteAccountState)
                && organization_flow::needed_id(value) == Err::<Uuid, ClientError>(ClientError::IncompleteAccountState),
        value is Ok && value->Ok_0 is Some ==>
            organization_flow::needed_setting(value) == Ok::<Seq<char>, ClientError>(value->Ok_0->Some_0@),
        value is Ok && value->Ok_0 is Some ==>
            organization_flow::needed_id(value) == match ids::parsed(value->Ok_0->Some_0@) { Some(id) => Ok::<Uuid, ClientError>(id), None => Err(ClientError::IncompleteAccountState) },
{
}

/// The user takes part if and only if both settings are there, the user is the owner or
/// the member, and the stored root is the one that the service names for that side; the
/// user and the decoded root are the answer.
pub proof fn law_participant_holds_the_root_that_the_service_names(
    response: OrganizationSafetyResponse,
    user: Result<Option<String>, ClientError>,
    root: Result<Option<String>, ClientError>,
)
    requires
        user is Ok && user->Ok_0 is Some,
        root is Ok && root->Ok_0 is Some,
        ids::parsed(user->Ok_0->Some_0@) is Some,
        external::base64_decoded(root->Ok_0->Some_0@) is Some,
    ensures
        organization_flow::participant_root(response, user, root) is Ok <==>
            (response.owner_user_id == ids::parsed(user->Ok_0->Some_0@).unwrap() && root->Ok_0->Some_0@ == response.owner_root_public@)
                || (response.owner_user_id != ids::parsed(user->Ok_0->Some_0@).unwrap() && response.member_user_id == ids::parsed(user->Ok_0->Some_0@).unwrap() && root->Ok_0->Some_0@ == response.member_root_public@),
        organization_flow::participant_root(response, user, root) matches Ok((local, raw)) ==>
            ids::parsed(user->Ok_0->Some_0@) == Some(local)
                && external::base64_decoded(root->Ok_0->Some_0@) == Some(raw),
        organization_flow::participant_root(response, user, root) is Err ==>
            organization_flow::participant_root(response, user, root)->Err_0 is AccountRequest,
{
}

/// A failed read of the user comes first, then a missing or unreadable user, then the
/// same of the root; a root that cannot be decoded fails the request.
pub proof fn law_participant_without_settings(
    response: OrganizationSafetyResponse,
    user: Result<Option<String>, ClientError>,
    root: Result<Option<String>, ClientError>,
)
    ensures
        user matches Err(error) ==>
            organization_flow::participant_root(response, user, root) == Err::<(Uuid, Seq<u8>), ClientError>(error),
        user is Ok && (user->Ok_0 is None || ids::parsed(user->Ok_0->Some_0@) is None) ==>
            organization_flow::participant_root(response, user, root) == Err::<(Uuid, Seq<u8>), ClientError>(ClientError::IncompleteAccountState),
        user is Ok
            && user->Ok_0 is Some
            && ids::parsed(user->Ok_0->Some_0@) is Some
            && root is Err ==>
            organization_flow::participant_root(response, user, root) == Err::<(Uuid, Seq<u8>), ClientError>(root->Err_0),
        user is Ok
            && user->Ok_0 is Some
            && ids::parsed(user->Ok_0->Some_0@) is Some
            && root is Ok
            && root->Ok_0 is None ==>
            organization_flow::participant_root(response, user, root) == Err::<(Uuid, Seq<u8>), ClientError>(ClientError::IncompleteAccountState),
        user is Ok
            && user->Ok_0 is Some
            && ids::parsed(user->Ok_0->Some_0@) is Some
            && root is Ok
            && root->Ok_0 is Some
            && external::base64_decoded(root->Ok_0->Some_0@) is None ==>
            organization_flow::participant_root(response, user, root) == Err::<(Uuid, Seq<u8>), ClientError>(ClientError::AccountRequest),
{
}

/// The participant is accepted where the reader makes of the root a root of that very
/// user, and the request fails where it makes of it none or that of another.
pub proof fn law_participant_root_names_the_participant<
    D: Fn(Vec<u8>) -> Option<AccountRootPublicKeys>,
>(
    r: Result<(), ClientError>,
    response: OrganizationSafetyResponse,
    user: Result<Option<String>, ClientError>,
    root: Result<Option<String>, ClientError>,
    decode: D,
)
    requires
        organization_flow::participant_checked(r, response, user, root, decode),
        organization_flow::participant_root(response, user, root) is Ok,
    ensures
        r is Ok ==>
            exists|bytes: Vec<u8>, reply: Option<AccountRootPublicKeys>| bytes@ == organization_flow::participant_root(response, user, root)->Ok_0.1
                && #[trigger] decode.ensures((bytes,), reply)
                && reply is Some
                && reply->Some_0.user_id == organization_flow::participant_root(response, user, root)->Ok_0.0,
        r is Err ==>
            r->Err_0 is AccountRequest
                && exists|bytes: Vec<u8>, reply: Option<AccountRootPublicKeys>| bytes@ == organization_flow::participant_root(response, user, root)->Ok_0.1
                && #[trigger] decode.ensures((bytes,), reply)
                && (reply is None || reply->Some_0.user_id != organization_flow::participant_root(response, user, root)->Ok_0.0),
{
}

/// What keeps the user from taking part is the answer.
pub proof fn law_participant_failure_is_passed_on<
    D: Fn(Vec<u8>) -> Option<AccountRootPublicKeys>,
>(
    r: Result<(), ClientError>,
    response: OrganizationSafetyResponse,
    user: Result<Option<String>, ClientError>,
    root: Result<Option<String>, ClientError>,
    decode: D,
)
    requires
        organization_flow::participant_checked(r, response, user, root, decode),
        organization_flow::participant_root(response, user, root) is Err,
    ensures
        r is Err,
        r->Err_0 == organization_flow::participant_root(response, user, root)->Err_0,
{
}

/// A pin is kept under the tenant and the member that it is about, in this order.
pub proof fn law_pin_is_kept_under_its_pair(tenant_id: Uuid, member_user_id: Uuid)
    ensures
        organization_flow::pin_key(tenant_id, member_user_id) == "organization_trust:"@ + external::uuid_text(tenant_id.value) + seq![':'] + external::uuid_text(member_user_id.value),
{
}

/// A failed read is passed on, nothing stored is no pin, a readable text is the pin
/// whose fields it holds in their order, and any other text fails the request.
pub proof fn law_pin_is_loaded_as_stored(
    setting: Result<Option<String>, ClientError>,
    r: Result<Option<OrganizationTrustPin>, ClientError>,
)
    requires
        organization_flow::pin_loaded(setting, r),
    ensures
        setting matches Err(error) ==> r is Err && r->Err_0 == error,
        setting is Ok && setting->Ok_0 is None ==> r is Ok && r->Ok_0 is None,
        setting is Ok && setting->Ok_0 is Some ==>
            (r is Ok <==> OrganizationTrustPin::readable(text::fields(setting->Ok_0->Some_0@, '|'))),
        setting is Ok && setting->Ok_0 is Some && r is Ok ==>
            r->Ok_0 is Some
                && r->Ok_0->Some_0.stored_as(text::fields(setting->Ok_0->Some_0@, '|')),
        setting is Ok && r is Err ==> r->Err_0 is AccountRequest,
{
}

/// A confirmed pin holds both roots and the number of the response, is confirmed here,
/// holds the first generation, demands none and has seen neither roster.
pub proof fn law_confirming_pins_what_was_compared(
    pin: OrganizationTrustPin,
    response: OrganizationSafetyResponse,
)
    requires
        organization_flow::confirmed_pin_of(pin, response),
    ensures
        pin.owner_root_public@ == response.owner_root_public@,
        pin.member_root_public@ == response.member_root_public@,
        pin.digest@ == response.digest@,
        pin.locally_confirmed,
        pin.minimum_generation == 1,
        pin.required_generation == 0,
        pin.owner_roster_revision == 0,
        pin.member_roster_revision == 0,
        pin.owner_roster_head_hash@ == external::base64_text(Seq::new(32, |i: int| 0u8)),
        pin.member_roster_head_hash@ == external::base64_text(Seq::new(32, |i: int| 0u8)),
{
}

/// A confirmation is for the pair that was compared if and only if both roots and the
/// number are the same.
pub proof fn law_confirmation_answers_the_same_pair(
    current: OrganizationSafetyResponse,
    response: OrganizationSafetyResponse,
)
    ensures
        organization_flow::same_pair(current, response) <==>
            current.owner_root_public@ == response.owner_root_public@
                && current.member_root_public@ == response.member_root_public@
                && current.digest@ == response.digest@,
{
}

/// The roster of a side is held to the root, the revision and the head that the pin
/// holds of that side.
pub proof fn law_roster_is_held_to_its_own_side(
    trust: OrganizationRosterTrust,
    pin: OrganizationTrustPin,
    side: RosterSide,
    user_id: Uuid,
)
    requires
        organization_flow::trust_demands(trust, pin, side, user_id),
    ensures
        trust.user_id == user_id,
        side is Owner ==>
            trust.root_public@ == pin.owner_root_public@
                && trust.minimum_revision == pin.owner_roster_revision
                && external::base64_decoded(pin.owner_roster_head_hash@) == Some(trust.minimum_head_hash@),
        side is Member ==>
            trust.root_public@ == pin.member_root_public@
                && trust.minimum_revision == pin.member_roster_revision
                && external::base64_decoded(pin.member_roster_head_hash@) == Some(trust.minimum_head_hash@),
{
}

/// The user is on the side of the owner if and only if the user is the owner; the root
/// of a side is the root of that side.
pub proof fn law_sides_of_an_organization(organization: AdmittedOrganization)
    ensures
        organization.own_side() is Owner <==>
            organization.safety_spec().owner_user_id == organization.local_user_id_spec(),
        organization.root_of(RosterSide::Owner) == organization.owner_root_spec(),
        organization.root_of(RosterSide::Member) == organization.member_root_spec(),
{
}

/// The head that a pin holds of a side is the hash that its text for that side stands
/// for, if it is the text of a hash.
pub proof fn law_head_of_a_side(pin: OrganizationTrustPin)
    ensures
        organization_flow::side_head(pin, RosterSide::Owner) is Some <==>
            external::base64_signs(pin.owner_roster_head_hash@)
                && external::base64_decoded(pin.owner_roster_head_hash@) is Some
                && external::base64_decoded(pin.owner_roster_head_hash@).unwrap().len() == 32,
        organization_flow::side_head(pin, RosterSide::Owner) matches Some(head) ==>
            external::base64_decoded(pin.owner_roster_head_hash@) == Some(head),
        organization_flow::side_head(pin, RosterSide::Member) is Some <==>
            external::base64_signs(pin.member_roster_head_hash@)
                && external::base64_decoded(pin.member_roster_head_hash@) is Some
                && external::base64_decoded(pin.member_roster_head_hash@).unwrap().len() == 32,
        organization_flow::side_head(pin, RosterSide::Member) matches Some(head) ==>
            external::base64_decoded(pin.member_roster_head_hash@) == Some(head),
{
}

/// An admitted organization has a pin that the user confirmed here, that holds what the
/// service names, of a pair that the service calls verified; the user is its owner or
/// its member; and the root of the member is of the member.
pub proof fn law_admitted_organization_stands(organization: AdmittedOrganization)
    requires
        organization.stands(),
    ensures
        organization.pin_spec().locally_confirmed,
        organization.pin_spec().owner_root_public@ == organization.safety_spec().owner_root_public@,
        organization.pin_spec().member_root_public@ == organization.safety_spec().member_root_public@,
        organization.pin_spec().digest@ == organization.safety_spec().digest@,
        organization.safety_spec().verification_state@ == "verified"@,
        organization.safety_spec().owner_user_id == organization.local_user_id_spec()
            || organization.safety_spec().member_user_id == organization.local_user_id_spec(),
        organization.member_root_spec().user_id == organization.member_user_id_spec(),
{
}

/// Without a safety number nothing is admitted. What is admitted is the tenant and the
/// member that were asked for, with the safety number handed over, for the user of this
/// profile, who is its owner or its member, under a pin that the user confirmed here
/// and that holds what the service names.
pub proof fn law_admission_is_for_what_was_asked<
    D: Fn(Vec<u8>) -> Option<AccountRootPublicKeys>,
>(
    r: Result<AdmittedOrganization, ClientError>,
    tenant_id: Uuid,
    member_user_id: Uuid,
    safety: Option<OrganizationSafetyResponse>,
    settings: AdmissionSettings,
    decode: D,
)
    requires
        organization_flow::organization_admitted(r, tenant_id, member_user_id, safety, settings, decode),
    ensures
        safety is None ==> r is Err && r->Err_0 is AccountRequest,
        r is Ok ==>
            r->Ok_0.tenant_id_spec() == tenant_id
                && r->Ok_0.member_user_id_spec() == member_user_id
                && Some(r->Ok_0.safety_spec()) == safety,
        r is Ok ==>
            settings.user_id is Ok
                && settings.user_id->Ok_0 is Some
                && ids::parsed(settings.user_id->Ok_0->Some_0@) == Some(r->Ok_0.local_user_id_spec()),
        r is Ok ==>
            r->Ok_0.pin_spec().locally_confirmed
                && r->Ok_0.safety_spec().verification_state@ == "verified"@,
        r is Ok ==>
            r->Ok_0.pin_spec().owner_root_public@ == r->Ok_0.safety_spec().owner_root_public@,
        r is Ok ==>
            r->Ok_0.pin_spec().member_root_public@ == r->Ok_0.safety_spec().member_root_public@,
        r is Ok ==> r->Ok_0.pin_spec().digest@ == r->Ok_0.safety_spec().digest@,
        r is Ok ==>
            r->Ok_0.safety_spec().owner_user_id == r->Ok_0.local_user_id_spec()
                || r->Ok_0.safety_spec().member_user_id == r->Ok_0.local_user_id_spec(),
        r is Ok ==> r->Ok_0.member_root_spec().user_id == member_user_id,
{
}

/// The participant is checked before the pin is read: a refusal there is the answer,
/// and otherwise the pin decides.
pub proof fn law_admission_checks_the_participant_first<
    D: Fn(Vec<u8>) -> Option<AccountRootPublicKeys>,
>(
    r: Result<AdmittedOrganization, ClientError>,
    tenant_id: Uuid,
    member_user_id: Uuid,
    safety: Option<OrganizationSafetyResponse>,
    settings: AdmissionSettings,
    decode: D,
)
    requires
        organization_flow::organization_admitted(r, tenant_id, member_user_id, safety, settings, decode),
        safety is Some,
    ensures
        exists|participant: Result<(), ClientError>| #[trigger] organization_flow::participant_checked(participant, safety->Some_0, settings.user_id, settings.root_public, decode)
            && (participant is Err ==> r is Err && r->Err_0 == participant->Err_0)
            && (participant is Ok ==> exists|stored: Result<Option<OrganizationTrustPin>, ClientError>| #[trigger] organization_flow::pin_loaded(settings.pin, stored) && organization_flow::pin_admitted(r, stored, safety->Some_0, member_user_id, decode)),
{
}

/// The admitted organization has the stored pin and the roots that the reader makes of
/// the two texts in it, of the owner and of the member; the first thing that fails is
/// the answer.
pub proof fn law_pin_admits_its_roots<D: Fn(Vec<u8>) -> Option<AccountRootPublicKeys>>(
    r: Result<AdmittedOrganization, ClientError>,
    stored: Result<Option<OrganizationTrustPin>, ClientError>,
    safety: OrganizationSafetyResponse,
    member_user_id: Uuid,
    decode: D,
)
    requires
        organization_flow::pin_admitted(r, stored, safety, member_user_id, decode),
    ensures
        organization_flow::admitted(stored, safety) matches Err(error) ==> r is Err && r->Err_0 == error,
        r is Ok ==>
            stored == Ok::<Option<OrganizationTrustPin>, ClientError>(Some(r->Ok_0.pin_spec())),
        r is Ok ==>
            organization_flow::root_read(decode, r->Ok_0.pin_spec().owner_root_public@, Ok(r->Ok_0.owner_root_spec()))
                && organization_flow::root_read(decode, r->Ok_0.pin_spec().member_root_public@, Ok(r->Ok_0.member_root_spec()))
                && r->Ok_0.member_root_spec().user_id == member_user_id,
        r is Err && organization_flow::admitted(stored, safety) is Ok ==> r->Err_0 is AccountRequest,
{
    if let Ok(pin) = organization_flow::admitted(stored, safety) {
        let owner_root = choose|owner_root: Result<AccountRootPublicKeys, ClientError>| #[trigger]
            organization_flow::root_read(decode, pin.owner_root_public@, owner_root) && organization_flow::roots_admitted(r, pin, owner_root, member_user_id, decode);
        if let Ok(owner) = owner_root {
            let member_root = choose|member_root: Result<AccountRootPublicKeys, ClientError>| #[trigger]
                organization_flow::root_read(decode, pin.member_root_public@, member_root) && organization_flow::member_admitted(r, pin, owner, member_root, member_user_id);
            assert(organization_flow::root_read(decode, pin.member_root_public@, member_root));
        }
    }
}

/// The device found in a roster is of the user and bears the identifier, and none
/// before it does both.
pub proof fn law_device_found_is_the_first_of_the_user(
    devices: Seq<OrganizationDeviceDto>,
    device_id: Uuid,
    user_id: Uuid,
    i: int,
)
    ensures
        organization_flow::device_at(devices, device_id, user_id, i) <==>
            0 <= i < devices.len()
                && devices[i].device_id == device_id
                && devices[i].user_id == user_id
                && (forall|j: int| 0 <= j < i ==> (#[trigger] devices[j]).device_id != device_id || devices[j].user_id != user_id),
{
}

/// What is revoked is the first device of the roster that is of the user and bears the
/// identifier: the statement names it and the hash of its certificate, which has 48
/// bytes, and follows the head of the roster by one.
pub proof fn law_only_the_own_devices_are_revoked(
    r: Result<RevocationPlan, ClientError>,
    organization: AdmittedOrganization,
    roster: Option<DeviceRoster>,
    device_id: Uuid,
    root_keys: Result<(), ClientError>,
    now: Result<i64, ClientError>,
)
    requires
        organization_flow::revocation_planned(r, organization, roster, device_id, root_keys, now),
        r is Ok,
    ensures
        roster is Some,
        root_keys is Ok,
        now is Ok,
        r->Ok_0.organization_spec() == organization,
        r->Ok_0.head_spec() == roster->Some_0.head,
        r->Ok_0.statement_spec().device_id == device_id,
        r->Ok_0.statement_spec().revoked_at_ms == now->Ok_0,
        r->Ok_0.statement_spec().revision == roster->Some_0.head.revision + 1,
        r->Ok_0.statement_spec().previous_head_hash == roster->Some_0.head.head_hash,
        r->Ok_0.statement_spec().certificate_fingerprint@.len() == 48,
        r->Ok_0.side_spec() is Owner <==>
            organization.safety_spec().owner_user_id == organization.local_user_id_spec(),
        exists|i: int| 0 <= i < roster->Some_0.devices@.len()
            && (#[trigger] roster->Some_0.devices@[i]).device_id == device_id
            && roster->Some_0.devices@[i].user_id == organization.local_user_id_spec()
            && external::base64_decoded(roster->Some_0.devices@[i].certificate_fingerprint@) == Some(r->Ok_0.statement_spec().certificate_fingerprint@)
            && (forall|j: int| 0 <= j < i ==> (#[trigger] roster->Some_0.devices@[j]).device_id != device_id || roster->Some_0.devices@[j].user_id != organization.local_user_id_spec()),
{
}

/// Without a roster, or where no device of the user bears the identifier, the request
/// fails; then a failure of the keys is the answer; then a roster that can grow no more
/// fails the request; then a failure of the clock is the answer.
pub proof fn law_revocation_is_refused_in_order(
    r: Result<RevocationPlan, ClientError>,
    organization: AdmittedOrganization,
    roster: Option<DeviceRoster>,
    device_id: Uuid,
    root_keys: Result<(), ClientError>,
    now: Result<i64, ClientError>,
)
    requires
        organization_flow::revocation_planned(r, organization, roster, device_id, root_keys, now),
    ensures
        roster is None ==> r is Err && r->Err_0 is AccountRequest,
        roster is Some
            && (forall|i: int| 0 <= i < roster->Some_0.devices@.len() ==> (#[trigger] roster->Some_0.devices@[i]).device_id != device_id || roster->Some_0.devices@[i].user_id != organization.local_user_id_spec()) ==>
            r is Err
                && r->Err_0 is AccountRequest,
        roster is Some
            && organization_flow::revocable(roster->Some_0.devices@, device_id, organization.local_user_id_spec())
            && root_keys is Err ==>
            r is Err
                && r->Err_0 == root_keys->Err_0,
        roster is Some
            && organization_flow::revocable(roster->Some_0.devices@, device_id, organization.local_user_id_spec())
            && root_keys is Ok
            && roster->Some_0.head.revision == u64::MAX ==>
            r is Err
                && r->Err_0 is AccountRequest,
        roster is Some
            && organization_flow::revocable(roster->Some_0.devices@, device_id, organization.local_user_id_spec())
            && root_keys is Ok
            && roster->Some_0.head.revision < u64::MAX ==>
            (r is Ok <==> now is Ok)
                && (now is Err ==> r->Err_0 == now->Err_0),
{
}

/// The first device of the user that bears the identifier can be revoked if and only if
/// the hash of its certificate decodes to 48 bytes.
pub proof fn law_device_with_a_certificate_hash_is_revocable(
    devices: Seq<OrganizationDeviceDto>,
    device_id: Uuid,
    user_id: Uuid,
    i: int,
)
    requires
        organization_flow::device_at(devices, device_id, user_id, i),
    ensures
        organization_flow::revocable(devices, device_id, user_id) <==>
            external::base64_decoded(devices[i].certificate_fingerprint@) is Some
                && external::base64_decoded(devices[i].certificate_fingerprint@).unwrap().len() == 48,
{
    if organization_flow::revocable(devices, device_id, user_id) {
        let k = choose|k: int| #[trigger] organization_flow::device_at(devices, device_id, user_id, k) && external::base64_decoded(devices[k].certificate_fingerprint@) is Some && external::base64_decoded(devices[k].certificate_fingerprint@).unwrap().len() == 48;
        assert(k == i) by {
            if k < i {
                assert(devices[k].device_id == device_id && devices[k].user_id == user_id);
            }
            if i < k {
                assert(devices[i].device_id == device_id && devices[i].user_id == user_id);
            }
        }
    }
}

/// A revocation that the service accepted stores a pin that demands the generation
/// after the one that it holds, has seen the new head on the side of the user and is
/// otherwise as it was; without acceptance, without the hash of the statement or after
/// the last generation nothing is stored.
pub proof fn law_recorded_revocation_demands_the_next_generation(
    r: Result<OrganizationTrustPin, ClientError>,
    plan: RevocationPlan,
    accepted: bool,
    statement_hash: Option<[u8; 32]>,
)
    requires
        organization_flow::revocation_recorded(r, plan, accepted, statement_hash),
    ensures
        r is Ok <==>
            accepted
                && statement_hash is Some
                && plan.organization_spec().pin_spec().minimum_generation < u64::MAX,
        r is Err ==> r->Err_0 is AccountRequest,
        r is Ok ==>
            r->Ok_0.required_generation == plan.organization_spec().pin_spec().minimum_generation + 1
                && r->Ok_0.minimum_generation == plan.organization_spec().pin_spec().minimum_generation,
        r is Ok ==>
            r->Ok_0.owner_root_public == plan.organization_spec().pin_spec().owner_root_public,
        r is Ok ==>
            r->Ok_0.member_root_public == plan.organization_spec().pin_spec().member_root_public,
        r is Ok ==> r->Ok_0.digest == plan.organization_spec().pin_spec().digest,
        r is Ok ==>
            r->Ok_0.locally_confirmed == plan.organization_spec().pin_spec().locally_confirmed,
        r is Ok && plan.side_spec() is Owner ==>
            r->Ok_0.owner_roster_revision == plan.statement_spec().revision
                && r->Ok_0.owner_roster_head_hash@ == external::base64_text(statement_hash->Some_0@)
                && r->Ok_0.member_roster_revision == plan.organization_spec().pin_spec().member_roster_revision
                && r->Ok_0.member_roster_head_hash == plan.organization_spec().pin_spec().member_roster_head_hash,
        r is Ok && plan.side_spec() is Member ==>
            r->Ok_0.member_roster_revision == plan.statement_spec().revision
                && r->Ok_0.member_roster_head_hash@ == external::base64_text(statement_hash->Some_0@)
                && r->Ok_0.owner_roster_revision == plan.organization_spec().pin_spec().owner_roster_revision
                && r->Ok_0.owner_roster_head_hash == plan.organization_spec().pin_spec().owner_roster_head_hash,
{
}

/// A pin is written as its fields in their order, with a bar between them: the roots of
/// the owner and of the member, the number, whether the user confirmed it, both
/// generations, and the revision and the head of each roster.
pub proof fn law_pin_is_written_in_order(pin: OrganizationTrustPin)
    ensures
        pin.stored_fields().len() == 10,
        pin.stored_fields()[0] == pin.owner_root_public@,
        pin.stored_fields()[1] == pin.member_root_public@,
        pin.stored_fields()[2] == pin.digest@,
        pin.stored_fields()[3] == if pin.locally_confirmed { seq!['1'] } else { seq!['0'] },
        pin.stored_fields()[4] == text::decimal(pin.minimum_generation as nat),
        pin.stored_fields()[5] == text::decimal(pin.required_generation as nat),
        pin.stored_fields()[6] == text::decimal(pin.owner_roster_revision as nat),
        pin.stored_fields()[7] == pin.owner_roster_head_hash@,
        pin.stored_fields()[8] == text::decimal(pin.member_roster_revision as nat),
        pin.stored_fields()[9] == pin.member_roster_head_hash@,
        pin.written() == text::joined(pin.stored_fields(), '|'),
{
}

/// A pin that is read holds the fields of the text in their order.
pub proof fn law_pin_is_read_in_order(pin: OrganizationTrustPin, f: Seq<Seq<char>>)
    requires
        pin.stored_as(f),
    ensures
        f.len() == 10,
        f[0] == pin.owner_root_public@,
        f[1] == pin.member_root_public@,
        f[2] == pin.digest@,
        f[3] == if pin.locally_confirmed { seq!['1'] } else { seq!['0'] },
        text::unsigned_value(f[4], u64::MAX as nat) == Some(pin.minimum_generation as nat),
        text::unsigned_value(f[5], u64::MAX as nat) == Some(pin.required_generation as nat),
        text::unsigned_value(f[6], u64::MAX as nat) == Some(pin.owner_roster_revision as nat),
        f[7] == pin.owner_roster_head_hash@,
        text::unsigned_value(f[8], u64::MAX as nat) == Some(pin.member_roster_revision as nat),
        f[9] == pin.member_roster_head_hash@,
{
}

/// A pin is valid if and only if it names both roots and a number, holds a generation,
/// demands none or a later one, and both heads are texts of hashes.
pub proof fn law_valid_pin(pin: OrganizationTrustPin)
    ensures
        pin.valid() <==>
            pin.owner_root_public@.len() > 0
                && pin.member_root_public@.len() > 0
                && pin.digest@.len() > 0
                && pin.minimum_generation > 0
                && (pin.required_generation == 0 || pin.required_generation > pin.minimum_generation)
                && external::base64_signs(pin.owner_roster_head_hash@)
                && external::base64_decoded(pin.owner_roster_head_hash@) is Some
                && external::base64_decoded(pin.owner_roster_head_hash@).unwrap().len() == 32
                && external::base64_signs(pin.member_roster_head_hash@)
                && external::base64_decoded(pin.member_roster_head_hash@) is Some
                && external::base64_decoded(pin.member_roster_head_hash@).unwrap().len() == 32,
{
}

/// The fields of a text are readable if and only if some valid pin is stored as them.
pub proof fn law_only_valid_pins_are_readable(pin: OrganizationTrustPin, f: Seq<Seq<char>>)
    requires
        pin.stored_as(f),
    ensures
        OrganizationTrustPin::readable(f) <==> pin.valid(),
{
}

/// Ten fields are readable if and only if the roots and the number are not empty, the
/// flag is one of two signs, the four numbers fit, the first generation is not zero,
/// the second is zero or larger, and both heads are texts of hashes.
pub proof fn law_readable_pin_can_be_built(f: Seq<Seq<char>>)
    ensures
        OrganizationTrustPin::readable(f) <==>
            f.len() == 10
                && f[0].len() > 0
                && f[1].len() > 0
                && f[2].len() > 0
                && (f[3] == seq!['0'] || f[3] == seq!['1'])
                && text::unsigned_value(f[4], u64::MAX as nat) is Some
                && text::unsigned_value(f[5], u64::MAX as nat) is Some
                && text::unsigned_value(f[6], u64::MAX as nat) is Some
                && text::unsigned_value(f[8], u64::MAX as nat) is Some
                && text::unsigned_value(f[4], u64::MAX as nat).unwrap() > 0
                && (text::unsigned_value(f[5], u64::MAX as nat).unwrap() == 0 || text::unsigned_value(f[5], u64::MAX as nat).unwrap() > text::unsigned_value(f[4], u64::MAX as nat).unwrap())
                && external::base64_signs(f[7])
                && external::base64_decoded(f[7]) is Some
                && external::base64_decoded(f[7]).unwrap().len() == 32
                && external::base64_signs(f[9])
                && external::base64_decoded(f[9]) is Some
                && external::base64_decoded(f[9]).unwrap().len() == 32,
{
}

/// The head of a roster that nobody has seen is 32 zero bytes.
pub proof fn law_first_head_is_zero(i: int)
    requires
        0 <= i < 32,
    ensures
        organization_trust::zero_head().len() == 32,
        organization_trust::zero_head()[i] == 0,
{
}

} // verus!
