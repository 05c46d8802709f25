//! What a client decides while it confirms an organization member, follows the device
//! rosters, accepts a key generation and revokes a device. Requests and stored
//! settings come in as values; the pin to store comes out.
//!
//! The order is in the types: only an organization whose pin stands is admitted, only an
//! admitted organization gives a plan, and only a plan gives a pin to store.
use vstd::prelude::*;
use vstd::string::*;
use crate::error::ClientError;
use crate::external;
use crate::ids;
use crate::ids::Uuid;
use crate::model::OrganizationSafetyState;
use crate::organization_trust;
use crate::organization_trust::OrganizationTrustPin;
use crate::protocol::organization::{OrganizationDeviceDto, OrganizationSafetyResponse};
use crate::text::{bytes_eq, str_eq};

verus! {

/// The public keys of an account root: whose they are, and their encoding.
#[derive(Clone, Debug, PartialEq, Eq)]
pub struct AccountRootPublicKeys {
    pub user_id: Uuid,
    pub encoded: Vec<u8>,
}

/// How far a roster was verified: its revision and the hash of its newest statement.
#[derive(Clone, Copy)]
pub struct RosterHead {
    pub revision: u64,
    pub head_hash: [u8; 32],
}

/// What a roster must at least be when it is asked for.
pub struct OrganizationRosterTrust {
    pub user_id: Uuid,
    pub root_public: String,
    pub minimum_revision: u64,
    pub minimum_head_hash: [u8; 32],
}

/// The verification state of a confirmed pair.
pub open spec fn is_verified(response: OrganizationSafetyResponse) -> bool {
    response.verification_state@ == "verified"@
}

fn says_verified(response: &OrganizationSafetyResponse) -> (r: bool)
    ensures
        r == is_verified(*response),
{
    str_eq(response.verification_state.as_str(), "verified")
}

/// Reads an identifier out of account data.
pub fn parse_uuid(value: &str) -> (r: Result<Uuid, ClientError>)
    ensures
        match ids::parsed(value@) {
            Some(id) => r == Ok::<Uuid, ClientError>(id),
            None => r == Err::<Uuid, _>(ClientError::IncompleteAccountState),
        },
{
    match Uuid::parse(value) {
        Some(id) => Ok(id),
        None => Err(ClientError::IncompleteAccountState),
    }
}

/// What the frontend is shown: the server's word only where this profile confirmed
/// the pair itself.
pub open spec fn safety_state_shows(
    state: OrganizationSafetyState,
    response: OrganizationSafetyResponse,
    locally_verified: bool,
) -> bool {
    &&& state.owner_user_id@ == response.owner_user_id.text_spec()
    &&& state.member_user_id@ == response.member_user_id.text_spec()
    &&& state.digest == response.digest
    &&& state.decimal == response.decimal
    &&& state.qr_payload == response.qr_payload
    &&& state.verification_state@ == (if locally_verified {
        response.verification_state@
    } else {
        "unverified"@
    })
    &&& state.owner_confirmed == response.owner_confirmed
    &&& state.member_confirmed == response.member_confirmed
}

pub fn organization_safety_state(
    response: OrganizationSafetyResponse,
    locally_verified: bool,
) -> (r: OrganizationSafetyState)
    ensures
        safety_state_shows(r, response, locally_verified),
{
    OrganizationSafetyState {
        owner_user_id: response.owner_user_id.text(),
        member_user_id: response.member_user_id.text(),
        digest: response.digest,
        decimal: response.decimal,
        qr_payload: response.qr_payload,
        verification_state: if locally_verified {
            response.verification_state
        } else {
            "unverified".to_owned()
        },
        owner_confirmed: response.owner_confirmed,
        member_confirmed: response.member_confirmed,
    }
}

/// Reads a base64 text of thirty-two bytes.
pub fn decode_trust_hash(value: &str) -> (r: Result<[u8; 32], ClientError>)
    ensures
        if organization_trust::is_hash_text(value@) {
            r is Ok && Some(r->Ok_0@) == external::base64_decoded(value@)
        } else {
            r is Err && r->Err_0 == ClientError::AccountRequest
        },
{
    match external::base64_decode(value) {
        None => Err(ClientError::AccountRequest),
        Some(bytes) => {
            if bytes.len() != 32 {
                return Err(ClientError::AccountRequest);
            }
            let mut out: [u8; 32] = [0; 32];
            let mut i: usize = 0;
            while i < 32
                invariant
                    i <= 32,
                    bytes@.len() == 32,
                    out@.len() == 32,
                    forall|j: int| 0 <= j < i ==> out@[j] == bytes@[j],
                decreases 32 - i,
            {
                out[i] = bytes[i];
                i = i + 1;
            }
            proof {
                assert(out@ =~= bytes@);
            }
            Ok(out)
        },
    }
}

/// What reading the public keys of an account root from their base64 text comes to.
pub open spec fn root_read<D: Fn(Vec<u8>) -> Option<AccountRootPublicKeys>>(
    decode: D,
    value: Seq<char>,
    r: Result<AccountRootPublicKeys, ClientError>,
) -> bool {
    match external::base64_decoded(value) {
        None => r is Err && r->Err_0 == ClientError::AccountRequest,
        Some(raw) => exists|bytes: Vec<u8>, reply: Option<AccountRootPublicKeys>|
            {
                &&& bytes@ == raw
                &&& #[trigger] decode.ensures((bytes,), reply)
                &&& match reply {
                    Some(root) => r is Ok && r->Ok_0 == root,
                    None => r is Err && r->Err_0 == ClientError::AccountRequest,
                }
            },
    }
}

/// Reads the public keys of an account root from their base64 text; `decode` reads the
/// bytes.
pub fn decode_trust_root<D: Fn(Vec<u8>) -> Option<AccountRootPublicKeys>>(
    value: &str,
    decode: &D,
) -> (r: Result<AccountRootPublicKeys, ClientError>)
    requires
        forall|bytes: Vec<u8>| #[trigger] decode.requires((bytes,)),
    ensures
        root_read(*decode, value@, r),
{
    match external::base64_decode(value) {
        None => Err(ClientError::AccountRequest),
        Some(bytes) => {
            let reply = decode(bytes);
            proof {
                assert(decode.ensures((bytes,), reply));
            }
            match reply {
                Some(root) => Ok(root),
                None => Err(ClientError::AccountRequest),
            }
        },
    }
}

/// A setting that account data cannot do without.
pub open spec fn needed_setting(value: Result<Option<String>, ClientError>) -> Result<
    Seq<char>,
    ClientError,
> {
    match value {
        Err(error) => Err(error),
        Ok(None) => Err(ClientError::IncompleteAccountState),
        Ok(Some(held)) => Ok(held@),
    }
}

/// Takes a setting that account data cannot do without.
pub fn need_setting(value: Result<Option<String>, ClientError>) -> (r: Result<String, ClientError>)
    ensures
        match needed_setting(value) {
            Ok(held) => r is Ok && r->Ok_0@ == held,
            Err(error) => r is Err && r->Err_0 == error,
        },
{
    match value {
        Err(error) => Err(error),
        Ok(None) => Err(ClientError::IncompleteAccountState),
        Ok(Some(held)) => Ok(held),
    }
}

/// The identifier in a setting that account data cannot do without.
pub open spec fn needed_id(value: Result<Option<String>, ClientError>) -> Result<
    Uuid,
    ClientError,
> {
    match needed_setting(value) {
        Err(error) => Err(error),
        Ok(held) => match ids::parsed(held) {
            Some(id) => Ok(id),
            None => Err(ClientError::IncompleteAccountState),
        },
    }
}

/// Whose root this profile must be in a response, and the root's encoding as this
/// profile stored it.
pub open spec fn participant_root(
    response: OrganizationSafetyResponse,
    user_setting: Result<Option<String>, ClientError>,
    root_setting: Result<Option<String>, ClientError>,
) -> Result<(Uuid, Seq<u8>), ClientError> {
    match needed_id(user_setting) {
        Err(error) => Err(error),
        Ok(local) => match needed_setting(root_setting) {
            Err(error) => Err(error),
            Ok(root) => if response.owner_user_id != local && response.member_user_id != local {
                Err(ClientError::AccountRequest)
            } else if root != (if response.owner_user_id == local {
                response.owner_root_public@
            } else {
                response.member_root_public@
            }) {
                Err(ClientError::AccountRequest)
            } else {
                match external::base64_decoded(root) {
                    None => Err(ClientError::AccountRequest),
                    Some(raw) => Ok((local, raw)),
                }
            },
        },
    }
}

/// What checking a response against this profile's own account and root comes to.
pub open spec fn participant_checked<D: Fn(Vec<u8>) -> Option<AccountRootPublicKeys>>(
    r: Result<(), ClientError>,
    response: OrganizationSafetyResponse,
    user_setting: Result<Option<String>, ClientError>,
    root_setting: Result<Option<String>, ClientError>,
    decode: D,
) -> bool {
    match participant_root(response, user_setting, root_setting) {
        Err(error) => r == Err::<(), _>(error),
        Ok((local, raw)) => exists|bytes: Vec<u8>, reply: Option<AccountRootPublicKeys>|
            {
                &&& bytes@ == raw
                &&& #[trigger] decode.ensures((bytes,), reply)
                &&& r == (if reply is Some && reply.unwrap().user_id == local {
                    Ok::<(), ClientError>(())
                } else {
                    Err(ClientError::AccountRequest)
                })
            },
    }
}

/// Checks that the response speaks of this profile's own account and root, and gives the
/// account.
fn local_participant<D: Fn(Vec<u8>) -> Option<AccountRootPublicKeys>>(
    response: &OrganizationSafetyResponse,
    user_setting: Result<Option<String>, ClientError>,
    root_setting: Result<Option<String>, ClientError>,
    decode: &D,
) -> (r: Result<Uuid, ClientError>)
    requires
        forall|bytes: Vec<u8>| #[trigger] decode.requires((bytes,)),
    ensures
        participant_checked(
            match r {
                Ok(_) => Ok::<(), ClientError>(()),
                Err(error) => Err(error),
            },
            *response,
            user_setting,
            root_setting,
            *decode,
        ),
        r is Ok ==> r == needed_id(user_setting) && (response.owner_user_id == r->Ok_0
            || response.member_user_id == r->Ok_0),
{
    let local_user_id: Uuid = match need_setting(user_setting) {
        Err(error) => {
            return Err(error);
        },
        Ok(held) => match parse_uuid(held.as_str()) {
            Err(error) => {
                return Err(error);
            },
            Ok(id) => id,
        },
    };
    let local_root = match need_setting(root_setting) {
        Err(error) => {
            return Err(error);
        },
        Ok(held) => held,
    };
    let expected_local_root: &String = if response.owner_user_id == local_user_id {
        &response.owner_root_public
    } else if response.member_user_id == local_user_id {
        &response.member_root_public
    } else {
        return Err(ClientError::AccountRequest);
    };
    if !str_eq(expected_local_root.as_str(), local_root.as_str()) {
        return Err(ClientError::AccountRequest);
    }
    match decode_trust_root(local_root.as_str(), decode) {
        Err(error) => Err(error),
        Ok(root) => if root.user_id != local_user_id {
            Err(ClientError::AccountRequest)
        } else {
            Ok(local_user_id)
        },
    }
}

/// Checks that the response speaks of this profile's own account and root.
pub fn verify_local_safety_participant<D: Fn(Vec<u8>) -> Option<AccountRootPublicKeys>>(
    response: &OrganizationSafetyResponse,
    user_setting: Result<Option<String>, ClientError>,
    root_setting: Result<Option<String>, ClientError>,
    decode: &D,
) -> (r: Result<(), ClientError>)
    requires
        forall|bytes: Vec<u8>| #[trigger] decode.requires((bytes,)),
    ensures
        participant_checked(r, *response, user_setting, root_setting, *decode),
{
    match local_participant(response, user_setting, root_setting, decode) {
        Err(error) => Err(error),
        Ok(_) => Ok(()),
    }
}

/// The setting under which a pin is stored.
pub open spec fn pin_key(tenant_id: Uuid, member_user_id: Uuid) -> Seq<char> {
    "organization_trust:"@ + tenant_id.text_spec() + seq![':'] + member_user_id.text_spec()
}

pub fn organization_trust_pin_key(tenant_id: Uuid, member_user_id: Uuid) -> (r: String)
    ensures
        r@ == pin_key(tenant_id, member_user_id),
{
    let mut key = "organization_trust:".to_owned();
    let tenant = tenant_id.text();
    key.append(tenant.as_str());
    key.push(':');
    let member = member_user_id.text();
    key.append(member.as_str());
    proof {
        assert(key@ =~= pin_key(tenant_id, member_user_id));
    }
    key
}

/// What a stored setting says of a pin.
pub open spec fn pin_loaded(
    setting: Result<Option<String>, ClientError>,
    r: Result<Option<OrganizationTrustPin>, ClientError>,
) -> bool {
    match setting {
        Err(error) => r is Err && r->Err_0 == error,
        Ok(None) => r is Ok && r->Ok_0 is None,
        Ok(Some(value)) => if OrganizationTrustPin::readable(crate::text::fields(value@, '|')) {
            &&& r is Ok
            &&& r->Ok_0 is Some
            &&& r->Ok_0.unwrap().valid()
            &&& r->Ok_0.unwrap().stored_as(crate::text::fields(value@, '|'))
        } else {
            r is Err && r->Err_0 == ClientError::AccountRequest
        },
    }
}

pub fn load_organization_trust_pin(setting: Result<Option<String>, ClientError>) -> (r: Result<
    Option<OrganizationTrustPin>,
    ClientError,
>)
    ensures
        pin_loaded(setting, r),
{
    match setting {
        Err(error) => Err(error),
        Ok(None) => Ok(None),
        Ok(Some(value)) => match OrganizationTrustPin::decode(value.as_str()) {
            Some(pin) => Ok(Some(pin)),
            None => Err(ClientError::AccountRequest),
        },
    }
}

/// The setting that keeps a pin: its key and its value.
pub fn store_organization_trust_pin(
    tenant_id: Uuid,
    member_user_id: Uuid,
    pin: &OrganizationTrustPin,
) -> (r: (String, String))
    ensures
        r.0@ == pin_key(tenant_id, member_user_id),
        r.1@ == pin.written(),
{
    (organization_trust_pin_key(tenant_id, member_user_id), pin.encode())
}

/// A pin that this profile confirmed and that the server's answer still matches.
pub open spec fn pin_stands(
    pin: OrganizationTrustPin,
    response: OrganizationSafetyResponse,
) -> bool {
    pin.locally_confirmed && pin.matches_spec(response) && is_verified(response)
}

fn check_pin_stands(
    pin: &OrganizationTrustPin,
    response: &OrganizationSafetyResponse,
) -> (r: bool)
    ensures
        r == pin_stands(*pin, *response),
{
    pin.locally_confirmed && pin.matches(response) && says_verified(response)
}

/// Answers the request for a safety number once the response is known to speak of
/// this profile.
pub fn organization_safety_number(
    response: OrganizationSafetyResponse,
    participant: Result<(), ClientError>,
    stored_pin: Result<Option<OrganizationTrustPin>, ClientError>,
) -> (r: Result<OrganizationSafetyState, ClientError>)
    ensures
        match participant {
            Err(error) => r is Err && r->Err_0 == error,
            Ok(()) => match stored_pin {
                Err(error) => r is Err && r->Err_0 == error,
                Ok(pin) => r is Ok && safety_state_shows(
                    r->Ok_0,
                    response,
                    pin is Some && pin_stands(pin.unwrap(), response),
                ),
            },
        },
{
    match participant {
        Err(error) => {
            return Err(error);
        },
        Ok(()) => {},
    }
    let locally_verified: bool = match stored_pin {
        Err(error) => {
            return Err(error);
        },
        Ok(None) => false,
        Ok(Some(pin)) => check_pin_stands(&pin, &response),
    };
    Ok(organization_safety_state(response, locally_verified))
}

/// A safety number whose digest the user compared and found to be the current one.
pub struct ComparedSafetyNumber {
    current: OrganizationSafetyResponse,
    digest: String,
}

impl ComparedSafetyNumber {
    pub closed spec fn current_spec(self) -> OrganizationSafetyResponse {
        self.current
    }

    pub closed spec fn digest_spec(self) -> String {
        self.digest
    }

    #[verifier::type_invariant]
    spec fn is_current(self) -> bool {
        self.current.digest@ == self.digest@
    }

    /// The digest that the server is told.
    pub fn digest(&self) -> (r: &str)
        ensures
            r@ == self.digest_spec()@,
            r@ == self.current_spec().digest@,
    {
        proof {
            use_type_invariant(self);
        }
        self.digest.as_str()
    }
}

/// Takes the digest that the user compared, where it is the current one. The
/// confirmation is sent only with what comes out of here.
pub fn check_confirmed_digest(
    current: OrganizationSafetyResponse,
    participant: Result<(), ClientError>,
    digest: String,
) -> (r: Result<ComparedSafetyNumber, ClientError>)
    ensures
        match participant {
            Err(error) => r is Err && r->Err_0 == error,
            Ok(()) => if current.digest@ == digest@ {
                r is Ok && r->Ok_0.current_spec() == current && r->Ok_0.digest_spec() == digest
            } else {
                r is Err && r->Err_0 == ClientError::AccountRequest
            },
        },
{
    match participant {
        Err(error) => {
            return Err(error);
        },
        Ok(()) => {},
    }
    if str_eq(current.digest.as_str(), digest.as_str()) {
        Ok(ComparedSafetyNumber { current, digest })
    } else {
        Err(ClientError::AccountRequest)
    }
}

/// A pin made by confirming a response.
pub open spec fn confirmed_pin_of(
    pin: OrganizationTrustPin,
    response: OrganizationSafetyResponse,
) -> bool {
    &&& pin.matches_spec(response)
    &&& pin.locally_confirmed
    &&& pin.minimum_generation == 1
    &&& pin.required_generation == 0
    &&& pin.owner_roster_revision == 0
    &&& pin.member_roster_revision == 0
    &&& pin.owner_roster_head_hash@ == external::base64_text(organization_trust::zero_head())
    &&& pin.member_roster_head_hash@ == external::base64_text(organization_trust::zero_head())
    &&& organization_trust::is_hash_text(pin.owner_roster_head_hash@)
    &&& organization_trust::is_hash_text(pin.member_roster_head_hash@)
}

pub open spec fn same_pair(
    current: OrganizationSafetyResponse,
    response: OrganizationSafetyResponse,
) -> bool {
    &&& current.owner_root_public@ == response.owner_root_public@
    &&& current.member_root_public@ == response.member_root_public@
    &&& current.digest@ == response.digest@
}

/// Confirms a safety number: the server must answer the confirmation with the pair
/// that was shown. Gives the pin to store and what to show.
pub fn confirm_organization_safety_number(
    compared: &ComparedSafetyNumber,
    response: OrganizationSafetyResponse,
    participant: Result<(), ClientError>,
) -> (r: Result<(OrganizationTrustPin, OrganizationSafetyState), ClientError>)
    ensures
        match participant {
            Err(error) => r is Err && r->Err_0 == error,
            Ok(()) => if !same_pair(compared.current_spec(), response) {
                r is Err && r->Err_0 == ClientError::AccountRequest
            } else {
                &&& r is Ok
                &&& confirmed_pin_of(r->Ok_0.0, response)
                &&& safety_state_shows(r->Ok_0.1, response, is_verified(response))
                &&& r->Ok_0.0.digest@ == compared.digest_spec()@
            },
        },
{
    match participant {
        Err(error) => {
            return Err(error);
        },
        Ok(()) => {},
    }
    proof {
        use_type_invariant(compared);
    }
    let shown = OrganizationTrustPin::candidate(&compared.current);
    if !shown.matches(&response) {
        return Err(ClientError::AccountRequest);
    }
    let mut pin = OrganizationTrustPin::candidate(&response);
    pin.locally_confirmed = true;
    let locally_verified: bool = says_verified(&response);
    Ok((pin, organization_safety_state(response, locally_verified)))
}

/// The pin that lets an organization operation go on.
pub open spec fn admitted(
    stored_pin: Result<Option<OrganizationTrustPin>, ClientError>,
    safety: OrganizationSafetyResponse,
) -> Result<OrganizationTrustPin, ClientError> {
    match stored_pin {
        Err(error) => Err(error),
        Ok(None) => Err(ClientError::AccountRequest),
        Ok(Some(pin)) => if pin_stands(pin, safety) {
            Ok(pin)
        } else {
            Err(ClientError::AccountRequest)
        },
    }
}

/// Takes the stored pin where it stands.
pub fn admit_pin(
    stored_pin: Result<Option<OrganizationTrustPin>, ClientError>,
    safety: &OrganizationSafetyResponse,
) -> (r: Result<OrganizationTrustPin, ClientError>)
    ensures
        r == admitted(stored_pin, *safety),
{
    match stored_pin {
        Err(error) => Err(error),
        Ok(None) => Err(ClientError::AccountRequest),
        Ok(Some(pin)) => if check_pin_stands(&pin, safety) {
            Ok(pin)
        } else {
            Err(ClientError::AccountRequest)
        },
    }
}

/// Which of the two accounts a roster belongs to.
#[derive(Clone, Copy, Debug, PartialEq, Eq, Structural)]
pub enum RosterSide {
    Owner,
    Member,
}

/// What the pin demands of a roster.
pub open spec fn trust_demands(
    trust: OrganizationRosterTrust,
    pin: OrganizationTrustPin,
    side: RosterSide,
    user_id: Uuid,
) -> bool {
    &&& trust.user_id == user_id
    &&& match side {
        RosterSide::Owner => {
            &&& trust.root_public@ == pin.owner_root_public@
            &&& trust.minimum_revision == pin.owner_roster_revision
            &&& Some(trust.minimum_head_hash@) == external::base64_decoded(
                pin.owner_roster_head_hash@,
            )
        },
        RosterSide::Member => {
            &&& trust.root_public@ == pin.member_root_public@
            &&& trust.minimum_revision == pin.member_roster_revision
            &&& Some(trust.minimum_head_hash@) == external::base64_decoded(
                pin.member_roster_head_hash@,
            )
        },
    }
}

/// An organization that an operation may go on with: the server's answer speaks of this
/// profile, the stored pin stands for it, and the pinned roots were read.
pub struct AdmittedOrganization {
    tenant_id: Uuid,
    member_user_id: Uuid,
    local_user_id: Uuid,
    safety: OrganizationSafetyResponse,
    pin: OrganizationTrustPin,
    owner_root: AccountRootPublicKeys,
    member_root: AccountRootPublicKeys,
}

impl AdmittedOrganization {
    pub closed spec fn tenant_id_spec(self) -> Uuid {
        self.tenant_id
    }

    pub closed spec fn member_user_id_spec(self) -> Uuid {
        self.member_user_id
    }

    /// The account of this profile, which the server's answer was checked against.
    pub closed spec fn local_user_id_spec(self) -> Uuid {
        self.local_user_id
    }

    pub closed spec fn safety_spec(self) -> OrganizationSafetyResponse {
        self.safety
    }

    pub closed spec fn pin_spec(self) -> OrganizationTrustPin {
        self.pin
    }

    pub closed spec fn owner_root_spec(self) -> AccountRootPublicKeys {
        self.owner_root
    }

    pub closed spec fn member_root_spec(self) -> AccountRootPublicKeys {
        self.member_root
    }

    /// The pin stands for the server's answer, the answer speaks of this profile's account,
    /// and the member's root belongs to the member that was asked for.
    pub open spec fn stands(self) -> bool {
        &&& pin_stands(self.pin_spec(), self.safety_spec())
        &&& self.safety_spec().owner_user_id == self.local_user_id_spec()
            || self.safety_spec().member_user_id == self.local_user_id_spec()
        &&& self.member_root_spec().user_id == self.member_user_id_spec()
    }

    #[verifier::type_invariant]
    spec fn always_stands(self) -> bool {
        self.stands()
    }

    /// What this organization's pin demands of a roster that is asked for.
    pub fn roster_trust(&self, side: RosterSide) -> (r: Result<
        OrganizationRosterTrust,
        ClientError,
    >)
        ensures
            self.stands(),
            match side_head(self.pin_spec(), side) {
                Some(_) => r is Ok && trust_demands(
                    r->Ok_0,
                    self.pin_spec(),
                    side,
                    self.root_of(side).user_id,
                ),
                None => r is Err && r->Err_0 == ClientError::AccountRequest,
            },
    {
        proof {
            use_type_invariant(self);
        }
        match side {
            RosterSide::Owner => match decode_trust_hash(self.pin.owner_roster_head_hash.as_str()) {
                Err(error) => Err(error),
                Ok(head) => Ok(
                    OrganizationRosterTrust {
                        user_id: self.owner_root.user_id,
                        root_public: self.pin.owner_root_public.clone(),
                        minimum_revision: self.pin.owner_roster_revision,
                        minimum_head_hash: head,
                    },
                ),
            },
            RosterSide::Member => match decode_trust_hash(
                self.pin.member_roster_head_hash.as_str(),
            ) {
                Err(error) => Err(error),
                Ok(head) => Ok(
                    OrganizationRosterTrust {
                        user_id: self.member_root.user_id,
                        root_public: self.pin.member_root_public.clone(),
                        minimum_revision: self.pin.member_roster_revision,
                        minimum_head_hash: head,
                    },
                ),
            },
        }
    }

    /// The root that a roster must be signed with.
    pub open spec fn root_of(self, side: RosterSide) -> AccountRootPublicKeys {
        match side {
            RosterSide::Owner => self.owner_root_spec(),
            RosterSide::Member => self.member_root_spec(),
        }
    }

    /// Whose devices this profile may revoke: its own account's.
    pub fn revocation_side(&self) -> (r: RosterSide)
        ensures
            self.stands(),
            r == self.own_side(),
    {
        proof {
            use_type_invariant(self);
        }
        if self.safety.owner_user_id == self.local_user_id {
            RosterSide::Owner
        } else {
            RosterSide::Member
        }
    }

    /// Which roster holds the devices of this profile's account.
    pub open spec fn own_side(self) -> RosterSide {
        if self.safety_spec().owner_user_id == self.local_user_id_spec() {
            RosterSide::Owner
        } else {
            RosterSide::Member
        }
    }

    pub fn local_user_id(&self) -> (r: Uuid)
        ensures
            r == self.local_user_id_spec(),
    {
        self.local_user_id
    }

    pub fn pin(&self) -> (r: &OrganizationTrustPin)
        ensures
            *r == self.pin_spec(),
    {
        &self.pin
    }

    pub fn owner_root(&self) -> (r: &AccountRootPublicKeys)
        ensures
            *r == self.owner_root_spec(),
    {
        &self.owner_root
    }

    pub fn member_root(&self) -> (r: &AccountRootPublicKeys)
        ensures
            *r == self.member_root_spec(),
    {
        &self.member_root
    }
}

/// The head of a roster that a pin has seen, where it can be read.
pub open spec fn side_head(pin: OrganizationTrustPin, side: RosterSide) -> Option<Seq<u8>> {
    let text = match side {
        RosterSide::Owner => pin.owner_roster_head_hash@,
        RosterSide::Member => pin.member_roster_head_hash@,
    };
    if organization_trust::is_hash_text(text) {
        external::base64_decoded(text)
    } else {
        None
    }
}

/// What the member's root comes to, next to a pin and the owner's root.
pub open spec fn member_admitted(
    r: Result<AdmittedOrganization, ClientError>,
    pin: OrganizationTrustPin,
    owner_root: AccountRootPublicKeys,
    member_root: Result<AccountRootPublicKeys, ClientError>,
    member_user_id: Uuid,
) -> bool {
    match member_root {
        Err(error) => r is Err && r->Err_0 == error,
        Ok(root) => if root.user_id != member_user_id {
            r is Err && r->Err_0 == ClientError::AccountRequest
        } else {
            &&& r is Ok
            &&& r->Ok_0.pin_spec() == pin
            &&& r->Ok_0.owner_root_spec() == owner_root
            &&& r->Ok_0.member_root_spec() == root
        },
    }
}

/// What the roots of a pin that stands come to.
pub open spec fn roots_admitted<D: Fn(Vec<u8>) -> Option<AccountRootPublicKeys>>(
    r: Result<AdmittedOrganization, ClientError>,
    pin: OrganizationTrustPin,
    owner_root: Result<AccountRootPublicKeys, ClientError>,
    member_user_id: Uuid,
    decode: D,
) -> bool {
    match owner_root {
        Err(error) => r is Err && r->Err_0 == error,
        Ok(owner) => exists|member_root: Result<AccountRootPublicKeys, ClientError>| #[trigger]
            root_read(decode, pin.member_root_public@, member_root) && member_admitted(
                r,
                pin,
                owner,
                member_root,
                member_user_id,
            ),
    }
}

/// What a loaded pin comes to, next to the server's answer.
pub open spec fn pin_admitted<D: Fn(Vec<u8>) -> Option<AccountRootPublicKeys>>(
    r: Result<AdmittedOrganization, ClientError>,
    stored_pin: Result<Option<OrganizationTrustPin>, ClientError>,
    safety: OrganizationSafetyResponse,
    member_user_id: Uuid,
    decode: D,
) -> bool {
    match admitted(stored_pin, safety) {
        Err(error) => r is Err && r->Err_0 == error,
        Ok(pin) => exists|owner_root: Result<AccountRootPublicKeys, ClientError>| #[trigger]
            root_read(decode, pin.owner_root_public@, owner_root) && roots_admitted(
                r,
                pin,
                owner_root,
                member_user_id,
                decode,
            ),
    }
}

/// What a profile holds that an organization is admitted by: the account and root of the
/// profile, and the setting of the pin.
pub struct AdmissionSettings {
    pub user_id: Result<Option<String>, ClientError>,
    pub root_public: Result<Option<String>, ClientError>,
    pub pin: Result<Option<String>, ClientError>,
}

/// What the admission of an organization comes to.
pub open spec fn organization_admitted<D: Fn(Vec<u8>) -> Option<AccountRootPublicKeys>>(
    r: Result<AdmittedOrganization, ClientError>,
    tenant_id: Uuid,
    member_user_id: Uuid,
    safety: Option<OrganizationSafetyResponse>,
    settings: AdmissionSettings,
    decode: D,
) -> bool {
    match safety {
        None => r is Err && r->Err_0 == ClientError::AccountRequest,
        Some(response) => {
            &&& r is Ok ==> {
                &&& r->Ok_0.tenant_id_spec() == tenant_id
                &&& r->Ok_0.member_user_id_spec() == member_user_id
                &&& Ok::<Uuid, ClientError>(r->Ok_0.local_user_id_spec()) == needed_id(
                    settings.user_id,
                )
                &&& r->Ok_0.safety_spec() == response
                &&& r->Ok_0.stands()
            }
            &&& exists|participant: Result<(), ClientError>| #[trigger]
                participant_checked(
                    participant,
                    response,
                    settings.user_id,
                    settings.root_public,
                    decode,
                ) && match participant {
                    Err(error) => r is Err && r->Err_0 == error,
                    Ok(_) => exists|stored: Result<Option<OrganizationTrustPin>, ClientError>|
                     #[trigger]
                        pin_loaded(settings.pin, stored) && pin_admitted(
                            r,
                            stored,
                            response,
                            member_user_id,
                            decode,
                        ),
                }
        },
    }
}

/// Lets an operation on an organization go on: the server's answer must speak of this
/// profile, the stored pin must stand for it, and the pinned roots must be readable and
/// belong to the member that was asked for.
///
/// `safety` is the server's answer, where it answered; `decode` reads the bytes of a root.
pub fn admit_organization<D: Fn(Vec<u8>) -> Option<AccountRootPublicKeys>>(
    tenant_id: Uuid,
    member_user_id: Uuid,
    safety: Option<OrganizationSafetyResponse>,
    settings: AdmissionSettings,
    decode: D,
) -> (r: Result<AdmittedOrganization, ClientError>)
    requires
        forall|bytes: Vec<u8>| #[trigger] decode.requires((bytes,)),
    ensures
        organization_admitted(r, tenant_id, member_user_id, safety, settings, decode),
{
    let safety = match safety {
        None => {
            return Err(ClientError::AccountRequest);
        },
        Some(response) => response,
    };
    let local = local_participant(&safety, settings.user_id, settings.root_public, &decode);
    let ghost participant: Result<(), ClientError> = match local {
        Ok(_) => Ok(()),
        Err(error) => Err(error),
    };
    proof {
        assert(participant_checked(
            participant,
            safety,
            settings.user_id,
            settings.root_public,
            decode,
        ));
    }
    let local_user_id: Uuid = match local {
        Err(error) => {
            return Err(error);
        },
        Ok(id) => id,
    };
    let stored = load_organization_trust_pin(settings.pin);
    let ghost loaded = stored;
    proof {
        assert(pin_loaded(settings.pin, loaded));
    }
    let pin = match admit_pin(stored, &safety) {
        Err(error) => {
            proof {
                assert(pin_admitted(Err(error), loaded, safety, member_user_id, decode));
            }
            return Err(error);
        },
        Ok(pin) => pin,
    };
    let owner_root = decode_trust_root(pin.owner_root_public.as_str(), &decode);
    proof {
        assert(root_read(decode, pin.owner_root_public@, owner_root));
    }
    let owner = match owner_root {
        Err(error) => {
            proof {
                assert(pin_admitted(Err(error), loaded, safety, member_user_id, decode));
            }
            return Err(error);
        },
        Ok(root) => root,
    };
    let member_root = decode_trust_root(pin.member_root_public.as_str(), &decode);
    proof {
        assert(root_read(decode, pin.member_root_public@, member_root));
    }
    let member = match member_root {
        Err(error) => {
            proof {
                assert(pin_admitted(Err(error), loaded, safety, member_user_id, decode));
            }
            return Err(error);
        },
        Ok(root) => root,
    };
    if member.user_id != member_user_id {
        proof {
            assert(pin_admitted(
                Err(ClientError::AccountRequest),
                loaded,
                safety,
                member_user_id,
                decode,
            ));
        }
        return Err(ClientError::AccountRequest);
    }
    let r = AdmittedOrganization {
        tenant_id,
        member_user_id,
        local_user_id,
        safety,
        pin,
        owner_root: owner,
        member_root: member,
    };
    proof {
        assert(pin_admitted(Ok(r), loaded, safety, member_user_id, decode));
    }
    Ok(r)
}

/// Whether the rosters are other than those the pin has seen.
pub open spec fn rosters_moved(
    pin: OrganizationTrustPin,
    owner: RosterHead,
    member: RosterHead,
) -> bool {
    ||| owner.revision != pin.owner_roster_revision
    ||| Some(owner.head_hash@) != external::base64_decoded(pin.owner_roster_head_hash@)
    ||| member.revision != pin.member_roster_revision
    ||| Some(member.head_hash@) != external::base64_decoded(pin.member_roster_head_hash@)
}

/// A pin that differs in nothing but the generations and the rosters.
pub open spec fn same_trust(a: OrganizationTrustPin, b: OrganizationTrustPin) -> bool {
    &&& a.owner_root_public == b.owner_root_public
    &&& a.member_root_public == b.member_root_public
    &&& a.digest == b.digest
    &&& a.locally_confirmed == b.locally_confirmed
}

/// A pin that has seen the given rosters.
pub open spec fn has_seen(
    pin: OrganizationTrustPin,
    owner: RosterHead,
    member: RosterHead,
) -> bool {
    &&& pin.owner_roster_revision == owner.revision
    &&& organization_trust::is_hash_text(pin.owner_roster_head_hash@)
    &&& external::base64_decoded(pin.owner_roster_head_hash@) == Some(owner.head_hash@)
    &&& pin.owner_roster_head_hash@ == external::base64_text(owner.head_hash@)
    &&& pin.member_roster_revision == member.revision
    &&& organization_trust::is_hash_text(pin.member_roster_head_hash@)
    &&& external::base64_decoded(pin.member_roster_head_hash@) == Some(member.head_hash@)
    &&& pin.member_roster_head_hash@ == external::base64_text(member.head_hash@)
}

/// The generation that a pin requires once the rosters were compared with it: the next
/// one where they moved. There is none where the pin's own roster heads cannot be read.
pub open spec fn required_after(
    pin: OrganizationTrustPin,
    owner: RosterHead,
    member: RosterHead,
) -> Option<u64> {
    if !organization_trust::is_hash_text(pin.owner_roster_head_hash@)
        || !organization_trust::is_hash_text(pin.member_roster_head_hash@) {
        None
    } else if !rosters_moved(pin, owner, member) {
        Some(pin.required_generation)
    } else if pin.minimum_generation == u64::MAX {
        None
    } else {
        Some((pin.minimum_generation + 1) as u64)
    }
}

fn next_requirement(
    pin: &OrganizationTrustPin,
    owner: &RosterHead,
    member: &RosterHead,
) -> (r: Result<u64, ClientError>)
    ensures
        match required_after(*pin, *owner, *member) {
            Some(required) => r == Ok::<u64, ClientError>(required),
            None => r == Err::<u64, _>(ClientError::AccountRequest),
        },
{
    let owner_head: [u8; 32] = match decode_trust_hash(pin.owner_roster_head_hash.as_str()) {
        Err(error) => {
            return Err(error);
        },
        Ok(head) => head,
    };
    let member_head: [u8; 32] = match decode_trust_hash(pin.member_roster_head_hash.as_str()) {
        Err(error) => {
            return Err(error);
        },
        Ok(head) => head,
    };
    if owner.revision != pin.owner_roster_revision || !bytes_eq(&owner.head_hash, &owner_head)
        || member.revision != pin.member_roster_revision || !bytes_eq(
        &member.head_hash,
        &member_head,
    ) {
        match pin.minimum_generation.checked_add(1) {
            None => Err(ClientError::AccountRequest),
            Some(next) => Ok(next),
        }
    } else {
        Ok(pin.required_generation)
    }
}

fn see_rosters(pin: &mut OrganizationTrustPin, owner: &RosterHead, member: &RosterHead)
    ensures
        same_trust(*final(pin), *old(pin)),
        final(pin).minimum_generation == old(pin).minimum_generation,
        final(pin).required_generation == old(pin).required_generation,
        has_seen(*final(pin), *owner, *member),
{
    pin.owner_roster_revision = owner.revision;
    pin.owner_roster_head_hash = encode_head(&owner.head_hash);
    pin.member_roster_revision = member.revision;
    pin.member_roster_head_hash = encode_head(&member.head_hash);
}

fn encode_head(head: &[u8; 32]) -> (r: String)
    ensures
        r@ == external::base64_text(head@),
        external::base64_decoded(r@) == Some(head@),
        organization_trust::is_hash_text(r@),
{
    external::base64_encode(head)
}

/// What following the rosters of an organization comes to.
pub open spec fn rosters_followed(
    r: Result<OrganizationTrustPin, ClientError>,
    pin: OrganizationTrustPin,
    owner: Option<RosterHead>,
    member: Option<RosterHead>,
) -> bool {
    match (owner, member) {
        (Some(owner), Some(member)) => match required_after(pin, owner, member) {
            None => r is Err && r->Err_0 == ClientError::AccountRequest,
            Some(required) => {
                &&& r is Ok
                &&& same_trust(r->Ok_0, pin)
                &&& r->Ok_0.minimum_generation == pin.minimum_generation
                &&& r->Ok_0.required_generation == required
                &&& has_seen(r->Ok_0, owner, member)
                &&& pin.valid() ==> r->Ok_0.valid()
            },
        },
        _ => r is Err && r->Err_0 == ClientError::AccountRequest,
    }
}

/// Follows the rosters of both accounts: the pin to store afterwards.
///
/// `owner` and `member` are the rosters that the server answered with, where it did, each
/// verified against what the organization demands of it.
pub fn verify_organization_device_rosters(
    organization: AdmittedOrganization,
    owner: Option<RosterHead>,
    member: Option<RosterHead>,
) -> (r: Result<OrganizationTrustPin, ClientError>)
    ensures
        organization.stands(),
        rosters_followed(r, organization.pin_spec(), owner, member),
{
    proof {
        use_type_invariant(&organization);
    }
    let owner: RosterHead = match owner {
        None => {
            return Err(ClientError::AccountRequest);
        },
        Some(head) => head,
    };
    let member: RosterHead = match member {
        None => {
            return Err(ClientError::AccountRequest);
        },
        Some(head) => head,
    };
    let required: u64 = match next_requirement(&organization.pin, &owner, &member) {
        Err(error) => {
            return Err(error);
        },
        Ok(required) => required,
    };
    let mut next = organization.pin;
    next.required_generation = required;
    see_rosters(&mut next, &owner, &member);
    Ok(next)
}

/// The least generation that a pin accepts.
pub open spec fn least_generation(pin: OrganizationTrustPin) -> u64 {
    if pin.required_generation > pin.minimum_generation {
        pin.required_generation
    } else {
        pin.minimum_generation
    }
}

/// The fingerprint of one device's recipient key, as `fingerprint` reads it from the
/// certificate.
pub open spec fn recipient_is<F: Fn(Vec<u8>) -> Option<Vec<u8>>>(
    fingerprint: F,
    device: OrganizationDeviceDto,
    recipient: Vec<u8>,
) -> bool {
    &&& external::base64_decoded(device.certificate@) is Some
    &&& exists|bytes: Vec<u8>, reply: Option<Vec<u8>>|
        {
            &&& bytes@ == external::base64_decoded(device.certificate@).unwrap()
            &&& reply == Some(recipient)
            &&& #[trigger] fingerprint.ensures((bytes,), reply)
        }
}

/// A device whose certificate cannot be read.
pub open spec fn recipient_unknown<F: Fn(Vec<u8>) -> Option<Vec<u8>>>(
    fingerprint: F,
    device: OrganizationDeviceDto,
) -> bool {
    ||| external::base64_decoded(device.certificate@) is None
    ||| exists|bytes: Vec<u8>|
        {
            &&& bytes@ == external::base64_decoded(device.certificate@).unwrap()
            &&& #[trigger] fingerprint.ensures((bytes,), None)
        }
}

/// The recipients that an active key bundle must name: those of the owner's devices,
/// then those of the member's.
pub open spec fn recipients_are<F: Fn(Vec<u8>) -> Option<Vec<u8>>>(
    fingerprint: F,
    devices: Seq<OrganizationDeviceDto>,
    recipients: Seq<Vec<u8>>,
) -> bool {
    &&& recipients.len() == devices.len()
    &&& forall|i: int|
        0 <= i < devices.len() ==> recipient_is(fingerprint, #[trigger] devices[i], recipients[i])
}

/// Some device whose certificate cannot be read.
pub open spec fn some_unknown<F: Fn(Vec<u8>) -> Option<Vec<u8>>>(
    fingerprint: F,
    devices: Seq<OrganizationDeviceDto>,
) -> bool {
    exists|i: int| 0 <= i < devices.len() && recipient_unknown(fingerprint, #[trigger] devices[i])
}

fn append_recipients<F: Fn(Vec<u8>) -> Option<Vec<u8>>>(
    recipients: &mut Vec<Vec<u8>>,
    devices: &Vec<OrganizationDeviceDto>,
    fingerprint: &F,
) -> (r: bool)
    requires
        forall|bytes: Vec<u8>| #[trigger] fingerprint.requires((bytes,)),
    ensures
        r ==> {
            &&& final(recipients)@.len() == old(recipients)@.len() + devices@.len()
            &&& final(recipients)@.take(old(recipients)@.len() as int) == old(recipients)@
            &&& recipients_are(
                *fingerprint,
                devices@,
                final(recipients)@.skip(old(recipients)@.len() as int),
            )
        },
        !r ==> some_unknown(*fingerprint, devices@),
{
    let ghost before = recipients@;
    let mut i: usize = 0;
    while i < devices.len()
        invariant
            i <= devices@.len(),
            recipients@.len() == before.len() + i,
            forall|j: int| 0 <= j < before.len() ==> recipients@[j] == before[j],
            forall|bytes: Vec<u8>| #[trigger] fingerprint.requires((bytes,)),
            forall|j: int|
                0 <= j < i ==> recipient_is(
                    *fingerprint,
                    #[trigger] devices@[j],
                    recipients@[before.len() + j],
                ),
        decreases devices@.len() - i,
    {
        let ghost earlier = recipients@;
        match external::base64_decode(devices[i].certificate.as_str()) {
            None => {
                proof {
                    assert(recipient_unknown(*fingerprint, devices@[i as int]));
                }
                return false;
            },
            Some(bytes) => {
                let reply = fingerprint(bytes);
                proof {
                    assert(fingerprint.ensures((bytes,), reply));
                }
                match reply {
                    None => {
                        proof {
                            assert(recipient_unknown(*fingerprint, devices@[i as int]));
                        }
                        return false;
                    },
                    Some(recipient) => {
                        proof {
                            assert(recipient_is(*fingerprint, devices@[i as int], recipient));
                        }
                        recipients.push(recipient);
                        proof {
                            assert(forall|j: int|
                                0 <= j < earlier.len() ==> recipients@[j] == earlier[j]);
                        }
                    },
                }
            },
        }
        i = i + 1;
    }
    proof {
        assert(recipients@.take(before.len() as int) =~= before);
    }
    true
}

/// Gathers the recipients that an active key bundle must name.
pub fn expected_recipients<F: Fn(Vec<u8>) -> Option<Vec<u8>>>(
    owner_devices: &Vec<OrganizationDeviceDto>,
    member_devices: &Vec<OrganizationDeviceDto>,
    fingerprint: &F,
) -> (r: Result<Vec<Vec<u8>>, ClientError>)
    requires
        forall|bytes: Vec<u8>| #[trigger] fingerprint.requires((bytes,)),
    ensures
        match r {
            Ok(recipients) => recipients_are(
                *fingerprint,
                owner_devices@ + member_devices@,
                recipients@,
            ),
            Err(error) => error == ClientError::AccountRequest && some_unknown(
                *fingerprint,
                owner_devices@ + member_devices@,
            ),
        },
{
    let ghost all = owner_devices@ + member_devices@;
    let mut recipients: Vec<Vec<u8>> = Vec::new();
    if !append_recipients(&mut recipients, owner_devices, fingerprint) {
        proof {
            let i = choose|i: int|
                0 <= i < owner_devices@.len() && recipient_unknown(
                    *fingerprint,
                    #[trigger] owner_devices@[i],
                );
            assert(all[i] == owner_devices@[i]);
        }
        return Err(ClientError::AccountRequest);
    }
    let ghost owners = recipients@;
    proof {
        assert(owners.skip(0) =~= owners);
    }
    if !append_recipients(&mut recipients, member_devices, fingerprint) {
        proof {
            let i = choose|i: int|
                0 <= i < member_devices@.len() && recipient_unknown(
                    *fingerprint,
                    #[trigger] member_devices@[i],
                );
            assert(all[owner_devices@.len() + i] == member_devices@[i]);
        }
        return Err(ClientError::AccountRequest);
    }
    proof {
        let n = owner_devices@.len() as int;
        assert forall|i: int| 0 <= i < all.len() implies recipient_is(
            *fingerprint,
            #[trigger] all[i],
            recipients@[i],
        ) by {
            if i < n {
                assert(all[i] == owner_devices@[i]);
                assert(recipients@.take(n)[i] == owners[i]);
            } else {
                assert(all[i] == member_devices@[i - n]);
                assert(recipients@.skip(n)[i - n] == recipients@[i]);
            }
        }
    }
    Ok(recipients)
}

/// A roster as the server hands it out, verified against the pinned root.
pub struct DeviceRoster {
    pub head: RosterHead,
    pub devices: Vec<OrganizationDeviceDto>,
}

/// The least generation that an active key bundle must have: the required one, where
/// one is required.
pub open spec fn bundle_minimum(pin: OrganizationTrustPin, required: u64) -> u64 {
    if required > pin.minimum_generation {
        required
    } else {
        pin.minimum_generation
    }
}

/// A pin that accepted a key generation and has seen both rosters.
pub open spec fn accepted_pin(
    next: OrganizationTrustPin,
    pin: OrganizationTrustPin,
    owner: RosterHead,
    member: RosterHead,
    generation: u64,
) -> bool {
    &&& same_trust(next, pin)
    &&& next.minimum_generation == generation
    &&& next.required_generation == 0
    &&& has_seen(next, owner, member)
    &&& pin.valid() && generation != 0 ==> next.valid()
}

/// What an active key bundle is verified against: the least generation, and the recipients
/// that it must name.
pub struct BundleCheck {
    organization: AdmittedOrganization,
    owner: RosterHead,
    member: RosterHead,
    minimum_generation: u64,
    recipients: Vec<Vec<u8>>,
}

impl BundleCheck {
    pub closed spec fn organization_spec(self) -> AdmittedOrganization {
        self.organization
    }

    pub closed spec fn owner_spec(self) -> RosterHead {
        self.owner
    }

    pub closed spec fn member_spec(self) -> RosterHead {
        self.member
    }

    pub closed spec fn minimum_generation_spec(self) -> u64 {
        self.minimum_generation
    }

    pub closed spec fn recipients_spec(self) -> Seq<Vec<u8>> {
        self.recipients@
    }

    /// The check asks for what the pin of the organization and the two rosters ask for.
    pub open spec fn fits(self) -> bool {
        let pin = self.organization_spec().pin_spec();
        &&& required_after(pin, self.owner_spec(), self.member_spec()) is Some
        &&& self.minimum_generation_spec() == bundle_minimum(
            pin,
            required_after(pin, self.owner_spec(), self.member_spec()).unwrap(),
        )
    }

    #[verifier::type_invariant]
    spec fn always_fits(self) -> bool {
        self.fits()
    }

    /// The least generation that the bundle must have.
    pub fn minimum_generation(&self) -> (r: u64)
        ensures
            r == self.minimum_generation_spec(),
    {
        self.minimum_generation
    }

    /// The recipients that the bundle must name.
    pub fn recipients(&self) -> (r: &Vec<Vec<u8>>)
        ensures
            r@ == self.recipients_spec(),
    {
        &self.recipients
    }

    /// The organization whose bundle is checked.
    pub fn organization(&self) -> (r: &AdmittedOrganization)
        ensures
            *r == self.organization_spec(),
    {
        &self.organization
    }
}

/// What the plan of a bundle's check comes to, once both rosters are there.
pub open spec fn check_planned<F: Fn(Vec<u8>) -> Option<Vec<u8>>>(
    r: Result<BundleCheck, ClientError>,
    organization: AdmittedOrganization,
    owner: DeviceRoster,
    member: DeviceRoster,
    fingerprint: F,
) -> bool {
    match required_after(organization.pin_spec(), owner.head, member.head) {
        None => r is Err && r->Err_0 == ClientError::AccountRequest,
        Some(required) => match r {
            Ok(check) => {
                &&& check.organization_spec() == organization
                &&& check.owner_spec() == owner.head
                &&& check.member_spec() == member.head
                &&& check.minimum_generation_spec() == bundle_minimum(
                    organization.pin_spec(),
                    required,
                )
                &&& recipients_are(
                    fingerprint,
                    owner.devices@ + member.devices@,
                    check.recipients_spec(),
                )
            },
            Err(error) => error == ClientError::AccountRequest && some_unknown(
                fingerprint,
                owner.devices@ + member.devices@,
            ),
        },
    }
}

/// What the plan of a bundle's check comes to.
pub open spec fn bundle_planned<F: Fn(Vec<u8>) -> Option<Vec<u8>>>(
    r: Result<BundleCheck, ClientError>,
    organization: AdmittedOrganization,
    device_identity: Result<(), ClientError>,
    owner: Option<DeviceRoster>,
    member: Option<DeviceRoster>,
    fingerprint: F,
) -> bool {
    match device_identity {
        Err(error) => r is Err && r->Err_0 == error,
        Ok(_) => match (owner, member) {
            (Some(owner), Some(member)) => check_planned(
                r,
                organization,
                owner,
                member,
                fingerprint,
            ),
            _ => r is Err && r->Err_0 == ClientError::AccountRequest,
        },
    }
}

/// Decides what the active key bundle of an organization is verified against.
///
/// `device_identity` is the outcome of loading this device's identity, which is done
/// before the rosters are asked for; `owner` and `member` are the rosters that the server
/// answered with, where it did; `fingerprint` reads the recipient key of a certificate.
pub fn plan_bundle_check<F: Fn(Vec<u8>) -> Option<Vec<u8>>>(
    organization: AdmittedOrganization,
    device_identity: Result<(), ClientError>,
    owner: Option<DeviceRoster>,
    member: Option<DeviceRoster>,
    fingerprint: F,
) -> (r: Result<BundleCheck, ClientError>)
    requires
        forall|bytes: Vec<u8>| #[trigger] fingerprint.requires((bytes,)),
    ensures
        organization.stands(),
        bundle_planned(r, organization, device_identity, owner, member, fingerprint),
{
    proof {
        use_type_invariant(&organization);
    }
    match device_identity {
        Err(error) => {
            return Err(error);
        },
        Ok(()) => {},
    }
    let owner: DeviceRoster = match owner {
        None => {
            return Err(ClientError::AccountRequest);
        },
        Some(roster) => roster,
    };
    let member: DeviceRoster = match member {
        None => {
            return Err(ClientError::AccountRequest);
        },
        Some(roster) => roster,
    };
    let required: u64 = match next_requirement(&organization.pin, &owner.head, &member.head) {
        Err(error) => {
            return Err(error);
        },
        Ok(required) => required,
    };
    let minimum: u64 = if required > organization.pin.minimum_generation {
        required
    } else {
        organization.pin.minimum_generation
    };
    let recipients = match expected_recipients(&owner.devices, &member.devices, &fingerprint) {
        Err(error) => {
            return Err(error);
        },
        Ok(recipients) => recipients,
    };
    Ok(
        BundleCheck {
            organization,
            owner: owner.head,
            member: member.head,
            minimum_generation: minimum,
            recipients,
        },
    )
}

/// What the verification of a bundle comes to.
pub open spec fn bundle_judged(
    r: Result<(OrganizationTrustPin, u64), ClientError>,
    check: BundleCheck,
    verified_generation: Option<u64>,
) -> bool {
    match verified_generation {
        None => r is Err && r->Err_0 == ClientError::AccountRequest,
        Some(generation) => {
            &&& r is Ok
            &&& r->Ok_0.1 == generation
            &&& accepted_pin(
                r->Ok_0.0,
                check.organization_spec().pin_spec(),
                check.owner_spec(),
                check.member_spec(),
                generation,
            )
        },
    }
}

/// Accepts the active key bundle of an organization: the pin to store afterwards, and
/// the generation.
///
/// `verified_generation` is the generation of the bundle, where the server handed one out
/// and it holds against the check.
pub fn verify_organization_active_key_bundle(
    check: BundleCheck,
    verified_generation: Option<u64>,
) -> (r: Result<(OrganizationTrustPin, u64), ClientError>)
    ensures
        check.organization_spec().stands(),
        check.fits(),
        bundle_judged(r, check, verified_generation),
{
    proof {
        use_type_invariant(&check);
        use_type_invariant(&check.organization);
    }
    let generation: u64 = match verified_generation {
        None => {
            return Err(ClientError::AccountRequest);
        },
        Some(generation) => generation,
    };
    let mut next = check.organization.pin;
    next.minimum_generation = generation;
    next.required_generation = 0;
    see_rosters(&mut next, &check.owner, &check.member);
    Ok((next, generation))
}

/// What a signed revocation states.
pub struct DeviceRevocation {
    pub device_id: Uuid,
    pub certificate_fingerprint: Vec<u8>,
    pub revision: u64,
    pub revoked_at_ms: i64,
    pub previous_head_hash: [u8; 32],
}

/// The place of a device of this account in a roster: the first that fits.
pub open spec fn device_at(
    devices: Seq<OrganizationDeviceDto>,
    device_id: Uuid,
    user_id: Uuid,
    i: int,
) -> bool {
    &&& 0 <= i < devices.len()
    &&& devices[i].device_id == device_id
    &&& devices[i].user_id == user_id
    &&& forall|j: int|
        0 <= j < i ==> !((#[trigger] devices[j]).device_id == device_id && devices[j].user_id
            == user_id)
}

/// Whether a device can be revoked: it is in the roster and its certificate has a
/// fingerprint of forty-eight bytes.
pub open spec fn revocable(
    devices: Seq<OrganizationDeviceDto>,
    device_id: Uuid,
    user_id: Uuid,
) -> bool {
    exists|i: int| #[trigger]
        device_at(devices, device_id, user_id, i) && external::base64_decoded(
            devices[i].certificate_fingerprint@,
        ) is Some && external::base64_decoded(
            devices[i].certificate_fingerprint@,
        ).unwrap().len() == 48
}

/// A revocation that is ready to be signed and submitted: of a device of this profile's own
/// account, behind the roster that was verified for it.
pub struct RevocationPlan {
    organization: AdmittedOrganization,
    side: RosterSide,
    head: RosterHead,
    statement: DeviceRevocation,
}

impl RevocationPlan {
    pub closed spec fn organization_spec(self) -> AdmittedOrganization {
        self.organization
    }

    pub closed spec fn side_spec(self) -> RosterSide {
        self.side
    }

    pub closed spec fn head_spec(self) -> RosterHead {
        self.head
    }

    pub closed spec fn statement_spec(self) -> DeviceRevocation {
        self.statement
    }

    /// The statement goes directly behind the roster that was verified.
    pub open spec fn follows_roster(self) -> bool {
        &&& self.statement_spec().revision == self.head_spec().revision + 1
        &&& self.statement_spec().previous_head_hash == self.head_spec().head_hash
        &&& self.statement_spec().certificate_fingerprint@.len() == 48
    }

    #[verifier::type_invariant]
    spec fn always_follows(self) -> bool {
        self.follows_roster()
    }

    /// What the account root is to sign.
    pub fn statement(&self) -> (r: &DeviceRevocation)
        ensures
            *r == self.statement_spec(),
            self.follows_roster(),
            self.organization_spec().stands(),
    {
        proof {
            use_type_invariant(self);
            use_type_invariant(&self.organization);
        }
        &self.statement
    }
}

/// What the plan of a revocation comes to, once the roster of the device's account is
/// there.
pub open spec fn roster_revocation_planned(
    r: Result<RevocationPlan, ClientError>,
    organization: AdmittedOrganization,
    roster: DeviceRoster,
    device_id: Uuid,
    root_keys: Result<(), ClientError>,
    now: Result<i64, ClientError>,
) -> bool {
    let local_user_id = organization.local_user_id_spec();
    if !revocable(roster.devices@, device_id, local_user_id) {
        r is Err && r->Err_0 == ClientError::AccountRequest
    } else if root_keys is Err {
        r is Err && r->Err_0 == root_keys->Err_0
    } else if roster.head.revision == u64::MAX {
        r is Err && r->Err_0 == ClientError::AccountRequest
    } else if now is Err {
        r is Err && r->Err_0 == now->Err_0
    } else {
        &&& r is Ok
        &&& r->Ok_0.organization_spec() == organization
        &&& r->Ok_0.side_spec() == organization.own_side()
        &&& r->Ok_0.head_spec() == roster.head
        &&& r->Ok_0.follows_roster()
        &&& r->Ok_0.statement_spec().device_id == device_id
        &&& r->Ok_0.statement_spec().revoked_at_ms == now->Ok_0
        &&& exists|i: int| #[trigger]
            device_at(roster.devices@, device_id, local_user_id, i) && external::base64_decoded(
                roster.devices@[i].certificate_fingerprint@,
            ) == Some(r->Ok_0.statement_spec().certificate_fingerprint@)
    }
}

/// What the plan of a revocation comes to.
pub open spec fn revocation_planned(
    r: Result<RevocationPlan, ClientError>,
    organization: AdmittedOrganization,
    roster: Option<DeviceRoster>,
    device_id: Uuid,
    root_keys: Result<(), ClientError>,
    now: Result<i64, ClientError>,
) -> bool {
    match roster {
        Some(roster) => roster_revocation_planned(
            r,
            organization,
            roster,
            device_id,
            root_keys,
            now,
        ),
        None => r is Err && r->Err_0 == ClientError::AccountRequest,
    }
}

/// Finds the device to revoke and decides what the account root is to sign. It must be a
/// device of the account that the organization was admitted for.
///
/// `roster` is the roster of this profile's own side that the server answered with, where
/// it did, verified against what the organization demands of it; `root_keys` is the outcome
/// of loading the account root, which is done once the device was found; `now` is the time
/// that is signed.
pub fn plan_device_revocation(
    organization: AdmittedOrganization,
    roster: Option<DeviceRoster>,
    device_id: Uuid,
    root_keys: Result<(), ClientError>,
    now: Result<i64, ClientError>,
) -> (r: Result<RevocationPlan, ClientError>)
    ensures
        organization.stands(),
        revocation_planned(r, organization, roster, device_id, root_keys, now),
{
    let side: RosterSide = organization.revocation_side();
    let local_user_id: Uuid = organization.local_user_id;
    let roster: DeviceRoster = match roster {
        None => {
            return Err(ClientError::AccountRequest);
        },
        Some(roster) => roster,
    };
    let devices = &roster.devices;
    let mut i: usize = 0;
    while i < devices.len() && !(devices[i].device_id == device_id && devices[i].user_id
        == local_user_id)
        invariant
            i <= devices@.len(),
            forall|j: int|
                0 <= j < i ==> !((#[trigger] devices@[j]).device_id == device_id
                    && devices@[j].user_id == local_user_id),
        decreases devices@.len() - i,
    {
        i = i + 1;
    }
    if i == devices.len() {
        return Err(ClientError::AccountRequest);
    }
    proof {
        assert(device_at(devices@, device_id, local_user_id, i as int));
        assert forall|k: int| device_at(devices@, device_id, local_user_id, k) implies k == i by {
            if k < i {
                assert(!(devices@[k].device_id == device_id && devices@[k].user_id
                    == local_user_id));
            }
        }
    }
    let certificate_fingerprint = match external::base64_decode(
        devices[i].certificate_fingerprint.as_str(),
    ) {
        None => {
            return Err(ClientError::AccountRequest);
        },
        Some(bytes) => bytes,
    };
    if certificate_fingerprint.len() != 48 {
        return Err(ClientError::AccountRequest);
    }
    match root_keys {
        Err(error) => {
            return Err(error);
        },
        Ok(()) => {},
    }
    let head: RosterHead = roster.head;
    let revision: u64 = match head.revision.checked_add(1) {
        None => {
            return Err(ClientError::AccountRequest);
        },
        Some(next) => next,
    };
    let revoked_at_ms: i64 = match now {
        Err(error) => {
            return Err(error);
        },
        Ok(time) => time,
    };
    Ok(
        RevocationPlan {
            organization,
            side,
            head,
            statement: DeviceRevocation {
                device_id,
                certificate_fingerprint,
                revision,
                revoked_at_ms,
                previous_head_hash: head.head_hash,
            },
        },
    )
}

/// A pin that has seen one roster move and demands a new generation.
pub open spec fn revoked_pin(
    next: OrganizationTrustPin,
    pin: OrganizationTrustPin,
    side: RosterSide,
    revision: u64,
    head_hash: Seq<u8>,
) -> bool {
    &&& same_trust(next, pin)
    &&& next.minimum_generation == pin.minimum_generation
    &&& next.required_generation == pin.minimum_generation + 1
    &&& match side {
        RosterSide::Owner => {
            &&& next.owner_roster_revision == revision
            &&& organization_trust::is_hash_text(next.owner_roster_head_hash@)
            &&& next.owner_roster_head_hash@ == external::base64_text(head_hash)
            &&& external::base64_decoded(next.owner_roster_head_hash@) == Some(head_hash)
            &&& next.member_roster_revision == pin.member_roster_revision
            &&& next.member_roster_head_hash == pin.member_roster_head_hash
        },
        RosterSide::Member => {
            &&& next.member_roster_revision == revision
            &&& organization_trust::is_hash_text(next.member_roster_head_hash@)
            &&& next.member_roster_head_hash@ == external::base64_text(head_hash)
            &&& external::base64_decoded(next.member_roster_head_hash@) == Some(head_hash)
            &&& next.owner_roster_revision == pin.owner_roster_revision
            &&& next.owner_roster_head_hash == pin.owner_roster_head_hash
        },
    }
}

/// What a planned revocation comes to.
pub open spec fn revocation_recorded(
    r: Result<OrganizationTrustPin, ClientError>,
    plan: RevocationPlan,
    accepted: bool,
    statement_hash: Option<[u8; 32]>,
) -> bool {
    let pin = plan.organization_spec().pin_spec();
    if !accepted || pin.minimum_generation == u64::MAX || statement_hash is None {
        r is Err && r->Err_0 == ClientError::AccountRequest
    } else {
        &&& r is Ok
        &&& revoked_pin(
            r->Ok_0,
            pin,
            plan.side_spec(),
            plan.statement_spec().revision,
            statement_hash.unwrap()@,
        )
        &&& pin.valid() ==> r->Ok_0.valid()
    }
}

/// Records a revocation that the server accepted: the pin to store afterwards.
///
/// `accepted` tells whether the plan's statement could be signed and the server took it, and
/// `statement_hash` is the authenticated hash of the signed statement.
pub fn revoke_organization_device(
    plan: RevocationPlan,
    accepted: bool,
    statement_hash: Option<[u8; 32]>,
) -> (r: Result<OrganizationTrustPin, ClientError>)
    ensures
        plan.organization_spec().stands(),
        plan.follows_roster(),
        revocation_recorded(r, plan, accepted, statement_hash),
{
    proof {
        use_type_invariant(&plan);
        use_type_invariant(&plan.organization);
    }
    if !accepted {
        return Err(ClientError::AccountRequest);
    }
    let required: u64 = match plan.organization.pin.minimum_generation.checked_add(1) {
        None => {
            return Err(ClientError::AccountRequest);
        },
        Some(next) => next,
    };
    let hash: [u8; 32] = match statement_hash {
        None => {
            return Err(ClientError::AccountRequest);
        },
        Some(hash) => hash,
    };
    let mut next = plan.organization.pin;
    next.required_generation = required;
    match plan.side {
        RosterSide::Owner => {
            next.owner_roster_revision = plan.statement.revision;
            next.owner_roster_head_hash = encode_head(&hash);
        },
        RosterSide::Member => {
            next.member_roster_revision = plan.statement.revision;
            next.member_roster_head_hash = encode_head(&hash);
        },
    }
    Ok(next)
}

/// Nothing is admitted unless the stored pin stands: it must be there, confirmed by this
/// profile, and match an answer of the server that calls the pair verified.
pub proof fn law_only_a_standing_pin_is_admitted<D: Fn(Vec<u8>) -> Option<AccountRootPublicKeys>>(
    r: Result<AdmittedOrganization, ClientError>,
    tenant_id: Uuid,
    member_user_id: Uuid,
    safety: Option<OrganizationSafetyResponse>,
    settings: AdmissionSettings,
    decode: D,
)
    requires
        organization_admitted(r, tenant_id, member_user_id, safety, settings, decode),
        r is Ok,
    ensures
        safety == Some(r->Ok_0.safety_spec()),
        is_verified(r->Ok_0.safety_spec()),
        r->Ok_0.pin_spec().locally_confirmed,
        r->Ok_0.pin_spec().matches_spec(r->Ok_0.safety_spec()),
        r->Ok_0.member_root_spec().user_id == member_user_id,
        needed_id(settings.user_id) == Ok::<Uuid, ClientError>(r->Ok_0.local_user_id_spec()),
        settings.pin is Ok,
        settings.pin->Ok_0 is Some,
        r->Ok_0.pin_spec().stored_as(crate::text::fields(settings.pin->Ok_0->Some_0@, '|')),
        r->Ok_0.pin_spec().valid(),
{
}

/// A revocation that comes to a pin was submitted for an organization whose pin stands. The
/// pin that is stored is that pin but for two things: it demands the generation behind its
/// last one, and it has seen the revocation behind the verified roster of this profile's own
/// side.
pub proof fn law_revocation_rests_on_the_verified_roster(
    organization: AdmittedOrganization,
    roster: DeviceRoster,
    device_id: Uuid,
    root_keys: Result<(), ClientError>,
    now: Result<i64, ClientError>,
    planned: Result<RevocationPlan, ClientError>,
    accepted: bool,
    statement_hash: Option<[u8; 32]>,
    r: Result<OrganizationTrustPin, ClientError>,
)
    requires
        organization.stands(),
        revocation_planned(planned, organization, Some(roster), device_id, root_keys, now),
        planned is Ok,
        revocation_recorded(r, planned->Ok_0, accepted, statement_hash),
        r is Ok,
    ensures
        pin_stands(organization.pin_spec(), organization.safety_spec()),
        pin_stands(r->Ok_0, organization.safety_spec()),
        accepted,
        revocable(roster.devices@, device_id, organization.local_user_id_spec()),
        statement_hash is Some,
        revoked_pin(
            r->Ok_0,
            organization.pin_spec(),
            organization.own_side(),
            (roster.head.revision + 1) as u64,
            statement_hash.unwrap()@,
        ),
        roster.head.revision < u64::MAX,
        now == Ok::<i64, ClientError>(planned->Ok_0.statement_spec().revoked_at_ms),
{
}

/// A device that is not in the roster under the account that the organization was admitted
/// for is not revoked.
pub proof fn law_foreign_device_is_not_revoked(
    organization: AdmittedOrganization,
    roster: Option<DeviceRoster>,
    device_id: Uuid,
    root_keys: Result<(), ClientError>,
    now: Result<i64, ClientError>,
    planned: Result<RevocationPlan, ClientError>,
)
    requires
        revocation_planned(planned, organization, roster, device_id, root_keys, now),
        roster is None || !revocable(
            roster.unwrap().devices@,
            device_id,
            organization.local_user_id_spec(),
        ),
    ensures
        planned is Err,
        planned->Err_0 == ClientError::AccountRequest,
{
}

/// A key generation is accepted for an organization whose pin stands, behind a check that
/// asks for at least the generation after the last one where a roster moved.
pub proof fn law_bundle_rests_on_the_verified_rosters<F: Fn(Vec<u8>) -> Option<Vec<u8>>>(
    organization: AdmittedOrganization,
    device_identity: Result<(), ClientError>,
    owner: DeviceRoster,
    member: DeviceRoster,
    fingerprint: F,
    planned: Result<BundleCheck, ClientError>,
    verified_generation: Option<u64>,
    r: Result<(OrganizationTrustPin, u64), ClientError>,
)
    requires
        organization.stands(),
        bundle_planned(
            planned,
            organization,
            device_identity,
            Some(owner),
            Some(member),
            fingerprint,
        ),
        planned is Ok,
        bundle_judged(r, planned->Ok_0, verified_generation),
        r is Ok,
    ensures
        pin_stands(organization.pin_spec(), organization.safety_spec()),
        pin_stands(r->Ok_0.0, organization.safety_spec()),
        verified_generation == Some(r->Ok_0.1),
        recipients_are(
            fingerprint,
            owner.devices@ + member.devices@,
            planned->Ok_0.recipients_spec(),
        ),
        rosters_moved(organization.pin_spec(), owner.head, member.head)
            ==> planned->Ok_0.minimum_generation_spec()
            == organization.pin_spec().minimum_generation + 1,
        planned->Ok_0.minimum_generation_spec() >= organization.pin_spec().minimum_generation,
        accepted_pin(
            r->Ok_0.0,
            organization.pin_spec(),
            owner.head,
            member.head,
            r->Ok_0.1,
        ),
{
}

/// Following the rosters of an organization leaves its pin standing.
pub proof fn law_followed_rosters_keep_the_pin_standing(
    organization: AdmittedOrganization,
    owner: Option<RosterHead>,
    member: Option<RosterHead>,
    r: Result<OrganizationTrustPin, ClientError>,
)
    requires
        organization.stands(),
        rosters_followed(r, organization.pin_spec(), owner, member),
        r is Ok,
    ensures
        pin_stands(r->Ok_0, organization.safety_spec()),
        owner is Some,
        member is Some,
        has_seen(r->Ok_0, owner.unwrap(), member.unwrap()),
{
}

/// Confirming a pair gives a pin that stands, and storing it keeps it: it is valid
/// where the pair has roots and a digest at all.
pub proof fn law_confirmed_pin_stands(
    pin: OrganizationTrustPin,
    response: OrganizationSafetyResponse,
)
    requires
        confirmed_pin_of(pin, response),
        response.owner_root_public@.len() > 0,
        response.member_root_public@.len() > 0,
        response.digest@.len() > 0,
    ensures
        pin.valid(),
        pin_stands(pin, response) == is_verified(response),
{
}

/// Another root needs another confirmation: a pin does not stand for a response that
/// names other roots or another digest.
pub proof fn law_root_change_needs_confirmation(
    pin: OrganizationTrustPin,
    response: OrganizationSafetyResponse,
)
    requires
        pin.owner_root_public@ != response.owner_root_public@ || pin.member_root_public@
            != response.member_root_public@ || pin.digest@ != response.digest@,
    ensures
        !pin_stands(pin, response),
        admitted(Ok(Some(pin)), response) == Err::<OrganizationTrustPin, ClientError>(
            ClientError::AccountRequest,
        ),
{
}

/// A roster that moved makes the next accepted generation strictly newer than the last
/// one; rosters that did not move leave the demand as it was.
pub proof fn law_moved_roster_needs_new_generation(
    pin: OrganizationTrustPin,
    owner: RosterHead,
    member: RosterHead,
    next: OrganizationTrustPin,
)
    requires
        pin.valid(),
        required_after(pin, owner, member) is Some,
        next.minimum_generation == pin.minimum_generation,
        next.required_generation == required_after(pin, owner, member).unwrap(),
    ensures
        rosters_moved(pin, owner, member) ==> least_generation(next) == pin.minimum_generation + 1,
        !rosters_moved(pin, owner, member) ==> least_generation(next) == least_generation(pin),
        least_generation(next) >= pin.minimum_generation,
{
}

/// Seeing the same rosters again changes nothing.
pub proof fn law_seen_rosters_do_not_move(
    pin: OrganizationTrustPin,
    owner: RosterHead,
    member: RosterHead,
)
    requires
        has_seen(pin, owner, member),
    ensures
        !rosters_moved(pin, owner, member),
        required_after(pin, owner, member) == Some(pin.required_generation),
{
}

/// A revocation makes the next accepted generation strictly newer than the last one.
pub proof fn law_revocation_needs_new_generation(
    next: OrganizationTrustPin,
    pin: OrganizationTrustPin,
    side: RosterSide,
    revision: u64,
    head_hash: Seq<u8>,
)
    requires
        revoked_pin(next, pin, side, revision, head_hash),
    ensures
        least_generation(next) > pin.minimum_generation,
        next.locally_confirmed == pin.locally_confirmed,
{
}

} // verus!
