//! Stored session credentials: what a profile keeps of a login, and when it uses,
//! refreshes or drops it.
use vstd::prelude::*;
use vstd::string::*;
use crate::error::ClientError;
use crate::ids;
use crate::organization_flow::parse_uuid;
use crate::protocol::account::DeviceEnrollmentDto;
use crate::text::str_eq;

verus! {

pub const SESSION_TOKEN_SET_VERSION: u8 = 2;

pub const ACCESS_TOKEN_REFRESH_SKEW_MS: i64 = 60_000;

pub const KEY_LEN: usize = 32;

pub const ACCOUNT_ROOT_PRIVATE_LEN: usize = 64;

/// What the account server refuses a request with.
#[derive(Debug, Clone, Copy, PartialEq, Eq, Structural)]
pub enum AccountClientError {
    InvalidGrant,
    EntitlementRequired,
    Server(u16),
    Other,
}

pub open spec fn account_error(error: AccountClientError) -> ClientError {
    match error {
        AccountClientError::EntitlementRequired => ClientError::EntitlementRequired,
        _ => ClientError::AccountRequest,
    }
}

/// The client error that a refusal of the account server is reported as.
pub fn map_account_client_error(error: AccountClientError) -> (r: ClientError)
    ensures
        r == account_error(error),
{
    match error {
        AccountClientError::EntitlementRequired => ClientError::EntitlementRequired,
        _ => ClientError::AccountRequest,
    }
}

/// The tokens of a session, as the server hands them out.
pub struct AccountTokenSet {
    pub access_token: String,
    pub access_expires_at_ms: i64,
    pub refresh_token: String,
    pub refresh_expires_at_ms: i64,
}

/// The tokens of an active session, as they are stored, bound to the server that
/// issued them.
pub struct StoredSessionTokens {
    pub version: u8,
    pub issuer: String,
    pub access_token: String,
    pub access_expires_at_ms: i64,
    pub refresh_token: String,
    pub refresh_expires_at_ms: i64,
}

impl StoredSessionTokens {
    /// What is stored of a server's tokens.
    pub open spec fn stores(self, issuer: Seq<char>, tokens: AccountTokenSet) -> bool {
        &&& self.version == SESSION_TOKEN_SET_VERSION
        &&& self.issuer@ == issuer
        &&& self.access_token@ == tokens.access_token@
        &&& self.access_expires_at_ms == tokens.access_expires_at_ms
        &&& self.refresh_token@ == tokens.refresh_token@
        &&& self.refresh_expires_at_ms == tokens.refresh_expires_at_ms
    }

    pub fn from_account_tokens(issuer: &str, tokens: &AccountTokenSet) -> (r: StoredSessionTokens)
        ensures
            r.stores(issuer@, *tokens),
    {
        StoredSessionTokens {
            version: SESSION_TOKEN_SET_VERSION,
            issuer: issuer.to_owned(),
            access_token: tokens.access_token.clone(),
            access_expires_at_ms: tokens.access_expires_at_ms,
            refresh_token: tokens.refresh_token.clone(),
            refresh_expires_at_ms: tokens.refresh_expires_at_ms,
        }
    }

    /// Tokens of the current version, issued by a server named in its canonical form,
    /// present and with times.
    pub open spec fn valid(self, canonical_issuer: Option<Seq<char>>) -> bool {
        &&& self.version == SESSION_TOKEN_SET_VERSION
        &&& canonical_issuer == Some(self.issuer@)
        &&& self.access_token@.len() > 0
        &&& self.refresh_token@.len() > 0
        &&& self.access_expires_at_ms > 0
        &&& self.refresh_expires_at_ms > 0
    }

    /// Checks stored tokens; `canonical_issuer` is the canonical origin of their issuer,
    /// where it has one.
    pub fn validate(&self, canonical_issuer: &Option<String>) -> (r: Result<(), ClientError>)
        ensures
            r == (if self.valid(origin_view(*canonical_issuer)) {
                Ok::<(), ClientError>(())
            } else {
                Err(ClientError::IncompleteAccountState)
            }),
    {
        if self.version != SESSION_TOKEN_SET_VERSION || !is_canonical(
            &self.issuer,
            canonical_issuer,
        ) || self.access_token.as_str().is_empty() || self.refresh_token.as_str().is_empty()
            || self.access_expires_at_ms <= 0 || self.refresh_expires_at_ms <= 0 {
            return Err(ClientError::IncompleteAccountState);
        }
        Ok(())
    }
}

/// An optional origin as characters.
pub open spec fn origin_view(origin: Option<String>) -> Option<Seq<char>> {
    match origin {
        Some(text) => Some(text@),
        None => None,
    }
}

fn is_canonical(issuer: &String, canonical: &Option<String>) -> (r: bool)
    ensures
        r == (origin_view(*canonical) == Some(issuer@)),
{
    match canonical {
        None => false,
        Some(origin) => str_eq(origin.as_str(), issuer.as_str()),
    }
}

/// The account a session belongs to, and its tokens.
pub struct AccountSession {
    pub user_id: String,
    pub tenant_id: String,
    pub device_id: String,
    pub email: String,
    pub tokens: AccountTokenSet,
}

/// The keys of an account, the root keys in their encoding; the public root has none
/// where it cannot be encoded.
pub struct AccountKeyMaterial {
    pub generation: u64,
    pub tenant_generation: u64,
    pub master_key: [u8; 32],
    pub account_root_private: Vec<u8>,
    pub account_root_public: Option<Vec<u8>>,
    pub tenant_root_dek: [u8; 32],
}

/// A login that the server has not certified yet. The device identity is in its
/// encoding, where it has one.
pub struct AccountLoginProvisional {
    pub session: AccountSession,
    pub local_wrapped_master_key: Vec<u8>,
    pub keys: AccountKeyMaterial,
    pub device_identity: Option<Vec<u8>>,
    pub enrollment: DeviceEnrollmentDto,
    pub challenge_expires_at_ms: i64,
}

/// A login that the server has not certified yet, as it is stored.
pub struct StoredPendingLogin {
    pub version: u8,
    pub issuer: String,
    pub email: String,
    pub user_id: String,
    pub tenant_id: String,
    pub device_id: String,
    pub access_token: String,
    pub access_expires_at_ms: i64,
    pub refresh_token: String,
    pub refresh_expires_at_ms: i64,
    pub challenge_expires_at_ms: i64,
    pub local_wrapped_master_key: Vec<u8>,
    pub generation: u64,
    pub tenant_generation: u64,
    pub master_key: Vec<u8>,
    pub account_root_private: Vec<u8>,
    pub account_root_public: Vec<u8>,
    pub tenant_root_dek: Vec<u8>,
    pub device_identity: Vec<u8>,
    pub enrollment_suite_id: u16,
    pub enrollment_account_root_public: String,
    pub enrollment_device_certificate: String,
    pub enrollment_certificate_fingerprint: String,
    pub enrollment_proof_signature: String,
}

fn copy_vec(bytes: &Vec<u8>) -> (r: Vec<u8>)
    ensures
        r@ == bytes@,
{
    let out = crate::bytes::slice_vec(bytes.as_slice(), 0, bytes.len());
    proof {
        assert(out@ =~= bytes@);
    }
    out
}

fn copy_key(key: &[u8; 32]) -> (r: Vec<u8>)
    ensures
        r@ == key@,
{
    let out = crate::bytes::slice_vec(key, 0, 32);
    proof {
        assert(out@ =~= key@);
    }
    out
}

fn key_of(bytes: &Vec<u8>) -> (r: [u8; 32])
    requires
        bytes@.len() == 32,
    ensures
        r@ == bytes@,
{
    let mut out: [u8; 32] = [0; 32];
    let mut i: usize = 0;
    while i < 32
        invariant
            i <= 32,
            bytes@.len() == 32,
            out@.len() == 32,
            forall|j: int| 0 <= j < i ==> out@[j] == bytes@[j],
        decreases 32 - i,
    {
        out[i] = bytes[i];
        i = i + 1;
    }
    proof {
        assert(out@ =~= bytes@);
    }
    out
}

/// Whether the parts of a stored login that only the key code can read are readable.
#[derive(Debug, Clone, Copy, PartialEq, Eq, Structural)]
pub struct StoredKeysReadable {
    pub account_root_private: bool,
    pub account_root_public: bool,
    pub device_identity: bool,
}

impl StoredPendingLogin {
    /// What is stored of a login.
    pub open spec fn stores(self, issuer: Seq<char>, login: AccountLoginProvisional) -> bool {
        &&& self.version == SESSION_TOKEN_SET_VERSION
        &&& self.issuer@ == issuer
        &&& self.email@ == login.session.email@
        &&& self.user_id@ == login.session.user_id@
        &&& self.tenant_id@ == login.session.tenant_id@
        &&& self.device_id@ == login.session.device_id@
        &&& self.access_token@ == login.session.tokens.access_token@
        &&& self.access_expires_at_ms == login.session.tokens.access_expires_at_ms
        &&& self.refresh_token@ == login.session.tokens.refresh_token@
        &&& self.refresh_expires_at_ms == login.session.tokens.refresh_expires_at_ms
        &&& self.challenge_expires_at_ms == login.challenge_expires_at_ms
        &&& self.local_wrapped_master_key@ == login.local_wrapped_master_key@
        &&& self.generation == login.keys.generation
        &&& self.tenant_generation == login.keys.tenant_generation
        &&& self.master_key@ == login.keys.master_key@
        &&& self.account_root_private@ == login.keys.account_root_private@
        &&& Some(self.account_root_public@) == bytes_view(login.keys.account_root_public)
        &&& self.tenant_root_dek@ == login.keys.tenant_root_dek@
        &&& Some(self.device_identity@) == bytes_view(login.device_identity)
        &&& self.enrollment_suite_id == login.enrollment.suite_id
        &&& self.enrollment_account_root_public@ == login.enrollment.account_root_public@
        &&& self.enrollment_device_certificate@ == login.enrollment.device_certificate@
        &&& self.enrollment_certificate_fingerprint@ == login.enrollment.certificate_fingerprint@
        &&& self.enrollment_proof_signature@ == login.enrollment.proof_signature@
    }

    /// Prepares a login for storage.
    pub fn from_provisional(issuer: &str, login: &AccountLoginProvisional) -> (r: Result<
        StoredPendingLogin,
        ClientError,
    >)
        ensures
            if login.keys.account_root_public is None {
                r is Err && r->Err_0 == ClientError::AccountBoundUnavailable
            } else if login.device_identity is None {
                r is Err && r->Err_0 == ClientError::AccountRequest
            } else {
                r is Ok && r->Ok_0.stores(issuer@, *login)
            },
    {
        let account_root_public = match &login.keys.account_root_public {
            None => {
                return Err(ClientError::AccountBoundUnavailable);
            },
            Some(bytes) => copy_vec(bytes),
        };
        let device_identity = match &login.device_identity {
            None => {
                return Err(ClientError::AccountRequest);
            },
            Some(bytes) => copy_vec(bytes),
        };
        Ok(
            StoredPendingLogin {
                version: SESSION_TOKEN_SET_VERSION,
                issuer: issuer.to_owned(),
                email: login.session.email.clone(),
                user_id: login.session.user_id.clone(),
                tenant_id: login.session.tenant_id.clone(),
                device_id: login.session.device_id.clone(),
                access_token: login.session.tokens.access_token.clone(),
                access_expires_at_ms: login.session.tokens.access_expires_at_ms,
                refresh_token: login.session.tokens.refresh_token.clone(),
                refresh_expires_at_ms: login.session.tokens.refresh_expires_at_ms,
                challenge_expires_at_ms: login.challenge_expires_at_ms,
                local_wrapped_master_key: copy_vec(&login.local_wrapped_master_key),
                generation: login.keys.generation,
                tenant_generation: login.keys.tenant_generation,
                master_key: copy_key(&login.keys.master_key),
                account_root_private: copy_vec(&login.keys.account_root_private),
                account_root_public,
                tenant_root_dek: copy_key(&login.keys.tenant_root_dek),
                device_identity,
                enrollment_suite_id: login.enrollment.suite_id,
                enrollment_account_root_public: login.enrollment.account_root_public.clone(),
                enrollment_device_certificate: login.enrollment.device_certificate.clone(),
                enrollment_certificate_fingerprint:
                    login.enrollment.certificate_fingerprint.clone(),
                enrollment_proof_signature: login.enrollment.proof_signature.clone(),
            },
        )
    }

    /// A stored login of the current version with everything that going on needs.
    pub open spec fn valid(self, canonical_issuer: Option<Seq<char>>) -> bool {
        &&& self.version == SESSION_TOKEN_SET_VERSION
        &&& canonical_issuer == Some(self.issuer@)
        &&& self.email@.len() > 0
        &&& self.access_token@.len() > 0
        &&& self.refresh_token@.len() > 0
        &&& self.access_expires_at_ms > 0
        &&& self.refresh_expires_at_ms > 0
        &&& self.challenge_expires_at_ms > 0
        &&& self.generation != 0
        &&& self.tenant_generation != 0
        &&& self.master_key@.len() == KEY_LEN
        &&& self.account_root_private@.len() == ACCOUNT_ROOT_PRIVATE_LEN
        &&& self.tenant_root_dek@.len() == KEY_LEN
        &&& self.device_identity@.len() > 0
        &&& ids::parsed(self.user_id@) is Some
        &&& ids::parsed(self.tenant_id@) is Some
        &&& ids::parsed(self.device_id@) is Some
    }

    /// Checks a stored login.
    pub fn validate(&self, canonical_issuer: &Option<String>) -> (r: Result<(), ClientError>)
        ensures
            r == (if self.valid(origin_view(*canonical_issuer)) {
                Ok::<(), ClientError>(())
            } else {
                Err(ClientError::IncompleteAccountState)
            }),
    {
        if self.version != SESSION_TOKEN_SET_VERSION || !is_canonical(
            &self.issuer,
            canonical_issuer,
        ) || self.email.as_str().is_empty() || self.access_token.as_str().is_empty()
            || self.refresh_token.as_str().is_empty() || self.access_expires_at_ms <= 0
            || self.refresh_expires_at_ms <= 0 || self.challenge_expires_at_ms <= 0
            || self.generation == 0 || self.tenant_generation == 0 || self.master_key.len()
            != KEY_LEN || self.account_root_private.len() != ACCOUNT_ROOT_PRIVATE_LEN
            || self.tenant_root_dek.len() != KEY_LEN || self.device_identity.len() == 0 {
            return Err(ClientError::IncompleteAccountState);
        }
        if parse_uuid(self.user_id.as_str()).is_err() || parse_uuid(
            self.tenant_id.as_str(),
        ).is_err() || parse_uuid(self.device_id.as_str()).is_err() {
            return Err(ClientError::IncompleteAccountState);
        }
        Ok(())
    }

    /// Takes up a stored login again.
    pub fn to_provisional(
        &self,
        canonical_issuer: &Option<String>,
        readable: StoredKeysReadable,
    ) -> (r: Result<AccountLoginProvisional, ClientError>)
        ensures
            if self.valid(origin_view(*canonical_issuer)) && readable.account_root_private
                && readable.account_root_public && readable.device_identity {
                r is Ok && self.stores(self.issuer@, r->Ok_0)
            } else {
                r is Err && r->Err_0 == ClientError::IncompleteAccountState
            },
    {
        match self.validate(canonical_issuer) {
            Err(error) => {
                return Err(error);
            },
            Ok(()) => {},
        }
        if !readable.account_root_private || !readable.account_root_public
            || !readable.device_identity {
            return Err(ClientError::IncompleteAccountState);
        }
        Ok(
            AccountLoginProvisional {
                session: AccountSession {
                    user_id: self.user_id.clone(),
                    tenant_id: self.tenant_id.clone(),
                    device_id: self.device_id.clone(),
                    email: self.email.clone(),
                    tokens: AccountTokenSet {
                        access_token: self.access_token.clone(),
                        access_expires_at_ms: self.access_expires_at_ms,
                        refresh_token: self.refresh_token.clone(),
                        refresh_expires_at_ms: self.refresh_expires_at_ms,
                    },
                },
                local_wrapped_master_key: copy_vec(&self.local_wrapped_master_key),
                keys: AccountKeyMaterial {
                    generation: self.generation,
                    tenant_generation: self.tenant_generation,
                    master_key: key_of(&self.master_key),
                    account_root_private: copy_vec(&self.account_root_private),
                    account_root_public: Some(copy_vec(&self.account_root_public)),
                    tenant_root_dek: key_of(&self.tenant_root_dek),
                },
                device_identity: Some(copy_vec(&self.device_identity)),
                enrollment: DeviceEnrollmentDto {
                    suite_id: self.enrollment_suite_id,
                    account_root_public: self.enrollment_account_root_public.clone(),
                    device_certificate: self.enrollment_device_certificate.clone(),
                    certificate_fingerprint: self.enrollment_certificate_fingerprint.clone(),
                    proof_signature: self.enrollment_proof_signature.clone(),
                },
                challenge_expires_at_ms: self.challenge_expires_at_ms,
            },
        )
    }
}

/// Optional bytes as a sequence.
pub open spec fn bytes_view(bytes: Option<Vec<u8>>) -> Option<Seq<u8>> {
    match bytes {
        Some(held) => Some(held@),
        None => None,
    }
}

/// Two logins with the same contents.
pub open spec fn same_login(a: AccountLoginProvisional, b: AccountLoginProvisional) -> bool {
    &&& a.session.user_id@ == b.session.user_id@
    &&& a.session.tenant_id@ == b.session.tenant_id@
    &&& a.session.device_id@ == b.session.device_id@
    &&& a.session.email@ == b.session.email@
    &&& a.session.tokens.access_token@ == b.session.tokens.access_token@
    &&& a.session.tokens.access_expires_at_ms == b.session.tokens.access_expires_at_ms
    &&& a.session.tokens.refresh_token@ == b.session.tokens.refresh_token@
    &&& a.session.tokens.refresh_expires_at_ms == b.session.tokens.refresh_expires_at_ms
    &&& a.local_wrapped_master_key@ == b.local_wrapped_master_key@
    &&& a.keys.generation == b.keys.generation
    &&& a.keys.tenant_generation == b.keys.tenant_generation
    &&& a.keys.master_key@ == b.keys.master_key@
    &&& a.keys.account_root_private@ == b.keys.account_root_private@
    &&& bytes_view(a.keys.account_root_public) == bytes_view(b.keys.account_root_public)
    &&& a.keys.tenant_root_dek@ == b.keys.tenant_root_dek@
    &&& bytes_view(a.device_identity) == bytes_view(b.device_identity)
    &&& a.enrollment.suite_id == b.enrollment.suite_id
    &&& a.enrollment.account_root_public@ == b.enrollment.account_root_public@
    &&& a.enrollment.device_certificate@ == b.enrollment.device_certificate@
    &&& a.enrollment.certificate_fingerprint@ == b.enrollment.certificate_fingerprint@
    &&& a.enrollment.proof_signature@ == b.enrollment.proof_signature@
    &&& a.challenge_expires_at_ms == b.challenge_expires_at_ms
}

/// A login that was stored and taken up again is the login that was stored.
pub proof fn law_pending_login_round_trip(
    stored: StoredPendingLogin,
    issuer: Seq<char>,
    login: AccountLoginProvisional,
    taken_up: AccountLoginProvisional,
)
    requires
        stored.stores(issuer, login),
        stored.stores(stored.issuer@, taken_up),
    ensures
        same_login(login, taken_up),
{
}

/// What a profile stores of its session.
pub enum StoredSessionCredential {
    Active(StoredSessionTokens),
    PendingDeviceCertification(Box<StoredPendingLogin>),
}

impl StoredSessionCredential {
    pub open spec fn issuer_view(self) -> Seq<char> {
        match self {
            StoredSessionCredential::Active(tokens) => tokens.issuer@,
            StoredSessionCredential::PendingDeviceCertification(pending) => pending.issuer@,
        }
    }

    pub open spec fn refresh_token_view(self) -> Seq<char> {
        match self {
            StoredSessionCredential::Active(tokens) => tokens.refresh_token@,
            StoredSessionCredential::PendingDeviceCertification(pending) => pending.refresh_token@,
        }
    }

    pub open spec fn valid(self, canonical_issuer: Option<Seq<char>>) -> bool {
        match self {
            StoredSessionCredential::Active(tokens) => tokens.valid(canonical_issuer),
            StoredSessionCredential::PendingDeviceCertification(pending) => pending.valid(
                canonical_issuer,
            ),
        }
    }

    /// The server that issued the credential.
    pub fn issuer(&self) -> (r: &String)
        ensures
            r@ == self.issuer_view(),
    {
        match self {
            StoredSessionCredential::Active(tokens) => &tokens.issuer,
            StoredSessionCredential::PendingDeviceCertification(pending) => &pending.issuer,
        }
    }

    /// Whom logging out must tell: the issuing server and the refresh token to revoke.
    pub fn logout_target(&self) -> (r: (String, String))
        ensures
            r.0@ == self.issuer_view(),
            r.1@ == self.refresh_token_view(),
    {
        match self {
            StoredSessionCredential::Active(tokens) => (
                tokens.issuer.clone(),
                tokens.refresh_token.clone(),
            ),
            StoredSessionCredential::PendingDeviceCertification(pending) => (
                pending.issuer.clone(),
                pending.refresh_token.clone(),
            ),
        }
    }
}

/// What a key store holds of a session: nothing, something unreadable, or a credential.
pub enum StoredCredentialRead {
    Absent,
    Unreadable,
    Read(StoredSessionCredential),
}

pub open spec fn credential_loaded(
    stored: Result<StoredCredentialRead, ClientError>,
    canonical_issuer: Option<Seq<char>>,
) -> Result<Option<StoredSessionCredential>, ClientError> {
    match stored {
        Err(error) => Err(error),
        Ok(StoredCredentialRead::Absent) => Ok(None),
        Ok(StoredCredentialRead::Unreadable) => Err(ClientError::IncompleteAccountState),
        Ok(StoredCredentialRead::Read(credential)) => if credential.valid(canonical_issuer) {
            Ok(Some(credential))
        } else {
            Err(ClientError::IncompleteAccountState)
        },
    }
}

/// Takes a stored credential, unless it is unreadable or incomplete.
pub fn load_session_credential(
    stored: Result<StoredCredentialRead, ClientError>,
    canonical_issuer: &Option<String>,
) -> (r: Result<Option<StoredSessionCredential>, ClientError>)
    ensures
        r == credential_loaded(stored, origin_view(*canonical_issuer)),
{
    let credential = match stored {
        Err(error) => {
            return Err(error);
        },
        Ok(StoredCredentialRead::Absent) => {
            return Ok(None);
        },
        Ok(StoredCredentialRead::Unreadable) => {
            return Err(ClientError::IncompleteAccountState);
        },
        Ok(StoredCredentialRead::Read(credential)) => credential,
    };
    let checked: Result<(), ClientError> = match &credential {
        StoredSessionCredential::Active(tokens) => tokens.validate(canonical_issuer),
        StoredSessionCredential::PendingDeviceCertification(pending) => pending.validate(
            canonical_issuer,
        ),
    };
    match checked {
        Err(error) => Err(error),
        Ok(()) => Ok(Some(credential)),
    }
}

/// The tokens of an active session.
pub fn load_session_tokens(credential: Result<Option<StoredSessionCredential>, ClientError>) -> (r:
    Result<Option<StoredSessionTokens>, ClientError>)
    ensures
        match credential {
            Err(error) => r is Err && r->Err_0 == error,
            Ok(Some(StoredSessionCredential::Active(tokens))) => r == Ok::<_, ClientError>(
                Some(tokens),
            ),
            Ok(_) => r is Ok && r->Ok_0 is None,
        },
{
    match credential {
        Err(error) => Err(error),
        Ok(Some(StoredSessionCredential::Active(tokens))) => Ok(Some(tokens)),
        Ok(_) => Ok(None),
    }
}

/// The login that still waits for certification.
pub fn load_pending_login(credential: Result<Option<StoredSessionCredential>, ClientError>) -> (r:
    Result<Option<StoredPendingLogin>, ClientError>)
    ensures
        match credential {
            Err(error) => r is Err && r->Err_0 == error,
            Ok(Some(StoredSessionCredential::PendingDeviceCertification(pending))) => r == Ok::<
                _,
                ClientError,
            >(Some(*pending)),
            Ok(_) => r is Ok && r->Ok_0 is None,
        },
{
    match credential {
        Err(error) => Err(error),
        Ok(Some(StoredSessionCredential::PendingDeviceCertification(pending))) => Ok(
            Some(*pending),
        ),
        Ok(_) => Ok(None),
    }
}

/// The server that a stored credential binds the profile to.
pub fn stored_session_credential_issuer(
    credential: &Result<Option<StoredSessionCredential>, ClientError>,
) -> (r: Result<Option<String>, ClientError>)
    ensures
        match *credential {
            Err(error) => r is Err && r->Err_0 == error,
            Ok(None) => r is Ok && r->Ok_0 is None,
            Ok(Some(held)) => r is Ok && origin_view(r->Ok_0) == Some(held.issuer_view()),
        },
{
    match credential {
        Err(error) => Err(*error),
        Ok(None) => Ok(None),
        Ok(Some(held)) => Ok(Some(held.issuer().clone())),
    }
}

/// Whether tokens may be stored.
pub fn store_session_tokens(
    tokens: StoredSessionTokens,
    canonical_issuer: &Option<String>,
) -> (r: Result<StoredSessionCredential, ClientError>)
    ensures
        if tokens.valid(origin_view(*canonical_issuer)) {
            r is Ok && r->Ok_0 == StoredSessionCredential::Active(tokens)
        } else {
            r is Err && r->Err_0 == ClientError::IncompleteAccountState
        },
{
    match tokens.validate(canonical_issuer) {
        Err(error) => Err(error),
        Ok(()) => Ok(StoredSessionCredential::Active(tokens)),
    }
}

/// Whether a pending login may be stored.
pub fn store_pending_login(
    pending: StoredPendingLogin,
    canonical_issuer: &Option<String>,
) -> (r: Result<StoredSessionCredential, ClientError>)
    ensures
        if pending.valid(origin_view(*canonical_issuer)) {
            r is Ok && r->Ok_0 == StoredSessionCredential::PendingDeviceCertification(
                Box::new(pending),
            )
        } else {
            r is Err && r->Err_0 == ClientError::IncompleteAccountState
        },
{
    match pending.validate(canonical_issuer) {
        Err(error) => Err(error),
        Ok(()) => Ok(StoredSessionCredential::PendingDeviceCertification(Box::new(pending))),
    }
}

/// What may be stored is what is loaded: a credential that passed the check on the way
/// in passes it on the way out.
pub proof fn law_stored_credential_loads_back(
    credential: StoredSessionCredential,
    canonical_issuer: Option<Seq<char>>,
)
    requires
        credential.valid(canonical_issuer),
    ensures
        credential_loaded(Ok(StoredCredentialRead::Read(credential)), canonical_issuer) == Ok::<
            _,
            ClientError,
        >(Some(credential)),
        canonical_issuer == Some(credential.issuer_view()),
{
}

/// What to do with stored tokens at some time.
#[derive(Debug, Clone, Copy, PartialEq, Eq, Structural)]
pub enum AccessTokenStep {
    /// The session is over: drop it.
    Invalidate,
    /// Ask the server for new tokens.
    Refresh,
    /// Use the stored access token.
    UseStored,
}

/// The end of the validity of an access token is anticipated by the refresh skew.
pub open spec fn token_step(
    now: i64,
    access_expires_at_ms: i64,
    refresh_expires_at_ms: i64,
    force_refresh: bool,
) -> AccessTokenStep {
    if refresh_expires_at_ms <= now {
        AccessTokenStep::Invalidate
    } else if force_refresh || access_expires_at_ms <= now + ACCESS_TOKEN_REFRESH_SKEW_MS || now
        + ACCESS_TOKEN_REFRESH_SKEW_MS > i64::MAX {
        AccessTokenStep::Refresh
    } else {
        AccessTokenStep::UseStored
    }
}

/// Decides how to come by an access token.
pub fn access_token_step(tokens: &StoredSessionTokens, now: i64, force_refresh: bool) -> (r:
    AccessTokenStep)
    ensures
        r == token_step(
            now,
            tokens.access_expires_at_ms,
            tokens.refresh_expires_at_ms,
            force_refresh,
        ),
{
    if tokens.refresh_expires_at_ms <= now {
        return AccessTokenStep::Invalidate;
    }
    let horizon: i64 = if now > i64::MAX - ACCESS_TOKEN_REFRESH_SKEW_MS {
        i64::MAX
    } else {
        now + ACCESS_TOKEN_REFRESH_SKEW_MS
    };
    if force_refresh || tokens.access_expires_at_ms <= horizon {
        AccessTokenStep::Refresh
    } else {
        AccessTokenStep::UseStored
    }
}

/// What a refresh came to: tokens to store, a session to drop, or an error.
pub enum RefreshOutcome {
    Store(StoredSessionTokens),
    Invalidate(ClientError),
    Fail(ClientError),
}

/// Decides what follows a refresh. A refused grant ends the session; any other failure
/// leaves it alone.
pub fn after_refresh(issuer: &str, reply: Result<AccountTokenSet, AccountClientError>) -> (r:
    RefreshOutcome)
    ensures
        match reply {
            Ok(tokens) => r is Store && r->Store_0.stores(issuer@, tokens),
            Err(AccountClientError::InvalidGrant) => r == RefreshOutcome::Invalidate(
                ClientError::AccountRequest,
            ),
            Err(error) => r == RefreshOutcome::Fail(account_error(error)),
        },
{
    match reply {
        Ok(tokens) => RefreshOutcome::Store(
            StoredSessionTokens::from_account_tokens(issuer, &tokens),
        ),
        Err(AccountClientError::InvalidGrant) => RefreshOutcome::Invalidate(
            ClientError::AccountRequest,
        ),
        Err(error) => RefreshOutcome::Fail(map_account_client_error(error)),
    }
}

/// An access token that is handed out is never used past its stored validity, and a
/// session is never refreshed once its refresh token is over.
pub proof fn law_tokens_are_used_in_time(
    now: i64,
    access_expires_at_ms: i64,
    refresh_expires_at_ms: i64,
    force_refresh: bool,
)
    ensures
        ({
            let step = token_step(now, access_expires_at_ms, refresh_expires_at_ms, force_refresh);
            &&& step == AccessTokenStep::UseStored ==> access_expires_at_ms > now
                + ACCESS_TOKEN_REFRESH_SKEW_MS && !force_refresh
            &&& step == AccessTokenStep::Refresh ==> refresh_expires_at_ms > now
        }),
{
}

/// An access token with the server it may be sent to.
pub struct OriginBoundAccessToken {
    pub issuer: String,
    pub token: String,
}

/// The access token of stored tokens.
pub fn bound_access_token(tokens: &StoredSessionTokens) -> (r: OriginBoundAccessToken)
    ensures
        r.issuer@ == tokens.issuer@,
        r.token@ == tokens.access_token@,
{
    OriginBoundAccessToken { issuer: tokens.issuer.clone(), token: tokens.access_token.clone() }
}

/// The access token that a profile holds, whatever its age.
pub fn current_access_token(tokens: &Option<StoredSessionTokens>) -> (r: Option<
    OriginBoundAccessToken,
>)
    ensures
        match *tokens {
            None => r is None,
            Some(held) => {
                &&& r is Some
                &&& r.unwrap().issuer@ == held.issuer@
                &&& r.unwrap().token@ == held.access_token@
            },
        },
{
    match tokens {
        None => None,
        Some(held) => Some(bound_access_token(held)),
    }
}

/// How an access token is come by.
pub enum TokenStep {
    ReadClock { tokens: StoredSessionTokens, force_refresh: bool },
    /// Delete the credential and drop the session; there is no token then.
    Invalidate,
    /// Ask the issuer for new tokens.
    Refresh { tokens: StoredSessionTokens },
    /// Store new tokens.
    Store { tokens: StoredSessionTokens },
    Done(Result<OriginBoundAccessToken, ClientError>),
}

/// What a step came to.
pub enum TokenEvent {
    Clock(Result<i64, ClientError>),
    Invalidated(Result<(), ClientError>),
    Refreshed(Result<AccountTokenSet, AccountClientError>),
    Stored(Result<(), ClientError>),
}

/// A token is only looked for where a session is stored.
pub fn begin_access_token(
    tokens: Result<Option<StoredSessionTokens>, ClientError>,
    force_refresh: bool,
) -> (r: TokenStep)
    ensures
        match tokens {
            Err(error) => r == TokenStep::Done(Err(error)),
            Ok(None) => r == TokenStep::Done(Err(ClientError::AccountRequest)),
            Ok(Some(held)) => r == (TokenStep::ReadClock { tokens: held, force_refresh }),
        },
{
    match tokens {
        Err(error) => TokenStep::Done(Err(error)),
        Ok(None) => TokenStep::Done(Err(ClientError::AccountRequest)),
        Ok(Some(held)) => TokenStep::ReadClock { tokens: held, force_refresh },
    }
}

/// The token of these tokens is handed out.
pub open spec fn hands_out(r: TokenStep, tokens: StoredSessionTokens) -> bool {
    &&& r is Done
    &&& r->Done_0 is Ok
    &&& r->Done_0->Ok_0.issuer@ == tokens.issuer@
    &&& r->Done_0->Ok_0.token@ == tokens.access_token@
}

/// What follows a step. A token that was refreshed is handed out once it is stored, and a
/// session that is over, or that the server does not know any more, is dropped.
pub open spec fn token_step_follows(step: TokenStep, event: TokenEvent, r: TokenStep) -> bool {
    let odd = r == TokenStep::Done(Err(ClientError::RuntimeState));
    match step {
        TokenStep::ReadClock { tokens, force_refresh } => match event {
            TokenEvent::Clock(Err(error)) => r == TokenStep::Done(Err(error)),
            TokenEvent::Clock(Ok(now)) => match token_step(
                now,
                tokens.access_expires_at_ms,
                tokens.refresh_expires_at_ms,
                force_refresh,
            ) {
                AccessTokenStep::Invalidate => r == TokenStep::Invalidate,
                AccessTokenStep::Refresh => r == (TokenStep::Refresh { tokens }),
                AccessTokenStep::UseStored => hands_out(r, tokens),
            },
            _ => odd,
        },
        TokenStep::Invalidate => match event {
            TokenEvent::Invalidated(Err(error)) => r == TokenStep::Done(Err(error)),
            TokenEvent::Invalidated(Ok(_)) => r == TokenStep::Done(
                Err(ClientError::AccountRequest),
            ),
            _ => odd,
        },
        TokenStep::Refresh { tokens } => match event {
            TokenEvent::Refreshed(Ok(fresh)) => r is Store && r->Store_tokens.stores(
                tokens.issuer@,
                fresh,
            ),
            TokenEvent::Refreshed(Err(AccountClientError::InvalidGrant)) => r
                == TokenStep::Invalidate,
            TokenEvent::Refreshed(Err(error)) => r == TokenStep::Done(Err(account_error(error))),
            _ => odd,
        },
        TokenStep::Store { tokens } => match event {
            TokenEvent::Stored(Err(error)) => r == TokenStep::Done(Err(error)),
            TokenEvent::Stored(Ok(_)) => hands_out(r, tokens),
            _ => odd,
        },
        TokenStep::Done(_) => r == step,
    }
}

/// Decides how an access token is come by.
pub fn access_token(step: TokenStep, event: TokenEvent) -> (r: TokenStep)
    ensures
        token_step_follows(step, event, r),
{
    match step {
        TokenStep::ReadClock { tokens, force_refresh } => match event {
            TokenEvent::Clock(Err(error)) => TokenStep::Done(Err(error)),
            TokenEvent::Clock(Ok(now)) => match access_token_step(&tokens, now, force_refresh) {
                AccessTokenStep::Invalidate => TokenStep::Invalidate,
                AccessTokenStep::Refresh => TokenStep::Refresh { tokens },
                AccessTokenStep::UseStored => TokenStep::Done(Ok(bound_access_token(&tokens))),
            },
            _ => TokenStep::Done(Err(ClientError::RuntimeState)),
        },
        TokenStep::Invalidate => match event {
            TokenEvent::Invalidated(Err(error)) => TokenStep::Done(Err(error)),
            TokenEvent::Invalidated(Ok(())) => TokenStep::Done(Err(ClientError::AccountRequest)),
            _ => TokenStep::Done(Err(ClientError::RuntimeState)),
        },
        TokenStep::Refresh { tokens } => match event {
            TokenEvent::Refreshed(reply) => match after_refresh(tokens.issuer.as_str(), reply) {
                RefreshOutcome::Store(fresh) => TokenStep::Store { tokens: fresh },
                RefreshOutcome::Invalidate(_) => TokenStep::Invalidate,
                RefreshOutcome::Fail(error) => TokenStep::Done(Err(error)),
            },
            _ => TokenStep::Done(Err(ClientError::RuntimeState)),
        },
        TokenStep::Store { tokens } => match event {
            TokenEvent::Stored(Err(error)) => TokenStep::Done(Err(error)),
            TokenEvent::Stored(Ok(())) => TokenStep::Done(Ok(bound_access_token(&tokens))),
            _ => TokenStep::Done(Err(ClientError::RuntimeState)),
        },
        TokenStep::Done(result) => TokenStep::Done(result),
    }
}

/// A token is handed out either from stored tokens that are still valid or from tokens
/// that were just stored, and it stays bound to the server that issued the session.
pub proof fn law_handed_out_tokens_are_stored(step: TokenStep, event: TokenEvent, r: TokenStep)
    requires
        token_step_follows(step, event, r),
        !(step is Done),
        r is Done,
        r->Done_0 is Ok,
    ensures
        match step {
            TokenStep::ReadClock { tokens, .. } => {
                &&& event is Clock
                &&& event->Clock_0 is Ok
                &&& event->Clock_0->Ok_0 < tokens.access_expires_at_ms
                &&& event->Clock_0->Ok_0 < tokens.refresh_expires_at_ms
                &&& r->Done_0->Ok_0.issuer@ == tokens.issuer@
            },
            TokenStep::Store { tokens } => {
                &&& event is Stored
                &&& event->Stored_0 is Ok
                &&& r->Done_0->Ok_0.issuer@ == tokens.issuer@
            },
            _ => false,
        },
{
}

/// Refreshed tokens are bound to the server that issued the old ones.
pub proof fn law_refresh_keeps_the_issuer(step: TokenStep, event: TokenEvent, r: TokenStep)
    requires
        token_step_follows(step, event, r),
        step is Refresh,
        r is Store,
    ensures
        r->Store_tokens.issuer@ == step->Refresh_tokens.issuer@,
{
}

} // verus!
