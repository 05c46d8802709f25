//! Account and synchronization views that every frontend sees.
use vstd::prelude::*;
use crate::error::ClientErrorKind;
use crate::ids::UtcTime;

verus! {

/// The settings that a frontend may read and write. Internal metadata keys cannot be
/// named by this type.
#[derive(Debug, Clone, Copy, PartialEq, Eq, Structural)]
pub enum FrontendSettingKey {
    UiMode,
    OnboardingCompleted,
    CalendarWeekStart,
    TimerSettings,
    TimerRuntime,
}

#[derive(Debug, Clone, PartialEq, Eq)]
pub struct AccountSessionState {
    pub logged_in: bool,
    pub email: Option<String>,
    pub user_id: Option<String>,
    pub tenant_id: Option<String>,
    pub device_id: Option<String>,
    pub recovery_pending: bool,
}

impl AccountSessionState {
    /// The state without a session.
    pub open spec fn is_logged_out(self) -> bool {
        &&& !self.logged_in
        &&& self.email is None
        &&& self.user_id is None
        &&& self.tenant_id is None
        &&& self.device_id is None
        &&& !self.recovery_pending
    }

    pub fn logged_out() -> (r: AccountSessionState)
        ensures
            r.is_logged_out(),
    {
        AccountSessionState {
            logged_in: false,
            email: None,
            user_id: None,
            tenant_id: None,
            device_id: None,
            recovery_pending: false,
        }
    }
}

#[derive(Debug, Clone, PartialEq, Eq)]
pub struct AccountAuthResult {
    pub session: AccountSessionState,
    /// Handed out once, after registration, so that the user can keep it.
    pub recovery_key: Option<String>,
}

#[derive(Debug, Clone, PartialEq, Eq)]
pub struct BillingState {
    pub provider: String,
    pub provider_app_user_id: String,
    pub lookup_key: String,
    pub status: String,
    pub sync_allowed: bool,
    pub store_product_identifier: Option<String>,
    pub expires_at: Option<i64>,
    pub grace_expires_at: Option<i64>,
    pub will_renew: Option<bool>,
    pub environment: String,
    pub updated_at: Option<i64>,
}

#[derive(Debug, Clone, PartialEq, Eq)]
pub struct OrganizationSafetyState {
    pub owner_user_id: String,
    pub member_user_id: String,
    pub digest: String,
    pub decimal: String,
    pub qr_payload: String,
    pub verification_state: String,
    pub owner_confirmed: bool,
    pub member_confirmed: bool,
}

/// Short-lived authorization for the realtime wake-up channel. It is not `Debug`, so
/// that diagnostics cannot print the ticket by accident.
pub struct RealtimeTicket {
    pub websocket_url: String,
    pub ticket: String,
    pub expires_at: UtcTime,
}

/// How the most recent sync run failed.
#[derive(Debug, Clone, Copy, PartialEq, Eq, Structural)]
pub enum SyncRunFailure {
    UpgradeRequired,
    Unauthorized,
    EntitlementRequired,
    SyncLeaseBusy,
    LeaseLost,
    DatabaseBusy,
    ClockSkewRetryable,
    CredentialUnavailable,
    AccountBoundUnavailable,
    ProfileBusy,
    CredentialBusy,
    SyncFailed,
}

/// What a frontend sees of synchronization.
#[derive(Debug, Clone, Copy, PartialEq, Eq, Structural)]
pub struct SyncStatus {
    pub logged_in: bool,
    pub running: bool,
    pub last_success_at: Option<i64>,
    pub last_failure_at: Option<i64>,
    pub last_error: Option<SyncRunFailure>,
    pub pushed_count: usize,
    pub push_acked_count: usize,
    pub push_superseded_count: usize,
    pub pulled_count: usize,
    pub applied_count: usize,
    pub deleted_count: usize,
    pub decrypt_failed_count: usize,
    pub repush_count: usize,
    pub missing_key_quarantined_count: usize,
    pub corruption_quarantined_count: usize,
    pub resolved_quarantine_count: usize,
    pub upgrade_required: bool,
}

/// Stable classification of a sync failure. It holds no server response, database
/// detail, path, identifier or user input.
#[derive(Debug, Clone, Copy, PartialEq, Eq, Structural)]
pub enum SyncFailure {
    InvalidInput,
    NotFound,
    Conflict,
    Unauthorized,
    CredentialUnavailable,
    AccountBoundUnavailable,
    EntitlementRequired,
    UpgradeRequired,
    Busy,
    LeaseLost,
    ClockSkew,
    CryptoUnavailable,
    StorageFailure,
    SyncFailure,
    Internal,
}

impl SyncFailure {
    pub open spec fn kind_spec(self) -> ClientErrorKind {
        match self {
            SyncFailure::InvalidInput => ClientErrorKind::InvalidInput,
            SyncFailure::NotFound => ClientErrorKind::NotFound,
            SyncFailure::Conflict => ClientErrorKind::Conflict,
            SyncFailure::Unauthorized => ClientErrorKind::Unauthorized,
            SyncFailure::CredentialUnavailable => ClientErrorKind::CredentialUnavailable,
            SyncFailure::AccountBoundUnavailable => ClientErrorKind::AccountBoundUnavailable,
            SyncFailure::EntitlementRequired => ClientErrorKind::EntitlementRequired,
            SyncFailure::UpgradeRequired => ClientErrorKind::UpgradeRequired,
            SyncFailure::Busy => ClientErrorKind::Busy,
            SyncFailure::LeaseLost => ClientErrorKind::LeaseLost,
            SyncFailure::ClockSkew => ClientErrorKind::ClockSkew,
            SyncFailure::CryptoUnavailable => ClientErrorKind::CryptoUnavailable,
            SyncFailure::StorageFailure => ClientErrorKind::StorageFailure,
            SyncFailure::SyncFailure => ClientErrorKind::SyncFailure,
            SyncFailure::Internal => ClientErrorKind::Internal,
        }
    }

    /// The class of a failure.
    pub fn kind(self) -> (r: ClientErrorKind)
        ensures
            r == self.kind_spec(),
    {
        match self {
            SyncFailure::InvalidInput => ClientErrorKind::InvalidInput,
            SyncFailure::NotFound => ClientErrorKind::NotFound,
            SyncFailure::Conflict => ClientErrorKind::Conflict,
            SyncFailure::Unauthorized => ClientErrorKind::Unauthorized,
            SyncFailure::CredentialUnavailable => ClientErrorKind::CredentialUnavailable,
            SyncFailure::AccountBoundUnavailable => ClientErrorKind::AccountBoundUnavailable,
            SyncFailure::EntitlementRequired => ClientErrorKind::EntitlementRequired,
            SyncFailure::UpgradeRequired => ClientErrorKind::UpgradeRequired,
            SyncFailure::Busy => ClientErrorKind::Busy,
            SyncFailure::LeaseLost => ClientErrorKind::LeaseLost,
            SyncFailure::ClockSkew => ClientErrorKind::ClockSkew,
            SyncFailure::CryptoUnavailable => ClientErrorKind::CryptoUnavailable,
            SyncFailure::StorageFailure => ClientErrorKind::StorageFailure,
            SyncFailure::SyncFailure => ClientErrorKind::SyncFailure,
            SyncFailure::Internal => ClientErrorKind::Internal,
        }
    }

    pub open spec fn of_kind(kind: ClientErrorKind) -> SyncFailure {
        match kind {
            ClientErrorKind::InvalidInput => SyncFailure::InvalidInput,
            ClientErrorKind::NotFound => SyncFailure::NotFound,
            ClientErrorKind::Conflict => SyncFailure::Conflict,
            ClientErrorKind::Unauthorized => SyncFailure::Unauthorized,
            ClientErrorKind::CredentialUnavailable => SyncFailure::CredentialUnavailable,
            ClientErrorKind::AccountBoundUnavailable => SyncFailure::AccountBoundUnavailable,
            ClientErrorKind::EntitlementRequired => SyncFailure::EntitlementRequired,
            ClientErrorKind::UpgradeRequired => SyncFailure::UpgradeRequired,
            ClientErrorKind::Busy => SyncFailure::Busy,
            ClientErrorKind::LeaseLost => SyncFailure::LeaseLost,
            ClientErrorKind::ClockSkew => SyncFailure::ClockSkew,
            ClientErrorKind::CryptoUnavailable => SyncFailure::CryptoUnavailable,
            ClientErrorKind::StorageFailure => SyncFailure::StorageFailure,
            ClientErrorKind::SyncFailure => SyncFailure::SyncFailure,
            ClientErrorKind::Internal => SyncFailure::Internal,
        }
    }
}

impl From<ClientErrorKind> for SyncFailure {
    fn from(kind: ClientErrorKind) -> (r: SyncFailure) {
        match kind {
            ClientErrorKind::InvalidInput => SyncFailure::InvalidInput,
            ClientErrorKind::NotFound => SyncFailure::NotFound,
            ClientErrorKind::Conflict => SyncFailure::Conflict,
            ClientErrorKind::Unauthorized => SyncFailure::Unauthorized,
            ClientErrorKind::CredentialUnavailable => SyncFailure::CredentialUnavailable,
            ClientErrorKind::AccountBoundUnavailable => SyncFailure::AccountBoundUnavailable,
            ClientErrorKind::EntitlementRequired => SyncFailure::EntitlementRequired,
            ClientErrorKind::UpgradeRequired => SyncFailure::UpgradeRequired,
            ClientErrorKind::Busy => SyncFailure::Busy,
            ClientErrorKind::LeaseLost => SyncFailure::LeaseLost,
            ClientErrorKind::ClockSkew => SyncFailure::ClockSkew,
            ClientErrorKind::CryptoUnavailable => SyncFailure::CryptoUnavailable,
            ClientErrorKind::StorageFailure => SyncFailure::StorageFailure,
            ClientErrorKind::SyncFailure => SyncFailure::SyncFailure,
            ClientErrorKind::Internal => SyncFailure::Internal,
        }
    }
}

impl vstd::std_specs::convert::FromSpecImpl<ClientErrorKind> for SyncFailure {
    open spec fn obeys_from_spec() -> bool {
        true
    }

    open spec fn from_spec(kind: ClientErrorKind) -> SyncFailure {
        SyncFailure::of_kind(kind)
    }
}

/// Classes and failures correspond one to one.
pub proof fn law_failure_and_kind_correspond(failure: SyncFailure, kind: ClientErrorKind)
    ensures
        SyncFailure::of_kind(failure.kind_spec()) == failure,
        SyncFailure::of_kind(kind).kind_spec() == kind,
{
}

} // verus!
