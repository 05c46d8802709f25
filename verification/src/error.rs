//! Errors of the client core and how they are classified.
use vstd::prelude::*;
use crate::ids::Uuid;

verus! {

/// What is wrong with the key cache or the records of a local profile.
#[derive(Clone, Copy, Debug, PartialEq, Eq, Structural)]
pub enum SchemaFault {
    TenantRootMissing,
    InvalidActiveGeneration,
    CacheWithoutBinding,
    GenerationMovedBackwards,
    CachedRootUnauthenticated,
    HistoricalNotBeforeActive,
    InvalidGeneration,
    RootChangedWithoutGeneration,
    InvalidRootMaterial,
    InvalidInboxAliasSet,
    Other,
}

impl SchemaFault {
    /// The words of a fault.
    pub open spec fn message_spec(self) -> Seq<char> {
        match self {
            SchemaFault::TenantRootMissing => "local Tenant Root DEK is missing"@,
            SchemaFault::InvalidActiveGeneration => "invalid active Tenant Root DEK generation"@,
            SchemaFault::CacheWithoutBinding =>
                "Tenant Root DEK cache exists without a profile binding"@,
            SchemaFault::GenerationMovedBackwards =>
                "active Tenant Root DEK generation cannot move backwards"@,
            SchemaFault::CachedRootUnauthenticated =>
                "stored local Tenant Root DEK cannot be authenticated"@,
            SchemaFault::HistoricalNotBeforeActive =>
                "historical Tenant Root DEK generation must precede the active generation"@,
            SchemaFault::InvalidGeneration => "invalid Tenant Root DEK generation"@,
            SchemaFault::RootChangedWithoutGeneration =>
                "Tenant Root DEK changed without a generation change"@,
            SchemaFault::InvalidRootMaterial => "invalid local Tenant Root DEK material"@,
            SchemaFault::InvalidInboxAliasSet => "invalid canonical Inbox alias set"@,
            SchemaFault::Other => "incompatible schema"@,
        }
    }

    pub fn message(self) -> (r: &'static str)
        ensures
            r@ == self.message_spec(),
    {
        match self {
            SchemaFault::TenantRootMissing => "local Tenant Root DEK is missing",
            SchemaFault::InvalidActiveGeneration => "invalid active Tenant Root DEK generation",
            SchemaFault::CacheWithoutBinding =>
                "Tenant Root DEK cache exists without a profile binding",
            SchemaFault::GenerationMovedBackwards =>
                "active Tenant Root DEK generation cannot move backwards",
            SchemaFault::CachedRootUnauthenticated =>
                "stored local Tenant Root DEK cannot be authenticated",
            SchemaFault::HistoricalNotBeforeActive =>
                "historical Tenant Root DEK generation must precede the active generation",
            SchemaFault::InvalidGeneration => "invalid Tenant Root DEK generation",
            SchemaFault::RootChangedWithoutGeneration =>
                "Tenant Root DEK changed without a generation change",
            SchemaFault::InvalidRootMaterial => "invalid local Tenant Root DEK material",
            SchemaFault::InvalidInboxAliasSet => "invalid canonical Inbox alias set",
            SchemaFault::Other => "incompatible schema",
        }
    }
}

/// What the local database reports.
#[derive(Clone, Copy, Debug, PartialEq, Eq, Structural)]
pub enum StorageError {
    NotFound,
    IncompatibleSchema(SchemaFault),
    LocalProfileTenantMismatch { bound_tenant_id: Uuid, requested_tenant_id: Uuid },
    LocalProfileUserMismatch { bound_user_id: Uuid, requested_user_id: Uuid },
    ProfileCoordinationClockRollback,
    ProfileCoordinationOverflow,
    ProfileRuntimeEpochChanged,
    SyncLeaseBusy,
    SyncLeaseLost,
    DatabaseBusy,
    Other,
}

impl StorageError {
    /// Whether another connection holds the database.
    pub open spec fn database_busy(self) -> bool {
        self == StorageError::DatabaseBusy
    }

    pub fn is_database_busy(self) -> (r: bool)
        ensures
            r == self.database_busy(),
    {
        match self {
            StorageError::DatabaseBusy => true,
            _ => false,
        }
    }
}

/// What a client operation can fail with.
#[derive(Clone, Copy, Debug, PartialEq, Eq, Structural)]
pub enum ClientError {
    AccountBoundUnavailable,
    AccountRequest,
    ActiveTimerConflict,
    Busy,
    ClockSkewRetryable,
    CredentialUnavailable,
    DatabaseBusy,
    EntitlementRequired,
    IncompleteAccountState,
    Io,
    KeyStore,
    LeaseLost,
    LocalKeyState,
    ProfileAlreadyBound,
    ProfileBusy,
    ProfileIdentityMismatch,
    ProfileLockUnsupported,
    RuntimeState,
    Storage(StorageError),
    Sync,
    SyncLeaseBusy,
    SyncRun,
    Unauthorized,
    UpgradeRequired,
    Other,
}

/// The stable classes of client errors.
#[derive(Clone, Copy, Debug, PartialEq, Eq, Structural)]
pub enum ClientErrorKind {
    InvalidInput,
    NotFound,
    Conflict,
    Unauthorized,
    CredentialUnavailable,
    AccountBoundUnavailable,
    EntitlementRequired,
    UpgradeRequired,
    Busy,
    LeaseLost,
    ClockSkew,
    CryptoUnavailable,
    StorageFailure,
    SyncFailure,
    Internal,
}

/// A client error together with the class and the retry advice that the client
/// gives for it.
#[derive(Clone, Copy, Debug, PartialEq, Eq, Structural)]
pub struct ClientFailure {
    pub error: ClientError,
    pub kind: ClientErrorKind,
    pub retryable: bool,
}

} // verus!
