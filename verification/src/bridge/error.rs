//! Errors as they cross the bridge.
use vstd::prelude::*;
use crate::error::{ClientErrorKind, ClientFailure};
use crate::model::SyncRunFailure;

verus! {

/// Closed, stable error codes. They are coarser than the errors inside the client, so
/// that no detail of it becomes part of what a frontend relies on.
#[derive(Debug, Clone, Copy, PartialEq, Eq, Structural)]
pub enum BridgeErrorCodeDto {
    InvalidInput,
    NotFound,
    Conflict,
    Unauthorized,
    CredentialUnavailable,
    AccountBoundUnavailable,
    EntitlementRequired,
    UpgradeRequired,
    Busy,
    LeaseLost,
    ClockSkew,
    CryptoUnavailable,
    StorageFailure,
    SyncFailure,
    Internal,
}

/// Closed keys of the values that a message may show. No free text from inside the
/// client can cross the bridge.
#[derive(Debug, Clone, Copy, PartialEq, Eq, Structural)]
pub enum BridgeErrorArgumentKeyDto {
    Limit,
}

#[derive(Debug, Clone, Copy, PartialEq, Eq, Structural)]
pub struct BridgeErrorArgumentDto {
    pub key: BridgeErrorArgumentKeyDto,
    pub value: i64,
}

#[derive(Debug, Clone, PartialEq, Eq)]
pub struct BridgeErrorDto {
    pub code: BridgeErrorCodeDto,
    pub arguments: Vec<BridgeErrorArgumentDto>,
    pub retryable: bool,
}

impl BridgeErrorDto {
    /// A code and the retry advice, and nothing else.
    pub open spec fn is(self, code: BridgeErrorCodeDto, retryable: bool) -> bool {
        &&& self.code == code
        &&& self.arguments@ == Seq::<BridgeErrorArgumentDto>::empty()
        &&& self.retryable == retryable
    }

    /// The error of an input that the bridge does not understand.
    pub open spec fn is_invalid_input(self) -> bool {
        self.is(BridgeErrorCodeDto::InvalidInput, false)
    }

    /// What is left of a client failure.
    pub open spec fn tells(self, failure: ClientFailure) -> bool {
        self.is(code_of_kind(failure.kind), failure.retryable)
    }

    pub fn new(code: BridgeErrorCodeDto, retryable: bool) -> (r: BridgeErrorDto)
        ensures
            r.is(code, retryable),
    {
        BridgeErrorDto { code, arguments: Vec::new(), retryable }
    }

    pub fn invalid_input() -> (r: BridgeErrorDto)
        ensures
            r.is_invalid_input(),
    {
        BridgeErrorDto::new(BridgeErrorCodeDto::InvalidInput, false)
    }
}

/// Reduces a client failure to its code and its retry advice.
impl From<ClientFailure> for BridgeErrorDto {
    fn from(failure: ClientFailure) -> (r: BridgeErrorDto)
        ensures
            r.tells(failure),
    {
        let code = match failure.kind {
            ClientErrorKind::InvalidInput => BridgeErrorCodeDto::InvalidInput,
            ClientErrorKind::NotFound => BridgeErrorCodeDto::NotFound,
            ClientErrorKind::Conflict => BridgeErrorCodeDto::Conflict,
            ClientErrorKind::Unauthorized => BridgeErrorCodeDto::Unauthorized,
            ClientErrorKind::CredentialUnavailable => BridgeErrorCodeDto::CredentialUnavailable,
            ClientErrorKind::AccountBoundUnavailable => BridgeErrorCodeDto::AccountBoundUnavailable,
            ClientErrorKind::EntitlementRequired => BridgeErrorCodeDto::EntitlementRequired,
            ClientErrorKind::UpgradeRequired => BridgeErrorCodeDto::UpgradeRequired,
            ClientErrorKind::Busy => BridgeErrorCodeDto::Busy,
            ClientErrorKind::LeaseLost => BridgeErrorCodeDto::LeaseLost,
            ClientErrorKind::ClockSkew => BridgeErrorCodeDto::ClockSkew,
            ClientErrorKind::CryptoUnavailable => BridgeErrorCodeDto::CryptoUnavailable,
            ClientErrorKind::StorageFailure => BridgeErrorCodeDto::StorageFailure,
            ClientErrorKind::SyncFailure => BridgeErrorCodeDto::SyncFailure,
            ClientErrorKind::Internal => BridgeErrorCodeDto::Internal,
        };
        BridgeErrorDto::new(code, failure.retryable)
    }
}

impl vstd::std_specs::convert::FromSpecImpl<ClientFailure> for BridgeErrorDto {
    open spec fn obeys_from_spec() -> bool {
        false
    }

    open spec fn from_spec(failure: ClientFailure) -> BridgeErrorDto {
        arbitrary()
    }
}

/// Reduces the failure of a sync run to its code and its retry advice.
impl From<SyncRunFailure> for BridgeErrorDto {
    fn from(failure: SyncRunFailure) -> (r: BridgeErrorDto)
        ensures
            r.is(code_of_sync_failure(failure), sync_failure_is_retryable(failure)),
    {
        match failure {
            SyncRunFailure::Unauthorized => BridgeErrorDto::new(
                BridgeErrorCodeDto::Unauthorized,
                false,
            ),
            SyncRunFailure::UpgradeRequired => BridgeErrorDto::new(
                BridgeErrorCodeDto::UpgradeRequired,
                false,
            ),
            SyncRunFailure::EntitlementRequired => BridgeErrorDto::new(
                BridgeErrorCodeDto::EntitlementRequired,
                false,
            ),
            SyncRunFailure::SyncLeaseBusy
            | SyncRunFailure::DatabaseBusy
            | SyncRunFailure::ProfileBusy
            | SyncRunFailure::CredentialBusy => BridgeErrorDto::new(BridgeErrorCodeDto::Busy, true),
            SyncRunFailure::LeaseLost => BridgeErrorDto::new(BridgeErrorCodeDto::LeaseLost, true),
            SyncRunFailure::ClockSkewRetryable => BridgeErrorDto::new(
                BridgeErrorCodeDto::ClockSkew,
                true,
            ),
            SyncRunFailure::CredentialUnavailable => BridgeErrorDto::new(
                BridgeErrorCodeDto::CredentialUnavailable,
                false,
            ),
            SyncRunFailure::AccountBoundUnavailable => BridgeErrorDto::new(
                BridgeErrorCodeDto::AccountBoundUnavailable,
                false,
            ),
            SyncRunFailure::SyncFailed => BridgeErrorDto::new(
                BridgeErrorCodeDto::SyncFailure,
                true,
            ),
        }
    }
}

impl vstd::std_specs::convert::FromSpecImpl<SyncRunFailure> for BridgeErrorDto {
    open spec fn obeys_from_spec() -> bool {
        false
    }

    open spec fn from_spec(failure: SyncRunFailure) -> BridgeErrorDto {
        arbitrary()
    }
}

/// The code of a class of client errors: the one of the same name.
pub open spec fn code_of_kind(kind: ClientErrorKind) -> BridgeErrorCodeDto {
    match kind {
        ClientErrorKind::InvalidInput => BridgeErrorCodeDto::InvalidInput,
        ClientErrorKind::NotFound => BridgeErrorCodeDto::NotFound,
        ClientErrorKind::Conflict => BridgeErrorCodeDto::Conflict,
        ClientErrorKind::Unauthorized => BridgeErrorCodeDto::Unauthorized,
        ClientErrorKind::CredentialUnavailable => BridgeErrorCodeDto::CredentialUnavailable,
        ClientErrorKind::AccountBoundUnavailable => BridgeErrorCodeDto::AccountBoundUnavailable,
        ClientErrorKind::EntitlementRequired => BridgeErrorCodeDto::EntitlementRequired,
        ClientErrorKind::UpgradeRequired => BridgeErrorCodeDto::UpgradeRequired,
        ClientErrorKind::Busy => BridgeErrorCodeDto::Busy,
        ClientErrorKind::LeaseLost => BridgeErrorCodeDto::LeaseLost,
        ClientErrorKind::ClockSkew => BridgeErrorCodeDto::ClockSkew,
        ClientErrorKind::CryptoUnavailable => BridgeErrorCodeDto::CryptoUnavailable,
        ClientErrorKind::StorageFailure => BridgeErrorCodeDto::StorageFailure,
        ClientErrorKind::SyncFailure => BridgeErrorCodeDto::SyncFailure,
        ClientErrorKind::Internal => BridgeErrorCodeDto::Internal,
    }
}

/// The code of a failed sync run. Whatever is held by somebody else is busy.
pub open spec fn code_of_sync_failure(failure: SyncRunFailure) -> BridgeErrorCodeDto {
    match failure {
        SyncRunFailure::Unauthorized => BridgeErrorCodeDto::Unauthorized,
        SyncRunFailure::UpgradeRequired => BridgeErrorCodeDto::UpgradeRequired,
        SyncRunFailure::EntitlementRequired => BridgeErrorCodeDto::EntitlementRequired,
        SyncRunFailure::SyncLeaseBusy => BridgeErrorCodeDto::Busy,
        SyncRunFailure::DatabaseBusy => BridgeErrorCodeDto::Busy,
        SyncRunFailure::ProfileBusy => BridgeErrorCodeDto::Busy,
        SyncRunFailure::CredentialBusy => BridgeErrorCodeDto::Busy,
        SyncRunFailure::LeaseLost => BridgeErrorCodeDto::LeaseLost,
        SyncRunFailure::ClockSkewRetryable => BridgeErrorCodeDto::ClockSkew,
        SyncRunFailure::CredentialUnavailable => BridgeErrorCodeDto::CredentialUnavailable,
        SyncRunFailure::AccountBoundUnavailable => BridgeErrorCodeDto::AccountBoundUnavailable,
        SyncRunFailure::SyncFailed => BridgeErrorCodeDto::SyncFailure,
    }
}

/// Whether the same sync may succeed later without anything done by the user.
pub open spec fn sync_failure_is_retryable(failure: SyncRunFailure) -> bool {
    match failure {
        SyncRunFailure::Unauthorized => false,
        SyncRunFailure::UpgradeRequired => false,
        SyncRunFailure::EntitlementRequired => false,
        SyncRunFailure::CredentialUnavailable => false,
        SyncRunFailure::AccountBoundUnavailable => false,
        _ => true,
    }
}

/// How a client answer appears on the other side of the bridge: a value as `shown`
/// says, a failure as its code.
pub open spec fn answered<T, D>(
    reply: Result<T, ClientFailure>,
    r: Result<D, BridgeErrorDto>,
    shown: spec_fn(T, D) -> bool,
) -> bool {
    match reply {
        Ok(value) => r is Ok && shown(value, r->Ok_0),
        Err(failure) => r is Err && r->Err_0.tells(failure),
    }
}

/// How an answer appears that crosses the bridge as it is.
pub open spec fn handed_on<T>(
    reply: Result<T, ClientFailure>,
    r: Result<T, BridgeErrorDto>,
) -> bool {
    match reply {
        Ok(value) => r == Ok::<T, BridgeErrorDto>(value),
        Err(failure) => r is Err && r->Err_0.tells(failure),
    }
}

/// The answer to an input that the bridge does not understand.
pub open spec fn refused<D>(r: Result<D, BridgeErrorDto>) -> bool {
    r is Err && r->Err_0.is_invalid_input()
}

/// The answer where the client cannot be reached.
pub open spec fn not_reached<D>(failure: ClientFailure, r: Result<D, BridgeErrorDto>) -> bool {
    r is Err && r->Err_0.tells(failure)
}

/// Two client failures of one class and with one retry advice cannot be told apart on
/// the other side of the bridge, whatever lies behind them.
pub proof fn law_details_do_not_cross(
    one: ClientFailure,
    other: ClientFailure,
    shown: BridgeErrorDto,
    also_shown: BridgeErrorDto,
)
    requires
        one.kind == other.kind,
        one.retryable == other.retryable,
        shown.tells(one),
        also_shown.tells(other),
    ensures
        shown.code == also_shown.code,
        shown.arguments@ == also_shown.arguments@,
        shown.retryable == also_shown.retryable,
{
}

/// No two classes of client errors share a code.
pub proof fn law_codes_are_distinct(one: ClientErrorKind, other: ClientErrorKind)
    ensures
        code_of_kind(one) == code_of_kind(other) ==> one == other,
{
}

} // verus!
