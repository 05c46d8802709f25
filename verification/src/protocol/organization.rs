//! Organization data shared by clients and the API server.
use vstd::prelude::*;
use crate::ids::Uuid;

verus! {

#[derive(Debug, Clone, PartialEq, Eq)]
pub struct OrganizationInviteRequest {
    pub email: String,
}

#[derive(Debug, Clone, PartialEq, Eq)]
pub struct OrganizationMemberResponse {
    pub member_user_id: Uuid,
    pub verification_state: String,
}

#[derive(Debug, Clone, PartialEq, Eq)]
pub struct OrganizationSafetyResponse {
    pub owner_user_id: Uuid,
    pub member_user_id: Uuid,
    pub owner_root_public: String,
    pub member_root_public: String,
    pub digest: String,
    pub decimal: String,
    pub qr_payload: String,
    pub verification_state: String,
    pub owner_confirmed: bool,
    pub member_confirmed: bool,
}

#[derive(Debug, Clone, PartialEq, Eq)]
pub struct OrganizationSafetyConfirmRequest {
    pub member_user_id: Uuid,
    pub digest: String,
}

#[derive(Debug, Clone, PartialEq, Eq)]
pub struct OrganizationDeviceDto {
    pub user_id: Uuid,
    pub device_id: Uuid,
    pub account_root_public: String,
    pub certificate: String,
    pub certificate_fingerprint: String,
    pub revoked: bool,
}

#[derive(Debug, Clone, PartialEq, Eq)]
pub struct OrganizationDeviceRosterDto {
    pub user_id: Uuid,
    pub account_root_public: String,
    pub revision: u64,
    pub devices: Vec<OrganizationDeviceDto>,
    pub signed_revocations: Vec<String>,
}

#[derive(Debug, Clone, PartialEq, Eq)]
pub struct OrganizationDeviceRevocationRequest {
    pub signed_revocation: String,
}

#[derive(Debug, Clone, PartialEq, Eq)]
pub struct RecipientPackageRequest {
    pub device_id: Uuid,
    pub package: String,
}

#[derive(Debug, Clone, PartialEq, Eq)]
pub struct RecipientPackageResponse {
    pub package: String,
}

} // verus!
