//! Requests to change a customer's phone number or email address.
use vstd::prelude::*;
use crate::time::Timestamp;

verus! {

/// Which contact detail a request changes.
#[derive(Debug, Clone, Copy, PartialEq, Eq, Structural)]
pub enum ChangeType {
    Telephone,
    Email,
}

/// Progress of a change request.
#[derive(Debug, Clone, Copy, PartialEq, Eq, Structural)]
pub enum ChangeStatus {
    PendingVerifyOtp,
    VerifyChangeCompleted,
    PendingChangeTopConfirmation,
    Completed,
}

/// A stored change request.
#[derive(Debug)]
pub struct ProfileChange {
    pub id: u128,
    pub user_uuid: u128,
    pub change_type: ChangeType,
    pub identifier: Option<String>,
    pub old_value: Option<String>,
    pub new_value: Option<String>,
    pub status: ChangeStatus,
    pub token: Option<String>,
    pub token_expired_at: Timestamp,
    pub otp: Option<String>,
    pub ref_code: Option<String>,
    pub next_otp_request_at: Timestamp,
    pub otp_expired_at: Timestamp,
    pub created_at: Timestamp,
    pub updated_at: Timestamp,
}

/// Data for a new change request.
#[derive(Debug)]
pub struct CreateProfileChange {
    pub user_uuid: u128,
    pub change_type: ChangeType,
    pub identifier: Option<String>,
    pub old_value: Option<String>,
    pub new_value: Option<String>,
    pub status: ChangeStatus,
    pub otp: Option<String>,
    pub ref_code: Option<String>,
    pub token_expired_at: Timestamp,
    pub next_otp_request_at: Timestamp,
    pub otp_expired_at: Timestamp,
}

} // verus!
