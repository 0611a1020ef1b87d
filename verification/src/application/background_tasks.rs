//! Payloads of queued background jobs.
use vstd::prelude::*;

verus! {

/// A queued SMS delivery.
#[derive(Debug)]
pub struct SmsCommand {
    pub phone: String,
    pub message: String,
}

/// A queued email delivery request.
#[derive(Debug)]
pub struct EmailCommand {
    pub user_uuid: String,
    pub email: String,
    pub otp: String,
    pub ref_code: String,
    pub otp_expired_at: String,
}

} // verus!
