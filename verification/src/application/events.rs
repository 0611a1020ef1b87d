//! Payloads of the domain events that the use cases publish.
use vstd::prelude::*;

verus! {

/// A publisher that drops every message (used where no message bus is configured).
#[derive(Debug, Clone, Copy)]
pub struct NoopPublisher;

/// A customer's profile changed.
#[derive(Debug)]
pub struct ProfileChangedPayload {
    pub user_uuid: String,
}

/// An OTP email should be sent.
#[derive(Debug)]
pub struct EmailSentRequestedPayload {
    pub user_uuid: String,
    pub email: String,
    pub otp: String,
    pub ref_code: String,
    pub otp_expired_at: String,
}

/// A provider identity was linked or unlinked.
#[derive(Debug)]
pub struct IdentityLinkedChangedPayload {
    pub user_uuid: String,
    pub provider_name: String,
    /// "linked" or "unlinked"
    pub action: String,
}

/// A The1 membership was refreshed.
#[derive(Debug)]
pub struct The1ProfileUpdatedPayload {
    pub user_uuid: String,
    pub member_id: String,
    pub card_number: Option<String>,
}

/// Any event payload, serialised as JSON when it is published.
#[derive(Debug)]
pub enum EventPayload {
    ProfileChanged(ProfileChangedPayload),
    EmailSentRequested(EmailSentRequestedPayload),
    IdentityLinkedChanged(IdentityLinkedChangedPayload),
    The1ProfileUpdated(The1ProfileUpdatedPayload),
}

} // verus!
