//! Names of the background tasks and the error of an event dispatch.
use vstd::prelude::*;

verus! {

/// Task that publishes a message to an SNS topic.
pub const SNS_PUBLISH_TASK: &'static str = "sns_publish";
/// Task that sends an SMS.
pub const SMS_SEND_TASK: &'static str = "sms_send";
/// Task that requests an email.
pub const EMAIL_SEND_TASK: &'static str = "email_send";

/// A failure of the event-dispatch backend.
#[derive(Debug)]
pub enum DispatchError {
    Backend(String),
}

} // verus!
