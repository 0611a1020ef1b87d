//! The calls a use case asks for, their outcomes, and the step type that a
//! use case returns each time it is started or resumed.
//!
//! A use case runs as a state machine: `start` returns its first step, and
//! each outcome of the requested call is handed to `resume`, until a step
//! finishes with the use case's result.
use vstd::prelude::*;
use crate::application::errors::ApplicationError;
use crate::application::events::EventPayload;
use crate::application::profile_changes::OtpCodes;
use crate::application::segments::The1PartnerMemberData;
use crate::domain::customer::{CreateCustomer, Customer, SearchField, UpdateCustomer};
use crate::domain::errors::RepositoryError;
use crate::domain::identity::{CreateIdentity, Identity};
use crate::domain::profile_change::{ChangeStatus, ChangeType, CreateProfileChange, ProfileChange};
use crate::domain::the1_user::{The1User, UpsertThe1User};
use crate::time::{instant_in_range, now, Timestamp};

verus! {

/// A repository or service call that a use case asks its runner to make.
#[derive(Debug)]
pub enum Effect {
    FindCustomerById { id: u128 },
    FindCustomerByEmail { email: String },
    FindCustomerByPhone { phone: String },
    CreateCustomer { data: CreateCustomer },
    SearchCustomers { field: SearchField },
    UpdateCustomer { id: u128, data: UpdateCustomer },
    SoftDeleteCustomer { id: u128 },
    UpdateProfileImage { user_uuid: u128, image_key: Option<String> },
    FindIdentitiesByUser { user_uuid: u128 },
    FindActiveIdentity { user_uuid: u128, provider: String, external_id: String },
    FindDeletedIdentity { provider: String, external_id: String },
    CreateIdentity { data: CreateIdentity },
    RestoreIdentity { id: u128, user_uuid: u128, tokens: CreateIdentity },
    SoftDeleteIdentity { id: u128, user_uuid: u128 },
    LogIdentityTransaction { user_uuid: u128, action: String, provider: String, external_id: String },
    FindProfileChange { id: u128 },
    FindActiveProfileChange { user_uuid: u128, change_type: ChangeType },
    CreateProfileChange { data: CreateProfileChange },
    UpdateOtp { id: u128, otp: String, ref_code: String, expires: Timestamp, next_request: Timestamp },
    UpdateStatusAndToken {
        id: u128,
        status: ChangeStatus,
        token: Option<String>,
        token_expires: Option<Timestamp>,
    },
    FindThe1ByUser { user_uuid: u128 },
    FindThe1ByCardNumber { card_number: String },
    FindThe1ByMemberId { member_id: String },
    UpsertThe1User { user_uuid: u128, profile: UpsertThe1User },
    /// Publish an event; a failure is only logged.
    Publish { topic: String, payload: EventPayload },
    SendSms { phone: String, message: String },
    ValidateToken { token: String },
    GenerateToken { profile_change_id: u128, user_uuid: u128, expires_in_minutes: u32 },
    UploadImage { key: String, data: Vec<u8>, content_type: String },
    DeleteImage { key: String },
    SignUrl { key: String },
    GetPartnerMember { card_number: String },
    /// Read the current time (`read_clock`).
    ReadClock,
    /// Draw a fresh OTP and reference code (`OtpCodes::draw`).
    DrawCodes,
}

/// What a call gave back.
#[derive(Debug)]
pub enum Outcome {
    /// Result of a customer lookup.
    Customer(Result<Option<Customer>, RepositoryError>),
    /// Result of a customer create, update or delete.
    SavedCustomer(Result<Customer, RepositoryError>),
    Customers(Result<Vec<Customer>, RepositoryError>),
    /// Result of a repository write that returns nothing.
    Stored(Result<(), RepositoryError>),
    Identity(Result<Option<Identity>, RepositoryError>),
    SavedIdentity(Result<Identity, RepositoryError>),
    Identities(Result<Vec<Identity>, RepositoryError>),
    ProfileChange(Result<Option<ProfileChange>, RepositoryError>),
    SavedProfileChange(Result<ProfileChange, RepositoryError>),
    The1User(Result<Option<The1User>, RepositoryError>),
    SavedThe1User(Result<The1User, RepositoryError>),
    /// Result of a publish, an SMS or an object deletion.
    Delivered(Result<(), String>),
    Uploaded(Result<String, String>),
    Signed(Result<String, String>),
    /// `(profile_change_id, user_uuid)` carried by a valid token.
    TokenClaims(Result<(u128, u128), String>),
    TokenIssued(Result<String, String>),
    PartnerMember(Result<The1PartnerMemberData, String>),
    Clock(Timestamp),
    Codes(OtpCodes),
}

/// The kinds of outcome.
#[derive(Debug, Clone, Copy, PartialEq, Eq, Structural)]
pub enum OutcomeKind {
    Customer,
    SavedCustomer,
    Customers,
    Stored,
    Identity,
    SavedIdentity,
    Identities,
    ProfileChange,
    SavedProfileChange,
    The1User,
    SavedThe1User,
    Delivered,
    Uploaded,
    Signed,
    TokenClaims,
    TokenIssued,
    PartnerMember,
    Clock,
    Codes,
}

impl Outcome {
    /// The kind of this outcome.
    pub open spec fn kind_of(self) -> OutcomeKind {
        match self {
            Outcome::Customer(_) => OutcomeKind::Customer,
            Outcome::SavedCustomer(_) => OutcomeKind::SavedCustomer,
            Outcome::Customers(_) => OutcomeKind::Customers,
            Outcome::Stored(_) => OutcomeKind::Stored,
            Outcome::Identity(_) => OutcomeKind::Identity,
            Outcome::SavedIdentity(_) => OutcomeKind::SavedIdentity,
            Outcome::Identities(_) => OutcomeKind::Identities,
            Outcome::ProfileChange(_) => OutcomeKind::ProfileChange,
            Outcome::SavedProfileChange(_) => OutcomeKind::SavedProfileChange,
            Outcome::The1User(_) => OutcomeKind::The1User,
            Outcome::SavedThe1User(_) => OutcomeKind::SavedThe1User,
            Outcome::Delivered(_) => OutcomeKind::Delivered,
            Outcome::Uploaded(_) => OutcomeKind::Uploaded,
            Outcome::Signed(_) => OutcomeKind::Signed,
            Outcome::TokenClaims(_) => OutcomeKind::TokenClaims,
            Outcome::TokenIssued(_) => OutcomeKind::TokenIssued,
            Outcome::PartnerMember(_) => OutcomeKind::PartnerMember,
            Outcome::Clock(_) => OutcomeKind::Clock,
            Outcome::Codes(_) => OutcomeKind::Codes,
        }
    }

    /// The kind of this outcome.
    pub fn kind(&self) -> (k: OutcomeKind)
        ensures
            k == self.kind_of(),
    {
        match self {
            Outcome::Customer(_) => OutcomeKind::Customer,
            Outcome::SavedCustomer(_) => OutcomeKind::SavedCustomer,
            Outcome::Customers(_) => OutcomeKind::Customers,
            Outcome::Stored(_) => OutcomeKind::Stored,
            Outcome::Identity(_) => OutcomeKind::Identity,
            Outcome::SavedIdentity(_) => OutcomeKind::SavedIdentity,
            Outcome::Identities(_) => OutcomeKind::Identities,
            Outcome::ProfileChange(_) => OutcomeKind::ProfileChange,
            Outcome::SavedProfileChange(_) => OutcomeKind::SavedProfileChange,
            Outcome::The1User(_) => OutcomeKind::The1User,
            Outcome::SavedThe1User(_) => OutcomeKind::SavedThe1User,
            Outcome::Delivered(_) => OutcomeKind::Delivered,
            Outcome::Uploaded(_) => OutcomeKind::Uploaded,
            Outcome::Signed(_) => OutcomeKind::Signed,
            Outcome::TokenClaims(_) => OutcomeKind::TokenClaims,
            Outcome::TokenIssued(_) => OutcomeKind::TokenIssued,
            Outcome::PartnerMember(_) => OutcomeKind::PartnerMember,
            Outcome::Clock(_) => OutcomeKind::Clock,
            Outcome::Codes(_) => OutcomeKind::Codes,
        }
    }
}

impl Effect {
    /// The kind of outcome that answers this call.
    pub open spec fn answered_by(self) -> OutcomeKind {
        match self {
            Effect::FindCustomerById { .. } => OutcomeKind::Customer,
            Effect::FindCustomerByEmail { .. } => OutcomeKind::Customer,
            Effect::FindCustomerByPhone { .. } => OutcomeKind::Customer,
            Effect::CreateCustomer { .. } => OutcomeKind::SavedCustomer,
            Effect::SearchCustomers { .. } => OutcomeKind::Customers,
            Effect::UpdateCustomer { .. } => OutcomeKind::SavedCustomer,
            Effect::SoftDeleteCustomer { .. } => OutcomeKind::SavedCustomer,
            Effect::UpdateProfileImage { .. } => OutcomeKind::Stored,
            Effect::FindIdentitiesByUser { .. } => OutcomeKind::Identities,
            Effect::FindActiveIdentity { .. } => OutcomeKind::Identity,
            Effect::FindDeletedIdentity { .. } => OutcomeKind::Identity,
            Effect::CreateIdentity { .. } => OutcomeKind::SavedIdentity,
            Effect::RestoreIdentity { .. } => OutcomeKind::SavedIdentity,
            Effect::SoftDeleteIdentity { .. } => OutcomeKind::SavedIdentity,
            Effect::LogIdentityTransaction { .. } => OutcomeKind::Stored,
            Effect::FindProfileChange { .. } => OutcomeKind::ProfileChange,
            Effect::FindActiveProfileChange { .. } => OutcomeKind::ProfileChange,
            Effect::CreateProfileChange { .. } => OutcomeKind::SavedProfileChange,
            Effect::UpdateOtp { .. } => OutcomeKind::SavedProfileChange,
            Effect::UpdateStatusAndToken { .. } => OutcomeKind::SavedProfileChange,
            Effect::FindThe1ByUser { .. } => OutcomeKind::The1User,
            Effect::FindThe1ByCardNumber { .. } => OutcomeKind::The1User,
            Effect::FindThe1ByMemberId { .. } => OutcomeKind::The1User,
            Effect::UpsertThe1User { .. } => OutcomeKind::SavedThe1User,
            Effect::Publish { .. } => OutcomeKind::Delivered,
            Effect::SendSms { .. } => OutcomeKind::Delivered,
            Effect::ValidateToken { .. } => OutcomeKind::TokenClaims,
            Effect::GenerateToken { .. } => OutcomeKind::TokenIssued,
            Effect::UploadImage { .. } => OutcomeKind::Uploaded,
            Effect::DeleteImage { .. } => OutcomeKind::Delivered,
            Effect::SignUrl { .. } => OutcomeKind::Signed,
            Effect::GetPartnerMember { .. } => OutcomeKind::PartnerMember,
            Effect::ReadClock => OutcomeKind::Clock,
            Effect::DrawCodes => OutcomeKind::Codes,
        }
    }
}

/// Answers `Effect::ReadClock`: the current instant.
pub fn read_clock() -> (o: Outcome)
    ensures
        o matches Outcome::Clock(t) && instant_in_range(t@.0, t@.1),
{
    let t = now();
    t.check_range();
    Outcome::Clock(t)
}

/// What a use case does next: ask for a call and wait in a new state, or
/// finish with its result.
#[derive(Debug)]
pub enum Step<S, T> {
    Perform(S, Effect),
    Finish(Result<T, ApplicationError>),
}

} // verus!
