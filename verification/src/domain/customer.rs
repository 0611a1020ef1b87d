//! Customers and their profiles.
use vstd::prelude::*;
use crate::time::{CalendarDate, Timestamp};

verus! {

/// Preferred language of a customer.
#[derive(Debug, Clone, Copy, PartialEq, Eq, Structural)]
pub enum Locale {
    Th,
    En,
}

impl Default for Locale {
    /// Thai is the default locale.
    fn default() -> (r: Locale)
        ensures
            r == Locale::Th,
    {
        Locale::Th
    }
}

/// Gender recorded on a customer profile.
#[derive(Debug, Clone, Copy, PartialEq, Eq, Structural)]
pub enum Gender {
    Male,
    Female,
    Other,
    Unspecified,
    NotToSay,
}

/// A customer account.
#[derive(Debug)]
pub struct Customer {
    pub id: u128,
    pub email: Option<String>,
    pub phone: Option<String>,
    pub email_verified: bool,
    pub phone_verified: bool,
    pub locale: Locale,
    pub has_consent: bool,
    pub is_deleted: bool,
    pub client_id: Option<String>,
    pub created_at: Timestamp,
    pub updated_at: Timestamp,
    pub profile: Option<CustomerProfile>,
}

/// Personal details attached to a customer account.
#[derive(Debug)]
pub struct CustomerProfile {
    pub id: u128,
    pub user_uuid: u128,
    pub first_name: Option<String>,
    pub last_name: Option<String>,
    pub birthdate: Option<CalendarDate>,
    pub gender: Option<Gender>,
    pub profile_image: Option<String>,
    pub nationality: Option<String>,
    pub created_at: Timestamp,
    pub updated_at: Timestamp,
}

/// Data for a new customer account.
#[derive(Debug)]
pub struct CreateCustomer {
    pub email: Option<String>,
    pub phone: Option<String>,
    pub locale: Option<Locale>,
    pub has_consent: Option<bool>,
    pub client_id: Option<String>,
    pub first_name: Option<String>,
    pub last_name: Option<String>,
    pub birthdate: Option<CalendarDate>,
    pub gender: Option<Gender>,
    pub nationality: Option<String>,
}

/// Fields to change on a customer account; `None` leaves a field as it is.
#[derive(Debug)]
pub struct UpdateCustomer {
    pub email: Option<String>,
    pub phone: Option<String>,
    pub locale: Option<Locale>,
    pub has_consent: Option<bool>,
    pub first_name: Option<String>,
    pub last_name: Option<String>,
    pub birthdate: Option<CalendarDate>,
    pub gender: Option<Gender>,
    pub nationality: Option<String>,
}

/// The one field a customer search goes by.
#[derive(Debug)]
pub enum SearchField {
    Id(u128),
    Phone(String),
    The1MemberId(String),
    The1CardNumber(String),
}

} // verus!
