//! Membership records of The1 loyalty programme.
use vstd::prelude::*;
use crate::time::Timestamp;

verus! {

/// A loyalty tier held by a member.
#[derive(Debug)]
pub struct Tier {
    pub id: u128,
    pub code: String,
    pub name: Option<String>,
    pub expired_date: Option<Timestamp>,
}

/// A customer's The1 membership.
#[derive(Debug)]
pub struct The1User {
    pub id: u128,
    pub user_uuid: u128,
    pub member_id: String,
    pub account_id: String,
    pub profile_id: String,
    pub card_number: Option<String>,
    pub tiers: Vec<Tier>,
    pub created_at: Timestamp,
    pub updated_at: Timestamp,
}

/// A tier to store with a membership.
#[derive(Debug)]
pub struct UpsertTier {
    pub code: String,
    pub name: Option<String>,
    pub expired_date: Option<Timestamp>,
}

/// Membership data to insert or update.
#[derive(Debug)]
pub struct UpsertThe1User {
    pub member_id: String,
    pub account_id: String,
    pub profile_id: String,
    pub card_number: Option<String>,
    pub tiers: Vec<UpsertTier>,
}

} // verus!
