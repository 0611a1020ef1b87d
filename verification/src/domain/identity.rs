//! Provider identities linked to a customer.
use vstd::prelude::*;
use crate::time::Timestamp;

verus! {

/// A link between a customer and an account at an identity provider.
#[derive(Debug)]
pub struct Identity {
    pub id: u128,
    pub user_uuid: u128,
    pub provider_name: String,
    pub external_id: String,
    pub provider_id_token: Option<String>,
    pub provider_access_token: Option<String>,
    pub provider_refresh_token: Option<String>,
    pub is_deleted: bool,
    pub created_at: Timestamp,
    pub updated_at: Timestamp,
}

/// Data for a new (or restored) identity link.
#[derive(Debug)]
pub struct CreateIdentity {
    pub user_uuid: u128,
    pub provider_name: String,
    pub external_id: String,
    pub provider_id_token: Option<String>,
    pub provider_access_token: Option<String>,
    pub provider_refresh_token: Option<String>,
}

/// New provider tokens for an identity.
#[derive(Debug)]
pub struct UpdateIdentityTokens {
    pub provider_access_token: Option<String>,
    pub provider_refresh_token: Option<String>,
}

} // verus!
