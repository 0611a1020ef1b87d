//! Domain records, repository errors and event-dispatch names.
pub mod customer;
pub mod errors;
pub mod events;
pub mod identity;
pub mod profile_change;
pub mod the1_user;
