//! Use cases of the service, written as state machines that ask for one
//! repository or service call at a time, together with their request and
//! response types.
pub mod background_tasks;
pub mod config;
pub mod customers;
pub mod errors;
pub mod events;
pub mod flow;
pub mod identities;
pub mod profile_changes;
pub mod profile_images;
pub mod segments;
pub mod the1;
