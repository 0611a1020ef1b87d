//! The HTTP side of the service that is decided rather than wired: error
//! responses, the caller header, health reports and upload forms.
pub mod auth;
pub mod errors;
pub mod health;
pub mod metrics;
pub mod queries;
pub mod uploads;
