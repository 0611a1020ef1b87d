//! Customer profile service core: domain records, use-case state machines and
//! HTTP error mapping, with their behaviour stated as contracts.
pub mod api;
pub mod application;
pub mod domain;
pub mod ids;
pub mod text;
pub mod time;
