//! Bounce and complaint tracking for an email-sending pipeline.
//!
//! The registry in [`registry`] decides whether an email address has gathered
//! enough delivery failures or spam complaints, within configured periods, to
//! block further sends. Every executable function carries a contract that
//! Verus proves.

pub mod app_errors;
pub mod auth_db;
pub mod clock;
pub mod email_address;
pub mod laws;
pub mod limits;
pub mod notification;
pub mod problem;
pub mod registry;
pub mod settings;

pub use registry::DeliveryProblems;
pub use problem::{DecodeError, DeliveryProblem, ProblemSubtype, ProblemType};
