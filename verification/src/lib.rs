//! Verified core of a small account-management service: a record store for
//! financial "account" entries (name, monetary value, due date, paid flag)
//! with create / list / get / partial-update / delete semantics, plus the
//! request shaping and response parsing for an external payment-prediction
//! endpoint. All decision-making logic lives here with proved contracts; the
//! HTTP and transport plumbing lives outside the library.

pub mod account;
pub mod errors;
pub mod predict;
pub mod service;
pub mod store;
pub mod text;
