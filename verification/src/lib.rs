//! Verified core of an authentication and user-account service.
//!
//! The crate covers the protocol engine of the service: credential hashing
//! and comparison, signed session tokens with expiry, the lifecycle of
//! single-use verification tokens, the login / registration / password-reset
//! flows, and role-based authorization. Transport, storage engines and mail
//! delivery live outside this crate and talk to it through plain values.

pub mod config;
pub mod errors;
pub mod password;
pub mod token;
pub mod user;
pub mod repo;
pub mod session;
pub mod requests;
pub mod responses;
pub mod mail;
pub mod flows;
