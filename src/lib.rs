//! Passwordless, mobile-number based login: a user directory, login challenges with
//! one-time passcodes, their verification under an attempt ceiling and an expiry, and
//! signed bearer credentials minted once a passcode is verified.

pub mod clock;
pub mod connection;
pub mod directory;
pub mod events;
pub mod gate;
pub mod jwt;
pub mod laws;
pub mod ledger;
pub mod messages;
pub mod models;
pub mod random;
pub mod service;
pub mod text;
pub mod validation;
