//! Credential lifecycle for a small network service: salted password hashing,
//! signed expiring access tokens, a credential store with unique emails, and the
//! registration and login flows that tie them together.

pub mod error;
pub mod flow;
pub mod ident;
pub mod password;
pub mod store;
pub mod token;
