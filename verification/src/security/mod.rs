//! Credentials.

pub mod keystore;
