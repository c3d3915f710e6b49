//! Credentials, random password generation, and the decision logic of an
//! OS-backed secret store.
//!
//! - [`Credential`] and [`CredentialBuilder`] hold login records.
//! - [`passwords`] generates random passwords from configurable classes of
//!   characters.
//! - [`secrets`] describes named secrets and drives the platform secret store
//!   one request at a time.

pub mod credential;
pub mod passwords;
pub mod secrets;

pub use credential::{Credential, CredentialBuilder, CredentialBuilderError};
