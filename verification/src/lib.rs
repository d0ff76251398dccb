//! A credential-store adapter: store, read and delete a single named API key
//! kept in the host operating system's credential vault.
//!
//! The vault itself is modelled as a value ([`vault::Vault`]), so that the
//! adapter's behaviour — overwrite on store, idempotent delete, graceful
//! degradation on platforms without a vault — is stated and proved rather
//! than assumed. The marshalling the platform API needs (a null-terminated
//! wide-character target name, UTF-8 secret bytes) and the translation of
//! platform error codes into a uniform not-found vs. failure outcome are
//! verified as well.

pub mod outcome;
pub mod vault;
pub mod wide;
