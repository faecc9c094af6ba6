//! Caller-supplied cloud storage credentials, refreshed as they expire, and the stores built
//! from them.

pub mod builders;
pub mod clock;
pub mod credentials;
pub mod credentials_laws;
pub mod error;
pub mod providers;
pub mod providers_laws;
pub mod sas;
pub mod sas_laws;
pub mod storage;
pub mod storage_credential;
pub mod storage_credential_laws;
pub mod storage_laws;
pub mod string_map;
pub mod string_map_laws;
pub mod text;
