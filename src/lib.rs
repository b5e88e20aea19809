//! Verification of DKIM-signed email records: the body hash, the RSA
//! signature over the headers, and the claims read from header and body text.
pub mod checks;
pub mod claim;
pub mod crypto;
pub mod record;
pub mod sender;
pub mod subject;
pub mod text;
