//! Decoding, encoding and validation of the attestation evidence a
//! confidential-computing guest presents to a relying party: the fixed-layout
//! report header, the full report with its opaque hardware payload and
//! runtime-claims tail, the certificate chain extracted from PEM text, and the
//! base64url wire transport for quote exchange.

pub mod claims;
pub mod error;
pub mod hcl;
pub mod snp_wire;
pub mod tdx_wire;
