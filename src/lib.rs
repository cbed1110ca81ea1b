//! Server-side core of a WebAuthn (FIDO2) Relying Party: builds credential
//! creation and assertion requests, and validates the attestation and
//! assertion responses that a client sends back.

pub mod attestation;
pub mod auth_data;
pub mod cbor;
pub mod client_data;
pub mod config;
pub mod cose;
pub mod crypto;
pub mod encoding;
pub mod error;
pub mod json;
pub mod pk;
pub mod request;
pub mod response;
pub mod rp;
pub mod user;
