//! The error kinds that registration and authentication report.

use crate::attestation::{AttestationError, U2fError};
use crate::auth_data::AuthError;
use crate::client_data::ClientDataError;
use vstd::prelude::*;

verus! {

/// Why a registration or an authentication failed.
#[derive(Clone, Copy, Debug, PartialEq, Eq, Structural)]
pub enum Error {
    /// A registration was given an assertion, or the other way round.
    IncorrectResponseType,
    /// A binary field is not base64.
    Base64Decode,
    /// The client data (or the response) is not the expected JSON.
    JsonDecode,
    /// The attestation object is not the expected CBOR.
    CborDecode,
    /// The client data names the other operation.
    WebAuthnTypeMismatch,
    /// The client data holds another challenge than the one issued.
    ChallengeMismatch,
    /// The client data holds another origin than the configured one, or is
    /// cross-origin while that is refused.
    OriginMismatch,
    /// The attested credential ID is not the response's `rawId`.
    CredentialIdMismatch,
    /// The authenticator data is for another RP ID.
    RpIdHashMismatch,
    /// The user-present flag is clear.
    UserNotPresent,
    /// The user-verified flag is clear while verification is required.
    UserNotVerified,
    /// The attestation statement format is not supported.
    UnsupportedAttestationFormat,
    /// The fido-u2f statement does not hold exactly one certificate.
    TooManyX509Certificates,
    /// The attestation certificate does not parse.
    BadX509Certificate,
    /// The credential public key does not decode.
    InvalidCosePublicKey,
    /// The credential public key lacks a coordinate.
    PublicKeyMissing,
    /// A signature does not verify.
    SignatureFailed,
    /// No single registered device has the credential ID.
    DeviceNotFound,
    /// The signature counter did not advance.
    CounterRegression,
    /// The authenticator data does not follow its layout (or, in an
    /// assertion, carries attested credential data).
    MalformedAuthenticatorData,
    /// The authenticator data carries extensions.
    UnsupportedExtensions,
    /// A registration's authenticator data has no attested credential.
    MissingCredentialData,
}

pub open spec fn client_error(e: ClientDataError) -> Error {
    match e {
        ClientDataError::Malformed => Error::JsonDecode,
        ClientDataError::InvalidWebAuthnType => Error::WebAuthnTypeMismatch,
        ClientDataError::ChallengeMismatch => Error::ChallengeMismatch,
        ClientDataError::OriginMismatch => Error::OriginMismatch,
        ClientDataError::CrossOrigin => Error::OriginMismatch,
    }
}

pub open spec fn auth_error(e: AuthError) -> Error {
    match e {
        AuthError::Malformed => Error::MalformedAuthenticatorData,
        AuthError::UnsupportedExtensions => Error::UnsupportedExtensions,
        AuthError::InvalidCoseKey(_) => Error::InvalidCosePublicKey,
        AuthError::RpIdHashMismatch => Error::RpIdHashMismatch,
        AuthError::UserNotPresent => Error::UserNotPresent,
        AuthError::UserNotVerified => Error::UserNotVerified,
        AuthError::CredDataMissing => Error::MissingCredentialData,
        AuthError::PublicKeyMissing => Error::PublicKeyMissing,
    }
}

pub open spec fn attestation_error(e: AttestationError) -> Error {
    match e {
        AttestationError::CborDecode => Error::CborDecode,
        AttestationError::UnsupportedAttestationFormat => Error::UnsupportedAttestationFormat,
        AttestationError::AuthData(a) => auth_error(a),
    }
}

pub open spec fn u2f_error(e: U2fError) -> Error {
    match e {
        U2fError::TooManyX509Certificates => Error::TooManyX509Certificates,
        U2fError::BadX509Certificate => Error::BadX509Certificate,
        U2fError::CredDataMissing => Error::MissingCredentialData,
        U2fError::PublicKeyMissing => Error::PublicKeyMissing,
        U2fError::SignatureFailed => Error::SignatureFailed,
    }
}

impl Error {
    /// The kind that a client data error is reported as.
    pub fn from_client_data(e: ClientDataError) -> (r: Error)
        ensures
            r == client_error(e),
    {
        match e {
            ClientDataError::Malformed => Error::JsonDecode,
            ClientDataError::InvalidWebAuthnType => Error::WebAuthnTypeMismatch,
            ClientDataError::ChallengeMismatch => Error::ChallengeMismatch,
            ClientDataError::OriginMismatch => Error::OriginMismatch,
            ClientDataError::CrossOrigin => Error::OriginMismatch,
        }
    }

    /// The kind that an authenticator data error is reported as.
    pub fn from_auth(e: AuthError) -> (r: Error)
        ensures
            r == auth_error(e),
    {
        match e {
            AuthError::Malformed => Error::MalformedAuthenticatorData,
            AuthError::UnsupportedExtensions => Error::UnsupportedExtensions,
            AuthError::InvalidCoseKey(_) => Error::InvalidCosePublicKey,
            AuthError::RpIdHashMismatch => Error::RpIdHashMismatch,
            AuthError::UserNotPresent => Error::UserNotPresent,
            AuthError::UserNotVerified => Error::UserNotVerified,
            AuthError::CredDataMissing => Error::MissingCredentialData,
            AuthError::PublicKeyMissing => Error::PublicKeyMissing,
        }
    }

    /// The kind that an attestation object error is reported as.
    pub fn from_attestation(e: AttestationError) -> (r: Error)
        ensures
            r == attestation_error(e),
    {
        match e {
            AttestationError::CborDecode => Error::CborDecode,
            AttestationError::UnsupportedAttestationFormat => Error::UnsupportedAttestationFormat,
            AttestationError::AuthData(a) => Error::from_auth(a),
        }
    }

    /// The kind that a fido-u2f statement error is reported as.
    pub fn from_u2f(e: U2fError) -> (r: Error)
        ensures
            r == u2f_error(e),
    {
        match e {
            U2fError::TooManyX509Certificates => Error::TooManyX509Certificates,
            U2fError::BadX509Certificate => Error::BadX509Certificate,
            U2fError::CredDataMissing => Error::MissingCredentialData,
            U2fError::PublicKeyMissing => Error::PublicKeyMissing,
            U2fError::SignatureFailed => Error::SignatureFailed,
        }
    }

    /// A short description of the error kind.
    pub fn message(&self) -> (r: &'static str) {
        match self {
            Error::IncorrectResponseType => "incorrect response type",
            Error::Base64Decode => "invalid base64",
            Error::JsonDecode => "invalid client data JSON",
            Error::CborDecode => "invalid attestation CBOR",
            Error::WebAuthnTypeMismatch => "WebAuthn type mismatch",
            Error::ChallengeMismatch => "challenge mismatch",
            Error::OriginMismatch => "origin mismatch",
            Error::CredentialIdMismatch => "credential id mismatch",
            Error::RpIdHashMismatch => "RP ID hash mismatch",
            Error::UserNotPresent => "user not present",
            Error::UserNotVerified => "user not verified",
            Error::UnsupportedAttestationFormat => "unsupported attestation format",
            Error::TooManyX509Certificates => "too many X.509 certificates",
            Error::BadX509Certificate => "bad X.509 certificate",
            Error::InvalidCosePublicKey => "invalid COSE public key",
            Error::PublicKeyMissing => "public key missing",
            Error::SignatureFailed => "signature failed",
            Error::DeviceNotFound => "device not found",
            Error::CounterRegression => "signature counter regression",
            Error::MalformedAuthenticatorData => "malformed authenticator data",
            Error::UnsupportedExtensions => "unsupported extensions",
            Error::MissingCredentialData => "missing attested credential data",
        }
    }
}

} // verus!
