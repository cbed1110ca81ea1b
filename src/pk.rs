//! Public key credential parameters and descriptors sent to the client.

use vstd::prelude::*;

verus! {

/// COSE algorithm identifiers a Relying Party may ask for.
#[derive(Clone, Copy, Debug, PartialEq, Eq, Structural)]
pub enum PublicKeyAlgorithm {
    /// RSASSA-PKCS1-v1_5 with SHA-256 (-257).
    RS256,
    /// ECDSA with SHA-512 (-36).
    ES512,
    /// ECDSA with SHA-384 (-35).
    ES384,
    /// ECDSA with SHA-256 (-7).
    ES256,
}

/// The COSE identifier of an algorithm.
pub open spec fn algorithm_id(alg: PublicKeyAlgorithm) -> int {
    match alg {
        PublicKeyAlgorithm::RS256 => -257,
        PublicKeyAlgorithm::ES512 => -36,
        PublicKeyAlgorithm::ES384 => -35,
        PublicKeyAlgorithm::ES256 => -7,
    }
}

impl PublicKeyAlgorithm {
    /// The COSE identifier of this algorithm.
    pub fn value(&self) -> (r: i32)
        ensures
            r as int == algorithm_id(*self),
    {
        match self {
            PublicKeyAlgorithm::RS256 => -257,
            PublicKeyAlgorithm::ES512 => -36,
            PublicKeyAlgorithm::ES384 => -35,
            PublicKeyAlgorithm::ES256 => -7,
        }
    }
}

/// The kinds of credential; only public-key credentials exist.
#[derive(Clone, Copy, Debug, PartialEq, Eq, Structural)]
pub enum PublicKeyCredentialType {
    /// `public-key`.
    PublicKey,
}

/// One acceptable kind of credential to create, by algorithm.
#[derive(Clone, Copy, Debug, PartialEq, Eq, Structural)]
pub struct PublicKeyParams {
    pub ty: PublicKeyCredentialType,
    pub alg: PublicKeyAlgorithm,
}

impl Default for PublicKeyParams {
    /// A public-key credential with ES256.
    fn default() -> (r: PublicKeyParams)
        ensures
            r.ty == PublicKeyCredentialType::PublicKey,
            r.alg == PublicKeyAlgorithm::ES256,
    {
        PublicKeyParams { ty: PublicKeyCredentialType::PublicKey, alg: PublicKeyAlgorithm::ES256 }
    }
}

/// A public-key credential, by its ID.
#[derive(Clone, Debug)]
pub struct PublicKeyCredential {
    pub ty: PublicKeyCredentialType,
    pub id: Vec<u8>,
}

impl PublicKeyCredential {
    /// The public-key credential with this ID.
    pub fn new(id: Vec<u8>) -> (r: PublicKeyCredential)
        ensures
            r.ty == PublicKeyCredentialType::PublicKey,
            r.id == id,
    {
        PublicKeyCredential { ty: PublicKeyCredentialType::PublicKey, id }
    }
}

/// How a client may reach an authenticator.
#[derive(Clone, Copy, Debug, PartialEq, Eq, Structural)]
pub enum Transport {
    Usb,
    Nfc,
    Ble,
    Internal,
    Lightning,
}

/// A credential that an assertion request allows.
#[derive(Clone, Debug)]
pub struct PublicKeyDescriptor {
    pub ty: PublicKeyCredentialType,
    pub id: Vec<u8>,
    pub transports: Vec<Transport>,
}

impl PublicKeyDescriptor {
    /// The public-key credential with this ID, reachable over USB.
    pub fn new(id: Vec<u8>) -> (r: PublicKeyDescriptor)
        ensures
            r.ty == PublicKeyCredentialType::PublicKey,
            r.id == id,
            r.transports@ == seq![Transport::Usb],
    {
        let mut transports: Vec<Transport> = Vec::new();
        transports.push(Transport::Usb);
        PublicKeyDescriptor { ty: PublicKeyCredentialType::PublicKey, id, transports }
    }
}

} // verus!
