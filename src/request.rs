//! The request objects sent to the client: credential creation (register)
//! and assertion (authenticate), each with a fresh random challenge.

use crate::config::{UserVerification, WebAuthnConfig};
use crate::encoding::{base64_symbol, base64url_encode, base64url_text, random_bytes};
use crate::pk::{PublicKeyDescriptor, PublicKeyParams, PublicKeyAlgorithm, PublicKeyCredentialType, Transport};
use crate::response::Device;
use crate::rp::RelyingParty;
use crate::user::User;
use vstd::prelude::*;
use vstd::slice::slice_to_vec;

verus! {

/// The length of a challenge in bytes.
pub const CHALLENGE_LEN: usize = 32;

/// Which kind of authenticator to prefer.
#[derive(Clone, Copy, Debug, PartialEq, Eq, Structural)]
pub enum AuthenticatorAttachment {
    /// Built into the device (fingerprint reader, platform TPM).
    Platform,
    /// Plugged in or nearby (security key, phone).
    CrossPlatform,
}

/// Requirements on the authenticator that creates a credential.
#[derive(Clone, Copy, Debug, PartialEq, Eq, Structural)]
pub struct AuthenticatorCritera {
    /// The attachment to filter on, if any.
    pub authenticator_attachement: Option<AuthenticatorAttachment>,
    /// Whether a client-side resident credential is required.
    pub require_resident_key: bool,
    /// The user verification requirement.
    pub user_verification: UserVerification,
}

impl Default for AuthenticatorCritera {
    /// Any attachment, no resident key, user verification preferred.
    fn default() -> (r: AuthenticatorCritera)
        ensures
            r.authenticator_attachement is None,
            !r.require_resident_key,
            r.user_verification == UserVerification::Preferred,
    {
        AuthenticatorCritera {
            authenticator_attachement: None,
            require_resident_key: false,
            user_verification: UserVerification::Preferred,
        }
    }
}

/// How much attestation the Relying Party wants.
#[derive(Clone, Copy, Debug, PartialEq, Eq, Structural)]
pub enum AttestationPreference {
    /// `none`: no attestation wanted.
    NoAttestation,
    /// `indirect`: an anonymized attestation is acceptable.
    Indirect,
    /// `direct`: the authenticator's own attestation.
    Direct,
}

/// The options for `navigator.credentials.create()`.
#[derive(Clone, Debug)]
pub struct WebAuthnRegisterRequest {
    /// The random challenge the authenticator signs.
    pub challenge: Vec<u8>,
    /// The Relying Party.
    pub rp: RelyingParty,
    /// The account the credential is for.
    pub user: User,
    /// How long, in milliseconds, the client should wait.
    pub timeout: Option<u32>,
    /// Which authenticators are acceptable.
    pub authenticator_selection: AuthenticatorCritera,
    /// The attestation preference.
    pub attestation: AttestationPreference,
    /// The acceptable credential kinds, most preferred first.
    pub pub_key_cred_params: Vec<PublicKeyParams>,
}

impl WebAuthnRegisterRequest {
    /// A creation request with a fresh 32-byte challenge from the CSPRNG,
    /// ES256 credentials, default authenticator criteria, direct
    /// attestation and no timeout.
    pub fn new(rp: RelyingParty, user: User) -> (r: Self)
        ensures
            r.challenge@.len() == CHALLENGE_LEN,
            r.rp == rp,
            r.user == user,
            r.timeout is None,
            r.attestation == AttestationPreference::Direct,
            r.authenticator_selection.authenticator_attachement is None,
            !r.authenticator_selection.require_resident_key,
            r.authenticator_selection.user_verification == UserVerification::Preferred,
            r.pub_key_cred_params@.len() == 1,
            r.pub_key_cred_params@[0].alg == PublicKeyAlgorithm::ES256,
            r.pub_key_cred_params@[0].ty == PublicKeyCredentialType::PublicKey,
    {
        Self::with_challenge(random_bytes(CHALLENGE_LEN), rp, user)
    }

    /// The same request as `new`, with the given challenge.
    pub fn with_challenge(challenge: Vec<u8>, rp: RelyingParty, user: User) -> (r: Self)
        ensures
            r.challenge == challenge,
            r.rp == rp,
            r.user == user,
            r.timeout is None,
            r.attestation == AttestationPreference::Direct,
            r.authenticator_selection.authenticator_attachement is None,
            !r.authenticator_selection.require_resident_key,
            r.authenticator_selection.user_verification == UserVerification::Preferred,
            r.pub_key_cred_params@.len() == 1,
            r.pub_key_cred_params@[0].alg == PublicKeyAlgorithm::ES256,
            r.pub_key_cred_params@[0].ty == PublicKeyCredentialType::PublicKey,
    {
        let mut params: Vec<PublicKeyParams> = Vec::new();
        params.push(PublicKeyParams::default());
        WebAuthnRegisterRequest {
            challenge,
            rp,
            user,
            timeout: None,
            authenticator_selection: AuthenticatorCritera::default(),
            attestation: AttestationPreference::Direct,
            pub_key_cred_params: params,
        }
    }

    /// Sets how long, in milliseconds, the client should wait.
    pub fn set_timeout(&mut self, timeout: u32) -> (r: &mut Self)
        ensures
            *r == (Self { timeout: Some(timeout), ..*old(self) }),
            *final(self) == *final(r),
    {
        self.timeout = Some(timeout);
        self
    }

    /// Sets the authenticator requirements.
    pub fn set_auth_criteria(&mut self, criteria: AuthenticatorCritera) -> (r: &mut Self)
        ensures
            *r == (Self { authenticator_selection: criteria, ..*old(self) }),
            *final(self) == *final(r),
    {
        self.authenticator_selection = criteria;
        self
    }

    /// Sets the attestation preference.
    pub fn set_attestation(&mut self, attestation: AttestationPreference) -> (r: &mut Self)
        ensures
            *r == (Self { attestation, ..*old(self) }),
            *final(self) == *final(r),
    {
        self.attestation = attestation;
        self
    }

    /// The challenge as base64url text without padding, as it comes back in
    /// the client data.
    pub fn challenge(&self) -> (r: String)
        ensures
            r@ == base64url_text(self.challenge@),
            r@.len() == (4 * self.challenge@.len() + 2) / 3,
            self.challenge@.len() == CHALLENGE_LEN ==> r@.len() == 43,
            forall|i: int| 0 <= i < r@.len() ==> base64_symbol(#[trigger] r@[i], true),
    {
        base64url_encode(self.challenge.as_slice())
    }

    /// The Relying Party of this request.
    pub fn relying_party(&self) -> (r: &RelyingParty)
        ensures
            *r == self.rp,
    {
        &self.rp
    }
}

/// The options for `navigator.credentials.get()`.
#[derive(Clone, Debug)]
pub struct AuthenticateRequest {
    /// The random challenge the authenticator signs.
    pub challenge: Vec<u8>,
    /// How long, in milliseconds, the client should wait.
    pub timeout: Option<u32>,
    /// The RP ID.
    pub rp_id: Option<String>,
    /// The credentials that may answer, most preferred first.
    pub allow_credentials: Vec<PublicKeyDescriptor>,
    /// The user verification requirement.
    pub user_verification: UserVerification,
}

impl AuthenticateRequest {
    /// An assertion request with a fresh 32-byte challenge from the CSPRNG
    /// that allows each of `devices`, for the RP ID of `config`.
    pub fn new(config: &WebAuthnConfig, devices: &[Device]) -> (r: AuthenticateRequest)
        ensures
            r.challenge@.len() == CHALLENGE_LEN,
            r.timeout is None,
            r.rp_id matches Some(id) && id@ == config.rp_id@,
            r.user_verification == UserVerification::Preferred,
            r.allow_credentials@.len() == devices@.len(),
            forall|k: int| 0 <= k < devices@.len() ==> {
                &&& (#[trigger] r.allow_credentials@[k]).id@ == devices@[k].id@
                &&& r.allow_credentials@[k].ty == PublicKeyCredentialType::PublicKey
                &&& r.allow_credentials@[k].transports@ == seq![Transport::Usb]
            },
    {
        Self::with_challenge(random_bytes(CHALLENGE_LEN), config, devices)
    }

    /// The same request as `new`, with the given challenge.
    pub fn with_challenge(challenge: Vec<u8>, config: &WebAuthnConfig, devices: &[Device]) -> (r: AuthenticateRequest)
        ensures
            r.challenge == challenge,
            r.timeout is None,
            r.rp_id matches Some(id) && id@ == config.rp_id@,
            r.user_verification == UserVerification::Preferred,
            r.allow_credentials@.len() == devices@.len(),
            forall|k: int| 0 <= k < devices@.len() ==> {
                &&& (#[trigger] r.allow_credentials@[k]).id@ == devices@[k].id@
                &&& r.allow_credentials@[k].ty == PublicKeyCredentialType::PublicKey
                &&& r.allow_credentials@[k].transports@ == seq![Transport::Usb]
            },
    {
        let mut allow: Vec<PublicKeyDescriptor> = Vec::new();
        let mut i: usize = 0;
        while i < devices.len()
            invariant
                i <= devices@.len(),
                allow@.len() == i,
                forall|k: int| 0 <= k < i ==> {
                    &&& (#[trigger] allow@[k]).id@ == devices@[k].id@
                    &&& allow@[k].ty == PublicKeyCredentialType::PublicKey
                    &&& allow@[k].transports@ == seq![Transport::Usb]
                },
            decreases devices@.len() - i,
        {
            allow.push(PublicKeyDescriptor::new(slice_to_vec(devices[i].id())));
            i = i + 1;
        }
        AuthenticateRequest {
            challenge,
            timeout: None,
            rp_id: Some(config.id().to_string()),
            allow_credentials: allow,
            user_verification: UserVerification::Preferred,
        }
    }

    /// The challenge as base64url text without padding, as it comes back in
    /// the client data.
    pub fn challenge(&self) -> (r: String)
        ensures
            r@ == base64url_text(self.challenge@),
            r@.len() == (4 * self.challenge@.len() + 2) / 3,
            self.challenge@.len() == CHALLENGE_LEN ==> r@.len() == 43,
            forall|i: int| 0 <= i < r@.len() ==> base64_symbol(#[trigger] r@[i], true),
    {
        base64url_encode(self.challenge.as_slice())
    }
}

} // verus!
