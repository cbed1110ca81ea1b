//! Validation of the responses a client returns: registration (attestation)
//! yields a `Device`; authentication (assertion) checks a signature by a
//! registered device.

use crate::attestation::{
    attestation_object_spec, parse as parse_attestation, u2f_validate_spec, AttestationFormat,
    AttestationFormatView,
};
use crate::auth_data::{
    auth_data_spec, constant_time_eq, flag_set, validate_spec, AuthData, FLAG_AT,
};
use crate::client_data::{client_data_spec, client_validate_spec, ClientData, WebAuthnType};
use crate::config::WebAuthnConfig;
use crate::cose::{opt_seq, raw_public_spec, result_view};
use crate::crypto::{ecdsa_p256_valid, ecdsa_p256_verify, sha256, sha256_of};
use crate::encoding::{base64_decode, base64_decoded, base64_symbol};
use crate::error::{attestation_error, auth_error, client_error, u2f_error, Error};
use crate::json::{json_member, json_member_of, JsonEntry, JsonEntryView};
use vstd::prelude::*;
use vstd::string::StrSliceExecFns;
use vstd::utf8::encode_utf8;

verus! {

/// Whether every character of `text` is a symbol of one of the two base64
/// alphabets, or padding.
pub open spec fn base64_chars(text: Seq<char>) -> bool {
    forall|i: int|
        0 <= i < text.len() ==> base64_symbol(#[trigger] text[i], true) || base64_symbol(text[i], false)
            || text[i] == '='
}

/// The bytes a base64 field decodes to: nothing where a character is
/// outside both alphabets; otherwise with the URL-safe alphabet, or else
/// with the standard one (padding optional either way).
pub open spec fn decode_flexible(text: Seq<char>) -> Option<Seq<u8>> {
    if !base64_chars(text) {
        None
    } else {
        match base64_decoded(text, true) {
            Some(b) => Some(b),
            None => base64_decoded(text, false),
        }
    }
}

/// Decodes a base64 field in either alphabet (see `decode_flexible`).
pub fn decode_base64(text: &str) -> (r: Option<Vec<u8>>)
    ensures
        opt_seq(r) == decode_flexible(text@),
{
    match base64_decode(text, true) {
        Some(b) => Some(b),
        None => base64_decode(text, false),
    }
}

/// A registered credential: what registration yields and the caller keeps.
#[derive(Clone, Debug)]
pub struct Device {
    /// The credential ID.
    pub id: Vec<u8>,
    /// The public key, X9.62 uncompressed.
    pub pk: Vec<u8>,
    /// The last signature counter seen.
    pub count: u32,
}

/// A registered credential, as values.
pub struct DeviceView {
    pub id: Seq<u8>,
    pub pk: Seq<u8>,
    pub count: u32,
}

impl View for Device {
    type V = DeviceView;

    open spec fn view(&self) -> DeviceView {
        DeviceView { id: self.id@, pk: self.pk@, count: self.count }
    }
}

impl Device {
    /// A device with the given credential ID, raw public key and counter.
    pub fn new(id: Vec<u8>, public_key: Vec<u8>, count: u32) -> (r: Device)
        ensures
            r.id == id,
            r.pk == public_key,
            r.count == count,
    {
        Device { id, pk: public_key, count }
    }

    /// The credential ID.
    pub fn id(&self) -> (r: &[u8])
        ensures
            r@ == self.id@,
    {
        self.id.as_slice()
    }

    /// The X9.62 uncompressed public key.
    pub fn public_key(&self) -> (r: &[u8])
        ensures
            r@ == self.pk@,
    {
        self.pk.as_slice()
    }

    /// The last signature counter seen.
    pub fn count(&self) -> (r: u32)
        ensures
            r == self.count,
    {
        self.count
    }
}

/// The answer to a `create()` call.
#[derive(Clone, Debug)]
pub struct CreateResponse {
    /// The attestation object, base64.
    pub attestation_data: String,
    /// The client data JSON, base64url.
    pub client_data_json: String,
}

/// The answer to a `get()` call.
#[derive(Clone, Debug)]
pub struct GetResponse {
    /// The authenticator data, base64.
    pub authenticator_data: String,
    /// The assertion signature, base64.
    pub signature: String,
    /// The user handle, base64; `None` or empty when not given.
    pub user_handle: Option<String>,
    /// The client data JSON, base64.
    pub client_data_json: String,
}

/// Which call a response answers, with its payload.
#[derive(Clone, Debug)]
pub enum ResponseType {
    Create(CreateResponse),
    Get(GetResponse),
}

/// A public-key credential response received from the client.
#[derive(Clone, Debug)]
pub struct Response {
    /// The credential ID, base64url.
    pub id: String,
    /// The credential ID again, base64url.
    pub raw_id: String,
    /// The payload.
    pub response: ResponseType,
    /// The credential type (`public-key`).
    pub ty: String,
}

impl Response {
    /// Which operation this response answers.
    pub fn ty(&self) -> (r: WebAuthnType)
        ensures
            r == (if self.response is Create {
                WebAuthnType::Create
            } else {
                WebAuthnType::Get
            }),
    {
        match self.response {
            ResponseType::Create(_) => WebAuthnType::Create,
            ResponseType::Get(_) => WebAuthnType::Get,
        }
    }
}

/// What validating a registration response decides, check by check:
/// client data, attestation object, authenticator data, the fido-u2f
/// statement, then the credential ID against `raw_id`.
pub open spec fn register_spec(
    resp: CreateResponse,
    raw_id: Seq<char>,
    cfg: WebAuthnConfig,
    challenge: Seq<char>,
) -> Result<DeviceView, Error> {
    match decode_flexible(resp.client_data_json@) {
        None => Err(Error::Base64Decode),
        Some(cd) => match client_data_spec(cd) {
            Err(e) => Err(client_error(e)),
            Ok(c) => match client_validate_spec(c, WebAuthnType::Create, cfg, challenge) {
                Err(e) => Err(client_error(e)),
                Ok(_) => match decode_flexible(resp.attestation_data@) {
                    None => Err(Error::Base64Decode),
                    Some(obj) => match attestation_object_spec(obj) {
                        Err(e) => Err(attestation_error(e)),
                        Ok((auth, format)) => match validate_spec(
                            auth,
                            encode_utf8(cfg.rp_id@),
                            cfg.user_verification,
                        ) {
                            Err(e) => Err(auth_error(e)),
                            Ok(_) => match format {
                                AttestationFormatView::FidoU2f(stmt) => match u2f_validate_spec(
                                    stmt,
                                    auth,
                                    sha256_of(cd),
                                ) {
                                    Err(e) => Err(u2f_error(e)),
                                    Ok((id, pk)) => match decode_flexible(raw_id) {
                                        None => Err(Error::Base64Decode),
                                        Some(raw) => if raw != id {
                                            Err(Error::CredentialIdMismatch)
                                        } else {
                                            Ok(DeviceView { id, pk, count: auth.counter })
                                        },
                                    },
                                },
                                _ => Err(Error::UnsupportedAttestationFormat),
                            },
                        },
                    },
                },
            },
        },
    }
}

impl CreateResponse {
    /// Validates this registration response (see `register_spec`).
    pub fn validate(&self, raw_id: &str, cfg: &WebAuthnConfig, challenge: &str) -> (r: Result<Device, Error>)
        ensures
            result_view(r) == register_spec(*self, raw_id@, *cfg, challenge@),
    {
        let cd = match decode_base64(self.client_data_json.as_str()) {
            Some(b) => b,
            None => return Err(Error::Base64Decode),
        };
        let client_data_hash = sha256(cd.as_slice());
        let client_data = match ClientData::parse(cd.as_slice()) {
            Ok(c) => c,
            Err(e) => return Err(Error::from_client_data(e)),
        };
        match client_data.validate(WebAuthnType::Create, cfg, challenge) {
            Ok(()) => {},
            Err(e) => return Err(Error::from_client_data(e)),
        }
        let obj = match decode_base64(self.attestation_data.as_str()) {
            Some(b) => b,
            None => return Err(Error::Base64Decode),
        };
        let (auth, format) = match parse_attestation(obj.as_slice()) {
            Ok(p) => p,
            Err(e) => return Err(Error::from_attestation(e)),
        };
        match auth.validate(cfg) {
            Ok(()) => {},
            Err(e) => return Err(Error::from_auth(e)),
        }
        let (id, pk) = match format {
            AttestationFormat::FidoU2f(stmt) => match stmt.validate(&auth, client_data_hash.as_slice()) {
                Ok(p) => p,
                Err(e) => return Err(Error::from_u2f(e)),
            },
            _ => return Err(Error::UnsupportedAttestationFormat),
        };
        let raw = match decode_base64(raw_id) {
            Some(b) => b,
            None => return Err(Error::Base64Decode),
        };
        if !constant_time_eq(raw.as_slice(), id.as_slice()) {
            return Err(Error::CredentialIdMismatch);
        }
        Ok(Device::new(id, pk, auth.counter))
    }
}

/// Validates a registration response: `challenge` is the base64url text of
/// the challenge issued with the creation request. Yields the new device.
pub fn register(form: Response, config: &WebAuthnConfig, challenge: &str) -> (r: Result<Device, Error>)
    ensures
        match form.response {
            ResponseType::Create(c) => result_view(r) == register_spec(c, form.raw_id@, *config, challenge@),
            ResponseType::Get(_) => r == Err::<Device, Error>(Error::IncorrectResponseType),
        },
{
    match &form.response {
        ResponseType::Create(resp) => resp.validate(form.raw_id.as_str(), config, challenge),
        ResponseType::Get(_) => Err(Error::IncorrectResponseType),
    }
}

/// Whether a new signature counter is a regression from the stored one: it
/// did not advance, and the two are not both zero (an authenticator without
/// a counter).
pub open spec fn counter_regressed(stored: u32, received: u32) -> bool {
    !(received > stored || (received == 0 && stored == 0))
}

/// Decides whether the counter regressed (see `counter_regressed`).
pub fn check_counter(stored: u32, received: u32) -> (r: bool)
    ensures
        r == counter_regressed(stored, received),
{
    !(received > stored || (received == 0 && stored == 0))
}

/// The outcome of a successful authentication.
#[derive(Clone, Debug)]
pub struct Authenticated {
    /// The new signature counter, for the caller to store.
    pub sign_count: u32,
    /// Set when the counter did not advance: a possibly cloned authenticator.
    pub counter_regression: bool,
    /// The user handle the authenticator returned, if any.
    pub user_handle: Option<Vec<u8>>,
}

/// An authentication outcome, as values.
pub struct AuthenticatedView {
    pub sign_count: u32,
    pub counter_regression: bool,
    pub user_handle: Option<Seq<u8>>,
}

impl View for Authenticated {
    type V = AuthenticatedView;

    open spec fn view(&self) -> AuthenticatedView {
        AuthenticatedView {
            sign_count: self.sign_count,
            counter_regression: self.counter_regression,
            user_handle: opt_seq(self.user_handle),
        }
    }
}

impl Authenticated {
    /// The new counter, or `CounterRegression` for a caller that treats a
    /// counter that did not advance as a failure.
    pub fn strict_count(&self) -> (r: Result<u32, Error>)
        ensures
            self.counter_regression ==> r == Err::<u32, Error>(Error::CounterRegression),
            !self.counter_regression ==> r == Ok::<u32, Error>(self.sign_count),
    {
        if self.counter_regression {
            Err(Error::CounterRegression)
        } else {
            Ok(self.sign_count)
        }
    }
}

/// The number of devices among the first `n` whose ID is `id`.
pub open spec fn match_count(devices: Seq<Device>, id: Seq<u8>, n: nat) -> nat
    decreases n,
{
    if n == 0 {
        0
    } else {
        match_count(devices, id, (n - 1) as nat) + if devices[n - 1].id@ == id {
            1nat
        } else {
            0nat
        }
    }
}

/// The index of the first device among the first `n` whose ID is `id`.
pub open spec fn first_match(devices: Seq<Device>, id: Seq<u8>, n: nat) -> Option<int>
    decreases n,
{
    if n == 0 {
        None
    } else {
        match first_match(devices, id, (n - 1) as nat) {
            Some(k) => Some(k),
            None => if devices[n - 1].id@ == id {
                Some(n - 1)
            } else {
                None
            },
        }
    }
}

/// The device whose ID is `id`, where exactly one has it.
pub open spec fn device_for(devices: Seq<Device>, id: Seq<u8>) -> Option<DeviceView> {
    if match_count(devices, id, devices.len()) == 1 {
        match first_match(devices, id, devices.len()) {
            Some(k) => Some(devices[k]@),
            None => None,
        }
    } else {
        None
    }
}

/// The user handle of an assertion: absent when not given or empty.
pub open spec fn user_handle_spec(handle: Option<String>) -> Result<Option<Seq<u8>>, Error> {
    match handle {
        None => Ok(None),
        Some(t) => if t@.len() == 0 {
            Ok(None)
        } else {
            match decode_flexible(t@) {
                None => Err(Error::Base64Decode),
                Some(b) => Ok(Some(b)),
            }
        },
    }
}

/// The data an assertion signs: the authenticator data followed by the
/// SHA-256 of the client data JSON.
pub open spec fn assertion_signed_data(auth: Seq<u8>, client_data: Seq<u8>) -> Seq<u8> {
    auth + sha256_of(client_data)
}

/// What validating an assertion decides, check by check: the
/// binary fields decode, the client data checks out for `get`, the
/// authenticator data has no attested credential and checks out, exactly
/// one device has the credential ID, and its key verifies the signature.
pub open spec fn authenticate_spec(
    resp: GetResponse,
    id: Seq<char>,
    cfg: WebAuthnConfig,
    challenge: Seq<char>,
    devices: Seq<Device>,
) -> Result<AuthenticatedView, Error> {
    match (
        decode_flexible(resp.client_data_json@),
        decode_flexible(resp.authenticator_data@),
        decode_flexible(resp.signature@),
        user_handle_spec(resp.user_handle),
    ) {
        (Some(cd), Some(ad), Some(sig), Ok(handle)) => match client_data_spec(cd) {
            Err(e) => Err(client_error(e)),
            Ok(c) => match client_validate_spec(c, WebAuthnType::Get, cfg, challenge) {
                Err(e) => Err(client_error(e)),
                Ok(_) => match auth_data_spec(ad) {
                    Err(e) => Err(auth_error(e)),
                    Ok(auth) => if flag_set(auth.flags, FLAG_AT) {
                        Err(Error::MalformedAuthenticatorData)
                    } else {
                        match validate_spec(auth, encode_utf8(cfg.rp_id@), cfg.user_verification) {
                            Err(e) => Err(auth_error(e)),
                            Ok(_) => match decode_flexible(id) {
                                None => Err(Error::Base64Decode),
                                Some(cred_id) => match device_for(devices, cred_id) {
                                    None => Err(Error::DeviceNotFound),
                                    Some(device) => if !ecdsa_p256_valid(
                                        device.pk,
                                        assertion_signed_data(ad, cd),
                                        sig,
                                    ) {
                                        Err(Error::SignatureFailed)
                                    } else {
                                        Ok(
                                            AuthenticatedView {
                                                sign_count: auth.counter,
                                                counter_regression: counter_regressed(device.count, auth.counter),
                                                user_handle: handle,
                                            },
                                        )
                                    },
                                },
                            },
                        }
                    },
                },
            },
        },
        (Some(_), Some(_), Some(_), Err(e)) => Err(e),
        _ => Err(Error::Base64Decode),
    }
}

/// Finds the one device whose ID is `id`.
fn find_device<'a>(devices: &'a [Device], id: &[u8]) -> (r: Option<&'a Device>)
    ensures
        match r {
            Some(d) => device_for(devices@, id@) == Some(d@),
            None => device_for(devices@, id@) is None,
        },
{
    let mut count: usize = 0;
    let mut found: Option<usize> = None;
    let mut i: usize = 0;
    while i < devices.len()
        invariant
            i <= devices@.len(),
            count == match_count(devices@, id@, i as nat),
            count <= i,
            match found {
                Some(k) => first_match(devices@, id@, i as nat) == Some(k as int) && k < i,
                None => first_match(devices@, id@, i as nat) is None,
            },
        decreases devices@.len() - i,
    {
        if constant_time_eq(devices[i].id.as_slice(), id) {
            count = count + 1;
            if found.is_none() {
                found = Some(i);
            }
        }
        i = i + 1;
    }
    if count != 1 {
        return None;
    }
    match found {
        Some(k) => Some(&devices[k]),
        None => None,
    }
}

/// Decodes the optional user handle (see `user_handle_spec`).
fn decode_user_handle(handle: &Option<String>) -> (r: Result<Option<Vec<u8>>, Error>)
    ensures
        match r {
            Ok(o) => Ok(opt_seq(o)),
            Err(e) => Err(e),
        } == user_handle_spec(*handle),
{
    match handle {
        None => Ok(None),
        Some(t) => if t.as_str().unicode_len() == 0 {
            Ok(None)
        } else {
            match decode_base64(t.as_str()) {
                None => Err(Error::Base64Decode),
                Some(b) => Ok(Some(b)),
            }
        },
    }
}

impl GetResponse {
    /// Validates this assertion for the credential `id` (base64url) against
    /// the registered `devices` (see `authenticate_spec`).
    pub fn validate(
        &self,
        id: &str,
        cfg: &WebAuthnConfig,
        challenge: &str,
        devices: &[Device],
    ) -> (r: Result<Authenticated, Error>)
        ensures
            result_view(r) == authenticate_spec(*self, id@, *cfg, challenge@, devices@),
    {
        let cd = decode_base64(self.client_data_json.as_str());
        let ad = decode_base64(self.authenticator_data.as_str());
        let sig = decode_base64(self.signature.as_str());
        let (cd, ad, sig) = match (cd, ad, sig) {
            (Some(cd), Some(ad), Some(sig)) => (cd, ad, sig),
            _ => return Err(Error::Base64Decode),
        };
        let handle = match decode_user_handle(&self.user_handle) {
            Ok(h) => h,
            Err(e) => return Err(e),
        };
        let client_data = match ClientData::parse(cd.as_slice()) {
            Ok(c) => c,
            Err(e) => return Err(Error::from_client_data(e)),
        };
        match client_data.validate(WebAuthnType::Get, cfg, challenge) {
            Ok(()) => {},
            Err(e) => return Err(Error::from_client_data(e)),
        }
        let auth = match AuthData::parse(ad.as_slice()) {
            Ok(a) => a,
            Err(e) => return Err(Error::from_auth(e)),
        };
        if auth.has_credential() {
            return Err(Error::MalformedAuthenticatorData);
        }
        match auth.validate(cfg) {
            Ok(()) => {},
            Err(e) => return Err(Error::from_auth(e)),
        }
        let cred_id = match decode_base64(id) {
            Some(b) => b,
            None => return Err(Error::Base64Decode),
        };
        let device = match find_device(devices, cred_id.as_slice()) {
            Some(d) => d,
            None => return Err(Error::DeviceNotFound),
        };
        let hash = sha256(cd.as_slice());
        let mut signed: Vec<u8> = Vec::new();
        signed.extend_from_slice(ad.as_slice());
        signed.extend_from_slice(hash.as_slice());
        assert(signed@ =~= assertion_signed_data(ad@, cd@));
        if !ecdsa_p256_verify(device.public_key(), signed.as_slice(), sig.as_slice()) {
            return Err(Error::SignatureFailed);
        }
        Ok(
            Authenticated {
                sign_count: auth.count(),
                counter_regression: check_counter(device.count(), auth.count()),
                user_handle: handle,
            },
        )
    }
}

/// Validates an authentication response: `challenge` is the base64url text
/// of the challenge issued with the assertion request, `devices` the user's
/// registered devices.
pub fn authenticate(form: Response, config: &WebAuthnConfig, challenge: &str, devices: &[Device]) -> (r: Result<
    Authenticated,
    Error,
>)
    ensures
        match form.response {
            ResponseType::Get(g) => result_view(r) == authenticate_spec(g, form.id@, *config, challenge@, devices@),
            ResponseType::Create(_) => r == Err::<Authenticated, Error>(Error::IncorrectResponseType),
        },
{
    match &form.response {
        ResponseType::Get(resp) => resp.validate(form.id.as_str(), config, challenge, devices),
        ResponseType::Create(_) => Err(Error::IncorrectResponseType),
    }
}

/// Registration then authentication: when registration yields a device,
/// that device, as the only one registered, accepts an assertion made by the
/// same credential for the issued challenge (decoding, client data and
/// authenticator data all check out, the assertion names the registered
/// credential ID, and the signature verifies under the registered key). The
/// new counter is the authenticator's, and when it is not flagged as a
/// regression it is at least the registered one.
pub proof fn lemma_round_trip(
    create: CreateResponse,
    raw_id: Seq<char>,
    cfg: WebAuthnConfig,
    reg_challenge: Seq<char>,
    device: Device,
    get: GetResponse,
    id: Seq<char>,
    challenge: Seq<char>,
    cd: Seq<u8>,
    ad: Seq<u8>,
    sig: Seq<u8>,
)
    requires
        register_spec(create, raw_id, cfg, reg_challenge) == Ok::<DeviceView, Error>(device@),
        decode_flexible(get.client_data_json@) == Some(cd),
        decode_flexible(get.authenticator_data@) == Some(ad),
        decode_flexible(get.signature@) == Some(sig),
        get.user_handle is None,
        client_data_spec(cd) matches Ok(c) && client_validate_spec(c, WebAuthnType::Get, cfg, challenge) is Ok,
        auth_data_spec(ad) matches Ok(a) && !flag_set(a.flags, FLAG_AT) && validate_spec(
            a,
            encode_utf8(cfg.rp_id@),
            cfg.user_verification,
        ) is Ok,
        decode_flexible(id) == decode_flexible(raw_id),
        ecdsa_p256_valid(device.pk@, assertion_signed_data(ad, cd), sig),
    ensures
        authenticate_spec(get, id, cfg, challenge, seq![device]) matches Ok(r) && r.sign_count
            == auth_data_spec(ad)->Ok_0.counter && (!r.counter_regression ==> r.sign_count >= device.count),
{
    let devices = seq![device];
    assert(devices[0] == device);
    assert(match_count(devices, device.id@, 0) == 0);
    assert(first_match(devices, device.id@, 0) is None);
    assert(match_count(devices, device.id@, 1) == 1);
    assert(first_match(devices, device.id@, 1) == Some(0int));
    assert(device_for(devices, device.id@) == Some(device@));
}

/// The challenge is checked before any signature work: an assertion whose
/// binary fields decode (they are decoded first) and whose client data
/// names `webauthn.get` with another challenge than the issued one fails
/// with `ChallengeMismatch`, whatever its signature.
pub proof fn lemma_challenge_checked_first(
    get: GetResponse,
    id: Seq<char>,
    cfg: WebAuthnConfig,
    challenge: Seq<char>,
    devices: Seq<Device>,
    cd: Seq<u8>,
)
    requires
        decode_flexible(get.client_data_json@) == Some(cd),
        decode_flexible(get.authenticator_data@) is Some,
        decode_flexible(get.signature@) is Some,
        user_handle_spec(get.user_handle) is Ok,
        client_data_spec(cd) matches Ok(c) && c.ty == crate::client_data::operation_name(WebAuthnType::Get)
            && c.challenge != challenge,
    ensures
        authenticate_spec(get, id, cfg, challenge, devices) == Err::<AuthenticatedView, Error>(Error::ChallengeMismatch),
{
}

/// Origin binding: client data that names the right operation and challenge
/// but another origin than the configured one fails registration and
/// authentication with `OriginMismatch`.
pub proof fn lemma_origin_binding(
    create: CreateResponse,
    raw_id: Seq<char>,
    get: GetResponse,
    id: Seq<char>,
    cfg: WebAuthnConfig,
    challenge: Seq<char>,
    devices: Seq<Device>,
    create_cd: Seq<u8>,
    get_cd: Seq<u8>,
)
    requires
        decode_flexible(create.client_data_json@) == Some(create_cd),
        client_data_spec(create_cd) matches Ok(c) && c.ty == crate::client_data::operation_name(WebAuthnType::Create)
            && c.challenge == challenge && c.origin != cfg.rp_origin@,
        decode_flexible(get.client_data_json@) == Some(get_cd),
        decode_flexible(get.authenticator_data@) is Some,
        decode_flexible(get.signature@) is Some,
        user_handle_spec(get.user_handle) is Ok,
        client_data_spec(get_cd) matches Ok(c) && c.ty == crate::client_data::operation_name(WebAuthnType::Get)
            && c.challenge == challenge && c.origin != cfg.rp_origin@,
    ensures
        register_spec(create, raw_id, cfg, challenge) == Err::<DeviceView, Error>(Error::OriginMismatch),
        authenticate_spec(get, id, cfg, challenge, devices) == Err::<AuthenticatedView, Error>(Error::OriginMismatch),
{
}

/// RP ID hash binding: a registration whose client data checks out but
/// whose authenticator data carries another RP ID hash than SHA-256 of the
/// configured RP ID fails with `RpIdHashMismatch`.
pub proof fn lemma_rp_id_hash_binding(
    create: CreateResponse,
    raw_id: Seq<char>,
    cfg: WebAuthnConfig,
    challenge: Seq<char>,
    cd: Seq<u8>,
    obj: Seq<u8>,
)
    requires
        decode_flexible(create.client_data_json@) == Some(cd),
        client_data_spec(cd) matches Ok(c) && client_validate_spec(c, WebAuthnType::Create, cfg, challenge) is Ok,
        decode_flexible(create.attestation_data@) == Some(obj),
        attestation_object_spec(obj) matches Ok((auth, _)) && auth.rp_id_hash != sha256_of(encode_utf8(cfg.rp_id@)),
    ensures
        register_spec(create, raw_id, cfg, challenge) == Err::<DeviceView, Error>(Error::RpIdHashMismatch),
{
}

/// Attestation format gating: once client data and authenticator data check
/// out, a statement format other than fido-u2f fails with
/// `UnsupportedAttestationFormat`, and a fido-u2f statement without exactly
/// one certificate fails with `TooManyX509Certificates`.
pub proof fn lemma_format_gating(
    create: CreateResponse,
    raw_id: Seq<char>,
    cfg: WebAuthnConfig,
    challenge: Seq<char>,
    cd: Seq<u8>,
    obj: Seq<u8>,
)
    requires
        decode_flexible(create.client_data_json@) == Some(cd),
        client_data_spec(cd) matches Ok(c) && client_validate_spec(c, WebAuthnType::Create, cfg, challenge) is Ok,
        decode_flexible(create.attestation_data@) == Some(obj),
        attestation_object_spec(obj) matches Ok((auth, _)) && validate_spec(
            auth,
            encode_utf8(cfg.rp_id@),
            cfg.user_verification,
        ) is Ok,
    ensures
        attestation_object_spec(obj)->Ok_0.1 matches AttestationFormatView::FidoU2f(stmt) ==> (stmt.x5c.len()
            != 1 ==> register_spec(create, raw_id, cfg, challenge) == Err::<DeviceView, Error>(
            Error::TooManyX509Certificates,
        )),
        !(attestation_object_spec(obj)->Ok_0.1 is FidoU2f) ==> register_spec(create, raw_id, cfg, challenge)
            == Err::<DeviceView, Error>(Error::UnsupportedAttestationFormat),
{
}

/// Counter monotonicity over successive authentications: a counter that
/// advances is accepted without a flag; once it is stored, the same nonzero
/// counter again is flagged; two zero counters (an authenticator without a
/// counter) are never flagged.
pub proof fn lemma_counter_sequence(stored: u32, first: u32, second: u32)
    ensures
        first > stored ==> !counter_regressed(stored, first),
        second == first && first > 0 ==> counter_regressed(first, second),
        second < first ==> counter_regressed(first, second),
        !counter_regressed(0, 0),
{
}

/// The text of a JSON member, where it is text.
pub open spec fn member_text(doc: Seq<u8>, key: Seq<char>) -> Option<Seq<char>> {
    match json_member_of(doc, key) {
        JsonEntryView::Text(t) => Some(t),
        _ => None,
    }
}

/// The first of three spellings of a member that holds text.
pub open spec fn aliased_text(doc: Seq<u8>, a: Seq<char>, b: Seq<char>, c: Seq<char>) -> Option<Seq<char>> {
    match member_text(doc, a) {
        Some(t) => Some(t),
        None => match member_text(doc, b) {
            Some(t) => Some(t),
            None => member_text(doc, c),
        },
    }
}

/// A response payload, as text values.
pub enum ResponseTypeView {
    Create { attestation_data: Seq<char>, client_data_json: Seq<char> },
    Get {
        authenticator_data: Seq<char>,
        signature: Seq<char>,
        user_handle: Option<Seq<char>>,
        client_data_json: Seq<char>,
    },
}

/// A response, as text values.
pub struct ResponseView {
    pub id: Seq<char>,
    pub raw_id: Seq<char>,
    pub response: ResponseTypeView,
    pub ty: Seq<char>,
}

/// A response payload, as text values.
pub open spec fn payload_view(p: ResponseType) -> ResponseTypeView {
    match p {
        ResponseType::Create(c) => ResponseTypeView::Create {
            attestation_data: c.attestation_data@,
            client_data_json: c.client_data_json@,
        },
        ResponseType::Get(g) => ResponseTypeView::Get {
            authenticator_data: g.authenticator_data@,
            signature: g.signature@,
            user_handle: match g.user_handle {
                Some(h) => Some(h@),
                None => None,
            },
            client_data_json: g.client_data_json@,
        },
    }
}

impl View for Response {
    type V = ResponseView;

    open spec fn view(&self) -> ResponseView {
        ResponseView { id: self.id@, raw_id: self.raw_id@, response: payload_view(self.response), ty: self.ty@ }
    }
}

/// What the payload object `obj` decodes to: a registration when it has an
/// attestation object, else an assertion when it has authenticator data.
/// Older spellings of the member names are accepted.
pub open spec fn payload_spec(obj: Seq<u8>) -> Option<ResponseTypeView> {
    match aliased_text(obj, "clientDataJSON"@, "clientDataJson"@, "client_data_json"@) {
        None => None,
        Some(cd) => match aliased_text(obj, "attestationObject"@, "attestationData"@, "attestation_data"@) {
            Some(att) => Some(ResponseTypeView::Create { attestation_data: att, client_data_json: cd }),
            None => match (member_text(obj, "authenticatorData"@), member_text(obj, "signature"@)) {
                (Some(ad), Some(sig)) => Some(
                    ResponseTypeView::Get {
                        authenticator_data: ad,
                        signature: sig,
                        user_handle: member_text(obj, "userHandle"@),
                        client_data_json: cd,
                    },
                ),
                _ => None,
            },
        },
    }
}

/// What the response JSON `doc` decodes to: `id`, `rawId` (or `rawID`,
/// `raw_id`) and `type` as text, and the `response` object.
pub open spec fn response_json_spec(doc: Seq<u8>) -> Option<ResponseView> {
    match (
        member_text(doc, "id"@),
        aliased_text(doc, "rawId"@, "rawID"@, "raw_id"@),
        member_text(doc, "type"@),
        json_member_of(doc, "response"@),
    ) {
        (Some(id), Some(raw_id), Some(ty), JsonEntryView::Nested(obj)) => match payload_spec(obj) {
            Some(response) => Some(ResponseView { id, raw_id, response, ty }),
            None => None,
        },
        _ => None,
    }
}

fn read_text(doc: &[u8], key: &str) -> (r: Option<String>)
    ensures
        match r {
            Some(t) => Some(t@),
            None => None,
        } == member_text(doc@, key@),
{
    match json_member(doc, key) {
        JsonEntry::Text(t) => Some(t),
        _ => None,
    }
}

fn read_aliased(doc: &[u8], a: &str, b: &str, c: &str) -> (r: Option<String>)
    ensures
        match r {
            Some(t) => Some(t@),
            None => None,
        } == aliased_text(doc@, a@, b@, c@),
{
    match read_text(doc, a) {
        Some(t) => Some(t),
        None => match read_text(doc, b) {
            Some(t) => Some(t),
            None => read_text(doc, c),
        },
    }
}

fn read_payload(obj: &[u8]) -> (r: Option<ResponseType>)
    ensures
        match r {
            Some(p) => Some(payload_view(p)),
            None => None,
        } == payload_spec(obj@),
{
    let cd = match read_aliased(obj, "clientDataJSON", "clientDataJson", "client_data_json") {
        Some(t) => t,
        None => return None,
    };
    match read_aliased(obj, "attestationObject", "attestationData", "attestation_data") {
        Some(att) => Some(ResponseType::Create(CreateResponse { attestation_data: att, client_data_json: cd })),
        None => match (read_text(obj, "authenticatorData"), read_text(obj, "signature")) {
            (Some(ad), Some(sig)) => Some(
                ResponseType::Get(
                    GetResponse {
                        authenticator_data: ad,
                        signature: sig,
                        user_handle: read_text(obj, "userHandle"),
                        client_data_json: cd,
                    },
                ),
            ),
            _ => None,
        },
    }
}

impl Response {
    /// Decodes the JSON a client posts (see `response_json_spec`); fails
    /// with `JsonDecode` where it does not have that shape.
    pub fn from_json(doc: &[u8]) -> (r: Result<Response, Error>)
        ensures
            match r {
                Ok(resp) => response_json_spec(doc@) == Some(resp@),
                Err(e) => e == Error::JsonDecode && response_json_spec(doc@) is None,
            },
    {
        let id = read_text(doc, "id");
        let raw_id = read_aliased(doc, "rawId", "rawID", "raw_id");
        let ty = read_text(doc, "type");
        let obj = json_member(doc, "response");
        match (id, raw_id, ty, obj) {
            (Some(id), Some(raw_id), Some(ty), JsonEntry::Nested(obj)) => match read_payload(obj.as_slice()) {
                Some(response) => Ok(Response { id, raw_id, response, ty }),
                None => Err(Error::JsonDecode),
            },
            _ => Err(Error::JsonDecode),
        }
    }
}

/// A registration whose client data or attestation object holds a
/// character outside both base64 alphabets (and not padding) fails with
/// `Base64Decode`.
pub proof fn lemma_base64_refused(
    create: CreateResponse,
    raw_id: Seq<char>,
    cfg: WebAuthnConfig,
    challenge: Seq<char>,
    i: int,
)
    requires
        0 <= i < create.client_data_json@.len(),
        !base64_symbol(create.client_data_json@[i], true),
        !base64_symbol(create.client_data_json@[i], false),
        create.client_data_json@[i] != '=',
    ensures
        register_spec(create, raw_id, cfg, challenge) == Err::<DeviceView, Error>(Error::Base64Decode),
{
}

/// A device that registration yields holds a 65-byte X9.62 public key:
/// `0x04` followed by the two 32-byte coordinates.
pub proof fn lemma_registered_key_len(
    create: CreateResponse,
    raw_id: Seq<char>,
    cfg: WebAuthnConfig,
    challenge: Seq<char>,
    device: DeviceView,
)
    requires
        register_spec(create, raw_id, cfg, challenge) == Ok::<DeviceView, Error>(device),
    ensures
        device.pk.len() == 65,
        device.pk[0] == 4u8,
{
    let cd = decode_flexible(create.client_data_json@)->Some_0;
    let obj = decode_flexible(create.attestation_data@)->Some_0;
    let (auth, format) = attestation_object_spec(obj)->Ok_0;
    let stmt = format->FidoU2f_0;
    let cred = auth.cred->Some_0;
    assert(u2f_validate_spec(stmt, auth, sha256_of(cd)) is Ok);
    assert(raw_public_spec(cred.key.alg) is Some);
}

} // verus!
