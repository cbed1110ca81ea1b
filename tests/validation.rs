use auth_rs::attestation::{parse, AttestationError, AttestationFormat};
use auth_rs::auth_data::{AuthData, AuthError};
use auth_rs::client_data::{ClientData, ClientDataError, WebAuthnType};
use auth_rs::config::{UserVerification, WebAuthnConfig};
use auth_rs::cose::{CoseError, CoseKey, CoseKeyType};
use auth_rs::error::Error;
use auth_rs::response::{
    authenticate, decode_base64, register, CreateResponse, Device, GetResponse, Response, ResponseType,
};
use ring::rand::SystemRandom;
use ring::signature::{EcdsaKeyPair, KeyPair, ECDSA_P256_SHA256_ASN1_SIGNING};
use serde_cbor::Value;
use std::collections::BTreeMap;

const ORIGIN: &str = "https://app.example.com";
const RP_ID: &str = "app.example.com";
const CHALLENGE: &str = "q83vEjRWeJq83vEjRWeJq83vEjRWeJq83vEjRWeJq80";

fn sha256(data: &[u8]) -> Vec<u8> {
    ring::digest::digest(&ring::digest::SHA256, data).as_ref().to_vec()
}

fn b64url(data: &[u8]) -> String {
    base64::encode_config(data, base64::URL_SAFE_NO_PAD)
}

fn b64(data: &[u8]) -> String {
    base64::encode_config(data, base64::STANDARD)
}

fn new_key() -> EcdsaKeyPair {
    let rng = SystemRandom::new();
    let pkcs8 = EcdsaKeyPair::generate_pkcs8(&ECDSA_P256_SHA256_ASN1_SIGNING, &rng).unwrap();
    EcdsaKeyPair::from_pkcs8(&ECDSA_P256_SHA256_ASN1_SIGNING, pkcs8.as_ref(), &rng).unwrap()
}

fn sign(key: &EcdsaKeyPair, msg: &[u8]) -> Vec<u8> {
    key.sign(&SystemRandom::new(), msg).unwrap().as_ref().to_vec()
}

fn cbor_int_map(entries: Vec<(i128, Value)>) -> Vec<u8> {
    let mut m = BTreeMap::new();
    for (k, v) in entries {
        m.insert(Value::Integer(k), v);
    }
    serde_cbor::to_vec(&Value::Map(m)).unwrap()
}

fn cose_es256(x: &[u8], y: &[u8]) -> Vec<u8> {
    cbor_int_map(vec![
        (1, Value::Integer(2)),
        (3, Value::Integer(-7)),
        (-1, Value::Integer(1)),
        (-2, Value::Bytes(x.to_vec())),
        (-3, Value::Bytes(y.to_vec())),
    ])
}

fn auth_data(rp_id: &str, flags: u8, counter: u32, cred: Option<(&[u8], &[u8])>) -> Vec<u8> {
    let mut d = sha256(rp_id.as_bytes());
    d.push(flags);
    d.extend_from_slice(&counter.to_be_bytes());
    if let Some((id, key)) = cred {
        d.extend_from_slice(&[7u8; 16]);
        d.extend_from_slice(&(id.len() as u16).to_be_bytes());
        d.extend_from_slice(id);
        d.extend_from_slice(key);
    }
    d
}

fn client_data(ty: &str, challenge: &str, origin: &str) -> Vec<u8> {
    format!(
        "{{\"type\":\"{}\",\"challenge\":\"{}\",\"origin\":\"{}\",\"extra\":\"aaaa\"}}",
        ty, challenge, origin
    )
    .into_bytes()
}

fn attestation_object(fmt: &str, x5c: Vec<Vec<u8>>, sig: Vec<u8>, auth: Vec<u8>) -> Vec<u8> {
    let mut stmt = BTreeMap::new();
    stmt.insert(Value::Text("x5c".to_string()), Value::Array(x5c.into_iter().map(Value::Bytes).collect()));
    stmt.insert(Value::Text("sig".to_string()), Value::Bytes(sig));
    let mut m = BTreeMap::new();
    m.insert(Value::Text("fmt".to_string()), Value::Text(fmt.to_string()));
    m.insert(Value::Text("attStmt".to_string()), Value::Map(stmt));
    m.insert(Value::Text("authData".to_string()), Value::Bytes(auth));
    serde_cbor::to_vec(&Value::Map(m)).unwrap()
}

struct Authenticator {
    cert_der: Vec<u8>,
    cert_key: EcdsaKeyPair,
    cred_key: EcdsaKeyPair,
    cred_id: Vec<u8>,
}

fn authenticator() -> Authenticator {
    let cert = rcgen::Certificate::from_params(rcgen::CertificateParams::new(vec!["u2f.example.com".to_string()]))
        .unwrap();
    let cert_der = cert.serialize_der().unwrap();
    let rng = SystemRandom::new();
    let cert_key =
        EcdsaKeyPair::from_pkcs8(&ECDSA_P256_SHA256_ASN1_SIGNING, &cert.serialize_private_key_der(), &rng).unwrap();
    Authenticator { cert_der, cert_key, cred_key: new_key(), cred_id: vec![0x42, 0x43, 0x44, 0x45] }
}

impl Authenticator {
    fn public_key(&self) -> Vec<u8> {
        self.cred_key.public_key().as_ref().to_vec()
    }

    fn cose(&self) -> Vec<u8> {
        let pk = self.public_key();
        cose_es256(&pk[1..33], &pk[33..65])
    }

    /// A fido-u2f registration; `edit` may change the pieces before they are encoded.
    fn register_with(
        &self,
        rp_id: &str,
        origin: &str,
        fmt: &str,
        certs: usize,
        tamper_sig: bool,
    ) -> Response {
        let cd = client_data("webauthn.create", CHALLENGE, origin);
        let cose = self.cose();
        let auth = auth_data(rp_id, 0x41, 5, Some((&self.cred_id, &cose)));
        let mut signed = vec![0u8];
        signed.extend_from_slice(&sha256(rp_id.as_bytes()));
        signed.extend_from_slice(&sha256(&cd));
        signed.extend_from_slice(&self.cred_id);
        signed.extend_from_slice(&self.public_key());
        let mut sig = sign(&self.cert_key, &signed);
        if tamper_sig {
            let last = sig.len() - 3;
            sig[last] ^= 0x01;
        }
        let x5c = vec![self.cert_der.clone(); certs];
        let obj = attestation_object(fmt, x5c, sig, auth);
        Response {
            id: b64url(&self.cred_id),
            raw_id: b64url(&self.cred_id),
            response: ResponseType::Create(CreateResponse { attestation_data: b64(&obj), client_data_json: b64url(&cd) }),
            ty: "public-key".to_string(),
        }
    }

    fn register(&self) -> Response {
        self.register_with(RP_ID, ORIGIN, "fido-u2f", 1, false)
    }

    fn assert_with(&self, cd: Vec<u8>, counter: u32, flags: u8, flip_client_data_bit: Option<usize>) -> Response {
        let auth = auth_data(RP_ID, flags, counter, None);
        let mut signed = auth.clone();
        signed.extend_from_slice(&sha256(&cd));
        let sig = sign(&self.cred_key, &signed);
        let mut cd = cd;
        if let Some(i) = flip_client_data_bit {
            cd[i] ^= 0x02;
        }
        Response {
            id: b64url(&self.cred_id),
            raw_id: b64url(&self.cred_id),
            response: ResponseType::Get(GetResponse {
                authenticator_data: b64(&auth),
                signature: b64(&sig),
                user_handle: Some(b64(&[9, 9])),
                client_data_json: b64(&cd),
            }),
            ty: "public-key".to_string(),
        }
    }

    fn assertion(&self, counter: u32) -> Response {
        self.assert_with(client_data("webauthn.get", CHALLENGE, ORIGIN), counter, 0x01, None)
    }
}

fn config() -> WebAuthnConfig {
    WebAuthnConfig::new(ORIGIN)
}

#[test]
fn cose_key_decodes_coordinates() {
    let x: Vec<u8> = (1..=32).collect();
    let y: Vec<u8> = (33..=64).collect();
    let (key, used) = CoseKey::parse(&cose_es256(&x, &y)).unwrap();
    assert_eq!(used, cose_es256(&x, &y).len());
    assert_eq!(key.kty, CoseKeyType::EC2);
    let mut raw = vec![4u8];
    raw.extend_from_slice(&x);
    raw.extend_from_slice(&y);
    assert_eq!(key.as_raw(), Some(raw));
}

#[test]
fn cose_key_errors() {
    let x = [1u8; 32];
    let missing_kty = cbor_int_map(vec![(3, Value::Integer(-7)), (-1, Value::Integer(1)), (-4, Value::Bytes(x.to_vec()))]);
    assert_eq!(CoseKey::parse(&missing_kty).unwrap_err(), CoseError::MissingField);
    let text_kty = cbor_int_map(vec![(1, Value::Text("EC2".to_string())), (3, Value::Integer(-7))]);
    assert_eq!(CoseKey::parse(&text_kty).unwrap_err(), CoseError::InvalidType);
    let bad_kty = cbor_int_map(vec![(1, Value::Integer(9)), (3, Value::Integer(-7))]);
    assert_eq!(CoseKey::parse(&bad_kty).unwrap_err(), CoseError::UnknownKty);
    let rs256 = cbor_int_map(vec![(1, Value::Integer(2)), (3, Value::Integer(-257))]);
    assert_eq!(CoseKey::parse(&rs256).unwrap_err(), CoseError::UnsupportedAlgorithm);
    let p384 = cbor_int_map(vec![(1, Value::Integer(2)), (3, Value::Integer(-7)), (-1, Value::Integer(2))]);
    assert_eq!(CoseKey::parse(&p384).unwrap_err(), CoseError::UnsupportedAlgorithm);
    let only_x = cbor_int_map(vec![
        (1, Value::Integer(2)),
        (3, Value::Integer(-7)),
        (-1, Value::Integer(1)),
        (-2, Value::Bytes(x.to_vec())),
    ]);
    assert_eq!(CoseKey::parse(&only_x).unwrap_err(), CoseError::MissingField);
    let text_labels = serde_cbor::to_vec(&Value::Map(
        vec![(Value::Text("kty".to_string()), Value::Integer(2))].into_iter().collect(),
    ))
    .unwrap();
    assert_eq!(CoseKey::parse(&text_labels).unwrap_err(), CoseError::InvalidType);
    assert_eq!(CoseKey::parse(&[0xff, 0x00]).unwrap_err(), CoseError::Malformed);
}

#[test]
fn cose_private_key_has_no_raw_form() {
    let (key, _) = CoseKey::parse(&cbor_int_map(vec![
        (1, Value::Integer(2)),
        (3, Value::Integer(-7)),
        (-1, Value::Integer(1)),
        (-4, Value::Bytes(vec![5; 32])),
        (4, Value::Array(vec![Value::Integer(1), Value::Integer(99), Value::Integer(2)])),
    ]))
    .unwrap();
    assert_eq!(key.as_raw(), None);
    assert_eq!(key.key_ops.as_ref().map(|v| v.len()), Some(2));
}

#[test]
fn auth_data_layout() {
    let mut d = auth_data(RP_ID, 0x05, 0x01020304, None);
    let a = AuthData::parse(&d).unwrap();
    assert_eq!(a.count(), 0x01020304);
    assert_eq!(a.rp_id_hash(), sha256(RP_ID.as_bytes()).as_slice());
    assert!(a.is_user_present() && a.is_user_verified() && !a.has_credential() && !a.has_extensions());
    assert_eq!(a.public_key().unwrap_err(), AuthError::CredDataMissing);
    assert_eq!(AuthData::parse(&d[..36]).unwrap_err(), AuthError::Malformed);
    d.push(0xa0);
    assert_eq!(AuthData::parse(&d).unwrap_err(), AuthError::Malformed);
    d[32] |= 0x80;
    assert_eq!(AuthData::parse(&d).unwrap_err(), AuthError::UnsupportedExtensions);
}

#[test]
fn auth_data_with_credential() {
    let key = cose_es256(&[1; 32], &[2; 32]);
    let d = auth_data(RP_ID, 0x41, 1, Some((&[3, 4, 5], &key)));
    let a = AuthData::parse(&d).unwrap();
    assert!(a.has_credential());
    assert_eq!(a.credential_id().unwrap(), &[3, 4, 5]);
    assert_eq!(a.public_key().unwrap().len(), 65);
    let mut trailing = d.clone();
    trailing.push(0);
    assert_eq!(AuthData::parse(&trailing).unwrap_err(), AuthError::Malformed);
    let empty_id = auth_data(RP_ID, 0x41, 1, Some((&[], &key)));
    assert_eq!(AuthData::parse(&empty_id).unwrap_err(), AuthError::Malformed);
    let bad_key = auth_data(RP_ID, 0x41, 1, Some((&[3], &[0xa1, 0x01, 0x61, 0x78])));
    assert_eq!(AuthData::parse(&bad_key).unwrap_err(), AuthError::InvalidCoseKey(CoseError::InvalidType));
}

#[test]
fn auth_data_validation() {
    let cfg = config();
    let a = AuthData::parse(&auth_data(RP_ID, 0x01, 0, None)).unwrap();
    assert_eq!(a.validate(&cfg), Ok(()));
    let other = AuthData::parse(&auth_data("other.example.com", 0x01, 0, None)).unwrap();
    assert_eq!(other.validate(&cfg), Err(AuthError::RpIdHashMismatch));
    let absent = AuthData::parse(&auth_data(RP_ID, 0x00, 0, None)).unwrap();
    assert_eq!(absent.validate(&cfg), Err(AuthError::UserNotPresent));
    let mut strict = config();
    strict.user_verification = UserVerification::Required;
    assert_eq!(a.validate(&strict), Err(AuthError::UserNotVerified));
}

#[test]
fn client_data_checks() {
    let cfg = config();
    let cd = ClientData::parse(&client_data("webauthn.get", CHALLENGE, ORIGIN)).unwrap();
    assert_eq!(cd.validate(WebAuthnType::Get, &cfg, CHALLENGE), Ok(()));
    assert_eq!(cd.validate(WebAuthnType::Create, &cfg, CHALLENGE), Err(ClientDataError::InvalidWebAuthnType));
    assert_eq!(cd.validate(WebAuthnType::Get, &cfg, "other"), Err(ClientDataError::ChallengeMismatch));
    let evil = ClientData::parse(&client_data("webauthn.get", CHALLENGE, "https://evil.example.com")).unwrap();
    assert_eq!(evil.validate(WebAuthnType::Get, &cfg, CHALLENGE), Err(ClientDataError::OriginMismatch));
    let cross = ClientData::parse(
        format!("{{\"type\":\"webauthn.get\",\"challenge\":\"{}\",\"origin\":\"{}\",\"crossOrigin\":true}}", CHALLENGE, ORIGIN)
            .as_bytes(),
    )
    .unwrap();
    assert_eq!(cross.validate(WebAuthnType::Get, &cfg, CHALLENGE), Err(ClientDataError::CrossOrigin));
    assert_eq!(ClientData::parse(b"[1,2]").unwrap_err(), ClientDataError::Malformed);
    assert_eq!(ClientData::parse(b"{\"type\":\"webauthn.get\"}").unwrap_err(), ClientDataError::Malformed);
    assert_eq!(WebAuthnType::Create.as_str(), "webauthn.create");
    assert_eq!(WebAuthnType::Get.as_str(), "webauthn.get");
}

#[test]
fn registration_yields_device() {
    let a = authenticator();
    let device = register(a.register(), &config(), CHALLENGE).unwrap();
    assert_eq!(device.id(), a.cred_id.as_slice());
    assert_eq!(device.public_key(), a.public_key().as_slice());
    assert_eq!(device.count(), 5);
}

#[test]
fn attestation_object_decodes() {
    let a = authenticator();
    let auth = auth_data(RP_ID, 0x41, 5, Some((&a.cred_id, &a.cose())));
    let (data, format) = parse(&attestation_object("fido-u2f", vec![a.cert_der.clone()], vec![1, 2], auth)).unwrap();
    assert_eq!(data.count(), 5);
    match format {
        AttestationFormat::FidoU2f(stmt) => {
            assert_eq!(stmt.x5c.len(), 1);
            assert_eq!(stmt.sig, vec![1, 2]);
        }
        _ => panic!("expected a fido-u2f statement"),
    }
    assert_eq!(parse(&[0x01]).unwrap_err(), AttestationError::CborDecode);
}

#[test]
fn registration_rp_id_hash_binding() {
    let a = authenticator();
    let resp = a.register_with("other.example.com", ORIGIN, "fido-u2f", 1, false);
    assert_eq!(register(resp, &config(), CHALLENGE).unwrap_err(), Error::RpIdHashMismatch);
}

#[test]
fn registration_format_gating() {
    let a = authenticator();
    let packed = a.register_with(RP_ID, ORIGIN, "packed", 1, false);
    assert_eq!(register(packed, &config(), CHALLENGE).unwrap_err(), Error::UnsupportedAttestationFormat);
    let none = a.register_with(RP_ID, ORIGIN, "none", 1, false);
    assert_eq!(register(none, &config(), CHALLENGE).unwrap_err(), Error::UnsupportedAttestationFormat);
    let bad_sig = a.register_with(RP_ID, ORIGIN, "fido-u2f", 1, true);
    assert_eq!(register(bad_sig, &config(), CHALLENGE).unwrap_err(), Error::SignatureFailed);
    let two = a.register_with(RP_ID, ORIGIN, "fido-u2f", 2, false);
    assert_eq!(register(two, &config(), CHALLENGE).unwrap_err(), Error::TooManyX509Certificates);
}

#[test]
fn registration_bad_certificate() {
    let mut a = authenticator();
    a.cert_der = vec![0x30, 0x03, 0x02, 0x01, 0x00];
    assert_eq!(register(a.register(), &config(), CHALLENGE).unwrap_err(), Error::BadX509Certificate);
}

#[test]
fn registration_credential_id_mismatch() {
    let a = authenticator();
    let mut resp = a.register();
    resp.raw_id = b64url(&[1, 2, 3]);
    assert_eq!(register(resp, &config(), CHALLENGE).unwrap_err(), Error::CredentialIdMismatch);
}

#[test]
fn origin_binding() {
    let a = authenticator();
    let resp = a.register_with(RP_ID, "https://evil.example.com", "fido-u2f", 1, false);
    assert_eq!(register(resp, &config(), CHALLENGE).unwrap_err(), Error::OriginMismatch);
    let device = register(a.register(), &config(), CHALLENGE).unwrap();
    let get = a.assert_with(client_data("webauthn.get", CHALLENGE, "https://evil.example.com"), 6, 0x01, None);
    assert_eq!(authenticate(get, &config(), CHALLENGE, &[device]).unwrap_err(), Error::OriginMismatch);
}

#[test]
fn response_type_tag() {
    let a = authenticator();
    assert_eq!(register(a.assertion(6), &config(), CHALLENGE).unwrap_err(), Error::IncorrectResponseType);
    assert_eq!(authenticate(a.register(), &config(), CHALLENGE, &[]).unwrap_err(), Error::IncorrectResponseType);
    assert_eq!(a.register().ty(), WebAuthnType::Create);
    assert_eq!(a.assertion(6).ty(), WebAuthnType::Get);
    let device = register(a.register(), &config(), CHALLENGE).unwrap();
    let wrong = a.assert_with(client_data("webauthn.create", CHALLENGE, ORIGIN), 6, 0x01, None);
    assert_eq!(authenticate(wrong, &config(), CHALLENGE, &[device]).unwrap_err(), Error::WebAuthnTypeMismatch);
}

#[test]
fn registration_then_authentication() {
    let a = authenticator();
    let device = register(a.register(), &config(), CHALLENGE).unwrap();
    let ok = authenticate(a.assertion(6), &config(), CHALLENGE, &[device]).unwrap();
    assert_eq!(ok.sign_count, 6);
    assert!(!ok.counter_regression);
    assert_eq!(ok.user_handle, Some(vec![9, 9]));
}

#[test]
fn client_data_tampering() {
    let a = authenticator();
    let device = register(a.register(), &config(), CHALLENGE).unwrap();
    let cd = client_data("webauthn.get", CHALLENGE, ORIGIN);
    let pos = cd.len() - 3;
    let flipped = a.assert_with(cd, 6, 0x01, Some(pos));
    assert_eq!(authenticate(flipped, &config(), CHALLENGE, &[device.clone()]).unwrap_err(), Error::SignatureFailed);
    let other = a.assert_with(client_data("webauthn.get", "bm90LWlzc3VlZA", ORIGIN), 6, 0x01, None);
    assert_eq!(authenticate(other, &config(), CHALLENGE, &[device]).unwrap_err(), Error::ChallengeMismatch);
}

#[test]
fn signature_byte_mutation() {
    let a = authenticator();
    let device = register(a.register(), &config(), CHALLENGE).unwrap();
    let mut resp = a.assertion(6);
    if let ResponseType::Get(g) = &mut resp.response {
        let mut sig = decode_base64(&g.signature).unwrap();
        let i = sig.len() - 2;
        sig[i] ^= 0x10;
        g.signature = b64(&sig);
    }
    assert_eq!(authenticate(resp, &config(), CHALLENGE, &[device]).unwrap_err(), Error::SignatureFailed);
}

#[test]
fn counter_monotonicity() {
    let a = authenticator();
    let device = register(a.register(), &config(), CHALLENGE).unwrap();
    assert_eq!(device.count(), 5);
    let first = authenticate(a.assertion(7), &config(), CHALLENGE, &[device]).unwrap();
    assert!(!first.counter_regression);
    assert_eq!(first.strict_count(), Ok(7));
    let stored = Device::new(a.cred_id.clone(), a.public_key(), first.sign_count);
    let second = authenticate(a.assertion(7), &config(), CHALLENGE, &[stored]).unwrap();
    assert!(second.counter_regression);
    assert_eq!(second.strict_count(), Err(Error::CounterRegression));
    let zero = Device::new(a.cred_id.clone(), a.public_key(), 0);
    let none = authenticate(a.assertion(0), &config(), CHALLENGE, &[zero]).unwrap();
    assert!(!none.counter_regression);
}

#[test]
fn device_lookup() {
    let a = authenticator();
    let device = register(a.register(), &config(), CHALLENGE).unwrap();
    let other = Device::new(vec![1], a.public_key(), 0);
    assert_eq!(authenticate(a.assertion(6), &config(), CHALLENGE, &[other.clone()]).unwrap_err(), Error::DeviceNotFound);
    assert_eq!(
        authenticate(a.assertion(6), &config(), CHALLENGE, &[device.clone(), device.clone()]).unwrap_err(),
        Error::DeviceNotFound
    );
    assert!(authenticate(a.assertion(6), &config(), CHALLENGE, &[other, device]).is_ok());
}

#[test]
fn assertion_flags() {
    let a = authenticator();
    let device = register(a.register(), &config(), CHALLENGE).unwrap();
    let cd = client_data("webauthn.get", CHALLENGE, ORIGIN);
    let absent = a.assert_with(cd.clone(), 6, 0x00, None);
    assert_eq!(authenticate(absent, &config(), CHALLENGE, &[device.clone()]).unwrap_err(), Error::UserNotPresent);
    let mut strict = config();
    strict.user_verification = UserVerification::Required;
    let unverified = a.assert_with(cd.clone(), 6, 0x01, None);
    assert_eq!(authenticate(unverified, &strict, CHALLENGE, &[device.clone()]).unwrap_err(), Error::UserNotVerified);
    let verified = a.assert_with(cd, 6, 0x05, None);
    assert!(authenticate(verified, &strict, CHALLENGE, &[device]).is_ok());
}

#[test]
fn base64_flexibility() {
    assert_eq!(decode_base64("-_8"), Some(vec![0xfb, 0xff]));
    assert_eq!(decode_base64("-_8="), Some(vec![0xfb, 0xff]));
    assert_eq!(decode_base64("+/8="), Some(vec![0xfb, 0xff]));
    assert_eq!(decode_base64("+/8"), Some(vec![0xfb, 0xff]));
    assert_eq!(decode_base64("!!!"), None);
    let a = authenticator();
    let device = register(a.register(), &config(), CHALLENGE).unwrap();
    let mut resp = a.assertion(6);
    if let ResponseType::Get(g) = &mut resp.response {
        let cd = decode_base64(&g.client_data_json).unwrap();
        g.client_data_json = base64::encode_config(&cd, base64::URL_SAFE);
    }
    assert!(authenticate(resp, &config(), CHALLENGE, &[device.clone()]).is_ok());
    let mut bad = a.assertion(6);
    if let ResponseType::Get(g) = &mut bad.response {
        g.signature = "@@not base64@@".to_string();
    }
    assert_eq!(authenticate(bad, &config(), CHALLENGE, &[device]).unwrap_err(), Error::Base64Decode);
}

#[test]
fn response_json_accepts_aliases() {
    let doc = br#"{"id":"QkNERQ","rawID":"QkNERQ","type":"public-key","response":{"clientDataJson":"e30","attestationData":"oA=="}}"#;
    let r = Response::from_json(doc).unwrap();
    assert_eq!(r.id, "QkNERQ");
    assert_eq!(r.raw_id, "QkNERQ");
    assert_eq!(r.ty, "public-key");
    match r.response {
        ResponseType::Create(c) => {
            assert_eq!(c.attestation_data, "oA==");
            assert_eq!(c.client_data_json, "e30");
        }
        _ => panic!("expected a registration payload"),
    }
    let doc = br#"{"id":"QkNERQ","rawId":"QkNERQ","type":"public-key","response":{"clientDataJSON":"e30","authenticatorData":"AA","signature":"AQ","userHandle":null}}"#;
    match Response::from_json(doc).unwrap().response {
        ResponseType::Get(g) => {
            assert_eq!(g.authenticator_data, "AA");
            assert_eq!(g.signature, "AQ");
            assert_eq!(g.user_handle, None);
        }
        _ => panic!("expected an assertion payload"),
    }
}

#[test]
fn response_json_refuses_other_shapes() {
    assert_eq!(Response::from_json(b"not json").unwrap_err(), Error::JsonDecode);
    assert_eq!(Response::from_json(br#"{"id":"a","rawId":"a","type":"public-key"}"#).unwrap_err(), Error::JsonDecode);
    let no_payload = br#"{"id":"a","rawId":"a","type":"public-key","response":{"clientDataJSON":"e30"}}"#;
    assert_eq!(Response::from_json(no_payload).unwrap_err(), Error::JsonDecode);
}

#[test]
fn response_json_round_trip_registration() {
    let a = authenticator();
    let resp = a.register();
    let (att, cd) = match &resp.response {
        ResponseType::Create(c) => (c.attestation_data.clone(), c.client_data_json.clone()),
        _ => unreachable!(),
    };
    let doc = format!(
        "{{\"id\":\"{}\",\"rawId\":\"{}\",\"type\":\"public-key\",\"response\":{{\"clientDataJSON\":\"{}\",\"attestationObject\":\"{}\"}}}}",
        resp.id, resp.raw_id, cd, att
    );
    let parsed = Response::from_json(doc.as_bytes()).unwrap();
    assert_eq!(register(parsed, &config(), CHALLENGE).unwrap().count(), 5);
}

#[test]
fn cose_key_reports_consumed_length() {
    let enc = cose_es256(&[1; 32], &[2; 32]);
    let mut data = enc.clone();
    data.extend_from_slice(&[0xa0, 0x01, 0x02]);
    let (key, used) = CoseKey::parse(&data).unwrap();
    assert_eq!(used, enc.len());
    assert_eq!(key.as_raw().unwrap().len(), 65);
}

#[test]
fn cose_key_refuses_text_labels_and_short_coordinates() {
    let mut m = BTreeMap::new();
    m.insert(Value::Integer(1), Value::Integer(2));
    m.insert(Value::Integer(3), Value::Integer(-7));
    m.insert(Value::Integer(-1), Value::Integer(1));
    m.insert(Value::Integer(-2), Value::Bytes(vec![1; 32]));
    m.insert(Value::Integer(-3), Value::Bytes(vec![2; 32]));
    m.insert(Value::Text("note".to_string()), Value::Integer(0));
    let mixed = serde_cbor::to_vec(&Value::Map(m)).unwrap();
    assert_eq!(CoseKey::parse(&mixed).unwrap_err(), CoseError::InvalidType);
    let short = cose_es256(&[1; 31], &[2; 32]);
    assert_eq!(CoseKey::parse(&short).unwrap_err(), CoseError::InvalidType);
}

#[test]
fn registration_refuses_non_base64_client_data() {
    let a = authenticator();
    let mut resp = a.register();
    if let ResponseType::Create(c) = &mut resp.response {
        c.client_data_json.insert(4, '!');
    }
    assert_eq!(register(resp, &config(), CHALLENGE).unwrap_err(), Error::Base64Decode);
    let mut resp = a.register();
    if let ResponseType::Create(c) = &mut resp.response {
        c.attestation_data.insert(0, '*');
    }
    assert_eq!(register(resp, &config(), CHALLENGE).unwrap_err(), Error::Base64Decode);
}

#[test]
fn registered_credential_length_field() {
    let key = cose_es256(&[1; 32], &[2; 32]);
    let a = AuthData::parse(&auth_data(RP_ID, 0x41, 1, Some((&[3, 4, 5], &key)))).unwrap();
    assert_eq!(a.credential_data().unwrap().length, 3);
}
