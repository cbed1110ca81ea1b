use auth_rs::config::WebAuthnConfig;
use auth_rs::request::{AttestationPreference, AuthenticateRequest, AuthenticatorCritera, WebAuthnRegisterRequest};
use auth_rs::response::Device;
use auth_rs::rp::RelyingParty;
use auth_rs::user::User;

fn setup() -> (WebAuthnConfig, User) {
    let config = WebAuthnConfig::new("http:://www.example.com");
    let user = User::new(vec![0, 1, 2, 3], "user", "user");
    (config, user)
}

#[test]
fn rp_create_relying_party() {
    let _ = RelyingParty::new("servername");
}

#[test]
fn create_relying_party() {
    let cfg = WebAuthnConfig::new("https://www.example.com");
    let _ = RelyingParty::builder(&cfg).finish();
}

#[test]
fn build_webauthn_config() {
    let config = WebAuthnConfig::new("http://app.example.com");
    assert_eq!(config.id(), "app.example.com");
}

#[test]
fn build_webauthn_config_with_trailing_slash() {
    let config = WebAuthnConfig::new("http://app.example.com/");
    assert_eq!(config.id(), "app.example.com");
}

#[test]
fn build_webauthn_config_no_scheme() {
    let config = WebAuthnConfig::new("app.example.com/");
    assert_eq!(config.id(), "app.example.com");
}

#[test]
fn create_user() {
    let _ = User::new(vec![0, 1, 2, 3], "user", "user");
}

#[test]
fn pk_create_options_default() {
    let (config, user) = setup();
    let _ = WebAuthnRegisterRequest::new(config.as_relying_party(), user);
}

#[test]
fn pk_create_options_default_config_reference() {
    let (config, user) = setup();
    let _ = WebAuthnRegisterRequest::new((&config).as_relying_party(), user);
}

#[test]
fn pk_create_options_timeout() {
    let (config, user) = setup();
    let _ = WebAuthnRegisterRequest::new(config.as_relying_party(), user).set_timeout(10000);
}

#[test]
fn pk_create_options_auth_criteria() {
    let (config, user) = setup();
    let _ = WebAuthnRegisterRequest::new(config.as_relying_party(), user)
        .set_auth_criteria(AuthenticatorCritera::default());
}

#[test]
fn pk_create_options_attestation() {
    let (config, user) = setup();
    let _ = WebAuthnRegisterRequest::new(config.as_relying_party(), user)
        .set_attestation(AttestationPreference::Indirect);
}

#[test]
fn pk_create_options_all() {
    let (config, user) = setup();
    let _ = WebAuthnRegisterRequest::new(config.as_relying_party(), user)
        .set_timeout(10010)
        .set_attestation(AttestationPreference::Indirect)
        .set_auth_criteria(AuthenticatorCritera::default());
}

#[test]
fn rp_id_derivation_examples() {
    assert_eq!(WebAuthnConfig::new("https://app.example.com").id(), "app.example.com");
    assert_eq!(WebAuthnConfig::new("https://app.example.com/").id(), "app.example.com");
    assert_eq!(WebAuthnConfig::new("app.example.com/x").id(), "app.example.com");
    assert_eq!(WebAuthnConfig::new("https://app.example.com:8443/login").id(), "app.example.com:8443");
    assert_eq!(WebAuthnConfig::new("").id(), "");
}

#[test]
fn set_id_overrides_derived_id() {
    let mut config = WebAuthnConfig::new("https://login.example.com");
    config.set_id("example.com");
    assert_eq!(config.id(), "example.com");
    assert_eq!(config.origin(), "https://login.example.com");
}

#[test]
fn relying_party_builder_sets_fields() {
    let config = WebAuthnConfig::new("https://app.example.com");
    let rp = RelyingParty::builder(&config).name("Example").finish();
    assert_eq!(rp.name, "Example");
    assert_eq!(rp.id.as_deref(), Some("app.example.com"));
    let rp = RelyingParty::builder(&config).id("example.com").finish();
    assert_eq!(rp.name, "");
    assert_eq!(rp.id.as_deref(), Some("example.com"));
}

#[test]
fn challenges_are_fresh_and_32_bytes() {
    let (config, user) = setup();
    let mut seen: Vec<Vec<u8>> = Vec::new();
    for _ in 0..16 {
        let req = WebAuthnRegisterRequest::new(config.as_relying_party(), user.clone());
        assert_eq!(req.challenge.len(), 32);
        assert!(!seen.contains(&req.challenge));
        seen.push(req.challenge.clone());
    }
}

#[test]
fn challenge_text_is_base64url_without_padding() {
    let (config, user) = setup();
    let req = WebAuthnRegisterRequest::with_challenge(vec![0xfb; 32], config.as_relying_party(), user);
    let text = req.challenge();
    assert_eq!(text, "-_v7-_v7-_v7-_v7-_v7-_v7-_v7-_v7-_v7-_v7-_s");
    assert!(!text.contains('='));
}

#[test]
fn register_request_defaults() {
    let (config, user) = setup();
    let mut req = WebAuthnRegisterRequest::new(config.as_relying_party(), user);
    assert_eq!(req.timeout, None);
    assert_eq!(req.attestation, AttestationPreference::Direct);
    assert_eq!(req.pub_key_cred_params.len(), 1);
    assert_eq!(req.pub_key_cred_params[0].alg.value(), -7);
    req.set_timeout(10010).set_attestation(AttestationPreference::NoAttestation);
    assert_eq!(req.timeout, Some(10010));
    assert_eq!(req.attestation, AttestationPreference::NoAttestation);
    assert_eq!(req.relying_party().id.as_deref(), Some("www.example.com"));
}

#[test]
fn authenticate_request_lists_devices() {
    let config = WebAuthnConfig::new("https://app.example.com");
    let devices = vec![Device::new(vec![1, 2, 3], vec![4], 0), Device::new(vec![9], vec![4], 3)];
    let req = AuthenticateRequest::new(&config, &devices);
    assert_eq!(req.challenge.len(), 32);
    assert_eq!(req.rp_id.as_deref(), Some("app.example.com"));
    assert_eq!(req.allow_credentials.len(), 2);
    assert_eq!(req.allow_credentials[0].id, vec![1, 2, 3]);
    assert_eq!(req.allow_credentials[1].id, vec![9]);
    assert_eq!(req.challenge().len(), 43);
}
