//! Client data: the JSON that the client hands the authenticator, binding
//! the operation type, the challenge and the origin.

use crate::config::WebAuthnConfig;
use crate::json::{json_member, json_member_of, JsonEntry, JsonEntryView};
use vstd::prelude::*;
use vstd::string::StrSliceExecFns;

verus! {

/// The operation a response answers.
#[derive(Clone, Copy, Debug, PartialEq, Eq, Structural)]
pub enum WebAuthnType {
    /// `navigator.credentials.create()`: registration.
    Create,
    /// `navigator.credentials.get()`: authentication.
    Get,
}

/// The `type` string of an operation in client data.
pub open spec fn operation_name(ty: WebAuthnType) -> Seq<char> {
    match ty {
        WebAuthnType::Create => "webauthn.create"@,
        WebAuthnType::Get => "webauthn.get"@,
    }
}

impl WebAuthnType {
    /// The `type` string of this operation in client data.
    pub fn as_str(&self) -> (r: &'static str)
        ensures
            r@ == operation_name(*self),
    {
        match self {
            WebAuthnType::Create => "webauthn.create",
            WebAuthnType::Get => "webauthn.get",
        }
    }
}

/// Compares two strings character by character.
pub fn text_eq(a: &str, b: &str) -> (r: bool)
    ensures
        r == (a@ == b@),
{
    let n = a.unicode_len();
    if n != b.unicode_len() {
        return false;
    }
    let mut i: usize = 0;
    while i < n
        invariant
            n == a@.len(),
            n == b@.len(),
            i <= n,
            forall|k: int| 0 <= k < i ==> a@[k] == b@[k],
        decreases n - i,
    {
        if a.get_char(i) != b.get_char(i) {
            return false;
        }
        i = i + 1;
    }
    assert(a@ =~= b@);
    true
}

/// Why client data was refused.
#[derive(Clone, Copy, Debug, PartialEq, Eq, Structural)]
pub enum ClientDataError {
    /// The JSON is malformed, or a member is missing or of the wrong type.
    Malformed,
    /// The `type` is not the expected operation.
    InvalidWebAuthnType,
    /// The challenge is not the one that was issued.
    ChallengeMismatch,
    /// The origin is not the configured one.
    OriginMismatch,
    /// The response is cross-origin and the configuration refuses that.
    CrossOrigin,
}

/// The state of Token Binding between client and Relying Party.
#[derive(Clone, Copy, Debug, PartialEq, Eq, Structural)]
pub enum TokenBindingStatus {
    /// Token binding was used; its ID is given.
    Present,
    /// The client supports token binding, but it was not negotiated.
    Supported,
}

/// Token Binding information from client data.
#[derive(Clone, Debug)]
pub struct TokenBinding {
    pub status: TokenBindingStatus,
    /// The base64url Token Binding ID, when given.
    pub id: Option<String>,
}

/// Token Binding information, as values.
pub struct TokenBindingView {
    pub status: TokenBindingStatus,
    pub id: Option<Seq<char>>,
}

/// Decoded client data, as values.
pub struct ClientDataView {
    pub ty: Seq<char>,
    pub challenge: Seq<char>,
    pub origin: Seq<char>,
    pub cross_origin: bool,
    pub token_binding: Option<TokenBindingView>,
}

/// A required text member.
pub open spec fn required_text(e: JsonEntryView) -> Result<Seq<char>, ClientDataError> {
    match e {
        JsonEntryView::Text(t) => Ok(t),
        _ => Err(ClientDataError::Malformed),
    }
}

/// A text member that is empty when absent.
pub open spec fn defaulted_text(e: JsonEntryView) -> Result<Seq<char>, ClientDataError> {
    match e {
        JsonEntryView::Absent => Ok(Seq::empty()),
        JsonEntryView::Text(t) => Ok(t),
        _ => Err(ClientDataError::Malformed),
    }
}

/// A boolean member that is false when absent.
pub open spec fn defaulted_bool(e: JsonEntryView) -> Result<bool, ClientDataError> {
    match e {
        JsonEntryView::Absent => Ok(false),
        JsonEntryView::Bool(b) => Ok(b),
        _ => Err(ClientDataError::Malformed),
    }
}

/// The optional `tokenBinding` member: an object whose `status` is
/// `present` or `supported`, with an optional text `id`.
pub open spec fn token_binding_spec(e: JsonEntryView) -> Result<Option<TokenBindingView>, ClientDataError> {
    match e {
        JsonEntryView::Absent => Ok(None),
        JsonEntryView::Nested(obj) => {
            let status = match json_member_of(obj, "status"@) {
                JsonEntryView::Text(t) => if t == "present"@ {
                    Ok(TokenBindingStatus::Present)
                } else if t == "supported"@ {
                    Ok(TokenBindingStatus::Supported)
                } else {
                    Err(ClientDataError::Malformed)
                },
                _ => Err(ClientDataError::Malformed),
            };
            match status {
                Err(e) => Err(e),
                Ok(status) => match json_member_of(obj, "id"@) {
                    JsonEntryView::Absent => Ok(Some(TokenBindingView { status, id: None })),
                    JsonEntryView::Text(t) => Ok(Some(TokenBindingView { status, id: Some(t) })),
                    _ => Err(ClientDataError::Malformed),
                },
            }
        },
        _ => Err(ClientDataError::Malformed),
    }
}

/// What the client data JSON `doc` decodes to: `type` and `challenge` are
/// required text, `origin` is text (empty when absent), `crossOrigin` a
/// boolean (false when absent), `tokenBinding` optional.
pub open spec fn client_data_spec(doc: Seq<u8>) -> Result<ClientDataView, ClientDataError> {
    match (
        required_text(json_member_of(doc, "type"@)),
        required_text(json_member_of(doc, "challenge"@)),
        defaulted_text(json_member_of(doc, "origin"@)),
        defaulted_bool(json_member_of(doc, "crossOrigin"@)),
        token_binding_spec(json_member_of(doc, "tokenBinding"@)),
    ) {
        (Ok(ty), Ok(challenge), Ok(origin), Ok(cross_origin), Ok(token_binding)) => Ok(
            ClientDataView { ty, challenge, origin, cross_origin, token_binding },
        ),
        _ => Err(ClientDataError::Malformed),
    }
}

/// What validating client data against an operation, a configuration and
/// the issued challenge decides, check by check in this order.
pub open spec fn client_validate_spec(
    data: ClientDataView,
    ty: WebAuthnType,
    cfg: WebAuthnConfig,
    challenge: Seq<char>,
) -> Result<(), ClientDataError> {
    if data.ty != operation_name(ty) {
        Err(ClientDataError::InvalidWebAuthnType)
    } else if data.challenge != challenge {
        Err(ClientDataError::ChallengeMismatch)
    } else if data.origin != cfg.rp_origin@ {
        Err(ClientDataError::OriginMismatch)
    } else if data.cross_origin && !cfg.allow_cross_origin {
        Err(ClientDataError::CrossOrigin)
    } else {
        Ok(())
    }
}

/// The contextual bindings of the Relying Party and the client.
#[derive(Clone, Debug)]
pub struct ClientData {
    /// `webauthn.create` or `webauthn.get` (as the client wrote it).
    pub ty: String,
    /// The base64url challenge the client signed.
    pub challenge: String,
    /// The origin of the requester, as the client saw it.
    pub origin: String,
    /// Whether the request came from a cross-origin frame.
    pub cross_origin: bool,
    /// Token Binding information, when the client gave any.
    pub token_binding: Option<TokenBinding>,
}

impl View for ClientData {
    type V = ClientDataView;

    open spec fn view(&self) -> ClientDataView {
        ClientDataView {
            ty: self.ty@,
            challenge: self.challenge@,
            origin: self.origin@,
            cross_origin: self.cross_origin,
            token_binding: match self.token_binding {
                Some(t) => Some(
                    TokenBindingView {
                        status: t.status,
                        id: match t.id {
                            Some(i) => Some(i@),
                            None => None,
                        },
                    },
                ),
                None => None,
            },
        }
    }
}

fn read_required_text(doc: &[u8], key: &str) -> (r: Result<String, ClientDataError>)
    ensures
        match r {
            Ok(t) => Ok(t@),
            Err(e) => Err(e),
        } == required_text(json_member_of(doc@, key@)),
{
    match json_member(doc, key) {
        JsonEntry::Text(t) => Ok(t),
        _ => Err(ClientDataError::Malformed),
    }
}

fn read_token_binding(doc: &[u8]) -> (r: Result<Option<TokenBinding>, ClientDataError>)
    ensures
        match r {
            Ok(Some(t)) => Ok(
                Some(
                    TokenBindingView {
                        status: t.status,
                        id: match t.id {
                            Some(i) => Some(i@),
                            None => None,
                        },
                    },
                ),
            ),
            Ok(None) => Ok(None),
            Err(e) => Err(e),
        } == token_binding_spec(json_member_of(doc@, "tokenBinding"@)),
{
    match json_member(doc, "tokenBinding") {
        JsonEntry::Absent => Ok(None),
        JsonEntry::Nested(obj) => {
            let status = match json_member(obj.as_slice(), "status") {
                JsonEntry::Text(t) => if text_eq(t.as_str(), "present") {
                    TokenBindingStatus::Present
                } else if text_eq(t.as_str(), "supported") {
                    TokenBindingStatus::Supported
                } else {
                    return Err(ClientDataError::Malformed);
                },
                _ => return Err(ClientDataError::Malformed),
            };
            match json_member(obj.as_slice(), "id") {
                JsonEntry::Absent => Ok(Some(TokenBinding { status, id: None })),
                JsonEntry::Text(t) => Ok(Some(TokenBinding { status, id: Some(t) })),
                _ => Err(ClientDataError::Malformed),
            }
        },
        _ => Err(ClientDataError::Malformed),
    }
}

impl ClientData {
    /// Decodes the client data JSON `doc` (see `client_data_spec`).
    pub fn parse(doc: &[u8]) -> (r: Result<ClientData, ClientDataError>)
        ensures
            match r {
                Ok(c) => Ok(c@),
                Err(e) => Err(e),
            } == client_data_spec(doc@),
    {
        let ty = read_required_text(doc, "type");
        let challenge = read_required_text(doc, "challenge");
        let origin = match json_member(doc, "origin") {
            JsonEntry::Absent => Ok(String::new()),
            JsonEntry::Text(t) => Ok(t),
            _ => Err(ClientDataError::Malformed),
        };
        let cross_origin = match json_member(doc, "crossOrigin") {
            JsonEntry::Absent => Ok(false),
            JsonEntry::Bool(b) => Ok(b),
            _ => Err(ClientDataError::Malformed),
        };
        let token_binding = read_token_binding(doc);
        match (ty, challenge, origin, cross_origin, token_binding) {
            (Ok(ty), Ok(challenge), Ok(origin), Ok(cross_origin), Ok(token_binding)) => Ok(
                ClientData { ty, challenge, origin, cross_origin, token_binding },
            ),
            _ => Err(ClientDataError::Malformed),
        }
    }

    /// Checks, in this order, the operation type, the challenge (the
    /// base64url text that was issued), the origin, and the cross-origin
    /// policy.
    pub fn validate(&self, ty: WebAuthnType, cfg: &WebAuthnConfig, challenge: &str) -> (r: Result<
        (),
        ClientDataError,
    >)
        ensures
            r == client_validate_spec(self@, ty, *cfg, challenge@),
    {
        if !text_eq(self.ty.as_str(), ty.as_str()) {
            return Err(ClientDataError::InvalidWebAuthnType);
        }
        if !text_eq(self.challenge.as_str(), challenge) {
            return Err(ClientDataError::ChallengeMismatch);
        }
        if !text_eq(self.origin.as_str(), cfg.origin()) {
            return Err(ClientDataError::OriginMismatch);
        }
        if self.cross_origin && !cfg.allow_cross_origin {
            return Err(ClientDataError::CrossOrigin);
        }
        Ok(())
    }
}

} // verus!
