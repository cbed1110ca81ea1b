//! Attestation objects: the CBOR map `{ fmt, attStmt, authData }` returned
//! at registration, and the verification of fido-u2f statements.

use crate::auth_data::{auth_data_spec, AuthData, AuthDataView, AuthError};
use crate::cbor::{
    cbor_array_entry, cbor_array_item, cbor_array_len, cbor_array_len_of, cbor_key, cbor_key_entry,
    CborEntry, CborEntryView,
};
use crate::client_data::text_eq;
use crate::cose::{raw_public_spec, result_view};
use crate::crypto::{x509_end_entity, x509_p256_valid, x509_p256_verify, x509_parses};
use vstd::prelude::*;

verus! {

/// Why an attestation object or statement was refused.
#[derive(Clone, Copy, Debug, PartialEq, Eq, Structural)]
pub enum AttestationError {
    /// The CBOR is malformed, or a member is missing or of the wrong type.
    CborDecode,
    /// The statement format is not fido-u2f.
    UnsupportedAttestationFormat,
    /// The authenticator data inside is refused.
    AuthData(AuthError),
}

/// Why a fido-u2f statement does not verify.
#[derive(Clone, Copy, Debug, PartialEq, Eq, Structural)]
pub enum U2fError {
    /// `x5c` does not hold exactly one certificate.
    TooManyX509Certificates,
    /// The certificate does not parse.
    BadX509Certificate,
    /// The authenticator data has no attested credential.
    CredDataMissing,
    /// The credential public key lacks a coordinate.
    PublicKeyMissing,
    /// The signature does not verify under the certificate's key.
    SignatureFailed,
}

/// One DER-encoded X.509 certificate of a statement.
#[derive(Clone, Debug)]
pub struct Buffer {
    pub cert: Vec<u8>,
}

/// A fido-u2f attestation statement.
#[derive(Clone, Debug)]
pub struct FidoU2fAttestation {
    /// The attestation certificate chain (exactly one certificate is valid).
    pub x5c: Vec<Buffer>,
    /// The ECDSA signature (ASN.1 DER) over the verification data.
    pub sig: Vec<u8>,
}

/// A fido-u2f statement, as values.
pub struct FidoU2fView {
    pub x5c: Seq<Seq<u8>>,
    pub sig: Seq<u8>,
}

impl View for FidoU2fAttestation {
    type V = FidoU2fView;

    open spec fn view(&self) -> FidoU2fView {
        FidoU2fView { x5c: Seq::new(self.x5c@.len(), |k: int| self.x5c@[k].cert@), sig: self.sig@ }
    }
}

/// The bytes of a byte-string entry.
pub open spec fn entry_bytes(e: CborEntryView) -> Seq<u8> {
    match e {
        CborEntryView::Bytes(b) => b,
        _ => Seq::empty(),
    }
}

/// What the fido-u2f statement `stmt` (a CBOR map) decodes to: `x5c` an
/// array of byte strings, `sig` a byte string.
pub open spec fn u2f_statement_spec(stmt: Seq<u8>) -> Result<FidoU2fView, AttestationError> {
    match (cbor_key_entry(stmt, "x5c"@), cbor_key_entry(stmt, "sig"@)) {
        (CborEntryView::Nested(arr), CborEntryView::Bytes(sig)) => match cbor_array_len_of(arr) {
            Some(n) => if forall|k: int| 0 <= k < n ==> #[trigger] cbor_array_entry(arr, k) is Bytes {
                Ok(FidoU2fView { x5c: Seq::new(n as nat, |k: int| entry_bytes(cbor_array_entry(arr, k))), sig })
            } else {
                Err(AttestationError::CborDecode)
            },
            None => Err(AttestationError::CborDecode),
        },
        _ => Err(AttestationError::CborDecode),
    }
}

/// The data a fido-u2f statement signs:
/// `0x00 || rpIdHash || clientDataHash || credentialId || publicKeyU2F`.
pub open spec fn u2f_verification_data(
    rp_id_hash: Seq<u8>,
    client_data_hash: Seq<u8>,
    cred_id: Seq<u8>,
    public_key: Seq<u8>,
) -> Seq<u8> {
    seq![0u8] + rp_id_hash + client_data_hash + cred_id + public_key
}

/// What verifying a fido-u2f statement against authenticator data and the
/// client data hash yields: the credential ID and its X9.62 public key.
pub open spec fn u2f_validate_spec(
    stmt: FidoU2fView,
    auth: AuthDataView,
    client_data_hash: Seq<u8>,
) -> Result<(Seq<u8>, Seq<u8>), U2fError> {
    if stmt.x5c.len() != 1 {
        Err(U2fError::TooManyX509Certificates)
    } else if !x509_end_entity(stmt.x5c[0]) {
        Err(U2fError::BadX509Certificate)
    } else {
        match auth.cred {
            None => Err(U2fError::CredDataMissing),
            Some(cred) => match raw_public_spec(cred.key.alg) {
                None => Err(U2fError::PublicKeyMissing),
                Some(pk) => if x509_p256_valid(
                    stmt.x5c[0],
                    u2f_verification_data(auth.rp_id_hash, client_data_hash, cred.cred_id, pk),
                    stmt.sig,
                ) {
                    Ok((cred.cred_id, pk))
                } else {
                    Err(U2fError::SignatureFailed)
                },
            },
        }
    }
}

impl FidoU2fAttestation {
    /// Decodes a fido-u2f statement (see `u2f_statement_spec`).
    pub fn parse(stmt: &[u8]) -> (r: Result<FidoU2fAttestation, AttestationError>)
        ensures
            result_view(r) == u2f_statement_spec(stmt@),
    {
        let arr = match cbor_key(stmt, "x5c") {
            CborEntry::Nested(arr) => arr,
            _ => return Err(AttestationError::CborDecode),
        };
        let sig = match cbor_key(stmt, "sig") {
            CborEntry::Bytes(sig) => sig,
            _ => return Err(AttestationError::CborDecode),
        };
        let n = match cbor_array_len(arr.as_slice()) {
            Some(n) => n,
            None => return Err(AttestationError::CborDecode),
        };
        let mut x5c: Vec<Buffer> = Vec::new();
        let mut i: usize = 0;
        while i < n
            invariant
                i <= n,
                cbor_array_len_of(arr@) == Some(n),
                cbor_key_entry(stmt@, "x5c"@) == CborEntryView::Nested(arr@),
                cbor_key_entry(stmt@, "sig"@) == CborEntryView::Bytes(sig@),
                x5c@.len() == i,
                forall|k: int| 0 <= k < i ==> #[trigger] cbor_array_entry(arr@, k) is Bytes,
                forall|k: int| 0 <= k < i ==> x5c@[k].cert@ == entry_bytes(#[trigger] cbor_array_entry(arr@, k)),
            decreases n - i,
        {
            let item = cbor_array_item(arr.as_slice(), i);
            match item {
                CborEntry::Bytes(cert) => x5c.push(Buffer { cert }),
                _ => {
                    assert(!(cbor_array_entry(arr@, i as int) is Bytes));
                    return Err(AttestationError::CborDecode);
                },
            }
            i = i + 1;
        }
        let r = FidoU2fAttestation { x5c, sig };
        assert(r@.x5c =~= Seq::new(n as nat, |k: int| entry_bytes(cbor_array_entry(arr@, k))));
        Ok(r)
    }

    /// Verifies this statement: exactly one certificate that parses, whose
    /// key verifies the signature over the fido-u2f verification data built
    /// from `auth_data` and `client_data_hash`. Yields the credential ID and
    /// its X9.62 public key.
    pub fn validate(&self, auth_data: &AuthData, client_data_hash: &[u8]) -> (r: Result<
        (Vec<u8>, Vec<u8>),
        U2fError,
    >)
        ensures
            match r {
                Ok((id, pk)) => Ok((id@, pk@)),
                Err(e) => Err(e),
            } == u2f_validate_spec(self@, auth_data@, client_data_hash@),
    {
        if self.x5c.len() != 1 {
            return Err(U2fError::TooManyX509Certificates);
        }
        let cert = self.x5c[0].cert.as_slice();
        if !x509_parses(cert) {
            return Err(U2fError::BadX509Certificate);
        }
        let public_key = match auth_data.public_key() {
            Ok(pk) => pk,
            Err(AuthError::CredDataMissing) => return Err(U2fError::CredDataMissing),
            Err(_) => return Err(U2fError::PublicKeyMissing),
        };
        let cred_id = match auth_data.credential_id() {
            Ok(id) => id,
            Err(_) => return Err(U2fError::CredDataMissing),
        };
        let mut data: Vec<u8> = Vec::new();
        data.push(0u8);
        data.extend_from_slice(auth_data.rp_id_hash());
        data.extend_from_slice(client_data_hash);
        data.extend_from_slice(cred_id);
        data.extend_from_slice(public_key.as_slice());
        assert(data@ =~= u2f_verification_data(
            auth_data@.rp_id_hash,
            client_data_hash@,
            cred_id@,
            public_key@,
        ));
        if !x509_p256_verify(cert, data.as_slice(), self.sig.as_slice()) {
            return Err(U2fError::SignatureFailed);
        }
        Ok((vstd::slice::slice_to_vec(cred_id), public_key))
    }
}

/// The statement formats; only fido-u2f is verified.
#[derive(Clone, Debug)]
pub enum AttestationFormat {
    /// `packed`.
    Packed,
    /// `fido-u2f`, with its statement.
    FidoU2f(FidoU2fAttestation),
    /// Any other format, by name (`tpm`, `android-key`, `apple`, `none`, ...).
    Other(String),
}

/// A statement format, as values.
pub enum AttestationFormatView {
    Packed,
    FidoU2f(FidoU2fView),
    Other(Seq<char>),
}

impl View for AttestationFormat {
    type V = AttestationFormatView;

    open spec fn view(&self) -> AttestationFormatView {
        match self {
            AttestationFormat::Packed => AttestationFormatView::Packed,
            AttestationFormat::FidoU2f(f) => AttestationFormatView::FidoU2f(f@),
            AttestationFormat::Other(name) => AttestationFormatView::Other(name@),
        }
    }
}

/// What the statement of an attestation object `obj` decodes to, by its
/// `fmt`: a fido-u2f statement is decoded, other formats are named only.
pub open spec fn format_spec(obj: Seq<u8>, fmt: Seq<char>) -> Result<AttestationFormatView, AttestationError> {
    if fmt == "fido-u2f"@ {
        match cbor_key_entry(obj, "attStmt"@) {
            CborEntryView::Nested(stmt) => match u2f_statement_spec(stmt) {
                Ok(f) => Ok(AttestationFormatView::FidoU2f(f)),
                Err(e) => Err(e),
            },
            _ => Err(AttestationError::CborDecode),
        }
    } else if fmt == "packed"@ {
        Ok(AttestationFormatView::Packed)
    } else {
        Ok(AttestationFormatView::Other(fmt))
    }
}

/// What the attestation object `obj` decodes to: its authenticator data and
/// its statement. `fmt` must be text and `authData` a byte string.
pub open spec fn attestation_object_spec(obj: Seq<u8>) -> Result<(AuthDataView, AttestationFormatView), AttestationError> {
    match (cbor_key_entry(obj, "fmt"@), cbor_key_entry(obj, "authData"@)) {
        (CborEntryView::Text(fmt), CborEntryView::Bytes(auth)) => match format_spec(obj, fmt) {
            Err(e) => Err(e),
            Ok(format) => match auth_data_spec(auth) {
                Err(e) => Err(AttestationError::AuthData(e)),
                Ok(a) => Ok((a, format)),
            },
        },
        _ => Err(AttestationError::CborDecode),
    }
}

/// Decodes an attestation object (see `attestation_object_spec`).
pub fn parse(obj: &[u8]) -> (r: Result<(AuthData, AttestationFormat), AttestationError>)
    ensures
        match r {
            Ok((a, f)) => Ok((a@, f@)),
            Err(e) => Err(e),
        } == attestation_object_spec(obj@),
{
    let fmt = match cbor_key(obj, "fmt") {
        CborEntry::Text(fmt) => fmt,
        _ => return Err(AttestationError::CborDecode),
    };
    let auth = match cbor_key(obj, "authData") {
        CborEntry::Bytes(auth) => auth,
        _ => return Err(AttestationError::CborDecode),
    };
    let format = if text_eq(fmt.as_str(), "fido-u2f") {
        match cbor_key(obj, "attStmt") {
            CborEntry::Nested(stmt) => match FidoU2fAttestation::parse(stmt.as_slice()) {
                Ok(f) => AttestationFormat::FidoU2f(f),
                Err(e) => return Err(e),
            },
            _ => return Err(AttestationError::CborDecode),
        }
    } else if text_eq(fmt.as_str(), "packed") {
        AttestationFormat::Packed
    } else {
        AttestationFormat::Other(fmt)
    };
    match AuthData::parse(auth.as_slice()) {
        Ok(a) => Ok((a, format)),
        Err(e) => Err(AttestationError::AuthData(e)),
    }
}

} // verus!
