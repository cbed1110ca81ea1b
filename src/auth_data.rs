//! Authenticator data: the RP ID hash, the flags, the signature counter and,
//! at registration, the attested credential with its COSE public key.

use crate::config::{UserVerification, WebAuthnConfig};
use crate::cose::{cose_key_prefix_spec, raw_public_spec, result_view, CoseError, CoseKey, CoseKeyView};
use crate::crypto::{sha256, sha256_of};
use vstd::prelude::*;
use vstd::slice::{slice_subrange, slice_to_vec};
use vstd::utf8::encode_utf8;

verus! {

/// Flag bit: the user was present.
pub const FLAG_UP: u8 = 0x01;

/// Flag bit: the user was verified.
pub const FLAG_UV: u8 = 0x04;

/// Flag bit: attested credential data follows the counter.
pub const FLAG_AT: u8 = 0x40;

/// Flag bit: extension data follows.
pub const FLAG_ED: u8 = 0x80;

/// Why authenticator data was refused.
#[derive(Clone, Copy, Debug, PartialEq, Eq, Structural)]
pub enum AuthError {
    /// The bytes do not follow the authenticator data layout.
    Malformed,
    /// Extension data follows; extensions are not supported.
    UnsupportedExtensions,
    /// The credential public key does not decode.
    InvalidCoseKey(CoseError),
    /// The RP ID hash is not the hash of the configured RP ID.
    RpIdHashMismatch,
    /// The user-present flag is clear.
    UserNotPresent,
    /// The user-verified flag is clear while verification is required.
    UserNotVerified,
    /// There is no attested credential data.
    CredDataMissing,
    /// The credential public key lacks a coordinate.
    PublicKeyMissing,
}

/// Whether `bit` is set in `flags`.
pub open spec fn flag_set(flags: u8, bit: u8) -> bool {
    flags & bit == bit
}

/// The big-endian integer of two bytes.
pub open spec fn be16(hi: u8, lo: u8) -> int {
    hi as int * 256 + lo as int
}

/// The big-endian integer of the four bytes of `d` from `at`.
pub open spec fn be32(d: Seq<u8>, at: int) -> int {
    d[at] as int * 16777216 + d[at + 1] as int * 65536 + d[at + 2] as int * 256 + d[at + 3] as int
}

/// Attested credential data, as values.
pub struct CredentialDataView {
    pub aa_guid: Seq<u8>,
    pub length: u16,
    pub cred_id: Seq<u8>,
    pub key: CoseKeyView,
}

/// What the attested credential data at the start of `c` decodes to, with
/// the number of bytes it takes: a 16-byte AAGUID, a 2-byte length `L`
/// (1 to 1023), the credential ID (`L` bytes) and one CBOR COSE_Key.
pub open spec fn credential_spec(c: Seq<u8>) -> Result<(CredentialDataView, int), AuthError> {
    if c.len() < 18 {
        Err(AuthError::Malformed)
    } else {
        let l = be16(c[16], c[17]);
        if l < 1 || l > 1023 || 18 + l > c.len() {
            Err(AuthError::Malformed)
        } else {
            match cose_key_prefix_spec(c.subrange(18 + l, c.len() as int)) {
                Err(e) => Err(AuthError::InvalidCoseKey(e)),
                Ok((key, n)) => Ok(
                    (
                        CredentialDataView {
                            aa_guid: c.subrange(0, 16),
                            length: l as u16,
                            cred_id: c.subrange(18, 18 + l),
                            key,
                        },
                        18 + l + n,
                    ),
                ),
            }
        }
    }
}

/// Decoded authenticator data, as values.
pub struct AuthDataView {
    pub rp_id_hash: Seq<u8>,
    pub flags: u8,
    pub counter: u32,
    pub cred: Option<CredentialDataView>,
}

/// The error for bytes that follow the data: extensions when the ED flag
/// says so, a malformed layout otherwise.
pub open spec fn trailing_error(flags: u8) -> AuthError {
    if flag_set(flags, FLAG_ED) {
        AuthError::UnsupportedExtensions
    } else {
        AuthError::Malformed
    }
}

/// What the authenticator data `d` decodes to: 32 bytes of RP ID hash, a
/// flags byte, a big-endian counter, then attested credential data exactly
/// when the AT flag is set, and nothing after.
pub open spec fn auth_data_spec(d: Seq<u8>) -> Result<AuthDataView, AuthError> {
    if d.len() < 37 {
        Err(AuthError::Malformed)
    } else {
        let flags = d[32];
        let head = AuthDataView {
            rp_id_hash: d.subrange(0, 32),
            flags,
            counter: be32(d, 33) as u32,
            cred: None,
        };
        if !flag_set(flags, FLAG_AT) {
            if d.len() == 37 {
                Ok(head)
            } else {
                Err(trailing_error(flags))
            }
        } else {
            match credential_spec(d.subrange(37, d.len() as int)) {
                Err(e) => Err(e),
                Ok((cred, used)) => if 37 + used == d.len() {
                    Ok(AuthDataView { cred: Some(cred), ..head })
                } else {
                    Err(trailing_error(flags))
                },
            }
        }
    }
}

/// The credential that an authenticator attests at registration.
#[derive(Clone, Debug)]
pub struct CredentialData {
    /// The authenticator's model identifier (16 bytes).
    pub aa_guid: Vec<u8>,
    /// The length of the credential ID.
    pub length: u16,
    /// The credential ID.
    pub cred_id: Vec<u8>,
    /// The credential public key.
    pub cred_pub_key: CoseKey,
}

impl View for CredentialData {
    type V = CredentialDataView;

    open spec fn view(&self) -> CredentialDataView {
        CredentialDataView {
            aa_guid: self.aa_guid@,
            length: self.length,
            cred_id: self.cred_id@,
            key: self.cred_pub_key@,
        }
    }
}

impl CredentialData {
    /// Decodes the attested credential data at the start of `data`, and
    /// reports how many bytes it takes.
    pub fn parse(data: &[u8]) -> (r: Result<(CredentialData, usize), AuthError>)
        ensures
            match (r, credential_spec(data@)) {
                (Ok((c, n)), Ok((cv, m))) => c@ == cv && n == m && c.length as int == c.cred_id@.len(),
                (Err(e), Err(f)) => e == f,
                _ => false,
            },
    {
        let len = data.len();
        if len < 18 {
            return Err(AuthError::Malformed);
        }
        let l: usize = data[16] as usize * 256 + data[17] as usize;
        if l < 1 || l > 1023 || 18 + l > len {
            return Err(AuthError::Malformed);
        }
        let rest = slice_subrange(data, 18 + l, len);
        let (key, n) = match CoseKey::parse(rest) {
            Ok(p) => p,
            Err(e) => return Err(AuthError::InvalidCoseKey(e)),
        };
        let cred = CredentialData {
            aa_guid: slice_to_vec(slice_subrange(data, 0, 16)),
            length: l as u16,
            cred_id: slice_to_vec(slice_subrange(data, 18, 18 + l)),
            cred_pub_key: key,
        };
        Ok((cred, 18 + l + n))
    }
}

/// The flags that authenticator data carries.
#[derive(Clone, Copy, Debug, PartialEq, Eq, Structural)]
pub enum AuthDataFlag {
    /// The user is present.
    UserPresent,
    /// The user is verified.
    UserVerified,
    /// Attested credential data is included.
    AttestedCredentialData,
    /// Extension data is included.
    ExtensionData,
}

/// The bit of a flag.
pub open spec fn flag_bit(flag: AuthDataFlag) -> u8 {
    match flag {
        AuthDataFlag::UserPresent => FLAG_UP,
        AuthDataFlag::UserVerified => FLAG_UV,
        AuthDataFlag::AttestedCredentialData => FLAG_AT,
        AuthDataFlag::ExtensionData => FLAG_ED,
    }
}

/// Decoded authenticator data.
#[derive(Clone, Debug)]
pub struct AuthData {
    /// SHA-256 of the RP ID the authenticator used (32 bytes).
    pub rp_id_hash: Vec<u8>,
    /// The flags byte.
    pub flags: u8,
    /// The signature counter.
    pub counter: u32,
    /// The attested credential, present exactly when the AT flag is set.
    pub cred_data: Option<CredentialData>,
}

impl View for AuthData {
    type V = AuthDataView;

    open spec fn view(&self) -> AuthDataView {
        AuthDataView {
            rp_id_hash: self.rp_id_hash@,
            flags: self.flags,
            counter: self.counter,
            cred: match self.cred_data {
                Some(c) => Some(c@),
                None => None,
            },
        }
    }
}

/// Whether the first `n` bytes of `a` and `b` agree.
pub open spec fn prefix_equal(a: Seq<u8>, b: Seq<u8>, n: int) -> bool {
    forall|k: int| 0 <= k < n ==> a[k] == b[k]
}

/// Compares two byte strings in time that depends on their length only.
pub fn constant_time_eq(a: &[u8], b: &[u8]) -> (r: bool)
    ensures
        r == (a@ == b@),
{
    if a.len() != b.len() {
        return false;
    }
    let mut matched: usize = 0;
    let mut i: usize = 0;
    while i < a.len()
        invariant
            a@.len() == b@.len(),
            i <= a@.len(),
            matched <= i,
            (matched == i) == prefix_equal(a@, b@, i as int),
        decreases a@.len() - i,
    {
        matched = matched + (a[i] == b[i]) as usize;
        i = i + 1;
    }
    assert(matched == a.len() ==> a@ =~= b@);
    matched == a.len()
}

/// What validation against an RP ID (as UTF-8 bytes) and a policy decides.
pub open spec fn validate_spec(data: AuthDataView, rp_id: Seq<u8>, policy: UserVerification) -> Result<(), AuthError> {
    if data.rp_id_hash != sha256_of(rp_id) {
        Err(AuthError::RpIdHashMismatch)
    } else if !flag_set(data.flags, FLAG_UP) {
        Err(AuthError::UserNotPresent)
    } else if policy == UserVerification::Required && !flag_set(data.flags, FLAG_UV) {
        Err(AuthError::UserNotVerified)
    } else {
        Ok(())
    }
}

impl AuthData {
    /// Decodes authenticator data (see `auth_data_spec`).
    pub fn parse(data: &[u8]) -> (r: Result<AuthData, AuthError>)
        ensures
            result_view(r) == auth_data_spec(data@),
    {
        let len = data.len();
        if len < 37 {
            return Err(AuthError::Malformed);
        }
        let flags = data[32];
        let counter: u32 = data[33] as u32 * 16777216 + data[34] as u32 * 65536 + data[35] as u32 * 256
            + data[36] as u32;
        let rp_id_hash = slice_to_vec(slice_subrange(data, 0, 32));
        let extension_error = if flags & FLAG_ED == FLAG_ED {
            AuthError::UnsupportedExtensions
        } else {
            AuthError::Malformed
        };
        if flags & FLAG_AT != FLAG_AT {
            if len == 37 {
                return Ok(AuthData { rp_id_hash, flags, counter, cred_data: None });
            } else {
                return Err(extension_error);
            }
        }
        match CredentialData::parse(slice_subrange(data, 37, len)) {
            Err(e) => Err(e),
            Ok((cred, used)) => if used == len - 37 {
                Ok(AuthData { rp_id_hash, flags, counter, cred_data: Some(cred) })
            } else {
                Err(extension_error)
            },
        }
    }

    /// Checks the RP ID hash against the configured RP ID, that the user was
    /// present, and that the user was verified when the policy requires it.
    pub fn validate(&self, cfg: &WebAuthnConfig) -> (r: Result<(), AuthError>)
        ensures
            r == validate_spec(self@, encode_utf8(cfg.rp_id@), cfg.user_verification),
    {
        let expected = sha256(cfg.id().as_bytes());
        if !constant_time_eq(self.rp_id_hash.as_slice(), expected.as_slice()) {
            return Err(AuthError::RpIdHashMismatch);
        }
        if !self.is_user_present() {
            return Err(AuthError::UserNotPresent);
        }
        if cfg.user_verification == UserVerification::Required && !self.is_user_verified() {
            return Err(AuthError::UserNotVerified);
        }
        Ok(())
    }

    /// The hash of the RP ID.
    pub fn rp_id_hash(&self) -> (r: &[u8])
        ensures
            r@ == self.rp_id_hash@,
    {
        self.rp_id_hash.as_slice()
    }

    /// The signature counter.
    pub fn count(&self) -> (r: u32)
        ensures
            r == self.counter,
    {
        self.counter
    }

    /// The attested credential data, if any.
    pub fn credential_data(&self) -> (r: Option<&CredentialData>)
        ensures
            r == match self.cred_data {
                Some(c) => Some(&c),
                None => None::<&CredentialData>,
            },
    {
        match &self.cred_data {
            Some(c) => Some(c),
            None => None,
        }
    }

    /// The credential public key in X9.62 uncompressed form.
    pub fn public_key(&self) -> (r: Result<Vec<u8>, AuthError>)
        ensures
            match self.cred_data {
                None => r == Err::<Vec<u8>, AuthError>(AuthError::CredDataMissing),
                Some(c) => match raw_public_spec(c@.key.alg) {
                    Some(raw) => r matches Ok(v) && v@ == raw,
                    None => r == Err::<Vec<u8>, AuthError>(AuthError::PublicKeyMissing),
                },
            },
    {
        match &self.cred_data {
            None => Err(AuthError::CredDataMissing),
            Some(c) => match c.cred_pub_key.as_raw() {
                Some(raw) => Ok(raw),
                None => Err(AuthError::PublicKeyMissing),
            },
        }
    }

    /// The credential ID of the attested credential.
    pub fn credential_id(&self) -> (r: Result<&[u8], AuthError>)
        ensures
            match self.cred_data {
                None => r == Err::<&[u8], AuthError>(AuthError::CredDataMissing),
                Some(c) => r matches Ok(id) && id@ == c.cred_id@,
            },
    {
        match &self.cred_data {
            None => Err(AuthError::CredDataMissing),
            Some(c) => Ok(c.cred_id.as_slice()),
        }
    }

    /// Whether `flag` is set.
    pub fn is_flag_set(&self, flag: AuthDataFlag) -> (r: bool)
        ensures
            r == flag_set(self.flags, flag_bit(flag)),
    {
        match flag {
            AuthDataFlag::UserPresent => self.flags & FLAG_UP == FLAG_UP,
            AuthDataFlag::UserVerified => self.flags & FLAG_UV == FLAG_UV,
            AuthDataFlag::AttestedCredentialData => self.flags & FLAG_AT == FLAG_AT,
            AuthDataFlag::ExtensionData => self.flags & FLAG_ED == FLAG_ED,
        }
    }

    /// Whether the user-present flag is set.
    pub fn is_user_present(&self) -> (r: bool)
        ensures
            r == flag_set(self.flags, FLAG_UP),
    {
        self.is_flag_set(AuthDataFlag::UserPresent)
    }

    /// Whether the user-verified flag is set.
    pub fn is_user_verified(&self) -> (r: bool)
        ensures
            r == flag_set(self.flags, FLAG_UV),
    {
        self.is_flag_set(AuthDataFlag::UserVerified)
    }

    /// Whether attested credential data is flagged.
    pub fn has_credential(&self) -> (r: bool)
        ensures
            r == flag_set(self.flags, FLAG_AT),
    {
        self.is_flag_set(AuthDataFlag::AttestedCredentialData)
    }

    /// Whether extension data is flagged.
    pub fn has_extensions(&self) -> (r: bool)
        ensures
            r == flag_set(self.flags, FLAG_ED),
    {
        self.is_flag_set(AuthDataFlag::ExtensionData)
    }
}

} // verus!
