//! COSE_Key decoding (RFC 8152) for the credential public key that an
//! authenticator attests; only ES256 (ECDSA P-256 with SHA-256) is read.

use crate::cbor::{
    cbor_array_entry, cbor_array_item, cbor_array_len, cbor_array_len_of, cbor_first_item_len,
    cbor_integer_keyed, cbor_integer_keys, cbor_item_len, cbor_label, cbor_label_entry, CborEntry,
    CborEntryView,
};
use vstd::prelude::*;

verus! {

/// Label of the key type.
pub const COSE_KEY_KTY: i64 = 1;

/// Label of the key identifier.
pub const COSE_KEY_KID: i64 = 2;

/// Label of the algorithm.
pub const COSE_KEY_ALG: i64 = 3;

/// Label of the permitted key operations.
pub const COSE_KEY_KEY_OPS: i64 = 4;

/// Label of the base IV.
pub const COSE_KEY_BASE_IV: i64 = 5;

/// Label of the curve of an EC2 key.
pub const COSE_KEY_EC2_CRV: i64 = -1;

/// Label of the x-coordinate of an EC2 key.
pub const COSE_KEY_EC2_X: i64 = -2;

/// Label of the y-coordinate of an EC2 key.
pub const COSE_KEY_EC2_Y: i64 = -3;

/// Label of the private scalar of an EC2 key.
pub const COSE_KEY_EC2_D: i64 = -4;

/// Algorithm identifier of ES256.
pub const COSE_KEY_ALGO_ES256: i128 = -7;

/// Why a COSE_Key could not be decoded.
#[derive(Clone, Copy, Debug, PartialEq, Eq, Structural)]
pub enum CoseError {
    /// The bytes are not one well-formed CBOR map.
    Malformed,
    /// A required label is absent.
    MissingField,
    /// A label holds a value of the wrong CBOR type.
    InvalidType,
    /// The key type is not one that COSE defines.
    UnknownKty,
    /// The algorithm (or its curve) is not ES256 on P-256.
    UnsupportedAlgorithm,
}

/// The family of a key, label 1 of a COSE_Key.
#[derive(Clone, Copy, Debug, PartialEq, Eq, Structural)]
pub enum CoseKeyType {
    Reserved,
    OKP,
    EC2,
    Symmetric,
}

/// The operations a key may be used for, label 4 of a COSE_Key.
#[derive(Clone, Copy, Debug, PartialEq, Eq, Structural)]
pub enum CoseKeyOps {
    Unknown,
    Sign,
    Verify,
    Encrypt,
    Decrypt,
    WrapKey,
    UnwrapKey,
    DeriveKey,
    DeriveBits,
    MacCreate,
    MacVerify,
}

/// Elliptic curves that COSE identifies, label -1 of an EC2 key.
#[derive(Clone, Copy, Debug, PartialEq, Eq, Structural)]
pub enum Curve {
    P256,
    P384,
    P512,
    X25519,
    X448,
    Ed25519,
    Ed448,
}

/// The view of a result whose success value has one.
pub open spec fn result_view<T: View, E>(r: Result<T, E>) -> Result<T::V, E> {
    match r {
        Ok(t) => Ok(t@),
        Err(e) => Err(e),
    }
}

/// An optional byte string, as a sequence.
pub open spec fn opt_seq(o: Option<Vec<u8>>) -> Option<Seq<u8>> {
    match o {
        Some(v) => Some(v@),
        None => None,
    }
}

pub open spec fn kty_spec(e: CborEntryView) -> Result<CoseKeyType, CoseError> {
    match e {
        CborEntryView::Malformed => Err(CoseError::Malformed),
        CborEntryView::Absent => Err(CoseError::MissingField),
        CborEntryView::Integer(i) => if i == 0 {
            Ok(CoseKeyType::Reserved)
        } else if i == 1 {
            Ok(CoseKeyType::OKP)
        } else if i == 2 {
            Ok(CoseKeyType::EC2)
        } else if i == 4 {
            Ok(CoseKeyType::Symmetric)
        } else {
            Err(CoseError::UnknownKty)
        },
        _ => Err(CoseError::InvalidType),
    }
}

pub open spec fn key_op_spec(i: int) -> Option<CoseKeyOps> {
    if i == 1 {
        Some(CoseKeyOps::Sign)
    } else if i == 2 {
        Some(CoseKeyOps::Verify)
    } else if i == 3 {
        Some(CoseKeyOps::Encrypt)
    } else if i == 4 {
        Some(CoseKeyOps::Decrypt)
    } else if i == 5 {
        Some(CoseKeyOps::WrapKey)
    } else if i == 6 {
        Some(CoseKeyOps::UnwrapKey)
    } else if i == 7 {
        Some(CoseKeyOps::DeriveKey)
    } else if i == 8 {
        Some(CoseKeyOps::DeriveBits)
    } else if i == 9 {
        Some(CoseKeyOps::MacCreate)
    } else if i == 10 {
        Some(CoseKeyOps::MacVerify)
    } else {
        None
    }
}

/// The operations named by the first `n` elements of the CBOR array `arr`,
/// in order; elements that name none are skipped.
pub open spec fn key_ops_upto(arr: Seq<u8>, n: nat) -> Seq<CoseKeyOps>
    decreases n,
{
    if n == 0 {
        Seq::empty()
    } else {
        let prev = key_ops_upto(arr, (n - 1) as nat);
        match cbor_array_entry(arr, n - 1) {
            CborEntryView::Integer(i) => match key_op_spec(i) {
                Some(op) => prev.push(op),
                None => prev,
            },
            _ => prev,
        }
    }
}

/// The operations under label 4: none when it is absent, and an empty list
/// when it holds something other than an array.
pub open spec fn key_ops_spec(e: CborEntryView) -> Option<Seq<CoseKeyOps>> {
    match e {
        CborEntryView::Malformed => None,
        CborEntryView::Absent => None,
        CborEntryView::Nested(arr) => Some(
            match cbor_array_len_of(arr) {
                Some(n) => key_ops_upto(arr, n as nat),
                None => Seq::empty(),
            },
        ),
        _ => Some(Seq::empty()),
    }
}

pub open spec fn curve_spec(e: CborEntryView) -> Result<Curve, CoseError> {
    match e {
        CborEntryView::Malformed => Err(CoseError::Malformed),
        CborEntryView::Absent => Err(CoseError::MissingField),
        CborEntryView::Integer(i) => if i == 1 {
            Ok(Curve::P256)
        } else if i == 2 {
            Ok(Curve::P384)
        } else if i == 3 {
            Ok(Curve::P512)
        } else if i == 4 {
            Ok(Curve::X25519)
        } else if i == 5 {
            Ok(Curve::X448)
        } else if i == 6 {
            Ok(Curve::Ed25519)
        } else if i == 7 {
            Ok(Curve::Ed448)
        } else {
            Err(CoseError::UnsupportedAlgorithm)
        },
        _ => Err(CoseError::InvalidType),
    }
}

/// An optional coordinate: absent, or a 32-byte string (a P-256 field
/// element, big-endian).
pub open spec fn coordinate_spec(e: CborEntryView) -> Result<Option<Seq<u8>>, CoseError> {
    match e {
        CborEntryView::Malformed => Err(CoseError::Malformed),
        CborEntryView::Absent => Ok(None),
        CborEntryView::Bytes(b) => if b.len() == 32 {
            Ok(Some(b))
        } else {
            Err(CoseError::InvalidType)
        },
        _ => Err(CoseError::InvalidType),
    }
}

/// An optional byte string that is kept only when it is one.
pub open spec fn loose_bytes_spec(e: CborEntryView) -> Option<Seq<u8>> {
    match e {
        CborEntryView::Bytes(b) => Some(b),
        _ => None,
    }
}

/// The decoded parameters of an ES256 key.
pub struct ES256ParamsView {
    pub crv: Curve,
    pub x: Option<Seq<u8>>,
    pub y: Option<Seq<u8>>,
    pub d: Option<Seq<u8>>,
}

/// What the ES256 parameters of the COSE_Key `data` decode to.
pub open spec fn es256_spec(data: Seq<u8>) -> Result<ES256ParamsView, CoseError> {
    match curve_spec(cbor_label_entry(data, -1)) {
        Err(e) => Err(e),
        Ok(crv) => if crv != Curve::P256 {
            Err(CoseError::UnsupportedAlgorithm)
        } else {
            match (
                coordinate_spec(cbor_label_entry(data, -2)),
                coordinate_spec(cbor_label_entry(data, -3)),
                coordinate_spec(cbor_label_entry(data, -4)),
            ) {
                (Err(e), _, _) => Err(e),
                (Ok(_), Err(e), _) => Err(e),
                (Ok(_), Ok(_), Err(e)) => Err(e),
                (Ok(x), Ok(y), Ok(d)) => if (x is Some && y is Some) || d is Some {
                    Ok(ES256ParamsView { crv, x, y, d })
                } else {
                    Err(CoseError::MissingField)
                },
            }
        },
    }
}

/// A decoded COSE_Key, as values.
pub struct CoseKeyView {
    pub kty: CoseKeyType,
    pub kid: Option<Seq<u8>>,
    pub alg: ES256ParamsView,
    pub key_ops: Option<Seq<CoseKeyOps>>,
    pub iv: Option<Seq<u8>>,
}

/// What the algorithm of the COSE_Key `data` decodes to.
pub open spec fn algorithm_spec(data: Seq<u8>) -> Result<ES256ParamsView, CoseError> {
    match cbor_label_entry(data, 3) {
        CborEntryView::Malformed => Err(CoseError::Malformed),
        CborEntryView::Absent => Err(CoseError::MissingField),
        CborEntryView::Integer(i) => if i == -7 {
            es256_spec(data)
        } else {
            Err(CoseError::UnsupportedAlgorithm)
        },
        _ => Err(CoseError::InvalidType),
    }
}

/// What the COSE_Key `data` (one CBOR map) decodes to: every label must be
/// an integer (a text label is refused as `InvalidType`); the key type,
/// then the algorithm and its parameters, are required; the rest is
/// optional.
pub open spec fn cose_key_spec(data: Seq<u8>) -> Result<CoseKeyView, CoseError> {
    if cbor_label_entry(data, 1) is Malformed {
        Err(CoseError::Malformed)
    } else if !cbor_integer_keyed(data) {
        Err(CoseError::InvalidType)
    } else {
        cose_map_spec(data)
    }
}

/// What a COSE_Key map with integer labels decodes to.
pub open spec fn cose_map_spec(data: Seq<u8>) -> Result<CoseKeyView, CoseError> {
    match kty_spec(cbor_label_entry(data, 1)) {
        Err(e) => Err(e),
        Ok(kty) => match algorithm_spec(data) {
            Err(e) => Err(e),
            Ok(alg) => Ok(
                CoseKeyView {
                    kty,
                    kid: loose_bytes_spec(cbor_label_entry(data, 2)),
                    alg,
                    key_ops: key_ops_spec(cbor_label_entry(data, 4)),
                    iv: loose_bytes_spec(cbor_label_entry(data, 5)),
                },
            ),
        },
    }
}

impl CoseKeyType {
    /// Reads the key type (label 1) of the COSE_Key `data`.
    pub fn from_cbor(data: &[u8]) -> (r: Result<CoseKeyType, CoseError>)
        ensures
            r == kty_spec(cbor_label_entry(data@, 1)),
    {
        match cbor_label(data, COSE_KEY_KTY) {
            CborEntry::Malformed => Err(CoseError::Malformed),
            CborEntry::Absent => Err(CoseError::MissingField),
            CborEntry::Integer(i) => if i == 0 {
                Ok(CoseKeyType::Reserved)
            } else if i == 1 {
                Ok(CoseKeyType::OKP)
            } else if i == 2 {
                Ok(CoseKeyType::EC2)
            } else if i == 4 {
                Ok(CoseKeyType::Symmetric)
            } else {
                Err(CoseError::UnknownKty)
            },
            _ => Err(CoseError::InvalidType),
        }
    }
}

impl CoseKeyOps {
    /// The operation that the integer `i` names, if any.
    pub fn from_label(i: i128) -> (r: Option<CoseKeyOps>)
        ensures
            r == key_op_spec(i as int),
    {
        if i == 1 {
            Some(CoseKeyOps::Sign)
        } else if i == 2 {
            Some(CoseKeyOps::Verify)
        } else if i == 3 {
            Some(CoseKeyOps::Encrypt)
        } else if i == 4 {
            Some(CoseKeyOps::Decrypt)
        } else if i == 5 {
            Some(CoseKeyOps::WrapKey)
        } else if i == 6 {
            Some(CoseKeyOps::UnwrapKey)
        } else if i == 7 {
            Some(CoseKeyOps::DeriveKey)
        } else if i == 8 {
            Some(CoseKeyOps::DeriveBits)
        } else if i == 9 {
            Some(CoseKeyOps::MacCreate)
        } else if i == 10 {
            Some(CoseKeyOps::MacVerify)
        } else {
            None
        }
    }

    /// Reads the permitted operations (label 4) of the COSE_Key `data`.
    pub fn from_cbor(data: &[u8]) -> (r: Option<Vec<CoseKeyOps>>)
        ensures
            match r { Some(v) => Some(v@), None => None::<Seq<CoseKeyOps>> } == key_ops_spec(cbor_label_entry(data@, 4)),
    {
        match cbor_label(data, COSE_KEY_KEY_OPS) {
            CborEntry::Malformed => None,
            CborEntry::Absent => None,
            CborEntry::Nested(arr) => {
                let mut ops: Vec<CoseKeyOps> = Vec::new();
                match cbor_array_len(arr.as_slice()) {
                    Some(n) => {
                        let mut i: usize = 0;
                        while i < n
                            invariant
                                i <= n,
                                cbor_array_len_of(arr@) == Some(n),
                                ops@ == key_ops_upto(arr@, i as nat),
                            decreases n - i,
                        {
                            match cbor_array_item(arr.as_slice(), i) {
                                CborEntry::Integer(k) => match CoseKeyOps::from_label(k) {
                                    Some(op) => ops.push(op),
                                    None => {},
                                },
                                _ => {},
                            }
                            i = i + 1;
                        }
                    },
                    None => {},
                }
                Some(ops)
            },
            _ => Some(Vec::new()),
        }
    }
}

impl Curve {
    /// Reads the curve (label -1) of the COSE_Key `data`.
    pub fn from_cbor(data: &[u8]) -> (r: Result<Curve, CoseError>)
        ensures
            r == curve_spec(cbor_label_entry(data@, -1)),
    {
        match cbor_label(data, COSE_KEY_EC2_CRV) {
            CborEntry::Malformed => Err(CoseError::Malformed),
            CborEntry::Absent => Err(CoseError::MissingField),
            CborEntry::Integer(i) => if i == 1 {
                Ok(Curve::P256)
            } else if i == 2 {
                Ok(Curve::P384)
            } else if i == 3 {
                Ok(Curve::P512)
            } else if i == 4 {
                Ok(Curve::X25519)
            } else if i == 5 {
                Ok(Curve::X448)
            } else if i == 6 {
                Ok(Curve::Ed25519)
            } else if i == 7 {
                Ok(Curve::Ed448)
            } else {
                Err(CoseError::UnsupportedAlgorithm)
            },
            _ => Err(CoseError::InvalidType),
        }
    }
}

/// Reads an optional coordinate under `label` of the COSE_Key `data`.
fn coordinate(data: &[u8], label: i64) -> (r: Result<Option<Vec<u8>>, CoseError>)
    ensures
        match r { Ok(o) => Ok(opt_seq(o)), Err(e) => Err(e) } == coordinate_spec(cbor_label_entry(data@, label as int)),
{
    match cbor_label(data, label) {
        CborEntry::Malformed => Err(CoseError::Malformed),
        CborEntry::Absent => Ok(None),
        CborEntry::Bytes(b) => if b.len() == 32 {
            Ok(Some(b))
        } else {
            Err(CoseError::InvalidType)
        },
        _ => Err(CoseError::InvalidType),
    }
}

/// Reads an optional byte string under `label`, kept only when it is one.
fn loose_bytes(data: &[u8], label: i64) -> (r: Option<Vec<u8>>)
    ensures
        opt_seq(r) == loose_bytes_spec(cbor_label_entry(data@, label as int)),
{
    match cbor_label(data, label) {
        CborEntry::Bytes(b) => Some(b),
        _ => None,
    }
}

/// The parameters of an ES256 (ECDSA P-256) key: a public key has both
/// coordinates, a private key has the scalar `d`.
#[derive(Clone, Debug)]
pub struct ES256Params {
    pub crv: Curve,
    pub x: Option<Vec<u8>>,
    pub y: Option<Vec<u8>>,
    pub d: Option<Vec<u8>>,
}

impl View for ES256Params {
    type V = ES256ParamsView;

    open spec fn view(&self) -> ES256ParamsView {
        ES256ParamsView { crv: self.crv, x: opt_seq(self.x), y: opt_seq(self.y), d: opt_seq(self.d) }
    }
}

/// The X9.62 uncompressed form `0x04 || x || y` of a public point.
pub open spec fn x962_raw(x: Seq<u8>, y: Seq<u8>) -> Seq<u8> {
    seq![4u8] + x + y
}

/// The raw public key of ES256 parameters, when both coordinates are present.
pub open spec fn raw_public_spec(p: ES256ParamsView) -> Option<Seq<u8>> {
    match (p.x, p.y) {
        (Some(x), Some(y)) => Some(x962_raw(x, y)),
        _ => None,
    }
}

/// Appends `x` and `y` to the point marker 0x04.
fn raw_point(x: &[u8], y: &[u8]) -> (r: Vec<u8>)
    ensures
        r@ == x962_raw(x@, y@),
{
    let mut raw: Vec<u8> = Vec::new();
    raw.push(4u8);
    raw.extend_from_slice(x);
    raw.extend_from_slice(y);
    assert(raw@ =~= x962_raw(x@, y@));
    raw
}

impl ES256Params {
    /// Reads the ES256 parameters of the COSE_Key `data`: the curve must be
    /// P-256, and both coordinates or the private scalar must be present.
    pub fn from_cbor(data: &[u8]) -> (r: Result<ES256Params, CoseError>)
        ensures
            result_view(r) == es256_spec(data@),
    {
        let crv = match Curve::from_cbor(data) {
            Ok(c) => c,
            Err(e) => return Err(e),
        };
        if crv != Curve::P256 {
            return Err(CoseError::UnsupportedAlgorithm);
        }
        let x = match coordinate(data, COSE_KEY_EC2_X) {
            Ok(v) => v,
            Err(e) => return Err(e),
        };
        let y = match coordinate(data, COSE_KEY_EC2_Y) {
            Ok(v) => v,
            Err(e) => return Err(e),
        };
        let d = match coordinate(data, COSE_KEY_EC2_D) {
            Ok(v) => v,
            Err(e) => return Err(e),
        };
        if (x.is_some() && y.is_some()) || d.is_some() {
            Ok(ES256Params { crv, x, y, d })
        } else {
            Err(CoseError::MissingField)
        }
    }

    /// Converts this public key into the X9.62 uncompressed form
    /// `0x04 || x || y`; `None` when a coordinate is missing.
    pub fn to_raw(self) -> (r: Option<Vec<u8>>)
        ensures
            opt_seq(r) == raw_public_spec(self@),
    {
        match (&self.x, &self.y) {
            (Some(x), Some(y)) => Some(raw_point(x.as_slice(), y.as_slice())),
            _ => None,
        }
    }

    /// Same as `to_raw`, leaving the parameters in place.
    pub fn as_raw(&self) -> (r: Option<Vec<u8>>)
        ensures
            opt_seq(r) == raw_public_spec(self@),
    {
        match (&self.x, &self.y) {
            (Some(x), Some(y)) => Some(raw_point(x.as_slice(), y.as_slice())),
            _ => None,
        }
    }

    /// The public coordinates `(x, y)`, when both are present.
    pub fn get_public(&self) -> (r: Option<(&[u8], &[u8])>)
        ensures
            r matches Some(p) <==> (self.x is Some && self.y is Some),
            r matches Some(p) ==> Some(p.0@) == opt_seq(self.x) && Some(p.1@) == opt_seq(self.y),
    {
        match (&self.x, &self.y) {
            (Some(x), Some(y)) => Some((x.as_slice(), y.as_slice())),
            _ => None,
        }
    }

    /// The private scalar `d`, when present.
    pub fn get_private(&self) -> (r: Option<&[u8]>)
        ensures
            r matches Some(d) <==> self.d is Some,
            r matches Some(d) ==> Some(d@) == opt_seq(self.d),
    {
        match &self.d {
            Some(d) => Some(d.as_slice()),
            None => None,
        }
    }

    /// Whether these parameters hold a private key.
    pub fn is_private(&self) -> (r: bool)
        ensures
            r == self.d is Some,
    {
        self.d.is_some()
    }

    /// Whether these parameters hold a public key.
    pub fn is_public(&self) -> (r: bool)
        ensures
            r == (self.x is Some && self.y is Some),
    {
        self.x.is_some() && self.y.is_some()
    }
}

/// The algorithm a key is used with, with its parameters.
#[derive(Clone, Debug)]
pub enum CoseKeyAlgorithm {
    ES256(ES256Params),
}

/// What the COSE_Key at the start of `data` decodes to, with the number of
/// bytes it takes; what follows it is left alone.
pub open spec fn cose_key_prefix_spec(data: Seq<u8>) -> Result<(CoseKeyView, usize), CoseError> {
    match cbor_first_item_len(data) {
        None => Err(CoseError::Malformed),
        Some(n) => match cose_key_spec(data.subrange(0, n as int)) {
            Ok(k) => Ok((k, n)),
            Err(e) => Err(e),
        },
    }
}

impl View for CoseKeyAlgorithm {
    type V = ES256ParamsView;

    open spec fn view(&self) -> ES256ParamsView {
        match self {
            CoseKeyAlgorithm::ES256(p) => p@,
        }
    }
}

impl CoseKeyAlgorithm {
    /// Reads the algorithm (label 3) of the COSE_Key `data`, and its parameters.
    pub fn from_cbor(data: &[u8]) -> (r: Result<CoseKeyAlgorithm, CoseError>)
        ensures
            result_view(r) == algorithm_spec(data@),
    {
        match cbor_label(data, COSE_KEY_ALG) {
            CborEntry::Malformed => Err(CoseError::Malformed),
            CborEntry::Absent => Err(CoseError::MissingField),
            CborEntry::Integer(i) => if i == COSE_KEY_ALGO_ES256 {
                match ES256Params::from_cbor(data) {
                    Ok(p) => Ok(CoseKeyAlgorithm::ES256(p)),
                    Err(e) => Err(e),
                }
            } else {
                Err(CoseError::UnsupportedAlgorithm)
            },
            _ => Err(CoseError::InvalidType),
        }
    }
}

/// A COSE_Key being assembled field by field.
#[derive(Clone, Debug)]
pub struct CoseKeyBuilder {
    pub kty: Option<CoseKeyType>,
    pub kid: Option<Vec<u8>>,
    pub alg: Option<CoseKeyAlgorithm>,
    pub key_ops: Option<Vec<CoseKeyOps>>,
    pub iv: Option<Vec<u8>>,
}

impl Default for CoseKeyBuilder {
    fn default() -> (r: CoseKeyBuilder)
        ensures
            r.kty is None && r.kid is None && r.alg is None && r.key_ops is None && r.iv is None,
    {
        CoseKeyBuilder { kty: None, kid: None, alg: None, key_ops: None, iv: None }
    }
}

impl CoseKeyBuilder {
    /// Sets the key type.
    pub fn set_key_type(&mut self, kty: CoseKeyType)
        ensures
            *final(self) == (CoseKeyBuilder { kty: Some(kty), ..*old(self) }),
    {
        self.kty = Some(kty);
    }

    /// Sets the key identifier.
    pub fn set_key_id(&mut self, key_id: Vec<u8>)
        ensures
            *final(self) == (CoseKeyBuilder { kid: Some(key_id), ..*old(self) }),
    {
        self.kid = Some(key_id);
    }

    /// Sets the algorithm.
    pub fn set_algo(&mut self, alg: CoseKeyAlgorithm)
        ensures
            *final(self) == (CoseKeyBuilder { alg: Some(alg), ..*old(self) }),
    {
        self.alg = Some(alg);
    }

    /// Sets the permitted operations; `None` permits all.
    pub fn set_key_ops(&mut self, key_ops: Option<Vec<CoseKeyOps>>)
        ensures
            *final(self) == (CoseKeyBuilder { key_ops, ..*old(self) }),
    {
        self.key_ops = key_ops;
    }

    /// Sets the base IV.
    pub fn set_iv(&mut self, iv: Vec<u8>)
        ensures
            *final(self) == (CoseKeyBuilder { iv: Some(iv), ..*old(self) }),
    {
        self.iv = Some(iv);
    }

    /// The key, once its type and algorithm are set.
    pub fn finish(self) -> (r: Result<CoseKey, CoseError>)
        ensures
            match r {
                Ok(k) => self.kty == Some(k.kty) && self.alg == Some(k.alg) && k.kid == self.kid
                    && k.key_ops == self.key_ops && k.iv == self.iv,
                Err(e) => e == CoseError::MissingField && (self.kty is None || self.alg is None),
            },
    {
        match (self.kty, self.alg) {
            (Some(kty), Some(alg)) => Ok(CoseKey { kty, kid: self.kid, alg, key_ops: self.key_ops, iv: self.iv }),
            _ => Err(CoseError::MissingField),
        }
    }
}

/// A decoded COSE_Key.
#[derive(Clone, Debug)]
pub struct CoseKey {
    pub kty: CoseKeyType,
    pub kid: Option<Vec<u8>>,
    pub alg: CoseKeyAlgorithm,
    pub key_ops: Option<Vec<CoseKeyOps>>,
    pub iv: Option<Vec<u8>>,
}

impl View for CoseKey {
    type V = CoseKeyView;

    open spec fn view(&self) -> CoseKeyView {
        CoseKeyView {
            kty: self.kty,
            kid: opt_seq(self.kid),
            alg: self.alg@,
            key_ops: match self.key_ops {
                Some(v) => Some(v@),
                None => None,
            },
            iv: opt_seq(self.iv),
        }
    }
}

impl CoseKey {
    /// Decodes the COSE_Key at the start of `data`, which may be followed by
    /// other bytes, and reports how many bytes the key takes.
    pub fn parse(data: &[u8]) -> (r: Result<(CoseKey, usize), CoseError>)
        ensures
            match r {
                Ok((k, n)) => cose_key_prefix_spec(data@) == Ok::<(CoseKeyView, usize), CoseError>((k@, n))
                    && cbor_first_item_len(data@) == Some(n) && n <= data@.len()
                    && cose_key_spec(data@.subrange(0, n as int)) == Ok::<CoseKeyView, CoseError>(k@),
                Err(e) => cose_key_prefix_spec(data@) == Err::<(CoseKeyView, usize), CoseError>(e),
            },
    {
        let n = match cbor_item_len(data) {
            Some(n) => n,
            None => return Err(CoseError::Malformed),
        };
        match CoseKey::parse_map(vstd::slice::slice_subrange(data, 0, n)) {
            Ok(k) => Ok((k, n)),
            Err(e) => Err(e),
        }
    }

    /// Decodes the COSE_Key that `data` holds as exactly one CBOR map.
    pub fn parse_map(data: &[u8]) -> (r: Result<CoseKey, CoseError>)
        ensures
            result_view(r) == cose_key_spec(data@),
    {
        match cbor_label(data, COSE_KEY_KTY) {
            CborEntry::Malformed => return Err(CoseError::Malformed),
            _ => {},
        }
        if !cbor_integer_keys(data) {
            return Err(CoseError::InvalidType);
        }
        let mut builder = CoseKeyBuilder::default();
        match CoseKeyType::from_cbor(data) {
            Ok(kty) => builder.set_key_type(kty),
            Err(e) => return Err(e),
        }
        match CoseKeyAlgorithm::from_cbor(data) {
            Ok(alg) => builder.set_algo(alg),
            Err(e) => return Err(e),
        }
        builder.set_key_ops(CoseKeyOps::from_cbor(data));
        match loose_bytes(data, COSE_KEY_KID) {
            Some(kid) => builder.set_key_id(kid),
            None => {},
        }
        match loose_bytes(data, COSE_KEY_BASE_IV) {
            Some(iv) => builder.set_iv(iv),
            None => {},
        }
        builder.finish()
    }

    /// The X9.62 uncompressed public key `0x04 || x || y`; `None` when a
    /// coordinate is missing.
    pub fn as_raw(&self) -> (r: Option<Vec<u8>>)
        ensures
            opt_seq(r) == raw_public_spec(self@.alg),
    {
        match &self.alg {
            CoseKeyAlgorithm::ES256(params) => params.as_raw(),
        }
    }
}

} // verus!
