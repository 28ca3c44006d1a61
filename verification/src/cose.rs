//! The single-signer COSE message, `COSE_Sign1`, as far as the library reads and writes it.

use vstd::prelude::*;

use crate::cbor::{cbor_bytes, cbor_head, cbor_int, cbor_text};
use crate::error::{agrees, bad_param, Error, Failure};
use crate::text::same_text;
use coset::cbor::value::Value;
use coset::iana::EnumI64;
use coset::{Algorithm, CborSerializable, Label, ProtectedHeader, TaggedCborSerializable};

verus! {

/// A header label or an algorithm identifier: a number or a text.
#[derive(Clone, Debug, PartialEq, Eq)]
pub enum CoseLabel {
    Int(i64),
    Text(String),
}

/// What a [`CoseLabel`] says.
pub enum LabelView {
    Int(i64),
    Text(Seq<char>),
}

impl View for CoseLabel {
    type V = LabelView;

    open spec fn view(&self) -> LabelView {
        match self {
            CoseLabel::Int(i) => LabelView::Int(*i),
            CoseLabel::Text(t) => LabelView::Text(t@),
        }
    }
}

/// A `COSE_Sign1` message.
pub struct Sign1 {
    /// The encoded protected header map.
    pub protected: Vec<u8>,
    /// The algorithm in the protected header.
    pub alg: Option<CoseLabel>,
    /// The other entries of the protected header, each with its value where that is an integer.
    pub entries: Vec<(CoseLabel, Option<i128>)>,
    /// Whether the unprotected header names an algorithm.
    pub unprotected_alg: bool,
    /// The key identifier in the unprotected header; empty where there is none.
    pub key_id: Vec<u8>,
    /// The payload, unless it is detached.
    pub payload: Option<Vec<u8>>,
    /// The signature.
    pub signature: Vec<u8>,
}

/// What a [`Sign1`] holds.
pub struct Sign1View {
    pub protected: Seq<u8>,
    pub alg: Option<LabelView>,
    pub entries: Seq<(LabelView, Option<i128>)>,
    pub unprotected_alg: bool,
    pub key_id: Seq<u8>,
    pub payload: Option<Seq<u8>>,
    pub signature: Seq<u8>,
}

/// What a vector of header entries stands for.
pub open spec fn entry_views(entries: Seq<(CoseLabel, Option<i128>)>) -> Seq<
    (LabelView, Option<i128>),
> {
    Seq::new(entries.len(), |i: int| (entries[i].0@, entries[i].1))
}

impl View for Sign1 {
    type V = Sign1View;

    open spec fn view(&self) -> Sign1View {
        Sign1View {
            protected: self.protected@,
            alg: match self.alg {
                Some(a) => Some(a@),
                None => None,
            },
            entries: entry_views(self.entries@),
            unprotected_alg: self.unprotected_alg,
            key_id: self.key_id@,
            payload: match self.payload {
                Some(p) => Some(p@),
                None => None,
            },
            signature: self.signature@,
        }
    }
}

// Encodings.

/// A protected header map with an algorithm and at most one entry with a text label.
pub open spec fn header_map(alg: int, entry: Option<(Seq<char>, int)>) -> Seq<u8> {
    match entry {
        None => cbor_head(5, 1) + cbor_int(1) + cbor_int(alg),
        Some((label, value)) => cbor_head(5, 2) + cbor_int(1) + cbor_int(alg) + cbor_text(label)
            + cbor_int(value),
    }
}

/// An unprotected header map with a key identifier, which is left out where it is empty.
pub open spec fn key_id_map(key_id: Seq<u8>) -> Seq<u8> {
    if key_id.len() == 0 {
        cbor_head(5, 0)
    } else {
        cbor_head(5, 1) + cbor_int(4) + cbor_bytes(key_id)
    }
}

/// The payload of a message: a byte string, or null where it is detached.
pub open spec fn payload_item(payload: Option<Seq<u8>>) -> Seq<u8> {
    match payload {
        Some(bytes) => cbor_bytes(bytes),
        None => seq![0xf6u8],
    }
}

/// A tagged `COSE_Sign1`.
pub open spec fn sign1_bytes(
    protected: Seq<u8>,
    key_id: Seq<u8>,
    payload: Option<Seq<u8>>,
    signature: Seq<u8>,
) -> Seq<u8> {
    cbor_head(6, 18) + cbor_head(4, 4) + cbor_bytes(protected) + key_id_map(key_id) + payload_item(
        payload,
    ) + cbor_bytes(signature)
}

/// The bytes that the signature of a `COSE_Sign1` covers.
pub open spec fn signature_input(protected: Seq<u8>, aad: Seq<u8>, payload: Seq<u8>) -> Seq<u8> {
    cbor_head(4, 4) + cbor_text("Signature1"@) + cbor_bytes(protected) + cbor_bytes(aad)
        + cbor_bytes(payload)
}

/// The entries of a protected header with at most one entry beside the algorithm.
pub open spec fn header_entries(entry: Option<(Seq<char>, i64)>) -> Seq<(LabelView, Option<i128>)> {
    match entry {
        None => seq![],
        Some((label, value)) => seq![(LabelView::Text(label), Some(value as i128))],
    }
}

/// An EdDSA header with at most one entry beside the algorithm, encoded.
pub open spec fn eddsa_header(entry: Option<(Seq<char>, i64)>) -> Seq<u8> {
    header_map(
        ALG_EDDSA as int,
        match entry {
            None => None,
            Some((label, value)) => Some((label, value as int)),
        },
    )
}

/// The message with an EdDSA header that has at most one more entry.
pub open spec fn eddsa_message(
    entry: Option<(Seq<char>, i64)>,
    key_id: Seq<u8>,
    payload: Option<Seq<u8>>,
    signature: Seq<u8>,
) -> Sign1View {
    Sign1View {
        protected: eddsa_header(entry),
        alg: Some(LabelView::Int(ALG_EDDSA)),
        entries: header_entries(entry),
        unprotected_alg: false,
        key_id,
        payload,
        signature,
    }
}

/// The tagged encoding of a message.
pub open spec fn encoded(message: Sign1View) -> Seq<u8> {
    sign1_bytes(message.protected, message.key_id, message.payload, message.signature)
}

/// A `COSE_Sign1` message whose protected header has not been opened.
pub struct Frame {
    pub protected: Vec<u8>,
    pub unprotected_alg: bool,
    pub key_id: Vec<u8>,
    pub payload: Option<Vec<u8>>,
    pub signature: Vec<u8>,
}

/// What a [`Frame`] holds.
pub struct FrameView {
    pub protected: Seq<u8>,
    pub unprotected_alg: bool,
    pub key_id: Seq<u8>,
    pub payload: Option<Seq<u8>>,
    pub signature: Seq<u8>,
}

impl View for Frame {
    type V = FrameView;

    open spec fn view(&self) -> FrameView {
        FrameView {
            protected: self.protected@,
            unprotected_alg: self.unprotected_alg,
            key_id: self.key_id@,
            payload: match self.payload {
                Some(p) => Some(p@),
                None => None,
            },
            signature: self.signature@,
        }
    }
}

/// What a protected header holds: its algorithm and its other entries.
pub struct HeaderView {
    pub alg: Option<LabelView>,
    pub entries: Seq<(LabelView, Option<i128>)>,
}

/// What the parts of a protected header stand for.
pub open spec fn header_view(
    header: (Option<CoseLabel>, Vec<(CoseLabel, Option<i128>)>),
) -> HeaderView {
    HeaderView {
        alg: match header.0 {
            Some(a) => Some(a@),
            None => None,
        },
        entries: entry_views(header.1@),
    }
}

/// The message that `coset` reads from a tagged `COSE_Sign1`, or the words of its refusal.
pub uninterp spec fn decoded_frame(bytes: Seq<u8>) -> Result<FrameView, Seq<char>>;

/// What `coset` reads from an encoded protected header, or the words of its refusal.
pub uninterp spec fn decoded_header(protected: Seq<u8>) -> Result<HeaderView, Seq<char>>;

/// The message in the bytes of a tagged `COSE_Sign1`, or the words of the refusal.
pub open spec fn decoded_sign1(bytes: Seq<u8>) -> Result<Sign1View, Seq<char>> {
    match decoded_frame(bytes) {
        Err(words) => Err(words),
        Ok(frame) => match decoded_header(frame.protected) {
            Err(words) => Err(words),
            Ok(header) => Ok(
                Sign1View {
                    protected: frame.protected,
                    alg: header.alg,
                    entries: header.entries,
                    unprotected_alg: frame.unprotected_alg,
                    key_id: frame.key_id,
                    payload: frame.payload,
                    signature: frame.signature,
                },
            ),
        },
    }
}

/// The EdDSA algorithm in the COSE registry.
pub const ALG_EDDSA: i64 = -8;

/// Reads a tagged `COSE_Sign1` with `coset::CoseSign1::from_tagged_slice`.
///
/// What is read depends on the bytes alone. The encoding of a message with an EdDSA header that has
/// at most one more entry, under a text label, and with at most a key identifier in its unprotected
/// header, is read as it was written.
#[verifier::external_body]
fn decode_frame(bytes: &[u8]) -> (r: Result<Frame, String>)
    ensures
        match decoded_frame(bytes@) {
            Ok(frame) => r matches Ok(f) && f@ == frame,
            Err(words) => r matches Err(e) && e@ == words,
        },
        forall|
            entry: Option<(Seq<char>, i64)>,
            key_id: Seq<u8>,
            payload: Option<Seq<u8>>,
            signature: Seq<u8>,
        |
            bytes@ == #[trigger] sign1_bytes(eddsa_header(entry), key_id, payload, signature)
                ==> r is Ok && r->Ok_0@ == (FrameView {
                protected: eddsa_header(entry),
                unprotected_alg: false,
                key_id,
                payload,
                signature,
            }),
{
    let s = coset::CoseSign1::from_tagged_slice(bytes).map_err(|e| e.to_string())?;
    Ok(
        Frame {
            protected: s.protected.original_data.unwrap_or_default(),
            unprotected_alg: s.unprotected.alg.is_some(),
            key_id: s.unprotected.key_id,
            payload: s.payload,
            signature: s.signature,
        },
    )
}

/// Reads an encoded protected header with `coset::ProtectedHeader::from_cbor_bstr`, as
/// `coset::CoseSign1` does: the algorithm, and the other entries with their values where these are
/// integers.
///
/// What is read depends on the bytes alone. An EdDSA header with at most one more entry, under a
/// text label, is read as it was written.
#[verifier::external_body]
fn decode_header(protected: &[u8]) -> (r: Result<
    (Option<CoseLabel>, Vec<(CoseLabel, Option<i128>)>),
    String,
>)
    ensures
        match decoded_header(protected@) {
            Ok(header) => r matches Ok(h) && header_view(h) == header,
            Err(words) => r matches Err(e) && e@ == words,
        },
        forall|entry: Option<(Seq<char>, i64)>|
            protected@ == #[trigger] eddsa_header(entry) ==> r is Ok && header_view(r->Ok_0) == (
            HeaderView {
                alg: Some(LabelView::Int(ALG_EDDSA)),
                entries: header_entries(entry),
            }),
{
    let bytes = Value::Bytes(protected.to_vec());
    let header = ProtectedHeader::from_cbor_bstr(bytes).map_err(|e| e.to_string())?.header;
    let alg = header.alg.map(|a| match a {
        Algorithm::Assigned(x) => CoseLabel::Int(x.to_i64()),
        Algorithm::PrivateUse(i) => CoseLabel::Int(i),
        Algorithm::Text(t) => CoseLabel::Text(t),
    });
    let entries = header.rest.into_iter().map(|(l, v)| (match l {
        Label::Int(i) => CoseLabel::Int(i),
        Label::Text(t) => CoseLabel::Text(t),
    }, v.as_integer().map(i128::from))).collect();
    Ok((alg, entries))
}

/// Reads a tagged `COSE_Sign1` and its protected header.
///
/// An encoded message with an EdDSA header that has at most one more entry, under a text label, is
/// read as it was written.
pub fn decode_sign1(bytes: &[u8]) -> (r: Result<Sign1, String>)
    ensures
        match decoded_sign1(bytes@) {
            Ok(message) => r matches Ok(s) && s@ == message,
            Err(words) => r matches Err(e) && e@ == words,
        },
        forall|
            entry: Option<(Seq<char>, i64)>,
            key_id: Seq<u8>,
            payload: Option<Seq<u8>>,
            signature: Seq<u8>,
        |
            bytes@ == encoded(#[trigger] eddsa_message(entry, key_id, payload, signature))
                ==> r is Ok && r->Ok_0@ == eddsa_message(entry, key_id, payload, signature),
{
    proof {
        assert forall|
            entry: Option<(Seq<char>, i64)>,
            key_id: Seq<u8>,
            payload: Option<Seq<u8>>,
            signature: Seq<u8>,
        | #[trigger] encoded(eddsa_message(entry, key_id, payload, signature)) == sign1_bytes(
            eddsa_header(entry),
            key_id,
            payload,
            signature,
        ) by {}
    }
    let frame: Frame = decode_frame(bytes)?;
    let (alg, entries) = decode_header(frame.protected.as_slice())?;
    Ok(
        Sign1 {
            protected: frame.protected,
            alg,
            entries,
            unprotected_alg: frame.unprotected_alg,
            key_id: frame.key_id,
            payload: frame.payload,
            signature: frame.signature,
        },
    )
}

/// Encodes a protected header with `coset`: an algorithm, and an integer under a text label.
///
/// The entries come in that order, each in its shortest form. Writing to a vector does not fail,
/// and a repeated label, on which encoding fails, cannot occur.
#[verifier::external_body]
pub(crate) fn encode_header(alg: i64, entry: Option<(&str, i64)>) -> (r: Result<Vec<u8>, String>)
    ensures
        r is Ok,
        r->Ok_0@ == header_map(
            alg as int,
            match entry {
                None => None,
                Some((label, value)) => Some((label@, value as int)),
            },
        ),
{
    let rest = entry.into_iter().map(|(l, v)| (Label::Text(l.to_string()), v.into()));
    let header = coset::Header {
        alg: Some(Algorithm::PrivateUse(alg)),
        rest: rest.collect(),
        ..Default::default()
    };
    header.to_vec().map_err(|e| e.to_string())
}

/// Encodes a message with `coset::CoseSign1::to_tagged_vec`.
///
/// The protected header is written as given. Writing to a vector does not fail.
#[verifier::external_body]
pub(crate) fn encode_sign1(
    protected: &[u8],
    key_id: &[u8],
    payload: Option<&[u8]>,
    signature: &[u8],
) -> (r: Result<Vec<u8>, String>)
    ensures
        r is Ok,
        r->Ok_0@ == sign1_bytes(
            protected@,
            key_id@,
            match payload {
                Some(p) => Some(p@),
                None => None,
            },
            signature@,
        ),
{
    let unprotected = coset::HeaderBuilder::new().key_id(key_id.to_vec()).build();
    let protected = ProtectedHeader {
        original_data: Some(protected.to_vec()),
        header: Default::default(),
    };
    let signature = signature.to_vec();
    let payload = payload.map(|p| p.to_vec());
    let sign1 = coset::CoseSign1 { protected, unprotected, payload, signature };
    sign1.to_tagged_vec().map_err(|e| e.to_string())
}

/// Builds the bytes that a signature covers with `coset::sig_structure_data`.
///
/// It is an array of the context, the protected header as given, the additional data and the
/// payload.
#[verifier::external_body]
pub(crate) fn encode_signature_input(protected: &[u8], aad: &[u8], payload: &[u8]) -> (r: Vec<u8>)
    ensures
        r@ == signature_input(protected@, aad@, payload@),
{
    let body = ProtectedHeader {
        original_data: Some(protected.to_vec()),
        header: Default::default(),
    };
    coset::sig_structure_data(coset::SignatureContext::CoseSign1, body, None, aad, payload)
}

// Algorithms.

/// The signature algorithms that a protected header can name.
#[derive(Clone, Copy, Debug, PartialEq, Eq, Structural)]
pub enum SigningAlg {
    Es256,
    Es384,
    Es512,
    Ps256,
    Ps384,
    Ps512,
    Ed25519,
}

/// The algorithm behind an identifier of the COSE registry.
pub open spec fn registered_alg(id: int) -> Option<SigningAlg> {
    if id == -7 {
        Some(SigningAlg::Es256)
    } else if id == -35 {
        Some(SigningAlg::Es384)
    } else if id == -36 {
        Some(SigningAlg::Es512)
    } else if id == -37 {
        Some(SigningAlg::Ps256)
    } else if id == -38 {
        Some(SigningAlg::Ps384)
    } else if id == -39 {
        Some(SigningAlg::Ps512)
    } else if id == ALG_EDDSA {
        Some(SigningAlg::Ed25519)
    } else {
        None
    }
}

/// The signature algorithm that the protected header of a message names.
pub open spec fn message_alg(message: Sign1View) -> Option<SigningAlg> {
    match message.alg {
        Some(LabelView::Int(id)) => registered_alg(id as int),
        _ => None,
    }
}

/// Reads the signature algorithm from the protected header.
pub fn signing_alg_from_sign1(sign1: &Sign1) -> (r: Option<SigningAlg>)
    ensures
        r == message_alg(sign1@),
{
    match &sign1.alg {
        Some(CoseLabel::Int(id)) => match *id {
            -7 => Some(SigningAlg::Es256),
            -35 => Some(SigningAlg::Es384),
            -36 => Some(SigningAlg::Es512),
            -37 => Some(SigningAlg::Ps256),
            -38 => Some(SigningAlg::Ps384),
            -39 => Some(SigningAlg::Ps512),
            -8 => Some(SigningAlg::Ed25519),
            _ => None,
        },
        _ => None,
    }
}

// The claimed time of signing.

/// The label of the claimed time of signing.
pub const IAT_LABEL: &'static str = "iat";

/// The test that picks the entries which claim a time of signing.
pub open spec fn is_iat() -> spec_fn((LabelView, Option<i128>)) -> bool {
    |entry: (LabelView, Option<i128>)| entry.0 == LabelView::Text(IAT_LABEL@)
}

/// The claimed time of signing among the entries of a protected header.
pub open spec fn claimed_time(entries: Seq<(LabelView, Option<i128>)>) -> Result<i64, Failure> {
    let claims = entries.filter(is_iat());
    if claims.len() == 0 {
        Err(Failure::BadParam("VSI COSE_Sign1 protected header must contain iat"@))
    } else if claims.len() > 1 {
        Err(Failure::BadParam("VSI COSE_Sign1 protected header contains duplicate iat values"@))
    } else {
        match claims[0].1 {
            None => Err(
                Failure::BadParam("VSI COSE_Sign1 protected iat must be an integer NumericDate"@),
            ),
            Some(time) => if i64::MIN <= time <= i64::MAX {
                Ok(time as i64)
            } else {
                Err(Failure::BadParam("VSI COSE_Sign1 protected iat is out of range"@))
            },
        }
    }
}

fn is_iat_label(label: &CoseLabel) -> (r: bool)
    ensures
        r == (label@ == LabelView::Text(IAT_LABEL@)),
{
    match label {
        CoseLabel::Int(_) => false,
        CoseLabel::Text(text) => same_text(text.as_str(), IAT_LABEL),
    }
}

/// Reads the claimed time of signing from the protected header.
pub fn protected_iat(sign1: &Sign1) -> (r: Result<i64, Error>)
    ensures
        agrees(r, claimed_time(sign1@.entries)),
{
    let ghost all = entry_views(sign1.entries@);
    let mut count: usize = 0;
    let mut value: Option<i128> = None;
    let mut i: usize = 0;
    proof {
        reveal(Seq::filter);
        assert(all.take(0).filter(is_iat()).len() == 0);
    }
    while i < sign1.entries.len()
        invariant
            i <= sign1.entries@.len(),
            count <= i,
            all == entry_views(sign1.entries@),
            count == all.take(i as int).filter(is_iat()).len(),
            count > 0 ==> all.take(i as int).filter(is_iat()).last().1 == value,
        decreases sign1.entries@.len() - i,
    {
        proof {
            reveal(Seq::filter);
            assert(all.take(i + 1).drop_last() =~= all.take(i as int));
            assert(all.take(i + 1).last() == all[i as int]);
        }
        if is_iat_label(&sign1.entries[i].0) {
            count = count + 1;
            value = sign1.entries[i].1;
        }
        i = i + 1;
    }
    assert(all.take(all.len() as int) =~= all);
    if count == 0 {
        return Err(bad_param("VSI COSE_Sign1 protected header must contain iat"));
    }
    if count > 1 {
        return Err(bad_param("VSI COSE_Sign1 protected header contains duplicate iat values"));
    }
    match value {
        None => Err(bad_param("VSI COSE_Sign1 protected iat must be an integer NumericDate")),
        Some(time) => if i64::MIN as i128 <= time && time <= i64::MAX as i128 {
            Ok(time as i64)
        } else {
            Err(bad_param("VSI COSE_Sign1 protected iat is out of range"))
        },
    }
}

} // verus!
