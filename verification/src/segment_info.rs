//! The segment info map: what the `COSE_Sign1` of a media segment says of the segment.
//!
//! The map is encoded and decoded by the host; the library frames and checks the bytes.

use vstd::prelude::*;

use crate::bytes::{same_bytes, to_vec};
use crate::cbor::cbor_encoding;
use crate::cose::{decode_sign1, decoded_sign1, eddsa_message, encoded, Sign1, Sign1View};
use crate::error::{agrees, bad_param, bad_param_with, Error, Failure};
use crate::manifest_report::text_view;
use crate::session_keys::bytes_view;
use crate::text::same_text;
use crate::verifiable_segment_info::{vsi_scheme, VSI_SCHEME_ID_URI, VSI_URI_OFFSET_IN_EMSG};

verus! {

/// A reference to an assertion or a manifest, with its hash.
#[derive(Debug, PartialEq, Eq)]
pub struct HashedUri {
    pub url: String,
    pub alg: Option<String>,
    pub hash: Vec<u8>,
}

/// What a [`HashedUri`] holds.
pub struct HashedUriView {
    pub url: Seq<char>,
    pub alg: Option<Seq<char>>,
    pub hash: Seq<u8>,
}

impl View for HashedUri {
    type V = HashedUriView;

    open spec fn view(&self) -> HashedUriView {
        HashedUriView { url: self.url@, alg: text_view(self.alg), hash: self.hash@ }
    }
}

impl HashedUri {
    /// Copies the reference.
    pub fn copy(&self) -> (r: HashedUri)
        ensures
            r@ == self@,
    {
        HashedUri {
            url: self.url.clone(),
            alg: match &self.alg {
                Some(alg) => Some(alg.clone()),
                None => None,
            },
            hash: to_vec(self.hash.as_slice()),
        }
    }
}

/// The payload of the `COSE_Sign1` of a media segment.
pub struct SegmentInfoMap {
    pub sequence_number: u64,
    pub bmff_hash: c2pa_cbor::Value,
    pub manifest_id: String,
    pub manifest_uri: Option<HashedUri>,
}

/// What a [`SegmentInfoMap`] says.
pub struct SegmentInfo {
    pub sequence_number: u64,
    pub bmff_hash: Seq<u8>,
    pub manifest_id: Seq<char>,
    pub manifest_uri: Option<HashedUriView>,
}

impl View for SegmentInfoMap {
    type V = SegmentInfo;

    open spec fn view(&self) -> SegmentInfo {
        SegmentInfo {
            sequence_number: self.sequence_number,
            bmff_hash: cbor_encoding(self.bmff_hash),
            manifest_id: self.manifest_id@,
            manifest_uri: match self.manifest_uri {
                Some(uri) => Some(uri@),
                None => None,
            },
        }
    }
}

/// A `COSE_Sign1` of a media segment, and the map in its payload.
pub struct ParsedVsi {
    pub segment_info_map: SegmentInfoMap,
    pub sign1: Sign1,
}

/// The message in the bytes that an event carries, with an embedded payload.
pub open spec fn vsi_message_of(bytes: Seq<u8>) -> Result<Sign1View, Failure> {
    match decoded_sign1(bytes) {
        Err(words) => Err(Failure::BadParam("invalid COSE_Sign1 in VSI emsg: "@ + words)),
        Ok(message) => if message.payload is None {
            Err(Failure::BadParam("COSE_Sign1 VSI payload is absent (detached)"@))
        } else {
            Ok(message)
        },
    }
}

/// Reads the message in the bytes that an event carries.
///
/// An encoded message with an EdDSA header and an embedded payload is read as it was written.
pub fn parse_vsi_message(cose_sign1_bytes: &[u8]) -> (r: Result<Sign1, Error>)
    ensures
        match vsi_message_of(cose_sign1_bytes@) {
            Err(failure) => r matches Err(e) && e@ == failure,
            Ok(message) => r matches Ok(s) && s@ == message && s.payload is Some,
        },
        forall|entry: Option<(Seq<char>, i64)>, key_id: Seq<u8>, payload: Seq<u8>, signature: Seq<u8>|
            cose_sign1_bytes@ == encoded(
                #[trigger] eddsa_message(entry, key_id, Some(payload), signature),
            ) ==> (r matches Ok(s) && s@ == eddsa_message(entry, key_id, Some(payload), signature)),
{
    match decode_sign1(cose_sign1_bytes) {
        Err(words) => Err(bad_param_with("invalid COSE_Sign1 in VSI emsg: ", words.as_str())),
        Ok(sign1) => if sign1.payload.is_none() {
            Err(bad_param("COSE_Sign1 VSI payload is absent (detached)"))
        } else {
            Ok(sign1)
        },
    }
}

/// Joins a message with what the host decoded from its payload.
pub fn join_vsi(sign1: Sign1, decoded: Result<SegmentInfoMap, String>) -> (r: Result<
    ParsedVsi,
    Error,
>)
    ensures
        match decoded {
            Err(words) => r matches Err(e) && e@ == Failure::BadParam(
                "invalid SegmentInfoMap CBOR: "@ + words@,
            ),
            Ok(info) => r matches Ok(p) && p.segment_info_map == info && p.sign1 == sign1,
        },
{
    match decoded {
        Err(words) => Err(bad_param_with("invalid SegmentInfoMap CBOR: ", words.as_str())),
        Ok(segment_info_map) => Ok(ParsedVsi { segment_info_map, sign1 }),
    }
}

/// What may come of reading a `COSE_Sign1` and its payload with `decode`.
pub open spec fn vsi_outcome<D: Fn(&[u8]) -> Result<SegmentInfoMap, String>>(
    bytes: Seq<u8>,
    decode: D,
    r: Result<ParsedVsi, Error>,
) -> bool {
    match vsi_message_of(bytes) {
        Err(failure) => r matches Err(e) && e@ == failure,
        Ok(message) => exists|payload: &[u8], decoded: Result<SegmentInfoMap, String>| #[trigger]
            call_ensures(decode, (payload,), decoded) && message.payload == Some(payload@)
                && match decoded {
                Err(words) => r matches Err(e) && e@ == Failure::BadParam(
                    "invalid SegmentInfoMap CBOR: "@ + words@,
                ),
                Ok(info) => r matches Ok(p) && p.segment_info_map == info && p.sign1@ == message,
            },
    }
}

/// Reads a tagged `COSE_Sign1` and the map in its payload.
///
/// `decode` decodes the map. The message is returned as well, so that the signature can be checked
/// against a session key. An encoded message with an EdDSA header and an embedded payload is read
/// as it was written.
pub fn parse_vsi<D: Fn(&[u8]) -> Result<SegmentInfoMap, String>>(
    cose_sign1_bytes: &[u8],
    decode: &D,
) -> (r: Result<ParsedVsi, Error>)
    requires
        forall|payload: &[u8]| call_requires(*decode, (payload,)),
    ensures
        vsi_outcome(cose_sign1_bytes@, *decode, r),
        forall|entry: Option<(Seq<char>, i64)>, key_id: Seq<u8>, payload: Seq<u8>, signature: Seq<u8>|
            cose_sign1_bytes@ == encoded(
                #[trigger] eddsa_message(entry, key_id, Some(payload), signature),
            ) ==> vsi_message_of(cose_sign1_bytes@) == Ok::<Sign1View, Failure>(
                eddsa_message(entry, key_id, Some(payload), signature),
            ),
{
    let sign1: Sign1 = parse_vsi_message(cose_sign1_bytes)?;
    match &sign1.payload {
        None => Err(bad_param("COSE_Sign1 VSI payload is absent (detached)")),
        Some(payload) => {
            let decoded: Result<SegmentInfoMap, String> = decode(payload.as_slice());
            join_vsi(sign1, decoded)
        },
    }
}

/// Reads the map in the payload of a tagged `COSE_Sign1`.
///
/// `decode` decodes the map.
pub fn parse_segment_info_map<D: Fn(&[u8]) -> Result<SegmentInfoMap, String>>(
    cose_sign1_bytes: &[u8],
    decode: D,
) -> (r: Result<SegmentInfoMap, Error>)
    requires
        forall|payload: &[u8]| call_requires(decode, (payload,)),
    ensures
        exists|parsed: Result<ParsedVsi, Error>| #[trigger]
            vsi_outcome(cose_sign1_bytes@, decode, parsed) && match parsed {
                Err(e) => r == Err::<SegmentInfoMap, Error>(e),
                Ok(p) => r == Ok::<SegmentInfoMap, Error>(p.segment_info_map),
            },
{
    let parsed = parse_vsi(cose_sign1_bytes, &decode);
    let ghost seen = parsed;
    assert(vsi_outcome(cose_sign1_bytes@, decode, seen));
    match parsed {
        Ok(p) => Ok(p.segment_info_map),
        Err(e) => Err(e),
    }
}

// The hash of the segment.

/// Bytes that a box must hold at an offset to be excluded from a hash.
#[derive(Debug, PartialEq, Eq)]
pub struct DataMap {
    pub offset: u64,
    pub value: Vec<u8>,
}

/// The boxes that a hash leaves out: those under a path, with the given data.
#[derive(Debug, PartialEq, Eq)]
pub struct ExclusionsMap {
    pub xpath: String,
    pub data: Option<Vec<DataMap>>,
}

/// The hash of a segment, as far as the library reads and writes it.
#[derive(Debug, PartialEq, Eq)]
pub struct BmffHash {
    pub name: Option<String>,
    pub alg: Option<String>,
    pub hash: Option<Vec<u8>>,
    /// Whether the hash is a Merkle tree.
    pub merkle: bool,
    pub exclusions: Vec<ExclusionsMap>,
    pub bmff_version: u64,
}

/// What an [`ExclusionsMap`] says: its path, and the data as offsets and bytes.
pub struct ExclusionView {
    pub xpath: Seq<char>,
    pub data: Option<Seq<(u64, Seq<u8>)>>,
}

/// What a [`BmffHash`] says.
pub struct BmffHashView {
    pub name: Option<Seq<char>>,
    pub alg: Option<Seq<char>>,
    pub hash: Option<Seq<u8>>,
    pub merkle: bool,
    pub exclusions: Seq<ExclusionView>,
    pub bmff_version: u64,
}

/// What a vector of data entries stands for.
pub open spec fn data_views(data: Seq<DataMap>) -> Seq<(u64, Seq<u8>)> {
    Seq::new(data.len(), |i: int| (data[i].offset, data[i].value@))
}

impl View for ExclusionsMap {
    type V = ExclusionView;

    open spec fn view(&self) -> ExclusionView {
        ExclusionView {
            xpath: self.xpath@,
            data: match self.data {
                Some(data) => Some(data_views(data@)),
                None => None,
            },
        }
    }
}

/// What a vector of exclusions stands for.
pub open spec fn exclusion_views(exclusions: Seq<ExclusionsMap>) -> Seq<ExclusionView> {
    Seq::new(exclusions.len(), |i: int| exclusions[i]@)
}

impl View for BmffHash {
    type V = BmffHashView;

    open spec fn view(&self) -> BmffHashView {
        BmffHashView {
            name: text_view(self.name),
            alg: text_view(self.alg),
            hash: bytes_view(self.hash),
            merkle: self.merkle,
            exclusions: exclusion_views(self.exclusions@),
            bmff_version: self.bmff_version,
        }
    }
}

/// The path of the box that carries VSI.
pub const EMSG_XPATH: &'static str = "/emsg";

/// The name of the hash of a segment.
pub const BMFF_HASH_NAME: &'static str = "jumbf manifest";

/// The algorithm of the hash of a segment.
pub const BMFF_HASH_ALG: &'static str = "sha256";

/// The version of the hash of a segment: each root box counts with its offset.
pub const BMFF_HASH_VERSION: u64 = 3;

/// The length of a digest of the hash of a segment.
pub const DIGEST_LENGTH: usize = 32;

/// The data entry that asks for the VSI scheme identifier.
pub open spec fn vsi_data() -> (u64, Seq<u8>) {
    (VSI_URI_OFFSET_IN_EMSG, vsi_scheme())
}

/// The exclusion by which the hash of a segment leaves the VSI event message out.
pub open spec fn vsi_exclusion() -> ExclusionView {
    ExclusionView { xpath: EMSG_XPATH@, data: Some(seq![vsi_data()]) }
}

/// The hash of a segment with the given digest.
pub open spec fn segment_hash(digest: Option<Seq<u8>>) -> BmffHashView {
    BmffHashView {
        name: Some(BMFF_HASH_NAME@),
        alg: Some(BMFF_HASH_ALG@),
        hash: digest,
        merkle: false,
        exclusions: seq![vsi_exclusion()],
        bmff_version: BMFF_HASH_VERSION,
    }
}

/// As many zeros as a digest has bytes.
pub open spec fn blank_digest() -> Seq<u8> {
    Seq::new(DIGEST_LENGTH as nat, |i: int| 0u8)
}

/// Whether an exclusion leaves the VSI event message out.
pub open spec fn excludes_vsi(exclusion: ExclusionView) -> bool {
    exclusion.xpath == EMSG_XPATH@ && (exclusion.data matches Some(data) && data.contains(
        vsi_data(),
    ))
}

/// Whether the hash of a resumed segment covers what it must.
pub open spec fn checked_hash(hash: BmffHashView) -> Result<(), Failure> {
    if hash.merkle {
        Err(Failure::BadParam("resumed VSI bmffHash must not contain a merkle field"@))
    } else if !(exists|i: int|
        0 <= i < hash.exclusions.len() && excludes_vsi(#[trigger] hash.exclusions[i])) {
        Err(Failure::BadParam("resumed VSI bmffHash lacks the required C2PA emsg exclusion"@))
    } else {
        Ok(())
    }
}

fn check_data_map(data: &Vec<DataMap>) -> (r: bool)
    ensures
        r == data_views(data@).contains(vsi_data()),
{
    let mut i: usize = 0;
    while i < data.len()
        invariant
            i <= data@.len(),
            forall|j: int| 0 <= j < i ==> #[trigger] data_views(data@)[j] != vsi_data(),
        decreases data@.len() - i,
    {
        let entry = &data[i];
        assert(data_views(data@)[i as int] == (entry.offset, entry.value@));
        if entry.offset == VSI_URI_OFFSET_IN_EMSG && same_bytes(
            entry.value.as_slice(),
            VSI_SCHEME_ID_URI.as_bytes(),
        ) {
            return true;
        }
        i = i + 1;
    }
    false
}

/// Checks that the hash of a resumed segment has no Merkle tree and leaves the VSI event message
/// out.
pub fn check_bmff_hash(hash: &BmffHash) -> (r: Result<(), Error>)
    ensures
        agrees(r, checked_hash(hash@)),
{
    if hash.merkle {
        return Err(bad_param("resumed VSI bmffHash must not contain a merkle field"));
    }
    let mut i: usize = 0;
    while i < hash.exclusions.len()
        invariant
            !hash.merkle,
            i <= hash.exclusions@.len(),
            forall|j: int| 0 <= j < i ==> !excludes_vsi(#[trigger] hash@.exclusions[j]),
        decreases hash.exclusions@.len() - i,
    {
        let exclusion = &hash.exclusions[i];
        assert(hash@.exclusions[i as int] == exclusion@);
        if same_text(exclusion.xpath.as_str(), EMSG_XPATH) {
            match &exclusion.data {
                None => {},
                Some(data) => {
                    if check_data_map(data) {
                        assert(excludes_vsi(hash@.exclusions[i as int]));
                        return Ok(());
                    }
                },
            }
        }
        i = i + 1;
    }
    Err(bad_param("resumed VSI bmffHash lacks the required C2PA emsg exclusion"))
}

/// What may come of comparing a hash with a segment by `verify`.
pub open spec fn comparison_outcome<V: Fn(&[u8], &c2pa_cbor::Value, u64) -> Result<(), String>>(
    segment: Seq<u8>,
    value: c2pa_cbor::Value,
    verify: V,
    r: Result<(), Error>,
) -> bool {
    exists|data: &[u8], verified: Result<(), String>| #[trigger]
        call_ensures(verify, (data, &value, BMFF_HASH_VERSION), verified) && data@ == segment
            && match verified {
            Err(words) => r matches Err(e) && e@ == Failure::BadParam(
                "resumed VSI bmffHash verification failed: "@ + words@,
            ),
            Ok(_) => r is Ok,
        }
}

/// What may come of checking the hash of a resumed segment with `decode` and `verify`.
pub open spec fn hash_outcome<
    D: Fn(&c2pa_cbor::Value) -> Result<BmffHash, String>,
    V: Fn(&[u8], &c2pa_cbor::Value, u64) -> Result<(), String>,
>(
    segment: Seq<u8>,
    value: c2pa_cbor::Value,
    decode: D,
    verify: V,
    r: Result<(), Error>,
) -> bool {
    exists|decoded: Result<BmffHash, String>| #[trigger]
        call_ensures(decode, (&value,), decoded) && match decoded {
            Err(words) => r matches Err(e) && e@ == Failure::BadParam(
                "invalid resumed VSI bmffHash: "@ + words@,
            ),
            Ok(hash) => match checked_hash(hash@) {
                Err(failure) => r matches Err(e) && e@ == failure,
                Ok(_) => comparison_outcome(segment, value, verify, r),
            },
        }
}

/// Checks the hash of a resumed segment.
///
/// `decode` decodes the hash; `verify` compares it, as a hash of the given version, with the
/// segment.
pub fn verify_segment_bmff_hash<
    D: Fn(&c2pa_cbor::Value) -> Result<BmffHash, String>,
    V: Fn(&[u8], &c2pa_cbor::Value, u64) -> Result<(), String>,
>(full_segment: &[u8], bmff_hash: &c2pa_cbor::Value, decode: D, verify: V) -> (r: Result<(), Error>)
    requires
        forall|value: &c2pa_cbor::Value| call_requires(decode, (value,)),
        forall|data: &[u8], value: &c2pa_cbor::Value, version: u64|
            call_requires(verify, (data, value, version)),
    ensures
        hash_outcome(full_segment@, *bmff_hash, decode, verify, r),
{
    let hash: BmffHash = match decode(bmff_hash) {
        Ok(hash) => hash,
        Err(words) => {
            return Err(bad_param_with("invalid resumed VSI bmffHash: ", words.as_str()));
        },
    };
    check_bmff_hash(&hash)?;
    let r: Result<(), Error> = match verify(full_segment, bmff_hash, BMFF_HASH_VERSION) {
        Ok(_) => Ok(()),
        Err(words) => Err(
            bad_param_with("resumed VSI bmffHash verification failed: ", words.as_str()),
        ),
    };
    assert(comparison_outcome(full_segment@, *bmff_hash, verify, r));
    r
}

/// The exclusion by which the hash of a segment leaves the VSI event message out.
pub fn vsi_emsg_exclusion() -> (r: ExclusionsMap)
    ensures
        r@ == vsi_exclusion(),
{
    let mut data: Vec<DataMap> = Vec::new();
    data.push(
        DataMap {
            offset: VSI_URI_OFFSET_IN_EMSG,
            value: to_vec(VSI_SCHEME_ID_URI.as_bytes()),
        },
    );
    assert(data_views(data@) =~= seq![vsi_data()]);
    ExclusionsMap { xpath: EMSG_XPATH.to_string(), data: Some(data) }
}

/// The hash of a segment, with the given digest.
pub fn new_vsi_bmff_hash(digest: Option<Vec<u8>>) -> (r: BmffHash)
    ensures
        r@ == segment_hash(bytes_view(digest)),
{
    let mut exclusions: Vec<ExclusionsMap> = Vec::new();
    exclusions.push(vsi_emsg_exclusion());
    assert(exclusion_views(exclusions@) =~= seq![vsi_exclusion()]);
    BmffHash {
        name: Some(BMFF_HASH_NAME.to_string()),
        alg: Some(BMFF_HASH_ALG.to_string()),
        hash: digest,
        merkle: false,
        exclusions,
        bmff_version: BMFF_HASH_VERSION,
    }
}

/// What may come of encoding the hash of a segment with `encode`.
pub open spec fn encoding_outcome<E: Fn(&BmffHash) -> Result<c2pa_cbor::Value, String>>(
    hash: BmffHashView,
    complaint: Seq<char>,
    encode: E,
    r: Result<c2pa_cbor::Value, Error>,
) -> bool {
    exists|h: &BmffHash, value: Result<c2pa_cbor::Value, String>| #[trigger]
        call_ensures(encode, (h,), value) && h@ == hash && match value {
            Err(words) => r matches Err(e) && e@ == Failure::BadParam(complaint + words@),
            Ok(v) => r == Ok::<c2pa_cbor::Value, Error>(v),
        }
}

/// What may come of encoding the hash of a segment with a blank digest.
pub open spec fn placeholder_outcome<E: Fn(&BmffHash) -> Result<c2pa_cbor::Value, String>>(
    encode: E,
    r: Result<c2pa_cbor::Value, Error>,
) -> bool {
    encoding_outcome(
        segment_hash(Some(blank_digest())),
        "failed to serialize placeholder bmffHash: "@,
        encode,
        r,
    )
}

/// What may come of hashing a segment with `digest` and encoding the hash with `encode`.
pub open spec fn hashing_outcome<
    G: Fn(&BmffHash, &[u8]) -> Result<Vec<u8>, String>,
    E: Fn(&BmffHash) -> Result<c2pa_cbor::Value, String>,
>(segment: Seq<u8>, digest: G, encode: E, r: Result<c2pa_cbor::Value, Error>) -> bool {
    exists|h: &BmffHash, data: &[u8], digested: Result<Vec<u8>, String>| #[trigger]
        call_ensures(digest, (h, data), digested) && h@ == segment_hash(None) && data@ == segment
            && match digested {
            Err(words) => r matches Err(e) && e@ == Failure::BadParam(
                "failed to compute segment bmffHash: "@ + words@,
            ),
            Ok(bytes) => encoding_outcome(
                segment_hash(Some(bytes@)),
                "failed to serialize bmffHash to CBOR: "@,
                encode,
                r,
            ),
        }
}

fn encode_hash<E: Fn(&BmffHash) -> Result<c2pa_cbor::Value, String>>(
    digest: Vec<u8>,
    complaint: &str,
    encode: &E,
) -> (r: Result<c2pa_cbor::Value, Error>)
    requires
        forall|hash: &BmffHash| call_requires(*encode, (hash,)),
    ensures
        encoding_outcome(segment_hash(Some(digest@)), complaint@, *encode, r),
{
    let hash: BmffHash = new_vsi_bmff_hash(Some(digest));
    match encode(&hash) {
        Ok(value) => Ok(value),
        Err(words) => Err(bad_param_with(complaint, words.as_str())),
    }
}

/// Encodes the hash of a segment with zeros in place of the digest.
///
/// It has the size of the hash that takes its place. `encode` encodes a hash.
pub fn build_segment_bmff_hash_placeholder<E: Fn(&BmffHash) -> Result<c2pa_cbor::Value, String>>(
    encode: &E,
) -> (r: Result<c2pa_cbor::Value, Error>)
    requires
        forall|hash: &BmffHash| call_requires(*encode, (hash,)),
    ensures
        placeholder_outcome(*encode, r),
{
    let blank: [u8; 32] = [0u8; 32];
    assert(blank@ =~= blank_digest());
    encode_hash(to_vec(&blank), "failed to serialize placeholder bmffHash: ", encode)
}

/// Computes and encodes the hash of a segment, which must be given in full, with its VSI event
/// message, so that each box counts with its final offset.
///
/// `digest` computes the digest that a hash asks for; `encode` encodes a hash.
pub fn build_segment_bmff_hash<
    G: Fn(&BmffHash, &[u8]) -> Result<Vec<u8>, String>,
    E: Fn(&BmffHash) -> Result<c2pa_cbor::Value, String>,
>(full_segment: &[u8], digest: &G, encode: &E) -> (r: Result<c2pa_cbor::Value, Error>)
    requires
        forall|hash: &BmffHash, data: &[u8]| call_requires(*digest, (hash, data)),
        forall|hash: &BmffHash| call_requires(*encode, (hash,)),
    ensures
        hashing_outcome(full_segment@, *digest, *encode, r),
{
    let hash: BmffHash = new_vsi_bmff_hash(None);
    match digest(&hash, full_segment) {
        Err(words) => Err(bad_param_with("failed to compute segment bmffHash: ", words.as_str())),
        Ok(bytes) => encode_hash(bytes, "failed to serialize bmffHash to CBOR: ", encode),
    }
}

} // verus!
