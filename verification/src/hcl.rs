//! The HCL attestation-report container: closed-set report-type and hash-type
//! validation, the fixed 32-byte report header, the variable-length runtime
//! data with its sentinel-delimited claims text, and the full report that
//! composes them around a fixed-size opaque hardware payload.

use vstd::prelude::*;

use crate::error::Error;
use vstd::bytes::{spec_u32_from_le_bytes, spec_u32_to_le_bytes, u32_from_le_bytes, u32_to_le_bytes};
use vstd::slice::{slice_index_get, slice_subrange, slice_to_vec};
use vstd::utf8::{decode_utf8, encode_utf8, valid_utf8};

verus! {

/// Serialized size of a report header.
pub const HEADER_SIZE: usize = 32;

/// Size of the opaque hardware-report payload inside a full report. The same
/// fixed width is sliced for both hardware families, as the wire format does.
pub const REPORT_PAYLOAD_SIZE: usize = 1184;

/// Size of the fixed numeric prefix of the runtime data.
pub const RUNTIME_DATA_PREFIX_SIZE: usize = 20;

/// Native size of a SEV-SNP hardware report.
pub const SEV_SNP_REPORT_SIZE: usize = 1184;

/// Native size of a TDX hardware report.
pub const TDX_REPORT_SIZE: usize = 1024;

/// The hardware families a report can come from.
#[derive(Debug, Clone, Copy, PartialEq, Eq, Structural)]
pub enum ReportType {
    SevSnp,
    Tdx,
}

/// The hash algorithms a report can name.
#[derive(Debug, Clone, Copy, PartialEq, Eq, Structural)]
pub enum HashType {
    Sha256,
    Sha384,
    Sha512,
}

/// The report type a wire code stands for, if any: the closed set is
/// `2 -> SevSnp`, `4 -> Tdx`.
pub open spec fn spec_report_type_of(value: u32) -> Option<ReportType> {
    if value == 2 {
        Some(ReportType::SevSnp)
    } else if value == 4 {
        Some(ReportType::Tdx)
    } else {
        None
    }
}

/// The wire code of a report type: the inverse of `spec_report_type_of`.
pub open spec fn spec_report_type_code(t: ReportType) -> u32 {
    match t {
        ReportType::SevSnp => 2,
        ReportType::Tdx => 4,
    }
}

/// The hash type a wire code stands for, if any: the closed set is
/// `1 -> Sha256`, `2 -> Sha384`, `3 -> Sha512`.
pub open spec fn spec_hash_type_of(value: u32) -> Option<HashType> {
    if value == 1 {
        Some(HashType::Sha256)
    } else if value == 2 {
        Some(HashType::Sha384)
    } else if value == 3 {
        Some(HashType::Sha512)
    } else {
        None
    }
}

/// The wire code of a hash type: the inverse of `spec_hash_type_of`.
pub open spec fn spec_hash_type_code(t: HashType) -> u32 {
    match t {
        HashType::Sha256 => 1,
        HashType::Sha384 => 2,
        HashType::Sha512 => 3,
    }
}

/// Validates a raw report-type code against the closed set, preserving the
/// offending code in the error.
pub fn report_type_from(value: u32) -> (r: Result<ReportType, Error>)
    ensures
        r == match spec_report_type_of(value) {
            Some(t) => Ok::<ReportType, Error>(t),
            None => Err::<ReportType, Error>(Error::UnknownReportType(value)),
        },
{
    match value {
        2 => Ok(ReportType::SevSnp),
        4 => Ok(ReportType::Tdx),
        v => Err(Error::UnknownReportType(v)),
    }
}

/// The wire code of a report type; the mapping is total and lossless, so
/// validating the code again yields the same report type.
pub fn report_type_code(t: ReportType) -> (r: u32)
    ensures
        r == spec_report_type_code(t),
        spec_report_type_of(r) == Some(t),
{
    match t {
        ReportType::SevSnp => 2,
        ReportType::Tdx => 4,
    }
}

/// Validates a raw hash-type code against the closed set, preserving the
/// offending code in the error.
pub fn hash_type_from(value: u32) -> (r: Result<HashType, Error>)
    ensures
        r == match spec_hash_type_of(value) {
            Some(t) => Ok::<HashType, Error>(t),
            None => Err::<HashType, Error>(Error::UnknownHashType(value)),
        },
{
    match value {
        1 => Ok(HashType::Sha256),
        2 => Ok(HashType::Sha384),
        3 => Ok(HashType::Sha512),
        v => Err(Error::UnknownHashType(v)),
    }
}

/// The wire code of a hash type; the mapping is total and lossless, so
/// validating the code again yields the same hash type.
pub fn hash_type_code(t: HashType) -> (r: u32)
    ensures
        r == spec_hash_type_code(t),
        spec_hash_type_of(r) == Some(t),
{
    match t {
        HashType::Sha256 => 1,
        HashType::Sha384 => 2,
        HashType::Sha512 => 3,
    }
}

/// The fixed 32-byte report header: five little-endian 32-bit fields followed
/// by a 12-byte opaque trailer. No field value is validated at this layer; in
/// particular the signature is not checked against any expected constant.
#[derive(Debug, Clone, PartialEq, Eq)]
pub struct HclReportHeader {
    pub signature: u32,
    pub version: u32,
    pub report_size: u32,
    pub request_type: u32,
    pub status: u32,
    pub reserved: [u8; 12],
}

/// The serialized form of a header: the five fields little-endian in order,
/// then the trailer.
pub open spec fn spec_header_bytes(h: HclReportHeader) -> Seq<u8> {
    spec_u32_to_le_bytes(h.signature) + spec_u32_to_le_bytes(h.version) + spec_u32_to_le_bytes(
        h.report_size,
    ) + spec_u32_to_le_bytes(h.request_type) + spec_u32_to_le_bytes(h.status) + h.reserved@
}

/// Whether `h` is the header that a 32-byte buffer `b` denotes.
pub open spec fn header_matches(b: Seq<u8>, h: HclReportHeader) -> bool {
    &&& h.signature == spec_u32_from_le_bytes(b.subrange(0, 4))
    &&& h.version == spec_u32_from_le_bytes(b.subrange(4, 8))
    &&& h.report_size == spec_u32_from_le_bytes(b.subrange(8, 12))
    &&& h.request_type == spec_u32_from_le_bytes(b.subrange(12, 16))
    &&& h.status == spec_u32_from_le_bytes(b.subrange(16, 20))
    &&& h.reserved@ == b.subrange(20, 32)
}

impl HclReportHeader {
    /// Decodes a header from a buffer of exactly 32 bytes; any other length is
    /// rejected with `InvalidSize`.
    pub fn from_bytes(bytes: &[u8]) -> (r: Result<Self, Error>)
        ensures
            bytes@.len() == HEADER_SIZE ==> (r matches Ok(h) && header_matches(bytes@, h)),
            bytes@.len() != HEADER_SIZE ==> r == Err::<Self, Error>(
                Error::InvalidSize { expected: HEADER_SIZE as usize, actual: bytes@.len() as usize },
            ),
    {
        if bytes.len() != HEADER_SIZE {
            return Err(Error::InvalidSize { expected: HEADER_SIZE, actual: bytes.len() });
        }
        let tail = slice_subrange(bytes, 20, 32);
        let reserved: [u8; 12] = [
            *slice_index_get(tail, 0),
            *slice_index_get(tail, 1),
            *slice_index_get(tail, 2),
            *slice_index_get(tail, 3),
            *slice_index_get(tail, 4),
            *slice_index_get(tail, 5),
            *slice_index_get(tail, 6),
            *slice_index_get(tail, 7),
            *slice_index_get(tail, 8),
            *slice_index_get(tail, 9),
            *slice_index_get(tail, 10),
            *slice_index_get(tail, 11),
        ];
        proof {
            assert(reserved@ =~= bytes@.subrange(20, 32));
        }
        Ok(HclReportHeader {
            signature: u32_from_le_bytes(slice_subrange(bytes, 0, 4)),
            version: u32_from_le_bytes(slice_subrange(bytes, 4, 8)),
            report_size: u32_from_le_bytes(slice_subrange(bytes, 8, 12)),
            request_type: u32_from_le_bytes(slice_subrange(bytes, 12, 16)),
            status: u32_from_le_bytes(slice_subrange(bytes, 16, 20)),
            reserved,
        })
    }

    /// Encodes the header; every header serializes to exactly 32 bytes.
    pub fn as_bytes(&self) -> (r: Vec<u8>)
        ensures
            r@ == spec_header_bytes(*self),
            r@.len() == HEADER_SIZE,
    {
        let mut out: Vec<u8> = Vec::new();
        let signature = u32_to_le_bytes(self.signature);
        out.extend_from_slice(signature.as_slice());
        let version = u32_to_le_bytes(self.version);
        out.extend_from_slice(version.as_slice());
        let report_size = u32_to_le_bytes(self.report_size);
        out.extend_from_slice(report_size.as_slice());
        let request_type = u32_to_le_bytes(self.request_type);
        out.extend_from_slice(request_type.as_slice());
        let status = u32_to_le_bytes(self.status);
        out.extend_from_slice(status.as_slice());
        out.extend_from_slice(self.reserved.as_slice());
        proof {
            vstd::bytes::lemma_auto_spec_u32_to_from_le_bytes();
        }
        out
    }
}

/// Decoding any well-formed 32-byte buffer and encoding the result reproduces
/// the buffer byte for byte.
pub proof fn lemma_header_round_trip(b: Seq<u8>, h: HclReportHeader)
    requires
        b.len() == 32,
        header_matches(b, h),
    ensures
        spec_header_bytes(h) == b,
{
    vstd::bytes::lemma_auto_spec_u32_to_from_le_bytes();
    assert(spec_header_bytes(h) =~= b);
}

/// Encoding a header and decoding the result reproduces the header field for
/// field.
pub proof fn lemma_header_encode_decode(h: HclReportHeader)
    ensures
        spec_header_bytes(h).len() == 32,
        forall|h2: HclReportHeader| #[trigger] header_matches(spec_header_bytes(h), h2) ==> (
        h2.signature == h.signature && h2.version == h.version && h2.report_size == h.report_size
            && h2.request_type == h.request_type && h2.status == h.status && h2.reserved@
            == h.reserved@),
{
    vstd::bytes::lemma_auto_spec_u32_to_from_le_bytes();
    let b = spec_header_bytes(h);
    assert(b.subrange(0, 4) =~= spec_u32_to_le_bytes(h.signature));
    assert(b.subrange(4, 8) =~= spec_u32_to_le_bytes(h.version));
    assert(b.subrange(8, 12) =~= spec_u32_to_le_bytes(h.report_size));
    assert(b.subrange(12, 16) =~= spec_u32_to_le_bytes(h.request_type));
    assert(b.subrange(16, 20) =~= spec_u32_to_le_bytes(h.status));
    assert(b.subrange(20, 32) =~= h.reserved@);
}

/// The index of the first zero byte of `s`, or `s.len()` when no zero byte is
/// present.
pub open spec fn first_zero_index(s: Seq<u8>) -> int
    decreases s.len(),
{
    if s.len() == 0 {
        0
    } else if s[0] == 0 {
        0
    } else {
        1 + first_zero_index(s.drop_first())
    }
}

/// An index below which every byte is nonzero, and which points at a zero byte
/// or at the end, is the first zero index.
pub proof fn lemma_first_zero_index_is(s: Seq<u8>, i: int)
    requires
        0 <= i <= s.len(),
        forall|k: int| 0 <= k < i ==> s[k] != 0,
        i < s.len() ==> s[i] == 0,
    ensures
        first_zero_index(s) == i,
    decreases s.len(),
{
    if i == 0 {
    } else {
        assert(s[0] != 0);
        assert forall|k: int| 0 <= k < i - 1 implies s.drop_first()[k] != 0 by {
            assert(s[k + 1] != 0);
        }
        lemma_first_zero_index_is(s.drop_first(), i - 1);
    }
}

/// The region of a runtime-data buffer that holds the claims text: the bytes
/// after the 20-byte prefix, up to (not including) the first zero byte, or the
/// whole remainder when no zero byte is present.
pub open spec fn spec_claims_region(b: Seq<u8>) -> Seq<u8> {
    let rest = b.skip(20);
    rest.take(first_zero_index(rest))
}

/// Relies on `String::from_utf8`: it succeeds exactly on valid UTF-8 input,
/// and then returns the text that the input encodes.
#[verifier::external_body]
fn string_from_utf8(bytes: &[u8]) -> (r: Option<String>)
    ensures
        match r {
            Some(s) => valid_utf8(bytes@) && s@ == decode_utf8(bytes@),
            None => !valid_utf8(bytes@),
        },
{
    String::from_utf8(bytes.to_vec()).ok()
}

/// The runtime data of a report: a fixed 20-byte numeric prefix followed by
/// the claims text.
#[derive(Debug, Clone, PartialEq, Eq)]
pub struct HclRuntimeData {
    pub data_size: u32,
    pub version: u32,
    pub report_type: ReportType,
    pub hash_type: HashType,
    pub claim_size: u32,
    pub runtime_claims: String,
}

/// Whether a runtime-data buffer decodes at all: it must hold the full prefix,
/// carry known report-type and hash-type codes, and its claims region must be
/// valid UTF-8.
pub open spec fn runtime_data_decode_ok(b: Seq<u8>) -> bool {
    &&& b.len() >= 20
    &&& spec_report_type_of(spec_u32_from_le_bytes(b.subrange(8, 12))) is Some
    &&& spec_hash_type_of(spec_u32_from_le_bytes(b.subrange(12, 16))) is Some
    &&& valid_utf8(spec_claims_region(b))
}

/// Whether `rd` is the runtime data that buffer `b` denotes.
pub open spec fn runtime_data_matches(b: Seq<u8>, rd: HclRuntimeData) -> bool {
    &&& rd.data_size == spec_u32_from_le_bytes(b.subrange(0, 4))
    &&& rd.version == spec_u32_from_le_bytes(b.subrange(4, 8))
    &&& Some(rd.report_type) == spec_report_type_of(spec_u32_from_le_bytes(b.subrange(8, 12)))
    &&& Some(rd.hash_type) == spec_hash_type_of(spec_u32_from_le_bytes(b.subrange(12, 16)))
    &&& rd.claim_size == spec_u32_from_le_bytes(b.subrange(16, 20))
    &&& rd.runtime_claims@ == decode_utf8(spec_claims_region(b))
}

/// The exact error a runtime-data buffer that does not decode is rejected
/// with: a short buffer first, then an unknown report type, then an unknown
/// hash type, then claims bytes that are not UTF-8.
pub open spec fn runtime_data_decode_err(b: Seq<u8>) -> Error {
    if b.len() < 20 {
        Error::InvalidSize { expected: 20 as usize, actual: b.len() as usize }
    } else if spec_report_type_of(spec_u32_from_le_bytes(b.subrange(8, 12))) is None {
        Error::UnknownReportType(spec_u32_from_le_bytes(b.subrange(8, 12)))
    } else if spec_hash_type_of(spec_u32_from_le_bytes(b.subrange(12, 16))) is None {
        Error::UnknownHashType(spec_u32_from_le_bytes(b.subrange(12, 16)))
    } else {
        Error::Utf8
    }
}

/// The serialized form of runtime data: the five prefix fields little-endian
/// in order, then the raw UTF-8 bytes of the claims text, with no terminating
/// zero byte appended.
pub open spec fn spec_runtime_data_bytes(rd: HclRuntimeData) -> Seq<u8> {
    spec_u32_to_le_bytes(rd.data_size) + spec_u32_to_le_bytes(rd.version) + spec_u32_to_le_bytes(
        spec_report_type_code(rd.report_type),
    ) + spec_u32_to_le_bytes(spec_hash_type_code(rd.hash_type)) + spec_u32_to_le_bytes(
        rd.claim_size,
    ) + encode_utf8(rd.runtime_claims@)
}

impl HclRuntimeData {
    /// Decodes runtime data: the 20-byte prefix is read and validated, then
    /// the remainder is scanned for the first zero byte and everything before
    /// it is taken as the UTF-8 claims text.
    pub fn from_bytes(bytes: &[u8]) -> (r: Result<Self, Error>)
        ensures
            r is Ok <==> runtime_data_decode_ok(bytes@),
            r matches Ok(rd) ==> runtime_data_matches(bytes@, rd),
            r matches Err(e) ==> e == runtime_data_decode_err(bytes@),
    {
        if bytes.len() < RUNTIME_DATA_PREFIX_SIZE {
            return Err(Error::InvalidSize {
                expected: RUNTIME_DATA_PREFIX_SIZE,
                actual: bytes.len(),
            });
        }
        let data_size = u32_from_le_bytes(slice_subrange(bytes, 0, 4));
        let version = u32_from_le_bytes(slice_subrange(bytes, 4, 8));
        let report_raw = u32_from_le_bytes(slice_subrange(bytes, 8, 12));
        let hash_raw = u32_from_le_bytes(slice_subrange(bytes, 12, 16));
        let claim_size = u32_from_le_bytes(slice_subrange(bytes, 16, 20));

        let report_type = match report_type_from(report_raw) {
            Ok(t) => t,
            Err(e) => {
                return Err(e);
            },
        };
        let hash_type = match hash_type_from(hash_raw) {
            Ok(t) => t,
            Err(e) => {
                return Err(e);
            },
        };

        let region = slice_subrange(bytes, RUNTIME_DATA_PREFIX_SIZE, bytes.len());
        let mut nul_pos: usize = 0;
        while nul_pos < region.len()
            invariant
                nul_pos <= region@.len(),
                forall|k: int| 0 <= k < nul_pos ==> region@[k] != 0,
            ensures
                nul_pos <= region@.len(),
                forall|k: int| 0 <= k < nul_pos ==> region@[k] != 0,
                nul_pos == region@.len() || region@[nul_pos as int] == 0,
            decreases region@.len() - nul_pos,
        {
            if *slice_index_get(region, nul_pos) == 0 {
                break ;
            }
            nul_pos += 1;
        }
        proof {
            lemma_first_zero_index_is(region@, nul_pos as int);
            assert(region@ =~= bytes@.skip(20));
            assert(spec_claims_region(bytes@) =~= region@.subrange(0, nul_pos as int));
        }
        let claims_bytes = slice_subrange(region, 0, nul_pos);
        let runtime_claims = match string_from_utf8(claims_bytes) {
            Some(s) => s,
            None => {
                return Err(Error::Utf8);
            },
        };
        Ok(HclRuntimeData { data_size, version, report_type, hash_type, claim_size, runtime_claims })
    }

    /// Encodes runtime data: the 20-byte prefix, then the raw UTF-8 bytes of
    /// the claims text. No terminating zero byte is appended.
    pub fn as_bytes(&self) -> (r: Vec<u8>)
        ensures
            r@ == spec_runtime_data_bytes(*self),
    {
        let mut out: Vec<u8> = Vec::new();
        let data_size = u32_to_le_bytes(self.data_size);
        out.extend_from_slice(data_size.as_slice());
        let version = u32_to_le_bytes(self.version);
        out.extend_from_slice(version.as_slice());
        let report_code = u32_to_le_bytes(report_type_code(self.report_type));
        out.extend_from_slice(report_code.as_slice());
        let hash_code = u32_to_le_bytes(hash_type_code(self.hash_type));
        out.extend_from_slice(hash_code.as_slice());
        let claim_size = u32_to_le_bytes(self.claim_size);
        out.extend_from_slice(claim_size.as_slice());
        out.extend_from_slice(self.runtime_claims.as_str().as_bytes());
        out
    }
}

/// The encoding of runtime data whose claims text contains no zero byte
/// decodes again: the buffer passes every check of `from_bytes`.
pub proof fn lemma_runtime_data_encode_decode_ok(rd: HclRuntimeData)
    requires
        !encode_utf8(rd.runtime_claims@).contains(0u8),
    ensures
        runtime_data_decode_ok(spec_runtime_data_bytes(rd)),
        spec_claims_region(spec_runtime_data_bytes(rd)) == encode_utf8(rd.runtime_claims@),
{
    broadcast use vstd::utf8::encode_utf8_valid_utf8;

    vstd::bytes::lemma_auto_spec_u32_to_from_le_bytes();
    let b = spec_runtime_data_bytes(rd);
    let claims = encode_utf8(rd.runtime_claims@);
    assert(b.skip(20) =~= claims);
    assert forall|k: int| 0 <= k < claims.len() implies claims[k] != 0 by {
        assert(claims.contains(claims[k]) == false || claims[k] != 0) by {
            if claims[k] == 0 {
                assert(claims.contains(0u8));
            }
        }
    }
    lemma_first_zero_index_is(claims, claims.len() as int);
    assert(spec_claims_region(b) =~= claims);
    assert(b.subrange(8, 12) =~= spec_u32_to_le_bytes(spec_report_type_code(rd.report_type)));
    assert(b.subrange(12, 16) =~= spec_u32_to_le_bytes(spec_hash_type_code(rd.hash_type)));
}

/// Round trip of runtime data: when the claims text contains no zero byte,
/// any runtime data that the encoding of `rd` decodes to agrees with `rd` on
/// every field, the claims text included.
pub proof fn lemma_runtime_data_round_trip(rd: HclRuntimeData, rd2: HclRuntimeData)
    requires
        !encode_utf8(rd.runtime_claims@).contains(0u8),
        runtime_data_matches(spec_runtime_data_bytes(rd), rd2),
    ensures
        rd2.data_size == rd.data_size,
        rd2.version == rd.version,
        rd2.report_type == rd.report_type,
        rd2.hash_type == rd.hash_type,
        rd2.claim_size == rd.claim_size,
        rd2.runtime_claims@ == rd.runtime_claims@,
{
    broadcast use vstd::utf8::encode_utf8_decode_utf8;

    vstd::bytes::lemma_auto_spec_u32_to_from_le_bytes();
    lemma_runtime_data_encode_decode_ok(rd);
    let b = spec_runtime_data_bytes(rd);
    assert(b.subrange(0, 4) =~= spec_u32_to_le_bytes(rd.data_size));
    assert(b.subrange(4, 8) =~= spec_u32_to_le_bytes(rd.version));
    assert(b.subrange(8, 12) =~= spec_u32_to_le_bytes(spec_report_type_code(rd.report_type)));
    assert(b.subrange(12, 16) =~= spec_u32_to_le_bytes(spec_hash_type_code(rd.hash_type)));
    assert(b.subrange(16, 20) =~= spec_u32_to_le_bytes(rd.claim_size));
    assert(rd2.runtime_claims@ == decode_utf8(encode_utf8(rd.runtime_claims@)));
}

/// The full evidence bundle: a fixed header, a fixed-size opaque hardware
/// payload that is sliced and preserved but never interpreted, and the
/// variable-length runtime data.
#[derive(Debug, Clone, PartialEq, Eq)]
pub struct HclAttestationReport {
    pub header: HclReportHeader,
    pub report_payload: Vec<u8>,
    pub runtime_data: HclRuntimeData,
}

/// The serialized form of a report: header bytes, then the payload as
/// stored, then the runtime-data bytes.
pub open spec fn spec_report_bytes(rep: HclAttestationReport) -> Seq<u8> {
    spec_header_bytes(rep.header) + rep.report_payload@ + spec_runtime_data_bytes(rep.runtime_data)
}

/// Whether a full-report buffer decodes at all: it must cover the header and
/// the fixed payload, and its tail must decode as runtime data.
pub open spec fn report_decode_ok(b: Seq<u8>) -> bool {
    &&& b.len() >= 32 + 1184
    &&& runtime_data_decode_ok(b.skip((32 + 1184) as int))
}

/// Whether `rep` is the report that buffer `b` denotes.
pub open spec fn report_matches(b: Seq<u8>, rep: HclAttestationReport) -> bool {
    &&& header_matches(b.subrange(0, 32), rep.header)
    &&& rep.report_payload@ == b.subrange(32, (32 + 1184) as int)
    &&& runtime_data_matches(b.skip((32 + 1184) as int), rep.runtime_data)
}

/// The exact error a full-report buffer that does not decode is rejected
/// with: too short for the header, then too short for the fixed payload, then
/// whatever error the runtime-data tail is rejected with.
pub open spec fn report_decode_err(b: Seq<u8>) -> Error {
    if b.len() < 32 {
        Error::InvalidSize { expected: 32 as usize, actual: b.len() as usize }
    } else if b.len() < 32 + 1184 {
        Error::InvalidSize { expected: (32 + 1184) as usize, actual: b.len() as usize }
    } else {
        runtime_data_decode_err(b.skip((32 + 1184) as int))
    }
}

impl HclAttestationReport {
    /// Decodes a full report: the first 32 bytes through the header codec, the
    /// next 1184 bytes copied verbatim as the opaque payload, the rest through
    /// the runtime-data codec. Every sub-decoder error propagates unchanged.
    pub fn from_bytes(bytes: &[u8]) -> (r: Result<Self, Error>)
        ensures
            r is Ok <==> report_decode_ok(bytes@),
            r matches Ok(rep) ==> report_matches(bytes@, rep),
            r matches Err(e) ==> e == report_decode_err(bytes@),
    {
        if bytes.len() < HEADER_SIZE {
            return Err(Error::InvalidSize { expected: HEADER_SIZE, actual: bytes.len() });
        }
        let header = match HclReportHeader::from_bytes(slice_subrange(bytes, 0, HEADER_SIZE)) {
            Ok(h) => h,
            Err(e) => {
                return Err(e);
            },
        };
        let payload_end = HEADER_SIZE + REPORT_PAYLOAD_SIZE;
        if bytes.len() < payload_end {
            return Err(Error::InvalidSize { expected: payload_end, actual: bytes.len() });
        }
        let report_payload = slice_to_vec(slice_subrange(bytes, HEADER_SIZE, payload_end));
        let runtime_data = match HclRuntimeData::from_bytes(
            slice_subrange(bytes, payload_end, bytes.len()),
        ) {
            Ok(rd) => rd,
            Err(e) => {
                proof {
                    assert(bytes@.subrange(payload_end as int, bytes@.len() as int) =~= bytes@.skip(
                        (32 + 1184) as int,
                    ));
                }
                return Err(e);
            },
        };
        proof {
            assert(bytes@.subrange(payload_end as int, bytes@.len() as int) =~= bytes@.skip(
                (32 + 1184) as int,
            ));
        }
        Ok(HclAttestationReport { header, report_payload, runtime_data })
    }

    /// Encodes a report: header bytes, then the payload as stored, then the
    /// runtime-data bytes.
    pub fn as_bytes(&self) -> (r: Vec<u8>)
        ensures
            r@ == spec_report_bytes(*self),
    {
        let mut out = self.header.as_bytes();
        let mut payload = slice_to_vec(self.report_payload.as_slice());
        out.append(&mut payload);
        let mut tail = self.runtime_data.as_bytes();
        out.append(&mut tail);
        out
    }
}

/// The encoding of a sound report decodes again: with a payload of the fixed
/// width and claims text that encodes without a zero byte, the serialized
/// report passes every check of `from_bytes`.
pub proof fn lemma_report_encode_decode_ok(rep: HclAttestationReport)
    requires
        rep.report_payload@.len() == 1184,
        !encode_utf8(rep.runtime_data.runtime_claims@).contains(0u8),
    ensures
        report_decode_ok(spec_report_bytes(rep)),
        spec_report_bytes(rep).subrange(0, 32) == spec_header_bytes(rep.header),
        spec_report_bytes(rep).subrange(32, (32 + 1184) as int) == rep.report_payload@,
        spec_report_bytes(rep).skip((32 + 1184) as int) == spec_runtime_data_bytes(
            rep.runtime_data,
        ),
{
    vstd::bytes::lemma_auto_spec_u32_to_from_le_bytes();
    let b = spec_report_bytes(rep);
    assert(spec_header_bytes(rep.header).len() == 32);
    assert(b.subrange(0, 32) =~= spec_header_bytes(rep.header));
    assert(b.subrange(32, (32 + 1184) as int) =~= rep.report_payload@);
    assert(b.skip((32 + 1184) as int) =~= spec_runtime_data_bytes(rep.runtime_data));
    lemma_runtime_data_encode_decode_ok(rep.runtime_data);
}

/// Round trip of a full report: any report that the encoding of a sound
/// report decodes to agrees with it on every header field, on the payload,
/// and on every runtime-data field, the claims text included.
pub proof fn lemma_report_round_trip(rep: HclAttestationReport, rep2: HclAttestationReport)
    requires
        rep.report_payload@.len() == 1184,
        !encode_utf8(rep.runtime_data.runtime_claims@).contains(0u8),
        report_matches(spec_report_bytes(rep), rep2),
    ensures
        rep2.header.signature == rep.header.signature,
        rep2.header.version == rep.header.version,
        rep2.header.report_size == rep.header.report_size,
        rep2.header.request_type == rep.header.request_type,
        rep2.header.status == rep.header.status,
        rep2.header.reserved@ == rep.header.reserved@,
        rep2.report_payload@ == rep.report_payload@,
        rep2.runtime_data.data_size == rep.runtime_data.data_size,
        rep2.runtime_data.version == rep.runtime_data.version,
        rep2.runtime_data.report_type == rep.runtime_data.report_type,
        rep2.runtime_data.hash_type == rep.runtime_data.hash_type,
        rep2.runtime_data.claim_size == rep.runtime_data.claim_size,
        rep2.runtime_data.runtime_claims@ == rep.runtime_data.runtime_claims@,
{
    lemma_report_encode_decode_ok(rep);
    lemma_header_encode_decode(rep.header);
    lemma_runtime_data_round_trip(rep.runtime_data, rep2.runtime_data);
}

} // verus!

