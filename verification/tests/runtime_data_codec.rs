use hcl_evidence::error::Error;
use hcl_evidence::hcl::{HashType, HclRuntimeData, ReportType};

fn prefix(data_size: u32, version: u32, report: u32, hash: u32, claim_size: u32) -> Vec<u8> {
    let mut b: Vec<u8> = Vec::new();
    b.extend_from_slice(&data_size.to_le_bytes());
    b.extend_from_slice(&version.to_le_bytes());
    b.extend_from_slice(&report.to_le_bytes());
    b.extend_from_slice(&hash.to_le_bytes());
    b.extend_from_slice(&claim_size.to_le_bytes());
    b
}

#[test]
fn decode_reads_prefix_and_claims() {
    let mut b = prefix(100, 1, 2, 3, 7);
    b.extend_from_slice(b"{\"a\":1}");
    let rd = HclRuntimeData::from_bytes(&b).unwrap();
    assert_eq!(rd.data_size, 100);
    assert_eq!(rd.version, 1);
    assert_eq!(rd.report_type, ReportType::SevSnp);
    assert_eq!(rd.hash_type, HashType::Sha512);
    assert_eq!(rd.claim_size, 7);
    assert_eq!(rd.runtime_claims, "{\"a\":1}");
}

#[test]
fn decode_stops_at_first_zero_byte() {
    let mut b = prefix(0, 0, 4, 1, 5);
    b.extend_from_slice(b"hello\0world");
    let rd = HclRuntimeData::from_bytes(&b).unwrap();
    assert_eq!(rd.runtime_claims, "hello");
}

#[test]
fn decode_takes_whole_tail_without_zero_byte() {
    let mut b = prefix(0, 0, 4, 1, 5);
    b.extend_from_slice(b"hello");
    let rd = HclRuntimeData::from_bytes(&b).unwrap();
    assert_eq!(rd.runtime_claims, "hello");
}

#[test]
fn decode_empty_tail_gives_empty_claims() {
    let b = prefix(0, 0, 2, 1, 0);
    let rd = HclRuntimeData::from_bytes(&b).unwrap();
    assert_eq!(rd.runtime_claims, "");
}

#[test]
fn decode_rejects_short_buffer() {
    let b = vec![0u8; 19];
    let e = HclRuntimeData::from_bytes(&b).unwrap_err();
    assert_eq!(e, Error::InvalidSize { expected: 20, actual: 19 });
}

#[test]
fn decode_rejects_unknown_report_type() {
    let b = prefix(0, 0, 9, 1, 0);
    let e = HclRuntimeData::from_bytes(&b).unwrap_err();
    assert_eq!(e, Error::UnknownReportType(9));
}

#[test]
fn decode_rejects_unknown_hash_type() {
    let b = prefix(0, 0, 2, 7, 0);
    let e = HclRuntimeData::from_bytes(&b).unwrap_err();
    assert_eq!(e, Error::UnknownHashType(7));
}

#[test]
fn decode_rejects_invalid_utf8_claims() {
    let mut b = prefix(0, 0, 2, 1, 0);
    b.extend_from_slice(&[0xFF, 0xFE]);
    let e = HclRuntimeData::from_bytes(&b).unwrap_err();
    assert_eq!(e, Error::Utf8);
}

#[test]
fn encode_appends_no_zero_byte() {
    let rd = HclRuntimeData {
        data_size: 40,
        version: 1,
        report_type: ReportType::Tdx,
        hash_type: HashType::Sha256,
        claim_size: 2,
        runtime_claims: "{}".to_string(),
    };
    let b = rd.as_bytes();
    assert_eq!(b.len(), 22);
    assert_eq!(&b[20..], b"{}");
}

#[test]
fn round_trip_claims_without_zero_byte() {
    let rd = HclRuntimeData {
        data_size: 512,
        version: 2,
        report_type: ReportType::SevSnp,
        hash_type: HashType::Sha384,
        claim_size: 13,
        runtime_claims: "{\"keys\":[]}".to_string(),
    };
    let rd2 = HclRuntimeData::from_bytes(&rd.as_bytes()).unwrap();
    assert_eq!(rd2.data_size, rd.data_size);
    assert_eq!(rd2.version, rd.version);
    assert_eq!(rd2.report_type, rd.report_type);
    assert_eq!(rd2.hash_type, rd.hash_type);
    assert_eq!(rd2.claim_size, rd.claim_size);
    assert_eq!(rd2.runtime_claims, rd.runtime_claims);
}

#[test]
fn round_trip_non_ascii_claims() {
    let rd = HclRuntimeData {
        data_size: 0,
        version: 0,
        report_type: ReportType::Tdx,
        hash_type: HashType::Sha256,
        claim_size: 0,
        runtime_claims: "caf\u{e9} \u{2713}".to_string(),
    };
    let rd2 = HclRuntimeData::from_bytes(&rd.as_bytes()).unwrap();
    assert_eq!(rd2.runtime_claims, rd.runtime_claims);
}
