use hcl_evidence::error::Error;
use hcl_evidence::hcl::{HclAttestationReport, HEADER_SIZE, REPORT_PAYLOAD_SIZE};

fn sample_report_bytes(claims: &[u8]) -> Vec<u8> {
    let mut b = vec![0u8; 32];
    b[0] = 0x48;
    b[1] = 0x43;
    b[2] = 0x4C;
    b[3] = 0x41;
    for i in 0..REPORT_PAYLOAD_SIZE {
        b.push((i % 251) as u8 + 1);
    }
    // runtime-data prefix: data_size, version, report_type=2, hash_type=1, claim_size
    b.extend_from_slice(&0u32.to_le_bytes());
    b.extend_from_slice(&1u32.to_le_bytes());
    b.extend_from_slice(&2u32.to_le_bytes());
    b.extend_from_slice(&1u32.to_le_bytes());
    b.extend_from_slice(&(claims.len() as u32).to_le_bytes());
    b.extend_from_slice(claims);
    b
}

#[test]
fn report_decodes_and_slices_payload() {
    let b = sample_report_bytes(b"{\"x\":2}");
    let rep = HclAttestationReport::from_bytes(&b).unwrap();
    assert_eq!(rep.header.signature, 0x414C4348);
    assert_eq!(rep.report_payload.len(), REPORT_PAYLOAD_SIZE);
    assert_eq!(rep.report_payload[0], 1);
    assert_eq!(&rep.report_payload[..], &b[32..32 + REPORT_PAYLOAD_SIZE]);
    assert_eq!(rep.runtime_data.runtime_claims, "{\"x\":2}");
}

#[test]
fn report_round_trip() {
    let b = sample_report_bytes(b"{\"keys\":[]}");
    let rep = HclAttestationReport::from_bytes(&b).unwrap();
    assert_eq!(rep.as_bytes(), b);
}

#[test]
fn report_rejects_buffer_shorter_than_header() {
    let b = vec![0u8; 10];
    let e = HclAttestationReport::from_bytes(&b).unwrap_err();
    assert_eq!(e, Error::InvalidSize { expected: HEADER_SIZE, actual: 10 });
}

#[test]
fn report_rejects_buffer_shorter_than_payload_end() {
    let b = vec![0u8; 1000];
    let e = HclAttestationReport::from_bytes(&b).unwrap_err();
    assert_eq!(e, Error::InvalidSize { expected: 32 + 1184, actual: 1000 });
}

#[test]
fn report_rejects_buffer_one_byte_short() {
    let b = vec![0u8; 32 + 1184 - 1];
    let e = HclAttestationReport::from_bytes(&b).unwrap_err();
    assert_eq!(e, Error::InvalidSize { expected: 1216, actual: 1215 });
}

#[test]
fn report_propagates_runtime_data_error() {
    // Exactly header + payload: the tail is empty, shorter than the prefix.
    let b = vec![0u8; 32 + 1184];
    let e = HclAttestationReport::from_bytes(&b).unwrap_err();
    assert_eq!(e, Error::InvalidSize { expected: 20, actual: 0 });
}

#[test]
fn report_propagates_unknown_report_type() {
    let mut b = vec![0u8; 32 + 1184];
    b.extend_from_slice(&0u32.to_le_bytes());
    b.extend_from_slice(&0u32.to_le_bytes());
    b.extend_from_slice(&99u32.to_le_bytes());
    b.extend_from_slice(&1u32.to_le_bytes());
    b.extend_from_slice(&0u32.to_le_bytes());
    let e = HclAttestationReport::from_bytes(&b).unwrap_err();
    assert_eq!(e, Error::UnknownReportType(99));
}
