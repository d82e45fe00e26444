use hcl_evidence::error::Error;
use hcl_evidence::tdx_wire::{TdQuoteRequest, TdQuoteResponse};

fn round_trip(bytes: &[u8]) -> Vec<u8> {
    let req = TdQuoteRequest::from_bytes(bytes);
    let resp = TdQuoteResponse { quote_b64url: req.report_b64url };
    resp.quote_bytes().unwrap()
}

#[test]
fn round_trip_empty() {
    assert_eq!(round_trip(&[]), Vec::<u8>::new());
    let req = TdQuoteRequest::from_bytes(&[]);
    assert_eq!(req.report_b64url, "");
}

#[test]
fn round_trip_1024_bytes() {
    let bytes: Vec<u8> = (0..1024u32).map(|i| (i % 256) as u8).collect();
    assert_eq!(round_trip(&bytes), bytes);
}

#[test]
fn round_trip_all_lengths_mod_three() {
    // Lengths 1, 2 and 3 exercise every final-group size.
    for len in 1..=3usize {
        let bytes = vec![0xA5u8; len];
        assert_eq!(round_trip(&bytes), bytes);
    }
}

#[test]
fn encoding_is_unpadded_base64url() {
    let req = TdQuoteRequest::from_bytes(b"hi");
    assert_eq!(req.report_b64url, "aGk");
    let req = TdQuoteRequest::from_bytes(&[0xFB, 0xFF]);
    // URL-safe alphabet: '-' and '_' in place of '+' and '/'.
    assert_eq!(req.report_b64url, "-_8");
}

#[test]
fn decode_rejects_wrong_alphabet() {
    let resp = TdQuoteResponse { quote_b64url: "not-base64!!".to_string() };
    assert_eq!(resp.quote_bytes().unwrap_err(), Error::Base64);
}

#[test]
fn decode_rejects_padding() {
    let resp = TdQuoteResponse { quote_b64url: "aGk=".to_string() };
    assert_eq!(resp.quote_bytes().unwrap_err(), Error::Base64);
}

#[test]
fn decode_rejects_truncated_group() {
    // A single leftover symbol can encode no byte.
    let resp = TdQuoteResponse { quote_b64url: "A".to_string() };
    assert_eq!(resp.quote_bytes().unwrap_err(), Error::Base64);
}

#[test]
fn decode_accepts_canonical_text() {
    let resp = TdQuoteResponse { quote_b64url: "aGVsbG8".to_string() };
    assert_eq!(resp.quote_bytes().unwrap(), b"hello".to_vec());
}
