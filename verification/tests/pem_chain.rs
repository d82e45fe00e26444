use hcl_evidence::error::Error;
use hcl_evidence::snp_wire::SevSnpCertResponse;

// A PEM block whose base64 payload decodes to the three bytes [0, 0, 0].
const BLOCK_ZEROS: &str = "-----BEGIN CERTIFICATE-----\nAAAA\n-----END CERTIFICATE-----\n";

// A PEM block whose base64 payload decodes to the three bytes [1, 2, 3].
const BLOCK_ONE_TWO_THREE: &str = "-----BEGIN CERTIFICATE-----\nAQID\n-----END CERTIFICATE-----\n";

// A PEM block whose base64 payload decodes to the three bytes [9, 9, 9].
const BLOCK_NINES: &str = "-----BEGIN CERTIFICATE-----\nCQkJ\n-----END CERTIFICATE-----\n";

// A block frame whose payload is not base64.
const BLOCK_BAD: &str = "-----BEGIN CERTIFICATE-----\n!!!!\n-----END CERTIFICATE-----\n";

fn response(leaf: &str, bundle: &str) -> SevSnpCertResponse {
    SevSnpCertResponse {
        cache_control: None,
        vcek_cert: leaf.to_string(),
        tcbm: "00".to_string(),
        certificate_chain: bundle.to_string(),
    }
}

#[test]
fn two_block_bundle_assigns_by_position() {
    let bundle = format!("{}{}", BLOCK_ZEROS, BLOCK_ONE_TWO_THREE);
    let chain = response(BLOCK_NINES, &bundle).vcek_chain().unwrap();
    assert_eq!(chain.vcek.contents, vec![9, 9, 9]);
    assert_eq!(chain.ask.contents, vec![0, 0, 0]);
    assert_eq!(chain.ark.contents, vec![1, 2, 3]);
}

#[test]
fn blocks_beyond_the_second_are_ignored() {
    let bundle = format!("{}{}{}", BLOCK_ZEROS, BLOCK_ONE_TWO_THREE, BLOCK_NINES);
    let chain = response(BLOCK_NINES, &bundle).vcek_chain().unwrap();
    assert_eq!(chain.ask.contents, vec![0, 0, 0]);
    assert_eq!(chain.ark.contents, vec![1, 2, 3]);
}

#[test]
fn empty_bundle_is_a_validation_error() {
    let e = response(BLOCK_NINES, "").vcek_chain().unwrap_err();
    assert!(matches!(e, Error::ValidationError(m) if m == "missing ASK PEM block"));
}

#[test]
fn one_block_bundle_is_a_validation_error() {
    let e = response(BLOCK_NINES, BLOCK_ZEROS).vcek_chain().unwrap_err();
    assert!(matches!(e, Error::ValidationError(m) if m == "missing ARK PEM block"));
}

#[test]
fn malformed_leaf_is_a_validation_error() {
    let bundle = format!("{}{}", BLOCK_ZEROS, BLOCK_ONE_TWO_THREE);
    let e = response("no pem here", &bundle).vcek_chain().unwrap_err();
    assert!(matches!(e, Error::ValidationError(m) if m == "failed to parse VCEK PEM"));
}

#[test]
fn malformed_first_bundle_block_is_a_validation_error() {
    let bundle = format!("{}{}", BLOCK_BAD, BLOCK_ONE_TWO_THREE);
    let e = response(BLOCK_NINES, &bundle).vcek_chain().unwrap_err();
    assert!(matches!(e, Error::ValidationError(m) if m == "failed to parse ASK PEM"));
}

#[test]
fn malformed_second_bundle_block_is_a_validation_error() {
    let bundle = format!("{}{}", BLOCK_ZEROS, BLOCK_BAD);
    let e = response(BLOCK_NINES, &bundle).vcek_chain().unwrap_err();
    assert!(matches!(e, Error::ValidationError(m) if m == "failed to parse ARK PEM"));
}

#[test]
fn leaf_label_is_preserved() {
    let bundle = format!("{}{}", BLOCK_ZEROS, BLOCK_ONE_TWO_THREE);
    let chain = response(BLOCK_NINES, &bundle).vcek_chain().unwrap();
    assert_eq!(chain.vcek.label, "CERTIFICATE");
}
