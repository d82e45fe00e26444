//! Extraction of the SEV-SNP certificate chain from the certificate
//! endpoint's response: one standalone PEM block for the leaf, and a
//! two-block PEM bundle for the intermediate and root certificates, assigned
//! by position as the wire contract gives them. Nothing here verifies
//! signatures or inspects certificate fields; this layer performs structural
//! PEM decoding and positional assignment only.

use vstd::prelude::*;

use crate::error::Error;

verus! {

#[verifier::external_type_specification]
#[verifier::external_body]
pub struct ExPem(x509_parser::pem::Pem);

/// Whether the first PEM block of a text is present and well formed, as
/// `parse_x509_pem` judges it; lines before the first block marker are
/// skipped.
pub uninterp spec fn pem_parses(s: Seq<char>) -> bool;

/// The outcomes of iterating the PEM blocks of a text, in file order: one
/// entry per block found, `true` when the block is well formed and `false`
/// when it is present but malformed.
pub uninterp spec fn pem_block_outcomes(s: Seq<char>) -> Seq<bool>;

/// The first PEM block of a text whose first block is well formed.
pub uninterp spec fn pem_first_of(s: Seq<char>) -> x509_parser::pem::Pem;

/// The well-formed PEM block at a position of the iteration over a text's
/// blocks.
pub uninterp spec fn pem_block_of(s: Seq<char>, i: int) -> x509_parser::pem::Pem;

/// Relies on x509_parser's `parse_x509_pem`: whether a text's first PEM
/// block is well formed, and which block it is, depend on the text alone.
#[verifier::external_body]
fn parse_single_pem(text: &str) -> (r: Option<x509_parser::pem::Pem>)
    ensures
        r is Some <==> pem_parses(text@),
        r matches Some(p) ==> p == pem_first_of(text@),
{
    match x509_parser::pem::parse_x509_pem(text.as_bytes()) {
        Ok((_rem, pem)) => Some(pem),
        Err(_) => None,
    }
}

/// Relies on `Pem::iter_from_buffer`: the sequence of block outcomes the
/// iterator yields depends on the text alone. Returns the first two steps of
/// the iteration; after a malformed first block nothing is claimed of the
/// second step.
#[verifier::external_body]
fn first_two_pem_blocks(text: &str) -> (r: (
    Option<Option<x509_parser::pem::Pem>>,
    Option<Option<x509_parser::pem::Pem>>,
))
    ensures
        r.0 is None <==> pem_block_outcomes(text@).len() == 0,
        r.0 matches Some(first) ==> pem_block_outcomes(text@).len() >= 1 && (first is Some
            <==> pem_block_outcomes(text@)[0]),
        pem_block_outcomes(text@).len() >= 1 && pem_block_outcomes(text@)[0] ==> (r.1 is None
            <==> pem_block_outcomes(text@).len() == 1),
        pem_block_outcomes(text@).len() >= 1 && pem_block_outcomes(text@)[0] ==> (
        r.1 matches Some(second) ==> pem_block_outcomes(text@).len() >= 2 && (second is Some
            <==> pem_block_outcomes(text@)[1])),
        r.0 matches Some(Some(p)) ==> p == pem_block_of(text@, 0),
        pem_block_outcomes(text@).len() >= 1 && pem_block_outcomes(text@)[0] ==> (
        r.1 matches Some(Some(p)) ==> p == pem_block_of(text@, 1)),
{
    let mut iter = x509_parser::pem::Pem::iter_from_buffer(text.as_bytes());
    let first = match iter.next() {
        None => None,
        Some(Ok(p)) => Some(Some(p)),
        Some(Err(_)) => Some(None),
    };
    let second = match iter.next() {
        None => None,
        Some(Ok(p)) => Some(Some(p)),
        Some(Err(_)) => Some(None),
    };
    (first, second)
}

/// The VCEK, ASK and ARK certificates as decoded PEM blocks. Assignment is
/// positional: the leaf from the standalone text, the intermediate and root
/// from the first and second bundle blocks, in that fixed order, trusted as
/// the wire contract gives them.
#[derive(Debug)]
pub struct VcekChain {
    /// VCEK leaf certificate.
    pub vcek: x509_parser::pem::Pem,
    /// ASK intermediate certificate.
    pub ask: x509_parser::pem::Pem,
    /// ARK root certificate.
    pub ark: x509_parser::pem::Pem,
}

/// Response body of the AMD certificate endpoint.
#[derive(Debug, Clone, PartialEq, Eq)]
pub struct SevSnpCertResponse {
    /// Cache-control text returned by the service, when present.
    pub cache_control: Option<String>,
    /// VCEK leaf certificate (PEM).
    pub vcek_cert: String,
    /// Trusted-computing-base measurement, passed through opaquely.
    pub tcbm: String,
    /// Concatenated ASK and ARK certificate chain (PEM).
    pub certificate_chain: String,
}

/// Whether chain extraction succeeds: the leaf text parses as a PEM block,
/// and the bundle yields at least two blocks whose first two are well formed.
/// Blocks beyond the second are ignored.
pub open spec fn chain_extract_ok(leaf: Seq<char>, bundle: Seq<char>) -> bool {
    &&& pem_parses(leaf)
    &&& pem_block_outcomes(bundle).len() >= 1
    &&& pem_block_outcomes(bundle)[0]
    &&& pem_block_outcomes(bundle).len() >= 2
    &&& pem_block_outcomes(bundle)[1]
}

impl SevSnpCertResponse {
    /// Extracts the three-certificate chain: the standalone leaf text becomes
    /// the VCEK, the first bundle block the ASK, the second the ARK. Any
    /// structural failure or missing block is a validation error naming the
    /// certificate it concerns.
    pub fn vcek_chain(&self) -> (r: Result<VcekChain, Error>)
        ensures
            r is Ok <==> chain_extract_ok(self.vcek_cert@, self.certificate_chain@),
            r matches Ok(c) ==> c.vcek == pem_first_of(self.vcek_cert@) && c.ask == pem_block_of(
                self.certificate_chain@,
                0,
            ) && c.ark == pem_block_of(self.certificate_chain@, 1),
            !pem_parses(self.vcek_cert@) ==> (r matches Err(e) && e matches Error::ValidationError(
                m,
            ) && m@ == "failed to parse VCEK PEM"@),
            pem_parses(self.vcek_cert@) && pem_block_outcomes(self.certificate_chain@).len() == 0
                ==> (r matches Err(e) && e matches Error::ValidationError(m) && m@
                == "missing ASK PEM block"@),
            pem_parses(self.vcek_cert@) && pem_block_outcomes(self.certificate_chain@).len() >= 1
                && !pem_block_outcomes(self.certificate_chain@)[0] ==> (r matches Err(e)
                && e matches Error::ValidationError(m) && m@ == "failed to parse ASK PEM"@),
            pem_parses(self.vcek_cert@) && pem_block_outcomes(self.certificate_chain@) =~= seq![
                true,
            ] ==> (r matches Err(e) && e matches Error::ValidationError(m) && m@
                == "missing ARK PEM block"@),
            pem_parses(self.vcek_cert@) && pem_block_outcomes(self.certificate_chain@).len() >= 2
                && pem_block_outcomes(self.certificate_chain@)[0] && !pem_block_outcomes(
                self.certificate_chain@,
            )[1] ==> (r matches Err(e) && e matches Error::ValidationError(m) && m@
                == "failed to parse ARK PEM"@),
    {
        let vcek = match parse_single_pem(self.vcek_cert.as_str()) {
            Some(p) => p,
            None => {
                return Err(Error::ValidationError("failed to parse VCEK PEM".to_owned()));
            },
        };
        let blocks = first_two_pem_blocks(self.certificate_chain.as_str());
        let ask = match blocks.0 {
            Some(Some(p)) => p,
            Some(None) => {
                return Err(Error::ValidationError("failed to parse ASK PEM".to_owned()));
            },
            None => {
                return Err(Error::ValidationError("missing ASK PEM block".to_owned()));
            },
        };
        let ark = match blocks.1 {
            Some(Some(p)) => p,
            Some(None) => {
                return Err(Error::ValidationError("failed to parse ARK PEM".to_owned()));
            },
            None => {
                return Err(Error::ValidationError("missing ARK PEM block".to_owned()));
            },
        };
        Ok(VcekChain { vcek, ask, ark })
    }
}

} // verus!
