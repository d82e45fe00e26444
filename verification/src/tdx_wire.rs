//! Wire protocol of the TDX quote exchange: a raw byte payload travels as
//! unpadded base64url text inside JSON request and response bodies.

use vstd::prelude::*;

use crate::error::Error;

verus! {

/// The unpadded base64url text of a byte sequence, as the URL-safe no-pad
/// engine produces it.
pub uninterp spec fn b64url_encoding(b: Seq<u8>) -> Seq<char>;

/// The byte sequence an unpadded base64url text stands for, or `None` when
/// the text is malformed: wrong alphabet, padding characters, or a truncated
/// group.
pub uninterp spec fn b64url_decoding(s: Seq<char>) -> Option<Seq<u8>>;

/// Relies on base64's `URL_SAFE_NO_PAD` engine: the encoding depends on the
/// input bytes alone, and decoding the encoded text yields the original
/// bytes, for every byte sequence including the empty one.
#[verifier::external_body]
fn b64url_encode(bytes: &[u8]) -> (r: String)
    ensures
        r@ == b64url_encoding(bytes@),
        b64url_decoding(r@) == Some(bytes@),
        bytes@.len() == 0 ==> r@.len() == 0,
{
    base64::Engine::encode(&base64::engine::general_purpose::URL_SAFE_NO_PAD, bytes)
}

/// Relies on base64's `URL_SAFE_NO_PAD` engine: whether text decodes, and to
/// what, depends on the text alone.
#[verifier::external_body]
fn b64url_decode(text: &str) -> (r: Option<Vec<u8>>)
    ensures
        match r {
            Some(v) => b64url_decoding(text@) == Some(v@),
            None => b64url_decoding(text@) is None,
        },
{
    base64::Engine::decode(&base64::engine::general_purpose::URL_SAFE_NO_PAD, text).ok()
}

/// Request body of the quote exchange: the raw hardware report as unpadded
/// base64url text.
#[derive(Debug)]
pub struct TdQuoteRequest {
    pub report_b64url: String,
}

impl TdQuoteRequest {
    /// Encodes a raw report for transport; decoding the transported text
    /// yields the original bytes again, and an empty report yields empty
    /// text.
    pub fn from_bytes(td_report: &[u8]) -> (r: Self)
        ensures
            r.report_b64url@ == b64url_encoding(td_report@),
            b64url_decoding(r.report_b64url@) == Some(td_report@),
            td_report@.len() == 0 ==> r.report_b64url@.len() == 0,
    {
        TdQuoteRequest { report_b64url: b64url_encode(td_report) }
    }
}

/// Response body of the quote exchange: the quote bytes as unpadded base64url
/// text.
#[derive(Debug)]
pub struct TdQuoteResponse {
    pub quote_b64url: String,
}

impl TdQuoteResponse {
    /// Decodes the transported quote text, rejecting malformed base64url with
    /// a base64 error.
    pub fn quote_bytes(&self) -> (r: Result<Vec<u8>, Error>)
        ensures
            r is Ok <==> b64url_decoding(self.quote_b64url@) is Some,
            r matches Ok(v) ==> b64url_decoding(self.quote_b64url@) == Some(v@),
            r matches Err(e) ==> e == Error::Base64,
    {
        match b64url_decode(self.quote_b64url.as_str()) {
            Some(v) => Ok(v),
            None => Err(Error::Base64),
        }
    }
}

} // verus!
