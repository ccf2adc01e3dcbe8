use vstd::prelude::*;

verus! {

/// The text that decoding a byte sequence from the site's legacy Chinese
/// encoding (GBK) yields. The decoder is a pure function of the bytes:
/// malformed sequences become replacement characters, never an error.
pub uninterp spec fn spec_gbk_decoded(bytes: Seq<u8>) -> Seq<char>;

/// Relies on encoding_rs::GBK (Encoding::decode): decoding is a function of
/// the input bytes alone, replaces malformed sequences with replacement
/// characters, and never fails.
#[verifier::external_body]
fn gbk_decode(bytes: &Vec<u8>) -> (r: String)
    ensures
        r@ == spec_gbk_decoded(bytes@),
{
    let (text, _, _) = encoding_rs::GBK.decode(bytes);
    text.into_owned()
}

/// Decodes a raw response body from the site's legacy encoding into text.
/// Every byte sequence decodes; malformed input yields replacement
/// characters rather than an error.
pub fn decode_page(bytes: &Vec<u8>) -> (r: String)
    ensures
        r@ == spec_gbk_decoded(bytes@),
{
    gbk_decode(bytes)
}

} // verus!
