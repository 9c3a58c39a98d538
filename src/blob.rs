//! Binary blobs in the standard, padded base64 alphabet.
use vstd::prelude::*;

verus! {

/// The text that the standard padded base64 engine writes for some bytes.
pub uninterp spec fn base64_text(b: Seq<u8>) -> Seq<char>;

/// The text is the encoding of some bytes.
pub open spec fn base64_decodable(s: Seq<char>) -> bool {
    exists|b: Seq<u8>| s == base64_text(b)
}

#[verifier::external_type_specification]
#[verifier::external_body]
pub struct ExDecodeError(base64::DecodeError);

/// Relies on base64's `BASE64_STANDARD.encode`: the text depends on the
/// bytes alone.
#[verifier::external_body]
pub(crate) fn base64_encode(b: &[u8]) -> (r: String)
    ensures
        r@ == base64_text(b@),
{
    base64::Engine::encode(&base64::prelude::BASE64_STANDARD, b)
}

/// Relies on base64's `BASE64_STANDARD.decode`: it asks for canonical
/// padding and no trailing bits, so it reads exactly the texts that
/// `encode` writes, each back to its bytes.
#[verifier::external_body]
pub(crate) fn base64_decode(s: &str) -> (r: Result<Vec<u8>, base64::DecodeError>)
    ensures
        r is Ok ==> s@ == base64_text(r->Ok_0@),
        forall|b: Seq<u8>| s@ == #[trigger] base64_text(b) ==> r is Ok && r->Ok_0@ == b,
{
    base64::Engine::decode(&base64::prelude::BASE64_STANDARD, s)
}

} // verus!
