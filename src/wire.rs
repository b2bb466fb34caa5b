use vstd::prelude::*;

use crate::bundle::{decodes_to, parse_bundle, well_formed, KeyBundle};
use crate::error::AgentError;

verus! {

/// The bytes that the standard base64 alphabet, with padding, decodes from `s`, if any.
pub uninterp spec fn base64_decoded(s: Seq<char>) -> Option<Seq<u8>>;

/// The text that the standard base64 alphabet, with padding, encodes `b` as.
pub uninterp spec fn base64_encoded(b: Seq<u8>) -> Seq<char>;

/// Relies on base64::decode (standard alphabet, padded): `None` where the text is no
/// base64. Its length check cannot overflow, as no `str` is longer than `isize::MAX`.
#[verifier::external_body]
fn decode_base64(s: &str) -> (r: Option<Vec<u8>>)
    ensures
        match r {
            Some(v) => base64_decoded(s@) == Some(v@),
            None => base64_decoded(s@) is None,
        },
{
    base64::decode(s).ok()
}

/// Relies on base64::encode (standard alphabet, padded): four characters for each
/// started group of three bytes. It panics where that length overflows `usize`.
#[verifier::external_body]
pub(crate) fn encode_base64(b: &[u8]) -> (r: String)
    requires
        4 * ((b@.len() + 2) / 3) <= usize::MAX,
    ensures
        r@ == base64_encoded(b@),
        r@.len() == 4 * ((b@.len() + 2) / 3),
{
    base64::encode(b)
}

/// Takes a bundle off its transport text: base64, then the binary layout.
/// Text that is no base64 is a `MalformedBundle`, as is a broken layout.
pub fn read_bundle(text: &str) -> (r: Result<KeyBundle, AgentError>)
    ensures
        match base64_decoded(text@) {
            None => r == Err::<KeyBundle, AgentError>(AgentError::MalformedBundle),
            Some(b) => {
                &&& r.is_ok() <==> well_formed(b)
                &&& r is Err ==> r == Err::<KeyBundle, AgentError>(AgentError::MalformedBundle)
                &&& r matches Ok(k) ==> decodes_to(b, k)
            },
        },
{
    match decode_base64(text) {
        None => Err(AgentError::MalformedBundle),
        Some(bytes) => parse_bundle(bytes.as_slice()),
    }
}

} // verus!
