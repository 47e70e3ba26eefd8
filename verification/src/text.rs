//! Comparing texts and reading them from raw bytes.

use vstd::prelude::*;
use vstd::string::*;
use vstd::utf8::*;

verus! {

/// True when `a` and `b` are the same text, character for character.
pub fn same_text(a: &str, b: &str) -> (same: bool)
    ensures
        same == (a@ == b@),
{
    let x = a.as_bytes();
    let y = b.as_bytes();
    if x.len() != y.len() {
        return false;
    }
    let mut i: usize = 0;
    while i < x.len()
        invariant
            x@ == encode_utf8(a@),
            y@ == encode_utf8(b@),
            x@.len() == y@.len(),
            i <= x@.len(),
            forall|k: int| 0 <= k < i ==> x@[k] == y@[k],
        decreases x@.len() - i,
    {
        if x[i] != y[i] {
            return false;
        }
        i = i + 1;
    }
    proof {
        assert(x@ =~= y@);
        encode_utf8_decode_utf8(a@);
        encode_utf8_decode_utf8(b@);
    }
    true
}

/// The text that a lossy reading of `bytes` as UTF-8 gives: the decoded
/// characters, with each malformed stretch replaced by U+FFFD.
pub uninterp spec fn lossy_text(bytes: Seq<u8>) -> Seq<char>;

/// Reads `bytes` as UTF-8 text by `String::from_utf8_lossy` of the standard
/// library. Trusted, not proved: the result is a function of the bytes alone,
/// named `lossy_text`, and bytes that are well-formed UTF-8 are decoded as
/// they stand.
#[verifier::external_body]
pub(crate) fn decode_lossy(bytes: &[u8]) -> (text: String)
    ensures
        text@ == lossy_text(bytes@),
        valid_utf8(bytes@) ==> text@ == decode_utf8(bytes@),
{
    String::from_utf8_lossy(bytes).into_owned()
}

} // verus!
