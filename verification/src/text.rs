//! Small verified helpers on text: equality of string slices and byte access
//! to ASCII text.

use vstd::prelude::*;
use vstd::string::StringSliceAdditionalSpecFns;

verus! {

/// Whether two string slices hold the same characters.
///
/// The comparison runs over the UTF-8 bytes; the encoding is injective, so
/// equal bytes mean equal characters.
pub fn str_eq(a: &str, b: &str) -> (r: bool)
    ensures
        r == (a@ == b@),
{
    let x = a.as_bytes();
    let y = b.as_bytes();
    proof {
        vstd::utf8::encode_utf8_decode_utf8(a@);
        vstd::utf8::encode_utf8_decode_utf8(b@);
    }
    if x.len() != y.len() {
        return false;
    }
    let mut i: usize = 0;
    while i < x.len()
        invariant
            i <= x.len(),
            x.len() == y.len(),
            x@ == a.spec_bytes(),
            y@ == b.spec_bytes(),
            forall|j: int| 0 <= j < i ==> x@[j] == y@[j],
        decreases x.len() - i,
    {
        if x[i] != y[i] {
            return false;
        }
        i += 1;
    }
    assert(x@ =~= y@);
    true
}

/// The bytes of `s` when every character of it is ASCII, one byte for each
/// character; `None` when some character is not.
pub fn ascii_bytes(s: &str) -> (r: Option<&[u8]>)
    ensures
        r is Some <==> vstd::utf8::is_ascii_chars(s@),
        r matches Some(bytes) ==> {
            &&& bytes@.len() == s@.len()
            &&& forall|i: int| 0 <= i < s@.len() ==> #[trigger] bytes@[i] == s@[i] as u8
        },
{
    if s.is_ascii() {
        proof {
            vstd::utf8::is_ascii_chars_encode_utf8(s@);
        }
        Some(s.as_bytes())
    } else {
        None
    }
}

} // verus!
