//! Executable string comparison.
//!
//! The standard library's equality on `&str` carries no specification, so the
//! library compares the UTF-8 encodings itself and relates the outcome to the
//! character sequences through the injectivity of the encoding.

use vstd::prelude::*;
use vstd::string::StrSliceExecFns;
use vstd::string::StringSliceAdditionalSpecFns;

verus! {

/// Two string slices have equal byte encodings exactly when they hold the
/// same characters: UTF-8 encoding is injective.
proof fn lemma_encoding_injective(a: &str, b: &str)
    ensures
        (a.spec_bytes() == b.spec_bytes()) <==> (a@ == b@),
{
    vstd::utf8::encode_utf8_decode_utf8(a@);
    vstd::utf8::encode_utf8_decode_utf8(b@);
}

/// Compares two string slices character for character.
pub fn str_eq(a: &str, b: &str) -> (r: bool)
    ensures
        r == (a@ == b@),
{
    let av = a.as_bytes_vec();
    let bv = b.as_bytes_vec();
    proof {
        lemma_encoding_injective(a, b);
    }
    if av.len() != bv.len() {
        return false;
    }
    let n = av.len();
    let mut i: usize = 0;
    while i < n
        invariant
            n == av@.len(),
            n == bv@.len(),
            i <= n,
            av@ == a.spec_bytes(),
            bv@ == b.spec_bytes(),
            forall|j: int| 0 <= j < i ==> av@[j] == bv@[j],
        decreases n - i,
    {
        if av[i] != bv[i] {
            proof {
                lemma_encoding_injective(a, b);
                if a@ == b@ {
                    assert(av@[i as int] == bv@[i as int]);
                }
            }
            return false;
        }
        i += 1;
    }
    proof {
        assert(av@ =~= bv@);
    }
    true
}

} // verus!
