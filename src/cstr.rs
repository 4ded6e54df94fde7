use vstd::prelude::*;
use vstd::utf8::encode_utf8;

verus! {

/// Whether the UTF-8 encoding of `s` holds no zero byte, so that the native
/// layer can take it as a zero-terminated string.
pub open spec fn nul_free(s: Seq<char>) -> bool {
    forall|i: int| 0 <= i < encode_utf8(s).len() ==> encode_utf8(s)[i] != 0u8
}

/// Tells whether `s` can be handed to the native layer as a zero-terminated
/// string, that is whether its bytes hold no zero.
pub fn is_nul_free(s: &str) -> (r: bool)
    ensures
        r == nul_free(s@),
{
    let bytes = s.as_bytes();
    let mut i: usize = 0;
    while i < bytes.len()
        invariant
            bytes@ == encode_utf8(s@),
            i <= bytes@.len(),
            forall|j: int| 0 <= j < i ==> bytes@[j] != 0u8,
        decreases bytes@.len() - i,
    {
        if bytes[i] == 0u8 {
            return false;
        }
        i = i + 1;
    }
    true
}

/// The empty string is a valid zero-terminated string.
pub proof fn lemma_empty_nul_free()
    ensures
        nul_free(Seq::<char>::empty()),
{
    assert(encode_utf8(Seq::<char>::empty()) =~= Seq::<u8>::empty());
}

} // verus!
