//! The digest behind the commit-reveal workflow: a poll creator commits
//! the SHA-256 of the correct answer's text, and the reveal is checked
//! against it.

use vstd::prelude::*;

verus! {

/// The SHA-256 digest, 32 bytes, of the UTF-8 encoding of a text. The
/// digest is a function of the text alone: the same text always commits
/// to the same 32 bytes, so an answer whose digest equals the stored one
/// is accepted on reveal.
pub uninterp spec fn sha256_of_text(s: Seq<char>) -> Seq<u8>;

/// Relies on `solana_program::hash::hash`: the SHA-256 digest of the
/// input bytes, here the UTF-8 bytes of the text, depending on nothing
/// but the text itself.
#[verifier::external_body]
pub(crate) fn hash_text(s: &str) -> (r: Vec<u8>)
    ensures
        r@ == sha256_of_text(s@),
        r@.len() == 32,
{
    solana_program::hash::hash(s.as_bytes()).to_bytes().to_vec()
}

/// Byte-for-byte comparison of two digests.
pub(crate) fn bytes_eq(a: &Vec<u8>, b: &Vec<u8>) -> (r: bool)
    ensures
        r == (a@ == b@),
{
    if a.len() != b.len() {
        assert(a@ != b@);
        return false;
    }
    let n = a.len();
    let mut i: usize = 0;
    while i < n
        invariant
            i <= n,
            n == a@.len() == b@.len(),
            forall|k: int| 0 <= k < i ==> a@[k] == b@[k],
        decreases n - i,
    {
        if a[i] != b[i] {
            return false;
        }
        i = i + 1;
    }
    proof {
        assert(a@ =~= b@);
    }
    true
}

} // verus!
