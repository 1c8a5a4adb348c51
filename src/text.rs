//! Byte strings as the platform hands them over: NUL-terminated buffers.

use vstd::prelude::*;

verus! {

/// What `String::from_utf8_lossy` makes of a byte sequence.
pub uninterp spec fn utf8_lossy(b: Seq<u8>) -> Seq<char>;

/// Number of bytes before the first NUL of `b`, or the length of `b` if it
/// holds none.
pub open spec fn c_len(b: Seq<u8>) -> nat
    decreases b.len(),
{
    if b.len() == 0 || b[0] == 0 {
        0
    } else {
        1 + c_len(b.drop_first())
    }
}

/// The bytes of `b` before its first NUL.
pub open spec fn nul_prefix(b: Seq<u8>) -> Seq<u8> {
    b.take(c_len(b) as int)
}

/// The text of a NUL-terminated buffer, decoded lossily.
pub open spec fn c_text(b: Seq<u8>) -> Seq<char> {
    utf8_lossy(nul_prefix(b))
}

/// `c_len` is the index of the first NUL, or the length.
pub proof fn lemma_c_len_first_nul(b: Seq<u8>, n: int)
    requires
        0 <= n <= b.len(),
        forall|i: int| 0 <= i < n ==> b[i] != 0,
        n == b.len() || b[n] == 0,
    ensures
        c_len(b) == n,
    decreases n,
{
    if n > 0 {
        let t = b.drop_first();
        assert forall|i: int| 0 <= i < n - 1 implies t[i] != 0 by {
            assert(t[i] == b[i + 1]);
        }
        if n - 1 < t.len() {
            assert(t[n - 1] == b[n]);
        }
        lemma_c_len_first_nul(t, n - 1);
    }
}

/// Relies on `String::from_utf8_lossy`: the decoded text depends on the
/// bytes alone.
#[verifier::external_body]
fn decode_lossy(b: &[u8]) -> (r: String)
    ensures
        r@ == utf8_lossy(b@),
{
    String::from_utf8_lossy(b).into_owned()
}

/// Index of the first NUL byte of `b`, or its length if it holds none.
pub fn nul_position(b: &[u8]) -> (n: usize)
    ensures
        n == c_len(b@),
        n <= b@.len(),
{
    let mut i: usize = 0;
    while i < b.len() && b[i] != 0
        invariant
            i <= b.len(),
            forall|j: int| 0 <= j < i ==> b@[j] != 0,
        decreases b.len() - i,
    {
        i = i + 1;
    }
    proof {
        lemma_c_len_first_nul(b@, i as int);
    }
    i
}

/// The text of a NUL-terminated buffer: the bytes before the first NUL (all
/// of them when there is none), decoded with replacement of invalid
/// sequences.
pub fn c_string_lossy(b: &[u8]) -> (r: String)
    ensures
        r@ == c_text(b@),
{
    let n = nul_position(b);
    let (head, _) = b.split_at(n);
    proof {
        assert(head@ == nul_prefix(b@));
    }
    decode_lossy(head)
}

} // verus!
