use vstd::prelude::*;
use zeroize::Zeroize;

verus! {

/// Overwrites the text of a secret in memory and leaves the string empty.
///
/// Relies on `zeroize`'s `Zeroize` for `String`: it zeroes every byte in use
/// and the spare capacity, then clears the string.
#[verifier::external_body]
pub(crate) fn wipe(secret: &mut String)
    ensures
        final(secret)@ == Seq::<char>::empty(),
{
    secret.zeroize();
}

/// The bytes that overwrite a file of `len` bytes at rest: `len` zeros.
pub open spec fn zeros(len: nat) -> Seq<u8> {
    Seq::new(len, |i: int| 0u8)
}

/// Builds the buffer that overwrites a captured file before it is removed.
pub fn zero_fill(len: usize) -> (r: Vec<u8>)
    ensures
        r@ == zeros(len as nat),
{
    let mut r: Vec<u8> = Vec::with_capacity(len);
    let mut i: usize = 0;
    while i < len
        invariant
            i <= len,
            r@ == zeros(i as nat),
        decreases len - i,
    {
        r.push(0u8);
        i = i + 1;
        assert(r@ =~= zeros(i as nat));
    }
    r
}

/// Overwriting with zeros leaves nothing of a plaintext that held any byte
/// other than zero: the new content differs from it.
pub proof fn lemma_zeros_hide_plaintext(plain: Seq<u8>, i: int)
    requires
        0 <= i < plain.len(),
        plain[i] != 0u8,
    ensures
        zeros(plain.len()) != plain,
        zeros(plain.len()).len() == plain.len(),
{
    assert(zeros(plain.len())[i] == 0u8);
}

} // verus!
