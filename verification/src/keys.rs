use vstd::prelude::*;

verus! {

/// An account identity on the surrounding ledger: 32 opaque bytes. The core
/// never interprets a key; it only stores keys and compares them for
/// equality in authorization gates.
pub type Pubkey = [u8; 32];

/// Byte-for-byte equality of two keys. Every authorization decision in the
/// crate comes down to one call of this.
pub fn keys_equal(a: &Pubkey, b: &Pubkey) -> (r: bool)
    ensures
        r <==> *a == *b,
{
    let mut i: usize = 0;
    while i < 32
        invariant
            i <= 32,
            forall|j: int| 0 <= j < i ==> a[j] == b[j],
        decreases 32 - i,
    {
        if a[i] != b[i] {
            return false;
        }
        i = i + 1;
    }
    assert(*a =~= *b);
    true
}

} // verus!
