use vstd::prelude::*;

verus! {

/// The 32 big-endian bytes of the 256-bit unsigned integer `x`.
pub open spec fn word_of_u64(x: u64) -> Seq<u8> {
    Seq::new(32, |i: int| if i < 24 { 0u8 } else { ((x >> ((31 - i) * 8) as u64) & 0xff) as u8 })
}

/// The 256-bit unsigned integer `x`, as 32 big-endian bytes.
pub fn word_from_u64(x: u64) -> (r: [u8; 32])
    ensures
        r@ == word_of_u64(x),
{
    let mut r: [u8; 32] = [0u8; 32];
    let mut i: usize = 24;
    while i < 32
        invariant
            24 <= i <= 32,
            r@.len() == 32,
            forall|j: int| 0 <= j < 24 ==> r@[j] == 0u8,
            forall|j: int| 24 <= j < i ==> r@[j] == word_of_u64(x)[j],
        decreases 32 - i,
    {
        let shift: u64 = ((31 - i) * 8) as u64;
        r[i] = ((x >> shift) & 0xff) as u8;
        i = i + 1;
    }
    assert(r@ =~= word_of_u64(x));
    r
}

} // verus!
