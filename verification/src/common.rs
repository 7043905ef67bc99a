use vstd::prelude::*;

verus! {

/// Returns bit `n` of `v` (0 or 1).
pub fn get_bit(v: u8, n: u8) -> (b: u8)
    requires
        n < 8,
    ensures
        b == (v >> n) & 1,
        b <= 1,
{
    let r: u8 = (v >> n) & 1;
    assert(((v >> n) & 1) <= 1) by (bit_vector);
    r
}

} // verus!
