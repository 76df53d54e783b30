use vstd::prelude::*;

verus! {

/// `a + b` modulo 256, in a form that cannot unwind.
pub fn add_u8(a: u8, b: u8) -> (sum: u8)
    ensures
        sum == a.wrapping_add(b),
    no_unwind
{
    let wide = a as u16 + b as u16;
    if wide >= 256 {
        (wide - 256) as u8
    } else {
        wide as u8
    }
}

/// `a + b` modulo 2^usize::BITS, in a form that cannot unwind.
pub fn add_usize(a: usize, b: usize) -> (sum: usize)
    ensures
        sum == a.wrapping_add(b),
    no_unwind
{
    if a <= usize::MAX - b {
        a + b
    } else {
        b - (usize::MAX - a) - 1
    }
}

} // verus!
