//! The source of randomness: one uniform draw below a bound, from the
//! thread-local generator.
use rand::Rng;
use vstd::prelude::*;

verus! {

/// Relies on `rand::thread_rng` and `Rng::gen_range` over `0..n`: the draw
/// lies in the range, which is never empty here (`gen_range` panics only on
/// an empty range).
#[verifier::external_body]
fn random_below(n: u64) -> (r: u64)
    requires
        n > 0,
    ensures
        r < n,
{
    rand::thread_rng().gen_range(0..n)
}

/// A uniformly drawn index into a sequence of `len` elements.
pub fn random_index(len: usize) -> (r: usize)
    requires
        len > 0,
    ensures
        r < len,
{
    random_below(len as u64) as usize
}

/// A uniformly drawn integer in `lo..=hi`.
pub fn random_in_range(lo: i32, hi: i32) -> (r: i32)
    requires
        lo <= hi,
    ensures
        lo <= r <= hi,
{
    let span: u64 = (hi as i64 - lo as i64 + 1) as u64;
    let offset = random_below(span);
    offset_in_range(lo, hi, offset)
}

/// The integer `offset` places above `lo`, within `lo..=hi`.
pub fn offset_in_range(lo: i32, hi: i32, offset: u64) -> (r: i32)
    requires
        lo <= hi,
        offset <= hi - lo,
    ensures
        r == lo + offset,
{
    (lo as i64 + offset as i64) as i32
}

} // verus!
