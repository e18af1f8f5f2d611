//! Bringing an image under a byte budget: whether it already fits, and
//! otherwise by how much it is to shrink.

use vstd::prelude::*;

verus! {

/// How an image of `len` bytes is brought under `limit` bytes: `None` where
/// it already fits (its length, cut to 32 bits, is under the limit), and
/// otherwise the ratio of that length to the limit, which is the square of
/// the factor its sides are divided by.
pub fn shrink_ratio(len: usize, limit: u32) -> (r: Option<u32>)
    requires
        (len as u32) < limit || limit > 0,
    ensures
        r == if (len as u32) < limit {
            None
        } else {
            Some(((len as u32) / limit) as u32)
        },
{
    let n = len as u32;
    if n < limit {
        None
    } else {
        Some(n / limit)
    }
}

} // verus!
