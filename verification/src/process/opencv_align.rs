//! Alignment with OpenCV: the names of the aligned files it writes.

use vstd::prelude::*;

use crate::text::{push_decimal, push_str, push_zero_padded};

verus! {

/// `PREFIX_set_S_NNNN.tif`: the aligned image `idx` (counted from 0) of set
/// `set_idx`, numbered from 1 with four digits.
pub open spec fn aligned_name_text(prefix: Seq<char>, set_idx: nat, idx: nat) -> Seq<char> {
    prefix + "_set_"@ + crate::text::decimal(set_idx) + "_"@ + crate::text::zero_padded(idx + 1, 4)
        + ".tif"@
}

fn aligned_name(prefix: &str, set_idx: usize, idx: usize) -> (r: String)
    requires
        idx < u64::MAX,
    ensures
        r@ == aligned_name_text(prefix@, set_idx as nat, idx as nat),
{
    let mut m = String::new();
    push_str(&mut m, prefix);
    push_str(&mut m, "_set_");
    push_decimal(&mut m, set_idx as u64);
    push_str(&mut m, "_");
    push_zero_padded(&mut m, (idx as u64) + 1, 4);
    push_str(&mut m, ".tif");
    m
}

/// The file that OpenCV's median threshold bitmap alignment writes for image `idx`
/// of set `set_idx`.
pub fn opencv_aligned_name(set_idx: usize, idx: usize) -> (r: String)
    requires
        idx < u64::MAX,
    ensures
        r@ == aligned_name_text("opencv"@, set_idx as nat, idx as nat),
{
    aligned_name("opencv", set_idx, idx)
}

/// The file that the key point alignment writes for image `idx` of set `set_idx`.
pub fn keypoint_aligned_name(set_idx: usize, idx: usize) -> (r: String)
    requires
        idx < u64::MAX,
    ensures
        r@ == aligned_name_text("opencv_kp"@, set_idx as nat, idx as nat),
{
    aligned_name("opencv_kp", set_idx, idx)
}

} // verus!
