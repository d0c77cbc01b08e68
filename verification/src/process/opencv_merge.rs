//! Merging with OpenCV's Debevec and Robertson methods: the checks made on a set.

use vstd::prelude::*;

use crate::text::{push_decimal, push_str};

verus! {

/// The error for a set whose files and exposure times differ in number.
pub open spec fn count_mismatch_message(files: nat, times: nat) -> Seq<char> {
    "Number of files ("@ + crate::text::decimal(files) + ") must match number of exposure times ("@
        + crate::text::decimal(times) + ")"@
}

/// Each file of a set needs its exposure time.
pub fn check_exposure_count(n_files: usize, n_times: usize) -> (r: Result<(), String>)
    ensures
        n_files == n_times ==> r is Ok,
        n_files != n_times ==> (r matches Err(m) && m@ == count_mismatch_message(
            n_files as nat,
            n_times as nat,
        )),
{
    if n_files == n_times {
        Ok(())
    } else {
        let mut m = String::new();
        push_str(&mut m, "Number of files (");
        push_decimal(&mut m, n_files as u64);
        push_str(&mut m, ") must match number of exposure times (");
        push_decimal(&mut m, n_times as u64);
        push_str(&mut m, ")");
        Err(m)
    }
}

} // verus!
