//! Conversions between host sizes and the native argument-count width.

use vstd::prelude::*;
use vstd::string::{StrSliceExecFns, StringExecFns};

verus! {

/// Converts a count to the native argument-count width, reporting failure
/// when the count does not fit.
pub fn i32_try_from_usize(x: usize) -> (r: Result<i32, String>)
    ensures
        x <= i32::MAX ==> (r matches Ok(v) && v as int == x as int),
        x > i32::MAX ==> (r matches Err(m) && m@ == "Conversion failed."@),
{
    if x <= i32::MAX as usize {
        Ok(x as i32)
    } else {
        Err(String::from_str("Conversion failed."))
    }
}

/// Converts a count that is known to fit to the native argument-count width.
pub fn i32_from_usize(x: usize) -> (r: i32)
    requires
        x <= i32::MAX,
    ensures
        r as int == x as int,
{
    x as i32
}

/// Whether two strings hold the same characters.
pub fn str_eq(a: &str, b: &str) -> (r: bool)
    ensures
        r == (a@ == b@),
{
    let a_len = a.unicode_len();
    let b_len = b.unicode_len();
    if a_len != b_len {
        return false;
    }
    let mut i: usize = 0;
    while i < a_len
        invariant
            i <= a_len,
            a_len == a@.len(),
            a@.len() == b@.len(),
            forall|k: int| 0 <= k < i ==> a@[k] == b@[k],
        decreases a_len - i,
    {
        if a.get_char(i) != b.get_char(i) {
            return false;
        }
        i += 1;
    }
    proof {
        assert(a@ =~= b@);
    }
    true
}

} // verus!
