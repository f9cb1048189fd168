pub mod complex;
pub mod dual_quaternion;
pub mod path;
pub mod quaternion;
pub mod scalar;
pub mod vector;

use vstd::prelude::*;

verus! {

/// The sum of two unsigned integers; the caller keeps it within `u64`.
pub fn add(left: u64, right: u64) -> (r: u64)
    requires
        left + right <= u64::MAX,
    ensures
        r == left + right,
{
    left + right
}

} // verus!
