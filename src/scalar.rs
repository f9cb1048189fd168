use core::ops::{Add, Mul, Sub};
use vstd::prelude::*;
use vstd::std_specs::ops::{AddSpec, MulSpec, SubSpec};

verus! {

/// `a·b + c·d`, in the scalar's own arithmetic.
pub open spec fn prod_sum<T: Mul<Output = T> + Add<Output = T>>(a: T, b: T, c: T, d: T) -> T {
    a.mul_spec(b).add_spec(c.mul_spec(d))
}

/// Every step of `prod_sum` is defined (for integers: does not overflow).
pub open spec fn prod_sum_req<T: Mul<Output = T> + Add<Output = T>>(a: T, b: T, c: T, d: T) -> bool {
    &&& a.mul_req(b)
    &&& c.mul_req(d)
    &&& a.mul_spec(b).add_req(c.mul_spec(d))
}

/// `a·b − c·d`, in the scalar's own arithmetic.
pub open spec fn prod_diff<T: Mul<Output = T> + Sub<Output = T>>(a: T, b: T, c: T, d: T) -> T {
    a.mul_spec(b).sub_spec(c.mul_spec(d))
}

/// Every step of `prod_diff` is defined (for integers: does not overflow).
pub open spec fn prod_diff_req<T: Mul<Output = T> + Sub<Output = T>>(
    a: T,
    b: T,
    c: T,
    d: T,
) -> bool {
    &&& a.mul_req(b)
    &&& c.mul_req(d)
    &&& a.mul_spec(b).sub_req(c.mul_spec(d))
}

pub(crate) fn prod_sum_exec<T: Copy + Mul<Output = T> + Add<Output = T>>(a: T, b: T, c: T, d: T) -> (r: T)
    requires
        T::obeys_mul_spec(),
        prod_sum_req(a, b, c, d),
    ensures
        T::obeys_add_spec() ==> r == prod_sum(a, b, c, d),
{
    let ab = a * b;
    let cd = c * d;
    ab + cd
}

pub(crate) fn prod_diff_exec<T: Copy + Mul<Output = T> + Sub<Output = T>>(a: T, b: T, c: T, d: T) -> (r: T)
    requires
        T::obeys_mul_spec(),
        prod_diff_req(a, b, c, d),
    ensures
        T::obeys_sub_spec() ==> r == prod_diff(a, b, c, d),
{
    let ab = a * b;
    let cd = c * d;
    ab - cd
}

} // verus!
