use crate::scalar::{prod_diff, prod_diff_exec, prod_diff_req};
use core::ops::{Add, AddAssign, Div, DivAssign, Mul, Neg, Sub, SubAssign};
use vstd::prelude::*;
use vstd::std_specs::ops::{AddSpec, DivSpec, MulSpec, NegSpec, SubSpec};

verus! {

/// A vector of three coordinates over the scalar type `T`.
///
/// Arithmetic is generic: every contract is stated through the scalar's own
/// operator specifications (`add_spec`, `mul_spec`, ...), so for the machine
/// integers it is exact arithmetic proved free of overflow.
#[derive(Debug, Clone, Copy, PartialEq, Default)]
pub struct Vector<T> {
    pub x: T,
    pub y: T,
    pub z: T,
}

impl<T> Vector<T> {
    pub fn new(x: T, y: T, z: T) -> (r: Self)
        ensures
            r.x == x,
            r.y == y,
            r.z == z,
    {
        Vector { x, y, z }
    }
}

impl<T: Add<Output = T>> Vector<T> {
    pub open spec fn plus(self, o: Self) -> Self {
        Vector { x: self.x.add_spec(o.x), y: self.y.add_spec(o.y), z: self.z.add_spec(o.z) }
    }

    pub open spec fn plus_req(self, o: Self) -> bool {
        self.x.add_req(o.x) && self.y.add_req(o.y) && self.z.add_req(o.z)
    }
}

impl<T: Sub<Output = T>> Vector<T> {
    pub open spec fn minus(self, o: Self) -> Self {
        Vector { x: self.x.sub_spec(o.x), y: self.y.sub_spec(o.y), z: self.z.sub_spec(o.z) }
    }

    pub open spec fn minus_req(self, o: Self) -> bool {
        self.x.sub_req(o.x) && self.y.sub_req(o.y) && self.z.sub_req(o.z)
    }
}

impl<T: Neg<Output = T>> Vector<T> {
    pub open spec fn negated(self) -> Self {
        Vector { x: self.x.neg_spec(), y: self.y.neg_spec(), z: self.z.neg_spec() }
    }

    pub open spec fn negated_req(self) -> bool {
        self.x.neg_req() && self.y.neg_req() && self.z.neg_req()
    }
}

impl<T: Mul<Output = T>> Vector<T> {
    pub open spec fn scaled(self, s: T) -> Self {
        Vector { x: self.x.mul_spec(s), y: self.y.mul_spec(s), z: self.z.mul_spec(s) }
    }

    pub open spec fn scaled_req(self, s: T) -> bool {
        self.x.mul_req(s) && self.y.mul_req(s) && self.z.mul_req(s)
    }
}

impl<T: Div<Output = T>> Vector<T> {
    pub open spec fn divided(self, s: T) -> Self {
        Vector { x: self.x.div_spec(s), y: self.y.div_spec(s), z: self.z.div_spec(s) }
    }

    pub open spec fn divided_req(self, s: T) -> bool {
        self.x.div_req(s) && self.y.div_req(s) && self.z.div_req(s)
    }
}

impl<T: Mul<Output = T> + Sub<Output = T>> Vector<T> {
    /// The cross product `self × o`.
    pub open spec fn cross(self, o: Self) -> Self {
        Vector {
            x: prod_diff(self.y, o.z, self.z, o.y),
            y: prod_diff(self.z, o.x, self.x, o.z),
            z: prod_diff(self.x, o.y, self.y, o.x),
        }
    }

    pub open spec fn cross_req(self, o: Self) -> bool {
        &&& prod_diff_req(self.y, o.z, self.z, o.y)
        &&& prod_diff_req(self.z, o.x, self.x, o.z)
        &&& prod_diff_req(self.x, o.y, self.y, o.x)
    }
}

impl<T: Mul<Output = T> + Add<Output = T>> Vector<T> {
    /// The scalar product, summed as `(x·x' + y·y') + z·z'`.
    pub open spec fn dot_spec(self, o: Self) -> T {
        self.x.mul_spec(o.x).add_spec(self.y.mul_spec(o.y)).add_spec(self.z.mul_spec(o.z))
    }

    /// Every step of `dot_spec` is defined (for integers: does not overflow).
    pub open spec fn dot_req(self, o: Self) -> bool {
        &&& self.x.mul_req(o.x)
        &&& self.y.mul_req(o.y)
        &&& self.z.mul_req(o.z)
        &&& self.x.mul_spec(o.x).add_req(self.y.mul_spec(o.y))
        &&& self.x.mul_spec(o.x).add_spec(self.y.mul_spec(o.y)).add_req(self.z.mul_spec(o.z))
    }
}

impl<T: Copy + Add<Output = T> + Mul<Output = T>> Vector<T> {
    pub fn dot(&self, other: &Self) -> (r: T)
        requires
            T::obeys_add_spec(),
            T::obeys_mul_spec(),
            self.dot_req(*other),
        ensures
            r == self.dot_spec(*other),
    {
        let xx = self.x * other.x;
        let yy = self.y * other.y;
        let zz = self.z * other.z;
        let xy = xx + yy;
        xy + zz
    }
}

impl<T: Copy + Add<Output = T>> Add for &Vector<T> {
    type Output = Vector<T>;

    fn add(self, other: Self) -> (r: Vector<T>) {
        Vector { x: self.x + other.x, y: self.y + other.y, z: self.z + other.z }
    }
}

impl<T: Copy + Add<Output = T>> vstd::std_specs::ops::AddSpecImpl for &Vector<T> {
    open spec fn obeys_add_spec() -> bool {
        T::obeys_add_spec()
    }

    open spec fn add_req(self, other: Self) -> bool {
        self.plus_req(*other)
    }

    open spec fn add_spec(self, other: Self) -> Vector<T> {
        self.plus(*other)
    }
}

impl<T: Copy + Sub<Output = T>> Sub for &Vector<T> {
    type Output = Vector<T>;

    fn sub(self, other: Self) -> (r: Vector<T>) {
        Vector { x: self.x - other.x, y: self.y - other.y, z: self.z - other.z }
    }
}

impl<T: Copy + Sub<Output = T>> vstd::std_specs::ops::SubSpecImpl for &Vector<T> {
    open spec fn obeys_sub_spec() -> bool {
        T::obeys_sub_spec()
    }

    open spec fn sub_req(self, other: Self) -> bool {
        self.minus_req(*other)
    }

    open spec fn sub_spec(self, other: Self) -> Vector<T> {
        self.minus(*other)
    }
}

impl<T: Copy + Add<Output = T>> AddAssign<&Vector<T>> for Vector<T> {
    fn add_assign(&mut self, other: &Vector<T>)
        requires
            old(self).plus_req(*other),
        ensures
            T::obeys_add_spec() ==> *final(self) == old(self).plus(*other),
    {
        self.x = self.x + other.x;
        self.y = self.y + other.y;
        self.z = self.z + other.z;
    }
}

impl<T: Copy + Sub<Output = T>> SubAssign<&Vector<T>> for Vector<T> {
    fn sub_assign(&mut self, other: &Vector<T>)
        requires
            old(self).minus_req(*other),
        ensures
            T::obeys_sub_spec() ==> *final(self) == old(self).minus(*other),
    {
        self.x = self.x - other.x;
        self.y = self.y - other.y;
        self.z = self.z - other.z;
    }
}

impl<T: Copy + Neg<Output = T>> Neg for &Vector<T> {
    type Output = Vector<T>;

    fn neg(self) -> (r: Vector<T>) {
        Vector { x: Neg::neg(self.x), y: Neg::neg(self.y), z: Neg::neg(self.z) }
    }
}

impl<T: Copy + Neg<Output = T>> vstd::std_specs::ops::NegSpecImpl for &Vector<T> {
    open spec fn obeys_neg_spec() -> bool {
        T::obeys_neg_spec()
    }

    open spec fn neg_req(self) -> bool {
        self.negated_req()
    }

    open spec fn neg_spec(self) -> Vector<T> {
        self.negated()
    }
}

/// The cross product.
impl<T: Copy + Mul<Output = T> + Sub<Output = T>> Mul for &Vector<T> {
    type Output = Vector<T>;

    fn mul(self, other: Self) -> (r: Vector<T>) {
        Vector {
            x: prod_diff_exec(self.y, other.z, self.z, other.y),
            y: prod_diff_exec(self.z, other.x, self.x, other.z),
            z: prod_diff_exec(self.x, other.y, self.y, other.x),
        }
    }
}

impl<T: Copy + Mul<Output = T> + Sub<Output = T>> vstd::std_specs::ops::MulSpecImpl for &Vector<T> {
    open spec fn obeys_mul_spec() -> bool {
        T::obeys_mul_spec() && T::obeys_sub_spec()
    }

    open spec fn mul_req(self, other: Self) -> bool {
        T::obeys_mul_spec() && self.cross_req(*other)
    }

    open spec fn mul_spec(self, other: Self) -> Vector<T> {
        self.cross(*other)
    }
}

/// Scaling by a scalar.
impl<T: Copy + Mul<Output = T>> Mul<&T> for &Vector<T> {
    type Output = Vector<T>;

    fn mul(self, s: &T) -> (r: Vector<T>) {
        Vector { x: self.x * *s, y: self.y * *s, z: self.z * *s }
    }
}

impl<T: Copy + Mul<Output = T>> vstd::std_specs::ops::MulSpecImpl<&T> for &Vector<T> {
    open spec fn obeys_mul_spec() -> bool {
        T::obeys_mul_spec()
    }

    open spec fn mul_req(self, s: &T) -> bool {
        self.scaled_req(*s)
    }

    open spec fn mul_spec(self, s: &T) -> Vector<T> {
        self.scaled(*s)
    }
}

/// Division of each coordinate by a scalar.
impl<T: Copy + Div<Output = T>> Div<&T> for &Vector<T> {
    type Output = Vector<T>;

    fn div(self, s: &T) -> (r: Vector<T>) {
        Vector { x: self.x / *s, y: self.y / *s, z: self.z / *s }
    }
}

impl<T: Copy + Div<Output = T>> vstd::std_specs::ops::DivSpecImpl<&T> for &Vector<T> {
    open spec fn obeys_div_spec() -> bool {
        T::obeys_div_spec()
    }

    open spec fn div_req(self, s: &T) -> bool {
        self.divided_req(*s)
    }

    open spec fn div_spec(self, s: &T) -> Vector<T> {
        self.divided(*s)
    }
}

impl<T: Copy + Div<Output = T>> DivAssign<&T> for Vector<T> {
    fn div_assign(&mut self, s: &T)
        requires
            old(self).divided_req(*s),
        ensures
            T::obeys_div_spec() ==> *final(self) == old(self).divided(*s),
    {
        self.x = self.x / *s;
        self.y = self.y / *s;
        self.z = self.z / *s;
    }
}

} // verus!
