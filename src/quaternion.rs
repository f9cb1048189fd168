use crate::vector::Vector;
use core::ops::{Add, AddAssign, Div, DivAssign, Mul, MulAssign, Neg, Sub, SubAssign};
use vstd::prelude::*;
use vstd::std_specs::convert::FromSpec;
use vstd::std_specs::ops::{AddSpec, DivSpec, MulSpec, NegSpec, SubSpec};

verus! {

/// A quaternion `w + v` with vector part `v` and scalar part `w`.
#[derive(Debug, Clone, Copy, PartialEq, Default)]
pub struct Quaternion<T> {
    pub v: Vector<T>,
    pub w: T,
}

impl<T> Quaternion<T> {
    pub fn new(v: Vector<T>, w: T) -> (r: Self)
        ensures
            r.v == v,
            r.w == w,
    {
        Quaternion { v, w }
    }
}

impl<T: Add<Output = T>> Quaternion<T> {
    pub open spec fn plus(self, o: Self) -> Self {
        Quaternion { v: self.v.plus(o.v), w: self.w.add_spec(o.w) }
    }

    pub open spec fn plus_req(self, o: Self) -> bool {
        self.v.plus_req(o.v) && self.w.add_req(o.w)
    }
}

impl<T: Sub<Output = T>> Quaternion<T> {
    pub open spec fn minus(self, o: Self) -> Self {
        Quaternion { v: self.v.minus(o.v), w: self.w.sub_spec(o.w) }
    }

    pub open spec fn minus_req(self, o: Self) -> bool {
        self.v.minus_req(o.v) && self.w.sub_req(o.w)
    }
}

impl<T: Neg<Output = T>> Quaternion<T> {
    pub open spec fn negated(self) -> Self {
        Quaternion { v: self.v.negated(), w: self.w.neg_spec() }
    }

    pub open spec fn negated_req(self) -> bool {
        self.v.negated_req() && self.w.neg_req()
    }

    /// The conjugate `w − v`.
    pub open spec fn conj_spec(self) -> Self {
        Quaternion { v: self.v.negated(), w: self.w }
    }
}

impl<T: Mul<Output = T>> Quaternion<T> {
    pub open spec fn scaled(self, s: T) -> Self {
        Quaternion { v: self.v.scaled(s), w: self.w.mul_spec(s) }
    }

    pub open spec fn scaled_req(self, s: T) -> bool {
        self.v.scaled_req(s) && self.w.mul_req(s)
    }
}

impl<T: Div<Output = T>> Quaternion<T> {
    pub open spec fn divided(self, s: T) -> Self {
        Quaternion { v: self.v.divided(s), w: self.w.div_spec(s) }
    }

    pub open spec fn divided_req(self, s: T) -> bool {
        self.v.divided_req(s) && self.w.div_req(s)
    }
}

impl<T: Mul<Output = T> + Add<Output = T>> Quaternion<T> {
    /// The four-dimensional scalar product `w·w' + v·v'`.
    pub open spec fn dot_spec(self, o: Self) -> T {
        self.w.mul_spec(o.w).add_spec(self.v.dot_spec(o.v))
    }

    pub open spec fn dot_req(self, o: Self) -> bool {
        &&& self.w.mul_req(o.w)
        &&& self.v.dot_req(o.v)
        &&& self.w.mul_spec(o.w).add_req(self.v.dot_spec(o.v))
    }
}

impl<T: Mul<Output = T> + Add<Output = T> + Sub<Output = T>> Quaternion<T> {
    /// The Hamilton product: `v = v·w' + v'·w + v × v'`, `w = w·w' − v·v'`.
    pub open spec fn product(self, o: Self) -> Self {
        Quaternion {
            v: self.v.scaled(o.w).plus(o.v.scaled(self.w)).plus(self.v.cross(o.v)),
            w: self.w.mul_spec(o.w).sub_spec(self.v.dot_spec(o.v)),
        }
    }

    pub open spec fn product_req(self, o: Self) -> bool {
        &&& self.v.scaled_req(o.w)
        &&& o.v.scaled_req(self.w)
        &&& self.v.scaled(o.w).plus_req(o.v.scaled(self.w))
        &&& self.v.cross_req(o.v)
        &&& self.v.scaled(o.w).plus(o.v.scaled(self.w)).plus_req(self.v.cross(o.v))
        &&& self.w.mul_req(o.w)
        &&& self.v.dot_req(o.v)
        &&& self.w.mul_spec(o.w).sub_req(self.v.dot_spec(o.v))
    }
}

/// A real number as a quaternion; the vector part is made of `T::default()`.
impl<T: Default> From<T> for Quaternion<T> {
    fn from(value: T) -> (r: Self)
        ensures
            r.w == value,
    {
        Quaternion { v: Vector { x: T::default(), y: T::default(), z: T::default() }, w: value }
    }
}

impl<T: Default> vstd::std_specs::convert::FromSpecImpl<T> for Quaternion<T> {
    open spec fn obeys_from_spec() -> bool {
        false
    }

    open spec fn from_spec(v: T) -> Self {
        arbitrary()
    }
}

impl<T: Copy + From<u8>> Quaternion<T> {
    /// The pure quaternion of a translation: vector part `t`, scalar part zero.
    pub fn from_translation(t: &Vector<T>) -> (r: Self)
        ensures
            r.v == *t,
            T::obeys_from_spec() ==> r.w == T::from_spec(0u8),
    {
        Quaternion { v: *t, w: T::from(0u8) }
    }
}

impl<T: Copy + Add<Output = T> + Mul<Output = T>> Quaternion<T> {
    pub fn dot(&self, other: &Self) -> (r: T)
        requires
            T::obeys_add_spec(),
            T::obeys_mul_spec(),
            self.dot_req(*other),
        ensures
            r == self.dot_spec(*other),
    {
        let ww = self.w * other.w;
        ww + self.v.dot(&other.v)
    }
}

impl<T: Copy + Neg<Output = T>> Quaternion<T> {
    pub fn conj(&self) -> (r: Self)
        requires
            self.v.negated_req(),
        ensures
            T::obeys_neg_spec() ==> r == self.conj_spec(),
    {
        Quaternion { w: self.w, v: Neg::neg(&self.v) }
    }
}

impl<T: Copy + Add<Output = T> + Mul<Output = T> + Div<Output = T> + Neg<Output = T>> Quaternion<T> {
    /// The inverse `conj(q) / (q·q)`.
    pub fn inv(&self) -> (r: Self)
        requires
            T::obeys_add_spec(),
            T::obeys_mul_spec(),
            T::obeys_neg_spec(),
            self.v.negated_req(),
            self.dot_req(*self),
            self.conj_spec().divided_req(self.dot_spec(*self)),
        ensures
            T::obeys_div_spec() ==> r == self.conj_spec().divided(self.dot_spec(*self)),
    {
        let c = self.conj();
        let d = self.dot(self);
        Div::div(&c, &d)
    }
}

impl<T: Copy + Add<Output = T>> Add for &Quaternion<T> {
    type Output = Quaternion<T>;

    fn add(self, other: Self) -> (r: Quaternion<T>) {
        Quaternion { v: Add::add(&self.v, &other.v), w: self.w + other.w }
    }
}

impl<T: Copy + Add<Output = T>> vstd::std_specs::ops::AddSpecImpl for &Quaternion<T> {
    open spec fn obeys_add_spec() -> bool {
        T::obeys_add_spec()
    }

    open spec fn add_req(self, other: Self) -> bool {
        self.plus_req(*other)
    }

    open spec fn add_spec(self, other: Self) -> Quaternion<T> {
        self.plus(*other)
    }
}

impl<T: Copy + Sub<Output = T>> Sub for &Quaternion<T> {
    type Output = Quaternion<T>;

    fn sub(self, other: Self) -> (r: Quaternion<T>) {
        Quaternion { v: Sub::sub(&self.v, &other.v), w: self.w - other.w }
    }
}

impl<T: Copy + Sub<Output = T>> vstd::std_specs::ops::SubSpecImpl for &Quaternion<T> {
    open spec fn obeys_sub_spec() -> bool {
        T::obeys_sub_spec()
    }

    open spec fn sub_req(self, other: Self) -> bool {
        self.minus_req(*other)
    }

    open spec fn sub_spec(self, other: Self) -> Quaternion<T> {
        self.minus(*other)
    }
}

impl<T: Copy + Add<Output = T>> AddAssign<&Quaternion<T>> for Quaternion<T> {
    fn add_assign(&mut self, other: &Quaternion<T>)
        requires
            old(self).plus_req(*other),
        ensures
            T::obeys_add_spec() ==> *final(self) == old(self).plus(*other),
    {
        AddAssign::add_assign(&mut self.v, &other.v);
        self.w = self.w + other.w;
    }
}

impl<T: Copy + Sub<Output = T>> SubAssign<&Quaternion<T>> for Quaternion<T> {
    fn sub_assign(&mut self, other: &Quaternion<T>)
        requires
            old(self).minus_req(*other),
        ensures
            T::obeys_sub_spec() ==> *final(self) == old(self).minus(*other),
    {
        SubAssign::sub_assign(&mut self.v, &other.v);
        self.w = self.w - other.w;
    }
}

impl<T: Copy + Neg<Output = T>> Neg for &Quaternion<T> {
    type Output = Quaternion<T>;

    fn neg(self) -> (r: Quaternion<T>) {
        Quaternion { v: Neg::neg(&self.v), w: Neg::neg(self.w) }
    }
}

impl<T: Copy + Neg<Output = T>> vstd::std_specs::ops::NegSpecImpl for &Quaternion<T> {
    open spec fn obeys_neg_spec() -> bool {
        T::obeys_neg_spec()
    }

    open spec fn neg_req(self) -> bool {
        self.negated_req()
    }

    open spec fn neg_spec(self) -> Quaternion<T> {
        self.negated()
    }
}

/// The Hamilton product.
impl<T: Copy + Mul<Output = T> + Add<Output = T> + Sub<Output = T>> Mul for &Quaternion<T> {
    type Output = Quaternion<T>;

    fn mul(self, other: Self) -> (r: Quaternion<T>) {
        let a = Mul::mul(&self.v, &other.w);
        let b = Mul::mul(&other.v, &self.w);
        let ab = Add::add(&a, &b);
        let c = Mul::mul(&self.v, &other.v);
        let ww = self.w * other.w;
        Quaternion { v: Add::add(&ab, &c), w: ww - self.v.dot(&other.v) }
    }
}

impl<T: Copy + Mul<Output = T> + Add<Output = T> + Sub<Output = T>> vstd::std_specs::ops::MulSpecImpl for &Quaternion<T> {
    open spec fn obeys_mul_spec() -> bool {
        T::obeys_mul_spec() && T::obeys_add_spec() && T::obeys_sub_spec()
    }

    open spec fn mul_req(self, other: Self) -> bool {
        &&& T::obeys_mul_spec()
        &&& T::obeys_add_spec()
        &&& T::obeys_sub_spec()
        &&& self.product_req(*other)
    }

    open spec fn mul_spec(self, other: Self) -> Quaternion<T> {
        self.product(*other)
    }
}

/// Scaling by a scalar.
impl<T: Copy + Mul<Output = T>> Mul<&T> for &Quaternion<T> {
    type Output = Quaternion<T>;

    fn mul(self, s: &T) -> (r: Quaternion<T>) {
        Quaternion { v: Mul::mul(&self.v, s), w: self.w * *s }
    }
}

impl<T: Copy + Mul<Output = T>> vstd::std_specs::ops::MulSpecImpl<&T> for &Quaternion<T> {
    open spec fn obeys_mul_spec() -> bool {
        T::obeys_mul_spec()
    }

    open spec fn mul_req(self, s: &T) -> bool {
        self.scaled_req(*s)
    }

    open spec fn mul_spec(self, s: &T) -> Quaternion<T> {
        self.scaled(*s)
    }
}

impl<T: Copy + Mul<Output = T> + Add<Output = T> + Sub<Output = T>> MulAssign<&Quaternion<T>> for Quaternion<T> {
    fn mul_assign(&mut self, other: &Quaternion<T>)
        requires
            T::obeys_mul_spec(),
            T::obeys_add_spec(),
            T::obeys_sub_spec(),
            old(self).product_req(*other),
        ensures
            *final(self) == old(self).product(*other),
    {
        *self = Mul::mul(&*self, other);
    }
}

impl<T: Copy + Mul<Output = T>> MulAssign<&T> for Quaternion<T> {
    fn mul_assign(&mut self, s: &T)
        requires
            old(self).scaled_req(*s),
        ensures
            T::obeys_mul_spec() ==> *final(self) == old(self).scaled(*s),
    {
        self.v = Mul::mul(&self.v, s);
        self.w = self.w * *s;
    }
}

/// Division of every part by a scalar.
impl<T: Copy + Div<Output = T>> Div<&T> for &Quaternion<T> {
    type Output = Quaternion<T>;

    fn div(self, s: &T) -> (r: Quaternion<T>) {
        Quaternion { v: Div::div(&self.v, s), w: self.w / *s }
    }
}

impl<T: Copy + Div<Output = T>> vstd::std_specs::ops::DivSpecImpl<&T> for &Quaternion<T> {
    open spec fn obeys_div_spec() -> bool {
        T::obeys_div_spec()
    }

    open spec fn div_req(self, s: &T) -> bool {
        self.divided_req(*s)
    }

    open spec fn div_spec(self, s: &T) -> Quaternion<T> {
        self.divided(*s)
    }
}

impl<T: Copy + Div<Output = T>> DivAssign<&T> for Quaternion<T> {
    fn div_assign(&mut self, s: &T)
        requires
            old(self).divided_req(*s),
        ensures
            T::obeys_div_spec() ==> *final(self) == old(self).divided(*s),
    {
        DivAssign::div_assign(&mut self.v, s);
        self.w = self.w / *s;
    }
}

} // verus!
