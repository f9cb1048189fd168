use crate::quaternion::Quaternion;
use crate::vector::Vector;
use core::ops::{Add, AddAssign, Div, Mul, MulAssign, Neg, Sub, SubAssign};
use vstd::prelude::*;
use vstd::std_specs::convert::FromSpec;
use vstd::std_specs::ops::{AddSpec, DivSpec, MulSpec, NegSpec, SubSpec};

verus! {

/// A dual quaternion `p + ε·q`, with real part `p` and dual part `q`.
#[derive(Debug, Clone, Copy, PartialEq, Default)]
pub struct DualQuaternion<T> {
    pub p: Quaternion<T>,
    pub q: Quaternion<T>,
}

impl<T> DualQuaternion<T> {
    pub fn new(p: Quaternion<T>, q: Quaternion<T>) -> (r: Self)
        ensures
            r.p == p,
            r.q == q,
    {
        DualQuaternion { p, q }
    }
}

impl<T: Add<Output = T>> DualQuaternion<T> {
    pub open spec fn plus(self, o: Self) -> Self {
        DualQuaternion { p: self.p.plus(o.p), q: self.q.plus(o.q) }
    }

    pub open spec fn plus_req(self, o: Self) -> bool {
        self.p.plus_req(o.p) && self.q.plus_req(o.q)
    }
}

impl<T: Sub<Output = T>> DualQuaternion<T> {
    pub open spec fn minus(self, o: Self) -> Self {
        DualQuaternion { p: self.p.minus(o.p), q: self.q.minus(o.q) }
    }

    pub open spec fn minus_req(self, o: Self) -> bool {
        self.p.minus_req(o.p) && self.q.minus_req(o.q)
    }
}

impl<T: Mul<Output = T>> DualQuaternion<T> {
    pub open spec fn scaled(self, s: T) -> Self {
        DualQuaternion { p: self.p.scaled(s), q: self.q.scaled(s) }
    }

    pub open spec fn scaled_req(self, s: T) -> bool {
        self.p.scaled_req(s) && self.q.scaled_req(s)
    }
}

impl<T: Div<Output = T>> DualQuaternion<T> {
    pub open spec fn divided(self, s: T) -> Self {
        DualQuaternion { p: self.p.divided(s), q: self.q.divided(s) }
    }

    pub open spec fn divided_req(self, s: T) -> bool {
        self.p.divided_req(s) && self.q.divided_req(s)
    }
}

impl<T: Mul<Output = T> + Add<Output = T>> DualQuaternion<T> {
    /// `p·p' + q·q'`.
    pub open spec fn dot_spec(self, o: Self) -> T {
        self.p.dot_spec(o.p).add_spec(self.q.dot_spec(o.q))
    }

    pub open spec fn dot_req(self, o: Self) -> bool {
        &&& self.p.dot_req(o.p)
        &&& self.q.dot_req(o.q)
        &&& self.p.dot_spec(o.p).add_req(self.q.dot_spec(o.q))
    }
}

impl<T: Mul<Output = T> + Add<Output = T> + Sub<Output = T>> DualQuaternion<T> {
    /// `(p + εq)(p' + εq') = p·p' + ε(p·q' + p'·q)`.
    pub open spec fn product(self, o: Self) -> Self {
        DualQuaternion {
            p: self.p.product(o.p),
            q: self.p.product(o.q).plus(o.p.product(self.q)),
        }
    }

    pub open spec fn product_req(self, o: Self) -> bool {
        &&& self.p.product_req(o.p)
        &&& self.p.product_req(o.q)
        &&& o.p.product_req(self.q)
        &&& self.p.product(o.q).plus_req(o.p.product(self.q))
    }
}

impl<T: Mul<Output = T> + Add<Output = T> + Sub<Output = T> + Neg<Output = T>> DualQuaternion<T> {
    /// The translation that a unit dual quaternion carries: `2·(q·conj(p))`'s vector part.
    pub open spec fn translation_spec(self, two: T) -> Vector<T> {
        self.q.product(self.p.conj_spec()).v.scaled(two)
    }

    pub open spec fn translation_req(self, two: T) -> bool {
        &&& self.p.v.negated_req()
        &&& self.q.product_req(self.p.conj_spec())
        &&& self.q.product(self.p.conj_spec()).v.scaled_req(two)
    }
}

/// A real number as a dual quaternion: `Quaternion::from(value)` as real part, a
/// dual part of `T::default()`.
impl<T: Default> From<T> for DualQuaternion<T> {
    fn from(value: T) -> (r: Self)
        ensures
            r.p.w == value,
    {
        let zero = Vector { x: T::default(), y: T::default(), z: T::default() };
        DualQuaternion { p: Quaternion::from(value), q: Quaternion { v: zero, w: T::default() } }
    }
}

impl<T: Default> vstd::std_specs::convert::FromSpecImpl<T> for DualQuaternion<T> {
    open spec fn obeys_from_spec() -> bool {
        false
    }

    open spec fn from_spec(v: T) -> Self {
        arbitrary()
    }
}

impl<T: Copy + Neg<Output = T>> DualQuaternion<T> {
    /// The dual-number conjugate `p − εq`.
    pub fn conj_from_dual_number(&self) -> (r: Self)
        requires
            self.q.negated_req(),
        ensures
            r.p == self.p,
            T::obeys_neg_spec() ==> r.q == self.q.negated(),
    {
        DualQuaternion { p: self.p, q: Neg::neg(&self.q) }
    }

    /// The quaternion conjugate `conj(p) + ε·conj(q)`.
    pub fn conj_from_quaternion(&self) -> (r: Self)
        requires
            self.p.v.negated_req(),
            self.q.v.negated_req(),
        ensures
            T::obeys_neg_spec() ==> r.p == self.p.conj_spec() && r.q == self.q.conj_spec(),
    {
        DualQuaternion { p: self.p.conj(), q: self.q.conj() }
    }

    /// Both conjugates at once: `conj(p) − ε·conj(q)`.
    pub fn conj_from_dual_number_and_quaternion(&self) -> (r: Self)
        requires
            T::obeys_neg_spec(),
            self.p.v.negated_req(),
            self.q.v.negated_req(),
            self.q.conj_spec().negated_req(),
        ensures
            r.p == self.p.conj_spec(),
            r.q == self.q.conj_spec().negated(),
    {
        let qc = self.q.conj();
        DualQuaternion { p: self.p.conj(), q: Neg::neg(&qc) }
    }
}

impl<T: Copy + Add<Output = T> + Mul<Output = T>> DualQuaternion<T> {
    pub fn dot(&self, other: &Self) -> (r: T)
        requires
            T::obeys_add_spec(),
            T::obeys_mul_spec(),
            self.dot_req(*other),
        ensures
            r == self.dot_spec(*other),
    {
        let pp = self.p.dot(&other.p);
        pp + self.q.dot(&other.q)
    }
}

impl<T: Copy + From<u8> + Neg<Output = T> + Add<Output = T> + Mul<Output = T> + Sub<Output = T>> DualQuaternion<T> {
    /// The translation `2·(q·conj(p))`'s vector part.
    pub fn translation(&self) -> (r: Vector<T>)
        requires
            T::obeys_neg_spec(),
            T::obeys_add_spec(),
            T::obeys_mul_spec(),
            T::obeys_sub_spec(),
            T::obeys_from_spec(),
            self.translation_req(T::from_spec(2u8)),
        ensures
            r == self.translation_spec(T::from_spec(2u8)),
    {
        let pc = self.p.conj();
        let qp = Mul::mul(&self.q, &pc);
        let two = T::from(2u8);
        Mul::mul(&qp.v, &two)
    }
}

impl<T: Copy + Add<Output = T>> Add for &DualQuaternion<T> {
    type Output = DualQuaternion<T>;

    fn add(self, other: Self) -> (r: DualQuaternion<T>) {
        DualQuaternion { p: Add::add(&self.p, &other.p), q: Add::add(&self.q, &other.q) }
    }
}

impl<T: Copy + Add<Output = T>> vstd::std_specs::ops::AddSpecImpl for &DualQuaternion<T> {
    open spec fn obeys_add_spec() -> bool {
        T::obeys_add_spec()
    }

    open spec fn add_req(self, other: Self) -> bool {
        self.plus_req(*other)
    }

    open spec fn add_spec(self, other: Self) -> DualQuaternion<T> {
        self.plus(*other)
    }
}

impl<T: Copy + Add<Output = T>> AddAssign<&DualQuaternion<T>> for DualQuaternion<T> {
    fn add_assign(&mut self, other: &DualQuaternion<T>)
        requires
            old(self).plus_req(*other),
        ensures
            T::obeys_add_spec() ==> *final(self) == old(self).plus(*other),
    {
        AddAssign::add_assign(&mut self.p, &other.p);
        AddAssign::add_assign(&mut self.q, &other.q);
    }
}

impl<T: Copy + Sub<Output = T>> Sub for &DualQuaternion<T> {
    type Output = DualQuaternion<T>;

    fn sub(self, other: Self) -> (r: DualQuaternion<T>) {
        DualQuaternion { p: Sub::sub(&self.p, &other.p), q: Sub::sub(&self.q, &other.q) }
    }
}

impl<T: Copy + Sub<Output = T>> vstd::std_specs::ops::SubSpecImpl for &DualQuaternion<T> {
    open spec fn obeys_sub_spec() -> bool {
        T::obeys_sub_spec()
    }

    open spec fn sub_req(self, other: Self) -> bool {
        self.minus_req(*other)
    }

    open spec fn sub_spec(self, other: Self) -> DualQuaternion<T> {
        self.minus(*other)
    }
}

impl<T: Copy + Sub<Output = T>> SubAssign<&DualQuaternion<T>> for DualQuaternion<T> {
    fn sub_assign(&mut self, other: &DualQuaternion<T>)
        requires
            old(self).minus_req(*other),
        ensures
            T::obeys_sub_spec() ==> *final(self) == old(self).minus(*other),
    {
        SubAssign::sub_assign(&mut self.p, &other.p);
        SubAssign::sub_assign(&mut self.q, &other.q);
    }
}

impl<T: Copy + Mul<Output = T> + Add<Output = T> + Sub<Output = T>> Mul for &DualQuaternion<T> {
    type Output = DualQuaternion<T>;

    fn mul(self, other: Self) -> (r: DualQuaternion<T>) {
        let pq = Mul::mul(&self.p, &other.q);
        let qp = Mul::mul(&other.p, &self.q);
        DualQuaternion { p: Mul::mul(&self.p, &other.p), q: Add::add(&pq, &qp) }
    }
}

impl<T: Copy + Mul<Output = T> + Add<Output = T> + Sub<Output = T>> vstd::std_specs::ops::MulSpecImpl for &DualQuaternion<T> {
    open spec fn obeys_mul_spec() -> bool {
        T::obeys_mul_spec() && T::obeys_add_spec() && T::obeys_sub_spec()
    }

    open spec fn mul_req(self, other: Self) -> bool {
        &&& T::obeys_mul_spec()
        &&& T::obeys_add_spec()
        &&& T::obeys_sub_spec()
        &&& self.product_req(*other)
    }

    open spec fn mul_spec(self, other: Self) -> DualQuaternion<T> {
        self.product(*other)
    }
}

/// Scaling by a scalar.
impl<T: Copy + Mul<Output = T>> Mul<&T> for &DualQuaternion<T> {
    type Output = DualQuaternion<T>;

    fn mul(self, s: &T) -> (r: DualQuaternion<T>) {
        DualQuaternion { p: Mul::mul(&self.p, s), q: Mul::mul(&self.q, s) }
    }
}

impl<T: Copy + Mul<Output = T>> vstd::std_specs::ops::MulSpecImpl<&T> for &DualQuaternion<T> {
    open spec fn obeys_mul_spec() -> bool {
        T::obeys_mul_spec()
    }

    open spec fn mul_req(self, s: &T) -> bool {
        self.scaled_req(*s)
    }

    open spec fn mul_spec(self, s: &T) -> DualQuaternion<T> {
        self.scaled(*s)
    }
}

impl<T: Copy + Mul<Output = T> + Add<Output = T> + Sub<Output = T>> MulAssign<&DualQuaternion<T>> for DualQuaternion<T> {
    fn mul_assign(&mut self, other: &DualQuaternion<T>)
        requires
            T::obeys_mul_spec(),
            T::obeys_add_spec(),
            T::obeys_sub_spec(),
            old(self).product_req(*other),
        ensures
            *final(self) == old(self).product(*other),
    {
        let pq = Mul::mul(&self.p, &other.q);
        let qp = Mul::mul(&other.p, &self.q);
        self.q = Add::add(&pq, &qp);
        MulAssign::mul_assign(&mut self.p, &other.p);
    }
}

impl<T: Copy + Mul<Output = T>> MulAssign<&T> for DualQuaternion<T> {
    fn mul_assign(&mut self, s: &T)
        requires
            old(self).scaled_req(*s),
        ensures
            T::obeys_mul_spec() ==> *final(self) == old(self).scaled(*s),
    {
        MulAssign::mul_assign(&mut self.p, s);
        MulAssign::mul_assign(&mut self.q, s);
    }
}

/// Division of both parts by a scalar.
impl<T: Copy + Div<Output = T>> Div<&T> for &DualQuaternion<T> {
    type Output = DualQuaternion<T>;

    fn div(self, s: &T) -> (r: DualQuaternion<T>) {
        DualQuaternion { p: Div::div(&self.p, s), q: Div::div(&self.q, s) }
    }
}

impl<T: Copy + Div<Output = T>> vstd::std_specs::ops::DivSpecImpl<&T> for &DualQuaternion<T> {
    open spec fn obeys_div_spec() -> bool {
        T::obeys_div_spec()
    }

    open spec fn div_req(self, s: &T) -> bool {
        self.divided_req(*s)
    }

    open spec fn div_spec(self, s: &T) -> DualQuaternion<T> {
        self.divided(*s)
    }
}

} // verus!
