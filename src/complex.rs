use crate::scalar::{prod_diff, prod_diff_exec, prod_diff_req, prod_sum, prod_sum_exec, prod_sum_req};
use core::ops::{Add, AddAssign, Div, DivAssign, Mul, MulAssign, Neg, Sub, SubAssign};
use vstd::prelude::*;
use vstd::std_specs::ops::{AddSpec, DivSpec, MulSpec, NegSpec, SubSpec};

verus! {

/// A complex number `re + im·i` over the scalar type `T`.
#[derive(Debug, Clone, Copy, PartialEq, Default)]
pub struct Complex<T> {
    pub re: T,
    pub im: T,
}

impl<T> Complex<T> {
    pub fn new(re: T, im: T) -> (r: Self)
        ensures
            r.re == re,
            r.im == im,
    {
        Complex { re, im }
    }
}

/// A real number as a complex one; the imaginary part is `T::default()`.
impl<T: Default> From<T> for Complex<T> {
    fn from(value: T) -> (r: Self)
        ensures
            r.re == value,
    {
        Complex { re: value, im: T::default() }
    }
}

impl<T: Default> vstd::std_specs::convert::FromSpecImpl<T> for Complex<T> {
    open spec fn obeys_from_spec() -> bool {
        false
    }

    open spec fn from_spec(v: T) -> Self {
        arbitrary()
    }
}

impl<T: Copy + Neg<Output = T>> Complex<T> {
    /// The conjugate `re − im·i`.
    pub fn conj(&self) -> (r: Self)
        requires
            self.im.neg_req(),
        ensures
            r.re == self.re,
            T::obeys_neg_spec() ==> r.im == self.im.neg_spec(),
    {
        Complex { re: self.re, im: Neg::neg(self.im) }
    }
}

impl<T: Copy + Add<Output = T>> Add for &Complex<T> {
    type Output = Complex<T>;

    fn add(self, rhs: Self) -> (r: Complex<T>) {
        Complex { re: self.re + rhs.re, im: self.im + rhs.im }
    }
}

impl<T: Copy + Add<Output = T>> vstd::std_specs::ops::AddSpecImpl for &Complex<T> {
    open spec fn obeys_add_spec() -> bool {
        T::obeys_add_spec()
    }

    open spec fn add_req(self, rhs: Self) -> bool {
        self.re.add_req(rhs.re) && self.im.add_req(rhs.im)
    }

    open spec fn add_spec(self, rhs: Self) -> Complex<T> {
        Complex { re: self.re.add_spec(rhs.re), im: self.im.add_spec(rhs.im) }
    }
}

/// Adding a real number moves the real part only.
impl<T: Copy + Add<Output = T>> Add<&T> for &Complex<T> {
    type Output = Complex<T>;

    fn add(self, rhs: &T) -> (r: Complex<T>) {
        Complex { re: self.re + *rhs, im: self.im }
    }
}

impl<T: Copy + Add<Output = T>> vstd::std_specs::ops::AddSpecImpl<&T> for &Complex<T> {
    open spec fn obeys_add_spec() -> bool {
        T::obeys_add_spec()
    }

    open spec fn add_req(self, rhs: &T) -> bool {
        self.re.add_req(*rhs)
    }

    open spec fn add_spec(self, rhs: &T) -> Complex<T> {
        Complex { re: self.re.add_spec(*rhs), im: self.im }
    }
}

impl<T: Copy + Add<Output = T>> AddAssign<&Complex<T>> for Complex<T> {
    fn add_assign(&mut self, rhs: &Complex<T>)
        requires
            (&*old(self)).add_req(rhs),
        ensures
            T::obeys_add_spec() ==> *final(self) == (&*old(self)).add_spec(rhs),
    {
        self.re = self.re + rhs.re;
        self.im = self.im + rhs.im;
    }
}

impl<T: Copy + Add<Output = T>> AddAssign<&T> for Complex<T> {
    fn add_assign(&mut self, rhs: &T)
        requires
            old(self).re.add_req(*rhs),
        ensures
            final(self).im == old(self).im,
            T::obeys_add_spec() ==> final(self).re == old(self).re.add_spec(*rhs),
    {
        self.re = self.re + *rhs;
    }
}

impl<T: Copy + Sub<Output = T>> Sub for &Complex<T> {
    type Output = Complex<T>;

    fn sub(self, rhs: Self) -> (r: Complex<T>) {
        Complex { re: self.re - rhs.re, im: self.im - rhs.im }
    }
}

impl<T: Copy + Sub<Output = T>> vstd::std_specs::ops::SubSpecImpl for &Complex<T> {
    open spec fn obeys_sub_spec() -> bool {
        T::obeys_sub_spec()
    }

    open spec fn sub_req(self, rhs: Self) -> bool {
        self.re.sub_req(rhs.re) && self.im.sub_req(rhs.im)
    }

    open spec fn sub_spec(self, rhs: Self) -> Complex<T> {
        Complex { re: self.re.sub_spec(rhs.re), im: self.im.sub_spec(rhs.im) }
    }
}

/// Subtracting a real number moves the real part only.
impl<T: Copy + Sub<Output = T>> Sub<&T> for &Complex<T> {
    type Output = Complex<T>;

    fn sub(self, rhs: &T) -> (r: Complex<T>) {
        Complex { re: self.re - *rhs, im: self.im }
    }
}

impl<T: Copy + Sub<Output = T>> vstd::std_specs::ops::SubSpecImpl<&T> for &Complex<T> {
    open spec fn obeys_sub_spec() -> bool {
        T::obeys_sub_spec()
    }

    open spec fn sub_req(self, rhs: &T) -> bool {
        self.re.sub_req(*rhs)
    }

    open spec fn sub_spec(self, rhs: &T) -> Complex<T> {
        Complex { re: self.re.sub_spec(*rhs), im: self.im }
    }
}

impl<T: Copy + Sub<Output = T>> SubAssign<&Complex<T>> for Complex<T> {
    fn sub_assign(&mut self, rhs: &Complex<T>)
        requires
            (&*old(self)).sub_req(rhs),
        ensures
            T::obeys_sub_spec() ==> *final(self) == (&*old(self)).sub_spec(rhs),
    {
        self.re = self.re - rhs.re;
        self.im = self.im - rhs.im;
    }
}

impl<T: Copy + Sub<Output = T>> SubAssign<&T> for Complex<T> {
    fn sub_assign(&mut self, rhs: &T)
        requires
            old(self).re.sub_req(*rhs),
        ensures
            final(self).im == old(self).im,
            T::obeys_sub_spec() ==> final(self).re == old(self).re.sub_spec(*rhs),
    {
        self.re = self.re - *rhs;
    }
}

/// `(a + bi)(c + di) = (ac − bd) + (ad + bc)i`.
impl<T: Copy + Mul<Output = T> + Add<Output = T> + Sub<Output = T>> Mul for &Complex<T> {
    type Output = Complex<T>;

    fn mul(self, rhs: Self) -> (r: Complex<T>) {
        Complex {
            re: prod_diff_exec(self.re, rhs.re, self.im, rhs.im),
            im: prod_sum_exec(self.re, rhs.im, self.im, rhs.re),
        }
    }
}

impl<T: Copy + Mul<Output = T> + Add<Output = T> + Sub<Output = T>> vstd::std_specs::ops::MulSpecImpl for &Complex<T> {
    open spec fn obeys_mul_spec() -> bool {
        T::obeys_mul_spec() && T::obeys_add_spec() && T::obeys_sub_spec()
    }

    open spec fn mul_req(self, rhs: Self) -> bool {
        &&& T::obeys_mul_spec()
        &&& prod_diff_req(self.re, rhs.re, self.im, rhs.im)
        &&& prod_sum_req(self.re, rhs.im, self.im, rhs.re)
    }

    open spec fn mul_spec(self, rhs: Self) -> Complex<T> {
        Complex {
            re: prod_diff(self.re, rhs.re, self.im, rhs.im),
            im: prod_sum(self.re, rhs.im, self.im, rhs.re),
        }
    }
}

/// Scaling by a real number.
impl<T: Copy + Mul<Output = T>> Mul<&T> for &Complex<T> {
    type Output = Complex<T>;

    fn mul(self, rhs: &T) -> (r: Complex<T>) {
        Complex { re: self.re * *rhs, im: self.im * *rhs }
    }
}

impl<T: Copy + Mul<Output = T>> vstd::std_specs::ops::MulSpecImpl<&T> for &Complex<T> {
    open spec fn obeys_mul_spec() -> bool {
        T::obeys_mul_spec()
    }

    open spec fn mul_req(self, rhs: &T) -> bool {
        self.re.mul_req(*rhs) && self.im.mul_req(*rhs)
    }

    open spec fn mul_spec(self, rhs: &T) -> Complex<T> {
        Complex { re: self.re.mul_spec(*rhs), im: self.im.mul_spec(*rhs) }
    }
}

impl<T: Copy + Mul<Output = T> + Add<Output = T> + Sub<Output = T>> MulAssign<&Complex<T>> for Complex<T> {
    fn mul_assign(&mut self, rhs: &Complex<T>)
        requires
            (&*old(self)).mul_req(rhs),
        ensures
            T::obeys_add_spec() && T::obeys_sub_spec() ==> *final(self) == (&*old(self)).mul_spec(rhs),
    {
        *self = Mul::mul(&*self, rhs);
    }
}

impl<T: Copy + Mul<Output = T>> MulAssign<&T> for Complex<T> {
    fn mul_assign(&mut self, rhs: &T)
        requires
            (&*old(self)).mul_req(rhs),
        ensures
            T::obeys_mul_spec() ==> *final(self) == (&*old(self)).mul_spec(rhs),
    {
        self.re = self.re * *rhs;
        self.im = self.im * *rhs;
    }
}

/// The squared modulus `c² + d²` of a divisor `c + di`.
pub open spec fn norm_sqr<T: Mul<Output = T> + Add<Output = T>>(z: Complex<T>) -> T {
    prod_sum(z.re, z.re, z.im, z.im)
}

/// `(a + bi)/(c + di) = (ac + bd)/(c² + d²) + (bc − ad)/(c² + d²)·i`.
impl<T: Copy + Mul<Output = T> + Add<Output = T> + Sub<Output = T> + Div<Output = T>> Div for &Complex<T> {
    type Output = Complex<T>;

    fn div(self, rhs: Self) -> (r: Complex<T>) {
        let denominator = prod_sum_exec(rhs.re, rhs.re, rhs.im, rhs.im);
        let re = prod_sum_exec(self.re, rhs.re, self.im, rhs.im);
        let im = prod_diff_exec(self.im, rhs.re, self.re, rhs.im);
        Complex { re: re / denominator, im: im / denominator }
    }
}

impl<T: Copy + Mul<Output = T> + Add<Output = T> + Sub<Output = T> + Div<Output = T>> vstd::std_specs::ops::DivSpecImpl for &Complex<T> {
    open spec fn obeys_div_spec() -> bool {
        &&& T::obeys_mul_spec()
        &&& T::obeys_add_spec()
        &&& T::obeys_sub_spec()
        &&& T::obeys_div_spec()
    }

    open spec fn div_req(self, rhs: Self) -> bool {
        &&& T::obeys_mul_spec()
        &&& T::obeys_add_spec()
        &&& T::obeys_sub_spec()
        &&& prod_sum_req(rhs.re, rhs.re, rhs.im, rhs.im)
        &&& prod_sum_req(self.re, rhs.re, self.im, rhs.im)
        &&& prod_diff_req(self.im, rhs.re, self.re, rhs.im)
        &&& prod_sum(self.re, rhs.re, self.im, rhs.im).div_req(norm_sqr(*rhs))
        &&& prod_diff(self.im, rhs.re, self.re, rhs.im).div_req(norm_sqr(*rhs))
    }

    open spec fn div_spec(self, rhs: Self) -> Complex<T> {
        Complex {
            re: prod_sum(self.re, rhs.re, self.im, rhs.im).div_spec(norm_sqr(*rhs)),
            im: prod_diff(self.im, rhs.re, self.re, rhs.im).div_spec(norm_sqr(*rhs)),
        }
    }
}

/// Division of both parts by a real number.
impl<T: Copy + Div<Output = T>> Div<&T> for &Complex<T> {
    type Output = Complex<T>;

    fn div(self, rhs: &T) -> (r: Complex<T>) {
        Complex { re: self.re / *rhs, im: self.im / *rhs }
    }
}

impl<T: Copy + Div<Output = T>> vstd::std_specs::ops::DivSpecImpl<&T> for &Complex<T> {
    open spec fn obeys_div_spec() -> bool {
        T::obeys_div_spec()
    }

    open spec fn div_req(self, rhs: &T) -> bool {
        self.re.div_req(*rhs) && self.im.div_req(*rhs)
    }

    open spec fn div_spec(self, rhs: &T) -> Complex<T> {
        Complex { re: self.re.div_spec(*rhs), im: self.im.div_spec(*rhs) }
    }
}

impl<T: Copy + Mul<Output = T> + Add<Output = T> + Sub<Output = T> + Div<Output = T>> DivAssign<&Complex<T>> for Complex<T> {
    fn div_assign(&mut self, rhs: &Complex<T>)
        requires
            (&*old(self)).div_req(rhs),
        ensures
            T::obeys_div_spec() ==> *final(self) == (&*old(self)).div_spec(rhs),
    {
        *self = Div::div(&*self, rhs);
    }
}

impl<T: Copy + Div<Output = T>> DivAssign<&T> for Complex<T> {
    fn div_assign(&mut self, rhs: &T)
        requires
            (&*old(self)).div_req(rhs),
        ensures
            T::obeys_div_spec() ==> *final(self) == (&*old(self)).div_spec(rhs),
    {
        self.re = self.re / *rhs;
        self.im = self.im / *rhs;
    }
}

} // verus!
