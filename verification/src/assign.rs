//! The compound assignments. Each replaces the whole vector by the result
//! of the operator it is named after: `a += b` leaves `a + b` in `a`.

use crate::vector::{Vec2, Vec3, Vec4};
use std::ops::{Add, AddAssign, Div, DivAssign, Mul, MulAssign, Sub, SubAssign};
use vstd::prelude::*;
use vstd::std_specs::ops::{AddSpec, DivSpec, MulSpec, SubSpec};

verus! {

impl<T: Copy> AddAssign for Vec2<T> where Self: Add<Output = Self> {
    /// Leaves `self + other` in `self`.
    fn add_assign(&mut self, other: Self)
        requires
            old(self).add_req(other),
        ensures
            <Self as AddSpec>::obeys_add_spec() ==> *final(self) == old(self).add_spec(other),
    {
        *self = *self + other
    }
}

impl<T: Copy> SubAssign for Vec2<T> where Self: Sub<Output = Self> {
    /// Leaves `self - other` in `self`.
    fn sub_assign(&mut self, other: Self)
        requires
            old(self).sub_req(other),
        ensures
            <Self as SubSpec>::obeys_sub_spec() ==> *final(self) == old(self).sub_spec(other),
    {
        *self = *self - other
    }
}

impl<T: Copy> MulAssign for Vec2<T> where Self: Mul<Output = Self> {
    /// Leaves `self * other` in `self`.
    fn mul_assign(&mut self, other: Self)
        requires
            old(self).mul_req(other),
        ensures
            <Self as MulSpec>::obeys_mul_spec() ==> *final(self) == old(self).mul_spec(other),
    {
        *self = *self * other
    }
}

impl<T: Copy> DivAssign for Vec2<T> where Self: Div<Output = Self> {
    /// Leaves `self / other` in `self`.
    fn div_assign(&mut self, other: Self)
        requires
            old(self).div_req(other),
        ensures
            <Self as DivSpec>::obeys_div_spec() ==> *final(self) == old(self).div_spec(other),
    {
        *self = *self / other
    }
}

impl<T: Copy> MulAssign<T> for Vec2<T> where Self: Mul<T, Output = Self> {
    /// Leaves `self * other` in `self`, for the scalar `other`.
    fn mul_assign(&mut self, other: T)
        requires
            old(self).mul_req(other),
        ensures
            <Self as MulSpec<T>>::obeys_mul_spec() ==> *final(self) == old(self).mul_spec(other),
    {
        *self = *self * other
    }
}

impl<T: Copy> DivAssign<T> for Vec2<T> where Self: Div<T, Output = Self> {
    /// Leaves `self / other` in `self`, for the scalar `other`.
    fn div_assign(&mut self, other: T)
        requires
            old(self).div_req(other),
        ensures
            <Self as DivSpec<T>>::obeys_div_spec() ==> *final(self) == old(self).div_spec(other),
    {
        *self = *self / other
    }
}

impl<T: Copy> AddAssign for Vec3<T> where Self: Add<Output = Self> {
    /// Leaves `self + other` in `self`.
    fn add_assign(&mut self, other: Self)
        requires
            old(self).add_req(other),
        ensures
            <Self as AddSpec>::obeys_add_spec() ==> *final(self) == old(self).add_spec(other),
    {
        *self = *self + other
    }
}

impl<T: Copy> SubAssign for Vec3<T> where Self: Sub<Output = Self> {
    /// Leaves `self - other` in `self`.
    fn sub_assign(&mut self, other: Self)
        requires
            old(self).sub_req(other),
        ensures
            <Self as SubSpec>::obeys_sub_spec() ==> *final(self) == old(self).sub_spec(other),
    {
        *self = *self - other
    }
}

impl<T: Copy> MulAssign for Vec3<T> where Self: Mul<Output = Self> {
    /// Leaves `self * other` in `self`.
    fn mul_assign(&mut self, other: Self)
        requires
            old(self).mul_req(other),
        ensures
            <Self as MulSpec>::obeys_mul_spec() ==> *final(self) == old(self).mul_spec(other),
    {
        *self = *self * other
    }
}

impl<T: Copy> DivAssign for Vec3<T> where Self: Div<Output = Self> {
    /// Leaves `self / other` in `self`.
    fn div_assign(&mut self, other: Self)
        requires
            old(self).div_req(other),
        ensures
            <Self as DivSpec>::obeys_div_spec() ==> *final(self) == old(self).div_spec(other),
    {
        *self = *self / other
    }
}

impl<T: Copy> MulAssign<T> for Vec3<T> where Self: Mul<T, Output = Self> {
    /// Leaves `self * other` in `self`, for the scalar `other`.
    fn mul_assign(&mut self, other: T)
        requires
            old(self).mul_req(other),
        ensures
            <Self as MulSpec<T>>::obeys_mul_spec() ==> *final(self) == old(self).mul_spec(other),
    {
        *self = *self * other
    }
}

impl<T: Copy> DivAssign<T> for Vec3<T> where Self: Div<T, Output = Self> {
    /// Leaves `self / other` in `self`, for the scalar `other`.
    fn div_assign(&mut self, other: T)
        requires
            old(self).div_req(other),
        ensures
            <Self as DivSpec<T>>::obeys_div_spec() ==> *final(self) == old(self).div_spec(other),
    {
        *self = *self / other
    }
}

impl<T: Copy> AddAssign for Vec4<T> where Self: Add<Output = Self> {
    /// Leaves `self + other` in `self`.
    fn add_assign(&mut self, other: Self)
        requires
            old(self).add_req(other),
        ensures
            <Self as AddSpec>::obeys_add_spec() ==> *final(self) == old(self).add_spec(other),
    {
        *self = *self + other
    }
}

impl<T: Copy> SubAssign for Vec4<T> where Self: Sub<Output = Self> {
    /// Leaves `self - other` in `self`.
    fn sub_assign(&mut self, other: Self)
        requires
            old(self).sub_req(other),
        ensures
            <Self as SubSpec>::obeys_sub_spec() ==> *final(self) == old(self).sub_spec(other),
    {
        *self = *self - other
    }
}

impl<T: Copy> MulAssign for Vec4<T> where Self: Mul<Output = Self> {
    /// Leaves `self * other` in `self`.
    fn mul_assign(&mut self, other: Self)
        requires
            old(self).mul_req(other),
        ensures
            <Self as MulSpec>::obeys_mul_spec() ==> *final(self) == old(self).mul_spec(other),
    {
        *self = *self * other
    }
}

impl<T: Copy> DivAssign for Vec4<T> where Self: Div<Output = Self> {
    /// Leaves `self / other` in `self`.
    fn div_assign(&mut self, other: Self)
        requires
            old(self).div_req(other),
        ensures
            <Self as DivSpec>::obeys_div_spec() ==> *final(self) == old(self).div_spec(other),
    {
        *self = *self / other
    }
}

impl<T: Copy> MulAssign<T> for Vec4<T> where Self: Mul<T, Output = Self> {
    /// Leaves `self * other` in `self`, for the scalar `other`.
    fn mul_assign(&mut self, other: T)
        requires
            old(self).mul_req(other),
        ensures
            <Self as MulSpec<T>>::obeys_mul_spec() ==> *final(self) == old(self).mul_spec(other),
    {
        *self = *self * other
    }
}

impl<T: Copy> DivAssign<T> for Vec4<T> where Self: Div<T, Output = Self> {
    /// Leaves `self / other` in `self`, for the scalar `other`.
    fn div_assign(&mut self, other: T)
        requires
            old(self).div_req(other),
        ensures
            <Self as DivSpec<T>>::obeys_div_spec() ==> *final(self) == old(self).div_spec(other),
    {
        *self = *self / other
    }
}

} // verus!
