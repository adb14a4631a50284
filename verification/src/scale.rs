//! Arithmetic between a vector and one scalar of its element type: the
//! scalar is applied to every component.

use crate::vector::{Vec2, Vec3, Vec4};
use std::ops::{Div, Mul};
use vstd::prelude::*;
use vstd::std_specs::ops::{DivSpec, MulSpec};

verus! {

impl<T: Copy + Mul<Output = T>> vstd::std_specs::ops::MulSpecImpl<T> for Vec2<T> {
    open spec fn obeys_mul_spec() -> bool {
        T::obeys_mul_spec()
    }

    open spec fn mul_req(self, other: T) -> bool {
        &&& self@[0].mul_req(other)
        &&& self@[1].mul_req(other)
    }

    open spec fn mul_spec(self, other: T) -> Self {
        Vec2([self@[0].mul_spec(other), self@[1].mul_spec(other)])
    }
}

impl<T: Copy + Mul<Output = T>> Mul<T> for Vec2<T> {
    type Output = Self;

    /// The product of every component with the scalar `other`. It asks
    /// for `self.mul_req(other)`: that the element type's `*` can be applied
    /// to each component and `other`.
    fn mul(self, other: T) -> (result: Self)
        ensures
            T::obeys_mul_spec() ==> result@[0] == self@[0].mul_spec(other),
            T::obeys_mul_spec() ==> result@[1] == self@[1].mul_spec(other),
    {
        let result = self.map(
            |x: T| -> (r: T)
                requires
                    x.mul_req(other),
                ensures
                    T::obeys_mul_spec() ==> r == x.mul_spec(other)
            {
                x * other
            },
        );
        assert(T::obeys_mul_spec() ==> result =~= Vec2([self@[0].mul_spec(other), self@[1].mul_spec(other)]));
        result
    }
}

impl<T: Copy + Div<Output = T>> vstd::std_specs::ops::DivSpecImpl<T> for Vec2<T> {
    open spec fn obeys_div_spec() -> bool {
        T::obeys_div_spec()
    }

    open spec fn div_req(self, other: T) -> bool {
        &&& self@[0].div_req(other)
        &&& self@[1].div_req(other)
    }

    open spec fn div_spec(self, other: T) -> Self {
        Vec2([self@[0].div_spec(other), self@[1].div_spec(other)])
    }
}

impl<T: Copy + Div<Output = T>> Div<T> for Vec2<T> {
    type Output = Self;

    /// The quotient of every component by the scalar `other`. It asks
    /// for `self.div_req(other)`: that the element type's `/` can be applied
    /// to each component and `other`.
    fn div(self, other: T) -> (result: Self)
        ensures
            T::obeys_div_spec() ==> result@[0] == self@[0].div_spec(other),
            T::obeys_div_spec() ==> result@[1] == self@[1].div_spec(other),
    {
        let result = self.map(
            |x: T| -> (r: T)
                requires
                    x.div_req(other),
                ensures
                    T::obeys_div_spec() ==> r == x.div_spec(other)
            {
                x / other
            },
        );
        assert(T::obeys_div_spec() ==> result =~= Vec2([self@[0].div_spec(other), self@[1].div_spec(other)]));
        result
    }
}

impl<T: Copy + Mul<Output = T>> vstd::std_specs::ops::MulSpecImpl<T> for Vec3<T> {
    open spec fn obeys_mul_spec() -> bool {
        T::obeys_mul_spec()
    }

    open spec fn mul_req(self, other: T) -> bool {
        &&& self@[0].mul_req(other)
        &&& self@[1].mul_req(other)
        &&& self@[2].mul_req(other)
    }

    open spec fn mul_spec(self, other: T) -> Self {
        Vec3([self@[0].mul_spec(other), self@[1].mul_spec(other), self@[2].mul_spec(other)])
    }
}

impl<T: Copy + Mul<Output = T>> Mul<T> for Vec3<T> {
    type Output = Self;

    /// The product of every component with the scalar `other`. It asks
    /// for `self.mul_req(other)`: that the element type's `*` can be applied
    /// to each component and `other`.
    fn mul(self, other: T) -> (result: Self)
        ensures
            T::obeys_mul_spec() ==> result@[0] == self@[0].mul_spec(other),
            T::obeys_mul_spec() ==> result@[1] == self@[1].mul_spec(other),
            T::obeys_mul_spec() ==> result@[2] == self@[2].mul_spec(other),
    {
        let result = self.map(
            |x: T| -> (r: T)
                requires
                    x.mul_req(other),
                ensures
                    T::obeys_mul_spec() ==> r == x.mul_spec(other)
            {
                x * other
            },
        );
        assert(T::obeys_mul_spec() ==> result =~= Vec3([self@[0].mul_spec(other), self@[1].mul_spec(other), self@[2].mul_spec(other)]));
        result
    }
}

impl<T: Copy + Div<Output = T>> vstd::std_specs::ops::DivSpecImpl<T> for Vec3<T> {
    open spec fn obeys_div_spec() -> bool {
        T::obeys_div_spec()
    }

    open spec fn div_req(self, other: T) -> bool {
        &&& self@[0].div_req(other)
        &&& self@[1].div_req(other)
        &&& self@[2].div_req(other)
    }

    open spec fn div_spec(self, other: T) -> Self {
        Vec3([self@[0].div_spec(other), self@[1].div_spec(other), self@[2].div_spec(other)])
    }
}

impl<T: Copy + Div<Output = T>> Div<T> for Vec3<T> {
    type Output = Self;

    /// The quotient of every component by the scalar `other`. It asks
    /// for `self.div_req(other)`: that the element type's `/` can be applied
    /// to each component and `other`.
    fn div(self, other: T) -> (result: Self)
        ensures
            T::obeys_div_spec() ==> result@[0] == self@[0].div_spec(other),
            T::obeys_div_spec() ==> result@[1] == self@[1].div_spec(other),
            T::obeys_div_spec() ==> result@[2] == self@[2].div_spec(other),
    {
        let result = self.map(
            |x: T| -> (r: T)
                requires
                    x.div_req(other),
                ensures
                    T::obeys_div_spec() ==> r == x.div_spec(other)
            {
                x / other
            },
        );
        assert(T::obeys_div_spec() ==> result =~= Vec3([self@[0].div_spec(other), self@[1].div_spec(other), self@[2].div_spec(other)]));
        result
    }
}

impl<T: Copy + Mul<Output = T>> vstd::std_specs::ops::MulSpecImpl<T> for Vec4<T> {
    open spec fn obeys_mul_spec() -> bool {
        T::obeys_mul_spec()
    }

    open spec fn mul_req(self, other: T) -> bool {
        &&& self@[0].mul_req(other)
        &&& self@[1].mul_req(other)
        &&& self@[2].mul_req(other)
        &&& self@[3].mul_req(other)
    }

    open spec fn mul_spec(self, other: T) -> Self {
        Vec4([self@[0].mul_spec(other), self@[1].mul_spec(other), self@[2].mul_spec(other), self@[3].mul_spec(other)])
    }
}

impl<T: Copy + Mul<Output = T>> Mul<T> for Vec4<T> {
    type Output = Self;

    /// The product of every component with the scalar `other`. It asks
    /// for `self.mul_req(other)`: that the element type's `*` can be applied
    /// to each component and `other`.
    fn mul(self, other: T) -> (result: Self)
        ensures
            T::obeys_mul_spec() ==> result@[0] == self@[0].mul_spec(other),
            T::obeys_mul_spec() ==> result@[1] == self@[1].mul_spec(other),
            T::obeys_mul_spec() ==> result@[2] == self@[2].mul_spec(other),
            T::obeys_mul_spec() ==> result@[3] == self@[3].mul_spec(other),
    {
        let result = self.map(
            |x: T| -> (r: T)
                requires
                    x.mul_req(other),
                ensures
                    T::obeys_mul_spec() ==> r == x.mul_spec(other)
            {
                x * other
            },
        );
        assert(T::obeys_mul_spec() ==> result =~= Vec4([self@[0].mul_spec(other), self@[1].mul_spec(other), self@[2].mul_spec(other), self@[3].mul_spec(other)]));
        result
    }
}

impl<T: Copy + Div<Output = T>> vstd::std_specs::ops::DivSpecImpl<T> for Vec4<T> {
    open spec fn obeys_div_spec() -> bool {
        T::obeys_div_spec()
    }

    open spec fn div_req(self, other: T) -> bool {
        &&& self@[0].div_req(other)
        &&& self@[1].div_req(other)
        &&& self@[2].div_req(other)
        &&& self@[3].div_req(other)
    }

    open spec fn div_spec(self, other: T) -> Self {
        Vec4([self@[0].div_spec(other), self@[1].div_spec(other), self@[2].div_spec(other), self@[3].div_spec(other)])
    }
}

impl<T: Copy + Div<Output = T>> Div<T> for Vec4<T> {
    type Output = Self;

    /// The quotient of every component by the scalar `other`. It asks
    /// for `self.div_req(other)`: that the element type's `/` can be applied
    /// to each component and `other`.
    fn div(self, other: T) -> (result: Self)
        ensures
            T::obeys_div_spec() ==> result@[0] == self@[0].div_spec(other),
            T::obeys_div_spec() ==> result@[1] == self@[1].div_spec(other),
            T::obeys_div_spec() ==> result@[2] == self@[2].div_spec(other),
            T::obeys_div_spec() ==> result@[3] == self@[3].div_spec(other),
    {
        let result = self.map(
            |x: T| -> (r: T)
                requires
                    x.div_req(other),
                ensures
                    T::obeys_div_spec() ==> r == x.div_spec(other)
            {
                x / other
            },
        );
        assert(T::obeys_div_spec() ==> result =~= Vec4([self@[0].div_spec(other), self@[1].div_spec(other), self@[2].div_spec(other), self@[3].div_spec(other)]));
        result
    }
}

} // verus!
