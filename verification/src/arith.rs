//! Componentwise arithmetic between two vectors of one arity, and negation.
//!
//! Each operator asks of every pair of components what the element type's
//! own operator asks of its operands, and gives, for an element type whose
//! operator is specified, the vector of the componentwise results.

use crate::vector::{Vec2, Vec3, Vec4};
use std::ops::{Add, Div, Mul, Neg, Sub};
use vstd::prelude::*;
use vstd::std_specs::ops::{AddSpec, DivSpec, MulSpec, NegSpec, SubSpec};

verus! {

impl<T: Copy + Add<Output = T>> vstd::std_specs::ops::AddSpecImpl for Vec2<T> {
    open spec fn obeys_add_spec() -> bool {
        T::obeys_add_spec()
    }

    open spec fn add_req(self, other: Self) -> bool {
        &&& self@[0].add_req(other@[0])
        &&& self@[1].add_req(other@[1])
    }

    open spec fn add_spec(self, other: Self) -> Self {
        Vec2([self@[0].add_spec(other@[0]), self@[1].add_spec(other@[1])])
    }
}

impl<T: Copy + Add<Output = T>> Add for Vec2<T> {
    type Output = Self;

    /// The componentwise sum `self + other`. It asks for
    /// `self.add_req(other)`: that the element type's `+` can be applied to
    /// each pair of components.
    fn add(self, other: Self) -> (result: Self)
        ensures
            T::obeys_add_spec() ==> result@[0] == self@[0].add_spec(other@[0]),
            T::obeys_add_spec() ==> result@[1] == self@[1].add_spec(other@[1]),
    {
        let result = self.zipmap(
            other,
            |x: T, y: T| -> (r: T)
                requires
                    x.add_req(y),
                ensures
                    T::obeys_add_spec() ==> r == x.add_spec(y)
            {
                x + y
            },
        );
        assert(T::obeys_add_spec() ==> result =~= Vec2([self@[0].add_spec(other@[0]), self@[1].add_spec(other@[1])]));
        result
    }
}

impl<T: Copy + Sub<Output = T>> vstd::std_specs::ops::SubSpecImpl for Vec2<T> {
    open spec fn obeys_sub_spec() -> bool {
        T::obeys_sub_spec()
    }

    open spec fn sub_req(self, other: Self) -> bool {
        &&& self@[0].sub_req(other@[0])
        &&& self@[1].sub_req(other@[1])
    }

    open spec fn sub_spec(self, other: Self) -> Self {
        Vec2([self@[0].sub_spec(other@[0]), self@[1].sub_spec(other@[1])])
    }
}

impl<T: Copy + Sub<Output = T>> Sub for Vec2<T> {
    type Output = Self;

    /// The componentwise difference `self - other`. It asks for
    /// `self.sub_req(other)`: that the element type's `-` can be applied to
    /// each pair of components.
    fn sub(self, other: Self) -> (result: Self)
        ensures
            T::obeys_sub_spec() ==> result@[0] == self@[0].sub_spec(other@[0]),
            T::obeys_sub_spec() ==> result@[1] == self@[1].sub_spec(other@[1]),
    {
        let result = self.zipmap(
            other,
            |x: T, y: T| -> (r: T)
                requires
                    x.sub_req(y),
                ensures
                    T::obeys_sub_spec() ==> r == x.sub_spec(y)
            {
                x - y
            },
        );
        assert(T::obeys_sub_spec() ==> result =~= Vec2([self@[0].sub_spec(other@[0]), self@[1].sub_spec(other@[1])]));
        result
    }
}

impl<T: Copy + Mul<Output = T>> vstd::std_specs::ops::MulSpecImpl for Vec2<T> {
    open spec fn obeys_mul_spec() -> bool {
        T::obeys_mul_spec()
    }

    open spec fn mul_req(self, other: Self) -> bool {
        &&& self@[0].mul_req(other@[0])
        &&& self@[1].mul_req(other@[1])
    }

    open spec fn mul_spec(self, other: Self) -> Self {
        Vec2([self@[0].mul_spec(other@[0]), self@[1].mul_spec(other@[1])])
    }
}

impl<T: Copy + Mul<Output = T>> Mul for Vec2<T> {
    type Output = Self;

    /// The componentwise product `self * other`. It asks for
    /// `self.mul_req(other)`: that the element type's `*` can be applied to
    /// each pair of components.
    fn mul(self, other: Self) -> (result: Self)
        ensures
            T::obeys_mul_spec() ==> result@[0] == self@[0].mul_spec(other@[0]),
            T::obeys_mul_spec() ==> result@[1] == self@[1].mul_spec(other@[1]),
    {
        let result = self.zipmap(
            other,
            |x: T, y: T| -> (r: T)
                requires
                    x.mul_req(y),
                ensures
                    T::obeys_mul_spec() ==> r == x.mul_spec(y)
            {
                x * y
            },
        );
        assert(T::obeys_mul_spec() ==> result =~= Vec2([self@[0].mul_spec(other@[0]), self@[1].mul_spec(other@[1])]));
        result
    }
}

impl<T: Copy + Div<Output = T>> vstd::std_specs::ops::DivSpecImpl for Vec2<T> {
    open spec fn obeys_div_spec() -> bool {
        T::obeys_div_spec()
    }

    open spec fn div_req(self, other: Self) -> bool {
        &&& self@[0].div_req(other@[0])
        &&& self@[1].div_req(other@[1])
    }

    open spec fn div_spec(self, other: Self) -> Self {
        Vec2([self@[0].div_spec(other@[0]), self@[1].div_spec(other@[1])])
    }
}

impl<T: Copy + Div<Output = T>> Div for Vec2<T> {
    type Output = Self;

    /// The componentwise quotient `self / other`. It asks for
    /// `self.div_req(other)`: that the element type's `/` can be applied to
    /// each pair of components.
    fn div(self, other: Self) -> (result: Self)
        ensures
            T::obeys_div_spec() ==> result@[0] == self@[0].div_spec(other@[0]),
            T::obeys_div_spec() ==> result@[1] == self@[1].div_spec(other@[1]),
    {
        let result = self.zipmap(
            other,
            |x: T, y: T| -> (r: T)
                requires
                    x.div_req(y),
                ensures
                    T::obeys_div_spec() ==> r == x.div_spec(y)
            {
                x / y
            },
        );
        assert(T::obeys_div_spec() ==> result =~= Vec2([self@[0].div_spec(other@[0]), self@[1].div_spec(other@[1])]));
        result
    }
}

impl<T: Copy + Neg<Output = T>> vstd::std_specs::ops::NegSpecImpl for Vec2<T> {
    open spec fn obeys_neg_spec() -> bool {
        T::obeys_neg_spec()
    }

    open spec fn neg_req(self) -> bool {
        &&& self@[0].neg_req()
        &&& self@[1].neg_req()
    }

    open spec fn neg_spec(self) -> Self {
        Vec2([self@[0].neg_spec(), self@[1].neg_spec()])
    }
}

impl<T: Copy + Neg<Output = T>> Neg for Vec2<T> {
    type Output = Self;

    /// The componentwise negation `-self`. It asks for `self.neg_req()`: that
    /// each component can be negated.
    fn neg(self) -> (result: Self)
        ensures
            T::obeys_neg_spec() ==> result@[0] == self@[0].neg_spec(),
            T::obeys_neg_spec() ==> result@[1] == self@[1].neg_spec(),
    {
        let result = self.map(
            |x: T| -> (r: T)
                requires
                    x.neg_req(),
                ensures
                    T::obeys_neg_spec() ==> r == x.neg_spec()
            {
                x.neg()
            },
        );
        assert(T::obeys_neg_spec() ==> result =~= Vec2([self@[0].neg_spec(), self@[1].neg_spec()]));
        result
    }
}

impl<T: Copy + Add<Output = T>> vstd::std_specs::ops::AddSpecImpl for Vec3<T> {
    open spec fn obeys_add_spec() -> bool {
        T::obeys_add_spec()
    }

    open spec fn add_req(self, other: Self) -> bool {
        &&& self@[0].add_req(other@[0])
        &&& self@[1].add_req(other@[1])
        &&& self@[2].add_req(other@[2])
    }

    open spec fn add_spec(self, other: Self) -> Self {
        Vec3([self@[0].add_spec(other@[0]), self@[1].add_spec(other@[1]), self@[2].add_spec(other@[2])])
    }
}

impl<T: Copy + Add<Output = T>> Add for Vec3<T> {
    type Output = Self;

    /// The componentwise sum `self + other`. It asks for
    /// `self.add_req(other)`: that the element type's `+` can be applied to
    /// each pair of components.
    fn add(self, other: Self) -> (result: Self)
        ensures
            T::obeys_add_spec() ==> result@[0] == self@[0].add_spec(other@[0]),
            T::obeys_add_spec() ==> result@[1] == self@[1].add_spec(other@[1]),
            T::obeys_add_spec() ==> result@[2] == self@[2].add_spec(other@[2]),
    {
        let result = self.zipmap(
            other,
            |x: T, y: T| -> (r: T)
                requires
                    x.add_req(y),
                ensures
                    T::obeys_add_spec() ==> r == x.add_spec(y)
            {
                x + y
            },
        );
        assert(T::obeys_add_spec() ==> result =~= Vec3([self@[0].add_spec(other@[0]), self@[1].add_spec(other@[1]), self@[2].add_spec(other@[2])]));
        result
    }
}

impl<T: Copy + Sub<Output = T>> vstd::std_specs::ops::SubSpecImpl for Vec3<T> {
    open spec fn obeys_sub_spec() -> bool {
        T::obeys_sub_spec()
    }

    open spec fn sub_req(self, other: Self) -> bool {
        &&& self@[0].sub_req(other@[0])
        &&& self@[1].sub_req(other@[1])
        &&& self@[2].sub_req(other@[2])
    }

    open spec fn sub_spec(self, other: Self) -> Self {
        Vec3([self@[0].sub_spec(other@[0]), self@[1].sub_spec(other@[1]), self@[2].sub_spec(other@[2])])
    }
}

impl<T: Copy + Sub<Output = T>> Sub for Vec3<T> {
    type Output = Self;

    /// The componentwise difference `self - other`. It asks for
    /// `self.sub_req(other)`: that the element type's `-` can be applied to
    /// each pair of components.
    fn sub(self, other: Self) -> (result: Self)
        ensures
            T::obeys_sub_spec() ==> result@[0] == self@[0].sub_spec(other@[0]),
            T::obeys_sub_spec() ==> result@[1] == self@[1].sub_spec(other@[1]),
            T::obeys_sub_spec() ==> result@[2] == self@[2].sub_spec(other@[2]),
    {
        let result = self.zipmap(
            other,
            |x: T, y: T| -> (r: T)
                requires
                    x.sub_req(y),
                ensures
                    T::obeys_sub_spec() ==> r == x.sub_spec(y)
            {
                x - y
            },
        );
        assert(T::obeys_sub_spec() ==> result =~= Vec3([self@[0].sub_spec(other@[0]), self@[1].sub_spec(other@[1]), self@[2].sub_spec(other@[2])]));
        result
    }
}

impl<T: Copy + Mul<Output = T>> vstd::std_specs::ops::MulSpecImpl for Vec3<T> {
    open spec fn obeys_mul_spec() -> bool {
        T::obeys_mul_spec()
    }

    open spec fn mul_req(self, other: Self) -> bool {
        &&& self@[0].mul_req(other@[0])
        &&& self@[1].mul_req(other@[1])
        &&& self@[2].mul_req(other@[2])
    }

    open spec fn mul_spec(self, other: Self) -> Self {
        Vec3([self@[0].mul_spec(other@[0]), self@[1].mul_spec(other@[1]), self@[2].mul_spec(other@[2])])
    }
}

impl<T: Copy + Mul<Output = T>> Mul for Vec3<T> {
    type Output = Self;

    /// The componentwise product `self * other`. It asks for
    /// `self.mul_req(other)`: that the element type's `*` can be applied to
    /// each pair of components.
    fn mul(self, other: Self) -> (result: Self)
        ensures
            T::obeys_mul_spec() ==> result@[0] == self@[0].mul_spec(other@[0]),
            T::obeys_mul_spec() ==> result@[1] == self@[1].mul_spec(other@[1]),
            T::obeys_mul_spec() ==> result@[2] == self@[2].mul_spec(other@[2]),
    {
        let result = self.zipmap(
            other,
            |x: T, y: T| -> (r: T)
                requires
                    x.mul_req(y),
                ensures
                    T::obeys_mul_spec() ==> r == x.mul_spec(y)
            {
                x * y
            },
        );
        assert(T::obeys_mul_spec() ==> result =~= Vec3([self@[0].mul_spec(other@[0]), self@[1].mul_spec(other@[1]), self@[2].mul_spec(other@[2])]));
        result
    }
}

impl<T: Copy + Div<Output = T>> vstd::std_specs::ops::DivSpecImpl for Vec3<T> {
    open spec fn obeys_div_spec() -> bool {
        T::obeys_div_spec()
    }

    open spec fn div_req(self, other: Self) -> bool {
        &&& self@[0].div_req(other@[0])
        &&& self@[1].div_req(other@[1])
        &&& self@[2].div_req(other@[2])
    }

    open spec fn div_spec(self, other: Self) -> Self {
        Vec3([self@[0].div_spec(other@[0]), self@[1].div_spec(other@[1]), self@[2].div_spec(other@[2])])
    }
}

impl<T: Copy + Div<Output = T>> Div for Vec3<T> {
    type Output = Self;

    /// The componentwise quotient `self / other`. It asks for
    /// `self.div_req(other)`: that the element type's `/` can be applied to
    /// each pair of components.
    fn div(self, other: Self) -> (result: Self)
        ensures
            T::obeys_div_spec() ==> result@[0] == self@[0].div_spec(other@[0]),
            T::obeys_div_spec() ==> result@[1] == self@[1].div_spec(other@[1]),
            T::obeys_div_spec() ==> result@[2] == self@[2].div_spec(other@[2]),
    {
        let result = self.zipmap(
            other,
            |x: T, y: T| -> (r: T)
                requires
                    x.div_req(y),
                ensures
                    T::obeys_div_spec() ==> r == x.div_spec(y)
            {
                x / y
            },
        );
        assert(T::obeys_div_spec() ==> result =~= Vec3([self@[0].div_spec(other@[0]), self@[1].div_spec(other@[1]), self@[2].div_spec(other@[2])]));
        result
    }
}

impl<T: Copy + Neg<Output = T>> vstd::std_specs::ops::NegSpecImpl for Vec3<T> {
    open spec fn obeys_neg_spec() -> bool {
        T::obeys_neg_spec()
    }

    open spec fn neg_req(self) -> bool {
        &&& self@[0].neg_req()
        &&& self@[1].neg_req()
        &&& self@[2].neg_req()
    }

    open spec fn neg_spec(self) -> Self {
        Vec3([self@[0].neg_spec(), self@[1].neg_spec(), self@[2].neg_spec()])
    }
}

impl<T: Copy + Neg<Output = T>> Neg for Vec3<T> {
    type Output = Self;

    /// The componentwise negation `-self`. It asks for `self.neg_req()`: that
    /// each component can be negated.
    fn neg(self) -> (result: Self)
        ensures
            T::obeys_neg_spec() ==> result@[0] == self@[0].neg_spec(),
            T::obeys_neg_spec() ==> result@[1] == self@[1].neg_spec(),
            T::obeys_neg_spec() ==> result@[2] == self@[2].neg_spec(),
    {
        let result = self.map(
            |x: T| -> (r: T)
                requires
                    x.neg_req(),
                ensures
                    T::obeys_neg_spec() ==> r == x.neg_spec()
            {
                x.neg()
            },
        );
        assert(T::obeys_neg_spec() ==> result =~= Vec3([self@[0].neg_spec(), self@[1].neg_spec(), self@[2].neg_spec()]));
        result
    }
}

impl<T: Copy + Add<Output = T>> vstd::std_specs::ops::AddSpecImpl for Vec4<T> {
    open spec fn obeys_add_spec() -> bool {
        T::obeys_add_spec()
    }

    open spec fn add_req(self, other: Self) -> bool {
        &&& self@[0].add_req(other@[0])
        &&& self@[1].add_req(other@[1])
        &&& self@[2].add_req(other@[2])
        &&& self@[3].add_req(other@[3])
    }

    open spec fn add_spec(self, other: Self) -> Self {
        Vec4([self@[0].add_spec(other@[0]), self@[1].add_spec(other@[1]), self@[2].add_spec(other@[2]), self@[3].add_spec(other@[3])])
    }
}

impl<T: Copy + Add<Output = T>> Add for Vec4<T> {
    type Output = Self;

    /// The componentwise sum `self + other`. It asks for
    /// `self.add_req(other)`: that the element type's `+` can be applied to
    /// each pair of components.
    fn add(self, other: Self) -> (result: Self)
        ensures
            T::obeys_add_spec() ==> result@[0] == self@[0].add_spec(other@[0]),
            T::obeys_add_spec() ==> result@[1] == self@[1].add_spec(other@[1]),
            T::obeys_add_spec() ==> result@[2] == self@[2].add_spec(other@[2]),
            T::obeys_add_spec() ==> result@[3] == self@[3].add_spec(other@[3]),
    {
        let result = self.zipmap(
            other,
            |x: T, y: T| -> (r: T)
                requires
                    x.add_req(y),
                ensures
                    T::obeys_add_spec() ==> r == x.add_spec(y)
            {
                x + y
            },
        );
        assert(T::obeys_add_spec() ==> result =~= Vec4([self@[0].add_spec(other@[0]), self@[1].add_spec(other@[1]), self@[2].add_spec(other@[2]), self@[3].add_spec(other@[3])]));
        result
    }
}

impl<T: Copy + Sub<Output = T>> vstd::std_specs::ops::SubSpecImpl for Vec4<T> {
    open spec fn obeys_sub_spec() -> bool {
        T::obeys_sub_spec()
    }

    open spec fn sub_req(self, other: Self) -> bool {
        &&& self@[0].sub_req(other@[0])
        &&& self@[1].sub_req(other@[1])
        &&& self@[2].sub_req(other@[2])
        &&& self@[3].sub_req(other@[3])
    }

    open spec fn sub_spec(self, other: Self) -> Self {
        Vec4([self@[0].sub_spec(other@[0]), self@[1].sub_spec(other@[1]), self@[2].sub_spec(other@[2]), self@[3].sub_spec(other@[3])])
    }
}

impl<T: Copy + Sub<Output = T>> Sub for Vec4<T> {
    type Output = Self;

    /// The componentwise difference `self - other`. It asks for
    /// `self.sub_req(other)`: that the element type's `-` can be applied to
    /// each pair of components.
    fn sub(self, other: Self) -> (result: Self)
        ensures
            T::obeys_sub_spec() ==> result@[0] == self@[0].sub_spec(other@[0]),
            T::obeys_sub_spec() ==> result@[1] == self@[1].sub_spec(other@[1]),
            T::obeys_sub_spec() ==> result@[2] == self@[2].sub_spec(other@[2]),
            T::obeys_sub_spec() ==> result@[3] == self@[3].sub_spec(other@[3]),
    {
        let result = self.zipmap(
            other,
            |x: T, y: T| -> (r: T)
                requires
                    x.sub_req(y),
                ensures
                    T::obeys_sub_spec() ==> r == x.sub_spec(y)
            {
                x - y
            },
        );
        assert(T::obeys_sub_spec() ==> result =~= Vec4([self@[0].sub_spec(other@[0]), self@[1].sub_spec(other@[1]), self@[2].sub_spec(other@[2]), self@[3].sub_spec(other@[3])]));
        result
    }
}

impl<T: Copy + Mul<Output = T>> vstd::std_specs::ops::MulSpecImpl for Vec4<T> {
    open spec fn obeys_mul_spec() -> bool {
        T::obeys_mul_spec()
    }

    open spec fn mul_req(self, other: Self) -> bool {
        &&& self@[0].mul_req(other@[0])
        &&& self@[1].mul_req(other@[1])
        &&& self@[2].mul_req(other@[2])
        &&& self@[3].mul_req(other@[3])
    }

    open spec fn mul_spec(self, other: Self) -> Self {
        Vec4([self@[0].mul_spec(other@[0]), self@[1].mul_spec(other@[1]), self@[2].mul_spec(other@[2]), self@[3].mul_spec(other@[3])])
    }
}

impl<T: Copy + Mul<Output = T>> Mul for Vec4<T> {
    type Output = Self;

    /// The componentwise product `self * other`. It asks for
    /// `self.mul_req(other)`: that the element type's `*` can be applied to
    /// each pair of components.
    fn mul(self, other: Self) -> (result: Self)
        ensures
            T::obeys_mul_spec() ==> result@[0] == self@[0].mul_spec(other@[0]),
            T::obeys_mul_spec() ==> result@[1] == self@[1].mul_spec(other@[1]),
            T::obeys_mul_spec() ==> result@[2] == self@[2].mul_spec(other@[2]),
            T::obeys_mul_spec() ==> result@[3] == self@[3].mul_spec(other@[3]),
    {
        let result = self.zipmap(
            other,
            |x: T, y: T| -> (r: T)
                requires
                    x.mul_req(y),
                ensures
                    T::obeys_mul_spec() ==> r == x.mul_spec(y)
            {
                x * y
            },
        );
        assert(T::obeys_mul_spec() ==> result =~= Vec4([self@[0].mul_spec(other@[0]), self@[1].mul_spec(other@[1]), self@[2].mul_spec(other@[2]), self@[3].mul_spec(other@[3])]));
        result
    }
}

impl<T: Copy + Div<Output = T>> vstd::std_specs::ops::DivSpecImpl for Vec4<T> {
    open spec fn obeys_div_spec() -> bool {
        T::obeys_div_spec()
    }

    open spec fn div_req(self, other: Self) -> bool {
        &&& self@[0].div_req(other@[0])
        &&& self@[1].div_req(other@[1])
        &&& self@[2].div_req(other@[2])
        &&& self@[3].div_req(other@[3])
    }

    open spec fn div_spec(self, other: Self) -> Self {
        Vec4([self@[0].div_spec(other@[0]), self@[1].div_spec(other@[1]), self@[2].div_spec(other@[2]), self@[3].div_spec(other@[3])])
    }
}

impl<T: Copy + Div<Output = T>> Div for Vec4<T> {
    type Output = Self;

    /// The componentwise quotient `self / other`. It asks for
    /// `self.div_req(other)`: that the element type's `/` can be applied to
    /// each pair of components.
    fn div(self, other: Self) -> (result: Self)
        ensures
            T::obeys_div_spec() ==> result@[0] == self@[0].div_spec(other@[0]),
            T::obeys_div_spec() ==> result@[1] == self@[1].div_spec(other@[1]),
            T::obeys_div_spec() ==> result@[2] == self@[2].div_spec(other@[2]),
            T::obeys_div_spec() ==> result@[3] == self@[3].div_spec(other@[3]),
    {
        let result = self.zipmap(
            other,
            |x: T, y: T| -> (r: T)
                requires
                    x.div_req(y),
                ensures
                    T::obeys_div_spec() ==> r == x.div_spec(y)
            {
                x / y
            },
        );
        assert(T::obeys_div_spec() ==> result =~= Vec4([self@[0].div_spec(other@[0]), self@[1].div_spec(other@[1]), self@[2].div_spec(other@[2]), self@[3].div_spec(other@[3])]));
        result
    }
}

impl<T: Copy + Neg<Output = T>> vstd::std_specs::ops::NegSpecImpl for Vec4<T> {
    open spec fn obeys_neg_spec() -> bool {
        T::obeys_neg_spec()
    }

    open spec fn neg_req(self) -> bool {
        &&& self@[0].neg_req()
        &&& self@[1].neg_req()
        &&& self@[2].neg_req()
        &&& self@[3].neg_req()
    }

    open spec fn neg_spec(self) -> Self {
        Vec4([self@[0].neg_spec(), self@[1].neg_spec(), self@[2].neg_spec(), self@[3].neg_spec()])
    }
}

impl<T: Copy + Neg<Output = T>> Neg for Vec4<T> {
    type Output = Self;

    /// The componentwise negation `-self`. It asks for `self.neg_req()`: that
    /// each component can be negated.
    fn neg(self) -> (result: Self)
        ensures
            T::obeys_neg_spec() ==> result@[0] == self@[0].neg_spec(),
            T::obeys_neg_spec() ==> result@[1] == self@[1].neg_spec(),
            T::obeys_neg_spec() ==> result@[2] == self@[2].neg_spec(),
            T::obeys_neg_spec() ==> result@[3] == self@[3].neg_spec(),
    {
        let result = self.map(
            |x: T| -> (r: T)
                requires
                    x.neg_req(),
                ensures
                    T::obeys_neg_spec() ==> r == x.neg_spec()
            {
                x.neg()
            },
        );
        assert(T::obeys_neg_spec() ==> result =~= Vec4([self@[0].neg_spec(), self@[1].neg_spec(), self@[2].neg_spec(), self@[3].neg_spec()]));
        result
    }
}

} // verus!
