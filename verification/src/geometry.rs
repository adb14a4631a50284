//! The geometric products: the sum of a vector's components, the dot
//! product, the squared magnitude, the projection of one vector onto another
//! and, for three components, the cross product.
//!
//! Every operation is made of the element type's own operators, applied in a
//! fixed order. What an operation asks for is that each of them may be
//! applied in its turn, whatever the earlier ones have left. For an element
//! type whose operators are specified that is one condition per operator, on
//! the specified intermediate values.

use crate::vector::{Vec2, Vec3, Vec4};
use std::ops::{Add, Div, Mul, Sub};
use vstd::prelude::*;
use vstd::std_specs::ops::{AddSpec, DivSpec, MulSpec, SubSpec};

verus! {

/// Whether `r` is a value that `x + y` may leave: the specified sum where the
/// addition of `T` is specified, any value where it is not.
pub open spec fn is_sum<T: Add<Output = T>>(x: T, y: T, r: T) -> bool {
    T::obeys_add_spec() ==> r == x.add_spec(y)
}

/// Whether `r` is a value that `x - y` may leave.
pub open spec fn is_difference<T: Sub<Output = T>>(x: T, y: T, r: T) -> bool {
    T::obeys_sub_spec() ==> r == x.sub_spec(y)
}

/// Whether `r` is a value that `x * y` may leave.
pub open spec fn is_product<T: Mul<Output = T>>(x: T, y: T, r: T) -> bool {
    T::obeys_mul_spec() ==> r == x.mul_spec(y)
}

/// Whether `r` is a value that `x / y` may leave.
pub open spec fn is_quotient<T: Div<Output = T>>(x: T, y: T, r: T) -> bool {
    T::obeys_div_spec() ==> r == x.div_spec(y)
}

impl<T: Copy + Add<Output = T>> Vec2<T> {
    /// Whether the components can be summed in index order: each addition
    /// may be applied to what the earlier ones may have left.
    pub open spec fn sum_req(self) -> bool {
        &&& self@[0].add_req(self@[1])
    }

    /// The components summed in index order.
    pub open spec fn sum_spec(self) -> T {
        self@[0].add_spec(self@[1])
    }

    /// The sum of the components, accumulated in index order.
    pub fn sum(&self) -> (total: T)
        requires
            self.sum_req(),
        ensures
            T::obeys_add_spec() ==> total == self.sum_spec(),
    {
        self.0[0] + self.0[1]
    }
}

impl<T: Copy + Mul<Output = T> + Add<Output = T>> Vec2<T> {
    /// Whether the dot product of `self` and `other` can be computed: the
    /// components can be multiplied pairwise, and the products summed.
    pub open spec fn dot_req(self, other: Self) -> bool {
        &&& self.mul_req(other)
        &&& forall|p: Self| #[trigger] is_product(self, other, p) ==> p.sum_req()
    }

    /// The sum over the index `i`, in ascending order, of `self[i] * other[i]`.
    pub open spec fn dot_spec(self, other: Self) -> T {
        self@[0].mul_spec(other@[0]).add_spec(self@[1].mul_spec(other@[1]))
    }

    /// Whether `d` is a value that `self.dot(other)` may leave.
    pub open spec fn is_dot(self, other: Self, d: T) -> bool {
        T::obeys_mul_spec() && T::obeys_add_spec() ==> d == self.dot_spec(other)
    }

    /// The dot product of `self` and `other`: the products of the components
    /// that share an index, summed in ascending index order.
    pub fn dot(&self, other: Self) -> (result: T)
        requires
            self.dot_req(other),
        ensures
            T::obeys_mul_spec() && T::obeys_add_spec() ==> result == self.dot_spec(other),
    {
        let products = *self * other;
        assert(is_product(*self, other, products));
        products.sum()
    }

    /// The squared magnitude: the dot product of `self` with itself.
    pub fn mag_sq(&self) -> (result: T)
        requires
            self.dot_req(*self),
        ensures
            T::obeys_mul_spec() && T::obeys_add_spec() ==> result == self.dot_spec(*self),
    {
        self.dot(*self)
    }
}

impl<T: Copy + Mul<Output = T> + Add<Output = T> + Div<Output = T>> Vec2<T> {
    /// Whether `self` can be projected onto `onto`: both dot products can be
    /// computed, the first can be divided by the second, and `onto` can be
    /// scaled by the quotient.
    pub open spec fn proj_req(self, onto: Self) -> bool {
        &&& self.dot_req(onto)
        &&& onto.dot_req(onto)
        &&& forall|n: T, d: T| self.is_dot(onto, n) && onto.is_dot(onto, d) ==> #[trigger] n.div_req(d)
        &&& forall|n: T, d: T, q: T|
            self.is_dot(onto, n) && onto.is_dot(onto, d) && #[trigger] is_quotient(n, d, q)
                ==> onto.mul_req(q)
    }

    /// `onto` scaled by `self.dot(onto) / onto.dot(onto)`.
    pub open spec fn proj_spec(self, onto: Self) -> Self {
        let ratio = self.dot_spec(onto).div_spec(onto.dot_spec(onto));
        Vec2([onto@[0].mul_spec(ratio), onto@[1].mul_spec(ratio)])
    }

    /// The projection of `self` onto `other`.
    pub fn proj(&self, other: Self) -> (result: Self)
        requires
            self.proj_req(other),
        ensures
            T::obeys_mul_spec() && T::obeys_add_spec() && T::obeys_div_spec() ==> result
                == self.proj_spec(other),
    {
        let along = self.dot(other);
        let length = other.dot(other);
        assert(self.is_dot(other, along) && other.is_dot(other, length));
        let ratio = along / length;
        assert(is_quotient(along, length, ratio));
        other * ratio
    }
}

impl<T: Copy + Add<Output = T>> Vec3<T> {
    /// Whether the components can be summed in index order: each addition
    /// may be applied to what the earlier ones may have left.
    pub open spec fn sum_req(self) -> bool {
        &&& self@[0].add_req(self@[1])
        &&& forall|s1: T| #[trigger] is_sum(self@[0], self@[1], s1) ==> s1.add_req(self@[2])
    }

    /// The components summed in index order.
    pub open spec fn sum_spec(self) -> T {
        self@[0].add_spec(self@[1]).add_spec(self@[2])
    }

    /// The sum of the components, accumulated in index order.
    pub fn sum(&self) -> (total: T)
        requires
            self.sum_req(),
        ensures
            T::obeys_add_spec() ==> total == self.sum_spec(),
    {
        let s1 = self.0[0] + self.0[1];
        assert(is_sum(self@[0], self@[1], s1));
        s1 + self.0[2]
    }
}

impl<T: Copy + Mul<Output = T> + Add<Output = T>> Vec3<T> {
    /// Whether the dot product of `self` and `other` can be computed: the
    /// components can be multiplied pairwise, and the products summed.
    pub open spec fn dot_req(self, other: Self) -> bool {
        &&& self.mul_req(other)
        &&& forall|p: Self| #[trigger] is_product(self, other, p) ==> p.sum_req()
    }

    /// The sum over the index `i`, in ascending order, of `self[i] * other[i]`.
    pub open spec fn dot_spec(self, other: Self) -> T {
        self@[0].mul_spec(other@[0]).add_spec(self@[1].mul_spec(other@[1])).add_spec(self@[2].mul_spec(other@[2]))
    }

    /// Whether `d` is a value that `self.dot(other)` may leave.
    pub open spec fn is_dot(self, other: Self, d: T) -> bool {
        T::obeys_mul_spec() && T::obeys_add_spec() ==> d == self.dot_spec(other)
    }

    /// The dot product of `self` and `other`: the products of the components
    /// that share an index, summed in ascending index order.
    pub fn dot(&self, other: Self) -> (result: T)
        requires
            self.dot_req(other),
        ensures
            T::obeys_mul_spec() && T::obeys_add_spec() ==> result == self.dot_spec(other),
    {
        let products = *self * other;
        assert(is_product(*self, other, products));
        products.sum()
    }

    /// The squared magnitude: the dot product of `self` with itself.
    pub fn mag_sq(&self) -> (result: T)
        requires
            self.dot_req(*self),
        ensures
            T::obeys_mul_spec() && T::obeys_add_spec() ==> result == self.dot_spec(*self),
    {
        self.dot(*self)
    }
}

impl<T: Copy + Mul<Output = T> + Add<Output = T> + Div<Output = T>> Vec3<T> {
    /// Whether `self` can be projected onto `onto`: both dot products can be
    /// computed, the first can be divided by the second, and `onto` can be
    /// scaled by the quotient.
    pub open spec fn proj_req(self, onto: Self) -> bool {
        &&& self.dot_req(onto)
        &&& onto.dot_req(onto)
        &&& forall|n: T, d: T| self.is_dot(onto, n) && onto.is_dot(onto, d) ==> #[trigger] n.div_req(d)
        &&& forall|n: T, d: T, q: T|
            self.is_dot(onto, n) && onto.is_dot(onto, d) && #[trigger] is_quotient(n, d, q)
                ==> onto.mul_req(q)
    }

    /// `onto` scaled by `self.dot(onto) / onto.dot(onto)`.
    pub open spec fn proj_spec(self, onto: Self) -> Self {
        let ratio = self.dot_spec(onto).div_spec(onto.dot_spec(onto));
        Vec3([onto@[0].mul_spec(ratio), onto@[1].mul_spec(ratio), onto@[2].mul_spec(ratio)])
    }

    /// The projection of `self` onto `other`.
    pub fn proj(&self, other: Self) -> (result: Self)
        requires
            self.proj_req(other),
        ensures
            T::obeys_mul_spec() && T::obeys_add_spec() && T::obeys_div_spec() ==> result
                == self.proj_spec(other),
    {
        let along = self.dot(other);
        let length = other.dot(other);
        assert(self.is_dot(other, along) && other.is_dot(other, length));
        let ratio = along / length;
        assert(is_quotient(along, length, ratio));
        other * ratio
    }
}

impl<T: Copy + Mul<Output = T> + Sub<Output = T>> Vec3<T> {
    /// Whether the cross product of `self` and `other` can be computed: the
    /// six products can be formed, and each pair of them subtracted.
    pub open spec fn cross_req(self, other: Self) -> bool {
        &&& self@[1].mul_req(other@[2])
        &&& self@[2].mul_req(other@[1])
        &&& self@[2].mul_req(other@[0])
        &&& self@[0].mul_req(other@[2])
        &&& self@[0].mul_req(other@[1])
        &&& self@[1].mul_req(other@[0])
        &&& forall|p: T, q: T|
            is_product(self@[1], other@[2], p) && is_product(self@[2], other@[1], q)
                ==> #[trigger] p.sub_req(q)
        &&& forall|p: T, q: T|
            is_product(self@[2], other@[0], p) && is_product(self@[0], other@[2], q)
                ==> #[trigger] p.sub_req(q)
        &&& forall|p: T, q: T|
            is_product(self@[0], other@[1], p) && is_product(self@[1], other@[0], q)
                ==> #[trigger] p.sub_req(q)
    }

    /// `(ay*bz - az*by, az*bx - ax*bz, ax*by - ay*bx)` for `self = (ax, ay, az)`
    /// and `other = (bx, by, bz)`.
    pub open spec fn cross_spec(self, other: Self) -> Self {
        Vec3(
            [
                self@[1].mul_spec(other@[2]).sub_spec(self@[2].mul_spec(other@[1])),
                self@[2].mul_spec(other@[0]).sub_spec(self@[0].mul_spec(other@[2])),
                self@[0].mul_spec(other@[1]).sub_spec(self@[1].mul_spec(other@[0])),
            ],
        )
    }

    /// The cross product of `self` and `other`.
    pub fn cross(&self, other: Self) -> (result: Self)
        requires
            self.cross_req(other),
        ensures
            T::obeys_mul_spec() && T::obeys_sub_spec() ==> result == self.cross_spec(other),
    {
        let (ax, ay, az) = self.as_tuple();
        let (bx, by, bz) = other.as_tuple();
        let x = ay * bz - az * by;
        let y = az * bx - ax * bz;
        let z = ax * by - ay * bx;
        let result = Vec3([x, y, z]);
        assert(T::obeys_mul_spec() && T::obeys_sub_spec() ==> result =~= self.cross_spec(other));
        result
    }
}

impl<T: Copy + Add<Output = T>> Vec4<T> {
    /// Whether the components can be summed in index order: each addition
    /// may be applied to what the earlier ones may have left.
    pub open spec fn sum_req(self) -> bool {
        &&& self@[0].add_req(self@[1])
        &&& forall|s1: T| #[trigger] is_sum(self@[0], self@[1], s1) ==> s1.add_req(self@[2])
        &&& forall|s1: T, s2: T|
            is_sum(self@[0], self@[1], s1) && #[trigger] is_sum(s1, self@[2], s2) ==> s2.add_req(
                self@[3],
            )
    }

    /// The components summed in index order.
    pub open spec fn sum_spec(self) -> T {
        self@[0].add_spec(self@[1]).add_spec(self@[2]).add_spec(self@[3])
    }

    /// The sum of the components, accumulated in index order.
    pub fn sum(&self) -> (total: T)
        requires
            self.sum_req(),
        ensures
            T::obeys_add_spec() ==> total == self.sum_spec(),
    {
        let s1 = self.0[0] + self.0[1];
        assert(is_sum(self@[0], self@[1], s1));
        let s2 = s1 + self.0[2];
        assert(is_sum(s1, self@[2], s2));
        s2 + self.0[3]
    }
}

impl<T: Copy + Mul<Output = T> + Add<Output = T>> Vec4<T> {
    /// Whether the dot product of `self` and `other` can be computed: the
    /// components can be multiplied pairwise, and the products summed.
    pub open spec fn dot_req(self, other: Self) -> bool {
        &&& self.mul_req(other)
        &&& forall|p: Self| #[trigger] is_product(self, other, p) ==> p.sum_req()
    }

    /// The sum over the index `i`, in ascending order, of `self[i] * other[i]`.
    pub open spec fn dot_spec(self, other: Self) -> T {
        self@[0].mul_spec(other@[0]).add_spec(self@[1].mul_spec(other@[1])).add_spec(self@[2].mul_spec(other@[2])).add_spec(self@[3].mul_spec(other@[3]))
    }

    /// Whether `d` is a value that `self.dot(other)` may leave.
    pub open spec fn is_dot(self, other: Self, d: T) -> bool {
        T::obeys_mul_spec() && T::obeys_add_spec() ==> d == self.dot_spec(other)
    }

    /// The dot product of `self` and `other`: the products of the components
    /// that share an index, summed in ascending index order.
    pub fn dot(&self, other: Self) -> (result: T)
        requires
            self.dot_req(other),
        ensures
            T::obeys_mul_spec() && T::obeys_add_spec() ==> result == self.dot_spec(other),
    {
        let products = *self * other;
        assert(is_product(*self, other, products));
        products.sum()
    }

    /// The squared magnitude: the dot product of `self` with itself.
    pub fn mag_sq(&self) -> (result: T)
        requires
            self.dot_req(*self),
        ensures
            T::obeys_mul_spec() && T::obeys_add_spec() ==> result == self.dot_spec(*self),
    {
        self.dot(*self)
    }
}

impl<T: Copy + Mul<Output = T> + Add<Output = T> + Div<Output = T>> Vec4<T> {
    /// Whether `self` can be projected onto `onto`: both dot products can be
    /// computed, the first can be divided by the second, and `onto` can be
    /// scaled by the quotient.
    pub open spec fn proj_req(self, onto: Self) -> bool {
        &&& self.dot_req(onto)
        &&& onto.dot_req(onto)
        &&& forall|n: T, d: T| self.is_dot(onto, n) && onto.is_dot(onto, d) ==> #[trigger] n.div_req(d)
        &&& forall|n: T, d: T, q: T|
            self.is_dot(onto, n) && onto.is_dot(onto, d) && #[trigger] is_quotient(n, d, q)
                ==> onto.mul_req(q)
    }

    /// `onto` scaled by `self.dot(onto) / onto.dot(onto)`.
    pub open spec fn proj_spec(self, onto: Self) -> Self {
        let ratio = self.dot_spec(onto).div_spec(onto.dot_spec(onto));
        Vec4([onto@[0].mul_spec(ratio), onto@[1].mul_spec(ratio), onto@[2].mul_spec(ratio), onto@[3].mul_spec(ratio)])
    }

    /// The projection of `self` onto `other`.
    pub fn proj(&self, other: Self) -> (result: Self)
        requires
            self.proj_req(other),
        ensures
            T::obeys_mul_spec() && T::obeys_add_spec() && T::obeys_div_spec() ==> result
                == self.proj_spec(other),
    {
        let along = self.dot(other);
        let length = other.dot(other);
        assert(self.is_dot(other, along) && other.is_dot(other, length));
        let ratio = along / length;
        assert(is_quotient(along, length, ratio));
        other * ratio
    }
}

} // verus!
