//! Fixed-arity vector values of two, three and four components.
//!
//! A vector is an ordered sequence of components of one element type. Its
//! model is the `Seq` of its components, in index order; every operation of
//! this crate is stated over that sequence.

use vstd::prelude::*;
use vstd::std_specs::cmp::PartialEqSpec;

verus! {

/// A vector of two components.
#[verifier::ext_equal]
#[derive(Debug, Copy, Eq, Hash)]
pub struct Vec2<T: Copy>(pub [T; 2]);

impl<T: Copy> View for Vec2<T> {
    type V = Seq<T>;

    open spec fn view(&self) -> Seq<T> {
        self.0@
    }
}

/// Builds the vector `(x, y)`.
pub fn vec2<T: Copy>(x: T, y: T) -> (v: Vec2<T>)
    ensures
        v@[0] == x,
        v@[1] == y,
{
    Vec2([x, y])
}

impl<T: Copy> Vec2<T> {
    /// Applies `operator` to each component, in index order.
    pub fn map<F, U>(&self, operator: F) -> (result: Vec2<U>) where U: Copy, F: Fn(T) -> U
        requires
            call_requires(operator, (self@[0],)),
            call_requires(operator, (self@[1],)),
        ensures
            call_ensures(operator, (self@[0],), result@[0]),
            call_ensures(operator, (self@[1],), result@[1]),
    {
        let r0 = operator(self.0[0]);
        let r1 = operator(self.0[1]);
        Vec2([r0, r1])
    }

    /// Applies `operator` to the components of `self` and `other` that share
    /// an index, in index order.
    pub fn zipmap<F, U, V>(&self, other: Vec2<U>, operator: F) -> (result: Vec2<V>) where
        U: Copy,
        V: Copy,
        F: Fn(T, U) -> V,
        requires
            call_requires(operator, (self@[0], other@[0])),
            call_requires(operator, (self@[1], other@[1])),
        ensures
            call_ensures(operator, (self@[0], other@[0]), result@[0]),
            call_ensures(operator, (self@[1], other@[1]), result@[1]),
    {
        let r0 = operator(self.0[0], other.0[0]);
        let r1 = operator(self.0[1], other.0[1]);
        Vec2([r0, r1])
    }

    /// The components as an array.
    pub fn as_array(&self) -> (a: [T; 2])
        ensures
            a == self.0,
    {
        self.0
    }

    /// The components as a tuple.
    pub fn as_tuple(&self) -> (t: (T, T))
        ensures
            t == (self@[0], self@[1]),
    {
        (self.0[0], self.0[1])
    }
}

impl<T: Copy> Clone for Vec2<T> {
    fn clone(&self) -> (copy: Self)
        ensures
            copy == *self,
    {
        *self
    }
}

impl<T: Copy + PartialEq> PartialEq for Vec2<T> {
    /// Compares the components pairwise, in index order.
    fn eq(&self, other: &Self) -> (equal: bool) {
        self.0[0] == other.0[0] && self.0[1] == other.0[1]
    }
}

impl<T: Copy + PartialEq> vstd::std_specs::cmp::PartialEqSpecImpl for Vec2<T> {
    open spec fn obeys_eq_spec() -> bool {
        T::obeys_eq_spec()
    }

    open spec fn eq_spec(&self, other: &Self) -> bool {
        &&& self@[0].eq_spec(&other@[0])
        &&& self@[1].eq_spec(&other@[1])
    }
}

impl<T: Copy + Default> Default for Vec2<T> {
    /// The vector whose every component is the element type's default.
    fn default() -> (v: Self)
        ensures
            call_ensures(T::default, (), v@[0]),
            call_ensures(T::default, (), v@[1]),
    {
        let d0 = T::default();
        let d1 = T::default();
        Vec2([d0, d1])
    }
}

/// A vector of three components.
#[verifier::ext_equal]
#[derive(Debug, Copy, Eq, Hash)]
pub struct Vec3<T: Copy>(pub [T; 3]);

impl<T: Copy> View for Vec3<T> {
    type V = Seq<T>;

    open spec fn view(&self) -> Seq<T> {
        self.0@
    }
}

/// Builds the vector `(x, y, z)`.
pub fn vec3<T: Copy>(x: T, y: T, z: T) -> (v: Vec3<T>)
    ensures
        v@[0] == x,
        v@[1] == y,
        v@[2] == z,
{
    Vec3([x, y, z])
}

impl<T: Copy> Vec3<T> {
    /// Applies `operator` to each component, in index order.
    pub fn map<F, U>(&self, operator: F) -> (result: Vec3<U>) where U: Copy, F: Fn(T) -> U
        requires
            call_requires(operator, (self@[0],)),
            call_requires(operator, (self@[1],)),
            call_requires(operator, (self@[2],)),
        ensures
            call_ensures(operator, (self@[0],), result@[0]),
            call_ensures(operator, (self@[1],), result@[1]),
            call_ensures(operator, (self@[2],), result@[2]),
    {
        let r0 = operator(self.0[0]);
        let r1 = operator(self.0[1]);
        let r2 = operator(self.0[2]);
        Vec3([r0, r1, r2])
    }

    /// Applies `operator` to the components of `self` and `other` that share
    /// an index, in index order.
    pub fn zipmap<F, U, V>(&self, other: Vec3<U>, operator: F) -> (result: Vec3<V>) where
        U: Copy,
        V: Copy,
        F: Fn(T, U) -> V,
        requires
            call_requires(operator, (self@[0], other@[0])),
            call_requires(operator, (self@[1], other@[1])),
            call_requires(operator, (self@[2], other@[2])),
        ensures
            call_ensures(operator, (self@[0], other@[0]), result@[0]),
            call_ensures(operator, (self@[1], other@[1]), result@[1]),
            call_ensures(operator, (self@[2], other@[2]), result@[2]),
    {
        let r0 = operator(self.0[0], other.0[0]);
        let r1 = operator(self.0[1], other.0[1]);
        let r2 = operator(self.0[2], other.0[2]);
        Vec3([r0, r1, r2])
    }

    /// The components as an array.
    pub fn as_array(&self) -> (a: [T; 3])
        ensures
            a == self.0,
    {
        self.0
    }

    /// The components as a tuple.
    pub fn as_tuple(&self) -> (t: (T, T, T))
        ensures
            t == (self@[0], self@[1], self@[2]),
    {
        (self.0[0], self.0[1], self.0[2])
    }
}

impl<T: Copy> Clone for Vec3<T> {
    fn clone(&self) -> (copy: Self)
        ensures
            copy == *self,
    {
        *self
    }
}

impl<T: Copy + PartialEq> PartialEq for Vec3<T> {
    /// Compares the components pairwise, in index order.
    fn eq(&self, other: &Self) -> (equal: bool) {
        self.0[0] == other.0[0] && self.0[1] == other.0[1] && self.0[2] == other.0[2]
    }
}

impl<T: Copy + PartialEq> vstd::std_specs::cmp::PartialEqSpecImpl for Vec3<T> {
    open spec fn obeys_eq_spec() -> bool {
        T::obeys_eq_spec()
    }

    open spec fn eq_spec(&self, other: &Self) -> bool {
        &&& self@[0].eq_spec(&other@[0])
        &&& self@[1].eq_spec(&other@[1])
        &&& self@[2].eq_spec(&other@[2])
    }
}

impl<T: Copy + Default> Default for Vec3<T> {
    /// The vector whose every component is the element type's default.
    fn default() -> (v: Self)
        ensures
            call_ensures(T::default, (), v@[0]),
            call_ensures(T::default, (), v@[1]),
            call_ensures(T::default, (), v@[2]),
    {
        let d0 = T::default();
        let d1 = T::default();
        let d2 = T::default();
        Vec3([d0, d1, d2])
    }
}

/// A vector of four components.
#[verifier::ext_equal]
#[derive(Debug, Copy, Eq, Hash)]
pub struct Vec4<T: Copy>(pub [T; 4]);

impl<T: Copy> View for Vec4<T> {
    type V = Seq<T>;

    open spec fn view(&self) -> Seq<T> {
        self.0@
    }
}

/// Builds the vector `(x, y, z, w)`.
pub fn vec4<T: Copy>(x: T, y: T, z: T, w: T) -> (v: Vec4<T>)
    ensures
        v@[0] == x,
        v@[1] == y,
        v@[2] == z,
        v@[3] == w,
{
    Vec4([x, y, z, w])
}

impl<T: Copy> Vec4<T> {
    /// Applies `operator` to each component, in index order.
    pub fn map<F, U>(&self, operator: F) -> (result: Vec4<U>) where U: Copy, F: Fn(T) -> U
        requires
            call_requires(operator, (self@[0],)),
            call_requires(operator, (self@[1],)),
            call_requires(operator, (self@[2],)),
            call_requires(operator, (self@[3],)),
        ensures
            call_ensures(operator, (self@[0],), result@[0]),
            call_ensures(operator, (self@[1],), result@[1]),
            call_ensures(operator, (self@[2],), result@[2]),
            call_ensures(operator, (self@[3],), result@[3]),
    {
        let r0 = operator(self.0[0]);
        let r1 = operator(self.0[1]);
        let r2 = operator(self.0[2]);
        let r3 = operator(self.0[3]);
        Vec4([r0, r1, r2, r3])
    }

    /// Applies `operator` to the components of `self` and `other` that share
    /// an index, in index order.
    pub fn zipmap<F, U, V>(&self, other: Vec4<U>, operator: F) -> (result: Vec4<V>) where
        U: Copy,
        V: Copy,
        F: Fn(T, U) -> V,
        requires
            call_requires(operator, (self@[0], other@[0])),
            call_requires(operator, (self@[1], other@[1])),
            call_requires(operator, (self@[2], other@[2])),
            call_requires(operator, (self@[3], other@[3])),
        ensures
            call_ensures(operator, (self@[0], other@[0]), result@[0]),
            call_ensures(operator, (self@[1], other@[1]), result@[1]),
            call_ensures(operator, (self@[2], other@[2]), result@[2]),
            call_ensures(operator, (self@[3], other@[3]), result@[3]),
    {
        let r0 = operator(self.0[0], other.0[0]);
        let r1 = operator(self.0[1], other.0[1]);
        let r2 = operator(self.0[2], other.0[2]);
        let r3 = operator(self.0[3], other.0[3]);
        Vec4([r0, r1, r2, r3])
    }

    /// The components as an array.
    pub fn as_array(&self) -> (a: [T; 4])
        ensures
            a == self.0,
    {
        self.0
    }

    /// The components as a tuple.
    pub fn as_tuple(&self) -> (t: (T, T, T, T))
        ensures
            t == (self@[0], self@[1], self@[2], self@[3]),
    {
        (self.0[0], self.0[1], self.0[2], self.0[3])
    }
}

impl<T: Copy> Clone for Vec4<T> {
    fn clone(&self) -> (copy: Self)
        ensures
            copy == *self,
    {
        *self
    }
}

impl<T: Copy + PartialEq> PartialEq for Vec4<T> {
    /// Compares the components pairwise, in index order.
    fn eq(&self, other: &Self) -> (equal: bool) {
        self.0[0] == other.0[0] && self.0[1] == other.0[1] && self.0[2] == other.0[2] && self.0[3] == other.0[3]
    }
}

impl<T: Copy + PartialEq> vstd::std_specs::cmp::PartialEqSpecImpl for Vec4<T> {
    open spec fn obeys_eq_spec() -> bool {
        T::obeys_eq_spec()
    }

    open spec fn eq_spec(&self, other: &Self) -> bool {
        &&& self@[0].eq_spec(&other@[0])
        &&& self@[1].eq_spec(&other@[1])
        &&& self@[2].eq_spec(&other@[2])
        &&& self@[3].eq_spec(&other@[3])
    }
}

impl<T: Copy + Default> Default for Vec4<T> {
    /// The vector whose every component is the element type's default.
    fn default() -> (v: Self)
        ensures
            call_ensures(T::default, (), v@[0]),
            call_ensures(T::default, (), v@[1]),
            call_ensures(T::default, (), v@[2]),
            call_ensures(T::default, (), v@[3]),
    {
        let d0 = T::default();
        let d1 = T::default();
        let d2 = T::default();
        let d3 = T::default();
        Vec4([d0, d1, d2, d3])
    }
}

} // verus!
