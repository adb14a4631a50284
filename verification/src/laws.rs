//! What holds of the operations together.
//!
//! The vectors take their arithmetic from the element type, so each law of
//! the vectors rests on the same law of the elements. The law of the elements
//! is a predicate on the element type; the fixed-width integers are shown to
//! meet each of them.

use crate::geometry::is_product;
use crate::vector::{Vec2, Vec3, Vec4};
use std::ops::{Add, Div, Mul, Sub};
use vstd::prelude::*;
use vstd::std_specs::ops::{AddSpec, DivSpec, MulSpec, SubSpec};

verus! {

/// Whether subtraction undoes addition in `T`: wherever `x + y` can be
/// computed, `y` can be subtracted from it, and that gives `x` back.
pub open spec fn sub_undoes_add<T: Add<Output = T> + Sub<Output = T>>() -> bool {
    forall|x: T, y: T|
        #![trigger x.add_req(y)]
        #![trigger x.add_spec(y)]
        x.add_req(y) ==> x.add_spec(y).sub_req(y) && x.add_spec(y).sub_spec(y) == x
}

/// Whether `one` is a right identity of the multiplication and of the
/// division of `T`.
pub open spec fn is_one<T: Mul<Output = T> + Div<Output = T>>(one: T) -> bool {
    &&& forall|x: T|
        #![trigger x.mul_req(one)]
        #![trigger x.mul_spec(one)]
        x.mul_req(one) && x.mul_spec(one) == x
    &&& forall|x: T|
        #![trigger x.div_req(one)]
        #![trigger x.div_spec(one)]
        x.div_req(one) && x.div_spec(one) == x
}

/// Whether every product of `T` with `zero` on the right is `zero`.
pub open spec fn is_zero<T: Mul<Output = T>>(zero: T) -> bool {
    forall|x: T|
        #![trigger x.mul_req(zero)]
        #![trigger x.mul_spec(zero)]
        x.mul_req(zero) && x.mul_spec(zero) == zero
}

/// Whether the multiplication of `T` is commutative, in what it asks and in
/// what it gives.
pub open spec fn mul_commutes<T: Mul<Output = T>>() -> bool {
    forall|x: T, y: T|
        #![trigger x.mul_req(y)]
        #![trigger x.mul_spec(y)]
        x.mul_req(y) == y.mul_req(x) && x.mul_spec(y) == y.mul_spec(x)
}

/// In each of the fixed-width integer types, subtraction undoes addition.
pub proof fn lemma_integers_sub_undoes_add()
    ensures
        sub_undoes_add::<u8>(),
        sub_undoes_add::<u16>(),
        sub_undoes_add::<u32>(),
        sub_undoes_add::<u64>(),
        sub_undoes_add::<usize>(),
        sub_undoes_add::<i8>(),
        sub_undoes_add::<i16>(),
        sub_undoes_add::<i32>(),
        sub_undoes_add::<i64>(),
        sub_undoes_add::<isize>(),
{
}

/// In each of the fixed-width integer types, 1 is a right identity of
/// multiplication and division.
pub proof fn lemma_integers_one()
    ensures
        is_one(1u8),
        is_one(1u16),
        is_one(1u32),
        is_one(1u64),
        is_one(1usize),
        is_one(1i8),
        is_one(1i16),
        is_one(1i32),
        is_one(1i64),
        is_one(1isize),
{
}

/// In each of the fixed-width integer types, a product with 0 is 0.
pub proof fn lemma_integers_zero()
    ensures
        is_zero(0u8),
        is_zero(0u16),
        is_zero(0u32),
        is_zero(0u64),
        is_zero(0usize),
        is_zero(0i8),
        is_zero(0i16),
        is_zero(0i32),
        is_zero(0i64),
        is_zero(0isize),
{
}

/// In each of the fixed-width integer types, multiplication is commutative.
pub proof fn lemma_integers_mul_commutes()
    ensures
        mul_commutes::<u8>(),
        mul_commutes::<u16>(),
        mul_commutes::<u32>(),
        mul_commutes::<u64>(),
        mul_commutes::<usize>(),
        mul_commutes::<i8>(),
        mul_commutes::<i16>(),
        mul_commutes::<i32>(),
        mul_commutes::<i64>(),
        mul_commutes::<isize>(),
{
}

/// Two vectors are equal exactly when their components are pairwise equal.
pub proof fn lemma_vec2_equal_by_components<T: Copy>(a: Vec2<T>, b: Vec2<T>)
    ensures
        a == b <==> a@[0] == b@[0] && a@[1] == b@[1],
{
    if a@[0] == b@[0] && a@[1] == b@[1] {
        assert(a =~= b);
    }
}

/// Adding `b` to `a` and subtracting `b` again gives `a`, where subtraction
/// undoes addition in the element type.
pub proof fn lemma_vec2_add_then_sub<T: Copy + Add<Output = T> + Sub<Output = T>>(
    a: Vec2<T>,
    b: Vec2<T>,
)
    requires
        sub_undoes_add::<T>(),
        a.add_req(b),
    ensures
        a.add_spec(b).sub_req(b),
        a.add_spec(b).sub_spec(b) == a,
{
    assert(a.add_spec(b).sub_spec(b) =~= a);
}

/// Scaling by a right identity of the element type's multiplication and
/// division, in either way, leaves a vector as it is.
pub proof fn lemma_vec2_scale_by_one<T: Copy + Mul<Output = T> + Div<Output = T>>(a: Vec2<T>, one: T)
    requires
        is_one(one),
    ensures
        a.mul_req(one),
        a.mul_spec(one) == a,
        a.div_req(one),
        a.div_spec(one) == a,
{
    assert(a.mul_spec(one) =~= a);
    assert(a.div_spec(one) =~= a);
}

/// Scaling by an element whose every product is itself gives the vector of
/// that element in every place: scaled by zero, a vector is the zero vector.
pub proof fn lemma_vec2_scale_by_zero<T: Copy + Mul<Output = T>>(a: Vec2<T>, zero: T)
    requires
        is_zero(zero),
    ensures
        a.mul_req(zero),
        a.mul_spec(zero) == Vec2([zero, zero]),
{
    assert(a.mul_spec(zero) =~= Vec2([zero, zero]));
}

/// The dot product is symmetric where the element type's multiplication is
/// commutative: it can be computed one way round exactly when it can the
/// other, and gives the same.
pub proof fn lemma_vec2_dot_symmetric<T: Copy + Mul<Output = T> + Add<Output = T>>(
    a: Vec2<T>,
    b: Vec2<T>,
)
    requires
        mul_commutes::<T>(),
    ensures
        a.dot_req(b) <==> b.dot_req(a),
        a.dot_spec(b) == b.dot_spec(a),
{
    assert(a.mul_spec(b) =~= b.mul_spec(a));
    assert forall|p: Vec2<T>| is_product(a, b, p) == is_product(b, a, p) by {
    }
}

/// Two vectors are equal exactly when their components are pairwise equal.
pub proof fn lemma_vec3_equal_by_components<T: Copy>(a: Vec3<T>, b: Vec3<T>)
    ensures
        a == b <==> a@[0] == b@[0] && a@[1] == b@[1] && a@[2] == b@[2],
{
    if a@[0] == b@[0] && a@[1] == b@[1] && a@[2] == b@[2] {
        assert(a =~= b);
    }
}

/// Adding `b` to `a` and subtracting `b` again gives `a`, where subtraction
/// undoes addition in the element type.
pub proof fn lemma_vec3_add_then_sub<T: Copy + Add<Output = T> + Sub<Output = T>>(
    a: Vec3<T>,
    b: Vec3<T>,
)
    requires
        sub_undoes_add::<T>(),
        a.add_req(b),
    ensures
        a.add_spec(b).sub_req(b),
        a.add_spec(b).sub_spec(b) == a,
{
    assert(a.add_spec(b).sub_spec(b) =~= a);
}

/// Scaling by a right identity of the element type's multiplication and
/// division, in either way, leaves a vector as it is.
pub proof fn lemma_vec3_scale_by_one<T: Copy + Mul<Output = T> + Div<Output = T>>(a: Vec3<T>, one: T)
    requires
        is_one(one),
    ensures
        a.mul_req(one),
        a.mul_spec(one) == a,
        a.div_req(one),
        a.div_spec(one) == a,
{
    assert(a.mul_spec(one) =~= a);
    assert(a.div_spec(one) =~= a);
}

/// Scaling by an element whose every product is itself gives the vector of
/// that element in every place: scaled by zero, a vector is the zero vector.
pub proof fn lemma_vec3_scale_by_zero<T: Copy + Mul<Output = T>>(a: Vec3<T>, zero: T)
    requires
        is_zero(zero),
    ensures
        a.mul_req(zero),
        a.mul_spec(zero) == Vec3([zero, zero, zero]),
{
    assert(a.mul_spec(zero) =~= Vec3([zero, zero, zero]));
}

/// The dot product is symmetric where the element type's multiplication is
/// commutative: it can be computed one way round exactly when it can the
/// other, and gives the same.
pub proof fn lemma_vec3_dot_symmetric<T: Copy + Mul<Output = T> + Add<Output = T>>(
    a: Vec3<T>,
    b: Vec3<T>,
)
    requires
        mul_commutes::<T>(),
    ensures
        a.dot_req(b) <==> b.dot_req(a),
        a.dot_spec(b) == b.dot_spec(a),
{
    assert(a.mul_spec(b) =~= b.mul_spec(a));
    assert forall|p: Vec3<T>| is_product(a, b, p) == is_product(b, a, p) by {
    }
}

/// Two vectors are equal exactly when their components are pairwise equal.
pub proof fn lemma_vec4_equal_by_components<T: Copy>(a: Vec4<T>, b: Vec4<T>)
    ensures
        a == b <==> a@[0] == b@[0] && a@[1] == b@[1] && a@[2] == b@[2] && a@[3] == b@[3],
{
    if a@[0] == b@[0] && a@[1] == b@[1] && a@[2] == b@[2] && a@[3] == b@[3] {
        assert(a =~= b);
    }
}

/// Adding `b` to `a` and subtracting `b` again gives `a`, where subtraction
/// undoes addition in the element type.
pub proof fn lemma_vec4_add_then_sub<T: Copy + Add<Output = T> + Sub<Output = T>>(
    a: Vec4<T>,
    b: Vec4<T>,
)
    requires
        sub_undoes_add::<T>(),
        a.add_req(b),
    ensures
        a.add_spec(b).sub_req(b),
        a.add_spec(b).sub_spec(b) == a,
{
    assert(a.add_spec(b).sub_spec(b) =~= a);
}

/// Scaling by a right identity of the element type's multiplication and
/// division, in either way, leaves a vector as it is.
pub proof fn lemma_vec4_scale_by_one<T: Copy + Mul<Output = T> + Div<Output = T>>(a: Vec4<T>, one: T)
    requires
        is_one(one),
    ensures
        a.mul_req(one),
        a.mul_spec(one) == a,
        a.div_req(one),
        a.div_spec(one) == a,
{
    assert(a.mul_spec(one) =~= a);
    assert(a.div_spec(one) =~= a);
}

/// Scaling by an element whose every product is itself gives the vector of
/// that element in every place: scaled by zero, a vector is the zero vector.
pub proof fn lemma_vec4_scale_by_zero<T: Copy + Mul<Output = T>>(a: Vec4<T>, zero: T)
    requires
        is_zero(zero),
    ensures
        a.mul_req(zero),
        a.mul_spec(zero) == Vec4([zero, zero, zero, zero]),
{
    assert(a.mul_spec(zero) =~= Vec4([zero, zero, zero, zero]));
}

/// The dot product is symmetric where the element type's multiplication is
/// commutative: it can be computed one way round exactly when it can the
/// other, and gives the same.
pub proof fn lemma_vec4_dot_symmetric<T: Copy + Mul<Output = T> + Add<Output = T>>(
    a: Vec4<T>,
    b: Vec4<T>,
)
    requires
        mul_commutes::<T>(),
    ensures
        a.dot_req(b) <==> b.dot_req(a),
        a.dot_spec(b) == b.dot_spec(a),
{
    assert(a.mul_spec(b) =~= b.mul_spec(a));
    assert forall|p: Vec4<T>| is_product(a, b, p) == is_product(b, a, p) by {
    }
}

} // verus!
