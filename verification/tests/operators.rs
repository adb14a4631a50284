use vector::{vec2, vec3, vec4};

#[test]
fn binary_operators() {
    let u = vec4(2, 6, 9, 12);
    let v = vec4(2, 3, 3, 2);
    assert_eq!(u + v, vec4(4, 9, 12, 14));
    assert_eq!(u - v, vec4(0, 3, 6, 10));
    assert_eq!(u * v, vec4(4, 18, 27, 24));
    assert_eq!(u / v, vec4(1, 2, 3, 6));
}

#[test]
fn scalar_operators() {
    let u = vec4(2, 6, 8, 12);
    assert_eq!(u * 2, vec4(4, 12, 16, 24));
    assert_eq!(u / 2, vec4(1, 3, 4, 6));
}

#[test]
fn in_place_binary_operators() {
    let v = vec4(2, 3, 3, 2);
    let mut a = vec4(2, 6, 9, 12);
    let mut b = vec4(2, 6, 9, 12);
    let mut c = vec4(2, 6, 9, 12);
    let mut d = vec4(2, 6, 9, 12);
    a += v;
    b -= v;
    c *= v;
    d /= v;
    assert_eq!(a, vec4(4, 9, 12, 14));
    assert_eq!(b, vec4(0, 3, 6, 10));
    assert_eq!(c, vec4(4, 18, 27, 24));
    assert_eq!(d, vec4(1, 2, 3, 6));
}

#[test]
fn in_place_scalar_operators() {
    let mut u = vec4(2, 6, 8, 12);
    let mut v = vec4(2, 6, 8, 12);
    u *= 2;
    v /= 2;
    assert_eq!(u, vec4(4, 12, 16, 24));
    assert_eq!(v, vec4(1, 3, 4, 6));
}

#[test]
fn negation() {
    let v = vec4(-1, 2, -3, 4);
    assert_eq!(-v, vec4(1, -2, 3, -4));
}

#[test]
fn operators_of_two_components() {
    let u = vec2(9, -8);
    let v = vec2(3, 4);
    assert_eq!(u + v, vec2(12, -4));
    assert_eq!(u - v, vec2(6, -12));
    assert_eq!(u * v, vec2(27, -32));
    assert_eq!(u / v, vec2(3, -2));
    assert_eq!(u * 3, vec2(27, -24));
    assert_eq!(u / 3, vec2(3, -2));
    assert_eq!(-u, vec2(-9, 8));
}

#[test]
fn operators_of_three_components() {
    let u = vec3(9, -8, 7);
    let v = vec3(3, 4, -7);
    assert_eq!(u + v, vec3(12, -4, 0));
    assert_eq!(u - v, vec3(6, -12, 14));
    assert_eq!(u * v, vec3(27, -32, -49));
    assert_eq!(u / v, vec3(3, -2, -1));
    assert_eq!(u * 3, vec3(27, -24, 21));
    assert_eq!(u / 3, vec3(3, -2, 2));
    assert_eq!(-u, vec3(-9, 8, -7));
}

#[test]
fn in_place_operators_of_the_smaller_arities() {
    let mut a = vec2(10, 20);
    a += vec2(1, 2);
    a -= vec2(5, 5);
    a *= vec2(2, 3);
    a /= vec2(3, 3);
    a *= 5;
    a /= 2;
    assert_eq!(a, vec2(10, 42));

    let mut b = vec3(10, 20, 30);
    b += vec3(1, 2, 3);
    b -= vec3(5, 5, 5);
    b *= vec3(2, 3, 4);
    b /= vec3(3, 3, 3);
    b *= 5;
    b /= 2;
    assert_eq!(b, vec3(10, 42, 92));
}

#[test]
fn signed_division_rounds_towards_zero() {
    assert_eq!(vec2(-7, 7) / vec2(2, -2), vec2(-3, -3));
    assert_eq!(vec2(-7, 7) / 2, vec2(-3, 3));
}

#[test]
fn addition_then_subtraction_gives_the_vector_back() {
    let a = vec4(-5, 0, 17, i32::MAX - 3);
    let b = vec4(5, -9, 100, 3);
    assert_eq!((a + b) - b, a);
    let c = vec3(200u8, 0, 17);
    let d = vec3(55u8, 255, 1);
    assert_eq!((c + d) - d, c);
}

#[test]
fn one_and_zero_as_scalars() {
    let a = vec4(-5, 0, 17, i32::MIN);
    assert_eq!(a * 1, a);
    assert_eq!(a / 1, a);
    assert_eq!(a * 0, vec4(0, 0, 0, 0));
    let b = vec2(255u8, 3);
    assert_eq!(b * 1, b);
    assert_eq!(b / 1, b);
    assert_eq!(b * 0, vec2(0, 0));
}

#[test]
fn operators_apply_to_floats() {
    let u = vec2(1.5, -2.0);
    let v = vec2(0.5, 4.0);
    assert_eq!(u + v, vec2(2.0, 2.0));
    assert_eq!(u - v, vec2(1.0, -6.0));
    assert_eq!(u * v, vec2(0.75, -8.0));
    assert_eq!(u / v, vec2(3.0, -0.5));
    assert_eq!(u * 2.0, vec2(3.0, -4.0));
    assert_eq!(u / 0.5, vec2(3.0, -4.0));
    assert_eq!(-u, vec2(-1.5, 2.0));
}

#[test]
fn float_division_by_zero_gives_infinity_or_nan() {
    let q = vec3(1.0_f64, -1.0, 0.0) / 0.0;
    assert_eq!(q.0[0], f64::INFINITY);
    assert_eq!(q.0[1], f64::NEG_INFINITY);
    assert!(q.0[2].is_nan());
}
