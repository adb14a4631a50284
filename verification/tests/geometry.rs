use vector::{vec2, vec3, vec4};

#[test]
fn dot_product() {
    let a = vec4(1, 0, 0, 0);
    let b = vec4(0, 1, 0, 0);
    let c = vec4(-1, 0, 0, 0);
    let d = vec4(1, 1, 0, 0);
    assert_eq!(a.dot(a), 1);
    assert_eq!(a.dot(b), 0);
    assert_eq!(a.dot(c), -1);
    assert_eq!(d.dot(d), 2);
}

#[test]
fn mag_sq() {
    let a = vec4(1, 2, 3, 4);
    assert_eq!(a.mag_sq(), 30);
}

#[test]
fn projection() {
    let v = vec3(2, 4, 6);
    let onto = vec3(1, 2, 0);
    assert_eq!(v.proj(onto), vec3(2, 4, 0));
}

#[test]
fn cross_product() {
    let x = vec3(1, 0, 0);
    let y = vec3(0, 1, 0);
    let z = vec3(0, 0, 1);
    assert_eq!(x.cross(y), z);
    assert_eq!(y.cross(x), -z);
    assert_eq!(y.cross(z), x);
    assert_eq!(z.cross(y), -x);
    assert_eq!(z.cross(x), y);
    assert_eq!(x.cross(z), -y);
}

#[test]
fn sum_adds_the_components() {
    assert_eq!(vec2(3, -4).sum(), -1);
    assert_eq!(vec3(3, -4, 5).sum(), 4);
    assert_eq!(vec4(3, -4, 5, 100).sum(), 104);
}

#[test]
fn sum_accumulates_in_index_order() {
    // In f32, 1.0 is lost when added to 1e8 and kept when added last.
    assert_eq!(vec3(1.0e8_f32, -1.0e8, 1.0).sum(), 1.0);
    assert_eq!(vec3(1.0e8_f32, 1.0, -1.0e8).sum(), 0.0);
    assert_eq!(vec4(1.0e8_f32, 1.0, -1.0e8, 1.0).sum(), 1.0);
}

#[test]
fn dot_product_of_each_arity() {
    assert_eq!(vec2(3, -4).dot(vec2(2, 5)), -14);
    assert_eq!(vec3(1, 2, 3).dot(vec3(4, -5, 6)), 12);
    assert_eq!(vec4(1, 2, 3, 4).dot(vec4(5, 6, 7, 8)), 70);
    assert_eq!(vec3(0.5, 2.0, -1.0).dot(vec3(4.0, 0.25, 3.0)), -0.5);
}

#[test]
fn dot_product_is_symmetric() {
    let a = vec4(1, -2, 3, -4);
    let b = vec4(9, 8, -7, 6);
    assert_eq!(a.dot(b), b.dot(a));
    assert_eq!(a.dot(b), -52);
    let c = vec2(7u16, 11);
    let d = vec2(13u16, 2);
    assert_eq!(c.dot(d), d.dot(c));
}

#[test]
fn mag_sq_is_the_dot_product_with_itself() {
    let a = vec3(-3, 4, 12);
    assert_eq!(a.mag_sq(), a.dot(a));
    assert_eq!(a.mag_sq(), 169);
    assert_eq!(vec2(3, 4).mag_sq(), 25);
    assert_eq!(vec2(1.5, 2.0).mag_sq(), 6.25);
}

#[test]
fn projection_of_each_arity() {
    assert_eq!(vec2(3, 4).proj(vec2(1, 0)), vec2(3, 0));
    assert_eq!(vec4(1, 2, 3, 4).proj(vec4(0, 0, 0, 2)), vec4(0, 0, 0, 4));
    assert_eq!(vec2(1.0, 1.0).proj(vec2(2.0, 0.0)), vec2(1.0, 0.0));
}

#[test]
fn integer_projection_divides_before_it_scales() {
    // 7 / 4 is 1 in integers: the ratio is truncated, then applied.
    assert_eq!(vec2(3, 2).proj(vec2(2, 0)), vec2(2, 0));
    assert_eq!(vec2(1, 0).proj(vec2(2, 0)), vec2(0, 0));
}

#[test]
fn float_projection_onto_zero_is_nan() {
    let p = vec3(1.0_f64, 2.0, 3.0).proj(vec3(0.0, 0.0, 0.0));
    assert!(p.0[0].is_nan());
    assert!(p.0[1].is_nan());
    assert!(p.0[2].is_nan());
}

#[test]
fn cross_product_of_general_vectors() {
    let a = vec3(2, 3, 4);
    let b = vec3(5, 6, 7);
    assert_eq!(a.cross(b), vec3(-3, 6, -3));
    assert_eq!(b.cross(a), vec3(3, -6, 3));
    assert_eq!(a.cross(a), vec3(0, 0, 0));
    assert_eq!(a.cross(b).dot(a), 0);
    assert_eq!(a.cross(b).dot(b), 0);
}
