use std::hash::{Hash, Hasher};
use vector::{vec2, vec3, vec4, Vec2, Vec3, Vec4};

#[test]
fn map() {
    let v2 = vec2(2, 3);
    let v3 = vec3(4, 5, 6);
    let v4 = vec4(7, 8, 9, 10);

    assert_eq!(v2.map(|x| x * x), vec2(4, 9));
    assert_eq!(v3.map(|x| x * x), vec3(16, 25, 36));
    assert_eq!(v4.map(|x| x * x), vec4(49, 64, 81, 100));
}

#[test]
fn zipmap() {
    let a2 = vec2(2, 4);
    let b2 = vec2(3, 5);
    let a3 = vec3(1, 3, 5);
    let b3 = vec3(2, 4, 6);
    let a4 = vec4(2, 4, 6, 8);
    let b4 = vec4(1, 3, 5, 7);

    assert_eq!(a2.zipmap(b2, |x, y| x + y), vec2(5, 9));
    assert_eq!(a3.zipmap(b3, |x, y| x + y), vec3(3, 7, 11));
    assert_eq!(a4.zipmap(b4, |x, y| x + y), vec4(3, 7, 11, 15));
}

#[test]
fn as_tuple() {
    let (x, y, z, w) = vec4(0, 1, 2, 3).as_tuple();
    assert_eq!(x, 0);
    assert_eq!(y, 1);
    assert_eq!(z, 2);
    assert_eq!(w, 3);
}

#[test]
fn as_array() {
    let a = [10, 20, 30, 40];
    let v = Vec4(a);
    assert_eq!(v.as_array(), a);
}

#[test]
fn constructors_keep_component_order() {
    assert_eq!(vec2(1, 2).0, [1, 2]);
    assert_eq!(vec3(1, 2, 3).0, [1, 2, 3]);
    assert_eq!(vec4(1, 2, 3, 4).0, [1, 2, 3, 4]);
}

#[test]
fn accessors_of_the_smaller_arities() {
    assert_eq!(vec2(5, 6).as_tuple(), (5, 6));
    assert_eq!(vec3(5, 6, 7).as_tuple(), (5, 6, 7));
    assert_eq!(Vec2([8, 9]).as_array(), [8, 9]);
    assert_eq!(Vec3([8, 9, 10]).as_array(), [8, 9, 10]);
}

#[test]
fn map_changes_the_element_type() {
    let v = vec3(1u8, 20, 255);
    assert_eq!(v.map(|x| x as i32 - 20), vec3(-19, 0, 235));
    assert_eq!(v.map(|x| x > 10), vec3(false, true, true));
}

#[test]
fn map_visits_components_in_index_order() {
    let seen = std::cell::RefCell::new(Vec::new());
    let v = vec4(3, 1, 4, 1);
    let doubled = v.map(|x| {
        seen.borrow_mut().push(x);
        2 * x
    });
    assert_eq!(doubled, vec4(6, 2, 8, 2));
    assert_eq!(seen.into_inner(), vec![3, 1, 4, 1]);
}

#[test]
fn zipmap_pairs_components_of_different_types() {
    let lengths = vec3(1usize, 2, 3);
    let letters = vec3('a', 'b', 'c');
    let visited = std::cell::RefCell::new(Vec::new());
    let repeated = lengths.zipmap(letters, |n, c| {
        visited.borrow_mut().push(c);
        n as u32 * c as u32
    });
    assert_eq!(repeated, vec3(97, 196, 297));
    assert_eq!(visited.into_inner(), vec!['a', 'b', 'c']);
}

#[test]
fn equality_compares_every_component() {
    assert_eq!(vec2(1, 2), vec2(1, 2));
    assert_ne!(vec2(1, 2), vec2(2, 1));
    assert_ne!(vec3(1, 2, 3), vec3(1, 2, 4));
    assert_ne!(vec4(0, 2, 3, 4), vec4(1, 2, 3, 4));
    assert_ne!(vec4(1, 2, 3, 4), vec4(1, 2, 3, 5));
    assert!(vec2(f64::NAN, 0.0) != vec2(f64::NAN, 0.0));
}

#[test]
fn equal_vectors_hash_alike() {
    let hash_of = |v: Vec4<i32>| {
        let mut h = std::collections::hash_map::DefaultHasher::new();
        v.hash(&mut h);
        h.finish()
    };
    assert_eq!(hash_of(vec4(1, 2, 3, 4)), hash_of(Vec4([1, 2, 3, 4])));
}

#[test]
fn default_is_the_vector_of_defaults() {
    assert_eq!(Vec2::<i32>::default(), vec2(0, 0));
    assert_eq!(Vec3::<u8>::default(), vec3(0, 0, 0));
    assert_eq!(Vec4::<bool>::default(), vec4(false, false, false, false));
}

#[test]
fn clone_is_a_copy() {
    let v = vec3(7, 8, 9);
    let w = v.clone();
    assert_eq!(v, w);
    assert_eq!(format!("{:?}", w), "Vec3([7, 8, 9])");
}
