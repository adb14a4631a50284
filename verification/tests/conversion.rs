use vector::primitive::Primitive;
use vector::{vec2, vec3, vec4};

#[test]
fn integer_casts_keep_values_that_fit() {
    let v = vec4(1i32, 2, 3, 4);
    assert_eq!(v.as_u8(), vec4(1u8, 2, 3, 4));
    assert_eq!(v.as_u16(), vec4(1u16, 2, 3, 4));
    assert_eq!(v.as_u32(), vec4(1u32, 2, 3, 4));
    assert_eq!(v.as_u64(), vec4(1u64, 2, 3, 4));
    assert_eq!(v.as_usize(), vec4(1usize, 2, 3, 4));
    assert_eq!(v.as_i8(), vec4(1i8, 2, 3, 4));
    assert_eq!(v.as_i16(), vec4(1i16, 2, 3, 4));
    assert_eq!(v.as_i32(), vec4(1i32, 2, 3, 4));
    assert_eq!(v.as_i64(), vec4(1i64, 2, 3, 4));
    assert_eq!(v.as_isize(), vec4(1isize, 2, 3, 4));
}

#[test]
fn integer_casts_round_trip() {
    let v = vec4(1i32, 2, 3, 4);
    assert_eq!(v.as_u8().as_i32(), v);
    assert_eq!(v.as_i64().as_i32(), v);
    let w = vec3(-1i8, i8::MIN, i8::MAX);
    assert_eq!(w.as_i64().as_i8(), w);
    assert_eq!(w.as_u8().as_i8(), w);
}

#[test]
fn narrowing_keeps_the_low_bits() {
    assert_eq!(vec2(300i32, -1).as_u8(), vec2(44u8, 255));
    assert_eq!(vec2(300i32, 200).as_i8(), vec2(44i8, -56));
    assert_eq!(vec3(0x1_0000_0001u64, u64::MAX, 0x8000_0000).as_u32(), vec3(1u32, u32::MAX, 0x8000_0000));
    assert_eq!(vec3(0x1_0000_0001u64, u64::MAX, 0x8000_0000).as_i32(), vec3(1i32, -1, i32::MIN));
    assert_eq!(vec2(0x1_2345i64, -0x1_2345).as_u16(), vec2(0x2345u16, 0xdcbb));
    assert_eq!(vec2(0x1_2345i64, -0x1_2345).as_i16(), vec2(0x2345i16, -0x2345));
}

#[test]
fn widening_extends_the_sign() {
    assert_eq!(vec2(-1i8, 127).as_i64(), vec2(-1i64, 127));
    assert_eq!(vec2(-1i8, 127).as_u64(), vec2(u64::MAX, 127));
    assert_eq!(vec2(-2i16, 5).as_u32(), vec2(u32::MAX - 1, 5));
    assert_eq!(vec2(255u8, 0).as_i16(), vec2(255i16, 0));
    assert_eq!(vec2(-3isize, 3).as_i64(), vec2(-3i64, 3));
    assert_eq!(vec2(-3i32, 3).as_isize(), vec2(-3isize, 3));
    assert_eq!(vec2(-1i32, 3).as_usize(), vec2(usize::MAX, 3));
}

#[test]
fn same_width_casts_reinterpret_the_sign() {
    assert_eq!(vec2(u8::MAX, 128).as_i8(), vec2(-1i8, i8::MIN));
    assert_eq!(vec2(u32::MAX, 7).as_i32(), vec2(-1i32, 7));
    assert_eq!(vec2(i64::MIN, -1).as_u64(), vec2(1u64 << 63, u64::MAX));
    assert_eq!(vec2(usize::MAX, 0).as_isize(), vec2(-1isize, 0));
}

#[test]
fn every_source_type_converts() {
    assert_eq!(vec2(200u8, 1).as_i8(), vec2(-56i8, 1));
    assert_eq!(vec2(40_000u16, 1).as_i16(), vec2(-25_536i16, 1));
    assert_eq!(vec2(3_000_000_000u32, 1).as_i32(), vec2(-1_294_967_296i32, 1));
    assert_eq!(vec2(u64::MAX, 1).as_u8(), vec2(255u8, 1));
    assert_eq!(vec2(usize::MAX, 1).as_u16(), vec2(u16::MAX, 1));
    assert_eq!(vec2(-128i8, 1).as_u16(), vec2(0xff80u16, 1));
    assert_eq!(vec2(-1i16, 1).as_u8(), vec2(255u8, 1));
    assert_eq!(vec2(-1i32, 1).as_u64(), vec2(u64::MAX, 1));
    assert_eq!(vec2(-1i64, 1).as_u32(), vec2(u32::MAX, 1));
    assert_eq!(vec2(-1isize, 1).as_u8(), vec2(255u8, 1));
}

#[test]
fn scalar_conversions() {
    assert_eq!(300i32.as_u8(), 44);
    assert_eq!((-1i8).as_u64(), u64::MAX);
    assert_eq!(255u8.as_i8(), -1);
    assert_eq!(7u64.as_usize(), 7usize);
    assert_eq!(0x1_0000u32.as_u16(), 0);
    assert_eq!(0x1_0000u32.as_i16(), 0);
    assert_eq!((-7isize).as_i32(), -7);
    assert_eq!(9u16.as_isize(), 9);
    assert_eq!(5i16.as_i64(), 5);
    assert_eq!(5i64.as_u32(), 5);
}

#[test]
fn casts_keep_arity_and_order() {
    assert_eq!(vec2(2u8, 1).as_i32().as_tuple(), (2, 1));
    assert_eq!(vec3(3u8, 2, 1).as_i32().as_tuple(), (3, 2, 1));
    assert_eq!(vec4(4u8, 3, 2, 1).as_i32().as_tuple(), (4, 3, 2, 1));
}
