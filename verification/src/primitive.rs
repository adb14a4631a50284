//! The fixed-width integer types, and the conversion of one value between
//! any two of them.
//!
//! A conversion keeps the value wherever the target type can hold it.
//! Otherwise it keeps the low bits of the two's complement form of the value,
//! as many as the target type has, and reads them as the target type does:
//! this is what `value as u8` says of an integer `value`.

use vstd::prelude::*;

verus! {

/// A fixed-width integer type that converts to every other one.
pub trait Primitive: Copy {
    /// The integer that `self` holds.
    spec fn value(self) -> int;

    /// `self` as an unsigned 8-bit integer.
    fn as_u8(self) -> (r: u8)
        ensures
            r == self.value() as u8,
    ;

    /// `self` as an unsigned 16-bit integer.
    fn as_u16(self) -> (r: u16)
        ensures
            r == self.value() as u16,
    ;

    /// `self` as an unsigned 32-bit integer.
    fn as_u32(self) -> (r: u32)
        ensures
            r == self.value() as u32,
    ;

    /// `self` as an unsigned 64-bit integer.
    fn as_u64(self) -> (r: u64)
        ensures
            r == self.value() as u64,
    ;

    /// `self` as an unsigned pointer-sized integer.
    fn as_usize(self) -> (r: usize)
        ensures
            r == self.value() as usize,
    ;

    /// `self` as a signed 8-bit integer.
    fn as_i8(self) -> (r: i8)
        ensures
            r == self.value() as i8,
    ;

    /// `self` as a signed 16-bit integer.
    fn as_i16(self) -> (r: i16)
        ensures
            r == self.value() as i16,
    ;

    /// `self` as a signed 32-bit integer.
    fn as_i32(self) -> (r: i32)
        ensures
            r == self.value() as i32,
    ;

    /// `self` as a signed 64-bit integer.
    fn as_i64(self) -> (r: i64)
        ensures
            r == self.value() as i64,
    ;

    /// `self` as a signed pointer-sized integer.
    fn as_isize(self) -> (r: isize)
        ensures
            r == self.value() as isize,
    ;
}

impl Primitive for u8 {
    open spec fn value(self) -> int {
        self as int
    }

    fn as_u8(self) -> (r: u8) {
        self
    }

    fn as_u16(self) -> (r: u16) {
        self as u16
    }

    fn as_u32(self) -> (r: u32) {
        self as u32
    }

    fn as_u64(self) -> (r: u64) {
        self as u64
    }

    fn as_usize(self) -> (r: usize) {
        self as usize
    }

    fn as_i8(self) -> (r: i8) {
        self as i8
    }

    fn as_i16(self) -> (r: i16) {
        self as i16
    }

    fn as_i32(self) -> (r: i32) {
        self as i32
    }

    fn as_i64(self) -> (r: i64) {
        self as i64
    }

    fn as_isize(self) -> (r: isize) {
        self as isize
    }
}

impl Primitive for u16 {
    open spec fn value(self) -> int {
        self as int
    }

    fn as_u8(self) -> (r: u8) {
        self as u8
    }

    fn as_u16(self) -> (r: u16) {
        self
    }

    fn as_u32(self) -> (r: u32) {
        self as u32
    }

    fn as_u64(self) -> (r: u64) {
        self as u64
    }

    fn as_usize(self) -> (r: usize) {
        self as usize
    }

    fn as_i8(self) -> (r: i8) {
        self as i8
    }

    fn as_i16(self) -> (r: i16) {
        self as i16
    }

    fn as_i32(self) -> (r: i32) {
        self as i32
    }

    fn as_i64(self) -> (r: i64) {
        self as i64
    }

    fn as_isize(self) -> (r: isize) {
        self as isize
    }
}

impl Primitive for u32 {
    open spec fn value(self) -> int {
        self as int
    }

    fn as_u8(self) -> (r: u8) {
        self as u8
    }

    fn as_u16(self) -> (r: u16) {
        self as u16
    }

    fn as_u32(self) -> (r: u32) {
        self
    }

    fn as_u64(self) -> (r: u64) {
        self as u64
    }

    fn as_usize(self) -> (r: usize) {
        self as usize
    }

    fn as_i8(self) -> (r: i8) {
        self as i8
    }

    fn as_i16(self) -> (r: i16) {
        self as i16
    }

    fn as_i32(self) -> (r: i32) {
        self as i32
    }

    fn as_i64(self) -> (r: i64) {
        self as i64
    }

    fn as_isize(self) -> (r: isize) {
        self as isize
    }
}

impl Primitive for u64 {
    open spec fn value(self) -> int {
        self as int
    }

    fn as_u8(self) -> (r: u8) {
        self as u8
    }

    fn as_u16(self) -> (r: u16) {
        self as u16
    }

    fn as_u32(self) -> (r: u32) {
        self as u32
    }

    fn as_u64(self) -> (r: u64) {
        self
    }

    fn as_usize(self) -> (r: usize) {
        self as usize
    }

    fn as_i8(self) -> (r: i8) {
        self as i8
    }

    fn as_i16(self) -> (r: i16) {
        self as i16
    }

    fn as_i32(self) -> (r: i32) {
        self as i32
    }

    fn as_i64(self) -> (r: i64) {
        self as i64
    }

    fn as_isize(self) -> (r: isize) {
        self as isize
    }
}

impl Primitive for usize {
    open spec fn value(self) -> int {
        self as int
    }

    fn as_u8(self) -> (r: u8) {
        self as u8
    }

    fn as_u16(self) -> (r: u16) {
        self as u16
    }

    fn as_u32(self) -> (r: u32) {
        self as u32
    }

    fn as_u64(self) -> (r: u64) {
        self as u64
    }

    fn as_usize(self) -> (r: usize) {
        self
    }

    fn as_i8(self) -> (r: i8) {
        self as i8
    }

    fn as_i16(self) -> (r: i16) {
        self as i16
    }

    fn as_i32(self) -> (r: i32) {
        self as i32
    }

    fn as_i64(self) -> (r: i64) {
        self as i64
    }

    fn as_isize(self) -> (r: isize) {
        self as isize
    }
}

impl Primitive for i8 {
    open spec fn value(self) -> int {
        self as int
    }

    fn as_u8(self) -> (r: u8) {
        self as u8
    }

    fn as_u16(self) -> (r: u16) {
        self as u16
    }

    fn as_u32(self) -> (r: u32) {
        self as u32
    }

    fn as_u64(self) -> (r: u64) {
        self as u64
    }

    fn as_usize(self) -> (r: usize) {
        self as usize
    }

    fn as_i8(self) -> (r: i8) {
        self
    }

    fn as_i16(self) -> (r: i16) {
        self as i16
    }

    fn as_i32(self) -> (r: i32) {
        self as i32
    }

    fn as_i64(self) -> (r: i64) {
        self as i64
    }

    fn as_isize(self) -> (r: isize) {
        self as isize
    }
}

impl Primitive for i16 {
    open spec fn value(self) -> int {
        self as int
    }

    fn as_u8(self) -> (r: u8) {
        self as u8
    }

    fn as_u16(self) -> (r: u16) {
        self as u16
    }

    fn as_u32(self) -> (r: u32) {
        self as u32
    }

    fn as_u64(self) -> (r: u64) {
        self as u64
    }

    fn as_usize(self) -> (r: usize) {
        self as usize
    }

    fn as_i8(self) -> (r: i8) {
        self as i8
    }

    fn as_i16(self) -> (r: i16) {
        self
    }

    fn as_i32(self) -> (r: i32) {
        self as i32
    }

    fn as_i64(self) -> (r: i64) {
        self as i64
    }

    fn as_isize(self) -> (r: isize) {
        self as isize
    }
}

impl Primitive for i32 {
    open spec fn value(self) -> int {
        self as int
    }

    fn as_u8(self) -> (r: u8) {
        self as u8
    }

    fn as_u16(self) -> (r: u16) {
        self as u16
    }

    fn as_u32(self) -> (r: u32) {
        self as u32
    }

    fn as_u64(self) -> (r: u64) {
        self as u64
    }

    fn as_usize(self) -> (r: usize) {
        self as usize
    }

    fn as_i8(self) -> (r: i8) {
        self as i8
    }

    fn as_i16(self) -> (r: i16) {
        self as i16
    }

    fn as_i32(self) -> (r: i32) {
        self
    }

    fn as_i64(self) -> (r: i64) {
        self as i64
    }

    fn as_isize(self) -> (r: isize) {
        self as isize
    }
}

impl Primitive for i64 {
    open spec fn value(self) -> int {
        self as int
    }

    fn as_u8(self) -> (r: u8) {
        self as u8
    }

    fn as_u16(self) -> (r: u16) {
        self as u16
    }

    fn as_u32(self) -> (r: u32) {
        self as u32
    }

    fn as_u64(self) -> (r: u64) {
        self as u64
    }

    fn as_usize(self) -> (r: usize) {
        self as usize
    }

    fn as_i8(self) -> (r: i8) {
        self as i8
    }

    fn as_i16(self) -> (r: i16) {
        self as i16
    }

    fn as_i32(self) -> (r: i32) {
        self as i32
    }

    fn as_i64(self) -> (r: i64) {
        self
    }

    fn as_isize(self) -> (r: isize) {
        self as isize
    }
}

impl Primitive for isize {
    open spec fn value(self) -> int {
        self as int
    }

    fn as_u8(self) -> (r: u8) {
        self as u8
    }

    fn as_u16(self) -> (r: u16) {
        self as u16
    }

    fn as_u32(self) -> (r: u32) {
        self as u32
    }

    fn as_u64(self) -> (r: u64) {
        self as u64
    }

    fn as_usize(self) -> (r: usize) {
        self as usize
    }

    fn as_i8(self) -> (r: i8) {
        self as i8
    }

    fn as_i16(self) -> (r: i16) {
        self as i16
    }

    fn as_i32(self) -> (r: i32) {
        self as i32
    }

    fn as_i64(self) -> (r: i64) {
        self as i64
    }

    fn as_isize(self) -> (r: isize) {
        self
    }
}

} // verus!
