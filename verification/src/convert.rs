//! Conversion of a vector's components to another integer type: each
//! component is converted by itself, and the order is kept.

use crate::primitive::Primitive;
use crate::vector::{Vec2, Vec3, Vec4};
use vstd::prelude::*;

verus! {

impl<T: Primitive> Vec2<T> {
    /// The vector of the components converted to `u8`.
    pub fn as_u8(&self) -> (result: Vec2<u8>)
        ensures
            result@[0] == self@[0].value() as u8,
            result@[1] == self@[1].value() as u8,
    {
        self.map(
            |x: T| -> (r: u8)
                ensures
                    r == x.value() as u8
            {
                x.as_u8()
            },
        )
    }

    /// The vector of the components converted to `u16`.
    pub fn as_u16(&self) -> (result: Vec2<u16>)
        ensures
            result@[0] == self@[0].value() as u16,
            result@[1] == self@[1].value() as u16,
    {
        self.map(
            |x: T| -> (r: u16)
                ensures
                    r == x.value() as u16
            {
                x.as_u16()
            },
        )
    }

    /// The vector of the components converted to `u32`.
    pub fn as_u32(&self) -> (result: Vec2<u32>)
        ensures
            result@[0] == self@[0].value() as u32,
            result@[1] == self@[1].value() as u32,
    {
        self.map(
            |x: T| -> (r: u32)
                ensures
                    r == x.value() as u32
            {
                x.as_u32()
            },
        )
    }

    /// The vector of the components converted to `u64`.
    pub fn as_u64(&self) -> (result: Vec2<u64>)
        ensures
            result@[0] == self@[0].value() as u64,
            result@[1] == self@[1].value() as u64,
    {
        self.map(
            |x: T| -> (r: u64)
                ensures
                    r == x.value() as u64
            {
                x.as_u64()
            },
        )
    }

    /// The vector of the components converted to `usize`.
    pub fn as_usize(&self) -> (result: Vec2<usize>)
        ensures
            result@[0] == self@[0].value() as usize,
            result@[1] == self@[1].value() as usize,
    {
        self.map(
            |x: T| -> (r: usize)
                ensures
                    r == x.value() as usize
            {
                x.as_usize()
            },
        )
    }

    /// The vector of the components converted to `i8`.
    pub fn as_i8(&self) -> (result: Vec2<i8>)
        ensures
            result@[0] == self@[0].value() as i8,
            result@[1] == self@[1].value() as i8,
    {
        self.map(
            |x: T| -> (r: i8)
                ensures
                    r == x.value() as i8
            {
                x.as_i8()
            },
        )
    }

    /// The vector of the components converted to `i16`.
    pub fn as_i16(&self) -> (result: Vec2<i16>)
        ensures
            result@[0] == self@[0].value() as i16,
            result@[1] == self@[1].value() as i16,
    {
        self.map(
            |x: T| -> (r: i16)
                ensures
                    r == x.value() as i16
            {
                x.as_i16()
            },
        )
    }

    /// The vector of the components converted to `i32`.
    pub fn as_i32(&self) -> (result: Vec2<i32>)
        ensures
            result@[0] == self@[0].value() as i32,
            result@[1] == self@[1].value() as i32,
    {
        self.map(
            |x: T| -> (r: i32)
                ensures
                    r == x.value() as i32
            {
                x.as_i32()
            },
        )
    }

    /// The vector of the components converted to `i64`.
    pub fn as_i64(&self) -> (result: Vec2<i64>)
        ensures
            result@[0] == self@[0].value() as i64,
            result@[1] == self@[1].value() as i64,
    {
        self.map(
            |x: T| -> (r: i64)
                ensures
                    r == x.value() as i64
            {
                x.as_i64()
            },
        )
    }

    /// The vector of the components converted to `isize`.
    pub fn as_isize(&self) -> (result: Vec2<isize>)
        ensures
            result@[0] == self@[0].value() as isize,
            result@[1] == self@[1].value() as isize,
    {
        self.map(
            |x: T| -> (r: isize)
                ensures
                    r == x.value() as isize
            {
                x.as_isize()
            },
        )
    }
}

impl<T: Primitive> Vec3<T> {
    /// The vector of the components converted to `u8`.
    pub fn as_u8(&self) -> (result: Vec3<u8>)
        ensures
            result@[0] == self@[0].value() as u8,
            result@[1] == self@[1].value() as u8,
            result@[2] == self@[2].value() as u8,
    {
        self.map(
            |x: T| -> (r: u8)
                ensures
                    r == x.value() as u8
            {
                x.as_u8()
            },
        )
    }

    /// The vector of the components converted to `u16`.
    pub fn as_u16(&self) -> (result: Vec3<u16>)
        ensures
            result@[0] == self@[0].value() as u16,
            result@[1] == self@[1].value() as u16,
            result@[2] == self@[2].value() as u16,
    {
        self.map(
            |x: T| -> (r: u16)
                ensures
                    r == x.value() as u16
            {
                x.as_u16()
            },
        )
    }

    /// The vector of the components converted to `u32`.
    pub fn as_u32(&self) -> (result: Vec3<u32>)
        ensures
            result@[0] == self@[0].value() as u32,
            result@[1] == self@[1].value() as u32,
            result@[2] == self@[2].value() as u32,
    {
        self.map(
            |x: T| -> (r: u32)
                ensures
                    r == x.value() as u32
            {
                x.as_u32()
            },
        )
    }

    /// The vector of the components converted to `u64`.
    pub fn as_u64(&self) -> (result: Vec3<u64>)
        ensures
            result@[0] == self@[0].value() as u64,
            result@[1] == self@[1].value() as u64,
            result@[2] == self@[2].value() as u64,
    {
        self.map(
            |x: T| -> (r: u64)
                ensures
                    r == x.value() as u64
            {
                x.as_u64()
            },
        )
    }

    /// The vector of the components converted to `usize`.
    pub fn as_usize(&self) -> (result: Vec3<usize>)
        ensures
            result@[0] == self@[0].value() as usize,
            result@[1] == self@[1].value() as usize,
            result@[2] == self@[2].value() as usize,
    {
        self.map(
            |x: T| -> (r: usize)
                ensures
                    r == x.value() as usize
            {
                x.as_usize()
            },
        )
    }

    /// The vector of the components converted to `i8`.
    pub fn as_i8(&self) -> (result: Vec3<i8>)
        ensures
            result@[0] == self@[0].value() as i8,
            result@[1] == self@[1].value() as i8,
            result@[2] == self@[2].value() as i8,
    {
        self.map(
            |x: T| -> (r: i8)
                ensures
                    r == x.value() as i8
            {
                x.as_i8()
            },
        )
    }

    /// The vector of the components converted to `i16`.
    pub fn as_i16(&self) -> (result: Vec3<i16>)
        ensures
            result@[0] == self@[0].value() as i16,
            result@[1] == self@[1].value() as i16,
            result@[2] == self@[2].value() as i16,
    {
        self.map(
            |x: T| -> (r: i16)
                ensures
                    r == x.value() as i16
            {
                x.as_i16()
            },
        )
    }

    /// The vector of the components converted to `i32`.
    pub fn as_i32(&self) -> (result: Vec3<i32>)
        ensures
            result@[0] == self@[0].value() as i32,
            result@[1] == self@[1].value() as i32,
            result@[2] == self@[2].value() as i32,
    {
        self.map(
            |x: T| -> (r: i32)
                ensures
                    r == x.value() as i32
            {
                x.as_i32()
            },
        )
    }

    /// The vector of the components converted to `i64`.
    pub fn as_i64(&self) -> (result: Vec3<i64>)
        ensures
            result@[0] == self@[0].value() as i64,
            result@[1] == self@[1].value() as i64,
            result@[2] == self@[2].value() as i64,
    {
        self.map(
            |x: T| -> (r: i64)
                ensures
                    r == x.value() as i64
            {
                x.as_i64()
            },
        )
    }

    /// The vector of the components converted to `isize`.
    pub fn as_isize(&self) -> (result: Vec3<isize>)
        ensures
            result@[0] == self@[0].value() as isize,
            result@[1] == self@[1].value() as isize,
            result@[2] == self@[2].value() as isize,
    {
        self.map(
            |x: T| -> (r: isize)
                ensures
                    r == x.value() as isize
            {
                x.as_isize()
            },
        )
    }
}

impl<T: Primitive> Vec4<T> {
    /// The vector of the components converted to `u8`.
    pub fn as_u8(&self) -> (result: Vec4<u8>)
        ensures
            result@[0] == self@[0].value() as u8,
            result@[1] == self@[1].value() as u8,
            result@[2] == self@[2].value() as u8,
            result@[3] == self@[3].value() as u8,
    {
        self.map(
            |x: T| -> (r: u8)
                ensures
                    r == x.value() as u8
            {
                x.as_u8()
            },
        )
    }

    /// The vector of the components converted to `u16`.
    pub fn as_u16(&self) -> (result: Vec4<u16>)
        ensures
            result@[0] == self@[0].value() as u16,
            result@[1] == self@[1].value() as u16,
            result@[2] == self@[2].value() as u16,
            result@[3] == self@[3].value() as u16,
    {
        self.map(
            |x: T| -> (r: u16)
                ensures
                    r == x.value() as u16
            {
                x.as_u16()
            },
        )
    }

    /// The vector of the components converted to `u32`.
    pub fn as_u32(&self) -> (result: Vec4<u32>)
        ensures
            result@[0] == self@[0].value() as u32,
            result@[1] == self@[1].value() as u32,
            result@[2] == self@[2].value() as u32,
            result@[3] == self@[3].value() as u32,
    {
        self.map(
            |x: T| -> (r: u32)
                ensures
                    r == x.value() as u32
            {
                x.as_u32()
            },
        )
    }

    /// The vector of the components converted to `u64`.
    pub fn as_u64(&self) -> (result: Vec4<u64>)
        ensures
            result@[0] == self@[0].value() as u64,
            result@[1] == self@[1].value() as u64,
            result@[2] == self@[2].value() as u64,
            result@[3] == self@[3].value() as u64,
    {
        self.map(
            |x: T| -> (r: u64)
                ensures
                    r == x.value() as u64
            {
                x.as_u64()
            },
        )
    }

    /// The vector of the components converted to `usize`.
    pub fn as_usize(&self) -> (result: Vec4<usize>)
        ensures
            result@[0] == self@[0].value() as usize,
            result@[1] == self@[1].value() as usize,
            result@[2] == self@[2].value() as usize,
            result@[3] == self@[3].value() as usize,
    {
        self.map(
            |x: T| -> (r: usize)
                ensures
                    r == x.value() as usize
            {
                x.as_usize()
            },
        )
    }

    /// The vector of the components converted to `i8`.
    pub fn as_i8(&self) -> (result: Vec4<i8>)
        ensures
            result@[0] == self@[0].value() as i8,
            result@[1] == self@[1].value() as i8,
            result@[2] == self@[2].value() as i8,
            result@[3] == self@[3].value() as i8,
    {
        self.map(
            |x: T| -> (r: i8)
                ensures
                    r == x.value() as i8
            {
                x.as_i8()
            },
        )
    }

    /// The vector of the components converted to `i16`.
    pub fn as_i16(&self) -> (result: Vec4<i16>)
        ensures
            result@[0] == self@[0].value() as i16,
            result@[1] == self@[1].value() as i16,
            result@[2] == self@[2].value() as i16,
            result@[3] == self@[3].value() as i16,
    {
        self.map(
            |x: T| -> (r: i16)
                ensures
                    r == x.value() as i16
            {
                x.as_i16()
            },
        )
    }

    /// The vector of the components converted to `i32`.
    pub fn as_i32(&self) -> (result: Vec4<i32>)
        ensures
            result@[0] == self@[0].value() as i32,
            result@[1] == self@[1].value() as i32,
            result@[2] == self@[2].value() as i32,
            result@[3] == self@[3].value() as i32,
    {
        self.map(
            |x: T| -> (r: i32)
                ensures
                    r == x.value() as i32
            {
                x.as_i32()
            },
        )
    }

    /// The vector of the components converted to `i64`.
    pub fn as_i64(&self) -> (result: Vec4<i64>)
        ensures
            result@[0] == self@[0].value() as i64,
            result@[1] == self@[1].value() as i64,
            result@[2] == self@[2].value() as i64,
            result@[3] == self@[3].value() as i64,
    {
        self.map(
            |x: T| -> (r: i64)
                ensures
                    r == x.value() as i64
            {
                x.as_i64()
            },
        )
    }

    /// The vector of the components converted to `isize`.
    pub fn as_isize(&self) -> (result: Vec4<isize>)
        ensures
            result@[0] == self@[0].value() as isize,
            result@[1] == self@[1].value() as isize,
            result@[2] == self@[2].value() as isize,
            result@[3] == self@[3].value() as isize,
    {
        self.map(
            |x: T| -> (r: isize)
                ensures
                    r == x.value() as isize
            {
                x.as_isize()
            },
        )
    }
}

} // verus!
