use vstd::prelude::*;
use vstd::std_specs::convert::FromSpec;

verus! {

/// The number of values one 64-bit half of a [`U128Box`] spans.
pub open spec fn half_base() -> int {
    0x1_0000_0000_0000_0000
}

/// An unsigned 128-bit number kept as two 64-bit halves.
#[derive(Debug, Clone, Copy, PartialEq, Eq, Structural)]
pub struct U128Box {
    pub high: u64,
    pub low: u64,
}

impl U128Box {
    /// The number the two halves stand for.
    pub open spec fn value(&self) -> int {
        self.high as int * half_base() + self.low as int
    }

    pub fn from(number: u128) -> (r: Self)
        ensures
            r.value() == number,
    {
        let low = (number % 0x1_0000_0000_0000_0000u128) as u64;
        let high = (number / 0x1_0000_0000_0000_0000u128) as u64;
        U128Box { high, low }
    }

    pub fn be_zero(&mut self)
        ensures
            final(self).value() == 0,
    {
        self.set(0);
    }

    pub fn set(&mut self, number: u128)
        ensures
            final(self).value() == number,
    {
        let boxed_number = U128Box::from(number);
        self.high = boxed_number.high;
        self.low = boxed_number.low;
    }

    pub fn get(&self) -> (r: u128)
        ensures
            r == self.value(),
    {
        assert(self.high as int * half_base() + self.low as int <= u128::MAX) by (nonlinear_arith)
            requires
                self.high <= u64::MAX,
                self.low <= u64::MAX,
                half_base() == 0x1_0000_0000_0000_0000,
        ;
        (self.high as u128) * 0x1_0000_0000_0000_0000u128 + (self.low as u128)
    }
}

/// A point in the plane.
#[derive(Debug, Clone, Copy)]
pub struct PointBox<T> {
    pub x: T,
    pub y: T,
}

impl<T: Copy + From<u8>> PointBox<T> {
    /// Moves the point to the origin.
    pub fn be_zero(&mut self)
        ensures
            T::obeys_from_spec() ==> final(self).x == T::from_spec(0u8) && final(self).y
                == T::from_spec(0u8),
    {
        self.x = T::from(0u8);
        self.y = T::from(0u8);
    }

    pub fn new(x: T, y: T) -> (r: Self)
        ensures
            r.x == x,
            r.y == y,
    {
        PointBox { x, y }
    }
}

/// A point in space.
#[derive(Debug, Clone, Copy)]
pub struct Point3Box<T> {
    pub x: T,
    pub y: T,
    pub z: T,
}

impl<T: Copy + From<u8>> Point3Box<T> {
    /// Moves the point to the origin.
    pub fn be_zero(&mut self)
        ensures
            T::obeys_from_spec() ==> final(self).x == T::from_spec(0u8) && final(self).y
                == T::from_spec(0u8) && final(self).z == T::from_spec(0u8),
    {
        self.x = T::from(0u8);
        self.y = T::from(0u8);
        self.z = T::from(0u8);
    }

    pub fn new(x: T, y: T, z: T) -> (r: Self)
        ensures
            r.x == x,
            r.y == y,
            r.z == z,
    {
        Point3Box { x, y, z }
    }
}

/// A width and a height.
#[derive(Debug, Clone, Copy)]
pub struct SizeBox<T> {
    pub width: T,
    pub height: T,
}

impl<T: Copy + From<u8>> SizeBox<T> {
    /// Makes both extents zero.
    pub fn be_zero(&mut self)
        ensures
            T::obeys_from_spec() ==> final(self).width == T::from_spec(0u8) && final(self).height
                == T::from_spec(0u8),
    {
        self.width = T::from(0u8);
        self.height = T::from(0u8);
    }

    pub fn new(width: T, height: T) -> (r: Self)
        ensures
            r.width == width,
            r.height == height,
    {
        SizeBox { width, height }
    }
}

} // verus!
