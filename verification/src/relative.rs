use vstd::prelude::*;

verus! {

/// A length on a virtual square screen whose side is 1000 units; scaled to pixels when drawn.
#[derive(Clone, Copy, Debug)]
pub struct RelativeSize {
    size: u32,
}

impl View for RelativeSize {
    type V = u32;

    closed spec fn view(&self) -> u32 {
        self.size
    }
}

impl RelativeSize {
    pub fn squared(&self) -> (r: u32)
        requires
            self@ * self@ <= u32::MAX,
        ensures
            r == self@ * self@,
    {
        self.size * self.size
    }

    pub fn as_u32(&self) -> (r: u32)
        ensures
            r == self@,
    {
        self.size
    }

    /// The size as an `i32` (sizes above `i32::MAX` wrap around).
    pub fn as_i32(&self) -> (r: i32)
        ensures
            r == self@ as i32,
    {
        self.size as i32
    }

    /// The size as a `u16` (only the low 16 bits are kept).
    pub fn as_u16(&self) -> (r: u16)
        ensures
            r == self@ as u16,
    {
        self.size as u16
    }

    pub fn from_u16(value: u16) -> (r: RelativeSize)
        ensures
            r@ == value as u32,
    {
        RelativeSize { size: value as u32 }
    }

    pub fn from_u32(value: u32) -> (r: RelativeSize)
        ensures
            r@ == value,
    {
        RelativeSize { size: value }
    }

    /// The size of an `i32` (negative values wrap around to large sizes).
    pub fn from_i32(value: i32) -> (r: RelativeSize)
        ensures
            r@ == value as u32,
    {
        RelativeSize { size: value as u32 }
    }

    pub fn div_u16(self, rhs: u16) -> (r: RelativeSize)
        requires
            rhs != 0,
        ensures
            r@ == self@ / (rhs as u32),
    {
        RelativeSize { size: self.size / rhs as u32 }
    }

    /// Division by an `i32` taken as a `u32` (negative divisors wrap around).
    pub fn div_i32(self, rhs: i32) -> (r: RelativeSize)
        requires
            rhs != 0,
        ensures
            r@ == self@ / (rhs as u32),
    {
        let divisor: u32 = rhs as u32;
        assert(divisor != 0) by (bit_vector)
            requires
                divisor == rhs as u32,
                rhs != 0,
        ;
        RelativeSize { size: self.size / divisor }
    }

    pub fn div_u32(self, rhs: u32) -> (r: RelativeSize)
        requires
            rhs != 0,
        ensures
            r@ == self@ / rhs,
    {
        RelativeSize { size: self.size / rhs }
    }

    pub fn add(self, rhs: RelativeSize) -> (r: RelativeSize)
        requires
            self@ + rhs@ <= u32::MAX,
        ensures
            r@ == self@ + rhs@,
    {
        RelativeSize { size: self.size + rhs.size }
    }

    pub fn mul_u16(self, rhs: u16) -> (r: RelativeSize)
        requires
            self@ * rhs <= u32::MAX,
        ensures
            r@ == self@ * rhs,
    {
        RelativeSize { size: self.size * rhs as u32 }
    }

    pub fn mul_u32(self, rhs: u32) -> (r: RelativeSize)
        requires
            self@ * rhs <= u32::MAX,
        ensures
            r@ == self@ * rhs,
    {
        RelativeSize { size: self.size * rhs }
    }

    pub fn sub(self, rhs: RelativeSize) -> (r: RelativeSize)
        requires
            rhs@ <= self@,
        ensures
            r@ == self@ - rhs@,
    {
        RelativeSize { size: self.size - rhs.size }
    }

    /// The point whose two coordinates are this size (as `i32`).
    pub fn to_point(self) -> (r: (i32, i32))
        ensures
            r == (self@ as i32, self@ as i32),
    {
        (self.size as i32, self.size as i32)
    }
}

/// A point on the virtual square screen whose side is 1000 units.
#[derive(Clone, Copy, Debug)]
pub struct RelativeCoordinate {
    x: u16,
    y: u16,
}

impl View for RelativeCoordinate {
    type V = (u16, u16);

    closed spec fn view(&self) -> (u16, u16) {
        (self.x, self.y)
    }
}

impl RelativeCoordinate {
    /// The point of two sizes, each cut to its low 16 bits.
    pub fn new(x: RelativeSize, y: RelativeSize) -> (r: RelativeCoordinate)
        ensures
            r@ == (x@ as u16, y@ as u16),
    {
        RelativeCoordinate { x: x.as_u16(), y: y.as_u16() }
    }

    pub fn from_pair(value: (u16, u16)) -> (r: RelativeCoordinate)
        ensures
            r@ == value,
    {
        RelativeCoordinate { x: value.0, y: value.1 }
    }

    pub fn x(&self) -> (r: u16)
        ensures
            r == self@.0,
    {
        self.x
    }

    pub fn y(&self) -> (r: u16)
        ensures
            r == self@.1,
    {
        self.y
    }

    pub fn add(self, rhs: RelativeCoordinate) -> (r: RelativeCoordinate)
        requires
            self@.0 + rhs@.0 <= u16::MAX,
            self@.1 + rhs@.1 <= u16::MAX,
        ensures
            r@ == ((self@.0 + rhs@.0) as u16, (self@.1 + rhs@.1) as u16),
    {
        RelativeCoordinate { x: self.x + rhs.x, y: self.y + rhs.y }
    }

    pub fn sub(self, rhs: RelativeCoordinate) -> (r: RelativeCoordinate)
        requires
            rhs@.0 <= self@.0,
            rhs@.1 <= self@.1,
        ensures
            r@ == ((self@.0 - rhs@.0) as u16, (self@.1 - rhs@.1) as u16),
    {
        RelativeCoordinate { x: self.x - rhs.x, y: self.y - rhs.y }
    }
}

} // verus!
