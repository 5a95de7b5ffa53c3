use vstd::prelude::*;

verus! {

/// A scalar of the scene description, held as the bit pattern of an IEEE-754
/// binary64 value. The compiler never computes with scalars: it only carries
/// them from the scene text to the engine, so the exact bits are what matters.
#[derive(Clone, Copy, PartialEq, Eq, Structural, Debug)]
pub struct Real {
    pub bits: u64,
}

impl Real {
    pub open spec fn of(bits: u64) -> Real {
        Real { bits }
    }

    pub fn from_bits(bits: u64) -> (r: Real)
        ensures
            r.bits == bits,
    {
        Real { bits }
    }
}

/// `0.0`
pub const ZERO_BITS: u64 = 0x0;

/// `1.0`
pub const ONE_BITS: u64 = 0x3ff0000000000000;

/// A point or direction in scene space.
#[derive(Clone, Copy, PartialEq, Eq, Structural, Debug)]
pub struct Pos {
    pub x: Real,
    pub y: Real,
    pub z: Real,
}

impl Pos {
    pub fn new(x: Real, y: Real, z: Real) -> (r: Pos)
        ensures
            r == (Pos { x, y, z }),
    {
        Pos { x, y, z }
    }

    pub open spec fn origin() -> Pos {
        Pos { x: Real::of(ZERO_BITS), y: Real::of(ZERO_BITS), z: Real::of(ZERO_BITS) }
    }
}

/// A colour with one scalar per channel.
#[derive(Clone, Copy, PartialEq, Eq, Structural, Debug)]
pub struct Rgb {
    pub r: Real,
    pub g: Real,
    pub b: Real,
}

impl Rgb {
    pub fn new(r: Real, g: Real, b: Real) -> (c: Rgb)
        ensures
            c == (Rgb { r, g, b }),
    {
        Rgb { r, g, b }
    }

    pub open spec fn grey(bits: u64) -> Rgb {
        Rgb { r: Real::of(bits), g: Real::of(bits), b: Real::of(bits) }
    }
}

} // verus!
