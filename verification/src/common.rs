//! Value types shared by the whole engine: colours, directions, rectangles
//! and single-precision numbers carried by their bit pattern.

use vstd::arithmetic::power2::{lemma_pow2_pos, lemma_pow2_strictly_increases, lemma_pow2_unfold, pow2};
use vstd::prelude::*;

verus! {

/// A colour with four 8-bit channels.
#[derive(Debug, Clone, Copy, PartialEq, Eq, Structural)]
pub struct Color {
    pub r: u8,
    pub g: u8,
    pub b: u8,
    pub a: u8,
}

impl Color {
    pub fn new(r: u8, g: u8, b: u8, a: u8) -> (color: Color)
        ensures
            color == (Color { r, g, b, a }),
    {
        Color { r, g, b, a }
    }

    /// Opaque white: the tint that leaves a texture unchanged.
    pub open spec fn white() -> Color {
        Color { r: 255, g: 255, b: 255, a: 255 }
    }

    /// The four channels in the order red, green, blue, alpha.
    pub fn to_rgba(self) -> (channels: (u8, u8, u8, u8))
        ensures
            channels == (self.r, self.g, self.b, self.a),
    {
        (self.r, self.g, self.b, self.a)
    }
}

/// One of four directions an entity can face.
#[derive(Debug, Clone, Copy, PartialEq, Eq, Structural)]
pub enum Direction {
    Left,
    Up,
    Right,
    Bottom,
}

/// An axis-aligned rectangle given by its four edges.
#[derive(Debug, Clone, Copy, PartialEq, Eq)]
pub struct Rect<T> {
    pub left: T,
    pub top: T,
    pub right: T,
    pub bottom: T,
}

impl<T> Rect<T> {
    pub fn new(left: T, top: T, right: T, bottom: T) -> (rect: Rect<T>)
        ensures
            rect == (Rect { left, top, right, bottom }),
    {
        Rect { left, top, right, bottom }
    }
}

impl Rect<usize> {
    /// Neither extent is negative.
    pub open spec fn wf(self) -> bool {
        self.left <= self.right && self.top <= self.bottom
    }

    /// How far the rectangle reaches from left to right.
    pub fn width(&self) -> (w: usize)
        requires
            self.wf(),
        ensures
            w == self.right - self.left,
    {
        self.right - self.left
    }

    /// How far the rectangle reaches from top to bottom.
    pub fn height(&self) -> (h: usize)
        requires
            self.wf(),
        ensures
            h == self.bottom - self.top,
    {
        self.bottom - self.top
    }
}

/// A single-precision IEEE-754 number, carried by its 32 bits.
///
/// The library never does arithmetic on such a number. It only needs to
/// know how two of them compare, and that can be read off the bits: the top
/// bit is the sign, the other 31 bits grow with the magnitude, and a
/// magnitude above that of infinity is not a number.
///
/// `==` compares the bits. `same` compares the numbers: it takes the two
/// zeros for one number, and what is not a number for different from itself.
#[derive(Debug, Clone, Copy, PartialEq, Eq, Structural)]
pub struct Float32 {
    pub bits: u32,
}

/// The bit that holds the sign.
pub const SIGN_BIT: u32 = 0x8000_0000;

/// The bits of positive infinity; every larger magnitude is not a number.
pub const INFINITY_BITS: u32 = 0x7f80_0000;

impl Float32 {
    /// The low 31 bits: exponent and fraction.
    pub open spec fn magnitude(self) -> int {
        if self.bits >= SIGN_BIT {
            self.bits - SIGN_BIT
        } else {
            self.bits as int
        }
    }

    /// Whether the bits stand for no number.
    pub open spec fn spec_is_nan(self) -> bool {
        self.magnitude() > INFINITY_BITS
    }

    /// An integer that orders the numbers as their values do. Both zeros
    /// have key 0. It means nothing for what is not a number.
    pub open spec fn order_key(self) -> int {
        if self.bits >= SIGN_BIT {
            -self.magnitude()
        } else {
            self.magnitude()
        }
    }

    /// `self < other` as IEEE-754 defines it: false when either side is
    /// not a number.
    pub open spec fn spec_lt(self, other: Float32) -> bool {
        !self.spec_is_nan() && !other.spec_is_nan() && self.order_key() < other.order_key()
    }

    /// `self > other` as IEEE-754 defines it.
    pub open spec fn spec_gt(self, other: Float32) -> bool {
        other.spec_lt(self)
    }

    /// `self == other` as IEEE-754 defines it: the two zeros are equal, and
    /// what is not a number equals nothing, itself included.
    pub open spec fn spec_same(self, other: Float32) -> bool {
        !self.spec_is_nan() && !other.spec_is_nan() && self.order_key() == other.order_key()
    }

    /// `self <= other` as IEEE-754 defines it.
    pub open spec fn spec_le(self, other: Float32) -> bool {
        self.spec_lt(other) || self.spec_same(other)
    }

    /// The eight bits of the exponent.
    pub open spec fn exponent(self) -> int {
        self.magnitude() / 0x80_0000
    }

    /// The 23 bits of the fraction.
    pub open spec fn fraction(self) -> int {
        self.magnitude() % 0x80_0000
    }

    /// Whether the bits stand for a number that is not infinite.
    pub open spec fn is_finite(self) -> bool {
        self.magnitude() < INFINITY_BITS
    }

    /// The magnitude of a finite number, counted in steps of the smallest
    /// positive number, which is 2 to the power of -149. With exponent 0
    /// the fraction counts the steps; a greater exponent puts a leading 1
    /// before the fraction and doubles the count with each step of its own.
    pub open spec fn scaled_magnitude(self) -> int {
        if self.exponent() == 0 {
            self.fraction()
        } else {
            (0x80_0000 + self.fraction()) * pow2((self.exponent() - 1) as nat)
        }
    }

    /// The value of a finite number, counted in steps of the smallest
    /// positive number.
    pub open spec fn scaled_value(self) -> int {
        if self.bits >= SIGN_BIT {
            -self.scaled_magnitude()
        } else {
            self.scaled_magnitude()
        }
    }

    pub fn from_bits(bits: u32) -> (x: Float32)
        ensures
            x.bits == bits,
    {
        Float32 { bits }
    }

    pub fn to_bits(self) -> (bits: u32)
        ensures
            bits == self.bits,
    {
        self.bits
    }

    #[verifier::when_used_as_spec(spec_is_nan)]
    pub fn is_nan(self) -> (nan: bool)
        ensures
            nan == self.spec_is_nan(),
    {
        let magnitude: u32 = if self.bits >= SIGN_BIT {
            self.bits - SIGN_BIT
        } else {
            self.bits
        };
        magnitude > INFINITY_BITS
    }

    fn key(self) -> (key: i64)
        ensures
            key == self.order_key(),
    {
        if self.bits >= SIGN_BIT {
            -((self.bits - SIGN_BIT) as i64)
        } else {
            self.bits as i64
        }
    }

    #[verifier::when_used_as_spec(spec_lt)]
    pub fn lt(self, other: Float32) -> (less: bool)
        ensures
            less == self.spec_lt(other),
    {
        !self.is_nan() && !other.is_nan() && self.key() < other.key()
    }

    #[verifier::when_used_as_spec(spec_gt)]
    pub fn gt(self, other: Float32) -> (greater: bool)
        ensures
            greater == self.spec_gt(other),
    {
        other.lt(self)
    }

    #[verifier::when_used_as_spec(spec_same)]
    pub fn same(self, other: Float32) -> (same: bool)
        ensures
            same == self.spec_same(other),
    {
        !self.is_nan() && !other.is_nan() && self.key() == other.key()
    }
}

proof fn lemma_magnitude_grows_with_bits(a: Float32, b: Float32)
    requires
        b.is_finite(),
        a.magnitude() < b.magnitude(),
    ensures
        0 <= a.scaled_magnitude() < b.scaled_magnitude(),
{
    let (ea, fa) = (a.exponent(), a.fraction());
    let (eb, fb) = (b.exponent(), b.fraction());
    let step_a = pow2((ea - 1) as nat);
    let step_b = pow2((eb - 1) as nat);
    lemma_pow2_pos((ea - 1) as nat);
    lemma_pow2_pos((eb - 1) as nat);
    assert(0 <= (0x80_0000 + fa) * step_a) by (nonlinear_arith)
        requires
            0 <= fa,
            0 < step_a,
    ;
    if ea == eb {
        assert((0x80_0000 + fa) * step_a < (0x80_0000 + fb) * step_a) by (nonlinear_arith)
            requires
                fa < fb,
                0 < step_a,
        ;
    } else {
        assert(0x80_0000 <= (0x80_0000 + fb) * step_b) by (nonlinear_arith)
            requires
                0 <= fb,
                1 <= step_b,
        ;
        if ea > 0 {
            // A number below the next power of two is below every number
            // that has a greater exponent.
            lemma_pow2_unfold(ea as nat);
            if ea < eb - 1 {
                lemma_pow2_strictly_increases(ea as nat, (eb - 1) as nat);
            }
            assert((0x80_0000 + fa) * step_a < 0x80_0000 * (2 * step_a)) by (nonlinear_arith)
                requires
                    fa < 0x80_0000,
                    0 < step_a,
            ;
            assert(0x80_0000 * (2 * step_a) <= (0x80_0000 + fb) * step_b) by (nonlinear_arith)
                requires
                    0 <= fb,
                    2 * step_a <= step_b,
            ;
        }
    }
}

/// Finite numbers compare as their values do: the order and the equality
/// that are read off the bits are those of the numbers that the bits stand
/// for.
pub proof fn lemma_order_is_by_value(a: Float32, b: Float32)
    requires
        a.is_finite(),
        b.is_finite(),
    ensures
        a.spec_lt(b) <==> a.scaled_value() < b.scaled_value(),
        a.spec_same(b) <==> a.scaled_value() == b.scaled_value(),
        a.spec_le(b) <==> a.scaled_value() <= b.scaled_value(),
{
    if a.magnitude() < b.magnitude() {
        lemma_magnitude_grows_with_bits(a, b);
    } else if b.magnitude() < a.magnitude() {
        lemma_magnitude_grows_with_bits(b, a);
    }
    let zero = Float32 { bits: 0 };
    if 0 < a.magnitude() {
        lemma_magnitude_grows_with_bits(zero, a);
    }
    if 0 < b.magnitude() {
        lemma_magnitude_grows_with_bits(zero, b);
    }
}

/// A point of the plane.
#[derive(Debug, Clone, Copy, PartialEq, Eq, Structural)]
pub struct Point {
    pub x: Float32,
    pub y: Float32,
}

/// A double-precision IEEE-754 number, carried by its 64 bits.
#[derive(Debug, Clone, Copy, PartialEq, Eq, Structural)]
pub struct Float64 {
    pub bits: u64,
}

impl Float64 {
    /// Positive zero: all bits clear.
    pub open spec fn spec_zero() -> Float64 {
        Float64 { bits: 0 }
    }

    #[verifier::when_used_as_spec(spec_zero)]
    pub fn zero() -> (z: Float64)
        ensures
            z == Float64::spec_zero(),
    {
        Float64 { bits: 0 }
    }
}

} // verus!
