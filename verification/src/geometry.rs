//! Measures as the window state carries them.
//!
//! Coordinates in display points and scale factors are double-precision numbers. They are
//! carried by their bit patterns: the state compares and hands them on, and whoever draws
//! computes with them. Pixels are whole numbers.

use vstd::prelude::*;

verus! {

/// A double-precision number, held as its IEEE 754 bit pattern.
#[derive(Clone, Copy, Debug, PartialEq, Eq, Structural)]
pub struct Real {
    pub bits: u64,
}

impl Real {
    /// The bit pattern without its sign bit.
    pub open spec fn magnitude(self) -> int {
        self.bits as int % 0x8000_0000_0000_0000
    }

    /// Beyond the pattern of infinity stand the patterns that are no number.
    pub open spec fn is_nan(self) -> bool {
        self.magnitude() > 0x7ff0_0000_0000_0000
    }

    /// Numeric equality: nothing equals a pattern that is no number, and the two zeros are equal.
    pub open spec fn same_number(self, other: Real) -> bool {
        &&& !self.is_nan()
        &&& !other.is_nan()
        &&& self.bits == other.bits || (self.magnitude() == 0 && other.magnitude() == 0)
    }

    /// Whether the two patterns stand for equal numbers.
    pub fn equals(&self, other: &Real) -> (r: bool)
        ensures
            r == self.same_number(*other),
    {
        let a: u64 = self.bits % 0x8000_0000_0000_0000;
        let b: u64 = other.bits % 0x8000_0000_0000_0000;
        if a > 0x7ff0_0000_0000_0000 || b > 0x7ff0_0000_0000_0000 {
            false
        } else {
            self.bits == other.bits || (a == 0 && b == 0)
        }
    }
}

/// A position.
#[derive(Clone, Copy, Debug, PartialEq, Eq, Structural)]
pub struct Point {
    pub x: Real,
    pub y: Real,
}

/// A size in display points.
#[derive(Clone, Copy, Debug, PartialEq, Eq, Structural)]
pub struct Size {
    pub width: Real,
    pub height: Real,
}

/// A rectangle in display points.
#[derive(Clone, Copy, Debug, PartialEq, Eq, Structural)]
pub struct Rect {
    pub x0: Real,
    pub y0: Real,
    pub x1: Real,
    pub y1: Real,
}

/// The factors by which display points become pixels.
#[derive(Clone, Copy, Debug, PartialEq, Eq, Structural)]
pub struct Scale {
    pub x: Real,
    pub y: Real,
}

impl Scale {
    /// Both factors are equal as numbers.
    pub open spec fn same_scale(self, other: Scale) -> bool {
        self.x.same_number(other.x) && self.y.same_number(other.y)
    }

    /// Whether the two scales have equal factors.
    pub fn equals(&self, other: &Scale) -> (r: bool)
        ensures
            r == self.same_scale(*other),
    {
        self.x.equals(&other.x) && self.y.equals(&other.y)
    }
}

/// A size in pixels.
#[derive(Clone, Copy, Debug, PartialEq, Eq, Structural)]
pub struct PxSize {
    pub width: i32,
    pub height: i32,
}

/// The drawing area: its size in pixels and the scale under which it was measured.
#[derive(Clone, Copy, Debug, PartialEq, Eq, Structural)]
pub struct ScaledArea {
    pub size_px: PxSize,
    pub scale: Scale,
}

/// A part of a window. It takes a whole number of pixels: what it is made from is multiplied by
/// the scale, grown to whole pixels and divided by the scale again.
#[derive(Clone, Copy, Debug, PartialEq, Eq, Structural)]
pub enum Patch {
    /// A rectangle, and the scale.
    Rect(Rect, Scale),
    /// All of a drawing area, from the origin to its size in display points, and the scale.
    Area(ScaledArea, Scale),
}

/// A region: the union of its patches.
#[derive(Debug, PartialEq, Eq)]
pub struct Region {
    pub patches: Vec<Patch>,
}

impl View for Region {
    type V = Seq<Patch>;

    open spec fn view(&self) -> Seq<Patch> {
        self.patches@
    }
}

impl Region {
    /// The region without a point.
    pub fn empty() -> (r: Region)
        ensures
            r@ == Seq::<Patch>::empty(),
    {
        Region { patches: Vec::new() }
    }

    /// Adds a patch to the region.
    pub fn add_patch(&mut self, patch: Patch)
        ensures
            final(self)@ == old(self)@.push(patch),
    {
        self.patches.push(patch);
    }
}

}
