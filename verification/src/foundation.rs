//! Sizes, positions, colors, and what every layer can say of itself.

use vstd::prelude::*;
use crate::configs::style::{PositionOption, SizeOption};

verus! {

/// A width and a height, in pixels.
#[derive(Debug, Clone, Copy, PartialEq, Eq, Structural)]
pub struct Size(pub u32, pub u32);

impl Size {
    /// The width and the height as mathematical integers.
    pub open spec fn extent(self) -> (int, int) {
        (self.0 as int, self.1 as int)
    }
}

impl Default for Size {
    fn default() -> (r: Self)
        ensures
            r == Size(0, 0),
    {
        Size(0, 0)
    }
}

impl From<(u32, u32)> for Size {
    fn from(v: (u32, u32)) -> (r: Self) {
        Size(v.0, v.1)
    }
}

impl vstd::std_specs::convert::FromSpecImpl<(u32, u32)> for Size {
    open spec fn obeys_from_spec() -> bool {
        true
    }

    open spec fn from_spec(v: (u32, u32)) -> Self {
        Size(v.0, v.1)
    }
}

/// A horizontal and a vertical offset from the origin, in pixels.
#[derive(Debug, Clone, Copy, PartialEq, Eq, Structural)]
pub struct Position(pub u32, pub u32);

impl Default for Position {
    fn default() -> (r: Self)
        ensures
            r == Position(0, 0),
    {
        Position(0, 0)
    }
}

/// A fill: a color name, a hex or `rgb()` color, or a `url(#id)` reference.
/// The text is carried into the markup as it is.
#[derive(Debug, PartialEq, Eq)]
pub struct Color(pub String);

impl View for Color {
    type V = Seq<char>;

    open spec fn view(&self) -> Seq<char> {
        self.0@
    }
}

impl Default for Color {
    fn default() -> (r: Self)
        ensures
            r@ == Seq::<char>::empty(),
    {
        Color(String::new())
    }
}

impl Clone for Color {
    fn clone(&self) -> (r: Self)
        ensures
            r@ == self@,
    {
        Color(self.0.clone())
    }
}

impl<'a> From<&'a str> for Color {
    fn from(s: &'a str) -> (r: Self)
        ensures
            r@ == s@,
    {
        Color(s.to_owned())
    }
}

impl<'a> vstd::std_specs::convert::FromSpecImpl<&'a str> for Color {
    /// Two colors with the same text need not be the same value, so the
    /// conversion is described by the `ensures` of `from`, over the view.
    open spec fn obeys_from_spec() -> bool {
        false
    }

    open spec fn from_spec(s: &'a str) -> Self {
        choose|c: Color| c@ == s@
    }
}

/// A layer that reports how it wants to be sized.
pub trait SizeOptionT {
    /// Whether the layer's size policy can be written in 32-bit pixels.
    spec fn sizable(&self) -> bool;

    /// The layer's size policy.
    spec fn size_option(&self) -> SizeOption;

    /// Get the size option of the object.
    fn get_size_option(&self) -> (r: SizeOption)
        requires
            self.sizable(),
        ensures
            r == self.size_option(),
    ;
}

/// A layer that reports how it wants to be placed.
pub trait PositionOptionT {
    /// The layer's position policy.
    spec fn position_option(&self) -> PositionOption;

    /// Get the position option of the object.
    fn get_position_option(&self) -> (r: PositionOption)
        ensures
            r == self.position_option(),
    ;
}

} // verus!
