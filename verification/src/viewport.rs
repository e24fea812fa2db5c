//! The viewport of a window and the destination of its protocol viewport.

use vstd::prelude::*;
use crate::scale::ScaleFactor;

verus! {

/// A size in physical pixels.
#[derive(Clone, Copy, Debug, PartialEq, Eq, Structural)]
pub struct PhysicalSize {
    pub width: u32,
    pub height: u32,
}

/// The pairing of a physical size with the scale factor that turns it into
/// logical units.
///
/// A viewport is a value: it is built whole by
/// [`Viewport::with_physical_size`] and never changed afterwards.
#[derive(Clone, Copy, Debug)]
pub struct Viewport {
    physical_size: PhysicalSize,
    scale_factor: ScaleFactor,
}

/// What a [`Viewport`] holds.
pub struct ViewportView {
    pub physical_size: PhysicalSize,
    pub scale_factor: ScaleFactor,
}

impl View for Viewport {
    type V = ViewportView;

    closed spec fn view(&self) -> ViewportView {
        ViewportView { physical_size: self.physical_size, scale_factor: self.scale_factor }
    }
}

impl Viewport {
    /// The viewport of the given physical size under the given scale factor.
    pub fn with_physical_size(size: PhysicalSize, scale_factor: ScaleFactor) -> (v: Viewport)
        ensures
            v@ == (ViewportView { physical_size: size, scale_factor }),
    {
        Viewport { physical_size: size, scale_factor }
    }

    pub fn physical_size(&self) -> (size: PhysicalSize)
        ensures
            size == self@.physical_size,
    {
        self.physical_size
    }

    pub fn physical_width(&self) -> (width: u32)
        ensures
            width == self@.physical_size.width,
    {
        self.physical_size.width
    }

    pub fn physical_height(&self) -> (height: u32)
        ensures
            height == self@.physical_size.height,
    {
        self.physical_size.height
    }

    pub fn scale_factor(&self) -> (scale_factor: ScaleFactor)
        ensures
            scale_factor == self@.scale_factor,
    {
        self.scale_factor
    }
}

/// The region, in surface coordinates, onto which a protocol viewport maps the
/// window's buffer.
#[derive(Clone, Copy, Debug, PartialEq, Eq, Structural)]
pub struct Destination {
    pub width: i32,
    pub height: i32,
}

/// How the destination of a protocol viewport follows from the physical size
/// of the window.
#[derive(Clone, Copy, Debug, PartialEq, Eq, Structural)]
pub enum DestinationRule {
    /// Each dimension of the destination is half the physical dimension,
    /// rounded down.
    Halved,
    /// The destination is the physical size itself.
    Whole,
}

/// A 32-bit pattern read as a signed number: the values above `i32::MAX`
/// stand for the negative numbers.
pub open spec fn as_signed(n: u32) -> int {
    if n <= i32::MAX {
        n as int
    } else {
        n - 0x1_0000_0000
    }
}

/// The destination that a rule gives a protocol viewport for a window of the
/// given physical size.
pub open spec fn destination_of(rule: DestinationRule, size: PhysicalSize) -> Destination {
    match rule {
        DestinationRule::Halved => Destination {
            width: (size.width / 2) as i32,
            height: (size.height / 2) as i32,
        },
        DestinationRule::Whole => Destination {
            width: as_signed(size.width) as i32,
            height: as_signed(size.height) as i32,
        },
    }
}

/// Reads a 32-bit pattern as a signed number.
fn to_signed(n: u32) -> (r: i32)
    ensures
        r == as_signed(n),
{
    if n <= 0x7fff_ffff {
        n as i32
    } else {
        let above: u32 = n - 0x8000_0000;
        above as i32 + i32::MIN
    }
}

impl DestinationRule {
    /// The destination for a window of the given physical size.
    pub fn destination_for(self, size: PhysicalSize) -> (d: Destination)
        ensures
            d == destination_of(self, size),
    {
        match self {
            DestinationRule::Halved => Destination {
                width: (size.width / 2) as i32,
                height: (size.height / 2) as i32,
            },
            DestinationRule::Whole => Destination {
                width: to_signed(size.width),
                height: to_signed(size.height),
            },
        }
    }
}

/// A halved destination is never negative, and twice it falls short of the
/// physical size by at most one pixel in each dimension.
pub proof fn lemma_halved_destination_bounds(size: PhysicalSize)
    ensures
        ({
            let d = destination_of(DestinationRule::Halved, size);
            &&& 0 <= d.width
            &&& 0 <= d.height
            &&& size.width - 1 <= 2 * d.width <= size.width
            &&& size.height - 1 <= 2 * d.height <= size.height
        }),
{
}

/// A whole destination is the physical size wherever that size fits the
/// protocol's signed dimensions.
pub proof fn lemma_whole_destination_exact(size: PhysicalSize)
    requires
        size.width <= i32::MAX,
        size.height <= i32::MAX,
    ensures
        destination_of(DestinationRule::Whole, size).width == size.width,
        destination_of(DestinationRule::Whole, size).height == size.height,
{
}

} // verus!
