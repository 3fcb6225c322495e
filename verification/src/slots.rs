//! Slot negotiation objects. A `Slots` value describes one boundary
//! between two adjacent nodes: which resource bindings flow across it and
//! the resolutions on both sides. The physical GPU resources stay owned by
//! the device layer; a node only learns here which bindings are available
//! and at what resolution, and republishes a `Slots` for its downstream
//! neighbour.

use vstd::prelude::*;
use crate::gaze::Size;
use crate::gaze::valid_size;

verus! {

/// The negotiated bindings at one boundary between adjacent nodes:
/// the upstream (input) and downstream (output) resolutions, and whether a
/// color and a deflection buffer are bound across it.
#[derive(Clone, Copy, Debug, PartialEq, Eq, Structural)]
pub struct Slots {
    /// Resolution the upstream side produces.
    pub input_size: Size,
    /// Resolution the downstream side will render at.
    pub output_size: Size,
    /// A color buffer is bound across the boundary.
    pub has_color: bool,
    /// A deflection (gaze-auxiliary) buffer is bound across the boundary.
    pub has_deflection: bool,
}

/// Both resolutions of the boundary are negotiable.
pub open spec fn valid_slots(s: Slots) -> bool {
    &&& valid_size(s.input_size)
    &&& valid_size(s.output_size)
}

impl Slots {
    /// The seed of a negotiation pass: a boundary carrying the source's
    /// native resolution on both sides, with a color buffer and no
    /// deflection buffer yet.
    pub fn seed(native: Size) -> (r: Slots)
        ensures
            r == (Slots {
                input_size: native,
                output_size: native,
                has_color: true,
                has_deflection: false,
            }),
    {
        Slots { input_size: native, output_size: native, has_color: true, has_deflection: false }
    }
}

} // verus!
