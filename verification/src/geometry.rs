//! Face geometry: from a bounding size to the center point, outer radius,
//! ring thickness and the three concentric ring radii.
//!
//! Lengths are whole numbers of subpixels, at [`SUBPIXELS`] subpixels per
//! pixel. The scale is chosen so that every derived length is exact: the
//! outer radius is half the smaller side, the ring thickness is exactly
//! `0.15` of the outer radius, and the label sizes `outer / 3`,
//! `0.4 * outer / 3` and the label offset `outer / 4.5` all come out as
//! whole subpixel counts.

use vstd::prelude::*;

verus! {

/// Subpixels per pixel for every length in a [`Geometry`] and in a frame.
pub const SUBPIXELS: u64 = 360;

/// The largest subpixel length a geometry built from a face size can hold:
/// the full scale applied to the largest side.
pub const MAX_SUBPIXEL_LEN: u64 = 0xFFFF_FFFF * 360;

/// The width and height of the drawable region, in pixels.
#[derive(Clone, Copy, Debug, PartialEq, Eq, Structural)]
pub struct FaceSize {
    /// Width in pixels.
    pub width: u32,
    /// Height in pixels.
    pub height: u32,
}

impl FaceSize {
    /// The smaller of the two sides; the face is derived from it, so a
    /// non-square region yields the largest circle that fits.
    pub open spec fn spec_min_side(self) -> int {
        if self.width <= self.height {
            self.width as int
        } else {
            self.height as int
        }
    }

    /// The smaller of the two sides.
    pub fn min_side(&self) -> (m: u32)
        ensures
            m == self.spec_min_side(),
    {
        if self.width <= self.height {
            self.width
        } else {
            self.height
        }
    }

    /// A square region of side `w`.
    pub fn square(w: u32) -> (s: FaceSize)
        ensures
            s == (FaceSize { width: w, height: w }),
    {
        FaceSize { width: w, height: w }
    }
}

/// The face geometry: center point and ring measurements, in subpixels.
#[derive(Clone, Copy, Debug, PartialEq, Eq, Structural)]
pub struct Geometry {
    /// Horizontal center of the face.
    pub center_x: u64,
    /// Vertical center of the face.
    pub center_y: u64,
    /// Half the smaller side of the region.
    pub outer_radius: u64,
    /// Stroke width of every ring: `0.15` of the outer radius.
    pub ring_thickness: u64,
    /// Radius of the outermost ring, the seconds ring.
    pub seconds_radius: u64,
    /// Radius of the middle ring, the minutes ring.
    pub minutes_radius: u64,
    /// Radius of the innermost ring, the hours ring.
    pub hours_radius: u64,
}

impl Geometry {
    /// Every length fits the scale applied to a side of at most `u32::MAX`
    /// pixels, so sums and doublings of these lengths stay in `u64`.
    pub open spec fn wf(self) -> bool {
        &&& self.center_x <= MAX_SUBPIXEL_LEN
        &&& self.center_y <= MAX_SUBPIXEL_LEN
        &&& self.outer_radius <= MAX_SUBPIXEL_LEN
        &&& self.ring_thickness <= MAX_SUBPIXEL_LEN
        &&& self.seconds_radius <= MAX_SUBPIXEL_LEN
        &&& self.minutes_radius <= MAX_SUBPIXEL_LEN
        &&& self.hours_radius <= MAX_SUBPIXEL_LEN
    }
}

/// The geometry built from a face size, with `m` the smaller side in pixels:
/// the outer radius is `m / 2` pixels, so `m * 180` subpixels; the ring
/// thickness `0.15` of that, `m * 27`; and each ring sits one thickness
/// further in: `m * 153`, `m * 126`, `m * 99`.
pub open spec fn spec_build(size: FaceSize) -> Geometry {
    let m = size.spec_min_side();
    Geometry {
        center_x: (size.width as int * 180) as u64,
        center_y: (size.height as int * 180) as u64,
        outer_radius: (m * 180) as u64,
        ring_thickness: (m * 27) as u64,
        seconds_radius: (m * 153) as u64,
        minutes_radius: (m * 126) as u64,
        hours_radius: (m * 99) as u64,
    }
}

/// Builds the face geometry for a bounding size.
///
/// The contract restates each measurement as the relation the drawing relies
/// on: the outer radius is half the smaller side, the thickness is exactly
/// `0.15` of the outer radius, and each ring radius steps inward from the
/// outer radius by whole thicknesses.
pub fn build(size: FaceSize) -> (g: Geometry)
    ensures
        g == spec_build(size),
        g.wf(),
        2 * g.center_x == size.width * SUBPIXELS,
        2 * g.center_y == size.height * SUBPIXELS,
        2 * g.outer_radius == size.spec_min_side() * SUBPIXELS,
        20 * g.ring_thickness == 3 * g.outer_radius,
        g.seconds_radius == g.outer_radius - g.ring_thickness,
        g.minutes_radius == g.outer_radius - 2 * g.ring_thickness,
        g.hours_radius == g.outer_radius - 3 * g.ring_thickness,
{
    let m = size.min_side() as u64;
    Geometry {
        center_x: size.width as u64 * 180,
        center_y: size.height as u64 * 180,
        outer_radius: m * 180,
        ring_thickness: m * 27,
        seconds_radius: m * 153,
        minutes_radius: m * 126,
        hours_radius: m * 99,
    }
}

/// Law: for any face whose smaller side is positive (so the outer radius is
/// positive), the ring radii are strictly ordered from the outside in:
/// seconds outside minutes outside hours, and the hours ring keeps a
/// positive radius.
pub proof fn lemma_radius_ordering(size: FaceSize)
    requires
        size.spec_min_side() > 0,
    ensures
        spec_build(size).seconds_radius > spec_build(size).minutes_radius,
        spec_build(size).minutes_radius > spec_build(size).hours_radius,
        spec_build(size).hours_radius > 0,
{
}

} // verus!
