//! Color model: byte channels with a fixed-point alpha.
//!
//! A ring keeps one stored color. Its full-circle "track" stroke uses the
//! stored alpha (semi-transparent by design), while the progress arc uses the
//! same channels with the alpha forced to fully opaque.

use vstd::prelude::*;

verus! {

/// The alpha value of a fully opaque color, in thousandths.
pub const ALPHA_OPAQUE_MILLI: u16 = 1000;

/// An RGBA color: three byte channels and an alpha in thousandths.
///
/// A channel byte `c` stands for the intensity `c / 255`; `alpha_milli`
/// stands for the opacity `alpha_milli / 1000`, so `0` is fully transparent
/// and `1000` fully opaque.
#[derive(Clone, Copy, Debug, PartialEq, Eq, Structural)]
pub struct Rgba {
    /// Red channel.
    pub r: u8,
    /// Green channel.
    pub g: u8,
    /// Blue channel.
    pub b: u8,
    /// Opacity in thousandths: `0` transparent up to `1000` opaque.
    pub alpha_milli: u16,
}

impl Rgba {
    /// A color is well formed when its alpha does not exceed full opacity.
    pub open spec fn wf(self) -> bool {
        self.alpha_milli <= ALPHA_OPAQUE_MILLI
    }

    /// The same channels with the alpha forced to fully opaque: the color of
    /// a progress arc derived from a stored ring color.
    pub open spec fn spec_opaque(self) -> Rgba {
        Rgba { r: self.r, g: self.g, b: self.b, alpha_milli: ALPHA_OPAQUE_MILLI }
    }

    /// Builds the color `(r / 255, g / 255, b / 255)` at opacity
    /// `opacity_milli / 1000`: the preview color assembled from three live
    /// channel values and an opacity.
    pub fn from_channels(r: u8, g: u8, b: u8, opacity_milli: u16) -> (c: Rgba)
        requires
            opacity_milli <= ALPHA_OPAQUE_MILLI,
        ensures
            c == (Rgba { r, g, b, alpha_milli: opacity_milli }),
            c.wf(),
    {
        Rgba { r, g, b, alpha_milli: opacity_milli }
    }

    /// The same channels with the alpha forced to fully opaque.
    pub fn opaque(&self) -> (c: Rgba)
        ensures
            c == self.spec_opaque(),
            c.wf(),
    {
        Rgba { r: self.r, g: self.g, b: self.b, alpha_milli: ALPHA_OPAQUE_MILLI }
    }

    /// Fully opaque white as a spec value.
    pub open spec fn spec_white() -> Rgba {
        Rgba { r: 255, g: 255, b: 255, alpha_milli: ALPHA_OPAQUE_MILLI }
    }

    /// Fully opaque white, the fixed color of the date label.
    pub fn white() -> (c: Rgba)
        ensures
            c == Rgba::spec_white(),
            c.wf(),
    {
        Rgba { r: 255, g: 255, b: 255, alpha_milli: ALPHA_OPAQUE_MILLI }
    }
}

} // verus!
