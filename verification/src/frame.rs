//! The frame renderer: composes one vector frame from the displayed time,
//! the style colors and the face geometry, in strict back-to-front order.
//!
//! The order is load-bearing: first the three full-circle track strokes
//! (seconds, minutes, hours), then the three progress arcs so each arc lies
//! over its own track, then the time label and the date label so the text is
//! not occluded by any ring.

use crate::angle::{
    get_hr, normalize_hour, reference_angle, spec_reference_angle, spec_sweep, sweep_angle, Angle,
};
use crate::clock_time::ClockTime;
use crate::color::Rgba;
use crate::geometry::{FaceSize, Geometry};
use crate::label::{date_label, spec_date_label, spec_time_label, time_label};
use vstd::pervasive::cloned;
use vstd::prelude::*;

verus! {

/// Everything a frame is built from: the displayed timestamp, the stored
/// ring colors, the text color and the face size. Two equal fingerprints
/// yield equal frames, so the redraw cache compares fingerprints to decide
/// whether its stored frame is still current.
#[derive(Clone, Copy, Debug, PartialEq, Eq, Structural)]
pub struct Fingerprint {
    /// The displayed timestamp, at second resolution.
    pub time: ClockTime,
    /// Stored color of the seconds ring.
    pub seconds_color: Rgba,
    /// Stored color of the minutes ring.
    pub minutes_color: Rgba,
    /// Stored color of the hours ring.
    pub hours_color: Rgba,
    /// Color of the time label.
    pub text_color: Rgba,
    /// The drawable region.
    pub size: FaceSize,
}

impl Fingerprint {
    /// The timestamp is a calendar time and every color is well formed.
    pub open spec fn wf(self) -> bool {
        &&& self.time.wf()
        &&& self.seconds_color.wf()
        &&& self.minutes_color.wf()
        &&& self.hours_color.wf()
        &&& self.text_color.wf()
    }
}

/// The spec-level value of one drawing element, in subpixel lengths.
pub ghost enum ElemV {
    /// A full-circle track stroke.
    Circle { cx: int, cy: int, radius: int, width: int, color: Rgba },
    /// A progress arc from `start` to `end`.
    Arc { cx: int, cy: int, radius: int, width: int, color: Rgba, start: Angle, end: Angle },
    /// A centered text label.
    Text { x: int, y: int, size: int, color: Rgba, content: Seq<char> },
}

/// One drawing element of a frame, in subpixel lengths.
#[derive(Debug, PartialEq)]
pub enum FrameElement {
    /// A full-circle track stroke of the given radius and stroke width.
    Circle { cx: u64, cy: u64, radius: u64, width: u64, color: Rgba },
    /// A progress arc from `start` to `end`, stroked like a track.
    Arc { cx: u64, cy: u64, radius: u64, width: u64, color: Rgba, start: Angle, end: Angle },
    /// A text label centered on `(x, y)` at the given font size.
    Text { x: u64, y: u64, size: u64, color: Rgba, content: String },
}

impl View for FrameElement {
    type V = ElemV;

    open spec fn view(&self) -> ElemV {
        match self {
            FrameElement::Circle { cx, cy, radius, width, color } => ElemV::Circle {
                cx: *cx as int,
                cy: *cy as int,
                radius: *radius as int,
                width: *width as int,
                color: *color,
            },
            FrameElement::Arc { cx, cy, radius, width, color, start, end } => ElemV::Arc {
                cx: *cx as int,
                cy: *cy as int,
                radius: *radius as int,
                width: *width as int,
                color: *color,
                start: *start,
                end: *end,
            },
            FrameElement::Text { x, y, size, color, content } => ElemV::Text {
                x: *x as int,
                y: *y as int,
                size: *size as int,
                color: *color,
                content: content@,
            },
        }
    }
}

impl Clone for FrameElement {
    /// A clone is equal to the original, text content included.
    fn clone(&self) -> (r: Self)
        ensures
            r == *self,
    {
        match self {
            FrameElement::Circle { cx, cy, radius, width, color } => FrameElement::Circle {
                cx: *cx,
                cy: *cy,
                radius: *radius,
                width: *width,
                color: *color,
            },
            FrameElement::Arc { cx, cy, radius, width, color, start, end } => FrameElement::Arc {
                cx: *cx,
                cy: *cy,
                radius: *radius,
                width: *width,
                color: *color,
                start: *start,
                end: *end,
            },
            FrameElement::Text { x, y, size, color, content } => FrameElement::Text {
                x: *x,
                y: *y,
                size: *size,
                color: *color,
                content: content.clone(),
            },
        }
    }
}

/// A rendered vector frame: drawing elements in back-to-front order.
#[derive(Debug, PartialEq)]
pub struct VectorFrame {
    /// The elements, first drawn first.
    pub elements: Vec<FrameElement>,
}

impl View for VectorFrame {
    type V = Seq<ElemV>;

    open spec fn view(&self) -> Seq<ElemV> {
        self.elements@.map_values(|e: FrameElement| e@)
    }
}

impl Clone for VectorFrame {
    /// A clone has the same sequence of elements.
    fn clone(&self) -> (r: Self)
        ensures
            r@ == self@,
    {
        let elements = self.elements.clone();
        proof {
            assert forall|i: int| 0 <= i < self.elements@.len() implies elements@[i]
                == self.elements@[i] by {
                assert(cloned::<FrameElement>(self.elements@[i], elements@[i]));
            }
            assert(elements@ =~= self.elements@);
        }
        VectorFrame { elements }
    }
}

/// The frame for fingerprint `fp` drawn with geometry `g`: three track
/// circles at the seconds, minutes and hours radii in the stored ring
/// colors; three arcs over them from the reference angle to each unit's
/// sweep angle, alpha forced to opaque, the hour first normalized to the
/// 12-hour dial; the `HH:MM` label at the center at font size
/// `outer_radius / 3`; and the `DD-MM-YYYY` label in fixed white below it,
/// offset by `outer_radius / 4.5` at `0.4` of the time label's font size.
/// A degenerate region whose smaller side is zero gives the empty frame.
pub open spec fn spec_render(fp: Fingerprint, g: Geometry) -> Seq<ElemV> {
    if fp.size.spec_min_side() == 0 {
        Seq::empty()
    } else {
        seq![
            ElemV::Circle {
                cx: g.center_x as int,
                cy: g.center_y as int,
                radius: g.seconds_radius as int,
                width: g.ring_thickness as int,
                color: fp.seconds_color,
            },
            ElemV::Circle {
                cx: g.center_x as int,
                cy: g.center_y as int,
                radius: g.minutes_radius as int,
                width: g.ring_thickness as int,
                color: fp.minutes_color,
            },
            ElemV::Circle {
                cx: g.center_x as int,
                cy: g.center_y as int,
                radius: g.hours_radius as int,
                width: g.ring_thickness as int,
                color: fp.hours_color,
            },
            ElemV::Arc {
                cx: g.center_x as int,
                cy: g.center_y as int,
                radius: g.seconds_radius as int,
                width: g.ring_thickness as int,
                color: fp.seconds_color.spec_opaque(),
                start: spec_reference_angle(),
                end: spec_sweep(fp.time.second as int, 60),
            },
            ElemV::Arc {
                cx: g.center_x as int,
                cy: g.center_y as int,
                radius: g.minutes_radius as int,
                width: g.ring_thickness as int,
                color: fp.minutes_color.spec_opaque(),
                start: spec_reference_angle(),
                end: spec_sweep(fp.time.minute as int, 60),
            },
            ElemV::Arc {
                cx: g.center_x as int,
                cy: g.center_y as int,
                radius: g.hours_radius as int,
                width: g.ring_thickness as int,
                color: fp.hours_color.spec_opaque(),
                start: spec_reference_angle(),
                end: spec_sweep(normalize_hour(fp.time.hour as int), 12),
            },
            ElemV::Text {
                x: g.center_x as int,
                y: g.center_y as int,
                size: g.outer_radius as int / 3,
                color: fp.text_color,
                content: spec_time_label(fp.time.hour as int, fp.time.minute as int),
            },
            ElemV::Text {
                x: g.center_x as int,
                y: g.center_y as int + 2 * (g.outer_radius as int) / 9,
                size: 2 * (g.outer_radius as int) / 15,
                color: Rgba::spec_white(),
                content: spec_date_label(
                    fp.time.day as int,
                    fp.time.month as int,
                    fp.time.year as int,
                ),
            },
        ]
    }
}

/// Renders the frame for fingerprint `fp` with geometry `g`: exactly the
/// elements of [`spec_render`], in that order.
pub fn render(fp: &Fingerprint, g: &Geometry) -> (frame: VectorFrame)
    requires
        fp.wf(),
        g.wf(),
    ensures
        frame@ == spec_render(*fp, *g),
{
    let mut elements: Vec<FrameElement> = Vec::new();
    if fp.size.min_side() == 0 {
        let frame = VectorFrame { elements };
        proof {
            assert(frame@ =~= spec_render(*fp, *g));
        }
        return frame;
    }
    elements.push(
        FrameElement::Circle {
            cx: g.center_x,
            cy: g.center_y,
            radius: g.seconds_radius,
            width: g.ring_thickness,
            color: fp.seconds_color,
        },
    );
    elements.push(
        FrameElement::Circle {
            cx: g.center_x,
            cy: g.center_y,
            radius: g.minutes_radius,
            width: g.ring_thickness,
            color: fp.minutes_color,
        },
    );
    elements.push(
        FrameElement::Circle {
            cx: g.center_x,
            cy: g.center_y,
            radius: g.hours_radius,
            width: g.ring_thickness,
            color: fp.hours_color,
        },
    );
    let start = reference_angle();
    elements.push(
        FrameElement::Arc {
            cx: g.center_x,
            cy: g.center_y,
            radius: g.seconds_radius,
            width: g.ring_thickness,
            color: fp.seconds_color.opaque(),
            start,
            end: sweep_angle(fp.time.second as u64, 60),
        },
    );
    elements.push(
        FrameElement::Arc {
            cx: g.center_x,
            cy: g.center_y,
            radius: g.minutes_radius,
            width: g.ring_thickness,
            color: fp.minutes_color.opaque(),
            start,
            end: sweep_angle(fp.time.minute as u64, 60),
        },
    );
    elements.push(
        FrameElement::Arc {
            cx: g.center_x,
            cy: g.center_y,
            radius: g.hours_radius,
            width: g.ring_thickness,
            color: fp.hours_color.opaque(),
            start,
            end: sweep_angle(get_hr(fp.time.hour) as u64, 12),
        },
    );
    elements.push(
        FrameElement::Text {
            x: g.center_x,
            y: g.center_y,
            size: g.outer_radius / 3,
            color: fp.text_color,
            content: time_label(fp.time.hour, fp.time.minute),
        },
    );
    elements.push(
        FrameElement::Text {
            x: g.center_x,
            y: g.center_y + 2 * g.outer_radius / 9,
            size: 2 * g.outer_radius / 15,
            color: Rgba::white(),
            content: date_label(fp.time.day, fp.time.month, fp.time.year),
        },
    );
    let frame = VectorFrame { elements };
    proof {
        assert(frame@ =~= spec_render(*fp, *g));
    }
    frame
}

} // verus!
