//! The clock's mutable state and its entry points: ticks, live style edits,
//! commits, resizing, and the cached paint request.
//!
//! The redraw cache holds the last rendered frame together with the
//! fingerprint it was built from. Every mutation that changes a fingerprint
//! field discards the cached frame; a paint request returns the stored frame
//! while its fingerprint still equals the current one and re-renders
//! otherwise, so the renderer runs only when something visible changed.

use crate::clock_time::ClockTime;
use crate::color::{Rgba, ALPHA_OPAQUE_MILLI};
use crate::frame::{render, spec_render, Fingerprint, VectorFrame};
use crate::geometry::{build, spec_build, FaceSize};
use vstd::prelude::*;

verus! {

/// The redraw cache: either no usable frame, or the last rendered frame
/// with the fingerprint it was built from.
pub enum CacheState {
    /// No cached frame; the next paint request must render.
    Dirty,
    /// `frame` is the rendered frame for `fingerprint`.
    Valid { fingerprint: Fingerprint, frame: VectorFrame },
}

impl CacheState {
    /// A cache is consistent with the current fingerprint `fp` when it is
    /// dirty, or holds exactly the frame that rendering `fp` produces.
    pub open spec fn consistent_with(self, fp: Fingerprint) -> bool {
        match self {
            CacheState::Dirty => true,
            CacheState::Valid { fingerprint, frame } => {
                &&& fingerprint == fp
                &&& frame@ == spec_render(fp, spec_build(fp.size))
            },
        }
    }
}

/// The whole mutable state of the clock core, owned by the host and mutated
/// only through the entry points below.
pub struct ClockState {
    /// The displayed timestamp, at second resolution.
    pub time: ClockTime,
    /// Stored color of the seconds ring.
    pub seconds_color: Rgba,
    /// Stored color of the minutes ring.
    pub minutes_color: Rgba,
    /// Stored color of the hours ring.
    pub hours_color: Rgba,
    /// Color of the time label.
    pub text_color: Rgba,
    /// Live red channel of the preview editor.
    pub color_r: u8,
    /// Live green channel of the preview editor.
    pub color_g: u8,
    /// Live blue channel of the preview editor.
    pub color_b: u8,
    /// Live opacity of the preview editor, in thousandths.
    pub opacity_milli: u16,
    /// The assembled preview color shown in the editor's swatch.
    pub preview_color: Rgba,
    /// The drawable region; kept square by the entry points.
    pub size: FaceSize,
    /// The redraw cache.
    pub cache: CacheState,
}

/// `a` and `b` agree on every stored style input: the three ring colors,
/// the text color and the face size.
pub open spec fn same_style(a: ClockState, b: ClockState) -> bool {
    &&& a.seconds_color == b.seconds_color
    &&& a.minutes_color == b.minutes_color
    &&& a.hours_color == b.hours_color
    &&& a.text_color == b.text_color
    &&& a.size == b.size
}

/// `a` and `b` agree on the live preview editor: the three channels, the
/// opacity and the assembled preview color.
pub open spec fn same_preview(a: ClockState, b: ClockState) -> bool {
    &&& a.color_r == b.color_r
    &&& a.color_g == b.color_g
    &&& a.color_b == b.color_b
    &&& a.opacity_milli == b.opacity_milli
    &&& a.preview_color == b.preview_color
}

impl ClockState {
    /// The fingerprint of the current state: everything a frame is built
    /// from.
    pub open spec fn fingerprint(self) -> Fingerprint {
        Fingerprint {
            time: self.time,
            seconds_color: self.seconds_color,
            minutes_color: self.minutes_color,
            hours_color: self.hours_color,
            text_color: self.text_color,
            size: self.size,
        }
    }

    /// The preview color as assembled from the live channels and opacity.
    pub open spec fn assembled_preview(self) -> Rgba {
        Rgba { r: self.color_r, g: self.color_g, b: self.color_b, alpha_milli: self.opacity_milli }
    }

    /// Well-formedness: the timestamp is a calendar time, every color and
    /// the opacity are in range, and the cache never holds a stale frame.
    pub open spec fn wf(self) -> bool {
        &&& self.time.wf()
        &&& self.seconds_color.wf()
        &&& self.minutes_color.wf()
        &&& self.hours_color.wf()
        &&& self.text_color.wf()
        &&& self.preview_color.wf()
        &&& self.opacity_milli <= ALPHA_OPAQUE_MILLI
        &&& self.cache.consistent_with(self.fingerprint())
    }

    /// Creates the state at startup: the default ring and text colors, the
    /// default preview editor values, a 400 by 400 face, the given current
    /// time, and an empty cache.
    pub fn new(now: ClockTime) -> (s: ClockState)
        requires
            now.wf(),
        ensures
            s.wf(),
            s.time == now,
            s.cache is Dirty,
            s.seconds_color == (Rgba { r: 245, g: 40, b: 145, alpha_milli: 400 }),
            s.minutes_color == (Rgba { r: 45, g: 40, b: 245, alpha_milli: 400 }),
            s.hours_color == (Rgba { r: 45, g: 140, b: 5, alpha_milli: 400 }),
            s.text_color == Rgba::spec_white(),
            s.color_r == 125,
            s.color_g == 125,
            s.color_b == 125,
            s.opacity_milli == ALPHA_OPAQUE_MILLI,
            s.preview_color == (Rgba { r: 245, g: 250, b: 145, alpha_milli: 400 }),
            s.size == (FaceSize { width: 400, height: 400 }),
    {
        ClockState {
            time: now,
            seconds_color: Rgba { r: 245, g: 40, b: 145, alpha_milli: 400 },
            minutes_color: Rgba { r: 45, g: 40, b: 245, alpha_milli: 400 },
            hours_color: Rgba { r: 45, g: 140, b: 5, alpha_milli: 400 },
            text_color: Rgba::white(),
            color_r: 125,
            color_g: 125,
            color_b: 125,
            opacity_milli: ALPHA_OPAQUE_MILLI,
            preview_color: Rgba { r: 245, g: 250, b: 145, alpha_milli: 400 },
            size: FaceSize { width: 400, height: 400 },
            cache: CacheState::Dirty,
        }
    }

    /// Advances the displayed time. A tick that repeats the displayed second
    /// leaves the state — cache included — untouched; a new second replaces
    /// the timestamp and discards the cached frame.
    pub fn on_tick(&mut self, now: ClockTime)
        requires
            old(self).wf(),
            now.wf(),
        ensures
            final(self).wf(),
            final(self).time == now,
            now == old(self).time ==> *final(self) == *old(self),
            now != old(self).time ==> final(self).cache is Dirty,
            same_style(*old(self), *final(self)),
            same_preview(*old(self), *final(self)),
    {
        if now != self.time {
            self.time = now;
            self.cache = CacheState::Dirty;
        }
    }

    /// Reassembles the preview color from the live channels and opacity.
    fn refresh_preview(&mut self)
        requires
            old(self).opacity_milli <= ALPHA_OPAQUE_MILLI,
        ensures
            final(self).preview_color == old(self).assembled_preview(),
            final(self).time == old(self).time,
            final(self).cache == old(self).cache,
            final(self).color_r == old(self).color_r,
            final(self).color_g == old(self).color_g,
            final(self).color_b == old(self).color_b,
            final(self).opacity_milli == old(self).opacity_milli,
            same_style(*old(self), *final(self)),
    {
        self.preview_color = Rgba::from_channels(
            self.color_r,
            self.color_g,
            self.color_b,
            self.opacity_milli,
        );
    }

    /// Live-edits the red channel and reassembles the preview color. The
    /// cache is untouched: the preview is not part of the rendered frame.
    pub fn set_red(&mut self, value: u8)
        requires
            old(self).wf(),
        ensures
            final(self).wf(),
            final(self).color_r == value,
            final(self).color_g == old(self).color_g,
            final(self).color_b == old(self).color_b,
            final(self).opacity_milli == old(self).opacity_milli,
            final(self).preview_color == final(self).assembled_preview(),
            final(self).time == old(self).time,
            final(self).cache == old(self).cache,
            same_style(*old(self), *final(self)),
    {
        self.color_r = value;
        self.refresh_preview();
    }

    /// Live-edits the green channel and reassembles the preview color.
    pub fn set_green(&mut self, value: u8)
        requires
            old(self).wf(),
        ensures
            final(self).wf(),
            final(self).color_g == value,
            final(self).color_r == old(self).color_r,
            final(self).color_b == old(self).color_b,
            final(self).opacity_milli == old(self).opacity_milli,
            final(self).preview_color == final(self).assembled_preview(),
            final(self).time == old(self).time,
            final(self).cache == old(self).cache,
            same_style(*old(self), *final(self)),
    {
        self.color_g = value;
        self.refresh_preview();
    }

    /// Live-edits the blue channel and reassembles the preview color.
    pub fn set_blue(&mut self, value: u8)
        requires
            old(self).wf(),
        ensures
            final(self).wf(),
            final(self).color_b == value,
            final(self).color_r == old(self).color_r,
            final(self).color_g == old(self).color_g,
            final(self).opacity_milli == old(self).opacity_milli,
            final(self).preview_color == final(self).assembled_preview(),
            final(self).time == old(self).time,
            final(self).cache == old(self).cache,
            same_style(*old(self), *final(self)),
    {
        self.color_b = value;
        self.refresh_preview();
    }

    /// Live-edits the opacity, in thousandths, and reassembles the preview
    /// color.
    pub fn set_opacity(&mut self, milli: u16)
        requires
            old(self).wf(),
            milli <= ALPHA_OPAQUE_MILLI,
        ensures
            final(self).wf(),
            final(self).opacity_milli == milli,
            final(self).color_r == old(self).color_r,
            final(self).color_g == old(self).color_g,
            final(self).color_b == old(self).color_b,
            final(self).preview_color == final(self).assembled_preview(),
            final(self).time == old(self).time,
            final(self).cache == old(self).cache,
            same_style(*old(self), *final(self)),
    {
        self.opacity_milli = milli;
        self.refresh_preview();
    }

    /// Writes the committed preview into one ring color field, discarding
    /// the cached frame exactly when the stored color changes.
    fn commit_color(stored: &mut Rgba, cache: &mut CacheState, committed: Rgba)
        ensures
            *final(stored) == committed,
            committed == *old(stored) ==> *final(stored) == *old(stored) && *final(cache) == *old(
                cache,
            ),
            committed != *old(stored) ==> *final(cache) is Dirty,
    {
        if committed != *stored {
            *stored = committed;
            *cache = CacheState::Dirty;
        }
    }

    /// Commits the preview into the seconds ring: the preview color is
    /// reassembled from the live channels, stored as the ring's color, and
    /// the cached frame is discarded exactly when that color changed.
    pub fn commit_seconds(&mut self)
        requires
            old(self).wf(),
        ensures
            final(self).wf(),
            final(self).preview_color == old(self).assembled_preview(),
            final(self).seconds_color == old(self).assembled_preview(),
            final(self).minutes_color == old(self).minutes_color,
            final(self).hours_color == old(self).hours_color,
            final(self).text_color == old(self).text_color,
            final(self).size == old(self).size,
            final(self).time == old(self).time,
            final(self).color_r == old(self).color_r,
            final(self).color_g == old(self).color_g,
            final(self).color_b == old(self).color_b,
            final(self).opacity_milli == old(self).opacity_milli,
            old(self).assembled_preview() == old(self).seconds_color ==> final(self).cache == old(
                self,
            ).cache,
            old(self).assembled_preview() != old(self).seconds_color ==> final(self).cache
                is Dirty,
    {
        self.refresh_preview();
        let committed = self.preview_color;
        Self::commit_color(&mut self.seconds_color, &mut self.cache, committed);
    }

    /// Commits the preview into the minutes ring, as for the seconds ring.
    pub fn commit_minutes(&mut self)
        requires
            old(self).wf(),
        ensures
            final(self).wf(),
            final(self).preview_color == old(self).assembled_preview(),
            final(self).minutes_color == old(self).assembled_preview(),
            final(self).seconds_color == old(self).seconds_color,
            final(self).hours_color == old(self).hours_color,
            final(self).text_color == old(self).text_color,
            final(self).size == old(self).size,
            final(self).time == old(self).time,
            final(self).color_r == old(self).color_r,
            final(self).color_g == old(self).color_g,
            final(self).color_b == old(self).color_b,
            final(self).opacity_milli == old(self).opacity_milli,
            old(self).assembled_preview() == old(self).minutes_color ==> final(self).cache == old(
                self,
            ).cache,
            old(self).assembled_preview() != old(self).minutes_color ==> final(self).cache
                is Dirty,
    {
        self.refresh_preview();
        let committed = self.preview_color;
        Self::commit_color(&mut self.minutes_color, &mut self.cache, committed);
    }

    /// Commits the preview into the hours ring, as for the seconds ring.
    pub fn commit_hours(&mut self)
        requires
            old(self).wf(),
        ensures
            final(self).wf(),
            final(self).preview_color == old(self).assembled_preview(),
            final(self).hours_color == old(self).assembled_preview(),
            final(self).seconds_color == old(self).seconds_color,
            final(self).minutes_color == old(self).minutes_color,
            final(self).text_color == old(self).text_color,
            final(self).size == old(self).size,
            final(self).time == old(self).time,
            final(self).color_r == old(self).color_r,
            final(self).color_g == old(self).color_g,
            final(self).color_b == old(self).color_b,
            final(self).opacity_milli == old(self).opacity_milli,
            old(self).assembled_preview() == old(self).hours_color ==> final(self).cache == old(
                self,
            ).cache,
            old(self).assembled_preview() != old(self).hours_color ==> final(self).cache is Dirty,
    {
        self.refresh_preview();
        let committed = self.preview_color;
        Self::commit_color(&mut self.hours_color, &mut self.cache, committed);
    }

    /// Resizes the face to a square of side `width`, discarding the cached
    /// frame exactly when the size changes.
    pub fn set_face_width(&mut self, width: u32)
        requires
            old(self).wf(),
        ensures
            final(self).wf(),
            final(self).size == (FaceSize { width, height: width }),
            final(self).time == old(self).time,
            final(self).seconds_color == old(self).seconds_color,
            final(self).minutes_color == old(self).minutes_color,
            final(self).hours_color == old(self).hours_color,
            final(self).text_color == old(self).text_color,
            same_preview(*old(self), *final(self)),
            old(self).size == (FaceSize { width, height: width }) ==> final(self).cache == old(
                self,
            ).cache,
            old(self).size != (FaceSize { width, height: width }) ==> final(self).cache is Dirty,
    {
        let new_size = FaceSize::square(width);
        if new_size != self.size {
            self.size = new_size;
            self.cache = CacheState::Dirty;
        }
    }

    /// The assembled preview color, for the settings panel's swatch.
    pub fn current_preview_color(&self) -> (c: Rgba)
        ensures
            c == self.preview_color,
    {
        self.preview_color
    }

    /// The fingerprint of the current state as a value.
    pub fn current_fingerprint(&self) -> (fp: Fingerprint)
        ensures
            fp == self.fingerprint(),
    {
        Fingerprint {
            time: self.time,
            seconds_color: self.seconds_color,
            minutes_color: self.minutes_color,
            hours_color: self.hours_color,
            text_color: self.text_color,
            size: self.size,
        }
    }

    /// Answers a paint request: returns the frame for the current state and
    /// whether the renderer ran.
    ///
    /// While the cache holds a frame whose fingerprint equals the current
    /// one, that frame is returned unchanged and the renderer is not invoked
    /// (so a repeated request with no mutation in between returns an equal
    /// frame and reports no rebuild). Otherwise the renderer runs once, the
    /// fresh frame is stored with the current fingerprint and returned, and
    /// the rebuild is reported.
    pub fn get_or_build(&mut self) -> (r: (VectorFrame, bool))
        requires
            old(self).wf(),
        ensures
            final(self).wf(),
            r.0@ == spec_render(old(self).fingerprint(), spec_build(old(self).size)),
            r.1 <==> old(self).cache is Dirty,
            final(self).cache matches CacheState::Valid { fingerprint, frame }
                && fingerprint == old(self).fingerprint() && frame@ == r.0@,
            final(self).time == old(self).time,
            same_style(*old(self), *final(self)),
            same_preview(*old(self), *final(self)),
    {
        let fp = self.current_fingerprint();
        let cached: Option<VectorFrame> = match &self.cache {
            CacheState::Valid { fingerprint, frame } => {
                if *fingerprint == fp {
                    Some(frame.clone())
                } else {
                    None
                }
            },
            CacheState::Dirty => None,
        };
        match cached {
            Some(frame) => (frame, false),
            None => {
                let g = build(self.size);
                let frame = render(&fp, &g);
                self.cache = CacheState::Valid { fingerprint: fp, frame: frame.clone() };
                (frame, true)
            },
        }
    }
}

} // verus!
