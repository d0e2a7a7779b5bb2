//! Core of a circular clock widget: the face shows hours, minutes and seconds
//! as three concentric progress arcs together with a time and a date label.
//!
//! The crate holds the geometric model (unit value to sweep angle, face size
//! to ring radii), the frame composition (tracks, arcs, labels in back-to-front
//! order) and the redraw cache that rebuilds the frame only when the displayed
//! second or a style input has changed. A host UI runtime owns the window,
//! delivers ticks and style events, and replays the produced vector frame.

pub mod angle;
pub mod clock_time;
pub mod color;
pub mod frame;
pub mod geometry;
pub mod label;
pub mod state;
