use ring_clock::angle::{get_hr, sweep_angle, Angle};
use ring_clock::clock_time::ClockTime;
use ring_clock::color::Rgba;
use ring_clock::frame::FrameElement;
use ring_clock::geometry::{build, FaceSize, SUBPIXELS};
use ring_clock::label::{date_label, time_label};
use ring_clock::state::{CacheState, ClockState};

fn sample_time() -> ClockTime {
    ClockTime::new(14, 7, 30, 11, 10, 2026)
}

#[test]
fn sweep_angle_starts_at_reference() {
    for m in [12u64, 60, 24, 7] {
        let a = sweep_angle(0, m);
        assert_eq!(a.num, 270 * m);
        assert_eq!(a.den, m);
    }
}

#[test]
fn sweep_angle_monotonic_over_a_minute() {
    let mut previous = sweep_angle(0, 60);
    for unit in 1..60u64 {
        let next = sweep_angle(unit, 60);
        assert_eq!(next.den, previous.den);
        assert!(previous.num <= next.num);
        previous = next;
    }
}

#[test]
fn sweep_angle_stays_short_of_a_full_turn() {
    let last = sweep_angle(59, 60);
    // 270 + 360 * 59/60 = 624 degrees, short of 630.
    assert_eq!(last.num, 624 * 60);
    assert!(last.num < 630 * last.den);
}

#[test]
fn hour_normalization() {
    assert_eq!(get_hr(0), 0);
    assert_eq!(get_hr(11), 11);
    assert_eq!(get_hr(12), 0);
    assert_eq!(get_hr(23), 11);
}

#[test]
fn geometry_of_a_400_square() {
    let g = build(FaceSize { width: 400, height: 400 });
    assert_eq!(g.outer_radius, 200 * SUBPIXELS);
    assert_eq!(g.ring_thickness, 30 * SUBPIXELS);
    assert_eq!(g.seconds_radius, 170 * SUBPIXELS);
    assert_eq!(g.minutes_radius, 140 * SUBPIXELS);
    assert_eq!(g.hours_radius, 110 * SUBPIXELS);
    assert_eq!(g.center_x, 200 * SUBPIXELS);
    assert_eq!(g.center_y, 200 * SUBPIXELS);
}

#[test]
fn geometry_radius_ordering_on_odd_sizes() {
    for side in [1u32, 3, 7, 399, 401, 1000] {
        let g = build(FaceSize { width: side, height: side });
        assert!(g.seconds_radius > g.minutes_radius);
        assert!(g.minutes_radius > g.hours_radius);
        assert!(g.hours_radius > 0);
    }
}

#[test]
fn geometry_uses_the_smaller_side() {
    let g = build(FaceSize { width: 800, height: 400 });
    assert_eq!(g.outer_radius, 200 * SUBPIXELS);
    assert_eq!(g.center_x, 400 * SUBPIXELS);
    assert_eq!(g.center_y, 200 * SUBPIXELS);
}

#[test]
fn labels_are_zero_padded() {
    assert_eq!(time_label(14, 7), "14:07");
    assert_eq!(time_label(5, 9), "05:09");
    assert_eq!(time_label(0, 0), "00:00");
    assert_eq!(date_label(11, 10, 2026), "11-10-2026");
    assert_eq!(date_label(1, 2, 3), "01-02-0003");
}

#[test]
fn end_to_end_scenario() {
    let mut st = ClockState::new(sample_time());
    let (frame, rebuilt) = st.get_or_build();
    assert!(rebuilt);
    assert_eq!(frame.elements.len(), 8);

    // Three tracks, outside in, in the default stored colors.
    let thickness = 30 * SUBPIXELS;
    assert_eq!(
        frame.elements[0],
        FrameElement::Circle {
            cx: 200 * SUBPIXELS,
            cy: 200 * SUBPIXELS,
            radius: 170 * SUBPIXELS,
            width: thickness,
            color: Rgba { r: 245, g: 40, b: 145, alpha_milli: 400 },
        }
    );
    assert_eq!(
        frame.elements[1],
        FrameElement::Circle {
            cx: 200 * SUBPIXELS,
            cy: 200 * SUBPIXELS,
            radius: 140 * SUBPIXELS,
            width: thickness,
            color: Rgba { r: 45, g: 40, b: 245, alpha_milli: 400 },
        }
    );
    assert_eq!(
        frame.elements[2],
        FrameElement::Circle {
            cx: 200 * SUBPIXELS,
            cy: 200 * SUBPIXELS,
            radius: 110 * SUBPIXELS,
            width: thickness,
            color: Rgba { r: 45, g: 140, b: 5, alpha_milli: 400 },
        }
    );

    // Three arcs over their tracks, opaque, from the reference angle.
    // Seconds: 270 + 360 * 30/60 = 450 degrees.
    // Minutes: 270 + 360 * 7/60 = 312 degrees.
    // Hours: 14 normalizes to 2; 270 + 360 * 2/12 = 330 degrees.
    match &frame.elements[3] {
        FrameElement::Arc { radius, color, start, end, .. } => {
            assert_eq!(*radius, 170 * SUBPIXELS);
            assert_eq!(*color, Rgba { r: 245, g: 40, b: 145, alpha_milli: 1000 });
            assert_eq!(*start, Angle { num: 270, den: 1 });
            assert_eq!(*end, Angle { num: 450 * 60, den: 60 });
        }
        other => panic!("expected the seconds arc, found {:?}", other),
    }
    match &frame.elements[4] {
        FrameElement::Arc { radius, end, .. } => {
            assert_eq!(*radius, 140 * SUBPIXELS);
            assert_eq!(*end, Angle { num: 312 * 60, den: 60 });
        }
        other => panic!("expected the minutes arc, found {:?}", other),
    }
    match &frame.elements[5] {
        FrameElement::Arc { radius, end, .. } => {
            assert_eq!(*radius, 110 * SUBPIXELS);
            assert_eq!(*end, Angle { num: 330 * 12, den: 12 });
        }
        other => panic!("expected the hours arc, found {:?}", other),
    }

    // The time label, centered, at font size outer_radius / 3.
    match &frame.elements[6] {
        FrameElement::Text { x, y, size, color, content } => {
            assert_eq!(content, "14:07");
            assert_eq!(*x, 200 * SUBPIXELS);
            assert_eq!(*y, 200 * SUBPIXELS);
            assert_eq!(3 * *size, 200 * SUBPIXELS);
            assert_eq!(*color, Rgba { r: 255, g: 255, b: 255, alpha_milli: 1000 });
        }
        other => panic!("expected the time label, found {:?}", other),
    }

    // The date label, white, offset down by outer_radius / 4.5, at 0.4 of
    // the time label's font size.
    match &frame.elements[7] {
        FrameElement::Text { x, y, size, color, content } => {
            assert_eq!(content, "11-10-2026");
            assert_eq!(*x, 200 * SUBPIXELS);
            // 200 px center + 200/4.5 px offset: 9 * y == (9 * 200 + 2 * 200) px.
            assert_eq!(9 * (*y), (9 * 200 + 2 * 200) * SUBPIXELS);
            // 0.4 * (200/3) px: 15 * size == 2 * 200 px.
            assert_eq!(15 * *size, 2 * 200 * SUBPIXELS);
            assert_eq!(*color, Rgba { r: 255, g: 255, b: 255, alpha_milli: 1000 });
        }
        other => panic!("expected the date label, found {:?}", other),
    }
}

#[test]
fn degenerate_size_renders_an_empty_frame() {
    let mut st = ClockState::new(sample_time());
    st.set_face_width(0);
    let (frame, rebuilt) = st.get_or_build();
    assert!(rebuilt);
    assert!(frame.elements.is_empty());
}

#[test]
fn get_or_build_is_idempotent() {
    let mut st = ClockState::new(sample_time());
    let (first, rebuilt_first) = st.get_or_build();
    let (second, rebuilt_second) = st.get_or_build();
    assert!(rebuilt_first);
    assert!(!rebuilt_second);
    assert_eq!(first, second);
}

#[test]
fn tick_to_a_new_second_invalidates() {
    let mut st = ClockState::new(sample_time());
    let _ = st.get_or_build();
    let before = st.current_fingerprint();
    st.on_tick(ClockTime::new(14, 7, 31, 11, 10, 2026));
    assert_ne!(st.current_fingerprint(), before);
    assert!(matches!(st.cache, CacheState::Dirty));
    let (_, rebuilt) = st.get_or_build();
    assert!(rebuilt);
}

#[test]
fn tick_to_the_same_second_does_not_invalidate() {
    let mut st = ClockState::new(sample_time());
    let (first, _) = st.get_or_build();
    st.on_tick(sample_time());
    assert!(matches!(st.cache, CacheState::Valid { .. }));
    let (second, rebuilt) = st.get_or_build();
    assert!(!rebuilt);
    assert_eq!(first, second);
}

#[test]
fn each_commit_target_invalidates() {
    let mut st = ClockState::new(sample_time());
    let _ = st.get_or_build();
    st.set_red(10);
    st.commit_seconds();
    let (_, rebuilt) = st.get_or_build();
    assert!(rebuilt);

    st.set_green(20);
    st.commit_minutes();
    let (_, rebuilt) = st.get_or_build();
    assert!(rebuilt);

    st.set_blue(30);
    st.commit_hours();
    let (_, rebuilt) = st.get_or_build();
    assert!(rebuilt);
}

#[test]
fn resize_invalidates_and_same_size_does_not() {
    let mut st = ClockState::new(sample_time());
    let _ = st.get_or_build();
    let before = st.current_fingerprint();
    st.set_face_width(500);
    assert_ne!(st.current_fingerprint(), before);
    let (frame, rebuilt) = st.get_or_build();
    assert!(rebuilt);
    match &frame.elements[0] {
        FrameElement::Circle { radius, .. } => {
            // outer 250 px, thickness 37.5 px, seconds radius 212.5 px.
            assert_eq!(2 * *radius, 425 * SUBPIXELS);
        }
        other => panic!("expected the seconds track, found {:?}", other),
    }
    st.set_face_width(500);
    let (_, rebuilt) = st.get_or_build();
    assert!(!rebuilt);
}

#[test]
fn preview_edits_alone_do_not_invalidate() {
    let mut st = ClockState::new(sample_time());
    let _ = st.get_or_build();
    st.set_red(1);
    st.set_green(2);
    st.set_blue(3);
    st.set_opacity(500);
    let (_, rebuilt) = st.get_or_build();
    assert!(!rebuilt);
}

#[test]
fn committing_an_unchanged_color_does_not_invalidate() {
    let mut st = ClockState::new(sample_time());
    st.set_red(255);
    st.set_green(0);
    st.set_blue(0);
    st.set_opacity(400);
    st.commit_seconds();
    let _ = st.get_or_build();
    // The channels still assemble to the stored seconds color.
    st.commit_seconds();
    let (_, rebuilt) = st.get_or_build();
    assert!(!rebuilt);
}

#[test]
fn commit_scenario() {
    let mut st = ClockState::new(sample_time());
    st.set_red(255);
    st.set_green(0);
    st.set_blue(0);
    st.set_opacity(400);
    assert_eq!(
        st.current_preview_color(),
        Rgba { r: 255, g: 0, b: 0, alpha_milli: 400 }
    );
    st.commit_seconds();
    assert_eq!(st.seconds_color, Rgba { r: 255, g: 0, b: 0, alpha_milli: 400 });
    let (frame, _) = st.get_or_build();
    // The seconds track keeps the stored alpha; the arc forces full alpha.
    match &frame.elements[0] {
        FrameElement::Circle { color, .. } => {
            assert_eq!(*color, Rgba { r: 255, g: 0, b: 0, alpha_milli: 400 });
        }
        other => panic!("expected the seconds track, found {:?}", other),
    }
    match &frame.elements[3] {
        FrameElement::Arc { color, .. } => {
            assert_eq!(*color, Rgba { r: 255, g: 0, b: 0, alpha_milli: 1000 });
        }
        other => panic!("expected the seconds arc, found {:?}", other),
    }
}

#[test]
fn defaults_match_startup_state() {
    let st = ClockState::new(sample_time());
    assert_eq!(st.seconds_color, Rgba { r: 245, g: 40, b: 145, alpha_milli: 400 });
    assert_eq!(st.minutes_color, Rgba { r: 45, g: 40, b: 245, alpha_milli: 400 });
    assert_eq!(st.hours_color, Rgba { r: 45, g: 140, b: 5, alpha_milli: 400 });
    assert_eq!(st.text_color, Rgba { r: 255, g: 255, b: 255, alpha_milli: 1000 });
    assert_eq!(st.preview_color, Rgba { r: 245, g: 250, b: 145, alpha_milli: 400 });
    assert_eq!(st.size, FaceSize { width: 400, height: 400 });
    assert!(matches!(st.cache, CacheState::Dirty));
}
