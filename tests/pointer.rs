use magma::axis::{AxisOutcome, AxisSource};
use magma::geometry::{clamp_point, OutputGeometry, Point, SUBPIXELS};
use magma::state::{auto_focus, ButtonState, FocusChange, InputEvent, MagmaState, Notification};

fn output_800_600() -> Option<OutputGeometry> {
    Some(OutputGeometry { x: 0, y: 0, width: 800, height: 600 })
}

fn relative(dx: i32, dy: i32) -> InputEvent {
    let d = Point::from_pixels(dx, dy);
    InputEvent::PointerMotion { delta: d, delta_unaccel: d, time: 7, utime: 7000 }
}

#[test]
fn relative_motion_clamps_at_left_edge() {
    let mut state = MagmaState::new();
    state.set_output(output_800_600());
    state.pointer_location = Point::from_pixels(50, 50);
    let out = state.process_input_event(relative(-100, -10));
    assert_eq!(state.pointer_location, Point::from_pixels(0, 40));
    let delta = Point::from_pixels(-100, -10);
    assert_eq!(
        out,
        vec![
            Notification::Focus { at: Point::from_pixels(0, 40) },
            Notification::Motion { location: Point::from_pixels(0, 40), time: 7 },
            Notification::RelativeMotion { delta, delta_unaccel: delta, utime: 7000 },
        ]
    );
}

#[test]
fn relative_motion_sums_deltas_inside_output() {
    let mut state = MagmaState::new();
    state.set_output(output_800_600());
    for (dx, dy) in [(10, 20), (30, -5), (100, 100)] {
        state.process_input_event(relative(dx, dy));
    }
    assert_eq!(state.pointer_location, Point::from_pixels(140, 115));
    state.process_input_event(relative(1000, 1000));
    assert_eq!(state.pointer_location, Point::from_pixels(800, 600));
}

#[test]
fn relative_motion_unclamped_without_output() {
    let mut state = MagmaState::new();
    state.process_input_event(relative(-100, -10));
    assert_eq!(state.pointer_location, Point::from_pixels(-100, -10));
}

#[test]
fn relative_motion_saturates_at_i64_range() {
    let mut state = MagmaState::new();
    state.pointer_location = Point { x: i64::MAX - 1, y: i64::MIN + 1 };
    let d = Point { x: 10, y: -10 };
    state.process_input_event(InputEvent::PointerMotion { delta: d, delta_unaccel: d, time: 0, utime: 0 });
    assert_eq!(state.pointer_location, Point { x: i64::MAX, y: i64::MIN });
}

#[test]
fn clamp_is_idempotent() {
    let out = output_800_600();
    for (x, y) in [(-5i128, 3i128), (900 * 120, -1), (400 * 120, 300 * 120), (i128::MAX, i128::MIN)] {
        let once = clamp_point(x, y, out);
        let twice = clamp_point(once.x as i128, once.y as i128, out);
        assert_eq!(once, twice);
    }
    assert_eq!(clamp_point(-5, 900 * 120, out), Point { x: 0, y: 600 * SUBPIXELS });
}

#[test]
fn clamp_coords_uses_primary_output_size_only() {
    let mut state = MagmaState::new();
    state.set_output(Some(OutputGeometry { x: 100, y: 100, width: 800, height: 600 }));
    assert_eq!(state.clamp_coords(Point::from_pixels(850, 50)), Point::from_pixels(800, 50));
    assert_eq!(state.clamp_coords(Point::from_pixels(-3, 650)), Point::from_pixels(0, 600));
}

#[test]
fn set_output_brings_pointer_onto_output() {
    let mut state = MagmaState::new();
    state.process_input_event(relative(-20, 2000));
    state.set_output(output_800_600());
    assert_eq!(state.pointer_location, Point::from_pixels(0, 600));
}

#[test]
fn absolute_motion_offsets_by_output_origin_and_clamps() {
    // the pointer rests at, and clients are told, the clamped point
    let mut state = MagmaState::new();
    state.set_output(Some(OutputGeometry { x: 100, y: 0, width: 800, height: 600 }));
    let out = state.process_input_event(InputEvent::PointerMotionAbsolute {
        position: Point::from_pixels(750, 20),
        time: 3,
    });
    assert_eq!(state.pointer_location, Point::from_pixels(800, 20));
    assert_eq!(
        out,
        vec![
            Notification::Focus { at: Point::from_pixels(800, 20) },
            Notification::Motion { location: Point::from_pixels(800, 20), time: 3 },
        ]
    );
}

#[test]
fn button_focuses_before_delivery() {
    let mut state = MagmaState::new();
    state.set_output(output_800_600());
    state.process_input_event(relative(5, 6));
    let out = state.process_input_event(InputEvent::PointerButton {
        button: 272,
        state: ButtonState::Pressed,
        time: 9,
    });
    assert_eq!(
        out,
        vec![
            Notification::Focus { at: Point::from_pixels(5, 6) },
            Notification::Button { button: 272, state: ButtonState::Pressed, time: 9 },
        ]
    );
    assert_eq!(state.pointer_location, Point::from_pixels(5, 6));
}

fn axis_event(source: AxisSource, h: Option<i64>, hd: Option<i32>, v: Option<i64>, vd: Option<i32>) -> Vec<Notification> {
    let mut state = MagmaState::new();
    state.process_input_event(InputEvent::PointerAxis {
        source,
        horizontal: h,
        horizontal_discrete: hd,
        vertical: v,
        vertical_discrete: vd,
        time: 11,
    })
}

#[test]
fn part_of_a_click_still_scrolls() {
    let out = axis_event(AxisSource::Wheel, None, None, None, Some(60));
    match out.as_slice() {
        [Notification::Axis(frame)] => {
            assert_eq!(frame.horizontal, AxisOutcome::Silent);
            assert_eq!(frame.vertical, AxisOutcome::Value { amount: 3 * SUBPIXELS / 2, discrete: Some(60) });
        }
        other => panic!("unexpected {:?}", other),
    }
}

#[test]
fn absolute_motion_far_from_origin_reports_resting_place() {
    let mut state = MagmaState::new();
    state.set_output(Some(OutputGeometry { x: 1920, y: 0, width: 800, height: 600 }));
    let out = state.process_input_event(InputEvent::PointerMotionAbsolute {
        position: Point::from_pixels(100, 10),
        time: 4,
    });
    assert_eq!(state.pointer_location, Point::from_pixels(800, 10));
    assert_eq!(out[1], Notification::Motion { location: Point::from_pixels(800, 10), time: 4 });
}

#[test]
fn focus_follows_pointer_and_sticks_over_empty_desktop() {
    assert_eq!(auto_focus(Some(7u32)), FocusChange::Assign(7));
    assert_eq!(auto_focus::<u32>(None), FocusChange::Keep);
}

#[test]
fn zero_scroll_from_wheel_is_silent() {
    let out = axis_event(AxisSource::Wheel, Some(0), None, Some(512), Some(120));
    match out.as_slice() {
        [Notification::Axis(frame)] => {
            assert_eq!(frame.horizontal, AxisOutcome::Silent);
            assert_eq!(frame.vertical, AxisOutcome::Value { amount: 512, discrete: Some(120) });
            assert_eq!(frame.source, AxisSource::Wheel);
            assert_eq!(frame.time, 11);
        }
        other => panic!("unexpected {:?}", other),
    }
}

#[test]
fn zero_scroll_from_finger_stops_that_axis_only() {
    let out = axis_event(AxisSource::Finger, Some(300), None, Some(0), None);
    match out.as_slice() {
        [Notification::Axis(frame)] => {
            assert_eq!(frame.horizontal, AxisOutcome::Value { amount: 300, discrete: None });
            assert_eq!(frame.vertical, AxisOutcome::Stop);
        }
        other => panic!("unexpected {:?}", other),
    }
}

#[test]
fn discrete_clicks_scroll_three_pixels_each() {
    let out = axis_event(AxisSource::Wheel, None, Some(-240), None, None);
    match out.as_slice() {
        [Notification::Axis(frame)] => {
            assert_eq!(frame.horizontal, AxisOutcome::Value { amount: -2 * 3 * SUBPIXELS, discrete: Some(-240) });
            assert_eq!(frame.vertical, AxisOutcome::Silent);
        }
        other => panic!("unexpected {:?}", other),
    }
}
