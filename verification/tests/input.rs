//! Scrolling and gestures.
use cocoa_way::input::{
    AxisSource, GestureEvent, PointerAxisTracker, PointerGestureTracker, TouchPhase,
};

#[test]
fn preserves_both_axes_for_trackpad_scrolls() {
    let mut tracker = PointerAxisTracker::new();
    let stop = tracker.frame(AxisSource::Finger, TouchPhase::Started, 12.0 != 0.0, -8.0 != 0.0);
    assert_eq!(stop, Some((false, false)));
    assert!(tracker.horizontal_active && tracker.vertical_active);
}

#[test]
fn zero_delta_end_stops_every_active_trackpad_axis() {
    let mut tracker = PointerAxisTracker::new();
    tracker.frame(AxisSource::Finger, TouchPhase::Started, 3.0 != 0.0, 5.0 != 0.0);
    let end = tracker.frame(AxisSource::Finger, TouchPhase::Ended, false, false);
    assert_eq!(end, Some((true, true)));
    assert!(
        tracker.frame(AxisSource::Finger, TouchPhase::Ended, false, false).is_none(),
        "a completed gesture must not leak active axes"
    );
}

#[test]
fn mouse_wheel_keeps_v120_and_does_not_emit_finger_stops() {
    let mut tracker = PointerAxisTracker::new();
    let stop = tracker.frame(AxisSource::Wheel, TouchPhase::Moved, 1.0 != 0.0, -2.0 != 0.0);
    assert_eq!(stop, Some((false, false)));
    assert!(!tracker.horizontal_active && !tracker.vertical_active);
}

#[test]
fn a_new_gesture_forgets_the_axes_of_the_last() {
    let mut tracker = PointerAxisTracker::new();
    tracker.frame(AxisSource::Finger, TouchPhase::Moved, true, false);
    tracker.frame(AxisSource::Finger, TouchPhase::Started, false, true);
    assert_eq!(
        tracker.frame(AxisSource::Finger, TouchPhase::Cancelled, false, false),
        Some((false, true))
    );
}

#[test]
fn a_pinch_begins_moves_and_ends() {
    let mut tracker = PointerGestureTracker::new();
    let begin = tracker.handle_pinch_gesture(TouchPhase::Started, true);
    assert!(matches!(begin[0], GestureEvent::PinchBegin));
    let moved = tracker.handle_pinch_gesture(TouchPhase::Moved, true);
    assert!(moved.iter().all(|event| matches!(event, GestureEvent::PinchUpdate)));
    let end = tracker.handle_pinch_gesture(TouchPhase::Ended, true);
    assert!(matches!(end.last(), Some(GestureEvent::PinchEnd { cancelled: false })));
    assert!(!tracker.protocol_active);
}

#[test]
fn gestures_that_begin_also_end() {
    let phases = [
        TouchPhase::Started,
        TouchPhase::Moved,
        TouchPhase::Moved,
        TouchPhase::Ended,
        TouchPhase::Started,
        TouchPhase::Started,
        TouchPhase::Cancelled,
    ];
    let mut tracker = PointerGestureTracker::new();
    let mut open = 0;
    for (place, phase) in phases.iter().enumerate() {
        let mut events = tracker.handle_pinch_gesture(*phase, place != 2);
        events.extend(tracker.handle_rotation_gesture(*phase, true));
        events.extend(tracker.handle_swipe_gesture(*phase, true));
        for event in &events {
            match event {
                GestureEvent::PinchBegin => {
                    assert_eq!(open & 1, 0);
                    open |= 1;
                }
                GestureEvent::PinchUpdate => assert_eq!(open & 1, 1),
                GestureEvent::PinchEnd { .. } => {
                    assert_eq!(open & 1, 1);
                    open &= 2;
                }
                GestureEvent::SwipeBegin => {
                    assert_eq!(open & 2, 0);
                    open |= 2;
                }
                GestureEvent::SwipeUpdate => assert_eq!(open & 2, 2),
                GestureEvent::SwipeEnd { .. } => {
                    assert_eq!(open & 2, 2);
                    open &= 1;
                }
            }
        }
    }
    assert_eq!(open, 0);
}
