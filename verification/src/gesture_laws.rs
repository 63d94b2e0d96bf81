//! What the protocol hears of gestures and scrolling, call by call and over
//! whole runs.
use vstd::prelude::*;

use crate::input::{
    active_after, gesture_run, gesture_step, part_active, pinch_step, stops, swipe_step,
    AxisSource, GestureEvent, GestureInput, PinchPart, PointerGestureTracker, TouchPhase,
};

verus! {

// ---------------------------------------------------------------------------
// One call
// ---------------------------------------------------------------------------
/// A movement of a pinch that is a number is heard, and one that is none is
/// not; either way the movement is under way afterwards, and a pinch that was
/// not is begun before it moves.
pub proof fn law_movement_is_heard(tracker: PointerGestureTracker, part: PinchPart, finite: bool)
    ensures
        finite ==> pinch_step(tracker, part, TouchPhase::Moved, finite).1.len() > 0 && pinch_step(
            tracker,
            part,
            TouchPhase::Moved,
            finite,
        ).1.last() == GestureEvent::PinchUpdate,
        !finite ==> !pinch_step(tracker, part, TouchPhase::Moved, finite).1.contains(
            GestureEvent::PinchUpdate,
        ),
        pinch_step(tracker, part, TouchPhase::Moved, finite).1.contains(GestureEvent::PinchBegin)
            <==> !part_active(tracker, part) && !tracker.protocol_active,
        part_active(pinch_step(tracker, part, TouchPhase::Moved, finite).0, part),
{
    let events = pinch_step(tracker, part, TouchPhase::Moved, finite).1;
    if !part_active(tracker, part) && !tracker.protocol_active {
        assert(events[0] == GestureEvent::PinchBegin);
    }
}

/// A movement that starts begins the pinch, unless the pinch was begun already.
pub proof fn law_start_is_heard(tracker: PointerGestureTracker, part: PinchPart, finite: bool)
    ensures
        pinch_step(tracker, part, TouchPhase::Started, finite).1 == (if tracker.protocol_active {
            seq![]
        } else {
            seq![GestureEvent::PinchBegin]
        }),
        part_active(pinch_step(tracker, part, TouchPhase::Started, finite).0, part),
        pinch_step(tracker, part, TouchPhase::Started, finite).0.protocol_active,
{
}

/// A pinch ends with the last of its movements, and not before: while the other
/// movement goes on nothing is heard, and the other goes on. A movement that is
/// cancelled cancels the pinch.
pub proof fn law_end_is_heard(
    tracker: PointerGestureTracker,
    part: PinchPart,
    other: PinchPart,
    finite: bool,
)
    requires
        part != other,
        tracker.protocol_active,
    ensures
        !part_active(pinch_step(tracker, part, TouchPhase::Ended, finite).0, part),
        part_active(tracker, other) ==> pinch_step(tracker, part, TouchPhase::Ended, finite).1.len()
            == 0 && part_active(pinch_step(tracker, part, TouchPhase::Ended, finite).0, other),
        !part_active(tracker, other) ==> pinch_step(tracker, part, TouchPhase::Ended, finite).1
            == seq![GestureEvent::PinchEnd { cancelled: false }] && !pinch_step(
            tracker,
            part,
            TouchPhase::Ended,
            finite,
        ).0.protocol_active,
        pinch_step(tracker, part, TouchPhase::Cancelled, finite).1 == seq![
            GestureEvent::PinchEnd { cancelled: true },
        ],
        !pinch_step(tracker, part, TouchPhase::Cancelled, finite).0.protocol_active,
        !part_active(pinch_step(tracker, part, TouchPhase::Cancelled, finite).0, part),
        !part_active(pinch_step(tracker, part, TouchPhase::Cancelled, finite).0, other),
{
}

/// A swipe that moves is heard; one that starts is begun, and cancels the swipe
/// that it interrupts; one that is over ends, as cancelled just where it was.
pub proof fn law_swipe_is_heard(tracker: PointerGestureTracker, moved: bool)
    ensures
        swipe_step(tracker, TouchPhase::Moved, true).1.len() > 0,
        swipe_step(tracker, TouchPhase::Moved, true).1.last() == GestureEvent::SwipeUpdate,
        !swipe_step(tracker, TouchPhase::Moved, false).1.contains(GestureEvent::SwipeUpdate),
        swipe_step(tracker, TouchPhase::Moved, moved).1.contains(GestureEvent::SwipeBegin)
            <==> !tracker.swipe_active,
        swipe_step(tracker, TouchPhase::Started, moved).1.last() == GestureEvent::SwipeBegin,
        swipe_step(tracker, TouchPhase::Started, moved).1.contains(
            GestureEvent::SwipeEnd { cancelled: true },
        ) <==> tracker.swipe_active,
        tracker.swipe_active ==> swipe_step(tracker, TouchPhase::Ended, moved).1 == seq![
            GestureEvent::SwipeEnd { cancelled: false },
        ],
        tracker.swipe_active ==> swipe_step(tracker, TouchPhase::Cancelled, moved).1 == seq![
            GestureEvent::SwipeEnd { cancelled: true },
        ],
        !tracker.swipe_active ==> swipe_step(tracker, TouchPhase::Ended, moved).1.len() == 0
            && swipe_step(tracker, TouchPhase::Cancelled, moved).1.len() == 0,
        swipe_step(tracker, TouchPhase::Started, moved).0.swipe_active,
        swipe_step(tracker, TouchPhase::Moved, moved).0.swipe_active,
        !swipe_step(tracker, TouchPhase::Ended, moved).0.swipe_active,
        !swipe_step(tracker, TouchPhase::Cancelled, moved).0.swipe_active,
{
    let events = swipe_step(tracker, TouchPhase::Moved, moved).1;
    if !tracker.swipe_active {
        assert(events[0] == GestureEvent::SwipeBegin);
    }
    if tracker.swipe_active {
        assert(swipe_step(tracker, TouchPhase::Started, moved).1[0] == GestureEvent::SwipeEnd {
            cancelled: true,
        });
    }
}

/// A pinch and a swipe do not disturb one another.
pub proof fn law_gestures_are_apart(
    tracker: PointerGestureTracker,
    part: PinchPart,
    phase: TouchPhase,
    moved: bool,
)
    ensures
        pinch_step(tracker, part, phase, moved).0.swipe_active == tracker.swipe_active,
        swipe_step(tracker, phase, moved).0.magnify_active == tracker.magnify_active,
        swipe_step(tracker, phase, moved).0.rotation_active == tracker.rotation_active,
        swipe_step(tracker, phase, moved).0.protocol_active == tracker.protocol_active,
        phase !is Ended && phase !is Cancelled ==> (part_active(
            pinch_step(tracker, part, phase, moved).0,
            PinchPart::Magnify,
        ) <==> tracker.magnify_active || part is Magnify),
        phase !is Ended && phase !is Cancelled ==> (part_active(
            pinch_step(tracker, part, phase, moved).0,
            PinchPart::Rotate,
        ) <==> tracker.rotation_active || part is Rotate),
{
}

/// An axis that fingers move along is active until the gesture is over, and is
/// stopped just then. A wheel neither makes an axis active nor stops one.
pub proof fn law_axis_is_followed(active: bool, phase: TouchPhase, moved: bool)
    ensures
        active_after(active, AxisSource::Finger, TouchPhase::Moved, moved) == (active || moved),
        active_after(active, AxisSource::Finger, TouchPhase::Started, moved) == moved,
        !active_after(active, AxisSource::Finger, TouchPhase::Ended, moved),
        !active_after(active, AxisSource::Finger, TouchPhase::Cancelled, moved),
        stops(active, AxisSource::Finger, TouchPhase::Ended, moved) == (active || moved),
        stops(active, AxisSource::Finger, TouchPhase::Cancelled, moved) == (active || moved),
        !stops(active, AxisSource::Finger, TouchPhase::Started, moved),
        !stops(active, AxisSource::Finger, TouchPhase::Moved, moved),
        !stops(active, AxisSource::Wheel, phase, moved),
        !active ==> !active_after(active, AxisSource::Wheel, phase, moved),
{
}

// ---------------------------------------------------------------------------
// Runs of calls
// ---------------------------------------------------------------------------
/// How often an event is heard.
pub open spec fn times(events: Seq<GestureEvent>, event: GestureEvent) -> nat
    decreases events.len(),
{
    if events.len() == 0 {
        0
    } else {
        times(events.drop_last(), event) + (if events.last() == event {
            1nat
        } else {
            0nat
        })
    }
}

/// How many of some calls are movements of a pinch that are numbers.
pub open spec fn pinch_moves(inputs: Seq<GestureInput>) -> nat
    decreases inputs.len(),
{
    if inputs.len() == 0 {
        0
    } else {
        pinch_moves(inputs.drop_last()) + (if inputs.last() matches GestureInput::Pinch {
            phase: TouchPhase::Moved,
            finite: true,
            ..
        } {
            1nat
        } else {
            0nat
        })
    }
}

/// How many of some calls are swipes that move.
pub open spec fn swipe_moves(inputs: Seq<GestureInput>) -> nat
    decreases inputs.len(),
{
    if inputs.len() == 0 {
        0
    } else {
        swipe_moves(inputs.drop_last()) + (if inputs.last() matches GestureInput::Swipe {
            phase: TouchPhase::Moved,
            moved: true,
        } {
            1nat
        } else {
            0nat
        })
    }
}

proof fn lemma_times_joined(a: Seq<GestureEvent>, b: Seq<GestureEvent>, event: GestureEvent)
    ensures
        times(a + b, event) == times(a, event) + times(b, event),
    decreases b.len(),
{
    if b.len() == 0 {
        assert(a + b == a);
    } else {
        assert((a + b).drop_last() == a + b.drop_last());
        lemma_times_joined(a, b.drop_last(), event);
    }
}

proof fn lemma_times_short(events: Seq<GestureEvent>, event: GestureEvent)
    requires
        events.len() <= 2,
    ensures
        times(events, event) == (if events.len() > 0 && events[0] == event {
            1nat
        } else {
            0nat
        }) + (if events.len() > 1 && events[1] == event {
            1nat
        } else {
            0nat
        }),
{
    reveal_with_fuel(times, 3);
    if events.len() == 2 {
        assert(events.drop_last().drop_last().len() == 0);
        assert(events.drop_last().last() == events[0]);
    } else if events.len() == 1 {
        assert(events.drop_last().len() == 0);
    }
}

/// Over any run of calls the protocol hears as many movements of a pinch as
/// there were that are numbers, and as many movements of a swipe as there were.
pub proof fn law_every_movement_is_heard(
    tracker: PointerGestureTracker,
    inputs: Seq<GestureInput>,
)
    ensures
        times(gesture_run(tracker, inputs).1, GestureEvent::PinchUpdate) == pinch_moves(inputs),
        times(gesture_run(tracker, inputs).1, GestureEvent::SwipeUpdate) == swipe_moves(inputs),
    decreases inputs.len(),
{
    if inputs.len() > 0 {
        let front = inputs.drop_last();
        law_every_movement_is_heard(tracker, front);
        let before = gesture_run(tracker, front);
        let step = gesture_step(before.0, inputs.last());
        lemma_times_joined(before.1, step.1, GestureEvent::PinchUpdate);
        lemma_times_joined(before.1, step.1, GestureEvent::SwipeUpdate);
        lemma_times_short(step.1, GestureEvent::PinchUpdate);
        lemma_times_short(step.1, GestureEvent::SwipeUpdate);
    }
}

} // verus!
