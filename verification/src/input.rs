//! Pointer input: scrolling with a wheel or with fingers, and the gestures of a
//! trackpad, as the protocol wants to hear of them.
use vstd::prelude::*;

verus! {

/// How far a gesture or a scroll has come.
#[derive(Debug, Clone, Copy, PartialEq, Eq, Structural)]
pub enum TouchPhase {
    Started,
    Moved,
    Ended,
    Cancelled,
}

/// What scrolls.
#[derive(Debug, Clone, Copy, PartialEq, Eq, Structural)]
pub enum AxisSource {
    Wheel,
    Finger,
}

pub open spec fn is_terminal(phase: TouchPhase) -> bool {
    phase is Ended || phase is Cancelled
}

// ---------------------------------------------------------------------------
// Scrolling
// ---------------------------------------------------------------------------
/// The axes along which fingers scroll.
#[derive(Debug, Clone, Copy, PartialEq, Eq, Structural)]
pub struct PointerAxisTracker {
    pub horizontal_active: bool,
    pub vertical_active: bool,
}

/// Whether an axis is active when an event comes: a new gesture starts with
/// none.
pub open spec fn carried(active: bool, phase: TouchPhase) -> bool {
    active && phase !is Started
}

/// Whether an event stops an axis: the end of a gesture of fingers stops each
/// axis that the gesture has moved along, the last movement included.
pub open spec fn stops(active: bool, source: AxisSource, phase: TouchPhase, moved: bool) -> bool {
    source is Finger && is_terminal(phase) && (carried(active, phase) || moved)
}

/// Whether an axis is active after an event.
pub open spec fn active_after(
    active: bool,
    source: AxisSource,
    phase: TouchPhase,
    moved: bool,
) -> bool {
    !is_terminal(phase) && (carried(active, phase) || (source is Finger && moved))
}

impl PointerAxisTracker {
    pub fn new() -> (result: Self)
        ensures
            !result.horizontal_active,
            !result.vertical_active,
    {
        PointerAxisTracker { horizontal_active: false, vertical_active: false }
    }

    /// Takes an event in, and says which of the two axes the frame for it
    /// stops; there is no frame for an event that neither moves nor stops.
    pub fn frame(
        &mut self,
        source: AxisSource,
        phase: TouchPhase,
        horizontal_moved: bool,
        vertical_moved: bool,
    ) -> (result: Option<(bool, bool)>)
        ensures
            final(self).horizontal_active == active_after(
                old(self).horizontal_active,
                source,
                phase,
                horizontal_moved,
            ),
            final(self).vertical_active == active_after(
                old(self).vertical_active,
                source,
                phase,
                vertical_moved,
            ),
            ({
                let horizontal = stops(
                    old(self).horizontal_active,
                    source,
                    phase,
                    horizontal_moved,
                );
                let vertical = stops(old(self).vertical_active, source, phase, vertical_moved);
                result == (if horizontal_moved || vertical_moved || horizontal || vertical {
                    Some((horizontal, vertical))
                } else {
                    None
                })
            }),
    {
        if phase == TouchPhase::Started {
            self.horizontal_active = false;
            self.vertical_active = false;
        }
        let finger = source == AxisSource::Finger;
        let terminal = phase == TouchPhase::Ended || phase == TouchPhase::Cancelled;
        let horizontal_stop = finger && terminal && (self.horizontal_active || horizontal_moved);
        let vertical_stop = finger && terminal && (self.vertical_active || vertical_moved);
        if finger && !terminal {
            self.horizontal_active = self.horizontal_active || horizontal_moved;
            self.vertical_active = self.vertical_active || vertical_moved;
        }
        if terminal {
            self.horizontal_active = false;
            self.vertical_active = false;
        }
        if horizontal_moved || vertical_moved || horizontal_stop || vertical_stop {
            Some((horizontal_stop, vertical_stop))
        } else {
            None
        }
    }
}

/// An event of fingers on one axis.
pub struct AxisStep {
    pub phase: TouchPhase,
    pub moved: bool,
}

/// Whether an axis is active after a run of events of fingers.
pub open spec fn axis_run(active: bool, steps: Seq<AxisStep>) -> bool
    decreases steps.len(),
{
    if steps.len() == 0 {
        active
    } else {
        active_after(
            axis_run(active, steps.drop_last()),
            AxisSource::Finger,
            steps.last().phase,
            steps.last().moved,
        )
    }
}

/// A gesture that is over leaves no axis active, and an axis that it has moved
/// along is stopped by its end, whether or not the end itself moves.
pub proof fn law_moved_axis_is_stopped(
    active: bool,
    start: AxisStep,
    middle: Seq<AxisStep>,
    end: AxisStep,
)
    requires
        start.phase is Started,
        is_terminal(end.phase),
        forall|i: int| 0 <= i < middle.len() ==> (#[trigger] middle[i]).phase is Moved,
    ensures
        !axis_run(active, (seq![start] + middle).push(end)),
        stops(
            axis_run(active, seq![start] + middle),
            AxisSource::Finger,
            end.phase,
            end.moved,
        ) == (start.moved || end.moved || exists|i: int|
            0 <= i < middle.len() && (#[trigger] middle[i]).moved),
    decreases middle.len(),
{
    let run = seq![start] + middle;
    assert(run.push(end).drop_last() == run);
    if middle.len() == 0 {
        assert(run == seq![start]);
        assert(run.drop_last() == Seq::<AxisStep>::empty());
    } else {
        let front = middle.drop_last();
        assert(run.drop_last() == seq![start] + front);
        assert(run.last() == middle.last());
        assert forall|i: int| 0 <= i < front.len() implies (#[trigger] front[i]).phase is Moved by {
            assert(front[i] == middle[i]);
        }
        law_moved_axis_is_stopped(active, start, front, end);
        assert(middle[middle.len() - 1] == middle.last());
        assert((exists|i: int| 0 <= i < middle.len() && (#[trigger] middle[i]).moved) == ((exists|
            i: int,
        |
            0 <= i < front.len() && (#[trigger] front[i]).moved) || middle.last().moved)) by {
            assert forall|i: int| 0 <= i < front.len() implies #[trigger] front[i]
                == middle[i] by {}
            if exists|i: int| 0 <= i < middle.len() && (#[trigger] middle[i]).moved {
                let i = choose|i: int| 0 <= i < middle.len() && (#[trigger] middle[i]).moved;
                if i < front.len() {
                    assert(front[i].moved);
                }
            }
            if exists|i: int| 0 <= i < front.len() && (#[trigger] front[i]).moved {
                let i = choose|i: int| 0 <= i < front.len() && (#[trigger] front[i]).moved;
                assert(middle[i].moved);
            }
        }
    }
}

// ---------------------------------------------------------------------------
// Gestures
// ---------------------------------------------------------------------------
/// What the protocol hears of a gesture. A pinch carries a scale and a
/// rotation; both start anew where it begins and where it ends.
#[derive(Debug, Clone, Copy, PartialEq, Eq, Structural)]
pub enum GestureEvent {
    PinchBegin,
    PinchUpdate,
    PinchEnd { cancelled: bool },
    SwipeBegin,
    SwipeUpdate,
    SwipeEnd { cancelled: bool },
}

/// The movements of which the protocol's pinch is made.
#[derive(Debug, Clone, Copy, PartialEq, Eq, Structural)]
pub enum PinchPart {
    Magnify,
    Rotate,
}

/// The gestures that are under way. Magnifying and rotating share one pinch.
#[derive(Debug, Clone, Copy, PartialEq, Eq, Structural)]
pub struct PointerGestureTracker {
    pub magnify_active: bool,
    pub rotation_active: bool,
    pub protocol_active: bool,
    pub swipe_active: bool,
}

/// One of the movements has started: the pinch begins with the first.
pub open spec fn pinch_started(tracker: PointerGestureTracker, part: PinchPart) -> (
    PointerGestureTracker,
    Seq<GestureEvent>,
) {
    (
        PointerGestureTracker {
            magnify_active: tracker.magnify_active || part is Magnify,
            rotation_active: tracker.rotation_active || part is Rotate,
            protocol_active: true,
            swipe_active: tracker.swipe_active,
        },
        if tracker.protocol_active {
            Seq::empty()
        } else {
            seq![GestureEvent::PinchBegin]
        },
    )
}

pub open spec fn part_active(tracker: PointerGestureTracker, part: PinchPart) -> bool {
    match part {
        PinchPart::Magnify => tracker.magnify_active,
        PinchPart::Rotate => tracker.rotation_active,
    }
}

/// Some of the movements are over: the pinch ends with the last.
pub open spec fn pinch_finished(
    tracker: PointerGestureTracker,
    magnify: bool,
    rotation: bool,
    cancelled: bool,
) -> (PointerGestureTracker, Seq<GestureEvent>) {
    let over = tracker.protocol_active && !magnify && !rotation;
    (
        PointerGestureTracker {
            magnify_active: magnify,
            rotation_active: rotation,
            protocol_active: tracker.protocol_active && !over,
            swipe_active: tracker.swipe_active,
        },
        if over {
            seq![GestureEvent::PinchEnd { cancelled }]
        } else {
            Seq::empty()
        },
    )
}

/// What an event of a pinch makes of the gestures, and what the protocol hears
/// of it. Movements that are no numbers are not passed on.
pub open spec fn pinch_step(
    tracker: PointerGestureTracker,
    part: PinchPart,
    phase: TouchPhase,
    finite: bool,
) -> (PointerGestureTracker, Seq<GestureEvent>) {
    match phase {
        TouchPhase::Started => pinch_started(tracker, part),
        TouchPhase::Moved => {
            let begun = if part_active(tracker, part) {
                (tracker, Seq::empty())
            } else {
                pinch_started(tracker, part)
            };
            (
                begun.0,
                if finite {
                    begun.1.push(GestureEvent::PinchUpdate)
                } else {
                    begun.1
                },
            )
        },
        TouchPhase::Ended => pinch_finished(
            tracker,
            tracker.magnify_active && part !is Magnify,
            tracker.rotation_active && part !is Rotate,
            false,
        ),
        TouchPhase::Cancelled => pinch_finished(tracker, false, false, true),
    }
}

/// What an event of a swipe makes of the gestures, and what the protocol hears
/// of it. A swipe that starts while another is under way cancels that.
pub open spec fn swipe_step(tracker: PointerGestureTracker, phase: TouchPhase, moved: bool) -> (
    PointerGestureTracker,
    Seq<GestureEvent>,
) {
    let on = PointerGestureTracker { swipe_active: true, ..tracker };
    let off = PointerGestureTracker { swipe_active: false, ..tracker };
    match phase {
        TouchPhase::Started => (
            on,
            if tracker.swipe_active {
                seq![GestureEvent::SwipeEnd { cancelled: true }, GestureEvent::SwipeBegin]
            } else {
                seq![GestureEvent::SwipeBegin]
            },
        ),
        TouchPhase::Moved => {
            let begun = if tracker.swipe_active {
                Seq::empty()
            } else {
                seq![GestureEvent::SwipeBegin]
            };
            (
                on,
                if moved {
                    begun.push(GestureEvent::SwipeUpdate)
                } else {
                    begun
                },
            )
        },
        _ => (
            off,
            if tracker.swipe_active {
                seq![GestureEvent::SwipeEnd { cancelled: phase is Cancelled }]
            } else {
                Seq::empty()
            },
        ),
    }
}

impl PointerGestureTracker {
    /// The protocol's pinch is under way just while one of its movements is.
    pub open spec fn well_formed(self) -> bool {
        self.protocol_active == (self.magnify_active || self.rotation_active)
    }

    pub fn new() -> (result: Self)
        ensures
            result == (PointerGestureTracker {
                magnify_active: false,
                rotation_active: false,
                protocol_active: false,
                swipe_active: false,
            }),
            result.well_formed(),
    {
        PointerGestureTracker {
            magnify_active: false,
            rotation_active: false,
            protocol_active: false,
            swipe_active: false,
        }
    }

    fn start_pinch(&mut self, part: PinchPart) -> (result: Vec<GestureEvent>)
        ensures
            (*final(self), result@) == pinch_started(*old(self), part),
    {
        match part {
            PinchPart::Magnify => {
                self.magnify_active = true;
            },
            PinchPart::Rotate => {
                self.rotation_active = true;
            },
        }
        let mut events: Vec<GestureEvent> = Vec::new();
        if !self.protocol_active {
            self.protocol_active = true;
            events.push(GestureEvent::PinchBegin);
            assert(events@ == seq![GestureEvent::PinchBegin]);
        }
        events
    }

    fn finish_pointer_gesture_if_idle(&mut self, cancelled: bool) -> (result: Vec<GestureEvent>)
        ensures
            (*final(self), result@) == pinch_finished(
                *old(self),
                old(self).magnify_active,
                old(self).rotation_active,
                cancelled,
            ),
    {
        let mut events: Vec<GestureEvent> = Vec::new();
        if self.protocol_active && !self.magnify_active && !self.rotation_active {
            self.protocol_active = false;
            events.push(GestureEvent::PinchEnd { cancelled });
            assert(events@ == seq![GestureEvent::PinchEnd { cancelled }]);
        }
        events
    }

    fn handle_pinch_part(&mut self, part: PinchPart, phase: TouchPhase, finite: bool) -> (result:
        Vec<GestureEvent>)
        ensures
            (*final(self), result@) == pinch_step(*old(self), part, phase, finite),
    {
        match phase {
            TouchPhase::Started => self.start_pinch(part),
            TouchPhase::Moved => {
                let active = match part {
                    PinchPart::Magnify => self.magnify_active,
                    PinchPart::Rotate => self.rotation_active,
                };
                let mut events = if active {
                    Vec::new()
                } else {
                    self.start_pinch(part)
                };
                if finite {
                    events.push(GestureEvent::PinchUpdate);
                }
                events
            },
            TouchPhase::Ended => {
                match part {
                    PinchPart::Magnify => {
                        self.magnify_active = false;
                    },
                    PinchPart::Rotate => {
                        self.rotation_active = false;
                    },
                }
                self.finish_pointer_gesture_if_idle(false)
            },
            TouchPhase::Cancelled => {
                self.magnify_active = false;
                self.rotation_active = false;
                self.finish_pointer_gesture_if_idle(true)
            },
        }
    }

    /// Two fingers move apart or together.
    pub fn handle_pinch_gesture(&mut self, phase: TouchPhase, finite: bool) -> (result: Vec<
        GestureEvent,
    >)
        ensures
            (*final(self), result@) == pinch_step(*old(self), PinchPart::Magnify, phase, finite),
            old(self).well_formed() ==> final(self).well_formed(),
    {
        self.handle_pinch_part(PinchPart::Magnify, phase, finite)
    }

    /// Two fingers turn.
    pub fn handle_rotation_gesture(&mut self, phase: TouchPhase, finite: bool) -> (result: Vec<
        GestureEvent,
    >)
        ensures
            (*final(self), result@) == pinch_step(*old(self), PinchPart::Rotate, phase, finite),
            old(self).well_formed() ==> final(self).well_formed(),
    {
        self.handle_pinch_part(PinchPart::Rotate, phase, finite)
    }

    /// Three fingers move; `moved` says that the movement is a number on both
    /// axes and not nothing.
    pub fn handle_swipe_gesture(&mut self, phase: TouchPhase, moved: bool) -> (result: Vec<
        GestureEvent,
    >)
        ensures
            (*final(self), result@) == swipe_step(*old(self), phase, moved),
            old(self).well_formed() ==> final(self).well_formed(),
    {
        let mut events: Vec<GestureEvent> = Vec::new();
        match phase {
            TouchPhase::Started => {
                if self.swipe_active {
                    events.push(GestureEvent::SwipeEnd { cancelled: true });
                }
                self.swipe_active = true;
                events.push(GestureEvent::SwipeBegin);
            },
            TouchPhase::Moved => {
                if !self.swipe_active {
                    self.swipe_active = true;
                    events.push(GestureEvent::SwipeBegin);
                }
                if moved {
                    events.push(GestureEvent::SwipeUpdate);
                }
            },
            TouchPhase::Ended => {
                if self.swipe_active {
                    events.push(GestureEvent::SwipeEnd { cancelled: false });
                    self.swipe_active = false;
                }
            },
            TouchPhase::Cancelled => {
                if self.swipe_active {
                    events.push(GestureEvent::SwipeEnd { cancelled: true });
                    self.swipe_active = false;
                }
            },
        }
        assert(events@ == swipe_step(*old(self), phase, moved).1);
        events
    }
}

/// A call of one of the three functions.
pub enum GestureInput {
    Pinch { part: PinchPart, phase: TouchPhase, finite: bool },
    Swipe { phase: TouchPhase, moved: bool },
}

pub open spec fn gesture_step(tracker: PointerGestureTracker, input: GestureInput) -> (
    PointerGestureTracker,
    Seq<GestureEvent>,
) {
    match input {
        GestureInput::Pinch { part, phase, finite } => pinch_step(tracker, part, phase, finite),
        GestureInput::Swipe { phase, moved } => swipe_step(tracker, phase, moved),
    }
}

/// The gestures after a run of calls, and all that the protocol has heard.
pub open spec fn gesture_run(tracker: PointerGestureTracker, inputs: Seq<GestureInput>) -> (
    PointerGestureTracker,
    Seq<GestureEvent>,
)
    decreases inputs.len(),
{
    if inputs.len() == 0 {
        (tracker, Seq::empty())
    } else {
        let before = gesture_run(tracker, inputs.drop_last());
        let step = gesture_step(before.0, inputs.last());
        (step.0, before.1 + step.1)
    }
}

/// Follows what the protocol hears, given which of a pinch and a swipe are under
/// way: nothing begins twice, and nothing moves or ends that has not begun. The
/// result is none where that is broken.
pub open spec fn heard(pinch: bool, swipe: bool, events: Seq<GestureEvent>) -> Option<(bool, bool)>
    decreases events.len(),
{
    if events.len() == 0 {
        Some((pinch, swipe))
    } else {
        match heard(pinch, swipe, events.drop_last()) {
            None => None,
            Some(open) => match events.last() {
                GestureEvent::PinchBegin => if open.0 {
                    None
                } else {
                    Some((true, open.1))
                },
                GestureEvent::PinchUpdate => if open.0 {
                    Some(open)
                } else {
                    None
                },
                GestureEvent::PinchEnd { cancelled } => if open.0 {
                    Some((false, open.1))
                } else {
                    None
                },
                GestureEvent::SwipeBegin => if open.1 {
                    None
                } else {
                    Some((open.0, true))
                },
                GestureEvent::SwipeUpdate => if open.1 {
                    Some(open)
                } else {
                    None
                },
                GestureEvent::SwipeEnd { cancelled } => if open.1 {
                    Some((open.0, false))
                } else {
                    None
                },
            },
        }
    }
}

proof fn lemma_heard_joined(pinch: bool, swipe: bool, a: Seq<GestureEvent>, b: Seq<GestureEvent>)
    ensures
        heard(pinch, swipe, a + b) == (match heard(pinch, swipe, a) {
            None => None,
            Some(open) => heard(open.0, open.1, b),
        }),
    decreases b.len(),
{
    if b.len() == 0 {
        assert(a + b == a);
    } else {
        assert((a + b).drop_last() == a + b.drop_last());
        lemma_heard_joined(pinch, swipe, a, b.drop_last());
    }
}

/// What the protocol hears of one call fits what it heard before.
pub proof fn lemma_step_is_heard(tracker: PointerGestureTracker, input: GestureInput)
    requires
        tracker.well_formed(),
    ensures
        gesture_step(tracker, input).0.well_formed(),
        heard(tracker.protocol_active, tracker.swipe_active, gesture_step(tracker, input).1) == Some(
            (
                gesture_step(tracker, input).0.protocol_active,
                gesture_step(tracker, input).0.swipe_active,
            ),
        ),
{
    let events = gesture_step(tracker, input).1;
    if events.len() == 1 {
        assert(events.drop_last() == Seq::<GestureEvent>::empty());
        reveal_with_fuel(heard, 2);
    } else if events.len() == 2 {
        assert(events.drop_last().drop_last() == Seq::<GestureEvent>::empty());
        assert(events.drop_last().last() == events[0]);
        reveal_with_fuel(heard, 3);
    }
}

/// Whatever comes in, the protocol hears gestures that begin once, move only
/// between their beginning and their end, and end once; and the gestures that
/// are under way are those that have begun and not ended.
pub proof fn law_gestures_are_balanced(tracker: PointerGestureTracker, inputs: Seq<GestureInput>)
    requires
        tracker.well_formed(),
    ensures
        gesture_run(tracker, inputs).0.well_formed(),
        heard(tracker.protocol_active, tracker.swipe_active, gesture_run(tracker, inputs).1)
            == Some(
            (
                gesture_run(tracker, inputs).0.protocol_active,
                gesture_run(tracker, inputs).0.swipe_active,
            ),
        ),
    decreases inputs.len(),
{
    if inputs.len() > 0 {
        law_gestures_are_balanced(tracker, inputs.drop_last());
        let before = gesture_run(tracker, inputs.drop_last());
        lemma_step_is_heard(before.0, inputs.last());
        lemma_heard_joined(
            tracker.protocol_active,
            tracker.swipe_active,
            before.1,
            gesture_step(before.0, inputs.last()).1,
        );
    }
}

} // verus!
