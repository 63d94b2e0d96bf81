//! What calls of the library's functions give, and how two calls in a row
//! relate.
use vstd::prelude::*;

use crate::clipboard::{
    ClipboardPayload, ClipboardState, HostPasteboardSnapshot, HostUpdate, InstallStep, PayloadWrite,
    WriteStep, is_image_kind, is_text_kind, payload_step,
};
use crate::container_sessions::ContainerSession;
use crate::dialogs::{SessionForm, session_from_form};
use crate::form_laws::law_form_fields_are_kept;
use crate::gesture_laws::law_movement_is_heard;
use crate::input::{GestureEvent, PinchPart, PointerGestureTracker, TouchPhase};
use crate::relay::{
    RELAY_FRAME_CLOSE, RELAY_FRAME_DATA, RELAY_FRAME_OPEN, RelayAction, RelayStreams, StreamRead,
    StreamStep, stream_step,
};
use crate::relay_launch::PublishRelayError;
use crate::relay_run::{AfterPublish, after_publish};
use crate::runtimes::Throttle;
use crate::scene::{Popup, Scene, SceneMessage, SurfaceId};
use crate::storage::{ImageRow, parse_apple_container_image_line};
use crate::storage_laws::law_row_names_its_tag;
use crate::text::{lowered, trimmed, words_of};

verus! {

// ---------------------------------------------------------------------------
// Profiles and images
// ---------------------------------------------------------------------------
/// A profile that a form gives runs the command that was typed into the form, in
/// the image that was typed into it, with the name that was typed; an empty
/// field gives no command.
pub proof fn law_profile_holds_what_was_typed(
    form: SessionForm,
    original: Option<&ContainerSession>,
    profile: ContainerSession,
)
    requires
        call_ensures(session_from_form, (&form, original), Ok(profile)),
    ensures
        trimmed(form.command@).len() > 0 ==> profile.command is Some && profile.command->0@
            == trimmed(form.command@),
        trimmed(form.command@).len() == 0 ==> profile.command is None,
        trimmed(form.name@).len() > 0 ==> profile.name@ == trimmed(form.name@),
        profile.image@ == trimmed(form.image@),
        trimmed(form.runtime@).len() > 0 ==> profile.runtime@ == trimmed(form.runtime@),
        profile.audio <==> form.audio == 1,
{
    law_form_fields_are_kept(
        form,
        match original {
            Some(original) => Some(original.deep_view()),
            None => None,
        },
    );
}

/// A row that is read from a line is of the image with the line's name and tag.
pub proof fn law_read_row_names_its_tag(line: &str, row: Option<ImageRow>)
    requires
        call_ensures(parse_apple_container_image_line, (line,), row),
        words_of(line@).len() >= 2,
        lowered(words_of(line@)[0]) != lowered("name"@),
        words_of(line@)[1] != "<none>"@,
    ensures
        row is Some,
        row->0.reference is Some,
        row->0.reference->0@ == words_of(line@)[0] + ":"@ + words_of(line@)[1],
{
    law_row_names_its_tag(line@);
}

// ---------------------------------------------------------------------------
// Gestures
// ---------------------------------------------------------------------------
/// A pinch or a turn that moves by a number is heard at the end of what is
/// reported, whatever went before.
pub proof fn law_moves_are_reported()
    ensures
        forall|tracker: &mut PointerGestureTracker, events: Vec<GestureEvent>| #[trigger]
            call_ensures(
                PointerGestureTracker::handle_pinch_gesture,
                (tracker, TouchPhase::Moved, true),
                events,
            ) ==> events@.len() > 0 && events@.last() == GestureEvent::PinchUpdate,
        forall|tracker: &mut PointerGestureTracker, events: Vec<GestureEvent>| #[trigger]
            call_ensures(
                PointerGestureTracker::handle_rotation_gesture,
                (tracker, TouchPhase::Moved, true),
                events,
            ) ==> events@.len() > 0 && events@.last() == GestureEvent::PinchUpdate,
{
    assert forall|tracker: &mut PointerGestureTracker, events: Vec<GestureEvent>| #[trigger]
        call_ensures(
            PointerGestureTracker::handle_pinch_gesture,
            (tracker, TouchPhase::Moved, true),
            events,
        ) implies events@.len() > 0 && events@.last() == GestureEvent::PinchUpdate by {
        law_movement_is_heard(*tracker, PinchPart::Magnify, true);
    }
    assert forall|tracker: &mut PointerGestureTracker, events: Vec<GestureEvent>| #[trigger]
        call_ensures(
            PointerGestureTracker::handle_rotation_gesture,
            (tracker, TouchPhase::Moved, true),
            events,
        ) implies events@.len() > 0 && events@.last() == GestureEvent::PinchUpdate by {
        law_movement_is_heard(*tracker, PinchPart::Rotate, true);
    }
}

// ---------------------------------------------------------------------------
// The clipboard
// ---------------------------------------------------------------------------
/// A text that a guest copied is installed wherever the host holds anything but
/// that text alone, and an image wherever it holds anything but that image
/// alone, as long as nothing newer has come in between.
pub proof fn law_copied_contents_are_installed(
    state: ClipboardState,
    count: isize,
    payload: ClipboardPayload,
    step: InstallStep,
)
    requires
        call_ensures(
            ClipboardState::install_guest_clipboard,
            (&state, state.generation, count, count, &payload),
            step,
        ),
    ensures
        payload matches ClipboardPayload::Text(text) ==> (step is Install <==> !(state.host_text
            is Some && state.host_text->0@ == text@ && state.host_image is None)),
        payload matches ClipboardPayload::Image(image) ==> (step is Install <==> !(state.host_image
            is Some && state.host_image->0@ == image@ && state.host_text is None)),
{
}

/// What was copied on the host is what a guest gets that asks for it next, and
/// a guest gets nothing of a kind that was not copied.
pub proof fn law_host_contents_reach_the_guest(
    snapshot: HostPasteboardSnapshot,
    kind: &str,
    sent: Option<Option<ClipboardPayload>>,
    after: ClipboardState,
)
    requires
        call_ensures(ClipboardState::send_selection, (&after, true, kind), sent),
        exists|state: &mut ClipboardState, update: HostUpdate|
            *final(state) == after && #[trigger] call_ensures(
                ClipboardState::on_host_change,
                (state, snapshot),
                update,
            ),
    ensures
        is_image_kind(kind@) ==> sent is Some && (sent->0 is Some <==> snapshot.image_png is Some),
        is_image_kind(kind@) && snapshot.image_png is Some ==> (sent->0->0 matches
            ClipboardPayload::Image(image) && image@ == snapshot.image_png->0@),
        is_text_kind(kind@) && !is_image_kind(kind@) ==> sent is Some && (sent->0 is Some
            <==> snapshot.text is Some),
        is_text_kind(kind@) && !is_image_kind(kind@) && snapshot.text is Some ==> (sent->0->0 matches
            ClipboardPayload::Text(text) && text@ == snapshot.text->0@),
        !is_text_kind(kind@) && !is_image_kind(kind@) ==> sent is None,
{
}

/// A selection that a guest makes outdates the transfer of the one before: its
/// contents are no longer installed.
pub proof fn law_newer_selection_outdates(
    before: ClipboardState,
    after: ClipboardState,
    offered: Option<&Vec<String>>,
    asked_at: isize,
    now: isize,
    payload: ClipboardPayload,
    step: InstallStep,
)
    requires
        exists|state: &mut ClipboardState, kind: Option<String>|
            *state == before && *final(state) == after && #[trigger] call_ensures(
                ClipboardState::new_selection,
                (state, true, offered),
                kind,
            ),
        call_ensures(
            ClipboardState::install_guest_clipboard,
            (&after, before.generation, asked_at, now, &payload),
            step,
        ),
    ensures
        !(step is Install),
{
}

/// A kind that a guest offers is asked for once: a second look finds nothing.
pub proof fn law_pending_kind_is_taken_once()
    ensures
        forall|state: &mut ClipboardState, kind: Option<String>| #[trigger]
            call_ensures(ClipboardState::take_pending, (state,), kind) ==> kind
                == (*state).pending_guest_mime && (*final(state)).pending_guest_mime is None,
{
}

/// Two writes of some bytes each leave off where one write of all of them does,
/// and a write that was interrupted is made again from where it stood.
pub proof fn law_writes_add_up(
    sent: usize,
    total: usize,
    a: usize,
    b: usize,
    first: WriteStep,
    second: WriteStep,
    both: WriteStep,
)
    requires
        0 < a,
        0 < b,
        sent + a + b <= total,
        call_ensures(payload_step, (sent, total, PayloadWrite::Bytes(a)), first),
        call_ensures(
            payload_step,
            ((sent + a) as usize, total, PayloadWrite::Bytes(b)),
            second,
        ),
        call_ensures(payload_step, (sent, total, PayloadWrite::Bytes((a + b) as usize)), both),
    ensures
        first == WriteStep::Write((sent + a) as usize),
        second == both,
        both == WriteStep::Write((sent + a + b) as usize),
{
}

/// Where a pipe is full or a write was interrupted, no byte is passed over.
pub proof fn law_nothing_is_passed_over(
    sent: usize,
    total: usize,
    interrupted: WriteStep,
    full: WriteStep,
)
    requires
        sent < total,
        call_ensures(payload_step, (sent, total, PayloadWrite::Interrupted), interrupted),
        call_ensures(payload_step, (sent, total, PayloadWrite::WouldBlock), full),
    ensures
        interrupted == WriteStep::Write(sent),
        full == WriteStep::Wait(sent),
{
}

// ---------------------------------------------------------------------------
// The relay
// ---------------------------------------------------------------------------
/// A stream that has been connected is forwarded to until it is closed, and from
/// then on what comes for it is skipped.
pub proof fn law_stream_lives_until_closed(id: u32)
    ensures
        forall|streams: &mut RelayStreams, action: Result<RelayAction, String>| #[trigger]
            call_ensures(RelayStreams::on_frame, (streams, RELAY_FRAME_DATA, id), action) ==> {
                &&& (*streams).connected().contains(id) ==> action == Ok::<RelayAction, String>(
                    RelayAction::Forward(id),
                )
                &&& !(*streams).connected().contains(id) ==> action == Ok::<RelayAction, String>(
                    RelayAction::Skip,
                )
                &&& (*final(streams)).connected() == (*streams).connected()
            },
        forall|streams: &mut RelayStreams, action: Result<RelayAction, String>| #[trigger]
            call_ensures(RelayStreams::on_frame, (streams, RELAY_FRAME_CLOSE, id), action) ==> {
                &&& (*streams).connected().contains(id) ==> action == Ok::<RelayAction, String>(
                    RelayAction::Shutdown(id),
                )
                &&& !(*final(streams)).connected().contains(id)
                &&& forall|other: u32|
                    other != id ==> ((*final(streams)).connected().contains(other) <==> (
                    *streams).connected().contains(other))
            },
        forall|streams: &mut RelayStreams, action: Result<RelayAction, String>| #[trigger]
            call_ensures(RelayStreams::on_frame, (streams, RELAY_FRAME_OPEN, id), action) ==> action
                == Ok::<RelayAction, String>(RelayAction::Connect(id)),
        forall|streams: &mut RelayStreams| #[trigger]
            call_ensures(RelayStreams::on_connected, (streams, id), ()) ==> {
                &&& (*final(streams)).connected().contains(id)
                &&& forall|other: u32|
                    other != id ==> ((*final(streams)).connected().contains(other) <==> (
                    *streams).connected().contains(other))
            },
        forall|streams: &mut RelayStreams| #[trigger]
            call_ensures(RelayStreams::on_write_failed, (streams, id), ()) ==> {
                &&& !(*final(streams)).connected().contains(id)
                &&& forall|other: u32|
                    other != id ==> ((*final(streams)).connected().contains(other) <==> (
                    *streams).connected().contains(other))
            },
        forall|streams: &mut RelayStreams| #[trigger]
            call_ensures(RelayStreams::on_end, (streams,), ()) ==> !(
            *final(streams)).connected().contains(id),
{
}

/// Bytes that were read are sent on, and the end of a stream closes it as a
/// failure does; only an interruption is tried again.
pub proof fn law_stream_is_sent_on(read: StreamRead, step: StreamStep)
    requires
        call_ensures(stream_step, (read,), step),
    ensures
        step is Send <==> (read matches StreamRead::Bytes(count) && count > 0),
        step is Retry <==> read is Interrupted,
        step is Close <==> (read is Failed || read == StreamRead::Bytes(0)),
{
}

/// Another way of relaying is tried just where the first did not start.
pub proof fn law_only_unstarted_is_retried(
    outcome: Result<(), PublishRelayError>,
    next: AfterPublish,
)
    requires
        call_ensures(after_publish, (outcome,), next),
    ensures
        next is Retry <==> (outcome matches Err(error) && error is Startup),
        next is Over ==> (next->Over_0 is Ok <==> outcome is Ok),
{
}

// ---------------------------------------------------------------------------
// Windows
// ---------------------------------------------------------------------------
/// A window that has come is there, once, and is to be drawn; one that is gone
/// is not, and no popup, place or drag of it is left. The other windows stay.
pub proof fn law_windows_come_and_go(surface: SurfaceId)
    ensures
        forall|scene: &mut Scene, told: Vec<SceneMessage>| #[trigger]
            call_ensures(Scene::new_toplevel, (scene, surface), told) ==> {
                &&& (*final(scene)).toplevels@.contains(surface)
                &&& (*scene).toplevels@.contains(surface) ==> (*final(scene)).toplevels@
                    == (*scene).toplevels@
                &&& !(*scene).toplevels@.contains(surface) ==> (*final(scene)).toplevels@
                    == (*scene).toplevels@.push(surface) && (*final(scene)).needs_redraw
                    && told@.contains(SceneMessage::EnterOutput(surface))
                &&& (*scene).toplevels@.contains(surface) ==> told@.len() == 0
            },
        forall|scene: &mut Scene, told: Vec<SceneMessage>| #[trigger]
            call_ensures(Scene::destroyed, (scene, surface), told) ==> {
                &&& !(*final(scene)).toplevels@.contains(surface)
                &&& (*final(scene)).drag != Some(surface)
                &&& (*final(scene)).start_drag_request != Some(surface)
                &&& forall|other: SurfaceId|
                    other != surface ==> ((*final(scene)).toplevels@.contains(other) <==> (
                    *scene).toplevels@.contains(other))
            },
{
    assert forall|scene: &mut Scene, told: Vec<SceneMessage>| #[trigger]
        call_ensures(Scene::new_toplevel, (scene, surface), told) && !(
        *scene).toplevels@.contains(surface) implies (*final(scene)).toplevels@
        == (*scene).toplevels@.push(surface) && (*final(scene)).toplevels@.contains(surface)
        && told@.contains(SceneMessage::EnterOutput(surface)) by {
        let before = (*scene).toplevels@;
        assert(before.push(surface)[before.len() as int] == surface);
        assert(told@[0] == SceneMessage::EnterOutput(surface));
    }
    assert forall|scene: &mut Scene, told: Vec<SceneMessage>| #[trigger]
        call_ensures(Scene::destroyed, (scene, surface), told) implies {
        &&& !(*final(scene)).toplevels@.contains(surface)
        &&& forall|other: SurfaceId|
            other != surface ==> ((*final(scene)).toplevels@.contains(other) <==> (
            *scene).toplevels@.contains(other))
    } by {
        let before = (*scene).toplevels@;
        let keep = crate::scene::other_than(surface);
        let after = before.filter(keep);
        if after.contains(surface) {
            let i = after.index_of(surface);
            before.lemma_filter_pred(keep, i);
        }
        assert forall|other: SurfaceId| other != surface implies (after.contains(other)
            <==> before.contains(other)) by {
            if after.contains(other) {
                before.lemma_filter_contains_rev(keep, other);
            }
            if before.contains(other) {
                before.lemma_filter_contains(keep, before.index_of(other));
            }
        }
    }
}

/// Every request that comes with new contents waits behind those that were
/// there, none is lost, and the window that shows them is to be drawn.
pub proof fn law_requests_wait_their_turn(root: Option<SurfaceId>, requests: Vec<(SurfaceId, u64)>)
    ensures
        forall|scene: &mut Scene| #[trigger]
            call_ensures(Scene::commit, (scene, root, requests), ()) ==> {
                let before = (*scene).pending_frame_callbacks@;
                let after = (*final(scene)).pending_frame_callbacks@;
                &&& after.len() == before.len() + requests@.len()
                &&& after.take(before.len() as int) == before
                &&& forall|i: int|
                    0 <= i < requests@.len() ==> (#[trigger] after[before.len() + i]).callback
                        == requests@[i].1 && after[before.len() + i].source_surface
                        == requests@[i].0 && after[before.len() + i].root_surface == root
                &&& root is Some ==> (*final(scene)).needs_redraw
            },
{
    assert forall|scene: &mut Scene| #[trigger]
        call_ensures(Scene::commit, (scene, root, requests), ()) implies (
    *final(scene)).pending_frame_callbacks@.take((*scene).pending_frame_callbacks@.len() as int)
        == (*scene).pending_frame_callbacks@ by {}
}

/// A popup that was told its place is kept last; one that could not be told is
/// not kept.
pub proof fn law_told_popups_are_kept(popup: Popup)
    ensures
        forall|scene: &mut Scene| #[trigger]
            call_ensures(Scene::new_popup, (scene, popup, true), ()) ==> (
            *final(scene)).popups@.len() == (*scene).popups@.len() + 1 && (
            *final(scene)).popups@.last() == popup && (*final(scene)).needs_redraw,
        forall|scene: &mut Scene| #[trigger]
            call_ensures(Scene::new_popup, (scene, popup, false), ()) ==> (*final(scene)).popups@
                == (*scene).popups@,
{
}

// ---------------------------------------------------------------------------
// Drawing again
// ---------------------------------------------------------------------------
/// What has been due is not due again before the interval has passed, and is
/// due from then on.
pub proof fn law_due_once_an_interval(now: u64, later: u64, interval: u64)
    requires
        now <= later,
    ensures
        forall|throttle: &mut Throttle, due: bool| #[trigger]
            call_ensures(Throttle::due, (throttle, now, interval), due) && due ==> (
            *final(throttle)).last == Some(now),
        forall|throttle: &mut Throttle, due: bool| #[trigger]
            call_ensures(Throttle::due, (throttle, now, interval), due) && !due ==> (
            *final(throttle)).last == (*throttle).last,
        forall|throttle: &mut Throttle, due: bool| #[trigger]
            call_ensures(Throttle::due, (throttle, later, interval), due) && (*throttle).last
                == Some(now) ==> (due <==> later - now >= interval),
        forall|throttle: &mut Throttle, due: bool| #[trigger]
            call_ensures(Throttle::due, (throttle, later, interval), due) && (*throttle).last
                is None ==> due,
{
}

} // verus!
