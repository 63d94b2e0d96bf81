//! What messages tell, and what small choices come to.
use vstd::prelude::*;

use crate::actions::{instance_summary, pending_report};
use crate::activity::{after_final, cleaned, plain};
use crate::application_model::{instance_active, InstanceStatus};
use crate::clipboard::{image_bytes, signed_text, text_bytes};
use crate::container_mode::{name_at, system_key, ActiveView};
use crate::container_sessions::{runtime_of, ContainerRuntime, SessionView};
use crate::dialogs::{connection_of, filled};
use crate::inventory::{parsed_machines, says_running};
use crate::json::parsed_array;
use crate::profiles::{elapsed, runtime_key, takes_value};
use crate::records::changes_runtime;
use crate::relay::too_large_message;
use crate::relay_launch::{aux_host_socket, UNIX_SOCKET_PATH_BYTES};
use crate::runtime_paths::parent_of;
use crate::runtimes::orbstack_status;
use crate::scene::{other_popup, other_position, window_in, Scene, SceneMessage, SurfaceId};
use crate::session_launch::{first_line, progress_of, says_not_found, CommandOutput, LaunchStateView};
use crate::storage::parsed_mounts;
use crate::text::{
    decimal, joined, lemma_occurs, lines_of, lossy_text, lower_case, occurs, trimmed, without_empty,
    words_of,
};
use crate::text_laws::lemma_without_empty_joined;

verus! {

// ---------------------------------------------------------------------------
// Replies
// ---------------------------------------------------------------------------
/// A list that cannot be read is told of with the reason why not.
pub proof fn law_unreadable_list_tells_why(text: Seq<char>, volume: Seq<char>, reason: Seq<char>)
    requires
        parsed_array(text) == Err::<Seq<crate::json::JsonView>, Seq<char>>(reason),
    ensures
        parsed_mounts(text, volume) matches Err(message) && reason.is_suffix_of(message),
        parsed_machines(text) matches Err(message) && reason.is_suffix_of(message),
{
    let a = parsed_mounts(text, volume)->Err_0;
    let b = parsed_machines(text)->Err_0;
    assert(a.subrange(a.len() - reason.len(), a.len() as int) == reason);
    assert(b.subrange(b.len() - reason.len(), b.len() as int) == reason);
}

/// What OrbStack says of itself is shown where it does not run, and an error is
/// shown in its own words.
pub proof fn law_orbstack_is_quoted(reply: Result<CommandOutput, String>)
    ensures
        reply matches Ok(output) ==> output.success && !says_running(
            trimmed(lossy_text(output.stdout@)),
        ) ==> occurs(orbstack_status(reply).1, trimmed(lossy_text(output.stdout@))),
        reply matches Err(error) ==> orbstack_status(reply).0 is Failed
            ==> orbstack_status(reply).1 == error@,
{
    if reply is Ok {
        lemma_occurs("OrbStack is "@, trimmed(lossy_text(reply->Ok_0.stdout@)), "."@);
    }
}

/// Of some lines, the first is shown that is not blank, without the spaces
/// around it.
pub proof fn law_first_filled_line_is_shown(text: Seq<char>, i: int)
    requires
        0 <= i < lines_of(text).len(),
        trimmed(lines_of(text)[i]).len() > 0,
        forall|j: int| 0 <= j < i ==> trimmed(#[trigger] lines_of(text)[j]).len() == 0,
    ensures
        first_line(text) == Some(trimmed(lines_of(text)[i])),
{
    let all = lines_of(text).map_values(|line: Seq<char>| trimmed(line));
    let blank = all.take(i);
    let rest = all.skip(i + 1);
    let line = seq![all[i]];
    assert(all == blank + (line + rest));
    lemma_without_empty_joined(blank, line + rest);
    lemma_without_empty_joined(line, rest);
    lemma_all_empty(blank);
    assert(line.drop_last().len() == 0);
    reveal_with_fuel(without_empty, 2);
    assert(without_empty(line) == line);
    assert(without_empty(all)[0] == all[i]);
}

proof fn lemma_all_empty(parts: Seq<Seq<char>>)
    requires
        forall|j: int| 0 <= j < parts.len() ==> (#[trigger] parts[j]).len() == 0,
    ensures
        without_empty(parts).len() == 0,
    decreases parts.len(),
{
    if parts.len() > 0 {
        lemma_all_empty(parts.drop_last());
        assert(parts[parts.len() - 1].len() == 0);
    }
}

/// A reply that says that something was not found, or that there is no such
/// container, is understood as that, in letters of either case; another is not.
pub proof fn law_missing_is_understood(text: Seq<char>, before: Seq<char>, after: Seq<char>)
    ensures
        lower_case(text) == before + "not found"@ + after ==> says_not_found(text),
        lower_case(text) == before + "no such container"@ + after ==> says_not_found(text),
        !occurs(lower_case(text), "not found"@) && !occurs(
            lower_case(text),
            "no such container"@,
        ) ==> !says_not_found(text),
{
    lemma_occurs(before, "not found"@, after);
    lemma_occurs(before, "no such container"@, after);
}

/// A frame that is too large is told of with its length.
pub proof fn law_large_frame_tells_its_length(length: nat)
    ensures
        occurs(too_large_message(length as int), decimal(length)),
{
    lemma_occurs("container relay frame is too large: "@, decimal(length), " bytes"@);
}

/// A socket beside another is refused where the other is in no directory, or
/// where its own path is too long; the path is told.
pub proof fn law_refused_socket_is_named(socket: Seq<char>, kind: Seq<char>)
    ensures
        parent_of(socket) is None ==> (aux_host_socket(socket, kind) matches Err(message) && occurs(
            message,
            "`"@ + socket + "`"@,
        )),
        aux_host_socket(socket, kind) matches Ok(beside) ==> vstd::utf8::encode_utf8(beside).len()
            < UNIX_SOCKET_PATH_BYTES && parent_of(socket) is Some,
{
    if parent_of(socket) is None {
        reveal_strlit("session socket `");
        reveal_strlit("`");
        reveal_strlit("` has no parent directory");
        let message = aux_host_socket(socket, kind)->Err_0;
        let name = "`"@ + socket + "`"@;
        assert(message == message.take(15) + name + message.skip(15int + name.len()));
        lemma_occurs(message.take(15), name, message.skip(15int + name.len()));
    }
}

// ---------------------------------------------------------------------------
// Instances and displays
// ---------------------------------------------------------------------------
/// The summary of an instance tells its number, its display and its processes.
pub proof fn law_instance_is_summed_up(active: ActiveView)
    ensures
        occurs(instance_summary(Some(active)), "instance="@ + decimal(active.id as nat)),
        occurs(instance_summary(Some(active)), active.display_slot),
        occurs(instance_summary(Some(active)), decimal(active.waypipe_pid as nat)),
        active.container_pid matches Some(pid) ==> decimal(pid as nat).is_suffix_of(
            instance_summary(Some(active)),
        ),
{
    let text = instance_summary(Some(active));
    let number = "instance="@ + decimal(active.id as nat);
    let none = Seq::<char>::empty();
    let a: int = number.len() as int;
    assert(text == none + number + text.skip(a));
    lemma_occurs(none, number, text.skip(a));
    let slot = active.display_slot;
    let b: int = a + " display="@.len();
    assert(text == text.take(b) + slot + text.skip(b + slot.len()));
    lemma_occurs(text.take(b), slot, text.skip(b + slot.len()));
    let process = decimal(active.waypipe_pid as nat);
    let c: int = b + slot.len() + " waypipe_pid="@.len();
    assert(text == text.take(c) + process + text.skip(c + process.len()));
    lemma_occurs(text.take(c), process, text.skip(c + process.len()));
    if active.container_pid is Some {
        let pid = decimal(active.container_pid->0 as nat);
        assert(text.subrange(text.len() - pid.len(), text.len() as int) == pid);
    }
}

/// A display that is on its way is reported so, with nothing attached to it.
pub proof fn law_pending_display_is_reported(slot: Seq<char>)
    ensures
        pending_report(slot).slot == slot,
        pending_report(slot).status is Allocating,
        pending_report(slot).attachments == 0,
        pending_report(slot).pid is None,
        pending_report(slot).display is None,
{
}

/// An instance is at work until it has exited or failed.
pub proof fn law_instance_is_active_until_over(status: InstanceStatus)
    ensures
        instance_active(status) <==> !(status is Exited || status is Failed),
{
}

/// The steps of a launch are told in words that suit the runtime.
pub proof fn law_progress_suits_the_runtime(session: SessionView, other: SessionView, state: LaunchStateView)
    requires
        state is AskWaypipe || state is Done,
        runtime_of(session.runtime) == ContainerRuntime::Apple,
        runtime_of(other.runtime) != ContainerRuntime::Apple,
    ensures
        (progress_of(session, state)->0).1 != (progress_of(other, state)->0).1,
        (progress_of(session, state)->0).0 == (progress_of(other, state)->0).0,
        state is Done ==> occurs((progress_of(session, state)->0).1, "Apple Container"@),
{
    reveal_strlit("Starting the native socket transport and Waypipe client");
    reveal_strlit("Starting the Waypipe client for the selected display");
    reveal_strlit("The application command was handed to Apple Container");
    reveal_strlit("The application command was started inside the container");
    reveal_strlit("Apple Container");
    if state is AskWaypipe {
        assert((progress_of(session, state)->0).1[13] == 'n');
        assert((progress_of(other, state)->0).1[13] == 'W');
    } else {
        let text = (progress_of(session, state)->0).1;
        assert(text[28] == 'h');
        assert((progress_of(other, state)->0).1[28] == 's');
        assert(text.subrange(38, 38int + "Apple Container"@.len()) == "Apple Container"@);
    }
}

// ---------------------------------------------------------------------------
// Small choices
// ---------------------------------------------------------------------------
/// A registry is reached over the scheme that was picked, or over whichever it
/// has where none was.
pub proof fn law_scheme_is_the_one_picked(choice: isize)
    ensures
        connection_of(choice) == Some("https"@) <==> choice == 1,
        connection_of(choice) == Some("http"@) <==> choice == 2,
        connection_of(choice) is None <==> choice != 1 && choice != 2,
{
    reveal_strlit("https");
    reveal_strlit("http");
    assert("https"@.len() != "http"@.len());
}

/// A field that was filled in is taken, and one that was not stands for
/// something else.
pub proof fn law_filled_field_is_taken(value: Seq<char>, other: Seq<char>)
    ensures
        value.len() > 0 ==> filled(value, other) == value,
        value.len() == 0 ==> filled(value, other) == other,
{
}

/// An application is called by the name of its profile, if it has one.
pub proof fn law_application_has_its_name(
    sessions: Seq<SessionView>,
    index: usize,
    other: Seq<char>,
)
    ensures
        index < sessions.len() ==> name_at(sessions, index, other) == sessions[index as int].name,
        index >= sessions.len() ==> name_at(sessions, index, other) == other,
{
}

/// What is done with one runtime is told apart from what is done with another.
pub proof fn law_runtimes_are_told_apart(a: Seq<char>, b: Seq<char>)
    ensures
        system_key(a) == system_key(b) <==> runtime_key(a) == runtime_key(b),
{
    let n = "runtime-"@.len() as int;
    assert(system_key(a).skip(n) == runtime_key(a));
    assert(system_key(b).skip(n) == runtime_key(b));
}

/// The time that has passed and the time before it make the time now; a time
/// that is still to come has not passed at all.
pub proof fn law_time_passes(now: u128, before: u128)
    ensures
        before <= now ==> before + elapsed(now, before) == now,
        before > now ==> elapsed(now, before) == 0,
{
}

/// A runtime changes when it is started and when it is stopped.
pub proof fn law_start_and_stop_change_a_runtime(action: Seq<char>)
    ensures
        changes_runtime("start"@),
        changes_runtime("stop"@),
        action != "start"@ && action != "stop"@ ==> !changes_runtime(action),
{
}

/// A flag is followed by its value, unless it holds it itself or another flag
/// comes next.
pub proof fn law_flag_takes_what_follows(
    flag: Seq<char>,
    value: Seq<char>,
    rest: Seq<Seq<char>>,
)
    requires
        "--"@.is_prefix_of(flag),
    ensures
        takes_value(seq![flag, value] + rest) <==> !flag.contains('=') && !"--"@.is_prefix_of(
            value,
        ),
        !takes_value(seq![flag]),
{
    let all = seq![flag, value] + rest;
    assert(all[0] == flag && all[1] == value);
}

/// What is not copied has no bytes, and an image as many as it holds.
pub proof fn law_bytes_are_counted(text: Seq<char>, image: Seq<u8>)
    ensures
        image_bytes(Some(image)) == image.len(),
        image_bytes(None) == 0,
        text_bytes(None) == 0,
        text_bytes(Some(text)) == vstd::utf8::encode_utf8(text).len(),
{
}

// ---------------------------------------------------------------------------
// Lines of a log
// ---------------------------------------------------------------------------
/// A control sequence is dropped from a line, up to the character that ends it.
pub proof fn law_control_sequence_is_dropped(codes: Seq<char>, end: char, rest: Seq<char>)
    requires
        '@' <= end <= '~',
        forall|i: int| 0 <= i < codes.len() ==> !('@' <= #[trigger] codes[i] <= '~'),
    ensures
        plain(seq!['\u{1b}', '['] + codes + seq![end] + rest) == plain(rest),
{
    let text = seq!['\u{1b}', '['] + codes + seq![end] + rest;
    let behind = codes + seq![end] + rest;
    assert(text.drop_first().drop_first() == behind);
    lemma_after_codes(codes, end, rest);
}

proof fn lemma_after_codes(codes: Seq<char>, end: char, rest: Seq<char>)
    requires
        '@' <= end <= '~',
        forall|i: int| 0 <= i < codes.len() ==> !('@' <= #[trigger] codes[i] <= '~'),
    ensures
        after_final(codes + seq![end] + rest) == rest,
    decreases codes.len(),
{
    let text = codes + seq![end] + rest;
    if codes.len() == 0 {
        assert(text.drop_first() == rest);
    } else {
        assert(text.first() == codes[0]);
        let fewer = codes.drop_first();
        assert forall|i: int| 0 <= i < fewer.len() implies !('@' <= #[trigger] fewer[i] <= '~') by {
            assert(fewer[i] == codes[i + 1]);
        }
        lemma_after_codes(fewer, end, rest);
        assert(text.drop_first() == fewer + seq![end] + rest);
    }
}

/// A line that is not of the one harmless warning is kept word for word.
pub proof fn law_other_lines_are_kept(line: Seq<char>)
    ensures
        !occurs(joined(words_of(plain(line)), " "@), "locale1 watcher"@) || !occurs(
            joined(words_of(plain(line)), " "@),
            "niri::dbus"@,
        ) || !occurs(joined(words_of(plain(line)), " "@), "No such file or directory"@) ==> cleaned(
            line,
        ) == joined(words_of(plain(line)), " "@),
{
}

/// A number below nothing is written as the number above it, with a sign.
pub proof fn law_sign_is_written(value: int)
    ensures
        value < 0 ==> signed_text(value) == "-"@ + signed_text(-value),
        value >= 0 ==> signed_text(value) == decimal(value as nat),
{
}

// ---------------------------------------------------------------------------
// Surfaces
// ---------------------------------------------------------------------------
/// A surface is in the window that is first told of it, and in none where none
/// is told of it.
pub proof fn law_first_window_is_found(
    before: Seq<(SurfaceId, SurfaceId)>,
    surface: SurfaceId,
    window: SurfaceId,
    after: Seq<(SurfaceId, SurfaceId)>,
)
    requires
        forall|i: int| 0 <= i < before.len() ==> (#[trigger] before[i]).0 != surface,
    ensures
        window_in(before, surface) is None,
        window_in(before + seq![(surface, window)] + after, surface) == Some(window),
    decreases before.len(),
{
    let all = before + seq![(surface, window)] + after;
    if before.len() > 0 {
        let fewer = before.drop_first();
        assert(before[0].0 != surface);
        assert forall|i: int| 0 <= i < fewer.len() implies (#[trigger] fewer[i]).0 != surface by {
            assert(fewer[i] == before[i + 1]);
        }
        law_first_window_is_found(fewer, surface, window, after);
        assert(all.drop_first() == fewer + seq![(surface, window)] + after);
        assert(all.first() == before[0]);
    } else {
        assert(all.first() == (surface, window));
    }
}

/// Of a surface that is gone no popup and no place is left; the other popups
/// stay.
pub proof fn law_nothing_of_the_gone_is_left(surface: SurfaceId)
    ensures
        forall|scene: &mut Scene, told: Vec<SceneMessage>| #[trigger]
            call_ensures(Scene::destroyed, (scene, surface), told) ==> {
                &&& forall|i: int|
                    0 <= i < (*final(scene)).popups@.len() ==> (#[trigger] (
                    *final(scene)).popups@[i]).surface != surface
                &&& forall|i: int|
                    0 <= i < (*final(scene)).positions@.len() ==> (#[trigger] (
                    *final(scene)).positions@[i]).0 != surface
                &&& forall|i: int|
                    0 <= i < (*scene).popups@.len() && (*scene).popups@[i].surface != surface ==> (
                    *final(scene)).popups@.contains(#[trigger] (*scene).popups@[i])
            },
{
    assert forall|scene: &mut Scene, told: Vec<SceneMessage>| #[trigger]
        call_ensures(Scene::destroyed, (scene, surface), told) implies {
        &&& forall|i: int|
            0 <= i < (*final(scene)).popups@.len() ==> (#[trigger] (
            *final(scene)).popups@[i]).surface != surface
        &&& forall|i: int|
            0 <= i < (*final(scene)).positions@.len() ==> (#[trigger] (
            *final(scene)).positions@[i]).0 != surface
        &&& forall|i: int|
            0 <= i < (*scene).popups@.len() && (*scene).popups@[i].surface != surface ==> (
            *final(scene)).popups@.contains(#[trigger] (*scene).popups@[i])
    } by {
        let popups = (*scene).popups@;
        let positions = (*scene).positions@;
        let left = popups.filter(other_popup(surface));
        let places = positions.filter(other_position(surface));
        assert forall|i: int| 0 <= i < left.len() implies (#[trigger] left[i]).surface
            != surface by {
            popups.lemma_filter_pred(other_popup(surface), i);
        }
        assert forall|i: int| 0 <= i < places.len() implies (#[trigger] places[i]).0 != surface by {
            positions.lemma_filter_pred(other_position(surface), i);
        }
        assert forall|i: int| 0 <= i < popups.len() && popups[i].surface != surface implies left
            .contains(#[trigger] popups[i]) by {
            popups.lemma_filter_contains(other_popup(surface), i);
        }
    }
}

} // verus!
