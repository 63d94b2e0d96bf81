//! What the user's requests to launch, to stop and to inspect lead to.
use vstd::prelude::*;

use crate::actions::{
    attached, conflict_of, default_taken, diagnostics_text, display_reports, display_status,
    holder, instance_summary, last_selected, launch_remembered, launch_slot, launch_steps,
    lemma_holder, shown_session, stop_remembered, unchecked,
};
use crate::activity::{log_cleared, log_of};
use crate::application_model::InstanceStatus;
use crate::container_mode::{
    active_of, image_task_set, launch_key, state_changed, state_label, state_of, state_set,
    stop_key, task_started, ActiveView, EffectView, ModeView,
};
use crate::container_sessions::{command_of, slug_of, SessionView};
use crate::handlers::{deletion, press, storage_blocked, PressedView};
use crate::mode_laws::{
    law_forgotten_profile_is_unknown, law_log_is_kept_until_cleared, law_message_is_added,
    law_started_task_is_added, law_state_is_remembered, law_words_are_states,
};
use crate::page::{ActionView, Command};
use crate::profiles::{display_target, shown_runtime, NAV_RUNNING, NAV_SESSIONS};
use crate::tasks::{last_of, new_task};
use crate::text::{decimal, joined, lemma_occurs, lemma_occurs_within, occurs, trimmed};

verus! {

// ---------------------------------------------------------------------------
// Displays
// ---------------------------------------------------------------------------
/// A session goes to the display that it asks for: the default one by its name,
/// one of its own where it asks for that or where the default one is taken, and
/// else one that is named after what it asks for.
pub proof fn law_session_gets_its_display(session: SessionView, taken: bool)
    ensures
        display_target(session) == "default"@ ==> launch_slot(session, taken) == "default"@,
        display_target(session) == "auto"@ && !taken ==> launch_slot(session, taken)
            == "default"@,
        display_target(session) == "auto"@ && taken ==> launch_slot(session, taken) == "session-"@
            + slug_of(session.name, "display"@),
        display_target(session) == "dedicated"@ ==> launch_slot(session, taken) == "session-"@
            + slug_of(session.name, "display"@),
        display_target(session) != "default"@ && display_target(session) != "auto"@
            && display_target(session) != "dedicated"@ ==> launch_slot(session, taken) == slug_of(
            display_target(session),
            "display"@,
        ),
{
    reveal_strlit("default");
    reveal_strlit("auto");
    reveal_strlit("dedicated");
    assert("default"@.len() == 7 && "auto"@.len() == 4 && "dedicated"@.len() == 9);
}

/// A session that asks for no display gets whatever is free.
pub proof fn law_no_display_means_any(session: SessionView)
    ensures
        session.display is None ==> display_target(session) == "auto"@,
        session.display matches Some(display) ==> (trimmed(display).len() == 0
            ==> display_target(session) == "auto"@) && (trimmed(display).len() > 0
            ==> display_target(session) == trimmed(display)),
{
}

/// A conflict names a session that runs on the display that is wanted, and is
/// not the one that is launched.
pub proof fn law_conflict_names_the_holder(
    sessions: Seq<SessionView>,
    active: Seq<ActiveView>,
    index: usize,
)
    requires
        index < sessions.len(),
        conflict_of(sessions, active, index) is Some,
    ensures
        exists|i: int|
            0 <= i < active.len() && (#[trigger] active[i]).profile_index != index
                && active[i].display_slot == launch_slot(
                sessions[index as int],
                default_taken(active, index),
            ) && active[i].profile_index < sessions.len() && Some(
                sessions[active[i].profile_index as int].name,
            ) == conflict_of(sessions, active, index),
{
    let slot = launch_slot(sessions[index as int], default_taken(active, index));
    lemma_holder(active, index, slot);
    let other = holder(active, index, slot)->0;
    let i = choose|i: int| 0 <= i < active.len() && active[i] == other;
    assert(active[i].profile_index != index);
}

/// The sessions on a display are counted, list by list.
pub proof fn law_attached_are_counted(
    a: Seq<ActiveView>,
    b: Seq<ActiveView>,
    instance: ActiveView,
    slot: Seq<char>,
)
    ensures
        attached(a + b, slot) == attached(a, slot) + attached(b, slot),
        attached(seq![instance], slot) == (if instance.display_slot == slot {
            1nat
        } else {
            0nat
        }),
    decreases b.len(),
{
    reveal_with_fuel(attached, 2);
    assert(seq![instance].drop_last().len() == 0);
    if b.len() == 0 {
        assert(a + b == a);
    } else {
        assert((a + b).drop_last() == a + b.drop_last());
        law_attached_are_counted(a, b.drop_last(), instance, slot);
    }
}

/// A display that is being closed says so; else it is attached just while a
/// session runs on it.
pub proof fn law_display_tells_its_state(mode: ModeView, slot: Seq<char>)
    ensures
        display_status(mode, slot) is Closing <==> mode.closing_displays.contains(slot),
        display_status(mode, slot) is Attached <==> !mode.closing_displays.contains(slot)
            && attached(mode.active_sessions, slot) > 0,
        display_status(mode, slot) is Free <==> !mode.closing_displays.contains(slot) && attached(
            mode.active_sessions,
            slot,
        ) == 0,
{
}

/// Every display is reported: first those that are still being made, then the
/// others, each with what runs on it.
pub proof fn law_every_display_is_reported(mode: ModeView, i: int)
    ensures
        display_reports(mode).len() == mode.pending_displays.len() + mode.managed_displays.len(),
        0 <= i < mode.pending_displays.len() ==> display_reports(mode)[i].slot
            == mode.pending_displays[i] && display_reports(mode)[i].status is Allocating
            && display_reports(mode)[i].pid is None,
        0 <= i < mode.managed_displays.len() ==> ({
            let report = display_reports(mode)[mode.pending_displays.len() + i];
            let display = mode.managed_displays[i];
            &&& report.slot == display.slot
            &&& report.runtime_dir == Some(display.runtime_dir)
            &&& report.display == Some(display.display)
            &&& report.pid == Some(display.pid)
            &&& report.attachments == attached(mode.active_sessions, display.slot)
            &&& report.status == display_status(mode, display.slot)
        }),
{
}

// ---------------------------------------------------------------------------
// Launching and stopping
// ---------------------------------------------------------------------------
proof fn lemma_state_set(mode: ModeView, index: usize, other: usize, label: Seq<char>, detail: Seq<char>)
    requires
        index != other,
    ensures
        state_of(state_set(mode, index, label, detail).states, index) == Some(
            state_changed(state_of(mode.states, index), label, detail),
        ),
        state_of(state_set(mode, index, label, detail).states, other) == state_of(
            mode.states,
            other,
        ),
{
    law_state_is_remembered(
        mode.states,
        index,
        other,
        state_changed(state_of(mode.states, index), label, detail),
    );
}

/// A launch that is asked for shows the profile as starting, begins a task with
/// the steps of a launch, empties the profile's log, and says so; other
/// profiles are not touched. One for a profile that is not there only says so.
pub proof fn law_launch_is_begun(
    mode: ModeView,
    sessions: Seq<SessionView>,
    index: usize,
    other: usize,
    now: u128,
)
    requires
        index != other,
        mode.tasks.len() < 100,
    ensures
        index < sessions.len() ==> ({
            let after = launch_remembered(mode, sessions, index, now);
            let state = state_of(after.states, index);
            &&& state matches Some(found) && found.instance == Some(InstanceStatus::Starting)
                && occurs(found.detail, sessions[index as int].name)
            &&& state_of(after.states, other) == state_of(mode.states, other)
            &&& after.tasks.last().key == launch_key(index)
            &&& after.tasks.last().subject == sessions[index as int].name
            &&& after.tasks.last().status is Queued
            &&& after.tasks.last().steps.len() == 4
            &&& after.tasks.last().steps[0].name == "Validate profile"@
            &&& after.tasks.last().steps[1].name == "Create container"@
            &&& after.tasks.last().steps[2].name == "Start Waypipe"@
            &&& after.tasks.last().steps[3].name == "Start command"@
            &&& log_of(after.logs, index).len() == 0
            &&& log_of(after.logs, other) == log_of(mode.logs, other)
            &&& occurs(after.activity.last(), sessions[index as int].name)
            &&& after.active_sessions == mode.active_sessions
        }),
        index >= sessions.len() ==> launch_remembered(mode, sessions, index, now).states
            == mode.states && launch_remembered(mode, sessions, index, now).tasks == mode.tasks,
{
    if index < sessions.len() {
        let session = sessions[index as int];
        let cleared = ModeView { logs: log_cleared(mode.logs, index), ..mode };
        let task = new_task(
            mode.next_task,
            launch_key(index),
            "Launch application"@,
            session.name,
            launch_steps(),
            now,
        );
        law_started_task_is_added(mode.tasks, task, task);
        law_log_is_kept_until_cleared(mode.logs, index, other, ""@, ""@);
        let begun = task_started(
            cleared,
            launch_key(index),
            "Launch application"@,
            session.name,
            launch_steps(),
            now,
        );
        let rest = " through "@ + shown_runtime(session.runtime) + " with command: "@ + command_of(
            session,
        );
        let detail = "Launching "@ + session.name + " through "@ + shown_runtime(session.runtime)
            + " with command: "@ + command_of(session);
        assert(detail =~= "Launching "@ + session.name + rest);
        lemma_occurs("Launching "@, session.name, rest);
        lemma_state_set(begun, index, other, "Starting"@, detail);
        law_words_are_states("Starting"@);
        let starting = state_set(begun, index, "Starting"@, detail);
        let message = "Launch requested: "@ + session.name + " via "@ + shown_runtime(
            session.runtime,
        ) + " ("@ + command_of(session) + ")"@;
        law_message_is_added(starting, now, message);
        let front = "["@ + decimal((now / 1000) as nat) + "] "@ + "Launch requested: "@;
        let back = " via "@ + shown_runtime(session.runtime) + " ("@ + command_of(session) + ")"@;
        assert("["@ + decimal((now / 1000) as nat) + "] "@ + message =~= front + session.name
            + back);
        lemma_occurs(front, session.name, back);
    }
}

/// A stop that is asked for shows the profile as stopping, begins a task with
/// the steps of a stop, and says so; other profiles are not touched.
pub proof fn law_stop_is_begun(
    mode: ModeView,
    sessions: Seq<SessionView>,
    index: usize,
    other: usize,
    now: u128,
)
    requires
        index != other,
        mode.tasks.len() < 100,
    ensures
        index < sessions.len() ==> ({
            let after = stop_remembered(mode, sessions, index, now);
            let state = state_of(after.states, index);
            &&& state matches Some(found) && found.instance == Some(InstanceStatus::Stopping)
            &&& state_of(after.states, other) == state_of(mode.states, other)
            &&& after.tasks.last().key == stop_key(index)
            &&& after.tasks.last().subject == sessions[index as int].name
            &&& after.tasks.last().steps.len() == 6
            &&& after.tasks.last().steps[5].name == "Mark instance exited"@
            &&& sessions[index as int].name.is_suffix_of(after.activity.last())
            &&& after.active_sessions == mode.active_sessions
            &&& after.logs == mode.logs
        }),
        index >= sessions.len() ==> stop_remembered(mode, sessions, index, now).states
            == mode.states && stop_remembered(mode, sessions, index, now).tasks == mode.tasks,
{
    if index < sessions.len() {
        let name = sessions[index as int].name;
        let steps = seq![
            "Ask application to exit"@,
            "Stop application process"@,
            "Stop Waypipe worker"@,
            "Release display"@,
            "Stop container"@,
            "Mark instance exited"@,
        ];
        let task = new_task(
            mode.next_task,
            stop_key(index),
            "Stop instance"@,
            name,
            steps,
            now,
        );
        law_started_task_is_added(mode.tasks, task, task);
        let begun = task_started(mode, stop_key(index), "Stop instance"@, name, steps, now);
        lemma_state_set(begun, index, other, "Stopping"@, "Stopping "@ + name + "."@);
        law_words_are_states("Stopping"@);
        let stopping = state_set(begun, index, "Stopping"@, "Stopping "@ + name + "."@);
        law_message_is_added(stopping, now, "Stop requested: "@ + name);
        let line = "["@ + decimal((now / 1000) as nat) + "] "@ + ("Stop requested: "@ + name);
        assert(line.skip(line.len() - name.len()) =~= name);
    }
}

/// The profiles that are still to be checked are those of which nothing is
/// known and of which nothing was asked.
pub proof fn law_unchecked_are_found(mode: ModeView, count: nat, index: usize)
    requires
        count <= usize::MAX,
    ensures
        unchecked(mode, count).contains(index) <==> index < count && state_of(mode.states, index)
            is None && !mode.validation_requested.contains(index),
    decreases count,
{
    if count > 0 {
        let last = (count - 1) as usize;
        let before = unchecked(mode, (count - 1) as nat);
        let all = unchecked(mode, count);
        law_unchecked_are_found(mode, (count - 1) as nat, index);
        if before.contains(index) {
            let k = choose|k: int| 0 <= k < before.len() && before[k] == index;
            assert(all[k] == index);
        }
        if all.contains(index) {
            let k = choose|k: int| 0 <= k < all.len() && all[k] == index;
            if k < before.len() {
                assert(before[k] == index);
            }
        }
        if index == last && state_of(mode.states, index) is None
            && !mode.validation_requested.contains(index) {
            assert(all[all.len() - 1] == index);
        }
    }
}

/// A profile is shown that is picked and there; among what runs, only one that
/// runs.
pub proof fn law_picked_profile_is_shown(mode: ModeView, count: usize, nav: usize)
    ensures
        shown_session(mode, count, nav) matches Some(index) ==> mode.selected_session == Some(index)
            && index < count,
        nav == NAV_SESSIONS && mode.selected_session is Some && mode.selected_session->0 < count
            ==> shown_session(mode, count, nav) == mode.selected_session,
        nav == NAV_RUNNING && shown_session(mode, count, nav) is Some ==> active_of(
            mode.active_sessions,
            mode.selected_session->0,
        ) is Some,
        nav != NAV_SESSIONS && nav != NAV_RUNNING ==> shown_session(mode, count, nav) is None,
{
}

/// A profile that was added is picked on the page of profiles, and nothing is
/// known of it yet.
pub proof fn law_added_profile_is_picked(mode: ModeView, count: nat, other: usize)
    requires
        0 < count <= usize::MAX,
        other != count - 1,
    ensures
        last_selected(mode, count).selected_session == Some((count - 1) as usize),
        last_selected(mode, count).selected_nav == NAV_SESSIONS,
        state_of(last_selected(mode, count).states, (count - 1) as usize) is None,
        state_of(last_selected(mode, count).states, other) == state_of(mode.states, other),
{
    law_forgotten_profile_is_unknown(
        ModeView {
            selected_nav: NAV_SESSIONS,
            selected_session: Some((count - 1) as usize),
            ..mode
        },
        (count - 1) as usize,
        other,
    );
}

// ---------------------------------------------------------------------------
// Diagnostics
// ---------------------------------------------------------------------------
/// The diagnostics of an application name it, its image and its command, tell
/// its state, and end with its last lines.
pub proof fn law_diagnostics_tell_the_application(
    mode: ModeView,
    session: SessionView,
    index: usize,
)
    ensures
        occurs(diagnostics_text(mode, session, index), "Application: "@ + session.name),
        occurs(diagnostics_text(mode, session, index), "\nImage: "@ + session.image),
        occurs(diagnostics_text(mode, session, index), "\nCommand: "@ + command_of(session)),
        state_of(mode.states, index) matches Some(state) ==> occurs(
            diagnostics_text(mode, session, index),
            "\nStatus: "@ + state_label(state) + "\nStatus detail: "@ + state.detail,
        ),
        log_of(mode.logs, index).len() > 0 ==> joined(
            last_of(log_of(mode.logs, index), 80),
            "\n"@,
        ).is_suffix_of(diagnostics_text(mode, session, index)),
{
    let text = diagnostics_text(mode, session, index);
    let state = state_of(mode.states, index);
    let lines = last_of(log_of(mode.logs, index), 80);
    let status = match state {
        Some(state) => state_label(state),
        None => "Not checked"@,
    };
    let detail = match state {
        Some(state) => state.detail,
        None => "No runtime status has been recorded."@,
    };
    let shown = if lines.len() == 0 {
        "No captured logs."@
    } else {
        joined(lines, "\n"@)
    };
    let runtime = shown_runtime(session.runtime);
    let display = crate::profiles::display_summary(session);
    let presentation = crate::profiles::presentation_summary(session);
    let instance = instance_summary(active_of(mode.active_sessions, index));
    let whole = "Cocoa-Way application diagnostics\n\nApplication: "@;
    assert(whole =~= "Cocoa-Way application diagnostics\n\n"@ + "Application: "@) by {
        reveal_strlit("Cocoa-Way application diagnostics\n\nApplication: ");
        reveal_strlit("Cocoa-Way application diagnostics\n\n");
        reveal_strlit("Application: ");
    }
    let name = "Application: "@ + session.name;
    let image = "\nImage: "@ + session.image;
    let command = "\nCommand: "@ + command_of(session);
    let told = "\nStatus: "@ + status + "\nStatus detail: "@ + detail;
    let t1 = whole + session.name;
    assert(t1 =~= "Cocoa-Way application diagnostics\n\n"@ + name);
    lemma_at_end("Cocoa-Way application diagnostics\n\n"@, name);
    let t2 = t1 + "\nRuntime: "@ + runtime;
    lemma_longer(t1, "\nRuntime: "@, runtime, name);
    let t3 = t2 + "\nImage: "@ + session.image;
    lemma_longer(t2, "\nImage: "@, session.image, name);
    lemma_two_at_end(t2, "\nImage: "@, session.image);
    let t4 = t3 + "\nCommand: "@ + command_of(session);
    lemma_longer(t3, "\nCommand: "@, command_of(session), name);
    lemma_longer(t3, "\nCommand: "@, command_of(session), image);
    lemma_two_at_end(t3, "\nCommand: "@, command_of(session));
    let t5 = t4 + "\nDisplay: "@ + display;
    lemma_longer(t4, "\nDisplay: "@, display, name);
    lemma_longer(t4, "\nDisplay: "@, display, image);
    lemma_longer(t4, "\nDisplay: "@, display, command);
    let t6 = t5 + "\nPresentation: "@ + presentation;
    lemma_longer(t5, "\nPresentation: "@, presentation, name);
    lemma_longer(t5, "\nPresentation: "@, presentation, image);
    lemma_longer(t5, "\nPresentation: "@, presentation, command);
    let t7 = t6 + "\nStatus: "@ + status;
    lemma_longer(t6, "\nStatus: "@, status, name);
    lemma_longer(t6, "\nStatus: "@, status, image);
    lemma_longer(t6, "\nStatus: "@, status, command);
    let t8 = t7 + "\nStatus detail: "@ + detail;
    lemma_longer(t7, "\nStatus detail: "@, detail, name);
    lemma_longer(t7, "\nStatus detail: "@, detail, image);
    lemma_longer(t7, "\nStatus detail: "@, detail, command);
    assert(t8 =~= t6 + told);
    lemma_at_end(t6, told);
    let t9 = t8 + "\nActive instance: "@ + instance;
    lemma_longer(t8, "\nActive instance: "@, instance, name);
    lemma_longer(t8, "\nActive instance: "@, instance, image);
    lemma_longer(t8, "\nActive instance: "@, instance, command);
    lemma_longer(t8, "\nActive instance: "@, instance, told);
    lemma_longer(t9, "\n\nRecent logs:\n"@, shown, name);
    lemma_longer(t9, "\n\nRecent logs:\n"@, shown, image);
    lemma_longer(t9, "\n\nRecent logs:\n"@, shown, command);
    lemma_longer(t9, "\n\nRecent logs:\n"@, shown, told);
    let t10 = t9 + "\n\nRecent logs:\n"@;
    assert(text == t10 + shown);
    lemma_suffix(t10, shown);
}

proof fn lemma_at_end(front: Seq<char>, end: Seq<char>)
    ensures
        occurs(front + end, end),
{
    lemma_occurs(front, end, Seq::empty());
    assert(front + end + Seq::<char>::empty() =~= front + end);
}

proof fn lemma_two_at_end(front: Seq<char>, a: Seq<char>, b: Seq<char>)
    ensures
        occurs(front + a + b, a + b),
{
    let end = a + b;
    let whole = front + a + b;
    assert(whole.subrange(front.len() as int, front.len() + end.len() as int) =~= end);
}

proof fn lemma_longer(text: Seq<char>, a: Seq<char>, b: Seq<char>, needle: Seq<char>)
    requires
        occurs(text, needle),
    ensures
        occurs(text + a + b, needle),
{
    lemma_occurs_within(Seq::empty(), text, a + b, needle);
    assert(Seq::<char>::empty() + text + (a + b) =~= text + a + b);
}

proof fn lemma_suffix(front: Seq<char>, end: Seq<char>)
    ensures
        end.is_suffix_of(front + end),
{
    assert((front + end).skip(front.len() as int) =~= end);
}

// ---------------------------------------------------------------------------
// Buttons
// ---------------------------------------------------------------------------
/// A button does what it says to what it names, and asks before it deletes.
pub proof fn law_buttons_act_on_what_they_name(runtime: Seq<char>, name: Seq<char>)
    ensures
        press(ActionView::With(Command::StartContainer, seq![runtime, name]))
            == PressedView::Effects(seq![EffectView::StartContainer { runtime, name }]),
        press(ActionView::With(Command::StopContainer, seq![runtime, name]))
            == PressedView::Effects(seq![EffectView::StopContainer { runtime, name }]),
        press(ActionView::With(Command::RestartContainer, seq![runtime, name]))
            == PressedView::Effects(seq![EffectView::RestartContainer { runtime, name }]),
        press(ActionView::With(Command::OpenContainerTerminal, seq![runtime, name]))
            == PressedView::Effects(seq![EffectView::OpenContainerTerminal { runtime, name }]),
        press(ActionView::With(Command::DeleteContainer, seq![runtime, name])) matches
            PressedView::Confirm { then_do, .. } && then_do == (EffectView::DeleteContainer {
            runtime,
            name,
        }),
        press(ActionView::With(Command::StartMachine, seq![name])) == PressedView::Effects(
            seq![EffectView::MachineAction { runtime: "orbstack"@, name, action: "start"@ }],
        ),
        press(ActionView::With(Command::StopMachine, seq![name])) == PressedView::Effects(
            seq![EffectView::MachineAction { runtime: "orbstack"@, name, action: "stop"@ }],
        ),
        press(ActionView::With(Command::DeleteMachine, seq![name])) matches PressedView::Confirm {
            then_do,
            ..
        } && then_do == (EffectView::MachineAction {
            runtime: "orbstack"@,
            name,
            action: "delete"@,
        }),
        press(ActionView::With(Command::OpenMachineTerminal, seq![name])) == PressedView::Effects(
            seq![EffectView::OpenMachineTerminal { runtime: "orbstack"@, name }],
        ),
        press(ActionView::With(Command::UseContext, seq![name])) == PressedView::Effects(
            seq![EffectView::UseContext(name)],
        ),
{
}

/// The question before a deletion names what goes.
pub proof fn law_deletion_names_what_goes(
    kind: Seq<char>,
    runtime: Seq<char>,
    name: Seq<char>,
    effect: EffectView,
)
    ensures
        deletion(kind, runtime, name, effect) matches PressedView::Confirm {
            title,
            detail,
            then_do,
        } && occurs(detail, name) && occurs(title, kind) && then_do == effect,
{
    let rest = "' from "@ + shown_runtime(runtime)
        + ". Running containers that use it may fail."@;
    let detail = "This deletes '"@ + name + "' from "@ + shown_runtime(runtime)
        + ". Running containers that use it may fail."@;
    assert(detail =~= "This deletes '"@ + name + rest);
    lemma_occurs("This deletes '"@, name, rest);
    lemma_occurs("Delete "@, kind, "?"@);
}

/// What is blocked for want of room is named in the messages, with the reason,
/// and nothing is shown as being done any more.
pub proof fn law_blocked_action_is_told(
    mode: ModeView,
    action: Seq<char>,
    problem: Seq<char>,
    now: u128,
)
    ensures
        storage_blocked(mode, action, problem, now).image_task is None,
        occurs(storage_blocked(mode, action, problem, now).activity.last(), action),
        problem.is_suffix_of(storage_blocked(mode, action, problem, now).activity.last()),
        storage_blocked(mode, action, problem, now).tasks == mode.tasks,
{
    let message = "Storage protection blocked "@ + action + ": "@ + problem;
    law_message_is_added(image_task_set(mode, None), now, message);
    let line = "["@ + decimal((now / 1000) as nat) + "] "@ + message;
    let front = "["@ + decimal((now / 1000) as nat) + "] "@ + "Storage protection blocked "@;
    assert(line =~= front + action + (": "@ + problem));
    lemma_occurs(front, action, ": "@ + problem);
    assert(line.skip(line.len() - problem.len()) =~= problem);
}

} // verus!
