//! What the pages of a profile show and offer.
use vstd::prelude::*;

use crate::activity::log_of;
use crate::application_model::{launch_step_label, InstanceStatus};
use crate::container_mode::{active_of, can_stop, state_of, ActiveView, ModeView, SessionStateView};
use crate::container_sessions::{command_of, container_name_of, terminal_command_of, SessionView};
use crate::page::{ActionView, Command, ItemView};
use crate::presentation::presentation_of;
use crate::profiles::{flag_value, shown_runtime};
use crate::session_pages::{
    application_error_card_items, application_task_card_items, configuration_rows_items,
    diagnostic_rows_items, instance_rows_items, is_blocked, is_example_image, is_local_image,
    lacks_image, limit_of, missing_image_card_items, needs_force, open_launch, overview_rows_items,
    primary_command, primary_enabled, primary_of, row_label, row_primary, session_detail_items,
    session_files_items, session_head_items, session_info_items, session_logs_items,
    session_profile_actions_items, session_row_buttons_items, session_row_items, session_rows_items,
    session_terminal_items, session_trouble_items, step_lines_items,
};
use crate::tasks::TaskStepView;
use crate::text::decimal;

verus! {

// ---------------------------------------------------------------------------
// Items
// ---------------------------------------------------------------------------
pub open spec fn is_button(item: ItemView, action: ActionView, enabled: bool) -> bool {
    item matches ItemView::Button { action: found, enabled: on, .. } && found == action && on
        == enabled
}

/// Whether a button with an action is among some items.
pub open spec fn has_button(items: Seq<ItemView>, action: ActionView, enabled: bool) -> bool {
    exists|i: int| 0 <= i < items.len() && is_button(#[trigger] items[i], action, enabled)
}

pub open spec fn is_said(item: ItemView, text: Seq<char>) -> bool {
    match item {
        ItemView::Label { text: found, .. } => found == text,
        ItemView::Fitted { text: found, .. } => found == text,
        ItemView::Noted { text: found, .. } => found == text,
        ItemView::Live { text: found, .. } => found == text,
        _ => false,
    }
}

/// Whether a text is among some items.
pub open spec fn says(items: Seq<ItemView>, text: Seq<char>) -> bool {
    exists|i: int| 0 <= i < items.len() && is_said(#[trigger] items[i], text)
}

/// Whether a name is shown with a value among some items.
pub open spec fn tells(items: Seq<ItemView>, name: Seq<char>, value: Seq<char>) -> bool {
    items.contains(ItemView::Row { name, value })
}

/// What a page holds, a page holds that has more around it.
pub proof fn lemma_page_holds_its_parts(
    a: Seq<ItemView>,
    b: Seq<ItemView>,
    c: Seq<ItemView>,
    action: ActionView,
    enabled: bool,
    text: Seq<char>,
    item: ItemView,
)
    ensures
        has_button(b, action, enabled) ==> has_button(a + b + c, action, enabled),
        says(b, text) ==> says(a + b + c, text),
        b.contains(item) ==> (a + b + c).contains(item),
{
    let all = a + b + c;
    assert forall|i: int| 0 <= i < b.len() implies all[a.len() + i] == #[trigger] b[i] by {}
    if has_button(b, action, enabled) {
        let i = choose|i: int| 0 <= i < b.len() && is_button(#[trigger] b[i], action, enabled);
        assert(is_button(all[a.len() + i], action, enabled));
    }
    if says(b, text) {
        let i = choose|i: int| 0 <= i < b.len() && is_said(#[trigger] b[i], text);
        assert(is_said(all[a.len() + i], text));
    }
    if b.contains(item) {
        let i = choose|i: int| 0 <= i < b.len() && b[i] == item;
        assert(all[a.len() + i] == item);
    }
}

// ---------------------------------------------------------------------------
// The list of profiles
// ---------------------------------------------------------------------------
/// The row of a profile that can be launched offers to launch it; that of one
/// that runs offers to open and to stop it, by force where it did not stop; that
/// of one that neither runs nor is stopped offers no stop.
pub proof fn law_row_starts_and_stops(
    session: SessionView,
    index: usize,
    state: Option<SessionStateView>,
    active: bool,
)
    ensures
        !active && !can_stop(state) && !is_blocked(session) && !lacks_image(state) ==> has_button(
            session_row_buttons_items(session, index, state, active),
            ActionView::At(Command::LaunchSession, index),
            true,
        ),
        active ==> has_button(
            session_row_buttons_items(session, index, state, active),
            ActionView::At(Command::SelectSession, index),
            true,
        ),
        active && !needs_force(state) ==> has_button(
            session_row_buttons_items(session, index, state, active),
            ActionView::At(Command::StopSession, index),
            true,
        ),
        active && needs_force(state) ==> has_button(
            session_row_buttons_items(session, index, state, active),
            ActionView::At(Command::ForceStopSession, index),
            true,
        ),
        !active && can_stop(state) ==> !has_button(
            session_row_buttons_items(session, index, state, active),
            ActionView::At(Command::LaunchSession, index),
            true,
        ),
        !active && row_label(session, state, active) != "Running"@ && row_label(
            session,
            state,
            active,
        ) != "Stopping"@ ==> !has_button(
            session_row_buttons_items(session, index, state, active),
            ActionView::At(Command::StopSession, index),
            true,
        ),
{
    let items = session_row_buttons_items(session, index, state, active);
    let primary = ActionView::At(primary_command(row_primary(session, state, active)), index);
    assert(is_button(items[0], primary, primary_enabled(row_primary(session, state, active))));
    if active {
        assert(is_button(
            items[1],
            if needs_force(state) {
                ActionView::At(Command::ForceStopSession, index)
            } else {
                ActionView::At(Command::StopSession, index)
            },
            true,
        ));
    }
}

/// The row of a profile shows its name and its state, and picks it.
pub proof fn law_row_shows_its_profile(
    session: SessionView,
    index: usize,
    selected: bool,
    state: Option<SessionStateView>,
    active: bool,
)
    ensures
        ({
            let items = session_row_items(session, index, selected, state, active);
            &&& says(items, session.name)
            &&& says(items, row_label(session, state, active))
            &&& says(items, shown_runtime(session.runtime))
            &&& items.contains(
                ItemView::Area { action: ActionView::At(Command::SelectSession, index) },
            )
            &&& items[0] == ItemView::Card { marked: selected }
        }),
{
    let items = session_row_items(session, index, selected, state, active);
    assert(is_said(items[1], session.name));
    assert(is_said(items[2], row_label(session, state, active)));
    assert(is_said(items[4], shown_runtime(session.runtime)));
    assert(items[7] == ItemView::Area { action: ActionView::At(Command::SelectSession, index) });
}

/// Every profile has its row, in the list of what runs just those that run.
pub proof fn law_every_profile_has_its_row(
    sessions: Seq<SessionView>,
    mode: ModeView,
    running_only: bool,
    selected: Option<usize>,
    count: nat,
    index: usize,
)
    requires
        count <= sessions.len() <= usize::MAX,
        index < count,
        active_of(mode.active_sessions, index) is Some || !running_only,
    ensures
        session_rows_items(sessions, mode, running_only, selected, count).contains(
            ItemView::Area { action: ActionView::At(Command::SelectSession, index) },
        ),
        says(
            session_rows_items(sessions, mode, running_only, selected, count),
            sessions[index as int].name,
        ),
    decreases count,
{
    let area = ItemView::Area { action: ActionView::At(Command::SelectSession, index) };
    let front = session_rows_items(sessions, mode, running_only, selected, (count - 1) as nat);
    let none = Seq::<ItemView>::empty();
    let all = session_rows_items(sessions, mode, running_only, selected, count);
    let action = ActionView::At(Command::SelectSession, index);
    let name = sessions[index as int].name;
    if index < count - 1 {
        law_every_profile_has_its_row(
            sessions,
            mode,
            running_only,
            selected,
            (count - 1) as nat,
            index,
        );
        let rest = all.skip(front.len() as int);
        assert(all =~= none + front + rest);
        lemma_page_holds_its_parts(none, front, rest, action, true, name, area);
    } else {
        let active = active_of(mode.active_sessions, index) is Some;
        let state = state_of(mode.states, index);
        let picked = selected == Some(index);
        let row = session_row_items(sessions[index as int], index, picked, state, active);
        law_row_shows_its_profile(sessions[index as int], index, picked, state, active);
        assert(all =~= front + row + none);
        lemma_page_holds_its_parts(front, row, none, action, true, name, area);
    }
}

// ---------------------------------------------------------------------------
// The page of a profile
// ---------------------------------------------------------------------------
/// The head of a profile's page names it, offers to check it, offers to stop it
/// just while there is something to stop, and to launch it just while there is
/// not and it can be launched.
pub proof fn law_head_offers_what_can_be_done(
    session: SessionView,
    index: usize,
    state: Option<SessionStateView>,
    active: bool,
)
    ensures
        ({
            let items = session_head_items(session, index, state, active);
            let stop = if needs_force(state) {
                ActionView::At(Command::ForceStopSession, index)
            } else {
                ActionView::At(Command::StopSession, index)
            };
            &&& says(items, session.name)
            &&& has_button(items, ActionView::At(Command::CheckSession, index), true)
            &&& has_button(items, stop, true) <==> active || can_stop(state)
            &&& has_button(items, ActionView::At(Command::LaunchSession, index), true) <==> !active
                && !can_stop(state) && !is_blocked(session) && !lacks_image(state)
        }),
{
    let items = session_head_items(session, index, state, active);
    let busy = active || can_stop(state);
    let primary = primary_of(session, state, busy);
    assert(is_said(items[0], session.name));
    assert(is_button(items[2], ActionView::At(Command::CheckSession, index), true));
    assert(is_button(
        items[3],
        ActionView::At(primary_command(primary), index),
        primary_enabled(primary),
    ));
    let stop = if needs_force(state) {
        ActionView::At(Command::ForceStopSession, index)
    } else {
        ActionView::At(Command::StopSession, index)
    };
    assert(is_button(items[4], stop, busy));
}

/// A profile can be edited at any time; how it is presented is shown, and can be
/// changed just while it does not run.
pub proof fn law_profile_can_be_changed(
    session: SessionView,
    index: usize,
    state: Option<SessionStateView>,
    active: bool,
)
    ensures
        ({
            let items = session_profile_actions_items(session, index, state, active);
            &&& has_button(items, ActionView::At(Command::EditSession, index), true)
            &&& items[1] matches ItemView::Menu { action, enabled, .. } && action == ActionView::At(
                Command::ProfileMenu,
                index,
            ) && enabled
            &&& items[2] matches ItemView::Menu { action, enabled, selected, .. } && action
                == ActionView::At(Command::ChangePresentation, index) && enabled == !active
                && selected == (if presentation_of(session.presentation) is Rootless {
                1int
            } else {
                0int
            })
        }),
{
    let items = session_profile_actions_items(session, index, state, active);
    assert(is_button(items[0], ActionView::At(Command::EditSession, index), true));
}

/// The overview of a profile tells its runtime, its image and its command.
pub proof fn law_overview_tells_the_profile(
    session: SessionView,
    state: Option<SessionStateView>,
    active: bool,
)
    ensures
        tells(overview_rows_items(session, state, active), "Image"@, session.image),
        tells(overview_rows_items(session, state, active), "Command"@, command_of(session)),
        tells(
            overview_rows_items(session, state, active),
            "Runtime"@,
            shown_runtime(session.runtime),
        ),
        active ==> tells(
            overview_rows_items(session, state, active),
            "Instance status"@,
            "Running"@,
        ),
        !active && state is None ==> tells(
            overview_rows_items(session, state, active),
            "Instance status"@,
            "Not running"@,
        ),
{
    let items = overview_rows_items(session, state, active);
    assert(items[6] == ItemView::Row { name: "Image"@, value: session.image });
    assert(items[7] == ItemView::Row { name: "Command"@, value: command_of(session) });
    assert(items[4] == ItemView::Row { name: "Runtime"@, value: shown_runtime(session.runtime) });
    assert(items[3] == ItemView::Row {
        name: "Instance status"@,
        value: crate::session_pages::instance_status_of(active, state),
    });
}

/// The configuration of a profile tells its limits, its sound, and how many
/// mounts and variables it has.
pub proof fn law_configuration_tells_the_limits(session: SessionView, value: Seq<char>)
    ensures
        flag_value(session.runtime_args, "--cpus"@) == Some(value) ==> tells(
            configuration_rows_items(session),
            "CPU"@,
            value,
        ),
        flag_value(session.runtime_args, "--memory"@) == Some(value) ==> tells(
            configuration_rows_items(session),
            "Memory"@,
            value,
        ),
        flag_value(session.runtime_args, "--shm-size"@) == Some(value) ==> tells(
            configuration_rows_items(session),
            "Shared memory"@,
            value,
        ),
        !session.audio ==> tells(configuration_rows_items(session), "Audio"@, "Off"@),
        session.audio ==> tells(
            configuration_rows_items(session),
            "Audio"@,
            "48 kHz stereo playback"@,
        ),
        tells(
            configuration_rows_items(session),
            "Mounts"@,
            crate::profiles::counted(session.mounts.len(), "mount"@),
        ),
        tells(
            configuration_rows_items(session),
            "Environment"@,
            crate::profiles::counted(session.env.len(), "variable"@),
        ),
{
    let items = configuration_rows_items(session);
    assert(items[3] == ItemView::Row {
        name: "CPU"@,
        value: limit_of(session.runtime_args, "--cpus"@),
    });
    assert(items[4] == ItemView::Row {
        name: "Memory"@,
        value: limit_of(session.runtime_args, "--memory"@),
    });
    assert(items[5] == ItemView::Row {
        name: "Shared memory"@,
        value: limit_of(session.runtime_args, "--shm-size"@),
    });
    assert(items[6] == ItemView::Row {
        name: "Audio"@,
        value: if session.audio {
            "48 kHz stereo playback"@
        } else {
            "Off"@
        },
    });
    assert(items[7] == ItemView::Row {
        name: "Mounts"@,
        value: crate::profiles::counted(session.mounts.len(), "mount"@),
    });
    assert(items[8] == ItemView::Row {
        name: "Environment"@,
        value: crate::profiles::counted(session.env.len(), "variable"@),
    });
}

/// An instance that runs is told by its number, its container and its display;
/// where none runs, that is said.
pub proof fn law_instance_is_told(session: SessionView, instance: ActiveView, now: u128)
    ensures
        tells(
            instance_rows_items(session, Some(instance), now),
            "Instance"@,
            "#"@ + decimal(instance.id as nat),
        ),
        tells(
            instance_rows_items(session, Some(instance), now),
            "Container"@,
            container_name_of(session.name),
        ),
        tells(
            instance_rows_items(session, Some(instance), now),
            "Display"@,
            instance.display_slot,
        ),
        tells(instance_rows_items(session, None, now), "Status"@, "No running instances"@),
{
    let items = instance_rows_items(session, Some(instance), now);
    assert(items[2] == ItemView::Row {
        name: "Instance"@,
        value: "#"@ + decimal(instance.id as nat),
    });
    assert(items[5] == ItemView::Row {
        name: "Container"@,
        value: container_name_of(session.name),
    });
    assert(items[6] == ItemView::Row { name: "Display"@, value: instance.display_slot });
    assert(instance_rows_items(session, None, now)[2] == ItemView::Row {
        name: "Status"@,
        value: "No running instances"@,
    });
}

/// The diagnostics of a profile tell what is known of it and the step in which
/// it failed, and lead to its logs and its configuration.
pub proof fn law_diagnostics_tell_the_state(
    session: SessionView,
    index: usize,
    state: SessionStateView,
)
    ensures
        tells(
            diagnostic_rows_items(session, index, Some(state), None),
            "Detail"@,
            state.detail,
        ),
        state.failed_step matches Some(step) ==> tells(
            diagnostic_rows_items(session, index, Some(state), None),
            "Failed step"@,
            launch_step_label(step),
        ),
        has_button(
            diagnostic_rows_items(session, index, Some(state), None),
            ActionView::At(Command::SelectTab, 1),
            true,
        ),
        has_button(
            diagnostic_rows_items(session, index, Some(state), None),
            ActionView::At(Command::ViewRawConfig, index),
            true,
        ),
{
    let items = diagnostic_rows_items(session, index, Some(state), None);
    let n = items.len();
    assert(items[3] == ItemView::Row { name: "Detail"@, value: state.detail });
    if state.failed_step is Some {
        assert(items[4] == ItemView::Row {
            name: "Failed step"@,
            value: launch_step_label(state.failed_step->0),
        });
    }
    assert(is_button(items[n - 2], ActionView::At(Command::SelectTab, 1), true));
    assert(is_button(items[n - 1], ActionView::At(Command::ViewRawConfig, index), true));
}

/// An image that is missing can be loaded; one from a registry can be fetched,
/// and the example can be built.
pub proof fn law_missing_image_can_be_had(index: usize, session: SessionView)
    ensures
        has_button(
            missing_image_card_items(index, session),
            ActionView::At(Command::LoadSessionImage, index),
            true,
        ),
        !is_local_image(session.image) ==> has_button(
            missing_image_card_items(index, session),
            ActionView::At(Command::PullSessionImage, index),
            true,
        ),
        is_local_image(session.image) ==> !has_button(
            missing_image_card_items(index, session),
            ActionView::At(Command::PullSessionImage, index),
            true,
        ),
        is_local_image(session.image) && is_example_image(session.image) ==> has_button(
            missing_image_card_items(index, session),
            ActionView::At(Command::BuildSessionImage, index),
            true,
        ),
{
    let items = missing_image_card_items(index, session);
    if !is_local_image(session.image) {
        assert(is_button(items[3], ActionView::At(Command::PullSessionImage, index), true));
        assert(is_button(items[4], ActionView::At(Command::LoadSessionImage, index), true));
    } else if is_example_image(session.image) {
        assert(is_button(items[3], ActionView::At(Command::BuildSessionImage, index), true));
        assert(is_button(items[4], ActionView::At(Command::LoadSessionImage, index), true));
    } else {
        assert(is_button(items[3], ActionView::At(Command::LoadSessionImage, index), true));
    }
}

/// A failure is shown whole on asking, and can be checked again, looked into and
/// copied.
pub proof fn law_failure_is_shown(index: usize, known: SessionStateView)
    ensures
        ({
            let items = application_error_card_items(index, known);
            &&& items[2] matches ItemView::Noted { note, .. } && note == known.detail
            &&& has_button(items, ActionView::At(Command::CheckSession, index), true)
            &&& has_button(items, ActionView::At(Command::SelectTab, 1), true)
            &&& has_button(items, ActionView::At(Command::CopyDiagnostics, index), true)
        }),
{
    let items = application_error_card_items(index, known);
    assert(is_button(items[3], ActionView::At(Command::CheckSession, index), true));
    assert(is_button(items[4], ActionView::At(Command::SelectTab, 1), true));
    assert(is_button(items[5], ActionView::At(Command::CopyDiagnostics, index), true));
}

/// Every step of a task is shown with how it is doing, in its order.
pub proof fn law_every_step_is_shown(steps: Seq<TaskStepView>, i: int)
    requires
        0 <= i < steps.len(),
    ensures
        step_lines_items(steps).len() == 2 * steps.len(),
        is_said(step_lines_items(steps)[2 * i + 1], steps[i].name),
        is_said(
            step_lines_items(steps)[2 * i],
            crate::session_pages::step_word(steps[i].status),
        ),
    decreases steps.len(),
{
    let front = steps.drop_last();
    let before = step_lines_items(front);
    lemma_step_lines_length(front);
    if i < front.len() {
        law_every_step_is_shown(front, i);
        assert(front[i] == steps[i]);
        assert(step_lines_items(steps)[2 * i] == before[2 * i]);
        assert(step_lines_items(steps)[2 * i + 1] == before[2 * i + 1]);
    }
}

proof fn lemma_step_lines_length(steps: Seq<TaskStepView>)
    ensures
        step_lines_items(steps).len() == 2 * steps.len(),
    decreases steps.len(),
{
    if steps.len() > 0 {
        lemma_step_lines_length(steps.drop_last());
    }
}

/// What a profile has printed is shown whole; where it has printed nothing, what
/// is known of it is.
pub proof fn law_logs_are_shown(mode: ModeView, session: SessionView, index: usize)
    ensures
        log_of(mode.logs, index).len() > 0 ==> (session_logs_items(mode, session, index).last()
            matches ItemView::Lines { lines, .. } && lines == log_of(mode.logs, index)),
        log_of(mode.logs, index).len() == 0 && state_of(mode.states, index) is Some ==> says(
            session_logs_items(mode, session, index),
            state_of(mode.states, index)->0.detail,
        ),
{
    let items = session_logs_items(mode, session, index);
    if log_of(mode.logs, index).len() == 0 && state_of(mode.states, index) is Some {
        assert(is_said(items[3], state_of(mode.states, index)->0.detail));
    }
}

/// A terminal can be opened just while the application runs, and the command
/// for it is shown.
pub proof fn law_terminal_needs_an_instance(index: usize, session: SessionView, active: bool)
    ensures
        has_button(
            session_terminal_items(index, session, active),
            ActionView::At(Command::OpenTerminal, index),
            active,
        ),
        !active ==> !has_button(
            session_terminal_items(index, session, active),
            ActionView::At(Command::OpenTerminal, index),
            true,
        ),
        says(session_terminal_items(index, session, active), terminal_command_of(session)),
{
    let items = session_terminal_items(index, session, active);
    assert(is_button(items[5], ActionView::At(Command::OpenTerminal, index), active));
    assert(is_said(items[4], terminal_command_of(session)));
}

/// The page of a profile has its head and its actions on every tab, and behind
/// them what the tab is for.
pub proof fn law_page_has_its_parts(
    mode: ModeView,
    session: SessionView,
    index: usize,
    tab: usize,
    now: u128,
)
    ensures
        ({
            let items = session_detail_items(mode, session, index, tab, now);
            let state = state_of(mode.states, index);
            let active = active_of(mode.active_sessions, index) is Some;
            let head = session_head_items(session, index, state, active);
            let actions = session_profile_actions_items(session, index, state, active);
            &&& head.is_prefix_of(items)
            &&& items.skip(head.len() as int).take(actions.len() as int) == actions
            &&& tab == 1 ==> items.skip((head.len() + actions.len()) as int) == session_logs_items(
                mode,
                session,
                index,
            )
            &&& tab == 2 ==> items.skip((head.len() + actions.len()) as int)
                == session_terminal_items(index, session, active)
            &&& tab == 3 ==> items.skip((head.len() + actions.len()) as int) == session_files_items(
                session,
            )
            &&& tab != 1 && tab != 2 && tab != 3 ==> items.skip(
                (head.len() + actions.len()) as int,
            ) == session_info_items(mode, session, index, now)
        }),
{
    let items = session_detail_items(mode, session, index, tab, now);
    let state = state_of(mode.states, index);
    let active = active_of(mode.active_sessions, index) is Some;
    let head = session_head_items(session, index, state, active);
    let actions = session_profile_actions_items(session, index, state, active);
    let rest = items.skip((head.len() + actions.len()) as int);
    assert(items.take(head.len() as int) =~= head);
    assert(items.skip(head.len() as int).take(actions.len() as int) =~= actions);
    if tab == 1 {
        assert(rest =~= session_logs_items(mode, session, index));
    } else if tab == 2 {
        assert(rest =~= session_terminal_items(index, session, active));
    } else if tab == 3 {
        assert(rest =~= session_files_items(session));
    } else {
        assert(rest =~= session_info_items(mode, session, index, now));
    }
}

/// A launch that is under way or failed is shown by its task; else a failure
/// that is known is shown, and else nothing.
pub proof fn law_trouble_is_shown(mode: ModeView, index: usize, state: Option<SessionStateView>)
    ensures
        open_launch(mode, index) matches Some(task) ==> session_trouble_items(mode, index, state)
            == application_task_card_items(task) && says(
            session_trouble_items(mode, index, state),
            task.operation,
        ),
        open_launch(mode, index) is None && (state matches Some(known) && known.instance == Some(
            InstanceStatus::Failed,
        )) ==> session_trouble_items(mode, index, state) == application_error_card_items(
            index,
            state->0,
        ),
        open_launch(mode, index) is None && state is None ==> session_trouble_items(
            mode,
            index,
            state,
        ).len() == 0,
{
    if open_launch(mode, index) is Some {
        let task = open_launch(mode, index)->0;
        assert(is_said(application_task_card_items(task)[1], task.operation));
    }
}

} // verus!
