//! A profile in the list of profiles, and all that is said of it beside the list.
use vstd::prelude::*;
use vstd::string::*;

use crate::activity::log_of;
use crate::application_model::{
    instance_label, launch_step_label, profile_label, task_status_label, InstanceStatus,
    LaunchStep, ProfileStatus, TaskStatus, TaskStepStatus,
};
use crate::container_mode::{
    active_of, can_stop, launch_key, launch_task_key, session_can_stop, session_is_launch_busy,
    session_state_label, state_label, state_of, ActiveSessionSnapshot, ActiveView, ContainerMode,
    ModeView, SessionState, SessionStateView,
};
use crate::container_sessions::{
    command_of, container_name, container_name_of, is_apple_container_session, runtime_of, terminal_command,
    terminal_command_of, ContainerRuntime, ContainerSession, SessionView,
};
use crate::page::{
    area, area_item, button, button_item, card, card_item, first_of, fitted, fitted_item, label,
    label_item, lines_item, live, live_item, menu, menu_item, noted, noted_item, row, row_item,
    wrapped_lines, Action, ActionView, Command, Item, ItemView, TextStyle,
};
use crate::presentation::presentation_of;
use crate::profiles::{
    ago, argument_lines, counted, display_summary, display_target, elapsed, elapsed_time_label,
    flag_value, format_count, format_runtime_arguments, is_local_image_reference,
    is_smoke_image_reference, presentation_summary, runtime_arg_value, runtime_label,
    session_display_command, session_display_summary, session_display_target,
    session_presentation_summary, session_waypipe_summary, shown_runtime,
    waypipe_summary,
};
use crate::runtime_pages::{mono_lines, mono_lines_items};
use crate::tasks::{latest_place, OperationTask, TaskStep, TaskStepView, TaskView};
use crate::text::{
    concat, concat3, concat4, contains, decimal, decimal_text, join, joined, occurs, same,
    short_text, shortened, split_whitespace, texts2, texts5, words_of,
};

verus! {

// ---------------------------------------------------------------------------
// What can be done with a profile
// ---------------------------------------------------------------------------
/// Whether windows can come out of Apple Container.
pub const GUI_TRANSPORT_READY: bool = true;

/// Whether a profile cannot be launched because its windows could not be shown.
pub open spec fn is_blocked(session: SessionView) -> bool {
    runtime_of(session.runtime) == ContainerRuntime::Apple && !GUI_TRANSPORT_READY
}

pub fn session_has_apple_transport_block(session: &ContainerSession) -> (result: bool)
    ensures
        result == is_blocked(session.deep_view()),
{
    is_apple_container_session(session) && !GUI_TRANSPORT_READY
}

pub open spec fn blocked_detail(session: SessionView) -> Seq<char> {
    session.name
        + " uses Apple Container. Image and volume management are wired, but GUI launch needs a dedicated Apple Container transport before this profile can start."@
}

pub fn apple_transport_blocked_detail(session: &ContainerSession) -> (result: String)
    ensures
        result@ == blocked_detail(session.deep_view()),
{
    concat(
        session.name.as_str(),
        " uses Apple Container. Image and volume management are wired, but GUI launch needs a dedicated Apple Container transport before this profile can start.",
    )
}

/// Whether a check has found that the image is not there.
pub open spec fn lacks_image(state: Option<SessionStateView>) -> bool {
    match state {
        Some(state) => occurs(state.detail, "not available locally"@),
        None => false,
    }
}

pub fn is_missing_image_state(state: Option<&SessionState>) -> (result: bool)
    ensures
        result == lacks_image(state.deep_view()),
{
    match state {
        Some(state) => contains(state.detail.as_str(), "not available locally"),
        None => false,
    }
}

/// Whether a check has found that Apple Container does not run.
pub open spec fn lacks_system(state: Option<SessionStateView>) -> bool {
    match state {
        Some(state) => occurs(state.detail, "container system start"@) || occurs(
            state.detail,
            "reports running"@,
        ) || occurs(state.detail, "not running"@),
        None => false,
    }
}

pub fn is_apple_container_stopped_state(state: Option<&SessionState>) -> (result: bool)
    ensures
        result == lacks_system(state.deep_view()),
{
    match state {
        Some(state) => contains(state.detail.as_str(), "container system start") || contains(
            state.detail.as_str(),
            "reports running",
        ) || contains(state.detail.as_str(), "not running"),
        None => false,
    }
}

/// Whether there is just this profile's image to be built here.
pub open spec fn is_example_image(image: Seq<char>) -> bool {
    occurs(image, "cocoa-way-niri"@) || occurs(image, "cocoa-way-smoke"@)
}

/// Whether an image is known under a name of this machine only.
pub open spec fn is_local_image(image: Seq<char>) -> bool {
    "localhost/"@.is_prefix_of(image) || "localhost:"@.is_prefix_of(image) || !image.contains('/')
}

/// What the first button of a profile is for.
#[derive(Clone, Copy, Debug, PartialEq, Eq, Structural)]
pub enum Primary {
    /// Looks at what runs.
    Open,
    /// Nothing, while it starts, runs or stops.
    Busy,
    /// Nothing, since its windows could not be shown.
    Blocked,
    /// Makes the image that is not there.
    Build,
    Load,
    Pull,
    Launch,
}

/// What can be done next with a profile that is not running.
pub open spec fn primary_of(session: SessionView, state: Option<SessionStateView>, busy: bool) -> Primary {
    if busy {
        Primary::Busy
    } else if is_blocked(session) {
        Primary::Blocked
    } else if lacks_image(state) {
        if is_example_image(session.image) {
            Primary::Build
        } else if is_local_image(session.image) {
            Primary::Load
        } else {
            Primary::Pull
        }
    } else {
        Primary::Launch
    }
}

pub fn primary_action(session: &ContainerSession, state: Option<&SessionState>, busy: bool) -> (result:
    Primary)
    ensures
        result == primary_of(session.deep_view(), state.deep_view(), busy),
{
    if busy {
        Primary::Busy
    } else if session_has_apple_transport_block(session) {
        Primary::Blocked
    } else if is_missing_image_state(state) {
        if is_smoke_image_reference(session.image.as_str()) {
            Primary::Build
        } else if is_local_image_reference(session.image.as_str()) {
            Primary::Load
        } else {
            Primary::Pull
        }
    } else {
        Primary::Launch
    }
}

/// Whether the first button does anything.
pub open spec fn primary_enabled(primary: Primary) -> bool {
    primary != Primary::Busy && primary != Primary::Blocked
}

pub open spec fn primary_title(primary: Primary, state: Option<SessionStateView>) -> Seq<char> {
    match primary {
        Primary::Open => "Open"@,
        Primary::Busy => match state {
            Some(state) => state_label(state),
            None => "Running"@,
        },
        Primary::Blocked => "Blocked"@,
        Primary::Build => "Build"@,
        Primary::Load => "Load OCI"@,
        Primary::Pull => "Pull"@,
        Primary::Launch => "Launch"@,
    }
}

fn primary_title_text(primary: Primary, state: Option<&SessionState>) -> (result: &'static str)
    ensures
        result@ == primary_title(primary, state.deep_view()),
{
    match primary {
        Primary::Open => "Open",
        Primary::Busy => match state {
            Some(state) => session_state_label(state),
            None => "Running",
        },
        Primary::Blocked => "Blocked",
        Primary::Build => "Build",
        Primary::Load => "Load OCI",
        Primary::Pull => "Pull",
        Primary::Launch => "Launch",
    }
}

pub open spec fn primary_command(primary: Primary) -> Command {
    match primary {
        Primary::Open => Command::SelectSession,
        Primary::Busy => Command::CheckSession,
        Primary::Blocked => Command::CheckSession,
        Primary::Build => Command::BuildSessionImage,
        Primary::Load => Command::LoadSessionImage,
        Primary::Pull => Command::PullSessionImage,
        Primary::Launch => Command::LaunchSession,
    }
}

fn primary_command_of(primary: Primary) -> (result: Command)
    ensures
        result == primary_command(primary),
{
    match primary {
        Primary::Open => Command::SelectSession,
        Primary::Busy => Command::CheckSession,
        Primary::Blocked => Command::CheckSession,
        Primary::Build => Command::BuildSessionImage,
        Primary::Load => Command::LoadSessionImage,
        Primary::Pull => Command::PullSessionImage,
        Primary::Launch => Command::LaunchSession,
    }
}

pub open spec fn primary_note(primary: Primary, busy: Seq<char>, launch: Seq<char>) -> Seq<char> {
    match primary {
        Primary::Open => "Open this application profile and inspect its running instance"@,
        Primary::Busy => busy,
        Primary::Blocked => "Apple Container GUI relay is currently unavailable"@,
        Primary::Build => "Build the bundled example image with Apple Container before launching"@,
        Primary::Load => "Load an OCI archive into Apple Container before launching"@,
        Primary::Pull => "Pull the missing image before launching"@,
        Primary::Launch => launch,
    }
}

fn primary_tooltip(primary: Primary, busy: &'static str, launch: &'static str) -> (result: &'static str)
    ensures
        result@ == primary_note(primary, busy@, launch@),
{
    match primary {
        Primary::Open => "Open this application profile and inspect its running instance",
        Primary::Busy => busy,
        Primary::Blocked => "Apple Container GUI relay is currently unavailable",
        Primary::Build => "Build the bundled example image with Apple Container before launching",
        Primary::Load => "Load an OCI archive into Apple Container before launching",
        Primary::Pull => "Pull the missing image before launching",
        Primary::Launch => launch,
    }
}

/// A profile is launched only where nothing of it runs, its windows can be shown
/// and its image is not known to be missing.
pub proof fn law_launch_is_offered_when_idle(
    session: SessionView,
    state: Option<SessionStateView>,
    busy: bool,
)
    ensures
        primary_command(primary_of(session, state, busy)) == Command::LaunchSession <==> !busy
            && !is_blocked(session) && !lacks_image(state),
        busy ==> !primary_enabled(primary_of(session, state, busy)),
{
}

/// Whether a stop would have to be by force.
pub open spec fn needs_force(state: Option<SessionStateView>) -> bool {
    match state {
        Some(state) => state.force_stop_available,
        None => false,
    }
}

fn force_is_needed(state: Option<&SessionState>) -> (result: bool)
    ensures
        result == needs_force(state.deep_view()),
{
    match state {
        Some(state) => state.force_stop_available,
        None => false,
    }
}

/// The word for a profile in the list.
pub open spec fn row_label(session: SessionView, state: Option<SessionStateView>, active: bool) -> Seq<
    char,
> {
    match state {
        Some(state) => state_label(state),
        None => if active {
            "Running"@
        } else if is_blocked(session) {
            "Blocked"@
        } else {
            "Validating"@
        },
    }
}

fn row_label_text(session: &ContainerSession, state: Option<&SessionState>, active: bool) -> (result:
    &'static str)
    ensures
        result@ == row_label(session.deep_view(), state.deep_view(), active),
{
    match state {
        Some(state) => session_state_label(state),
        None => if active {
            "Running"
        } else if session_has_apple_transport_block(session) {
            "Blocked"
        } else {
            "Validating"
        },
    }
}

/// The first button of a profile in the list.
pub open spec fn row_primary(session: SessionView, state: Option<SessionStateView>, active: bool) -> Primary {
    if active {
        Primary::Open
    } else {
        primary_of(session, state, can_stop(state))
    }
}

// ---------------------------------------------------------------------------
// The list of profiles
// ---------------------------------------------------------------------------
/// What a profile is, as it stands in the list.
pub open spec fn session_summary_items(
    session: SessionView,
    index: usize,
    selected: bool,
    state: Option<SessionStateView>,
    active: bool,
) -> Seq<ItemView> {
    seq![card_item(selected), label_item(TextStyle::Heading, session.name)]
        + (match state {
            Some(known) => seq![
                noted_item(TextStyle::Caption, row_label(session, state, active), known.detail),
            ],
            None => seq![label_item(TextStyle::Caption, row_label(session, state, active))],
        })
        + seq![
            label_item(
                TextStyle::Body,
                command_of(session) + " · "@ + presentation_summary(session),
            ),
            label_item(TextStyle::Caption, shown_runtime(session.runtime)),
            label_item(TextStyle::Body, shortened(session.image, 54)),
            label_item(
                TextStyle::Caption,
                if active { "1 active instance"@ } else { "No running instances"@ },
            ),
            area_item(ActionView::At(Command::SelectSession, index)),
        ]
}

pub fn session_summary(
    items: &mut Vec<Item>,
    session: &ContainerSession,
    index: usize,
    selected: bool,
    state: Option<&SessionState>,
    active: bool,
)
    ensures
        final(items).deep_view() == old(items).deep_view() + session_summary_items(
            session.deep_view(),
            index,
            selected,
            state.deep_view(),
            active,
        ),
{
    card(items, selected);
    label(items, TextStyle::Heading, session.name.as_str());
    match state {
        Some(known) => {
            noted(items, TextStyle::Caption, row_label_text(session, state, active), known.detail.as_str());
        },
        None => {
            label(items, TextStyle::Caption, row_label_text(session, state, active));
        },
    }
    let command = session_display_command(session);
    let text = concat3(command.as_str(), " · ", session_presentation_summary(session));
    label(items, TextStyle::Body, text.as_str());
    label(items, TextStyle::Caption, runtime_label(session.runtime.as_str()));
    let short = short_text(session.image.as_str(), 54);
    label(items, TextStyle::Body, short.as_str());
    let word = if active {
        "1 active instance"
    } else {
        "No running instances"
    };
    label(items, TextStyle::Caption, word);
    area(items, Action::At(Command::SelectSession, index));
}

/// What can be done with a profile in the list.
pub open spec fn session_row_buttons_items(
    session: SessionView,
    index: usize,
    state: Option<SessionStateView>,
    active: bool,
) -> Seq<ItemView> {
    seq![
        button_item(
            primary_title(row_primary(session, state, active), state),
            ActionView::At(primary_command(row_primary(session, state, active)), index),
            primary_enabled(row_primary(session, state, active)),
            primary_note(
                row_primary(session, state, active),
                "This application is starting or stopping"@,
                "Launch an application instance from this saved profile"@,
            ),
        ),
    ]
        + (if active || row_label(session, state, active) == "Running"@ || row_label(session, state, active) == "Stopping"@ {
            seq![
                button_item(
                    if needs_force(state) { "Force Stop"@ } else { "Stop Instance"@ },
                    if needs_force(state) {
                        ActionView::At(Command::ForceStopSession, index)
                    } else {
                        ActionView::At(Command::StopSession, index)
                    },
                    true,
                    if needs_force(state) {
                        "Immediately terminate an application that did not stop gracefully"@
                    } else {
                        "Ask the application to exit gracefully"@
                    },
                ),
            ]
        } else {
            Seq::<ItemView>::empty()
        })
        + seq![
            menu_item(
                seq![
                    "…"@,
                    "Duplicate Profile"@,
                    "Export Profile"@,
                    "View Raw Configuration"@,
                    "Delete Profile"@,
                ],
                0,
                ActionView::At(Command::ProfileMenu, index),
                true,
                "More profile actions"@,
            ),
        ]
}

pub fn session_row_buttons(
    items: &mut Vec<Item>,
    session: &ContainerSession,
    index: usize,
    state: Option<&SessionState>,
    active: bool,
)
    ensures
        final(items).deep_view() == old(items).deep_view() + session_row_buttons_items(
            session.deep_view(),
            index,
            state.deep_view(),
            active,
        ),
{
    let primary = if active {
        Primary::Open
    } else {
        primary_action(session, state, session_is_launch_busy(state))
    };
    let word = row_label_text(session, state, active);
    let force = force_is_needed(state);
    button(
        items,
        primary_title_text(primary, state),
        Action::At(primary_command_of(primary), index),
        primary != Primary::Busy && primary != Primary::Blocked,
        primary_tooltip(primary, "This application is starting or stopping", "Launch an application instance from this saved profile"),
    );
    if active || same(word, "Running") || same(word, "Stopping") {
        let word = if force {
            "Force Stop"
        } else {
            "Stop Instance"
        };
        let word2 = if force {
            "Immediately terminate an application that did not stop gracefully"
        } else {
            "Ask the application to exit gracefully"
        };
        let action = if force {
            Action::At(Command::ForceStopSession, index)
        } else {
            Action::At(Command::StopSession, index)
        };
        button(items, word, action, true, word2);
    }
    let options = texts5(
        "…",
        "Duplicate Profile",
        "Export Profile",
        "View Raw Configuration",
        "Delete Profile",
    );
    menu(items, options, 0, Action::At(Command::ProfileMenu, index), true, "More profile actions");
}

/// A profile in the list.
pub open spec fn session_row_items(
    session: SessionView,
    index: usize,
    selected: bool,
    state: Option<SessionStateView>,
    active: bool,
) -> Seq<ItemView> {
    session_summary_items(session, index, selected, state, active)
        + session_row_buttons_items(session, index, state, active)
}

pub fn add_session_row(
    items: &mut Vec<Item>,
    session: &ContainerSession,
    index: usize,
    selected: bool,
    state: Option<&SessionState>,
    active: bool,
)
    ensures
        final(items).deep_view() == old(items).deep_view() + session_row_items(
            session.deep_view(),
            index,
            selected,
            state.deep_view(),
            active,
        ),
{
    session_summary(items, session, index, selected, state, active);
    session_row_buttons(items, session, index, state, active);
}

/// The profiles that are shown, from the first so many: all of them, or those
/// that run.
pub open spec fn session_rows_items(
    sessions: Seq<SessionView>,
    mode: ModeView,
    running_only: bool,
    selected: Option<usize>,
    count: nat,
) -> Seq<ItemView>
    decreases count,
{
    if count == 0 {
        Seq::empty()
    } else {
        let index = (count - 1) as usize;
        let active = active_of(mode.active_sessions, index) is Some;
        session_rows_items(sessions, mode, running_only, selected, (count - 1) as nat) + (if active
            || !running_only {
            session_row_items(
                sessions[index as int],
                index,
                selected == Some(index),
                state_of(mode.states, index),
                active,
            )
        } else {
            Seq::<ItemView>::empty()
        })
    }
}

pub fn session_rows(
    items: &mut Vec<Item>,
    sessions: &Vec<ContainerSession>,
    mode: &ContainerMode,
    running_only: bool,
    selected: Option<usize>,
)
    ensures
        final(items).deep_view() == old(items).deep_view() + session_rows_items(
            sessions.deep_view(),
            mode.deep_view(),
            running_only,
            selected,
            sessions@.len(),
        ),
{
    let ghost before = items.deep_view();
    let ghost all = sessions.deep_view();
    for i in 0..sessions.len()
        invariant
            all == sessions.deep_view(),
            items.deep_view() == before + session_rows_items(
                all,
                mode.deep_view(),
                running_only,
                selected,
                i as nat,
            ),
    {
        assert(all[i as int] == sessions@[i as int].deep_view());
        let active = mode.active_session(i).is_some();
        if active || !running_only {
            let picked = match selected {
                Some(index) => index == i,
                None => false,
            };
            add_session_row(items, &sessions[i], i, picked, mode.session_state(i), active);
        }
    }
}

// ---------------------------------------------------------------------------
// The head of a profile
// ---------------------------------------------------------------------------
/// A profile and what can be done with it.
pub open spec fn session_head_items(
    session: SessionView,
    index: usize,
    state: Option<SessionStateView>,
    active: bool,
) -> Seq<ItemView> {
    seq![
        label_item(TextStyle::Title, session.name),
        label_item(
            TextStyle::Body,
            shown_runtime(session.runtime) + " application backed by "@ + session.image,
        ),
        button_item(
            "Run Health Check"@,
            ActionView::At(Command::CheckSession, index),
            true,
            "Validate the profile, runtime, image, command, and transport without launching"@,
        ),
        button_item(
            primary_title(primary_of(session, state, active || can_stop(state)), state),
            ActionView::At(
                primary_command(primary_of(session, state, active || can_stop(state))),
                index,
            ),
            primary_enabled(primary_of(session, state, active || can_stop(state))),
            primary_note(
                primary_of(session, state, active || can_stop(state)),
                "This application already has an active instance. Stop it before launching again."@,
                "Launch this application"@,
            ),
        ),
        button_item(
            if needs_force(state) { "Force Stop"@ } else { "Stop"@ },
            if needs_force(state) {
                ActionView::At(Command::ForceStopSession, index)
            } else {
                ActionView::At(Command::StopSession, index)
            },
            active || can_stop(state),
            if needs_force(state) {
                "Immediately terminate the application after graceful stop timed out"@
            } else {
                "Ask the running application instance to exit gracefully"@
            },
        ),
    ]
}

pub fn session_head(
    items: &mut Vec<Item>,
    session: &ContainerSession,
    index: usize,
    state: Option<&SessionState>,
    active: bool,
)
    ensures
        final(items).deep_view() == old(items).deep_view() + session_head_items(
            session.deep_view(),
            index,
            state.deep_view(),
            active,
        ),
{
    let busy = active || session_is_launch_busy(state);
    let primary = primary_action(session, state, busy);
    let force = force_is_needed(state);
    label(items, TextStyle::Title, session.name.as_str());
    let text = concat3(
        runtime_label(session.runtime.as_str()),
        " application backed by ",
        session.image.as_str(),
    );
    label(items, TextStyle::Body, text.as_str());
    button(
        items,
        "Run Health Check",
        Action::At(Command::CheckSession, index),
        true,
        "Validate the profile, runtime, image, command, and transport without launching",
    );
    button(
        items,
        primary_title_text(primary, state),
        Action::At(primary_command_of(primary), index),
        primary != Primary::Busy && primary != Primary::Blocked,
        primary_tooltip(primary, "This application already has an active instance. Stop it before launching again.", "Launch this application"),
    );
    let word = if force {
        "Force Stop"
    } else {
        "Stop"
    };
    let word2 = if force {
        "Immediately terminate the application after graceful stop timed out"
    } else {
        "Ask the running application instance to exit gracefully"
    };
    let action = if force {
        Action::At(Command::ForceStopSession, index)
    } else {
        Action::At(Command::StopSession, index)
    };
    button(items, word, action, active || session_can_stop(state), word2);
}

/// What can be done with what is saved of a profile.
pub open spec fn session_profile_actions_items(
    session: SessionView,
    index: usize,
    state: Option<SessionStateView>,
    active: bool,
) -> Seq<ItemView> {
    seq![
        button_item(
            "Edit Profile"@,
            ActionView::At(Command::EditSession, index),
            true,
            "Edit this saved application profile. Running instances are not changed until their next launch."@,
        ),
        menu_item(
            seq![
                "More…"@,
                "Duplicate Profile"@,
                "Export Profile"@,
                "View Raw Configuration"@,
                "Delete Profile"@,
            ],
            0,
            ActionView::At(Command::ProfileMenu, index),
            true,
            if active || can_stop(state) {
                "Duplicate, export, or inspect this profile. Stop the running instance before deleting it."@
            } else {
                "Duplicate, export, inspect, or delete this saved application profile"@
            },
        ),
        menu_item(
            seq!["Desktop compositor"@, "Rootless Wayland apps"@],
            if presentation_of(session.presentation) is Rootless { 1usize } else { 0usize },
            ActionView::At(Command::ChangePresentation, index),
            !active,
            "Use desktop for a compositor such as niri/Hyprland, or rootless for native Wayland applications such as foot"@,
        ),
    ]
}

pub fn session_profile_actions(
    items: &mut Vec<Item>,
    session: &ContainerSession,
    index: usize,
    state: Option<&SessionState>,
    active: bool,
)
    ensures
        final(items).deep_view() == old(items).deep_view() + session_profile_actions_items(
            session.deep_view(),
            index,
            state.deep_view(),
            active,
        ),
{
    let busy = active || session_is_launch_busy(state);
    button(
        items,
        "Edit Profile",
        Action::At(Command::EditSession, index),
        true,
        "Edit this saved application profile. Running instances are not changed until their next launch.",
    );
    let options = texts5(
        "More…",
        "Duplicate Profile",
        "Export Profile",
        "View Raw Configuration",
        "Delete Profile",
    );
    let word = if busy {
        "Duplicate, export, or inspect this profile. Stop the running instance before deleting it."
    } else {
        "Duplicate, export, inspect, or delete this saved application profile"
    };
    menu(items, options, 0, Action::At(Command::ProfileMenu, index), true, word);
    let options = texts2("Desktop compositor", "Rootless Wayland apps");
    let selected: usize = if session.presentation_mode().is_rootless() { 1 } else { 0 };
    menu(
        items,
        options,
        selected,
        Action::At(Command::ChangePresentation, index),
        !active,
        "Use desktop for a compositor such as niri/Hyprland, or rootless for native Wayland applications such as foot",
    );
}

// ---------------------------------------------------------------------------
// What is known of a profile
// ---------------------------------------------------------------------------
/// How the instance of a profile is doing.
pub open spec fn instance_status_of(active: bool, state: Option<SessionStateView>) -> Seq<char> {
    if active {
        instance_label(InstanceStatus::Running)
    } else {
        match state {
            Some(state) => match state.instance {
                Some(status) => instance_label(status),
                None => "Not running"@,
            },
            None => "Not running"@,
        }
    }
}

fn instance_status_text(active: bool, state: Option<&SessionState>) -> (result: &'static str)
    ensures
        result@ == instance_status_of(active, state.deep_view()),
{
    if active {
        InstanceStatus::Running.label()
    } else {
        match state {
            Some(state) => match state.instance {
                Some(status) => status.label(),
                None => "Not running",
            },
            None => "Not running",
        }
    }
}

pub open spec fn profile_status_of(state: Option<SessionStateView>) -> Seq<char> {
    match state {
        Some(state) => profile_label(state.profile),
        None => "Checking"@,
    }
}

fn profile_status_text(state: Option<&SessionState>) -> (result: &'static str)
    ensures
        result@ == profile_status_of(state.deep_view()),
{
    match state {
        Some(state) => state.profile.label(),
        None => "Checking",
    }
}

/// The value of an option of a runtime, or that there is none.
pub open spec fn limit_of(arguments: Seq<Seq<char>>, flag: Seq<char>) -> Seq<char> {
    match flag_value(arguments, flag) {
        Some(value) => value,
        None => "Runtime default"@,
    }
}

fn limit_text(arguments: &Vec<String>, flag: &str) -> (result: String)
    ensures
        result@ == limit_of(arguments.deep_view(), flag@),
{
    match runtime_arg_value(arguments, flag) {
        Some(value) => value,
        None => "Runtime default".to_owned(),
    }
}

/// What a profile is.
pub open spec fn overview_rows_items(
    session: SessionView,
    state: Option<SessionStateView>,
    active: bool,
) -> Seq<ItemView> {
    seq![
        card_item(false),
        label_item(TextStyle::Heading, "Overview"@),
        row_item("Profile status"@, profile_status_of(state)),
        row_item("Instance status"@, instance_status_of(active, state)),
        row_item("Runtime"@, shown_runtime(session.runtime)),
        row_item("Presentation"@, presentation_summary(session)),
        row_item("Image"@, session.image),
        row_item("Command"@, command_of(session)),
        row_item("Display policy"@, display_summary(session)),
    ]
}

pub fn overview_rows(
    items: &mut Vec<Item>,
    session: &ContainerSession,
    state: Option<&SessionState>,
    active: bool,
)
    ensures
        final(items).deep_view() == old(items).deep_view() + overview_rows_items(
            session.deep_view(),
            state.deep_view(),
            active,
        ),
{
    card(items, false);
    label(items, TextStyle::Heading, "Overview");
    row(items, "Profile status", profile_status_text(state));
    row(items, "Instance status", instance_status_text(active, state));
    row(items, "Runtime", runtime_label(session.runtime.as_str()));
    row(items, "Presentation", session_presentation_summary(session));
    row(items, "Image", session.image.as_str());
    let command = session_display_command(session);
    row(items, "Command", command.as_str());
    let display = session_display_summary(session);
    row(items, "Display policy", display.as_str());
}

/// How a profile is set up.
pub open spec fn configuration_rows_items(session: SessionView) -> Seq<ItemView> {
    seq![
        card_item(false),
        label_item(TextStyle::Heading, "Configuration"@),
        row_item("Waypipe"@, waypipe_summary(session)),
        row_item("CPU"@, limit_of(session.runtime_args, "--cpus"@)),
        row_item("Memory"@, limit_of(session.runtime_args, "--memory"@)),
        row_item("Shared memory"@, limit_of(session.runtime_args, "--shm-size"@)),
        row_item("Audio"@, if session.audio { "48 kHz stereo playback"@ } else { "Off"@ }),
        row_item("Mounts"@, counted(session.mounts.len(), "mount"@)),
        row_item("Environment"@, counted(session.env.len(), "variable"@)),
    ]
        + (if session.runtime_args.len() > 0 {
            seq![
                card_item(false),
                label_item(TextStyle::Heading, "Runtime Arguments"@),
                noted_item(
                    TextStyle::Mono,
                    joined(argument_lines(session.runtime_args), "\n"@),
                    joined(argument_lines(session.runtime_args), "\n"@),
                ),
            ]
        } else {
            Seq::<ItemView>::empty()
        })
}

pub fn configuration_rows(items: &mut Vec<Item>, session: &ContainerSession)
    ensures
        final(items).deep_view() == old(items).deep_view() + configuration_rows_items(
            session.deep_view(),
        ),
{
    assert(session.mounts.deep_view().len() == session.mounts@.len());
    assert(session.env.deep_view().len() == session.env@.len());
    assert(session.runtime_args.deep_view().len() == session.runtime_args@.len());
    card(items, false);
    label(items, TextStyle::Heading, "Configuration");
    let waypipe = session_waypipe_summary(session);
    row(items, "Waypipe", waypipe.as_str());
    let limit = limit_text(&session.runtime_args, "--cpus");
    row(items, "CPU", limit.as_str());
    let limit = limit_text(&session.runtime_args, "--memory");
    row(items, "Memory", limit.as_str());
    let limit = limit_text(&session.runtime_args, "--shm-size");
    row(items, "Shared memory", limit.as_str());
    let word = if session.audio {
        "48 kHz stereo playback"
    } else {
        "Off"
    };
    row(items, "Audio", word);
    let count = format_count(session.mounts.len(), "mount");
    row(items, "Mounts", count.as_str());
    let count = format_count(session.env.len(), "variable");
    row(items, "Environment", count.as_str());
    if session.runtime_args.len() > 0 {
        card(items, false);
        label(items, TextStyle::Heading, "Runtime Arguments");
        let arguments = format_runtime_arguments(&session.runtime_args);
        noted(items, TextStyle::Mono, arguments.as_str(), arguments.as_str());
    }
}

/// What runs of a profile, or what the next launch does.
pub open spec fn instance_rows_items(
    session: SessionView,
    active: Option<ActiveView>,
    now: u128,
) -> Seq<ItemView> {
    seq![card_item(false), label_item(TextStyle::Heading, "Running Instances"@)]
        + (match active {
            Some(instance) => seq![
                row_item("Instance"@, "#"@ + decimal(instance.id as nat)),
                row_item("Status"@, instance_label(InstanceStatus::Running)),
                row_item("Started"@, ago(elapsed(now, instance.started_at_unix_ms))),
                row_item("Container"@, container_name_of(session.name)),
                row_item("Display"@, instance.display_slot),
            ],
            None => seq![
                row_item("Status"@, "No running instances"@),
                row_item(
                    "Next launch"@,
                    "Uses the "@ + display_target(session) + " display policy"@,
                ),
            ],
        })
}

pub fn instance_rows(
    items: &mut Vec<Item>,
    session: &ContainerSession,
    active: Option<&ActiveSessionSnapshot>,
    now: u128,
)
    ensures
        final(items).deep_view() == old(items).deep_view() + instance_rows_items(
            session.deep_view(),
            active.deep_view(),
            now,
        ),
{
    card(items, false);
    label(items, TextStyle::Heading, "Running Instances");
    match active {
        Some(instance) => {
            let number = decimal_text(instance.id as u128);
            let text = concat("#", number.as_str());
            row(items, "Instance", text.as_str());
            row(items, "Status", InstanceStatus::Running.label());
            let started = elapsed_time_label(now, instance.started_at_unix_ms);
            row(items, "Started", started.as_str());
            let name = container_name(session);
            row(items, "Container", name.as_str());
            row(items, "Display", instance.display_slot.as_str());
        },
        None => {
            row(items, "Status", "No running instances");
            let target = session_display_target(session);
            let text = concat3("Uses the ", target.as_str(), " display policy");
            row(items, "Next launch", text.as_str());
        },
    }
}

/// What is said of the health of a profile.
pub open spec fn health_detail(session: SessionView, state: Option<SessionStateView>, active: bool) -> Seq<
    char,
> {
    if active {
        "Application process and Waypipe worker are tracked by Cocoa-Way."@
    } else {
        match state {
            Some(state) => state.detail,
            None => if is_blocked(session) {
                blocked_detail(session)
            } else {
                "Run Health Check to validate this application before launch."@
            },
        }
    }
}

fn health_text(session: &ContainerSession, state: Option<&SessionState>, active: bool) -> (result:
    String)
    ensures
        result@ == health_detail(session.deep_view(), state.deep_view(), active),
{
    if active {
        "Application process and Waypipe worker are tracked by Cocoa-Way.".to_owned()
    } else {
        match state {
            Some(state) => state.detail.clone(),
            None => if session_has_apple_transport_block(session) {
                apple_transport_blocked_detail(session)
            } else {
                "Run Health Check to validate this application before launch.".to_owned()
            },
        }
    }
}

/// The word for the health of a profile.
pub open spec fn health_word(state: Option<SessionStateView>) -> Seq<char> {
    match state {
        Some(state) => state_label(state),
        None => "Not checked"@,
    }
}

fn health_word_text(state: Option<&SessionState>) -> (result: &'static str)
    ensures
        result@ == health_word(state.deep_view()),
{
    match state {
        Some(state) => session_state_label(state),
        None => "Not checked",
    }
}

/// The step at which a launch went wrong.
pub open spec fn failed_step_of(state: Option<SessionStateView>) -> Option<LaunchStep> {
    match state {
        Some(state) => state.failed_step,
        None => None,
    }
}

fn failed_step(state: Option<&SessionState>) -> (result: Option<LaunchStep>)
    ensures
        result == failed_step_of(state.deep_view()),
{
    match state {
        Some(state) => state.failed_step,
        None => None,
    }
}

/// The process of a container, if it has one here.
pub open spec fn container_process(pid: Option<u32>) -> Seq<char> {
    match pid {
        Some(pid) => decimal(pid as nat),
        None => "managed by runtime"@,
    }
}

fn container_process_text(pid: Option<u32>) -> (result: String)
    ensures
        result@ == container_process(pid),
{
    match pid {
        Some(pid) => decimal_text(pid as u128),
        None => "managed by runtime".to_owned(),
    }
}

/// How a profile is doing.
pub open spec fn diagnostic_rows_items(
    session: SessionView,
    index: usize,
    state: Option<SessionStateView>,
    active: Option<ActiveView>,
) -> Seq<ItemView> {
    seq![
        card_item(false),
        label_item(TextStyle::Heading, "Diagnostics"@),
        row_item("Health"@, health_word(state)),
        row_item("Detail"@, health_detail(session, state, active is Some)),
    ]
        + (match failed_step_of(state) {
            Some(step) => seq![row_item("Failed step"@, launch_step_label(step))],
            None => Seq::<ItemView>::empty(),
        })
        + (match active {
            Some(instance) => seq![
                row_item(
                    "Processes"@,
                    "container "@ + container_process(instance.container_pid) + "; waypipe "@
                        + decimal(instance.waypipe_pid as nat),
                ),
            ],
            None => Seq::<ItemView>::empty(),
        })
        + seq![
            card_item(false),
            button_item("View Logs"@, ActionView::At(Command::SelectTab, 1), true, ""@),
            button_item("Raw Config"@, ActionView::At(Command::ViewRawConfig, index), true, ""@),
        ]
}

pub fn diagnostic_rows(
    items: &mut Vec<Item>,
    session: &ContainerSession,
    index: usize,
    state: Option<&SessionState>,
    active: Option<&ActiveSessionSnapshot>,
)
    ensures
        final(items).deep_view() == old(items).deep_view() + diagnostic_rows_items(
            session.deep_view(),
            index,
            state.deep_view(),
            active.deep_view(),
        ),
{
    card(items, false);
    label(items, TextStyle::Heading, "Diagnostics");
    row(items, "Health", health_word_text(state));
    let detail = health_text(session, state, active.is_some());
    row(items, "Detail", detail.as_str());
    if let Some(step) = failed_step(state) {
        row(items, "Failed step", step.label());
    }
    if let Some(instance) = active {
        let process = container_process_text(instance.container_pid);
        let number = decimal_text(instance.waypipe_pid as u128);
        let text = concat4("container ", process.as_str(), "; waypipe ", number.as_str());
        row(items, "Processes", text.as_str());
    }
    card(items, false);
    button(items, "View Logs", Action::At(Command::SelectTab, 1), true, "");
    button(items, "Raw Config", Action::At(Command::ViewRawConfig, index), true, "");
}

// ---------------------------------------------------------------------------
// What went wrong or goes on
// ---------------------------------------------------------------------------
pub open spec fn step_word(status: TaskStepStatus) -> Seq<char> {
    match status {
        TaskStepStatus::Pending => "Pending"@,
        TaskStepStatus::Running => "In progress"@,
        TaskStepStatus::Completed => "Done"@,
        TaskStepStatus::Failed => "Failed"@,
    }
}

fn step_word_text(status: TaskStepStatus) -> (result: &'static str)
    ensures
        result@ == step_word(status),
{
    match status {
        TaskStepStatus::Pending => "Pending",
        TaskStepStatus::Running => "In progress",
        TaskStepStatus::Completed => "Done",
        TaskStepStatus::Failed => "Failed",
    }
}

pub open spec fn task_detail(task: TaskView) -> Seq<char> {
    match task.detail {
        Some(detail) => detail,
        None => "Operation in progress"@,
    }
}

fn task_detail_text(task: &OperationTask) -> (result: String)
    ensures
        result@ == task_detail(task.deep_view()),
{
    match &task.detail {
        Some(detail) => detail.clone(),
        None => "Operation in progress".to_owned(),
    }
}

/// A step of a task and how far it is.
pub open spec fn step_line_items(step: TaskStepView) -> Seq<ItemView> {
    seq![
        label_item(TextStyle::Caption, step_word(step.status)),
        label_item(TextStyle::Body, step.name),
    ]
}

pub fn step_line(items: &mut Vec<Item>, step: &TaskStep)
    ensures
        final(items).deep_view() == old(items).deep_view() + step_line_items(step.deep_view()),
{
    label(items, TextStyle::Caption, step_word_text(step.status));
    label(items, TextStyle::Body, step.name.as_str());
}

/// The steps of a task.
pub open spec fn step_lines_items(steps: Seq<TaskStepView>) -> Seq<ItemView>
    decreases steps.len(),
{
    if steps.len() == 0 {
        Seq::empty()
    } else {
        step_lines_items(steps.drop_last()) + step_line_items(steps.last())
    }
}

pub fn step_lines(items: &mut Vec<Item>, steps: &Vec<TaskStep>)
    ensures
        final(items).deep_view() == old(items).deep_view() + step_lines_items(
            steps.deep_view(),
        ),
{
    let ghost before = items.deep_view();
    let ghost all = steps.deep_view();
    assert(step_lines_items(all.take(0)) == Seq::<ItemView>::empty());
    for i in 0..steps.len()
        invariant
            all == steps.deep_view(),
            items.deep_view() == before + step_lines_items(all.take(i as int)),
    {
        step_line(items, &steps[i]);
        assert(all.take(i + 1).drop_last() == all.take(i as int));
        assert(all.take(i + 1).last() == steps@[i as int].deep_view());
    }
    assert(all.take(all.len() as int) == all);
}

/// A launch that goes on or went wrong.
pub open spec fn application_task_card_items(task: TaskView) -> Seq<ItemView> {
    seq![
        card_item(false),
        label_item(TextStyle::Heading, task.operation),
        label_item(TextStyle::Caption, task_status_label(task.status)),
        fitted_item(TextStyle::Caption, task_detail(task)),
    ] + step_lines_items(task.steps)
        + (if task.status == TaskStatus::Failed {
            seq![
                button_item(
                    "View Details"@,
                    ActionView::At(Command::SelectTab, 1),
                    true,
                    "Open captured launch logs for this failure"@,
                ),
            ]
        } else {
            Seq::<ItemView>::empty()
        })
}

pub fn add_application_task_card(items: &mut Vec<Item>, task: &OperationTask)
    ensures
        final(items).deep_view() == old(items).deep_view() + application_task_card_items(
            task.deep_view(),
        ),
{
    card(items, false);
    label(items, TextStyle::Heading, task.operation.as_str());
    label(items, TextStyle::Caption, task.status.label());
    let detail = task_detail_text(task);
    fitted(items, TextStyle::Caption, detail.as_str());
    step_lines(items, &task.steps);
    if task.status == TaskStatus::Failed {
        button(
            items,
            "View Details",
            Action::At(Command::SelectTab, 1),
            true,
            "Open captured launch logs for this failure",
        );
    }
}

/// A reason on one line, and not too long.
pub open spec fn compacted(detail: Seq<char>) -> Seq<char> {
    shortened(joined(words_of(detail), " "@), 120)
}

pub fn compact_detail(value: &str) -> (result: String)
    ensures
        result@ == compacted(value@),
{
    let words = split_whitespace(value);
    let normalized = join(&words, " ");
    short_text(normalized.as_str(), 120)
}

pub open spec fn error_title(state: SessionStateView) -> Seq<char> {
    match state.failed_step {
        Some(step) => launch_step_label(step) + " failed"@,
        None => "Application validation failed"@,
    }
}

fn error_title_text(state: &SessionState) -> (result: String)
    ensures
        result@ == error_title(state.deep_view()),
{
    match state.failed_step {
        Some(step) => concat(step.label(), " failed"),
        None => "Application validation failed".to_owned(),
    }
}

/// Why a profile cannot be launched.
pub open spec fn application_error_card_items(
    index: usize,
    known: SessionStateView,
) -> Seq<ItemView> {
    seq![
        card_item(false),
        label_item(TextStyle::Heading, error_title(known)),
        noted_item(TextStyle::Caption, compacted(known.detail), known.detail),
        button_item("Retry Check"@, ActionView::At(Command::CheckSession, index), true, ""@),
        button_item("View Details"@, ActionView::At(Command::SelectTab, 1), true, ""@),
        button_item(
            "Copy Diagnostics"@,
            ActionView::At(Command::CopyDiagnostics, index),
            true,
            "Copy profile, state, display, and recent logs"@,
        ),
    ]
}

pub fn add_application_error_card(items: &mut Vec<Item>, index: usize, known: &SessionState)
    ensures
        final(items).deep_view() == old(items).deep_view() + application_error_card_items(
            index,
            known.deep_view(),
        ),
{
    card(items, false);
    let title = error_title_text(known);
    label(items, TextStyle::Heading, title.as_str());
    let detail = compact_detail(known.detail.as_str());
    noted(items, TextStyle::Caption, detail.as_str(), known.detail.as_str());
    button(items, "Retry Check", Action::At(Command::CheckSession, index), true, "");
    button(items, "View Details", Action::At(Command::SelectTab, 1), true, "");
    button(
        items,
        "Copy Diagnostics",
        Action::At(Command::CopyDiagnostics, index),
        true,
        "Copy profile, state, display, and recent logs",
    );
}

/// How to come by an image that is not there.
pub open spec fn missing_image_card_items(index: usize, session: SessionView) -> Seq<ItemView> {
    seq![
        card_item(false),
        label_item(
            TextStyle::Heading,
            if is_local_image(session.image) { "Local image missing"@ } else { "Missing image"@ },
        ),
        label_item(
            TextStyle::Caption,
            if is_local_image(session.image) {
                "'"@ + shortened(session.image, 48)
                    + "' is a local tag. Build/export OCI, then load it."@
            } else {
                "'"@ + shortened(session.image, 54) + "' is not in Apple Container yet."@
            },
        ),
    ]
        + (if is_local_image(session.image) && is_example_image(session.image) {
            seq![
                button_item(
                    "Build"@,
                    ActionView::At(Command::BuildSessionImage, index),
                    true,
                    "Build the bundled example image with Apple Container"@,
                ),
            ]
        } else {
            Seq::<ItemView>::empty()
        })
        + (if !is_local_image(session.image) {
            seq![
                button_item(
                    "Pull Image"@,
                    ActionView::At(Command::PullSessionImage, index),
                    true,
                    "Pull the application image with Apple Container"@,
                ),
            ]
        } else {
            Seq::<ItemView>::empty()
        })
        + seq![
            button_item(
                "Load OCI"@,
                ActionView::At(Command::LoadSessionImage, index),
                true,
                "Load an OCI archive into Apple Container"@,
            ),
        ]
        + (if is_local_image(session.image) && is_example_image(session.image) {
            seq![
                button_item(
                    "Copy Build Cmd"@,
                    ActionView::Do(Command::CopyBuildCommand),
                    true,
                    "Copy an Apple Container build command for the bundled example image"@,
                ),
            ]
        } else {
            Seq::<ItemView>::empty()
        })
}

pub fn add_missing_image_card(items: &mut Vec<Item>, index: usize, session: &ContainerSession)
    ensures
        final(items).deep_view() == old(items).deep_view() + missing_image_card_items(
            index,
            session.deep_view(),
        ),
{
    let local = is_local_image_reference(session.image.as_str());
    let example = is_smoke_image_reference(session.image.as_str());
    card(items, false);
    let word = if local {
        "Local image missing"
    } else {
        "Missing image"
    };
    label(items, TextStyle::Heading, word);
    let word = if local {
        let short = short_text(session.image.as_str(), 48);
        let text = concat3("'", short.as_str(), "' is a local tag. Build/export OCI, then load it.");
        text
    } else {
        let short = short_text(session.image.as_str(), 54);
        let text = concat3("'", short.as_str(), "' is not in Apple Container yet.");
        text
    };
    label(items, TextStyle::Caption, word.as_str());
    if local && example {
        button(
            items,
            "Build",
            Action::At(Command::BuildSessionImage, index),
            true,
            "Build the bundled example image with Apple Container",
        );
    }
    if !local {
        button(
            items,
            "Pull Image",
            Action::At(Command::PullSessionImage, index),
            true,
            "Pull the application image with Apple Container",
        );
    }
    button(
        items,
        "Load OCI",
        Action::At(Command::LoadSessionImage, index),
        true,
        "Load an OCI archive into Apple Container",
    );
    if local && example {
        button(
            items,
            "Copy Build Cmd",
            Action::Do(Command::CopyBuildCommand),
            true,
            "Copy an Apple Container build command for the bundled example image",
        );
    }
}

/// How to start Apple Container.
pub open spec fn apple_container_stopped_card_items() -> Seq<ItemView> {
    seq![
        card_item(false),
        label_item(TextStyle::Heading, "Apple Container is stopped"@),
        label_item(TextStyle::Caption, "Start the Apple Container system, then run Check again."@),
        button_item(
            "Start System"@,
            ActionView::Do(Command::StartAppleSystem),
            true,
            "Run `container system start`"@,
        ),
    ]
}

pub fn add_apple_container_stopped_card(items: &mut Vec<Item>)
    ensures
        final(items).deep_view() == old(items).deep_view() + apple_container_stopped_card_items(),
{
    card(items, false);
    label(items, TextStyle::Heading, "Apple Container is stopped");
    label(items, TextStyle::Caption, "Start the Apple Container system, then run Check again.");
    button(
        items,
        "Start System",
        Action::Do(Command::StartAppleSystem),
        true,
        "Run `container system start`",
    );
}

/// Why windows cannot be shown.
pub open spec fn apple_container_transport_card_items() -> Seq<ItemView> {
    seq![
        card_item(false),
        label_item(TextStyle::Heading, "GUI relay unavailable"@),
        label_item(
            TextStyle::Caption,
            "Apple Container GUI launch needs Transport V2 or the stdio compatibility relay."@,
        ),
        label_item(
            TextStyle::Caption,
            "Run Check, then inspect Logs if Launch cannot start the relay."@,
        ),
    ]
}

pub fn add_apple_container_transport_card(items: &mut Vec<Item>)
    ensures
        final(items).deep_view() == old(items).deep_view() + apple_container_transport_card_items(
        ),
{
    card(items, false);
    label(items, TextStyle::Heading, "GUI relay unavailable");
    label(
        items,
        TextStyle::Caption,
        "Apple Container GUI launch needs Transport V2 or the stdio compatibility relay.",
    );
    label(
        items,
        TextStyle::Caption,
        "Run Check, then inspect Logs if Launch cannot start the relay.",
    );
}

/// What is said of the display of a profile: a title, how it is shown, and what
/// becomes of the display.
pub open spec fn display_note(session: SessionView, active: Option<ActiveView>) -> (
    Seq<char>,
    Seq<char>,
    Seq<char>,
) {
    let requested = display_target(session);
    if presentation_of(session.presentation) is Rootless {
        (
            "Rootless Wayland apps"@,
            "Each native Wayland app toplevel is mapped to its own macOS window."@,
            if active is Some {
                "An isolated compositor worker owns this application until it is stopped."@
            } else {
                "Launch creates an isolated worker without occupying the desktop display."@
            },
        )
    } else if let Some(instance) = active {
        if instance.display_slot == "default"@ {
            (
                "Default display"@,
                "This session is using the current Cocoa-Way display window."@,
                "Stop it to release the default display for another auto session."@,
            )
        } else {
            (
                "Dedicated display: "@ + instance.display_slot,
                "This session owns an independent Metal window and Wayland socket."@,
                "Stopping the session also closes and cleans up its display worker."@,
            )
        }
    } else if requested == "auto"@ {
        (
            "Automatic display"@,
            "Auto uses the default Cocoa-Way window when it is available."@,
            "If it is occupied, Cocoa-Way creates a dedicated display automatically."@,
        )
    } else if requested == "default"@ {
        (
            "Default display"@,
            "This profile always targets the current Cocoa-Way display window."@,
            "Launch is blocked while another session owns the default display."@,
        )
    } else {
        (
            "Dedicated display: "@ + requested,
            "This profile launches in an independent Cocoa-Way display window."@,
            "The named display is recreated on launch and cleaned up on stop."@,
        )
    }
}

fn display_note_texts(session: &ContainerSession, active: Option<&ActiveSessionSnapshot>) -> (result: (
    String,
    &'static str,
    &'static str,
))
    ensures
        (result.0@, result.1@, result.2@) == display_note(session.deep_view(), active.deep_view()),
{
    if session.presentation_mode().is_rootless() {
        return (
            "Rootless Wayland apps".to_owned(),
            "Each native Wayland app toplevel is mapped to its own macOS window.",
            if active.is_some() {
                "An isolated compositor worker owns this application until it is stopped."
            } else {
                "Launch creates an isolated worker without occupying the desktop display."
            },
        );
    }
    if let Some(instance) = active {
        if same(instance.display_slot.as_str(), "default") {
            return (
                "Default display".to_owned(),
                "This session is using the current Cocoa-Way display window.",
                "Stop it to release the default display for another auto session.",
            );
        }
        return (
            concat("Dedicated display: ", instance.display_slot.as_str()),
            "This session owns an independent Metal window and Wayland socket.",
            "Stopping the session also closes and cleans up its display worker.",
        );
    }
    let requested = session_display_target(session);
    if same(requested.as_str(), "auto") {
        (
            "Automatic display".to_owned(),
            "Auto uses the default Cocoa-Way window when it is available.",
            "If it is occupied, Cocoa-Way creates a dedicated display automatically.",
        )
    } else if same(requested.as_str(), "default") {
        (
            "Default display".to_owned(),
            "This profile always targets the current Cocoa-Way display window.",
            "Launch is blocked while another session owns the default display.",
        )
    } else {
        (
            concat("Dedicated display: ", requested.as_str()),
            "This profile launches in an independent Cocoa-Way display window.",
            "The named display is recreated on launch and cleaned up on stop.",
        )
    }
}

/// On which display a profile is shown.
pub open spec fn display_note_card_items(
    session: SessionView,
    active: Option<ActiveView>,
) -> Seq<ItemView> {
    seq![card_item(false)]
        + (match active {
            Some(instance) => seq![
                live_item(
                    TextStyle::Heading,
                    display_note(session, active).0,
                    instance.display_slot,
                ),
            ],
            None => seq![label_item(TextStyle::Heading, display_note(session, active).0)],
        })
        + seq![
            label_item(TextStyle::Caption, display_note(session, active).1),
            label_item(TextStyle::Caption, display_note(session, active).2),
        ]
}

pub fn add_display_note_card(
    items: &mut Vec<Item>,
    session: &ContainerSession,
    active: Option<&ActiveSessionSnapshot>,
)
    ensures
        final(items).deep_view() == old(items).deep_view() + display_note_card_items(
            session.deep_view(),
            active.deep_view(),
        ),
{
    let (title, detail, behavior) = display_note_texts(session, active);
    card(items, false);
    match active {
        Some(instance) => {
            live(items, TextStyle::Heading, title.as_str(), instance.display_slot.as_str());
        },
        None => {
            label(items, TextStyle::Heading, title.as_str());
        },
    }
    label(items, TextStyle::Caption, detail);
    label(items, TextStyle::Caption, behavior);
}

/// The launch of a profile that goes on or went wrong.
pub open spec fn open_launch(mode: ModeView, index: usize) -> Option<TaskView> {
    let place = latest_place(mode.tasks, launch_key(index));
    if place >= 0 && mode.tasks[place].status != TaskStatus::Completed {
        Some(mode.tasks[place])
    } else {
        None
    }
}

fn open_launch_task(mode: &ContainerMode, index: usize) -> (result: Option<OperationTask>)
    ensures
        result.deep_view() == open_launch(mode.deep_view(), index),
{
    let key = launch_task_key(index);
    match mode.tasks.latest_operation_task(key.as_str()) {
        Some(task) => if task.status != TaskStatus::Completed {
            Some(task)
        } else {
            None
        },
        None => None,
    }
}

/// What has to be said of a failure, if there is one.
pub open spec fn failure_of(state: Option<SessionStateView>) -> Option<SessionStateView> {
    match state {
        Some(known) => if known.profile == ProfileStatus::Invalid || known.instance == Some(
            InstanceStatus::Failed,
        ) {
            Some(known)
        } else {
            None
        },
        None => None,
    }
}

fn failed_state(state: Option<&SessionState>) -> (result: Option<&SessionState>)
    ensures
        result.deep_view() == failure_of(state.deep_view()),
{
    match state {
        Some(known) => {
            let failed = match known.instance {
                Some(instance) => instance == InstanceStatus::Failed,
                None => false,
            };
            if known.profile == ProfileStatus::Invalid || failed {
                Some(known)
            } else {
                None
            }
        },
        None => None,
    }
}

/// What goes on or went wrong with a profile.
pub open spec fn session_trouble_items(
    mode: ModeView,
    index: usize,
    state: Option<SessionStateView>,
) -> Seq<ItemView> {
    match open_launch(mode, index) {
        Some(task) => application_task_card_items(task),
        None => (match failure_of(state) {
            Some(known) => application_error_card_items(index, known),
            None => Seq::<ItemView>::empty(),
        }),
    }
}

pub fn session_trouble(
    items: &mut Vec<Item>,
    mode: &ContainerMode,
    index: usize,
    state: Option<&SessionState>,
)
    ensures
        final(items).deep_view() == old(items).deep_view() + session_trouble_items(
            mode.deep_view(),
            index,
            state.deep_view(),
        ),
{
    let launch = open_launch_task(mode, index);
    match &launch {
        Some(task) => {
            add_application_task_card(items, task);
        },
        None => {
            if let Some(known) = failed_state(state) {
                add_application_error_card(items, index, known);
            }
        },
    }
}

/// What helps a profile on its way.
pub open spec fn session_help_items(
    index: usize,
    session: SessionView,
    state: Option<SessionStateView>,
    active: Option<ActiveView>,
) -> Seq<ItemView> {
    if lacks_image(state) {
        missing_image_card_items(index, session)
    } else {
        (if lacks_system(state) {
            apple_container_stopped_card_items()
        } else {
            (if is_blocked(session) {
                apple_container_transport_card_items()
            } else {
                display_note_card_items(session, active)
            })
        })
    }
}

pub fn session_help(
    items: &mut Vec<Item>,
    index: usize,
    session: &ContainerSession,
    state: Option<&SessionState>,
    active: Option<&ActiveSessionSnapshot>,
)
    ensures
        final(items).deep_view() == old(items).deep_view() + session_help_items(
            index,
            session.deep_view(),
            state.deep_view(),
            active.deep_view(),
        ),
{
    if is_missing_image_state(state) {
        add_missing_image_card(items, index, session);
    } else {
        if is_apple_container_stopped_state(state) {
            add_apple_container_stopped_card(items);
        } else {
            if session_has_apple_transport_block(session) {
                add_apple_container_transport_card(items);
            } else {
                add_display_note_card(items, session, active);
            }
        }
    }
}

/// All that is known of a profile.
pub open spec fn session_info_items(
    mode: ModeView,
    session: SessionView,
    index: usize,
    now: u128,
) -> Seq<ItemView> {
    overview_rows_items(
        session,
        state_of(mode.states, index),
        active_of(mode.active_sessions, index) is Some,
    ) + configuration_rows_items(session)
        + instance_rows_items(session, active_of(mode.active_sessions, index), now)
        + diagnostic_rows_items(
            session,
            index,
            state_of(mode.states, index),
            active_of(mode.active_sessions, index),
        ) + session_trouble_items(mode, index, state_of(mode.states, index))
        + session_help_items(
            index,
            session,
            state_of(mode.states, index),
            active_of(mode.active_sessions, index),
        )
}

pub fn add_session_info(
    items: &mut Vec<Item>,
    mode: &ContainerMode,
    session: &ContainerSession,
    index: usize,
    now: u128,
)
    ensures
        final(items).deep_view() == old(items).deep_view() + session_info_items(
            mode.deep_view(),
            session.deep_view(),
            index,
            now,
        ),
{
    let state = mode.session_state(index);
    let active = mode.active_session(index);
    overview_rows(items, session, state, active.is_some());
    configuration_rows(items, session);
    instance_rows(items, session, active, now);
    diagnostic_rows(items, session, index, state, active);
    session_trouble(items, mode, index, state);
    session_help(items, index, session, state, active);
}

// ---------------------------------------------------------------------------
// The other tabs
// ---------------------------------------------------------------------------
/// What an application has written, or what is known instead.
pub open spec fn session_logs_items(
    mode: ModeView,
    session: SessionView,
    index: usize,
) -> Seq<ItemView> {
    seq![
        card_item(false),
        label_item(TextStyle::Heading, "Launch Logs"@),
        label_item(
            TextStyle::Body,
            "Live stdout/stderr from the container runtime and waypipe client is captured for this app session."@,
        ),
    ]
        + (if log_of(mode.logs, index).len() == 0 {
            (match state_of(mode.states, index) {
                    Some(known) => seq![label_item(TextStyle::Caption, known.detail)],
                    None => seq![
                        label_item(
                            TextStyle::Caption,
                            "No process output captured for '"@ + session.name + "'."@,
                        ),
                    ],
                })
        } else {
            seq![lines_item(log_of(mode.logs, index), 8)]
        })
}

pub fn add_session_logs(
    items: &mut Vec<Item>,
    mode: &ContainerMode,
    session: &ContainerSession,
    index: usize,
)
    ensures
        final(items).deep_view() == old(items).deep_view() + session_logs_items(
            mode.deep_view(),
            session.deep_view(),
            index,
        ),
{
    card(items, false);
    label(items, TextStyle::Heading, "Launch Logs");
    label(
        items,
        TextStyle::Body,
        "Live stdout/stderr from the container runtime and waypipe client is captured for this app session.",
    );
    let lines = mode.logs.session_logs(index);
    assert(lines.deep_view().len() == lines@.len());
    if lines.len() == 0 {
        match mode.session_state(index) {
            Some(known) => {
                label(items, TextStyle::Caption, known.detail.as_str());
            },
            None => {
                let text = concat3("No process output captured for '", session.name.as_str(), "'.");
                label(items, TextStyle::Caption, text.as_str());
            },
        }
    } else {
        wrapped_lines(items, lines, 8);
    }
}

/// How to look into the container of an application.
pub open spec fn session_terminal_items(
    index: usize,
    session: SessionView,
    active: bool,
) -> Seq<ItemView> {
    seq![
        card_item(false),
        label_item(TextStyle::Heading, "Terminal Bridge"@),
        label_item(
            TextStyle::Body,
            "Open a macOS Terminal shell inside the running GUI container. Launch the session first, then attach here."@,
        ),
        label_item(
            TextStyle::Caption,
            "Target runtime: "@ + shown_runtime(session.runtime) + "    container: "@
                + container_name_of(session.name),
        ),
        label_item(TextStyle::Mono, terminal_command_of(session)),
        button_item(
            "Open Shell"@,
            ActionView::At(Command::OpenTerminal, index),
            active,
            if active {
                "Open macOS Terminal and attach to this running GUI container"@
            } else {
                "Launch this application before opening a shell"@
            },
        ),
    ]
}

pub fn add_session_terminal(
    items: &mut Vec<Item>,
    index: usize,
    session: &ContainerSession,
    active: bool,
)
    ensures
        final(items).deep_view() == old(items).deep_view() + session_terminal_items(
            index,
            session.deep_view(),
            active,
        ),
{
    card(items, false);
    label(items, TextStyle::Heading, "Terminal Bridge");
    label(
        items,
        TextStyle::Body,
        "Open a macOS Terminal shell inside the running GUI container. Launch the session first, then attach here.",
    );
    let name = container_name(session);
    let text = concat4(
        "Target runtime: ",
        runtime_label(session.runtime.as_str()),
        "    container: ",
        name.as_str(),
    );
    label(items, TextStyle::Caption, text.as_str());
    let command = terminal_command(session);
    label(items, TextStyle::Mono, command.as_str());
    let word = if active {
        "Open macOS Terminal and attach to this running GUI container"
    } else {
        "Launch this application before opening a shell"
    };
    button(items, "Open Shell", Action::At(Command::OpenTerminal, index), active, word);
}

/// The directories that a container shares.
pub open spec fn session_files_items(session: SessionView) -> Seq<ItemView> {
    seq![card_item(false), label_item(TextStyle::Heading, "Shared Files"@)]
        + (if session.mounts.len() == 0 {
            seq![
                label_item(
                    TextStyle::Body,
                    "Declare mounts in container-sessions.toml to share project folders with this application."@,
                ),
                label_item(
                    TextStyle::Caption,
                    "No file mounts are declared for '"@ + session.name + "'."@,
                ),
            ]
        } else {
            seq![
                label_item(
                    TextStyle::Body,
                    "Mounted folders are passed to the container runtime at launch."@,
                ),
            ] + mono_lines_items(first_of(session.mounts, 3))
        })
}

pub fn add_session_files(items: &mut Vec<Item>, session: &ContainerSession)
    ensures
        final(items).deep_view() == old(items).deep_view() + session_files_items(
            session.deep_view(),
        ),
{
    assert(session.mounts.deep_view().len() == session.mounts@.len());
    card(items, false);
    label(items, TextStyle::Heading, "Shared Files");
    if session.mounts.len() == 0 {
        label(
            items,
            TextStyle::Body,
            "Declare mounts in container-sessions.toml to share project folders with this application.",
        );
        let text = concat3("No file mounts are declared for '", session.name.as_str(), "'.");
        label(items, TextStyle::Caption, text.as_str());
    } else {
        label(items, TextStyle::Body, "Mounted folders are passed to the container runtime at launch.");
        mono_lines(items, &session.mounts, 3);
    }
}

/// A profile with the tab that is shown.
pub open spec fn session_detail_items(
    mode: ModeView,
    session: SessionView,
    index: usize,
    tab: usize,
    now: u128,
) -> Seq<ItemView> {
    session_head_items(
        session,
        index,
        state_of(mode.states, index),
        active_of(mode.active_sessions, index) is Some,
    )
        + session_profile_actions_items(
            session,
            index,
            state_of(mode.states, index),
            active_of(mode.active_sessions, index) is Some,
        )
        + (if tab == 1 {
            session_logs_items(mode, session, index)
        } else {
            (if tab == 2 {
                    session_terminal_items(
                        index,
                        session,
                        active_of(mode.active_sessions, index) is Some,
                    )
                } else {
                    (if tab == 3 {
                        session_files_items(session)
                    } else {
                        session_info_items(mode, session, index, now)
                    })
                })
        })
}

pub fn add_session_detail(
    items: &mut Vec<Item>,
    mode: &ContainerMode,
    session: &ContainerSession,
    index: usize,
    tab: usize,
    now: u128,
)
    ensures
        final(items).deep_view() == old(items).deep_view() + session_detail_items(
            mode.deep_view(),
            session.deep_view(),
            index,
            tab,
            now,
        ),
{
    let state = mode.session_state(index);
    let active = mode.active_session(index).is_some();
    session_head(items, session, index, state, active);
    session_profile_actions(items, session, index, state, active);
    if tab == 1 {
        add_session_logs(items, mode, session, index);
    } else {
        if tab == 2 {
            add_session_terminal(items, index, session, active);
        } else {
            if tab == 3 {
                add_session_files(items, session);
            } else {
                add_session_info(items, mode, session, index, now);
            }
        }
    }
}

} // verus!
