//! What the container window does when the user asks for something.
use vstd::prelude::*;
use vstd::string::*;

use crate::activity::{log_cleared, log_of};
use crate::application_model::{launch_step_label, DisplayStatus, LaunchStep};
use crate::container_mode::{
    active_of, can_stop, launch_key, launch_task_key, name_at, note, one_effect,
    profile_invalidated, session_can_stop, session_name, session_selected, session_state_label,
    state_label, state_of, state_set, stop_key, stop_task_key, task_started, two_effects,
    ActiveSessionSnapshot, ActiveView, ContainerMode, Effect, EffectView, ManagedDisplaySnapshot,
    ManagedView, ModeView, SelectedImage, SelectedRuntimeContainer, SelectedVolume,
};
use crate::container_sessions::{command_of, slug_of, ContainerSession, SessionView};
use crate::profiles::{
    display_slot_slug, display_summary, display_target, example_image, find_smoke_session,
    image_place, page_of, presentation_summary, runtime_label, runtime_nav,
    session_display_command, session_display_summary, session_display_target,
    session_presentation_summary, shown_runtime, copy_name, unique_duplicate_name,
    NAV_IMAGES, NAV_RUNNING, NAV_SESSIONS, NAV_VOLUMES,
};
use crate::runtime_paths::{quoted, shell_single_quote};
use crate::tasks::last_of;
use crate::text::{
    concat, concat3, concat4, concat6, concat7, count_text, decimal, decimal_text, empty_list,
    has_text, join, joined, push_deep, push_text, same, texts4,
};

verus! {

// ---------------------------------------------------------------------------
// Which display is taken
// ---------------------------------------------------------------------------
/// Whether another application is on the default display.
pub open spec fn default_taken(active: Seq<ActiveView>, index: usize) -> bool {
    exists|i: int|
        0 <= i < active.len() && (#[trigger] active[i]).profile_index != index
            && active[i].display_slot == "default"@
}

/// The display on which an application would be launched.
pub open spec fn launch_slot(session: SessionView, default_taken: bool) -> Seq<char> {
    let target = display_target(session);
    if target == "default"@ || (target == "auto"@ && !default_taken) {
        "default"@
    } else if target == "auto"@ || target == "dedicated"@ {
        "session-"@ + slug_of(session.name, "display"@)
    } else {
        slug_of(target, "display"@)
    }
}

/// The first instance of another application on a display.
pub open spec fn holder(active: Seq<ActiveView>, index: usize, slot: Seq<char>) -> Option<ActiveView>
    decreases active.len(),
{
    if active.len() == 0 {
        None
    } else if active.first().profile_index != index && active.first().display_slot == slot {
        Some(active.first())
    } else {
        holder(active.drop_first(), index, slot)
    }
}

/// The name of the application that has the display on which another would be
/// launched.
pub open spec fn conflict_of(
    sessions: Seq<SessionView>,
    active: Seq<ActiveView>,
    index: usize,
) -> Option<Seq<char>> {
    if index < sessions.len() {
        let slot = launch_slot(sessions[index as int], default_taken(active, index));
        match holder(active, index, slot) {
            Some(other) => if other.profile_index < sessions.len() {
                Some(sessions[other.profile_index as int].name)
            } else {
                None
            },
            None => None,
        }
    } else {
        None
    }
}

pub fn active_display_conflict(
    mode: &ContainerMode,
    sessions: &Vec<ContainerSession>,
    index: usize,
) -> (result: Option<String>)
    ensures
        result.deep_view() == conflict_of(
            sessions.deep_view(),
            mode.deep_view().active_sessions,
            index,
        ),
{
    if index >= sessions.len() {
        return None;
    }
    let ghost all = mode.active_sessions.deep_view();
    let mut taken = false;
    for i in 0..mode.active_sessions.len()
        invariant
            all == mode.active_sessions.deep_view(),
            taken == (exists|j: int|
                0 <= j < i && (#[trigger] all[j]).profile_index != index && all[j].display_slot
                    == "default"@),
    {
        assert(all[i as int] == mode.active_sessions@[i as int].deep_view());
        if mode.active_sessions[i].profile_index != index && same(
            mode.active_sessions[i].display_slot.as_str(),
            "default",
        ) {
            taken = true;
        }
    }
    assert(taken == default_taken(all, index));
    let target = session_display_target(&sessions[index]);
    assert(sessions.deep_view()[index as int] == sessions@[index as int].deep_view());
    let slot = if same(target.as_str(), "default") || (same(target.as_str(), "auto") && !taken) {
        "default".to_owned()
    } else if same(target.as_str(), "auto") || same(target.as_str(), "dedicated") {
        let slug = display_slot_slug(sessions[index].name.as_str());
        concat("session-", slug.as_str())
    } else {
        display_slot_slug(target.as_str())
    };
    assert(slot@ == launch_slot(sessions@[index as int].deep_view(), taken));
    assert(all.skip(0) == all);
    for i in 0..mode.active_sessions.len()
        invariant
            index < sessions@.len(),
            all == mode.active_sessions.deep_view(),
            slot@ == launch_slot(
                sessions.deep_view()[index as int],
                default_taken(all, index),
            ),
            holder(all, index, slot@) == holder(all.skip(i as int), index, slot@),
    {
        assert(all.skip(i as int).drop_first() == all.skip(i + 1));
        assert(all.skip(i as int).first() == mode.active_sessions@[i as int].deep_view());
        let active = &mode.active_sessions[i];
        if active.profile_index != index && same(active.display_slot.as_str(), slot.as_str()) {
            return if active.profile_index < sessions.len() {
                Some(sessions[active.profile_index].name.clone())
            } else {
                None
            };
        }
    }
    None
}

pub proof fn lemma_holder(active: Seq<ActiveView>, index: usize, slot: Seq<char>)
    ensures
        match holder(active, index, slot) {
            Some(other) => active.contains(other) && other.profile_index != index
                && other.display_slot == slot,
            None => forall|i: int|
                0 <= i < active.len() ==> (#[trigger] active[i]).profile_index == index
                    || active[i].display_slot != slot,
        },
    decreases active.len(),
{
    if active.len() > 0 {
        let rest = active.drop_first();
        lemma_holder(rest, index, slot);
        assert(active[0] == active.first());
        assert forall|i: int| 0 < i < active.len() implies #[trigger] active[i] == rest[i - 1] by {}
        if active.first().profile_index == index || active.first().display_slot != slot {
            match holder(rest, index, slot) {
                Some(other) => {
                    let i = choose|i: int| 0 <= i < rest.len() && rest[i] == other;
                    assert(active[i + 1] == other);
                },
                None => {},
            }
        }
    }
}

/// Two applications are never let onto one display: where no conflict is found,
/// and every instance is of a profile that is there, no other application has
/// the display on which this one would be launched.
pub proof fn law_no_conflict_means_free(
    sessions: Seq<SessionView>,
    active: Seq<ActiveView>,
    index: usize,
    i: int,
)
    requires
        index < sessions.len(),
        forall|j: int|
            0 <= j < active.len() ==> (#[trigger] active[j]).profile_index < sessions.len(),
        conflict_of(sessions, active, index) is None,
        0 <= i < active.len(),
        active[i].profile_index != index,
    ensures
        active[i].display_slot != launch_slot(
            sessions[index as int],
            default_taken(active, index),
        ),
{
    let slot = launch_slot(sessions[index as int], default_taken(active, index));
    lemma_holder(active, index, slot);
}

/// An application that asks for any display is never refused the default one
/// while it is free.
pub proof fn law_automatic_takes_free_default(
    sessions: Seq<SessionView>,
    active: Seq<ActiveView>,
    index: usize,
)
    requires
        index < sessions.len(),
        display_target(sessions[index as int]) == "auto"@,
        !default_taken(active, index),
    ensures
        launch_slot(sessions[index as int], default_taken(active, index)) == "default"@,
        conflict_of(sessions, active, index) is None,
{
    lemma_holder(active, index, "default"@);
}

// ---------------------------------------------------------------------------
// Launching and stopping
// ---------------------------------------------------------------------------
/// The names of the steps of a launch.
pub open spec fn launch_steps() -> Seq<Seq<char>> {
    seq![
        launch_step_label(LaunchStep::ValidateProfile),
        launch_step_label(LaunchStep::CreateContainer),
        launch_step_label(LaunchStep::StartWaypipe),
        launch_step_label(LaunchStep::StartCommand),
    ]
}

/// What a request to launch changes.
pub open spec fn launch_remembered(
    mode: ModeView,
    sessions: Seq<SessionView>,
    index: usize,
    now: u128,
) -> ModeView {
    if index < sessions.len() {
        let session = sessions[index as int];
        let cleared = ModeView { logs: log_cleared(mode.logs, index), ..mode };
        let begun = task_started(
            cleared,
            launch_key(index),
            "Launch application"@,
            session.name,
            launch_steps(),
            now,
        );
        let starting = state_set(
            begun,
            index,
            "Starting"@,
            "Launching "@ + session.name + " through "@ + shown_runtime(session.runtime)
                + " with command: "@ + command_of(session),
        );
        note(
            starting,
            now,
            "Launch requested: "@ + session.name + " via "@ + shown_runtime(session.runtime)
                + " ("@ + command_of(session) + ")"@,
        )
    } else {
        note(
            mode,
            now,
            "Launch requested for missing application profile #"@ + decimal((index + 1) as nat),
        )
    }
}

pub fn remember_launch_request(
    mode: &mut ContainerMode,
    sessions: &Vec<ContainerSession>,
    index: usize,
    now: u128,
)
    requires
        old(mode).well_formed(),
        index < usize::MAX,
    ensures
        final(mode).well_formed(),
        final(mode).deep_view() == launch_remembered(
            old(mode).deep_view(),
            sessions.deep_view(),
            index,
            now,
        ),
{
    if index < sessions.len() {
        let session = &sessions[index];
        assert(sessions.deep_view()[index as int] == session.deep_view());
        mode.clear_log(index);
        let key = launch_task_key(index);
        let steps = texts4(
            LaunchStep::ValidateProfile.label(),
            LaunchStep::CreateContainer.label(),
            LaunchStep::StartWaypipe.label(),
            LaunchStep::StartCommand.label(),
        );
        mode.start_task(key.as_str(), "Launch application", session.name.as_str(), &steps, now);
        let runtime = runtime_label(session.runtime.as_str());
        let command = session_display_command(session);
        let detail = concat6(
            "Launching ",
            session.name.as_str(),
            " through ",
            runtime,
            " with command: ",
            command.as_str(),
        );
        mode.set_session_state(index, "Starting", detail.as_str());
        let message = concat7(
            "Launch requested: ",
            session.name.as_str(),
            " via ",
            runtime,
            " (",
            command.as_str(),
            ")",
        );
        mode.push_activity(now, message.as_str());
    } else {
        let number = count_text(index + 1);
        let message = concat(
            "Launch requested for missing application profile #",
            number.as_str(),
        );
        mode.push_activity(now, message.as_str());
    }
}

/// What a request to stop changes.
pub open spec fn stop_remembered(
    mode: ModeView,
    sessions: Seq<SessionView>,
    index: usize,
    now: u128,
) -> ModeView {
    if index < sessions.len() {
        let name = sessions[index as int].name;
        let begun = task_started(
            mode,
            stop_key(index),
            "Stop instance"@,
            name,
            seq![
                "Ask application to exit"@,
                "Stop application process"@,
                "Stop Waypipe worker"@,
                "Release display"@,
                "Stop container"@,
                "Mark instance exited"@,
            ],
            now,
        );
        note(
            state_set(begun, index, "Stopping"@, "Stopping "@ + name + "."@),
            now,
            "Stop requested: "@ + name,
        )
    } else {
        note(
            mode,
            now,
            "Stop requested for missing application profile #"@ + decimal((index + 1) as nat),
        )
    }
}

pub fn remember_stop_request(
    mode: &mut ContainerMode,
    sessions: &Vec<ContainerSession>,
    index: usize,
    now: u128,
)
    requires
        old(mode).well_formed(),
        index < usize::MAX,
    ensures
        final(mode).well_formed(),
        final(mode).deep_view() == stop_remembered(
            old(mode).deep_view(),
            sessions.deep_view(),
            index,
            now,
        ),
{
    if index < sessions.len() {
        let name = sessions[index].name.as_str();
        assert(sessions.deep_view()[index as int].name == name@);
        let key = stop_task_key(index);
        let mut steps: Vec<String> = empty_list();
        push_text(&mut steps, "Ask application to exit");
        push_text(&mut steps, "Stop application process");
        push_text(&mut steps, "Stop Waypipe worker");
        push_text(&mut steps, "Release display");
        push_text(&mut steps, "Stop container");
        push_text(&mut steps, "Mark instance exited");
        assert(steps.deep_view() == seq![
            "Ask application to exit"@,
            "Stop application process"@,
            "Stop Waypipe worker"@,
            "Release display"@,
            "Stop container"@,
            "Mark instance exited"@,
        ]);
        mode.start_task(key.as_str(), "Stop instance", name, &steps, now);
        let detail = concat3("Stopping ", name, ".");
        mode.set_session_state(index, "Stopping", detail.as_str());
        let message = concat("Stop requested: ", name);
        mode.push_activity(now, message.as_str());
    } else {
        let number = count_text(index + 1);
        let message = concat(
            "Stop requested for missing application profile #",
            number.as_str(),
        );
        mode.push_activity(now, message.as_str());
    }
}

pub open spec fn conflict_message(other: Seq<char>) -> Seq<char> {
    "Default display is already used by '"@ + other
        + "'. Stop that session before launching another one."@
}

/// The user launches an application. It is refused where another has its
/// display.
pub fn launch_container_session(
    mode: &mut ContainerMode,
    sessions: &Vec<ContainerSession>,
    index: usize,
    now: u128,
) -> (result: Vec<Effect>)
    requires
        old(mode).well_formed(),
        index < usize::MAX,
    ensures
        final(mode).well_formed(),
        match conflict_of(sessions.deep_view(), old(mode).deep_view().active_sessions, index) {
            Some(other) => {
                let message = conflict_message(other);
                &&& final(mode).deep_view() == session_selected(
                    note(
                        state_set(old(mode).deep_view(), index, "Blocked"@, message),
                        now,
                        "Launch blocked: "@ + message,
                    ),
                    index,
                )
                &&& result.deep_view() == seq![EffectView::Alert(message), EffectView::Rebuild]
            },
            None => {
                &&& final(mode).deep_view() == session_selected(
                    launch_remembered(old(mode).deep_view(), sessions.deep_view(), index, now),
                    index,
                )
                &&& result.deep_view() == seq![
                    EffectView::StartSession(index),
                    EffectView::Rebuild,
                ]
            },
        },
{
    if let Some(other) = active_display_conflict(mode, sessions, index) {
        let message = concat3(
            "Default display is already used by '",
            other.as_str(),
            "'. Stop that session before launching another one.",
        );
        mode.set_session_state(index, "Blocked", message.as_str());
        let told = concat("Launch blocked: ", message.as_str());
        mode.push_activity(now, told.as_str());
        mode.select_session(index);
        return two_effects(Effect::Alert(message), Effect::Rebuild);
    }
    remember_launch_request(mode, sessions, index, now);
    mode.select_session(index);
    two_effects(Effect::StartSession(index), Effect::Rebuild)
}

/// The user checks a profile.
pub fn check_container_session(
    mode: &mut ContainerMode,
    index: usize,
    now: u128,
) -> (result: Vec<Effect>)
    requires
        old(mode).well_formed(),
        index < usize::MAX,
    ensures
        final(mode).well_formed(),
        final(mode).deep_view() == ({
            let mode = old(mode).deep_view();
            let checking = state_set(
                session_selected(mode, index),
                index,
                "Checking"@,
                "Running launch preflight checks."@,
            );
            note(checking, now, "Check requested for session #"@ + decimal((index + 1) as nat))
        }),
        result.deep_view() == seq![EffectView::CheckSession(index), EffectView::Rebuild],
{
    mode.select_session(index);
    mode.set_session_state(index, "Checking", "Running launch preflight checks.");
    let number = count_text(index + 1);
    let message = concat("Check requested for session #", number.as_str());
    mode.push_activity(now, message.as_str());
    two_effects(Effect::CheckSession(index), Effect::Rebuild)
}

/// The user stops an application; one that does not run is left alone.
pub fn stop_container_session(
    mode: &mut ContainerMode,
    sessions: &Vec<ContainerSession>,
    index: usize,
    now: u128,
) -> (result: Vec<Effect>)
    requires
        old(mode).well_formed(),
        index < usize::MAX,
    ensures
        final(mode).well_formed(),
        if can_stop(state_of(old(mode).deep_view().states, index)) {
            &&& final(mode).deep_view() == session_selected(
                stop_remembered(old(mode).deep_view(), sessions.deep_view(), index, now),
                index,
            )
            &&& result.deep_view() == seq![EffectView::StopSession(index), EffectView::Rebuild]
        } else {
            let name = name_at(
                sessions.deep_view(),
                index,
                "session #"@ + decimal((index + 1) as nat),
            );
            &&& final(mode).deep_view() == session_selected(
                note(old(mode).deep_view(), now, "Stop ignored: "@ + name + " is not running."@),
                index,
            )
            &&& result.deep_view() == seq![EffectView::Rebuild]
        },
{
    if !session_can_stop(mode.session_state(index)) {
        let number = count_text(index + 1);
        let other = concat("session #", number.as_str());
        let name = session_name(sessions, index, other.as_str());
        let message = concat3("Stop ignored: ", name.as_str(), " is not running.");
        mode.push_activity(now, message.as_str());
        mode.select_session(index);
        return one_effect(Effect::Rebuild);
    }
    remember_stop_request(mode, sessions, index, now);
    mode.select_session(index);
    two_effects(Effect::StopSession(index), Effect::Rebuild)
}

/// The user takes an application off its display, which stops it.
pub fn release_display_attachment(
    mode: &mut ContainerMode,
    sessions: &Vec<ContainerSession>,
    index: usize,
    now: u128,
) -> (result: Vec<Effect>)
    requires
        old(mode).well_formed(),
        index < usize::MAX,
    ensures
        final(mode).well_formed(),
        if can_stop(state_of(old(mode).deep_view().states, index)) {
            &&& final(mode).deep_view() == stop_remembered(
                old(mode).deep_view(),
                sessions.deep_view(),
                index,
                now,
            )
            &&& result.deep_view() == seq![EffectView::StopSession(index), EffectView::Rebuild]
        } else {
            &&& final(mode).deep_view() == note(
                old(mode).deep_view(),
                now,
                "Display release ignored: application #"@ + decimal((index + 1) as nat)
                    + " is not running."@,
            )
            &&& result.deep_view() == seq![EffectView::Rebuild]
        },
{
    if !session_can_stop(mode.session_state(index)) {
        let number = count_text(index + 1);
        let message = concat3(
            "Display release ignored: application #",
            number.as_str(),
            " is not running.",
        );
        mode.push_activity(now, message.as_str());
        return one_effect(Effect::Rebuild);
    }
    remember_stop_request(mode, sessions, index, now);
    two_effects(Effect::StopSession(index), Effect::Rebuild)
}

/// The user ends an application that does not end by itself.
pub fn force_stop_container_session(
    mode: &mut ContainerMode,
    index: usize,
    now: u128,
) -> (result: Vec<Effect>)
    requires
        old(mode).well_formed(),
        index < usize::MAX,
    ensures
        final(mode).well_formed(),
        final(mode).deep_view() == ({
            let mode = old(mode).deep_view();
            note(mode, now, "Force Stop requested for application #"@ + decimal((index + 1) as nat))
        }),
        result.deep_view() == seq![EffectView::ForceStopSession(index), EffectView::Rebuild],
{
    let number = count_text(index + 1);
    let message = concat("Force Stop requested for application #", number.as_str());
    mode.push_activity(now, message.as_str());
    two_effects(Effect::ForceStopSession(index), Effect::Rebuild)
}

/// The user opens a terminal of an application.
pub fn open_container_terminal(
    mode: &mut ContainerMode,
    index: usize,
    now: u128,
) -> (result: Vec<Effect>)
    requires
        old(mode).well_formed(),
        index < usize::MAX,
    ensures
        final(mode).well_formed(),
        final(mode).deep_view() == ({
            let mode = old(mode).deep_view();
            note(
                ModeView { selected_tab: 2, ..session_selected(mode, index) },
                now,
                "Terminal requested for session #"@ + decimal((index + 1) as nat),
            )
        }),
        result.deep_view() == seq![EffectView::OpenTerminal(index), EffectView::Rebuild],
{
    mode.select_session(index);
    mode.selected_tab = 2;
    let number = count_text(index + 1);
    let message = concat("Terminal requested for session #", number.as_str());
    mode.push_activity(now, message.as_str());
    two_effects(Effect::OpenTerminal(index), Effect::Rebuild)
}

// ---------------------------------------------------------------------------
// Checks that nobody asked for
// ---------------------------------------------------------------------------
/// The profiles, from the first some number of them, that are to be checked:
/// those of which nothing is known and whose check was not asked for yet.
pub open spec fn unchecked(mode: ModeView, count: nat) -> Seq<usize>
    decreases count,
{
    if count == 0 {
        Seq::empty()
    } else {
        let index = (count - 1) as usize;
        let before = unchecked(mode, (count - 1) as nat);
        if state_of(mode.states, index) is None && !mode.validation_requested.contains(index) {
            before.push(index)
        } else {
            before
        }
    }
}

fn holds_number(numbers: &Vec<usize>, number: usize) -> (result: bool)
    ensures
        result == numbers@.contains(number),
{
    for i in 0..numbers.len()
        invariant
            forall|j: int| 0 <= j < i ==> numbers@[j] != number,
    {
        if numbers[i] == number {
            assert(numbers@[i as int] == number);
            return true;
        }
    }
    false
}

proof fn lemma_unchecked_below(mode: ModeView, count: nat)
    requires
        count <= usize::MAX,
    ensures
        forall|i: int| 0 <= i < unchecked(mode, count).len() ==> #[trigger] unchecked(mode, count)[i]
            < count,
    decreases count,
{
    if count > 0 {
        lemma_unchecked_below(mode, (count - 1) as nat);
        let before = unchecked(mode, (count - 1) as nat);
        assert forall|i: int| 0 <= i < unchecked(mode, count).len() implies #[trigger] unchecked(
            mode,
            count,
        )[i] < count by {
            if i < before.len() {
                assert(before[i] < count - 1);
            }
        }
    }
}

/// Asks for the checks of profiles of which nothing is known, each once.
pub fn schedule_automatic_profile_validation(mode: &mut ContainerMode, session_count: usize) -> (
    result: Vec<Effect>)
    requires
        old(mode).well_formed(),
    ensures
        final(mode).well_formed(),
        ({
            let wanted = unchecked(old(mode).deep_view(), session_count as nat);
            &&& final(mode).deep_view() == (ModeView {
                validation_requested: old(mode).deep_view().validation_requested + wanted,
                ..old(mode).deep_view()
            })
            &&& result.deep_view() == wanted.map_values(
                |index: usize| EffectView::CheckSession(index),
            )
        }),
{
    let ghost before = mode.deep_view();
    let mut effects: Vec<Effect> = empty_list();
    assert(unchecked(before, 0).map_values(|index: usize| EffectView::CheckSession(index)) == Seq::<
        EffectView,
    >::empty());
    assert(mode.deep_view().validation_requested == before.validation_requested + unchecked(
        before,
        0,
    ));
    for index in 0..session_count
        invariant
            mode.well_formed(),
            mode.deep_view() == (ModeView {
                validation_requested: before.validation_requested + unchecked(
                    before,
                    index as nat,
                ),
                ..before
            }),
            effects.deep_view() == unchecked(before, index as nat).map_values(
                |index: usize| EffectView::CheckSession(index),
            ),
    {
        proof {
            lemma_unchecked_below(before, index as nat);
        }
        let ghost asked = unchecked(before, index as nat);
        let requested = holds_number(&mode.validation_requested, index);
        assert(requested == before.validation_requested.contains(index)) by {
            let all = before.validation_requested + asked;
            if before.validation_requested.contains(index) {
                let i = choose|i: int|
                    0 <= i < before.validation_requested.len() && before.validation_requested[i]
                        == index;
                assert(all[i] == index);
            }
            if all.contains(index) {
                let i = choose|i: int| 0 <= i < all.len() && all[i] == index;
                if i >= before.validation_requested.len() {
                    assert(asked[i - before.validation_requested.len()] == index);
                }
                assert(before.validation_requested[i] == index);
            }
        }
        if mode.session_state(index).is_none() && !requested {
            mode.validation_requested.push(index);
            push_deep(&mut effects, Effect::CheckSession(index));
            assert(mode.validation_requested@ == before.validation_requested + asked.push(index));
            assert(effects.deep_view() == asked.push(index).map_values(
                |index: usize| EffectView::CheckSession(index),
            ));
        }
    }
    effects
}

// ---------------------------------------------------------------------------
// Selections
// ---------------------------------------------------------------------------
/// The profile that is shown on a page: the one that is picked, where the page
/// shows profiles and has it.
pub open spec fn shown_session(mode: ModeView, session_count: usize, nav: usize) -> Option<usize> {
    match mode.selected_session {
        Some(index) if (nav == NAV_SESSIONS || nav == NAV_RUNNING) && index < session_count && (nav
            != NAV_RUNNING || active_of(mode.active_sessions, index) is Some) => Some(index),
        _ => None,
    }
}

/// The profile that is shown. One that is picked and cannot be shown on a page
/// of profiles is picked no longer.
pub fn selected_session_index(
    mode: &mut ContainerMode,
    session_count: usize,
    selected_nav: usize,
) -> (result: Option<usize>)
    requires
        old(mode).well_formed(),
    ensures
        final(mode).well_formed(),
        result == shown_session(old(mode).deep_view(), session_count, selected_nav),
        final(mode).deep_view() == (if selected_nav == NAV_SESSIONS || selected_nav == NAV_RUNNING {
            ModeView { selected_session: result, ..old(mode).deep_view() }
        } else {
            old(mode).deep_view()
        }),
{
    if selected_nav != NAV_SESSIONS && selected_nav != NAV_RUNNING {
        return None;
    }
    if let Some(index) = mode.selected_session {
        if index < session_count && (selected_nav != NAV_RUNNING || mode.active_session(
            index,
        ).is_some()) {
            return Some(index);
        }
    }
    mode.selected_session = None;
    None
}

/// The user goes to a page. What was picked on another page is picked no
/// longer.
pub fn select_container_nav(mode: &mut ContainerMode, selected: usize) -> (result: Vec<Effect>)
    requires
        old(mode).well_formed(),
    ensures
        final(mode).well_formed(),
        final(mode).deep_view() == ({
            let mode = old(mode).deep_view();
            let keep = match mode.selected_container {
                Some(container) => page_of(container.runtime) == selected,
                None => false,
            };
            ModeView {
                selected_nav: selected,
                selected_session: if selected == NAV_SESSIONS || selected == NAV_RUNNING {
                    mode.selected_session
                } else {
                    None
                },
                selected_image: if selected == NAV_IMAGES {
                    mode.selected_image
                } else {
                    None
                },
                selected_volume: if selected == NAV_VOLUMES {
                    mode.selected_volume
                } else {
                    None
                },
                selected_container: if keep {
                    mode.selected_container
                } else {
                    None
                },
                container_details: if keep {
                    mode.container_details
                } else {
                    None
                },
                ..mode
            }
        }),
        result.deep_view() == seq![EffectView::Rebuild],
{
    mode.selected_nav = selected;
    if selected != NAV_SESSIONS && selected != NAV_RUNNING {
        mode.selected_session = None;
    }
    if selected != NAV_IMAGES {
        mode.selected_image = None;
    }
    if selected != NAV_VOLUMES {
        mode.selected_volume = None;
    }
    let keep = match &mode.selected_container {
        Some(container) => runtime_nav(container.runtime.as_str()) == selected,
        None => false,
    };
    if !keep {
        mode.selected_container = None;
        mode.container_details = None;
    }
    one_effect(Effect::Rebuild)
}

/// The user picks a profile.
pub fn select_container_session(mode: &mut ContainerMode, index: usize) -> (result: Vec<Effect>)
    requires
        old(mode).well_formed(),
    ensures
        final(mode).well_formed(),
        final(mode).deep_view() == (ModeView {
            selected_nav: if old(mode).deep_view().selected_nav == NAV_RUNNING {
                NAV_RUNNING
            } else {
                NAV_SESSIONS
            },
            selected_session: Some(index),
            selected_image: None,
            selected_volume: None,
            selected_container: None,
            container_details: None,
            ..old(mode).deep_view()
        }),
        result.deep_view() == seq![EffectView::Rebuild],
{
    if mode.selected_nav != NAV_RUNNING {
        mode.selected_nav = NAV_SESSIONS;
    }
    mode.selected_session = Some(index);
    mode.selected_image = None;
    mode.selected_volume = None;
    mode.selected_container = None;
    mode.container_details = None;
    one_effect(Effect::Rebuild)
}

/// The user picks an image.
pub fn select_container_image(mode: &mut ContainerMode, image: SelectedImage) -> (result: Vec<
    Effect,
>)
    requires
        old(mode).well_formed(),
    ensures
        final(mode).well_formed(),
        final(mode).deep_view() == (ModeView {
            selected_nav: NAV_IMAGES,
            selected_session: None,
            selected_image: Some(image.deep_view()),
            ..old(mode).deep_view()
        }),
        result.deep_view() == seq![EffectView::Rebuild],
{
    mode.selected_nav = NAV_IMAGES;
    mode.selected_session = None;
    mode.selected_image = Some(image);
    one_effect(Effect::Rebuild)
}

/// The user picks a volume.
pub fn select_container_volume(mode: &mut ContainerMode, volume: SelectedVolume) -> (result: Vec<
    Effect,
>)
    requires
        old(mode).well_formed(),
    ensures
        final(mode).well_formed(),
        final(mode).deep_view() == (ModeView {
            selected_nav: NAV_VOLUMES,
            selected_session: None,
            selected_volume: Some(volume.deep_view()),
            ..old(mode).deep_view()
        }),
        result.deep_view() == seq![EffectView::Rebuild],
{
    mode.selected_nav = NAV_VOLUMES;
    mode.selected_session = None;
    mode.selected_volume = Some(volume);
    one_effect(Effect::Rebuild)
}

/// The user picks a container: the page of its runtime is shown, and the
/// runtime is asked for what it knows of the container.
pub fn select_runtime_container(
    mode: &mut ContainerMode,
    container: SelectedRuntimeContainer,
) -> (result: Vec<Effect>)
    requires
        old(mode).well_formed(),
    ensures
        final(mode).well_formed(),
        final(mode).deep_view() == (ModeView {
            selected_nav: page_of(container.runtime@),
            selected_container: Some(container.deep_view()),
            container_details: None,
            ..old(mode).deep_view()
        }),
        result.deep_view() == seq![
            EffectView::RefreshContainerDetails {
                runtime: container.runtime@,
                name: container.name@,
            },
            EffectView::Rebuild,
        ],
{
    mode.selected_nav = runtime_nav(container.runtime.as_str());
    let effects = two_effects(
        Effect::RefreshContainerDetails {
            runtime: container.runtime.clone(),
            name: container.name.clone(),
        },
        Effect::Rebuild,
    );
    mode.selected_container = Some(container);
    mode.container_details = None;
    effects
}

/// Asks for what the runtime knows of the container that is picked.
pub fn request_selected_runtime_container_details(mode: &mut ContainerMode) -> (result: Vec<Effect>)
    requires
        old(mode).well_formed(),
    ensures
        final(mode).well_formed(),
        match old(mode).deep_view().selected_container {
            Some(container) => {
                &&& final(mode).deep_view() == (ModeView {
                    container_details: None,
                    ..old(mode).deep_view()
                })
                &&& result.deep_view() == seq![
                    EffectView::RefreshContainerDetails {
                        runtime: container.runtime,
                        name: container.name,
                    },
                ]
            },
            None => final(mode).deep_view() == old(mode).deep_view() && result.deep_view() == Seq::<
                EffectView,
            >::empty(),
        },
{
    match &mode.selected_container {
        Some(container) => {
            let effects = one_effect(
                Effect::RefreshContainerDetails {
                    runtime: container.runtime.clone(),
                    name: container.name.clone(),
                },
            );
            mode.container_details = None;
            effects
        },
        None => empty_list(),
    }
}

// ---------------------------------------------------------------------------
// Displays
// ---------------------------------------------------------------------------
/// A display as others are told of it.
#[derive(Debug)]
pub struct DisplayReport {
    pub slot: String,
    pub status: DisplayStatus,
    pub runtime_dir: Option<String>,
    pub display: Option<String>,
    pub pid: Option<u32>,
    pub attachments: usize,
}

#[verifier::ext_equal]
pub struct DisplayReportView {
    pub slot: Seq<char>,
    pub status: DisplayStatus,
    pub runtime_dir: Option<Seq<char>>,
    pub display: Option<Seq<char>>,
    pub pid: Option<u32>,
    pub attachments: nat,
}

impl DeepView for DisplayReport {
    type V = DisplayReportView;

    open spec fn deep_view(&self) -> DisplayReportView {
        DisplayReportView {
            slot: self.slot@,
            status: self.status,
            runtime_dir: self.runtime_dir.deep_view(),
            display: self.display.deep_view(),
            pid: self.pid,
            attachments: self.attachments as nat,
        }
    }
}

/// How many instances are on a display.
pub open spec fn attached(active: Seq<ActiveView>, slot: Seq<char>) -> nat
    decreases active.len(),
{
    if active.len() == 0 {
        0
    } else {
        attached(active.drop_last(), slot) + (if active.last().display_slot == slot {
            1nat
        } else {
            0nat
        })
    }
}

pub fn attachments(mode: &ContainerMode, slot: &str) -> (result: usize)
    ensures
        result == attached(mode.deep_view().active_sessions, slot@),
{
    let ghost all = mode.active_sessions.deep_view();
    let mut count: usize = 0;
    for i in 0..mode.active_sessions.len()
        invariant
            all == mode.active_sessions.deep_view(),
            count == attached(all.take(i as int), slot@),
            count <= i,
    {
        assert(all.take(i + 1).drop_last() == all.take(i as int));
        assert(all.take(i + 1).last() == mode.active_sessions@[i as int].deep_view());
        if same(mode.active_sessions[i].display_slot.as_str(), slot) {
            count = count + 1;
        }
    }
    assert(all.take(all.len() as int) == all);
    count
}

pub open spec fn pending_report(slot: Seq<char>) -> DisplayReportView {
    DisplayReportView {
        slot,
        status: DisplayStatus::Allocating,
        runtime_dir: None,
        display: None,
        pid: None,
        attachments: 0,
    }
}

/// How a display is doing: it is closed, used or free.
pub open spec fn display_status(mode: ModeView, slot: Seq<char>) -> DisplayStatus {
    if mode.closing_displays.contains(slot) {
        DisplayStatus::Closing
    } else if attached(mode.active_sessions, slot) > 0 {
        DisplayStatus::Attached
    } else {
        DisplayStatus::Free
    }
}

pub open spec fn display_report(mode: ModeView, display: ManagedView) -> DisplayReportView {
    DisplayReportView {
        slot: display.slot,
        status: display_status(mode, display.slot),
        runtime_dir: Some(display.runtime_dir),
        display: Some(display.display),
        pid: Some(display.pid),
        attachments: attached(mode.active_sessions, display.slot),
    }
}

/// All displays that were made from here: first those that are being made.
pub open spec fn display_reports(mode: ModeView) -> Seq<DisplayReportView> {
    mode.pending_displays.map_values(|slot: Seq<char>| pending_report(slot))
        + mode.managed_displays.map_values(|display: ManagedView| display_report(mode, display))
}

pub fn managed_display_status(mode: &ContainerMode, slot: &str) -> (result: DisplayStatus)
    ensures
        result == display_status(mode.deep_view(), slot@),
{
    if has_text(&mode.closing_displays, slot) {
        DisplayStatus::Closing
    } else if attachments(mode, slot) > 0 {
        DisplayStatus::Attached
    } else {
        DisplayStatus::Free
    }
}

pub fn control_managed_displays(mode: &ContainerMode) -> (result: Vec<DisplayReport>)
    ensures
        result.deep_view() == display_reports(mode.deep_view()),
{
    let ghost view = mode.deep_view();
    let mut result: Vec<DisplayReport> = Vec::new();
    for i in 0..mode.pending_displays.len()
        invariant
            result@.len() == i,
            forall|j: int|
                0 <= j < i ==> (#[trigger] result@[j]).deep_view() == pending_report(
                    mode.pending_displays@[j]@,
                ),
    {
        result.push(
            DisplayReport {
                slot: mode.pending_displays[i].clone(),
                status: DisplayStatus::Allocating,
                runtime_dir: None,
                display: None,
                pid: None,
                attachments: 0,
            },
        );
    }
    let ghost pending = view.pending_displays.map_values(|slot: Seq<char>| pending_report(slot));
    let ghost managed = view.managed_displays.map_values(
        |display: ManagedView| display_report(view, display),
    );
    assert(result.deep_view() == pending + managed.take(0));
    for i in 0..mode.managed_displays.len()
        invariant
            view == mode.deep_view(),
            managed == view.managed_displays.map_values(
                |display: ManagedView| display_report(view, display),
            ),
            result.deep_view() == pending + managed.take(i as int),
    {
        let display = &mode.managed_displays[i];
        assert(view.managed_displays[i as int] == display.deep_view());
        let report = DisplayReport {
            slot: display.slot.clone(),
            status: managed_display_status(mode, display.slot.as_str()),
            runtime_dir: Some(display.runtime_dir.clone()),
            display: Some(display.display.clone()),
            pid: Some(display.pid),
            attachments: attachments(mode, display.slot.as_str()),
        };
        assert(report.deep_view() == managed[i as int]);
        push_deep(&mut result, report);
        assert(result.deep_view() == pending + managed.take(i + 1));
    }
    assert(managed.take(managed.len() as int) == managed);
    result
}

/// The command that lets a terminal show its applications on a display.
pub fn managed_display_environment(display: &ManagedDisplaySnapshot) -> (result: String)
    ensures
        result@ == "export XDG_RUNTIME_DIR="@ + quoted(display.runtime_dir@) + " WAYLAND_DISPLAY="@
            + quoted(display.display@),
{
    let directory = shell_single_quote(display.runtime_dir.as_str());
    let name = shell_single_quote(display.display.as_str());
    concat4(
        "export XDG_RUNTIME_DIR=",
        directory.as_str(),
        " WAYLAND_DISPLAY=",
        name.as_str(),
    )
}

/// The command that shows an application of another machine on a display.
pub fn managed_display_command(display: &ManagedDisplaySnapshot) -> (result: String)
    ensures
        result@ == "./run_waypipe.sh --display "@ + quoted(display.slot@),
{
    let slot = shell_single_quote(display.slot.as_str());
    concat("./run_waypipe.sh --display ", slot.as_str())
}

/// What the user is asked before a display is closed.
pub fn close_display_question(slot: &str) -> (result: String)
    ensures
        result@ == "Closing '"@ + slot@
            + "' disconnects GUI clients attached through copied environment variables, including clients Cocoa-Way cannot track."@,
{
    concat3(
        "Closing '",
        slot,
        "' disconnects GUI clients attached through copied environment variables, including clients Cocoa-Way cannot track.",
    )
}

/// The user has agreed to close a display.
pub fn close_managed_display(mode: &mut ContainerMode, slot: &str) -> (result: Vec<Effect>)
    requires
        old(mode).well_formed(),
    ensures
        final(mode).well_formed(),
        final(mode).deep_view() == (ModeView {
            closing_displays: old(mode).deep_view().closing_displays.push(slot@),
            ..old(mode).deep_view()
        }),
        result.deep_view() == seq![EffectView::CloseDisplay(slot@), EffectView::Rebuild],
{
    push_text(&mut mode.closing_displays, slot);
    two_effects(Effect::CloseDisplay(slot.to_owned()), Effect::Rebuild)
}

// ---------------------------------------------------------------------------
// Diagnostics
// ---------------------------------------------------------------------------
/// An instance in words.
pub open spec fn instance_summary(active: Option<ActiveView>) -> Seq<char> {
    match active {
        Some(active) => "instance="@ + decimal(active.id as nat) + " display="@
            + active.display_slot + " waypipe_pid="@ + decimal(active.waypipe_pid as nat)
            + " container_pid="@ + (match active.container_pid {
            Some(pid) => decimal(pid as nat),
            None => "unknown"@,
        }),
        None => "none"@,
    }
}

fn instance_text(active: Option<&ActiveSessionSnapshot>) -> (result: String)
    ensures
        result@ == instance_summary(active.deep_view()),
{
    match active {
        Some(active) => {
            let id = decimal_text(active.id as u128);
            let waypipe = decimal_text(active.waypipe_pid as u128);
            let container = match active.container_pid {
                Some(pid) => decimal_text(pid as u128),
                None => "unknown".to_owned(),
            };
            let mut text = concat7(
                "instance=",
                id.as_str(),
                " display=",
                active.display_slot.as_str(),
                " waypipe_pid=",
                waypipe.as_str(),
                " container_pid=",
            );
            text.append(container.as_str());
            text
        },
        None => "none".to_owned(),
    }
}

/// All that helps to find out what is wrong with an application.
pub open spec fn diagnostics_text(mode: ModeView, session: SessionView, index: usize) -> Seq<char> {
    let state = state_of(mode.states, index);
    let lines = last_of(log_of(mode.logs, index), 80);
    "Cocoa-Way application diagnostics\n\nApplication: "@ + session.name + "\nRuntime: "@
        + shown_runtime(session.runtime) + "\nImage: "@ + session.image + "\nCommand: "@
        + command_of(session) + "\nDisplay: "@ + display_summary(session) + "\nPresentation: "@
        + presentation_summary(session) + "\nStatus: "@ + (match state {
        Some(state) => state_label(state),
        None => "Not checked"@,
    }) + "\nStatus detail: "@ + (match state {
        Some(state) => state.detail,
        None => "No runtime status has been recorded."@,
    }) + "\nActive instance: "@ + instance_summary(active_of(mode.active_sessions, index))
        + "\n\nRecent logs:\n"@ + (if lines.len() == 0 {
        "No captured logs."@
    } else {
        joined(lines, "\n"@)
    })
}

pub fn application_diagnostics(
    mode: &ContainerMode,
    session: &ContainerSession,
    index: usize,
) -> (result: String)
    ensures
        result@ == diagnostics_text(mode.deep_view(), session.deep_view(), index),
{
    let (status, detail) = match mode.session_state(index) {
        Some(state) => (session_state_label(state), state.detail.clone()),
        None => ("Not checked", "No runtime status has been recorded.".to_owned()),
    };
    let instance = instance_text(mode.active_session(index));
    let lines = mode.logs.control_session_logs(index, 80);
    assert(lines.deep_view().len() == lines@.len());
    let logs = if lines.len() == 0 {
        "No captured logs.".to_owned()
    } else {
        join(&lines, "\n")
    };
    let command = session_display_command(session);
    let display = session_display_summary(session);
    let mut text = concat7(
        "Cocoa-Way application diagnostics\n\nApplication: ",
        session.name.as_str(),
        "\nRuntime: ",
        runtime_label(session.runtime.as_str()),
        "\nImage: ",
        session.image.as_str(),
        "\nCommand: ",
    );
    text.append(command.as_str());
    text.append("\nDisplay: ");
    text.append(display.as_str());
    text.append("\nPresentation: ");
    text.append(session_presentation_summary(session));
    text.append("\nStatus: ");
    text.append(status);
    text.append("\nStatus detail: ");
    text.append(detail.as_str());
    text.append("\nActive instance: ");
    text.append(instance.as_str());
    text.append("\n\nRecent logs:\n");
    text.append(logs.as_str());
    text
}

// ---------------------------------------------------------------------------
// Changing profiles
// ---------------------------------------------------------------------------
pub open spec fn no_profile() -> Seq<char> {
    "Application profile no longer exists."@
}

/// The profile with another presentation, or why it cannot be changed: not while
/// the application runs.
pub fn change_container_session_presentation(
    mode: &ContainerMode,
    sessions: &Vec<ContainerSession>,
    index: usize,
    rootless: bool,
) -> (result: Result<ContainerSession, String>)
    ensures
        match result {
            Ok(session) => {
                &&& active_of(mode.deep_view().active_sessions, index) is None
                &&& index < sessions@.len()
                &&& session.deep_view() == (SessionView {
                    presentation: Some(
                        if rootless {
                            "rootless"@
                        } else {
                            "desktop"@
                        },
                    ),
                    ..sessions.deep_view()[index as int]
                })
            },
            Err(message) => if active_of(mode.deep_view().active_sessions, index) is Some {
                message@ == "Stop this application before changing its presentation mode."@
            } else {
                index >= sessions@.len() && message@ == no_profile()
            },
        },
{
    if mode.active_session(index).is_some() {
        return Err("Stop this application before changing its presentation mode.".to_owned());
    }
    if index >= sessions.len() {
        return Err("Application profile no longer exists.".to_owned());
    }
    let mut session = sessions[index].clone();
    session.presentation = Some(
        if rootless {
            "rootless".to_owned()
        } else {
            "desktop".to_owned()
        },
    );
    Ok(session)
}

/// A profile has another presentation, or could not be saved.
pub fn presentation_saved(
    mode: &mut ContainerMode,
    session: &ContainerSession,
    index: usize,
    saved: Result<(), String>,
    now: u128,
) -> (result: Vec<Effect>)
    requires
        old(mode).well_formed(),
    ensures
        final(mode).well_formed(),
        match saved {
            Ok(_) => {
                &&& final(mode).deep_view() == ({
                    let mode = old(mode).deep_view();
                    note(
                        profile_invalidated(mode, index),
                        now,
                        session.name@ + " presentation changed to "@ + presentation_summary(
                            session.deep_view(),
                        ) + "."@,
                    )
                })
                &&& result.deep_view() == seq![EffectView::Rebuild]
            },
            Err(error) => {
                let message = "Failed to update presentation mode: "@ + error@;
                &&& final(mode).deep_view() == note(old(mode).deep_view(), now, message)
                &&& result.deep_view() == seq![EffectView::Alert(message), EffectView::Rebuild]
            },
        },
{
    match saved {
        Ok(_) => {
            mode.invalidate_profile_validation(index);
            let message = concat4(
                session.name.as_str(),
                " presentation changed to ",
                session_presentation_summary(session),
                ".",
            );
            mode.push_activity(now, message.as_str());
            one_effect(Effect::Rebuild)
        },
        Err(error) => {
            let message = concat("Failed to update presentation mode: ", error.as_str());
            mode.push_activity(now, message.as_str());
            two_effects(Effect::Alert(message), Effect::Rebuild)
        },
    }
}

/// The copy of a profile that the user asks for.
pub fn duplicate_session_profile(
    sessions: &Vec<ContainerSession>,
    index: usize,
    now: u128,
) -> (result: Result<ContainerSession, String>)
    ensures
        match result {
            Ok(session) => index < sessions@.len() && session.deep_view() == (SessionView {
                name: copy_name(
                    sessions.deep_view(),
                    sessions.deep_view()[index as int].name,
                    now,
                ),
                ..sessions.deep_view()[index as int]
            }),
            Err(message) => index >= sessions@.len() && message@ == no_profile(),
        },
{
    if index >= sessions.len() {
        return Err("Application profile no longer exists.".to_owned());
    }
    let mut copy = sessions[index].clone();
    copy.name = unique_duplicate_name(sessions, sessions[index].name.as_str(), now);
    Ok(copy)
}

/// The window after a profile was added: the last one is picked, and nothing is
/// known of it.
pub open spec fn last_selected(mode: ModeView, count: nat) -> ModeView {
    let picked = ModeView {
        selected_nav: NAV_SESSIONS,
        selected_session: if count == 0 {
            None
        } else {
            Some((count - 1) as usize)
        },
        ..mode
    };
    if count == 0 {
        picked
    } else {
        profile_invalidated(picked, (count - 1) as usize)
    }
}

fn select_last(mode: &mut ContainerMode, count: usize)
    requires
        old(mode).well_formed(),
    ensures
        final(mode).well_formed(),
        final(mode).deep_view() == last_selected(old(mode).deep_view(), count as nat),
{
    mode.selected_nav = NAV_SESSIONS;
    if count == 0 {
        mode.selected_session = None;
    } else {
        mode.selected_session = Some(count - 1);
        mode.invalidate_profile_validation(count - 1);
    }
}

/// A copy of a profile was saved, or not; `count` is how many profiles there are
/// then.
pub fn duplicate_saved(
    mode: &mut ContainerMode,
    name: &str,
    count: usize,
    saved: Result<(), String>,
    now: u128,
) -> (result: Vec<Effect>)
    requires
        old(mode).well_formed(),
    ensures
        final(mode).well_formed(),
        match saved {
            Ok(_) => {
                &&& final(mode).deep_view() == ({
                    let mode = old(mode).deep_view();
                    note(
                        last_selected(mode, count as nat),
                        now,
                        "Duplicated application profile: "@ + name@,
                    )
                })
                &&& result.deep_view() == seq![EffectView::Rebuild]
            },
            Err(error) => {
                let message = "Failed to duplicate session: "@ + error@;
                &&& final(mode).deep_view() == note(old(mode).deep_view(), now, message)
                &&& result.deep_view() == seq![EffectView::Alert(message)]
            },
        },
{
    match saved {
        Ok(_) => {
            select_last(mode, count);
            let message = concat("Duplicated application profile: ", name);
            mode.push_activity(now, message.as_str());
            one_effect(Effect::Rebuild)
        },
        Err(error) => {
            let message = concat("Failed to duplicate session: ", error.as_str());
            mode.push_activity(now, message.as_str());
            one_effect(Effect::Alert(message))
        },
    }
}

/// What the user asks for when the example profile is wanted: it is picked
/// where it is there, and is to be saved where not.
pub fn add_or_select_smoke_session(
    mode: &mut ContainerMode,
    sessions: &Vec<ContainerSession>,
    now: u128,
) -> (result: bool)
    requires
        old(mode).well_formed(),
    ensures
        final(mode).well_formed(),
        ({
            let place = image_place(sessions.deep_view(), example_image());
            &&& result == (place < 0)
            &&& final(mode).deep_view() == (if place < 0 {
                old(mode).deep_view()
            } else {
                note(
                    session_selected(old(mode).deep_view(), place as usize),
                    now,
                    "Selected existing example session."@,
                )
            })
        }),
{
    match find_smoke_session(sessions) {
        Some(index) => {
            mode.select_session(index);
            mode.push_activity(now, "Selected existing example session.");
            false
        },
        None => true,
    }
}

/// The example profile was saved, or not.
pub fn smoke_session_saved(
    mode: &mut ContainerMode,
    image: &str,
    count: usize,
    saved: Result<(), String>,
    now: u128,
) -> (result: Vec<Effect>)
    requires
        old(mode).well_formed(),
    ensures
        final(mode).well_formed(),
        match saved {
            Ok(_) => {
                &&& final(mode).deep_view() == ({
                    let mode = old(mode).deep_view();
                    note(
                        last_selected(mode, count as nat),
                        now,
                        "Restored example session: "@ + image@,
                    )
                })
                &&& result.deep_view() == Seq::<EffectView>::empty()
            },
            Err(error) => {
                let message = "Failed to restore example session: "@ + error@;
                &&& final(mode).deep_view() == note(old(mode).deep_view(), now, message)
                &&& result.deep_view() == seq![EffectView::Alert(message)]
            },
        },
{
    match saved {
        Ok(_) => {
            select_last(mode, count);
            let message = concat("Restored example session: ", image);
            mode.push_activity(now, message.as_str());
            empty_list()
        },
        Err(error) => {
            let message = concat("Failed to restore example session: ", error.as_str());
            mode.push_activity(now, message.as_str());
            one_effect(Effect::Alert(message))
        },
    }
}

/// The name of a profile that the user wants to delete, or why it cannot be
/// deleted: not while it runs.
pub fn delete_container_session(
    mode: &ContainerMode,
    sessions: &Vec<ContainerSession>,
    index: usize,
) -> (result: Result<String, String>)
    ensures
        ({
            let runs = active_of(mode.deep_view().active_sessions, index) is Some || can_stop(
                state_of(mode.deep_view().states, index),
            );
            match result {
                Ok(name) => index < sessions@.len() && !runs && name@
                    == sessions.deep_view()[index as int].name,
                Err(message) => if index >= sessions@.len() {
                    message@ == no_profile()
                } else {
                    runs && message@
                        == "Stop all running instances before deleting this profile."@
                },
            }
        }),
{
    if index >= sessions.len() {
        return Err("Application profile no longer exists.".to_owned());
    }
    if mode.active_session(index).is_some() || session_can_stop(mode.session_state(index)) {
        return Err("Stop all running instances before deleting this profile.".to_owned());
    }
    Ok(sessions[index].name.clone())
}

/// A profile was deleted, or not. The others have other numbers then, so nothing
/// is known of them.
pub fn session_deleted(
    mode: &mut ContainerMode,
    name: &str,
    saved: Result<(), String>,
    now: u128,
) -> (result: Vec<Effect>)
    requires
        old(mode).well_formed(),
    ensures
        final(mode).well_formed(),
        match saved {
            Ok(_) => {
                &&& final(mode).deep_view() == ({
                    let mode = old(mode).deep_view();
                    note(
                        ModeView {
                            selected_session: None,
                            selected_nav: NAV_SESSIONS,
                            states: Seq::empty(),
                            validation_requested: Seq::empty(),
                            ..mode
                        },
                        now,
                        "Deleted application profile: "@ + name@,
                    )
                })
                &&& result.deep_view() == seq![EffectView::Rebuild]
            },
            Err(error) => {
                let message = "Failed to delete session: "@ + error@;
                &&& final(mode).deep_view() == note(old(mode).deep_view(), now, message)
                &&& result.deep_view() == seq![EffectView::Alert(message)]
            },
        },
{
    match saved {
        Ok(_) => {
            mode.selected_session = None;
            mode.selected_nav = NAV_SESSIONS;
            mode.invalidate_all_profile_validation();
            let message = concat("Deleted application profile: ", name);
            mode.push_activity(now, message.as_str());
            one_effect(Effect::Rebuild)
        },
        Err(error) => {
            let message = concat("Failed to delete session: ", error.as_str());
            mode.push_activity(now, message.as_str());
            one_effect(Effect::Alert(message))
        },
    }
}

} // verus!
