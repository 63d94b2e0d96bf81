//! What the container window makes of the things that happen, in terms of what
//! it knew before and what it knows after.
use vstd::prelude::*;

use crate::actions::{
    conflict_of, force_stop_container_session, launch_container_session, open_container_terminal,
    select_container_image, select_container_nav, select_container_session,
    select_container_volume, select_runtime_container, session_deleted, stop_container_session,
};
use crate::application_model::{InstanceStatus, LaunchStep, ProfileStatus, TaskStatus};
use crate::container_mode::{
    active_of, can_stop, image_task_set, known_state_set, launch_key, name_at, note, resource_key,
    session_selected, state_of, state_set, states_for, stop_key, task_finished, task_stepped,
    ActiveSessionSnapshot, ContainerMode, Effect, EffectView, ModeView, SelectedImage,
    SelectedRuntimeContainer, SelectedVolume, SessionStateView,
};
use crate::container_sessions::{launch_error_text, ContainerSession, LaunchError};
use crate::handlers::{clear_container_activity, reload_container_mode, select_container_tab};
use crate::mode_laws::{
    law_message_is_added, law_other_tasks_stay, law_state_is_remembered, law_words_are_states,
};
use crate::profiles::{page_of, NAV_IMAGES, NAV_RUNNING, NAV_SESSIONS, NAV_VOLUMES};
use crate::records::{
    checked_detail, end_status, launched_detail, pull_place, record_active_container_sessions,
    record_check_failure, record_check_success, record_image_pull_finished, record_launch_blocked,
    record_launch_cancelled, record_launch_failure, record_launch_progress, record_launch_success,
    record_managed_display_exit, record_managed_display_failure, record_managed_display_starting,
    record_process_exit, record_runtime_container_action_finished,
    record_runtime_container_details_loaded, record_stop_failure, record_stop_success,
    failure_label,
};
use crate::session_launch::{CheckReport, LaunchReport};
use crate::tasks::TaskView;
use crate::text::{occurs, lemma_occurs, without_text};

verus! {

// ---------------------------------------------------------------------------
// Before and after
// ---------------------------------------------------------------------------
/// Whether an application is known to be in a state.
pub open spec fn is_known(mode: ModeView, index: usize, status: InstanceStatus) -> bool {
    state_of(mode.states, index) matches Some(state) && state.instance == Some(status)
}

/// Whether what is known of the other applications stays.
#[verifier::opaque]
pub open spec fn others_stay(
    before: Seq<(usize, SessionStateView)>,
    after: Seq<(usize, SessionStateView)>,
    index: usize,
) -> bool {
    forall|other: usize|
        other != index ==> #[trigger] state_of(after, other) == state_of(before, other)
}

proof fn lemma_others_stay_on(
    first: Seq<(usize, SessionStateView)>,
    second: Seq<(usize, SessionStateView)>,
    third: Seq<(usize, SessionStateView)>,
    index: usize,
)
    requires
        others_stay(first, second, index),
        others_stay(second, third, index),
    ensures
        others_stay(first, third, index),
{
    reveal(others_stay);
    assert forall|other: usize| other != index implies #[trigger] state_of(third, other)
        == state_of(first, other) by {
        assert(state_of(second, other) == state_of(first, other));
    }
}

/// Whether the task with a key has ended in a status, and no other has changed.
#[verifier::opaque]
pub open spec fn has_ended(
    before: Seq<TaskView>,
    after: Seq<TaskView>,
    key: Seq<char>,
    status: TaskStatus,
) -> bool {
    &&& after.len() == before.len()
    &&& forall|i: int|
        #![trigger after[i]]
        0 <= i < before.len() && before[i].key != key ==> after[i] == before[i]
    &&& forall|i: int|
        #![trigger after[i]]
        0 <= i < before.len() && before[i].key == key && (forall|k: int|
            i < k < before.len() ==> (#[trigger] before[k]).key != key) ==> after[i].status
            == status
}

/// Whether the last message ends in a text.
#[verifier::opaque]
pub open spec fn is_told(messages: Seq<Seq<char>>, text: Seq<char>) -> bool {
    messages.len() > 0 && text.is_suffix_of(messages.last())
}

proof fn lemma_task_finished(
    mode: ModeView,
    key: Seq<char>,
    status: TaskStatus,
    detail: Seq<char>,
    now: u128,
)
    ensures
        has_ended(mode.tasks, task_finished(mode, key, status, detail, now).tasks, key, status),
{
    reveal(has_ended);
    let after = task_finished(mode, key, status, detail, now);
    let empty = Seq::<char>::empty();
    assert forall|i: int| #![trigger after.tasks[i]] 0 <= i < mode.tasks.len() implies (
    mode.tasks[i].key != key ==> after.tasks[i] == mode.tasks[i]) && (mode.tasks[i].key == key && (
    forall|k: int| i < k < mode.tasks.len() ==> (#[trigger] mode.tasks[k]).key != key)
        ==> after.tasks[i].status == status) by {
        law_other_tasks_stay(
            mode.tasks,
            key,
            empty,
            crate::application_model::TaskStepStatus::Running,
            None,
            status,
            detail,
            now,
            i,
        );
    }
    if mode.tasks.len() > 0 {
        law_other_tasks_stay(
            mode.tasks,
            key,
            empty,
            crate::application_model::TaskStepStatus::Running,
            None,
            status,
            detail,
            now,
            0,
        );
    }
}

proof fn lemma_state_set(mode: ModeView, index: usize, label: Seq<char>, detail: Seq<char>)
    ensures
        others_stay(mode.states, state_set(mode, index, label, detail).states, index),
        state_of(state_set(mode, index, label, detail).states, index) is Some,
        state_of(state_set(mode, index, label, detail).states, index)->0.detail == detail,
        state_of(state_set(mode, index, label, detail).states, index)->0.instance == states_for(
            label,
        ).1,
        state_of(state_set(mode, index, label, detail).states, index)->0.profile == states_for(
            label,
        ).0,
{
    reveal(others_stay);
    let after = state_set(mode, index, label, detail);
    let state = crate::container_mode::state_changed(
        state_of(mode.states, index),
        label,
        detail,
    );
    assert forall|other: usize| other != index implies #[trigger] state_of(after.states, other)
        == state_of(mode.states, other) by {
        law_state_is_remembered(mode.states, index, other, state);
    }
    let other: usize = if index == 0 {
        1
    } else {
        0
    };
    law_state_is_remembered(mode.states, index, other, state);
}

proof fn lemma_ready_is_no_instance()
    ensures
        states_for("Ready"@) == (ProfileStatus::Ready, None::<InstanceStatus>),
{
    reveal_strlit("Ready");
    reveal_strlit("Starting");
    reveal_strlit("Checking");
    reveal_strlit("Running");
    reveal_strlit("Stopping");
    reveal_strlit("Stopped");
    reveal_strlit("Exited");
    reveal_strlit("Error");
    reveal_strlit("Blocked");
    reveal_strlit("Failed");
    assert("Ready"@[0] == 'R' && "Ready"@.len() == 5);
    assert("Error"@[0] == 'E');
}

proof fn lemma_known_set(mode: ModeView, index: usize, state: SessionStateView)
    ensures
        others_stay(mode.states, known_state_set(mode, index, state).states, index),
        state_of(mode.states, index) is Some ==> state_of(
            known_state_set(mode, index, state).states,
            index,
        ) == Some(state),
        state_of(mode.states, index) is None ==> state_of(
            known_state_set(mode, index, state).states,
            index,
        ) is None,
{
    reveal(others_stay);
    let after = known_state_set(mode, index, state);
    assert forall|other: usize| other != index implies #[trigger] state_of(after.states, other)
        == state_of(mode.states, other) by {
        law_state_is_remembered(mode.states, index, other, state);
    }
    let other: usize = if index == 0 {
        1
    } else {
        0
    };
    law_state_is_remembered(mode.states, index, other, state);
}

proof fn lemma_rest_stays(list: Seq<Seq<char>>, text: Seq<char>)
    ensures
        !without_text(list, text).contains(text),
        forall|other: Seq<char>|
            other != text ==> (#[trigger] without_text(list, text).contains(other)
                <==> list.contains(other)),
    decreases list.len(),
{
    if list.len() > 0 {
        let front = list.drop_last();
        let kept = without_text(front, text);
        lemma_rest_stays(front, text);
        assert(list == front.push(list.last()));
        assert forall|other: Seq<char>| #[trigger] list.contains(other) <==> front.contains(other)
            || other == list.last() by {
            if front.contains(other) {
                assert(list[front.index_of(other)] == other);
            }
            assert(list[list.len() - 1] == list.last());
            if list.contains(other) && other != list.last() {
                assert(front[list.index_of(other)] == other);
            }
        }
        let pushed = kept.push(list.last());
        assert forall|other: Seq<char>| #[trigger] pushed.contains(other) <==> kept.contains(other)
            || other == list.last() by {
            if kept.contains(other) {
                assert(pushed[kept.index_of(other)] == other);
            }
            assert(pushed[kept.len() as int] == list.last());
            if pushed.contains(other) && other != list.last() {
                assert(kept[pushed.index_of(other)] == other);
            }
        }
    }
}

proof fn lemma_pull_is_there(
    pulls: Seq<(Seq<char>, Seq<char>)>,
    runtime: Seq<char>,
    image: Seq<char>,
)
    ensures
        pull_place(pulls, runtime, image) < pulls.len(),
    decreases pulls.len(),
{
    if pulls.len() > 0 {
        lemma_pull_is_there(pulls.drop_last(), runtime, image);
    }
}

proof fn lemma_told(mode: ModeView, now: u128, message: Seq<char>)
    ensures
        is_told(note(mode, now, message).activity, message),
{
    reveal(is_told);
    law_message_is_added(mode, now, message);
    let last = note(mode, now, message).activity.last();
    assert(last.skip(last.len() - message.len()) == message);
    assert(last.subrange(last.len() - message.len(), last.len() as int) == message);
}

// ---------------------------------------------------------------------------
// Applications
// ---------------------------------------------------------------------------
/// A launch that succeeded leaves its application running and its task done.
pub proof fn law_launched_application_runs(
    before: ContainerMode,
    after: ContainerMode,
    sessions: Vec<ContainerSession>,
    index: usize,
    report: LaunchReport,
    pid: u32,
    now: u128,
    effects: Vec<Effect>,
)
    requires
        exists|mode: &mut ContainerMode|
            *mode == before && *final(mode) == after && #[trigger] call_ensures(
                record_launch_success,
                (mode, &sessions, index, &report, pid, now),
                effects,
            ),
    ensures
        is_known(after.deep_view(), index, InstanceStatus::Running),
        others_stay(before.deep_view().states, after.deep_view().states, index),
        has_ended(before.deep_view().tasks, after.deep_view().tasks, launch_key(index), TaskStatus::Completed),
        index < sessions@.len() ==> sessions.deep_view()[index as int].name.is_prefix_of(
            state_of(after.deep_view().states, index)->0.detail,
        ),
{
    let old_view = before.deep_view();
    let new_view = after.deep_view();
    let name = name_at(sessions.deep_view(), index, "Unknown application"@);
    let detail = launched_detail(name, report, pid);
    let running = state_set(old_view, index, "Running"@, detail);
    lemma_state_set(old_view, index, "Running"@, detail);
    lemma_task_finished(
        running,
        launch_key(index),
        TaskStatus::Completed,
        name + " is running"@,
        now,
    );
    law_words_are_states("Running"@);
}

/// A launch that failed leaves its application failed and picked, and its task
/// failed; why is told and kept.
pub proof fn law_failed_launch_is_shown(
    before: ContainerMode,
    after: ContainerMode,
    sessions: Vec<ContainerSession>,
    index: usize,
    error: LaunchError,
    now: u128,
    effects: Vec<Effect>,
)
    requires
        exists|mode: &mut ContainerMode|
            *mode == before && *final(mode) == after && #[trigger] call_ensures(
                record_launch_failure,
                (mode, &sessions, index, &error, now),
                effects,
            ),
    ensures
        is_known(after.deep_view(), index, InstanceStatus::Failed),
        others_stay(before.deep_view().states, after.deep_view().states, index),
        has_ended(before.deep_view().tasks, after.deep_view().tasks, launch_key(index), TaskStatus::Failed),
        after.deep_view().selected_session == Some(index),
        is_told(after.deep_view().activity, state_of(after.deep_view().states, index)->0.detail),
        launch_error_text(error.deep_view()).is_suffix_of(
            state_of(after.deep_view().states, index)->0.detail,
        ),
{
    let old_view = before.deep_view();
    let new_view = after.deep_view();
    let name = name_at(sessions.deep_view(), index, "Unknown application"@);
    let reason = launch_error_text(error.deep_view());
    let detail = name + " failed to start: "@ + reason;
    let picked = session_selected(old_view, index);
    let label = failure_label(error.deep_view());
    let failed = state_set(picked, index, label, detail);
    lemma_state_set(picked, index, label, detail);
    let state = state_of(failed.states, index)->0;
    let known = SessionStateView { instance: Some(InstanceStatus::Failed), ..state };
    let marked = known_state_set(failed, index, known);
    lemma_known_set(failed, index, known);
    lemma_others_stay_on(old_view.states, failed.states, marked.states, index);
    lemma_task_finished(marked, launch_key(index), TaskStatus::Failed, detail, now);
    lemma_told(
        task_finished(marked, launch_key(index), TaskStatus::Failed, detail, now),
        now,
        detail,
    );
    assert(detail.subrange(detail.len() - reason.len(), detail.len() as int) == reason);
}

/// A launch that is blocked leaves its application failed and picked.
pub proof fn law_blocked_launch_is_shown(
    before: ContainerMode,
    after: ContainerMode,
    index: usize,
    detail: &str,
    now: u128,
    effects: Vec<Effect>,
)
    requires
        exists|mode: &mut ContainerMode|
            *mode == before && *final(mode) == after && #[trigger] call_ensures(
                record_launch_blocked,
                (mode, index, detail, now),
                effects,
            ),
    ensures
        is_known(after.deep_view(), index, InstanceStatus::Failed),
        others_stay(before.deep_view().states, after.deep_view().states, index),
        has_ended(before.deep_view().tasks, after.deep_view().tasks, launch_key(index), TaskStatus::Failed),
        after.deep_view().selected_session == Some(index),
        state_of(after.deep_view().states, index)->0.detail == detail@,
{
    let old_view = before.deep_view();
    let new_view = after.deep_view();
    let picked = session_selected(old_view, index);
    let blocked = state_set(picked, index, "Blocked"@, detail@);
    lemma_state_set(picked, index, "Blocked"@, detail@);
    law_words_are_states("Blocked"@);
    lemma_task_finished(blocked, launch_key(index), TaskStatus::Failed, detail@, now);
}

/// A launch that is cancelled leaves its application over, and its task
/// cancelled.
pub proof fn law_cancelled_launch_is_over(
    before: ContainerMode,
    after: ContainerMode,
    index: usize,
    detail: &str,
    now: u128,
    effects: Vec<Effect>,
)
    requires
        exists|mode: &mut ContainerMode|
            *mode == before && *final(mode) == after && #[trigger] call_ensures(
                record_launch_cancelled,
                (mode, index, detail, now),
                effects,
            ),
    ensures
        is_known(after.deep_view(), index, InstanceStatus::Exited),
        others_stay(before.deep_view().states, after.deep_view().states, index),
        has_ended(before.deep_view().tasks, after.deep_view().tasks, launch_key(index), TaskStatus::Cancelled),
        is_told(after.deep_view().activity, detail@),
{
    let old_view = before.deep_view();
    let new_view = after.deep_view();
    let ended = task_finished(old_view, launch_key(index), TaskStatus::Cancelled, detail@, now);
    lemma_task_finished(old_view, launch_key(index), TaskStatus::Cancelled, detail@, now);
    lemma_state_set(ended, index, "Stopped"@, detail@);
    law_words_are_states("Stopped"@);
    lemma_told(state_set(ended, index, "Stopped"@, detail@), now, detail@);
}

/// A launch that goes on leaves its application starting, where it is known.
pub proof fn law_launch_goes_on(
    before: ContainerMode,
    after: ContainerMode,
    sessions: Vec<ContainerSession>,
    index: usize,
    step: LaunchStep,
    detail: &str,
    now: u128,
    effects: Vec<Effect>,
)
    requires
        exists|mode: &mut ContainerMode|
            *mode == before && *final(mode) == after && #[trigger] call_ensures(
                record_launch_progress,
                (mode, &sessions, index, step, detail, now),
                effects,
            ),
    ensures
        state_of(before.deep_view().states, index) is Some ==> is_known(
            after.deep_view(),
            index,
            InstanceStatus::Starting,
        ) && state_of(after.deep_view().states, index)->0.detail == detail@,
        others_stay(before.deep_view().states, after.deep_view().states, index),
        after.deep_view().selected_session == before.deep_view().selected_session,
{
    let old_view = before.deep_view();
    let new_view = after.deep_view();
    let stepped = task_stepped(
        old_view,
        launch_key(index),
        crate::application_model::launch_step_label(step),
        crate::application_model::TaskStepStatus::Running,
        detail@,
        now,
    );
    lemma_known_set(
        stepped,
        index,
        SessionStateView {
            profile: ProfileStatus::Ready,
            instance: Some(InstanceStatus::Starting),
            detail: detail@,
            failed_step: None,
            force_stop_available: false,
        },
    );
}

/// A stop that succeeded leaves its application over, and its task done.
pub proof fn law_stopped_application_is_over(
    before: ContainerMode,
    after: ContainerMode,
    sessions: Vec<ContainerSession>,
    index: usize,
    now: u128,
    effects: Vec<Effect>,
)
    requires
        exists|mode: &mut ContainerMode|
            *mode == before && *final(mode) == after && #[trigger] call_ensures(
                record_stop_success,
                (mode, &sessions, index, now),
                effects,
            ),
    ensures
        is_known(after.deep_view(), index, InstanceStatus::Exited),
        others_stay(before.deep_view().states, after.deep_view().states, index),
        has_ended(before.deep_view().tasks, after.deep_view().tasks, stop_key(index), TaskStatus::Completed),
        is_told(after.deep_view().activity, state_of(after.deep_view().states, index)->0.detail),
        index < sessions@.len() ==> sessions.deep_view()[index as int].name.is_prefix_of(
            state_of(after.deep_view().states, index)->0.detail,
        ),
{
    let old_view = before.deep_view();
    let new_view = after.deep_view();
    let name = name_at(sessions.deep_view(), index, "Unknown application"@);
    let detail = name + " stopped."@;
    let over = state_set(old_view, index, "Stopped"@, detail);
    lemma_state_set(old_view, index, "Stopped"@, detail);
    law_words_are_states("Stopped"@);
    lemma_task_finished(over, stop_key(index), TaskStatus::Completed, detail, now);
    lemma_told(
        task_finished(over, stop_key(index), TaskStatus::Completed, detail, now),
        now,
        detail,
    );
}

/// A stop that failed leaves its application failed, and its task failed; why is
/// told.
pub proof fn law_failed_stop_is_shown(
    before: ContainerMode,
    after: ContainerMode,
    sessions: Vec<ContainerSession>,
    index: usize,
    error: &str,
    now: u128,
    effects: Vec<Effect>,
)
    requires
        exists|mode: &mut ContainerMode|
            *mode == before && *final(mode) == after && #[trigger] call_ensures(
                record_stop_failure,
                (mode, &sessions, index, error, now),
                effects,
            ),
    ensures
        is_known(after.deep_view(), index, InstanceStatus::Failed),
        others_stay(before.deep_view().states, after.deep_view().states, index),
        has_ended(before.deep_view().tasks, after.deep_view().tasks, stop_key(index), TaskStatus::Failed),
        is_told(after.deep_view().activity, state_of(after.deep_view().states, index)->0.detail),
        index < sessions@.len() ==> sessions.deep_view()[index as int].name.is_prefix_of(
            state_of(after.deep_view().states, index)->0.detail,
        ),
        error@.is_suffix_of(state_of(after.deep_view().states, index)->0.detail),
{
    let old_view = before.deep_view();
    let new_view = after.deep_view();
    let name = name_at(sessions.deep_view(), index, "Unknown application"@);
    let detail = name + " stop failed: "@ + error@;
    let over = state_set(old_view, index, "Error"@, detail);
    lemma_state_set(old_view, index, "Error"@, detail);
    law_words_are_states("Error"@);
    lemma_task_finished(over, stop_key(index), TaskStatus::Failed, detail, now);
    lemma_told(
        task_finished(over, stop_key(index), TaskStatus::Failed, detail, now),
        now,
        detail,
    );
    assert(detail.subrange(detail.len() - error@.len(), detail.len() as int) == error@);
}

/// An application that exited by itself is over, and so is the task that stops
/// it.
pub proof fn law_exit_is_shown(
    before: ContainerMode,
    after: ContainerMode,
    sessions: Vec<ContainerSession>,
    index: usize,
    process: &str,
    status: &str,
    now: u128,
    effects: Vec<Effect>,
)
    requires
        exists|mode: &mut ContainerMode|
            *mode == before && *final(mode) == after && #[trigger] call_ensures(
                record_process_exit,
                (mode, &sessions, index, process, status, now),
                effects,
            ),
    ensures
        is_known(after.deep_view(), index, InstanceStatus::Exited),
        others_stay(before.deep_view().states, after.deep_view().states, index),
        has_ended(before.deep_view().tasks, after.deep_view().tasks, stop_key(index), TaskStatus::Completed),
        is_told(after.deep_view().activity, state_of(after.deep_view().states, index)->0.detail),
        index < sessions@.len() ==> sessions.deep_view()[index as int].name.is_prefix_of(
            state_of(after.deep_view().states, index)->0.detail,
        ),
{
    let old_view = before.deep_view();
    let new_view = after.deep_view();
    let name = name_at(sessions.deep_view(), index, "Unknown application"@);
    let detail = name + " exited because "@ + process@ + " ended with "@ + status@ + "."@;
    let over = state_set(old_view, index, "Exited"@, detail);
    lemma_state_set(old_view, index, "Exited"@, detail);
    law_words_are_states("Exited"@);
    lemma_task_finished(over, stop_key(index), TaskStatus::Completed, detail, now);
    lemma_told(
        task_finished(over, stop_key(index), TaskStatus::Completed, detail, now),
        now,
        detail,
    );
}

/// A check that succeeded finds an application running just where it runs and is
/// one of ours, and finds its profile sound.
pub proof fn law_checked_profile_is_sound(
    before: ContainerMode,
    after: ContainerMode,
    sessions: Vec<ContainerSession>,
    index: usize,
    report: CheckReport,
    now: u128,
    effects: Vec<Effect>,
)
    requires
        exists|mode: &mut ContainerMode|
            *mode == before && *final(mode) == after && #[trigger] call_ensures(
                record_check_success,
                (mode, &sessions, index, &report, now),
                effects,
            ),
    ensures
        is_known(after.deep_view(), index, InstanceStatus::Running) <==> report.running
            && active_of(before.deep_view().active_sessions, index) is Some,
        state_of(after.deep_view().states, index) is Some,
        state_of(after.deep_view().states, index)->0.profile is Ready,
        others_stay(before.deep_view().states, after.deep_view().states, index),
        after.deep_view().tasks == before.deep_view().tasks,
{
    let old_view = before.deep_view();
    let new_view = after.deep_view();
    let name = name_at(sessions.deep_view(), index, "Unknown application"@);
    let ours = active_of(old_view.active_sessions, index) is Some;
    let detail = checked_detail(name, report, ours);
    let label = if report.running && ours {
        "Running"@
    } else {
        "Ready"@
    };
    lemma_state_set(old_view, index, label, detail);
    law_words_are_states("Running"@);
    lemma_ready_is_no_instance();
}

/// A check that failed leaves the profile invalid and picked, with no instance.
pub proof fn law_failed_check_is_shown(
    before: ContainerMode,
    after: ContainerMode,
    sessions: Vec<ContainerSession>,
    index: usize,
    error: LaunchError,
    now: u128,
    effects: Vec<Effect>,
)
    requires
        exists|mode: &mut ContainerMode|
            *mode == before && *final(mode) == after && #[trigger] call_ensures(
                record_check_failure,
                (mode, &sessions, index, &error, now),
                effects,
            ),
    ensures
        state_of(after.deep_view().states, index) is Some,
        state_of(after.deep_view().states, index)->0.profile is Invalid,
        state_of(after.deep_view().states, index)->0.instance is None,
        state_of(after.deep_view().states, index)->0.failed_step == Some(
            LaunchStep::ValidateProfile,
        ),
        others_stay(before.deep_view().states, after.deep_view().states, index),
        after.deep_view().selected_session == Some(index),
        launch_error_text(error.deep_view()).is_suffix_of(
            state_of(after.deep_view().states, index)->0.detail,
        ),
{
    let old_view = before.deep_view();
    let new_view = after.deep_view();
    let name = name_at(sessions.deep_view(), index, "Unknown application"@);
    let reason = launch_error_text(error.deep_view());
    let detail = name + " check failed: "@ + reason;
    let picked = session_selected(old_view, index);
    let label = failure_label(error.deep_view());
    let failed = state_set(picked, index, label, detail);
    lemma_state_set(picked, index, label, detail);
    let state = state_of(failed.states, index)->0;
    let invalid = SessionStateView {
        profile: ProfileStatus::Invalid,
        instance: None,
        failed_step: Some(LaunchStep::ValidateProfile),
        ..state
    };
    let marked = known_state_set(failed, index, invalid);
    lemma_known_set(failed, index, invalid);
    lemma_others_stay_on(old_view.states, failed.states, marked.states, index);
    assert(detail.subrange(detail.len() - reason.len(), detail.len() as int) == reason);
}

/// The instances that run are those that were last counted, and the window is
/// drawn again just where that makes a difference.
pub proof fn law_counted_instances_are_known(
    before: ContainerMode,
    after: ContainerMode,
    sessions: Vec<ActiveSessionSnapshot>,
    effects: Vec<Effect>,
)
    requires
        exists|mode: &mut ContainerMode|
            *mode == before && *final(mode) == after && #[trigger] call_ensures(
                record_active_container_sessions,
                (mode, sessions),
                effects,
            ),
    ensures
        after.deep_view().active_sessions == sessions.deep_view(),
        after.deep_view().states == before.deep_view().states,
        effects.deep_view().len() == 0 <==> sessions.deep_view()
            == before.deep_view().active_sessions,
{
}

// ---------------------------------------------------------------------------
// Displays
// ---------------------------------------------------------------------------
/// A display that is being made is on its way, once.
pub proof fn law_begun_display_is_pending(
    before: ContainerMode,
    after: ContainerMode,
    slot: &str,
    now: u128,
    effects: Vec<Effect>,
)
    requires
        exists|mode: &mut ContainerMode|
            *mode == before && *final(mode) == after && #[trigger] call_ensures(
                record_managed_display_starting,
                (mode, slot, now),
                effects,
            ),
    ensures
        after.deep_view().pending_displays.contains(slot@),
        before.deep_view().pending_displays.contains(slot@) ==> after.deep_view().pending_displays
            == before.deep_view().pending_displays,
        forall|other: Seq<char>|
            other != slot@ ==> (#[trigger] after.deep_view().pending_displays.contains(other)
                <==> before.deep_view().pending_displays.contains(other)),
        after.deep_view().display_error is None,
{
    let old_view = before.deep_view();
    let new_view = after.deep_view();
    let pending = old_view.pending_displays;
    assert(pending.push(slot@)[pending.len() as int] == slot@);
    assert forall|other: Seq<char>| other != slot@ implies (#[trigger] pending.push(slot@).contains(
        other,
    ) <==> pending.contains(other)) by {
        if pending.contains(other) {
            let i = pending.index_of(other);
            assert(pending.push(slot@)[i] == other);
        }
        if pending.push(slot@).contains(other) {
            let i = pending.push(slot@).index_of(other);
            assert(pending[i] == other);
        }
    }
}

/// A display that failed is neither on its way nor closing, and why is shown and
/// told; the others stay.
pub proof fn law_failed_display_is_gone(
    before: ContainerMode,
    after: ContainerMode,
    slot: &str,
    error: &str,
    now: u128,
    effects: Vec<Effect>,
)
    requires
        exists|mode: &mut ContainerMode|
            *mode == before && *final(mode) == after && #[trigger] call_ensures(
                record_managed_display_failure,
                (mode, slot, error, now),
                effects,
            ),
    ensures
        !after.deep_view().pending_displays.contains(slot@),
        !after.deep_view().closing_displays.contains(slot@),
        forall|other: Seq<char>|
            other != slot@ ==> (#[trigger] after.deep_view().pending_displays.contains(other)
                <==> before.deep_view().pending_displays.contains(other)),
        forall|other: Seq<char>|
            other != slot@ ==> (#[trigger] after.deep_view().closing_displays.contains(other)
                <==> before.deep_view().closing_displays.contains(other)),
        after.deep_view().display_error is Some,
        error@.is_suffix_of(after.deep_view().display_error->0),
        is_told(after.deep_view().activity, after.deep_view().display_error->0),
{
    let old_view = before.deep_view();
    let new_view = after.deep_view();
    lemma_rest_stays(old_view.pending_displays, slot@);
    lemma_rest_stays(old_view.closing_displays, slot@);
    let message = "Managed display '"@ + slot@ + "': "@ + error@;
    assert(message.subrange(message.len() - error@.len(), message.len() as int) == error@);
    lemma_told(
        ModeView {
            pending_displays: without_text(old_view.pending_displays, slot@),
            closing_displays: without_text(old_view.closing_displays, slot@),
            display_error: Some(message),
            ..old_view
        },
        now,
        message,
    );
}

/// A display that closed is neither on its way nor closing; the others stay.
pub proof fn law_closed_display_is_gone(
    before: ContainerMode,
    after: ContainerMode,
    slot: &str,
    reason: &str,
    now: u128,
    effects: Vec<Effect>,
)
    requires
        exists|mode: &mut ContainerMode|
            *mode == before && *final(mode) == after && #[trigger] call_ensures(
                record_managed_display_exit,
                (mode, slot, reason, now),
                effects,
            ),
    ensures
        !after.deep_view().pending_displays.contains(slot@),
        !after.deep_view().closing_displays.contains(slot@),
        forall|other: Seq<char>|
            other != slot@ ==> (#[trigger] after.deep_view().pending_displays.contains(other)
                <==> before.deep_view().pending_displays.contains(other)),
        forall|other: Seq<char>|
            other != slot@ ==> (#[trigger] after.deep_view().closing_displays.contains(other)
                <==> before.deep_view().closing_displays.contains(other)),
        after.deep_view().display_error == before.deep_view().display_error,
{
    let old_view = before.deep_view();
    let new_view = after.deep_view();
    lemma_rest_stays(old_view.pending_displays, slot@);
    lemma_rest_stays(old_view.closing_displays, slot@);
}

// ---------------------------------------------------------------------------
// Images and containers
// ---------------------------------------------------------------------------
/// A pull that is over is no longer under way; an image that was pulled to be
/// used is offered to be set up, and no other.
pub proof fn law_pulled_image_is_offered(
    before: ContainerMode,
    after: ContainerMode,
    runtime: &str,
    image: &str,
    success: bool,
    status: &str,
    now: u128,
    effects: Vec<Effect>,
)
    requires
        exists|mode: &mut ContainerMode|
            *mode == before && *final(mode) == after && #[trigger] call_ensures(
                record_image_pull_finished,
                (mode, runtime, image, success, status, now),
                effects,
            ),
    ensures
        effects.deep_view().contains(
            EffectView::ConfigureImage { runtime: runtime@, image: image@ },
        ) <==> success && pull_place(before.deep_view().pending_pulls, runtime@, image@) >= 0,
        pull_place(before.deep_view().pending_pulls, runtime@, image@) >= 0
            ==> after.deep_view().pending_pulls.len() == before.deep_view().pending_pulls.len()
            - 1,
        pull_place(before.deep_view().pending_pulls, runtime@, image@) < 0
            ==> after.deep_view().pending_pulls == before.deep_view().pending_pulls,
        has_ended(
            before.deep_view().tasks,
            after.deep_view().tasks,
            resource_key("image"@, "pull"@, runtime@, image@),
            if success {
                TaskStatus::Completed
            } else {
                TaskStatus::Failed
            },
        ),
{
    let old_view = before.deep_view();
    let new_view = after.deep_view();
    let place = pull_place(old_view.pending_pulls, runtime@, image@);
    let settled = image_task_set(
        ModeView {
            pending_pulls: if place < 0 {
                old_view.pending_pulls
            } else {
                old_view.pending_pulls.remove(place)
            },
            ..old_view
        },
        None,
    );
    lemma_pull_is_there(old_view.pending_pulls, runtime@, image@);
    crate::profile_laws::law_end_follows_success(success);
    lemma_task_finished(
        settled,
        resource_key("image"@, "pull"@, runtime@, image@),
        end_status(success),
        status@,
        now,
    );
    let configure = EffectView::ConfigureImage { runtime: runtime@, image: image@ };
    if success && place >= 0 {
        assert(effects.deep_view()[2] == configure);
    }
}

/// A container that was deleted is no longer picked; one that was picked and is
/// still there is looked at anew; another that is picked stays as it was.
pub proof fn law_deleted_container_is_forgotten(
    before: ContainerMode,
    after: ContainerMode,
    runtime: &str,
    name: &str,
    action: &str,
    success: bool,
    status: &str,
    now: u128,
    effects: Vec<Effect>,
)
    requires
        exists|mode: &mut ContainerMode|
            *mode == before && *final(mode) == after && #[trigger] call_ensures(
                record_runtime_container_action_finished,
                (mode, runtime, name, action, success, status, now),
                effects,
            ),
    ensures
        ({
            let picked = before.deep_view().selected_container;
            let same = picked is Some && picked->0.runtime == runtime@ && picked->0.name == name@;
            &&& same && success && action@ == "delete"@
                ==> after.deep_view().selected_container is None
            &&& same && !(success && action@ == "delete"@)
                ==> after.deep_view().selected_container == picked
                && after.deep_view().container_details is None && effects.deep_view().contains(
                EffectView::RefreshContainerDetails { runtime: runtime@, name: name@ },
            )
            &&& !same ==> after.deep_view().selected_container == picked
                && after.deep_view().container_details == before.deep_view().container_details
        }),
{
    let old_view = before.deep_view();
    let new_view = after.deep_view();
    let picked = old_view.selected_container;
    let same = picked is Some && picked->0.runtime == runtime@ && picked->0.name == name@;
    if same && !(success && action@ == "delete"@) {
        assert(effects.deep_view()[1] == EffectView::RefreshContainerDetails {
            runtime: runtime@,
            name: name@,
        });
    }
}

/// Details are kept of the container that is picked, and of no other.
pub proof fn law_details_of_the_picked_are_kept(
    before: ContainerMode,
    after: ContainerMode,
    runtime: &str,
    name: &str,
    info: Vec<String>,
    logs: Vec<String>,
    stats: Vec<String>,
    error: Option<String>,
    effects: Vec<Effect>,
)
    requires
        exists|mode: &mut ContainerMode|
            *mode == before && *final(mode) == after && #[trigger] call_ensures(
                record_runtime_container_details_loaded,
                (mode, runtime, name, &info, &logs, &stats, error),
                effects,
            ),
    ensures
        ({
            let picked = before.deep_view().selected_container;
            let same = picked is Some && picked->0.runtime == runtime@ && picked->0.name == name@;
            &&& same ==> after.deep_view().container_details is Some
                && after.deep_view().container_details->0.runtime == runtime@
                && after.deep_view().container_details->0.name == name@
                && after.deep_view().container_details->0.error == error.deep_view()
            &&& !same ==> after.deep_view() == before.deep_view()
        }),
{
}

// ---------------------------------------------------------------------------
// What the user asks for
// ---------------------------------------------------------------------------
/// A launch that the user asks for is started just where no other application
/// holds the display; otherwise why is shown. Either way the application is
/// picked.
pub proof fn law_asked_launch_is_started(
    before: ContainerMode,
    after: ContainerMode,
    sessions: Vec<ContainerSession>,
    index: usize,
    now: u128,
    effects: Vec<Effect>,
)
    requires
        exists|mode: &mut ContainerMode|
            *mode == before && *final(mode) == after && #[trigger] call_ensures(
                launch_container_session,
                (mode, &sessions, index, now),
                effects,
            ),
    ensures
        effects.deep_view().contains(EffectView::StartSession(index)) <==> conflict_of(
            sessions.deep_view(),
            before.deep_view().active_sessions,
            index,
        ) is None,
        conflict_of(sessions.deep_view(), before.deep_view().active_sessions, index) is Some ==> {
            &&& is_known(after.deep_view(), index, InstanceStatus::Failed)
            &&& effects.deep_view()[0] is Alert
            &&& occurs(
                effects.deep_view()[0]->Alert_0,
                conflict_of(
                    sessions.deep_view(),
                    before.deep_view().active_sessions,
                    index,
                )->0,
            )
        },
        after.deep_view().selected_session == Some(index),
        after.deep_view().selected_nav == NAV_SESSIONS,
{
    let old_view = before.deep_view();
    let new_view = after.deep_view();
    let conflict = conflict_of(sessions.deep_view(), old_view.active_sessions, index);
    if conflict is Some {
        let message = crate::actions::conflict_message(conflict->0);
        lemma_state_set(old_view, index, "Blocked"@, message);
        law_words_are_states("Blocked"@);
        lemma_occurs(
            "Default display is already used by '"@,
            conflict->0,
            "'. Stop that session before launching another one."@,
        );
    } else {
        assert(effects.deep_view()[0] == EffectView::StartSession(index));
    }
}

/// A stop that the user asks for is begun just where there is something to stop.
pub proof fn law_asked_stop_is_begun(
    before: ContainerMode,
    after: ContainerMode,
    sessions: Vec<ContainerSession>,
    index: usize,
    now: u128,
    effects: Vec<Effect>,
)
    requires
        exists|mode: &mut ContainerMode|
            *mode == before && *final(mode) == after && #[trigger] call_ensures(
                stop_container_session,
                (mode, &sessions, index, now),
                effects,
            ),
    ensures
        effects.deep_view().contains(EffectView::StopSession(index)) <==> can_stop(
            state_of(before.deep_view().states, index),
        ),
        !can_stop(state_of(before.deep_view().states, index)) ==> after.deep_view().states
            == before.deep_view().states && after.deep_view().tasks == before.deep_view().tasks,
        after.deep_view().selected_session == Some(index),
{
    let old_view = before.deep_view();
    let new_view = after.deep_view();
    if can_stop(state_of(old_view.states, index)) {
        assert(effects.deep_view()[0] == EffectView::StopSession(index));
    }
}

/// A forced stop that the user asks for is begun.
pub proof fn law_asked_force_is_begun(
    before: ContainerMode,
    after: ContainerMode,
    index: usize,
    now: u128,
    effects: Vec<Effect>,
)
    requires
        exists|mode: &mut ContainerMode|
            *mode == before && *final(mode) == after && #[trigger] call_ensures(
                force_stop_container_session,
                (mode, index, now),
                effects,
            ),
    ensures
        effects.deep_view().contains(EffectView::ForceStopSession(index)),
        after.deep_view().states == before.deep_view().states,
{
    let old_view = before.deep_view();
    let new_view = after.deep_view();
    assert(effects.deep_view()[0] == EffectView::ForceStopSession(index));
}

/// A terminal that the user asks for is opened, and its tab is shown.
pub proof fn law_asked_terminal_is_opened(
    before: ContainerMode,
    after: ContainerMode,
    index: usize,
    now: u128,
    effects: Vec<Effect>,
)
    requires
        exists|mode: &mut ContainerMode|
            *mode == before && *final(mode) == after && #[trigger] call_ensures(
                open_container_terminal,
                (mode, index, now),
                effects,
            ),
    ensures
        effects.deep_view().contains(EffectView::OpenTerminal(index)),
        after.deep_view().selected_tab == 2,
        after.deep_view().selected_session == Some(index),
        after.deep_view().states == before.deep_view().states,
{
    let old_view = before.deep_view();
    let new_view = after.deep_view();
    assert(effects.deep_view()[0] == EffectView::OpenTerminal(index));
}

/// A page that the user turns to keeps what was picked on it, and nothing that
/// was picked elsewhere.
pub proof fn law_page_keeps_its_picks(
    before: ContainerMode,
    after: ContainerMode,
    nav: usize,
    effects: Vec<Effect>,
)
    requires
        exists|mode: &mut ContainerMode|
            *mode == before && *final(mode) == after && #[trigger] call_ensures(
                select_container_nav,
                (mode, nav),
                effects,
            ),
    ensures
        after.deep_view().selected_nav == nav,
        after.deep_view().selected_session is Some ==> nav == NAV_SESSIONS || nav == NAV_RUNNING,
        nav == NAV_SESSIONS || nav == NAV_RUNNING ==> after.deep_view().selected_session
            == before.deep_view().selected_session,
        after.deep_view().selected_image is Some ==> nav == NAV_IMAGES,
        nav == NAV_IMAGES ==> after.deep_view().selected_image
            == before.deep_view().selected_image,
        after.deep_view().selected_volume is Some ==> nav == NAV_VOLUMES,
        nav == NAV_VOLUMES ==> after.deep_view().selected_volume
            == before.deep_view().selected_volume,
        after.deep_view().selected_container matches Some(container) ==> page_of(container.runtime)
            == nav && after.deep_view().container_details == before.deep_view().container_details,
        before.deep_view().selected_container matches Some(container) ==> page_of(container.runtime)
            == nav ==> after.deep_view().selected_container == Some(container),
        after.deep_view().states == before.deep_view().states,
        after.deep_view().selected_tab == before.deep_view().selected_tab,
{
}

/// A profile that the user picks is the only thing that is picked, on the page of
/// what runs if that is shown.
pub proof fn law_picked_profile_is_alone(
    before: ContainerMode,
    after: ContainerMode,
    index: usize,
    effects: Vec<Effect>,
)
    requires
        exists|mode: &mut ContainerMode|
            *mode == before && *final(mode) == after && #[trigger] call_ensures(
                select_container_session,
                (mode, index),
                effects,
            ),
    ensures
        after.deep_view().selected_session == Some(index),
        after.deep_view().selected_image is None,
        after.deep_view().selected_volume is None,
        after.deep_view().selected_container is None,
        after.deep_view().container_details is None,
        before.deep_view().selected_nav == NAV_RUNNING ==> after.deep_view().selected_nav
            == NAV_RUNNING,
        before.deep_view().selected_nav != NAV_RUNNING ==> after.deep_view().selected_nav
            == NAV_SESSIONS,
        after.deep_view().states == before.deep_view().states,
{
}

/// An image that the user picks is picked, on the page of images.
pub proof fn law_picked_image_is_picked(
    before: ContainerMode,
    after: ContainerMode,
    image: SelectedImage,
    effects: Vec<Effect>,
)
    requires
        exists|mode: &mut ContainerMode|
            *mode == before && *final(mode) == after && #[trigger] call_ensures(
                select_container_image,
                (mode, image),
                effects,
            ),
    ensures
        after.deep_view().selected_image == Some(image.deep_view()),
        after.deep_view().selected_nav == NAV_IMAGES,
        after.deep_view().selected_session is None,
        after.deep_view().states == before.deep_view().states,
{
}

/// A volume that the user picks is picked, on the page of volumes.
pub proof fn law_picked_volume_is_picked(
    before: ContainerMode,
    after: ContainerMode,
    volume: SelectedVolume,
    effects: Vec<Effect>,
)
    requires
        exists|mode: &mut ContainerMode|
            *mode == before && *final(mode) == after && #[trigger] call_ensures(
                select_container_volume,
                (mode, volume),
                effects,
            ),
    ensures
        after.deep_view().selected_volume == Some(volume.deep_view()),
        after.deep_view().selected_nav == NAV_VOLUMES,
        after.deep_view().selected_session is None,
        after.deep_view().states == before.deep_view().states,
{
}

/// A container that the user picks is picked on the page of its runtime, and
/// looked at.
pub proof fn law_picked_container_is_looked_at(
    before: ContainerMode,
    after: ContainerMode,
    container: SelectedRuntimeContainer,
    effects: Vec<Effect>,
)
    requires
        exists|mode: &mut ContainerMode|
            *mode == before && *final(mode) == after && #[trigger] call_ensures(
                select_runtime_container,
                (mode, container),
                effects,
            ),
    ensures
        after.deep_view().selected_container == Some(container.deep_view()),
        after.deep_view().selected_nav == page_of(container.runtime@),
        after.deep_view().container_details is None,
        effects.deep_view().contains(
            EffectView::RefreshContainerDetails {
                runtime: container.runtime@,
                name: container.name@,
            },
        ),
{
    let old_view = before.deep_view();
    let new_view = after.deep_view();
    assert(effects.deep_view()[0] == EffectView::RefreshContainerDetails {
        runtime: container.runtime@,
        name: container.name@,
    });
}

/// A profile that was deleted leaves nothing picked and nothing known of the
/// profiles, whose places have changed; one that could not be deleted leaves
/// everything as it was, and why is shown.
pub proof fn law_deleted_profile_is_forgotten(
    before: ContainerMode,
    after: ContainerMode,
    name: &str,
    saved: Result<(), String>,
    now: u128,
    effects: Vec<Effect>,
)
    requires
        exists|mode: &mut ContainerMode|
            *mode == before && *final(mode) == after && #[trigger] call_ensures(
                session_deleted,
                (mode, name, saved, now),
                effects,
            ),
    ensures
        saved is Ok ==> after.deep_view().selected_session is None && after.deep_view().states.len()
            == 0 && after.deep_view().validation_requested.len() == 0 && is_told(
            after.deep_view().activity,
            name@,
        ),
        saved is Err ==> after.deep_view().selected_session == before.deep_view().selected_session
            && after.deep_view().states == before.deep_view().states && effects.deep_view().len()
            == 1 && effects.deep_view()[0] is Alert && saved->Err_0@.is_suffix_of(
            effects.deep_view()[0]->Alert_0,
        ),
{
    let old_view = before.deep_view();
    let new_view = after.deep_view();
    reveal(is_told);
    if saved is Ok {
        let message = "Deleted application profile: "@ + name@;
        let gone = ModeView {
            selected_session: None,
            selected_nav: NAV_SESSIONS,
            states: Seq::empty(),
            validation_requested: Seq::empty(),
            ..old_view
        };
        law_message_is_added(gone, now, message);
        let last = new_view.activity.last();
        assert(last.subrange(last.len() - name@.len(), last.len() as int) == name@);
    } else {
        let error = saved->Err_0@;
        let message = "Failed to delete session: "@ + error;
        assert(message.subrange(message.len() - error.len(), message.len() as int) == error);
    }
}

/// Messages that are cleared are gone, and nothing else is.
pub proof fn law_cleared_messages_are_gone(
    before: ContainerMode,
    after: ContainerMode,
    effects: Vec<Effect>,
)
    requires
        exists|mode: &mut ContainerMode|
            *mode == before && *final(mode) == after && #[trigger] call_ensures(
                clear_container_activity,
                (mode,),
                effects,
            ),
    ensures
        after.deep_view().activity.len() == 0,
        after.deep_view().tasks == before.deep_view().tasks,
        after.deep_view().logs == before.deep_view().logs,
        after.deep_view().states == before.deep_view().states,
{
}

/// A tab that the user turns to is shown, and nothing else changes.
pub proof fn law_picked_tab_is_shown(
    before: ContainerMode,
    after: ContainerMode,
    tab: usize,
    effects: Vec<Effect>,
)
    requires
        exists|mode: &mut ContainerMode|
            *mode == before && *final(mode) == after && #[trigger] call_ensures(
                select_container_tab,
                (mode, tab),
                effects,
            ),
    ensures
        after.deep_view().selected_tab == tab,
        after.deep_view().selected_session == before.deep_view().selected_session,
        after.deep_view().selected_nav == before.deep_view().selected_nav,
{
}

/// Reloading asks for everything anew, and for the details of a container that
/// is picked.
pub proof fn law_reload_asks_anew(
    before: ContainerMode,
    after: ContainerMode,
    effects: Vec<Effect>,
)
    requires
        exists|mode: &mut ContainerMode|
            *mode == before && *final(mode) == after && #[trigger] call_ensures(
                reload_container_mode,
                (mode,),
                effects,
            ),
    ensures
        effects.deep_view().contains(EffectView::InvalidateCommands),
        effects.deep_view().last() == EffectView::Rebuild,
        before.deep_view().selected_container matches Some(container) ==> effects.deep_view()
            .contains(
            EffectView::RefreshContainerDetails {
                runtime: container.runtime,
                name: container.name,
            },
        ) && after.deep_view().container_details is None,
        after.deep_view().selected_container == before.deep_view().selected_container,
{
    let old_view = before.deep_view();
    let new_view = after.deep_view();
    assert(effects.deep_view()[0] == EffectView::InvalidateCommands);
    if old_view.selected_container is Some {
        assert(effects.deep_view()[1] is RefreshContainerDetails);
    }
}

} // verus!
