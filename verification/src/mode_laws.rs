//! What the window remembers of tasks, profiles, runtimes and messages.
use vstd::prelude::*;

use crate::activity::{
    activity_line, entry_place, lemma_entry_place, lemma_same_places, log_cleared, log_line, log_of,
    logged,
};
use crate::application_model::{
    instance_label, task_active, InstanceStatus, ProfileStatus, RuntimeStatus, TaskStatus,
    TaskStepStatus,
};
use crate::container_mode::{
    active_of, can_stop, launch_key, note, profile_invalidated, runtime_place, runtime_state_of,
    state_changed, state_label, state_of, state_set, states_for, stop_key, task_started,
    with_known_state, with_runtime, with_state, without_index, without_number, ActiveView,
    ModeView, RuntimeStateView, SessionStateView,
};
use crate::profiles::runtime_key;
use crate::tasks::{
    active_tasks, finished, finished_task, last_of, latest_place, lemma_latest_place, new_task,
    running_place, started, step_place, stepped, stepped_task, without_active, TaskStepView,
    TaskView,
};
use crate::text::decimal;
use crate::text_laws::law_numbers_are_told_apart;

verus! {

// ---------------------------------------------------------------------------
// Tasks
// ---------------------------------------------------------------------------
/// A new task is queued, has its steps before it in their order, and none of
/// them is begun.
pub proof fn law_new_task_is_before_its_steps(
    id: u64,
    key: Seq<char>,
    operation: Seq<char>,
    subject: Seq<char>,
    steps: Seq<Seq<char>>,
    now: u128,
    i: int,
)
    ensures
        ({
            let task = new_task(id, key, operation, subject, steps, now);
            &&& task.id == id && task.key == key && task.operation == operation && task.subject
                == subject
            &&& task.status is Queued
            &&& task.created_at_unix_ms == now && task.updated_at_unix_ms == now
            &&& task.steps.len() == steps.len()
            &&& 0 <= i < steps.len() ==> task.steps[i].name == steps[i] && task.steps[i].status
                is Pending && task.steps[i].detail is None
        }),
{
}

proof fn lemma_step_place(steps: Seq<TaskStepView>, name: Seq<char>)
    ensures
        -1 <= step_place(steps, name) < steps.len(),
        step_place(steps, name) >= 0 ==> steps[step_place(steps, name)].name == name && forall|
            i: int,
        |
            0 <= i < step_place(steps, name) ==> (#[trigger] steps[i]).name != name,
        step_place(steps, name) < 0 ==> forall|i: int|
            0 <= i < steps.len() ==> (#[trigger] steps[i]).name != name,
    decreases steps.len(),
{
    if steps.len() > 0 {
        let front = steps.drop_last();
        lemma_step_place(front, name);
        let place = step_place(steps, name);
        if step_place(front, name) >= 0 {
            assert(steps[place] == front[place]);
            assert forall|i: int| 0 <= i < place implies (#[trigger] steps[i]).name != name by {
                assert(front[i] == steps[i]);
            }
        } else {
            assert forall|i: int| 0 <= i < steps.len() - 1 implies (#[trigger] steps[i]).name
                != name by {
                assert(front[i] == steps[i]);
            }
        }
    }
}

/// A step that a task has, and that is its first of that name, is marked as it
/// is told. A step that is begun closes the open ones before it. Nothing else
/// of the steps changes, and the task fails with a step that fails.
pub proof fn law_step_is_marked(
    task: TaskView,
    p: int,
    status: TaskStepStatus,
    detail: Option<Seq<char>>,
    now: u128,
    i: int,
)
    requires
        0 <= p < task.steps.len(),
        forall|k: int| 0 <= k < p ==> (#[trigger] task.steps[k]).name != task.steps[p].name,
        0 <= i < task.steps.len(),
    ensures
        ({
            let after = stepped_task(task, task.steps[p].name, status, detail, now);
            &&& after.steps.len() == task.steps.len()
            &&& after.steps[i].name == task.steps[i].name
            &&& after.steps[p].status == status
            &&& after.steps[p].detail == detail
            &&& i > p ==> after.steps[i] == task.steps[i]
            &&& i < p && status !is Running ==> after.steps[i] == task.steps[i]
            &&& i < p && status is Running && (task.steps[i].status is Pending
                || task.steps[i].status is Running) ==> after.steps[i].status is Completed
            &&& i < p && task.steps[i].status is Failed ==> after.steps[i].status is Failed
            &&& after.status is Failed <==> status is Failed
            &&& status !is Failed ==> after.status is Running
            &&& after.detail == detail
            &&& after.updated_at_unix_ms == now
            &&& after.id == task.id && after.key == task.key && after.subject == task.subject
                && after.operation == task.operation && after.created_at_unix_ms
                == task.created_at_unix_ms
        }),
{
    lemma_step_place(task.steps, task.steps[p].name);
    let place = step_place(task.steps, task.steps[p].name);
    if place < p {
        if place >= 0 {
            assert(task.steps[place].name != task.steps[p].name);
        }
    }
    assert(place == p);
}

/// A step that a task does not have leaves its steps as they are.
pub proof fn law_unknown_step_is_passed_over(
    task: TaskView,
    name: Seq<char>,
    status: TaskStepStatus,
    detail: Option<Seq<char>>,
    now: u128,
)
    requires
        forall|k: int| 0 <= k < task.steps.len() ==> (#[trigger] task.steps[k]).name != name,
    ensures
        stepped_task(task, name, status, detail, now).steps == task.steps,
{
    lemma_step_place(task.steps, name);
}

proof fn lemma_running_place(steps: Seq<TaskStepView>)
    ensures
        -1 <= running_place(steps) < steps.len(),
        running_place(steps) >= 0 ==> steps[running_place(steps)].status is Running,
        running_place(steps) < 0 ==> forall|i: int|
            0 <= i < steps.len() ==> (#[trigger] steps[i]).status !is Running,
    decreases steps.len(),
{
    if steps.len() > 0 {
        let front = steps.drop_last();
        lemma_running_place(front);
        if running_place(front) >= 0 {
            assert(steps[running_place(steps)] == front[running_place(steps)]);
        } else {
            assert forall|i: int| 0 <= i < steps.len() - 1 implies (#[trigger] steps[i]).status
                !is Running by {
                assert(front[i] == steps[i]);
            }
        }
    }
}

/// A task that ends says how and when. One that succeeded has no open step; one
/// that failed has failed in the step that was under way; one that was cancelled
/// keeps its steps. The names of the steps stay.
pub proof fn law_end_is_marked(
    task: TaskView,
    status: TaskStatus,
    detail: Seq<char>,
    now: u128,
    i: int,
)
    requires
        0 <= i < task.steps.len(),
    ensures
        ({
            let after = finished_task(task, status, detail, now);
            &&& after.status == status
            &&& after.detail == Some(detail)
            &&& after.updated_at_unix_ms == now
            &&& after.key == task.key && after.id == task.id
            &&& after.steps.len() == task.steps.len()
            &&& after.steps[i].name == task.steps[i].name
            &&& status is Completed && task.steps[i].status !is Failed ==> after.steps[i].status
                is Completed
            &&& status is Failed && task.steps[i].status is Running && (forall|k: int|
                0 <= k < i ==> (#[trigger] task.steps[k]).status !is Running)
                ==> after.steps[i].status is Failed
            &&& status is Failed && task.steps[i].status !is Running ==> after.steps[i]
                == task.steps[i]
            &&& status is Cancelled ==> after.steps == task.steps
        }),
{
    lemma_running_place(task.steps);
    let place = running_place(task.steps);
    if status is Failed && task.steps[i].status is Running && (forall|k: int|
        0 <= k < i ==> (#[trigger] task.steps[k]).status !is Running) {
        lemma_first_running(task.steps, i);
    }
}

proof fn lemma_first_running(steps: Seq<TaskStepView>, i: int)
    requires
        0 <= i < steps.len(),
        steps[i].status is Running,
        forall|k: int| 0 <= k < i ==> (#[trigger] steps[k]).status !is Running,
    ensures
        running_place(steps) == i,
    decreases steps.len(),
{
    let front = steps.drop_last();
    if i < front.len() {
        assert forall|k: int| 0 <= k < i implies (#[trigger] front[k]).status !is Running by {
            assert(front[k] == steps[k]);
        }
        lemma_first_running(front, i);
    } else {
        lemma_running_place(front);
        if running_place(front) >= 0 {
            assert(front[running_place(front)] == steps[running_place(front)]);
        }
    }
}

/// A step and an end change the latest task of their key alone; tasks of other
/// keys stay, and where there is none of the key, all stay.
pub proof fn law_other_tasks_stay(
    tasks: Seq<TaskView>,
    key: Seq<char>,
    step: Seq<char>,
    step_status: TaskStepStatus,
    note: Option<Seq<char>>,
    status: TaskStatus,
    detail: Seq<char>,
    now: u128,
    i: int,
)
    requires
        0 <= i < tasks.len(),
    ensures
        stepped(tasks, key, step, step_status, note, now).len() == tasks.len(),
        finished(tasks, key, status, detail, now).len() == tasks.len(),
        tasks[i].key != key ==> stepped(tasks, key, step, step_status, note, now)[i] == tasks[i]
            && finished(tasks, key, status, detail, now)[i] == tasks[i],
        tasks[i].key == key && (forall|k: int| i < k < tasks.len() ==> (#[trigger] tasks[k]).key
            != key) ==> stepped(tasks, key, step, step_status, note, now)[i] == stepped_task(
            tasks[i],
            step,
            step_status,
            note,
            now,
        ) && finished(tasks, key, status, detail, now)[i] == finished_task(
            tasks[i],
            status,
            detail,
            now,
        ),
{
    lemma_latest_place(tasks, key);
    let place = latest_place(tasks, key);
    if tasks[i].key == key && (forall|k: int| i < k < tasks.len() ==> (#[trigger] tasks[k]).key
        != key) {
        if place > i {
            assert(tasks[place].key != key);
        }
        assert(place == i);
    }
}

proof fn lemma_other_keys_kept(tasks: Seq<TaskView>, key: Seq<char>, task: TaskView)
    requires
        tasks.contains(task),
        task.key != key || !task_active(task.status),
    ensures
        without_active(tasks, key).contains(task),
    decreases tasks.len(),
{
    let front = tasks.drop_last();
    let i = choose|i: int| 0 <= i < tasks.len() && tasks[i] == task;
    let kept = without_active(tasks, key);
    if i < front.len() {
        assert(front[i] == task);
        lemma_other_keys_kept(front, key, task);
        let before = without_active(front, key);
        let k = choose|k: int| 0 <= k < before.len() && before[k] == task;
        assert(kept[k] == task);
    } else {
        assert(kept.last() == task);
        assert(kept.contains(kept[kept.len() - 1]));
    }
}

proof fn lemma_kept_length(tasks: Seq<TaskView>, key: Seq<char>)
    ensures
        without_active(tasks, key).len() <= tasks.len(),
    decreases tasks.len(),
{
    if tasks.len() > 0 {
        lemma_kept_length(tasks.drop_last(), key);
    }
}

/// A task that is started is the last; the tasks before it stay, as long as
/// there is room, but for those of its key that were still under way.
pub proof fn law_started_task_is_added(tasks: Seq<TaskView>, task: TaskView, other: TaskView)
    requires
        tasks.len() < 100,
    ensures
        started(tasks, task).last() == task,
        tasks.contains(other) && (other.key != task.key || !task_active(other.status)) ==> started(
            tasks,
            task,
        ).contains(other),
{
    lemma_kept_length(tasks, task.key);
    let kept = without_active(tasks, task.key);
    if tasks.contains(other) && (other.key != task.key || !task_active(other.status)) {
        lemma_other_keys_kept(tasks, task.key, other);
        let k = choose|k: int| 0 <= k < kept.len() && kept[k] == other;
        assert(kept.push(task)[k] == other);
    }
}

/// Every task of the window gets a number of its own.
pub proof fn law_tasks_are_numbered(
    mode: ModeView,
    key: Seq<char>,
    operation: Seq<char>,
    subject: Seq<char>,
    steps: Seq<Seq<char>>,
    now: u128,
)
    requires
        mode.next_task < u64::MAX,
        mode.tasks.len() < 100,
    ensures
        task_started(mode, key, operation, subject, steps, now).tasks.last().id == mode.next_task,
        task_started(mode, key, operation, subject, steps, now).tasks.last().key == key,
        task_started(mode, key, operation, subject, steps, now).next_task == mode.next_task + 1,
        task_started(mode, key, operation, subject, steps, now).states == mode.states,
{
    law_started_task_is_added(
        mode.tasks,
        new_task(mode.next_task, key, operation, subject, steps, now),
        new_task(mode.next_task, key, operation, subject, steps, now),
    );
}

/// The tasks that are under way are counted, list by list.
pub proof fn law_active_tasks_are_counted(a: Seq<TaskView>, b: Seq<TaskView>, task: TaskView)
    ensures
        active_tasks(a + b) == active_tasks(a) + active_tasks(b),
        active_tasks(seq![task]) == (if task.status is Queued || task.status is Running {
            1nat
        } else {
            0nat
        }),
    decreases b.len(),
{
    reveal_with_fuel(active_tasks, 2);
    assert(seq![task].drop_last().len() == 0);
    if b.len() == 0 {
        assert(a + b == a);
    } else {
        assert((a + b).drop_last() == a + b.drop_last());
        law_active_tasks_are_counted(a, b.drop_last(), task);
    }
}

/// Of a list that is too long the last entries are kept, and all of one that is
/// not.
pub proof fn law_last_entries_are_kept(list: Seq<Seq<char>>, most: nat)
    ensures
        list.len() <= most ==> last_of(list, most) == list,
        list.len() > most ==> last_of(list, most).len() == most && last_of(list, most).is_suffix_of(
            list,
        ),
{
    if list.len() > most {
        assert(list.skip(list.len() - most) =~= last_of(list, most));
    }
}

// ---------------------------------------------------------------------------
// States of profiles
// ---------------------------------------------------------------------------
proof fn lemma_place_after_push<A>(entries: Seq<(usize, A)>, entry: (usize, A), index: usize)
    ensures
        entry_place(entries, index) >= 0 ==> entry_place(entries.push(entry), index) == entry_place(
            entries,
            index,
        ),
        entry_place(entries, index) < 0 && entry.0 == index ==> entry_place(
            entries.push(entry),
            index,
        ) == entries.len(),
        entry_place(entries, index) < 0 && entry.0 != index ==> entry_place(
            entries.push(entry),
            index,
        ) < 0,
{
    assert(entries.push(entry).drop_last() == entries);
    lemma_entry_place(entries, index);
}

/// The state that a profile is given is the state that it has, and other
/// profiles keep theirs. A state is changed of a known profile only where that
/// is asked.
pub proof fn law_state_is_remembered(
    states: Seq<(usize, SessionStateView)>,
    index: usize,
    other: usize,
    state: SessionStateView,
)
    requires
        index != other,
    ensures
        state_of(with_state(states, index, state), index) == Some(state),
        state_of(with_state(states, index, state), other) == state_of(states, other),
        state_of(states, index) is Some ==> state_of(with_known_state(states, index, state), index)
            == Some(state),
        state_of(states, index) is None ==> with_known_state(states, index, state) == states,
        state_of(with_known_state(states, index, state), other) == state_of(states, other),
{
    lemma_entry_place(states, index);
    lemma_entry_place(states, other);
    let place = entry_place(states, index);
    if place < 0 {
        lemma_place_after_push(states, (index, state), index);
        lemma_place_after_push(states, (index, state), other);
    } else {
        let after = states.update(place, (index, state));
        lemma_same_places(states, after, index);
        lemma_same_places(states, after, other);
    }
}

/// A profile that is told to be in a state is shown in it, keeps the step that
/// it failed in, and can be stopped by force only while it is being stopped.
pub proof fn law_state_is_shown(mode: ModeView, index: usize, status: InstanceStatus, detail: Seq<char>)
    ensures
        ({
            let after = state_of(
                state_set(mode, index, instance_label(status), detail).states,
                index,
            );
            &&& after is Some
            &&& after->0.instance == Some(status)
            &&& state_label(after->0) == instance_label(status)
            &&& after->0.detail == detail
            &&& after->0.profile is Invalid <==> status is Failed
            &&& state_of(mode.states, index) matches Some(before) ==> after->0.failed_step
                == before.failed_step
            &&& after->0.force_stop_available ==> status is Stopping
        }),
{
    let label = instance_label(status);
    lemma_labels_differ();
    let other: usize = if index == 0 {
        1
    } else {
        0
    };
    law_state_is_remembered(
        mode.states,
        index,
        other,
        state_changed(state_of(mode.states, index), label, detail),
    );
}

proof fn lemma_labels_differ()
    ensures
        states_for("Starting"@).1 == Some(InstanceStatus::Starting),
        states_for("Running"@).1 == Some(InstanceStatus::Running),
        states_for("Stopping"@).1 == Some(InstanceStatus::Stopping),
        states_for("Exited"@).1 == Some(InstanceStatus::Exited),
        states_for("Failed"@).1 == Some(InstanceStatus::Failed),
        states_for("Starting"@).0 is Ready,
        states_for("Running"@).0 is Ready,
        states_for("Stopping"@).0 is Ready,
        states_for("Exited"@).0 is Ready,
        states_for("Failed"@).0 is Invalid,
        states_for("Stopped"@) == (ProfileStatus::Ready, Some(InstanceStatus::Exited)),
        states_for("Checking"@) == (ProfileStatus::Ready, Some(InstanceStatus::Starting)),
        states_for("Error"@) == (ProfileStatus::Invalid, Some(InstanceStatus::Failed)),
        states_for("Blocked"@) == (ProfileStatus::Invalid, Some(InstanceStatus::Failed)),
{
    reveal_strlit("Starting");
    reveal_strlit("Checking");
    reveal_strlit("Running");
    reveal_strlit("Stopping");
    reveal_strlit("Stopped");
    reveal_strlit("Exited");
    reveal_strlit("Error");
    reveal_strlit("Blocked");
    reveal_strlit("Failed");
    assert("Starting"@[0] == 'S' && "Checking"@[0] == 'C' && "Running"@[0] == 'R'
        && "Stopping"@[0] == 'S' && "Stopped"@[0] == 'S' && "Exited"@[0] == 'E' && "Error"@[0]
        == 'E' && "Blocked"@[0] == 'B' && "Failed"@[0] == 'F');
    assert("Starting"@[2] == 'a' && "Stopping"@[2] == 'o' && "Stopped"@.len() == 7
        && "Stopping"@.len() == 8 && "Exited"@.len() == 6 && "Error"@.len() == 5);
}

/// What is being started or checked, runs, is being stopped, has exited and has
/// failed is told by its word; a word that is not known is of no instance.
pub proof fn law_words_are_states(label: Seq<char>)
    ensures
        label == "Starting"@ || label == "Checking"@ ==> states_for(label) == (
            ProfileStatus::Ready,
            Some(InstanceStatus::Starting),
        ),
        label == "Running"@ ==> states_for(label) == (
            ProfileStatus::Ready,
            Some(InstanceStatus::Running),
        ),
        label == "Stopping"@ ==> states_for(label) == (
            ProfileStatus::Ready,
            Some(InstanceStatus::Stopping),
        ),
        label == "Stopped"@ || label == "Exited"@ ==> states_for(label) == (
            ProfileStatus::Ready,
            Some(InstanceStatus::Exited),
        ),
        label == "Error"@ || label == "Blocked"@ || label == "Failed"@ ==> states_for(label) == (
            ProfileStatus::Invalid,
            Some(InstanceStatus::Failed),
        ),
        states_for(label).1 is None ==> states_for(label).0 is Ready && label != "Running"@,
{
    lemma_labels_differ();
}

/// A profile can be stopped just while it is started, runs or is stopped.
pub proof fn law_only_active_can_stop(state: SessionStateView)
    ensures
        can_stop(Some(state)) <==> (state.instance matches Some(status) && (status is Starting
            || status is Running || status is Stopping)),
        !can_stop(None),
{
}

proof fn lemma_place_without<A>(entries: Seq<(usize, A)>, index: usize, other: usize)
    requires
        index != other,
    ensures
        entry_place(without_index(entries, index), index) < 0,
        entry_place(without_index(entries, index), other) >= 0 <==> entry_place(entries, other)
            >= 0,
        entry_place(entries, other) >= 0 ==> without_index(entries, index)[entry_place(
            without_index(entries, index),
            other,
        )] == entries[entry_place(entries, other)],
    decreases entries.len(),
{
    if entries.len() > 0 {
        let front = entries.drop_last();
        lemma_place_without(front, index, other);
        let kept = without_index(front, index);
        lemma_entry_place(front, other);
        lemma_entry_place(kept, other);
        if entries.last().0 != index {
            lemma_place_after_push(kept, entries.last(), index);
            lemma_place_after_push(kept, entries.last(), other);
            assert(kept.push(entries.last()).drop_last() == kept);
        }
        assert(entries == front.push(entries.last()));
        lemma_place_after_push(front, entries.last(), other);
    }
}

/// A profile that is forgotten has no state and is checked anew; other profiles
/// keep what is known of them.
pub proof fn law_forgotten_profile_is_unknown(mode: ModeView, index: usize, other: usize)
    requires
        index != other,
    ensures
        state_of(profile_invalidated(mode, index).states, index) is None,
        state_of(profile_invalidated(mode, index).states, other) == state_of(mode.states, other),
        !profile_invalidated(mode, index).validation_requested.contains(index),
        profile_invalidated(mode, index).validation_requested.contains(other)
            <==> mode.validation_requested.contains(other),
{
    lemma_place_without(mode.states, index, other);
    lemma_number_without(mode.validation_requested, index, other);
}

proof fn lemma_number_without(numbers: Seq<usize>, index: usize, other: usize)
    requires
        index != other,
    ensures
        !without_number(numbers, index).contains(index),
        without_number(numbers, index).contains(other) <==> numbers.contains(other),
    decreases numbers.len(),
{
    if numbers.len() > 0 {
        let front = numbers.drop_last();
        lemma_number_without(front, index, other);
        let before = without_number(front, index);
        let kept = without_number(numbers, index);
        if kept.contains(index) {
            let k = choose|k: int| 0 <= k < kept.len() && kept[k] == index;
            if k < before.len() {
                assert(before[k] == index);
            }
        }
        if numbers.contains(other) {
            let k = choose|k: int| 0 <= k < numbers.len() && numbers[k] == other;
            if k < front.len() {
                assert(front[k] == other);
                let j = choose|j: int| 0 <= j < before.len() && before[j] == other;
                assert(kept[j] == other);
            } else {
                assert(kept[kept.len() - 1] == other);
            }
        }
        if kept.contains(other) {
            let k = choose|k: int| 0 <= k < kept.len() && kept[k] == other;
            if k < before.len() {
                assert(before[k] == other);
                let j = choose|j: int| 0 <= j < front.len() && front[j] == other;
                assert(numbers[j] == other);
            } else {
                assert(numbers[numbers.len() - 1] == other);
            }
        }
    }
}

/// The instance of a profile is found where there is one, and is of that
/// profile.
pub proof fn law_instance_is_found(active: Seq<ActiveView>, index: usize, i: int)
    ensures
        active_of(active, index) matches Some(found) ==> found.profile_index == index
            && active.contains(found),
        0 <= i < active.len() && active[i].profile_index == index ==> active_of(active, index)
            is Some,
    decreases active.len(),
{
    if active.len() > 0 {
        let rest = active.drop_first();
        law_instance_is_found(rest, index, i - 1);
        if active.first().profile_index == index {
            assert(active.contains(active[0]));
        } else {
            if active_of(rest, index) is Some {
                let found = active_of(rest, index)->0;
                let k = choose|k: int| 0 <= k < rest.len() && rest[k] == found;
                assert(active[k + 1] == found);
            }
            if 0 < i < active.len() {
                assert(rest[i - 1] == active[i]);
            }
        }
    }
}

// ---------------------------------------------------------------------------
// States of runtimes
// ---------------------------------------------------------------------------
proof fn lemma_runtime_place(states: Seq<RuntimeStateView>, key: Seq<char>)
    ensures
        -1 <= runtime_place(states, key) < states.len(),
        runtime_place(states, key) >= 0 ==> states[runtime_place(states, key)].runtime == key,
    decreases states.len(),
{
    if states.len() > 0 {
        lemma_runtime_place(states.drop_last(), key);
    }
}

proof fn lemma_same_runtime_places(
    a: Seq<RuntimeStateView>,
    b: Seq<RuntimeStateView>,
    key: Seq<char>,
)
    requires
        a.len() == b.len(),
        forall|i: int| 0 <= i < a.len() ==> (#[trigger] a[i]).runtime == b[i].runtime,
    ensures
        runtime_place(a, key) == runtime_place(b, key),
    decreases a.len(),
{
    if a.len() > 0 {
        assert forall|i: int| 0 <= i < a.drop_last().len() implies (#[trigger] a.drop_last()[i]).runtime
            == b.drop_last()[i].runtime by {
            assert(a[i].runtime == b[i].runtime);
        }
        lemma_same_runtime_places(a.drop_last(), b.drop_last(), key);
        assert(a[a.len() - 1].runtime == b[b.len() - 1].runtime);
    }
}

/// The state that a runtime is given is the state that it has, by whichever of
/// its names it is asked for; other runtimes keep theirs.
pub proof fn law_runtime_state_is_remembered(
    states: Seq<RuntimeStateView>,
    runtime: Seq<char>,
    other: Seq<char>,
    status: RuntimeStatus,
    detail: Seq<char>,
)
    ensures
        runtime_key(other) == runtime_key(runtime) ==> (runtime_state_of(
            with_runtime(states, runtime, status, detail),
            other,
        ) matches Some(state) && state.status == status && state.detail == detail),
        runtime_key(other) != runtime_key(runtime) ==> runtime_state_of(
            with_runtime(states, runtime, status, detail),
            other,
        ) == runtime_state_of(states, other),
{
    let key = runtime_key(runtime);
    let after = with_runtime(states, runtime, status, detail);
    lemma_runtime_place(states, key);
    lemma_runtime_place(states, runtime_key(other));
    let place = runtime_place(states, key);
    if place < 0 {
        assert(after.drop_last() == states);
    } else {
        lemma_same_runtime_places(states, after, key);
        lemma_same_runtime_places(states, after, runtime_key(other));
    }
}

// ---------------------------------------------------------------------------
// Keys and messages
// ---------------------------------------------------------------------------
/// Launches and stops of different profiles are different operations.
pub proof fn law_operations_are_told_apart(a: usize, b: usize)
    ensures
        a != b ==> launch_key(a) != launch_key(b) && stop_key(a) != stop_key(b),
        launch_key(a) != stop_key(b),
{
    reveal_strlit("launch-profile-");
    reveal_strlit("stop-profile-");
    if a != b {
        law_numbers_are_told_apart(a as nat, b as nat);
        assert(launch_key(a).skip(15) =~= decimal(a as nat));
        assert(launch_key(b).skip(15) =~= decimal(b as nat));
        assert(stop_key(a).skip(13) =~= decimal(a as nat));
        assert(stop_key(b).skip(13) =~= decimal(b as nat));
    }
    assert(launch_key(a)[0] == 'l');
    assert(stop_key(b)[0] == 's');
}

/// A message is added behind the others with its time in seconds; the others
/// stay as long as there is room, and nothing else changes.
pub proof fn law_message_is_added(mode: ModeView, now: u128, message: Seq<char>)
    ensures
        note(mode, now, message).activity.len() > 0,
        note(mode, now, message).activity.last() == "["@ + decimal((now / 1000) as nat) + "] "@
            + message,
        mode.activity.len() < 50 ==> note(mode, now, message).activity.drop_last() == mode.activity,
        note(mode, now, message).states == mode.states,
        note(mode, now, message).tasks == mode.tasks,
        note(mode, now, message).logs == mode.logs,
{
    let line = activity_line(now, message);
    let all = mode.activity.push(line);
    if mode.activity.len() < 50 {
        assert(all.drop_last() =~= mode.activity);
    }
}

/// A log that is cleared is empty, and the logs of other profiles stay; lines
/// that were there stay before a line that is added, as long as there is room.
pub proof fn law_log_is_kept_until_cleared(
    logs: Seq<(usize, Seq<Seq<char>>)>,
    index: usize,
    other: usize,
    source: Seq<char>,
    line: Seq<char>,
)
    requires
        index != other,
    ensures
        log_of(log_cleared(logs, index), index).len() == 0,
        log_of(log_cleared(logs, index), other) == log_of(logs, other),
        log_of(logs, index).len() < 200 ==> log_of(logged(logs, index, source, line), index)
            == log_of(logs, index).push(log_line(source, line)),
{
    lemma_entry_place(logs, index);
    lemma_entry_place(logs, other);
    let place = entry_place(logs, index);
    if place >= 0 {
        let cleared = log_cleared(logs, index);
        lemma_same_places(logs, cleared, index);
        lemma_same_places(logs, cleared, other);
        let after = logged(logs, index, source, line);
        lemma_same_places(logs, after, index);
    } else {
        let entry = (index, seq![log_line(source, line)]);
        lemma_place_after_push(logs, entry, index);
        assert(log_of(logs, index).push(log_line(source, line)) =~= seq![log_line(source, line)]);
    }
}

} // verus!
