//! The tasks that the user sees: what they do, how far they have come, and how
//! they ended.
use vstd::prelude::*;
use vstd::string::*;

use crate::application_model::{task_active, TaskStatus, TaskStepStatus};
use crate::text::{copy_list, copy_option, same};

verus! {

/// The most tasks that are remembered.
pub const TASK_LIMIT: usize = 100;

/// A step of a task.
#[derive(Debug)]
pub struct TaskStep {
    pub name: String,
    pub status: TaskStepStatus,
    pub detail: Option<String>,
}

#[verifier::ext_equal]
pub struct TaskStepView {
    pub name: Seq<char>,
    pub status: TaskStepStatus,
    pub detail: Option<Seq<char>>,
}

impl DeepView for TaskStep {
    type V = TaskStepView;

    open spec fn deep_view(&self) -> TaskStepView {
        TaskStepView {
            name: self.name@,
            status: self.status,
            detail: self.detail.deep_view(),
        }
    }
}

/// A task. Its key says what it is about: a later task with the same key takes
/// its place.
#[derive(Debug)]
pub struct OperationTask {
    pub id: u64,
    pub key: String,
    pub operation: String,
    pub subject: String,
    pub status: TaskStatus,
    pub steps: Vec<TaskStep>,
    pub detail: Option<String>,
    pub created_at_unix_ms: u128,
    pub updated_at_unix_ms: u128,
}

#[verifier::ext_equal]
pub struct TaskView {
    pub id: u64,
    pub key: Seq<char>,
    pub operation: Seq<char>,
    pub subject: Seq<char>,
    pub status: TaskStatus,
    pub steps: Seq<TaskStepView>,
    pub detail: Option<Seq<char>>,
    pub created_at_unix_ms: u128,
    pub updated_at_unix_ms: u128,
}

impl DeepView for OperationTask {
    type V = TaskView;

    open spec fn deep_view(&self) -> TaskView {
        TaskView {
            id: self.id,
            key: self.key@,
            operation: self.operation@,
            subject: self.subject@,
            status: self.status,
            steps: self.steps.deep_view(),
            detail: self.detail.deep_view(),
            created_at_unix_ms: self.created_at_unix_ms,
            updated_at_unix_ms: self.updated_at_unix_ms,
        }
    }
}

impl Clone for TaskStep {
    fn clone(&self) -> (result: Self)
        ensures
            result.deep_view() == self.deep_view(),
    {
        TaskStep {
            name: self.name.clone(),
            status: self.status,
            detail: copy_option(&self.detail),
        }
    }
}

fn copy_steps(steps: &Vec<TaskStep>) -> (result: Vec<TaskStep>)
    ensures
        result.deep_view() == steps.deep_view(),
{
    let mut result: Vec<TaskStep> = Vec::new();
    for i in 0..steps.len()
        invariant
            result@.len() == i,
            forall|j: int|
                0 <= j < i ==> (#[trigger] result@[j]).deep_view() == steps@[j].deep_view(),
    {
        result.push(steps[i].clone());
    }
    assert(result.deep_view() == steps.deep_view());
    result
}

impl Clone for OperationTask {
    fn clone(&self) -> (result: Self)
        ensures
            result.deep_view() == self.deep_view(),
    {
        OperationTask {
            id: self.id,
            key: self.key.clone(),
            operation: self.operation.clone(),
            subject: self.subject.clone(),
            status: self.status,
            steps: copy_steps(&self.steps),
            detail: copy_option(&self.detail),
            created_at_unix_ms: self.created_at_unix_ms,
            updated_at_unix_ms: self.updated_at_unix_ms,
        }
    }
}

// ---------------------------------------------------------------------------
// The last of a list
// ---------------------------------------------------------------------------
/// The last members of a list, at most some number of them.
pub open spec fn last_of<A>(list: Seq<A>, most: nat) -> Seq<A> {
    if list.len() > most {
        list.skip(list.len() - most)
    } else {
        list
    }
}

/// Drops members from the front until a list has no more than some number.
pub fn keep_last<A: DeepView>(list: &mut Vec<A>, most: usize)
    ensures
        final(list)@ == last_of(old(list)@, most as nat),
        final(list).deep_view() == last_of(old(list).deep_view(), most as nat),
{
    let ghost before = *list;
    if list.len() > most {
        let overflow: usize = list.len() - most;
        let mut tail = list.split_off(overflow);
        std::mem::swap(list, &mut tail);
        assert(list@ == before@.skip(overflow as int));
    }
    assert(list.deep_view() == last_of(before.deep_view(), most as nat));
}

/// A list of strings without those before its last ones.
pub fn last_texts(list: &Vec<String>, most: usize) -> (result: Vec<String>)
    ensures
        result.deep_view() == last_of(list.deep_view(), most as nat),
{
    let mut result = copy_list(list);
    keep_last(&mut result, most);
    result
}

// ---------------------------------------------------------------------------
// What happens to tasks
// ---------------------------------------------------------------------------
pub open spec fn pending_step(name: Seq<char>) -> TaskStepView {
    TaskStepView { name, status: TaskStepStatus::Pending, detail: None }
}

pub open spec fn new_task(
    id: u64,
    key: Seq<char>,
    operation: Seq<char>,
    subject: Seq<char>,
    steps: Seq<Seq<char>>,
    now: u128,
) -> TaskView {
    TaskView {
        id,
        key,
        operation,
        subject,
        status: TaskStatus::Queued,
        steps: steps.map_values(|name: Seq<char>| pending_step(name)),
        detail: None,
        created_at_unix_ms: now,
        updated_at_unix_ms: now,
    }
}

/// The tasks without those of a key that still go on.
pub open spec fn without_active(tasks: Seq<TaskView>, key: Seq<char>) -> Seq<TaskView>
    decreases tasks.len(),
{
    if tasks.len() == 0 {
        Seq::empty()
    } else if tasks.last().key == key && task_active(tasks.last().status) {
        without_active(tasks.drop_last(), key)
    } else {
        without_active(tasks.drop_last(), key).push(tasks.last())
    }
}

/// A task is started: it takes the place of the tasks with its key that still
/// go on, and comes last.
pub open spec fn started(tasks: Seq<TaskView>, task: TaskView) -> Seq<TaskView> {
    last_of(without_active(tasks, task.key).push(task), TASK_LIMIT as nat)
}

/// The place of the last task with a key, or -1.
pub open spec fn latest_place(tasks: Seq<TaskView>, key: Seq<char>) -> int
    decreases tasks.len(),
{
    if tasks.len() == 0 {
        -1
    } else if tasks.last().key == key {
        tasks.len() - 1
    } else {
        latest_place(tasks.drop_last(), key)
    }
}

/// The place of the first step with a name, or -1.
pub open spec fn step_place(steps: Seq<TaskStepView>, name: Seq<char>) -> int
    decreases steps.len(),
{
    if steps.len() == 0 {
        -1
    } else {
        let before = step_place(steps.drop_last(), name);
        if before >= 0 {
            before
        } else if steps.last().name == name {
            steps.len() - 1
        } else {
            -1
        }
    }
}

/// The place of the first step that is running, or -1.
pub open spec fn running_place(steps: Seq<TaskStepView>) -> int
    decreases steps.len(),
{
    if steps.len() == 0 {
        -1
    } else {
        let before = running_place(steps.drop_last());
        if before >= 0 {
            before
        } else if steps.last().status is Running {
            steps.len() - 1
        } else {
            -1
        }
    }
}

/// A step that comes before one that is running is done, unless it failed.
pub open spec fn passed(step: TaskStepView) -> TaskStepView {
    if step.status is Pending || step.status is Running {
        TaskStepView { status: TaskStepStatus::Completed, ..step }
    } else {
        step
    }
}

/// A step of a task has come somewhere. The steps before one that runs are done.
pub open spec fn stepped_task(
    task: TaskView,
    step: Seq<char>,
    status: TaskStepStatus,
    detail: Option<Seq<char>>,
    now: u128,
) -> TaskView {
    let place = step_place(task.steps, step);
    TaskView {
        status: if status is Failed {
            TaskStatus::Failed
        } else {
            TaskStatus::Running
        },
        steps: if place < 0 {
            task.steps
        } else {
            Seq::new(
                task.steps.len(),
                |i: int|
                    if i == place {
                        TaskStepView { name: task.steps[i].name, status, detail }
                    } else if i < place && status is Running {
                        passed(task.steps[i])
                    } else {
                        task.steps[i]
                    },
            )
        },
        detail,
        updated_at_unix_ms: now,
        ..task
    }
}

pub open spec fn stepped(
    tasks: Seq<TaskView>,
    key: Seq<char>,
    step: Seq<char>,
    status: TaskStepStatus,
    detail: Option<Seq<char>>,
    now: u128,
) -> Seq<TaskView> {
    let place = latest_place(tasks, key);
    if place < 0 {
        tasks
    } else {
        tasks.update(place, stepped_task(tasks[place], step, status, detail, now))
    }
}

/// A step of a task that is completed is done, unless it failed.
pub open spec fn completed_step(step: TaskStepView) -> TaskStepView {
    if step.status is Failed {
        step
    } else {
        TaskStepView { status: TaskStepStatus::Completed, ..step }
    }
}

/// A task has ended. Where it is completed, so are its steps; where it failed,
/// so did the step that was running.
pub open spec fn finished_task(
    task: TaskView,
    status: TaskStatus,
    detail: Seq<char>,
    now: u128,
) -> TaskView {
    let running = running_place(task.steps);
    TaskView {
        status,
        steps: if status is Completed {
            task.steps.map_values(|step: TaskStepView| completed_step(step))
        } else if status is Failed && running >= 0 {
            task.steps.update(
                running,
                TaskStepView { status: TaskStepStatus::Failed, ..task.steps[running] },
            )
        } else {
            task.steps
        },
        detail: Some(detail),
        updated_at_unix_ms: now,
        ..task
    }
}

pub open spec fn finished(
    tasks: Seq<TaskView>,
    key: Seq<char>,
    status: TaskStatus,
    detail: Seq<char>,
    now: u128,
) -> Seq<TaskView> {
    let place = latest_place(tasks, key);
    if place < 0 {
        tasks
    } else {
        tasks.update(place, finished_task(tasks[place], status, detail, now))
    }
}

/// How many tasks still go on.
pub open spec fn active_tasks(tasks: Seq<TaskView>) -> nat
    decreases tasks.len(),
{
    if tasks.len() == 0 {
        0
    } else {
        active_tasks(tasks.drop_last()) + (if task_active(tasks.last().status) {
            1nat
        } else {
            0nat
        })
    }
}

// ---------------------------------------------------------------------------
// What always holds
// ---------------------------------------------------------------------------
/// Only the last task with a key may still go on.
pub open spec fn one_active(tasks: Seq<TaskView>) -> bool {
    forall|i: int, j: int|
        #![trigger tasks[i], tasks[j]]
        0 <= i < j < tasks.len() && tasks[i].key == tasks[j].key ==> !task_active(tasks[i].status)
}

/// No more tasks are remembered than fit, and of those with one key at most the
/// last still goes on.
pub open spec fn sound_tasks(tasks: Seq<TaskView>) -> bool {
    &&& tasks.len() <= TASK_LIMIT
    &&& one_active(tasks)
}

pub proof fn lemma_latest_place(tasks: Seq<TaskView>, key: Seq<char>)
    ensures
        -1 <= latest_place(tasks, key) < tasks.len(),
        latest_place(tasks, key) >= 0 ==> tasks[latest_place(tasks, key)].key == key,
        forall|i: int| latest_place(tasks, key) < i < tasks.len() ==> tasks[i].key != key,
    decreases tasks.len(),
{
    if tasks.len() > 0 && tasks.last().key != key {
        lemma_latest_place(tasks.drop_last(), key);
        assert forall|i: int| latest_place(tasks, key) < i < tasks.len() implies tasks[i].key
            != key by {
            if i < tasks.len() - 1 {
                assert(tasks.drop_last()[i] == tasks[i]);
            }
        }
    }
}

proof fn lemma_without_active(tasks: Seq<TaskView>, key: Seq<char>)
    requires
        one_active(tasks),
    ensures
        without_active(tasks, key).len() <= tasks.len(),
        one_active(without_active(tasks, key)),
        forall|i: int|
            0 <= i < without_active(tasks, key).len() ==> ({
                let task = #[trigger] without_active(tasks, key)[i];
                &&& tasks.contains(task)
                &&& task.key == key ==> !task_active(task.status)
            }),
    decreases tasks.len(),
{
    if tasks.len() > 0 {
        let front = tasks.drop_last();
        assert(one_active(front)) by {
            assert forall|i: int, j: int|
                #![trigger front[i], front[j]]
                0 <= i < j < front.len() && front[i].key == front[j].key implies !task_active(
                front[i].status,
            ) by {
                assert(front[i] == tasks[i] && front[j] == tasks[j]);
            }
        }
        lemma_without_active(front, key);
        let kept = without_active(front, key);
        let result = without_active(tasks, key);
        assert forall|i: int| 0 <= i < result.len() implies ({
            let task = #[trigger] result[i];
            &&& tasks.contains(task)
            &&& task.key == key ==> !task_active(task.status)
        }) by {
            if i < kept.len() {
                assert(result[i] == kept[i]);
                let at = choose|at: int| 0 <= at < front.len() && front[at] == kept[i];
                assert(tasks[at] == result[i]);
            } else {
                assert(tasks[tasks.len() - 1] == result[i]);
            }
        }
        assert forall|i: int, j: int|
            #![trigger result[i], result[j]]
            0 <= i < j < result.len() && result[i].key == result[j].key implies !task_active(
            result[i].status,
        ) by {
            assert(result[i] == kept[i]);
            if j < kept.len() {
                assert(result[j] == kept[j]);
            } else {
                let at = choose|at: int| 0 <= at < front.len() && front[at] == kept[i];
                assert(tasks[at] == result[i]);
                assert(tasks[tasks.len() - 1] == result[j]);
            }
        }
    }
}

/// Starting a task keeps the tasks sound, whatever the task is.
pub proof fn law_started_is_sound(tasks: Seq<TaskView>, task: TaskView)
    requires
        sound_tasks(tasks),
    ensures
        sound_tasks(started(tasks, task)),
        started(tasks, task).len() > 0,
        started(tasks, task).last() == task,
{
    lemma_without_active(tasks, task.key);
    let kept = without_active(tasks, task.key);
    let all = kept.push(task);
    assert(one_active(all)) by {
        assert forall|i: int, j: int|
            #![trigger all[i], all[j]]
            0 <= i < j < all.len() && all[i].key == all[j].key implies !task_active(
            all[i].status,
        ) by {
            assert(all[i] == kept[i]);
            if j < kept.len() {
                assert(all[j] == kept[j]);
            }
        }
    }
    let result = started(tasks, task);
    assert forall|i: int, j: int|
        #![trigger result[i], result[j]]
        0 <= i < j < result.len() && result[i].key == result[j].key implies !task_active(
        result[i].status,
    ) by {
        let start = all.len() - result.len();
        assert(result[i] == all[start + i] && result[j] == all[start + j]);
    }
}

proof fn lemma_update_latest(tasks: Seq<TaskView>, key: Seq<char>, task: TaskView)
    requires
        sound_tasks(tasks),
        latest_place(tasks, key) >= 0,
        task.key == key,
    ensures
        sound_tasks(tasks.update(latest_place(tasks, key), task)),
{
    lemma_latest_place(tasks, key);
    let place = latest_place(tasks, key);
    let result = tasks.update(place, task);
    assert forall|i: int, j: int|
        #![trigger result[i], result[j]]
        0 <= i < j < result.len() && result[i].key == result[j].key implies !task_active(
        result[i].status,
    ) by {
        assert(tasks[i].key == result[i].key && tasks[j].key == result[j].key);
    }
}

/// What happens to the steps of a task keeps the tasks sound.
pub proof fn law_stepped_is_sound(
    tasks: Seq<TaskView>,
    key: Seq<char>,
    step: Seq<char>,
    status: TaskStepStatus,
    detail: Option<Seq<char>>,
    now: u128,
)
    requires
        sound_tasks(tasks),
    ensures
        sound_tasks(stepped(tasks, key, step, status, detail, now)),
{
    lemma_latest_place(tasks, key);
    let place = latest_place(tasks, key);
    if place >= 0 {
        lemma_update_latest(
            tasks,
            key,
            stepped_task(tasks[place], step, status, detail, now),
        );
    }
}

/// The end of a task keeps the tasks sound.
pub proof fn law_finished_is_sound(
    tasks: Seq<TaskView>,
    key: Seq<char>,
    status: TaskStatus,
    detail: Seq<char>,
    now: u128,
)
    requires
        sound_tasks(tasks),
    ensures
        sound_tasks(finished(tasks, key, status, detail, now)),
{
    lemma_latest_place(tasks, key);
    let place = latest_place(tasks, key);
    if place >= 0 {
        lemma_update_latest(tasks, key, finished_task(tasks[place], status, detail, now));
    }
}

/// A task that has ended no longer goes on, and no other with its key does: a
/// key whose last task is ended has nothing under way.
pub proof fn law_finished_is_over(
    tasks: Seq<TaskView>,
    key: Seq<char>,
    status: TaskStatus,
    detail: Seq<char>,
    now: u128,
)
    requires
        sound_tasks(tasks),
        !task_active(status),
    ensures
        forall|i: int|
            0 <= i < finished(tasks, key, status, detail, now).len() && (#[trigger] finished(
                tasks,
                key,
                status,
                detail,
                now,
            )[i]).key == key ==> !task_active(
                finished(tasks, key, status, detail, now)[i].status,
            ),
{
    lemma_latest_place(tasks, key);
    let place = latest_place(tasks, key);
    let result = finished(tasks, key, status, detail, now);
    assert forall|i: int| 0 <= i < result.len() && (#[trigger] result[i]).key
        == key implies !task_active(result[i].status) by {
        if place >= 0 && i < place {
            assert(tasks[i].key == tasks[place].key);
        }
    }
}

/// A completed task has no step that is still to be done.
pub proof fn law_completed_has_no_open_step(task: TaskView, detail: Seq<char>, now: u128)
    ensures
        forall|i: int|
            0 <= i < finished_task(task, TaskStatus::Completed, detail, now).steps.len() ==> ({
                let step = #[trigger] finished_task(
                    task,
                    TaskStatus::Completed,
                    detail,
                    now,
                ).steps[i];
                step.status is Completed || step.status is Failed
            }),
{
}

// ---------------------------------------------------------------------------
// The tasks
// ---------------------------------------------------------------------------
/// The tasks that are remembered, oldest first.
#[derive(Debug)]
pub struct TaskLog {
    pub tasks: Vec<OperationTask>,
    pub next_id: u64,
}

fn find_latest(tasks: &Vec<OperationTask>, key: &str) -> (result: Option<usize>)
    ensures
        match result {
            Some(place) => place < tasks@.len() && place == latest_place(tasks.deep_view(), key@),
            None => latest_place(tasks.deep_view(), key@) < 0,
        },
{
    let ghost all = tasks.deep_view();
    let mut i: usize = tasks.len();
    assert(all.take(i as int) == all);
    while i > 0
        invariant
            i <= tasks@.len(),
            all == tasks.deep_view(),
            latest_place(all, key@) == latest_place(all.take(i as int), key@),
        decreases i,
    {
        assert(all.take(i as int).last() == tasks@[i - 1].deep_view());
        assert(all.take(i as int).drop_last() == all.take(i - 1));
        if same(tasks[i - 1].key.as_str(), key) {
            return Some(i - 1);
        }
        i = i - 1;
    }
    None
}

fn find_step(steps: &Vec<TaskStep>, name: &str) -> (result: Option<usize>)
    ensures
        match result {
            Some(place) => place < steps@.len() && place == step_place(steps.deep_view(), name@),
            None => step_place(steps.deep_view(), name@) < 0,
        },
{
    let ghost all = steps.deep_view();
    for i in 0..steps.len()
        invariant
            all == steps.deep_view(),
            step_place(all.take(i as int), name@) < 0,
    {
        assert(all.take(i + 1).last() == steps@[i as int].deep_view());
        assert(all.take(i + 1).drop_last() == all.take(i as int));
        if same(steps[i].name.as_str(), name) {
            proof {
                lemma_step_stays(all, name@, i + 1);
            }
            return Some(i);
        }
    }
    assert(all.take(all.len() as int) == all);
    None
}

proof fn lemma_step_stays(steps: Seq<TaskStepView>, name: Seq<char>, count: int)
    requires
        0 <= count <= steps.len(),
        step_place(steps.take(count), name) >= 0,
    ensures
        step_place(steps, name) == step_place(steps.take(count), name),
    decreases steps.len() - count,
{
    if count == steps.len() {
        assert(steps.take(count) == steps);
    } else {
        assert(steps.take(count + 1).drop_last() == steps.take(count));
        lemma_step_stays(steps, name, count + 1);
    }
}

fn find_running(steps: &Vec<TaskStep>) -> (result: Option<usize>)
    ensures
        match result {
            Some(place) => place < steps@.len() && place == running_place(steps.deep_view()),
            None => running_place(steps.deep_view()) < 0,
        },
{
    let ghost all = steps.deep_view();
    for i in 0..steps.len()
        invariant
            all == steps.deep_view(),
            running_place(all.take(i as int)) < 0,
    {
        assert(all.take(i + 1).last() == steps@[i as int].deep_view());
        assert(all.take(i + 1).drop_last() == all.take(i as int));
        if steps[i].status == TaskStepStatus::Running {
            proof {
                lemma_running_stays(all, i + 1);
            }
            return Some(i);
        }
    }
    assert(all.take(all.len() as int) == all);
    None
}

proof fn lemma_running_stays(steps: Seq<TaskStepView>, count: int)
    requires
        0 <= count <= steps.len(),
        running_place(steps.take(count)) >= 0,
    ensures
        running_place(steps) == running_place(steps.take(count)),
    decreases steps.len() - count,
{
    if count == steps.len() {
        assert(steps.take(count) == steps);
    } else {
        assert(steps.take(count + 1).drop_last() == steps.take(count));
        lemma_running_stays(steps, count + 1);
    }
}

fn drop_active(tasks: &mut Vec<OperationTask>, key: &str)
    ensures
        final(tasks).deep_view() == without_active(old(tasks).deep_view(), key@),
{
    let mut all: Vec<OperationTask> = Vec::new();
    std::mem::swap(tasks, &mut all);
    let ghost before = all.deep_view();
    assert(tasks.deep_view() == without_active(before.take(0), key@));
    for task in it: all
        invariant
            it.seq().len() == before.len(),
            forall|i: int| 0 <= i < before.len() ==> #[trigger] it.seq()[i].deep_view() == before[i],
            tasks.deep_view() == without_active(before.take(it.index()), key@),
    {
        let ghost i = it.index();
        assert(task.deep_view() == before[i]);
        assert(before.take(i + 1).drop_last() == before.take(i));
        if !same(task.key.as_str(), key) || !task.status.is_active() {
            let ghost start = *tasks;
            tasks.push(task);
            assert(tasks.deep_view() == start.deep_view().push(before[i]));
        }
    }
    assert(before.take(before.len() as int) == before);
}

impl TaskLog {
    pub open spec fn well_formed(&self) -> bool {
        sound_tasks(self.tasks.deep_view())
    }

    pub fn new() -> (result: Self)
        ensures
            result.well_formed(),
            result.tasks.deep_view() == Seq::<TaskView>::empty(),
            result.next_id == 1,
    {
        let tasks: Vec<OperationTask> = Vec::new();
        assert(tasks.deep_view() == Seq::<TaskView>::empty());
        TaskLog { tasks, next_id: 1 }
    }

    /// Starts a task, and returns its number.
    pub fn start_operation_task(
        &mut self,
        key: &str,
        operation: &str,
        subject: &str,
        steps: &Vec<String>,
        now: u128,
    ) -> (result: u64)
        requires
            old(self).well_formed(),
        ensures
            final(self).well_formed(),
            result == old(self).next_id,
            final(self).next_id == old(self).next_id.wrapping_add(1),
            final(self).tasks.deep_view() == started(
                old(self).tasks.deep_view(),
                new_task(result, key@, operation@, subject@, steps.deep_view(), now),
            ),
    {
        let id: u64 = self.next_id;
        self.next_id = self.next_id.wrapping_add(1);
        let mut open: Vec<TaskStep> = Vec::new();
        for i in 0..steps.len()
            invariant
                open@.len() == i,
                forall|j: int|
                    0 <= j < i ==> (#[trigger] open@[j]).deep_view() == pending_step(steps@[j]@),
        {
            open.push(
                TaskStep { name: steps[i].clone(), status: TaskStepStatus::Pending, detail: None },
            );
        }
        let ghost before = self.tasks.deep_view();
        let ghost task = new_task(id, key@, operation@, subject@, steps.deep_view(), now);
        drop_active(&mut self.tasks, key);
        let added = OperationTask {
            id,
            key: key.to_owned(),
            operation: operation.to_owned(),
            subject: subject.to_owned(),
            status: TaskStatus::Queued,
            steps: open,
            detail: None,
            created_at_unix_ms: now,
            updated_at_unix_ms: now,
        };
        assert(added.deep_view() == task) by {
            assert(added.steps.deep_view() == task.steps);
        }
        let ghost kept = self.tasks;
        self.tasks.push(added);
        assert(self.tasks.deep_view() == kept.deep_view().push(task));
        keep_last(&mut self.tasks, TASK_LIMIT);
        proof {
            law_started_is_sound(before, task);
        }
        id
    }

    /// Says that a step of the last task with a key has come somewhere.
    pub fn update_operation_task_step(
        &mut self,
        key: &str,
        step: &str,
        status: TaskStepStatus,
        detail: Option<&str>,
        now: u128,
    )
        requires
            old(self).well_formed(),
        ensures
            final(self).well_formed(),
            final(self).next_id == old(self).next_id,
            final(self).tasks.deep_view() == stepped(
                old(self).tasks.deep_view(),
                key@,
                step@,
                status,
                detail.deep_view(),
                now,
            ),
    {
        let ghost before = self.tasks.deep_view();
        proof {
            law_stepped_is_sound(before, key@, step@, status, detail.deep_view(), now);
        }
        if let Some(place) = find_latest(&self.tasks, key) {
            let ghost all = self.tasks;
            let mut task = self.tasks.remove(place);
            let ghost original = task.deep_view();
            task.status = if status == TaskStepStatus::Failed {
                TaskStatus::Failed
            } else {
                TaskStatus::Running
            };
            if let Some(target) = find_step(&task.steps, step) {
                let ghost steps = task.steps.deep_view();
                if status == TaskStepStatus::Running {
                    for i in 0..target
                        invariant
                            target < task.steps@.len(),
                            task.steps@.len() == steps.len(),
                            forall|j: int|
                                0 <= j < steps.len() ==> (#[trigger] task.steps@[j]).deep_view()
                                    == (if j < i {
                                    passed(steps[j])
                                } else {
                                    steps[j]
                                }),
                            task.id == original.id,
                            task.key@ == original.key,
                            task.operation@ == original.operation,
                            task.subject@ == original.subject,
                            task.status is Running,
                            task.created_at_unix_ms == original.created_at_unix_ms,
                    {
                        assert(task.steps@[i as int].deep_view() == steps[i as int]);
                        if task.steps[i].status == TaskStepStatus::Pending || task.steps[i].status
                            == TaskStepStatus::Running {
                            task.steps[i].status = TaskStepStatus::Completed;
                        }
                    }
                }
                assert(task.steps@[target as int].deep_view() == steps[target as int]);
                task.steps[target].status = status;
                task.steps[target].detail = match detail {
                    Some(detail) => Some(detail.to_owned()),
                    None => None,
                };
                assert(task.steps.deep_view() == stepped_task(
                    original,
                    step@,
                    status,
                    detail.deep_view(),
                    now,
                ).steps);
            }
            task.detail = match detail {
                Some(detail) => Some(detail.to_owned()),
                None => None,
            };
            task.updated_at_unix_ms = now;
            assert(task.deep_view() == stepped_task(
                original,
                step@,
                status,
                detail.deep_view(),
                now,
            ));
            self.tasks.insert(place, task);
            assert(self.tasks.deep_view() == before.update(place as int, task.deep_view()));
        }
    }

    /// Says that the last task with a key has ended.
    pub fn finish_operation_task(
        &mut self,
        key: &str,
        status: TaskStatus,
        detail: &str,
        now: u128,
    )
        requires
            old(self).well_formed(),
        ensures
            final(self).well_formed(),
            final(self).next_id == old(self).next_id,
            final(self).tasks.deep_view() == finished(
                old(self).tasks.deep_view(),
                key@,
                status,
                detail@,
                now,
            ),
    {
        let ghost before = self.tasks.deep_view();
        proof {
            law_finished_is_sound(before, key@, status, detail@, now);
        }
        if let Some(place) = find_latest(&self.tasks, key) {
            let mut task = self.tasks.remove(place);
            let ghost original = task.deep_view();
            task.status = status;
            task.detail = Some(detail.to_owned());
            task.updated_at_unix_ms = now;
            let ghost steps = task.steps.deep_view();
            if status == TaskStatus::Completed {
                let count: usize = task.steps.len();
                for i in 0..count
                    invariant
                        task.steps@.len() == steps.len(),
                        count == steps.len(),
                        forall|j: int|
                            0 <= j < steps.len() ==> (#[trigger] task.steps@[j]).deep_view() == (
                            if j < i {
                                completed_step(steps[j])
                            } else {
                                steps[j]
                            }),
                        task.id == original.id,
                        task.key@ == original.key,
                        task.operation@ == original.operation,
                        task.subject@ == original.subject,
                        task.status is Completed,
                        task.detail.deep_view() == Some(detail@),
                        task.created_at_unix_ms == original.created_at_unix_ms,
                        task.updated_at_unix_ms == now,
                {
                    assert(task.steps@[i as int].deep_view() == steps[i as int]);
                    if task.steps[i].status != TaskStepStatus::Failed {
                        task.steps[i].status = TaskStepStatus::Completed;
                    }
                }
            } else if status == TaskStatus::Failed {
                if let Some(running) = find_running(&task.steps) {
                    assert(task.steps@[running as int].deep_view() == steps[running as int]);
                    task.steps[running].status = TaskStepStatus::Failed;
                }
            }
            assert(task.steps.deep_view() == finished_task(original, status, detail@, now).steps);
            assert(task.deep_view() == finished_task(original, status, detail@, now));
            self.tasks.insert(place, task);
            assert(self.tasks.deep_view() == before.update(place as int, task.deep_view()));
        }
    }

    /// All tasks that are remembered.
    pub fn operation_tasks_snapshot(&self) -> (result: Vec<OperationTask>)
        ensures
            result.deep_view() == self.tasks.deep_view(),
    {
        let mut result: Vec<OperationTask> = Vec::new();
        for i in 0..self.tasks.len()
            invariant
                result@.len() == i,
                forall|j: int|
                    0 <= j < i ==> (#[trigger] result@[j]).deep_view()
                        == self.tasks@[j].deep_view(),
        {
            result.push(self.tasks[i].clone());
        }
        assert(result.deep_view() == self.tasks.deep_view());
        result
    }

    /// The last tasks, at most some number of them.
    pub fn control_operation_tasks(&self, limit: usize) -> (result: Vec<OperationTask>)
        ensures
            result.deep_view() == last_of(self.tasks.deep_view(), limit as nat),
    {
        let mut result = self.operation_tasks_snapshot();
        keep_last(&mut result, limit);
        result
    }

    /// The last task with a key.
    pub fn latest_operation_task(&self, key: &str) -> (result: Option<OperationTask>)
        ensures
            ({
                let place = latest_place(self.tasks.deep_view(), key@);
                match result {
                    Some(task) => place >= 0 && task.deep_view() == self.tasks.deep_view()[place],
                    None => place < 0,
                }
            }),
    {
        match find_latest(&self.tasks, key) {
            Some(place) => Some(self.tasks[place].clone()),
            None => None,
        }
    }

    /// How many tasks still go on.
    pub fn active_task_count(&self) -> (result: usize)
        ensures
            result == active_tasks(self.tasks.deep_view()),
    {
        let ghost all = self.tasks.deep_view();
        let mut count: usize = 0;
        for i in 0..self.tasks.len()
            invariant
                all == self.tasks.deep_view(),
                count == active_tasks(all.take(i as int)),
                count <= i,
        {
            assert(all.take(i + 1).drop_last() == all.take(i as int));
            assert(all.take(i + 1).last() == self.tasks@[i as int].deep_view());
            if self.tasks[i].status.is_active() {
                count = count + 1;
            }
        }
        assert(all.take(all.len() as int) == all);
        count
    }
}

} // verus!
