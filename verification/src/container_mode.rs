//! What the container window knows: its selections, the states of the
//! applications, runtimes and displays, and what goes on.
use vstd::prelude::*;
use vstd::string::*;

use crate::activity::{
    entry_place, find_entry, lemma_entry_place, log_cleared, logged, noted, ActivityLog,
    SessionLogs,
};
use crate::application_model::{
    instance_active, instance_label, profile_label, InstanceStatus, LaunchStep, ProfileStatus,
    RuntimeStatus, TaskStatus, TaskStepStatus,
};
use crate::container_sessions::{ContainerSession, SessionView};
use crate::profiles::{normalized_runtime_key, runtime_key, NAV_SESSIONS};
use crate::tasks::{finished, new_task, started, stepped, TaskLog, TaskView};
use crate::text::{concat, concat7, copy_option, count_text, decimal, empty_list, push_deep, same};

verus! {

// ---------------------------------------------------------------------------
// What is known
// ---------------------------------------------------------------------------
/// What is known of an application profile and its instance.
#[derive(Debug)]
pub struct SessionState {
    pub profile: ProfileStatus,
    pub instance: Option<InstanceStatus>,
    pub detail: String,
    pub failed_step: Option<LaunchStep>,
    pub force_stop_available: bool,
}

#[verifier::ext_equal]
pub struct SessionStateView {
    pub profile: ProfileStatus,
    pub instance: Option<InstanceStatus>,
    pub detail: Seq<char>,
    pub failed_step: Option<LaunchStep>,
    pub force_stop_available: bool,
}

impl DeepView for SessionState {
    type V = SessionStateView;

    open spec fn deep_view(&self) -> SessionStateView {
        SessionStateView {
            profile: self.profile,
            instance: self.instance,
            detail: self.detail@,
            failed_step: self.failed_step,
            force_stop_available: self.force_stop_available,
        }
    }
}

impl Clone for SessionState {
    fn clone(&self) -> (result: Self)
        ensures
            result.deep_view() == self.deep_view(),
    {
        SessionState {
            profile: self.profile,
            instance: self.instance,
            detail: self.detail.clone(),
            failed_step: self.failed_step,
            force_stop_available: self.force_stop_available,
        }
    }
}

/// An instance of an application that was started from here.
#[derive(Debug)]
pub struct ActiveSessionSnapshot {
    pub id: u64,
    pub profile_index: usize,
    pub started_at_unix_ms: u128,
    pub container_pid: Option<u32>,
    pub waypipe_pid: u32,
    pub display_slot: String,
    pub display_pid: Option<u32>,
    pub display_runtime_dir: Option<String>,
}

#[verifier::ext_equal]
pub struct ActiveView {
    pub id: u64,
    pub profile_index: usize,
    pub started_at_unix_ms: u128,
    pub container_pid: Option<u32>,
    pub waypipe_pid: u32,
    pub display_slot: Seq<char>,
    pub display_pid: Option<u32>,
    pub display_runtime_dir: Option<Seq<char>>,
}

impl DeepView for ActiveSessionSnapshot {
    type V = ActiveView;

    open spec fn deep_view(&self) -> ActiveView {
        ActiveView {
            id: self.id,
            profile_index: self.profile_index,
            started_at_unix_ms: self.started_at_unix_ms,
            container_pid: self.container_pid,
            waypipe_pid: self.waypipe_pid,
            display_slot: self.display_slot@,
            display_pid: self.display_pid,
            display_runtime_dir: self.display_runtime_dir.deep_view(),
        }
    }
}

impl Clone for ActiveSessionSnapshot {
    fn clone(&self) -> (result: Self)
        ensures
            result.deep_view() == self.deep_view(),
    {
        ActiveSessionSnapshot {
            id: self.id,
            profile_index: self.profile_index,
            started_at_unix_ms: self.started_at_unix_ms,
            container_pid: self.container_pid,
            waypipe_pid: self.waypipe_pid,
            display_slot: self.display_slot.clone(),
            display_pid: self.display_pid,
            display_runtime_dir: copy_option(&self.display_runtime_dir),
        }
    }
}

/// A display that was made from here.
#[derive(Debug)]
pub struct ManagedDisplaySnapshot {
    pub slot: String,
    pub runtime_dir: String,
    pub display: String,
    pub pid: u32,
}

#[verifier::ext_equal]
pub struct ManagedView {
    pub slot: Seq<char>,
    pub runtime_dir: Seq<char>,
    pub display: Seq<char>,
    pub pid: u32,
}

impl DeepView for ManagedDisplaySnapshot {
    type V = ManagedView;

    open spec fn deep_view(&self) -> ManagedView {
        ManagedView {
            slot: self.slot@,
            runtime_dir: self.runtime_dir@,
            display: self.display@,
            pid: self.pid,
        }
    }
}

impl Clone for ManagedDisplaySnapshot {
    fn clone(&self) -> (result: Self)
        ensures
            result.deep_view() == self.deep_view(),
    {
        ManagedDisplaySnapshot {
            slot: self.slot.clone(),
            runtime_dir: self.runtime_dir.clone(),
            display: self.display.clone(),
            pid: self.pid,
        }
    }
}

/// An image that the user has picked.
#[derive(Debug)]
pub struct SelectedImage {
    pub runtime: String,
    pub runtime_key: String,
    pub reference: String,
    pub label: String,
}

#[verifier::ext_equal]
pub struct SelectedImageView {
    pub runtime: Seq<char>,
    pub runtime_key: Seq<char>,
    pub reference: Seq<char>,
    pub label: Seq<char>,
}

impl DeepView for SelectedImage {
    type V = SelectedImageView;

    open spec fn deep_view(&self) -> SelectedImageView {
        SelectedImageView {
            runtime: self.runtime@,
            runtime_key: self.runtime_key@,
            reference: self.reference@,
            label: self.label@,
        }
    }
}

/// A volume that the user has picked.
#[derive(Debug)]
pub struct SelectedVolume {
    pub runtime: String,
    pub runtime_key: String,
    pub name: String,
    pub label: String,
}

#[verifier::ext_equal]
pub struct SelectedVolumeView {
    pub runtime: Seq<char>,
    pub runtime_key: Seq<char>,
    pub name: Seq<char>,
    pub label: Seq<char>,
}

impl DeepView for SelectedVolume {
    type V = SelectedVolumeView;

    open spec fn deep_view(&self) -> SelectedVolumeView {
        SelectedVolumeView {
            runtime: self.runtime@,
            runtime_key: self.runtime_key@,
            name: self.name@,
            label: self.label@,
        }
    }
}

/// A container that the user has picked.
#[derive(Debug)]
pub struct SelectedRuntimeContainer {
    pub runtime: String,
    pub name: String,
    pub label: String,
    pub running: bool,
}

#[verifier::ext_equal]
pub struct SelectedContainerView {
    pub runtime: Seq<char>,
    pub name: Seq<char>,
    pub label: Seq<char>,
    pub running: bool,
}

impl DeepView for SelectedRuntimeContainer {
    type V = SelectedContainerView;

    open spec fn deep_view(&self) -> SelectedContainerView {
        SelectedContainerView {
            runtime: self.runtime@,
            name: self.name@,
            label: self.label@,
            running: self.running,
        }
    }
}

/// What a runtime says of a container.
#[derive(Debug)]
pub struct RuntimeContainerDetails {
    pub runtime: String,
    pub name: String,
    pub info: Vec<String>,
    pub logs: Vec<String>,
    pub stats: Vec<String>,
    pub error: Option<String>,
}

#[verifier::ext_equal]
pub struct DetailsView {
    pub runtime: Seq<char>,
    pub name: Seq<char>,
    pub info: Seq<Seq<char>>,
    pub logs: Seq<Seq<char>>,
    pub stats: Seq<Seq<char>>,
    pub error: Option<Seq<char>>,
}

impl DeepView for RuntimeContainerDetails {
    type V = DetailsView;

    open spec fn deep_view(&self) -> DetailsView {
        DetailsView {
            runtime: self.runtime@,
            name: self.name@,
            info: self.info.deep_view(),
            logs: self.logs.deep_view(),
            stats: self.stats.deep_view(),
            error: self.error.deep_view(),
        }
    }
}

/// How a runtime is doing, and why.
#[derive(Debug)]
pub struct RuntimeSystemState {
    pub runtime: String,
    pub status: RuntimeStatus,
    pub detail: String,
}

#[verifier::ext_equal]
pub struct RuntimeStateView {
    pub runtime: Seq<char>,
    pub status: RuntimeStatus,
    pub detail: Seq<char>,
}

impl DeepView for RuntimeSystemState {
    type V = RuntimeStateView;

    open spec fn deep_view(&self) -> RuntimeStateView {
        RuntimeStateView { runtime: self.runtime@, status: self.status, detail: self.detail@ }
    }
}

impl Clone for RuntimeSystemState {
    fn clone(&self) -> (result: Self)
        ensures
            result.deep_view() == self.deep_view(),
    {
        RuntimeSystemState {
            runtime: self.runtime.clone(),
            status: self.status,
            detail: self.detail.clone(),
        }
    }
}

/// All that the container window knows.
#[derive(Debug)]
pub struct ContainerMode {
    pub selected_nav: usize,
    pub selected_tab: usize,
    pub selected_session: Option<usize>,
    pub selected_image: Option<SelectedImage>,
    pub selected_volume: Option<SelectedVolume>,
    pub selected_container: Option<SelectedRuntimeContainer>,
    pub container_details: Option<RuntimeContainerDetails>,
    pub activity: ActivityLog,
    pub logs: SessionLogs,
    pub tasks: TaskLog,
    pub states: Vec<(usize, SessionState)>,
    pub validation_requested: Vec<usize>,
    /// What is being done with an image, and what was last said of it.
    pub image_task: Option<(String, Option<String>)>,
    /// The images that are to become profiles once they are here.
    pub pending_pulls: Vec<(String, String)>,
    pub runtime_states: Vec<RuntimeSystemState>,
    pub active_sessions: Vec<ActiveSessionSnapshot>,
    pub managed_displays: Vec<ManagedDisplaySnapshot>,
    pub pending_displays: Vec<String>,
    pub closing_displays: Vec<String>,
    pub display_error: Option<String>,
}

#[verifier::ext_equal]
pub struct ModeView {
    pub selected_nav: usize,
    pub selected_tab: usize,
    pub selected_session: Option<usize>,
    pub selected_image: Option<SelectedImageView>,
    pub selected_volume: Option<SelectedVolumeView>,
    pub selected_container: Option<SelectedContainerView>,
    pub container_details: Option<DetailsView>,
    pub activity: Seq<Seq<char>>,
    pub logs: Seq<(usize, Seq<Seq<char>>)>,
    pub tasks: Seq<TaskView>,
    pub next_task: u64,
    pub states: Seq<(usize, SessionStateView)>,
    pub validation_requested: Seq<usize>,
    pub image_task: Option<(Seq<char>, Option<Seq<char>>)>,
    pub pending_pulls: Seq<(Seq<char>, Seq<char>)>,
    pub runtime_states: Seq<RuntimeStateView>,
    pub active_sessions: Seq<ActiveView>,
    pub managed_displays: Seq<ManagedView>,
    pub pending_displays: Seq<Seq<char>>,
    pub closing_displays: Seq<Seq<char>>,
    pub display_error: Option<Seq<char>>,
}

impl DeepView for ContainerMode {
    type V = ModeView;

    open spec fn deep_view(&self) -> ModeView {
        ModeView {
            selected_nav: self.selected_nav,
            selected_tab: self.selected_tab,
            selected_session: self.selected_session,
            selected_image: self.selected_image.deep_view(),
            selected_volume: self.selected_volume.deep_view(),
            selected_container: self.selected_container.deep_view(),
            container_details: self.container_details.deep_view(),
            activity: self.activity.lines.deep_view(),
            logs: self.logs.entries.deep_view(),
            tasks: self.tasks.tasks.deep_view(),
            next_task: self.tasks.next_id,
            states: self.states.deep_view(),
            validation_requested: self.validation_requested@,
            image_task: self.image_task.deep_view(),
            pending_pulls: self.pending_pulls.deep_view(),
            runtime_states: self.runtime_states.deep_view(),
            active_sessions: self.active_sessions.deep_view(),
            managed_displays: self.managed_displays.deep_view(),
            pending_displays: self.pending_displays.deep_view(),
            closing_displays: self.closing_displays.deep_view(),
            display_error: self.display_error.deep_view(),
        }
    }
}

// ---------------------------------------------------------------------------
// What follows from what happens
// ---------------------------------------------------------------------------
/// Something that is done outside of the state.
#[derive(Debug)]
pub enum Effect {
    /// The answers of the runtimes are out of date.
    InvalidateCommands,
    /// The window is drawn again.
    Rebuild,
    /// The window is drawn again, at most once in some milliseconds.
    RebuildThrottled(u64),
    /// The window is drawn again without taking the focus, at most once in some
    /// milliseconds.
    RefreshThrottled(u64),
    /// The user is shown an error.
    Alert(String),
    CheckSession(usize),
    StartSession(usize),
    StopSession(usize),
    ForceStopSession(usize),
    OpenTerminal(usize),
    RefreshContainerDetails { runtime: String, name: String },
    /// The user is shown a form for a new profile of an image.
    ConfigureImage { runtime: String, image: String },
    BuildImage { image: String, containerfile: String, context: String },
    PullImage {
        runtime: String,
        image: String,
        platform: Option<String>,
        scheme: Option<String>,
        configure_session: bool,
    },
    LoginRegistry { server: String, username: String, password: String, scheme: Option<String> },
    DeleteImage { runtime: String, image: String },
    CreateVolume { runtime: String, volume: String },
    DeleteVolume { runtime: String, volume: String },
    RuntimeAction { runtime: String, action: String },
    CloseDisplay(String),
    CopyText(String),
    LoadImage(String),
    StartContainer { runtime: String, name: String },
    StopContainer { runtime: String, name: String },
    RestartContainer { runtime: String, name: String },
    DeleteContainer { runtime: String, name: String },
    OpenContainerTerminal { runtime: String, name: String },
    MachineAction { runtime: String, name: String, action: String },
    OpenMachineTerminal { runtime: String, name: String },
    UseContext(String),
    StartAppleSystem,
    CreateDisplay,
    /// The windows of a process come to the front.
    FocusProcess(u32),
    /// The host opens what the words say.
    Open(Vec<String>),
}

pub enum EffectView {
    InvalidateCommands,
    Rebuild,
    RebuildThrottled(u64),
    RefreshThrottled(u64),
    Alert(Seq<char>),
    CheckSession(usize),
    StartSession(usize),
    StopSession(usize),
    ForceStopSession(usize),
    OpenTerminal(usize),
    RefreshContainerDetails { runtime: Seq<char>, name: Seq<char> },
    ConfigureImage { runtime: Seq<char>, image: Seq<char> },
    BuildImage { image: Seq<char>, containerfile: Seq<char>, context: Seq<char> },
    PullImage {
        runtime: Seq<char>,
        image: Seq<char>,
        platform: Option<Seq<char>>,
        scheme: Option<Seq<char>>,
        configure_session: bool,
    },
    LoginRegistry {
        server: Seq<char>,
        username: Seq<char>,
        password: Seq<char>,
        scheme: Option<Seq<char>>,
    },
    DeleteImage { runtime: Seq<char>, image: Seq<char> },
    CreateVolume { runtime: Seq<char>, volume: Seq<char> },
    DeleteVolume { runtime: Seq<char>, volume: Seq<char> },
    RuntimeAction { runtime: Seq<char>, action: Seq<char> },
    CloseDisplay(Seq<char>),
    CopyText(Seq<char>),
    LoadImage(Seq<char>),
    StartContainer { runtime: Seq<char>, name: Seq<char> },
    StopContainer { runtime: Seq<char>, name: Seq<char> },
    RestartContainer { runtime: Seq<char>, name: Seq<char> },
    DeleteContainer { runtime: Seq<char>, name: Seq<char> },
    OpenContainerTerminal { runtime: Seq<char>, name: Seq<char> },
    MachineAction { runtime: Seq<char>, name: Seq<char>, action: Seq<char> },
    OpenMachineTerminal { runtime: Seq<char>, name: Seq<char> },
    UseContext(Seq<char>),
    StartAppleSystem,
    CreateDisplay,
    FocusProcess(u32),
    Open(Seq<Seq<char>>),
}

impl DeepView for Effect {
    type V = EffectView;

    open spec fn deep_view(&self) -> EffectView {
        match self {
            Effect::InvalidateCommands => EffectView::InvalidateCommands,
            Effect::Rebuild => EffectView::Rebuild,
            Effect::RebuildThrottled(interval) => EffectView::RebuildThrottled(*interval),
            Effect::RefreshThrottled(interval) => EffectView::RefreshThrottled(*interval),
            Effect::Alert(message) => EffectView::Alert(message@),
            Effect::CheckSession(index) => EffectView::CheckSession(*index),
            Effect::StartSession(index) => EffectView::StartSession(*index),
            Effect::StopSession(index) => EffectView::StopSession(*index),
            Effect::ForceStopSession(index) => EffectView::ForceStopSession(*index),
            Effect::OpenTerminal(index) => EffectView::OpenTerminal(*index),
            Effect::RefreshContainerDetails { runtime, name } => {
                EffectView::RefreshContainerDetails { runtime: runtime@, name: name@ }
            },
            Effect::ConfigureImage { runtime, image } => EffectView::ConfigureImage {
                runtime: runtime@,
                image: image@,
            },
            Effect::BuildImage { image, containerfile, context } => EffectView::BuildImage {
                image: image@,
                containerfile: containerfile@,
                context: context@,
            },
            Effect::PullImage { runtime, image, platform, scheme, configure_session } => {
                EffectView::PullImage {
                    runtime: runtime@,
                    image: image@,
                    platform: platform.deep_view(),
                    scheme: scheme.deep_view(),
                    configure_session: *configure_session,
                }
            },
            Effect::LoginRegistry { server, username, password, scheme } => {
                EffectView::LoginRegistry {
                    server: server@,
                    username: username@,
                    password: password@,
                    scheme: scheme.deep_view(),
                }
            },
            Effect::DeleteImage { runtime, image } => EffectView::DeleteImage {
                runtime: runtime@,
                image: image@,
            },
            Effect::CreateVolume { runtime, volume } => EffectView::CreateVolume {
                runtime: runtime@,
                volume: volume@,
            },
            Effect::DeleteVolume { runtime, volume } => EffectView::DeleteVolume {
                runtime: runtime@,
                volume: volume@,
            },
            Effect::RuntimeAction { runtime, action } => EffectView::RuntimeAction {
                runtime: runtime@,
                action: action@,
            },
            Effect::CloseDisplay(slot) => EffectView::CloseDisplay(slot@),
            Effect::CopyText(text) => EffectView::CopyText(text@),
            Effect::LoadImage(path) => EffectView::LoadImage(path@),
            Effect::StartContainer { runtime, name } => EffectView::StartContainer {
                runtime: runtime@,
                name: name@,
            },
            Effect::StopContainer { runtime, name } => EffectView::StopContainer {
                runtime: runtime@,
                name: name@,
            },
            Effect::RestartContainer { runtime, name } => EffectView::RestartContainer {
                runtime: runtime@,
                name: name@,
            },
            Effect::DeleteContainer { runtime, name } => EffectView::DeleteContainer {
                runtime: runtime@,
                name: name@,
            },
            Effect::OpenContainerTerminal { runtime, name } => EffectView::OpenContainerTerminal {
                runtime: runtime@,
                name: name@,
            },
            Effect::MachineAction { runtime, name, action } => EffectView::MachineAction {
                runtime: runtime@,
                name: name@,
                action: action@,
            },
            Effect::OpenMachineTerminal { runtime, name } => EffectView::OpenMachineTerminal {
                runtime: runtime@,
                name: name@,
            },
            Effect::UseContext(name) => EffectView::UseContext(name@),
            Effect::StartAppleSystem => EffectView::StartAppleSystem,
            Effect::CreateDisplay => EffectView::CreateDisplay,
            Effect::FocusProcess(pid) => EffectView::FocusProcess(*pid),
            Effect::Open(words) => EffectView::Open(words.deep_view()),
        }
    }
}

pub fn one_effect(effect: Effect) -> (result: Vec<Effect>)
    ensures
        result.deep_view() == seq![effect.deep_view()],
{
    let mut result: Vec<Effect> = empty_list();
    push_deep(&mut result, effect);
    result
}

pub fn two_effects(first: Effect, second: Effect) -> (result: Vec<Effect>)
    ensures
        result.deep_view() == seq![first.deep_view(), second.deep_view()],
{
    let mut result: Vec<Effect> = empty_list();
    push_deep(&mut result, first);
    push_deep(&mut result, second);
    result
}

// ---------------------------------------------------------------------------
// Names
// ---------------------------------------------------------------------------
/// The name of a profile, or another text where there is no such profile.
pub open spec fn name_at(sessions: Seq<SessionView>, index: usize, other: Seq<char>) -> Seq<char> {
    if index < sessions.len() {
        sessions[index as int].name
    } else {
        other
    }
}

pub fn session_name(sessions: &Vec<ContainerSession>, index: usize, other: &str) -> (result: String)
    ensures
        result@ == name_at(sessions.deep_view(), index, other@),
{
    if index < sessions.len() {
        sessions[index].name.clone()
    } else {
        other.to_owned()
    }
}

pub open spec fn launch_key(index: usize) -> Seq<char> {
    "launch-profile-"@ + decimal(index as nat)
}

pub fn launch_task_key(index: usize) -> (result: String)
    ensures
        result@ == launch_key(index),
{
    let number = count_text(index);
    concat("launch-profile-", number.as_str())
}

pub open spec fn stop_key(index: usize) -> Seq<char> {
    "stop-profile-"@ + decimal(index as nat)
}

pub fn stop_task_key(index: usize) -> (result: String)
    ensures
        result@ == stop_key(index),
{
    let number = count_text(index);
    concat("stop-profile-", number.as_str())
}

pub open spec fn system_key(runtime: Seq<char>) -> Seq<char> {
    "runtime-"@ + runtime_key(runtime)
}

pub fn runtime_task_key(runtime: &str) -> (result: String)
    ensures
        result@ == system_key(runtime@),
{
    concat("runtime-", normalized_runtime_key(runtime))
}

pub open spec fn resource_key(
    kind: Seq<char>,
    action: Seq<char>,
    runtime: Seq<char>,
    name: Seq<char>,
) -> Seq<char> {
    kind + "-"@ + action + "-"@ + runtime_key(runtime) + "-"@ + name
}

pub fn resource_task_key(kind: &str, action: &str, runtime: &str, name: &str) -> (result: String)
    ensures
        result@ == resource_key(kind@, action@, runtime@, name@),
{
    concat7(kind, "-", action, "-", normalized_runtime_key(runtime), "-", name)
}

// ---------------------------------------------------------------------------
// States of applications
// ---------------------------------------------------------------------------
/// What a word says of a profile and its instance.
pub open spec fn states_for(label: Seq<char>) -> (ProfileStatus, Option<InstanceStatus>) {
    if label == "Starting"@ || label == "Checking"@ {
        (ProfileStatus::Ready, Some(InstanceStatus::Starting))
    } else if label == "Running"@ {
        (ProfileStatus::Ready, Some(InstanceStatus::Running))
    } else if label == "Stopping"@ {
        (ProfileStatus::Ready, Some(InstanceStatus::Stopping))
    } else if label == "Stopped"@ || label == "Exited"@ {
        (ProfileStatus::Ready, Some(InstanceStatus::Exited))
    } else if label == "Error"@ || label == "Blocked"@ || label == "Failed"@ {
        (ProfileStatus::Invalid, Some(InstanceStatus::Failed))
    } else {
        (ProfileStatus::Ready, None)
    }
}

pub fn state_from_label(label: &str) -> (result: (ProfileStatus, Option<InstanceStatus>))
    ensures
        result == states_for(label@),
{
    if same(label, "Starting") || same(label, "Checking") {
        (ProfileStatus::Ready, Some(InstanceStatus::Starting))
    } else if same(label, "Running") {
        (ProfileStatus::Ready, Some(InstanceStatus::Running))
    } else if same(label, "Stopping") {
        (ProfileStatus::Ready, Some(InstanceStatus::Stopping))
    } else if same(label, "Stopped") || same(label, "Exited") {
        (ProfileStatus::Ready, Some(InstanceStatus::Exited))
    } else if same(label, "Error") || same(label, "Blocked") || same(label, "Failed") {
        (ProfileStatus::Invalid, Some(InstanceStatus::Failed))
    } else {
        (ProfileStatus::Ready, None)
    }
}

/// The word for the state of an application.
pub open spec fn state_label(state: SessionStateView) -> Seq<char> {
    match state.instance {
        Some(instance) => instance_label(instance),
        None => profile_label(state.profile),
    }
}

pub fn session_state_label(state: &SessionState) -> (result: &'static str)
    ensures
        result@ == state_label(state.deep_view()),
{
    match state.instance {
        Some(instance) => instance.label(),
        None => state.profile.label(),
    }
}

pub open spec fn can_stop(state: Option<SessionStateView>) -> bool {
    match state {
        Some(state) => match state.instance {
            Some(instance) => instance_active(instance),
            None => false,
        },
        None => false,
    }
}

pub fn session_can_stop(state: Option<&SessionState>) -> (result: bool)
    ensures
        result == can_stop(state.deep_view()),
{
    match state {
        Some(state) => match state.instance {
            Some(instance) => instance.is_active(),
            None => false,
        },
        None => false,
    }
}

/// Whether a launch has to wait: just while there is something to stop.
pub fn session_is_launch_busy(state: Option<&SessionState>) -> (result: bool)
    ensures
        result == can_stop(state.deep_view()),
{
    session_can_stop(state)
}

/// The state of an instance that a check has found: only one that was started
/// from here counts as running.
pub fn checked_instance_status(runtime_running: bool, tracked_by_this_process: bool) -> (result:
    Option<InstanceStatus>)
    ensures
        result == (if runtime_running && tracked_by_this_process {
            Some(InstanceStatus::Running)
        } else {
            None
        }),
{
    if runtime_running && tracked_by_this_process {
        Some(InstanceStatus::Running)
    } else {
        None
    }
}

/// The state of an application after it was given a word and a reason.
pub open spec fn state_changed(
    before: Option<SessionStateView>,
    label: Seq<char>,
    detail: Seq<char>,
) -> SessionStateView {
    let (profile, instance) = states_for(label);
    match before {
        Some(state) => SessionStateView {
            profile,
            instance,
            detail,
            failed_step: state.failed_step,
            force_stop_available: state.force_stop_available && instance == Some(
                InstanceStatus::Stopping,
            ),
        },
        None => SessionStateView {
            profile,
            instance,
            detail,
            failed_step: None,
            force_stop_available: false,
        },
    }
}

/// The state of an application, where one is known.
pub open spec fn state_of(states: Seq<(usize, SessionStateView)>, index: usize) -> Option<
    SessionStateView,
> {
    let place = entry_place(states, index);
    if place < 0 {
        None
    } else {
        Some(states[place].1)
    }
}

/// The states after that of one application was replaced or added.
pub open spec fn with_state(
    states: Seq<(usize, SessionStateView)>,
    index: usize,
    state: SessionStateView,
) -> Seq<(usize, SessionStateView)> {
    let place = entry_place(states, index);
    if place < 0 {
        states.push((index, state))
    } else {
        states.update(place, (index, state))
    }
}

/// The states after that of one application, if it is known, was replaced.
pub open spec fn with_known_state(
    states: Seq<(usize, SessionStateView)>,
    index: usize,
    state: SessionStateView,
) -> Seq<(usize, SessionStateView)> {
    let place = entry_place(states, index);
    if place < 0 {
        states
    } else {
        states.update(place, (index, state))
    }
}

pub open spec fn without_index<A>(entries: Seq<(usize, A)>, index: usize) -> Seq<(usize, A)>
    decreases entries.len(),
{
    if entries.len() == 0 {
        Seq::empty()
    } else if entries.last().0 == index {
        without_index(entries.drop_last(), index)
    } else {
        without_index(entries.drop_last(), index).push(entries.last())
    }
}

pub open spec fn without_number(numbers: Seq<usize>, index: usize) -> Seq<usize>
    decreases numbers.len(),
{
    if numbers.len() == 0 {
        Seq::empty()
    } else if numbers.last() == index {
        without_number(numbers.drop_last(), index)
    } else {
        without_number(numbers.drop_last(), index).push(numbers.last())
    }
}

/// Each application has one state.
pub open spec fn one_state_each<A>(states: Seq<(usize, A)>) -> bool {
    forall|i: int, j: int|
        #![trigger states[i], states[j]]
        0 <= i < j < states.len() ==> states[i].0 != states[j].0
}

proof fn lemma_with_state(
    states: Seq<(usize, SessionStateView)>,
    index: usize,
    state: SessionStateView,
)
    requires
        one_state_each(states),
    ensures
        one_state_each(with_state(states, index, state)),
{
    lemma_entry_place(states, index);
    let result = with_state(states, index, state);
    assert forall|i: int, j: int|
        #![trigger result[i], result[j]]
        0 <= i < j < result.len() implies result[i].0 != result[j].0 by {
        if entry_place(states, index) < 0 {
            if j == states.len() {
                assert(states[i].0 == result[i].0);
            }
        } else {
            assert(states[i].0 == result[i].0 && states[j].0 == result[j].0);
        }
    }
}

proof fn lemma_without_index<A>(states: Seq<(usize, A)>, index: usize)
    requires
        one_state_each(states),
    ensures
        one_state_each(without_index(states, index)),
        forall|i: int|
            0 <= i < without_index(states, index).len() ==> states.contains(
                #[trigger] without_index(states, index)[i],
            ) && without_index(states, index)[i].0 != index,
    decreases states.len(),
{
    if states.len() > 0 {
        let front = states.drop_last();
        assert forall|i: int, j: int|
            #![trigger front[i], front[j]]
            0 <= i < j < front.len() implies front[i].0 != front[j].0 by {
            assert(front[i] == states[i] && front[j] == states[j]);
        }
        lemma_without_index(front, index);
        let kept = without_index(front, index);
        let result = without_index(states, index);
        assert forall|i: int| 0 <= i < result.len() implies states.contains(#[trigger] result[i])
            && result[i].0 != index by {
            if i < kept.len() {
                assert(kept[i] == result[i]);
                let at = choose|at: int| 0 <= at < front.len() && front[at] == kept[i];
                assert(states[at] == result[i]);
            } else {
                assert(states[states.len() - 1] == result[i]);
            }
        }
        assert forall|i: int, j: int|
            #![trigger result[i], result[j]]
            0 <= i < j < result.len() implies result[i].0 != result[j].0 by {
            assert(kept[i] == result[i]);
            if j < kept.len() {
                assert(kept[j] == result[j]);
            } else {
                let at = choose|at: int| 0 <= at < front.len() && front[at] == kept[i];
                assert(states[at] == result[i]);
                assert(states[states.len() - 1] == result[j]);
            }
        }
    }
}

// ---------------------------------------------------------------------------
// States of runtimes
// ---------------------------------------------------------------------------
/// The place of a runtime among those whose state is known, or -1.
pub open spec fn runtime_place(states: Seq<RuntimeStateView>, key: Seq<char>) -> int
    decreases states.len(),
{
    if states.len() == 0 {
        -1
    } else {
        let before = runtime_place(states.drop_last(), key);
        if before >= 0 {
            before
        } else if states.last().runtime == key {
            states.len() - 1
        } else {
            -1
        }
    }
}

proof fn lemma_runtime_place(states: Seq<RuntimeStateView>, key: Seq<char>)
    ensures
        -1 <= runtime_place(states, key) < states.len(),
        runtime_place(states, key) >= 0 ==> states[runtime_place(states, key)].runtime == key,
    decreases states.len(),
{
    if states.len() > 0 {
        lemma_runtime_place(states.drop_last(), key);
    }
}

proof fn lemma_runtime_stays(states: Seq<RuntimeStateView>, key: Seq<char>, count: int)
    requires
        0 <= count <= states.len(),
        runtime_place(states.take(count), key) >= 0,
    ensures
        runtime_place(states, key) == runtime_place(states.take(count), key),
    decreases states.len() - count,
{
    if count == states.len() {
        assert(states.take(count) == states);
    } else {
        assert(states.take(count + 1).drop_last() == states.take(count));
        lemma_runtime_stays(states, key, count + 1);
    }
}

fn find_runtime(states: &Vec<RuntimeSystemState>, key: &str) -> (result: Option<usize>)
    ensures
        match result {
            Some(place) => place < states@.len() && place == runtime_place(
                states.deep_view(),
                key@,
            ),
            None => runtime_place(states.deep_view(), key@) < 0,
        },
{
    let ghost all = states.deep_view();
    for i in 0..states.len()
        invariant
            all == states.deep_view(),
            runtime_place(all.take(i as int), key@) < 0,
    {
        assert(all.take(i + 1).last() == states@[i as int].deep_view());
        assert(all.take(i + 1).drop_last() == all.take(i as int));
        if same(states[i].runtime.as_str(), key) {
            proof {
                lemma_runtime_stays(all, key@, i + 1);
            }
            return Some(i);
        }
    }
    assert(all.take(all.len() as int) == all);
    None
}

/// The states of the runtimes after one of them has changed.
pub open spec fn with_runtime(
    states: Seq<RuntimeStateView>,
    runtime: Seq<char>,
    status: RuntimeStatus,
    detail: Seq<char>,
) -> Seq<RuntimeStateView> {
    let key = runtime_key(runtime);
    let place = runtime_place(states, key);
    let state = RuntimeStateView { runtime: key, status, detail };
    if place < 0 {
        states.push(state)
    } else {
        states.update(place, state)
    }
}

pub open spec fn runtime_state_of(states: Seq<RuntimeStateView>, runtime: Seq<char>) -> Option<
    RuntimeStateView,
> {
    let place = runtime_place(states, runtime_key(runtime));
    if place < 0 {
        None
    } else {
        Some(states[place])
    }
}

/// What a runtime was last said to be is what is read of it.
pub proof fn law_runtime_state_is_read(
    states: Seq<RuntimeStateView>,
    runtime: Seq<char>,
    status: RuntimeStatus,
    detail: Seq<char>,
)
    ensures
        runtime_state_of(with_runtime(states, runtime, status, detail), runtime) == Some(
            RuntimeStateView { runtime: runtime_key(runtime), status, detail },
        ),
{
    let key = runtime_key(runtime);
    let after = with_runtime(states, runtime, status, detail);
    lemma_runtime_place(states, key);
    if runtime_place(states, key) < 0 {
        assert(after.drop_last() == states);
    } else {
        lemma_same_runtimes(states, after, key);
    }
}

proof fn lemma_same_runtimes(a: Seq<RuntimeStateView>, b: Seq<RuntimeStateView>, key: Seq<char>)
    requires
        a.len() == b.len(),
        forall|i: int| 0 <= i < a.len() ==> (#[trigger] a[i]).runtime == b[i].runtime,
    ensures
        runtime_place(a, key) == runtime_place(b, key),
    decreases a.len(),
{
    if a.len() > 0 {
        assert forall|i: int| 0 <= i < a.drop_last().len() implies (
        #[trigger] a.drop_last()[i]).runtime == b.drop_last()[i].runtime by {
            assert(a[i].runtime == b[i].runtime);
        }
        lemma_same_runtimes(a.drop_last(), b.drop_last(), key);
        assert(a[a.len() - 1].runtime == b[b.len() - 1].runtime);
    }
}

// ---------------------------------------------------------------------------
// Instances
// ---------------------------------------------------------------------------
/// The first instance of a profile, where there is one.
pub open spec fn active_of(active: Seq<ActiveView>, index: usize) -> Option<ActiveView>
    decreases active.len(),
{
    if active.len() == 0 {
        None
    } else if active.first().profile_index == index {
        Some(active.first())
    } else {
        active_of(active.drop_first(), index)
    }
}

// ---------------------------------------------------------------------------
// Steps that the events are made of
// ---------------------------------------------------------------------------
pub open spec fn note(mode: ModeView, now: u128, message: Seq<char>) -> ModeView {
    ModeView { activity: noted(mode.activity, now, message), ..mode }
}

pub open spec fn task_started(
    mode: ModeView,
    key: Seq<char>,
    operation: Seq<char>,
    subject: Seq<char>,
    steps: Seq<Seq<char>>,
    now: u128,
) -> ModeView {
    ModeView {
        tasks: started(
            mode.tasks,
            new_task(mode.next_task, key, operation, subject, steps, now),
        ),
        next_task: mode.next_task.wrapping_add(1),
        ..mode
    }
}

pub open spec fn task_stepped(
    mode: ModeView,
    key: Seq<char>,
    step: Seq<char>,
    status: TaskStepStatus,
    detail: Seq<char>,
    now: u128,
) -> ModeView {
    ModeView { tasks: stepped(mode.tasks, key, step, status, Some(detail), now), ..mode }
}

pub open spec fn task_finished(
    mode: ModeView,
    key: Seq<char>,
    status: TaskStatus,
    detail: Seq<char>,
    now: u128,
) -> ModeView {
    ModeView { tasks: finished(mode.tasks, key, status, detail, now), ..mode }
}

pub open spec fn state_set(mode: ModeView, index: usize, label: Seq<char>, detail: Seq<char>) -> ModeView {
    ModeView {
        states: with_state(
            mode.states,
            index,
            state_changed(state_of(mode.states, index), label, detail),
        ),
        ..mode
    }
}

/// The state of an application, if it is known, is replaced by another.
pub open spec fn known_state_set(mode: ModeView, index: usize, state: SessionStateView) -> ModeView {
    ModeView { states: with_known_state(mode.states, index, state), ..mode }
}

pub open spec fn runtime_set(
    mode: ModeView,
    runtime: Seq<char>,
    status: RuntimeStatus,
    detail: Seq<char>,
) -> ModeView {
    ModeView { runtime_states: with_runtime(mode.runtime_states, runtime, status, detail), ..mode }
}

pub open spec fn session_selected(mode: ModeView, index: usize) -> ModeView {
    ModeView { selected_nav: NAV_SESSIONS, selected_session: Some(index), ..mode }
}

pub open spec fn image_task_set(mode: ModeView, message: Option<Seq<char>>) -> ModeView {
    ModeView {
        image_task: match message {
            Some(message) => Some((message, None)),
            None => None,
        },
        ..mode
    }
}

pub open spec fn validation_forgotten(mode: ModeView, index: usize) -> ModeView {
    ModeView {
        validation_requested: without_number(mode.validation_requested, index),
        ..mode
    }
}

/// What was found of a profile is no longer known.
pub open spec fn profile_invalidated(mode: ModeView, index: usize) -> ModeView {
    ModeView {
        states: without_index(mode.states, index),
        validation_requested: without_number(mode.validation_requested, index),
        ..mode
    }
}

fn drop_number(numbers: &Vec<usize>, index: usize) -> (result: Vec<usize>)
    ensures
        result@ == without_number(numbers@, index),
{
    let mut result: Vec<usize> = Vec::new();
    for i in 0..numbers.len()
        invariant
            result@ == without_number(numbers@.take(i as int), index),
    {
        assert(numbers@.take(i + 1).drop_last() == numbers@.take(i as int));
        if numbers[i] != index {
            result.push(numbers[i]);
        }
    }
    assert(numbers@.take(numbers@.len() as int) == numbers@);
    result
}

impl ContainerMode {
    pub open spec fn well_formed(&self) -> bool {
        &&& self.activity.well_formed()
        &&& self.logs.well_formed()
        &&& self.tasks.well_formed()
        &&& one_state_each(self.states.deep_view())
        &&& self.pending_displays.deep_view().no_duplicates()
    }

    pub fn new() -> (result: Self)
        ensures
            result.well_formed(),
            result.deep_view() == (ModeView {
                selected_nav: NAV_SESSIONS,
                selected_tab: 0,
                selected_session: None,
                selected_image: None,
                selected_volume: None,
                selected_container: None,
                container_details: None,
                activity: Seq::empty(),
                logs: Seq::empty(),
                tasks: Seq::empty(),
                next_task: 1,
                states: Seq::empty(),
                validation_requested: Seq::empty(),
                image_task: None,
                pending_pulls: Seq::empty(),
                runtime_states: Seq::empty(),
                active_sessions: Seq::empty(),
                managed_displays: Seq::empty(),
                pending_displays: Seq::empty(),
                closing_displays: Seq::empty(),
                display_error: None,
            }),
    {
        ContainerMode {
            selected_nav: NAV_SESSIONS,
            selected_tab: 0,
            selected_session: None,
            selected_image: None,
            selected_volume: None,
            selected_container: None,
            container_details: None,
            activity: ActivityLog::new(),
            logs: SessionLogs::new(),
            tasks: TaskLog::new(),
            states: empty_list(),
            validation_requested: Vec::new(),
            image_task: None,
            pending_pulls: empty_list(),
            runtime_states: empty_list(),
            active_sessions: empty_list(),
            managed_displays: empty_list(),
            pending_displays: empty_list(),
            closing_displays: empty_list(),
            display_error: None,
        }
    }

    pub fn push_activity(&mut self, now: u128, message: &str)
        requires
            old(self).well_formed(),
        ensures
            final(self).well_formed(),
            final(self).deep_view() == note(old(self).deep_view(), now, message@),
    {
        self.activity.push_activity(now, message);
    }

    pub fn start_task(
        &mut self,
        key: &str,
        operation: &str,
        subject: &str,
        steps: &Vec<String>,
        now: u128,
    )
        requires
            old(self).well_formed(),
        ensures
            final(self).well_formed(),
            final(self).deep_view() == task_started(
                old(self).deep_view(),
                key@,
                operation@,
                subject@,
                steps.deep_view(),
                now,
            ),
    {
        self.tasks.start_operation_task(key, operation, subject, steps, now);
    }

    pub fn step_task(
        &mut self,
        key: &str,
        step: &str,
        status: TaskStepStatus,
        detail: &str,
        now: u128,
    )
        requires
            old(self).well_formed(),
        ensures
            final(self).well_formed(),
            final(self).deep_view() == task_stepped(
                old(self).deep_view(),
                key@,
                step@,
                status,
                detail@,
                now,
            ),
    {
        self.tasks.update_operation_task_step(key, step, status, Some(detail), now);
    }

    pub fn finish_task(&mut self, key: &str, status: TaskStatus, detail: &str, now: u128)
        requires
            old(self).well_formed(),
        ensures
            final(self).well_formed(),
            final(self).deep_view() == task_finished(
                old(self).deep_view(),
                key@,
                status,
                detail@,
                now,
            ),
    {
        self.tasks.finish_operation_task(key, status, detail, now);
    }

    /// What is known of an application.
    pub fn session_state(&self, index: usize) -> (result: Option<&SessionState>)
        ensures
            result.deep_view() == state_of(self.deep_view().states, index),
    {
        match find_entry(&self.states, index) {
            Some(place) => {
                assert(self.states.deep_view()[place as int] == self.states@[place as int].deep_view());
                Some(&self.states[place].1)
            },
            None => None,
        }
    }

    /// Gives an application a word and a reason.
    pub fn set_session_state(&mut self, index: usize, label: &str, detail: &str)
        requires
            old(self).well_formed(),
        ensures
            final(self).well_formed(),
            final(self).deep_view() == state_set(old(self).deep_view(), index, label@, detail@),
    {
        let ghost before = self.states.deep_view();
        let ghost changed = state_changed(state_of(before, index), label@, detail@);
        proof {
            lemma_with_state(before, index, changed);
        }
        let (profile, instance) = state_from_label(label);
        match find_entry(&self.states, index) {
            Some(place) => {
                assert(before[place as int] == self.states@[place as int].deep_view());
                let mut entry = self.states.remove(place);
                entry.1.profile = profile;
                entry.1.instance = instance;
                entry.1.detail = detail.to_owned();
                if instance != Some(InstanceStatus::Stopping) {
                    entry.1.force_stop_available = false;
                }
                assert(entry.deep_view() == (index, changed));
                self.states.insert(place, entry);
                assert(self.states.deep_view() == before.update(place as int, (index, changed)));
            },
            None => {
                let state = SessionState {
                    profile,
                    instance,
                    detail: detail.to_owned(),
                    failed_step: None,
                    force_stop_available: false,
                };
                assert(state.deep_view() == changed);
                push_deep(&mut self.states, (index, state));
            },
        }
    }

    /// Replaces what is known of an application, if something is.
    pub fn replace_known_state(&mut self, index: usize, state: SessionState)
        requires
            old(self).well_formed(),
        ensures
            final(self).well_formed(),
            final(self).deep_view() == known_state_set(
                old(self).deep_view(),
                index,
                state.deep_view(),
            ),
    {
        let ghost before = self.states.deep_view();
        proof {
            lemma_with_state(before, index, state.deep_view());
        }
        if let Some(place) = find_entry(&self.states, index) {
            let ghost replaced = state.deep_view();
            self.states.set(place, (index, state));
            assert(self.states.deep_view() == before.update(place as int, (index, replaced)));
        }
    }

    pub fn set_runtime_system_state(&mut self, runtime: &str, status: RuntimeStatus, detail: &str)
        requires
            old(self).well_formed(),
        ensures
            final(self).well_formed(),
            final(self).deep_view() == runtime_set(
                old(self).deep_view(),
                runtime@,
                status,
                detail@,
            ),
    {
        let key = normalized_runtime_key(runtime);
        let ghost before = self.runtime_states.deep_view();
        let state = RuntimeSystemState { runtime: key.to_owned(), status, detail: detail.to_owned() };
        let ghost added = state.deep_view();
        match find_runtime(&self.runtime_states, key) {
            Some(place) => {
                self.runtime_states.set(place, state);
                assert(self.runtime_states.deep_view() == before.update(place as int, added));
            },
            None => {
                push_deep(&mut self.runtime_states, state);
            },
        }
    }

    pub fn runtime_system_state(&self, runtime: &str) -> (result: Option<RuntimeSystemState>)
        ensures
            result.deep_view() == runtime_state_of(self.deep_view().runtime_states, runtime@),
    {
        match find_runtime(&self.runtime_states, normalized_runtime_key(runtime)) {
            Some(place) => Some(self.runtime_states[place].clone()),
            None => None,
        }
    }

    /// The states of all runtimes that are known.
    pub fn control_runtime_states(&self) -> (result: Vec<RuntimeSystemState>)
        ensures
            result.deep_view() == self.deep_view().runtime_states,
    {
        let mut result: Vec<RuntimeSystemState> = Vec::new();
        for i in 0..self.runtime_states.len()
            invariant
                result@.len() == i,
                forall|j: int|
                    0 <= j < i ==> (#[trigger] result@[j]).deep_view()
                        == self.runtime_states@[j].deep_view(),
        {
            result.push(self.runtime_states[i].clone());
        }
        assert(result.deep_view() == self.runtime_states.deep_view());
        result
    }

    /// The word for an application and the reason, where something is known.
    pub fn control_session_state(&self, index: usize) -> (result: Option<(String, String)>)
        ensures
            result.deep_view() == (match state_of(self.deep_view().states, index) {
                Some(state) => Some((state_label(state), state.detail)),
                None => None,
            }),
    {
        match self.session_state(index) {
            Some(state) => Some((session_state_label(state).to_owned(), state.detail.clone())),
            None => None,
        }
    }

    pub fn select_session(&mut self, index: usize)
        requires
            old(self).well_formed(),
        ensures
            final(self).well_formed(),
            final(self).deep_view() == session_selected(old(self).deep_view(), index),
    {
        self.selected_nav = NAV_SESSIONS;
        self.selected_session = Some(index);
    }

    pub fn set_image_task_active(&mut self, message: &str)
        requires
            old(self).well_formed(),
        ensures
            final(self).well_formed(),
            final(self).deep_view() == image_task_set(old(self).deep_view(), Some(message@)),
    {
        self.image_task = Some((message.to_owned(), None));
    }

    pub fn clear_image_task_active(&mut self)
        requires
            old(self).well_formed(),
        ensures
            final(self).well_formed(),
            final(self).deep_view() == image_task_set(old(self).deep_view(), None),
    {
        self.image_task = None;
    }

    /// A check of a profile that was asked for has come back.
    pub fn forget_validation(&mut self, index: usize)
        requires
            old(self).well_formed(),
        ensures
            final(self).well_formed(),
            final(self).deep_view() == validation_forgotten(old(self).deep_view(), index),
    {
        self.validation_requested = drop_number(&self.validation_requested, index);
    }

    pub fn invalidate_profile_validation(&mut self, index: usize)
        requires
            old(self).well_formed(),
        ensures
            final(self).well_formed(),
            final(self).deep_view() == profile_invalidated(old(self).deep_view(), index),
    {
        let mut all: Vec<(usize, SessionState)> = Vec::new();
        std::mem::swap(&mut self.states, &mut all);
        let ghost before = all.deep_view();
        proof {
            lemma_without_index(before, index);
        }
        let mut kept: Vec<(usize, SessionState)> = empty_list();
        for entry in it: all
            invariant
                it.seq().len() == before.len(),
                forall|i: int|
                    0 <= i < before.len() ==> #[trigger] it.seq()[i].deep_view() == before[i],
                kept.deep_view() == without_index(before.take(it.index()), index),
        {
            let ghost i = it.index();
            assert(entry.deep_view() == before[i]);
            assert(before.take(i + 1).drop_last() == before.take(i));
            if entry.0 != index {
                push_deep(&mut kept, entry);
            }
        }
        assert(before.take(before.len() as int) == before);
        self.states = kept;
        self.validation_requested = drop_number(&self.validation_requested, index);
    }

    pub fn invalidate_all_profile_validation(&mut self)
        requires
            old(self).well_formed(),
        ensures
            final(self).well_formed(),
            final(self).deep_view() == (ModeView {
                states: Seq::empty(),
                validation_requested: Seq::empty(),
                ..old(self).deep_view()
            }),
    {
        self.states = empty_list();
        self.validation_requested = Vec::new();
    }

    /// The first instance of a profile.
    pub fn active_session(&self, index: usize) -> (result: Option<&ActiveSessionSnapshot>)
        ensures
            result.deep_view() == active_of(self.deep_view().active_sessions, index),
    {
        let ghost all = self.active_sessions.deep_view();
        assert(all.skip(0) == all);
        for i in 0..self.active_sessions.len()
            invariant
                all == self.active_sessions.deep_view(),
                active_of(all, index) == active_of(all.skip(i as int), index),
        {
            assert(all.skip(i as int).drop_first() == all.skip(i + 1));
            assert(all.skip(i as int).first() == self.active_sessions@[i as int].deep_view());
            if self.active_sessions[i].profile_index == index {
                return Some(&self.active_sessions[i]);
            }
        }
        None
    }

    pub fn push_log(&mut self, index: usize, source: &str, line: &str)
        requires
            old(self).well_formed(),
        ensures
            final(self).well_formed(),
            final(self).deep_view() == (ModeView {
                logs: logged(old(self).deep_view().logs, index, source@, line@),
                ..old(self).deep_view()
            }),
    {
        self.logs.push_session_log(index, source, line);
    }

    pub fn clear_log(&mut self, index: usize)
        requires
            old(self).well_formed(),
        ensures
            final(self).well_formed(),
            final(self).deep_view() == (ModeView {
                logs: log_cleared(old(self).deep_view().logs, index),
                ..old(self).deep_view()
            }),
    {
        self.logs.clear_session_logs(index);
    }
}

} // verus!
