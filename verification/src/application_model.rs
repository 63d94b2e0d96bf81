//! The states of applications, runtimes, displays and tasks, and their names.
use vstd::prelude::*;

verus! {

/// Whether a saved application can be launched.
#[derive(Debug, Clone, Copy, PartialEq, Eq, Structural)]
pub enum ProfileStatus {
    Ready,
    Invalid,
}

/// How an instance of an application is doing.
#[derive(Debug, Clone, Copy, PartialEq, Eq, Structural)]
pub enum InstanceStatus {
    Starting,
    Running,
    Stopping,
    Exited,
    Failed,
}

/// How a container runtime is doing.
#[derive(Debug, Clone, Copy, PartialEq, Eq, Structural)]
pub enum RuntimeStatus {
    Starting,
    Ready,
    Degraded,
    Stopping,
    Unavailable,
    Failed,
}

/// How a display is doing.
#[derive(Debug, Clone, Copy, PartialEq, Eq, Structural)]
pub enum DisplayStatus {
    Allocating,
    Free,
    Attached,
    Closing,
    Failed,
}

/// How a task is doing.
#[derive(Debug, Clone, Copy, PartialEq, Eq, Structural)]
pub enum TaskStatus {
    Queued,
    Running,
    Completed,
    Failed,
    Cancelled,
}

/// How a step of a task is doing.
#[derive(Debug, Clone, Copy, PartialEq, Eq, Structural)]
pub enum TaskStepStatus {
    Pending,
    Running,
    Completed,
    Failed,
}

/// The steps of a launch.
#[derive(Debug, Clone, Copy, PartialEq, Eq, Structural)]
pub enum LaunchStep {
    ValidateProfile,
    CreateContainer,
    StartWaypipe,
    StartCommand,
}

pub open spec fn profile_label(status: ProfileStatus) -> Seq<char> {
    match status {
        ProfileStatus::Ready => "Ready"@,
        ProfileStatus::Invalid => "Invalid"@,
    }
}

impl ProfileStatus {
    pub fn label(self) -> (result: &'static str)
        ensures
            result@ == profile_label(self),
    {
        match self {
            ProfileStatus::Ready => "Ready",
            ProfileStatus::Invalid => "Invalid",
        }
    }
}

pub open spec fn instance_label(status: InstanceStatus) -> Seq<char> {
    match status {
        InstanceStatus::Starting => "Starting"@,
        InstanceStatus::Running => "Running"@,
        InstanceStatus::Stopping => "Stopping"@,
        InstanceStatus::Exited => "Exited"@,
        InstanceStatus::Failed => "Failed"@,
    }
}

/// Whether there is something that can be stopped.
pub open spec fn instance_active(status: InstanceStatus) -> bool {
    status is Starting || status is Running || status is Stopping
}

impl InstanceStatus {
    pub fn label(self) -> (result: &'static str)
        ensures
            result@ == instance_label(self),
    {
        match self {
            InstanceStatus::Starting => "Starting",
            InstanceStatus::Running => "Running",
            InstanceStatus::Stopping => "Stopping",
            InstanceStatus::Exited => "Exited",
            InstanceStatus::Failed => "Failed",
        }
    }

    pub fn is_active(self) -> (result: bool)
        ensures
            result == instance_active(self),
    {
        match self {
            InstanceStatus::Starting | InstanceStatus::Running | InstanceStatus::Stopping => true,
            InstanceStatus::Exited | InstanceStatus::Failed => false,
        }
    }
}

pub open spec fn runtime_status_label(status: RuntimeStatus) -> Seq<char> {
    match status {
        RuntimeStatus::Starting => "Starting"@,
        RuntimeStatus::Ready => "Ready"@,
        RuntimeStatus::Degraded => "Degraded"@,
        RuntimeStatus::Stopping => "Stopping"@,
        RuntimeStatus::Unavailable => "Unavailable"@,
        RuntimeStatus::Failed => "Failed"@,
    }
}

impl RuntimeStatus {
    pub fn label(self) -> (result: &'static str)
        ensures
            result@ == runtime_status_label(self),
    {
        match self {
            RuntimeStatus::Starting => "Starting",
            RuntimeStatus::Ready => "Ready",
            RuntimeStatus::Degraded => "Degraded",
            RuntimeStatus::Stopping => "Stopping",
            RuntimeStatus::Unavailable => "Unavailable",
            RuntimeStatus::Failed => "Failed",
        }
    }
}

pub open spec fn display_status_label(status: DisplayStatus) -> Seq<char> {
    match status {
        DisplayStatus::Allocating => "Allocating"@,
        DisplayStatus::Free => "Free"@,
        DisplayStatus::Attached => "Attached"@,
        DisplayStatus::Closing => "Closing"@,
        DisplayStatus::Failed => "Failed"@,
    }
}

impl DisplayStatus {
    pub fn label(self) -> (result: &'static str)
        ensures
            result@ == display_status_label(self),
    {
        match self {
            DisplayStatus::Allocating => "Allocating",
            DisplayStatus::Free => "Free",
            DisplayStatus::Attached => "Attached",
            DisplayStatus::Closing => "Closing",
            DisplayStatus::Failed => "Failed",
        }
    }
}

pub open spec fn task_status_label(status: TaskStatus) -> Seq<char> {
    match status {
        TaskStatus::Queued => "Queued"@,
        TaskStatus::Running => "Running"@,
        TaskStatus::Completed => "Completed"@,
        TaskStatus::Failed => "Failed"@,
        TaskStatus::Cancelled => "Cancelled"@,
    }
}

/// Whether a task still goes on.
pub open spec fn task_active(status: TaskStatus) -> bool {
    status is Queued || status is Running
}

impl TaskStatus {
    pub fn label(self) -> (result: &'static str)
        ensures
            result@ == task_status_label(self),
    {
        match self {
            TaskStatus::Queued => "Queued",
            TaskStatus::Running => "Running",
            TaskStatus::Completed => "Completed",
            TaskStatus::Failed => "Failed",
            TaskStatus::Cancelled => "Cancelled",
        }
    }

    pub fn is_active(self) -> (result: bool)
        ensures
            result == task_active(self),
    {
        match self {
            TaskStatus::Queued | TaskStatus::Running => true,
            TaskStatus::Completed | TaskStatus::Failed | TaskStatus::Cancelled => false,
        }
    }
}

pub open spec fn launch_step_label(step: LaunchStep) -> Seq<char> {
    match step {
        LaunchStep::ValidateProfile => "Validate profile"@,
        LaunchStep::CreateContainer => "Create container"@,
        LaunchStep::StartWaypipe => "Start Waypipe"@,
        LaunchStep::StartCommand => "Start command"@,
    }
}

impl LaunchStep {
    pub fn label(self) -> (result: &'static str)
        ensures
            result@ == launch_step_label(self),
    {
        match self {
            LaunchStep::ValidateProfile => "Validate profile",
            LaunchStep::CreateContainer => "Create container",
            LaunchStep::StartWaypipe => "Start Waypipe",
            LaunchStep::StartCommand => "Start command",
        }
    }
}

} // verus!
