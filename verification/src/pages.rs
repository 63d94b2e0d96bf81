//! The pages on the left of the container window that need no runtime: where the
//! user is, what they can do there, and what has happened.
use vstd::prelude::*;
use vstd::string::*;

use crate::application_model::{task_status_label, TaskStatus, TaskStepStatus};
use crate::container_mode::{ContainerMode, ModeView};
use crate::diagnostics::{ClipboardSnapshot, ClipboardView};
use crate::page::{
    area, area_item, button, button_item, card, card_item, label, label_item, shown_count, Action,
    ActionView, Command, Item, ItemView, TextStyle,
};
use crate::profiles::{
    NAV_ACTIVITY, NAV_APPLE_CONTAINER, NAV_COMMANDS, NAV_DISPLAYS, NAV_DOCKER, NAV_IMAGES,
    NAV_ORBSTACK, NAV_RUNNING, NAV_SESSIONS, NAV_VOLUMES,
};
use crate::tasks::{active_tasks, OperationTask, TaskStep, TaskStepView, TaskView};
use crate::text::{concat, concat4, concat6, concat7, concat3, count_text, decimal, decimal_text};

verus! {

// ---------------------------------------------------------------------------
// Where the user is
// ---------------------------------------------------------------------------
/// The name of a page.
pub open spec fn title_of(nav: usize) -> Seq<char> {
    if nav == NAV_RUNNING {
        "Running"@
    } else if nav == NAV_IMAGES {
        "Images"@
    } else if nav == NAV_VOLUMES {
        "Volumes"@
    } else if nav == NAV_DISPLAYS {
        "Displays"@
    } else if nav == NAV_APPLE_CONTAINER {
        "Apple Container"@
    } else if nav == NAV_DOCKER {
        "Docker-compatible"@
    } else if nav == NAV_ORBSTACK {
        "OrbStack"@
    } else if nav == NAV_ACTIVITY {
        "Activity"@
    } else if nav == NAV_COMMANDS {
        "Commands"@
    } else {
        "Applications"@
    }
}

pub fn nav_title(index: usize) -> (result: &'static str)
    ensures
        result@ == title_of(index),
{
    if index == NAV_RUNNING {
        "Running"
    } else if index == NAV_IMAGES {
        "Images"
    } else if index == NAV_VOLUMES {
        "Volumes"
    } else if index == NAV_DISPLAYS {
        "Displays"
    } else if index == NAV_APPLE_CONTAINER {
        "Apple Container"
    } else if index == NAV_DOCKER {
        "Docker-compatible"
    } else if index == NAV_ORBSTACK {
        "OrbStack"
    } else if index == NAV_ACTIVITY {
        "Activity"
    } else if index == NAV_COMMANDS {
        "Commands"
    } else {
        "Applications"
    }
}

/// An entry of the side bar. In a low window there is no room for what is
/// said of it.
pub open spec fn nav_item_items(
    index: usize,
    title: Seq<char>,
    subtitle: Seq<char>,
    active: bool,
    compact: bool,
) -> Seq<ItemView> {
    (if active { seq![card_item(true)] } else { Seq::<ItemView>::empty() })
        + seq![label_item(TextStyle::Heading, title)]
        + (if !compact {
            seq![label_item(TextStyle::Caption, subtitle)]
        } else {
            Seq::<ItemView>::empty()
        }) + seq![area_item(ActionView::At(Command::SelectNav, index))]
}

pub fn add_nav_item(
    items: &mut Vec<Item>,
    index: usize,
    title: &str,
    subtitle: &str,
    active: bool,
    compact: bool,
)
    ensures
        final(items).deep_view() == old(items).deep_view() + nav_item_items(
            index,
            title@,
            subtitle@,
            active,
            compact,
        ),
{
    if active {
        card(items, true);
    }
    label(items, TextStyle::Heading, title);
    if !compact {
        label(items, TextStyle::Caption, subtitle);
    }
    area(items, Action::At(Command::SelectNav, index));
}

/// The pages of profiles.
pub open spec fn sidebar_applications_items(
    session_count: usize,
    mode: ModeView,
    compact: bool,
) -> Seq<ItemView> {
    seq![label_item(TextStyle::Section, "Applications"@)]
        + nav_item_items(
            NAV_SESSIONS,
            "Applications"@,
            decimal(session_count as nat) + " profiles"@,
            mode.selected_nav == NAV_SESSIONS,
            compact,
        )
        + nav_item_items(
            NAV_RUNNING,
            "Running"@,
            decimal(mode.active_sessions.len() as nat) + " active"@,
            mode.selected_nav == NAV_RUNNING,
            compact,
        )
}

pub fn sidebar_applications(
    items: &mut Vec<Item>,
    session_count: usize,
    mode: &ContainerMode,
    compact: bool,
)
    ensures
        final(items).deep_view() == old(items).deep_view() + sidebar_applications_items(
            session_count,
            mode.deep_view(),
            compact,
        ),
{
    assert(mode.deep_view().active_sessions.len() == mode.active_sessions@.len());
    label(items, TextStyle::Section, "Applications");
    let number = count_text(session_count);
    let text = concat(number.as_str(), " profiles");
    add_nav_item(
        items,
        NAV_SESSIONS,
        "Applications",
        text.as_str(),
        mode.selected_nav == NAV_SESSIONS,
        compact,
    );
    let number = count_text(mode.active_sessions.len());
    let text = concat(number.as_str(), " active");
    add_nav_item(
        items,
        NAV_RUNNING,
        "Running",
        text.as_str(),
        mode.selected_nav == NAV_RUNNING,
        compact,
    );
}

/// The pages of what runtimes and the window hold.
pub open spec fn sidebar_resources_items(mode: ModeView, compact: bool) -> Seq<ItemView> {
    seq![label_item(TextStyle::Section, "Resources"@)]
        + nav_item_items(
            NAV_IMAGES,
            "Images"@,
            "GUI-ready images"@,
            mode.selected_nav == NAV_IMAGES,
            compact,
        )
        + nav_item_items(
            NAV_VOLUMES,
            "Volumes"@,
            "shared data"@,
            mode.selected_nav == NAV_VOLUMES,
            compact,
        )
        + nav_item_items(
            NAV_DISPLAYS,
            "Displays"@,
            "window slots"@,
            mode.selected_nav == NAV_DISPLAYS,
            compact,
        )
}

pub fn sidebar_resources(items: &mut Vec<Item>, mode: &ContainerMode, compact: bool)
    ensures
        final(items).deep_view() == old(items).deep_view() + sidebar_resources_items(
            mode.deep_view(),
            compact,
        ),
{
    label(items, TextStyle::Section, "Resources");
    add_nav_item(
        items,
        NAV_IMAGES,
        "Images",
        "GUI-ready images",
        mode.selected_nav == NAV_IMAGES,
        compact,
    );
    add_nav_item(
        items,
        NAV_VOLUMES,
        "Volumes",
        "shared data",
        mode.selected_nav == NAV_VOLUMES,
        compact,
    );
    add_nav_item(
        items,
        NAV_DISPLAYS,
        "Displays",
        "window slots",
        mode.selected_nav == NAV_DISPLAYS,
        compact,
    );
}

/// The pages of the runtimes.
pub open spec fn sidebar_runtimes_items(mode: ModeView, compact: bool) -> Seq<ItemView> {
    seq![label_item(TextStyle::Section, "Runtimes"@)]
        + nav_item_items(
            NAV_APPLE_CONTAINER,
            "Apple Container"@,
            "first-class target"@,
            mode.selected_nav == NAV_APPLE_CONTAINER,
            compact,
        )
        + nav_item_items(
            NAV_DOCKER,
            "Docker-compatible"@,
            "contexts and providers"@,
            mode.selected_nav == NAV_DOCKER,
            compact,
        )
}

pub fn sidebar_runtimes(items: &mut Vec<Item>, mode: &ContainerMode, compact: bool)
    ensures
        final(items).deep_view() == old(items).deep_view() + sidebar_runtimes_items(
            mode.deep_view(),
            compact,
        ),
{
    label(items, TextStyle::Section, "Runtimes");
    add_nav_item(
        items,
        NAV_APPLE_CONTAINER,
        "Apple Container",
        "first-class target",
        mode.selected_nav == NAV_APPLE_CONTAINER,
        compact,
    );
    add_nav_item(
        items,
        NAV_DOCKER,
        "Docker-compatible",
        "contexts and providers",
        mode.selected_nav == NAV_DOCKER,
        compact,
    );
}

/// The pages of what has happened and of what can be done by hand.
pub open spec fn sidebar_diagnostics_items(mode: ModeView, compact: bool) -> Seq<ItemView> {
    seq![label_item(TextStyle::Section, "Diagnostics"@)]
        + nav_item_items(
            NAV_ACTIVITY,
            "Activity"@,
            if active_tasks(mode.tasks) > 0 {
                decimal(active_tasks(mode.tasks) as nat) + " running · "@
                    + decimal(mode.activity.len() as nat) + " events"@
            } else {
                decimal(mode.activity.len() as nat) + " events"@
            },
            mode.selected_nav == NAV_ACTIVITY,
            compact,
        )
        + nav_item_items(
            NAV_COMMANDS,
            "Commands"@,
            "launch helpers"@,
            mode.selected_nav == NAV_COMMANDS,
            compact,
        )
}

pub fn sidebar_diagnostics(items: &mut Vec<Item>, mode: &ContainerMode, compact: bool)
    ensures
        final(items).deep_view() == old(items).deep_view() + sidebar_diagnostics_items(
            mode.deep_view(),
            compact,
        ),
{
    assert(mode.deep_view().activity.len() == mode.activity.lines@.len());
    label(items, TextStyle::Section, "Diagnostics");
    let running: usize = mode.tasks.active_task_count();
    let word = if running > 0 {
        let number = count_text(running);
        let number2 = count_text(mode.activity.lines.len());
        let text = concat4(number.as_str(), " running · ", number2.as_str(), " events");
        text
    } else {
        let number = count_text(mode.activity.lines.len());
        let text = concat(number.as_str(), " events");
        text
    };
    add_nav_item(
        items,
        NAV_ACTIVITY,
        "Activity",
        word.as_str(),
        mode.selected_nav == NAV_ACTIVITY,
        compact,
    );
    add_nav_item(
        items,
        NAV_COMMANDS,
        "Commands",
        "launch helpers",
        mode.selected_nav == NAV_COMMANDS,
        compact,
    );
}

/// The side bar: all pages, grouped, with what there is on them.
pub open spec fn resource_sidebar_items(
    session_count: usize,
    mode: ModeView,
    compact: bool,
) -> Seq<ItemView> {
    seq![label_item(TextStyle::Heading, "Cocoa-Way"@)]
        + sidebar_applications_items(session_count, mode, compact)
        + sidebar_resources_items(mode, compact) + sidebar_runtimes_items(mode, compact)
        + sidebar_diagnostics_items(mode, compact)
        + seq![
            button_item(
                "Settings..."@,
                ActionView::Do(Command::OpenSettings),
                true,
                "Open Cocoa-Way Container Mode settings"@,
            ),
        ]
}

pub fn add_resource_sidebar(
    items: &mut Vec<Item>,
    session_count: usize,
    mode: &ContainerMode,
    compact: bool,
)
    ensures
        final(items).deep_view() == old(items).deep_view() + resource_sidebar_items(
            session_count,
            mode.deep_view(),
            compact,
        ),
{
    label(items, TextStyle::Heading, "Cocoa-Way");
    sidebar_applications(items, session_count, mode, compact);
    sidebar_resources(items, mode, compact);
    sidebar_runtimes(items, mode, compact);
    sidebar_diagnostics(items, mode, compact);
    button(
        items,
        "Settings...",
        Action::Do(Command::OpenSettings),
        true,
        "Open Cocoa-Way Container Mode settings",
    );
}

/// What stands above a page.
pub open spec fn list_toolbar_items(selected_nav: usize) -> Seq<ItemView> {
    seq![
        label_item(TextStyle::Title, title_of(selected_nav)),
        button_item(
            "Reload"@,
            ActionView::Do(Command::Reload),
            true,
            "Reload container-sessions.toml"@,
        ),
    ]
        + (if selected_nav == NAV_ACTIVITY {
            seq![
                button_item(
                    "Clear"@,
                    ActionView::Do(Command::ClearActivity),
                    true,
                    "Clear Container Mode activity messages"@,
                ),
            ]
        } else {
            Seq::<ItemView>::empty()
        })
        + (if selected_nav == NAV_SESSIONS {
            seq![
                button_item(
                    "New Application"@,
                    ActionView::Do(Command::AddSession),
                    true,
                    "Create a saved application profile"@,
                ),
            ]
        } else {
            Seq::<ItemView>::empty()
        })
}

pub fn add_list_toolbar(items: &mut Vec<Item>, selected_nav: usize)
    ensures
        final(items).deep_view() == old(items).deep_view() + list_toolbar_items(selected_nav),
{
    label(items, TextStyle::Title, nav_title(selected_nav));
    button(items, "Reload", Action::Do(Command::Reload), true, "Reload container-sessions.toml");
    if selected_nav == NAV_ACTIVITY {
        button(
            items,
            "Clear",
            Action::Do(Command::ClearActivity),
            true,
            "Clear Container Mode activity messages",
        );
    }
    if selected_nav == NAV_SESSIONS {
        button(
            items,
            "New Application",
            Action::Do(Command::AddSession),
            true,
            "Create a saved application profile",
        );
    }
}

// ---------------------------------------------------------------------------
// Pages with nothing on them
// ---------------------------------------------------------------------------
/// The page where there are no profiles.
pub open spec fn session_empty_list_items() -> Seq<ItemView> {
    seq![
        label_item(TextStyle::Title, "No Applications"@),
        label_item(
            TextStyle::Body,
            "Restore the bundled Niri desktop profile or create a custom Wayland application profile."@,
        ),
        label_item(
            TextStyle::Mono,
            "Example\nruntime = \"container\"\nimage = \"localhost/cocoa-way-niri:latest\"\nprofile = \"niri\"\ncommand = \"niri\""@,
        ),
        button_item(
            "Restore Example"@,
            ActionView::Do(Command::RestoreExample),
            true,
            "Restore the bundled example application profile"@,
        ),
        button_item(
            "Custom..."@,
            ActionView::Do(Command::AddSession),
            true,
            "Create a custom Container Mode application"@,
        ),
    ]
}

pub fn add_session_empty_list(items: &mut Vec<Item>)
    ensures
        final(items).deep_view() == old(items).deep_view() + session_empty_list_items(),
{
    label(items, TextStyle::Title, "No Applications");
    label(
        items,
        TextStyle::Body,
        "Restore the bundled Niri desktop profile or create a custom Wayland application profile.",
    );
    label(
        items,
        TextStyle::Mono,
        "Example\nruntime = \"container\"\nimage = \"localhost/cocoa-way-niri:latest\"\nprofile = \"niri\"\ncommand = \"niri\"",
    );
    button(
        items,
        "Restore Example",
        Action::Do(Command::RestoreExample),
        true,
        "Restore the bundled example application profile",
    );
    button(
        items,
        "Custom...",
        Action::Do(Command::AddSession),
        true,
        "Create a custom Container Mode application",
    );
}

/// The page where nothing runs.
pub open spec fn running_empty_list_items() -> Seq<ItemView> {
    seq![
        label_item(TextStyle::Title, "No Running Applications"@),
        label_item(
            TextStyle::Body,
            "Launch an application profile to create an instance. Active containers, Waypipe workers, and display attachments will appear here."@,
        ),
    ]
}

pub fn add_running_empty_list(items: &mut Vec<Item>)
    ensures
        final(items).deep_view() == old(items).deep_view() + running_empty_list_items(),
{
    label(items, TextStyle::Title, "No Running Applications");
    label(
        items,
        TextStyle::Body,
        "Launch an application profile to create an instance. Active containers, Waypipe workers, and display attachments will appear here.",
    );
}

/// The page where the profiles cannot be read.
pub open spec fn config_error_list_items(error: Seq<char>) -> Seq<ItemView> {
    seq![
        label_item(TextStyle::Title, "Config Error"@),
        label_item(
            TextStyle::Body,
            "Container Mode could not parse container-sessions.toml. Fix the file and press Reload."@,
        ),
        label_item(TextStyle::Mono, error),
        button_item(
            "Open Config"@,
            ActionView::Do(Command::OpenConfig),
            true,
            "Reveal container-sessions.toml in Finder"@,
        ),
    ]
}

pub fn add_config_error_list(items: &mut Vec<Item>, error: &str)
    ensures
        final(items).deep_view() == old(items).deep_view() + config_error_list_items(error@),
{
    label(items, TextStyle::Title, "Config Error");
    label(
        items,
        TextStyle::Body,
        "Container Mode could not parse container-sessions.toml. Fix the file and press Reload.",
    );
    label(items, TextStyle::Mono, error);
    button(
        items,
        "Open Config",
        Action::Do(Command::OpenConfig),
        true,
        "Reveal container-sessions.toml in Finder",
    );
}

/// A page of which nothing is known.
pub open spec fn placeholder_list_items(title: Seq<char>) -> Seq<ItemView> {
    seq![
        label_item(TextStyle::Title, "No "@ + title),
        label_item(TextStyle::Body, "No local resources are available for this section."@),
    ]
}

pub fn add_placeholder_list(items: &mut Vec<Item>, title: &str)
    ensures
        final(items).deep_view() == old(items).deep_view() + placeholder_list_items(title@),
{
    let text = concat("No ", title);
    label(items, TextStyle::Title, text.as_str());
    label(items, TextStyle::Body, "No local resources are available for this section.");
}

// ---------------------------------------------------------------------------
// Commands
// ---------------------------------------------------------------------------
/// One of the useful commands.
pub open spec fn command_card_items(command: Seq<char>, index: usize) -> Seq<ItemView> {
    seq![
        card_item(false),
        label_item(TextStyle::Mono, command),
        button_item(
            "Copy"@,
            ActionView::At(Command::CopyCommand, index),
            true,
            "Copy this command to the clipboard"@,
        ),
    ]
}

/// The useful commands, with their numbers.
pub open spec fn all_command_items(commands: Seq<Seq<char>>) -> Seq<ItemView>
    decreases commands.len(),
{
    if commands.len() == 0 {
        Seq::empty()
    } else {
        all_command_items(commands.drop_last()) + command_card_items(
            commands.last(),
            (commands.len() - 1) as usize,
        )
    }
}

/// The page of useful commands.
pub open spec fn commands_list_items(commands: Seq<Seq<char>>) -> Seq<ItemView> {
    seq![label_item(TextStyle::Title, "Useful Commands"@)] + all_command_items(commands)
}

pub fn add_commands_list(items: &mut Vec<Item>, commands: &Vec<String>)
    ensures
        final(items).deep_view() == old(items).deep_view() + commands_list_items(
            commands.deep_view(),
        ),
{
    let ghost before = items.deep_view();
    let ghost all = commands.deep_view();
    let ghost head = seq![label_item(TextStyle::Title, "Useful Commands"@)];
    label(items, TextStyle::Title, "Useful Commands");
    assert(all_command_items(all.take(0)) == Seq::<ItemView>::empty());
    for i in 0..commands.len()
        invariant
            all == commands.deep_view(),
            items.deep_view() == before + (head + all_command_items(all.take(i as int))),
    {
        let ghost so_far = items.deep_view();
        card(items, false);
        label(items, TextStyle::Mono, commands[i].as_str());
        button(
            items,
            "Copy",
            Action::At(Command::CopyCommand, i),
            true,
            "Copy this command to the clipboard",
        );
        assert(all.take(i + 1).drop_last() == all.take(i as int));
        assert(all.take(i + 1).last() == commands@[i as int]@);
        assert(items.deep_view() == so_far + command_card_items(all[i as int], i));
    }
    assert(all.take(all.len() as int) == all);
}

// ---------------------------------------------------------------------------
// What has happened
// ---------------------------------------------------------------------------
/// How fast the window is drawn. The numbers are written as they are shown.
#[derive(Debug)]
pub struct PerformanceTexts {
    pub redraw_fps: String,
    pub commits_per_second: String,
    pub late_redraws_per_second: String,
    pub max_redraw_wait_ms: String,
    pub input_to_present_ms: Option<String>,
    pub tiles: usize,
    pub dirty: bool,
    pub pending_frame_callbacks: usize,
}

/// What the containers use. The numbers are written as they are shown.
#[derive(Debug)]
pub struct ResourceTexts {
    pub available: bool,
    pub containers: usize,
    pub cpu_percent: Option<String>,
    pub memory_usage_gib: String,
    pub memory_limit_gib: String,
    pub error: Option<String>,
    pub disk_available_gib: Option<String>,
}

/// How the window, the containers and the clipboard are doing.
pub open spec fn performance_card_items(
    performance: Option<PerformanceTexts>,
    resources: ResourceTexts,
    clipboard: ClipboardView,
) -> Seq<ItemView> {
    seq![label_item(TextStyle::Title, "Performance"@), card_item(false)]
        + (match performance {
            Some(sample) => seq![
                label_item(
                    TextStyle::Body,
                    "Render "@ + sample.redraw_fps@ + " fps  |  commits "@
                        + sample.commits_per_second@ + "/s  |  late "@
                        + sample.late_redraws_per_second@ + "/s"@,
                ),
                label_item(
                    TextStyle::Caption,
                    "Max redraw wait "@ + sample.max_redraw_wait_ms@
                        + " ms  |  host input -> present "@
                        + (match sample.input_to_present_ms {
                                Some(value) => value@ + " ms"@,
                                None => "waiting"@,
                            }),
                ),
                label_item(
                    TextStyle::Caption,
                    "Scene "@ + decimal(sample.tiles as nat) + " tile(s)  |  dirty "@
                        + (if sample.dirty { "yes"@ } else { "no"@ }) + "  |  callbacks "@
                        + decimal(sample.pending_frame_callbacks as nat),
                ),
            ],
            None => seq![
                label_item(
                    TextStyle::Caption,
                    "No performance sample yet. Launch an application or wait for the next render tick."@,
                ),
            ],
        })
        + (if resources.available {
            seq![
                label_item(
                    TextStyle::Caption,
                    "Apple containers "@ + decimal(resources.containers as nat) + "  |  CPU "@
                        + (match resources.cpu_percent {
                                Some(value) => value@ + "%"@,
                                None => "sampling"@,
                            }) + "  |  memory "@ + resources.memory_usage_gib@ + " / "@
                        + resources.memory_limit_gib@ + " GiB"@,
                ),
            ]
        } else {
            seq![
                label_item(
                    TextStyle::Caption,
                    "Apple container resources: "@
                        + (match resources.error {
                                Some(value) => value@,
                                None => "unavailable"@,
                            }),
                ),
            ]
        })
        + seq![
            label_item(
                TextStyle::Caption,
                "Clipboard "@
                    + (match clipboard.last_direction {
                            Some(value) => value,
                            None => "waiting"@,
                        }) + "  |  H->G "@ + decimal(clipboard.host_to_guest_events as nat)
                    + "  |  G->H "@ + decimal(clipboard.guest_to_host_events as nat)
                    + "  |  errors "@ + decimal(clipboard.failures as nat),
            ),
            label_item(
                TextStyle::Caption,
                "Apple Container storage: "@
                    + (match resources.disk_available_gib {
                            Some(value) => value@ + " GiB free"@,
                            None => "unknown"@,
                        }),
            ),
        ]
}

#[verifier::rlimit(40)]
pub fn performance_card(
    items: &mut Vec<Item>,
    performance: &Option<PerformanceTexts>,
    resources: &ResourceTexts,
    clipboard: &ClipboardSnapshot,
)
    ensures
        final(items).deep_view() == old(items).deep_view() + performance_card_items(
            *performance,
            *resources,
            clipboard.deep_view(),
        ),
{
    label(items, TextStyle::Title, "Performance");
    card(items, false);
    match performance {
        Some(sample) => {
            let text = concat7(
                "Render ",
                sample.redraw_fps.as_str(),
                " fps  |  commits ",
                sample.commits_per_second.as_str(),
                "/s  |  late ",
                sample.late_redraws_per_second.as_str(),
                "/s",
            );
            label(items, TextStyle::Body, text.as_str());
            let word = match &sample.input_to_present_ms {
                Some(value) => {
                    let text = concat(value.as_str(), " ms");
                    text
                },
                None => {
                    "waiting".to_owned()
                },
            };
            let text = concat4(
                "Max redraw wait ",
                sample.max_redraw_wait_ms.as_str(),
                " ms  |  host input -> present ",
                word.as_str(),
            );
            label(items, TextStyle::Caption, text.as_str());
            let number = count_text(sample.tiles);
            let word = if sample.dirty {
                "yes"
            } else {
                "no"
            };
            let number2 = count_text(sample.pending_frame_callbacks);
            let text = concat6(
                "Scene ",
                number.as_str(),
                " tile(s)  |  dirty ",
                word,
                "  |  callbacks ",
                number2.as_str(),
            );
            label(items, TextStyle::Caption, text.as_str());
        },
        None => {
            label(
                items,
                TextStyle::Caption,
                "No performance sample yet. Launch an application or wait for the next render tick.",
            );
        },
    }
    if resources.available {
        let number = count_text(resources.containers);
        let word = match &resources.cpu_percent {
            Some(value) => {
                let text = concat(value.as_str(), "%");
                text
            },
            None => {
                "sampling".to_owned()
            },
        };
        let start = concat7(
            "Apple containers ",
            number.as_str(),
            "  |  CPU ",
            word.as_str(),
            "  |  memory ",
            resources.memory_usage_gib.as_str(),
            " / ",
        );
        let text = concat3(start.as_str(), resources.memory_limit_gib.as_str(), " GiB");
        label(items, TextStyle::Caption, text.as_str());
    } else {
        let word = match &resources.error {
            Some(value) => {
                value.as_str().to_owned()
            },
            None => {
                "unavailable".to_owned()
            },
        };
        let text = concat("Apple container resources: ", word.as_str());
        label(items, TextStyle::Caption, text.as_str());
    }
    let word = match &clipboard.last_direction {
        Some(value) => {
            value.as_str().to_owned()
        },
        None => {
            "waiting".to_owned()
        },
    };
    let number = decimal_text(clipboard.host_to_guest_events as u128);
    let number2 = decimal_text(clipboard.guest_to_host_events as u128);
    let number3 = decimal_text(clipboard.failures as u128);
    let start = concat7(
        "Clipboard ",
        word.as_str(),
        "  |  H->G ",
        number.as_str(),
        "  |  G->H ",
        number2.as_str(),
        "  |  errors ",
    );
    let text = concat(start.as_str(), number3.as_str());
    label(items, TextStyle::Caption, text.as_str());
    let word = match &resources.disk_available_gib {
        Some(value) => {
            let text = concat(value.as_str(), " GiB free");
            text
        },
        None => {
            "unknown".to_owned()
        },
    };
    let text = concat("Apple Container storage: ", word.as_str());
    label(items, TextStyle::Caption, text.as_str());
}

/// How many steps of a task are done.
pub open spec fn done_steps(steps: Seq<TaskStepView>) -> nat
    decreases steps.len(),
{
    if steps.len() == 0 {
        0
    } else {
        done_steps(steps.drop_last()) + (if steps.last().status == TaskStepStatus::Completed {
            1nat
        } else {
            0nat
        })
    }
}

pub fn completed_steps(steps: &Vec<TaskStep>) -> (result: usize)
    ensures
        result == done_steps(steps.deep_view()),
{
    let ghost all = steps.deep_view();
    let mut count: usize = 0;
    for i in 0..steps.len()
        invariant
            all == steps.deep_view(),
            count == done_steps(all.take(i as int)),
            count <= i,
    {
        assert(all.take(i + 1).drop_last() == all.take(i as int));
        assert(all.take(i + 1).last() == steps@[i as int].deep_view());
        if steps[i].status == TaskStepStatus::Completed {
            count = count + 1;
        }
    }
    assert(all.take(all.len() as int) == all);
    count
}

/// The name of the first step that goes on or went wrong, or another text.
pub open spec fn step_at_work(steps: Seq<TaskStepView>, other: Seq<char>) -> Seq<char>
    decreases steps.len(),
{
    if steps.len() == 0 {
        other
    } else if steps[0].status == TaskStepStatus::Running || steps[0].status
        == TaskStepStatus::Failed {
        steps[0].name
    } else {
        step_at_work(steps.drop_first(), other)
    }
}

/// Where a task is.
pub open spec fn current_step_of(task: TaskView) -> Seq<char> {
    step_at_work(
        task.steps,
        if task.status == TaskStatus::Completed {
            "Complete"@
        } else {
            "Queued"@
        },
    )
}

pub fn current_step(task: &OperationTask) -> (result: String)
    ensures
        result@ == current_step_of(task.deep_view()),
{
    let other = if task.status == TaskStatus::Completed {
        "Complete"
    } else {
        "Queued"
    };
    let ghost all = task.steps.deep_view();
    assert(all.skip(0) == all);
    for i in 0..task.steps.len()
        invariant
            all == task.steps.deep_view(),
            step_at_work(all.skip(i as int), other@) == step_at_work(all, other@),
            step_at_work(all, other@) == current_step_of(task.deep_view()),
    {
        assert(all.skip(i as int)[0] == task.steps@[i as int].deep_view());
        assert(all.skip(i as int).drop_first() == all.skip(i + 1));
        if task.steps[i].status == TaskStepStatus::Running || task.steps[i].status
            == TaskStepStatus::Failed {
            return task.steps[i].name.clone();
        }
    }
    other.to_owned()
}

/// What is being done, and how far it is.
pub open spec fn operation_card_items(task: TaskView) -> Seq<ItemView> {
    seq![
        card_item(false),
        label_item(TextStyle::Heading, task.operation + " · "@ + task.subject),
        label_item(
            TextStyle::Caption,
            task_status_label(task.status) + " · "@ + decimal(done_steps(task.steps) as nat)
                + "/"@ + decimal(task.steps.len() as nat) + " steps · "@ + current_step_of(task),
        ),
    ]
        + (match task.detail {
            Some(detail) => seq![label_item(TextStyle::Caption, detail)],
            None => Seq::<ItemView>::empty(),
        })
}

pub fn operation_card(items: &mut Vec<Item>, task: &OperationTask)
    ensures
        final(items).deep_view() == old(items).deep_view() + operation_card_items(
            task.deep_view(),
        ),
{
    card(items, false);
    let text = concat3(task.operation.as_str(), " · ", task.subject.as_str());
    label(items, TextStyle::Heading, text.as_str());
    assert(task.deep_view().steps.len() == task.steps@.len());
    let number = count_text(completed_steps(&task.steps));
    let number2 = count_text(task.steps.len());
    let current = current_step(task);
    let text = concat7(
        task.status.label(),
        " · ",
        number.as_str(),
        "/",
        number2.as_str(),
        " steps · ",
        current.as_str(),
    );
    label(items, TextStyle::Caption, text.as_str());
    if let Some(detail) = &task.detail {
        label(items, TextStyle::Caption, detail.as_str());
    }
}

/// The latest tasks, the last first.
pub open spec fn operation_cards_items(tasks: Seq<TaskView>, most: nat) -> Seq<ItemView>
    decreases most,
{
    if tasks.len() == 0 || most == 0 {
        Seq::empty()
    } else {
        operation_card_items(tasks.last()) + operation_cards_items(tasks.drop_last(), (most - 1) as nat)
    }
}

pub fn operation_cards(items: &mut Vec<Item>, tasks: &Vec<OperationTask>, most: usize)
    ensures
        final(items).deep_view() == old(items).deep_view() + operation_cards_items(
            tasks.deep_view(),
            most as nat,
        ),
{
    let ghost before = items.deep_view();
    let ghost all = tasks.deep_view();
    let ghost whole = operation_cards_items(all, most as nat);
    let length: usize = tasks.len();
    let count: usize = shown_count(length, most);
    assert(all.take(length as int) == all);
    for i in 0..count
        invariant
            all == tasks.deep_view(),
            length == tasks@.len(),
            count <= length,
            count <= most,
            items.deep_view() + operation_cards_items(
                all.take(length - i),
                (most - i) as nat,
            ) == before + whole,
    {
        let ghost left = all.take(length - i);
        assert(left.drop_last() == all.take(length - i - 1));
        assert(left.last() == tasks@[length - 1 - i].deep_view());
        operation_card(items, &tasks[length - 1 - i]);
    }
}

/// A line of what has happened.
pub open spec fn activity_line_items(line: Seq<char>) -> Seq<ItemView> {
    seq![card_item(false), label_item(TextStyle::Caption, line)]
}

pub fn activity_line(items: &mut Vec<Item>, line: &str)
    ensures
        final(items).deep_view() == old(items).deep_view() + activity_line_items(line@),
{
    card(items, false);
    label(items, TextStyle::Caption, line);
}

/// What has happened lately, the last first.
pub open spec fn activity_lines_items(lines: Seq<Seq<char>>, most: nat) -> Seq<ItemView>
    decreases most,
{
    if lines.len() == 0 || most == 0 {
        Seq::empty()
    } else {
        activity_line_items(lines.last()) + activity_lines_items(lines.drop_last(), (most - 1) as nat)
    }
}

pub fn activity_lines(items: &mut Vec<Item>, lines: &Vec<String>, most: usize)
    ensures
        final(items).deep_view() == old(items).deep_view() + activity_lines_items(
            lines.deep_view(),
            most as nat,
        ),
{
    let ghost before = items.deep_view();
    let ghost all = lines.deep_view();
    let ghost whole = activity_lines_items(all, most as nat);
    let length: usize = lines.len();
    let count: usize = shown_count(length, most);
    assert(all.take(length as int) == all);
    for i in 0..count
        invariant
            all == lines.deep_view(),
            length == lines@.len(),
            count <= length,
            count <= most,
            items.deep_view() + activity_lines_items(
                all.take(length - i),
                (most - i) as nat,
            ) == before + whole,
    {
        let ghost left = all.take(length - i);
        assert(left.drop_last() == all.take(length - i - 1));
        assert(left.last() == lines@[length - 1 - i]@);
        activity_line(items, lines[length - 1 - i].as_str());
    }
}

/// The page of what has happened and what goes on.
pub open spec fn activity_list_items(
    mode: ModeView,
    performance: Option<PerformanceTexts>,
    resources: ResourceTexts,
    clipboard: ClipboardView,
) -> Seq<ItemView> {
    performance_card_items(performance, resources, clipboard)
        + (if mode.tasks.len() > 0 {
            seq![label_item(TextStyle::Title, "Operations"@)]
                + operation_cards_items(mode.tasks, 4)
        } else {
            Seq::<ItemView>::empty()
        })
        + (if mode.activity.len() == 0 {
            seq![label_item(TextStyle::Title, "No recent activity"@)]
        } else {
            seq![label_item(TextStyle::Title, "Recent Activity"@)]
                + activity_lines_items(mode.activity, 12)
        })
}

pub fn add_activity_list(
    items: &mut Vec<Item>,
    mode: &ContainerMode,
    performance: &Option<PerformanceTexts>,
    resources: &ResourceTexts,
    clipboard: &ClipboardSnapshot,
)
    ensures
        final(items).deep_view() == old(items).deep_view() + activity_list_items(
            mode.deep_view(),
            *performance,
            *resources,
            clipboard.deep_view(),
        ),
{
    let ghost view = mode.deep_view();
    assert(view.tasks.len() == mode.tasks.tasks@.len());
    assert(view.activity.len() == mode.activity.lines@.len());
    performance_card(items, performance, resources, clipboard);
    if mode.tasks.tasks.len() > 0 {
        label(items, TextStyle::Title, "Operations");
        operation_cards(items, &mode.tasks.tasks, 4);
    }
    if mode.activity.lines.len() == 0 {
        label(items, TextStyle::Title, "No recent activity");
    } else {
        label(items, TextStyle::Title, "Recent Activity");
        activity_lines(items, &mode.activity.lines, 12);
    }
}

} // verus!
