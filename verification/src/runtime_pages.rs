//! The pages of the runtimes.
use vstd::prelude::*;
use vstd::string::*;

use crate::application_model::{runtime_status_label, RuntimeStatus};
use crate::container_mode::{SelectedContainerView, SelectedRuntimeContainer};
use crate::inventory::{
    machine_message, ContainerRowView, ContextRowView, DockerContextRow, MachineRowView, OrbStackMachineRow,
    RuntimeContainerRow,
};
use crate::page::{
    area, area_item, button, button_item, card, card_item, first_of, fitted, fitted_item, label,
    label_item, shown_count, Action, ActionView, Command, Item, ItemView, TextStyle,
};
use crate::profiles::{NAV_APPLE_CONTAINER, NAV_DOCKER, NAV_ORBSTACK};
use crate::runtimes::{
    yes_no, AppleContainerCompatibility, CompatibilityView, OverviewView, RuntimeOverview,
};
use crate::text::{
    concat, concat3, concat4, concat6, empty_list, push_deep, same, texts1, texts2, texts4,
};

verus! {

// ---------------------------------------------------------------------------
// Which runtime
// ---------------------------------------------------------------------------
/// The name of the runtime of a page.
pub open spec fn runtime_title_of(nav: usize) -> Seq<char> {
    if nav == NAV_APPLE_CONTAINER {
        "Apple Container"@
    } else if nav == NAV_DOCKER {
        "Docker"@
    } else {
        "OrbStack"@
    }
}

pub fn runtime_title(nav: usize) -> (result: &'static str)
    ensures
        result@ == runtime_title_of(nav),
{
    if nav == NAV_APPLE_CONTAINER {
        "Apple Container"
    } else if nav == NAV_DOCKER {
        "Docker"
    } else {
        "OrbStack"
    }
}

/// The command of the runtime of a page.
pub open spec fn runtime_command_of(nav: usize) -> Seq<char> {
    if nav == NAV_APPLE_CONTAINER {
        "container"@
    } else if nav == NAV_DOCKER {
        "docker"@
    } else {
        "orbctl"@
    }
}

pub fn runtime_command(nav: usize) -> (result: &'static str)
    ensures
        result@ == runtime_command_of(nav),
{
    if nav == NAV_APPLE_CONTAINER {
        "container"
    } else if nav == NAV_DOCKER {
        "docker"
    } else {
        "orbctl"
    }
}

/// What is asked of the runtime of a page, under the names of the questions.
pub open spec fn runtime_checks_of(nav: usize) -> Seq<(Seq<char>, Seq<Seq<char>>)> {
    if nav == NAV_APPLE_CONTAINER {
        seq![
            ("Version"@, seq!["--version"@]),
            ("System"@, seq!["system"@, "status"@]),
            ("Images"@, seq!["image"@, "list"@]),
        ]
    } else if nav == NAV_DOCKER {
        seq![
            ("Version"@, seq!["--version"@]),
            ("Images"@, seq!["image"@, "ls"@, "--format"@, "{{.Repository}}:{{.Tag}}"@]),
        ]
    } else {
        seq![("Status"@, seq!["status"@]), ("Version"@, seq!["version"@])]
    }
}

pub fn runtime_checks(nav: usize) -> (result: Vec<(String, Vec<String>)>)
    ensures
        result.deep_view() == runtime_checks_of(nav),
{
    let mut result: Vec<(String, Vec<String>)> = empty_list();
    if nav == NAV_APPLE_CONTAINER {
        push_deep(&mut result, ("Version".to_owned(), texts1("--version")));
        push_deep(&mut result, ("System".to_owned(), texts2("system", "status")));
        push_deep(&mut result, ("Images".to_owned(), texts2("image", "list")));
    } else if nav == NAV_DOCKER {
        push_deep(&mut result, ("Version".to_owned(), texts1("--version")));
        push_deep(
            &mut result,
            (
                "Images".to_owned(),
                texts4("image", "ls", "--format", "{{.Repository}}:{{.Tag}}"),
            ),
        );
    } else {
        push_deep(&mut result, ("Status".to_owned(), texts1("status")));
        push_deep(&mut result, ("Version".to_owned(), texts1("version")));
    }
    result
}

/// The head of the page of a runtime.
pub open spec fn runtime_heading_items(nav: usize, installed: bool) -> Seq<ItemView> {
    seq![label_item(TextStyle::Title, runtime_title_of(nav))]
        + (if nav == NAV_APPLE_CONTAINER && installed {
            seq![
                button_item(
                    "Open Data Root"@,
                    ActionView::Do(Command::OpenDataRoot),
                    true,
                    "Open Apple Container's local data directory in Finder"@,
                ),
            ]
        } else {
            Seq::<ItemView>::empty()
        })
}

pub fn runtime_heading(items: &mut Vec<Item>, nav: usize, installed: bool)
    ensures
        final(items).deep_view() == old(items).deep_view() + runtime_heading_items(
            nav,
            installed,
        ),
{
    label(items, TextStyle::Title, runtime_title(nav));
    if nav == NAV_APPLE_CONTAINER && installed {
        button(
            items,
            "Open Data Root",
            Action::Do(Command::OpenDataRoot),
            true,
            "Open Apple Container's local data directory in Finder",
        );
    }
}

/// The page of a runtime that is not installed.
pub open spec fn runtime_missing_items(nav: usize) -> Seq<ItemView> {
    runtime_heading_items(nav, false)
        + seq![
            card_item(false),
            label_item(TextStyle::Heading, runtime_status_label(RuntimeStatus::Unavailable)),
        ]
        + (if nav == NAV_ORBSTACK {
            seq![
                label_item(
                    TextStyle::Body,
                    "OrbStack's CLI was not found. Open OrbStack once or use the Docker page with an OrbStack context."@,
                ),
                button_item(
                    "Open OrbStack"@,
                    ActionView::Do(Command::OpenOrbStack),
                    true,
                    "Open OrbStack so its CLI and Docker endpoint become available"@,
                ),
            ]
        } else {
            (if nav == NAV_APPLE_CONTAINER {
                    seq![
                        label_item(
                            TextStyle::Body,
                            "Apple Container is a separate Apple runtime and is not bundled with Cocoa-Way. Install Apple's latest official release, then return here to start it."@,
                        ),
                        button_item(
                            "Get Apple Container"@,
                            ActionView::Do(Command::OpenReleases),
                            true,
                            "Open Apple's official latest Apple Container release"@,
                        ),
                    ]
                } else {
                    seq![
                        label_item(
                            TextStyle::Body,
                            "Command `"@ + runtime_command_of(nav) + "` was not found in PATH."@,
                        ),
                    ]
                })
        })
}

pub fn runtime_missing(items: &mut Vec<Item>, nav: usize)
    ensures
        final(items).deep_view() == old(items).deep_view() + runtime_missing_items(nav),
{
    runtime_heading(items, nav, false);
    card(items, false);
    label(items, TextStyle::Heading, RuntimeStatus::Unavailable.label());
    if nav == NAV_ORBSTACK {
        label(
            items,
            TextStyle::Body,
            "OrbStack's CLI was not found. Open OrbStack once or use the Docker page with an OrbStack context.",
        );
        button(
            items,
            "Open OrbStack",
            Action::Do(Command::OpenOrbStack),
            true,
            "Open OrbStack so its CLI and Docker endpoint become available",
        );
    } else {
        if nav == NAV_APPLE_CONTAINER {
            label(
                items,
                TextStyle::Body,
                "Apple Container is a separate Apple runtime and is not bundled with Cocoa-Way. Install Apple's latest official release, then return here to start it.",
            );
            button(
                items,
                "Get Apple Container",
                Action::Do(Command::OpenReleases),
                true,
                "Open Apple's official latest Apple Container release",
            );
        } else {
            let text = concat3("Command `", runtime_command(nav), "` was not found in PATH.");
            label(items, TextStyle::Body, text.as_str());
        }
    }
}

/// How a runtime is doing.
pub open spec fn runtime_overview_card_items(
    title: Seq<char>,
    overview: OverviewView,
) -> Seq<ItemView> {
    seq![
        card_item(false),
        label_item(TextStyle::Heading, title),
        label_item(TextStyle::Heading, runtime_status_label(overview.status)),
        label_item(TextStyle::Caption, overview.detail),
        label_item(TextStyle::Caption, "Version\n"@ + overview.version),
        label_item(
            TextStyle::Caption,
            "Resources\n"@ + overview.resources + "\n"@ + overview.provider,
        ),
    ]
}

pub fn add_runtime_overview_card(items: &mut Vec<Item>, title: &str, overview: &RuntimeOverview)
    ensures
        final(items).deep_view() == old(items).deep_view() + runtime_overview_card_items(
            title@,
            overview.deep_view(),
        ),
{
    card(items, false);
    label(items, TextStyle::Heading, title);
    label(items, TextStyle::Heading, overview.status.label());
    label(items, TextStyle::Caption, overview.detail.as_str());
    let text = concat("Version\n", overview.version.as_str());
    label(items, TextStyle::Caption, text.as_str());
    let text = concat4("Resources\n", overview.resources.as_str(), "\n", overview.provider.as_str());
    label(items, TextStyle::Caption, text.as_str());
}

/// What the page of every installed runtime begins with.
pub open spec fn runtime_start_items(
    nav: usize,
    path: Seq<char>,
    overview: OverviewView,
) -> Seq<ItemView> {
    runtime_heading_items(nav, true)
        + runtime_overview_card_items(runtime_title_of(nav), overview)
        + seq![
            card_item(false),
            label_item(TextStyle::Heading, "Command"@),
            label_item(TextStyle::Mono, path),
        ]
}

pub fn runtime_start(items: &mut Vec<Item>, nav: usize, path: &str, overview: &RuntimeOverview)
    ensures
        final(items).deep_view() == old(items).deep_view() + runtime_start_items(
            nav,
            path@,
            overview.deep_view(),
        ),
{
    runtime_heading(items, nav, true);
    let title = runtime_title(nav);
    add_runtime_overview_card(items, title, overview);
    card(items, false);
    label(items, TextStyle::Heading, "Command");
    label(items, TextStyle::Mono, path);
}

/// What was asked of a runtime, and the lines that it answered.
#[derive(Debug)]
pub struct RuntimeCheck {
    pub label: String,
    pub lines: Vec<String>,
}

#[verifier::ext_equal]
pub struct RuntimeCheckView {
    pub label: Seq<char>,
    pub lines: Seq<Seq<char>>,
}

impl DeepView for RuntimeCheck {
    type V = RuntimeCheckView;

    open spec fn deep_view(&self) -> RuntimeCheckView {
        RuntimeCheckView { label: self.label@, lines: self.lines.deep_view() }
    }
}

/// A line of output.
pub open spec fn mono_line_items(line: Seq<char>) -> Seq<ItemView> {
    seq![label_item(TextStyle::Mono, line)]
}

pub fn mono_line(items: &mut Vec<Item>, line: &str)
    ensures
        final(items).deep_view() == old(items).deep_view() + mono_line_items(line@),
{
    label(items, TextStyle::Mono, line);
}

/// Lines of output.
pub open spec fn mono_lines_items(lines: Seq<Seq<char>>) -> Seq<ItemView>
    decreases lines.len(),
{
    if lines.len() == 0 {
        Seq::empty()
    } else {
        mono_lines_items(lines.drop_last()) + mono_line_items(lines.last())
    }
}

pub fn mono_lines(items: &mut Vec<Item>, lines: &Vec<String>, most: usize)
    ensures
        final(items).deep_view() == old(items).deep_view() + mono_lines_items(
            first_of(lines.deep_view(), most as nat),
        ),
{
    let ghost before = items.deep_view();
    let ghost all = lines.deep_view();
    let count: usize = shown_count(lines.len(), most);
    assert(mono_lines_items(all.take(0)) == Seq::<ItemView>::empty());
    for i in 0..count
        invariant
            all == lines.deep_view(),
            count <= lines@.len(),
            items.deep_view() == before + mono_lines_items(all.take(i as int)),
    {
        mono_line(items, lines[i].as_str());
        assert(all.take(i + 1).drop_last() == all.take(i as int));
        assert(all.take(i + 1).last() == lines@[i as int]@);
    }
    assert(all.take(count as int) == first_of(all, most as nat));
}

/// A question and the first lines of the answer.
pub open spec fn check_card_items(check: RuntimeCheckView) -> Seq<ItemView> {
    seq![card_item(false), label_item(TextStyle::Heading, check.label)]
        + mono_lines_items(first_of(check.lines, 4))
}

pub fn check_card(items: &mut Vec<Item>, check: &RuntimeCheck)
    ensures
        final(items).deep_view() == old(items).deep_view() + check_card_items(check.deep_view()),
{
    card(items, false);
    label(items, TextStyle::Heading, check.label.as_str());
    mono_lines(items, &check.lines, 4);
}

/// All questions and answers.
pub open spec fn check_cards_items(checks: Seq<RuntimeCheckView>) -> Seq<ItemView>
    decreases checks.len(),
{
    if checks.len() == 0 {
        Seq::empty()
    } else {
        check_cards_items(checks.drop_last()) + check_card_items(checks.last())
    }
}

pub fn check_cards(items: &mut Vec<Item>, checks: &Vec<RuntimeCheck>)
    ensures
        final(items).deep_view() == old(items).deep_view() + check_cards_items(
            checks.deep_view(),
        ),
{
    let ghost before = items.deep_view();
    let ghost all = checks.deep_view();
    assert(check_cards_items(all.take(0)) == Seq::<ItemView>::empty());
    for i in 0..checks.len()
        invariant
            all == checks.deep_view(),
            items.deep_view() == before + check_cards_items(all.take(i as int)),
    {
        check_card(items, &checks[i]);
        assert(all.take(i + 1).drop_last() == all.take(i as int));
        assert(all.take(i + 1).last() == checks@[i as int].deep_view());
    }
    assert(all.take(all.len() as int) == all);
}

// ---------------------------------------------------------------------------
// Containers
// ---------------------------------------------------------------------------
/// Whether a container is the picked one.
pub open spec fn container_is_picked(
    picked: Option<SelectedContainerView>,
    runtime: Seq<char>,
    name: Seq<char>,
) -> bool {
    match picked {
        Some(container) => container.runtime == runtime && container.name == name,
        None => false,
    }
}

fn is_picked_container(picked: &Option<SelectedRuntimeContainer>, runtime: &str, name: &str) -> (
    result: bool)
    ensures
        result == container_is_picked(picked.deep_view(), runtime@, name@),
{
    match picked {
        Some(container) => same(container.runtime.as_str(), runtime) && same(
            container.name.as_str(),
            name,
        ),
        None => false,
    }
}

/// The picked container as the rows show it now.
pub open spec fn refreshed(
    picked: Option<SelectedContainerView>,
    runtime: Seq<char>,
    rows: Seq<ContainerRowView>,
) -> Option<SelectedContainerView>
    decreases rows.len(),
{
    if rows.len() == 0 {
        picked
    } else {
        let before = refreshed(picked, runtime, rows.drop_last());
        match (before, rows.last().name) {
            (Some(container), Some(name)) => if container.runtime == runtime && container.name
                == name {
                Some(
                    SelectedContainerView {
                        label: rows.last().label,
                        running: rows.last().running,
                        ..container
                    },
                )
            } else {
                before
            },
            _ => before,
        }
    }
}

/// Brings the picked container up to date with the rows that are shown.
pub fn refresh_picked_container(
    picked: &mut Option<SelectedRuntimeContainer>,
    runtime: &str,
    rows: &Vec<RuntimeContainerRow>,
    most: usize,
)
    ensures
        final(picked).deep_view() == refreshed(
            old(picked).deep_view(),
            runtime@,
            first_of(rows.deep_view(), most as nat),
        ),
{
    let ghost all = rows.deep_view();
    let ghost start = picked.deep_view();
    let count: usize = shown_count(rows.len(), most);
    assert(all.take(0).len() == 0);
    for i in 0..count
        invariant
            all == rows.deep_view(),
            count <= rows@.len(),
            picked.deep_view() == refreshed(start, runtime@, all.take(i as int)),
    {
        assert(all.take(i + 1).drop_last() == all.take(i as int));
        assert(all.take(i + 1).last() == rows@[i as int].deep_view());
        if let Some(name) = &rows[i].name {
            if is_picked_container(picked, runtime, name.as_str()) {
                *picked = Some(
                    SelectedRuntimeContainer {
                        runtime: runtime.to_owned(),
                        name: name.clone(),
                        label: rows[i].label.clone(),
                        running: rows[i].running,
                    },
                );
            }
        }
    }
    assert(all.take(count as int) == first_of(all, most as nat));
}

/// Whichever rows are shown, the picked container stays the same one.
pub proof fn law_refresh_keeps_the_choice(
    picked: Option<SelectedContainerView>,
    runtime: Seq<char>,
    rows: Seq<ContainerRowView>,
)
    ensures
        picked is None <==> refreshed(picked, runtime, rows) is None,
        picked is Some ==> refreshed(picked, runtime, rows)->0.runtime == picked->0.runtime
            && refreshed(picked, runtime, rows)->0.name == picked->0.name,
    decreases rows.len(),
{
    if rows.len() > 0 {
        law_refresh_keeps_the_choice(picked, runtime, rows.drop_last());
    }
}

/// A row of the containers: a container, or what is said instead. A container
/// that runs cannot be deleted.
pub open spec fn runtime_container_row_items(
    entry: ContainerRowView,
    runtime: Seq<char>,
    picked: Option<SelectedContainerView>,
) -> Seq<ItemView> {
    match entry.name {
        Some(name) => seq![
            card_item(container_is_picked(picked, runtime, name)),
            fitted_item(TextStyle::Mono, entry.label),
            area_item(
                ActionView::With(
                    Command::SelectContainer,
                    seq![
                        runtime,
                        name,
                        entry.label,
                        if entry.running { "running"@ } else { "stopped"@ },
                    ],
                ),
            ),
            button_item(
                if entry.running { "Stop Container"@ } else { "Start Container"@ },
                if entry.running {
                    ActionView::With(Command::StopContainer, seq![runtime, name])
                } else {
                    ActionView::With(Command::StartContainer, seq![runtime, name])
                },
                true,
                if entry.running {
                    "Stop this runtime container"@
                } else {
                    "Start this stopped runtime container"@
                },
            ),
            button_item(
                "Delete"@,
                ActionView::With(Command::DeleteContainer, seq![runtime, name]),
                !entry.running,
                if entry.running {
                    "Stop this container before deleting it"@
                } else {
                    "Delete this stopped container after confirmation"@
                },
            ),
        ],
        None => seq![fitted_item(TextStyle::Mono, entry.label)],
    }
}

pub fn add_runtime_container_row(
    items: &mut Vec<Item>,
    entry: &RuntimeContainerRow,
    runtime: &str,
    picked: &Option<SelectedRuntimeContainer>,
)
    ensures
        final(items).deep_view() == old(items).deep_view() + runtime_container_row_items(
            entry.deep_view(),
            runtime@,
            picked.deep_view(),
        ),
{
    match &entry.name {
        Some(name) => {
            card(items, is_picked_container(picked, runtime, name.as_str()));
            fitted(items, TextStyle::Mono, entry.label.as_str());
            let word = if entry.running {
                "running"
            } else {
                "stopped"
            };
            let names = texts4(runtime, name.as_str(), entry.label.as_str(), word);
            area(items, Action::With(Command::SelectContainer, names));
            let word = if entry.running {
                "Stop Container"
            } else {
                "Start Container"
            };
            let word2 = if entry.running {
                "Stop this runtime container"
            } else {
                "Start this stopped runtime container"
            };
            let action = if entry.running {
                let names = texts2(runtime, name.as_str());
                Action::With(Command::StopContainer, names)
            } else {
                let names = texts2(runtime, name.as_str());
                Action::With(Command::StartContainer, names)
            };
            button(items, word, action, true, word2);
            let word = if entry.running {
                "Stop this container before deleting it"
            } else {
                "Delete this stopped container after confirmation"
            };
            let names = texts2(runtime, name.as_str());
            button(items, "Delete", Action::With(Command::DeleteContainer, names), !entry.running, word);
        },
        None => {
            fitted(items, TextStyle::Mono, entry.label.as_str());
        },
    }
}

/// The first containers of a runtime.
pub open spec fn runtime_container_rows_items(
    entries: Seq<ContainerRowView>,
    runtime: Seq<char>,
    picked: Option<SelectedContainerView>,
) -> Seq<ItemView>
    decreases entries.len(),
{
    if entries.len() == 0 {
        Seq::empty()
    } else {
        runtime_container_rows_items(entries.drop_last(), runtime, picked) + runtime_container_row_items(entries.last(), runtime, picked)
    }
}

pub fn runtime_container_rows(
    items: &mut Vec<Item>,
    entries: &Vec<RuntimeContainerRow>,
    most: usize,
    runtime: &str,
    picked: &Option<SelectedRuntimeContainer>,
)
    ensures
        final(items).deep_view() == old(items).deep_view() + runtime_container_rows_items(
            first_of(entries.deep_view(), most as nat), runtime@, picked.deep_view(),
        ),
{
    let ghost before = items.deep_view();
    let ghost all = entries.deep_view();
    let count: usize = shown_count(entries.len(), most);
    assert(runtime_container_rows_items(all.take(0), runtime@, picked.deep_view()) == Seq::<ItemView>::empty());
    for i in 0..count
        invariant
            all == entries.deep_view(),
            count <= entries@.len(),
            items.deep_view() == before + runtime_container_rows_items(all.take(i as int), runtime@, picked.deep_view()),
    {
        add_runtime_container_row(items, &entries[i], runtime, picked);
        assert(all.take(i + 1).drop_last() == all.take(i as int));
        assert(all.take(i + 1).last() == entries@[i as int].deep_view());
    }
    assert(all.take(count as int) == first_of(all, most as nat));
}

// ---------------------------------------------------------------------------
// Apple Container
// ---------------------------------------------------------------------------
/// Whether Apple Container is on its way somewhere.
pub open spec fn in_transition(status: RuntimeStatus) -> bool {
    status == RuntimeStatus::Starting || status == RuntimeStatus::Stopping
}

/// How Apple Container is started and stopped: only what makes sense is
/// offered.
pub open spec fn apple_container_system_controls_items(status: RuntimeStatus) -> Seq<ItemView> {
    seq![
        card_item(false),
        label_item(TextStyle::Heading, "System Controls"@),
        label_item(TextStyle::Caption, "Thin wrappers around Apple Container CLI commands."@),
        button_item(
            if in_transition(status) { runtime_status_label(status) } else { "Start System"@ },
            ActionView::Do(Command::StartAppleSystem),
            status == RuntimeStatus::Unavailable || status == RuntimeStatus::Failed,
            "Run `container system start` asynchronously"@,
        ),
        button_item(
            "Stop System"@,
            ActionView::Do(Command::StopAppleSystem),
            status == RuntimeStatus::Ready || status == RuntimeStatus::Degraded,
            "Run `container system stop` asynchronously"@,
        ),
        button_item(
            "Copy Status"@,
            ActionView::At(Command::CopyCommand, 0),
            true,
            "Copy `container system status` to the clipboard"@,
        ),
        button_item(
            "Latest Release"@,
            ActionView::Do(Command::OpenReleases),
            true,
            "Open Apple's official latest Apple Container release"@,
        ),
    ]
}

pub fn add_apple_container_system_controls(items: &mut Vec<Item>, status: RuntimeStatus)
    ensures
        final(items).deep_view() == old(items).deep_view() + apple_container_system_controls_items(
            status,
        ),
{
    card(items, false);
    label(items, TextStyle::Heading, "System Controls");
    label(items, TextStyle::Caption, "Thin wrappers around Apple Container CLI commands.");
    let word = if status == RuntimeStatus::Starting || status == RuntimeStatus::Stopping {
        status.label()
    } else {
        "Start System"
    };
    button(
        items,
        word,
        Action::Do(Command::StartAppleSystem),
        status == RuntimeStatus::Unavailable || status == RuntimeStatus::Failed,
        "Run `container system start` asynchronously",
    );
    button(
        items,
        "Stop System",
        Action::Do(Command::StopAppleSystem),
        status == RuntimeStatus::Ready || status == RuntimeStatus::Degraded,
        "Run `container system stop` asynchronously",
    );
    button(
        items,
        "Copy Status",
        Action::At(Command::CopyCommand, 0),
        true,
        "Copy `container system status` to the clipboard",
    );
    button(
        items,
        "Latest Release",
        Action::Do(Command::OpenReleases),
        true,
        "Open Apple's official latest Apple Container release",
    );
}

/// What the installed Apple Container can do.
pub open spec fn compatibility_card_items(compatibility: CompatibilityView) -> Seq<ItemView> {
    seq![
        card_item(false),
        label_item(TextStyle::Heading, "Compatibility"@),
        label_item(TextStyle::Body, compatibility.summary),
        label_item(
            TextStyle::Mono,
            "CLI "@ + compatibility.cli_version + " · API "@ + compatibility.api_version
                + " · system "@ + compatibility.system_status,
        ),
        label_item(
            TextStyle::Caption,
            "Published sockets: "@ + (if compatibility.publish_socket { "yes"@ } else { "no"@ })
                + " · resource JSON: "@ + (if compatibility.stats_json { "yes"@ } else { "no"@ }),
        ),
        label_item(TextStyle::Caption, compatibility.detail),
    ]
}

pub fn compatibility_card(items: &mut Vec<Item>, compatibility: &AppleContainerCompatibility)
    ensures
        final(items).deep_view() == old(items).deep_view() + compatibility_card_items(
            compatibility.deep_view(),
        ),
{
    card(items, false);
    label(items, TextStyle::Heading, "Compatibility");
    label(items, TextStyle::Body, compatibility.summary.as_str());
    let text = concat6(
        "CLI ",
        compatibility.cli_version.as_str(),
        " · API ",
        compatibility.api_version.as_str(),
        " · system ",
        compatibility.system_status.as_str(),
    );
    label(items, TextStyle::Mono, text.as_str());
    let text = concat4(
        "Published sockets: ",
        yes_no(compatibility.publish_socket),
        " · resource JSON: ",
        yes_no(compatibility.stats_json),
    );
    label(items, TextStyle::Caption, text.as_str());
    label(items, TextStyle::Caption, compatibility.detail.as_str());
}

/// How windows come out of Apple Container.
pub open spec fn transport_card_items(compatibility: CompatibilityView) -> Seq<ItemView> {
    seq![
        card_item(false),
        label_item(TextStyle::Heading, "GUI Transport"@),
        label_item(
            TextStyle::Body,
            if compatibility.publish_socket {
                "Transport V2 ready"@
            } else {
                "Compatibility relay"@
            },
        ),
        label_item(
            TextStyle::Caption,
            if compatibility.publish_socket {
                "Waypipe data uses Apple Container's published Unix socket. The stdio relay remains an automatic fallback."@
            } else {
                "This Apple Container CLI has no --publish-socket support, so GUI launch uses the stdio compatibility relay."@
            },
        ),
    ]
}

pub fn transport_card(items: &mut Vec<Item>, compatibility: &AppleContainerCompatibility)
    ensures
        final(items).deep_view() == old(items).deep_view() + transport_card_items(
            compatibility.deep_view(),
        ),
{
    card(items, false);
    label(items, TextStyle::Heading, "GUI Transport");
    let word = if compatibility.publish_socket {
        "Transport V2 ready"
    } else {
        "Compatibility relay"
    };
    label(items, TextStyle::Body, word);
    let word = if compatibility.publish_socket {
        "Waypipe data uses Apple Container's published Unix socket. The stdio relay remains an automatic fallback."
    } else {
        "This Apple Container CLI has no --publish-socket support, so GUI launch uses the stdio compatibility relay."
    };
    label(items, TextStyle::Caption, word);
}

/// The first containers of Apple Container.
pub open spec fn apple_container_inventory_items(
    rows: Seq<ContainerRowView>,
    picked: Option<SelectedContainerView>,
) -> Seq<ItemView> {
    seq![
        card_item(false),
        label_item(TextStyle::Heading, "Containers"@),
        label_item(
            TextStyle::Caption,
            "Start, stop, or delete local instances without leaving Cocoa-Way."@,
        ),
    ] + runtime_container_rows_items(first_of(rows, 4), "apple"@, picked)
}

pub fn add_apple_container_inventory(
    items: &mut Vec<Item>,
    rows: &Vec<RuntimeContainerRow>,
    picked: &Option<SelectedRuntimeContainer>,
)
    ensures
        final(items).deep_view() == old(items).deep_view() + apple_container_inventory_items(
            rows.deep_view(),
            picked.deep_view(),
        ),
{
    card(items, false);
    label(items, TextStyle::Heading, "Containers");
    label(
        items,
        TextStyle::Caption,
        "Start, stop, or delete local instances without leaving Cocoa-Way.",
    );
    runtime_container_rows(items, rows, 4, "apple", picked);
}

/// The page of Apple Container.
pub open spec fn apple_runtime_list_items(
    path: Seq<char>,
    overview: OverviewView,
    compatibility: CompatibilityView,
    rows: Seq<ContainerRowView>,
    checks: Seq<RuntimeCheckView>,
    picked: Option<SelectedContainerView>,
) -> Seq<ItemView> {
    runtime_start_items(NAV_APPLE_CONTAINER, path, overview)
        + apple_container_system_controls_items(overview.status)
        + compatibility_card_items(compatibility) + transport_card_items(compatibility)
        + apple_container_inventory_items(rows, picked) + check_cards_items(checks)
}

pub fn apple_runtime_list(
    items: &mut Vec<Item>,
    path: &str,
    overview: &RuntimeOverview,
    compatibility: &AppleContainerCompatibility,
    rows: &Vec<RuntimeContainerRow>,
    checks: &Vec<RuntimeCheck>,
    picked: &Option<SelectedRuntimeContainer>,
)
    ensures
        final(items).deep_view() == old(items).deep_view() + apple_runtime_list_items(
            path@,
            overview.deep_view(),
            compatibility.deep_view(),
            rows.deep_view(),
            checks.deep_view(),
            picked.deep_view(),
        ),
{
    runtime_start(items, NAV_APPLE_CONTAINER, path, overview);
    add_apple_container_system_controls(items, overview.status);
    compatibility_card(items, compatibility);
    transport_card(items, compatibility);
    add_apple_container_inventory(items, rows, picked);
    check_cards(items, checks);
}

// ---------------------------------------------------------------------------
// Docker
// ---------------------------------------------------------------------------
/// A context: one that is not in use can be taken.
pub open spec fn docker_context_items(context: ContextRowView) -> Seq<ItemView> {
    seq![label_item(TextStyle::Mono, context.label)]
        + (match context.name {
            Some(name) => (if !context.current {
                    seq![
                        button_item(
                            "Use"@,
                            ActionView::With(Command::UseContext, seq![name]),
                            true,
                            "Make this the active Docker context"@,
                        ),
                    ]
                } else {
                    Seq::<ItemView>::empty()
                }),
            None => Seq::<ItemView>::empty(),
        })
}

pub fn docker_context(items: &mut Vec<Item>, context: &DockerContextRow)
    ensures
        final(items).deep_view() == old(items).deep_view() + docker_context_items(
            context.deep_view(),
        ),
{
    label(items, TextStyle::Mono, context.label.as_str());
    if let Some(name) = &context.name {
        if !context.current {
            let names = texts1(name.as_str());
            button(
                items,
                "Use",
                Action::With(Command::UseContext, names),
                true,
                "Make this the active Docker context",
            );
        }
    }
}

/// The first contexts.
pub open spec fn docker_contexts_items(contexts: Seq<ContextRowView>) -> Seq<ItemView>
    decreases contexts.len(),
{
    if contexts.len() == 0 {
        Seq::empty()
    } else {
        docker_contexts_items(contexts.drop_last()) + docker_context_items(contexts.last())
    }
}

pub fn docker_contexts(items: &mut Vec<Item>, contexts: &Vec<DockerContextRow>, most: usize)
    ensures
        final(items).deep_view() == old(items).deep_view() + docker_contexts_items(
            first_of(contexts.deep_view(), most as nat),
        ),
{
    let ghost before = items.deep_view();
    let ghost all = contexts.deep_view();
    let count: usize = shown_count(contexts.len(), most);
    assert(docker_contexts_items(all.take(0)) == Seq::<ItemView>::empty());
    for i in 0..count
        invariant
            all == contexts.deep_view(),
            count <= contexts@.len(),
            items.deep_view() == before + docker_contexts_items(all.take(i as int)),
    {
        docker_context(items, &contexts[i]);
        assert(all.take(i + 1).drop_last() == all.take(i as int));
        assert(all.take(i + 1).last() == contexts@[i as int].deep_view());
    }
    assert(all.take(count as int) == first_of(all, most as nat));
}

/// Which engine containers run on.
pub open spec fn docker_context_inventory_items(contexts: Seq<ContextRowView>) -> Seq<ItemView> {
    seq![
        card_item(false),
        label_item(TextStyle::Heading, "Docker Context"@),
        label_item(
            TextStyle::Caption,
            "Active Docker-compatible endpoint; OrbStack appears when its context is selected."@,
        ),
    ] + docker_contexts_items(first_of(contexts, 3))
}

pub fn add_docker_context_inventory(items: &mut Vec<Item>, contexts: &Vec<DockerContextRow>)
    ensures
        final(items).deep_view() == old(items).deep_view() + docker_context_inventory_items(
            contexts.deep_view(),
        ),
{
    card(items, false);
    label(items, TextStyle::Heading, "Docker Context");
    label(
        items,
        TextStyle::Caption,
        "Active Docker-compatible endpoint; OrbStack appears when its context is selected.",
    );
    docker_contexts(items, contexts, 3);
}

/// The first containers of the engine.
pub open spec fn docker_container_inventory_items(
    rows: Seq<ContainerRowView>,
    picked: Option<SelectedContainerView>,
) -> Seq<ItemView> {
    seq![
        card_item(false),
        label_item(TextStyle::Heading, "Containers"@),
        label_item(
            TextStyle::Caption,
            "Stop running containers or remove stopped containers below."@,
        ),
    ] + runtime_container_rows_items(first_of(rows, 4), "docker"@, picked)
}

pub fn add_docker_container_inventory(
    items: &mut Vec<Item>,
    rows: &Vec<RuntimeContainerRow>,
    picked: &Option<SelectedRuntimeContainer>,
)
    ensures
        final(items).deep_view() == old(items).deep_view() + docker_container_inventory_items(
            rows.deep_view(),
            picked.deep_view(),
        ),
{
    card(items, false);
    label(items, TextStyle::Heading, "Containers");
    label(items, TextStyle::Caption, "Stop running containers or remove stopped containers below.");
    runtime_container_rows(items, rows, 4, "docker", picked);
}

/// A row of the machines: a machine, or what is said instead.
pub open spec fn orbstack_machine_row_items(machine: MachineRowView) -> Seq<ItemView> {
    seq![card_item(false)]
        + (match machine.name {
            Some(name) => seq![
                fitted_item(TextStyle::Body, machine.label),
                fitted_item(TextStyle::Caption, machine.detail),
                button_item(
                    if machine.running { "Stop"@ } else { "Start"@ },
                    if machine.running {
                        ActionView::With(Command::StopMachine, seq![name])
                    } else {
                        ActionView::With(Command::StartMachine, seq![name])
                    },
                    true,
                    if machine.running {
                        "Stop this OrbStack machine"@
                    } else {
                        "Start this OrbStack machine"@
                    },
                ),
                button_item(
                    "Shell"@,
                    ActionView::With(Command::OpenMachineTerminal, seq![name]),
                    true,
                    "Open an interactive shell for this machine in macOS Terminal"@,
                ),
                button_item(
                    "Delete"@,
                    ActionView::With(Command::DeleteMachine, seq![name]),
                    true,
                    "Permanently delete this machine after confirmation"@,
                ),
            ],
            None => seq![
                label_item(TextStyle::Body, machine.label),
                fitted_item(TextStyle::Caption, machine.detail),
            ],
        })
}

pub fn add_orbstack_machine_row(items: &mut Vec<Item>, machine: &OrbStackMachineRow)
    ensures
        final(items).deep_view() == old(items).deep_view() + orbstack_machine_row_items(
            machine.deep_view(),
        ),
{
    card(items, false);
    match &machine.name {
        Some(name) => {
            fitted(items, TextStyle::Body, machine.label.as_str());
            fitted(items, TextStyle::Caption, machine.detail.as_str());
            let word = if machine.running {
                "Stop"
            } else {
                "Start"
            };
            let word2 = if machine.running {
                "Stop this OrbStack machine"
            } else {
                "Start this OrbStack machine"
            };
            let action = if machine.running {
                let names = texts1(name.as_str());
                Action::With(Command::StopMachine, names)
            } else {
                let names = texts1(name.as_str());
                Action::With(Command::StartMachine, names)
            };
            button(items, word, action, true, word2);
            let names = texts1(name.as_str());
            button(
                items,
                "Shell",
                Action::With(Command::OpenMachineTerminal, names),
                true,
                "Open an interactive shell for this machine in macOS Terminal",
            );
            let names = texts1(name.as_str());
            button(
                items,
                "Delete",
                Action::With(Command::DeleteMachine, names),
                true,
                "Permanently delete this machine after confirmation",
            );
        },
        None => {
            label(items, TextStyle::Body, machine.label.as_str());
            fitted(items, TextStyle::Caption, machine.detail.as_str());
        },
    }
}

/// The first machines.
pub open spec fn orbstack_machine_rows_items(machines: Seq<MachineRowView>) -> Seq<ItemView>
    decreases machines.len(),
{
    if machines.len() == 0 {
        Seq::empty()
    } else {
        orbstack_machine_rows_items(machines.drop_last()) + orbstack_machine_row_items(machines.last())
    }
}

pub fn orbstack_machine_rows(
    items: &mut Vec<Item>,
    machines: &Vec<OrbStackMachineRow>,
    most: usize,
)
    ensures
        final(items).deep_view() == old(items).deep_view() + orbstack_machine_rows_items(
            first_of(machines.deep_view(), most as nat),
        ),
{
    let ghost before = items.deep_view();
    let ghost all = machines.deep_view();
    let count: usize = shown_count(machines.len(), most);
    assert(orbstack_machine_rows_items(all.take(0)) == Seq::<ItemView>::empty());
    for i in 0..count
        invariant
            all == machines.deep_view(),
            count <= machines@.len(),
            items.deep_view() == before + orbstack_machine_rows_items(all.take(i as int)),
    {
        add_orbstack_machine_row(items, &machines[i]);
        assert(all.take(i + 1).drop_last() == all.take(i as int));
        assert(all.take(i + 1).last() == machines@[i as int].deep_view());
    }
    assert(all.take(count as int) == first_of(all, most as nat));
}

/// The machines of OrbStack, and how it is started and stopped.
pub open spec fn orbstack_machine_inventory_items(
    running: bool,
    machines: Seq<MachineRowView>,
) -> Seq<ItemView> {
    seq![
        card_item(false),
        label_item(TextStyle::Heading, "Machines"@),
        label_item(
            TextStyle::Caption,
            "Manage OrbStack Linux machines independently from Docker-compatible containers."@,
        ),
        button_item(
            "Start OrbStack"@,
            ActionView::Do(Command::StartOrbStack),
            !running,
            "Run `orbctl start` asynchronously"@,
        ),
        button_item(
            "Stop OrbStack"@,
            ActionView::Do(Command::StopOrbStack),
            running,
            "Run `orbctl stop` asynchronously"@,
        ),
    ] + orbstack_machine_rows_items(first_of(machines, 3))
}

pub fn add_orbstack_machine_inventory(
    items: &mut Vec<Item>,
    running: bool,
    machines: &Vec<OrbStackMachineRow>,
)
    ensures
        final(items).deep_view() == old(items).deep_view() + orbstack_machine_inventory_items(
            running,
            machines.deep_view(),
        ),
{
    card(items, false);
    label(items, TextStyle::Heading, "Machines");
    label(
        items,
        TextStyle::Caption,
        "Manage OrbStack Linux machines independently from Docker-compatible containers.",
    );
    button(
        items,
        "Start OrbStack",
        Action::Do(Command::StartOrbStack),
        !running,
        "Run `orbctl start` asynchronously",
    );
    button(
        items,
        "Stop OrbStack",
        Action::Do(Command::StopOrbStack),
        running,
        "Run `orbctl stop` asynchronously",
    );
    orbstack_machine_rows(items, machines, 3);
}

/// OrbStack: whether it runs, and its machines.
#[derive(Debug)]
pub struct OrbStackInventory {
    pub running: bool,
    pub machines: Vec<OrbStackMachineRow>,
}

#[verifier::ext_equal]
pub struct OrbStackView {
    pub running: bool,
    pub machines: Seq<MachineRowView>,
}

impl DeepView for OrbStackInventory {
    type V = OrbStackView;

    open spec fn deep_view(&self) -> OrbStackView {
        OrbStackView { running: self.running, machines: self.machines.deep_view() }
    }
}

/// What OrbStack adds, if it is there.
pub open spec fn orbstack_provider_items(orbstack: Option<OrbStackView>) -> Seq<ItemView> {
    match orbstack {
        Some(inventory) => orbstack_machine_inventory_items(inventory.running, inventory.machines),
        None => seq![
            card_item(false),
            label_item(TextStyle::Heading, "OrbStack Provider"@),
            label_item(
                TextStyle::Caption,
                "OrbStack is optional. Install or open it to expose Linux machines and its Docker context here."@,
            ),
            button_item(
                "Open OrbStack"@,
                ActionView::Do(Command::OpenOrbStack),
                true,
                "Open OrbStack if it is installed"@,
            ),
        ],
    }
}

pub fn orbstack_provider(items: &mut Vec<Item>, orbstack: &Option<OrbStackInventory>)
    ensures
        final(items).deep_view() == old(items).deep_view() + orbstack_provider_items(
            orbstack.deep_view(),
        ),
{
    match orbstack {
        Some(inventory) => {
            add_orbstack_machine_inventory(items, inventory.running, &inventory.machines);
        },
        None => {
            card(items, false);
            label(items, TextStyle::Heading, "OrbStack Provider");
            label(
                items,
                TextStyle::Caption,
                "OrbStack is optional. Install or open it to expose Linux machines and its Docker context here.",
            );
            button(
                items,
                "Open OrbStack",
                Action::Do(Command::OpenOrbStack),
                true,
                "Open OrbStack if it is installed",
            );
        },
    }
}

/// The page of Docker and what is compatible with it.
pub open spec fn docker_runtime_list_items(
    path: Seq<char>,
    overview: OverviewView,
    contexts: Seq<ContextRowView>,
    orbstack: Option<OrbStackView>,
    rows: Seq<ContainerRowView>,
    checks: Seq<RuntimeCheckView>,
    picked: Option<SelectedContainerView>,
) -> Seq<ItemView> {
    runtime_start_items(NAV_DOCKER, path, overview) + docker_context_inventory_items(contexts)
        + orbstack_provider_items(orbstack) + docker_container_inventory_items(rows, picked)
        + check_cards_items(checks)
}

pub fn docker_runtime_list(
    items: &mut Vec<Item>,
    path: &str,
    overview: &RuntimeOverview,
    contexts: &Vec<DockerContextRow>,
    orbstack: &Option<OrbStackInventory>,
    rows: &Vec<RuntimeContainerRow>,
    checks: &Vec<RuntimeCheck>,
    picked: &Option<SelectedRuntimeContainer>,
)
    ensures
        final(items).deep_view() == old(items).deep_view() + docker_runtime_list_items(
            path@,
            overview.deep_view(),
            contexts.deep_view(),
            orbstack.deep_view(),
            rows.deep_view(),
            checks.deep_view(),
            picked.deep_view(),
        ),
{
    runtime_start(items, NAV_DOCKER, path, overview);
    add_docker_context_inventory(items, contexts);
    orbstack_provider(items, orbstack);
    add_docker_container_inventory(items, rows, picked);
    check_cards(items, checks);
}

// ---------------------------------------------------------------------------
// OrbStack
// ---------------------------------------------------------------------------
/// The label of a context.
pub open spec fn context_line_items(context: ContextRowView) -> Seq<ItemView> {
    seq![label_item(TextStyle::Mono, context.label)]
}

pub fn context_line(items: &mut Vec<Item>, context: &DockerContextRow)
    ensures
        final(items).deep_view() == old(items).deep_view() + context_line_items(
            context.deep_view(),
        ),
{
    label(items, TextStyle::Mono, context.label.as_str());
}

/// The labels of the first contexts.
pub open spec fn context_lines_items(contexts: Seq<ContextRowView>) -> Seq<ItemView>
    decreases contexts.len(),
{
    if contexts.len() == 0 {
        Seq::empty()
    } else {
        context_lines_items(contexts.drop_last()) + context_line_items(contexts.last())
    }
}

pub fn context_lines(items: &mut Vec<Item>, contexts: &Vec<DockerContextRow>, most: usize)
    ensures
        final(items).deep_view() == old(items).deep_view() + context_lines_items(
            first_of(contexts.deep_view(), most as nat),
        ),
{
    let ghost before = items.deep_view();
    let ghost all = contexts.deep_view();
    let count: usize = shown_count(contexts.len(), most);
    assert(context_lines_items(all.take(0)) == Seq::<ItemView>::empty());
    for i in 0..count
        invariant
            all == contexts.deep_view(),
            count <= contexts@.len(),
            items.deep_view() == before + context_lines_items(all.take(i as int)),
    {
        context_line(items, &contexts[i]);
        assert(all.take(i + 1).drop_last() == all.take(i as int));
        assert(all.take(i + 1).last() == contexts@[i as int].deep_view());
    }
    assert(all.take(count as int) == first_of(all, most as nat));
}

/// The containers of OrbStack, which is not woken to show them.
pub open spec fn orbstack_docker_inventory_items(
    running: bool,
    contexts: Seq<ContextRowView>,
    rows: Seq<ContainerRowView>,
    picked: Option<SelectedContainerView>,
) -> Seq<ItemView> {
    seq![card_item(false), label_item(TextStyle::Heading, "Docker-compatible Containers"@)]
        + (if running {
            seq![
                label_item(
                    TextStyle::Caption,
                    "Uses Docker CLI when the OrbStack context is active."@,
                ),
            ] + context_lines_items(first_of(contexts, 2))
                + runtime_container_rows_items(first_of(rows, 3), "orbstack"@, picked)
        } else {
            seq![
                label_item(
                    TextStyle::Caption,
                    "OrbStack is stopped. Docker inventory is paused so Cocoa-Way does not wake it."@,
                ),
                label_item(
                    TextStyle::Body,
                    "Start OrbStack to inspect its Docker-compatible containers."@,
                ),
            ]
        })
}

pub fn add_orbstack_docker_inventory(
    items: &mut Vec<Item>,
    running: bool,
    contexts: &Vec<DockerContextRow>,
    rows: &Vec<RuntimeContainerRow>,
    picked: &Option<SelectedRuntimeContainer>,
)
    ensures
        final(items).deep_view() == old(items).deep_view() + orbstack_docker_inventory_items(
            running,
            contexts.deep_view(),
            rows.deep_view(),
            picked.deep_view(),
        ),
{
    card(items, false);
    label(items, TextStyle::Heading, "Docker-compatible Containers");
    if running {
        label(items, TextStyle::Caption, "Uses Docker CLI when the OrbStack context is active.");
        context_lines(items, contexts, 2);
        runtime_container_rows(items, rows, 3, "orbstack", picked);
    } else {
        label(
            items,
            TextStyle::Caption,
            "OrbStack is stopped. Docker inventory is paused so Cocoa-Way does not wake it.",
        );
        label(items, TextStyle::Body, "Start OrbStack to inspect its Docker-compatible containers.");
    }
}

/// The machines and the containers of OrbStack.
pub open spec fn orbstack_sections_items(
    inventory: OrbStackView,
    contexts: Seq<ContextRowView>,
    rows: Seq<ContainerRowView>,
    picked: Option<SelectedContainerView>,
) -> Seq<ItemView> {
    orbstack_machine_inventory_items(inventory.running, inventory.machines)
        + orbstack_docker_inventory_items(inventory.running, contexts, rows, picked)
}

pub fn orbstack_sections(
    items: &mut Vec<Item>,
    inventory: &OrbStackInventory,
    contexts: &Vec<DockerContextRow>,
    rows: &Vec<RuntimeContainerRow>,
    picked: &Option<SelectedRuntimeContainer>,
)
    ensures
        final(items).deep_view() == old(items).deep_view() + orbstack_sections_items(
            inventory.deep_view(),
            contexts.deep_view(),
            rows.deep_view(),
            picked.deep_view(),
        ),
{
    add_orbstack_machine_inventory(items, inventory.running, &inventory.machines);
    add_orbstack_docker_inventory(items, inventory.running, contexts, rows, picked);
}

/// OrbStack while it is stopped.
pub open spec fn stopped_orbstack() -> OrbStackView {
    OrbStackView {
        running: false,
        machines: seq![
            machine_message(
                "OrbStack is stopped"@,
                "Start OrbStack to inspect its Linux machines."@,
            ),
        ],
    }
}

/// The page of OrbStack. Where nothing is known of it, it is stopped.
pub open spec fn orbstack_runtime_list_items(
    path: Seq<char>,
    overview: OverviewView,
    orbstack: Option<OrbStackView>,
    contexts: Seq<ContextRowView>,
    rows: Seq<ContainerRowView>,
    checks: Seq<RuntimeCheckView>,
    picked: Option<SelectedContainerView>,
) -> Seq<ItemView> {
    runtime_start_items(NAV_ORBSTACK, path, overview)
        + orbstack_sections_items(
            match orbstack {
                Some(inventory) => inventory,
                None => stopped_orbstack(),
            },
            contexts,
            rows,
            picked,
        ) + check_cards_items(checks)
}

pub fn orbstack_runtime_list(
    items: &mut Vec<Item>,
    path: &str,
    overview: &RuntimeOverview,
    orbstack: &Option<OrbStackInventory>,
    contexts: &Vec<DockerContextRow>,
    rows: &Vec<RuntimeContainerRow>,
    checks: &Vec<RuntimeCheck>,
    picked: &Option<SelectedRuntimeContainer>,
)
    ensures
        final(items).deep_view() == old(items).deep_view() + orbstack_runtime_list_items(
            path@,
            overview.deep_view(),
            orbstack.deep_view(),
            contexts.deep_view(),
            rows.deep_view(),
            checks.deep_view(),
            picked.deep_view(),
        ),
{
    runtime_start(items, NAV_ORBSTACK, path, overview);
    match orbstack {
        Some(inventory) => {
            orbstack_sections(items, inventory, contexts, rows, picked);
        },
        None => {
            let inventory = OrbStackInventory {
                running: false,
                machines: crate::inventory::orbstack_machine_rows(false, &Err(String::new())),
            };
            orbstack_sections(items, &inventory, contexts, rows, picked);
        },
    }
    check_cards(items, checks);
}

// ---------------------------------------------------------------------------
// Any runtime
// ---------------------------------------------------------------------------
/// What is known of the runtime of a page.
#[derive(Debug)]
pub struct RuntimePage {
    /// Where its command is, if it is installed.
    pub path: Option<String>,
    pub overview: RuntimeOverview,
    pub compatibility: AppleContainerCompatibility,
    pub contexts: Vec<DockerContextRow>,
    /// OrbStack, if it is installed.
    pub orbstack: Option<OrbStackInventory>,
    pub rows: Vec<RuntimeContainerRow>,
    pub checks: Vec<RuntimeCheck>,
}

#[verifier::ext_equal]
pub struct RuntimePageView {
    pub path: Option<Seq<char>>,
    pub overview: OverviewView,
    pub compatibility: CompatibilityView,
    pub contexts: Seq<ContextRowView>,
    pub orbstack: Option<OrbStackView>,
    pub rows: Seq<ContainerRowView>,
    pub checks: Seq<RuntimeCheckView>,
}

impl DeepView for RuntimePage {
    type V = RuntimePageView;

    open spec fn deep_view(&self) -> RuntimePageView {
        RuntimePageView {
            path: self.path.deep_view(),
            overview: self.overview.deep_view(),
            compatibility: self.compatibility.deep_view(),
            contexts: self.contexts.deep_view(),
            orbstack: self.orbstack.deep_view(),
            rows: self.rows.deep_view(),
            checks: self.checks.deep_view(),
        }
    }
}

/// The page of no runtime in particular: it has no inventory.
pub open spec fn other_runtime_list_items(
    nav: usize,
    path: Seq<char>,
    overview: OverviewView,
    checks: Seq<RuntimeCheckView>,
) -> Seq<ItemView> {
    runtime_start_items(nav, path, overview) + check_cards_items(checks)
}

/// The page of a runtime: one that is not installed has little to say.
pub open spec fn runtime_list_items(
    nav: usize,
    page: RuntimePageView,
    picked: Option<SelectedContainerView>,
) -> Seq<ItemView> {
    match page.path {
        Some(path) => (if nav == NAV_APPLE_CONTAINER {
            apple_runtime_list_items(
                path,
                page.overview,
                page.compatibility,
                page.rows,
                page.checks,
                picked,
            )
        } else {
            (if nav == NAV_DOCKER {
                docker_runtime_list_items(
                    path,
                    page.overview,
                    page.contexts,
                    page.orbstack,
                    page.rows,
                    page.checks,
                    picked,
                )
            } else {
                (if nav == NAV_ORBSTACK {
                    orbstack_runtime_list_items(
                        path,
                        page.overview,
                        page.orbstack,
                        page.contexts,
                        page.rows,
                        page.checks,
                        picked,
                    )
                } else {
                    other_runtime_list_items(nav, path, page.overview, page.checks)
                })
            })
        }),
        None => runtime_missing_items(nav),
    }
}

pub fn add_runtime_list(
    items: &mut Vec<Item>,
    nav: usize,
    page: &RuntimePage,
    picked: &Option<SelectedRuntimeContainer>,
)
    ensures
        final(items).deep_view() == old(items).deep_view() + runtime_list_items(
            nav,
            page.deep_view(),
            picked.deep_view(),
        ),
{
    match &page.path {
        Some(path) => {
            if nav == NAV_APPLE_CONTAINER {
                apple_runtime_list(
                    items,
                    path.as_str(),
                    &page.overview,
                    &page.compatibility,
                    &page.rows,
                    &page.checks,
                    picked,
                );
            } else {
                if nav == NAV_DOCKER {
                    docker_runtime_list(
                        items,
                        path.as_str(),
                        &page.overview,
                        &page.contexts,
                        &page.orbstack,
                        &page.rows,
                        &page.checks,
                        picked,
                    );
                } else {
                    if nav == NAV_ORBSTACK {
                        orbstack_runtime_list(
                            items,
                            path.as_str(),
                            &page.overview,
                            &page.orbstack,
                            &page.contexts,
                            &page.rows,
                            &page.checks,
                            picked,
                        );
                    } else {
                        runtime_start(items, nav, path.as_str(), &page.overview);
                        check_cards(items, &page.checks);
                    }
                }
            }
        },
        None => {
            runtime_missing(items, nav);
        },
    }
}

} // verus!
