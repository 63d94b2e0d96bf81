//! The container window as a whole: which page is shown, what stands beside it,
//! and what the menus do.
use vstd::prelude::*;
use vstd::string::*;

use crate::actions::{
    remember_stop_request, schedule_automatic_profile_validation, selected_session_index,
    shown_session, stop_remembered, unchecked,
};
use crate::container_mode::{
    active_of, ContainerMode, Effect, EffectView, ModeView, SelectedContainerView,
    SelectedRuntimeContainer,
};
use crate::container_sessions::{slug_of, ContainerSession, SessionView};
use crate::detail_pages::{
    add_image_detail, add_runtime_container_detail, add_volume_detail, image_detail_items,
    runtime_container_detail_items, volume_detail_items,
};
use crate::page::{
    area, area_item, button, button_item, card, card_item, fitted, fitted_item, label, label_item,
    Action, ActionView, Command, Item, ItemView, TextStyle,
};
use crate::pages::{
    add_config_error_list, add_placeholder_list, add_running_empty_list, add_session_empty_list,
    config_error_list_items, nav_title, placeholder_list_items, running_empty_list_items,
    session_empty_list_items, title_of,
};
use crate::profiles::{
    display_slot_slug, page_of, runtime_nav, NAV_ACTIVITY, NAV_APPLE_CONTAINER, NAV_COMMANDS,
    NAV_DISPLAYS, NAV_DOCKER, NAV_IMAGES, NAV_ORBSTACK, NAV_RUNNING, NAV_SESSIONS, NAV_VOLUMES,
};
use crate::session_pages::{
    add_session_detail, session_detail_items, session_rows, session_rows_items,
};
use crate::storage::{
    image_reference_has_tag, is_tagged, UsageView, VolumeMetadata, VolumeMetadataView, VolumeUsage,
};
use crate::tasks::active_tasks;
use crate::text::{concat, concat3, concat5, count_text, decimal, push_deep, same};

verus! {

// ---------------------------------------------------------------------------
// Which page is shown
// ---------------------------------------------------------------------------
/// What is shown on the left.
#[derive(Clone, Copy, Debug, PartialEq, Eq, Structural)]
pub enum ListPage {
    Images,
    Volumes,
    Displays,
    Runtime,
    Activity,
    Commands,
    /// A page of which nothing is known.
    Placeholder,
    /// The profiles cannot be read.
    ConfigError,
    RunningEmpty,
    SessionEmpty,
    Sessions,
}

/// Whether a page takes the whole window.
pub open spec fn is_runtime_page(nav: usize) -> bool {
    nav == NAV_APPLE_CONTAINER || nav == NAV_DOCKER || nav == NAV_ORBSTACK
}

pub fn runtime_overview_page(nav: usize) -> (result: bool)
    ensures
        result == is_runtime_page(nav),
{
    nav == NAV_APPLE_CONTAINER || nav == NAV_DOCKER || nav == NAV_ORBSTACK
}

/// The page that is shown on the left.
pub open spec fn list_page_of(
    nav: usize,
    unreadable: bool,
    active_count: nat,
    session_count: nat,
) -> ListPage {
    if nav == NAV_IMAGES {
        ListPage::Images
    } else if nav == NAV_VOLUMES {
        ListPage::Volumes
    } else if nav == NAV_DISPLAYS {
        ListPage::Displays
    } else if is_runtime_page(nav) {
        ListPage::Runtime
    } else if nav == NAV_ACTIVITY {
        ListPage::Activity
    } else if nav == NAV_COMMANDS {
        ListPage::Commands
    } else if nav != NAV_SESSIONS && nav != NAV_RUNNING {
        ListPage::Placeholder
    } else if unreadable {
        ListPage::ConfigError
    } else if nav == NAV_RUNNING && active_count == 0 {
        ListPage::RunningEmpty
    } else if session_count == 0 {
        ListPage::SessionEmpty
    } else {
        ListPage::Sessions
    }
}

pub fn list_page(nav: usize, unreadable: bool, active_count: usize, session_count: usize) -> (result:
    ListPage)
    ensures
        result == list_page_of(nav, unreadable, active_count as nat, session_count as nat),
{
    if nav == NAV_IMAGES {
        ListPage::Images
    } else if nav == NAV_VOLUMES {
        ListPage::Volumes
    } else if nav == NAV_DISPLAYS {
        ListPage::Displays
    } else if runtime_overview_page(nav) {
        ListPage::Runtime
    } else if nav == NAV_ACTIVITY {
        ListPage::Activity
    } else if nav == NAV_COMMANDS {
        ListPage::Commands
    } else if nav != NAV_SESSIONS && nav != NAV_RUNNING {
        ListPage::Placeholder
    } else if unreadable {
        ListPage::ConfigError
    } else if nav == NAV_RUNNING && active_count == 0 {
        ListPage::RunningEmpty
    } else if session_count == 0 {
        ListPage::SessionEmpty
    } else {
        ListPage::Sessions
    }
}

/// What is shown on the right.
#[derive(Clone, Copy, Debug, PartialEq, Eq, Structural)]
pub enum DetailPage {
    Session(usize),
    NoSelection,
    Image,
    Volume,
    Container,
    /// What the page on the left is for.
    Section,
}

/// Whether the picked container belongs to a page.
pub open spec fn container_on_page(picked: Option<SelectedContainerView>, nav: usize) -> bool {
    match picked {
        Some(container) => page_of(container.runtime) == nav,
        None => false,
    }
}

fn has_container(picked: &Option<SelectedRuntimeContainer>, nav: usize) -> (result: bool)
    ensures
        result == container_on_page(picked.deep_view(), nav),
{
    match picked {
        Some(container) => runtime_nav(container.runtime.as_str()) == nav,
        None => false,
    }
}

/// The page that is shown on the right.
pub open spec fn detail_page_of(mode: ModeView, nav: usize, shown: Option<usize>) -> DetailPage {
    if shown is Some {
        DetailPage::Session(shown->0)
    } else if nav == NAV_SESSIONS || nav == NAV_RUNNING {
        DetailPage::NoSelection
    } else if nav == NAV_IMAGES {
        if mode.selected_image is Some {
            DetailPage::Image
        } else {
            DetailPage::Section
        }
    } else if nav == NAV_VOLUMES {
        if mode.selected_volume is Some {
            DetailPage::Volume
        } else {
            DetailPage::Section
        }
    } else if container_on_page(mode.selected_container, nav) {
        DetailPage::Container
    } else {
        DetailPage::Section
    }
}

pub fn detail_page(mode: &ContainerMode, nav: usize, shown: Option<usize>) -> (result: DetailPage)
    ensures
        result == detail_page_of(mode.deep_view(), nav, shown),
{
    if let Some(index) = shown {
        return DetailPage::Session(index);
    }
    if nav == NAV_SESSIONS || nav == NAV_RUNNING {
        DetailPage::NoSelection
    } else if nav == NAV_IMAGES {
        if mode.selected_image.is_some() {
            DetailPage::Image
        } else {
            DetailPage::Section
        }
    } else if nav == NAV_VOLUMES {
        if mode.selected_volume.is_some() {
            DetailPage::Volume
        } else {
            DetailPage::Section
        }
    } else if has_container(&mode.selected_container, nav) {
        DetailPage::Container
    } else {
        DetailPage::Section
    }
}

/// What the window shows: a page, and on most pages something beside it.
#[derive(Debug)]
pub struct WindowPlan {
    pub selected_session: Option<usize>,
    pub list: ListPage,
    pub detail: Option<DetailPage>,
}

/// Decides what the window shows. Profiles of which nothing is known are checked,
/// and a profile that cannot be shown is picked no longer.
pub fn install_content(mode: &mut ContainerMode, session_count: usize, unreadable: bool) -> (result: (
    WindowPlan,
    Vec<Effect>,
))
    requires
        old(mode).well_formed(),
    ensures
        final(mode).well_formed(),
        ({
            let before = old(mode).deep_view();
            let nav = before.selected_nav;
            let asked = unchecked(before, session_count as nat);
            let shown = shown_session(before, session_count, nav);
            let checked = ModeView {
                validation_requested: before.validation_requested + asked,
                ..before
            };
            &&& final(mode).deep_view() == (if nav == NAV_SESSIONS || nav == NAV_RUNNING {
                ModeView { selected_session: shown, ..checked }
            } else {
                checked
            })
            &&& result.1.deep_view() == asked.map_values(|index: usize| EffectView::CheckSession(index))
            &&& result.0.selected_session == shown
            &&& result.0.list == list_page_of(
                nav,
                unreadable,
                before.active_sessions.len(),
                session_count as nat,
            )
            &&& result.0.detail == (if is_runtime_page(nav) {
                None
            } else {
                Some(detail_page_of(before, nav, shown))
            })
        }),
{
    let effects = schedule_automatic_profile_validation(mode, session_count);
    let nav = mode.selected_nav;
    let selected_session = selected_session_index(mode, session_count, nav);
    assert(mode.deep_view().active_sessions.len() == mode.active_sessions@.len());
    let list = list_page(nav, unreadable, mode.active_sessions.len(), session_count);
    let detail = if runtime_overview_page(nav) {
        None
    } else {
        Some(detail_page(mode, nav, selected_session))
    };
    (WindowPlan { selected_session, list, detail }, effects)
}

// ---------------------------------------------------------------------------
// How high a page is
// ---------------------------------------------------------------------------
/// The larger of two heights.
pub open spec fn higher(a: int, b: int) -> int {
    if a < b {
        b
    } else {
        a
    }
}

/// The least height of a page in points. `visible` is the height that is seen.
pub open spec fn least_height_of(
    mode: ModeView,
    nav: usize,
    session_count: usize,
    visible: u32,
) -> int {
    if nav == NAV_APPLE_CONTAINER {
        1860
    } else if nav == NAV_ORBSTACK {
        1520
    } else if nav == NAV_DOCKER {
        1760
    } else if nav == NAV_IMAGES {
        1800
    } else if nav == NAV_VOLUMES {
        1400
    } else if nav == NAV_DISPLAYS {
        780 + (mode.managed_displays.len() + mode.pending_displays.len()) * 150 + higher(
            mode.active_sessions.len() as int,
            1,
        ) * 116 + (if session_count > 16 {
            16
        } else {
            higher(session_count as int, 1)
        }) * 78
    } else if nav == NAV_ACTIVITY {
        1560
    } else if nav == NAV_COMMANDS {
        1080
    } else {
        visible as int
    }
}

fn least_height(mode: &ContainerMode, nav: usize, session_count: usize, visible: u32) -> (result: u128)
    ensures
        result == least_height_of(mode.deep_view(), nav, session_count, visible),
{
    if nav == NAV_APPLE_CONTAINER {
        1860
    } else if nav == NAV_ORBSTACK {
        1520
    } else if nav == NAV_DOCKER {
        1760
    } else if nav == NAV_IMAGES {
        1800
    } else if nav == NAV_VOLUMES {
        1400
    } else if nav == NAV_DISPLAYS {
        let ghost view = mode.deep_view();
        assert(view.managed_displays.len() == mode.managed_displays@.len());
        assert(view.pending_displays.len() == mode.pending_displays@.len());
        assert(view.active_sessions.len() == mode.active_sessions@.len());
        let managed: u128 = mode.managed_displays.len() as u128
            + mode.pending_displays.len() as u128;
        let active: u128 = if mode.active_sessions.len() == 0 {
            1
        } else {
            mode.active_sessions.len() as u128
        };
        let listed: u128 = if session_count == 0 {
            1
        } else if session_count > 16 {
            16
        } else {
            session_count as u128
        };
        780 + managed * 150 + active * 116 + listed * 78
    } else if nav == NAV_ACTIVITY {
        1560
    } else if nav == NAV_COMMANDS {
        1080
    } else {
        visible as u128
    }
}

/// The height of a page: there is room for every profile.
pub fn content_height(mode: &ContainerMode, nav: usize, session_count: usize, visible: u32) -> (result:
    u128)
    ensures
        result == higher(
            higher(session_count as int, 1) * 180 + 18,
            least_height_of(mode.deep_view(), nav, session_count, visible),
        ),
{
    let rows: u128 = if session_count == 0 {
        1
    } else {
        session_count as u128
    };
    let least = least_height(mode, nav, session_count, visible);
    if rows * 180 + 18 < least {
        least
    } else {
        rows * 180 + 18
    }
}

/// The height of what stands beside a page.
pub fn document_height(mode: &ContainerMode, nav: usize, detail: DetailPage, visible: u32) -> (result:
    u32)
    ensures
        result == higher(
            visible as int,
            if detail is Session {
                2200
            } else if container_on_page(mode.deep_view().selected_container, nav) {
                860
            } else if nav == NAV_IMAGES || nav == NAV_VOLUMES {
                900
            } else {
                0
            },
        ),
{
    let is_session = match detail {
        DetailPage::Session(_) => true,
        _ => false,
    };
    let least: u32 = if is_session {
        2200
    } else if has_container(&mode.selected_container, nav) {
        860
    } else if nav == NAV_IMAGES || nav == NAV_VOLUMES {
        900
    } else {
        0
    };
    if visible < least {
        least
    } else {
        visible
    }
}

// ---------------------------------------------------------------------------
// Where a page was left
// ---------------------------------------------------------------------------
/// The name under which it is remembered how far a page was scrolled.
pub fn list_scroll_key(nav: usize) -> (result: String)
    ensures
        result@ == "list:"@ + decimal(nav as nat),
{
    let number = count_text(nav);
    concat("list:", number.as_str())
}

/// The name under which it is remembered how far what stands beside a page was
/// scrolled.
pub open spec fn scroll_key_of(mode: ModeView, nav: usize, tab: usize, shown: Option<usize>) -> Seq<
    char,
> {
    let start = "detail:"@ + decimal(nav as nat);
    match shown {
        Some(index) => start + ":application:"@ + decimal(index as nat) + ":tab:"@ + decimal(
            tab as nat,
        ),
        None => if nav == NAV_IMAGES {
            match mode.selected_image {
                Some(image) => start + ":image:"@ + image.reference,
                None => start + ":empty"@,
            }
        } else if nav == NAV_VOLUMES {
            match mode.selected_volume {
                Some(volume) => start + ":volume:"@ + volume.name,
                None => start + ":empty"@,
            }
        } else {
            match mode.selected_container {
                Some(container) => if page_of(container.runtime) == nav {
                    start + ":container:"@ + container.name
                } else {
                    start + ":empty"@
                },
                None => start + ":empty"@,
            }
        },
    }
}

pub fn detail_scroll_key(
    mode: &ContainerMode,
    selected_nav: usize,
    selected_tab: usize,
    selected_session: Option<usize>,
) -> (result: String)
    ensures
        result@ == scroll_key_of(mode.deep_view(), selected_nav, selected_tab, selected_session),
{
    let number = count_text(selected_nav);
    let start = concat("detail:", number.as_str());
    if let Some(index) = selected_session {
        let index_text = count_text(index);
        let tab_text = count_text(selected_tab);
        return concat5(
            start.as_str(),
            ":application:",
            index_text.as_str(),
            ":tab:",
            tab_text.as_str(),
        );
    }
    if selected_nav == NAV_IMAGES {
        return match &mode.selected_image {
            Some(image) => concat3(start.as_str(), ":image:", image.reference.as_str()),
            None => concat(start.as_str(), ":empty"),
        };
    }
    if selected_nav == NAV_VOLUMES {
        return match &mode.selected_volume {
            Some(volume) => concat3(start.as_str(), ":volume:", volume.name.as_str()),
            None => concat(start.as_str(), ":empty"),
        };
    }
    if let Some(container) = &mode.selected_container {
        if runtime_nav(container.runtime.as_str()) == selected_nav {
            return concat3(start.as_str(), ":container:", container.name.as_str());
        }
    }
    concat(start.as_str(), ":empty")
}

// ---------------------------------------------------------------------------
// The pages of profiles
// ---------------------------------------------------------------------------
/// The page of profiles, or what is said in its place.
pub open spec fn profile_list_items(
    page: ListPage,
    sessions: Seq<SessionView>,
    mode: ModeView,
    error: Seq<char>,
    selected: Option<usize>,
) -> Seq<ItemView> {
    if page == ListPage::ConfigError {
        config_error_list_items(error)
    } else {
        (if page == ListPage::RunningEmpty {
            running_empty_list_items()
        } else {
            (if page == ListPage::SessionEmpty {
                session_empty_list_items()
            } else {
                (if page == ListPage::Placeholder {
                    placeholder_list_items(title_of(mode.selected_nav))
                } else {
                    session_rows_items(
                        sessions,
                        mode,
                        mode.selected_nav != NAV_SESSIONS,
                        selected,
                        sessions.len(),
                    )
                })
            })
        })
    }
}

pub fn profile_list(
    items: &mut Vec<Item>,
    page: ListPage,
    sessions: &Vec<ContainerSession>,
    mode: &ContainerMode,
    error: &str,
    selected: Option<usize>,
)
    ensures
        final(items).deep_view() == old(items).deep_view() + profile_list_items(
            page,
            sessions.deep_view(),
            mode.deep_view(),
            error@,
            selected,
        ),
{
    if page == ListPage::ConfigError {
        add_config_error_list(items, error);
    } else {
        if page == ListPage::RunningEmpty {
            add_running_empty_list(items);
        } else {
            if page == ListPage::SessionEmpty {
                add_session_empty_list(items);
            } else {
                if page == ListPage::Placeholder {
                    let title = nav_title(mode.selected_nav);
                    add_placeholder_list(items, title);
                } else {
                    session_rows(items, sessions, mode, mode.selected_nav != NAV_SESSIONS, selected);
                }
            }
        }
    }
    assert(sessions.deep_view().len() == sessions@.len());
}

// ---------------------------------------------------------------------------
// Beside a page
// ---------------------------------------------------------------------------
/// The tabs of a profile.
pub open spec fn tab_bar_items(selected_tab: usize) -> Seq<ItemView> {
    seq![
        card_item(false),
        label_item(
            if selected_tab == 0 { TextStyle::Heading } else { TextStyle::Body },
            "Overview"@,
        ),
        area_item(ActionView::At(Command::SelectTab, 0)),
        label_item(if selected_tab == 1 { TextStyle::Heading } else { TextStyle::Body }, "Logs"@),
        area_item(ActionView::At(Command::SelectTab, 1)),
        label_item(
            if selected_tab == 2 { TextStyle::Heading } else { TextStyle::Body },
            "Terminal"@,
        ),
        area_item(ActionView::At(Command::SelectTab, 2)),
        label_item(if selected_tab == 3 { TextStyle::Heading } else { TextStyle::Body }, "Files"@),
        area_item(ActionView::At(Command::SelectTab, 3)),
    ]
}

pub fn add_tab_bar(items: &mut Vec<Item>, selected_tab: usize)
    ensures
        final(items).deep_view() == old(items).deep_view() + tab_bar_items(selected_tab),
{
    card(items, false);
    let style = if selected_tab == 0 { TextStyle::Heading } else { TextStyle::Body };
    label(items, style, "Overview");
    area(items, Action::At(Command::SelectTab, 0));
    let style = if selected_tab == 1 { TextStyle::Heading } else { TextStyle::Body };
    label(items, style, "Logs");
    area(items, Action::At(Command::SelectTab, 1));
    let style = if selected_tab == 2 { TextStyle::Heading } else { TextStyle::Body };
    label(items, style, "Terminal");
    area(items, Action::At(Command::SelectTab, 2));
    let style = if selected_tab == 3 { TextStyle::Heading } else { TextStyle::Body };
    label(items, style, "Files");
    area(items, Action::At(Command::SelectTab, 3));
}

/// What is said where no profile is picked.
pub open spec fn empty_message_of(tab: usize) -> Seq<char> {
    if tab == 1 {
        "Select an application profile to inspect its launch logs and Waypipe output."@
    } else if tab == 2 {
        "Select a running application instance to open an interactive terminal."@
    } else if tab == 3 {
        "Select an application profile to inspect files exported from its container."@
    } else {
        "Select an application profile to inspect its configuration and running instance."@
    }
}

pub fn detail_empty_message(index: usize) -> (result: &'static str)
    ensures
        result@ == empty_message_of(index),
{
    if index == 1 {
        "Select an application profile to inspect its launch logs and Waypipe output."
    } else if index == 2 {
        "Select a running application instance to open an interactive terminal."
    } else if index == 3 {
        "Select an application profile to inspect files exported from its container."
    } else {
        "Select an application profile to inspect its configuration and running instance."
    }
}

/// What a page is for, by its title.
pub open spec fn section_text_of(title: Seq<char>) -> Seq<char> {
    if title == "Images"@ {
        "Create sessions, pull/load images, and keep cleanup separate."@
    } else if title == "Volumes"@ {
        "Inspect local volumes. Deletes ask for confirmation."@
    } else if title == "Displays"@ {
        "Create managed display windows for scripts and explicit session assignment, or let auto use the default window and allocate dedicated displays."@
    } else if title == "Activity"@ {
        "Recent Container Mode actions and runtime output are shown on the left."@
    } else if title == "Commands"@ {
        "Copy launch helper commands from the left when you need to debug outside the GUI."@
    } else if title == "Docker"@ {
        "Use the left pane to inspect Docker-compatible containers and stop/delete visible entries."@
    } else if title == "OrbStack"@ {
        "Use the left pane to inspect OrbStack state and manage Docker-compatible containers."@
    } else {
        "Runtime status and diagnostics are shown on the left."@
    }
}

fn section_text(title: &str) -> (result: &'static str)
    ensures
        result@ == section_text_of(title@),
{
    if same(title, "Images") {
        "Create sessions, pull/load images, and keep cleanup separate."
    } else if same(title, "Volumes") {
        "Inspect local volumes. Deletes ask for confirmation."
    } else if same(title, "Displays") {
        "Create managed display windows for scripts and explicit session assignment, or let auto use the default window and allocate dedicated displays."
    } else if same(title, "Activity") {
        "Recent Container Mode actions and runtime output are shown on the left."
    } else if same(title, "Commands") {
        "Copy launch helper commands from the left when you need to debug outside the GUI."
    } else if same(title, "Docker") {
        "Use the left pane to inspect Docker-compatible containers and stop/delete visible entries."
    } else if same(title, "OrbStack") {
        "Use the left pane to inspect OrbStack state and manage Docker-compatible containers."
    } else {
        "Runtime status and diagnostics are shown on the left."
    }
}

/// What a page is for.
pub open spec fn section_detail_items(title: Seq<char>) -> Seq<ItemView> {
    seq![label_item(TextStyle::Hero, title), label_item(TextStyle::Body, section_text_of(title))]
}

pub fn add_section_detail(items: &mut Vec<Item>, title: &str)
    ensures
        final(items).deep_view() == old(items).deep_view() + section_detail_items(title@),
{
    label(items, TextStyle::Hero, title);
    label(items, TextStyle::Body, section_text(title));
}

/// Whether the profile that is shown runs.
pub open spec fn shown_runs(mode: ModeView, shown: Option<usize>) -> Option<usize> {
    match shown {
        Some(index) => if active_of(mode.active_sessions, index) is Some {
            Some(index)
        } else {
            None
        },
        None => None,
    }
}

fn running_shown(mode: &ContainerMode, shown: Option<usize>) -> (result: Option<usize>)
    ensures
        result == shown_runs(mode.deep_view(), shown),
{
    match shown {
        Some(index) => if mode.active_session(index).is_some() {
            Some(index)
        } else {
            None
        },
        None => None,
    }
}

/// What stands above it: a terminal of what runs and the tabs, or a title.
pub open spec fn detail_toolbar_items(mode: ModeView, shown: Option<usize>) -> Seq<ItemView> {
    if mode.selected_nav == NAV_SESSIONS || mode.selected_nav == NAV_RUNNING {
        (match shown_runs(mode, shown) {
            Some(index) => seq![
                button_item(
                    "New Terminal"@,
                    ActionView::At(Command::OpenTerminal, index),
                    true,
                    "Open a terminal in the running application instance"@,
                ),
            ],
            None => seq![
                button_item(
                    "New Terminal"@,
                    ActionView::At(Command::OpenTerminal, 0),
                    false,
                    "Launch an application instance before opening its terminal"@,
                ),
            ],
        }) + tab_bar_items(mode.selected_tab)
    } else {
        seq![label_item(TextStyle::Title, title_of(mode.selected_nav))]
    }
}

pub fn detail_toolbar(items: &mut Vec<Item>, mode: &ContainerMode, shown: Option<usize>)
    ensures
        final(items).deep_view() == old(items).deep_view() + detail_toolbar_items(
            mode.deep_view(),
            shown,
        ),
{
    if mode.selected_nav == NAV_SESSIONS || mode.selected_nav == NAV_RUNNING {
        match running_shown(mode, shown) {
            Some(index) => {
                button(
                    items,
                    "New Terminal",
                    Action::At(Command::OpenTerminal, index),
                    true,
                    "Open a terminal in the running application instance",
                );
            },
            None => {
                button(
                    items,
                    "New Terminal",
                    Action::At(Command::OpenTerminal, 0),
                    false,
                    "Launch an application instance before opening its terminal",
                );
            },
        }
        add_tab_bar(items, mode.selected_tab);
    } else {
        label(items, TextStyle::Title, nav_title(mode.selected_nav));
    }
}

/// What is measured of the machine. The numbers are written as they are shown.
#[derive(Debug)]
pub struct SummaryTexts {
    pub apple_installed: bool,
    pub apple_running: bool,
    pub publish_socket: bool,
    pub frame_rate: Option<String>,
    pub disk_available_gib: Option<String>,
}

/// How everything is doing, in a line.
pub open spec fn runtime_summary_items(summary: SummaryTexts, mode: ModeView) -> Seq<ItemView> {
    seq![
        label_item(TextStyle::Caption, "Apple Mgmt"@),
        fitted_item(
            TextStyle::Heading,
            if !summary.apple_installed {
                "Missing"@
            } else if summary.apple_running { "Running"@ } else { "Installed"@ },
        ),
        label_item(TextStyle::Caption, "GUI Transport"@),
        fitted_item(
            TextStyle::Heading,
            if !summary.apple_installed {
                "Missing"@
            } else if summary.publish_socket { "V2 Ready"@ } else { "Fallback"@ },
        ),
        label_item(TextStyle::Caption, "Display FPS"@),
        fitted_item(
            TextStyle::Heading,
            match summary.frame_rate { Some(rate) => rate@, None => "Waiting"@ },
        ),
        label_item(TextStyle::Caption, "Apple Free"@),
        fitted_item(
            TextStyle::Heading,
            match summary.disk_available_gib {
                Some(space) => space@ + " GiB"@,
                None => "Unknown"@,
            },
        ),
        label_item(TextStyle::Caption, "Tasks"@),
        fitted_item(TextStyle::Heading, decimal(active_tasks(mode.tasks) as nat) + " active"@),
    ]
}

pub fn add_runtime_summary(items: &mut Vec<Item>, summary: &SummaryTexts, mode: &ContainerMode)
    ensures
        final(items).deep_view() == old(items).deep_view() + runtime_summary_items(
            *summary,
            mode.deep_view(),
        ),
{
    let running: usize = mode.tasks.active_task_count();
    label(items, TextStyle::Caption, "Apple Mgmt");
    let word = if !summary.apple_installed {
        "Missing".to_owned()
    } else {
        let word = if summary.apple_running {
            "Running"
        } else {
            "Installed"
        };
        word.to_owned()
    };
    fitted(items, TextStyle::Heading, word.as_str());
    label(items, TextStyle::Caption, "GUI Transport");
    let word = if !summary.apple_installed {
        "Missing".to_owned()
    } else {
        let word = if summary.publish_socket {
            "V2 Ready"
        } else {
            "Fallback"
        };
        word.to_owned()
    };
    fitted(items, TextStyle::Heading, word.as_str());
    label(items, TextStyle::Caption, "Display FPS");
    let word = match &summary.frame_rate {
        Some(rate) => {
            rate.as_str().to_owned()
        },
        None => {
            "Waiting".to_owned()
        },
    };
    fitted(items, TextStyle::Heading, word.as_str());
    label(items, TextStyle::Caption, "Apple Free");
    let word = match &summary.disk_available_gib {
        Some(space) => {
            let text = concat(space.as_str(), " GiB");
            text
        },
        None => {
            "Unknown".to_owned()
        },
    };
    fitted(items, TextStyle::Heading, word.as_str());
    label(items, TextStyle::Caption, "Tasks");
    let number = count_text(running);
    let text = concat(number.as_str(), " active");
    fitted(items, TextStyle::Heading, text.as_str());
}

/// What the panel says of that which is picked, or of the page where nothing is.
pub open spec fn picked_items(
    mode: ModeView,
    sessions: Seq<SessionView>,
    shown: Option<usize>,
    now: u128,
    tags: Seq<Seq<char>>,
    usage: UsageView,
    metadata: VolumeMetadataView,
    preview: Seq<Seq<char>>,
) -> Seq<ItemView> {
    match detail_page_of(mode, mode.selected_nav, shown) {
        DetailPage::Session(index) => if index < sessions.len() {
            session_detail_items(mode, sessions[index as int], index, mode.selected_tab, now)
        } else {
            Seq::<ItemView>::empty()
        },
        DetailPage::NoSelection => seq![
            label_item(TextStyle::Hero, "No Selection"@),
            label_item(TextStyle::Body, empty_message_of(mode.selected_tab)),
        ],
        DetailPage::Image => image_detail_items(
            mode.selected_image->0,
            tags,
            mode,
            sessions,
            preview,
        ),
        DetailPage::Volume => volume_detail_items(
            mode.selected_volume->0,
            usage,
            metadata,
            preview,
        ),
        DetailPage::Container => runtime_container_detail_items(
            mode.selected_container->0,
            mode.container_details,
        ),
        DetailPage::Section => section_detail_items(title_of(mode.selected_nav)),
    }
}

/// What stands beside a page: a toolbar, what is picked, and how everything is
/// doing.
pub open spec fn detail_panel_items(
    mode: ModeView,
    sessions: Seq<SessionView>,
    shown: Option<usize>,
    now: u128,
    tags: Seq<Seq<char>>,
    usage: UsageView,
    metadata: VolumeMetadataView,
    preview: Seq<Seq<char>>,
    summary: SummaryTexts,
) -> Seq<ItemView> {
    detail_toolbar_items(mode, shown) + picked_items(
        mode,
        sessions,
        shown,
        now,
        tags,
        usage,
        metadata,
        preview,
    ) + runtime_summary_items(summary, mode)
}

/// What stands beside a page. `tags` are the references of the picked image,
/// `usage` and `metadata` tell of the picked volume, and `preview` holds the first
/// lines of what the runtime says of the one or the other.
pub fn add_detail_panel(
    items: &mut Vec<Item>,
    mode: &ContainerMode,
    sessions: &Vec<ContainerSession>,
    shown: Option<usize>,
    now: u128,
    tags: &Vec<String>,
    usage: &VolumeUsage,
    metadata: &VolumeMetadata,
    preview: &Vec<String>,
    summary: &SummaryTexts,
)
    ensures
        final(items).deep_view() == old(items).deep_view() + detail_panel_items(
            mode.deep_view(),
            sessions.deep_view(),
            shown,
            now,
            tags.deep_view(),
            usage.deep_view(),
            metadata.deep_view(),
            preview.deep_view(),
            *summary,
        ),
{
    assert(sessions.deep_view().len() == sessions@.len());
    detail_toolbar(items, mode, shown);
    match detail_page(mode, mode.selected_nav, shown) {
        DetailPage::Session(index) => if index < sessions.len() {
            assert(sessions.deep_view()[index as int] == sessions@[index as int].deep_view());
            add_session_detail(items, mode, &sessions[index], index, mode.selected_tab, now);
        },
        DetailPage::NoSelection => {
            label(items, TextStyle::Hero, "No Selection");
            label(items, TextStyle::Body, detail_empty_message(mode.selected_tab));
        },
        DetailPage::Image => if let Some(image) = &mode.selected_image {
            add_image_detail(items, image, tags, mode, sessions, preview);
        },
        DetailPage::Volume => if let Some(volume) = &mode.selected_volume {
            add_volume_detail(items, volume, usage, metadata, preview);
        },
        DetailPage::Container => if let Some(container) = &mode.selected_container {
            add_runtime_container_detail(items, container, &mode.container_details);
        },
        DetailPage::Section => {
            add_section_detail(items, nav_title(mode.selected_nav));
        },
    }
    add_runtime_summary(items, summary, mode);
}

// ---------------------------------------------------------------------------
// Menus
// ---------------------------------------------------------------------------
/// What the menu of a profile does.
#[derive(Clone, Copy, Debug, PartialEq, Eq, Structural)]
pub enum ProfileChoice {
    Duplicate,
    Export,
    ViewRaw,
    Delete,
}

/// The entry of the menu of a profile that was picked. The first entry is its
/// title.
pub fn application_profile_more_action(selected: isize) -> (result: Option<ProfileChoice>)
    ensures
        result == (if selected == 1 {
            Some(ProfileChoice::Duplicate)
        } else if selected == 2 {
            Some(ProfileChoice::Export)
        } else if selected == 3 {
            Some(ProfileChoice::ViewRaw)
        } else if selected == 4 {
            Some(ProfileChoice::Delete)
        } else {
            None
        }),
{
    if selected == 1 {
        Some(ProfileChoice::Duplicate)
    } else if selected == 2 {
        Some(ProfileChoice::Export)
    } else if selected == 3 {
        Some(ProfileChoice::ViewRaw)
    } else if selected == 4 {
        Some(ProfileChoice::Delete)
    } else {
        None
    }
}

/// The entry of the menu of an image that was picked: whether a tag is to go, or
/// the image. The first entry is its title.
pub fn image_more_action(selected: isize, reference: &str) -> (result: Option<bool>)
    ensures
        result == (if selected == 0 {
            None
        } else {
            Some(selected == 1 && is_tagged(reference@))
        }),
{
    if selected == 0 {
        None
    } else {
        Some(selected == 1 && image_reference_has_tag(reference))
    }
}

/// The name under which a profile is exported.
pub fn export_file_name(session: &ContainerSession) -> (result: String)
    ensures
        result@ == slug_of(session.name@, "display"@) + ".toml"@,
{
    let slug = display_slot_slug(session.name.as_str());
    concat(slug.as_str(), ".toml")
}

/// The requests to stop several applications, one after the other.
pub open spec fn stops_remembered(
    mode: ModeView,
    sessions: Seq<SessionView>,
    indices: Seq<usize>,
    now: u128,
) -> ModeView
    decreases indices.len(),
{
    if indices.len() == 0 {
        mode
    } else {
        stop_remembered(
            stops_remembered(mode, sessions, indices.drop_last(), now),
            sessions,
            indices.last(),
            now,
        )
    }
}

/// Stops Apple Container: first all that runs on it, by force.
pub fn stop_apple_container_system(
    mode: &mut ContainerMode,
    sessions: &Vec<ContainerSession>,
    running: &Vec<usize>,
    now: u128,
) -> (result: Vec<Effect>)
    requires
        old(mode).well_formed(),
        forall|i: int| 0 <= i < running@.len() ==> #[trigger] running@[i] < usize::MAX,
    ensures
        final(mode).well_formed(),
        final(mode).deep_view() == stops_remembered(
            old(mode).deep_view(),
            sessions.deep_view(),
            running@,
            now,
        ),
        result.deep_view() == running@.map_values(
            |index: usize| EffectView::ForceStopSession(index),
        ) + seq![
            EffectView::RuntimeAction { runtime: "apple"@, action: "stop"@ },
            EffectView::Rebuild,
        ],
{
    let ghost start = mode.deep_view();
    let ghost stops = running@.map_values(|index: usize| EffectView::ForceStopSession(index));
    let mut effects: Vec<Effect> = Vec::new();
    assert(effects.deep_view() == stops.take(0));
    assert(running@.take(0).len() == 0);
    for i in 0..running.len()
        invariant
            mode.well_formed(),
            forall|j: int| 0 <= j < running@.len() ==> #[trigger] running@[j] < usize::MAX,
            stops == running@.map_values(|index: usize| EffectView::ForceStopSession(index)),
            mode.deep_view() == stops_remembered(
                start,
                sessions.deep_view(),
                running@.take(i as int),
                now,
            ),
            effects.deep_view() == stops.take(i as int),
    {
        assert(running@.take(i + 1).drop_last() == running@.take(i as int));
        remember_stop_request(mode, sessions, running[i], now);
        push_deep(&mut effects, Effect::ForceStopSession(running[i]));
        assert(effects.deep_view() == stops.take(i + 1));
    }
    assert(running@.take(running@.len() as int) == running@);
    assert(stops.take(stops.len() as int) == stops);
    push_deep(
        &mut effects,
        Effect::RuntimeAction { runtime: "apple".to_owned(), action: "stop".to_owned() },
    );
    push_deep(&mut effects, Effect::Rebuild);
    effects
}

} // verus!
