//! What a page of the container window is made of, in the order in which it is
//! read. Where the parts stand is left to the window.
use vstd::prelude::*;
use vstd::string::*;

use crate::text::push_deep;

verus! {

/// How a text is set.
#[derive(Clone, Copy, Debug, PartialEq, Eq, Structural)]
pub enum TextStyle {
    Hero,
    Title,
    Heading,
    Section,
    Body,
    Caption,
    Mono,
}

/// What can be asked for on a page.
#[derive(Clone, Copy, Debug, PartialEq, Eq, Structural)]
pub enum Command {
    /// Shows the page with a number.
    SelectNav,
    /// Shows the tab with a number.
    SelectTab,
    OpenSettings,
    Reload,
    ClearActivity,
    OpenConfig,
    /// Opens the form for a new profile.
    AddSession,
    RestoreExample,
    /// Each of these acts on the profile with a number.
    SelectSession,
    CheckSession,
    LaunchSession,
    StopSession,
    ForceStopSession,
    EditSession,
    /// A menu: duplicate, export, show or delete a profile.
    ProfileMenu,
    /// A menu: show a profile as a desktop or window by window.
    ChangePresentation,
    ViewRawConfig,
    CopyDiagnostics,
    OpenTerminal,
    BuildSessionImage,
    LoadSessionImage,
    PullSessionImage,
    CopyBuildCommand,
    PullImage,
    LoginRegistry,
    BuildExample,
    LoadImage,
    DeleteImage,
    /// With the runtime, its key, the reference and the label of an image.
    SelectImage,
    /// With the key of a runtime and the reference of an image.
    CreateFromImage,
    /// A menu: with the key of a runtime, the reference of an image, and its number
    /// where it is known.
    ImageMenu,
    CreateVolume,
    /// With the runtime, its key, the name and the label of a volume.
    SelectVolume,
    /// With the key of a runtime and the name of a volume.
    DeleteVolume,
    CreateDisplay,
    /// Each of these with the slot of a display.
    FocusDisplay,
    CopyConnection,
    CloseDisplay,
    /// Stops the instance of the profile with a number.
    ReleaseDisplay,
    OpenDataRoot,
    OpenOrbStack,
    OpenReleases,
    StartAppleSystem,
    StopAppleSystem,
    /// Copies the useful command with a number.
    CopyCommand,
    /// With the name of a context.
    UseContext,
    StartOrbStack,
    StopOrbStack,
    /// Each of these with the name of a machine.
    StartMachine,
    StopMachine,
    OpenMachineTerminal,
    DeleteMachine,
    /// With the runtime, the name and the label of a container, and whether it is
    /// running or stopped.
    SelectContainer,
    /// Each of these with the runtime and the name of a container.
    StartContainer,
    StopContainer,
    RestartContainer,
    OpenContainerTerminal,
    DeleteContainer,
    RefreshContainer,
}

/// What happens when a part of a page is used.
#[derive(Debug)]
pub enum Action {
    Do(Command),
    At(Command, usize),
    With(Command, Vec<String>),
}

pub enum ActionView {
    Do(Command),
    At(Command, usize),
    With(Command, Seq<Seq<char>>),
}

impl DeepView for Action {
    type V = ActionView;

    open spec fn deep_view(&self) -> ActionView {
        match self {
            Action::Do(command) => ActionView::Do(*command),
            Action::At(command, index) => ActionView::At(*command, *index),
            Action::With(command, texts) => ActionView::With(*command, texts.deep_view()),
        }
    }
}

/// A part of a page.
#[derive(Debug)]
pub enum Item {
    /// What follows stands on a card; the picked one is marked.
    Card { marked: bool },
    Label { style: TextStyle, text: String },
    /// A text that is shortened to the width there is.
    Fitted { style: TextStyle, text: String },
    /// A text that is explained by another.
    Noted { style: TextStyle, text: String, note: String },
    /// A text that is followed by the frame rate of a display.
    Live { style: TextStyle, text: String, slot: String },
    /// A name and its value.
    Row { name: String, value: String },
    /// The last rows of lines that are wrapped to the width there is.
    Lines { lines: Vec<String>, rows: usize },
    /// A button, with what is said of it, if anything.
    Button { title: String, action: Action, enabled: bool, tooltip: String },
    /// A menu of which one entry is shown.
    Menu {
        options: Vec<String>,
        selected: usize,
        action: Action,
        enabled: bool,
        tooltip: String,
    },
    /// The whole card can be used.
    Area { action: Action },
}

pub enum ItemView {
    Card { marked: bool },
    Label { style: TextStyle, text: Seq<char> },
    Fitted { style: TextStyle, text: Seq<char> },
    Noted { style: TextStyle, text: Seq<char>, note: Seq<char> },
    Live { style: TextStyle, text: Seq<char>, slot: Seq<char> },
    Row { name: Seq<char>, value: Seq<char> },
    Lines { lines: Seq<Seq<char>>, rows: usize },
    Button { title: Seq<char>, action: ActionView, enabled: bool, tooltip: Seq<char> },
    Menu {
        options: Seq<Seq<char>>,
        selected: usize,
        action: ActionView,
        enabled: bool,
        tooltip: Seq<char>,
    },
    Area { action: ActionView },
}

impl DeepView for Item {
    type V = ItemView;

    open spec fn deep_view(&self) -> ItemView {
        match self {
            Item::Card { marked } => ItemView::Card { marked: *marked },
            Item::Label { style, text } => ItemView::Label { style: *style, text: text@ },
            Item::Fitted { style, text } => ItemView::Fitted { style: *style, text: text@ },
            Item::Noted { style, text, note } => ItemView::Noted {
                style: *style,
                text: text@,
                note: note@,
            },
            Item::Live { style, text, slot } => ItemView::Live {
                style: *style,
                text: text@,
                slot: slot@,
            },
            Item::Row { name, value } => ItemView::Row { name: name@, value: value@ },
            Item::Lines { lines, rows } => ItemView::Lines {
                lines: lines.deep_view(),
                rows: *rows,
            },
            Item::Button { title, action, enabled, tooltip } => ItemView::Button {
                title: title@,
                action: action.deep_view(),
                enabled: *enabled,
                tooltip: tooltip@,
            },
            Item::Menu { options, selected, action, enabled, tooltip } => ItemView::Menu {
                options: options.deep_view(),
                selected: *selected,
                action: action.deep_view(),
                enabled: *enabled,
                tooltip: tooltip@,
            },
            Item::Area { action } => ItemView::Area { action: action.deep_view() },
        }
    }
}

// ---------------------------------------------------------------------------
// Short forms
// ---------------------------------------------------------------------------
pub open spec fn card_item(marked: bool) -> ItemView {
    ItemView::Card { marked }
}

pub open spec fn label_item(style: TextStyle, text: Seq<char>) -> ItemView {
    ItemView::Label { style, text }
}

pub open spec fn fitted_item(style: TextStyle, text: Seq<char>) -> ItemView {
    ItemView::Fitted { style, text }
}

pub open spec fn noted_item(style: TextStyle, text: Seq<char>, note: Seq<char>) -> ItemView {
    ItemView::Noted { style, text, note }
}

pub open spec fn live_item(style: TextStyle, text: Seq<char>, slot: Seq<char>) -> ItemView {
    ItemView::Live { style, text, slot }
}

pub open spec fn row_item(name: Seq<char>, value: Seq<char>) -> ItemView {
    ItemView::Row { name, value }
}

pub open spec fn lines_item(lines: Seq<Seq<char>>, rows: usize) -> ItemView {
    ItemView::Lines { lines, rows }
}

pub open spec fn button_item(
    title: Seq<char>,
    action: ActionView,
    enabled: bool,
    tooltip: Seq<char>,
) -> ItemView {
    ItemView::Button { title, action, enabled, tooltip }
}

pub open spec fn menu_item(
    options: Seq<Seq<char>>,
    selected: usize,
    action: ActionView,
    enabled: bool,
    tooltip: Seq<char>,
) -> ItemView {
    ItemView::Menu { options, selected, action, enabled, tooltip }
}

pub open spec fn area_item(action: ActionView) -> ItemView {
    ItemView::Area { action }
}

pub fn card(items: &mut Vec<Item>, marked: bool)
    ensures
        final(items).deep_view() == old(items).deep_view().push(card_item(marked)),
{
    push_deep(items, Item::Card { marked });
}

pub fn label(items: &mut Vec<Item>, style: TextStyle, text: &str)
    ensures
        final(items).deep_view() == old(items).deep_view().push(label_item(style, text@)),
{
    push_deep(items, Item::Label { style, text: text.to_owned() });
}

pub fn fitted(items: &mut Vec<Item>, style: TextStyle, text: &str)
    ensures
        final(items).deep_view() == old(items).deep_view().push(fitted_item(style, text@)),
{
    push_deep(items, Item::Fitted { style, text: text.to_owned() });
}

pub fn noted(items: &mut Vec<Item>, style: TextStyle, text: &str, note: &str)
    ensures
        final(items).deep_view() == old(items).deep_view().push(noted_item(style, text@, note@)),
{
    push_deep(items, Item::Noted { style, text: text.to_owned(), note: note.to_owned() });
}

pub fn live(items: &mut Vec<Item>, style: TextStyle, text: &str, slot: &str)
    ensures
        final(items).deep_view() == old(items).deep_view().push(live_item(style, text@, slot@)),
{
    push_deep(items, Item::Live { style, text: text.to_owned(), slot: slot.to_owned() });
}

pub fn row(items: &mut Vec<Item>, name: &str, value: &str)
    ensures
        final(items).deep_view() == old(items).deep_view().push(row_item(name@, value@)),
{
    push_deep(items, Item::Row { name: name.to_owned(), value: value.to_owned() });
}

pub fn wrapped_lines(items: &mut Vec<Item>, lines: Vec<String>, rows: usize)
    ensures
        final(items).deep_view() == old(items).deep_view().push(
            lines_item(lines.deep_view(), rows),
        ),
{
    push_deep(items, Item::Lines { lines, rows });
}

pub fn button(items: &mut Vec<Item>, title: &str, action: Action, enabled: bool, tooltip: &str)
    ensures
        final(items).deep_view() == old(items).deep_view().push(
            button_item(title@, action.deep_view(), enabled, tooltip@),
        ),
{
    push_deep(
        items,
        Item::Button { title: title.to_owned(), action, enabled, tooltip: tooltip.to_owned() },
    );
}

pub fn menu(
    items: &mut Vec<Item>,
    options: Vec<String>,
    selected: usize,
    action: Action,
    enabled: bool,
    tooltip: &str,
)
    ensures
        final(items).deep_view() == old(items).deep_view().push(
            menu_item(options.deep_view(), selected, action.deep_view(), enabled, tooltip@),
        ),
{
    push_deep(
        items,
        Item::Menu { options, selected, action, enabled, tooltip: tooltip.to_owned() },
    );
}

pub fn area(items: &mut Vec<Item>, action: Action)
    ensures
        final(items).deep_view() == old(items).deep_view().push(area_item(action.deep_view())),
{
    push_deep(items, Item::Area { action });
}

/// The first of a list, at most so many.
pub open spec fn first_of<A>(list: Seq<A>, most: nat) -> Seq<A> {
    if list.len() <= most {
        list
    } else {
        list.take(most as int)
    }
}

/// How many of a list are shown, at most so many.
pub fn shown_count(count: usize, most: usize) -> (result: usize)
    ensures
        result == if count <= most {
            count
        } else {
            most
        },
{
    if count <= most {
        count
    } else {
        most
    }
}

/// The height of a row of details: a value that does not fit on one line has
/// room for a second.
pub fn session_detail_row_height(value: &str, line_chars: usize) -> (result: u32)
    ensures
        result == (if value@.len() > line_chars {
            42u32
        } else {
            26u32
        }),
{
    if value.unicode_len() > line_chars {
        42
    } else {
        26
    }
}

} // verus!
