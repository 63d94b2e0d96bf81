//! The page of displays, and how fast each of them is drawn.
use vstd::prelude::*;
use vstd::string::*;

use crate::actions::{attached, attachments, display_status, managed_display_status};
use crate::application_model::{display_status_label, DisplayStatus};
use crate::container_mode::{
    name_at, session_name, ActiveSessionSnapshot, ActiveView, ContainerMode,
    ManagedDisplaySnapshot, ManagedView, ModeView,
};
use crate::container_sessions::{ContainerSession, SessionView};
use crate::page::{
    button, button_item, card, card_item, first_of, fitted, fitted_item, label, label_item, live,
    live_item, shown_count, Action, ActionView, Command, Item, ItemView, TextStyle,
};
use crate::profiles::{
    presentation_summary, resolved_session_display_target, resolved_target,
    session_presentation_summary,
};
use crate::text::{
    concat, concat3, concat4, concat5, concat7, count_text, decimal, decimal_text, empty_list,
    has_text, push_deep, same, texts1,
};

verus! {

// ---------------------------------------------------------------------------
// Displays that were made from here
// ---------------------------------------------------------------------------
/// A display that is being made.
pub open spec fn pending_display_items(slot: Seq<char>) -> Seq<ItemView> {
    seq![
        card_item(false),
        label_item(TextStyle::Heading, slot),
        label_item(
            TextStyle::Caption,
            display_status_label(DisplayStatus::Allocating)
                + " · Starting an independent Wayland display window..."@,
        ),
    ]
}

pub fn pending_display(items: &mut Vec<Item>, slot: &str)
    ensures
        final(items).deep_view() == old(items).deep_view() + pending_display_items(slot@),
{
    card(items, false);
    label(items, TextStyle::Heading, slot);
    let text = concat(
        DisplayStatus::Allocating.label(),
        " · Starting an independent Wayland display window...",
    );
    label(items, TextStyle::Caption, text.as_str());
}

/// The displays that are being made.
pub open spec fn pending_displays_items(slots: Seq<Seq<char>>) -> Seq<ItemView>
    decreases slots.len(),
{
    if slots.len() == 0 {
        Seq::empty()
    } else {
        pending_displays_items(slots.drop_last()) + pending_display_items(slots.last())
    }
}

pub fn pending_displays(items: &mut Vec<Item>, slots: &Vec<String>)
    ensures
        final(items).deep_view() == old(items).deep_view() + pending_displays_items(
            slots.deep_view(),
        ),
{
    let ghost before = items.deep_view();
    let ghost all = slots.deep_view();
    assert(pending_displays_items(all.take(0)) == Seq::<ItemView>::empty());
    for i in 0..slots.len()
        invariant
            all == slots.deep_view(),
            items.deep_view() == before + pending_displays_items(all.take(i as int)),
    {
        pending_display(items, slots[i].as_str());
        assert(all.take(i + 1).drop_last() == all.take(i as int));
        assert(all.take(i + 1).last() == slots@[i as int]@);
    }
    assert(all.take(all.len() as int) == all);
}

/// A display that was made from here. It is not closed while something runs
/// on it.
pub open spec fn managed_display_items(display: ManagedView, mode: ModeView) -> Seq<ItemView> {
    seq![
        card_item(false),
        label_item(TextStyle::Heading, display.slot),
        live_item(
            TextStyle::Caption,
            display_status_label(display_status(mode, display.slot)) + " · "@
                + decimal(attached(mode.active_sessions, display.slot) as nat) + " attachment"@
                + (if attached(mode.active_sessions, display.slot) == 1 { ""@ } else { "s"@ })
                + " · process "@ + decimal(display.pid as nat),
            display.slot,
        ),
        fitted_item(TextStyle::Mono, display.runtime_dir + "/"@ + display.display),
        button_item(
            "Focus Window"@,
            ActionView::With(Command::FocusDisplay, seq![display.slot]),
            !mode.closing_displays.contains(display.slot),
            "Bring this independent display window to the front"@,
        ),
        button_item(
            "Copy Connection"@,
            ActionView::With(Command::CopyConnection, seq![display.slot]),
            !mode.closing_displays.contains(display.slot),
            "Copy a run_waypipe.sh command prefix for this display"@,
        ),
        button_item(
            "Close Display"@,
            ActionView::With(Command::CloseDisplay, seq![display.slot]),
            !mode.closing_displays.contains(display.slot) && attached(mode.active_sessions, display.slot) == 0,
            if attached(mode.active_sessions, display.slot) > 0 {
                "Release the active attachment before closing this display"@
            } else {
                "Close this Cocoa-Way display window"@
            },
        ),
    ]
}

pub fn managed_display(
    items: &mut Vec<Item>,
    display: &ManagedDisplaySnapshot,
    mode: &ContainerMode,
)
    ensures
        final(items).deep_view() == old(items).deep_view() + managed_display_items(
            display.deep_view(),
            mode.deep_view(),
        ),
{
    let count: usize = attachments(mode, display.slot.as_str());
    let closing = has_text(&mode.closing_displays, display.slot.as_str());
    let status = managed_display_status(mode, display.slot.as_str());
    card(items, false);
    label(items, TextStyle::Heading, display.slot.as_str());
    let number = count_text(count);
    let word = if count == 1 {
        ""
    } else {
        "s"
    };
    let number2 = decimal_text(display.pid as u128);
    let text = concat7(
        status.label(),
        " · ",
        number.as_str(),
        " attachment",
        word,
        " · process ",
        number2.as_str(),
    );
    live(items, TextStyle::Caption, text.as_str(), display.slot.as_str());
    let text = concat3(display.runtime_dir.as_str(), "/", display.display.as_str());
    fitted(items, TextStyle::Mono, text.as_str());
    let names = texts1(display.slot.as_str());
    button(
        items,
        "Focus Window",
        Action::With(Command::FocusDisplay, names),
        !closing,
        "Bring this independent display window to the front",
    );
    let names = texts1(display.slot.as_str());
    button(
        items,
        "Copy Connection",
        Action::With(Command::CopyConnection, names),
        !closing,
        "Copy a run_waypipe.sh command prefix for this display",
    );
    let word = if count > 0 {
        "Release the active attachment before closing this display"
    } else {
        "Close this Cocoa-Way display window"
    };
    let names = texts1(display.slot.as_str());
    button(
        items,
        "Close Display",
        Action::With(Command::CloseDisplay, names),
        !closing && count == 0,
        word,
    );
}

/// The displays that were made from here.
pub open spec fn managed_displays_items(
    displays: Seq<ManagedView>,
    mode: ModeView,
) -> Seq<ItemView>
    decreases displays.len(),
{
    if displays.len() == 0 {
        Seq::empty()
    } else {
        managed_displays_items(displays.drop_last(), mode) + managed_display_items(displays.last(), mode)
    }
}

pub fn managed_displays(
    items: &mut Vec<Item>,
    displays: &Vec<ManagedDisplaySnapshot>,
    mode: &ContainerMode,
)
    ensures
        final(items).deep_view() == old(items).deep_view() + managed_displays_items(
            displays.deep_view(), mode.deep_view(),
        ),
{
    let ghost before = items.deep_view();
    let ghost all = displays.deep_view();
    assert(managed_displays_items(all.take(0), mode.deep_view()) == Seq::<ItemView>::empty());
    for i in 0..displays.len()
        invariant
            all == displays.deep_view(),
            items.deep_view() == before + managed_displays_items(all.take(i as int), mode.deep_view()),
    {
        managed_display(items, &displays[i], mode);
        assert(all.take(i + 1).drop_last() == all.take(i as int));
        assert(all.take(i + 1).last() == displays@[i as int].deep_view());
    }
    assert(all.take(all.len() as int) == all);
}

/// What was made from here, and what last went wrong.
pub open spec fn managed_section_items(mode: ModeView) -> Seq<ItemView> {
    seq![
        label_item(TextStyle::Title, "Managed Displays"@),
        button_item("Create Display"@, ActionView::Do(Command::CreateDisplay), true, ""@),
        label_item(
            TextStyle::Caption,
            "Persistent Cocoa-Way windows for explicit local, remote, and application connections."@,
        ),
    ] + pending_displays_items(mode.pending_displays)
        + (if mode.managed_displays.len() == 0 && mode.pending_displays.len() == 0 {
            seq![
                card_item(false),
                label_item(TextStyle::Heading, "No managed displays"@),
                label_item(
                    TextStyle::Caption,
                    "The default display still works. Create one when external and GUI-managed connections need explicit allocation."@,
                ),
            ]
        } else {
            Seq::<ItemView>::empty()
        }) + managed_displays_items(mode.managed_displays, mode)
        + (match mode.display_error {
            Some(error) => seq![
                card_item(false),
                label_item(
                    TextStyle::Heading,
                    "Last display operation · "@ + display_status_label(DisplayStatus::Failed),
                ),
                label_item(TextStyle::Caption, error),
            ],
            None => Seq::<ItemView>::empty(),
        })
}

pub fn managed_section(items: &mut Vec<Item>, mode: &ContainerMode)
    ensures
        final(items).deep_view() == old(items).deep_view() + managed_section_items(
            mode.deep_view(),
        ),
{
    let ghost view = mode.deep_view();
    assert(view.managed_displays.len() == mode.managed_displays@.len());
    assert(view.pending_displays.len() == mode.pending_displays@.len());
    label(items, TextStyle::Title, "Managed Displays");
    button(items, "Create Display", Action::Do(Command::CreateDisplay), true, "");
    label(
        items,
        TextStyle::Caption,
        "Persistent Cocoa-Way windows for explicit local, remote, and application connections.",
    );
    pending_displays(items, &mode.pending_displays);
    if mode.managed_displays.len() == 0 && mode.pending_displays.len() == 0 {
        card(items, false);
        label(items, TextStyle::Heading, "No managed displays");
        label(
            items,
            TextStyle::Caption,
            "The default display still works. Create one when external and GUI-managed connections need explicit allocation.",
        );
    }
    managed_displays(items, &mode.managed_displays, mode);
    if let Some(error) = &mode.display_error {
        card(items, false);
        let text = concat("Last display operation · ", DisplayStatus::Failed.label());
        label(items, TextStyle::Heading, text.as_str());
        label(items, TextStyle::Caption, error.as_str());
    }
}

// ---------------------------------------------------------------------------
// What runs on displays
// ---------------------------------------------------------------------------
/// How the profile of an instance is shown.
pub open spec fn presentation_at(sessions: Seq<SessionView>, index: usize) -> Seq<char> {
    if index < sessions.len() {
        presentation_summary(sessions[index as int])
    } else {
        "unknown"@
    }
}

fn instance_presentation(sessions: &Vec<ContainerSession>, index: usize) -> (result: &'static str)
    ensures
        result@ == presentation_at(sessions.deep_view(), index),
{
    if index < sessions.len() {
        session_presentation_summary(&sessions[index])
    } else {
        "unknown"
    }
}

/// The process of a display, if it has one of its own.
pub open spec fn display_process(pid: Option<u32>) -> Seq<char> {
    match pid {
        Some(pid) => decimal(pid as nat),
        None => "built-in"@,
    }
}

fn display_process_text(pid: Option<u32>) -> (result: String)
    ensures
        result@ == display_process(pid),
{
    match pid {
        Some(pid) => decimal_text(pid as u128),
        None => "built-in".to_owned(),
    }
}

/// An instance and the display that it is on.
pub open spec fn attachment_card_items(
    active: ActiveView,
    sessions: Seq<SessionView>,
) -> Seq<ItemView> {
    seq![
        card_item(false),
        label_item(
            TextStyle::Heading,
            name_at(sessions, active.profile_index, "Unknown application"@),
        ),
        label_item(
            TextStyle::Caption,
            display_status_label(DisplayStatus::Attached) + " · instance #"@
                + decimal(active.id as nat) + " · "@ + active.display_slot + " · "@
                + presentation_at(sessions, active.profile_index),
        ),
        live_item(
            TextStyle::Mono,
            "waypipe "@ + decimal(active.waypipe_pid as nat) + " · display process "@
                + display_process(active.display_pid),
            active.display_slot,
        ),
        button_item(
            "Release Display"@,
            ActionView::At(Command::ReleaseDisplay, active.profile_index),
            true,
            "Stop this application instance and release its display"@,
        ),
    ]
}

pub fn attachment_card(
    items: &mut Vec<Item>,
    active: &ActiveSessionSnapshot,
    sessions: &Vec<ContainerSession>,
)
    ensures
        final(items).deep_view() == old(items).deep_view() + attachment_card_items(
            active.deep_view(),
            sessions.deep_view(),
        ),
{
    card(items, false);
    let name = session_name(sessions, active.profile_index, "Unknown application");
    label(items, TextStyle::Heading, name.as_str());
    let number = decimal_text(active.id as u128);
    let text = concat7(
        DisplayStatus::Attached.label(),
        " · instance #",
        number.as_str(),
        " · ",
        active.display_slot.as_str(),
        " · ",
        instance_presentation(sessions, active.profile_index),
    );
    label(items, TextStyle::Caption, text.as_str());
    let number = decimal_text(active.waypipe_pid as u128);
    let process = display_process_text(active.display_pid);
    let text = concat4("waypipe ", number.as_str(), " · display process ", process.as_str());
    live(items, TextStyle::Mono, text.as_str(), active.display_slot.as_str());
    button(
        items,
        "Release Display",
        Action::At(Command::ReleaseDisplay, active.profile_index),
        true,
        "Stop this application instance and release its display",
    );
}

/// The instances and the displays that they are on.
pub open spec fn attachment_cards_items(
    actives: Seq<ActiveView>,
    sessions: Seq<SessionView>,
) -> Seq<ItemView>
    decreases actives.len(),
{
    if actives.len() == 0 {
        Seq::empty()
    } else {
        attachment_cards_items(actives.drop_last(), sessions) + attachment_card_items(actives.last(), sessions)
    }
}

pub fn attachment_cards(
    items: &mut Vec<Item>,
    actives: &Vec<ActiveSessionSnapshot>,
    sessions: &Vec<ContainerSession>,
)
    ensures
        final(items).deep_view() == old(items).deep_view() + attachment_cards_items(
            actives.deep_view(), sessions.deep_view(),
        ),
{
    let ghost before = items.deep_view();
    let ghost all = actives.deep_view();
    assert(attachment_cards_items(all.take(0), sessions.deep_view()) == Seq::<ItemView>::empty());
    for i in 0..actives.len()
        invariant
            all == actives.deep_view(),
            items.deep_view() == before + attachment_cards_items(all.take(i as int), sessions.deep_view()),
    {
        attachment_card(items, &actives[i], sessions);
        assert(all.take(i + 1).drop_last() == all.take(i as int));
        assert(all.take(i + 1).last() == actives@[i as int].deep_view());
    }
    assert(all.take(all.len() as int) == all);
}

/// What runs, and on which displays.
pub open spec fn attachment_section_items(
    mode: ModeView,
    sessions: Seq<SessionView>,
) -> Seq<ItemView> {
    seq![
        label_item(TextStyle::Title, "Active Attachments"@),
        label_item(
            TextStyle::Caption,
            "Runtime bindings between an application instance and a Cocoa-Way display."@,
        ),
    ]
        + (if mode.active_sessions.len() == 0 {
            seq![
                card_item(false),
                label_item(TextStyle::Heading, "No active display attachments"@),
                label_item(
                    TextStyle::Caption,
                    "Launch an application to allocate a display at runtime."@,
                ),
            ]
        } else {
            attachment_cards_items(mode.active_sessions, sessions)
        })
}

pub fn attachment_section(
    items: &mut Vec<Item>,
    mode: &ContainerMode,
    sessions: &Vec<ContainerSession>,
)
    ensures
        final(items).deep_view() == old(items).deep_view() + attachment_section_items(
            mode.deep_view(),
            sessions.deep_view(),
        ),
{
    assert(mode.deep_view().active_sessions.len() == mode.active_sessions@.len());
    label(items, TextStyle::Title, "Active Attachments");
    label(
        items,
        TextStyle::Caption,
        "Runtime bindings between an application instance and a Cocoa-Way display.",
    );
    if mode.active_sessions.len() == 0 {
        card(items, false);
        label(items, TextStyle::Heading, "No active display attachments");
        label(items, TextStyle::Caption, "Launch an application to allocate a display at runtime.");
    } else {
        attachment_cards(items, &mode.active_sessions, sessions);
    }
}

/// The display that is always there.
pub open spec fn built_in_section_items(mode: ModeView) -> Seq<ItemView> {
    seq![
        label_item(TextStyle::Title, "Built-in Display"@),
        card_item(false),
        label_item(TextStyle::Heading, "Default Display"@),
        label_item(
            TextStyle::Caption,
            display_status_label(
                if attached(mode.active_sessions, "default"@) > 0 {
                    DisplayStatus::Attached
                } else {
                    DisplayStatus::Free
                },
            ) + " · "@ + decimal(attached(mode.active_sessions, "default"@) as nat)
                + " active attachment"@
                + (if attached(mode.active_sessions, "default"@) == 1 { ""@ } else { "s"@ }),
        ),
        label_item(
            TextStyle::Caption,
            "The current Cocoa-Way Metal window. Auto uses it while free, then allocates an isolated display."@,
        ),
    ]
}

pub fn built_in_section(items: &mut Vec<Item>, mode: &ContainerMode)
    ensures
        final(items).deep_view() == old(items).deep_view() + built_in_section_items(
            mode.deep_view(),
        ),
{
    let count: usize = attachments(mode, "default");
    let status = if count > 0 {
        DisplayStatus::Attached
    } else {
        DisplayStatus::Free
    };
    label(items, TextStyle::Title, "Built-in Display");
    card(items, false);
    label(items, TextStyle::Heading, "Default Display");
    let number = count_text(count);
    let word = if count == 1 {
        ""
    } else {
        "s"
    };
    let text = concat5(status.label(), " · ", number.as_str(), " active attachment", word);
    label(items, TextStyle::Caption, text.as_str());
    label(
        items,
        TextStyle::Caption,
        "The current Cocoa-Way Metal window. Auto uses it while free, then allocates an isolated display.",
    );
}

// ---------------------------------------------------------------------------
// Where profiles are shown
// ---------------------------------------------------------------------------
/// On which display a profile is shown.
pub open spec fn policy_of(session: SessionView) -> Seq<char> {
    let target = resolved_target(session);
    if target == "automatic"@ {
        "Auto allocation"@
    } else if target == "default"@ {
        "Pinned to built-in display"@
    } else {
        "Named display: "@ + target
    }
}

fn display_policy(session: &ContainerSession) -> (result: String)
    ensures
        result@ == policy_of(session.deep_view()),
{
    let target = resolved_session_display_target(session);
    if same(target, "automatic") {
        "Auto allocation".to_owned()
    } else if same(target, "default") {
        "Pinned to built-in display".to_owned()
    } else {
        concat("Named display: ", target)
    }
}

/// A profile, on which display it is shown, and how.
pub open spec fn policy_card_items(session: SessionView) -> Seq<ItemView> {
    seq![
        card_item(false),
        label_item(TextStyle::Heading, session.name),
        label_item(
            TextStyle::Caption,
            policy_of(session) + " · "@ + presentation_summary(session) + " presentation"@,
        ),
    ]
}

pub fn policy_card(items: &mut Vec<Item>, session: &ContainerSession)
    ensures
        final(items).deep_view() == old(items).deep_view() + policy_card_items(
            session.deep_view(),
        ),
{
    card(items, false);
    label(items, TextStyle::Heading, session.name.as_str());
    let policy = display_policy(session);
    let text = concat4(
        policy.as_str(),
        " · ",
        session_presentation_summary(session),
        " presentation",
    );
    label(items, TextStyle::Caption, text.as_str());
}

/// The profiles and the displays that they are shown on.
pub open spec fn policy_cards_items(sessions: Seq<SessionView>) -> Seq<ItemView>
    decreases sessions.len(),
{
    if sessions.len() == 0 {
        Seq::empty()
    } else {
        policy_cards_items(sessions.drop_last()) + policy_card_items(sessions.last())
    }
}

pub fn policy_cards(items: &mut Vec<Item>, sessions: &Vec<ContainerSession>, most: usize)
    ensures
        final(items).deep_view() == old(items).deep_view() + policy_cards_items(
            first_of(sessions.deep_view(), most as nat),
        ),
{
    let ghost before = items.deep_view();
    let ghost all = sessions.deep_view();
    let count: usize = shown_count(sessions.len(), most);
    assert(policy_cards_items(all.take(0)) == Seq::<ItemView>::empty());
    for i in 0..count
        invariant
            all == sessions.deep_view(),
            count <= sessions@.len(),
            items.deep_view() == before + policy_cards_items(all.take(i as int)),
    {
        policy_card(items, &sessions[i]);
        assert(all.take(i + 1).drop_last() == all.take(i as int));
        assert(all.take(i + 1).last() == sessions@[i as int].deep_view());
    }
    assert(all.take(count as int) == first_of(all, most as nat));
}

/// Where the first profiles are shown.
pub open spec fn policy_section_items(sessions: Seq<SessionView>) -> Seq<ItemView> {
    seq![
        label_item(TextStyle::Title, "Display Policies"@),
        label_item(
            TextStyle::Caption,
            "Saved profile preferences. Policies do not reserve a display until an instance launches."@,
        ),
    ]
        + (if sessions.len() == 0 {
            seq![
                card_item(false),
                label_item(TextStyle::Heading, "No display policies"@),
                label_item(
                    TextStyle::Caption,
                    "Create an application profile to configure its display policy."@,
                ),
            ]
        } else {
            policy_cards_items(first_of(sessions, 16))
        })
}

pub fn policy_section(items: &mut Vec<Item>, sessions: &Vec<ContainerSession>)
    ensures
        final(items).deep_view() == old(items).deep_view() + policy_section_items(
            sessions.deep_view(),
        ),
{
    assert(sessions.deep_view().len() == sessions@.len());
    label(items, TextStyle::Title, "Display Policies");
    label(
        items,
        TextStyle::Caption,
        "Saved profile preferences. Policies do not reserve a display until an instance launches.",
    );
    if sessions.len() == 0 {
        card(items, false);
        label(items, TextStyle::Heading, "No display policies");
        label(
            items,
            TextStyle::Caption,
            "Create an application profile to configure its display policy.",
        );
    } else {
        policy_cards(items, sessions, 16);
    }
}

/// The page of displays.
pub open spec fn displays_list_items(mode: ModeView, sessions: Seq<SessionView>) -> Seq<ItemView> {
    managed_section_items(mode) + attachment_section_items(mode, sessions)
        + built_in_section_items(mode) + policy_section_items(sessions)
}

pub fn add_displays_list(
    items: &mut Vec<Item>,
    mode: &ContainerMode,
    sessions: &Vec<ContainerSession>,
)
    ensures
        final(items).deep_view() == old(items).deep_view() + displays_list_items(
            mode.deep_view(),
            sessions.deep_view(),
        ),
{
    managed_section(items, mode);
    attachment_section(items, mode, sessions);
    built_in_section(items, mode);
    policy_section(items, sessions);
}

// ---------------------------------------------------------------------------
// How fast displays are drawn
// ---------------------------------------------------------------------------
/// How long a sample of a display of its own process counts.
pub const SAMPLE_LIFETIME_MS: u128 = 5000;

/// Whether a sample is recent enough.
pub fn sample_is_fresh(now: u128, sampled_at: u128) -> (result: bool)
    ensures
        result == (now - sampled_at <= SAMPLE_LIFETIME_MS),
{
    sampled_at >= now || now - sampled_at <= SAMPLE_LIFETIME_MS
}

/// Where the sample of a display comes from: from this process, from that of an
/// instance, or from that of a display that was made from here.
#[derive(Clone, Copy, Debug, PartialEq, Eq, Structural)]
pub enum SampleSource {
    Own,
    Instance(usize),
    Managed(usize),
}

impl DeepView for SampleSource {
    type V = SampleSource;

    open spec fn deep_view(&self) -> SampleSource {
        *self
    }
}

/// The sample of an instance: that of its display, or this process's own where
/// it is on the default display.
pub open spec fn instance_source(
    slot: Seq<char>,
    index: usize,
    sampled: bool,
    own: bool,
) -> Option<SampleSource> {
    if sampled {
        Some(SampleSource::Instance(index))
    } else if slot == "default"@ && own {
        Some(SampleSource::Own)
    } else {
        None
    }
}

/// Picks the sample of an instance. `sampled` says whether its display has a
/// fresh one, `own` whether this process has one.
pub fn performance_for_active_session(
    active: &ActiveSessionSnapshot,
    index: usize,
    sampled: bool,
    own: bool,
) -> (result: Option<SampleSource>)
    ensures
        result == instance_source(active.display_slot@, index, sampled, own),
{
    if sampled {
        Some(SampleSource::Instance(index))
    } else if same(active.display_slot.as_str(), "default") && own {
        Some(SampleSource::Own)
    } else {
        None
    }
}

pub open spec fn is_listed(list: Seq<(Seq<char>, SampleSource)>, slot: Seq<char>) -> bool {
    exists|i: int| 0 <= i < list.len() && (#[trigger] list[i]).0 == slot
}

fn slot_is_listed(list: &Vec<(String, SampleSource)>, slot: &str) -> (result: bool)
    ensures
        result == is_listed(list.deep_view(), slot@),
{
    let ghost all = list.deep_view();
    for i in 0..list.len()
        invariant
            all == list.deep_view(),
            forall|j: int| 0 <= j < i ==> (#[trigger] all[j]).0 != slot@,
    {
        assert(all[i as int].0 == list@[i as int].0@);
        if same(list[i].0.as_str(), slot) {
            return true;
        }
    }
    false
}

/// The displays on which instances are, each once, with the samples to show:
/// `sampled` says of which there is one.
pub open spec fn instance_samples(
    start: Seq<(Seq<char>, SampleSource)>,
    active: Seq<ActiveView>,
    sampled: Seq<bool>,
    own: bool,
) -> Seq<(Seq<char>, SampleSource)>
    decreases active.len(),
{
    if active.len() == 0 {
        start
    } else {
        let before = instance_samples(start, active.drop_last(), sampled, own);
        let index = (active.len() - 1) as usize;
        let slot = active.last().display_slot;
        if slot == "default"@ || is_listed(before, slot) {
            before
        } else {
            match instance_source(slot, index, sampled[index as int], own) {
                Some(source) => before.push((slot, source)),
                None => before,
            }
        }
    }
}

/// The displays that were made from here and are not listed yet, with their
/// samples.
pub open spec fn managed_samples(
    start: Seq<(Seq<char>, SampleSource)>,
    displays: Seq<ManagedView>,
    sampled: Seq<bool>,
) -> Seq<(Seq<char>, SampleSource)>
    decreases displays.len(),
{
    if displays.len() == 0 {
        start
    } else {
        let before = managed_samples(start, displays.drop_last(), sampled);
        let index = (displays.len() - 1) as usize;
        let slot = displays.last().slot;
        if is_listed(before, slot) || !sampled[index as int] {
            before
        } else {
            before.push((slot, SampleSource::Managed(index)))
        }
    }
}

/// All displays of which there is a sample, and where it comes from.
pub open spec fn display_samples(
    mode: ModeView,
    own: bool,
    instances: Seq<bool>,
    managed: Seq<bool>,
) -> Seq<(Seq<char>, SampleSource)> {
    let start = if own {
        seq![("default"@, SampleSource::Own)]
    } else {
        Seq::empty()
    };
    managed_samples(
        instance_samples(start, mode.active_sessions, instances, own),
        mode.managed_displays,
        managed,
    )
}

/// Lists the displays of which there is a sample: `own` says whether this process
/// has one, `instances` and `managed` of which displays there are fresh ones.
pub fn control_display_performance(
    mode: &ContainerMode,
    own: bool,
    instances: &Vec<bool>,
    managed: &Vec<bool>,
) -> (result: Vec<(String, SampleSource)>)
    requires
        instances@.len() == mode.active_sessions@.len(),
        managed@.len() == mode.managed_displays@.len(),
    ensures
        result.deep_view() == display_samples(mode.deep_view(), own, instances@, managed@),
{
    let mut list: Vec<(String, SampleSource)> = Vec::new();
    if own {
        push_deep(&mut list, ("default".to_owned(), SampleSource::Own));
    }
    let ghost start = list.deep_view();
    assert(start == (if own {
        seq![("default"@, SampleSource::Own)]
    } else {
        Seq::empty()
    }));
    let ghost active = mode.active_sessions.deep_view();
    assert(active.take(0).len() == 0);
    for i in 0..mode.active_sessions.len()
        invariant
            active == mode.active_sessions.deep_view(),
            instances@.len() == mode.active_sessions@.len(),
            list.deep_view() == instance_samples(start, active.take(i as int), instances@, own),
    {
        assert(active.take(i + 1).drop_last() == active.take(i as int));
        assert(active.take(i + 1).last() == mode.active_sessions@[i as int].deep_view());
        let slot = mode.active_sessions[i].display_slot.as_str();
        if !same(slot, "default") && !slot_is_listed(&list, slot) {
            if let Some(source) = performance_for_active_session(
                &mode.active_sessions[i],
                i,
                instances[i],
                own,
            ) {
                push_deep(&mut list, (slot.to_owned(), source));
            }
        }
    }
    assert(active.take(active.len() as int) == active);
    let ghost middle = list.deep_view();
    let ghost displays = mode.managed_displays.deep_view();
    assert(displays.take(0).len() == 0);
    for i in 0..mode.managed_displays.len()
        invariant
            displays == mode.managed_displays.deep_view(),
            managed@.len() == mode.managed_displays@.len(),
            list.deep_view() == managed_samples(middle, displays.take(i as int), managed@),
    {
        assert(displays.take(i + 1).drop_last() == displays.take(i as int));
        assert(displays.take(i + 1).last() == mode.managed_displays@[i as int].deep_view());
        let slot = mode.managed_displays[i].slot.as_str();
        if !slot_is_listed(&list, slot) && managed[i] {
            push_deep(&mut list, (slot.to_owned(), SampleSource::Managed(i)));
        }
    }
    assert(displays.take(displays.len() as int) == displays);
    list
}

pub open spec fn each_once(list: Seq<(Seq<char>, SampleSource)>) -> bool {
    forall|i: int, j: int|
        0 <= i < j < list.len() ==> (#[trigger] list[i]).0 != (#[trigger] list[j]).0
}

proof fn lemma_instances_once(
    start: Seq<(Seq<char>, SampleSource)>,
    active: Seq<ActiveView>,
    sampled: Seq<bool>,
    own: bool,
)
    requires
        each_once(start),
    ensures
        each_once(instance_samples(start, active, sampled, own)),
    decreases active.len(),
{
    if active.len() > 0 {
        lemma_instances_once(start, active.drop_last(), sampled, own);
    }
}

proof fn lemma_managed_once(
    start: Seq<(Seq<char>, SampleSource)>,
    displays: Seq<ManagedView>,
    sampled: Seq<bool>,
)
    requires
        each_once(start),
    ensures
        each_once(managed_samples(start, displays, sampled)),
    decreases displays.len(),
{
    if displays.len() > 0 {
        lemma_managed_once(start, displays.drop_last(), sampled);
    }
}

/// No display is listed twice.
pub proof fn law_displays_are_listed_once(
    mode: ModeView,
    own: bool,
    instances: Seq<bool>,
    managed: Seq<bool>,
)
    ensures
        each_once(display_samples(mode, own, instances, managed)),
{
    let start = if own {
        seq![("default"@, SampleSource::Own)]
    } else {
        Seq::empty()
    };
    lemma_instances_once(start, mode.active_sessions, instances, own);
    lemma_managed_once(
        instance_samples(start, mode.active_sessions, instances, own),
        mode.managed_displays,
        managed,
    );
}

// ---------------------------------------------------------------------------
// The sample in the summary
// ---------------------------------------------------------------------------
/// The place of the first instance of a profile.
pub open spec fn instance_place(active: Seq<ActiveView>, profile: usize) -> Option<usize>
    decreases active.len(),
{
    if active.len() == 0 {
        None
    } else {
        match instance_place(active.drop_last(), profile) {
            Some(place) => Some(place),
            None => if active.last().profile_index == profile {
                Some((active.len() - 1) as usize)
            } else {
                None
            },
        }
    }
}

/// The place of the highest rate; of several, the last. The rates are numbers by
/// which samples are ordered; some displays have none.
pub open spec fn fastest(rates: Seq<Option<i64>>) -> Option<usize>
    decreases rates.len(),
{
    if rates.len() == 0 {
        None
    } else {
        let before = fastest(rates.drop_last());
        match (before, rates.last()) {
            (_, None) => before,
            (None, Some(_)) => Some((rates.len() - 1) as usize),
            (Some(place), Some(rate)) => match rates[place as int] {
                Some(best) if rate < best => before,
                _ => Some((rates.len() - 1) as usize),
            },
        }
    }
}

/// The sample in the summary: that of the profile that is picked, or the fastest
/// of all instances, or this process's own.
pub open spec fn summary_source(mode: ModeView, own: bool, rates: Seq<Option<i64>>) -> Option<
    SampleSource,
> {
    let picked = match mode.selected_session {
        Some(profile) => match instance_place(mode.active_sessions, profile) {
            Some(place) => instance_source(
                mode.active_sessions[place as int].display_slot,
                place,
                rates[place as int] is Some,
                own,
            ),
            None => None,
        },
        None => None,
    };
    if picked is Some {
        picked
    } else {
        match fastest(rates) {
            Some(place) => Some(SampleSource::Instance(place)),
            None => if own {
                Some(SampleSource::Own)
            } else {
                None
            },
        }
    }
}

fn find_instance(active: &Vec<ActiveSessionSnapshot>, profile: usize) -> (result: Option<usize>)
    ensures
        result == instance_place(active.deep_view(), profile),
        result matches Some(place) ==> place < active@.len(),
{
    let ghost all = active.deep_view();
    assert(all.take(0).len() == 0);
    let mut found: Option<usize> = None;
    for i in 0..active.len()
        invariant
            all == active.deep_view(),
            found == instance_place(all.take(i as int), profile),
            found matches Some(place) ==> place < i,
    {
        assert(all.take(i + 1).drop_last() == all.take(i as int));
        assert(all.take(i + 1).last() == active@[i as int].deep_view());
        if found.is_none() && active[i].profile_index == profile {
            found = Some(i);
        }
    }
    assert(all.take(all.len() as int) == all);
    found
}

fn find_fastest(rates: &Vec<Option<i64>>) -> (result: Option<usize>)
    ensures
        result == fastest(rates@),
        result matches Some(place) ==> place < rates@.len() && rates@[place as int] is Some,
{
    let ghost all = rates@;
    assert(all.take(0).len() == 0);
    let mut found: Option<usize> = None;
    for i in 0..rates.len()
        invariant
            all == rates@,
            found == fastest(all.take(i as int)),
            found matches Some(place) ==> place < i && all[place as int] is Some,
    {
        assert(all.take(i + 1).drop_last() == all.take(i as int));
        assert(all.take(i + 1).last() == all[i as int]);
        if let Some(rate) = rates[i] {
            let better = match found {
                Some(place) => {
                    assert(all.take(i + 1)[place as int] == all[place as int]);
                    match rates[place] {
                        Some(best) => !(rate < best),
                        None => true,
                    }
                },
                None => true,
            };
            if better {
                found = Some(i);
            }
        }
    }
    assert(all.take(all.len() as int) == all);
    found
}

/// Picks the sample in the summary. `rates` has a number for each instance whose
/// display has a fresh sample, by which the samples are ordered.
pub fn summary_performance_snapshot(mode: &ContainerMode, own: bool, rates: &Vec<Option<i64>>) -> (
    result: Option<SampleSource>)
    requires
        rates@.len() == mode.active_sessions@.len(),
    ensures
        result == summary_source(mode.deep_view(), own, rates@),
{
    if let Some(profile) = mode.selected_session {
        if let Some(place) = find_instance(&mode.active_sessions, profile) {
            assert(mode.deep_view().active_sessions[place as int]
                == mode.active_sessions@[place as int].deep_view());
            let source = performance_for_active_session(
                &mode.active_sessions[place],
                place,
                rates[place].is_some(),
                own,
            );
            if source.is_some() {
                return source;
            }
        }
    }
    match find_fastest(rates) {
        Some(place) => Some(SampleSource::Instance(place)),
        None => if own {
            Some(SampleSource::Own)
        } else {
            None
        },
    }
}

/// No sample is faster than the one that is picked as the fastest, and one is
/// picked if there is any.
pub proof fn law_fastest_is_fastest(rates: Seq<Option<i64>>, i: int)
    requires
        0 <= i < rates.len(),
        rates[i] is Some,
        rates.len() <= usize::MAX,
    ensures
        fastest(rates) matches Some(place) && place < rates.len() && rates[place as int] is Some
            && rates[i]->0 <= rates[place as int]->0,
    decreases rates.len(),
{
    let head = rates.drop_last();
    lemma_fastest_is_sampled(head);
    if i < head.len() {
        assert(head[i] == rates[i]);
        law_fastest_is_fastest(head, i);
    }
    if fastest(head) is Some {
        assert(head[fastest(head)->0 as int] == rates[fastest(head)->0 as int]);
    }
}

proof fn lemma_fastest_is_sampled(rates: Seq<Option<i64>>)
    requires
        rates.len() <= usize::MAX,
    ensures
        fastest(rates) matches Some(place) ==> place < rates.len() && rates[place as int] is Some,
    decreases rates.len(),
{
    if rates.len() > 0 {
        let head = rates.drop_last();
        lemma_fastest_is_sampled(head);
        if fastest(head) is Some {
            assert(head[fastest(head)->0 as int] == rates[fastest(head)->0 as int]);
        }
    }
}

// ---------------------------------------------------------------------------
// The instances
// ---------------------------------------------------------------------------
/// The instances that run, as they are reported.
pub fn control_active_sessions(mode: &ContainerMode) -> (result: Vec<ActiveSessionSnapshot>)
    ensures
        result.deep_view() == mode.deep_view().active_sessions,
{
    let mut result: Vec<ActiveSessionSnapshot> = empty_list();
    let ghost all = mode.active_sessions.deep_view();
    for i in 0..mode.active_sessions.len()
        invariant
            all == mode.active_sessions.deep_view(),
            result.deep_view() == all.take(i as int),
    {
        assert(all.take(i + 1) == all.take(i as int).push(mode.active_sessions@[i as int].deep_view()));
        push_deep(&mut result, mode.active_sessions[i].clone());
    }
    assert(all.take(all.len() as int) == all);
    result
}

} // verus!
