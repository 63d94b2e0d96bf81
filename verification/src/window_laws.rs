//! Which page the window shows, and what its toolbars, details and dialogs
//! hold.
use vstd::prelude::*;

use crate::actions::stop_remembered;
use crate::container_mode::{
    active_of, ActiveView, DetailsView, ModeView, SelectedContainerView, SelectedImageView,
    SelectedVolumeView,
};
use crate::container_sessions::SessionView;
use crate::detail_pages::{
    container_head_items, details_of, image_rows_items, info_lines_of, mounted_by, names_or_none,
    volume_detail_items,
};
use crate::dialogs::{apple_profiles, runs_on_apple, saved_index, session_fields, FieldKindView};
use crate::page::{ActionView, Command, ItemView};
use crate::page_laws::{has_button, is_button, is_said, says, tells};
use crate::pages::{
    command_card_items, current_step_of, done_steps, list_toolbar_items, nav_item_items,
    operation_card_items, step_at_work, title_of,
};
use crate::profiles::{
    page_of, runtime_key, DefaultsView, NAV_ACTIVITY, NAV_APPLE_CONTAINER, NAV_COMMANDS,
    NAV_DISPLAYS, NAV_DOCKER, NAV_IMAGES, NAV_ORBSTACK, NAV_RUNNING, NAV_SESSIONS, NAV_VOLUMES,
};
use crate::resource_pages::deletable;
use crate::storage::{image_users, name_and_tag, UsageView, VolumeMetadataView};
use crate::tasks::{TaskStepView, TaskView};
use crate::text::joined;
use crate::window::{
    detail_page_of, detail_toolbar_items, list_page_of, stops_remembered, tab_bar_items, DetailPage,
    ListPage,
};

verus! {

// ---------------------------------------------------------------------------
// Pages
// ---------------------------------------------------------------------------
/// Each entry of the sidebar has its own page.
pub proof fn law_page_is_the_one_picked(unreadable: bool, active_count: nat, session_count: nat)
    ensures
        list_page_of(NAV_IMAGES, unreadable, active_count, session_count) == ListPage::Images,
        list_page_of(NAV_VOLUMES, unreadable, active_count, session_count) == ListPage::Volumes,
        list_page_of(NAV_DISPLAYS, unreadable, active_count, session_count) == ListPage::Displays,
        list_page_of(NAV_APPLE_CONTAINER, unreadable, active_count, session_count)
            == ListPage::Runtime,
        list_page_of(NAV_DOCKER, unreadable, active_count, session_count) == ListPage::Runtime,
        list_page_of(NAV_ORBSTACK, unreadable, active_count, session_count) == ListPage::Runtime,
        list_page_of(NAV_ACTIVITY, unreadable, active_count, session_count) == ListPage::Activity,
        list_page_of(NAV_COMMANDS, unreadable, active_count, session_count) == ListPage::Commands,
{
}

/// Profiles are listed where they could be read and where there are any; what
/// runs is listed where anything runs.
pub proof fn law_profiles_are_listed_when_readable(
    nav: usize,
    unreadable: bool,
    active_count: nat,
    session_count: nat,
)
    requires
        nav == NAV_SESSIONS || nav == NAV_RUNNING,
    ensures
        unreadable ==> list_page_of(nav, unreadable, active_count, session_count)
            == ListPage::ConfigError,
        !unreadable && nav == NAV_RUNNING && active_count == 0 ==> list_page_of(
            nav,
            unreadable,
            active_count,
            session_count,
        ) == ListPage::RunningEmpty,
        !unreadable && nav == NAV_SESSIONS && session_count == 0 ==> list_page_of(
            nav,
            unreadable,
            active_count,
            session_count,
        ) == ListPage::SessionEmpty,
        !unreadable && session_count > 0 && (nav == NAV_SESSIONS || active_count > 0)
            ==> list_page_of(nav, unreadable, active_count, session_count) == ListPage::Sessions,
{
}

/// What is picked is shown beside the list that it was picked from.
pub proof fn law_picked_is_shown(mode: ModeView, nav: usize, index: usize)
    ensures
        detail_page_of(mode, nav, Some(index)) == DetailPage::Session(index),
        nav == NAV_SESSIONS || nav == NAV_RUNNING ==> detail_page_of(mode, nav, None)
            == DetailPage::NoSelection,
        detail_page_of(mode, NAV_IMAGES, None) == DetailPage::Image <==> mode.selected_image
            is Some,
        detail_page_of(mode, NAV_VOLUMES, None) == DetailPage::Volume <==> mode.selected_volume
            is Some,
        nav == NAV_APPLE_CONTAINER || nav == NAV_DOCKER || nav == NAV_ORBSTACK ==> (detail_page_of(
            mode,
            nav,
            None,
        ) == DetailPage::Container <==> (mode.selected_container matches Some(container)
            && page_of(container.runtime) == nav)),
{
}

/// The pages have different titles.
pub proof fn law_titles_are_told_apart()
    ensures
        title_of(NAV_SESSIONS) == "Applications"@,
        title_of(NAV_RUNNING) == "Running"@,
        title_of(NAV_IMAGES) == "Images"@,
        title_of(NAV_VOLUMES) == "Volumes"@,
        title_of(NAV_DISPLAYS) == "Displays"@,
        title_of(NAV_APPLE_CONTAINER) == "Apple Container"@,
        title_of(NAV_DOCKER) == "Docker-compatible"@,
        title_of(NAV_ORBSTACK) == "OrbStack"@,
        title_of(NAV_ACTIVITY) == "Activity"@,
        title_of(NAV_COMMANDS) == "Commands"@,
{
}

/// An entry of the sidebar shows its title and leads to its page, and is marked
/// just while it is the page that is shown.
pub proof fn law_entry_leads_to_its_page(
    index: usize,
    title: Seq<char>,
    subtitle: Seq<char>,
    active: bool,
    compact: bool,
)
    ensures
        ({
            let items = nav_item_items(index, title, subtitle, active, compact);
            &&& says(items, title)
            &&& !compact ==> says(items, subtitle)
            &&& items.last() == (ItemView::Area {
                action: ActionView::At(Command::SelectNav, index),
            })
            &&& items.contains(ItemView::Card { marked: true }) <==> active
        }),
{
    let items = nav_item_items(index, title, subtitle, active, compact);
    let k: int = if active {
        1
    } else {
        0
    };
    assert(is_said(items[k], title));
    if !compact {
        assert(is_said(items[k + 1], subtitle));
    }
    if active {
        assert(items[0] == ItemView::Card { marked: true });
    }
}

/// The toolbar of a list names the page and reloads; profiles can be added on
/// their page, and messages cleared on theirs.
pub proof fn law_list_toolbar_suits_its_page(nav: usize)
    ensures
        says(list_toolbar_items(nav), title_of(nav)),
        has_button(list_toolbar_items(nav), ActionView::Do(Command::Reload), true),
        has_button(list_toolbar_items(nav), ActionView::Do(Command::AddSession), true) <==> nav
            == NAV_SESSIONS,
        has_button(list_toolbar_items(nav), ActionView::Do(Command::ClearActivity), true) <==> nav
            == NAV_ACTIVITY,
{
    let items = list_toolbar_items(nav);
    assert(is_said(items[0], title_of(nav)));
    assert(is_button(items[1], ActionView::Do(Command::Reload), true));
    if nav == NAV_SESSIONS {
        assert(is_button(items[2], ActionView::Do(Command::AddSession), true));
    }
    if nav == NAV_ACTIVITY {
        assert(is_button(items[2], ActionView::Do(Command::ClearActivity), true));
    }
}

/// The toolbar beside a list offers a terminal just where what is shown runs,
/// and has the four tabs of a profile.
pub proof fn law_detail_toolbar_offers_a_terminal(mode: ModeView, index: usize, tab: usize)
    requires
        mode.selected_nav == NAV_SESSIONS || mode.selected_nav == NAV_RUNNING,
        tab < 4,
    ensures
        has_button(
            detail_toolbar_items(mode, Some(index)),
            ActionView::At(Command::OpenTerminal, index),
            true,
        ) <==> active_of(mode.active_sessions, index) is Some,
        detail_toolbar_items(mode, Some(index)).contains(
            ItemView::Area { action: ActionView::At(Command::SelectTab, tab) },
        ),
{
    let items = detail_toolbar_items(mode, Some(index));
    let area = ItemView::Area { action: ActionView::At(Command::SelectTab, tab) };
    let bar = tab_bar_items(mode.selected_tab);
    assert(bar[2] == ItemView::Area { action: ActionView::At(Command::SelectTab, 0) });
    assert(bar[4] == ItemView::Area { action: ActionView::At(Command::SelectTab, 1) });
    assert(bar[6] == ItemView::Area { action: ActionView::At(Command::SelectTab, 2) });
    assert(bar[8] == ItemView::Area { action: ActionView::At(Command::SelectTab, 3) });
    assert(items[1 + 2 * (tab as int + 1)] == area);
    if active_of(mode.active_sessions, index) is Some {
        assert(is_button(items[0], ActionView::At(Command::OpenTerminal, index), true));
    }
}

// ---------------------------------------------------------------------------
// Details
// ---------------------------------------------------------------------------
/// A container that is picked can be stopped, restarted and entered while it
/// runs, and started while it does not.
pub proof fn law_picked_container_can_be_handled(container: SelectedContainerView)
    ensures
        ({
            let items = container_head_items(container);
            let names = seq![container.runtime, container.name];
            &&& says(items, container.name)
            &&& has_button(items, ActionView::With(Command::StopContainer, names), true)
                <==> container.running
            &&& has_button(items, ActionView::With(Command::StartContainer, names), true)
                <==> !container.running
            &&& has_button(items, ActionView::With(Command::RestartContainer, names), true)
                <==> container.running
            &&& has_button(items, ActionView::With(Command::OpenContainerTerminal, names), true)
                <==> container.running
            &&& has_button(items, ActionView::With(Command::DeleteContainer, names), true)
            &&& has_button(items, ActionView::Do(Command::RefreshContainer), true)
        }),
{
    let items = container_head_items(container);
    let names = seq![container.runtime, container.name];
    assert(is_said(items[0], container.name));
    assert(is_button(
        items[2],
        if container.running {
            ActionView::With(Command::StopContainer, names)
        } else {
            ActionView::With(Command::StartContainer, names)
        },
        true,
    ));
    assert(is_button(
        items[3],
        ActionView::With(Command::RestartContainer, names),
        container.running,
    ));
    assert(is_button(
        items[4],
        ActionView::With(Command::OpenContainerTerminal, names),
        container.running,
    ));
    assert(is_button(items[5], ActionView::Do(Command::RefreshContainer), true));
    assert(is_button(items[6], ActionView::With(Command::DeleteContainer, names), true));
}

/// What is known of a container is shown of that container alone; what could
/// not be had is said behind the rest.
pub proof fn law_details_are_of_the_container(
    details: DetailsView,
    container: SelectedContainerView,
    other: Seq<char>,
)
    ensures
        details_of(Some(details), container) is Some <==> details.runtime == container.runtime
            && details.name == container.name,
        details_of(Some(details), container) matches Some(found) ==> found == details,
        details.error is None && details.info.len() > 0 ==> info_lines_of(Some(details), other)
            == details.info,
        details.error matches Some(error) ==> info_lines_of(Some(details), other)
            == details.info.push("Warning: "@ + error),
        details.error is None && details.info.len() == 0 ==> info_lines_of(Some(details), other)
            == seq![other],
{
}

/// The details of an image tell its name, its tag and who uses it.
pub proof fn law_image_details_tell_its_users(
    image: SelectedImageView,
    tags: Seq<Seq<char>>,
    mode: ModeView,
    sessions: Seq<SessionView>,
)
    ensures
        ({
            let items = image_rows_items(image, tags, mode, sessions);
            let users = image_users(
                sessions,
                mode.active_sessions,
                image.runtime_key,
                tags,
                false,
            );
            &&& tells(items, "Repository"@, name_and_tag(image.reference).0)
            &&& tells(items, "Tag"@, name_and_tag(image.reference).1)
            &&& tells(items, "Runtime"@, image.runtime)
            &&& users.len() > 0 ==> tells(items, "Applications"@, joined(users, ", "@))
            &&& users.len() == 0 ==> tells(items, "Applications"@, "None"@)
        }),
{
    let items = image_rows_items(image, tags, mode, sessions);
    let users = image_users(sessions, mode.active_sessions, image.runtime_key, tags, false);
    assert(items[2] == ItemView::Row {
        name: "Repository"@,
        value: name_and_tag(image.reference).0,
    });
    assert(items[3] == ItemView::Row { name: "Tag"@, value: name_and_tag(image.reference).1 });
    assert(items[5] == ItemView::Row { name: "Runtime"@, value: image.runtime });
    assert(items[7] == ItemView::Row {
        name: "Applications"@,
        value: names_or_none(users, ", "@),
    });
}

/// The details of a volume tell what is known of it and what uses it, and offer
/// to delete it just where nothing mounts it.
pub proof fn law_volume_details_tell_its_use(
    volume: SelectedVolumeView,
    usage: UsageView,
    metadata: VolumeMetadataView,
    preview: Seq<Seq<char>>,
)
    ensures
        ({
            let items = volume_detail_items(volume, usage, metadata, preview);
            &&& tells(items, "Name"@, volume.name)
            &&& tells(items, "Type / Driver"@, metadata.kind)
            &&& tells(items, "Size"@, metadata.size)
            &&& tells(items, "Created"@, metadata.created)
            &&& tells(items, "Mounted Containers"@, mounted_by(usage))
            &&& deletable(usage) ==> has_button(
                items,
                ActionView::With(Command::DeleteVolume, seq![volume.runtime_key, volume.name]),
                true,
            )
        }),
        !usage.loading && usage.error is None && usage.mounted_containers.len() > 0 ==> mounted_by(
            usage,
        ) == joined(usage.mounted_containers, ", "@),
{
    let items = volume_detail_items(volume, usage, metadata, preview);
    assert(items[5] == ItemView::Row { name: "Name"@, value: volume.name });
    assert(items[7] == ItemView::Row { name: "Type / Driver"@, value: metadata.kind });
    assert(items[8] == ItemView::Row { name: "Size"@, value: metadata.size });
    assert(items[9] == ItemView::Row { name: "Created"@, value: metadata.created });
    assert(items[11] == ItemView::Row { name: "Mounted Containers"@, value: mounted_by(usage) });
    assert(is_button(
        items[2],
        ActionView::With(Command::DeleteVolume, seq![volume.runtime_key, volume.name]),
        deletable(usage),
    ));
}

// ---------------------------------------------------------------------------
// Operations
// ---------------------------------------------------------------------------
/// The steps that are done are counted, list by list.
pub proof fn law_done_steps_are_counted(
    a: Seq<TaskStepView>,
    b: Seq<TaskStepView>,
    step: TaskStepView,
)
    ensures
        done_steps(a + b) == done_steps(a) + done_steps(b),
        done_steps(seq![step]) == (if step.status is Completed {
            1nat
        } else {
            0nat
        }),
    decreases b.len(),
{
    reveal_with_fuel(done_steps, 2);
    assert(seq![step].drop_last().len() == 0);
    if b.len() == 0 {
        assert(a + b == a);
    } else {
        assert((a + b).drop_last() == a + b.drop_last());
        law_done_steps_are_counted(a, b.drop_last(), step);
    }
}

/// The step that is shown is the first that is under way or failed; where there
/// is none, the task is complete or waits.
pub proof fn law_step_at_work_is_shown(task: TaskView, i: int)
    requires
        0 <= i < task.steps.len(),
        task.steps[i].status is Running || task.steps[i].status is Failed,
        forall|k: int|
            0 <= k < i ==> (#[trigger] task.steps[k]).status is Pending || task.steps[k].status
                is Completed,
    ensures
        current_step_of(task) == task.steps[i].name,
{
    lemma_step_at_work(
        task.steps,
        if task.status is Completed {
            "Complete"@
        } else {
            "Queued"@
        },
        i,
    );
}

proof fn lemma_step_at_work(steps: Seq<TaskStepView>, other: Seq<char>, i: int)
    requires
        0 <= i < steps.len(),
        steps[i].status is Running || steps[i].status is Failed,
        forall|k: int|
            0 <= k < i ==> (#[trigger] steps[k]).status is Pending || steps[k].status is Completed,
    ensures
        step_at_work(steps, other) == steps[i].name,
    decreases steps.len(),
{
    if i > 0 {
        assert(steps[0].status is Pending || steps[0].status is Completed);
        let rest = steps.drop_first();
        assert forall|k: int| 0 <= k < i - 1 implies (#[trigger] rest[k]).status is Pending
            || rest[k].status is Completed by {
            assert(rest[k] == steps[k + 1]);
        }
        lemma_step_at_work(rest, other, i - 1);
    }
}

/// An operation is shown with its subject and with what it says.
pub proof fn law_operation_is_shown_with_its_subject(task: TaskView)
    ensures
        says(operation_card_items(task), task.operation + " · "@ + task.subject),
        task.detail matches Some(detail) ==> says(operation_card_items(task), detail),
{
    let items = operation_card_items(task);
    assert(is_said(items[1], task.operation + " · "@ + task.subject));
    if task.detail is Some {
        assert(is_said(items[3], task.detail->0));
    }
}

/// A command is shown as it is copied.
pub proof fn law_command_is_copied_as_shown(command: Seq<char>, index: usize)
    ensures
        says(command_card_items(command, index), command),
        has_button(
            command_card_items(command, index),
            ActionView::At(Command::CopyCommand, index),
            true,
        ),
{
    let items = command_card_items(command, index);
    assert(is_said(items[1], command));
    assert(is_button(items[2], ActionView::At(Command::CopyCommand, index), true));
}

// ---------------------------------------------------------------------------
// Dialogs
// ---------------------------------------------------------------------------
/// The form of a profile is filled in with what is known of it, field by field.
pub proof fn law_form_is_filled_in(defaults: DefaultsView)
    requires
        defaults.runtime.len() > 0,
        defaults.display.len() > 0,
        defaults.profile.len() > 0,
    ensures
        ({
            let fields = session_fields(defaults);
            &&& fields.len() == 10
            &&& fields[0].1 matches FieldKindView::Text { value, .. } && value == defaults.name
            &&& fields[1].1 matches FieldKindView::Text { value, .. } && value == defaults.runtime
            &&& fields[2].1 matches FieldKindView::Text { value, .. } && value == defaults.display
            &&& fields[4].1 matches FieldKindView::Text { value, .. } && value == defaults.profile
            &&& fields[5].1 matches FieldKindView::Text { value, .. } && value == defaults.image
            &&& fields[6].1 matches FieldKindView::Text { value, .. } && value == defaults.command
            &&& fields[7].1 matches FieldKindView::Text { value, .. } && value == defaults.mounts
            &&& fields[8].1 matches FieldKindView::Text { value, .. } && value == defaults.env
            &&& fields[9].1 matches FieldKindView::Choice { selected, .. } && (selected == 1
                <==> defaults.audio)
        }),
{
}

/// The profile that was edited is picked afterwards, and a new one is the last.
pub proof fn law_saved_profile_is_picked(index: usize, count: usize)
    ensures
        saved_index(Some(index), count) == Some(index),
        count > 0 ==> saved_index(None, count) == Some((count - 1) as usize),
        saved_index(None, 0) is None,
{
}

/// Before Apple's runtime is stopped, every profile that runs on it is found,
/// and no other.
pub proof fn law_profiles_on_apple_are_found(
    sessions: Seq<SessionView>,
    active: Seq<ActiveView>,
    count: int,
    index: usize,
)
    requires
        0 <= count <= sessions.len() <= usize::MAX,
    ensures
        apple_profiles(sessions, active, count).contains(index) <==> index < count && active_of(
            active,
            index,
        ) is Some && runtime_key(sessions[index as int].runtime) == "apple"@,
    decreases count,
{
    if count > 0 {
        let before = apple_profiles(sessions, active, count - 1);
        let all = apple_profiles(sessions, active, count);
        law_profiles_on_apple_are_found(sessions, active, count - 1, index);
        if before.contains(index) {
            let k = choose|k: int| 0 <= k < before.len() && before[k] == index;
            assert(all[k] == index);
        }
        if all.contains(index) {
            let k = choose|k: int| 0 <= k < all.len() && all[k] == index;
            if k < before.len() {
                assert(before[k] == index);
            }
        }
        if index == count - 1 && runs_on_apple(sessions, active, count - 1) {
            assert(all[all.len() - 1] == index);
        }
    }
}

/// Stopping some profiles is stopping each of them in turn.
pub proof fn law_stops_are_taken_in_turn(
    mode: ModeView,
    sessions: Seq<SessionView>,
    indices: Seq<usize>,
    index: usize,
    now: u128,
)
    ensures
        stops_remembered(mode, sessions, seq![], now) == mode,
        stops_remembered(mode, sessions, indices.push(index), now) == stop_remembered(
            stops_remembered(mode, sessions, indices, now),
            sessions,
            index,
            now,
        ),
{
    assert(indices.push(index).drop_last() == indices);
}

} // verus!
