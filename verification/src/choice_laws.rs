//! What is shown and measured for what was picked.
use vstd::prelude::*;

use crate::container_mode::{
    active_of, resource_key, session_selected, state_of, DetailsView,
    ModeView, SelectedContainerView,
};
use crate::container_sessions::SessionView;
use crate::detail_pages::{
    container_head_items, runtime_container_detail_items, volume_detail_items, image_detail_items,
};
use crate::dialogs::saved_selected;
use crate::display_pages::{fastest, policy_of, summary_source, SampleSource};
use crate::list_laws::law_first_instance_is_found;
use crate::page::{label_item, ActionView, Command, ItemView, TextStyle};
use crate::page_laws::{has_button, is_button, is_said, law_every_profile_has_its_row, says};
use crate::overview_laws::{
    law_page_offers_what_its_parts_do, lemma_on_itself, lemma_on_left, lemma_on_right,
};
use crate::pages::{
    resource_sidebar_items, sidebar_applications_items, sidebar_diagnostics_items,
    sidebar_resources_items, sidebar_runtimes_items,
};
use crate::profiles::{
    defaults_of, display_target, NAV_ACTIVITY, NAV_APPLE_CONTAINER, NAV_COMMANDS, NAV_DISPLAYS,
    NAV_DOCKER, NAV_IMAGES, NAV_RUNNING, NAV_SESSIONS, NAV_VOLUMES,
};
use crate::records::already_running_detail;
use crate::session_pages::{
    session_detail_items, session_row_buttons_items, session_row_items, session_rows_items,
    session_summary_items,
};
use crate::tasks::active_tasks;
use crate::text::{decimal, lemma_occurs, occurs, trimmed};
use crate::window::{
    least_height_of, picked_items, profile_list_items, runtime_summary_items, ListPage,
    SummaryTexts,
};

verus! {

// ---------------------------------------------------------------------------
// What is measured
// ---------------------------------------------------------------------------
/// The fastest of some instances has a rate that none of the others exceeds;
/// there is one where any has been measured.
pub proof fn law_fastest_is_fastest(rates: Seq<Option<i64>>, i: int)
    requires
        rates.len() <= usize::MAX,
        0 <= i < rates.len(),
        rates[i] is Some,
    ensures
        fastest(rates) is Some,
        fastest(rates)->0 < rates.len(),
        rates[fastest(rates)->0 as int] is Some,
        rates[i]->0 <= rates[fastest(rates)->0 as int]->0,
    decreases rates.len(),
{
    let front = rates.drop_last();
    if i < front.len() {
        assert(front[i] == rates[i]);
        law_fastest_is_fastest(front, i);
    } else if fastest(front) is Some {
        lemma_fastest_is_measured(front);
    }
}

proof fn lemma_fastest_is_measured(rates: Seq<Option<i64>>)
    requires
        rates.len() <= usize::MAX,
    ensures
        fastest(rates) matches Some(place) ==> place < rates.len() && rates[place as int] is Some,
    decreases rates.len(),
{
    if rates.len() > 0 {
        lemma_fastest_is_measured(rates.drop_last());
    }
}

/// Where none has been measured, none is the fastest.
pub proof fn law_unmeasured_is_not_fastest(rates: Seq<Option<i64>>)
    requires
        rates.len() <= usize::MAX,
        forall|i: int| 0 <= i < rates.len() ==> rates[i] is None,
    ensures
        fastest(rates) is None,
{
    lemma_fastest_is_measured(rates);
}

/// The summary measures the instance of the picked profile where it has been
/// measured. Where no profile is picked it measures an instance that none
/// exceeds, and where no instance has been measured the program itself, if that
/// has been.
pub proof fn law_summary_measures_what_is_picked(
    mode: ModeView,
    own: bool,
    rates: Seq<Option<i64>>,
    i: int,
)
    requires
        rates.len() == mode.active_sessions.len() <= usize::MAX,
    ensures
        mode.selected_session is Some && (exists|j: int|
            0 <= j < i && #[trigger] mode.active_sessions[j].profile_index
                == mode.selected_session->0) == false && 0 <= i < rates.len()
            && mode.active_sessions[i].profile_index == mode.selected_session->0 && rates[i]
            is Some ==> summary_source(mode, own, rates) == Some(
            SampleSource::Instance(i as usize),
        ),
        mode.selected_session is None && 0 <= i < rates.len() && rates[i] is Some ==> (
        summary_source(mode, own, rates) matches Some(SampleSource::Instance(place)) && place
            < rates.len() && rates[place as int] is Some && rates[i]->0
            <= rates[place as int]->0),
        (forall|j: int| 0 <= j < rates.len() ==> rates[j] is None) ==> summary_source(
            mode,
            own,
            rates,
        ) == (if own {
            Some(SampleSource::Own)
        } else {
            None
        }),
{
    if mode.selected_session is Some {
        law_first_instance_is_found(mode.active_sessions, mode.selected_session->0, i);
    } else if 0 <= i < rates.len() && rates[i] is Some {
        law_fastest_is_fastest(rates, i);
    }
    if forall|j: int| 0 <= j < rates.len() ==> rates[j] is None {
        law_unmeasured_is_not_fastest(rates);
        if mode.selected_session is Some {
            law_first_instance_is_found(mode.active_sessions, mode.selected_session->0, 0);
        }
    }
}

// ---------------------------------------------------------------------------
// What is picked
// ---------------------------------------------------------------------------
/// Picking a profile shows the profiles and that one, and changes nothing else.
/// Saving one picks it the same way.
pub proof fn law_picked_profile_is_shown(mode: ModeView, index: usize)
    ensures
        session_selected(mode, index).selected_session == Some(index),
        session_selected(mode, index).selected_nav == NAV_SESSIONS,
        session_selected(mode, index).active_sessions == mode.active_sessions,
        session_selected(mode, index).tasks == mode.tasks,
        session_selected(mode, index).activity == mode.activity,
        session_selected(mode, index).states == mode.states,
        session_selected(mode, index).selected_tab == mode.selected_tab,
        saved_selected(mode, Some(index)).selected_session == Some(index),
        saved_selected(mode, Some(index)).selected_nav == NAV_SESSIONS,
        saved_selected(mode, None).selected_session is None,
        saved_selected(mode, None).selected_nav == NAV_SESSIONS,
        saved_selected(mode, Some(index)).active_sessions == mode.active_sessions,
        saved_selected(mode, Some(index)).tasks == mode.tasks,
{
}

/// The page of a picked profile is that profile's.
pub proof fn law_detail_is_of_the_picked(
    mode: ModeView,
    sessions: Seq<SessionView>,
    index: usize,
    now: u128,
    tags: Seq<Seq<char>>,
    usage: crate::storage::UsageView,
    metadata: crate::storage::VolumeMetadataView,
    preview: Seq<Seq<char>>,
)
    requires
        index < sessions.len(),
    ensures
        picked_items(mode, sessions, Some(index), now, tags, usage, metadata, preview)
            == session_detail_items(mode, sessions[index as int], index, mode.selected_tab, now),
        mode.selected_nav == NAV_SESSIONS || mode.selected_nav == NAV_RUNNING ==> says(
            picked_items(mode, sessions, None, now, tags, usage, metadata, preview),
            "No Selection"@,
        ),
        mode.selected_nav == NAV_IMAGES && mode.selected_image is Some ==> picked_items(
            mode,
            sessions,
            None,
            now,
            tags,
            usage,
            metadata,
            preview,
        ) == image_detail_items(mode.selected_image->0, tags, mode, sessions, preview),
        mode.selected_nav == NAV_VOLUMES && mode.selected_volume is Some ==> picked_items(
            mode,
            sessions,
            None,
            now,
            tags,
            usage,
            metadata,
            preview,
        ) == volume_detail_items(mode.selected_volume->0, usage, metadata, preview),
{
    if mode.selected_nav == NAV_SESSIONS || mode.selected_nav == NAV_RUNNING {
        let items = picked_items(mode, sessions, None, now, tags, usage, metadata, preview);
        assert(is_said(items[0], "No Selection"@));
    }
}

// ---------------------------------------------------------------------------
// Profiles
// ---------------------------------------------------------------------------
/// The list of profiles has a row for every profile, and the list of what runs
/// for every one that runs; where the profiles cannot be read, it says why and
/// offers to open the file.
pub proof fn law_lists_of_profiles_are_whole(
    sessions: Seq<SessionView>,
    mode: ModeView,
    error: Seq<char>,
    selected: Option<usize>,
    index: usize,
)
    requires
        sessions.len() <= usize::MAX,
    ensures
        index < sessions.len() && (mode.selected_nav == NAV_SESSIONS || active_of(
            mode.active_sessions,
            index,
        ) is Some) ==> profile_list_items(ListPage::Sessions, sessions, mode, error, selected)
            .contains(ItemView::Area { action: ActionView::At(Command::SelectSession, index) }),
        says(profile_list_items(ListPage::ConfigError, sessions, mode, error, selected), error),
        has_button(
            profile_list_items(ListPage::ConfigError, sessions, mode, error, selected),
            ActionView::Do(Command::OpenConfig),
            true,
        ),
        has_button(
            profile_list_items(ListPage::SessionEmpty, sessions, mode, error, selected),
            ActionView::Do(Command::AddSession),
            true,
        ),
        has_button(
            profile_list_items(ListPage::SessionEmpty, sessions, mode, error, selected),
            ActionView::Do(Command::RestoreExample),
            true,
        ),
{
    if index < sessions.len() && (mode.selected_nav == NAV_SESSIONS || active_of(
        mode.active_sessions,
        index,
    ) is Some) {
        law_every_profile_has_its_row(
            sessions,
            mode,
            mode.selected_nav != NAV_SESSIONS,
            selected,
            sessions.len(),
            index,
        );
    }
    let broken = profile_list_items(ListPage::ConfigError, sessions, mode, error, selected);
    assert(is_said(broken[2], error));
    assert(is_button(broken[3], ActionView::Do(Command::OpenConfig), true));
    let none = profile_list_items(ListPage::SessionEmpty, sessions, mode, error, selected);
    assert(is_button(none[3], ActionView::Do(Command::RestoreExample), true));
    assert(is_button(none[4], ActionView::Do(Command::AddSession), true));
}

/// The list of what runs has no row of a profile that does not run.
pub proof fn law_only_what_runs_is_listed(
    sessions: Seq<SessionView>,
    mode: ModeView,
    selected: Option<usize>,
    count: nat,
    index: usize,
)
    requires
        count <= sessions.len() <= usize::MAX,
        session_rows_items(sessions, mode, true, selected, count).contains(
            ItemView::Area { action: ActionView::At(Command::SelectSession, index) },
        ),
    ensures
        active_of(mode.active_sessions, index) is Some,
    decreases count,
{
    let area = ItemView::Area { action: ActionView::At(Command::SelectSession, index) };
    let all = session_rows_items(sessions, mode, true, selected, count);
    let k = choose|k: int| 0 <= k < all.len() && all[k] == area;
    assert(count > 0);
    let front = session_rows_items(sessions, mode, true, selected, (count - 1) as nat);
    if k < front.len() {
        assert(front[k] == area);
        law_only_what_runs_is_listed(sessions, mode, selected, (count - 1) as nat, index);
    } else {
        let last = (count - 1) as usize;
        let row = session_row_items(
            sessions[last as int],
            last,
            selected == Some(last),
            state_of(mode.states, last),
            true,
        );
        assert(active_of(mode.active_sessions, last) is Some);
        assert(row[k - front.len()] == area);
        lemma_row_is_of_one_profile(
            sessions[last as int],
            last,
            selected == Some(last),
            state_of(mode.states, last),
            index,
            k - front.len(),
        );
    }
}

proof fn lemma_row_is_of_one_profile(
    session: SessionView,
    place: usize,
    selected: bool,
    state: Option<crate::container_mode::SessionStateView>,
    index: usize,
    k: int,
)
    requires
        0 <= k < session_row_items(session, place, selected, state, true).len(),
        session_row_items(session, place, selected, state, true)[k] == (ItemView::Area {
            action: ActionView::At(Command::SelectSession, index),
        }),
    ensures
        place == index,
{
    let summary = session_summary_items(session, place, selected, state, true);
    let buttons = session_row_buttons_items(session, place, state, true);
    if k >= summary.len() {
        assert(buttons[k - summary.len()] is Area);
    }
}

/// A profile whose display is left open is given one automatically, one that
/// asks for the default is given that, and any other name asks for a display of
/// its own; the policy says which.
pub proof fn law_policy_follows_the_display(session: SessionView)
    ensures
        session.display is None || trimmed(session.display->0).len() == 0 || trimmed(
            session.display->0,
        ) == "auto"@ ==> policy_of(session) == "Auto allocation"@,
        session.display is Some && trimmed(session.display->0) == "default"@ ==> policy_of(session)
            == "Pinned to built-in display"@,
        display_target(session) != "auto"@ && display_target(session) != "default"@ ==> "Named display: "@
            .is_prefix_of(policy_of(session)),
{
    reveal_strlit("auto");
    reveal_strlit("default");
    reveal_strlit("automatic");
    reveal_strlit("dedicated");
    reveal_strlit("Named display: ");
    assert("auto"@ != "default"@) by {
        assert("auto"@.len() != "default"@.len());
    }
    assert("automatic"@.len() != "default"@.len());
    assert("dedicated"@[1] != "automatic"@[1]);
    assert("dedicated"@.len() != "default"@.len());
}

/// A form that shows a profile shows each of its fields, and the command before
/// the application.
pub proof fn law_defaults_show_the_profile(session: SessionView)
    ensures
        defaults_of(session).name == session.name,
        defaults_of(session).runtime == session.runtime,
        defaults_of(session).image == session.image,
        defaults_of(session).audio == session.audio,
        session.command is Some ==> defaults_of(session).command == session.command->0,
        session.command is None && session.app is Some ==> defaults_of(session).command
            == session.app->0,
        session.display is Some ==> defaults_of(session).display == session.display->0,
        session.presentation is Some ==> defaults_of(session).presentation
            == session.presentation->0,
        session.profile is Some ==> defaults_of(session).profile == session.profile->0,
        session.mounts.len() == 1 ==> defaults_of(session).mounts == session.mounts[0],
        session.env.len() == 1 ==> defaults_of(session).env == session.env[0],
{
    reveal_with_fuel(crate::text::joined, 3);
}

/// A launch that is refused since the profile runs already names the profile.
pub proof fn law_refusal_names_what_runs(sessions: Seq<SessionView>, index: usize)
    ensures
        index < sessions.len() ==> sessions[index as int].name.is_prefix_of(
            already_running_detail(sessions, index),
        ),
        index >= sessions.len() ==> occurs(
            already_running_detail(sessions, index),
            "#"@ + decimal((index + 1) as nat),
        ),
{
    if index >= sessions.len() {
        reveal_strlit("Session #");
        reveal_strlit("#");
        let text = already_running_detail(sessions, index);
        let number = "#"@ + decimal((index + 1) as nat);
        assert(text == text.take(8) + number + " is already running."@);
        lemma_occurs(text.take(8), number, " is already running."@);
    }
}

/// What is done with one thing of a runtime is told apart from what is done with
/// another.
pub proof fn law_operations_on_things_are_told_apart(
    kind: Seq<char>,
    action: Seq<char>,
    runtime: Seq<char>,
    a: Seq<char>,
    b: Seq<char>,
)
    ensures
        resource_key(kind, action, runtime, a) == resource_key(kind, action, runtime, b) <==> a
            == b,
        a.is_suffix_of(resource_key(kind, action, runtime, a)),
        kind.is_prefix_of(resource_key(kind, action, runtime, a)),
{
    let x = resource_key(kind, action, runtime, a);
    let y = resource_key(kind, action, runtime, b);
    let n = x.len() - a.len();
    assert(x.skip(n) == a);
    if x == y {
        assert(y.skip(n) == b);
    }
}

// ---------------------------------------------------------------------------
// The window
// ---------------------------------------------------------------------------
/// The sidebar leads to every page, and to the settings.
pub proof fn law_sidebar_leads_everywhere(session_count: usize, mode: ModeView, compact: bool, nav: usize)
    requires
        nav == NAV_SESSIONS || nav == NAV_RUNNING || nav == NAV_IMAGES || nav == NAV_VOLUMES || nav
            == NAV_DISPLAYS || nav == NAV_APPLE_CONTAINER || nav == NAV_DOCKER || nav
            == NAV_ACTIVITY || nav == NAV_COMMANDS,
    ensures
        resource_sidebar_items(session_count, mode, compact).contains(
            ItemView::Area { action: ActionView::At(Command::SelectNav, nav) },
        ),
        has_button(
            resource_sidebar_items(session_count, mode, compact),
            ActionView::Do(Command::OpenSettings),
            true,
        ),
{
    let page = resource_sidebar_items(session_count, mode, compact);
    let settings = ActionView::Do(Command::OpenSettings);
    assert(is_button(page[page.len() - 1], settings, true));
    let title = seq![label_item(TextStyle::Heading, "Cocoa-Way"@)];
    let a = sidebar_applications_items(session_count, mode, compact);
    let b = sidebar_resources_items(mode, compact);
    let c = sidebar_runtimes_items(mode, compact);
    let d = sidebar_diagnostics_items(mode, compact);
    let end = page.skip(page.len() - 1);
    assert(page == title + a + b + c + d + end);
    let section = if nav == NAV_SESSIONS || nav == NAV_RUNNING {
        a
    } else if nav == NAV_IMAGES || nav == NAV_VOLUMES || nav == NAV_DISPLAYS {
        b
    } else if nav == NAV_APPLE_CONTAINER || nav == NAV_DOCKER {
        c
    } else {
        d
    };
    let area = ItemView::Area { action: ActionView::At(Command::SelectNav, nav) };
    lemma_on_itself(section);
    if section == a {
        lemma_on_right(title, a, section);
        lemma_on_left(title + a, b, section);
        lemma_on_left(title + a + b, c, section);
        lemma_on_left(title + a + b + c, d, section);
    } else if section == b {
        lemma_on_right(title + a, b, section);
        lemma_on_left(title + a + b, c, section);
        lemma_on_left(title + a + b + c, d, section);
    } else if section == c {
        lemma_on_right(title + a + b, c, section);
        lemma_on_left(title + a + b + c, d, section);
    } else {
        lemma_on_right(title + a + b + c, d, section);
    }
    lemma_on_left(title + a + b + c + d, end, section);
    law_page_offers_what_its_parts_do(page, section, settings, true, Seq::empty());
    lemma_section_leads(session_count, mode, compact, nav);
}

proof fn lemma_section_leads(session_count: usize, mode: ModeView, compact: bool, nav: usize)
    ensures
        ({
            let area = ItemView::Area { action: ActionView::At(Command::SelectNav, nav) };
            &&& nav == NAV_SESSIONS || nav == NAV_RUNNING ==> sidebar_applications_items(
                session_count,
                mode,
                compact,
            ).contains(area)
            &&& nav == NAV_IMAGES || nav == NAV_VOLUMES || nav == NAV_DISPLAYS
                ==> sidebar_resources_items(mode, compact).contains(area)
            &&& nav == NAV_APPLE_CONTAINER || nav == NAV_DOCKER ==> sidebar_runtimes_items(
                mode,
                compact,
            ).contains(area)
            &&& nav == NAV_ACTIVITY || nav == NAV_COMMANDS ==> sidebar_diagnostics_items(
                mode,
                compact,
            ).contains(area)
        }),
{
    let area = ItemView::Area { action: ActionView::At(Command::SelectNav, nav) };
    let plain: int = if compact {
        2
    } else {
        3
    };
    let section = if nav == NAV_SESSIONS || nav == NAV_RUNNING {
        sidebar_applications_items(session_count, mode, compact)
    } else if nav == NAV_IMAGES || nav == NAV_VOLUMES || nav == NAV_DISPLAYS {
        sidebar_resources_items(mode, compact)
    } else if nav == NAV_APPLE_CONTAINER || nav == NAV_DOCKER {
        sidebar_runtimes_items(mode, compact)
    } else {
        sidebar_diagnostics_items(mode, compact)
    };
    let own: int = if mode.selected_nav == nav {
        1
    } else {
        0
    };
    if nav == NAV_SESSIONS || nav == NAV_IMAGES || nav == NAV_APPLE_CONTAINER || nav
        == NAV_ACTIVITY {
        assert(section[plain + own] == area);
    } else if nav == NAV_RUNNING || nav == NAV_DOCKER || nav == NAV_COMMANDS || nav
        == NAV_DISPLAYS {
        assert(section[section.len() - 1] == area);
    } else if nav == NAV_VOLUMES {
        let before: int = if mode.selected_nav == NAV_IMAGES {
            1
        } else {
            0
        };
        assert(section[2 * plain + before + own] == area);
    }
}

/// The page of displays grows with every display, and the other lists are as
/// high as what they show.
pub proof fn law_page_grows_with_its_displays(
    mode: ModeView,
    more: ModeView,
    session_count: usize,
    visible: u32,
)
    requires
        more.managed_displays.len() == mode.managed_displays.len() + 1,
        more.pending_displays.len() == mode.pending_displays.len(),
        more.active_sessions.len() == mode.active_sessions.len(),
    ensures
        least_height_of(more, NAV_DISPLAYS, session_count, visible) == least_height_of(
            mode,
            NAV_DISPLAYS,
            session_count,
            visible,
        ) + 150,
        least_height_of(mode, NAV_SESSIONS, session_count, visible) == visible,
        least_height_of(mode, NAV_RUNNING, session_count, visible) == visible,
{
    assert((mode.managed_displays.len() + 1 + mode.pending_displays.len()) * 150 == (
    mode.managed_displays.len() + mode.pending_displays.len()) * 150 + 150) by (nonlinear_arith);
}

/// The line at the end says how many operations are under way and how fast the
/// display is.
pub proof fn law_summary_tells_how_things_are(summary: SummaryTexts, mode: ModeView)
    ensures
        says(
            runtime_summary_items(summary, mode),
            decimal(active_tasks(mode.tasks) as nat) + " active"@,
        ),
        summary.frame_rate matches Some(rate) ==> says(
            runtime_summary_items(summary, mode),
            rate@,
        ),
        summary.disk_available_gib matches Some(space) ==> says(
            runtime_summary_items(summary, mode),
            space@ + " GiB"@,
        ),
        !summary.apple_installed ==> says(runtime_summary_items(summary, mode), "Missing"@),
        summary.apple_installed && summary.apple_running ==> says(
            runtime_summary_items(summary, mode),
            "Running"@,
        ),
        summary.apple_installed && summary.publish_socket ==> says(
            runtime_summary_items(summary, mode),
            "V2 Ready"@,
        ),
        summary.apple_installed && !summary.publish_socket ==> says(
            runtime_summary_items(summary, mode),
            "Fallback"@,
        ),
{
    let items = runtime_summary_items(summary, mode);
    assert(is_said(items[9], decimal(active_tasks(mode.tasks) as nat) + " active"@));
    assert(items[1] is Fitted && items[3] is Fitted && items[5] is Fitted && items[7] is Fitted);
    if summary.frame_rate is Some {
        assert(is_said(items[5], summary.frame_rate->0@));
    }
    if summary.disk_available_gib is Some {
        assert(is_said(items[7], summary.disk_available_gib->0@ + " GiB"@));
    }
    if !summary.apple_installed {
        assert(is_said(items[1], "Missing"@));
    } else {
        if summary.apple_running {
            assert(is_said(items[1], "Running"@));
        }
        assert(is_said(
            items[3],
            if summary.publish_socket {
                "V2 Ready"@
            } else {
                "Fallback"@
            },
        ));
    }
}

/// What is known of a picked container is on its page: what was found out about
/// it, what it uses and what it logged last.
pub proof fn law_page_of_a_container_is_whole(container: SelectedContainerView, details: DetailsView)
    requires
        details.runtime == container.runtime,
        details.name == container.name,
        details.error is None,
        details.info.len() > 0,
    ensures
        ({
            let items = runtime_container_detail_items(container, Some(details));
            &&& exists|i: int|
                0 <= i < items.len() && #[trigger] items[i] is Lines && items[i]->lines
                    == details.info
            &&& exists|i: int|
                0 <= i < items.len() && #[trigger] items[i] is Lines && items[i]->lines
                    == details.stats
            &&& exists|i: int|
                0 <= i < items.len() && #[trigger] items[i] is Lines && items[i]->lines
                    == details.logs
        }),
{
    let items = runtime_container_detail_items(container, Some(details));
    let n = container_head_items(container).len() as int;
    assert(items[n + 2] is Lines && items[n + 2]->lines == details.info);
    assert(items[n + 5] is Lines && items[n + 5]->lines == details.stats);
    assert(items[n + 8] is Lines && items[n + 8]->lines == details.logs);
}

} // verus!
