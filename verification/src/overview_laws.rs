//! What the pages that list many things show of each of them.
use vstd::prelude::*;

use crate::container_mode::{ModeView, SelectedContainerView, SelectedVolumeView};
use crate::container_sessions::SessionView;
use crate::diagnostics::ClipboardView;
use crate::display_pages::{
    attachment_cards_items, attachment_section_items, built_in_section_items, displays_list_items,
    managed_displays_items, managed_section_items, pending_display_items, pending_displays_items,
    policy_card_items, policy_cards_items, policy_of, policy_section_items,
};
use crate::inventory::{ContextRowView, MachineRowView};
use crate::page::{first_of, ActionView, Command, ItemView, TextStyle};
use crate::page_laws::{has_button, is_button, is_said, says};
use crate::pages::{
    activity_lines_items, activity_list_items, all_command_items, commands_list_items,
    operation_card_items, operation_cards_items, performance_card_items, PerformanceTexts,
    ResourceTexts,
};
use crate::profiles::{NAV_APPLE_CONTAINER, NAV_DOCKER};
use crate::resource_pages::{
    volume_cards_items, volume_shelf_items, volume_shelves_items, volumes_list_items,
    VolumeShelfView,
};
use crate::runtime_pages::{
    apple_container_inventory_items, apple_container_system_controls_items, check_card_items,
    check_cards_items, compatibility_card_items, docker_container_inventory_items,
    docker_context_inventory_items, docker_context_items, docker_contexts_items, mono_lines_items,
    orbstack_machine_row_items, orbstack_machine_rows_items, orbstack_provider_items,
    runtime_container_rows_items, runtime_list_items, runtime_missing_items, runtime_start_items,
    transport_card_items, RuntimeCheckView, RuntimePageView,
};
use crate::tasks::TaskView;
use crate::text::{decimal, lemma_occurs, occurs};

verus! {

// ---------------------------------------------------------------------------
// Parts of a page
// ---------------------------------------------------------------------------
/// Whether items stand on a page, one behind the other.
#[verifier::opaque]
pub open spec fn is_on(page: Seq<ItemView>, part: Seq<ItemView>) -> bool {
    exists|i: int|
        0 <= i <= page.len() - part.len() && #[trigger] page.subrange(i, i + part.len()) == part
}

pub proof fn lemma_on_itself(part: Seq<ItemView>)
    ensures
        is_on(part, part),
{
    reveal(is_on);
    assert(part.subrange(0, 0int + part.len()) == part);
}

pub proof fn lemma_on_left(a: Seq<ItemView>, b: Seq<ItemView>, part: Seq<ItemView>)
    requires
        is_on(a, part),
    ensures
        is_on(a + b, part),
{
    reveal(is_on);
    let i = choose|i: int|
        0 <= i <= a.len() - part.len() && #[trigger] a.subrange(i, i + part.len()) == part;
    assert((a + b).subrange(i, i + part.len()) == a.subrange(i, i + part.len()));
}

pub proof fn lemma_on_right(a: Seq<ItemView>, b: Seq<ItemView>, part: Seq<ItemView>)
    requires
        is_on(b, part),
    ensures
        is_on(a + b, part),
{
    reveal(is_on);
    let i = choose|i: int|
        0 <= i <= b.len() - part.len() && #[trigger] b.subrange(i, i + part.len()) == part;
    assert((a + b).subrange(a.len() + i, a.len() + i + part.len()) == b.subrange(
        i,
        i + part.len(),
    ));
}

/// What a part of a page says and offers, the page says and offers.
pub proof fn law_page_offers_what_its_parts_do(
    page: Seq<ItemView>,
    part: Seq<ItemView>,
    action: ActionView,
    enabled: bool,
    text: Seq<char>,
)
    requires
        is_on(page, part),
    ensures
        has_button(part, action, enabled) ==> has_button(page, action, enabled),
        says(part, text) ==> says(page, text),
        forall|item: ItemView| part.contains(item) ==> #[trigger] page.contains(item),
{
    reveal(is_on);
    let a = choose|i: int|
        0 <= i <= page.len() - part.len() && #[trigger] page.subrange(i, i + part.len()) == part;
    assert forall|i: int| 0 <= i < part.len() implies page[a + i] == #[trigger] part[i] by {}
    assert forall|item: ItemView| part.contains(item) implies #[trigger] page.contains(item) by {
        let i = choose|i: int| 0 <= i < part.len() && part[i] == item;
        assert(page[a + i] == item);
    }
    if has_button(part, action, enabled) {
        let i = choose|i: int|
            0 <= i < part.len() && is_button(#[trigger] part[i], action, enabled);
        assert(is_button(page[a + i], action, enabled));
    }
    if says(part, text) {
        let i = choose|i: int| 0 <= i < part.len() && is_said(#[trigger] part[i], text);
        assert(is_said(page[a + i], text));
    }
}

// ---------------------------------------------------------------------------
// Lists
// ---------------------------------------------------------------------------
/// Every useful command is listed, each with a button that copies it.
pub proof fn law_every_command_is_listed(commands: Seq<Seq<char>>, i: int)
    requires
        0 <= i < commands.len() <= usize::MAX,
    ensures
        commands_list_items(commands).len() == 1 + 3 * commands.len(),
        commands_list_items(commands)[3 * i + 2] == (ItemView::Label {
            style: TextStyle::Mono,
            text: commands[i],
        }),
        is_button(
            commands_list_items(commands)[3 * i + 3],
            ActionView::At(Command::CopyCommand, i as usize),
            true,
        ),
{
    lemma_commands(commands, i);
}

proof fn lemma_commands(commands: Seq<Seq<char>>, i: int)
    requires
        0 <= i < commands.len() <= usize::MAX,
    ensures
        all_command_items(commands).len() == 3 * commands.len(),
        all_command_items(commands)[3 * i + 1] == (ItemView::Label {
            style: TextStyle::Mono,
            text: commands[i],
        }),
        is_button(
            all_command_items(commands)[3 * i + 2],
            ActionView::At(Command::CopyCommand, i as usize),
            true,
        ),
    decreases commands.len(),
{
    let front = commands.drop_last();
    if front.len() == 0 {
        assert(all_command_items(front).len() == 0);
    } else {
        lemma_commands(
            front,
            if i < front.len() {
                i
            } else {
                0
            },
        );
        if i < front.len() {
            assert(front[i] == commands[i]);
        }
    }
}

/// The newest messages are shown, the newest first, as many as there is room
/// for.
pub proof fn law_newest_messages_are_shown(lines: Seq<Seq<char>>, most: nat, k: int)
    requires
        0 <= k < lines.len(),
        k < most,
    ensures
        activity_lines_items(lines, most)[2 * k + 1] == (ItemView::Label {
            style: TextStyle::Caption,
            text: lines[lines.len() - 1 - k],
        }),
        activity_lines_items(lines, most).len() == 2 * (if lines.len() < most {
            lines.len()
        } else {
            most
        }),
    decreases k,
{
    lemma_message_count(lines, most);
    if k > 0 {
        law_newest_messages_are_shown(lines.drop_last(), (most - 1) as nat, k - 1);
    }
}

proof fn lemma_message_count(lines: Seq<Seq<char>>, most: nat)
    ensures
        activity_lines_items(lines, most).len() == 2 * (if lines.len() < most {
            lines.len()
        } else {
            most
        }),
    decreases most,
{
    if lines.len() > 0 && most > 0 {
        lemma_message_count(lines.drop_last(), (most - 1) as nat);
    }
}

/// The newest operations are shown, as many as there is room for, and no older
/// ones.
pub proof fn law_newest_operations_are_shown(tasks: Seq<TaskView>, most: nat, k: int)
    requires
        0 <= k < tasks.len(),
        k < most,
    ensures
        is_on(operation_cards_items(tasks, most), operation_card_items(tasks[tasks.len() - 1 - k])),
        most <= tasks.len() ==> operation_cards_items(tasks, most) == operation_cards_items(
            tasks.skip(tasks.len() - most),
            most,
        ),
    decreases most,
{
    let front = tasks.drop_last();
    let first = operation_card_items(tasks.last());
    let rest = operation_cards_items(front, (most - 1) as nat);
    if k == 0 {
        lemma_on_itself(first);
        lemma_on_left(first, rest, first);
    } else {
        law_newest_operations_are_shown(front, (most - 1) as nat, k - 1);
        lemma_on_right(first, rest, operation_card_items(tasks[tasks.len() - 1 - k]));
    }
    if most <= tasks.len() {
        lemma_only_newest(tasks, most);
    }
}

proof fn lemma_only_newest(tasks: Seq<TaskView>, most: nat)
    requires
        most <= tasks.len(),
    ensures
        operation_cards_items(tasks, most) == operation_cards_items(
            tasks.skip(tasks.len() - most),
            most,
        ),
    decreases most,
{
    if most > 0 {
        let newest = tasks.skip(tasks.len() - most);
        lemma_only_newest(tasks.drop_last(), (most - 1) as nat);
        assert(newest.drop_last() == tasks.drop_last().skip(tasks.drop_last().len() - (most - 1)));
        assert(newest.last() == tasks.last());
    }
}

/// Every check is shown under its label, with the first lines of what it found.
pub proof fn law_every_check_is_shown(checks: Seq<RuntimeCheckView>, i: int, j: int)
    requires
        0 <= i < checks.len(),
    ensures
        says(check_cards_items(checks), checks[i].label),
        0 <= j < checks[i].lines.len() && j < 4 ==> says(
            check_cards_items(checks),
            checks[i].lines[j],
        ),
    decreases checks.len(),
{
    let front = checks.drop_last();
    let before = check_cards_items(front);
    let last = check_card_items(checks.last());
    let text = checks[i].lines[j];
    if i < front.len() {
        assert(front[i] == checks[i]);
        law_every_check_is_shown(front, i, j);
        lemma_on_itself(before);
        lemma_on_left(before, last, before);
        law_page_offers_what_its_parts_do(
            before + last,
            before,
            ActionView::Do(Command::OpenSettings),
            true,
            checks[i].label,
        );
        law_page_offers_what_its_parts_do(
            before + last,
            before,
            ActionView::Do(Command::OpenSettings),
            true,
            text,
        );
    } else {
        assert(is_said((before + last)[0int + before.len() + 1], checks[i].label));
        if 0 <= j < checks[i].lines.len() && j < 4 {
            let lines = first_of(checks[i].lines, 4);
            lemma_lines(lines, j);
            assert(is_said((before + last)[0int + before.len() + 2 + j], text));
        }
    }
}

proof fn lemma_lines(lines: Seq<Seq<char>>, j: int)
    requires
        0 <= j < lines.len(),
    ensures
        mono_lines_items(lines).len() == lines.len(),
        is_said(mono_lines_items(lines)[j], lines[j]),
    decreases lines.len(),
{
    let front = lines.drop_last();
    if front.len() == 0 {
        assert(mono_lines_items(front).len() == 0);
    } else {
        lemma_lines(
            front,
            if j < front.len() {
                j
            } else {
                0
            },
        );
        if j < front.len() {
            assert(front[j] == lines[j]);
        }
    }
}

/// Every machine has its row.
pub proof fn law_every_machine_has_its_row(machines: Seq<MachineRowView>, i: int)
    requires
        0 <= i < machines.len(),
    ensures
        is_on(orbstack_machine_rows_items(machines), orbstack_machine_row_items(machines[i])),
    decreases machines.len(),
{
    let front = machines.drop_last();
    let before = orbstack_machine_rows_items(front);
    let last = orbstack_machine_row_items(machines.last());
    if i < front.len() {
        law_every_machine_has_its_row(front, i);
        lemma_on_left(before, last, orbstack_machine_row_items(machines[i]));
    } else {
        lemma_on_itself(last);
        lemma_on_right(before, last, last);
    }
}

/// Every context of Docker is shown.
pub proof fn law_every_context_is_shown(contexts: Seq<ContextRowView>, i: int)
    requires
        0 <= i < contexts.len(),
    ensures
        is_on(docker_contexts_items(contexts), docker_context_items(contexts[i])),
    decreases contexts.len(),
{
    let front = contexts.drop_last();
    let before = docker_contexts_items(front);
    let last = docker_context_items(contexts.last());
    if i < front.len() {
        law_every_context_is_shown(front, i);
        lemma_on_left(before, last, docker_context_items(contexts[i]));
    } else {
        lemma_on_itself(last);
        lemma_on_right(before, last, last);
    }
}

/// Every shelf of volumes is shown under its runtime.
pub proof fn law_every_shelf_of_volumes_is_shown(
    shelves: Seq<VolumeShelfView>,
    picked: Option<SelectedVolumeView>,
    i: int,
)
    requires
        0 <= i < shelves.len(),
    ensures
        is_on(
            volumes_list_items(shelves, picked),
            volume_cards_items(
                first_of(shelves[i].entries, 10),
                shelves[i].runtime,
                shelves[i].runtime_key,
                picked,
            ),
        ),
        says(volumes_list_items(shelves, picked), shelves[i].runtime),
        has_button(
            volumes_list_items(shelves, picked),
            ActionView::Do(Command::CreateVolume),
            true,
        ),
{
    let all = volumes_list_items(shelves, picked);
    let shelf = volume_shelf_items(shelves[i], picked);
    let cards = volume_cards_items(
        first_of(shelves[i].entries, 10),
        shelves[i].runtime,
        shelves[i].runtime_key,
        picked,
    );
    lemma_shelves(shelves, picked, i);
    let list = volume_shelves_items(shelves, picked);
    let head = all.take(5);
    assert(all == head + list);
    lemma_on_right(head, list, cards);
    lemma_on_right(head, list, shelf);
    assert(is_said(shelf[0], shelves[i].runtime));
    law_page_offers_what_its_parts_do(
        all,
        shelf,
        ActionView::Do(Command::CreateVolume),
        true,
        shelves[i].runtime,
    );
    assert(is_button(all[4], ActionView::Do(Command::CreateVolume), true));
}

proof fn lemma_shelves(
    shelves: Seq<VolumeShelfView>,
    picked: Option<SelectedVolumeView>,
    i: int,
)
    requires
        0 <= i < shelves.len(),
    ensures
        is_on(volume_shelves_items(shelves, picked), volume_shelf_items(shelves[i], picked)),
        is_on(
            volume_shelves_items(shelves, picked),
            volume_cards_items(
                first_of(shelves[i].entries, 10),
                shelves[i].runtime,
                shelves[i].runtime_key,
                picked,
            ),
        ),
    decreases shelves.len(),
{
    let front = shelves.drop_last();
    let before = volume_shelves_items(front, picked);
    let last = volume_shelf_items(shelves.last(), picked);
    let cards = volume_cards_items(
        first_of(shelves[i].entries, 10),
        shelves[i].runtime,
        shelves[i].runtime_key,
        picked,
    );
    if i < front.len() {
        lemma_shelves(front, picked, i);
        lemma_on_left(before, last, volume_shelf_items(shelves[i], picked));
        lemma_on_left(before, last, cards);
    } else {
        lemma_on_itself(last);
        lemma_on_right(before, last, last);
        lemma_on_itself(cards);
        let title = last.take(1);
        assert(last == title + cards);
        lemma_on_right(title, cards, cards);
        lemma_on_right(before, last, cards);
    }
}

/// Every display that is on its way is shown by its name.
pub proof fn law_every_pending_display_is_shown(slots: Seq<Seq<char>>, i: int)
    requires
        0 <= i < slots.len(),
    ensures
        says(pending_displays_items(slots), slots[i]),
    decreases slots.len(),
{
    let front = slots.drop_last();
    let before = pending_displays_items(front);
    let last = pending_display_items(slots.last());
    if i < front.len() {
        law_every_pending_display_is_shown(front, i);
        lemma_on_itself(before);
        lemma_on_left(before, last, before);
        law_page_offers_what_its_parts_do(
            before + last,
            before,
            ActionView::Do(Command::OpenSettings),
            true,
            slots[i],
        );
    } else {
        assert(is_said((before + last)[0int + before.len() + 1], slots[i]));
    }
}

/// The policy of every profile is shown with its name.
pub proof fn law_every_policy_is_shown(sessions: Seq<SessionView>, i: int)
    requires
        0 <= i < sessions.len(),
    ensures
        is_on(policy_cards_items(sessions), policy_card_items(sessions[i])),
        policy_card_items(sessions[i])[1] == (ItemView::Label {
            style: TextStyle::Heading,
            text: sessions[i].name,
        }),
        policy_card_items(sessions[i])[2] is Label,
        policy_of(sessions[i]).is_prefix_of(policy_card_items(sessions[i])[2]->Label_text),
    decreases sessions.len(),
{
    let front = sessions.drop_last();
    let before = policy_cards_items(front);
    let last = policy_card_items(sessions.last());
    if i < front.len() {
        law_every_policy_is_shown(front, i);
        lemma_on_left(before, last, policy_card_items(sessions[i]));
    } else {
        lemma_on_itself(last);
        lemma_on_right(before, last, last);
    }
}

// ---------------------------------------------------------------------------
// Pages
// ---------------------------------------------------------------------------
/// The page of displays shows the displays, what is on its way, what is attached
/// and the policies of the profiles, and a display can be created there; the
/// last failure is shown in its own words.
pub proof fn law_page_of_displays_is_whole(mode: ModeView, sessions: Seq<SessionView>)
    ensures
        ({
            let page = displays_list_items(mode, sessions);
            &&& has_button(page, ActionView::Do(Command::CreateDisplay), true)
            &&& is_on(page, pending_displays_items(mode.pending_displays))
            &&& is_on(page, managed_displays_items(mode.managed_displays, mode))
            &&& mode.active_sessions.len() > 0 ==> is_on(
                page,
                attachment_cards_items(mode.active_sessions, sessions),
            )
            &&& 0 < sessions.len() <= 16 ==> is_on(page, policy_cards_items(sessions))
            &&& mode.display_error is Some ==> says(page, mode.display_error->0)
        }),
{
    let managed = managed_section_items(mode);
    let attached = attachment_section_items(mode, sessions);
    let own = built_in_section_items(mode);
    let policies = policy_section_items(sessions);
    let page = displays_list_items(mode, sessions);
    let pending = pending_displays_items(mode.pending_displays);
    let displays = managed_displays_items(mode.managed_displays, mode);
    let none = ActionView::Do(Command::CreateDisplay);
    let head = managed.take(3);
    let middle = managed.subrange(3int + pending.len(), managed.len() as int);
    assert(managed == head + pending + middle);
    lemma_on_itself(pending);
    lemma_on_right(head, pending, pending);
    lemma_on_left(head + pending, middle, pending);
    let gap: int = if mode.managed_displays.len() == 0 && mode.pending_displays.len() == 0 {
        3
    } else {
        0
    };
    let from = 3int + pending.len() + gap;
    let start = managed.take(from);
    let end = managed.skip(from + displays.len());
    assert(managed == start + displays + end);
    lemma_on_itself(displays);
    lemma_on_right(start, displays, displays);
    lemma_on_left(start + displays, end, displays);
    lemma_sections(managed, attached, own, policies, pending);
    lemma_sections(managed, attached, own, policies, displays);
    lemma_on_itself(managed);
    lemma_sections(managed, attached, own, policies, managed);
    assert(is_button(managed[1], none, true));
    law_page_offers_what_its_parts_do(page, managed, none, true, Seq::empty());
    if mode.active_sessions.len() > 0 {
        let cards = attachment_cards_items(mode.active_sessions, sessions);
        let title = attached.take(2);
        assert(attached == title + cards);
        lemma_on_itself(cards);
        lemma_on_right(title, cards, cards);
        lemma_sections(managed, attached, own, policies, cards);
    }
    if 0 < sessions.len() <= 16 {
        let cards = policy_cards_items(sessions);
        let title = policies.take(2);
        assert(policies == title + cards);
        lemma_on_itself(cards);
        lemma_on_right(title, cards, cards);
        lemma_sections(managed, attached, own, policies, cards);
    }
    if mode.display_error is Some {
        assert(is_said(managed[managed.len() - 1], mode.display_error->0));
        law_page_offers_what_its_parts_do(page, managed, none, true, mode.display_error->0);
    }
}

proof fn lemma_sections(
    a: Seq<ItemView>,
    b: Seq<ItemView>,
    c: Seq<ItemView>,
    d: Seq<ItemView>,
    part: Seq<ItemView>,
)
    ensures
        is_on(a, part) || is_on(b, part) || is_on(c, part) || is_on(d, part) ==> is_on(
            a + b + c + d,
            part,
        ),
{
    if is_on(a, part) {
        lemma_on_left(a, b, part);
        lemma_on_left(a + b, c, part);
        lemma_on_left(a + b + c, d, part);
    } else if is_on(b, part) {
        lemma_on_right(a, b, part);
        lemma_on_left(a + b, c, part);
        lemma_on_left(a + b + c, d, part);
    } else if is_on(c, part) {
        lemma_on_right(a + b, c, part);
        lemma_on_left(a + b + c, d, part);
    } else if is_on(d, part) {
        lemma_on_right(a + b + c, d, part);
    }
}

/// The page of activity shows how things are going, the newest operations and
/// the newest messages.
pub proof fn law_page_of_activity_is_whole(
    mode: ModeView,
    performance: Option<PerformanceTexts>,
    resources: ResourceTexts,
    clipboard: ClipboardView,
)
    ensures
        ({
            let page = activity_list_items(mode, performance, resources, clipboard);
            &&& is_on(page, performance_card_items(performance, resources, clipboard))
            &&& mode.tasks.len() > 0 ==> is_on(page, operation_cards_items(mode.tasks, 4))
            &&& mode.activity.len() > 0 ==> is_on(page, activity_lines_items(mode.activity, 12))
            &&& mode.activity.len() == 0 ==> says(page, "No recent activity"@)
        }),
{
    let page = activity_list_items(mode, performance, resources, clipboard);
    let card = performance_card_items(performance, resources, clipboard);
    let cards = operation_cards_items(mode.tasks, 4);
    let lines = activity_lines_items(mode.activity, 12);
    let n = card.len() as int;
    lemma_on_itself(card);
    lemma_on_left(card, page.skip(n), card);
    assert(page == card + page.skip(n));
    if mode.tasks.len() > 0 {
        let head = page.take(n + 1);
        let rest = page.skip(n + 1 + cards.len());
        assert(page == head + cards + rest);
        lemma_on_itself(cards);
        lemma_on_right(head, cards, cards);
        lemma_on_left(head + cards, rest, cards);
    }
    if mode.activity.len() > 0 {
        let head = page.take(page.len() - lines.len());
        assert(page == head + lines);
        lemma_on_itself(lines);
        lemma_on_right(head, lines, lines);
    } else {
        assert(is_said(page[page.len() - 1], "No recent activity"@));
    }
}

/// The page of an installed runtime shows where its command is and the first of
/// its containers, and what the checks found. The page of one that is not
/// installed offers where to get it.
pub proof fn law_page_of_a_runtime_is_whole(
    page: RuntimePageView,
    picked: Option<SelectedContainerView>,
)
    ensures
        page.path is Some ==> ({
            let apple = runtime_list_items(NAV_APPLE_CONTAINER, page, picked);
            let docker = runtime_list_items(NAV_DOCKER, page, picked);
            &&& says(apple, page.path->0)
            &&& says(docker, page.path->0)
            &&& is_on(
                apple,
                runtime_container_rows_items(first_of(page.rows, 4), "apple"@, picked),
            )
            &&& is_on(
                docker,
                runtime_container_rows_items(first_of(page.rows, 4), "docker"@, picked),
            )
            &&& is_on(apple, check_cards_items(page.checks))
            &&& is_on(docker, check_cards_items(page.checks))
            &&& is_on(apple, apple_container_system_controls_items(page.overview.status))
        }),
        page.path is None ==> has_button(
            runtime_list_items(NAV_APPLE_CONTAINER, page, picked),
            ActionView::Do(Command::OpenReleases),
            true,
        ),
{
    if page.path is Some {
        let path = page.path->0;
        let checks = check_cards_items(page.checks);
        let none = ActionView::Do(Command::OpenReleases);
        lemma_on_itself(checks);

        let apple = runtime_list_items(NAV_APPLE_CONTAINER, page, picked);
        let start = runtime_start_items(NAV_APPLE_CONTAINER, path, page.overview);
        let controls = apple_container_system_controls_items(page.overview.status);
        let compatible = compatibility_card_items(page.compatibility);
        let transport = transport_card_items(page.compatibility);
        let inventory = apple_container_inventory_items(page.rows, picked);
        let rows = runtime_container_rows_items(first_of(page.rows, 4), "apple"@, picked);
        assert(is_said(start[start.len() - 1], path));
        lemma_on_itself(start);
        lemma_sections(start, controls, compatible, transport, start);
        lemma_on_itself(controls);
        lemma_sections(start, controls, compatible, transport, controls);
        let upper = start + controls + compatible + transport;
        lemma_on_left(upper, inventory, start);
        lemma_on_left(upper, inventory, controls);
        lemma_on_left(upper + inventory, checks, start);
        lemma_on_left(upper + inventory, checks, controls);
        law_page_offers_what_its_parts_do(apple, start, none, true, path);
        assert(inventory == inventory.take(3) + rows);
        lemma_on_itself(rows);
        lemma_on_right(inventory.take(3), rows, rows);
        lemma_on_right(upper, inventory, rows);
        lemma_on_left(upper + inventory, checks, rows);
        lemma_on_right(upper + inventory, checks, checks);

        let docker = runtime_list_items(NAV_DOCKER, page, picked);
        let begin = runtime_start_items(NAV_DOCKER, path, page.overview);
        let contexts = docker_context_inventory_items(page.contexts);
        let provider = orbstack_provider_items(page.orbstack);
        let list = docker_container_inventory_items(page.rows, picked);
        let entries = runtime_container_rows_items(first_of(page.rows, 4), "docker"@, picked);
        assert(is_said(begin[begin.len() - 1], path));
        lemma_on_itself(begin);
        lemma_sections(begin, contexts, provider, list, begin);
        lemma_on_left(begin + contexts + provider + list, checks, begin);
        law_page_offers_what_its_parts_do(docker, begin, none, true, path);
        assert(list == list.take(3) + entries);
        lemma_on_itself(entries);
        lemma_on_right(list.take(3), entries, entries);
        lemma_sections(begin, contexts, provider, list, entries);
        lemma_on_left(begin + contexts + provider + list, checks, entries);
        lemma_on_right(begin + contexts + provider + list, checks, checks);
    } else {
        let missing = runtime_missing_items(NAV_APPLE_CONTAINER);
        assert(is_button(
            missing[missing.len() - 1],
            ActionView::Do(Command::OpenReleases),
            true,
        ));
    }
}

/// A number that is shown with the words around it.
pub open spec fn shows(items: Seq<ItemView>, part: Seq<char>) -> bool {
    exists|i: int|
        0 <= i < items.len() && #[trigger] items[i] is Label && occurs(items[i]->Label_text, part)
}

proof fn lemma_shows(
    items: Seq<ItemView>,
    i: int,
    a: Seq<char>,
    part: Seq<char>,
    c: Seq<char>,
)
    requires
        0 <= i < items.len(),
        items[i] is Label,
        items[i]->Label_text == a + part + c,
    ensures
        shows(items, part),
{
    lemma_occurs(a, part, c);
    assert(items[i] is Label);
}

/// Every number of a sample is shown with its unit.
#[verifier::rlimit(30)]
pub proof fn law_sample_is_shown(
    sample: PerformanceTexts,
    resources: ResourceTexts,
    clipboard: ClipboardView,
)
    ensures
        ({
            let items = performance_card_items(Some(sample), resources, clipboard);
            &&& shows(items, "Render "@ + sample.redraw_fps@ + " fps"@)
            &&& shows(items, "commits "@ + sample.commits_per_second@ + "/s"@)
            &&& shows(items, "late "@ + sample.late_redraws_per_second@ + "/s"@)
            &&& shows(items, "Max redraw wait "@ + sample.max_redraw_wait_ms@ + " ms"@)
            &&& shows(items, "Scene "@ + decimal(sample.tiles as nat) + " tile(s)"@)
            &&& shows(items, "callbacks "@ + decimal(sample.pending_frame_callbacks as nat))
            &&& sample.input_to_present_ms matches Some(wait) ==> shows(
                items,
                "present "@ + wait@ + " ms"@,
            )
        }),
{
    let items = performance_card_items(Some(sample), resources, clipboard);
    reveal_strlit("Render ");
    reveal_strlit(" fps  |  commits ");
    reveal_strlit("/s  |  late ");
    reveal_strlit("/s");
    reveal_strlit(" fps");
    reveal_strlit("commits ");
    reveal_strlit("late ");
    reveal_strlit("Max redraw wait ");
    reveal_strlit(" ms  |  host input -> present ");
    reveal_strlit(" ms");
    reveal_strlit("present ");
    reveal_strlit("Scene ");
    reveal_strlit(" tile(s)  |  dirty ");
    reveal_strlit(" tile(s)");
    reveal_strlit("  |  callbacks ");
    reveal_strlit("callbacks ");
    let none = Seq::<char>::empty();
    let render = items[2]->Label_text;
    let fps = "Render "@ + sample.redraw_fps@ + " fps"@;
    assert(render == none + fps + render.skip(fps.len() as int));
    lemma_shows(items, 2, none, fps, render.skip(fps.len() as int));
    let commits = "commits "@ + sample.commits_per_second@ + "/s"@;
    let a: int = fps.len() + 5int;
    assert(render == render.take(a) + commits + render.skip(a + commits.len()));
    lemma_shows(items, 2, render.take(a), commits, render.skip(a + commits.len()));
    let late = "late "@ + sample.late_redraws_per_second@ + "/s"@;
    let b = render.len() - late.len();
    assert(render == render.take(b) + late + none);
    lemma_shows(items, 2, render.take(b), late, none);
    let wait = items[3]->Label_text;
    let most = "Max redraw wait "@ + sample.max_redraw_wait_ms@ + " ms"@;
    assert(wait == none + most + wait.skip(most.len() as int));
    lemma_shows(items, 3, none, most, wait.skip(most.len() as int));
    if sample.input_to_present_ms is Some {
        let input = "present "@ + sample.input_to_present_ms->0@ + " ms"@;
        let d = wait.len() - input.len();
        assert(wait == wait.take(d) + input + none);
        lemma_shows(items, 3, wait.take(d), input, none);
    }
    let scene = items[4]->Label_text;
    let tiles = "Scene "@ + decimal(sample.tiles as nat) + " tile(s)"@;
    assert(scene == none + tiles + scene.skip(tiles.len() as int));
    lemma_shows(items, 4, none, tiles, scene.skip(tiles.len() as int));
    let callbacks = "callbacks "@ + decimal(sample.pending_frame_callbacks as nat);
    let e = scene.len() - callbacks.len();
    assert(scene == scene.take(e) + callbacks + none);
    lemma_shows(items, 4, scene.take(e), callbacks, none);
}

/// What the containers use and what went over the clipboard is shown, each
/// number with its words.
#[verifier::rlimit(30)]
pub proof fn law_usage_is_shown(
    performance: Option<PerformanceTexts>,
    resources: ResourceTexts,
    clipboard: ClipboardView,
)
    ensures
        ({
            let items = performance_card_items(performance, resources, clipboard);
            &&& resources.available ==> shows(
                items,
                "memory "@ + resources.memory_usage_gib@ + " / "@ + resources.memory_limit_gib@
                    + " GiB"@,
            )
            &&& resources.available ==> shows(
                items,
                "containers "@ + decimal(resources.containers as nat) + "  |"@,
            )
            &&& resources.available && resources.cpu_percent is Some ==> shows(
                items,
                "CPU "@ + resources.cpu_percent->0@ + "%"@,
            )
            &&& !resources.available && resources.error is Some ==> shows(
                items,
                ": "@ + resources.error->0@,
            )
            &&& shows(items, "H->G "@ + decimal(clipboard.host_to_guest_events as nat))
            &&& shows(items, "G->H "@ + decimal(clipboard.guest_to_host_events as nat))
            &&& shows(items, "errors "@ + decimal(clipboard.failures as nat))
            &&& resources.disk_available_gib matches Some(space) ==> shows(
                items,
                "storage: "@ + space@ + " GiB free"@,
            )
        }),
{
    let items = performance_card_items(performance, resources, clipboard);
    let n = items.len();
    reveal_strlit("Apple containers ");
    reveal_strlit("containers ");
    reveal_strlit("  |  CPU ");
    reveal_strlit("  |");
    reveal_strlit("CPU ");
    reveal_strlit("%");
    reveal_strlit("  |  memory ");
    reveal_strlit("memory ");
    reveal_strlit(" GiB");
    reveal_strlit("Apple container resources: ");
    reveal_strlit(": ");
    reveal_strlit("Clipboard ");
    reveal_strlit("  |  H->G ");
    reveal_strlit("H->G ");
    reveal_strlit("  |  G->H ");
    reveal_strlit("G->H ");
    reveal_strlit("  |  errors ");
    reveal_strlit("errors ");
    reveal_strlit("Apple Container storage: ");
    reveal_strlit("storage: ");
    reveal_strlit(" GiB free");
    let none = Seq::<char>::empty();
    let used = items[n - 3]->Label_text;
    if resources.available {
        let memory = "memory "@ + resources.memory_usage_gib@ + " / "@ + resources.memory_limit_gib@
            + " GiB"@;
        let a = used.len() - memory.len();
        assert(used == used.take(a) + memory + none);
        lemma_shows(items, n - 3, used.take(a), memory, none);
        let count = "containers "@ + decimal(resources.containers as nat) + "  |"@;
        assert(used == used.take(6) + count + used.skip(6int + count.len()));
        lemma_shows(items, n - 3, used.take(6), count, used.skip(6int + count.len()));
        if resources.cpu_percent is Some {
            let load = "CPU "@ + resources.cpu_percent->0@ + "%"@;
            let b: int = 6int + count.len() + 2;
            assert(used == used.take(b) + load + used.skip(b + load.len()));
            lemma_shows(items, n - 3, used.take(b), load, used.skip(b + load.len()));
        }
    } else if resources.error is Some {
        let error = ": "@ + resources.error->0@;
        let a = used.len() - error.len();
        assert(used == used.take(a) + error + none);
        lemma_shows(items, n - 3, used.take(a), error, none);
    }
    let moved = items[n - 2]->Label_text;
    let errors = "errors "@ + decimal(clipboard.failures as nat);
    let c = moved.len() - errors.len();
    assert(moved == moved.take(c) + errors + none);
    lemma_shows(items, n - 2, moved.take(c), errors, none);
    let back = "G->H "@ + decimal(clipboard.guest_to_host_events as nat);
    let d = c - 5 - back.len();
    assert(moved == moved.take(d) + back + moved.skip(d + back.len()));
    lemma_shows(items, n - 2, moved.take(d), back, moved.skip(d + back.len()));
    let out = "H->G "@ + decimal(clipboard.host_to_guest_events as nat);
    let e = d - 5 - out.len();
    assert(moved == moved.take(e) + out + moved.skip(e + out.len()));
    lemma_shows(items, n - 2, moved.take(e), out, moved.skip(e + out.len()));
    if resources.disk_available_gib is Some {
        let left = items[n - 1]->Label_text;
        let space = "storage: "@ + resources.disk_available_gib->0@ + " GiB free"@;
        let f = left.len() - space.len();
        assert(left == left.take(f) + space + none);
        lemma_shows(items, n - 1, left.take(f), space, none);
    }
}

} // verus!
