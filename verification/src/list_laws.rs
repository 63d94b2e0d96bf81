//! What the lists of images, volumes, containers, machines and displays offer.
use vstd::prelude::*;

use crate::actions::attached;
use crate::application_model::RuntimeStatus;
use crate::container_mode::{
    ActiveView, ManagedView, ModeView, SelectedContainerView, SelectedImageView,
    SelectedVolumeView,
};
use crate::container_sessions::SessionView;
use crate::display_pages::{
    attachment_card_items, attachment_cards_items, instance_place, instance_source,
    managed_display_items, managed_displays_items, SampleSource,
};
use crate::inventory::{ContainerRowView, ContextRowView, MachineRowView};
use crate::page::{first_of, ActionView, Command, ItemView};
use crate::page_laws::{has_button, is_button, is_said, lemma_page_holds_its_parts, says};
use crate::profiles::{NAV_APPLE_CONTAINER, NAV_DOCKER, NAV_ORBSTACK};
use crate::resource_pages::{
    delete_note, deletable, image_card_items, image_cards_items, image_menu_of, images_list_items,
    image_shelf_items, usage_summary_of, volume_card_items, volume_cards_items, VolumeEntryView,
};
use crate::runtime_pages::{
    apple_container_system_controls_items, docker_context_items, orbstack_machine_row_items,
    runtime_checks_of, runtime_command_of, runtime_container_row_items,
    runtime_container_rows_items, runtime_missing_items, runtime_title_of,
};
use crate::storage::{is_tagged, shown_id, ImageInventoryView, ImageRowView, UsageView};
use crate::text::{decimal, joined};

verus! {

// ---------------------------------------------------------------------------
// Images
// ---------------------------------------------------------------------------
/// The card of an image picks it, makes a profile of it, and offers to delete
/// it by what it is known by; a row that is of no image offers nothing.
pub proof fn law_image_card_acts_on_its_image(
    entry: ImageRowView,
    runtime: Seq<char>,
    key: Seq<char>,
    picked: Option<SelectedImageView>,
    action: ActionView,
)
    ensures
        entry.reference matches Some(reference) ==> {
            let items = image_card_items(entry, runtime, key, picked);
            &&& says(items, entry.label)
            &&& items.contains(
                ItemView::Area {
                    action: ActionView::With(
                        Command::SelectImage,
                        seq![runtime, key, reference, entry.label],
                    ),
                },
            )
            &&& has_button(
                items,
                ActionView::With(Command::CreateFromImage, seq![key, reference]),
                true,
            )
            &&& items.last() matches ItemView::Menu { options, action, .. } && action
                == image_menu_of(key, reference, entry.label) && (options.contains("Remove Tag"@)
                <==> is_tagged(reference)) && options.contains("Delete Image"@)
        },
        entry.reference is None ==> !has_button(
            image_card_items(entry, runtime, key, picked),
            action,
            true,
        ),
{
    let items = image_card_items(entry, runtime, key, picked);
    if entry.reference is Some {
        let reference = entry.reference->0;
        assert(is_said(items[1], entry.label));
        assert(items[2] == ItemView::Area {
            action: ActionView::With(
                Command::SelectImage,
                seq![runtime, key, reference, entry.label],
            ),
        });
        assert(is_button(
            items[3],
            ActionView::With(Command::CreateFromImage, seq![key, reference]),
            true,
        ));
        reveal_strlit("More…");
        reveal_strlit("Remove Tag");
        reveal_strlit("Delete Image");
        assert("Remove Tag"@.len() == 10 && "Delete Image"@.len() == 12 && "More…"@.len() == 5);
        let menu = items.last();
        if is_tagged(reference) {
            assert(menu->options[1] == "Remove Tag"@);
            assert(menu->options[2] == "Delete Image"@);
        } else {
            assert(menu->options[1] == "Delete Image"@);
        }
    }
}

/// The menu of an image knows it by its runtime, its reference and, where it is
/// shown, its number.
pub proof fn law_image_menu_names_the_image(key: Seq<char>, reference: Seq<char>, label: Seq<char>)
    ensures
        shown_id(label, reference) matches Some(id) ==> image_menu_of(key, reference, label)
            == ActionView::With(Command::ImageMenu, seq![key, reference, id]),
        shown_id(label, reference) is None ==> image_menu_of(key, reference, label)
            == ActionView::With(Command::ImageMenu, seq![key, reference]),
{
}

/// Every image of a list has its card.
pub proof fn law_every_image_has_its_card(
    entries: Seq<ImageRowView>,
    runtime: Seq<char>,
    key: Seq<char>,
    picked: Option<SelectedImageView>,
    i: int,
)
    requires
        0 <= i < entries.len(),
        entries[i].reference is Some,
    ensures
        has_button(
            image_cards_items(entries, runtime, key, picked),
            ActionView::With(Command::CreateFromImage, seq![key, entries[i].reference->0]),
            true,
        ),
        says(image_cards_items(entries, runtime, key, picked), entries[i].label),
    decreases entries.len(),
{
    let front = entries.drop_last();
    let before = image_cards_items(front, runtime, key, picked);
    let all = image_cards_items(entries, runtime, key, picked);
    let none = Seq::<ItemView>::empty();
    let action = ActionView::With(Command::CreateFromImage, seq![key, entries[i].reference->0]);
    let last = image_card_items(entries.last(), runtime, key, picked);
    let item = ItemView::Card { marked: false };
    if i < front.len() {
        assert(front[i] == entries[i]);
        law_every_image_has_its_card(front, runtime, key, picked, i);
        assert(all =~= none + before + last);
        lemma_page_holds_its_parts(none, before, last, action, true, entries[i].label, item);
    } else {
        law_image_card_acts_on_its_image(entries[i], runtime, key, picked, action);
        assert(all =~= before + last + none);
        lemma_page_holds_its_parts(before, last, none, action, true, entries[i].label, item);
    }
}

/// The page of images offers to fetch, to sign in, to build, to load and to
/// delete, whatever images there are.
pub proof fn law_image_page_offers_its_sources(
    inventories: Seq<ImageInventoryView>,
    registries: Seq<char>,
    picked: Option<SelectedImageView>,
)
    ensures
        ({
            let items = images_list_items(inventories, registries, picked);
            &&& has_button(items, ActionView::Do(Command::PullImage), true)
            &&& has_button(items, ActionView::Do(Command::LoginRegistry), true)
            &&& has_button(items, ActionView::Do(Command::BuildExample), true)
            &&& has_button(items, ActionView::Do(Command::LoadImage), true)
            &&& has_button(items, ActionView::Do(Command::DeleteImage), true)
            &&& says(items, registries)
        }),
{
    let items = images_list_items(inventories, registries, picked);
    assert(is_button(items[5], ActionView::Do(Command::PullImage), true));
    assert(is_button(items[6], ActionView::Do(Command::LoginRegistry), true));
    assert(is_button(items[7], ActionView::Do(Command::BuildExample), true));
    assert(is_button(items[8], ActionView::Do(Command::LoadImage), true));
    assert(is_button(items[items.len() - 1], ActionView::Do(Command::DeleteImage), true));
    assert(is_said(items[4], registries));
}

/// The images of a runtime stand under its name, the first ten of them.
pub proof fn law_shelf_holds_the_first_images(
    inventory: ImageInventoryView,
    picked: Option<SelectedImageView>,
    i: int,
)
    requires
        0 <= i < inventory.rows.len(),
        i < 10,
        inventory.rows[i].reference is Some,
    ensures
        says(image_shelf_items(inventory, picked), inventory.runtime),
        has_button(
            image_shelf_items(inventory, picked),
            ActionView::With(
                Command::CreateFromImage,
                seq![inventory.runtime_key, inventory.rows[i].reference->0],
            ),
            true,
        ),
{
    let rows = first_of(inventory.rows, 10);
    let items = image_shelf_items(inventory, picked);
    assert(rows[i] == inventory.rows[i]);
    law_every_image_has_its_card(rows, inventory.runtime, inventory.runtime_key, picked, i);
    let head = items.take(1);
    let cards = image_cards_items(rows, inventory.runtime, inventory.runtime_key, picked);
    let none = Seq::<ItemView>::empty();
    assert(items =~= head + cards + none);
    let action = ActionView::With(
        Command::CreateFromImage,
        seq![inventory.runtime_key, inventory.rows[i].reference->0],
    );
    lemma_page_holds_its_parts(
        head,
        cards,
        none,
        action,
        true,
        inventory.runtime,
        ItemView::Card { marked: false },
    );
    assert(is_said(items[0], inventory.runtime));
}

// ---------------------------------------------------------------------------
// Volumes
// ---------------------------------------------------------------------------
/// The card of a volume names it and what uses it, and offers to delete it just
/// where it is known that no container mounts it.
pub proof fn law_volume_card_acts_on_its_volume(
    entry: VolumeEntryView,
    runtime: Seq<char>,
    key: Seq<char>,
    picked: Option<SelectedVolumeView>,
)
    ensures
        entry.row.name matches Some(name) ==> {
            let items = volume_card_items(entry, runtime, key, picked);
            &&& says(items, name)
            &&& says(items, usage_summary_of(entry.usage))
            &&& items.contains(
                ItemView::Area {
                    action: ActionView::With(
                        Command::SelectVolume,
                        seq![runtime, key, name, entry.row.label],
                    ),
                },
            )
            &&& has_button(
                items,
                ActionView::With(Command::DeleteVolume, seq![key, name]),
                true,
            ) <==> !entry.usage.loading && entry.usage.error is None
                && entry.usage.mounted_containers.len() == 0
        },
{
    if entry.row.name is Some {
        let items = volume_card_items(entry, runtime, key, picked);
        let name = entry.row.name->0;
        assert(is_said(items[1], name));
        assert(is_said(items[3], usage_summary_of(entry.usage)));
        assert(items[4] == ItemView::Area {
            action: ActionView::With(
                Command::SelectVolume,
                seq![runtime, key, name, entry.row.label],
            ),
        });
        assert(is_button(
            items[5],
            ActionView::With(Command::DeleteVolume, seq![key, name]),
            deletable(entry.usage),
        ));
    }
}

/// What uses a volume is told in numbers, once it is known; and what keeps it
/// from being deleted is told.
pub proof fn law_use_of_a_volume_is_told(usage: UsageView, allowed: Seq<char>)
    ensures
        !usage.loading && usage.error is None ==> usage_summary_of(usage) == decimal(
            usage.referenced_profiles.len(),
        ) + " referenced · "@ + decimal(usage.mounted_containers.len()) + " mounted"@,
        usage.mounted_containers.len() > 0 ==> delete_note(usage, allowed) == "Mounted by: "@
            + joined(usage.mounted_containers, ", "@),
        deletable(usage) ==> delete_note(usage, allowed) == allowed,
{
}

/// Every volume of a list has its card.
pub proof fn law_every_volume_has_its_card(
    entries: Seq<VolumeEntryView>,
    runtime: Seq<char>,
    key: Seq<char>,
    picked: Option<SelectedVolumeView>,
    i: int,
)
    requires
        0 <= i < entries.len(),
        entries[i].row.name is Some,
    ensures
        says(volume_cards_items(entries, runtime, key, picked), entries[i].row.name->0),
    decreases entries.len(),
{
    let front = entries.drop_last();
    let before = volume_cards_items(front, runtime, key, picked);
    let all = volume_cards_items(entries, runtime, key, picked);
    let none = Seq::<ItemView>::empty();
    let action = ActionView::Do(Command::CreateVolume);
    let last = volume_card_items(entries.last(), runtime, key, picked);
    let item = ItemView::Card { marked: false };
    let name = entries[i].row.name->0;
    if i < front.len() {
        assert(front[i] == entries[i]);
        law_every_volume_has_its_card(front, runtime, key, picked, i);
        assert(all =~= none + before + last);
        lemma_page_holds_its_parts(none, before, last, action, true, name, item);
    } else {
        law_volume_card_acts_on_its_volume(entries[i], runtime, key, picked);
        assert(all =~= before + last + none);
        lemma_page_holds_its_parts(before, last, none, action, true, name, item);
    }
}

// ---------------------------------------------------------------------------
// Containers, machines and contexts
// ---------------------------------------------------------------------------
/// A container that runs can be stopped and not deleted; one that does not can
/// be started and deleted. A row that is of no container offers nothing.
pub proof fn law_container_row_acts_on_its_container(
    entry: ContainerRowView,
    runtime: Seq<char>,
    picked: Option<SelectedContainerView>,
    action: ActionView,
)
    ensures
        entry.name matches Some(name) ==> {
            let items = runtime_container_row_items(entry, runtime, picked);
            &&& says(items, entry.label)
            &&& has_button(
                items,
                ActionView::With(Command::StopContainer, seq![runtime, name]),
                true,
            ) <==> entry.running
            &&& has_button(
                items,
                ActionView::With(Command::StartContainer, seq![runtime, name]),
                true,
            ) <==> !entry.running
            &&& has_button(
                items,
                ActionView::With(Command::DeleteContainer, seq![runtime, name]),
                true,
            ) <==> !entry.running
        },
        entry.name is None ==> !has_button(
            runtime_container_row_items(entry, runtime, picked),
            action,
            true,
        ),
{
    if entry.name is Some {
        let items = runtime_container_row_items(entry, runtime, picked);
        let name = entry.name->0;
        assert(is_said(items[1], entry.label));
        assert(is_button(
            items[3],
            if entry.running {
                ActionView::With(Command::StopContainer, seq![runtime, name])
            } else {
                ActionView::With(Command::StartContainer, seq![runtime, name])
            },
            true,
        ));
        assert(is_button(
            items[4],
            ActionView::With(Command::DeleteContainer, seq![runtime, name]),
            !entry.running,
        ));
    }
}

/// Every container of a list has its row.
pub proof fn law_every_container_has_its_row(
    entries: Seq<ContainerRowView>,
    runtime: Seq<char>,
    picked: Option<SelectedContainerView>,
    i: int,
)
    requires
        0 <= i < entries.len(),
        entries[i].name is Some,
    ensures
        says(runtime_container_rows_items(entries, runtime, picked), entries[i].label),
        entries[i].running ==> has_button(
            runtime_container_rows_items(entries, runtime, picked),
            ActionView::With(Command::StopContainer, seq![runtime, entries[i].name->0]),
            true,
        ),
        !entries[i].running ==> has_button(
            runtime_container_rows_items(entries, runtime, picked),
            ActionView::With(Command::StartContainer, seq![runtime, entries[i].name->0]),
            true,
        ),
    decreases entries.len(),
{
    let front = entries.drop_last();
    let before = runtime_container_rows_items(front, runtime, picked);
    let all = runtime_container_rows_items(entries, runtime, picked);
    let none = Seq::<ItemView>::empty();
    let name = entries[i].name->0;
    let action = if entries[i].running {
        ActionView::With(Command::StopContainer, seq![runtime, name])
    } else {
        ActionView::With(Command::StartContainer, seq![runtime, name])
    };
    let last = runtime_container_row_items(entries.last(), runtime, picked);
    let item = ItemView::Card { marked: false };
    if i < front.len() {
        assert(front[i] == entries[i]);
        law_every_container_has_its_row(front, runtime, picked, i);
        assert(all =~= none + before + last);
        lemma_page_holds_its_parts(none, before, last, action, true, entries[i].label, item);
    } else {
        law_container_row_acts_on_its_container(entries[i], runtime, picked, action);
        assert(all =~= before + last + none);
        lemma_page_holds_its_parts(before, last, none, action, true, entries[i].label, item);
    }
}

/// A machine that runs can be stopped, and one that does not can be started;
/// either can be entered and deleted.
pub proof fn law_machine_row_acts_on_its_machine(machine: MachineRowView)
    ensures
        machine.name matches Some(name) ==> {
            let items = orbstack_machine_row_items(machine);
            &&& says(items, machine.label)
            &&& says(items, machine.detail)
            &&& has_button(items, ActionView::With(Command::StopMachine, seq![name]), true)
                <==> machine.running
            &&& has_button(items, ActionView::With(Command::StartMachine, seq![name]), true)
                <==> !machine.running
            &&& has_button(items, ActionView::With(Command::OpenMachineTerminal, seq![name]), true)
            &&& has_button(items, ActionView::With(Command::DeleteMachine, seq![name]), true)
        },
{
    if machine.name is Some {
        let items = orbstack_machine_row_items(machine);
        let name = machine.name->0;
        assert(is_said(items[1], machine.label));
        assert(is_said(items[2], machine.detail));
        assert(is_button(
            items[3],
            if machine.running {
                ActionView::With(Command::StopMachine, seq![name])
            } else {
                ActionView::With(Command::StartMachine, seq![name])
            },
            true,
        ));
        assert(is_button(
            items[4],
            ActionView::With(Command::OpenMachineTerminal, seq![name]),
            true,
        ));
        assert(is_button(items[5], ActionView::With(Command::DeleteMachine, seq![name]), true));
    }
}

/// A context that is not the current one can be made so.
pub proof fn law_other_contexts_can_be_used(context: ContextRowView, name: Seq<char>)
    requires
        context.name == Some(name),
    ensures
        says(docker_context_items(context), context.label),
        has_button(
            docker_context_items(context),
            ActionView::With(Command::UseContext, seq![name]),
            true,
        ) <==> !context.current,
{
    let items = docker_context_items(context);
    assert(is_said(items[0], context.label));
    if !context.current {
        assert(is_button(items[1], ActionView::With(Command::UseContext, seq![name]), true));
    }
}

/// Apple's runtime can be started where it does not run or failed, and stopped
/// where it runs; while it is started or stopped, neither.
pub proof fn law_system_starts_and_stops(status: RuntimeStatus)
    ensures
        has_button(
            apple_container_system_controls_items(status),
            ActionView::Do(Command::StartAppleSystem),
            true,
        ) <==> status is Unavailable || status is Failed,
        has_button(
            apple_container_system_controls_items(status),
            ActionView::Do(Command::StopAppleSystem),
            true,
        ) <==> status is Ready || status is Degraded,
{
    let items = apple_container_system_controls_items(status);
    assert(is_button(
        items[3],
        ActionView::Do(Command::StartAppleSystem),
        status is Unavailable || status is Failed,
    ));
    assert(is_button(
        items[4],
        ActionView::Do(Command::StopAppleSystem),
        status is Ready || status is Degraded,
    ));
}

/// Each runtime has its own name and its own command, and is asked by it.
pub proof fn law_runtime_pages_are_told_apart()
    ensures
        runtime_title_of(NAV_APPLE_CONTAINER) == "Apple Container"@,
        runtime_title_of(NAV_DOCKER) == "Docker"@,
        runtime_title_of(NAV_ORBSTACK) == "OrbStack"@,
        runtime_command_of(NAV_APPLE_CONTAINER) == "container"@,
        runtime_command_of(NAV_DOCKER) == "docker"@,
        runtime_command_of(NAV_ORBSTACK) == "orbctl"@,
        runtime_checks_of(NAV_APPLE_CONTAINER)[1].1 == seq!["system"@, "status"@],
        runtime_checks_of(NAV_APPLE_CONTAINER)[2].1 == seq!["image"@, "list"@],
        has_button(
            runtime_missing_items(NAV_APPLE_CONTAINER),
            ActionView::Do(Command::OpenReleases),
            true,
        ),
        has_button(
            runtime_missing_items(NAV_ORBSTACK),
            ActionView::Do(Command::OpenOrbStack),
            true,
        ),
{
    let apple = runtime_missing_items(NAV_APPLE_CONTAINER);
    assert(is_button(apple[apple.len() - 1], ActionView::Do(Command::OpenReleases), true));
    let orbstack = runtime_missing_items(NAV_ORBSTACK);
    assert(is_button(orbstack[orbstack.len() - 1], ActionView::Do(Command::OpenOrbStack), true));
}

// ---------------------------------------------------------------------------
// Displays
// ---------------------------------------------------------------------------
/// A display can be brought to the front and its connection copied while it is
/// not being closed, and closed just while nothing runs on it either.
pub proof fn law_display_can_be_closed_when_free(display: ManagedView, mode: ModeView)
    ensures
        ({
            let items = managed_display_items(display, mode);
            let closing = mode.closing_displays.contains(display.slot);
            &&& says(items, display.slot)
            &&& says(items, display.runtime_dir + "/"@ + display.display)
            &&& has_button(
                items,
                ActionView::With(Command::FocusDisplay, seq![display.slot]),
                true,
            ) <==> !closing
            &&& has_button(
                items,
                ActionView::With(Command::CopyConnection, seq![display.slot]),
                true,
            ) <==> !closing
            &&& has_button(
                items,
                ActionView::With(Command::CloseDisplay, seq![display.slot]),
                true,
            ) <==> !closing && attached(mode.active_sessions, display.slot) == 0
        }),
{
    let items = managed_display_items(display, mode);
    let closing = mode.closing_displays.contains(display.slot);
    assert(is_said(items[1], display.slot));
    assert(is_said(items[3], display.runtime_dir + "/"@ + display.display));
    assert(is_button(
        items[4],
        ActionView::With(Command::FocusDisplay, seq![display.slot]),
        !closing,
    ));
    assert(is_button(
        items[5],
        ActionView::With(Command::CopyConnection, seq![display.slot]),
        !closing,
    ));
    assert(is_button(
        items[6],
        ActionView::With(Command::CloseDisplay, seq![display.slot]),
        !closing && attached(mode.active_sessions, display.slot) == 0,
    ));
}

/// Every display of a list is on the page.
pub proof fn law_every_display_is_listed(displays: Seq<ManagedView>, mode: ModeView, i: int)
    requires
        0 <= i < displays.len(),
    ensures
        says(managed_displays_items(displays, mode), displays[i].slot),
    decreases displays.len(),
{
    let front = displays.drop_last();
    let before = managed_displays_items(front, mode);
    let all = managed_displays_items(displays, mode);
    let none = Seq::<ItemView>::empty();
    let action = ActionView::Do(Command::CreateDisplay);
    let last = managed_display_items(displays.last(), mode);
    let item = ItemView::Card { marked: false };
    if i < front.len() {
        assert(front[i] == displays[i]);
        law_every_display_is_listed(front, mode, i);
        assert(all =~= none + before + last);
        lemma_page_holds_its_parts(none, before, last, action, true, displays[i].slot, item);
    } else {
        law_display_can_be_closed_when_free(displays[i], mode);
        assert(all =~= before + last + none);
        lemma_page_holds_its_parts(before, last, none, action, true, displays[i].slot, item);
    }
}

/// Every session that runs on a display can be released from it.
pub proof fn law_every_attachment_can_be_released(
    actives: Seq<ActiveView>,
    sessions: Seq<SessionView>,
    i: int,
)
    requires
        0 <= i < actives.len(),
    ensures
        has_button(
            attachment_cards_items(actives, sessions),
            ActionView::At(Command::ReleaseDisplay, actives[i].profile_index),
            true,
        ),
        actives[i].profile_index < sessions.len() ==> says(
            attachment_cards_items(actives, sessions),
            sessions[actives[i].profile_index as int].name,
        ),
    decreases actives.len(),
{
    let front = actives.drop_last();
    let before = attachment_cards_items(front, sessions);
    let all = attachment_cards_items(actives, sessions);
    let none = Seq::<ItemView>::empty();
    let action = ActionView::At(Command::ReleaseDisplay, actives[i].profile_index);
    let last = attachment_card_items(actives.last(), sessions);
    let item = ItemView::Card { marked: false };
    let name = sessions[actives[i].profile_index as int].name;
    if i < front.len() {
        assert(front[i] == actives[i]);
        law_every_attachment_can_be_released(front, sessions, i);
        assert(all =~= none + before + last);
        lemma_page_holds_its_parts(none, before, last, action, true, name, item);
    } else {
        assert(is_button(last[4], action, true));
        if actives[i].profile_index < sessions.len() {
            assert(is_said(last[1], name));
        }
        assert(all =~= before + last + none);
        lemma_page_holds_its_parts(before, last, none, action, true, name, item);
    }
}

/// What is measured of an instance is its own where it was sampled, and that of
/// this program where it is on the default display.
pub proof fn law_instance_is_measured(slot: Seq<char>, index: usize, own: bool)
    ensures
        instance_source(slot, index, true, own) == Some(SampleSource::Instance(index)),
        slot == "default"@ ==> instance_source(slot, index, false, true) == Some(SampleSource::Own),
        slot != "default"@ || !own ==> instance_source(slot, index, false, own) is None,
{
}

/// The instance of a profile is the first of that profile.
pub proof fn law_first_instance_is_found(active: Seq<ActiveView>, profile: usize, i: int)
    requires
        active.len() <= usize::MAX,
    ensures
        instance_place(active, profile) matches Some(place) ==> place < active.len()
            && active[place as int].profile_index == profile,
        0 <= i < active.len() && active[i].profile_index == profile ==> (instance_place(
            active,
            profile,
        ) matches Some(place) && place <= i),
    decreases active.len(),
{
    if active.len() > 0 {
        let front = active.drop_last();
        law_first_instance_is_found(front, profile, i);
        if instance_place(front, profile) is Some {
            let place = instance_place(front, profile)->0;
            assert(front[place as int] == active[place as int]);
        }
        if 0 <= i < front.len() {
            assert(front[i] == active[i]);
        }
    }
}

} // verus!
