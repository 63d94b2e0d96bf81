//! The pages of images and volumes.
use vstd::prelude::*;
use vstd::string::*;

use crate::container_mode::{SelectedImage, SelectedImageView, SelectedVolume, SelectedVolumeView};
use crate::page::{
    area, area_item, button, button_item, card, card_item, first_of, label, label_item, menu,
    menu_item, shown_count, Action, ActionView, Command, Item, ItemView, TextStyle,
};
use crate::storage::{
    image_id_from_label, image_reference_has_tag, is_tagged, shown_id, ImageInventory,
    ImageInventoryView, ImageRow, ImageRowView, UsageView, VolumeMetadata, VolumeMetadataView,
    VolumeRow, VolumeRowView, VolumeUsage,
};
use crate::text::{
    concat, concat4, concat5, count_text, decimal, join, joined, same, short_text, shortened,
    starts_with, texts2, texts3, texts4,
};

verus! {

// ---------------------------------------------------------------------------
// Images
// ---------------------------------------------------------------------------
/// Whether an image is the picked one.
pub open spec fn image_is_picked(picked: Option<SelectedImageView>, reference: Seq<char>) -> bool {
    match picked {
        Some(image) => image.reference == reference,
        None => false,
    }
}

fn is_picked_image(picked: &Option<SelectedImage>, reference: &str) -> (result: bool)
    ensures
        result == image_is_picked(picked.deep_view(), reference@),
{
    match picked {
        Some(image) => same(image.reference.as_str(), reference),
        None => false,
    }
}

/// What the menu of an image acts on: its number is there where it is known.
pub open spec fn image_menu_of(key: Seq<char>, reference: Seq<char>, label: Seq<char>) -> ActionView {
    match shown_id(label, reference) {
        Some(id) => ActionView::With(Command::ImageMenu, seq![key, reference, id]),
        None => ActionView::With(Command::ImageMenu, seq![key, reference]),
    }
}

pub fn image_menu_action(key: &str, reference: &str, label: &str) -> (result: Action)
    ensures
        result.deep_view() == image_menu_of(key@, reference@, label@),
{
    match image_id_from_label(label, reference) {
        Some(id) => Action::With(Command::ImageMenu, texts3(key, reference, id.as_str())),
        None => Action::With(Command::ImageMenu, texts2(key, reference)),
    }
}

/// The menu of an image: a tag can only be removed where there is one.
pub open spec fn image_menu_items(
    key: Seq<char>,
    reference: Seq<char>,
    text: Seq<char>,
) -> Seq<ItemView> {
    if is_tagged(reference) {
        seq![
            menu_item(
                seq!["More…"@, "Remove Tag"@, "Delete Image"@],
                0,
                image_menu_of(key, reference, text),
                true,
                "Remove a tag or delete the underlying image after dependency checks"@,
            ),
        ]
    } else {
        seq![
            menu_item(
                seq!["More…"@, "Delete Image"@],
                0,
                image_menu_of(key, reference, text),
                true,
                "Remove a tag or delete the underlying image after dependency checks"@,
            ),
        ]
    }
}

pub fn image_menu(items: &mut Vec<Item>, key: &str, reference: &str, text: &str)
    ensures
        final(items).deep_view() == old(items).deep_view() + image_menu_items(
            key@,
            reference@,
            text@,
        ),
{
    if image_reference_has_tag(reference) {
        let options = texts3("More…", "Remove Tag", "Delete Image");
        menu(
            items,
            options,
            0,
            image_menu_action(key, reference, text),
            true,
            "Remove a tag or delete the underlying image after dependency checks",
        );
    } else {
        let options = texts2("More…", "Delete Image");
        menu(
            items,
            options,
            0,
            image_menu_action(key, reference, text),
            true,
            "Remove a tag or delete the underlying image after dependency checks",
        );
    }
}

/// A row of the images: an image, or what is said instead.
pub open spec fn image_card_items(
    entry: ImageRowView,
    runtime: Seq<char>,
    key: Seq<char>,
    picked: Option<SelectedImageView>,
) -> Seq<ItemView> {
    match entry.reference {
        Some(reference) => seq![
            card_item(image_is_picked(picked, reference)),
            label_item(TextStyle::Mono, entry.label),
            area_item(
                ActionView::With(
                    Command::SelectImage,
                    seq![runtime, key, reference, entry.label],
                ),
            ),
            button_item(
                "Create Application"@,
                ActionView::With(Command::CreateFromImage, seq![key, reference]),
                true,
                "Create an application profile from this image"@,
            ),
        ] + image_menu_items(key, reference, entry.label),
        None => seq![label_item(TextStyle::Caption, entry.label)],
    }
}

pub fn image_card(
    items: &mut Vec<Item>,
    entry: &ImageRow,
    runtime: &str,
    key: &str,
    picked: &Option<SelectedImage>,
)
    ensures
        final(items).deep_view() == old(items).deep_view() + image_card_items(
            entry.deep_view(),
            runtime@,
            key@,
            picked.deep_view(),
        ),
{
    match &entry.reference {
        Some(reference) => {
            card(items, is_picked_image(picked, reference.as_str()));
            label(items, TextStyle::Mono, entry.label.as_str());
            let names = texts4(runtime, key, reference.as_str(), entry.label.as_str());
            area(items, Action::With(Command::SelectImage, names));
            let names = texts2(key, reference.as_str());
            button(
                items,
                "Create Application",
                Action::With(Command::CreateFromImage, names),
                true,
                "Create an application profile from this image",
            );
            image_menu(items, key, reference.as_str(), entry.label.as_str());
        },
        None => {
            label(items, TextStyle::Caption, entry.label.as_str());
        },
    }
}

/// The rows of the images of a runtime.
pub open spec fn image_cards_items(
    entries: Seq<ImageRowView>,
    runtime: Seq<char>,
    key: Seq<char>,
    picked: Option<SelectedImageView>,
) -> Seq<ItemView>
    decreases entries.len(),
{
    if entries.len() == 0 {
        Seq::empty()
    } else {
        image_cards_items(entries.drop_last(), runtime, key, picked) + image_card_items(entries.last(), runtime, key, picked)
    }
}

pub fn image_cards(
    items: &mut Vec<Item>,
    entries: &Vec<ImageRow>,
    most: usize,
    runtime: &str,
    key: &str,
    picked: &Option<SelectedImage>,
)
    ensures
        final(items).deep_view() == old(items).deep_view() + image_cards_items(
            first_of(entries.deep_view(), most as nat), runtime@, key@, picked.deep_view(),
        ),
{
    let ghost before = items.deep_view();
    let ghost all = entries.deep_view();
    let count: usize = shown_count(entries.len(), most);
    assert(image_cards_items(all.take(0), runtime@, key@, picked.deep_view()) == Seq::<ItemView>::empty());
    for i in 0..count
        invariant
            all == entries.deep_view(),
            count <= entries@.len(),
            items.deep_view() == before + image_cards_items(all.take(i as int), runtime@, key@, picked.deep_view()),
    {
        image_card(items, &entries[i], runtime, key, picked);
        assert(all.take(i + 1).drop_last() == all.take(i as int));
        assert(all.take(i + 1).last() == entries@[i as int].deep_view());
    }
    assert(all.take(count as int) == first_of(all, most as nat));
}

/// The first images of a runtime under its name.
pub open spec fn image_shelf_items(
    inventory: ImageInventoryView,
    picked: Option<SelectedImageView>,
) -> Seq<ItemView> {
    seq![label_item(TextStyle::Heading, inventory.runtime)]
        + image_cards_items(
            first_of(inventory.rows, 10),
            inventory.runtime,
            inventory.runtime_key,
            picked,
        )
}

pub fn image_shelf(
    items: &mut Vec<Item>,
    inventory: &ImageInventory,
    picked: &Option<SelectedImage>,
)
    ensures
        final(items).deep_view() == old(items).deep_view() + image_shelf_items(
            inventory.deep_view(),
            picked.deep_view(),
        ),
{
    label(items, TextStyle::Heading, inventory.runtime.as_str());
    image_cards(
        items,
        &inventory.rows,
        10,
        inventory.runtime.as_str(),
        inventory.runtime_key.as_str(),
        picked,
    );
}

/// The images of all runtimes.
pub open spec fn image_shelves_items(
    inventories: Seq<ImageInventoryView>,
    picked: Option<SelectedImageView>,
) -> Seq<ItemView>
    decreases inventories.len(),
{
    if inventories.len() == 0 {
        Seq::empty()
    } else {
        image_shelves_items(inventories.drop_last(), picked) + image_shelf_items(inventories.last(), picked)
    }
}

pub fn image_shelves(
    items: &mut Vec<Item>,
    inventories: &Vec<ImageInventory>,
    picked: &Option<SelectedImage>,
)
    ensures
        final(items).deep_view() == old(items).deep_view() + image_shelves_items(
            inventories.deep_view(), picked.deep_view(),
        ),
{
    let ghost before = items.deep_view();
    let ghost all = inventories.deep_view();
    assert(image_shelves_items(all.take(0), picked.deep_view()) == Seq::<ItemView>::empty());
    for i in 0..inventories.len()
        invariant
            all == inventories.deep_view(),
            items.deep_view() == before + image_shelves_items(all.take(i as int), picked.deep_view()),
    {
        image_shelf(items, &inventories[i], picked);
        assert(all.take(i + 1).drop_last() == all.take(i as int));
        assert(all.take(i + 1).last() == inventories@[i as int].deep_view());
    }
    assert(all.take(all.len() as int) == all);
}

/// The page of images: where they come from, what there is, and how to be rid
/// of them.
pub open spec fn images_list_items(
    inventories: Seq<ImageInventoryView>,
    registries: Seq<char>,
    picked: Option<SelectedImageView>,
) -> Seq<ItemView> {
    seq![
        label_item(TextStyle::Title, "Local Images"@),
        card_item(false),
        label_item(TextStyle::Heading, "Sources & images"@),
        label_item(TextStyle::Caption, "Pull from Docker Hub, GHCR, Quay, or any OCI registry."@),
        label_item(TextStyle::Caption, registries),
        button_item(
            "Pull from Source..."@,
            ActionView::Do(Command::PullImage),
            true,
            "Choose a registry, platform, destination, and post-pull action"@,
        ),
        button_item(
            "Registry Login..."@,
            ActionView::Do(Command::LoginRegistry),
            true,
            "Log in to a private OCI registry through Apple Container"@,
        ),
        button_item(
            "Build Example"@,
            ActionView::Do(Command::BuildExample),
            true,
            "Build the bundled example image with Apple Container"@,
        ),
        button_item(
            "Import OCI Archive..."@,
            ActionView::Do(Command::LoadImage),
            true,
            "Load an OCI image tar archive into Apple Container"@,
        ),
    ] + image_shelves_items(inventories, picked)
        + seq![
            label_item(TextStyle::Heading, "Maintenance"@),
            card_item(false),
            label_item(TextStyle::Body, "Delete a local image"@),
            label_item(
                TextStyle::Caption,
                "Destructive image cleanup is separate from creating an application profile."@,
            ),
            button_item(
                "Delete Image..."@,
                ActionView::Do(Command::DeleteImage),
                true,
                "Delete a local image by runtime and reference"@,
            ),
        ]
}

pub fn add_images_list(
    items: &mut Vec<Item>,
    inventories: &Vec<ImageInventory>,
    registries: &str,
    picked: &Option<SelectedImage>,
)
    ensures
        final(items).deep_view() == old(items).deep_view() + images_list_items(
            inventories.deep_view(),
            registries@,
            picked.deep_view(),
        ),
{
    label(items, TextStyle::Title, "Local Images");
    card(items, false);
    label(items, TextStyle::Heading, "Sources & images");
    label(items, TextStyle::Caption, "Pull from Docker Hub, GHCR, Quay, or any OCI registry.");
    label(items, TextStyle::Caption, registries);
    button(
        items,
        "Pull from Source...",
        Action::Do(Command::PullImage),
        true,
        "Choose a registry, platform, destination, and post-pull action",
    );
    button(
        items,
        "Registry Login...",
        Action::Do(Command::LoginRegistry),
        true,
        "Log in to a private OCI registry through Apple Container",
    );
    button(
        items,
        "Build Example",
        Action::Do(Command::BuildExample),
        true,
        "Build the bundled example image with Apple Container",
    );
    button(
        items,
        "Import OCI Archive...",
        Action::Do(Command::LoadImage),
        true,
        "Load an OCI image tar archive into Apple Container",
    );
    image_shelves(items, inventories, picked);
    label(items, TextStyle::Heading, "Maintenance");
    card(items, false);
    label(items, TextStyle::Body, "Delete a local image");
    label(
        items,
        TextStyle::Caption,
        "Destructive image cleanup is separate from creating an application profile.",
    );
    button(
        items,
        "Delete Image...",
        Action::Do(Command::DeleteImage),
        true,
        "Delete a local image by runtime and reference",
    );
}

// ---------------------------------------------------------------------------
// Volumes
// ---------------------------------------------------------------------------
/// A row of the volumes, with what is known of the volume.
#[derive(Debug)]
pub struct VolumeEntry {
    pub row: VolumeRow,
    pub usage: VolumeUsage,
    pub metadata: VolumeMetadata,
}

#[verifier::ext_equal]
pub struct VolumeEntryView {
    pub row: VolumeRowView,
    pub usage: UsageView,
    pub metadata: VolumeMetadataView,
}

impl DeepView for VolumeEntry {
    type V = VolumeEntryView;

    open spec fn deep_view(&self) -> VolumeEntryView {
        VolumeEntryView {
            row: self.row.deep_view(),
            usage: self.usage.deep_view(),
            metadata: self.metadata.deep_view(),
        }
    }
}

/// The volumes of a runtime under its name.
#[derive(Debug)]
pub struct VolumeShelf {
    pub runtime: String,
    pub runtime_key: String,
    pub entries: Vec<VolumeEntry>,
}

#[verifier::ext_equal]
pub struct VolumeShelfView {
    pub runtime: Seq<char>,
    pub runtime_key: Seq<char>,
    pub entries: Seq<VolumeEntryView>,
}

impl DeepView for VolumeShelf {
    type V = VolumeShelfView;

    open spec fn deep_view(&self) -> VolumeShelfView {
        VolumeShelfView {
            runtime: self.runtime@,
            runtime_key: self.runtime_key@,
            entries: self.entries.deep_view(),
        }
    }
}

/// Whether a volume is the picked one.
pub open spec fn volume_is_picked(
    picked: Option<SelectedVolumeView>,
    key: Seq<char>,
    name: Seq<char>,
) -> bool {
    match picked {
        Some(volume) => volume.name == name && volume.runtime_key == key,
        None => false,
    }
}

fn is_picked_volume(picked: &Option<SelectedVolume>, key: &str, name: &str) -> (result: bool)
    ensures
        result == volume_is_picked(picked.deep_view(), key@, name@),
{
    match picked {
        Some(volume) => same(volume.name.as_str(), name) && same(volume.runtime_key.as_str(), key),
        None => false,
    }
}

/// What is said of the use of a volume.
pub open spec fn usage_summary_of(usage: UsageView) -> Seq<char> {
    if usage.loading {
        "Checking profile and container usage..."@
    } else {
        match usage.error {
            Some(error) => shortened(error, 56),
            None => decimal(usage.referenced_profiles.len()) + " referenced · "@ + decimal(
                usage.mounted_containers.len(),
            ) + " mounted"@,
        }
    }
}

pub fn usage_summary(usage: &VolumeUsage) -> (result: String)
    ensures
        result@ == usage_summary_of(usage.deep_view()),
{
    if usage.loading {
        return "Checking profile and container usage...".to_owned();
    }
    match &usage.error {
        Some(error) => short_text(error.as_str(), 56),
        None => {
            assert(usage.referenced_profiles.deep_view().len() == usage.referenced_profiles@.len());
            assert(usage.mounted_containers.deep_view().len() == usage.mounted_containers@.len());
            let referenced = count_text(usage.referenced_profiles.len());
            let mounted = count_text(usage.mounted_containers.len());
            concat4(referenced.as_str(), " referenced · ", mounted.as_str(), " mounted")
        },
    }
}

/// Whether a volume may be deleted: it is known that no container mounts it.
pub open spec fn deletable(usage: UsageView) -> bool {
    !usage.loading && usage.error is None && usage.mounted_containers.len() == 0
}

pub fn volume_is_deletable(usage: &VolumeUsage) -> (result: bool)
    ensures
        result == deletable(usage.deep_view()),
{
    assert(usage.mounted_containers.deep_view().len() == usage.mounted_containers@.len());
    !usage.loading && usage.error.is_none() && usage.mounted_containers.len() == 0
}

/// Why a volume may not be deleted, or what happens where it may.
pub open spec fn delete_note(usage: UsageView, allowed: Seq<char>) -> Seq<char> {
    if usage.mounted_containers.len() > 0 {
        "Mounted by: "@ + joined(usage.mounted_containers, ", "@)
    } else if usage.loading {
        "Wait for the volume usage check to finish"@
    } else {
        match usage.error {
            Some(error) => "Usage could not be verified: "@ + error,
            None => allowed,
        }
    }
}

pub fn delete_tooltip(usage: &VolumeUsage, allowed: &str) -> (result: String)
    ensures
        result@ == delete_note(usage.deep_view(), allowed@),
{
    assert(usage.mounted_containers.deep_view().len() == usage.mounted_containers@.len());
    if usage.mounted_containers.len() > 0 {
        let names = join(&usage.mounted_containers, ", ");
        return concat("Mounted by: ", names.as_str());
    }
    if usage.loading {
        return "Wait for the volume usage check to finish".to_owned();
    }
    match &usage.error {
        Some(error) => concat("Usage could not be verified: ", error.as_str()),
        None => allowed.to_owned(),
    }
}

/// A volume that is mounted, or of which it is not known, cannot be deleted, and
/// the note on the button says so.
pub proof fn law_delete_is_explained(usage: UsageView, allowed: Seq<char>)
    ensures
        deletable(usage) ==> delete_note(usage, allowed) == allowed,
        usage.mounted_containers.len() > 0 ==> !deletable(usage) && delete_note(usage, allowed)
            == "Mounted by: "@ + joined(usage.mounted_containers, ", "@),
{
}

/// A row of the volumes: a volume, or what is said instead.
pub open spec fn volume_card_items(
    entry: VolumeEntryView,
    runtime: Seq<char>,
    key: Seq<char>,
    picked: Option<SelectedVolumeView>,
) -> Seq<ItemView> {
    match entry.row.name {
        Some(name) => seq![
            card_item(volume_is_picked(picked, key, name)),
            label_item(TextStyle::Heading, name),
            label_item(
                TextStyle::Caption,
                entry.metadata.kind + " · "@ + entry.metadata.size + " · "@
                    + entry.metadata.created,
            ),
            label_item(TextStyle::Caption, usage_summary_of(entry.usage)),
            area_item(
                ActionView::With(
                    Command::SelectVolume,
                    seq![runtime, key, name, entry.row.label],
                ),
            ),
            button_item(
                "Delete"@,
                ActionView::With(Command::DeleteVolume, seq![key, name]),
                deletable(entry.usage),
                delete_note(entry.usage, "Delete this local volume after a dependency check"@),
            ),
        ],
        None => (if "No "@.is_prefix_of(entry.row.label) {
            seq![
                card_item(false),
                label_item(TextStyle::Heading, entry.row.label),
                label_item(
                    TextStyle::Caption,
                    "Volumes preserve application data between launches."@,
                ),
                button_item("Create Volume"@, ActionView::Do(Command::CreateVolume), true, ""@),
            ]
        } else {
            seq![label_item(TextStyle::Caption, entry.row.label)]
        }),
    }
}

pub fn volume_card(
    items: &mut Vec<Item>,
    entry: &VolumeEntry,
    runtime: &str,
    key: &str,
    picked: &Option<SelectedVolume>,
)
    ensures
        final(items).deep_view() == old(items).deep_view() + volume_card_items(
            entry.deep_view(),
            runtime@,
            key@,
            picked.deep_view(),
        ),
{
    match &entry.row.name {
        Some(name) => {
            card(items, is_picked_volume(picked, key, name.as_str()));
            label(items, TextStyle::Heading, name.as_str());
            let text = concat5(
                entry.metadata.kind.as_str(),
                " · ",
                entry.metadata.size.as_str(),
                " · ",
                entry.metadata.created.as_str(),
            );
            label(items, TextStyle::Caption, text.as_str());
            let summary = usage_summary(&entry.usage);
            label(items, TextStyle::Caption, summary.as_str());
            let names = texts4(runtime, key, name.as_str(), entry.row.label.as_str());
            area(items, Action::With(Command::SelectVolume, names));
            let note = delete_tooltip(&entry.usage, "Delete this local volume after a dependency check");
            let names = texts2(key, name.as_str());
            button(
                items,
                "Delete",
                Action::With(Command::DeleteVolume, names),
                volume_is_deletable(&entry.usage),
                note.as_str(),
            );
        },
        None => {
            if starts_with(entry.row.label.as_str(), "No ") {
                card(items, false);
                label(items, TextStyle::Heading, entry.row.label.as_str());
                label(items, TextStyle::Caption, "Volumes preserve application data between launches.");
                button(items, "Create Volume", Action::Do(Command::CreateVolume), true, "");
            } else {
                label(items, TextStyle::Caption, entry.row.label.as_str());
            }
        },
    }
}

/// The rows of the volumes of a runtime.
pub open spec fn volume_cards_items(
    entries: Seq<VolumeEntryView>,
    runtime: Seq<char>,
    key: Seq<char>,
    picked: Option<SelectedVolumeView>,
) -> Seq<ItemView>
    decreases entries.len(),
{
    if entries.len() == 0 {
        Seq::empty()
    } else {
        volume_cards_items(entries.drop_last(), runtime, key, picked) + volume_card_items(entries.last(), runtime, key, picked)
    }
}

pub fn volume_cards(
    items: &mut Vec<Item>,
    entries: &Vec<VolumeEntry>,
    most: usize,
    runtime: &str,
    key: &str,
    picked: &Option<SelectedVolume>,
)
    ensures
        final(items).deep_view() == old(items).deep_view() + volume_cards_items(
            first_of(entries.deep_view(), most as nat), runtime@, key@, picked.deep_view(),
        ),
{
    let ghost before = items.deep_view();
    let ghost all = entries.deep_view();
    let count: usize = shown_count(entries.len(), most);
    assert(volume_cards_items(all.take(0), runtime@, key@, picked.deep_view()) == Seq::<ItemView>::empty());
    for i in 0..count
        invariant
            all == entries.deep_view(),
            count <= entries@.len(),
            items.deep_view() == before + volume_cards_items(all.take(i as int), runtime@, key@, picked.deep_view()),
    {
        volume_card(items, &entries[i], runtime, key, picked);
        assert(all.take(i + 1).drop_last() == all.take(i as int));
        assert(all.take(i + 1).last() == entries@[i as int].deep_view());
    }
    assert(all.take(count as int) == first_of(all, most as nat));
}

/// The first volumes of a runtime under its name.
pub open spec fn volume_shelf_items(
    shelf: VolumeShelfView,
    picked: Option<SelectedVolumeView>,
) -> Seq<ItemView> {
    seq![label_item(TextStyle::Heading, shelf.runtime)]
        + volume_cards_items(
            first_of(shelf.entries, 10),
            shelf.runtime,
            shelf.runtime_key,
            picked,
        )
}

pub fn volume_shelf(items: &mut Vec<Item>, shelf: &VolumeShelf, picked: &Option<SelectedVolume>)
    ensures
        final(items).deep_view() == old(items).deep_view() + volume_shelf_items(
            shelf.deep_view(),
            picked.deep_view(),
        ),
{
    label(items, TextStyle::Heading, shelf.runtime.as_str());
    volume_cards(
        items,
        &shelf.entries,
        10,
        shelf.runtime.as_str(),
        shelf.runtime_key.as_str(),
        picked,
    );
}

/// The volumes of all runtimes.
pub open spec fn volume_shelves_items(
    shelves: Seq<VolumeShelfView>,
    picked: Option<SelectedVolumeView>,
) -> Seq<ItemView>
    decreases shelves.len(),
{
    if shelves.len() == 0 {
        Seq::empty()
    } else {
        volume_shelves_items(shelves.drop_last(), picked) + volume_shelf_items(shelves.last(), picked)
    }
}

pub fn volume_shelves(
    items: &mut Vec<Item>,
    shelves: &Vec<VolumeShelf>,
    picked: &Option<SelectedVolume>,
)
    ensures
        final(items).deep_view() == old(items).deep_view() + volume_shelves_items(
            shelves.deep_view(), picked.deep_view(),
        ),
{
    let ghost before = items.deep_view();
    let ghost all = shelves.deep_view();
    assert(volume_shelves_items(all.take(0), picked.deep_view()) == Seq::<ItemView>::empty());
    for i in 0..shelves.len()
        invariant
            all == shelves.deep_view(),
            items.deep_view() == before + volume_shelves_items(all.take(i as int), picked.deep_view()),
    {
        volume_shelf(items, &shelves[i], picked);
        assert(all.take(i + 1).drop_last() == all.take(i as int));
        assert(all.take(i + 1).last() == shelves@[i as int].deep_view());
    }
    assert(all.take(all.len() as int) == all);
}

/// The page of volumes.
pub open spec fn volumes_list_items(
    shelves: Seq<VolumeShelfView>,
    picked: Option<SelectedVolumeView>,
) -> Seq<ItemView> {
    seq![
        label_item(TextStyle::Title, "Local Volumes"@),
        card_item(false),
        label_item(TextStyle::Heading, "Volume actions"@),
        label_item(
            TextStyle::Caption,
            "Create persistent storage in Apple Container or the active Docker context."@,
        ),
        button_item(
            "Create Volume..."@,
            ActionView::Do(Command::CreateVolume),
            true,
            "Create a named volume in Apple Container or Docker"@,
        ),
    ] + volume_shelves_items(shelves, picked)
}

pub fn add_volumes_list(
    items: &mut Vec<Item>,
    shelves: &Vec<VolumeShelf>,
    picked: &Option<SelectedVolume>,
)
    ensures
        final(items).deep_view() == old(items).deep_view() + volumes_list_items(
            shelves.deep_view(),
            picked.deep_view(),
        ),
{
    label(items, TextStyle::Title, "Local Volumes");
    card(items, false);
    label(items, TextStyle::Heading, "Volume actions");
    label(
        items,
        TextStyle::Caption,
        "Create persistent storage in Apple Container or the active Docker context.",
    );
    button(
        items,
        "Create Volume...",
        Action::Do(Command::CreateVolume),
        true,
        "Create a named volume in Apple Container or Docker",
    );
    volume_shelves(items, shelves, picked);
}

} // verus!
