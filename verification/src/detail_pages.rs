//! What is said of the image, the volume or the container that is picked.
use vstd::prelude::*;
use vstd::string::*;

use crate::container_mode::{
    ContainerMode, DetailsView, ModeView, RuntimeContainerDetails, SelectedContainerView,
    SelectedImage, SelectedImageView, SelectedRuntimeContainer, SelectedVolume,
    SelectedVolumeView,
};
use crate::container_sessions::{ContainerSession, SessionView};
use crate::page::{
    button, button_item, card, card_item, first_of, fitted, fitted_item, label, label_item,
    lines_item, row, row_item, wrapped_lines, Action, ActionView, Command, Item, ItemView,
    TextStyle,
};
use crate::profiles::{counted, format_count, runtime_label, shown_runtime};
use crate::resource_pages::{
    deletable, delete_note, delete_tooltip, image_menu, image_menu_items, volume_is_deletable,
};
use crate::runtime_pages::{mono_lines, mono_lines_items};
use crate::storage::{
    all_references, image_id_from_label, image_references_for_id, image_user_names, image_users,
    name_and_tag, shown_id, split_image_reference, ImageInventory, UsageView, VolumeMetadata,
    VolumeMetadataView, VolumeUsage,
};
use crate::text::{
    ascending, concat, concat3, copy_list, join, joined, push_text, same, short_text, shortened,
    texts1, texts2,
};

verus! {

// ---------------------------------------------------------------------------
// An image
// ---------------------------------------------------------------------------
/// All references of the picked image: those with its number, in order and each
/// once, or just its own where its number is not known or not found.
pub fn known_tags(inventories: &Vec<ImageInventory>, image: &SelectedImage) -> (result: Vec<String>)
    ensures
        ({
            let found = match shown_id(image.label@, image.reference@) {
                Some(id) => all_references(inventories.deep_view(), image.runtime_key@, id),
                None => Seq::empty(),
            };
            if found.len() == 0 {
                result.deep_view() == seq![image.reference@]
            } else {
                &&& ascending(result.deep_view())
                &&& result.deep_view().to_set() == found.to_set()
            }
        }),
{
    if let Some(id) = image_id_from_label(image.label.as_str(), image.reference.as_str()) {
        let references = image_references_for_id(
            inventories,
            image.runtime_key.as_str(),
            id.as_str(),
        );
        let ghost found = all_references(inventories.deep_view(), image.runtime_key@, id@);
        let ghost listed = references.deep_view();
        assert(listed.len() == references@.len());
        if references.len() > 0 {
            assert(listed.to_set().contains(listed[0]));
            assert(found.to_set().contains(listed[0]));
            return references;
        }
        proof {
            if found.len() > 0 {
                assert(found.to_set().contains(found[0]));
                assert(listed.to_set().contains(found[0]));
            }
        }
    }
    texts1(image.reference.as_str())
}

/// The number of an image, or that it is not known.
pub open spec fn id_or_unknown(image: SelectedImageView) -> Seq<char> {
    match shown_id(image.label, image.reference) {
        Some(id) => id,
        None => "Unknown"@,
    }
}

fn id_text(image: &SelectedImage) -> (result: String)
    ensures
        result@ == id_or_unknown(image.deep_view()),
{
    match image_id_from_label(image.label.as_str(), image.reference.as_str()) {
        Some(id) => id,
        None => "Unknown".to_owned(),
    }
}

/// Names in a row, or that there are none.
pub open spec fn names_or_none(names: Seq<Seq<char>>, separator: Seq<char>) -> Seq<char> {
    if names.len() == 0 {
        "None"@
    } else {
        joined(names, separator)
    }
}

fn names_text(names: &Vec<String>, separator: &str) -> (result: String)
    ensures
        result@ == names_or_none(names.deep_view(), separator@),
{
    assert(names.deep_view().len() == names@.len());
    if names.len() == 0 {
        "None".to_owned()
    } else {
        join(names, separator)
    }
}

/// How many instances run, and of which profiles.
pub open spec fn running_summary(names: Seq<Seq<char>>) -> Seq<char> {
    if names.len() == 0 {
        "0 instances"@
    } else {
        counted(names.len(), "instance"@) + ": "@ + joined(names, ", "@)
    }
}

fn running_text(names: &Vec<String>) -> (result: String)
    ensures
        result@ == running_summary(names.deep_view()),
{
    assert(names.deep_view().len() == names@.len());
    if names.len() == 0 {
        "0 instances".to_owned()
    } else {
        let count = format_count(names.len(), "instance");
        let list = join(names, ", ");
        concat3(count.as_str(), ": ", list.as_str())
    }
}

/// The first lines of what a runtime says of something.
pub open spec fn inspect_preview_items(preview: Seq<Seq<char>>) -> Seq<ItemView> {
    seq![card_item(false), label_item(TextStyle::Heading, "Inspect Preview"@)]
        + mono_lines_items(first_of(preview, 4))
}

pub fn inspect_preview(items: &mut Vec<Item>, preview: &Vec<String>)
    ensures
        final(items).deep_view() == old(items).deep_view() + inspect_preview_items(
            preview.deep_view(),
        ),
{
    card(items, false);
    label(items, TextStyle::Heading, "Inspect Preview");
    mono_lines(items, preview, 4);
}

/// What is known of an image.
pub open spec fn image_rows_items(
    image: SelectedImageView,
    tags: Seq<Seq<char>>,
    mode: ModeView,
    sessions: Seq<SessionView>,
) -> Seq<ItemView> {
    seq![
        card_item(false),
        label_item(TextStyle::Heading, "Image Details"@),
        row_item("Repository"@, name_and_tag(image.reference).0),
        row_item("Tag"@, name_and_tag(image.reference).1),
        row_item("Image ID"@, id_or_unknown(image)),
        row_item("Runtime"@, image.runtime),
        row_item("Known Tags"@, names_or_none(tags, "\n"@)),
        row_item(
            "Applications"@,
            names_or_none(
                image_users(sessions, mode.active_sessions, image.runtime_key, tags, false),
                ", "@,
            ),
        ),
        row_item(
            "Running"@,
            running_summary(
                image_users(sessions, mode.active_sessions, image.runtime_key, tags, true),
            ),
        ),
    ]
}

pub fn image_rows(
    items: &mut Vec<Item>,
    image: &SelectedImage,
    tags: &Vec<String>,
    mode: &ContainerMode,
    sessions: &Vec<ContainerSession>,
)
    ensures
        final(items).deep_view() == old(items).deep_view() + image_rows_items(
            image.deep_view(),
            tags.deep_view(),
            mode.deep_view(),
            sessions.deep_view(),
        ),
{
    let (repository, tag) = split_image_reference(image.reference.as_str());
    let users = image_user_names(mode, sessions, image.runtime_key.as_str(), tags, false);
    let running = image_user_names(mode, sessions, image.runtime_key.as_str(), tags, true);
    card(items, false);
    label(items, TextStyle::Heading, "Image Details");
    row(items, "Repository", repository);
    row(items, "Tag", tag);
    let id = id_text(image);
    row(items, "Image ID", id.as_str());
    row(items, "Runtime", image.runtime.as_str());
    let names = names_text(tags, "\n");
    row(items, "Known Tags", names.as_str());
    let names = names_text(&users, ", ");
    row(items, "Applications", names.as_str());
    let instances = running_text(&running);
    row(items, "Running", instances.as_str());
}

/// The image that is picked.
pub open spec fn image_detail_items(
    image: SelectedImageView,
    tags: Seq<Seq<char>>,
    mode: ModeView,
    sessions: Seq<SessionView>,
    preview: Seq<Seq<char>>,
) -> Seq<ItemView> {
    seq![
        label_item(TextStyle::Title, shortened(image.reference, 52)),
        label_item(TextStyle::Body, image.runtime + " image in the local runtime store"@),
        button_item(
            "Create Application"@,
            ActionView::With(Command::CreateFromImage, seq![image.runtime_key, image.reference]),
            true,
            "Create an application profile from this image"@,
        ),
    ] + image_menu_items(image.runtime_key, image.reference, image.label)
        + image_rows_items(image, tags, mode, sessions) + inspect_preview_items(preview)
}

pub fn add_image_detail(
    items: &mut Vec<Item>,
    image: &SelectedImage,
    tags: &Vec<String>,
    mode: &ContainerMode,
    sessions: &Vec<ContainerSession>,
    preview: &Vec<String>,
)
    ensures
        final(items).deep_view() == old(items).deep_view() + image_detail_items(
            image.deep_view(),
            tags.deep_view(),
            mode.deep_view(),
            sessions.deep_view(),
            preview.deep_view(),
        ),
{
    let short = short_text(image.reference.as_str(), 52);
    label(items, TextStyle::Title, short.as_str());
    let text = concat(image.runtime.as_str(), " image in the local runtime store");
    label(items, TextStyle::Body, text.as_str());
    let names = texts2(image.runtime_key.as_str(), image.reference.as_str());
    button(
        items,
        "Create Application",
        Action::With(Command::CreateFromImage, names),
        true,
        "Create an application profile from this image",
    );
    image_menu(items, image.runtime_key.as_str(), image.reference.as_str(), image.label.as_str());
    image_rows(items, image, tags, mode, sessions);
    inspect_preview(items, preview);
}

// ---------------------------------------------------------------------------
// A volume
// ---------------------------------------------------------------------------
/// The containers that mount a volume, as far as that is known.
pub open spec fn mounted_by(usage: UsageView) -> Seq<char> {
    if usage.loading {
        "Checking..."@
    } else {
        match usage.error {
            Some(error) => "Unavailable: "@ + error,
            None => names_or_none(usage.mounted_containers, ", "@),
        }
    }
}

fn mounted_text(usage: &VolumeUsage) -> (result: String)
    ensures
        result@ == mounted_by(usage.deep_view()),
{
    if usage.loading {
        return "Checking...".to_owned();
    }
    match &usage.error {
        Some(error) => concat("Unavailable: ", error.as_str()),
        None => names_text(&usage.mounted_containers, ", "),
    }
}

/// The volume that is picked.
pub open spec fn volume_detail_items(
    volume: SelectedVolumeView,
    usage: UsageView,
    metadata: VolumeMetadataView,
    preview: Seq<Seq<char>>,
) -> Seq<ItemView> {
    seq![
        label_item(TextStyle::Title, shortened(volume.name, 52)),
        label_item(TextStyle::Body, volume.runtime + " local volume"@),
        button_item(
            "Delete Volume"@,
            ActionView::With(Command::DeleteVolume, seq![volume.runtime_key, volume.name]),
            deletable(usage),
            delete_note(usage, "Delete this volume after confirmation"@),
        ),
        card_item(false),
        label_item(TextStyle::Heading, "Volume Details"@),
        row_item("Name"@, volume.name),
        row_item("Runtime"@, volume.runtime),
        row_item("Type / Driver"@, metadata.kind),
        row_item("Size"@, metadata.size),
        row_item("Created"@, metadata.created),
        row_item("Referenced Profiles"@, names_or_none(usage.referenced_profiles, ", "@)),
        row_item("Mounted Containers"@, mounted_by(usage)),
    ] + inspect_preview_items(preview)
}

pub fn add_volume_detail(
    items: &mut Vec<Item>,
    volume: &SelectedVolume,
    usage: &VolumeUsage,
    metadata: &VolumeMetadata,
    preview: &Vec<String>,
)
    ensures
        final(items).deep_view() == old(items).deep_view() + volume_detail_items(
            volume.deep_view(),
            usage.deep_view(),
            metadata.deep_view(),
            preview.deep_view(),
        ),
{
    let short = short_text(volume.name.as_str(), 52);
    label(items, TextStyle::Title, short.as_str());
    let text = concat(volume.runtime.as_str(), " local volume");
    label(items, TextStyle::Body, text.as_str());
    let note = delete_tooltip(usage, "Delete this volume after confirmation");
    let names = texts2(volume.runtime_key.as_str(), volume.name.as_str());
    button(
        items,
        "Delete Volume",
        Action::With(Command::DeleteVolume, names),
        volume_is_deletable(usage),
        note.as_str(),
    );
    card(items, false);
    label(items, TextStyle::Heading, "Volume Details");
    row(items, "Name", volume.name.as_str());
    row(items, "Runtime", volume.runtime.as_str());
    row(items, "Type / Driver", metadata.kind.as_str());
    row(items, "Size", metadata.size.as_str());
    row(items, "Created", metadata.created.as_str());
    let names = names_text(&usage.referenced_profiles, ", ");
    row(items, "Referenced Profiles", names.as_str());
    let containers = mounted_text(usage);
    row(items, "Mounted Containers", containers.as_str());
    inspect_preview(items, preview);
}

// ---------------------------------------------------------------------------
// A container
// ---------------------------------------------------------------------------
/// What a runtime has said of a container, where it was asked.
pub open spec fn details_of(
    details: Option<DetailsView>,
    container: SelectedContainerView,
) -> Option<DetailsView> {
    match details {
        Some(details) => if details.runtime == container.runtime && details.name
            == container.name {
            Some(details)
        } else {
            None
        },
        None => None,
    }
}

fn container_details<'a>(
    details: &'a Option<RuntimeContainerDetails>,
    container: &SelectedRuntimeContainer,
) -> (result: Option<&'a RuntimeContainerDetails>)
    ensures
        result.deep_view() == details_of(details.deep_view(), container.deep_view()),
{
    match details {
        Some(details) => if same(details.runtime.as_str(), container.runtime.as_str()) && same(
            details.name.as_str(),
            container.name.as_str(),
        ) {
            Some(details)
        } else {
            None
        },
        None => None,
    }
}

/// The lines on a container: with a warning where something went wrong, and never
/// none.
pub open spec fn info_lines_of(details: Option<DetailsView>, other: Seq<char>) -> Seq<Seq<char>> {
    let lines = match details {
        Some(details) => match details.error {
            Some(error) => details.info.push("Warning: "@ + error),
            None => details.info,
        },
        None => seq!["Loading runtime details..."@],
    };
    if lines.len() == 0 {
        seq![other]
    } else {
        lines
    }
}

fn info_lines(details: Option<&RuntimeContainerDetails>, other: &str) -> (result: Vec<String>)
    ensures
        result.deep_view() == info_lines_of(details.deep_view(), other@),
{
    let mut lines = match details {
        Some(details) => {
            let mut lines = copy_list(&details.info);
            if let Some(error) = &details.error {
                let warning = concat("Warning: ", error.as_str());
                push_text(&mut lines, warning.as_str());
            }
            lines
        },
        None => texts1("Loading runtime details..."),
    };
    assert(lines.deep_view().len() == lines@.len());
    if lines.len() == 0 {
        lines = texts1(other);
    }
    lines
}

/// Lines of a runtime under a title.
pub open spec fn runtime_output_card_items(
    title: Seq<char>,
    lines: Seq<Seq<char>>,
    rows: usize,
) -> Seq<ItemView> {
    seq![card_item(false), label_item(TextStyle::Heading, title), lines_item(lines, rows)]
}

pub fn add_runtime_output_card(
    items: &mut Vec<Item>,
    title: &str,
    lines: Vec<String>,
    rows: usize,
)
    ensures
        final(items).deep_view() == old(items).deep_view() + runtime_output_card_items(
            title@,
            lines.deep_view(),
            rows,
        ),
{
    card(items, false);
    label(items, TextStyle::Heading, title);
    wrapped_lines(items, lines, rows);
}

/// The container that is picked and what can be done with it.
pub open spec fn container_head_items(container: SelectedContainerView) -> Seq<ItemView> {
    seq![
        fitted_item(TextStyle::Title, container.name),
        label_item(
            TextStyle::Body,
            shown_runtime(container.runtime) + " container · "@
                + (if container.running { "Running"@ } else { "Stopped"@ }),
        ),
        button_item(
            if container.running { "Stop"@ } else { "Start"@ },
            if container.running {
                ActionView::With(Command::StopContainer, seq![container.runtime, container.name])
            } else {
                ActionView::With(Command::StartContainer, seq![container.runtime, container.name])
            },
            true,
            if container.running { "Stop this container"@ } else { "Start this container"@ },
        ),
        button_item(
            "Restart"@,
            ActionView::With(Command::RestartContainer, seq![container.runtime, container.name]),
            container.running,
            "Restart this container and refresh its details"@,
        ),
        button_item(
            "Terminal"@,
            ActionView::With(
                Command::OpenContainerTerminal,
                seq![container.runtime, container.name],
            ),
            container.running,
            "Open an interactive shell in macOS Terminal"@,
        ),
        button_item(
            "Refresh"@,
            ActionView::Do(Command::RefreshContainer),
            true,
            "Reload inspect, resource, and recent log output"@,
        ),
        button_item(
            "Delete"@,
            ActionView::With(Command::DeleteContainer, seq![container.runtime, container.name]),
            true,
            "Delete this container after confirmation"@,
        ),
    ]
}

pub fn container_head(items: &mut Vec<Item>, container: &SelectedRuntimeContainer)
    ensures
        final(items).deep_view() == old(items).deep_view() + container_head_items(
            container.deep_view(),
        ),
{
    fitted(items, TextStyle::Title, container.name.as_str());
    let word = if container.running {
        "Running"
    } else {
        "Stopped"
    };
    let text = concat3(runtime_label(container.runtime.as_str()), " container · ", word);
    label(items, TextStyle::Body, text.as_str());
    let word = if container.running {
        "Stop"
    } else {
        "Start"
    };
    let word2 = if container.running {
        "Stop this container"
    } else {
        "Start this container"
    };
    let action = if container.running {
        let names = texts2(container.runtime.as_str(), container.name.as_str());
        Action::With(Command::StopContainer, names)
    } else {
        let names = texts2(container.runtime.as_str(), container.name.as_str());
        Action::With(Command::StartContainer, names)
    };
    button(items, word, action, true, word2);
    let names = texts2(container.runtime.as_str(), container.name.as_str());
    button(
        items,
        "Restart",
        Action::With(Command::RestartContainer, names),
        container.running,
        "Restart this container and refresh its details",
    );
    let names = texts2(container.runtime.as_str(), container.name.as_str());
    button(
        items,
        "Terminal",
        Action::With(Command::OpenContainerTerminal, names),
        container.running,
        "Open an interactive shell in macOS Terminal",
    );
    button(
        items,
        "Refresh",
        Action::Do(Command::RefreshContainer),
        true,
        "Reload inspect, resource, and recent log output",
    );
    let names = texts2(container.runtime.as_str(), container.name.as_str());
    button(
        items,
        "Delete",
        Action::With(Command::DeleteContainer, names),
        true,
        "Delete this container after confirmation",
    );
}

/// The container that is picked and what its runtime says of it.
pub open spec fn runtime_container_detail_items(
    container: SelectedContainerView,
    details: Option<DetailsView>,
) -> Seq<ItemView> {
    container_head_items(container)
        + runtime_output_card_items(
            "Info"@,
            info_lines_of(details_of(details, container), container.label),
            4,
        )
        + runtime_output_card_items(
            "Resources"@,
            (match details_of(details, container) {
                Some(known) => known.stats,
                None => seq!["Waiting for a one-shot resource sample..."@],
            }),
            3,
        )
        + runtime_output_card_items(
            "Recent Logs"@,
            (match details_of(details, container) {
                Some(known) => known.logs,
                None => seq!["Waiting for recent container logs..."@],
            }),
            8,
        )
}

pub fn add_runtime_container_detail(
    items: &mut Vec<Item>,
    container: &SelectedRuntimeContainer,
    details: &Option<RuntimeContainerDetails>,
)
    ensures
        final(items).deep_view() == old(items).deep_view() + runtime_container_detail_items(
            container.deep_view(),
            details.deep_view(),
        ),
{
    let known = container_details(details, container);
    let info = info_lines(known, container.label.as_str());
    let stats = match known {
        Some(known) => copy_list(&known.stats),
        None => texts1("Waiting for a one-shot resource sample..."),
    };
    let logs = match known {
        Some(known) => copy_list(&known.logs),
        None => texts1("Waiting for recent container logs..."),
    };
    container_head(items, container);
    add_runtime_output_card(items, "Info", info, 4);
    add_runtime_output_card(items, "Resources", stats, 3);
    add_runtime_output_card(items, "Recent Logs", logs, 8);
}

} // verus!
