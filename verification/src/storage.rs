//! Images and volumes: what is there, what uses it, and what may be deleted.
use vstd::prelude::*;
use vstd::string::*;

use crate::container_mode::{active_of, ActiveView, ContainerMode};
use crate::container_sessions::{ContainerSession, SessionView};
use crate::diagnostics::{format_byte_count, leading_digits, size_text};
use crate::inventory::{
    column, command_problem, first_stderr_line, loading, loading_text, shown_complaint,
    ui_command_error,
};
use crate::json::{parse_array, parse_value, parsed_array, parsed_value, Json, JsonView};
use crate::profiles::{folded, runtime_label, shown_runtime};
use crate::session_launch::CommandOutput;
use crate::text::{
    after_prefix, ascending, concat, concat3, copy_list, drop_empty, empty_list,
    eq_ignore_ascii_case, has_text, join, joined, last_place, lemma_last_place, lines, lines_of,
    lossy, lossy_text, lowered, outcome, push_deep, push_text, rfind, same, sorted_distinct, split,
    split_at, split_first, split_once, split_whitespace, starts_with, strip_prefix,
    to_ascii_lowercase, trim, trimmed, without_empty, texts4, words_of,
};

verus! {

// ---------------------------------------------------------------------------
// Images
// ---------------------------------------------------------------------------
/// An image in a list, or a message in its place, which has no reference.
#[derive(Debug)]
pub struct ImageRow {
    pub label: String,
    pub reference: Option<String>,
}

#[verifier::ext_equal]
pub struct ImageRowView {
    pub label: Seq<char>,
    pub reference: Option<Seq<char>>,
}

impl DeepView for ImageRow {
    type V = ImageRowView;

    open spec fn deep_view(&self) -> ImageRowView {
        ImageRowView { label: self.label@, reference: self.reference.deep_view() }
    }
}

pub open spec fn image_message(label: Seq<char>) -> ImageRowView {
    ImageRowView { label, reference: None }
}

impl ImageRow {
    pub fn message(message: String) -> (result: Self)
        ensures
            result.deep_view() == image_message(message@),
    {
        ImageRow { label: message, reference: None }
    }
}

/// An image from a row of Apple Container's list; the heading has none.
pub open spec fn apple_image_row(line: Seq<char>) -> Option<ImageRowView> {
    let columns = words_of(line);
    if columns.len() == 0 || lowered(columns[0]) == lowered("name"@) {
        None
    } else {
        let tag = if columns.len() > 1 {
            columns[1]
        } else {
            ""@
        };
        let digest = if columns.len() > 2 {
            columns[2]
        } else {
            ""@
        };
        let reference = if tag.len() == 0 || tag == "<none>"@ {
            columns[0]
        } else {
            columns[0] + ":"@ + tag
        };
        Some(
            ImageRowView {
                label: if digest.len() == 0 {
                    reference
                } else {
                    reference + "    "@ + digest
                },
                reference: Some(reference),
            },
        )
    }
}

fn word_at(words: &Vec<String>, index: usize) -> (result: String)
    ensures
        result@ == (if index < words@.len() {
            words.deep_view()[index as int]
        } else {
            ""@
        }),
{
    if index < words.len() {
        words[index].clone()
    } else {
        "".to_owned()
    }
}

pub fn parse_apple_container_image_line(line: &str) -> (result: Option<ImageRow>)
    ensures
        result.deep_view() == apple_image_row(line@),
{
    let columns = split_whitespace(line);
    let ghost all = columns.deep_view();
    assert(all.len() == columns@.len());
    if columns.len() == 0 {
        return None;
    }
    assert(all[0] == columns@[0]@);
    let name = columns[0].as_str();
    if eq_ignore_ascii_case(name, "name") {
        return None;
    }
    let tag = word_at(&columns, 1);
    let digest = word_at(&columns, 2);
    let reference = if tag.as_str().unicode_len() == 0 || same(tag.as_str(), "<none>") {
        name.to_owned()
    } else {
        concat3(name, ":", tag.as_str())
    };
    let label = if digest.as_str().unicode_len() == 0 {
        reference.clone()
    } else {
        concat3(reference.as_str(), "    ", digest.as_str())
    };
    Some(ImageRow { label, reference: Some(reference) })
}

/// An image from a row of Docker's list. One without a name goes by its number.
pub open spec fn docker_image_row(line: Seq<char>) -> Option<ImageRowView> {
    let columns = split_at(line, '\t');
    let tagged = column(columns, 0);
    let id = column(columns, 1);
    let size = column(columns, 2);
    let reference = if "<none>:"@.is_prefix_of(tagged) {
        id
    } else {
        tagged
    };
    let metadata = joined(without_empty(seq![id, size]), "    "@);
    if tagged.len() == 0 || reference.len() == 0 {
        None
    } else {
        Some(
            ImageRowView {
                label: if metadata.len() == 0 {
                    reference
                } else {
                    reference + "    "@ + metadata
                },
                reference: Some(reference),
            },
        )
    }
}

fn column_text(parts: &Vec<String>, index: usize) -> (result: String)
    ensures
        result@ == column(parts.deep_view(), index as int),
{
    if index < parts.len() {
        assert(parts.deep_view()[index as int] == parts@[index as int]@);
        trim(parts[index].as_str()).to_owned()
    } else {
        "".to_owned()
    }
}

pub fn parse_docker_image_line(line: &str) -> (result: Option<ImageRow>)
    ensures
        result.deep_view() == docker_image_row(line@),
{
    let columns = split(line, '\t');
    let tagged = column_text(&columns, 0);
    let id = column_text(&columns, 1);
    let size = column_text(&columns, 2);
    if tagged.as_str().unicode_len() == 0 {
        return None;
    }
    let reference = if starts_with(tagged.as_str(), "<none>:") {
        id.clone()
    } else {
        tagged
    };
    if reference.as_str().unicode_len() == 0 {
        return None;
    }
    let mut parts: Vec<String> = empty_list();
    push_text(&mut parts, id.as_str());
    push_text(&mut parts, size.as_str());
    assert(parts.deep_view() == seq![id@, size@]);
    let filled = drop_empty(parts);
    let metadata = join(&filled, "    ");
    let label = if metadata.as_str().unicode_len() == 0 {
        reference.clone()
    } else {
        concat3(reference.as_str(), "    ", metadata.as_str())
    };
    Some(ImageRow { label, reference: Some(reference) })
}

/// The images of the two runtimes.
#[derive(Debug, Clone, Copy, PartialEq, Eq, Structural)]
pub enum ImageSource {
    Apple,
    Docker,
}

pub open spec fn image_row_of(source: ImageSource, line: Seq<char>) -> Option<ImageRowView> {
    match source {
        ImageSource::Apple => apple_image_row(line),
        ImageSource::Docker => docker_image_row(line),
    }
}

pub open spec fn image_lines(source: ImageSource, all: Seq<Seq<char>>) -> Seq<ImageRowView>
    decreases all.len(),
{
    if all.len() == 0 {
        Seq::empty()
    } else {
        match image_row_of(source, all.last()) {
            Some(row) => image_lines(source, all.drop_last()).push(row),
            None => image_lines(source, all.drop_last()),
        }
    }
}

pub open spec fn image_rows_of(
    source: ImageSource,
    reply: Option<Result<CommandOutput, String>>,
) -> Seq<ImageRowView> {
    let apple = source is Apple;
    match reply {
        None => seq![
            image_message(
                if apple {
                    "container not installed"@
                } else {
                    "docker not installed"@
                },
            ),
        ],
        Some(Ok(output)) => if output.success {
            let rows = image_lines(source, lines_of(lossy_text(output.stdout@)));
            if rows.len() == 0 {
                seq![
                    image_message(
                        if apple {
                            "No local images found"@
                        } else {
                            "No Docker-compatible images found"@
                        },
                    ),
                ]
            } else {
                rows
            }
        } else {
            seq![
                image_message(
                    shown_complaint(
                        output,
                        if apple {
                            "Image list failed"@
                        } else {
                            "Docker image list failed"@
                        },
                    ),
                ),
            ]
        },
        Some(Err(error)) => seq![
            image_message(
                command_problem(
                    if apple {
                        "Image list failed"@
                    } else {
                        "Docker image list failed"@
                    },
                    error@,
                ),
            ),
        ],
    }
}

/// The images of a runtime; `reply` is none where the runtime is not installed.
pub fn image_rows(source: ImageSource, reply: &Option<Result<CommandOutput, String>>) -> (result: Vec<
    ImageRow,
>)
    ensures
        result.deep_view() == image_rows_of(source, *reply),
{
    let apple = source == ImageSource::Apple;
    let failed = if apple {
        "Image list failed"
    } else {
        "Docker image list failed"
    };
    let mut rows: Vec<ImageRow> = empty_list();
    match reply {
        None => {
            let message = if apple {
                "container not installed"
            } else {
                "docker not installed"
            };
            push_deep(&mut rows, ImageRow::message(message.to_owned()));
        },
        Some(Ok(output)) => {
            if output.success {
                let text = lossy(output.stdout.as_slice());
                let all = lines(text.as_str());
                let ghost whole = all.deep_view();
                for i in 0..all.len()
                    invariant
                        whole == all.deep_view(),
                        rows.deep_view() == image_lines(source, whole.take(i as int)),
                {
                    assert(whole.take(i + 1).drop_last() == whole.take(i as int));
                    assert(whole.take(i + 1).last() == all@[i as int]@);
                    let row = match source {
                        ImageSource::Apple => parse_apple_container_image_line(all[i].as_str()),
                        ImageSource::Docker => parse_docker_image_line(all[i].as_str()),
                    };
                    if let Some(row) = row {
                        push_deep(&mut rows, row);
                    }
                }
                assert(whole.take(whole.len() as int) == whole);
                assert(rows.deep_view().len() == rows@.len());
                if rows.len() == 0 {
                    rows = empty_list();
                    let message = if apple {
                        "No local images found"
                    } else {
                        "No Docker-compatible images found"
                    };
                    push_deep(&mut rows, ImageRow::message(message.to_owned()));
                }
            } else {
                push_deep(&mut rows, ImageRow::message(first_stderr_line(output, failed)));
            }
        },
        Some(Err(error)) => {
            push_deep(&mut rows, ImageRow::message(ui_command_error(failed, error.as_str())));
        },
    }
    rows
}

/// The images of one runtime under its name.
#[derive(Debug)]
pub struct ImageInventory {
    pub runtime: String,
    pub runtime_key: String,
    pub rows: Vec<ImageRow>,
}

#[verifier::ext_equal]
pub struct ImageInventoryView {
    pub runtime: Seq<char>,
    pub runtime_key: Seq<char>,
    pub rows: Seq<ImageRowView>,
}

impl DeepView for ImageInventory {
    type V = ImageInventoryView;

    open spec fn deep_view(&self) -> ImageInventoryView {
        ImageInventoryView {
            runtime: self.runtime@,
            runtime_key: self.runtime_key@,
            rows: self.rows.deep_view(),
        }
    }
}

/// All images. While something is being done with one, only that is shown.
pub open spec fn image_inventories_of(
    task: Option<(Seq<char>, Option<Seq<char>>)>,
    apple: Option<Result<CommandOutput, String>>,
    docker: Option<Result<CommandOutput, String>>,
) -> Seq<ImageInventoryView> {
    match task {
        Some((message, detail)) => seq![
            ImageInventoryView {
                runtime: "Apple Container"@,
                runtime_key: "container"@,
                rows: match detail {
                    Some(detail) if detail.len() > 0 => seq![
                        image_message(message),
                        image_message(detail),
                    ],
                    _ => seq![image_message(message)],
                },
            },
        ],
        None => seq![
            ImageInventoryView {
                runtime: "Apple Container"@,
                runtime_key: "container"@,
                rows: image_rows_of(ImageSource::Apple, apple),
            },
            ImageInventoryView {
                runtime: "Docker-compatible Context"@,
                runtime_key: "docker"@,
                rows: image_rows_of(ImageSource::Docker, docker),
            },
        ],
    }
}

pub fn image_inventories(
    task: &Option<(String, Option<String>)>,
    apple: &Option<Result<CommandOutput, String>>,
    docker: &Option<Result<CommandOutput, String>>,
) -> (result: Vec<ImageInventory>)
    ensures
        result.deep_view() == image_inventories_of(task.deep_view(), *apple, *docker),
{
    let mut result: Vec<ImageInventory> = empty_list();
    match task {
        Some((message, detail)) => {
            let mut rows: Vec<ImageRow> = empty_list();
            push_deep(&mut rows, ImageRow::message(message.clone()));
            if let Some(detail) = detail {
                if detail.as_str().unicode_len() != 0 {
                    push_deep(&mut rows, ImageRow::message(detail.clone()));
                }
            }
            assert(rows.deep_view() == (match detail.deep_view() {
                Some(detail) if detail.len() > 0 => seq![
                    image_message(message@),
                    image_message(detail),
                ],
                _ => seq![image_message(message@)],
            }));
            push_deep(
                &mut result,
                ImageInventory {
                    runtime: "Apple Container".to_owned(),
                    runtime_key: "container".to_owned(),
                    rows,
                },
            );
        },
        None => {
            push_deep(
                &mut result,
                ImageInventory {
                    runtime: "Apple Container".to_owned(),
                    runtime_key: "container".to_owned(),
                    rows: image_rows(ImageSource::Apple, apple),
                },
            );
            push_deep(
                &mut result,
                ImageInventory {
                    runtime: "Docker-compatible Context".to_owned(),
                    runtime_key: "docker".to_owned(),
                    rows: image_rows(ImageSource::Docker, docker),
                },
            );
        },
    }
    result
}

// ---------------------------------------------------------------------------
// References
// ---------------------------------------------------------------------------
/// Whether a reference ends in a tag: its last colon stands behind its last
/// slash.
pub open spec fn is_tagged(reference: Seq<char>) -> bool {
    last_place(reference, ':') >= 0 && last_place(reference, ':') > last_place(reference, '/')
}

pub fn image_reference_has_tag(reference: &str) -> (result: bool)
    ensures
        result == is_tagged(reference@),
{
    match rfind(reference, ':') {
        Some(colon) => match rfind(reference, '/') {
            Some(slash) => colon > slash,
            None => true,
        },
        None => false,
    }
}

/// A reference without its tag, and the tag.
pub open spec fn name_and_tag(reference: Seq<char>) -> (Seq<char>, Seq<char>) {
    if is_tagged(reference) {
        (
            reference.take(last_place(reference, ':')),
            reference.skip(last_place(reference, ':') + 1),
        )
    } else {
        (reference, "<none>"@)
    }
}

pub fn split_image_reference(reference: &str) -> (result: (&str, &str))
    ensures
        (result.0@, result.1@) == name_and_tag(reference@),
{
    if image_reference_has_tag(reference) {
        if let Some(colon) = rfind(reference, ':') {
            let length: usize = reference.unicode_len();
            let name = reference.substring_char(0, colon);
            let tag = reference.substring_char(colon + 1, length);
            assert(name@ == reference@.take(colon as int));
            assert(tag@ == reference@.skip(colon + 1));
            return (name, tag);
        }
    }
    (reference, "<none>")
}

/// A tagged reference is put together again from its parts.
pub proof fn law_reference_is_name_and_tag(reference: Seq<char>)
    requires
        is_tagged(reference),
    ensures
        name_and_tag(reference).0 + seq![':'] + name_and_tag(reference).1 == reference,
        !name_and_tag(reference).1.contains('/'),
        !name_and_tag(reference).1.contains(':'),
{
    lemma_last_place(reference, ':');
    lemma_last_place(reference, '/');
    let colon = last_place(reference, ':');
    let tag = reference.skip(colon + 1);
    assert(name_and_tag(reference).0 + seq![':'] + tag == reference);
    assert forall|i: int| 0 <= i < tag.len() implies #[trigger] tag[i] != '/' && tag[i] != ':' by {
        assert(tag[i] == reference[colon + 1 + i]);
    }
}

/// The number of an image, as its row shows it behind its reference.
pub open spec fn shown_id(label: Seq<char>, reference: Seq<char>) -> Option<Seq<char>> {
    match after_prefix(label, reference) {
        Some(metadata) => if words_of(metadata).len() > 0 {
            Some(words_of(metadata)[0])
        } else {
            None
        },
        None => None,
    }
}

pub fn image_id_from_label(label: &str, reference: &str) -> (result: Option<String>)
    ensures
        result.deep_view() == shown_id(label@, reference@),
{
    match strip_prefix(label, reference) {
        Some(metadata) => {
            let words = split_whitespace(metadata);
            assert(words.deep_view().len() == words@.len());
            if words.len() > 0 {
                assert(words.deep_view()[0] == words@[0]@);
                Some(words[0].clone())
            } else {
                None
            }
        },
        None => None,
    }
}

/// The references in rows that have a number.
pub open spec fn references_with_id(rows: Seq<ImageRowView>, id: Seq<char>) -> Seq<Seq<char>>
    decreases rows.len(),
{
    if rows.len() == 0 {
        Seq::empty()
    } else {
        let before = references_with_id(rows.drop_last(), id);
        match rows.last().reference {
            Some(reference) if shown_id(rows.last().label, reference) == Some(id) => before.push(
                reference,
            ),
            _ => before,
        }
    }
}

/// The references in the inventories of a runtime that have a number.
pub open spec fn all_references(
    inventories: Seq<ImageInventoryView>,
    key: Seq<char>,
    id: Seq<char>,
) -> Seq<Seq<char>>
    decreases inventories.len(),
{
    if inventories.len() == 0 {
        Seq::empty()
    } else {
        let before = all_references(inventories.drop_last(), key, id);
        if inventories.last().runtime_key == key {
            before + references_with_id(inventories.last().rows, id)
        } else {
            before
        }
    }
}

/// All references of an image, by its number: sorted, each once.
pub fn image_references_for_id(
    inventories: &Vec<ImageInventory>,
    runtime_key: &str,
    image_id: &str,
) -> (result: Vec<String>)
    ensures
        ascending(result.deep_view()),
        result.deep_view().to_set() == all_references(
            inventories.deep_view(),
            runtime_key@,
            image_id@,
        ).to_set(),
{
    let ghost all = inventories.deep_view();
    let mut found: Vec<String> = empty_list();
    for i in 0..inventories.len()
        invariant
            all == inventories.deep_view(),
            found.deep_view() == all_references(all.take(i as int), runtime_key@, image_id@),
    {
        assert(all.take(i + 1).drop_last() == all.take(i as int));
        assert(all.take(i + 1).last() == inventories@[i as int].deep_view());
        if same(inventories[i].runtime_key.as_str(), runtime_key) {
            let ghost before = found.deep_view();
            let ghost rows = inventories@[i as int].rows.deep_view();
            assert(before + references_with_id(rows.take(0), image_id@) == before);
            let count: usize = inventories[i].rows.len();
            for k in 0..count
                invariant
                    i < inventories@.len(),
                    rows == inventories@[i as int].rows.deep_view(),
                    count == inventories@[i as int].rows@.len(),
                    found.deep_view() == before + references_with_id(
                        rows.take(k as int),
                        image_id@,
                    ),
            {
                let row = &inventories[i].rows[k];
                assert(rows.take(k + 1).drop_last() == rows.take(k as int));
                assert(rows.take(k + 1).last() == row.deep_view());
                if let Some(reference) = &row.reference {
                    if let Some(id) = image_id_from_label(row.label.as_str(), reference.as_str()) {
                        if same(id.as_str(), image_id) {
                            push_text(&mut found, reference.as_str());
                            assert(found.deep_view() == before + references_with_id(
                                rows.take(k + 1),
                                image_id@,
                            ));
                        }
                    }
                }
            }
            assert(rows.take(rows.len() as int) == rows);
        }
    }
    assert(all.take(all.len() as int) == all);
    sorted_distinct(&found)
}

/// Whether a profile's runtime is one that a key stands for. OrbStack's images
/// and volumes are Docker's.
pub open spec fn key_matches(key: Seq<char>, runtime: Seq<char>) -> bool {
    let name = folded(runtime);
    let other = folded(key);
    let docker = name == "docker"@ || name == "orb"@ || name == "orbstack"@;
    if other == "container"@ || other == "apple"@ || other == "apple container"@ {
        !docker
    } else if other == "docker"@ {
        docker
    } else {
        other == name
    }
}

pub fn runtime_key_matches(runtime_key: &str, session_runtime: &str) -> (result: bool)
    ensures
        result == key_matches(runtime_key@, session_runtime@),
{
    let name = to_ascii_lowercase(trim(session_runtime));
    let other = to_ascii_lowercase(trim(runtime_key));
    let docker = same(name.as_str(), "docker") || same(name.as_str(), "orb") || same(
        name.as_str(),
        "orbstack",
    );
    if same(other.as_str(), "container") || same(other.as_str(), "apple") || same(
        other.as_str(),
        "apple container",
    ) {
        !docker
    } else if same(other.as_str(), "docker") {
        docker
    } else {
        same(other.as_str(), name.as_str())
    }
}

// ---------------------------------------------------------------------------
// Deleting images
// ---------------------------------------------------------------------------
/// An image that the user wants to be rid of.
#[derive(Debug)]
pub struct ImageDeleteAction {
    pub runtime: String,
    pub reference: String,
    pub image_id: Option<String>,
}

/// The names of the profiles that use one of some images, or of those of them
/// that run.
pub open spec fn image_users(
    sessions: Seq<SessionView>,
    active: Seq<ActiveView>,
    runtime: Seq<char>,
    references: Seq<Seq<char>>,
    running_only: bool,
) -> Seq<Seq<char>>
    decreases sessions.len(),
{
    if sessions.len() == 0 {
        Seq::empty()
    } else {
        let before = image_users(sessions.drop_last(), active, runtime, references, running_only);
        let session = sessions.last();
        if references.contains(session.image) && key_matches(runtime, session.runtime) && (
        !running_only || active_of(active, (sessions.len() - 1) as usize) is Some) {
            before.push(session.name)
        } else {
            before
        }
    }
}

pub fn image_user_names(
    mode: &ContainerMode,
    sessions: &Vec<ContainerSession>,
    runtime: &str,
    references: &Vec<String>,
    running_only: bool,
) -> (result: Vec<String>)
    ensures
        result.deep_view() == image_users(
            sessions.deep_view(),
            mode.deep_view().active_sessions,
            runtime@,
            references.deep_view(),
            running_only,
        ),
{
    let ghost all = sessions.deep_view();
    let mut result: Vec<String> = empty_list();
    for i in 0..sessions.len()
        invariant
            all == sessions.deep_view(),
            result.deep_view() == image_users(
                all.take(i as int),
                mode.deep_view().active_sessions,
                runtime@,
                references.deep_view(),
                running_only,
            ),
    {
        assert(all.take(i + 1).drop_last() == all.take(i as int));
        assert(all.take(i + 1).last() == sessions@[i as int].deep_view());
        if has_text(references, sessions[i].image.as_str()) && runtime_key_matches(
            runtime,
            sessions[i].runtime.as_str(),
        ) && (!running_only || mode.active_session(i).is_some()) {
            push_text(&mut result, sessions[i].name.as_str());
        }
    }
    assert(all.take(all.len() as int) == all);
    result
}

/// Names on lines of their own.
pub open spec fn bulleted(names: Seq<Seq<char>>) -> Seq<char> {
    joined(names.map_values(|name: Seq<char>| "• "@ + name), "\n"@)
}

pub fn bullet_list(names: &Vec<String>) -> (result: String)
    ensures
        result@ == bulleted(names.deep_view()),
{
    let ghost wanted = names.deep_view().map_values(|name: Seq<char>| "• "@ + name);
    let mut rows: Vec<String> = empty_list();
    for i in 0..names.len()
        invariant
            wanted == names.deep_view().map_values(|name: Seq<char>| "• "@ + name),
            rows.deep_view() == wanted.take(i as int),
    {
        let row = concat("• ", names[i].as_str());
        assert(wanted[i as int] == row@);
        push_text(&mut rows, row.as_str());
        assert(rows.deep_view() == wanted.take(i + 1));
    }
    assert(wanted.take(wanted.len() as int) == wanted);
    join(&rows, "\n")
}

/// What the user is asked before something is deleted, or why it cannot be.
#[derive(Debug)]
pub enum Removal {
    Refused(String),
    Ask { title: String, detail: String, confirm: String },
}

pub enum RemovalView {
    Refused(Seq<char>),
    Ask { title: Seq<char>, detail: Seq<char>, confirm: Seq<char> },
}

impl DeepView for Removal {
    type V = RemovalView;

    open spec fn deep_view(&self) -> RemovalView {
        match self {
            Removal::Refused(message) => RemovalView::Refused(message@),
            Removal::Ask { title, detail, confirm } => RemovalView::Ask {
                title: title@,
                detail: detail@,
                confirm: confirm@,
            },
        }
    }
}

/// The references that go when an image is deleted: the tag alone, or all that
/// the image has, where those are known.
pub open spec fn doomed(
    action: ImageDeleteAction,
    remove_tag: bool,
    known: Seq<Seq<char>>,
) -> Seq<Seq<char>> {
    if !remove_tag && action.image_id is Some && known.len() > 0 {
        known
    } else {
        seq![action.reference@]
    }
}

/// The question about an image: it is refused while an application that uses it
/// runs.
pub open spec fn image_removal(
    sessions: Seq<SessionView>,
    active: Seq<ActiveView>,
    action: ImageDeleteAction,
    remove_tag: bool,
    known: Seq<Seq<char>>,
) -> RemovalView {
    let references = doomed(action, remove_tag, known);
    let running = image_users(sessions, active, action.runtime@, references, true);
    let users = image_users(sessions, active, action.runtime@, references, false);
    if running.len() > 0 {
        RemovalView::Refused(
            "This image cannot be removed while it is used by running applications:\n\n"@ + bulleted(
                running,
            ) + "\n\nStop those instances and try again."@,
        )
    } else {
        let runtime = seq!["Runtime: "@ + shown_runtime(action.runtime@)];
        let scope = if remove_tag {
            seq!["Only this repository tag will be removed."@]
        } else {
            seq!["Known tags:\n"@ + joined(references, "\n"@)]
        };
        let used = if users.len() > 0 {
            seq!["Referenced by saved profiles:\n"@ + bulleted(users)]
        } else {
            Seq::empty()
        };
        RemovalView::Ask {
            title: if remove_tag {
                "Remove tag “"@ + action.reference@ + "”?"@
            } else {
                "Delete image and all local data?"@
            },
            detail: joined(runtime + scope + used, "\n\n"@),
            confirm: if remove_tag {
                "Remove Tag"@
            } else {
                "Delete Image"@
            },
        }
    }
}

/// The question about an image; `known` are the references that are known to
/// have its number.
pub fn confirm_image_removal(
    mode: &ContainerMode,
    sessions: &Vec<ContainerSession>,
    action: &ImageDeleteAction,
    remove_tag: bool,
    known: &Vec<String>,
) -> (result: Removal)
    ensures
        result.deep_view() == image_removal(
            sessions.deep_view(),
            mode.deep_view().active_sessions,
            *action,
            remove_tag,
            known.deep_view(),
        ),
{
    assert(known.deep_view().len() == known@.len());
    let mut references: Vec<String> = empty_list();
    if !remove_tag && action.image_id.is_some() && known.len() > 0 {
        references = copy_list(known);
    } else {
        push_text(&mut references, action.reference.as_str());
    }
    assert(references.deep_view() == doomed(*action, remove_tag, known.deep_view()));
    let runtime = action.runtime.as_str();
    let running = image_user_names(mode, sessions, runtime, &references, true);
    let users = image_user_names(mode, sessions, runtime, &references, false);
    assert(running.deep_view().len() == running@.len());
    assert(users.deep_view().len() == users@.len());
    if running.len() > 0 {
        let names = bullet_list(&running);
        return Removal::Refused(
            concat3(
                "This image cannot be removed while it is used by running applications:\n\n",
                names.as_str(),
                "\n\nStop those instances and try again.",
            ),
        );
    }
    let mut details: Vec<String> = empty_list();
    let first = concat("Runtime: ", runtime_label(runtime));
    push_text(&mut details, first.as_str());
    let ghost head = seq!["Runtime: "@ + shown_runtime(action.runtime@)];
    assert(details.deep_view() == head);
    let ghost scope = if remove_tag {
        seq!["Only this repository tag will be removed."@]
    } else {
        seq!["Known tags:\n"@ + joined(references.deep_view(), "\n"@)]
    };
    if remove_tag {
        push_text(&mut details, "Only this repository tag will be removed.");
    } else {
        let tags = join(&references, "\n");
        let line = concat("Known tags:\n", tags.as_str());
        push_text(&mut details, line.as_str());
    }
    assert(details.deep_view() == head + scope);
    let ghost used = if users.deep_view().len() > 0 {
        seq!["Referenced by saved profiles:\n"@ + bulleted(users.deep_view())]
    } else {
        Seq::empty()
    };
    if users.len() > 0 {
        let names = bullet_list(&users);
        let line = concat("Referenced by saved profiles:\n", names.as_str());
        push_text(&mut details, line.as_str());
    }
    assert(details.deep_view() == head + scope + used);
    let title = if remove_tag {
        concat3("Remove tag “", action.reference.as_str(), "”?")
    } else {
        "Delete image and all local data?".to_owned()
    };
    let confirm = if remove_tag {
        "Remove Tag".to_owned()
    } else {
        "Delete Image".to_owned()
    };
    Removal::Ask { title, detail: join(&details, "\n\n"), confirm }
}

/// What is deleted once the user has agreed: the tag, or the image by its
/// number where that is known.
pub fn removed_reference(action: &ImageDeleteAction, remove_tag: bool) -> (result: String)
    ensures
        result@ == (match action.image_id {
            Some(id) if !remove_tag => id@,
            _ => action.reference@,
        }),
{
    if !remove_tag {
        if let Some(id) = &action.image_id {
            return id.clone();
        }
    }
    action.reference.clone()
}

/// No image is deleted while an application that uses it runs: the question is
/// asked only where none of the profiles with one of the references that go has
/// an instance.
pub proof fn law_used_image_is_kept(
    sessions: Seq<SessionView>,
    active: Seq<ActiveView>,
    action: ImageDeleteAction,
    remove_tag: bool,
    known: Seq<Seq<char>>,
    i: int,
)
    requires
        image_removal(sessions, active, action, remove_tag, known) is Ask,
        0 <= i < sessions.len(),
        sessions.len() <= usize::MAX,
        doomed(action, remove_tag, known).contains(sessions[i].image),
        key_matches(action.runtime@, sessions[i].runtime),
    ensures
        active_of(active, i as usize) is None,
{
    if active_of(active, i as usize) is Some {
        lemma_users_include(
            sessions,
            active,
            action.runtime@,
            doomed(action, remove_tag, known),
            i,
        );
    }
}

proof fn lemma_users_include(
    sessions: Seq<SessionView>,
    active: Seq<ActiveView>,
    runtime: Seq<char>,
    references: Seq<Seq<char>>,
    i: int,
)
    requires
        0 <= i < sessions.len(),
        sessions.len() <= usize::MAX,
        references.contains(sessions[i].image),
        key_matches(runtime, sessions[i].runtime),
        active_of(active, i as usize) is Some,
    ensures
        image_users(sessions, active, runtime, references, true).len() > 0,
    decreases sessions.len(),
{
    if i < sessions.len() - 1 {
        assert(sessions.drop_last()[i] == sessions[i]);
        lemma_users_include(sessions.drop_last(), active, runtime, references, i);
    }
}

// ---------------------------------------------------------------------------
// Volumes
// ---------------------------------------------------------------------------
/// A volume in a list, or a message in its place, which has no name.
#[derive(Debug)]
pub struct VolumeRow {
    pub label: String,
    pub name: Option<String>,
}

#[verifier::ext_equal]
pub struct VolumeRowView {
    pub label: Seq<char>,
    pub name: Option<Seq<char>>,
}

impl DeepView for VolumeRow {
    type V = VolumeRowView;

    open spec fn deep_view(&self) -> VolumeRowView {
        VolumeRowView { label: self.label@, name: self.name.deep_view() }
    }
}

pub open spec fn volume_message(label: Seq<char>) -> VolumeRowView {
    VolumeRowView { label, name: None }
}

impl VolumeRow {
    pub fn message(message: String) -> (result: Self)
        ensures
            result.deep_view() == volume_message(message@),
    {
        VolumeRow { label: message, name: None }
    }
}

/// A volume from a row of a list; the heading has none.
pub open spec fn volume_row(line: Seq<char>) -> Option<VolumeRowView> {
    let text = trimmed(line);
    let words = words_of(text);
    if text.len() == 0 || words.len() == 0 || lowered(words[0]) == lowered("name"@) {
        None
    } else {
        Some(VolumeRowView { label: text, name: Some(words[0]) })
    }
}

pub fn parse_volume_line(line: &str) -> (result: Option<VolumeRow>)
    ensures
        result.deep_view() == volume_row(line@),
{
    let text = trim(line);
    if text.unicode_len() == 0 {
        return None;
    }
    let words = split_whitespace(text);
    assert(words.deep_view().len() == words@.len());
    if words.len() == 0 {
        return None;
    }
    assert(words.deep_view()[0] == words@[0]@);
    if eq_ignore_ascii_case(words[0].as_str(), "name") {
        return None;
    }
    Some(VolumeRow { label: text.to_owned(), name: Some(words[0].clone()) })
}

pub open spec fn volume_lines(all: Seq<Seq<char>>) -> Seq<VolumeRowView>
    decreases all.len(),
{
    if all.len() == 0 {
        Seq::empty()
    } else {
        match volume_row(all.last()) {
            Some(row) => volume_lines(all.drop_last()).push(row),
            None => volume_lines(all.drop_last()),
        }
    }
}

pub open spec fn volume_rows_of(
    source: ImageSource,
    reply: Option<Result<CommandOutput, String>>,
) -> Seq<VolumeRowView> {
    let apple = source is Apple;
    match reply {
        None => seq![
            volume_message(
                if apple {
                    "container not installed"@
                } else {
                    "docker not installed"@
                },
            ),
        ],
        Some(Ok(output)) => if output.success {
            let rows = volume_lines(lines_of(lossy_text(output.stdout@)));
            if rows.len() == 0 {
                seq![
                    volume_message(
                        if apple {
                            "No local volumes found"@
                        } else {
                            "No Docker-compatible volumes found"@
                        },
                    ),
                ]
            } else {
                rows
            }
        } else {
            seq![
                volume_message(
                    shown_complaint(
                        output,
                        if apple {
                            "Volume list failed"@
                        } else {
                            "Docker volume list failed"@
                        },
                    ),
                ),
            ]
        },
        Some(Err(error)) => seq![
            volume_message(
                command_problem(
                    if apple {
                        "Volume list failed"@
                    } else {
                        "Docker volume list failed"@
                    },
                    error@,
                ),
            ),
        ],
    }
}

/// The volumes of a runtime; `reply` is none where the runtime is not
/// installed.
pub fn volume_rows(source: ImageSource, reply: &Option<Result<CommandOutput, String>>) -> (result:
    Vec<VolumeRow>)
    ensures
        result.deep_view() == volume_rows_of(source, *reply),
{
    let apple = source == ImageSource::Apple;
    let failed = if apple {
        "Volume list failed"
    } else {
        "Docker volume list failed"
    };
    let mut rows: Vec<VolumeRow> = empty_list();
    match reply {
        None => {
            let message = if apple {
                "container not installed"
            } else {
                "docker not installed"
            };
            push_deep(&mut rows, VolumeRow::message(message.to_owned()));
        },
        Some(Ok(output)) => {
            if output.success {
                let text = lossy(output.stdout.as_slice());
                let all = lines(text.as_str());
                let ghost whole = all.deep_view();
                for i in 0..all.len()
                    invariant
                        whole == all.deep_view(),
                        rows.deep_view() == volume_lines(whole.take(i as int)),
                {
                    assert(whole.take(i + 1).drop_last() == whole.take(i as int));
                    assert(whole.take(i + 1).last() == all@[i as int]@);
                    if let Some(row) = parse_volume_line(all[i].as_str()) {
                        push_deep(&mut rows, row);
                    }
                }
                assert(whole.take(whole.len() as int) == whole);
                assert(rows.deep_view().len() == rows@.len());
                if rows.len() == 0 {
                    rows = empty_list();
                    let message = if apple {
                        "No local volumes found"
                    } else {
                        "No Docker-compatible volumes found"
                    };
                    push_deep(&mut rows, VolumeRow::message(message.to_owned()));
                }
            } else {
                push_deep(&mut rows, VolumeRow::message(first_stderr_line(output, failed)));
            }
        },
        Some(Err(error)) => {
            push_deep(&mut rows, VolumeRow::message(ui_command_error(failed, error.as_str())));
        },
    }
    rows
}

/// Whether a part of a mount names a volume as its source.
pub open spec fn part_names(part: Seq<char>, volume: Seq<char>) -> bool {
    match split_first(trimmed(part), '=') {
        Some((key, value)) => {
            let key = trimmed(key);
            (key == "source"@ || key == "src"@ || key == "volume"@ || key == "name"@) && trimmed(
                value,
            ) == volume
        },
        None => false,
    }
}

/// Whether a mount is of a volume: `volume`, `volume:...`, or a list of settings
/// with the volume as its source.
pub open spec fn mounts_volume(mount: Seq<char>, volume: Seq<char>) -> bool {
    let text = trimmed(mount);
    let parts = split_at(text, ',');
    ||| text == volume
    ||| (volume + ":"@).is_prefix_of(text)
    ||| exists|i: int| 0 <= i < parts.len() && part_names(#[trigger] parts[i], volume)
}

pub fn mount_references_volume(mount: &str, volume_name: &str) -> (result: bool)
    ensures
        result == mounts_volume(mount@, volume_name@),
{
    let text = trim(mount);
    if same(text, volume_name) {
        return true;
    }
    let prefix = concat(volume_name, ":");
    if starts_with(text, prefix.as_str()) {
        return true;
    }
    let parts = split(text, ',');
    let ghost all = parts.deep_view();
    for i in 0..parts.len()
        invariant
            all == parts.deep_view(),
            all == split_at(trimmed(mount@), ','),
            forall|j: int| 0 <= j < i ==> !part_names(#[trigger] all[j], volume_name@),
    {
        assert(all[i as int] == parts@[i as int]@);
        let part = trim(parts[i].as_str());
        if let Some((key, value)) = split_once(part, '=') {
            let key = trim(key);
            let source = same(key, "source") || same(key, "src") || same(key, "volume") || same(
                key,
                "name",
            );
            if source && same(trim(value), volume_name) {
                assert(part_names(all[i as int], volume_name@));
                return true;
            }
        }
    }
    false
}

/// Whether one of the mounts has a volume as its source.
pub open spec fn has_source(mounts: Seq<JsonView>, volume: Seq<char>) -> bool {
    exists|i: int|
        0 <= i < mounts.len() && (#[trigger] mounts[i]).text_field("source"@) == Some(volume)
}

/// Whether an entry of Apple Container's list mounts a volume.
pub open spec fn entry_mounts(container: JsonView, volume: Seq<char>) -> bool {
    match container.field("configuration"@) {
        Some(configuration) => match configuration.field("mounts"@) {
            Some(JsonView::Array(mounts)) => has_source(mounts, volume),
            _ => false,
        },
        None => false,
    }
}

/// The name of a container in Apple Container's list.
pub open spec fn entry_id(container: JsonView) -> Seq<char> {
    let id = match container.field("id"@) {
        Some(id) => Some(id),
        None => match container.field("configuration"@) {
            Some(configuration) => configuration.field("id"@),
            None => None,
        },
    };
    match id {
        Some(id) => match id.text() {
            Some(text) => text,
            None => "Unknown container"@,
        },
        None => "Unknown container"@,
    }
}

pub open spec fn mounting(containers: Seq<JsonView>, volume: Seq<char>) -> Seq<Seq<char>>
    decreases containers.len(),
{
    if containers.len() == 0 {
        Seq::empty()
    } else if entry_mounts(containers.last(), volume) {
        mounting(containers.drop_last(), volume).push(entry_id(containers.last()))
    } else {
        mounting(containers.drop_last(), volume)
    }
}

fn mounts_source(mounts: &Vec<Json>, volume: &str) -> (result: bool)
    ensures
        result == has_source(mounts.deep_view(), volume@),
{
    let ghost all = mounts.deep_view();
    for i in 0..mounts.len()
        invariant
            all == mounts.deep_view(),
            forall|j: int|
                0 <= j < i ==> (#[trigger] all[j]).text_field("source"@) != Some(volume@),
    {
        assert(all[i as int] == mounts@[i as int].deep_view());
        if let Some(source) = mounts[i].get_str("source") {
            if same(source, volume) {
                assert(all[i as int].text_field("source"@) == Some(volume@));
                return true;
            }
        }
    }
    false
}

fn text_or_unknown(value: Option<&Json>) -> (result: String)
    ensures
        result@ == (match value.deep_view() {
            Some(value) => match value.text() {
                Some(text) => text,
                None => "Unknown container"@,
            },
            None => "Unknown container"@,
        }),
{
    if let Some(value) = value {
        if let Some(text) = value.as_str() {
            return text.to_owned();
        }
    }
    "Unknown container".to_owned()
}

/// The containers among the entries of a list that mount a volume.
pub fn containers_mounting(containers: &Vec<Json>, volume: &str) -> (result: Vec<String>)
    ensures
        result.deep_view() == mounting(containers.deep_view(), volume@),
{
    let ghost all = containers.deep_view();
    let mut result: Vec<String> = empty_list();
    for i in 0..containers.len()
        invariant
            all == containers.deep_view(),
            result.deep_view() == mounting(all.take(i as int), volume@),
    {
        assert(all.take(i + 1).drop_last() == all.take(i as int));
        let container = &containers[i];
        if let Some(configuration) = container.get("configuration") {
            if let Some(value) = configuration.get("mounts") {
                if let Some(mounts) = value.as_array() {
                    if mounts_source(mounts, volume) {
                        let id = match container.get("id") {
                            Some(id) => Some(id),
                            None => configuration.get("id"),
                        };
                        let name = text_or_unknown(id);
                        push_text(&mut result, name.as_str());
                    }
                }
            }
        }
    }
    assert(all.take(all.len() as int) == all);
    result
}

pub open spec fn parsed_mounts(text: Seq<char>, volume: Seq<char>) -> Result<
    Seq<Seq<char>>,
    Seq<char>,
> {
    match parsed_array(text) {
        Ok(containers) => Ok(mounting(containers, volume)),
        Err(error) => Err("Apple Container returned invalid container JSON: "@ + error),
    }
}

pub fn parse_apple_volume_mounts(json: &str, volume_name: &str) -> (result: Result<
    Vec<String>,
    String,
>)
    ensures
        outcome(result) == parsed_mounts(json@, volume_name@),
{
    match parse_array(json) {
        Ok(containers) => Ok(containers_mounting(&containers, volume_name)),
        Err(error) => Err(
            concat("Apple Container returned invalid container JSON: ", error.as_str()),
        ),
    }
}

/// What uses a volume, as far as that is known.
#[derive(Debug)]
pub struct VolumeUsage {
    pub referenced_profiles: Vec<String>,
    pub mounted_containers: Vec<String>,
    pub loading: bool,
    pub error: Option<String>,
}

#[verifier::ext_equal]
pub struct UsageView {
    pub referenced_profiles: Seq<Seq<char>>,
    pub mounted_containers: Seq<Seq<char>>,
    pub loading: bool,
    pub error: Option<Seq<char>>,
}

impl DeepView for VolumeUsage {
    type V = UsageView;

    open spec fn deep_view(&self) -> UsageView {
        UsageView {
            referenced_profiles: self.referenced_profiles.deep_view(),
            mounted_containers: self.mounted_containers.deep_view(),
            loading: self.loading,
            error: self.error.deep_view(),
        }
    }
}

/// The profiles that mount a volume.
pub open spec fn volume_users(sessions: Seq<SessionView>, key: Seq<char>, volume: Seq<char>) -> Seq<
    Seq<char>,
>
    decreases sessions.len(),
{
    if sessions.len() == 0 {
        Seq::empty()
    } else {
        let before = volume_users(sessions.drop_last(), key, volume);
        let session = sessions.last();
        if key_matches(key, session.runtime) && any_mounts(session.mounts, volume) {
            before.push(session.name)
        } else {
            before
        }
    }
}

pub open spec fn any_mounts(mounts: Seq<Seq<char>>, volume: Seq<char>) -> bool {
    exists|i: int| 0 <= i < mounts.len() && mounts_volume(#[trigger] mounts[i], volume)
}

fn any_mount(mounts: &Vec<String>, volume: &str) -> (result: bool)
    ensures
        result == any_mounts(mounts.deep_view(), volume@),
{
    let ghost all = mounts.deep_view();
    for i in 0..mounts.len()
        invariant
            all == mounts.deep_view(),
            forall|j: int| 0 <= j < i ==> !mounts_volume(#[trigger] all[j], volume@),
    {
        assert(all[i as int] == mounts@[i as int]@);
        if mount_references_volume(mounts[i].as_str(), volume) {
            return true;
        }
    }
    false
}

fn volume_user_names(sessions: &Vec<ContainerSession>, key: &str, volume: &str) -> (result: Vec<
    String,
>)
    ensures
        result.deep_view() == volume_users(sessions.deep_view(), key@, volume@),
{
    let ghost all = sessions.deep_view();
    let mut result: Vec<String> = empty_list();
    for i in 0..sessions.len()
        invariant
            all == sessions.deep_view(),
            result.deep_view() == volume_users(all.take(i as int), key@, volume@),
    {
        assert(all.take(i + 1).drop_last() == all.take(i as int));
        assert(all.take(i + 1).last() == sessions@[i as int].deep_view());
        if runtime_key_matches(key, sessions[i].runtime.as_str()) && any_mount(
            &sessions[i].mounts,
            volume,
        ) {
            push_text(&mut result, sessions[i].name.as_str());
        }
    }
    assert(all.take(all.len() as int) == all);
    result
}

/// The lines of a text without spaces around them, and without empty ones.
pub open spec fn trimmed_lines(all: Seq<Seq<char>>) -> Seq<Seq<char>>
    decreases all.len(),
{
    if all.len() == 0 {
        Seq::empty()
    } else if trimmed(all.last()).len() == 0 {
        trimmed_lines(all.drop_last())
    } else {
        trimmed_lines(all.drop_last()).push(trimmed(all.last()))
    }
}

pub fn trimmed_output(output: &CommandOutput) -> (result: Vec<String>)
    ensures
        result.deep_view() == trimmed_lines(lines_of(lossy_text(output.stdout@))),
{
    let text = lossy(output.stdout.as_slice());
    let all = lines(text.as_str());
    let ghost whole = all.deep_view();
    let mut result: Vec<String> = empty_list();
    for i in 0..all.len()
        invariant
            whole == all.deep_view(),
            result.deep_view() == trimmed_lines(whole.take(i as int)),
    {
        assert(whole.take(i + 1).drop_last() == whole.take(i as int));
        assert(whole.take(i + 1).last() == all@[i as int]@);
        let line = trim(all[i].as_str());
        if line.unicode_len() != 0 {
            push_text(&mut result, line);
        }
    }
    assert(whole.take(whole.len() as int) == whole);
    result
}

/// The containers that a runtime says mount a volume.
pub open spec fn reported_mounts(key: Seq<char>, volume: Seq<char>, output: CommandOutput) -> Result<
    Seq<Seq<char>>,
    Seq<char>,
> {
    if key == "docker"@ {
        Ok(trimmed_lines(lines_of(lossy_text(output.stdout@))))
    } else {
        parsed_mounts(lossy_text(output.stdout@), volume)
    }
}

/// Why it is not known which containers mount a volume, if it is not.
pub open spec fn usage_problem(
    key: Seq<char>,
    volume: Seq<char>,
    reply: Option<Result<CommandOutput, String>>,
) -> Option<Seq<char>> {
    match reply {
        None => Some(shown_runtime(key) + " is not installed"@),
        Some(Ok(output)) => if output.success {
            match reported_mounts(key, volume, output) {
                Ok(_) => None,
                Err(error) => Some(error),
            }
        } else {
            Some(shown_complaint(output, "Volume usage check failed"@))
        },
        Some(Err(error)) => if error@ == loading() {
            None
        } else {
            Some(command_problem("Volume usage check failed"@, error@))
        },
    }
}

/// What uses a volume. `reply` is what the runtime says of the containers that
/// mount it, or none where the runtime is not installed.
pub fn volume_usage(
    sessions: &Vec<ContainerSession>,
    runtime_key: &str,
    volume_name: &str,
    reply: &Option<Result<CommandOutput, String>>,
) -> (result: VolumeUsage)
    ensures
        result.referenced_profiles.deep_view() == volume_users(
            sessions.deep_view(),
            runtime_key@,
            volume_name@,
        ),
        result.error.deep_view() == usage_problem(runtime_key@, volume_name@, *reply),
        result.loading == (match reply {
            Some(Err(error)) => error@ == loading(),
            _ => false,
        }),
        ascending(result.mounted_containers.deep_view()),
        result.mounted_containers.deep_view().to_set() == (match reply {
            Some(Ok(output)) if output.success => match reported_mounts(
                runtime_key@,
                volume_name@,
                *output,
            ) {
                Ok(names) => names.to_set(),
                Err(_) => Set::empty(),
            },
            _ => Set::empty(),
        }),
{
    let referenced_profiles = volume_user_names(sessions, runtime_key, volume_name);
    let mut mounted: Vec<String> = empty_list();
    let mut is_loading = false;
    let mut error: Option<String> = None;
    assert(mounted.deep_view().to_set() == Set::<Seq<char>>::empty());
    match reply {
        None => {
            error = Some(concat(runtime_label(runtime_key), " is not installed"));
        },
        Some(Ok(output)) => {
            if output.success {
                let found = if same(runtime_key, "docker") {
                    Ok(trimmed_output(output))
                } else {
                    let text = lossy(output.stdout.as_slice());
                    parse_apple_volume_mounts(text.as_str(), volume_name)
                };
                match found {
                    Ok(names) => {
                        mounted = sorted_distinct(&names);
                    },
                    Err(problem) => {
                        error = Some(problem);
                    },
                }
            } else {
                error = Some(first_stderr_line(output, "Volume usage check failed"));
            }
        },
        Some(Err(problem)) => {
            if same(problem.as_str(), loading_text()) {
                is_loading = true;
            } else {
                error = Some(ui_command_error("Volume usage check failed", problem.as_str()));
            }
        },
    }
    VolumeUsage {
        referenced_profiles,
        mounted_containers: mounted,
        loading: is_loading,
        error,
    }
}

/// The question about a volume: it is refused while it is not known that no
/// container mounts it.
pub open spec fn volume_removal(runtime: Seq<char>, name: Seq<char>, usage: VolumeUsage) -> RemovalView {
    if usage.loading {
        RemovalView::Refused(
            "Volume usage is still loading. Wait a moment, press Reload, and try again."@,
        )
    } else {
        match usage.error {
            Some(error) => RemovalView::Refused(
                "Cocoa-Way could not verify whether this volume is mounted, so deletion was blocked.\n\n"@
                    + error@,
            ),
            None => if usage.mounted_containers@.len() > 0 {
                RemovalView::Refused(
                    "This volume is mounted by:\n\n"@ + bulleted(
                        usage.mounted_containers.deep_view(),
                    ) + "\n\nStop those containers before deleting the volume."@,
                )
            } else {
                let runtime = seq!["Runtime: "@ + shown_runtime(runtime)];
                let used = if usage.referenced_profiles@.len() > 0 {
                    seq![
                        "Referenced by saved application profiles:\n"@ + bulleted(
                            usage.referenced_profiles.deep_view(),
                        )
                            + "\n\nThose profiles will remain saved, but their next launch may fail until the volume is recreated."@,
                    ]
                } else {
                    Seq::empty()
                };
                RemovalView::Ask {
                    title: "Delete volume “"@ + name + "”?"@,
                    detail: joined(runtime + used, "\n\n"@),
                    confirm: "Delete Volume"@,
                }
            },
        }
    }
}

pub fn confirm_volume_removal(runtime: &str, name: &str, usage: &VolumeUsage) -> (result: Removal)
    ensures
        result.deep_view() == volume_removal(runtime@, name@, *usage),
{
    if usage.loading {
        return Removal::Refused(
            "Volume usage is still loading. Wait a moment, press Reload, and try again.".to_owned(),
        );
    }
    if let Some(error) = &usage.error {
        return Removal::Refused(
            concat(
                "Cocoa-Way could not verify whether this volume is mounted, so deletion was blocked.\n\n",
                error.as_str(),
            ),
        );
    }
    if usage.mounted_containers.len() > 0 {
        let names = bullet_list(&usage.mounted_containers);
        return Removal::Refused(
            concat3(
                "This volume is mounted by:\n\n",
                names.as_str(),
                "\n\nStop those containers before deleting the volume.",
            ),
        );
    }
    let mut details: Vec<String> = empty_list();
    let first = concat("Runtime: ", runtime_label(runtime));
    push_text(&mut details, first.as_str());
    let ghost head = seq!["Runtime: "@ + shown_runtime(runtime@)];
    assert(details.deep_view() == head);
    let ghost used = if usage.referenced_profiles@.len() > 0 {
        seq![
            "Referenced by saved application profiles:\n"@ + bulleted(
                usage.referenced_profiles.deep_view(),
            )
                + "\n\nThose profiles will remain saved, but their next launch may fail until the volume is recreated."@,
        ]
    } else {
        Seq::empty()
    };
    if usage.referenced_profiles.len() > 0 {
        let names = bullet_list(&usage.referenced_profiles);
        let line = concat3(
            "Referenced by saved application profiles:\n",
            names.as_str(),
            "\n\nThose profiles will remain saved, but their next launch may fail until the volume is recreated.",
        );
        push_text(&mut details, line.as_str());
    }
    assert(details.deep_view() == head + used);
    Removal::Ask {
        title: concat3("Delete volume “", name, "”?"),
        detail: join(&details, "\n\n"),
        confirm: "Delete Volume".to_owned(),
    }
}

/// A volume is only ever deleted where it is known that no container mounts it.
pub proof fn law_mounted_volume_is_kept(runtime: Seq<char>, name: Seq<char>, usage: VolumeUsage)
    requires
        volume_removal(runtime, name, usage) is Ask,
    ensures
        !usage.loading,
        usage.error is None,
        usage.mounted_containers@.len() == 0,
{
}

/// The volumes of one runtime under its name.
#[derive(Debug)]
pub struct VolumeInventory {
    pub runtime: String,
    pub runtime_key: String,
    pub rows: Vec<VolumeRow>,
}

#[verifier::ext_equal]
pub struct VolumeInventoryView {
    pub runtime: Seq<char>,
    pub runtime_key: Seq<char>,
    pub rows: Seq<VolumeRowView>,
}

impl DeepView for VolumeInventory {
    type V = VolumeInventoryView;

    open spec fn deep_view(&self) -> VolumeInventoryView {
        VolumeInventoryView {
            runtime: self.runtime@,
            runtime_key: self.runtime_key@,
            rows: self.rows.deep_view(),
        }
    }
}

/// All volumes.
pub fn volume_inventories(
    apple: &Option<Result<CommandOutput, String>>,
    docker: &Option<Result<CommandOutput, String>>,
) -> (result: Vec<VolumeInventory>)
    ensures
        result.deep_view() == seq![
            VolumeInventoryView {
                runtime: "Apple Container"@,
                runtime_key: "container"@,
                rows: volume_rows_of(ImageSource::Apple, *apple),
            },
            VolumeInventoryView {
                runtime: "Docker-compatible Context"@,
                runtime_key: "docker"@,
                rows: volume_rows_of(ImageSource::Docker, *docker),
            },
        ],
{
    let mut result: Vec<VolumeInventory> = empty_list();
    push_deep(
        &mut result,
        VolumeInventory {
            runtime: "Apple Container".to_owned(),
            runtime_key: "container".to_owned(),
            rows: volume_rows(ImageSource::Apple, apple),
        },
    );
    push_deep(
        &mut result,
        VolumeInventory {
            runtime: "Docker-compatible Context".to_owned(),
            runtime_key: "docker".to_owned(),
            rows: volume_rows(ImageSource::Docker, docker),
        },
    );
    result
}

// ---------------------------------------------------------------------------
// What a runtime says of a volume
// ---------------------------------------------------------------------------
/// What a volume is, how large, and since when.
#[derive(Debug)]
pub struct VolumeMetadata {
    pub kind: String,
    pub size: String,
    pub created: String,
}

#[verifier::ext_equal]
pub struct VolumeMetadataView {
    pub kind: Seq<char>,
    pub size: Seq<char>,
    pub created: Seq<char>,
}

impl DeepView for VolumeMetadata {
    type V = VolumeMetadataView;

    open spec fn deep_view(&self) -> VolumeMetadataView {
        VolumeMetadataView { kind: self.kind@, size: self.size@, created: self.created@ }
    }
}

/// What a row says of a volume behind its name.
pub open spec fn row_metadata(label: Seq<char>, name: Seq<char>) -> Seq<char> {
    match after_prefix(label, name) {
        Some(rest) => if trimmed(rest).len() == 0 {
            "Managed volume"@
        } else {
            trimmed(rest)
        },
        None => "Managed volume"@,
    }
}

pub fn volume_metadata(label: &str, name: &str) -> (result: String)
    ensures
        result@ == row_metadata(label@, name@),
{
    if let Some(rest) = strip_prefix(label, name) {
        let value = trim(rest);
        if value.unicode_len() != 0 {
            return value.to_owned();
        }
    }
    "Managed volume".to_owned()
}

/// The first of some keys under which there is a text.
pub open spec fn first_text(value: JsonView, keys: Seq<Seq<char>>, other: Seq<char>) -> Seq<char>
    decreases keys.len(),
{
    if keys.len() == 0 {
        other
    } else {
        match value.text_field(keys.first()) {
            Some(text) => text,
            None => first_text(value, keys.drop_first(), other),
        }
    }
}

fn first_str(value: &Json, keys: &Vec<String>, other: &str) -> (result: String)
    ensures
        result@ == first_text(value.deep_view(), keys.deep_view(), other@),
{
    let ghost all = keys.deep_view();
    assert(all.skip(0) == all);
    for i in 0..keys.len()
        invariant
            all == keys.deep_view(),
            first_text(value.deep_view(), all, other@) == first_text(
                value.deep_view(),
                all.skip(i as int),
                other@,
            ),
    {
        assert(all.skip(i as int).drop_first() == all.skip(i + 1));
        assert(all.skip(i as int).first() == keys@[i as int]@);
        if let Some(text) = value.get_str(keys[i].as_str()) {
            return text.to_owned();
        }
    }
    other.to_owned()
}

/// The first of some keys under which there is anything.
pub open spec fn first_field(value: JsonView, keys: Seq<Seq<char>>) -> Option<JsonView>
    decreases keys.len(),
{
    if keys.len() == 0 {
        None
    } else {
        match value.field(keys.first()) {
            Some(found) => Some(found),
            None => first_field(value, keys.drop_first()),
        }
    }
}

fn first_value<'a>(value: &'a Json, keys: &Vec<String>) -> (result: Option<&'a Json>)
    ensures
        result.deep_view() == first_field(value.deep_view(), keys.deep_view()),
{
    let ghost all = keys.deep_view();
    assert(all.skip(0) == all);
    for i in 0..keys.len()
        invariant
            all == keys.deep_view(),
            first_field(value.deep_view(), all) == first_field(
                value.deep_view(),
                all.skip(i as int),
            ),
    {
        assert(all.skip(i as int).drop_first() == all.skip(i + 1));
        assert(all.skip(i as int).first() == keys@[i as int]@);
        if let Some(found) = value.get(keys[i].as_str()) {
            return Some(found);
        }
    }
    None
}

/// The size of a volume that an entry gives, in bytes or in words.
pub open spec fn entry_size(value: JsonView, keys: Seq<Seq<char>>) -> Seq<char> {
    match first_field(value, keys) {
        Some(size) => match size.number() {
            Some(bytes) => size_text(leading_digits(bytes as nat, 0)),
            None => match size.text() {
                Some(text) => text,
                None => "Unknown"@,
            },
        },
        None => "Unknown"@,
    }
}

fn size_of_entry(value: &Json, keys: &Vec<String>) -> (result: String)
    ensures
        result@ == entry_size(value.deep_view(), keys.deep_view()),
{
    match first_value(value, keys) {
        Some(size) => {
            if let Some(bytes) = size.as_u64() {
                return format_byte_count(bytes);
            }
            match size.as_str() {
                Some(text) => text.to_owned(),
                None => "Unknown".to_owned(),
            }
        },
        None => "Unknown".to_owned(),
    }
}

/// What an entry says of a volume.
pub open spec fn entry_metadata(value: JsonView, kind: Seq<char>) -> VolumeMetadataView {
    VolumeMetadataView {
        kind: first_text(value, seq!["Driver"@, "driver"@, "Type"@, "type"@], kind),
        size: entry_size(value, seq!["Size"@, "size"@, "sizeInBytes"@, "size_in_bytes"@]),
        created: first_text(
            value,
            seq!["CreatedAt"@, "createdAt"@, "creationDate"@, "created"@],
            "Unknown"@,
        ),
    }
}

/// The entry of a document about one volume: its first, where it is a list.
pub open spec fn volume_entry(root: JsonView) -> JsonView {
    match root {
        JsonView::Array(items) => if items.len() > 0 {
            items[0]
        } else {
            root
        },
        _ => root,
    }
}

/// Reads what a document says of a volume.
pub fn document_metadata(root: &Json, fallback_kind: &str) -> (result: VolumeMetadata)
    ensures
        result.deep_view() == entry_metadata(volume_entry(root.deep_view()), fallback_kind@),
{
    let value = match root {
        Json::Array(items) => if items.len() > 0 {
            &items[0]
        } else {
            root
        },
        _ => root,
    };
    let kinds = texts4("Driver", "driver", "Type", "type");
    let sizes = texts4("Size", "size", "sizeInBytes", "size_in_bytes");
    let times = texts4("CreatedAt", "createdAt", "creationDate", "created");
    VolumeMetadata {
        kind: first_str(value, &kinds, fallback_kind),
        size: size_of_entry(value, &sizes),
        created: first_str(value, &times, "Unknown"),
    }
}

pub open spec fn parsed_metadata(bytes: Seq<u8>, kind: Seq<char>) -> Option<VolumeMetadataView> {
    match parsed_value(bytes) {
        Ok(root) => Some(entry_metadata(volume_entry(root), kind)),
        Err(_) => None,
    }
}

pub fn parse_volume_inspect_metadata(bytes: &[u8], fallback_kind: &str) -> (result: Option<
    VolumeMetadata,
>)
    ensures
        result.deep_view() == parsed_metadata(bytes@, fallback_kind@),
{
    match parse_value(bytes) {
        Ok(root) => Some(document_metadata(&root, fallback_kind)),
        Err(_) => None,
    }
}

/// What is known of a volume; `reply` is none where the runtime is not
/// installed.
pub open spec fn inspected_volume(
    label: Seq<char>,
    name: Seq<char>,
    reply: Option<Result<CommandOutput, String>>,
) -> VolumeMetadataView {
    let kind = row_metadata(label, name);
    let unavailable = VolumeMetadataView {
        kind,
        size: "Unavailable"@,
        created: "Unavailable"@,
    };
    match reply {
        None => unavailable,
        Some(Ok(output)) => if output.success {
            match parsed_metadata(output.stdout@, kind) {
                Some(metadata) => metadata,
                None => VolumeMetadataView { kind, size: "Unknown"@, created: "Unknown"@ },
            }
        } else {
            unavailable
        },
        Some(Err(error)) => if error@ == loading() {
            VolumeMetadataView { kind, size: "Loading..."@, created: "Loading..."@ }
        } else {
            unavailable
        },
    }
}

pub fn volume_inspect_metadata(
    name: &str,
    label: &str,
    reply: &Option<Result<CommandOutput, String>>,
) -> (result: VolumeMetadata)
    ensures
        result.deep_view() == inspected_volume(label@, name@, *reply),
{
    let kind = volume_metadata(label, name);
    match reply {
        Some(Ok(output)) => {
            if output.success {
                return match parse_volume_inspect_metadata(
                    output.stdout.as_slice(),
                    kind.as_str(),
                ) {
                    Some(metadata) => metadata,
                    None => VolumeMetadata {
                        kind,
                        size: "Unknown".to_owned(),
                        created: "Unknown".to_owned(),
                    },
                };
            }
        },
        Some(Err(error)) => {
            if same(error.as_str(), loading_text()) {
                return VolumeMetadata {
                    kind,
                    size: "Loading...".to_owned(),
                    created: "Loading...".to_owned(),
                };
            }
        },
        None => {},
    }
    VolumeMetadata {
        kind,
        size: "Unavailable".to_owned(),
        created: "Unavailable".to_owned(),
    }
}

/// Which registries the user is signed in to, in words.
pub open spec fn login_summary(reply: Option<Result<CommandOutput, String>>) -> Seq<char> {
    match reply {
        None => "Registry login unavailable: Apple Container is not installed."@,
        Some(Err(_)) => loading(),
        Some(Ok(output)) => if output.success {
            let all = trimmed_lines(lines_of(lossy_text(output.stdout@)));
            if all.len() == 0 {
                "Public pulls ready; no private registry login saved."@
            } else {
                "Signed in: "@ + joined(
                    if all.len() > 3 {
                        all.take(3)
                    } else {
                        all
                    },
                    ", "@,
                )
            }
        } else {
            "Registry login status unavailable."@
        },
    }
}

pub fn apple_registry_login_summary(reply: &Option<Result<CommandOutput, String>>) -> (result:
    String)
    ensures
        result@ == login_summary(*reply),
{
    match reply {
        None => "Registry login unavailable: Apple Container is not installed.".to_owned(),
        Some(Err(_)) => loading_text().to_owned(),
        Some(Ok(output)) => {
            if !output.success {
                return "Registry login status unavailable.".to_owned();
            }
            let mut all = trimmed_output(output);
            let ghost whole = all.deep_view();
            assert(whole.len() == all@.len());
            if all.len() == 0 {
                return "Public pulls ready; no private registry login saved.".to_owned();
            }
            if all.len() > 3 {
                all.truncate(3);
                assert(all.deep_view() == whole.take(3));
            }
            let names = join(&all, ", ");
            concat("Signed in: ", names.as_str())
        },
    }
}

} // verus!
