//! What is read of documents, volumes, mounts and registries.
use vstd::prelude::*;

use crate::json::{parsed_array, parsed_value, JsonView};
use crate::session_launch::CommandOutput;
use crate::storage::{
    entry_id, entry_metadata, entry_mounts, first_text, image_inventories_of, image_rows_of,
    inspected_volume, login_summary, mounting, reported_mounts, row_metadata, trimmed_lines,
    usage_problem, volume_entry, volume_lines, volume_rows_of, ImageSource, VolumeMetadataView,
};
use crate::text::{joined, lines_of, lossy_text, trimmed};

verus! {

// ---------------------------------------------------------------------------
// Documents
// ---------------------------------------------------------------------------
/// The value under a key of an object is that of the first entry with the key;
/// there is none where no entry has it, and none in what is no object.
pub proof fn law_value_is_under_its_key(
    before: Seq<(Seq<char>, JsonView)>,
    key: Seq<char>,
    value: JsonView,
    after: Seq<(Seq<char>, JsonView)>,
)
    requires
        forall|i: int| 0 <= i < before.len() ==> (#[trigger] before[i]).0 != key,
    ensures
        JsonView::Object(before + seq![(key, value)] + after).field(key) == Some(value),
        JsonView::Object(before).field(key) is None,
        JsonView::Array(seq![value]).field(key) is None,
        JsonView::Text(key).text() == Some(key),
        JsonView::Null.text() is None,
    decreases before.len(),
{
    let all = before + seq![(key, value)] + after;
    if before.len() == 0 {
        assert(all.first() == (key, value));
    } else {
        let rest = before.drop_first();
        assert(before[0].0 != key);
        assert forall|i: int| 0 <= i < rest.len() implies (#[trigger] rest[i]).0 != key by {
            assert(rest[i] == before[i + 1]);
        }
        law_value_is_under_its_key(rest, key, value, after);
        assert(all.first() == before[0]);
        assert(all.drop_first() =~= rest + seq![(key, value)] + after);
    }
}

// ---------------------------------------------------------------------------
// What is known of a volume
// ---------------------------------------------------------------------------
/// The kind and the time of a volume are read from under the names that the
/// runtimes give them, the first of them that holds a text; what is not there
/// is what is already known, or not known.
pub proof fn law_metadata_is_read_by_name(value: JsonView, kind: Seq<char>, text: Seq<char>)
    ensures
        value.text_field("Driver"@) == Some(text) ==> entry_metadata(value, kind).kind == text,
        value.text_field("Driver"@) is None && value.text_field("driver"@) == Some(text)
            ==> entry_metadata(value, kind).kind == text,
        value.text_field("CreatedAt"@) == Some(text) ==> entry_metadata(value, kind).created
            == text,
        value.text_field("CreatedAt"@) is None && value.text_field("createdAt"@) == Some(text)
            ==> entry_metadata(value, kind).created == text,
        value.field("Size"@) == Some(JsonView::Text(text)) ==> entry_metadata(value, kind).size
            == text,
        value == JsonView::Null ==> entry_metadata(value, kind) == (VolumeMetadataView {
            kind,
            size: "Unknown"@,
            created: "Unknown"@,
        }),
{
    let kinds = seq!["Driver"@, "driver"@, "Type"@, "type"@];
    let times = seq!["CreatedAt"@, "createdAt"@, "creationDate"@, "created"@];
    let sizes = seq!["Size"@, "size"@, "sizeInBytes"@, "size_in_bytes"@];
    reveal_with_fuel(first_text, 5);
    reveal_with_fuel(crate::storage::first_field, 5);
    assert(kinds.first() == "Driver"@);
    assert(kinds.drop_first().first() == "driver"@);
    assert(kinds.drop_first().drop_first().drop_first().drop_first().len() == 0);
    assert(times.first() == "CreatedAt"@);
    assert(times.drop_first().first() == "createdAt"@);
    assert(times.drop_first().drop_first().drop_first().drop_first().len() == 0);
    assert(sizes.first() == "Size"@);
    assert(sizes.drop_first().drop_first().drop_first().drop_first().len() == 0);
}

/// A document about one volume may be a list of it.
pub proof fn law_single_entry_is_read(entry: JsonView, rest: Seq<JsonView>)
    ensures
        volume_entry(JsonView::Array(seq![entry] + rest)) == entry,
        !(entry is Array) ==> volume_entry(entry) == entry,
{
}

/// What a row says of a volume behind its name is what is known of it.
pub proof fn law_row_tells_of_its_volume(name: Seq<char>, rest: Seq<char>)
    ensures
        trimmed(rest).len() > 0 ==> row_metadata(name + rest, name) == trimmed(rest),
        trimmed(rest).len() == 0 ==> row_metadata(name + rest, name) == "Managed volume"@,
{
    let label = name + rest;
    assert(label.take(name.len() as int) =~= name);
    assert(label.skip(name.len() as int) =~= rest);
}

/// A volume that its runtime describes is shown as described; while that is
/// awaited, that is said, and what could not be had is unavailable. Its kind is
/// known from its row in any case.
pub proof fn law_volume_is_described(
    label: Seq<char>,
    name: Seq<char>,
    reply: Option<Result<CommandOutput, String>>,
)
    ensures
        match reply {
            Some(Ok(output)) if output.success => match parsed_value(output.stdout@) {
                Ok(root) => inspected_volume(label, name, reply) == entry_metadata(
                    volume_entry(root),
                    row_metadata(label, name),
                ),
                Err(_) => inspected_volume(label, name, reply).size == "Unknown"@
                    && inspected_volume(label, name, reply).kind == row_metadata(label, name),
            },
            Some(Err(error)) if error@ == "Loading runtime data..."@ => inspected_volume(
                label,
                name,
                reply,
            ).size == "Loading..."@,
            _ => inspected_volume(label, name, reply).size == "Unavailable"@ && inspected_volume(
                label,
                name,
                reply,
            ).kind == row_metadata(label, name),
        },
{
}

// ---------------------------------------------------------------------------
// Mounts
// ---------------------------------------------------------------------------
/// A container of Apple's list mounts a volume just where one of the mounts in
/// its configuration has the volume as its source.
pub proof fn law_mounting_container_is_recognized(
    container: JsonView,
    configuration: JsonView,
    mounts: Seq<JsonView>,
    volume: Seq<char>,
)
    requires
        container.field("configuration"@) == Some(configuration),
        configuration.field("mounts"@) == Some(JsonView::Array(mounts)),
    ensures
        entry_mounts(container, volume) <==> exists|i: int|
            0 <= i < mounts.len() && (#[trigger] mounts[i]).text_field("source"@) == Some(volume),
        container.text_field("id"@) matches Some(id) ==> entry_id(container) == id,
        container.field("id"@) is None && configuration.text_field("id"@) is Some ==> Some(
            entry_id(container),
        ) == configuration.text_field("id"@),
{
}

/// The containers of two lists that mount a volume are those of the first and
/// then those of the second.
pub proof fn law_mounting_containers_are_listed(
    a: Seq<JsonView>,
    b: Seq<JsonView>,
    container: JsonView,
    volume: Seq<char>,
)
    ensures
        mounting(a + b, volume) == mounting(a, volume) + mounting(b, volume),
        mounting(seq![container], volume) == (if entry_mounts(container, volume) {
            seq![entry_id(container)]
        } else {
            seq![]
        }),
    decreases b.len(),
{
    reveal_with_fuel(mounting, 2);
    assert(seq![container].drop_last() == Seq::<JsonView>::empty());
    assert(mounting(seq![container], volume) =~= (if entry_mounts(container, volume) {
        seq![entry_id(container)]
    } else {
        seq![]
    }));
    if b.len() == 0 {
        assert(a + b == a);
        assert(mounting(a, volume) + mounting(b, volume) == mounting(a, volume));
    } else {
        assert((a + b).drop_last() == a + b.drop_last());
        law_mounting_containers_are_listed(a, b.drop_last(), container, volume);
        assert(mounting(a + b, volume) =~= mounting(a, volume) + mounting(b, volume));
    }
}

/// It is known which containers mount a volume just where the runtime answered
/// in a way that can be read; while the answer is awaited there is no problem
/// either.
pub proof fn law_use_is_known_when_answered(
    key: Seq<char>,
    volume: Seq<char>,
    reply: Option<Result<CommandOutput, String>>,
)
    ensures
        usage_problem(key, volume, reply) is None <==> match reply {
            Some(Ok(output)) => output.success && (key == "docker"@ || parsed_array(
                lossy_text(output.stdout@),
            ) is Ok),
            Some(Err(error)) => error@ == "Loading runtime data..."@,
            None => false,
        },
{
}

/// Docker's answer names a container on each line; Apple's is a document.
pub proof fn law_mounts_are_read_by_runtime(
    key: Seq<char>,
    volume: Seq<char>,
    output: CommandOutput,
)
    ensures
        key == "docker"@ ==> reported_mounts(key, volume, output) == Ok::<
            Seq<Seq<char>>,
            Seq<char>,
        >(trimmed_lines(lines_of(lossy_text(output.stdout@)))),
        key != "docker"@ ==> (parsed_array(lossy_text(output.stdout@)) matches Ok(containers)
            ==> reported_mounts(key, volume, output) == Ok::<Seq<Seq<char>>, Seq<char>>(
            mounting(containers, volume),
        )),
{
}

/// Lines are read without the spaces around them, the empty ones left out and
/// the others in their order.
pub proof fn law_lines_are_read_trimmed(a: Seq<Seq<char>>, b: Seq<Seq<char>>, line: Seq<char>)
    ensures
        trimmed_lines(a + b) == trimmed_lines(a) + trimmed_lines(b),
        trimmed_lines(seq![line]) == (if trimmed(line).len() == 0 {
            seq![]
        } else {
            seq![trimmed(line)]
        }),
    decreases b.len(),
{
    reveal_with_fuel(trimmed_lines, 2);
    assert(seq![line].drop_last() == Seq::<Seq<char>>::empty());
    assert(trimmed_lines(seq![line]) =~= (if trimmed(line).len() == 0 {
        seq![]
    } else {
        seq![trimmed(line)]
    }));
    if b.len() == 0 {
        assert(a + b == a);
        assert(trimmed_lines(a) + trimmed_lines(b) == trimmed_lines(a));
    } else {
        assert((a + b).drop_last() == a + b.drop_last());
        law_lines_are_read_trimmed(a, b.drop_last(), line);
        assert(trimmed_lines(a + b) =~= trimmed_lines(a) + trimmed_lines(b));
    }
}

// ---------------------------------------------------------------------------
// Lists and registries
// ---------------------------------------------------------------------------
/// A list of volumes that came holds every volume of it; a list that did not
/// come, or that holds none, is one row that is of no volume.
pub proof fn law_missing_volumes_are_told(
    source: ImageSource,
    reply: Option<Result<CommandOutput, String>>,
)
    ensures
        match reply {
            Some(Ok(output)) if output.success && volume_lines(
                lines_of(lossy_text(output.stdout@)),
            ).len() > 0 => volume_rows_of(source, reply) == volume_lines(
                lines_of(lossy_text(output.stdout@)),
            ),
            _ => volume_rows_of(source, reply).len() == 1 && volume_rows_of(source, reply)[0].name
                is None,
        },
{
}

/// The images of both runtimes are shown, each under its own key; while
/// something is done with an image, that is shown in their place.
pub proof fn law_images_of_both_runtimes_are_shown(
    message: Seq<char>,
    apple: Option<Result<CommandOutput, String>>,
    docker: Option<Result<CommandOutput, String>>,
)
    ensures
        image_inventories_of(None, apple, docker).len() == 2,
        image_inventories_of(None, apple, docker)[0].runtime_key == "container"@,
        image_inventories_of(None, apple, docker)[0].rows == image_rows_of(
            ImageSource::Apple,
            apple,
        ),
        image_inventories_of(None, apple, docker)[1].runtime_key == "docker"@,
        image_inventories_of(None, apple, docker)[1].rows == image_rows_of(
            ImageSource::Docker,
            docker,
        ),
        image_inventories_of(Some((message, None)), apple, docker).len() == 1,
        image_inventories_of(Some((message, None)), apple, docker)[0].rows[0].label == message,
        image_inventories_of(Some((message, None)), apple, docker)[0].rows[0].reference is None,
{
}

/// The registries that the user is signed in to are named, the first three of
/// them.
pub proof fn law_registries_are_named(output: CommandOutput, all: Seq<Seq<char>>)
    requires
        output.success,
        all == trimmed_lines(lines_of(lossy_text(output.stdout@))),
    ensures
        0 < all.len() <= 3 ==> login_summary(Some(Ok(output))) == "Signed in: "@ + joined(
            all,
            ", "@,
        ),
        all.len() > 3 ==> login_summary(Some(Ok(output))) == "Signed in: "@ + joined(
            all.take(3),
            ", "@,
        ),
        all.len() == 0 ==> login_summary(Some(Ok(output)))
            == "Public pulls ready; no private registry login saved."@,
{
}

} // verus!
