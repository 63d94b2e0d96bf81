//! What the lists of images and volumes say, and what may be removed.
use vstd::prelude::*;

use crate::container_mode::{active_of, ActiveView};
use crate::container_sessions::SessionView;
use crate::session_launch::CommandOutput;
use crate::splitting::{is_whole, lemma_pieces_of_joined};
use crate::storage::{
    all_references, any_mounts, apple_image_row, docker_image_row, doomed, image_lines,
    image_removal, image_row_of, image_rows_of, image_users, is_tagged, key_matches, mounts_volume,
    name_and_tag, part_names, references_with_id, shown_id, volume_lines, volume_removal,
    volume_row, volume_users, ImageDeleteAction, ImageInventoryView, ImageRowView, ImageSource,
    VolumeUsage,
};
use crate::text::{
    is_char, is_space, joined, last_place, lemma_last_place, lines_of, lossy_text, lowered,
    split_at, trimmed, without_empty, words_of,
};
use crate::text_laws::{
    law_split_at_first, law_trimmed_is_kept, law_word_is_whole, law_words_are_apart,
    law_words_have_no_space,
};

verus! {

// ---------------------------------------------------------------------------
// Rows of images
// ---------------------------------------------------------------------------
/// A name and a tag that are put together with a colon come apart again, and a
/// reference without a tag is its own name.
pub proof fn law_reference_comes_apart(name: Seq<char>, tag: Seq<char>)
    requires
        !tag.contains(':'),
        !tag.contains('/'),
    ensures
        is_tagged(name + ":"@ + tag),
        name_and_tag(name + ":"@ + tag) == (name, tag),
        !tag.contains(':') ==> name_and_tag(tag) == (tag, "<none>"@),
{
    reveal_strlit(":");
    let reference = name + ":"@ + tag;
    lemma_last_place(reference, ':');
    lemma_last_place(reference, '/');
    let colon = name.len() as int;
    assert(reference[colon] == ':');
    assert forall|i: int| colon < i < reference.len() implies reference[i] != ':' && reference[i]
        != '/' by {
        assert(reference[i] == tag[i - colon - 1]);
        assert(tag.contains(tag[i - colon - 1]));
    }
    assert(last_place(reference, ':') == colon);
    if last_place(reference, '/') >= colon {
        assert(reference[last_place(reference, '/')] == '/');
    }
    assert(reference.take(colon) == name);
    assert(reference.skip(colon + 1) == tag);
    lemma_last_place(tag, ':');
    if last_place(tag, ':') >= 0 {
        assert(tag.contains(tag[last_place(tag, ':')]));
    }
}

/// A row of Apple Container's list that has a name and a tag is of the image
/// with that name and that tag, and shows its digest behind that. Where the tag
/// is a plain one, the reference comes apart into the two.
pub proof fn law_row_names_its_tag(line: Seq<char>)
    requires
        words_of(line).len() >= 2,
        lowered(words_of(line)[0]) != lowered("name"@),
        words_of(line)[1] != "<none>"@,
    ensures
        apple_image_row(line) is Some,
        apple_image_row(line)->0.reference == Some(words_of(line)[0] + ":"@ + words_of(line)[1]),
        !words_of(line)[1].contains(':') && !words_of(line)[1].contains('/') ==> name_and_tag(
            apple_image_row(line)->0.reference->0,
        ) == (words_of(line)[0], words_of(line)[1]),
        words_of(line).len() >= 3 ==> apple_image_row(line)->0.label == words_of(line)[0] + ":"@
            + words_of(line)[1] + "    "@ + words_of(line)[2],
        words_of(line).len() == 2 ==> apple_image_row(line)->0.label == words_of(line)[0] + ":"@
            + words_of(line)[1],
{
    let words = words_of(line);
    law_words_have_no_space(line, 1);
    if words.len() >= 3 {
        law_words_have_no_space(line, 2);
    }
    if !words[1].contains(':') && !words[1].contains('/') {
        law_reference_comes_apart(words[0], words[1]);
    }
    reveal_strlit("");
}

/// Rows of one name and of different tags are of different images.
pub proof fn law_tags_are_told_apart(a: Seq<char>, b: Seq<char>)
    requires
        words_of(a).len() >= 2,
        words_of(b).len() >= 2,
        words_of(a)[0] == words_of(b)[0],
        words_of(a)[1] != words_of(b)[1],
        lowered(words_of(a)[0]) != lowered("name"@),
        words_of(a)[1] != "<none>"@,
        words_of(b)[1] != "<none>"@,
    ensures
        apple_image_row(a)->0.reference->0 != apple_image_row(b)->0.reference->0,
{
    law_row_names_its_tag(a);
    law_row_names_its_tag(b);
    let front = words_of(a)[0] + ":"@;
    let n = front.len() as int;
    let first = front + words_of(a)[1];
    let second = front + words_of(b)[1];
    assert(first.skip(n) == words_of(a)[1]);
    assert(second.skip(n) == words_of(b)[1]);
}

/// A row without a tag is of the image that its name alone says; the heading
/// and an empty line are of none.
pub proof fn law_row_without_tag(line: Seq<char>)
    ensures
        words_of(line).len() == 0 ==> apple_image_row(line) is None,
        words_of(line).len() > 0 && lowered(words_of(line)[0]) == lowered("name"@)
            ==> apple_image_row(line) is None,
        words_of(line).len() > 0 && lowered(words_of(line)[0]) != lowered("name"@) && (words_of(
            line,
        ).len() == 1 || words_of(line)[1] == "<none>"@) ==> apple_image_row(line) is Some
            && apple_image_row(line)->0.reference == Some(words_of(line)[0]),
{
    reveal_strlit("");
}

/// Whether a text can stand in a column as it is.
pub open spec fn is_column(text: Seq<char>) -> bool {
    text.len() > 0 && !is_space(text[0]) && !is_space(text.last()) && !text.contains('\t')
}

proof fn lemma_whole_column(text: Seq<char>)
    requires
        is_column(text),
    ensures
        is_whole(text, is_char('\t')),
{
    assert forall|i: int| 0 <= i < text.len() implies !is_char('\t')(#[trigger] text[i]) by {
        assert(text.contains(text[i]));
    }
}

/// A row of Docker's list is of the image that its first column says, or of the
/// image's number where that column says none; the number and the size are
/// shown behind it.
pub proof fn law_docker_row_names_its_image(tagged: Seq<char>, id: Seq<char>, size: Seq<char>)
    requires
        is_column(tagged),
        is_column(id),
        is_column(size),
    ensures
        ({
            let row = docker_image_row(tagged + seq!['\t'] + id + seq!['\t'] + size);
            let reference = if "<none>:"@.is_prefix_of(tagged) {
                id
            } else {
                tagged
            };
            &&& row is Some
            &&& row->0.reference == Some(reference)
            &&& row->0.label == reference + "    "@ + id + "    "@ + size
        }),
{
    let line = tagged + seq!['\t'] + id + seq!['\t'] + size;
    let parts = seq![tagged, id, size];
    lemma_whole_column(tagged);
    lemma_whole_column(id);
    lemma_whole_column(size);
    let two = seq![tagged, id];
    reveal_with_fuel(joined, 3);
    assert(parts.drop_last() == two);
    assert(two.drop_last() == seq![tagged]);
    assert(joined(two, seq!['\t']) == tagged + seq!['\t'] + id);
    assert(joined(parts, seq!['\t']) == line);
    assert forall|k: int| 0 <= k < parts.len() implies is_whole(
        #[trigger] parts[k],
        is_char('\t'),
    ) by {}
    lemma_pieces_of_joined(parts, '\t', is_char('\t'));
    law_trimmed_is_kept(tagged);
    law_trimmed_is_kept(id);
    law_trimmed_is_kept(size);
    let shown = seq![id, size];
    assert(shown.drop_last() == seq![id]);
    assert(seq![id].drop_last() == Seq::<Seq<char>>::empty());
    reveal_with_fuel(without_empty, 3);
    assert(without_empty(shown) == shown);
    assert(joined(shown, "    "@) == id + "    "@ + size);
    let reference = if "<none>:"@.is_prefix_of(tagged) {
        id
    } else {
        tagged
    };
    assert(reference + "    "@ + (id + "    "@ + size) == reference + "    "@ + id + "    "@ + size);
}

/// The images of two lists one behind the other are those of the first and then
/// those of the second, and a line is one image or none.
pub proof fn law_images_are_listed_in_order(
    source: ImageSource,
    a: Seq<Seq<char>>,
    b: Seq<Seq<char>>,
    line: Seq<char>,
)
    ensures
        image_lines(source, a + b) == image_lines(source, a) + image_lines(source, b),
        image_lines(source, seq![line]) == (match image_row_of(source, line) {
            Some(row) => seq![row],
            None => seq![],
        }),
    decreases b.len(),
{
    reveal_with_fuel(image_lines, 2);
    assert(seq![line].drop_last() == Seq::<Seq<char>>::empty());
    assert(image_lines(source, seq![line]) =~= (match image_row_of(source, line) {
        Some(row) => seq![row],
        None => seq![],
    }));
    if b.len() == 0 {
        assert(a + b == a);
        assert(image_lines(source, a) + image_lines(source, b) == image_lines(source, a));
    } else {
        assert((a + b).drop_last() == a + b.drop_last());
        law_images_are_listed_in_order(source, a, b.drop_last(), line);
        assert(image_lines(source, a + b) =~= image_lines(source, a) + image_lines(source, b));
    }
}

/// A list that came holds every image of it; a list that did not come, or that
/// holds none, is one row that is of no image.
pub proof fn law_missing_list_is_told(
    source: ImageSource,
    reply: Option<Result<CommandOutput, String>>,
)
    ensures
        match reply {
            Some(Ok(output)) if output.success && image_lines(
                source,
                lines_of(lossy_text(output.stdout@)),
            ).len() > 0 => image_rows_of(source, reply) == image_lines(
                source,
                lines_of(lossy_text(output.stdout@)),
            ),
            _ => image_rows_of(source, reply).len() == 1 && image_rows_of(
                source,
                reply,
            )[0].reference is None,
        },
{
}

// ---------------------------------------------------------------------------
// Numbers and users of images
// ---------------------------------------------------------------------------
/// The number of an image is the first word that its row shows behind its
/// reference.
pub proof fn law_number_is_shown(reference: Seq<char>, id: Seq<char>, rest: Seq<char>)
    requires
        id.len() > 0,
        forall|i: int| 0 <= i < id.len() ==> !is_space(#[trigger] id[i]),
    ensures
        shown_id(reference + "    "@ + id, reference) == Some(id),
        shown_id(reference + "    "@ + id + "    "@ + rest, reference) == Some(id),
{
    reveal_strlit("    ");
    let gap = "    "@;
    let none = Seq::<char>::empty();
    let three = seq![' ', ' ', ' '];
    law_word_is_whole(id);
    law_word_is_whole(none);
    law_words_are_apart(none, ' ', id);
    assert(none.push(' ') + id == seq![' '] + id);
    law_words_are_apart(none, ' ', seq![' '] + id);
    assert(none.push(' ') + (seq![' '] + id) == seq![' ', ' '] + id);
    law_words_are_apart(none, ' ', seq![' ', ' '] + id);
    assert(none.push(' ') + (seq![' ', ' '] + id) == three + id);
    law_words_are_apart(none, ' ', three + id);
    assert(none.push(' ') + (three + id) == gap + id);
    assert(words_of(gap + id) == seq![id]) by {
        assert(words_of(none) + seq![id] == seq![id]);
    }
    let label = reference + gap + id;
    assert(label.skip(reference.len() as int) == gap + id);
    assert(reference.is_prefix_of(label));
    law_words_are_apart(gap + id, ' ', three + rest);
    let longer = reference + gap + id + gap + rest;
    assert((gap + id).push(' ') + (three + rest) == gap + id + gap + rest);
    assert(longer.skip(reference.len() as int) == gap + id + gap + rest);
    assert(reference.is_prefix_of(longer));
    assert(words_of(gap + id + gap + rest)[0] == id);
}

/// The references of an image's number are those of the rows that show the
/// number, and no others.
pub proof fn law_numbered_references_are_found(
    rows: Seq<ImageRowView>,
    id: Seq<char>,
    reference: Seq<char>,
)
    ensures
        references_with_id(rows, id).contains(reference) <==> exists|i: int|
            0 <= i < rows.len() && (#[trigger] rows[i]).reference == Some(reference) && shown_id(
                rows[i].label,
                reference,
            ) == Some(id),
    decreases rows.len(),
{
    if rows.len() > 0 {
        let front = rows.drop_last();
        law_numbered_references_are_found(front, id, reference);
        let before = references_with_id(front, id);
        let all = references_with_id(rows, id);
        let last = rows[rows.len() - 1];
        if all.contains(reference) {
            let k = choose|k: int| 0 <= k < all.len() && all[k] == reference;
            if k < before.len() {
                assert(before[k] == reference);
                let i = choose|i: int|
                    0 <= i < front.len() && (#[trigger] front[i]).reference == Some(reference)
                        && shown_id(front[i].label, reference) == Some(id);
                assert(rows[i] == front[i]);
            } else {
                assert(last.reference == Some(reference));
            }
        }
        if exists|i: int|
            0 <= i < rows.len() && (#[trigger] rows[i]).reference == Some(reference) && shown_id(
                rows[i].label,
                reference,
            ) == Some(id) {
            let i = choose|i: int|
                0 <= i < rows.len() && (#[trigger] rows[i]).reference == Some(reference)
                    && shown_id(rows[i].label, reference) == Some(id);
            if i < front.len() {
                assert(front[i] == rows[i]);
                let k = choose|k: int| 0 <= k < before.len() && before[k] == reference;
                assert(all[k] == reference);
            } else {
                assert(all.last() == reference);
                assert(all.contains(all[all.len() - 1]));
            }
        }
    }
}

/// The references of a number in all lists of a runtime are those in each of
/// them.
pub proof fn law_every_list_is_searched(
    a: Seq<ImageInventoryView>,
    list: ImageInventoryView,
    key: Seq<char>,
    id: Seq<char>,
)
    ensures
        all_references(a.push(list), key, id) == all_references(a, key, id) + (
        if list.runtime_key == key {
            references_with_id(list.rows, id)
        } else {
            seq![]
        }),
        all_references(seq![], key, id).len() == 0,
{
    assert(a.push(list).drop_last() == a);
    assert(all_references(a.push(list), key, id) =~= all_references(a, key, id) + (
    if list.runtime_key == key {
        references_with_id(list.rows, id)
    } else {
        seq![]
    }));
}

/// The users of some images are the profiles with one of them on that runtime,
/// and, where only those count, with an instance.
pub proof fn law_image_users_are_found(
    sessions: Seq<SessionView>,
    active: Seq<ActiveView>,
    runtime: Seq<char>,
    references: Seq<Seq<char>>,
    running_only: bool,
    name: Seq<char>,
)
    requires
        sessions.len() <= usize::MAX,
    ensures
        image_users(sessions, active, runtime, references, running_only).contains(name) <==> exists|
            i: int,
        |
            0 <= i < sessions.len() && (#[trigger] sessions[i]).name == name && references.contains(
                sessions[i].image,
            ) && key_matches(runtime, sessions[i].runtime) && (!running_only || active_of(
                active,
                i as usize,
            ) is Some),
    decreases sessions.len(),
{
    if sessions.len() > 0 {
        let front = sessions.drop_last();
        law_image_users_are_found(front, active, runtime, references, running_only, name);
        let before = image_users(front, active, runtime, references, running_only);
        let all = image_users(sessions, active, runtime, references, running_only);
        let n = sessions.len() - 1;
        let last = sessions[n];
        if all.contains(name) {
            let k = choose|k: int| 0 <= k < all.len() && all[k] == name;
            if k < before.len() {
                assert(before[k] == name);
                let i = choose|i: int|
                    0 <= i < front.len() && (#[trigger] front[i]).name == name
                        && references.contains(front[i].image) && key_matches(
                        runtime,
                        front[i].runtime,
                    ) && (!running_only || active_of(active, i as usize) is Some);
                assert(sessions[i] == front[i]);
            } else {
                assert(last.name == name);
            }
        }
        if exists|i: int|
            0 <= i < sessions.len() && (#[trigger] sessions[i]).name == name && references.contains(
                sessions[i].image,
            ) && key_matches(runtime, sessions[i].runtime) && (!running_only || active_of(
                active,
                i as usize,
            ) is Some) {
            let i = choose|i: int|
                0 <= i < sessions.len() && (#[trigger] sessions[i]).name == name
                    && references.contains(sessions[i].image) && key_matches(
                    runtime,
                    sessions[i].runtime,
                ) && (!running_only || active_of(active, i as usize) is Some);
            if i < n {
                assert(front[i] == sessions[i]);
                let k = choose|k: int| 0 <= k < before.len() && before[k] == name;
                assert(all[k] == name);
            } else {
                assert(all.contains(all[all.len() - 1]));
            }
        }
    }
}

/// An image is refused just where a profile that uses it has an instance; the
/// question about a tag names the tag, and is of the tag alone.
pub proof fn law_free_image_can_go(
    sessions: Seq<SessionView>,
    active: Seq<ActiveView>,
    action: ImageDeleteAction,
    remove_tag: bool,
    known: Seq<Seq<char>>,
)
    requires
        sessions.len() <= usize::MAX,
        forall|i: int|
            0 <= i < sessions.len() && doomed(action, remove_tag, known).contains(
                (#[trigger] sessions[i]).image,
            ) && key_matches(action.runtime@, sessions[i].runtime) ==> active_of(active, i as usize)
                is None,
    ensures
        image_removal(sessions, active, action, remove_tag, known) is Ask,
        remove_tag ==> image_removal(sessions, active, action, remove_tag, known)->title
            == "Remove tag “"@ + action.reference@ + "”?"@,
        remove_tag ==> doomed(action, remove_tag, known) == seq![action.reference@],
        !remove_tag && action.image_id is Some && known.len() > 0 ==> doomed(
            action,
            remove_tag,
            known,
        ) == known,
        action.image_id is None ==> doomed(action, remove_tag, known) == seq![action.reference@],
{
    let references = doomed(action, remove_tag, known);
    let running = image_users(sessions, active, action.runtime@, references, true);
    if running.len() > 0 {
        law_image_users_are_found(
            sessions,
            active,
            action.runtime@,
            references,
            true,
            running[0],
        );
        assert(running.contains(running[0]));
    }
}

/// Docker's images and volumes are OrbStack's too; Apple's are of every runtime
/// that is neither.
pub proof fn law_runtimes_share_storage(key: Seq<char>, runtime: Seq<char>)
    ensures
        lowered(trimmed(key)) == "docker"@ ==> (key_matches(key, runtime) <==> lowered(
            trimmed(runtime),
        ) == "docker"@ || lowered(trimmed(runtime)) == "orb"@ || lowered(trimmed(runtime))
            == "orbstack"@),
        lowered(trimmed(key)) == "container"@ || lowered(trimmed(key)) == "apple"@
            || lowered(trimmed(key)) == "apple container"@ ==> (key_matches(key, runtime)
            <==> lowered(trimmed(runtime)) != "docker"@ && lowered(trimmed(runtime)) != "orb"@
            && lowered(trimmed(runtime)) != "orbstack"@),
{
    reveal_strlit("docker");
    reveal_strlit("container");
    reveal_strlit("apple");
    reveal_strlit("apple container");
    assert("docker"@[0] != "container"@[0]);
    assert("docker"@.len() != "apple"@.len());
    assert("docker"@.len() != "apple container"@.len());
}

// ---------------------------------------------------------------------------
// Volumes
// ---------------------------------------------------------------------------
/// A line of a list of volumes is of the volume that its first word names, and
/// is shown whole; the heading and an empty line are of none.
pub proof fn law_volume_row_names_its_volume(line: Seq<char>)
    ensures
        volume_row(line) matches Some(row) ==> row.label == trimmed(line) && words_of(
            trimmed(line),
        ).len() > 0 && row.name == Some(words_of(trimmed(line))[0]),
        volume_row(line) is None <==> words_of(trimmed(line)).len() == 0 || lowered(
            words_of(trimmed(line))[0],
        ) == lowered("name"@),
{
    if trimmed(line).len() == 0 {
        law_word_is_whole(trimmed(line));
    }
}

/// The volumes of two lists one behind the other are those of the first and
/// then those of the second, and a line is one volume or none.
pub proof fn law_volumes_are_listed_in_order(
    a: Seq<Seq<char>>,
    b: Seq<Seq<char>>,
    line: Seq<char>,
)
    ensures
        volume_lines(a + b) == volume_lines(a) + volume_lines(b),
        volume_lines(seq![line]) == (match volume_row(line) {
            Some(row) => seq![row],
            None => seq![],
        }),
    decreases b.len(),
{
    reveal_with_fuel(volume_lines, 2);
    assert(seq![line].drop_last() == Seq::<Seq<char>>::empty());
    assert(volume_lines(seq![line]) =~= (match volume_row(line) {
        Some(row) => seq![row],
        None => seq![],
    }));
    if b.len() == 0 {
        assert(a + b == a);
        assert(volume_lines(a) + volume_lines(b) == volume_lines(a));
    } else {
        assert((a + b).drop_last() == a + b.drop_last());
        law_volumes_are_listed_in_order(a, b.drop_last(), line);
        assert(volume_lines(a + b) =~= volume_lines(a) + volume_lines(b));
    }
}

/// A setting of a mount is of a volume where it gives the volume as the source.
pub proof fn law_source_is_the_volume(key: Seq<char>, value: Seq<char>, volume: Seq<char>)
    requires
        key.len() > 0,
        !key.contains('='),
        !is_space(key[0]),
        !is_space(key.last()),
        value.len() > 0,
        !is_space(value[0]),
        !is_space(value.last()),
    ensures
        part_names(key.push('=') + value, volume) <==> value == volume && (key == "source"@ || key
            == "src"@ || key == "volume"@ || key == "name"@),
{
    let part = key.push('=') + value;
    assert(part[0] == key[0]);
    assert(part.last() == value.last());
    law_trimmed_is_kept(part);
    law_trimmed_is_kept(key);
    law_trimmed_is_kept(value);
    law_split_at_first(key, '=', value);
}

/// A mount is of a volume that it names alone, or before a colon, or in a
/// setting between commas.
pub proof fn law_mounts_are_recognized(
    volume: Seq<char>,
    target: Seq<char>,
    parts: Seq<Seq<char>>,
    i: int,
)
    requires
        volume.len() > 0,
        !is_space(volume[0]),
        !is_space(volume.last()),
        target.len() > 0,
        !is_space(target.last()),
        0 <= i < parts.len(),
        forall|k: int| 0 <= k < parts.len() ==> !(#[trigger] parts[k]).contains(','),
        part_names(parts[i], volume),
        trimmed(joined(parts, seq![','])) == joined(parts, seq![',']),
    ensures
        mounts_volume(volume, volume),
        mounts_volume(volume + ":"@ + target, volume),
        mounts_volume(joined(parts, seq![',']), volume),
{
    reveal_strlit(":");
    law_trimmed_is_kept(volume);
    let mount = volume + ":"@ + target;
    assert(mount[0] == volume[0]);
    assert(mount.last() == target.last());
    law_trimmed_is_kept(mount);
    assert((volume + ":"@).is_prefix_of(mount));
    assert forall|k: int| 0 <= k < parts.len() implies is_whole(
        #[trigger] parts[k],
        is_char(','),
    ) by {
        assert forall|j: int| 0 <= j < parts[k].len() implies !is_char(',')(
            #[trigger] parts[k][j],
        ) by {
            assert(parts[k].contains(parts[k][j]));
        }
    }
    lemma_pieces_of_joined(parts, ',', is_char(','));
    let text = trimmed(joined(parts, seq![',']));
    assert(part_names(split_at(text, ',')[i], volume));
}

/// A mount of another volume is not of this one.
pub proof fn law_other_mounts_are_not(other: Seq<char>, target: Seq<char>, volume: Seq<char>)
    requires
        other != volume,
        other.len() > 0,
        !is_space(other[0]),
        !other.contains(':'),
        !volume.contains(':'),
        target.len() > 0,
        !is_space(target.last()),
        !other.contains(','),
        !target.contains(','),
        !other.contains('='),
        !target.contains('='),
    ensures
        !mounts_volume(other + ":"@ + target, volume),
{
    reveal_strlit(":");
    let text = other + ":"@ + target;
    assert(text[0] == other[0]);
    assert(text.last() == target.last());
    law_trimmed_is_kept(text);
    assert(text[other.len() as int] == ':');
    if text == volume {
        assert(volume.contains(volume[other.len() as int]));
    }
    if (volume + ":"@).is_prefix_of(text) {
        let front = volume + ":"@;
        assert(front == text.take(front.len() as int));
        assert(front[volume.len() as int] == ':');
        assert(text[volume.len() as int] == ':');
        if volume.len() < other.len() {
            assert(other.contains(other[volume.len() as int]));
        } else if volume.len() > other.len() {
            assert(front[other.len() as int] == ':');
            assert(volume.contains(volume[other.len() as int]));
        } else {
            assert(volume == front.take(volume.len() as int));
            assert(other == text.take(other.len() as int));
            assert(volume == other);
        }
    }
    assert(is_whole(text, is_char(','))) by {
        assert forall|j: int| 0 <= j < text.len() implies !is_char(',')(#[trigger] text[j]) by {
            if j < other.len() {
                assert(other.contains(other[j]));
            } else if j > other.len() {
                assert(target.contains(target[j - other.len() - 1]));
            }
        }
    }
    crate::splitting::lemma_pieces_of_whole(text, is_char(','));
    let parts = split_at(text, ',');
    assert(parts == seq![text]);
    assert(!text.contains('=')) by {
        if text.contains('=') {
            let j = choose|j: int| 0 <= j < text.len() && text[j] == '=';
            if j < other.len() {
                assert(other.contains(other[j]));
            } else {
                assert(target.contains(target[j - other.len() - 1]));
            }
        }
    }
    law_split_at_first(text, '=', Seq::empty());
    assert(!part_names(text, volume));
}

/// The users of a volume are the profiles on that runtime that mount it.
pub proof fn law_volume_users_are_found(
    sessions: Seq<SessionView>,
    key: Seq<char>,
    volume: Seq<char>,
    name: Seq<char>,
)
    ensures
        volume_users(sessions, key, volume).contains(name) <==> exists|i: int|
            0 <= i < sessions.len() && (#[trigger] sessions[i]).name == name && key_matches(
                key,
                sessions[i].runtime,
            ) && any_mounts(sessions[i].mounts, volume),
    decreases sessions.len(),
{
    if sessions.len() > 0 {
        let front = sessions.drop_last();
        law_volume_users_are_found(front, key, volume, name);
        let before = volume_users(front, key, volume);
        let all = volume_users(sessions, key, volume);
        let n = sessions.len() - 1;
        if all.contains(name) {
            let k = choose|k: int| 0 <= k < all.len() && all[k] == name;
            if k < before.len() {
                assert(before[k] == name);
                let i = choose|i: int|
                    0 <= i < front.len() && (#[trigger] front[i]).name == name && key_matches(
                        key,
                        front[i].runtime,
                    ) && any_mounts(front[i].mounts, volume);
                assert(sessions[i] == front[i]);
            } else {
                assert(sessions[n].name == name);
            }
        }
        if exists|i: int|
            0 <= i < sessions.len() && (#[trigger] sessions[i]).name == name && key_matches(
                key,
                sessions[i].runtime,
            ) && any_mounts(sessions[i].mounts, volume) {
            let i = choose|i: int|
                0 <= i < sessions.len() && (#[trigger] sessions[i]).name == name && key_matches(
                    key,
                    sessions[i].runtime,
                ) && any_mounts(sessions[i].mounts, volume);
            if i < n {
                assert(front[i] == sessions[i]);
                let k = choose|k: int| 0 <= k < before.len() && before[k] == name;
                assert(all[k] == name);
            } else {
                assert(all.contains(all[all.len() - 1]));
            }
        }
    }
}

/// A volume that is known not to be mounted can go, and the question names it.
pub proof fn law_free_volume_can_go(runtime: Seq<char>, name: Seq<char>, usage: VolumeUsage)
    requires
        !usage.loading,
        usage.error is None,
        usage.mounted_containers@.len() == 0,
    ensures
        volume_removal(runtime, name, usage) is Ask,
        volume_removal(runtime, name, usage)->title == "Delete volume “"@ + name + "”?"@,
{
}

} // verus!
