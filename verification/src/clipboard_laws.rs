//! What the shared clipboard promises of contents, kinds and limits.
use vstd::prelude::*;

use crate::clipboard::{
    as_signed, first_kind, image_problem, install_decision, is_image_kind, is_text_kind, mebibytes,
    names, names_text, offered_kinds, png_header, png_signature, png_size, preferred_kind,
    size_problem, taken_in, transfer_limit, ContentsView, CLIPBOARD_IMAGE_MIME,
};
use crate::text::{lowered, trimmed};

verus! {

// ---------------------------------------------------------------------------
// Contents of a guest
// ---------------------------------------------------------------------------
/// Contents of the newest selection that were asked for at the host's present
/// count are put on the host's clipboard just where the host holds anything
/// else: a text where the host does not hold that text alone, an image where it
/// does not hold that image alone.
pub proof fn law_changed_contents_are_installed(
    generation: u64,
    count: isize,
    host_text: Option<Seq<char>>,
    host_image: Option<Seq<u8>>,
    text: Seq<char>,
    image: Seq<u8>,
)
    ensures
        install_decision(
            generation,
            host_text,
            host_image,
            generation,
            count,
            count,
            ContentsView::Text(text),
        ) is Install <==> !(host_text == Some(text) && host_image is None),
        install_decision(
            generation,
            host_text,
            host_image,
            generation,
            count,
            count,
            ContentsView::Image(image),
        ) is Install <==> !(host_image == Some(image) && host_text is None),
{
}

/// Contents of an older selection, and contents that were asked for before the
/// host's clipboard changed, never reach the host.
pub proof fn law_stale_contents_are_ignored(
    newest: u64,
    generation: u64,
    asked_at: isize,
    host_now: isize,
    host_text: Option<Seq<char>>,
    host_image: Option<Seq<u8>>,
    contents: ContentsView,
)
    requires
        newest != generation || asked_at != host_now,
    ensures
        install_decision(
            newest,
            host_text,
            host_image,
            generation,
            asked_at,
            host_now,
            contents,
        ) is Ignore,
{
}

// ---------------------------------------------------------------------------
// Kinds
// ---------------------------------------------------------------------------
/// The host's contents are offered under every name of what they hold, and
/// under no other: an image first, then the five names of text.
pub proof fn law_contents_are_offered(has_text: bool, has_image: bool)
    ensures
        offered_kinds(has_text, has_image).contains("image/png"@) <==> has_image,
        offered_kinds(has_text, has_image).contains("text/plain;charset=utf-8"@) <==> has_text,
        offered_kinds(has_text, has_image).contains("text/plain"@) <==> has_text,
        offered_kinds(has_text, has_image).contains("UTF8_STRING"@) <==> has_text,
        offered_kinds(has_text, has_image).contains("TEXT"@) <==> has_text,
        offered_kinds(has_text, has_image).contains("STRING"@) <==> has_text,
        has_image ==> offered_kinds(has_text, has_image)[0] == "image/png"@,
        offered_kinds(has_text, has_image).len() == (if has_text {
            5int
        } else {
            0
        }) + (if has_image {
            1int
        } else {
            0
        }),
{
    reveal_strlit("image/png");
    reveal_strlit("text/plain;charset=utf-8");
    reveal_strlit("text/plain");
    reveal_strlit("UTF8_STRING");
    reveal_strlit("TEXT");
    reveal_strlit("STRING");
    let kinds = offered_kinds(has_text, has_image);
    let k: int = if has_image {
        1
    } else {
        0
    };
    assert("image/png"@.len() == 9 && "text/plain;charset=utf-8"@.len() == 24 && "text/plain"@.len()
        == 10 && "UTF8_STRING"@.len() == 11 && "TEXT"@.len() == 4 && "STRING"@.len() == 6);
    if has_text {
        assert(kinds[k + 0] == "text/plain;charset=utf-8"@);
        assert(kinds[k + 1] == "text/plain"@);
        assert(kinds[k + 2] == "UTF8_STRING"@);
        assert(kinds[k + 3] == "TEXT"@);
        assert(kinds[k + 4] == "STRING"@);
    }
    if has_image {
        assert(kinds[0] == "image/png"@);
    }
}

/// Spaces around a kind and the case of its letters do not count.
pub proof fn law_kinds_are_read_loosely(a: Seq<char>, b: Seq<char>)
    requires
        lowered(trimmed(a)) == lowered(trimmed(b)),
    ensures
        is_image_kind(a) == is_image_kind(b),
        is_text_kind(a) == is_text_kind(b),
        transfer_limit(a) == transfer_limit(b),
{
}

/// Any kind of plain text is text, whatever it says of its characters.
pub proof fn law_plain_text_is_text(kind: Seq<char>, rest: Seq<char>)
    ensures
        lowered(trimmed(kind)) == "text/plain"@ ==> is_text_kind(kind),
        lowered(trimmed(kind)) == "text/plain;"@ + rest ==> is_text_kind(kind),
        lowered(trimmed(kind)) == "utf8_string"@ ==> is_text_kind(kind),
        lowered(trimmed(kind)) == "text"@ ==> is_text_kind(kind),
        lowered(trimmed(kind)) == "string"@ ==> is_text_kind(kind),
{
    let name = "text/plain;"@ + rest;
    assert("text/plain;"@.is_prefix_of(name));
}

/// The first kind that a test accepts is offered, accepted, and behind none
/// that is accepted; there is one just where any is accepted.
pub proof fn law_first_kind_is_first(
    kinds: Seq<Seq<char>>,
    accepts: spec_fn(Seq<char>) -> bool,
) -> (place: int)
    ensures
        first_kind(kinds, accepts) matches Some(kind) ==> 0 <= place < kinds.len() && kinds[place]
            == kind && accepts(kind) && forall|i: int| 0 <= i < place ==> !accepts(
            #[trigger] kinds[i],
        ),
        first_kind(kinds, accepts) is None <==> forall|i: int|
            0 <= i < kinds.len() ==> !accepts(#[trigger] kinds[i]),
    decreases kinds.len(),
{
    if kinds.len() == 0 {
        0
    } else if accepts(kinds.first()) {
        assert(accepts(kinds[0]));
        0
    } else {
        let rest = kinds.drop_first();
        let place = law_first_kind_is_first(rest, accepts);
        assert forall|i: int| 0 <= i < place + 1 && first_kind(rest, accepts) is Some implies
            !accepts(#[trigger] kinds[i]) by {
            if i > 0 {
                assert(rest[i - 1] == kinds[i]);
            }
        }
        if first_kind(kinds, accepts) is None {
            assert forall|i: int| 0 <= i < kinds.len() implies !accepts(#[trigger] kinds[i]) by {
                if i > 0 {
                    assert(rest[i - 1] == kinds[i]);
                }
            }
        }
        if forall|i: int| 0 <= i < kinds.len() ==> !accepts(#[trigger] kinds[i]) {
            assert forall|i: int| 0 <= i < rest.len() implies !accepts(#[trigger] rest[i]) by {
                assert(kinds[i + 1] == rest[i]);
            }
        }
        if first_kind(rest, accepts) is Some {
            assert(kinds[place + 1] == rest[place]);
        }
        place + 1
    }
}

/// Contents are asked for as an image wherever one is offered; else as text,
/// wherever text is offered, in the best of its forms; and else not at all.
pub proof fn law_best_kind_is_asked_for(kinds: Seq<Seq<char>>, i: int)
    requires
        0 <= i < kinds.len(),
    ensures
        is_image_kind(kinds[i]) ==> preferred_kind(kinds) is Some && is_image_kind(
            preferred_kind(kinds)->0,
        ),
        is_text_kind(kinds[i]) ==> preferred_kind(kinds) is Some,
        preferred_kind(kinds) is Some ==> is_image_kind(preferred_kind(kinds)->0) || is_text_kind(
            preferred_kind(kinds)->0,
        ),
        preferred_kind(kinds) is Some && !is_image_kind(preferred_kind(kinds)->0) && lowered(
            trimmed(kinds[i]),
        ) == lowered("text/plain;charset=utf-8"@) ==> lowered(trimmed(preferred_kind(kinds)->0))
            == lowered("text/plain;charset=utf-8"@),
        preferred_kind(kinds) is Some && !is_image_kind(preferred_kind(kinds)->0) && lowered(
            trimmed(kinds[i]),
        ) == lowered("text/plain"@) ==> lowered(trimmed(preferred_kind(kinds)->0)) == lowered(
            "text/plain;charset=utf-8"@,
        ) || lowered(trimmed(preferred_kind(kinds)->0)) == lowered("text/plain"@),
{
    let image = law_first_kind_is_first(kinds, names(CLIPBOARD_IMAGE_MIME@));
    let wide = law_first_kind_is_first(kinds, names("text/plain;charset=utf-8"@));
    let plain = law_first_kind_is_first(kinds, names("text/plain"@));
    let utf8 = law_first_kind_is_first(kinds, names("utf8_string"@));
    let text = law_first_kind_is_first(kinds, names("text"@));
    let string = law_first_kind_is_first(kinds, names("string"@));
    let any = law_first_kind_is_first(kinds, names_text());
    if is_image_kind(kinds[i]) {
        assert(names(CLIPBOARD_IMAGE_MIME@)(kinds[i]));
    }
    if is_text_kind(kinds[i]) {
        assert(names_text()(kinds[i]));
    }
    if lowered(trimmed(kinds[i])) == lowered("text/plain;charset=utf-8"@) {
        assert(names("text/plain;charset=utf-8"@)(kinds[i]));
    }
    if lowered(trimmed(kinds[i])) == lowered("text/plain"@) {
        assert(names("text/plain"@)(kinds[i]));
    }
    lemma_small_names();
}

proof fn lemma_small_names()
    ensures
        lowered("text/plain;charset=utf-8"@) == "text/plain;charset=utf-8"@,
        "text/plain;"@.is_prefix_of("text/plain;charset=utf-8"@),
        lowered("text/plain"@) == "text/plain"@,
        lowered("utf8_string"@) == "utf8_string"@,
        lowered("text"@) == "text"@,
        lowered("string"@) == "string"@,
{
    reveal_strlit("text/plain;charset=utf-8");
    reveal_strlit("text/plain;");
    reveal_strlit("text/plain");
    reveal_strlit("utf8_string");
    reveal_strlit("text");
    reveal_strlit("string");
    assert(lowered("text/plain;charset=utf-8"@) =~= "text/plain;charset=utf-8"@);
    assert(lowered("text/plain"@) =~= "text/plain"@);
    assert(lowered("utf8_string"@) =~= "utf8_string"@);
    assert(lowered("text"@) =~= "text"@);
    assert(lowered("string"@) =~= "string"@);
    assert("text/plain;charset=utf-8"@.take(11) =~= "text/plain;"@);
}

// ---------------------------------------------------------------------------
// Images and limits
// ---------------------------------------------------------------------------
/// The size of a PNG file is what the eight bytes behind its header say, the
/// highest first; a file without the signature or the header has none.
pub proof fn law_png_size_is_read(bytes: Seq<u8>)
    ensures
        png_size(bytes) is Some <==> bytes.len() >= 24 && bytes[0] == 0x89 && bytes[1] == 0x50
            && bytes[2] == 0x4e && bytes[3] == 0x47 && bytes[4] == 0x0d && bytes[5] == 0x0a
            && bytes[6] == 0x1a && bytes[7] == 0x0a && bytes[12] == 0x49 && bytes[13] == 0x48
            && bytes[14] == 0x44 && bytes[15] == 0x52,
        png_size(bytes) is Some ==> (png_size(bytes)->0).0 == bytes[19] + 256 * bytes[18] + 65536
            * bytes[17] + 16777216 * bytes[16],
        png_size(bytes) is Some ==> (png_size(bytes)->0).1 == bytes[23] + 256 * bytes[22] + 65536
            * bytes[21] + 16777216 * bytes[20],
{
    if bytes.len() >= 24 {
        let front = bytes.take(8);
        let head = bytes.subrange(12, 16);
        assert(front[0] == bytes[0] && front[1] == bytes[1] && front[2] == bytes[2] && front[3]
            == bytes[3] && front[4] == bytes[4] && front[5] == bytes[5] && front[6] == bytes[6]
            && front[7] == bytes[7]);
        assert(head[0] == bytes[12] && head[1] == bytes[13] && head[2] == bytes[14] && head[3]
            == bytes[15]);
        if bytes[0] == 0x89 && bytes[1] == 0x50 && bytes[2] == 0x4e && bytes[3] == 0x47 && bytes[4]
            == 0x0d && bytes[5] == 0x0a && bytes[6] == 0x1a && bytes[7] == 0x0a {
            assert(front =~= png_signature());
        }
        if bytes[12] == 0x49 && bytes[13] == 0x48 && bytes[14] == 0x44 && bytes[15] == 0x52 {
            assert(head =~= png_header());
        }
    }
}

/// An image is shared just where it is a PNG file of at most 64 MiB with a
/// width and a height whose product is at most 32 megapixels.
pub proof fn law_sound_image_is_shared(bytes: Seq<u8>)
    ensures
        image_problem(bytes) is None <==> bytes.len() <= 64 * 1024 * 1024 && png_size(bytes) is Some
            && as_signed((png_size(bytes)->0).0) > 0 && as_signed((png_size(bytes)->0).1) > 0
            && as_signed((png_size(bytes)->0).0) * as_signed((png_size(bytes)->0).1) <= 32 * 1024
            * 1024,
{
    if png_size(bytes) is Some {
        law_sizes_are_bounded(
            as_signed((png_size(bytes)->0).0),
            as_signed((png_size(bytes)->0).1),
        );
    }
}

/// A size is refused just where a side is not positive or where it is of more
/// than 32 megapixels.
pub proof fn law_sizes_are_bounded(width: int, height: int)
    ensures
        size_problem(width, height) is None <==> width > 0 && height > 0 && width * height <= 32
            * 1024 * 1024,
{
}

/// A transfer may have 64 MiB as an image and 8 MiB as anything else.
pub proof fn law_transfers_are_bounded(kind: Seq<char>)
    ensures
        is_image_kind(kind) ==> transfer_limit(kind) == 64 * 1024 * 1024,
        !is_image_kind(kind) ==> transfer_limit(kind) == 8 * 1024 * 1024,
{
}

/// Bytes that come are kept behind those that are there, up to the limit, and
/// refused beyond it.
pub proof fn law_bytes_are_taken_in(limit: int, so_far: Seq<u8>, more: Seq<u8>)
    ensures
        taken_in(limit, so_far, more) is Some <==> so_far.len() + more.len() <= limit,
        taken_in(limit, so_far, more) matches Some(all) ==> all.len() == so_far.len() + more.len()
            && all.take(so_far.len() as int) == so_far && all.skip(so_far.len() as int) == more,
{
    let all = so_far + more;
    assert(all.take(so_far.len() as int) == so_far);
    assert(all.skip(so_far.len() as int) == more);
}

/// A size in mebibytes is the least number of them that holds the bytes.
pub proof fn law_mebibytes_hold_the_bytes(bytes: int)
    requires
        bytes >= 0,
    ensures
        mebibytes(bytes) * 1048576 >= bytes,
        mebibytes(bytes) > 0 ==> (mebibytes(bytes) - 1) * 1048576 < bytes,
{
}

} // verus!
