//! The clipboard that the host and its guests share: which kinds of contents
//! are offered and accepted, and what becomes of a transfer.
use vstd::prelude::*;
use vstd::string::*;
use vstd::utf8::*;

use crate::relay::{big_endian_at, from_big_endian};
use crate::text::{
    concat, concat3, concat4, concat5, copy_option, count_text, decimal, decimal_text,
    eq_ignore_ascii_case, extend, lowered, push_text, same, starts_with, strings,
    to_ascii_lowercase, trim, trimmed,
};

verus! {

pub const CLIPBOARD_IMAGE_MIME: &'static str = "image/png";

/// The most bytes of an image that is transferred.
pub const MAX_CLIPBOARD_IMAGE_BYTES: usize = 67108864;

/// The most bytes of an image that is decoded.
pub const MAX_CLIPBOARD_IMAGE_SOURCE_BYTES: usize = 134217728;

/// The most pixels of an image that is transferred.
pub const MAX_CLIPBOARD_IMAGE_PIXELS: usize = 33554432;

/// The most bytes of a text that is transferred.
pub const MAX_CLIPBOARD_TEXT_BYTES: usize = 8388608;

/// `String::from_utf8` decodes bytes that are UTF-8 and refuses others.
#[verifier::external_body]
fn decoded_text(bytes: Vec<u8>) -> (result: Option<String>)
    ensures
        match result {
            Some(text) => encode_utf8(text@) == bytes@,
            None => !valid_utf8(bytes@),
        },
{
    String::from_utf8(bytes).ok()
}

// ---------------------------------------------------------------------------
// Kinds of contents
// ---------------------------------------------------------------------------
/// The names under which text is offered.
pub open spec fn text_kinds() -> Seq<Seq<char>> {
    seq![
        "text/plain;charset=utf-8"@,
        "text/plain"@,
        "UTF8_STRING"@,
        "TEXT"@,
        "STRING"@,
    ]
}

pub fn clipboard_text_mime_types() -> (result: Vec<String>)
    ensures
        result.deep_view() == text_kinds(),
{
    let result = strings(
        &["text/plain;charset=utf-8", "text/plain", "UTF8_STRING", "TEXT", "STRING"],
    );
    assert(result.deep_view() == text_kinds());
    result
}

/// The names under which the host's contents are offered, the image first.
pub open spec fn offered_kinds(has_text: bool, has_image: bool) -> Seq<Seq<char>> {
    (if has_image {
        seq![CLIPBOARD_IMAGE_MIME@]
    } else {
        Seq::empty()
    }) + (if has_text {
        text_kinds()
    } else {
        Seq::empty()
    })
}

pub fn clipboard_mime_types(has_text: bool, has_image_png: bool) -> (result: Vec<String>)
    ensures
        result.deep_view() == offered_kinds(has_text, has_image_png),
{
    let mut result: Vec<String> = Vec::new();
    assert(result.deep_view() == Seq::<Seq<char>>::empty());
    if has_image_png {
        push_text(&mut result, CLIPBOARD_IMAGE_MIME);
    }
    if has_text {
        extend(&mut result, &clipboard_text_mime_types());
    }
    assert(result.deep_view() == offered_kinds(has_text, has_image_png));
    result
}

pub open spec fn is_image_kind(kind: Seq<char>) -> bool {
    lowered(trimmed(kind)) == lowered(CLIPBOARD_IMAGE_MIME@)
}

pub fn is_clipboard_image_mime(mime: &str) -> (result: bool)
    ensures
        result == is_image_kind(mime@),
{
    eq_ignore_ascii_case(trim(mime), CLIPBOARD_IMAGE_MIME)
}

pub open spec fn is_text_kind(kind: Seq<char>) -> bool {
    let name = lowered(trimmed(kind));
    ||| name == "utf8_string"@
    ||| name == "text"@
    ||| name == "string"@
    ||| name == "text/plain"@
    ||| "text/plain;"@.is_prefix_of(name)
}

pub fn is_clipboard_text_mime(mime: &str) -> (result: bool)
    ensures
        result == is_text_kind(mime@),
{
    let lowercase = to_ascii_lowercase(trim(mime));
    let name = lowercase.as_str();
    same(name, "utf8_string") || same(name, "text") || same(name, "string") || same(
        name,
        "text/plain",
    ) || starts_with(name, "text/plain;")
}

/// No kind of contents is both an image and a text.
pub proof fn law_image_is_no_text(kind: Seq<char>)
    ensures
        !(is_image_kind(kind) && is_text_kind(kind)),
{
    reveal_strlit("image/png");
    reveal_strlit("utf8_string");
    reveal_strlit("text");
    reveal_strlit("string");
    reveal_strlit("text/plain");
    reveal_strlit("text/plain;");
    let name = lowered(trimmed(kind));
    if is_image_kind(kind) {
        assert(lowered(CLIPBOARD_IMAGE_MIME@)[0] == 'i');
        assert(name[0] == 'i');
        assert(name.len() == 9);
    }
}

/// Every name under which text is offered is also accepted as text, and the
/// name of the image as an image.
pub proof fn law_offers_are_accepted(place: int)
    requires
        0 <= place < text_kinds().len(),
    ensures
        is_text_kind(text_kinds()[place]),
        is_image_kind(CLIPBOARD_IMAGE_MIME@),
{
    reveal_strlit("image/png");
    reveal_strlit("text/plain;charset=utf-8");
    reveal_strlit("text/plain");
    reveal_strlit("UTF8_STRING");
    reveal_strlit("TEXT");
    reveal_strlit("STRING");
    reveal_strlit("utf8_string");
    reveal_strlit("text");
    reveal_strlit("string");
    reveal_strlit("text/plain;");
    let kind = text_kinds()[place];
    lemma_no_space_around(kind);
    lemma_no_space_around(CLIPBOARD_IMAGE_MIME@);
    assert(place == 0 || place == 1 || place == 2 || place == 3 || place == 4);
    if place == 0 {
        assert("text/plain;"@ == lowered(kind).take(11));
    } else if place == 1 {
        assert(lowered(kind) == "text/plain"@);
    } else if place == 2 {
        assert(lowered(kind) == "utf8_string"@);
    } else if place == 3 {
        assert(lowered(kind) == "text"@);
    } else {
        assert(lowered(kind) == "string"@);
    }
}

proof fn lemma_no_space_around(text: Seq<char>)
    requires
        text.len() > 0,
        !crate::text::is_space(text.first()),
        !crate::text::is_space(text.last()),
    ensures
        trimmed(text) == text,
{
}

/// The first kind that a test accepts.
pub open spec fn first_kind(kinds: Seq<Seq<char>>, accepts: spec_fn(Seq<char>) -> bool) -> Option<
    Seq<char>,
>
    decreases kinds.len(),
{
    if kinds.len() == 0 {
        None
    } else if accepts(kinds.first()) {
        Some(kinds.first())
    } else {
        first_kind(kinds.drop_first(), accepts)
    }
}

pub open spec fn names(name: Seq<char>) -> spec_fn(Seq<char>) -> bool {
    |kind: Seq<char>| lowered(trimmed(kind)) == lowered(name)
}

pub open spec fn names_text() -> spec_fn(Seq<char>) -> bool {
    |kind: Seq<char>| is_text_kind(kind)
}

/// The kinds of text by preference, and any other text last.
pub open spec fn preferred_text(kinds: Seq<Seq<char>>) -> Option<Seq<char>> {
    if first_kind(kinds, names("text/plain;charset=utf-8"@)) is Some {
        first_kind(kinds, names("text/plain;charset=utf-8"@))
    } else if first_kind(kinds, names("text/plain"@)) is Some {
        first_kind(kinds, names("text/plain"@))
    } else if first_kind(kinds, names("utf8_string"@)) is Some {
        first_kind(kinds, names("utf8_string"@))
    } else if first_kind(kinds, names("text"@)) is Some {
        first_kind(kinds, names("text"@))
    } else if first_kind(kinds, names("string"@)) is Some {
        first_kind(kinds, names("string"@))
    } else {
        first_kind(kinds, names_text())
    }
}

/// The kind in which contents are asked for: an image before any text.
pub open spec fn preferred_kind(kinds: Seq<Seq<char>>) -> Option<Seq<char>> {
    if first_kind(kinds, names(CLIPBOARD_IMAGE_MIME@)) is Some {
        first_kind(kinds, names(CLIPBOARD_IMAGE_MIME@))
    } else {
        preferred_text(kinds)
    }
}

fn find_named(kinds: &Vec<String>, name: &str) -> (result: Option<String>)
    ensures
        result.deep_view() == first_kind(kinds.deep_view(), names(name@)),
{
    let ghost all = kinds.deep_view();
    assert(all.skip(0) == all);
    let mut i: usize = 0;
    while i < kinds.len()
        invariant
            i <= kinds.len(),
            all == kinds.deep_view(),
            first_kind(all, names(name@)) == first_kind(all.skip(i as int), names(name@)),
        decreases kinds.len() - i,
    {
        assert(all.skip(i as int).first() == kinds@[i as int]@);
        if eq_ignore_ascii_case(trim(kinds[i].as_str()), name) {
            return Some(kinds[i].clone());
        }
        assert(all.skip(i as int).drop_first() == all.skip(i + 1));
        i += 1;
    }
    None
}

fn find_text(kinds: &Vec<String>) -> (result: Option<String>)
    ensures
        result.deep_view() == first_kind(kinds.deep_view(), names_text()),
{
    let ghost all = kinds.deep_view();
    assert(all.skip(0) == all);
    let mut i: usize = 0;
    while i < kinds.len()
        invariant
            i <= kinds.len(),
            all == kinds.deep_view(),
            first_kind(all, names_text()) == first_kind(all.skip(i as int), names_text()),
        decreases kinds.len() - i,
    {
        assert(all.skip(i as int).first() == kinds@[i as int]@);
        if is_clipboard_text_mime(kinds[i].as_str()) {
            return Some(kinds[i].clone());
        }
        assert(all.skip(i as int).drop_first() == all.skip(i + 1));
        i += 1;
    }
    None
}

pub fn preferred_clipboard_text_mime(mime_types: &Vec<String>) -> (result: Option<String>)
    ensures
        result.deep_view() == preferred_text(mime_types.deep_view()),
{
    if let Some(mime) = find_named(mime_types, "text/plain;charset=utf-8") {
        return Some(mime);
    }
    if let Some(mime) = find_named(mime_types, "text/plain") {
        return Some(mime);
    }
    if let Some(mime) = find_named(mime_types, "utf8_string") {
        return Some(mime);
    }
    if let Some(mime) = find_named(mime_types, "text") {
        return Some(mime);
    }
    if let Some(mime) = find_named(mime_types, "string") {
        return Some(mime);
    }
    find_text(mime_types)
}

pub fn preferred_clipboard_mime(mime_types: &Vec<String>) -> (result: Option<String>)
    ensures
        result.deep_view() == preferred_kind(mime_types.deep_view()),
{
    match find_named(mime_types, CLIPBOARD_IMAGE_MIME) {
        Some(mime) => Some(mime),
        None => preferred_clipboard_text_mime(mime_types),
    }
}

proof fn lemma_first_kind(kinds: Seq<Seq<char>>, accepts: spec_fn(Seq<char>) -> bool)
    ensures
        first_kind(kinds, accepts) matches Some(kind) ==> kinds.contains(kind) && accepts(kind),
        first_kind(kinds, accepts) is None ==> forall|i: int|
            0 <= i < kinds.len() ==> !accepts(#[trigger] kinds[i]),
    decreases kinds.len(),
{
    if kinds.len() > 0 {
        if accepts(kinds.first()) {
            assert(kinds[0] == kinds.first());
        } else {
            let rest = kinds.drop_first();
            lemma_first_kind(rest, accepts);
            if let Some(kind) = first_kind(rest, accepts) {
                let k = rest.index_of(kind);
                assert(kinds[k + 1] == kind);
            } else {
                assert forall|i: int| 0 <= i < kinds.len() implies !accepts(#[trigger] kinds[i]) by {
                    if i > 0 {
                        assert(rest[i - 1] == kinds[i]);
                    }
                }
            }
        }
    }
}

/// The kind that is asked for is one that was offered, and is an image or a
/// text; something is asked for whenever an image or a text is offered.
pub proof fn law_preferred_was_offered(kinds: Seq<Seq<char>>)
    ensures
        preferred_kind(kinds) matches Some(kind) ==> kinds.contains(kind) && (is_image_kind(kind)
            || is_text_kind(kind)),
        preferred_kind(kinds) is None ==> forall|i: int|
            0 <= i < kinds.len() ==> !is_image_kind(#[trigger] kinds[i]) && !is_text_kind(
                kinds[i],
            ),
{
    reveal_strlit("text/plain;charset=utf-8");
    reveal_strlit("text/plain");
    reveal_strlit("utf8_string");
    reveal_strlit("text");
    reveal_strlit("string");
    reveal_strlit("text/plain;");
    lemma_first_kind(kinds, names(CLIPBOARD_IMAGE_MIME@));
    lemma_first_kind(kinds, names("text/plain;charset=utf-8"@));
    lemma_first_kind(kinds, names("text/plain"@));
    lemma_first_kind(kinds, names("utf8_string"@));
    lemma_first_kind(kinds, names("text"@));
    lemma_first_kind(kinds, names("string"@));
    lemma_first_kind(kinds, names_text());
    assert(lowered("text/plain;charset=utf-8"@).take(11) == "text/plain;"@);
    assert(lowered("text/plain"@) == "text/plain"@);
    assert(lowered("utf8_string"@) == "utf8_string"@);
    assert(lowered("text"@) == "text"@);
    assert(lowered("string"@) == "string"@);
    if preferred_kind(kinds) is None {
        assert forall|i: int| 0 <= i < kinds.len() implies !is_image_kind(#[trigger] kinds[i])
            && !is_text_kind(kinds[i]) by {
            assert(!names_text()(kinds[i]));
            assert(!names(CLIPBOARD_IMAGE_MIME@)(kinds[i]));
        }
    }
}

// ---------------------------------------------------------------------------
// Images
// ---------------------------------------------------------------------------
pub open spec fn png_signature() -> Seq<u8> {
    seq![0x89u8, 0x50u8, 0x4eu8, 0x47u8, 0x0du8, 0x0au8, 0x1au8, 0x0au8]
}

pub open spec fn png_header() -> Seq<u8> {
    seq![0x49u8, 0x48u8, 0x44u8, 0x52u8]
}

/// The width and the height that the header of a PNG file states.
pub open spec fn png_size(bytes: Seq<u8>) -> Option<(int, int)> {
    if bytes.len() >= 24 && bytes.take(8) == png_signature() && bytes.subrange(12, 16)
        == png_header() {
        Some((from_big_endian(bytes.subrange(16, 20)), from_big_endian(bytes.subrange(20, 24))))
    } else {
        None
    }
}

pub fn png_dimensions(bytes: &[u8]) -> (result: Option<(u32, u32)>)
    ensures
        match result {
            Some(size) => png_size(bytes@) == Some((size.0 as int, size.1 as int)),
            None => png_size(bytes@) is None,
        },
{
    if bytes.len() < 24 {
        return None;
    }
    let signed = bytes[0] == 0x89 && bytes[1] == 0x50 && bytes[2] == 0x4e && bytes[3] == 0x47
        && bytes[4] == 0x0d && bytes[5] == 0x0a && bytes[6] == 0x1a && bytes[7] == 0x0a;
    let headed = bytes[12] == 0x49 && bytes[13] == 0x48 && bytes[14] == 0x44 && bytes[15] == 0x52;
    assert(signed == (bytes@.take(8) == png_signature())) by {
        let front = bytes@.take(8);
        assert(front[0] == bytes@[0] && front[1] == bytes@[1] && front[2] == bytes@[2] && front[3]
            == bytes@[3] && front[4] == bytes@[4] && front[5] == bytes@[5] && front[6] == bytes@[6]
            && front[7] == bytes@[7]);
        if signed {
            assert(front =~= png_signature());
        }
    }
    assert(headed == (bytes@.subrange(12, 16) == png_header())) by {
        let front = bytes@.subrange(12, 16);
        assert(front[0] == bytes@[12] && front[1] == bytes@[13] && front[2] == bytes@[14]
            && front[3] == bytes@[15]);
        if headed {
            assert(front =~= png_header());
        }
    }
    if !signed || !headed {
        return None;
    }
    Some((big_endian_at(bytes, 16), big_endian_at(bytes, 20)))
}

/// A number with its sign.
pub open spec fn signed_text(value: int) -> Seq<char> {
    if value < 0 {
        "-"@ + decimal((-value) as nat)
    } else {
        decimal(value as nat)
    }
}

fn signed_number(value: isize) -> (result: String)
    ensures
        result@ == signed_text(value as int),
{
    if value < 0 {
        let size: u128 = (-(value as i128)) as u128;
        let number = decimal_text(size);
        concat("-", number.as_str())
    } else {
        decimal_text(value as u128)
    }
}

pub open spec fn size_problem(width: int, height: int) -> Option<Seq<char>> {
    if width <= 0 || height <= 0 {
        Some(
            "macOS clipboard image has invalid dimensions "@ + signed_text(width) + "x"@
                + signed_text(height),
        )
    } else if width * height > usize::MAX {
        Some("macOS clipboard image dimensions overflow"@)
    } else if width * height > MAX_CLIPBOARD_IMAGE_PIXELS {
        Some(
            "macOS clipboard image exceeds the 32-megapixel safety limit ("@ + signed_text(width)
                + "x"@ + signed_text(height) + ")"@,
        )
    } else {
        None
    }
}

/// Refuses an image without pixels and one with too many.
pub fn validate_clipboard_image_dimensions(width: isize, height: isize) -> (result: Result<
    (),
    String,
>)
    ensures
        match result {
            Ok(_) => size_problem(width as int, height as int) is None,
            Err(message) => size_problem(width as int, height as int) == Some(message@),
        },
{
    if width <= 0 || height <= 0 {
        let wide = signed_number(width);
        let high = signed_number(height);
        return Err(
            concat4(
                "macOS clipboard image has invalid dimensions ",
                wide.as_str(),
                "x",
                high.as_str(),
            ),
        );
    }
    match (width as usize).checked_mul(height as usize) {
        None => Err("macOS clipboard image dimensions overflow".to_owned()),
        Some(pixels) => if pixels > MAX_CLIPBOARD_IMAGE_PIXELS {
            let wide = signed_number(width);
            let high = signed_number(height);
            Err(
                concat5(
                    "macOS clipboard image exceeds the 32-megapixel safety limit (",
                    wide.as_str(),
                    "x",
                    high.as_str(),
                    ")",
                ),
            )
        } else {
            Ok(())
        },
    }
}

/// A number of bytes in mebibytes, rounded up.
pub open spec fn mebibytes(bytes: int) -> nat {
    ((bytes + 0xf_ffff) / 0x10_0000) as nat
}

fn mebibyte_text(bytes: usize) -> (result: String)
    ensures
        result@ == decimal(mebibytes(bytes as int)),
{
    decimal_text((bytes as u128 + 0xf_ffff) / 0x10_0000)
}

pub open spec fn too_large_image(bytes: int) -> Seq<char> {
    "macOS clipboard image is larger than the 64 MiB transfer limit ("@ + decimal(mebibytes(bytes))
        + " MiB)"@
}

/// Refuses an image whose encoded form is too large to be decoded.
pub fn validate_clipboard_source_size(bytes: usize) -> (result: Result<(), String>)
    ensures
        match result {
            Ok(_) => bytes <= MAX_CLIPBOARD_IMAGE_SOURCE_BYTES,
            Err(message) => {
                &&& bytes > MAX_CLIPBOARD_IMAGE_SOURCE_BYTES
                &&& message@
                    == "macOS clipboard source image is larger than the 128 MiB decode limit ("@
                    + decimal(mebibytes(bytes as int)) + " MiB)"@
            },
        },
{
    if bytes > MAX_CLIPBOARD_IMAGE_SOURCE_BYTES {
        let size = mebibyte_text(bytes);
        return Err(
            concat3(
                "macOS clipboard source image is larger than the 128 MiB decode limit (",
                size.as_str(),
                " MiB)",
            ),
        );
    }
    Ok(())
}

/// What speaks against an image that is not empty.
pub open spec fn image_problem(bytes: Seq<u8>) -> Option<Seq<char>> {
    if bytes.len() > MAX_CLIPBOARD_IMAGE_BYTES {
        Some(too_large_image(bytes.len() as int))
    } else {
        match png_size(bytes) {
            None => Some("macOS clipboard advertised malformed PNG data"@),
            Some(size) => size_problem(as_signed(size.0), as_signed(size.1)),
        }
    }
}

/// A 32-bit number as a machine-sized signed one.
pub open spec fn as_signed(value: int) -> int {
    (value as u32) as isize as int
}

/// The image, if it can be shared; nothing for no bytes; the reason why it
/// cannot be shared.
pub fn shared_png_bytes(bytes: Vec<u8>) -> (result: Result<Option<Vec<u8>>, String>)
    ensures
        match result {
            Ok(None) => bytes@.len() == 0,
            Ok(Some(image)) => bytes@.len() > 0 && image@ == bytes@ && image_problem(bytes@) is None,
            Err(message) => bytes@.len() > 0 && image_problem(bytes@) == Some(message@),
        },
{
    if bytes.len() == 0 {
        return Ok(None);
    }
    if bytes.len() > MAX_CLIPBOARD_IMAGE_BYTES {
        let size = mebibyte_text(bytes.len());
        return Err(
            concat3(
                "macOS clipboard image is larger than the 64 MiB transfer limit (",
                size.as_str(),
                " MiB)",
            ),
        );
    }
    match png_dimensions(bytes.as_slice()) {
        None => Err("macOS clipboard advertised malformed PNG data".to_owned()),
        Some(size) => match validate_clipboard_image_dimensions(size.0 as isize, size.1 as isize) {
            Ok(_) => Ok(Some(bytes)),
            Err(message) => Err(message),
        },
    }
}

// ---------------------------------------------------------------------------
// Transfers
// ---------------------------------------------------------------------------
/// Contents of the clipboard.
#[derive(Debug)]
pub enum ClipboardPayload {
    Text(String),
    Image(Vec<u8>),
}

impl ClipboardPayload {
    pub open spec fn bytes(&self) -> Seq<u8> {
        match self {
            ClipboardPayload::Text(text) => encode_utf8(text@),
            ClipboardPayload::Image(image) => image@,
        }
    }

    pub fn as_bytes(&self) -> (result: &[u8])
        ensures
            result@ == self.bytes(),
    {
        match self {
            ClipboardPayload::Text(text) => text.as_str().as_bytes(),
            ClipboardPayload::Image(image) => image.as_slice(),
        }
    }
}

/// The most bytes that a transfer of a kind may have.
pub open spec fn transfer_limit(kind: Seq<char>) -> usize {
    if is_image_kind(kind) {
        MAX_CLIPBOARD_IMAGE_BYTES
    } else {
        MAX_CLIPBOARD_TEXT_BYTES
    }
}

/// The bytes of a transfer with more behind them, unless they are too many.
pub open spec fn taken_in(limit: int, so_far: Seq<u8>, more: Seq<u8>) -> Option<Seq<u8>> {
    if so_far.len() + more.len() > limit {
        None
    } else {
        Some(so_far + more)
    }
}

/// Bytes that come in pieces.
pub open spec fn in_order(pieces: Seq<Seq<u8>>) -> Seq<u8>
    decreases pieces.len(),
{
    if pieces.len() == 0 {
        Seq::empty()
    } else {
        in_order(pieces.drop_last()) + pieces.last()
    }
}

/// What a transfer holds after pieces have come, unless it was refused.
pub open spec fn all_taken_in(limit: int, pieces: Seq<Seq<u8>>) -> Option<Seq<u8>>
    decreases pieces.len(),
{
    if pieces.len() == 0 {
        Some(Seq::empty())
    } else {
        match all_taken_in(limit, pieces.drop_last()) {
            Some(so_far) => taken_in(limit, so_far, pieces.last()),
            None => None,
        }
    }
}

/// However a transfer is cut into pieces, its bytes are kept as they are and in
/// their order, or refused because they are too many.
pub proof fn law_transfer_is_whole(limit: int, pieces: Seq<Seq<u8>>)
    requires
        limit >= 0,
    ensures
        all_taken_in(limit, pieces) == (if in_order(pieces).len() <= limit {
            Some(in_order(pieces))
        } else {
            None
        }),
    decreases pieces.len(),
{
    if pieces.len() > 0 {
        law_transfer_is_whole(limit, pieces.drop_last());
    }
}

/// What one attempt to read from a guest came back with.
#[derive(Debug)]
pub enum TransferRead {
    Bytes(Vec<u8>),
    End,
    Interrupted,
    WouldBlock,
    Failed(String),
}

/// What the reader does next.
#[derive(Debug)]
pub enum TransferStep {
    /// Read again at once.
    Read,
    /// Wait until there is something to read.
    Wait,
    /// Everything was read.
    Complete,
    /// Another selection has taken its place.
    Cancelled,
    Failed(String),
}

/// A transfer from a guest: the kind that was asked for, and the bytes that
/// came so far.
#[derive(Debug)]
pub struct GuestTransfer {
    pub mime: String,
    pub bytes: Vec<u8>,
}

impl GuestTransfer {
    /// No more bytes are kept than a transfer of this kind may have.
    pub open spec fn well_formed(&self) -> bool {
        self.bytes@.len() <= transfer_limit(self.mime@)
    }

    pub fn new(mime: &str) -> (result: Self)
        ensures
            result.well_formed(),
            result.mime@ == mime@,
            result.bytes@ == Seq::<u8>::empty(),
    {
        GuestTransfer { mime: mime.to_owned(), bytes: Vec::new() }
    }

    /// Whether a read is made at all: not for a selection that is no longer
    /// the newest, and not after the time is up.
    pub fn before_read(generation: u64, newest: u64, timed_out: bool) -> (result: TransferStep)
        ensures
            if generation != newest {
                result is Cancelled
            } else if timed_out {
                result matches TransferStep::Failed(message) && message@
                    == "Wayland clipboard transfer timed out after 10 seconds"@
            } else {
                result is Read
            },
    {
        if generation != newest {
            TransferStep::Cancelled
        } else if timed_out {
            TransferStep::Failed("Wayland clipboard transfer timed out after 10 seconds".to_owned())
        } else {
            TransferStep::Read
        }
    }

    /// Takes in what a read came back with. Bytes beyond the limit are refused
    /// and not kept.
    pub fn on_read(&mut self, read: TransferRead) -> (result: TransferStep)
        requires
            old(self).well_formed(),
        ensures
            final(self).well_formed(),
            final(self).mime@ == old(self).mime@,
            match read {
                TransferRead::Bytes(bytes) => {
                    let limit = transfer_limit(old(self).mime@);
                    if bytes@.len() == 0 {
                        result is Complete && final(self).bytes@ == old(self).bytes@
                    } else {
                        match taken_in(limit as int, old(self).bytes@, bytes@) {
                            Some(kept) => result is Read && final(self).bytes@ == kept,
                            None => {
                                &&& final(self).bytes@ == old(self).bytes@
                                &&& result matches TransferStep::Failed(message)
                                &&& message@ == "Wayland clipboard exceeds the "@ + decimal(
                                    (limit / 1048576) as nat,
                                ) + " MiB transfer limit"@
                            },
                        }
                    }
                },
                TransferRead::End => result is Complete && final(self).bytes@ == old(self).bytes@,
                TransferRead::Interrupted => result is Read && final(self).bytes@
                    == old(self).bytes@,
                TransferRead::WouldBlock => result is Wait && final(self).bytes@
                    == old(self).bytes@,
                TransferRead::Failed(error) => {
                    &&& final(self).bytes@ == old(self).bytes@
                    &&& result matches TransferStep::Failed(message)
                    &&& message@ == "Failed to read Wayland clipboard: "@ + error@
                },
            },
    {
        match read {
            TransferRead::Bytes(bytes) => {
                if bytes.len() == 0 {
                    return TransferStep::Complete;
                }
                let limit: usize = if is_clipboard_image_mime(self.mime.as_str()) {
                    MAX_CLIPBOARD_IMAGE_BYTES
                } else {
                    MAX_CLIPBOARD_TEXT_BYTES
                };
                if bytes.len() > limit - self.bytes.len() {
                    let size = count_text(limit / 1048576);
                    return TransferStep::Failed(
                        concat3(
                            "Wayland clipboard exceeds the ",
                            size.as_str(),
                            " MiB transfer limit",
                        ),
                    );
                }
                let mut more = bytes;
                self.bytes.append(&mut more);
                TransferStep::Read
            },
            TransferRead::End => TransferStep::Complete,
            TransferRead::Interrupted => TransferStep::Read,
            TransferRead::WouldBlock => TransferStep::Wait,
            TransferRead::Failed(error) => TransferStep::Failed(
                concat("Failed to read Wayland clipboard: ", error.as_str()),
            ),
        }
    }
}

/// What a complete transfer holds.
#[derive(Debug)]
pub enum GuestContents {
    Nothing,
    Text(String),
    /// An image that is shared once it is decoded.
    Image(Vec<u8>),
    Failed(String),
}

/// Makes out what a complete transfer holds: an image where one was asked for,
/// else a text, which must be UTF-8.
pub fn guest_contents(transfer: GuestTransfer) -> (result: GuestContents)
    ensures
        ({
            let bytes = transfer.bytes@;
            if bytes.len() == 0 {
                result is Nothing
            } else if is_image_kind(transfer.mime@) {
                match image_problem(bytes) {
                    None => result matches GuestContents::Image(image) && image@ == bytes,
                    Some(problem) => result matches GuestContents::Failed(message) && message@
                        == problem,
                }
            } else if valid_utf8(bytes) {
                result matches GuestContents::Text(text) && encode_utf8(text@) == bytes
            } else {
                result matches GuestContents::Failed(message) && message@
                    == "Wayland clipboard text is not UTF-8"@
            }
        }),
{
    if transfer.bytes.len() == 0 {
        return GuestContents::Nothing;
    }
    if is_clipboard_image_mime(transfer.mime.as_str()) {
        return match shared_png_bytes(transfer.bytes) {
            Ok(Some(image)) => GuestContents::Image(image),
            Ok(None) => GuestContents::Failed("Empty Wayland PNG".to_owned()),
            Err(message) => GuestContents::Failed(message),
        };
    }
    match decoded_text(transfer.bytes) {
        Some(text) => {
            proof {
                encode_utf8_valid_utf8(text@);
            }
            GuestContents::Text(text)
        },
        None => GuestContents::Failed("Wayland clipboard text is not UTF-8".to_owned()),
    }
}

/// Accepts an image of a guest once it is decoded, unless it cannot be decoded
/// or has too many pixels.
pub fn accept_guest_image(image: Vec<u8>, decoded: Option<(isize, isize)>) -> (result: Result<
    ClipboardPayload,
    String,
>)
    ensures
        match decoded {
            None => result matches Err(message) && message@
                == "Wayland clipboard PNG could not be decoded"@,
            Some(size) => match size_problem(size.0 as int, size.1 as int) {
                Some(problem) => result matches Err(message) && message@ == problem,
                None => result matches Ok(ClipboardPayload::Image(accepted)) && accepted@
                    == image@,
            },
        },
{
    match decoded {
        None => Err("Wayland clipboard PNG could not be decoded".to_owned()),
        Some(size) => match validate_clipboard_image_dimensions(size.0, size.1) {
            Ok(_) => Ok(ClipboardPayload::Image(image)),
            Err(message) => Err(message),
        },
    }
}

/// What one attempt to write to a guest came back with.
#[derive(Debug)]
pub enum PayloadWrite {
    Bytes(usize),
    Interrupted,
    WouldBlock,
    Failed(String),
}

/// What the writer does next.
#[derive(Debug)]
pub enum WriteStep {
    /// Write the bytes from here on.
    Write(usize),
    /// Wait until there is room, then write the bytes from here on.
    Wait(usize),
    Failed(String),
}

/// Decides how a write goes on, where `sent` of the bytes were taken before.
pub fn payload_step(sent: usize, total: usize, write: PayloadWrite) -> (result: WriteStep)
    requires
        sent < total,
        write matches PayloadWrite::Bytes(count) ==> count <= total - sent,
    ensures
        match write {
            PayloadWrite::Bytes(count) => if count == 0 {
                result matches WriteStep::Failed(message) && message@
                    == "clipboard receiver stopped reading"@
            } else {
                result matches WriteStep::Write(from) && from == sent + count
            },
            PayloadWrite::Interrupted => result matches WriteStep::Write(from) && from == sent,
            PayloadWrite::WouldBlock => result matches WriteStep::Wait(from) && from == sent,
            PayloadWrite::Failed(error) => result matches WriteStep::Failed(message) && message@
                == error@,
        },
{
    match write {
        PayloadWrite::Bytes(count) => if count == 0 {
            WriteStep::Failed("clipboard receiver stopped reading".to_owned())
        } else {
            WriteStep::Write(sent + count)
        },
        PayloadWrite::Interrupted => WriteStep::Write(sent),
        PayloadWrite::WouldBlock => WriteStep::Wait(sent),
        PayloadWrite::Failed(error) => WriteStep::Failed(error),
    }
}

// ---------------------------------------------------------------------------
// The shared clipboard
// ---------------------------------------------------------------------------
/// What the host's clipboard holds.
#[derive(Debug)]
pub struct HostPasteboardSnapshot {
    pub change_count: isize,
    pub text: Option<String>,
    pub image_png: Option<Vec<u8>>,
    pub image_error: Option<String>,
}

/// The clipboard as the compositor knows it.
#[derive(Debug)]
pub struct ClipboardState {
    pub host_text: Option<String>,
    pub host_image: Option<Vec<u8>>,
    pub pending_guest_mime: Option<String>,
    pub generation: u64,
    pub change_count: isize,
}

/// What follows from new contents of the host.
#[derive(Debug)]
pub struct HostUpdate {
    /// The bytes of the contents, for the diagnostics.
    pub byte_count: usize,
    /// The kinds that are offered to guests; the selection is cleared if there
    /// are none.
    pub mime_types: Vec<String>,
    /// An image that could not be read.
    pub failure: Option<String>,
}

/// What is done with contents of a guest.
#[derive(Debug, Clone, Copy, PartialEq, Eq, Structural)]
pub enum InstallStep {
    /// Nothing: they are out of date, or the host has them.
    Ignore,
    /// Put them on the host's clipboard.
    Install,
}

pub open spec fn text_bytes(text: Option<Seq<char>>) -> int {
    match text {
        Some(text) => encode_utf8(text).len() as int,
        None => 0,
    }
}

pub open spec fn image_bytes(image: Option<Seq<u8>>) -> int {
    match image {
        Some(image) => image.len() as int,
        None => 0,
    }
}

pub open spec fn image_view(image: Option<Vec<u8>>) -> Option<Seq<u8>> {
    match image {
        Some(image) => Some(image@),
        None => None,
    }
}

fn same_bytes(a: &Vec<u8>, b: &Vec<u8>) -> (result: bool)
    ensures
        result == (a@ == b@),
{
    if a.len() != b.len() {
        return false;
    }
    for i in 0..a.len()
        invariant
            a@.len() == b@.len(),
            forall|j: int| 0 <= j < i ==> a@[j] == b@[j],
    {
        if a[i] != b[i] {
            return false;
        }
    }
    assert(a@ =~= b@);
    true
}

/// Contents of the clipboard: a text, or the bytes of an image.
#[verifier::ext_equal]
pub enum ContentsView {
    Text(Seq<char>),
    Image(Seq<u8>),
}

pub open spec fn contents_view(payload: ClipboardPayload) -> ContentsView {
    match payload {
        ClipboardPayload::Text(text) => ContentsView::Text(text@),
        ClipboardPayload::Image(image) => ContentsView::Image(image@),
    }
}

/// Whether contents of a guest are put on the host's clipboard, where the
/// newest selection has the number `newest` and theirs has another or the same.
pub open spec fn install_decision(
    newest: u64,
    host_text: Option<Seq<char>>,
    host_image: Option<Seq<u8>>,
    generation: u64,
    asked_at: isize,
    host_now: isize,
    contents: ContentsView,
) -> InstallStep {
    if newest != generation || host_now != asked_at {
        InstallStep::Ignore
    } else {
        match contents {
            ContentsView::Text(text) => if host_text == Some(text) && host_image is None {
                InstallStep::Ignore
            } else {
                InstallStep::Install
            },
            ContentsView::Image(image) => if host_image == Some(image) && host_text is None {
                InstallStep::Ignore
            } else {
                InstallStep::Install
            },
        }
    }
}

/// Contents that were asked for before the newest selection never reach the
/// host: a selection or a copy on the host changes the number.
pub proof fn law_newer_copy_wins(
    before: u64,
    host_text: Option<Seq<char>>,
    host_image: Option<Seq<u8>>,
    asked_at: isize,
    host_now: isize,
    contents: ContentsView,
)
    ensures
        install_decision(
            before.wrapping_add(1),
            host_text,
            host_image,
            before,
            asked_at,
            host_now,
            contents,
        ) is Ignore,
{
}

/// What a guest has put on the host's clipboard is not put there again.
pub proof fn law_installed_is_known(
    newest: u64,
    generation: u64,
    asked_at: isize,
    host_now: isize,
    contents: ContentsView,
)
    ensures
        install_decision(
            newest,
            match contents {
                ContentsView::Text(text) => Some(text),
                ContentsView::Image(_) => None,
            },
            match contents {
                ContentsView::Text(_) => None,
                ContentsView::Image(image) => Some(image),
            },
            generation,
            asked_at,
            host_now,
            contents,
        ) is Ignore,
{
}

impl ClipboardState {
    pub fn new() -> (result: Self)
        ensures
            result.host_text is None,
            result.host_image is None,
            result.pending_guest_mime is None,
            result.generation == 0,
            result.change_count == -1,
    {
        ClipboardState {
            host_text: None,
            host_image: None,
            pending_guest_mime: None,
            generation: 0,
            change_count: -1,
        }
    }

    /// Takes over new contents of the host. What a guest still sends is out of
    /// date from then on.
    pub fn on_host_change(&mut self, snapshot: HostPasteboardSnapshot) -> (result: HostUpdate)
        requires
            text_bytes(snapshot.text.deep_view()) + image_bytes(image_view(snapshot.image_png))
                <= usize::MAX,
        ensures
            final(self).host_text == snapshot.text,
            final(self).host_image == snapshot.image_png,
            final(self).pending_guest_mime is None,
            final(self).generation == old(self).generation.wrapping_add(1),
            final(self).change_count == snapshot.change_count,
            result.byte_count == text_bytes(snapshot.text.deep_view()) + image_bytes(
                image_view(snapshot.image_png),
            ),
            result.mime_types.deep_view() == offered_kinds(
                snapshot.text is Some,
                snapshot.image_png is Some,
            ),
            result.failure == snapshot.image_error,
    {
        self.generation = self.generation.wrapping_add(1);
        self.pending_guest_mime = None;
        self.change_count = snapshot.change_count;
        let text_size: usize = match &snapshot.text {
            Some(text) => text.as_str().as_bytes().len(),
            None => 0,
        };
        let image_size: usize = match &snapshot.image_png {
            Some(image) => image.len(),
            None => 0,
        };
        let mime_types = clipboard_mime_types(
            snapshot.text.is_some(),
            snapshot.image_png.is_some(),
        );
        self.host_text = snapshot.text;
        self.host_image = snapshot.image_png;
        HostUpdate {
            byte_count: text_size + image_size,
            mime_types,
            failure: snapshot.image_error,
        }
    }

    /// Takes note of a selection of a guest; only the clipboard counts. The
    /// kind that will be asked for is remembered and returned.
    pub fn new_selection(&mut self, is_clipboard: bool, offered: Option<&Vec<String>>) -> (result:
        Option<String>)
        ensures
            final(self).host_text == old(self).host_text,
            final(self).host_image == old(self).host_image,
            final(self).change_count == old(self).change_count,
            if !is_clipboard {
                &&& result is None
                &&& final(self).pending_guest_mime == old(self).pending_guest_mime
                &&& final(self).generation == old(self).generation
            } else {
                &&& final(self).generation == old(self).generation.wrapping_add(1)
                &&& final(self).pending_guest_mime.deep_view() == result.deep_view()
                &&& result.deep_view() == (match offered {
                    Some(kinds) => preferred_kind(kinds.deep_view()),
                    None => None,
                })
            },
    {
        if !is_clipboard {
            return None;
        }
        self.generation = self.generation.wrapping_add(1);
        let mime = match offered {
            Some(kinds) => preferred_clipboard_mime(kinds),
            None => None,
        };
        self.pending_guest_mime = copy_option(&mime);
        mime
    }

    /// The kind that is to be asked of a guest, once.
    pub fn take_pending(&mut self) -> (result: Option<String>)
        ensures
            result == old(self).pending_guest_mime,
            final(self).pending_guest_mime is None,
            final(self).host_text == old(self).host_text,
            final(self).host_image == old(self).host_image,
            final(self).generation == old(self).generation,
            final(self).change_count == old(self).change_count,
    {
        self.pending_guest_mime.take()
    }

    /// The contents that a guest is sent for a kind. The outer option is none
    /// where nothing is sent at all, because the kind is neither an image nor a
    /// text or the selection is not the clipboard.
    pub fn send_selection(&self, is_clipboard: bool, mime: &str) -> (result: Option<
        Option<ClipboardPayload>,
    >)
        ensures
            if !is_clipboard {
                result is None
            } else if is_image_kind(mime@) {
                match (result, self.host_image) {
                    (Some(Some(ClipboardPayload::Image(sent))), Some(image)) => sent@ == image@,
                    (Some(None), None) => true,
                    _ => false,
                }
            } else if is_text_kind(mime@) {
                match (result, self.host_text) {
                    (Some(Some(ClipboardPayload::Text(sent))), Some(text)) => sent@ == text@,
                    (Some(None), None) => true,
                    _ => false,
                }
            } else {
                result is None
            },
    {
        if !is_clipboard {
            return None;
        }
        if is_clipboard_image_mime(mime) {
            match &self.host_image {
                Some(image) => {
                    let copy = copy_bytes(image);
                    Some(Some(ClipboardPayload::Image(copy)))
                },
                None => Some(None),
            }
        } else if is_clipboard_text_mime(mime) {
            match &self.host_text {
                Some(text) => Some(Some(ClipboardPayload::Text(text.clone()))),
                None => Some(None),
            }
        } else {
            None
        }
    }

    /// Whether contents of a guest are put on the host's clipboard: not if
    /// another selection or another copy on the host came after they were asked
    /// for, and not if the host has just them.
    pub fn install_guest_clipboard(
        &self,
        generation: u64,
        asked_at: isize,
        host_now: isize,
        payload: &ClipboardPayload,
    ) -> (result: InstallStep)
        ensures
            result == install_decision(
                self.generation,
                self.host_text.deep_view(),
                image_view(self.host_image),
                generation,
                asked_at,
                host_now,
                contents_view(*payload),
            ),
    {
        if self.generation != generation || host_now != asked_at {
            return InstallStep::Ignore;
        }
        let known = match payload {
            ClipboardPayload::Text(text) => match &self.host_text {
                Some(host) => same(host.as_str(), text.as_str()) && self.host_image.is_none(),
                None => false,
            },
            ClipboardPayload::Image(image) => match &self.host_image {
                Some(host) => same_bytes(host, image) && self.host_text.is_none(),
                None => false,
            },
        };
        if known {
            InstallStep::Ignore
        } else {
            InstallStep::Install
        }
    }

    /// Records that contents of a guest are on the host's clipboard. They
    /// replace all that was there; the kinds that are offered from then on are
    /// returned.
    pub fn installed(&mut self, payload: ClipboardPayload, change_count: isize) -> (result: Vec<
        String,
    >)
        ensures
            final(self).change_count == change_count,
            final(self).generation == old(self).generation,
            final(self).pending_guest_mime == old(self).pending_guest_mime,
            match payload {
                ClipboardPayload::Text(text) => final(self).host_text == Some(text) && final(self).host_image is None && result.deep_view() == offered_kinds(true, false),
                ClipboardPayload::Image(image) => final(self).host_image == Some(image) && final(self).host_text is None && result.deep_view() == offered_kinds(false, true),
            },
    {
        self.change_count = change_count;
        match payload {
            ClipboardPayload::Text(text) => {
                self.host_text = Some(text);
                self.host_image = None;
                clipboard_mime_types(true, false)
            },
            ClipboardPayload::Image(image) => {
                self.host_text = None;
                self.host_image = Some(image);
                clipboard_mime_types(false, true)
            },
        }
    }
}

fn copy_bytes(bytes: &Vec<u8>) -> (result: Vec<u8>)
    ensures
        result@ == bytes@,
{
    let mut result: Vec<u8> = Vec::new();
    for i in 0..bytes.len()
        invariant
            result@ == bytes@.take(i as int),
    {
        result.push(bytes[i]);
    }
    assert(result@ == bytes@);
    result
}

/// Whether the host's clipboard is looked at again, some milliseconds after it
/// was looked at.
pub fn poll_is_due(elapsed_ms: u64) -> (result: bool)
    ensures
        result == (elapsed_ms >= 100),
{
    elapsed_ms >= 100
}

} // verus!
