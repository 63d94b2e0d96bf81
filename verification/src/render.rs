//! The pixels of shared-memory buffers.
use vstd::prelude::*;

verus! {

/// The layout of a pixel in a shared-memory buffer, by the names that Wayland
/// gives to the little-endian words.
#[derive(Debug, Clone, Copy, PartialEq, Eq, Structural)]
pub enum Format {
    Argb8888,
    Xrgb8888,
    Abgr8888,
    Xbgr8888,
    Rgba8888,
    Rgbx8888,
    Bgra8888,
    Bgrx8888,
    /// A layout that is not read.
    Other,
}

/// What the fourth byte of a pixel says.
#[derive(Debug, Clone, Copy, PartialEq, Eq, Structural)]
pub enum TextureAlpha {
    Premultiplied,
    Opaque,
}

pub open spec fn alpha_of(format: Format) -> Option<TextureAlpha> {
    match format {
        Format::Argb8888 | Format::Abgr8888 | Format::Rgba8888 | Format::Bgra8888 => Some(
            TextureAlpha::Premultiplied,
        ),
        Format::Xrgb8888 | Format::Xbgr8888 | Format::Rgbx8888 | Format::Bgrx8888 => Some(
            TextureAlpha::Opaque,
        ),
        Format::Other => None,
    }
}

pub fn shm_format_alpha(format: Format) -> (result: Option<TextureAlpha>)
    ensures
        result == alpha_of(format),
{
    match format {
        Format::Argb8888 | Format::Abgr8888 | Format::Rgba8888 | Format::Bgra8888 => Some(
            TextureAlpha::Premultiplied,
        ),
        Format::Xrgb8888 | Format::Xbgr8888 | Format::Rgbx8888 | Format::Bgrx8888 => Some(
            TextureAlpha::Opaque,
        ),
        Format::Other => None,
    }
}

/// The four bytes of a pixel as blue, green, red and alpha; none for a layout
/// that is not read. A layout without alpha is opaque.
pub open spec fn bgra_of(format: Format, bytes: Seq<u8>) -> Option<Seq<u8>> {
    match format {
        Format::Argb8888 => Some(seq![bytes[0], bytes[1], bytes[2], bytes[3]]),
        Format::Xrgb8888 => Some(seq![bytes[0], bytes[1], bytes[2], 0xff]),
        Format::Abgr8888 => Some(seq![bytes[2], bytes[1], bytes[0], bytes[3]]),
        Format::Xbgr8888 => Some(seq![bytes[2], bytes[1], bytes[0], 0xff]),
        Format::Rgba8888 => Some(seq![bytes[1], bytes[2], bytes[3], bytes[0]]),
        Format::Rgbx8888 => Some(seq![bytes[1], bytes[2], bytes[3], 0xff]),
        Format::Bgra8888 => Some(seq![bytes[3], bytes[2], bytes[1], bytes[0]]),
        Format::Bgrx8888 => Some(seq![bytes[3], bytes[2], bytes[1], 0xff]),
        Format::Other => None,
    }
}

pub fn pixel_to_bgra(format: Format, bytes: &[u8]) -> (result: Option<[u8; 4]>)
    requires
        bytes@.len() >= 4,
    ensures
        match result {
            Some(pixel) => bgra_of(format, bytes@) == Some(pixel@),
            None => bgra_of(format, bytes@) is None,
        },
{
    let b0: u8 = bytes[0];
    let b1: u8 = bytes[1];
    let b2: u8 = bytes[2];
    let b3: u8 = bytes[3];
    let pixel = match format {
        Format::Argb8888 => [b0, b1, b2, b3],
        Format::Xrgb8888 => [b0, b1, b2, 0xff],
        Format::Abgr8888 => [b2, b1, b0, b3],
        Format::Xbgr8888 => [b2, b1, b0, 0xff],
        Format::Rgba8888 => [b1, b2, b3, b0],
        Format::Rgbx8888 => [b1, b2, b3, 0xff],
        Format::Bgra8888 => [b3, b2, b1, b0],
        Format::Bgrx8888 => [b3, b2, b1, 0xff],
        Format::Other => return None,
    };
    assert(bgra_of(format, bytes@)->0 =~= pixel@);
    Some(pixel)
}

/// A layout is read if and only if it is known whether it has alpha, and one
/// without alpha is opaque everywhere.
pub proof fn law_alpha_is_kept(format: Format, bytes: Seq<u8>)
    requires
        bytes.len() == 4,
    ensures
        (bgra_of(format, bytes) is Some) == (alpha_of(format) is Some),
        bgra_of(format, bytes) matches Some(pixel) ==> pixel.len() == 4,
        alpha_of(format) == Some(TextureAlpha::Opaque) ==> bgra_of(format, bytes)->0[3] == 0xff,
        alpha_of(format) == Some(TextureAlpha::Premultiplied) ==> bgra_of(format, bytes)->0
            .to_multiset() == bytes.to_multiset(),
{
    if alpha_of(format) == Some(TextureAlpha::Premultiplied) {
        let pixel = bgra_of(format, bytes)->0;
        lemma_four(pixel);
        lemma_four(bytes);
        assert(pixel.to_multiset() =~= bytes.to_multiset());
    }
}

proof fn lemma_four(bytes: Seq<u8>)
    requires
        bytes.len() == 4,
    ensures
        bytes.to_multiset() == vstd::multiset::Multiset::<u8>::empty().insert(bytes[0]).insert(
            bytes[1],
        ).insert(bytes[2]).insert(bytes[3]),
{
    broadcast use vstd::seq_lib::group_to_multiset_ensures;

    let whole = Seq::<u8>::empty().push(bytes[0]).push(bytes[1]).push(bytes[2]).push(bytes[3]);
    assert(whole == bytes);
    assert(Seq::<u8>::empty().to_multiset() =~= vstd::multiset::Multiset::<u8>::empty());
}

/// The pixel of a row and a column in rows of four bytes a pixel.
pub open spec fn pixel_at(pixels: Seq<u8>, width: int, y: int, x: int) -> Seq<u8> {
    pixels.subrange(4 * (y * width + x), 4 * (y * width + x) + 4)
}

/// What a pixel becomes: black and transparent where the pool does not reach.
pub open spec fn wanted_pixel(
    pool: Seq<u8>,
    offset: int,
    stride: int,
    format: Format,
    y: int,
    x: int,
) -> Seq<u8> {
    let from = offset + y * stride + x * 4;
    if from + 4 > pool.len() {
        seq![0u8, 0u8, 0u8, 0u8]
    } else {
        bgra_of(format, pool.subrange(from, from + 4))->0
    }
}

proof fn lemma_earlier_pixel(width: int, y: int, x: int, row: int, column: int)
    requires
        0 <= column < width,
        0 <= row,
        row < y || (row == y && column < x),
        0 <= x <= width,
    ensures
        row * width + column + 1 <= y * width + x,
        0 <= row * width,
{
    assert(0 <= row * width) by (nonlinear_arith)
        requires
            0 <= row,
            0 <= width,
    ;
    if row < y {
        assert((row + 1) * width <= y * width) by (nonlinear_arith)
            requires
                row + 1 <= y,
                0 <= width,
        ;
        assert((row + 1) * width == row * width + width) by (nonlinear_arith);
    }
}

/// The pixels of a buffer in a pool, row by row and without gaps; none for
/// sizes that make no sense and for a layout that is not read.
pub fn copy_pool_pixels_to_bgra(
    slice: &[u8],
    offset: i32,
    width: i32,
    height: i32,
    stride: i32,
    format: Format,
) -> (result: Option<(i32, i32, Vec<u8>, TextureAlpha)>)
    requires
        width > 0 && height > 0 && stride > 0 && offset >= 0 ==> width * height * 4 <= i32::MAX
            && offset + (height - 1) * stride <= i32::MAX,
    ensures
        match result {
            Some(read) => {
                &&& width > 0 && height > 0 && stride > 0 && offset >= 0
                &&& alpha_of(format) == Some(read.3)
                &&& read.0 == width
                &&& read.1 == height
                &&& read.2@.len() == width * height * 4
                &&& forall|y: int, x: int|
                    0 <= y < height && 0 <= x < width ==> #[trigger] pixel_at(
                        read.2@,
                        width as int,
                        y,
                        x,
                    ) == wanted_pixel(slice@, offset as int, stride as int, format, y, x)
            },
            None => width <= 0 || height <= 0 || stride <= 0 || offset < 0 || alpha_of(
                format,
            ) is None,
        },
{
    if width <= 0 || height <= 0 || stride <= 0 || offset < 0 {
        return None;
    }
    let alpha = match shm_format_alpha(format) {
        Some(alpha) => alpha,
        None => return None,
    };
    let size: usize = slice.len();
    let mut pixels: Vec<u8> = Vec::new();
    let mut y: i32 = 0;
    while y < height
        invariant
            0 <= y <= height,
            0 < width,
            0 < stride,
            0 <= offset,
            size == slice@.len(),
            alpha_of(format) is Some,
            width * height * 4 <= i32::MAX,
            offset + (height - 1) * stride <= i32::MAX,
            pixels@.len() == 4 * (y * width),
            forall|row: int, column: int|
                0 <= row < y && 0 <= column < width ==> #[trigger] pixel_at(
                    pixels@,
                    width as int,
                    row,
                    column,
                ) == wanted_pixel(slice@, offset as int, stride as int, format, row, column),
        decreases height - y,
    {
        assert(0 <= y * stride <= (height - 1) * stride) by (nonlinear_arith)
            requires
                0 <= y <= height - 1,
                0 < stride,
        ;
        let base: usize = (offset + y * stride) as usize;
        let mut x: i32 = 0;
        while x < width
            invariant
                0 <= y < height,
                0 <= x <= width,
                0 < width,
                size == slice@.len(),
                alpha_of(format) is Some,
                base == offset + y * stride,
                base <= i32::MAX,
                width <= i32::MAX,
                pixels@.len() == 4 * (y * width + x),
                forall|row: int, column: int|
                    (0 <= row < y && 0 <= column < width) || (row == y && 0 <= column < x)
                        ==> #[trigger] pixel_at(pixels@, width as int, row, column) == wanted_pixel(
                        slice@,
                        offset as int,
                        stride as int,
                        format,
                        row,
                        column,
                    ),
            decreases width - x,
        {
            let ghost before = pixels@;
            let pixel: [u8; 4] = four_bytes(slice, base, x, format);
            pixels.push(pixel[0]);
            pixels.push(pixel[1]);
            pixels.push(pixel[2]);
            pixels.push(pixel[3]);
            proof {
                assert(pixels@ == before + pixel@);
                assert forall|row: int, column: int|
                    (0 <= row < y && 0 <= column < width) || (row == y && 0 <= column < x + 1) implies #[trigger] pixel_at(
                    pixels@,
                    width as int,
                    row,
                    column,
                ) == wanted_pixel(slice@, offset as int, stride as int, format, row, column) by {
                    if row == y && column == x {
                        assert(pixel_at(pixels@, width as int, row, column) == pixel@);
                    } else {
                        lemma_earlier_pixel(width as int, y as int, x as int, row, column);
                        assert(pixel_at(before, width as int, row, column) == pixel_at(
                            pixels@,
                            width as int,
                            row,
                            column,
                        ));
                    }
                }
            }
            x += 1;
        }
        assert((y + 1) * width == y * width + width) by (nonlinear_arith);
        y += 1;
    }
    assert(4 * (height * width) == width * height * 4) by (nonlinear_arith);
    Some((width, height, pixels, alpha))
}

fn four_bytes(slice: &[u8], base: usize, x: i32, format: Format) -> (result: [u8; 4])
    requires
        base <= i32::MAX,
        0 <= x,
        alpha_of(format) is Some,
    ensures
        result@ == (if base + x * 4 + 4 > slice@.len() {
            seq![0u8, 0u8, 0u8, 0u8]
        } else {
            bgra_of(format, slice@.subrange(base + x * 4, base + x * 4 + 4))->0
        }),
{
    let from: u64 = base as u64 + x as u64 * 4;
    if from + 4 > slice.len() as u64 {
        let black = [0u8, 0u8, 0u8, 0u8];
        assert(black@ =~= seq![0u8, 0u8, 0u8, 0u8]);
        return black;
    }
    let at: usize = from as usize;
    let bytes = [slice[at], slice[at + 1], slice[at + 2], slice[at + 3]];
    assert(bytes@ =~= slice@.subrange(at as int, at + 4));
    match pixel_to_bgra(format, bytes.as_slice()) {
        Some(pixel) => pixel,
        None => bytes,
    }
}

// ---------------------------------------------------------------------------
// Buffers
// ---------------------------------------------------------------------------
/// What is known of a buffer in a pool.
#[derive(Debug, Clone, Copy, PartialEq, Eq, Structural)]
pub struct BufferData {
    pub offset: i32,
    pub width: i32,
    pub height: i32,
    pub stride: i32,
    pub format: Format,
}

/// The pixels of a buffer: bytes of the pool as they are, or copied bytes.
#[derive(Debug)]
pub enum BufferPixels {
    /// The bytes of the pool from `start` to `end`, in rows of `stride` bytes.
    Direct { start: usize, end: usize, stride: usize, alpha: TextureAlpha },
    /// The bytes themselves, in rows of `stride` bytes.
    Copied { pixels: Vec<u8>, stride: usize, alpha: TextureAlpha },
}

/// The first byte of the pool that a buffer does not need.
pub open spec fn buffer_end(data: BufferData) -> int {
    data.offset + (data.height - 1) * data.stride + data.width * 4
}

/// Whether a buffer makes sense and lies inside its pool.
pub open spec fn buffer_is_sound(data: BufferData, pool: int) -> bool {
    &&& data.width > 0
    &&& data.height > 0
    &&& data.stride > 0
    &&& data.offset >= 0
    &&& data.stride >= (if data.width * 4 > i32::MAX {
        i32::MAX as int
    } else {
        data.width * 4
    })
    &&& buffer_end(data) <= pool
}

/// Whether the sizes of a buffer that is copied stay in 32 bits.
pub open spec fn copy_is_small(data: BufferData) -> bool {
    data.width * data.height * 4 <= i32::MAX && data.offset + (data.height - 1) * data.stride
        <= i32::MAX
}

pub open spec fn is_copied(format: Format) -> bool {
    format != Format::Argb8888 && format != Format::Xrgb8888
}

/// The end of a buffer in its pool; none if the buffer makes no sense or does
/// not lie inside the pool.
pub fn sound_buffer_end(data: &BufferData, pool: usize) -> (result: Option<usize>)
    ensures
        match result {
            Some(end) => buffer_is_sound(*data, pool as int) && end == buffer_end(*data),
            None => !buffer_is_sound(*data, pool as int),
        },
{
    if data.width <= 0 || data.height <= 0 || data.stride <= 0 || data.offset < 0 {
        return None;
    }
    let row: i64 = data.width as i64 * 4;
    let least: i64 = if row > 0x7fff_ffff {
        0x7fff_ffff
    } else {
        row
    };
    if (data.stride as i64) < least {
        return None;
    }
    let rows: u64 = (data.height - 1) as u64;
    let stride: u64 = data.stride as u64;
    assert(rows * stride <= 0x7fff_ffff * 0x7fff_ffff) by (nonlinear_arith)
        requires
            rows <= 0x7fff_ffff,
            stride <= 0x7fff_ffff,
    ;
    let end: u64 = data.offset as u64 + rows * stride + row as u64;
    if end > pool as u64 {
        return None;
    }
    Some(end as usize)
}

/// Whether the pixels of a buffer can be read: it needs no copy, or a copy
/// whose sizes stay in 32 bits, or it is not read at all.
pub fn buffer_is_readable(data: &BufferData, pool: usize) -> (result: bool)
    ensures
        result == (is_copied(data.format) && buffer_is_sound(*data, pool as int) ==> copy_is_small(
            *data,
        )),
{
    let copied = match data.format {
        Format::Argb8888 | Format::Xrgb8888 => false,
        _ => true,
    };
    if !copied || sound_buffer_end(data, pool).is_none() {
        return true;
    }
    let width: u128 = data.width as u128;
    let height: u128 = data.height as u128;
    assert(width * height <= 0x7fff_ffff * 0x7fff_ffff) by (nonlinear_arith)
        requires
            width <= 0x7fff_ffff,
            height <= 0x7fff_ffff,
    ;
    let rows: u128 = (data.height - 1) as u128;
    let stride: u128 = data.stride as u128;
    assert(rows * stride <= 0x7fff_ffff * 0x7fff_ffff) by (nonlinear_arith)
        requires
            rows <= 0x7fff_ffff,
            stride <= 0x7fff_ffff,
    ;
    width * height * 4 <= 0x7fff_ffff && data.offset as u128 + rows * stride <= 0x7fff_ffff
}

/// The pixels of a buffer in a pool; none if the buffer makes no sense, does
/// not lie inside the pool, or has a layout that is not read.
pub fn with_buffer_pixels(pool: &[u8], data: &BufferData) -> (result: Option<BufferPixels>)
    requires
        is_copied(data.format) && buffer_is_sound(*data, pool@.len() as int) ==> copy_is_small(
            *data,
        ),
    ensures
        match result {
            Some(BufferPixels::Direct { start, end, stride, alpha }) => {
                &&& buffer_is_sound(*data, pool@.len() as int)
                &&& !is_copied(data.format)
                &&& alpha_of(data.format) == Some(alpha)
                &&& start == data.offset
                &&& end == buffer_end(*data)
                &&& stride == data.stride
            },
            Some(BufferPixels::Copied { pixels, stride, alpha }) => {
                &&& buffer_is_sound(*data, pool@.len() as int)
                &&& is_copied(data.format)
                &&& alpha_of(data.format) == Some(alpha)
                &&& stride == data.width * 4
                &&& pixels@.len() == data.width * data.height * 4
                &&& forall|y: int, x: int|
                    0 <= y < data.height && 0 <= x < data.width ==> #[trigger] pixel_at(
                        pixels@,
                        data.width as int,
                        y,
                        x,
                    ) == wanted_pixel(
                        pool@,
                        data.offset as int,
                        data.stride as int,
                        data.format,
                        y,
                        x,
                    )
            },
            None => !buffer_is_sound(*data, pool@.len() as int) || alpha_of(data.format) is None,
        },
{
    let end: usize = match sound_buffer_end(data, pool.len()) {
        Some(end) => end,
        None => return None,
    };
    match data.format {
        Format::Argb8888 => Some(
            BufferPixels::Direct {
                start: data.offset as usize,
                end,
                stride: data.stride as usize,
                alpha: TextureAlpha::Premultiplied,
            },
        ),
        Format::Xrgb8888 => Some(
            BufferPixels::Direct {
                start: data.offset as usize,
                end,
                stride: data.stride as usize,
                alpha: TextureAlpha::Opaque,
            },
        ),
        _ => {
            assert(data.width * 4 <= data.width * data.height * 4) by (nonlinear_arith)
                requires
                    data.width > 0,
                    data.height > 0,
            ;
            match copy_pool_pixels_to_bgra(
                pool,
                data.offset,
                data.width,
                data.height,
                data.stride,
                data.format,
            ) {
                Some((_, _, pixels, alpha)) => Some(
                    BufferPixels::Copied { pixels, stride: (data.width * 4) as usize, alpha },
                ),
                None => None,
            }
        },
    }
}

/// Every pixel of a sound buffer lies inside its pool, so none of a copy is
/// made up.
pub proof fn law_sound_pixels_are_read(data: BufferData, pool: int, y: int, x: int)
    requires
        buffer_is_sound(data, pool),
        0 <= y < data.height,
        0 <= x < data.width,
    ensures
        0 <= data.offset + y * data.stride + x * 4,
        data.offset + y * data.stride + x * 4 + 4 <= pool,
{
    assert(0 <= y * data.stride <= (data.height - 1) * data.stride) by (nonlinear_arith)
        requires
            0 <= y <= data.height - 1,
            0 < data.stride,
    ;
}

} // verus!
