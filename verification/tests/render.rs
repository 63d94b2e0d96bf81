//! Pixels of shared memory.
use cocoa_way::render::{
    buffer_is_readable, copy_pool_pixels_to_bgra, shm_format_alpha, with_buffer_pixels, BufferData,
    BufferPixels, Format, TextureAlpha,
};

#[test]
fn copy_pool_pixels_applies_non_zero_buffer_offset() {
    let offset = 128;
    let width = 2;
    let height = 1;
    let stride = 8;
    let mut pool = vec![0u8; offset as usize + stride as usize];
    pool[offset as usize..offset as usize + 8].copy_from_slice(&[1, 2, 3, 0, 4, 5, 6, 0]);

    let (_, _, pixels, alpha) =
        copy_pool_pixels_to_bgra(&pool, offset, width, height, stride, Format::Xrgb8888)
            .expect("offset shm buffer should be readable");

    assert_eq!(pixels, vec![1, 2, 3, 0xFF, 4, 5, 6, 0xFF]);
    assert_eq!(alpha, TextureAlpha::Opaque);
}

#[test]
fn converts_supported_32_bit_formats_to_bgra_without_losing_alpha() {
    let cases = [
        (Format::Argb8888, [1, 2, 3, 4], TextureAlpha::Premultiplied),
        (Format::Xrgb8888, [1, 2, 3, 0], TextureAlpha::Opaque),
        (Format::Abgr8888, [3, 2, 1, 4], TextureAlpha::Premultiplied),
        (Format::Xbgr8888, [3, 2, 1, 0], TextureAlpha::Opaque),
        (Format::Rgba8888, [4, 1, 2, 3], TextureAlpha::Premultiplied),
        (Format::Rgbx8888, [0, 1, 2, 3], TextureAlpha::Opaque),
        (Format::Bgra8888, [4, 3, 2, 1], TextureAlpha::Premultiplied),
        (Format::Bgrx8888, [0, 3, 2, 1], TextureAlpha::Opaque),
    ];

    for (format, source, alpha) in cases {
        let (_, _, pixels, detected_alpha) =
            copy_pool_pixels_to_bgra(&source, 0, 1, 1, 4, format).unwrap();
        assert_eq!(
            pixels,
            [
                1,
                2,
                3,
                if alpha == TextureAlpha::Opaque {
                    0xFF
                } else {
                    4
                }
            ]
        );
        assert_eq!(detected_alpha, alpha);
    }
}

fn buffer(format: Format, stride: i32) -> BufferData {
    BufferData { offset: 4, width: 2, height: 2, stride, format }
}

#[test]
fn a_native_buffer_is_used_where_it_lies() {
    let pool = vec![7_u8; 64];
    assert!(buffer_is_readable(&buffer(Format::Argb8888, 8), pool.len()));
    let Some(BufferPixels::Direct { start, end, stride, .. }) =
        with_buffer_pixels(&pool, &buffer(Format::Argb8888, 8))
    else {
        panic!("the buffer was copied");
    };
    assert_eq!((start, end - start >= 16, stride), (4, true, 8));
}

#[test]
fn a_foreign_buffer_is_copied() {
    let pool: Vec<u8> = (0..64).collect();
    let Some(BufferPixels::Copied { pixels, stride, .. }) =
        with_buffer_pixels(&pool, &buffer(Format::Abgr8888, 8))
    else {
        panic!("the buffer was not copied");
    };
    assert_eq!(stride, 8);
    assert_eq!(pixels.len(), 16);
    assert_eq!(pixels[..4], [6, 5, 4, 7]);
}

#[test]
fn a_buffer_beyond_its_pool_is_refused() {
    let pool = vec![0_u8; 16];
    assert!(buffer_is_readable(&buffer(Format::Abgr8888, 8), pool.len()));
    assert!(with_buffer_pixels(&pool, &buffer(Format::Argb8888, 8)).is_none());
    assert!(with_buffer_pixels(&pool, &buffer(Format::Other, 8)).is_none());
    assert_eq!(shm_format_alpha(Format::Other), None);
}
