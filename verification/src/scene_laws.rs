//! How pixels are read, and which window a surface belongs to.
use vstd::prelude::*;

use crate::render::{alpha_of, bgra_of, buffer_is_sound, wanted_pixel, BufferData, Format, TextureAlpha};
use crate::scene::{
    above, attached_to, belongs, belongs_elsewhere, climbed, cursor_of, farewell,
    law_top_is_reached, outlives, popup_parent, window_in, window_of, with_member, CursorIcon,
    HostCursor, PendingFrameCallback, Popup, SceneMessage, Subsurface, SurfaceId,
};

verus! {

// ---------------------------------------------------------------------------
// Pixels
// ---------------------------------------------------------------------------
/// Every layout names its channels from the highest byte of a word to the
/// lowest, and words are stored with the lowest byte first; whichever the
/// layout, blue, green, red and the opacity come out in that order.
pub proof fn law_channels_find_their_places(red: u8, green: u8, blue: u8, alpha: u8)
    ensures
        bgra_of(Format::Argb8888, seq![blue, green, red, alpha]) == Some(
            seq![blue, green, red, alpha],
        ),
        bgra_of(Format::Abgr8888, seq![red, green, blue, alpha]) == Some(
            seq![blue, green, red, alpha],
        ),
        bgra_of(Format::Rgba8888, seq![alpha, blue, green, red]) == Some(
            seq![blue, green, red, alpha],
        ),
        bgra_of(Format::Bgra8888, seq![alpha, red, green, blue]) == Some(
            seq![blue, green, red, alpha],
        ),
        bgra_of(Format::Xrgb8888, seq![blue, green, red, alpha]) == Some(
            seq![blue, green, red, 0xffu8],
        ),
        bgra_of(Format::Xbgr8888, seq![red, green, blue, alpha]) == Some(
            seq![blue, green, red, 0xffu8],
        ),
        bgra_of(Format::Rgbx8888, seq![alpha, blue, green, red]) == Some(
            seq![blue, green, red, 0xffu8],
        ),
        bgra_of(Format::Bgrx8888, seq![alpha, red, green, blue]) == Some(
            seq![blue, green, red, 0xffu8],
        ),
{
    assert(bgra_of(Format::Argb8888, seq![blue, green, red, alpha])->0 =~= seq![
        blue,
        green,
        red,
        alpha,
    ]);
    assert(bgra_of(Format::Abgr8888, seq![red, green, blue, alpha])->0 =~= seq![
        blue,
        green,
        red,
        alpha,
    ]);
    assert(bgra_of(Format::Rgba8888, seq![alpha, blue, green, red])->0 =~= seq![
        blue,
        green,
        red,
        alpha,
    ]);
    assert(bgra_of(Format::Bgra8888, seq![alpha, red, green, blue])->0 =~= seq![
        blue,
        green,
        red,
        alpha,
    ]);
    assert(bgra_of(Format::Xrgb8888, seq![blue, green, red, alpha])->0 =~= seq![
        blue,
        green,
        red,
        0xffu8,
    ]);
    assert(bgra_of(Format::Xbgr8888, seq![red, green, blue, alpha])->0 =~= seq![
        blue,
        green,
        red,
        0xffu8,
    ]);
    assert(bgra_of(Format::Rgbx8888, seq![alpha, blue, green, red])->0 =~= seq![
        blue,
        green,
        red,
        0xffu8,
    ]);
    assert(bgra_of(Format::Bgrx8888, seq![alpha, red, green, blue])->0 =~= seq![
        blue,
        green,
        red,
        0xffu8,
    ]);
}

/// A layout with a channel for opacity is drawn with it, and one without is
/// drawn as opaque.
pub proof fn law_opacity_is_the_layout_s(format: Format)
    ensures
        format is Argb8888 || format is Abgr8888 || format is Rgba8888 || format is Bgra8888
            ==> alpha_of(format) == Some(TextureAlpha::Premultiplied),
        format is Xrgb8888 || format is Xbgr8888 || format is Rgbx8888 || format is Bgrx8888
            ==> alpha_of(format) == Some(TextureAlpha::Opaque),
        format is Other ==> alpha_of(format) is None,
{
}

/// The pixel in a row and a column is read that many strides and that many
/// pixels behind the offset; one that is not in the pool is empty.
pub proof fn law_pixel_is_read_at_its_place(
    before: Seq<u8>,
    pixel: Seq<u8>,
    after: Seq<u8>,
    stride: int,
    format: Format,
    y: int,
    x: int,
    offset: int,
)
    requires
        pixel.len() == 4,
        before.len() == offset + y * stride + x * 4,
    ensures
        format !is Other ==> wanted_pixel(before + pixel + after, offset, stride, format, y, x)
            == bgra_of(format, pixel)->0,
        wanted_pixel(before, offset, stride, format, y, x) == seq![0u8, 0u8, 0u8, 0u8],
{
    let pool = before + pixel + after;
    let from = offset + y * stride + x * 4;
    assert(pool.subrange(from, from + 4) =~= pixel);
}

/// A buffer is sound just where it has a size, where a row is no longer than
/// its stride, and where its last pixel is in the pool.
pub proof fn law_buffer_lies_in_its_pool(data: BufferData, pool: int)
    requires
        data.width <= 536870911,
    ensures
        buffer_is_sound(data, pool) <==> data.width > 0 && data.height > 0 && data.stride > 0
            && data.offset >= 0 && data.width * 4 <= data.stride && data.offset + (data.height - 1)
            * data.stride + (data.width - 1) * 4 + 4 <= pool,
{
}

// ---------------------------------------------------------------------------
// Windows of surfaces
// ---------------------------------------------------------------------------
/// A window is its own: a toplevel that is attached to nothing and pops up from
/// nothing.
pub proof fn law_toplevel_is_its_own_window(
    tree: Seq<Subsurface>,
    popups: Seq<Popup>,
    toplevels: Seq<SurfaceId>,
    surface: SurfaceId,
)
    requires
        above(tree, popups, surface) is None,
    ensures
        toplevels.contains(surface) ==> window_of(tree, popups, toplevels, surface) == Some(surface),
        !toplevels.contains(surface) ==> window_of(tree, popups, toplevels, surface) is None,
{
    law_top_is_reached(tree, popups, surface, 0);
}

/// What is attached to a surface, or pops up from it, is in the same window.
pub proof fn law_child_is_in_the_same_window(
    tree: Seq<Subsurface>,
    popups: Seq<Popup>,
    toplevels: Seq<SurfaceId>,
    surface: SurfaceId,
    parent: SurfaceId,
)
    requires
        above(tree, popups, surface) == Some(parent),
        window_of(tree, popups, toplevels, parent) is Some,
    ensures
        window_of(tree, popups, toplevels, surface) == window_of(tree, popups, toplevels, parent),
{
    let limit = (tree.len() + popups.len()) as nat;
    let top = climbed(tree, popups, parent, limit);
    assert(climbed(tree, popups, surface, limit + 1) == top);
    law_top_is_reached(tree, popups, surface, limit + 1);
}

/// A surface is above another that is attached to it, and, where nothing is
/// attached, above one that pops up from it.
pub proof fn law_parent_is_above(
    tree: Seq<Subsurface>,
    popups: Seq<Popup>,
    i: int,
    surface: SurfaceId,
    parent: SurfaceId,
)
    ensures
        0 <= i < tree.len() && tree[i].surface == surface && (forall|k: int|
            0 <= k < i ==> (#[trigger] tree[k]).surface != surface) ==> attached_to(tree, surface)
            == Some(tree[i].parent),
        (forall|k: int| 0 <= k < tree.len() ==> (#[trigger] tree[k]).surface != surface)
            ==> attached_to(tree, surface) is None,
        attached_to(tree, surface) == Some(parent) ==> above(tree, popups, surface) == Some(parent),
        attached_to(tree, surface) is None ==> above(tree, popups, surface) == popup_parent(
            popups,
            surface,
        ),
    decreases tree.len(),
{
    if tree.len() > 0 {
        let rest = tree.drop_first();
        law_parent_is_above(rest, popups, i - 1, surface, parent);
        assert forall|k: int| 0 <= k < rest.len() implies #[trigger] rest[k] == tree[k + 1] by {}
        if 0 < i < tree.len() && tree[i].surface == surface && (forall|k: int|
            0 <= k < i ==> (#[trigger] tree[k]).surface != surface) {
            assert(tree[0].surface != surface);
            assert(rest[i - 1] == tree[i]);
            assert forall|k: int| 0 <= k < i - 1 implies (#[trigger] rest[k]).surface != surface by {
                assert(tree[k + 1].surface != surface);
            }
        }
        if forall|k: int| 0 <= k < tree.len() ==> (#[trigger] tree[k]).surface != surface {
            assert(tree[0].surface != surface);
            assert forall|k: int| 0 <= k < rest.len() implies (#[trigger] rest[k]).surface
                != surface by {
                assert(tree[k + 1].surface != surface);
            }
        }
    }
}

/// A popup comes from the surface that it was made for, and from none where it
/// was made for none.
pub proof fn law_popup_comes_from_its_parent(popups: Seq<Popup>, i: int)
    requires
        0 <= i < popups.len(),
        forall|k: int| 0 <= k < i ==> (#[trigger] popups[k]).surface != popups[i].surface,
    ensures
        popup_parent(popups, popups[i].surface) == popups[i].parent,
    decreases popups.len(),
{
    if i > 0 {
        assert(popups[0].surface != popups[i].surface);
        let rest = popups.drop_first();
        assert forall|k: int| 0 <= k < i - 1 implies (#[trigger] rest[k]).surface != rest[i
            - 1].surface by {
            assert(popups[k + 1].surface != popups[i].surface);
        }
        law_popup_comes_from_its_parent(rest, i - 1);
    }
}

// ---------------------------------------------------------------------------
// Requests and messages
// ---------------------------------------------------------------------------
/// A request belongs to the window that it was made for, else to that of the
/// surface that it came from; it belongs to a window or elsewhere, and never to
/// both.
pub proof fn law_request_belongs_to_one_window(
    request: PendingFrameCallback,
    windows: Seq<(SurfaceId, SurfaceId)>,
    window: SurfaceId,
)
    ensures
        belongs(windows, window)(request) <==> !belongs_elsewhere(windows, window)(request),
        request.root_surface == Some(window) ==> belongs(windows, window)(request),
        request.root_surface is Some && request.root_surface != Some(window) ==> !belongs(
            windows,
            window,
        )(request),
        request.root_surface is None ==> (belongs(windows, window)(request) <==> window_in(
            windows,
            request.source_surface,
        ) == Some(window)),
{
}

/// A request outlives a surface that goes unless it came from that surface, or
/// was made for the window that the surface was.
pub proof fn law_requests_outlive_other_surfaces(
    request: PendingFrameCallback,
    surface: SurfaceId,
    was_toplevel: bool,
)
    ensures
        request.source_surface == surface ==> !outlives(surface, was_toplevel)(request),
        was_toplevel && request.root_surface == Some(surface) ==> !outlives(surface, was_toplevel)(
            request,
        ),
        request.source_surface != surface && request.root_surface != Some(surface) ==> outlives(
            surface,
            was_toplevel,
        )(request),
{
}

/// What is added to a list of members is in it once, and the others stay.
pub proof fn law_member_is_added_once(list: Seq<SurfaceId>, surface: SurfaceId, other: SurfaceId)
    ensures
        with_member(list, surface).contains(surface),
        list.contains(other) ==> with_member(list, surface).contains(other),
        other != surface && !list.contains(other) ==> !with_member(list, surface).contains(other),
        list.no_duplicates() ==> with_member(list, surface).no_duplicates(),
{
    let after = with_member(list, surface);
    if !list.contains(surface) {
        assert(after[list.len() as int] == surface);
        if list.contains(other) {
            let k = choose|k: int| 0 <= k < list.len() && list[k] == other;
            assert(after[k] == other);
        }
    }
}

/// A surface that goes takes its tile with it; a window leaves its output, what
/// had the focus gives it up, and a rootless session is told.
pub proof fn law_farewell_is_told(
    surface: SurfaceId,
    was_toplevel: bool,
    focused: bool,
    rootless: bool,
)
    ensures
        farewell(surface, was_toplevel, focused, rootless).contains(
            SceneMessage::RemoveTile(surface),
        ),
        farewell(surface, was_toplevel, focused, rootless).contains(
            SceneMessage::LeaveOutput(surface),
        ) <==> was_toplevel,
        farewell(surface, was_toplevel, focused, rootless).contains(
            SceneMessage::ClearKeyboardFocus,
        ) <==> focused,
        farewell(surface, was_toplevel, focused, rootless).contains(
            SceneMessage::RootlessSurfaceDestroyed(surface),
        ) <==> rootless,
        farewell(surface, was_toplevel, focused, rootless).contains(
            SceneMessage::RootlessToplevelDestroyed(surface),
        ) <==> was_toplevel && rootless,
{
    let all = farewell(surface, was_toplevel, focused, rootless);
    assert(all[0] == SceneMessage::RemoveTile(surface));
    let a: int = if was_toplevel {
        1
    } else {
        0
    };
    let b: int = if focused {
        1
    } else {
        0
    };
    if was_toplevel {
        assert(all[1] == SceneMessage::LeaveOutput(surface));
    }
    if focused {
        assert(all[1 + a] == SceneMessage::ClearKeyboardFocus);
    }
    if rootless {
        assert(all[1 + a + b] == SceneMessage::RootlessSurfaceDestroyed(surface));
    }
    if was_toplevel && rootless {
        assert(all[1 + a + b + 1] == SceneMessage::RootlessToplevelDestroyed(surface));
    }
}

/// A pointer over text, over a link, and over what can be moved or resized is
/// shown as the host shows it; one that is not known is an arrow.
pub proof fn law_cursors_are_the_host_s(icon: CursorIcon)
    ensures
        icon is Text || icon is VerticalText <==> cursor_of(icon) == HostCursor::IBeam,
        icon is Pointer <==> cursor_of(icon) == HostCursor::PointingHand,
        icon is Grabbing <==> cursor_of(icon) == HostCursor::ClosedHand,
        icon is Grab || icon is Move || icon is AllScroll <==> cursor_of(icon)
            == HostCursor::OpenHand,
        icon is Default || icon is Other <==> cursor_of(icon) == HostCursor::Arrow,
        icon is NotAllowed || icon is NoDrop <==> cursor_of(icon)
            == HostCursor::OperationNotAllowed,
        icon is NsResize || icon is NResize || icon is SResize || icon is RowResize
            <==> cursor_of(icon) == HostCursor::ResizeUpDown,
        icon is Copy <==> cursor_of(icon) == HostCursor::DragCopy,
        icon is Alias <==> cursor_of(icon) == HostCursor::DragLink,
        icon is ContextMenu <==> cursor_of(icon) == HostCursor::ContextualMenu,
        icon is EwResize || icon is EResize || icon is WResize || icon is ColResize ==> cursor_of(
            icon,
        ) == HostCursor::ResizeLeftRight,
        icon is Crosshair ==> cursor_of(icon) == HostCursor::Crosshair,
{
}

} // verus!
