//! The surfaces of the compositor: which window a surface belongs to, which
//! windows are to be drawn again, and what is told about them.
use vstd::prelude::*;

use crate::presentation::PresentationMode;

verus! {

/// The identity of a surface.
pub type SurfaceId = u64;

/// A popup and the surface that it belongs to, while that is known.
#[derive(Debug, Clone, Copy, PartialEq, Eq, Structural)]
pub struct Popup {
    pub surface: SurfaceId,
    pub parent: Option<SurfaceId>,
}

/// A part of a surface tree: a surface and the one that it is attached to.
#[derive(Debug, Clone, Copy, PartialEq, Eq, Structural)]
pub struct Subsurface {
    pub surface: SurfaceId,
    pub parent: SurfaceId,
}

/// A request to be told of the next frame.
#[derive(Debug, Clone, Copy, PartialEq, Eq, Structural)]
pub struct PendingFrameCallback {
    /// The window that the request belongs to, where it was known when the
    /// request came.
    pub root_surface: Option<SurfaceId>,
    pub source_surface: SurfaceId,
    pub callback: u64,
}

/// Something that happens outside of the scene.
#[derive(Debug, Clone, Copy, PartialEq, Eq, Structural)]
pub enum SceneMessage {
    EnterOutput(SurfaceId),
    LeaveOutput(SurfaceId),
    AddTile(SurfaceId),
    RemoveTile(SurfaceId),
    ClearKeyboardFocus,
    Maximize(bool),
    Fullscreen(bool),
    RootlessToplevelCreated(SurfaceId),
    RootlessToplevelDestroyed(SurfaceId),
    RootlessSurfaceDestroyed(SurfaceId),
    RootlessToplevelTitleChanged(SurfaceId),
    RootlessBeginMove(SurfaceId),
    RootlessMinimize(SurfaceId),
    RootlessMaximize { surface: SurfaceId, maximized: bool },
    RootlessFullscreen { surface: SurfaceId, fullscreen: bool },
}

// ---------------------------------------------------------------------------
// The window of a surface
// ---------------------------------------------------------------------------
pub open spec fn attached_to(tree: Seq<Subsurface>, surface: SurfaceId) -> Option<SurfaceId>
    decreases tree.len(),
{
    if tree.len() == 0 {
        None
    } else if tree.first().surface == surface {
        Some(tree.first().parent)
    } else {
        attached_to(tree.drop_first(), surface)
    }
}

pub open spec fn popup_parent(popups: Seq<Popup>, surface: SurfaceId) -> Option<SurfaceId>
    decreases popups.len(),
{
    if popups.len() == 0 {
        None
    } else if popups.first().surface == surface {
        popups.first().parent
    } else {
        popup_parent(popups.drop_first(), surface)
    }
}

/// The surface above a surface: the one that it is attached to, else, for a
/// popup, the one that it belongs to.
pub open spec fn above(tree: Seq<Subsurface>, popups: Seq<Popup>, surface: SurfaceId) -> Option<
    SurfaceId,
> {
    match attached_to(tree, surface) {
        Some(parent) => Some(parent),
        None => popup_parent(popups, surface),
    }
}

/// The surface that is reached by going up some number of times, or before that
/// where nothing is above.
pub open spec fn climbed(
    tree: Seq<Subsurface>,
    popups: Seq<Popup>,
    surface: SurfaceId,
    times: nat,
) -> SurfaceId
    decreases times,
{
    if times == 0 {
        surface
    } else {
        match above(tree, popups, surface) {
            None => surface,
            Some(parent) => climbed(tree, popups, parent, (times - 1) as nat),
        }
    }
}

/// The window that a surface belongs to: the surface at the top, where that is
/// a window.
pub open spec fn window_of(
    tree: Seq<Subsurface>,
    popups: Seq<Popup>,
    toplevels: Seq<SurfaceId>,
    surface: SurfaceId,
) -> Option<SurfaceId> {
    let top = climbed(tree, popups, surface, (tree.len() + popups.len()) as nat);
    if above(tree, popups, top) is None && toplevels.contains(top) {
        Some(top)
    } else {
        None
    }
}

fn attached_parent(tree: &Vec<Subsurface>, surface: SurfaceId) -> (result: Option<SurfaceId>)
    ensures
        result == attached_to(tree@, surface),
{
    assert(tree@.skip(0) == tree@);
    for i in 0..tree.len()
        invariant
            attached_to(tree@, surface) == attached_to(tree@.skip(i as int), surface),
    {
        assert(tree@.skip(i as int).drop_first() == tree@.skip(i + 1));
        if tree[i].surface == surface {
            return Some(tree[i].parent);
        }
    }
    None
}

fn popup_owner(popups: &Vec<Popup>, surface: SurfaceId) -> (result: Option<SurfaceId>)
    ensures
        result == popup_parent(popups@, surface),
{
    assert(popups@.skip(0) == popups@);
    for i in 0..popups.len()
        invariant
            popup_parent(popups@, surface) == popup_parent(popups@.skip(i as int), surface),
    {
        assert(popups@.skip(i as int).drop_first() == popups@.skip(i + 1));
        if popups[i].surface == surface {
            return popups[i].parent;
        }
    }
    None
}

fn holds(surfaces: &Vec<SurfaceId>, surface: SurfaceId) -> (result: bool)
    ensures
        result == surfaces@.contains(surface),
{
    for i in 0..surfaces.len()
        invariant
            forall|j: int| 0 <= j < i ==> surfaces@[j] != surface,
    {
        if surfaces[i] == surface {
            assert(surfaces@[i as int] == surface);
            return true;
        }
    }
    false
}

// Going up a second time from where one has come.
proof fn lemma_climbed_further(
    tree: Seq<Subsurface>,
    popups: Seq<Popup>,
    surface: SurfaceId,
    first: nat,
    second: nat,
)
    ensures
        climbed(tree, popups, surface, first + second) == climbed(
            tree,
            popups,
            climbed(tree, popups, surface, first),
            second,
        ),
    decreases first,
{
    if first > 0 {
        match above(tree, popups, surface) {
            None => {},
            Some(parent) => {
                lemma_climbed_further(tree, popups, parent, (first - 1) as nat, second);
            },
        }
    }
}

// The surfaces above which there is another.
spec fn children(tree: Seq<Subsurface>, popups: Seq<Popup>) -> Seq<SurfaceId> {
    tree.map_values(|part: Subsurface| part.surface) + popups.map_values(
        |popup: Popup| popup.surface,
    )
}

proof fn lemma_child_is_listed(tree: Seq<Subsurface>, popups: Seq<Popup>, surface: SurfaceId)
    requires
        above(tree, popups, surface) is Some,
    ensures
        children(tree, popups).contains(surface),
{
    let listed = children(tree, popups);
    if attached_to(tree, surface) is Some {
        let i = lemma_attached_at(tree, surface);
        assert(listed[i] == surface);
    } else {
        let i = lemma_popup_at(popups, surface);
        assert(listed[tree.len() + i] == surface);
    }
}

proof fn lemma_attached_at(tree: Seq<Subsurface>, surface: SurfaceId) -> (i: int)
    requires
        attached_to(tree, surface) is Some,
    ensures
        0 <= i < tree.len(),
        tree[i].surface == surface,
    decreases tree.len(),
{
    if tree.first().surface == surface {
        0
    } else {
        lemma_attached_at(tree.drop_first(), surface) + 1
    }
}

proof fn lemma_popup_at(popups: Seq<Popup>, surface: SurfaceId) -> (i: int)
    requires
        popup_parent(popups, surface) is Some,
    ensures
        0 <= i < popups.len(),
        popups[i].surface == surface,
    decreases popups.len(),
{
    if popups.first().surface == surface {
        0
    } else {
        lemma_popup_at(popups.drop_first(), surface) + 1
    }
}

// The surfaces on the way up.
spec fn way(tree: Seq<Subsurface>, popups: Seq<Popup>, surface: SurfaceId, times: nat) -> Seq<
    SurfaceId,
> {
    Seq::new(times, |i: int| climbed(tree, popups, surface, i as nat))
}

/// Going up ends where the number of times that `window_of` goes up allows it
/// to, if it ends at all: where some number of times leads to a surface with
/// nothing above, `window_of` finds that surface.
pub proof fn law_top_is_reached(
    tree: Seq<Subsurface>,
    popups: Seq<Popup>,
    surface: SurfaceId,
    times: nat,
)
    requires
        above(tree, popups, climbed(tree, popups, surface, times)) is None,
    ensures
        climbed(tree, popups, surface, (tree.len() + popups.len()) as nat) == climbed(
            tree,
            popups,
            surface,
            times,
        ),
    decreases times,
{
    let limit = (tree.len() + popups.len()) as nat;
    if times <= limit {
        lemma_climbed_further(tree, popups, surface, times, (limit - times) as nat);
    } else if above(tree, popups, climbed(tree, popups, surface, (times - 1) as nat)) is None {
        law_top_is_reached(tree, popups, surface, (times - 1) as nat);
        lemma_climbed_further(tree, popups, surface, (times - 1) as nat, 1);
    } else {
        // More surfaces on the way than can have one above: one comes twice,
        // and the way never ends.
        let path = way(tree, popups, surface, times);
        assert forall|i: int| 0 <= i < times implies above(tree, popups, #[trigger] path[i]) is Some
            && children(tree, popups).contains(path[i]) by {
            if above(tree, popups, path[i]) is None {
                lemma_climbed_further(
                    tree,
                    popups,
                    surface,
                    i as nat,
                    (times - 1 - i) as nat,
                );
            }
            lemma_child_is_listed(tree, popups, path[i]);
        }
        assert(path.no_duplicates()) by {
            assert forall|i: int, j: int| 0 <= i < j < path.len() implies path[i] != path[j] by {
                if path[i] == path[j] {
                    // As many times again as are left after the second visit
                    // lead from the first to the top, before the end.
                    let left = (times - j) as nat;
                    lemma_climbed_further(tree, popups, surface, j as nat, left);
                    lemma_climbed_further(tree, popups, surface, i as nat, left);
                    assert(j as nat + left == times);
                    let early = (i + left) as nat;
                    assert(climbed(tree, popups, surface, early) == climbed(
                        tree,
                        popups,
                        surface,
                        times,
                    ));
                    assert(path[early as int] == climbed(tree, popups, surface, early));
                }
            }
        }
        let listed = children(tree, popups);
        path.unique_seq_to_set();
        listed.lemma_cardinality_of_set();
        assert(path.to_set().subset_of(listed.to_set()));
        vstd::set_lib::lemma_len_subset(path.to_set(), listed.to_set());
        assert(listed.len() == limit);
        assert(path.len() == times);
    }
}

/// The window that a surface belongs to. A surface above which no top is ever
/// reached belongs to none.
pub fn root_toplevel_id_for_surface(
    tree: &Vec<Subsurface>,
    popups: &Vec<Popup>,
    toplevels: &Vec<SurfaceId>,
    surface: SurfaceId,
) -> (result: Option<SurfaceId>)
    requires
        tree@.len() + popups@.len() <= usize::MAX,
    ensures
        result == window_of(tree@, popups@, toplevels@, surface),
{
    let limit: usize = tree.len() + popups.len();
    let mut top: SurfaceId = surface;
    let mut left: usize = limit;
    loop
        invariant
            left <= limit,
            limit == tree@.len() + popups@.len(),
            climbed(tree@, popups@, surface, limit as nat) == climbed(
                tree@,
                popups@,
                top,
                left as nat,
            ),
        decreases left,
    {
        let parent = match attached_parent(tree, top) {
            Some(parent) => Some(parent),
            None => popup_owner(popups, top),
        };
        match parent {
            None => {
                return if holds(toplevels, top) {
                    Some(top)
                } else {
                    None
                };
            },
            Some(parent) => {
                if left == 0 {
                    return None;
                }
                top = parent;
                left = left - 1;
            },
        }
    }
}

// ---------------------------------------------------------------------------
// The scene
// ---------------------------------------------------------------------------
/// What the compositor knows of its surfaces.
#[derive(Debug)]
pub struct Scene {
    pub presentation: PresentationMode,
    pub toplevels: Vec<SurfaceId>,
    pub popups: Vec<Popup>,
    pub positions: Vec<(SurfaceId, (i32, i32))>,
    pub pending_frame_callbacks: Vec<PendingFrameCallback>,
    /// The windows that changed since the last frame, each once.
    pub rootless_dirty_surfaces: Vec<SurfaceId>,
    pub drag: Option<SurfaceId>,
    pub start_drag_request: Option<SurfaceId>,
    pub keyboard_focus: Option<SurfaceId>,
    pub needs_redraw: bool,
    pub commit_counter: u64,
}

/// The callbacks of the requests.
pub open spec fn callbacks_of(pending: Seq<PendingFrameCallback>) -> Seq<u64> {
    pending.map_values(|request: PendingFrameCallback| request.callback)
}

/// The window of a request, in a table of what the windows of the surfaces that
/// are alive are now: what was known when it came, else the window of its
/// surface.
pub open spec fn request_window(
    request: PendingFrameCallback,
    windows: Seq<(SurfaceId, SurfaceId)>,
) -> Option<SurfaceId> {
    match request.root_surface {
        Some(root) => Some(root),
        None => window_in(windows, request.source_surface),
    }
}

pub open spec fn window_in(windows: Seq<(SurfaceId, SurfaceId)>, surface: SurfaceId) -> Option<
    SurfaceId,
>
    decreases windows.len(),
{
    if windows.len() == 0 {
        None
    } else if windows.first().0 == surface {
        Some(windows.first().1)
    } else {
        window_in(windows.drop_first(), surface)
    }
}

/// Whether a request belongs to a window.
pub open spec fn belongs(
    windows: Seq<(SurfaceId, SurfaceId)>,
    window: SurfaceId,
) -> spec_fn(PendingFrameCallback) -> bool {
    |request: PendingFrameCallback| request_window(request, windows) == Some(window)
}

pub open spec fn belongs_elsewhere(
    windows: Seq<(SurfaceId, SurfaceId)>,
    window: SurfaceId,
) -> spec_fn(PendingFrameCallback) -> bool {
    |request: PendingFrameCallback| request_window(request, windows) != Some(window)
}

/// The requests that outlive a surface: those of other surfaces and, where the
/// surface was a window, of other windows.
pub open spec fn outlives(surface: SurfaceId, was_toplevel: bool) -> spec_fn(
    PendingFrameCallback,
) -> bool {
    |request: PendingFrameCallback|
        request.source_surface != surface && !(was_toplevel && request.root_surface == Some(
            surface,
        ))
}

pub open spec fn other_than(surface: SurfaceId) -> spec_fn(SurfaceId) -> bool {
    |id: SurfaceId| id != surface
}

pub open spec fn other_popup(surface: SurfaceId) -> spec_fn(Popup) -> bool {
    |popup: Popup| popup.surface != surface
}

pub open spec fn other_position(surface: SurfaceId) -> spec_fn((SurfaceId, (i32, i32))) -> bool {
    |position: (SurfaceId, (i32, i32))| position.0 != surface
}

/// A list with one more member, unless it has it.
pub open spec fn with_member(list: Seq<SurfaceId>, surface: SurfaceId) -> Seq<SurfaceId> {
    if list.contains(surface) {
        list
    } else {
        list.push(surface)
    }
}

/// What is told of a surface that is gone.
pub open spec fn farewell(
    surface: SurfaceId,
    was_toplevel: bool,
    focused: bool,
    rootless: bool,
) -> Seq<SceneMessage> {
    seq![SceneMessage::RemoveTile(surface)] + (if was_toplevel {
        seq![SceneMessage::LeaveOutput(surface)]
    } else {
        Seq::empty()
    }) + (if focused {
        seq![SceneMessage::ClearKeyboardFocus]
    } else {
        Seq::empty()
    }) + (if rootless {
        seq![SceneMessage::RootlessSurfaceDestroyed(surface)]
    } else {
        Seq::empty()
    }) + (if was_toplevel && rootless {
        seq![SceneMessage::RootlessToplevelDestroyed(surface)]
    } else {
        Seq::empty()
    })
}

proof fn lemma_filter_keeps_distinct(list: Seq<SurfaceId>, pred: spec_fn(SurfaceId) -> bool)
    requires
        list.no_duplicates(),
    ensures
        list.filter(pred).no_duplicates(),
        forall|x: SurfaceId| list.filter(pred).contains(x) ==> list.contains(x),
    decreases list.len(),
{
    reveal(Seq::filter);
    if list.len() > 0 {
        let front = list.drop_last();
        lemma_filter_keeps_distinct(front, pred);
        assert(list == front.push(list.last()));
        assert(!front.contains(list.last()));
        assert forall|x: SurfaceId| list.filter(pred).contains(x) implies list.contains(x) by {
            if front.filter(pred).contains(x) {
                assert(front.contains(x));
                let i = choose|i: int| 0 <= i < front.len() && front[i] == x;
                assert(list[i] == x);
            } else {
                assert(list[list.len() - 1] == x);
            }
        }
    }
}

fn without_surface(list: &Vec<SurfaceId>, surface: SurfaceId) -> (result: Vec<SurfaceId>)
    ensures
        result@ == list@.filter(other_than(surface)),
{
    let mut result: Vec<SurfaceId> = Vec::new();
    assert(list@.take(0).filter(other_than(surface)) == Seq::<SurfaceId>::empty()) by {
        reveal(Seq::filter);
    }
    for i in 0..list.len()
        invariant
            result@ == list@.take(i as int).filter(other_than(surface)),
    {
        reveal(Seq::filter);
        assert(list@.take(i + 1).drop_last() == list@.take(i as int));
        if list[i] != surface {
            result.push(list[i]);
        }
    }
    assert(list@.take(list@.len() as int) == list@);
    result
}

fn without_popup(list: &Vec<Popup>, surface: SurfaceId) -> (result: Vec<Popup>)
    ensures
        result@ == list@.filter(other_popup(surface)),
{
    let mut result: Vec<Popup> = Vec::new();
    assert(list@.take(0).filter(other_popup(surface)) == Seq::<Popup>::empty()) by {
        reveal(Seq::filter);
    }
    for i in 0..list.len()
        invariant
            result@ == list@.take(i as int).filter(other_popup(surface)),
    {
        reveal(Seq::filter);
        assert(list@.take(i + 1).drop_last() == list@.take(i as int));
        if list[i].surface != surface {
            result.push(list[i]);
        }
    }
    assert(list@.take(list@.len() as int) == list@);
    result
}

fn without_position(list: &Vec<(SurfaceId, (i32, i32))>, surface: SurfaceId) -> (result: Vec<
    (SurfaceId, (i32, i32)),
>)
    ensures
        result@ == list@.filter(other_position(surface)),
{
    let mut result: Vec<(SurfaceId, (i32, i32))> = Vec::new();
    assert(list@.take(0).filter(other_position(surface)) == Seq::<(
        SurfaceId,
        (i32, i32),
    )>::empty()) by {
        reveal(Seq::filter);
    }
    for i in 0..list.len()
        invariant
            result@ == list@.take(i as int).filter(other_position(surface)),
    {
        reveal(Seq::filter);
        assert(list@.take(i + 1).drop_last() == list@.take(i as int));
        if list[i].0 != surface {
            result.push(list[i]);
        }
    }
    assert(list@.take(list@.len() as int) == list@);
    result
}

fn without_requests(list: &Vec<PendingFrameCallback>, surface: SurfaceId, was_toplevel: bool) -> (
    result: Vec<PendingFrameCallback>)
    ensures
        result@ == list@.filter(outlives(surface, was_toplevel)),
{
    let mut result: Vec<PendingFrameCallback> = Vec::new();
    assert(list@.take(0).filter(outlives(surface, was_toplevel)) == Seq::<
        PendingFrameCallback,
    >::empty()) by {
        reveal(Seq::filter);
    }
    for i in 0..list.len()
        invariant
            result@ == list@.take(i as int).filter(outlives(surface, was_toplevel)),
    {
        reveal(Seq::filter);
        assert(list@.take(i + 1).drop_last() == list@.take(i as int));
        let of_window = was_toplevel && list[i].root_surface == Some(surface);
        if list[i].source_surface != surface && !of_window {
            result.push(list[i]);
        }
    }
    assert(list@.take(list@.len() as int) == list@);
    result
}

fn known_window(windows: &Vec<(SurfaceId, SurfaceId)>, surface: SurfaceId) -> (result: Option<
    SurfaceId,
>)
    ensures
        result == window_in(windows@, surface),
{
    assert(windows@.skip(0) == windows@);
    for i in 0..windows.len()
        invariant
            window_in(windows@, surface) == window_in(windows@.skip(i as int), surface),
    {
        assert(windows@.skip(i as int).drop_first() == windows@.skip(i + 1));
        if windows[i].0 == surface {
            return Some(windows[i].1);
        }
    }
    None
}

impl Scene {
    pub open spec fn well_formed(&self) -> bool {
        &&& self.toplevels@.no_duplicates()
        &&& self.rootless_dirty_surfaces@.no_duplicates()
    }

    pub fn new(presentation: PresentationMode) -> (result: Self)
        ensures
            result.well_formed(),
            result.presentation == presentation,
            result.toplevels@ == Seq::<SurfaceId>::empty(),
            result.popups@ == Seq::<Popup>::empty(),
            result.positions@ == Seq::<(SurfaceId, (i32, i32))>::empty(),
            result.pending_frame_callbacks@ == Seq::<PendingFrameCallback>::empty(),
            result.rootless_dirty_surfaces@ == Seq::<SurfaceId>::empty(),
            result.drag is None,
            result.start_drag_request is None,
            result.keyboard_focus is None,
            result.needs_redraw,
            result.commit_counter == 0,
    {
        Scene {
            presentation,
            toplevels: Vec::new(),
            popups: Vec::new(),
            positions: Vec::new(),
            pending_frame_callbacks: Vec::new(),
            rootless_dirty_surfaces: Vec::new(),
            drag: None,
            start_drag_request: None,
            keyboard_focus: None,
            needs_redraw: true,
            commit_counter: 0,
        }
    }

    /// Hands out the callbacks of the next frame: all of them, or those of one
    /// window. The others stay, in their order. `windows` says which window a
    /// surface that is alive belongs to.
    pub fn take_frame_callbacks_for(
        &mut self,
        root_surface: Option<SurfaceId>,
        windows: &Vec<(SurfaceId, SurfaceId)>,
    ) -> (result: Vec<u64>)
        ensures
            match root_surface {
                None => {
                    &&& result@ == callbacks_of(old(self).pending_frame_callbacks@)
                    &&& final(self).pending_frame_callbacks@ == Seq::<PendingFrameCallback>::empty()
                },
                Some(window) => {
                    &&& result@ == callbacks_of(
                        old(self).pending_frame_callbacks@.filter(belongs(windows@, window)),
                    )
                    &&& final(self).pending_frame_callbacks@
                        == old(self).pending_frame_callbacks@.filter(
                        belongs_elsewhere(windows@, window),
                    )
                },
            },
            final(self).presentation == old(self).presentation,
            final(self).toplevels == old(self).toplevels,
            final(self).popups == old(self).popups,
            final(self).positions == old(self).positions,
            final(self).rootless_dirty_surfaces == old(self).rootless_dirty_surfaces,
            final(self).drag == old(self).drag,
            final(self).start_drag_request == old(self).start_drag_request,
            final(self).keyboard_focus == old(self).keyboard_focus,
            final(self).needs_redraw == old(self).needs_redraw,
            final(self).commit_counter == old(self).commit_counter,
    {
        let mut selected: Vec<u64> = Vec::new();
        let mut remaining: Vec<PendingFrameCallback> = Vec::new();
        match root_surface {
            None => {
                for i in 0..self.pending_frame_callbacks.len()
                    invariant
                        selected@ == callbacks_of(self.pending_frame_callbacks@.take(i as int)),
                {
                    selected.push(self.pending_frame_callbacks[i].callback);
                    assert(selected@ == callbacks_of(
                        self.pending_frame_callbacks@.take(i + 1),
                    ));
                }
                assert(self.pending_frame_callbacks@.take(
                    self.pending_frame_callbacks@.len() as int,
                ) == self.pending_frame_callbacks@);
            },
            Some(window) => {
                let ghost pending = self.pending_frame_callbacks@;
                proof {
                    reveal(Seq::filter);
                    assert(callbacks_of(pending.take(0).filter(belongs(windows@, window)))
                        == Seq::<u64>::empty());
                }
                for i in 0..self.pending_frame_callbacks.len()
                    invariant
                        pending == self.pending_frame_callbacks@,
                        selected@ == callbacks_of(
                            pending.take(i as int).filter(belongs(windows@, window)),
                        ),
                        remaining@ == pending.take(i as int).filter(
                            belongs_elsewhere(windows@, window),
                        ),
                {
                    reveal(Seq::filter);
                    assert(pending.take(i + 1).drop_last() == pending.take(i as int));
                    let request = self.pending_frame_callbacks[i];
                    let resolved = match request.root_surface {
                        Some(root) => Some(root),
                        None => known_window(windows, request.source_surface),
                    };
                    if resolved == Some(window) {
                        selected.push(request.callback);
                        assert(selected@ == callbacks_of(
                            pending.take(i + 1).filter(belongs(windows@, window)),
                        ));
                    } else {
                        remaining.push(request);
                    }
                }
                assert(pending.take(pending.len() as int) == pending);
            },
        }
        self.pending_frame_callbacks = remaining;
        selected
    }

    /// A surface has new contents: its requests join the others, and what shows
    /// it is to be drawn again. Without a desktop, a surface of no window shows
    /// nowhere.
    pub fn commit(&mut self, root_surface: Option<SurfaceId>, requests: Vec<(SurfaceId, u64)>)
        requires
            old(self).well_formed(),
        ensures
            final(self).well_formed(),
            final(self).pending_frame_callbacks@ == old(self).pending_frame_callbacks@ + Seq::new(
                requests@.len(),
                |i: int|
                    PendingFrameCallback {
                        root_surface,
                        source_surface: requests@[i].0,
                        callback: requests@[i].1,
                    },
            ),
            final(self).commit_counter == (if old(self).commit_counter == u64::MAX {
                u64::MAX
            } else {
                (old(self).commit_counter + 1) as u64
            }),
            final(self).needs_redraw == (old(self).needs_redraw || !(old(self).presentation
                is Rootless) || root_surface is Some),
            final(self).rootless_dirty_surfaces@ == (match root_surface {
                Some(root) if old(self).presentation is Rootless => with_member(
                    old(self).rootless_dirty_surfaces@,
                    root,
                ),
                _ => old(self).rootless_dirty_surfaces@,
            }),
            final(self).presentation == old(self).presentation,
            final(self).toplevels == old(self).toplevels,
            final(self).popups == old(self).popups,
            final(self).positions == old(self).positions,
            final(self).drag == old(self).drag,
            final(self).start_drag_request == old(self).start_drag_request,
            final(self).keyboard_focus == old(self).keyboard_focus,
    {
        let ghost before = self.pending_frame_callbacks@;
        let ghost joined = |i: int|
            PendingFrameCallback {
                root_surface,
                source_surface: requests@[i].0,
                callback: requests@[i].1,
            };
        let mut pending: Vec<PendingFrameCallback> = Vec::new();
        pending.append(&mut self.pending_frame_callbacks);
        for i in 0..requests.len()
            invariant
                pending@.len() == before.len() + i,
                pending@.take(before.len() as int) == before,
                forall|j: int|
                    0 <= j < i ==> #[trigger] pending@[before.len() + j] == (PendingFrameCallback {
                        root_surface,
                        source_surface: requests@[j].0,
                        callback: requests@[j].1,
                    }),
        {
            pending.push(
                PendingFrameCallback {
                    root_surface,
                    source_surface: requests[i].0,
                    callback: requests[i].1,
                },
            );
            assert(pending@.take(before.len() as int) == before);
        }
        assert(pending@ == before + Seq::new(requests@.len(), joined)) by {
            assert forall|k: int| 0 <= k < pending@.len() implies pending@[k] == (before + Seq::new(
                requests@.len(),
                joined,
            ))[k] by {
                if k < before.len() {
                    assert(pending@[k] == pending@.take(before.len() as int)[k]);
                } else {
                    assert(pending@[before.len() + (k - before.len())] == joined(k - before.len()));
                }
            }
        }
        self.pending_frame_callbacks = pending;
        if self.commit_counter < u64::MAX {
            self.commit_counter = self.commit_counter + 1;
        }
        if self.presentation.is_rootless() {
            if let Some(root) = root_surface {
                self.mark_dirty(root);
                self.needs_redraw = true;
            }
        } else {
            self.needs_redraw = true;
        }
    }

    fn mark_dirty(&mut self, root: SurfaceId)
        ensures
            final(self).rootless_dirty_surfaces@ == with_member(
                old(self).rootless_dirty_surfaces@,
                root,
            ),
            old(self).rootless_dirty_surfaces@.no_duplicates()
                ==> final(self).rootless_dirty_surfaces@.no_duplicates(),
            final(self).presentation == old(self).presentation,
            final(self).toplevels == old(self).toplevels,
            final(self).popups == old(self).popups,
            final(self).positions == old(self).positions,
            final(self).pending_frame_callbacks == old(self).pending_frame_callbacks,
            final(self).drag == old(self).drag,
            final(self).start_drag_request == old(self).start_drag_request,
            final(self).keyboard_focus == old(self).keyboard_focus,
            final(self).needs_redraw == old(self).needs_redraw,
            final(self).commit_counter == old(self).commit_counter,
    {
        if !holds(&self.rootless_dirty_surfaces, root) {
            self.rootless_dirty_surfaces.push(root);
        }
    }

    /// A surface is gone: nothing of it stays, and what is told of it is
    /// returned.
    pub fn destroyed(&mut self, surface: SurfaceId) -> (result: Vec<SceneMessage>)
        requires
            old(self).well_formed(),
        ensures
            final(self).well_formed(),
            ({
                let was_toplevel = old(self).toplevels@.contains(surface);
                &&& result@ == farewell(
                    surface,
                    was_toplevel,
                    old(self).keyboard_focus == Some(surface),
                    old(self).presentation is Rootless,
                )
                &&& final(self).pending_frame_callbacks@
                    == old(self).pending_frame_callbacks@.filter(outlives(surface, was_toplevel))
                &&& final(self).rootless_dirty_surfaces@ == (if was_toplevel {
                    old(self).rootless_dirty_surfaces@.filter(other_than(surface))
                } else {
                    old(self).rootless_dirty_surfaces@
                })
            }),
            final(self).toplevels@ == old(self).toplevels@.filter(other_than(surface)),
            final(self).popups@ == old(self).popups@.filter(other_popup(surface)),
            final(self).positions@ == old(self).positions@.filter(other_position(surface)),
            final(self).drag == (if old(self).drag == Some(surface) {
                None
            } else {
                old(self).drag
            }),
            final(self).start_drag_request == (if old(self).start_drag_request == Some(surface) {
                None
            } else {
                old(self).start_drag_request
            }),
            final(self).keyboard_focus == (if old(self).keyboard_focus == Some(surface) {
                None
            } else {
                old(self).keyboard_focus
            }),
            final(self).needs_redraw,
            final(self).presentation == old(self).presentation,
            final(self).commit_counter == old(self).commit_counter,
    {
        let mut messages: Vec<SceneMessage> = Vec::new();
        let was_toplevel = holds(&self.toplevels, surface);
        messages.push(SceneMessage::RemoveTile(surface));
        proof {
            lemma_filter_keeps_distinct(self.toplevels@, other_than(surface));
            lemma_filter_keeps_distinct(self.rootless_dirty_surfaces@, other_than(surface));
        }
        self.toplevels = without_surface(&self.toplevels, surface);
        self.popups = without_popup(&self.popups, surface);
        self.positions = without_position(&self.positions, surface);
        self.pending_frame_callbacks =
        without_requests(&self.pending_frame_callbacks, surface, was_toplevel);
        if was_toplevel {
            messages.push(SceneMessage::LeaveOutput(surface));
            self.rootless_dirty_surfaces = without_surface(&self.rootless_dirty_surfaces, surface);
        }
        if self.drag == Some(surface) {
            self.drag = None;
        }
        if self.start_drag_request == Some(surface) {
            self.start_drag_request = None;
        }
        if self.keyboard_focus == Some(surface) {
            self.keyboard_focus = None;
            messages.push(SceneMessage::ClearKeyboardFocus);
        }
        self.needs_redraw = true;
        if self.presentation.is_rootless() {
            messages.push(SceneMessage::RootlessSurfaceDestroyed(surface));
        }
        if was_toplevel && self.presentation.is_rootless() {
            messages.push(SceneMessage::RootlessToplevelDestroyed(surface));
        }
        messages
    }

    /// A window has come. What is told of it is returned; a window that is known
    /// changes nothing.
    pub fn new_toplevel(&mut self, surface: SurfaceId) -> (result: Vec<SceneMessage>)
        requires
            old(self).well_formed(),
        ensures
            final(self).well_formed(),
            final(self).toplevels@ == with_member(old(self).toplevels@, surface),
            ({
                let known = old(self).toplevels@.contains(surface);
                &&& result@ == (if known {
                    Seq::empty()
                } else if old(self).presentation is Rootless {
                    seq![
                        SceneMessage::EnterOutput(surface),
                        SceneMessage::RootlessToplevelCreated(surface),
                    ]
                } else {
                    seq![SceneMessage::EnterOutput(surface), SceneMessage::AddTile(surface)]
                })
                &&& final(self).rootless_dirty_surfaces@ == (if !known && old(self).presentation
                    is Rootless {
                    with_member(old(self).rootless_dirty_surfaces@, surface)
                } else {
                    old(self).rootless_dirty_surfaces@
                })
                &&& final(self).needs_redraw == (old(self).needs_redraw || !known)
            }),
            final(self).presentation == old(self).presentation,
            final(self).popups == old(self).popups,
            final(self).positions == old(self).positions,
            final(self).pending_frame_callbacks == old(self).pending_frame_callbacks,
            final(self).drag == old(self).drag,
            final(self).start_drag_request == old(self).start_drag_request,
            final(self).keyboard_focus == old(self).keyboard_focus,
            final(self).commit_counter == old(self).commit_counter,
    {
        let mut messages: Vec<SceneMessage> = Vec::new();
        if !holds(&self.toplevels, surface) {
            self.toplevels.push(surface);
            messages.push(SceneMessage::EnterOutput(surface));
            if self.presentation.is_rootless() {
                self.mark_dirty(surface);
                messages.push(SceneMessage::RootlessToplevelCreated(surface));
            } else {
                messages.push(SceneMessage::AddTile(surface));
            }
            self.needs_redraw = true;
        }
        messages
    }

    /// The size that a new window is asked to have; on a desktop, that of the
    /// desktop.
    pub fn initial_size(&self, desktop: (i32, i32)) -> (result: (i32, i32))
        ensures
            result == (if self.presentation is Rootless {
                (960i32, 720i32)
            } else {
                desktop
            }),
    {
        if self.presentation.is_rootless() {
            (960, 720)
        } else {
            desktop
        }
    }

    /// A popup has come and has been told its place; one that could not be told
    /// is not kept.
    pub fn new_popup(&mut self, popup: Popup, configured: bool)
        requires
            old(self).well_formed(),
        ensures
            final(self).well_formed(),
            final(self).popups@ == (if configured {
                old(self).popups@.push(popup)
            } else {
                old(self).popups@
            }),
            final(self).needs_redraw == (old(self).needs_redraw || configured),
            final(self).presentation == old(self).presentation,
            final(self).toplevels == old(self).toplevels,
            final(self).positions == old(self).positions,
            final(self).pending_frame_callbacks == old(self).pending_frame_callbacks,
            final(self).rootless_dirty_surfaces == old(self).rootless_dirty_surfaces,
            final(self).drag == old(self).drag,
            final(self).start_drag_request == old(self).start_drag_request,
            final(self).keyboard_focus == old(self).keyboard_focus,
            final(self).commit_counter == old(self).commit_counter,
    {
        if configured {
            self.popups.push(popup);
            self.needs_redraw = true;
        }
    }

    /// A popup is placed anew and has been told so: it is drawn where it is now.
    pub fn reposition_request(&mut self)
        requires
            old(self).well_formed(),
        ensures
            final(self).well_formed(),
            final(self).needs_redraw,
            final(self).popups == old(self).popups,
            final(self).presentation == old(self).presentation,
            final(self).toplevels == old(self).toplevels,
            final(self).positions == old(self).positions,
            final(self).pending_frame_callbacks == old(self).pending_frame_callbacks,
            final(self).rootless_dirty_surfaces == old(self).rootless_dirty_surfaces,
            final(self).drag == old(self).drag,
            final(self).start_drag_request == old(self).start_drag_request,
            final(self).keyboard_focus == old(self).keyboard_focus,
            final(self).commit_counter == old(self).commit_counter,
    {
        self.needs_redraw = true;
    }

    /// A window asks to be moved: by the desktop, or by the host.
    pub fn move_request(&mut self, surface: SurfaceId) -> (result: Option<SceneMessage>)
        requires
            old(self).well_formed(),
        ensures
            final(self).well_formed(),
            if old(self).presentation is Rootless {
                result == Some(SceneMessage::RootlessBeginMove(surface))
                    && final(self).start_drag_request == old(self).start_drag_request
            } else {
                result is None && final(self).start_drag_request == Some(surface)
            },
            final(self).presentation == old(self).presentation,
            final(self).toplevels == old(self).toplevels,
            final(self).popups == old(self).popups,
            final(self).positions == old(self).positions,
            final(self).pending_frame_callbacks == old(self).pending_frame_callbacks,
            final(self).rootless_dirty_surfaces == old(self).rootless_dirty_surfaces,
            final(self).drag == old(self).drag,
            final(self).keyboard_focus == old(self).keyboard_focus,
            final(self).needs_redraw == old(self).needs_redraw,
            final(self).commit_counter == old(self).commit_counter,
    {
        if self.presentation.is_rootless() {
            Some(SceneMessage::RootlessBeginMove(surface))
        } else {
            self.start_drag_request = Some(surface);
            None
        }
    }

    /// A window asks to be maximized, or no longer to be.
    pub fn maximize_request(&self, surface: SurfaceId, maximized: bool) -> (result: SceneMessage)
        ensures
            result == (if self.presentation is Rootless {
                SceneMessage::RootlessMaximize { surface, maximized }
            } else {
                SceneMessage::Maximize(maximized)
            }),
    {
        if self.presentation.is_rootless() {
            SceneMessage::RootlessMaximize { surface, maximized }
        } else {
            SceneMessage::Maximize(maximized)
        }
    }

    /// A window asks to fill the screen, or no longer to.
    pub fn fullscreen_request(&self, surface: SurfaceId, fullscreen: bool) -> (result: SceneMessage)
        ensures
            result == (if self.presentation is Rootless {
                SceneMessage::RootlessFullscreen { surface, fullscreen }
            } else {
                SceneMessage::Fullscreen(fullscreen)
            }),
    {
        if self.presentation.is_rootless() {
            SceneMessage::RootlessFullscreen { surface, fullscreen }
        } else {
            SceneMessage::Fullscreen(fullscreen)
        }
    }

    /// Whether a window that is maximized or fills the screen is told a size:
    /// only on a desktop, which knows one.
    pub fn sizes_windows(&self) -> (result: bool)
        ensures
            result == !(self.presentation is Rootless),
    {
        !self.presentation.is_rootless()
    }

    /// A window asks to be minimized, which a desktop does not do.
    pub fn minimize_request(&self, surface: SurfaceId) -> (result: Option<SceneMessage>)
        ensures
            result == (if self.presentation is Rootless {
                Some(SceneMessage::RootlessMinimize(surface))
            } else {
                None
            }),
    {
        if self.presentation.is_rootless() {
            Some(SceneMessage::RootlessMinimize(surface))
        } else {
            None
        }
    }

    /// A window has another title, which a desktop does not show.
    pub fn title_changed(&self, surface: SurfaceId) -> (result: Option<SceneMessage>)
        ensures
            result == (if self.presentation is Rootless {
                Some(SceneMessage::RootlessToplevelTitleChanged(surface))
            } else {
                None
            }),
    {
        if self.presentation.is_rootless() {
            Some(SceneMessage::RootlessToplevelTitleChanged(surface))
        } else {
            None
        }
    }
}

/// Once a surface is gone, nothing in the scene speaks of it: it is no window,
/// no popup and not being dragged, it has no place, and no request of it or, as
/// a window, for it is left.
pub proof fn law_destroyed_is_forgotten(before: Scene, surface: SurfaceId)
    ensures
        !before.toplevels@.filter(other_than(surface)).contains(surface),
        forall|i: int|
            0 <= i < before.popups@.filter(other_popup(surface)).len() ==> (
            #[trigger] before.popups@.filter(other_popup(surface))[i]).surface != surface,
        forall|i: int|
            0 <= i < before.positions@.filter(other_position(surface)).len() ==> (
            #[trigger] before.positions@.filter(other_position(surface))[i]).0 != surface,
        forall|i: int|
            0 <= i < before.pending_frame_callbacks@.filter(
                outlives(surface, before.toplevels@.contains(surface)),
            ).len() ==> ({
                let request = #[trigger] before.pending_frame_callbacks@.filter(
                    outlives(surface, before.toplevels@.contains(surface)),
                )[i];
                &&& request.source_surface != surface
                &&& before.toplevels@.contains(surface) ==> request.root_surface != Some(surface)
            }),
        !before.rootless_dirty_surfaces@.filter(other_than(surface)).contains(surface),
{
    broadcast use Seq::lemma_filter_pred;

    let requests = before.pending_frame_callbacks@.filter(
        outlives(surface, before.toplevels@.contains(surface)),
    );
    assert forall|i: int| 0 <= i < requests.len() implies outlives(
        surface,
        before.toplevels@.contains(surface),
    )(#[trigger] requests[i]) by {}
    let popups = before.popups@.filter(other_popup(surface));
    assert forall|i: int| 0 <= i < popups.len() implies other_popup(surface)(
        #[trigger] popups[i],
    ) by {}
    let positions = before.positions@.filter(other_position(surface));
    assert forall|i: int| 0 <= i < positions.len() implies other_position(surface)(
        #[trigger] positions[i],
    ) by {}
}

// ---------------------------------------------------------------------------
// Decorations and cursors
// ---------------------------------------------------------------------------
/// Who draws the frame of a window.
#[derive(Debug, Clone, Copy, PartialEq, Eq, Structural)]
pub enum DecorationMode {
    ClientSide,
    ServerSide,
}

/// Who draws the frame of a window that asks for one or the other, or for
/// neither: without a desktop always the host.
pub fn decoration_mode(presentation: PresentationMode, asked: Option<DecorationMode>) -> (result:
    DecorationMode)
    ensures
        result == (match asked {
            Some(mode) if !(presentation is Rootless) => mode,
            _ => DecorationMode::ServerSide,
        }),
{
    match asked {
        Some(mode) => if presentation.is_rootless() {
            DecorationMode::ServerSide
        } else {
            mode
        },
        None => DecorationMode::ServerSide,
    }
}

/// The cursor that a guest asks for.
#[derive(Debug, Clone, Copy, PartialEq, Eq, Structural)]
pub enum CursorIcon {
    Default,
    Text,
    VerticalText,
    Pointer,
    Move,
    AllScroll,
    Grab,
    Grabbing,
    Crosshair,
    NotAllowed,
    NoDrop,
    EResize,
    WResize,
    EwResize,
    ColResize,
    NResize,
    SResize,
    NsResize,
    RowResize,
    NeResize,
    SwResize,
    NeswResize,
    NwResize,
    SeResize,
    NwseResize,
    Copy,
    Alias,
    ContextMenu,
    ZoomIn,
    ZoomOut,
    Other,
}

/// The cursors of the host.
#[derive(Debug, Clone, Copy, PartialEq, Eq, Structural)]
pub enum HostCursor {
    Arrow,
    IBeam,
    PointingHand,
    OpenHand,
    ClosedHand,
    Crosshair,
    OperationNotAllowed,
    ResizeLeftRight,
    ResizeUpDown,
    DragCopy,
    DragLink,
    ContextualMenu,
}

/// The cursor of the host that stands for one that a guest asks for.
pub open spec fn cursor_of(icon: CursorIcon) -> HostCursor {
    match icon {
        CursorIcon::Text | CursorIcon::VerticalText => HostCursor::IBeam,
        CursorIcon::Pointer => HostCursor::PointingHand,
        CursorIcon::Move | CursorIcon::AllScroll | CursorIcon::Grab => HostCursor::OpenHand,
        CursorIcon::Grabbing => HostCursor::ClosedHand,
        CursorIcon::Crosshair | CursorIcon::ZoomIn | CursorIcon::ZoomOut => HostCursor::Crosshair,
        CursorIcon::NotAllowed | CursorIcon::NoDrop => HostCursor::OperationNotAllowed,
        CursorIcon::NResize
        | CursorIcon::SResize
        | CursorIcon::NsResize
        | CursorIcon::RowResize => HostCursor::ResizeUpDown,
        CursorIcon::EResize
        | CursorIcon::WResize
        | CursorIcon::EwResize
        | CursorIcon::ColResize
        | CursorIcon::NeResize
        | CursorIcon::SwResize
        | CursorIcon::NeswResize
        | CursorIcon::NwResize
        | CursorIcon::SeResize
        | CursorIcon::NwseResize => HostCursor::ResizeLeftRight,
        CursorIcon::Copy => HostCursor::DragCopy,
        CursorIcon::Alias => HostCursor::DragLink,
        CursorIcon::ContextMenu => HostCursor::ContextualMenu,
        CursorIcon::Default | CursorIcon::Other => HostCursor::Arrow,
    }
}

pub fn cursor_image(icon: CursorIcon) -> (result: HostCursor)
    ensures
        result == cursor_of(icon),
{
    match icon {
        CursorIcon::Text | CursorIcon::VerticalText => HostCursor::IBeam,
        CursorIcon::Pointer => HostCursor::PointingHand,
        CursorIcon::Move | CursorIcon::AllScroll => HostCursor::OpenHand,
        CursorIcon::Grab => HostCursor::OpenHand,
        CursorIcon::Grabbing => HostCursor::ClosedHand,
        CursorIcon::Crosshair => HostCursor::Crosshair,
        CursorIcon::NotAllowed | CursorIcon::NoDrop => HostCursor::OperationNotAllowed,
        CursorIcon::EResize
        | CursorIcon::WResize
        | CursorIcon::EwResize
        | CursorIcon::ColResize => HostCursor::ResizeLeftRight,
        CursorIcon::NResize
        | CursorIcon::SResize
        | CursorIcon::NsResize
        | CursorIcon::RowResize => HostCursor::ResizeUpDown,
        CursorIcon::NeResize | CursorIcon::SwResize | CursorIcon::NeswResize => {
            HostCursor::ResizeLeftRight
        },
        CursorIcon::NwResize | CursorIcon::SeResize | CursorIcon::NwseResize => {
            HostCursor::ResizeLeftRight
        },
        CursorIcon::Copy => HostCursor::DragCopy,
        CursorIcon::Alias => HostCursor::DragLink,
        CursorIcon::ContextMenu => HostCursor::ContextualMenu,
        CursorIcon::ZoomIn | CursorIcon::ZoomOut => HostCursor::Crosshair,
        CursorIcon::Default | CursorIcon::Other => HostCursor::Arrow,
    }
}

} // verus!
