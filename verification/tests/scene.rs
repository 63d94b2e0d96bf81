//! Windows, popups and frames.
use cocoa_way::presentation::PresentationMode;
use cocoa_way::scene::{
    cursor_image, decoration_mode, root_toplevel_id_for_surface, CursorIcon, DecorationMode,
    HostCursor, Popup, Scene, SceneMessage, Subsurface,
};

#[test]
fn a_popup_on_a_subsurface_belongs_to_its_window() {
    let tree = vec![Subsurface { surface: 2, parent: 1 }];
    let popups = vec![Popup { surface: 3, parent: Some(2) }, Popup { surface: 4, parent: Some(3) }];
    let toplevels = vec![1];
    for surface in 1..=4 {
        assert_eq!(
            root_toplevel_id_for_surface(&tree, &popups, &toplevels, surface),
            Some(1)
        );
    }
    assert_eq!(root_toplevel_id_for_surface(&tree, &popups, &toplevels, 9), None);
}

#[test]
fn a_window_comes_once() {
    let mut desktop = Scene::new(PresentationMode::Desktop);
    assert_eq!(
        desktop.new_toplevel(1),
        [SceneMessage::EnterOutput(1), SceneMessage::AddTile(1)]
    );
    assert!(desktop.new_toplevel(1).is_empty());
    let mut rootless = Scene::new(PresentationMode::Rootless);
    assert_eq!(
        rootless.new_toplevel(1),
        [SceneMessage::EnterOutput(1), SceneMessage::RootlessToplevelCreated(1)]
    );
    assert_eq!(rootless.rootless_dirty_surfaces, [1]);
    assert_eq!(rootless.initial_size((3, 4)), (960, 720));
    assert_eq!(desktop.initial_size((3, 4)), (3, 4));
}

#[test]
fn frames_are_handed_out_by_window() {
    let mut scene = Scene::new(PresentationMode::Rootless);
    scene.new_toplevel(1);
    scene.new_toplevel(2);
    scene.commit(Some(1), vec![(1, 10)]);
    scene.commit(Some(2), vec![(2, 20)]);
    scene.commit(None, vec![(5, 30)]);
    assert_eq!(scene.commit_counter, 3);
    assert_eq!(scene.take_frame_callbacks_for(Some(1), &vec![(5, 1)]), [10, 30]);
    assert_eq!(scene.take_frame_callbacks_for(None, &vec![]), [20]);
    assert!(scene.pending_frame_callbacks.is_empty());
}

#[test]
fn a_popup_that_is_placed_anew_is_drawn_again() {
    let mut scene = Scene::new(PresentationMode::Desktop);
    scene.new_popup(Popup { surface: 7, parent: None }, true);
    scene.needs_redraw = false;
    scene.reposition_request();
    assert!(scene.needs_redraw);
    assert_eq!(scene.popups.len(), 1);
}

#[test]
fn nothing_of_a_destroyed_window_stays() {
    let mut scene = Scene::new(PresentationMode::Rootless);
    scene.new_toplevel(1);
    scene.new_popup(Popup { surface: 1, parent: None }, true);
    scene.new_popup(Popup { surface: 7, parent: None }, false);
    scene.commit(Some(1), vec![(1, 10), (6, 60)]);
    scene.keyboard_focus = Some(1);
    scene.drag = Some(1);
    scene.start_drag_request = Some(1);
    scene.positions.push((1, (0, 0)));
    assert_eq!(
        scene.destroyed(1),
        [
            SceneMessage::RemoveTile(1),
            SceneMessage::LeaveOutput(1),
            SceneMessage::ClearKeyboardFocus,
            SceneMessage::RootlessSurfaceDestroyed(1),
            SceneMessage::RootlessToplevelDestroyed(1),
        ]
    );
    assert!(scene.toplevels.is_empty());
    assert!(scene.popups.is_empty());
    assert!(scene.positions.is_empty());
    assert!(scene.pending_frame_callbacks.is_empty());
    assert!(scene.rootless_dirty_surfaces.is_empty());
    assert_eq!((scene.drag, scene.start_drag_request, scene.keyboard_focus), (None, None, None));
}

#[test]
fn windows_without_a_desktop_ask_the_host() {
    let mut rootless = Scene::new(PresentationMode::Rootless);
    assert_eq!(rootless.move_request(4), Some(SceneMessage::RootlessBeginMove(4)));
    assert_eq!(rootless.minimize_request(4), Some(SceneMessage::RootlessMinimize(4)));
    assert_eq!(rootless.title_changed(4), Some(SceneMessage::RootlessToplevelTitleChanged(4)));
    assert_eq!(
        rootless.maximize_request(4, true),
        SceneMessage::RootlessMaximize { surface: 4, maximized: true }
    );
    assert_eq!(
        rootless.fullscreen_request(4, false),
        SceneMessage::RootlessFullscreen { surface: 4, fullscreen: false }
    );
    let mut desktop = Scene::new(PresentationMode::Desktop);
    assert_eq!(desktop.move_request(4), None);
    assert_eq!(desktop.start_drag_request, Some(4));
    assert_eq!(desktop.minimize_request(4), None);
    assert_eq!(desktop.maximize_request(4, true), SceneMessage::Maximize(true));
    assert_eq!(desktop.fullscreen_request(4, true), SceneMessage::Fullscreen(true));
}

#[test]
fn decorations_follow_the_presentation() {
    assert_eq!(
        decoration_mode(PresentationMode::Rootless, None),
        DecorationMode::ServerSide
    );
    assert_eq!(cursor_image(CursorIcon::Text), HostCursor::IBeam);
    assert_eq!(cursor_image(CursorIcon::Other), HostCursor::Arrow);
}
