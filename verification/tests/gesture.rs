use panorama_tool::control_state::{ControlState, DewarpShader, MouseTool};
use panorama_tool::gesture::{
    handle_event, next_photo_selection, Action, ButtonState, InputEvent, KeyboardKey, MouseButton,
    PhotoPose,
};

type P = (f64, f64);
type W = (f64, f64);
type State = ControlState<P, W, f32>;
type Event = InputEvent<P, W>;
type Pose = PhotoPose<W, f32>;

fn poses(n: usize) -> Vec<Pose> {
    let mut v: Vec<Pose> = Vec::new();
    for i in 0..n {
        v.push(Pose { translate: (10.0 * i as f64, 20.0 * i as f64), rotate: 5.0 * i as f32 });
    }
    v
}

fn press(button: MouseButton, position: P, world: W, hits: Vec<bool>) -> Event {
    InputEvent::MouseClick { state: ButtonState::Pressed, button, position, world, hits, handled: false }
}

fn release(button: MouseButton, position: P, world: W, hits: Vec<bool>) -> Event {
    InputEvent::MouseClick {
        state: ButtonState::Released,
        button,
        position,
        world,
        hits,
        handled: false,
    }
}

const CAMERA: W = (0.5, -0.5);

#[test]
fn select_photo_cycles_test() {
    // Three overlapping photos: consecutive presses select 0, 1, 2, then
    // wrap back to 0.
    let mut state = State::default();
    assert_eq!(state.active_mouse_tool, MouseTool::SelectPhoto);
    let photos = poses(3);

    for expected in [0usize, 1, 2, 0, 1] {
        let ev = press(MouseButton::Left, (3.0, 4.0), (1.0, 1.0), vec![true, true, true]);
        let out = handle_event(&mut state, &ev, &photos, CAMERA);
        assert_eq!(state.selected_photo_index, Some(expected));
        assert!(!out.redraw);
        assert!(out.actions.is_empty());
    }
}

#[test]
fn select_photo_miss_deselects_test() {
    let mut state = State::default();
    let photos = poses(3);
    state.selected_photo_index = Some(1);

    let ev = press(MouseButton::Left, (3.0, 4.0), (99.0, 99.0), vec![false, false, false]);
    handle_event(&mut state, &ev, &photos, CAMERA);
    assert_eq!(state.selected_photo_index, None);

    // An empty photo list never errors: it just leaves no selection.
    let none: Vec<Pose> = Vec::new();
    let ev = press(MouseButton::Left, (3.0, 4.0), (99.0, 99.0), Vec::new());
    handle_event(&mut state, &ev, &none, CAMERA);
    assert_eq!(state.selected_photo_index, None);
}

#[test]
fn select_photo_restarts_when_selected_not_hit_test() {
    // The selected photo is not under the cursor: the first hit is selected.
    let mut state = State::default();
    let photos = poses(3);
    state.selected_photo_index = Some(0);

    let ev = press(MouseButton::Left, (3.0, 4.0), (1.0, 1.0), vec![false, true, true]);
    handle_event(&mut state, &ev, &photos, CAMERA);
    assert_eq!(state.selected_photo_index, Some(1));
}

#[test]
fn next_photo_selection_test() {
    assert_eq!(next_photo_selection(&vec![false, true, true], Some(1)), Some(2));
    assert_eq!(next_photo_selection(&vec![false, true, true], Some(2)), Some(1));
    assert_eq!(next_photo_selection(&vec![false, true, false], Some(1)), Some(1));
    assert_eq!(next_photo_selection(&vec![false, false, false], Some(1)), None);
    assert_eq!(next_photo_selection(&Vec::new(), None), None);
}

#[test]
fn pan_gesture_lifecycle_test() {
    // The middle button always pans, whatever the tool: a press captures the
    // pointer and camera, motion recomputes from the press-time values, and
    // a release ends the gesture.
    let mut state = State::default();
    let photos = poses(1);

    let ev = press(MouseButton::Middle, (40.0, 50.0), (1.0, 1.0), vec![false]);
    let out = handle_event(&mut state, &ev, &photos, CAMERA);
    assert!(!out.redraw);
    let pan = state.active_pan.as_ref().expect("press starts a pan");
    assert_eq!(pan.mouse_start, (40.0, 50.0));
    assert_eq!(pan.camera_start, CAMERA);

    let ev = InputEvent::MouseMotion { position: (47.0, 53.0), world: (2.0, 2.0), handled: false };
    let out = handle_event(&mut state, &ev, &photos, CAMERA);
    assert!(out.redraw);
    assert_eq!(out.actions.len(), 1);
    match &out.actions[0] {
        Action::PanCamera { camera_start, mouse_start, mouse_current } => {
            assert_eq!(*camera_start, CAMERA);
            assert_eq!(*mouse_start, (40.0, 50.0));
            assert_eq!(*mouse_current, (47.0, 53.0));
        },
        _ => panic!("expected a pan action"),
    }

    let ev = release(MouseButton::Middle, (47.0, 53.0), (2.0, 2.0), vec![false]);
    handle_event(&mut state, &ev, &photos, CAMERA);
    assert!(state.active_pan.is_none());

    // Motion with no live gesture is a silent no-op.
    let ev = InputEvent::MouseMotion { position: (48.0, 54.0), world: (2.1, 2.1), handled: false };
    let out = handle_event(&mut state, &ev, &photos, CAMERA);
    assert!(!out.redraw);
    assert!(out.actions.is_empty());
}

#[test]
fn drag_photo_respects_selection_test() {
    // With a photo selected, only that photo is draggable.
    let mut state = State::default();
    let photos = poses(3);
    state.selected_photo_index = Some(1);

    // The selected photo is not under the cursor: nothing is dragged.
    let ev = press(MouseButton::Right, (5.0, 6.0), (1.0, 1.0), vec![true, false, true]);
    handle_event(&mut state, &ev, &photos, CAMERA);
    assert!(state.active_drag.is_none());

    // The selected photo is under the cursor: it is dragged.
    let ev = press(MouseButton::Right, (5.0, 6.0), (1.0, 1.0), vec![true, true, true]);
    handle_event(&mut state, &ev, &photos, CAMERA);
    let drag = state.active_drag.as_ref().expect("press starts a drag");
    assert_eq!(drag.photo_index, 1);
    assert_eq!(drag.photo_start, (10.0, 20.0));
    assert_eq!(drag.mouse_start, (5.0, 6.0));

    let ev = release(MouseButton::Right, (9.0, 9.0), (1.0, 1.0), vec![true, true, true]);
    handle_event(&mut state, &ev, &photos, CAMERA);
    assert!(state.active_drag.is_none());

    // With no selection, the first photo under the cursor is dragged.
    state.selected_photo_index = None;
    let ev = press(MouseButton::Right, (5.0, 6.0), (1.0, 1.0), vec![false, false, true]);
    handle_event(&mut state, &ev, &photos, CAMERA);
    let drag = state.active_drag.as_ref().expect("press starts a drag");
    assert_eq!(drag.photo_index, 2);
    assert_eq!(drag.photo_start, (20.0, 40.0));
}

#[test]
fn drag_photo_motion_action_test() {
    let mut state = State::default();
    let photos = poses(2);

    let ev = press(MouseButton::Right, (5.0, 6.0), (1.0, 1.0), vec![true, true]);
    handle_event(&mut state, &ev, &photos, CAMERA);

    let ev = InputEvent::MouseMotion { position: (8.0, 2.0), world: (1.5, 1.5), handled: false };
    let out = handle_event(&mut state, &ev, &photos, CAMERA);
    assert!(out.redraw);
    assert_eq!(out.actions.len(), 1);
    match &out.actions[0] {
        Action::SetPhotoTranslation { photo_index, photo_start, mouse_start, mouse_current } => {
            assert_eq!(*photo_index, 0);
            assert_eq!(*photo_start, (0.0, 0.0));
            assert_eq!(*mouse_start, (5.0, 6.0));
            assert_eq!(*mouse_current, (8.0, 2.0));
        },
        _ => panic!("expected a drag action"),
    }
}

#[test]
fn rotate_drag_needs_pivot_test() {
    // A rotate-drag motion with no recorded pivot is a no-op, not an error.
    let mut state = State::default();
    state.active_mouse_tool = MouseTool::DragToRotate;
    state.selected_photo_index = Some(1);
    let photos = poses(2);

    let ev = press(MouseButton::Left, (5.0, 6.0), (3.0, 3.0), vec![true, true]);
    handle_event(&mut state, &ev, &photos, CAMERA);
    let rd = state.active_rotate_drag.as_ref().expect("press starts a rotate drag");
    assert_eq!(rd.photo_index, 1);
    assert_eq!(rd.mouse_start, (3.0, 3.0));
    assert_eq!(rd.mouse_coords, (3.0, 3.0));
    assert_eq!(rd.translate_start, (10.0, 20.0));
    assert_eq!(rd.rotate_start, 5.0);

    let ev = InputEvent::MouseMotion { position: (6.0, 6.0), world: (4.0, 4.0), handled: false };
    let out = handle_event(&mut state, &ev, &photos, CAMERA);
    assert!(!out.redraw);
    assert!(out.actions.is_empty());
    assert_eq!(state.active_rotate_drag.as_ref().unwrap().mouse_coords, (3.0, 3.0));
}

#[test]
fn rotate_drag_with_pivot_test() {
    let mut state = State::default();
    state.selected_photo_index = Some(0);
    let photos = poses(2);

    // Place the pivot with the rotation-point tool.
    state.active_mouse_tool = MouseTool::RotationPoint;
    let ev = press(MouseButton::Left, (1.0, 1.0), (7.0, 8.0), vec![true, true]);
    handle_event(&mut state, &ev, &photos, CAMERA);
    assert_eq!(state.active_rotation_point.as_ref().unwrap().point, (7.0, 8.0));

    // Start the rotate drag.
    state.active_mouse_tool = MouseTool::DragToRotate;
    let ev = press(MouseButton::Left, (5.0, 6.0), (3.0, 3.0), vec![true, true]);
    handle_event(&mut state, &ev, &photos, CAMERA);

    // Motion re-derives the rotation from the press-time pose.
    let ev = InputEvent::MouseMotion { position: (6.0, 6.0), world: (4.0, 5.0), handled: false };
    let out = handle_event(&mut state, &ev, &photos, CAMERA);
    assert!(out.redraw);
    assert_eq!(out.actions.len(), 1);
    match &out.actions[0] {
        Action::RotatePhoto {
            photo_index,
            translate_start,
            rotate_start,
            world_start,
            world_current,
            pivot,
        } => {
            assert_eq!(*photo_index, 0);
            assert_eq!(*translate_start, (0.0, 0.0));
            assert_eq!(*rotate_start, 0.0);
            assert_eq!(*world_start, (3.0, 3.0));
            assert_eq!(*world_current, (4.0, 5.0));
            assert_eq!(*pivot, (7.0, 8.0));
        },
        _ => panic!("expected a rotate action"),
    }
    assert_eq!(state.active_rotate_drag.as_ref().unwrap().mouse_coords, (4.0, 5.0));

    // Release ends the gesture; the pivot stays.
    let ev = release(MouseButton::Left, (6.0, 6.0), (4.0, 5.0), vec![true, true]);
    handle_event(&mut state, &ev, &photos, CAMERA);
    assert!(state.active_rotate_drag.is_none());
    assert!(state.active_rotation_point.is_some());
}

#[test]
fn rotate_drag_without_selection_test() {
    let mut state = State::default();
    state.active_mouse_tool = MouseTool::DragToRotate;
    let photos = poses(2);

    let ev = press(MouseButton::Left, (5.0, 6.0), (3.0, 3.0), vec![true, true]);
    handle_event(&mut state, &ev, &photos, CAMERA);
    assert!(state.active_rotate_drag.is_none());
}

#[test]
fn rotate_all_photos_test() {
    let mut state = State::default();
    state.active_mouse_tool = MouseTool::DragToRotateAllPhotos;
    state.active_rotation_point =
        Some(panorama_tool::control_state::RotationPoint { point: (7.0, 8.0) });
    let photos = poses(3);

    // A press creates one record per photo, all sharing the same start.
    let ev = press(MouseButton::Left, (5.0, 6.0), (3.0, 3.0), vec![false, false, false]);
    handle_event(&mut state, &ev, &photos, CAMERA);
    assert_eq!(state.active_rotate_all_photos_drag.len(), 3);
    for (i, rd) in state.active_rotate_all_photos_drag.iter().enumerate() {
        assert_eq!(rd.photo_index, i);
        assert_eq!(rd.mouse_start, (3.0, 3.0));
        assert_eq!(rd.translate_start, (10.0 * i as f64, 20.0 * i as f64));
        assert_eq!(rd.rotate_start, 5.0 * i as f32);
    }

    // Motion emits one rotate action per photo, sharing pivot and pointer.
    let ev = InputEvent::MouseMotion { position: (6.0, 6.0), world: (4.0, 5.0), handled: false };
    let out = handle_event(&mut state, &ev, &photos, CAMERA);
    assert!(out.redraw);
    assert_eq!(out.actions.len(), 3);
    for (i, action) in out.actions.iter().enumerate() {
        match action {
            Action::RotatePhoto { photo_index, world_start, world_current, pivot, .. } => {
                assert_eq!(*photo_index, i);
                assert_eq!(*world_start, (3.0, 3.0));
                assert_eq!(*world_current, (4.0, 5.0));
                assert_eq!(*pivot, (7.0, 8.0));
            },
            _ => panic!("expected rotate actions"),
        }
    }
    for rd in &state.active_rotate_all_photos_drag {
        assert_eq!(rd.mouse_coords, (4.0, 5.0));
    }

    // Release clears every record.
    let ev = release(MouseButton::Left, (6.0, 6.0), (4.0, 5.0), vec![false, false, false]);
    handle_event(&mut state, &ev, &photos, CAMERA);
    assert!(state.active_rotate_all_photos_drag.is_empty());
}

#[test]
fn wheel_zoom_action_test() {
    let mut state = State::default();
    let photos = poses(1);

    let ev = InputEvent::MouseWheel { scroll_up: true, position: (12.0, 34.0), handled: false };
    let out = handle_event(&mut state, &ev, &photos, CAMERA);
    assert!(out.redraw);
    assert_eq!(out.actions.len(), 1);
    match &out.actions[0] {
        Action::AnchoredZoom { position, zoom_in } => {
            assert_eq!(*position, (12.0, 34.0));
            assert!(*zoom_in);
        },
        _ => panic!("expected a zoom action"),
    }

    let ev = InputEvent::MouseWheel { scroll_up: false, position: (12.0, 34.0), handled: false };
    let out = handle_event(&mut state, &ev, &photos, CAMERA);
    match &out.actions[0] {
        Action::AnchoredZoom { zoom_in, .. } => assert!(!*zoom_in),
        _ => panic!("expected a zoom action"),
    }

    // A wheel event consumed by the UI does nothing.
    let ev = InputEvent::MouseWheel { scroll_up: true, position: (12.0, 34.0), handled: true };
    let out = handle_event(&mut state, &ev, &photos, CAMERA);
    assert!(!out.redraw);
    assert!(out.actions.is_empty());
}

#[test]
fn handled_click_skip_test() {
    let mut state = State::default();
    let photos = poses(1);

    // A press consumed by the UI is skipped.
    let ev = InputEvent::MouseClick {
        state: ButtonState::Pressed,
        button: MouseButton::Middle,
        position: (1.0, 2.0),
        world: (0.0, 0.0),
        hits: vec![false],
        handled: true,
    };
    handle_event(&mut state, &ev, &photos, CAMERA);
    assert!(state.active_pan.is_none());

    // A release consumed by the UI still ends the gesture.
    let ev = press(MouseButton::Middle, (1.0, 2.0), (0.0, 0.0), vec![false]);
    handle_event(&mut state, &ev, &photos, CAMERA);
    assert!(state.active_pan.is_some());
    let ev = InputEvent::MouseClick {
        state: ButtonState::Released,
        button: MouseButton::Middle,
        position: (1.0, 2.0),
        world: (0.0, 0.0),
        hits: vec![false],
        handled: true,
    };
    handle_event(&mut state, &ev, &photos, CAMERA);
    assert!(state.active_pan.is_none());

    // A handled motion event is skipped.
    let ev = press(MouseButton::Middle, (1.0, 2.0), (0.0, 0.0), vec![false]);
    handle_event(&mut state, &ev, &photos, CAMERA);
    let ev = InputEvent::MouseMotion { position: (3.0, 3.0), world: (0.1, 0.1), handled: true };
    let out = handle_event(&mut state, &ev, &photos, CAMERA);
    assert!(!out.redraw);
    assert!(out.actions.is_empty());
}

#[test]
fn tool_switch_orphans_gesture_test() {
    // Switching tools mid-gesture leaves the old record in place; a later
    // release with the old tool's handler clears it, and the release under
    // the new tool touches only that tool's record.
    let mut state = State::default();
    state.active_mouse_tool = MouseTool::PanView;
    let photos = poses(1);

    let ev = press(MouseButton::Left, (1.0, 2.0), (0.0, 0.0), vec![false]);
    handle_event(&mut state, &ev, &photos, CAMERA);
    assert!(state.active_pan.is_some());

    state.active_mouse_tool = MouseTool::DragPhoto;
    let ev = release(MouseButton::Left, (1.0, 2.0), (0.0, 0.0), vec![false]);
    handle_event(&mut state, &ev, &photos, CAMERA);
    // The pan record is orphaned, not corrupted.
    assert!(state.active_pan.is_some());
    assert!(state.active_drag.is_none());

    // A middle-button release still ends the orphaned pan.
    let ev = release(MouseButton::Middle, (1.0, 2.0), (0.0, 0.0), vec![false]);
    handle_event(&mut state, &ev, &photos, CAMERA);
    assert!(state.active_pan.is_none());
}

#[test]
fn key_cycles_shader_test() {
    let mut state = State::default();
    let photos = poses(1);
    assert_eq!(state.dewarp_shader, DewarpShader::Dewarp2);

    let s_press =
        InputEvent::Key { state: ButtonState::Pressed, kind: KeyboardKey::S, handled: false };
    let out = handle_event(&mut state, &s_press, &photos, CAMERA);
    assert!(out.redraw);
    assert_eq!(state.dewarp_shader, DewarpShader::NoMorph);
    handle_event(&mut state, &s_press, &photos, CAMERA);
    assert_eq!(state.dewarp_shader, DewarpShader::Dewarp1);
    handle_event(&mut state, &s_press, &photos, CAMERA);
    assert_eq!(state.dewarp_shader, DewarpShader::Dewarp2);

    // Releases, other keys, and handled key events change nothing.
    let ev = InputEvent::Key { state: ButtonState::Released, kind: KeyboardKey::S, handled: false };
    let out = handle_event(&mut state, &ev, &photos, CAMERA);
    assert!(!out.redraw);
    assert_eq!(state.dewarp_shader, DewarpShader::Dewarp2);
    let ev =
        InputEvent::Key { state: ButtonState::Pressed, kind: KeyboardKey::Other, handled: false };
    handle_event(&mut state, &ev, &photos, CAMERA);
    assert_eq!(state.dewarp_shader, DewarpShader::Dewarp2);
    let ev = InputEvent::Key { state: ButtonState::Pressed, kind: KeyboardKey::S, handled: true };
    handle_event(&mut state, &ev, &photos, CAMERA);
    assert_eq!(state.dewarp_shader, DewarpShader::Dewarp2);

    // Shader toggling never interferes with gesture state.
    assert!(state.active_pan.is_none());
    assert!(state.active_drag.is_none());
    assert!(state.active_rotate_drag.is_none());
}
