//! The interaction state: which UI mode and mouse tool are active, which
//! photo is selected, and the at-most-one live gesture record of each kind.
//!
//! Coordinate payloads are opaque type parameters: `P` is a pixel-space
//! pointer position, `W` a world-space position, and `A` a rotation angle.
//! A gesture record is created by a qualifying press event and destroyed by
//! the matching release event; the all-photos rotate is the one gesture that
//! holds one record per photo simultaneously.

use vstd::prelude::*;

verus! {

/// Top-level UI mode.
#[derive(Debug, PartialEq, Eq, Structural)]
pub enum UiMode {
    Browse,
    Edit,
}

/// Display-only shader selection, cycled by a key press; it never interferes
/// with gesture state.
#[derive(Debug, PartialEq, Eq, Structural)]
pub enum DewarpShader {
    NoMorph,
    Dewarp1,
    Dewarp2,
}

/// A live view pan: the pointer's pixel position and the camera's world
/// position, both captured at press time.
pub struct Pan<P, W> {
    pub mouse_start: P,
    pub camera_start: W,
}

/// A live single-photo drag: the pointer's pixel position and the photo's
/// translation, both captured at press time.
pub struct Drag<P, W> {
    pub mouse_start: P,
    pub photo_start: W,
    pub photo_index: usize,
}

/// The world point around which rotate-drag gestures pivot.
pub struct RotationPoint<W> {
    pub point: W,
}

/// A live rotate drag for one photo: the pointer's world position at press
/// time and now, and the photo's translation and rotation at press time, so
/// that every motion event re-derives the rotation from the gesture's start
/// instead of accumulating per-frame error.
pub struct RotateDrag<W, A> {
    pub mouse_start: W,
    pub mouse_coords: W,
    pub translate_start: W,
    pub rotate_start: A,
    pub photo_index: usize,
}

/// The mutually exclusive tool bound to the primary mouse button.
#[derive(Debug, PartialEq, Eq, Structural)]
pub enum MouseTool {
    PanView,
    DragPhoto,
    SelectPhoto,
    RotationPoint,
    DragToRotate,
    DragToRotateAllPhotos,
}

/// All interaction state: mode, tool, selection, and the live gesture
/// records.  At most one gesture record of each kind is live at a time;
/// `active_rotate_all_photos_drag` holds one record per photo while an
/// all-photos rotate is live, and is empty otherwise.
pub struct ControlState<P, W, A> {
    pub ui_mode: UiMode,
    pub dewarp_shader: DewarpShader,
    pub active_pan: Option<Pan<P, W>>,
    pub active_drag: Option<Drag<P, W>>,
    pub active_rotation_point: Option<RotationPoint<W>>,
    pub active_rotate_drag: Option<RotateDrag<W, A>>,
    pub active_rotate_all_photos_drag: Vec<RotateDrag<W, A>>,
    pub active_mouse_tool: MouseTool,
    pub selected_photo_index: Option<usize>,
    pub mouse_location_ui_text: String,
    pub photo_ui_text: String,
    pub control_points_visible: bool,
    pub photo_borders_visible: bool,
    pub alignment_mode: bool,
}

impl<P, W, A> Default for ControlState<P, W, A> {
    /// The initial interaction state: browse mode, select tool, no selection,
    /// and no live gesture of any kind.
    fn default() -> (r: ControlState<P, W, A>)
        ensures
            r.ui_mode == UiMode::Browse,
            r.dewarp_shader == DewarpShader::Dewarp2,
            r.active_pan is None,
            r.active_drag is None,
            r.active_rotation_point is None,
            r.active_rotate_drag is None,
            r.active_rotate_all_photos_drag@ == Seq::<RotateDrag<W, A>>::empty(),
            r.active_mouse_tool == MouseTool::SelectPhoto,
            r.selected_photo_index is None,
            r.mouse_location_ui_text@ == Seq::<char>::empty(),
            r.photo_ui_text@ == Seq::<char>::empty(),
            !r.control_points_visible,
            r.photo_borders_visible,
            !r.alignment_mode,
    {
        proof {
            reveal_strlit("");
        }
        ControlState {
            ui_mode: UiMode::Browse,
            dewarp_shader: DewarpShader::Dewarp2,
            active_pan: None,
            active_drag: None,
            active_rotation_point: None,
            active_rotate_drag: None,
            active_rotate_all_photos_drag: Vec::new(),
            active_mouse_tool: MouseTool::SelectPhoto,
            selected_photo_index: None,
            mouse_location_ui_text: "".to_owned(),
            photo_ui_text: "".to_owned(),
            control_points_visible: false,
            photo_borders_visible: true,
            alignment_mode: false,
        }
    }
}

} // verus!
