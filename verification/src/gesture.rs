//! The gesture processor: one step of the interaction state machine.
//!
//! Each frame the host adapts its raw input events into [`InputEvent`]
//! values — evaluating the floating-point conversions (pixel to world, photo
//! hit tests) that this crate treats as opaque — and feeds them one at a time
//! to [`handle_event`].  The step updates the [`ControlState`] and returns
//! the actions whose continuous payloads the host then evaluates and applies:
//! camera pans, photo translations and rotations, and cursor-anchored zooms.

use vstd::prelude::*;

use crate::control_state::{ControlState, DewarpShader, Drag, MouseTool, Pan, RotateDrag,
    RotationPoint};

verus! {

/// A pointer button.  The auxiliary (middle) button always pans and the
/// secondary (right) button always drags a photo; the primary button uses the
/// active tool.
#[derive(Debug, PartialEq, Eq, Structural, Copy, Clone)]
pub enum MouseButton {
    Left,
    Middle,
    Right,
}

/// Whether a button or key went down or up.
#[derive(Debug, PartialEq, Eq, Structural, Copy, Clone)]
pub enum ButtonState {
    Pressed,
    Released,
}

/// A key, reduced to what the state machine reacts to: the shader-cycling
/// key or anything else.
#[derive(Debug, PartialEq, Eq, Structural, Copy, Clone)]
pub enum KeyboardKey {
    S,
    Other,
}

/// One photo's pose, snapshotted by the host before the event is processed:
/// its translation (world center) and rotation angle.
pub struct PhotoPose<W, A> {
    pub translate: W,
    pub rotate: A,
}

/// One input event, adapted by the host.  `handled` marks an event consumed
/// by the overlay UI: such an event is skipped, except that a release still
/// ends a gesture.  For a click, `world` is the pointer's position converted
/// to world space and `hits` says for each photo whether it contains that
/// world point; for a wheel event, `scroll_up` is the delta's sign with the
/// host platform's inversion convention already applied.
pub enum InputEvent<P, W> {
    MouseClick {
        state: ButtonState,
        button: MouseButton,
        position: P,
        world: W,
        hits: Vec<bool>,
        handled: bool,
    },
    MouseMotion { position: P, world: W, handled: bool },
    MouseWheel { scroll_up: bool, position: P, handled: bool },
    Key { state: ButtonState, kind: KeyboardKey, handled: bool },
}

/// A continuous update that the host must evaluate and apply, in order.
/// Every payload is a value captured from the state machine; the formula each
/// action stands for is fixed by the protocol named on the variant.
pub enum Action<P, W, A> {
    /// Recompute the camera position from the press-time camera position and
    /// the pixel delta from `mouse_start` to `mouse_current`, never from an
    /// accumulated delta.
    PanCamera { camera_start: W, mouse_start: P, mouse_current: P },
    /// Recompute the photo's translation: its press-time value plus the
    /// pixel delta from `mouse_start` to `mouse_current` (y inverted).
    SetPhotoTranslation {
        photo_index: usize,
        photo_start: W,
        mouse_start: P,
        mouse_current: P,
    },
    /// Reset the photo to its press-time translation and rotation, then
    /// rotate it around `pivot` by the angle from `pivot→world_start` to
    /// `pivot→world_current`.
    RotatePhoto {
        photo_index: usize,
        translate_start: W,
        rotate_start: A,
        world_start: W,
        world_current: W,
        pivot: W,
    },
    /// Perform the cursor-anchored zoom protocol at `position`: add the
    /// cursor's world offset to the camera, step the zoom once in the given
    /// direction, then subtract the same screen offset under the new zoom.
    AnchoredZoom { position: P, zoom_in: bool },
}

/// What one step produced: whether a redraw is needed, and the actions for
/// the host to apply.
pub struct EventOutcome<P, W, A> {
    pub redraw: bool,
    pub actions: Vec<Action<P, W, A>>,
}

/// The first photo index at or after `start` whose hit flag is set.
pub open spec fn first_hit_from(hits: Seq<bool>, start: int) -> Option<usize>
    decreases hits.len() - start,
{
    if start < 0 || start >= hits.len() {
        None
    } else if hits[start] {
        Some(start as usize)
    } else {
        first_hit_from(hits, start + 1)
    }
}

/// The photo that a select click chooses: if the currently selected photo is
/// itself under the cursor and another photo with a higher index is too, the
/// next such photo; otherwise the first photo under the cursor; `None` when
/// no photo is under the cursor.
pub open spec fn next_selection_spec(hits: Seq<bool>, selected: Option<usize>) -> Option<usize> {
    match selected {
        Some(s) => if s < hits.len() && hits[s as int] && first_hit_from(hits, s + 1) is Some {
            first_hit_from(hits, s + 1)
        } else {
            first_hit_from(hits, 0)
        },
        None => first_hit_from(hits, 0),
    }
}

/// The photo that a drag press grabs: the selected photo if it is under the
/// cursor, no photo if a selected photo is not under the cursor, and the
/// first photo under the cursor when nothing is selected.
pub open spec fn drag_target_spec(hits: Seq<bool>, selected: Option<usize>) -> Option<usize> {
    match selected {
        Some(s) => if s < hits.len() && hits[s as int] {
            Some(s)
        } else {
            None
        },
        None => first_hit_from(hits, 0),
    }
}

/// A found hit index lies in range, carries a set flag, and is the least set
/// flag at or after `start`; and none is found exactly when no flag at or
/// after `start` is set.
pub proof fn lemma_first_hit_from(hits: Seq<bool>, start: int)
    requires
        0 <= start,
        hits.len() <= usize::MAX,
    ensures
        match first_hit_from(hits, start) {
            Some(i) => start <= i < hits.len() && hits[i as int] && forall|j: int|
                start <= j < i ==> !(#[trigger] hits[j]),
            None => forall|j: int| start <= j < hits.len() ==> !(#[trigger] hits[j]),
        },
    decreases hits.len() - start,
{
    if start >= hits.len() {
        assert(first_hit_from(hits, start) is None);
    } else if hits[start] {
        assert(first_hit_from(hits, start) == Some(start as usize));
    } else {
        lemma_first_hit_from(hits, start + 1);
        assert(first_hit_from(hits, start) == first_hit_from(hits, start + 1));
        match first_hit_from(hits, start + 1) {
            Some(i) => {
                assert(start + 1 <= i);
                assert(start <= i);
            },
            None => {},
        }
    }
}

/// Exec search for the first set hit flag at or after `start`.
fn first_hit_index_from(hits: &Vec<bool>, start: usize) -> (r: Option<usize>)
    ensures
        r == first_hit_from(hits@, start as int),
{
    let mut i: usize = start;
    while i < hits.len()
        invariant
            start <= i,
            first_hit_from(hits@, start as int) == first_hit_from(hits@, i as int),
        decreases hits@.len() - i,
    {
        if hits[i] {
            return Some(i);
        }
        i = i + 1;
    }
    None
}

/// Computes the selection that a select click leaves behind: cycles through
/// overlapping photos when the selected one is clicked again, otherwise
/// selects the first photo under the cursor, and deselects when none is.
pub fn next_photo_selection(hits: &Vec<bool>, selected: Option<usize>) -> (r: Option<usize>)
    ensures
        r == next_selection_spec(hits@, selected),
        r is Some ==> r->0 < hits@.len() && hits@[r->0 as int],
{
    proof {
        assert(hits.len() <= usize::MAX);
        lemma_first_hit_from(hits@, 0);
    }
    match selected {
        Some(s) => {
            if s < hits.len() && hits[s] {
                proof {
                    lemma_first_hit_from(hits@, s + 1);
                }
                match first_hit_index_from(hits, s + 1) {
                    Some(i) => Some(i),
                    None => first_hit_index_from(hits, 0),
                }
            } else {
                first_hit_index_from(hits, 0)
            }
        },
        None => first_hit_index_from(hits, 0),
    }
}

/// Computes which photo a drag press grabs, respecting the selection: a
/// selected photo is the only draggable one, and with no selection the first
/// photo under the cursor is grabbed.
pub fn drag_photo_target(hits: &Vec<bool>, selected: Option<usize>) -> (r: Option<usize>)
    ensures
        r == drag_target_spec(hits@, selected),
        r is Some ==> r->0 < hits@.len() && hits@[r->0 as int],
{
    proof {
        assert(hits.len() <= usize::MAX);
        lemma_first_hit_from(hits@, 0);
    }
    match selected {
        Some(s) => {
            if s < hits.len() && hits[s] {
                Some(s)
            } else {
                None
            }
        },
        None => first_hit_index_from(hits, 0),
    }
}

/// The rotate-all records created by a press: one per photo, all sharing the
/// press-time world pointer position and capturing each photo's pose.
pub open spec fn rotate_all_records_spec<W, A>(photos: Seq<PhotoPose<W, A>>, world: W) -> Seq<
    RotateDrag<W, A>,
> {
    Seq::new(
        photos.len(),
        |i: int|
            RotateDrag {
                mouse_start: world,
                mouse_coords: world,
                translate_start: photos[i].translate,
                rotate_start: photos[i].rotate,
                photo_index: i as usize,
            },
    )
}

/// The state a pan click leaves behind: a press captures the pointer and
/// camera positions, a release clears the record.
pub open spec fn pan_click_state<P, W, A>(
    s0: ControlState<P, W, A>,
    st: ButtonState,
    position: P,
    camera_position: W,
) -> ControlState<P, W, A> {
    ControlState {
        active_pan: if st == ButtonState::Pressed {
            Some(Pan { mouse_start: position, camera_start: camera_position })
        } else {
            None
        },
        ..s0
    }
}

/// The state a drag click leaves behind: a press grabs the drag target (if
/// any) and captures its translation, a release clears the record.
pub open spec fn drag_click_state<P, W, A>(
    s0: ControlState<P, W, A>,
    st: ButtonState,
    position: P,
    hits: Seq<bool>,
    photos: Seq<PhotoPose<W, A>>,
) -> ControlState<P, W, A> {
    ControlState {
        active_drag: if st == ButtonState::Pressed {
            match drag_target_spec(hits, s0.selected_photo_index) {
                Some(i) => Some(
                    Drag {
                        mouse_start: position,
                        photo_start: photos[i as int].translate,
                        photo_index: i,
                    },
                ),
                None => None,
            }
        } else {
            None
        },
        ..s0
    }
}

/// The state a select click leaves behind: a press moves the selection by
/// the cyclic rule, a release changes nothing.
pub open spec fn select_click_state<P, W, A>(
    s0: ControlState<P, W, A>,
    st: ButtonState,
    hits: Seq<bool>,
) -> ControlState<P, W, A> {
    if st == ButtonState::Pressed {
        ControlState { selected_photo_index: next_selection_spec(hits, s0.selected_photo_index), ..s0 }
    } else {
        s0
    }
}

/// The state a pivot-placing click leaves behind: a press records the world
/// pivot, a release changes nothing.
pub open spec fn rotation_point_click_state<P, W, A>(
    s0: ControlState<P, W, A>,
    st: ButtonState,
    world: W,
) -> ControlState<P, W, A> {
    if st == ButtonState::Pressed {
        ControlState { active_rotation_point: Some(RotationPoint { point: world }), ..s0 }
    } else {
        s0
    }
}

/// The state a rotate-drag click leaves behind: a press creates a record for
/// the selected photo (if any), capturing its pose and the world pointer
/// position; a release clears the record.
pub open spec fn rotate_drag_click_state<P, W, A>(
    s0: ControlState<P, W, A>,
    st: ButtonState,
    world: W,
    photos: Seq<PhotoPose<W, A>>,
) -> ControlState<P, W, A> {
    ControlState {
        active_rotate_drag: if st == ButtonState::Pressed {
            match s0.selected_photo_index {
                Some(i) => Some(
                    RotateDrag {
                        mouse_start: world,
                        mouse_coords: world,
                        translate_start: photos[i as int].translate,
                        rotate_start: photos[i as int].rotate,
                        photo_index: i,
                    },
                ),
                None => None,
            }
        } else {
            None
        },
        ..s0
    }
}

/// How a rotate-all click relates the old and new states: a press creates
/// one record per photo, a release clears them all; nothing else changes.
pub open spec fn rotate_all_click_rel<P, W, A>(
    s0: ControlState<P, W, A>,
    s1: ControlState<P, W, A>,
    st: ButtonState,
    world: W,
    photos: Seq<PhotoPose<W, A>>,
) -> bool {
    &&& s1 == (ControlState { active_rotate_all_photos_drag: s1.active_rotate_all_photos_drag, ..s0 })
    &&& s1.active_rotate_all_photos_drag@ == if st == ButtonState::Pressed {
        rotate_all_records_spec(photos, world)
    } else {
        Seq::<RotateDrag<W, A>>::empty()
    }
}

/// How any click relates the old and new states: the auxiliary button always
/// pans, the secondary button always drags, and the primary button acts
/// through the active tool.
pub open spec fn click_transition<P, W, A>(
    s0: ControlState<P, W, A>,
    s1: ControlState<P, W, A>,
    st: ButtonState,
    button: MouseButton,
    position: P,
    world: W,
    hits: Seq<bool>,
    photos: Seq<PhotoPose<W, A>>,
    camera_position: W,
) -> bool {
    match button {
        MouseButton::Middle => s1 == pan_click_state(s0, st, position, camera_position),
        MouseButton::Right => s1 == drag_click_state(s0, st, position, hits, photos),
        MouseButton::Left => match s0.active_mouse_tool {
            MouseTool::PanView => s1 == pan_click_state(s0, st, position, camera_position),
            MouseTool::DragPhoto => s1 == drag_click_state(s0, st, position, hits, photos),
            MouseTool::SelectPhoto => s1 == select_click_state(s0, st, hits),
            MouseTool::RotationPoint => s1 == rotation_point_click_state(s0, st, world),
            MouseTool::DragToRotate => s1 == rotate_drag_click_state(s0, st, world, photos),
            MouseTool::DragToRotateAllPhotos => rotate_all_click_rel(s0, s1, st, world, photos),
        },
    }
}

/// Applies a pan click: press captures the pointer and camera positions,
/// release clears the pan record.
fn pan_view_click<P: Copy, W: Copy, A>(
    state: &mut ControlState<P, W, A>,
    st: ButtonState,
    position: P,
    camera_position: W,
)
    ensures
        *final(state) == pan_click_state(*old(state), st, position, camera_position),
{
    state.active_pan = match st {
        ButtonState::Pressed => Some(Pan { mouse_start: position, camera_start: camera_position }),
        ButtonState::Released => None,
    };
}

/// Applies a drag click: press grabs the drag target and captures its
/// translation, release clears the drag record.
fn drag_photo_click<P: Copy, W: Copy, A>(
    state: &mut ControlState<P, W, A>,
    st: ButtonState,
    position: P,
    hits: &Vec<bool>,
    photos: &Vec<PhotoPose<W, A>>,
)
    requires
        hits@.len() == photos@.len(),
    ensures
        *final(state) == drag_click_state(*old(state), st, position, hits@, photos@),
{
    match st {
        ButtonState::Pressed => {
            let target = drag_photo_target(hits, state.selected_photo_index);
            state.active_drag = match target {
                Some(i) => Some(
                    Drag { mouse_start: position, photo_start: photos[i].translate, photo_index: i },
                ),
                None => None,
            };
        },
        ButtonState::Released => {
            state.active_drag = None;
        },
    }
}

/// Applies a select click: press moves the selection by the cyclic rule.
fn select_photo_click<P, W, A>(state: &mut ControlState<P, W, A>, st: ButtonState, hits: &Vec<bool>)
    ensures
        *final(state) == select_click_state(*old(state), st, hits@),
{
    if matches!(st, ButtonState::Pressed) {
        state.selected_photo_index = next_photo_selection(hits, state.selected_photo_index);
    }
}

/// Applies a pivot-placing click: press records the world pivot point.
fn rotation_point_click<P, W: Copy, A>(state: &mut ControlState<P, W, A>, st: ButtonState, world: W)
    ensures
        *final(state) == rotation_point_click_state(*old(state), st, world),
{
    if matches!(st, ButtonState::Pressed) {
        state.active_rotation_point = Some(RotationPoint { point: world });
    }
}

/// Applies a rotate-drag click: press creates the record for the selected
/// photo, release clears it.
fn rotate_drag_click<P, W: Copy, A: Copy>(
    state: &mut ControlState<P, W, A>,
    st: ButtonState,
    world: W,
    photos: &Vec<PhotoPose<W, A>>,
)
    requires
        old(state).selected_photo_index matches Some(i) ==> i < photos@.len(),
    ensures
        *final(state) == rotate_drag_click_state(*old(state), st, world, photos@),
{
    match st {
        ButtonState::Pressed => {
            state.active_rotate_drag = match state.selected_photo_index {
                Some(i) => Some(
                    RotateDrag {
                        mouse_start: world,
                        mouse_coords: world,
                        translate_start: photos[i].translate,
                        rotate_start: photos[i].rotate,
                        photo_index: i,
                    },
                ),
                None => None,
            };
        },
        ButtonState::Released => {
            state.active_rotate_drag = None;
        },
    }
}

/// Applies a rotate-all click: press creates one record per photo, all
/// sharing the press-time world pointer position; release clears them.
fn rotate_all_photos_click<P, W: Copy, A: Copy>(
    state: &mut ControlState<P, W, A>,
    st: ButtonState,
    world: W,
    photos: &Vec<PhotoPose<W, A>>,
)
    ensures
        rotate_all_click_rel(*old(state), *final(state), st, world, photos@),
{
    match st {
        ButtonState::Pressed => {
            let mut records: Vec<RotateDrag<W, A>> = Vec::new();
            let mut i: usize = 0;
            while i < photos.len()
                invariant
                    i <= photos@.len(),
                    records@.len() == i,
                    forall|j: int|
                        0 <= j < i ==> records@[j] == rotate_all_records_spec(photos@, world)[j],
                decreases photos@.len() - i,
            {
                records.push(
                    RotateDrag {
                        mouse_start: world,
                        mouse_coords: world,
                        translate_start: photos[i].translate,
                        rotate_start: photos[i].rotate,
                        photo_index: i,
                    },
                );
                i = i + 1;
            }
            proof {
                assert(records@ =~= rotate_all_records_spec(photos@, world));
            }
            state.active_rotate_all_photos_drag = records;
        },
        ButtonState::Released => {
            state.active_rotate_all_photos_drag = Vec::new();
        },
    }
}

/// The rotate records with their current-pointer field moved to `world`,
/// everything else kept.
pub open spec fn rotate_records_with_current<W, A>(
    records: Seq<RotateDrag<W, A>>,
    world: W,
) -> Seq<RotateDrag<W, A>> {
    records.map_values(|r: RotateDrag<W, A>| RotateDrag { mouse_coords: world, ..r })
}

/// Whether a motion event redraws: it does exactly when some gesture is live
/// — a pan, a drag, or a rotate drag with a recorded pivot.
pub open spec fn motion_redraw_spec<P, W, A>(s0: ControlState<P, W, A>) -> bool {
    ||| s0.active_pan is Some
    ||| s0.active_drag is Some
    ||| (s0.active_rotate_drag is Some && s0.active_rotation_point is Some)
    ||| (s0.active_rotate_all_photos_drag@.len() > 0 && s0.active_rotation_point is Some)
}

/// How a motion event relates the old and new states: each live rotate
/// record (with a recorded pivot) has its current-pointer field moved to
/// `world`; nothing else changes.
pub open spec fn motion_state_rel<P, W, A>(
    s0: ControlState<P, W, A>,
    s1: ControlState<P, W, A>,
    world: W,
) -> bool {
    &&& s1 == (ControlState {
        active_rotate_drag: s1.active_rotate_drag,
        active_rotate_all_photos_drag: s1.active_rotate_all_photos_drag,
        ..s0
    })
    &&& s1.active_rotate_drag == match (s0.active_rotate_drag, s0.active_rotation_point) {
        (Some(rd), Some(_)) => Some(RotateDrag { mouse_coords: world, ..rd }),
        (other, _) => other,
    }
    &&& s1.active_rotate_all_photos_drag@ == if s0.active_rotate_all_photos_drag@.len() > 0
        && s0.active_rotation_point is Some {
        rotate_records_with_current(s0.active_rotate_all_photos_drag@, world)
    } else {
        s0.active_rotate_all_photos_drag@
    }
}

/// The actions a motion event emits, in order: recompute the pan, recompute
/// the dragged photo's translation, then re-derive the rotation of each
/// photo under a live rotate drag from its press-time pose.
pub open spec fn motion_actions_spec<P, W, A>(
    s0: ControlState<P, W, A>,
    position: P,
    world: W,
) -> Seq<Action<P, W, A>> {
    let pan_part = match s0.active_pan {
        Some(pan) => seq![
            Action::<P, W, A>::PanCamera {
                camera_start: pan.camera_start,
                mouse_start: pan.mouse_start,
                mouse_current: position,
            },
        ],
        None => Seq::<Action<P, W, A>>::empty(),
    };
    let drag_part = match s0.active_drag {
        Some(drag) => seq![
            Action::<P, W, A>::SetPhotoTranslation {
                photo_index: drag.photo_index,
                photo_start: drag.photo_start,
                mouse_start: drag.mouse_start,
                mouse_current: position,
            },
        ],
        None => Seq::<Action<P, W, A>>::empty(),
    };
    let rotate_part = match (s0.active_rotate_drag, s0.active_rotation_point) {
        (Some(rd), Some(rp)) => seq![rotate_photo_action(rd, rp.point, world)],
        (_, _) => Seq::<Action<P, W, A>>::empty(),
    };
    let rotate_all_part = match s0.active_rotation_point {
        Some(rp) => s0.active_rotate_all_photos_drag@.map_values(
            |rd: RotateDrag<W, A>| rotate_photo_action::<P, W, A>(rd, rp.point, world),
        ),
        None => Seq::<Action<P, W, A>>::empty(),
    };
    pan_part + drag_part + rotate_part + rotate_all_part
}

/// The action that re-derives one photo's rotation from its press-time pose,
/// about `pivot`, for the pointer now at `world`.
pub open spec fn rotate_photo_action<P, W, A>(
    rd: RotateDrag<W, A>,
    pivot: W,
    world: W,
) -> Action<P, W, A> {
    Action::RotatePhoto {
        photo_index: rd.photo_index,
        translate_start: rd.translate_start,
        rotate_start: rd.rotate_start,
        world_start: rd.mouse_start,
        world_current: world,
        pivot,
    }
}

/// Applies a motion event: emits the pan, drag, and rotate actions for the
/// live gestures and brings each live rotate record's current pointer up to
/// date.
#[verifier::rlimit(60)]
fn handle_motion<P: Copy, W: Copy, A: Copy>(
    state: &mut ControlState<P, W, A>,
    position: P,
    world: W,
) -> (out: EventOutcome<P, W, A>)
    ensures
        motion_state_rel(*old(state), *final(state), world),
        out.actions@ == motion_actions_spec(*old(state), position, world),
        out.redraw == motion_redraw_spec(*old(state)),
{
    let ghost s0 = *state;
    let mut redraw = false;
    let mut actions: Vec<Action<P, W, A>> = Vec::new();

    if let Some(pan) = &state.active_pan {
        redraw = true;
        actions.push(
            Action::PanCamera {
                camera_start: pan.camera_start,
                mouse_start: pan.mouse_start,
                mouse_current: position,
            },
        );
    }

    if let Some(drag) = &state.active_drag {
        redraw = true;
        actions.push(
            Action::SetPhotoTranslation {
                photo_index: drag.photo_index,
                photo_start: drag.photo_start,
                mouse_start: drag.mouse_start,
                mouse_current: position,
            },
        );
    }

    let pivot_point = match &state.active_rotation_point {
        Some(rp) => Some(rp.point),
        None => None,
    };

    if let Some(pivot) = pivot_point {
        if state.active_rotate_drag.is_some() {
            redraw = true;
            let updated = match &state.active_rotate_drag {
                Some(rd) => {
                    actions.push(
                        Action::RotatePhoto {
                            photo_index: rd.photo_index,
                            translate_start: rd.translate_start,
                            rotate_start: rd.rotate_start,
                            world_start: rd.mouse_start,
                            world_current: world,
                            pivot,
                        },
                    );
                    Some(
                        RotateDrag {
                            mouse_start: rd.mouse_start,
                            mouse_coords: world,
                            translate_start: rd.translate_start,
                            rotate_start: rd.rotate_start,
                            photo_index: rd.photo_index,
                        },
                    )
                },
                None => None,
            };
            state.active_rotate_drag = updated;
        }
        if state.active_rotate_all_photos_drag.len() > 0 {
            redraw = true;
            let ghost prefix = actions@;
            let mut updated_records: Vec<RotateDrag<W, A>> = Vec::new();
            let mut i: usize = 0;
            while i < state.active_rotate_all_photos_drag.len()
                invariant
                    state.active_rotate_all_photos_drag@ == s0.active_rotate_all_photos_drag@,
                    i <= s0.active_rotate_all_photos_drag@.len(),
                    updated_records@.len() == i,
                    actions@.len() == prefix.len() + i,
                    actions@.take(prefix.len() as int) == prefix,
                    forall|j: int|
                        0 <= j < i ==> updated_records@[j] == rotate_records_with_current(
                            s0.active_rotate_all_photos_drag@,
                            world,
                        )[j],
                    forall|j: int|
                        0 <= j < i ==> actions@[prefix.len() + j] == rotate_photo_action::<P, W, A>(
                            s0.active_rotate_all_photos_drag@[j],
                            pivot,
                            world,
                        ),
                decreases s0.active_rotate_all_photos_drag@.len() - i,
            {
                let rd = &state.active_rotate_all_photos_drag[i];
                actions.push(
                    Action::RotatePhoto {
                        photo_index: rd.photo_index,
                        translate_start: rd.translate_start,
                        rotate_start: rd.rotate_start,
                        world_start: rd.mouse_start,
                        world_current: world,
                        pivot,
                    },
                );
                updated_records.push(
                    RotateDrag {
                        mouse_start: rd.mouse_start,
                        mouse_coords: world,
                        translate_start: rd.translate_start,
                        rotate_start: rd.rotate_start,
                        photo_index: rd.photo_index,
                    },
                );
                i = i + 1;
            }
            proof {
                assert(updated_records@ =~= rotate_records_with_current(
                    s0.active_rotate_all_photos_drag@,
                    world,
                ));
                let mapped = s0.active_rotate_all_photos_drag@.map_values(
                    |rd: RotateDrag<W, A>| rotate_photo_action::<P, W, A>(rd, pivot, world),
                );
                assert forall|k: int| 0 <= k < actions@.len() implies actions@[k] == (prefix
                    + mapped)[k] by {
                    if k < prefix.len() {
                        assert(actions@.take(prefix.len() as int)[k] == actions@[k]);
                    } else {
                        let j = k - prefix.len();
                        assert(actions@[prefix.len() + j] == rotate_photo_action::<P, W, A>(
                            s0.active_rotate_all_photos_drag@[j],
                            pivot,
                            world,
                        ));
                    }
                }
                assert(actions@ =~= prefix + mapped);
            }
            state.active_rotate_all_photos_drag = updated_records;
        }
    }

    proof {
        assert(actions@ =~= motion_actions_spec(s0, position, world));
    }
    EventOutcome { redraw, actions }
}

/// The shader after one press of the cycling key.
pub open spec fn next_dewarp_shader(d: DewarpShader) -> DewarpShader {
    match d {
        DewarpShader::NoMorph => DewarpShader::Dewarp1,
        DewarpShader::Dewarp1 => DewarpShader::Dewarp2,
        DewarpShader::Dewarp2 => DewarpShader::NoMorph,
    }
}

/// Whether the state machine skips an event that the overlay UI consumed: a
/// press is skipped, but a release is still honored so that a drag ending
/// over the UI still ends the gesture.
pub open spec fn click_skipped(st: ButtonState, handled: bool) -> bool {
    handled && st == ButtonState::Pressed
}

/// Processes one input event: updates the interaction state and returns the
/// redraw flag and the actions for the host to apply.
///
/// `photos` is the per-photo pose list snapshotted before the event;
/// `camera_position` is the camera's current world position.  A click
/// event's `hits` list must have one entry per photo, and a recorded
/// selection must be an index into `photos`.
pub fn handle_event<P: Copy, W: Copy, A: Copy>(
    state: &mut ControlState<P, W, A>,
    event: &InputEvent<P, W>,
    photos: &Vec<PhotoPose<W, A>>,
    camera_position: W,
) -> (out: EventOutcome<P, W, A>)
    requires
        *event matches InputEvent::MouseClick { hits, .. } ==> hits@.len() == photos@.len(),
        old(state).selected_photo_index matches Some(i) ==> i < photos@.len(),
    ensures
        *event matches InputEvent::MouseClick { state: st, button, position, world, hits, handled }
            ==> {
            &&& out.actions@ == Seq::<Action<P, W, A>>::empty()
            &&& !out.redraw
            &&& if click_skipped(st, handled) {
                *final(state) == *old(state)
            } else {
                click_transition(
                    *old(state),
                    *final(state),
                    st,
                    button,
                    position,
                    world,
                    hits@,
                    photos@,
                    camera_position,
                )
            }
        },
        *event matches InputEvent::MouseMotion { position, world, handled } ==> if handled {
            &&& *final(state) == *old(state)
            &&& out.actions@ == Seq::<Action<P, W, A>>::empty()
            &&& !out.redraw
        } else {
            &&& motion_state_rel(*old(state), *final(state), world)
            &&& out.actions@ == motion_actions_spec(*old(state), position, world)
            &&& out.redraw == motion_redraw_spec(*old(state))
        },
        *event matches InputEvent::MouseWheel { scroll_up, position, handled } ==> {
            &&& *final(state) == *old(state)
            &&& if handled {
                out.actions@ == Seq::<Action<P, W, A>>::empty() && !out.redraw
            } else {
                out.actions@ == seq![
                    Action::<P, W, A>::AnchoredZoom { position, zoom_in: scroll_up },
                ] && out.redraw
            }
        },
        *event matches InputEvent::Key { state: st, kind, handled } ==> {
            &&& out.actions@ == Seq::<Action<P, W, A>>::empty()
            &&& if !handled && st == ButtonState::Pressed && kind == KeyboardKey::S {
                out.redraw && *final(state) == (ControlState {
                    dewarp_shader: next_dewarp_shader(old(state).dewarp_shader),
                    ..*old(state)
                })
            } else {
                !out.redraw && *final(state) == *old(state)
            }
        },
{
    match event {
        InputEvent::MouseClick { state: st, button, position, world, hits, handled } => {
            if !(*handled && matches!(st, ButtonState::Pressed)) {
                match button {
                    MouseButton::Middle => pan_view_click(state, *st, *position, camera_position),
                    MouseButton::Right => drag_photo_click(state, *st, *position, hits, photos),
                    MouseButton::Left => match state.active_mouse_tool {
                        MouseTool::PanView => pan_view_click(state, *st, *position, camera_position),
                        MouseTool::DragPhoto => drag_photo_click(state, *st, *position, hits, photos),
                        MouseTool::SelectPhoto => select_photo_click(state, *st, hits),
                        MouseTool::RotationPoint => rotation_point_click(state, *st, *world),
                        MouseTool::DragToRotate => rotate_drag_click(state, *st, *world, photos),
                        MouseTool::DragToRotateAllPhotos => rotate_all_photos_click(
                            state,
                            *st,
                            *world,
                            photos,
                        ),
                    },
                }
            }
            EventOutcome { redraw: false, actions: Vec::new() }
        },
        InputEvent::MouseMotion { position, world, handled } => {
            if *handled {
                EventOutcome { redraw: false, actions: Vec::new() }
            } else {
                handle_motion(state, *position, *world)
            }
        },
        InputEvent::MouseWheel { scroll_up, position, handled } => {
            if *handled {
                EventOutcome { redraw: false, actions: Vec::new() }
            } else {
                let mut actions: Vec<Action<P, W, A>> = Vec::new();
                actions.push(Action::AnchoredZoom { position: *position, zoom_in: *scroll_up });
                EventOutcome { redraw: true, actions }
            }
        },
        InputEvent::Key { state: st, kind, handled } => {
            let mut redraw = false;
            if !*handled && matches!(st, ButtonState::Pressed) && matches!(kind, KeyboardKey::S) {
                redraw = true;
                state.dewarp_shader = match state.dewarp_shader {
                    DewarpShader::NoMorph => DewarpShader::Dewarp1,
                    DewarpShader::Dewarp1 => DewarpShader::Dewarp2,
                    DewarpShader::Dewarp2 => DewarpShader::NoMorph,
                };
            }
            EventOutcome { redraw, actions: Vec::new() }
        },
    }
}

/// Law: when every photo lies under the cursor, each select press walks the
/// photo list cyclically — with nothing selected the press picks the first
/// photo, a selected photo hands the selection to its successor, and the
/// last photo wraps the selection back to the first.  So over a stack of
/// overlapping photos, consecutive presses visit every photo in order,
/// around and around.
pub proof fn lemma_select_press_cycles_through_overlapping<P, W, A>(
    s0: ControlState<P, W, A>,
    s1: ControlState<P, W, A>,
    position: P,
    world: W,
    hits: Seq<bool>,
    photos: Seq<PhotoPose<W, A>>,
    camera_position: W,
)
    requires
        s0.active_mouse_tool == MouseTool::SelectPhoto,
        click_transition(
            s0,
            s1,
            ButtonState::Pressed,
            MouseButton::Left,
            position,
            world,
            hits,
            photos,
            camera_position,
        ),
        0 < hits.len() <= usize::MAX,
        forall|j: int| 0 <= j < hits.len() ==> hits[j],
    ensures
        s1 == (ControlState { selected_photo_index: s1.selected_photo_index, ..s0 }),
        s1.selected_photo_index == match s0.selected_photo_index {
            None => Some(0usize),
            Some(s) => if s + 1 < hits.len() {
                Some((s + 1) as usize)
            } else {
                Some(0usize)
            },
        },
{
    assert(hits[0]);
    assert(first_hit_from(hits, 0) == Some(0usize));
    match s0.selected_photo_index {
        None => {},
        Some(s) => {
            if s + 1 < hits.len() {
                assert(hits[s + 1]);
                assert(first_hit_from(hits, s + 1) == Some((s + 1) as usize));
            } else if s < hits.len() {
                assert(first_hit_from(hits, s + 1) is None);
            }
        },
    }
}


} // verus!
