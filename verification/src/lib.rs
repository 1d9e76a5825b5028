//! Core state and geometry machinery for interactively aligning photos into a
//! panorama: a discretized, clamped camera zoom, validated viewport pixel
//! dimensions, and the gesture state machine that turns pointer and keyboard
//! events into selection changes, gesture records, and camera/photo actions.
//!
//! Continuous coordinate values (pixel, screen, and world positions, angles)
//! are carried through this crate as opaque type parameters: the crate makes
//! every discrete decision — which gesture is active, which photo is selected,
//! when the zoom moves and when it is clamped — while the host evaluates the
//! floating-point formulas that the emitted actions describe.

pub mod control_state;
pub mod gesture;
pub mod viewport_geometry;
