//! The virtual camera: a discretized zoom level clamped to a configured range,
//! and the viewport's pixel dimensions, which are validated so that they are
//! always strictly positive.
//!
//! The camera's world position and the base zoom scale are continuous values;
//! they are carried here as the opaque type parameters `W` and `S` and are
//! never inspected.  Everything this module decides — when the zoom moves,
//! when it is clamped, when a dimension update is rejected — is discrete and
//! fully specified.

use vstd::prelude::*;

verus! {

/// The viewport's camera state: world position, discretized zoom, and the
/// pixel dimensions of the viewport, which [`ViewportGeometry::try_new`] and
/// [`ViewportGeometry::set_pixel_dimensions`] only ever set to strictly
/// positive values.
///
/// `W` is the type of a world-space position and `S` the type of the base
/// zoom scale; both are opaque payloads.  The world-space width shown by the
/// viewport is `2^zoom_value * zoom_scale`, so a smaller `zoom_value` means a
/// closer view.
#[derive(Debug, Copy, Clone)]
pub struct ViewportGeometry<W, S> {
    /// World point shown at the center of the viewport.
    pub camera_position: W,
    /// World-space width shown at zoom level zero.
    pub zoom_scale: S,
    /// Current zoom level; the viewport shows `2^zoom_value * zoom_scale`
    /// world units across its width.
    pub zoom_value: u32,
    /// Lowest zoom level `zoom_in` will reach.
    pub zoom_min: u32,
    /// Highest zoom level `zoom_out` will reach.
    pub zoom_max: u32,
    /// Viewport width in pixels; strictly positive while [`Self::wf`] holds.
    pub width_in_pixels: usize,
    /// Viewport height in pixels; strictly positive while [`Self::wf`] holds.
    pub height_in_pixels: usize,
}

/// Why a pixel-dimension update was rejected: each variant names exactly
/// which of the two dimensions was zero.
#[derive(Debug, Copy, Clone, PartialEq, Eq, Structural)]
pub enum PixelDimensionError {
    ZeroWidth,
    ZeroHeight,
    ZeroWidthAndHeight,
}

impl<W, S> ViewportGeometry<W, S> {
    /// The viewport's pixel dimensions are strictly positive.
    pub open spec fn wf(&self) -> bool {
        self.width_in_pixels > 0 && self.height_in_pixels > 0
    }

    /// Builds a viewport, rejecting zero pixel dimensions with an error that
    /// names exactly which dimensions were zero.
    pub fn try_new(
        camera_position: W,
        zoom_scale: S,
        zoom_value: u32,
        zoom_min: u32,
        zoom_max: u32,
        width_in_pixels: usize,
        height_in_pixels: usize,
    ) -> (r: Result<ViewportGeometry<W, S>, PixelDimensionError>)
        ensures
            width_in_pixels > 0 && height_in_pixels > 0 ==> (r matches Ok(v) && v == (
            ViewportGeometry {
                camera_position,
                zoom_scale,
                zoom_value,
                zoom_min,
                zoom_max,
                width_in_pixels,
                height_in_pixels,
            }) && v.wf()),
            width_in_pixels == 0 && height_in_pixels > 0 ==> (r matches Err(e) && e
                == PixelDimensionError::ZeroWidth),
            width_in_pixels > 0 && height_in_pixels == 0 ==> (r matches Err(e) && e
                == PixelDimensionError::ZeroHeight),
            width_in_pixels == 0 && height_in_pixels == 0 ==> (r matches Err(e) && e
                == PixelDimensionError::ZeroWidthAndHeight),
    {
        let (width_in_pixels, height_in_pixels) = match Self::check_pixel_dimensions(
            width_in_pixels,
            height_in_pixels,
        ) {
            Ok(dims) => dims,
            Err(e) => {
                return Err(e);
            },
        };
        Ok(
            ViewportGeometry {
                camera_position,
                zoom_scale,
                zoom_value,
                zoom_min,
                zoom_max,
                width_in_pixels,
                height_in_pixels,
            },
        )
    }

    /// Updates both pixel dimensions atomically: on any error the whole
    /// viewport is left unchanged, and the error names exactly which
    /// dimensions were zero.
    pub fn set_pixel_dimensions(
        &mut self,
        width_in_pixels: usize,
        height_in_pixels: usize,
    ) -> (r: Result<(), PixelDimensionError>)
        ensures
            width_in_pixels > 0 && height_in_pixels > 0 ==> (r is Ok && *final(self) == (
            ViewportGeometry { width_in_pixels, height_in_pixels, ..*old(self) })
                && final(self).wf()),
            !(width_in_pixels > 0 && height_in_pixels > 0) ==> *final(self) == *old(self),
            width_in_pixels == 0 && height_in_pixels > 0 ==> (r matches Err(e) && e
                == PixelDimensionError::ZeroWidth),
            width_in_pixels > 0 && height_in_pixels == 0 ==> (r matches Err(e) && e
                == PixelDimensionError::ZeroHeight),
            width_in_pixels == 0 && height_in_pixels == 0 ==> (r matches Err(e) && e
                == PixelDimensionError::ZeroWidthAndHeight),
    {
        let (width_in_pixels, height_in_pixels) = match Self::check_pixel_dimensions(
            width_in_pixels,
            height_in_pixels,
        ) {
            Ok(dims) => dims,
            Err(e) => {
                return Err(e);
            },
        };
        self.width_in_pixels = width_in_pixels;
        self.height_in_pixels = height_in_pixels;
        Ok(())
    }

    fn check_pixel_dimensions(width_in_pixels: usize, height_in_pixels: usize) -> (r: Result<
        (usize, usize),
        PixelDimensionError,
    >)
        ensures
            width_in_pixels > 0 && height_in_pixels > 0 ==> r == Ok::<
                (usize, usize),
                PixelDimensionError,
            >((width_in_pixels, height_in_pixels)),
            width_in_pixels == 0 && height_in_pixels > 0 ==> r == Err::<
                (usize, usize),
                PixelDimensionError,
            >(PixelDimensionError::ZeroWidth),
            width_in_pixels > 0 && height_in_pixels == 0 ==> r == Err::<
                (usize, usize),
                PixelDimensionError,
            >(PixelDimensionError::ZeroHeight),
            width_in_pixels == 0 && height_in_pixels == 0 ==> r == Err::<
                (usize, usize),
                PixelDimensionError,
            >(PixelDimensionError::ZeroWidthAndHeight),
    {
        if width_in_pixels == 0 && height_in_pixels > 0 {
            Err(PixelDimensionError::ZeroWidth)
        } else if width_in_pixels > 0 && height_in_pixels == 0 {
            Err(PixelDimensionError::ZeroHeight)
        } else if width_in_pixels == 0 && height_in_pixels == 0 {
            Err(PixelDimensionError::ZeroWidthAndHeight)
        } else {
            Ok((width_in_pixels, height_in_pixels))
        }
    }

    /// The state one `zoom_in` step leaves behind: one level closer, or
    /// unchanged at or below the floor.
    pub open spec fn zoom_in_spec(self) -> ViewportGeometry<W, S> {
        if self.zoom_value > self.zoom_min {
            ViewportGeometry { zoom_value: (self.zoom_value - 1) as u32, ..self }
        } else {
            self
        }
    }

    /// The state one `zoom_out` step leaves behind: one level farther, or
    /// unchanged at or above the ceiling.
    pub open spec fn zoom_out_spec(self) -> ViewportGeometry<W, S> {
        if self.zoom_value < self.zoom_max {
            ViewportGeometry { zoom_value: (self.zoom_value + 1) as u32, ..self }
        } else {
            self
        }
    }

    /// Steps one zoom level closer, clamped at `zoom_min`: at or below the
    /// floor this is a no-op.
    pub fn zoom_in(&mut self)
        ensures
            *final(self) == old(self).zoom_in_spec(),
            old(self).zoom_value <= old(self).zoom_min ==> *final(self) == *old(self),
    {
        if self.zoom_value > self.zoom_min {
            self.zoom_value = self.zoom_value - 1;
        }
    }

    /// Steps one zoom level farther, clamped at `zoom_max`: at or above the
    /// ceiling this is a no-op.
    pub fn zoom_out(&mut self)
        ensures
            *final(self) == old(self).zoom_out_spec(),
            old(self).zoom_value >= old(self).zoom_max ==> *final(self) == *old(self),
    {
        if self.zoom_value < self.zoom_max {
            self.zoom_value = self.zoom_value + 1;
        }
    }

    /// The viewport's width in pixels; strictly positive on a well-formed
    /// viewport.
    pub fn width_in_pixels(&self) -> (r: usize)
        ensures
            r == self.width_in_pixels,
            self.wf() ==> r > 0,
    {
        self.width_in_pixels
    }

    /// The viewport's height in pixels; strictly positive on a well-formed
    /// viewport.
    pub fn height_in_pixels(&self) -> (r: usize)
        ensures
            r == self.height_in_pixels,
            self.wf() ==> r > 0,
    {
        self.height_in_pixels
    }
}

/// The state `n` consecutive `zoom_in` steps leave behind.
pub open spec fn zoom_in_iter<W, S>(v: ViewportGeometry<W, S>, n: nat) -> ViewportGeometry<W, S>
    decreases n,
{
    if n == 0 {
        v
    } else {
        zoom_in_iter(v, (n - 1) as nat).zoom_in_spec()
    }
}

/// The state `n` consecutive `zoom_out` steps leave behind.
pub open spec fn zoom_out_iter<W, S>(v: ViewportGeometry<W, S>, n: nat) -> ViewportGeometry<W, S>
    decreases n,
{
    if n == 0 {
        v
    } else {
        zoom_out_iter(v, (n - 1) as nat).zoom_out_spec()
    }
}

/// Law: however many `zoom_in` steps are taken, a zoom level that starts at
/// or above the floor never drops below it, nothing but the level changes,
/// and once the level sits exactly on the floor every further step is a
/// no-op.
pub proof fn lemma_zoom_in_clamped<W, S>(v: ViewportGeometry<W, S>, n: nat)
    requires
        v.zoom_value >= v.zoom_min,
    ensures
        zoom_in_iter(v, n).zoom_value >= v.zoom_min,
        zoom_in_iter(v, n) == (ViewportGeometry { zoom_value: zoom_in_iter(v, n).zoom_value, ..v }),
        v.zoom_value == v.zoom_min ==> zoom_in_iter(v, n) == v,
    decreases n,
{
    if n > 0 {
        lemma_zoom_in_clamped(v, (n - 1) as nat);
    }
}

/// Law: however many `zoom_out` steps are taken, a zoom level that starts at
/// or below the ceiling never climbs above it, nothing but the level
/// changes, and once the level sits exactly on the ceiling every further
/// step is a no-op.
pub proof fn lemma_zoom_out_clamped<W, S>(v: ViewportGeometry<W, S>, n: nat)
    requires
        v.zoom_value <= v.zoom_max,
    ensures
        zoom_out_iter(v, n).zoom_value <= v.zoom_max,
        zoom_out_iter(v, n) == (ViewportGeometry {
            zoom_value: zoom_out_iter(v, n).zoom_value,
            ..v
        }),
        v.zoom_value == v.zoom_max ==> zoom_out_iter(v, n) == v,
    decreases n,
{
    if n > 0 {
        lemma_zoom_out_clamped(v, (n - 1) as nat);
    }
}

} // verus!
