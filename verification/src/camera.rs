//! The stereo camera rig: one pawn carrying one camera per eye, which view
//! each eye renders, and how a shared framebuffer is split between the eyes.

use vstd::prelude::*;
use crate::conversion::UVec2;

verus! {

/// Which eye a camera renders for.
#[derive(Clone, Copy, PartialEq, Eq, Structural, Hash, Debug)]
pub enum Eye {
    Left,
    Right,
}

/// The position of an eye's view among the views the runtime locates each
/// frame: the left eye reads view 0, the right eye view 1.
pub fn view_index(eye: &Eye) -> (r: usize)
    ensures
        *eye is Left ==> r == 0,
        *eye is Right ==> r == 1,
{
    match eye {
        Eye::Left => 0,
        Eye::Right => 1,
    }
}

/// Marker for the projection component of an XR camera.
#[derive(Clone, Copy, PartialEq, Eq, Structural, Debug)]
pub struct XrProjection {}

/// Marker for the root entity of the user's presence in the scene: the
/// cameras hang under it.
#[derive(Clone, Copy, PartialEq, Eq, Structural, Debug)]
pub struct XrPawn {}

/// Marker for the entity standing between the pawn and the per-eye cameras:
/// its transform follows the midpoint of the two eyes.
#[derive(Clone, Copy, PartialEq, Eq, Structural, Debug)]
pub struct XrCameras {}

/// Marker for the left eye's camera.
#[derive(Clone, Copy, PartialEq, Eq, Structural, Default, Debug)]
pub struct XrCameraLeftMarker;

/// Marker for the right eye's camera.
#[derive(Clone, Copy, PartialEq, Eq, Structural, Default, Debug)]
pub struct XrCameraRightMarker;

/// Marker for the head entity of the browser backend's rig: its transform
/// follows the viewer's pose.
#[derive(Clone, Copy, PartialEq, Eq, Structural, Debug)]
pub struct HeadMarker;

/// Marker for the browser backend's left eye camera.
#[derive(Clone, Copy, PartialEq, Eq, Structural, Debug)]
pub struct LeftEyeMarker;

/// Marker for the browser backend's right eye camera.
#[derive(Clone, Copy, PartialEq, Eq, Structural, Debug)]
pub struct RightEyeMarker;

/// A camera's viewport inside a shared framebuffer, in pixels.
#[derive(Clone, Copy, PartialEq, Eq, Structural, Debug)]
pub struct Viewport {
    pub physical_position: UVec2,
    pub physical_size: UVec2,
}

/// Splits a shared framebuffer between the two eyes: each eye gets half the
/// width, the left eye the left half and the right eye the right half.
pub fn eye_viewports(framebuffer: UVec2) -> (r: (Viewport, Viewport))
    ensures
        r.0.physical_position == (UVec2 { x: 0, y: 0 }),
        r.0.physical_size == (UVec2 { x: framebuffer.x / 2, y: framebuffer.y }),
        r.1.physical_position == (UVec2 { x: framebuffer.x / 2, y: 0 }),
        r.1.physical_size == (UVec2 { x: framebuffer.x / 2, y: framebuffer.y }),
{
    let physical_size = UVec2 { x: framebuffer.x / 2, y: framebuffer.y };
    let left = Viewport { physical_position: UVec2 { x: 0, y: 0 }, physical_size };
    let right = Viewport {
        physical_position: UVec2 { x: framebuffer.x / 2, y: 0 },
        physical_size,
    };
    (left, right)
}

} // verus!
