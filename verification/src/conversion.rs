//! Conversions between the library's types and the plain values the two
//! backends exchange with their runtimes: OpenXR's raw enum values, WebXR's
//! session modes, and the size types of the graphics layers.

use vstd::prelude::*;
use crate::presentation::XrEnvironmentBlendMode;
use crate::session::{OpenXrFormFactor, XrSessionMode, XrSessionState, XrViewConfigurationType};

verus! {

/// A size in pixels, as the engine's camera layer holds it.
#[derive(Clone, Copy, PartialEq, Eq, Structural, Debug)]
pub struct UVec2 {
    pub x: u32,
    pub y: u32,
}

/// A two-dimensional extent, as Vulkan holds it.
#[derive(Clone, Copy, PartialEq, Eq, Structural, Debug)]
pub struct Extent2D {
    pub width: u32,
    pub height: u32,
}

/// A three-dimensional extent, as the GPU abstraction holds a texture size.
#[derive(Clone, Copy, PartialEq, Eq, Structural, Debug)]
pub struct Extent3d {
    pub width: u32,
    pub height: u32,
    pub depth_or_array_layers: u32,
}

/// An integer rectangle, as OpenXR holds a composition layer's sub-image.
#[derive(Clone, Copy, PartialEq, Eq, Structural, Debug)]
pub struct Rect2Di {
    pub offset_x: i32,
    pub offset_y: i32,
    pub width: i32,
    pub height: i32,
}

impl UVec2 {
    pub fn new(x: u32, y: u32) -> (r: UVec2)
        ensures
            r.x == x && r.y == y,
    {
        UVec2 { x, y }
    }

    /// The same size as a one-layer texture extent.
    pub fn wgpu(&self) -> (r: Extent3d)
        ensures
            r.width == self.x,
            r.height == self.y,
            r.depth_or_array_layers == 1,
    {
        Extent3d { width: self.x, height: self.y, depth_or_array_layers: 1 }
    }

    /// The same size as a Vulkan extent.
    pub fn vk(&self) -> (r: Extent2D)
        ensures
            r.width == self.x,
            r.height == self.y,
    {
        Extent2D { width: self.x, height: self.y }
    }

    /// The same size as a rectangle at the origin. The components must fit
    /// the rectangle's signed fields.
    pub fn xr(&self) -> (r: Rect2Di)
        requires
            self.x <= i32::MAX,
            self.y <= i32::MAX,
        ensures
            r.offset_x == 0,
            r.offset_y == 0,
            r.width == self.x,
            r.height == self.y,
    {
        Rect2Di { offset_x: 0, offset_y: 0, width: self.x as i32, height: self.y as i32 }
    }
}

impl Extent2D {
    /// The same size as the engine's camera layer holds it.
    pub fn bevy(&self) -> (r: UVec2)
        ensures
            r.x == self.width,
            r.y == self.height,
    {
        UVec2 { x: self.width, y: self.height }
    }
}

impl Extent3d {
    /// The footprint of a texture extent, dropping its layer count.
    pub fn bevy(&self) -> (r: UVec2)
        ensures
            r.x == self.width,
            r.y == self.height,
    {
        UVec2 { x: self.width, y: self.height }
    }
}

/// A duration in OpenXR's clock: whole nanoseconds in a signed 64-bit value.
/// The duration must fit that value.
pub fn duration_to_xr_nanos(secs: u64, subsec_nanos: u32) -> (r: i64)
    requires
        subsec_nanos < 1_000_000_000,
        secs * 1_000_000_000 + subsec_nanos <= i64::MAX,
    ensures
        r == secs * 1_000_000_000 + subsec_nanos,
{
    proof {
        assert(secs * 1_000_000_000 <= i64::MAX);
        assert(secs <= 9_223_372_036) by (nonlinear_arith)
            requires secs * 1_000_000_000 <= i64::MAX;
    }
    (secs as i64) * 1_000_000_000 + (subsec_nanos as i64)
}

/// The library's session state for one of OpenXR's raw state values, `None`
/// for a value outside the states the specification names.
pub fn session_state_from_raw(raw: i32) -> (r: Option<XrSessionState>)
    ensures
        r == (match raw {
            0i32 => Some(XrSessionState::Unknown),
            1i32 => Some(XrSessionState::Idle),
            2i32 => Some(XrSessionState::Ready),
            3i32 => Some(XrSessionState::Synchronized),
            4i32 => Some(XrSessionState::Visible),
            5i32 => Some(XrSessionState::Focused),
            6i32 => Some(XrSessionState::Stopping),
            7i32 => Some(XrSessionState::LossPending),
            8i32 => Some(XrSessionState::Exiting),
            _ => None::<XrSessionState>,
        }),
{
    match raw {
        0i32 => Some(XrSessionState::Unknown),
        1i32 => Some(XrSessionState::Idle),
        2i32 => Some(XrSessionState::Ready),
        3i32 => Some(XrSessionState::Synchronized),
        4i32 => Some(XrSessionState::Visible),
        5i32 => Some(XrSessionState::Focused),
        6i32 => Some(XrSessionState::Stopping),
        7i32 => Some(XrSessionState::LossPending),
        8i32 => Some(XrSessionState::Exiting),
        _ => None,
    }
}

/// The library's blend mode for one of OpenXR's raw blend mode values,
/// `None` for a value outside the three the specification names.
pub fn blend_mode_from_raw(raw: i32) -> (r: Option<XrEnvironmentBlendMode>)
    ensures
        r == (match raw {
            1i32 => Some(XrEnvironmentBlendMode::Opaque),
            2i32 => Some(XrEnvironmentBlendMode::Additive),
            3i32 => Some(XrEnvironmentBlendMode::AlphaBlend),
            _ => None::<XrEnvironmentBlendMode>,
        }),
{
    match raw {
        1i32 => Some(XrEnvironmentBlendMode::Opaque),
        2i32 => Some(XrEnvironmentBlendMode::Additive),
        3i32 => Some(XrEnvironmentBlendMode::AlphaBlend),
        _ => None,
    }
}

/// OpenXR's raw blend mode value for a blend mode of the library.
pub fn blend_mode_to_raw(mode: XrEnvironmentBlendMode) -> (r: i32)
    ensures
        mode is Opaque ==> r == 1,
        mode is Additive ==> r == 2,
        mode is AlphaBlend ==> r == 3,
{
    match mode {
        XrEnvironmentBlendMode::Opaque => 1,
        XrEnvironmentBlendMode::Additive => 2,
        XrEnvironmentBlendMode::AlphaBlend => 3,
    }
}

/// OpenXR's raw form factor value for a form factor of the library. Both
/// form factors ask the runtime for a head-mounted display: the handheld
/// path serves runtimes that report the head-mounted form factor as the
/// only one they know.
pub fn form_factor_to_raw(form_factor: OpenXrFormFactor) -> (r: i32)
    ensures
        r == 1,
{
    match form_factor {
        OpenXrFormFactor::HeadMountedDisplay => 1,
        OpenXrFormFactor::Handheld => 1,
    }
}

/// OpenXR's raw view configuration value for a view configuration of the
/// library. The quad configuration carries the value of the vendor
/// extension that defines it.
pub fn view_configuration_to_raw(view: XrViewConfigurationType) -> (r: i32)
    ensures
        view is PrimaryMono ==> r == 1,
        view is PrimaryStereo ==> r == 2,
        view is PrimaryQuad ==> r == 1000037000,
{
    match view {
        XrViewConfigurationType::PrimaryMono => 1,
        XrViewConfigurationType::PrimaryStereo => 2,
        XrViewConfigurationType::PrimaryQuad => 1000037000,
    }
}

/// The session modes the WebXR browser API knows. The browser has no inline
/// AR mode: both of the library's inline modes map to `Inline`.
#[derive(Clone, Copy, PartialEq, Eq, Structural, Hash, Debug)]
pub enum WebXrSessionMode {
    Inline,
    ImmersiveVr,
    ImmersiveAr,
}

/// The library's session mode for a WebXR session mode.
pub open spec fn spec_session_mode_from_web(mode: WebXrSessionMode) -> XrSessionMode {
    match mode {
        WebXrSessionMode::Inline => XrSessionMode::InlineVR,
        WebXrSessionMode::ImmersiveVr => XrSessionMode::ImmersiveVR,
        WebXrSessionMode::ImmersiveAr => XrSessionMode::ImmersiveAR,
    }
}

/// The WebXR session mode for a session mode of the library.
pub open spec fn spec_session_mode_to_web(mode: XrSessionMode) -> WebXrSessionMode {
    match mode {
        XrSessionMode::ImmersiveVR => WebXrSessionMode::ImmersiveVr,
        XrSessionMode::ImmersiveAR => WebXrSessionMode::ImmersiveAr,
        XrSessionMode::InlineVR => WebXrSessionMode::Inline,
        XrSessionMode::InlineAR => WebXrSessionMode::Inline,
    }
}

/// The library's session mode for a WebXR session mode.
pub fn session_mode_from_web(mode: WebXrSessionMode) -> (r: XrSessionMode)
    ensures
        r == spec_session_mode_from_web(mode),
{
    match mode {
        WebXrSessionMode::Inline => XrSessionMode::InlineVR,
        WebXrSessionMode::ImmersiveVr => XrSessionMode::ImmersiveVR,
        WebXrSessionMode::ImmersiveAr => XrSessionMode::ImmersiveAR,
    }
}

/// The WebXR session mode for a session mode of the library.
pub fn session_mode_to_web(mode: XrSessionMode) -> (r: WebXrSessionMode)
    ensures
        r == spec_session_mode_to_web(mode),
{
    match mode {
        XrSessionMode::ImmersiveVR => WebXrSessionMode::ImmersiveVr,
        XrSessionMode::ImmersiveAR => WebXrSessionMode::ImmersiveAr,
        XrSessionMode::InlineVR => WebXrSessionMode::Inline,
        XrSessionMode::InlineAR => WebXrSessionMode::Inline,
    }
}

/// Taking a WebXR session mode into the library and back returns the same
/// mode: each browser mode keeps its identity through the pair of
/// conversions.
pub proof fn lemma_web_session_mode_round_trip(mode: WebXrSessionMode)
    ensures
        spec_session_mode_to_web(spec_session_mode_from_web(mode)) == mode,
{
}

/// Taking one of the library's modes to the browser and back keeps the two
/// immersive modes; both inline modes come back as inline VR, the one inline
/// mode the browser knows.
pub proof fn lemma_session_mode_round_trip(mode: XrSessionMode)
    ensures
        mode is ImmersiveVR || mode is ImmersiveAR ==>
            spec_session_mode_from_web(spec_session_mode_to_web(mode)) == mode,
        mode is InlineVR || mode is InlineAR ==>
            spec_session_mode_from_web(spec_session_mode_to_web(mode)) is InlineVR,
{
}

} // verus!
