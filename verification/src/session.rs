//! The OpenXR session: which form factor and session mode it runs with,
//! which view configuration and blend mode fit that mode, and how the
//! session loop reacts to the runtime's state changes.

use vstd::prelude::*;
use crate::presentation::{XrEnvironmentBlendMode, XrVisibilityState};

verus! {

/// The form factor is selected at plugin-creation time and cannot be changed
/// for the entire lifetime of the app. It restricts which `XrSessionMode`
/// can be selected.
#[derive(Clone, Copy, PartialEq, Eq, Structural, Hash, Debug)]
pub enum OpenXrFormFactor {
    HeadMountedDisplay,
    Handheld,
}

/// The kind of session the host application asks for.
#[derive(Clone, Copy, PartialEq, Eq, Structural, Hash, Debug)]
pub enum XrSessionMode {
    ImmersiveVR,
    ImmersiveAR,
    InlineVR,
    InlineAR,
}

/// The view configuration a session renders with: one view per eye (stereo),
/// a single view (mono), or four views on quad-view hardware.
#[derive(Clone, Copy, PartialEq, Eq, Structural, Hash, Debug)]
pub enum XrViewConfigurationType {
    PrimaryMono,
    PrimaryStereo,
    PrimaryQuad,
}

/// The runtime's session lifecycle states.
#[derive(Clone, Copy, PartialEq, Eq, Structural, Hash, Debug)]
pub enum XrSessionState {
    Unknown,
    Idle,
    Ready,
    Synchronized,
    Visible,
    Focused,
    Stopping,
    Exiting,
    LossPending,
}

/// What the session loop must do after a session state change.
#[derive(Clone, Copy, PartialEq, Eq, Structural, Debug)]
pub enum SessionAction {
    /// Nothing to do.
    Idle,
    /// Begin the session and start rendering frames.
    Begin,
    /// Publish the given visibility to the app.
    SetVisibility(XrVisibilityState),
    /// End the session and stop rendering frames.
    End,
    /// Leave the session loop.
    Exit,
}

/// The view configuration chosen for a session mode: immersive modes render
/// one view per eye (or four on quad-view hardware), inline modes a single
/// view.
pub fn select_view_configuration(mode: XrSessionMode, quad_views_supported: bool) -> (r: XrViewConfigurationType)
    ensures
        (mode is ImmersiveVR || mode is ImmersiveAR) && quad_views_supported ==> r is PrimaryQuad,
        (mode is ImmersiveVR || mode is ImmersiveAR) && !quad_views_supported ==> r is PrimaryStereo,
        (mode is InlineVR || mode is InlineAR) ==> r is PrimaryMono,
{
    match mode {
        XrSessionMode::ImmersiveVR | XrSessionMode::ImmersiveAR => {
            if quad_views_supported {
                XrViewConfigurationType::PrimaryQuad
            } else {
                XrViewConfigurationType::PrimaryStereo
            }
        }
        XrSessionMode::InlineVR | XrSessionMode::InlineAR => XrViewConfigurationType::PrimaryMono,
    }
}

/// The blend mode a session mode asks for: VR modes want an opaque display,
/// AR modes a blending one, alpha blending preferred over an additive
/// display.
pub open spec fn spec_select_blend_mode(
    mode: XrSessionMode,
    available: Seq<XrEnvironmentBlendMode>,
) -> Option<XrEnvironmentBlendMode> {
    if mode is ImmersiveVR || mode is InlineVR {
        if available.contains(XrEnvironmentBlendMode::Opaque) {
            Some(XrEnvironmentBlendMode::Opaque)
        } else {
            None
        }
    } else {
        if available.contains(XrEnvironmentBlendMode::AlphaBlend) {
            Some(XrEnvironmentBlendMode::AlphaBlend)
        } else if available.contains(XrEnvironmentBlendMode::Additive) {
            Some(XrEnvironmentBlendMode::Additive)
        } else {
            None
        }
    }
}

/// Picks the blend mode for `mode` out of the modes the runtime offers,
/// `None` when the runtime offers no fitting one.
pub fn select_blend_mode(
    mode: XrSessionMode,
    available: &Vec<XrEnvironmentBlendMode>,
) -> (r: Option<XrEnvironmentBlendMode>)
    ensures
        r == spec_select_blend_mode(mode, available@),
{
    let vr = matches!(mode, XrSessionMode::ImmersiveVR | XrSessionMode::InlineVR);
    let mut found_alpha: bool = false;
    let mut found_additive: bool = false;
    let mut found_opaque: bool = false;
    let mut i: usize = 0;
    while i < available.len()
        invariant
            i <= available@.len(),
            found_opaque == available@.subrange(0, i as int).contains(XrEnvironmentBlendMode::Opaque),
            found_alpha == available@.subrange(0, i as int).contains(XrEnvironmentBlendMode::AlphaBlend),
            found_additive == available@.subrange(0, i as int).contains(XrEnvironmentBlendMode::Additive),
        decreases available@.len() - i,
    {
        let b = available[i];
        proof {
            assert(available@.subrange(0, i + 1 as int).drop_last() =~= available@.subrange(0, i as int));
            assert(available@.subrange(0, i + 1 as int).last() == available@[i as int]);
        }
        match b {
            XrEnvironmentBlendMode::Opaque => { found_opaque = true; }
            XrEnvironmentBlendMode::AlphaBlend => { found_alpha = true; }
            XrEnvironmentBlendMode::Additive => { found_additive = true; }
        }
        proof {
            let pre = available@.subrange(0, i as int);
            let post = available@.subrange(0, i + 1 as int);
            assert forall|m: XrEnvironmentBlendMode| post.contains(m) implies pre.contains(m) || m == available@[i as int] by {
                let k = choose|k: int| 0 <= k < post.len() && post[k] == m;
                if k < i as int {
                    assert(pre[k] == m);
                }
            }
        }
        i += 1;
    }
    proof {
        assert(available@.subrange(0, available@.len() as int) =~= available@);
    }
    if vr {
        if found_opaque {
            Some(XrEnvironmentBlendMode::Opaque)
        } else {
            None
        }
    } else {
        if found_alpha {
            Some(XrEnvironmentBlendMode::AlphaBlend)
        } else if found_additive {
            Some(XrEnvironmentBlendMode::Additive)
        } else {
            None
        }
    }
}

/// A session mode is workable when the runtime offers a fitting blend mode.
/// The view configuration itself always exists, so the blend mode decides.
pub fn session_mode_available(
    mode: XrSessionMode,
    available: &Vec<XrEnvironmentBlendMode>,
) -> (r: bool)
    ensures
        r == (spec_select_blend_mode(mode, available@) is Some),
{
    select_blend_mode(mode, available).is_some()
}

/// The action the session loop takes on entering `state`.
pub open spec fn spec_session_action(state: XrSessionState) -> SessionAction {
    match state {
        XrSessionState::Unknown | XrSessionState::Idle => SessionAction::Idle,
        XrSessionState::Ready => SessionAction::Begin,
        XrSessionState::Synchronized => SessionAction::SetVisibility(XrVisibilityState::Hidden),
        XrSessionState::Visible => SessionAction::SetVisibility(XrVisibilityState::VisibleUnfocused),
        XrSessionState::Focused => SessionAction::SetVisibility(XrVisibilityState::VisibleFocused),
        XrSessionState::Stopping => SessionAction::End,
        XrSessionState::Exiting | XrSessionState::LossPending => SessionAction::Exit,
    }
}

/// Tracks the session loop between frames: whether the session has begun
/// and how many frames the loop has entered.
pub struct SessionLoop {
    /// True between the runtime's `Ready` and `Stopping` states: only then
    /// are frames waited for, rendered and submitted.
    pub running: bool,
    /// Number of frames the loop has entered since the session was created.
    pub frame_count: u64,
}

impl SessionLoop {
    /// A fresh loop: no frame entered, session not begun.
    pub fn new() -> (r: SessionLoop)
        ensures
            !r.running,
            r.frame_count == 0,
    {
        SessionLoop { running: false, frame_count: 0 }
    }

    /// Reacts to a session state change: returns the action the backend must
    /// perform and records whether frames are rendered from now on.
    pub fn handle_state_change(&mut self, state: XrSessionState) -> (r: SessionAction)
        ensures
            r == spec_session_action(state),
            final(self).running == (if state is Ready { true }
                else if state is Stopping { false }
                else { old(self).running }),
            final(self).frame_count == old(self).frame_count,
    {
        match state {
            XrSessionState::Unknown | XrSessionState::Idle => SessionAction::Idle,
            XrSessionState::Ready => {
                self.running = true;
                SessionAction::Begin
            }
            XrSessionState::Synchronized => SessionAction::SetVisibility(XrVisibilityState::Hidden),
            XrSessionState::Visible => SessionAction::SetVisibility(XrVisibilityState::VisibleUnfocused),
            XrSessionState::Focused => SessionAction::SetVisibility(XrVisibilityState::VisibleFocused),
            XrSessionState::Stopping => {
                self.running = false;
                SessionAction::End
            }
            XrSessionState::Exiting | XrSessionState::LossPending => SessionAction::Exit,
        }
    }

    /// Enters the next frame. The count saturates rather than wrap: after
    /// `u64::MAX` frames the refresh-rate boost simply stops firing.
    pub fn enter_frame(&mut self)
        ensures
            final(self).frame_count == (if old(self).frame_count == u64::MAX { old(self).frame_count as int }
                else { old(self).frame_count + 1 }),
            final(self).running == old(self).running,
    {
        if self.frame_count < u64::MAX {
            self.frame_count = self.frame_count + 1;
        }
    }

    /// Every thousandth frame the backend asks the runtime for a higher
    /// display refresh rate.
    pub fn wants_refresh_rate_boost(&self) -> (r: bool)
        ensures
            r == (self.frame_count % 1000 == 0),
    {
        self.frame_count % 1000 == 0
    }

    /// What the loop does with the coming frame: wait while the session has
    /// not begun, submit an empty frame when the runtime asks for no
    /// rendering, and render otherwise.
    pub fn frame_directive(&self, should_render: bool) -> (r: FrameDirective)
        ensures
            !self.running ==> r is Sleep,
            self.running && !should_render ==> r is SkipFrame,
            self.running && should_render ==> r is Render,
    {
        if !self.running {
            FrameDirective::Sleep
        } else if !should_render {
            FrameDirective::SkipFrame
        } else {
            FrameDirective::Render
        }
    }
}

/// What the session loop does with one frame.
#[derive(Clone, Copy, PartialEq, Eq, Structural, Debug)]
pub enum FrameDirective {
    /// The session has not begun: wait briefly and poll events again.
    Sleep,
    /// The compositor wants no rendering: submit the frame empty.
    SkipFrame,
    /// Render both eyes and submit their layers.
    Render,
}

/// A frame's layers are submitted only when the runtime vouches for both the
/// position and the orientation of its views.
pub fn should_submit_layers(position_valid: bool, orientation_valid: bool) -> (r: bool)
    ensures
        r == (position_valid && orientation_valid),
{
    position_valid && orientation_valid
}

} // verus!
