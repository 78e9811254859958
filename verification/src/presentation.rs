//! Presentation-level resources shared by the XR backends: how rendered
//! content is blended with the user's surroundings, how the user interacts
//! with it, and how much of it is currently shown.

use vstd::prelude::*;

verus! {

/// How the compositor combines the rendered image with the physical world.
#[derive(Clone, Copy, PartialEq, Eq, Structural, Hash, Debug)]
pub enum XrEnvironmentBlendMode {
    Opaque,
    AlphaBlend,
    Additive,
}

/// Whether the user points at content in world space (head-mounted display)
/// or on a flat screen (handheld).
#[derive(Clone, Copy, PartialEq, Eq, Structural, Hash, Debug)]
pub enum XrInteractionMode {
    ScreenSpace,
    WorldSpace,
}

/// How much of the session's output the user currently sees.
#[derive(Clone, Copy, PartialEq, Eq, Structural, Hash, Debug)]
pub enum XrVisibilityState {
    VisibleFocused,
    VisibleUnfocused,
    Hidden,
}

/// Implemented by XR backends that support display mode: hands out the
/// swapchain image handles of every swapchain the backend drives.
pub trait XrPresentationSession: Send + Sync + 'static {
    fn get_swapchains(&mut self) -> Vec<Vec<u64>>;
}

/// Interaction mode chosen for a session: a head-mounted display interacts
/// in world space, a handheld screen in screen space.
pub fn interaction_mode_for_head_mounted(head_mounted: bool) -> (r: XrInteractionMode)
    ensures
        head_mounted ==> r is WorldSpace,
        !head_mounted ==> r is ScreenSpace,
{
    if head_mounted {
        XrInteractionMode::WorldSpace
    } else {
        XrInteractionMode::ScreenSpace
    }
}

} // verus!
