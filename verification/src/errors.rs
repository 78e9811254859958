//! The errors the OpenXR backend can surface while bringing a session up.

use vstd::prelude::*;

verus! {

/// Creating the graphics adapter failed.
#[derive(Clone, Copy, PartialEq, Eq, Structural, Debug)]
pub struct AdapterError;

impl AdapterError {
    /// What went wrong, in words.
    pub fn message(&self) -> (r: &'static str)
        ensures
            r@ == "Error creating HAL adapter"@,
    {
        "Error creating HAL adapter"
    }
}

/// What can go wrong while creating the OpenXR context: each variant carries
/// the runtime's raw result code where the runtime reported one.
#[derive(Clone, Copy, PartialEq, Eq, Structural, Debug)]
pub enum OpenXrError {
    InstanceCreation(i32),
    UnsupportedFormFactor,
    UnavailableFormFactor,
    GraphicsCreation,
    SwapchainCreation(i32),
}

/// The raw result code OpenXR returns when a form factor is unsupported.
pub const ERROR_FORM_FACTOR_UNSUPPORTED: i32 = -34;

/// The raw result code OpenXR returns when a form factor is unavailable.
pub const ERROR_FORM_FACTOR_UNAVAILABLE: i32 = -35;

/// The error that stands for the runtime's answer when asking for a system
/// fails: the two form factor results have errors of their own; any other
/// result is outside what the backend handles.
pub fn system_error(raw: i32) -> (r: OpenXrError)
    requires
        raw == ERROR_FORM_FACTOR_UNSUPPORTED || raw == ERROR_FORM_FACTOR_UNAVAILABLE,
    ensures
        raw == ERROR_FORM_FACTOR_UNSUPPORTED ==> r is UnsupportedFormFactor,
        raw == ERROR_FORM_FACTOR_UNAVAILABLE ==> r is UnavailableFormFactor,
{
    if raw == ERROR_FORM_FACTOR_UNSUPPORTED {
        OpenXrError::UnsupportedFormFactor
    } else {
        OpenXrError::UnavailableFormFactor
    }
}

} // verus!
