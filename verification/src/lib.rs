//! Device-independent model of an XR (VR/AR) plugin layer for a game engine.
//!
//! The crate holds the decision logic of an OpenXR native backend and a WebXR
//! browser backend: which view configuration and environment blend mode a
//! session runs with, how the session reacts to runtime state changes, how
//! swapchain images are acquired and released, how controller input is turned
//! into action states, and how queued audio is dispatched. The backends' raw
//! device and browser calls live outside this crate and hand in plain values.

pub mod actions;
pub mod audio;
pub mod camera;
pub mod conversion;
pub mod errors;
pub mod extensions;
pub mod input;
pub mod plugins;
pub mod presentation;
pub mod profiles;
pub mod session;
pub mod swapchain;
