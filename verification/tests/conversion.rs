use bevy_xr::conversion::{
    blend_mode_from_raw, blend_mode_to_raw, duration_to_xr_nanos, form_factor_to_raw,
    session_mode_from_web, session_mode_to_web, session_state_from_raw, view_configuration_to_raw,
    Extent2D, UVec2, WebXrSessionMode,
};
use bevy_xr::presentation::XrEnvironmentBlendMode;
use bevy_xr::session::{OpenXrFormFactor, XrSessionMode, XrSessionState, XrViewConfigurationType};

#[test]
fn session_states_cover_the_raw_values() {
    assert_eq!(session_state_from_raw(0), Some(XrSessionState::Unknown));
    assert_eq!(session_state_from_raw(1), Some(XrSessionState::Idle));
    assert_eq!(session_state_from_raw(2), Some(XrSessionState::Ready));
    assert_eq!(session_state_from_raw(3), Some(XrSessionState::Synchronized));
    assert_eq!(session_state_from_raw(4), Some(XrSessionState::Visible));
    assert_eq!(session_state_from_raw(5), Some(XrSessionState::Focused));
    assert_eq!(session_state_from_raw(6), Some(XrSessionState::Stopping));
    assert_eq!(session_state_from_raw(7), Some(XrSessionState::LossPending));
    assert_eq!(session_state_from_raw(8), Some(XrSessionState::Exiting));
    assert_eq!(session_state_from_raw(9), None);
    assert_eq!(session_state_from_raw(-1), None);
}

#[test]
fn blend_modes_round_trip_through_raw_values() {
    for mode in [
        XrEnvironmentBlendMode::Opaque,
        XrEnvironmentBlendMode::Additive,
        XrEnvironmentBlendMode::AlphaBlend,
    ] {
        assert_eq!(blend_mode_from_raw(blend_mode_to_raw(mode)), Some(mode));
    }
    assert_eq!(blend_mode_from_raw(0), None);
    assert_eq!(blend_mode_from_raw(4), None);
}

#[test]
fn blend_mode_raw_values_match_the_runtime() {
    assert_eq!(blend_mode_to_raw(XrEnvironmentBlendMode::Opaque), 1);
    assert_eq!(blend_mode_to_raw(XrEnvironmentBlendMode::Additive), 2);
    assert_eq!(blend_mode_to_raw(XrEnvironmentBlendMode::AlphaBlend), 3);
}

#[test]
fn both_form_factors_ask_for_a_head_mounted_display() {
    assert_eq!(form_factor_to_raw(OpenXrFormFactor::HeadMountedDisplay), 1);
    assert_eq!(form_factor_to_raw(OpenXrFormFactor::Handheld), 1);
}

#[test]
fn view_configuration_raw_values_match_the_runtime() {
    assert_eq!(view_configuration_to_raw(XrViewConfigurationType::PrimaryMono), 1);
    assert_eq!(view_configuration_to_raw(XrViewConfigurationType::PrimaryStereo), 2);
    assert_eq!(
        view_configuration_to_raw(XrViewConfigurationType::PrimaryQuad),
        1000037000
    );
}

#[test]
fn web_session_modes_round_trip() {
    for mode in [
        WebXrSessionMode::Inline,
        WebXrSessionMode::ImmersiveVr,
        WebXrSessionMode::ImmersiveAr,
    ] {
        assert_eq!(session_mode_to_web(session_mode_from_web(mode)), mode);
    }
}

#[test]
fn both_inline_modes_reach_the_browser_as_inline() {
    assert_eq!(
        session_mode_to_web(XrSessionMode::InlineVR),
        WebXrSessionMode::Inline
    );
    assert_eq!(
        session_mode_to_web(XrSessionMode::InlineAR),
        WebXrSessionMode::Inline
    );
    assert_eq!(
        session_mode_from_web(WebXrSessionMode::Inline),
        XrSessionMode::InlineVR
    );
}

#[test]
fn durations_become_whole_nanoseconds() {
    assert_eq!(duration_to_xr_nanos(0, 0), 0);
    assert_eq!(duration_to_xr_nanos(1, 500), 1_000_000_500);
    assert_eq!(duration_to_xr_nanos(2, 999_999_999), 2_999_999_999);
}

#[test]
fn sizes_convert_between_the_layers() {
    let size = UVec2::new(1832, 1920);
    let vk = size.vk();
    assert_eq!(vk, Extent2D { width: 1832, height: 1920 });
    assert_eq!(vk.bevy(), size);
    let tex = size.wgpu();
    assert_eq!(tex.width, 1832);
    assert_eq!(tex.height, 1920);
    assert_eq!(tex.depth_or_array_layers, 1);
    let rect = size.xr();
    assert_eq!(rect.offset_x, 0);
    assert_eq!(rect.offset_y, 0);
    assert_eq!(rect.width, 1832);
    assert_eq!(rect.height, 1920);
}
