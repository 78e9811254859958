use bevy_xr::presentation::{
    interaction_mode_for_head_mounted, XrEnvironmentBlendMode, XrInteractionMode,
    XrVisibilityState,
};
use bevy_xr::session::{
    select_blend_mode, select_view_configuration, session_mode_available, should_submit_layers,
    FrameDirective, SessionAction, SessionLoop, XrSessionMode, XrSessionState,
    XrViewConfigurationType,
};

#[test]
fn immersive_modes_render_stereo() {
    assert_eq!(
        select_view_configuration(XrSessionMode::ImmersiveVR, false),
        XrViewConfigurationType::PrimaryStereo
    );
    assert_eq!(
        select_view_configuration(XrSessionMode::ImmersiveAR, false),
        XrViewConfigurationType::PrimaryStereo
    );
}

#[test]
fn immersive_modes_use_quad_views_when_supported() {
    assert_eq!(
        select_view_configuration(XrSessionMode::ImmersiveVR, true),
        XrViewConfigurationType::PrimaryQuad
    );
}

#[test]
fn inline_modes_render_mono() {
    assert_eq!(
        select_view_configuration(XrSessionMode::InlineVR, true),
        XrViewConfigurationType::PrimaryMono
    );
    assert_eq!(
        select_view_configuration(XrSessionMode::InlineAR, false),
        XrViewConfigurationType::PrimaryMono
    );
}

#[test]
fn vr_wants_an_opaque_display() {
    let offered = vec![
        XrEnvironmentBlendMode::Additive,
        XrEnvironmentBlendMode::Opaque,
    ];
    assert_eq!(
        select_blend_mode(XrSessionMode::ImmersiveVR, &offered),
        Some(XrEnvironmentBlendMode::Opaque)
    );
}

#[test]
fn vr_without_an_opaque_display_fails() {
    let offered = vec![
        XrEnvironmentBlendMode::Additive,
        XrEnvironmentBlendMode::AlphaBlend,
    ];
    assert_eq!(select_blend_mode(XrSessionMode::InlineVR, &offered), None);
    assert!(!session_mode_available(XrSessionMode::InlineVR, &offered));
}

#[test]
fn ar_prefers_alpha_blending() {
    let offered = vec![
        XrEnvironmentBlendMode::Additive,
        XrEnvironmentBlendMode::AlphaBlend,
    ];
    assert_eq!(
        select_blend_mode(XrSessionMode::ImmersiveAR, &offered),
        Some(XrEnvironmentBlendMode::AlphaBlend)
    );
}

#[test]
fn ar_falls_back_to_an_additive_display() {
    let offered = vec![XrEnvironmentBlendMode::Additive];
    assert_eq!(
        select_blend_mode(XrSessionMode::InlineAR, &offered),
        Some(XrEnvironmentBlendMode::Additive)
    );
}

#[test]
fn ar_with_only_an_opaque_display_fails() {
    let offered = vec![XrEnvironmentBlendMode::Opaque];
    assert_eq!(select_blend_mode(XrSessionMode::ImmersiveAR, &offered), None);
}

#[test]
fn empty_offer_fits_no_mode() {
    let offered: Vec<XrEnvironmentBlendMode> = Vec::new();
    assert_eq!(select_blend_mode(XrSessionMode::ImmersiveVR, &offered), None);
    assert_eq!(select_blend_mode(XrSessionMode::ImmersiveAR, &offered), None);
}

#[test]
fn fresh_session_loop_is_not_running() {
    let s = SessionLoop::new();
    assert!(!s.running);
    assert_eq!(s.frame_count, 0);
}

#[test]
fn ready_begins_the_session() {
    let mut s = SessionLoop::new();
    let action = s.handle_state_change(XrSessionState::Ready);
    assert_eq!(action, SessionAction::Begin);
    assert!(s.running);
}

#[test]
fn stopping_ends_the_session() {
    let mut s = SessionLoop::new();
    s.handle_state_change(XrSessionState::Ready);
    let action = s.handle_state_change(XrSessionState::Stopping);
    assert_eq!(action, SessionAction::End);
    assert!(!s.running);
}

#[test]
fn visibility_states_are_published() {
    let mut s = SessionLoop::new();
    assert_eq!(
        s.handle_state_change(XrSessionState::Synchronized),
        SessionAction::SetVisibility(XrVisibilityState::Hidden)
    );
    assert_eq!(
        s.handle_state_change(XrSessionState::Visible),
        SessionAction::SetVisibility(XrVisibilityState::VisibleUnfocused)
    );
    assert_eq!(
        s.handle_state_change(XrSessionState::Focused),
        SessionAction::SetVisibility(XrVisibilityState::VisibleFocused)
    );
}

#[test]
fn exiting_and_loss_leave_the_loop() {
    let mut s = SessionLoop::new();
    assert_eq!(
        s.handle_state_change(XrSessionState::Exiting),
        SessionAction::Exit
    );
    assert_eq!(
        s.handle_state_change(XrSessionState::LossPending),
        SessionAction::Exit
    );
}

#[test]
fn idle_states_do_nothing() {
    let mut s = SessionLoop::new();
    s.handle_state_change(XrSessionState::Ready);
    assert_eq!(
        s.handle_state_change(XrSessionState::Unknown),
        SessionAction::Idle
    );
    assert_eq!(
        s.handle_state_change(XrSessionState::Idle),
        SessionAction::Idle
    );
    assert!(s.running);
}

#[test]
fn refresh_rate_boost_fires_every_thousand_frames() {
    let mut s = SessionLoop::new();
    assert!(s.wants_refresh_rate_boost());
    s.enter_frame();
    assert_eq!(s.frame_count, 1);
    assert!(!s.wants_refresh_rate_boost());
    for _ in 1..1000 {
        s.enter_frame();
    }
    assert_eq!(s.frame_count, 1000);
    assert!(s.wants_refresh_rate_boost());
}

#[test]
fn frames_wait_until_the_session_begins() {
    let mut s = SessionLoop::new();
    assert_eq!(s.frame_directive(true), FrameDirective::Sleep);
    s.handle_state_change(XrSessionState::Ready);
    assert_eq!(s.frame_directive(false), FrameDirective::SkipFrame);
    assert_eq!(s.frame_directive(true), FrameDirective::Render);
}

#[test]
fn layers_need_a_fully_valid_pose() {
    assert!(should_submit_layers(true, true));
    assert!(!should_submit_layers(true, false));
    assert!(!should_submit_layers(false, true));
    assert!(!should_submit_layers(false, false));
}

#[test]
fn head_mounted_displays_interact_in_world_space() {
    assert_eq!(
        interaction_mode_for_head_mounted(true),
        XrInteractionMode::WorldSpace
    );
    assert_eq!(
        interaction_mode_for_head_mounted(false),
        XrInteractionMode::ScreenSpace
    );
}
