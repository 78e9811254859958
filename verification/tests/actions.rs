use bevy_xr::actions::{
    handedness_name, oculus_touch_profile, oculus_touch_profile_path, setup_interaction,
    XrActionSet, XrActionState, XrActionType, XrButtonState, XrHandedness, XrSystem,
};
use bevy_xr::errors::{system_error, AdapterError, OpenXrError};
use bevy_xr::session::XrSessionMode;

#[test]
fn hands_go_by_their_profile_names() {
    assert_eq!(handedness_name(XrHandedness::Left), "left");
    assert_eq!(handedness_name(XrHandedness::Right), "right");
    assert_eq!(handedness_name(XrHandedness::NoHand), "none");
}

#[test]
fn the_system_selects_the_first_offered_mode() {
    let system = XrSystem::new(vec![XrSessionMode::ImmersiveVR, XrSessionMode::InlineVR]);
    assert_eq!(system.selected_session_mode(), XrSessionMode::ImmersiveVR);
    assert_eq!(
        system.available_session_modes(),
        &vec![XrSessionMode::ImmersiveVR, XrSessionMode::InlineVR]
    );
    assert!(system.action_set().is_empty());
}

#[test]
fn a_supported_mode_can_be_requested() {
    let mut system = XrSystem::new(vec![XrSessionMode::ImmersiveVR, XrSessionMode::InlineVR]);
    assert!(system.is_session_mode_supported(XrSessionMode::InlineVR));
    assert!(!system.is_session_mode_supported(XrSessionMode::ImmersiveAR));
    assert!(system.request_session_mode(XrSessionMode::InlineVR));
    assert_eq!(system.selected_session_mode(), XrSessionMode::InlineVR);
    assert!(!system.request_session_mode(XrSessionMode::ImmersiveAR));
    assert_eq!(system.selected_session_mode(), XrSessionMode::InlineVR);
}

#[test]
fn the_oculus_touch_profile_binds_four_actions() {
    let p = oculus_touch_profile();
    assert_eq!(p.profile, oculus_touch_profile_path());
    assert_eq!(p.profile, "/interaction_profiles/oculus/touch_controller");
    assert!(p.is_tracked);
    assert!(p.has_haptics);
    assert_eq!(p.bindings.len(), 4);
    assert_eq!(p.bindings[0].0.name, "left_trigger");
    assert_eq!(
        p.bindings[0].0.action_type,
        XrActionType::Button { touch: true, click: false, value: true }
    );
    assert_eq!(p.bindings[0].1, "/user/hand/left/input/trigger");
    assert_eq!(p.bindings[1].0.name, "left_x");
    assert_eq!(
        p.bindings[1].0.action_type,
        XrActionType::Button { touch: true, click: true, value: false }
    );
    assert_eq!(p.bindings[1].1, "/user/hand/left/input/x");
    assert_eq!(p.bindings[2].0.name, "right_trigger");
    assert_eq!(p.bindings[2].1, "/user/hand/right/input/trigger");
    assert_eq!(p.bindings[3].0.name, "right_a");
    assert_eq!(p.bindings[3].1, "/user/hand/right/input/a");
}

#[test]
fn android_runtimes_get_the_oculus_profile() {
    let mut system = XrSystem::new(vec![XrSessionMode::ImmersiveVR]);
    setup_interaction(&mut system, true);
    assert_eq!(system.action_set().len(), 1);
    assert_eq!(
        system.action_set()[0].profile,
        "/interaction_profiles/oculus/touch_controller"
    );
    assert_eq!(system.action_set()[0].bindings.len(), 4);
}

#[test]
fn other_runtimes_keep_their_registration() {
    let mut system = XrSystem::new(vec![XrSessionMode::ImmersiveVR]);
    setup_interaction(&mut system, false);
    assert!(system.action_set().is_empty());
}

#[test]
fn the_action_set_hands_back_what_was_recorded() {
    let mut set: XrActionSet<i32> = XrActionSet::new();
    assert_eq!(set.len(), 0);
    set.set(vec![
        (
            "left/trigger".to_string(),
            XrActionState::Button { state: XrButtonState::Pressed, value: 7 },
        ),
        (
            "left/thumbstick".to_string(),
            XrActionState::Vec2D { x: 1, y: 2 },
        ),
    ]);
    assert_eq!(set.len(), 2);
    match set.get(&"left/trigger".to_string()) {
        Some(XrActionState::Button { state, value }) => {
            assert_eq!(state, XrButtonState::Pressed);
            assert_eq!(value, 7);
        }
        _ => panic!("expected a button state"),
    }
    match set.get(&"left/thumbstick".to_string()) {
        Some(XrActionState::Vec2D { x, y }) => {
            assert_eq!(x, 1);
            assert_eq!(y, 2);
        }
        _ => panic!("expected a two-dimensional state"),
    }
    assert!(set.get(&"right/trigger".to_string()).is_none());
}

#[test]
fn form_factor_results_map_to_their_errors() {
    assert_eq!(system_error(-34), OpenXrError::UnsupportedFormFactor);
    assert_eq!(system_error(-35), OpenXrError::UnavailableFormFactor);
}

#[test]
fn the_adapter_error_names_itself() {
    assert_eq!(AdapterError.message(), "Error creating HAL adapter");
}
