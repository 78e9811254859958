//! Which OpenXR instance extensions the backend enables: everything the
//! backend can use that the runtime offers, and the Vulkan bridge it cannot
//! run without.

use vstd::prelude::*;

verus! {

/// The instance extensions the backend cares about, each a flag that says
/// whether the runtime offers (or the backend requests) it.
#[derive(Clone, Copy, PartialEq, Eq, Structural, Debug)]
pub struct ExtensionSet {
    pub khr_composition_layer_depth: bool,
    pub khr_vulkan_enable: bool,
    pub khr_vulkan_enable2: bool,
    pub ext_debug_utils: bool,
    pub ext_eye_gaze_interaction: bool,
    pub ext_hand_tracking: bool,
    pub ext_hp_mixed_reality_controller: bool,
    pub ext_performance_settings: bool,
    pub ext_samsung_odyssey_controller: bool,
    pub ext_thermal_query: bool,
    pub fb_color_space: bool,
    pub fb_display_refresh_rate: bool,
    pub htc_vive_cosmos_controller_interaction: bool,
    pub huawei_controller_interaction: bool,
    pub msft_hand_interaction: bool,
    pub msft_secondary_view_configuration: bool,
    pub msft_spatial_anchor: bool,
    pub varjo_quad_views: bool,
}

impl Default for ExtensionSet {
    /// No extension selected.
    fn default() -> (r: ExtensionSet)
        ensures
            r == ExtensionSet::none_spec(),
    {
        ExtensionSet {
            khr_composition_layer_depth: false,
            khr_vulkan_enable: false,
            khr_vulkan_enable2: false,
            ext_debug_utils: false,
            ext_eye_gaze_interaction: false,
            ext_hand_tracking: false,
            ext_hp_mixed_reality_controller: false,
            ext_performance_settings: false,
            ext_samsung_odyssey_controller: false,
            ext_thermal_query: false,
            fb_color_space: false,
            fb_display_refresh_rate: false,
            htc_vive_cosmos_controller_interaction: false,
            huawei_controller_interaction: false,
            msft_hand_interaction: false,
            msft_secondary_view_configuration: false,
            msft_spatial_anchor: false,
            varjo_quad_views: false,
        }
    }
}

impl ExtensionSet {
    /// The set with every flag off.
    pub open spec fn none_spec() -> ExtensionSet {
        ExtensionSet {
            khr_composition_layer_depth: false,
            khr_vulkan_enable: false,
            khr_vulkan_enable2: false,
            ext_debug_utils: false,
            ext_eye_gaze_interaction: false,
            ext_hand_tracking: false,
            ext_hp_mixed_reality_controller: false,
            ext_performance_settings: false,
            ext_samsung_odyssey_controller: false,
            ext_thermal_query: false,
            fb_color_space: false,
            fb_display_refresh_rate: false,
            htc_vive_cosmos_controller_interaction: false,
            huawei_controller_interaction: false,
            msft_hand_interaction: false,
            msft_secondary_view_configuration: false,
            msft_spatial_anchor: false,
            varjo_quad_views: false,
        }
    }
}

/// The extensions the backend enables, given the set the runtime offers.
/// Every optional extension follows availability; `khr_vulkan_enable2` is
/// requested unconditionally (required for how the backend drives Vulkan),
/// and the debug utilities only in debug builds.
pub open spec fn spec_selected_extensions(available: ExtensionSet, debug_build: bool) -> ExtensionSet {
    ExtensionSet {
        khr_composition_layer_depth: available.khr_composition_layer_depth,
        khr_vulkan_enable: available.khr_vulkan_enable,
        khr_vulkan_enable2: true,
        ext_debug_utils: debug_build && available.ext_debug_utils,
        ext_eye_gaze_interaction: available.ext_eye_gaze_interaction,
        ext_hand_tracking: available.ext_hand_tracking,
        ext_hp_mixed_reality_controller: available.ext_hp_mixed_reality_controller,
        ext_performance_settings: available.ext_performance_settings,
        ext_samsung_odyssey_controller: available.ext_samsung_odyssey_controller,
        ext_thermal_query: available.ext_thermal_query,
        fb_color_space: available.fb_color_space,
        fb_display_refresh_rate: available.fb_display_refresh_rate,
        htc_vive_cosmos_controller_interaction: available.htc_vive_cosmos_controller_interaction,
        huawei_controller_interaction: available.huawei_controller_interaction,
        msft_hand_interaction: available.msft_hand_interaction,
        msft_secondary_view_configuration: available.msft_secondary_view_configuration,
        msft_spatial_anchor: available.msft_spatial_anchor,
        varjo_quad_views: available.varjo_quad_views,
    }
}

/// Selects the extensions to enable on instance creation out of those the
/// runtime reports as available.
pub fn selected_extensions(available: &ExtensionSet, debug_build: bool) -> (r: ExtensionSet)
    ensures
        r == spec_selected_extensions(*available, debug_build),
{
    let mut exts = ExtensionSet::default();
    exts.khr_composition_layer_depth = available.khr_composition_layer_depth;
    exts.khr_vulkan_enable = available.khr_vulkan_enable;
    exts.khr_vulkan_enable2 = true;
    if debug_build {
        exts.ext_debug_utils = available.ext_debug_utils;
    }
    exts.ext_eye_gaze_interaction = available.ext_eye_gaze_interaction;
    exts.ext_hand_tracking = available.ext_hand_tracking;
    exts.ext_hp_mixed_reality_controller = available.ext_hp_mixed_reality_controller;
    exts.ext_performance_settings = available.ext_performance_settings;
    exts.ext_samsung_odyssey_controller = available.ext_samsung_odyssey_controller;
    exts.ext_thermal_query = available.ext_thermal_query;
    exts.fb_color_space = available.fb_color_space;
    exts.fb_display_refresh_rate = available.fb_display_refresh_rate;
    exts.htc_vive_cosmos_controller_interaction = available.htc_vive_cosmos_controller_interaction;
    exts.huawei_controller_interaction = available.huawei_controller_interaction;
    exts.msft_hand_interaction = available.msft_hand_interaction;
    exts.msft_secondary_view_configuration = available.msft_secondary_view_configuration;
    exts.msft_spatial_anchor = available.msft_spatial_anchor;
    exts.varjo_quad_views = available.varjo_quad_views;
    exts
}

} // verus!
