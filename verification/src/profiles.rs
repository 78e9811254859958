//! WebXR input profiles: the shape of an entry of the input-profiles
//! registry, which describes a controller's gamepad layout per hand.
//! The registry entry reaches the library as plain values; reading its JSON
//! form happens outside.

use vstd::prelude::*;

verus! {

/// What a controller component is, which decides what kind of action it
/// feeds.
#[derive(Clone, Copy, PartialEq, Eq, Structural, Debug)]
pub enum WebXRComponentType {
    Trigger,
    Squeeze,
    Touchpad,
    Thumbstick,
    Button,
}

/// One component of a controller layout.
#[derive(Clone, Debug)]
pub struct WebXrComponent {
    pub component_type: WebXRComponentType,
    pub reserved: Option<bool>,
}

/// One gamepad axis: which component it belongs to and whether it is that
/// component's x or y axis (the registry writes `x-axis` or `y-axis`).
#[derive(Clone, Debug)]
pub struct WebXRAxis {
    pub component_id: String,
    pub axis: String,
}

impl WebXRAxis {
    /// Whether this is the x axis of its component; any other axis name is
    /// taken as the y axis.
    pub open spec fn spec_is_x(&self) -> bool {
        self.axis@ == "x-axis"@
    }

    pub fn is_x(&self) -> (r: bool)
        ensures
            r == self.spec_is_x(),
    {
        self.axis == "x-axis".to_owned()
    }
}

/// The gamepad block of a layout: the button names and axes in the order
/// the browser reports their readings, with gaps for slots the layout does
/// not use.
#[derive(Clone, Debug)]
pub struct WebXRGamepad {
    pub mapping: String,
    pub buttons: Vec<Option<String>>,
    pub axes: Vec<Option<WebXRAxis>>,
}

/// One hand's layout: its selection component, its gamepad block, and its
/// components by identifier.
#[derive(Clone, Debug)]
pub struct Layout {
    pub select_component_id: String,
    pub gamepad: WebXRGamepad,
    pub components: Vec<(String, WebXrComponent)>,
}

/// A registry entry: the profile's identifier, its layouts by handedness
/// (`left`, `right`, ...), and the profiles to fall back to.
#[derive(Clone, Debug)]
pub struct WebXRProfile {
    pub profile_id: String,
    pub layouts: Vec<(String, Layout)>,
    pub fallback_profile_ids: Vec<String>,
}

/// The position of the first entry at or after `i` whose key reads `key`,
/// `None` when no entry at or after `i` has that key.
pub open spec fn spec_key_position_from<T>(entries: Seq<(String, T)>, key: Seq<char>, i: int) -> Option<int>
    decreases entries.len() - i,
{
    if i < 0 || i >= entries.len() {
        None
    } else if entries[i].0@ == key {
        Some(i)
    } else {
        spec_key_position_from(entries, key, i + 1)
    }
}

/// The position of the first entry whose key reads `key`.
pub open spec fn spec_key_position<T>(entries: Seq<(String, T)>, key: Seq<char>) -> Option<int> {
    spec_key_position_from(entries, key, 0)
}

impl WebXRProfile {
    /// The position of the layout for `handedness` among this profile's
    /// layouts, `None` when the profile has no layout for that hand.
    pub fn layout_position(&self, handedness: &String) -> (r: Option<usize>)
        ensures
            r matches Some(p) ==> spec_key_position(self.layouts@, handedness@) == Some(p as int)
                && p < self.layouts@.len() && self.layouts@[p as int].0@ == handedness@,
            r is None ==> spec_key_position(self.layouts@, handedness@) is None,
    {
        layout_position_from(&self.layouts, handedness, 0)
    }
}

/// Searches the layout list from `i` on for the first entry keyed by
/// `handedness`.
fn layout_position_from(layouts: &Vec<(String, Layout)>, handedness: &String, i: usize) -> (r: Option<usize>)
    ensures
        r matches Some(p) ==> spec_key_position_from(layouts@, handedness@, i as int) == Some(p as int)
            && i <= p < layouts@.len() && layouts@[p as int].0@ == handedness@,
        r is None ==> spec_key_position_from(layouts@, handedness@, i as int) is None,
    decreases layouts@.len() - i,
{
    if i >= layouts.len() {
        None
    } else if layouts[i].0 == *handedness {
        Some(i)
    } else {
        layout_position_from(layouts, handedness, i + 1)
    }
}

} // verus!
