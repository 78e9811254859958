//! Turns one controller's raw gamepad readings into named action states:
//! buttons become button states under `hand/component` names, paired axis
//! readings are merged into two-dimensional states. The browser hands in the
//! readings; the library decides what they mean.

use vstd::prelude::*;
use crate::actions::{
    handedness_name, spec_handedness_name, XrActionDescriptor, XrActionState, XrActionType,
    XrButtonState, XrHandedness, XrProfileDescriptor,
};
use crate::profiles::{
    spec_key_position, Layout, WebXRAxis, WebXRComponentType, WebXRProfile,
};

verus! {

/// One button's raw reading, each aspect missing when the browser did not
/// report it. The value type is the backend's scalar; the library routes it
/// without reading it.
#[derive(Clone, Copy, Debug)]
pub struct ButtonReading<V> {
    pub value: Option<V>,
    pub pressed: Option<bool>,
    pub touched: Option<bool>,
}

/// The button state a raw reading means: reported pressed wins, reported
/// released-but-touched counts as touched, anything else is the default
/// state.
pub open spec fn spec_button_state(pressed: Option<bool>, touched: Option<bool>) -> XrButtonState {
    if pressed == Some(true) {
        XrButtonState::Pressed
    } else if pressed == Some(false) && touched == Some(true) {
        XrButtonState::Touched
    } else {
        XrButtonState::Default
    }
}

/// Classifies a button's raw reading.
pub fn button_state(pressed: Option<bool>, touched: Option<bool>) -> (r: XrButtonState)
    ensures
        r == spec_button_state(pressed, touched),
{
    match (pressed, touched) {
        (Some(true), _) => XrButtonState::Pressed,
        (Some(false), Some(true)) => XrButtonState::Touched,
        (_, _) => XrButtonState::Default,
    }
}

/// An action's full name: the hand's name, a slash, the component's name.
pub open spec fn spec_action_name(hand: Seq<char>, key: Seq<char>) -> Seq<char> {
    hand + "/"@ + key
}

/// Builds an action's full name.
pub fn action_name(hand: &str, key: &str) -> (r: String)
    ensures
        r@ == spec_action_name(hand@, key@),
{
    let mut s = hand.to_owned();
    s.append("/");
    s.append(key);
    s
}

/// The name-and-state views of a list of action entries.
pub open spec fn entry_views<V>(s: Seq<(String, XrActionState<V>)>) -> Seq<(Seq<char>, XrActionState<V>)> {
    s.map_values(|p: (String, XrActionState<V>)| (p.0@, p.1))
}

/// The reading of button `i`, all aspects missing when the browser reported
/// fewer buttons than the layout names.
pub open spec fn spec_reading_at<V>(readings: Seq<ButtonReading<V>>, i: int) -> ButtonReading<V> {
    if 0 <= i < readings.len() {
        readings[i]
    } else {
        ButtonReading { value: None, pressed: None, touched: None }
    }
}

/// A reading's value, or the stand-in for a missing one.
pub open spec fn spec_value_or<V>(value: Option<V>, missing: V) -> V {
    match value {
        Some(v) => v,
        None => missing,
    }
}

/// The action entries of the first `n` button slots of a layout: one entry
/// per named slot, carrying the slot's classified state and its value (or
/// `missing` where the browser reported none).
pub open spec fn spec_button_entries<V>(
    hand: Seq<char>,
    buttons: Seq<Option<String>>,
    readings: Seq<ButtonReading<V>>,
    missing: V,
    n: int,
) -> Seq<(Seq<char>, XrActionState<V>)>
    decreases n,
{
    if n <= 0 {
        Seq::empty()
    } else {
        let prev = spec_button_entries(hand, buttons, readings, missing, n - 1);
        match buttons[n - 1] {
            None => prev,
            Some(name) => {
                let reading = spec_reading_at(readings, n - 1);
                prev.push((
                    spec_action_name(hand, name@),
                    (XrActionState::Button {
                        state: spec_button_state(reading.pressed, reading.touched),
                        value: spec_value_or(reading.value, missing),
                    }),
                ))
            }
        }
    }
}

/// Classifies every named button slot of a layout against the browser's
/// readings.
pub fn button_entries<V: Copy>(
    hand: &str,
    buttons: &Vec<Option<String>>,
    readings: &Vec<ButtonReading<V>>,
    missing: V,
) -> (r: Vec<(String, XrActionState<V>)>)
    ensures
        entry_views(r@) == spec_button_entries(hand@, buttons@, readings@, missing, buttons@.len() as int),
{
    let mut out: Vec<(String, XrActionState<V>)> = Vec::new();
    proof {
        assert(entry_views(out@) =~= spec_button_entries(hand@, buttons@, readings@, missing, 0));
    }
    let mut i: usize = 0;
    while i < buttons.len()
        invariant
            i <= buttons@.len(),
            entry_views(out@) == spec_button_entries(hand@, buttons@, readings@, missing, i as int),
        decreases buttons@.len() - i,
    {
        match &buttons[i] {
            None => {}
            Some(name) => {
                let reading: ButtonReading<V> = if i < readings.len() {
                    readings[i]
                } else {
                    ButtonReading { value: None, pressed: None, touched: None }
                };
                let value: V = match reading.value {
                    Some(v) => v,
                    None => missing,
                };
                let state = button_state(reading.pressed, reading.touched);
                let full_name = action_name(hand, name.as_str());
                out.push((full_name, XrActionState::Button { state, value }));
            }
        }
        proof {
            assert(entry_views(out@) =~= spec_button_entries(hand@, buttons@, readings@, missing, i + 1));
        }
        i += 1;
    }
    out
}

/// The name-and-values views of a list of merged axis pairs.
pub open spec fn axis_pair_views<V>(s: Seq<(String, (V, V))>) -> Seq<(Seq<char>, (V, V))> {
    s.map_values(|p: (String, (V, V))| (p.0@, p.1))
}

/// The position of the first pair at or after `i` whose name is `key`.
pub open spec fn spec_pair_position_from<T>(s: Seq<(Seq<char>, T)>, key: Seq<char>, i: int) -> Option<int>
    decreases s.len() - i,
{
    if i < 0 || i >= s.len() {
        None
    } else if s[i].0 == key {
        Some(i)
    } else {
        spec_pair_position_from(s, key, i + 1)
    }
}

/// One axis reading folded into the merged pairs: it updates its component's
/// pair if the component already has one, else opens a fresh pair whose
/// other coordinate is `zero`.
pub open spec fn spec_apply_axis<V>(
    s: Seq<(Seq<char>, (V, V))>,
    key: Seq<char>,
    is_x: bool,
    v: V,
    zero: V,
) -> Seq<(Seq<char>, (V, V))> {
    match spec_pair_position_from(s, key, 0) {
        Some(j) => s.update(j, (key, if is_x { (v, s[j].1.1) } else { (s[j].1.0, v) })),
        None => s.push((key, if is_x { (v, zero) } else { (zero, v) })),
    }
}

/// The merged axis pairs of the first `n` axis slots of a layout: every
/// named slot with a reading contributes its value to its component's pair.
pub open spec fn spec_axis_pairs<V>(
    hand: Seq<char>,
    axes: Seq<Option<WebXRAxis>>,
    readings: Seq<Option<V>>,
    zero: V,
    n: int,
) -> Seq<(Seq<char>, (V, V))>
    decreases n,
{
    if n <= 0 {
        Seq::empty()
    } else {
        let prev = spec_axis_pairs(hand, axes, readings, zero, n - 1);
        match axes[n - 1] {
            None => prev,
            Some(ax) => {
                let reading = if 0 <= n - 1 < readings.len() {
                    readings[n - 1]
                } else {
                    None
                };
                match reading {
                    None => prev,
                    Some(v) => spec_apply_axis(
                        prev,
                        spec_action_name(hand, ax.component_id@),
                        ax.spec_is_x(),
                        v,
                        zero,
                    ),
                }
            }
        }
    }
}

/// Searches the merged pairs from `i` on for the first pair named `key`.
fn pair_position_from<V: Copy>(pairs: &Vec<(String, (V, V))>, key: &String, i: usize) -> (r: Option<usize>)
    ensures
        r matches Some(p) ==> spec_pair_position_from(axis_pair_views(pairs@), key@, i as int) == Some(p as int)
            && i <= p < pairs@.len() && pairs@[p as int].0@ == key@,
        r is None ==> spec_pair_position_from(axis_pair_views(pairs@), key@, i as int) is None,
    decreases pairs@.len() - i,
{
    if i >= pairs.len() {
        None
    } else if pairs[i].0 == *key {
        Some(i)
    } else {
        pair_position_from(pairs, key, i + 1)
    }
}

/// Folds one axis reading into the merged pairs.
fn apply_axis<V: Copy>(pairs: &mut Vec<(String, (V, V))>, key: String, is_x: bool, v: V, zero: V)
    ensures
        axis_pair_views(final(pairs)@) == spec_apply_axis(axis_pair_views(old(pairs)@), key@, is_x, v, zero),
{
    match pair_position_from(pairs, &key, 0) {
        Some(j) => {
            let entry = pairs.remove(j);
            let updated: (V, V) = if is_x { (v, entry.1.1) } else { (entry.1.0, v) };
            pairs.insert(j, (entry.0, updated));
            proof {
                assert(pairs@ =~= old(pairs)@.update(j as int, (entry.0, updated)));
                assert(axis_pair_views(pairs@) =~= spec_apply_axis(axis_pair_views(old(pairs)@), key@, is_x, v, zero));
            }
        }
        None => {
            pairs.push((key, if is_x { (v, zero) } else { (zero, v) }));
            proof {
                assert(axis_pair_views(pairs@) =~= spec_apply_axis(axis_pair_views(old(pairs)@), key@, is_x, v, zero));
            }
        }
    }
}

/// Merges every named axis slot of a layout with the browser's readings
/// into per-component pairs.
pub fn axis_pairs<V: Copy>(
    hand: &str,
    axes: &Vec<Option<WebXRAxis>>,
    readings: &Vec<Option<V>>,
    zero: V,
) -> (r: Vec<(String, (V, V))>)
    ensures
        axis_pair_views(r@) == spec_axis_pairs(hand@, axes@, readings@, zero, axes@.len() as int),
{
    let mut out: Vec<(String, (V, V))> = Vec::new();
    proof {
        assert(axis_pair_views(out@) =~= spec_axis_pairs(hand@, axes@, readings@, zero, 0));
    }
    let mut i: usize = 0;
    while i < axes.len()
        invariant
            i <= axes@.len(),
            axis_pair_views(out@) == spec_axis_pairs(hand@, axes@, readings@, zero, i as int),
        decreases axes@.len() - i,
    {
        match &axes[i] {
            None => {}
            Some(ax) => {
                let reading: Option<V> = if i < readings.len() {
                    readings[i]
                } else {
                    None
                };
                match reading {
                    None => {}
                    Some(v) => {
                        let key = action_name(hand, ax.component_id.as_str());
                        let is_x = ax.is_x();
                        apply_axis(&mut out, key, is_x, v, zero);
                    }
                }
            }
        }
        proof {
            assert(axis_pair_views(out@) =~= spec_axis_pairs(hand@, axes@, readings@, zero, i + 1));
        }
        i += 1;
    }
    out
}

/// Merged axis pairs as two-dimensional action entries.
pub open spec fn spec_vec2_entries<V>(s: Seq<(Seq<char>, (V, V))>) -> Seq<(Seq<char>, XrActionState<V>)> {
    s.map_values(|p: (Seq<char>, (V, V))| (p.0, (XrActionState::Vec2D { x: p.1.0, y: p.1.1 })))
}

/// Wraps merged axis pairs as two-dimensional action entries.
fn vec2_entries<V: Copy>(pairs: Vec<(String, (V, V))>) -> (r: Vec<(String, XrActionState<V>)>)
    ensures
        entry_views(r@) == spec_vec2_entries(axis_pair_views(pairs@)),
{
    let mut out: Vec<(String, XrActionState<V>)> = Vec::new();
    let mut i: usize = 0;
    while i < pairs.len()
        invariant
            i <= pairs@.len(),
            entry_views(out@) =~= spec_vec2_entries(axis_pair_views(pairs@.subrange(0, i as int))),
        decreases pairs@.len() - i,
    {
        let name = pairs[i].0.clone();
        let xy = pairs[i].1;
        out.push((name, XrActionState::Vec2D { x: xy.0, y: xy.1 }));
        proof {
            assert(axis_pair_views(pairs@.subrange(0, i + 1 as int))
                =~= axis_pair_views(pairs@.subrange(0, i as int)).push((pairs@[i as int].0@, pairs@[i as int].1)));
            assert(spec_vec2_entries(axis_pair_views(pairs@.subrange(0, i as int)).push((pairs@[i as int].0@, pairs@[i as int].1)))
                =~= spec_vec2_entries(axis_pair_views(pairs@.subrange(0, i as int)))
                    .push((pairs@[i as int].0@, (XrActionState::Vec2D { x: pairs@[i as int].1.0, y: pairs@[i as int].1.1 }))));
            assert(entry_views(out@) =~= spec_vec2_entries(axis_pair_views(pairs@.subrange(0, i + 1))));
        }
        i += 1;
    }
    proof {
        assert(pairs@.subrange(0, pairs@.len() as int) =~= pairs@);
    }
    out
}

/// Everything one controller reports in one frame: its button entries, then
/// its merged axis entries.
pub open spec fn spec_gamepad_action_states<V>(
    hand: XrHandedness,
    layout: Layout,
    buttons: Seq<ButtonReading<V>>,
    axes: Seq<Option<V>>,
    missing: V,
    zero: V,
) -> Seq<(Seq<char>, XrActionState<V>)> {
    spec_button_entries(
        spec_handedness_name(hand),
        layout.gamepad.buttons@,
        buttons,
        missing,
        layout.gamepad.buttons@.len() as int,
    ) + spec_vec2_entries(
        spec_axis_pairs(
            spec_handedness_name(hand),
            layout.gamepad.axes@,
            axes,
            zero,
            layout.gamepad.axes@.len() as int,
        ),
    )
}

/// Turns one controller's raw readings into its named action states:
/// buttons first, then the merged axes. `missing` stands in for a button
/// value the browser did not report, `zero` for the untouched coordinate of
/// a half-read pair.
pub fn gamepad_action_states<V: Copy>(
    hand: XrHandedness,
    layout: &Layout,
    buttons: &Vec<ButtonReading<V>>,
    axes: &Vec<Option<V>>,
    missing: V,
    zero: V,
) -> (r: Vec<(String, XrActionState<V>)>)
    ensures
        entry_views(r@) == spec_gamepad_action_states(hand, *layout, buttons@, axes@, missing, zero),
{
    let hand_str = handedness_name(hand);
    let mut out = button_entries(hand_str, &layout.gamepad.buttons, buttons, missing);
    let pairs = axis_pairs(hand_str, &layout.gamepad.axes, axes, zero);
    let mut tail = vec2_entries(pairs);
    out.append(&mut tail);
    proof {
        assert(entry_views(out@) =~= spec_gamepad_action_states(hand, *layout, buttons@, axes@, missing, zero));
    }
    out
}

/// Turns one controller's raw readings into its named action states, looking
/// its layout up by hand: a controller whose hand the profile has no layout
/// for contributes no states.
pub fn handle_gamepad_input<V: Copy>(
    hand: XrHandedness,
    profile: &WebXRProfile,
    buttons: &Vec<ButtonReading<V>>,
    axes: &Vec<Option<V>>,
    missing: V,
    zero: V,
) -> (r: Vec<(String, XrActionState<V>)>)
    ensures
        spec_key_position(profile.layouts@, spec_handedness_name(hand)) is None ==> r@.len() == 0,
        spec_key_position(profile.layouts@, spec_handedness_name(hand)) matches Some(p) ==>
            entry_views(r@) == spec_gamepad_action_states(
                hand,
                profile.layouts@[p].1,
                buttons@,
                axes@,
                missing,
                zero,
            ),
{
    let hand_string = handedness_name(hand).to_owned();
    match profile.layout_position(&hand_string) {
        None => Vec::new(),
        Some(p) => gamepad_action_states(hand, &profile.layouts[p].1, buttons, axes, missing, zero),
    }
}

/// Whether a controller advertises the Oculus Touch profile among the
/// profile identifiers the browser reports for it.
pub fn advertises_oculus_touch(profiles: &Vec<String>) -> (r: bool)
    ensures
        r == (exists|i: int| 0 <= i < profiles@.len() && (#[trigger] profiles@[i])@ == "oculus-touch"@),
{
    let target = "oculus-touch".to_owned();
    let mut found: bool = false;
    let mut i: usize = 0;
    while i < profiles.len()
        invariant
            i <= profiles@.len(),
            target@ == "oculus-touch"@,
            found == (exists|k: int| 0 <= k < i && (#[trigger] profiles@[k])@ == "oculus-touch"@),
        decreases profiles@.len() - i,
    {
        if profiles[i] == target {
            found = true;
            proof {
                assert(profiles@[i as int]@ == "oculus-touch"@);
            }
        }
        i += 1;
    }
    found
}

/// Registers the Oculus Touch profile with the given bindings, once: only
/// when no profile is registered yet and at least one controller is present;
/// otherwise the registration stands as it was.
pub fn web_setup_interaction(
    system: &mut crate::actions::XrSystem,
    bindings: Vec<(XrActionDescriptor, String)>,
    have_sources: bool,
) -> (registered: bool)
    ensures
        registered == (old(system).profiles().len() == 0 && have_sources),
        registered ==> final(system).profiles().len() == 1
            && final(system).profiles()[0].profile@ == "oculus-touch"@
            && final(system).profiles()[0].bindings@ == bindings@
            && final(system).profiles()[0].is_tracked
            && final(system).profiles()[0].has_haptics,
        !registered ==> final(system).profiles() == old(system).profiles(),
        final(system).modes() == old(system).modes(),
        final(system).selected_mode() == old(system).selected_mode(),
{
    if system.action_set().len() == 0 && have_sources {
        let mut profiles: Vec<XrProfileDescriptor> = Vec::new();
        profiles.push(oculus_web_profile(bindings));
        system.set_action_set(profiles);
        true
    } else {
        false
    }
}

/// What kind of action each component of the Oculus Touch profile feeds:
/// triggers, squeezes and buttons report touch and value, pads and sticks a
/// two-dimensional state.
pub open spec fn spec_oculus_action_type(t: WebXRComponentType) -> XrActionType {
    match t {
        WebXRComponentType::Trigger
        | WebXRComponentType::Squeeze
        | WebXRComponentType::Button => (XrActionType::Button { touch: true, click: false, value: true }),
        WebXRComponentType::Touchpad | WebXRComponentType::Thumbstick => XrActionType::Vec2D,
    }
}

/// The profile the WebXR backend registers when an Oculus Touch controller
/// shows up among the input sources: the given bindings under the registry's
/// profile identifier, tracked, with haptics.
pub fn oculus_web_profile(bindings: Vec<(XrActionDescriptor, String)>) -> (r: XrProfileDescriptor)
    ensures
        r.profile@ == "oculus-touch"@,
        r.bindings@ == bindings@,
        r.is_tracked,
        r.has_haptics,
{
    XrProfileDescriptor {
        profile: "oculus-touch".to_owned(),
        bindings,
        is_tracked: true,
        has_haptics: true,
    }
}

/// The action bindings of one hand of the Oculus Touch profile: one binding
/// per component of the hand's layout, named `hand/component` and bound to
/// the path of the same name. A hand the profile has no layout for yields
/// no bindings.
pub fn create_oculus_bindings(
    handedness: XrHandedness,
    profile: &WebXRProfile,
) -> (r: Vec<(XrActionDescriptor, String)>)
    requires
        !(handedness is NoHand),
    ensures
        spec_key_position(profile.layouts@, spec_handedness_name(handedness)) is None ==> r@.len() == 0,
        spec_key_position(profile.layouts@, spec_handedness_name(handedness)) matches Some(p) ==> {
            let comps = profile.layouts@[p].1.components@;
            &&& r@.len() == comps.len()
            &&& forall|i: int| #![auto] 0 <= i < comps.len() ==> {
                &&& r@[i].0.name@ == spec_action_name(spec_handedness_name(handedness), comps[i].0@)
                &&& r@[i].0.action_type == spec_oculus_action_type(comps[i].1.component_type)
                &&& r@[i].1@ == spec_action_name(spec_handedness_name(handedness), comps[i].0@)
            }
        },
{
    let hand = handedness_name(handedness);
    let hand_string = hand.to_owned();
    let position = profile.layout_position(&hand_string);
    match position {
        None => Vec::new(),
        Some(p) => {
            let layout = &profile.layouts[p].1;
            let mut out: Vec<(XrActionDescriptor, String)> = Vec::new();
            let ghost comps = layout.components@;
            let mut i: usize = 0;
            while i < layout.components.len()
                invariant
                    i <= comps.len(),
                    comps == layout.components@,
                    out@.len() == i,
                    forall|k: int| #![auto] 0 <= k < i ==> {
                        &&& out@[k].0.name@ == spec_action_name(hand@, comps[k].0@)
                        &&& out@[k].0.action_type == spec_oculus_action_type(comps[k].1.component_type)
                        &&& out@[k].1@ == spec_action_name(hand@, comps[k].0@)
                    },
                decreases comps.len() - i,
            {
                let key = &layout.components[i].0;
                let action_type = match layout.components[i].1.component_type {
                    WebXRComponentType::Trigger
                    | WebXRComponentType::Squeeze
                    | WebXRComponentType::Button => XrActionType::Button { touch: true, click: false, value: true },
                    WebXRComponentType::Touchpad | WebXRComponentType::Thumbstick => XrActionType::Vec2D,
                };
                let name = action_name(hand, key.as_str());
                let path = action_name(hand, key.as_str());
                out.push((XrActionDescriptor { name, action_type }, path));
                i += 1;
            }
            out
        }
    }
}

} // verus!
