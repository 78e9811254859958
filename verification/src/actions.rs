//! Actions: what the user does with a controller, as the engine sees it.
//! Holds the action vocabulary, the per-frame action state set, the
//! `XrSystem` resource the host app configures sessions through, and the
//! bindings the OpenXR backend registers for the Oculus Touch controller.

use vstd::prelude::*;
use crate::session::XrSessionMode;

verus! {

/// Which hand a controller is held in; `NoHand` for inputs bound to neither.
#[derive(Clone, Copy, PartialEq, Eq, Structural, Hash, Debug)]
pub enum XrHandedness {
    NoHand,
    Left,
    Right,
}

/// The name a hand goes by in profile layouts and action names.
pub open spec fn spec_handedness_name(hand: XrHandedness) -> Seq<char> {
    match hand {
        XrHandedness::NoHand => "none"@,
        XrHandedness::Left => "left"@,
        XrHandedness::Right => "right"@,
    }
}

/// The name a hand goes by in profile layouts and action names.
pub fn handedness_name(hand: XrHandedness) -> (r: &'static str)
    ensures
        r@ == spec_handedness_name(hand),
{
    match hand {
        XrHandedness::NoHand => "none",
        XrHandedness::Left => "left",
        XrHandedness::Right => "right",
    }
}

/// How far a button has been engaged.
#[derive(Clone, Copy, PartialEq, Eq, Structural, Hash, Debug)]
pub enum XrButtonState {
    Default,
    Touched,
    Pressed,
}

/// What kind of input an action carries: a button (with the aspects it
/// reports) or a two-dimensional stick or pad.
#[derive(Clone, Copy, PartialEq, Eq, Structural, Hash, Debug)]
pub enum XrActionType {
    Button { touch: bool, click: bool, value: bool },
    Vec2D,
}

/// One action: its name and what kind of input it carries.
#[derive(Clone, Debug)]
pub struct XrActionDescriptor {
    pub name: String,
    pub action_type: XrActionType,
}

/// An interaction profile: which device it describes and which actions are
/// bound to which input paths on it.
#[derive(Clone, Debug)]
pub struct XrProfileDescriptor {
    pub profile: String,
    pub bindings: Vec<(XrActionDescriptor, String)>,
    pub is_tracked: bool,
    pub has_haptics: bool,
}

/// The state of one action in one frame. The value type is the backend's
/// scalar; the library routes it without reading it.
#[derive(Clone, Copy, Debug)]
pub enum XrActionState<V> {
    Button { state: XrButtonState, value: V },
    Vec2D { x: V, y: V },
}

/// The action states of one frame, keyed by action name.
pub struct XrActionSet<V> {
    states: Vec<(String, XrActionState<V>)>,
}

/// The position of the first entry at or after `i` of `entries` whose name
/// reads `name`, `None` when no entry at or after `i` has that name.
pub open spec fn spec_state_position_from<V>(
    entries: Seq<(String, XrActionState<V>)>,
    name: Seq<char>,
    i: int,
) -> Option<int>
    decreases entries.len() - i,
{
    if i < 0 || i >= entries.len() {
        None
    } else if entries[i].0@ == name {
        Some(i)
    } else {
        spec_state_position_from(entries, name, i + 1)
    }
}

impl<V> XrActionSet<V> {
    /// The entries of the set, in the order the backend filled them in.
    pub closed spec fn entries(&self) -> Seq<(String, XrActionState<V>)> {
        self.states@
    }

    /// An empty set: no action has reported a state yet.
    pub fn new() -> (r: XrActionSet<V>)
        ensures
            r.entries().len() == 0,
    {
        XrActionSet { states: Vec::new() }
    }

    /// Replaces the whole set with this frame's states.
    pub fn set(&mut self, states: Vec<(String, XrActionState<V>)>)
        ensures
            final(self).entries() == states@,
    {
        self.states = states;
    }

    pub fn len(&self) -> (r: usize)
        ensures
            r == self.entries().len(),
    {
        self.states.len()
    }
}

impl<V: Copy> XrActionSet<V> {
    /// The state recorded under `name`: the first entry of that name, or
    /// `None` when no action of that name reported a state.
    pub fn get(&self, name: &String) -> (r: Option<XrActionState<V>>)
        ensures
            r == (match spec_state_position_from(self.entries(), name@, 0) {
                Some(p) => Some(self.entries()[p].1),
                None => None::<XrActionState<V>>,
            }),
    {
        get_from(&self.states, name, 0)
    }
}

/// Searches the entry list from `i` on for the first entry named `name`.
fn get_from<V: Copy>(
    states: &Vec<(String, XrActionState<V>)>,
    name: &String,
    i: usize,
) -> (r: Option<XrActionState<V>>)
    ensures
        r == (match spec_state_position_from(states@, name@, i as int) {
            Some(p) => Some(states@[p].1),
            None => None::<XrActionState<V>>,
        }),
    decreases states@.len() - i,
{
    if i >= states.len() {
        None
    } else if states[i].0 == *name {
        Some(states[i].1)
    } else {
        get_from(states, name, i + 1)
    }
}

/// The session modes the runtime offers and the interaction profiles the
/// host app has registered: the resource through which the app and the
/// backend agree on a session.
pub struct XrSystem {
    available_session_modes: Vec<XrSessionMode>,
    selected: XrSessionMode,
    action_set: Vec<XrProfileDescriptor>,
}

impl XrSystem {
    /// The session modes the runtime offers, best first.
    pub closed spec fn modes(&self) -> Seq<XrSessionMode> {
        self.available_session_modes@
    }

    /// The mode the session will run in.
    pub closed spec fn selected_mode(&self) -> XrSessionMode {
        self.selected
    }

    /// The interaction profiles the app has registered.
    pub closed spec fn profiles(&self) -> Seq<XrProfileDescriptor> {
        self.action_set@
    }

    /// A system offering the given session modes and no profile yet; the
    /// best offered mode starts out selected. A backend always offers at
    /// least one mode.
    pub fn new(available_session_modes: Vec<XrSessionMode>) -> (r: XrSystem)
        requires
            available_session_modes@.len() > 0,
        ensures
            r.modes() == available_session_modes@,
            r.selected_mode() == available_session_modes@[0],
            r.profiles().len() == 0,
    {
        let selected = available_session_modes[0];
        XrSystem { available_session_modes, selected, action_set: Vec::new() }
    }

    /// Whether the runtime offers `mode`.
    pub fn is_session_mode_supported(&self, mode: XrSessionMode) -> (r: bool)
        ensures
            r == self.modes().contains(mode),
    {
        let mut found: bool = false;
        let mut i: usize = 0;
        while i < self.available_session_modes.len()
            invariant
                i <= self.modes().len(),
                found == self.modes().subrange(0, i as int).contains(mode),
            decreases self.modes().len() - i,
        {
            if self.available_session_modes[i] == mode {
                found = true;
            }
            proof {
                let pre = self.modes().subrange(0, i as int);
                let post = self.modes().subrange(0, i + 1 as int);
                assert(post.drop_last() =~= pre);
                assert(post.last() == self.modes()[i as int]);
                assert forall|m: XrSessionMode| post.contains(m) implies pre.contains(m) || m == self.modes()[i as int] by {
                    let k = choose|k: int| 0 <= k < post.len() && post[k] == m;
                    if k < i as int {
                        assert(pre[k] == m);
                    }
                }
            }
            i += 1;
        }
        proof {
            assert(self.modes().subrange(0, self.modes().len() as int) =~= self.modes());
        }
        found
    }

    /// Asks for the session to run in `mode`: granted exactly when the
    /// runtime offers that mode, and otherwise the selection stands.
    pub fn request_session_mode(&mut self, mode: XrSessionMode) -> (r: bool)
        ensures
            r == old(self).modes().contains(mode),
            r ==> final(self).selected_mode() == mode,
            !r ==> final(self).selected_mode() == old(self).selected_mode(),
            final(self).modes() == old(self).modes(),
            final(self).profiles() == old(self).profiles(),
    {
        if self.is_session_mode_supported(mode) {
            self.selected = mode;
            true
        } else {
            false
        }
    }

    /// The mode the session will run in.
    pub fn selected_session_mode(&self) -> (r: XrSessionMode)
        ensures
            r == self.selected_mode(),
    {
        self.selected
    }

    pub fn available_session_modes(&self) -> (r: &Vec<XrSessionMode>)
        ensures
            r@ == self.modes(),
    {
        &self.available_session_modes
    }

    /// Registers the app's interaction profiles, replacing earlier ones.
    pub fn set_action_set(&mut self, action_set: Vec<XrProfileDescriptor>)
        ensures
            final(self).profiles() == action_set@,
            final(self).modes() == old(self).modes(),
            final(self).selected_mode() == old(self).selected_mode(),
    {
        self.action_set = action_set;
    }

    pub fn action_set(&self) -> (r: &Vec<XrProfileDescriptor>)
        ensures
            r@ == self.profiles(),
    {
        &self.action_set
    }
}

/// The OpenXR path of the Oculus Touch interaction profile.
pub open spec fn spec_oculus_touch_profile_path() -> Seq<char> {
    "/interaction_profiles/oculus/touch_controller"@
}

/// The OpenXR path of the Oculus Touch interaction profile.
pub fn oculus_touch_profile_path() -> (r: &'static str)
    ensures
        r@ == spec_oculus_touch_profile_path(),
{
    "/interaction_profiles/oculus/touch_controller"
}

/// The profile the OpenXR backend registers on an Oculus-style runtime:
/// trigger and primary button of each hand, is_tracked, with haptics.
pub open spec fn spec_is_oculus_touch_profile(p: XrProfileDescriptor) -> bool {
    &&& p.profile@ == spec_oculus_touch_profile_path()
    &&& p.bindings@.len() == 4
    &&& p.bindings@[0].0.name@ == "left_trigger"@
    &&& p.bindings@[0].0.action_type == (XrActionType::Button { touch: true, click: false, value: true })
    &&& p.bindings@[0].1@ == "/user/hand/left/input/trigger"@
    &&& p.bindings@[1].0.name@ == "left_x"@
    &&& p.bindings@[1].0.action_type == (XrActionType::Button { touch: true, click: true, value: false })
    &&& p.bindings@[1].1@ == "/user/hand/left/input/x"@
    &&& p.bindings@[2].0.name@ == "right_trigger"@
    &&& p.bindings@[2].0.action_type == (XrActionType::Button { touch: true, click: false, value: true })
    &&& p.bindings@[2].1@ == "/user/hand/right/input/trigger"@
    &&& p.bindings@[3].0.name@ == "right_a"@
    &&& p.bindings@[3].0.action_type == (XrActionType::Button { touch: true, click: true, value: false })
    &&& p.bindings@[3].1@ == "/user/hand/right/input/a"@
    &&& p.is_tracked
    &&& p.has_haptics
}

/// Builds the Oculus Touch profile the OpenXR backend registers.
pub fn oculus_touch_profile() -> (r: XrProfileDescriptor)
    ensures
        spec_is_oculus_touch_profile(r),
{
    let mut bindings: Vec<(XrActionDescriptor, String)> = Vec::new();
    bindings.push((
        XrActionDescriptor {
            name: "left_trigger".to_owned(),
            action_type: XrActionType::Button { touch: true, click: false, value: true },
        },
        "/user/hand/left/input/trigger".to_owned(),
    ));
    bindings.push((
        XrActionDescriptor {
            name: "left_x".to_owned(),
            action_type: XrActionType::Button { touch: true, click: true, value: false },
        },
        "/user/hand/left/input/x".to_owned(),
    ));
    bindings.push((
        XrActionDescriptor {
            name: "right_trigger".to_owned(),
            action_type: XrActionType::Button { touch: true, click: false, value: true },
        },
        "/user/hand/right/input/trigger".to_owned(),
    ));
    bindings.push((
        XrActionDescriptor {
            name: "right_a".to_owned(),
            action_type: XrActionType::Button { touch: true, click: true, value: false },
        },
        "/user/hand/right/input/a".to_owned(),
    ));
    XrProfileDescriptor {
        profile: oculus_touch_profile_path().to_owned(),
        bindings,
        is_tracked: true,
        has_haptics: true,
    }
}

/// Registers the controller bindings the session needs before it starts.
/// On an Android-based (standalone Oculus-style) runtime the Oculus Touch
/// profile is registered; elsewhere the app's own registration stands.
pub fn setup_interaction(system: &mut XrSystem, android: bool)
    ensures
        android ==> final(system).profiles().len() == 1
            && spec_is_oculus_touch_profile(final(system).profiles()[0]),
        !android ==> final(system).profiles() == old(system).profiles(),
        final(system).modes() == old(system).modes(),
        final(system).selected_mode() == old(system).selected_mode(),
{
    if android {
        let mut profiles: Vec<XrProfileDescriptor> = Vec::new();
        profiles.push(oculus_touch_profile());
        system.set_action_set(profiles);
    }
}

} // verus!
