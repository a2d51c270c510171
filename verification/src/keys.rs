//! Keys, the actions bound to them, and the labels that name a key.

use vstd::prelude::*;
use vstd::string::*;

verus! {

/// A modifier key, in the order in which modifiers are written.
#[derive(Clone, Copy, Debug, PartialEq, Eq, Structural)]
pub enum KeyModifier {
    Ctrl,
    Alt,
    Shift,
    Super,
}

/// A set of modifier keys.
#[derive(Clone, Copy, Debug, PartialEq, Eq, Structural)]
pub struct KeyModifiers {
    pub ctrl: bool,
    pub alt: bool,
    pub shift: bool,
    pub super_key: bool,
}

/// A key with the modifiers held while it is pressed. `bare_key` is the
/// printed name of the key itself.
#[derive(Clone, Debug, PartialEq, Eq)]
pub struct KeyWithModifier {
    pub bare_key: String,
    pub key_modifiers: KeyModifiers,
}

/// What a key can be bound to, as far as the bar tells actions apart.
#[derive(Clone, Debug, PartialEq, Eq)]
pub enum Action {
    /// Launches the plugin at the given location.
    LaunchPlugin(String),
    /// Launches the plugin at the given location, or brings it to the front.
    LaunchOrFocusPlugin(String),
    /// Adds the focused pane to the group, or takes it out.
    TogglePaneInGroup,
    /// Starts or stops adding every pane that gets the focus to the group.
    ToggleGroupMarking,
    /// Any other action.
    Other,
}

/// A key and the actions that it sets off, in their order.
#[derive(Clone, Debug, PartialEq, Eq)]
pub struct KeyBinding {
    pub key: KeyWithModifier,
    pub actions: Vec<Action>,
}

/// The plugin that acts on a group of panes.
pub const MULTIPLE_SELECT_PLUGIN: &'static str = "zellij:multiple-select";

impl KeyModifiers {
    /// No modifier.
    pub open spec fn none() -> KeyModifiers {
        KeyModifiers { ctrl: false, alt: false, shift: false, super_key: false }
    }

    /// Whether `modifier` is in the set.
    pub open spec fn has(self, modifier: KeyModifier) -> bool {
        match modifier {
            KeyModifier::Ctrl => self.ctrl,
            KeyModifier::Alt => self.alt,
            KeyModifier::Shift => self.shift,
            KeyModifier::Super => self.super_key,
        }
    }

    /// The modifiers of the set, in order.
    pub open spec fn list(self) -> Seq<KeyModifier> {
        (if self.ctrl {
            seq![KeyModifier::Ctrl]
        } else {
            seq![]
        }) + (if self.alt {
            seq![KeyModifier::Alt]
        } else {
            seq![]
        }) + (if self.shift {
            seq![KeyModifier::Shift]
        } else {
            seq![]
        }) + (if self.super_key {
            seq![KeyModifier::Super]
        } else {
            seq![]
        })
    }

    /// The set without the modifiers of `other`.
    pub open spec fn minus(self, other: KeyModifiers) -> KeyModifiers {
        KeyModifiers {
            ctrl: self.ctrl && !other.ctrl,
            alt: self.alt && !other.alt,
            shift: self.shift && !other.shift,
            super_key: self.super_key && !other.super_key,
        }
    }

    /// The modifiers that are in both sets.
    pub open spec fn both(self, other: KeyModifiers) -> KeyModifiers {
        KeyModifiers {
            ctrl: self.ctrl && other.ctrl,
            alt: self.alt && other.alt,
            shift: self.shift && other.shift,
            super_key: self.super_key && other.super_key,
        }
    }

    /// Whether the set holds no modifier.
    pub fn is_empty(&self) -> (empty: bool)
        ensures
            empty == (*self == KeyModifiers::none()),
            empty == (self.list().len() == 0),
    {
        !self.ctrl && !self.alt && !self.shift && !self.super_key
    }

    /// The modifiers that are in both sets.
    pub fn intersection(&self, other: &KeyModifiers) -> (common: KeyModifiers)
        ensures
            common == self.both(*other),
    {
        KeyModifiers {
            ctrl: self.ctrl && other.ctrl,
            alt: self.alt && other.alt,
            shift: self.shift && other.shift,
            super_key: self.super_key && other.super_key,
        }
    }

    /// The modifiers of the set, in order.
    pub fn to_vec(&self) -> (modifiers: Vec<KeyModifier>)
        ensures
            modifiers@ == self.list(),
    {
        let mut modifiers: Vec<KeyModifier> = Vec::new();
        if self.ctrl {
            modifiers.push(KeyModifier::Ctrl);
        }
        if self.alt {
            modifiers.push(KeyModifier::Alt);
        }
        if self.shift {
            modifiers.push(KeyModifier::Shift);
        }
        if self.super_key {
            modifiers.push(KeyModifier::Super);
        }
        assert(modifiers@ =~= self.list());
        modifiers
    }
}

/// The name of a modifier.
pub open spec fn modifier_name_text(modifier: KeyModifier) -> Seq<char> {
    match modifier {
        KeyModifier::Ctrl => "Ctrl"@,
        KeyModifier::Alt => "Alt"@,
        KeyModifier::Shift => "Shift"@,
        KeyModifier::Super => "Super"@,
    }
}

/// The name of a modifier.
pub fn modifier_name(modifier: KeyModifier) -> (name: &'static str)
    ensures
        name@ == modifier_name_text(modifier),
{
    match modifier {
        KeyModifier::Ctrl => "Ctrl",
        KeyModifier::Alt => "Alt",
        KeyModifier::Shift => "Shift",
        KeyModifier::Super => "Super",
    }
}

/// The names of `modifiers`, with `joiner` between each two.
pub open spec fn joined_names(modifiers: Seq<KeyModifier>, joiner: Seq<char>) -> Seq<char>
    decreases modifiers.len(),
{
    if modifiers.len() == 0 {
        Seq::empty()
    } else if modifiers.len() == 1 {
        modifier_name_text(modifiers[0])
    } else {
        joined_names(modifiers.drop_last(), joiner) + joiner + modifier_name_text(modifiers.last())
    }
}

/// Writes the names of `modifiers` with `joiner` between each two.
pub fn join_names(modifiers: &Vec<KeyModifier>, joiner: &str) -> (text: String)
    ensures
        text@ == joined_names(modifiers@, joiner@),
{
    let mut text = String::new();
    let mut i: usize = 0;
    while i < modifiers.len()
        invariant
            i <= modifiers.len(),
            text@ == joined_names(modifiers@.take(i as int), joiner@),
        decreases modifiers.len() - i,
    {
        proof {
            assert(modifiers@.take(i as int + 1).drop_last() =~= modifiers@.take(i as int));
        }
        if i > 0 {
            text.append(joiner);
        }
        text.append(modifier_name(modifiers[i]));
        i = i + 1;
        assert(text@ =~= joined_names(modifiers@.take(i as int), joiner@));
    }
    proof {
        assert(modifiers@.take(i as int) =~= modifiers@);
    }
    text
}

impl KeyWithModifier {
    /// The key without the modifiers of `common_modifiers`.
    pub open spec fn stripped(self, common_modifiers: KeyModifiers) -> KeyWithModifier {
        KeyWithModifier {
            bare_key: self.bare_key,
            key_modifiers: self.key_modifiers.minus(common_modifiers),
        }
    }

    /// The label of the key: the name of the key itself, after the names of
    /// its modifiers where it has any, a blank between each two.
    pub open spec fn label(self) -> Seq<char> {
        if self.key_modifiers == KeyModifiers::none() {
            self.bare_key@
        } else {
            joined_names(self.key_modifiers.list(), " "@) + " "@ + self.bare_key@
        }
    }

    /// The key without the modifiers of `common_modifiers`.
    pub fn strip_common_modifiers(&self, common_modifiers: &KeyModifiers) -> (key:
        KeyWithModifier)
        ensures
            key == self.stripped(*common_modifiers),
    {
        KeyWithModifier {
            bare_key: self.bare_key.clone(),
            key_modifiers: KeyModifiers {
                ctrl: self.key_modifiers.ctrl && !common_modifiers.ctrl,
                alt: self.key_modifiers.alt && !common_modifiers.alt,
                shift: self.key_modifiers.shift && !common_modifiers.shift,
                super_key: self.key_modifiers.super_key && !common_modifiers.super_key,
            },
        }
    }

    /// Writes the label of the key.
    pub fn to_label(&self) -> (text: String)
        ensures
            text@ == self.label(),
    {
        if self.key_modifiers.is_empty() {
            self.bare_key.clone()
        } else {
            let mut text = join_names(&self.key_modifiers.to_vec(), " ");
            text.append(" ");
            text.append(self.bare_key.as_str());
            text
        }
    }
}

impl Action {
    /// Whether the action launches the plugin at `plugin_url`.
    pub open spec fn launches(self, plugin_url: Seq<char>) -> bool {
        match self {
            Action::LaunchPlugin(location) => location@ == plugin_url,
            Action::LaunchOrFocusPlugin(location) => location@ == plugin_url,
            _ => false,
        }
    }

    /// Whether the action launches the plugin at `plugin_url`.
    pub fn launches_plugin(&self, plugin_url: &str) -> (launches: bool)
        ensures
            launches == self.launches(plugin_url@),
    {
        match self {
            Action::LaunchPlugin(location) => *location == String::from_str(plugin_url),
            Action::LaunchOrFocusPlugin(location) => *location == String::from_str(plugin_url),
            _ => false,
        }
    }

    /// Whether the action is the given action on the group of panes.
    /// Launching a plugin and the actions that the bar does not tell apart
    /// are no such action.
    pub open spec fn is_group_action(self, wanted: Action) -> bool {
        match (self, wanted) {
            (Action::TogglePaneInGroup, Action::TogglePaneInGroup) => true,
            (Action::ToggleGroupMarking, Action::ToggleGroupMarking) => true,
            _ => false,
        }
    }

    /// Whether the action is the given action on the group of panes.
    pub fn same_group_action(&self, wanted: &Action) -> (same: bool)
        ensures
            same == self.is_group_action(*wanted),
    {
        match (self, wanted) {
            (Action::TogglePaneInGroup, Action::TogglePaneInGroup) => true,
            (Action::ToggleGroupMarking, Action::ToggleGroupMarking) => true,
            _ => false,
        }
    }
}

impl KeyBinding {
    /// Whether one of the actions of the binding launches the plugin that
    /// acts on a group of panes.
    pub open spec fn selects_multiple(self) -> bool {
        exists|i: int|
            0 <= i < self.actions@.len() && (#[trigger] self.actions@[i]).launches(
                MULTIPLE_SELECT_PLUGIN@,
            )
    }

    /// Whether the first action of the binding is `wanted`.
    pub open spec fn starts_with(self, wanted: Action) -> bool {
        self.actions@.len() > 0 && self.actions@[0].is_group_action(wanted)
    }

    fn launches_multiple_select(&self) -> (found: bool)
        ensures
            found == self.selects_multiple(),
    {
        let mut i: usize = 0;
        while i < self.actions.len()
            invariant
                i <= self.actions.len(),
                forall|j: int| 0 <= j < i ==> !(#[trigger] self.actions@[j]).launches(
                    MULTIPLE_SELECT_PLUGIN@,
                ),
            decreases self.actions.len() - i,
        {
            if self.actions[i].launches_plugin(MULTIPLE_SELECT_PLUGIN) {
                return true;
            }
            i = i + 1;
        }
        false
    }
}

/// The key of the first binding that launches the plugin that acts on a
/// group of panes, if there is one.
pub open spec fn multiple_select_key_of(keymap: Seq<KeyBinding>) -> Option<KeyWithModifier>
    decreases keymap.len(),
{
    if keymap.len() == 0 {
        None
    } else if keymap[0].selects_multiple() {
        Some(keymap[0].key)
    } else {
        multiple_select_key_of(keymap.skip(1))
    }
}

/// The key of the first binding whose first action is `wanted`, if there is
/// one.
pub open spec fn single_action_key_of(keymap: Seq<KeyBinding>, wanted: Action) -> Option<
    KeyWithModifier,
>
    decreases keymap.len(),
{
    if keymap.len() == 0 {
        None
    } else if keymap[0].starts_with(wanted) {
        Some(keymap[0].key)
    } else {
        single_action_key_of(keymap.skip(1), wanted)
    }
}

/// The key that a reference stands for, if there is one.
pub open spec fn referred(key: Option<&KeyWithModifier>) -> Option<KeyWithModifier> {
    match key {
        Some(key) => Some(*key),
        None => None,
    }
}

/// The key of the first binding that launches the plugin that acts on a
/// group of panes.
pub fn multiple_select_key(keymap: &Vec<KeyBinding>) -> (key: Option<&KeyWithModifier>)
    ensures
        referred(key) == multiple_select_key_of(keymap@),
{
    let mut i: usize = 0;
    proof {
        assert(keymap@.skip(0) =~= keymap@);
    }
    while i < keymap.len()
        invariant
            i <= keymap.len(),
            multiple_select_key_of(keymap@) == multiple_select_key_of(keymap@.skip(i as int)),
        decreases keymap.len() - i,
    {
        proof {
            assert(keymap@.skip(i as int).skip(1) =~= keymap@.skip(i as int + 1));
        }
        if keymap[i].launches_multiple_select() {
            return Some(&keymap[i].key);
        }
        i = i + 1;
    }
    None
}

/// The key of the first binding whose first action is `action`.
pub fn single_action_key<'a>(keymap: &'a Vec<KeyBinding>, action: &Action) -> (key: Option<
    &'a KeyWithModifier,
>)
    ensures
        referred(key) == single_action_key_of(keymap@, *action),
{
    let mut i: usize = 0;
    proof {
        assert(keymap@.skip(0) =~= keymap@);
    }
    while i < keymap.len()
        invariant
            i <= keymap.len(),
            single_action_key_of(keymap@, *action) == single_action_key_of(
                keymap@.skip(i as int),
                *action,
            ),
        decreases keymap.len() - i,
    {
        proof {
            assert(keymap@.skip(i as int).skip(1) =~= keymap@.skip(i as int + 1));
        }
        if keymap[i].actions.len() > 0 && keymap[i].actions[0].same_group_action(action) {
            return Some(&keymap[i].key);
        }
        i = i + 1;
    }
    None
}

/// The modifiers that every one of `keys` has; none where there is no key.
pub open spec fn common_modifiers(keys: Seq<KeyModifiers>) -> KeyModifiers {
    KeyModifiers {
        ctrl: keys.len() > 0 && forall|i: int| 0 <= i < keys.len() ==> (#[trigger] keys[i]).ctrl,
        alt: keys.len() > 0 && forall|i: int| 0 <= i < keys.len() ==> (#[trigger] keys[i]).alt,
        shift: keys.len() > 0 && forall|i: int| 0 <= i < keys.len() ==> (#[trigger] keys[i]).shift,
        super_key: keys.len() > 0 && forall|i: int|
            0 <= i < keys.len() ==> (#[trigger] keys[i]).super_key,
    }
}

/// The modifiers of each of `keys`.
pub open spec fn modifiers_of(keys: Seq<&KeyWithModifier>) -> Seq<KeyModifiers> {
    keys.map_values(|key: &KeyWithModifier| key.key_modifiers)
}

/// The modifiers that all of the given keys share.
pub fn get_common_modifiers(keyvec: Vec<&KeyWithModifier>) -> (common: KeyModifiers)
    ensures
        common == common_modifiers(modifiers_of(keyvec@)),
{
    if keyvec.len() == 0 {
        return KeyModifiers { ctrl: false, alt: false, shift: false, super_key: false };
    }
    let mut common = keyvec[0].key_modifiers;
    let mut i: usize = 1;
    proof {
        let first = modifiers_of(keyvec@.take(1));
        assert(first.len() == 1);
        assert(first[0] == common);
        assert(common_modifiers(first) == common);
    }
    while i < keyvec.len()
        invariant
            1 <= i <= keyvec.len(),
            common == common_modifiers(modifiers_of(keyvec@.take(i as int))),
        decreases keyvec.len() - i,
    {
        let ghost seen = modifiers_of(keyvec@.take(i as int));
        let ghost next = modifiers_of(keyvec@.take(i as int + 1));
        proof {
            assert(next.len() == i + 1);
            assert(next[i as int] == keyvec@[i as int].key_modifiers);
            assert forall|j: int| 0 <= j < i implies #[trigger] next[j] == seen[j] by {}
            let all = common_modifiers(next);
            let step = common.both(keyvec@[i as int].key_modifiers);
            assert(all.ctrl == step.ctrl) by {
                if step.ctrl {
                    assert forall|j: int| 0 <= j < next.len() implies (#[trigger] next[j]).ctrl by {
                        if j < i {
                            assert(seen[j].ctrl);
                        }
                    }
                } else if common.ctrl {
                    assert(!next[i as int].ctrl);
                } else {
                    let j = choose|j: int| 0 <= j < seen.len() && !(#[trigger] seen[j]).ctrl;
                    assert(!next[j].ctrl);
                }
            }
            assert(all.alt == step.alt) by {
                if step.alt {
                    assert forall|j: int| 0 <= j < next.len() implies (#[trigger] next[j]).alt by {
                        if j < i {
                            assert(seen[j].alt);
                        }
                    }
                } else if common.alt {
                    assert(!next[i as int].alt);
                } else {
                    let j = choose|j: int| 0 <= j < seen.len() && !(#[trigger] seen[j]).alt;
                    assert(!next[j].alt);
                }
            }
            assert(all.shift == step.shift) by {
                if step.shift {
                    assert forall|j: int| 0 <= j < next.len() implies (#[trigger] next[j]).shift by {
                        if j < i {
                            assert(seen[j].shift);
                        }
                    }
                } else if common.shift {
                    assert(!next[i as int].shift);
                } else {
                    let j = choose|j: int| 0 <= j < seen.len() && !(#[trigger] seen[j]).shift;
                    assert(!next[j].shift);
                }
            }
            assert(all.super_key == step.super_key) by {
                if step.super_key {
                    assert forall|j: int| 0 <= j < next.len() implies (#[trigger] next[j]).super_key by {
                        if j < i {
                            assert(seen[j].super_key);
                        }
                    }
                } else if common.super_key {
                    assert(!next[i as int].super_key);
                } else {
                    let j = choose|j: int| 0 <= j < seen.len() && !(#[trigger] seen[j]).super_key;
                    assert(!next[j].super_key);
                }
            }
        }
        common = common.intersection(&keyvec[i].key_modifiers);
        i = i + 1;
    }
    proof {
        assert(keyvec@.take(i as int) =~= keyvec@);
    }
    common
}

} // verus!
