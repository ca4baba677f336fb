//! The consumer-side cache: the latest inventory of each kind, the
//! selected sources, and the last-known local control state,
//! reconciled each time a snapshot arrives.

use vstd::prelude::*;
use crate::command::{Command, HostAddress};
use crate::snapshot::{Input, Output, Scene, SceneCollection, Snapshot};
use crate::text::{seq_contains, str_contains};

verus! {

/// Some input in the inventory carries this name.
pub open spec fn has_input_named(inputs: Seq<Input>, name: Seq<char>) -> bool {
    exists|i: int| 0 <= i < inputs.len() && inputs[i].name@ == name
}

/// A selection survives a new input inventory only if the inventory
/// still carries an input of that name; a dangling selection becomes
/// unset.
pub open spec fn reconcile_selection(sel: Option<String>, inputs: Seq<Input>) -> Option<String> {
    match sel {
        Option::None => Option::None,
        Option::Some(name) => if has_input_named(inputs, name@) {
            sel
        } else {
            Option::None
        },
    }
}

/// An input counts as microphone-like when its kind classifier names
/// an input-capture device.
pub open spec fn spec_is_microphone_kind(kind: Seq<char>) -> bool {
    seq_contains(kind, "input"@)
}

/// An input counts as desktop-audio-like when its kind classifier
/// names an output-capture device.
pub open spec fn spec_is_desktop_kind(kind: Seq<char>) -> bool {
    seq_contains(kind, "output"@)
}

/// The names of the microphone-like inputs, in inventory order.
pub open spec fn microphone_names(inputs: Seq<Input>) -> Seq<String>
    decreases inputs.len(),
{
    if inputs.len() == 0 {
        Seq::empty()
    } else {
        let rest = microphone_names(inputs.drop_last());
        if spec_is_microphone_kind(inputs.last().kind@) {
            rest.push(inputs.last().name)
        } else {
            rest
        }
    }
}

/// The names of the desktop-audio-like inputs, in inventory order.
pub open spec fn desktop_names(inputs: Seq<Input>) -> Seq<String>
    decreases inputs.len(),
{
    if inputs.len() == 0 {
        Seq::empty()
    } else {
        let rest = desktop_names(inputs.drop_last());
        if spec_is_desktop_kind(inputs.last().kind@) {
            rest.push(inputs.last().name)
        } else {
            rest
        }
    }
}

/// Whether the inventory holds an input of this name.
pub fn inventory_has_input(inputs: &Vec<Input>, name: &String) -> (r: bool)
    ensures
        r == has_input_named(inputs@, name@),
{
    let n = inputs.len();
    let mut i: usize = 0;
    while i < n
        invariant
            n == inputs@.len(),
            0 <= i <= n,
            forall|k: int| 0 <= k < i ==> inputs@[k].name@ != name@,
        decreases n - i,
    {
        if inputs[i].name == *name {
            return true;
        }
        i += 1;
    }
    false
}

/// The consumer-side cache of the bridge: inventories replaced
/// wholesale by snapshots, plus the per-control local state the
/// consumer renders from (selected sources, last-known levels and
/// mute flags, and whether a login was already issued).
pub struct BridgeState {
    pub inputs: Vec<Input>,
    pub outputs: Vec<Output>,
    pub scenes: Vec<Scene>,
    pub collections: Vec<SceneCollection>,
    pub mic_selection: Option<String>,
    pub desktop_selection: Option<String>,
    pub mic_level: u8,
    pub desktop_level: u8,
    pub mic_muted: bool,
    pub desktop_muted: bool,
    pub logged_in: bool,
}

impl BridgeState {
    /// An empty cache: no inventories, nothing selected, levels at
    /// zero, nothing muted, no login issued.
    pub fn new() -> (b: BridgeState)
        ensures
            b.inputs@ == Seq::<Input>::empty(),
            b.outputs@ == Seq::<Output>::empty(),
            b.scenes@ == Seq::<Scene>::empty(),
            b.collections@ == Seq::<SceneCollection>::empty(),
            b.mic_selection is None,
            b.desktop_selection is None,
            b.mic_level == 0,
            b.desktop_level == 0,
            !b.mic_muted,
            !b.desktop_muted,
            !b.logged_in,
    {
        BridgeState {
            inputs: Vec::new(),
            outputs: Vec::new(),
            scenes: Vec::new(),
            collections: Vec::new(),
            mic_selection: None,
            desktop_selection: None,
            mic_level: 0,
            desktop_level: 0,
            mic_muted: false,
            desktop_muted: false,
            logged_in: false,
        }
    }

    /// Merges one polled snapshot: the cached inventory of that kind
    /// is replaced wholesale (never element by element), every other
    /// inventory is untouched, and a source selection whose name is
    /// no longer in a new input inventory becomes unset rather than
    /// pointing at a stale entry.
    pub fn apply_snapshot(&mut self, snap: Snapshot)
        ensures
            (snap matches Snapshot::InputInventory { inputs } ==> {
                &&& final(self).inputs == inputs
                &&& final(self).mic_selection == reconcile_selection(
                    old(self).mic_selection,
                    inputs@,
                )
                &&& final(self).desktop_selection == reconcile_selection(
                    old(self).desktop_selection,
                    inputs@,
                )
                &&& final(self).outputs == old(self).outputs
                &&& final(self).scenes == old(self).scenes
                &&& final(self).collections == old(self).collections
            }),
            (snap matches Snapshot::OutputInventory { outputs } ==> {
                &&& final(self).outputs == outputs
                &&& final(self).inputs == old(self).inputs
                &&& final(self).scenes == old(self).scenes
                &&& final(self).collections == old(self).collections
                &&& final(self).mic_selection == old(self).mic_selection
                &&& final(self).desktop_selection == old(self).desktop_selection
            }),
            (snap matches Snapshot::SceneInventory { scenes } ==> {
                &&& final(self).scenes == scenes
                &&& final(self).inputs == old(self).inputs
                &&& final(self).outputs == old(self).outputs
                &&& final(self).collections == old(self).collections
                &&& final(self).mic_selection == old(self).mic_selection
                &&& final(self).desktop_selection == old(self).desktop_selection
            }),
            (snap matches Snapshot::SceneCollectionInventory { collections } ==> {
                &&& final(self).collections == collections
                &&& final(self).inputs == old(self).inputs
                &&& final(self).outputs == old(self).outputs
                &&& final(self).scenes == old(self).scenes
                &&& final(self).mic_selection == old(self).mic_selection
                &&& final(self).desktop_selection == old(self).desktop_selection
            }),
            final(self).mic_level == old(self).mic_level,
            final(self).desktop_level == old(self).desktop_level,
            final(self).mic_muted == old(self).mic_muted,
            final(self).desktop_muted == old(self).desktop_muted,
            final(self).logged_in == old(self).logged_in,
    {
        match snap {
            Snapshot::InputInventory { inputs } => {
                let keep_mic = match &self.mic_selection {
                    Option::Some(name) => inventory_has_input(&inputs, name),
                    Option::None => false,
                };
                if !keep_mic {
                    self.mic_selection = None;
                }
                let keep_desktop = match &self.desktop_selection {
                    Option::Some(name) => inventory_has_input(&inputs, name),
                    Option::None => false,
                };
                if !keep_desktop {
                    self.desktop_selection = None;
                }
                self.inputs = inputs;
            },
            Snapshot::OutputInventory { outputs } => {
                self.outputs = outputs;
            },
            Snapshot::SceneInventory { scenes } => {
                self.scenes = scenes;
            },
            Snapshot::SceneCollectionInventory { collections } => {
                self.collections = collections;
            },
        }
    }

    /// The names the consumer may offer as microphone choices: the
    /// inputs whose kind classifier names an input-capture device,
    /// in inventory order.
    pub fn microphone_input_names(&self) -> (names: Vec<String>)
        ensures
            names@ == microphone_names(self.inputs@),
    {
        let n = self.inputs.len();
        let mut names: Vec<String> = Vec::new();
        let mut i: usize = 0;
        while i < n
            invariant
                n == self.inputs@.len(),
                0 <= i <= n,
                names@ == microphone_names(self.inputs@.subrange(0, i as int)),
            decreases n - i,
        {
            let ghost prefix = self.inputs@.subrange(0, i as int);
            let ghost next = self.inputs@.subrange(0, i + 1);
            proof {
                assert(next.drop_last() =~= prefix);
                assert(next.last() == self.inputs@[i as int]);
            }
            if str_contains(self.inputs[i].kind.as_str(), "input") {
                names.push(self.inputs[i].name.clone());
                assert(names@ =~= microphone_names(next));
            } else {
                assert(names@ =~= microphone_names(next));
            }
            i += 1;
        }
        proof {
            assert(self.inputs@.subrange(0, n as int) =~= self.inputs@);
        }
        names
    }

    /// The names the consumer may offer as desktop-audio choices:
    /// the inputs whose kind classifier names an output-capture
    /// device, in inventory order.
    pub fn desktop_input_names(&self) -> (names: Vec<String>)
        ensures
            names@ == desktop_names(self.inputs@),
    {
        let n = self.inputs.len();
        let mut names: Vec<String> = Vec::new();
        let mut i: usize = 0;
        while i < n
            invariant
                n == self.inputs@.len(),
                0 <= i <= n,
                names@ == desktop_names(self.inputs@.subrange(0, i as int)),
            decreases n - i,
        {
            let ghost prefix = self.inputs@.subrange(0, i as int);
            let ghost next = self.inputs@.subrange(0, i + 1);
            proof {
                assert(next.drop_last() =~= prefix);
                assert(next.last() == self.inputs@[i as int]);
            }
            if str_contains(self.inputs[i].kind.as_str(), "output") {
                names.push(self.inputs[i].name.clone());
                assert(names@ =~= desktop_names(next));
            } else {
                assert(names@ =~= desktop_names(next));
            }
            i += 1;
        }
        proof {
            assert(self.inputs@.subrange(0, n as int) =~= self.inputs@);
        }
        names
    }

    /// Issues the one-shot login: the first call returns the login
    /// command to submit and marks the login as issued; once issued,
    /// no further login command is ever produced.
    pub fn login_once(&mut self, address: HostAddress, port: u16, credential: String) -> (cmd:
        Option<Command>)
        ensures
            old(self).logged_in ==> cmd is None && *final(self) == *old(self),
            !old(self).logged_in ==> {
                &&& cmd == Some(Command::LogIn { address, port, credential })
                &&& *final(self) == (BridgeState { logged_in: true, ..*old(self) })
            },
    {
        if self.logged_in {
            None
        } else {
            self.logged_in = true;
            Some(Command::LogIn { address, port, credential })
        }
    }

    /// Flips the local microphone mute flag and, when a microphone
    /// is selected, returns the mute command carrying exactly the new
    /// flag; with nothing selected only the local flag changes.
    pub fn toggle_mic_mute(&mut self) -> (cmd: Option<Command>)
        ensures
            *final(self) == (BridgeState { mic_muted: !old(self).mic_muted, ..*old(self) }),
            cmd == match old(self).mic_selection {
                Option::Some(name) => Some(
                    Command::SetMute { source_id: name, muted: !old(self).mic_muted },
                ),
                Option::None => None::<Command>,
            },
    {
        self.mic_muted = !self.mic_muted;
        match &self.mic_selection {
            Option::Some(name) => Some(
                Command::SetMute { source_id: name.clone(), muted: self.mic_muted },
            ),
            Option::None => None,
        }
    }

    /// Flips the local desktop mute flag and, when a desktop source
    /// is selected, returns the mute command carrying exactly the new
    /// flag; with nothing selected only the local flag changes.
    pub fn toggle_desktop_mute(&mut self) -> (cmd: Option<Command>)
        ensures
            *final(self) == (BridgeState { desktop_muted: !old(self).desktop_muted, ..*old(self) }),
            cmd == match old(self).desktop_selection {
                Option::Some(name) => Some(
                    Command::SetMute { source_id: name, muted: !old(self).desktop_muted },
                ),
                Option::None => None::<Command>,
            },
    {
        self.desktop_muted = !self.desktop_muted;
        match &self.desktop_selection {
            Option::Some(name) => Some(
                Command::SetMute { source_id: name.clone(), muted: self.desktop_muted },
            ),
            Option::None => None,
        }
    }

    /// Records a dragged microphone level and, when a microphone is
    /// selected, returns the volume command carrying that 0-100
    /// level; with nothing selected only the local level changes.
    pub fn set_mic_level(&mut self, level_percent: u8) -> (cmd: Option<Command>)
        ensures
            *final(self) == (BridgeState { mic_level: level_percent, ..*old(self) }),
            cmd == match old(self).mic_selection {
                Option::Some(name) => Some(
                    Command::SetVolume { source_id: name, level_percent },
                ),
                Option::None => None::<Command>,
            },
    {
        self.mic_level = level_percent;
        match &self.mic_selection {
            Option::Some(name) => Some(
                Command::SetVolume { source_id: name.clone(), level_percent },
            ),
            Option::None => None,
        }
    }

    /// Records a dragged desktop level and, when a desktop source is
    /// selected, returns the volume command carrying that 0-100
    /// level; with nothing selected only the local level changes.
    pub fn set_desktop_level(&mut self, level_percent: u8) -> (cmd: Option<Command>)
        ensures
            *final(self) == (BridgeState { desktop_level: level_percent, ..*old(self) }),
            cmd == match old(self).desktop_selection {
                Option::Some(name) => Some(
                    Command::SetVolume { source_id: name, level_percent },
                ),
                Option::None => None::<Command>,
            },
    {
        self.desktop_level = level_percent;
        match &self.desktop_selection {
            Option::Some(name) => Some(
                Command::SetVolume { source_id: name.clone(), level_percent },
            ),
            Option::None => None,
        }
    }
}

} // verus!
