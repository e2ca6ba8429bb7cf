//! The control surface: a live/menu switch, one rotary knob, and a few
//! buttons, driving channel selection and preset loading as a state
//! machine over plain input events.

use vstd::prelude::*;

use crate::instrument::Instrument;

verus! {

/// One input event from the control surface.
#[derive(Clone, Copy, Debug, PartialEq, Eq, Structural)]
pub enum InterfaceInput {
    /// The live/menu switch, with its new position.
    LiveMenuSwitch(bool),
    /// The rotary knob: by how much, and in which direction.
    RotaryKnob(u8, bool),
    /// The big red button.
    BigButton,
    /// One of the lit key buttons.
    KeyButton(usize),
}

/// The preset browser: a bank of preset names and the selection cursor.
pub struct InstrumentPresetLoading {
    pub selected_preset: usize,
    pub instrument_presets_bank: Vec<String>,
}

impl InstrumentPresetLoading {
    /// The cursor stays inside the bank (and at zero while the bank is
    /// empty).
    pub open spec fn wf(&self) -> bool {
        if self.instrument_presets_bank@.len() == 0 {
            self.selected_preset == 0
        } else {
            self.selected_preset < self.instrument_presets_bank@.len()
        }
    }

    /// An empty browser.
    pub fn new() -> (p: InstrumentPresetLoading)
        ensures
            p.wf(),
            p.selected_preset == 0,
            p.instrument_presets_bank@.len() == 0,
    {
        InstrumentPresetLoading { selected_preset: 0, instrument_presets_bank: Vec::new() }
    }

    /// Installs the preset bank (read from storage by the caller) and
    /// resets the cursor.
    pub fn load_instruments_preset_bank(&mut self, bank: Vec<String>)
        ensures
            final(self).wf(),
            final(self).instrument_presets_bank@ == bank@,
            final(self).selected_preset == 0,
    {
        self.instrument_presets_bank = bank;
        self.selected_preset = 0;
    }

    /// Builds the instrument of the selected preset. Decoding stored
    /// preset data is a storage concern outside this core, so the result
    /// is a fresh, empty instrument.
    pub fn load_preset(&self) -> (ins: Instrument)
        ensures
            ins.wf(),
            ins.oscillators@.len() == 0,
            !ins.pressed,
    {
        Instrument::new()
    }

    /// Moves the cursor to the next preset, wrapping at the end of the
    /// bank; with an empty bank the cursor stays at zero.
    pub fn next_preset(&mut self)
        requires
            old(self).wf(),
        ensures
            final(self).wf(),
            final(self).instrument_presets_bank@ == old(self).instrument_presets_bank@,
            final(self).selected_preset == (if old(self).selected_preset + 1 < old(self).instrument_presets_bank@.len() {
                old(self).selected_preset + 1
            } else {
                0
            }),
    {
        let len: usize = self.instrument_presets_bank.len();
        self.selected_preset = self.selected_preset + 1;
        if self.selected_preset >= len {
            self.selected_preset = 0;
        }
    }

    /// Moves the cursor to the previous preset, wrapping at the start of
    /// the bank.
    pub fn prev_preset(&mut self)
        requires
            old(self).wf(),
            old(self).instrument_presets_bank@.len() >= 1,
        ensures
            final(self).wf(),
            final(self).instrument_presets_bank@ == old(self).instrument_presets_bank@,
            final(self).selected_preset == (if old(self).selected_preset == 0 {
                old(self).instrument_presets_bank@.len() - 1
            } else {
                old(self).selected_preset - 1
            }),
    {
        if self.selected_preset == 0 {
            self.selected_preset = self.instrument_presets_bank.len();
        }
        self.selected_preset = self.selected_preset - 1;
    }
}

/// One mixer channel of the live view.
pub struct LiveChannel {
    pub instrument: Instrument,
}

/// The live view's mode.
#[derive(Clone, Copy, Debug, PartialEq, Eq, Structural)]
pub enum LiveInterfaceState {
    /// Browsing channels.
    Live,
    /// A channel is selected.
    SelectedChannel(usize),
    /// Choosing a preset for the selected channel.
    LoadPreset(usize),
}

/// The live view: the channels, the hover cursor, the current mode, and
/// the preset browser.
pub struct LiveInterface {
    pub channels: Vec<LiveChannel>,
    pub hover: usize,
    pub state: LiveInterfaceState,
    pub preset_loader: InstrumentPresetLoading,
}

impl LiveInterface {
    /// At least one channel; every cursor and mode index stays inside the
    /// channel list; the preset browser is well-formed.
    pub open spec fn wf(&self) -> bool {
        &&& self.channels@.len() >= 1
        &&& self.hover < self.channels@.len()
        &&& (self.state matches LiveInterfaceState::SelectedChannel(n) ==> n
            < self.channels@.len())
        &&& (self.state matches LiveInterfaceState::LoadPreset(n) ==> n < self.channels@.len())
        &&& self.preset_loader.wf()
    }

    /// A live view over the given channels, browsing from the first.
    pub fn new(channels: Vec<LiveChannel>) -> (l: LiveInterface)
        requires
            channels@.len() >= 1,
        ensures
            l.wf(),
            l.channels@ == channels@,
            l.hover == 0,
            l.state == LiveInterfaceState::Live,
    {
        LiveInterface {
            channels,
            hover: 0,
            state: LiveInterfaceState::Live,
            preset_loader: InstrumentPresetLoading::new(),
        }
    }

    /// Moves the hover cursor to the next channel, wrapping.
    pub fn hover_next(&mut self)
        requires
            old(self).wf(),
        ensures
            final(self).wf(),
            final(self).hover == (if old(self).hover + 1 < old(self).channels@.len() {
                old(self).hover + 1
            } else {
                0
            }),
            final(self).channels@ == old(self).channels@,
            final(self).state == old(self).state,
            final(self).preset_loader == old(self).preset_loader,
    {
        let len: usize = self.channels.len();
        self.hover = self.hover + 1;
        if self.hover >= len {
            self.hover = 0;
        }
    }

    /// Moves the hover cursor to the previous channel, wrapping.
    pub fn hover_prev(&mut self)
        requires
            old(self).wf(),
        ensures
            final(self).wf(),
            final(self).hover == (if old(self).hover == 0 {
                old(self).channels@.len() - 1
            } else {
                old(self).hover - 1
            }),
            final(self).channels@ == old(self).channels@,
            final(self).state == old(self).state,
            final(self).preset_loader == old(self).preset_loader,
    {
        if self.hover == 0 {
            self.hover = self.channels.len();
        }
        self.hover = self.hover - 1;
    }

    /// Feeds one input event through the mode state machine.
    pub fn react_input_event(&mut self, event: InterfaceInput)
        requires
            old(self).wf(),
        ensures
            final(self).wf(),
            final(self).channels@.len() == old(self).channels@.len(),
    {
        let st: LiveInterfaceState = self.state;
        let next = st.react_input_event(self, event);
        self.state = next;
    }
}

impl LiveInterfaceState {
    /// The mode transition for one input event, with its side effects on
    /// the live view.
    ///
    /// Browsing: the knob moves the hover cursor; the first key button
    /// selects the hovered channel. Selected: the zeroth key button goes
    /// back, the first opens the preset browser for that channel. Loading:
    /// the knob browses presets (ignored while the bank is empty, which
    /// has nothing to select), the zeroth key button goes back to the
    /// selection, the first loads the chosen preset into the channel and
    /// returns to browsing. Everything else leaves the view alone.
    pub fn react_input_event(self, iface: &mut LiveInterface, event: InterfaceInput) -> (next:
        LiveInterfaceState)
        requires
            old(iface).wf(),
            self matches LiveInterfaceState::SelectedChannel(n) ==> n
                < old(iface).channels@.len(),
            self matches LiveInterfaceState::LoadPreset(n) ==> n < old(iface).channels@.len(),
        ensures
            final(iface).wf(),
            final(iface).channels@.len() == old(iface).channels@.len(),
            final(iface).state == old(iface).state,
            next matches LiveInterfaceState::SelectedChannel(n) ==> n
                < final(iface).channels@.len(),
            next matches LiveInterfaceState::LoadPreset(n) ==> n < final(iface).channels@.len(),
            match self {
                LiveInterfaceState::Live => match event {
                    InterfaceInput::KeyButton(k) => if k == 1 {
                        next == LiveInterfaceState::SelectedChannel(old(iface).hover)
                            && *final(iface) == *old(iface)
                    } else {
                        next == LiveInterfaceState::Live && *final(iface) == *old(iface)
                    },
                    InterfaceInput::RotaryKnob(_, dir) => next == LiveInterfaceState::Live
                        && final(iface).channels@ == old(iface).channels@
                        && final(iface).preset_loader == old(iface).preset_loader && final(iface).hover == (if dir {
                        if old(iface).hover + 1 < old(iface).channels@.len() {
                            old(iface).hover + 1
                        } else {
                            0
                        }
                    } else {
                        if old(iface).hover == 0 {
                            old(iface).channels@.len() - 1
                        } else {
                            old(iface).hover - 1
                        }
                    }),
                    _ => next == LiveInterfaceState::Live && *final(iface) == *old(iface),
                },
                LiveInterfaceState::SelectedChannel(n) => match event {
                    InterfaceInput::KeyButton(k) => if k == 0 {
                        next == LiveInterfaceState::Live && *final(iface) == *old(iface)
                    } else if k == 1 {
                        next == LiveInterfaceState::LoadPreset(n) && *final(iface) == *old(iface)
                    } else {
                        next == self && *final(iface) == *old(iface)
                    },
                    _ => next == self && *final(iface) == *old(iface),
                },
                LiveInterfaceState::LoadPreset(n) => match event {
                    InterfaceInput::KeyButton(k) => if k == 0 {
                        next == LiveInterfaceState::SelectedChannel(n) && *final(iface) == *old(iface)
                    } else if k == 1 {
                        next == LiveInterfaceState::Live && final(iface).hover == old(iface).hover
                            && final(iface).preset_loader == old(iface).preset_loader && final(iface).channels@.len() == old(iface).channels@.len() && (forall|j: int|
                            0 <= j < old(iface).channels@.len() && j != n
                                ==> #[trigger] final(iface).channels@[j] == old(iface).channels@[j]) && final(iface).channels@[n as int].instrument.wf()
                            && final(iface).channels@[n as int].instrument.oscillators@.len() == 0
                    } else {
                        next == self && *final(iface) == *old(iface)
                    },
                    InterfaceInput::RotaryKnob(_, dir) => next == self && final(iface).channels@
                        == old(iface).channels@ && final(iface).hover == old(iface).hover && final(iface).preset_loader.instrument_presets_bank@ == old(iface).preset_loader.instrument_presets_bank@ && (old(iface).preset_loader.instrument_presets_bank@.len() == 0 ==> final(iface).preset_loader == old(iface).preset_loader) && (old(iface).preset_loader.instrument_presets_bank@.len() >= 1 ==> final(iface).preset_loader.selected_preset == (if dir {
                        if old(iface).preset_loader.selected_preset + 1 < old(iface).preset_loader.instrument_presets_bank@.len() {
                            old(iface).preset_loader.selected_preset + 1
                        } else {
                            0
                        }
                    } else {
                        if old(iface).preset_loader.selected_preset == 0 {
                            old(iface).preset_loader.instrument_presets_bank@.len() - 1
                        } else {
                            old(iface).preset_loader.selected_preset - 1
                        }
                    })),
                    _ => next == self && *final(iface) == *old(iface),
                },
            },
    {
        match self {
            LiveInterfaceState::Live => {
                match event {
                    InterfaceInput::KeyButton(k) => {
                        if k == 1 {
                            LiveInterfaceState::SelectedChannel(iface.hover)
                        } else {
                            LiveInterfaceState::Live
                        }
                    },
                    InterfaceInput::RotaryKnob(_, dir) => {
                        if dir {
                            iface.hover_next();
                        } else {
                            iface.hover_prev();
                        }
                        LiveInterfaceState::Live
                    },
                    _ => LiveInterfaceState::Live,
                }
            },
            LiveInterfaceState::SelectedChannel(n) => {
                match event {
                    InterfaceInput::KeyButton(k) => {
                        if k == 0 {
                            LiveInterfaceState::Live
                        } else if k == 1 {
                            LiveInterfaceState::LoadPreset(n)
                        } else {
                            self
                        }
                    },
                    _ => self,
                }
            },
            LiveInterfaceState::LoadPreset(n) => {
                match event {
                    InterfaceInput::KeyButton(k) => {
                        if k == 0 {
                            LiveInterfaceState::SelectedChannel(n)
                        } else if k == 1 {
                            let preset: Instrument = iface.preset_loader.load_preset();
                            iface.channels.set(n, LiveChannel { instrument: preset });
                            LiveInterfaceState::Live
                        } else {
                            self
                        }
                    },
                    InterfaceInput::RotaryKnob(_, dir) => {
                        if iface.preset_loader.instrument_presets_bank.len() >= 1 {
                            if dir {
                                iface.preset_loader.next_preset();
                            } else {
                                iface.preset_loader.prev_preset();
                            }
                        }
                        self
                    },
                    _ => self,
                }
            },
        }
    }
}

/// The options (menu) view; its settings are not modelled yet, so input
/// leaves it unchanged.
pub struct OptionsInterface {}

impl OptionsInterface {
    /// An empty options view.
    pub fn new() -> (o: OptionsInterface) {
        OptionsInterface {  }
    }

    /// Feeds one input event through; nothing is modelled, nothing
    /// changes.
    pub fn react_input_event(&mut self, event: InterfaceInput)
        ensures
            *final(self) == *old(self),
    {
    }
}

/// The whole control surface: the active view and both views' state.
pub struct Interface {
    /// The active view: zero for live, one for options.
    pub active: u8,
    pub live: LiveInterface,
    pub options: OptionsInterface,
}

impl Interface {
    /// The active index names one of the two views and the live view is
    /// well-formed.
    pub open spec fn wf(&self) -> bool {
        &&& self.active <= 1
        &&& self.live.wf()
    }

    /// A control surface over the given live view, starting in it.
    pub fn new(live: LiveInterface) -> (f: Interface)
        requires
            live.wf(),
        ensures
            f.wf(),
            f.active == 0,
            f.live == live,
    {
        Interface { active: 0, live, options: OptionsInterface::new() }
    }

    /// Boot-time initialization: installs the preset bank (read from
    /// storage by the caller) into the live view's browser.
    pub fn init(&mut self, bank: Vec<String>)
        requires
            old(self).wf(),
        ensures
            final(self).wf(),
            final(self).active == old(self).active,
            final(self).live.preset_loader.instrument_presets_bank@ == bank@,
            final(self).live.preset_loader.selected_preset == 0,
            final(self).live.channels@ == old(self).live.channels@,
            final(self).live.hover == old(self).live.hover,
            final(self).live.state == old(self).live.state,
    {
        self.live.preset_loader.load_instruments_preset_bank(bank);
    }

    /// Routes one input event to the active view.
    pub fn react_input_event(&mut self, input: InterfaceInput)
        requires
            old(self).wf(),
        ensures
            final(self).wf(),
            final(self).active == old(self).active,
            final(self).live.channels@.len() == old(self).live.channels@.len(),
            old(self).active == 1 ==> *final(self) == *old(self),
    {
        if self.active == 0 {
            self.live.react_input_event(input);
        } else {
            self.options.react_input_event(input);
        }
    }
}

} // verus!
