//! What the control surface speaks of: presets, and the slot that holds the
//! attached input.

use crate::error::InputConnectionError;
use crate::midi::{find_port, first_named, MidiInputPort};
use vstd::prelude::*;

pub use crate::synth::PresetData;

verus! {

/// The bank number and program number that address a preset.
#[derive(PartialEq, Eq, Copy, Clone, Debug, Structural)]
pub struct Preset {
    pub bank: u32,
    pub num: u32,
}

impl From<&PresetData> for Preset {
    fn from(o: &PresetData) -> (r: Self) {
        Self { bank: o.bank, num: o.num }
    }
}

impl vstd::std_specs::convert::FromSpecImpl<&PresetData> for Preset {
    open spec fn obeys_from_spec() -> bool {
        true
    }

    open spec fn from_spec(o: &PresetData) -> Self {
        Preset { bank: o.bank, num: o.num }
    }
}

/// MIDI input, with an optional port name to use. Without a name the first
/// port is used.
#[derive(Clone, Copy, Debug)]
pub struct PianoMidiInput<'a>(pub Option<&'a str>);

impl<'a> PianoMidiInput<'a> {
    /// Reads the input that the user asks for: the word `NONE` asks for no
    /// input, any other name for the port of that name, and no name for the
    /// first port.
    pub fn from_arg(arg: Option<&'a str>) -> (input: Option<PianoMidiInput<'a>>)
        ensures
            match arg {
                Some(name) => if name@ == "NONE"@ {
                    input is None
                } else {
                    input matches Some(chosen) && chosen.0 matches Some(kept) && kept@ == name@
                },
                None => input matches Some(chosen) && chosen.0 is None,
            },
    {
        match arg {
            Some(name) => {
                if name.to_owned() == String::from_str("NONE") {
                    None
                } else {
                    Some(PianoMidiInput(Some(name)))
                }
            },
            None => Some(PianoMidiInput(None)),
        }
    }

    /// Chooses the port to connect to: with a name, the first port of that
    /// name; without one, the first port.
    pub fn choose_port(&self, ports: &[MidiInputPort]) -> (r: Result<usize, InputConnectionError>)
        ensures
            match self.0 {
                Some(name) => match r {
                    Ok(at) => first_named(ports@, name@, at as int),
                    Err(error) => {
                        &&& error matches InputConnectionError::PortNotFound(missing)
                        &&& missing@ == name@
                        &&& forall|at: int|
                            0 <= at < ports@.len() ==> (#[trigger] ports@[at])@ != name@
                    },
                },
                None => if ports@.len() == 0 {
                    r == Err::<usize, InputConnectionError>(InputConnectionError::NoPort)
                } else {
                    r == Ok::<usize, InputConnectionError>(0)
                },
            },
    {
        match self.0 {
            Some(name) => match find_port(ports, name) {
                Some(at) => Ok(at),
                None => Err(InputConnectionError::PortNotFound(name.to_owned())),
            },
            None => if ports.len() == 0 {
                Err(InputConnectionError::NoPort)
            } else {
                Ok(0)
            },
        }
    }
}

/// The place of the one input that is attached to the pipeline. What it
/// holds is the live connection of that input: letting go of it ends the
/// connection.
pub struct InputSlot<H> {
    input: Option<H>,
}

impl<H> InputSlot<H> {
    /// The connection that is held.
    pub closed spec fn current(&self) -> Option<H> {
        self.input
    }

    /// A slot that holds nothing.
    pub fn new() -> (slot: Self)
        ensures
            slot.current() is None,
    {
        InputSlot { input: None }
    }

    /// Tells whether an input is attached.
    pub fn has_input(&self) -> (r: bool)
        ensures
            r == self.current() is Some,
    {
        self.input.is_some()
    }

    /// Attaches an input in place of the one that was attached, which is let
    /// go of.
    pub fn set_input(&mut self, input: H)
        ensures
            final(self).current() == Some(input),
    {
        self.input = Some(input);
    }

    /// Attaches the input that an attempt to connect has given. A failed
    /// attempt changes nothing: the input that was attached stays, and the
    /// failure is handed back.
    pub fn attach<E>(&mut self, connected: Result<H, E>) -> (r: Result<(), E>)
        ensures
            match connected {
                Ok(input) => r is Ok && final(self).current() == Some(input),
                Err(error) => r == Err::<(), E>(error) && final(self).current() == old(
                    self,
                ).current(),
            },
    {
        match connected {
            Ok(input) => {
                self.set_input(input);
                Ok(())
            },
            Err(error) => Err(error),
        }
    }

    /// Lets go of the input that is attached, if there is one.
    pub fn clear(&mut self)
        ensures
            final(self).current() is None,
    {
        self.input = None;
    }
}

} // verus!
