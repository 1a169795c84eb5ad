//! Musical events and their decoding from MIDI bytes.

use vstd::prelude::*;

verus! {

/// Number of MIDI channels.
pub const CHANNELS: u8 = 16;

/// First value that no longer fits in seven bits.
pub const SEVEN_BIT_LIMIT: u8 = 128;

/// First value that no longer fits in fourteen bits.
pub const FOURTEEN_BIT_LIMIT: u16 = 16384;

/// Status byte of a system reset.
pub const STATUS_RESET: u8 = 0xFF;

/// Status byte that opens a system exclusive message.
pub const STATUS_SYSEX: u8 = 0xF0;

/// A single typed musical instruction.
///
/// Channels count from 0 to 15; keys, velocities, controllers, programs and
/// pressure values are seven-bit quantities; a pitch bend holds fourteen bits.
#[derive(Clone, Copy, Debug, PartialEq, Eq, Structural)]
pub enum MusicalEvent {
    NoteOn { channel: u8, key: u8, velocity: u8 },
    NoteOff { channel: u8, key: u8, velocity: u8 },
    PolyphonicPressure { channel: u8, key: u8, value: u8 },
    ControlChange { channel: u8, controller: u8, value: u8 },
    ProgramChange { channel: u8, program: u8 },
    ChannelPressure { channel: u8, value: u8 },
    PitchBend { channel: u8, value: u16 },
    Reset,
    /// Any other message, kept by its status byte. The synthesizer ignores it.
    Other { status: u8 },
}

impl MusicalEvent {
    /// Every field lies in the range that MIDI gives it.
    pub open spec fn valid(self) -> bool {
        match self {
            MusicalEvent::NoteOn { channel, key, velocity } => channel < CHANNELS && key
                < SEVEN_BIT_LIMIT && velocity < SEVEN_BIT_LIMIT,
            MusicalEvent::NoteOff { channel, key, velocity } => channel < CHANNELS && key
                < SEVEN_BIT_LIMIT && velocity < SEVEN_BIT_LIMIT,
            MusicalEvent::PolyphonicPressure { channel, key, value } => channel < CHANNELS && key
                < SEVEN_BIT_LIMIT && value < SEVEN_BIT_LIMIT,
            MusicalEvent::ControlChange { channel, controller, value } => channel < CHANNELS
                && controller < SEVEN_BIT_LIMIT && value < SEVEN_BIT_LIMIT,
            MusicalEvent::ProgramChange { channel, program } => channel < CHANNELS && program
                < SEVEN_BIT_LIMIT,
            MusicalEvent::ChannelPressure { channel, value } => channel < CHANNELS && value
                < SEVEN_BIT_LIMIT,
            MusicalEvent::PitchBend { channel, value } => channel < CHANNELS && value
                < FOURTEEN_BIT_LIMIT,
            MusicalEvent::Reset => true,
            MusicalEvent::Other { status } => true,
        }
    }

    /// Tells whether every field lies in its range.
    pub fn is_valid(&self) -> (r: bool)
        ensures
            r == self.valid(),
    {
        match *self {
            MusicalEvent::NoteOn { channel, key, velocity } => channel < CHANNELS && key
                < SEVEN_BIT_LIMIT && velocity < SEVEN_BIT_LIMIT,
            MusicalEvent::NoteOff { channel, key, velocity } => channel < CHANNELS && key
                < SEVEN_BIT_LIMIT && velocity < SEVEN_BIT_LIMIT,
            MusicalEvent::PolyphonicPressure { channel, key, value } => channel < CHANNELS && key
                < SEVEN_BIT_LIMIT && value < SEVEN_BIT_LIMIT,
            MusicalEvent::ControlChange { channel, controller, value } => channel < CHANNELS
                && controller < SEVEN_BIT_LIMIT && value < SEVEN_BIT_LIMIT,
            MusicalEvent::ProgramChange { channel, program } => channel < CHANNELS && program
                < SEVEN_BIT_LIMIT,
            MusicalEvent::ChannelPressure { channel, value } => channel < CHANNELS && value
                < SEVEN_BIT_LIMIT,
            MusicalEvent::PitchBend { channel, value } => channel < CHANNELS && value
                < FOURTEEN_BIT_LIMIT,
            MusicalEvent::Reset => true,
            MusicalEvent::Other { status } => true,
        }
    }
}

/// A data byte of a message in wire form, or nothing where the message is
/// too short or the byte has its high bit set.
pub open spec fn data_byte(wire: Seq<u8>, at: int) -> Option<u8> {
    if 0 <= at < wire.len() && wire[at] < SEVEN_BIT_LIMIT {
        Some(wire[at])
    } else {
        None
    }
}

/// The event that a message in wire form stands for.
///
/// The first byte is the status byte: its high half names the kind of a
/// channel message and its low half the channel. Data bytes follow. A message
/// that starts with a data byte, that lacks a data byte, or that is system
/// exclusive, stands for no event.
pub open spec fn from_wire(wire: Seq<u8>) -> Option<MusicalEvent> {
    if wire.len() == 0 {
        None
    } else {
        let status = wire[0];
        let channel = (status % 16) as u8;
        let first = data_byte(wire, 1);
        let second = data_byte(wire, 2);
        let kind = status / 16;
        if kind < 8 {
            None
        } else if kind == 8 {
            if first is Some && second is Some {
                Some(
                    MusicalEvent::NoteOff {
                        channel,
                        key: first->Some_0,
                        velocity: second->Some_0,
                    },
                )
            } else {
                None
            }
        } else if kind == 9 {
            if first is Some && second is Some {
                Some(
                    MusicalEvent::NoteOn {
                        channel,
                        key: first->Some_0,
                        velocity: second->Some_0,
                    },
                )
            } else {
                None
            }
        } else if kind == 10 {
            if first is Some && second is Some {
                Some(
                    MusicalEvent::PolyphonicPressure {
                        channel,
                        key: first->Some_0,
                        value: second->Some_0,
                    },
                )
            } else {
                None
            }
        } else if kind == 11 {
            if first is Some && second is Some {
                Some(
                    MusicalEvent::ControlChange {
                        channel,
                        controller: first->Some_0,
                        value: second->Some_0,
                    },
                )
            } else {
                None
            }
        } else if kind == 12 {
            if first is Some {
                Some(MusicalEvent::ProgramChange { channel, program: first->Some_0 })
            } else {
                None
            }
        } else if kind == 13 {
            if first is Some {
                Some(MusicalEvent::ChannelPressure { channel, value: first->Some_0 })
            } else {
                None
            }
        } else if kind == 14 {
            if first is Some && second is Some {
                Some(
                    MusicalEvent::PitchBend {
                        channel,
                        value: (first->Some_0 + 128 * second->Some_0) as u16,
                    },
                )
            } else {
                None
            }
        } else if status == STATUS_SYSEX {
            None
        } else if status == STATUS_RESET {
            Some(MusicalEvent::Reset)
        } else {
            Some(MusicalEvent::Other { status })
        }
    }
}

fn data_at(wire: &[u8], at: usize) -> (r: Option<u8>)
    ensures
        r == data_byte(wire@, at as int),
{
    if at < wire.len() && wire[at] < SEVEN_BIT_LIMIT {
        Some(wire[at])
    } else {
        None
    }
}

/// Reads the event that a message in wire form stands for.
pub fn event_from_wire(wire: &[u8]) -> (r: Option<MusicalEvent>)
    ensures
        r == from_wire(wire@),
        r matches Some(event) ==> event.valid(),
{
    if wire.len() == 0 {
        return None;
    }
    let status: u8 = wire[0];
    let channel: u8 = status % 16;
    let kind: u8 = status / 16;
    let first = data_at(wire, 1);
    let second = data_at(wire, 2);
    if kind < 8 {
        None
    } else if kind == 15 {
        if status == STATUS_SYSEX {
            None
        } else if status == STATUS_RESET {
            Some(MusicalEvent::Reset)
        } else {
            Some(MusicalEvent::Other { status })
        }
    } else if kind == 12 || kind == 13 {
        match first {
            Some(value) => if kind == 12 {
                Some(MusicalEvent::ProgramChange { channel, program: value })
            } else {
                Some(MusicalEvent::ChannelPressure { channel, value })
            },
            None => None,
        }
    } else {
        match (first, second) {
            (Some(a), Some(b)) => if kind == 8 {
                Some(MusicalEvent::NoteOff { channel, key: a, velocity: b })
            } else if kind == 9 {
                Some(MusicalEvent::NoteOn { channel, key: a, velocity: b })
            } else if kind == 10 {
                Some(MusicalEvent::PolyphonicPressure { channel, key: a, value: b })
            } else if kind == 11 {
                Some(MusicalEvent::ControlChange { channel, controller: a, value: b })
            } else {
                let low: u16 = a as u16;
                let high: u16 = b as u16;
                Some(MusicalEvent::PitchBend { channel, value: low + 128 * high })
            },
            _ => None,
        }
    }
}

/// The wire form that the MIDI parser gives to the message at the start of
/// `bytes`, or nothing where the parser rejects them.
pub uninterp spec fn wire_form(bytes: Seq<u8>) -> Option<Seq<u8>>;

/// Calls `wmidi::MidiMessage::try_from` on the bytes and, where it accepts
/// them, `wmidi::MidiMessage::to_vec` on the message. The result is the
/// parser's own encoding of what it read, named by `wire_form`.
#[verifier::external_body]
fn normalize(data: &[u8]) -> (r: Option<Vec<u8>>)
    ensures
        r is Some == wire_form(data@) is Some,
        r matches Some(wire) ==> wire_form(data@) == Some(wire@),
{
    wmidi::MidiMessage::try_from(data).ok().map(|message| message.to_vec())
}

/// The event that raw input bytes give: the parser's reading of them, as far
/// as it stands for an event.
pub open spec fn decoded(bytes: Seq<u8>) -> Option<MusicalEvent> {
    match wire_form(bytes) {
        Some(wire) => from_wire(wire),
        None => None,
    }
}

/// Decodes raw input bytes. Bytes that the parser rejects, and system
/// exclusive messages, give no event.
pub fn decode(data: &[u8]) -> (r: Option<MusicalEvent>)
    ensures
        r == decoded(data@),
        r matches Some(event) ==> event.valid(),
{
    match normalize(data) {
        Some(wire) => event_from_wire(wire.as_slice()),
        None => None,
    }
}

} // verus!
