//! A real-time pipeline from musical input to sound: typed musical events,
//! the synthesizer that holds the loaded sound bank, the commands that
//! control threads send to it, and the rules by which an output format and
//! an input port are chosen.

pub mod audio;
pub mod backend;
pub mod command;
pub mod error;
pub mod event;
pub mod midi;
pub mod piano;
pub mod synth;
pub mod ui;

pub use audio::AudioOutputConfig;
pub use command::{Command, Outcome};
pub use event::MusicalEvent;
pub use midi::MidiInputPort;
pub use piano::{InputSlot, PianoMidiInput, Preset};
pub use synth::{Engine, Gain, PresetData};
