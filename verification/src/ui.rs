//! The virtual keyboard: which key of the computer keyboard plays which
//! note.

use crate::event::MusicalEvent;
use vstd::prelude::*;

verus! {

/// The channel that the virtual keyboard plays on.
pub const KEYBOARD_CHANNEL: u8 = 0;

/// The velocity of every note of the virtual keyboard: the highest.
pub const KEYBOARD_VELOCITY: u8 = 127;

/// The note that a key plays, as its MIDI key number. The letters from `E`
/// to `P` of the top row are the white keys from middle C up to the C above
/// it, and the digits above them are the black keys between.
pub open spec fn note_of_key(key: char) -> Option<u8> {
    if key == 'E' {
        Some(60u8)
    } else if key == '4' {
        Some(61u8)
    } else if key == 'R' {
        Some(62u8)
    } else if key == '5' {
        Some(63u8)
    } else if key == 'T' {
        Some(64u8)
    } else if key == 'Y' {
        Some(65u8)
    } else if key == '7' {
        Some(66u8)
    } else if key == 'U' {
        Some(67u8)
    } else if key == '8' {
        Some(68u8)
    } else if key == 'I' {
        Some(69u8)
    } else if key == '9' {
        Some(70u8)
    } else if key == 'O' {
        Some(71u8)
    } else if key == 'P' {
        Some(72u8)
    } else {
        None
    }
}

/// Returns the note that a key plays, if it plays one.
pub fn key_code_to_note(key: char) -> (note: Option<u8>)
    ensures
        note == note_of_key(key),
        note matches Some(number) ==> 60 <= number <= 72,
{
    match key {
        'E' => Some(60),
        '4' => Some(61),
        'R' => Some(62),
        '5' => Some(63),
        'T' => Some(64),
        'Y' => Some(65),
        '7' => Some(66),
        'U' => Some(67),
        '8' => Some(68),
        'I' => Some(69),
        '9' => Some(70),
        'O' => Some(71),
        'P' => Some(72),
        _ => None,
    }
}

/// What the virtual keyboard tells the pipeline.
#[derive(Clone, Copy, Debug, PartialEq, Eq, Structural)]
pub enum Message {
    /// The key of this note went down.
    KeyNoteOn(u8),
    /// The key of this note came up.
    KeyNoteOff(u8),
}

/// The message that a key gives when it goes down or comes up: none where
/// the key plays no note.
pub open spec fn message_of(key: char, pressed: bool) -> Option<Message> {
    match note_of_key(key) {
        Some(note) => Some(
            if pressed {
                Message::KeyNoteOn(note)
            } else {
                Message::KeyNoteOff(note)
            },
        ),
        None => None,
    }
}

/// Returns the message that a key gives when it goes down or comes up.
pub fn key_message(key: char, pressed: bool) -> (message: Option<Message>)
    ensures
        message == message_of(key, pressed),
{
    match key_code_to_note(key) {
        Some(note) => Some(
            if pressed {
                Message::KeyNoteOn(note)
            } else {
                Message::KeyNoteOff(note)
            },
        ),
        None => None,
    }
}

/// The event that a message of the virtual keyboard sends to the
/// synthesizer: a note that starts or ends on the keyboard's channel, at the
/// keyboard's velocity.
pub open spec fn event_of(message: Message) -> MusicalEvent {
    match message {
        Message::KeyNoteOn(note) => MusicalEvent::NoteOn {
            channel: KEYBOARD_CHANNEL,
            key: note,
            velocity: KEYBOARD_VELOCITY,
        },
        Message::KeyNoteOff(note) => MusicalEvent::NoteOff {
            channel: KEYBOARD_CHANNEL,
            key: note,
            velocity: KEYBOARD_VELOCITY,
        },
    }
}

/// Returns the event that a message of the virtual keyboard sends to the
/// synthesizer.
pub fn message_event(message: Message) -> (event: MusicalEvent)
    ensures
        event == event_of(message),
        note_of_message(message) < 128 ==> event.valid(),
{
    match message {
        Message::KeyNoteOn(note) => MusicalEvent::NoteOn {
            channel: KEYBOARD_CHANNEL,
            key: note,
            velocity: KEYBOARD_VELOCITY,
        },
        Message::KeyNoteOff(note) => MusicalEvent::NoteOff {
            channel: KEYBOARD_CHANNEL,
            key: note,
            velocity: KEYBOARD_VELOCITY,
        },
    }
}

/// The note that a message speaks of.
pub open spec fn note_of_message(message: Message) -> u8 {
    match message {
        Message::KeyNoteOn(note) => note,
        Message::KeyNoteOff(note) => note,
    }
}

} // verus!
