//! What can fail in the pipeline, and what each failure says.

use vstd::prelude::*;
use vstd::string::StringExecFns;

verus! {

/// Why the backend refused a call.
#[derive(Clone, Debug, PartialEq, Eq)]
pub enum BackendFailure {
    /// The backend could not allocate.
    Alloc,
    /// The backend's own error text.
    Fluid(String),
    /// The path cannot be handed to the backend.
    Path,
}

impl BackendFailure {
    /// What the failure says, as a sequence of characters.
    pub open spec fn text(self) -> Seq<char> {
        match self {
            BackendFailure::Alloc => "Allocation error"@,
            BackendFailure::Fluid(error) => "Fluidlite error: "@ + error@,
            BackendFailure::Path => "Invalid path"@,
        }
    }

    /// What the failure says.
    pub fn message(&self) -> (message: String)
        ensures
            message@ == self.text(),
    {
        match self {
            BackendFailure::Alloc => String::from_str("Allocation error"),
            BackendFailure::Fluid(error) => String::from_str("Fluidlite error: ").concat(
                error.as_str(),
            ),
            BackendFailure::Path => String::from_str("Invalid path"),
        }
    }
}

/// The output device offers nothing that the pipeline can play through.
#[derive(Clone, Copy, Debug, PartialEq, Eq, Structural)]
pub enum DeviceError {
    /// No configuration has two channels of 32-bit floating-point samples.
    NoSuitableOutputConfig,
}

impl DeviceError {
    /// What the error says, as a sequence of characters.
    pub open spec fn text(self) -> Seq<char> {
        "no stereo audio output configuration"@
    }

    /// What the error says.
    pub fn message(&self) -> (message: String)
        ensures
            message@ == self.text(),
    {
        String::from_str("no stereo audio output configuration")
    }
}

/// A sound bank could not be loaded.
#[derive(Clone, Debug, PartialEq, Eq)]
pub struct BankLoadError {
    pub path: String,
    pub cause: BackendFailure,
}

impl BankLoadError {
    /// What the error says, as a sequence of characters.
    pub open spec fn text(self) -> Seq<char> {
        "cannot load SoundFont "@ + self.path@ + ": "@ + self.cause.text()
    }

    /// What the error says.
    pub fn message(&self) -> (message: String)
        ensures
            message@ == self.text(),
    {
        let cause = self.cause.message();
        String::from_str("cannot load SoundFont ").concat(self.path.as_str()).concat(": ").concat(
            cause.as_str(),
        )
    }
}

/// An event could not be applied.
#[derive(Clone, Debug, PartialEq, Eq)]
pub enum EventApplyError {
    /// A field of the event lies outside its range.
    InvalidParameter,
    /// The backend refused the call.
    Backend(BackendFailure),
}

impl EventApplyError {
    /// What the error says, as a sequence of characters.
    pub open spec fn text(self) -> Seq<char> {
        match self {
            EventApplyError::InvalidParameter => "invalid MIDI message"@,
            EventApplyError::Backend(cause) => cause.text(),
        }
    }

    /// What the error says.
    pub fn message(&self) -> (message: String)
        ensures
            message@ == self.text(),
    {
        match self {
            EventApplyError::InvalidParameter => String::from_str("invalid MIDI message"),
            EventApplyError::Backend(cause) => cause.message(),
        }
    }
}

/// A preset could not be selected.
#[derive(Clone, Debug, PartialEq, Eq)]
pub enum PresetError {
    /// No sound bank is loaded.
    NoActiveBank,
    /// The loaded bank defines no preset under this bank and program number.
    UnknownPreset,
    /// The synthesizer has no channel of this number.
    UnknownChannel,
    /// The backend refused the call.
    Backend(BackendFailure),
}

impl PresetError {
    /// What the error says, as a sequence of characters.
    pub open spec fn text(self) -> Seq<char> {
        match self {
            PresetError::NoActiveBank => "no active SoundFont"@,
            PresetError::UnknownPreset => "no such preset in the active SoundFont"@,
            PresetError::UnknownChannel => "no such channel"@,
            PresetError::Backend(cause) => cause.text(),
        }
    }

    /// What the error says.
    pub fn message(&self) -> (message: String)
        ensures
            message@ == self.text(),
    {
        match self {
            PresetError::NoActiveBank => String::from_str("no active SoundFont"),
            PresetError::UnknownPreset => String::from_str(
                "no such preset in the active SoundFont",
            ),
            PresetError::UnknownChannel => String::from_str("no such channel"),
            PresetError::Backend(cause) => cause.message(),
        }
    }
}

/// No input could be attached.
#[derive(Clone, Debug, PartialEq, Eq)]
pub enum InputConnectionError {
    /// No port has the name that was asked for.
    PortNotFound(String),
    /// There is no input port at all.
    NoPort,
}

impl InputConnectionError {
    /// What the error says, as a sequence of characters.
    pub open spec fn text(self) -> Seq<char> {
        match self {
            InputConnectionError::PortNotFound(name) => "MIDI input port not found: "@ + name@,
            InputConnectionError::NoPort => "no MIDI input port"@,
        }
    }

    /// What the error says.
    pub fn message(&self) -> (message: String)
        ensures
            message@ == self.text(),
    {
        match self {
            InputConnectionError::PortNotFound(name) => String::from_str(
                "MIDI input port not found: ",
            ).concat(name.as_str()),
            InputConnectionError::NoPort => String::from_str("no MIDI input port"),
        }
    }
}

} // verus!
