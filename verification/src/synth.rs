//! The synthesizer: the backend, the sound bank loaded in it and the presets
//! that the bank defines.

use crate::backend::{
    bank_offset, channel_program, channel_pressure, control_change, failure_of, font_absent,
    font_file, get_cc, get_program, key_pressure, loaded_presets, name_view, note_off, note_on,
    pitch_bend, preset_at, program_change, program_select, reports_text, same_banks,
    same_programs, same_programs_but, set_bank_offset, sfload, sfunload, system_reset,
};
use crate::error::{BackendFailure, BankLoadError, EventApplyError, PresetError};
use crate::event::MusicalEvent;
use crate::piano::Preset;
use vstd::prelude::*;

verus! {

/// Number of bank numbers, and of program numbers, that are probed.
pub const GRID: u32 = 128;

/// One preset of a sound bank.
#[derive(Clone, Debug)]
pub struct PresetData {
    pub bank: u32,
    pub num: u32,
    pub name: Option<String>,
}

/// What a [`PresetData`] says, with the name as a sequence of characters.
pub struct PresetView {
    pub bank: u32,
    pub num: u32,
    pub name: Option<Seq<char>>,
}

impl View for PresetData {
    type V = PresetView;

    open spec fn view(&self) -> PresetView {
        PresetView { bank: self.bank, num: self.num, name: name_view(self.name) }
    }
}

/// The views of a sequence of presets.
pub open spec fn views(presets: Seq<PresetData>) -> Seq<PresetView> {
    Seq::new(presets.len(), |i: int| presets[i]@)
}

/// Where a preset stands when the grid is walked bank by bank, and each bank
/// program by program.
pub open spec fn position(preset: PresetView) -> int {
    preset.bank * GRID + preset.num
}

/// The entry at `at` is the preset of this bank and program number.
pub open spec fn stands_at(list: Seq<PresetView>, at: int, bank: u32, num: u32) -> bool {
    0 <= at < list.len() && list[at].bank == bank && list[at].num == num
}

/// `list` holds, in the order of the grid, exactly the presets that the font
/// defines at the first `limit` positions of the grid.
pub open spec fn lists_upto(
    list: Seq<PresetView>,
    defined: Map<(u32, u32, u32), Option<Seq<char>>>,
    font: u32,
    limit: int,
) -> bool {
    &&& forall|i: int, j: int|
        0 <= i < j < list.len() ==> position(#[trigger] list[i]) < position(#[trigger] list[j])
    &&& forall|i: int|
        0 <= i < list.len() ==> {
            let entry = #[trigger] list[i];
            &&& entry.bank < GRID
            &&& entry.num < GRID
            &&& position(entry) < limit
            &&& defined.contains_key((font, entry.bank, entry.num))
            &&& entry.name == defined[(font, entry.bank, entry.num)]
        }
    &&& forall|bank: u32, num: u32|
        bank < GRID && num < GRID && bank * GRID + num < limit && #[trigger] defined.contains_key(
            (font, bank, num),
        ) ==> exists|at: int| stands_at(list, at, bank, num)
}

/// `list` holds, bank by bank and program by program, exactly the presets
/// that the font defines on the grid of 128 banks and 128 programs.
pub open spec fn lists_bank(
    list: Seq<PresetView>,
    defined: Map<(u32, u32, u32), Option<Seq<char>>>,
    font: u32,
) -> bool {
    lists_upto(list, defined, font, GRID * GRID)
}

/// Probes every bank and program number of the grid and returns the presets
/// that the font with this id defines, in the order of the grid.
pub fn probe(synth: &fluidlite::Synth, font: u32) -> (found: Vec<PresetData>)
    ensures
        lists_bank(views(found@), loaded_presets(*synth), font),
{
    let ghost defined = loaded_presets(*synth);
    let mut found: Vec<PresetData> = Vec::new();
    let mut bank: u32 = 0;
    while bank < GRID
        invariant
            bank <= GRID,
            defined == loaded_presets(*synth),
            lists_upto(views(found@), defined, font, bank * GRID),
        decreases GRID - bank,
    {
        let mut num: u32 = 0;
        while num < GRID
            invariant
                bank < GRID,
                num <= GRID,
                defined == loaded_presets(*synth),
                lists_upto(views(found@), defined, font, bank * GRID + num),
            decreases GRID - num,
        {
            let ghost before = views(found@);
            match preset_at(synth, font, bank, num) {
                Some(name) => {
                    found.push(PresetData { bank, num, name });
                    proof {
                        let after = views(found@);
                        assert(after.len() == before.len() + 1);
                        assert forall|i: int| 0 <= i < before.len() implies after[i]
                            == before[i] by {}
                        assert(after[before.len() as int] == PresetView {
                            bank,
                            num,
                            name: name_view(name),
                        });
                        assert forall|b: u32, n: u32|
                            b < GRID && n < GRID && b * GRID + n < bank * GRID + num + 1
                                && #[trigger] defined.contains_key((font, b, n)) implies exists|
                            at: int,
                        | stands_at(after, at, b, n) by {
                            if b * GRID + n < bank * GRID + num {
                                let at = choose|at: int| stands_at(before, at, b, n);
                                assert(stands_at(after, at, b, n));
                            } else {
                                assert(b == bank && n == num);
                                assert(stands_at(after, before.len() as int, b, n));
                            }
                        }
                    }
                },
                None => {
                    proof {
                        assert forall|b: u32, n: u32|
                            b < GRID && n < GRID && b * GRID + n < bank * GRID + num + 1
                                && #[trigger] defined.contains_key((font, b, n)) implies exists|
                            at: int,
                        | stands_at(before, at, b, n) by {
                            if b * GRID + n >= bank * GRID + num {
                                assert(b == bank && n == num);
                            }
                        }
                    }
                },
            }
            num += 1;
        }
        bank += 1;
    }
    found
}

/// A master gain, held as the bit pattern of a single-precision number.
#[derive(Clone, Copy, Debug, PartialEq, Eq, Structural)]
pub struct Gain {
    pub bits: u32,
}

/// The gain of a new synthesizer: the bit pattern of one and a half.
pub const DEFAULT_GAIN_BITS: u32 = 0x3FC0_0000;

impl Default for Gain {
    fn default() -> (gain: Self)
        ensures
            gain.bits == DEFAULT_GAIN_BITS,
    {
        Gain { bits: DEFAULT_GAIN_BITS }
    }
}

/// The call that an event makes into the backend, with its arguments.
#[derive(Clone, Copy, Debug, PartialEq, Eq, Structural)]
pub enum BackendCall {
    NoteOn { chan: u32, key: u32, vel: u32 },
    NoteOff { chan: u32, key: u32 },
    KeyPressure { chan: u32, key: u32, val: u32 },
    ControlChange { chan: u32, ctrl: u32, val: u32 },
    ProgramChange { chan: u32, prog: u32 },
    ChannelPressure { chan: u32, val: u32 },
    PitchBend { chan: u32, val: u32 },
    SystemReset,
    /// The event asks nothing of the backend.
    Nothing,
}

impl BackendCall {
    /// Every argument lies in the range that the backend takes.
    pub open spec fn in_range(self) -> bool {
        match self {
            BackendCall::NoteOn { chan, key, vel } => chan < 16 && key < 128 && vel < 128,
            BackendCall::NoteOff { chan, key } => chan < 16 && key < 128,
            BackendCall::KeyPressure { chan, key, val } => chan < 16 && key < 128 && val < 128,
            BackendCall::ControlChange { chan, ctrl, val } => chan < 16 && ctrl < 128 && val < 128,
            BackendCall::ProgramChange { chan, prog } => chan < 16 && prog < 128,
            BackendCall::ChannelPressure { chan, val } => chan < 16 && val < 128,
            BackendCall::PitchBend { chan, val } => chan < 16 && val < 16384,
            BackendCall::SystemReset => true,
            BackendCall::Nothing => true,
        }
    }

    /// The call is one that the backend never refuses while its arguments lie
    /// in their ranges. A note that starts or ends is not: what becomes of it
    /// depends on the preset of the channel and on the notes that sound.
    pub open spec fn never_refused(self) -> bool {
        match self {
            BackendCall::NoteOn { .. } => false,
            BackendCall::NoteOff { .. } => false,
            BackendCall::KeyPressure { .. } => true,
            BackendCall::ControlChange { .. } => true,
            BackendCall::ProgramChange { .. } => true,
            BackendCall::ChannelPressure { .. } => true,
            BackendCall::PitchBend { .. } => true,
            BackendCall::SystemReset => true,
            BackendCall::Nothing => true,
        }
    }
}

/// The backend call that stands for an event. A note that ends loses its
/// velocity, for which the backend has no use; an event of another kind asks
/// nothing of the backend.
pub open spec fn routed(event: MusicalEvent) -> BackendCall {
    match event {
        MusicalEvent::NoteOn { channel, key, velocity } => BackendCall::NoteOn {
            chan: channel as u32,
            key: key as u32,
            vel: velocity as u32,
        },
        MusicalEvent::NoteOff { channel, key, velocity } => BackendCall::NoteOff {
            chan: channel as u32,
            key: key as u32,
        },
        MusicalEvent::PolyphonicPressure { channel, key, value } => BackendCall::KeyPressure {
            chan: channel as u32,
            key: key as u32,
            val: value as u32,
        },
        MusicalEvent::ControlChange { channel, controller, value } => BackendCall::ControlChange {
            chan: channel as u32,
            ctrl: controller as u32,
            val: value as u32,
        },
        MusicalEvent::ProgramChange { channel, program } => BackendCall::ProgramChange {
            chan: channel as u32,
            prog: program as u32,
        },
        MusicalEvent::ChannelPressure { channel, value } => BackendCall::ChannelPressure {
            chan: channel as u32,
            val: value as u32,
        },
        MusicalEvent::PitchBend { channel, value } => BackendCall::PitchBend {
            chan: channel as u32,
            val: value as u32,
        },
        MusicalEvent::Reset => BackendCall::SystemReset,
        MusicalEvent::Other { status } => BackendCall::Nothing,
    }
}

/// Chooses the backend call that stands for an event.
pub fn route(event: MusicalEvent) -> (call: BackendCall)
    ensures
        call == routed(event),
        event.valid() ==> call.in_range(),
{
    match event {
        MusicalEvent::NoteOn { channel, key, velocity } => BackendCall::NoteOn {
            chan: channel as u32,
            key: key as u32,
            vel: velocity as u32,
        },
        MusicalEvent::NoteOff { channel, key, velocity } => BackendCall::NoteOff {
            chan: channel as u32,
            key: key as u32,
        },
        MusicalEvent::PolyphonicPressure { channel, key, value } => BackendCall::KeyPressure {
            chan: channel as u32,
            key: key as u32,
            val: value as u32,
        },
        MusicalEvent::ControlChange { channel, controller, value } => BackendCall::ControlChange {
            chan: channel as u32,
            ctrl: controller as u32,
            val: value as u32,
        },
        MusicalEvent::ProgramChange { channel, program } => BackendCall::ProgramChange {
            chan: channel as u32,
            prog: program as u32,
        },
        MusicalEvent::ChannelPressure { channel, value } => BackendCall::ChannelPressure {
            chan: channel as u32,
            val: value as u32,
        },
        MusicalEvent::PitchBend { channel, value } => BackendCall::PitchBend {
            chan: channel as u32,
            val: value as u32,
        },
        MusicalEvent::Reset => BackendCall::SystemReset,
        MusicalEvent::Other { status } => BackendCall::Nothing,
    }
}

/// What applying an event returns for each answer of the backend.
pub fn applied(status: Result<(), BackendFailure>) -> (r: Result<(), EventApplyError>)
    ensures
        r == match status {
            Ok(()) => Ok::<(), EventApplyError>(()),
            Err(cause) => Err(EventApplyError::Backend(cause)),
        },
{
    match status {
        Ok(()) => Ok(()),
        Err(cause) => Err(EventApplyError::Backend(cause)),
    }
}

/// The list holds a preset under this bank and program number.
pub open spec fn has_preset(list: Seq<PresetView>, bank: u32, num: u32) -> bool {
    exists|at: int| stands_at(list, at, bank, num)
}

/// Whether the backend assigns presets to all channels anew when a font
/// comes or goes: it does.
pub const RESET_PRESETS: bool = true;

/// A channel number that no synthesizer has.
pub const NO_CHANNEL: u32 = 0xFFFF_FFFF;

/// The controller that selects the bank of a channel.
pub const BANK_SELECT: u8 = 0;

/// The channel that the backend may keep for drums, where a bank select is
/// ignored.
pub const DRUM_CHANNEL: u8 = 9;

/// The controller that selects the finer part of the bank of a channel.
pub const BANK_SELECT_FINE: u8 = 32;

/// The bank and program of a channel, out of what the backend assigns to it.
pub open spec fn program_view(assigned: Option<(u32, u32, u32)>) -> Option<Preset> {
    match assigned {
        Some((font, bank, num)) => Some(Preset { bank, num }),
        None => None,
    }
}

/// What a call into the backend does to the programs of the channels. A
/// program change gives its channel the program, keeps the channel's bank
/// and leaves the other channels alone. A bank select gives its channel the
/// bank, on every channel but the one that may be kept for drums; any
/// control change leaves the other channels alone, and one that selects no
/// bank leaves all of them. A reset puts each of the sixteen channels back
/// at font 0, bank 0 and program 0. Every other call leaves the programs as
/// they are.
pub open spec fn programs_follow(
    call: BackendCall,
    before: fluidlite::Synth,
    after: fluidlite::Synth,
) -> bool {
    match call {
        BackendCall::ProgramChange { chan, prog } => {
            &&& same_programs_but(before, after, chan)
            &&& channel_program(after, chan) is Some
            &&& channel_program(after, chan)->Some_0.2 == prog
            &&& channel_program(after, chan)->Some_0.1 == channel_program(before, chan)->Some_0.1
        },
        BackendCall::ControlChange { chan, ctrl, val } => {
            &&& same_programs_but(before, after, chan)
            &&& ctrl != BANK_SELECT && ctrl != BANK_SELECT_FINE ==> same_programs(before, after)
            &&& ctrl == BANK_SELECT && chan != DRUM_CHANNEL ==> channel_program(after, chan) is Some
                && channel_program(after, chan)->Some_0.1 == val
        },
        BackendCall::SystemReset => forall|chan: u32|
            chan < 16 ==> #[trigger] channel_program(after, chan) == Some((0u32, 0u32, 0u32)),
        _ => same_programs(before, after),
    }
}

/// The synthesizer, processing musical events with the presets of a sound
/// bank.
///
/// The backend keeps one message for the whole process, and what an engine
/// knows of it holds while the engines of the process are used one at a
/// time. Engines of one process must not be used from two threads at once.
pub struct Engine {
    synth: fluidlite::Synth,
    /// Id of the loaded and active font.
    sfont: Option<u32>,
    /// The presets that the active font defines.
    presets: Vec<PresetData>,
    /// The gain that the next rendered block is to have.
    gain: Gain,
    /// Whether the message that the backend keeps is known to be text.
    settled: bool,
}

impl Engine {
    /// The backend as it stands.
    pub closed spec fn state(&self) -> fluidlite::Synth {
        self.synth
    }

    /// The id of the active font, if a bank is loaded.
    pub closed spec fn font(&self) -> Option<u32> {
        self.sfont
    }

    /// The presets held for the active bank.
    pub closed spec fn descriptors(&self) -> Seq<PresetView> {
        views(self.presets@)
    }

    /// The gain that was last set.
    pub closed spec fn gain_value(&self) -> Gain {
        self.gain
    }

    /// The preset assigned to a channel, or nothing where the backend has no
    /// such channel.
    pub open spec fn assigned(&self, channel: u8) -> Option<Preset> {
        program_view(channel_program(self.state(), channel as u32))
    }

    /// At most one bank is active, and the presets held are exactly those that
    /// the active bank defines in the backend: with no bank, none. The
    /// active font has no bank offset, so that the backend finds a preset
    /// under the numbers by which it is listed.
    pub open spec fn wf(&self) -> bool {
        match self.font() {
            Some(font) => {
                &&& lists_bank(self.descriptors(), loaded_presets(self.state()), font)
                &&& bank_offset(self.state(), font) == 0
            },
            None => self.descriptors().len() == 0,
        }
    }

    /// While the engine holds the message of the backend to be text, it is.
    #[verifier::type_invariant]
    spec fn settled_is_text(&self) -> bool {
        self.settled ==> reports_text(self.synth)
    }

    /// Takes over a backend in which this library has loaded nothing. The
    /// gain starts at its default. The backend is asked once for what it
    /// must refuse, so that the message it keeps is text from here on; its
    /// fonts and the programs of its channels stay as they are.
    pub fn new(backend: fluidlite::Synth) -> (engine: Self)
        ensures
            engine.wf(),
            same_banks(backend, engine.state()),
            same_programs(backend, engine.state()),
            engine.font() is None,
            engine.descriptors().len() == 0,
            engine.gain_value().bits == DEFAULT_GAIN_BITS,
    {
        let mut engine = Engine {
            synth: backend,
            sfont: None,
            presets: Vec::new(),
            gain: Gain::default(),
            settled: false,
        };
        engine.settle();
        engine
    }

    /// Makes the message that the backend keeps text, by a call that the
    /// backend must refuse in plain words. Nothing else changes.
    fn settle(&mut self)
        ensures
            final(self).settled,
            reports_text(final(self).state()),
            same_banks(old(self).state(), final(self).state()),
            same_programs(old(self).state(), final(self).state()),
            final(self).font() == old(self).font(),
            final(self).descriptors() == old(self).descriptors(),
            final(self).gain_value() == old(self).gain_value(),
    {
        let _ = get_cc(&mut self.synth, NO_CHANNEL, 0);
        self.settled = true;
    }

    /// The backend, for what this library leaves to its caller: rendering
    /// and the gain. Nothing else may be done through it: a font that is
    /// loaded or unloaded, a bank offset that is set, or an event that is
    /// sent behind the engine's back leaves the engine with presets and
    /// programs that the backend no longer has.
    pub fn backend(&self) -> (backend: &fluidlite::Synth)
        ensures
            *backend == self.state(),
    {
        &self.synth
    }

    /// Tells whether a sound bank is loaded.
    pub fn has_bank(&self) -> (r: bool)
        ensures
            r == self.font() is Some,
    {
        self.sfont.is_some()
    }

    /// The gain that was last set.
    pub fn gain(&self) -> (gain: Gain)
        ensures
            gain == self.gain_value(),
    {
        self.gain
    }

    /// Sets the gain of the blocks rendered from now on. No value is refused
    /// or clamped.
    pub fn set_gain(&mut self, gain: Gain)
        ensures
            final(self).gain_value() == gain,
            final(self).state() == old(self).state(),
            final(self).font() == old(self).font(),
            final(self).descriptors() == old(self).descriptors(),
    {
        proof {
            use_type_invariant(&*self);
        }
        self.gain = gain;
    }

    /// The presets of the active bank, bank by bank and program by program.
    pub fn presets_data(&self) -> (presets: &[PresetData])
        ensures
            views(presets@) == self.descriptors(),
    {
        self.presets.as_slice()
    }

    /// Tells whether the active bank defines a preset under this bank and
    /// program number.
    pub fn defines(&self, bank: u32, num: u32) -> (r: bool)
        ensures
            r == has_preset(self.descriptors(), bank, num),
    {
        let mut at: usize = 0;
        while at < self.presets.len()
            invariant
                at <= self.presets.len(),
                forall|i: int| 0 <= i < at ==> !stands_at(views(self.presets@), i, bank, num),
            decreases self.presets.len() - at,
        {
            if self.presets[at].bank == bank && self.presets[at].num == num {
                assert(stands_at(views(self.presets@), at as int, bank, num));
                return true;
            }
            at += 1;
        }
        false
    }

    /// Makes one call into the backend and returns the backend's answer. A
    /// call that the backend never refuses succeeds; of a note that starts
    /// or ends, the answer is the backend's to give. The programs of the
    /// channels are afterwards what [`programs_follow`] says. The fonts, the
    /// bank and its presets are not touched, whatever the backend answers; a
    /// call of nothing is not made at all.
    fn perform(&mut self, call: BackendCall) -> (status: Result<(), BackendFailure>)
        requires
            call.in_range(),
        ensures
            call.never_refused() ==> status is Ok,
            call is Nothing ==> *final(self) == *old(self),
            programs_follow(call, old(self).state(), final(self).state()),
            same_banks(old(self).state(), final(self).state()),
            final(self).font() == old(self).font(),
            final(self).descriptors() == old(self).descriptors(),
            final(self).gain_value() == old(self).gain_value(),
    {
        proof {
            use_type_invariant(&*self);
        }
        let answer = match call {
            BackendCall::NoteOn { chan, key, vel } => {
                if !self.settled {
                    self.settle();
                }
                proof {
                    use_type_invariant(&*self);
                }
                note_on(&mut self.synth, chan, key, vel)
            },
            BackendCall::NoteOff { chan, key } => {
                if !self.settled {
                    self.settle();
                }
                proof {
                    use_type_invariant(&*self);
                }
                note_off(&mut self.synth, chan, key)
            },
            BackendCall::KeyPressure { chan, key, val } => key_pressure(
                &mut self.synth,
                chan,
                key,
                val,
            ),
            BackendCall::ControlChange { chan, ctrl, val } => control_change(
                &mut self.synth,
                chan,
                ctrl,
                val,
            ),
            BackendCall::ProgramChange { chan, prog } => program_change(
                &mut self.synth,
                chan,
                prog,
            ),
            BackendCall::ChannelPressure { chan, val } => channel_pressure(
                &mut self.synth,
                chan,
                val,
            ),
            BackendCall::PitchBend { chan, val } => pitch_bend(&mut self.synth, chan, val),
            BackendCall::SystemReset => system_reset(&mut self.synth),
            BackendCall::Nothing => Ok(()),
        };
        match answer {
            Ok(()) => Ok(()),
            Err(error) => Err(failure_of(error)),
        }
    }

    /// Applies one event. An event with a field outside its range is refused
    /// and nothing is asked of the backend; an event of a kind that the
    /// synthesizer does not know is passed over in silence. Any other event
    /// goes to the backend as [`routed`] says, and the backend's answer is
    /// returned as [`applied`] says: a valid event fails only where it is a
    /// note that starts or ends and the backend refuses it. The programs of
    /// the channels are afterwards what [`programs_follow`] says of the call
    /// that was made.
    pub fn send_midi_message(&mut self, message: MusicalEvent) -> (r: Result<(), EventApplyError>)
        ensures
            old(self).wf() ==> final(self).wf(),
            same_banks(old(self).state(), final(self).state()),
            final(self).font() == old(self).font(),
            final(self).descriptors() == old(self).descriptors(),
            final(self).gain_value() == old(self).gain_value(),
            (r == Err::<(), EventApplyError>(EventApplyError::InvalidParameter))
                == !message.valid(),
            !message.valid() ==> *final(self) == *old(self),
            message.valid() && routed(message).never_refused() ==> r is Ok,
            message.valid() && routed(message) is Nothing ==> *final(self) == *old(self),
            message.valid() ==> programs_follow(
                routed(message),
                old(self).state(),
                final(self).state(),
            ),
    {
        if !message.is_valid() {
            return Err(EventApplyError::InvalidParameter);
        }
        let status = self.perform(route(message));
        applied(status)
    }

    /// Makes a font that the backend has loaded the active bank, or records
    /// that loading failed: with the id of a font, the presets held become
    /// those that the font defines; with a failure, no bank is active and no
    /// preset is held. The synthesizer is well formed afterwards where the
    /// font has no bank offset.
    pub fn install(&mut self, path: &str, loaded: Result<u32, BackendFailure>) -> (r: Result<
        (),
        BankLoadError,
    >)
        ensures
            (loaded matches Ok(font) ==> bank_offset(old(self).state(), font) == 0)
                ==> final(self).wf(),
            final(self).state() == old(self).state(),
            final(self).gain_value() == old(self).gain_value(),
            match loaded {
                Ok(font) => r is Ok && final(self).font() == Some(font),
                Err(cause) => {
                    &&& r matches Err(error)
                    &&& error.path@ == path@
                    &&& error.cause == cause
                    &&& final(self).font() is None
                },
            },
    {
        proof {
            use_type_invariant(&*self);
        }
        match loaded {
            Ok(font) => {
                self.presets = probe(&self.synth, font);
                self.sfont = Some(font);
                Ok(())
            },
            Err(cause) => {
                self.presets = Vec::new();
                self.sfont = None;
                Err(BankLoadError { path: path.to_owned(), cause })
            },
        }
    }

    /// Loads a sound bank from the file of this path and makes it the
    /// active bank: the path goes to the backend as it came, and where the
    /// backend accepts the file, the active font is the one that it made of
    /// it, with no bank offset. The bank that was active is unloaded first,
    /// and the backend holds nothing under its id afterwards, unless it
    /// gives that very id to the new bank. Where the backend refuses, no
    /// bank is active afterwards and the error names the path. Whether the
    /// backend accepts the file is the backend's to say; what follows from
    /// its answer is what [`Engine::install`] states.
    pub fn load_sfont(&mut self, filename: &str) -> (r: Result<(), BankLoadError>)
        ensures
            final(self).wf(),
            final(self).gain_value() == old(self).gain_value(),
            r is Ok == final(self).font() is Some,
            r is Ok ==> font_file(final(self).state(), final(self).font()->Some_0) == Some(
                filename@,
            ),
            r matches Err(error) ==> error.path@ == filename@,
            old(self).font() is Some && final(self).font() != old(self).font() ==> font_absent(
                final(self).state(),
                old(self).font()->Some_0,
            ),
    {
        proof {
            use_type_invariant(&*self);
        }
        let previous = self.sfont;
        self.sfont = None;
        self.presets = Vec::new();
        if let Some(font) = previous {
            // Whether or not there was such a font, there is none now.
            let _ = sfunload(&mut self.synth, font, RESET_PRESETS);
        }
        self.settled = false;
        let answer = sfload(&mut self.synth, filename, RESET_PRESETS);
        self.settle();
        let loaded = match answer {
            Ok(font) => {
                proof {
                    use_type_invariant(&*self);
                }
                match set_bank_offset(&mut self.synth, font, 0) {
                    Ok(()) => Ok(font),
                    Err(error) => {
                        // A font that the backend may look up under other
                        // numbers than it is listed by is not kept.
                        let _ = sfunload(&mut self.synth, font, RESET_PRESETS);
                        Err(failure_of(error))
                    },
                }
            },
            Err(error) => Err(failure_of(error)),
        };
        self.install(filename, loaded)
    }

    /// Probes the backend for the presets of the active bank. With no bank
    /// there are none.
    pub fn presets(&self) -> (found: Vec<PresetData>)
        ensures
            match self.font() {
                Some(font) => lists_bank(views(found@), loaded_presets(self.state()), font),
                None => found@.len() == 0,
            },
            self.wf() ==> views(found@) == self.descriptors(),
    {
        match self.sfont {
            Some(font) => {
                let found = probe(&self.synth, font);
                proof {
                    if self.wf() {
                        law_listing_unique(
                            views(found@),
                            self.descriptors(),
                            loaded_presets(self.synth),
                            font,
                        );
                    }
                }
                found
            },
            None => {
                let found: Vec<PresetData> = Vec::new();
                assert(self.wf() ==> views(found@) =~= self.descriptors());
                found
            },
        }
    }

    /// Assigns a preset of the active bank to a channel. With no bank, or
    /// with a bank that defines no such preset, the call is refused and the
    /// synthesizer is left as it was. Otherwise the backend is asked: it
    /// agrees for each of the sixteen channels, and then the channel has the
    /// preset. No other channel changes, and where the call fails none
    /// does.
    pub fn select_preset(&mut self, channel: u8, bank: u32, program: u32) -> (r: Result<
        (),
        PresetError,
    >)
        ensures
            old(self).wf() ==> final(self).wf(),
            same_banks(old(self).state(), final(self).state()),
            final(self).font() == old(self).font(),
            final(self).descriptors() == old(self).descriptors(),
            final(self).gain_value() == old(self).gain_value(),
            (r == Err::<(), PresetError>(PresetError::NoActiveBank)) == old(self).font() is None,
            (r == Err::<(), PresetError>(PresetError::UnknownPreset)) == (old(self).font() is Some
                && !has_preset(old(self).descriptors(), bank, program)),
            old(self).wf() && channel < 16 && old(self).font() is Some && has_preset(
                old(self).descriptors(),
                bank,
                program,
            ) ==> r is Ok,
            r is Err && !(r matches Err(PresetError::Backend(_))) ==> *final(self) == *old(self),
            r is Err ==> forall|any: u8| final(self).assigned(any) == old(self).assigned(any),
            r is Ok ==> final(self).assigned(channel) == Some((Preset { bank, num: program })),
            r is Ok ==> forall|other: u8|
                other != channel ==> final(self).assigned(other) == old(self).assigned(other),
    {
        proof {
            use_type_invariant(&*self);
        }
        match self.sfont {
            None => Err(PresetError::NoActiveBank),
            Some(font) => {
                if !self.defines(bank, program) {
                    return Err(PresetError::UnknownPreset);
                }
                proof {
                    if self.wf() {
                        law_listing_exact(
                            self.descriptors(),
                            loaded_presets(self.synth),
                            font,
                        );
                    }
                }
                match program_select(&mut self.synth, channel as u32, font, bank, program) {
                    Ok(()) => Ok(()),
                    Err(error) => Err(PresetError::Backend(failure_of(error))),
                }
            },
        }
    }

    /// The preset assigned to a channel, as the backend reports it. There
    /// are sixteen channels: a higher number is refused.
    pub fn active_preset(&self, channel: u8) -> (r: Result<Preset, PresetError>)
        ensures
            channel >= 16 ==> r == Err::<Preset, PresetError>(PresetError::UnknownChannel),
            channel < 16 ==> r is Ok,
            r matches Ok(preset) ==> self.assigned(channel) == Some(preset),
    {
        if channel >= 16 {
            return Err(PresetError::UnknownChannel);
        }
        match get_program(&self.synth, channel as u32) {
            Ok((font, bank, num)) => Ok(Preset { bank, num }),
            Err(error) => Err(PresetError::Backend(failure_of(error))),
        }
    }
}

/// A listing holds a preset under a bank and program number exactly where the
/// font defines one there, on the grid of 128 banks and 128 programs; and it
/// holds none twice.
pub proof fn law_listing_exact(
    list: Seq<PresetView>,
    defined: Map<(u32, u32, u32), Option<Seq<char>>>,
    font: u32,
)
    requires
        lists_bank(list, defined, font),
    ensures
        forall|bank: u32, num: u32|
            has_preset(list, bank, num) <==> bank < GRID && num < GRID && #[trigger] defined.contains_key(
                (font, bank, num),
            ),
        forall|i: int, j: int|
            0 <= i < j < list.len() ==> (#[trigger] list[i]).bank != (#[trigger] list[j]).bank
                || list[i].num != list[j].num,
{
    assert forall|bank: u32, num: u32|
        has_preset(list, bank, num) <==> bank < GRID && num < GRID && #[trigger] defined.contains_key(
            (font, bank, num),
        ) by {
        if has_preset(list, bank, num) {
            let at = choose|at: int| stands_at(list, at, bank, num);
            assert(list[at].bank < GRID);
        }
    }
    assert forall|i: int, j: int| 0 <= i < j < list.len() implies (#[trigger] list[i]).bank != (
    #[trigger] list[j]).bank || list[i].num != list[j].num by {
        assert(position(list[i]) < position(list[j]));
    }
}

/// A font has one listing: two lists that each hold exactly the presets that
/// the font defines, in the order of the grid, are the same list.
pub proof fn law_listing_unique(
    a: Seq<PresetView>,
    b: Seq<PresetView>,
    defined: Map<(u32, u32, u32), Option<Seq<char>>>,
    font: u32,
)
    requires
        lists_bank(a, defined, font),
        lists_bank(b, defined, font),
    ensures
        a == b,
{
    lemma_listing_prefix(a, b, defined, font, a.len() as int);
    lemma_listing_prefix(b, a, defined, font, b.len() as int);
    if a.len() < b.len() {
        let extra = b[a.len() as int];
        assert(defined.contains_key((font, extra.bank, extra.num)));
        let at = choose|at: int| stands_at(a, at, extra.bank, extra.num);
        assert(a[at] == b[at]);
        assert(position(b[at]) < position(b[a.len() as int]));
    }
    if b.len() < a.len() {
        let extra = a[b.len() as int];
        assert(defined.contains_key((font, extra.bank, extra.num)));
        let at = choose|at: int| stands_at(b, at, extra.bank, extra.num);
        assert(a[at] == b[at]);
        assert(position(a[at]) < position(a[b.len() as int]));
    }
    assert(a =~= b);
}

/// Two listings of one font agree on every entry that both have.
proof fn lemma_listing_prefix(
    a: Seq<PresetView>,
    b: Seq<PresetView>,
    defined: Map<(u32, u32, u32), Option<Seq<char>>>,
    font: u32,
    upto: int,
)
    requires
        lists_bank(a, defined, font),
        lists_bank(b, defined, font),
        0 <= upto <= a.len(),
    ensures
        forall|i: int| 0 <= i < upto && i < b.len() ==> a[i] == b[i],
    decreases upto,
{
    if upto > 0 {
        lemma_listing_prefix(a, b, defined, font, upto - 1);
        let i = upto - 1;
        if i < b.len() {
            // Each list holds the other's entry at `i`; neither can hold it
            // before `i`, where the lists agree, nor after it without
            // breaking its own order.
            let x = a[i];
            let y = b[i];
            assert(defined.contains_key((font, x.bank, x.num)));
            assert(defined.contains_key((font, y.bank, y.num)));
            let in_b = choose|at: int| stands_at(b, at, x.bank, x.num);
            let in_a = choose|at: int| stands_at(a, at, y.bank, y.num);
            assert(position(b[in_b]) == position(x));
            assert(position(a[in_a]) == position(y));
            if in_b < i {
                assert(a[in_b] == b[in_b]);
                assert(position(a[in_b]) < position(a[i]));
            }
            if in_a < i {
                assert(a[in_a] == b[in_a]);
                assert(position(b[in_a]) < position(b[i]));
            }
            if in_b > i {
                assert(position(b[i]) < position(b[in_b]));
            }
            if in_a > i {
                assert(position(a[i]) < position(a[in_a]));
            }
            assert(position(x) == position(y));
            assert(x.bank == y.bank && x.num == y.num);
            assert(x.name == y.name);
        }
    }
}

} // verus!
