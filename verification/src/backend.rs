//! The synthesis backend: the `fluidlite` synthesizer, what this library
//! assumes of it, and the calls it makes into it.
//!
//! Nothing in this file is proved. Each function states what the backend's
//! source shows of the call that its body makes. Every synthesizer has at
//! least sixteen channels, so a channel below sixteen is in range.
//!
//! The backend keeps the message of its last warning or error, and the
//! binding reads that message as text whenever a call is refused: it stops
//! the program where the message is none. A call that the backend refuses
//! without a message of its own is therefore made only while the message
//! kept is known to be text: see [`reports_text`]. With that, no call made
//! here unwinds, and each function that changes the synthesizer says so.

use crate::error::BackendFailure;
use fluidlite::{IsFont, IsPreset};
use vstd::prelude::*;

verus! {

#[verifier::external_type_specification]
#[verifier::external_body]
pub struct ExSynth(fluidlite::Synth);

#[verifier::external_type_specification]
#[verifier::external_body]
pub struct ExError(fluidlite::Error);

/// The presets that the SoundFonts loaded in a synthesizer define: a preset
/// is found under its font's id, its bank number and its program number, and
/// carries its display name where it has one.
pub uninterp spec fn loaded_presets(synth: fluidlite::Synth) -> Map<
    (u32, u32, u32),
    Option<Seq<char>>,
>;

/// The font id, bank number and program number assigned to a channel of a
/// synthesizer, or nothing where the synthesizer has no such channel.
pub uninterp spec fn channel_program(synth: fluidlite::Synth, chan: u32) -> Option<(u32, u32, u32)>;

/// The message that the backend keeps, and that a refusal of this
/// synthesizer would report, is valid text. Loading a font can leave a
/// message that is not, since the loader writes names of the file into it
/// as they stand. Every other call leaves the message alone or writes one
/// made of plain words and numbers.
pub uninterp spec fn reports_text(synth: fluidlite::Synth) -> bool;

/// The offset that the synthesizer takes from a bank number before it looks
/// a preset up in the font of this id: 0 unless one was set.
pub uninterp spec fn bank_offset(synth: fluidlite::Synth, font: u32) -> int;

/// The path of the file from which the font of this id was loaded, or
/// nothing where the synthesizer holds no font of this id.
pub uninterp spec fn font_file(synth: fluidlite::Synth, font: u32) -> Option<Seq<char>>;

/// The fonts are after a call what they were before it: the presets that
/// they define, the files that they came from and their bank offsets.
pub open spec fn same_banks(before: fluidlite::Synth, after: fluidlite::Synth) -> bool {
    &&& loaded_presets(after) == loaded_presets(before)
    &&& forall|font: u32| #[trigger] bank_offset(after, font) == bank_offset(before, font)
    &&& forall|font: u32| #[trigger] font_file(after, font) == font_file(before, font)
}

/// Every font but this one came, after a call, from the file that it came
/// from before it, and no bank offset has changed.
pub open spec fn same_files_but(
    before: fluidlite::Synth,
    after: fluidlite::Synth,
    but: Option<u32>,
) -> bool {
    &&& forall|font: u32| #[trigger] bank_offset(after, font) == bank_offset(before, font)
    &&& forall|font: u32|
        but != Some(font) ==> #[trigger] font_file(after, font) == font_file(before, font)
}

/// The view of an optional name.
pub open spec fn name_view(name: Option<String>) -> Option<Seq<char>> {
    match name {
        Some(text) => Some(text@),
        None => None,
    }
}

/// No channel has another program after a call than before it.
pub open spec fn same_programs(before: fluidlite::Synth, after: fluidlite::Synth) -> bool {
    forall|chan: u32| #[trigger] channel_program(after, chan) == channel_program(before, chan)
}

/// No channel but this one has another program after a call than before it.
pub open spec fn same_programs_but(
    before: fluidlite::Synth,
    after: fluidlite::Synth,
    but: u32,
) -> bool {
    forall|chan: u32|
        chan != but ==> #[trigger] channel_program(after, chan) == channel_program(before, chan)
}

/// Under every font id but this one, the synthesizer defines presets after a
/// call exactly where it defined them before.
pub open spec fn same_fonts_but(
    before: fluidlite::Synth,
    after: fluidlite::Synth,
    but: Option<u32>,
) -> bool {
    forall|font: u32, bank: u32, num: u32|
        but != Some(font) ==> #[trigger] loaded_presets(after).contains_key((font, bank, num))
            == loaded_presets(before).contains_key((font, bank, num))
}

/// The synthesizer defines no preset under this font id.
pub open spec fn font_absent(synth: fluidlite::Synth, font: u32) -> bool {
    forall|bank: u32, num: u32| !#[trigger] loaded_presets(synth).contains_key((font, bank, num))
}

/// Turns a `fluidlite::Error` into the library's own value, variant by
/// variant.
#[verifier::external_body]
pub(crate) fn failure_of(error: fluidlite::Error) -> BackendFailure {
    match error {
        fluidlite::Error::Alloc => BackendFailure::Alloc,
        fluidlite::Error::Fluid(text) => BackendFailure::Fluid(text),
        fluidlite::Error::Path => BackendFailure::Path,
    }
}

/// `fluidlite::Synth::sfload`: loads a SoundFont file and returns the id of
/// the new font, which keeps the path that was handed in. Whether the file
/// is accepted depends on the file. What the synthesizer holds under any
/// other font id stays as it is; on a failure, under every id. No bank
/// offset changes. Nothing is claimed of the message that is kept
/// afterwards.
#[verifier::external_body]
pub(crate) fn sfload(synth: &mut fluidlite::Synth, path: &str, reset_presets: bool) -> (r: Result<
    u32,
    fluidlite::Error,
>)
    ensures
        match r {
            Ok(font) => same_fonts_but(*old(synth), *final(synth), Some(font)),
            Err(_) => same_fonts_but(*old(synth), *final(synth), None),
        },
        match r {
            Ok(font) => same_files_but(*old(synth), *final(synth), Some(font)),
            Err(_) => same_files_but(*old(synth), *final(synth), None),
        },
        r matches Ok(font) ==> font_file(*final(synth), font) == Some(path@),
    no_unwind
{
    synth.sfload(path, reset_presets)
}

/// `fluidlite::Synth::sfunload`: removes a font from the synthesizer. The
/// call fails only where there is no font of this id, so either way the
/// synthesizer holds nothing under this id afterwards. What it holds under
/// any other font id stays as it is, and no bank offset changes.
#[verifier::external_body]
pub(crate) fn sfunload(synth: &mut fluidlite::Synth, font: u32, reset_presets: bool) -> (r: Result<
    (),
    fluidlite::Error,
>)
    ensures
        font_absent(*final(synth), font),
        same_fonts_but(*old(synth), *final(synth), Some(font)),
        same_files_but(*old(synth), *final(synth), Some(font)),
        reports_text(*old(synth)) ==> reports_text(*final(synth)),
    no_unwind
{
    synth.sfunload(font, reset_presets)
}

/// `fluidlite::Synth::get_sfont_by_id`, then `IsFont::get_preset` on the
/// font and `IsPreset::get_name` on the preset: a preset is returned exactly
/// where the font with this id defines one under this bank and program
/// number, and with it its name.
#[verifier::external_body]
pub(crate) fn preset_at(synth: &fluidlite::Synth, font: u32, bank: u32, num: u32) -> (r: Option<
    Option<String>,
>)
    ensures
        r is Some == loaded_presets(*synth).contains_key((font, bank, num)),
        r matches Some(name) ==> name_view(name) == loaded_presets(*synth)[(font, bank, num)],
{
    let font = synth.get_sfont_by_id(font)?;
    let preset = font.get_preset(bank, num)?;
    Some(preset.get_name().map(String::from))
}

/// `fluidlite::Synth::get_cc` for a channel number that no synthesizer has,
/// because it is negative as the backend reads it. The backend refuses the
/// call and says why in plain words, which are then the message that it
/// keeps. Nothing else changes.
#[verifier::external_body]
pub(crate) fn get_cc(synth: &mut fluidlite::Synth, chan: u32, ctrl: u32) -> (r: Result<
    u32,
    fluidlite::Error,
>)
    requires
        chan >= 0x8000_0000,
    ensures
        r is Err,
        reports_text(*final(synth)),
        same_banks(*old(synth), *final(synth)),
        same_programs(*old(synth), *final(synth)),
    no_unwind
{
    synth.get_cc(chan, ctrl)
}

/// `fluidlite::Synth::set_bank_offset`. The backend refuses the call only
/// where it cannot allocate, and then without a message of its own, so the
/// message kept has to be text. Where it accepts, the font has the offset.
/// Nothing else changes: not the presets, the files or the other offsets,
/// nor the programs of the channels.
#[verifier::external_body]
pub(crate) fn set_bank_offset(synth: &mut fluidlite::Synth, font: u32, offset: u32) -> (r: Result<
    (),
    fluidlite::Error,
>)
    requires
        offset < 0x8000_0000,
        reports_text(*old(synth)),
    ensures
        r is Ok ==> bank_offset(*final(synth), font) == offset,
        forall|other: u32|
            other != font ==> #[trigger] bank_offset(*final(synth), other) == bank_offset(
                *old(synth),
                other,
            ),
        forall|any: u32| #[trigger] font_file(*final(synth), any) == font_file(*old(synth), any),
        loaded_presets(*final(synth)) == loaded_presets(*old(synth)),
        same_programs(*old(synth), *final(synth)),
        reports_text(*final(synth)),
    no_unwind
{
    synth.set_bank_offset(font, offset)
}

/// `fluidlite::Synth::note_on`. The backend may refuse the call without a
/// message of its own, so the message kept has to be text. No channel gets
/// another program. The fonts stay as
/// they are.
#[verifier::external_body]
pub(crate) fn note_on(synth: &mut fluidlite::Synth, chan: u32, key: u32, vel: u32) -> (r: Result<
    (),
    fluidlite::Error,
>)
    requires
        chan < 16,
        key < 128,
        vel < 128,
        reports_text(*old(synth)),
    ensures
        same_programs(*old(synth), *final(synth)),
        same_banks(*old(synth), *final(synth)),
        reports_text(*final(synth)),
    no_unwind
{
    synth.note_on(chan, key, vel)
}

/// `fluidlite::Synth::note_off`. The backend refuses the call without a
/// message of its own where no note of this key sounds, so the message kept
/// has to be text. No channel gets another program. The fonts stay as they are.
#[verifier::external_body]
pub(crate) fn note_off(synth: &mut fluidlite::Synth, chan: u32, key: u32) -> (r: Result<
    (),
    fluidlite::Error,
>)
    requires
        chan < 16,
        key < 128,
        reports_text(*old(synth)),
    ensures
        same_programs(*old(synth), *final(synth)),
        same_banks(*old(synth), *final(synth)),
        reports_text(*final(synth)),
    no_unwind
{
    synth.note_off(chan, key)
}

/// `fluidlite::Synth::key_pressure`. The backend refuses the call only for a
/// key or value outside its range, so here it accepts it. The fonts stay as
/// they are.
#[verifier::external_body]
pub(crate) fn key_pressure(synth: &mut fluidlite::Synth, chan: u32, key: u32, val: u32) -> (r:
    Result<(), fluidlite::Error>)
    requires
        chan < 16,
        key < 128,
        val < 128,
    ensures
        r is Ok,
        same_programs(*old(synth), *final(synth)),
        same_banks(*old(synth), *final(synth)),
        reports_text(*old(synth)) ==> reports_text(*final(synth)),
    no_unwind
{
    synth.key_pressure(chan, key, val)
}

/// `fluidlite::Synth::cc`. The backend refuses the call only for a channel,
/// controller or value outside its range, so here it accepts it. Controller
/// 0 selects the bank of the channel, on every channel but the tenth, which
/// may be kept for drums. The fonts stay as they are.
#[verifier::external_body]
pub(crate) fn control_change(synth: &mut fluidlite::Synth, chan: u32, ctrl: u32, val: u32) -> (r:
    Result<(), fluidlite::Error>)
    requires
        chan < 16,
        ctrl < 128,
        val < 128,
    ensures
        r is Ok,
        ctrl == 0 && chan != 9 ==> channel_program(*final(synth), chan) is Some,
        ctrl == 0 && chan != 9 ==> channel_program(*final(synth), chan)->Some_0.1 == val,
        same_programs_but(*old(synth), *final(synth), chan),
        ctrl != 0 && ctrl != 32 ==> same_programs(*old(synth), *final(synth)),
        same_banks(*old(synth), *final(synth)),
        reports_text(*old(synth)) ==> reports_text(*final(synth)),
    no_unwind
{
    synth.cc(chan, ctrl, val)
}

/// `fluidlite::Synth::program_change`. The backend refuses the call only for
/// a channel or program outside its range, so here it accepts it, and the
/// channel has the program number afterwards, whether or not a font defines
/// the program. The fonts stay as they are.
#[verifier::external_body]
pub(crate) fn program_change(synth: &mut fluidlite::Synth, chan: u32, prog: u32) -> (r: Result<
    (),
    fluidlite::Error,
>)
    requires
        chan < 16,
        prog < 128,
    ensures
        r is Ok,
        channel_program(*final(synth), chan) is Some,
        channel_program(*final(synth), chan)->Some_0.2 == prog,
        channel_program(*final(synth), chan)->Some_0.1 == channel_program(
            *old(synth),
            chan,
        )->Some_0.1,
        same_programs_but(*old(synth), *final(synth), chan),
        same_banks(*old(synth), *final(synth)),
        reports_text(*old(synth)) ==> reports_text(*final(synth)),
    no_unwind
{
    synth.program_change(chan, prog)
}

/// `fluidlite::Synth::channel_pressure`. The backend refuses the call only
/// for a channel outside its range, so here it accepts it. The fonts stay as
/// they are.
#[verifier::external_body]
pub(crate) fn channel_pressure(synth: &mut fluidlite::Synth, chan: u32, val: u32) -> (r: Result<
    (),
    fluidlite::Error,
>)
    requires
        chan < 16,
        val < 128,
    ensures
        r is Ok,
        same_programs(*old(synth), *final(synth)),
        same_banks(*old(synth), *final(synth)),
        reports_text(*old(synth)) ==> reports_text(*final(synth)),
    no_unwind
{
    synth.channel_pressure(chan, val)
}

/// `fluidlite::Synth::pitch_bend`. The backend refuses the call only for a
/// channel outside its range, so here it accepts it. The fonts stay as they
/// are.
#[verifier::external_body]
pub(crate) fn pitch_bend(synth: &mut fluidlite::Synth, chan: u32, val: u32) -> (r: Result<
    (),
    fluidlite::Error,
>)
    requires
        chan < 16,
        val < 16384,
    ensures
        r is Ok,
        same_programs(*old(synth), *final(synth)),
        same_banks(*old(synth), *final(synth)),
        reports_text(*old(synth)) ==> reports_text(*final(synth)),
    no_unwind
{
    synth.pitch_bend(chan, val)
}

/// `fluidlite::Synth::system_reset`. The backend never refuses the call.
/// Every channel is back at font 0, bank 0 and program 0 afterwards. The
/// loaded fonts stay as they are.
#[verifier::external_body]
pub(crate) fn system_reset(synth: &mut fluidlite::Synth) -> (r: Result<(), fluidlite::Error>)
    ensures
        r is Ok,
        forall|chan: u32|
            chan < 16 ==> #[trigger] channel_program(*final(synth), chan) == Some(
                (0u32, 0u32, 0u32),
            ),
        same_banks(*old(synth), *final(synth)),
        reports_text(*old(synth)) ==> reports_text(*final(synth)),
    no_unwind
{
    synth.system_reset()
}

/// `fluidlite::Synth::program_select`. The backend accepts the call for a
/// channel in range and a preset that the font defines, where the font has
/// no bank offset, and then the channel is assigned the font, bank and
/// program that were handed in. No other
/// channel changes, and on a refusal none does. The loaded fonts stay as
/// they are either way.
#[verifier::external_body]
pub(crate) fn program_select(
    synth: &mut fluidlite::Synth,
    chan: u32,
    font: u32,
    bank: u32,
    num: u32,
) -> (r: Result<(), fluidlite::Error>)
    ensures
        chan < 16 && bank_offset(*old(synth), font) == 0 && loaded_presets(
            *old(synth),
        ).contains_key((font, bank, num)) ==> r is Ok,
        r is Ok ==> channel_program(*final(synth), chan) == Some((font, bank, num)),
        r is Ok ==> same_programs_but(*old(synth), *final(synth), chan),
        r is Err ==> same_programs(*old(synth), *final(synth)),
        same_banks(*old(synth), *final(synth)),
        reports_text(*old(synth)) ==> reports_text(*final(synth)),
    no_unwind
{
    synth.program_select(chan, font, bank, num)
}

/// `fluidlite::Synth::get_program`: the font id, bank number and program
/// number assigned to the channel. The backend refuses the call only for a
/// channel outside its range, so here it accepts it.
#[verifier::external_body]
pub(crate) fn get_program(synth: &fluidlite::Synth, chan: u32) -> (r: Result<
    (u32, u32, u32),
    fluidlite::Error,
>)
    requires
        chan < 16,
    ensures
        r is Ok,
        r matches Ok(assigned) ==> channel_program(*synth, chan) == Some(assigned),
{
    synth.get_program(chan)
}

} // verus!
