use fluidlite::IsFont;
use pianote::error::{BackendFailure, BankLoadError, EventApplyError, PresetError};
use pianote::synth::{applied, route, BackendCall, DEFAULT_GAIN_BITS};
use pianote::{Command, Engine, Gain, MusicalEvent, Outcome, Preset, PresetData};
use std::io::SeekFrom;
use std::path::Path;

fn chunk(tag: &[u8; 4], data: &[u8]) -> Vec<u8> {
    let mut out = tag.to_vec();
    out.extend_from_slice(&(data.len() as u32).to_le_bytes());
    out.extend_from_slice(data);
    if data.len() % 2 == 1 {
        out.push(0);
    }
    out
}

fn list(kind: &[u8; 4], chunks: &[Vec<u8>]) -> Vec<u8> {
    let mut data = kind.to_vec();
    for part in chunks {
        data.extend_from_slice(part);
    }
    chunk(b"LIST", &data)
}

fn name20(name: &str) -> Vec<u8> {
    let mut out = name.as_bytes().to_vec();
    out.resize(20, 0);
    out
}

fn pair(a: u16, b: u16) -> Vec<u8> {
    let mut out = a.to_le_bytes().to_vec();
    out.extend_from_slice(&b.to_le_bytes());
    out
}

fn preset_header(name: &str, program: u16, bank: u16, bag: u16) -> Vec<u8> {
    let mut out = name20(name);
    out.extend_from_slice(&program.to_le_bytes());
    out.extend_from_slice(&bank.to_le_bytes());
    out.extend_from_slice(&bag.to_le_bytes());
    out.extend_from_slice(&[0; 12]);
    out
}

fn sample_header(name: &str, end: u32, loop_start: u32, loop_end: u32, rate: u32, kind: u16) -> Vec<u8> {
    let mut out = name20(name);
    for value in [0, end, loop_start, loop_end, rate] {
        out.extend_from_slice(&value.to_le_bytes());
    }
    out.extend_from_slice(&[if kind == 0 { 0 } else { 60 }, 0]);
    out.extend_from_slice(&0u16.to_le_bytes());
    out.extend_from_slice(&kind.to_le_bytes());
    out
}

/// The bytes of a small sound bank: every preset plays one looped sine tone.
fn sound_bank(title: &str, presets: &[(u16, u16, &str)]) -> Vec<u8> {
    sound_bank_with(title, presets, None)
}

/// A sound bank that may hold, beside its tone, a sample that the backend
/// cannot use and warns of by its name, which need not be text.
fn sound_bank_with(title: &str, presets: &[(u16, u16, &str)], unusable: Option<&[u8]>) -> Vec<u8> {
    let mut samples = Vec::new();
    for i in 0..256 {
        let value = (12000.0 * (2.0 * std::f64::consts::PI * i as f64 / 64.0).sin()) as i16;
        samples.extend_from_slice(&value.to_le_bytes());
    }
    samples.extend_from_slice(&[0; 92]);
    let mut title_bytes = title.as_bytes().to_vec();
    title_bytes.push(0);
    let info = list(
        b"INFO",
        &[chunk(b"ifil", &pair(2, 1)), chunk(b"isng", b"EMU8000\0"), chunk(b"INAM", &title_bytes)],
    );
    let sdta = list(b"sdta", &[chunk(b"smpl", &samples)]);
    let mut phdr = Vec::new();
    let mut pbag = Vec::new();
    let mut pgen = Vec::new();
    for (i, (bank, program, name)) in presets.iter().enumerate() {
        phdr.extend(preset_header(name, *program, *bank, i as u16));
        pbag.extend(pair(i as u16, 0));
        pgen.extend(pair(41, 0));
    }
    phdr.extend(preset_header("EOP", 0, 0, presets.len() as u16));
    pbag.extend(pair(presets.len() as u16, 0));
    pgen.extend(pair(0, 0));
    let mut inst = name20("Tone");
    inst.extend_from_slice(&0u16.to_le_bytes());
    inst.extend(name20("EOI"));
    inst.extend_from_slice(&1u16.to_le_bytes());
    let mut ibag = pair(0, 0);
    ibag.extend(pair(2, 0));
    let mut igen = pair(54, 1);
    igen.extend(pair(53, 0));
    igen.extend(pair(0, 0));
    let mut shdr = sample_header("Sine", 256, 64, 192, 44100, 1);
    if let Some(name) = unusable {
        let mut rom = sample_header("", 256, 64, 192, 44100, 0x8001);
        rom[..name.len()].copy_from_slice(name);
        shdr.extend(rom);
    }
    shdr.extend(sample_header("EOS", 0, 0, 0, 0, 0));
    let pdta = list(
        b"pdta",
        &[
            chunk(b"phdr", &phdr),
            chunk(b"pbag", &pbag),
            chunk(b"pmod", &[0; 10]),
            chunk(b"pgen", &pgen),
            chunk(b"inst", &inst),
            chunk(b"ibag", &ibag),
            chunk(b"imod", &[0; 10]),
            chunk(b"igen", &igen),
            chunk(b"shdr", &shdr),
        ],
    );
    let mut body = b"sfbk".to_vec();
    body.extend(info);
    body.extend(sdta);
    body.extend(pdta);
    chunk(b"RIFF", &body)
}

/// Files that are held in memory, for the backend to load sound banks from.
struct MemoryFiles {
    files: Vec<(String, Vec<u8>)>,
}

struct OpenFile {
    data: Vec<u8>,
    at: usize,
}

impl fluidlite::FileApi for MemoryFiles {
    type File = OpenFile;

    fn open(&mut self, filename: &Path) -> Option<OpenFile> {
        let wanted = filename.to_str()?;
        let found = self.files.iter().find(|(name, _)| name == wanted)?;
        Some(OpenFile { data: found.1.clone(), at: 0 })
    }

    fn read(file: &mut OpenFile, buf: &mut [u8]) -> bool {
        let end = file.at + buf.len();
        if end > file.data.len() {
            return false;
        }
        buf.copy_from_slice(&file.data[file.at..end]);
        file.at = end;
        true
    }

    fn seek(file: &mut OpenFile, pos: SeekFrom) -> bool {
        let target = match pos {
            SeekFrom::Start(offset) => offset as i64,
            SeekFrom::End(offset) => file.data.len() as i64 + offset,
            SeekFrom::Current(offset) => file.at as i64 + offset,
        };
        if target < 0 || target > file.data.len() as i64 {
            return false;
        }
        file.at = target as usize;
        true
    }

    fn tell(file: &mut OpenFile) -> Option<u64> {
        Some(file.at as u64)
    }
}

const FIRST: [(u16, u16, &str); 3] = [(0, 0, "Sine"), (0, 5, "Second"), (3, 127, "Far")];
const OTHER: [(u16, u16, &str); 2] = [(0, 1, "Again"), (1, 7, "Seven")];

/// An engine whose backend finds `test.sf2`, `other.sf2`, the damaged
/// `broken.sf2` and `unnamed.sf2`, whose loading leaves a warning that is
/// not text, and no other file.
fn engine() -> Engine {
    let backend = fluidlite::Synth::new(fluidlite::Settings::new().unwrap()).unwrap();
    let loader = fluidlite::Loader::new_default().unwrap();
    let mut broken = sound_bank("Broken", &FIRST);
    broken.truncate(100);
    loader.set_file_api(MemoryFiles {
        files: vec![
            ("test.sf2".to_string(), sound_bank("First", &FIRST)),
            ("other.sf2".to_string(), sound_bank("Other", &OTHER)),
            ("broken.sf2".to_string(), broken),
            (
                "unnamed.sf2".to_string(),
                sound_bank_with("Unnamed", &FIRST, Some(&[0xFF, 0xFE, b'X'])),
            ),
        ],
    });
    backend.add_sfloader(loader);
    Engine::new(backend)
}

fn entries(presets: &[PresetData]) -> Vec<(u32, u32, Option<String>)> {
    presets.iter().map(|p| (p.bank, p.num, p.name.clone())).collect()
}

fn expected(presets: &[(u16, u16, &str)]) -> Vec<(u32, u32, Option<String>)> {
    presets.iter().map(|(b, p, n)| (*b as u32, *p as u32, Some(n.to_string()))).collect()
}

fn render(engine: &Engine, frames: usize) -> Vec<f32> {
    let mut block = vec![0.0f32; frames * 2];
    engine.backend().set_gain(f32::from_bits(engine.gain().bits));
    engine.backend().write(&mut block[..]).unwrap();
    block
}

fn rms(block: &[f32]) -> f64 {
    let sum: f64 = block.iter().map(|s| (*s as f64) * (*s as f64)).sum();
    (sum / block.len() as f64).sqrt()
}

fn note_on(key: u8) -> MusicalEvent {
    MusicalEvent::NoteOn { channel: 0, key, velocity: 127 }
}

fn note_off(key: u8) -> MusicalEvent {
    MusicalEvent::NoteOff { channel: 0, key, velocity: 0 }
}

#[test]
fn new_engine_has_no_bank() {
    let engine = engine();
    assert!(!engine.has_bank());
    assert!(engine.presets_data().is_empty());
    assert!(engine.presets().is_empty());
    assert_eq!(engine.gain(), Gain { bits: DEFAULT_GAIN_BITS });
    assert_eq!(f32::from_bits(engine.gain().bits), 1.5);
    assert_eq!(Gain::default(), Gain { bits: 0x3FC0_0000 });
}

#[test]
fn loading_lists_the_presets_of_the_bank() {
    let mut engine = engine();
    assert_eq!(engine.load_sfont("test.sf2"), Ok(()));
    assert!(engine.has_bank());
    assert_eq!(entries(engine.presets_data()), expected(&FIRST));
    assert_eq!(entries(&engine.presets()), expected(&FIRST));
    assert!(engine.defines(0, 0));
    assert!(engine.defines(0, 5));
    assert!(engine.defines(3, 127));
    assert!(!engine.defines(0, 1));
    assert!(!engine.defines(127, 3));
}

#[test]
fn loading_another_bank_replaces_the_presets() {
    let mut engine = engine();
    assert_eq!(engine.load_sfont("test.sf2"), Ok(()));
    assert_eq!(engine.load_sfont("other.sf2"), Ok(()));
    assert!(engine.has_bank());
    assert_eq!(entries(engine.presets_data()), expected(&OTHER));
    assert_eq!(entries(&engine.presets()), expected(&OTHER));
    assert!(!engine.defines(0, 0));
    assert_eq!(engine.select_preset(0, 0, 0), Err(PresetError::UnknownPreset));
    assert_eq!(engine.select_preset(0, 1, 7), Ok(()));
}

#[test]
fn loading_a_missing_file_fails() {
    let mut engine = engine();
    let result = engine.load_sfont("missing.sf2");
    match result {
        Err(BankLoadError { path, cause: BackendFailure::Fluid(_) }) => {
            assert_eq!(path, "missing.sf2")
        },
        other => panic!("{:?}", other),
    }
    assert!(!engine.has_bank());
    assert!(engine.presets_data().is_empty());
}

#[test]
fn loading_a_damaged_file_fails() {
    let mut engine = engine();
    assert!(matches!(engine.load_sfont("broken.sf2"), Err(BankLoadError { .. })));
    assert!(!engine.has_bank());
    assert!(engine.presets_data().is_empty());
}

#[test]
fn failed_load_leaves_no_bank() {
    let mut engine = engine();
    assert_eq!(engine.load_sfont("test.sf2"), Ok(()));
    let result = engine.load_sfont("missing.sf2");
    assert_eq!(result.unwrap_err().path, "missing.sf2");
    assert!(!engine.has_bank());
    assert!(engine.presets_data().is_empty());
    assert!(engine.presets().is_empty());
    assert_eq!(engine.select_preset(0, 0, 0), Err(PresetError::NoActiveBank));
    assert_eq!(engine.load_sfont("other.sf2"), Ok(()));
    assert_eq!(entries(engine.presets_data()), expected(&OTHER));
}

#[test]
fn path_with_a_nul_is_refused() {
    let mut engine = engine();
    assert_eq!(
        engine.load_sfont("te\0st.sf2"),
        Err(BankLoadError { path: "te\0st.sf2".to_string(), cause: BackendFailure::Path })
    );
    assert!(!engine.has_bank());
}

#[test]
fn install_follows_the_answer_of_the_backend() {
    let mut engine = engine();
    assert_eq!(
        engine.install("a.sf2", Err(BackendFailure::Alloc)),
        Err(BankLoadError { path: "a.sf2".to_string(), cause: BackendFailure::Alloc })
    );
    assert!(!engine.has_bank());
    // A font id under which the backend holds nothing lists no preset.
    assert_eq!(engine.install("a.sf2", Ok(77)), Ok(()));
    assert!(engine.has_bank());
    assert!(engine.presets_data().is_empty());
}

#[test]
fn selecting_without_a_bank_fails() {
    let mut engine = engine();
    assert_eq!(engine.select_preset(0, 0, 0), Err(PresetError::NoActiveBank));
}

#[test]
fn selecting_an_unknown_preset_changes_nothing() {
    let mut engine = engine();
    assert_eq!(engine.load_sfont("test.sf2"), Ok(()));
    assert_eq!(engine.select_preset(0, 0, 5), Ok(()));
    let before = engine.active_preset(0);
    assert_eq!(before, Ok(Preset { bank: 0, num: 5 }));
    assert_eq!(engine.select_preset(0, 0, 1), Err(PresetError::UnknownPreset));
    assert_eq!(engine.select_preset(0, 5, 0), Err(PresetError::UnknownPreset));
    assert_eq!(engine.select_preset(0, 128, 0), Err(PresetError::UnknownPreset));
    assert_eq!(engine.active_preset(0), before);
    assert_eq!(entries(engine.presets_data()), expected(&FIRST));
}

#[test]
fn selecting_a_preset_assigns_it_to_the_channel() {
    let mut engine = engine();
    assert_eq!(engine.load_sfont("test.sf2"), Ok(()));
    assert_eq!(engine.select_preset(0, 3, 127), Ok(()));
    assert_eq!(engine.active_preset(0), Ok(Preset { bank: 3, num: 127 }));
    assert_eq!(engine.select_preset(4, 0, 5), Ok(()));
    assert_eq!(engine.active_preset(4), Ok(Preset { bank: 0, num: 5 }));
    assert_eq!(engine.active_preset(0), Ok(Preset { bank: 3, num: 127 }));
}

#[test]
fn selecting_on_a_missing_channel_is_the_backends_to_refuse() {
    let mut engine = engine();
    assert_eq!(engine.load_sfont("test.sf2"), Ok(()));
    assert!(matches!(engine.select_preset(200, 0, 0), Err(PresetError::Backend(_))));
    assert_eq!(engine.active_preset(200), Err(PresetError::UnknownChannel));
    assert_eq!(engine.active_preset(16), Err(PresetError::UnknownChannel));
    assert!(engine.active_preset(15).is_ok());
}

#[test]
fn a_listed_preset_is_accepted_on_every_channel() {
    let mut engine = engine();
    assert_eq!(engine.load_sfont("test.sf2"), Ok(()));
    for channel in 0..16u8 {
        for (bank, program, _) in FIRST {
            assert_eq!(engine.select_preset(channel, bank as u32, program as u32), Ok(()));
            assert_eq!(
                engine.active_preset(channel),
                Ok(Preset { bank: bank as u32, num: program as u32 })
            );
        }
    }
}

#[test]
fn a_bank_offset_set_beforehand_does_not_hide_the_presets() {
    // The first font of a backend gets the id 1. An offset set for that id
    // before the engine takes the backend over would make the backend look
    // for bank 0 under another number.
    let backend = fluidlite::Synth::new(fluidlite::Settings::new().unwrap()).unwrap();
    let loader = fluidlite::Loader::new_default().unwrap();
    loader.set_file_api(MemoryFiles {
        files: vec![("test.sf2".to_string(), sound_bank("First", &FIRST))],
    });
    backend.add_sfloader(loader);
    backend.set_bank_offset(1, 1).unwrap();
    backend.set_bank_offset(2, 5).unwrap();
    let mut engine = Engine::new(backend);
    assert_eq!(engine.load_sfont("test.sf2"), Ok(()));
    assert_eq!(engine.backend().get_sfont(0).map(|font| font.get_id()), Some(1));
    assert_eq!(engine.backend().get_bank_offset(1), Ok(0));
    assert_eq!(engine.select_preset(0, 0, 0), Ok(()));
    assert_eq!(engine.active_preset(0), Ok(Preset { bank: 0, num: 0 }));
    assert_eq!(engine.load_sfont("test.sf2"), Ok(()));
    assert_eq!(engine.backend().get_sfont(0).map(|font| font.get_id()), Some(2));
    assert_eq!(engine.select_preset(3, 3, 127), Ok(()));
    assert_eq!(engine.active_preset(3), Ok(Preset { bank: 3, num: 127 }));
}

#[test]
fn the_active_font_is_the_one_of_the_file() {
    let mut engine = engine();
    assert_eq!(engine.load_sfont("test.sf2"), Ok(()));
    let name = engine.backend().get_sfont(0).and_then(|font| font.get_name().map(String::from));
    assert_eq!(name.as_deref(), Some("test.sf2"));
    assert_eq!(engine.load_sfont("other.sf2"), Ok(()));
    assert_eq!(engine.backend().sfcount(), 1);
    let name = engine.backend().get_sfont(0).and_then(|font| font.get_name().map(String::from));
    assert_eq!(name.as_deref(), Some("other.sf2"));
    assert_eq!(entries(engine.presets_data()), expected(&OTHER));
}

#[test]
fn notes_and_pressure_leave_the_programs_alone() {
    let mut engine = engine();
    assert_eq!(engine.load_sfont("test.sf2"), Ok(()));
    assert_eq!(engine.select_preset(0, 3, 127), Ok(()));
    assert_eq!(engine.select_preset(5, 0, 5), Ok(()));
    let before: Vec<_> = (0..16u8).map(|channel| engine.active_preset(channel)).collect();
    for event in [
        note_on(60),
        MusicalEvent::PolyphonicPressure { channel: 0, key: 60, value: 9 },
        MusicalEvent::ChannelPressure { channel: 5, value: 9 },
        MusicalEvent::PitchBend { channel: 5, value: 100 },
        MusicalEvent::ControlChange { channel: 5, controller: 7, value: 100 },
        MusicalEvent::ControlChange { channel: 5, controller: 121, value: 0 },
        note_off(60),
        note_off(61),
        MusicalEvent::NoteOn { channel: 7, key: 1, velocity: 0 },
    ] {
        let _ = engine.send_midi_message(event);
        for channel in 0..16u8 {
            assert_eq!(engine.active_preset(channel), before[channel as usize], "{:?}", event);
        }
    }
    engine.set_gain(Gain { bits: 0.5f32.to_bits() });
    for channel in 0..16u8 {
        assert_eq!(engine.active_preset(channel), before[channel as usize]);
    }
}

#[test]
fn a_program_change_keeps_the_bank_and_the_other_channels() {
    let mut engine = engine();
    assert_eq!(engine.load_sfont("test.sf2"), Ok(()));
    assert_eq!(engine.select_preset(2, 3, 127), Ok(()));
    let before: Vec<_> = (0..16u8).map(|channel| engine.active_preset(channel)).collect();
    assert_eq!(
        engine.send_midi_message(MusicalEvent::ProgramChange { channel: 2, program: 9 }),
        Ok(())
    );
    assert_eq!(engine.active_preset(2), Ok(Preset { bank: 3, num: 9 }));
    assert_eq!(
        engine.send_midi_message(MusicalEvent::ControlChange { channel: 4, controller: 0, value: 7 }),
        Ok(())
    );
    for channel in (0..16u8).filter(|channel| *channel != 2 && *channel != 4) {
        assert_eq!(engine.active_preset(channel), before[channel as usize]);
    }
}

#[test]
fn selecting_leaves_the_other_channels_alone() {
    let mut engine = engine();
    assert_eq!(engine.load_sfont("test.sf2"), Ok(()));
    assert_eq!(engine.select_preset(1, 0, 5), Ok(()));
    let before: Vec<_> = (0..16u8).map(|channel| engine.active_preset(channel)).collect();
    assert_eq!(engine.select_preset(0, 3, 127), Ok(()));
    for channel in 1..16u8 {
        assert_eq!(engine.active_preset(channel), before[channel as usize]);
    }
    assert_eq!(engine.active_preset(0), Ok(Preset { bank: 3, num: 127 }));
    // A refusal by the backend changes no channel either.
    let before: Vec<_> = (0..16u8).map(|channel| engine.active_preset(channel)).collect();
    assert!(matches!(engine.select_preset(99, 0, 0), Err(PresetError::Backend(_))));
    for channel in 0..16u8 {
        assert_eq!(engine.active_preset(channel), before[channel as usize]);
    }
}

#[test]
fn reset_puts_every_channel_back() {
    let mut engine = engine();
    assert_eq!(engine.load_sfont("test.sf2"), Ok(()));
    assert_eq!(engine.select_preset(0, 3, 127), Ok(()));
    assert_eq!(engine.select_preset(9, 0, 5), Ok(()));
    assert_eq!(engine.send_midi_message(MusicalEvent::Reset), Ok(()));
    for channel in 0..16u8 {
        assert_eq!(engine.active_preset(channel), Ok(Preset { bank: 0, num: 0 }));
    }
}

#[test]
fn bank_select_gives_the_channel_its_bank() {
    let mut engine = engine();
    for channel in [0u8, 8, 10, 15] {
        for value in [0u8, 3, 127] {
            assert_eq!(
                engine.send_midi_message(MusicalEvent::ControlChange {
                    channel,
                    controller: 0,
                    value
                }),
                Ok(())
            );
            assert_eq!(engine.active_preset(channel).unwrap().bank, value as u32);
        }
    }
}

#[test]
fn a_refused_note_reports_text_after_a_warning_that_is_none() {
    // Loading this bank leaves, in the backend, a warning that quotes a name
    // which is not text. A note that cannot end is refused without a
    // message of its own, and so is a note on a channel without a preset.
    let mut engine = engine();
    assert_eq!(engine.load_sfont("unnamed.sf2"), Ok(()));
    assert_eq!(entries(engine.presets_data()), expected(&FIRST));
    assert!(matches!(
        engine.send_midi_message(note_off(60)),
        Err(EventApplyError::Backend(BackendFailure::Fluid(_)))
    ));
    assert_eq!(engine.select_preset(0, 0, 0), Ok(()));
    assert_eq!(engine.send_midi_message(note_on(60)), Ok(()));
    assert_eq!(engine.send_midi_message(note_off(60)), Ok(()));
    assert!(matches!(
        engine.send_midi_message(note_off(61)),
        Err(EventApplyError::Backend(BackendFailure::Fluid(_)))
    ));
    assert_eq!(engine.load_sfont("unnamed.sf2"), Ok(()));
    assert_eq!(engine.send_midi_message(MusicalEvent::Reset), Ok(()));
    assert!(matches!(
        engine.send_midi_message(MusicalEvent::NoteOff { channel: 5, key: 1, velocity: 0 }),
        Err(EventApplyError::Backend(_))
    ));
    assert!(engine.active_preset(0).is_ok());
}

#[test]
fn the_bank_that_was_active_leaves_the_backend() {
    let mut engine = engine();
    assert_eq!(engine.load_sfont("test.sf2"), Ok(()));
    let first = engine.backend().get_sfont(0).map(|font| font.get_id()).unwrap();
    assert_eq!(engine.backend().sfcount(), 1);
    assert_eq!(engine.load_sfont("other.sf2"), Ok(()));
    assert_eq!(engine.backend().sfcount(), 1);
    assert!(engine.backend().get_sfont_by_id(first).is_none());
    assert!(matches!(engine.load_sfont("missing.sf2"), Err(_)));
    assert_eq!(engine.backend().sfcount(), 0);
}

#[test]
fn routes_events_to_backend_calls() {
    assert_eq!(route(note_on(60)), BackendCall::NoteOn { chan: 0, key: 60, vel: 127 });
    assert_eq!(
        route(MusicalEvent::NoteOff { channel: 2, key: 61, velocity: 99 }),
        BackendCall::NoteOff { chan: 2, key: 61 }
    );
    assert_eq!(
        route(MusicalEvent::PolyphonicPressure { channel: 1, key: 2, value: 3 }),
        BackendCall::KeyPressure { chan: 1, key: 2, val: 3 }
    );
    assert_eq!(
        route(MusicalEvent::ControlChange { channel: 1, controller: 7, value: 100 }),
        BackendCall::ControlChange { chan: 1, ctrl: 7, val: 100 }
    );
    assert_eq!(
        route(MusicalEvent::ProgramChange { channel: 9, program: 12 }),
        BackendCall::ProgramChange { chan: 9, prog: 12 }
    );
    assert_eq!(
        route(MusicalEvent::ChannelPressure { channel: 15, value: 1 }),
        BackendCall::ChannelPressure { chan: 15, val: 1 }
    );
    assert_eq!(
        route(MusicalEvent::PitchBend { channel: 0, value: 16383 }),
        BackendCall::PitchBend { chan: 0, val: 16383 }
    );
    assert_eq!(route(MusicalEvent::Reset), BackendCall::SystemReset);
    assert_eq!(route(MusicalEvent::Other { status: 0xF8 }), BackendCall::Nothing);
}

#[test]
fn backend_answers_become_results() {
    assert_eq!(applied(Ok(())), Ok(()));
    assert_eq!(
        applied(Err(BackendFailure::Fluid("no".to_string()))),
        Err(EventApplyError::Backend(BackendFailure::Fluid("no".to_string())))
    );
}

#[test]
fn invalid_events_are_refused() {
    let mut engine = engine();
    assert_eq!(engine.load_sfont("test.sf2"), Ok(()));
    for event in [
        MusicalEvent::NoteOn { channel: 16, key: 60, velocity: 127 },
        MusicalEvent::NoteOn { channel: 0, key: 128, velocity: 127 },
        MusicalEvent::NoteOff { channel: 0, key: 60, velocity: 128 },
        MusicalEvent::PolyphonicPressure { channel: 255, key: 60, value: 1 },
        MusicalEvent::ControlChange { channel: 0, controller: 200, value: 1 },
        MusicalEvent::ProgramChange { channel: 0, program: 128 },
        MusicalEvent::ChannelPressure { channel: 0, value: 128 },
        MusicalEvent::PitchBend { channel: 0, value: 16384 },
    ] {
        assert_eq!(engine.send_midi_message(event), Err(EventApplyError::InvalidParameter));
    }
    assert!(rms(&render(&engine, 4410)) < 1e-4);
}

#[test]
fn unknown_events_are_passed_over() {
    let mut engine = engine();
    assert_eq!(engine.send_midi_message(MusicalEvent::Other { status: 0xF8 }), Ok(()));
    assert_eq!(engine.send_midi_message(MusicalEvent::Other { status: 0xFE }), Ok(()));
}

#[test]
fn valid_events_reach_the_backend() {
    let mut engine = engine();
    assert_eq!(engine.load_sfont("test.sf2"), Ok(()));
    assert_eq!(engine.select_preset(0, 0, 0), Ok(()));
    assert_eq!(engine.send_midi_message(note_on(60)), Ok(()));
    assert_eq!(
        engine.send_midi_message(MusicalEvent::PolyphonicPressure { channel: 0, key: 60, value: 5 }),
        Ok(())
    );
    assert_eq!(
        engine.send_midi_message(MusicalEvent::ControlChange { channel: 0, controller: 7, value: 90 }),
        Ok(())
    );
    assert_eq!(
        engine.send_midi_message(MusicalEvent::ChannelPressure { channel: 0, value: 5 }),
        Ok(())
    );
    assert_eq!(engine.send_midi_message(MusicalEvent::PitchBend { channel: 0, value: 8192 }), Ok(()));
    assert_eq!(engine.send_midi_message(note_off(60)), Ok(()));
    assert_eq!(engine.send_midi_message(MusicalEvent::Reset), Ok(()));
    assert_eq!(entries(engine.presets_data()), expected(&FIRST));
}

#[test]
fn the_backend_never_refuses_controls_and_resets() {
    // With no bank, with a bank, and at the ends of every range.
    let mut bare = engine();
    let mut loaded = engine();
    assert_eq!(loaded.load_sfont("test.sf2"), Ok(()));
    for engine in [&mut bare, &mut loaded] {
        for channel in [0u8, 9, 15] {
            for value in [0u8, 64, 127] {
                for event in [
                    MusicalEvent::ControlChange { channel, controller: value, value },
                    MusicalEvent::ControlChange { channel, controller: 127 - value, value },
                    MusicalEvent::ProgramChange { channel, program: value },
                    MusicalEvent::PolyphonicPressure { channel, key: value, value },
                    MusicalEvent::ChannelPressure { channel, value },
                    MusicalEvent::PitchBend { channel, value: value as u16 * 129 },
                    MusicalEvent::Reset,
                ] {
                    assert_eq!(engine.send_midi_message(event), Ok(()), "{:?}", event);
                }
            }
        }
    }
    assert!(!bare.has_bank());
    assert_eq!(entries(loaded.presets_data()), expected(&FIRST));
}

#[test]
fn a_note_that_does_not_sound_cannot_end() {
    let mut engine = engine();
    assert_eq!(engine.load_sfont("test.sf2"), Ok(()));
    assert_eq!(engine.select_preset(0, 0, 0), Ok(()));
    assert!(matches!(
        engine.send_midi_message(note_off(60)),
        Err(EventApplyError::Backend(_))
    ));
    assert_eq!(engine.send_midi_message(note_on(60)), Ok(()));
    assert_eq!(engine.send_midi_message(note_off(60)), Ok(()));
}

#[test]
fn program_change_moves_the_channel() {
    let mut engine = engine();
    assert_eq!(engine.load_sfont("test.sf2"), Ok(()));
    assert_eq!(engine.select_preset(1, 0, 0), Ok(()));
    assert_eq!(
        engine.send_midi_message(MusicalEvent::ProgramChange { channel: 1, program: 5 }),
        Ok(())
    );
    assert_eq!(engine.active_preset(1), Ok(Preset { bank: 0, num: 5 }));
}

#[test]
fn a_note_without_a_bank_is_the_backends_to_refuse() {
    let mut engine = engine();
    assert!(matches!(
        engine.send_midi_message(note_on(60)),
        Err(EventApplyError::Backend(BackendFailure::Fluid(_)))
    ));
    assert!(!engine.has_bank());
}

#[test]
fn gain_is_recorded() {
    let mut engine = engine();
    engine.set_gain(Gain { bits: 0.25f32.to_bits() });
    assert_eq!(engine.gain(), Gain { bits: 0.25f32.to_bits() });
    engine.set_gain(Gain { bits: f32::NAN.to_bits() });
    assert_eq!(engine.gain().bits, f32::NAN.to_bits());
    engine.set_gain(Gain { bits: (-3.0f32).to_bits() });
    assert_eq!(f32::from_bits(engine.gain().bits), -3.0);
}

#[test]
fn commands_report_their_outcome() {
    let mut engine = engine();
    assert_eq!(engine.apply_command(&Command::LoadBank("test.sf2".to_string())), Outcome::Done);
    assert!(engine.has_bank());
    assert_eq!(
        engine.apply_command(&Command::SetGain(Gain { bits: 2.0f32.to_bits() })),
        Outcome::Done
    );
    assert_eq!(engine.gain().bits, 2.0f32.to_bits());
    assert_eq!(engine.apply_command(&Command::PlayEvent(note_on(60))), Outcome::Done);
    assert_eq!(
        engine.apply_command(&Command::PlayEvent(MusicalEvent::Other { status: 0xF8 })),
        Outcome::Done
    );
    assert_eq!(
        engine.apply_command(&Command::PlayEvent(MusicalEvent::NoteOn {
            channel: 99,
            key: 0,
            velocity: 0
        })),
        Outcome::EventFailed(EventApplyError::InvalidParameter)
    );
    match engine.apply_command(&Command::LoadBank("missing.sf2".to_string())) {
        Outcome::BankFailed(error) => assert_eq!(error.path, "missing.sf2"),
        other => panic!("{:?}", other),
    }
    assert!(!engine.has_bank());
    assert_eq!(engine.gain().bits, 2.0f32.to_bits());
}

/// What became of each command, without the backend's wording of a refusal:
/// its text is the last message that the backend wrote, whichever call
/// wrote it.
fn kinds(outcomes: &[Outcome]) -> Vec<String> {
    outcomes
        .iter()
        .map(|outcome| match outcome {
            Outcome::Done => "done".to_string(),
            Outcome::EventFailed(EventApplyError::InvalidParameter) => "invalid".to_string(),
            Outcome::EventFailed(EventApplyError::Backend(_)) => "event refused".to_string(),
            Outcome::BankFailed(error) => format!("bank refused: {}", error.path),
        })
        .collect()
}

fn batch() -> Vec<Command> {
    vec![
        Command::PlayEvent(note_on(60)),
        Command::LoadBank("missing.sf2".to_string()),
        Command::SetGain(Gain { bits: 0.5f32.to_bits() }),
        Command::LoadBank("test.sf2".to_string()),
        Command::PlayEvent(MusicalEvent::ProgramChange { channel: 0, program: 5 }),
        Command::PlayEvent(MusicalEvent::NoteOn { channel: 0, key: 200, velocity: 1 }),
        Command::PlayEvent(note_on(64)),
        Command::SetGain(Gain { bits: 0.75f32.to_bits() }),
        Command::PlayEvent(note_on(67)),
        Command::PlayEvent(note_off(64)),
    ]
}

#[test]
fn a_batch_does_what_its_commands_do_one_by_one() {
    let commands = batch();
    let mut drained = engine();
    let outcomes = drained.drain(&commands);
    let mut stepped = engine();
    let mut one_by_one = Vec::new();
    for command in &commands {
        one_by_one.push(stepped.apply_command(command));
    }
    assert_eq!(outcomes.len(), commands.len());
    assert_eq!(kinds(&outcomes), kinds(&one_by_one));
    assert_eq!(
        kinds(&outcomes),
        vec![
            "event refused",
            "bank refused: missing.sf2",
            "done",
            "done",
            "done",
            "invalid",
            "done",
            "done",
            "done",
            "done"
        ]
    );
    assert!(matches!(outcomes[0], Outcome::EventFailed(EventApplyError::Backend(_))));
    assert!(matches!(outcomes[1], Outcome::BankFailed(_)));
    assert_eq!(outcomes[3], Outcome::Done);
    assert_eq!(outcomes[5], Outcome::EventFailed(EventApplyError::InvalidParameter));
    assert_eq!(outcomes[9], Outcome::Done);
    assert_eq!(drained.has_bank(), stepped.has_bank());
    assert_eq!(drained.gain(), stepped.gain());
    assert_eq!(drained.gain().bits, 0.75f32.to_bits());
    assert_eq!(entries(drained.presets_data()), entries(stepped.presets_data()));
    assert_eq!(drained.active_preset(0), stepped.active_preset(0));
    assert_eq!(drained.active_preset(0), Ok(Preset { bank: 0, num: 5 }));
    let a = render(&drained, 4410);
    let b = render(&stepped, 4410);
    assert!(rms(&a) > 1e-3);
    assert_eq!(a, b);
}

#[test]
fn where_a_batch_is_cut_does_not_matter() {
    let commands = batch();
    let mut whole = engine();
    let outcomes = whole.drain(&commands);
    for cut in 0..=commands.len() {
        let mut parts = engine();
        let mut reported = parts.drain(&commands[..cut]);
        reported.extend(parts.drain(&commands[cut..]));
        assert_eq!(kinds(&reported), kinds(&outcomes));
        assert_eq!(parts.gain(), whole.gain());
        assert_eq!(entries(parts.presets_data()), entries(whole.presets_data()));
        assert_eq!(parts.active_preset(0), whole.active_preset(0));
    }
}

#[test]
fn an_empty_batch_changes_nothing() {
    let mut engine = engine();
    assert_eq!(engine.load_sfont("test.sf2"), Ok(()));
    assert!(engine.drain(&[]).is_empty());
    assert!(engine.has_bank());
    assert_eq!(entries(engine.presets_data()), expected(&FIRST));
    assert_eq!(engine.gain().bits, DEFAULT_GAIN_BITS);
}

#[test]
fn a_note_sounds_and_decays() {
    let mut engine = engine();
    assert_eq!(engine.load_sfont("test.sf2"), Ok(()));
    assert_eq!(engine.select_preset(0, 0, 0), Ok(()));
    assert_eq!(engine.drain(&[Command::PlayEvent(note_on(60))]), vec![Outcome::Done]);
    let sounding = render(&engine, 4410);
    assert!(rms(&sounding) > 1e-3);
    assert_eq!(
        engine.drain(&[Command::PlayEvent(MusicalEvent::NoteOff {
            channel: 0,
            key: 60,
            velocity: 0
        })]),
        vec![Outcome::Done]
    );
    let mut last = rms(&sounding);
    for _ in 0..20 {
        last = rms(&render(&engine, 44100));
    }
    assert!(last < 1e-4, "{}", last);
}

#[test]
fn rendering_gives_finite_samples() {
    let mut engine = engine();
    let silent = render(&engine, 512);
    assert_eq!(silent.len(), 1024);
    assert!(silent.iter().all(|s| s.is_finite()));
    assert!(rms(&silent) < 1e-4);
    assert_eq!(engine.load_sfont("test.sf2"), Ok(()));
    assert_eq!(engine.select_preset(0, 0, 0), Ok(()));
    let events = [
        note_on(60),
        note_on(64),
        note_off(60),
        MusicalEvent::Reset,
        note_on(72),
        note_off(72),
        note_off(72),
        note_on(0),
        note_on(127),
        MusicalEvent::Reset,
    ];
    for event in events {
        let _ = engine.send_midi_message(event);
        let block = render(&engine, 256);
        assert_eq!(block.len(), 512);
        assert!(block.iter().all(|s| s.is_finite()));
    }
}

#[test]
fn reset_silences_a_note_at_once() {
    let mut engine = engine();
    assert_eq!(engine.load_sfont("test.sf2"), Ok(()));
    assert_eq!(engine.select_preset(0, 0, 0), Ok(()));
    let commands =
        vec![Command::PlayEvent(note_on(60)), Command::PlayEvent(MusicalEvent::Reset)];
    assert_eq!(engine.drain(&commands), vec![Outcome::Done, Outcome::Done]);
    let block = render(&engine, 4410);
    assert!(block.iter().all(|s| s.is_finite()));
    assert!(rms(&block) < 1e-4, "{}", rms(&block));
}

#[test]
fn gain_scales_the_sound() {
    let mut loud = engine();
    let mut quiet = engine();
    for engine in [&mut loud, &mut quiet] {
        assert_eq!(engine.load_sfont("test.sf2"), Ok(()));
        assert_eq!(engine.select_preset(0, 0, 0), Ok(()));
    }
    quiet.set_gain(Gain { bits: 0.15f32.to_bits() });
    assert_eq!(loud.send_midi_message(note_on(60)), Ok(()));
    assert_eq!(quiet.send_midi_message(note_on(60)), Ok(()));
    let loud_rms = rms(&render(&loud, 4410));
    let quiet_rms = rms(&render(&quiet, 4410));
    assert!(loud_rms > 5.0 * quiet_rms, "{} {}", loud_rms, quiet_rms);
    assert!(quiet_rms > 0.0);
}
