use daw::audio::{is_asio_device, AudioFormat};
use daw::channel::Channel;
use daw::commands::{Command, CommandError, CommandResult, CreatePattern, DuplicatePattern, ToggleChannelMute};
use daw::dispatch::{CommandBox, CommandFactory, Dispatcher, FactoryBox, SimpleExecutor};
use daw::hardware::{find_focusrite_devices, get_alsa_device_name, lists_card, parse_card_line, HardwareDevice};
use daw::midi::{parse_midi_message, MidiEvent, MidiEventType};
use daw::note::{name_to_pitch, pitch_to_name};
use daw::pattern::Pattern;
use daw::playlist::PlaylistTrack;
use daw::project::{PlaybackMode, Project};
use daw::synth::{allocate_voice, count_sounding, plan_voice_event, VoiceAction, VoiceStatus};
use daw::time::format_bbt;
use daw::ui::piano_roll::{is_black_key, note_label};
use daw::Float64;

fn beats(x: f64) -> Float64 {
    Float64 { bits: x.to_bits() }
}

// === Note names ===

#[test]
fn names_round_trip_for_every_single_digit_octave() {
    for pitch in 12u8..=127 {
        let name = pitch_to_name(pitch);
        assert_eq!(name_to_pitch(&name), Some(pitch), "{name}");
    }
}

#[test]
fn name_reading_ignores_case_and_naming_restores_spelling() {
    assert_eq!(name_to_pitch("c#4"), Some(61));
    assert_eq!(name_to_pitch("a4"), Some(69));
    assert_eq!(pitch_to_name(name_to_pitch("c#4").unwrap()), "C#4");
}

#[test]
fn malformed_names_are_refused() {
    assert_eq!(name_to_pitch("C"), None);
    assert_eq!(name_to_pitch(""), None);
    assert_eq!(name_to_pitch("H4"), None);
    assert_eq!(name_to_pitch("C-1"), None);
    assert_eq!(name_to_pitch("Db4"), None);
    assert_eq!(name_to_pitch("C#x"), None);
}

#[test]
fn names_above_the_midi_range_or_ending_in_other_letters_are_refused() {
    assert_eq!(name_to_pitch("G9"), Some(127));
    assert_eq!(name_to_pitch("G#9"), None);
    assert_eq!(name_to_pitch("A9"), None);
    assert_eq!(name_to_pitch("B9"), None);
    assert_eq!(name_to_pitch("Cé"), None);
    assert_eq!(name_to_pitch("é4"), None);
}

#[test]
fn low_pitches_have_negative_octaves() {
    assert_eq!(pitch_to_name(0), "C-1");
    assert_eq!(pitch_to_name(11), "B-1");
    assert_eq!(pitch_to_name(127), "G9");
}

#[test]
fn piano_roll_labels_count_octaves_down_through_negatives() {
    assert_eq!(note_label(60), "C4");
    assert_eq!(note_label(-1), "B-2");
    assert_eq!(note_label(-12), "C-2");
    assert_eq!(note_label(79), "G5");
    assert!(is_black_key(61));
    assert!(!is_black_key(60));
    assert!(is_black_key(-2));
    assert!(!is_black_key(-1));
}

// === Project ===

#[test]
fn patterns_created_in_a_row_get_consecutive_ids() {
    let mut project = Project::new(0, "Test");
    let first = project.create_pattern("A", "#000");
    let second = project.create_pattern("B", "#000");
    assert_eq!((first, second), (0, 1));
    project.delete_pattern(0);
    assert_eq!(project.create_pattern("C", "#000"), 2);
    project.delete_pattern(2);
    project.delete_pattern(1);
    assert_eq!(project.create_pattern("D", "#000"), 0);
}

#[test]
fn deleting_a_created_pattern_restores_the_patterns() {
    let mut project = Project::with_defaults(0, "Test");
    let before: Vec<usize> = {
        let mut ids: Vec<usize> = project.patterns.keys().copied().collect();
        ids.sort();
        ids
    };
    let id = project.create_pattern("Lead", "#fff");
    assert_eq!(project.delete_pattern(id).map(|p| p.name), Some("Lead".to_string()));
    let mut after: Vec<usize> = project.patterns.keys().copied().collect();
    after.sort();
    assert_eq!(before, after);
    assert!(project.delete_pattern(id).is_none());
}

#[test]
fn duplicate_pattern_copies_content_under_the_next_id() {
    let mut project = Project::with_defaults(0, "Test");
    project.get_pattern_mut(0).unwrap().add_note(60, 100, beats(0.0), beats(1.0));
    project.get_pattern_mut(0).unwrap().toggle_step(3, 4);
    let copy = project.duplicate_pattern(0).unwrap();
    assert_eq!(copy, 1);
    let p = project.get_pattern(copy).unwrap();
    assert_eq!(p.name, "Pattern 1 Copy");
    assert_eq!(p.notes.len(), 1);
    assert!(p.is_step_active(3, 4));
    assert_eq!(project.duplicate_pattern(42), None);
}

#[test]
fn removing_an_added_channel_or_track_restores_the_project_lists() {
    let mut project = Project::with_defaults(0, "Test");
    let channels_before = project.channels.clone();
    let id = project.add_channel(Channel::new_synth(99, "Extra", "#111"));
    assert_eq!(id, 8);
    assert_eq!(project.channels[id].id, 8);
    project.remove_channel(id);
    assert_eq!(project.channels, channels_before);
    assert!(project.remove_channel(100).is_none());

    let tracks_before = project.playlist_tracks.clone();
    let t = project.add_track(PlaylistTrack::new(50, "Extra", "#222"));
    assert_eq!((project.playlist_tracks[t].id, project.playlist_tracks[t].index), (8, 8));
    project.remove_track(t);
    assert_eq!(project.playlist_tracks, tracks_before);
}

#[test]
fn solo_and_mode_switching() {
    let mut project = Project::with_defaults(0, "Test");
    assert!(!project.any_solo_active());
    project.get_channel_mut(3).unwrap().toggle_solo();
    assert!(project.any_solo_active());
    assert_eq!(project.playback_mode, PlaybackMode::Pattern);
    project.toggle_playback_mode();
    assert_eq!(project.playback_mode, PlaybackMode::Song);
    project.toggle_playback_mode();
    assert_eq!(project.playback_mode, PlaybackMode::Pattern);
}

#[test]
fn marking_saved_clears_dirty() {
    let mut project = Project::new(0, "Test");
    assert!(project.dirty);
    project.mark_saved(Some("/tmp/song.json".to_string()));
    assert!(!project.dirty);
    assert_eq!(project.file_path.as_deref(), Some("/tmp/song.json"));
    project.set_current_pattern(7);
    assert_eq!(project.current_pattern_id, 0);
}

// === Patterns ===

#[test]
fn toggling_a_step_twice_restores_it() {
    let mut pattern = Pattern::new(0, "Test", "#000");
    assert!(pattern.toggle_step(2, 5));
    assert!(!pattern.toggle_step(2, 5));
    for step in 0..16 {
        assert!(!pattern.is_step_active(2, step));
    }
    assert!(!pattern.toggle_step(1, 16));
    assert_eq!(pattern.step_data[&1], vec![false; 16]);
    pattern.set_step(1, 3, true);
    assert!(pattern.is_step_active(1, 3));
    pattern.clear_steps();
    assert!(!pattern.is_step_active(1, 3));
}

#[test]
fn transposing_back_restores_unclamped_pitches() {
    let mut pattern = Pattern::new(0, "Test", "#000");
    pattern.add_note(60, 100, beats(0.0), beats(1.0));
    pattern.add_note(120, 100, beats(1.0), beats(1.0));
    pattern.transpose(12);
    assert_eq!((pattern.notes[0].pitch, pattern.notes[1].pitch), (72, 127));
    pattern.transpose(-12);
    assert_eq!((pattern.notes[0].pitch, pattern.notes[1].pitch), (60, 115));
    pattern.transpose(-127);
    assert_eq!(pattern.notes[0].pitch, 0);
}

#[test]
fn removing_the_added_note_restores_the_notes() {
    let mut pattern = Pattern::new(0, "Test", "#000");
    pattern.add_note(60, 100, beats(0.0), beats(1.0));
    let before = pattern.notes.clone();
    pattern.add_note(64, 90, beats(1.0), beats(0.5));
    let last = pattern.notes.len() - 1;
    assert_eq!(pattern.remove_note(last).map(|n| n.pitch), Some(64));
    assert_eq!(pattern.notes, before);
    assert!(pattern.remove_note(5).is_none());
}

// === Playlist ===

#[test]
fn added_clips_are_found_by_their_ids() {
    let mut track = PlaylistTrack::new(3, "Drums", "#000");
    let a = track.add_clip(0, beats(0.0), beats(4.0));
    let b = track.add_clip(1, beats(4.0), beats(4.0));
    assert_eq!((a, b), (0, 1));
    assert_eq!(track.get_clip(b).unwrap().pattern_id, 1);
    assert_eq!(track.get_clip(b).unwrap().track_index, 3);
    track.get_clip_mut(a).unwrap().muted = true;
    assert!(track.clips[0].muted);
    assert_eq!(track.move_clip(b, beats(8.0)), Some(()));
    assert_eq!(track.clips[1].start_beat, beats(8.0));
    assert_eq!(track.move_clip(9, beats(8.0)), None);
}

#[test]
fn a_clip_added_after_a_removal_gets_an_id_no_clip_has() {
    let mut track = PlaylistTrack::new(0, "Drums", "#000");
    track.add_clip(0, beats(0.0), beats(1.0));
    track.add_clip(1, beats(1.0), beats(1.0));
    assert_eq!(track.remove_clip(0).map(|c| c.pattern_id), Some(0));
    let again = track.add_clip(2, beats(2.0), beats(1.0));
    assert_ne!(again, 1);
    assert_eq!(again, 0);
    assert_eq!(track.get_clip(again).unwrap().pattern_id, 2);
    assert_eq!(track.get_clip(1).unwrap().pattern_id, 1);
    let next = track.add_clip(3, beats(3.0), beats(1.0));
    assert_eq!(next, 2);
}

#[test]
fn effective_mute_of_tracks_follows_solo() {
    let mut track = PlaylistTrack::new(0, "Drums", "#000");
    assert!(!track.is_effective_mute(false));
    assert!(track.is_effective_mute(true));
    track.toggle_solo();
    assert!(!track.is_effective_mute(true));
    track.toggle_mute();
    assert!(track.is_effective_mute(true));
}

// === Dispatch ===

struct Touch;

impl Command for Touch {
    fn execute(&self, project: &mut Project) -> Result<bool, CommandError> {
        project.mark_dirty();
        Ok(true)
    }

    fn name(&self) -> &str {
        "touch"
    }

    fn is_undoable(&self) -> bool {
        true
    }
}

struct Peek;

impl Command for Peek {
    fn execute(&self, _project: &mut Project) -> Result<bool, CommandError> {
        Ok(false)
    }

    fn name(&self) -> &str {
        "peek"
    }

    fn is_undoable(&self) -> bool {
        true
    }
}

struct Fails;

impl Command for Fails {
    fn execute(&self, _project: &mut Project) -> Result<bool, CommandError> {
        Err(CommandError { message: "no".to_string() })
    }

    fn name(&self) -> &str {
        "fails"
    }

    fn is_undoable(&self) -> bool {
        true
    }
}

struct TouchFactory;

impl CommandFactory for TouchFactory {
    fn create(&self, args: &str) -> Result<CommandBox, CommandError> {
        if args == "bad" {
            Err(CommandError { message: "bad arguments".to_string() })
        } else {
            Ok(CommandBox { command: Box::new(Touch) })
        }
    }
}

fn touch() -> CommandBox {
    CommandBox { command: Box::new(Touch) }
}

#[test]
fn unknown_commands_are_refused_by_name() {
    let mut dispatcher = Dispatcher::new();
    let mut project = Project::default();
    let err = dispatcher.dispatch("nope", "{}", &mut project).err().unwrap();
    assert_eq!(err.message, "Unknown command: nope");
    assert!(!dispatcher.can_undo());
}

#[test]
fn registered_commands_are_dispatched_and_recorded() {
    let mut dispatcher = Dispatcher::default();
    let mut project = Project::new(0, "Test");
    project.mark_saved(None);
    dispatcher.register("touch", FactoryBox { factory: Box::new(TouchFactory) });
    let result = dispatcher.dispatch("touch", "{}", &mut project).unwrap();
    assert_eq!(result, CommandResult { modified: true, undoable: true });
    assert!(project.dirty);
    assert!(dispatcher.can_undo());
    let err = dispatcher.dispatch("touch", "bad", &mut project).err().unwrap();
    assert_eq!(err.message, "bad arguments");
}

#[test]
fn undo_restores_the_project_and_redo_reapplies_it() {
    let mut dispatcher = Dispatcher::new();
    let mut project = Project::new(0, "Test");
    project.mark_saved(None);
    let before = project.clone();
    dispatcher.execute(touch(), &mut project).unwrap();
    assert!(project.dirty);
    let after = project.clone();
    assert!(!dispatcher.can_redo());
    assert_eq!(dispatcher.undo(&mut project).unwrap(), true);
    assert_eq!(project, before);
    assert!(!project.dirty);
    assert!(!dispatcher.can_undo());
    assert!(dispatcher.can_redo());
    assert_eq!(dispatcher.undo(&mut project).unwrap(), false);
    assert_eq!(dispatcher.redo(&mut project).unwrap(), true);
    assert_eq!(project, after);
    assert!(dispatcher.can_undo());
    assert!(!dispatcher.can_redo());
    assert_eq!(dispatcher.redo(&mut project).unwrap(), false);
    dispatcher.execute(touch(), &mut project).unwrap();
    assert!(!dispatcher.can_redo());
}

#[test]
fn undo_restores_patterns_channels_and_tracks() {
    let mut dispatcher = Dispatcher::new();
    let mut project = Project::with_defaults(1, "Song");
    let before = project.clone();
    let create = CreatePattern { name: "Verse".to_string(), color: "#123".to_string() };
    dispatcher.execute(CommandBox { command: Box::new(create) }, &mut project).unwrap();
    dispatcher.execute(CommandBox { command: Box::new(ToggleChannelMute { channel_id: 2 }) }, &mut project).unwrap();
    let after = project.clone();
    assert!(dispatcher.undo(&mut project).unwrap());
    assert!(dispatcher.undo(&mut project).unwrap());
    assert_eq!(project, before);
    assert!(dispatcher.redo(&mut project).unwrap());
    assert!(dispatcher.redo(&mut project).unwrap());
    assert_eq!(project, after);
}

#[test]
fn unmodifying_and_failing_commands_are_not_recorded() {
    let mut dispatcher = Dispatcher::new();
    let mut project = Project::default();
    let result = dispatcher.execute(CommandBox { command: Box::new(Peek) }, &mut project).unwrap();
    assert!(!result.modified);
    assert!(!dispatcher.can_undo());
    let err = dispatcher.execute(CommandBox { command: Box::new(Fails) }, &mut project).err().unwrap();
    assert_eq!(err.message, "no");
    assert!(!dispatcher.can_undo());
}

struct Sticky;

impl Command for Sticky {
    fn execute(&self, project: &mut Project) -> Result<bool, CommandError> {
        project.mark_dirty();
        Ok(true)
    }

    fn name(&self) -> &str {
        "sticky"
    }

    fn is_undoable(&self) -> bool {
        false
    }
}

#[test]
fn commands_that_cannot_be_undone_are_reported_and_not_recorded() {
    let mut dispatcher = Dispatcher::new();
    let mut project = Project::default();
    let result = dispatcher.execute(CommandBox { command: Box::new(Sticky) }, &mut project).unwrap();
    assert_eq!(result, CommandResult { modified: true, undoable: false });
    assert!(project.dirty);
    assert!(!dispatcher.can_undo());
}

#[test]
fn no_pattern_is_created_once_the_largest_id_is_taken() {
    let mut project = Project::default();
    let id = project.create_pattern("Top", "#fff");
    let top = project.patterns.remove(&id).unwrap();
    project.patterns.insert(usize::MAX, top);
    let count = project.patterns.len();
    let create = CreatePattern { name: "New".to_string(), color: "#000".to_string() };
    assert_eq!(create.execute(&mut project).err().unwrap().message, "No pattern id left");
    assert_eq!(project.patterns.len(), count);
    assert_eq!(DuplicatePattern { pattern_id: 7 }.execute(&mut project).unwrap(), false);
    assert_eq!(
        DuplicatePattern { pattern_id: usize::MAX }.execute(&mut project).err().unwrap().message,
        "No pattern id left"
    );
    assert!(ToggleChannelMute { channel_id: 0 }.execute(&mut project).is_ok());
}

#[test]
fn undo_depth_is_bounded() {
    let mut dispatcher = Dispatcher::new();
    let mut project = Project::default();
    for _ in 0..3 {
        dispatcher.execute(touch(), &mut project).unwrap();
    }
    dispatcher.set_max_undo(2);
    assert!(dispatcher.undo(&mut project).unwrap());
    assert!(dispatcher.undo(&mut project).unwrap());
    assert!(!dispatcher.undo(&mut project).unwrap());

    dispatcher.set_max_undo(0);
    dispatcher.execute(touch(), &mut project).unwrap();
    assert!(!dispatcher.can_undo());
}

#[test]
fn simple_executor_runs_without_history() {
    let mut executor = SimpleExecutor::new();
    let mut project = Project::new(0, "Test");
    project.mark_saved(None);
    executor.register("touch", FactoryBox { factory: Box::new(TouchFactory) });
    assert_eq!(executor.execute("touch", "{}", &mut project).unwrap(), true);
    assert!(project.dirty);
    let err = executor.execute("other", "{}", &mut project).err().unwrap();
    assert_eq!(err.message, "Unknown command: other");
}

// === MIDI ===

#[test]
fn raw_midi_messages_decode_by_status_nibble() {
    let on = parse_midi_message(&[0x91, 60, 100]).unwrap();
    assert_eq!(on.event_type, MidiEventType::NoteOn { pitch: 60, velocity: 100 });
    assert_eq!((on.channel, on.timestamp), (1, 0));
    assert_eq!(parse_midi_message(&[0x83, 62, 0]).unwrap().event_type, MidiEventType::NoteOff { pitch: 62 });
    assert_eq!(parse_midi_message(&[0x83, 62, 0]).unwrap().channel, 3);
    assert_eq!(
        parse_midi_message(&[0xB0, 7, 99]).unwrap().event_type,
        MidiEventType::ControlChange { controller: 7, value: 99 }
    );
    assert_eq!(parse_midi_message(&[0xE0, 0, 64]).unwrap().event_type, MidiEventType::PitchBend { value: 0 });
    assert_eq!(parse_midi_message(&[0xE0, 0x7F, 0x7F]).unwrap().event_type, MidiEventType::PitchBend { value: 8191 });
    assert_eq!(parse_midi_message(&[0xE0, 0, 0]).unwrap().event_type, MidiEventType::PitchBend { value: -8192 });
    assert_eq!(
        parse_midi_message(&[0xA2, 60, 30]).unwrap().event_type,
        MidiEventType::Aftertouch { pitch: 60, pressure: 30 }
    );
    assert_eq!(parse_midi_message(&[0xD0, 40]).unwrap().event_type, MidiEventType::ChannelPressure { pressure: 40 });
    assert_eq!(parse_midi_message(&[0xC5, 7]).unwrap().event_type, MidiEventType::ProgramChange { program: 7 });
    assert_eq!(parse_midi_message(&[0xC5, 7]).unwrap().channel, 5);
    assert!(parse_midi_message(&[0x90, 60]).is_none());
    assert!(parse_midi_message(&[0xF8]).is_none());
    assert!(parse_midi_message(&[]).is_none());
}

#[test]
fn note_on_with_zero_velocity_counts_as_note_off() {
    let e = parse_midi_message(&[0x90, 60, 0]).unwrap();
    assert!(e.is_note_off());
    assert!(!e.is_note_on());
    assert_eq!(e.velocity(), Some(0));
    assert_eq!(e.pitch(), Some(60));
    let on = MidiEvent::note_on(60, 100, 20);
    assert_eq!(on.channel, 15);
    assert!(on.is_note_on());
    assert_eq!(MidiEvent::control_change(1, 2, 3).pitch(), None);
}

// === Voices ===

fn voice(pitch: u8, sounding: bool) -> VoiceStatus {
    VoiceStatus { pitch, sounding }
}

#[test]
fn note_on_takes_the_first_silent_voice() {
    let voices = [voice(60, true), voice(0, false), voice(64, true), voice(0, false)];
    assert_eq!(allocate_voice(&voices, 67), Some((1, false)));
    assert_eq!(
        plan_voice_event(&voices, &MidiEvent::note_on(67, 90, 0)),
        VoiceAction::Trigger { voice: 1, steal: false, pitch: 67, velocity: 90 }
    );
    assert_eq!(count_sounding(&voices), 2);
}

#[test]
fn full_synths_steal_the_same_pitch_or_the_first_voice() {
    let voices = [voice(60, true), voice(64, true)];
    assert_eq!(allocate_voice(&voices, 64), Some((1, true)));
    assert_eq!(allocate_voice(&voices, 67), Some((0, true)));
    assert_eq!(allocate_voice(&[], 67), None);
    assert_eq!(plan_voice_event(&[], &MidiEvent::note_on(67, 90, 0)), VoiceAction::Ignore);
}

#[test]
fn note_off_releases_the_first_voice_sounding_the_pitch() {
    let voices = [voice(64, false), voice(60, true), voice(64, true)];
    assert_eq!(plan_voice_event(&voices, &MidiEvent::note_off(64, 0)), VoiceAction::Release { voice: 2 });
    assert_eq!(plan_voice_event(&voices, &MidiEvent::note_on(64, 0, 0)), VoiceAction::Release { voice: 2 });
    assert_eq!(plan_voice_event(&voices, &MidiEvent::note_off(70, 0)), VoiceAction::Ignore);
    assert_eq!(plan_voice_event(&voices, &MidiEvent::control_change(1, 1, 0)), VoiceAction::Ignore);
}

// === Hardware ===

#[test]
fn card_lines_give_number_and_name() {
    let (card, name) = parse_card_line(" 2 [USB            ]: USB-Audio - Scarlett 2i2 USB").unwrap();
    assert_eq!(card, 2);
    assert_eq!(name, "USB-Audio - Scarlett 2i2 USB");
    let (card, name) = parse_card_line(" 0 [PCH            ]: HDA-Intel - HDA Intel PCH").unwrap();
    assert_eq!((card, name.as_str()), (0, "HDA-Intel - HDA Intel PCH"));
    let (card, name) = parse_card_line("12 [X]: A]: B").map(|(c, n)| (c, n)).unwrap_or((99, String::new()));
    assert_eq!((card, name.as_str()), (99, ""));
    let (card, name) = parse_card_line(" 12 [X]: A ]: B").unwrap();
    assert_eq!((card, name.as_str()), (12, "A"));
    assert_eq!(parse_card_line(" +7 [Y] no marker").map(|(c, n)| (c, n)), Some((7, " +7 [Y] no marker".trim().to_string())));
}

#[test]
fn other_lines_are_not_cards() {
    assert!(parse_card_line("                      Focusrite Scarlett 2i2 USB at usb-0000").is_none());
    assert!(parse_card_line(" x [A ]: B").is_none());
    assert!(parse_card_line(" 99999999999 [A ]: B").is_none());
    assert!(parse_card_line(" [").is_none());
    assert!(parse_card_line("").is_none());
}

#[test]
fn device_listings_mention_cards() {
    let listing = "card 1: PCH [HDA Intel PCH], device 0: ALC [ALC]\n  Subdevices: 1/1\n";
    assert!(lists_card(listing, 1));
    assert!(!lists_card(listing, 2));
    assert!(lists_card("card 12: X", 1));
    assert!(!lists_card("", 0));
}

#[test]
fn focusrite_devices_are_found_by_name_or_vendor() {
    let device = |name: &str, usb: Option<&str>| HardwareDevice {
        card_num: 0,
        card_name: name.to_string(),
        usb_id: usb.map(|u| u.to_string()),
        is_input: true,
        is_output: true,
    };
    let devices = vec![
        device("HDA Intel", None),
        device("USB-Audio - SCARLETT 2i2", None),
        device("USB Audio", Some("1235:8210")),
        device("Focusrite Clarett", Some("0000:1235")),
        device("Other", Some("0000:1235")),
    ];
    let found = find_focusrite_devices(devices);
    let names: Vec<&str> = found.iter().map(|d| d.card_name.as_str()).collect();
    assert_eq!(names, vec!["USB-Audio - SCARLETT 2i2", "USB Audio", "Focusrite Clarett"]);
    assert_eq!(get_alsa_device_name(2, 0, true), "hw:2,0");
    assert_eq!(get_alsa_device_name(10, 3, false), "hw:10,3");
}

#[test]
fn audio_formats_come_from_extensions() {
    assert_eq!(AudioFormat::from_path("song.WAV"), AudioFormat::Wav);
    assert_eq!(AudioFormat::from_path("/music/a.flac"), AudioFormat::Flac);
    assert_eq!(AudioFormat::from_path("b.Mp3"), AudioFormat::Mp3);
    assert_eq!(AudioFormat::from_path("c.ogg"), AudioFormat::Ogg);
    assert_eq!(AudioFormat::from_path("dir.wav/file"), AudioFormat::Unknown);
    assert_eq!(AudioFormat::from_path("noext"), AudioFormat::Unknown);
    assert!(is_asio_device("Focusrite USB ASIO"));
    assert!(is_asio_device("RME Fireface"));
    assert!(!is_asio_device("Built-in Output"));
}

// === Time display ===

#[test]
fn positions_display_as_zero_padded_bars_beats_ticks() {
    assert_eq!(format_bbt(1, 1, 0), "001:01:000");
    assert_eq!(format_bbt(2, 2, 480), "002:02:480");
    assert_eq!(format_bbt(1234, 10, 5), "1234:10:005");
    assert_eq!(format_bbt(-1, 1, 0), "-01:01:000");
    assert_eq!(format_bbt(0, -3, -7), "000:-3:-07");
}
