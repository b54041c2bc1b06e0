use daw::channel::Channel;
use daw::clip::PlaylistClip;
use daw::note::{name_to_pitch, pitch_to_name};
use daw::pattern::Pattern;
use daw::playlist::{PlaylistTrack, TrackOrder};
use daw::project::Project;
use daw::Float64;

fn beats(x: f64) -> Float64 {
    Float64 { bits: x.to_bits() }
}

#[test]
fn test_pitch_to_name() {
    assert_eq!(pitch_to_name(60), "C4");
    assert_eq!(pitch_to_name(61), "C#4");
    assert_eq!(pitch_to_name(69), "A4");
}

#[test]
fn test_name_to_pitch() {
    assert_eq!(name_to_pitch("C4"), Some(60));
    assert_eq!(name_to_pitch("A4"), Some(69));
    assert_eq!(name_to_pitch("C#4"), Some(61));
    assert_eq!(name_to_pitch("invalid"), None);
}

#[test]
fn test_track_order() {
    let mut order = TrackOrder::new();
    order.add_track(0);
    order.add_track(1);
    order.add_track(2);

    order.move_track(2, 0);
    assert_eq!(order.track_ids, vec![2, 0, 1]);
}

#[test]
fn test_channel_new() {
    let channel = Channel::new_synth(1, "Bass", "#ff0000");
    assert_eq!(channel.id, 1);
    assert_eq!(channel.name, "Bass");
    assert!(!channel.muted);
    assert!(!channel.solo);
}

#[test]
fn test_effective_mute() {
    let mut channel = Channel::default();
    assert!(!channel.is_effective_mute(false));
    assert!(!channel.is_effective_mute(true)); // soloed by default when no solos

    channel.toggle_mute();
    assert!(channel.is_effective_mute(false));

    channel.toggle_mute();
    channel.toggle_solo();
    assert!(!channel.is_effective_mute(true)); // this one is soloed
    assert!(channel.is_effective_mute(false)); // but muted when no solos active
}

#[test]
fn test_playlist_clip_new() {
    let clip = PlaylistClip::new(0, 1, 2, beats(4.0), beats(8.0));
    assert_eq!(clip.pattern_id, 1);
    assert_eq!(clip.track_index, 2);
    assert_eq!(clip.start_beat, beats(4.0));
    assert_eq!(clip.duration_beats, beats(8.0));
    assert!(clip.looped);
}

#[test]
fn test_pattern_new() {
    let pattern = Pattern::new(1, "Test", "#ff0000");
    assert_eq!(pattern.id, 1);
    assert_eq!(pattern.name, "Test");
    assert_eq!(pattern.length_beats, beats(4.0));
    assert!(pattern.notes.is_empty());
}

#[test]
fn test_add_note() {
    let mut pattern = Pattern::new(0, "Test", "#000");
    pattern.add_note(60, 100, beats(0.0), beats(1.0));
    assert_eq!(pattern.notes.len(), 1);
    assert_eq!(pattern.notes[0].pitch, 60);
}

#[test]
fn test_toggle_step() {
    let mut pattern = Pattern::new(0, "Test", "#000");
    let channel_id = 0;

    assert!(!pattern.is_step_active(channel_id, 0));
    assert!(pattern.toggle_step(channel_id, 0));
    assert!(pattern.is_step_active(channel_id, 0));
    assert!(!pattern.toggle_step(channel_id, 0));
    assert!(!pattern.is_step_active(channel_id, 0));
}

#[test]
fn test_transpose() {
    let mut pattern = Pattern::new(0, "Test", "#000");
    pattern.add_note(60, 100, beats(0.0), beats(1.0));
    pattern.transpose(12);
    assert_eq!(pattern.notes[0].pitch, 72);
}

#[test]
fn test_track_new() {
    let track = PlaylistTrack::new(0, "Drums", "#ff0000");
    assert_eq!(track.name, "Drums");
    assert!(track.clips.is_empty());
}

#[test]
fn test_add_clip() {
    let mut track = PlaylistTrack::new(0, "Test", "#000");
    let clip_id = track.add_clip(1, beats(0.0), beats(4.0));
    assert_eq!(clip_id, 0);
    assert_eq!(track.clips.len(), 1);
}

#[test]
fn test_project_new() {
    let project = Project::new(1, "Test Project");
    assert_eq!(project.name, "Test Project");
    assert!(project.patterns.is_empty());
    assert_eq!(project.bpm, beats(120.0));
}

#[test]
fn test_project_with_defaults() {
    let project = Project::with_defaults(0, "Test");
    assert!(!project.patterns.is_empty());
    assert!(!project.channels.is_empty());
    assert!(!project.playlist_tracks.is_empty());
}

#[test]
fn test_create_pattern() {
    let mut project = Project::new(0, "Test");
    let id = project.create_pattern("Bass", "#ff0000");
    assert!(project.patterns.contains_key(&id));
    assert_eq!(project.patterns[&id].name, "Bass");
}

#[test]
fn test_duplicate_pattern() {
    let mut project = Project::with_defaults(0, "Test");
    let original_id = project.current_pattern_id;
    let new_id = project.duplicate_pattern(original_id);
    assert!(new_id.is_some());
    assert!(project.patterns.contains_key(&new_id.unwrap()));
}
