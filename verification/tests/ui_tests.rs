use daw::ui::explorer::ExplorerView;
use daw::ui::piano_roll::{clamp_lane, NoteDrag, NoteDragMode, PianoRollTool, PianoRollView};
use daw::ui::playlist::{
    default_clip_label, ClipDrag, ClipDragMode, ClipHit, ClipSelection, GridAction, ResizeEdge, PianoRollNoteData, PlaylistClipData,
    PlaylistTool, PlaylistTrack, PlaylistView, TrackKind, MIN_CLIP_LENGTH_BITS,
};
use daw::Float32;

fn f(x: f32) -> Float32 {
    Float32 { bits: x.to_bits() }
}

#[test]
fn a_new_playlist_holds_the_sample_lanes() {
    let view = PlaylistView::new();
    assert_eq!(view.track_count(), 5);
    assert_eq!(view.next_clip_id(), 11);
    assert_eq!(view.active_track_name(), "Drums");
    let snapshot = view.active_track_snapshot();
    assert_eq!((snapshot.track_index, snapshot.kind, snapshot.notes.len()), (0, TrackKind::PianoRoll, 6));
    assert_eq!(snapshot.lane_label, "Drum pattern lane");
    assert_eq!(snapshot.notes[0].start_beat, f(0.0));
    assert_eq!(snapshot.notes[0].velocity, f(0.92));
    let rolls = view.piano_roll_tracks();
    let names: Vec<&str> = rolls.iter().map(|s| s.name.as_str()).collect();
    assert_eq!(names, vec!["Drums", "Bass", "Keys", "Lead"]);
    assert_eq!(rolls[3].track_index, 3);
    assert_eq!(view.clip(4, 10).unwrap().label, "Chorus Vox");
    assert_eq!(view.clip(4, 10).unwrap().start_beat, f(8.0));
    assert!(view.clip(4, 3).is_none());
    assert!(view.clip(9, 0).is_none());
}

#[test]
fn created_clips_take_fresh_ids_and_lane_labels() {
    let mut view = PlaylistView::default();
    assert_eq!(view.create_clip(0, f(1.0)), 11);
    let clip = view.clip(0, 11).unwrap();
    assert_eq!(clip.label, "Drums Pattern");
    assert_eq!(clip.start_beat, f(1.0));
    assert_eq!(clip.length_beats, Float32 { bits: MIN_CLIP_LENGTH_BITS });
    assert_eq!(clip.length_beats, f(0.25));
    assert!(!clip.muted);
    assert_eq!(view.create_clip(4, f(2.0)), 12);
    assert_eq!(view.clip(4, 12).unwrap().label, "Vox Audio");
    assert_eq!(view.next_clip_id(), 13);
}

#[test]
fn clip_ids_continue_past_the_largest_in_use() {
    let clip = |id: usize| PlaylistClipData {
        id,
        label: "c".to_string(),
        start_beat: f(0.0),
        length_beats: f(1.0),
        muted: false,
    };
    let tracks = vec![
        PlaylistTrack::audio("A", "lane", vec![clip(4), clip(2)]),
        PlaylistTrack::piano_roll("B", "lane", vec![], vec![clip(7)]),
    ];
    let mut view = PlaylistView::with_tracks(tracks);
    assert_eq!(view.next_clip_id(), 8);
    assert_eq!(view.create_clip(0, f(3.0)), 8);
    assert_eq!(PlaylistView::with_tracks(vec![]).next_clip_id(), 0);
}

#[test]
fn toggling_a_clip_mute_flips_only_that_clip() {
    let mut view = PlaylistView::new();
    view.toggle_clip_mute(0, 1);
    assert!(view.clip(0, 1).unwrap().muted);
    assert!(!view.clip(0, 0).unwrap().muted);
    view.toggle_clip_mute(0, 1);
    assert!(!view.clip(0, 1).unwrap().muted);
    view.toggle_clip_mute(0, 99);
    view.toggle_clip_mute(42, 1);
    assert!(!view.clip(0, 1).unwrap().muted);
}

#[test]
fn removing_a_clip_ends_its_selection_and_drag() {
    let mut view = PlaylistView::new();
    view.select_clip(Some(ClipSelection { track_index: 0, clip_id: 2 }));
    view.set_clip_drag(Some(ClipDrag {
        track_index: 0,
        clip_id: 2,
        mode: ClipDragMode::Move { beat_offset: f(0.0), length_beats: f(4.0) },
    }));
    view.remove_clip(0, 2);
    assert!(view.clip(0, 2).is_none());
    assert!(view.clip(0, 1).is_some());
    view.remove_clip(0, 2);
    view.remove_clip(7, 0);
    assert_eq!(view.create_clip(0, f(0.0)), 11);
}

#[test]
fn notes_go_to_the_selected_piano_roll_lane_only() {
    let mut view = PlaylistView::new();
    view.select_track(1);
    assert_eq!(view.active_track_name(), "Bass");
    let note = PianoRollNoteData { lane: 3, start_beat: f(0.5), length_beats: f(1.0), velocity: f(0.5) };
    view.set_active_track_notes(vec![note]);
    assert_eq!(view.active_track_snapshot().notes, vec![note]);
    view.select_track(4);
    view.set_active_track_notes(vec![note]);
    assert!(view.active_track_snapshot().notes.is_empty());
    view.select_track(9);
    assert_eq!(view.active_track_name(), "Playlist Track");
    let fallback = view.active_track_snapshot();
    assert_eq!((fallback.name.as_str(), fallback.lane_label.as_str()), ("Playlist Track", "Piano roll lane"));
    view.set_active_track_notes(vec![note]);
    assert_eq!(view.piano_roll_tracks()[1].notes, vec![note]);
}

#[test]
fn default_labels_follow_the_lane_kind() {
    let roll = PlaylistTrack::piano_roll("Keys", "Chord lane", vec![], vec![]);
    let audio = PlaylistTrack::audio("Vox", "Audio lane", vec![]);
    assert_eq!(default_clip_label(&roll), "Keys Pattern");
    assert_eq!(default_clip_label(&audio), "Vox Audio");
    assert_eq!(audio.snapshot(4).track_index, 4);
}

#[test]
fn tools_have_labels_and_icons() {
    assert_eq!(PlaylistTool::Duplicate.label(), "Duplicate");
    assert_eq!(PianoRollTool::Draw.label(), "Brush");
    assert_eq!(clamp_lane(-3), 0);
    assert_eq!(clamp_lane(40), 17);
    assert_eq!(clamp_lane(5), 5);
    let explorer = ExplorerView::new();
    assert_eq!(explorer.sections().len(), 3);
    assert_eq!(explorer.sections()[0].title, "Libraries");
}

fn drag_on(track_index: usize) -> NoteDrag {
    NoteDrag { track_index, note_index: 0, mode: NoteDragMode::Create { anchor_beat: f(1.0) } }
}

#[test]
fn a_new_piano_roll_uses_the_brush_without_ghosts() {
    let view = PianoRollView::new();
    assert_eq!(view.active_tool(), PianoRollTool::Draw);
    assert!(!view.ghost_notes_enabled());
    assert!(!view.is_ghost_source(0));
    assert!(view.note_drag().is_none());
    assert_eq!(view.ghost_label(&[]), "Ghost");
    assert_eq!(view.ghost_status_label(&[]), "Ghosts Off");
}

#[test]
fn ghost_candidates_are_the_other_piano_roll_tracks() {
    let playlist = PlaylistView::new();
    let rolls = playlist.piano_roll_tracks();
    let mut view = PianoRollView::new();
    let candidates = view.sync_tracks(&rolls[1], &rolls);
    assert_eq!(candidates, vec![0, 2, 3]);
    let audio = playlist_audio_snapshot();
    assert_eq!(view.sync_tracks(&audio, &rolls), Vec::<usize>::new());
}

fn playlist_audio_snapshot() -> daw::ui::playlist::PianoRollTrackSnapshot {
    let mut playlist = PlaylistView::new();
    playlist.select_track(4);
    playlist.active_track_snapshot()
}

#[test]
fn the_ghost_button_picks_the_first_candidate_and_toggles() {
    let mut view = PianoRollView::new();
    view.toggle_ghost_notes(&[]);
    assert!(!view.ghost_notes_enabled());
    view.toggle_ghost_notes(&[2, 3]);
    assert!(view.ghost_notes_enabled());
    assert!(view.is_ghost_source(2) && !view.is_ghost_source(3));
    assert_eq!(view.ghost_count(&[2, 3]), 1);
    assert_eq!(view.ghost_label(&[2, 3]), "Ghost 1");
    assert_eq!(view.ghost_status_label(&[2, 3]), "Ghosts On");
    assert!(view.ghost_active(&[2, 3]));
    assert!(!view.ghost_active(&[3]));
    view.toggle_ghost_notes(&[2, 3]);
    assert!(!view.ghost_notes_enabled());
    assert!(view.is_ghost_source(2));
    assert_eq!(view.ghost_status_label(&[2, 3]), "Ghosts Off");
    view.toggle_ghost_notes(&[3]);
    assert!(view.ghost_notes_enabled());
    assert!(view.is_ghost_source(2) && !view.is_ghost_source(3));
}

#[test]
fn ghost_sources_switch_ghosts_on_and_off() {
    let mut view = PianoRollView::new();
    view.set_ghost_source(0, true);
    view.set_ghost_source(3, true);
    assert!(view.ghost_notes_enabled());
    assert_eq!(view.ghost_label(&[0, 2, 3]), "Ghost 2");
    view.set_ghost_source(0, false);
    assert!(view.ghost_notes_enabled());
    view.set_ghost_source(3, false);
    assert!(!view.ghost_notes_enabled());
    assert_eq!(view.ghost_count(&[0, 2, 3]), 0);
}

#[test]
fn syncing_drops_sources_that_are_no_longer_candidates() {
    let playlist = PlaylistView::new();
    let rolls = playlist.piano_roll_tracks();
    let mut view = PianoRollView::new();
    view.set_ghost_source(0, true);
    view.set_ghost_source(2, true);
    view.sync_tracks(&rolls[2], &rolls);
    assert!(view.is_ghost_source(0) && !view.is_ghost_source(2));
    assert!(view.ghost_notes_enabled());
    view.sync_tracks(&rolls[0], &rolls);
    assert!(!view.is_ghost_source(0));
    assert!(!view.ghost_notes_enabled());
}

#[test]
fn a_drag_ends_on_another_track_or_a_new_tool() {
    let playlist = PlaylistView::new();
    let rolls = playlist.piano_roll_tracks();
    let mut view = PianoRollView::new();
    view.set_note_drag(Some(drag_on(1)));
    view.sync_tracks(&rolls[1], &rolls);
    assert_eq!(view.note_drag(), Some(drag_on(1)));
    view.sync_tracks(&rolls[0], &rolls);
    assert!(view.note_drag().is_none());
    view.set_note_drag(Some(drag_on(0)));
    view.select_tool(PianoRollTool::Select);
    assert_eq!(view.active_tool(), PianoRollTool::Select);
    assert!(view.note_drag().is_none());
}

#[test]
fn a_press_on_a_clip_selects_it_and_leaves_its_drag_to_begin() {
    let mut view = PlaylistView::new();
    let hit = ClipHit { track_index: 1, clip_id: 3, edge: Some(ResizeEdge::End) };
    assert_eq!(view.primary_press(Some(hit), Some(1), f(2.0)), GridAction::BeginDrag(hit));
    assert_eq!(view.active_track_name(), "Bass");
    assert_eq!(view.active_track_snapshot().track_index, 1);
}

#[test]
fn drawing_on_an_empty_lane_creates_a_clip_and_drags_it() {
    let mut view = PlaylistView::new();
    view.select_tool(PlaylistTool::Draw);
    let next = view.next_clip_id();
    assert_eq!(view.primary_press(None, Some(2), f(6.0)), GridAction::FollowDrag);
    assert_eq!(view.next_clip_id(), next + 1);
    let clip = view.clip(2, next).unwrap();
    assert_eq!((clip.start_beat, clip.length_beats), (f(6.0), Float32 { bits: MIN_CLIP_LENGTH_BITS }));
    assert_eq!(clip.label, "Keys Pattern");
    assert_eq!(view.active_track_snapshot().track_index, 2);
}

#[test]
fn muting_by_press_toggles_the_hit_clip() {
    let mut view = PlaylistView::new();
    view.select_tool(PlaylistTool::Mute);
    let hit = ClipHit { track_index: 0, clip_id: 0, edge: None };
    let before = view.clip(0, 0).unwrap().muted;
    assert_eq!(view.primary_press(Some(hit), Some(0), f(0.0)), GridAction::Done);
    assert_eq!(view.clip(0, 0).unwrap().muted, !before);
    view.select_tool(PlaylistTool::Split);
    assert_eq!(view.primary_press(Some(hit), Some(0), f(1.0)), GridAction::Split(hit));
    view.select_tool(PlaylistTool::Duplicate);
    assert_eq!(view.primary_press(Some(hit), Some(0), f(1.0)), GridAction::Duplicate(hit));
    assert_eq!(view.primary_press(None, None, f(1.0)), GridAction::Done);
}
