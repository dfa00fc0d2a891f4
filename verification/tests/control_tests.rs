use rustmusic::audio::AudioStatus;
use rustmusic::control::{
    added_message, adopt_folder_playlist, error_message, folder_loaded_message, mode_message,
    no_music_message, now_playing_message, paused_message, resumed_message, saved_message,
    session_message, should_advance_after_finish, song_matches, welcome_message, PlayerFlags,
    ToggleAction,
};
use rustmusic::playlist::Playlist;

fn library() -> Playlist {
    let mut p = Playlist::new("Music Library");
    p.add_song("/m/Blue Train.mp3".to_string());
    p.add_song("/m/So What.flac".to_string());
    p.add_song("/m/Naima.ogg".to_string());
    p.songs[1].artist = Some("Miles DAVIS".to_string());
    p.songs[2].album = Some("Giant Steps".to_string());
    p
}

#[test]
fn toggle_pauses_resumes_and_starts() {
    let mut f = PlayerFlags::new();
    assert_eq!(f.toggle(false), ToggleAction::Nothing);
    assert_eq!(f, PlayerFlags::new());
    assert_eq!(f.toggle(true), ToggleAction::PlayCurrent);
    assert!(f.is_playing && !f.is_paused);
    assert!(f.is_active());
    assert_eq!(f.toggle(true), ToggleAction::Pause);
    assert!(f.is_paused);
    assert!(!f.is_active());
    assert_eq!(f.toggle(true), ToggleAction::Resume);
    assert!(!f.is_paused);
}

#[test]
fn toggle_twice_restores_flags() {
    let mut f = PlayerFlags { is_playing: true, is_paused: false };
    let before = f;
    f.toggle(true);
    f.toggle(true);
    assert_eq!(f, before);
}

#[test]
fn statuses_update_flags() {
    let mut f = PlayerFlags::new();
    f.apply_status(&AudioStatus::Playing);
    assert_eq!(f, PlayerFlags { is_playing: true, is_paused: false });
    f.apply_status(&AudioStatus::Paused);
    assert_eq!(f, PlayerFlags { is_playing: true, is_paused: true });
    f.apply_status(&AudioStatus::Error("e".to_string()));
    assert_eq!(f, PlayerFlags { is_playing: true, is_paused: true });
    f.apply_status(&AudioStatus::Finished);
    assert_eq!(f, PlayerFlags::new());
    f.start_playing();
    f.apply_status(&AudioStatus::Stopped);
    assert_eq!(f, PlayerFlags::new());
}

#[test]
fn finished_song_is_followed_when_more_remain() {
    let mut p = library();
    assert!(!should_advance_after_finish(&Playlist::new("x")));
    assert!(!should_advance_after_finish(&p));
    p.play_at(1);
    assert!(should_advance_after_finish(&p));
    p.play_at(2);
    assert!(!should_advance_after_finish(&p));
    p.repeat = true;
    assert!(should_advance_after_finish(&p));
}

#[test]
fn search_matches_title_artist_album_in_any_case() {
    let p = library();
    assert_eq!(p.filtered_positions(""), vec![0, 1, 2]);
    assert_eq!(p.filtered_positions("blue"), vec![0]);
    assert_eq!(p.filtered_positions("davis"), vec![1]);
    assert_eq!(p.filtered_positions("GIANT"), vec![2]);
    assert_eq!(p.filtered_positions("a"), vec![0, 1, 2]);
    assert!(p.filtered_positions("coltrane").is_empty());
}

#[test]
fn song_matches_needs_lowered_query() {
    let p = library();
    assert!(song_matches(&p.songs[0], "train"));
    assert!(!song_matches(&p.songs[0], "Train"));
    assert!(song_matches(&p.songs[1], "miles"));
}

#[test]
fn status_line_texts() {
    assert_eq!(now_playing_message("Naima"), "Now playing: Naima");
    assert_eq!(error_message("Failed to seek: x"), "Error: Failed to seek: x");
    assert_eq!(mode_message("Repeat", true), "Repeat: ON");
    assert_eq!(mode_message("Shuffle", false), "Shuffle: OFF");
    assert_eq!(added_message(3), "Added 3 songs");
    assert_eq!(added_message(0), "Added 0 songs");
    assert_eq!(session_message(120), "Loaded 120 songs from last session");
}

#[test]
fn folder_load_adopts_only_a_nonempty_playlist() {
    let mut current = library();
    current.play_at(1);
    let empty = Playlist::new("Music Library");
    assert!(!adopt_folder_playlist(&mut current, empty));
    assert_eq!(current.name, "Music Library");
    assert_eq!(current.len(), 3);
    assert_eq!(current.current_index, Some(1));
    let mut found = Playlist::new("Other");
    found.add_song("/x/a.mp3".to_string());
    assert!(adopt_folder_playlist(&mut current, found));
    assert_eq!(current.name, "Other");
    assert_eq!(current.len(), 1);
    assert_eq!(current.current_index, None);
    assert_eq!(folder_loaded_message(12, "\"jazz\""), "Loaded 12 songs from \"jazz\"");
    assert_eq!(no_music_message(), "No music files found in selected folder");
}

#[test]
fn fixed_status_texts() {
    assert_eq!(paused_message(), "Paused");
    assert_eq!(resumed_message(), "Resumed");
    assert_eq!(saved_message(), "Preferences saved!");
    assert_eq!(welcome_message(), "Welcome to RustMusic!");
}
