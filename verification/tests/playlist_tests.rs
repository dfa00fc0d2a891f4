use rustmusic::playlist::{is_audio_extension, is_audio_file, song_title, Playlist};

fn titles(p: &Playlist) -> Vec<String> {
    p.songs.iter().map(|s| s.title.clone()).collect()
}

fn three() -> Playlist {
    let mut p = Playlist::new("Test");
    p.add_song("/music/one.mp3".to_string());
    p.add_song("/music/two.flac".to_string());
    p.add_song("/music/three.wav".to_string());
    p
}

#[test]
fn new_playlist_is_empty() {
    let p = Playlist::new("Default");
    assert_eq!(p.name, "Default");
    assert!(p.is_empty());
    assert_eq!(p.len(), 0);
    assert_eq!(p.current_index, None);
    assert!(!p.shuffle);
    assert!(!p.repeat);
    assert!(p.get_current_song().is_none());
}

#[test]
fn add_song_titles_by_file_stem() {
    let mut p = Playlist::new("x");
    p.add_song("/music/Artist - Song.mp3".to_string());
    p.add_song("noext".to_string());
    p.add_song("/".to_string());
    assert_eq!(titles(&p), vec!["Artist - Song", "noext", "Unknown"]);
    assert_eq!(p.songs[0].path, "/music/Artist - Song.mp3");
    assert_eq!(p.songs[0].duration_secs, 0);
    assert!(p.songs[0].artist.is_none());
    assert!(p.songs[0].album.is_none());
}

#[test]
fn song_title_falls_back_to_unknown() {
    assert_eq!(song_title(None), "Unknown");
    assert_eq!(song_title(Some("abc".to_string())), "abc");
}

#[test]
fn audio_extensions_in_any_case() {
    assert!(is_audio_extension("mp3"));
    assert!(is_audio_extension("wma"));
    assert!(!is_audio_extension("MP3"));
    assert!(!is_audio_extension("txt"));
    assert!(is_audio_file("/a/b/song.MP3"));
    assert!(is_audio_file("song.Flac"));
    assert!(is_audio_file("x.m4a"));
    assert!(!is_audio_file("cover.jpg"));
    assert!(!is_audio_file("mp3"));
    assert!(!is_audio_file("/music/.ogg"));
}

#[test]
fn add_audio_files_keeps_only_audio_in_order() {
    let mut p = Playlist::new("x");
    let paths = vec![
        "/m/a.mp3".to_string(),
        "/m/notes.txt".to_string(),
        "/m/b.OGG".to_string(),
        "/m/c".to_string(),
        "/m/d.aac".to_string(),
    ];
    p.add_audio_files(&paths);
    assert_eq!(titles(&p), vec!["a", "b", "d"]);
    assert_eq!(p.songs[1].path, "/m/b.OGG");
}

#[test]
fn next_walks_forward_and_stops_at_end() {
    let mut p = three();
    assert_eq!(p.next().map(|s| s.title.clone()), Some("one".to_string()));
    assert_eq!(p.current_index, Some(0));
    assert_eq!(p.next().map(|s| s.title.clone()), Some("two".to_string()));
    assert_eq!(p.next().map(|s| s.title.clone()), Some("three".to_string()));
    assert!(p.next().is_none());
    assert_eq!(p.current_index, Some(2));
}

#[test]
fn next_wraps_with_repeat() {
    let mut p = three();
    p.repeat = true;
    p.play_at(2);
    assert_eq!(p.next().map(|s| s.title.clone()), Some("one".to_string()));
    assert_eq!(p.current_index, Some(0));
}

#[test]
fn repeat_walks_round_to_start() {
    let mut p = three();
    p.repeat = true;
    p.play_at(1);
    for _ in 0..3 {
        p.next();
    }
    assert_eq!(p.current_index, Some(1));
}

#[test]
fn shuffle_picks_a_song_of_the_playlist() {
    let mut p = three();
    p.shuffle = true;
    p.play_at(0);
    for _ in 0..20 {
        assert!(p.next().is_some());
        assert!(p.current_index.unwrap() < 3);
    }
}

#[test]
fn next_with_pick_uses_pick_in_shuffle() {
    let mut p = three();
    p.shuffle = true;
    p.play_at(0);
    assert_eq!(p.next_with_pick(2).map(|s| s.title.clone()), Some("three".to_string()));
    assert_eq!(p.current_index, Some(2));
}

#[test]
fn previous_walks_back_and_wraps_with_repeat() {
    let mut p = three();
    assert_eq!(p.previous().map(|s| s.title.clone()), Some("one".to_string()));
    assert!(p.previous().is_none());
    assert_eq!(p.current_index, Some(0));
    p.repeat = true;
    assert_eq!(p.previous().map(|s| s.title.clone()), Some("three".to_string()));
    assert_eq!(p.current_index, Some(2));
}

#[test]
fn previous_undoes_next() {
    for repeat in [false, true] {
        for start in 0..3 {
            let mut p = three();
            p.repeat = repeat;
            p.play_at(start);
            if p.next().is_some() {
                p.previous();
                assert_eq!(p.current_index, Some(start));
            }
        }
    }
}

#[test]
fn next_and_previous_on_empty() {
    let mut p = Playlist::new("x");
    assert!(p.next().is_none());
    assert!(p.previous().is_none());
    assert_eq!(p.current_index, None);
}

#[test]
fn play_at_in_and_out_of_range() {
    let mut p = three();
    assert_eq!(p.play_at(1).map(|s| s.title.clone()), Some("two".to_string()));
    assert_eq!(p.get_current_song().map(|s| s.title.clone()), Some("two".to_string()));
    assert!(p.play_at(3).is_none());
    assert_eq!(p.current_index, Some(1));
}

#[test]
fn remove_song_moves_cursor_back() {
    let mut p = three();
    p.play_at(2);
    p.remove_song(0);
    assert_eq!(titles(&p), vec!["two", "three"]);
    assert_eq!(p.current_index, Some(1));
    p.remove_song(1);
    assert_eq!(p.current_index, Some(0));
    p.remove_song(5);
    assert_eq!(p.len(), 1);
    p.remove_song(0);
    assert_eq!(p.current_index, None);
    assert!(p.is_empty());
}

#[test]
fn remove_song_after_cursor_keeps_it() {
    let mut p = three();
    p.play_at(0);
    p.remove_song(2);
    assert_eq!(p.current_index, Some(0));
    p.remove_song(0);
    assert_eq!(p.current_index, Some(0));
    assert_eq!(titles(&p), vec!["two"]);
}

#[test]
fn clear_empties() {
    let mut p = three();
    p.play_at(1);
    p.repeat = true;
    p.clear();
    assert!(p.is_empty());
    assert_eq!(p.current_index, None);
    assert!(p.repeat);
    assert!(p.get_current_song().is_none());
}

#[test]
fn total_duration_sums_seconds() {
    let mut p = three();
    assert_eq!(p.total_duration(), 0);
    p.songs[0].duration_secs = 200;
    p.songs[2].duration_secs = u64::MAX;
    assert_eq!(p.total_duration(), 200u128 + u64::MAX as u128);
}
