//! The player's own decisions: what the play/pause control does, how the
//! worker's reports change what the player shows, when a finished song is
//! followed by the next one, which songs a search shows, and the texts of
//! the status line.

use vstd::prelude::*;

use crate::audio::{AudioStatus, StatusView};
use crate::paths::{lowercase, to_lowercase};
use crate::playlist::{Playlist, Song};
use crate::text::{contains, contains_text, push_decimal, decimal};

verus! {

/// Whether a song is loaded for playing, and whether it is paused.
#[derive(Debug, Clone, Copy, PartialEq, Eq, Structural)]
pub struct PlayerFlags {
    pub is_playing: bool,
    pub is_paused: bool,
}

/// What the play/pause control (button or space bar) does.
#[derive(Debug, Clone, Copy, PartialEq, Eq, Structural)]
pub enum ToggleAction {
    /// Pause the song that plays.
    Pause,
    /// Resume the paused song.
    Resume,
    /// Start the song under the playlist's cursor.
    PlayCurrent,
    /// Nothing to play.
    Nothing,
}

/// The play/pause control's choice: pause what plays, resume what is paused,
/// or else start the current song if there is one.
pub open spec fn toggle_choice(f: PlayerFlags, has_current: bool) -> ToggleAction {
    if f.is_playing && !f.is_paused {
        ToggleAction::Pause
    } else if f.is_playing && f.is_paused {
        ToggleAction::Resume
    } else if has_current {
        ToggleAction::PlayCurrent
    } else {
        ToggleAction::Nothing
    }
}

/// The flags after the play/pause control made its choice.
pub open spec fn flags_after_toggle(f: PlayerFlags, a: ToggleAction) -> PlayerFlags {
    match a {
        ToggleAction::Pause => PlayerFlags { is_paused: true, ..f },
        ToggleAction::Resume => PlayerFlags { is_paused: false, ..f },
        ToggleAction::PlayCurrent => PlayerFlags { is_playing: true, is_paused: false },
        ToggleAction::Nothing => f,
    }
}

/// The flags after the worker reported `st`.
pub open spec fn flags_after_status(f: PlayerFlags, st: StatusView) -> PlayerFlags {
    match st {
        StatusView::Playing => PlayerFlags { is_playing: true, is_paused: false },
        StatusView::Paused => PlayerFlags { is_paused: true, ..f },
        StatusView::Stopped => PlayerFlags { is_playing: false, is_paused: false },
        StatusView::Finished => PlayerFlags { is_playing: false, is_paused: false },
        StatusView::Error(_) => f,
    }
}

/// When a song has finished, the next one follows if the playlist has songs
/// and either repeat is on or the cursor is before the last song.
pub open spec fn advances_after_finish(p: Playlist) -> bool {
    p.songs@.len() > 0 && (p.repeat || (p.current_index matches Some(i) && i + 1
        < p.songs@.len()))
}

impl PlayerFlags {
    /// Nothing loaded, nothing paused.
    pub fn new() -> (f: PlayerFlags)
        ensures
            !f.is_playing,
            !f.is_paused,
    {
        PlayerFlags { is_playing: false, is_paused: false }
    }

    /// Whether a song is playing and not paused (the play button then shows pause).
    pub fn is_active(&self) -> (r: bool)
        ensures
            r == (self.is_playing && !self.is_paused),
    {
        self.is_playing && !self.is_paused
    }

    /// The play/pause control: chooses what to do, given whether the playlist
    /// has a current song, and sets the flags for it.
    pub fn toggle(&mut self, has_current: bool) -> (a: ToggleAction)
        ensures
            a == toggle_choice(*old(self), has_current),
            *final(self) == flags_after_toggle(*old(self), a),
    {
        if self.is_playing && !self.is_paused {
            self.is_paused = true;
            ToggleAction::Pause
        } else if self.is_playing && self.is_paused {
            self.is_paused = false;
            ToggleAction::Resume
        } else if has_current {
            self.is_playing = true;
            self.is_paused = false;
            ToggleAction::PlayCurrent
        } else {
            ToggleAction::Nothing
        }
    }

    /// A song was just handed to the worker to be played.
    pub fn start_playing(&mut self)
        ensures
            final(self).is_playing,
            !final(self).is_paused,
    {
        self.is_playing = true;
        self.is_paused = false;
    }

    /// Takes in a status that the worker reported.
    pub fn apply_status(&mut self, status: &AudioStatus)
        ensures
            *final(self) == flags_after_status(*old(self), status@),
    {
        match status {
            AudioStatus::Playing => {
                self.is_playing = true;
                self.is_paused = false;
            },
            AudioStatus::Paused => {
                self.is_paused = true;
            },
            AudioStatus::Stopped | AudioStatus::Finished => {
                self.is_playing = false;
                self.is_paused = false;
            },
            AudioStatus::Error(_) => {},
        }
    }
}

/// Whether the next song should follow the one that has just finished.
pub fn should_advance_after_finish(p: &Playlist) -> (r: bool)
    ensures
        r == advances_after_finish(*p),
{
    if p.songs.len() == 0 {
        false
    } else if p.repeat {
        true
    } else {
        match p.current_index {
            Some(i) => i < p.songs.len() - 1,
            None => false,
        }
    }
}

/// `song` matches the search text `q`, already in lower case: it occurs in
/// the lower-case title, artist or album.
pub open spec fn matches_lowered(song: Song, q: Seq<char>) -> bool {
    ||| contains_text(lowercase(song.title@), q)
    ||| (song.artist matches Some(a) && contains_text(lowercase(a@), q))
    ||| (song.album matches Some(a) && contains_text(lowercase(a@), q))
}

/// `song` is shown for the search text `query`: every song is shown for an
/// empty search, and otherwise those that match it in any case.
pub open spec fn shown_for(song: Song, query: Seq<char>) -> bool {
    query.len() == 0 || matches_lowered(song, lowercase(query))
}

/// The positions of the songs shown for `query`, in playlist order.
pub open spec fn shown_positions(songs: Seq<Song>, query: Seq<char>) -> Seq<usize> {
    Seq::new(songs.len(), |i: int| i as usize).filter(|i: usize| shown_for(songs[i as int], query))
}

/// Whether `song` matches the search text `lower`, already in lower case.
pub fn song_matches(song: &Song, lower: &str) -> (r: bool)
    ensures
        r == matches_lowered(*song, lower@),
{
    let title = to_lowercase(song.title.as_str());
    if contains(title.as_str(), lower) {
        return true;
    }
    let in_artist = match &song.artist {
        Some(a) => {
            let a = to_lowercase(a.as_str());
            contains(a.as_str(), lower)
        },
        None => false,
    };
    if in_artist {
        return true;
    }
    match &song.album {
        Some(a) => {
            let a = to_lowercase(a.as_str());
            contains(a.as_str(), lower)
        },
        None => false,
    }
}

impl Playlist {
    /// The positions of the songs that a search for `query` shows, in
    /// playlist order: all of them for an empty search, else those whose
    /// title, artist or album holds the search text, in any case.
    pub fn filtered_positions(&self, query: &str) -> (r: Vec<usize>)
        ensures
            r@ == shown_positions(self.songs@, query@),
    {
        let n = self.songs.len();
        let ghost songs = self.songs@;
        let ghost pred = |i: usize| shown_for(songs[i as int], query@);
        let ghost all = Seq::new(songs.len(), |i: int| i as usize);
        let empty_query = query.unicode_len() == 0;
        let lower = to_lowercase(query);
        let mut r: Vec<usize> = Vec::new();
        let mut i: usize = 0;
        proof {
            assert(all.take(0) =~= Seq::<usize>::empty());
            reveal(Seq::filter);
        }
        while i < n
            invariant
                n == songs.len(),
                songs == self.songs@,
                i <= n,
                all == Seq::new(songs.len(), |i: int| i as usize),
                pred == (|i: usize| shown_for(songs[i as int], query@)),
                empty_query == (query@.len() == 0),
                lower@ == lowercase(query@),
                r@ == all.take(i as int).filter(pred),
            decreases n - i,
        {
            proof {
                assert(all.take(i + 1) =~= all.take(i as int).push(all[i as int]));
                all.take(i as int).lemma_filter_push(all[i as int], pred);
                assert(all[i as int] == i);
            }
            let shown = empty_query || song_matches(&self.songs[i], lower.as_str());
            if shown {
                r.push(i);
            }
            i = i + 1;
        }
        proof {
            assert(all.take(n as int) =~= all);
        }
        r
    }
}

/// The status line after the song titled `title` started.
pub open spec fn now_playing_text(title: Seq<char>) -> Seq<char> {
    "Now playing: "@ + title
}

/// The status line after the worker reported the error `msg`.
pub open spec fn error_text(msg: Seq<char>) -> Seq<char> {
    "Error: "@ + msg
}

/// "ON" or "OFF".
pub open spec fn on_off(on: bool) -> Seq<char> {
    if on {
        "ON"@
    } else {
        "OFF"@
    }
}

/// The status line after a mode (such as repeat or shuffle) was switched.
pub open spec fn mode_text(label: Seq<char>, on: bool) -> Seq<char> {
    label + ": "@ + on_off(on)
}

/// The status line after `count` files were added.
pub open spec fn added_text(count: nat) -> Seq<char> {
    "Added "@ + decimal(count) + " songs"@
}

/// The status line after the previous session's folder gave `count` songs.
pub open spec fn session_text(count: nat) -> Seq<char> {
    "Loaded "@ + decimal(count) + " songs from last session"@
}

/// The status line after the song titled `title` started.
pub fn now_playing_message(title: &str) -> (r: String)
    ensures
        r@ == now_playing_text(title@),
{
    let mut r = String::from_str("Now playing: ");
    r.append(title);
    r
}

/// The status line after the worker reported the error `msg`.
pub fn error_message(msg: &str) -> (r: String)
    ensures
        r@ == error_text(msg@),
{
    let mut r = String::from_str("Error: ");
    r.append(msg);
    r
}

/// The status line after the mode named `label` was switched on or off.
pub fn mode_message(label: &str, on: bool) -> (r: String)
    ensures
        r@ == mode_text(label@, on),
{
    let mut r = String::from_str(label);
    r.append(": ");
    if on {
        r.append("ON");
    } else {
        r.append("OFF");
    }
    r
}

/// The status line after `count` files were added.
pub fn added_message(count: usize) -> (r: String)
    ensures
        r@ == added_text(count as nat),
{
    let mut r = String::from_str("Added ");
    push_decimal(&mut r, count as u64);
    r.append(" songs");
    r
}

/// The status line after the previous session's folder gave `count` songs.
pub fn session_message(count: usize) -> (r: String)
    ensures
        r@ == session_text(count as nat),
{
    let mut r = String::from_str("Loaded ");
    push_decimal(&mut r, count as u64);
    r.append(" songs from last session");
    r
}

/// The playlist a folder load ends with: the one the folder gave when it
/// holds any song, and else the one there was.
pub open spec fn playlist_after_folder_load(current: Playlist, found: Playlist) -> Playlist {
    if found.songs@.len() > 0 {
        found
    } else {
        current
    }
}

/// Takes the playlist that loading a folder gave in place of `current`, but
/// only when it holds songs; tells whether it did.
pub fn adopt_folder_playlist(current: &mut Playlist, found: Playlist) -> (adopted: bool)
    ensures
        adopted == (found.songs@.len() > 0),
        *final(current) == playlist_after_folder_load(*old(current), found),
{
    if found.songs.len() > 0 {
        *current = found;
        true
    } else {
        false
    }
}

/// The status line after a folder, shown as `folder`, gave `count` songs.
pub open spec fn folder_loaded_text(count: nat, folder: Seq<char>) -> Seq<char> {
    "Loaded "@ + decimal(count) + " songs from "@ + folder
}

/// The status line after a folder, shown as `folder`, gave `count` songs.
pub fn folder_loaded_message(count: usize, folder: &str) -> (r: String)
    ensures
        r@ == folder_loaded_text(count as nat, folder@),
{
    let mut r = String::from_str("Loaded ");
    push_decimal(&mut r, count as u64);
    r.append(" songs from ");
    r.append(folder);
    r
}

/// The status line after a folder gave no song.
pub fn no_music_message() -> (r: String)
    ensures
        r@ == "No music files found in selected folder"@,
{
    String::from_str("No music files found in selected folder")
}

/// The status line after the play/pause control paused the song.
pub fn paused_message() -> (r: String)
    ensures
        r@ == "Paused"@,
{
    String::from_str("Paused")
}

/// The status line after the play/pause control resumed the song.
pub fn resumed_message() -> (r: String)
    ensures
        r@ == "Resumed"@,
{
    String::from_str("Resumed")
}

/// The status line after the settings were changed and saved.
pub fn saved_message() -> (r: String)
    ensures
        r@ == "Preferences saved!"@,
{
    String::from_str("Preferences saved!")
}

/// The status line when the player starts.
pub fn welcome_message() -> (r: String)
    ensures
        r@ == "Welcome to RustMusic!"@,
{
    String::from_str("Welcome to RustMusic!")
}

/// The play/pause control undoes itself: pressing it twice while a song is
/// loaded gives back the flags it started from, and its second choice is the
/// opposite of its first.
pub proof fn lemma_toggle_twice(f: PlayerFlags, has_current: bool)
    requires
        f.is_playing,
    ensures
        ({
            let a1 = toggle_choice(f, has_current);
            let f1 = flags_after_toggle(f, a1);
            let a2 = toggle_choice(f1, has_current);
            &&& flags_after_toggle(f1, a2) == f
            &&& (a1 == ToggleAction::Pause <==> a2 == ToggleAction::Resume)
        }),
{
}

/// With nothing loaded, the control starts the current song if there is one,
/// and otherwise does nothing.
pub proof fn lemma_toggle_starts_current(f: PlayerFlags, has_current: bool)
    requires
        !f.is_playing,
    ensures
        toggle_choice(f, has_current) == (if has_current {
            ToggleAction::PlayCurrent
        } else {
            ToggleAction::Nothing
        }),
        has_current ==> flags_after_toggle(f, toggle_choice(f, has_current)) == (PlayerFlags {
            is_playing: true,
            is_paused: false,
        }),
{
}

/// An empty search shows every song, in playlist order.
pub proof fn lemma_empty_search_shows_all(songs: Seq<Song>)
    ensures
        shown_positions(songs, Seq::<char>::empty()) == Seq::new(songs.len(), |i: int| i as usize),
{
    let all = Seq::new(songs.len(), |i: int| i as usize);
    let pred = |i: usize| shown_for(songs[i as int], Seq::<char>::empty());
    lemma_filter_all_true(all, pred);
}

/// Filtering keeps a sequence whole when every element passes.
proof fn lemma_filter_all_true(s: Seq<usize>, pred: spec_fn(usize) -> bool)
    requires
        forall|i: int| 0 <= i < s.len() ==> pred(#[trigger] s[i]),
    ensures
        s.filter(pred) == s,
    decreases s.len(),
{
    reveal(Seq::filter);
    if s.len() > 0 {
        lemma_filter_all_true(s.drop_last(), pred);
        assert(s.drop_last().push(s.last()) =~= s);
    }
}

/// A search shows exactly the songs that match it: each position it gives
/// is a song of the playlist that is shown for the query, and each such song
/// is among the positions.
pub proof fn lemma_search_shows_exactly_matches(songs: Seq<Song>, query: Seq<char>)
    requires
        songs.len() <= usize::MAX,
    ensures
        forall|k: int|
            0 <= k < shown_positions(songs, query).len() ==> {
                let i = #[trigger] shown_positions(songs, query)[k];
                &&& i < songs.len()
                &&& shown_for(songs[i as int], query)
            },
        forall|i: usize|
            i < songs.len() && shown_for(songs[i as int], query) ==> #[trigger] shown_positions(
                songs,
                query,
            ).contains(i),
{
    let all = Seq::new(songs.len(), |i: int| i as usize);
    let pred = |i: usize| shown_for(songs[i as int], query);
    assert forall|k: int| 0 <= k < shown_positions(songs, query).len() implies {
        let i = #[trigger] shown_positions(songs, query)[k];
        &&& i < songs.len()
        &&& shown_for(songs[i as int], query)
    } by {
        let i = shown_positions(songs, query)[k];
        all.lemma_filter_pred(pred, k);
        assert(all.filter(pred).contains(i));
        all.lemma_filter_contains_rev(pred, i);
        let j = choose|j: int| 0 <= j < all.len() && all[j] == i;
        assert(all[j] == j as usize);
    }
    assert forall|i: usize| i < songs.len() && shown_for(songs[i as int], query) implies #[trigger] shown_positions(
        songs,
        query,
    ).contains(i) by {
        assert(all[i as int] == i);
        all.lemma_filter_contains(pred, i as int);
    }
}

/// A finished song is followed by the next one whenever there is a song after
/// it, wherever the cursor stands, the first song included; with repeat on,
/// any non-empty playlist goes on; an empty playlist, or the last song without
/// repeat, or no cursor without repeat, stops.
pub proof fn lemma_finish_follows_when_a_song_remains(p: Playlist, i: usize)
    ensures
        p.songs@.len() > 0 && p.current_index == Some(i) && i + 1 < p.songs@.len()
            ==> advances_after_finish(p),
        p.songs@.len() > 0 && p.repeat ==> advances_after_finish(p),
        p.songs@.len() == 0 ==> !advances_after_finish(p),
        !p.repeat && p.current_index == Some(i) && i + 1 >= p.songs@.len()
            ==> !advances_after_finish(p),
        !p.repeat && p.current_index is None ==> !advances_after_finish(p),
{
}

/// The play/pause control pauses a song that plays and resumes a paused one,
/// whether or not the playlist has a current song; only with nothing loaded
/// does the current song matter.
pub proof fn lemma_toggle_pauses_and_resumes(f: PlayerFlags, has_current: bool)
    ensures
        f.is_playing && !f.is_paused ==> toggle_choice(f, has_current) == ToggleAction::Pause
            && flags_after_toggle(f, toggle_choice(f, has_current)) == (PlayerFlags {
            is_playing: true,
            is_paused: true,
        }),
        f.is_playing && f.is_paused ==> toggle_choice(f, has_current) == ToggleAction::Resume
            && flags_after_toggle(f, toggle_choice(f, has_current)) == (PlayerFlags {
            is_playing: true,
            is_paused: false,
        }),
{
}

/// How the worker's reports change the flags: playing means loaded and not
/// paused, paused keeps the song loaded, stopped and finished leave nothing
/// loaded, and an error changes nothing.
pub proof fn lemma_status_effects(f: PlayerFlags, msg: Seq<char>)
    ensures
        flags_after_status(f, StatusView::Playing).is_playing,
        !flags_after_status(f, StatusView::Playing).is_paused,
        flags_after_status(f, StatusView::Paused).is_paused,
        flags_after_status(f, StatusView::Paused).is_playing == f.is_playing,
        !flags_after_status(f, StatusView::Stopped).is_playing,
        !flags_after_status(f, StatusView::Stopped).is_paused,
        !flags_after_status(f, StatusView::Finished).is_playing,
        !flags_after_status(f, StatusView::Finished).is_paused,
        flags_after_status(f, StatusView::Error(msg)) == f,
{
}

} // verus!
