//! The playlist: an ordered list of songs with a cursor on the current one,
//! moved by next, previous, shuffle and repeat.

use vstd::prelude::*;

use rand::Rng;

use crate::paths::{extension, file_stem, lowercase, path_extension, path_file_stem, to_lowercase};
use crate::text::str_equal;

verus! {

/// A song of the playlist. `path` is the file it is played from, written as text.
#[derive(Debug, Clone)]
pub struct Song {
    pub path: String,
    pub title: String,
    /// The song's length in whole seconds (0 where it is not known).
    pub duration_secs: u64,
    pub artist: Option<String>,
    pub album: Option<String>,
}

/// An ordered list of songs and the position of the one being played.
#[derive(Debug, Clone)]
pub struct Playlist {
    pub name: String,
    pub songs: Vec<Song>,
    pub current_index: Option<usize>,
    pub shuffle: bool,
    pub repeat: bool,
}

/// The title given to a song whose file has the stem `stem`.
pub open spec fn title_from_stem(stem: Option<Seq<char>>) -> Seq<char> {
    match stem {
        Some(s) => s,
        None => "Unknown"@,
    }
}

/// `song` is the entry that adding the file at `path` creates.
pub open spec fn is_song_for_path(song: Song, path: Seq<char>) -> bool {
    &&& song.path@ == path
    &&& song.title@ == title_from_stem(path_file_stem(path))
    &&& song.duration_secs == 0
    &&& song.artist is None
    &&& song.album is None
}

/// The file extensions, in lower case, of the audio formats that are played.
pub open spec fn audio_extensions() -> Seq<Seq<char>> {
    seq!["mp3"@, "wav"@, "flac"@, "ogg"@, "m4a"@, "aac"@, "wma"@]
}

/// The file at `path` is taken as audio: its extension, in lower case, is
/// one of the audio extensions.
pub open spec fn is_audio_path(path: Seq<char>) -> bool {
    match path_extension(path) {
        Some(e) => audio_extensions().contains(lowercase(e)),
        None => false,
    }
}

/// The paths of `paths` that are taken as audio, in their order.
pub open spec fn audio_paths(paths: Seq<String>) -> Seq<String> {
    paths.filter(|p: String| is_audio_path(p@))
}

/// The song at position `idx`, if there is a position and a song there.
pub open spec fn song_at(songs: Seq<Song>, idx: Option<usize>) -> Option<Song> {
    match idx {
        Some(i) => if i < songs.len() {
            Some(songs[i as int])
        } else {
            None
        },
        None => None,
    }
}

/// `r` refers to the song `expected` (or to none when `expected` is none).
pub open spec fn refers_to(r: Option<&Song>, expected: Option<Song>) -> bool {
    match r {
        Some(s) => expected == Some(*s),
        None => expected is None,
    }
}

/// Where "next" moves the cursor: `None` when it does not move it.
/// `pick` is the position drawn at random in shuffle mode.
pub open spec fn next_index(
    cur: Option<usize>,
    len: nat,
    shuffle: bool,
    repeat: bool,
    pick: usize,
) -> Option<usize> {
    if len == 0 {
        None
    } else {
        match cur {
            Some(i) => if shuffle {
                Some(pick)
            } else if i + 1 < len {
                Some((i + 1) as usize)
            } else if repeat {
                Some(0)
            } else {
                None
            },
            None => Some(0),
        }
    }
}

/// Where "previous" moves the cursor: `None` when it does not move it.
pub open spec fn previous_index(cur: Option<usize>, len: nat, repeat: bool) -> Option<usize> {
    if len == 0 {
        None
    } else {
        match cur {
            Some(i) => if i > 0 {
                Some((i - 1) as usize)
            } else if repeat {
                Some((len - 1) as usize)
            } else {
                None
            },
            None => Some(0),
        }
    }
}

/// The cursor after the song at `removed` was taken out, leaving `new_len` songs.
/// A cursor at or after the removed song moves back by one; a cursor on the
/// first song stays on the first song while any is left.
pub open spec fn index_after_removal(cur: Option<usize>, removed: usize, new_len: nat) -> Option<usize> {
    match cur {
        Some(c) => if c >= removed {
            if c > 0 {
                Some((c - 1) as usize)
            } else if new_len == 0 {
                None
            } else {
                Some(0)
            }
        } else {
            Some(c)
        },
        None => None,
    }
}

/// The sum of the lengths of `songs`, in seconds.
pub open spec fn total_secs(songs: Seq<Song>) -> int
    decreases songs.len(),
{
    if songs.len() == 0 {
        0
    } else {
        total_secs(songs.drop_last()) + songs.last().duration_secs
    }
}

/// The title of a song whose file has the stem `stem`: the stem, or
/// "Unknown" where the path has none.
pub fn song_title(stem: Option<String>) -> (t: String)
    ensures
        t@ == title_from_stem(stem.deep_view()),
{
    match stem {
        Some(s) => s,
        None => {
            proof {
                reveal_strlit("Unknown");
            }
            String::from_str("Unknown")
        },
    }
}

/// Whether `lower` is the extension of one of the audio formats that are played.
pub fn is_audio_extension(lower: &str) -> (r: bool)
    ensures
        r == audio_extensions().contains(lower@),
{
    let ghost exts = audio_extensions();
    let found = str_equal(lower, "mp3") || str_equal(lower, "wav") || str_equal(lower, "flac")
        || str_equal(lower, "ogg") || str_equal(lower, "m4a") || str_equal(lower, "aac")
        || str_equal(lower, "wma");
    proof {
        assert(exts[0] == "mp3"@);
        assert(exts[1] == "wav"@);
        assert(exts[2] == "flac"@);
        assert(exts[3] == "ogg"@);
        assert(exts[4] == "m4a"@);
        assert(exts[5] == "aac"@);
        assert(exts[6] == "wma"@);
        if !found {
            assert forall|i: int| 0 <= i < exts.len() implies exts[i] != lower@ by {}
        }
    }
    found
}

/// Whether the file at `path` is taken as audio, by its extension in any case.
pub fn is_audio_file(path: &str) -> (r: bool)
    ensures
        r == is_audio_path(path@),
{
    match extension(path) {
        Some(ext) => {
            let lower = to_lowercase(ext.as_str());
            is_audio_extension(lower.as_str())
        },
        None => false,
    }
}

/// Draws a position below `len` with `rand::Rng::gen_range` on `rand::thread_rng`.
/// The claim is only that the position is below `len`; which one comes out
/// is left to chance.
#[verifier::external_body]
fn random_index(len: usize) -> (r: usize)
    requires
        len > 0,
    ensures
        r < len,
{
    rand::thread_rng().gen_range(0..len)
}

impl Playlist {
    /// Every operation keeps the cursor on a song, if it is set at all.
    pub open spec fn wf(&self) -> bool {
        self.current_index matches Some(i) ==> i < self.songs.len()
    }

    /// The song under the cursor.
    pub open spec fn current_song(&self) -> Option<Song> {
        song_at(self.songs@, self.current_index)
    }

    /// An empty playlist of the given name, without shuffle or repeat.
    pub fn new(name: &str) -> (p: Playlist)
        ensures
            p.name@ == name@,
            p.songs@.len() == 0,
            p.current_index is None,
            !p.shuffle,
            !p.repeat,
            p.wf(),
    {
        Playlist {
            name: String::from_str(name),
            songs: Vec::new(),
            current_index: None,
            shuffle: false,
            repeat: false,
        }
    }

    /// Appends the song played from `path`, titled by the file's stem.
    pub fn add_song(&mut self, path: String)
        ensures
            final(self).songs@.len() == old(self).songs@.len() + 1,
            final(self).songs@.drop_last() == old(self).songs@,
            is_song_for_path(final(self).songs@.last(), path@),
            final(self).current_index == old(self).current_index,
            final(self).name == old(self).name,
            final(self).shuffle == old(self).shuffle,
            final(self).repeat == old(self).repeat,
            old(self).wf() ==> final(self).wf(),
    {
        let stem = file_stem(path.as_str());
        let title = song_title(stem);
        self.songs.push(Song { path, title, duration_secs: 0, artist: None, album: None });
        proof {
            assert(final(self).songs@.drop_last() =~= old(self).songs@);
        }
    }

    /// Appends, in their order, a song for each of `paths` that is taken as audio.
    pub fn add_audio_files(&mut self, paths: &Vec<String>)
        ensures
            final(self).songs@.len() == old(self).songs@.len() + audio_paths(paths@).len(),
            forall|k: int|
                0 <= k < old(self).songs@.len() ==> #[trigger] final(self).songs@[k]
                    == old(self).songs@[k],
            forall|k: int|
                0 <= k < audio_paths(paths@).len() ==> is_song_for_path(
                    #[trigger] final(self).songs@[old(self).songs@.len() + k],
                    audio_paths(paths@)[k]@,
                ),
            final(self).current_index == old(self).current_index,
            final(self).name == old(self).name,
            final(self).shuffle == old(self).shuffle,
            final(self).repeat == old(self).repeat,
            old(self).wf() ==> final(self).wf(),
    {
        let ghost pred = |p: String| is_audio_path(p@);
        let ghost start = self.songs@;
        let n = paths.len();
        let mut i: usize = 0;
        proof {
            assert(paths@.take(0) =~= Seq::<String>::empty());
            reveal(Seq::filter);
        }
        while i < n
            invariant
                n == paths@.len(),
                i <= n,
                self.songs@.len() == start.len() + paths@.take(i as int).filter(pred).len(),
                forall|k: int| 0 <= k < start.len() ==> #[trigger] self.songs@[k] == start[k],
                forall|k: int|
                    0 <= k < paths@.take(i as int).filter(pred).len() ==> is_song_for_path(
                        #[trigger] self.songs@[start.len() + k],
                        paths@.take(i as int).filter(pred)[k]@,
                    ),
                self.current_index == old(self).current_index,
                self.name == old(self).name,
                self.shuffle == old(self).shuffle,
                self.repeat == old(self).repeat,
                start == old(self).songs@,
                pred == (|p: String| is_audio_path(p@)),
            decreases n - i,
        {
            proof {
                assert(paths@.take(i + 1) =~= paths@.take(i as int).push(paths@[i as int]));
                paths@.take(i as int).lemma_filter_push(paths@[i as int], pred);
            }
            let ghost prev = self.songs@;
            if is_audio_file(paths[i].as_str()) {
                let p = paths[i].clone();
                self.add_song(p);
                proof {
                    assert forall|k: int| 0 <= k < prev.len() implies #[trigger] self.songs@[k]
                        == prev[k] by {
                        assert(self.songs@.drop_last()[k] == prev[k]);
                    }
                }
            }
            i = i + 1;
        }
        proof {
            assert(paths@.take(n as int) =~= paths@);
        }
    }

    /// Takes out the song at `index`, if there is one, keeping the cursor on
    /// the song it was on, or moving it back when that song is the one taken out.
    pub fn remove_song(&mut self, index: usize)
        ensures
            index < old(self).songs@.len() ==> {
                &&& final(self).songs@ == old(self).songs@.remove(index as int)
                &&& final(self).current_index == index_after_removal(
                    old(self).current_index,
                    index,
                    final(self).songs@.len(),
                )
            },
            index >= old(self).songs@.len() ==> {
                &&& final(self).songs@ == old(self).songs@
                &&& final(self).current_index == old(self).current_index
            },
            final(self).name == old(self).name,
            final(self).shuffle == old(self).shuffle,
            final(self).repeat == old(self).repeat,
            old(self).wf() ==> final(self).wf(),
    {
        if index < self.songs.len() {
            self.songs.remove(index);
            if let Some(current) = self.current_index {
                if current >= index {
                    if current > 0 {
                        self.current_index = Some(current - 1);
                    } else {
                        self.current_index = if self.songs.len() == 0 {
                            None
                        } else {
                            Some(0)
                        };
                    }
                }
            }
        }
    }

    /// The song under the cursor.
    pub fn get_current_song(&self) -> (r: Option<&Song>)
        ensures
            refers_to(r, self.current_song()),
    {
        match self.current_index {
            Some(i) => if i < self.songs.len() {
                Some(&self.songs[i])
            } else {
                None
            },
            None => None,
        }
    }

    /// Moves the cursor to the next song, where `pick` is the position to
    /// jump to in shuffle mode, and gives the song it lands on.
    pub fn next_with_pick(&mut self, pick: usize) -> (r: Option<&Song>)
        requires
            old(self).shuffle && old(self).songs@.len() > 0 && old(self).current_index is Some
                ==> pick < old(self).songs@.len(),
        ensures
            final(self).songs@ == old(self).songs@,
            final(self).name == old(self).name,
            final(self).shuffle == old(self).shuffle,
            final(self).repeat == old(self).repeat,
            ({
                let n = next_index(
                    old(self).current_index,
                    old(self).songs@.len(),
                    old(self).shuffle,
                    old(self).repeat,
                    pick,
                );
                match n {
                    Some(j) => final(self).current_index == Some(j) && refers_to(
                        r,
                        song_at(old(self).songs@, Some(j)),
                    ),
                    None => final(self).current_index == old(self).current_index && r is None,
                }
            }),
            old(self).wf() ==> final(self).wf(),
    {
        if self.songs.len() == 0 {
            return None;
        }
        match self.current_index {
            Some(i) => {
                if self.shuffle {
                    self.current_index = Some(pick);
                } else if i < self.songs.len() - 1 {
                    self.current_index = Some(i + 1);
                } else if self.repeat {
                    self.current_index = Some(0);
                } else {
                    return None;
                }
            },
            None => {
                self.current_index = Some(0);
            },
        }
        self.get_current_song()
    }

    /// Moves the cursor to the next song and gives the song it lands on. In
    /// shuffle mode the next position is drawn at random.
    pub fn next(&mut self) -> (r: Option<&Song>)
        ensures
            final(self).songs@ == old(self).songs@,
            final(self).name == old(self).name,
            final(self).shuffle == old(self).shuffle,
            final(self).repeat == old(self).repeat,
            !(old(self).shuffle && old(self).songs@.len() > 0 && old(self).current_index is Some)
                ==> ({
                let n = next_index(
                    old(self).current_index,
                    old(self).songs@.len(),
                    old(self).shuffle,
                    old(self).repeat,
                    0,
                );
                match n {
                    Some(j) => final(self).current_index == Some(j) && refers_to(
                        r,
                        song_at(old(self).songs@, Some(j)),
                    ),
                    None => final(self).current_index == old(self).current_index && r is None,
                }
            }),
            old(self).shuffle && old(self).songs@.len() > 0 && old(self).current_index is Some
                ==> (final(self).current_index matches Some(j) && j < old(self).songs@.len()
                && refers_to(r, song_at(old(self).songs@, Some(j)))),
            old(self).wf() ==> final(self).wf(),
    {
        let pick = if self.shuffle && self.songs.len() > 0 && self.current_index.is_some() {
            random_index(self.songs.len())
        } else {
            0
        };
        self.next_with_pick(pick)
    }

    /// Moves the cursor to the previous song and gives the song it lands on.
    pub fn previous(&mut self) -> (r: Option<&Song>)
        ensures
            final(self).songs@ == old(self).songs@,
            final(self).name == old(self).name,
            final(self).shuffle == old(self).shuffle,
            final(self).repeat == old(self).repeat,
            ({
                let n = previous_index(
                    old(self).current_index,
                    old(self).songs@.len(),
                    old(self).repeat,
                );
                match n {
                    Some(j) => final(self).current_index == Some(j) && refers_to(
                        r,
                        song_at(old(self).songs@, Some(j)),
                    ),
                    None => final(self).current_index == old(self).current_index && r is None,
                }
            }),
            old(self).wf() ==> final(self).wf(),
    {
        if self.songs.len() == 0 {
            return None;
        }
        match self.current_index {
            Some(i) => {
                if i > 0 {
                    self.current_index = Some(i - 1);
                } else if self.repeat {
                    self.current_index = Some(self.songs.len() - 1);
                } else {
                    return None;
                }
            },
            None => {
                self.current_index = Some(0);
            },
        }
        self.get_current_song()
    }

    /// Puts the cursor on the song at `index` and gives it, if there is one.
    pub fn play_at(&mut self, index: usize) -> (r: Option<&Song>)
        ensures
            final(self).songs@ == old(self).songs@,
            final(self).name == old(self).name,
            final(self).shuffle == old(self).shuffle,
            final(self).repeat == old(self).repeat,
            index < old(self).songs@.len() ==> final(self).current_index == Some(index)
                && refers_to(r, Some(old(self).songs@[index as int])),
            index >= old(self).songs@.len() ==> final(self).current_index
                == old(self).current_index && r is None,
            old(self).wf() ==> final(self).wf(),
    {
        if index < self.songs.len() {
            self.current_index = Some(index);
            self.get_current_song()
        } else {
            None
        }
    }

    /// Takes out every song and unsets the cursor.
    pub fn clear(&mut self)
        ensures
            final(self).songs@.len() == 0,
            final(self).current_index is None,
            final(self).name == old(self).name,
            final(self).shuffle == old(self).shuffle,
            final(self).repeat == old(self).repeat,
            final(self).wf(),
    {
        self.songs.clear();
        self.current_index = None;
    }

    /// The sum of the songs' lengths, in seconds.
    pub fn total_duration(&self) -> (t: u128)
        ensures
            t == total_secs(self.songs@),
    {
        let n = self.songs.len();
        let mut total: u128 = 0;
        let mut i: usize = 0;
        proof {
            assert(self.songs@.take(0) =~= Seq::<Song>::empty());
        }
        while i < n
            invariant
                n == self.songs@.len(),
                i <= n,
                total == total_secs(self.songs@.take(i as int)),
                total <= i * (u64::MAX as int),
            decreases n - i,
        {
            proof {
                assert(self.songs@.take(i + 1).drop_last() =~= self.songs@.take(i as int));
                assert((i + 1) * (u64::MAX as int) == i * (u64::MAX as int) + u64::MAX) by (nonlinear_arith);
                assert((i + 1) * (u64::MAX as int) <= (usize::MAX as int) * (u64::MAX as int))
                    by (nonlinear_arith)
                    requires
                        i < n,
                        n <= usize::MAX,
                ;
                assert((usize::MAX as int) * (u64::MAX as int) < u128::MAX) by (nonlinear_arith)
                    requires
                        usize::MAX <= u64::MAX,
                ;
            }
            total = total + self.songs[i].duration_secs as u128;
            i = i + 1;
        }
        proof {
            assert(self.songs@.take(n as int) =~= self.songs@);
        }
        total
    }

    /// Whether the playlist has no song.
    pub fn is_empty(&self) -> (r: bool)
        ensures
            r == (self.songs@.len() == 0),
    {
        self.songs.len() == 0
    }

    /// The number of songs.
    pub fn len(&self) -> (r: usize)
        ensures
            r == self.songs@.len(),
    {
        self.songs.len()
    }
}

/// The cursor after "next" was asked `steps` times without shuffle.
pub open spec fn advance(cur: Option<usize>, len: nat, repeat: bool, steps: nat) -> Option<usize>
    decreases steps,
{
    if steps == 0 {
        cur
    } else {
        let before = advance(cur, len, repeat, (steps - 1) as nat);
        match next_index(before, len, false, repeat, 0) {
            Some(j) => Some(j),
            None => before,
        }
    }
}

/// Without shuffle, "previous" takes the cursor back to where it was
/// before a "next" that moved it.
pub proof fn lemma_previous_undoes_next(cur: usize, len: nat, repeat: bool, pick: usize)
    requires
        cur < len,
        len <= usize::MAX,
    ensures
        next_index(Some(cur), len, false, repeat, pick) matches Some(j) ==> previous_index(
            Some(j),
            len,
            repeat,
        ) == Some(cur),
{
}

/// "Next" takes the cursor back to where it was before a "previous" that
/// moved it, when shuffle is off.
pub proof fn lemma_next_undoes_previous(cur: usize, len: nat, repeat: bool, pick: usize)
    requires
        cur < len,
        len <= usize::MAX,
    ensures
        previous_index(Some(cur), len, repeat) matches Some(j) ==> next_index(
            Some(j),
            len,
            false,
            repeat,
            pick,
        ) == Some(cur),
{
}

/// With repeat on and shuffle off, asking for the next song `steps` times
/// walks the playlist round: the cursor lands `steps` places further on,
/// counted modulo the number of songs.
pub proof fn lemma_repeat_walks_round(cur: usize, len: nat, steps: nat)
    requires
        cur < len,
        len <= usize::MAX,
    ensures
        advance(Some(cur), len, true, steps) == Some(((cur + steps) % (len as int)) as usize),
    decreases steps,
{
    if steps > 0 {
        lemma_repeat_walks_round(cur, len, (steps - 1) as nat);
        let p = (cur + steps - 1) % (len as int);
        assert(0 <= p < len) by (nonlinear_arith)
            requires
                len > 0,
                p == (cur + steps - 1) % (len as int),
        ;
        if p + 1 < len {
            assert((cur + steps) % (len as int) == p + 1) by (nonlinear_arith)
                requires
                    len > 0,
                    p == (cur + steps - 1) % (len as int),
                    p + 1 < len,
                    cur + steps - 1 >= 0,
            {
                vstd::arithmetic::div_mod::lemma_fundamental_div_mod(cur + steps - 1, len as int);
                vstd::arithmetic::div_mod::lemma_fundamental_div_mod_converse(
                    cur + steps,
                    len as int,
                    (cur + steps - 1) / (len as int),
                    p + 1,
                );
            }
        } else {
            assert((cur + steps) % (len as int) == 0) by (nonlinear_arith)
                requires
                    len > 0,
                    p == (cur + steps - 1) % (len as int),
                    p + 1 == len,
                    cur + steps - 1 >= 0,
            {
                vstd::arithmetic::div_mod::lemma_fundamental_div_mod(cur + steps - 1, len as int);
                vstd::arithmetic::div_mod::lemma_fundamental_div_mod_converse(
                    cur + steps,
                    len as int,
                    (cur + steps - 1) / (len as int) + 1,
                    0,
                );
            }
        }
    } else {
        assert((cur as int) % (len as int) == cur) by {
            vstd::arithmetic::div_mod::lemma_small_mod(cur as nat, len);
        }
    }
}

/// With repeat on and shuffle off, asking for the next song as many times
/// as there are songs brings the cursor back to where it started.
pub proof fn lemma_repeat_returns_to_start(cur: usize, len: nat)
    requires
        cur < len,
        len <= usize::MAX,
    ensures
        advance(Some(cur), len, true, len) == Some(cur),
{
    lemma_repeat_walks_round(cur, len, len);
    assert((cur + len) % (len as int) == cur) by {
        vstd::arithmetic::div_mod::lemma_mod_add_multiples_vanish(cur as int, len as int);
        vstd::arithmetic::div_mod::lemma_small_mod(cur as nat, len);
    }
}

/// Every way of moving the cursor keeps it on a song: next (for any position
/// drawn in shuffle mode), previous, and taking a song out.
pub proof fn lemma_cursor_stays_on_a_song(
    cur: Option<usize>,
    len: nat,
    shuffle: bool,
    repeat: bool,
    pick: usize,
    removed: usize,
)
    requires
        cur matches Some(i) ==> i < len,
        shuffle ==> pick < len,
        len <= usize::MAX,
    ensures
        next_index(cur, len, shuffle, repeat, pick) matches Some(j) ==> j < len,
        previous_index(cur, len, repeat) matches Some(j) ==> j < len,
        removed < len ==> (index_after_removal(cur, removed, (len - 1) as nat) matches Some(j)
            ==> j < len - 1),
{
}

/// Exactly seven audio formats are recognised: mp3, wav, flac, ogg, m4a, aac
/// and wma. A path whose extension reads as one of them in lower case is audio.
pub proof fn lemma_audio_formats(path: Seq<char>, e: Seq<char>)
    ensures
        audio_extensions().contains("mp3"@),
        audio_extensions().contains("wav"@),
        audio_extensions().contains("flac"@),
        audio_extensions().contains("ogg"@),
        audio_extensions().contains("m4a"@),
        audio_extensions().contains("aac"@),
        audio_extensions().contains("wma"@),
        audio_extensions().len() == 7,
        path_extension(path) == Some(e) ==> (is_audio_path(path) <==> (lowercase(e) == "mp3"@
            || lowercase(e) == "wav"@ || lowercase(e) == "flac"@ || lowercase(e) == "ogg"@
            || lowercase(e) == "m4a"@ || lowercase(e) == "aac"@ || lowercase(e) == "wma"@)),
        path_extension(path) is None ==> !is_audio_path(path),
{
    let x = audio_extensions();
    assert(x[0] == "mp3"@);
    assert(x[1] == "wav"@);
    assert(x[2] == "flac"@);
    assert(x[3] == "ogg"@);
    assert(x[4] == "m4a"@);
    assert(x[5] == "aac"@);
    assert(x[6] == "wma"@);
}

/// Taking out a song other than the current one keeps the cursor on the same
/// song; taking out the current song moves the cursor to the song before it,
/// or to the new first song when it was the first.
pub proof fn lemma_removal_keeps_current_song(songs: Seq<Song>, c: usize, removed: usize)
    requires
        c < songs.len(),
        removed < songs.len(),
        songs.len() <= usize::MAX,
    ensures
        c != removed ==> song_at(
            songs.remove(removed as int),
            index_after_removal(Some(c), removed, (songs.len() - 1) as nat),
        ) == Some(songs[c as int]),
        c < removed ==> index_after_removal(Some(c), removed, (songs.len() - 1) as nat) == Some(c),
        c == removed && c > 0 ==> song_at(
            songs.remove(removed as int),
            index_after_removal(Some(c), removed, (songs.len() - 1) as nat),
        ) == Some(songs[c - 1]),
        c == removed && c == 0 && songs.len() > 1 ==> song_at(
            songs.remove(removed as int),
            index_after_removal(Some(c), removed, (songs.len() - 1) as nat),
        ) == Some(songs[1]),
        c == removed && songs.len() == 1 ==> index_after_removal(
            Some(c),
            removed,
            (songs.len() - 1) as nat,
        ) is None,
        index_after_removal(None, removed, (songs.len() - 1) as nat) is None,
{
}

/// Without shuffle, "next" moves the cursor one song on; past the last song it
/// wraps to the first with repeat and stays without; with no cursor it starts
/// at the first song. "Previous" moves one song back in the same way.
pub proof fn lemma_next_and_previous_move_by_one(i: usize, len: nat, repeat: bool, pick: usize)
    requires
        i < len,
        len <= usize::MAX,
    ensures
        i + 1 < len ==> next_index(Some(i), len, false, repeat, pick) == Some((i + 1) as usize),
        i + 1 == len && repeat ==> next_index(Some(i), len, false, repeat, pick) == Some(0usize),
        i + 1 == len && !repeat ==> next_index(Some(i), len, false, repeat, pick) is None,
        next_index(None, len, false, repeat, pick) == Some(0usize),
        next_index(Some(i), len, true, repeat, pick) == Some(pick),
        next_index(Some(i), 0, false, repeat, pick) is None,
        i > 0 ==> previous_index(Some(i), len, repeat) == Some((i - 1) as usize),
        i == 0 && repeat ==> previous_index(Some(i), len, repeat) == Some((len - 1) as usize),
        i == 0 && !repeat ==> previous_index(Some(i), len, repeat) is None,
        previous_index(None, len, repeat) == Some(0usize),
        previous_index(Some(i), 0, repeat) is None,
{
}

/// A song is titled by its file's stem, and "Unknown" where the path has none.
pub proof fn lemma_title_from_stem(stem: Seq<char>)
    ensures
        title_from_stem(Some(stem)) == stem,
        title_from_stem(None) == "Unknown"@,
{
}

} // verus!
