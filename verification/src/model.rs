//! Songs, playlists, artists, charts and lyrics, and how they are read from the services' answers.
//!
//! The answers name one thing in several ways, so every field has a list of keys that are tried in
//! turn, and an entry that cannot be used is left out without spoiling the rest of the page.
use vstd::prelude::*;
use vstd::string::StringExecFns;
use crate::error::{AppError, ErrorModel};
use crate::json;
use crate::json::Json;
use crate::source::SourceKind;
use crate::text;

verus! {

// ---------------------------------------------------------------------------
// The types
// ---------------------------------------------------------------------------
/// A singer.
#[derive(Debug)]
pub struct Singer {
    pub id: i64,
    pub name: String,
}

/// A song, whatever service it comes from.
#[derive(Debug)]
pub struct Song {
    pub name: String,
    /// What identifies the recording at its service.
    pub hash: String,
    pub album_id: String,
    /// What identifies the recording as part of an album.
    pub album_audio_id: i64,
    pub album_name: String,
    pub singers: Vec<Singer>,
    pub duration_ms: u64,
    pub cover: Option<String>,
    /// The rights mark: 0 for a restricted song; `None` where the service gives none.
    pub privilege: Option<i64>,
    /// The number of the entry in the playlist it was read from.
    pub file_id: Option<i64>,
    /// Further recordings of the song: the quality and what identifies the recording.
    pub extra_hashes: Vec<(String, String)>,
    /// The service the song comes from, which is the one to ask for it.
    pub source: SourceKind,
}

/// A playlist.
#[derive(Debug)]
pub struct Playlist {
    pub id: String,
    /// The number that write operations need.
    pub list_id: Option<i64>,
    pub name: String,
    pub cover: Option<String>,
    pub song_count: u32,
    pub creator: Option<String>,
    pub description: Option<String>,
    /// The user made it.
    pub is_own: bool,
}

/// An artist.
#[derive(Debug)]
pub struct Artist {
    pub id: i64,
    pub name: String,
    pub avatar: Option<String>,
    pub song_count: Option<u32>,
    pub follower_count: Option<u32>,
}

/// A chart.
#[derive(Debug)]
pub struct RankBoard {
    pub id: i64,
    pub name: String,
    pub cover: Option<String>,
    pub update_frequency: Option<String>,
}

/// One line of a lyric.
#[derive(Debug)]
pub struct LyricLine {
    /// When the line begins.
    pub time_ms: u64,
    pub text: String,
    pub translation: Option<String>,
    pub romanization: Option<String>,
}

/// A lyric, its lines by time.
#[derive(Debug)]
pub struct Lyric {
    pub lines: Vec<LyricLine>,
}

// ---------------------------------------------------------------------------
// Their models: the same with texts as character sequences
// ---------------------------------------------------------------------------
#[verifier::ext_equal]
pub struct SingerModel {
    pub id: i64,
    pub name: Seq<char>,
}

#[verifier::ext_equal]
pub struct SongModel {
    pub name: Seq<char>,
    pub hash: Seq<char>,
    pub album_id: Seq<char>,
    pub album_audio_id: i64,
    pub album_name: Seq<char>,
    pub singers: Seq<SingerModel>,
    pub duration_ms: u64,
    pub cover: Option<Seq<char>>,
    pub privilege: Option<i64>,
    pub file_id: Option<i64>,
    pub extra_hashes: Seq<(Seq<char>, Seq<char>)>,
    pub source: SourceKind,
}

#[verifier::ext_equal]
pub struct PlaylistModel {
    pub id: Seq<char>,
    pub list_id: Option<i64>,
    pub name: Seq<char>,
    pub cover: Option<Seq<char>>,
    pub song_count: u32,
    pub creator: Option<Seq<char>>,
    pub description: Option<Seq<char>>,
    pub is_own: bool,
}

#[verifier::ext_equal]
pub struct ArtistModel {
    pub id: i64,
    pub name: Seq<char>,
    pub avatar: Option<Seq<char>>,
    pub song_count: Option<u32>,
    pub follower_count: Option<u32>,
}

#[verifier::ext_equal]
pub struct RankBoardModel {
    pub id: i64,
    pub name: Seq<char>,
    pub cover: Option<Seq<char>>,
    pub update_frequency: Option<Seq<char>>,
}

#[verifier::ext_equal]
pub struct LyricLineModel {
    pub time_ms: u64,
    pub text: Seq<char>,
    pub translation: Option<Seq<char>>,
    pub romanization: Option<Seq<char>>,
}

impl DeepView for Singer {
    type V = SingerModel;

    open spec fn deep_view(&self) -> SingerModel {
        SingerModel { id: self.id, name: self.name@ }
    }
}

impl DeepView for Song {
    type V = SongModel;

    open spec fn deep_view(&self) -> SongModel {
        SongModel {
            name: self.name@,
            hash: self.hash@,
            album_id: self.album_id@,
            album_audio_id: self.album_audio_id,
            album_name: self.album_name@,
            singers: self.singers.deep_view(),
            duration_ms: self.duration_ms,
            cover: self.cover.deep_view(),
            privilege: self.privilege,
            file_id: self.file_id,
            extra_hashes: self.extra_hashes.deep_view(),
            source: self.source,
        }
    }
}

impl DeepView for Playlist {
    type V = PlaylistModel;

    open spec fn deep_view(&self) -> PlaylistModel {
        PlaylistModel {
            id: self.id@,
            list_id: self.list_id,
            name: self.name@,
            cover: self.cover.deep_view(),
            song_count: self.song_count,
            creator: self.creator.deep_view(),
            description: self.description.deep_view(),
            is_own: self.is_own,
        }
    }
}

impl DeepView for Artist {
    type V = ArtistModel;

    open spec fn deep_view(&self) -> ArtistModel {
        ArtistModel {
            id: self.id,
            name: self.name@,
            avatar: self.avatar.deep_view(),
            song_count: self.song_count,
            follower_count: self.follower_count,
        }
    }
}

impl DeepView for RankBoard {
    type V = RankBoardModel;

    open spec fn deep_view(&self) -> RankBoardModel {
        RankBoardModel {
            id: self.id,
            name: self.name@,
            cover: self.cover.deep_view(),
            update_frequency: self.update_frequency.deep_view(),
        }
    }
}

impl DeepView for LyricLine {
    type V = LyricLineModel;

    open spec fn deep_view(&self) -> LyricLineModel {
        LyricLineModel {
            time_ms: self.time_ms,
            text: self.text@,
            translation: self.translation.deep_view(),
            romanization: self.romanization.deep_view(),
        }
    }
}

impl DeepView for Lyric {
    type V = Seq<LyricLineModel>;

    open spec fn deep_view(&self) -> Seq<LyricLineModel> {
        self.lines.deep_view()
    }
}

impl Clone for Singer {
    fn clone(&self) -> (r: Self)
        ensures
            r.deep_view() == self.deep_view(),
    {
        Singer { id: self.id, name: self.name.clone() }
    }
}

/// A copy of a list of singers.
fn copy_singers(singers: &Vec<Singer>) -> (r: Vec<Singer>)
    ensures
        r.deep_view() == singers.deep_view(),
{
    let mut out: Vec<Singer> = Vec::new();
    let mut i: usize = 0;
    while i < singers.len()
        invariant
            i <= singers@.len(),
            out@.len() == i,
            forall|k: int| 0 <= k < i ==> (#[trigger] out@[k]).deep_view() == singers@[k].deep_view(),
        decreases singers@.len() - i,
    {
        out.push(singers[i].clone());
        i += 1;
    }
    proof {
        assert(out.deep_view() =~= singers.deep_view());
    }
    out
}

/// A copy of a list of pairs of texts.
pub(crate) fn copy_pairs(pairs: &Vec<(String, String)>) -> (r: Vec<(String, String)>)
    ensures
        r@ == pairs@,
{
    let mut out: Vec<(String, String)> = Vec::new();
    let mut i: usize = 0;
    while i < pairs.len()
        invariant
            i <= pairs@.len(),
            out@ == pairs@.take(i as int),
        decreases pairs@.len() - i,
    {
        out.push((pairs[i].0.clone(), pairs[i].1.clone()));
        proof {
            assert(out@ =~= pairs@.take(i + 1));
        }
        i += 1;
    }
    proof {
        assert(out@ =~= pairs@);
    }
    out
}

/// A copy of an optional text.
pub(crate) fn copy_text(value: &Option<String>) -> (r: Option<String>)
    ensures
        r == *value,
{
    match value {
        Some(text) => Some(text.clone()),
        None => None,
    }
}

impl Clone for Song {
    fn clone(&self) -> (r: Self)
        ensures
            r.deep_view() == self.deep_view(),
    {
        let r = Song {
            name: self.name.clone(),
            hash: self.hash.clone(),
            album_id: self.album_id.clone(),
            album_audio_id: self.album_audio_id,
            album_name: self.album_name.clone(),
            singers: copy_singers(&self.singers),
            duration_ms: self.duration_ms,
            cover: copy_text(&self.cover),
            privilege: self.privilege,
            file_id: self.file_id,
            extra_hashes: copy_pairs(&self.extra_hashes),
            source: self.source,
        };
        proof {
            assert(r.extra_hashes.deep_view() =~= self.extra_hashes.deep_view());
        }
        r
    }
}

impl Clone for Playlist {
    fn clone(&self) -> (r: Self)
        ensures
            r.deep_view() == self.deep_view(),
    {
        Playlist {
            id: self.id.clone(),
            list_id: self.list_id,
            name: self.name.clone(),
            cover: copy_text(&self.cover),
            song_count: self.song_count,
            creator: copy_text(&self.creator),
            description: copy_text(&self.description),
            is_own: self.is_own,
        }
    }
}

impl Clone for Artist {
    fn clone(&self) -> (r: Self)
        ensures
            r.deep_view() == self.deep_view(),
    {
        Artist {
            id: self.id,
            name: self.name.clone(),
            avatar: copy_text(&self.avatar),
            song_count: self.song_count,
            follower_count: self.follower_count,
        }
    }
}

impl Clone for RankBoard {
    fn clone(&self) -> (r: Self)
        ensures
            r.deep_view() == self.deep_view(),
    {
        RankBoard {
            id: self.id,
            name: self.name.clone(),
            cover: copy_text(&self.cover),
            update_frequency: copy_text(&self.update_frequency),
        }
    }
}

/// A copy of a list of songs.
pub(crate) fn copy_songs(songs: &[Song]) -> (r: Vec<Song>)
    ensures
        r.deep_view() == songs.deep_view(),
{
    let mut out: Vec<Song> = Vec::new();
    let mut i: usize = 0;
    while i < songs.len()
        invariant
            i <= songs@.len(),
            out@.len() == i,
            forall|k: int| 0 <= k < i ==> (#[trigger] out@[k]).deep_view() == songs@[k].deep_view(),
        decreases songs@.len() - i,
    {
        out.push(songs[i].clone());
        i += 1;
    }
    proof {
        assert(out.deep_view() =~= songs.deep_view());
    }
    out
}

impl Default for Song {
    fn default() -> (r: Self)
        ensures
            r.deep_view() == (SongModel {
                name: Seq::empty(),
                hash: Seq::empty(),
                album_id: Seq::empty(),
                album_audio_id: 0,
                album_name: Seq::empty(),
                singers: Seq::empty(),
                duration_ms: 0,
                cover: None,
                privilege: None,
                file_id: None,
                extra_hashes: Seq::empty(),
                source: SourceKind::Kugou,
            }),
    {
        let r = Song {
            name: String::new(),
            hash: String::new(),
            album_id: String::new(),
            album_audio_id: 0,
            album_name: String::new(),
            singers: Vec::new(),
            duration_ms: 0,
            cover: None,
            privilege: None,
            file_id: None,
            extra_hashes: Vec::new(),
            source: SourceKind::Kugou,
        };
        proof {
            assert(r.singers.deep_view() =~= Seq::<SingerModel>::empty());
            assert(r.extra_hashes.deep_view() =~= Seq::<(Seq<char>, Seq<char>)>::empty());
        }
        r
    }
}

// ---------------------------------------------------------------------------
// Songs
// ---------------------------------------------------------------------------
/// The names of singers.
pub open spec fn singer_names(singers: Seq<SingerModel>) -> Seq<Seq<char>> {
    singers.map_values(|s: SingerModel| s.name)
}

/// The names of the singers in one text.
pub open spec fn singers_text(singers: Seq<SingerModel>) -> Seq<char> {
    if singers.len() == 0 {
        "未知歌手"@
    } else {
        text::joined(singer_names(singers), "、"@)
    }
}

/// A length of time as `mm:ss`, or as `h:mm:ss` from one hour on.
pub open spec fn clock_text(milliseconds: nat) -> Seq<char> {
    let seconds = milliseconds / 1000;
    let tail = text::two_digits((seconds / 60) % 60) + seq![':'] + text::two_digits(seconds % 60);
    if seconds >= 3600 {
        text::decimal(seconds / 3600) + seq![':'] + tail
    } else {
        tail
    }
}

/// Writes a length of time as `mm:ss`, or as `h:mm:ss` from one hour on.
pub fn format_duration_ms(milliseconds: u64) -> (r: String)
    ensures
        r@ == clock_text(milliseconds as nat),
{
    let total: u64 = milliseconds / 1_000;
    let seconds: u64 = total % 60;
    let minutes: u64 = (total / 60) % 60;
    let hours: u64 = total / 3_600;
    let mut tail = text::write_two_digits(minutes);
    tail.push(':');
    tail.append(text::write_two_digits(seconds).as_str());
    proof {
        let m = text::two_digits(minutes as nat);
        assert(m.push(':') =~= m + seq![':']);
    }
    if hours > 0 {
        let mut out = text::write_u64(hours);
        out.push(':');
        out.append(tail.as_str());
        proof {
            let h = text::decimal(hours as nat);
            assert(h.push(':') =~= h + seq![':']);
        }
        out
    } else {
        tail
    }
}

/// A list of the names of singers.
fn names_of(singers: &[Singer]) -> (r: Vec<String>)
    ensures
        text::views(r@) == singer_names(singers.deep_view()),
{
    let mut out: Vec<String> = Vec::new();
    let mut i: usize = 0;
    while i < singers.len()
        invariant
            i <= singers@.len(),
            out@.len() == i,
            forall|k: int| 0 <= k < i ==> (#[trigger] out@[k])@ == singers@[k].name@,
        decreases singers@.len() - i,
    {
        out.push(singers[i].name.clone());
        i += 1;
    }
    proof {
        assert(text::views(out@) =~= singer_names(singers.deep_view()));
    }
    out
}

impl Song {
    /// The address of the cover, with the wanted size put where the address leaves room for it.
    pub fn cover_url(&self, size: u32) -> (r: Option<String>)
        ensures
            r.deep_view() == (match self.cover.deep_view() {
                Some(url) => Some(text::replaced(url, "{size}"@, text::decimal(size as nat))),
                None => None,
            }),
    {
        match &self.cover {
            Some(url) => {
                proof {
                    reveal_strlit("{size}");
                }
                let written = text::write_u64(size as u64);
                Some(text::replace(url.as_str(), "{size}", written.as_str()))
            },
            None => None,
        }
    }

    /// The names of the singers.
    pub fn artist_names(&self) -> (r: Vec<String>)
        ensures
            text::views(r@) == singer_names(self.deep_view().singers),
    {
        names_of(self.singers.as_slice())
    }

    /// The names of the singers in one text.
    pub fn singer_text(&self) -> (r: String)
        ensures
            r@ == singers_text(self.singers.deep_view()),
    {
        if self.singers.is_empty() {
            return "未知歌手".to_owned();
        }
        let names = names_of(self.singers.as_slice());
        text::join(names.as_slice(), "、")
    }

    /// Whether the rights mark lets the song be played: only an explicit 0 does not.
    pub fn looks_playable(&self) -> (r: bool)
        ensures
            r == (self.privilege != Some(0i64)),
    {
        match self.privilege {
            None => true,
            Some(code) => code != 0,
        }
    }

    /// The length of the song as text.
    pub fn duration_text(&self) -> (r: String)
        ensures
            r@ == clock_text(self.duration_ms as nat),
    {
        format_duration_ms(self.duration_ms)
    }

    /// The name of the song in the cache; each quality has its own.
    pub fn cache_key(&self, quality: &str) -> (r: String)
        ensures
            r@ == text::lowercase(self.hash@) + "-"@ + quality@,
    {
        text::join3(text::to_lowercase(self.hash.as_str()).as_str(), "-", quality)
    }

    /// The name of the song's trial part in the cache, which must not be taken for the song.
    pub fn trial_cache_key(&self, quality: &str) -> (r: String)
        ensures
            r@ == text::lowercase(self.hash@) + "-"@ + quality@ + "-trial"@,
    {
        let mut out = self.cache_key(quality);
        out.append("-trial");
        out
    }
}

/// The trial part of a song is never found under the name of the whole song of the same quality.
pub proof fn trial_keys_differ(hash: Seq<char>, quality: Seq<char>)
    ensures
        text::lowercase(hash) + "-"@ + quality + "-trial"@ != text::lowercase(hash) + "-"@ + quality,
{
    reveal_strlit("-trial");
    let whole = text::lowercase(hash) + "-"@ + quality;
    assert((whole + "-trial"@).len() == whole.len() + "-trial"@.len());
}

/// Nor is it found under the name of any other whole song in any other quality, as long as the name
/// of that quality is a plain one.
pub proof fn trial_keys_differ_from_all(
    part: Seq<char>,
    part_quality: Seq<char>,
    whole: Seq<char>,
    whole_quality: Seq<char>,
)
    requires
        !whole_quality.contains('-'),
        whole_quality != "trial"@,
    ensures
        text::lowercase(part) + "-"@ + part_quality + "-trial"@ != text::lowercase(whole) + "-"@
            + whole_quality,
{
    reveal_strlit("-trial");
    reveal_strlit("trial");
    reveal_strlit("-");
    let front = text::lowercase(part) + "-"@ + part_quality;
    let first = front + "-trial"@;
    let second = text::lowercase(whole) + "-"@ + whole_quality;
    let start = second.len() - whole_quality.len();
    if first == second {
        assert(second[start - 1] == '-');
        assert(second.skip(start) =~= whole_quality);
        assert(forall|k: int|
            front.len() <= k < first.len() ==> first[k] == "-trial"@[k - front.len()]);
        if whole_quality.len() < 5 {
            assert(front.len() < start - 1 < first.len());
        } else if whole_quality.len() == 5 {
            assert(whole_quality =~= "trial"@);
        } else {
            assert(whole_quality[front.len() - start] == first[front.len() as int]);
            assert(whole_quality.contains('-'));
        }
    }
}

impl Playlist {
    /// Whether songs can be added to it and removed from it.
    pub fn is_writable(&self) -> (r: bool)
        ensures
            r == (self.list_id is Some && self.is_own),
    {
        self.list_id.is_some() && self.is_own
    }
}

// ---------------------------------------------------------------------------
// Lyrics
// ---------------------------------------------------------------------------
/// Whether the lines stand in order of time.
pub open spec fn by_time(lines: Seq<LyricLineModel>) -> bool {
    forall|i: int, j: int| 0 <= i <= j < lines.len() ==> lines[i].time_ms <= lines[j].time_ms
}

/// The last line that has begun; `None` before the first.
pub open spec fn sung(lines: Seq<LyricLineModel>, position_ms: u64) -> Option<usize>
    decreases lines.len(),
{
    if lines.len() == 0 {
        None
    } else if lines.last().time_ms <= position_ms {
        Some((lines.len() - 1) as usize)
    } else {
        sung(lines.drop_last(), position_ms)
    }
}

/// What lies behind a place has not begun, so the last line that has begun is found in front of it.
proof fn lemma_sung(lines: Seq<LyricLineModel>, position_ms: u64, end: int)
    requires
        0 <= end <= lines.len(),
        forall|k: int| end <= k < lines.len() ==> (#[trigger] lines[k]).time_ms > position_ms,
    ensures
        sung(lines, position_ms) == sung(lines.take(end), position_ms),
    decreases lines.len() - end,
{
    if end < lines.len() {
        let front = lines.drop_last();
        lemma_sung(front, position_ms, end);
        assert(front.take(end) =~= lines.take(end));
    } else {
        assert(lines.take(end) =~= lines);
    }
}

/// The line that is being sung is the one that has begun while the next has not.
pub proof fn the_line_that_is_sung_has_begun(
    lines: Seq<LyricLineModel>,
    position_ms: u64,
    i: int,
)
    requires
        by_time(lines),
        lines.len() <= usize::MAX,
        0 <= i < lines.len(),
    ensures
        sung(lines, position_ms) == Some(i as usize) <==> lines[i].time_ms <= position_ms && (i + 1
            == lines.len() || lines[i + 1].time_ms > position_ms),
        lines[0].time_ms > position_ms ==> sung(lines, position_ms) is None,
    decreases lines.len(),
{
    let less = lines.drop_last();
    assert forall|a: int, b: int| 0 <= a <= b < less.len() implies less[a].time_ms
        <= less[b].time_ms by {
        assert(lines[a].time_ms <= lines[b].time_ms);
    }
    let last = lines.len() - 1;
    assert(lines[i].time_ms <= lines[last].time_ms);
    assert(lines[0].time_ms <= lines[last].time_ms);
    if i < last {
        assert(lines[i + 1].time_ms <= lines[last].time_ms);
    }
    if lines.last().time_ms > position_ms {
        if less.len() > 0 {
            let k = if i < last {
                i
            } else {
                0
            };
            the_line_that_is_sung_has_begun(less, position_ms, k);
            lemma_sung_on(less, position_ms, position_ms);
        }
    }
}

/// The line that is being sung only moves on as the song does.
pub(crate) proof fn lemma_sung_on(lines: Seq<LyricLineModel>, earlier: u64, later: u64)
    requires
        earlier <= later,
        lines.len() <= usize::MAX,
    ensures
        sung(lines, earlier) matches Some(line) ==> line < lines.len() && (sung(
            lines,
            later,
        ) matches Some(other) && line <= other < lines.len()),
        sung(lines, later) matches Some(other) ==> other < lines.len(),
    decreases lines.len(),
{
    if lines.len() > 0 {
        lemma_sung_on(lines.drop_last(), earlier, later);
    }
}

impl Lyric {
    /// Whether the lines stand in order of time.
    pub fn is_by_time(&self) -> (r: bool)
        ensures
            r == by_time(self.deep_view()),
    {
        let ghost lines = self.deep_view();
        let mut i: usize = 1;
        while i < self.lines.len()
            invariant
                1 <= i,
                lines == self.deep_view(),
                i <= self.lines@.len() || self.lines@.len() == 0,
                forall|a: int, b: int|
                    0 <= a <= b < i && b < lines.len() ==> lines[a].time_ms <= lines[b].time_ms,
            decreases self.lines@.len() - i,
        {
            if self.lines[i - 1].time_ms > self.lines[i].time_ms {
                proof {
                    assert(lines[i - 1].time_ms > lines[i as int].time_ms);
                }
                return false;
            }
            proof {
                assert(lines[i - 1].time_ms <= lines[i as int].time_ms);
            }
            i += 1;
        }
        true
    }

    /// The line that is being sung, where the lines stand in order of time: the last that has
    /// begun; `None` before the first.
    pub fn index_at(&self, position_ms: u64) -> (r: Option<usize>)
        ensures
            r matches Some(i) ==> i < self.lines@.len(),
            by_time(self.deep_view()) ==> r == sung(self.deep_view(), position_ms),
    {
        if self.lines.is_empty() || position_ms < self.lines[0].time_ms {
            proof {
                if by_time(self.deep_view()) {
                    assert forall|k: int| 0 <= k < self.lines@.len() implies (
                    #[trigger] self.lines@[k]).time_ms > position_ms by {
                        assert(self.deep_view()[0].time_ms <= self.deep_view()[k].time_ms);
                    }
                    lemma_sung(self.deep_view(), position_ms, 0);
                }
            }
            return None;
        }
        let mut low: usize = 0;
        let mut high: usize = self.lines.len();
        while high - low > 1
            invariant
                low < high <= self.lines@.len(),
                self.lines@[low as int].time_ms <= position_ms,
                by_time(self.deep_view()) ==> forall|k: int|
                    high <= k < self.lines@.len() ==> (#[trigger] self.lines@[k]).time_ms
                        > position_ms,
            decreases high - low,
        {
            let middle: usize = low + (high - low) / 2;
            if self.lines[middle].time_ms <= position_ms {
                low = middle;
            } else {
                proof {
                    if by_time(self.deep_view()) {
                        assert forall|k: int| middle <= k < self.lines@.len() implies (
                        #[trigger] self.lines@[k]).time_ms > position_ms by {
                            assert(self.deep_view()[middle as int].time_ms
                                <= self.deep_view()[k].time_ms);
                        }
                    }
                }
                high = middle;
            }
        }
        proof {
            if by_time(self.deep_view()) {
                lemma_sung(self.deep_view(), position_ms, high as int);
                assert(self.deep_view().take(high as int).last() == self.deep_view()[low as int]);
            }
        }
        Some(low)
    }

    /// Whether there is no line.
    pub fn is_empty(&self) -> (r: bool)
        ensures
            r == (self.lines@.len() == 0),
    {
        self.lines.is_empty()
    }
}

// ---------------------------------------------------------------------------
// The keys under which the answers hold things
// ---------------------------------------------------------------------------
pub open spec fn hash_keys() -> Seq<&'static str> {
    seq!["FileHash", "hash", "Filehash", "file_hash"]
}

pub open spec fn name_keys() -> Seq<&'static str> {
    seq!["OriSongName", "SongName", "songname", "audio_name", "FileName", "filename", "name"]
}

pub open spec fn audio_hash_keys() -> Seq<&'static str> {
    seq!["hash_128", "hash_320", "hash_flac", "hash_high", "hash_super"]
}

pub open spec fn audio_duration_keys() -> Seq<&'static str> {
    seq!["duration_128", "duration_320", "duration_flac", "duration_high", "duration_super"]
}

pub open spec fn album_audio_keys() -> Seq<&'static str> {
    seq!["AlbumAudioID", "album_audio_id", "MixSongID", "mixsongid", "EMixSongID", "audio_id"]
}

// ---------------------------------------------------------------------------
// Error codes
// ---------------------------------------------------------------------------
/// What an answer says of its own failure, in words.
pub open spec fn failure_words(root: Json) -> Seq<char> {
    match json::first_text(root, seq!["error_msg", "errmsg", "msg", "message"]) {
        Some(words) => words,
        None => "服务端未提供错误描述"@,
    }
}

/// The error that an answer reports under `error_code`; a missing code or 0 is none.
pub open spec fn reported_error(path: Seq<char>, root: Json) -> Option<ErrorModel> {
    match json::at(root, "error_code"@) {
        Some(value) => match json::as_number(value) {
            Some(code) if code != 0 => Some(
                ErrorModel::Api { path, code, message: failure_words(root) },
            ),
            _ => None,
        },
        None => None,
    }
}

/// Checks the `error_code` of an answer.
pub fn check_error_code(path: &str, root: &Json) -> (r: Result<(), AppError>)
    ensures
        match r {
            Ok(_) => reported_error(path@, *root) is None,
            Err(error) => reported_error(path@, *root) == Some(error.deep_view()),
        },
{
    let code: i64 = match root.get("error_code") {
        Some(value) => match json::value_to_i64(value) {
            Some(code) => code,
            None => {
                return Ok(());
            },
        },
        None => {
            return Ok(());
        },
    };
    if code == 0 {
        return Ok(());
    }
    let keys = ["error_msg", "errmsg", "msg", "message"];
    proof {
        assert(keys@ =~= seq!["error_msg", "errmsg", "msg", "message"]);
    }
    let message = match json::pick_string(root, &keys) {
        Some(words) => words,
        None => "服务端未提供错误描述".to_owned(),
    };
    Err(AppError::Api { path: path.to_owned(), code, message })
}

// ---------------------------------------------------------------------------
// Reading a song
// ---------------------------------------------------------------------------
/// The text under one of `candidates` in the object under `key`.
pub open spec fn inner_text(object: Json, key: Seq<char>, candidates: Seq<&str>) -> Option<
    Seq<char>,
> {
    match json::at(object, key) {
        Some(inner) => json::first_text(inner, candidates),
        None => None,
    }
}

/// Looks up a text in the object under `key`.
fn nested_string(object: &Json, key: &str, candidates: &[&str]) -> (r: Option<String>)
    ensures
        r.deep_view() == inner_text(*object, key@, candidates@),
{
    match object.get(key) {
        Some(inner) => json::pick_string(inner, candidates),
        None => None,
    }
}

/// A length in milliseconds: what is below ten thousand is taken for seconds.
pub open spec fn milliseconds(raw: u64) -> u64 {
    if raw >= 10_000 {
        raw
    } else {
        (raw * 1_000) as u64
    }
}

/// Brings a length to milliseconds: what is below ten thousand is taken for seconds.
pub fn normalize_duration(raw: u64) -> (r: u64)
    ensures
        r == milliseconds(raw),
{
    if raw >= 10_000 {
        raw
    } else {
        raw * 1_000
    }
}

/// A length in milliseconds is left as it is.
pub proof fn milliseconds_are_kept(raw: u64)
    ensures
        raw == 0 || milliseconds(raw) >= 1_000,
        milliseconds(raw) >= 10_000 ==> milliseconds(milliseconds(raw)) == milliseconds(raw),
{
}

/// The recording named in `audio_info`.
pub open spec fn audio_hash(value: Json) -> Option<Seq<char>> {
    inner_text(value, "audio_info"@, audio_hash_keys())
}

/// Looks up the recording named in `audio_info`.
fn pick_audio_hash(value: &Json) -> (r: Option<String>)
    ensures
        r.deep_view() == audio_hash(*value),
{
    let keys = ["hash_128", "hash_320", "hash_flac", "hash_high", "hash_super"];
    proof {
        assert(keys@ =~= audio_hash_keys());
    }
    nested_string(value, "audio_info", &keys)
}

/// The length given in `audio_info`, in milliseconds.
pub open spec fn audio_duration(value: Json) -> Option<u64> {
    match json::at(value, "audio_info"@) {
        Some(info) => match json::first_u64(info, audio_duration_keys()) {
            Some(raw) => Some(milliseconds(raw)),
            None => None,
        },
        None => None,
    }
}

/// Looks up the length given in `audio_info`.
fn pick_audio_duration(value: &Json) -> (r: Option<u64>)
    ensures
        r == audio_duration(*value),
{
    match value.get("audio_info") {
        Some(info) => {
            let keys = [
                "duration_128",
                "duration_320",
                "duration_flac",
                "duration_high",
                "duration_super",
            ];
            proof {
                assert(keys@ =~= audio_duration_keys());
            }
            match json::pick_u64(info, &keys) {
                Some(raw) => Some(normalize_duration(raw)),
                None => None,
            }
        },
        None => None,
    }
}

/// `s` in ASCII small letters.
pub open spec fn ascii_lowered(s: Seq<char>) -> Seq<char> {
    s.map_values(|c: char| text::ascii_lower(c))
}

/// Whether `s` is the extension of an audio file, in small letters or capitals.
pub open spec fn audio_extension(s: Seq<char>) -> bool {
    let lower = ascii_lowered(s);
    lower == "mp3"@ || lower == "flac"@ || lower == "m4a"@ || lower == "wav"@ || lower == "ogg"@
        || lower == "aac"@
}

/// A name without the extension of an audio file, unless nothing would be left.
pub open spec fn without_extension(name: Seq<char>) -> Seq<char> {
    match text::last_char_position(name, '.') {
        Some(dot) => if audio_extension(name.skip(dot + 1)) && text::trimmed(name.take(dot)).len()
            > 0 {
            text::trimmed_end(name.take(dot))
        } else {
            name
        },
        None => name,
    }
}

/// `s` in ASCII small letters.
pub(crate) fn ascii_lowercase(s: &[char]) -> (r: String)
    ensures
        r@ == ascii_lowered(s@),
{
    let mut out = String::new();
    let mut i: usize = 0;
    while i < s.len()
        invariant
            i <= s@.len(),
            out@ == ascii_lowered(s@.take(i as int)),
        decreases s@.len() - i,
    {
        out.push(text::to_ascii_lower(s[i]));
        proof {
            assert(out@ =~= ascii_lowered(s@.take(i + 1)));
        }
        i += 1;
    }
    proof {
        assert(s@.take(s@.len() as int) =~= s@);
    }
    out
}

/// Drops the extension of an audio file from a name, unless nothing would be left.
pub fn strip_extension(name: &str) -> (r: String)
    ensures
        r@ == without_extension(name@),
{
    let chars = text::to_chars(name);
    match text::rfind_char(chars.as_slice(), '.') {
        Some(dot) => {
            let length: usize = chars.len();
            let stem = &chars.as_slice()[0..dot];
            let extension = ascii_lowercase(&chars.as_slice()[dot + 1..length]);
            proof {
                assert(stem@ =~= name@.take(dot as int));
                assert(chars@.subrange(dot + 1, chars@.len() as int) =~= name@.skip(dot + 1));
            }
            let known = text::same(extension.as_str(), "mp3") || text::same(
                extension.as_str(),
                "flac",
            ) || text::same(extension.as_str(), "m4a") || text::same(extension.as_str(), "wav")
                || text::same(extension.as_str(), "ogg") || text::same(extension.as_str(), "aac");
            if known && text::trim(stem).len() > 0 {
                from_trimmed(stem)
            } else {
                name.to_owned()
            }
        },
        None => name.to_owned(),
    }
}

/// The text of `s` without its trailing white space.
fn from_trimmed(s: &[char]) -> (r: String)
    ensures
        r@ == text::trimmed_end(s@),
{
    text::from_chars(text::trim_end(s))
}

/// What follows `singer` and a dash in `name`, if `name` begins so and anything follows.
pub open spec fn title_after(name: Seq<char>, singer: Seq<char>) -> Option<Seq<char>> {
    let prefix = singer + " - "@;
    if singer.len() > 0 && text::begins(name, prefix) && text::trimmed(
        name.skip(prefix.len() as int),
    ).len() > 0 {
        Some(text::trimmed(name.skip(prefix.len() as int)))
    } else {
        None
    }
}

/// `name` without the first of `singers` that it begins with.
pub open spec fn without_singer(name: Seq<char>, singers: Seq<Seq<char>>) -> Seq<char>
    decreases singers.len(),
{
    if singers.len() == 0 {
        name
    } else {
        match title_after(name, singers[0]) {
            Some(title) => title,
            None => without_singer(name, singers.drop_first()),
        }
    }
}

/// The names a song's name may begin with: each singer, then all of them together.
pub open spec fn prefixes(singers: Seq<SingerModel>) -> Seq<Seq<char>> {
    singer_names(singers).push(text::joined(singer_names(singers), "、"@))
}

/// What follows `singer` and a dash in `name`.
fn title_behind(name: &[char], singer: &str) -> (r: Option<String>)
    ensures
        r.deep_view() == title_after(name@, singer@),
{
    if singer.is_empty() {
        return None;
    }
    let prefix = text::to_chars(text::join2(singer, " - ").as_str());
    if !text::is_at(name, prefix.as_slice(), 0) {
        return None;
    }
    let rest = &name[prefix.len()..name.len()];
    proof {
        assert(rest@ =~= name@.skip(prefix@.len() as int));
    }
    let title = text::trim(rest);
    if title.len() > 0 {
        Some(text::from_chars(title))
    } else {
        None
    }
}

/// Drops the singer from the front of a name, since the singers are shown beside it.
pub fn strip_singer_prefix(name: &str, singers: &[Singer]) -> (r: String)
    ensures
        r@ == without_singer(name@, prefixes(singers.deep_view())),
{
    let chars = text::to_chars(name);
    let mut candidates = names_of(singers);
    let all = text::join(candidates.as_slice(), "、");
    let ghost before = candidates@;
    candidates.push(all);
    let ghost views = text::views(candidates@);
    proof {
        assert(views =~= prefixes(singers.deep_view()));
        assert(views.skip(0) =~= views);
    }
    let mut i: usize = 0;
    while i < candidates.len()
        invariant
            i <= candidates@.len(),
            chars@ == name@,
            views == text::views(candidates@),
            views == prefixes(singers.deep_view()),
            without_singer(name@, views) == without_singer(name@, views.skip(i as int)),
        decreases candidates@.len() - i,
    {
        proof {
            assert(views.skip(i as int)[0] == candidates@[i as int]@);
            assert(views.skip(i as int).drop_first() =~= views.skip(i + 1));
        }
        if let Some(title) = title_behind(chars.as_slice(), candidates[i].as_str()) {
            return title;
        }
        i += 1;
    }
    name.to_owned()
}

/// The singer that one entry of a list of singers names.
pub open spec fn singer_of(entry: Json) -> Option<SingerModel> {
    match json::first_text(entry, seq!["name", "Name", "singername", "author_name"]) {
        Some(name) => Some(
            SingerModel {
                id: match json::first_number(entry, seq!["id", "Id", "singerid", "author_id"]) {
                    Some(id) => id,
                    None => 0,
                },
                name,
            },
        ),
        None => None,
    }
}

/// [`singer_of`] as a value.
pub open spec fn singer_model() -> spec_fn(Json) -> Option<SingerModel> {
    |entry: Json| singer_of(entry)
}

/// Reads one entry of a list of singers.
fn singer_from_json(entry: &Json) -> (r: Option<Singer>)
    ensures
        r.deep_view() == singer_of(*entry),
{
    let name_keys = ["name", "Name", "singername", "author_name"];
    let id_keys = ["id", "Id", "singerid", "author_id"];
    proof {
        assert(name_keys@ =~= seq!["name", "Name", "singername", "author_name"]);
        assert(id_keys@ =~= seq!["id", "Id", "singerid", "author_id"]);
    }
    match json::pick_string(entry, &name_keys) {
        Some(name) => {
            let id: i64 = match json::pick_i64(entry, &id_keys) {
                Some(id) => id,
                None => 0,
            };
            Some(Singer { id, name })
        },
        None => None,
    }
}

/// The signs that stand between the singers in a text.
pub open spec fn singer_signs() -> Seq<char> {
    seq!['、', '/', '&', ',', '，']
}

/// The singers that the pieces of a text name; blank pieces name none.
pub open spec fn named_singers(parts: Seq<Seq<char>>) -> Seq<SingerModel>
    decreases parts.len(),
{
    if parts.len() == 0 {
        Seq::empty()
    } else {
        let before = named_singers(parts.drop_last());
        let name = text::trimmed(parts.last());
        if name.len() == 0 {
            before
        } else {
            before.push(SingerModel { id: 0, name })
        }
    }
}

/// Splits a text that names several singers.
pub fn split_singer_text(text: &str) -> (r: Vec<Singer>)
    ensures
        r.deep_view() == named_singers(text::pieces(text@, singer_signs())),
{
    let signs = ['、', '/', '&', ',', '，'];
    let chars = text::to_chars(text);
    let parts = text::split(chars.as_slice(), &signs);
    let ghost all = text::pieces(text@, singer_signs());
    proof {
        assert(signs@ =~= singer_signs());
        assert(all.take(0) =~= Seq::<Seq<char>>::empty());
    }
    let mut out: Vec<Singer> = Vec::new();
    proof {
        assert(out.deep_view() =~= Seq::<SingerModel>::empty());
    }
    let mut i: usize = 0;
    while i < parts.len()
        invariant
            i <= parts@.len(),
            text::rows(parts@) == all,
            out.deep_view() == named_singers(all.take(i as int)),
        decreases parts@.len() - i,
    {
        proof {
            assert(all.take(i + 1).drop_last() =~= all.take(i as int));
            assert(all.take(i + 1).last() == parts@[i as int]@);
        }
        let name = text::trim(parts[i].as_slice());
        if name.len() > 0 {
            let ghost before = out.deep_view();
            let singer = Singer { id: 0, name: text::from_chars(name) };
            out.push(singer);
            proof {
                assert(out.deep_view() =~= before.push(singer.deep_view()));
            }
        }
        i += 1;
    }
    proof {
        assert(all.take(all.len() as int) =~= all);
    }
    out
}

/// The singer named in front of the dash of a file name.
pub open spec fn singer_of_file(value: Json) -> Seq<SingerModel> {
    match json::first_text(value, seq!["filename", "audio_name"]) {
        Some(file) => match text::position(file, " - "@) {
            Some(dash) => {
                let name = text::trimmed(file.take(dash));
                if name.len() > 0 && name != "未知"@ {
                    seq![SingerModel { id: 0, name }]
                } else {
                    Seq::empty()
                }
            },
            None => Seq::empty(),
        },
        None => Seq::empty(),
    }
}

/// The singers of a song: those of its list of singers, else those its singer text names, else the
/// one its file name begins with.
pub open spec fn singers_of(value: Json) -> Seq<SingerModel> {
    let listed = json::kept(
        json::first_array(value, seq!["Singer", "singerinfo", "singers", "authors"]),
        singer_model(),
    );
    let named = match json::first_text(value, seq!["SingerName", "singername", "author_name"]) {
        Some(words) => named_singers(text::pieces(words, singer_signs())),
        None => Seq::empty(),
    };
    if listed.len() > 0 {
        listed
    } else if named.len() > 0 {
        named
    } else {
        singer_of_file(value)
    }
}

/// Reads the singer in front of the dash of a file name.
fn singers_from_file(value: &Json) -> (r: Vec<Singer>)
    ensures
        r.deep_view() == singer_of_file(*value),
{
    let mut out: Vec<Singer> = Vec::new();
    let keys = ["filename", "audio_name"];
    proof {
        assert(keys@ =~= seq!["filename", "audio_name"]);
        assert(out.deep_view() =~= Seq::<SingerModel>::empty());
    }
    if let Some(file) = json::pick_string(value, &keys) {
        let chars = text::to_chars(file.as_str());
        let dash = text::to_chars(" - ");
        if let Some(at) = text::find(chars.as_slice(), dash.as_slice()) {
            proof {
                text::lemma_position_from(chars@, dash@, 0);
                assert(chars@.subrange(0, at as int) =~= file@.take(at as int));
            }
            let name = text::from_chars(text::trim(&chars.as_slice()[0..at]));
            if !name.as_str().is_empty() && !text::same(name.as_str(), "未知") {
                let singer = Singer { id: 0, name };
                out.push(singer);
                proof {
                    assert(out.deep_view() =~= seq![singer.deep_view()]);
                }
            }
        }
    }
    out
}

/// Reads the singers of a song.
pub fn parse_singers(value: &Json) -> (r: Vec<Singer>)
    ensures
        r.deep_view() == singers_of(*value),
{
    let list_keys = ["Singer", "singerinfo", "singers", "authors"];
    let text_keys = ["SingerName", "singername", "author_name"];
    proof {
        assert(list_keys@ =~= seq!["Singer", "singerinfo", "singers", "authors"]);
        assert(text_keys@ =~= seq!["SingerName", "singername", "author_name"]);
    }
    let raw = json::pick_array(value, &list_keys);
    let listed = json::read_all(raw, &singer_from_json);
    proof {
        assert(json::reads::<Singer, _>(singer_from_json, singer_model()));
    }
    if listed.len() > 0 {
        return listed;
    }
    if let Some(words) = json::pick_string(value, &text_keys) {
        let named = split_singer_text(words.as_str());
        if named.len() > 0 {
            return named;
        }
    }
    singers_from_file(value)
}

/// The further recordings that `audio_info` names, those of `qualities` under `keys`.
pub open spec fn recordings(info: Json, qualities: Seq<&str>, keys: Seq<&str>) -> Seq<
    (Seq<char>, Seq<char>),
>
    decreases keys.len(),
{
    if keys.len() == 0 || qualities.len() != keys.len() {
        Seq::empty()
    } else {
        let before = recordings(info, qualities.drop_last(), keys.drop_last());
        match json::at(info, keys.last()@) {
            Some(value) => match json::as_text(value) {
                Some(hash) => before.push((qualities.last()@, hash)),
                None => before,
            },
            None => before,
        }
    }
}

/// The qualities of the recordings in `audio_info`.
pub open spec fn recording_qualities() -> Seq<&'static str> {
    seq!["128", "320", "flac", "high", "super"]
}

/// The further recordings of a song.
pub open spec fn recordings_of(value: Json) -> Seq<(Seq<char>, Seq<char>)> {
    match json::at(value, "audio_info"@) {
        Some(info) => recordings(info, recording_qualities(), audio_hash_keys()),
        None => Seq::empty(),
    }
}

/// Reads the further recordings of a song.
fn pick_recordings(value: &Json) -> (r: Vec<(String, String)>)
    ensures
        r.deep_view() == recordings_of(*value),
{
    let mut out: Vec<(String, String)> = Vec::new();
    proof {
        assert(out.deep_view() =~= Seq::<(Seq<char>, Seq<char>)>::empty());
    }
    let info = match value.get("audio_info") {
        Some(info) => info,
        None => {
            return out;
        },
    };
    let qualities = ["128", "320", "flac", "high", "super"];
    let keys = ["hash_128", "hash_320", "hash_flac", "hash_high", "hash_super"];
    let ghost qs = recording_qualities();
    let ghost ks = audio_hash_keys();
    proof {
        assert(qualities@ =~= qs);
        assert(keys@ =~= ks);
    }
    let mut i: usize = 0;
    while i < 5
        invariant
            i <= 5,
            qualities@ == qs,
            keys@ == ks,
            qs.len() == 5,
            ks.len() == 5,
            out.deep_view() == recordings(*info, qs.take(i as int), ks.take(i as int)),
        decreases 5 - i,
    {
        proof {
            assert(qs.take(i + 1).drop_last() =~= qs.take(i as int));
            assert(ks.take(i + 1).drop_last() =~= ks.take(i as int));
            assert(ks.take(i + 1).last() == keys@[i as int]);
            assert(qs.take(i + 1).last() == qualities@[i as int]);
        }
        if let Some(found) = info.get(keys[i]) {
            if let Some(hash) = json::value_to_string(found) {
                let ghost before = out.deep_view();
                let pair = (qualities[i].to_owned(), hash);
                out.push(pair);
                proof {
                    assert(out.deep_view() =~= before.push((qualities@[i as int]@, pair.1@)));
                }
            }
        }
        i += 1;
    }
    proof {
        assert(qs.take(5) =~= qs);
        assert(ks.take(5) =~= ks);
    }
    out
}

/// The first of two that is there.
pub open spec fn either<T>(first: Option<T>, second: Option<T>) -> Option<T> {
    if first is Some {
        first
    } else {
        second
    }
}

/// A number, or 0 in its place.
pub open spec fn or_zero(n: Option<i64>) -> i64 {
    match n {
        Some(n) => n,
        None => 0,
    }
}

/// A text, or the empty text in its place.
pub open spec fn or_blank(s: Option<Seq<char>>) -> Seq<char> {
    match s {
        Some(s) => s,
        None => Seq::empty(),
    }
}

/// The text, or the empty text in its place.
pub(crate) fn text_or_blank(value: Option<String>) -> (r: String)
    ensures
        r@ == or_blank(value.deep_view()),
{
    match value {
        Some(text) => text,
        None => String::new(),
    }
}

/// The name of a song without a file extension and without its singers in front.
pub open spec fn song_name(value: Json) -> Seq<char> {
    let whole = match json::first_text(value, name_keys()) {
        Some(name) => without_extension(name),
        None => "未知曲目"@,
    };
    without_singer(whole, prefixes(singers_of(value)))
}

/// The cover of a song.
pub open spec fn song_cover(value: Json) -> Option<Seq<char>> {
    either(
        json::first_text(value, seq!["Image", "img", "cover", "album_image"]),
        either(
            inner_text(value, "trans_param"@, seq!["union_cover", "cover"]),
            either(
                inner_text(value, "album_info"@, seq!["sizable_cover", "cover"]),
                inner_text(value, "albuminfo"@, seq!["cover", "sizable_cover"]),
            ),
        ),
    )
}

/// The name of the album of a song.
pub open spec fn song_album(value: Json) -> Option<Seq<char>> {
    either(
        json::first_text(value, seq!["AlbumName", "album_name"]),
        either(
            inner_text(value, "album_info"@, seq!["album_name", "name"]),
            inner_text(value, "albuminfo"@, seq!["name", "album_name"]),
        ),
    )
}

/// The length of a song in milliseconds.
pub open spec fn song_length(value: Json) -> u64 {
    match json::first_u64(value, seq!["Duration", "duration", "timelength", "timelen"]) {
        Some(raw) => milliseconds(raw),
        None => match audio_duration(value) {
            Some(length) => length,
            None => 0,
        },
    }
}

/// The song that `value` describes in any of the layouts of Kugou; none where no recording is named.
pub open spec fn song_of(value: Json) -> Option<SongModel> {
    match either(json::first_text(value, hash_keys()), audio_hash(value)) {
        Some(hash) => Some(
            SongModel {
                name: song_name(value),
                hash,
                album_id: or_blank(json::first_text(value, seq!["AlbumID", "album_id"])),
                album_audio_id: or_zero(json::first_number(value, album_audio_keys())),
                album_name: or_blank(song_album(value)),
                singers: singers_of(value),
                duration_ms: song_length(value),
                cover: song_cover(value),
                privilege: json::first_number(value, seq!["Privilege", "privilege", "pay_type"]),
                file_id: json::first_number(value, seq!["Fileid", "FileId", "fileid", "file_id"]),
                extra_hashes: recordings_of(value),
                source: SourceKind::Kugou,
            },
        ),
        None => None,
    }
}

/// [`song_of`] as a value.
pub open spec fn song_model() -> spec_fn(Json) -> Option<SongModel> {
    |value: Json| song_of(value)
}

/// Reads the cover of a song.
fn pick_cover(value: &Json) -> (r: Option<String>)
    ensures
        r.deep_view() == song_cover(*value),
{
    let top = ["Image", "img", "cover", "album_image"];
    let trans = ["union_cover", "cover"];
    let info = ["sizable_cover", "cover"];
    let plain = ["cover", "sizable_cover"];
    proof {
        assert(top@ =~= seq!["Image", "img", "cover", "album_image"]);
        assert(trans@ =~= seq!["union_cover", "cover"]);
        assert(info@ =~= seq!["sizable_cover", "cover"]);
        assert(plain@ =~= seq!["cover", "sizable_cover"]);
    }
    let mut found = json::pick_string(value, &top);
    if found.is_none() {
        found = nested_string(value, "trans_param", &trans);
    }
    if found.is_none() {
        found = nested_string(value, "album_info", &info);
    }
    if found.is_none() {
        found = nested_string(value, "albuminfo", &plain);
    }
    found
}

/// Reads the name of the album of a song.
fn pick_album(value: &Json) -> (r: Option<String>)
    ensures
        r.deep_view() == song_album(*value),
{
    let top = ["AlbumName", "album_name"];
    let info = ["album_name", "name"];
    let plain = ["name", "album_name"];
    proof {
        assert(top@ =~= seq!["AlbumName", "album_name"]);
        assert(info@ =~= seq!["album_name", "name"]);
        assert(plain@ =~= seq!["name", "album_name"]);
    }
    let mut found = json::pick_string(value, &top);
    if found.is_none() {
        found = nested_string(value, "album_info", &info);
    }
    if found.is_none() {
        found = nested_string(value, "albuminfo", &plain);
    }
    found
}

/// Reads the length of a song.
fn pick_length(value: &Json) -> (r: u64)
    ensures
        r == song_length(*value),
{
    let keys = ["Duration", "duration", "timelength", "timelen"];
    proof {
        assert(keys@ =~= seq!["Duration", "duration", "timelength", "timelen"]);
    }
    match json::pick_u64(value, &keys) {
        Some(raw) => normalize_duration(raw),
        None => match pick_audio_duration(value) {
            Some(length) => length,
            None => 0,
        },
    }
}

/// Reads a song in any of the layouts of Kugou; none where no recording is named.
pub fn song_from_json(value: &Json) -> (r: Option<Song>)
    ensures
        r.deep_view() == song_of(*value),
{
    let hash_list = ["FileHash", "hash", "Filehash", "file_hash"];
    let name_list = [
        "OriSongName",
        "SongName",
        "songname",
        "audio_name",
        "FileName",
        "filename",
        "name",
    ];
    let audio_list = [
        "AlbumAudioID",
        "album_audio_id",
        "MixSongID",
        "mixsongid",
        "EMixSongID",
        "audio_id",
    ];
    let album_list = ["AlbumID", "album_id"];
    let privilege_list = ["Privilege", "privilege", "pay_type"];
    let file_list = ["Fileid", "FileId", "fileid", "file_id"];
    proof {
        assert(hash_list@ =~= hash_keys());
        assert(name_list@ =~= name_keys());
        assert(audio_list@ =~= album_audio_keys());
        assert(album_list@ =~= seq!["AlbumID", "album_id"]);
        assert(privilege_list@ =~= seq!["Privilege", "privilege", "pay_type"]);
        assert(file_list@ =~= seq!["Fileid", "FileId", "fileid", "file_id"]);
    }
    let mut named = json::pick_string(value, &hash_list);
    if named.is_none() {
        named = pick_audio_hash(value);
    }
    let hash = match named {
        Some(hash) => hash,
        None => {
            return None;
        },
    };
    let whole = match json::pick_string(value, &name_list) {
        Some(name) => strip_extension(name.as_str()),
        None => "未知曲目".to_owned(),
    };
    let singers = parse_singers(value);
    let name = strip_singer_prefix(whole.as_str(), singers.as_slice());
    let album_audio_id: i64 = match json::pick_i64(value, &audio_list) {
        Some(id) => id,
        None => 0,
    };
    Some(
        Song {
            name,
            hash,
            album_id: text_or_blank(json::pick_string(value, &album_list)),
            album_audio_id,
            album_name: text_or_blank(pick_album(value)),
            singers,
            duration_ms: pick_length(value),
            cover: pick_cover(value),
            privilege: json::pick_i64(value, &privilege_list),
            file_id: json::pick_i64(value, &file_list),
            extra_hashes: pick_recordings(value),
            source: SourceKind::Kugou,
        },
    )
}

/// A song without anything that names a recording is left out.
pub proof fn songs_name_a_recording(value: Json)
    ensures
        song_of(value) is Some <==> (json::first_text(value, hash_keys()) is Some || audio_hash(
            value,
        ) is Some),
        song_of(value) matches Some(song) ==> song.source == SourceKind::Kugou,
{
}

// ---------------------------------------------------------------------------
// Lists of songs
// ---------------------------------------------------------------------------
/// The keys under which the songs of an answer may stand.
pub open spec fn song_list_keys() -> Seq<&'static str> {
    seq![
        "songs",
        "list",
        "info",
        "musiclist",
        "songlist",
        "audios",
        "lists",
        "data",
        "filelist",
    ]
}

/// The songs of the first of the arrays under `keys` that holds any.
pub open spec fn songs_under(data: Json, keys: Seq<&str>) -> Seq<SongModel>
    decreases keys.len(),
{
    if keys.len() == 0 {
        Seq::empty()
    } else {
        let songs = match json::array_at(data, keys[0]@) {
            Some(items) => json::kept(items@, song_model()),
            None => Seq::empty(),
        };
        if songs.len() > 0 {
            songs
        } else {
            songs_under(data, keys.drop_first())
        }
    }
}

/// The songs of an answer.
pub open spec fn songs_of(data: Json) -> Seq<SongModel> {
    songs_under(data, song_list_keys())
}

/// Reads the songs of an answer.
pub fn extract_songs(data: &Json) -> (r: Vec<Song>)
    ensures
        r.deep_view() == songs_of(*data),
{
    let keys = [
        "songs",
        "list",
        "info",
        "musiclist",
        "songlist",
        "audios",
        "lists",
        "data",
        "filelist",
    ];
    let ghost ks = song_list_keys();
    proof {
        assert(keys@ =~= ks);
        assert(ks.skip(0) =~= ks);
    }
    let mut i: usize = 0;
    while i < 9
        invariant
            i <= 9,
            keys@ == ks,
            ks.len() == 9,
            ks == song_list_keys(),
            songs_under(*data, ks) == songs_under(*data, ks.skip(i as int)),
        decreases 9 - i,
    {
        proof {
            assert(ks.skip(i as int)[0] == keys@[i as int]);
            assert(ks.skip(i as int).drop_first() =~= ks.skip(i + 1));
            assert(json::reads::<Song, _>(song_from_json, song_model()));
        }
        if let Some(items) = data.get_array(keys[i]) {
            let songs = json::read_all(items.as_slice(), &song_from_json);
            if songs.len() > 0 {
                return songs;
            }
        }
        i += 1;
    }
    let none: Vec<Song> = Vec::new();
    proof {
        assert(none.deep_view() =~= Seq::<SongModel>::empty());
        assert(ks.skip(9) =~= Seq::<&str>::empty());
    }
    none
}

// ---------------------------------------------------------------------------
// Playlists, artists and charts
// ---------------------------------------------------------------------------
/// A count, or 0 in its place.
pub open spec fn or_none_u32(n: Option<u32>) -> u32 {
    match n {
        Some(n) => n,
        None => 0,
    }
}

/// The playlist that `value` describes; none without a name and an identity.
pub open spec fn playlist_of(value: Json) -> Option<PlaylistModel> {
    let list_id = json::first_number(value, seq!["listid", "list_id", "specialid", "special_id"]);
    let id = either(
        json::first_text(value, seq!["global_collection_id", "global_id", "gid"]),
        match list_id {
            Some(number) => Some(text::signed_decimal(number as int)),
            None => None,
        },
    );
    let name = json::first_text(
        value,
        seq!["name", "listname", "specialname", "title", "collectname"],
    );
    if id is None || name is None {
        None
    } else {
        Some(
            PlaylistModel {
                id: id->0,
                list_id,
                name: name->0,
                cover: json::first_text(
                    value,
                    seq!["pic", "imgurl", "img", "cover", "picurl", "banner"],
                ),
                song_count: or_none_u32(
                    json::first_u32(
                        value,
                        seq!["songcount", "song_count", "count", "songnum", "total"],
                    ),
                ),
                creator: json::first_text(
                    value,
                    seq!["nickname", "username", "creator", "user_name", "author"],
                ),
                description: json::first_text(
                    value,
                    seq!["introduction", "intro", "description", "desc"],
                ),
                is_own: json::first_number(value, seq!["is_self", "isself", "is_mine"]) == Some(
                    1i64,
                ),
            },
        )
    }
}

/// Reads a playlist; none without a name and an identity.
pub fn playlist_from_json(value: &Json) -> (r: Option<Playlist>)
    ensures
        r.deep_view() == playlist_of(*value),
{
    let id_list = ["listid", "list_id", "specialid", "special_id"];
    let global_list = ["global_collection_id", "global_id", "gid"];
    let name_list = ["name", "listname", "specialname", "title", "collectname"];
    let cover_list = ["pic", "imgurl", "img", "cover", "picurl", "banner"];
    let count_list = ["songcount", "song_count", "count", "songnum", "total"];
    let creator_list = ["nickname", "username", "creator", "user_name", "author"];
    let about_list = ["introduction", "intro", "description", "desc"];
    let own_list = ["is_self", "isself", "is_mine"];
    proof {
        assert(id_list@ =~= seq!["listid", "list_id", "specialid", "special_id"]);
        assert(global_list@ =~= seq!["global_collection_id", "global_id", "gid"]);
        assert(name_list@ =~= seq!["name", "listname", "specialname", "title", "collectname"]);
        assert(cover_list@ =~= seq!["pic", "imgurl", "img", "cover", "picurl", "banner"]);
        assert(count_list@ =~= seq!["songcount", "song_count", "count", "songnum", "total"]);
        assert(creator_list@ =~= seq!["nickname", "username", "creator", "user_name", "author"]);
        assert(about_list@ =~= seq!["introduction", "intro", "description", "desc"]);
        assert(own_list@ =~= seq!["is_self", "isself", "is_mine"]);
    }
    let list_id = json::pick_i64(value, &id_list);
    let mut found = json::pick_string(value, &global_list);
    if found.is_none() {
        found = match list_id {
            Some(number) => Some(text::write_i64(number)),
            None => None,
        };
    }
    let id = match found {
        Some(id) => id,
        None => {
            return None;
        },
    };
    let name = match json::pick_string(value, &name_list) {
        Some(name) => name,
        None => {
            return None;
        },
    };
    let song_count: u32 = match json::pick_u32(value, &count_list) {
        Some(count) => count,
        None => 0,
    };
    let is_own = match json::pick_i64(value, &own_list) {
        Some(mark) => mark == 1,
        None => false,
    };
    Some(
        Playlist {
            id,
            list_id,
            name,
            cover: json::pick_string(value, &cover_list),
            song_count,
            creator: json::pick_string(value, &creator_list),
            description: json::pick_string(value, &about_list),
            is_own,
        },
    )
}

/// The artist that `value` describes; none without a name.
pub open spec fn artist_of(value: Json) -> Option<ArtistModel> {
    match json::first_text(value, seq!["name", "author_name", "singername", "ArtistName"]) {
        Some(name) => Some(
            ArtistModel {
                id: or_zero(
                    json::first_number(value, seq!["id", "author_id", "singerid", "ArtistId"]),
                ),
                name,
                avatar: json::first_text(
                    value,
                    seq!["img", "avatar", "pic", "singer_img", "image"],
                ),
                song_count: json::first_u32(
                    value,
                    seq!["songcount", "song_count", "audio_count", "musicnum"],
                ),
                follower_count: json::first_u32(
                    value,
                    seq!["fanscount", "fans_count", "fansnum"],
                ),
            },
        ),
        None => None,
    }
}

/// [`artist_of`] as a value.
pub open spec fn artist_model() -> spec_fn(Json) -> Option<ArtistModel> {
    |value: Json| artist_of(value)
}

/// Reads an artist; none without a name.
pub fn artist_from_json(value: &Json) -> (r: Option<Artist>)
    ensures
        r.deep_view() == artist_of(*value),
{
    let name_list = ["name", "author_name", "singername", "ArtistName"];
    let id_list = ["id", "author_id", "singerid", "ArtistId"];
    let avatar_list = ["img", "avatar", "pic", "singer_img", "image"];
    let count_list = ["songcount", "song_count", "audio_count", "musicnum"];
    let fans_list = ["fanscount", "fans_count", "fansnum"];
    proof {
        assert(name_list@ =~= seq!["name", "author_name", "singername", "ArtistName"]);
        assert(id_list@ =~= seq!["id", "author_id", "singerid", "ArtistId"]);
        assert(avatar_list@ =~= seq!["img", "avatar", "pic", "singer_img", "image"]);
        assert(count_list@ =~= seq!["songcount", "song_count", "audio_count", "musicnum"]);
        assert(fans_list@ =~= seq!["fanscount", "fans_count", "fansnum"]);
    }
    match json::pick_string(value, &name_list) {
        Some(name) => {
            let id: i64 = match json::pick_i64(value, &id_list) {
                Some(id) => id,
                None => 0,
            };
            Some(
                Artist {
                    id,
                    name,
                    avatar: json::pick_string(value, &avatar_list),
                    song_count: json::pick_u32(value, &count_list),
                    follower_count: json::pick_u32(value, &fans_list),
                },
            )
        },
        None => None,
    }
}

/// The chart that `value` describes; none without a number and a name.
pub open spec fn rank_board_of(value: Json) -> Option<RankBoardModel> {
    let id = json::first_number(value, seq!["rankid", "rank_id", "id"]);
    let name = json::first_text(value, seq!["rankname", "rank_name", "name", "title"]);
    if id is None || name is None {
        None
    } else {
        Some(
            RankBoardModel {
                id: id->0,
                name: name->0,
                cover: json::first_text(value, seq!["imgurl", "img", "pic", "cover", "banner"]),
                update_frequency: json::first_text(
                    value,
                    seq!["update_frequency", "updatefrequency", "frequency"],
                ),
            },
        )
    }
}

/// [`rank_board_of`] as a value.
pub open spec fn rank_board_model() -> spec_fn(Json) -> Option<RankBoardModel> {
    |value: Json| rank_board_of(value)
}

/// Reads a chart; none without a number and a name.
pub fn rank_board_from_json(value: &Json) -> (r: Option<RankBoard>)
    ensures
        r.deep_view() == rank_board_of(*value),
{
    let id_list = ["rankid", "rank_id", "id"];
    let name_list = ["rankname", "rank_name", "name", "title"];
    let cover_list = ["imgurl", "img", "pic", "cover", "banner"];
    let update_list = ["update_frequency", "updatefrequency", "frequency"];
    proof {
        assert(id_list@ =~= seq!["rankid", "rank_id", "id"]);
        assert(name_list@ =~= seq!["rankname", "rank_name", "name", "title"]);
        assert(cover_list@ =~= seq!["imgurl", "img", "pic", "cover", "banner"]);
        assert(update_list@ =~= seq!["update_frequency", "updatefrequency", "frequency"]);
    }
    match (json::pick_i64(value, &id_list), json::pick_string(value, &name_list)) {
        (Some(id), Some(name)) => Some(
            RankBoard {
                id,
                name,
                cover: json::pick_string(value, &cover_list),
                update_frequency: json::pick_string(value, &update_list),
            },
        ),
        _ => None,
    }
}

/// A song is read under the names that searches and playlists use: its recording, its album, its
/// length, its place in a playlist and its rights.
pub proof fn songs_are_read_as_described(value: Json, hash: String, album: String, n: i64)
    ensures
        json::at(value, "FileHash"@) == Some(Json::Text(hash)) && text::trimmed(hash@).len() > 0 ==> (
        song_of(value) matches Some(song) && song.hash == text::trimmed(hash@)),
        json::at(value, "FileHash"@) is None && json::at(value, "hash"@) == Some(Json::Text(hash))
            && text::trimmed(hash@).len() > 0 ==> (song_of(value) matches Some(song) && song.hash
            == text::trimmed(hash@)),
        song_of(value) matches Some(song) && json::at(value, "AlbumID"@) == Some(Json::Text(album))
            && text::trimmed(album@).len() > 0 ==> song_of(value)->0.album_id == text::trimmed(
            album@,
        ),
        song_of(value) is Some && json::at(value, "Duration"@) == Some(Json::Int(n)) && n >= 10_000
            ==> song_of(value)->0.duration_ms == n,
        song_of(value) is Some && json::at(value, "Duration"@) == Some(Json::Int(n)) && 0 <= n
            < 10_000 ==> song_of(value)->0.duration_ms == n * 1_000,
        song_of(value) is Some && json::at(value, "Fileid"@) == Some(Json::Int(n)) ==> song_of(
            value,
        )->0.file_id == Some(n),
        song_of(value) is Some && json::at(value, "Privilege"@) == Some(Json::Int(n)) ==> song_of(
            value,
        )->0.privilege == Some(n),
        song_of(value) is Some && json::at(value, "AlbumAudioID"@) == Some(Json::Int(n)) ==> song_of(
            value,
        )->0.album_audio_id == n,
{
    reveal_with_fuel(json::first_number, 2);
    reveal_with_fuel(json::first_text, 3);
    reveal_with_fuel(json::first_u64, 2);
    assert(hash_keys()[0]@ == "FileHash"@);
    assert(hash_keys().drop_first()[0]@ == "hash"@);
    assert(seq!["AlbumID", "album_id"][0]@ == "AlbumID"@);
    assert(seq!["Duration", "duration", "timelength", "timelen"][0]@ == "Duration"@);
    assert(seq!["Fileid", "FileId", "fileid", "file_id"][0]@ == "Fileid"@);
    assert(seq!["Privilege", "privilege", "pay_type"][0]@ == "Privilege"@);
    assert(album_audio_keys()[0]@ == "AlbumAudioID"@);
}

/// An error code other than 0 is reported with the code and the place, whatever else the answer
/// holds; 0 or no code is none.
pub proof fn error_codes_are_reported(path: Seq<char>, root: Json, code: i64)
    ensures
        json::at(root, "error_code"@) == Some(Json::Int(code)) ==> (reported_error(path, root) is Some
            <==> code != 0),
        json::at(root, "error_code"@) == Some(Json::Int(code)) && code != 0 ==> (reported_error(
            path,
            root,
        ) matches Some(ErrorModel::Api { path: at, code: told, .. }) && at == path && told == code),
        json::at(root, "error_code"@) is None ==> reported_error(path, root) is None,
{
}

} // verus!
