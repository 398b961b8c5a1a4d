//! What the desktop sees of the player, and what it may ask of it.
use vstd::prelude::*;
use crate::engine::PlaybackState;
use crate::keymap::Action;
use crate::model::{self, SongModel};
use crate::state::player_model;
use crate::text;
use crate::update::App;

verus! {

/// The name of the player on the bus.
pub const BUS_NAME: &'static str = "org.mpris.MediaPlayer2.kugou-tui";

/// Where it stands on the bus.
pub const OBJECT_PATH: &'static str = "/org/mpris/MediaPlayer2";

/// How large the cover is that the desktop is given, in pixels.
pub const COVER_SIZE: u32 = 400;

/// A leap of more than this many microseconds is told at once.
pub const POSITION_LEAP_US: i64 = 1_000_000;

/// What the desktop sees.
#[derive(Debug)]
pub struct TrackInfo {
    pub title: String,
    pub artists: Vec<String>,
    pub album: String,
    pub art_url: Option<String>,
    /// In microseconds.
    pub position_us: i64,
    pub duration_us: i64,
    pub status: PlaybackState,
}

pub struct TrackModel {
    pub title: Seq<char>,
    pub artists: Seq<Seq<char>>,
    pub album: Seq<char>,
    pub art_url: Option<Seq<char>>,
    pub position_us: i64,
    pub duration_us: i64,
    pub status: PlaybackState,
}

impl DeepView for TrackInfo {
    type V = TrackModel;

    open spec fn deep_view(&self) -> TrackModel {
        TrackModel {
            title: self.title@,
            artists: text::views(self.artists@),
            album: self.album@,
            art_url: self.art_url.deep_view(),
            position_us: self.position_us,
            duration_us: self.duration_us,
            status: self.status,
        }
    }
}

/// What the desktop sees where nothing is playing.
pub open spec fn no_track(status: PlaybackState) -> TrackModel {
    TrackModel {
        title: Seq::empty(),
        artists: Seq::empty(),
        album: Seq::empty(),
        art_url: None,
        position_us: 0,
        duration_us: 0,
        status,
    }
}

impl Default for TrackInfo {
    fn default() -> (r: Self)
        ensures
            r.deep_view() == no_track(PlaybackState::Stopped),
    {
        empty_track(PlaybackState::Stopped)
    }
}

/// What the desktop sees where nothing is playing.
fn empty_track(status: PlaybackState) -> (r: TrackInfo)
    ensures
        r.deep_view() == no_track(status),
{
    let r = TrackInfo {
        title: String::new(),
        artists: Vec::new(),
        album: String::new(),
        art_url: None,
        position_us: 0,
        duration_us: 0,
        status,
    };
    proof {
        assert(text::views(r.artists@) =~= Seq::<Seq<char>>::empty());
    }
    r
}

/// The word for a state. A song that is on its way counts as none.
pub open spec fn status_word(status: PlaybackState) -> Seq<char> {
    match status {
        PlaybackState::Playing => "Playing"@,
        PlaybackState::Paused => "Paused"@,
        PlaybackState::Stopped | PlaybackState::Loading => "Stopped"@,
    }
}

/// What the desktop sees of a song.
pub open spec fn track_of(
    song: SongModel,
    position_ms: u64,
    duration_ms: u64,
    status: PlaybackState,
) -> TrackModel {
    TrackModel {
        title: song.name,
        artists: model::singer_names(song.singers),
        album: song.album_name,
        art_url: match song.cover {
            Some(url) => Some(text::replaced(url, "{size}"@, text::decimal(COVER_SIZE as nat))),
            None => None,
        },
        position_us: (position_ms * 1000) as i64,
        duration_us: (duration_ms * 1000) as i64,
        status,
    }
}

/// Two states differ in a way that the desktop is told of: a leap, but not the steady passing of
/// time.
pub open spec fn differ(before: TrackModel, now: TrackModel) -> bool {
    before.title != now.title || before.artists != now.artists || before.album != now.album
        || before.art_url != now.art_url || status_word(before.status) != status_word(now.status)
        || before.position_us - now.position_us > POSITION_LEAP_US || now.position_us
        - before.position_us > POSITION_LEAP_US
}

impl TrackInfo {
    /// The word for the state.
    pub fn status_str(&self) -> (r: &'static str)
        ensures
            r@ == status_word(self.status),
    {
        match self.status {
            PlaybackState::Playing => "Playing",
            PlaybackState::Paused => "Paused",
            PlaybackState::Stopped | PlaybackState::Loading => "Stopped",
        }
    }

    /// Whether the desktop is told, after it was told of `last`.
    pub fn has_changed(&self, last: Option<&TrackInfo>) -> (r: bool)
        ensures
            r == match last {
                Some(before) => differ(before.deep_view(), self.deep_view()),
                None => true,
            },
    {
        let before = match last {
            Some(before) => before,
            None => {
                return true;
            },
        };
        let leap: i128 = before.position_us as i128 - self.position_us as i128;
        !text::same(before.title.as_str(), self.title.as_str()) || !same_list(
            &before.artists,
            &self.artists,
        ) || !text::same(before.album.as_str(), self.album.as_str()) || !same_option(
            &before.art_url,
            &self.art_url,
        ) || !text::same(before.status_str(), self.status_str()) || leap
            > POSITION_LEAP_US as i128 || leap < -(POSITION_LEAP_US as i128)
    }
}

/// Whether two lists hold the same texts.
fn same_list(a: &Vec<String>, b: &Vec<String>) -> (r: bool)
    ensures
        r == (text::views(a@) == text::views(b@)),
{
    if a.len() != b.len() {
        proof {
            assert(text::views(a@).len() != text::views(b@).len());
        }
        return false;
    }
    let mut i: usize = 0;
    while i < a.len()
        invariant
            i <= a@.len(),
            a@.len() == b@.len(),
            forall|k: int| 0 <= k < i ==> (#[trigger] a@[k])@ == b@[k]@,
        decreases a@.len() - i,
    {
        if !text::same(a[i].as_str(), b[i].as_str()) {
            proof {
                assert(text::views(a@)[i as int] != text::views(b@)[i as int]);
            }
            return false;
        }
        i += 1;
    }
    proof {
        assert(text::views(a@) =~= text::views(b@));
    }
    true
}

/// Whether two texts that may be missing are the same.
fn same_option(a: &Option<String>, b: &Option<String>) -> (r: bool)
    ensures
        r == (a.deep_view() == b.deep_view()),
{
    match (a, b) {
        (Some(x), Some(y)) => text::same(x.as_str(), y.as_str()),
        (None, None) => true,
        _ => false,
    }
}

impl App {
    /// What the desktop sees.
    pub fn now_playing(&self) -> (r: TrackInfo)
        requires
            self.deep_view().state.player.position_ms * 1000 <= i64::MAX,
            self.deep_view().state.player.duration_ms * 1000 <= i64::MAX,
        ensures
            r.deep_view() == match self.deep_view().state.player.current {
                Some(song) => track_of(
                    song,
                    self.deep_view().state.player.position_ms,
                    self.deep_view().state.player.duration_ms,
                    self.deep_view().state.player.playback,
                ),
                None => no_track(self.deep_view().state.player.playback),
            },
    {
        proof {
            reveal(player_model);
        }
        match &self.state.player.current {
            Some(song) => TrackInfo {
                title: song.name.clone(),
                artists: song.artist_names(),
                album: song.album_name.clone(),
                art_url: song.cover_url(COVER_SIZE),
                position_us: self.state.player.position_ms as i64 * 1000,
                duration_us: self.state.player.duration_ms as i64 * 1000,
                status: self.state.player.playback,
            },
            None => empty_track(self.state.player.playback),
        }
    }
}

// ---------------------------------------------------------------------------
// What the desktop may ask
// ---------------------------------------------------------------------------
/// The desktop wants the music to play: nothing happens where it does.
pub fn on_play(status: PlaybackState) -> (r: Option<Action>)
    ensures
        r == if status == PlaybackState::Playing {
            None
        } else {
            Some(Action::PlayPause)
        },
{
    if status == PlaybackState::Playing {
        None
    } else {
        Some(Action::PlayPause)
    }
}

/// The desktop wants the music to pause, or to stop: nothing happens where it does not play.
pub fn on_pause(status: PlaybackState) -> (r: Option<Action>)
    ensures
        r == if status == PlaybackState::Playing {
            Some(Action::PlayPause)
        } else {
            None
        },
{
    if status == PlaybackState::Playing {
        Some(Action::PlayPause)
    } else {
        None
    }
}

/// The desktop wants to go to a place in the song, in microseconds.
pub fn on_set_position(position_us: i64) -> (r: Option<Action>)
    ensures
        r == if position_us < 0 {
            None
        } else {
            Some(Action::SeekTo((position_us / 1000) as u64))
        },
{
    if position_us < 0 {
        None
    } else {
        Some(Action::SeekTo(position_us as u64 / 1000))
    }
}

/// A number of microseconds in whole milliseconds, towards zero.
pub open spec fn whole_ms(us: i64) -> int {
    if us >= 0 {
        us as int / 1000
    } else {
        -((-us) / 1000)
    }
}

/// The desktop wants to move on or back in the song, by so many microseconds. However far it is, it
/// is one move.
pub fn on_seek(offset_us: i64) -> (r: Option<Action>)
    ensures
        r == if whole_ms(offset_us) == 0 {
            None
        } else {
            Some(Action::SeekBy(whole_ms(offset_us) as i64))
        },
{
    let wide: i128 = offset_us as i128;
    let step: i64 = if offset_us >= 0 {
        (wide / 1000) as i64
    } else {
        -(((-wide) / 1000) as i64)
    };
    if step == 0 {
        None
    } else {
        Some(Action::SeekBy(step))
    }
}

/// The desktop is not told again of what it was just told of.
pub proof fn the_desktop_is_told_once(track: TrackModel)
    ensures
        !differ(track, track),
{
}

/// The desktop counts in microseconds, and is told the names that the song has.
pub proof fn the_desktop_counts_in_microseconds(
    song: SongModel,
    position_ms: u64,
    duration_ms: u64,
    status: PlaybackState,
)
    requires
        position_ms <= 9_000_000_000_000_000,
        duration_ms <= 9_000_000_000_000_000,
    ensures
        ({
            let track = track_of(song, position_ms, duration_ms, status);
            &&& track.position_us == position_ms * 1000
            &&& track.duration_us == duration_ms * 1000
            &&& track.title == song.name
            &&& track.album == song.album_name
            &&& track.artists.len() == song.singers.len()
            &&& track.status == status
            &&& track.art_url is Some <==> song.cover is Some
        }),
        status_word(PlaybackState::Playing) == "Playing"@,
        status_word(PlaybackState::Paused) == "Paused"@,
        status_word(PlaybackState::Stopped) == "Stopped"@,
        status_word(PlaybackState::Loading) == "Stopped"@,
{
}

} // verus!
