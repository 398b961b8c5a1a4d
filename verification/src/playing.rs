//! Playing: starting and ending songs, moving in them, and the queue.
use vstd::prelude::*;
use crate::engine::{self, PlaybackState};
use crate::model::{self, Song, SongModel};
use crate::order::{self, Order, OrderModel};
use crate::panes::{self, LyricPane, LyricPaneModel};
use crate::queue::{self, QueueModel};
use crate::state::{
    config_model, player_model, status_model, Player, PlayerModel, StateModel, StatusModel,
};
use crate::tab::StatusLevel;
use crate::text;
use crate::update::{App, AppModel};

verus! {

/// A song that has been playing for longer than this begins anew before the song before it is
/// played.
pub const RESTART_THRESHOLD_MS: u64 = 3_000;

/// How far a lyric can be moved against its song, in milliseconds.
pub const LYRIC_OFFSET_LIMIT_MS: i64 = 10_000;

// ---------------------------------------------------------------------------
// The player
// ---------------------------------------------------------------------------
/// The lyric of a song is on its way.
pub open spec fn awaited_lyric(hash: Seq<char>) -> LyricPaneModel {
    LyricPaneModel { load: panes::busy(), ..panes::empty_lyric_pane(Some(hash)) }
}

impl PlayerModel {
    /// Where a song begins: where it was left, if it is the one whose place is remembered.
    pub open spec fn remembered(self, song: SongModel) -> u64 {
        match self.resume {
            Some(left) if left.0 == song.hash => left.1,
            _ => 0,
        }
    }

    /// A song is on its way. The place that is remembered counts for its own song only, and only
    /// once. That the song is a part is not known before its address is.
    pub open spec fn starting(self, song: SongModel) -> PlayerModel {
        PlayerModel {
            current: Some(song),
            current_is_trial: false,
            duration_ms: song.duration_ms,
            position_ms: self.remembered(song),
            lyric: awaited_lyric(song.hash),
            playback: PlaybackState::Loading,
            resume: None,
            ..self
        }
    }

    /// A row of the queue is selected, or the last.
    pub open spec fn pointing_at(self, index: int) -> PlayerModel {
        PlayerModel {
            queue_cursor: panes::row_or_last(index, self.queue.items.len() as int),
            ..self
        }
    }

    /// The selected row of the queue is one of it.
    pub open spec fn pointing_inside(self) -> PlayerModel {
        self.pointing_at(
            match self.queue_cursor {
                Some(index) => index as int,
                None => 0,
            },
        )
    }

    /// Nothing is playing.
    pub open spec fn silent(self) -> PlayerModel {
        PlayerModel {
            current: None,
            playback: PlaybackState::Stopped,
            position_ms: 0,
            duration_ms: 0,
            ..self
        }
    }
}

impl Player {
    /// Takes in that a song is on its way, and returns where it begins.
    fn begin(&mut self, song: &Song) -> (r: u64)
        requires
            old(self).deep_view().wf(),
        ensures
            r == old(self).deep_view().remembered(song.deep_view()),
            final(self).deep_view() == old(self).deep_view().starting(song.deep_view()),
            final(self).deep_view().wf(),
    {
        let start_at_ms: u64 = match &self.resume {
            Some(left) => if text::same(left.0.as_str(), song.hash.as_str()) {
                left.1
            } else {
                0
            },
            None => 0,
        };
        self.resume = None;
        self.current = Some(song.clone());
        self.current_is_trial = false;
        self.duration_ms = song.duration_ms;
        self.position_ms = start_at_ms;
        self.lyric = LyricPane::for_song(Some(song.hash.clone()));
        self.lyric.load.begin();
        self.playback = PlaybackState::Loading;
        start_at_ms
    }

    /// Selects a row of the queue, or the last.
    pub(crate) fn point_at(&mut self, index: usize)
        ensures
            final(self).deep_view() == old(self).deep_view().pointing_at(index as int),
            final(self).deep_view().wf() == old(self).deep_view().wf(),
    {
        let row = panes::clamp_row(index, self.queue.len());
        self.queue_cursor.select(row);
    }

    /// Sees to it that the selected row of the queue is one of it.
    pub(crate) fn point_inside(&mut self)
        ensures
            final(self).deep_view() == old(self).deep_view().pointing_inside(),
            final(self).deep_view().wf() == old(self).deep_view().wf(),
    {
        let index: usize = match self.queue_cursor.selected() {
            Some(index) => index,
            None => 0,
        };
        self.point_at(index);
    }

    /// Takes in that nothing is playing.
    pub(crate) fn silence(&mut self)
        ensures
            final(self).deep_view() == old(self).deep_view().silent(),
            final(self).deep_view().wf() == old(self).deep_view().wf(),
    {
        self.current = None;
        self.playback = PlaybackState::Stopped;
        self.position_ms = 0;
        self.duration_ms = 0;
    }
}

// ---------------------------------------------------------------------------
// Starting and ending
// ---------------------------------------------------------------------------
/// The name of a song among the kept ones.
pub open spec fn kept_name(song: SongModel, quality: Seq<char>) -> Seq<char> {
    text::lowercase(song.hash) + "-"@ + quality
}

/// What is said when a song is on its way; a song that may not be had is warned of.
pub open spec fn starting_words(song: SongModel) -> (StatusLevel, Seq<char>) {
    if song.privilege != Some(0i64) {
        (StatusLevel::Info, "正在解析播放地址："@ + order::song_label(song))
    } else {
        (
            StatusLevel::Warning,
            "《"@ + song.name + "》可能受版权限制（VIP/已下架），若取链失败请换一首"@,
        )
    }
}

impl AppModel {
    /// No download is under way.
    #[verifier::opaque]
    pub open spec fn not_downloading(self) -> AppModel {
        AppModel {
            state: StateModel {
                status: StatusModel { download_progress: None, ..self.state.status },
                ..self.state
            },
            ..self
        }
    }

    /// A song is on its way: its lyric is asked for, and it is looked for among the kept ones.
    #[verifier::opaque]
    pub open spec fn starting(self, song: SongModel) -> AppModel {
        self.played(self.state.player.starting(song)).not_downloading().ordering(
            OrderModel::MarkLoading,
        ).told(starting_words(song).0, starting_words(song).1).ordering(
            OrderModel::FetchLyric { song },
        ).ordering(
            OrderModel::Resolve {
                song,
                key: kept_name(song, self.state.config.quality),
                start_at_ms: self.state.player.remembered(song),
            },
        )
    }

    /// A song was looked for among the kept ones: it is played from its file, or asked for.
    #[verifier::opaque]
    pub open spec fn resolved(
        self,
        song: SongModel,
        start_at_ms: u64,
        found: Option<Seq<char>>,
    ) -> AppModel {
        self.ordering(
            match found {
                Some(path) => OrderModel::Play {
                    path,
                    start_at_ms,
                    duration_ms: song.duration_ms,
                },
                None => OrderModel::FetchStream {
                    song,
                    quality: self.state.config.quality,
                    start_at_ms,
                },
            },
        )
    }

    /// The queue holds these songs, and the one at `index` is on its way.
    #[verifier::opaque]
    pub open spec fn playing_from(self, songs: Seq<SongModel>, index: usize) -> AppModel {
        let player = self.state.player;
        let queue = player.queue.replaced(songs, index);
        let queued = PlayerModel { queue, ..player };
        if songs.len() == 0 {
            self.played(queued).told(StatusLevel::Warning, "列表为空，无法播放"@)
        } else {
            self.played(queued.pointing_at(index as int)).starting(queue.playing()->0)
        }
    }

    /// The selected song of the list that has the keys is on its way, with the list as queue.
    #[verifier::opaque]
    pub open spec fn playing_focused(self) -> AppModel {
        match self.state.focused_songs() {
            Some(list) if list.chosen() is Some => self.playing_from(
                list.songs,
                list.selected->0,
            ),
            _ => self.told(StatusLevel::Warning, "当前没有可播放的歌曲"@),
        }
    }

    /// The selected song of the queue is on its way.
    #[verifier::opaque]
    pub open spec fn playing_queued(self) -> AppModel {
        let player = self.state.player;
        match player.queue_choice() {
            Some(song) => self.played(
                PlayerModel {
                    queue: QueueModel { cursor: player.queue_cursor, ..player.queue },
                    ..player
                },
            ).starting(song),
            None => self.told(StatusLevel::Warning, "播放队列为空"@),
        }
    }

    /// What plays is paused or goes on; where nothing plays, the song whose turn it is begins. While
    /// a song is on its way nothing happens.
    #[verifier::opaque]
    pub open spec fn toggling(self) -> AppModel {
        match self.state.player.playback {
            PlaybackState::Loading => self,
            PlaybackState::Playing | PlaybackState::Paused => self.ordering(
                OrderModel::TogglePause,
            ),
            PlaybackState::Stopped => match self.state.player.queue.playing() {
                Some(song) => self.starting(song),
                None => self.playing_focused(),
            },
        }
    }

    /// The queue has moved to `target`, and the song there is on its way.
    #[verifier::opaque]
    pub open spec fn moving_to(self, target: int) -> AppModel {
        let player = self.state.player;
        self.played(
            (PlayerModel {
                queue: queue::moved(player.queue, Some(target)),
                ..player
            }).pointing_at(target),
        ).starting(player.queue.items[target])
    }

    /// The next song is on its way; at the end of the queue the sound stops.
    #[verifier::opaque]
    pub open spec fn going_on(self, by_user: bool, draw: usize) -> AppModel {
        let player = self.state.player;
        match queue::place_after(player.queue, by_user, drawn(draw, player.queue)) {
            Some(target) => self.moving_to(target),
            None => self.played(
                PlayerModel {
                    queue: queue::moved(player.queue, None),
                    playback: PlaybackState::Stopped,
                    position_ms: 0,
                    ..player
                },
            ).ordering(OrderModel::StopSound).told(StatusLevel::Info, "播放队列已到末尾"@),
        }
    }

    /// The song begins anew, or the song before it is on its way.
    #[verifier::opaque]
    pub open spec fn stepping_back(self, draw: usize) -> AppModel {
        let player = self.state.player;
        if player.position_ms > RESTART_THRESHOLD_MS {
            self.played(PlayerModel { position_ms: 0, ..player }).ordering(OrderModel::SeekTo(0))
        } else {
            match queue::place_before(player.queue, drawn(draw, player.queue)) {
                Some(target) => self.moving_to(target),
                None => self.played(
                    PlayerModel { queue: queue::moved(player.queue, None), ..player },
                ).told(StatusLevel::Warning, "播放队列为空"@),
            }
        }
    }

    /// A place in the song was chosen.
    #[verifier::opaque]
    pub open spec fn sought(self, position_ms: u64) -> AppModel {
        let player = self.state.player;
        if player.current is None {
            self
        } else {
            let target = engine::place_within(position_ms, player.duration_ms);
            self.played(PlayerModel { position_ms: target, ..player }).ordering(
                OrderModel::SeekTo(target),
            )
        }
    }

    /// The song was moved on or back.
    #[verifier::opaque]
    pub open spec fn sought_by(self, delta_ms: i64) -> AppModel {
        let player = self.state.player;
        if player.current is None {
            self
        } else {
            let next = engine::place_by(player.position_ms, delta_ms);
            self.played(
                PlayerModel {
                    position_ms: if player.duration_ms == 0 || next < player.duration_ms {
                        next
                    } else {
                        player.duration_ms
                    },
                    ..player
                },
            ).ordering(OrderModel::SeekBy(delta_ms))
        }
    }
}

/// What chance offers among the songs of a queue, from any number.
pub open spec fn drawn(draw: usize, queue: QueueModel) -> int {
    if queue.items.len() == 0 {
        0
    } else {
        draw as int % queue.items.len() as int
    }
}

impl App {
    /// Takes in that no download is under way.
    pub(crate) fn end_download(&mut self)
        ensures
            final(self).deep_view() == old(self).deep_view().not_downloading(),
            final(self).deep_view().wf() == old(self).deep_view().wf(),
            final(self).state.config == old(self).state.config,
            final(self).state.player == old(self).state.player,
    {
        proof {
            reveal(AppModel::wf);
            reveal(AppModel::not_downloading);
            reveal(status_model);
        }
        self.state.status.download_progress = None;
    }

    /// Sends for a song.
    pub(crate) fn start_playback(&mut self, song: Song)
        requires
            old(self).deep_view().wf(),
        ensures
            final(self).deep_view() == old(self).deep_view().starting(song.deep_view()),
            final(self).deep_view().wf(),
    {
        proof {
            reveal(AppModel::wf);
            reveal(AppModel::starting);
            reveal(config_model);
        }
        let key = song.cache_key(self.state.config.quality.as_str());
        let start_at_ms: u64 = self.put_on(&song);
        self.end_download();
        self.order(Order::MarkLoading);
        if song.looks_playable() {
            self.tell(
                StatusLevel::Info,
                text::join2("正在解析播放地址：", order::describe_song(&song).as_str()),
            );
        } else {
            self.tell(
                StatusLevel::Warning,
                text::join3(
                    "《",
                    song.name.as_str(),
                    "》可能受版权限制（VIP/已下架），若取链失败请换一首",
                ),
            );
        }
        self.order(Order::FetchLyric { song: song.clone() });
        self.order(Order::Resolve { song, key, start_at_ms });
    }

    /// Takes in that a song is on its way, and returns where it begins.
    fn put_on(&mut self, song: &Song) -> (r: u64)
        requires
            old(self).deep_view().wf(),
        ensures
            r == old(self).deep_view().state.player.remembered(song.deep_view()),
            final(self).deep_view() == old(self).deep_view().played(
                old(self).deep_view().state.player.starting(song.deep_view()),
            ),
            final(self).deep_view().wf(),
    {
        proof {
            reveal(AppModel::wf);
            reveal(player_model);
        }
        self.state.player.begin(song)
    }

    /// Plays a song from where it was found among the kept ones, or asks for it.
    pub fn request_stream(&mut self, song: Song, start_at_ms: u64, found: Option<String>)
        requires
            old(self).deep_view().wf(),
        ensures
            final(self).deep_view() == old(self).deep_view().resolved(
                song.deep_view(),
                start_at_ms,
                found.deep_view(),
            ),
            final(self).deep_view().wf(),
    {
        proof {
            reveal(AppModel::wf);
            reveal(AppModel::resolved);
            reveal(config_model);
        }
        match found {
            Some(path) => self.order(
                Order::Play { path, start_at_ms, duration_ms: song.duration_ms },
            ),
            None => {
                let quality = self.state.config.quality.clone();
                self.order(Order::FetchStream { song, quality, start_at_ms });
            },
        }
    }

    /// Plays songs from the one at `index`.
    pub fn play_from(&mut self, songs: Vec<Song>, index: usize)
        requires
            old(self).deep_view().wf(),
        ensures
            final(self).deep_view() == old(self).deep_view().playing_from(songs.deep_view(), index),
            final(self).deep_view().wf(),
    {
        proof {
            reveal(AppModel::playing_from);
        }
        let chosen = self.queue_up(songs, index);
        match chosen {
            Some(song) => {
                self.select_queue_row(index);
                self.start_playback(song);
            },
            None => self.tell(StatusLevel::Warning, "列表为空，无法播放".to_owned()),
        }
    }

    /// Exchanges the songs of the queue, and returns the one at `index`, or the last.
    fn queue_up(&mut self, songs: Vec<Song>, index: usize) -> (r: Option<Song>)
        requires
            old(self).deep_view().wf(),
        ensures
            final(self).deep_view() == old(self).deep_view().played(
                PlayerModel {
                    queue: old(self).deep_view().state.player.queue.replaced(
                        songs.deep_view(),
                        index,
                    ),
                    ..old(self).deep_view().state.player
                },
            ),
            final(self).deep_view().wf(),
            match r {
                Some(song) => songs@.len() > 0
                    && final(self).deep_view().state.player.queue.playing() == Some(
                    song.deep_view(),
                ),
                None => songs@.len() == 0,
            },
    {
        proof {
            reveal(AppModel::wf);
            reveal(player_model);
        }
        match self.state.player.queue.replace_with(songs, index) {
            Some(song) => Some(song.clone()),
            None => None,
        }
    }

    /// Selects a row of the queue, or the last.
    fn select_queue_row(&mut self, index: usize)
        ensures
            final(self).deep_view() == old(self).deep_view().played(
                old(self).deep_view().state.player.pointing_at(index as int),
            ),
            final(self).deep_view().wf() == old(self).deep_view().wf(),
    {
        proof {
            reveal(AppModel::wf);
            reveal(player_model);
        }
        self.state.player.point_at(index);
    }

    /// Plays the selected song of the list that has the keys.
    pub(crate) fn play_from_focused_songs(&mut self)
        requires
            old(self).deep_view().wf(),
        ensures
            final(self).deep_view() == old(self).deep_view().playing_focused(),
            final(self).deep_view().wf(),
    {
        proof {
            reveal(AppModel::playing_focused);
        }
        let chosen: Option<(Vec<Song>, usize)> = match self.state.focused_songs() {
            Some(list) => match list.selected_index() {
                Some(index) => Some((model::copy_songs(list.songs.as_slice()), index)),
                None => None,
            },
            None => None,
        };
        match chosen {
            Some((songs, index)) => self.play_from(songs, index),
            None => self.tell(StatusLevel::Warning, "当前没有可播放的歌曲".to_owned()),
        }
    }

    /// Plays the selected song of the queue.
    pub(crate) fn play_from_queue(&mut self)
        requires
            old(self).deep_view().wf(),
        ensures
            final(self).deep_view() == old(self).deep_view().playing_queued(),
            final(self).deep_view().wf(),
    {
        proof {
            reveal(AppModel::wf);
            reveal(AppModel::playing_queued);
            reveal(player_model);
        }
        let index: usize = match self.state.player.queue_cursor.selected() {
            Some(index) => index,
            None => {
                self.tell(StatusLevel::Warning, "播放队列为空".to_owned());
                return ;
            },
        };
        let song = match self.state.player.queue.jump_to(index) {
            Some(song) => song.clone(),
            None => {
                self.tell(StatusLevel::Warning, "播放队列为空".to_owned());
                return ;
            },
        };
        self.start_playback(song);
    }

    /// Pauses, goes on, or begins.
    pub(crate) fn toggle_playback(&mut self)
        requires
            old(self).deep_view().wf(),
        ensures
            final(self).deep_view() == old(self).deep_view().toggling(),
            final(self).deep_view().wf(),
    {
        proof {
            reveal(AppModel::wf);
            reveal(AppModel::toggling);
            reveal(player_model);
        }
        match self.state.player.playback {
            PlaybackState::Loading => {},
            PlaybackState::Playing | PlaybackState::Paused => self.order(Order::TogglePause),
            PlaybackState::Stopped => {
                let song = match self.state.player.queue.current() {
                    Some(song) => Some(song.clone()),
                    None => None,
                };
                match song {
                    Some(song) => self.start_playback(song),
                    None => self.play_from_focused_songs(),
                }
            },
        }
    }

    /// Moves the queue to a place.
    fn move_queue(&mut self, target: usize)
        requires
            old(self).deep_view().wf(),
            target < old(self).deep_view().state.player.queue.items.len(),
        ensures
            final(self).deep_view() == old(self).deep_view().played(
                PlayerModel {
                    queue: queue::moved(
                        old(self).deep_view().state.player.queue,
                        Some(target as int),
                    ),
                    ..old(self).deep_view().state.player
                },
            ),
            final(self).deep_view().wf(),
    {
        proof {
            reveal(AppModel::wf);
            reveal(player_model);
        }
        let _ = self.state.player.queue.jump_to(target);
    }

    /// Plays the song of the queue at `target`.
    pub(crate) fn play_queued(&mut self, target: usize)
        requires
            old(self).deep_view().wf(),
            target < old(self).deep_view().state.player.queue.items.len(),
        ensures
            final(self).deep_view() == old(self).deep_view().moving_to(target as int),
            final(self).deep_view().wf(),
    {
        proof {
            reveal(AppModel::moving_to);
        }
        self.move_queue(target);
        self.play_at(target);
    }

    /// Plays the song of the queue at `target`, to which it has just moved.
    fn play_at(&mut self, target: usize)
        requires
            old(self).deep_view().wf(),
            old(self).deep_view().state.player.queue.cursor == Some(target),
        ensures
            final(self).deep_view() == old(self).deep_view().played(
                old(self).deep_view().state.player.pointing_at(target as int),
            ).starting(old(self).deep_view().state.player.queue.items[target as int]),
            final(self).deep_view().wf(),
    {
        proof {
            reveal(AppModel::wf);
            reveal(player_model);
        }
        self.state.player.point_at(target);
        let song = match self.state.player.queue.current() {
            Some(song) => song.clone(),
            None => {
                return ;
            },
        };
        self.start_playback(song);
    }

    /// Moves the queue on.
    fn advance_queue(&mut self, by_user: bool, draw: usize) -> (r: Option<usize>)
        requires
            old(self).deep_view().wf(),
        ensures
            final(self).deep_view() == old(self).deep_view().played(
                PlayerModel {
                    queue: queue::moved(
                        old(self).deep_view().state.player.queue,
                        queue::place_after(
                            old(self).deep_view().state.player.queue,
                            by_user,
                            drawn(draw, old(self).deep_view().state.player.queue),
                        ),
                    ),
                    ..old(self).deep_view().state.player
                },
            ),
            match r {
                Some(target) => queue::place_after(
                    old(self).deep_view().state.player.queue,
                    by_user,
                    drawn(draw, old(self).deep_view().state.player.queue),
                ) == Some(target as int),
                None => queue::place_after(
                    old(self).deep_view().state.player.queue,
                    by_user,
                    drawn(draw, old(self).deep_view().state.player.queue),
                ) is None,
            },
            final(self).deep_view().wf(),
    {
        proof {
            reveal(AppModel::wf);
            reveal(player_model);
        }
        let len: usize = self.state.player.queue.len();
        let offered: usize = if len == 0 {
            0
        } else {
            draw % len
        };
        self.state.player.queue.advance_with(by_user, offered)
    }

    /// Plays the next song.
    pub(crate) fn next_track(&mut self, triggered_by_user: bool, draw: usize)
        requires
            old(self).deep_view().wf(),
        ensures
            final(self).deep_view() == old(self).deep_view().going_on(triggered_by_user, draw),
            final(self).deep_view().wf(),
    {
        proof {
            reveal(AppModel::going_on);
            reveal(AppModel::moving_to);
        }
        match self.advance_queue(triggered_by_user, draw) {
            Some(target) => self.play_at(target),
            None => {
                self.halt();
                self.order(Order::StopSound);
                self.tell(StatusLevel::Info, "播放队列已到末尾".to_owned());
            },
        }
    }

    /// Takes in that the sound stops.
    fn halt(&mut self)
        ensures
            final(self).deep_view() == old(self).deep_view().played(
                PlayerModel {
                    playback: PlaybackState::Stopped,
                    position_ms: 0,
                    ..old(self).deep_view().state.player
                },
            ),
            final(self).deep_view().wf() == old(self).deep_view().wf(),
    {
        proof {
            reveal(AppModel::wf);
            reveal(player_model);
        }
        self.state.player.playback = PlaybackState::Stopped;
        self.state.player.position_ms = 0;
    }

    /// Moves the queue back.
    fn retreat_queue(&mut self, draw: usize) -> (r: Option<usize>)
        requires
            old(self).deep_view().wf(),
        ensures
            final(self).deep_view() == old(self).deep_view().played(
                PlayerModel {
                    queue: queue::moved(
                        old(self).deep_view().state.player.queue,
                        queue::place_before(
                            old(self).deep_view().state.player.queue,
                            drawn(draw, old(self).deep_view().state.player.queue),
                        ),
                    ),
                    ..old(self).deep_view().state.player
                },
            ),
            match r {
                Some(target) => queue::place_before(
                    old(self).deep_view().state.player.queue,
                    drawn(draw, old(self).deep_view().state.player.queue),
                ) == Some(target as int),
                None => queue::place_before(
                    old(self).deep_view().state.player.queue,
                    drawn(draw, old(self).deep_view().state.player.queue),
                ) is None,
            },
            final(self).deep_view().wf(),
    {
        proof {
            reveal(AppModel::wf);
            reveal(player_model);
        }
        let len: usize = self.state.player.queue.len();
        let offered: usize = if len == 0 {
            0
        } else {
            draw % len
        };
        self.state.player.queue.retreat_with(offered)
    }

    /// Begins the song anew, or plays the song before it.
    pub(crate) fn previous_track(&mut self, draw: usize)
        requires
            old(self).deep_view().wf(),
        ensures
            final(self).deep_view() == old(self).deep_view().stepping_back(draw),
            final(self).deep_view().wf(),
    {
        proof {
            reveal(AppModel::stepping_back);
            reveal(AppModel::moving_to);
        }
        if self.position() > RESTART_THRESHOLD_MS {
            self.set_position(0);
            self.order(Order::SeekTo(0));
            return ;
        }
        match self.retreat_queue(draw) {
            Some(target) => self.play_at(target),
            None => self.tell(StatusLevel::Warning, "播放队列为空".to_owned()),
        }
    }

    /// Where the song is.
    fn position(&self) -> (r: u64)
        ensures
            r == self.deep_view().state.player.position_ms,
    {
        proof {
            reveal(AppModel::wf);
            reveal(player_model);
        }
        self.state.player.position_ms
    }

    /// Takes in where the song is.
    pub(crate) fn set_position(&mut self, position_ms: u64)
        ensures
            final(self).deep_view() == old(self).deep_view().played(
                PlayerModel { position_ms, ..old(self).deep_view().state.player },
            ),
            final(self).deep_view().wf() == old(self).deep_view().wf(),
    {
        proof {
            reveal(AppModel::wf);
            reveal(player_model);
        }
        self.state.player.position_ms = position_ms;
    }

    /// Goes to a place in the song.
    pub(crate) fn seek_to(&mut self, position_ms: u64)
        requires
            old(self).deep_view().wf(),
        ensures
            final(self).deep_view() == old(self).deep_view().sought(position_ms),
            final(self).deep_view().wf(),
    {
        proof {
            reveal(AppModel::wf);
            reveal(AppModel::sought);
            reveal(player_model);
        }
        if self.state.player.current.is_none() {
            return ;
        }
        let target: u64 = engine::clamp_position(position_ms, self.state.player.duration_ms);
        self.set_position(target);
        self.order(Order::SeekTo(target));
    }

    /// Moves the song on or back.
    pub(crate) fn seek_by(&mut self, delta_ms: i64)
        requires
            old(self).deep_view().wf(),
        ensures
            final(self).deep_view() == old(self).deep_view().sought_by(delta_ms),
            final(self).deep_view().wf(),
    {
        proof {
            reveal(AppModel::wf);
            reveal(AppModel::sought_by);
            reveal(player_model);
        }
        if self.state.player.current.is_none() {
            return ;
        }
        let next: u64 = engine::shifted(self.state.player.position_ms, delta_ms);
        let duration: u64 = self.state.player.duration_ms;
        let target: u64 = if duration == 0 || next < duration {
            next
        } else {
            duration
        };
        self.set_position(target);
        self.order(Order::SeekBy(delta_ms));
    }
}

// ---------------------------------------------------------------------------
// Laws
// ---------------------------------------------------------------------------
/// What is played from a list plays in the order of the list: the queue is the list, and the song
/// whose turn it is is the one that was chosen.
pub proof fn lists_play_as_they_are_shown(app: AppModel, songs: Seq<SongModel>, index: usize)
    requires
        index < songs.len(),
    ensures
        app.playing_from(songs, index).state.player.queue.items == songs,
        app.playing_from(songs, index).state.player.queue.cursor == Some(index),
        app.playing_from(songs, index).state.player.current == Some(songs[index as int]),
        app.playing_from(songs, index).state.player.queue_cursor == Some(index),
{
    reveal(AppModel::playing_from);
    reveal(AppModel::starting);
    reveal(AppModel::not_downloading);
    reveal(AppModel::ordering);
    reveal(AppModel::told);
}

/// A song that is found among the kept ones is played without asking the service for it.
pub proof fn kept_songs_need_no_service(
    app: AppModel,
    song: SongModel,
    start_at_ms: u64,
    path: Seq<char>,
)
    ensures
        app.resolved(song, start_at_ms, Some(path)) == app.ordering(
            OrderModel::Play { path, start_at_ms, duration_ms: song.duration_ms },
        ),
{
    reveal(AppModel::resolved);
}

/// Wherever the user goes in a song whose length is known, it is a place in the song.
pub proof fn sought_places_are_in_the_song(app: AppModel, position_ms: u64, delta_ms: i64)
    requires
        app.state.player.duration_ms > 0,
        app.state.player.current is Some,
    ensures
        app.sought(position_ms).state.player.position_ms < app.state.player.duration_ms,
        app.sought_by(delta_ms).state.player.position_ms <= app.state.player.duration_ms,
{
    reveal(AppModel::sought);
    reveal(AppModel::sought_by);
    reveal(AppModel::ordering);
}

} // verus!
