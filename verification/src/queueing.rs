//! Filling and emptying the queue, and the order in which songs are shown and played.
use vstd::prelude::*;
use crate::config::ConfigModel;
use crate::model::{self, Song, SongModel};
use crate::order::{self, Order, OrderModel};
use crate::panes::{self, ArtistPaneModel, CloudPaneModel, PlaylistPaneModel, RankPaneModel, SearchModel};
use crate::playing::LYRIC_OFFSET_LIMIT_MS;
use crate::queue::QueueModel;
use crate::settings;
use crate::state::{
    artists_model, cloud_model, config_model, pages_model, player_model, playlists_model,
    ranks_model, screen_model, search_model, Pages, PagesModel, PlayerModel, StateModel,
};
use crate::tab::{Focus, StatusLevel};
use crate::text;
use crate::update::{App, AppModel};

verus! {

impl QueueModel {
    /// The queue with a song behind the others.
    pub open spec fn appended(self, song: SongModel) -> QueueModel {
        QueueModel {
            items: self.items.push(song),
            cursor: match self.cursor {
                Some(index) => Some(index),
                None => Some(self.items.len() as usize),
            },
            ..self
        }
    }

    /// The queue with a song behind the one whose turn it is.
    pub open spec fn preferring(self, song: SongModel) -> QueueModel {
        QueueModel {
            items: self.items.insert(self.next_place(), song),
            cursor: match self.cursor {
                Some(index) => Some(index),
                None => Some(self.next_place() as usize),
            },
            ..self
        }
    }
}

impl PagesModel {
    /// The pages with every list of songs turned round.
    pub open spec fn turned(self) -> PagesModel {
        PagesModel {
            search: SearchModel { results: self.search.results.turned(), ..self.search },
            playlists: PlaylistPaneModel { songs: self.playlists.songs.turned(), ..self.playlists },
            artists: ArtistPaneModel { songs: self.artists.songs.turned(), ..self.artists },
            ranks: RankPaneModel { songs: self.ranks.songs.turned(), ..self.ranks },
            cloud: CloudPaneModel { songs: self.cloud.songs.turned(), ..self.cloud },
            sort_descending: !self.sort_descending,
            ..self
        }
    }
}

impl Pages {
    /// Turns every list of songs round.
    pub fn turn(&mut self)
        requires
            old(self).deep_view().wf(),
        ensures
            final(self).deep_view() == old(self).deep_view().turned(),
            final(self).deep_view().wf(),
    {
        proof {
            reveal(AppModel::wf);
            reveal(search_model);
            reveal(playlists_model);
            reveal(artists_model);
            reveal(ranks_model);
            reveal(cloud_model);
        }
        self.sort_descending = !self.sort_descending;
        self.search.results.toggle_sort();
        self.playlists.songs.toggle_sort();
        self.artists.songs.toggle_sort();
        self.ranks.songs.toggle_sort();
        self.cloud.songs.toggle_sort();
    }
}

impl AppModel {
    /// The same with other settings.
    pub open spec fn configured(self, config: ConfigModel) -> AppModel {
        AppModel { state: StateModel { config, ..self.state }, ..self }
    }

    /// The selected song is put into the queue: next, or behind the others.
    #[verifier::opaque]
    pub open spec fn queueing(self, play_next: bool) -> AppModel {
        self.queueing_song(self.state.selected_song(), play_next)
    }

    /// A song, if there is one, is put into the queue: next, or behind the others.
    #[verifier::opaque]
    pub open spec fn queueing_song(self, song: Option<SongModel>, play_next: bool) -> AppModel {
        let player = self.state.player;
        match song {
            None => self.told(StatusLevel::Warning, "当前没有选中的歌曲"@),
            Some(song) => self.played(
                (PlayerModel {
                    queue: if play_next {
                        player.queue.preferring(song)
                    } else {
                        player.queue.appended(song)
                    },
                    ..player
                }).pointing_inside(),
            ).told(
                StatusLevel::Success,
                (if play_next {
                    "已插入到下一首："@
                } else {
                    "已加入队列："@
                }) + order::song_label(song),
            ),
        }
    }

    /// The songs of the list that has the keys are put behind the queue.
    #[verifier::opaque]
    pub open spec fn queueing_all(self) -> AppModel {
        let player = self.state.player;
        match self.state.focused_songs() {
            None => self.told(StatusLevel::Warning, "当前没有可加入队列的歌曲列表"@),
            Some(list) => if list.songs.len() == 0 {
                self.told(StatusLevel::Warning, "列表为空，先按 Enter 载入歌曲"@)
            } else {
                self.played(
                    (PlayerModel {
                        queue: player.queue.extended(list.songs),
                        ..player
                    }).pointing_inside(),
                ).told(
                    StatusLevel::Success,
                    "已把 "@ + text::decimal(list.songs.len()) + " 首歌加入队列（"@ + (
                    if self.state.pages.sort_descending {
                        "倒序"@
                    } else {
                        "正序"@
                    }) + "）"@,
                )
            },
        }
    }

    /// The selected song of the queue is taken out of it.
    #[verifier::opaque]
    pub open spec fn unqueueing(self) -> AppModel {
        let player = self.state.player;
        if self.state.screen.focus != Focus::Queue {
            self.told(StatusLevel::Warning, "请先按 Tab 把焦点切到播放队列"@)
        } else if player.queue_cursor is None {
            self.told(StatusLevel::Warning, "播放队列为空"@)
        } else {
            self.unqueueing_at(player.queue_cursor->0)
        }
    }

    /// The song at this place of the queue, if there is one, is taken out of it. Where it is the one
    /// that is playing, the sound stops.
    #[verifier::opaque]
    pub open spec fn unqueueing_at(self, index: usize) -> AppModel {
        let player = self.state.player;
        if index >= player.queue.items.len() {
            self
        } else {
            let song = player.queue.items[index as int];
            let rest = (PlayerModel {
                queue: player.queue.without(index as int),
                ..player
            }).pointing_inside();
            let words = "已从队列移除："@ + order::song_label(song);
            if player.current is Some && player.current->0.hash == song.hash {
                self.played(rest.silent()).ordering(OrderModel::StopSound).told(
                    StatusLevel::Info,
                    words,
                )
            } else {
                self.played(rest).told(StatusLevel::Info, words)
            }
        }
    }

    /// The queue is emptied, and the sound stops.
    #[verifier::opaque]
    pub open spec fn emptying_queue(self) -> AppModel {
        let player = self.state.player;
        if player.queue.items.len() == 0 {
            self.told(StatusLevel::Warning, "播放队列已经为空"@)
        } else {
            self.played(
                (PlayerModel {
                    queue: player.queue.emptied(),
                    queue_cursor: None,
                    ..player
                }).silent(),
            ).ordering(OrderModel::StopSound).told(
                StatusLevel::Info,
                "已清空播放队列（"@ + text::decimal(player.queue.items.len())
                    + " 首），已停止播放"@,
            )
        }
    }

    /// Every list of songs is turned round.
    #[verifier::opaque]
    pub open spec fn turning(self) -> AppModel {
        self.paged(self.state.pages.turned()).told(
            StatusLevel::Info,
            "列表排列："@ + (if self.state.pages.sort_descending {
                "正序"@
            } else {
                "倒序（最后一首在最上）"@
            }),
        )
    }

    /// The queue goes on in the next way.
    #[verifier::opaque]
    pub open spec fn changing_mode(self) -> AppModel {
        let player = self.state.player;
        let mode = player.queue.mode.following();
        self.played(PlayerModel { queue: QueueModel { mode, ..player.queue }, ..player }).configured(
            ConfigModel { playback_mode: mode, ..self.state.config },
        ).told(StatusLevel::Info, "播放模式："@ + mode.label_text())
    }

    /// The lyric is moved against its song.
    #[verifier::opaque]
    pub open spec fn moving_lyric(self, delta_ms: i64) -> AppModel {
        let offset = panes::within(
            self.state.config.lyric_offset_ms + delta_ms,
            -LYRIC_OFFSET_LIMIT_MS,
            LYRIC_OFFSET_LIMIT_MS as int,
        );
        self.configured(ConfigModel { lyric_offset_ms: offset as i64, ..self.state.config }).told(
            StatusLevel::Info,
            "歌词偏移 "@ + settings::with_sign(offset) + " ms"@,
        )
    }
}

impl App {
    /// Puts the selected song into the queue.
    pub(crate) fn queue_focused_song(&mut self, play_next: bool)
        requires
            old(self).deep_view().wf(),
        ensures
            final(self).deep_view() == old(self).deep_view().queueing(play_next),
            final(self).deep_view().wf(),
    {
        proof {
            reveal(AppModel::queueing);
        }
        let song = self.state.selected_song();
        self.queue_song(song, play_next);
    }

    /// Puts a song, if there is one, into the queue.
    pub(crate) fn queue_song(&mut self, song: Option<Song>, play_next: bool)
        requires
            old(self).deep_view().wf(),
        ensures
            final(self).deep_view() == old(self).deep_view().queueing_song(
                song.deep_view(),
                play_next,
            ),
            final(self).deep_view().wf(),
    {
        proof {
            reveal(AppModel::queueing_song);
        }
        let song = match song {
            Some(song) => song,
            None => {
                self.tell(StatusLevel::Warning, "当前没有选中的歌曲".to_owned());
                return ;
            },
        };
        let label = order::describe_song(&song);
        self.put_into_queue(song, play_next);
        if play_next {
            self.tell(StatusLevel::Success, text::join2("已插入到下一首：", label.as_str()));
        } else {
            self.tell(StatusLevel::Success, text::join2("已加入队列：", label.as_str()));
        }
    }

    /// Puts a song into the queue.
    fn put_into_queue(&mut self, song: Song, play_next: bool)
        requires
            old(self).deep_view().wf(),
        ensures
            final(self).deep_view() == old(self).deep_view().played(
                (PlayerModel {
                    queue: if play_next {
                        old(self).deep_view().state.player.queue.preferring(song.deep_view())
                    } else {
                        old(self).deep_view().state.player.queue.appended(song.deep_view())
                    },
                    ..old(self).deep_view().state.player
                }).pointing_inside(),
            ),
            final(self).deep_view().wf(),
    {
        proof {
            reveal(AppModel::wf);
            reveal(player_model);
        }
        if play_next {
            let _ = self.state.player.queue.insert_next(song);
        } else {
            let _ = self.state.player.queue.append(song);
        }
        self.state.player.point_inside();
    }

    /// Puts the songs of the list that has the keys behind the queue.
    pub(crate) fn queue_all_songs(&mut self)
        requires
            old(self).deep_view().wf(),
        ensures
            final(self).deep_view() == old(self).deep_view().queueing_all(),
            final(self).deep_view().wf(),
    {
        proof {
            reveal(AppModel::queueing_all);
        }
        let songs = match self.state.focused_songs() {
            Some(list) => model::copy_songs(list.songs.as_slice()),
            None => {
                self.tell(StatusLevel::Warning, "当前没有可加入队列的歌曲列表".to_owned());
                return ;
            },
        };
        if songs.is_empty() {
            self.tell(StatusLevel::Warning, "列表为空，先按 Enter 载入歌曲".to_owned());
            return ;
        }
        let count = text::write_usize(songs.len());
        let order = if self.descending() {
            "倒序"
        } else {
            "正序"
        };
        self.extend_queue(songs);
        self.tell(
            StatusLevel::Success,
            text::join5("已把 ", count.as_str(), " 首歌加入队列（", order, "）"),
        );
    }

    /// Whether the last song stands on top.
    pub(crate) fn descending(&self) -> (r: bool)
        ensures
            r == self.deep_view().state.pages.sort_descending,
    {
        proof {
            reveal(AppModel::wf);
            reveal(pages_model);
        }
        self.state.pages.sort_descending
    }

    /// Puts songs behind the queue.
    fn extend_queue(&mut self, songs: Vec<Song>)
        requires
            old(self).deep_view().wf(),
        ensures
            final(self).deep_view() == old(self).deep_view().played(
                (PlayerModel {
                    queue: old(self).deep_view().state.player.queue.extended(songs.deep_view()),
                    ..old(self).deep_view().state.player
                }).pointing_inside(),
            ),
            final(self).deep_view().wf(),
    {
        proof {
            reveal(AppModel::wf);
            reveal(player_model);
        }
        let _ = self.state.player.queue.append_all(songs);
        self.state.player.point_inside();
    }

    /// Takes the selected song of the queue out of it.
    pub(crate) fn remove_selected_from_queue(&mut self)
        requires
            old(self).deep_view().wf(),
        ensures
            final(self).deep_view() == old(self).deep_view().unqueueing(),
            final(self).deep_view().wf(),
    {
        proof {
            reveal(AppModel::unqueueing);
            reveal(screen_model);
            reveal(player_model);
        }
        if self.state.screen.focus != Focus::Queue {
            self.tell(StatusLevel::Warning, "请先按 Tab 把焦点切到播放队列".to_owned());
            return ;
        }
        let index: usize = match self.state.player.queue_cursor.selected() {
            Some(index) => index,
            None => {
                self.tell(StatusLevel::Warning, "播放队列为空".to_owned());
                return ;
            },
        };
        self.remove_from_queue(index);
    }

    /// Takes the song at this place out of the queue.
    pub(crate) fn remove_from_queue(&mut self, index: usize)
        requires
            old(self).deep_view().wf(),
        ensures
            final(self).deep_view() == old(self).deep_view().unqueueing_at(index),
            final(self).deep_view().wf(),
    {
        proof {
            reveal(AppModel::wf);
            reveal(AppModel::unqueueing_at);
            reveal(player_model);
        }
        let removed = match self.state.player.queue.remove(index) {
            Some(song) => song,
            None => {
                return ;
            },
        };
        self.state.player.point_inside();
        let playing = match &self.state.player.current {
            Some(song) => text::same(song.hash.as_str(), removed.hash.as_str()),
            None => false,
        };
        let words = text::join2("已从队列移除：", order::describe_song(&removed).as_str());
        if playing {
            self.state.player.silence();
            self.order(Order::StopSound);
        }
        self.tell(StatusLevel::Info, words);
    }

    /// Empties the queue.
    pub(crate) fn clear_queue(&mut self)
        requires
            old(self).deep_view().wf(),
        ensures
            final(self).deep_view() == old(self).deep_view().emptying_queue(),
            final(self).deep_view().wf(),
    {
        proof {
            reveal(AppModel::wf);
            reveal(AppModel::emptying_queue);
            reveal(player_model);
        }
        if self.state.player.queue.is_empty() {
            self.tell(StatusLevel::Warning, "播放队列已经为空".to_owned());
            return ;
        }
        let count = text::write_usize(self.state.player.queue.len());
        self.state.player.queue.clear();
        self.state.player.queue_cursor.select(None);
        self.state.player.silence();
        self.order(Order::StopSound);
        self.tell(
            StatusLevel::Info,
            text::join3("已清空播放队列（", count.as_str(), " 首），已停止播放"),
        );
    }

    /// Turns every list of songs round.
    pub(crate) fn toggle_sort_order(&mut self)
        requires
            old(self).deep_view().wf(),
        ensures
            final(self).deep_view() == old(self).deep_view().turning(),
            final(self).deep_view().wf(),
    {
        proof {
            reveal(AppModel::wf);
            reveal(AppModel::turning);
            reveal(pages_model);
        }
        let order = if self.state.pages.sort_descending {
            "正序"
        } else {
            "倒序（最后一首在最上）"
        };
        self.state.pages.turn();
        self.tell(StatusLevel::Info, text::join2("列表排列：", order));
    }

    /// Lets the queue go on in the next way.
    pub(crate) fn cycle_playback_mode(&mut self)
        requires
            old(self).deep_view().wf(),
        ensures
            final(self).deep_view() == old(self).deep_view().changing_mode(),
            final(self).deep_view().wf(),
    {
        proof {
            reveal(AppModel::wf);
            reveal(AppModel::changing_mode);
            reveal(player_model);
            reveal(config_model);
        }
        let mode = self.state.player.queue.cycle_mode();
        self.state.config.playback_mode = mode;
        self.tell(StatusLevel::Info, text::join2("播放模式：", mode.label()));
    }

    /// Moves the lyric against its song.
    pub(crate) fn adjust_lyric_offset(&mut self, delta_ms: i64)
        requires
            old(self).deep_view().wf(),
        ensures
            final(self).deep_view() == old(self).deep_view().moving_lyric(delta_ms),
            final(self).deep_view().wf(),
    {
        proof {
            reveal(AppModel::wf);
            reveal(AppModel::moving_lyric);
            reveal(config_model);
        }
        let wanted: i128 = self.state.config.lyric_offset_ms as i128 + delta_ms as i128;
        let offset: i64 = if wanted < -(LYRIC_OFFSET_LIMIT_MS as i128) {
            -LYRIC_OFFSET_LIMIT_MS
        } else if wanted > LYRIC_OFFSET_LIMIT_MS as i128 {
            LYRIC_OFFSET_LIMIT_MS
        } else {
            wanted as i64
        };
        self.state.config.lyric_offset_ms = offset;
        let number = text::write_i64(offset);
        let signed = if offset < 0 {
            number
        } else {
            text::join2("+", number.as_str())
        };
        self.tell(StatusLevel::Info, text::join3("歌词偏移 ", signed.as_str(), " ms"));
    }
}

/// Turning the lists round twice leaves the pages as they were.
pub proof fn turning_twice(pages: PagesModel)
    requires
        pages.wf(),
        pages.search.results.songs.len() <= usize::MAX,
        pages.playlists.songs.songs.len() <= usize::MAX,
        pages.artists.songs.songs.len() <= usize::MAX,
        pages.ranks.songs.songs.len() <= usize::MAX,
        pages.cloud.songs.songs.len() <= usize::MAX,
    ensures
        pages.turned().turned() == pages,
{
    panes::turning_round_keeps_the_song(pages.search.results);
    panes::turning_round_keeps_the_song(pages.playlists.songs);
    panes::turning_round_keeps_the_song(pages.artists.songs);
    panes::turning_round_keeps_the_song(pages.ranks.songs);
    panes::turning_round_keeps_the_song(pages.cloud.songs);
}

} // verus!
