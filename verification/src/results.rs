//! What came of the orders, and what it changes.
//!
//! An outcome says what it is the outcome of. What comes too late, because another song is playing
//! by then, is left aside.
use vstd::prelude::*;
use crate::cloud::{UserInfo, UserModel};
use crate::config::ConfigModel;
use crate::download::{self, Downloader};
use crate::error::{self, AppError, ErrorModel};
use crate::model::{
    self, Artist, ArtistModel, Lyric, LyricLineModel, Playlist, PlaylistModel, RankBoard,
    RankBoardModel, Song, SongModel,
};
use crate::order::{self, Loaded, LoadedModel, Order, OrderModel, PlaylistSource};
use crate::panes::{
    self, ArtistPaneModel, CloudPaneModel, Connection, CoverModel, EntryListModel, LoadModel,
    LoadState, LoginModel, LoginState, LyricPaneModel, PlaylistPaneModel, RankPaneModel,
    SearchModel, SongListModel,
};
use crate::playing;
use crate::source;
use crate::state::{
    account_model, artists_model, cloud_model, config_model, pages_model, player_model,
    playlists_model, ranks_model, screen_model, search_model, status_model, AccountModel, Pages,
    PagesModel, PlayerModel, ScreenModel, StateModel, StatusModel,
};
use crate::tab::{Focus, StatusLevel};
use crate::text;
use crate::update::{App, AppModel};

verus! {

// ---------------------------------------------------------------------------
// What is decided
// ---------------------------------------------------------------------------
impl LoadedModel {
    /// What an outcome says of the connection: an answer, even a refusal, says that the server is
    /// there; a request that did not get through says that it is not.
    #[verifier::opaque]
    pub open spec fn connection(self) -> Option<Connection> {
        match self {
            LoadedModel::Failed { error, .. } => connection_after(error),
            LoadedModel::UserInfoFailed { error } => connection_after(error),
            LoadedModel::Lyric { .. } => None,
            LoadedModel::DownloadProgress { .. } => None,
            LoadedModel::StreamCached { .. } => None,
            LoadedModel::CacheUsage(_) => None,
            LoadedModel::CoverReady { .. } => None,
            LoadedModel::VipClaimFailed { .. } => None,
            LoadedModel::SongSaved { .. } => None,
            _ => Some(Connection::Connected),
        }
    }

    /// The lines of a lyric stand in order of time.
    pub open spec fn sound(self) -> bool {
        self matches LoadedModel::Lyric { lyric, .. } ==> model::by_time(lyric)
    }
}

/// What an error says of the connection: a server that refuses is there.
pub open spec fn connection_after(error: ErrorModel) -> Option<Connection> {
    if error::connectivity(error) {
        Some(Connection::Unreachable)
    } else if error is Api {
        Some(Connection::Connected)
    } else {
        None
    }
}

/// Something that was being loaded could not be.
pub open spec fn load_failed(load: LoadModel, reason: Seq<char>) -> LoadModel {
    if load.loading {
        LoadModel { loading: false, error: Some(reason) }
    } else {
        load
    }
}

/// A list of entries that was being loaded could not be.
pub open spec fn entries_failed<V>(list: EntryListModel<V>, reason: Seq<char>) -> EntryListModel<
    V,
> {
    EntryListModel { load: load_failed(list.load, reason), ..list }
}

/// A list of songs that was being loaded could not be.
pub open spec fn songs_failed(list: SongListModel, reason: Seq<char>) -> SongListModel {
    SongListModel { load: load_failed(list.load, reason), ..list }
}

impl PagesModel {
    /// Whatever was being loaded could not be.
    pub open spec fn failed(self, reason: Seq<char>) -> PagesModel {
        PagesModel {
            search: SearchModel {
                results: songs_failed(self.search.results, reason),
                ..self.search
            },
            playlists: PlaylistPaneModel {
                list: entries_failed(self.playlists.list, reason),
                songs: songs_failed(self.playlists.songs, reason),
                ..self.playlists
            },
            artists: ArtistPaneModel {
                list: entries_failed(self.artists.list, reason),
                songs: songs_failed(self.artists.songs, reason),
                ..self.artists
            },
            ranks: RankPaneModel {
                list: entries_failed(self.ranks.list, reason),
                songs: songs_failed(self.ranks.songs, reason),
            },
            cloud: CloudPaneModel {
                list: entries_failed(self.cloud.list, reason),
                songs: songs_failed(self.cloud.songs, reason),
                ..self.cloud
            },
            ..self
        }
    }

    /// Something is being loaded.
    pub open spec fn waits(self) -> bool {
        self.search.results.load.loading || self.playlists.list.load.loading
            || self.playlists.songs.load.loading || self.artists.list.load.loading
            || self.artists.songs.load.loading || self.ranks.list.load.loading
            || self.ranks.songs.load.loading || self.cloud.list.load.loading
            || self.cloud.songs.load.loading
    }

    /// The songs found take the place of the old ones.
    pub open spec fn with_results(self, title: Seq<char>, songs: Seq<SongModel>) -> PagesModel {
        PagesModel {
            search: SearchModel {
                results: self.search.results.replaced(title, songs),
                ..self.search
            },
            ..self
        }
    }
}

/// The title of a list of songs.
pub open spec fn counted_title(name: Seq<char>, count: nat) -> Seq<char> {
    name + " · "@ + text::decimal(count) + " 首"@
}

/// The title of a list of songs found.
pub open spec fn found_title(keyword: Seq<char>, count: nat) -> Seq<char> {
    "搜索「"@ + keyword + "」· "@ + text::decimal(count) + " 首"@
}

impl AppModel {
    /// The connection is as an outcome says.
    #[verifier::opaque]
    pub open spec fn reached(self, connection: Option<Connection>) -> AppModel {
        match connection {
            Some(connection) => self.accounted(AccountModel { connection, ..self.state.account }),
            None => self,
        }
    }

    /// The keys go to another pane.
    #[verifier::opaque]
    pub open spec fn turning_to(self, focus: Focus) -> AppModel {
        self.screened(ScreenModel { focus, ..self.state.screen })
    }

    /// Songs were found. They stay in the order in which the service gives them: the first fit best.
    #[verifier::opaque]
    pub open spec fn songs_found(
        self,
        keyword: Seq<char>,
        songs: Seq<SongModel>,
        append: bool,
    ) -> AppModel {
        let pages = self.state.pages;
        if append {
            let all = pages.search.results.songs + songs;
            self.busy_with(None).paged(
                pages.with_results(found_title(keyword, all.len()), all),
            ).told_more(songs.len(), all.len())
        } else {
            let first = PagesModel { search: SearchModel { page: 1, ..pages.search }, ..pages };
            self.busy_with(None).paged(
                first.with_results(found_title(keyword, songs.len()), songs),
            ).told_found(keyword, songs.len())
        }
    }

    /// It is told how many songs more were found.
    #[verifier::opaque]
    pub open spec fn told_more(self, added: nat, total: nat) -> AppModel {
        if added == 0 {
            self.told(StatusLevel::Info, "没有更多结果了"@)
        } else {
            self.told(
                StatusLevel::Success,
                "又加载了 "@ + text::decimal(added) + " 首（共 "@ + text::decimal(total) + " 首）"@,
            )
        }
    }

    /// It is told how many songs were found; where there are any, they get the keys.
    #[verifier::opaque]
    pub open spec fn told_found(self, keyword: Seq<char>, count: nat) -> AppModel {
        if count == 0 {
            self.told(StatusLevel::Warning, "「"@ + keyword + "」没有找到结果"@)
        } else {
            self.told(
                StatusLevel::Success,
                "「"@ + keyword + "」找到 "@ + text::decimal(count) + " 首"@,
            ).turning_to(Focus::Secondary)
        }
    }

    /// The public playlists have come.
    #[verifier::opaque]
    pub open spec fn plaza_loaded(self, title: Seq<char>, items: Seq<PlaylistModel>) -> AppModel {
        let pages = self.state.pages;
        let shown = self.busy_with(None).paged(
            PagesModel {
                playlists: PlaylistPaneModel {
                    list: pages.playlists.list.replaced(items),
                    ..pages.playlists
                },
                ..pages
            },
        );
        if items.len() == 0 {
            shown.told(StatusLevel::Warning, title + "暂无内容"@)
        } else {
            shown.told(
                StatusLevel::Info,
                title + "："@ + text::decimal(items.len()) + " 个歌单"@,
            )
        }
    }

    /// The songs of a playlist have come. They go to the page on which they were asked for, whatever
    /// page is shown by now.
    #[verifier::opaque]
    pub open spec fn playlist_loaded(
        self,
        playlist: PlaylistModel,
        songs: Seq<SongModel>,
        source: PlaylistSource,
    ) -> AppModel {
        let pages = self.state.pages;
        let title = counted_title(playlist.name, songs.len());
        let shown = panes::arranged(songs, pages.sort_descending);
        self.busy_with(None).paged(
            match source {
                PlaylistSource::Plaza => PagesModel {
                    playlists: PlaylistPaneModel {
                        songs: pages.playlists.songs.replaced(title, shown),
                        ..pages.playlists
                    },
                    ..pages
                },
                PlaylistSource::Cloud => PagesModel {
                    cloud: CloudPaneModel {
                        songs: pages.cloud.songs.replaced(title, shown),
                        ..pages.cloud
                    },
                    ..pages
                },
            },
        ).turning_to(Focus::Secondary).told(
            StatusLevel::Info,
            "《"@ + playlist.name + "》共 "@ + text::decimal(songs.len()) + " 首"@,
        )
    }

    /// The artists have come.
    #[verifier::opaque]
    pub open spec fn artists_loaded(self, artists: Seq<ArtistModel>) -> AppModel {
        let pages = self.state.pages;
        let shown = self.busy_with(None).paged(
            PagesModel {
                artists: ArtistPaneModel {
                    list: pages.artists.list.replaced(artists),
                    ..pages.artists
                },
                ..pages
            },
        );
        if artists.len() == 0 {
            shown.told(StatusLevel::Warning, "歌手列表为空"@)
        } else {
            shown.told(StatusLevel::Info, "共 "@ + text::decimal(artists.len()) + " 位歌手"@)
        }
    }

    /// The songs of an artist have come.
    #[verifier::opaque]
    pub open spec fn artist_songs_loaded(
        self,
        artist: ArtistModel,
        songs: Seq<SongModel>,
    ) -> AppModel {
        let pages = self.state.pages;
        self.busy_with(None).paged(
            PagesModel {
                artists: ArtistPaneModel {
                    songs: pages.artists.songs.replaced(
                        counted_title(artist.name, songs.len()),
                        panes::arranged(songs, pages.sort_descending),
                    ),
                    ..pages.artists
                },
                ..pages
            },
        ).turning_to(Focus::Secondary)
    }

    /// The charts have come.
    #[verifier::opaque]
    pub open spec fn ranks_loaded(self, boards: Seq<RankBoardModel>) -> AppModel {
        let pages = self.state.pages;
        let shown = self.busy_with(None).paged(
            PagesModel {
                ranks: RankPaneModel { list: pages.ranks.list.replaced(boards), ..pages.ranks },
                ..pages
            },
        );
        if boards.len() == 0 {
            shown.told(StatusLevel::Warning, "排行榜列表为空"@)
        } else {
            shown.told(StatusLevel::Info, "共 "@ + text::decimal(boards.len()) + " 个榜单"@)
        }
    }

    /// The songs of a chart have come.
    #[verifier::opaque]
    pub open spec fn rank_songs_loaded(
        self,
        board: RankBoardModel,
        songs: Seq<SongModel>,
    ) -> AppModel {
        let pages = self.state.pages;
        self.busy_with(None).paged(
            PagesModel {
                ranks: RankPaneModel {
                    songs: pages.ranks.songs.replaced(
                        counted_title(board.name, songs.len()),
                        panes::arranged(songs, pages.sort_descending),
                    ),
                    ..pages.ranks
                },
                ..pages
            },
        ).turning_to(Focus::Secondary)
    }

    /// The user's own playlists have come. Nothing is said, so that what was said of a change to
    /// them stays.
    #[verifier::opaque]
    pub open spec fn cloud_loaded(self, items: Seq<PlaylistModel>) -> AppModel {
        let pages = self.state.pages;
        self.busy_with(None).paged(
            PagesModel {
                cloud: CloudPaneModel { list: pages.cloud.list.replaced(items), ..pages.cloud },
                ..pages
            },
        )
    }

    /// A lyric has come; that of another song is left aside.
    #[verifier::opaque]
    pub open spec fn lyric_loaded(self, hash: Seq<char>, lines: Seq<LyricLineModel>) -> AppModel {
        let player = self.state.player;
        if player.lyric.hash != Some(hash) {
            self
        } else {
            self.played(
                PlayerModel {
                    lyric: LyricPaneModel {
                        lines,
                        load: panes::idle(),
                        active_line: None,
                        ..player.lyric
                    },
                    ..player
                },
            )
        }
    }

    /// It is the song that is playing.
    pub open spec fn plays(self, hash: Seq<char>) -> bool {
        self.state.player.current is Some && self.state.player.current->0.hash == hash
    }

    /// The address of a song has come; the user is told where only a part of the song stands there.
    #[verifier::opaque]
    pub open spec fn stream_found(
        self,
        song: SongModel,
        url: Seq<char>,
        start_at_ms: u64,
        is_trial: bool,
        reason: Option<Seq<char>>,
    ) -> AppModel {
        let marked = self.played(
            PlayerModel { current_is_trial: is_trial, ..self.state.player },
        );
        if !self.plays(song.hash) {
            self
        } else if is_trial {
            marked.told(
                StatusLevel::Warning,
                "《"@ + song.name + "》只有试听片段"@ + (match reason {
                    Some(why) => "："@ + why,
                    None => "（完整版需要对应会员）"@,
                }),
            ).downloading(song, url, start_at_ms, true)
        } else {
            marked.downloading(song, url, start_at_ms, false)
        }
    }

    /// So much of a song has come.
    #[verifier::opaque]
    pub open spec fn progressed(self, progress: Option<(u64, Option<u64>)>) -> AppModel {
        AppModel {
            state: StateModel {
                status: StatusModel { download_progress: progress, ..self.state.status },
                ..self.state
            },
            ..self
        }
    }

    /// A song is being brought; a part of a song never takes the place of the whole.
    #[verifier::opaque]
    pub open spec fn downloading(
        self,
        song: SongModel,
        url: Seq<char>,
        start_at_ms: u64,
        is_trial: bool,
    ) -> AppModel {
        let name = playing::kept_name(song, self.state.config.quality);
        self.progressed(Some((0, None))).busy_with(
            Some("缓冲《"@ + order::song_label(song) + "》"@),
        ).ordering(
            OrderModel::Download {
                song,
                url,
                key: if is_trial {
                    name + "-trial"@
                } else {
                    name
                },
                extension: download::extension_of(url),
                start_at_ms,
            },
        )
    }

    /// A song lies in a file: it is played, or, where another song is playing by now, removed.
    #[verifier::opaque]
    pub open spec fn stream_kept(
        self,
        song: SongModel,
        path: Seq<char>,
        start_at_ms: u64,
    ) -> AppModel {
        if !self.plays(song.hash) {
            self.ordering(OrderModel::RemoveFile { path })
        } else {
            self.progressed(None).busy_with(None).ordering(
                OrderModel::Play { path, start_at_ms, duration_ms: song.duration_ms },
            ).ordering(OrderModel::EnforceCacheLimit)
        }
    }

    /// A device print was given out: it is used and saved.
    #[verifier::opaque]
    pub open spec fn device_known(self, dfid: Seq<char>) -> AppModel {
        self.configured(ConfigModel { dfid: Some(dfid), ..self.state.config }).ordering(
            OrderModel::SetCookie(source::cookie_text(self.state.config.cookie, Some(dfid))),
        ).ordering(OrderModel::SaveConfig)
    }

    /// It was measured how much is kept.
    #[verifier::opaque]
    pub open spec fn measured(self, bytes: u64) -> AppModel {
        AppModel {
            state: StateModel {
                status: StatusModel { cache_bytes: bytes, ..self.state.status },
                ..self.state
            },
            ..self
        }
    }

    /// A change to the user's playlists was made: it is told, and they are loaded again.
    #[verifier::opaque]
    pub open spec fn cloud_told(self, message: Seq<char>) -> AppModel {
        self.busy_with(None).told(StatusLevel::Success, message).loading_cloud()
    }

    /// A playlist of the user has changed: the playlists are loaded again, and its songs where they
    /// are shown.
    #[verifier::opaque]
    pub open spec fn cloud_changed(self, playlist: PlaylistModel) -> AppModel {
        let open = self.state.pages.cloud.open_playlist;
        if open is Some && open->0.list_id is Some && open->0.list_id == playlist.list_id {
            self.loading_cloud().opening_playlist(playlist, PlaylistSource::Cloud)
        } else {
            self.loading_cloud()
        }
    }

    /// A QR code has come.
    #[verifier::opaque]
    pub open spec fn code_shown(self, key: Seq<char>, lines: Seq<Seq<char>>) -> AppModel {
        let account = self.state.account;
        self.accounted(
            AccountModel {
                login: Some(
                    LoginModel {
                        qr: lines,
                        key,
                        message: "用"@ + self.state.config.sources.active.scan_app_text()
                            + " App 扫码登录"@,
                        finished: false,
                        succeeded: account.login is Some && account.login->0.succeeded,
                    },
                ),
                ..account
            },
        )
    }

    /// There is news of a login that is under way.
    #[verifier::opaque]
    pub open spec fn login_told(self, message: Seq<char>) -> AppModel {
        let account = self.state.account;
        if account.login is Some && !account.login->0.finished {
            self.accounted(
                AccountModel { login: Some(LoginModel { message, ..account.login->0 }), ..account },
            )
        } else {
            self
        }
    }

    /// A cover has come; that of another song is left aside.
    #[verifier::opaque]
    pub open spec fn cover_loaded(self, hash: Seq<char>) -> AppModel {
        if !self.plays(hash) {
            self
        } else {
            self.played(
                PlayerModel {
                    cover: CoverModel { hash: Some(hash), loaded: true, build: None },
                    ..self.state.player
                },
            )
        }
    }

    /// The membership is known.
    #[verifier::opaque]
    pub open spec fn membership_known(self, label: Seq<char>) -> AppModel {
        self.accounted(AccountModel { vip_label: Some(label), ..self.state.account })
    }

    /// It is known who the user is.
    #[verifier::opaque]
    pub open spec fn user_known(self, info: UserModel) -> AppModel {
        self.accounted(
            AccountModel {
                user_info: Some(info),
                user_info_load: panes::idle(),
                ..self.state.account
            },
        )
    }

    /// Something went wrong: it is told, and nothing is being loaded any more.
    #[verifier::opaque]
    pub open spec fn gone_wrong(self, context: Seq<char>, error: ErrorModel) -> AppModel {
        self.busy_with(None).progressed(None).paged(
            self.state.pages.failed(error::hint(error)),
        ).told(StatusLevel::Error, context + "："@ + error::hint(error))
    }
}

// ---------------------------------------------------------------------------
// Pages
// ---------------------------------------------------------------------------
/// Takes in that something that was being loaded could not be.
fn fail_load(load: &mut LoadState, reason: &str)
    ensures
        final(load)@ == load_failed(old(load)@, reason@),
{
    if load.is_loading() {
        load.fail(reason);
    }
}

impl Pages {
    /// Takes in that whatever was being loaded could not be.
    fn fail(&mut self, reason: &str)
        ensures
            final(self).deep_view() == old(self).deep_view().failed(reason@),
            final(self).deep_view().wf() == old(self).deep_view().wf(),
    {
        proof {
            reveal(AppModel::wf);
            reveal(search_model);
            reveal(playlists_model);
            reveal(artists_model);
            reveal(ranks_model);
            reveal(cloud_model);
        }
        fail_load(&mut self.search.results.load, reason);
        fail_load(&mut self.playlists.list.load, reason);
        fail_load(&mut self.playlists.songs.load, reason);
        fail_load(&mut self.artists.list.load, reason);
        fail_load(&mut self.artists.songs.load, reason);
        fail_load(&mut self.ranks.list.load, reason);
        fail_load(&mut self.ranks.songs.load, reason);
        fail_load(&mut self.cloud.list.load, reason);
        fail_load(&mut self.cloud.songs.load, reason);
    }
}

/// The title of a list of songs.
fn title_with_count(name: &str, count: usize) -> (r: String)
    ensures
        r@ == counted_title(name@, count as nat),
{
    text::join4(name, " · ", text::write_usize(count).as_str(), " 首")
}

/// The title of a list of songs found.
fn title_of_search(keyword: &str, count: usize) -> (r: String)
    ensures
        r@ == found_title(keyword@, count as nat),
{
    text::join5("搜索「", keyword, "」· ", text::write_usize(count).as_str(), " 首")
}

// ---------------------------------------------------------------------------
// The steps
// ---------------------------------------------------------------------------
impl App {
    /// Takes in what an outcome says of the connection.
    pub(crate) fn reach(&mut self, connection: Option<Connection>)
        requires
            old(self).deep_view().wf(),
        ensures
            final(self).deep_view() == old(self).deep_view().reached(connection),
            final(self).deep_view().wf(),
    {
        proof {
            reveal(AppModel::wf);
            reveal(AppModel::reached);
            reveal(account_model);
        }
        if let Some(connection) = connection {
            self.state.account.connection = connection;
        }
    }

    /// Hands the keys to another pane.
    pub(crate) fn turn_to(&mut self, focus: Focus)
        requires
            old(self).deep_view().wf(),
        ensures
            final(self).deep_view() == old(self).deep_view().turning_to(focus),
            final(self).deep_view().wf(),
    {
        proof {
            reveal(AppModel::wf);
            reveal(AppModel::turning_to);
            reveal(screen_model);
        }
        self.state.screen.focus = focus;
    }

    /// Takes in how much of a song has come.
    pub(crate) fn set_progress(&mut self, progress: Option<(u64, Option<u64>)>)
        requires
            old(self).deep_view().wf(),
        ensures
            final(self).deep_view() == old(self).deep_view().progressed(progress),
            final(self).deep_view().wf(),
            final(self).state.config == old(self).state.config,
            final(self).state.pages == old(self).state.pages,
            final(self).state.player == old(self).state.player,
    {
        proof {
            reveal(AppModel::wf);
            reveal(AppModel::progressed);
            reveal(status_model);
        }
        self.state.status.download_progress = progress;
    }

    /// Takes in the songs found.
    pub(crate) fn take_search(&mut self, keyword: String, songs: Vec<Song>, append: bool)
        requires
            old(self).deep_view().wf(),
        ensures
            final(self).deep_view() == old(self).deep_view().songs_found(
                keyword@,
                songs.deep_view(),
                append,
            ),
            final(self).deep_view().wf(),
    {
        proof {
            reveal(AppModel::songs_found);
        }
        let count: usize = songs.len();
        self.set_busy(None);
        if append {
            let total: usize = self.append_results(keyword.as_str(), songs);
            self.tell_more(count, total);
        } else {
            self.show_results(keyword.as_str(), songs);
            self.tell_found(keyword.as_str(), count);
        }
    }

    /// Puts songs behind those found, and returns how many there are.
    fn append_results(&mut self, keyword: &str, songs: Vec<Song>) -> (r: usize)
        requires
            old(self).deep_view().wf(),
        ensures
            r == old(self).deep_view().state.pages.search.results.songs.len()
                + songs.deep_view().len(),
            final(self).deep_view() == old(self).deep_view().paged(
                old(self).deep_view().state.pages.with_results(
                    found_title(keyword@, r as nat),
                    old(self).deep_view().state.pages.search.results.songs + songs.deep_view(),
                ),
            ),
            final(self).deep_view().wf(),
    {
        proof {
            reveal(AppModel::wf);
            reveal(pages_model);
            reveal(search_model);
        }
        let ghost before = self.state.pages.search.results.songs.deep_view();
        let ghost added = songs.deep_view();
        let mut songs = songs;
        let mut all: Vec<Song> = Vec::new();
        std::mem::swap(&mut all, &mut self.state.pages.search.results.songs);
        all.append(&mut songs);
        proof {
            assert(all.deep_view() =~= before + added);
        }
        let total: usize = all.len();
        let title = title_of_search(keyword, total);
        self.state.pages.search.results.set_songs_sorted(title, all, false);
        total
    }

    /// Shows the songs found.
    fn show_results(&mut self, keyword: &str, songs: Vec<Song>)
        requires
            old(self).deep_view().wf(),
        ensures
            final(self).deep_view() == old(self).deep_view().paged(
                (PagesModel {
                    search: SearchModel {
                        page: 1,
                        ..old(self).deep_view().state.pages.search
                    },
                    ..old(self).deep_view().state.pages
                }).with_results(
                    found_title(keyword@, songs.deep_view().len()),
                    songs.deep_view(),
                ),
            ),
            final(self).deep_view().wf(),
    {
        proof {
            reveal(AppModel::wf);
            reveal(pages_model);
            reveal(search_model);
        }
        let title = title_of_search(keyword, songs.len());
        self.state.pages.search.page = 1;
        self.state.pages.search.results.set_songs_sorted(title, songs, false);
    }

    /// Tells how many songs more were found.
    fn tell_more(&mut self, added: usize, total: usize)
        requires
            old(self).deep_view().wf(),
        ensures
            final(self).deep_view() == old(self).deep_view().told_more(added as nat, total as nat),
            final(self).deep_view().wf(),
    {
        proof {
            reveal(AppModel::told_more);
        }
        if added == 0 {
            self.tell(StatusLevel::Info, "没有更多结果了".to_owned());
        } else {
            let added = text::write_usize(added);
            let total = text::write_usize(total);
            self.tell(
                StatusLevel::Success,
                text::join5("又加载了 ", added.as_str(), " 首（共 ", total.as_str(), " 首）"),
            );
        }
    }

    /// Tells how many songs were found.
    fn tell_found(&mut self, keyword: &str, count: usize)
        requires
            old(self).deep_view().wf(),
        ensures
            final(self).deep_view() == old(self).deep_view().told_found(keyword@, count as nat),
            final(self).deep_view().wf(),
    {
        proof {
            reveal(AppModel::told_found);
        }
        if count == 0 {
            self.tell(StatusLevel::Warning, text::join3("「", keyword, "」没有找到结果"));
        } else {
            let number = text::write_usize(count);
            self.tell(
                StatusLevel::Success,
                text::join5("「", keyword, "」找到 ", number.as_str(), " 首"),
            );
            self.turn_to(Focus::Secondary);
        }
    }

    /// Takes in the public playlists.
    pub(crate) fn take_plaza(&mut self, title: String, items: Vec<Playlist>)
        requires
            old(self).deep_view().wf(),
        ensures
            final(self).deep_view() == old(self).deep_view().plaza_loaded(
                title@,
                items.deep_view(),
            ),
            final(self).deep_view().wf(),
    {
        proof {
            reveal(AppModel::wf);
            reveal(AppModel::plaza_loaded);
            reveal(AppModel::busy_with);
            reveal(pages_model);
            reveal(playlists_model);
        }
        let count: usize = items.len();
        self.set_busy(None);
        self.state.pages.playlists.list.replace(items);
        if count == 0 {
            self.tell(StatusLevel::Warning, text::join2(title.as_str(), "暂无内容"));
        } else {
            let number = text::write_usize(count);
            self.tell(
                StatusLevel::Info,
                text::join4(title.as_str(), "：", number.as_str(), " 个歌单"),
            );
        }
    }

    /// Takes in the songs of a playlist.
    pub(crate) fn take_playlist(&mut self, playlist: Playlist, songs: Vec<Song>, source: PlaylistSource)
        requires
            old(self).deep_view().wf(),
        ensures
            final(self).deep_view() == old(self).deep_view().playlist_loaded(
                playlist.deep_view(),
                songs.deep_view(),
                source,
            ),
            final(self).deep_view().wf(),
    {
        proof {
            reveal(AppModel::wf);
            reveal(AppModel::playlist_loaded);
            reveal(AppModel::busy_with);
            reveal(pages_model);
        }
        let count: usize = songs.len();
        let title = title_with_count(playlist.name.as_str(), count);
        let descending = self.state.pages.sort_descending;
        self.set_busy(None);
        match source {
            PlaylistSource::Plaza => {
                proof {
                    reveal(AppModel::wf);
                    reveal(playlists_model);
                }
                self.state.pages.playlists.songs.set_songs_sorted(title, songs, descending);
            },
            PlaylistSource::Cloud => {
                proof {
                    reveal(AppModel::wf);
                    reveal(cloud_model);
                }
                self.state.pages.cloud.songs.set_songs_sorted(title, songs, descending);
            },
        }
        self.turn_to(Focus::Secondary);
        let number = text::write_usize(count);
        self.tell(
            StatusLevel::Info,
            text::join5("《", playlist.name.as_str(), "》共 ", number.as_str(), " 首"),
        );
    }

    /// Takes in the artists.
    pub(crate) fn take_artists(&mut self, artists: Vec<Artist>)
        requires
            old(self).deep_view().wf(),
        ensures
            final(self).deep_view() == old(self).deep_view().artists_loaded(artists.deep_view()),
            final(self).deep_view().wf(),
    {
        proof {
            reveal(AppModel::wf);
            reveal(AppModel::artists_loaded);
            reveal(AppModel::busy_with);
            reveal(pages_model);
            reveal(artists_model);
        }
        let count: usize = artists.len();
        self.set_busy(None);
        self.state.pages.artists.list.replace(artists);
        if count == 0 {
            self.tell(StatusLevel::Warning, "歌手列表为空".to_owned());
        } else {
            let number = text::write_usize(count);
            self.tell(StatusLevel::Info, text::join3("共 ", number.as_str(), " 位歌手"));
        }
    }

    /// Takes in the songs of an artist.
    pub(crate) fn take_artist_songs(&mut self, artist: Artist, songs: Vec<Song>)
        requires
            old(self).deep_view().wf(),
        ensures
            final(self).deep_view() == old(self).deep_view().artist_songs_loaded(
                artist.deep_view(),
                songs.deep_view(),
            ),
            final(self).deep_view().wf(),
    {
        proof {
            reveal(AppModel::wf);
            reveal(AppModel::artist_songs_loaded);
            reveal(AppModel::busy_with);
            reveal(pages_model);
            reveal(artists_model);
        }
        let title = title_with_count(artist.name.as_str(), songs.len());
        let descending = self.state.pages.sort_descending;
        self.set_busy(None);
        self.state.pages.artists.songs.set_songs_sorted(title, songs, descending);
        self.turn_to(Focus::Secondary);
    }

    /// Takes in the charts.
    pub(crate) fn take_ranks(&mut self, boards: Vec<RankBoard>)
        requires
            old(self).deep_view().wf(),
        ensures
            final(self).deep_view() == old(self).deep_view().ranks_loaded(boards.deep_view()),
            final(self).deep_view().wf(),
    {
        proof {
            reveal(AppModel::wf);
            reveal(AppModel::ranks_loaded);
            reveal(AppModel::busy_with);
            reveal(pages_model);
            reveal(ranks_model);
        }
        let count: usize = boards.len();
        self.set_busy(None);
        self.state.pages.ranks.list.replace(boards);
        if count == 0 {
            self.tell(StatusLevel::Warning, "排行榜列表为空".to_owned());
        } else {
            let number = text::write_usize(count);
            self.tell(StatusLevel::Info, text::join3("共 ", number.as_str(), " 个榜单"));
        }
    }

    /// Takes in the songs of a chart.
    pub(crate) fn take_rank_songs(&mut self, board: RankBoard, songs: Vec<Song>)
        requires
            old(self).deep_view().wf(),
        ensures
            final(self).deep_view() == old(self).deep_view().rank_songs_loaded(
                board.deep_view(),
                songs.deep_view(),
            ),
            final(self).deep_view().wf(),
    {
        proof {
            reveal(AppModel::wf);
            reveal(AppModel::rank_songs_loaded);
            reveal(AppModel::busy_with);
            reveal(pages_model);
            reveal(ranks_model);
        }
        let title = title_with_count(board.name.as_str(), songs.len());
        let descending = self.state.pages.sort_descending;
        self.set_busy(None);
        self.state.pages.ranks.songs.set_songs_sorted(title, songs, descending);
        self.turn_to(Focus::Secondary);
    }

    /// Takes in the user's own playlists.
    pub(crate) fn take_cloud(&mut self, items: Vec<Playlist>)
        requires
            old(self).deep_view().wf(),
        ensures
            final(self).deep_view() == old(self).deep_view().cloud_loaded(items.deep_view()),
            final(self).deep_view().wf(),
    {
        proof {
            reveal(AppModel::wf);
            reveal(AppModel::cloud_loaded);
            reveal(AppModel::busy_with);
            reveal(pages_model);
            reveal(cloud_model);
        }
        self.set_busy(None);
        self.state.pages.cloud.list.replace(items);
    }

    /// Takes in a lyric.
    pub(crate) fn take_lyric(&mut self, hash: String, lyric: Lyric)
        requires
            old(self).deep_view().wf(),
            model::by_time(lyric.deep_view()),
        ensures
            final(self).deep_view() == old(self).deep_view().lyric_loaded(hash@, lyric.deep_view()),
            final(self).deep_view().wf(),
    {
        proof {
            reveal(AppModel::wf);
            reveal(AppModel::lyric_loaded);
            reveal(player_model);
        }
        let wanted = match &self.state.player.lyric.hash {
            Some(own) => text::same(own.as_str(), hash.as_str()),
            None => false,
        };
        if !wanted {
            return ;
        }
        self.state.player.lyric.lyric = lyric;
        self.state.player.lyric.load.succeed();
        self.state.player.lyric.active_line = None;
    }

    /// Whether it is the song that is playing.
    pub(crate) fn is_current(&self, hash: &str) -> (r: bool)
        ensures
            r == self.deep_view().plays(hash@),
    {
        proof {
            reveal(AppModel::wf);
            reveal(player_model);
        }
        match &self.state.player.current {
            Some(current) => text::same(current.hash.as_str(), hash),
            None => false,
        }
    }

    /// Takes in the address of a song.
    pub(crate) fn take_stream(
        &mut self,
        song: Song,
        url: String,
        start_at_ms: u64,
        is_trial: bool,
        reason: Option<String>,
    )
        requires
            old(self).deep_view().wf(),
        ensures
            final(self).deep_view() == old(self).deep_view().stream_found(
                song.deep_view(),
                url@,
                start_at_ms,
                is_trial,
                reason.deep_view(),
            ),
            final(self).deep_view().wf(),
    {
        proof {
            reveal(AppModel::stream_found);
        }
        if !self.is_current(song.hash.as_str()) {
            return ;
        }
        self.mark_trial(is_trial);
        if is_trial {
            let why = match &reason {
                Some(why) => text::join2("：", why.as_str()),
                None => "（完整版需要对应会员）".to_owned(),
            };
            self.tell(
                StatusLevel::Warning,
                text::join4("《", song.name.as_str(), "》只有试听片段", why.as_str()),
            );
        }
        self.start_download(song, url, start_at_ms, is_trial);
    }

    /// Takes in whether only a part of a song is being played.
    pub(crate) fn mark_trial(&mut self, is_trial: bool)
        requires
            old(self).deep_view().wf(),
        ensures
            final(self).deep_view() == old(self).deep_view().played(
                PlayerModel {
                    current_is_trial: is_trial,
                    ..old(self).deep_view().state.player
                },
            ),
            final(self).deep_view().wf(),
    {
        proof {
            reveal(AppModel::wf);
            reveal(player_model);
        }
        self.state.player.current_is_trial = is_trial;
    }

    /// Brings a song.
    fn start_download(&mut self, song: Song, url: String, start_at_ms: u64, is_trial: bool)
        requires
            old(self).deep_view().wf(),
        ensures
            final(self).deep_view() == old(self).deep_view().downloading(
                song.deep_view(),
                url@,
                start_at_ms,
                is_trial,
            ),
            final(self).deep_view().wf(),
    {
        proof {
            reveal(AppModel::wf);
            reveal(AppModel::downloading);
            reveal(config_model);
        }
        let key = if is_trial {
            song.trial_cache_key(self.state.config.quality.as_str())
        } else {
            song.cache_key(self.state.config.quality.as_str())
        };
        let extension = Downloader::extension_from_url(url.as_str()).to_owned();
        self.set_progress(Some((0, None)));
        self.set_busy(Some(text::join3("缓冲《", order::describe_song(&song).as_str(), "》")));
        self.order(Order::Download { song, url, key, extension, start_at_ms });
    }

    /// Takes in that a song lies in a file.
    pub(crate) fn take_file(&mut self, song: Song, path: String, start_at_ms: u64)
        requires
            old(self).deep_view().wf(),
        ensures
            final(self).deep_view() == old(self).deep_view().stream_kept(
                song.deep_view(),
                path@,
                start_at_ms,
            ),
            final(self).deep_view().wf(),
    {
        proof {
            reveal(AppModel::stream_kept);
        }
        if !self.is_current(song.hash.as_str()) {
            self.order(Order::RemoveFile { path });
            return ;
        }
        self.set_progress(None);
        self.set_busy(None);
        self.order(Order::Play { path, start_at_ms, duration_ms: song.duration_ms });
        self.order(Order::EnforceCacheLimit);
    }

    /// Takes in a device print.
    pub(crate) fn take_device(&mut self, dfid: String)
        requires
            old(self).deep_view().wf(),
        ensures
            final(self).deep_view() == old(self).deep_view().device_known(dfid@),
            final(self).deep_view().wf(),
    {
        proof {
            reveal(AppModel::wf);
            reveal(AppModel::device_known);
            reveal(config_model);
        }
        self.state.config.dfid = Some(dfid);
        let header = self.state.config.cookie_header();
        self.order(Order::SetCookie(header));
        self.order(Order::SaveConfig);
    }

    /// Takes in how much is kept.
    pub(crate) fn take_usage(&mut self, bytes: u64)
        requires
            old(self).deep_view().wf(),
        ensures
            final(self).deep_view() == old(self).deep_view().measured(bytes),
            final(self).deep_view().wf(),
    {
        proof {
            reveal(AppModel::wf);
            reveal(AppModel::measured);
            reveal(status_model);
        }
        self.state.status.cache_bytes = bytes;
    }

    /// Takes in that a change to the user's playlists was made.
    pub(crate) fn take_notice(&mut self, message: String)
        requires
            old(self).deep_view().wf(),
        ensures
            final(self).deep_view() == old(self).deep_view().cloud_told(message@),
            final(self).deep_view().wf(),
    {
        proof {
            reveal(AppModel::cloud_told);
        }
        self.set_busy(None);
        self.tell(StatusLevel::Success, message);
        self.load_cloud_playlists();
    }

    /// Takes in that a playlist of the user has changed.
    pub(crate) fn take_change(&mut self, playlist: Playlist)
        requires
            old(self).deep_view().wf(),
        ensures
            final(self).deep_view() == old(self).deep_view().cloud_changed(playlist.deep_view()),
            final(self).deep_view().wf(),
    {
        proof {
            reveal(AppModel::cloud_changed);
        }
        let shown = match self.open_cloud_playlist() {
            Some(open) => match (open.list_id, playlist.list_id) {
                (Some(a), Some(b)) => a == b,
                _ => false,
            },
            None => false,
        };
        self.load_cloud_playlists();
        if shown {
            self.load_playlist_songs(playlist, PlaylistSource::Cloud);
        }
    }

    /// Takes in a QR code.
    pub(crate) fn take_code(&mut self, key: String, lines: Vec<String>)
        requires
            old(self).deep_view().wf(),
        ensures
            final(self).deep_view() == old(self).deep_view().code_shown(key@, text::views(lines@)),
            final(self).deep_view().wf(),
    {
        proof {
            reveal(AppModel::wf);
            reveal(AppModel::code_shown);
            reveal(account_model);
            reveal(config_model);
        }
        let message = text::join3(
            "用",
            self.state.config.active_source_kind().scan_app(),
            " App 扫码登录",
        );
        let succeeded = match &self.state.account.login {
            Some(login) => login.succeeded,
            None => false,
        };
        self.state.account.login = Some(
            LoginState { qr: lines, key, message, finished: false, succeeded },
        );
    }

    /// Takes in news of a login.
    pub(crate) fn take_login_news(&mut self, message: String)
        requires
            old(self).deep_view().wf(),
        ensures
            final(self).deep_view() == old(self).deep_view().login_told(message@),
            final(self).deep_view().wf(),
    {
        proof {
            reveal(AppModel::wf);
            reveal(AppModel::login_told);
            reveal(account_model);
        }
        if let Some(login) = &mut self.state.account.login {
            if !login.finished {
                login.message = message;
            }
        }
    }

    /// Takes in a cover.
    pub(crate) fn take_cover(&mut self, hash: String)
        requires
            old(self).deep_view().wf(),
        ensures
            final(self).deep_view() == old(self).deep_view().cover_loaded(hash@),
            final(self).deep_view().wf(),
    {
        proof {
            reveal(AppModel::wf);
            reveal(AppModel::cover_loaded);
            reveal(player_model);
        }
        if self.is_current(hash.as_str()) {
            self.state.player.cover.set_image(hash);
        }
    }

    /// Takes in who the user is.
    pub(crate) fn take_user(&mut self, info: UserInfo)
        requires
            old(self).deep_view().wf(),
        ensures
            final(self).deep_view() == old(self).deep_view().user_known(info.deep_view()),
            final(self).deep_view().wf(),
    {
        proof {
            reveal(AppModel::wf);
            reveal(AppModel::user_known);
            reveal(account_model);
        }
        self.state.account.user_info = Some(info);
        self.state.account.user_info_load.succeed();
    }

    /// Takes in the membership.
    pub(crate) fn take_membership(&mut self, label: String)
        requires
            old(self).deep_view().wf(),
        ensures
            final(self).deep_view() == old(self).deep_view().membership_known(label@),
            final(self).deep_view().wf(),
    {
        proof {
            reveal(AppModel::wf);
            reveal(AppModel::membership_known);
            reveal(account_model);
        }
        self.state.account.vip_label = Some(label);
    }

    /// Takes in that something went wrong.
    pub(crate) fn take_failure(&mut self, context: String, error: AppError)
        requires
            old(self).deep_view().wf(),
        ensures
            final(self).deep_view() == old(self).deep_view().gone_wrong(
                context@,
                error.deep_view(),
            ),
            final(self).deep_view().wf(),
    {
        proof {
            reveal(AppModel::gone_wrong);
        }
        let hint = error.user_hint();
        self.set_busy(None);
        self.set_progress(None);
        self.fail_pages(hint.as_str());
        self.tell(StatusLevel::Error, text::join3(context.as_str(), "：", hint.as_str()));
    }

    /// Takes in that whatever was being loaded could not be.
    fn fail_pages(&mut self, reason: &str)
        requires
            old(self).deep_view().wf(),
        ensures
            final(self).deep_view() == old(self).deep_view().paged(
                old(self).deep_view().state.pages.failed(reason@),
            ),
            final(self).deep_view().wf(),
    {
        proof {
            reveal(AppModel::wf);
            reveal(pages_model);
        }
        self.state.pages.fail(reason);
    }
}

/// What an error says of the connection.
fn connection_from(error: &AppError) -> (r: Option<Connection>)
    ensures
        r == connection_after(error.deep_view()),
{
    if error.is_connectivity() {
        Some(Connection::Unreachable)
    } else {
        match error {
            AppError::Api { .. } => Some(Connection::Connected),
            _ => None,
        }
    }
}

/// What an outcome says of the connection.
pub(crate) fn connection_of(loaded: &Loaded) -> (r: Option<Connection>)
    ensures
        r == loaded.deep_view().connection(),
{
    proof {
        reveal(LoadedModel::connection);
    }
    match loaded {
        Loaded::Failed { error, .. } => connection_from(error),
        Loaded::UserInfoFailed { error } => connection_from(error),
        Loaded::Lyric { .. } => None,
        Loaded::DownloadProgress { .. } => None,
        Loaded::StreamCached { .. } => None,
        Loaded::CacheUsage(_) => None,
        Loaded::CoverReady { .. } => None,
        Loaded::VipClaimFailed { .. } => None,
        Loaded::SongSaved { .. } => None,
        _ => Some(Connection::Connected),
    }
}

} // verus!
