//! Loading the pages: what to ask for, and where the answers go.
use vstd::prelude::*;
use crate::model::{Artist, ArtistModel, Playlist, PlaylistModel, Song, SongModel};
use crate::order::{Order, OrderModel, PlaylistSource};
use crate::panes::{
    self, ArtistPaneModel, CloudPaneModel, EntryListModel, PlaylistPaneModel, RankPaneModel,
    SearchModel, SongListModel,
};
use crate::state::{
    account_model, artists_model, cloud_model, config_model, pages_model, playlists_model,
    ranks_model, screen_model, search_model, AccountModel, Pages, PagesModel, StateModel,
};
use crate::tab::{StatusLevel, Tab};
use crate::text;
use crate::update::{App, AppModel};

verus! {

/// How many artists are asked for at once.
pub const ARTIST_COUNT: u32 = 60;

/// The last page of a search that the service gives out.
pub const LAST_SEARCH_PAGE: u32 = 16;

/// The regions by which artists can be chosen.
pub const REGIONS: [(i64, &'static str); 5] = [
    (0, "全部"),
    (1, "华语"),
    (2, "欧美"),
    (3, "日韩"),
    (4, "其他"),
];

/// The place of the region after `kind` in the list of regions, going round; an unknown one counts
/// as the first.
pub open spec fn next_region(kind: i64) -> int {
    if 0 <= kind <= 3 {
        kind + 1
    } else if kind == 4 {
        0
    } else {
        1
    }
}

impl PagesModel {
    /// The list of a page is empty and is not being loaded.
    pub open spec fn lacking(self, tab: Tab) -> bool {
        match tab {
            Tab::Playlists => self.playlists.list.entries.len() == 0
                && !self.playlists.list.load.loading,
            Tab::Artists => self.artists.list.entries.len() == 0
                && !self.artists.list.load.loading,
            Tab::Ranks => self.ranks.list.entries.len() == 0 && !self.ranks.list.load.loading,
            Tab::Cloud => self.cloud.list.entries.len() == 0 && !self.cloud.list.load.loading,
            _ => false,
        }
    }
}

impl Pages {
    /// Whether the list of a page is empty and is not being loaded.
    fn lacks(&self, tab: Tab) -> (r: bool)
        ensures
            r == self.deep_view().lacking(tab),
    {
        proof {
            reveal(AppModel::wf);
            reveal(playlists_model);
            reveal(artists_model);
            reveal(ranks_model);
            reveal(cloud_model);
        }
        match tab {
            Tab::Playlists => self.playlists.list.is_empty()
                && !self.playlists.list.load.is_loading(),
            Tab::Artists => self.artists.list.is_empty() && !self.artists.list.load.is_loading(),
            Tab::Ranks => self.ranks.list.is_empty() && !self.ranks.list.load.is_loading(),
            Tab::Cloud => self.cloud.list.is_empty() && !self.cloud.list.load.is_loading(),
            _ => false,
        }
    }
}

impl AppModel {
    /// The same with other pages.
    pub open spec fn paged(self, pages: PagesModel) -> AppModel {
        AppModel { state: StateModel { pages, ..self.state }, ..self }
    }

    /// The public playlists are being loaded.
    #[verifier::opaque]
    pub open spec fn loading_plaza(self) -> AppModel {
        let pages = self.state.pages;
        self.paged(
            PagesModel {
                playlists: PlaylistPaneModel {
                    list: EntryListModel { load: panes::busy(), ..pages.playlists.list },
                    ..pages.playlists
                },
                ..pages
            },
        ).busy_with(Some("载入歌单广场"@)).ordering(
            OrderModel::LoadPlaza {
                category: pages.playlists.category,
                page_size: self.state.config.page_size,
            },
        )
    }

    /// The artists are being loaded.
    #[verifier::opaque]
    pub open spec fn loading_artists(self) -> AppModel {
        let pages = self.state.pages;
        self.paged(
            PagesModel {
                artists: ArtistPaneModel {
                    list: EntryListModel { load: panes::busy(), ..pages.artists.list },
                    ..pages.artists
                },
                ..pages
            },
        ).busy_with(Some("载入歌手列表"@)).ordering(
            OrderModel::LoadArtists { region: pages.artists.kind },
        )
    }

    /// The charts are being loaded.
    #[verifier::opaque]
    pub open spec fn loading_ranks(self) -> AppModel {
        let pages = self.state.pages;
        self.paged(
            PagesModel {
                ranks: RankPaneModel {
                    list: EntryListModel { load: panes::busy(), ..pages.ranks.list },
                    ..pages.ranks
                },
                ..pages
            },
        ).busy_with(Some("载入排行榜"@)).ordering(OrderModel::LoadRanks)
    }

    /// The user's own playlists are being loaded, where there is a login.
    #[verifier::opaque]
    pub open spec fn loading_cloud(self) -> AppModel {
        let pages = self.state.pages;
        if !self.state.account.logged_in {
            self.told(
                StatusLevel::Warning,
                "云端歌单需要登录，请配置 cookie（--cookie 或配置文件）"@,
            )
        } else {
            self.paged(
                PagesModel {
                    cloud: CloudPaneModel {
                        list: EntryListModel { load: panes::busy(), ..pages.cloud.list },
                        ..pages.cloud
                    },
                    ..pages
                },
            ).busy_with(Some("载入云端歌单"@)).ordering(OrderModel::LoadCloud)
        }
    }

    /// A page is loaded when it is shown for the first time, and again where that has failed.
    #[verifier::opaque]
    pub open spec fn entering(self, tab: Tab) -> AppModel {
        if !self.state.pages.lacking(tab) {
            self
        } else {
            match tab {
                Tab::Playlists => self.loading_plaza(),
                Tab::Artists => self.loading_artists(),
                Tab::Ranks => self.loading_ranks(),
                Tab::Cloud => self.loading_cloud(),
                _ => self,
            }
        }
    }

    /// The songs of a playlist are being loaded.
    #[verifier::opaque]
    pub open spec fn opening_playlist(
        self,
        playlist: PlaylistModel,
        source: PlaylistSource,
    ) -> AppModel {
        let pages = self.state.pages;
        let title = playlist.name + "（载入中…）"@;
        self.paged(
            match source {
                PlaylistSource::Plaza => PagesModel {
                    playlists: PlaylistPaneModel {
                        songs: SongListModel {
                            load: panes::busy(),
                            title,
                            ..pages.playlists.songs
                        },
                        open_playlist: Some(playlist),
                        ..pages.playlists
                    },
                    ..pages
                },
                PlaylistSource::Cloud => PagesModel {
                    cloud: CloudPaneModel {
                        songs: SongListModel { load: panes::busy(), title, ..pages.cloud.songs },
                        open_playlist: Some(playlist),
                        ..pages.cloud
                    },
                    ..pages
                },
            },
        ).busy_with(Some("载入歌单《"@ + playlist.name + "》"@)).ordering(
            OrderModel::LoadPlaylist { playlist, source },
        )
    }

    /// The songs of the selected public playlist are being loaded.
    #[verifier::opaque]
    pub open spec fn opening_selected_playlist(self) -> AppModel {
        match self.state.pages.playlists.list.chosen() {
            Some(playlist) => self.opening_playlist(playlist, PlaylistSource::Plaza),
            None => self.told(StatusLevel::Warning, "请先选择一个歌单"@),
        }
    }

    /// The songs of the selected playlist of the user are being loaded. One that can be written to
    /// becomes the one that songs are written to.
    #[verifier::opaque]
    pub open spec fn opening_selected_cloud_playlist(self) -> AppModel {
        match self.state.pages.cloud.list.chosen() {
            Some(playlist) => if playlist.list_id is Some && playlist.is_own {
                self.aiming_at(playlist).opening_playlist(playlist, PlaylistSource::Cloud)
            } else {
                self.opening_playlist(playlist, PlaylistSource::Cloud)
            },
            None => self.told(StatusLevel::Warning, "请先选择一个歌单"@),
        }
    }

    /// Songs are written to this playlist from now on.
    pub open spec fn aiming_at(self, playlist: PlaylistModel) -> AppModel {
        AppModel {
            state: StateModel {
                account: AccountModel {
                    sync_target: Some(playlist),
                    ..self.state.account
                },
                ..self.state
            },
            ..self
        }
    }

    /// The songs of the selected artist are being loaded.
    #[verifier::opaque]
    pub open spec fn opening_selected_artist(self) -> AppModel {
        let pages = self.state.pages;
        match pages.artists.list.chosen() {
            Some(artist) => self.paged(
                PagesModel {
                    artists: ArtistPaneModel {
                        songs: SongListModel {
                            load: panes::busy(),
                            title: artist.name + "（载入中…）"@,
                            ..pages.artists.songs
                        },
                        ..pages.artists
                    },
                    ..pages
                },
            ).busy_with(Some("载入歌手 "@ + artist.name)).ordering(
                OrderModel::LoadArtistSongs { artist },
            ),
            None => self.told(StatusLevel::Warning, "请先选择一位歌手"@),
        }
    }

    /// The songs of the selected chart are being loaded.
    #[verifier::opaque]
    pub open spec fn opening_selected_rank(self) -> AppModel {
        let pages = self.state.pages;
        match pages.ranks.list.chosen() {
            Some(board) => self.paged(
                PagesModel {
                    ranks: RankPaneModel {
                        songs: SongListModel {
                            load: panes::busy(),
                            title: board.name + "（载入中…）"@,
                            ..pages.ranks.songs
                        },
                        ..pages.ranks
                    },
                    ..pages
                },
            ).busy_with(Some("载入榜单 "@ + board.name)).ordering(
                OrderModel::LoadRankSongs { board },
            ),
            None => self.told(StatusLevel::Warning, "请先选择一个榜单"@),
        }
    }

    /// What stands in the search line is being searched for.
    #[verifier::opaque]
    pub open spec fn searching(self) -> AppModel {
        let pages = self.state.pages;
        let keyword = text::trimmed(pages.search.input.text);
        if keyword.len() == 0 {
            self.told(StatusLevel::Warning, "请输入搜索关键词"@)
        } else {
            self.paged(
                PagesModel {
                    search: SearchModel {
                        submitted: keyword,
                        editing: false,
                        results: SongListModel {
                            load: panes::busy(),
                            title: "搜索「"@ + keyword + "」"@,
                            ..pages.search.results
                        },
                        ..pages.search
                    },
                    ..pages
                },
            ).busy_with(Some("搜索 "@ + keyword)).ordering(
                OrderModel::Search {
                    keyword,
                    page: 1,
                    page_size: self.state.config.page_size,
                    append: false,
                },
            )
        }
    }

    /// The next page of the search is being loaded.
    #[verifier::opaque]
    pub open spec fn searching_on(self) -> AppModel {
        let pages = self.state.pages;
        let keyword = pages.search.submitted;
        let next = (pages.search.page + 1) as u32;
        if keyword.len() == 0 {
            self.told(StatusLevel::Warning, "请先搜索"@)
        } else if pages.search.results.songs.len() == 0 {
            self.told(StatusLevel::Warning, "当前没有搜索结果"@)
        } else if pages.search.page >= LAST_SEARCH_PAGE {
            self.told(StatusLevel::Info, "已经到最后一页了"@)
        } else {
            self.busy_with(
                Some("加载「"@ + keyword + "」第 "@ + text::decimal(next as nat) + " 页"@),
            ).paged(
                PagesModel { search: SearchModel { page: next, ..pages.search }, ..pages },
            ).ordering(
                OrderModel::Search {
                    keyword,
                    page: next,
                    page_size: self.state.config.page_size,
                    append: true,
                },
            )
        }
    }

    /// The artists of the next region are being loaded; the old ones are gone at once.
    #[verifier::opaque]
    pub open spec fn filtering_artists(self) -> AppModel {
        let pages = self.state.pages;
        if self.state.screen.tab != Tab::Artists {
            self.told(
                StatusLevel::Info,
                "按 f 可筛选歌手地区，请先切到「歌手」标签页"@,
            )
        } else {
            let region = REGIONS@[next_region(pages.artists.kind)];
            self.paged(
                PagesModel {
                    artists: ArtistPaneModel {
                        kind: region.0,
                        list: pages.artists.list.replaced(Seq::empty()),
                        songs: pages.artists.songs.replaced(Seq::empty(), Seq::empty()),
                    },
                    ..pages
                },
            ).told(StatusLevel::Info, "歌手地区筛选："@ + region.1@).loading_artists()
        }
    }

    /// What the page shows is loaded again, with the songs of the playlist that is open on it.
    #[verifier::opaque]
    pub open spec fn reloading(self) -> AppModel {
        let pages = self.state.pages;
        match self.state.screen.tab {
            Tab::Search => if pages.search.submitted.len() == 0 {
                self.told(StatusLevel::Info, "还没有搜索过，按 / 开始搜索"@)
            } else {
                self.searching()
            },
            Tab::Playlists => match pages.playlists.open_playlist {
                Some(playlist) => self.loading_plaza().opening_playlist(
                    playlist,
                    PlaylistSource::Plaza,
                ),
                None => self.loading_plaza(),
            },
            Tab::Artists => self.loading_artists(),
            Tab::Ranks => self.loading_ranks(),
            Tab::Cloud => self.reloading_cloud(),
            Tab::Visualizer => self.told(StatusLevel::Info, "可视化页面没有需要刷新的数据"@),
            _ => self,
        }
    }

    /// The user's own playlists are loaded again, with the songs of the one that is open.
    #[verifier::opaque]
    pub open spec fn reloading_cloud(self) -> AppModel {
        match self.state.pages.cloud.open_playlist {
            Some(playlist) => if self.state.account.logged_in {
                self.loading_cloud().opening_playlist(playlist, PlaylistSource::Cloud)
            } else {
                self.loading_cloud()
            },
            None => self.loading_cloud(),
        }
    }
}

impl App {
    /// Loads the public playlists.
    pub fn load_plaza_playlists(&mut self)
        requires
            old(self).deep_view().wf(),
        ensures
            final(self).deep_view() == old(self).deep_view().loading_plaza(),
            final(self).deep_view().wf(),
    {
        proof {
            reveal(AppModel::wf);
            reveal(AppModel::loading_plaza);
            reveal(pages_model);
            reveal(playlists_model);
            reveal(config_model);
        }
        let category: i64 = self.state.pages.playlists.category;
        let page_size: u32 = self.state.config.page_size;
        self.state.pages.playlists.list.load.begin();
        self.set_busy(Some("载入歌单广场".to_owned()));
        self.order(Order::LoadPlaza { category, page_size });
    }

    /// Loads the artists.
    pub fn load_artists(&mut self)
        requires
            old(self).deep_view().wf(),
        ensures
            final(self).deep_view() == old(self).deep_view().loading_artists(),
            final(self).deep_view().wf(),
    {
        proof {
            reveal(AppModel::wf);
            reveal(AppModel::loading_artists);
            reveal(pages_model);
            reveal(artists_model);
        }
        let region: i64 = self.state.pages.artists.kind;
        self.state.pages.artists.list.load.begin();
        self.set_busy(Some("载入歌手列表".to_owned()));
        self.order(Order::LoadArtists { region });
    }

    /// Loads the charts.
    pub fn load_ranks(&mut self)
        requires
            old(self).deep_view().wf(),
        ensures
            final(self).deep_view() == old(self).deep_view().loading_ranks(),
            final(self).deep_view().wf(),
    {
        proof {
            reveal(AppModel::wf);
            reveal(AppModel::loading_ranks);
            reveal(pages_model);
            reveal(ranks_model);
        }
        self.state.pages.ranks.list.load.begin();
        self.set_busy(Some("载入排行榜".to_owned()));
        self.order(Order::LoadRanks);
    }

    /// Loads the user's own playlists.
    pub fn load_cloud_playlists(&mut self)
        requires
            old(self).deep_view().wf(),
        ensures
            final(self).deep_view() == old(self).deep_view().loading_cloud(),
            final(self).deep_view().wf(),
    {
        proof {
            reveal(AppModel::wf);
            reveal(AppModel::loading_cloud);
            reveal(account_model);
            reveal(pages_model);
            reveal(cloud_model);
        }
        if !self.state.account.logged_in {
            self.tell(
                StatusLevel::Warning,
                "云端歌单需要登录，请配置 cookie（--cookie 或配置文件）".to_owned(),
            );
            return ;
        }
        self.state.pages.cloud.list.load.begin();
        self.set_busy(Some("载入云端歌单".to_owned()));
        self.order(Order::LoadCloud);
    }

    /// Loads a page that is shown for the first time.
    pub fn ensure_tab_loaded(&mut self, tab: Tab)
        requires
            old(self).deep_view().wf(),
        ensures
            final(self).deep_view() == old(self).deep_view().entering(tab),
            final(self).deep_view().wf(),
    {
        proof {
            reveal(AppModel::wf);
            reveal(AppModel::entering);
            reveal(pages_model);
        }
        if !self.state.pages.lacks(tab) {
            return ;
        }
        match tab {
            Tab::Playlists => self.load_plaza_playlists(),
            Tab::Artists => self.load_artists(),
            Tab::Ranks => self.load_ranks(),
            Tab::Cloud => self.load_cloud_playlists(),
            _ => {},
        }
    }

    /// Loads the songs of a playlist.
    pub fn load_playlist_songs(&mut self, playlist: Playlist, source: PlaylistSource)
        requires
            old(self).deep_view().wf(),
        ensures
            final(self).deep_view() == old(self).deep_view().opening_playlist(
                playlist.deep_view(),
                source,
            ),
            final(self).deep_view().wf(),
    {
        proof {
            reveal(AppModel::opening_playlist);
        }
        let title = text::join2(playlist.name.as_str(), "（载入中…）");
        let what = text::join3("载入歌单《", playlist.name.as_str(), "》");
        let kept = playlist.clone();
        match source {
            PlaylistSource::Plaza => {
                proof {
                    reveal(AppModel::wf);
                    reveal(pages_model);
                    reveal(playlists_model);
                }
                self.state.pages.playlists.songs.load.begin();
                self.state.pages.playlists.songs.title = title;
                self.state.pages.playlists.open_playlist = Some(kept);
            },
            PlaylistSource::Cloud => {
                proof {
                    reveal(AppModel::wf);
                    reveal(pages_model);
                    reveal(cloud_model);
                }
                self.state.pages.cloud.songs.load.begin();
                self.state.pages.cloud.songs.title = title;
                self.state.pages.cloud.open_playlist = Some(kept);
            },
        }
        self.set_busy(Some(what));
        self.order(Order::LoadPlaylist { playlist, source });
    }

    /// Loads the songs of the selected public playlist.
    pub(crate) fn open_selected_playlist(&mut self)
        requires
            old(self).deep_view().wf(),
        ensures
            final(self).deep_view() == old(self).deep_view().opening_selected_playlist(),
            final(self).deep_view().wf(),
    {
        proof {
            reveal(AppModel::wf);
            reveal(AppModel::opening_selected_playlist);
            reveal(pages_model);
            reveal(playlists_model);
        }
        let chosen = match self.state.pages.playlists.list.selected() {
            Some(playlist) => playlist.clone(),
            None => {
                self.tell(StatusLevel::Warning, "请先选择一个歌单".to_owned());
                return ;
            },
        };
        self.load_playlist_songs(chosen, PlaylistSource::Plaza);
    }

    /// Loads the songs of the selected playlist of the user.
    pub(crate) fn open_selected_cloud_playlist(&mut self)
        requires
            old(self).deep_view().wf(),
        ensures
            final(self).deep_view() == old(self).deep_view().opening_selected_cloud_playlist(),
            final(self).deep_view().wf(),
    {
        proof {
            reveal(AppModel::wf);
            reveal(AppModel::opening_selected_cloud_playlist);
            reveal(pages_model);
            reveal(cloud_model);
        }
        let chosen = match self.state.pages.cloud.list.selected() {
            Some(playlist) => playlist.clone(),
            None => {
                self.tell(StatusLevel::Warning, "请先选择一个歌单".to_owned());
                return ;
            },
        };
        if chosen.is_writable() {
            self.aim_at(chosen.clone());
        }
        self.load_playlist_songs(chosen, PlaylistSource::Cloud);
    }

    /// Writes songs to this playlist from now on.
    fn aim_at(&mut self, playlist: Playlist)
        ensures
            final(self).deep_view() == old(self).deep_view().aiming_at(playlist.deep_view()),
    {
        proof {
            reveal(AppModel::wf);
            reveal(account_model);
        }
        self.state.account.sync_target = Some(playlist);
    }

    /// Loads the songs of the selected artist.
    pub(crate) fn open_selected_artist(&mut self)
        requires
            old(self).deep_view().wf(),
        ensures
            final(self).deep_view() == old(self).deep_view().opening_selected_artist(),
            final(self).deep_view().wf(),
    {
        proof {
            reveal(AppModel::wf);
            reveal(AppModel::opening_selected_artist);
            reveal(pages_model);
            reveal(artists_model);
        }
        let artist = match self.state.pages.artists.list.selected() {
            Some(artist) => artist.clone(),
            None => {
                self.tell(StatusLevel::Warning, "请先选择一位歌手".to_owned());
                return ;
            },
        };
        self.state.pages.artists.songs.load.begin();
        self.state.pages.artists.songs.title = text::join2(artist.name.as_str(), "（载入中…）");
        self.set_busy(Some(text::join2("载入歌手 ", artist.name.as_str())));
        self.order(Order::LoadArtistSongs { artist });
    }

    /// Loads the songs of the selected chart.
    pub(crate) fn open_selected_rank(&mut self)
        requires
            old(self).deep_view().wf(),
        ensures
            final(self).deep_view() == old(self).deep_view().opening_selected_rank(),
            final(self).deep_view().wf(),
    {
        proof {
            reveal(AppModel::wf);
            reveal(AppModel::opening_selected_rank);
            reveal(pages_model);
            reveal(ranks_model);
        }
        let board = match self.state.pages.ranks.list.selected() {
            Some(board) => board.clone(),
            None => {
                self.tell(StatusLevel::Warning, "请先选择一个榜单".to_owned());
                return ;
            },
        };
        self.state.pages.ranks.songs.load.begin();
        self.state.pages.ranks.songs.title = text::join2(board.name.as_str(), "（载入中…）");
        self.set_busy(Some(text::join2("载入榜单 ", board.name.as_str())));
        self.order(Order::LoadRankSongs { board });
    }

    /// Searches for what stands in the search line.
    pub fn run_search(&mut self)
        requires
            old(self).deep_view().wf(),
        ensures
            final(self).deep_view() == old(self).deep_view().searching(),
            final(self).deep_view().wf(),
    {
        proof {
            reveal(AppModel::wf);
            reveal(AppModel::searching);
            reveal(pages_model);
            reveal(search_model);
            reveal(config_model);
        }
        let keyword = text::trim_text(self.state.pages.search.input.text());
        if keyword.as_str().is_empty() {
            self.tell(StatusLevel::Warning, "请输入搜索关键词".to_owned());
            return ;
        }
        let page_size: u32 = self.state.config.page_size;
        self.state.pages.search.submitted = keyword.clone();
        self.state.pages.search.editing = false;
        self.state.pages.search.results.load.begin();
        self.state.pages.search.results.title = text::join3("搜索「", keyword.as_str(), "」");
        self.set_busy(Some(text::join2("搜索 ", keyword.as_str())));
        self.order(Order::Search { keyword, page: 1, page_size, append: false });
    }

    /// Loads the next page of the search.
    pub(crate) fn load_more_search(&mut self)
        requires
            old(self).deep_view().wf(),
        ensures
            final(self).deep_view() == old(self).deep_view().searching_on(),
            final(self).deep_view().wf(),
    {
        proof {
            reveal(AppModel::wf);
            reveal(AppModel::searching_on);
            reveal(pages_model);
            reveal(search_model);
            reveal(config_model);
        }
        let keyword = self.state.pages.search.submitted.clone();
        if keyword.as_str().is_empty() {
            self.tell(StatusLevel::Warning, "请先搜索".to_owned());
            return ;
        }
        if self.state.pages.search.results.is_empty() {
            self.tell(StatusLevel::Warning, "当前没有搜索结果".to_owned());
            return ;
        }
        if self.state.pages.search.page >= LAST_SEARCH_PAGE {
            self.tell(StatusLevel::Info, "已经到最后一页了".to_owned());
            return ;
        }
        let next: u32 = self.state.pages.search.page + 1;
        let page_size: u32 = self.state.config.page_size;
        let number = text::write_u64(next as u64);
        self.set_busy(
            Some(text::join5("加载「", keyword.as_str(), "」第 ", number.as_str(), " 页")),
        );
        self.state.pages.search.page = next;
        self.order(Order::Search { keyword, page: next, page_size, append: true });
    }

    /// Loads the artists of the next region.
    pub(crate) fn cycle_artist_filter(&mut self)
        requires
            old(self).deep_view().wf(),
        ensures
            final(self).deep_view() == old(self).deep_view().filtering_artists(),
            final(self).deep_view().wf(),
    {
        proof {
            reveal(AppModel::wf);
            reveal(AppModel::filtering_artists);
            reveal(pages_model);
            reveal(artists_model);
            reveal(screen_model);
        }
        if self.state.screen.tab != Tab::Artists {
            self.tell(
                StatusLevel::Info,
                "按 f 可筛选歌手地区，请先切到「歌手」标签页".to_owned(),
            );
            return ;
        }
        let kind: i64 = self.state.pages.artists.kind;
        let place: usize = if 0 <= kind && kind <= 3 {
            kind as usize + 1
        } else if kind == 4 {
            0
        } else {
            1
        };
        let region = REGIONS[place];
        let artists: Vec<Artist> = Vec::new();
        let songs: Vec<Song> = Vec::new();
        proof {
            assert(artists.deep_view() =~= Seq::<ArtistModel>::empty());
            assert(songs.deep_view() =~= Seq::<SongModel>::empty());
        }
        self.state.pages.artists.kind = region.0;
        self.state.pages.artists.list.replace(artists);
        self.state.pages.artists.songs.replace(String::new(), songs);
        self.tell(StatusLevel::Info, text::join2("歌手地区筛选：", region.1));
        self.load_artists();
    }

    /// Loads what the page shows again.
    pub(crate) fn reload_current_tab(&mut self)
        requires
            old(self).deep_view().wf(),
        ensures
            final(self).deep_view() == old(self).deep_view().reloading(),
            final(self).deep_view().wf(),
    {
        proof {
            reveal(AppModel::wf);
            reveal(AppModel::reloading);
            reveal(screen_model);
        }
        match self.state.screen.tab {
            Tab::Search => {
                proof {
                    reveal(AppModel::wf);
                    reveal(pages_model);
                    reveal(search_model);
                }
                if self.state.pages.search.submitted.as_str().is_empty() {
                    self.tell(StatusLevel::Info, "还没有搜索过，按 / 开始搜索".to_owned());
                } else {
                    self.run_search();
                }
            },
            Tab::Playlists => {
                let open = self.open_plaza_playlist();
                self.load_plaza_playlists();
                if let Some(playlist) = open {
                    self.load_playlist_songs(playlist, PlaylistSource::Plaza);
                }
            },
            Tab::Artists => self.load_artists(),
            Tab::Ranks => self.load_ranks(),
            Tab::Cloud => self.reload_cloud(),
            Tab::Visualizer => self.tell(
                StatusLevel::Info,
                "可视化页面没有需要刷新的数据".to_owned(),
            ),
            _ => {},
        }
    }

    /// The public playlist whose songs are shown.
    fn open_plaza_playlist(&self) -> (r: Option<Playlist>)
        ensures
            r.deep_view() == self.deep_view().state.pages.playlists.open_playlist,
    {
        proof {
            reveal(AppModel::wf);
            reveal(pages_model);
            reveal(playlists_model);
        }
        match &self.state.pages.playlists.open_playlist {
            Some(playlist) => Some(playlist.clone()),
            None => None,
        }
    }

    /// The playlist of the user whose songs are shown.
    pub(crate) fn open_cloud_playlist(&self) -> (r: Option<Playlist>)
        ensures
            r.deep_view() == self.deep_view().state.pages.cloud.open_playlist,
    {
        proof {
            reveal(AppModel::wf);
            reveal(pages_model);
            reveal(cloud_model);
        }
        match &self.state.pages.cloud.open_playlist {
            Some(playlist) => Some(playlist.clone()),
            None => None,
        }
    }

    /// Loads the user's own playlists again, with the songs of the one that is open.
    pub(crate) fn reload_cloud(&mut self)
        requires
            old(self).deep_view().wf(),
        ensures
            final(self).deep_view() == old(self).deep_view().reloading_cloud(),
            final(self).deep_view().wf(),
    {
        proof {
            reveal(AppModel::wf);
            reveal(AppModel::reloading_cloud);
            reveal(account_model);
        }
        let open = self.open_cloud_playlist();
        let logged_in = self.state.account.logged_in;
        self.load_cloud_playlists();
        if let Some(playlist) = open {
            if logged_in {
                self.load_playlist_songs(playlist, PlaylistSource::Cloud);
            }
        }
    }
}

// ---------------------------------------------------------------------------
// Laws
// ---------------------------------------------------------------------------
/// A page that is being loaded is not asked for again.
pub proof fn pages_are_asked_for_once(app: AppModel, tab: Tab)
    ensures
        app.entering(tab).entering(tab).orders == app.entering(tab).orders,
{
    reveal(AppModel::entering);
    reveal(AppModel::loading_plaza);
    reveal(AppModel::loading_artists);
    reveal(AppModel::loading_ranks);
    reveal(AppModel::loading_cloud);
    reveal(AppModel::told);
    reveal(AppModel::busy_with);
    reveal(AppModel::ordering);
}

/// No page of a search behind the last is asked for.
pub proof fn searches_come_to_an_end(app: AppModel)
    requires
        app.state.pages.search.page >= LAST_SEARCH_PAGE,
    ensures
        app.searching_on().orders == app.orders,
{
    reveal(AppModel::searching_on);
    reveal(AppModel::told);
}

/// Choosing the next region five times leads through all of them and back.
pub proof fn regions_go_round(kind: i64)
    requires
        0 <= kind <= 4,
    ensures
        0 <= next_region(kind) <= 4,
        REGIONS@[next_region(kind)].0 == next_region(kind),
        next_region(
            next_region(
                next_region(next_region(next_region(kind) as i64) as i64) as i64,
            ) as i64,
        ) == kind,
{
}

} // verus!
