//! The state of the player: what is shown, what is selected, what is playing.
//!
//! It is data alone. What changes it stands in `update`.
use vstd::prelude::*;
use crate::cloud::{UserInfo, UserModel};
use crate::config::{Config, ConfigModel};
use crate::engine::PlaybackState;
use crate::input::InputModel;
use crate::model::{self, Playlist, PlaylistModel, Song, SongModel};
use crate::panes::{
    self, ArtistPane, ArtistPaneModel, CloudPane, CloudPaneModel, ConfirmAction, Connection,
    ContextMenu, CoverArt, CoverModel, EntryListModel, HelpModel, HelpPane, ListState, LoadModel,
    LoadState, LoginModel, LoginPicker, LoginState, LyricPane, LyricPaneModel, MenuAction,
    PlaylistPane, PlaylistPaneModel, PromptModel, PromptState, QualityPicker, RankPane,
    RankPaneModel, SearchModel, SearchPane, SongList, SongListModel,
};
use crate::queue::{PlayQueue, QueueModel};
use crate::source::SourceKind;
use crate::tab::{Focus, HitTarget, HitZone, Rect, StatusLevel, Tab};

verus! {

pub struct LoginPickerModel {
    pub candidates: Seq<SourceKind>,
    pub selected: Option<usize>,
}

pub struct QualityPickerModel {
    pub song: SongModel,
    pub candidates: Seq<Seq<char>>,
    pub selected: Option<usize>,
}

pub struct MenuModel {
    pub song: SongModel,
    pub items: Seq<MenuAction>,
    pub cursor: usize,
}

/// What a login picker shows.
pub open spec fn login_picker_model(picker: Option<LoginPicker>) -> Option<LoginPickerModel> {
    match picker {
        Some(p) => Some(
            LoginPickerModel { candidates: p.candidates@, selected: p.cursor.selected },
        ),
        None => None,
    }
}

/// What a quality picker shows.
pub open spec fn quality_picker_model(picker: Option<QualityPicker>) -> Option<QualityPickerModel> {
    match picker {
        Some(p) => Some(
            QualityPickerModel {
                song: p.song.deep_view(),
                candidates: crate::text::views(p.candidates@),
                selected: p.cursor.selected,
            },
        ),
        None => None,
    }
}

/// What a song's menu shows.
pub open spec fn menu_model(menu: Option<ContextMenu>) -> Option<MenuModel> {
    match menu {
        Some(m) => Some(
            MenuModel { song: m.song.deep_view(), items: m.items@, cursor: m.cursor },
        ),
        None => None,
    }
}

/// Where a song was left.
pub open spec fn resume_model(resume: Option<(String, u64)>) -> Option<(Seq<char>, u64)> {
    match resume {
        Some(place) => Some((place.0@, place.1)),
        None => None,
    }
}

/// What is on the screen and which part of it has the keys.
#[derive(Debug)]
pub struct Screen {
    pub tab: Tab,
    pub focus: Focus,
    pub sidebar_visible: bool,
    pub help: HelpPane,
    pub show_lyric_panel: bool,
    /// Whether the lyric was drawn this time.
    pub lyric_visible: bool,
    /// Where the mouse is: column and row.
    pub hover: Option<(u16, u16)>,
    pub hit_zones: Vec<HitZone>,
    pub last_click: Option<(HitTarget, Option<usize>)>,
    /// When that was, in milliseconds.
    pub last_click_ms: u64,
}

pub struct ScreenModel {
    pub tab: Tab,
    pub focus: Focus,
    pub sidebar_visible: bool,
    pub help: HelpModel,
    pub show_lyric_panel: bool,
    pub lyric_visible: bool,
    pub hover: Option<(u16, u16)>,
    pub hit_zones: Seq<HitZone>,
    pub last_click: Option<(HitTarget, Option<usize>)>,
    pub last_click_ms: u64,
}

impl DeepView for Screen {
    type V = ScreenModel;

    open spec fn deep_view(&self) -> ScreenModel {
        ScreenModel {
            tab: self.tab,
            focus: self.focus,
            sidebar_visible: self.sidebar_visible,
            help: self.help@,
            show_lyric_panel: self.show_lyric_panel,
            lyric_visible: self.lyric_visible,
            hover: self.hover,
            hit_zones: self.hit_zones@,
            last_click: self.last_click,
            last_click_ms: self.last_click_ms,
        }
    }
}

/// What the pages hold.
#[derive(Debug)]
pub struct Pages {
    pub search: SearchPane,
    pub playlists: PlaylistPane,
    pub artists: ArtistPane,
    pub ranks: RankPane,
    pub cloud: CloudPane,
    pub sources_cursor: ListState,
    pub settings_cursor: usize,
    /// Whether the last song stands on top.
    pub sort_descending: bool,
}

pub struct PagesModel {
    pub search: SearchModel,
    pub playlists: PlaylistPaneModel,
    pub artists: ArtistPaneModel,
    pub ranks: RankPaneModel,
    pub cloud: CloudPaneModel,
    pub sources_cursor: Option<usize>,
    pub settings_cursor: usize,
    pub sort_descending: bool,
}

/// The model of the search page. It is looked into only where it matters.
#[verifier::opaque]
pub open spec fn search_model(part: SearchPane) -> SearchModel {
    part.deep_view()
}

/// The model of the page of public playlists. It is looked into only where it matters.
#[verifier::opaque]
pub open spec fn playlists_model(part: PlaylistPane) -> PlaylistPaneModel {
    part.deep_view()
}

/// The model of the page of artists. It is looked into only where it matters.
#[verifier::opaque]
pub open spec fn artists_model(part: ArtistPane) -> ArtistPaneModel {
    part.deep_view()
}

/// The model of the page of charts. It is looked into only where it matters.
#[verifier::opaque]
pub open spec fn ranks_model(part: RankPane) -> RankPaneModel {
    part.deep_view()
}

/// The model of the page of the user's own playlists. It is looked into only where it matters.
#[verifier::opaque]
pub open spec fn cloud_model(part: CloudPane) -> CloudPaneModel {
    part.deep_view()
}

impl DeepView for Pages {
    type V = PagesModel;

    open spec fn deep_view(&self) -> PagesModel {
        PagesModel {
            search: search_model(self.search),
            playlists: playlists_model(self.playlists),
            artists: artists_model(self.artists),
            ranks: ranks_model(self.ranks),
            cloud: cloud_model(self.cloud),
            sources_cursor: self.sources_cursor.selected,
            settings_cursor: self.settings_cursor,
            sort_descending: self.sort_descending,
        }
    }
}

/// What is playing and what comes next.
#[derive(Debug)]
pub struct Player {
    pub queue: PlayQueue,
    pub queue_cursor: ListState,
    pub current: Option<Song>,
    /// Whether only a part of the song is being played.
    pub current_is_trial: bool,
    pub playback: PlaybackState,
    pub position_ms: u64,
    pub duration_ms: u64,
    pub lyric: LyricPane,
    pub cover: CoverArt,
    /// A song and the place in it where it was left.
    pub resume: Option<(String, u64)>,
}

pub struct PlayerModel {
    pub queue: QueueModel,
    pub queue_cursor: Option<usize>,
    pub current: Option<SongModel>,
    pub current_is_trial: bool,
    pub playback: PlaybackState,
    pub position_ms: u64,
    pub duration_ms: u64,
    pub lyric: LyricPaneModel,
    pub cover: CoverModel,
    pub resume: Option<(Seq<char>, u64)>,
}

impl DeepView for Player {
    type V = PlayerModel;

    open spec fn deep_view(&self) -> PlayerModel {
        PlayerModel {
            queue: self.queue@,
            queue_cursor: self.queue_cursor.selected,
            current: self.current.deep_view(),
            current_is_trial: self.current_is_trial,
            playback: self.playback,
            position_ms: self.position_ms,
            duration_ms: self.duration_ms,
            lyric: self.lyric.deep_view(),
            cover: self.cover.deep_view(),
            resume: resume_model(self.resume),
        }
    }
}

/// Who the user is at the service in use.
#[derive(Debug)]
pub struct Account {
    pub logged_in: bool,
    pub connection: Connection,
    pub login: Option<LoginState>,
    /// The playlist that songs are written to.
    pub sync_target: Option<Playlist>,
    /// The membership in words.
    pub vip_label: Option<String>,
    /// The day of the last claim.
    pub vip_claimed_day: Option<String>,
    pub vip_claiming: bool,
    /// When a QR code was last asked for, in milliseconds.
    pub last_qr_key_ms: Option<u64>,
    /// A QR code is held back, because the last one was asked for too lately.
    pub qr_held: bool,
    pub user_info: Option<UserInfo>,
    pub user_info_load: LoadState,
}

pub struct AccountModel {
    pub logged_in: bool,
    pub connection: Connection,
    pub login: Option<LoginModel>,
    pub sync_target: Option<PlaylistModel>,
    pub vip_label: Option<Seq<char>>,
    pub vip_claimed_day: Option<Seq<char>>,
    pub vip_claiming: bool,
    pub last_qr_key_ms: Option<u64>,
    pub qr_held: bool,
    pub user_info: Option<UserModel>,
    pub user_info_load: LoadModel,
}

impl DeepView for Account {
    type V = AccountModel;

    open spec fn deep_view(&self) -> AccountModel {
        AccountModel {
            logged_in: self.logged_in,
            connection: self.connection,
            login: self.login.deep_view(),
            sync_target: self.sync_target.deep_view(),
            vip_label: self.vip_label.deep_view(),
            vip_claimed_day: self.vip_claimed_day.deep_view(),
            vip_claiming: self.vip_claiming,
            last_qr_key_ms: self.last_qr_key_ms,
            qr_held: self.qr_held,
            user_info: self.user_info.deep_view(),
            user_info_load: self.user_info_load@,
        }
    }
}

/// The dialogs that are open.
#[derive(Debug)]
pub struct Dialogs {
    pub pending_confirm: Option<ConfirmAction>,
    pub login_picker: Option<LoginPicker>,
    pub quality_picker: Option<QualityPicker>,
    pub prompt: Option<PromptState>,
    pub context_menu: Option<ContextMenu>,
}

pub struct DialogsModel {
    pub pending_confirm: Option<ConfirmAction>,
    pub login_picker: Option<LoginPickerModel>,
    pub quality_picker: Option<QualityPickerModel>,
    pub prompt: Option<PromptModel>,
    pub context_menu: Option<MenuModel>,
}

impl DeepView for Dialogs {
    type V = DialogsModel;

    open spec fn deep_view(&self) -> DialogsModel {
        DialogsModel {
            pending_confirm: self.pending_confirm,
            login_picker: login_picker_model(self.login_picker),
            quality_picker: quality_picker_model(self.quality_picker),
            prompt: self.prompt.deep_view(),
            context_menu: menu_model(self.context_menu),
        }
    }
}

/// What the status line says, and what is going on.
#[derive(Debug)]
pub struct Status {
    pub message: String,
    pub level: StatusLevel,
    /// What is being done in the background.
    pub busy: Option<String>,
    /// How many bytes have come, and of how many.
    pub download_progress: Option<(u64, Option<u64>)>,
    pub cache_bytes: u64,
    pub ticks: u64,
    pub should_quit: bool,
    /// Quit without saving the settings.
    pub force_quit: bool,
}

pub struct StatusModel {
    pub message: Seq<char>,
    pub level: StatusLevel,
    pub busy: Option<Seq<char>>,
    pub download_progress: Option<(u64, Option<u64>)>,
    pub cache_bytes: u64,
    pub ticks: u64,
    pub should_quit: bool,
    pub force_quit: bool,
}

impl DeepView for Status {
    type V = StatusModel;

    open spec fn deep_view(&self) -> StatusModel {
        StatusModel {
            message: self.message@,
            level: self.level,
            busy: self.busy.deep_view(),
            download_progress: self.download_progress,
            cache_bytes: self.cache_bytes,
            ticks: self.ticks,
            should_quit: self.should_quit,
            force_quit: self.force_quit,
        }
    }
}

/// The state of the player.
#[derive(Debug)]
pub struct AppState {
    pub config: Config,
    pub screen: Screen,
    pub pages: Pages,
    pub player: Player,
    pub account: Account,
    pub dialogs: Dialogs,
    pub status: Status,
}

/// The state of the player, with texts as character sequences and lists as sequences.
pub struct StateModel {
    pub config: ConfigModel,
    pub screen: ScreenModel,
    pub pages: PagesModel,
    pub player: PlayerModel,
    pub account: AccountModel,
    pub dialogs: DialogsModel,
    pub status: StatusModel,
}

/// The model of the settings. It is looked into only where it matters.
#[verifier::opaque]
pub open spec fn config_model(part: Config) -> ConfigModel {
    part.deep_view()
}

/// The model of the screen. It is looked into only where it matters.
#[verifier::opaque]
pub open spec fn screen_model(part: Screen) -> ScreenModel {
    part.deep_view()
}

/// The model of the pages. It is looked into only where it matters.
#[verifier::opaque]
pub open spec fn pages_model(part: Pages) -> PagesModel {
    part.deep_view()
}

/// The model of the player. It is looked into only where it matters.
#[verifier::opaque]
pub open spec fn player_model(part: Player) -> PlayerModel {
    part.deep_view()
}

/// The model of the account. It is looked into only where it matters.
#[verifier::opaque]
pub open spec fn account_model(part: Account) -> AccountModel {
    part.deep_view()
}

/// The model of the dialogs. It is looked into only where it matters.
#[verifier::opaque]
pub open spec fn dialogs_model(part: Dialogs) -> DialogsModel {
    part.deep_view()
}

/// The model of the status. It is looked into only where it matters.
#[verifier::opaque]
pub open spec fn status_model(part: Status) -> StatusModel {
    part.deep_view()
}

impl DeepView for AppState {
    type V = StateModel;

    open spec fn deep_view(&self) -> StateModel {
        StateModel {
            config: config_model(self.config),
            screen: screen_model(self.screen),
            pages: pages_model(self.pages),
            player: player_model(self.player),
            account: account_model(self.account),
            dialogs: dialogs_model(self.dialogs),
            status: status_model(self.status),
        }
    }
}

// ---------------------------------------------------------------------------
// The pages
// ---------------------------------------------------------------------------
impl PagesModel {
    /// Every selected song is one of its list, and the cursor stands in the search line.
    pub open spec fn wf(self) -> bool {
        &&& self.search.input.wf()
        &&& self.search.results.wf()
        &&& self.playlists.songs.wf()
        &&& self.artists.songs.wf()
        &&& self.ranks.songs.wf()
        &&& self.cloud.songs.wf()
    }

    /// The songs of a page.
    pub open spec fn songs(self, tab: Tab) -> Option<SongListModel> {
        match tab {
            Tab::Search => Some(self.search.results),
            Tab::Playlists => Some(self.playlists.songs),
            Tab::Artists => Some(self.artists.songs),
            Tab::Ranks => Some(self.ranks.songs),
            Tab::Cloud => Some(self.cloud.songs),
            _ => None,
        }
    }

    /// The pages with the songs of one exchanged.
    pub open spec fn with_songs(self, tab: Tab, songs: SongListModel) -> PagesModel {
        match tab {
            Tab::Search => PagesModel {
                search: SearchModel { results: songs, ..self.search },
                ..self
            },
            Tab::Playlists => PagesModel {
                playlists: PlaylistPaneModel { songs, ..self.playlists },
                ..self
            },
            Tab::Artists => PagesModel {
                artists: ArtistPaneModel { songs, ..self.artists },
                ..self
            },
            Tab::Ranks => PagesModel { ranks: RankPaneModel { songs, ..self.ranks }, ..self },
            Tab::Cloud => PagesModel { cloud: CloudPaneModel { songs, ..self.cloud }, ..self },
            _ => self,
        }
    }

    /// How many entries the list of a page has. There are always three services.
    pub open spec fn entry_count(self, tab: Tab) -> Option<int> {
        match tab {
            Tab::Playlists => Some(self.playlists.list.entries.len() as int),
            Tab::Artists => Some(self.artists.list.entries.len() as int),
            Tab::Ranks => Some(self.ranks.list.entries.len() as int),
            Tab::Cloud => Some(self.cloud.list.entries.len() as int),
            Tab::Sources => Some(SourceKind::ALL@.len() as int),
            _ => None,
        }
    }

    /// The entry selected on a page.
    pub open spec fn entry_selected(self, tab: Tab) -> Option<usize> {
        match tab {
            Tab::Playlists => self.playlists.list.selected,
            Tab::Artists => self.artists.list.selected,
            Tab::Ranks => self.ranks.list.selected,
            Tab::Cloud => self.cloud.list.selected,
            Tab::Sources => self.sources_cursor,
            _ => None,
        }
    }

    /// The pages with another entry selected on one.
    pub open spec fn with_entry(self, tab: Tab, selected: Option<usize>) -> PagesModel {
        match tab {
            Tab::Playlists => PagesModel {
                playlists: PlaylistPaneModel {
                    list: EntryListModel { selected, ..self.playlists.list },
                    ..self.playlists
                },
                ..self
            },
            Tab::Artists => PagesModel {
                artists: ArtistPaneModel {
                    list: EntryListModel { selected, ..self.artists.list },
                    ..self.artists
                },
                ..self
            },
            Tab::Ranks => PagesModel {
                ranks: RankPaneModel {
                    list: EntryListModel { selected, ..self.ranks.list },
                    ..self.ranks
                },
                ..self
            },
            Tab::Cloud => PagesModel {
                cloud: CloudPaneModel {
                    list: EntryListModel { selected, ..self.cloud.list },
                    ..self.cloud
                },
                ..self
            },
            Tab::Sources => PagesModel { sources_cursor: selected, ..self },
            _ => self,
        }
    }

    /// The pages with an entry selected on one, or the last where there are fewer; but no service
    /// that there is not.
    pub open spec fn entry_chosen(self, tab: Tab, index: int) -> PagesModel {
        match self.entry_count(tab) {
            Some(count) => if tab == Tab::Sources && index >= count {
                self
            } else {
                self.with_entry(tab, panes::row_or_last(index, count))
            },
            None => self,
        }
    }

    /// The pages with a song selected on one.
    pub open spec fn song_chosen(self, tab: Tab, index: int) -> PagesModel {
        match self.songs(tab) {
            Some(list) => self.with_songs(
                tab,
                SongListModel {
                    selected: panes::row_or_last(index, list.songs.len() as int),
                    ..list
                },
            ),
            None => self,
        }
    }
}

/// The pages before anything was loaded.
pub open spec fn empty_pages() -> PagesModel {
    PagesModel {
        search: SearchModel {
            input: InputModel { text: Seq::empty(), cursor: 0 },
            editing: false,
            submitted: Seq::empty(),
            results: SongListModel::unloaded("按 / 输入关键词，Enter 开始搜索"@),
            page: 0,
        },
        playlists: PlaylistPaneModel {
            list: EntryListModel::unloaded(),
            songs: SongListModel::unloaded("选中歌单后按 Enter 载入歌曲"@),
            category: 0,
            open_playlist: None,
        },
        artists: ArtistPaneModel {
            list: EntryListModel::unloaded(),
            songs: SongListModel::unloaded("选中歌手后按 Enter 载入歌曲"@),
            kind: 0,
        },
        ranks: RankPaneModel {
            list: EntryListModel::unloaded(),
            songs: SongListModel::unloaded("选中榜单后按 Enter 载入歌曲"@),
        },
        cloud: CloudPaneModel {
            list: EntryListModel::unloaded(),
            songs: SongListModel::unloaded("选中云端歌单后按 Enter 载入歌曲"@),
            open_playlist: None,
        },
        sources_cursor: None,
        settings_cursor: 0,
        sort_descending: true,
    }
}

impl Pages {
    /// The pages before anything was loaded. Every page says what to do while it holds no song.
    pub fn new() -> (r: Pages)
        ensures
            r.deep_view() == empty_pages(),
    {
        proof {
            reveal(search_model);
            reveal(playlists_model);
            reveal(artists_model);
            reveal(ranks_model);
            reveal(cloud_model);
        }
        let mut search = SearchPane::default();
        search.results.set_empty_hint("按 / 输入关键词，Enter 开始搜索");
        let mut playlists = PlaylistPane::default();
        playlists.songs.set_empty_hint("选中歌单后按 Enter 载入歌曲");
        let mut artists = ArtistPane::default();
        artists.songs.set_empty_hint("选中歌手后按 Enter 载入歌曲");
        let mut ranks = RankPane::default();
        ranks.songs.set_empty_hint("选中榜单后按 Enter 载入歌曲");
        let mut cloud = CloudPane::default();
        cloud.songs.set_empty_hint("选中云端歌单后按 Enter 载入歌曲");
        Pages {
            search,
            playlists,
            artists,
            ranks,
            cloud,
            sources_cursor: ListState::default(),
            settings_cursor: 0,
            sort_descending: true,
        }
    }

    /// Selects an entry of a page.
    pub fn select_entry(&mut self, tab: Tab, index: usize)
        ensures
            final(self).deep_view() == old(self).deep_view().entry_chosen(tab, index as int),
    {
        proof {
            reveal(playlists_model);
            reveal(artists_model);
            reveal(ranks_model);
            reveal(cloud_model);
        }
        match tab {
            Tab::Playlists => self.playlists.list.select(index),
            Tab::Artists => self.artists.list.select(index),
            Tab::Ranks => self.ranks.list.select(index),
            Tab::Cloud => self.cloud.list.select(index),
            Tab::Sources => {
                if index < SourceKind::ALL.len() {
                    self.sources_cursor.select(Some(index));
                }
            },
            Tab::Search | Tab::Home | Tab::Queue | Tab::Visualizer | Tab::Settings => {},
        }
    }

    /// The songs of a page.
    pub fn songs(&self, tab: Tab) -> (r: Option<&SongList>)
        ensures
            match r {
                Some(list) => self.deep_view().songs(tab) == Some(list.deep_view()),
                None => self.deep_view().songs(tab) is None,
            },
    {
        proof {
            reveal(search_model);
            reveal(playlists_model);
            reveal(artists_model);
            reveal(ranks_model);
            reveal(cloud_model);
        }
        match tab {
            Tab::Search => Some(&self.search.results),
            Tab::Playlists => Some(&self.playlists.songs),
            Tab::Artists => Some(&self.artists.songs),
            Tab::Ranks => Some(&self.ranks.songs),
            Tab::Cloud => Some(&self.cloud.songs),
            Tab::Home | Tab::Queue | Tab::Visualizer | Tab::Sources | Tab::Settings => None,
        }
    }

    /// The songs of a page, to be changed; nothing else changes with them.
    pub fn songs_mut(&mut self, tab: Tab) -> (r: Option<&mut SongList>)
        ensures
            match r {
                Some(list) => old(self).deep_view().songs(tab) == Some(list.deep_view())
                    && final(self).deep_view() == old(self).deep_view().with_songs(
                    tab,
                    final(list).deep_view(),
                ),
                None => old(self).deep_view().songs(tab) is None && *final(self) == *old(self),
            },
    {
        proof {
            reveal(search_model);
            reveal(playlists_model);
            reveal(artists_model);
            reveal(ranks_model);
            reveal(cloud_model);
        }
        match tab {
            Tab::Search => Some(&mut self.search.results),
            Tab::Playlists => Some(&mut self.playlists.songs),
            Tab::Artists => Some(&mut self.artists.songs),
            Tab::Ranks => Some(&mut self.ranks.songs),
            Tab::Cloud => Some(&mut self.cloud.songs),
            Tab::Home | Tab::Queue | Tab::Visualizer | Tab::Sources | Tab::Settings => None,
        }
    }
}

// ---------------------------------------------------------------------------
// The whole
// ---------------------------------------------------------------------------
/// The state at the start, with these settings.
pub open spec fn initial(config: ConfigModel) -> StateModel {
    StateModel {
        config,
        screen: ScreenModel {
            tab: Tab::Home,
            focus: Focus::Primary,
            sidebar_visible: true,
            help: HelpModel { open: false, offset: 0, viewport: 0 },
            show_lyric_panel: true,
            lyric_visible: false,
            hover: None,
            hit_zones: Seq::empty(),
            last_click: None,
            last_click_ms: 0,
        },
        pages: empty_pages(),
        player: PlayerModel {
            queue: QueueModel { items: Seq::empty(), cursor: None, mode: config.playback_mode },
            queue_cursor: None,
            current: None,
            current_is_trial: false,
            playback: PlaybackState::Stopped,
            position_ms: 0,
            duration_ms: 0,
            lyric: panes::empty_lyric_pane(None),
            cover: CoverModel { hash: None, loaded: false, build: None },
            resume: None,
        },
        account: AccountModel {
            logged_in: config.logged_in(),
            connection: Connection::Unknown,
            login: None,
            sync_target: None,
            vip_label: None,
            vip_claimed_day: None,
            vip_claiming: false,
            last_qr_key_ms: None,
            qr_held: false,
            user_info: None,
            user_info_load: panes::idle(),
        },
        dialogs: DialogsModel {
            pending_confirm: None,
            login_picker: None,
            quality_picker: None,
            prompt: None,
            context_menu: None,
        },
        status: StatusModel {
            message: "按 / 搜索，或按 2-5 浏览歌单/歌手/排行榜/云端"@,
            level: StatusLevel::Info,
            busy: None,
            download_progress: None,
            cache_bytes: 0,
            ticks: 0,
            should_quit: false,
            force_quit: false,
        },
    }
}

impl ScreenModel {
    /// The last click was at this place, shortly before.
    pub open spec fn clicked_before(
        self,
        target: HitTarget,
        index: Option<usize>,
        now_ms: u64,
    ) -> bool {
        self.last_click == Some((target, index)) && now_ms - self.last_click_ms < DOUBLE_CLICK_MS
    }
}

impl StatusModel {
    /// The same with another message.
    pub open spec fn told(self, level: StatusLevel, message: Seq<char>) -> StatusModel {
        StatusModel { message, level, ..self }
    }
}

impl StateModel {
    /// Every selected song is one of its list, and every cursor stands in its line.
    pub open spec fn wf(self) -> bool {
        &&& self.player.wf()
        &&& self.pages.wf()
        &&& self.dialogs.prompt is Some ==> self.dialogs.prompt->0.buffer.wf()
    }

    /// The songs of the page that is shown.
    pub open spec fn songs(self) -> Option<SongListModel> {
        self.pages.songs(self.screen.tab)
    }

    /// The state with a message in the status line.
    pub open spec fn told(self, level: StatusLevel, message: Seq<char>) -> StateModel {
        StateModel { status: self.status.told(level, message), ..self }
    }

    /// The song list that the keys act on.
    pub open spec fn focused_songs(self) -> Option<SongListModel> {
        if self.screen.focus == Focus::Secondary || (self.screen.focus == Focus::Primary
            && self.screen.tab == Tab::Search) {
            self.songs()
        } else {
            None
        }
    }

    /// The song that what is done to one song is done to: the one selected in the queue where the
    /// keys act on it; else the one selected on the page; on the page of the queue the one whose turn
    /// it is; else the one that is playing.
    pub open spec fn selected_song(self) -> Option<SongModel> {
        if self.screen.focus == Focus::Queue && self.player.queue_choice() is Some {
            self.player.queue_choice()
        } else if self.songs() is Some && self.songs()->0.chosen() is Some {
            self.songs()->0.chosen()
        } else if self.screen.tab == Tab::Queue && self.player.queue.playing() is Some {
            self.player.queue.playing()
        } else {
            self.player.current
        }
    }

    /// The panes that can have the keys.
    pub open spec fn reachable(self) -> Seq<Focus> {
        let listed = if self.songs() is Some && self.songs()->0.songs.len() > 0 {
            seq![Focus::Sidebar, Focus::Primary, Focus::Secondary]
        } else {
            seq![Focus::Sidebar, Focus::Primary]
        };
        if self.player.queue.items.len() > 0 {
            listed.push(Focus::Queue)
        } else {
            listed
        }
    }

    /// The state with another pane having the keys. Letters go into the search line only while it
    /// has them.
    pub open spec fn focusing(self, focus: Focus) -> StateModel {
        StateModel {
            screen: ScreenModel { focus, ..self.screen },
            pages: if focus != Focus::Primary || self.screen.tab != Tab::Search {
                self.pages.not_editing()
            } else {
                self.pages
            },
            ..self
        }
    }

    /// Letters go into a line of text.
    pub open spec fn editing(self) -> bool {
        self.pages.search.editing || self.dialogs.prompt is Some
    }
}

impl PagesModel {
    /// The pages with no letters going into the search line.
    pub open spec fn not_editing(self) -> PagesModel {
        PagesModel { search: SearchModel { editing: false, ..self.search }, ..self }
    }
}

impl PlayerModel {
    /// The song whose turn it is is one of the queue, and the lyric stands in order of time.
    pub open spec fn wf(self) -> bool {
        self.queue.wf() && model::by_time(self.lyric.lines)
    }

    /// The song selected in the queue.
    pub open spec fn queue_choice(self) -> Option<SongModel> {
        match self.queue_cursor {
            Some(index) if index < self.queue.items.len() => Some(self.queue.items[index as int]),
            _ => None,
        }
    }
}

/// The place of a pane among others; the first where it is none of them.
pub open spec fn focus_place(panes: Seq<Focus>, focus: Focus, from: int) -> int
    decreases panes.len() - from,
{
    if from < 0 || from >= panes.len() {
        0
    } else if panes[from] == focus {
        from
    } else {
        focus_place(panes, focus, from + 1)
    }
}

/// The pane after or before another, going round.
pub open spec fn next_focus(panes: Seq<Focus>, focus: Focus, forward: bool) -> Focus {
    let place = focus_place(panes, focus, 0);
    let len = panes.len() as int;
    if forward {
        panes[if place + 1 == len {
            0
        } else {
            place + 1
        }]
    } else {
        panes[if place == 0 {
            len - 1
        } else {
            place - 1
        }]
    }
}

/// Two clicks at one place less than this many milliseconds apart are one double click.
pub const DOUBLE_CLICK_MS: u64 = 500;

impl AppState {
    /// The state at the start.
    pub fn new(config: Config) -> (r: AppState)
        ensures
            r.deep_view() == initial(config.deep_view()),
            r.deep_view().wf(),
    {
        proof {
            reveal(config_model);
            reveal(screen_model);
            reveal(pages_model);
            reveal(player_model);
            reveal(account_model);
            reveal(dialogs_model);
            reveal(status_model);
        }
        let logged_in = config.is_logged_in();
        let playback_mode = config.playback_mode;
        AppState {
            config,
            screen: Screen {
                tab: Tab::default(),
                focus: Focus::default(),
                sidebar_visible: true,
                help: HelpPane::default(),
                show_lyric_panel: true,
                lyric_visible: false,
                hover: None,
                hit_zones: Vec::new(),
                last_click: None,
                last_click_ms: 0,
            },
            pages: Pages::new(),
            player: Player {
                queue: PlayQueue::new(playback_mode),
                queue_cursor: ListState::default(),
                current: None,
                current_is_trial: false,
                playback: PlaybackState::Stopped,
                position_ms: 0,
                duration_ms: 0,
                lyric: LyricPane::for_song(None),
                cover: CoverArt::default(),
                resume: None,
            },
            account: Account {
                logged_in,
                connection: Connection::default(),
                login: None,
                sync_target: None,
                vip_label: None,
                vip_claimed_day: None,
                vip_claiming: false,
                last_qr_key_ms: None,
                qr_held: false,
                user_info: None,
                user_info_load: LoadState::default(),
            },
            dialogs: Dialogs {
                pending_confirm: None,
                login_picker: None,
                quality_picker: None,
                prompt: None,
                context_menu: None,
            },
            status: Status {
                message: "按 / 搜索，或按 2-5 浏览歌单/歌手/排行榜/云端".to_owned(),
                level: StatusLevel::Info,
                busy: None,
                download_progress: None,
                cache_bytes: 0,
                ticks: 0,
                should_quit: false,
                force_quit: false,
            },
        }
    }

    /// Forgets what was drawn the last time.
    pub fn begin_frame(&mut self)
        ensures
            final(self).deep_view() == (StateModel {
                screen: ScreenModel {
                    hit_zones: Seq::empty(),
                    lyric_visible: false,
                    ..old(self).deep_view().screen
                },
                ..old(self).deep_view()
            }),
    {
        proof {
            reveal(screen_model);
        }
        self.screen.hit_zones.clear();
        self.screen.lyric_visible = false;
    }

    /// Takes in a part of the screen that reacts to the mouse.
    pub fn add_hit_zone(&mut self, rect: Rect, target: HitTarget, first_index: usize, len: usize)
        ensures
            final(self).deep_view() == (StateModel {
                screen: ScreenModel {
                    hit_zones: old(self).deep_view().screen.hit_zones.push(
                        HitZone { rect, target, first_index, len },
                    ),
                    ..old(self).deep_view().screen
                },
                ..old(self).deep_view()
            }),
    {
        proof {
            reveal(screen_model);
        }
        self.screen.hit_zones.push(HitZone { rect, target, first_index, len });
    }

    /// The part of the screen at a place: the one taken in last, so that small parts can lie in large
    /// ones.
    pub fn hit_test(&self, column: u16, row: u16) -> (r: Option<HitZone>)
        ensures
            r == zone_at(self.deep_view().screen.hit_zones, column, row),
    {
        proof {
            reveal(screen_model);
        }
        let mut i: usize = self.screen.hit_zones.len();
        proof {
            assert(self.screen.hit_zones@.take(i as int) =~= self.screen.hit_zones@);
        }
        while i > 0
            invariant
                i <= self.screen.hit_zones@.len(),
                self.screen.hit_zones@ == self.deep_view().screen.hit_zones,
                zone_at(self.screen.hit_zones@, column, row) == zone_at(
                    self.screen.hit_zones@.take(i as int),
                    column,
                    row,
                ),
            decreases i,
        {
            let ghost front = self.screen.hit_zones@.take(i as int);
            i -= 1;
            proof {
                assert(front.last() == self.screen.hit_zones@[i as int]);
                assert(front.drop_last() =~= self.screen.hit_zones@.take(i as int));
            }
            let zone = self.screen.hit_zones[i];
            if zone.contains(column, row) {
                return Some(zone);
            }
        }
        None
    }

    /// Remembers a click.
    pub fn set_last_click(&mut self, target: HitTarget, index: Option<usize>, now_ms: u64)
        ensures
            final(self).deep_view() == (StateModel {
                screen: ScreenModel {
                    last_click: Some((target, index)),
                    last_click_ms: now_ms,
                    ..old(self).deep_view().screen
                },
                ..old(self).deep_view()
            }),
    {
        proof {
            reveal(screen_model);
        }
        self.screen.last_click = Some((target, index));
        self.screen.last_click_ms = now_ms;
    }

    /// Whether a click is the second of a double click: at the same place, shortly after the first.
    pub fn is_double_click(&self, target: HitTarget, index: Option<usize>, now_ms: u64) -> (r: bool)
        ensures
            r == self.deep_view().screen.clicked_before(target, index, now_ms),
    {
        proof {
            reveal(screen_model);
        }
        match self.screen.last_click {
            Some(last) => last.0 == target && same_row(last.1, index) && now_ms.saturating_sub(
                self.screen.last_click_ms,
            ) < DOUBLE_CLICK_MS,
            None => false,
        }
    }

    /// Selects an entry of the page that is shown.
    pub fn select_entry_index(&mut self, index: usize)
        ensures
            final(self).deep_view() == (StateModel {
                pages: old(self).deep_view().pages.entry_chosen(
                    old(self).deep_view().screen.tab,
                    index as int,
                ),
                ..old(self).deep_view()
            }),
    {
        proof {
            reveal(screen_model);
            reveal(pages_model);
        }
        self.pages.select_entry(self.screen.tab, index);
    }

    /// The songs of the page that is shown.
    pub fn songs(&self) -> (r: Option<&SongList>)
        ensures
            match r {
                Some(list) => self.deep_view().songs() == Some(list.deep_view()),
                None => self.deep_view().songs() is None,
            },
    {
        proof {
            reveal(screen_model);
            reveal(pages_model);
        }
        self.pages.songs(self.screen.tab)
    }

    /// The songs of the page that is shown, to be changed; nothing else changes with them.
    pub fn songs_mut(&mut self) -> (r: Option<&mut SongList>)
        ensures
            match r {
                Some(list) => old(self).deep_view().songs() == Some(list.deep_view())
                    && final(self).deep_view() == (StateModel {
                    pages: old(self).deep_view().pages.with_songs(
                        old(self).deep_view().screen.tab,
                        final(list).deep_view(),
                    ),
                    ..old(self).deep_view()
                }),
                None => old(self).deep_view().songs() is None && *final(self) == *old(self),
            },
    {
        proof {
            reveal(screen_model);
            reveal(pages_model);
        }
        self.pages.songs_mut(self.screen.tab)
    }

    /// Selects a song of the page that is shown.
    pub fn select_song_index(&mut self, index: usize)
        ensures
            final(self).deep_view() == (StateModel {
                pages: old(self).deep_view().pages.song_chosen(
                    old(self).deep_view().screen.tab,
                    index as int,
                ),
                ..old(self).deep_view()
            }),
    {
        proof {
            reveal(screen_model);
            reveal(pages_model);
        }
        if let Some(list) = self.songs_mut() {
            list.select(index);
        }
    }

    /// Shows a message in the status line.
    pub fn notify(&mut self, level: StatusLevel, message: String)
        ensures
            final(self).deep_view() == old(self).deep_view().told(level, message@),
    {
        proof {
            reveal(status_model);
        }
        self.status.message = message;
        self.status.level = level;
    }

    /// Tells something.
    pub fn info(&mut self, message: String)
        ensures
            final(self).deep_view() == old(self).deep_view().told(StatusLevel::Info, message@),
    {
        self.notify(StatusLevel::Info, message);
    }

    /// Tells that something has succeeded.
    pub fn success(&mut self, message: String)
        ensures
            final(self).deep_view() == old(self).deep_view().told(StatusLevel::Success, message@),
    {
        self.notify(StatusLevel::Success, message);
    }

    /// Warns of something.
    pub fn warn(&mut self, message: String)
        ensures
            final(self).deep_view() == old(self).deep_view().told(StatusLevel::Warning, message@),
    {
        self.notify(StatusLevel::Warning, message);
    }

    /// Tells that something has failed.
    pub fn error(&mut self, message: String)
        ensures
            final(self).deep_view() == old(self).deep_view().told(StatusLevel::Error, message@),
    {
        self.notify(StatusLevel::Error, message);
    }

    /// Whether letters go into a line of text.
    pub fn is_editing(&self) -> (r: bool)
        ensures
            r == self.deep_view().editing(),
    {
        proof {
            reveal(search_model);
            reveal(pages_model);
            reveal(dialogs_model);
        }
        self.pages.search.editing || self.dialogs.prompt.is_some()
    }

    /// The song that what is done to one song is done to.
    pub fn selected_song(&self) -> (r: Option<Song>)
        ensures
            r.deep_view() == self.deep_view().selected_song(),
    {
        proof {
            reveal(screen_model);
            reveal(player_model);
        }
        if self.screen.focus == Focus::Queue {
            if let Some(index) = self.player.queue_cursor.selected() {
                let items = self.player.queue.items();
                if index < items.len() {
                    return Some(items[index].clone());
                }
            }
        }
        if let Some(list) = self.songs() {
            if let Some(song) = list.selected() {
                return Some(song.clone());
            }
        }
        if self.screen.tab == Tab::Queue {
            if let Some(song) = self.player.queue.current() {
                return Some(song.clone());
            }
        }
        match &self.player.current {
            Some(song) => Some(song.clone()),
            None => None,
        }
    }

    /// The song list that the keys act on.
    pub fn focused_songs(&self) -> (r: Option<&SongList>)
        ensures
            match r {
                Some(list) => self.deep_view().focused_songs() == Some(list.deep_view()),
                None => self.deep_view().focused_songs() is None,
            },
    {
        proof {
            reveal(screen_model);
        }
        if self.screen.focus == Focus::Secondary || (self.screen.focus == Focus::Primary && self.screen.tab
            == Tab::Search) {
            self.songs()
        } else {
            None
        }
    }

    /// The panes that can have the keys.
    fn candidates(&self) -> (r: Vec<Focus>)
        ensures
            r@ == self.deep_view().reachable(),
    {
        proof {
            reveal(player_model);
        }
        let mut candidates: Vec<Focus> = vec![Focus::Sidebar, Focus::Primary];
        if let Some(list) = self.songs() {
            if !list.is_empty() {
                candidates.push(Focus::Secondary);
            }
        }
        if !self.player.queue.is_empty() {
            candidates.push(Focus::Queue);
        }
        proof {
            assert(candidates@ =~= self.deep_view().reachable());
        }
        candidates
    }

    /// Hands the keys to a pane.
    pub fn set_focus(&mut self, focus: Focus)
        ensures
            final(self).deep_view() == old(self).deep_view().focusing(focus),
    {
        proof {
            reveal(search_model);
            reveal(screen_model);
            reveal(pages_model);
        }
        self.screen.focus = focus;
        if focus != Focus::Primary || self.screen.tab != Tab::Search {
            self.pages.search.editing = false;
        }
    }

    /// Hands the keys to the next pane, or to the one before.
    pub fn cycle_focus(&mut self, forward: bool)
        ensures
            final(self).deep_view() == old(self).deep_view().focusing(
                next_focus(old(self).deep_view().reachable(), old(self).deep_view().screen.focus, forward),
            ),
    {
        proof {
            reveal(screen_model);
        }
        let candidates = self.candidates();
        let place: usize = place_of(&candidates, self.screen.focus);
        let len: usize = candidates.len();
        let next: usize = if forward {
            if place + 1 == len {
                0
            } else {
                place + 1
            }
        } else if place == 0 {
            len - 1
        } else {
            place - 1
        };
        self.set_focus(candidates[next]);
    }
}

/// Whether two rows are the same.
fn same_row(a: Option<usize>, b: Option<usize>) -> (r: bool)
    ensures
        r == (a == b),
{
    match (a, b) {
        (Some(x), Some(y)) => x == y,
        (None, None) => true,
        _ => false,
    }
}

/// The place of a pane among others; the first where it is none of them.
fn place_of(panes: &Vec<Focus>, focus: Focus) -> (r: usize)
    requires
        panes@.len() > 0,
    ensures
        r == focus_place(panes@, focus, 0),
        r < panes@.len(),
{
    let mut i: usize = 0;
    while i < panes.len()
        invariant
            i <= panes@.len(),
            panes@.len() > 0,
            focus_place(panes@, focus, 0) == focus_place(panes@, focus, i as int),
        decreases panes@.len() - i,
    {
        if panes[i] == focus {
            return i;
        }
        i += 1;
    }
    0
}

/// The last of some parts of the screen that holds a place.
pub open spec fn zone_at(zones: Seq<HitZone>, column: u16, row: u16) -> Option<HitZone>
    decreases zones.len(),
{
    if zones.len() == 0 {
        None
    } else if zones.last().rect.covers(column, row) {
        Some(zones.last())
    } else {
        zone_at(zones.drop_last(), column, row)
    }
}

/// Handing the keys on and back again leaves them where they were, as long as the pane that has them
/// is shown.
pub proof fn handing_the_keys_back(state: StateModel, forward: bool)
    requires
        exists|i: int| 0 <= i < state.reachable().len() && state.reachable()[i] == state.screen.focus,
    ensures
        next_focus(
            state.reachable(),
            next_focus(state.reachable(), state.screen.focus, forward),
            !forward,
        ) == state.screen.focus,
{
    reveal_with_fuel(focus_place, 5);
    assert(state.reachable().len() <= 4);
}

/// Letters are never swallowed by a search line that does not have the keys.
pub proof fn the_search_line_gives_letters_back(state: StateModel, focus: Focus)
    ensures
        state.focusing(focus).pages.search.editing ==> focus == Focus::Primary && state.screen.tab
            == Tab::Search,
{
}

} // verus!
