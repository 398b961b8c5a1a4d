//! What the player wants done outside, and what comes back of it.
//!
//! The decisions are made in `update`. They leave orders behind; whoever carries an order out hands
//! the outcome back.
use vstd::prelude::*;
use crate::cloud::{QrCheck, QrModel, QrStatus, UserInfo, UserModel};
use crate::error::{self, AppError, ErrorModel};
use crate::model::{
    Artist, ArtistModel, Lyric, LyricLineModel, Playlist, PlaylistModel, RankBoard, RankBoardModel,
    Song, SongModel,
};
use crate::source::SourceKind;
use crate::text;

verus! {

/// On which page the songs of a playlist were asked for.
#[derive(Debug, Clone, Copy, PartialEq, Eq, Structural)]
pub enum PlaylistSource {
    /// The page of public playlists.
    Plaza,
    /// The page of the user's own playlists.
    Cloud,
}

/// What is being changed in the user's playlists.
#[derive(Debug)]
pub enum CloudTask {
    /// One song is put into a playlist.
    AddSong { label: String, name: String },
    /// The queue is put into a playlist.
    SyncQueue { name: String },
    /// One song is taken out of a playlist.
    RemoveSong { label: String, name: String },
    /// A playlist is deleted.
    Delete { name: String },
    /// A playlist is made.
    Create { name: String },
}

pub enum CloudTaskModel {
    AddSong { label: Seq<char>, name: Seq<char> },
    SyncQueue { name: Seq<char> },
    RemoveSong { label: Seq<char>, name: Seq<char> },
    Delete { name: Seq<char> },
    Create { name: Seq<char> },
}

impl DeepView for CloudTask {
    type V = CloudTaskModel;

    open spec fn deep_view(&self) -> CloudTaskModel {
        match self {
            CloudTask::AddSong { label, name } => CloudTaskModel::AddSong {
                label: label@,
                name: name@,
            },
            CloudTask::SyncQueue { name } => CloudTaskModel::SyncQueue {
                name: name@,
            },
            CloudTask::RemoveSong { label, name } => CloudTaskModel::RemoveSong {
                label: label@,
                name: name@,
            },
            CloudTask::Delete { name } => CloudTaskModel::Delete {
                name: name@,
            },
            CloudTask::Create { name } => CloudTaskModel::Create {
                name: name@,
            },
        }
    }
}

/// What is to be done outside: by the sound, over the network, on the disk.
#[derive(Debug)]
pub enum Order {
    /// Pause, or go on.
    TogglePause,
    StopSound,
    /// Go to this place, in milliseconds.
    SeekTo(u64),
    /// Move by so many milliseconds.
    SeekBy(i64),
    /// Go to the part of the song that a click on the progress bar means: so many of so many columns.
    SeekBar { column: u16, width: u16, duration_ms: u64 },
    /// A song is on its way.
    MarkLoading,
    /// Play a file.
    Play { path: String, start_at_ms: u64, duration_ms: u64 },
    VolumeUp,
    VolumeDown,
    ToggleMute,
    /// Look for the song among the kept ones.
    Resolve { song: Song, key: String, start_at_ms: u64 },
    /// Ask where the song can be had.
    FetchStream { song: Song, quality: String, start_at_ms: u64 },
    /// Bring the song and keep it under a name.
    Download { song: Song, url: String, key: String, extension: String, start_at_ms: u64 },
    FetchLyric { song: Song },
    Search { keyword: String, page: u32, page_size: u32, append: bool },
    LoadPlaza { category: i64, page_size: u32 },
    LoadArtists { region: i64 },
    LoadRanks,
    LoadCloud,
    LoadPlaylist { playlist: Playlist, source: PlaylistSource },
    LoadArtistSongs { artist: Artist },
    LoadRankSongs { board: RankBoard },
    /// Tell what time it is, so that a QR code can be asked for.
    AskQr,
    /// Ask for a QR code.
    FetchQr,
    /// Ask what became of a QR code.
    CheckQr { key: String },
    /// Save the settings after a login, and hand back whether that succeeded.
    SaveLogin { userid: Option<String> },
    FetchVip,
    FetchUser,
    FetchFingerprint,
    /// Put songs into a playlist, which has this number.
    AddTracks { list_id: i64, songs: Vec<Song>, playlist: Playlist, task: CloudTask },
    /// Take a song out of a playlist, which has this number.
    RemoveTrack { list_id: i64, song: Song, playlist: Playlist, task: CloudTask },
    DeletePlaylist { list_id: i64, task: CloudTask },
    CreatePlaylist { name: String, task: CloudTask },
    SaveConfig,
    /// Send another cookie from now on.
    SetCookie(Option<String>),
    /// Speak to another server from now on, and hand back whether that can be.
    RebuildClient { kind: SourceKind },
    ClearCache,
    MeasureCache,
    EnforceCacheLimit,
    RemoveFile { path: String },
    /// Show the desktop what is playing.
    ShowTrack,
    /// Tell which day it is, so that the day's membership can be claimed; the user may have asked for
    /// it.
    AskDay { manual: bool },
    /// Claim the membership of a day.
    ClaimVip { day: String },
    /// Save a song in a directory, under this name with the ending of its kind.
    SaveSong { song: Song, quality: String, dir: Option<String>, name: String },
    /// Tell which devices there are, so that the next can be chosen, or the one before.
    ListDevices { forward: bool },
    /// Let the sound out of this device; `None` for the one the system chooses.
    OpenDevice { device: Option<String> },
}

pub enum OrderModel {
    TogglePause,
    StopSound,
    SeekTo(u64),
    SeekBy(i64),
    SeekBar { column: u16, width: u16, duration_ms: u64 },
    MarkLoading,
    Play { path: Seq<char>, start_at_ms: u64, duration_ms: u64 },
    VolumeUp,
    VolumeDown,
    ToggleMute,
    Resolve { song: SongModel, key: Seq<char>, start_at_ms: u64 },
    FetchStream { song: SongModel, quality: Seq<char>, start_at_ms: u64 },
    Download { song: SongModel, url: Seq<char>, key: Seq<char>, extension: Seq<char>, start_at_ms: u64 },
    FetchLyric { song: SongModel },
    Search { keyword: Seq<char>, page: u32, page_size: u32, append: bool },
    LoadPlaza { category: i64, page_size: u32 },
    LoadArtists { region: i64 },
    LoadRanks,
    LoadCloud,
    LoadPlaylist { playlist: PlaylistModel, source: PlaylistSource },
    LoadArtistSongs { artist: ArtistModel },
    LoadRankSongs { board: RankBoardModel },
    AskQr,
    FetchQr,
    CheckQr { key: Seq<char> },
    SaveLogin { userid: Option<Seq<char>> },
    FetchVip,
    FetchUser,
    FetchFingerprint,
    AddTracks { list_id: i64, songs: Seq<SongModel>, playlist: PlaylistModel, task: CloudTaskModel },
    RemoveTrack { list_id: i64, song: SongModel, playlist: PlaylistModel, task: CloudTaskModel },
    DeletePlaylist { list_id: i64, task: CloudTaskModel },
    CreatePlaylist { name: Seq<char>, task: CloudTaskModel },
    SaveConfig,
    SetCookie(Option<Seq<char>>),
    RebuildClient { kind: SourceKind },
    ClearCache,
    MeasureCache,
    EnforceCacheLimit,
    RemoveFile { path: Seq<char> },
    ShowTrack,
    AskDay { manual: bool },
    ClaimVip { day: Seq<char> },
    SaveSong { song: SongModel, quality: Seq<char>, dir: Option<Seq<char>>, name: Seq<char> },
    ListDevices { forward: bool },
    OpenDevice { device: Option<Seq<char>> },
}

impl DeepView for Order {
    type V = OrderModel;

    open spec fn deep_view(&self) -> OrderModel {
        match self {
            Order::TogglePause => OrderModel::TogglePause,
            Order::StopSound => OrderModel::StopSound,
            Order::SeekTo(value) => OrderModel::SeekTo(*value),
            Order::SeekBy(value) => OrderModel::SeekBy(*value),
            Order::SeekBar { column, width, duration_ms } => OrderModel::SeekBar {
                column: *column,
                width: *width,
                duration_ms: *duration_ms,
            },
            Order::MarkLoading => OrderModel::MarkLoading,
            Order::Play { path, start_at_ms, duration_ms } => OrderModel::Play {
                path: path@,
                start_at_ms: *start_at_ms,
                duration_ms: *duration_ms,
            },
            Order::VolumeUp => OrderModel::VolumeUp,
            Order::VolumeDown => OrderModel::VolumeDown,
            Order::ToggleMute => OrderModel::ToggleMute,
            Order::Resolve { song, key, start_at_ms } => OrderModel::Resolve {
                song: song.deep_view(),
                key: key@,
                start_at_ms: *start_at_ms,
            },
            Order::FetchStream { song, quality, start_at_ms } => OrderModel::FetchStream {
                song: song.deep_view(),
                quality: quality@,
                start_at_ms: *start_at_ms,
            },
            Order::Download { song, url, key, extension, start_at_ms } => OrderModel::Download {
                song: song.deep_view(),
                url: url@,
                key: key@,
                extension: extension@,
                start_at_ms: *start_at_ms,
            },
            Order::FetchLyric { song } => OrderModel::FetchLyric {
                song: song.deep_view(),
            },
            Order::Search { keyword, page, page_size, append } => OrderModel::Search {
                keyword: keyword@,
                page: *page,
                page_size: *page_size,
                append: *append,
            },
            Order::LoadPlaza { category, page_size } => OrderModel::LoadPlaza {
                category: *category,
                page_size: *page_size,
            },
            Order::LoadArtists { region } => OrderModel::LoadArtists {
                region: *region,
            },
            Order::LoadRanks => OrderModel::LoadRanks,
            Order::LoadCloud => OrderModel::LoadCloud,
            Order::LoadPlaylist { playlist, source } => OrderModel::LoadPlaylist {
                playlist: playlist.deep_view(),
                source: *source,
            },
            Order::LoadArtistSongs { artist } => OrderModel::LoadArtistSongs {
                artist: artist.deep_view(),
            },
            Order::LoadRankSongs { board } => OrderModel::LoadRankSongs {
                board: board.deep_view(),
            },
            Order::AskQr => OrderModel::AskQr,
            Order::FetchQr => OrderModel::FetchQr,
            Order::CheckQr { key } => OrderModel::CheckQr {
                key: key@,
            },
            Order::SaveLogin { userid } => OrderModel::SaveLogin {
                userid: userid.deep_view(),
            },
            Order::FetchVip => OrderModel::FetchVip,
            Order::FetchUser => OrderModel::FetchUser,
            Order::FetchFingerprint => OrderModel::FetchFingerprint,
            Order::AddTracks { list_id, songs, playlist, task } => OrderModel::AddTracks {
                list_id: *list_id,
                songs: songs.deep_view(),
                playlist: playlist.deep_view(),
                task: task.deep_view(),
            },
            Order::RemoveTrack { list_id, song, playlist, task } => OrderModel::RemoveTrack {
                list_id: *list_id,
                song: song.deep_view(),
                playlist: playlist.deep_view(),
                task: task.deep_view(),
            },
            Order::DeletePlaylist { list_id, task } => OrderModel::DeletePlaylist {
                list_id: *list_id,
                task: task.deep_view(),
            },
            Order::CreatePlaylist { name, task } => OrderModel::CreatePlaylist {
                name: name@,
                task: task.deep_view(),
            },
            Order::SaveConfig => OrderModel::SaveConfig,
            Order::SetCookie(value) => OrderModel::SetCookie(value.deep_view()),
            Order::RebuildClient { kind } => OrderModel::RebuildClient {
                kind: *kind,
            },
            Order::ClearCache => OrderModel::ClearCache,
            Order::MeasureCache => OrderModel::MeasureCache,
            Order::EnforceCacheLimit => OrderModel::EnforceCacheLimit,
            Order::RemoveFile { path } => OrderModel::RemoveFile {
                path: path@,
            },
            Order::ShowTrack => OrderModel::ShowTrack,
            Order::AskDay { manual } => OrderModel::AskDay {
                manual: *manual,
            },
            Order::ClaimVip { day } => OrderModel::ClaimVip {
                day: day@,
            },
            Order::SaveSong { song, quality, dir, name } => OrderModel::SaveSong {
                song: song.deep_view(),
                quality: quality@,
                dir: dir.deep_view(),
                name: name@,
            },
            Order::ListDevices { forward } => OrderModel::ListDevices {
                forward: *forward,
            },
            Order::OpenDevice { device } => OrderModel::OpenDevice {
                device: device.deep_view(),
            },
        }
    }
}

/// What came of an order.
#[derive(Debug)]
pub enum Loaded {
    Search { keyword: String, songs: Vec<Song>, append: bool },
    Playlists { title: String, items: Vec<Playlist> },
    PlaylistTracks { playlist: Playlist, songs: Vec<Song>, source: PlaylistSource },
    Artists(Vec<Artist>),
    ArtistSongs { artist: Artist, songs: Vec<Song> },
    RankBoards(Vec<RankBoard>),
    RankTracks { board: RankBoard, songs: Vec<Song> },
    CloudPlaylists(Vec<Playlist>),
    Lyric { hash: String, lyric: Lyric },
    /// The address of a song, and whether only a part of it stands there.
    StreamReady { song: Song, url: String, start_at_ms: u64, is_trial: bool, reason: Option<String> },
    DownloadProgress { received: u64, total: Option<u64> },
    /// A song lies in a file.
    StreamCached { song: Song, path: String, start_at_ms: u64 },
    DeviceFingerprint(String),
    CacheUsage(u64),
    /// A QR code, as the lines that are shown.
    LoginQr { key: String, lines: Vec<String> },
    LoginStatus { message: String },
    LoginSucceeded { token: Option<String>, userid: Option<String>, cookie: Option<String> },
    LoginFailed { message: String },
    CoverReady { hash: String },
    VipStatus { label: String },
    UserInfo(UserInfo),
    /// The user's profile could not be had.
    UserInfoFailed { error: AppError },
    CloudNotice(String),
    CloudPlaylistChanged { playlist: Playlist },
    /// The membership of a day was claimed.
    VipClaimed { day: String },
    /// It could not be.
    VipClaimFailed { message: String },
    /// A song was saved.
    SongSaved { song: Song, path: String },
    Failed { context: String, error: AppError },
}

pub enum LoadedModel {
    Search { keyword: Seq<char>, songs: Seq<SongModel>, append: bool },
    Playlists { title: Seq<char>, items: Seq<PlaylistModel> },
    PlaylistTracks { playlist: PlaylistModel, songs: Seq<SongModel>, source: PlaylistSource },
    Artists(Seq<ArtistModel>),
    ArtistSongs { artist: ArtistModel, songs: Seq<SongModel> },
    RankBoards(Seq<RankBoardModel>),
    RankTracks { board: RankBoardModel, songs: Seq<SongModel> },
    CloudPlaylists(Seq<PlaylistModel>),
    Lyric { hash: Seq<char>, lyric: Seq<LyricLineModel> },
    StreamReady { song: SongModel, url: Seq<char>, start_at_ms: u64, is_trial: bool, reason: Option<Seq<char>> },
    DownloadProgress { received: u64, total: Option<u64> },
    StreamCached { song: SongModel, path: Seq<char>, start_at_ms: u64 },
    DeviceFingerprint(Seq<char>),
    CacheUsage(u64),
    LoginQr { key: Seq<char>, lines: Seq<Seq<char>> },
    LoginStatus { message: Seq<char> },
    LoginSucceeded { token: Option<Seq<char>>, userid: Option<Seq<char>>, cookie: Option<Seq<char>> },
    LoginFailed { message: Seq<char> },
    CoverReady { hash: Seq<char> },
    VipStatus { label: Seq<char> },
    UserInfo(UserModel),
    UserInfoFailed { error: ErrorModel },
    CloudNotice(Seq<char>),
    CloudPlaylistChanged { playlist: PlaylistModel },
    VipClaimed { day: Seq<char> },
    VipClaimFailed { message: Seq<char> },
    SongSaved { song: SongModel, path: Seq<char> },
    Failed { context: Seq<char>, error: ErrorModel },
}

impl DeepView for Loaded {
    type V = LoadedModel;

    open spec fn deep_view(&self) -> LoadedModel {
        match self {
            Loaded::Search { keyword, songs, append } => LoadedModel::Search {
                keyword: keyword@,
                songs: songs.deep_view(),
                append: *append,
            },
            Loaded::Playlists { title, items } => LoadedModel::Playlists {
                title: title@,
                items: items.deep_view(),
            },
            Loaded::PlaylistTracks { playlist, songs, source } => LoadedModel::PlaylistTracks {
                playlist: playlist.deep_view(),
                songs: songs.deep_view(),
                source: *source,
            },
            Loaded::Artists(value) => LoadedModel::Artists(value.deep_view()),
            Loaded::ArtistSongs { artist, songs } => LoadedModel::ArtistSongs {
                artist: artist.deep_view(),
                songs: songs.deep_view(),
            },
            Loaded::RankBoards(value) => LoadedModel::RankBoards(value.deep_view()),
            Loaded::RankTracks { board, songs } => LoadedModel::RankTracks {
                board: board.deep_view(),
                songs: songs.deep_view(),
            },
            Loaded::CloudPlaylists(value) => LoadedModel::CloudPlaylists(value.deep_view()),
            Loaded::Lyric { hash, lyric } => LoadedModel::Lyric {
                hash: hash@,
                lyric: lyric.deep_view(),
            },
            Loaded::StreamReady { song, url, start_at_ms, is_trial, reason } => LoadedModel::StreamReady {
                song: song.deep_view(),
                url: url@,
                start_at_ms: *start_at_ms,
                is_trial: *is_trial,
                reason: reason.deep_view(),
            },
            Loaded::DownloadProgress { received, total } => LoadedModel::DownloadProgress {
                received: *received,
                total: *total,
            },
            Loaded::StreamCached { song, path, start_at_ms } => LoadedModel::StreamCached {
                song: song.deep_view(),
                path: path@,
                start_at_ms: *start_at_ms,
            },
            Loaded::DeviceFingerprint(value) => LoadedModel::DeviceFingerprint(value@),
            Loaded::CacheUsage(value) => LoadedModel::CacheUsage(*value),
            Loaded::LoginQr { key, lines } => LoadedModel::LoginQr {
                key: key@,
                lines: text::views(lines@),
            },
            Loaded::LoginStatus { message } => LoadedModel::LoginStatus {
                message: message@,
            },
            Loaded::LoginSucceeded { token, userid, cookie } => LoadedModel::LoginSucceeded {
                token: token.deep_view(),
                userid: userid.deep_view(),
                cookie: cookie.deep_view(),
            },
            Loaded::LoginFailed { message } => LoadedModel::LoginFailed {
                message: message@,
            },
            Loaded::CoverReady { hash } => LoadedModel::CoverReady {
                hash: hash@,
            },
            Loaded::VipStatus { label } => LoadedModel::VipStatus {
                label: label@,
            },
            Loaded::UserInfo(value) => LoadedModel::UserInfo(value.deep_view()),
            Loaded::UserInfoFailed { error } => LoadedModel::UserInfoFailed {
                error: error.deep_view(),
            },
            Loaded::CloudNotice(value) => LoadedModel::CloudNotice(value@),
            Loaded::CloudPlaylistChanged { playlist } => LoadedModel::CloudPlaylistChanged {
                playlist: playlist.deep_view(),
            },
            Loaded::VipClaimed { day } => LoadedModel::VipClaimed {
                day: day@,
            },
            Loaded::VipClaimFailed { message } => LoadedModel::VipClaimFailed {
                message: message@,
            },
            Loaded::SongSaved { song, path } => LoadedModel::SongSaved {
                song: song.deep_view(),
                path: path@,
            },
            Loaded::Failed { context, error } => LoadedModel::Failed {
                context: context@,
                error: error.deep_view(),
            },
        }
    }
}

// ---------------------------------------------------------------------------
// Outcomes
// ---------------------------------------------------------------------------
impl OrderModel {
    /// What is said when an order could not be carried out; `None` where nothing is said.
    pub open spec fn failure(self) -> Option<Seq<char>> {
        match self {
            OrderModel::Search { keyword, append, .. } => Some(
                if append {
                    "加载「"@ + keyword + "」更多结果失败"@
                } else {
                    "搜索「"@ + keyword + "」失败"@
                },
            ),
            OrderModel::LoadPlaza { .. } => Some("载入歌单广场失败"@),
            OrderModel::LoadArtists { .. } => Some("载入歌手列表失败"@),
            OrderModel::LoadRanks => Some("载入排行榜失败"@),
            OrderModel::LoadCloud => Some("载入云端歌单失败"@),
            OrderModel::LoadPlaylist { playlist, .. } => Some(
                "载入歌单《"@ + playlist.name + "》失败"@,
            ),
            OrderModel::LoadArtistSongs { artist } => Some(
                "载入歌手 "@ + artist.name + " 的歌曲失败"@,
            ),
            OrderModel::LoadRankSongs { board } => Some("载入榜单 "@ + board.name + " 失败"@),
            OrderModel::FetchStream { song, .. } => Some(
                "获取《"@ + song.name + "》的播放地址失败"@,
            ),
            OrderModel::Download { song, .. } => Some("下载《"@ + song_label(song) + "》失败"@),
            OrderModel::SaveSong { song, .. } => Some("下载《"@ + song_label(song) + "》失败"@),
            OrderModel::FetchQr => Some("获取登录二维码失败"@),
            OrderModel::CheckQr { .. } => Some("查询扫码状态失败"@),
            OrderModel::AddTracks { task, .. } => Some(task.failure()),
            OrderModel::RemoveTrack { task, .. } => Some(task.failure()),
            OrderModel::DeletePlaylist { task, .. } => Some(task.failure()),
            OrderModel::CreatePlaylist { task, .. } => Some(task.failure()),
            _ => None,
        }
    }
}

impl CloudTaskModel {
    /// What is said when the change could not be made.
    pub open spec fn failure(self) -> Seq<char> {
        match self {
            CloudTaskModel::AddSong { label, .. } => "收藏《"@ + label + "》失败"@,
            CloudTaskModel::SyncQueue { name } => "同步到《"@ + name + "》失败"@,
            CloudTaskModel::RemoveSong { label, name } => "从《"@ + name + "》移除《"@ + label
                + "》失败"@,
            CloudTaskModel::Delete { name } => "删除歌单《"@ + name + "》失败"@,
            CloudTaskModel::Create { name } => "新建歌单《"@ + name + "》失败"@,
        }
    }

    /// What is said when the change has been made: `written` songs were put in or taken out, or the
    /// new playlist has the number `list_id`.
    pub open spec fn notice(self, written: nat, list_id: Option<i64>) -> Seq<char> {
        match self {
            CloudTaskModel::AddSong { label, name } => "已把《"@ + label + "》收藏到《"@ + name
                + "》"@,
            CloudTaskModel::SyncQueue { name } => "已把 "@ + text::decimal(written)
                + " 首歌同步到《"@ + name + "》"@,
            CloudTaskModel::RemoveSong { name, .. } => "已从《"@ + name + "》移除 "@
                + text::decimal(written) + " 首歌"@,
            CloudTaskModel::Delete { name } => "已删除歌单《"@ + name + "》"@,
            CloudTaskModel::Create { name } => match list_id {
                Some(id) => "已新建歌单《"@ + name + "》（listid="@ + text::signed_decimal(id as int)
                    + "）"@,
                None => "已新建歌单《"@ + name + "》"@,
            },
        }
    }
}

/// Singers and title of a song; the title alone where the singers are not known.
pub open spec fn song_label(song: SongModel) -> Seq<char> {
    let singers = crate::model::singers_text(song.singers);
    if singers == "未知歌手"@ {
        song.name
    } else {
        singers + " - "@ + song.name
    }
}

/// Singers and title of a song, for the status line.
pub fn describe_song(song: &Song) -> (r: String)
    ensures
        r@ == song_label(song.deep_view()),
{
    let singers = song.singer_text();
    if text::same(singers.as_str(), "未知歌手") {
        song.name.clone()
    } else {
        text::join3(singers.as_str(), " - ", song.name.as_str())
    }
}

impl CloudTask {
    /// What is said when the change could not be made.
    pub fn failure_context(&self) -> (r: String)
        ensures
            r@ == self.deep_view().failure(),
    {
        match self {
            CloudTask::AddSong { label, .. } => text::join3("收藏《", label.as_str(), "》失败"),
            CloudTask::SyncQueue { name } => text::join3("同步到《", name.as_str(), "》失败"),
            CloudTask::RemoveSong { label, name } => text::join5(
                "从《",
                name.as_str(),
                "》移除《",
                label.as_str(),
                "》失败",
            ),
            CloudTask::Delete { name } => text::join3("删除歌单《", name.as_str(), "》失败"),
            CloudTask::Create { name } => text::join3("新建歌单《", name.as_str(), "》失败"),
        }
    }

    /// What is said when the change has been made.
    pub fn done_notice(&self, written: usize, list_id: Option<i64>) -> (r: String)
        ensures
            r@ == self.deep_view().notice(written as nat, list_id),
    {
        match self {
            CloudTask::AddSong { label, name } => text::join5(
                "已把《",
                label.as_str(),
                "》收藏到《",
                name.as_str(),
                "》",
            ),
            CloudTask::SyncQueue { name } => text::join5(
                "已把 ",
                text::write_usize(written).as_str(),
                " 首歌同步到《",
                name.as_str(),
                "》",
            ),
            CloudTask::RemoveSong { name, .. } => text::join5(
                "已从《",
                name.as_str(),
                "》移除 ",
                text::write_usize(written).as_str(),
                " 首歌",
            ),
            CloudTask::Delete { name } => text::join3("已删除歌单《", name.as_str(), "》"),
            CloudTask::Create { name } => match list_id {
                Some(id) => text::join5(
                    "已新建歌单《",
                    name.as_str(),
                    "》（listid=",
                    text::write_i64(id).as_str(),
                    "）",
                ),
                None => text::join3("已新建歌单《", name.as_str(), "》"),
            },
        }
    }
}

impl Order {
    /// What is said when this order could not be carried out; `None` where nothing is said.
    pub fn failure_context(&self) -> (r: Option<String>)
        ensures
            r.deep_view() == self.deep_view().failure(),
    {
        match self {
            Order::Search { keyword, append, .. } => Some(
                if *append {
                    text::join3("加载「", keyword.as_str(), "」更多结果失败")
                } else {
                    text::join3("搜索「", keyword.as_str(), "」失败")
                },
            ),
            Order::LoadPlaza { .. } => Some("载入歌单广场失败".to_owned()),
            Order::LoadArtists { .. } => Some("载入歌手列表失败".to_owned()),
            Order::LoadRanks => Some("载入排行榜失败".to_owned()),
            Order::LoadCloud => Some("载入云端歌单失败".to_owned()),
            Order::LoadPlaylist { playlist, .. } => Some(
                text::join3("载入歌单《", playlist.name.as_str(), "》失败"),
            ),
            Order::LoadArtistSongs { artist } => Some(
                text::join3("载入歌手 ", artist.name.as_str(), " 的歌曲失败"),
            ),
            Order::LoadRankSongs { board } => Some(
                text::join3("载入榜单 ", board.name.as_str(), " 失败"),
            ),
            Order::FetchStream { song, .. } => Some(
                text::join3("获取《", song.name.as_str(), "》的播放地址失败"),
            ),
            Order::Download { song, .. } => Some(
                text::join3("下载《", describe_song(song).as_str(), "》失败"),
            ),
            Order::SaveSong { song, .. } => Some(
                text::join3("下载《", describe_song(song).as_str(), "》失败"),
            ),
            Order::FetchQr => Some("获取登录二维码失败".to_owned()),
            Order::CheckQr { .. } => Some("查询扫码状态失败".to_owned()),
            Order::AddTracks { task, .. } => Some(task.failure_context()),
            Order::RemoveTrack { task, .. } => Some(task.failure_context()),
            Order::DeletePlaylist { task, .. } => Some(task.failure_context()),
            Order::CreatePlaylist { task, .. } => Some(task.failure_context()),
            _ => None,
        }
    }
}

/// What comes of a search. A page behind the last is no failure: there is nothing more to find.
pub open spec fn found(
    keyword: Seq<char>,
    append: bool,
    result: Result<Seq<SongModel>, ErrorModel>,
) -> LoadedModel {
    match result {
        Ok(songs) => LoadedModel::Search { keyword, songs, append },
        Err(e) => if append && error::page_out_of_range(e) {
            LoadedModel::Search { keyword, songs: Seq::empty(), append: true }
        } else {
            LoadedModel::Failed {
                context: if append {
                    "加载「"@ + keyword + "」更多结果失败"@
                } else {
                    "搜索「"@ + keyword + "」失败"@
                },
                error: e,
            }
        },
    }
}

/// What a result holds, in its model.
pub open spec fn result_model<T: DeepView>(result: Result<T, AppError>) -> Result<
    T::V,
    ErrorModel,
> {
    match result {
        Ok(value) => Ok(value.deep_view()),
        Err(e) => Err(e.deep_view()),
    }
}

/// What comes of a search for `keyword`.
pub fn search_outcome(keyword: String, append: bool, result: Result<Vec<Song>, AppError>) -> (r:
    Loaded)
    ensures
        r.deep_view() == found(keyword@, append, result_model(result)),
{
    match result {
        Ok(songs) => Loaded::Search { keyword, songs, append },
        Err(e) => if append && e.is_page_out_of_range() {
            let songs: Vec<Song> = Vec::new();
            proof {
                assert(songs.deep_view() =~= Seq::<SongModel>::empty());
            }
            Loaded::Search { keyword, songs, append: true }
        } else {
            let context = if append {
                text::join3("加载「", keyword.as_str(), "」更多结果失败")
            } else {
                text::join3("搜索「", keyword.as_str(), "」失败")
            };
            Loaded::Failed { context, error: e }
        },
    }
}

/// What comes of asking for a lyric: a song without one has an empty lyric.
pub fn lyric_outcome(hash: String, result: Result<Lyric, AppError>) -> (r: Loaded)
    ensures
        r.deep_view() == (LoadedModel::Lyric {
            hash: hash@,
            lyric: match result {
                Ok(lyric) => lyric.deep_view(),
                Err(_) => Seq::empty(),
            },
        }),
{
    match result {
        Ok(lyric) => Loaded::Lyric { hash, lyric },
        Err(_) => {
            let lyric = Lyric { lines: Vec::new() };
            proof {
                assert(lyric.deep_view() =~= Seq::<LyricLineModel>::empty());
            }
            Loaded::Lyric { hash, lyric }
        },
    }
}

/// What comes of asking what became of a QR code. A login holds either a cookie or a token with the
/// number of the user.
pub open spec fn login_step(check: QrModel) -> LoadedModel {
    match check.status {
        QrStatus::Expired => LoadedModel::LoginFailed {
            message: "二维码已过期，请按 Esc 后重新按 L"@,
        },
        QrStatus::Waiting => LoadedModel::LoginStatus { message: "等待扫码…"@ },
        QrStatus::Pending => LoadedModel::LoginStatus { message: "已扫码，请在手机上确认"@ },
        QrStatus::Success => if check.cookie is Some || (check.token is Some && check.userid
            is Some) {
            LoadedModel::LoginSucceeded {
                token: check.token,
                userid: check.userid,
                cookie: check.cookie,
            }
        } else {
            LoadedModel::LoginFailed { message: "扫码已授权，但未拿到 token"@ }
        },
    }
}

/// What comes of asking what became of a QR code.
pub fn login_outcome(check: QrCheck) -> (r: Loaded)
    ensures
        r.deep_view() == login_step(check.deep_view()),
{
    match check.status {
        QrStatus::Expired => Loaded::LoginFailed {
            message: "二维码已过期，请按 Esc 后重新按 L".to_owned(),
        },
        QrStatus::Waiting => Loaded::LoginStatus { message: "等待扫码…".to_owned() },
        QrStatus::Pending => Loaded::LoginStatus { message: "已扫码，请在手机上确认".to_owned() },
        QrStatus::Success => if check.cookie.is_some() || (check.token.is_some()
            && check.userid.is_some()) {
            Loaded::LoginSucceeded {
                token: check.token,
                userid: check.userid,
                cookie: check.cookie,
            }
        } else {
            Loaded::LoginFailed { message: "扫码已授权，但未拿到 token".to_owned() }
        },
    }
}

/// How many more bytes have to come before progress is told again.
pub const PROGRESS_STEP_BYTES: u64 = 256 * 1024;

/// Whether to tell of `received` bytes after `reported` have been told of: after every step, and at
/// the end.
pub fn tells_progress(reported: u64, received: u64, total: Option<u64>) -> (r: bool)
    ensures
        r == (received - reported >= PROGRESS_STEP_BYTES || (total is Some && received
            >= total->0)),
{
    let finished = match total {
        Some(total) => received >= total,
        None => false,
    };
    finished || received.saturating_sub(reported) >= PROGRESS_STEP_BYTES
}

/// A page behind the last is no failure where more is asked for.
pub proof fn the_last_page_is_no_failure(keyword: Seq<char>, error: ErrorModel)
    requires
        error::page_out_of_range(error),
    ensures
        found(keyword, true, Err(error)) == (LoadedModel::Search {
            keyword,
            songs: Seq::empty(),
            append: true,
        }),
{
}

/// A code that was scanned and confirmed is a login exactly where the answer brings what to log in
/// with, and that is handed on; one that is gone is a failure, and any other answer is only news.
pub proof fn confirmed_codes_are_logins(check: QrModel)
    ensures
        login_step(check) is LoginSucceeded <==> check.status == QrStatus::Success && (
        check.cookie is Some || (check.token is Some && check.userid is Some)),
        login_step(check) matches LoadedModel::LoginSucceeded { token, userid, cookie } ==> token
            == check.token && userid == check.userid && cookie == check.cookie,
        check.status == QrStatus::Expired ==> login_step(check) is LoginFailed,
        check.status == QrStatus::Waiting || check.status == QrStatus::Pending ==> login_step(
            check,
        ) is LoginStatus,
{
}

/// What a search brings is shown under the words that were searched for, and put behind the rest
/// exactly where more was asked for; a failure is told.
pub proof fn results_belong_to_their_search(
    keyword: Seq<char>,
    append: bool,
    songs: Seq<SongModel>,
    error: ErrorModel,
)
    ensures
        found(keyword, append, Ok(songs)) matches LoadedModel::Search {
            keyword: words,
            songs: shown,
            append: behind,
        } && words == keyword && shown == songs && behind == append,
        !append ==> (found(keyword, append, Err(error)) matches LoadedModel::Failed {
            error: told,
            ..
        } && told == error),
        append && !error::page_out_of_range(error) ==> found(
            keyword,
            append,
            Err(error),
        ) is Failed,
{
}

} // verus!
