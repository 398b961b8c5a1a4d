//! Taking in what came of the orders.
use vstd::prelude::*;
use crate::error::ErrorModel;
use crate::model::{LyricLineModel, PlaylistModel, SongModel};
use crate::order::{Loaded, LoadedModel, OrderModel, PlaylistSource};
use crate::results;
use crate::update::{App, AppModel};

verus! {

/// What an outcome is about.
pub enum Topic {
    Page,
    Song,
    Account,
    Other,
}

impl LoadedModel {
    /// What an outcome is about.
    #[verifier::opaque]
    pub open spec fn topic(self) -> Topic {
        match self {
            LoadedModel::DeviceFingerprint(_) => Topic::Other,
            LoadedModel::CacheUsage(_) => Topic::Other,
            LoadedModel::Failed { .. } => Topic::Other,
            LoadedModel::Lyric { .. } => Topic::Song,
            LoadedModel::StreamReady { .. } => Topic::Song,
            LoadedModel::DownloadProgress { .. } => Topic::Song,
            LoadedModel::StreamCached { .. } => Topic::Song,
            LoadedModel::CoverReady { .. } => Topic::Song,
            LoadedModel::LoginQr { .. } => Topic::Account,
            LoadedModel::LoginStatus { .. } => Topic::Account,
            LoadedModel::LoginSucceeded { .. } => Topic::Account,
            LoadedModel::LoginFailed { .. } => Topic::Account,
            LoadedModel::VipStatus { .. } => Topic::Account,
            LoadedModel::UserInfo(_) => Topic::Account,
            LoadedModel::UserInfoFailed { .. } => Topic::Account,
            LoadedModel::CloudNotice(_) => Topic::Account,
            LoadedModel::CloudPlaylistChanged { .. } => Topic::Account,
            LoadedModel::VipClaimed { .. } => Topic::Account,
            LoadedModel::VipClaimFailed { .. } => Topic::Account,
            LoadedModel::SongSaved { .. } => Topic::Song,
            _ => Topic::Page,
        }
    }
}

impl AppModel {
    /// What an outcome that fills a page changes.
    #[verifier::opaque]
    pub open spec fn page_received(self, loaded: LoadedModel) -> AppModel {
        match loaded {
            LoadedModel::Search { keyword, songs, append } => self.songs_found(
                keyword,
                songs,
                append,
            ),
            LoadedModel::Playlists { title, items } => self.plaza_loaded(title, items),
            LoadedModel::PlaylistTracks { playlist, songs, source } => self.playlist_loaded(
                playlist,
                songs,
                source,
            ),
            LoadedModel::Artists(artists) => self.artists_loaded(artists),
            LoadedModel::ArtistSongs { artist, songs } => self.artist_songs_loaded(artist, songs),
            LoadedModel::RankBoards(boards) => self.ranks_loaded(boards),
            LoadedModel::RankTracks { board, songs } => self.rank_songs_loaded(board, songs),
            LoadedModel::CloudPlaylists(items) => self.cloud_loaded(items),
            _ => self,
        }
    }

    /// What an outcome about a song changes.
    #[verifier::opaque]
    pub open spec fn song_received(self, loaded: LoadedModel) -> AppModel {
        match loaded {
            LoadedModel::Lyric { hash, lyric } => self.lyric_loaded(hash, lyric),
            LoadedModel::StreamReady { song, url, start_at_ms, is_trial, reason } =>
            self.stream_found(song, url, start_at_ms, is_trial, reason),
            LoadedModel::DownloadProgress { received, total } => self.progressed(
                Some((received, total)),
            ),
            LoadedModel::StreamCached { song, path, start_at_ms } => self.stream_kept(
                song,
                path,
                start_at_ms,
            ),
            LoadedModel::CoverReady { hash } => self.cover_loaded(hash),
            LoadedModel::SongSaved { song, path } => self.song_saved(song, path),
            _ => self,
        }
    }

    /// What an outcome about the user changes.
    #[verifier::opaque]
    pub open spec fn account_received(self, loaded: LoadedModel) -> AppModel {
        match loaded {
            LoadedModel::LoginQr { key, lines } => self.code_shown(key, lines),
            LoadedModel::LoginStatus { message } => self.login_told(message),
            LoadedModel::LoginSucceeded { token, userid, cookie } => self.login_granted(
                token,
                userid,
                cookie,
            ),
            LoadedModel::LoginFailed { message } => self.login_ended(false, message),
            LoadedModel::VipStatus { label } => self.membership_known(label),
            LoadedModel::UserInfo(info) => self.user_known(info),
            LoadedModel::UserInfoFailed { error } => self.profile_failed(error),
            LoadedModel::CloudNotice(message) => self.cloud_told(message),
            LoadedModel::CloudPlaylistChanged { playlist } => self.cloud_changed(playlist),
            LoadedModel::VipClaimed { day } => self.claimed(day),
            LoadedModel::VipClaimFailed { message } => self.not_claimed(message),
            _ => self,
        }
    }

    /// What an outcome changes.
    #[verifier::opaque]
    pub open spec fn received(self, loaded: LoadedModel) -> AppModel {
        let at = self.reached(loaded.connection());
        match loaded.topic() {
            Topic::Page => at.page_received(loaded),
            Topic::Song => at.song_received(loaded),
            Topic::Account => at.account_received(loaded),
            Topic::Other => match loaded {
                LoadedModel::DeviceFingerprint(dfid) => at.device_known(dfid),
                LoadedModel::CacheUsage(bytes) => at.measured(bytes),
                LoadedModel::Failed { context, error } => at.gone_wrong(context, error),
                _ => at,
            },
        }
    }
}

/// What an outcome is about.
fn topic_of(loaded: &Loaded) -> (r: Topic)
    ensures
        r == loaded.deep_view().topic(),
{
    proof {
        reveal(LoadedModel::topic);
    }
    match loaded {
        Loaded::DeviceFingerprint(_) => Topic::Other,
        Loaded::CacheUsage(_) => Topic::Other,
        Loaded::Failed { .. } => Topic::Other,
        Loaded::Lyric { .. } => Topic::Song,
        Loaded::StreamReady { .. } => Topic::Song,
        Loaded::DownloadProgress { .. } => Topic::Song,
        Loaded::StreamCached { .. } => Topic::Song,
        Loaded::CoverReady { .. } => Topic::Song,
        Loaded::LoginQr { .. } => Topic::Account,
        Loaded::LoginStatus { .. } => Topic::Account,
        Loaded::LoginSucceeded { .. } => Topic::Account,
        Loaded::LoginFailed { .. } => Topic::Account,
        Loaded::VipStatus { .. } => Topic::Account,
        Loaded::UserInfo(_) => Topic::Account,
        Loaded::UserInfoFailed { .. } => Topic::Account,
        Loaded::CloudNotice(_) => Topic::Account,
        Loaded::CloudPlaylistChanged { .. } => Topic::Account,
        Loaded::VipClaimed { .. } => Topic::Account,
        Loaded::VipClaimFailed { .. } => Topic::Account,
        Loaded::SongSaved { .. } => Topic::Song,
        _ => Topic::Page,
    }
}

impl App {
    /// Takes in what fills a page.
    #[verifier::rlimit(60)]
    #[verifier::spinoff_prover]
    fn handle_page(&mut self, loaded: Loaded)
        requires
            old(self).deep_view().wf(),
        ensures
            final(self).deep_view() == old(self).deep_view().page_received(loaded.deep_view()),
            final(self).deep_view().wf(),
    {
        proof {
            reveal(AppModel::page_received);
        }
        match loaded {
            Loaded::Search { keyword, songs, append } => self.take_search(keyword, songs, append),
            Loaded::Playlists { title, items } => self.take_plaza(title, items),
            Loaded::PlaylistTracks { playlist, songs, source } => self.take_playlist(
                playlist,
                songs,
                source,
            ),
            Loaded::Artists(artists) => self.take_artists(artists),
            Loaded::ArtistSongs { artist, songs } => self.take_artist_songs(artist, songs),
            Loaded::RankBoards(boards) => self.take_ranks(boards),
            Loaded::RankTracks { board, songs } => self.take_rank_songs(board, songs),
            Loaded::CloudPlaylists(items) => self.take_cloud(items),
            _ => {},
        }
    }

    /// Takes in what is about a song.
    #[verifier::rlimit(60)]
    #[verifier::spinoff_prover]
    fn handle_song(&mut self, loaded: Loaded)
        requires
            old(self).deep_view().wf(),
            loaded.deep_view().sound(),
        ensures
            final(self).deep_view() == old(self).deep_view().song_received(loaded.deep_view()),
            final(self).deep_view().wf(),
    {
        proof {
            reveal(AppModel::song_received);
        }
        match loaded {
            Loaded::Lyric { hash, lyric } => self.take_lyric(hash, lyric),
            Loaded::StreamReady { song, url, start_at_ms, is_trial, reason } => self.take_stream(
                song,
                url,
                start_at_ms,
                is_trial,
                reason,
            ),
            Loaded::DownloadProgress { received, total } => self.set_progress(
                Some((received, total)),
            ),
            Loaded::StreamCached { song, path, start_at_ms } => self.take_file(
                song,
                path,
                start_at_ms,
            ),
            Loaded::CoverReady { hash } => self.take_cover(hash),
            Loaded::SongSaved { song, path } => self.take_saved(song, path),
            _ => {},
        }
    }

    /// Takes in what is about the user.
    #[verifier::rlimit(60)]
    #[verifier::spinoff_prover]
    fn handle_account(&mut self, loaded: Loaded)
        requires
            old(self).deep_view().wf(),
        ensures
            final(self).deep_view() == old(self).deep_view().account_received(loaded.deep_view()),
            final(self).deep_view().wf(),
    {
        proof {
            reveal(AppModel::account_received);
        }
        match loaded {
            Loaded::LoginQr { key, lines } => self.take_code(key, lines),
            Loaded::LoginStatus { message } => self.take_login_news(message),
            Loaded::LoginSucceeded { token, userid, cookie } => self.apply_login(
                token,
                userid,
                cookie,
            ),
            Loaded::LoginFailed { message } => self.finish_login(false, message),
            Loaded::VipStatus { label } => self.take_membership(label),
            Loaded::UserInfo(info) => self.take_user(info),
            Loaded::UserInfoFailed { error } => self.take_profile_failure(error),
            Loaded::CloudNotice(message) => self.take_notice(message),
            Loaded::CloudPlaylistChanged { playlist } => self.take_change(playlist),
            Loaded::VipClaimed { day } => self.take_claim(day),
            Loaded::VipClaimFailed { message } => self.take_claim_failure(message),
            _ => {},
        }
    }

    /// Takes in what came of an order.
    pub fn handle_loaded(&mut self, loaded: Loaded)
        requires
            old(self).deep_view().wf(),
            loaded.deep_view().sound(),
        ensures
            final(self).deep_view() == old(self).deep_view().received(loaded.deep_view()),
            final(self).deep_view().wf(),
    {
        proof {
            reveal(AppModel::received);
        }
        self.reach(results::connection_of(&loaded));
        match topic_of(&loaded) {
            Topic::Page => self.handle_page(loaded),
            Topic::Song => self.handle_song(loaded),
            Topic::Account => self.handle_account(loaded),
            Topic::Other => match loaded {
                Loaded::DeviceFingerprint(dfid) => self.take_device(dfid),
                Loaded::CacheUsage(bytes) => self.take_usage(bytes),
                Loaded::Failed { context, error } => self.take_failure(context, error),
                _ => {},
            },
        }
    }
}

impl Loaded {
    /// Whether the lines of a lyric stand in order of time.
    pub fn is_sound(&self) -> (r: bool)
        ensures
            r == self.deep_view().sound(),
    {
        match self {
            Loaded::Lyric { lyric, .. } => lyric.is_by_time(),
            _ => true,
        }
    }
}

// ---------------------------------------------------------------------------
// Laws
// ---------------------------------------------------------------------------
/// After a failure nothing is being loaded any more: no page waits for what does not come.
pub proof fn failures_end_the_waiting(app: AppModel, context: Seq<char>, error: ErrorModel)
    ensures
        !app.received(LoadedModel::Failed { context, error }).state.pages.waits(),
        app.received(LoadedModel::Failed { context, error }).state.status.busy is None,
{
    reveal(AppModel::received);
    reveal(AppModel::page_received);
    reveal(AppModel::song_received);
    reveal(LoadedModel::topic);
    reveal(LoadedModel::connection);
    reveal(AppModel::reached);
    reveal(AppModel::gone_wrong);
    reveal(AppModel::told);
    reveal(AppModel::busy_with);
    reveal(AppModel::progressed);
}

/// The address of a song that is no longer playing changes nothing that is played, and is not
/// fetched.
pub proof fn late_addresses_are_left_aside(
    app: AppModel,
    song: SongModel,
    url: Seq<char>,
    start_at_ms: u64,
    is_trial: bool,
    reason: Option<Seq<char>>,
)
    requires
        !app.plays(song.hash),
    ensures
        app.received(
            LoadedModel::StreamReady { song, url, start_at_ms, is_trial, reason },
        ).state.player == app.state.player,
        app.received(
            LoadedModel::StreamReady { song, url, start_at_ms, is_trial, reason },
        ).orders == app.orders,
{
    reveal(AppModel::received);
    reveal(AppModel::page_received);
    reveal(AppModel::song_received);
    reveal(LoadedModel::topic);
    reveal(LoadedModel::connection);
    reveal(AppModel::reached);
    reveal(AppModel::stream_found);
}

/// The file of a song that is no longer playing is removed, and nothing else happens.
pub proof fn late_files_are_removed(
    app: AppModel,
    song: SongModel,
    path: Seq<char>,
    start_at_ms: u64,
)
    requires
        !app.plays(song.hash),
    ensures
        app.received(LoadedModel::StreamCached { song, path, start_at_ms }) == app.ordering(
            OrderModel::RemoveFile { path },
        ),
{
    reveal(AppModel::received);
    reveal(AppModel::page_received);
    reveal(AppModel::song_received);
    reveal(LoadedModel::topic);
    reveal(LoadedModel::connection);
    reveal(AppModel::reached);
    reveal(AppModel::stream_kept);
}

/// The lyric and the cover of a song that is no longer playing are left aside.
pub proof fn late_lyrics_are_left_aside(app: AppModel, hash: Seq<char>, lines: Seq<LyricLineModel>)
    ensures
        app.state.player.lyric.hash != Some(hash) ==> app.received(
            LoadedModel::Lyric { hash, lyric: lines },
        ) == app,
        !app.plays(hash) ==> app.received(LoadedModel::CoverReady { hash }) == app,
{
    reveal(AppModel::received);
    reveal(AppModel::page_received);
    reveal(AppModel::song_received);
    reveal(LoadedModel::topic);
    reveal(LoadedModel::connection);
    reveal(AppModel::reached);
    reveal(AppModel::lyric_loaded);
    reveal(AppModel::cover_loaded);
}

/// The songs of a playlist go to the page on which they were asked for, whatever page is shown.
pub proof fn answers_find_their_page(
    app: AppModel,
    playlist: PlaylistModel,
    songs: Seq<SongModel>,
)
    ensures
        app.received(
            LoadedModel::PlaylistTracks { playlist, songs, source: PlaylistSource::Plaza },
        ).state.pages.cloud == app.state.pages.cloud,
        app.received(
            LoadedModel::PlaylistTracks { playlist, songs, source: PlaylistSource::Cloud },
        ).state.pages.playlists == app.state.pages.playlists,
{
    reveal(AppModel::received);
    reveal(AppModel::page_received);
    reveal(AppModel::song_received);
    reveal(LoadedModel::topic);
    reveal(LoadedModel::connection);
    reveal(AppModel::reached);
    reveal(AppModel::playlist_loaded);
    reveal(AppModel::turning_to);
    reveal(AppModel::told);
    reveal(AppModel::busy_with);
}

} // verus!
