use kugou_tui::account::CacheReport;
use kugou_tui::cloud::{QrCheck, QrStatus, UserInfo};
use kugou_tui::config::Config;
use kugou_tui::engine::{AudioEvent, PlaybackState};
use kugou_tui::error::{AppError, Breakdown};
use kugou_tui::event::{Event, MouseEvent, MouseKind, SoundState};
use kugou_tui::keymap::{Action, KeyBindings, KeyCode, KeyEvent, KeyModifiers};
use kugou_tui::lyric::parse_lrc;
use kugou_tui::model::{Lyric, LyricLine, Playlist, Song};
use kugou_tui::order::{
    login_outcome, lyric_outcome, search_outcome, tells_progress, CloudTask, Loaded, Order,
    PlaylistSource,
};
use kugou_tui::panes::{ConfirmAction, Connection};
use kugou_tui::queue::PlaybackMode;
use kugou_tui::settings::{device_options, CoverFill, Setting, Theme};
use kugou_tui::source::SourceKind;
use kugou_tui::tab::{Focus, HitTarget, Rect, StatusLevel, Tab};
use kugou_tui::update::App;

fn song(hash: &str) -> Song {
    Song {
        name: format!("song {hash}"),
        hash: hash.to_string(),
        duration_ms: 200_000,
        ..Song::default()
    }
}

fn songs(count: usize) -> Vec<Song> {
    (0..count).map(|index| song(&format!("H{index}"))).collect()
}

fn playlist(list_id: Option<i64>) -> Playlist {
    Playlist {
        id: "gid".to_string(),
        list_id,
        name: "mine".to_string(),
        cover: None,
        song_count: 3,
        creator: None,
        description: None,
        is_own: true,
    }
}

fn app() -> App {
    App::new(Config::default())
}

fn logged_in() -> App {
    let mut config = Config::default();
    config.cookie = Some("token=a; userid=1".to_string());
    App::new(config)
}

fn out_of_range() -> AppError {
    AppError::Api {
        path: "/search".to_string(),
        code: 149,
        message: "Out Page Range".to_string(),
    }
}

fn unreachable_server() -> AppError {
    AppError::Http(Breakdown {
        timeout: false,
        connect: true,
        body: false,
        decode: false,
        words: "refused".to_string(),
    })
}

fn search(app: &mut App, word: &str) {
    app.handle_action(Action::OpenSearch, 0);
    for letter in word.chars() {
        app.handle_action(Action::Char(letter), 0);
    }
    app.handle_action(Action::Submit, 0);
}

fn playing(app: &mut App, count: usize, index: usize) {
    app.play_from(songs(count), index);
    app.handle_audio_event(AudioEvent::Ready { duration_ms: 180_000 }, 0);
    app.take_orders();
}

#[test]
fn starts_on_the_home_page() {
    let app = app();
    assert_eq!(app.state.screen.tab, Tab::Home);
    assert_eq!(app.state.screen.focus, Focus::Primary);
    assert!(app.state.pages.sort_descending);
    assert!(!app.state.account.logged_in);
    assert_eq!(app.state.account.connection, Connection::Unknown);
    assert_eq!(app.state.pages.search.results.empty_text(), "按 / 输入关键词，Enter 开始搜索");
    assert_eq!(app.state.status.message, "按 / 搜索，或按 2-5 浏览歌单/歌手/排行榜/云端");
}

#[test]
fn pages_are_loaded_when_they_are_first_shown() {
    let mut app = app();
    app.handle_action(Action::Digit(3), 0);
    assert_eq!(app.state.screen.tab, Tab::Playlists);
    let orders = app.take_orders();
    assert_eq!(orders.len(), 1);
    assert!(matches!(orders[0], Order::LoadPlaza { category: 0, page_size: 30 }));
    assert_eq!(app.state.status.busy.as_deref(), Some("载入歌单广场"));

    app.handle_action(Action::Digit(1), 0);
    app.handle_action(Action::Digit(3), 0);
    assert!(app.take_orders().is_empty());

    app.handle_loaded(Loaded::Failed {
        context: "载入歌单广场失败".to_string(),
        error: unreachable_server(),
    });
    assert!(!app.state.pages.playlists.list.load.is_loading());
    assert!(app.state.pages.playlists.list.load.error().is_some());
    assert_eq!(app.state.account.connection, Connection::Unreachable);
    app.handle_action(Action::Digit(1), 0);
    app.handle_action(Action::Digit(3), 0);
    assert_eq!(app.take_orders().len(), 1);
}

#[test]
fn searching_takes_what_stands_in_the_line() {
    let mut app = app();
    search(&mut app, " 海阔 ");
    let orders = app.take_orders();
    assert!(matches!(
        &orders[0],
        Order::Search { keyword, page: 1, page_size: 30, append: false } if keyword == "海阔"
    ));
    assert!(!app.state.pages.search.editing);
    assert_eq!(app.state.pages.search.results.title, "搜索「海阔」");

    app.handle_loaded(search_outcome("海阔".to_string(), false, Ok(songs(3))));
    assert_eq!(app.state.pages.search.results.title, "搜索「海阔」· 3 首");
    assert_eq!(app.state.pages.search.results.songs[0].hash, "H0");
    assert_eq!(app.state.screen.focus, Focus::Secondary);
    assert_eq!(app.state.status.message, "「海阔」找到 3 首");
    assert_eq!(app.state.account.connection, Connection::Connected);

    app.handle_action(Action::LoadMoreSearch, 0);
    assert!(matches!(&app.take_orders()[0], Order::Search { page: 2, append: true, .. }));
    app.handle_loaded(search_outcome("海阔".to_string(), true, Ok(songs(2))));
    assert_eq!(app.state.pages.search.results.len(), 5);
    assert_eq!(app.state.status.message, "又加载了 2 首（共 5 首）");

    app.handle_loaded(search_outcome("海阔".to_string(), true, Err(out_of_range())));
    assert_eq!(app.state.pages.search.results.len(), 5);
    assert_eq!(app.state.status.message, "没有更多结果了");
}

#[test]
fn an_empty_search_line_only_warns() {
    let mut app = app();
    search(&mut app, "  ");
    assert!(app.take_orders().is_empty());
    assert_eq!(app.state.status.message, "请输入搜索关键词");
    assert_eq!(app.state.status.level, StatusLevel::Warning);
}

#[test]
fn the_last_page_of_a_search_is_the_sixteenth() {
    let mut app = app();
    search(&mut app, "x");
    app.handle_loaded(search_outcome("x".to_string(), false, Ok(songs(1))));
    app.take_orders();
    app.state.pages.search.page = 16;
    app.handle_action(Action::LoadMoreSearch, 0);
    assert!(app.take_orders().is_empty());
    assert_eq!(app.state.status.message, "已经到最后一页了");
}

#[test]
fn playing_a_song_sends_for_it() {
    let mut app = app();
    app.play_from(songs(3), 1);
    let orders = app.take_orders();
    assert_eq!(orders.len(), 3);
    assert!(matches!(orders[0], Order::MarkLoading));
    assert!(matches!(&orders[1], Order::FetchLyric { song } if song.hash == "H1"));
    assert!(matches!(
        &orders[2],
        Order::Resolve { key, start_at_ms: 0, .. } if key == "h1-128"
    ));
    assert_eq!(app.state.player.playback, PlaybackState::Loading);
    assert_eq!(app.state.player.queue_cursor.selected(), Some(1));
    assert_eq!(app.state.status.message, "正在解析播放地址：song H1");

    app.request_stream(song("H1"), 0, Some("/c/h1-128.mp3".to_string()));
    assert!(matches!(
        &app.take_orders()[0],
        Order::Play { path, duration_ms: 200_000, .. } if path == "/c/h1-128.mp3"
    ));
    app.request_stream(song("H1"), 0, None);
    assert!(matches!(
        &app.take_orders()[0],
        Order::FetchStream { quality, .. } if quality == "128"
    ));
}

#[test]
fn an_empty_list_cannot_be_played() {
    let mut app = app();
    app.play_from(Vec::new(), 0);
    assert!(app.take_orders().is_empty());
    assert_eq!(app.state.status.message, "列表为空，无法播放");
}

#[test]
fn songs_that_may_not_be_had_are_warned_of() {
    let mut app = app();
    let mut blocked = song("B");
    blocked.privilege = Some(0);
    app.play_from(vec![blocked], 0);
    assert_eq!(app.state.status.level, StatusLevel::Warning);
    assert_eq!(
        app.state.status.message,
        "《song B》可能受版权限制（VIP/已下架），若取链失败请换一首"
    );
}

#[test]
fn trial_parts_are_kept_apart_and_end_quietly() {
    let mut app = app();
    app.play_from(songs(2), 0);
    app.take_orders();
    app.handle_loaded(Loaded::StreamReady {
        song: song("H0"),
        url: "http://x/y.FLAC?a=1#b".to_string(),
        start_at_ms: 0,
        is_trial: true,
        reason: Some("需要会员".to_string()),
    });
    assert_eq!(app.state.status.message, "《song H0》只有试听片段：需要会员");
    assert!(matches!(
        &app.take_orders()[0],
        Order::Download { key, extension, .. } if key == "h0-128-trial" && extension == "flac"
    ));
    app.handle_audio_event(AudioEvent::TrackFinished, 0);
    assert!(app.take_orders().is_empty());
    assert_eq!(app.state.player.playback, PlaybackState::Stopped);
    assert_eq!(app.state.player.queue.cursor(), Some(0));
    assert_eq!(app.state.status.message, "试听片段已播完（完整版需要对应会员），按 n 跳下一首");
}

#[test]
fn what_comes_too_late_is_left_aside() {
    let mut app = app();
    app.play_from(songs(2), 0);
    app.take_orders();
    app.handle_loaded(Loaded::StreamReady {
        song: song("H1"),
        url: "http://x/y.mp3".to_string(),
        start_at_ms: 0,
        is_trial: true,
        reason: None,
    });
    assert!(app.take_orders().is_empty());
    assert!(!app.state.player.current_is_trial);

    app.handle_loaded(Loaded::StreamCached {
        song: song("H1"),
        path: "/c/late.mp3".to_string(),
        start_at_ms: 0,
    });
    assert!(matches!(&app.take_orders()[0], Order::RemoveFile { path } if path == "/c/late.mp3"));

    app.handle_loaded(Loaded::Lyric {
        hash: "H1".to_string(),
        lyric: parse_lrc("[00:01.00]late\n"),
    });
    assert!(app.state.player.lyric.lyric.is_empty());
    app.handle_loaded(Loaded::CoverReady { hash: "H1".to_string() });
    assert!(!app.state.player.cover.is_drawable());
    app.handle_loaded(Loaded::CoverReady { hash: "H0".to_string() });
    assert!(app.state.player.cover.belongs_to("H0"));
}

#[test]
fn a_song_that_has_come_is_played() {
    let mut app = app();
    app.play_from(songs(2), 0);
    app.take_orders();
    app.handle_loaded(Loaded::DownloadProgress { received: 10, total: Some(20) });
    assert_eq!(app.state.status.download_progress, Some((10, Some(20))));
    app.handle_loaded(Loaded::StreamCached {
        song: song("H0"),
        path: "/c/a.mp3".to_string(),
        start_at_ms: 7,
    });
    let orders = app.take_orders();
    assert!(matches!(&orders[0], Order::Play { path, start_at_ms: 7, .. } if path == "/c/a.mp3"));
    assert!(matches!(orders[1], Order::EnforceCacheLimit));
    assert_eq!(app.state.status.download_progress, None);

    app.handle_audio_event(AudioEvent::Ready { duration_ms: 180_000 }, 0);
    assert_eq!(app.state.player.duration_ms, 180_000);
    assert_eq!(app.state.status.message, "正在播放：song H0");
    app.handle_audio_event(AudioEvent::Failed("坏了".to_string()), 0);
    assert_eq!(app.state.player.playback, PlaybackState::Stopped);
    assert_eq!(app.state.status.message, "坏了");
}

#[test]
fn the_end_of_the_queue_stops_the_sound() {
    let mut app = app();
    playing(&mut app, 2, 1);
    app.handle_audio_event(AudioEvent::TrackFinished, 5);
    let orders = app.take_orders();
    assert!(matches!(orders[0], Order::StopSound));
    assert_eq!(app.state.player.playback, PlaybackState::Stopped);
    assert_eq!(app.state.status.message, "播放队列已到末尾");

    app.handle_action(Action::Next, 0);
    assert_eq!(app.state.player.queue.cursor(), Some(0));
}

#[test]
fn chance_never_repeats_a_song_while_there_is_a_choice() {
    for draw in 0..40 {
        let mut app = app();
        app.state.player.queue.set_mode(PlaybackMode::Shuffle);
        playing(&mut app, 4, 2);
        app.handle_action(Action::Next, draw);
        assert_ne!(app.state.player.queue.cursor(), Some(2));
    }
}

#[test]
fn going_back_begins_the_song_anew_first() {
    let mut app = app();
    playing(&mut app, 3, 1);
    app.state.player.position_ms = 3_001;
    app.handle_action(Action::Prev, 0);
    assert!(matches!(app.take_orders()[0], Order::SeekTo(0)));
    assert_eq!(app.state.player.queue.cursor(), Some(1));
    app.state.player.position_ms = 3_000;
    app.handle_action(Action::Prev, 0);
    assert_eq!(app.state.player.queue.cursor(), Some(0));
}

#[test]
fn seeking_stays_in_the_song() {
    let mut app = app();
    app.handle_action(Action::SeekForward, 0);
    assert!(app.take_orders().is_empty());
    playing(&mut app, 1, 0);
    app.handle_action(Action::SeekBackward, 0);
    assert_eq!(app.state.player.position_ms, 0);
    app.handle_action(Action::SeekBy(1_000_000), 0);
    assert_eq!(app.state.player.position_ms, 180_000);
    app.handle_action(Action::SeekTo(999_999), 0);
    assert_eq!(app.state.player.position_ms, 179_999);
    let orders = app.take_orders();
    assert!(matches!(orders[0], Order::SeekBy(-5_000)));
    assert!(matches!(orders[1], Order::SeekBy(1_000_000)));
    assert!(matches!(orders[2], Order::SeekTo(179_999)));
    app.seek_in_bar(500_000);
    assert!(matches!(app.take_orders()[0], Order::SeekTo(179_999)));
}

#[test]
fn space_pauses_begins_and_waits() {
    let mut app = app();
    app.handle_action(Action::PlayPause, 0);
    assert_eq!(app.state.status.message, "当前没有可播放的歌曲");
    app.play_from(songs(1), 0);
    app.take_orders();
    app.handle_action(Action::PlayPause, 0);
    assert!(app.take_orders().is_empty());
    app.handle_audio_event(AudioEvent::Ready { duration_ms: 0 }, 0);
    app.handle_action(Action::PlayPause, 0);
    assert!(matches!(app.take_orders()[0], Order::TogglePause));
    assert_eq!(app.state.player.duration_ms, 200_000);
}

#[test]
fn the_queue_is_only_emptied_after_a_yes() {
    let mut app = app();
    playing(&mut app, 3, 0);
    app.handle_action(Action::ClearQueue, 0);
    assert_eq!(app.state.dialogs.pending_confirm, Some(ConfirmAction::ClearQueue));
    assert_eq!(app.state.player.queue.len(), 3);
    app.handle_action(Action::Next, 0);
    assert_eq!(app.state.player.queue.cursor(), Some(0));
    app.handle_action(Action::Cancel, 0);
    assert_eq!(app.state.status.message, "已取消");
    assert_eq!(app.state.player.queue.len(), 3);

    app.handle_action(Action::ClearQueue, 0);
    app.handle_action(Action::Submit, 0);
    assert!(app.state.player.queue.is_empty());
    assert!(app.state.player.current.is_none());
    assert_eq!(app.state.status.message, "已清空播放队列（3 首），已停止播放");
    assert!(matches!(app.take_orders()[0], Order::StopSound));
}

#[test]
fn taking_the_playing_song_out_stops_the_sound() {
    let mut app = app();
    playing(&mut app, 2, 0);
    app.handle_action(Action::RemoveFromQueue, 0);
    assert_eq!(app.state.status.message, "请先按 Tab 把焦点切到播放队列");
    app.state.screen.focus = Focus::Queue;
    app.handle_action(Action::RemoveFromQueue, 0);
    assert!(app.state.player.current.is_none());
    assert_eq!(app.state.player.queue.len(), 1);
    assert_eq!(app.state.status.message, "已从队列移除：song H0");
    assert!(matches!(app.take_orders()[0], Order::StopSound));
}

#[test]
fn songs_are_queued_next_or_last() {
    let mut app = app();
    search(&mut app, "x");
    app.handle_loaded(search_outcome("x".to_string(), false, Ok(songs(3))));
    app.handle_action(Action::AddAllToQueue, 0);
    assert_eq!(app.state.status.message, "已把 3 首歌加入队列（倒序）");
    app.handle_action(Action::MoveBottom, 0);
    app.handle_action(Action::QueuePlayNext, 0);
    assert_eq!(app.state.player.queue.items()[1].hash, "H2");
    assert_eq!(app.state.status.message, "已插入到下一首：song H2");
    app.handle_action(Action::QueueAppend, 0);
    assert_eq!(app.state.player.queue.items()[4].hash, "H2");
    assert_eq!(app.state.player.queue.cursor(), Some(0));
}

#[test]
fn turning_the_lists_round_keeps_the_song_selected() {
    let mut app = app();
    search(&mut app, "x");
    app.handle_loaded(search_outcome("x".to_string(), false, Ok(songs(3))));
    app.handle_action(Action::ToggleSortOrder, 0);
    let list = &app.state.pages.search.results;
    assert_eq!(list.songs[0].hash, "H2");
    assert_eq!(list.selected().map(|song| song.hash.as_str()), Some("H0"));
    assert_eq!(app.state.status.message, "列表排列：正序");
    app.handle_action(Action::ToggleSortOrder, 0);
    assert_eq!(app.state.pages.search.results.songs[0].hash, "H0");
    assert_eq!(app.state.status.message, "列表排列：倒序（最后一首在最上）");
}

#[test]
fn answers_go_to_the_page_that_asked() {
    let mut app = app();
    app.handle_action(Action::Digit(6), 0);
    app.handle_loaded(Loaded::PlaylistTracks {
        playlist: playlist(None),
        songs: songs(2),
        source: PlaylistSource::Plaza,
    });
    assert!(app.state.pages.cloud.songs.is_empty());
    assert_eq!(app.state.pages.playlists.songs.title, "mine · 2 首");
    assert_eq!(app.state.pages.playlists.songs.songs[0].hash, "H1");
    assert_eq!(app.state.status.message, "《mine》共 2 首");
}

#[test]
fn strangers_cannot_write_to_the_cloud() {
    let mut app = app();
    app.handle_action(Action::OpenCloud, 0);
    assert_eq!(
        app.state.status.message,
        "云端歌单需要登录，请配置 cookie（--cookie 或配置文件）"
    );
    app.handle_action(Action::AddToCloud, 0);
    assert_eq!(app.state.status.message, "云端歌单需要登录，请配置 cookie");
    app.handle_action(Action::SyncToCloud, 0);
    app.handle_action(Action::DeleteCloudPlaylist, 0);
    assert_eq!(app.state.status.message, "请先在「云端」标签页选中一个歌单");
    assert!(app.take_orders().is_empty());
}

#[test]
fn songs_are_put_into_the_open_playlist() {
    let mut app = logged_in();
    app.handle_action(Action::OpenCloud, 0);
    app.handle_loaded(Loaded::CloudPlaylists(vec![playlist(Some(9))]));
    app.handle_action(Action::Submit, 0);
    assert_eq!(app.state.account.sync_target.as_ref().and_then(|list| list.list_id), Some(9));
    app.handle_loaded(Loaded::PlaylistTracks {
        playlist: playlist(Some(9)),
        songs: songs(2),
        source: PlaylistSource::Cloud,
    });
    app.take_orders();
    app.handle_action(Action::AddToCloud, 0);
    let orders = app.take_orders();
    match &orders[0] {
        Order::AddTracks { list_id, songs, playlist, task } => {
            assert_eq!(*list_id, 9);
            assert_eq!(playlist.list_id, Some(9));
            assert_eq!(songs[0].hash, "H1");
            assert_eq!(task.done_notice(1, None), "已把《song H1》收藏到《mine》");
        }
        other => panic!("{other:?}"),
    }
    assert_eq!(orders[0].failure_context().as_deref(), Some("收藏《song H1》失败"));

    app.handle_action(Action::RemoveFromCloud, 0);
    assert_eq!(app.state.status.message, "这首歌不在歌单里（缺少 fileid），无法从歌单移除");

    app.handle_loaded(Loaded::CloudPlaylistChanged { playlist: playlist(Some(9)) });
    let orders = app.take_orders();
    assert!(matches!(orders[0], Order::LoadCloud));
    assert!(matches!(
        orders[1],
        Order::LoadPlaylist { source: PlaylistSource::Cloud, .. }
    ));

    app.handle_action(Action::DeleteCloudPlaylist, 0);
    app.handle_action(Action::Submit, 0);
    assert!(matches!(app.take_orders()[0], Order::DeletePlaylist { list_id: 9, .. }));
    assert!(app.state.account.sync_target.is_none());
}

#[test]
fn a_playlist_is_made_from_a_name() {
    let mut app = logged_in();
    app.handle_action(Action::NewCloudPlaylist, 0);
    for letter in "ab".chars() {
        app.handle_action(Action::Char(letter), 0);
    }
    app.handle_action(Action::CursorHome, 0);
    app.handle_action(Action::Delete, 0);
    app.handle_action(Action::Submit, 0);
    assert!(app.state.dialogs.prompt.is_none());
    assert!(matches!(&app.take_orders()[0], Order::CreatePlaylist { name, .. } if name == "b"));

    app.handle_action(Action::NewCloudPlaylist, 0);
    app.handle_action(Action::Submit, 0);
    assert_eq!(app.state.status.message, "歌单名称不能为空");
}

#[test]
fn changes_to_playlists_are_told() {
    let name = "n".to_string();
    let label = "l".to_string();
    let sync = CloudTask::SyncQueue { name: name.clone() };
    assert_eq!(sync.done_notice(20, None), "已把 20 首歌同步到《n》");
    assert_eq!(sync.failure_context(), "同步到《n》失败");
    let remove = CloudTask::RemoveSong { label, name: name.clone() };
    assert_eq!(remove.done_notice(1, None), "已从《n》移除 1 首歌");
    assert_eq!(remove.failure_context(), "从《n》移除《l》失败");
    let create = CloudTask::Create { name: name.clone() };
    assert_eq!(create.done_notice(0, Some(-5)), "已新建歌单《n》（listid=-5）");
    assert_eq!(create.done_notice(0, None), "已新建歌单《n》");
    let delete = CloudTask::Delete { name };
    assert_eq!(delete.done_notice(0, None), "已删除歌单《n》");
    assert_eq!(delete.failure_context(), "删除歌单《n》失败");
}

fn check(status: QrStatus, token: bool, cookie: bool) -> QrCheck {
    QrCheck {
        status,
        token: if token { Some("t".to_string()) } else { None },
        userid: if token { Some("7".to_string()) } else { None },
        cookie: if cookie { Some("MUSIC_U=x".to_string()) } else { None },
    }
}

#[test]
fn a_login_goes_through_its_steps() {
    let mut app = app();
    app.handle_action(Action::Login, 0);
    assert!(app.take_orders().is_empty());
    app.handle_action(Action::Submit, 0);
    assert!(matches!(app.take_orders()[0], Order::AskQr));
    app.request_code(0);
    assert!(matches!(app.take_orders()[0], Order::FetchQr));
    app.handle_loaded(Loaded::LoginQr { key: "k".to_string(), lines: vec!["##".to_string()] });
    let login = app.state.account.login.as_ref().unwrap();
    assert_eq!(login.message, "用酷狗 App 扫码登录");
    assert_eq!(login.dialog_height(), 5);
    assert_eq!(login.dialog_width(), 44);

    app.handle_action(Action::Next, 0);
    assert!(app.take_orders().is_empty());

    app.handle_loaded(login_outcome(check(QrStatus::Waiting, false, false)));
    assert_eq!(app.state.account.login.as_ref().unwrap().message, "等待扫码…");
    app.handle_loaded(login_outcome(check(QrStatus::Success, true, false)));
    let orders = app.take_orders();
    assert!(matches!(
        &orders[0],
        Order::SetCookie(Some(cookie)) if cookie == "token=t; userid=7"
    ));
    assert!(matches!(&orders[1], Order::SaveLogin { userid: Some(id) } if id == "7"));

    app.login_saved(Some("7".to_string()), "/c.toml", Ok(()));
    assert!(app.state.account.logged_in);
    assert_eq!(
        app.state.account.login.as_ref().unwrap().message,
        "登录成功（userid=7），凭据已写入 /c.toml"
    );
    assert!(matches!(app.take_orders()[0], Order::FetchVip));
    app.handle_action(Action::Cancel, 0);
    app.handle_action(Action::Login, 0);
    app.handle_action(Action::Submit, 0);
    assert_eq!(app.state.dialogs.pending_confirm, Some(ConfirmAction::Relogin));
}

#[test]
fn logins_can_fail_in_several_ways() {
    assert!(matches!(
        login_outcome(check(QrStatus::Success, false, false)),
        Loaded::LoginFailed { message } if message == "扫码已授权，但未拿到 token"
    ));
    assert!(matches!(
        login_outcome(check(QrStatus::Expired, false, false)),
        Loaded::LoginFailed { message } if message == "二维码已过期，请按 Esc 后重新按 L"
    ));
    assert!(matches!(
        login_outcome(check(QrStatus::Success, false, true)),
        Loaded::LoginSucceeded { token: None, .. }
    ));
    let mut app = app();
    app.login_saved(None, "/c", Err(AppError::Config("满了".to_string())));
    let login = app.state.account.login.as_ref().unwrap();
    assert!(login.finished && !login.succeeded);
    assert!(login.message.starts_with("保存登录凭据失败："));
}

#[test]
fn changing_the_service_keeps_the_music() {
    let mut app = logged_in();
    playing(&mut app, 2, 1);
    app.handle_action(Action::SwitchSource, 0);
    let orders = app.take_orders();
    assert!(matches!(orders[0], Order::SaveConfig));
    assert!(matches!(
        orders[1],
        Order::RebuildClient { kind: SourceKind::KugouConcept }
    ));
    assert_eq!(app.state.config.api_base, "http://127.0.0.1:3001");
    assert_eq!(app.state.config.cookie, None);
    assert_eq!(app.state.player.queue.cursor(), Some(1));

    app.client_rebuilt(SourceKind::KugouConcept, Ok(()));
    assert_eq!(
        app.state.status.message,
        "已切换到「酷狗概念版」，但该音源还没登录——按 L 重新扫码（两个平台账号不通用）"
    );
    let orders = app.take_orders();
    assert!(matches!(orders[0], Order::FetchVip));
    assert!(matches!(orders[1], Order::AskDay { manual: false }));
    assert!(matches!(orders[2], Order::FetchFingerprint));

    app.state.config.sources.netease.enabled = false;
    app.handle_action(Action::SwitchSource, 0);
    assert_eq!(app.state.config.active_source_kind(), SourceKind::Kugou);
    assert_eq!(app.state.config.cookie.as_deref(), Some("token=a; userid=1"));
}

#[test]
fn the_device_print_is_used_and_saved() {
    let mut app = logged_in();
    app.handle_loaded(Loaded::DeviceFingerprint("d1".to_string()));
    let orders = app.take_orders();
    assert!(matches!(
        &orders[0],
        Order::SetCookie(Some(cookie)) if cookie == "token=a; userid=1; dfid=d1"
    ));
    assert!(matches!(orders[1], Order::SaveConfig));
}

#[test]
fn ctrl_c_ends_the_player_at_once() {
    let key = KeyEvent::new(KeyCode::Char('c'), KeyModifiers::ctrl());
    let bindings = KeyBindings::empty();
    let mut app = app();
    app.handle_action(Action::OpenSearch, 0);
    app.handle_event(Event::Key(key), &bindings, 0, 0);
    assert!(app.state.status.should_quit && app.state.status.force_quit);
    app.take_orders();
    app.shutdown();
    assert!(app.take_orders().is_empty());
}

#[test]
fn quitting_saves_the_settings() {
    let mut app = app();
    app.state.config.api_base = "http://elsewhere".to_string();
    app.handle_action(Action::CyclePlaybackMode, 0);
    app.handle_action(Action::Quit, 0);
    assert!(app.state.status.should_quit && !app.state.status.force_quit);
    app.shutdown();
    assert_eq!(app.state.config.api_base, "http://127.0.0.1:3000");
    assert_eq!(app.state.config.playback_mode, app.state.player.queue.mode());
    assert!(matches!(app.take_orders()[0], Order::SaveConfig));
}

#[test]
fn the_help_takes_the_keys() {
    let mut app = app();
    app.handle_action(Action::Help, 0);
    app.state.screen.help.visible_range(39, 10);
    app.handle_action(Action::MoveDown, 0);
    app.handle_action(Action::PageDown, 0);
    assert_eq!(app.state.screen.help.visible_range(39, 10), 10..20);
    app.handle_action(Action::MoveBottom, 0);
    assert_eq!(app.state.screen.help.visible_range(39, 10), 29..39);
    app.handle_action(Action::Digit(2), 0);
    assert_eq!(app.state.screen.tab, Tab::Home);
    app.handle_action(Action::Cancel, 0);
    assert!(!app.state.screen.help.is_open());
}

#[test]
fn moving_in_the_side_bar_follows_what_is_shown() {
    let mut app = app();
    app.state.screen.focus = Focus::Sidebar;
    app.handle_action(Action::MoveDown, 0);
    assert_eq!(app.state.screen.tab, Tab::Visualizer);
    assert_eq!(app.state.screen.focus, Focus::Sidebar);
    app.handle_action(Action::MoveUp, 0);
    app.handle_action(Action::MoveUp, 0);
    assert_eq!(app.state.screen.tab, Tab::Home);
    app.handle_action(Action::MoveBottom, 0);
    assert_eq!(app.state.screen.tab, Tab::Settings);
    app.state.screen.focus = Focus::Primary;
    app.handle_action(Action::PageDown, 0);
    assert_eq!(app.state.pages.settings_cursor, 10);
}

#[test]
fn handing_the_keys_on_skips_what_is_empty() {
    let mut app = app();
    app.handle_action(Action::FocusNext, 0);
    assert_eq!(app.state.screen.focus, Focus::Sidebar);
    app.handle_action(Action::FocusNext, 0);
    assert_eq!(app.state.screen.focus, Focus::Primary);
    playing(&mut app, 1, 0);
    app.handle_action(Action::FocusNext, 0);
    assert_eq!(app.state.screen.focus, Focus::Queue);
    app.handle_action(Action::FocusPrev, 0);
    assert_eq!(app.state.screen.focus, Focus::Primary);
    app.handle_action(Action::FocusNext, 0);
    app.handle_action(Action::Cancel, 0);
    assert_eq!(app.state.screen.focus, Focus::Secondary);
}

#[test]
fn two_clicks_on_a_row_go_on_with_it() {
    let mut app = app();
    playing(&mut app, 3, 0);
    let rect = Rect { x: 0, y: 10, width: 20, height: 5 };
    app.state.add_hit_zone(rect, HitTarget::Queue, 0, 3);
    let click = MouseEvent { kind: MouseKind::LeftDown, column: 3, row: 12 };
    app.handle_mouse(click, 1_000);
    assert_eq!(app.state.player.queue_cursor.selected(), Some(2));
    assert_eq!(app.state.screen.focus, Focus::Queue);
    assert_eq!(app.state.player.queue.cursor(), Some(0));
    app.handle_mouse(click, 1_499);
    assert_eq!(app.state.player.queue.cursor(), Some(2));

    app.state.begin_frame();
    app.handle_mouse(MouseEvent { row: 10, ..click }, 9_000);
    assert_eq!(app.state.player.queue_cursor.selected(), Some(2));
}

#[test]
fn slow_clicks_only_select() {
    let mut app = app();
    playing(&mut app, 3, 0);
    let rect = Rect { x: 0, y: 0, width: 20, height: 5 };
    app.state.add_hit_zone(rect, HitTarget::Queue, 0, 3);
    let click = MouseEvent { kind: MouseKind::LeftDown, column: 3, row: 1 };
    app.handle_mouse(click, 1_000);
    app.handle_mouse(click, 1_500);
    assert_eq!(app.state.player.queue.cursor(), Some(0));
    let wheel = MouseEvent { kind: MouseKind::ScrollDown, column: 3, row: 1 };
    app.handle_mouse(wheel, 2_000);
    assert_eq!(app.state.player.queue_cursor.selected(), Some(2));
}

#[test]
fn the_part_drawn_last_takes_the_click() {
    let mut app = app();
    let large = Rect { x: 0, y: 0, width: 20, height: 20 };
    let small = Rect { x: 0, y: 3, width: 20, height: 1 };
    app.state.add_hit_zone(large, HitTarget::Songs, 0, 9);
    app.state.add_hit_zone(small, HitTarget::Tab(2), 0, 1);
    app.handle_mouse(MouseEvent { kind: MouseKind::LeftDown, column: 1, row: 3 }, 0);
    assert_eq!(app.state.screen.tab, Tab::Search);
}

#[test]
fn clicks_on_the_bar_name_a_part_of_the_song() {
    let mut app = app();
    let rect = Rect { x: 5, y: 0, width: 50, height: 1 };
    app.state.add_hit_zone(rect, HitTarget::Progress, 0, 0);
    let click = MouseEvent { kind: MouseKind::LeftDown, column: 30, row: 0 };
    app.handle_mouse(click, 0);
    assert!(app.take_orders().is_empty());
    playing(&mut app, 1, 0);
    app.handle_mouse(click, 0);
    assert!(matches!(
        app.take_orders()[0],
        Order::SeekBar { column: 25, width: 50, duration_ms: 180_000 }
    ));
}

#[test]
fn ticks_follow_the_song() {
    let mut app = app();
    playing(&mut app, 1, 0);
    let lyric = parse_lrc("[00:01.00]one\n[00:05.00]two\n");
    app.handle_loaded(lyric_outcome("H0".to_string(), Ok(lyric)));
    let sound = SoundState {
        playback: PlaybackState::Playing,
        position_ms: 4_950,
        duration_ms: 0,
    };
    app.tick(sound);
    assert_eq!(app.state.player.lyric.active_line, Some(0));
    assert_eq!(app.state.player.duration_ms, 180_000);
    app.handle_action(Action::LyricAdvance, 0);
    assert_eq!(app.state.status.message, "歌词偏移 +100 ms");
    app.tick(sound);
    assert_eq!(app.state.player.lyric.active_line, Some(1));
    assert!(matches!(app.take_orders()[0], Order::ShowTrack));

    app.state.status.ticks = u64::MAX;
    app.tick(sound);
    assert_eq!(app.state.status.ticks, 0);
    assert!(app.take_orders().iter().any(|order| matches!(order, Order::MeasureCache)));
}

#[test]
fn a_login_is_asked_after_every_ten_ticks() {
    let mut app = app();
    app.handle_action(Action::Login, 0);
    app.handle_action(Action::Submit, 0);
    app.handle_loaded(Loaded::LoginQr { key: "k".to_string(), lines: Vec::new() });
    app.take_orders();
    let still = SoundState {
        playback: PlaybackState::Stopped,
        position_ms: 0,
        duration_ms: 0,
    };
    let mut asked = 0;
    for _ in 0..30 {
        app.tick(still);
        asked += app
            .take_orders()
            .iter()
            .filter(|order| matches!(order, Order::CheckQr { key } if key == "k"))
            .count();
    }
    assert_eq!(asked, 3);
}

#[test]
fn the_screen_is_drawn_more_often_while_it_moves() {
    let mut app = app();
    assert_eq!(app.frame_interval(), 200);
    playing(&mut app, 1, 0);
    assert_eq!(app.frame_interval(), 200);
    app.handle_action(Action::Digit(0), 0);
    assert_eq!(app.frame_interval(), 33);
    app.handle_action(Action::Digit(1), 0);
    app.state.screen.lyric_visible = true;
    assert_eq!(app.frame_interval(), 33);
    app.state.config.tick_ms = 20;
    assert_eq!(app.frame_interval(), 20);
}

#[test]
fn clearing_the_kept_songs_is_told() {
    let mut app = app();
    app.handle_action(Action::ClearCache, 0);
    app.handle_action(Action::Submit, 0);
    assert!(matches!(app.take_orders()[0], Order::ClearCache));
    app.cache_cleared(Ok(CacheReport { removed_files: 3, failed: 1 }), "1 MiB");
    assert_eq!(
        app.state.status.message,
        "已清理 3 个文件（1 MiB），1 个删除失败（检查目录权限）"
    );
    app.cache_cleared(Ok(CacheReport { removed_files: 0, failed: 0 }), "0 B");
    assert_eq!(app.state.status.message, "缓存已经是空的");
    app.cache_cleared(Ok(CacheReport { removed_files: 2, failed: 0 }), "9 B");
    assert_eq!(app.state.status.message, "已清理缓存：2 个文件，释放 9 B");
    app.cache_cleared(Err(AppError::Config("x".to_string())), "");
    assert_eq!(app.state.status.level, StatusLevel::Error);
}

#[test]
fn the_start_asks_for_what_is_missing() {
    let mut app = app();
    app.start("http://h", true);
    assert_eq!(app.state.status.message, "音频线程启动失败，播放不可用（详见日志）");
    let orders = app.take_orders();
    assert!(matches!(orders[0], Order::FetchFingerprint));
    assert!(matches!(orders[1], Order::MeasureCache));
    assert_eq!(orders.len(), 2);
    app.startup_search("词");
    assert!(matches!(&app.take_orders()[0], Order::Search { keyword, .. } if keyword == "词"));
}

#[test]
fn artists_are_chosen_by_region() {
    let mut app = app();
    app.handle_action(Action::CycleArtistFilter, 0);
    assert_eq!(app.state.status.message, "按 f 可筛选歌手地区，请先切到「歌手」标签页");
    app.handle_action(Action::Digit(4), 0);
    app.take_orders();
    for (region, name) in [(1, "华语"), (2, "欧美"), (3, "日韩"), (4, "其他"), (0, "全部")] {
        app.handle_action(Action::CycleArtistFilter, 0);
        assert_eq!(app.state.status.message, format!("歌手地区筛选：{name}"));
        match app.take_orders()[0] {
            Order::LoadArtists { region: asked } => assert_eq!(asked, region),
            ref other => panic!("{other:?}"),
        }
    }
}

#[test]
fn lyrics_out_of_order_are_noticed() {
    let line = |time_ms: u64| LyricLine {
        time_ms,
        text: "x".to_string(),
        translation: None,
        romanization: None,
    };
    let sound = Loaded::Lyric {
        hash: "h".to_string(),
        lyric: Lyric { lines: vec![line(1), line(1), line(3)] },
    };
    assert!(sound.is_sound());
    let wrong = Loaded::Lyric {
        hash: "h".to_string(),
        lyric: Lyric { lines: vec![line(2), line(1)] },
    };
    assert!(!wrong.is_sound());
}

#[test]
fn progress_is_told_in_steps_and_at_the_end() {
    assert!(!tells_progress(0, 262_143, None));
    assert!(tells_progress(0, 262_144, None));
    assert!(tells_progress(262_144, 262_145, Some(262_145)));
    assert!(!tells_progress(9, 3, Some(10)));
}

#[test]
fn runs_go_on_where_the_last_one_ended() {
    let mut last = app();
    playing(&mut last, 3, 1);
    last.tick(SoundState {
        playback: PlaybackState::Playing,
        position_ms: 42_000,
        duration_ms: 180_000,
    });
    last.state.account.vip_claimed_day = Some("2026-09-23".to_string());
    let kept = last.session();
    assert_eq!(kept.queue.len(), 3);
    assert_eq!(kept.cursor, Some(1));
    assert_eq!(kept.position_ms, 42_000);

    let mut next = app();
    next.restore(last.session());
    assert_eq!(next.state.player.queue.cursor(), Some(1));
    assert_eq!(next.state.account.vip_claimed_day.as_deref(), Some("2026-09-23"));
    assert_eq!(next.session().position_ms, 42_000);
    next.handle_action(Action::PlayPause, 0);
    assert_eq!(next.state.player.position_ms, 42_000);
    assert!(next
        .take_orders()
        .iter()
        .any(|order| matches!(order, Order::Resolve { start_at_ms: 42_000, .. })));

    let mut other = app();
    other.restore(last.session());
    other.handle_action(Action::Next, 0);
    assert_eq!(other.state.player.position_ms, 0);
    other.handle_action(Action::Prev, 0);
    assert_eq!(other.state.player.position_ms, 0);
    assert_eq!(other.state.player.current.as_ref().unwrap().hash, "H1");
}

#[test]
fn kept_songs_after_a_trial_part_lead_on() {
    let mut app = app();
    playing(&mut app, 3, 0);
    app.state.player.current_is_trial = true;
    app.handle_action(Action::Next, 0);
    assert!(!app.state.player.current_is_trial);
    app.handle_audio_event(AudioEvent::Ready { duration_ms: 1_000 }, 0);
    app.handle_audio_event(AudioEvent::TrackFinished, 0);
    assert_eq!(app.state.player.queue.cursor(), Some(2));
}

#[test]
fn a_forced_quit_stays_outside_the_help() {
    let mut app = app();
    app.handle_action(Action::ForceQuit, 0);
    app.handle_action(Action::Quit, 0);
    assert!(app.state.status.should_quit);
    assert!(app.state.status.force_quit);
    app.handle_action(Action::Help, 0);
    app.handle_action(Action::Quit, 0);
    assert!(!app.state.status.force_quit);
}

#[test]
fn the_start_claims_no_connection() {
    let mut app = app();
    app.announce_readiness("http://127.0.0.1:3000");
    assert_eq!(
        app.state.status.message,
        "接口地址 http://127.0.0.1:3000（未登录，云端歌单不可用）"
    );
    assert_eq!(app.state.account.connection, Connection::Unknown);
}

#[test]
fn songs_found_by_their_own_number_need_no_place_in_a_playlist() {
    let mut app = logged_in();
    app.state.account.sync_target = Some(playlist(Some(9)));
    let found = vec![Song { source: SourceKind::Netease, ..song("123") }];
    app.handle_loaded(search_outcome("word".to_string(), false, Ok(found)));
    app.handle_action(Action::OpenSearch, 0);
    app.handle_action(Action::Cancel, 0);
    app.handle_action(Action::FocusNext, 0);
    app.take_orders();
    app.handle_action(Action::RemoveFromCloud, 0);
    match &app.take_orders()[0] {
        Order::RemoveTrack { list_id, song, playlist, .. } => {
            assert_eq!(*list_id, 9);
            assert_eq!(song.hash, "123");
            assert_eq!(playlist.name, "mine");
        }
        other => panic!("{other:?}"),
    }
}

#[test]
fn the_quality_goes_round() {
    let mut app = app();
    app.handle_action(Action::CycleQuality, 0);
    assert_eq!(app.state.config.quality, "320");
    assert_eq!(app.state.status.message, "音质：较高 320kbps（下一首生效）");
    assert!(matches!(app.take_orders()[0], Order::SaveConfig));
    app.state.config.quality = "unknown".to_string();
    app.handle_action(Action::CycleQuality, 0);
    assert_eq!(app.state.config.quality, "unknown");
}

#[test]
fn arrows_change_the_selected_setting() {
    let mut app = app();
    app.handle_action(Action::OpenSettings, 0);
    app.take_orders();
    app.handle_action(Action::SeekForward, 0);
    assert_eq!(app.state.config.theme, Theme::Graphite);
    assert_eq!(app.state.status.message, "已修改设置：主题");
    app.handle_action(Action::SeekBackward, 0);
    app.handle_action(Action::SeekBackward, 0);
    assert_eq!(app.state.config.theme, Theme::DarkPurple);
    assert_eq!(app.take_orders().len(), 3);

    let row = |setting: Setting| {
        Setting::ALL.iter().position(|other| *other == setting).expect("a setting")
    };
    app.state.pages.settings_cursor = row(Setting::PlaybackMode);
    app.handle_action(Action::SeekBackward, 0);
    assert_eq!(app.state.config.playback_mode, PlaybackMode::Shuffle);
    assert_eq!(app.state.player.queue.mode(), PlaybackMode::Shuffle);
    app.state.pages.settings_cursor = row(Setting::CacheLimitMib);
    app.handle_action(Action::SeekForward, 0);
    assert_eq!(app.state.config.cache_limit_mib, 1024);
    app.state.pages.settings_cursor = row(Setting::LyricOffsetMs);
    app.state.config.lyric_offset_ms = 4_950;
    app.handle_action(Action::SeekForward, 0);
    assert_eq!(app.state.config.lyric_offset_ms, 5_000);
    app.state.pages.settings_cursor = row(Setting::DownloadDir);
    app.handle_action(Action::SeekForward, 0);
    assert_eq!(app.state.config.download_dir.as_deref(), Some("~/Downloads"));
    app.state.pages.settings_cursor = row(Setting::CoverFill);
    app.handle_action(Action::SeekBackward, 0);
    assert_eq!(app.state.config.cover_fill, CoverFill::Fit);
    app.state.pages.settings_cursor = row(Setting::Sidebar);
    let shown = app.state.screen.sidebar_visible;
    app.handle_action(Action::SeekForward, 0);
    assert_eq!(app.state.screen.sidebar_visible, !shown);
    app.take_orders();

    app.state.pages.settings_cursor = row(Setting::AudioDevice);
    app.handle_action(Action::SeekForward, 0);
    let orders = app.take_orders();
    assert_eq!(orders.len(), 1);
    assert!(matches!(orders[0], Order::ListDevices { forward: true }));
    app.choose_device(&device_options(&["hw:1".to_string()]), true);
    assert_eq!(app.state.config.audio_device.as_deref(), Some("hw:1"));
    assert!(matches!(
        &app.take_orders()[1],
        Order::OpenDevice { device: Some(name) } if name == "hw:1"
    ));
    app.choose_device(&device_options(&[]), true);
    assert_eq!(app.state.config.audio_device.as_deref(), Some("hw:1"));
    assert_eq!(app.state.status.message, "当前输出设备不在列表里，保持不变");
}

#[test]
fn services_are_preferred_and_ordered_on_their_page() {
    let mut app = app();
    app.handle_action(Action::RaiseSourcePriority, 0);
    assert_eq!(app.state.status.message, "请先在「音源」页选中一个音源");
    app.handle_action(Action::Digit(8), 0);
    app.take_orders();
    app.handle_action(Action::SetDefaultSource, 0);
    assert_eq!(app.state.status.message, "「酷狗」已经是默认音源");
    app.handle_action(Action::RaiseSourcePriority, 0);
    assert_eq!(app.state.status.message, "「酷狗」已经排在最前");
    app.handle_action(Action::LowerSourcePriority, 0);
    assert_eq!(
        app.state.config.sources.ordered(),
        [SourceKind::KugouConcept, SourceKind::Kugou, SourceKind::Netease]
    );
    assert_eq!(app.state.pages.sources_cursor.selected(), Some(1));
    assert!(matches!(app.take_orders()[0], Order::SaveConfig));
    app.state.pages.sources_cursor.select(Some(2));
    app.handle_action(Action::SetDefaultSource, 0);
    assert_eq!(app.state.config.active_source_kind(), SourceKind::Netease);
    assert!(matches!(
        app.take_orders()[1],
        Order::RebuildClient { kind: SourceKind::Netease }
    ));
}

#[test]
fn the_membership_of_a_day_is_claimed_once() {
    let mut app = logged_in();
    app.handle_action(Action::ClaimVip, 0);
    assert!(matches!(app.take_orders()[0], Order::AskDay { manual: true }));
    app.claim_vip("2026-09-23", true);
    assert_eq!(app.state.status.message, "只有酷狗概念版音源能领取每日 VIP，按 v 切换音源");
    app.state.config.sources.active = SourceKind::KugouConcept;
    app.claim_vip("2026-09-23", false);
    assert!(app.state.account.vip_claiming);
    assert!(matches!(
        &app.take_orders()[0],
        Order::ClaimVip { day } if day == "2026-09-23"
    ));
    app.claim_vip("2026-09-23", false);
    assert!(app.take_orders().is_empty());
    app.handle_loaded(Loaded::VipClaimFailed { message: "风控".to_string() });
    assert!(!app.state.account.vip_claiming);
    assert_eq!(app.state.status.message, "领取今日 VIP 失败：风控");
    app.handle_loaded(Loaded::VipClaimed { day: "2026-09-23".to_string() });
    app.take_orders();
    app.claim_vip("2026-09-23", true);
    assert!(app.take_orders().is_empty());
    assert_eq!(app.state.status.message, "今天的 VIP 已经领过了");
    app.claim_vip("2026-09-24", false);
    assert_eq!(app.take_orders().len(), 1);
}

#[test]
fn songs_are_saved_in_the_chosen_quality() {
    let mut app = app();
    app.handle_action(Action::DownloadCurrent, 0);
    assert_eq!(app.state.status.message, "当前没有正在播放的歌曲");
    playing(&mut app, 1, 0);
    app.state.player.current.as_mut().unwrap().name = "a/b".to_string();
    app.handle_action(Action::DownloadCurrent, 0);
    assert!(app.state.dialogs.quality_picker.is_some());
    app.handle_action(Action::Next, 0);
    assert!(app.take_orders().is_empty());
    app.handle_action(Action::MoveDown, 0);
    app.handle_action(Action::MoveDown, 0);
    app.handle_action(Action::Submit, 0);
    match &app.take_orders()[0] {
        Order::SaveSong { song, quality, dir, name } => {
            assert_eq!(song.hash, "H0");
            assert_eq!(quality, "flac");
            assert_eq!(*dir, None);
            assert_eq!(name, "a_b");
        }
        other => panic!("{other:?}"),
    }
    app.handle_loaded(Loaded::SongSaved { song: song("H0"), path: "/m/x.mp3".to_string() });
    assert_eq!(app.state.status.message, "已下载《song H0》到 /m/x.mp3");
    assert_eq!(app.state.status.busy, None);
}

#[test]
fn menus_act_on_the_song_they_were_opened_for() {
    let mut app = app();
    app.handle_action(Action::ContextMenu, 0);
    assert_eq!(app.state.status.message, "当前没有选中的歌曲");
    playing(&mut app, 3, 0);
    app.state.screen.focus = Focus::Queue;
    app.state.player.queue_cursor.select(Some(2));
    app.handle_action(Action::ContextMenu, 0);
    assert_eq!(app.state.dialogs.context_menu.as_ref().unwrap().song.hash, "H2");
    app.state.player.queue_cursor.select(Some(0));
    app.handle_action(Action::MoveUp, 0);
    app.handle_action(Action::MoveDown, 0);
    app.handle_action(Action::Submit, 0);
    assert!(app.state.dialogs.context_menu.is_none());
    assert_eq!(app.state.player.queue.cursor(), Some(2));
    assert_eq!(app.state.player.current.as_ref().unwrap().hash, "H2");

    app.state.player.queue_cursor.select(Some(1));
    app.handle_action(Action::ContextMenu, 0);
    app.handle_action(Action::MoveDown, 0);
    app.handle_action(Action::MoveDown, 0);
    app.handle_action(Action::Submit, 0);
    assert_eq!(app.state.player.queue.len(), 2);
    assert_eq!(app.state.player.queue.items()[1].hash, "H2");
}

#[test]
fn the_right_button_opens_the_menu() {
    let mut app = app();
    playing(&mut app, 3, 0);
    let rect = Rect { x: 0, y: 2, width: 10, height: 5 };
    app.state.add_hit_zone(rect, HitTarget::Queue, 0, 3);
    app.handle_mouse(MouseEvent { kind: MouseKind::RightDown, column: 1, row: 3 }, 0);
    assert_eq!(app.state.screen.focus, Focus::Queue);
    assert_eq!(app.state.dialogs.context_menu.as_ref().unwrap().song.hash, "H1");
    app.handle_action(Action::Cancel, 0);
    assert!(app.state.dialogs.context_menu.is_none());
}

#[test]
fn a_positive_offset_shows_the_lyric_earlier() {
    let mut app = app();
    playing(&mut app, 1, 0);
    let lyric = parse_lrc("[00:01.00]one\n[00:05.00]two\n");
    app.handle_loaded(lyric_outcome("H0".to_string(), Ok(lyric)));
    let sound = SoundState {
        playback: PlaybackState::Playing,
        position_ms: 4_500,
        duration_ms: 0,
    };
    let mut marked = Vec::new();
    for offset in [-4_000, 0, 1_000] {
        app.state.config.lyric_offset_ms = offset;
        app.tick(sound);
        marked.push(app.state.player.lyric.active_line);
    }
    assert_eq!(marked, [None, Some(0), Some(1)]);
}

#[test]
fn it_is_asked_where_to_log_in() {
    let mut app = logged_in();
    app.handle_action(Action::Login, 0);
    let picker = app.state.dialogs.login_picker.as_ref().expect("a choice");
    assert_eq!(picker.candidates, SourceKind::ALL);
    assert_eq!(picker.selected(), Some(SourceKind::Kugou));
    app.handle_action(Action::Digit(3), 0);
    app.handle_action(Action::Next, 0);
    assert_eq!(app.state.screen.tab, Tab::Home);
    assert!(app.take_orders().is_empty());
    app.handle_action(Action::Cancel, 0);
    assert!(app.state.dialogs.login_picker.is_none());
    assert_eq!(app.state.status.message, "已取消登录");

    app.handle_action(Action::Login, 0);
    app.handle_action(Action::Submit, 0);
    assert_eq!(app.state.dialogs.pending_confirm, Some(ConfirmAction::Relogin));
    app.handle_action(Action::Cancel, 0);

    app.handle_action(Action::Login, 0);
    app.handle_action(Action::MoveDown, 0);
    app.handle_action(Action::MoveDown, 0);
    app.handle_action(Action::MoveDown, 0);
    app.handle_action(Action::Submit, 0);
    assert_eq!(app.state.config.active_source_kind(), SourceKind::Netease);
    let orders = app.take_orders();
    assert!(matches!(orders[1], Order::RebuildClient { kind: SourceKind::Netease }));
    assert!(matches!(orders[2], Order::AskQr));
    assert!(app.state.account.login.is_some());
}

#[test]
fn codes_are_not_asked_for_too_often() {
    let mut app = app();
    let log_in = |app: &mut App| {
        app.handle_action(Action::Login, 0);
        app.handle_action(Action::Submit, 0);
        app.take_orders();
    };
    app.request_code(1_000);
    assert!(app.take_orders().is_empty());
    log_in(&mut app);
    app.request_code(1_000);
    assert!(matches!(app.take_orders()[0], Order::FetchQr));
    app.handle_action(Action::Cancel, 0);
    log_in(&mut app);
    app.request_code(10_999);
    assert!(app.take_orders().is_empty());
    assert_eq!(
        app.state.account.login.as_ref().unwrap().message,
        "登录请求过于频繁，稍后自动获取二维码…"
    );
    app.state.status.ticks = 9;
    app.tick(SoundState { playback: PlaybackState::Stopped, position_ms: 0, duration_ms: 0 });
    assert!(app.take_orders().iter().any(|order| matches!(order, Order::AskQr)));
    app.request_code(11_000);
    assert!(matches!(app.take_orders()[0], Order::FetchQr));
}

#[test]
fn a_profile_that_failed_is_asked_for_again() {
    let mut app = logged_in();
    app.start("http://h", false);
    assert!(app.take_orders().iter().any(|order| matches!(order, Order::FetchUser)));
    assert!(app.state.account.user_info_load.is_loading());
    let rect = Rect { x: 0, y: 0, width: 10, height: 1 };
    app.state.add_hit_zone(rect, HitTarget::ProfileRetry, 0, 1);
    let click = MouseEvent { kind: MouseKind::LeftDown, column: 1, row: 0 };
    app.handle_mouse(click, 0);
    assert!(app.take_orders().is_empty());
    app.handle_loaded(Loaded::UserInfoFailed { error: unreachable_server() });
    assert!(app.state.account.user_info_load.error().is_some());
    assert_eq!(app.state.account.connection, Connection::Unreachable);
    app.handle_mouse(click, 0);
    assert!(matches!(app.take_orders()[0], Order::FetchUser));
    assert!(app.state.account.user_info_load.is_loading());
    app.handle_loaded(Loaded::UserInfo(UserInfo::default()));
    assert!(!app.state.account.user_info_load.is_loading());
}
