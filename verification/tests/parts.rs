use kugou_tui::cache::over_limit;
use kugou_tui::catalog::StreamUrl;
use kugou_tui::client::{read_json, ApiClient, Mode, Request, RetryPolicy};
use kugou_tui::cloud::{claim_day, upgrade_day, VipInfo, VipKind};
use kugou_tui::config::{Config, Surroundings};
use kugou_tui::download::{cache_path, is_file_path, Downloader, Ending};
use kugou_tui::engine::{AudioEvent, Engine, PlaybackState};
use kugou_tui::error::AppError;
use kugou_tui::fetch::{has_more, lyric_request, playlist_page, stream_plan, StreamPlan};
use kugou_tui::json::{value_to_i64, Json};
use kugou_tui::keymap::Action;
use kugou_tui::levels::{AudioLevels, LevelMeter, SampleWindow, LEVEL_BUCKETS, WINDOW_SIZE};
use kugou_tui::logger;
use kugou_tui::lyric::{extract_lyric_text, parse_lrc, read_lyric};
use kugou_tui::model::{Artist, Playlist, RankBoard, Singer, Song};
use kugou_tui::mpris::{on_pause, on_play, on_seek, on_set_position};
use kugou_tui::panes::{
    artist_subtitle, paint_cover, playlist_subtitle, rank_subtitle, ContextMenu, CoverArt,
    CoverPaint, MenuAction,
};
use kugou_tui::qqmusic;
use kugou_tui::queue::{random_below, PlayQueue, PlaybackMode};
use kugou_tui::session::Session;
use kugou_tui::settings::cycle;
use kugou_tui::source::{Feature, SourceKind, SourceSet};
use kugou_tui::tab::Rect;
use kugou_tui::text::{parse_u64, to_chars, write_u64};
use kugou_tui::update::App;

fn text(value: &str) -> Json {
    Json::Text(value.to_string())
}

fn object(members: Vec<(&str, Json)>) -> Json {
    Json::Object(members.into_iter().map(|(key, value)| (key.to_string(), value)).collect())
}

#[test]
fn documents_are_read_from_text() {
    let root = read_json("/x", 200, r#"{"data":{"a":[1,-2,18446744073709551615,1.5,"s",null,true]}}"#)
        .unwrap();
    let items = root.get("data").and_then(|data| data.get("a")).and_then(|a| a.as_array()).unwrap();
    assert_eq!(value_to_i64(&items[0]), Some(1));
    assert_eq!(value_to_i64(&items[1]), Some(-2));
    assert_eq!(value_to_i64(&items[2]), Some(i64::MAX));
    assert_eq!(value_to_i64(&items[3]), Some(1));
    assert_eq!(items[4].as_str(), Some("s"));
    assert!(matches!(items[5], Json::Null));
    assert_eq!(value_to_i64(&items[6]), Some(1));
}

#[test]
fn answers_that_are_no_documents_are_refused() {
    assert!(matches!(
        read_json("/x", 200, "<html>"),
        Err(AppError::NonJsonBody { status: 200, .. })
    ));
    assert!(matches!(
        read_json("/x", 502, "<html>"),
        Err(AppError::HttpStatus { status: 502, .. })
    ));
}

#[test]
fn numbers_with_fractions_are_cut() {
    assert_eq!(value_to_i64(&text(" 12.9 ")), Some(12));
    assert_eq!(value_to_i64(&text("-1e2")), Some(-100));
    assert_eq!(value_to_i64(&text("twelve")), None);
}

#[test]
fn lyrics_with_broken_bytes_are_still_shown() {
    let root = object(vec![("content", text("YWL/"))]);
    assert_eq!(extract_lyric_text(&root), "ab\u{fffd}");
    assert!(matches!(
        read_lyric(r#"{"status":1,"decodeContent":""}"#.to_string(), &Song::default()),
        Err(_)
    ));
}

#[test]
fn memberships_are_shown_in_capitals() {
    let info = VipInfo {
        kind: VipKind::Concept,
        product: "svip".to_string(),
        end_time: "2026-09-21 10:00:00".to_string(),
    };
    assert_eq!(info.label(), "概念版 SVIP · 至 09-21");
    assert_eq!(VipInfo::default().label(), "非会员");
}

#[test]
fn names_in_the_cache_are_in_small_letters() {
    let song = Song { hash: "ÄBC".to_string(), ..Song::default() };
    assert_eq!(song.cache_key("flac"), "äbc-flac");
    assert_eq!(song.trial_cache_key("flac"), "äbc-flac-trial");
}

#[test]
fn chance_stays_below_its_bound() {
    for bound in 1..50 {
        assert!(random_below(bound) < bound);
    }
}

#[test]
fn shuffled_queues_move_on() {
    let mut queue = PlayQueue::new(PlaybackMode::Shuffle);
    let songs: Vec<Song> = (0..5).map(|_| Song::default()).collect();
    queue.replace_with(songs, 3);
    assert_eq!(queue.advance_with(true, 3), Some(4));
    assert_eq!(queue.advance_with(true, 4), Some(0));
    assert_eq!(queue.retreat_with(2), Some(2));
}

#[test]
fn numbers_are_written_and_read() {
    for n in [0u64, 7, 10, 12345, u64::MAX] {
        assert_eq!(parse_u64(&to_chars(&write_u64(n))), Some(n));
    }
}

#[test]
fn addresses_have_no_slash_at_the_end() {
    let mut client = ApiClient::new("http://h:3000//", Some("  ".to_string()));
    assert_eq!(client.base(), "http://h:3000");
    assert_eq!(client.url("/search"), "http://h:3000/search");
    assert_eq!(client.cookie(), None);
    client.set_cookie(Some("a=b".to_string()));
    assert_eq!(client.cookie(), Some("a=b"));
}

#[test]
fn downloads_take_their_name_at_the_end() {
    let target = cache_path("/c", "k-128", "mp3");
    assert_eq!(target, "/c/k-128.mp3");
    let mut download =
        Downloader::answered("u".to_string(), target.clone(), 200, Some(300_000)).unwrap();
    assert_eq!(download.chunk_written(1_000), None);
    assert_eq!(download.chunk_written(261_144), Some((262_144, Some(300_000))));
    assert_eq!(download.chunk_written(37_856), Some((300_000, Some(300_000))));
    let (ending, result) = download.finish(Ok(()));
    assert_eq!(result.unwrap(), 300_000);
    assert!(matches!(
        ending,
        Ending::Rename { from, to } if from == "/c/k-128.mp3.part" && to == "/c/k-128.mp3"
    ));
}

#[test]
fn broken_downloads_leave_nothing() {
    assert!(matches!(
        Downloader::answered("u".to_string(), "/c/a".to_string(), 404, None),
        Err(AppError::HttpStatus { status: 404, .. })
    ));
    let empty = Downloader::answered("u".to_string(), "/c/a".to_string(), 200, None).unwrap();
    let (ending, result) = empty.finish(Ok(()));
    assert!(matches!(ending, Ending::Remove { path } if path == "/c/a.part"));
    assert!(matches!(
        result,
        Err(AppError::Audio(words))
            if words == "从 u 下载到的内容为空，可能该歌曲需要 VIP 或已下架"
    ));
    let broken = Downloader::answered("u".to_string(), "/c/a".to_string(), 206, None).unwrap();
    let (ending, result) = broken.finish(Err(AppError::Io("x".to_string())));
    assert!(matches!(ending, Ending::Remove { .. }));
    assert!(matches!(result, Err(AppError::Io(_))));
}

#[test]
fn rings_keep_what_came_last() {
    let mut window = SampleWindow::new();
    for n in 0..(WINDOW_SIZE as u32 + 3) {
        window.push(n);
    }
    let samples = window.snapshot();
    assert_eq!(samples.len(), WINDOW_SIZE);
    assert_eq!(samples[0], 3);
    assert_eq!(samples[WINDOW_SIZE - 1], WINDOW_SIZE as u32 + 2);
    window.clear();
    assert!(window.snapshot().iter().all(|sample| *sample == 0));

    let mut levels = AudioLevels::new();
    levels.push(2_000);
    levels.push(5);
    levels.push_sample(9);
    levels.set_sample_rate(44_100);
    let peaks = levels.snapshot();
    assert_eq!(peaks[LEVEL_BUCKETS - 2], 1_000);
    assert_eq!(peaks[LEVEL_BUCKETS - 1], 5);
    assert_eq!(levels.samples()[WINDOW_SIZE - 1], 9);
    assert_eq!(levels.sample_rate(), 44_100);
    levels.clear();
    assert!(levels.snapshot().iter().all(|peak| *peak == 0));
}

#[test]
fn the_meter_keeps_one_channel() {
    let mut meter = LevelMeter::new(2);
    let mut kept = 0;
    let mut complete = 0;
    for _ in 0..2_600 {
        let (keep, done) = meter.step();
        kept += usize::from(keep);
        complete += usize::from(done);
    }
    assert_eq!(kept, 1_300);
    assert_eq!(complete, 2);
}

#[test]
fn log_lines_carry_the_moment() {
    assert_eq!(
        logger::line("WARN", "x", 1_789_875_855, false).as_deref(),
        Some("2026-09-20 03:44:15Z [WARN] x")
    );
    assert_eq!(logger::line("DEBUG", "x", 0, false), None);
    assert_eq!(
        logger::line("DEBUG", "x", 951_782_400, true).as_deref(),
        Some("2000-02-29 00:00:00Z [DEBUG] x")
    );
    assert_eq!(logger::civil_from_unix(-1), (1969, 12, 31, 23, 59, 59));
    assert_eq!(logger::civil_from_unix(4_107_542_400), (2100, 3, 1, 0, 0, 0));
    assert!(logger::debug_enabled(Some("1")));
    assert!(!logger::debug_enabled(Some("0")));
    assert!(!logger::debug_enabled(Some("")));
    assert!(!logger::debug_enabled(None));
}

#[test]
fn the_desktop_may_ask() {
    assert_eq!(on_play(PlaybackState::Playing), None);
    assert_eq!(on_play(PlaybackState::Paused), Some(Action::PlayPause));
    assert_eq!(on_pause(PlaybackState::Playing), Some(Action::PlayPause));
    assert_eq!(on_pause(PlaybackState::Stopped), None);
    assert_eq!(on_set_position(-1), None);
    assert_eq!(on_set_position(61_000_999), Some(Action::SeekTo(61_000)));
    assert_eq!(on_seek(999), None);
    assert_eq!(on_seek(-999), None);
    assert_eq!(on_seek(-5_000_999), Some(Action::SeekBy(-5_000)));
    assert_eq!(on_seek(3_600_000_000), Some(Action::SeekBy(3_600_000)));
}

#[test]
fn the_desktop_sees_the_song() {
    let mut app = App::new(Config::default());
    assert_eq!(app.now_playing().title, "");
    let song = Song {
        name: "n".to_string(),
        singers: vec![Singer { id: 1, name: "s".to_string() }],
        cover: Some("http://c/{size}.jpg".to_string()),
        duration_ms: 90_000,
        ..Song::default()
    };
    app.play_from(vec![song], 0);
    let loading = app.now_playing();
    assert_eq!(loading.title, "n");
    assert_eq!(loading.artists, vec!["s"]);
    assert_eq!(loading.art_url.as_deref(), Some("http://c/400.jpg"));
    assert_eq!(loading.duration_us, 90_000_000);
    assert_eq!(loading.status_str(), "Stopped");
    assert!(loading.has_changed(None));
    assert!(!loading.has_changed(Some(&loading)));
    app.handle_audio_event(AudioEvent::Ready { duration_ms: 0 }, 0);
    let begun = app.now_playing();
    assert_eq!(begun.status_str(), "Playing");
    assert!(begun.has_changed(Some(&loading)));
    app.state.player.position_ms = 1_000;
    assert!(!app.now_playing().has_changed(Some(&begun)));
    app.state.player.position_ms = 1_001;
    assert!(app.now_playing().has_changed(Some(&begun)));
}

#[test]
fn settings_are_shown_line_by_line() {
    let mut config = Config::default();
    config.cache_limit_mib = 0;
    config.switch_source(SourceKind::KugouConcept);
    let lines = config.report(&Surroundings {
        version: "0.1.0".to_string(),
        config_path: "/c".to_string(),
        log_path: "/l".to_string(),
        volume: "80%".to_string(),
    });
    assert_eq!(lines.len(), 16);
    assert_eq!(lines[0], "kugou-tui 0.1.0");
    assert_eq!(lines[3], "API 地址  : http://127.0.0.1:3001");
    assert_eq!(lines[4], "当前音源  : 酷狗概念版（服务端需 platform=lite）");
    assert_eq!(lines[5], "登录状态  : 未登录（云端歌单不可用）");
    assert_eq!(lines[6], "设备指纹  : （尚未获取）");
    assert_eq!(lines[11], "缓存上限  : 不限");
    assert_eq!(lines[12], "刷新间隔  : 200 ms");
    assert_eq!(lines[15], "16 色模式 : 否");
}

#[test]
fn leaving_a_service_keeps_its_login() {
    let mut config = Config::default();
    config.cookie = Some("token=a".to_string());
    config.dfid = Some("d".to_string());
    assert_eq!(config.cookie_header().as_deref(), Some("token=a; dfid=d"));
    config.sync_active_source();
    config.switch_source(SourceKind::Netease);
    assert!(!config.is_logged_in());
    config.sync_active_source();
    config.switch_source(SourceKind::Kugou);
    assert_eq!(config.cookie.as_deref(), Some("token=a"));
    assert_eq!(config.dfid.as_deref(), Some("d"));
}

#[test]
fn services_follow_by_priority() {
    let mut set = SourceSet::default();
    assert_eq!(set.next_enabled(), SourceKind::KugouConcept);
    set.netease.priority = 5;
    assert_eq!(set.next_enabled(), SourceKind::Netease);
    assert_eq!(
        set.ordered(),
        vec![SourceKind::Kugou, SourceKind::Netease, SourceKind::KugouConcept]
    );
    set.active = SourceKind::KugouConcept;
    assert_eq!(set.next_enabled(), SourceKind::Kugou);
    set.kugou.enabled = false;
    set.netease.enabled = false;
    assert_eq!(set.next_enabled(), SourceKind::KugouConcept);
    assert_eq!(set.enabled(), vec![SourceKind::KugouConcept]);
}

#[test]
fn services_say_what_they_cannot_do() {
    assert!(SourceKind::Kugou.supports(Feature::Plaza).is_ok());
    let error = SourceKind::Netease.supports(Feature::Plaza).unwrap_err();
    assert_eq!(error.describe(), "当前音源不支持歌单广场（网易云）");
}

#[test]
fn songs_are_read_by_service() {
    let root = object(vec![(
        "data",
        object(vec![(
            "songs",
            Json::Array(vec![object(vec![("id", Json::Int(5)), ("name", text("n"))])]),
        )]),
    )]);
    let songs = SourceKind::Netease.read_songs(&root);
    assert_eq!(songs.len(), 1);
    assert_eq!(songs[0].hash, "5");
    assert_eq!(songs[0].source, SourceKind::Netease);
    let root = object(vec![(
        "data",
        object(vec![(
            "lists",
            Json::Array(vec![object(vec![("FileHash", text("H")), ("SongName", text("n"))])]),
        )]),
    )]);
    assert_eq!(
        SourceKind::KugouConcept.read_songs(&root)[0].source,
        SourceKind::KugouConcept
    );
}

#[test]
fn playlists_are_asked_for_by_number_or_name() {
    let mut list = Playlist {
        id: "gid".to_string(),
        list_id: Some(8),
        name: String::new(),
        cover: None,
        song_count: 12,
        creator: Some("c".to_string()),
        description: None,
        is_own: true,
    };
    assert_eq!(playlist_page(&list, 2).path, "/playlist/track/all/new");
    assert_eq!(playlist_subtitle(&list), "12 首 · by c · 可写");
    list.is_own = false;
    list.song_count = 0;
    assert_eq!(playlist_page(&list, 2).path, "/playlist/track/all");
    assert_eq!(playlist_subtitle(&list), "by c");
    assert!(has_more(30));
    assert!(!has_more(29));
}

#[test]
fn entries_have_their_notes() {
    let artist = Artist {
        id: 1,
        name: String::new(),
        avatar: None,
        song_count: Some(0),
        follower_count: Some(7),
    };
    assert_eq!(artist_subtitle(&artist), "7 粉丝");
    let mut board = RankBoard {
        id: 8888,
        name: String::new(),
        cover: None,
        update_frequency: None,
    };
    assert_eq!(rank_subtitle(&board), "#8888");
    board.update_frequency = Some("每日".to_string());
    assert_eq!(rank_subtitle(&board), "每日");
}

#[test]
fn covers_are_prepared_and_drawn_once() {
    let area = Rect { x: 0, y: 0, width: 10, height: 5 };
    let mut cover = CoverArt::default();
    assert_eq!(cover.fit_to("fill", area), None);
    cover.set_image("h".to_string());
    assert_eq!(cover.fit_to("fill", area), Some(true));
    assert_eq!(cover.fit_to("fill", area), Some(false));
    assert_eq!(cover.fit_to("fit", area), Some(true));
    assert_eq!(paint_cover(Some(("h", area)), Some(("h", area))), CoverPaint::Keep);
    assert_eq!(
        paint_cover(None, Some(("h", area))),
        CoverPaint::Change { erase: true, draw: false }
    );
    let flat = Rect { height: 0, ..area };
    assert_eq!(
        paint_cover(Some(("h", flat)), None),
        CoverPaint::Change { erase: false, draw: false }
    );
}

#[test]
fn menus_go_round() {
    let mut menu = ContextMenu::new(Song::default(), true);
    assert_eq!(menu.items.len(), 5);
    assert_eq!(menu.items[2], MenuAction::RemoveFromQueue);
    menu.move_cursor(-1);
    assert_eq!(menu.selected(), Some(MenuAction::Download));
    menu.move_cursor(1);
    assert_eq!(menu.selected(), Some(MenuAction::Play));
    assert_eq!(MenuAction::AddToCloud.key_hint(), "s");
}

#[test]
fn sessions_have_their_place() {
    assert_eq!(Session::path("/c"), "/c/session.json");
    assert_eq!(Session::path("/c/"), "/c/session.json");
    assert!(Session::default().is_empty());
}

#[test]
fn qq_songs_are_read() {
    let value = object(vec![
        ("songmid", text("m")),
        ("songname", text("n")),
        ("interval", Json::Int(200)),
        ("album", object(vec![("mid", text("a")), ("name", text("an"))])),
        ("singer", Json::Array(vec![object(vec![("id", Json::Int(3)), ("name", text("s"))])])),
    ]);
    let song = qqmusic::song_from_json(&value).unwrap();
    assert_eq!(song.hash, "m");
    assert_eq!(song.duration_ms, 200_000);
    assert_eq!(song.album_name, "an");
    assert_eq!(song.singer_text(), "s");
    assert_eq!(
        song.cover.as_deref(),
        Some("https://y.gtimg.cn/music/photo_new/T002R300x300M000a.jpg")
    );
    assert!(qqmusic::song_from_json(&object(vec![("name", text("n"))])).is_none());
    assert_eq!(qqmusic::bitrate_for("super"), "flac");

    let root = object(vec![(
        "data",
        object(vec![(
            "midUrlInfo",
            Json::Array(vec![object(vec![("purl", text("h/a.m4a"))])]),
        )]),
    )]);
    let StreamUrl { url, is_trial, .. } = qqmusic::read_stream_url(&root, &song).unwrap();
    assert_eq!(url, "https://h/a.m4a");
    assert!(!is_trial);
    let lyric = object(vec![
        ("lyric", text("[00:01.00]a")),
        ("trans", text("[00:01.00]b")),
    ]);
    let lyric = qqmusic::read_lyric(&lyric, &song).unwrap();
    assert_eq!(lyric.lines[0].translation.as_deref(), Some("b"));
    assert!(matches!(
        qqmusic::read_lyric(&object(vec![]), &song),
        Err(AppError::NotFound(words)) if words == "未找到《n》的歌词"
    ));
    assert!(parse_lrc("").is_empty());
}

fn answer(members: Vec<(&str, Json)>) -> Json {
    Json::Object(members.into_iter().map(|(key, value)| (key.to_string(), value)).collect())
}

#[test]
fn refused_changes_are_told_by_each_service_in_its_own_code() {
    let refused = answer(vec![("error_code", Json::Int(30205)), ("code", Json::Int(401))]);
    let path = "/playlist/tracks/add";
    match SourceKind::Kugou.check_tracks_written(path, &refused) {
        Err(AppError::Api { code, .. }) => assert_eq!(code, 30205),
        other => panic!("{other:?}"),
    }
    match SourceKind::Netease.check_tracks_written(path, &refused) {
        Err(AppError::Api { code, .. }) => assert_eq!(code, 401),
        other => panic!("{other:?}"),
    }
    assert!(SourceKind::KugouConcept.check_deleted(&refused).is_ok());
    assert!(SourceKind::Netease.check_deleted(&refused).is_err());
    assert!(SourceKind::Netease.check_deleted(&answer(vec![("code", Json::Int(200))])).is_ok());
}

#[test]
fn created_playlists_are_numbered_by_each_service() {
    let made = answer(vec![("id", Json::Int(7)), ("data", answer(vec![("listid", Json::Int(3))]))]);
    assert_eq!(SourceKind::Kugou.read_created(&made).expect("made"), Some(3));
    assert_eq!(SourceKind::Netease.read_created(&made).expect("made"), Some(7));
    let failed = answer(vec![("code", Json::Int(500))]);
    assert!(SourceKind::Netease.read_created(&failed).is_err());
}

#[test]
fn codes_to_scan_are_read_from_each_service() {
    let key = answer(vec![(
        "data",
        answer(vec![
            ("qrcode", Json::Text("a".to_string())),
            ("unikey", Json::Text("b".to_string())),
        ]),
    )]);
    assert_eq!(SourceKind::Kugou.read_qr_key(&key).expect("key"), "a");
    assert_eq!(SourceKind::Netease.read_qr_key(&key).expect("key"), "b");
    let content = answer(vec![(
        "data",
        answer(vec![
            ("url", Json::Text("c".to_string())),
            ("qrurl", Json::Text("d".to_string())),
        ]),
    )]);
    assert_eq!(SourceKind::Kugou.read_qr_content(&content).expect("content"), "c");
    assert_eq!(SourceKind::Netease.read_qr_content(&content).expect("content"), "d");
    assert!(matches!(SourceKind::Kugou.read_qr_key(&content), Err(AppError::NotFound(_))));
    assert!(matches!(SourceKind::Netease.read_qr_key(&content), Err(AppError::Other(_))));
}

#[test]
fn writes_are_sent_once() {
    let broken = AppError::HttpStatus { path: String::new(), status: 503 };
    let reading = Request::new("/search", Mode::Fresh);
    assert_eq!(RetryPolicy::after_failure_of(&reading, 1, &broken), Some(300));
    assert_eq!(RetryPolicy::after_failure_of(&reading, 3, &broken), None);
    let writing = claim_day("2026-09-23");
    assert_eq!(writing.path, "/youth/day/vip");
    assert_eq!(RetryPolicy::after_failure_of(&writing, 1, &broken), None);
    assert_eq!(RetryPolicy::after_failure_of(&upgrade_day(), 1, &broken), None);
}

#[test]
fn songs_are_asked_for_at_their_own_service() {
    let mut config = Config::default();
    config.cookie = Some("token=a".to_string());
    config.sources.netease.cookie = Some("MUSIC_U=b".to_string());
    let own = Song { hash: "H".to_string(), ..Song::default() };
    let other = Song { source: SourceKind::Netease, hash: "5".to_string(), ..Song::default() };
    let service = config.service_for(&own);
    assert_eq!((service.kind, service.cookie.as_deref()), (SourceKind::Kugou, Some("token=a")));
    let service = config.service_for(&other);
    assert_eq!(service.api_base, "http://127.0.0.1:3002");
    assert_eq!(service.cookie.as_deref(), Some("MUSIC_U=b"));
    assert_eq!(lyric_request(&own).path, "/search/lyric");
    assert_eq!(lyric_request(&other).path, "/lyric");
    match stream_plan(&other, "320") {
        StreamPlan::Direct(request) => assert_eq!(request.path, "/song/url"),
        StreamPlan::Search(..) => panic!("one request is enough"),
    }
    match stream_plan(&own, "320") {
        StreamPlan::Search(_, request) => assert_eq!(request.path, "/privilege/lite"),
        StreamPlan::Direct(_) => panic!("a search is needed"),
    }
}

#[test]
fn expected_lengths_are_taken_in() {
    let mut engine = Engine::new();
    engine.expect_length(90_000);
    assert_eq!(engine.duration_ms, 90_000);
    assert_eq!(engine.state, PlaybackState::Stopped);
}

#[test]
fn paths_of_files_are_told_from_directories() {
    assert!(is_file_path("/music/a.mp3"));
    assert!(!is_file_path("/music/"));
    assert!(!is_file_path("/music/.."));
}

#[test]
fn values_go_round_and_back() {
    let options = [0u64, 256, 512];
    assert_eq!(cycle(&options, 256, 1), Some(512));
    assert_eq!(cycle(&options, 512, -1), Some(256));
    assert_eq!(cycle(&options, 256, 4), Some(512));
    assert_eq!(cycle(&options, 7, 1), None);
}

#[test]
fn trial_parts_of_any_quality_have_names_of_their_own() {
    let song = Song { hash: "AB".to_string(), ..Song::default() };
    assert_eq!(song.trial_cache_key("320"), "ab-320-trial");
    assert_ne!(song.trial_cache_key("320"), song.cache_key("flac"));
}

#[test]
fn the_oldest_files_go_first() {
    let files = [(10, 5), (20, 1), (30, 3), (0, 2)];
    assert_eq!(over_limit(&files, 60), Vec::<usize>::new());
    assert_eq!(over_limit(&files, 59), [1]);
    assert_eq!(over_limit(&files, 39), [1, 3, 2]);
    assert_eq!(over_limit(&files, 0), [1, 3, 2, 0]);
    assert_eq!(over_limit(&[(u64::MAX, 0), (u64::MAX, 0)], u64::MAX), [0]);
    let mut config = Config::default();
    assert_eq!(config.cache_limit_bytes(), Some(512 * 1024 * 1024));
    config.cache_limit_mib = 0;
    assert_eq!(config.cache_limit_bytes(), None);
    config.cache_limit_mib = u64::MAX;
    assert_eq!(config.cache_limit_bytes(), Some(u64::MAX));
}
