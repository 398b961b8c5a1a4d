use kugou_tui::catalog::{PageCollector, PageResult, StreamSearch, StreamStep, MAX_PAGES};
use kugou_tui::client::{read_json, Mode, Request, RetryPolicy};
use kugou_tui::cloud::{add_tracks_to_playlist, written_after, BATCH_SIZE};
use kugou_tui::engine::{AudioEvent, DeviceOrder, Engine, Opened, PlaybackState};
use kugou_tui::error::{AppError, Breakdown};
use kugou_tui::json::Json;
use kugou_tui::model::Song;
use kugou_tui::netease::{normalize_cookie_header, TrackPages, TRACK_PAGE};
use kugou_tui::queue::{PlayQueue, PlaybackMode};
use kugou_tui::settings::{cycle, go_round};
use kugou_tui::source::SourceKind;

fn text(value: &str) -> Json {
    Json::Text(value.to_string())
}

fn object(members: Vec<(&str, Json)>) -> Json {
    Json::Object(members.into_iter().map(|(key, value)| (key.to_string(), value)).collect())
}

fn song(hash: &str) -> Song {
    Song { name: hash.to_string(), hash: hash.to_string(), ..Song::default() }
}

fn songs(count: usize) -> Vec<Song> {
    (0..count).map(|index| song(&format!("h{index}"))).collect()
}

fn broken_off() -> AppError {
    AppError::Http(Breakdown {
        timeout: false,
        connect: true,
        body: false,
        decode: false,
        words: "refused".to_string(),
    })
}

#[test]
fn fresh_requests_carry_the_moment() {
    let fresh = Request::new("/x", Mode::Fresh).with("a", "1".to_string());
    assert_ne!(fresh.parameters(1), fresh.parameters(2));
    let cached = Request::new("/x", Mode::Cached).with("a", "1".to_string());
    assert_eq!(cached.parameters(1), cached.parameters(2));
    assert_eq!(cached.parameters(1), vec![("a".to_string(), "1".to_string())]);
    assert!(fresh.is_repeatable());
    assert!(!Request::new("/x", Mode::Writing).is_repeatable());
}

#[test]
fn requests_are_tried_three_times_at_most() {
    assert_eq!(RetryPolicy::after_failure(1, &broken_off()), Some(300));
    assert_eq!(RetryPolicy::after_failure(2, &broken_off()), Some(900));
    assert_eq!(RetryPolicy::after_failure(3, &broken_off()), None);
    let refusal = AppError::Api { path: String::new(), code: 152, message: String::new() };
    assert_eq!(RetryPolicy::after_failure(1, &refusal), None);
}

#[test]
fn error_codes_are_told_before_the_status() {
    let body = r#"{"status":0,"error_code":20018,"error_msg":"x"}"#;
    assert!(matches!(
        read_json("/song/url", 502, body),
        Err(AppError::Api { code: 20018, .. })
    ));
}

#[test]
fn lists_are_asked_for_in_batches() {
    let mut pages = PageCollector::new();
    assert_eq!(pages.next_batch(), Some((1, 1)));
    assert!(pages.absorb(PageResult::Songs(songs(30))).is_none());
    assert_eq!(pages.next_batch(), Some((2, 7)));
    for _ in 2..=7 {
        assert!(pages.absorb(PageResult::Songs(songs(30))).is_none());
    }
    let mut batches = 2;
    while let Some((_, last)) = pages.next_batch() {
        batches += 1;
        assert!(last <= MAX_PAGES);
    }
    assert_eq!(batches, 11);
    assert_eq!(pages.songs.len(), 210);
}

#[test]
fn an_empty_or_failed_page_ends_a_list() {
    let mut pages = PageCollector::new();
    pages.next_batch();
    let first = pages.absorb(PageResult::Failed(broken_off()));
    assert!(matches!(first, Some(AppError::Http(_))));

    let mut pages = PageCollector::new();
    pages.next_batch();
    pages.absorb(PageResult::Songs(songs(30)));
    assert!(pages.absorb(PageResult::Failed(broken_off())).is_none());
    assert_eq!(pages.next_batch(), None);
    assert!(matches!(
        pages.absorb(PageResult::Broken("p".to_string())),
        Some(AppError::Other(words)) if words == "翻页任务失败：p"
    ));

    let mut tracks = TrackPages::new();
    assert_eq!(tracks.next_page(), Some(1));
    tracks.absorb(songs(TRACK_PAGE as usize));
    assert_eq!(tracks.next_page(), Some(2));
    tracks.absorb(songs(3));
    assert_eq!(tracks.next_page(), None);
}

#[test]
fn an_address_is_looked_for_in_steps() {
    let (mut search, first) = StreamSearch::song_stream_url(&song("H"), "320");
    assert_eq!(first.path, "/privilege/lite");
    let StreamStep::Ask(second) = search.answer(Err(broken_off())) else {
        panic!("the song's own recording is asked for");
    };
    assert_eq!(second.path, "/song/url");
    assert!(second.query.contains(&("hash".to_string(), "H".to_string())));
    let found = object(vec![("url", Json::Array(vec![text("http://a/b.mp3")]))]);
    match search.answer(Ok(found)) {
        StreamStep::Found(stream) => {
            assert_eq!(stream.url, "http://a/b.mp3");
            assert!(!stream.is_trial);
            assert!(stream.reason.is_none());
        }
        _ => panic!("the address is there"),
    }
}

#[test]
fn a_part_of_a_song_is_the_last_resort() {
    let (mut search, _) = StreamSearch::song_stream_url(&song("H"), "128");
    assert!(matches!(search.answer(Err(broken_off())), StreamStep::Ask(_)));
    let nothing = || object(vec![("status", Json::Int(3))]);
    let StreamStep::Ask(trial) = search.answer(Ok(nothing())) else {
        panic!("a part is asked for");
    };
    assert_eq!(trial.path, "/song/url");
    let found = object(vec![("url", Json::Array(vec![text("http://a/part.mp3")]))]);
    match search.answer(Ok(found)) {
        StreamStep::Found(stream) => assert!(stream.is_trial),
        _ => panic!("the part is there"),
    }

    let (mut search, _) = StreamSearch::song_stream_url(&song("H"), "128");
    search.answer(Err(broken_off()));
    search.answer(Ok(nothing()));
    assert!(matches!(search.answer(Ok(nothing())), StreamStep::Failed(_)));
}

#[test]
fn songs_are_written_in_batches() {
    let all = songs(45);
    let requests = add_tracks_to_playlist(SourceKind::Kugou, 7, &all);
    assert_eq!(BATCH_SIZE, 20);
    assert_eq!(requests.len(), 3);
    assert_eq!(written_after(45, 2), 40);
    assert_eq!(written_after(45, 3), 45);
    assert!(requests.iter().all(|request| !request.is_repeatable()));
    assert!(requests[2].query.iter().any(|(_, value)| value.contains("h44")));
    let other = add_tracks_to_playlist(SourceKind::Netease, 7, &all);
    assert_eq!(other[0].path, "/playlist/track/add");
}

#[test]
fn cookies_lose_their_attributes() {
    assert_eq!(
        normalize_cookie_header("MUSIC_U=a; Max-Age=10; Path=/;;__csrf=b; Expires=x").as_deref(),
        Some("MUSIC_U=a; __csrf=b")
    );
    assert_eq!(normalize_cookie_header(" ; Path=/"), None);
}

#[test]
fn going_back_undoes_going_on() {
    for mode in [PlaybackMode::Sequential, PlaybackMode::RepeatAll, PlaybackMode::RepeatOne] {
        let mut queue = PlayQueue::new(mode);
        queue.replace_with(songs(3), 2);
        assert_eq!(queue.advance(true), Some(0));
        assert_eq!(queue.retreat(), Some(2));
    }
    let mut empty = PlayQueue::new(PlaybackMode::Sequential);
    assert_eq!(empty.advance(true), None);
    assert_eq!(empty.retreat(), None);
}

#[test]
fn stepping_back_undoes_stepping_on() {
    for index in 0..5 {
        for delta in [-7isize, -1, 0, 3, 12] {
            assert_eq!(go_round(go_round(index, delta, 5), -delta, 5), index);
        }
    }
    assert_eq!(cycle(&[10u64, 20, 30], 10, -4), Some(30));
}

#[test]
fn three_services_go_round() {
    for kind in SourceKind::ALL {
        assert_eq!(kind.next().next().next(), kind);
        assert_ne!(kind.next(), kind);
    }
}

#[test]
fn the_end_of_a_song_is_told_once() {
    let mut engine = Engine::new();
    assert_eq!(engine.begin_load(), DeviceOrder::Reset);
    let (orders, event) = engine.load("/a.mp3", Opened::Decoded(Some(0)), 50, 9_000);
    assert_eq!(orders, vec![DeviceOrder::Start, DeviceOrder::Seek(50)]);
    assert!(matches!(event, AudioEvent::Ready { duration_ms: 9_000 }));
    assert!(engine.sync(100, false, false).is_none());
    assert_eq!(engine.position_ms, 100);
    assert!(matches!(engine.sync(9_000, false, true), Some(AudioEvent::TrackFinished)));
    assert!(engine.sync(9_000, false, true).is_none());
    assert_eq!(engine.state, PlaybackState::Stopped);
}

#[test]
fn broken_files_do_not_lead_on() {
    let mut engine = Engine::new();
    engine.begin_load();
    let (orders, event) =
        engine.load("/a.mp3", Opened::Unreadable("gone".to_string()), 0, 9_000);
    assert!(orders.is_empty());
    assert!(matches!(
        event,
        AudioEvent::Failed(words) if words == "打开音频文件 /a.mp3 失败：gone"
    ));
    assert!(engine.sync(0, false, true).is_none());
    let (_, event) = engine.load("/a", Opened::Undecodable("x".to_string()), 0, 0);
    assert!(matches!(
        event,
        AudioEvent::Failed(words)
            if words == "解码 /a 失败：x。该文件可能不是有效音频，或格式不受支持。"
    ));
}

#[test]
fn the_engine_pauses_seeks_and_stops() {
    let mut engine = Engine::new();
    assert_eq!(engine.toggle(false), None);
    assert_eq!(engine.seek_to(5), None);
    engine.load("/a", Opened::Decoded(Some(1_000)), 0, 0);
    assert_eq!(engine.toggle(false), Some(DeviceOrder::Pause));
    assert_eq!(engine.state, PlaybackState::Paused);
    assert_eq!(engine.toggle(true), Some(DeviceOrder::Resume));
    assert_eq!(engine.seek_to(2_000), Some(999));
    engine.seek_done(999, true);
    assert_eq!(engine.position_ms, 999);
    assert_eq!(engine.seek_by(-5_000), Some(0));
    assert_eq!(engine.stop(), [DeviceOrder::Reset, DeviceOrder::ClearLevels]);
    assert_eq!(engine.duration_ms, 0);
}

#[test]
fn every_error_is_described() {
    let errors = [
        broken_off(),
        AppError::HttpStatus { path: "/p".to_string(), status: 500 },
        AppError::Api { path: "/p".to_string(), code: 1, message: "m".to_string() },
        AppError::NonJsonBody { path: "/p".to_string(), status: 200, preview: "x".to_string() },
        AppError::Io("disk".to_string()),
        AppError::io_at("/f".to_string(), "disk".to_string()),
        AppError::Config("c".to_string()),
        AppError::Audio("a".to_string()),
        AppError::NotFound("n".to_string()),
        AppError::Other("o".to_string()),
    ];
    for error in &errors {
        assert!(!error.describe().is_empty());
        assert!(!error.user_hint().is_empty());
    }
    assert!(errors[0].is_connectivity() && errors[0].is_transient());
    assert!(errors[1].is_transient() && !errors[1].is_connectivity());
    assert!(errors[5].describe().contains("/f"));
}
