use kugou_tui::model::Song;
use kugou_tui::queue::{PlayQueue, PlaybackMode};

fn song(hash: &str) -> Song {
    Song {
        name: hash.to_string(),
        hash: hash.to_string(),
        ..Song::default()
    }
}

fn queue_with(mode: PlaybackMode, count: usize) -> PlayQueue {
    let mut queue = PlayQueue::new(mode);
    let songs: Vec<Song> = (0..count).map(|index| song(&format!("h{index}"))).collect();
    queue.replace_with(songs, 0);
    queue
}

#[test]
fn sequential_stops_at_end_when_finished_naturally() {
    let mut queue = queue_with(PlaybackMode::Sequential, 3);
    assert_eq!(queue.advance(false), Some(1));
    assert_eq!(queue.advance(false), Some(2));
    assert_eq!(queue.advance(false), None, "顺序播放到底应停止");
}

#[test]
fn sequential_wraps_when_user_presses_next() {
    let mut queue = queue_with(PlaybackMode::Sequential, 2);
    assert_eq!(queue.advance(true), Some(1));
    assert_eq!(queue.advance(true), Some(0));
}

#[test]
fn repeat_one_only_loops_on_natural_end() {
    let mut queue = queue_with(PlaybackMode::RepeatOne, 3);
    assert_eq!(queue.advance(false), Some(0), "自然播完应原地循环");
    assert_eq!(queue.advance(true), Some(1), "用户按下一首应换歌");
}

#[test]
fn append_all_preserves_order() {
    let mut queue = PlayQueue::new(PlaybackMode::Sequential);
    let songs: Vec<Song> = (0..3).map(|index| song(&format!("h{index}"))).collect();
    queue.append_all(songs);
    let hashes: Vec<&str> = queue
        .items()
        .iter()
        .map(|song| song.hash.as_str())
        .collect();
    assert_eq!(hashes, vec!["h0", "h1", "h2"]);
    assert_eq!(queue.cursor(), Some(0), "空队列加入后游标应指向第一首");
}

#[test]
fn append_all_appends_after_existing_items() {
    let mut queue = queue_with(PlaybackMode::Sequential, 2);
    queue.append_all(vec![song("x"), song("y")]);
    assert_eq!(queue.len(), 4);
    assert_eq!(queue.items()[2].hash, "x");
    assert_eq!(queue.items()[3].hash, "y");
    assert_eq!(queue.cursor(), Some(0), "原有游标不应被改动");
}

#[test]
fn append_all_with_empty_input_is_noop() {
    let mut queue = queue_with(PlaybackMode::Sequential, 2);
    queue.append_all(Vec::new());
    assert_eq!(queue.len(), 2);
}

#[test]
fn clear_resets_cursor_and_current() {
    let mut queue = queue_with(PlaybackMode::Sequential, 3);
    queue.jump_to(1);
    queue.clear();
    assert!(queue.is_empty());
    assert_eq!(queue.cursor(), None);
    assert!(queue.current().is_none());
}

#[test]
fn insert_next_places_after_cursor() {
    let mut queue = queue_with(PlaybackMode::Sequential, 3);
    queue.jump_to(1);
    queue.insert_next(song("inserted"));
    assert_eq!(queue.items()[2].hash, "inserted");
    assert_eq!(queue.current().map(|s| s.hash.as_str()), Some("h1"));
}

#[test]
fn remove_keeps_cursor_pointing_at_same_song() {
    let mut queue = queue_with(PlaybackMode::Sequential, 3);
    queue.jump_to(2);
    queue.remove(0);
    assert_eq!(queue.current().map(|s| s.hash.as_str()), Some("h2"));
}

#[test]
fn remove_last_item_clears_cursor() {
    let mut queue = queue_with(PlaybackMode::Sequential, 1);
    queue.remove(0);
    assert_eq!(queue.current().map(|s| s.hash.as_str()), None);
    assert!(queue.is_empty());
}

#[test]
fn mode_cycles_through_all_variants() {
    let mut mode = PlaybackMode::Sequential;
    let mut seen = vec![mode];
    for _ in 0..3 {
        mode = mode.next();
        seen.push(mode);
    }
    assert_eq!(mode.next(), PlaybackMode::Sequential);
    assert_eq!(seen.len(), 4);
}

