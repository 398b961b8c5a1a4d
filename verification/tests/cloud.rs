use kugou_tui::cloud::{check_write_result, encode_track_entry, UserInfo};
use kugou_tui::json::Json;
use kugou_tui::model::Song;

fn object(members: Vec<(&str, Json)>) -> Json {
    Json::Object(members.into_iter().map(|(key, value)| (key.to_string(), value)).collect())
}

#[test]
fn write_result_rejects_non_zero_error_code() {
    let root = object(vec![("status", Json::Int(0)), ("error_code", Json::Int(30205))]);
    let error = check_write_result("/playlist/tracks/add", &root)
        .expect_err("30205 必须被当成失败");
    assert!(
        error.user_hint().contains("不是你自己的"),
        "错误提示要说清原因，实际：{}",
        error.user_hint()
    );
}

#[test]
fn write_result_accepts_zero_error_code() {
    let root = object(vec![("status", Json::Int(1)), ("error_code", Json::Int(0)), ("data", object(vec![]))]);
    check_write_result("/playlist/tracks/add", &root).expect("0 表示成功");
}

#[test]
fn write_result_tolerates_missing_error_code() {
    let root = object(vec![("data", object(vec![("status", Json::Int(1))]))]);
    check_write_result("/playlist/tracks/del", &root).expect("缺字段视为成功");
}

#[test]
fn encodes_track_entry_with_expected_field_order() {
    let song = Song {
        name: "海阔天空".to_string(),
        hash: "ABC".to_string(),
        album_id: "123".to_string(),
        album_audio_id: 456,
        ..Song::default()
    };
    assert_eq!(encode_track_entry(&song), "海阔天空|ABC|123|456");
}

#[test]
fn sanitizes_separators_inside_song_name() {
    let song = Song {
        name: "Hello, World|Live".to_string(),
        hash: "H".to_string(),
        album_id: "1".to_string(),
        album_audio_id: 2,
        ..Song::default()
    };
    let encoded = encode_track_entry(&song);
    assert_eq!(encoded, "Hello  World Live|H|1|2");
    assert_eq!(encoded.split('|').count(), 4);
}

#[test]
fn batch_payload_keeps_field_count_stable() {
    let names = ["a", "b,c", "d|e", "f,g|h"];
    let songs: Vec<Song> = names
        .iter()
        .map(|name| Song {
            name: (*name).to_string(),
            hash: "H".to_string(),
            album_id: "1".to_string(),
            album_audio_id: 2,
            ..Song::default()
        })
        .collect();

    let payload = songs
        .iter()
        .map(encode_track_entry)
        .collect::<Vec<_>>()
        .join(",");

    assert_eq!(payload.matches(',').count(), names.len() - 1);
    for entry in payload.split(',') {
        assert_eq!(entry.split('|').count(), 4);
    }
}

#[test]
fn listen_duration_is_minutes_not_seconds() {
    let info = UserInfo {
        duration_min: Some(79239),
        ..Default::default()
    };
    assert_eq!(info.duration_text().as_deref(), Some("1320 小时 39 分"));
}

#[test]
fn listen_duration_edge_cases() {
    assert_eq!(
        UserInfo {
            duration_min: Some(0),
            ..Default::default()
        }
        .duration_text(),
        None
    );
    assert_eq!(
        UserInfo {
            duration_min: None,
            ..Default::default()
        }
        .duration_text(),
        None
    );
    assert_eq!(
        UserInfo {
            duration_min: Some(39),
            ..Default::default()
        }
        .duration_text()
        .as_deref(),
        Some("39 分")
    );
    assert_eq!(
        UserInfo {
            duration_min: Some(120),
            ..Default::default()
        }
        .duration_text()
        .as_deref(),
        Some("2 小时 0 分")
    );
}

