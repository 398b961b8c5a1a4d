use kugou_tui::catalog::{
    extract_stream_url, fallback_candidates, is_viper, parse_quality_candidates, QualityCandidate,
};
use kugou_tui::json::Json;
use kugou_tui::model::Song;
use kugou_tui::source::SourceKind;

fn text(value: &str) -> Json {
    Json::Text(value.to_string())
}

fn object(members: Vec<(&str, Json)>) -> Json {
    Json::Object(members.into_iter().map(|(key, value)| (key.to_string(), value)).collect())
}

#[test]
fn finds_url_in_array_payload() {
    let root = object(vec![("data", Json::Array(vec![object(vec![("url", Json::Array(vec![text("http://a/1.mp3")])), ("play_url", text("http://a/2.mp3"))])]))]);
    assert_eq!(extract_stream_url(&root).as_deref(), Some("http://a/1.mp3"));
}

#[test]
fn finds_url_at_top_level() {
    let root = object(vec![("status", Json::Int(1)), ("url", Json::Array(vec![text("http://fsandroid.tx.kugou.com/a.mp3"), text("http://fsmobile.kugou.com/a.mp3")])), ("backupUrl", Json::Array(vec![text("http://fsmobile.kugou.com/b.mp3")]))]);
    assert_eq!(
        extract_stream_url(&root).as_deref(),
        Some("http://fsandroid.tx.kugou.com/a.mp3")
    );
}

#[test]
fn falls_back_to_backup_url() {
    let root = object(vec![("status", Json::Int(1)), ("url", Json::Array(vec![])), ("backupUrl", Json::Array(vec![text("http://fsmobile.kugou.com/b.mp3")]))]);
    assert_eq!(
        extract_stream_url(&root).as_deref(),
        Some("http://fsmobile.kugou.com/b.mp3")
    );
}

#[test]
fn finds_url_in_object_payload() {
    let root = object(vec![("data", object(vec![("play_url", text("https://b/1.flac"))]))]);
    assert_eq!(
        extract_stream_url(&root).as_deref(),
        Some("https://b/1.flac")
    );
}

#[test]
fn ignores_non_http_placeholder() {
    let root = object(vec![("data", object(vec![("url", text(""))]))]);
    assert_eq!(extract_stream_url(&root), None);
}

#[test]
fn rejects_when_status_is_not_one() {
    let root = object(vec![("status", Json::Int(3)), ("url", Json::Array(vec![text("https://fsmobile.kugou.com/a.mp3")]))]);
    assert_eq!(extract_stream_url(&root), None);
}

#[test]
fn works_without_status_field() {
    let root = object(vec![("url", Json::Array(vec![text("https://fsmobile.kugou.com/a.mp3")]))]);
    assert_eq!(
        extract_stream_url(&root).as_deref(),
        Some("https://fsmobile.kugou.com/a.mp3")
    );
}

#[test]
fn privilege_candidates_follow_fallback_chain() {
    let response = object(vec![("data", Json::Array(vec![object(vec![("quality", text("128")), ("level", Json::Int(1)), ("hash", text("h_128")), ("relate_goods", Json::Array(vec![object(vec![("quality", text("320")), ("level", Json::Int(1)), ("hash", text("h_320"))])]))]), object(vec![("quality", text("flac")), ("level", Json::Int(0)), ("hash", text("h_flac_no_perm")), ("relate_goods", Json::Array(vec![]))])]))]);
    let candidates = parse_quality_candidates(&response, "flac");
    assert_eq!(
        candidates,
        vec![
            QualityCandidate {
                quality: "320".to_string(),
                hash: "h_320".to_string(),
                album_audio_id: String::new(),
            },
            QualityCandidate {
                quality: "128".to_string(),
                hash: "h_128".to_string(),
                album_audio_id: String::new(),
            },
        ],
        "没权限的 flac 必须跳过；降级链先 320 再 128"
    );
}

#[test]
fn privilege_candidates_strict_to_requested_quality_or_below() {
    let response = object(vec![("data", Json::Array(vec![object(vec![("quality", text("128")), ("level", Json::Int(1)), ("hash", text("h_128")), ("relate_goods", Json::Array(vec![object(vec![("quality", text("320")), ("level", Json::Int(1)), ("hash", text("h_320"))])]))])]))]);
    let candidates = parse_quality_candidates(&response, "128");
    assert_eq!(
        candidates,
        vec![QualityCandidate {
            quality: "128".to_string(),
            hash: "h_128".to_string(),
            album_audio_id: String::new(),
        }],
        "选了 128 就只返 128，不会自动升级到 320"
    );
}

#[test]
fn privilege_candidates_normalize_unknown_quality_to_128() {
    let response = object(vec![("data", Json::Array(vec![object(vec![("quality", text("128")), ("level", Json::Int(1)), ("hash", text("h_128")), ("relate_goods", Json::Array(vec![]))])]))]);
    let candidates = parse_quality_candidates(&response, "high_res_thing");
    assert_eq!(candidates.len(), 1);
    assert_eq!(candidates[0].quality, "128");
}

#[test]
fn privilege_candidates_returns_empty_for_unrecognized_response() {
    let candidates = parse_quality_candidates(&object(vec![]), "flac");
    assert!(candidates.is_empty());

    let candidates = parse_quality_candidates(&object(vec![("data", text("garbage"))]), "flac");
    assert!(candidates.is_empty());
}

#[test]
fn fallback_candidates_include_every_hash_of_the_song() {
    let mut extra = Vec::new();
    extra.push(("320".to_string(), "HASH_320".to_string()));
    extra.push(("flac".to_string(), "HASH_FLAC".to_string()));
    let song = Song {
        name: "下架的歌".to_string(),
        hash: "PRIMARY_HASH".to_string(),
        album_id: "1".to_string(),
        album_audio_id: 0,
        album_name: String::new(),
        singers: vec![],
        duration_ms: 0,
        cover: None,
        privilege: None,
        file_id: None,
        extra_hashes: extra,
        source: SourceKind::Kugou,
    };

    let candidates = fallback_candidates(&song, "128");
    assert_eq!(candidates.len(), 3);
    assert_eq!(
        candidates[0],
        QualityCandidate {
            hash: "PRIMARY_HASH".to_string(),
            quality: "128".to_string(),
            album_audio_id: "0".to_string()
        }
    );
    assert!(candidates.iter().any(|candidate| candidate.hash == "HASH_320"));
    assert!(candidates.iter().any(|candidate| candidate.hash == "HASH_FLAC"));
}

#[test]
fn fallback_candidates_is_just_primary_hash_when_no_extras() {
    let song = Song {
        name: "普通歌".to_string(),
        hash: "ONLY_HASH".to_string(),
        album_id: String::new(),
        album_audio_id: 0,
        album_name: String::new(),
        singers: vec![],
        duration_ms: 0,
        cover: None,
        privilege: None,
        file_id: None,
        extra_hashes: Default::default(),
        source: SourceKind::Kugou,
    };
    let candidates = fallback_candidates(&song, "320");
    assert_eq!(
        candidates,
        vec![QualityCandidate {
            hash: "ONLY_HASH".to_string(),
            quality: "320".to_string(),
            album_audio_id: "0".to_string()
        }]
    );
}

#[test]
fn viper_quality_classification() {
    assert!(is_viper("viper_clear"));
    assert!(is_viper("viper_atmos"));
    assert!(is_viper("viper_tape"));
    assert!(!is_viper("flac"));
    assert!(!is_viper("high"));
    assert!(!is_viper("128"));
    assert!(!is_viper("320"));
}

