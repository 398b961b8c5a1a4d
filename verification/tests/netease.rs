use kugou_tui::json::Json;
use kugou_tui::netease::{check_api_code, song_from_json};

fn text(value: &str) -> Json {
    Json::Text(value.to_string())
}

fn object(members: Vec<(&str, Json)>) -> Json {
    Json::Object(members.into_iter().map(|(key, value)| (key.to_string(), value)).collect())
}

#[test]
fn write_result_rejects_non_200_code() {
    let root = object(vec![("code", Json::Int(301)), ("message", text("系统错误")), ("msg", text("需要登录"))]);
    let error =
        check_api_code("/playlist/track/add", &root).expect_err("301 必须被当成失败");
    assert!(
        error.user_hint().contains("需要登录"),
        "错误提示要说清原因，实际：{}",
        error.user_hint()
    );
}

#[test]
fn write_result_accepts_200() {
    let root = object(vec![("code", Json::Int(200)), ("id", Json::Int(123))]);
    check_api_code("/playlist/create", &root).expect("200 表示成功");
}

#[test]
fn song_parses_the_search_layout() {
    let value = object(vec![("id", Json::Int(123)), ("name", text("想你就写信 (Live)")), ("duration", Json::Int(238698)), ("artists", Json::Array(vec![object(vec![("id", Json::Int(6452)), ("name", text("周杰伦"))])])), ("album", object(vec![("id", Json::Int(999)), ("name", text("中国新歌声第二季 第13期"))]))]);

    let song = song_from_json(&value).expect("应当能解析");
    assert_eq!(song.name, "想你就写信 (Live)");
    assert_eq!(song.hash, "123");
    assert_eq!(song.duration_ms, 238_698);
    assert_eq!(song.album_name, "中国新歌声第二季 第13期");
    assert_eq!(song.album_id, "999");
    assert_eq!(song.singers.len(), 1);
    assert_eq!(song.singers[0].name, "周杰伦");
}

#[test]
fn song_parses_the_detail_layout() {
    let value = object(vec![("id", Json::Int(1440570723)), ("name", text("Normal No More")), ("dt", Json::Int(199578)), ("ar", Json::Array(vec![object(vec![("id", Json::Int(1234)), ("name", text("TYSM"))])])), ("al", object(vec![("id", Json::Int(5678)), ("name", text("Normal No More")), ("picUrl", text("https://p1.music.126.net/x.jpg"))]))]);

    let song = song_from_json(&value).expect("应当能解析");
    assert_eq!(song.name, "Normal No More");
    assert_eq!(song.duration_ms, 199_578, "时长应当取 dt");
    assert_eq!(song.album_name, "Normal No More", "专辑名应当取 al.name");
    assert_eq!(song.album_id, "5678", "专辑 id 应当取 al.id");
    assert_eq!(song.singers.len(), 1, "歌手应当取 ar");
    assert_eq!(song.singers[0].name, "TYSM");
    assert_eq!(
        song.cover.as_deref(),
        Some("https://p1.music.126.net/x.jpg?param=300y300"),
        "封面应当取 al.picUrl 并缩到 300"
    );
}

#[test]
fn song_tolerates_missing_fields() {
    assert!(song_from_json(&object(vec![("name", text("没有 id"))])).is_none());
    assert!(song_from_json(&object(vec![("id", Json::Int(1))])).is_some(), "只有 id 也算一首");
    assert!(
        song_from_json(&object(vec![("id", Json::Int(1)), ("ar", Json::Array(vec![])), ("al", Json::Null)])).is_some(),
        "空歌手与空专辑不该 panic"
    );
}

#[test]
fn write_result_tolerates_missing_code() {
    let root = object(vec![("playlist", object(vec![("id", Json::Int(1))]))]);
    check_api_code("/playlist/create", &root).expect("缺 code 视为成功");
}

