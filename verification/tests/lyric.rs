use base64::Engine;
use kugou_tui::json::Json;
use kugou_tui::lyric::{attach_translations, extract_lyric_text, parse_lrc, parse_time_tag};

fn text(value: &str) -> Json {
    Json::Text(value.to_string())
}

fn object(members: Vec<(&str, Json)>) -> Json {
    Json::Object(members.into_iter().map(|(key, value)| (key.to_string(), value)).collect())
}

#[test]
fn attaches_translation_and_romanization() {
    let payload = r#"{"content":[
        {"language":0,"type":0,"lyricContent":[["","mo "]]},
        {"language":0,"type":1,"lyricContent":[["","就算身处流逝的时光里"]]}
    ]}"#;
    let encoded = base64::engine::general_purpose::STANDARD.encode(payload);
    let krc = format!("[id:1]\n[language:{encoded}]\n[0,1000]日文原文\n");

    let mut lyric = parse_lrc(&krc);
    attach_translations(&mut lyric, &krc);

    assert_eq!(lyric.lines.len(), 1, "应解析出 1 行");
    assert_eq!(lyric.lines[0].text, "日文原文");
    assert_eq!(
        lyric.lines[0].translation.as_deref(),
        Some("就算身处流逝的时光里"),
        "type=1 应填进 translation"
    );
    assert_eq!(
        lyric.lines[0].romanization.as_deref(),
        Some("mo "),
        "type=0 应填进 romanization"
    );
}

#[test]
fn parses_plain_lrc() {
    let text = "[ti:测试]\n[ar:歌手]\n[00:01.00]第一句\n[00:05.50]第二句\n";
    let lyric = parse_lrc(text);
    assert_eq!(lyric.lines.len(), 2);
    assert_eq!(lyric.lines[0].time_ms, 1_000);
    assert_eq!(lyric.lines[1].time_ms, 5_500);
    assert_eq!(lyric.lines[1].text, "第二句");
}

#[test]
fn expands_multiple_tags_on_one_line() {
    let lyric = parse_lrc("[00:01.00][00:05.00]副歌\n");
    assert_eq!(lyric.lines.len(), 2);
    assert_eq!(lyric.lines[0].time_ms, 1_000);
    assert_eq!(lyric.lines[1].time_ms, 5_000);
    assert_eq!(lyric.lines[0].text, lyric.lines[1].text);
}

#[test]
fn handles_varying_fraction_widths() {
    assert_eq!(parse_time_tag("00:01"), Some(1_000));
    assert_eq!(parse_time_tag("00:01.5"), Some(1_500));
    assert_eq!(parse_time_tag("00:01.23"), Some(1_230));
    assert_eq!(parse_time_tag("00:01.234"), Some(1_234));
    assert_eq!(parse_time_tag("01:02.3456"), Some(62_345));
}

#[test]
fn rejects_metadata_tags() {
    assert_eq!(parse_time_tag("ti:标题"), None);
    assert_eq!(parse_time_tag("ar:歌手"), None);
    assert_eq!(parse_time_tag("language:eyJhbGciOi"), None);
    assert_eq!(parse_time_tag("00:99.00"), None);
}

#[test]
fn parses_krc_style_timestamps() {
    let lyric = parse_lrc("[1234,567]逐字歌词\n");
    assert_eq!(lyric.lines.len(), 1);
    assert_eq!(lyric.lines[0].time_ms, 1_234);
}

#[test]
fn strips_krc_inline_markup() {
    let lyric = parse_lrc("[1000,500]海<100,200,0>阔<300,200,0>天空\n");
    assert_eq!(lyric.lines[0].text, "海阔天空");
}

#[test]
fn skips_lines_without_text() {
    let lyric = parse_lrc("[00:01.00]\n[00:02.00]有词\n");
    assert_eq!(lyric.lines.len(), 1);
    assert_eq!(lyric.lines[0].text, "有词");
}

#[test]
fn sorts_out_of_order_lines() {
    let lyric = parse_lrc("[00:05.00]后\n[00:01.00]前\n");
    assert_eq!(lyric.lines[0].text, "前");
}

#[test]
fn extracts_decoded_content_from_json() {
    let root = object(vec![("status", Json::Int(1)), ("decodeContent", text("[00:01.00]嗨\n"))]);
    assert_eq!(extract_lyric_text(&root), "[00:01.00]嗨");
}

#[test]
fn decodes_base64_content_when_decode_content_absent() {
    let root = object(vec![("content", text("YWJj"))]);
    assert_eq!(extract_lyric_text(&root), "abc");
}


#[test]
fn the_last_of_a_pair_is_the_translation() {
    let payload = r#"{"content":[{"type":1,"lyricContent":[["原文","译文"]]}]}"#;
    let encoded = base64::engine::general_purpose::STANDARD.encode(payload);
    let krc = format!("[language:{encoded}]\n[0,1000]原文\n");
    let mut lyric = parse_lrc(&krc);
    attach_translations(&mut lyric, &krc);
    assert_eq!(lyric.lines[0].translation.as_deref(), Some("译文"));
}
