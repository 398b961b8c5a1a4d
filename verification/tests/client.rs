use kugou_tui::client::{body_preview, RetryPolicy};

#[test]
fn retry_backoff_is_exponential_and_bounded() {
    assert_eq!(RetryPolicy::MAX_ATTEMPTS, 3);
    assert_eq!(RetryPolicy::delay_after(1), 300);
    assert_eq!(RetryPolicy::delay_after(2), 900);
    assert_eq!(RetryPolicy::delay_after(20), 300 * 3u64.pow(19));
}

#[test]
fn body_preview_keeps_the_recognizable_start() {
    let html = "<!doctype html>\n<html lang=\"en\">\n\t<head>…";
    let preview = body_preview(html);
    assert!(preview.starts_with("<!doctype html>"), "实际：{preview}");
    assert!(!preview.contains('\n'), "换行应当被压掉：{preview}");
}

#[test]
fn body_preview_names_an_empty_body() {
    assert_eq!(body_preview(""), "（空响应体）");
    assert_eq!(body_preview("   \n\t "), "（空响应体）");
}

#[test]
fn body_preview_collapses_whitespace_runs() {
    assert_eq!(body_preview("a \n\t  b"), "a b");
}

#[test]
fn body_preview_truncates_by_chars_not_bytes() {
    let long = "中文".repeat(200);
    let preview = body_preview(&long);
    assert!(preview.ends_with('…'), "超长应当带省略号：{preview}");
    assert_eq!(preview.chars().count(), 121);
}

