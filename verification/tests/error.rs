use kugou_tui::error::AppError;

fn api(code: i64) -> AppError {
    AppError::Api {
        path: "/user/playlist".to_string(),
        code,
        message: "服务端未提供错误描述".to_string(),
    }
}

fn non_json(preview: &str) -> AppError {
    AppError::NonJsonBody {
        path: "/search".to_string(),
        status: 200,
        preview: preview.to_string(),
    }
}

fn status(code: u16) -> AppError {
    AppError::HttpStatus {
        path: "/song/url".to_string(),
        status: code,
    }
}

#[test]
fn auth_codes_are_recognized() {
    for code in [152, 20005, 20010, 20017, 20028, 40004] {
        assert!(api(code).is_auth_related(), "code={code} 应属于登录类");
    }
    assert!(!api(149).is_auth_related(), "页码越界不是登录问题");
    assert!(api(149).is_page_out_of_range());
}

#[test]
fn html_body_points_at_the_wrong_service() {
    let hint = non_json("<!doctype html><html lang=\"en\">").user_hint();
    assert!(hint.contains("/search"), "要指出是哪个接口：{hint}");
    assert!(hint.contains("网页"), "要说明拿到的是网页：{hint}");
    assert!(hint.contains("api_base"), "要指向该改的配置项：{hint}");
}

#[test]
fn other_non_json_bodies_still_hint_at_api_base() {
    for preview in ["（空响应体）", "gateway timeout"] {
        let hint = non_json(preview).user_hint();
        assert!(hint.contains("api_base"), "preview={preview} 时提示：{hint}");
    }
}

#[test]
fn non_json_body_is_not_retried() {
    assert!(!non_json("<!doctype html>").is_transient());
}

#[test]
fn expired_login_gets_a_clearer_hint() {
    let hint = api(20017).user_hint();
    assert!(hint.contains("失效"), "应说明是失效而不是没登录：{hint}");
    assert!(hint.contains("L"), "应提示重新扫码：{hint}");

    assert!(api(152).user_hint().contains("需要登录"));
}

#[test]
fn business_errors_are_not_connectivity_failures() {
    for code in [152, 149, 20005, 20017, 20028] {
        assert!(
            !api(code).is_connectivity(),
            "code={code} 是业务错误，服务是通的"
        );
    }
    assert!(!AppError::Config("配置坏了".to_string()).is_connectivity());
    assert!(!AppError::Io("本地磁盘".to_string()).is_connectivity());
}

#[test]
fn only_transient_failures_are_retried() {
    for code in [152, 149, 20005, 20017, 31863] {
        assert!(!api(code).is_transient(), "code={code} 是业务错误，不该重试");
    }

    for code in [408, 429, 500, 502, 503, 504] {
        assert!(status(code).is_transient(), "HTTP {code} 应当重试");
    }

    for code in [400, 401, 403, 404, 410, 422] {
        assert!(!status(code).is_transient(), "HTTP {code} 不该重试");
    }

    assert!(!AppError::Config("坏了".to_string()).is_transient());
    assert!(!AppError::Io("磁盘".to_string()).is_transient());
    assert!(!AppError::NotFound("《X》没有可用的播放地址".to_string()).is_transient());
}

