use kugou_tui::keymap::{
    action_from_name, parse_key, resolve, Action, KeyCode, KeyEvent, KeyMode, KeyModifiers,
    CHEATSHEET,
};

#[test]
fn parses_single_chars_named_keys_and_modifiers() {
    assert_eq!(
        parse_key("q"),
        Some((KeyCode::Char('q'), KeyModifiers::none()))
    );
    assert_eq!(
        parse_key("Q"),
        Some((KeyCode::Char('Q'), KeyModifiers::none()))
    );
    assert_eq!(
        parse_key("/"),
        Some((KeyCode::Char('/'), KeyModifiers::none()))
    );
    assert_eq!(
        parse_key("space"),
        Some((KeyCode::Char(' '), KeyModifiers::none()))
    );
    assert_eq!(
        parse_key("enter"),
        Some((KeyCode::Enter, KeyModifiers::none()))
    );
    assert_eq!(parse_key("up"), Some((KeyCode::Up, KeyModifiers::none())));
    assert_eq!(parse_key("f1"), Some((KeyCode::F(1), KeyModifiers::none())));
    assert_eq!(
        parse_key("ctrl+n"),
        Some((KeyCode::Char('n'), KeyModifiers::ctrl()))
    );
    assert_eq!(parse_key("f99"), None);
    assert_eq!(parse_key("不存在的键"), None);
}

#[test]
fn single_letter_f_is_not_swallowed_by_the_function_key_branch() {
    assert_eq!(
        parse_key("f"),
        Some((KeyCode::Char('f'), KeyModifiers::none())),
        "`f` 是普通字母键，不是功能键"
    );
    assert_eq!(parse_key("f1"), Some((KeyCode::F(1), KeyModifiers::none())));
    assert_eq!(parse_key("f12"), Some((KeyCode::F(12), KeyModifiers::none())));
}

#[test]
fn action_names_round_trip() {
    assert_eq!(action_from_name("quit"), Some(Action::Quit));
    assert_eq!(action_from_name("play_pause"), Some(Action::PlayPause));
    assert_eq!(
        action_from_name("set_default_source"),
        Some(Action::SetDefaultSource)
    );
    assert_eq!(action_from_name("switch_tab"), None);
    assert_eq!(action_from_name("不存在的动作"), None);
}

#[test]
fn ctrl_c_cannot_be_rebound() {
    let forced = KeyEvent::new(KeyCode::Char('c'), KeyModifiers::ctrl());
    assert_eq!(resolve(forced, KeyMode::Normal), Action::ForceQuit);
    assert_eq!(resolve(forced, KeyMode::TextInput), Action::ForceQuit);
}

#[test]
fn every_digit_key_reaches_a_tab() {
    for digit in '0'..='9' {
        let event = KeyEvent::new(KeyCode::Char(digit), KeyModifiers::none());
        assert_eq!(
            resolve(event, KeyMode::Normal),
            Action::Digit(digit as u8 - b'0'),
            "「{digit}」应当是切标签页"
        );
    }
}

#[test]
fn capital_v_claims_vip_and_lowercase_v_switches_source() {
    let capital = KeyEvent::new(KeyCode::Char('V'), KeyModifiers::none());
    assert_eq!(resolve(capital, KeyMode::Normal), Action::ClaimVip);

    let lower = KeyEvent::new(KeyCode::Char('v'), KeyModifiers::none());
    assert_eq!(resolve(lower, KeyMode::Normal), Action::SwitchSource);
}

fn parse_as_keymap_knows(token: &str) -> Option<String> {
    if let Some(name) = match token {
        "←" => Some("left"),
        "→" => Some("right"),
        "↑" => Some("up"),
        "↓" => Some("down"),
        "S-Tab" => Some("backtab"),
        _ => None,
    } {
        return Some(name.to_string());
    }
    if token.contains("..") {
        return None;
    }
    if token.chars().count() == 1 {
        return Some(token.to_string());
    }
    Some(token.to_lowercase())
}

#[test]
fn every_shortcut_shown_in_help_is_actually_bound() {
    let mut unbound = Vec::new();
    for (keys, description, _) in CHEATSHEET {
        for token in keys.split(" / ").map(str::trim).filter(|t| !t.is_empty()) {
            let Some(name) = parse_as_keymap_knows(token) else {
                continue;
            };
            let Some((code, modifiers)) = parse_key(&name) else {
                unbound.push(format!("「{token}」({description}) 连写法都不认识"));
                continue;
            };
            if resolve(KeyEvent::new(code, modifiers), KeyMode::Normal) == Action::Unbound {
                unbound.push(format!("「{token}」({description})"));
            }
        }
    }

    assert!(
        unbound.is_empty(),
        "帮助面板里这些键其实没绑定：{}",
        unbound.join("、")
    );
}

