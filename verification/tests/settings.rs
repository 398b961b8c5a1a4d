use kugou_tui::queue::PLAYBACK_MODES;
use kugou_tui::settings::{
    cycle, cycle_device, device_options, expand_download_dir, sanitize_filename,
    trim_device_label, Setting, MAX_DEVICE_LABEL_CHARS,
};

#[test]
fn every_setting_has_a_label_and_description() {
    for setting in Setting::ALL {
        assert!(!setting.label().is_empty());
        assert!(!setting.description().is_empty());
    }
}

#[test]
fn cycle_wraps_around_in_both_directions() {
    let options = [1u8, 2, 3];
    assert_eq!(cycle(&options, 1, 1), Some(2));
    assert_eq!(cycle(&options, 3, 1), Some(1), "走到末尾要绕回开头");
    assert_eq!(cycle(&options, 1, -1), Some(3), "反向也要绕");
    assert_eq!(cycle(&options, 2, 0), Some(2));
}

#[test]
fn cycle_returns_none_for_unknown_current_value() {
    assert_eq!(cycle(&[1u8, 2, 3], 9, 1), None);
    assert_eq!(cycle::<u8>(&[], 1, 1), None);
}

#[test]
fn device_options_put_system_default_first() {
    let devices = vec!["hw:0".to_string(), "hw:1".to_string()];
    assert_eq!(
        device_options(&devices),
        vec![
            "系统默认".to_string(),
            "hw:0".to_string(),
            "hw:1".to_string()
        ]
    );
    assert_eq!(device_options(&[]), vec!["系统默认".to_string()]);
}

#[test]
fn cycle_device_wraps_and_maps_default_to_none() {
    let options = device_options(&["hw:0".to_string(), "hw:1".to_string()]);

    assert_eq!(
        cycle_device(&options, None, 1),
        Some(Some("hw:0".to_string()))
    );
    assert_eq!(
        cycle_device(&options, Some("hw:0"), 1),
        Some(Some("hw:1".to_string()))
    );
    assert_eq!(cycle_device(&options, Some("hw:1"), 1), Some(None));
    assert_eq!(
        cycle_device(&options, None, -1),
        Some(Some("hw:1".to_string())),
        "反向也要绕"
    );
}

#[test]
fn cycle_device_keeps_values_outside_the_options() {
    let options = device_options(&["hw:0".to_string()]);
    assert_eq!(cycle_device(&options, Some("已经拔掉的那张卡"), 1), None);
    assert_eq!(cycle_device(&[], None, 1), None);
}

#[test]
fn trim_device_label_shortens_long_names_only() {
    assert_eq!(trim_device_label("default"), "default");
    assert_eq!(trim_device_label("板载声卡"), "板载声卡");

    let long = "a".repeat(40);
    let trimmed = trim_device_label(&long);
    assert_eq!(trimmed.chars().count(), MAX_DEVICE_LABEL_CHARS);
    assert!(trimmed.ends_with('…'), "截短要有省略号");
}

#[test]
fn playback_modes_follow_the_r_key_order() {
    for (index, mode) in PLAYBACK_MODES.iter().enumerate() {
        let next = PLAYBACK_MODES[(index + 1) % PLAYBACK_MODES.len()];
        assert_eq!(mode.next(), next, "{mode:?} 的下一档对不上");
    }
}

#[test]
fn sanitize_filename_strips_dangerous_chars() {
    assert_eq!(sanitize_filename("歌手 - 歌名"), "歌手 - 歌名");
    assert_eq!(
        sanitize_filename("a/b\\c:d*e?f\"g<h>i|j"),
        "a_b_c_d_e_f_g_h_i_j",
        "所有路径分隔符与 Windows 保留字符"
    );
    assert_eq!(
        sanitize_filename("歌名\n换行\0结束"),
        "歌名_换行_结束",
        "控制字符也要拦"
    );
    assert_eq!(
        sanitize_filename("Hello, World! (Remix)"),
        "Hello, World! (Remix)",
        "空格与常见标点保留"
    );
}

#[test]
fn expand_download_dir_handles_all_forms() {
    let home = Some("/home/tester");

    assert_eq!(expand_download_dir(Some("~/Music"), home), "/home/tester/Music");
    assert_eq!(
        expand_download_dir(Some("~/Downloads/Music"), home),
        "/home/tester/Downloads/Music"
    );
    assert_eq!(
        expand_download_dir(None, home),
        "/home/tester/Music",
        "None 兜底为 ~/Music，第一次启动不该让下载坏在路径上"
    );
    assert_eq!(
        expand_download_dir(Some("/absolute/path"), home),
        "/absolute/path",
        "绝对路径原样"
    );
}

