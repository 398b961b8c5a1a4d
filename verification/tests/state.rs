use kugou_tui::input::TextInput;
use kugou_tui::model::Song;
use kugou_tui::panes::{
    move_selection, HelpPane, ListState, LoadState, PromptAction, PromptState, QualityPicker,
    SongList, SUPPORTED_QUALITIES,
};
use kugou_tui::tab::Tab;

fn named(name: &str) -> Song {
    Song {
        name: name.to_string(),
        hash: name.to_string(),
        ..Song::default()
    }
}

fn sample_song() -> Song {
    Song {
        hash: "test-hash".to_string(),
        name: "测试歌曲".to_string(),
        ..Default::default()
    }
}

#[test]
fn load_failure_clears_loading_and_keeps_the_reason() {
    let mut load = LoadState::default();
    assert!(!load.is_loading());
    assert_eq!(load.error(), None);

    load.begin();
    assert!(load.is_loading(), "begin 之后应处于载入中");
    assert_eq!(load.error(), None, "开始载入要清掉上一次的失败原因");

    load.fail("连不上");
    assert!(!load.is_loading(), "失败必须收掉载入中，否则永久转圈");
    assert_eq!(load.error(), Some("连不上"), "失败原因要留下来给面板显示");

    load.begin();
    assert_eq!(load.error(), None);
}

#[test]
fn load_success_clears_both_flags() {
    let mut load = LoadState::default();
    load.begin();
    load.fail("超时");
    load.succeed();
    assert!(!load.is_loading());
    assert_eq!(load.error(), None, "成功之后不该还挂着旧的失败原因");
}

#[test]
fn help_scroll_is_clamped_to_the_last_page() {
    let mut help = HelpPane::default();
    help.open();
    assert_eq!(help.visible_range(37, 27), 0..27);

    help.scroll_by(1, 37);
    assert_eq!(help.visible_range(37, 27), 1..28);

    help.scroll_to_bottom(37);
    assert_eq!(help.visible_range(37, 27), 10..37);

    help.scroll_by(999, 37);
    assert_eq!(help.visible_range(37, 27), 10..37, "越界要被钳住");

    help.scroll_by(-999, 37);
    assert_eq!(help.visible_range(37, 27), 0..27);
}

#[test]
fn help_scroll_handles_content_shorter_than_the_viewport() {
    let mut help = HelpPane::default();
    help.open();
    help.scroll_by(5, 3);
    assert_eq!(help.visible_range(3, 40), 0..3);
}

#[test]
fn reopening_help_resets_the_scroll_position() {
    let mut help = HelpPane::default();
    help.open();
    help.visible_range(37, 10);
    help.scroll_by(20, 37);
    assert_ne!(help.visible_range(37, 10).start, 0);

    help.close();
    help.open();
    assert!(help.is_open());
    assert_eq!(help.visible_range(37, 10), 0..10, "重新打开应回到顶部");
}

#[test]
fn help_page_scroll_moves_by_almost_a_full_viewport() {
    let mut help = HelpPane::default();
    help.open();
    help.visible_range(100, 20);
    help.scroll_page(1, 100);
    assert_eq!(help.visible_range(100, 20).start, 19);
}

#[test]
fn sidebar_order_is_a_permutation_of_all() {
    let mut all = Tab::ALL.to_vec();
    all.sort_by_key(|tab| tab.index());
    let mut sidebar = Tab::SIDEBAR_ORDER.to_vec();
    sidebar.sort_by_key(|tab| tab.index());
    assert_eq!(
        all, sidebar,
        "SIDEBAR_ORDER 必须与 ALL 包含完全相同的标签页"
    );
}

#[test]
fn sidebar_groups_are_contiguous() {
    let mut seen: Vec<&'static str> = Vec::new();
    for tab in Tab::SIDEBAR_ORDER {
        let group = tab.group();
        if seen.last() != Some(&group) {
            assert!(
                !seen.contains(&group),
                "分组「{group}」在侧边栏里出现了不止一段"
            );
            seen.push(group);
        }
    }
}

#[test]
fn number_keys_follow_all_order() {
    assert_eq!(Tab::ALL[0].number_key(), Some('1'));
    assert_eq!(Tab::ALL[6].number_key(), Some('7'));
    assert_eq!(Tab::ALL[8].number_key(), Some('9'));
    assert_eq!(Tab::ALL[9].number_key(), Some('0'));

    assert_eq!(Tab::from_number(1), Some(Tab::Home));
    assert_eq!(Tab::from_number(2), Some(Tab::Search));
    assert_eq!(Tab::from_number(7), Some(Tab::Queue));
    assert_eq!(Tab::from_number(0), Some(Tab::Visualizer));

    assert_eq!(Tab::from_number(8), Some(Tab::Sources));
    assert_eq!(Tab::from_number(9), Some(Tab::Settings));

    assert_eq!(Tab::from_number(11), None, "越界的数字键不该切到任何页");
}

#[test]
fn sidebar_click_reaches_every_tab() {
    for (index, expected) in Tab::SIDEBAR_ORDER.iter().enumerate() {
        assert_eq!(
            Tab::from_sidebar_index(index),
            Some(*expected),
            "侧边栏第 {index} 项应当切到 {expected:?}"
        );
    }
    assert_eq!(Tab::from_sidebar_index(0), Some(Tab::Home));
    assert!(Tab::from_sidebar_index(Tab::SIDEBAR_ORDER.len()).is_none());
}

#[test]
fn text_input_handles_multibyte_backspace() {
    let mut input = TextInput::default();
    input.set("海阔天空");
    assert_eq!(input.cursor_byte_index(), 12, "光标应停在末尾");

    input.backspace();
    assert_eq!(input.text(), "海阔天");
    assert_eq!(input.cursor_byte_index(), 9);
}

#[test]
fn text_input_inserts_at_cursor_position() {
    let mut input = TextInput::default();
    input.set("ac");
    input.move_home();
    input.move_right();
    input.insert('b');
    assert_eq!(input.text(), "abc");
    assert_eq!(input.cursor_byte_index(), 2);
}

#[test]
fn text_input_delete_removes_character_under_cursor() {
    let mut input = TextInput::default();
    input.set("abc");
    input.move_home();
    input.delete();
    assert_eq!(input.text(), "bc");
}

#[test]
fn text_input_ignores_control_characters() {
    let mut input = TextInput::default();
    input.insert('\n');
    input.insert('\t');
    assert!(input.is_empty());
}

#[test]
fn prompt_keeps_an_editable_buffer() {
    let mut prompt = PromptState::new("新建歌单", PromptAction::CreateCloudPlaylist);

    for c in "abc".chars() {
        prompt.buffer.insert(c);
    }
    assert_eq!(prompt.buffer.text(), "abc");

    prompt.buffer.move_left();
    prompt.buffer.insert('X');
    assert_eq!(prompt.buffer.text(), "abXc", "插入应发生在光标处");

    prompt.buffer.delete();
    assert_eq!(prompt.buffer.text(), "abX");

    prompt.buffer.backspace();
    assert_eq!(prompt.buffer.text(), "ab");

    prompt.buffer.move_home();
    prompt.buffer.insert('Z');
    assert_eq!(prompt.buffer.text(), "Zab");
}

#[test]
fn text_input_cursor_never_exceeds_length() {
    let mut input = TextInput::default();
    input.set("ab");
    for _ in 0..10 {
        input.move_right();
    }
    assert_eq!(input.cursor_byte_index(), 2);
    input.insert('c');
    assert_eq!(input.text(), "abc");
}

#[test]
fn move_selection_clamps_at_both_ends() {
    let mut state = ListState::default();
    move_selection(&mut state, 3, 1);
    assert_eq!(state.selected(), Some(0));
    move_selection(&mut state, 3, -5);
    assert_eq!(state.selected(), Some(0));
    move_selection(&mut state, 3, 99);
    assert_eq!(state.selected(), Some(2));
}

#[test]
fn move_selection_on_empty_list_clears_selection() {
    let mut state = ListState::default();
    state.select(Some(5));
    move_selection(&mut state, 0, 1);
    assert_eq!(state.selected(), None);
}

#[test]
fn quality_picker_defaults_to_current_quality() {
    assert_eq!(
        QualityPicker::new(sample_song(), "flac").selected(),
        Some("flac")
    );
    assert_eq!(
        QualityPicker::new(sample_song(), "320").selected(),
        Some("320")
    );
}

#[test]
fn quality_picker_handles_unknown_quality() {
    assert_eq!(
        QualityPicker::new(sample_song(), "不存在的音质").selected(),
        Some("128")
    );
}

#[test]
fn quality_picker_move_stays_in_range() {
    let mut picker = QualityPicker::new(sample_song(), "128");
    picker.move_by(-1);
    assert_eq!(picker.selected(), Some("128"));

    picker.move_by(1);
    assert_eq!(picker.selected(), Some("320"));

    for _ in 0..20 {
        picker.move_by(1);
    }
    assert_eq!(
        picker.selected(),
        Some("viper_tape"),
        "应当停在最后一项而不是越界"
    );
}

#[test]
fn quality_picker_covers_all_supported() {
    let picker = QualityPicker::new(sample_song(), "128");
    assert_eq!(
        picker.candidates.len(),
        SUPPORTED_QUALITIES.len()
    );
    for quality in SUPPORTED_QUALITIES {
        assert!(
            picker.candidates.iter().any(|c| c == quality),
            "缺少音质 {quality}"
        );
    }
}

#[test]
fn songs_are_descending_by_default() {
    let mut list = SongList::default();
    list.set_songs_sorted("t".to_string(), vec![named("a"), named("b"), named("c")], true);
    let names: Vec<&str> = list.songs.iter().map(|song| song.name.as_str()).collect();
    assert_eq!(names, vec!["c", "b", "a"]);
}

#[test]
fn toggle_sort_mirrors_order_and_cursor() {
    let mut list = SongList::default();
    list.replace("t".to_string(), vec![named("a"), named("b"), named("c")]);
    list.select(0);

    list.toggle_sort();

    assert_eq!(list.songs[0].name, "c", "反转后最后一首排在最上面");
    assert_eq!(
        list.selected_index(),
        Some(2),
        "光标应镜像到另一端，仍指向同一首歌"
    );
}

