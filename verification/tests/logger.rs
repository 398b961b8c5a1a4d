use kugou_tui::logger::civil_from_unix;

#[test]
fn converts_epoch_to_calendar_date() {
    assert_eq!(civil_from_unix(0), (1970, 1, 1, 0, 0, 0));
    assert_eq!(civil_from_unix(1_789_875_855), (2026, 9, 20, 3, 44, 15));
    assert_eq!(civil_from_unix(1_709_164_800), (2024, 2, 29, 0, 0, 0));
}

