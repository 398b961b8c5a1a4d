use kugou_tui::model::Song;
use kugou_tui::source::{stamp_songs, SourceKind, SourceProfile};

#[test]
fn stamp_marks_every_song_with_its_source() {
    let mut songs = vec![Song::default(), Song::default()];
    stamp_songs(&mut songs, SourceKind::Netease);
    assert!(
        songs.iter().all(|song| song.source == SourceKind::Netease),
        "每首歌都要带上来源音源"
    );
}

#[test]
fn stamp_overrides_parse_time_default() {
    let mut songs = vec![Song::default()];
    assert_eq!(songs[0].source, SourceKind::Kugou, "默认是酷狗");
    stamp_songs(&mut songs, SourceKind::KugouConcept);
    assert_eq!(songs[0].source, SourceKind::KugouConcept, "应被改写");
}

#[test]
fn profile_cookie_header_uses_own_credentials() {
    let mut profile = SourceProfile::new(SourceKind::Netease);
    assert_eq!(profile.cookie_header(), None, "没有凭据时不给 cookie");

    profile.cookie = Some("token=abc; userid=1".to_string());
    profile.device_id = Some("df-1".to_string());
    assert_eq!(
        profile.cookie_header().as_deref(),
        Some("token=abc; userid=1; dfid=df-1"),
        "应把 dfid 拼进去"
    );

    profile.cookie = Some("token=abc; dfid=own".to_string());
    assert_eq!(
        profile.cookie_header().as_deref(),
        Some("token=abc; dfid=own")
    );
}

