use kugou_tui::json::Json;
use kugou_tui::model::{
    extract_songs, format_duration_ms, normalize_duration, song_from_json, strip_extension, Lyric,
    LyricLine, Song,
};

fn text(value: &str) -> Json {
    Json::Text(value.to_string())
}

fn object(members: Vec<(&str, Json)>) -> Json {
    Json::Object(members.into_iter().map(|(key, value)| (key.to_string(), value)).collect())
}

#[test]
fn parses_search_result_payload() {
    let data = object(vec![("pagesize", Json::Int(5)), ("page", Json::Int(1)), ("total", Json::Int(480)), ("correctiontype", Json::Int(0)), ("lists", Json::Array(vec![object(vec![("FileName", text("Alstroemeria Records - Bad Apple!! (feat.nomico)")), ("SingerName", text("Alstroemeria Records")), ("OriSongName", text("Bad Apple!!")), ("FileHash", text("F20A1FDBE025D06207B6BC31F0699F0A")), ("ExtName", text("mp3")), ("Duration", Json::Int(317)), ("AlbumID", Json::Int(15130869)), ("AlbumName", text("10th Anniversary Bad Apple!! feat.nomico PHASE3")), ("MixSongID", Json::Int(130275462))])])), ("sec_aggre_v2", Json::Array(vec![])), ("istag", Json::Int(0)), ("size", Json::Int(0))]);

    let songs = extract_songs(&data);
    assert_eq!(songs.len(), 1, "应解析出 1 首，实际 {}", songs.len());

    let song = &songs[0];
    assert_eq!(song.name, "Bad Apple!!");
    assert_eq!(song.hash, "F20A1FDBE025D06207B6BC31F0699F0A");
    assert_eq!(song.duration_ms, 317_000, "Duration 是秒，应换算成毫秒");
    assert_eq!(song.album_audio_id, 130_275_462);
}

#[test]
fn parses_search_result_song() {
    let raw = object(vec![("SongName", text("海阔天空")), ("FileHash", text("ABC123")), ("AlbumID", Json::Int(12345)), ("AlbumAudioID", text("67890")), ("AlbumName", text("乐与怒")), ("Duration", Json::Int(326)), ("Privilege", Json::Int(8)), ("Singer", Json::Array(vec![object(vec![("id", Json::Int(42)), ("name", text("Beyond"))])]))]);

    let song = song_from_json(&raw).expect("应能解析");
    assert_eq!(song.name, "海阔天空");
    assert_eq!(song.hash, "ABC123");
    assert_eq!(song.album_id, "12345");
    assert_eq!(song.album_audio_id, 67_890);
    assert_eq!(song.duration_ms, 326_000);
    assert_eq!(song.singer_text(), "Beyond");
    assert!(song.looks_playable());
}

#[test]
fn parses_playlist_entry_song() {
    let raw = object(vec![("filename", text("Beyond - 海阔天空")), ("hash", text("DEF456")), ("duration", Json::Int(326000)), ("fileid", Json::Int(999))]);

    let song = song_from_json(&raw).expect("应能解析");
    assert_eq!(song.hash, "DEF456");
    assert_eq!(song.duration_ms, 326_000);
    assert_eq!(song.file_id, Some(999));
    assert_eq!(song.singer_text(), "Beyond");
}

#[test]
fn rejects_song_without_hash() {
    assert!(song_from_json(&object(vec![("SongName", text("无 hash"))])).is_none());
}

#[test]
fn parses_rank_entry_with_nested_audio_info() {
    let raw = object(vec![("songname", text("甲乙丙丁 (你我怎么两清)")), ("author_name", text("李佳薇")), ("authors", Json::Array(vec![object(vec![("author_id", Json::Int(83922)), ("author_name", text("李佳薇"))])])), ("audio_id", Json::Int(1106816298)), ("album_id", Json::Int(197648995)), ("album_audio_id", Json::Int(920474385)), ("audio_info", object(vec![("hash_128", text("213D580CA0BDCC28A5FDBA995FFDA106")), ("hash_320", text("B7AC734C6806EFF90C22C74F1AFFA156")), ("hash_flac", text("85479C21FADC65A7C495989D6FE9396D")), ("duration_128", Json::Int(210000)), ("filesize_128", Json::Int(3368531))])), ("album_info", object(vec![("album_name", text("甲乙丙丁")), ("sizable_cover", text("http://imge.kugou.com/stdmusic/{size}/x.jpg"))]))]);

    let song = song_from_json(&raw).expect("排行榜条目也应能解析");
    assert_eq!(song.hash, "213D580CA0BDCC28A5FDBA995FFDA106");
    assert_eq!(song.name, "甲乙丙丁 (你我怎么两清)");
    assert_eq!(song.album_name, "甲乙丙丁");
    assert_eq!(song.duration_ms, 210_000);
    assert_eq!(song.album_audio_id, 920_474_385);
    assert_eq!(song.singer_text(), "李佳薇");
    assert!(song.cover.is_some());
    assert!(song.looks_playable());
}

#[test]
fn parses_playlist_entry_with_prefixed_name() {
    let raw = object(vec![("name", text("BIGBANG - Love Song")), ("hash", text("1B0772CFE733408D58B4EEE703E1EBAE")), ("timelen", Json::Int(225854)), ("size", Json::Int(3614319)), ("bitrate", Json::Int(128)), ("extname", text("mp3")), ("album_id", text("537580")), ("mixsongid", Json::Int(64542610)), ("fileid", Json::Int(58)), ("privilege", Json::Int(10)), ("singerinfo", Json::Array(vec![object(vec![("name", text("BIGBANG")), ("id", Json::Int(84161)), ("type", Json::Int(2))])])), ("albuminfo", object(vec![("name", text("빅뱅 스페셜에디션")), ("id", Json::Int(537580))])), ("cover", text("http://imge.kugou.com/stdmusic/{size}/x.jpg"))]);

    let song = song_from_json(&raw).expect("歌单条目应能解析");
    assert_eq!(song.name, "Love Song", "应去掉与歌手列重复的前缀");
    assert_eq!(song.singer_text(), "BIGBANG");
    assert_eq!(song.duration_ms, 225_854, "`timelen` 是毫秒");
    assert_eq!(song.album_name, "빅뱅 스페셜에디션");
    assert_eq!(song.album_audio_id, 64_542_610);
    assert_eq!(song.file_id, Some(58));
    assert_eq!(song.privilege, Some(10));
    assert!(song.looks_playable());
}

#[test]
fn keeps_name_when_prefix_is_not_the_singer() {
    let raw = object(vec![("SongName", text("Love - Actually")), ("FileHash", text("H")), ("Singer", Json::Array(vec![object(vec![("id", Json::Int(1)), ("name", text("Someone Else"))])]))]);
    let song = song_from_json(&raw).expect("应能解析");
    assert_eq!(song.name, "Love - Actually", "前缀不是歌手名时不该动它");
}

#[test]
fn missing_privilege_is_treated_as_playable() {
    let absent = song_from_json(&object(vec![("FileHash", text("H"))])).expect("应能解析");
    assert_eq!(absent.privilege, None);
    assert!(absent.looks_playable());

    let blocked = song_from_json(&object(vec![("FileHash", text("H")), ("Privilege", Json::Int(0))])).expect("应能解析");
    assert_eq!(blocked.privilege, Some(0));
    assert!(!blocked.looks_playable());
}

#[test]
fn extracts_songs_from_nested_container() {
    let payload = object(vec![("data", object(vec![("info", Json::Array(vec![object(vec![("SongName", text("A")), ("FileHash", text("h1"))]), object(vec![("SongName", text("B")), ("FileHash", text("h2"))])]))]))]);
    let songs = extract_songs(payload.get("data").expect("data"));
    assert_eq!(songs.len(), 2);
    assert_eq!(songs[1].name, "B");
}

#[test]
fn finds_current_lyric_line() {
    let lyric = Lyric {
        lines: vec![
            LyricLine {
                time_ms: 1_000,
                text: "第一句".into(),
                translation: None,
                romanization: None,
            },
            LyricLine {
                time_ms: 5_000,
                text: "第二句".into(),
                translation: None,
                romanization: None,
            },
            LyricLine {
                time_ms: 9_000,
                text: "第三句".into(),
                translation: None,
                romanization: None,
            },
        ],
    };
    assert_eq!(lyric.index_at(500), None);
    assert_eq!(lyric.index_at(1_000), Some(0));
    assert_eq!(lyric.index_at(7_000), Some(1));
    assert_eq!(lyric.index_at(60_000), Some(2));
}

#[test]
fn expands_cover_size_placeholder() {
    let song = Song {
        cover: Some("http://imge.kugou.com/stdmusic/{size}/20200819/x.jpg".to_string()),
        ..Song::default()
    };
    assert_eq!(
        song.cover_url(400).as_deref(),
        Some("http://imge.kugou.com/stdmusic/400/20200819/x.jpg")
    );

    let song = Song {
        cover: Some("https://p3.music.126.net/abc/1.jpg".to_string()),
        ..Song::default()
    };
    assert_eq!(
        song.cover_url(400).as_deref(),
        Some("https://p3.music.126.net/abc/1.jpg")
    );

    assert_eq!(Song::default().cover_url(400), None);
}

#[test]
fn strips_audio_extension() {
    assert_eq!(strip_extension("Overcast Sky.mp3"), "Overcast Sky");
    assert_eq!(strip_extension("Song.FLAC"), "Song", "扩展名大小写无关");
    assert_eq!(strip_extension("No Extension"), "No Extension");
    assert_eq!(strip_extension(".mp3"), ".mp3");
    assert_eq!(strip_extension("海阔天空.MP3"), "海阔天空");
}

#[test]
fn strip_extension_is_safe_for_multibyte_names() {
    assert_eq!(strip_extension("İ.mp3"), "İ");
    assert_eq!(strip_extension("straße.flac"), "straße");
}

#[test]
fn normalizes_duration_units() {
    assert_eq!(normalize_duration(0), 0);
    assert_eq!(normalize_duration(317), 317_000, "秒 → 毫秒");
    assert_eq!(normalize_duration(210_000), 210_000, "毫秒原样保留");
    assert_eq!(normalize_duration(10_000), 10_000);
    assert_eq!(normalize_duration(9_999), 9_999_000);
}

#[test]
fn formats_duration() {
    assert_eq!(format_duration_ms(0), "00:00");
    assert_eq!(format_duration_ms(227_000), "03:47");
    assert_eq!(format_duration_ms(3_723_000), "1:02:03");
}

