use kugou_tui::download::{temp_path_for, Downloader};

#[test]
fn infers_extension_ignoring_query_string() {
    assert_eq!(
        Downloader::extension_from_url("http://cdn.kugou.com/a/b/abc.mp3?token=xyz&x=1"),
        "mp3"
    );
    assert_eq!(Downloader::extension_from_url("https://x/y.flac"), "flac");
    assert_eq!(
        Downloader::extension_from_url("https://x/y.m4a#frag"),
        "m4a"
    );
}

#[test]
fn falls_back_to_mp3_for_unknown_extension() {
    assert_eq!(Downloader::extension_from_url("http://x/stream"), "mp3");
    assert_eq!(Downloader::extension_from_url("http://x/y.weird"), "mp3");
}

#[test]
fn builds_part_file_beside_target() {
    let path = temp_path_for("/tmp/cache/abc-128.mp3");
    assert_eq!(path, "/tmp/cache/abc-128.mp3.part");
}

