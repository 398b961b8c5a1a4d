//! QQ Music: its own requests and its own layouts.
//!
//! The service does not say how its answers are laid out, so every value is looked for under several
//! names, and what is missing costs one entry at most.
use vstd::prelude::*;
use crate::catalog::StreamUrl;
use crate::client::{Mode, Request, RequestModel};
use crate::cloud;
use crate::error::AppError;
use crate::json::{self, Json};
use crate::lyric;
use crate::model::{self, Lyric, LyricLineModel, Singer, SingerModel, Song, SongModel};
use crate::netease;
use crate::source::SourceKind;
use crate::text;

verus! {

/// The request for one page of songs that match `keyword`.
pub fn search_songs(keyword: &str, page: u32, page_size: u32) -> (r: Request)
    ensures
        r.deep_view() == (RequestModel {
            path: "/getSearchByKey"@,
            query: seq![
                ("key"@, keyword@),
                ("limit"@, netease::num(netease::page_limit(page_size))),
                (
                    "page"@,
                    netease::num(
                        if page == 0 {
                            1
                        } else {
                            page
                        },
                    ),
                ),
            ],
            mode: Mode::Fresh,
        }),
{
    let size: u32 = if page_size == 0 {
        netease::DEFAULT_PAGE_SIZE
    } else {
        page_size
    };
    let page: u32 = if page == 0 {
        1
    } else {
        page
    };
    let r = Request::new("/getSearchByKey", Mode::Fresh).with("key", keyword.to_owned()).with(
        "limit",
        text::write_u64(size as u64),
    ).with("page", text::write_u64(page as u64));
    proof {
        assert(r.deep_view().query =~= seq![
            ("key"@, keyword@),
            ("limit"@, netease::num(size)),
            ("page"@, netease::num(page)),
        ]);
    }
    r
}

// ---------------------------------------------------------------------------
// Songs
// ---------------------------------------------------------------------------
/// The address of the cover of an album.
pub open spec fn cover_of(album: Seq<char>) -> Seq<char> {
    "https://y.gtimg.cn/music/photo_new/T002R300x300M000"@ + album + ".jpg"@
}

/// The address of the cover of an album.
pub fn cover_url(album_mid: &str) -> (r: String)
    ensures
        r@ == cover_of(album_mid@),
{
    text::join3("https://y.gtimg.cn/music/photo_new/T002R300x300M000", album_mid, ".jpg")
}

/// The singer that an entry names.
pub open spec fn singer_of(entry: Json) -> Option<SingerModel> {
    match json::first_text(entry, seq!["name", "singerName"]) {
        Some(name) => Some(
            SingerModel {
                id: model::or_zero(json::first_number(entry, seq!["id", "mid"])),
                name,
            },
        ),
        None => None,
    }
}

/// [`singer_of`] as a value.
pub open spec fn singer_model() -> spec_fn(Json) -> Option<SingerModel> {
    |entry: Json| singer_of(entry)
}

/// The singers that a list of them names.
pub open spec fn listed_singers(value: Json) -> Seq<SingerModel> {
    match json::at(value, "singer"@) {
        Some(list) => match json::array(list) {
            Some(items) => json::kept(items@, singer_model()),
            None => Seq::empty(),
        },
        None => Seq::empty(),
    }
}

/// The singers of a song: those listed, else the one named.
pub open spec fn singers_of(value: Json) -> Seq<SingerModel> {
    if listed_singers(value).len() > 0 {
        listed_singers(value)
    } else {
        match json::first_text(value, seq!["singerName", "singer_name"]) {
            Some(name) => seq![SingerModel { id: 0, name }],
            None => Seq::empty(),
        }
    }
}

/// Reads the singer that an entry names.
fn singer_from_json(entry: &Json) -> (r: Option<Singer>)
    ensures
        r.deep_view() == singer_of(*entry),
{
    let name_keys = ["name", "singerName"];
    let id_keys = ["id", "mid"];
    proof {
        assert(name_keys@ =~= seq!["name", "singerName"]);
        assert(id_keys@ =~= seq!["id", "mid"]);
    }
    match json::pick_string(entry, &name_keys) {
        Some(name) => {
            let id: i64 = match json::pick_i64(entry, &id_keys) {
                Some(id) => id,
                None => 0,
            };
            Some(Singer { id, name })
        },
        None => None,
    }
}

/// Reads the singers of a song.
pub fn parse_singers(value: &Json) -> (r: Vec<Singer>)
    ensures
        r.deep_view() == singers_of(*value),
{
    let name_keys = ["singerName", "singer_name"];
    proof {
        assert(name_keys@ =~= seq!["singerName", "singer_name"]);
        assert(json::reads::<Singer, _>(singer_from_json, singer_model()));
    }
    if let Some(list) = value.get("singer") {
        if let Some(items) = list.as_array() {
            let listed = json::read_all(items.as_slice(), &singer_from_json);
            if listed.len() > 0 {
                return listed;
            }
        }
    }
    let mut named: Vec<Singer> = Vec::new();
    if let Some(name) = json::pick_string(value, &name_keys) {
        let ghost words = name@;
        named.push(Singer { id: 0, name });
        proof {
            assert(named.deep_view() =~= seq![SingerModel { id: 0, name: words }]);
        }
        return named;
    }
    proof {
        assert(named.deep_view() =~= Seq::<SingerModel>::empty());
    }
    named
}

/// The name of the album of a song.
pub open spec fn album_of(value: Json) -> Option<Seq<char>> {
    model::either(
        json::first_text(value, seq!["albummid", "album_mid"]),
        netease::text_of(json::at(value, "album"@), seq!["mid", "albummid"]),
    )
}

/// The length of a song in milliseconds: it is given in seconds, or else in milliseconds.
pub open spec fn length_of(value: Json) -> u64 {
    match json::first_u64(value, seq!["interval"]) {
        Some(seconds) => if seconds * 1000 > u64::MAX {
            u64::MAX
        } else {
            (seconds * 1000) as u64
        },
        None => match json::first_u64(value, seq!["duration"]) {
            Some(ms) => ms,
            None => 0,
        },
    }
}

/// The song that `value` describes; none without a name by which it is asked for.
pub open spec fn song_of(value: Json) -> Option<SongModel> {
    match json::first_text(value, seq!["songmid", "mid", "songid", "id"]) {
        Some(mid) => Some(
            SongModel {
                name: match json::first_text(value, seq!["songname", "name", "title"]) {
                    Some(name) => name,
                    None => "未知曲目"@,
                },
                hash: mid,
                album_id: model::or_blank(album_of(value)),
                album_audio_id: model::or_zero(json::first_number(value, seq!["songid", "id"])),
                album_name: model::or_blank(
                    model::either(
                        json::first_text(value, seq!["albumname", "album_name"]),
                        netease::text_of(json::at(value, "album"@), seq!["name"]),
                    ),
                ),
                singers: singers_of(value),
                duration_ms: length_of(value),
                cover: match album_of(value) {
                    Some(album) => Some(cover_of(album)),
                    None => None,
                },
                privilege: None,
                file_id: None,
                extra_hashes: Seq::empty(),
                source: SourceKind::Kugou,
            },
        ),
        None => None,
    }
}

/// [`song_of`] as a value.
pub open spec fn song_model() -> spec_fn(Json) -> Option<SongModel> {
    |value: Json| song_of(value)
}

/// Reads the name of the album of a song.
fn album_mid(value: &Json) -> (r: Option<String>)
    ensures
        r.deep_view() == album_of(*value),
{
    let own_keys = ["albummid", "album_mid"];
    let inner_keys = ["mid", "albummid"];
    proof {
        assert(own_keys@ =~= seq!["albummid", "album_mid"]);
        assert(inner_keys@ =~= seq!["mid", "albummid"]);
    }
    match json::pick_string(value, &own_keys) {
        Some(mid) => Some(mid),
        None => netease::pick_text(value.get("album"), &inner_keys),
    }
}

/// Reads the title of the album of a song.
fn album_title(value: &Json) -> (r: String)
    ensures
        r@ == model::or_blank(
            model::either(
                json::first_text(*value, seq!["albumname", "album_name"]),
                netease::text_of(json::at(*value, "album"@), seq!["name"]),
            ),
        ),
{
    let own_keys = ["albumname", "album_name"];
    let inner_keys = ["name"];
    proof {
        assert(own_keys@ =~= seq!["albumname", "album_name"]);
        assert(inner_keys@ =~= seq!["name"]);
    }
    model::text_or_blank(
        match json::pick_string(value, &own_keys) {
            Some(name) => Some(name),
            None => netease::pick_text(value.get("album"), &inner_keys),
        },
    )
}

/// Reads the length of a song in milliseconds.
fn song_length(value: &Json) -> (r: u64)
    ensures
        r == length_of(*value),
{
    let second_keys = ["interval"];
    let ms_keys = ["duration"];
    proof {
        assert(second_keys@ =~= seq!["interval"]);
        assert(ms_keys@ =~= seq!["duration"]);
    }
    match json::pick_u64(value, &second_keys) {
        Some(seconds) => match seconds.checked_mul(1000) {
            Some(ms) => ms,
            None => u64::MAX,
        },
        None => match json::pick_u64(value, &ms_keys) {
            Some(ms) => ms,
            None => 0,
        },
    }
}

/// Reads a song; none without a name by which it is asked for.
pub fn song_from_json(value: &Json) -> (r: Option<Song>)
    ensures
        r.deep_view() == song_of(*value),
{
    let mid_keys = ["songmid", "mid", "songid", "id"];
    let name_keys = ["songname", "name", "title"];
    let id_keys = ["songid", "id"];
    proof {
        assert(mid_keys@ =~= seq!["songmid", "mid", "songid", "id"]);
        assert(name_keys@ =~= seq!["songname", "name", "title"]);
        assert(id_keys@ =~= seq!["songid", "id"]);
    }
    let hash = match json::pick_string(value, &mid_keys) {
        Some(mid) => mid,
        None => {
            return None;
        },
    };
    let name = match json::pick_string(value, &name_keys) {
        Some(name) => name,
        None => "未知曲目".to_owned(),
    };
    let album_audio_id: i64 = match json::pick_i64(value, &id_keys) {
        Some(id) => id,
        None => 0,
    };
    let album = album_mid(value);
    let cover = match &album {
        Some(mid) => Some(cover_url(mid.as_str())),
        None => None,
    };
    let song = Song {
        name,
        hash,
        album_id: model::text_or_blank(album),
        album_audio_id,
        album_name: album_title(value),
        singers: parse_singers(value),
        duration_ms: song_length(value),
        cover,
        privilege: None,
        file_id: None,
        extra_hashes: Vec::new(),
        source: SourceKind::Kugou,
    };
    proof {
        assert(song.extra_hashes.deep_view() =~= Seq::<(Seq<char>, Seq<char>)>::empty());
    }
    Some(song)
}

/// The songs of an answer, those under `list` before any other.
pub fn read_songs(root: &Json) -> (r: Vec<Song>)
    ensures
        r.deep_view() == json::listed(json::payload(*root), seq!["list"], song_model()),
{
    let keys = ["list"];
    let r = json::extract_list(json::data_of(root), &keys, song_from_json);
    proof {
        assert(keys@ =~= seq!["list"]);
        assert(json::reads::<Song, _>(song_from_json, song_model()));
    }
    r
}

// ---------------------------------------------------------------------------
// Addresses and lyrics
// ---------------------------------------------------------------------------
/// The request for the address of a song.
pub fn song_stream_url(song: &Song) -> (r: Request)
    ensures
        r.deep_view() == (RequestModel {
            path: "/getMusicPlay/"@ + song.hash@,
            query: Seq::empty(),
            mode: Mode::Fresh,
        }),
{
    let path = text::join2("/getMusicPlay/", song.hash.as_str());
    let r = Request::new(path.as_str(), Mode::Fresh);
    proof {
        assert(r.deep_view().query =~= Seq::<(Seq<char>, Seq<char>)>::empty());
    }
    r
}

/// What an answer gives as address: at its top, or with the first of its items.
pub open spec fn raw_address(data: Json) -> Option<Seq<char>> {
    model::either(
        json::first_text(data, seq!["url", "playUrl", "purl"]),
        match json::at(data, "midUrlInfo"@) {
            Some(list) => match json::array(list) {
                Some(items) => if items@.len() > 0 {
                    json::first_text(items@[0], seq!["purl", "url"])
                } else {
                    None
                },
                None => None,
            },
            None => None,
        },
    )
}

/// The address in an answer, with its protocol; a blank one is none.
pub open spec fn address_of(root: Json) -> Option<Seq<char>> {
    match raw_address(json::payload(root)) {
        Some(url) => if text::trimmed(url).len() == 0 {
            None
        } else if text::begins(url, "http"@) {
            Some(url)
        } else {
            Some("https://"@ + url)
        },
        None => None,
    }
}

/// Reads what an answer gives as address.
fn pick_address(data: &Json) -> (r: Option<String>)
    ensures
        r.deep_view() == raw_address(*data),
{
    let own_keys = ["url", "playUrl", "purl"];
    let inner_keys = ["purl", "url"];
    proof {
        assert(own_keys@ =~= seq!["url", "playUrl", "purl"]);
        assert(inner_keys@ =~= seq!["purl", "url"]);
    }
    if let Some(url) = json::pick_string(data, &own_keys) {
        return Some(url);
    }
    if let Some(list) = data.get("midUrlInfo") {
        if let Some(items) = list.as_array() {
            if items.len() > 0 {
                return json::pick_string(&items[0], &inner_keys);
            }
        }
    }
    None
}

/// Reads the address of `song` from an answer.
pub fn read_stream_url(root: &Json, song: &Song) -> (r: Result<StreamUrl, AppError>)
    ensures
        match r {
            Ok(stream) => address_of(*root) == Some(stream.url@) && !stream.is_trial
                && stream.reason is None,
            Err(error) => address_of(*root) is None && error.deep_view() == netease::no_address(
                song.name@,
            ),
        },
{
    match cloud::not_blank(pick_address(json::data_of(root))) {
        Some(url) => {
            let url = if text::starts_with(url.as_str(), "http") {
                url
            } else {
                text::join2("https://", url.as_str())
            };
            Ok(StreamUrl { url, is_trial: false, reason: None })
        },
        None => Err(
            AppError::NotFound(
                text::join3(
                    "《",
                    song.name.as_str(),
                    "》没有可用的播放地址（可能需要 VIP 或已下架）",
                ),
            ),
        ),
    }
}

/// The name that stands for a quality.
pub open spec fn rate_of(quality: Seq<char>) -> Seq<char> {
    if quality == "320"@ {
        "320"@
    } else if quality == "flac"@ || quality == "super"@ {
        "flac"@
    } else {
        "128"@
    }
}

/// The name that stands for a quality.
pub fn bitrate_for(quality: &str) -> (r: String)
    ensures
        r@ == rate_of(quality@),
{
    if text::same(quality, "320") {
        "320".to_owned()
    } else if text::same(quality, "flac") || text::same(quality, "super") {
        "flac".to_owned()
    } else {
        "128".to_owned()
    }
}

/// The request for the lyric of a song.
pub fn fetch_lyric(song: &Song) -> (r: Request)
    ensures
        r.deep_view() == (RequestModel {
            path: "/getLyric/"@ + song.hash@,
            query: Seq::empty(),
            mode: Mode::Fresh,
        }),
{
    let path = text::join2("/getLyric/", song.hash.as_str());
    let r = Request::new(path.as_str(), Mode::Fresh);
    proof {
        assert(r.deep_view().query =~= Seq::<(Seq<char>, Seq<char>)>::empty());
    }
    r
}

/// The text of the lyric in an answer.
pub open spec fn words_of(data: Json) -> Seq<char> {
    model::or_blank(
        model::either(
            json::first_text(data, seq!["lyric", "lrc"]),
            netease::text_of(json::at(data, "data"@), seq!["lyric", "lrc"]),
        ),
    )
}

/// The text of the translation in an answer.
pub open spec fn translation_of(data: Json) -> Option<Seq<char>> {
    model::either(
        json::first_text(data, seq!["trans", "tlyric"]),
        netease::text_of(json::at(data, "data"@), seq!["trans"]),
    )
}

/// The lyric that an answer gives, with its translation.
pub open spec fn lyric_of(root: Json) -> Seq<LyricLineModel> {
    let data = json::payload(root);
    let lines = lyric::lyric_lines(words_of(data));
    match translation_of(data) {
        Some(words) => netease::with_translation(lines, lyric::lyric_lines(words)),
        None => lines,
    }
}

/// Reads the text under keys of a document, or under other keys of its `data`.
fn pick_inner(data: &Json, own_keys: &[&str], inner_keys: &[&str]) -> (r: Option<String>)
    ensures
        r.deep_view() == model::either(
            json::first_text(*data, own_keys@),
            netease::text_of(json::at(*data, "data"@), inner_keys@),
        ),
{
    match json::pick_string(data, own_keys) {
        Some(words) => Some(words),
        None => netease::pick_text(data.get("data"), inner_keys),
    }
}

/// Reads the lyric of `song` from an answer; a blank lyric is none.
pub fn read_lyric(root: &Json, song: &Song) -> (r: Result<Lyric, AppError>)
    ensures
        match r {
            Ok(lyric) => text::trimmed(words_of(json::payload(*root))).len() > 0
                && lyric.deep_view() == lyric_of(*root),
            Err(error) => text::trimmed(words_of(json::payload(*root))).len() == 0
                && error.deep_view() == lyric::lyric_missing(song.name@),
        },
{
    let data = json::data_of(root);
    let words_keys = ["lyric", "lrc"];
    let own_keys = ["trans", "tlyric"];
    let inner_keys = ["trans"];
    proof {
        assert(words_keys@ =~= seq!["lyric", "lrc"]);
        assert(own_keys@ =~= seq!["trans", "tlyric"]);
        assert(inner_keys@ =~= seq!["trans"]);
    }
    let main = model::text_or_blank(pick_inner(data, &words_keys, &words_keys));
    if text::is_blank(main.as_str()) {
        return Err(
            AppError::NotFound(text::join3("未找到《", song.name.as_str(), "》的歌词")),
        );
    }
    let mut lyric = lyric::parse_lrc(main.as_str());
    if let Some(words) = pick_inner(data, &own_keys, &inner_keys) {
        let translation = lyric::parse_lrc(words.as_str());
        netease::attach_translation(&mut lyric, &translation);
    }
    Ok(lyric)
}

} // verus!
