//! Netease Cloud Music: its own requests and its own layouts.
//!
//! The service describes a song in two layouts: in search results `artists`, `album` and `duration`,
//! elsewhere `ar`, `al` and `dt`. Both are read.
use vstd::prelude::*;
use vstd::string::StringExecFns;
use crate::client::{Mode, Request, RequestModel};
use crate::cloud;
use crate::cloud::{QrCheck, QrModel, QrStatus, UserInfo, UserModel};
use crate::error::{AppError, ErrorModel};
use crate::json;
use crate::json::Json;
use crate::lyric;
use crate::model;
use crate::model::{
    Artist,
    ArtistModel,
    Lyric,
    LyricLine,
    LyricLineModel,
    Playlist,
    PlaylistModel,
    RankBoard,
    RankBoardModel,
    Singer,
    SingerModel,
    Song,
    SongModel,
};
use crate::catalog::StreamUrl;
use crate::source::SourceKind;
use crate::text;

verus! {

/// How many entries a page has where nothing else is asked.
pub const DEFAULT_PAGE_SIZE: u32 = 30;

/// How many pages of a list are asked for at most.
pub const MAX_TRACK_PAGES: u32 = 20;

/// How many songs of a list are asked for at once.
pub const TRACK_PAGE: u32 = 500;

/// The size of a page; 0 stands for the usual one.
pub open spec fn page_limit(page_size: u32) -> u32 {
    if page_size == 0 {
        DEFAULT_PAGE_SIZE
    } else {
        page_size
    }
}

/// The first entry of a page.
pub open spec fn page_offset(page: u32, limit: u32) -> u32 {
    let before = if page == 0 {
        0
    } else {
        (page - 1) * limit
    };
    if before > u32::MAX {
        u32::MAX
    } else {
        before as u32
    }
}

/// The decimal form of a small number.
pub open spec fn num(n: u32) -> Seq<char> {
    text::decimal(n as nat)
}

/// The size of a page; 0 stands for the usual one.
fn limit_for(page_size: u32) -> (r: u32)
    ensures
        r == page_limit(page_size),
{
    if page_size == 0 {
        DEFAULT_PAGE_SIZE
    } else {
        page_size
    }
}

/// The first entry of a page.
fn offset_for(page: u32, limit: u32) -> (r: u32)
    ensures
        r == page_offset(page, limit),
{
    if page == 0 {
        return 0;
    }
    match (page - 1).checked_mul(limit) {
        Some(offset) => offset,
        None => u32::MAX,
    }
}

/// The names of the songs' recordings.
pub open spec fn hashes(songs: Seq<SongModel>) -> Seq<Seq<char>> {
    songs.map_values(|song: SongModel| song.hash)
}

/// The request to add songs to a playlist.
pub open spec fn add_request(list_id: i64, songs: Seq<SongModel>) -> RequestModel {
    RequestModel {
        path: "/playlist/track/add"@,
        query: seq![
            ("pid"@, text::signed_decimal(list_id as int)),
            ("ids"@, text::joined(hashes(songs), ","@)),
        ],
        mode: Mode::Writing,
    }
}

/// The request to remove songs from a playlist.
pub open spec fn remove_request(list_id: i64, songs: Seq<SongModel>) -> RequestModel {
    RequestModel {
        path: "/playlist/track/delete"@,
        query: seq![
            ("id"@, text::signed_decimal(list_id as int)),
            ("ids"@, text::joined(hashes(songs), ","@)),
        ],
        mode: Mode::Writing,
    }
}

/// The request to delete a playlist.
pub open spec fn delete_request(list_id: i64) -> RequestModel {
    RequestModel {
        path: "/playlist/delete"@,
        query: seq![("id"@, text::signed_decimal(list_id as int))],
        mode: Mode::Writing,
    }
}

/// The request to create a playlist.
pub open spec fn create_request(name: Seq<char>) -> RequestModel {
    RequestModel {
        path: "/playlist/create"@,
        query: seq![("name"@, name)],
        mode: Mode::Writing,
    }
}

/// The recordings of the songs from `from` up to `to`, with commas between them.
fn joined_hashes(songs: &[Song], from: usize, to: usize) -> (r: String)
    requires
        from <= to <= songs@.len(),
    ensures
        r@ == text::joined(hashes(songs.deep_view().subrange(from as int, to as int)), ","@),
{
    let ghost part = songs.deep_view().subrange(from as int, to as int);
    let mut out: Vec<String> = Vec::new();
    let mut i: usize = from;
    while i < to
        invariant
            from <= i <= to <= songs@.len(),
            part == songs.deep_view().subrange(from as int, to as int),
            out@.len() == i - from,
            forall|k: int| 0 <= k < i - from ==> (#[trigger] out@[k])@ == part[k].hash,
        decreases to - i,
    {
        out.push(songs[i].hash.clone());
        i += 1;
    }
    proof {
        assert(text::views(out@) =~= hashes(part));
    }
    text::join(out.as_slice(), ",")
}

/// The request to add the songs from `from` up to `to` to a playlist.
pub(crate) fn add_batch(list_id: i64, songs: &[Song], from: usize, to: usize) -> (r: Request)
    requires
        from <= to <= songs@.len(),
    ensures
        r.deep_view() == add_request(
            list_id,
            songs.deep_view().subrange(from as int, to as int),
        ),
{
    let r = Request::new("/playlist/track/add", Mode::Writing).with(
        "pid",
        text::write_i64(list_id),
    ).with("ids", joined_hashes(songs, from, to));
    proof {
        assert(r.deep_view().query =~= add_request(
            list_id,
            songs.deep_view().subrange(from as int, to as int),
        ).query);
    }
    r
}

/// The request to remove songs from a playlist.
pub(crate) fn remove_batch(list_id: i64, songs: &[Song]) -> (r: Request)
    ensures
        r.deep_view() == remove_request(list_id, songs.deep_view()),
{
    proof {
        assert(songs.deep_view().subrange(0, songs@.len() as int) =~= songs.deep_view());
    }
    let r = Request::new("/playlist/track/delete", Mode::Writing).with(
        "id",
        text::write_i64(list_id),
    ).with("ids", joined_hashes(songs, 0, songs.len()));
    proof {
        assert(r.deep_view().query =~= remove_request(list_id, songs.deep_view()).query);
    }
    r
}

/// The request to delete a playlist.
pub fn delete_playlist(list_id: i64) -> (r: Request)
    ensures
        r.deep_view() == delete_request(list_id),
{
    let r = Request::new("/playlist/delete", Mode::Writing).with("id", text::write_i64(list_id));
    proof {
        assert(r.deep_view().query =~= delete_request(list_id).query);
    }
    r
}

/// The request to create a playlist.
pub fn create_playlist(name: &str) -> (r: Request)
    ensures
        r.deep_view() == create_request(name@),
{
    let r = Request::new("/playlist/create", Mode::Writing).with("name", name.to_owned());
    proof {
        assert(r.deep_view().query =~= create_request(name@).query);
    }
    r
}

/// The request for one page of songs that match `keyword`.
pub open spec fn search_request(keyword: Seq<char>, page: u32, page_size: u32) -> RequestModel {
    RequestModel {
        path: "/search"@,
        query: seq![
            ("keywords"@, keyword),
            ("limit"@, num(page_limit(page_size))),
            ("offset"@, num(page_offset(page, page_limit(page_size)))),
        ],
        mode: Mode::Fresh,
    }
}

// ---------------------------------------------------------------------------
// Songs
// ---------------------------------------------------------------------------
/// The request for one page of songs that match `keyword`.
pub fn search_songs(keyword: &str, page: u32, page_size: u32) -> (r: Request)
    ensures
        r.deep_view() == search_request(keyword@, page, page_size),
        r.deep_view().says("keywords"@, keyword@),
        r.deep_view().says_number("limit"@, page_limit(page_size) as int),
        r.deep_view().says_number("offset"@, page_offset(page, page_limit(page_size)) as int),
{
    proof {
        searches_name_their_page(keyword@, page, page_size);
    }
    let limit: u32 = limit_for(page_size);
    let offset: u32 = offset_for(page, limit);
    let r = Request::new("/search", Mode::Fresh).with("keywords", keyword.to_owned()).with(
        "limit",
        text::write_u64(limit as u64),
    ).with("offset", text::write_u64(offset as u64));
    proof {
        assert(r.deep_view().query =~= seq![
            ("keywords"@, keyword@),
            ("limit"@, num(limit)),
            ("offset"@, num(offset)),
        ]);
    }
    r
}

/// An address of a picture with a size put to it, unless it has a question mark already.
pub open spec fn sized(url: Seq<char>) -> Seq<char> {
    if text::has(url, "?"@) {
        url
    } else {
        url + "?param=300y300"@
    }
}

/// Puts a size to the address of a picture.
fn with_size(url: Option<String>) -> (r: Option<String>)
    ensures
        r.deep_view() == (match url.deep_view() {
            Some(u) => Some(sized(u)),
            None => None,
        }),
{
    match url {
        Some(u) => if text::contains(u.as_str(), "?") {
            Some(u)
        } else {
            Some(text::join2(u.as_str(), "?param=300y300"))
        },
        None => None,
    }
}

/// The value under the first of two keys that is there.
pub open spec fn under_either(value: Json, first: Seq<char>, second: Seq<char>) -> Option<Json> {
    model::either(json::at(value, first), json::at(value, second))
}

/// The value under the first of two keys that is there.
fn get_either<'a>(value: &'a Json, first: &str, second: &str) -> (r: Option<&'a Json>)
    ensures
        match r {
            Some(inner) => under_either(*value, first@, second@) == Some(*inner),
            None => under_either(*value, first@, second@) is None,
        },
{
    match value.get(first) {
        Some(inner) => Some(inner),
        None => value.get(second),
    }
}

/// The text under `keys` in a value that may be missing.
pub open spec fn text_of(value: Option<Json>, keys: Seq<&str>) -> Option<Seq<char>> {
    match value {
        Some(inner) => json::first_text(inner, keys),
        None => None,
    }
}

/// The text under `keys` in a value that may be missing.
pub(crate) fn pick_text(value: Option<&Json>, keys: &[&str]) -> (r: Option<String>)
    ensures
        r.deep_view() == text_of(
            match value {
                Some(inner) => Some(*inner),
                None => None,
            },
            keys@,
        ),
{
    match value {
        Some(inner) => json::pick_string(inner, keys),
        None => None,
    }
}

/// The singer that an entry names.
pub open spec fn singer_of(entry: Json) -> Option<SingerModel> {
    match json::first_text(entry, seq!["name"]) {
        Some(name) => Some(
            SingerModel { id: model::or_zero(json::first_number(entry, seq!["id"])), name },
        ),
        None => None,
    }
}

/// [`singer_of`] as a value.
pub open spec fn singer_model() -> spec_fn(Json) -> Option<SingerModel> {
    |entry: Json| singer_of(entry)
}

/// The singers of a song in either layout.
pub open spec fn singers_of(value: Json) -> Seq<SingerModel> {
    match under_either(value, "artists"@, "ar"@) {
        Some(list) => match json::array(list) {
            Some(items) => json::kept(items@, singer_model()),
            None => Seq::empty(),
        },
        None => Seq::empty(),
    }
}

/// Reads the singer that an entry names.
fn singer_from_json(entry: &Json) -> (r: Option<Singer>)
    ensures
        r.deep_view() == singer_of(*entry),
{
    let name_keys = ["name"];
    let id_keys = ["id"];
    proof {
        assert(name_keys@ =~= seq!["name"]);
        assert(id_keys@ =~= seq!["id"]);
    }
    match json::pick_string(entry, &name_keys) {
        Some(name) => {
            let id: i64 = match json::pick_i64(entry, &id_keys) {
                Some(id) => id,
                None => 0,
            };
            Some(Singer { id, name })
        },
        None => None,
    }
}

/// Reads the singers of a song in either layout.
pub fn parse_singers(value: &Json) -> (r: Vec<Singer>)
    ensures
        r.deep_view() == singers_of(*value),
{
    proof {
        assert(json::reads::<Singer, _>(singer_from_json, singer_model()));
    }
    if let Some(list) = get_either(value, "artists", "ar") {
        if let Some(items) = list.as_array() {
            return json::read_all(items.as_slice(), &singer_from_json);
        }
    }
    let none: Vec<Singer> = Vec::new();
    proof {
        assert(none.deep_view() =~= Seq::<SingerModel>::empty());
    }
    none
}

/// The song that `value` describes in either layout; none without a number.
pub open spec fn song_of(value: Json) -> Option<SongModel> {
    let album = under_either(value, "album"@, "al"@);
    match json::first_number(value, seq!["id"]) {
        Some(id) => Some(
            SongModel {
                name: match json::first_text(value, seq!["name"]) {
                    Some(name) => name,
                    None => "未知曲目"@,
                },
                hash: text::signed_decimal(id as int),
                album_id: match album {
                    Some(inner) => match json::first_number(inner, seq!["id"]) {
                        Some(n) => text::signed_decimal(n as int),
                        None => Seq::empty(),
                    },
                    None => Seq::empty(),
                },
                album_audio_id: 0,
                album_name: model::or_blank(text_of(album, seq!["name"])),
                singers: singers_of(value),
                duration_ms: match json::first_u64(value, seq!["duration", "dt"]) {
                    Some(ms) => ms,
                    None => 0,
                },
                cover: match text_of(album, seq!["picUrl", "pic", "img1v1Url"]) {
                    Some(url) => Some(sized(url)),
                    None => None,
                },
                privilege: None,
                file_id: None,
                extra_hashes: Seq::empty(),
                source: SourceKind::Netease,
            },
        ),
        None => None,
    }
}

/// [`song_of`] as a value.
pub open spec fn song_model() -> spec_fn(Json) -> Option<SongModel> {
    |value: Json| song_of(value)
}

/// Reads a song in either layout; none without a number.
pub fn song_from_json(value: &Json) -> (r: Option<Song>)
    ensures
        r.deep_view() == song_of(*value),
{
    let id_keys = ["id"];
    let name_keys = ["name"];
    let time_keys = ["duration", "dt"];
    let cover_keys = ["picUrl", "pic", "img1v1Url"];
    proof {
        assert(id_keys@ =~= seq!["id"]);
        assert(name_keys@ =~= seq!["name"]);
        assert(time_keys@ =~= seq!["duration", "dt"]);
        assert(cover_keys@ =~= seq!["picUrl", "pic", "img1v1Url"]);
    }
    let id: i64 = match json::pick_i64(value, &id_keys) {
        Some(id) => id,
        None => {
            return None;
        },
    };
    let name = match json::pick_string(value, &name_keys) {
        Some(name) => name,
        None => "未知曲目".to_owned(),
    };
    let album = get_either(value, "album", "al");
    let album_id = match album {
        Some(inner) => match json::pick_i64(inner, &id_keys) {
            Some(n) => text::write_i64(n),
            None => String::new(),
        },
        None => String::new(),
    };
    let duration_ms: u64 = match json::pick_u64(value, &time_keys) {
        Some(ms) => ms,
        None => 0,
    };
    let song = Song {
        name,
        hash: text::write_i64(id),
        album_id,
        album_audio_id: 0,
        album_name: model::text_or_blank(pick_text(album, &name_keys)),
        singers: parse_singers(value),
        duration_ms,
        cover: with_size(pick_text(album, &cover_keys)),
        privilege: None,
        file_id: None,
        extra_hashes: Vec::new(),
        source: SourceKind::Netease,
    };
    proof {
        assert(song.extra_hashes.deep_view() =~= Seq::<(Seq<char>, Seq<char>)>::empty());
    }
    Some(song)
}

/// The songs of an answer, those under `key` before any other.
pub fn read_songs(root: &Json, key: &str) -> (r: Vec<Song>)
    ensures
        r.deep_view() == json::listed(json::payload(*root), seq![key], song_model()),
{
    let keys = [key];
    let r = json::extract_list(json::data_of(root), &keys, song_from_json);
    proof {
        assert(keys@ =~= seq![key]);
        assert(json::reads::<Song, _>(song_from_json, song_model()));
    }
    r
}

// ---------------------------------------------------------------------------
// The address of a song
// ---------------------------------------------------------------------------
/// The bit rate that stands for a quality.
pub open spec fn rate_of(quality: Seq<char>) -> u32 {
    if quality == "320"@ {
        320_000
    } else if quality == "flac"@ || quality == "super"@ || quality == "high"@ {
        999_000
    } else {
        128_000
    }
}

/// The bit rate that stands for a quality.
pub fn bitrate_for(quality: &str) -> (r: u32)
    ensures
        r == rate_of(quality@),
{
    if text::same(quality, "320") {
        320_000
    } else if text::same(quality, "flac") || text::same(quality, "super") || text::same(
        quality,
        "high",
    ) {
        999_000
    } else {
        128_000
    }
}

/// The request for the address of a song.
pub open spec fn address_request(song: SongModel, quality: Seq<char>) -> RequestModel {
    RequestModel {
        path: "/song/url"@,
        query: seq![("id"@, song.hash), ("br"@, num(rate_of(quality)))],
        mode: Mode::Fresh,
    }
}

/// The request for the address of a song.
pub fn song_stream_url(song: &Song, quality: &str) -> (r: Request)
    ensures
        r.deep_view() == address_request(song.deep_view(), quality@),
{
    let r = Request::new("/song/url", Mode::Fresh).with("id", song.hash.clone()).with(
        "br",
        text::write_u64(bitrate_for(quality) as u64),
    );
    proof {
        assert(r.deep_view().query =~= seq![
            ("id"@, song.hash@),
            ("br"@, num(rate_of(quality@))),
        ]);
    }
    r
}

/// The address in an answer: that of the first item, or that of `data` itself where it has no items.
pub open spec fn address_of(root: Json) -> Option<Seq<char>> {
    let data = json::payload(root);
    let entry = match data {
        Json::Array(items) => if items@.len() > 0 {
            items@[0]
        } else {
            data
        },
        _ => data,
    };
    match json::first_text(entry, seq!["url"]) {
        Some(url) if text::trimmed(url).len() > 0 => Some(url),
        _ => None,
    }
}

/// That a song has no address.
pub open spec fn no_address(name: Seq<char>) -> ErrorModel {
    ErrorModel::NotFound("《"@ + name + "》没有可用的播放地址（可能需要 VIP 或已下架）"@)
}

/// Reads the address of `song` from an answer.
pub fn read_stream_url(root: &Json, song: &Song) -> (r: Result<StreamUrl, AppError>)
    ensures
        match r {
            Ok(stream) => address_of(*root) == Some(stream.url@) && !stream.is_trial
                && stream.reason is None,
            Err(error) => address_of(*root) is None && error.deep_view() == no_address(song.name@),
        },
{
    let data = json::data_of(root);
    let entry = match data {
        Json::Array(items) => if items.len() > 0 {
            &items[0]
        } else {
            data
        },
        _ => data,
    };
    let keys = ["url"];
    proof {
        assert(keys@ =~= seq!["url"]);
    }
    match cloud::not_blank(json::pick_string(entry, &keys)) {
        Some(url) => Ok(StreamUrl { url, is_trial: false, reason: None }),
        None => Err(
            AppError::NotFound(
                text::join3(
                    "《",
                    song.name.as_str(),
                    "》没有可用的播放地址（可能需要 VIP 或已下架）",
                ),
            ),
        ),
    }
}

// ---------------------------------------------------------------------------
// Lyrics and covers
// ---------------------------------------------------------------------------
/// The request for the lyric of a song.
pub open spec fn words_request(song: SongModel) -> RequestModel {
    RequestModel { path: "/lyric"@, query: seq![("id"@, song.hash)], mode: Mode::Fresh }
}

/// The request for the lyric of a song.
pub fn fetch_lyric(song: &Song) -> (r: Request)
    ensures
        r.deep_view() == words_request(song.deep_view()),
{
    let r = Request::new("/lyric", Mode::Fresh).with("id", song.hash.clone());
    proof {
        assert(r.deep_view().query =~= seq![("id"@, song.hash@)]);
    }
    r
}

/// The first line of `lines` that begins at `time_ms`.
pub open spec fn line_at(lines: Seq<LyricLineModel>, time_ms: u64) -> Option<LyricLineModel>
    decreases lines.len(),
{
    if lines.len() == 0 {
        None
    } else if lines[0].time_ms == time_ms {
        Some(lines[0])
    } else {
        line_at(lines.drop_first(), time_ms)
    }
}

/// `lines` with the words of the line of the same time in `translation` put to each.
pub open spec fn with_translation(
    lines: Seq<LyricLineModel>,
    translation: Seq<LyricLineModel>,
) -> Seq<LyricLineModel> {
    lines.map_values(
        |line: LyricLineModel|
            match line_at(translation, line.time_ms) {
                Some(found) if text::trimmed(found.text).len() > 0 => LyricLineModel {
                    translation: Some(found.text),
                    ..line
                },
                _ => line,
            },
    )
}

/// The text of a lyric under `key`.
pub open spec fn lyric_under(data: Json, key: Seq<char>) -> Option<Seq<char>> {
    text_of(json::at(data, key), seq!["lyric"])
}

/// The lyric that an answer gives, with its translation.
pub open spec fn lyric_of(root: Json) -> Seq<LyricLineModel> {
    let data = json::payload(root);
    let lines = lyric::lyric_lines(model::or_blank(lyric_under(data, "lrc"@)));
    match lyric_under(data, "tlyric"@) {
        Some(words) => with_translation(lines, lyric::lyric_lines(words)),
        None => lines,
    }
}

/// The words of the first line that begins at `time_ms`.
fn find_line(lines: &Vec<LyricLine>, time_ms: u64) -> (r: Option<&LyricLine>)
    ensures
        match r {
            Some(line) => line_at(lines.deep_view(), time_ms) == Some(line.deep_view()),
            None => line_at(lines.deep_view(), time_ms) is None,
        },
{
    let ghost all = lines.deep_view();
    let mut i: usize = 0;
    proof {
        assert(all.skip(0) =~= all);
    }
    while i < lines.len()
        invariant
            i <= lines@.len(),
            all == lines.deep_view(),
            line_at(all, time_ms) == line_at(all.skip(i as int), time_ms),
        decreases lines@.len() - i,
    {
        proof {
            assert(all.skip(i as int)[0] == lines@[i as int].deep_view());
            assert(all.skip(i as int).drop_first() =~= all.skip(i + 1));
        }
        if lines[i].time_ms == time_ms {
            return Some(&lines[i]);
        }
        i += 1;
    }
    None
}

/// Puts a translation to the lines of the same time.
pub fn attach_translation(lyric: &mut Lyric, translation: &Lyric)
    ensures
        final(lyric).deep_view() == with_translation(
            old(lyric).deep_view(),
            translation.deep_view(),
        ),
{
    let ghost before = lyric.deep_view();
    let ghost wanted = with_translation(before, translation.deep_view());
    let mut lines: Vec<LyricLine> = Vec::new();
    let mut i: usize = 0;
    while i < lyric.lines.len()
        invariant
            i <= lyric.lines@.len(),
            lyric.deep_view() == before,
            wanted == with_translation(before, translation.deep_view()),
            lines.deep_view() == wanted.take(i as int),
        decreases lyric.lines@.len() - i,
    {
        let line = &lyric.lines[i];
        let mut new_line = lyric::copy_line(line);
        if let Some(found) = find_line(&translation.lines, line.time_ms) {
            if !text::is_blank(found.text.as_str()) {
                new_line.translation = Some(found.text.clone());
            }
        }
        proof {
            assert(before[i as int] == line.deep_view());
            assert(new_line.deep_view() == wanted[i as int]);
        }
        let ghost done = lines.deep_view();
        lines.push(new_line);
        proof {
            assert(lines.deep_view() =~= done.push(new_line.deep_view()));
            assert(wanted.take(i + 1) =~= wanted.take(i as int).push(wanted[i as int]));
        }
        i += 1;
    }
    proof {
        assert(wanted.take(wanted.len() as int) =~= wanted);
    }
    lyric.lines = lines;
}

/// Reads the lyric of `song` from an answer; a blank lyric is none.
pub fn read_lyric(root: &Json, song: &Song) -> (r: Result<Lyric, AppError>)
    ensures
        match r {
            Ok(lyric) => text::trimmed(
                model::or_blank(lyric_under(json::payload(*root), "lrc"@)),
            ).len() > 0 && lyric.deep_view() == lyric_of(*root),
            Err(error) => text::trimmed(
                model::or_blank(lyric_under(json::payload(*root), "lrc"@)),
            ).len() == 0 && error.deep_view() == lyric::lyric_missing(song.name@),
        },
{
    let data = json::data_of(root);
    let keys = ["lyric"];
    proof {
        assert(keys@ =~= seq!["lyric"]);
    }
    let main = model::text_or_blank(pick_text(data.get("lrc"), &keys));
    if text::is_blank(main.as_str()) {
        return Err(
            AppError::NotFound(text::join3("未找到《", song.name.as_str(), "》的歌词")),
        );
    }
    let mut lyric = lyric::parse_lrc(main.as_str());
    if let Some(words) = pick_text(data.get("tlyric"), &keys) {
        let translation = lyric::parse_lrc(words.as_str());
        attach_translation(&mut lyric, &translation);
    }
    Ok(lyric)
}

/// The request for the cover of a song; none where the cover is known or nothing names the song.
pub fn cover_request(song: &Song) -> (r: Option<Request>)
    ensures
        match r {
            Some(request) => song.cover is None && song.hash@.len() > 0 && request.deep_view() == (
            RequestModel {
                path: "/song/detail"@,
                query: seq![("ids"@, song.hash@)],
                mode: Mode::Fresh,
            }),
            None => song.cover is Some || song.hash@.len() == 0,
        },
{
    if song.cover.is_some() || song.hash.as_str().is_empty() {
        return None;
    }
    let r = Request::new("/song/detail", Mode::Fresh).with("ids", song.hash.clone());
    proof {
        assert(r.deep_view().query =~= seq![("ids"@, song.hash@)]);
    }
    Some(r)
}

/// The address of the cover that an answer gives.
pub open spec fn cover_of(root: Json) -> Option<Seq<char>> {
    match json::array_at(json::payload(root), "songs"@) {
        Some(songs) => if songs@.len() > 0 {
            text_of(under_either(songs@[0], "al"@, "album"@), seq!["picUrl", "pic"])
        } else {
            None
        },
        None => None,
    }
}

/// Reads the address of the cover from an answer.
pub fn read_cover(root: &Json) -> (r: Option<String>)
    ensures
        r.deep_view() == cover_of(*root),
{
    let keys = ["picUrl", "pic"];
    proof {
        assert(keys@ =~= seq!["picUrl", "pic"]);
    }
    match json::data_of(root).get_array("songs") {
        Some(songs) => if songs.len() > 0 {
            pick_text(get_either(&songs[0], "al", "album"), &keys)
        } else {
            None
        },
        None => None,
    }
}

// ---------------------------------------------------------------------------
// Logging in
// ---------------------------------------------------------------------------
/// A text that must be there, or the words for its absence.
pub open spec fn demanded(found: Option<Seq<char>>, words: Seq<char>) -> Result<
    Seq<char>,
    ErrorModel,
> {
    match found {
        Some(s) => Ok(s),
        None => Err(ErrorModel::Other(words)),
    }
}

/// Reads the key of a QR code.
pub fn read_qr_key(root: &Json) -> (r: Result<String, AppError>)
    ensures
        cloud::text_result(r) == demanded(
            json::first_text(json::payload(*root), seq!["unikey", "key"]),
            "取登录二维码 key 失败：响应里没有 unikey"@,
        ),
{
    let keys = ["unikey", "key"];
    proof {
        assert(keys@ =~= seq!["unikey", "key"]);
    }
    match json::pick_string(json::data_of(root), &keys) {
        Some(key) => Ok(key),
        None => Err(AppError::Other("取登录二维码 key 失败：响应里没有 unikey".to_owned())),
    }
}

/// The request for the content of a QR code.
pub open spec fn qr_request(key: Seq<char>) -> RequestModel {
    RequestModel {
        path: "/login/qr/create"@,
        query: seq![("key"@, key), ("qrimg"@, "false"@), ("platform"@, "web"@)],
        mode: Mode::Fresh,
    }
}

/// The request for the content of a QR code.
pub fn login_qr_create(key: &str) -> (r: Request)
    ensures
        r.deep_view() == qr_request(key@),
{
    let r = Request::new("/login/qr/create", Mode::Fresh).with("key", key.to_owned()).with(
        "qrimg",
        "false".to_owned(),
    ).with("platform", "web".to_owned());
    proof {
        assert(r.deep_view().query =~= seq![
            ("key"@, key@),
            ("qrimg"@, "false"@),
            ("platform"@, "web"@),
        ]);
    }
    r
}

/// The content of a QR code that an answer gives.
pub open spec fn qr_content(root: Json) -> Option<Seq<char>> {
    let data = json::payload(root);
    match model::either(
        json::first_text(data, seq!["qrurl", "url", "qrCode"]),
        text_of(json::at(data, "data"@), seq!["qrurl", "url"]),
    ) {
        Some(s) if text::trimmed(s).len() > 0 => Some(s),
        _ => None,
    }
}

/// Reads the content of a QR code.
pub fn read_qr_content(root: &Json) -> (r: Result<String, AppError>)
    ensures
        cloud::text_result(r) == demanded(
            qr_content(*root),
            "生成登录二维码失败：响应里没有二维码内容"@,
        ),
{
    let data = json::data_of(root);
    let top = ["qrurl", "url", "qrCode"];
    let inner = ["qrurl", "url"];
    proof {
        assert(top@ =~= seq!["qrurl", "url", "qrCode"]);
        assert(inner@ =~= seq!["qrurl", "url"]);
    }
    let mut found = json::pick_string(data, &top);
    if found.is_none() {
        found = pick_text(data.get("data"), &inner);
    }
    match cloud::not_blank(found) {
        Some(content) => Ok(content),
        None => Err(AppError::Other("生成登录二维码失败：响应里没有二维码内容".to_owned())),
    }
}

/// Whether a part of a `Set-Cookie` text only describes a cookie.
pub open spec fn describes_cookie(part: Seq<char>) -> bool {
    let name = match text::char_position(part, '=') {
        Some(at) => model::ascii_lowered(part.take(at)),
        None => model::ascii_lowered(part),
    };
    name == "max-age"@ || name == "expires"@ || name == "path"@
}

/// The parts of a `Set-Cookie` text that are cookies.
pub open spec fn cookie_parts(parts: Seq<Seq<char>>) -> Seq<Seq<char>>
    decreases parts.len(),
{
    if parts.len() == 0 {
        Seq::empty()
    } else {
        let before = cookie_parts(parts.drop_last());
        let part = text::trimmed(parts.last());
        if part.len() == 0 || describes_cookie(part) {
            before
        } else {
            before.push(part)
        }
    }
}

/// The cookies of a `Set-Cookie` text in the form in which they are sent back; nothing where there
/// is none.
pub open spec fn cookie_line(raw: Seq<char>) -> Option<Seq<char>> {
    let parts = cookie_parts(text::pieces(raw, seq![';']));
    if parts.len() == 0 {
        None
    } else {
        Some(text::joined(parts, "; "@))
    }
}

/// Whether a part of a `Set-Cookie` text only describes a cookie.
fn is_attribute(part: &[char]) -> (r: bool)
    ensures
        r == describes_cookie(part@),
{
    let name = match text::find_char(part, '=') {
        Some(at) => {
            proof {
                text::lemma_position_from(part@, seq!['='], 0);
                assert(part@.subrange(0, at as int) =~= part@.take(at as int));
            }
            model::ascii_lowercase(&part[0..at])
        },
        None => model::ascii_lowercase(part),
    };
    text::same(name.as_str(), "max-age") || text::same(name.as_str(), "expires") || text::same(
        name.as_str(),
        "path",
    )
}

/// Brings the cookies of a `Set-Cookie` text to the form in which they are sent back.
pub fn normalize_cookie_header(raw: &str) -> (r: Option<String>)
    ensures
        r.deep_view() == cookie_line(raw@),
{
    let chars = text::to_chars(raw);
    let signs = [';'];
    let parts = text::split(chars.as_slice(), &signs);
    let ghost all = text::pieces(raw@, seq![';']);
    let mut kept: Vec<String> = Vec::new();
    proof {
        assert(signs@ =~= seq![';']);
        assert(all.take(0) =~= Seq::<Seq<char>>::empty());
        assert(text::views(kept@) =~= Seq::<Seq<char>>::empty());
    }
    let mut i: usize = 0;
    while i < parts.len()
        invariant
            i <= parts@.len(),
            text::rows(parts@) == all,
            text::views(kept@) == cookie_parts(all.take(i as int)),
        decreases parts@.len() - i,
    {
        proof {
            assert(all.take(i + 1).drop_last() =~= all.take(i as int));
            assert(all.take(i + 1).last() == parts@[i as int]@);
        }
        let part = text::trim(parts[i].as_slice());
        if part.len() > 0 && !is_attribute(part) {
            let ghost before = text::views(kept@);
            kept.push(text::from_chars(part));
            proof {
                assert(text::views(kept@) =~= before.push(part@));
            }
        }
        i += 1;
    }
    proof {
        assert(all.take(all.len() as int) =~= all);
        assert(text::views(kept@).len() == kept@.len());
    }
    if kept.len() == 0 {
        None
    } else {
        Some(text::join(kept.as_slice(), "; "))
    }
}

/// How far a login has come. The login is the cookie that the server gives out.
pub open spec fn login_state(root: Json) -> QrModel {
    let data = json::payload(root);
    let code = match json::first_number(data, seq!["code"]) {
        Some(code) => code,
        None => 800,
    };
    QrModel {
        status: if code == 801 {
            QrStatus::Waiting
        } else if code == 802 {
            QrStatus::Pending
        } else if code == 803 {
            QrStatus::Success
        } else {
            QrStatus::Expired
        },
        token: None,
        userid: None,
        cookie: match model::either(
            json::first_text(root, seq!["cookie"]),
            json::first_text(data, seq!["cookie"]),
        ) {
            Some(raw) => cookie_line(raw),
            None => None,
        },
    }
}

/// Reads how far a login has come.
pub fn read_qr_check(root: &Json) -> (r: QrCheck)
    ensures
        r.deep_view() == login_state(*root),
{
    let data = json::data_of(root);
    let code_keys = ["code"];
    let cookie_keys = ["cookie"];
    proof {
        assert(code_keys@ =~= seq!["code"]);
        assert(cookie_keys@ =~= seq!["cookie"]);
    }
    let code: i64 = match json::pick_i64(data, &code_keys) {
        Some(code) => code,
        None => 800,
    };
    let status = if code == 801 {
        QrStatus::Waiting
    } else if code == 802 {
        QrStatus::Pending
    } else if code == 803 {
        QrStatus::Success
    } else {
        QrStatus::Expired
    };
    let mut raw = json::pick_string(root, &cookie_keys);
    if raw.is_none() {
        raw = json::pick_string(data, &cookie_keys);
    }
    let cookie = match raw {
        Some(raw) => normalize_cookie_header(raw.as_str()),
        None => None,
    };
    QrCheck { status, token: None, userid: None, cookie }
}

// ---------------------------------------------------------------------------
// The user
// ---------------------------------------------------------------------------
/// The request that asks who is logged in.
pub open spec fn status_request() -> RequestModel {
    RequestModel {
        path: "/login/status"@,
        query: Seq::empty(),
        mode: Mode::Fresh,
    }
}

/// The request that asks who is logged in.
pub fn login_status() -> (r: Request)
    ensures
        r.deep_view() == status_request(),
{
    Request::new("/login/status", Mode::Fresh)
}

/// The number of the user that is logged in.
pub open spec fn user_number(root: Json) -> Option<i64> {
    let data = json::payload(root);
    model::either(
        match json::at(data, "profile"@) {
            Some(profile) => json::first_number(profile, seq!["userId"]),
            None => None,
        },
        match json::at(data, "account"@) {
            Some(account) => json::first_number(account, seq!["id"]),
            None => None,
        },
    )
}

/// Reads the number of the user that is logged in; an error where nobody is.
pub fn current_uid(root: &Json) -> (r: Result<String, AppError>)
    ensures
        cloud::text_result(r) == demanded(
            match user_number(*root) {
                Some(id) => Some(text::signed_decimal(id as int)),
                None => None,
            },
            "网易云尚未登录，请先按 L 选择「网易云」扫码"@,
        ),
{
    let data = json::data_of(root);
    let profile_keys = ["userId"];
    let account_keys = ["id"];
    proof {
        assert(profile_keys@ =~= seq!["userId"]);
        assert(account_keys@ =~= seq!["id"]);
    }
    if let Some(profile) = data.get("profile") {
        if let Some(id) = json::pick_i64(profile, &profile_keys) {
            return Ok(text::write_i64(id));
        }
    }
    if let Some(account) = data.get("account") {
        if let Some(id) = json::pick_i64(account, &account_keys) {
            return Ok(text::write_i64(id));
        }
    }
    Err(AppError::Other("网易云尚未登录，请先按 L 选择「网易云」扫码".to_owned()))
}

/// The request for the user's description.
pub open spec fn user_request(uid: Seq<char>) -> RequestModel {
    RequestModel {
        path: "/user/detail"@,
        query: seq![("uid"@, uid)],
        mode: Mode::Fresh,
    }
}

/// The request for the user's description.
pub fn user_detail(uid: String) -> (r: Request)
    ensures
        r.deep_view() == user_request(uid@),
{
    let r = Request::new("/user/detail", Mode::Fresh).with("uid", uid);
    proof {
        assert(r.deep_view().query =~= seq![("uid"@, uid@)]);
    }
    r
}

/// The user that an answer describes.
pub open spec fn user_of(root: Json) -> UserModel {
    let data = json::payload(root);
    let profile = json::at(data, "profile"@);
    UserModel {
        nickname: model::or_blank(text_of(profile, seq!["nickname"])),
        pic: match text_of(profile, seq!["avatarUrl", "picUrl"]) {
            Some(url) if text::trimmed(url).len() > 0 => Some(url),
            _ => None,
        },
        grade: json::first_u32(data, seq!["level"]),
        duration_min: None,
    }
}

/// Reads the user that an answer describes.
pub fn read_user(root: &Json) -> (r: Result<UserInfo, AppError>)
    ensures
        match r {
            Ok(user) => api_error("/user/detail"@, *root) is None && user.deep_view() == user_of(
                *root,
            ),
            Err(error) => api_error("/user/detail"@, *root) == Some(error.deep_view()),
        },
{
    match check_api_code("/user/detail", root) {
        Err(error) => {
            return Err(error);
        },
        Ok(_) => {},
    }
    let data = json::data_of(root);
    let name_keys = ["nickname"];
    let pic_keys = ["avatarUrl", "picUrl"];
    let level_keys = ["level"];
    proof {
        assert(name_keys@ =~= seq!["nickname"]);
        assert(pic_keys@ =~= seq!["avatarUrl", "picUrl"]);
        assert(level_keys@ =~= seq!["level"]);
    }
    let profile = data.get("profile");
    Ok(
        UserInfo {
            nickname: model::text_or_blank(pick_text(profile, &name_keys)),
            pic: cloud::not_blank(pick_text(profile, &pic_keys)),
            grade: json::pick_u32(data, &level_keys),
            duration_min: None,
        },
    )
}

/// The error that an answer reports under `code`; a missing code or 200 is none.
pub open spec fn api_error(path: Seq<char>, root: Json) -> Option<ErrorModel> {
    let code = match json::at(root, "code"@) {
        Some(value) => match json::exact_i64(value) {
            Some(code) => code,
            None => 200,
        },
        None => 200,
    };
    if code == 200 {
        None
    } else {
        Some(
            ErrorModel::Api {
                path,
                code,
                message: match json::first_text(root, seq!["msg", "message"]) {
                    Some(words) => words,
                    None => "服务端未提供错误描述"@,
                },
            },
        )
    }
}

/// Checks the `code` of an answer.
pub fn check_api_code(path: &str, root: &Json) -> (r: Result<(), AppError>)
    ensures
        match r {
            Ok(_) => api_error(path@, *root) is None,
            Err(error) => api_error(path@, *root) == Some(error.deep_view()),
        },
{
    let code: i64 = match root.get("code") {
        Some(value) => match value.as_i64() {
            Some(code) => code,
            None => 200,
        },
        None => 200,
    };
    if code == 200 {
        return Ok(());
    }
    let keys = ["msg", "message"];
    proof {
        assert(keys@ =~= seq!["msg", "message"]);
    }
    let message = match json::pick_string(root, &keys) {
        Some(words) => words,
        None => "服务端未提供错误描述".to_owned(),
    };
    Err(AppError::Api { path: path.to_owned(), code, message })
}

/// The request for the playlists of a user.
pub open spec fn own_playlists_request(uid: Seq<char>) -> RequestModel {
    RequestModel {
        path: "/user/playlist"@,
        query: seq![("uid"@, uid)],
        mode: Mode::Fresh,
    }
}

/// The request for the playlists of a user.
pub fn user_playlists(uid: String) -> (r: Request)
    ensures
        r.deep_view() == own_playlists_request(uid@),
{
    let r = Request::new("/user/playlist", Mode::Fresh).with("uid", uid);
    proof {
        assert(r.deep_view().query =~= seq![("uid"@, uid@)]);
    }
    r
}

/// A number cut to 32 bits.
pub open spec fn low_bits(n: u64) -> u32 {
    (n % 0x1_0000_0000) as u32
}

/// The playlist of the user that `value` describes; none without a number.
pub open spec fn own_playlist_of(value: Json) -> Option<PlaylistModel> {
    match json::first_number(value, seq!["id"]) {
        Some(id) => Some(
            PlaylistModel {
                id: text::signed_decimal(id as int),
                list_id: Some(id),
                name: match json::first_text(value, seq!["name"]) {
                    Some(name) => name,
                    None => "未命名歌单"@,
                },
                cover: json::first_text(value, seq!["coverImgUrl"]),
                song_count: match json::first_u64(value, seq!["trackCount"]) {
                    Some(n) => low_bits(n),
                    None => 0,
                },
                creator: text_of(json::at(value, "creator"@), seq!["nickname"]),
                description: json::first_text(value, seq!["description"]),
                is_own: true,
            },
        ),
        None => None,
    }
}

/// [`own_playlist_of`] as a value.
pub open spec fn own_playlist_model() -> spec_fn(Json) -> Option<PlaylistModel> {
    |value: Json| own_playlist_of(value)
}

/// Reads a playlist of the user; none without a number.
pub fn playlist_from_json(value: &Json) -> (r: Option<Playlist>)
    ensures
        r.deep_view() == own_playlist_of(*value),
{
    let id_keys = ["id"];
    let name_keys = ["name"];
    let cover_keys = ["coverImgUrl"];
    let count_keys = ["trackCount"];
    let creator_keys = ["nickname"];
    let about_keys = ["description"];
    proof {
        assert(id_keys@ =~= seq!["id"]);
        assert(name_keys@ =~= seq!["name"]);
        assert(cover_keys@ =~= seq!["coverImgUrl"]);
        assert(count_keys@ =~= seq!["trackCount"]);
        assert(creator_keys@ =~= seq!["nickname"]);
        assert(about_keys@ =~= seq!["description"]);
    }
    match json::pick_i64(value, &id_keys) {
        Some(id) => {
            let song_count: u32 = match json::pick_u64(value, &count_keys) {
                Some(n) => (n % 0x1_0000_0000) as u32,
                None => 0,
            };
            let name = match json::pick_string(value, &name_keys) {
                Some(name) => name,
                None => "未命名歌单".to_owned(),
            };
            Some(
                Playlist {
                    id: text::write_i64(id),
                    list_id: Some(id),
                    name,
                    cover: json::pick_string(value, &cover_keys),
                    song_count,
                    creator: pick_text(value.get("creator"), &creator_keys),
                    description: json::pick_string(value, &about_keys),
                    is_own: true,
                },
            )
        },
        None => None,
    }
}

/// Reads the playlists of the user.
pub fn read_user_playlists(root: &Json) -> (r: Vec<Playlist>)
    ensures
        r.deep_view() == json::listed(
            json::payload(*root),
            seq!["playlist"],
            own_playlist_model(),
        ),
{
    let keys = ["playlist"];
    let r = json::extract_list(json::data_of(root), &keys, playlist_from_json);
    proof {
        assert(keys@ =~= seq!["playlist"]);
        assert(json::reads::<Playlist, _>(playlist_from_json, own_playlist_model()));
    }
    r
}

/// Reads the number of the playlist that was created, where the service gives it.
pub fn read_created(root: &Json) -> (r: Result<Option<i64>, AppError>)
    ensures
        match r {
            Ok(id) => api_error("/playlist/create"@, *root) is None && id == model::either(
                json::first_number(*root, seq!["id"]),
                json::first_number(json::payload(*root), seq!["id"]),
            ),
            Err(error) => api_error("/playlist/create"@, *root) == Some(error.deep_view()),
        },
{
    match check_api_code("/playlist/create", root) {
        Err(error) => {
            return Err(error);
        },
        Ok(_) => {},
    }
    let keys = ["id"];
    proof {
        assert(keys@ =~= seq!["id"]);
    }
    match json::pick_i64(root, &keys) {
        Some(id) => Ok(Some(id)),
        None => Ok(json::pick_i64(json::data_of(root), &keys)),
    }
}

// ---------------------------------------------------------------------------
// Browsing
// ---------------------------------------------------------------------------
/// The request for one page of the songs of a playlist.
pub open spec fn tracks_request(playlist_id: Seq<char>, page: u32, page_size: u32) -> RequestModel {
    RequestModel {
        path: "/playlist/track/all"@,
        query: seq![
            ("id"@, playlist_id),
            ("limit"@, num(page_limit(page_size))),
            ("offset"@, num(page_offset(page, page_limit(page_size)))),
        ],
        mode: Mode::Fresh,
    }
}

/// The request for one page of the songs of a playlist.
pub fn playlist_tracks_page(playlist_id: &str, page: u32, page_size: u32) -> (r: Request)
    ensures
        r.deep_view() == tracks_request(playlist_id@, page, page_size),
{
    let limit: u32 = limit_for(page_size);
    let offset: u32 = offset_for(page, limit);
    let r = Request::new("/playlist/track/all", Mode::Fresh).with(
        "id",
        playlist_id.to_owned(),
    ).with("limit", text::write_u64(limit as u64)).with("offset", text::write_u64(offset as u64));
    proof {
        assert(r.deep_view().query =~= seq![
            ("id"@, playlist_id@),
            ("limit"@, num(limit)),
            ("offset"@, num(offset)),
        ]);
    }
    r
}

/// The songs of a list that is asked for page by page.
pub struct TrackPages {
    /// The songs so far.
    pub songs: Vec<Song>,
    /// How many pages have been taken in.
    pub pages: u32,
    /// A page was not full.
    pub ended: bool,
}

impl TrackPages {
    /// Nothing has been asked for yet.
    pub fn new() -> (r: TrackPages)
        ensures
            r.songs@.len() == 0,
            r.pages == 0,
            !r.ended,
    {
        TrackPages { songs: Vec::new(), pages: 0, ended: false }
    }

    /// The page to ask for next; `None` when the list is complete.
    pub fn next_page(&self) -> (r: Option<u32>)
        ensures
            match r {
                Some(page) => !self.ended && self.pages < MAX_TRACK_PAGES && page == self.pages + 1,
                None => self.ended || self.pages >= MAX_TRACK_PAGES,
            },
    {
        if self.ended || self.pages >= MAX_TRACK_PAGES {
            None
        } else {
            Some(self.pages + 1)
        }
    }

    /// Takes in the songs of the page asked for; a page that is not full ends the list.
    pub fn absorb(&mut self, songs: Vec<Song>)
        requires
            old(self).pages < MAX_TRACK_PAGES,
        ensures
            final(self).songs@ == old(self).songs@ + songs@,
            final(self).pages == old(self).pages + 1,
            final(self).ended == (old(self).ended || songs@.len() < TRACK_PAGE),
    {
        let mut songs = songs;
        if songs.len() < TRACK_PAGE as usize {
            self.ended = true;
        }
        self.songs.append(&mut songs);
        self.pages = self.pages + 1;
    }
}

/// The request for one page of public playlists.
pub open spec fn plaza_request(page: u32, page_size: u32) -> RequestModel {
    RequestModel {
        path: "/top/playlist"@,
        query: seq![
            ("limit"@, num(page_limit(page_size))),
            ("offset"@, num(page_offset(page, page_limit(page_size)))),
        ],
        mode: Mode::Fresh,
    }
}

/// The request for one page of public playlists.
pub fn plaza_playlists(page: u32, page_size: u32) -> (r: Request)
    ensures
        r.deep_view() == plaza_request(page, page_size),
{
    let limit: u32 = limit_for(page_size);
    let offset: u32 = offset_for(page, limit);
    let r = Request::new("/top/playlist", Mode::Fresh).with(
        "limit",
        text::write_u64(limit as u64),
    ).with("offset", text::write_u64(offset as u64));
    proof {
        assert(r.deep_view().query =~= seq![("limit"@, num(limit)), ("offset"@, num(offset))]);
    }
    r
}

/// The public playlist that `value` describes; none without a number.
pub open spec fn plaza_playlist_of(value: Json) -> Option<PlaylistModel> {
    match json::first_number(value, seq!["id"]) {
        Some(id) => Some(
            PlaylistModel {
                id: text::signed_decimal(id as int),
                list_id: None,
                name: match json::first_text(value, seq!["name"]) {
                    Some(name) => name,
                    None => "未命名歌单"@,
                },
                cover: json::first_text(value, seq!["coverImgUrl", "picUrl"]),
                song_count: model::or_none_u32(json::first_u32(value, seq!["trackCount"])),
                creator: text_of(json::at(value, "creator"@), seq!["nickname"]),
                description: json::first_text(value, seq!["description"]),
                is_own: false,
            },
        ),
        None => None,
    }
}

/// [`plaza_playlist_of`] as a value.
pub open spec fn plaza_playlist_model() -> spec_fn(Json) -> Option<PlaylistModel> {
    |value: Json| plaza_playlist_of(value)
}

/// Reads a public playlist; none without a number.
pub fn plaza_playlist_from_json(value: &Json) -> (r: Option<Playlist>)
    ensures
        r.deep_view() == plaza_playlist_of(*value),
{
    let id_keys = ["id"];
    let name_keys = ["name"];
    let cover_keys = ["coverImgUrl", "picUrl"];
    let count_keys = ["trackCount"];
    let creator_keys = ["nickname"];
    let about_keys = ["description"];
    proof {
        assert(id_keys@ =~= seq!["id"]);
        assert(name_keys@ =~= seq!["name"]);
        assert(cover_keys@ =~= seq!["coverImgUrl", "picUrl"]);
        assert(count_keys@ =~= seq!["trackCount"]);
        assert(creator_keys@ =~= seq!["nickname"]);
        assert(about_keys@ =~= seq!["description"]);
    }
    match json::pick_i64(value, &id_keys) {
        Some(id) => {
            let song_count: u32 = match json::pick_u32(value, &count_keys) {
                Some(n) => n,
                None => 0,
            };
            let name = match json::pick_string(value, &name_keys) {
                Some(name) => name,
                None => "未命名歌单".to_owned(),
            };
            Some(
                Playlist {
                    id: text::write_i64(id),
                    list_id: None,
                    name,
                    cover: json::pick_string(value, &cover_keys),
                    song_count,
                    creator: pick_text(value.get("creator"), &creator_keys),
                    description: json::pick_string(value, &about_keys),
                    is_own: false,
                },
            )
        },
        None => None,
    }
}

/// Reads the public playlists.
pub fn read_plaza_playlists(root: &Json) -> (r: Vec<Playlist>)
    ensures
        r.deep_view() == json::listed(
            json::payload(*root),
            seq!["playlists"],
            plaza_playlist_model(),
        ),
{
    let keys = ["playlists"];
    let r = json::extract_list(json::data_of(root), &keys, plaza_playlist_from_json);
    proof {
        assert(keys@ =~= seq!["playlists"]);
        assert(json::reads::<Playlist, _>(plaza_playlist_from_json, plaza_playlist_model()));
    }
    r
}

/// The request for the popular artists.
pub open spec fn artists_request(hot_size: u32) -> RequestModel {
    RequestModel {
        path: "/top/artists"@,
        query: seq![("limit"@, num(page_limit(hot_size))), ("offset"@, "0"@)],
        mode: Mode::Fresh,
    }
}

/// The request for the popular artists.
pub fn artist_list(hot_size: u32) -> (r: Request)
    ensures
        r.deep_view() == artists_request(hot_size),
{
    let limit: u32 = limit_for(hot_size);
    let r = Request::new("/top/artists", Mode::Fresh).with(
        "limit",
        text::write_u64(limit as u64),
    ).with("offset", "0".to_owned());
    proof {
        assert(r.deep_view().query =~= seq![("limit"@, num(limit)), ("offset"@, "0"@)]);
    }
    r
}

/// The artist that `value` describes; none without a number.
pub open spec fn artist_of(value: Json) -> Option<ArtistModel> {
    match json::first_number(value, seq!["id"]) {
        Some(id) => Some(
            ArtistModel {
                id,
                name: match json::first_text(value, seq!["name"]) {
                    Some(name) => name,
                    None => "未知歌手"@,
                },
                avatar: match json::first_text(value, seq!["picUrl", "img1v1Url"]) {
                    Some(url) => Some(sized(url)),
                    None => None,
                },
                song_count: json::first_u32(value, seq!["albumSize"]),
                follower_count: None,
            },
        ),
        None => None,
    }
}

/// [`artist_of`] as a value.
pub open spec fn artist_model() -> spec_fn(Json) -> Option<ArtistModel> {
    |value: Json| artist_of(value)
}

/// Reads an artist; none without a number.
pub fn artist_from_json(value: &Json) -> (r: Option<Artist>)
    ensures
        r.deep_view() == artist_of(*value),
{
    let id_keys = ["id"];
    let name_keys = ["name"];
    let avatar_keys = ["picUrl", "img1v1Url"];
    let count_keys = ["albumSize"];
    proof {
        assert(id_keys@ =~= seq!["id"]);
        assert(name_keys@ =~= seq!["name"]);
        assert(avatar_keys@ =~= seq!["picUrl", "img1v1Url"]);
        assert(count_keys@ =~= seq!["albumSize"]);
    }
    match json::pick_i64(value, &id_keys) {
        Some(id) => {
            let name = match json::pick_string(value, &name_keys) {
                Some(name) => name,
                None => "未知歌手".to_owned(),
            };
            Some(
                Artist {
                    id,
                    name,
                    avatar: with_size(json::pick_string(value, &avatar_keys)),
                    song_count: json::pick_u32(value, &count_keys),
                    follower_count: None,
                },
            )
        },
        None => None,
    }
}

/// Reads the artists.
pub fn read_artists(root: &Json) -> (r: Vec<Artist>)
    ensures
        r.deep_view() == json::listed(json::payload(*root), seq!["artists"], artist_model()),
{
    let keys = ["artists"];
    let r = json::extract_list(json::data_of(root), &keys, artist_from_json);
    proof {
        assert(keys@ =~= seq!["artists"]);
        assert(json::reads::<Artist, _>(artist_from_json, artist_model()));
    }
    r
}

/// The request for the songs of an artist.
pub open spec fn artist_tracks_request(artist_id: i64) -> RequestModel {
    RequestModel {
        path: "/artists"@,
        query: seq![("id"@, text::signed_decimal(artist_id as int))],
        mode: Mode::Fresh,
    }
}

/// The request for the songs of an artist.
pub fn artist_tracks_all(artist_id: i64) -> (r: Request)
    ensures
        r.deep_view() == artist_tracks_request(artist_id),
{
    let r = Request::new("/artists", Mode::Fresh).with("id", text::write_i64(artist_id));
    proof {
        assert(r.deep_view().query =~= seq![("id"@, text::signed_decimal(artist_id as int))]);
    }
    r
}

/// The request for the charts.
pub open spec fn ranks_request() -> RequestModel {
    RequestModel {
        path: "/toplist"@,
        query: Seq::empty(),
        mode: Mode::Fresh,
    }
}

/// The request for the charts.
pub fn rank_boards() -> (r: Request)
    ensures
        r.deep_view() == ranks_request(),
{
    Request::new("/toplist", Mode::Fresh)
}

/// The chart that `value` describes; none without a number.
pub open spec fn rank_of(value: Json) -> Option<RankBoardModel> {
    match json::first_number(value, seq!["id"]) {
        Some(id) => Some(
            RankBoardModel {
                id,
                name: match json::first_text(value, seq!["name"]) {
                    Some(name) => name,
                    None => "未命名榜单"@,
                },
                cover: json::first_text(value, seq!["coverImgUrl"]),
                update_frequency: json::first_text(value, seq!["updateFrequency"]),
            },
        ),
        None => None,
    }
}

/// [`rank_of`] as a value.
pub open spec fn rank_model() -> spec_fn(Json) -> Option<RankBoardModel> {
    |value: Json| rank_of(value)
}

/// Reads a chart; none without a number.
pub fn rank_from_json(value: &Json) -> (r: Option<RankBoard>)
    ensures
        r.deep_view() == rank_of(*value),
{
    let id_keys = ["id"];
    let name_keys = ["name"];
    let cover_keys = ["coverImgUrl"];
    let update_keys = ["updateFrequency"];
    proof {
        assert(id_keys@ =~= seq!["id"]);
        assert(name_keys@ =~= seq!["name"]);
        assert(cover_keys@ =~= seq!["coverImgUrl"]);
        assert(update_keys@ =~= seq!["updateFrequency"]);
    }
    match json::pick_i64(value, &id_keys) {
        Some(id) => {
            let name = match json::pick_string(value, &name_keys) {
                Some(name) => name,
                None => "未命名榜单".to_owned(),
            };
            Some(
                RankBoard {
                    id,
                    name,
                    cover: json::pick_string(value, &cover_keys),
                    update_frequency: json::pick_string(value, &update_keys),
                },
            )
        },
        None => None,
    }
}

/// Reads the charts.
pub fn read_rank_boards(root: &Json) -> (r: Vec<RankBoard>)
    ensures
        r.deep_view() == json::listed(json::payload(*root), seq!["list"], rank_model()),
{
    let keys = ["list"];
    let r = json::extract_list(json::data_of(root), &keys, rank_from_json);
    proof {
        assert(keys@ =~= seq!["list"]);
        assert(json::reads::<RankBoard, _>(rank_from_json, rank_model()));
    }
    r
}

/// A song read in either layout keeps its number as what identifies it, and comes from this service.
pub proof fn songs_keep_their_number(value: Json)
    ensures
        song_of(value) is Some <==> json::first_number(value, seq!["id"]) is Some,
        song_of(value) matches Some(song) ==> song.source == SourceKind::Netease && song.hash
            == text::signed_decimal(json::first_number(value, seq!["id"])->0 as int),
{
}

// ---------------------------------------------------------------------------
// What the requests say
// ---------------------------------------------------------------------------
/// Pages follow one another without a gap: the first begins at the first entry, each further one
/// where the one before it ends, as long as the numbers fit; a size of 0 stands for thirty entries.
pub proof fn pages_follow_one_another(page: u32, page_size: u32)
    ensures
        page_size > 0 ==> page_limit(page_size) == page_size,
        page_limit(0) == 30,
        page_offset(1, page_limit(page_size)) == 0,
        page_offset(0, page_limit(page_size)) == 0,
        1 <= page < u32::MAX && page * page_limit(page_size) <= u32::MAX ==> page_offset(
            (page + 1) as u32,
            page_limit(page_size),
        ) == page_offset(page, page_limit(page_size)) + page_limit(page_size),
{
    let limit = page_limit(page_size);
    assert(0 * limit == 0) by (nonlinear_arith);
    if 1 <= page < u32::MAX {
        assert(page * limit == (page - 1) * limit + limit) by (nonlinear_arith)
            requires
                page >= 1,
        ;
        assert((page - 1) * limit >= 0) by (nonlinear_arith)
            requires
                page >= 1,
                limit >= 0,
        ;
    }
}

/// A search says what is searched for, how many songs are wanted and from which on.
pub proof fn searches_name_their_page(keyword: Seq<char>, page: u32, page_size: u32)
    ensures
        search_request(keyword, page, page_size).path == "/search"@,
        search_request(keyword, page, page_size).says("keywords"@, keyword),
        search_request(keyword, page, page_size).says_number("limit"@, page_limit(page_size) as int),
        search_request(keyword, page, page_size).says_number("offset"@, page_offset(page, page_limit(page_size)) as int),
        search_request(keyword, page, page_size).mode == Mode::Fresh,
{
    reveal_strlit("keywords");
    reveal_strlit("limit");
    reveal_strlit("offset");
    let query = search_request(keyword, page, page_size).query;
    text::numbers_are_read_back(page_limit(page_size) as int);
    text::numbers_are_read_back(page_offset(page, page_limit(page_size)) as int);
    assert(query[0].0 == "keywords"@);
    assert(query[1].0 == "limit"@);
    assert(query[2].0 == "offset"@);
}

/// The songs of a playlist are asked for under its number, so many from a place on.
pub proof fn songs_of_playlists_are_asked_for_by_name(playlist_id: Seq<char>, page: u32, page_size: u32)
    ensures
        tracks_request(playlist_id, page, page_size).path == "/playlist/track/all"@,
        tracks_request(playlist_id, page, page_size).says("id"@, playlist_id),
        tracks_request(playlist_id, page, page_size).says_number("limit"@, page_limit(page_size) as int),
        tracks_request(playlist_id, page, page_size).says_number("offset"@, page_offset(page, page_limit(page_size)) as int),
        tracks_request(playlist_id, page, page_size).mode == Mode::Fresh,
{
    reveal_strlit("id");
    reveal_strlit("limit");
    reveal_strlit("offset");
    let query = tracks_request(playlist_id, page, page_size).query;
    text::numbers_are_read_back(page_limit(page_size) as int);
    text::numbers_are_read_back(page_offset(page, page_limit(page_size)) as int);
    assert(query[0].0 == "id"@);
    assert(query[1].0 == "limit"@);
    assert(query[2].0 == "offset"@);
}

/// Public playlists are asked for so many from a place on.
pub proof fn public_playlists_are_asked_for_in_pages(page: u32, page_size: u32)
    ensures
        plaza_request(page, page_size).path == "/top/playlist"@,
        plaza_request(page, page_size).says_number("limit"@, page_limit(page_size) as int),
        plaza_request(page, page_size).says_number("offset"@, page_offset(page, page_limit(page_size)) as int),
        plaza_request(page, page_size).mode == Mode::Fresh,
{
    reveal_strlit("limit");
    reveal_strlit("offset");
    let query = plaza_request(page, page_size).query;
    text::numbers_are_read_back(page_limit(page_size) as int);
    text::numbers_are_read_back(page_offset(page, page_limit(page_size)) as int);
    assert(query[0].0 == "limit"@);
    assert(query[1].0 == "offset"@);
}

/// Artists are asked for from the first on, as many as wanted.
pub proof fn artists_are_asked_for_from_the_first_on(hot_size: u32)
    ensures
        artists_request(hot_size).path == "/top/artists"@,
        artists_request(hot_size).says_number("limit"@, page_limit(hot_size) as int),
        artists_request(hot_size).says_number("offset"@, 0int),
        artists_request(hot_size).mode == Mode::Fresh,
{
    reveal_strlit("limit");
    reveal_strlit("offset");
    let query = artists_request(hot_size).query;
    text::numbers_are_read_back(page_limit(hot_size) as int);
    assert(query[0].0 == "limit"@);
    assert(query[1].0 == "offset"@);
    text::small_numbers_are_read_back();
}

/// The songs of an artist are asked for under their number.
pub proof fn songs_of_artists_are_asked_for_by_number(artist_id: i64)
    ensures
        artist_tracks_request(artist_id).path == "/artists"@,
        artist_tracks_request(artist_id).says_number("id"@, artist_id as int),
        artist_tracks_request(artist_id).mode == Mode::Fresh,
{
    reveal_strlit("id");
    let query = artist_tracks_request(artist_id).query;
    text::numbers_are_read_back(artist_id as int);
    assert(query[0].0 == "id"@);
}

/// An address is asked for under the number of the song and the rate of the quality: 320 kbit/s for its
/// name, the best for the three names above it, 128 kbit/s for every other.
pub proof fn addresses_are_asked_for_by_song_and_rate(song: SongModel, quality: Seq<char>)
    ensures
        address_request(song, quality).path == "/song/url"@,
        address_request(song, quality).says("id"@, song.hash),
        address_request(song, quality).says_number("br"@, rate_of(quality) as int),
        address_request(song, quality).mode == Mode::Fresh,
        quality == "320"@ ==> address_request(song, quality).says_number("br"@, 320_000),
        quality == "flac"@ || quality == "super"@ || quality == "high"@ ==> address_request(
            song,
            quality,
        ).says_number("br"@, 999_000),
        quality != "320"@ && quality != "flac"@ && quality != "super"@ && quality != "high"@
            ==> address_request(song, quality).says_number("br"@, 128_000),
{
    reveal_strlit("id");
    reveal_strlit("br");
    let query = address_request(song, quality).query;
    text::numbers_are_read_back(rate_of(quality) as int);
    assert(query[0].0 == "id"@);
    assert(query[1].0 == "br"@);
    assert("id"@[0] != "br"@[0]);
    reveal_strlit("320");
    reveal_strlit("flac");
    reveal_strlit("super");
    reveal_strlit("high");
    assert("flac"@[0] != "high"@[0]);
    text::numbers_are_read_back(320_000);
    text::numbers_are_read_back(999_000);
    text::numbers_are_read_back(128_000);
    assert(text::integer(query[1].1) == Some(rate_of(quality) as int));
    if quality == "flac"@ || quality == "super"@ || quality == "high"@ {
        assert(quality.len() != "320"@.len());
        assert(rate_of(quality) == 999_000);
    }
}

/// A lyric is asked for under the number of the song.
pub proof fn lyrics_are_asked_for_by_song(song: SongModel)
    ensures
        words_request(song).path == "/lyric"@,
        words_request(song).says("id"@, song.hash),
        words_request(song).mode == Mode::Fresh,
{
    reveal_strlit("id");
    let query = words_request(song).query;
    assert(query[0].0 == "id"@);
}

/// The content of a code is asked for under its key, as text and not as a picture.
pub proof fn codes_are_asked_for_by_key(key: Seq<char>)
    ensures
        qr_request(key).path == "/login/qr/create"@,
        qr_request(key).says("key"@, key),
        qr_request(key).says("qrimg"@, "false"@),
        qr_request(key).says("platform"@, "web"@),
        qr_request(key).mode == Mode::Fresh,
{
    reveal_strlit("key");
    reveal_strlit("qrimg");
    reveal_strlit("platform");
    let query = qr_request(key).query;
    assert(query[0].0 == "key"@);
    assert(query[1].0 == "qrimg"@);
    assert(query[2].0 == "platform"@);
}

/// A user is described under their number.
pub proof fn users_are_asked_for_by_number(uid: Seq<char>)
    ensures
        user_request(uid).path == "/user/detail"@,
        user_request(uid).says("uid"@, uid),
        user_request(uid).mode == Mode::Fresh,
{
    reveal_strlit("uid");
    let query = user_request(uid).query;
    assert(query[0].0 == "uid"@);
}

/// The playlists of a user are asked for under their number.
pub proof fn own_playlists_are_asked_for_by_number(uid: Seq<char>)
    ensures
        own_playlists_request(uid).path == "/user/playlist"@,
        own_playlists_request(uid).says("uid"@, uid),
        own_playlists_request(uid).mode == Mode::Fresh,
{
    reveal_strlit("uid");
    let query = own_playlists_request(uid).query;
    assert(query[0].0 == "uid"@);
}

/// Songs are added to the playlist that was meant, under their numbers.
pub proof fn songs_are_added_to_the_playlist_that_was_meant(list_id: i64, songs: Seq<SongModel>)
    ensures
        add_request(list_id, songs).path == "/playlist/track/add"@,
        add_request(list_id, songs).says_number("pid"@, list_id as int),
        add_request(list_id, songs).says("ids"@, text::joined(hashes(songs), ","@)),
        add_request(list_id, songs).mode == Mode::Writing,
{
    reveal_strlit("pid");
    reveal_strlit("ids");
    let query = add_request(list_id, songs).query;
    text::numbers_are_read_back(list_id as int);
    assert(query[0].0 == "pid"@);
    assert(query[1].0 == "ids"@);
    assert("pid"@[0] != "ids"@[0]);
}

/// Songs are removed from the playlist that was meant, under their numbers.
pub proof fn songs_are_removed_from_the_playlist_that_was_meant(list_id: i64, songs: Seq<SongModel>)
    ensures
        remove_request(list_id, songs).path == "/playlist/track/delete"@,
        remove_request(list_id, songs).says_number("id"@, list_id as int),
        remove_request(list_id, songs).says("ids"@, text::joined(hashes(songs), ","@)),
        remove_request(list_id, songs).mode == Mode::Writing,
{
    reveal_strlit("id");
    reveal_strlit("ids");
    let query = remove_request(list_id, songs).query;
    text::numbers_are_read_back(list_id as int);
    assert(query[0].0 == "id"@);
    assert(query[1].0 == "ids"@);
}

/// The playlist that was meant is deleted.
pub proof fn the_playlist_that_was_meant_is_deleted(list_id: i64)
    ensures
        delete_request(list_id).path == "/playlist/delete"@,
        delete_request(list_id).says_number("id"@, list_id as int),
        delete_request(list_id).mode == Mode::Writing,
{
    reveal_strlit("id");
    let query = delete_request(list_id).query;
    text::numbers_are_read_back(list_id as int);
    assert(query[0].0 == "id"@);
}

/// A playlist is created under the name that was given.
pub proof fn playlists_are_created_under_their_name(name: Seq<char>)
    ensures
        create_request(name).path == "/playlist/create"@,
        create_request(name).says("name"@, name),
        create_request(name).mode == Mode::Writing,
{
    reveal_strlit("name");
    let query = create_request(name).query;
    assert(query[0].0 == "name"@);
}

/// Who is logged in and which charts there are is asked at addresses of their own.
pub proof fn status_and_charts_have_addresses()
    ensures
        status_request().path == "/login/status"@,
        status_request().mode == Mode::Fresh,
        ranks_request().path == "/toplist"@,
{
}

/// The songs of a request are named one by one, in their order, each by its own number.
pub proof fn songs_are_named_by_their_numbers(songs: Seq<SongModel>, i: int)
    requires
        0 <= i < songs.len(),
    ensures
        hashes(songs).len() == songs.len(),
        hashes(songs)[i] == songs[i].hash,
        (forall|k: int| 0 <= k < songs.len() ==> !(#[trigger] songs[k]).hash.contains(','))
            ==> text::pieces(text::joined(hashes(songs), ","@), seq![',']) == hashes(songs),
{
    reveal_strlit(",");
    assert(","@ =~= seq![',']);
    if forall|k: int| 0 <= k < songs.len() ==> !(#[trigger] songs[k]).hash.contains(',') {
        assert forall|k: int| 0 <= k < songs.len() implies !(#[trigger] hashes(songs)[k]).contains(
            ',',
        ) by {
            assert(!songs[k].hash.contains(','));
        }
        text::splitting_undoes_joining(hashes(songs), ',');
    }
}

/// What an answer about a login means: 803 that it is complete, 802 that it waits for the user's
/// confirmation, 801 that the code has not been scanned, and anything else that the code is gone. No
/// answer brings a token.
pub proof fn codes_of_a_login_mean_one_thing(root: Json, code: i64)
    ensures
        json::at(json::payload(root), "code"@) == Some(Json::Int(code)) ==> {
            &&& login_state(root).status == QrStatus::Success <==> code == 803
            &&& login_state(root).status == QrStatus::Pending <==> code == 802
            &&& login_state(root).status == QrStatus::Waiting <==> code == 801
            &&& login_state(root).status == QrStatus::Expired <==> !(801 <= code <= 803)
        },
        login_state(root).status == QrStatus::Success ==> (json::at(
            json::payload(root),
            "code"@,
        ) matches Some(value) && json::as_number(value) == Some(803i64)),
        json::at(json::payload(root), "code"@) is None ==> login_state(root).status
            == QrStatus::Expired,
        login_state(root).token is None,
        login_state(root).userid is None,
{
    reveal_with_fuel(json::first_number, 2);
    assert(seq!["code"][0]@ == "code"@);
}

/// A song is read with its own number, name and length, in either layout of the service.
pub proof fn songs_are_read_as_described(value: Json, id: i64, ms: i64, name: String)
    requires
        json::at(value, "id"@) == Some(Json::Int(id)),
    ensures
        song_of(value) matches Some(song) && text::integer(song.hash) == Some(id as int)
            && song.source == SourceKind::Netease,
        json::at(value, "name"@) == Some(Json::Text(name)) && text::trimmed(name@).len() > 0 ==> (
        song_of(value) matches Some(song) && song.name == text::trimmed(name@)),
        json::at(value, "duration"@) == Some(Json::Int(ms)) && ms >= 0 ==> (song_of(
            value,
        ) matches Some(song) && song.duration_ms == ms),
        json::at(value, "duration"@) is None && json::at(value, "dt"@) == Some(Json::Int(ms)) && ms
            >= 0 ==> (song_of(value) matches Some(song) && song.duration_ms == ms),
{
    reveal_with_fuel(json::first_number, 2);
    reveal_with_fuel(json::first_text, 2);
    reveal_with_fuel(json::first_u64, 3);
    assert(seq!["id"][0]@ == "id"@);
    assert(seq!["name"][0]@ == "name"@);
    let lengths = seq!["duration", "dt"];
    assert(lengths[0]@ == "duration"@);
    assert(lengths.drop_first()[0]@ == "dt"@);
    text::numbers_are_read_back(id as int);
}

/// A playlist of the user, an artist and a chart are read with their own number and name; the
/// playlist can be written to under that number.
pub proof fn entries_are_read_as_described(value: Json, id: i64, name: String)
    requires
        json::at(value, "id"@) == Some(Json::Int(id)),
        json::at(value, "name"@) == Some(Json::Text(name)),
        text::trimmed(name@).len() > 0,
    ensures
        own_playlist_of(value) matches Some(playlist) && playlist.list_id == Some(id)
            && playlist.name == text::trimmed(name@) && playlist.is_own && text::integer(
            playlist.id,
        ) == Some(id as int),
        artist_of(value) matches Some(artist) && artist.id == id && artist.name == text::trimmed(
            name@,
        ),
        rank_of(value) matches Some(board) && board.id == id && board.name == text::trimmed(name@),
        plaza_playlist_of(value) matches Some(playlist) && text::integer(playlist.id) == Some(
            id as int,
        ) && playlist.name == text::trimmed(name@),
{
    reveal_with_fuel(json::first_number, 2);
    reveal_with_fuel(json::first_text, 2);
    assert(seq!["id"][0]@ == "id"@);
    assert(seq!["name"][0]@ == "name"@);
    text::numbers_are_read_back(id as int);
}

/// A line gets the translation that stands at its own time; lines without one keep what they have.
pub proof fn translations_are_found_by_time(
    lines: Seq<LyricLineModel>,
    translation: Seq<LyricLineModel>,
    i: int,
    k: int,
)
    requires
        0 <= i < lines.len(),
        0 <= k < translation.len(),
    ensures
        with_translation(lines, translation).len() == lines.len(),
        with_translation(lines, translation)[i].text == lines[i].text,
        with_translation(lines, translation)[i].time_ms == lines[i].time_ms,
        translation[k].time_ms == lines[i].time_ms && (forall|m: int|
            0 <= m < k ==> (#[trigger] translation[m]).time_ms != lines[i].time_ms)
            && text::trimmed(translation[k].text).len() > 0 ==> with_translation(
            lines,
            translation,
        )[i].translation == Some(translation[k].text),
        (forall|m: int|
            0 <= m < translation.len() ==> (#[trigger] translation[m]).time_ms != lines[i].time_ms)
            ==> with_translation(lines, translation)[i].translation == lines[i].translation,
{
    if translation[k].time_ms == lines[i].time_ms && (forall|m: int|
        0 <= m < k ==> (#[trigger] translation[m]).time_ms != lines[i].time_ms) {
        lemma_line_at(translation, lines[i].time_ms, k);
    }
    if forall|m: int|
        0 <= m < translation.len() ==> (#[trigger] translation[m]).time_ms != lines[i].time_ms {
        lemma_no_line_at(translation, lines[i].time_ms);
    }
}

/// The first line of a time is found.
proof fn lemma_line_at(lines: Seq<LyricLineModel>, time_ms: u64, k: int)
    requires
        0 <= k < lines.len(),
        lines[k].time_ms == time_ms,
        forall|m: int| 0 <= m < k ==> (#[trigger] lines[m]).time_ms != time_ms,
    ensures
        line_at(lines, time_ms) == Some(lines[k]),
    decreases k,
{
    if k > 0 {
        assert(lines[0].time_ms != time_ms);
        let rest = lines.drop_first();
        assert forall|m: int| 0 <= m < k - 1 implies (#[trigger] rest[m]).time_ms != time_ms by {
            assert(rest[m] == lines[m + 1]);
        }
        lemma_line_at(rest, time_ms, k - 1);
    }
}

/// A time without a line has none.
proof fn lemma_no_line_at(lines: Seq<LyricLineModel>, time_ms: u64)
    requires
        forall|m: int| 0 <= m < lines.len() ==> (#[trigger] lines[m]).time_ms != time_ms,
    ensures
        line_at(lines, time_ms) is None,
    decreases lines.len(),
{
    if lines.len() > 0 {
        assert(lines[0].time_ms != time_ms);
        let rest = lines.drop_first();
        assert forall|m: int| 0 <= m < rest.len() implies (#[trigger] rest[m]).time_ms != time_ms by {
            assert(rest[m] == lines[m + 1]);
        }
        lemma_no_line_at(rest, time_ms);
    }
}

/// A change was refused exactly where the answer has a code other than 200, and that code is handed
/// on.
pub proof fn refused_changes_have_a_code(path: Seq<char>, root: Json, code: i64)
    ensures
        json::at(root, "code"@) == Some(Json::Int(code)) ==> (api_error(path, root) is Some <==> code
            != 200),
        json::at(root, "code"@) == Some(Json::Int(code)) && code != 200 ==> (api_error(
            path,
            root,
        ) matches Some(ErrorModel::Api { path: at, code: told, .. }) && at == path && told == code),
        json::at(root, "code"@) is None ==> api_error(path, root) is None,
{
}

/// The user who is logged in is the one of the profile, else the one of the account.
pub proof fn users_are_known_by_their_profile(root: Json, profile: Json, id: i64)
    ensures
        json::at(json::payload(root), "profile"@) == Some(profile) && json::at(profile, "userId"@)
            == Some(Json::Int(id)) ==> user_number(root) == Some(id),
        json::at(json::payload(root), "profile"@) is None && json::at(
            json::payload(root),
            "account"@,
        ) == Some(profile) && json::at(profile, "id"@) == Some(Json::Int(id)) ==> user_number(root)
            == Some(id),
{
    reveal_with_fuel(json::first_number, 2);
    assert(seq!["userId"][0]@ == "userId"@);
    assert(seq!["id"][0]@ == "id"@);
}

/// The address of a song is that of the first item, or of the answer itself.
pub proof fn addresses_are_those_of_the_answer(root: Json, url: String)
    requires
        text::trimmed(text::trimmed(url@)).len() > 0,
        text::trimmed(url@).len() > 0,
    ensures
        json::payload(root) matches Json::Array(items) && items@.len() > 0 && json::at(
            items@[0],
            "url"@,
        ) == Some(Json::Text(url)) ==> address_of(root) == Some(text::trimmed(url@)),
        json::at(json::payload(root), "url"@) == Some(Json::Text(url)) ==> address_of(root) == Some(
            text::trimmed(url@),
        ),
{
    reveal_with_fuel(json::first_text, 2);
    assert(seq!["url"][0]@ == "url"@);
}

} // verus!
