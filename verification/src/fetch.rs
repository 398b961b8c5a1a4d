//! What is asked of which service, and how its answer is read.
use vstd::prelude::*;
use crate::catalog::{self, StreamSearch, PAGE_LIMIT};
use crate::client::{Request, RequestModel};
use crate::cloud::{self, QrCheck};
use crate::error::AppError;
use crate::json::{self, Json};
use crate::lyric;
use crate::model::{self, Playlist, PlaylistModel, Song, SongModel};
use crate::netease;
use crate::source::{self, SourceKind};

verus! {

/// The songs of an answer, as a service lays them out, each with the service noted.
pub open spec fn songs_from(kind: SourceKind, root: Json) -> Seq<SongModel> {
    source::stamped(
        if kind == SourceKind::Netease {
            json::listed(json::payload(root), seq!["songs"], netease::song_model())
        } else {
            model::songs_of(json::payload(root))
        },
        kind,
    )
}

impl SourceKind {
    /// The request for one page of songs that match `keyword`.
    pub fn search_songs(self, keyword: &str, page: u32, page_size: u32) -> (r: Request)
        ensures
            r.deep_view() == searched(self, keyword@, page, page_size),
    {
        match self {
            SourceKind::Kugou | SourceKind::KugouConcept => catalog::search_songs(
                keyword,
                page,
                page_size,
            ),
            SourceKind::Netease => netease::search_songs(keyword, page, page_size),
        }
    }

    /// The songs of an answer.
    pub fn read_songs(self, root: &Json) -> (r: Vec<Song>)
        ensures
            r.deep_view() == songs_from(self, *root),
    {
        let mut songs = match self {
            SourceKind::Kugou | SourceKind::KugouConcept => catalog::read_songs(root),
            SourceKind::Netease => netease::read_songs(root, "songs"),
        };
        source::stamp_songs(&mut songs, self);
        songs
    }

    /// The request for the content of a QR code.
    pub fn login_qr_create(self, key: &str) -> (r: Request)
        ensures
            r.deep_view() == if self == SourceKind::Netease {
                netease::qr_request(key@)
            } else {
                cloud::qr_request(key@)
            },
    {
        match self {
            SourceKind::Kugou | SourceKind::KugouConcept => cloud::login_qr_create(key),
            SourceKind::Netease => netease::login_qr_create(key),
        }
    }

    /// What became of a QR code.
    pub fn read_qr_check(self, root: &Json) -> (r: QrCheck)
        ensures
            r.deep_view() == if self == SourceKind::Netease {
                netease::login_state(*root)
            } else {
                cloud::login_state(*root)
            },
    {
        match self {
            SourceKind::Kugou | SourceKind::KugouConcept => cloud::read_qr_check(root),
            SourceKind::Netease => netease::read_qr_check(root),
        }
    }

    /// The key of a QR code.
    pub fn read_qr_key(self, root: &Json) -> (r: Result<String, AppError>)
        ensures
            cloud::text_result(r) == if self == SourceKind::Netease {
                netease::demanded(
                    json::first_text(json::payload(*root), seq!["unikey", "key"]),
                    "取登录二维码 key 失败：响应里没有 unikey"@,
                )
            } else {
                cloud::demanded(
                    json::first_text(json::payload(*root), seq!["qrcode", "key"]),
                    "`/login/qr/key` 未返回 key"@,
                )
            },
    {
        match self {
            SourceKind::Kugou | SourceKind::KugouConcept => cloud::read_qr_key(root),
            SourceKind::Netease => netease::read_qr_key(root),
        }
    }

    /// The content of a QR code.
    pub fn read_qr_content(self, root: &Json) -> (r: Result<String, AppError>)
        ensures
            cloud::text_result(r) == if self == SourceKind::Netease {
                netease::demanded(
                    netease::qr_content(*root),
                    "生成登录二维码失败：响应里没有二维码内容"@,
                )
            } else {
                cloud::demanded(
                    json::first_text(json::payload(*root), seq!["url", "qrcode", "qrurl"]),
                    "`/login/qr/create` 未返回二维码内容"@,
                )
            },
    {
        match self {
            SourceKind::Kugou | SourceKind::KugouConcept => cloud::read_qr_content(root),
            SourceKind::Netease => netease::read_qr_content(root),
        }
    }

    /// Whether songs were put into a playlist or taken out of one. The answer can refuse it though
    /// its status is one of success.
    pub fn check_tracks_written(self, path: &str, root: &Json) -> (r: Result<(), AppError>)
        ensures
            ({
                let refusal = if self == SourceKind::Netease {
                    netease::api_error(path@, *root)
                } else {
                    cloud::write_error(path@, *root)
                };
                match r {
                    Ok(_) => refusal is None,
                    Err(error) => refusal == Some(error.deep_view()),
                }
            }),
    {
        match self {
            SourceKind::Kugou | SourceKind::KugouConcept => cloud::check_write_result(path, root),
            SourceKind::Netease => netease::check_api_code(path, root),
        }
    }

    /// Whether a playlist was deleted. Only one service says so in a code of its own; of the others
    /// every answer that arrives is a success.
    pub fn check_deleted(self, root: &Json) -> (r: Result<(), AppError>)
        ensures
            match r {
                Ok(_) => self == SourceKind::Netease ==> netease::api_error(
                    "/playlist/delete"@,
                    *root,
                ) is None,
                Err(error) => self == SourceKind::Netease && netease::api_error(
                    "/playlist/delete"@,
                    *root,
                ) == Some(error.deep_view()),
            },
    {
        match self {
            SourceKind::Kugou | SourceKind::KugouConcept => Ok(()),
            SourceKind::Netease => netease::check_api_code("/playlist/delete", root),
        }
    }

    /// The number of a playlist that was created, where the answer gives it.
    pub fn read_created(self, root: &Json) -> (r: Result<Option<i64>, AppError>)
        ensures
            match r {
                Ok(id) => if self == SourceKind::Netease {
                    netease::api_error("/playlist/create"@, *root) is None && id == model::either(
                        json::first_number(*root, seq!["id"]),
                        json::first_number(json::payload(*root), seq!["id"]),
                    )
                } else {
                    id == json::first_number(json::payload(*root), seq!["listid", "list_id", "id"])
                },
                Err(error) => self == SourceKind::Netease && netease::api_error(
                    "/playlist/create"@,
                    *root,
                ) == Some(error.deep_view()),
            },
    {
        match self {
            SourceKind::Kugou | SourceKind::KugouConcept => Ok(cloud::read_created(root)),
            SourceKind::Netease => netease::read_created(root),
        }
    }
}

/// How the address of a song is come by: with one request, or by a search that begins with one.
pub enum StreamPlan {
    Direct(Request),
    Search(StreamSearch, Request),
}

/// How the address of a song is asked for at the service that the song comes from.
pub fn stream_plan(song: &Song, quality: &str) -> (r: StreamPlan)
    ensures
        match r {
            StreamPlan::Direct(request) => song.source == SourceKind::Netease
                && request.deep_view() == netease::address_request(song.deep_view(), quality@),
            StreamPlan::Search(search, request) => song.source != SourceKind::Netease
                && search.wf() && search.state() == catalog::search_start(
                song.deep_view(),
                quality@,
            ) && request.deep_view() == catalog::rights_request(song.deep_view()),
        },
{
    match song.source {
        SourceKind::Netease => StreamPlan::Direct(netease::song_stream_url(song, quality)),
        SourceKind::Kugou | SourceKind::KugouConcept => {
            let (search, request) = StreamSearch::song_stream_url(song, quality);
            StreamPlan::Search(search, request)
        },
    }
}

/// The first request for the lyric of a song, at the service that the song comes from.
pub fn lyric_request(song: &Song) -> (r: Request)
    ensures
        r.deep_view() == if song.source == SourceKind::Netease {
            netease::words_request(song.deep_view())
        } else {
            lyric::search_request(song.deep_view())
        },
{
    match song.source {
        SourceKind::Netease => netease::fetch_lyric(song),
        SourceKind::Kugou | SourceKind::KugouConcept => lyric::find_request(song),
    }
}

/// The request for one page of songs that match `keyword`, by service.
pub open spec fn searched(
    kind: SourceKind,
    keyword: Seq<char>,
    page: u32,
    page_size: u32,
) -> RequestModel {
    if kind == SourceKind::Netease {
        netease::search_request(keyword, page, page_size)
    } else {
        catalog::search_request(keyword, page, page_size)
    }
}

/// The request for one page of the songs of a playlist: the user's own are asked for by their
/// number, others by their name.
pub open spec fn playlist_request(playlist: PlaylistModel, page: u32) -> RequestModel {
    if playlist.is_own && playlist.list_id is Some {
        catalog::own_tracks_request(playlist.list_id->0, page, PAGE_LIMIT)
    } else {
        catalog::tracks_request(playlist.id, page, PAGE_LIMIT)
    }
}

/// The request for one page of the songs of a playlist.
pub fn playlist_page(playlist: &Playlist, page: u32) -> (r: Request)
    ensures
        r.deep_view() == playlist_request(playlist.deep_view(), page),
{
    match playlist.list_id {
        Some(list_id) => if playlist.is_own {
            catalog::user_playlist_tracks(list_id, page, PAGE_LIMIT)
        } else {
            catalog::playlist_tracks(playlist.id.as_str(), page, PAGE_LIMIT)
        },
        None => catalog::playlist_tracks(playlist.id.as_str(), page, PAGE_LIMIT),
    }
}

/// Whether more songs follow after a first page of so many.
pub fn has_more(count: usize) -> (r: bool)
    ensures
        r == (count >= PAGE_LIMIT),
{
    count >= PAGE_LIMIT as usize
}

/// A search goes to the service in use, says what is searched for, and names the page: by its number,
/// or by where it begins.
pub proof fn searches_reach_their_service(
    kind: SourceKind,
    keyword: Seq<char>,
    page: u32,
    page_size: u32,
)
    requires
        page >= 1,
        page_size >= 1,
        (page - 1) * page_size <= u32::MAX,
    ensures
        searched(kind, keyword, page, page_size).says("keywords"@, keyword),
        kind != SourceKind::Netease ==> searched(kind, keyword, page, page_size).says_number(
            "page"@,
            page as int,
        ) && searched(kind, keyword, page, page_size).says_number("pagesize"@, page_size as int),
        kind == SourceKind::Netease ==> searched(kind, keyword, page, page_size).says_number(
            "offset"@,
            (page - 1) * page_size,
        ) && searched(kind, keyword, page, page_size).says_number("limit"@, page_size as int),
{
    catalog::searches_name_their_page(keyword, page, page_size);
    netease::searches_name_their_page(keyword, page, page_size);
    assert((page - 1) * page_size >= 0) by (nonlinear_arith)
        requires
            page >= 1,
            page_size >= 1,
    ;
}

/// The user's own playlists are asked for under their number and others under their name, thirty songs
/// to the page.
pub proof fn playlists_are_asked_for_by_whose_they_are(playlist: PlaylistModel, page: u32)
    ensures
        playlist.is_own && playlist.list_id is Some ==> playlist_request(
            playlist,
            page,
        ).says_number("listid"@, playlist.list_id->0 as int),
        !playlist.is_own || playlist.list_id is None ==> playlist_request(playlist, page).says(
            "id"@,
            playlist.id,
        ),
        playlist_request(playlist, page).says_number("page"@, page as int),
        playlist_request(playlist, page).says_number("pagesize"@, 30),
{
    if playlist.list_id is Some {
        catalog::songs_of_own_playlists_are_asked_for_by_number(
            playlist.list_id->0,
            page,
            PAGE_LIMIT,
        );
    }
    catalog::songs_of_playlists_are_asked_for_by_name(playlist.id, page, PAGE_LIMIT);
}

/// Every song of an answer knows the service it came from.
pub proof fn answers_are_stamped(kind: SourceKind, root: Json, i: int)
    requires
        0 <= i < songs_from(kind, root).len(),
    ensures
        songs_from(kind, root)[i].source == kind,
{
}

} // verus!
