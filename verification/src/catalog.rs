//! Searching, browsing and finding the address of a song: what is asked of the service and what is
//! made of the answers.
use vstd::prelude::*;
use vstd::string::StringExecFns;
use crate::client::{Mode, Request, RequestModel};
use crate::error::{AppError, ErrorModel};
use crate::json;
use crate::json::Json;
use crate::model;
use crate::model::{Artist, Playlist, PlaylistModel, RankBoard, Song, SongModel};
use crate::text;

verus! {

/// How many songs the service gives on one page of a playlist or chart.
pub const PAGE_LIMIT: u32 = 30;

/// How many pages are asked for at most.
pub const MAX_PAGES: u32 = 60;

/// How many pages are asked for at once.
pub const CONCURRENT_PAGES: u32 = 6;

// ---------------------------------------------------------------------------
// Requests
// ---------------------------------------------------------------------------
/// The decimal form of a small number.
pub open spec fn num(n: u32) -> Seq<char> {
    text::decimal(n as nat)
}

/// The request for one page of songs that match `keywords`.
pub open spec fn search_request(keywords: Seq<char>, page: u32, page_size: u32) -> RequestModel {
    RequestModel {
        path: "/search"@,
        query: seq![
            ("keywords"@, keywords),
            ("type"@, "song"@),
            ("page"@, num(page)),
            ("pagesize"@, num(page_size)),
        ],
        mode: Mode::Fresh,
    }
}

/// The request for one page of songs that match `keywords`.
pub fn search_songs(keywords: &str, page: u32, page_size: u32) -> (r: Request)
    ensures
        r.deep_view() == search_request(keywords@, page, page_size),
        r.deep_view().says("keywords"@, keywords@),
        r.deep_view().says_number("page"@, page as int),
        r.deep_view().says_number("pagesize"@, page_size as int),
{
    proof {
        searches_name_their_page(keywords@, page, page_size);
    }
    let r = Request::new("/search", Mode::Fresh).with("keywords", keywords.to_owned()).with(
        "type",
        "song".to_owned(),
    ).with("page", text::write_u64(page as u64)).with("pagesize", text::write_u64(page_size as u64));
    proof {
        assert(r.deep_view().query =~= seq![
            ("keywords"@, keywords@),
            ("type"@, "song"@),
            ("page"@, num(page)),
            ("pagesize"@, num(page_size)),
        ]);
    }
    r
}

/// The request for one page of public playlists.
pub open spec fn plaza_request(category_id: i64, page: u32, page_size: u32) -> RequestModel {
    RequestModel {
        path: "/top/playlist"@,
        query: seq![
            ("category_id"@, text::signed_decimal(category_id as int)),
            ("withsong"@, "0"@),
            ("withtag"@, "1"@),
            ("page"@, num(page)),
            ("pagesize"@, num(page_size)),
        ],
        mode: Mode::Cached,
    }
}

/// The request for one page of public playlists.
pub fn plaza_playlists(category_id: i64, page: u32, page_size: u32) -> (r: Request)
    ensures
        r.deep_view() == plaza_request(category_id, page, page_size),
{
    let r = Request::new("/top/playlist", Mode::Cached).with(
        "category_id",
        text::write_i64(category_id),
    ).with("withsong", "0".to_owned()).with("withtag", "1".to_owned()).with(
        "page",
        text::write_u64(page as u64),
    ).with("pagesize", text::write_u64(page_size as u64));
    proof {
        assert(r.deep_view().query =~= seq![
            ("category_id"@, text::signed_decimal(category_id as int)),
            ("withsong"@, "0"@),
            ("withtag"@, "1"@),
            ("page"@, num(page)),
            ("pagesize"@, num(page_size)),
        ]);
    }
    r
}

/// The request for one page of the songs of a public playlist.
pub open spec fn tracks_request(global_id: Seq<char>, page: u32, page_size: u32) -> RequestModel {
    RequestModel {
        path: "/playlist/track/all"@,
        query: seq![
            ("id"@, global_id),
            ("page"@, num(page)),
            ("pagesize"@, num(page_size)),
        ],
        mode: Mode::Cached,
    }
}

/// The request for one page of the songs of a public playlist.
pub fn playlist_tracks(global_id: &str, page: u32, page_size: u32) -> (r: Request)
    ensures
        r.deep_view() == tracks_request(global_id@, page, page_size),
{
    let r = Request::new("/playlist/track/all", Mode::Cached).with("id", global_id.to_owned()).with(
        "page",
        text::write_u64(page as u64),
    ).with("pagesize", text::write_u64(page_size as u64));
    proof {
        assert(r.deep_view().query =~= seq![
            ("id"@, global_id@),
            ("page"@, num(page)),
            ("pagesize"@, num(page_size)),
        ]);
    }
    r
}

/// The request for the playlists of the user.
pub open spec fn own_playlists_request() -> RequestModel {
    RequestModel {
        path: "/user/playlist"@,
        query: seq![("page"@, "1"@), ("pagesize"@, "100"@)],
        mode: Mode::Fresh,
    }
}

/// The request for the playlists of the user.
pub fn user_playlists() -> (r: Request)
    ensures
        r.deep_view() == own_playlists_request(),
{
    let r = Request::new("/user/playlist", Mode::Fresh).with("page", "1".to_owned()).with(
        "pagesize",
        "100".to_owned(),
    );
    proof {
        assert(r.deep_view().query =~= seq![("page"@, "1"@), ("pagesize"@, "100"@)]);
    }
    r
}

/// The request for one page of the songs of a playlist of the user.
pub open spec fn own_tracks_request(list_id: i64, page: u32, page_size: u32) -> RequestModel {
    RequestModel {
        path: "/playlist/track/all/new"@,
        query: seq![
            ("listid"@, text::signed_decimal(list_id as int)),
            ("page"@, num(page)),
            ("pagesize"@, num(page_size)),
        ],
        mode: Mode::Cached,
    }
}

/// The request for one page of the songs of a playlist of the user.
pub fn user_playlist_tracks(list_id: i64, page: u32, page_size: u32) -> (r: Request)
    ensures
        r.deep_view() == own_tracks_request(list_id, page, page_size),
{
    let r = Request::new("/playlist/track/all/new", Mode::Cached).with(
        "listid",
        text::write_i64(list_id),
    ).with("page", text::write_u64(page as u64)).with("pagesize", text::write_u64(page_size as u64));
    proof {
        assert(r.deep_view().query =~= seq![
            ("listid"@, text::signed_decimal(list_id as int)),
            ("page"@, num(page)),
            ("pagesize"@, num(page_size)),
        ]);
    }
    r
}

/// The request for the artists of a region.
pub open spec fn artists_request(kind: i64, hot_size: u32) -> RequestModel {
    RequestModel {
        path: "/artist/lists"@,
        query: seq![
            ("sextypes"@, "0"@),
            ("type"@, text::signed_decimal(kind as int)),
            ("musician"@, "0"@),
            ("hotsize"@, num(hot_size)),
        ],
        mode: Mode::Cached,
    }
}

/// The request for the artists of a region.
pub fn artist_list(kind: i64, hot_size: u32) -> (r: Request)
    ensures
        r.deep_view() == artists_request(kind, hot_size),
{
    let r = Request::new("/artist/lists", Mode::Cached).with("sextypes", "0".to_owned()).with(
        "type",
        text::write_i64(kind),
    ).with("musician", "0".to_owned()).with("hotsize", text::write_u64(hot_size as u64));
    proof {
        assert(r.deep_view().query =~= seq![
            ("sextypes"@, "0"@),
            ("type"@, text::signed_decimal(kind as int)),
            ("musician"@, "0"@),
            ("hotsize"@, num(hot_size)),
        ]);
    }
    r
}

/// The request for one page of the songs of an artist, `hot` or `new` first.
pub open spec fn artist_tracks_request(artist_id: i64, sort: Seq<char>, page: u32, page_size: u32) -> RequestModel {
    RequestModel {
        path: "/artist/audios"@,
        query: seq![
            ("id"@, text::signed_decimal(artist_id as int)),
            ("sort"@, sort),
            ("page"@, num(page)),
            ("pagesize"@, num(page_size)),
        ],
        mode: Mode::Cached,
    }
}

/// The request for one page of the songs of an artist, `hot` or `new` first.
pub fn artist_tracks(artist_id: i64, sort: &str, page: u32, page_size: u32) -> (r: Request)
    ensures
        r.deep_view() == artist_tracks_request(artist_id, sort@, page, page_size),
{
    let r = Request::new("/artist/audios", Mode::Cached).with("id", text::write_i64(artist_id)).with(
        "sort",
        sort.to_owned(),
    ).with("page", text::write_u64(page as u64)).with("pagesize", text::write_u64(page_size as u64));
    proof {
        assert(r.deep_view().query =~= seq![
            ("id"@, text::signed_decimal(artist_id as int)),
            ("sort"@, sort@),
            ("page"@, num(page)),
            ("pagesize"@, num(page_size)),
        ]);
    }
    r
}

/// The request for the charts.
pub open spec fn ranks_request() -> RequestModel {
    RequestModel {
        path: "/rank/list"@,
        query: seq![("withsong"@, "0"@)],
        mode: Mode::Cached,
    }
}

/// The request for the charts.
pub fn rank_boards() -> (r: Request)
    ensures
        r.deep_view() == ranks_request(),
{
    let r = Request::new("/rank/list", Mode::Cached).with("withsong", "0".to_owned());
    proof {
        assert(r.deep_view().query =~= seq![("withsong"@, "0"@)]);
    }
    r
}

/// The request for one page of the songs of a chart.
pub open spec fn rank_tracks_request(rank_id: i64, page: u32, page_size: u32) -> RequestModel {
    RequestModel {
        path: "/rank/audio"@,
        query: seq![
            ("rankid"@, text::signed_decimal(rank_id as int)),
            ("page"@, num(page)),
            ("pagesize"@, num(page_size)),
        ],
        mode: Mode::Cached,
    }
}

/// The request for one page of the songs of a chart.
pub fn rank_tracks(rank_id: i64, page: u32, page_size: u32) -> (r: Request)
    ensures
        r.deep_view() == rank_tracks_request(rank_id, page, page_size),
{
    let r = Request::new("/rank/audio", Mode::Cached).with("rankid", text::write_i64(rank_id)).with(
        "page",
        text::write_u64(page as u64),
    ).with("pagesize", text::write_u64(page_size as u64));
    proof {
        assert(r.deep_view().query =~= seq![
            ("rankid"@, text::signed_decimal(rank_id as int)),
            ("page"@, num(page)),
            ("pagesize"@, num(page_size)),
        ]);
    }
    r
}

// ---------------------------------------------------------------------------
// Answers
// ---------------------------------------------------------------------------
/// The songs of an answer.
pub fn read_songs(root: &Json) -> (r: Vec<Song>)
    ensures
        r.deep_view() == model::songs_of(json::payload(*root)),
{
    model::extract_songs(json::data_of(root))
}

/// The artists of an answer.
pub fn read_artists(root: &Json) -> (r: Vec<Artist>)
    ensures
        r.deep_view() == json::listed(
            *root,
            seq!["info", "list", "singer_list", "authors"],
            model::artist_model(),
        ),
{
    let keys = ["info", "list", "singer_list", "authors"];
    let r = json::extract_list(root, &keys, model::artist_from_json);
    proof {
        assert(keys@ =~= seq!["info", "list", "singer_list", "authors"]);
        assert(json::reads::<Artist, _>(model::artist_from_json, model::artist_model()));
    }
    r
}

/// The charts of an answer.
pub fn read_rank_boards(root: &Json) -> (r: Vec<RankBoard>)
    ensures
        r.deep_view() == json::listed(
            *root,
            seq!["info", "list", "rank_list"],
            model::rank_board_model(),
        ),
{
    let keys = ["info", "list", "rank_list"];
    let r = json::extract_list(root, &keys, model::rank_board_from_json);
    proof {
        assert(keys@ =~= seq!["info", "list", "rank_list"]);
        assert(json::reads::<RankBoard, _>(model::rank_board_from_json, model::rank_board_model()));
    }
    r
}

/// The playlist that an entry describes. In a list of the user's own playlists one that has a number
/// and does not say whose it is counts as the user's.
pub open spec fn listed_playlist(value: Json, assume_own: bool) -> Option<PlaylistModel> {
    match model::playlist_of(value) {
        Some(playlist) => Some(
            PlaylistModel {
                is_own: playlist.is_own || (assume_own && playlist.list_id is Some && json::at(
                    value,
                    "is_self"@,
                ) is None),
                ..playlist
            },
        ),
        None => None,
    }
}

/// [`listed_playlist`] as a value.
pub open spec fn listed_playlist_model(assume_own: bool) -> spec_fn(Json) -> Option<PlaylistModel> {
    |value: Json| listed_playlist(value, assume_own)
}

/// The keys under which the playlists of an answer stand.
pub open spec fn playlist_list_keys() -> Seq<&'static str> {
    seq!["info", "list", "lists", "special_list", "data"]
}

/// Reads an entry of a list of the user's own playlists.
fn own_playlist_from_json(value: &Json) -> (r: Option<Playlist>)
    ensures
        r.deep_view() == listed_playlist(*value, true),
{
    match model::playlist_from_json(value) {
        Some(found) => {
            let mut playlist = found;
            if playlist.list_id.is_some() && value.get("is_self").is_none() {
                playlist.is_own = true;
            }
            Some(playlist)
        },
        None => None,
    }
}

/// Reads an entry of a list of public playlists.
fn public_playlist_from_json(value: &Json) -> (r: Option<Playlist>)
    ensures
        r.deep_view() == listed_playlist(*value, false),
{
    model::playlist_from_json(value)
}

/// The playlists of an answer.
pub fn collect_playlists(root: &Json, assume_own: bool) -> (r: Vec<Playlist>)
    ensures
        r.deep_view() == json::listed(
            *root,
            playlist_list_keys(),
            listed_playlist_model(assume_own),
        ),
{
    let keys = ["info", "list", "lists", "special_list", "data"];
    proof {
        assert(keys@ =~= playlist_list_keys());
        assert(json::reads::<Playlist, _>(own_playlist_from_json, listed_playlist_model(true)));
        assert(json::reads::<Playlist, _>(public_playlist_from_json, listed_playlist_model(false)));
    }
    if assume_own {
        json::extract_list(root, &keys, own_playlist_from_json)
    } else {
        json::extract_list(root, &keys, public_playlist_from_json)
    }
}

/// A public playlist is never taken for the user's unless the service says so.
pub proof fn strangers_playlists_stay_strange(value: Json)
    ensures
        listed_playlist(value, false) == model::playlist_of(value),
        listed_playlist(value, true) matches Some(own) ==> own.is_own || own.list_id is None
            || json::at(value, "is_self"@) is Some,
{
}

// ---------------------------------------------------------------------------
// All pages of a list
// ---------------------------------------------------------------------------
/// What came of asking for one page.
pub enum PageResult {
    Songs(Vec<Song>),
    Failed(AppError),
    /// The asking itself broke down; what is said of it.
    Broken(String),
}

/// The songs of a list that is asked for page by page.
pub struct PageCollector {
    /// The songs so far.
    pub songs: Vec<Song>,
    /// The page to ask for next.
    pub next: u32,
    /// A page has shown that nothing follows.
    pub ended: bool,
}

impl PageCollector {
    /// What holds between any two steps.
    pub open spec fn wf(&self) -> bool {
        1 <= self.next <= MAX_PAGES + 1
    }

    /// Nothing has been asked for yet.
    pub fn new() -> (r: PageCollector)
        ensures
            r.wf(),
            r.songs@.len() == 0,
            r.next == 1,
            !r.ended,
    {
        PageCollector { songs: Vec::new(), next: 1, ended: false }
    }

    /// The pages to ask for next, from the first to the last of them: the first page alone, then
    /// batches; `None` when the list is complete.
    pub open spec fn wanted(&self) -> Option<(u32, u32)> {
        if self.ended || self.next > MAX_PAGES {
            None
        } else if self.next == 1 {
            Some((1, 1))
        } else if self.next + CONCURRENT_PAGES - 1 > MAX_PAGES {
            Some((self.next, MAX_PAGES))
        } else {
            Some((self.next, (self.next + CONCURRENT_PAGES - 1) as u32))
        }
    }

    /// Begins the next batch: the pages to ask for, or `None` when the list is complete.
    pub fn next_batch(&mut self) -> (r: Option<(u32, u32)>)
        requires
            old(self).wf(),
        ensures
            final(self).wf(),
            r == old(self).wanted(),
            final(self).songs == old(self).songs,
            final(self).ended == old(self).ended,
            final(self).next == match r {
                Some((_, last)) => (last + 1) as u32,
                None => old(self).next,
            },
    {
        if self.ended || self.next > MAX_PAGES {
            return None;
        }
        let first: u32 = self.next;
        let last: u32 = if first == 1 {
            1
        } else if MAX_PAGES - first < CONCURRENT_PAGES {
            MAX_PAGES
        } else {
            first + CONCURRENT_PAGES - 1
        };
        self.next = last + 1;
        Some((first, last))
    }

    /// Takes in what came of one page. An error is given back where the whole list has failed:
    /// always where the asking broke down, and where a page failed before any song was there.
    /// Otherwise a failed or empty page only ends the list.
    pub fn absorb(&mut self, page: PageResult) -> (r: Option<AppError>)
        requires
            old(self).wf(),
        ensures
            final(self).wf(),
            final(self).next == old(self).next,
            match page {
                PageResult::Songs(songs) => {
                    &&& r is None
                    &&& final(self).songs@ == old(self).songs@ + songs@
                    &&& final(self).ended == (old(self).ended || songs@.len() == 0)
                },
                PageResult::Failed(error) => {
                    &&& final(self).songs == old(self).songs
                    &&& if old(self).songs@.len() > 0 {
                        r is None && final(self).ended
                    } else {
                        r == Some(error)
                    }
                },
                PageResult::Broken(words) => {
                    &&& final(self).songs == old(self).songs
                    &&& r matches Some(error)
                    &&& error.deep_view() == ErrorModel::Other("翻页任务失败："@ + words@)
                },
            },
    {
        match page {
            PageResult::Songs(songs) => {
                let mut songs = songs;
                if songs.len() == 0 {
                    self.ended = true;
                }
                self.songs.append(&mut songs);
                None
            },
            PageResult::Failed(error) => {
                if self.songs.len() == 0 {
                    return Some(error);
                }
                self.ended = true;
                None
            },
            PageResult::Broken(words) => Some(
                AppError::Other(text::join2("翻页任务失败：", words.as_str())),
            ),
        }
    }
}

/// How many batches may still follow when `next` is the page to ask for.
pub open spec fn batches_left(next: u32) -> nat {
    if next > MAX_PAGES {
        0
    } else if next == 1 {
        11
    } else {
        ((MAX_PAGES - next) / CONCURRENT_PAGES as int + 1) as nat
    }
}

/// Every batch takes up where the one before ended, stays within the pages allowed, and brings the
/// end nearer: no list takes more than eleven batches.
pub proof fn batches_come_to_an_end(before: PageCollector)
    requires
        before.wf(),
    ensures
        batches_left(1) == 11,
        before.wanted() matches Some((first, last)) ==> first == before.next && first <= last
            <= MAX_PAGES && batches_left((last + 1) as u32) < batches_left(before.next),
{
}

// ---------------------------------------------------------------------------
// Qualities
// ---------------------------------------------------------------------------
/// Whether a quality needs a right of its own.
pub open spec fn is_viper_spec(quality: Seq<char>) -> bool {
    quality == "viper_clear"@ || quality == "viper_atmos"@ || quality == "viper_tape"@
}

/// Whether a quality needs a right of its own.
pub fn is_viper(quality: &str) -> (r: bool)
    ensures
        r == is_viper_spec(quality@),
{
    text::same(quality, "viper_clear") || text::same(quality, "viper_atmos") || text::same(
        quality,
        "viper_tape",
    )
}

/// The qualities from the lowest to the highest.
pub open spec fn quality_ladder() -> Seq<&'static str> {
    seq!["128", "320", "flac", "high", "viper_atmos", "viper_clear", "viper_tape"]
}

/// The qualities from the lowest to the highest.
fn ladder() -> (r: [&'static str; 7])
    ensures
        r@ == quality_ladder(),
{
    let r = ["128", "320", "flac", "high", "viper_atmos", "viper_clear", "viper_tape"];
    proof {
        assert(r@ =~= quality_ladder());
    }
    r
}

/// The place of a quality among `steps`.
pub open spec fn step_of(steps: Seq<&str>, quality: Seq<char>) -> Option<int>
    decreases steps.len(),
{
    if steps.len() == 0 {
        None
    } else if steps.last()@ == quality {
        Some(steps.len() - 1)
    } else {
        step_of(steps.drop_last(), quality)
    }
}

/// The step from which a wanted quality is looked for: its own, or the lowest for a quality that is
/// not known.
pub open spec fn first_step(requested: Seq<char>) -> int {
    match step_of(quality_ladder(), requested) {
        Some(step) => step,
        None => 0,
    }
}

/// The place of a quality among the qualities.
fn find_step(quality: &str) -> (r: Option<usize>)
    ensures
        match r {
            Some(step) => step < 7 && step_of(quality_ladder(), quality@) == Some(step as int),
            None => step_of(quality_ladder(), quality@) is None,
        },
{
    let steps = ladder();
    let mut i: usize = 7;
    proof {
        assert(steps@.take(7) =~= steps@);
    }
    while i > 0
        invariant
            i <= 7,
            steps@ == quality_ladder(),
            steps@.len() == 7,
            step_of(quality_ladder(), quality@) == step_of(steps@.take(i as int), quality@),
        decreases i,
    {
        proof {
            assert(steps@.take(i as int).drop_last() =~= steps@.take(i - 1));
            assert(steps@.take(i as int).last() == steps@[i - 1]);
        }
        if text::same(steps[i - 1], quality) {
            return Some(i - 1);
        }
        i -= 1;
    }
    None
}

/// The qualities from `step` down to the lowest.
pub open spec fn descent(step: int) -> Seq<&'static str> {
    quality_ladder().take(step + 1).reverse()
}

/// The wanted quality and all below it, the best first.
pub fn fallback_chain(requested: &str) -> (r: Vec<&'static str>)
    ensures
        r@ == descent(first_step(requested@)),
{
    let steps = ladder();
    let top: usize = match find_step(requested) {
        Some(step) => step,
        None => 0,
    };
    let mut out: Vec<&'static str> = Vec::new();
    let mut i: usize = 0;
    while i <= top
        invariant
            i <= top + 1,
            top < 7,
            steps@ == quality_ladder(),
            out@.len() == i,
            forall|k: int| 0 <= k < i ==> out@[k] == quality_ladder()[top - k],
        decreases top + 1 - i,
    {
        out.push(steps[top - i]);
        i += 1;
    }
    proof {
        assert(out@ =~= descent(top as int));
    }
    out
}

// ---------------------------------------------------------------------------
// Recordings that may be played
// ---------------------------------------------------------------------------
/// A recording to ask for.
#[derive(Debug, PartialEq, Eq)]
pub struct QualityCandidate {
    pub hash: String,
    pub quality: String,
    pub album_audio_id: String,
}

#[verifier::ext_equal]
pub struct CandidateModel {
    pub hash: Seq<char>,
    pub quality: Seq<char>,
    pub album_audio_id: Seq<char>,
}

impl DeepView for QualityCandidate {
    type V = CandidateModel;

    open spec fn deep_view(&self) -> CandidateModel {
        CandidateModel {
            hash: self.hash@,
            quality: self.quality@,
            album_audio_id: self.album_audio_id@,
        }
    }
}

/// The variants of a song in the answer about rights: each entry and what is related to it.
pub open spec fn variants_of(items: Seq<Json>) -> Seq<Json>
    decreases items.len(),
{
    if items.len() == 0 {
        Seq::empty()
    } else {
        let related = match json::array_at(items.last(), "relate_goods"@) {
            Some(goods) => goods@,
            None => Seq::empty(),
        };
        variants_of(items.drop_last()).push(items.last()) + related
    }
}

/// Whether a variant may be played in the given quality: its level is not 0 and it names a recording.
pub open spec fn grants(variant: Json, quality: Seq<char>) -> bool {
    &&& !(json::at(variant, "level"@) matches Some(level) && json::exact_i64(level) == Some(0i64))
    &&& json::at(variant, "quality"@) matches Some(q) && json::exact_text(q) == Some(quality)
    &&& json::at(variant, "hash"@) matches Some(h) && json::exact_text(h) is Some
}

/// The recording that a variant names.
pub open spec fn variant_hash(variant: Json) -> Seq<char> {
    match json::at(variant, "hash"@) {
        Some(h) => model::or_blank(json::exact_text(h)),
        None => Seq::empty(),
    }
}

/// The album entry that a variant names, as text.
pub open spec fn variant_album(variant: Json) -> Seq<char> {
    let keys = seq!["album_audio_id", "audio_id"];
    match json::first_text(variant, keys) {
        Some(id) => id,
        None => match json::first_number(variant, keys) {
            Some(id) => text::signed_decimal(id as int),
            None => Seq::empty(),
        },
    }
}

/// The first variant that may be played in the given quality.
pub open spec fn first_granting(variants: Seq<Json>, quality: Seq<char>) -> Option<Json>
    decreases variants.len(),
{
    if variants.len() == 0 {
        None
    } else if grants(variants[0], quality) {
        Some(variants[0])
    } else {
        first_granting(variants.drop_first(), quality)
    }
}

/// The recordings for `qualities`, in their order; a quality that no variant grants gives none.
pub open spec fn granted(variants: Seq<Json>, qualities: Seq<&str>) -> Seq<CandidateModel>
    decreases qualities.len(),
{
    if qualities.len() == 0 {
        Seq::empty()
    } else {
        let before = granted(variants, qualities.drop_last());
        let quality = qualities.last()@;
        match first_granting(variants, quality) {
            Some(variant) => before.push(
                CandidateModel {
                    hash: variant_hash(variant),
                    quality,
                    album_audio_id: variant_album(variant),
                },
            ),
            None => before,
        }
    }
}

/// The recordings that the answer about rights offers for a wanted quality, the best first.
pub open spec fn offered(response: Json, requested: Seq<char>) -> Seq<CandidateModel> {
    match json::array_at(response, "data"@) {
        Some(items) => granted(variants_of(items@), descent(first_step(requested))),
        None => Seq::empty(),
    }
}

/// What a list of references refers to.
pub open spec fn referred(refs: Seq<&Json>) -> Seq<Json> {
    refs.map_values(|r: &Json| *r)
}

/// Collects the variants of a song.
fn collect_variants<'a>(items: &'a Vec<Json>) -> (r: Vec<&'a Json>)
    ensures
        referred(r@) == variants_of(items@),
{
    let mut out: Vec<&'a Json> = Vec::new();
    let mut i: usize = 0;
    proof {
        assert(items@.take(0) =~= Seq::<Json>::empty());
        assert(referred(out@) =~= Seq::<Json>::empty());
    }
    while i < items.len()
        invariant
            i <= items@.len(),
            referred(out@) == variants_of(items@.take(i as int)),
        decreases items@.len() - i,
    {
        proof {
            assert(items@.take(i + 1).drop_last() =~= items@.take(i as int));
            assert(items@.take(i + 1).last() == items@[i as int]);
        }
        let item = &items[i];
        let ghost before = referred(out@);
        out.push(item);
        let ghost start = before.push(*item);
        proof {
            assert(referred(out@) =~= start);
        }
        if let Some(goods) = item.get_array("relate_goods") {
            let mut k: usize = 0;
            proof {
                assert(start + goods@.take(0) =~= start);
            }
            while k < goods.len()
                invariant
                    k <= goods@.len(),
                    referred(out@) == start + goods@.take(k as int),
                decreases goods@.len() - k,
            {
                let ghost prior = referred(out@);
                out.push(&goods[k]);
                proof {
                    assert(referred(out@) =~= prior.push(goods@[k as int]));
                    assert(goods@.take(k + 1) =~= goods@.take(k as int).push(goods@[k as int]));
                    assert(referred(out@) =~= start + goods@.take(k + 1));
                }
                k += 1;
            }
            proof {
                assert(goods@.take(goods@.len() as int) =~= goods@);
            }
        } else {
            proof {
                assert(start + Seq::<Json>::empty() =~= start);
            }
        }
        i += 1;
    }
    proof {
        assert(items@.take(items@.len() as int) =~= items@);
    }
    out
}

/// The text under `key`, where there is one.
fn text_under<'a>(value: &'a Json, key: &str) -> (r: Option<&'a str>)
    ensures
        match (json::at(*value, key@), r) {
            (Some(inner), Some(s)) => json::exact_text(inner) == Some(s@),
            (Some(inner), None) => json::exact_text(inner) is None,
            (None, Some(_)) => false,
            (None, None) => true,
        },
{
    match value.get(key) {
        Some(inner) => inner.as_str(),
        None => None,
    }
}

/// Whether a variant may be played in the given quality.
fn is_granted(variant: &Json, quality: &str) -> (r: bool)
    ensures
        r == grants(*variant, quality@),
{
    if let Some(level) = variant.get("level") {
        if let Some(n) = level.as_i64() {
            if n == 0 {
                return false;
            }
        }
    }
    match text_under(variant, "quality") {
        Some(q) => text::same(q, quality) && text_under(variant, "hash").is_some(),
        None => false,
    }
}

/// The recordings that the answer about rights offers for a wanted quality, the best first.
pub fn parse_quality_candidates(response: &Json, requested: &str) -> (r: Vec<QualityCandidate>)
    ensures
        r.deep_view() == offered(*response, requested@),
{
    let mut out: Vec<QualityCandidate> = Vec::new();
    proof {
        assert(out.deep_view() =~= Seq::<CandidateModel>::empty());
    }
    let items = match response.get_array("data") {
        Some(items) => items,
        None => {
            return out;
        },
    };
    let variants = collect_variants(items);
    let chain = fallback_chain(requested);
    let ghost all = variants_of(items@);
    let mut i: usize = 0;
    proof {
        assert(chain@.take(0) =~= Seq::<&str>::empty());
    }
    while i < chain.len()
        invariant
            i <= chain@.len(),
            referred(variants@) == all,
            out.deep_view() == granted(all, chain@.take(i as int)),
        decreases chain@.len() - i,
    {
        let quality = chain[i];
        proof {
            assert(chain@.take(i + 1).drop_last() =~= chain@.take(i as int));
            assert(chain@.take(i + 1).last() == quality);
            assert(all.skip(0) =~= all);
        }
        let mut k: usize = 0;
        let mut found: Option<&Json> = None;
        while k < variants.len() && found.is_none()
            invariant
                k <= variants@.len(),
                referred(variants@) == all,
                match found {
                    Some(variant) => first_granting(all, quality@) == Some(*variant),
                    None => first_granting(all, quality@) == first_granting(
                        all.skip(k as int),
                        quality@,
                    ),
                },
            decreases variants@.len() - k,
        {
            let variant = variants[k];
            proof {
                assert(all[k as int] == *variant);
                assert(all.skip(k as int)[0] == *variant);
                assert(all.skip(k as int).drop_first() =~= all.skip(k + 1));
            }
            if is_granted(variant, quality) {
                found = Some(variant);
            }
            k += 1;
        }
        if let Some(variant) = found {
            proof {
                lemma_first_granting(all, quality@);
            }
            let hash = match text_under(variant, "hash") {
                Some(hash) => hash.to_owned(),
                None => String::new(),
            };
            let keys = ["album_audio_id", "audio_id"];
            proof {
                assert(keys@ =~= seq!["album_audio_id", "audio_id"]);
            }
            let album_audio_id = match json::pick_string(variant, &keys) {
                Some(id) => id,
                None => match json::pick_i64(variant, &keys) {
                    Some(id) => text::write_i64(id),
                    None => String::new(),
                },
            };
            let candidate = QualityCandidate { hash, quality: quality.to_owned(), album_audio_id };
            let ghost before = out.deep_view();
            out.push(candidate);
            proof {
                assert(out.deep_view() =~= before.push(candidate.deep_view()));
            }
        }
        i += 1;
    }
    proof {
        assert(chain@.take(chain@.len() as int) =~= chain@);
    }
    out
}

/// What is found grants what is looked for.
proof fn lemma_first_granting(variants: Seq<Json>, quality: Seq<char>)
    ensures
        first_granting(variants, quality) matches Some(variant) ==> grants(variant, quality)
            && variants.contains(variant),
    decreases variants.len(),
{
    if variants.len() > 0 && !grants(variants[0], quality) {
        lemma_first_granting(variants.drop_first(), quality);
        if let Some(variant) = first_granting(variants.drop_first(), quality) {
            let i = choose|i: int|
                0 <= i < variants.drop_first().len() && variants.drop_first()[i] == variant;
            assert(variants[i + 1] == variant);
        }
    } else if variants.len() > 0 {
        assert(variants[0] == variants[0]);
    }
}

/// Every recording of a song that is known without asking, in the given quality: its own, then the
/// others.
pub open spec fn known_recordings(
    song: SongModel,
    quality: Seq<char>,
    extra: Seq<(Seq<char>, Seq<char>)>,
) -> Seq<CandidateModel>
    decreases extra.len(),
{
    let album_audio_id = text::signed_decimal(song.album_audio_id as int);
    if extra.len() == 0 {
        seq![CandidateModel { hash: song.hash, quality, album_audio_id }]
    } else {
        let before = known_recordings(song, quality, extra.drop_last());
        let hash = extra.last().1;
        if hash == song.hash {
            before
        } else {
            before.push(CandidateModel { hash, quality, album_audio_id })
        }
    }
}

/// Every recording of a song that is known without asking, in the given quality.
pub fn fallback_candidates(song: &Song, quality: &str) -> (r: Vec<QualityCandidate>)
    ensures
        r.deep_view() == known_recordings(
            song.deep_view(),
            quality@,
            song.deep_view().extra_hashes,
        ),
{
    let album_audio_id = text::write_i64(song.album_audio_id);
    let own = QualityCandidate {
        hash: song.hash.clone(),
        quality: quality.to_owned(),
        album_audio_id: album_audio_id.clone(),
    };
    let mut out: Vec<QualityCandidate> = Vec::new();
    out.push(own);
    let ghost extra = song.deep_view().extra_hashes;
    let ghost view = song.deep_view();
    proof {
        assert(extra.take(0) =~= Seq::<(Seq<char>, Seq<char>)>::empty());
        assert(out.deep_view() =~= known_recordings(view, quality@, extra.take(0)));
    }
    let mut i: usize = 0;
    while i < song.extra_hashes.len()
        invariant
            i <= song.extra_hashes@.len(),
            view == song.deep_view(),
            extra == song.extra_hashes.deep_view(),
            album_audio_id@ == text::signed_decimal(song.album_audio_id as int),
            out.deep_view() == known_recordings(view, quality@, extra.take(i as int)),
        decreases song.extra_hashes@.len() - i,
    {
        proof {
            assert(extra.take(i + 1).drop_last() =~= extra.take(i as int));
            assert(extra.take(i + 1).last().1 == song.extra_hashes@[i as int].1@);
        }
        let hash = &song.extra_hashes[i].1;
        if !text::same(hash.as_str(), song.hash.as_str()) {
            let candidate = QualityCandidate {
                hash: hash.clone(),
                quality: quality.to_owned(),
                album_audio_id: album_audio_id.clone(),
            };
            let ghost before = out.deep_view();
            out.push(candidate);
            proof {
                assert(out.deep_view() =~= before.push(candidate.deep_view()));
            }
        }
        i += 1;
    }
    proof {
        assert(extra.take(extra.len() as int) =~= extra);
    }
    out
}

/// The different recordings of a song, its own first.
pub open spec fn different_hashes(own: Seq<char>, extra: Seq<(Seq<char>, Seq<char>)>) -> Seq<
    Seq<char>,
>
    decreases extra.len(),
{
    if extra.len() == 0 {
        seq![own]
    } else {
        let before = different_hashes(own, extra.drop_last());
        if before.contains(extra.last().1) {
            before
        } else {
            before.push(extra.last().1)
        }
    }
}

/// Whether `text` is among `texts`.
pub(crate) fn is_among(texts: &Vec<String>, text: &str) -> (r: bool)
    ensures
        r == text::views(texts@).contains(text@),
{
    let mut i: usize = 0;
    while i < texts.len()
        invariant
            i <= texts@.len(),
            forall|k: int| 0 <= k < i ==> (#[trigger] text::views(texts@)[k]) != text@,
        decreases texts@.len() - i,
    {
        if text::same(texts[i].as_str(), text) {
            proof {
                assert(text::views(texts@)[i as int] == text@);
            }
            return true;
        }
        i += 1;
    }
    false
}

/// The request that asks which recordings of a song the account may play.
pub fn request_privilege_lite(song: &Song) -> (r: Request)
    ensures
        r.deep_view() == rights_request(song.deep_view()),
{
    let ghost extra = song.deep_view().extra_hashes;
    let mut hashes: Vec<String> = Vec::new();
    hashes.push(song.hash.clone());
    proof {
        assert(extra.take(0) =~= Seq::<(Seq<char>, Seq<char>)>::empty());
        assert(text::views(hashes@) =~= different_hashes(song.hash@, extra.take(0)));
    }
    let mut i: usize = 0;
    while i < song.extra_hashes.len()
        invariant
            i <= song.extra_hashes@.len(),
            extra == song.extra_hashes.deep_view(),
            text::views(hashes@) == different_hashes(song.hash@, extra.take(i as int)),
        decreases song.extra_hashes@.len() - i,
    {
        proof {
            assert(extra.take(i + 1).drop_last() =~= extra.take(i as int));
            assert(extra.take(i + 1).last().1 == song.extra_hashes@[i as int].1@);
        }
        let hash = &song.extra_hashes[i].1;
        if !is_among(&hashes, hash.as_str()) {
            let ghost before = text::views(hashes@);
            hashes.push(hash.clone());
            proof {
                assert(text::views(hashes@) =~= before.push(hash@));
            }
        }
        i += 1;
    }
    proof {
        assert(extra.take(extra.len() as int) =~= extra);
    }
    let r = Request::new("/privilege/lite", Mode::Fresh).with(
        "hash",
        text::join(hashes.as_slice(), ","),
    );
    proof {
        assert(r.deep_view().query =~= seq![
            ("hash"@, text::joined(different_hashes(song.hash@, extra), ","@)),
        ]);
    }
    r
}

/// The recordings to ask for before any quality is exchanged: those the service offers, or all that
/// are known where it offers none or gave no answer.
pub open spec fn plain_candidates(
    song: SongModel,
    quality: Seq<char>,
    response: Option<Json>,
) -> Seq<CandidateModel> {
    match response {
        Some(root) if offered(root, quality).len() > 0 => offered(root, quality),
        _ => known_recordings(song, quality, song.extra_hashes),
    }
}

/// The first quality among `candidates` that needs no right of its own; 128 where there is none.
pub open spec fn plain_quality(candidates: Seq<CandidateModel>) -> Seq<char>
    decreases candidates.len(),
{
    if candidates.len() == 0 {
        "128"@
    } else if !is_viper_spec(candidates[0].quality) {
        candidates[0].quality
    } else {
        plain_quality(candidates.drop_first())
    }
}

/// The recordings to ask for, in turn. Where the wanted quality needs a right of its own, the song's
/// own recording in the best other quality comes last.
pub open spec fn stream_candidates(
    song: SongModel,
    quality: Seq<char>,
    response: Option<Json>,
) -> Seq<CandidateModel> {
    let plain = plain_candidates(song, quality, response);
    if is_viper_spec(quality) {
        plain.push(
            CandidateModel {
                hash: song.hash,
                quality: plain_quality(plain),
                album_audio_id: text::signed_decimal(song.album_audio_id as int),
            },
        )
    } else {
        plain
    }
}

/// The first quality among `candidates` that needs no right of its own; 128 where there is none.
fn find_plain_quality(candidates: &Vec<QualityCandidate>) -> (r: String)
    ensures
        r@ == plain_quality(candidates.deep_view()),
{
    let ghost all = candidates.deep_view();
    proof {
        assert(all.skip(0) =~= all);
    }
    let mut i: usize = 0;
    while i < candidates.len()
        invariant
            i <= candidates@.len(),
            all == candidates.deep_view(),
            plain_quality(all) == plain_quality(all.skip(i as int)),
        decreases candidates@.len() - i,
    {
        proof {
            assert(all.skip(i as int)[0] == candidates@[i as int].deep_view());
            assert(all.skip(i as int).drop_first() =~= all.skip(i + 1));
        }
        if !is_viper(candidates[i].quality.as_str()) {
            return candidates[i].quality.clone();
        }
        i += 1;
    }
    "128".to_owned()
}

/// The recordings to ask for, in turn, given the answer about rights, if there was one.
pub fn privilege_candidates(song: &Song, quality: &str, response: &Option<Json>) -> (r: Vec<
    QualityCandidate,
>)
    ensures
        r.deep_view() == stream_candidates(song.deep_view(), quality@, *response),
{
    let offers = match response {
        Some(root) => parse_quality_candidates(root, quality),
        None => Vec::new(),
    };
    let mut candidates = if offers.len() > 0 {
        offers
    } else {
        fallback_candidates(song, quality)
    };
    if is_viper(quality) {
        let last = QualityCandidate {
            hash: song.hash.clone(),
            quality: find_plain_quality(&candidates),
            album_audio_id: text::write_i64(song.album_audio_id),
        };
        let ghost before = candidates.deep_view();
        candidates.push(last);
        proof {
            assert(candidates.deep_view() =~= before.push(last.deep_view()));
        }
    }
    candidates
}

/// There is always a recording to ask for.
pub proof fn there_is_a_candidate(song: SongModel, quality: Seq<char>, response: Option<Json>)
    ensures
        stream_candidates(song, quality, response).len() > 0,
{
    lemma_known_recordings(song, quality, song.extra_hashes);
}

/// The song's own recording is the first of the known ones.
proof fn lemma_known_recordings(
    song: SongModel,
    quality: Seq<char>,
    extra: Seq<(Seq<char>, Seq<char>)>,
)
    ensures
        known_recordings(song, quality, extra).len() > 0,
        known_recordings(song, quality, extra)[0].hash == song.hash,
    decreases extra.len(),
{
    if extra.len() > 0 {
        lemma_known_recordings(song, quality, extra.drop_last());
    }
}

/// The request for the address of a recording; `free_part` asks for the trial part only.
pub open spec fn address_request(
    song: SongModel,
    candidate: CandidateModel,
    free_part: bool,
) -> RequestModel {
    let query = seq![
        ("hash"@, candidate.hash),
        ("album_id"@, song.album_id),
        ("album_audio_id"@, candidate.album_audio_id),
        ("quality"@, candidate.quality),
    ];
    RequestModel {
        path: "/song/url"@,
        query: if free_part {
            query.push(("free_part"@, "true"@))
        } else {
            query
        },
        mode: Mode::Fresh,
    }
}

/// The request for the address of a recording; `free_part` asks for the trial part only.
pub fn request_song_url_with_hash(song: &Song, candidate: &QualityCandidate, free_part: bool) -> (r:
    Request)
    ensures
        r.deep_view() == address_request(song.deep_view(), candidate.deep_view(), free_part),
        r.deep_view().says("hash"@, candidate.hash@),
        r.deep_view().says("quality"@, candidate.quality@),
{
    proof {
        addresses_are_asked_for_by_recording(
            song.deep_view(),
            candidate.deep_view(),
            free_part,
            song.deep_view(),
            candidate.deep_view(),
        );
    }
    let plain = Request::new("/song/url", Mode::Fresh).with("hash", candidate.hash.clone()).with(
        "album_id",
        song.album_id.clone(),
    ).with("album_audio_id", candidate.album_audio_id.clone()).with(
        "quality",
        candidate.quality.clone(),
    );
    proof {
        assert(plain.deep_view().query =~= address_request(
            song.deep_view(),
            candidate.deep_view(),
            false,
        ).query);
    }
    if free_part {
        plain.with("free_part", "true".to_owned())
    } else {
        plain
    }
}

// ---------------------------------------------------------------------------
// Addresses in answers
// ---------------------------------------------------------------------------
/// Whether a text is an address that can be played.
pub open spec fn http_address(s: Seq<char>) -> bool {
    text::begins(text::trimmed(s), "http://"@) || text::begins(text::trimmed(s), "https://"@)
}

/// Whether a text is an address that can be played.
pub fn is_http_url(text: &str) -> (r: bool)
    ensures
        r == http_address(text@),
{
    let trimmed = text::trim_text(text);
    text::starts_with(trimmed.as_str(), "http://") || text::starts_with(
        trimmed.as_str(),
        "https://",
    )
}

/// The first address among `items`.
pub open spec fn first_address(items: Seq<Json>) -> Option<Seq<char>>
    decreases items.len(),
{
    if items.len() == 0 {
        None
    } else {
        match items[0] {
            Json::Text(s) if http_address(s@) => Some(text::trimmed(s@)),
            _ => first_address(items.drop_first()),
        }
    }
}

/// The address that a value holds: a text, or the first in an array.
pub open spec fn address_in(value: Json) -> Option<Seq<char>> {
    match value {
        Json::Text(s) => if http_address(s@) {
            Some(text::trimmed(s@))
        } else {
            None
        },
        Json::Array(items) => first_address(items@),
        _ => None,
    }
}

/// The address under the first of `keys` that holds one.
pub open spec fn address_under(value: Json, keys: Seq<&str>) -> Option<Seq<char>>
    decreases keys.len(),
{
    if keys.len() == 0 {
        None
    } else {
        match json::at(value, keys[0]@) {
            Some(inner) if address_in(inner) is Some => address_in(inner),
            _ => address_under(value, keys.drop_first()),
        }
    }
}

/// The keys under which an address stands.
pub open spec fn address_keys() -> Seq<&'static str> {
    seq!["url", "play_url", "backup_url", "backupUrl"]
}

/// The first address under the usual keys in the items.
pub open spec fn address_of_items(items: Seq<Json>) -> Option<Seq<char>>
    decreases items.len(),
{
    if items.len() == 0 {
        None
    } else {
        model::either(
            address_under(items[0], address_keys()),
            address_of_items(items.drop_first()),
        )
    }
}

/// The address in an answer: in the items of `data`, in `data`, or at the top. A status other than 1
/// means that there is none.
pub open spec fn stream_address(root: Json) -> Option<Seq<char>> {
    let refused = json::at(root, "status"@) matches Some(status) && json::exact_i64(status) is Some
        && json::exact_i64(status) != Some(1i64);
    if refused {
        None
    } else {
        model::either(
            match json::array_at(root, "data"@) {
                Some(items) => address_of_items(items@),
                None => None,
            },
            model::either(
                match json::at(root, "data"@) {
                    Some(data) => address_under(data, address_keys()),
                    None => None,
                },
                address_under(root, address_keys()),
            ),
        )
    }
}

/// The first address among `items`.
fn find_address(items: &Vec<Json>) -> (r: Option<String>)
    ensures
        r.deep_view() == first_address(items@),
{
    let mut i: usize = 0;
    proof {
        assert(items@.skip(0) =~= items@);
    }
    while i < items.len()
        invariant
            i <= items@.len(),
            first_address(items@) == first_address(items@.skip(i as int)),
        decreases items@.len() - i,
    {
        proof {
            assert(items@.skip(i as int)[0] == items@[i as int]);
            assert(items@.skip(i as int).drop_first() =~= items@.skip(i + 1));
        }
        if let Json::Text(s) = &items[i] {
            if is_http_url(s.as_str()) {
                return Some(text::trim_text(s.as_str()));
            }
        }
        i += 1;
    }
    None
}

/// The address under the first of `keys` that holds one.
pub fn pick_url(value: &Json, keys: &[&str]) -> (r: Option<String>)
    ensures
        r.deep_view() == address_under(*value, keys@),
{
    let mut i: usize = 0;
    proof {
        assert(keys@.skip(0) =~= keys@);
    }
    while i < keys.len()
        invariant
            i <= keys@.len(),
            address_under(*value, keys@) == address_under(*value, keys@.skip(i as int)),
        decreases keys@.len() - i,
    {
        proof {
            assert(keys@.skip(i as int)[0] == keys@[i as int]);
            assert(keys@.skip(i as int).drop_first() =~= keys@.skip(i + 1));
        }
        match value.get(keys[i]) {
            Some(Json::Text(s)) => {
                if is_http_url(s.as_str()) {
                    return Some(text::trim_text(s.as_str()));
                }
            },
            Some(Json::Array(items)) => {
                let found = find_address(items);
                if found.is_some() {
                    return found;
                }
            },
            _ => {},
        }
        i += 1;
    }
    None
}

/// Reads the address in an answer.
pub fn extract_stream_url(root: &Json) -> (r: Option<String>)
    ensures
        r.deep_view() == stream_address(*root),
{
    if let Some(status) = root.get("status") {
        if let Some(n) = status.as_i64() {
            if n != 1 {
                return None;
            }
        }
    }
    let keys = ["url", "play_url", "backup_url", "backupUrl"];
    proof {
        assert(keys@ =~= address_keys());
    }
    if let Some(items) = root.get_array("data") {
        let mut i: usize = 0;
        proof {
            assert(items@.skip(0) =~= items@);
        }
        while i < items.len()
            invariant
                i <= items@.len(),
                keys@ == address_keys(),
                json::array_at(*root, "data"@) == Some(*items),
                !(json::at(*root, "status"@) matches Some(status) && json::exact_i64(status) is Some
                    && json::exact_i64(status) != Some(1i64)),
                address_of_items(items@) == address_of_items(items@.skip(i as int)),
            decreases items@.len() - i,
        {
            proof {
                assert(items@.skip(i as int)[0] == items@[i as int]);
                assert(items@.skip(i as int).drop_first() =~= items@.skip(i + 1));
            }
            let found = pick_url(&items[i], &keys);
            if found.is_some() {
                return found;
            }
            i += 1;
        }
    }
    if let Some(data) = root.get("data") {
        let found = pick_url(data, &keys);
        if found.is_some() {
            return found;
        }
    }
    pick_url(root, &keys)
}

// ---------------------------------------------------------------------------
// Reasons
// ---------------------------------------------------------------------------
/// The texts among `items`.
pub open spec fn texts_in(items: Seq<Json>) -> Seq<Seq<char>>
    decreases items.len(),
{
    if items.len() == 0 {
        Seq::empty()
    } else {
        match json::exact_text(items.last()) {
            Some(words) => texts_in(items.drop_last()).push(words),
            None => texts_in(items.drop_last()),
        }
    }
}

/// Collects the texts among `items`.
fn collect_texts(items: &Vec<Json>) -> (r: Vec<String>)
    ensures
        text::views(r@) == texts_in(items@),
{
    let mut out: Vec<String> = Vec::new();
    let mut i: usize = 0;
    proof {
        assert(items@.take(0) =~= Seq::<Json>::empty());
        assert(text::views(out@) =~= Seq::<Seq<char>>::empty());
    }
    while i < items.len()
        invariant
            i <= items@.len(),
            text::views(out@) == texts_in(items@.take(i as int)),
        decreases items@.len() - i,
    {
        proof {
            assert(items@.take(i + 1).drop_last() =~= items@.take(i as int));
            assert(items@.take(i + 1).last() == items@[i as int]);
        }
        if let Some(words) = items[i].as_str() {
            let ghost before = text::views(out@);
            out.push(words.to_owned());
            proof {
                assert(text::views(out@) =~= before.push(words@));
            }
        }
        i += 1;
    }
    proof {
        assert(items@.take(items@.len() as int) =~= items@);
    }
    out
}

/// The steps at which the service stopped.
pub open spec fn fail_steps(root: Json) -> Option<Seq<Json>> {
    match json::array_at(json::payload(root), "fail_process"@) {
        Some(items) => Some(items@),
        None => None,
    }
}

/// Why the whole song was not given, in words.
pub open spec fn fail_words(root: Json) -> Option<Seq<char>> {
    match fail_steps(root) {
        Some(items) => {
            let steps = texts_in(items);
            let all = text::joined(steps, "/"@);
            if steps.len() == 0 {
                None
            } else if all == "pkg"@ {
                Some("需要开通会员"@)
            } else if all == "pkg/buy"@ {
                Some("需要开通会员或单独购买该专辑"@)
            } else {
                Some("服务端返回 "@ + all)
            }
        },
        None => None,
    }
}

/// Reads why the whole song was not given.
pub fn fail_reason(root: &Json) -> (r: Option<String>)
    ensures
        r.deep_view() == fail_words(*root),
{
    let data = json::data_of(root);
    match data.get_array("fail_process") {
        Some(items) => {
            let steps = collect_texts(items);
            proof {
                assert(text::views(steps@).len() == steps@.len());
            }
            if steps.len() == 0 {
                return None;
            }
            let all = text::join(steps.as_slice(), "/");
            if text::same(all.as_str(), "pkg") {
                Some("需要开通会员".to_owned())
            } else if text::same(all.as_str(), "pkg/buy") {
                Some("需要开通会员或单独购买该专辑".to_owned())
            } else {
                Some(text::join2("服务端返回 ", all.as_str()))
            }
        },
        None => None,
    }
}

/// What a status means, in words; 0 means nothing.
pub open spec fn status_words(status: i64) -> Option<Seq<char>> {
    if status == 0 {
        None
    } else if status == 2 {
        Some("需要登录或重新登录后再试"@)
    } else if status == 3 {
        Some("该歌曲暂无版权（可能已下架或地区受限）"@)
    } else {
        Some("服务端返回 "@ + text::signed_decimal(status as int))
    }
}

/// What a status means, in words; 0 means nothing.
pub fn status_reason(status: i64) -> (r: Option<String>)
    ensures
        r.deep_view() == status_words(status),
{
    if status == 0 {
        None
    } else if status == 2 {
        Some("需要登录或重新登录后再试".to_owned())
    } else if status == 3 {
        Some("该歌曲暂无版权（可能已下架或地区受限）".to_owned())
    } else {
        Some(text::join2("服务端返回 ", text::write_i64(status).as_str()))
    }
}

/// The error that an answer without an address explains, if it explains one.
pub open spec fn explained(song_name: Seq<char>, root: Json) -> Option<ErrorModel> {
    let data = json::payload(root);
    match json::first_text(data, seq!["error", "error_msg", "msg", "errmsg"]) {
        Some(message) => {
            let status = model::or_zero(json::first_number(data, seq!["status"]));
            Some(
                ErrorModel::Api {
                    path: "/song/url"@,
                    code: match json::first_number(data, seq!["errcode", "error_code"]) {
                        Some(code) => code,
                        None => status,
                    },
                    message: match status_words(status) {
                        Some(words) => words,
                        None => message,
                    },
                },
            )
        },
        None => match fail_steps(root) {
            Some(items) if items.len() > 0 => Some(
                ErrorModel::NotFound(
                    "《"@ + song_name + "》需要开通或购买（"@ + text::joined(texts_in(items), "/"@)
                        + "）"@,
                ),
            ),
            _ => None,
        },
    }
}

/// Reads the error that an answer without an address explains.
fn explain(song_name: &str, root: &Json) -> (r: Option<AppError>)
    ensures
        match r {
            Some(error) => explained(song_name@, *root) == Some(error.deep_view()),
            None => explained(song_name@, *root) is None,
        },
{
    let data = json::data_of(root);
    let message_keys = ["error", "error_msg", "msg", "errmsg"];
    let status_keys = ["status"];
    let code_keys = ["errcode", "error_code"];
    proof {
        assert(message_keys@ =~= seq!["error", "error_msg", "msg", "errmsg"]);
        assert(status_keys@ =~= seq!["status"]);
        assert(code_keys@ =~= seq!["errcode", "error_code"]);
    }
    if let Some(message) = json::pick_string(data, &message_keys) {
        let status: i64 = match json::pick_i64(data, &status_keys) {
            Some(status) => status,
            None => 0,
        };
        let code: i64 = match json::pick_i64(data, &code_keys) {
            Some(code) => code,
            None => status,
        };
        let words = match status_reason(status) {
            Some(words) => words,
            None => message,
        };
        return Some(AppError::Api { path: "/song/url".to_owned(), code, message: words });
    }
    match data.get_array("fail_process") {
        Some(items) => if items.len() > 0 {
            let steps = collect_texts(items);
            let mut words = text::join3("《", song_name, "》需要开通或购买（");
            words.append(text::join(steps.as_slice(), "/").as_str());
            words.append("）");
            Some(AppError::NotFound(words))
        } else {
            None
        },
        None => None,
    }
}

// ---------------------------------------------------------------------------
// Finding the address of a song
// ---------------------------------------------------------------------------
/// The address of a song.
#[derive(Debug)]
pub struct StreamUrl {
    pub url: String,
    /// Only a part of the song stands there.
    pub is_trial: bool,
    /// Why it is not what was wanted.
    pub reason: Option<String>,
}

#[verifier::ext_equal]
pub struct StreamModel {
    pub url: Seq<char>,
    pub is_trial: bool,
    pub reason: Option<Seq<char>>,
}

impl DeepView for StreamUrl {
    type V = StreamModel;

    open spec fn deep_view(&self) -> StreamModel {
        StreamModel { url: self.url@, is_trial: self.is_trial, reason: self.reason.deep_view() }
    }
}

/// What the search for an address is waiting for.
#[derive(Debug, Clone, Copy, PartialEq, Eq, Structural)]
pub enum Stage {
    /// The answer about rights.
    Rights,
    /// The answer about one of the recordings.
    Whole,
    /// The answer about the trial part.
    Trial,
    /// Nothing: the search is over.
    Over,
}

/// What to do next in the search for an address.
pub enum StreamStep {
    /// Send this request and hand its answer in.
    Ask(Request),
    Found(StreamUrl),
    Failed(AppError),
}

#[verifier::ext_equal]
pub enum StepModel {
    Ask(RequestModel),
    Found(StreamModel),
    Failed(ErrorModel),
}

impl DeepView for StreamStep {
    type V = StepModel;

    open spec fn deep_view(&self) -> StepModel {
        match self {
            StreamStep::Ask(request) => StepModel::Ask(request.deep_view()),
            StreamStep::Found(stream) => StepModel::Found(stream.deep_view()),
            StreamStep::Failed(error) => StepModel::Failed(error.deep_view()),
        }
    }
}

/// The search for the address of a song: which recordings there are to ask for, which of them has
/// been asked for last, and what the service answered to it.
pub struct StreamSearch {
    song: Song,
    quality: String,
    stage: Stage,
    candidates: Vec<QualityCandidate>,
    asked: usize,
    last_full: Option<Json>,
}

#[verifier::ext_equal]
pub struct SearchModel {
    pub song: SongModel,
    pub quality: Seq<char>,
    pub stage: Stage,
    pub candidates: Seq<CandidateModel>,
    pub asked: int,
    pub last_full: Option<Json>,
}

/// The search for the address of a song before anything was answered.
pub open spec fn search_start(song: SongModel, quality: Seq<char>) -> SearchModel {
    SearchModel {
        song,
        quality,
        stage: Stage::Rights,
        candidates: Seq::empty(),
        asked: 0,
        last_full: None,
    }
}

/// The request that asks which recordings of a song there are.
pub open spec fn rights_request(song: SongModel) -> RequestModel {
    RequestModel {
        path: "/privilege/lite"@,
        query: seq![
            ("hash"@, text::joined(different_hashes(song.hash, song.extra_hashes), ","@)),
        ],
        mode: Mode::Fresh,
    }
}

/// The recording whose trial part is asked for.
pub open spec fn trial_candidate(song: SongModel, quality: Seq<char>) -> CandidateModel {
    CandidateModel {
        hash: song.hash,
        quality,
        album_audio_id: text::signed_decimal(song.album_audio_id as int),
    }
}

/// Why an address was found in another quality than the wanted one.
pub open spec fn downgrade(quality: Seq<char>, found: Seq<char>) -> Option<Seq<char>> {
    if found != quality && is_viper_spec(quality) {
        Some(quality + " 不可用（需要蝰蛇 VIP），已降级到标准 "@ + found)
    } else {
        None
    }
}

/// The error of a search that found nothing: what the last answer about a recording explains, else
/// what the answer about the trial part explains, else that there is no address.
pub open spec fn nothing_found(name: Seq<char>, last_full: Option<Json>, trial: Json) -> ErrorModel {
    let first = match last_full {
        Some(root) => explained(name, root),
        None => None,
    };
    match model::either(first, explained(name, trial)) {
        Some(error) => error,
        None => ErrorModel::NotFound(
            "《"@ + name + "》没有可用的播放地址（可能需要 VIP、已下架或版权受限）"@,
        ),
    }
}

/// One step of the search: the state and the reply to the last request give the next state and what
/// to do.
pub open spec fn search_step(before: SearchModel, reply: Result<Json, ErrorModel>) -> (
    SearchModel,
    StepModel,
) {
    match before.stage {
        Stage::Rights => {
            let response = match reply {
                Ok(root) => Some(root),
                Err(_) => None,
            };
            let candidates = stream_candidates(before.song, before.quality, response);
            (
                SearchModel { stage: Stage::Whole, candidates, asked: 0, ..before },
                StepModel::Ask(address_request(before.song, candidates[0], false)),
            )
        },
        Stage::Whole => match reply {
            Err(error) => (
                SearchModel { stage: Stage::Over, ..before },
                StepModel::Failed(error),
            ),
            Ok(root) => match stream_address(root) {
                Some(url) => (
                    SearchModel { stage: Stage::Over, ..before },
                    StepModel::Found(
                        StreamModel {
                            url,
                            is_trial: false,
                            reason: downgrade(
                                before.quality,
                                before.candidates[before.asked].quality,
                            ),
                        },
                    ),
                ),
                None => if before.asked + 1 < before.candidates.len() {
                    (
                        SearchModel {
                            asked: before.asked + 1,
                            last_full: Some(root),
                            ..before
                        },
                        StepModel::Ask(
                            address_request(
                                before.song,
                                before.candidates[before.asked + 1],
                                false,
                            ),
                        ),
                    )
                } else {
                    (
                        SearchModel { stage: Stage::Trial, last_full: Some(root), ..before },
                        StepModel::Ask(
                            address_request(
                                before.song,
                                trial_candidate(before.song, before.quality),
                                true,
                            ),
                        ),
                    )
                },
            },
        },
        Stage::Trial => (
            SearchModel { stage: Stage::Over, ..before },
            match reply {
                Err(error) => StepModel::Failed(error),
                Ok(root) => match stream_address(root) {
                    Some(url) => StepModel::Found(
                        StreamModel {
                            url,
                            is_trial: true,
                            reason: match before.last_full {
                                Some(full) => fail_words(full),
                                None => None,
                            },
                        },
                    ),
                    None => StepModel::Failed(
                        nothing_found(before.song.name, before.last_full, root),
                    ),
                },
            },
        ),
        Stage::Over => arbitrary(),
    }
}

/// A reply with texts as character sequences.
pub open spec fn reply_model(reply: Result<Json, AppError>) -> Result<Json, ErrorModel> {
    match reply {
        Ok(root) => Ok(root),
        Err(error) => Err(error.deep_view()),
    }
}

impl StreamSearch {
    /// The state of the search.
    pub closed spec fn state(&self) -> SearchModel {
        SearchModel {
            song: self.song.deep_view(),
            quality: self.quality@,
            stage: self.stage,
            candidates: self.candidates.deep_view(),
            asked: self.asked as int,
            last_full: self.last_full,
        }
    }

    /// While a recording is asked for, it is one of the candidates.
    pub open spec fn wf(&self) -> bool {
        self.state().stage == Stage::Whole ==> 0 <= self.state().asked
            < self.state().candidates.len()
    }

    /// Begins the search for the address of `song` in the given quality, and the first request to
    /// send.
    pub fn song_stream_url(song: &Song, quality: &str) -> (r: (StreamSearch, Request))
        ensures
            r.0.wf(),
            r.0.state() == search_start(song.deep_view(), quality@),
            r.1.deep_view() == rights_request(song.deep_view()),
    {
        let request = request_privilege_lite(song);
        let search = StreamSearch {
            song: song.clone(),
            quality: quality.to_owned(),
            stage: Stage::Rights,
            candidates: Vec::new(),
            asked: 0,
            last_full: None,
        };
        proof {
            assert(search.candidates.deep_view() =~= Seq::<CandidateModel>::empty());
        }
        (search, request)
    }

    /// Takes in the reply to the last request and says what to do next.
    pub fn answer(&mut self, reply: Result<Json, AppError>) -> (r: StreamStep)
        requires
            old(self).wf(),
            old(self).state().stage != Stage::Over,
        ensures
            final(self).wf(),
            (final(self).state(), r.deep_view()) == search_step(
                old(self).state(),
                reply_model(reply),
            ),
    {
        match self.stage {
            Stage::Rights => {
                let response = match reply {
                    Ok(root) => Some(root),
                    Err(_) => None,
                };
                self.candidates = privilege_candidates(&self.song, self.quality.as_str(), &response);
                proof {
                    there_is_a_candidate(self.song.deep_view(), self.quality@, response);
                }
                self.asked = 0;
                self.stage = Stage::Whole;
                StreamStep::Ask(
                    request_song_url_with_hash(&self.song, &self.candidates[0], false),
                )
            },
            Stage::Whole => self.answer_whole(reply),
            Stage::Trial => self.answer_trial(reply),
            Stage::Over => StreamStep::Failed(AppError::Other(String::new())),
        }
    }

    /// Takes in the reply about a recording.
    fn answer_whole(&mut self, reply: Result<Json, AppError>) -> (r: StreamStep)
        requires
            old(self).wf(),
            old(self).state().stage == Stage::Whole,
        ensures
            final(self).wf(),
            (final(self).state(), r.deep_view()) == search_step(
                old(self).state(),
                reply_model(reply),
            ),
    {
        let root = match reply {
            Ok(root) => root,
            Err(error) => {
                self.stage = Stage::Over;
                return StreamStep::Failed(error);
            },
        };
        if let Some(url) = extract_stream_url(&root) {
            let found = self.candidates[self.asked].quality.as_str();
            let reason = if !text::same(found, self.quality.as_str()) && is_viper(
                self.quality.as_str(),
            ) {
                Some(
                    text::join3(
                        self.quality.as_str(),
                        " 不可用（需要蝰蛇 VIP），已降级到标准 ",
                        found,
                    ),
                )
            } else {
                None
            };
            self.stage = Stage::Over;
            return StreamStep::Found(StreamUrl { url, is_trial: false, reason });
        }
        self.last_full = Some(root);
        let count: usize = self.candidates.len();
        if self.asked < count - 1 {
            self.asked = self.asked + 1;
            return StreamStep::Ask(
                request_song_url_with_hash(&self.song, &self.candidates[self.asked], false),
            );
        }
        self.stage = Stage::Trial;
        let trial = QualityCandidate {
            hash: self.song.hash.clone(),
            quality: self.quality.clone(),
            album_audio_id: text::write_i64(self.song.album_audio_id),
        };
        StreamStep::Ask(request_song_url_with_hash(&self.song, &trial, true))
    }

    /// Takes in the reply about the trial part.
    fn answer_trial(&mut self, reply: Result<Json, AppError>) -> (r: StreamStep)
        requires
            old(self).state().stage == Stage::Trial,
        ensures
            final(self).wf(),
            (final(self).state(), r.deep_view()) == search_step(
                old(self).state(),
                reply_model(reply),
            ),
    {
        self.stage = Stage::Over;
        let root = match reply {
            Ok(root) => root,
            Err(error) => {
                return StreamStep::Failed(error);
            },
        };
        if let Some(url) = extract_stream_url(&root) {
            let reason = match &self.last_full {
                Some(full) => fail_reason(full),
                None => None,
            };
            return StreamStep::Found(StreamUrl { url, is_trial: true, reason });
        }
        if let Some(full) = &self.last_full {
            if let Some(error) = explain(self.song.name.as_str(), full) {
                return StreamStep::Failed(error);
            }
        }
        if let Some(error) = explain(self.song.name.as_str(), &root) {
            return StreamStep::Failed(error);
        }
        StreamStep::Failed(
            AppError::NotFound(
                text::join3(
                    "《",
                    self.song.name.as_str(),
                    "》没有可用的播放地址（可能需要 VIP、已下架或版权受限）",
                ),
            ),
        )
    }
}

/// What the search comes to when the service answers the requests for the recordings with `replies`
/// and the one for the trial part with `trial`: the first recording that has an address, else the
/// trial part, else an error.
pub open spec fn search_outcome(
    song: SongModel,
    quality: Seq<char>,
    candidates: Seq<CandidateModel>,
    replies: Seq<Json>,
    trial: Json,
    from: int,
) -> Result<StreamModel, ErrorModel>
    decreases candidates.len() - from,
{
    if 0 <= from < candidates.len() {
        match stream_address(replies[from]) {
            Some(url) => Ok(
                StreamModel {
                    url,
                    is_trial: false,
                    reason: downgrade(quality, candidates[from].quality),
                },
            ),
            None => search_outcome(song, quality, candidates, replies, trial, from + 1),
        }
    } else {
        let full = Some(replies[candidates.len() - 1]);
        match stream_address(trial) {
            Some(url) => Ok(
                StreamModel { url, is_trial: true, reason: fail_words(replies.last()) },
            ),
            None => Err(nothing_found(song.name, full, trial)),
        }
    }
}

/// What following the steps of the search comes to under the same answers.
pub open spec fn followed(before: SearchModel, replies: Seq<Json>, trial: Json) -> Result<
    StreamModel,
    ErrorModel,
>
    decreases
        before.candidates.len() - before.asked,
        if before.stage == Stage::Whole {
            1int
        } else {
            0int
        },
    when before.stage == Stage::Trial || (before.stage == Stage::Whole && 0 <= before.asked
        < before.candidates.len())
{
    let reply = if before.stage == Stage::Trial {
        trial
    } else {
        replies[before.asked]
    };
    let (after, step) = search_step(before, Ok(reply));
    match step {
        StepModel::Found(stream) => Ok(stream),
        StepModel::Failed(error) => Err(error),
        StepModel::Ask(_) => followed(after, replies, trial),
    }
}

/// Following the steps of the search finds the first recording that has an address, else the trial
/// part, else reports why there is nothing: a trial part is never given where a whole recording
/// could be had.
pub proof fn whole_songs_come_first(before: SearchModel, replies: Seq<Json>, trial: Json)
    requires
        before.stage == Stage::Whole,
        0 <= before.asked < before.candidates.len(),
        replies.len() == before.candidates.len(),
    ensures
        followed(before, replies, trial) == search_outcome(
            before.song,
            before.quality,
            before.candidates,
            replies,
            trial,
            before.asked,
        ),
        (exists|i: int|
            before.asked <= i < replies.len() && stream_address(#[trigger] replies[i]) is Some)
            ==> (followed(before, replies, trial) matches Ok(stream) && !stream.is_trial),
    decreases before.candidates.len() - before.asked,
{
    let reply = replies[before.asked];
    if stream_address(reply) is None {
        let (after, step) = search_step(before, Ok(reply));
        if before.asked + 1 < before.candidates.len() {
            whole_songs_come_first(after, replies, trial);
        } else {
            assert(after.last_full == Some(replies.last()));
            reveal_with_fuel(followed, 2);
            reveal_with_fuel(search_outcome, 2);
        }
    }
}

// ---------------------------------------------------------------------------
// What the requests say
// ---------------------------------------------------------------------------
/// A search says what is searched for, and which page of how many songs is wanted; the page behind it is
/// the next number, with everything else the same.
pub proof fn searches_name_their_page(keywords: Seq<char>, page: u32, page_size: u32)
    ensures
        search_request(keywords, page, page_size).path == "/search"@,
        search_request(keywords, page, page_size).says("keywords"@, keywords),
        search_request(keywords, page, page_size).says("type"@, "song"@),
        search_request(keywords, page, page_size).says_number("page"@, page as int),
        search_request(keywords, page, page_size).says_number("pagesize"@, page_size as int),
        search_request(keywords, page, page_size).mode == Mode::Fresh,
        page < u32::MAX ==> search_request(keywords, (page + 1) as u32, page_size).says_number(
            "page"@,
            page + 1,
        ) && search_request(keywords, (page + 1) as u32, page_size).says_number(
            "pagesize"@,
            page_size as int,
        ) && search_request(keywords, (page + 1) as u32, page_size).says("keywords"@, keywords),
{
    reveal_strlit("keywords");
    reveal_strlit("type");
    reveal_strlit("page");
    reveal_strlit("pagesize");
    assert("keywords"@[0] != "pagesize"@[0]);
    assert("type"@[0] != "page"@[0]);
    let query = search_request(keywords, page, page_size).query;
    text::numbers_are_read_back(page as int);
    text::numbers_are_read_back(page_size as int);
    assert(query[0].0 == "keywords"@);
    assert(query[1].0 == "type"@);
    assert(query[2].0 == "page"@);
    assert(query[3].0 == "pagesize"@);
    if page < u32::MAX {
        let next = search_request(keywords, (page + 1) as u32, page_size).query;
        text::numbers_are_read_back(page + 1);
        assert(next[0].0 == "keywords"@);
        assert(next[1].0 == "type"@);
        assert(next[2].0 == "page"@);
        assert(next[3].0 == "pagesize"@);
    }
}

/// Public playlists are asked for by their kind and page.
pub proof fn public_playlists_are_asked_for_by_kind(category_id: i64, page: u32, page_size: u32)
    ensures
        plaza_request(category_id, page, page_size).path == "/top/playlist"@,
        plaza_request(category_id, page, page_size).says_number("category_id"@, category_id as int),
        plaza_request(category_id, page, page_size).says_number("withsong"@, 0int),
        plaza_request(category_id, page, page_size).says_number("withtag"@, 1int),
        plaza_request(category_id, page, page_size).says_number("page"@, page as int),
        plaza_request(category_id, page, page_size).says_number("pagesize"@, page_size as int),
        plaza_request(category_id, page, page_size).mode == Mode::Cached,
{
    reveal_strlit("category_id");
    reveal_strlit("withsong");
    reveal_strlit("withtag");
    reveal_strlit("page");
    reveal_strlit("pagesize");
    assert("withsong"@[0] != "pagesize"@[0]);
    let query = plaza_request(category_id, page, page_size).query;
    text::numbers_are_read_back(category_id as int);
    text::numbers_are_read_back(page as int);
    text::numbers_are_read_back(page_size as int);
    assert(query[0].0 == "category_id"@);
    assert(query[1].0 == "withsong"@);
    assert(query[2].0 == "withtag"@);
    assert(query[3].0 == "page"@);
    assert(query[4].0 == "pagesize"@);
    reveal_strlit("0");
    reveal_strlit("1");
    text::small_numbers_are_read_back();
}

/// The songs of a public playlist are asked for under its name, page by page.
pub proof fn songs_of_playlists_are_asked_for_by_name(global_id: Seq<char>, page: u32, page_size: u32)
    ensures
        tracks_request(global_id, page, page_size).path == "/playlist/track/all"@,
        tracks_request(global_id, page, page_size).says("id"@, global_id),
        tracks_request(global_id, page, page_size).says_number("page"@, page as int),
        tracks_request(global_id, page, page_size).says_number("pagesize"@, page_size as int),
        tracks_request(global_id, page, page_size).mode == Mode::Cached,
{
    reveal_strlit("id");
    reveal_strlit("page");
    reveal_strlit("pagesize");
    let query = tracks_request(global_id, page, page_size).query;
    text::numbers_are_read_back(page as int);
    text::numbers_are_read_back(page_size as int);
    assert(query[0].0 == "id"@);
    assert(query[1].0 == "page"@);
    assert(query[2].0 == "pagesize"@);
}

/// The songs of a playlist of the user are asked for under its number, page by page.
pub proof fn songs_of_own_playlists_are_asked_for_by_number(list_id: i64, page: u32, page_size: u32)
    ensures
        own_tracks_request(list_id, page, page_size).path == "/playlist/track/all/new"@,
        own_tracks_request(list_id, page, page_size).says_number("listid"@, list_id as int),
        own_tracks_request(list_id, page, page_size).says_number("page"@, page as int),
        own_tracks_request(list_id, page, page_size).says_number("pagesize"@, page_size as int),
        own_tracks_request(list_id, page, page_size).mode == Mode::Cached,
{
    reveal_strlit("listid");
    reveal_strlit("page");
    reveal_strlit("pagesize");
    let query = own_tracks_request(list_id, page, page_size).query;
    text::numbers_are_read_back(list_id as int);
    text::numbers_are_read_back(page as int);
    text::numbers_are_read_back(page_size as int);
    assert(query[0].0 == "listid"@);
    assert(query[1].0 == "page"@);
    assert(query[2].0 == "pagesize"@);
}

/// The songs of an artist are asked for under their number and in the wanted order, page by page.
pub proof fn songs_of_artists_are_asked_for_in_order(artist_id: i64, sort: Seq<char>, page: u32, page_size: u32)
    ensures
        artist_tracks_request(artist_id, sort, page, page_size).path == "/artist/audios"@,
        artist_tracks_request(artist_id, sort, page, page_size).says_number("id"@, artist_id as int),
        artist_tracks_request(artist_id, sort, page, page_size).says("sort"@, sort),
        artist_tracks_request(artist_id, sort, page, page_size).says_number("page"@, page as int),
        artist_tracks_request(artist_id, sort, page, page_size).says_number("pagesize"@, page_size as int),
        artist_tracks_request(artist_id, sort, page, page_size).mode == Mode::Cached,
{
    reveal_strlit("id");
    reveal_strlit("sort");
    reveal_strlit("page");
    reveal_strlit("pagesize");
    assert("sort"@[0] != "page"@[0]);
    let query = artist_tracks_request(artist_id, sort, page, page_size).query;
    text::numbers_are_read_back(artist_id as int);
    text::numbers_are_read_back(page as int);
    text::numbers_are_read_back(page_size as int);
    assert(query[0].0 == "id"@);
    assert(query[1].0 == "sort"@);
    assert(query[2].0 == "page"@);
    assert(query[3].0 == "pagesize"@);
}

/// The songs of a chart are asked for under its number, page by page.
pub proof fn songs_of_charts_are_asked_for_by_number(rank_id: i64, page: u32, page_size: u32)
    ensures
        rank_tracks_request(rank_id, page, page_size).path == "/rank/audio"@,
        rank_tracks_request(rank_id, page, page_size).says_number("rankid"@, rank_id as int),
        rank_tracks_request(rank_id, page, page_size).says_number("page"@, page as int),
        rank_tracks_request(rank_id, page, page_size).says_number("pagesize"@, page_size as int),
        rank_tracks_request(rank_id, page, page_size).mode == Mode::Cached,
{
    reveal_strlit("rankid");
    reveal_strlit("page");
    reveal_strlit("pagesize");
    let query = rank_tracks_request(rank_id, page, page_size).query;
    text::numbers_are_read_back(rank_id as int);
    text::numbers_are_read_back(page as int);
    text::numbers_are_read_back(page_size as int);
    assert(query[0].0 == "rankid"@);
    assert(query[1].0 == "page"@);
    assert(query[2].0 == "pagesize"@);
}

/// Artists are asked for by their region, as many as wanted, of either sex, bands or not.
pub proof fn artists_are_asked_for_by_region(kind: i64, hot_size: u32)
    ensures
        artists_request(kind, hot_size).path == "/artist/lists"@,
        artists_request(kind, hot_size).says_number("sextypes"@, 0int),
        artists_request(kind, hot_size).says_number("type"@, kind as int),
        artists_request(kind, hot_size).says_number("musician"@, 0int),
        artists_request(kind, hot_size).says_number("hotsize"@, hot_size as int),
        artists_request(kind, hot_size).mode == Mode::Cached,
{
    reveal_strlit("sextypes");
    reveal_strlit("type");
    reveal_strlit("musician");
    reveal_strlit("hotsize");
    assert("sextypes"@[0] != "musician"@[0]);
    let query = artists_request(kind, hot_size).query;
    text::numbers_are_read_back(kind as int);
    text::numbers_are_read_back(hot_size as int);
    assert(query[0].0 == "sextypes"@);
    assert(query[1].0 == "type"@);
    assert(query[2].0 == "musician"@);
    assert(query[3].0 == "hotsize"@);
    reveal_strlit("0");
    reveal_strlit("1");
    text::small_numbers_are_read_back();
}

/// The charts and the user's playlists have addresses of their own, and the playlists are not
/// satisfied by an answer that was kept.
pub proof fn charts_and_own_playlists_have_addresses()
    ensures
        ranks_request().path == "/rank/list"@,
        own_playlists_request().path == "/user/playlist"@,
        own_playlists_request().mode == Mode::Fresh,
        own_playlists_request().says_number("page"@, 1),
{
    reveal_strlit("page");
    reveal_strlit("pagesize");
    reveal_strlit("0");
    reveal_strlit("1");
    text::small_numbers_are_read_back();
    assert(own_playlists_request().query[0].0 == "page"@);
}

/// An address is asked for under the recording and the quality of the candidate, and of nothing else
/// of the song than its album; the trial part is asked for only where it is wanted. Candidates of
/// different recordings or qualities lead to different requests.
pub proof fn addresses_are_asked_for_by_recording(
    song: SongModel,
    candidate: CandidateModel,
    free_part: bool,
    other_song: SongModel,
    other: CandidateModel,
)
    ensures
        address_request(song, candidate, free_part).path == "/song/url"@,
        address_request(song, candidate, free_part).says(
            "hash"@,
            candidate.hash,
        ),
        address_request(song, candidate, free_part).says(
            "quality"@,
            candidate.quality,
        ),
        address_request(song, candidate, free_part).says(
            "album_audio_id"@,
            candidate.album_audio_id,
        ),
        address_request(song, candidate, free_part).says("album_id"@, song.album_id),
        address_request(song, candidate, true).says("free_part"@, "true"@),
        address_request(song, candidate, false).silent_on("free_part"@),
        candidate.hash != other.hash || candidate.quality != other.quality ==> address_request(
            song,
            candidate,
            free_part,
        ) != address_request(other_song, other, free_part),
        address_request(song, candidate, true) != address_request(song, candidate, false),
        address_request(song, candidate, free_part).mode == Mode::Fresh,
{
    reveal_strlit("hash");
    reveal_strlit("album_id");
    reveal_strlit("album_audio_id");
    reveal_strlit("quality");
    reveal_strlit("free_part");
    let whole = address_request(song, candidate, false).query;
    let part = address_request(song, candidate, true).query;
    assert(whole[0].0 == "hash"@ && part[0].0 == "hash"@);
    assert(whole[1].0 == "album_id"@ && part[1].0 == "album_id"@);
    assert(whole[2].0 == "album_audio_id"@ && part[2].0 == "album_audio_id"@);
    assert(whole[3].0 == "quality"@ && part[3].0 == "quality"@);
    assert(part[4].0 == "free_part"@);
    let theirs = address_request(other_song, other, free_part).query;
    assert(theirs[0].1 == other.hash);
    assert(theirs[3].1 == other.quality);
}

// ---------------------------------------------------------------------------
// What is found
// ---------------------------------------------------------------------------
/// Qualities are stepped down one by one: the highest of the usual ones leads to lossless, lossless to
/// 320, 320 to 128, and 128 is the end; the three that need a right of their own stand above all.
/// What is not known is asked for as 128.
pub proof fn qualities_step_down(requested: Seq<char>)
    ensures
        descent(first_step("128"@)) == seq!["128"],
        descent(first_step("320"@)) == seq!["320"] + descent(first_step("128"@)),
        descent(first_step("flac"@)) == seq!["flac"] + descent(first_step("320"@)),
        descent(first_step("high"@)) == seq!["high"] + descent(first_step("flac"@)),
        descent(first_step("viper_atmos"@)) == seq!["viper_atmos"] + descent(first_step("high"@)),
        descent(first_step("viper_clear"@)) == seq!["viper_clear"] + descent(
            first_step("viper_atmos"@),
        ),
        descent(first_step("viper_tape"@)) == seq!["viper_tape"] + descent(
            first_step("viper_clear"@),
        ),
        requested != "128"@ && requested != "320"@ && requested != "flac"@ && requested != "high"@
            && !is_viper_spec(requested) ==> descent(first_step(requested)) == seq!["128"],
        is_viper_spec(requested) <==> requested == "viper_atmos"@ || requested == "viper_clear"@
            || requested == "viper_tape"@,
{
    reveal_strlit("128");
    reveal_strlit("320");
    reveal_strlit("flac");
    reveal_strlit("high");
    reveal_strlit("viper_atmos");
    reveal_strlit("viper_clear");
    reveal_strlit("viper_tape");
    assert("128"@[0] != "320"@[0]);
    assert("flac"@[0] != "high"@[0]);
    assert("viper_atmos"@[6] != "viper_clear"@[6]);
    let steps = quality_ladder();
    assert(steps.drop_last() =~= steps.take(6));
    assert(steps.take(6).drop_last() =~= steps.take(5));
    assert(steps.take(5).drop_last() =~= steps.take(4));
    assert(steps.take(4).drop_last() =~= steps.take(3));
    assert(steps.take(3).drop_last() =~= steps.take(2));
    assert(steps.take(2).drop_last() =~= steps.take(1));
    assert(steps.take(1).drop_last() =~= steps.take(0));
    reveal_with_fuel(step_of, 9);
    assert(descent(0) =~= seq!["128"]);
    assert(descent(1) =~= seq!["320"] + descent(0));
    assert(descent(2) =~= seq!["flac"] + descent(1));
    assert(descent(3) =~= seq!["high"] + descent(2));
    assert(descent(4) =~= seq!["viper_atmos"] + descent(3));
    assert(descent(5) =~= seq!["viper_clear"] + descent(4));
    assert(descent(6) =~= seq!["viper_tape"] + descent(5));
}

/// The entries of an answer about rights and what is related to each of them are all considered.
pub proof fn related_recordings_are_considered(items: Seq<Json>, i: int, k: int)
    requires
        0 <= i < items.len(),
    ensures
        variants_of(items).contains(items[i]),
        json::array_at(items[i], "relate_goods"@) matches Some(goods) && 0 <= k < goods@.len()
            ==> variants_of(items).contains(json::array_at(items[i], "relate_goods"@)->0@[k]),
    decreases items.len(),
{
    let less = items.drop_last();
    let before = variants_of(less).push(items.last());
    let related = match json::array_at(items.last(), "relate_goods"@) {
        Some(goods) => goods@,
        None => Seq::empty(),
    };
    let all = variants_of(items);
    assert(all == before + related);
    if i < less.len() {
        related_recordings_are_considered(less, i, k);
        let at = variants_of(less).index_of(items[i]);
        assert(all[at] == items[i]);
        if let Some(goods) = json::array_at(items[i], "relate_goods"@) {
            if 0 <= k < goods@.len() {
                let there = variants_of(less).index_of(goods@[k]);
                assert(all[there] == goods@[k]);
            }
        }
    } else {
        assert(all[variants_of(less).len() as int] == items[i]);
        if 0 <= k < related.len() {
            assert(all[before.len() + k] == related[k]);
        }
    }
}

/// The first variant that may be played is one of them.
proof fn lemma_granting(variants: Seq<Json>, quality: Seq<char>)
    ensures
        match first_granting(variants, quality) {
            Some(variant) => variants.contains(variant) && grants(variant, quality),
            None => forall|k: int| 0 <= k < variants.len() ==> !grants(#[trigger] variants[k], quality),
        },
    decreases variants.len(),
{
    if variants.len() > 0 {
        let rest = variants.drop_first();
        lemma_granting(rest, quality);
        assert(variants[0] == variants.first());
        if grants(variants[0], quality) {
            assert(variants.contains(variants[0]));
        } else {
            if let Some(variant) = first_granting(rest, quality) {
                let k = rest.index_of(variant);
                assert(variants[k + 1] == variant);
            } else {
                assert forall|k: int| 0 <= k < variants.len() implies !grants(
                    #[trigger] variants[k],
                    quality,
                ) by {
                    if k > 0 {
                        assert(!grants(rest[k - 1], quality));
                    }
                }
            }
        }
    }
}

/// A recording is offered under the hash and the quality that a variant names, and never where the
/// level of the variant is 0; where a variant may be played in the wanted quality, that quality comes
/// first.
pub proof fn offers_are_granted(variants: Seq<Json>, qualities: Seq<&str>, i: int)
    requires
        0 <= i < granted(variants, qualities).len(),
    ensures
        exists|k: int|
            0 <= k < variants.len() && #[trigger] names_offer(
                variants[k],
                granted(variants, qualities)[i],
            ),
        exists|k: int|
            0 <= k < qualities.len() && (#[trigger] qualities[k])@ == granted(
                variants,
                qualities,
            )[i].quality,
    decreases qualities.len(),
{
    let less = qualities.drop_last();
    let before = granted(variants, less);
    if i < before.len() {
        offers_are_granted(variants, less, i);
        let k = choose|k: int| 0 <= k < less.len() && (#[trigger] less[k])@ == before[i].quality;
        assert(qualities[k] == less[k]);
        assert(granted(variants, qualities)[i] == before[i]);
        let n = choose|n: int|
            0 <= n < variants.len() && #[trigger] names_offer(variants[n], before[i]);
        assert(names_offer(variants[n], granted(variants, qualities)[i]));
    } else {
        let quality = qualities.last()@;
        lemma_granting(variants, quality);
        let variant = first_granting(variants, quality)->0;
        let k = variants.index_of(variant);
        assert(names_offer(variants[k], granted(variants, qualities)[i]));
        assert(qualities[qualities.len() - 1]@ == quality);
    }
}

/// Whether a variant names a recording: hash and quality are its own, and its level is not 0.
pub open spec fn names_offer(variant: Json, offer: CandidateModel) -> bool {
    &&& json::at(variant, "hash"@) matches Some(Json::Text(hash)) && hash@ == offer.hash
    &&& json::at(variant, "quality"@) matches Some(Json::Text(quality)) && quality@ == offer.quality
    &&& json::at(variant, "level"@) != Some(Json::Int(0))
}

/// What may be played in the best of the qualities is offered first.
pub proof fn the_best_offer_comes_first(variants: Seq<Json>, qualities: Seq<&str>, k: int)
    requires
        qualities.len() > 0,
        0 <= k < variants.len(),
        grants(variants[k], qualities[0]@),
    ensures
        granted(variants, qualities).len() > 0,
        granted(variants, qualities)[0].quality == qualities[0]@,
    decreases qualities.len(),
{
    let less = qualities.drop_last();
    lemma_granting(variants, qualities[0]@);
    if less.len() > 0 {
        assert(less[0] == qualities[0]);
        the_best_offer_comes_first(variants, less, k);
    } else {
        assert(granted(variants, less).len() == 0);
    }
}

/// Without an offer the recordings that are known are asked for: the song's own first, then every
/// other, each in the wanted quality.
pub proof fn known_recordings_are_asked_for(song: SongModel, quality: Seq<char>, i: int)
    requires
        0 <= i < song.extra_hashes.len(),
    ensures
        stream_candidates(song, quality, None)[0].hash == song.hash,
        stream_candidates(song, quality, None)[0].quality == quality,
        exists|k: int|
            0 <= k < known_recordings(song, quality, song.extra_hashes).len() && (
            #[trigger] known_recordings(song, quality, song.extra_hashes)[k]).hash
                == song.extra_hashes[i].1,
        forall|k: int|
            0 <= k < known_recordings(song, quality, song.extra_hashes).len() ==> (
            #[trigger] known_recordings(song, quality, song.extra_hashes)[k]).quality == quality,
{
    lemma_all_known(song, quality, song.extra_hashes);
    lemma_known_recordings(song, quality, song.extra_hashes);
}

/// Every recording of a song is among the known ones.
proof fn lemma_all_known(song: SongModel, quality: Seq<char>, extra: Seq<(Seq<char>, Seq<char>)>)
    ensures
        forall|i: int|
            0 <= i < extra.len() ==> exists|k: int|
                0 <= k < known_recordings(song, quality, extra).len() && (
                #[trigger] known_recordings(song, quality, extra)[k]).hash == (
                #[trigger] extra[i]).1,
        forall|k: int|
            0 <= k < known_recordings(song, quality, extra).len() ==> (
            #[trigger] known_recordings(song, quality, extra)[k]).quality == quality,
    decreases extra.len(),
{
    lemma_known_recordings(song, quality, extra);
    if extra.len() > 0 {
        let less = extra.drop_last();
        let before = known_recordings(song, quality, less);
        let all = known_recordings(song, quality, extra);
        lemma_all_known(song, quality, less);
        lemma_known_recordings(song, quality, less);
        assert forall|i: int| 0 <= i < extra.len() implies exists|k: int|
            0 <= k < all.len() && (#[trigger] all[k]).hash == (#[trigger] extra[i]).1 by {
            if i < less.len() {
                assert(less[i] == extra[i]);
                let k = choose|k: int| 0 <= k < before.len() && (#[trigger] before[k]).hash == less[i].1;
                assert(all[k].hash == extra[i].1);
            } else if extra.last().1 == song.hash {
                assert(all[0].hash == extra[i].1);
            } else {
                assert(all[all.len() - 1].hash == extra[i].1);
            }
        }
        assert forall|k: int| 0 <= k < all.len() implies (#[trigger] all[k]).quality == quality by {
            if k < before.len() {
                assert(before[k].quality == quality);
            }
        }
    } else {
        assert(known_recordings(song, quality, extra)[0].quality == quality);
    }
}

/// Rights are asked about for every recording of the song, its own first and none twice.
pub proof fn rights_are_asked_about_for_every_recording(song: SongModel, i: int)
    requires
        0 <= i < song.extra_hashes.len(),
    ensures
        rights_request(song).path == "/privilege/lite"@,
        rights_request(song).says(
            "hash"@,
            text::joined(different_hashes(song.hash, song.extra_hashes), ","@),
        ),
        different_hashes(song.hash, song.extra_hashes)[0] == song.hash,
        different_hashes(song.hash, song.extra_hashes).contains(song.extra_hashes[i].1),
        different_hashes(song.hash, song.extra_hashes).no_duplicates(),
{
    assert(rights_request(song).query[0].0 == "hash"@);
    lemma_different_hashes(song.hash, song.extra_hashes);
}

/// Every hash is among them, and none twice.
proof fn lemma_different_hashes(own: Seq<char>, extra: Seq<(Seq<char>, Seq<char>)>)
    ensures
        different_hashes(own, extra).len() > 0,
        different_hashes(own, extra)[0] == own,
        different_hashes(own, extra).no_duplicates(),
        forall|i: int|
            0 <= i < extra.len() ==> different_hashes(own, extra).contains(
                (#[trigger] extra[i]).1,
            ),
    decreases extra.len(),
{
    if extra.len() > 0 {
        let less = extra.drop_last();
        let before = different_hashes(own, less);
        let all = different_hashes(own, extra);
        lemma_different_hashes(own, less);
        assert forall|i: int| 0 <= i < extra.len() implies all.contains((#[trigger] extra[i]).1) by {
            if i < less.len() {
                assert(less[i] == extra[i]);
                let k = before.index_of(less[i].1);
                assert(all[k] == extra[i].1);
            } else if before.contains(extra.last().1) {
                assert(all == before);
            } else {
                assert(all[before.len() as int] == extra[i].1);
            }
        }
    }
}

/// Where the wanted quality needs a right of its own, the song's own recording in a quality that needs
/// none is asked for last; otherwise nothing is added.
pub proof fn special_qualities_end_in_a_usual_one(
    song: SongModel,
    quality: Seq<char>,
    response: Option<Json>,
)
    ensures
        is_viper_spec(quality) ==> stream_candidates(song, quality, response).last().hash == song.hash
            && !is_viper_spec(stream_candidates(song, quality, response).last().quality),
        !is_viper_spec(quality) ==> stream_candidates(song, quality, response) == plain_candidates(
            song,
            quality,
            response,
        ),
        response matches Some(root) && offered(root, quality).len() > 0 ==> plain_candidates(
            song,
            quality,
            response,
        ) == offered(response->0, quality),
{
    lemma_plain_quality(plain_candidates(song, quality, response));
}

/// A usual quality needs no right of its own.
proof fn lemma_plain_quality(candidates: Seq<CandidateModel>)
    ensures
        !is_viper_spec(plain_quality(candidates)),
    decreases candidates.len(),
{
    reveal_strlit("128");
    reveal_strlit("viper_atmos");
    reveal_strlit("viper_clear");
    reveal_strlit("viper_tape");
    if candidates.len() > 0 {
        lemma_plain_quality(candidates.drop_first());
    } else {
        assert("128"@.len() != "viper_atmos"@.len());
        assert("128"@.len() != "viper_clear"@.len());
        assert("128"@.len() != "viper_tape"@.len());
    }
}

/// A found address is one that can be played, a refused answer has none, and the address under `url`
/// of the first item, or of `data` itself, is the one that counts.
pub proof fn addresses_can_be_played(root: Json, url: String)
    ensures
        stream_address(root) matches Some(found) ==> text::begins(found, "http://"@) || text::begins(
            found,
            "https://"@,
        ),
        json::at(root, "status"@) matches Some(Json::Int(status)) && status != 1 ==> stream_address(
            root,
        ) is None,
        (json::at(root, "status"@) is None || json::at(root, "status"@) == Some(Json::Int(1)))
            && json::array_at(root, "data"@) is Some && json::array_at(root, "data"@)->0@.len() > 0
            && json::at(json::array_at(root, "data"@)->0@[0], "url"@) == Some(Json::Text(url))
            && http_address(url@) ==> stream_address(root) == Some(text::trimmed(url@)),
        (json::at(root, "status"@) is None || json::at(root, "status"@) == Some(Json::Int(1)))
            && (json::at(root, "data"@) matches Some(data) && json::at(data, "url"@) == Some(
            Json::Text(url),
        )) && http_address(url@) ==> stream_address(root) == Some(text::trimmed(url@)),
        http_address(url@) <==> text::begins(text::trimmed(url@), "http://"@) || text::begins(
            text::trimmed(url@),
            "https://"@,
        ),
{
    if let Some(items) = json::array_at(root, "data"@) {
        lemma_items_are_addresses(items@);
    }
    if let Some(data) = json::at(root, "data"@) {
        lemma_under_is_address(data, address_keys());
    }
    lemma_under_is_address(root, address_keys());
    assert(address_keys()[0]@ == "url"@);
}

/// What stands under a key is an address.
proof fn lemma_under_is_address(value: Json, keys: Seq<&str>)
    ensures
        address_under(value, keys) matches Some(found) ==> text::begins(found, "http://"@)
            || text::begins(found, "https://"@),
    decreases keys.len(),
{
    if keys.len() > 0 {
        lemma_under_is_address(value, keys.drop_first());
        if let Some(inner) = json::at(value, keys[0]@) {
            if let Json::Array(items) = inner {
                lemma_first_is_address(items@);
            }
        }
    }
}

/// The first address among items is one.
proof fn lemma_first_is_address(items: Seq<Json>)
    ensures
        first_address(items) matches Some(found) ==> text::begins(found, "http://"@)
            || text::begins(found, "https://"@),
    decreases items.len(),
{
    if items.len() > 0 {
        lemma_first_is_address(items.drop_first());
    }
}

/// The same of what stands in items.
proof fn lemma_items_are_addresses(items: Seq<Json>)
    ensures
        address_of_items(items) matches Some(found) ==> text::begins(found, "http://"@)
            || text::begins(found, "https://"@),
    decreases items.len(),
{
    if items.len() > 0 {
        lemma_under_is_address(items[0], address_keys());
        lemma_items_are_addresses(items.drop_first());
    }
}

/// The search asks for one recording after the other, each under its own hash, as long as the answers
/// have no address; then for the trial part of the song's own. What it finds is the address of the
/// answer, marked as a trial part exactly where it is one, and a failure to get an answer is handed
/// on.
pub proof fn the_search_asks_in_turn(before: SearchModel, root: Json, error: ErrorModel)
    requires
        before.stage != Stage::Over,
        before.stage == Stage::Whole ==> 0 <= before.asked < before.candidates.len(),
    ensures
        before.stage == Stage::Rights ==> {
            let (after, step) = search_step(before, Ok(root));
            &&& after.stage == Stage::Whole && after.asked == 0
            &&& after.candidates == stream_candidates(before.song, before.quality, Some(root))
            &&& step matches StepModel::Ask(request) && request.says(
                "hash"@,
                after.candidates[0].hash,
            ) && request.says("quality"@, after.candidates[0].quality) && request.silent_on(
                "free_part"@,
            )
        },
        before.stage == Stage::Rights ==> search_step(before, Err(error)).0.candidates
            == stream_candidates(before.song, before.quality, None),
        before.stage == Stage::Whole && stream_address(root) is None && before.asked + 1
            < before.candidates.len() ==> {
            let (after, step) = search_step(before, Ok(root));
            &&& after.stage == Stage::Whole && after.asked == before.asked + 1
            &&& step matches StepModel::Ask(request) && request.says(
                "hash"@,
                before.candidates[before.asked + 1].hash,
            ) && request.says("quality"@, before.candidates[before.asked + 1].quality)
                && request.silent_on("free_part"@)
        },
        before.stage == Stage::Whole && stream_address(root) is None && before.asked + 1
            == before.candidates.len() ==> {
            let (after, step) = search_step(before, Ok(root));
            &&& after.stage == Stage::Trial && after.last_full == Some(root)
            &&& step matches StepModel::Ask(request) && request.says("hash"@, before.song.hash)
                && request.says("quality"@, before.quality) && request.says("free_part"@, "true"@)
        },
        stream_address(root) is Some && before.stage != Stage::Rights ==> (search_step(
            before,
            Ok(root),
        ).1 matches StepModel::Found(stream) && Some(stream.url) == stream_address(root)
            && stream.is_trial == (before.stage == Stage::Trial)),
        before.stage != Stage::Rights ==> search_step(before, Err(error)).1 == StepModel::Failed(
            error,
        ),
        before.stage == Stage::Trial && stream_address(root) is None ==> search_step(
            before,
            Ok(root),
        ).1 is Failed,
{
    let offered = stream_candidates(before.song, before.quality, Some(root));
    there_is_a_candidate(before.song, before.quality, Some(root));
    addresses_are_asked_for_by_recording(before.song, offered[0], false, before.song, offered[0]);
    if before.stage == Stage::Whole && before.asked + 1 < before.candidates.len() {
        let next = before.candidates[before.asked + 1];
        addresses_are_asked_for_by_recording(before.song, next, false, before.song, next);
    }
    let part = trial_candidate(before.song, before.quality);
    addresses_are_asked_for_by_recording(before.song, part, true, before.song, part);
}

/// A status has words of its own: 2 asks for a login, 3 means that the song cannot be had, any other
/// is shown as it is, and 0 says nothing.
pub proof fn statuses_have_words(status: i64)
    ensures
        status_words(status) is None <==> status == 0,
        status == 2 ==> (status_words(status) matches Some(words) && text::begins(words, "需要登录"@)),
        status == 3 ==> (status_words(status) matches Some(words) && text::begins(
            words,
            "该歌曲暂无版权"@,
        )),
        status != 0 && status != 2 && status != 3 ==> (status_words(status) matches Some(words)
            && text::ends(words, text::signed_decimal(status as int))),
{
    reveal_strlit("需要登录");
    reveal_strlit("需要登录或重新登录后再试");
    reveal_strlit("该歌曲暂无版权");
    reveal_strlit("该歌曲暂无版权（可能已下架或地区受限）");
    assert("需要登录或重新登录后再试"@.subrange(0, 4) =~= "需要登录"@);
    assert("该歌曲暂无版权（可能已下架或地区受限）"@.subrange(0, 7) =~= "该歌曲暂无版权"@);
    let words = "服务端返回 "@ + text::signed_decimal(status as int);
    let tail = text::signed_decimal(status as int);
    assert(words.subrange(words.len() - tail.len(), words.len() as int) =~= tail);
}

/// An address found in another quality than the wanted one is explained where the wanted one needs a
/// right of its own, by naming both; otherwise nothing is said.
pub proof fn downgrades_name_both_qualities(quality: Seq<char>, found: Seq<char>)
    ensures
        downgrade(quality, found) is Some <==> is_viper_spec(quality) && found != quality,
        downgrade(quality, found) matches Some(words) ==> text::begins(words, quality) && text::ends(
            words,
            found,
        ),
{
    if let Some(words) = downgrade(quality, found) {
        assert(words.subrange(0, quality.len() as int) =~= quality);
        assert(words.subrange(words.len() - found.len(), words.len() as int) =~= found);
    }
}

/// Pages are asked for in batches of six behind the first, without a gap and up to the sixtieth.
pub proof fn batches_are_of_six(before: PageCollector)
    requires
        before.wf(),
        !before.ended,
    ensures
        before.next == 1 ==> before.wanted() == Some((1u32, 1u32)),
        1 < before.next <= 55 ==> before.wanted() == Some((before.next, (before.next + 5) as u32)),
        55 < before.next <= 60 ==> before.wanted() == Some((before.next, 60u32)),
        before.next > 60 ==> before.wanted() is None,
{
}

} // verus!
