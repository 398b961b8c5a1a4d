//! What the player promises, told from the outside: which wish or outcome leads to which order and to
//! which state.
use vstd::prelude::*;
use crate::control::LYRIC_STEP_MS;
use crate::engine::{PlaybackState, SEEK_STEP_MS};
use crate::event::SoundState;
use crate::model::{LyricLineModel, PlaylistModel, SongModel};
use crate::order::{OrderModel, PlaylistSource};
use crate::panes::{ConfirmAction, Connection};
use crate::playing::{LYRIC_OFFSET_LIMIT_MS, RESTART_THRESHOLD_MS};
use crate::queue::{self, PlaybackMode};
use crate::source::SourceKind;
use crate::state::PlayerModel;
use crate::tab::{Focus, StatusLevel, Tab};
use crate::text;
use crate::update::AppModel;

verus! {

// ---------------------------------------------------------------------------
// Small steps
// ---------------------------------------------------------------------------
/// What small steps leave alone.
proof fn lemma_small_steps()
    ensures
        forall|a: AppModel, level: StatusLevel, words: Seq<char>|
            {
                let b = #[trigger] a.told(level, words);
                &&& b.orders == a.orders
                &&& b.state.config == a.state.config
                &&& b.state.screen == a.state.screen
                &&& b.state.pages == a.state.pages
                &&& b.state.player == a.state.player
                &&& b.state.account == a.state.account
                &&& b.state.dialogs == a.state.dialogs
            },
        forall|a: AppModel, what: Option<Seq<char>>|
            {
                let b = #[trigger] a.busy_with(what);
                &&& b.orders == a.orders
                &&& b.state.config == a.state.config
                &&& b.state.screen == a.state.screen
                &&& b.state.pages == a.state.pages
                &&& b.state.player == a.state.player
                &&& b.state.account == a.state.account
                &&& b.state.dialogs == a.state.dialogs
            },
        forall|a: AppModel, progress: Option<(u64, Option<u64>)>|
            {
                let b = #[trigger] a.progressed(progress);
                &&& b.orders == a.orders
                &&& b.state.config == a.state.config
                &&& b.state.screen == a.state.screen
                &&& b.state.pages == a.state.pages
                &&& b.state.player == a.state.player
                &&& b.state.account == a.state.account
                &&& b.state.dialogs == a.state.dialogs
            },
        forall|a: AppModel, order: OrderModel|
            {
                let b = #[trigger] a.ordering(order);
                &&& b.orders == a.orders.push(order)
                &&& b.state == a.state
            },
        forall|a: AppModel|
            {
                let b = #[trigger] a.not_downloading();
                &&& b.orders == a.orders
                &&& b.state.config == a.state.config
                &&& b.state.screen == a.state.screen
                &&& b.state.pages == a.state.pages
                &&& b.state.player == a.state.player
                &&& b.state.account == a.state.account
                &&& b.state.dialogs == a.state.dialogs
            },
        forall|a: AppModel, focus: Focus|
            {
                let b = #[trigger] a.turning_to(focus);
                &&& b.orders == a.orders
                &&& b.state.screen.focus == focus
                &&& b.state.pages == a.state.pages
                &&& b.state.player == a.state.player
            },
        forall|a: AppModel, connection: Option<Connection>|
            {
                let b = #[trigger] a.reached(connection);
                &&& b.orders == a.orders
                &&& b.state.config == a.state.config
                &&& b.state.screen == a.state.screen
                &&& b.state.pages == a.state.pages
                &&& b.state.player == a.state.player
            },
{
    reveal(AppModel::told);
    reveal(AppModel::busy_with);
    reveal(AppModel::progressed);
    reveal(AppModel::ordering);
    reveal(AppModel::not_downloading);
    reveal(AppModel::turning_to);
    reveal(AppModel::reached);
}

// ---------------------------------------------------------------------------
// Searching
// ---------------------------------------------------------------------------
/// Submitting the search line asks for the first page of what stands in it, without the white space
/// around it, and for nothing where it is blank.
pub proof fn searches_begin_with_the_first_page(app: AppModel)
    ensures
        text::trimmed(app.state.pages.search.input.text).len() > 0
            ==> app.searching().orders == app.orders.push(
            OrderModel::Search {
                keyword: text::trimmed(app.state.pages.search.input.text),
                page: 1,
                page_size: app.state.config.page_size,
                append: false,
            },
        ),
        text::trimmed(app.state.pages.search.input.text).len() > 0
            ==> app.searching().state.pages.search.submitted
            == text::trimmed(app.state.pages.search.input.text),
        text::trimmed(app.state.pages.search.input.text).len() == 0
            ==> app.searching().orders == app.orders,
{
    lemma_small_steps();
    reveal(AppModel::searching);
}

/// Asking for more asks for the page behind the last one of the same search, to be put behind what is
/// there.
pub proof fn searches_go_on_with_the_next_page(app: AppModel)
    requires
        app.state.pages.search.submitted.len() > 0,
        app.state.pages.search.results.songs.len() > 0,
        app.state.pages.search.page < 16,
    ensures
        app.searching_on().orders == app.orders.push(
            OrderModel::Search {
                keyword: app.state.pages.search.submitted,
                page: (app.state.pages.search.page + 1) as u32,
                page_size: app.state.config.page_size,
                append: true,
            },
        ),
        app.searching_on().state.pages.search.page
            == app.state.pages.search.page + 1,
        app.searching_on().state.pages.search.results
            == app.state.pages.search.results,
{
    lemma_small_steps();
    reveal(AppModel::searching_on);
}

/// What a search finds takes the place of what was there, or stands behind it where more was asked
/// for, in the order of the service.
pub proof fn found_songs_are_shown_in_their_order(
    app: AppModel,
    keyword: Seq<char>,
    songs: Seq<SongModel>,
)
    ensures
        app.songs_found(keyword, songs, false).state.pages.search.results.songs == songs,
        app.songs_found(keyword, songs, false).state.pages.search.page
            == 1,
        app.songs_found(keyword, songs, true).state.pages.search.results.songs
            == app.state.pages.search.results.songs + songs,
        app.songs_found(keyword, songs, true).state.pages.search.page
            == app.state.pages.search.page,
        songs.len() > 0
            ==> app.songs_found(keyword, songs, false).state.screen.focus == Focus::Secondary,
        !app.songs_found(keyword, songs, false).state.pages.search.results.load.loading,
{
    lemma_small_steps();
    reveal(AppModel::songs_found);
    reveal(AppModel::told_more);
    reveal(AppModel::told_found);
}

// ---------------------------------------------------------------------------
// Pages
// ---------------------------------------------------------------------------
/// The keys of the pages show them: home, search, playlists, artists, charts, the user's own, the
/// queue, the services, the settings and the spectrum, from 1 to 9 and 0.
pub proof fn digits_stand_for_pages()
    ensures
        Tab::numbered(1) == Some(Tab::Home),
        Tab::numbered(2) == Some(Tab::Search),
        Tab::numbered(3) == Some(Tab::Playlists),
        Tab::numbered(4) == Some(Tab::Artists),
        Tab::numbered(5) == Some(Tab::Ranks),
        Tab::numbered(6) == Some(Tab::Cloud),
        Tab::numbered(7) == Some(Tab::Queue),
        Tab::numbered(8) == Some(Tab::Sources),
        Tab::numbered(9) == Some(Tab::Settings),
        Tab::numbered(0) == Some(Tab::Visualizer),
{
}

/// Going on with an entry asks for the songs of the entry that is selected, and for those of no other.
pub proof fn what_is_selected_is_opened(app: AppModel, playlist: PlaylistModel)
    ensures
        app.opening_playlist(playlist, PlaylistSource::Plaza).orders == app.orders.push(
            OrderModel::LoadPlaylist { playlist, source: PlaylistSource::Plaza },
        ),
        app.opening_playlist(playlist, PlaylistSource::Cloud).orders == app.orders.push(
            OrderModel::LoadPlaylist { playlist, source: PlaylistSource::Cloud },
        ),
        app.state.pages.playlists.list.chosen() == Some(playlist)
            ==> app.opening_selected_playlist()
            == app.opening_playlist(playlist, PlaylistSource::Plaza),
        app.state.pages.artists.list.chosen() matches Some(artist)
            ==> app.opening_selected_artist().orders == app.orders.push(
            OrderModel::LoadArtistSongs { artist: app.state.pages.artists.list.chosen()->0 },
        ),
        app.state.pages.ranks.list.chosen() matches Some(board)
            ==> app.opening_selected_rank().orders == app.orders.push(
            OrderModel::LoadRankSongs { board: app.state.pages.ranks.list.chosen()->0 },
        ),
{
    lemma_small_steps();
    reveal(AppModel::opening_selected_playlist);
    reveal(AppModel::opening_selected_artist);
    reveal(AppModel::opening_selected_rank);
    reveal(AppModel::opening_playlist);
}

// ---------------------------------------------------------------------------
// Playing
// ---------------------------------------------------------------------------
/// A song that begins is the one that was meant: its lyric is asked for, it is looked for among the
/// kept ones in the quality in use, and nothing is known of it being a part.
pub proof fn songs_begin_as_meant(app: AppModel, song: SongModel)
    ensures
        app.starting(song).state.player.current == Some(song),
        app.starting(song).state.player.playback == PlaybackState::Loading,
        app.starting(song).state.player.duration_ms == song.duration_ms,
        app.starting(song).state.player.lyric.hash == Some(song.hash),
        app.starting(song).state.player.lyric.lines.len() == 0,
        app.starting(song).state.player.queue == app.state.player.queue,
        ({
            let start_at_ms = app.starting(song).state.player.position_ms;
            app.starting(song).orders == app.orders.push(OrderModel::MarkLoading).push(
                OrderModel::FetchLyric { song },
            ).push(
                OrderModel::Resolve {
                    song,
                    key: text::lowercase(song.hash) + "-"@ + app.state.config.quality,
                    start_at_ms,
                },
            )
        }),
        app.state.player.resume is None ==> app.starting(song).state.player.position_ms == 0,
{
    lemma_small_steps();
    reveal(AppModel::starting);
}

/// Moving to a place of the queue plays the song there.
#[verifier::spinoff_prover]
proof fn lemma_moving_to(app: AppModel, target: int)
    requires
        0 <= target < app.state.player.queue.items.len() <= usize::MAX,
    ensures
        app.moving_to(target).state.player.current == Some(app.state.player.queue.items[target]),
        app.moving_to(target).state.player.queue.cursor == Some(target as usize),
        app.moving_to(target).state.player.queue.items == app.state.player.queue.items,
{
    reveal(AppModel::moving_to);
    let player = app.state.player;
    songs_begin_as_meant(
        app.played(
            (PlayerModel {
                queue: queue::moved(player.queue, Some(target)),
                ..player
            }).pointing_at(target),
        ),
        player.queue.items[target],
    );
}

/// Pausing and going on is left to the sound while a song plays or waits; while one is on its way
/// nothing happens; when the sound has stopped the song whose turn it is begins.
pub proof fn one_key_plays_and_pauses(app: AppModel)
    ensures
        app.state.player.playback == PlaybackState::Playing
            ==> app.toggling().orders == app.orders.push(OrderModel::TogglePause),
        app.state.player.playback == PlaybackState::Paused
            ==> app.toggling().orders == app.orders.push(OrderModel::TogglePause),
        app.state.player.playback == PlaybackState::Loading ==> app.toggling()
            == app,
        app.state.player.playback
            == PlaybackState::Stopped && app.state.player.queue.playing() is Some
            ==> app.toggling().state.player.current
            == app.state.player.queue.playing(),
{
    lemma_small_steps();
    reveal(AppModel::toggling);
    if app.state.player.queue.playing() is Some {
        songs_begin_as_meant(app, app.state.player.queue.playing()->0);
    }
}

/// In every mode but shuffle the next key leads to the song behind the one whose turn it is, and the
/// key for the one before to the one in front of it, going round at the ends; after three seconds the
/// latter begins the song anew.
pub proof fn next_and_previous_are_neighbours(app: AppModel, draw: usize)
    requires
        app.wf(),
        app.state.player.queue.items.len() > 0,
        app.state.player.queue.items.len() <= usize::MAX,
        app.state.player.queue.mode != PlaybackMode::Shuffle,
    ensures
        ({
            let items = app.state.player.queue.items;
            let at = app.state.player.queue.cursor->0 as int;
            let behind = if at + 1 == items.len() {
                0
            } else {
                at + 1
            };
            let front = if at == 0 {
                items.len() - 1
            } else {
                at - 1
            };
            &&& app.going_on(true, draw).state.player.current == Some(items[behind])
            &&& app.going_on(true, draw).state.player.queue.cursor == Some(behind as usize)
            &&& app.state.player.position_ms <= 3_000
                ==> app.stepping_back(draw).state.player.current == Some(items[front])
            &&& app.state.player.position_ms > 3_000 ==> app.stepping_back(draw).orders
                == app.orders.push(OrderModel::SeekTo(0)) && app.stepping_back(draw).state.player.current == app.state.player.current && app.stepping_back(draw).state.player.position_ms
                    == 0
        }),
        app.going_on(true, draw).state.player.queue.items == app.state.player.queue.items,
{
    lemma_small_steps();
    reveal(AppModel::wf);
    reveal(AppModel::going_on);
    reveal(AppModel::stepping_back);
    let items = app.state.player.queue.items;
    let at = app.state.player.queue.cursor->0 as int;
    let behind = if at + 1 == items.len() {
        0
    } else {
        at + 1
    };
    let front = if at == 0 {
        items.len() - 1
    } else {
        at - 1
    };
    lemma_moving_to(app, behind);
    lemma_moving_to(app, front);
}

/// A song that has ended is followed by itself where one song is repeated, by the first behind the
/// last where all are, and by nothing behind the last of a sequence, where the sound stops.
pub proof fn songs_follow_by_the_mode(app: AppModel, draw: usize)
    requires
        app.wf(),
        !app.state.player.current_is_trial,
        app.state.player.queue.items.len() > 0,
        app.state.player.queue.items.len() <= usize::MAX,
    ensures
        ({
            let items = app.state.player.queue.items;
            let at = app.state.player.queue.cursor->0 as int;
            let after = app.ended(draw);
            &&& app.state.player.queue.mode == PlaybackMode::RepeatOne
                ==> after.state.player.current
                == Some(items[at])
            &&& app.state.player.queue.mode == PlaybackMode::RepeatAll && at + 1 == items.len()
                ==> after.state.player.current == Some(items[0])
            &&& app.state.player.queue.mode != PlaybackMode::RepeatOne
                && app.state.player.queue.mode != PlaybackMode::Shuffle && at + 1 < items.len()
                ==> after.state.player.current == Some(items[at + 1])
            &&& app.state.player.queue.mode == PlaybackMode::Sequential && at + 1 == items.len()
                ==> after.orders == app.orders.push(OrderModel::StopSound)
                && after.state.player.playback == PlaybackState::Stopped
        }),
{
    lemma_small_steps();
    reveal(AppModel::wf);
    reveal(AppModel::ended);
    reveal(AppModel::going_on);
    let items = app.state.player.queue.items;
    let at = app.state.player.queue.cursor->0 as int;
    let rewound = app.played(PlayerModel { position_ms: 0, ..app.state.player });
    lemma_moving_to(rewound, at);
    lemma_moving_to(rewound, 0);
    if at + 1 < items.len() {
        lemma_moving_to(rewound, at + 1);
    }
}

/// The keys that move in a song move five seconds, those for the lyric a tenth of a second, and a song
/// begins anew after three.
pub proof fn steps_have_their_length()
    ensures
        SEEK_STEP_MS == 5_000,
        LYRIC_STEP_MS == 100,
        RESTART_THRESHOLD_MS == 3_000,
        LYRIC_OFFSET_LIMIT_MS == 10_000,
{
}

/// A move of five seconds goes forward or back, and never beyond the end of the song or before its
/// beginning; a place that is named is gone to.
pub proof fn songs_are_moved_in_by_five_seconds(app: AppModel, place_ms: u64)
    requires
        app.state.player.current is Some,
        app.state.player.position_ms <= 1_000_000_000,
        0 < app.state.player.duration_ms <= 1_000_000_000,
    ensures
        app.sought_by(5_000).orders == app.orders.push(OrderModel::SeekBy(5_000)),
        app.sought_by(-5_000i64).orders == app.orders.push(
            OrderModel::SeekBy(-5_000i64),
        ),
        app.state.player.position_ms + 5_000 <= app.state.player.duration_ms
            ==> app.sought_by(5_000).state.player.position_ms
            == app.state.player.position_ms + 5_000,
        app.state.player.position_ms + 5_000 > app.state.player.duration_ms
            ==> app.sought_by(5_000).state.player.position_ms == app.state.player.duration_ms,
        5_000 <= app.state.player.position_ms <= app.state.player.duration_ms
            ==> app.sought_by(-5_000i64).state.player.position_ms
            == app.state.player.position_ms - 5_000,
        app.state.player.position_ms < 5_000
            ==> app.sought_by(-5_000i64).state.player.position_ms == 0,
        place_ms < app.state.player.duration_ms ==> app.sought(place_ms).orders
            == app.orders.push(OrderModel::SeekTo(place_ms)),
{
    lemma_small_steps();
    reveal(AppModel::sought_by);
    reveal(AppModel::sought);
}

/// The lyric is moved a tenth of a second earlier or later, ten seconds at most either way.
pub proof fn lyrics_move_by_tenths(app: AppModel)
    requires
        -10_000 <= app.state.config.lyric_offset_ms <= 10_000,
    ensures
        app.state.config.lyric_offset_ms <= 9_900
            ==> app.moving_lyric(100).state.config.lyric_offset_ms
            == app.state.config.lyric_offset_ms + 100,
        app.state.config.lyric_offset_ms >= -9_900
            ==> app.moving_lyric(-100i64).state.config.lyric_offset_ms
            == app.state.config.lyric_offset_ms - 100,
        -10_000 <= app.moving_lyric(100).state.config.lyric_offset_ms <= 10_000,
        -10_000 <= app.moving_lyric(-100i64).state.config.lyric_offset_ms <= 10_000,
{
    lemma_small_steps();
    reveal(AppModel::moving_lyric);
}

/// The mode is changed for the queue and for the next run: sequence, all, one, shuffle.
pub proof fn the_mode_is_changed_and_kept(app: AppModel)
    ensures
        ({
            let after = app.changing_mode();
            let mode = app.state.player.queue.mode;
            &&& after.state.config.playback_mode == after.state.player.queue.mode
            &&& mode == PlaybackMode::Sequential ==> after.state.player.queue.mode
                == PlaybackMode::RepeatAll
            &&& mode == PlaybackMode::RepeatAll ==> after.state.player.queue.mode
                == PlaybackMode::RepeatOne
            &&& mode == PlaybackMode::RepeatOne ==> after.state.player.queue.mode
                == PlaybackMode::Shuffle
            &&& mode == PlaybackMode::Shuffle ==> after.state.player.queue.mode
                == PlaybackMode::Sequential
            &&& after.state.player.queue.items == app.state.player.queue.items
            &&& after.state.player.current == app.state.player.current
        }),
{
    lemma_small_steps();
    reveal(AppModel::changing_mode);
}

/// The lyric of the song that is playing is shown as it came, from its beginning.
pub proof fn lyrics_of_the_song_are_shown(
    app: AppModel,
    hash: Seq<char>,
    lyric: Seq<LyricLineModel>,
)
    requires
        app.state.player.lyric.hash == Some(hash),
    ensures
        app.lyric_loaded(hash, lyric).state.player.lyric.lines == lyric,
        app.lyric_loaded(hash, lyric).state.player.lyric.active_line is None,
        !app.lyric_loaded(hash, lyric).state.player.lyric.load.loading,
{
    lemma_small_steps();
    reveal(AppModel::lyric_loaded);
}

/// At every tick the player is where the sound says, and while it plays the line that is marked is
/// the last one that has begun by then, moved by the offset.
pub proof fn ticks_follow_the_sound(app: AppModel, sound: SoundState, i: int)
    requires
        sound.position_ms <= i64::MAX,
        0 <= sound.position_ms + app.state.config.lyric_offset_ms,
        app.state.player.lyric.lines.len() <= usize::MAX,
        crate::model::by_time(app.state.player.lyric.lines),
        0 <= i < app.state.player.lyric.lines.len(),
    ensures
        app.ticked(sound).state.player.playback == sound.playback,
        app.ticked(sound).state.player.position_ms == sound.position_ms,
        sound.duration_ms > 0 ==> app.ticked(sound).state.player.duration_ms == sound.duration_ms,
        sound.duration_ms == 0 ==> app.ticked(sound).state.player.duration_ms
            == app.state.player.duration_ms,
        sound.playback == PlaybackState::Playing ==> (app.ticked(
            sound,
        ).state.player.lyric.active_line == Some(i as usize) <==> {
            let lines = app.state.player.lyric.lines;
            let place = sound.position_ms + app.state.config.lyric_offset_ms;
            lines[i].time_ms <= place && (i + 1 == lines.len() || lines[i + 1].time_ms > place)
        }),
        sound.playback != PlaybackState::Playing ==> app.ticked(
            sound,
        ).state.player.lyric.active_line == app.state.player.lyric.active_line,
{
    lemma_small_steps();
    reveal(AppModel::ticked);
    reveal(AppModel::counted);
    reveal(AppModel::followed);
    reveal(AppModel::serviced);
    reveal(AppModel::polling_login);
    let place = (sound.position_ms + app.state.config.lyric_offset_ms) as u64;
    assert(crate::event::lyric_place(sound.position_ms, app.state.config.lyric_offset_ms) == place);
    crate::model::the_line_that_is_sung_has_begun(app.state.player.lyric.lines, place, i);
}

// ---------------------------------------------------------------------------
// The queue
// ---------------------------------------------------------------------------
/// The selected song goes behind the others, or right behind the one whose turn it is; no other song
/// moves out of its order and what plays goes on.
pub proof fn songs_are_queued_where_they_belong(app: AppModel)
    requires
        app.wf(),
        app.state.selected_song() is Some,
        app.state.player.queue.items.len() > 0,
        app.state.player.queue.items.len() < usize::MAX,
    ensures
        ({
            let queue = app.state.player.queue;
            let song = app.state.selected_song()->0;
            let at = queue.cursor->0 as int;
            let behind = app.queueing(false).state.player;
            let next = app.queueing(true).state.player;
            &&& behind.queue.items == queue.items.push(song)
            &&& behind.queue.cursor == queue.cursor
            &&& next.queue.items[at + 1] == song
            &&& next.queue.items == queue.items.take(at + 1).push(song) + queue.items.skip(at + 1)
            &&& next.queue.cursor == queue.cursor
            &&& behind.current == app.state.player.current
            &&& next.current == app.state.player.current
        }),
        app.queueing(false).orders == app.orders,
        app.queueing(true).orders == app.orders,
{
    lemma_small_steps();
    reveal(AppModel::wf);
    reveal(AppModel::queueing);
    reveal(AppModel::queueing_song);
    let queue = app.state.player.queue;
    let song = app.state.selected_song()->0;
    let at = queue.cursor->0 as int;
    assert(queue.items.insert(at + 1, song) =~= queue.items.take(at + 1).push(song)
        + queue.items.skip(at + 1));
}

/// All songs of the list go behind the queue, in their order.
pub proof fn whole_lists_are_queued_in_order(app: AppModel)
    requires
        app.state.focused_songs() is Some,
        app.state.focused_songs()->0.songs.len() > 0,
    ensures
        app.queueing_all().state.player.queue.items
            == app.state.player.queue.items + app.state.focused_songs()->0.songs,
        app.queueing_all().state.player.current == app.state.player.current,
{
    lemma_small_steps();
    reveal(AppModel::queueing_all);
}

/// Removing takes out the song that is selected in the queue and no other; the sound stops only where
/// that is the song that plays. Emptying the queue, once confirmed, stops it in any case.
pub proof fn songs_are_taken_out_of_the_queue(app: AppModel)
    requires
        app.state.screen.focus == Focus::Queue,
        app.state.player.queue_cursor is Some,
        app.state.player.queue_cursor->0 < app.state.player.queue.items.len(),
    ensures
        ({
            let items = app.state.player.queue.items;
            let row = app.state.player.queue_cursor->0 as int;
            let after = app.unqueueing();
            &&& after.state.player.queue.items == items.take(row) + items.skip(row + 1)
            &&& (app.state.player.current matches Some(song) && song.hash == items[row].hash)
                ==> after.orders == app.orders.push(OrderModel::StopSound)
                && after.state.player.current is None
            &&& !(app.state.player.current matches Some(song) && song.hash == items[row].hash)
                ==> after.orders == app.orders && after.state.player.current
                == app.state.player.current
        }),
        app.confirmed(ConfirmAction::ClearQueue).state.player.queue.items.len() == 0,
        app.confirmed(ConfirmAction::ClearQueue).orders == app.orders.push(OrderModel::StopSound),
        app.confirmed(ConfirmAction::ClearQueue).state.player.current is None,
{
    lemma_small_steps();
    reveal(AppModel::unqueueing);
    reveal(AppModel::unqueueing_at);
    reveal(AppModel::confirmed);
    reveal(AppModel::emptying_queue);
    let items = app.state.player.queue.items;
    let row = app.state.player.queue_cursor->0 as int;
    assert(items.remove(row) =~= items.take(row) + items.skip(row + 1));
}

// ---------------------------------------------------------------------------
// The services
// ---------------------------------------------------------------------------
/// Another service is used with its own address, login and device print; what the old one had is kept
/// for it.
pub proof fn services_bring_their_own_login(app: AppModel, kind: SourceKind)
    requires
        kind != app.state.config.sources.active,
    ensures
        ({
            let after = app.using_source(kind);
            let config = app.state.config;
            &&& after.state.config.sources.active == kind
            &&& after.state.config.api_base == config.sources.profile(kind).api_base
            &&& after.state.config.cookie == config.sources.profile(kind).cookie
            &&& after.state.config.dfid == config.sources.profile(kind).device_id
            &&& after.state.config.sources.profile(config.sources.active).cookie == config.cookie
            &&& after.state.config.sources.profile(config.sources.active).device_id == config.dfid
            &&& after.orders == app.orders.push(OrderModel::SaveConfig).push(
                OrderModel::RebuildClient { kind },
            )
            &&& after.state.player == app.state.player
        }),
{
    lemma_small_steps();
    reveal(AppModel::using_source);
}

} // verus!
