//! The play queue: which songs are to be played, which of them is playing, and what comes next.
use vstd::prelude::*;
use crate::model::{Song, SongModel};

verus! {

/// In which order the queue is played.
#[derive(Debug, Clone, Copy, PartialEq, Eq, Structural)]
pub enum PlaybackMode {
    /// From the first to the last, then stop.
    Sequential,
    /// From the first to the last, over and over.
    RepeatAll,
    /// One song over and over.
    RepeatOne,
    /// In no order.
    Shuffle,
}

impl Default for PlaybackMode {
    fn default() -> (r: Self)
        ensures
            r == PlaybackMode::Sequential,
    {
        PlaybackMode::Sequential
    }
}

/// The modes in the order in which one follows the other.
pub const PLAYBACK_MODES: [PlaybackMode; 4] = [
    PlaybackMode::Sequential,
    PlaybackMode::RepeatAll,
    PlaybackMode::RepeatOne,
    PlaybackMode::Shuffle,
];

impl PlaybackMode {
    /// The mode that follows a mode.
    pub open spec fn following(self) -> PlaybackMode {
        match self {
            PlaybackMode::Sequential => PlaybackMode::RepeatAll,
            PlaybackMode::RepeatAll => PlaybackMode::RepeatOne,
            PlaybackMode::RepeatOne => PlaybackMode::Shuffle,
            PlaybackMode::Shuffle => PlaybackMode::Sequential,
        }
    }

    /// The mode that follows this one.
    pub fn next(self) -> (r: PlaybackMode)
        ensures
            r == self.following(),
    {
        match self {
            PlaybackMode::Sequential => PlaybackMode::RepeatAll,
            PlaybackMode::RepeatAll => PlaybackMode::RepeatOne,
            PlaybackMode::RepeatOne => PlaybackMode::Shuffle,
            PlaybackMode::Shuffle => PlaybackMode::Sequential,
        }
    }

    /// The name of a mode.
    pub open spec fn label_text(self) -> Seq<char> {
        match self {
            PlaybackMode::Sequential => "顺序"@,
            PlaybackMode::RepeatAll => "列表循环"@,
            PlaybackMode::RepeatOne => "单曲循环"@,
            PlaybackMode::Shuffle => "随机"@,
        }
    }

    /// The name of this mode.
    pub fn label(self) -> (r: &'static str)
        ensures
            r@ == self.label_text(),
    {
        match self {
            PlaybackMode::Sequential => "顺序",
            PlaybackMode::RepeatAll => "列表循环",
            PlaybackMode::RepeatOne => "单曲循环",
            PlaybackMode::Shuffle => "随机",
        }
    }
}

/// Four steps lead through all modes and back, in the order of [`PLAYBACK_MODES`].
pub proof fn modes_go_round(mode: PlaybackMode, i: int)
    requires
        0 <= i < 4,
    ensures
        mode.following().following().following().following() == mode,
        PLAYBACK_MODES@[i].following() == PLAYBACK_MODES@[(i + 1) % 4],
{
}

// ---------------------------------------------------------------------------
// Chance
// ---------------------------------------------------------------------------
/// `RandomState::new`: a hasher's keys, which chance gives. Nothing is said of them.
pub assume_specification[ std::collections::hash_map::RandomState::new ]() -> (r:
    std::collections::hash_map::RandomState);

/// `BuildHasher::hash_one` of one fixed value: a number that rests on the hasher's keys. Nothing is
/// said of it.
#[verifier::external_body]
fn hash_of_nothing(keys: &std::collections::hash_map::RandomState) -> u64 {
    std::hash::BuildHasher::hash_one(keys, 0u8)
}

/// A number below `bound`, by chance.
pub fn random_below(bound: usize) -> (r: usize)
    requires
        bound > 0,
    ensures
        r < bound,
{
    let keys = std::collections::hash_map::RandomState::new();
    (hash_of_nothing(&keys) % (bound as u64)) as usize
}

// ---------------------------------------------------------------------------
// The queue
// ---------------------------------------------------------------------------
/// The play queue.
#[derive(Debug)]
pub struct PlayQueue {
    items: Vec<Song>,
    /// `None` before anything is played.
    cursor: Option<usize>,
    mode: PlaybackMode,
}

/// The play queue: its songs, the place of the song that is playing, and the mode.
#[verifier::ext_equal]
pub struct QueueModel {
    pub items: Seq<SongModel>,
    pub cursor: Option<usize>,
    pub mode: PlaybackMode,
}

impl View for PlayQueue {
    type V = QueueModel;

    closed spec fn view(&self) -> QueueModel {
        QueueModel { items: self.items.deep_view(), cursor: self.cursor, mode: self.mode }
    }
}

/// The place from which to go on: that of the song that is playing, or the first.
pub open spec fn place(queue: QueueModel) -> int {
    match queue.cursor {
        Some(index) => index as int,
        None => 0,
    }
}

/// The place that comes next, when `draw` is what chance offers. A song that has ended is repeated
/// where one song is repeated, and in sequence the queue ends behind the last song; the user's wish
/// for another song goes on in either case. Chance never stays in place while there is a choice.
pub open spec fn place_after(queue: QueueModel, by_user: bool, draw: int) -> Option<int> {
    let current = place(queue);
    let total = queue.items.len() as int;
    if total == 0 {
        None
    } else {
        match queue.mode {
            PlaybackMode::Shuffle => Some(
                if total == 1 {
                    0
                } else if draw != current {
                    draw
                } else if draw + 1 == total {
                    0
                } else {
                    draw + 1
                },
            ),
            PlaybackMode::RepeatOne if !by_user => Some(current),
            PlaybackMode::Sequential if !by_user && current + 1 >= total => None,
            _ => Some(
                if current + 1 >= total {
                    0
                } else {
                    current + 1
                },
            ),
        }
    }
}

/// The place that comes before, when `draw` is what chance offers.
pub open spec fn place_before(queue: QueueModel, draw: int) -> Option<int> {
    let total = queue.items.len() as int;
    if total == 0 {
        None
    } else if queue.mode == PlaybackMode::Shuffle {
        Some(draw)
    } else if place(queue) == 0 {
        Some(total - 1)
    } else {
        Some(place(queue) - 1)
    }
}

/// The queue moved to `target`; it stays where it is at the end of the sequence, and an empty queue
/// has no place.
pub open spec fn moved(queue: QueueModel, target: Option<int>) -> QueueModel {
    match target {
        Some(index) => QueueModel { cursor: Some(index as usize), ..queue },
        None => if queue.items.len() == 0 {
            QueueModel { cursor: None, ..queue }
        } else {
            queue
        },
    }
}

impl QueueModel {
    /// The place of the song that is playing is one of the queue, and a queue with songs has one.
    pub open spec fn wf(self) -> bool {
        match self.cursor {
            Some(index) => index < self.items.len(),
            None => self.items.len() == 0,
        }
    }

    /// The song that is playing.
    pub open spec fn playing(self) -> Option<SongModel> {
        match self.cursor {
            Some(index) if index < self.items.len() => Some(self.items[index as int]),
            _ => None,
        }
    }

    /// The queue without its songs.
    pub open spec fn emptied(self) -> QueueModel {
        QueueModel { items: Seq::empty(), cursor: None, ..self }
    }

    /// The queue with other songs, of which the one at `index` plays, or the last.
    pub open spec fn replaced(self, songs: Seq<SongModel>, index: usize) -> QueueModel {
        if songs.len() == 0 {
            self.emptied()
        } else {
            QueueModel {
                items: songs,
                cursor: Some(
                    if index < songs.len() {
                        index
                    } else {
                        (songs.len() - 1) as usize
                    },
                ),
                ..self
            }
        }
    }

    /// The queue with songs behind those it has.
    pub open spec fn extended(self, songs: Seq<SongModel>) -> QueueModel {
        QueueModel {
            items: self.items + songs,
            cursor: match self.cursor {
                Some(index) => Some(index),
                None => if songs.len() == 0 {
                    None
                } else {
                    Some(0)
                },
            },
            ..self
        }
    }

    /// The place behind the song that is playing.
    pub open spec fn next_place(self) -> int {
        match self.cursor {
            Some(index) => if index + 1 <= self.items.len() {
                index + 1
            } else {
                self.items.len() as int
            },
            None => 0,
        }
    }

    /// The queue without the song at `index`; the song that is playing stays the same unless it is
    /// the one that goes, whose place the next song takes, or the last.
    pub open spec fn without(self, index: int) -> QueueModel {
        let items = self.items.remove(index);
        QueueModel {
            items,
            cursor: match self.cursor {
                None => None,
                Some(cursor) => if items.len() == 0 {
                    None
                } else if cursor > index {
                    Some((cursor - 1) as usize)
                } else if cursor >= items.len() {
                    Some((items.len() - 1) as usize)
                } else {
                    Some(cursor)
                },
            },
            ..self
        }
    }
}

impl PlayQueue {
    /// An empty queue.
    pub fn new(mode: PlaybackMode) -> (r: PlayQueue)
        ensures
            r@ == (QueueModel { items: Seq::empty(), cursor: None, mode }),
            r@.wf(),
    {
        let r = PlayQueue { items: Vec::new(), cursor: None, mode };
        proof {
            assert(r@.items =~= Seq::<SongModel>::empty());
        }
        r
    }

    /// The songs.
    pub fn items(&self) -> (r: &[Song])
        ensures
            r.deep_view() == self@.items,
    {
        self.items.as_slice()
    }

    /// How many songs there are.
    pub fn len(&self) -> (r: usize)
        ensures
            r == self@.items.len(),
    {
        self.items.len()
    }

    /// Whether there is no song.
    pub fn is_empty(&self) -> (r: bool)
        ensures
            r == (self@.items.len() == 0),
    {
        self.items.is_empty()
    }

    /// The place of the song that is playing.
    pub fn cursor(&self) -> (r: Option<usize>)
        ensures
            r == self@.cursor,
    {
        self.cursor
    }

    /// The mode.
    pub fn mode(&self) -> (r: PlaybackMode)
        ensures
            r == self@.mode,
    {
        self.mode
    }

    /// Changes to the mode that follows.
    pub fn cycle_mode(&mut self) -> (r: PlaybackMode)
        ensures
            r == old(self)@.mode.following(),
            final(self)@ == (QueueModel { mode: r, ..old(self)@ }),
    {
        self.mode = self.mode.next();
        self.mode
    }

    /// Changes the mode.
    pub fn set_mode(&mut self, mode: PlaybackMode)
        ensures
            final(self)@ == (QueueModel { mode, ..old(self)@ }),
    {
        self.mode = mode;
    }

    /// The song that is playing.
    pub fn current(&self) -> (r: Option<&Song>)
        ensures
            match r {
                Some(song) => self@.playing() == Some(song.deep_view()),
                None => self@.playing() is None,
            },
    {
        match self.cursor {
            Some(index) => if index < self.items.len() {
                Some(&self.items[index])
            } else {
                None
            },
            None => None,
        }
    }

    /// Exchanges the songs, and plays the one at `index`, or the last.
    pub fn replace_with(&mut self, songs: Vec<Song>, index: usize) -> (r: Option<&Song>)
        ensures
            final(self)@ == old(self)@.replaced(songs.deep_view(), index),
            final(self)@.wf(),
            match r {
                Some(song) => final(self)@.playing() == Some(song.deep_view()),
                None => songs@.len() == 0,
            },
    {
        if songs.is_empty() {
            self.items.clear();
            self.cursor = None;
            proof {
                assert(self@.items =~= Seq::<SongModel>::empty());
            }
            return None;
        }
        self.items = songs;
        let last: usize = self.items.len() - 1;
        self.cursor = Some(
            if index < last {
                index
            } else {
                last
            },
        );
        self.current()
    }

    /// Puts a song behind the others, and returns its place. In a queue that has not begun it is the
    /// one to play.
    pub fn append(&mut self, song: Song) -> (r: usize)
        requires
            old(self)@.wf(),
        ensures
            final(self)@.wf(),
            r == old(self)@.items.len(),
            final(self)@.items == old(self)@.items.push(song.deep_view()),
            final(self)@.mode == old(self)@.mode,
            final(self)@.cursor == match old(self)@.cursor {
                Some(index) => Some(index),
                None => Some(r),
            },
    {
        let ghost before = self@.items;
        let ghost added = song.deep_view();
        self.items.push(song);
        proof {
            assert(self@.items =~= before.push(added));
        }
        let index: usize = self.items.len() - 1;
        if self.cursor.is_none() {
            self.cursor = Some(index);
        }
        index
    }

    /// Puts songs behind the others, and returns the place of the last. In a queue that has not
    /// begun the first song is the one to play.
    pub fn append_all(&mut self, songs: Vec<Song>) -> (r: usize)
        requires
            old(self)@.wf(),
        ensures
            final(self)@.wf(),
            final(self)@ == old(self)@.extended(songs.deep_view()),
            r == if songs@.len() == 0 {
                old(self)@.items.len() as int
            } else {
                final(self)@.items.len() - 1
            },
    {
        if songs.is_empty() {
            proof {
                assert(self@.items + songs.deep_view() =~= self@.items);
            }
            return self.items.len();
        }
        let ghost before = self@.items;
        let ghost added = songs.deep_view();
        let mut songs = songs;
        self.items.append(&mut songs);
        proof {
            assert(self@.items =~= before + added);
        }
        if self.cursor.is_none() {
            self.cursor = Some(0);
        }
        self.items.len() - 1
    }

    /// Puts a song behind the one that is playing, and returns its place.
    pub fn insert_next(&mut self, song: Song) -> (r: usize)
        requires
            old(self)@.wf(),
        ensures
            final(self)@.wf(),
            r == old(self)@.next_place(),
            final(self)@.items == old(self)@.items.insert(r as int, song.deep_view()),
            final(self)@.mode == old(self)@.mode,
            final(self)@.cursor == match old(self)@.cursor {
                Some(index) => Some(index),
                None => Some(r),
            },
    {
        let count: usize = self.items.len();
        let position: usize = match self.cursor {
            Some(index) => if index < count {
                index + 1
            } else {
                count
            },
            None => 0,
        };
        let ghost before = self@.items;
        let ghost added = song.deep_view();
        self.items.insert(position, song);
        proof {
            assert(self@.items =~= before.insert(position as int, added));
        }
        if self.cursor.is_none() {
            self.cursor = Some(position);
        }
        position
    }

    /// Takes the song at `index` out.
    pub fn remove(&mut self, index: usize) -> (r: Option<Song>)
        requires
            old(self)@.wf(),
        ensures
            final(self)@.wf(),
            match r {
                Some(song) => index < old(self)@.items.len() && song.deep_view()
                    == old(self)@.items[index as int] && final(self)@ == old(self)@.without(
                    index as int,
                ),
                None => index >= old(self)@.items.len() && final(self)@ == old(self)@,
            },
    {
        if index >= self.items.len() {
            return None;
        }
        let ghost before = self@.items;
        let removed = self.items.remove(index);
        proof {
            assert(self@.items =~= before.remove(index as int));
        }
        let count: usize = self.items.len();
        self.cursor = match self.cursor {
            None => None,
            Some(cursor) => if count == 0 {
                None
            } else if cursor > index {
                Some(cursor - 1)
            } else if cursor >= count {
                Some(count - 1)
            } else {
                Some(cursor)
            },
        };
        Some(removed)
    }

    /// Takes all songs out.
    pub fn clear(&mut self)
        ensures
            final(self)@ == old(self)@.emptied(),
            final(self)@.wf(),
    {
        self.items.clear();
        self.cursor = None;
        proof {
            assert(self@.items =~= Seq::<SongModel>::empty());
        }
    }

    /// Goes to the song at `index`, if there is one.
    pub fn jump_to(&mut self, index: usize) -> (r: Option<&Song>)
        requires
            old(self)@.wf(),
        ensures
            final(self)@.wf(),
            match r {
                Some(song) => index < old(self)@.items.len() && song.deep_view()
                    == old(self)@.items[index as int] && final(self)@ == (QueueModel {
                    cursor: Some(index),
                    ..old(self)@
                }),
                None => index >= old(self)@.items.len() && final(self)@ == old(self)@,
            },
    {
        if index >= self.items.len() {
            return None;
        }
        self.cursor = Some(index);
        self.current()
    }

    /// Goes to the next song when `draw` is what chance offers, and returns its place; `None` where
    /// the queue has come to its end.
    pub fn advance_with(&mut self, triggered_by_user: bool, draw: usize) -> (r: Option<usize>)
        requires
            old(self)@.wf(),
            old(self)@.items.len() > 0 ==> draw < old(self)@.items.len(),
        ensures
            final(self)@.wf(),
            match r {
                Some(next) => place_after(old(self)@, triggered_by_user, draw as int) == Some(
                    next as int,
                ),
                None => place_after(old(self)@, triggered_by_user, draw as int) is None,
            },
            final(self)@ == moved(
                old(self)@,
                place_after(old(self)@, triggered_by_user, draw as int),
            ),
    {
        if self.items.is_empty() {
            self.cursor = None;
            return None;
        }
        let current: usize = match self.cursor {
            Some(index) => index,
            None => 0,
        };
        let total: usize = self.items.len();
        let next: usize = match self.mode {
            PlaybackMode::Shuffle => if total == 1 {
                0
            } else if draw == current {
                if draw + 1 == total {
                    0
                } else {
                    draw + 1
                }
            } else {
                draw
            },
            PlaybackMode::RepeatOne => if !triggered_by_user {
                current
            } else if current + 1 >= total {
                0
            } else {
                current + 1
            },
            PlaybackMode::Sequential => if current + 1 >= total {
                if !triggered_by_user {
                    return None;
                }
                0
            } else {
                current + 1
            },
            PlaybackMode::RepeatAll => if current + 1 >= total {
                0
            } else {
                current + 1
            },
        };
        self.cursor = Some(next);
        Some(next)
    }

    /// Goes to the next song, and returns its place; `None` where the queue has come to its end.
    pub fn advance(&mut self, triggered_by_user: bool) -> (r: Option<usize>)
        requires
            old(self)@.wf(),
        ensures
            final(self)@.wf(),
            exists|draw: int|
                #![trigger place_after(old(self)@, triggered_by_user, draw)]
                (old(self)@.items.len() > 0 ==> 0 <= draw < old(self)@.items.len()) && (match r {
                    Some(next) => place_after(old(self)@, triggered_by_user, draw) == Some(
                        next as int,
                    ),
                    None => place_after(old(self)@, triggered_by_user, draw) is None,
                }) && final(self)@ == moved(
                    old(self)@,
                    place_after(old(self)@, triggered_by_user, draw),
                ),
    {
        let draw: usize = if self.items.is_empty() {
            0
        } else {
            random_below(self.items.len())
        };
        let r = self.advance_with(triggered_by_user, draw);
        proof {
            let drawn = place_after(old(self)@, triggered_by_user, draw as int);
        }
        r
    }

    /// Goes to the song before when `draw` is what chance offers, and returns its place.
    pub fn retreat_with(&mut self, draw: usize) -> (r: Option<usize>)
        requires
            old(self)@.wf(),
            old(self)@.items.len() > 0 ==> draw < old(self)@.items.len(),
        ensures
            final(self)@.wf(),
            match r {
                Some(previous) => place_before(old(self)@, draw as int) == Some(previous as int),
                None => place_before(old(self)@, draw as int) is None,
            },
            final(self)@ == moved(old(self)@, place_before(old(self)@, draw as int)),
    {
        if self.items.is_empty() {
            self.cursor = None;
            return None;
        }
        let current: usize = match self.cursor {
            Some(index) => index,
            None => 0,
        };
        let previous: usize = if self.mode == PlaybackMode::Shuffle {
            draw
        } else if current == 0 {
            self.items.len() - 1
        } else {
            current - 1
        };
        self.cursor = Some(previous);
        Some(previous)
    }

    /// Goes to the song before, and returns its place; `None` where the queue is empty.
    pub fn retreat(&mut self) -> (r: Option<usize>)
        requires
            old(self)@.wf(),
        ensures
            final(self)@.wf(),
            exists|draw: int|
                #![trigger place_before(old(self)@, draw)]
                (old(self)@.items.len() > 0 ==> 0 <= draw < old(self)@.items.len()) && (match r {
                    Some(previous) => place_before(old(self)@, draw) == Some(previous as int),
                    None => place_before(old(self)@, draw) is None,
                }) && final(self)@ == moved(old(self)@, place_before(old(self)@, draw)),
    {
        let draw: usize = if self.items.is_empty() {
            0
        } else {
            random_below(self.items.len())
        };
        let r = self.retreat_with(draw);
        proof {
            let drawn = place_before(old(self)@, draw as int);
        }
        r
    }
}

// ---------------------------------------------------------------------------
// What holds of the queue as a whole
// ---------------------------------------------------------------------------
/// Removing another song than the one that is playing leaves that song playing.
pub proof fn removing_keeps_the_song(queue: QueueModel, index: int)
    requires
        queue.wf(),
        0 <= index < queue.items.len(),
        queue.cursor matches Some(cursor) && cursor != index,
    ensures
        queue.without(index).playing() == queue.playing(),
        queue.without(index).wf(),
{
}

/// Putting songs in, at the end or behind the song that is playing, leaves that song playing.
pub proof fn adding_keeps_the_song(
    queue: QueueModel,
    song: SongModel,
    songs: Seq<SongModel>,
)
    requires
        queue.wf(),
        queue.cursor is Some,
    ensures
        queue.extended(songs).playing() == queue.playing(),
        (QueueModel {
            items: queue.items.insert(queue.next_place(), song),
            ..queue
        }).playing() == queue.playing(),
{
}

/// In every mode but shuffle, going back undoes going on when the user goes on.
pub proof fn going_back_undoes_going_on(queue: QueueModel, first: int, second: int)
    requires
        queue.wf(),
        queue.items.len() > 0,
        queue.mode != PlaybackMode::Shuffle,
        queue.items.len() <= usize::MAX,
    ensures
        place_after(queue, true, first) is Some,
        place_before(moved(queue, place_after(queue, true, first)), second) == Some(place(queue)),
{
}

/// With more than one song, shuffling always goes to another song of the queue.
pub proof fn shuffling_changes_the_song(queue: QueueModel, by_user: bool, draw: int)
    requires
        queue.wf(),
        queue.mode == PlaybackMode::Shuffle,
        queue.items.len() > 1,
        0 <= draw < queue.items.len(),
    ensures
        place_after(queue, by_user, draw) matches Some(next) && 0 <= next < queue.items.len() && next
            != place(queue),
{
}

/// The queue comes to its end in one case only: in sequence, behind the last song, unasked.
pub proof fn only_a_sequence_ends(queue: QueueModel, by_user: bool, draw: int)
    requires
        queue.wf(),
        queue.items.len() > 0,
    ensures
        place_after(queue, by_user, draw) is None <==> queue.mode == PlaybackMode::Sequential
            && !by_user && place(queue) + 1 >= queue.items.len(),
{
}

/// Going on leads to the place behind, going back to the place in front, round the ends; the song that
/// has ended is repeated where one song is, and then only unasked.
pub proof fn songs_follow_one_another(queue: QueueModel, by_user: bool, draw: int)
    requires
        queue.wf(),
        queue.items.len() > 0,
        queue.mode != PlaybackMode::Shuffle,
    ensures
        ({
            let at = queue.cursor->0 as int;
            let last = queue.items.len() - 1;
            &&& (by_user || queue.mode != PlaybackMode::RepeatOne) && at < last ==> place_after(
                queue,
                by_user,
                draw,
            ) == Some(at + 1)
            &&& (by_user || queue.mode == PlaybackMode::RepeatAll) && at == last ==> place_after(
                queue,
                by_user,
                draw,
            ) == Some(0int)
            &&& !by_user && queue.mode == PlaybackMode::RepeatOne ==> place_after(
                queue,
                by_user,
                draw,
            ) == Some(at)
            &&& at > 0 ==> place_before(queue, draw) == Some(at - 1)
            &&& at == 0 ==> place_before(queue, draw) == Some(last)
        }),
{
}

/// Other songs take the place of all that were there, and the wanted one, or the last, is the one to
/// play.
pub proof fn replaced_queues_hold_the_new_songs(
    queue: QueueModel,
    songs: Seq<SongModel>,
    index: usize,
)
    requires
        0 < songs.len() <= usize::MAX,
    ensures
        queue.replaced(songs, index).items == songs,
        index < songs.len() ==> queue.replaced(songs, index).playing() == Some(songs[index as int]),
        index >= songs.len() ==> queue.replaced(songs, index).playing() == Some(songs.last()),
        queue.replaced(songs, index).mode == queue.mode,
        queue.extended(songs).items == queue.items + songs,
        queue.emptied().items.len() == 0 && queue.emptied().cursor is None,
{
}

} // verus!
