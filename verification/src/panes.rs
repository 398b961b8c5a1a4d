//! The parts of the pages: lists with a selection, the help, pickers, dialogs and menus.
use vstd::prelude::*;
use crate::input::{InputModel, TextInput};
use crate::model::{
    Artist, ArtistModel, Lyric, LyricLineModel, Playlist, PlaylistModel, RankBoard, RankBoardModel,
    Song, SongModel,
};
use crate::settings;
use crate::source::SourceKind;
use crate::tab::Rect;
use crate::text;

verus! {

// ---------------------------------------------------------------------------
// Loading
// ---------------------------------------------------------------------------
/// Whether something is being loaded, and why it could not be loaded the last time.
#[derive(Debug)]
pub struct LoadState {
    loading: bool,
    error: Option<String>,
}

pub struct LoadModel {
    pub loading: bool,
    pub error: Option<Seq<char>>,
}

impl View for LoadState {
    type V = LoadModel;

    closed spec fn view(&self) -> LoadModel {
        LoadModel { loading: self.loading, error: self.error.deep_view() }
    }
}

/// Nothing is being loaded and nothing has failed.
pub open spec fn idle() -> LoadModel {
    LoadModel { loading: false, error: None }
}

/// Something is being loaded.
pub open spec fn busy() -> LoadModel {
    LoadModel { loading: true, error: None }
}

impl Default for LoadState {
    fn default() -> (r: Self)
        ensures
            r@ == idle(),
    {
        LoadState { loading: false, error: None }
    }
}

impl LoadState {
    /// Loading begins; the old failure is forgotten.
    pub fn begin(&mut self)
        ensures
            final(self)@ == busy(),
    {
        self.loading = true;
        self.error = None;
    }

    /// Loading has succeeded.
    pub fn succeed(&mut self)
        ensures
            final(self)@ == idle(),
    {
        self.loading = false;
        self.error = None;
    }

    /// Loading has failed; the reason is kept.
    pub fn fail(&mut self, reason: &str)
        ensures
            final(self)@ == (LoadModel { loading: false, error: Some(reason@) }),
    {
        self.loading = false;
        self.error = Some(reason.to_owned());
    }

    /// Whether something is being loaded.
    pub fn is_loading(&self) -> (r: bool)
        ensures
            r == self@.loading,
    {
        self.loading
    }

    /// Why it could not be loaded the last time.
    pub fn error(&self) -> (r: Option<&str>)
        ensures
            match r {
                Some(reason) => self@.error == Some(reason@),
                None => self@.error is None,
            },
    {
        match &self.error {
            Some(reason) => Some(reason.as_str()),
            None => None,
        }
    }
}

// ---------------------------------------------------------------------------
// Selections
// ---------------------------------------------------------------------------
/// Which row of a list is selected.
#[derive(Debug, Clone, Copy, PartialEq, Eq, Structural)]
pub struct ListState {
    pub selected: Option<usize>,
}

impl Default for ListState {
    fn default() -> (r: Self)
        ensures
            r.selected is None,
    {
        ListState { selected: None }
    }
}

impl ListState {
    /// The selected row.
    pub fn selected(&self) -> (r: Option<usize>)
        ensures
            r == self.selected,
    {
        self.selected
    }

    /// Selects a row, or none.
    pub fn select(&mut self, index: Option<usize>)
        ensures
            final(self).selected == index,
    {
        self.selected = index;
    }
}

/// A number brought between two others.
pub open spec fn within(n: int, low: int, high: int) -> int {
    if n < low {
        low
    } else if n > high {
        high
    } else {
        n
    }
}

/// The row selected after moving by `delta` in a list of `len` rows: within the list; where none was
/// selected, the first or the last.
pub open spec fn moved_selection(selected: Option<usize>, len: int, delta: int) -> Option<usize> {
    if len == 0 {
        None
    } else {
        Some(
            match selected {
                None => if delta >= 0 {
                    0
                } else {
                    (len - 1) as usize
                },
                Some(current) => within(current + delta, 0, len - 1) as usize,
            },
        )
    }
}

/// Moves the selection of a list of `len` rows, keeping it within the list.
pub fn move_selection(state: &mut ListState, len: usize, delta: isize)
    ensures
        final(state).selected == moved_selection(old(state).selected, len as int, delta as int),
{
    if len == 0 {
        state.select(None);
        return ;
    }
    let next: usize = match state.selected() {
        None => if delta >= 0 {
            0
        } else {
            len - 1
        },
        Some(current) => {
            let wanted: i128 = current as i128 + delta as i128;
            if wanted < 0 {
                0
            } else if wanted > (len - 1) as i128 {
                len - 1
            } else {
                wanted as usize
            }
        },
    };
    state.select(Some(next));
}

/// The first row of a list of `len` rows.
pub open spec fn first_row(len: int) -> Option<usize> {
    if len > 0 {
        Some(0)
    } else {
        None
    }
}

/// The last row of a list of `len` rows.
pub open spec fn last_row(len: int) -> Option<usize> {
    if len > 0 {
        Some((len - 1) as usize)
    } else {
        None
    }
}

/// Selects the first row.
pub fn select_first(state: &mut ListState, len: usize)
    ensures
        final(state).selected == first_row(len as int),
{
    state.select(
        if len > 0 {
            Some(0)
        } else {
            None
        },
    );
}

/// Selects the last row.
pub fn select_last(state: &mut ListState, len: usize)
    ensures
        final(state).selected == last_row(len as int),
{
    state.select(
        if len > 0 {
            Some(len - 1)
        } else {
            None
        },
    );
}

/// The row `index`, or the last where there are fewer.
pub open spec fn row_or_last(index: int, len: int) -> Option<usize> {
    if len == 0 {
        None
    } else if index < len {
        Some(index as usize)
    } else {
        Some((len - 1) as usize)
    }
}

/// The row `index`, or the last where there are fewer.
pub fn clamp_row(index: usize, len: usize) -> (r: Option<usize>)
    ensures
        r == row_or_last(index as int, len as int),
{
    if len == 0 {
        None
    } else if index < len {
        Some(index)
    } else {
        Some(len - 1)
    }
}

/// However a selection is moved, it stays within the list.
pub proof fn selections_stay_in_the_list(selected: Option<usize>, len: int, delta: int, index: int)
    requires
        0 <= len <= usize::MAX,
        0 <= index,
    ensures
        moved_selection(selected, len, delta) matches Some(row) ==> row < len,
        row_or_last(index, len) matches Some(row) ==> row < len,
        first_row(len) matches Some(row) ==> row < len,
        last_row(len) matches Some(row) ==> row < len,
{
}

// ---------------------------------------------------------------------------
// Lists of entries
// ---------------------------------------------------------------------------
/// A list of playlists, artists or charts.
#[derive(Debug)]
pub struct EntryList<T> {
    pub entries: Vec<T>,
    pub cursor: ListState,
    pub load: LoadState,
}

pub struct EntryListModel<V> {
    pub entries: Seq<V>,
    pub selected: Option<usize>,
    pub load: LoadModel,
}

impl<T: DeepView> DeepView for EntryList<T> {
    type V = EntryListModel<T::V>;

    open spec fn deep_view(&self) -> EntryListModel<T::V> {
        EntryListModel {
            entries: self.entries.deep_view(),
            selected: self.cursor.selected,
            load: self.load@,
        }
    }
}

impl<V> EntryListModel<V> {
    /// A list in which nothing has been loaded.
    pub open spec fn unloaded() -> EntryListModel<V> {
        EntryListModel { entries: Seq::empty(), selected: None, load: idle() }
    }

    /// The list with other entries, of which the first is selected.
    pub open spec fn replaced(self, entries: Seq<V>) -> EntryListModel<V> {
        EntryListModel { entries, selected: first_row(entries.len() as int), load: idle() }
    }

    /// The selected entry.
    pub open spec fn chosen(self) -> Option<V> {
        match self.selected {
            Some(index) if index < self.entries.len() => Some(self.entries[index as int]),
            _ => None,
        }
    }
}

impl<T: DeepView> Default for EntryList<T> {
    fn default() -> (r: Self)
        ensures
            r.deep_view() == EntryListModel::<T::V>::unloaded(),
    {
        let r = EntryList {
            entries: Vec::new(),
            cursor: ListState::default(),
            load: LoadState::default(),
        };
        proof {
            assert(r.entries.deep_view() =~= Seq::<T::V>::empty());
        }
        r
    }
}

impl<T: DeepView> EntryList<T> {
    /// Whether there is no entry.
    pub fn is_empty(&self) -> (r: bool)
        ensures
            r == (self.deep_view().entries.len() == 0),
    {
        self.entries.is_empty()
    }

    /// How many entries there are.
    pub fn len(&self) -> (r: usize)
        ensures
            r == self.deep_view().entries.len(),
    {
        self.entries.len()
    }

    /// Selects a row, or the last where there are fewer.
    pub fn select(&mut self, index: usize)
        ensures
            final(self).deep_view() == (EntryListModel {
                selected: row_or_last(index as int, old(self).deep_view().entries.len() as int),
                ..old(self).deep_view()
            }),
            final(self).entries == old(self).entries,
            final(self).load == old(self).load,
    {
        let row = clamp_row(index, self.entries.len());
        self.cursor.select(row);
    }

    /// The selected row.
    pub fn selected_index(&self) -> (r: Option<usize>)
        ensures
            match r {
                Some(index) => self.deep_view().selected == Some(index) && index
                    < self.entries@.len(),
                None => self.deep_view().chosen() is None,
            },
    {
        match self.cursor.selected() {
            Some(index) => if index < self.entries.len() {
                Some(index)
            } else {
                None
            },
            None => None,
        }
    }

    /// The selected entry.
    pub fn selected(&self) -> (r: Option<&T>)
        ensures
            match r {
                Some(entry) => self.deep_view().chosen() == Some(entry.deep_view()),
                None => self.deep_view().chosen() is None,
            },
    {
        match self.selected_index() {
            Some(index) => Some(&self.entries[index]),
            None => None,
        }
    }

    /// Exchanges the entries and selects the first.
    pub fn replace(&mut self, entries: Vec<T>)
        ensures
            final(self).deep_view() == old(self).deep_view().replaced(entries.deep_view()),
    {
        self.entries = entries;
        self.load.succeed();
        select_first(&mut self.cursor, self.entries.len());
    }

    /// Moves the selection.
    pub fn move_by(&mut self, delta: isize)
        ensures
            final(self).deep_view() == (EntryListModel {
                selected: moved_selection(
                    old(self).deep_view().selected,
                    old(self).deep_view().entries.len() as int,
                    delta as int,
                ),
                ..old(self).deep_view()
            }),
    {
        move_selection(&mut self.cursor, self.entries.len(), delta);
    }

    /// Selects the first entry.
    pub fn select_first(&mut self)
        ensures
            final(self).deep_view() == (EntryListModel {
                selected: first_row(old(self).deep_view().entries.len() as int),
                ..old(self).deep_view()
            }),
    {
        select_first(&mut self.cursor, self.entries.len());
    }

    /// Selects the last entry.
    pub fn select_last(&mut self)
        ensures
            final(self).deep_view() == (EntryListModel {
                selected: last_row(old(self).deep_view().entries.len() as int),
                ..old(self).deep_view()
            }),
    {
        select_last(&mut self.cursor, self.entries.len());
    }
}

// ---------------------------------------------------------------------------
// Lists of songs
// ---------------------------------------------------------------------------
/// A list of songs.
#[derive(Debug)]
pub struct SongList {
    pub title: String,
    pub songs: Vec<Song>,
    pub cursor: ListState,
    pub load: LoadState,
    /// What to say where there is no song.
    pub empty_hint: String,
}

pub struct SongListModel {
    pub title: Seq<char>,
    pub songs: Seq<SongModel>,
    pub selected: Option<usize>,
    pub load: LoadModel,
    pub empty_hint: Seq<char>,
}

impl DeepView for SongList {
    type V = SongListModel;

    open spec fn deep_view(&self) -> SongListModel {
        SongListModel {
            title: self.title@,
            songs: self.songs.deep_view(),
            selected: self.cursor.selected,
            load: self.load@,
            empty_hint: self.empty_hint@,
        }
    }
}

/// The songs from the last to the first, where `descending` says so.
pub open spec fn arranged(songs: Seq<SongModel>, descending: bool) -> Seq<SongModel> {
    if descending {
        songs.reverse()
    } else {
        songs
    }
}

impl SongListModel {
    /// The selected row is one of the list.
    pub open spec fn wf(self) -> bool {
        self.selected matches Some(index) ==> index < self.songs.len()
    }

    /// A list in which nothing has been loaded.
    pub open spec fn unloaded(empty_hint: Seq<char>) -> SongListModel {
        SongListModel {
            title: Seq::empty(),
            songs: Seq::empty(),
            selected: None,
            load: idle(),
            empty_hint,
        }
    }

    /// The list with another title and other songs, of which the first is selected.
    pub open spec fn replaced(self, title: Seq<char>, songs: Seq<SongModel>) -> SongListModel {
        SongListModel {
            title,
            songs,
            selected: first_row(songs.len() as int),
            load: idle(),
            ..self
        }
    }

    /// The selected song.
    pub open spec fn chosen(self) -> Option<SongModel> {
        match self.selected {
            Some(index) if index < self.songs.len() => Some(self.songs[index as int]),
            _ => None,
        }
    }

    /// The list turned round, with the same song selected.
    pub open spec fn turned(self) -> SongListModel {
        SongListModel {
            songs: self.songs.reverse(),
            selected: match self.selected {
                Some(index) => if self.songs.len() == 0 {
                    None
                } else {
                    Some((self.songs.len() - 1 - index) as usize)
                },
                None => None,
            },
            ..self
        }
    }
}

/// The songs from the last to the first.
fn reversed(songs: Vec<Song>) -> (r: Vec<Song>)
    ensures
        r.deep_view() == songs.deep_view().reverse(),
{
    let ghost all = songs.deep_view();
    let mut rest = songs;
    let mut out: Vec<Song> = Vec::new();
    proof {
        assert(out.deep_view() =~= all.reverse().take(0));
    }
    while rest.len() > 0
        invariant
            rest@.len() + out@.len() == all.len(),
            rest.deep_view() == all.take(rest@.len() as int),
            out.deep_view() == all.reverse().take(out@.len() as int),
        decreases rest@.len(),
    {
        let ghost before = rest.deep_view();
        let ghost done = out.deep_view();
        let ghost count = rest@.len() as int;
        if let Some(song) = rest.pop() {
            proof {
                assert(rest.deep_view() =~= before.take(count - 1));
                assert(before.take(count - 1) =~= all.take(count - 1));
                assert(song.deep_view() == before[count - 1]);
            }
            let ghost added = song.deep_view();
            out.push(song);
            proof {
                assert(out.deep_view() =~= done.push(added));
                assert(all.reverse()[done.len() as int] == all[count - 1]);
                assert(all.reverse().take(out@.len() as int) =~= all.reverse().take(
                    done.len() as int,
                ).push(all[count - 1]));
            }
        }
    }
    proof {
        assert(all.reverse().take(all.len() as int) =~= all.reverse());
    }
    out
}

impl Default for SongList {
    fn default() -> (r: Self)
        ensures
            r.deep_view() == SongListModel::unloaded(Seq::empty()),
    {
        let r = SongList {
            title: String::new(),
            songs: Vec::new(),
            cursor: ListState::default(),
            load: LoadState::default(),
            empty_hint: String::new(),
        };
        proof {
            assert(r.songs.deep_view() =~= Seq::<SongModel>::empty());
        }
        r
    }
}

impl SongList {
    /// Sets what to say where there is no song.
    pub fn set_empty_hint(&mut self, hint: &str)
        ensures
            final(self).deep_view() == (SongListModel {
                empty_hint: hint@,
                ..old(self).deep_view()
            }),
    {
        self.empty_hint = hint.to_owned();
    }

    /// What to say where there is no song.
    pub fn empty_text(&self) -> (r: &str)
        ensures
            r@ == if self.empty_hint@.len() == 0 {
                "暂无数据"@
            } else {
                self.empty_hint@
            },
    {
        if self.empty_hint.as_str().is_empty() {
            "暂无数据"
        } else {
            self.empty_hint.as_str()
        }
    }

    /// Whether there is no song.
    pub fn is_empty(&self) -> (r: bool)
        ensures
            r == (self.deep_view().songs.len() == 0),
    {
        self.songs.is_empty()
    }

    /// How many songs there are.
    pub fn len(&self) -> (r: usize)
        ensures
            r == self.deep_view().songs.len(),
    {
        self.songs.len()
    }

    /// Turns the list round, keeping the same song selected.
    pub fn toggle_sort(&mut self)
        requires
            old(self).deep_view().wf(),
        ensures
            final(self).deep_view() == old(self).deep_view().turned(),
            final(self).deep_view().wf(),
    {
        let mut songs: Vec<Song> = Vec::new();
        std::mem::swap(&mut songs, &mut self.songs);
        let len: usize = songs.len();
        self.songs = reversed(songs);
        if len == 0 {
            self.cursor.select(None);
            return ;
        }
        if let Some(index) = self.cursor.selected() {
            self.cursor.select(Some(len - 1 - index));
        }
    }

    /// Exchanges title and songs, arranged as `sort_descending` says.
    pub fn set_songs_sorted(&mut self, title: String, songs: Vec<Song>, sort_descending: bool)
        ensures
            final(self).deep_view() == old(self).deep_view().replaced(
                title@,
                arranged(songs.deep_view(), sort_descending),
            ),
            final(self).deep_view().wf(),
    {
        if sort_descending {
            self.replace(title, reversed(songs));
        } else {
            self.replace(title, songs);
        }
    }

    /// Selects a row, or the last where there are fewer.
    pub fn select(&mut self, index: usize)
        ensures
            final(self).deep_view() == (SongListModel {
                selected: row_or_last(index as int, old(self).deep_view().songs.len() as int),
                ..old(self).deep_view()
            }),
    {
        let row = clamp_row(index, self.songs.len());
        self.cursor.select(row);
    }

    /// The selected row.
    pub fn selected_index(&self) -> (r: Option<usize>)
        ensures
            match r {
                Some(index) => self.deep_view().selected == Some(index) && index
                    < self.songs@.len(),
                None => self.deep_view().chosen() is None,
            },
    {
        match self.cursor.selected() {
            Some(index) => if index < self.songs.len() {
                Some(index)
            } else {
                None
            },
            None => None,
        }
    }

    /// The selected song.
    pub fn selected(&self) -> (r: Option<&Song>)
        ensures
            match r {
                Some(song) => self.deep_view().chosen() == Some(song.deep_view()),
                None => self.deep_view().chosen() is None,
            },
    {
        match self.selected_index() {
            Some(index) => Some(&self.songs[index]),
            None => None,
        }
    }

    /// Exchanges title and songs, and selects the first song.
    pub fn replace(&mut self, title: String, songs: Vec<Song>)
        ensures
            final(self).deep_view() == old(self).deep_view().replaced(title@, songs.deep_view()),
            final(self).deep_view().wf(),
    {
        self.title = title;
        self.songs = songs;
        self.load.succeed();
        select_first(&mut self.cursor, self.songs.len());
    }

    /// Moves the selection.
    pub fn move_by(&mut self, delta: isize)
        ensures
            final(self).deep_view() == (SongListModel {
                selected: moved_selection(
                    old(self).deep_view().selected,
                    old(self).deep_view().songs.len() as int,
                    delta as int,
                ),
                ..old(self).deep_view()
            }),
    {
        move_selection(&mut self.cursor, self.songs.len(), delta);
    }

    /// Selects the first song.
    pub fn select_first(&mut self)
        ensures
            final(self).deep_view() == (SongListModel {
                selected: first_row(old(self).deep_view().songs.len() as int),
                ..old(self).deep_view()
            }),
    {
        select_first(&mut self.cursor, self.songs.len());
    }

    /// Selects the last song.
    pub fn select_last(&mut self)
        ensures
            final(self).deep_view() == (SongListModel {
                selected: last_row(old(self).deep_view().songs.len() as int),
                ..old(self).deep_view()
            }),
    {
        select_last(&mut self.cursor, self.songs.len());
    }
}

/// Turning a list round twice leaves it as it was, and turning it round keeps the song selected.
pub proof fn turning_round_keeps_the_song(list: SongListModel)
    requires
        list.wf(),
        list.songs.len() <= usize::MAX,
    ensures
        list.turned().turned() == list,
        list.turned().chosen() == list.chosen(),
        list.turned().wf(),
{
    assert(list.songs.reverse().reverse() =~= list.songs);
}

// ---------------------------------------------------------------------------
// The help
// ---------------------------------------------------------------------------
/// The help, which is scrolled where it does not fit.
#[derive(Debug)]
pub struct HelpPane {
    open: bool,
    /// The line shown first.
    offset: usize,
    /// How many lines were shown last.
    viewport: usize,
}

pub struct HelpModel {
    pub open: bool,
    pub offset: usize,
    pub viewport: usize,
}

impl View for HelpPane {
    type V = HelpModel;

    closed spec fn view(&self) -> HelpModel {
        HelpModel { open: self.open, offset: self.offset, viewport: self.viewport }
    }
}

impl Default for HelpPane {
    fn default() -> (r: Self)
        ensures
            r@ == (HelpModel { open: false, offset: 0, viewport: 0 }),
    {
        HelpPane { open: false, offset: 0, viewport: 0 }
    }
}

/// The line to show first for a wish to begin at `offset`: no further than where the last line
/// stands at the bottom.
pub open spec fn scrolled(offset: int, total: int, viewport: int) -> usize {
    within(
        offset,
        0,
        if total > viewport {
            total - viewport
        } else {
            0
        },
    ) as usize
}

/// The line to show first for a wish to begin at `offset`.
fn clamp_offset(offset: i128, total: usize, viewport: usize) -> (r: usize)
    ensures
        r == scrolled(offset as int, total as int, viewport as int),
        r <= total,
{
    let last: usize = total.saturating_sub(viewport);
    if offset < 0 {
        0
    } else if offset > last as i128 {
        last
    } else {
        offset as usize
    }
}

/// How many lines turning a page moves: one less than are shown, and one at least.
pub open spec fn page_step(viewport: int) -> int {
    if viewport > 2 {
        viewport - 1
    } else {
        1
    }
}

/// The direction of a number.
pub open spec fn sign(n: int) -> int {
    if n > 0 {
        1
    } else if n < 0 {
        -1
    } else {
        0
    }
}

impl HelpPane {
    /// Whether the help is shown.
    pub fn is_open(&self) -> (r: bool)
        ensures
            r == self@.open,
    {
        self.open
    }

    /// Shows the help from its beginning.
    pub fn open(&mut self)
        ensures
            final(self)@ == (HelpModel { open: true, offset: 0, ..old(self)@ }),
    {
        self.open = true;
        self.offset = 0;
    }

    /// Closes the help.
    pub fn close(&mut self)
        ensures
            final(self)@ == (HelpModel { open: false, ..old(self)@ }),
    {
        self.open = false;
    }

    /// Scrolls by `delta` lines.
    pub fn scroll_by(&mut self, delta: isize, total: usize)
        ensures
            final(self)@ == (HelpModel {
                offset: scrolled(
                    old(self)@.offset + delta,
                    total as int,
                    old(self)@.viewport as int,
                ),
                ..old(self)@
            }),
    {
        self.offset = clamp_offset(self.offset as i128 + delta as i128, total, self.viewport);
    }

    /// Turns a page in the given direction.
    pub fn scroll_page(&mut self, direction: isize, total: usize)
        ensures
            final(self)@ == (HelpModel {
                offset: scrolled(
                    old(self)@.offset + page_step(old(self)@.viewport as int) * sign(
                        direction as int,
                    ),
                    total as int,
                    old(self)@.viewport as int,
                ),
                ..old(self)@
            }),
    {
        let step: i128 = if self.viewport > 2 {
            self.viewport as i128 - 1
        } else {
            1
        };
        let ghost whole = page_step(self.viewport as int);
        proof {
            assert(whole * 1 == whole);
            assert(whole * -1 == -whole);
            assert(whole * 0 == 0);
        }
        let wanted: i128 = if direction > 0 {
            self.offset as i128 + step
        } else if direction < 0 {
            self.offset as i128 - step
        } else {
            self.offset as i128
        };
        self.offset = clamp_offset(wanted, total, self.viewport);
    }

    /// Goes to the beginning.
    pub fn scroll_to_top(&mut self)
        ensures
            final(self)@ == (HelpModel { offset: 0, ..old(self)@ }),
    {
        self.offset = 0;
    }

    /// Goes to where the last line stands at the bottom.
    pub fn scroll_to_bottom(&mut self, total: usize)
        ensures
            final(self)@ == (HelpModel {
                offset: if total > old(self)@.viewport {
                    (total - old(self)@.viewport) as usize
                } else {
                    0
                },
                ..old(self)@
            }),
    {
        self.offset = total.saturating_sub(self.viewport);
    }

    /// Takes in how many lines fit, and says which are shown.
    pub fn visible_range(&mut self, total: usize, viewport: usize) -> (r: std::ops::Range<usize>)
        ensures
            final(self)@ == (HelpModel {
                offset: scrolled(old(self)@.offset as int, total as int, viewport as int),
                viewport,
                ..old(self)@
            }),
            r.start == final(self)@.offset,
            r.end == if r.start + viewport < total {
                r.start + viewport
            } else {
                total as int
            },
    {
        self.viewport = viewport;
        self.offset = clamp_offset(self.offset as i128, total, viewport);
        let end: usize = if viewport < total - self.offset {
            self.offset + viewport
        } else {
            total
        };
        self.offset..end
    }
}

/// However the help is scrolled, the lines that are shown fill their place, as far as there are
/// lines.
pub proof fn the_help_fills_its_place(offset: int, total: int, viewport: int)
    requires
        0 <= total <= usize::MAX,
        0 <= viewport,
    ensures
        total >= viewport ==> scrolled(offset, total, viewport) + viewport <= total,
        total < viewport ==> scrolled(offset, total, viewport) == 0,
{
}

// ---------------------------------------------------------------------------
// The connection, lyrics and covers
// ---------------------------------------------------------------------------
/// Whether the server answers.
#[derive(Debug, Clone, Copy, PartialEq, Eq, Structural)]
pub enum Connection {
    /// Nothing has been asked yet.
    Unknown,
    /// The last request was answered.
    Connected,
    /// The last request did not get through.
    Unreachable,
}

impl Default for Connection {
    fn default() -> (r: Self)
        ensures
            r == Connection::Unknown,
    {
        Connection::Unknown
    }
}

impl Connection {
    /// The state of the connection in words.
    pub open spec fn label_text(self) -> Seq<char> {
        match self {
            Connection::Unknown => "未验证"@,
            Connection::Connected => "已连通"@,
            Connection::Unreachable => "未连通"@,
        }
    }

    /// The state of the connection in words.
    pub fn label(self) -> (r: &'static str)
        ensures
            r@ == self.label_text(),
    {
        match self {
            Connection::Unknown => "未验证",
            Connection::Connected => "已连通",
            Connection::Unreachable => "未连通",
        }
    }
}

/// The lyric of the song that is playing.
#[derive(Debug)]
pub struct LyricPane {
    /// The song whose lyric it is.
    pub hash: Option<String>,
    pub lyric: Lyric,
    pub load: LoadState,
    /// The line that is being sung.
    pub active_line: Option<usize>,
}

pub struct LyricPaneModel {
    pub hash: Option<Seq<char>>,
    pub lines: Seq<LyricLineModel>,
    pub load: LoadModel,
    pub active_line: Option<usize>,
}

impl DeepView for LyricPane {
    type V = LyricPaneModel;

    open spec fn deep_view(&self) -> LyricPaneModel {
        LyricPaneModel {
            hash: self.hash.deep_view(),
            lines: self.lyric.deep_view(),
            load: self.load@,
            active_line: self.active_line,
        }
    }
}

/// A pane that waits for the lyric of a song, or of none.
pub open spec fn empty_lyric_pane(hash: Option<Seq<char>>) -> LyricPaneModel {
    LyricPaneModel { hash, lines: Seq::empty(), load: idle(), active_line: None }
}

impl LyricPane {
    /// A pane that waits for the lyric of a song, or of none.
    pub fn for_song(hash: Option<String>) -> (r: LyricPane)
        ensures
            r.deep_view() == empty_lyric_pane(hash.deep_view()),
    {
        let r = LyricPane {
            hash,
            lyric: Lyric { lines: Vec::new() },
            load: LoadState::default(),
            active_line: None,
        };
        proof {
            assert(r.lyric.deep_view() =~= Seq::<LyricLineModel>::empty());
        }
        r
    }
}

// ---------------------------------------------------------------------------
// The pages
// ---------------------------------------------------------------------------
/// The search page: a line to enter and the songs found.
#[derive(Debug)]
pub struct SearchPane {
    pub input: TextInput,
    /// Whether letters go into the line.
    pub editing: bool,
    /// What was searched for last.
    pub submitted: String,
    pub results: SongList,
    /// How many pages have been loaded.
    pub page: u32,
}

pub struct SearchModel {
    pub input: InputModel,
    pub editing: bool,
    pub submitted: Seq<char>,
    pub results: SongListModel,
    pub page: u32,
}

impl DeepView for SearchPane {
    type V = SearchModel;

    open spec fn deep_view(&self) -> SearchModel {
        SearchModel {
            input: self.input@,
            editing: self.editing,
            submitted: self.submitted@,
            results: self.results.deep_view(),
            page: self.page,
        }
    }
}

impl Default for SearchPane {
    fn default() -> (r: Self)
        ensures
            r.deep_view() == (SearchModel {
                input: InputModel { text: Seq::empty(), cursor: 0 },
                editing: false,
                submitted: Seq::empty(),
                results: SongListModel::unloaded(Seq::empty()),
                page: 0,
            }),
    {
        SearchPane {
            input: TextInput::default(),
            editing: false,
            submitted: String::new(),
            results: SongList::default(),
            page: 0,
        }
    }
}

/// The page of public playlists.
#[derive(Debug)]
pub struct PlaylistPane {
    pub list: EntryList<Playlist>,
    pub songs: SongList,
    /// The category; 0 for what is recommended.
    pub category: i64,
    /// The playlist whose songs are shown.
    pub open_playlist: Option<Playlist>,
}

pub struct PlaylistPaneModel {
    pub list: EntryListModel<PlaylistModel>,
    pub songs: SongListModel,
    pub category: i64,
    pub open_playlist: Option<PlaylistModel>,
}

impl DeepView for PlaylistPane {
    type V = PlaylistPaneModel;

    open spec fn deep_view(&self) -> PlaylistPaneModel {
        PlaylistPaneModel {
            list: self.list.deep_view(),
            songs: self.songs.deep_view(),
            category: self.category,
            open_playlist: self.open_playlist.deep_view(),
        }
    }
}

impl Default for PlaylistPane {
    fn default() -> (r: Self)
        ensures
            r.deep_view() == (PlaylistPaneModel {
                list: EntryListModel::unloaded(),
                songs: SongListModel::unloaded(Seq::empty()),
                category: 0,
                open_playlist: None,
            }),
    {
        PlaylistPane {
            list: EntryList::default(),
            songs: SongList::default(),
            category: 0,
            open_playlist: None,
        }
    }
}

/// The page of artists.
#[derive(Debug)]
pub struct ArtistPane {
    pub list: EntryList<Artist>,
    pub songs: SongList,
    /// The region; 0 for all.
    pub kind: i64,
}

pub struct ArtistPaneModel {
    pub list: EntryListModel<ArtistModel>,
    pub songs: SongListModel,
    pub kind: i64,
}

impl DeepView for ArtistPane {
    type V = ArtistPaneModel;

    open spec fn deep_view(&self) -> ArtistPaneModel {
        ArtistPaneModel {
            list: self.list.deep_view(),
            songs: self.songs.deep_view(),
            kind: self.kind,
        }
    }
}

impl Default for ArtistPane {
    fn default() -> (r: Self)
        ensures
            r.deep_view() == (ArtistPaneModel {
                list: EntryListModel::unloaded(),
                songs: SongListModel::unloaded(Seq::empty()),
                kind: 0,
            }),
    {
        ArtistPane { list: EntryList::default(), songs: SongList::default(), kind: 0 }
    }
}

/// The page of charts.
#[derive(Debug)]
pub struct RankPane {
    pub list: EntryList<RankBoard>,
    pub songs: SongList,
}

pub struct RankPaneModel {
    pub list: EntryListModel<RankBoardModel>,
    pub songs: SongListModel,
}

impl DeepView for RankPane {
    type V = RankPaneModel;

    open spec fn deep_view(&self) -> RankPaneModel {
        RankPaneModel { list: self.list.deep_view(), songs: self.songs.deep_view() }
    }
}

impl Default for RankPane {
    fn default() -> (r: Self)
        ensures
            r.deep_view() == (RankPaneModel {
                list: EntryListModel::unloaded(),
                songs: SongListModel::unloaded(Seq::empty()),
            }),
    {
        RankPane { list: EntryList::default(), songs: SongList::default() }
    }
}

/// The page of the user's own playlists.
#[derive(Debug)]
pub struct CloudPane {
    pub list: EntryList<Playlist>,
    pub songs: SongList,
    /// The playlist whose songs are shown.
    pub open_playlist: Option<Playlist>,
}

pub struct CloudPaneModel {
    pub list: EntryListModel<PlaylistModel>,
    pub songs: SongListModel,
    pub open_playlist: Option<PlaylistModel>,
}

impl DeepView for CloudPane {
    type V = CloudPaneModel;

    open spec fn deep_view(&self) -> CloudPaneModel {
        CloudPaneModel {
            list: self.list.deep_view(),
            songs: self.songs.deep_view(),
            open_playlist: self.open_playlist.deep_view(),
        }
    }
}

impl Default for CloudPane {
    fn default() -> (r: Self)
        ensures
            r.deep_view() == (CloudPaneModel {
                list: EntryListModel::unloaded(),
                songs: SongListModel::unloaded(Seq::empty()),
                open_playlist: None,
            }),
    {
        CloudPane { list: EntryList::default(), songs: SongList::default(), open_playlist: None }
    }
}

// ---------------------------------------------------------------------------
// What stands beside an entry
// ---------------------------------------------------------------------------
/// A count with a word, unless there is nothing to count.
pub open spec fn counted(count: u32, word: Seq<char>) -> Seq<Seq<char>> {
    if count > 0 {
        seq![text::decimal(count as nat) + word]
    } else {
        Seq::empty()
    }
}

/// A count, or none.
pub open spec fn or_none(count: Option<u32>) -> u32 {
    match count {
        Some(n) => n,
        None => 0,
    }
}

/// What stands beside an artist: songs and followers, as far as they are known.
pub open spec fn artist_words(artist: ArtistModel) -> Seq<char> {
    text::joined(
        counted(or_none(artist.song_count), " 首"@) + counted(
            or_none(artist.follower_count),
            " 粉丝"@,
        ),
        " · "@,
    )
}

/// What stands beside a playlist: its songs, its owner, and whether it can be written to.
pub open spec fn playlist_words(playlist: PlaylistModel) -> Seq<char> {
    text::joined(
        counted(playlist.song_count, " 首"@) + (match playlist.creator {
            Some(name) if name.len() > 0 => seq!["by "@ + name],
            _ => Seq::empty(),
        }) + (if playlist.list_id is Some && playlist.is_own {
            seq!["可写"@]
        } else {
            Seq::empty()
        }),
        " · "@,
    )
}

/// What stands beside a chart: how often it is renewed, else its number.
pub open spec fn rank_words(board: RankBoardModel) -> Seq<char> {
    match board.update_frequency {
        Some(words) => words,
        None => "#"@ + text::signed_decimal(board.id as int),
    }
}

/// Puts a count with a word to the parts, unless there is nothing to count.
fn push_count(parts: &mut Vec<String>, count: u32, word: &str)
    ensures
        text::views(final(parts)@) == text::views(old(parts)@) + counted(count, word@),
{
    let ghost before = text::views(parts@);
    if count > 0 {
        let number = text::write_u64(count as u64);
        parts.push(text::join2(number.as_str(), word));
    }
    proof {
        assert(text::views(parts@) =~= before + counted(count, word@));
    }
}

/// What stands beside an artist.
pub fn artist_subtitle(artist: &Artist) -> (r: String)
    ensures
        r@ == artist_words(artist.deep_view()),
{
    let mut parts: Vec<String> = Vec::new();
    let songs: u32 = match artist.song_count {
        Some(n) => n,
        None => 0,
    };
    let fans: u32 = match artist.follower_count {
        Some(n) => n,
        None => 0,
    };
    push_count(&mut parts, songs, " 首");
    push_count(&mut parts, fans, " 粉丝");
    proof {
        assert(text::views(parts@) =~= counted(songs, " 首"@) + counted(fans, " 粉丝"@));
    }
    text::join(parts.as_slice(), " · ")
}

/// What stands beside a playlist.
pub fn playlist_subtitle(playlist: &Playlist) -> (r: String)
    ensures
        r@ == playlist_words(playlist.deep_view()),
{
    let mut parts: Vec<String> = Vec::new();
    push_count(&mut parts, playlist.song_count, " 首");
    let ghost counts = counted(playlist.song_count, " 首"@);
    proof {
        assert(text::views(parts@) =~= counts);
    }
    let ghost mut owner: Seq<Seq<char>> = Seq::empty();
    if let Some(name) = &playlist.creator {
        if !name.as_str().is_empty() {
            parts.push(text::join2("by ", name.as_str()));
            proof {
                owner = seq!["by "@ + name@];
            }
        }
    }
    proof {
        assert(text::views(parts@) =~= counts + owner);
    }
    let ghost mut note: Seq<Seq<char>> = Seq::empty();
    if playlist.is_writable() {
        parts.push("可写".to_owned());
        proof {
            note = seq!["可写"@];
        }
    }
    proof {
        assert(text::views(parts@) =~= counts + owner + note);
    }
    text::join(parts.as_slice(), " · ")
}

/// What stands beside a chart.
pub fn rank_subtitle(board: &RankBoard) -> (r: String)
    ensures
        r@ == rank_words(board.deep_view()),
{
    match &board.update_frequency {
        Some(words) => words.clone(),
        None => text::join2("#", text::write_i64(board.id).as_str()),
    }
}

// ---------------------------------------------------------------------------
// The cover
// ---------------------------------------------------------------------------
/// Which cover there is, and for what place it was last prepared. The picture itself is kept where
/// it is drawn.
#[derive(Debug)]
pub struct CoverArt {
    /// The song whose cover it is.
    pub hash: Option<String>,
    /// Whether there is a picture.
    pub loaded: bool,
    /// How the picture was last prepared: the way it fills its place, and the place.
    pub build: Option<(String, Rect)>,
}

pub struct CoverModel {
    pub hash: Option<Seq<char>>,
    pub loaded: bool,
    pub build: Option<(Seq<char>, Rect)>,
}

impl DeepView for CoverArt {
    type V = CoverModel;

    open spec fn deep_view(&self) -> CoverModel {
        CoverModel {
            hash: self.hash.deep_view(),
            loaded: self.loaded,
            build: match self.build {
                Some(made) => Some((made.0@, made.1)),
                None => None,
            },
        }
    }
}

impl Default for CoverArt {
    fn default() -> (r: Self)
        ensures
            r.deep_view() == (CoverModel { hash: None, loaded: false, build: None }),
    {
        CoverArt { hash: None, loaded: false, build: None }
    }
}

impl CoverModel {
    /// The cover has to be prepared anew to be shown in this way at this place.
    pub open spec fn stale(self, mode: Seq<char>, area: Rect) -> bool {
        self.build != Some((mode, area))
    }
}

impl CoverArt {
    /// Takes another cover; it has not been prepared yet.
    pub fn set_image(&mut self, hash: String)
        ensures
            final(self).deep_view() == (CoverModel {
                hash: Some(hash@),
                loaded: true,
                build: None,
            }),
    {
        self.hash = Some(hash);
        self.loaded = true;
        self.build = None;
    }

    /// Whether it is the cover of this song.
    pub fn belongs_to(&self, hash: &str) -> (r: bool)
        ensures
            r == (self.deep_view().hash == Some(hash@)),
    {
        match &self.hash {
            Some(own) => text::same(own.as_str(), hash),
            None => false,
        }
    }

    /// Whether there is anything to draw.
    pub fn is_drawable(&self) -> (r: bool)
        ensures
            r == self.deep_view().loaded,
    {
        self.loaded
    }

    /// Asks for the cover in this way at this place: `None` where there is no picture, else whether
    /// it has to be prepared anew. What is asked for is then what it is prepared for.
    pub fn fit_to(&mut self, mode: &str, area: Rect) -> (r: Option<bool>)
        ensures
            r == if old(self).deep_view().loaded {
                Some(old(self).deep_view().stale(mode@, area))
            } else {
                None
            },
            final(self).deep_view() == if old(self).deep_view().loaded {
                CoverModel { build: Some((mode@, area)), ..old(self).deep_view() }
            } else {
                old(self).deep_view()
            },
    {
        if !self.loaded {
            return None;
        }
        let stale = match &self.build {
            Some(made) => !text::same(made.0.as_str(), mode) || made.1 != area,
            None => true,
        };
        if stale {
            self.build = Some((mode.to_owned(), area));
        }
        Some(stale)
    }
}

/// What is done to show a cover: nothing where it is shown, else the old one is taken away and the
/// new one drawn, as far as there are such.
#[derive(Debug, Clone, Copy, PartialEq, Eq, Structural)]
pub enum CoverPaint {
    Keep,
    Change { erase: bool, draw: bool },
}

/// A cover at a place; a place without room shows none.
pub open spec fn shown_cover(wanted: Option<(Seq<char>, Rect)>) -> Option<(Seq<char>, Rect)> {
    match wanted {
        Some((hash, area)) if area.width > 0 && area.height > 0 => Some((hash, area)),
        _ => None,
    }
}

/// A song and a place, in their model.
pub open spec fn cover_key(cover: Option<(&str, Rect)>) -> Option<(Seq<char>, Rect)> {
    match cover {
        Some((hash, area)) => Some((hash@, area)),
        None => None,
    }
}

/// Decides what is done to show the wanted cover where another may have been drawn. One that stays
/// is not drawn again.
pub fn paint_cover(wanted: Option<(&str, Rect)>, painted: Option<(&str, Rect)>) -> (r: CoverPaint)
    ensures
        r == if shown_cover(cover_key(wanted)) is Some && shown_cover(cover_key(wanted))
            == cover_key(painted) {
            CoverPaint::Keep
        } else {
            CoverPaint::Change {
                erase: painted is Some,
                draw: shown_cover(cover_key(wanted)) is Some,
            }
        },
{
    let shown = match wanted {
        Some(cover) => if cover.1.width > 0 && cover.1.height > 0 {
            Some(cover)
        } else {
            None
        },
        None => None,
    };
    if let (Some(new), Some(old_cover)) = (&shown, &painted) {
        if text::same(new.0, old_cover.0) && new.1 == old_cover.1 {
            return CoverPaint::Keep;
        }
    }
    CoverPaint::Change { erase: painted.is_some(), draw: shown.is_some() }
}

/// A cover that is asked for in the same way at the same place is prepared once.
pub proof fn covers_are_prepared_once(cover: CoverModel, mode: Seq<char>, area: Rect)
    ensures
        !(CoverModel { build: Some((mode, area)), ..cover }).stale(mode, area),
{
}

// ---------------------------------------------------------------------------
// Pickers and dialogs
// ---------------------------------------------------------------------------
/// The choice of the service to log in to.
#[derive(Debug)]
pub struct LoginPicker {
    pub candidates: Vec<SourceKind>,
    pub cursor: ListState,
}

/// The row of a picker that counts as selected.
pub open spec fn picked_row(selected: Option<usize>) -> int {
    match selected {
        Some(index) => index as int,
        None => 0,
    }
}

/// The row of a picker of `len` rows after moving by `delta`.
pub open spec fn picker_moved(selected: Option<usize>, len: int, delta: int) -> Option<usize> {
    if len == 0 {
        selected
    } else {
        Some(within(picked_row(selected) + delta, 0, len - 1) as usize)
    }
}

/// Moves the selection of a picker, keeping it within the picker.
fn move_picker(cursor: &mut ListState, len: usize, delta: isize)
    ensures
        final(cursor).selected == picker_moved(old(cursor).selected, len as int, delta as int),
{
    if len == 0 {
        return ;
    }
    let current: usize = match cursor.selected() {
        Some(index) => index,
        None => 0,
    };
    let wanted: i128 = current as i128 + delta as i128;
    let next: usize = if wanted < 0 {
        0
    } else if wanted > (len - 1) as i128 {
        len - 1
    } else {
        wanted as usize
    };
    cursor.select(Some(next));
}

impl LoginPicker {
    /// The service that is selected.
    pub fn selected(&self) -> (r: Option<SourceKind>)
        ensures
            r == if picked_row(self.cursor.selected) < self.candidates@.len() {
                Some(self.candidates@[picked_row(self.cursor.selected)])
            } else {
                None
            },
    {
        let index: usize = match self.cursor.selected() {
            Some(index) => index,
            None => 0,
        };
        if index < self.candidates.len() {
            Some(self.candidates[index])
        } else {
            None
        }
    }

    /// Moves the selection.
    pub fn move_by(&mut self, delta: isize)
        ensures
            final(self).candidates == old(self).candidates,
            final(self).cursor.selected == picker_moved(
                old(self).cursor.selected,
                old(self).candidates@.len() as int,
                delta as int,
            ),
    {
        move_picker(&mut self.cursor, self.candidates.len(), delta);
    }
}

/// The qualities that can be chosen, from the lowest to the highest.
pub const SUPPORTED_QUALITIES: [&'static str; 8] = [
    "128",
    "320",
    "flac",
    "high",
    "super",
    "viper_clear",
    "viper_atmos",
    "viper_tape",
];

/// The choice of the quality in which a song is saved.
#[derive(Debug)]
pub struct QualityPicker {
    pub song: Song,
    pub candidates: Vec<String>,
    pub cursor: ListState,
}

/// The qualities that can be chosen.
pub open spec fn quality_texts() -> Seq<Seq<char>> {
    SUPPORTED_QUALITIES@.map_values(|q: &'static str| q@)
}

/// The row of a quality; the first for one that is not known.
pub open spec fn quality_row(quality: Seq<char>) -> int {
    match settings::text_place(quality_texts(), quality, 0) {
        Some(row) => row,
        None => 0,
    }
}

impl QualityPicker {
    /// A picker that begins at the quality in use.
    pub fn new(song: Song, current: &str) -> (r: QualityPicker)
        ensures
            r.song == song,
            text::views(r.candidates@) == quality_texts(),
            r.cursor.selected == Some(quality_row(current@) as usize),
    {
        let all = SUPPORTED_QUALITIES;
        let mut candidates: Vec<String> = Vec::new();
        let mut start: Option<usize> = None;
        let mut i: usize = 0;
        while i < all.len()
            invariant
                i <= all@.len(),
                all@ == SUPPORTED_QUALITIES@,
                all@.len() == 8,
                candidates@.len() == i,
                forall|k: int|
                    0 <= k < i ==> (#[trigger] candidates@[k])@ == quality_texts()[k],
                match start {
                    Some(row) => row < 8 && settings::text_place(quality_texts(), current@, 0)
                        == Some(row as int),
                    None => settings::text_place(quality_texts(), current@, 0)
                        == settings::text_place(quality_texts(), current@, i as int),
                },
            decreases all@.len() - i,
        {
            proof {
                assert(quality_texts()[i as int] == all@[i as int]@);
            }
            if start.is_none() && text::same(all[i], current) {
                start = Some(i);
            }
            candidates.push(all[i].to_owned());
            i += 1;
        }
        proof {
            assert(text::views(candidates@) =~= quality_texts());
        }
        let row: usize = match start {
            Some(row) => row,
            None => 0,
        };
        QualityPicker { song, candidates, cursor: ListState { selected: Some(row) } }
    }

    /// The quality that is selected.
    pub fn selected(&self) -> (r: Option<&str>)
        ensures
            match r {
                Some(quality) => picked_row(self.cursor.selected) < self.candidates@.len()
                    && quality@ == self.candidates@[picked_row(self.cursor.selected)]@,
                None => picked_row(self.cursor.selected) >= self.candidates@.len(),
            },
    {
        let index: usize = match self.cursor.selected() {
            Some(index) => index,
            None => 0,
        };
        if index < self.candidates.len() {
            Some(self.candidates[index].as_str())
        } else {
            None
        }
    }

    /// Moves the selection.
    pub fn move_by(&mut self, delta: isize)
        ensures
            final(self).song == old(self).song,
            final(self).candidates == old(self).candidates,
            final(self).cursor.selected == picker_moved(
                old(self).cursor.selected,
                old(self).candidates@.len() as int,
                delta as int,
            ),
    {
        move_picker(&mut self.cursor, self.candidates.len(), delta);
    }
}

/// A login by QR code.
#[derive(Debug)]
pub struct LoginState {
    /// The lines of the code.
    pub qr: Vec<String>,
    pub key: String,
    pub message: String,
    /// The login has come to its end, one way or the other.
    pub finished: bool,
    pub succeeded: bool,
}

pub struct LoginModel {
    pub qr: Seq<Seq<char>>,
    pub key: Seq<char>,
    pub message: Seq<char>,
    pub finished: bool,
    pub succeeded: bool,
}

impl DeepView for LoginState {
    type V = LoginModel;

    open spec fn deep_view(&self) -> LoginModel {
        LoginModel {
            qr: text::views(self.qr@),
            key: self.key@,
            message: self.message@,
            finished: self.finished,
            succeeded: self.succeeded,
        }
    }
}

/// A login of which only a message and its end are known.
pub open spec fn login_message(message: Seq<char>, finished: bool, succeeded: bool) -> LoginModel {
    LoginModel { qr: Seq::empty(), key: Seq::empty(), message, finished, succeeded }
}

/// How high a dialog is that shows a code of so many lines.
pub open spec fn dialog_rows(lines: nat) -> int {
    let rows = lines as int % 0x1_0000;
    if rows == 0 {
        5
    } else {
        rows + 4
    }
}

/// How wide a dialog is that shows a code of so many columns.
pub open spec fn dialog_columns(columns: nat) -> int {
    let width = columns as int % 0x1_0000;
    if width == 0 {
        44
    } else if width < 40 {
        44
    } else {
        width + 4
    }
}

/// How many columns a code has.
pub open spec fn code_columns(qr: Seq<Seq<char>>) -> nat {
    if qr.len() == 0 {
        0
    } else {
        qr[0].len()
    }
}

impl LoginState {
    /// A login of which only a message and its end are known.
    pub fn with_message(message: String, finished: bool, succeeded: bool) -> (r: LoginState)
        ensures
            r.deep_view() == login_message(message@, finished, succeeded),
    {
        let r = LoginState {
            qr: Vec::new(),
            key: String::new(),
            message,
            finished,
            succeeded,
        };
        proof {
            assert(text::views(r.qr@) =~= Seq::<Seq<char>>::empty());
        }
        r
    }

    /// How high the dialog is.
    pub fn dialog_height(&self) -> (r: u16)
        requires
            dialog_rows(self.deep_view().qr.len()) <= u16::MAX,
        ensures
            r == dialog_rows(self.deep_view().qr.len()),
    {
        let rows: u16 = (self.qr.len() % 0x1_0000) as u16;
        if rows == 0 {
            5
        } else {
            rows + 4
        }
    }

    /// How wide the dialog is.
    pub fn dialog_width(&self) -> (r: u16)
        requires
            dialog_columns(code_columns(self.deep_view().qr)) <= u16::MAX,
        ensures
            r == dialog_columns(code_columns(self.deep_view().qr)),
    {
        let columns: usize = if self.qr.len() > 0 {
            proof {
                assert(text::views(self.qr@)[0] == self.qr@[0]@);
            }
            text::to_chars(self.qr[0].as_str()).len()
        } else {
            0
        };
        let width: u16 = (columns % 0x1_0000) as u16;
        if width < 40 {
            44
        } else {
            width + 4
        }
    }
}

/// What is only done after asking once more.
#[derive(Debug, Clone, Copy, PartialEq, Eq, Structural)]
pub enum ConfirmAction {
    ClearQueue,
    DeleteCloudPlaylist,
    ClearCache,
    Relogin,
}

impl ConfirmAction {
    /// What is asked.
    pub open spec fn question_text(self) -> Seq<char> {
        match self {
            ConfirmAction::ClearQueue => "清空整个播放队列并停止播放？"@,
            ConfirmAction::DeleteCloudPlaylist => "删除这个云端歌单？该操作会取消收藏它。"@,
            ConfirmAction::ClearCache => "清空音频缓存？已缓存的歌曲需要重新下载。"@,
            ConfirmAction::Relogin => "已登录。重新扫码会覆盖当前凭据，确定要重新登录？"@,
        }
    }

    /// What is asked.
    pub fn question(self) -> (r: &'static str)
        ensures
            r@ == self.question_text(),
    {
        match self {
            ConfirmAction::ClearQueue => "清空整个播放队列并停止播放？",
            ConfirmAction::DeleteCloudPlaylist => "删除这个云端歌单？该操作会取消收藏它。",
            ConfirmAction::ClearCache => "清空音频缓存？已缓存的歌曲需要重新下载。",
            ConfirmAction::Relogin => "已登录。重新扫码会覆盖当前凭据，确定要重新登录？",
        }
    }

    /// How to answer.
    pub fn hint(self) -> (r: &'static str)
        ensures
            r@ == "Enter 确认 · Esc 取消"@,
    {
        "Enter 确认 · Esc 取消"
    }
}

/// What a song's menu offers.
#[derive(Debug, Clone, Copy, PartialEq, Eq, Structural)]
pub enum MenuAction {
    Play,
    QueueAppend,
    QueuePlayNext,
    AddToCloud,
    Download,
    RemoveFromQueue,
}

impl MenuAction {
    /// The name of an entry.
    pub open spec fn label_text(self) -> Seq<char> {
        match self {
            MenuAction::Play => "播放"@,
            MenuAction::QueueAppend => "加入队列"@,
            MenuAction::QueuePlayNext => "插播下一首"@,
            MenuAction::AddToCloud => "收藏到云端"@,
            MenuAction::Download => "下载到本地"@,
            MenuAction::RemoveFromQueue => "从队列移除"@,
        }
    }

    /// The name of this entry.
    pub fn label(self) -> (r: &'static str)
        ensures
            r@ == self.label_text(),
    {
        match self {
            MenuAction::Play => "播放",
            MenuAction::QueueAppend => "加入队列",
            MenuAction::QueuePlayNext => "插播下一首",
            MenuAction::AddToCloud => "收藏到云端",
            MenuAction::Download => "下载到本地",
            MenuAction::RemoveFromQueue => "从队列移除",
        }
    }

    /// The key that does the same.
    pub open spec fn key_text(self) -> Seq<char> {
        match self {
            MenuAction::Play => "Enter"@,
            MenuAction::QueueAppend => "a"@,
            MenuAction::QueuePlayNext => "i"@,
            MenuAction::AddToCloud => "s"@,
            MenuAction::Download => "W"@,
            MenuAction::RemoveFromQueue => "x"@,
        }
    }

    /// The key that does the same.
    pub fn key_hint(self) -> (r: &'static str)
        ensures
            r@ == self.key_text(),
    {
        match self {
            MenuAction::Play => "Enter",
            MenuAction::QueueAppend => "a",
            MenuAction::QueuePlayNext => "i",
            MenuAction::AddToCloud => "s",
            MenuAction::Download => "W",
            MenuAction::RemoveFromQueue => "x",
        }
    }

    /// The entries of the menu of a song in the queue, or elsewhere.
    pub open spec fn offered(in_queue: bool) -> Seq<MenuAction> {
        if in_queue {
            seq![
                MenuAction::Play,
                MenuAction::QueuePlayNext,
                MenuAction::RemoveFromQueue,
                MenuAction::AddToCloud,
                MenuAction::Download,
            ]
        } else {
            seq![
                MenuAction::Play,
                MenuAction::QueueAppend,
                MenuAction::QueuePlayNext,
                MenuAction::AddToCloud,
                MenuAction::Download,
            ]
        }
    }

    /// The entries of the menu of a song in the queue, or elsewhere.
    pub fn items_for(in_queue: bool) -> (r: Vec<MenuAction>)
        ensures
            r@ == MenuAction::offered(in_queue),
    {
        let r = if in_queue {
            vec![
                MenuAction::Play,
                MenuAction::QueuePlayNext,
                MenuAction::RemoveFromQueue,
                MenuAction::AddToCloud,
                MenuAction::Download,
            ]
        } else {
            vec![
                MenuAction::Play,
                MenuAction::QueueAppend,
                MenuAction::QueuePlayNext,
                MenuAction::AddToCloud,
                MenuAction::Download,
            ]
        };
        proof {
            assert(r@ =~= MenuAction::offered(in_queue));
        }
        r
    }
}

/// The menu of a song.
#[derive(Debug)]
pub struct ContextMenu {
    pub song: Song,
    pub items: Vec<MenuAction>,
    pub cursor: usize,
}

impl ContextMenu {
    /// The menu of `song`.
    pub fn new(song: Song, in_queue: bool) -> (r: ContextMenu)
        ensures
            r.song == song,
            r.items@ == MenuAction::offered(in_queue),
            r.cursor == 0,
    {
        ContextMenu { song, items: MenuAction::items_for(in_queue), cursor: 0 }
    }

    /// The entry that is selected.
    pub fn selected(&self) -> (r: Option<MenuAction>)
        ensures
            r == if self.cursor < self.items@.len() {
                Some(self.items@[self.cursor as int])
            } else {
                None
            },
    {
        if self.cursor < self.items.len() {
            Some(self.items[self.cursor])
        } else {
            None
        }
    }

    /// Moves the selection, going round.
    pub fn move_cursor(&mut self, delta: isize)
        ensures
            final(self).song == old(self).song,
            final(self).items == old(self).items,
            final(self).cursor == if old(self).items@.len() == 0 {
                old(self).cursor as int
            } else {
                (old(self).cursor + delta) % (old(self).items@.len() as int)
            },
    {
        if self.items.len() == 0 {
            return ;
        }
        let sum: i128 = self.cursor as i128 + delta as i128;
        self.cursor = match sum.checked_rem_euclid(self.items.len() as i128) {
            Some(next) => next as usize,
            None => 0,
        };
    }
}

/// What is done with a text that was entered in a dialog.
#[derive(Debug, Clone, Copy, PartialEq, Eq, Structural)]
pub enum PromptAction {
    CreateCloudPlaylist,
}

/// A dialog that takes a text.
#[derive(Debug)]
pub struct PromptState {
    pub title: String,
    pub buffer: TextInput,
    pub action: PromptAction,
}

pub struct PromptModel {
    pub title: Seq<char>,
    pub buffer: InputModel,
    pub action: PromptAction,
}

impl DeepView for PromptState {
    type V = PromptModel;

    open spec fn deep_view(&self) -> PromptModel {
        PromptModel { title: self.title@, buffer: self.buffer@, action: self.action }
    }
}

/// A dialog in which nothing has been entered.
pub open spec fn empty_prompt(title: Seq<char>, action: PromptAction) -> PromptModel {
    PromptModel { title, buffer: InputModel { text: Seq::empty(), cursor: 0 }, action }
}

impl PromptState {
    /// A dialog in which nothing has been entered.
    pub fn new(title: &str, action: PromptAction) -> (r: PromptState)
        ensures
            r.deep_view() == empty_prompt(title@, action),
            r.buffer@.wf(),
    {
        PromptState { title: title.to_owned(), buffer: TextInput::default(), action }
    }
}

/// Songs are shown as they came, or the last on top; what takes the place of a list is shown from its
/// first row on, and nothing is being loaded any more.
pub proof fn lists_show_what_came(
    list: SongListModel,
    title: Seq<char>,
    songs: Seq<SongModel>,
    i: int,
)
    requires
        0 <= i < songs.len(),
    ensures
        arranged(songs, false) == songs,
        arranged(songs, true).len() == songs.len(),
        arranged(songs, true)[i] == songs[songs.len() - 1 - i],
        list.replaced(title, songs).songs == songs,
        list.replaced(title, songs).title == title,
        list.replaced(title, songs).selected == Some(0usize),
        !list.replaced(title, songs).load.loading,
        list.replaced(title, songs).load.error is None,
{
}

/// A selection moves by exactly so many rows, and stops at the ends.
pub proof fn selections_move_row_by_row(index: usize, len: int, delta: int)
    requires
        index < len <= usize::MAX,
    ensures
        0 <= index + delta < len ==> moved_selection(Some(index), len, delta) == Some(
            (index + delta) as usize,
        ),
        index + delta < 0 ==> moved_selection(Some(index), len, delta) == Some(0usize),
        index + delta >= len ==> moved_selection(Some(index), len, delta) == Some(
            (len - 1) as usize,
        ),
        first_row(len) == Some(0usize),
        last_row(len) == Some((len - 1) as usize),
{
}

} // verus!
