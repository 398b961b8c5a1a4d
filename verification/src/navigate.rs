//! Moving about: from page to page, from pane to pane, from row to row.
use vstd::prelude::*;
use crate::panes::{self, ListState, SongListModel};
use crate::settings::Setting;
use crate::source::SourceKind;
use crate::state::{
    artists_model, cloud_model, pages_model, player_model, playlists_model, ranks_model,
    screen_model, search_model, Pages, PagesModel, PlayerModel, ScreenModel, StateModel,
};
use crate::tab::{self, Focus, Tab};
use crate::update::{App, AppModel};

verus! {

/// How many rows turning a page moves.
pub const PAGE_STEP: isize = 10;

/// What moving does to a selection: so many rows, or to the first or the last row.
#[derive(Debug, Clone, Copy, PartialEq, Eq, Structural)]
pub enum Move {
    By(isize),
    First,
    Last,
}

impl Move {
    /// The row selected after the move in a list of `len` rows.
    pub open spec fn lands(self, selected: Option<usize>, len: int) -> Option<usize> {
        match self {
            Move::By(delta) => panes::moved_selection(selected, len, delta as int),
            Move::First => panes::first_row(len),
            Move::Last => panes::last_row(len),
        }
    }

    /// Moves the selection of a list of `len` rows.
    pub fn apply(self, cursor: &mut ListState, len: usize)
        ensures
            final(cursor).selected == self.lands(old(cursor).selected, len as int),
    {
        match self {
            Move::By(delta) => panes::move_selection(cursor, len, delta),
            Move::First => panes::select_first(cursor, len),
            Move::Last => panes::select_last(cursor, len),
        }
    }
}

impl PagesModel {
    /// The pages after a move among the songs of one.
    pub open spec fn song_moved(self, tab: Tab, how: Move) -> PagesModel {
        match self.songs(tab) {
            Some(list) => self.with_songs(
                tab,
                SongListModel {
                    selected: how.lands(list.selected, list.songs.len() as int),
                    ..list
                },
            ),
            None => self,
        }
    }

    /// The pages after a move among the entries of one.
    pub open spec fn entry_moved(self, tab: Tab, how: Move) -> PagesModel {
        match self.entry_count(tab) {
            Some(count) => self.with_entry(tab, how.lands(self.entry_selected(tab), count)),
            None => self,
        }
    }

    /// The pages after a move among the settings.
    pub open spec fn setting_moved(self, how: Move) -> PagesModel {
        PagesModel {
            settings_cursor: match how.lands(
                Some(self.settings_cursor),
                Setting::ALL@.len() as int,
            ) {
                Some(row) => row,
                None => 0,
            },
            ..self
        }
    }
}

impl Pages {
    /// Moves among the songs of a page.
    pub fn move_song(&mut self, tab: Tab, how: Move)
        ensures
            final(self).deep_view() == old(self).deep_view().song_moved(tab, how),
            old(self).deep_view().wf() ==> final(self).deep_view().wf(),
    {
        if let Some(list) = self.songs_mut(tab) {
            let len: usize = list.songs.len();
            how.apply(&mut list.cursor, len);
        }
    }

    /// Moves among the entries of a page.
    pub fn move_entry(&mut self, tab: Tab, how: Move)
        ensures
            final(self).deep_view() == old(self).deep_view().entry_moved(tab, how),
            old(self).deep_view().wf() ==> final(self).deep_view().wf(),
    {
        proof {
            reveal(AppModel::wf);
            reveal(playlists_model);
            reveal(artists_model);
            reveal(ranks_model);
            reveal(cloud_model);
        }
        match tab {
            Tab::Playlists => how.apply(
                &mut self.playlists.list.cursor,
                self.playlists.list.entries.len(),
            ),
            Tab::Artists => how.apply(
                &mut self.artists.list.cursor,
                self.artists.list.entries.len(),
            ),
            Tab::Ranks => how.apply(&mut self.ranks.list.cursor, self.ranks.list.entries.len()),
            Tab::Cloud => how.apply(&mut self.cloud.list.cursor, self.cloud.list.entries.len()),
            Tab::Sources => how.apply(&mut self.sources_cursor, SourceKind::ALL.len()),
            Tab::Search | Tab::Home | Tab::Queue | Tab::Visualizer | Tab::Settings => {},
        }
    }

    /// Moves among the settings.
    pub fn move_setting(&mut self, how: Move)
        ensures
            final(self).deep_view() == old(self).deep_view().setting_moved(how),
            old(self).deep_view().wf() ==> final(self).deep_view().wf(),
    {
        let mut cursor = ListState { selected: Some(self.settings_cursor) };
        how.apply(&mut cursor, Setting::ALL.len());
        self.settings_cursor = match cursor.selected() {
            Some(row) => row,
            None => 0,
        };
    }
}

/// The page that a move in the side bar leads to.
pub open spec fn side_target(tab: Tab, how: Move) -> Tab {
    match how {
        Move::By(delta) => Tab::SIDEBAR_ORDER@[panes::within(
            tab::sidebar_place(tab) + delta,
            0,
            9,
        )],
        Move::First => Tab::SIDEBAR_ORDER@[0],
        Move::Last => Tab::SIDEBAR_ORDER@[9],
    }
}

/// What a move acts on.
pub enum MoveTarget {
    SideBar,
    Queue,
    Settings,
    Entries,
    Songs,
}

/// What a move acts on, with this page shown and this pane having the keys. Pages without a list
/// leave it to the side bar, so that the keys never go dead.
pub open spec fn move_target(tab: Tab, focus: Focus) -> MoveTarget {
    if focus == Focus::Sidebar {
        MoveTarget::SideBar
    } else if focus == Focus::Queue || tab == Tab::Queue {
        MoveTarget::Queue
    } else if tab == Tab::Home || tab == Tab::Visualizer {
        MoveTarget::SideBar
    } else if tab == Tab::Settings {
        MoveTarget::Settings
    } else if tab == Tab::Sources || (focus == Focus::Primary && tab != Tab::Search) {
        MoveTarget::Entries
    } else {
        MoveTarget::Songs
    }
}

impl PlayerModel {
    /// The player after a move in the queue.
    pub open spec fn queue_moved(self, how: Move) -> PlayerModel {
        PlayerModel {
            queue_cursor: how.lands(self.queue_cursor, self.queue.items.len() as int),
            ..self
        }
    }
}

impl AppModel {
    /// The same with something else on the screen.
    pub open spec fn screened(self, screen: ScreenModel) -> AppModel {
        AppModel { state: StateModel { screen, ..self.state }, ..self }
    }

    /// The same with another player.
    pub open spec fn played(self, player: PlayerModel) -> AppModel {
        AppModel { state: StateModel { player, ..self.state }, ..self }
    }

    /// Another page is shown, and loaded where it is shown for the first time. The keys go to it, or
    /// stay where they are.
    #[verifier::opaque]
    pub open spec fn showing(self, tab: Tab, move_focus: bool) -> AppModel {
        self.screened(
            ScreenModel {
                tab,
                focus: if move_focus {
                    Focus::Primary
                } else {
                    self.state.screen.focus
                },
                ..self.state.screen
            },
        ).paged(self.state.pages.not_editing()).entering(tab)
    }

    /// The page that a move in the side bar leads to is shown; the keys stay in the side bar.
    #[verifier::opaque]
    pub open spec fn side_moved(self, how: Move) -> AppModel {
        let target = side_target(self.state.screen.tab, how);
        if target == self.state.screen.tab {
            self
        } else {
            self.showing(target, false)
        }
    }

    /// A move was made where the keys are.
    #[verifier::opaque]
    pub open spec fn moved(self, how: Move) -> AppModel {
        let tab = self.state.screen.tab;
        match move_target(tab, self.state.screen.focus) {
            MoveTarget::SideBar => self.side_moved(how),
            MoveTarget::Queue => self.played(self.state.player.queue_moved(how)),
            MoveTarget::Settings => self.paged(self.state.pages.setting_moved(how)),
            MoveTarget::Entries => self.paged(self.state.pages.entry_moved(tab, how)),
            MoveTarget::Songs => self.paged(self.state.pages.song_moved(tab, how)),
        }
    }

    /// Going back: from the queue to the songs, else to the entries, and the side bar is shown.
    #[verifier::opaque]
    pub open spec fn going_back(self) -> AppModel {
        let screen = self.state.screen;
        self.screened(
            if screen.focus == Focus::Queue {
                ScreenModel { focus: Focus::Secondary, ..screen }
            } else {
                ScreenModel { focus: Focus::Primary, sidebar_visible: true, ..screen }
            },
        )
    }
}

impl App {
    /// Shows a page and hands it the keys.
    pub fn switch_tab(&mut self, tab: Tab)
        requires
            old(self).deep_view().wf(),
        ensures
            final(self).deep_view() == old(self).deep_view().showing(tab, true),
            final(self).deep_view().wf(),
    {
        self.switch_tab_inner(tab, true);
    }

    /// Shows a page.
    pub(crate) fn switch_tab_inner(&mut self, tab: Tab, move_focus: bool)
        requires
            old(self).deep_view().wf(),
        ensures
            final(self).deep_view() == old(self).deep_view().showing(tab, move_focus),
            final(self).deep_view().wf(),
    {
        proof {
            reveal(AppModel::showing);
        }
        self.leave_page(tab, move_focus);
        self.ensure_tab_loaded(tab);
    }

    /// Shows a page without loading it.
    fn leave_page(&mut self, tab: Tab, move_focus: bool)
        requires
            old(self).deep_view().wf(),
        ensures
            final(self).deep_view() == old(self).deep_view().screened(
                ScreenModel {
                    tab,
                    focus: if move_focus {
                        Focus::Primary
                    } else {
                        old(self).deep_view().state.screen.focus
                    },
                    ..old(self).deep_view().state.screen
                },
            ).paged(old(self).deep_view().state.pages.not_editing()),
            final(self).deep_view().wf(),
    {
        proof {
            reveal(AppModel::wf);
            reveal(screen_model);
            reveal(pages_model);
            reveal(search_model);
        }
        self.state.screen.tab = tab;
        self.state.pages.search.editing = false;
        if move_focus {
            self.state.screen.focus = Focus::Primary;
        }
    }

    /// Moves in the side bar.
    pub(crate) fn move_sidebar(&mut self, how: Move)
        requires
            old(self).deep_view().wf(),
        ensures
            final(self).deep_view() == old(self).deep_view().side_moved(how),
            final(self).deep_view().wf(),
    {
        proof {
            reveal(AppModel::wf);
            reveal(AppModel::side_moved);
            reveal(screen_model);
        }
        let tab = self.state.screen.tab;
        let target = sidebar_target(tab, how);
        if target != tab {
            self.switch_tab_inner(target, false);
        }
    }

    /// What a move acts on.
    fn target_of_move(&self) -> (r: MoveTarget)
        ensures
            r == move_target(self.deep_view().state.screen.tab, self.deep_view().state.screen.focus),
    {
        proof {
            reveal(AppModel::wf);
            reveal(screen_model);
        }
        let tab = self.state.screen.tab;
        let focus = self.state.screen.focus;
        if focus == Focus::Sidebar {
            MoveTarget::SideBar
        } else if focus == Focus::Queue || tab == Tab::Queue {
            MoveTarget::Queue
        } else if tab == Tab::Home || tab == Tab::Visualizer {
            MoveTarget::SideBar
        } else if tab == Tab::Settings {
            MoveTarget::Settings
        } else if tab == Tab::Sources || (focus == Focus::Primary && tab != Tab::Search) {
            MoveTarget::Entries
        } else {
            MoveTarget::Songs
        }
    }

    /// Moves where the keys are.
    fn make_move(&mut self, how: Move)
        requires
            old(self).deep_view().wf(),
        ensures
            final(self).deep_view() == old(self).deep_view().moved(how),
            final(self).deep_view().wf(),
    {
        proof {
            reveal(AppModel::moved);
        }
        let tab = self.shown_tab();
        match self.target_of_move() {
            MoveTarget::SideBar => self.move_sidebar(how),
            MoveTarget::Queue => {
                proof {
                    reveal(AppModel::wf);
                    reveal(player_model);
                }
                let len: usize = self.state.player.queue.len();
                how.apply(&mut self.state.player.queue_cursor, len);
            },
            MoveTarget::Settings => {
                proof {
                    reveal(AppModel::wf);
                    reveal(pages_model);
                }
                self.state.pages.move_setting(how);
            },
            MoveTarget::Entries => {
                proof {
                    reveal(AppModel::wf);
                    reveal(pages_model);
                }
                self.state.pages.move_entry(tab, how);
            },
            MoveTarget::Songs => {
                proof {
                    reveal(AppModel::wf);
                    reveal(pages_model);
                }
                self.state.pages.move_song(tab, how);
            },
        }
    }

    /// The page that is shown.
    pub(crate) fn shown_tab(&self) -> (r: Tab)
        ensures
            r == self.deep_view().state.screen.tab,
    {
        proof {
            reveal(AppModel::wf);
            reveal(screen_model);
        }
        self.state.screen.tab
    }

    /// Moves by `delta` rows where the keys are.
    pub(crate) fn move_selection(&mut self, delta: isize)
        requires
            old(self).deep_view().wf(),
        ensures
            final(self).deep_view() == old(self).deep_view().moved(Move::By(delta)),
            final(self).deep_view().wf(),
    {
        self.make_move(Move::By(delta));
    }

    /// Moves to the first or the last row where the keys are.
    pub(crate) fn move_selection_edge(&mut self, to_first: bool)
        requires
            old(self).deep_view().wf(),
        ensures
            final(self).deep_view() == old(self).deep_view().moved(
                if to_first {
                    Move::First
                } else {
                    Move::Last
                },
            ),
            final(self).deep_view().wf(),
    {
        self.make_move(
            if to_first {
                Move::First
            } else {
                Move::Last
            },
        );
    }

    /// Goes back.
    pub(crate) fn go_back(&mut self)
        requires
            old(self).deep_view().wf(),
        ensures
            final(self).deep_view() == old(self).deep_view().going_back(),
            final(self).deep_view().wf(),
    {
        proof {
            reveal(AppModel::wf);
            reveal(AppModel::going_back);
            reveal(screen_model);
        }
        if self.state.screen.focus == Focus::Queue {
            self.state.screen.focus = Focus::Secondary;
        } else {
            self.state.screen.focus = Focus::Primary;
            self.state.screen.sidebar_visible = true;
        }
    }
}

/// The page that a move in the side bar leads to.
fn sidebar_target(tab: Tab, how: Move) -> (r: Tab)
    ensures
        r == side_target(tab, how),
{
    let order = Tab::SIDEBAR_ORDER;
    match how {
        Move::By(delta) => {
            let place: usize = match tab {
                Tab::Home => 0,
                Tab::Visualizer => 1,
                Tab::Search => 2,
                Tab::Playlists => 3,
                Tab::Artists => 4,
                Tab::Ranks => 5,
                Tab::Cloud => 6,
                Tab::Queue => 7,
                Tab::Sources => 8,
                Tab::Settings => 9,
            };
            let wanted: i128 = place as i128 + delta as i128;
            let next: usize = if wanted < 0 {
                0
            } else if wanted > 9 {
                9
            } else {
                wanted as usize
            };
            order[next]
        },
        Move::First => order[0],
        Move::Last => order[9],
    }
}

/// Walking down the side bar one step and up again leads back, except at its end.
pub proof fn the_side_bar_leads_back(tab: Tab)
    requires
        tab::sidebar_place(tab) < 9,
    ensures
        side_target(side_target(tab, Move::By(1)), Move::By(-1isize)) == tab,
{
    assert(Tab::SIDEBAR_ORDER@.len() == 10);
    assert(Tab::SIDEBAR_ORDER@[tab::sidebar_place(tab)] == tab);
}

} // verus!
