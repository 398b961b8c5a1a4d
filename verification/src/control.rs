//! What the keys, the mouse, the sound and the clock change.
use vstd::prelude::*;
use crate::engine::SEEK_STEP_MS;
use crate::input::{InputModel, TextInput};
use crate::keymap::{self, Action};
use crate::navigate::{Move, PAGE_STEP};
use crate::order::{self, Order, OrderModel};
use crate::panes::{
    self, ConfirmAction, HelpModel, HelpPane, PromptAction, PromptModel, PromptState,
    SearchModel,
};
use crate::state::{
    self, account_model, dialogs_model, pages_model, screen_model, search_model, status_model,
    AccountModel, DialogsModel, PagesModel, ScreenModel, StateModel, StatusModel,
};
use crate::tab::{Focus, StatusLevel, Tab};
use crate::text;
use crate::update::{App, AppModel};

verus! {

/// How many events are taken in before the screen is drawn again.
pub const MAX_EVENTS_PER_FRAME: usize = 64;

/// After how many ticks it is measured how much is kept.
pub const CACHE_MEASURE_TICKS: u64 = 50;

/// After how many ticks it is asked what became of a QR code.
pub const LOGIN_POLL_TICKS: u64 = 10;

/// How often the screen is drawn while something on it moves, in milliseconds.
pub const ANIMATED_TICK_MS: u64 = 33;

/// How many rows the mouse wheel moves.
pub const WHEEL_STEP: isize = 3;

/// How far a key moves a lyric, in milliseconds.
pub const LYRIC_STEP_MS: i64 = 100;

// ---------------------------------------------------------------------------
// Lines of text
// ---------------------------------------------------------------------------
/// The line after a key that edits it; `None` for keys that do not.
pub open spec fn edited(line: InputModel, action: Action) -> Option<InputModel> {
    match action {
        Action::Char(c) => Some(line.inserted(c)),
        Action::Backspace => Some(line.backspaced()),
        Action::Delete => Some(line.deleted()),
        Action::CursorLeft => Some(
            InputModel {
                cursor: if line.cursor > 0 {
                    line.cursor - 1
                } else {
                    0
                },
                ..line
            },
        ),
        Action::CursorRight => Some(
            InputModel {
                cursor: if line.cursor < line.text.len() {
                    line.cursor + 1
                } else {
                    line.cursor
                },
                ..line
            },
        ),
        Action::CursorHome => Some(InputModel { cursor: 0, ..line }),
        Action::CursorEnd => Some(InputModel { cursor: line.text.len() as int, ..line }),
        _ => None,
    }
}

/// Edits a line, and returns whether the key is one that does.
fn edit(input: &mut TextInput, action: Action) -> (r: bool)
    requires
        old(input)@.wf(),
    ensures
        final(input)@.wf(),
        match edited(old(input)@, action) {
            Some(line) => r && final(input)@ == line,
            None => !r && final(input)@ == old(input)@,
        },
{
    match action {
        Action::Char(c) => input.insert(c),
        Action::Backspace => input.backspace(),
        Action::Delete => input.delete(),
        Action::CursorLeft => input.move_left(),
        Action::CursorRight => input.move_right(),
        Action::CursorHome => input.move_home(),
        Action::CursorEnd => input.move_end(),
        _ => {
            return false;
        },
    }
    true
}

/// The help after a key that scrolls or closes it.
pub open spec fn help_moved(help: HelpModel, action: Action) -> HelpModel {
    let total = keymap::CHEATSHEET@.len() as int;
    let at = help.offset as int;
    let seen = help.viewport as int;
    match action {
        Action::Help | Action::Cancel => HelpModel { open: false, ..help },
        Action::MoveDown => HelpModel { offset: panes::scrolled(at + 1, total, seen), ..help },
        Action::MoveUp => HelpModel { offset: panes::scrolled(at - 1, total, seen), ..help },
        Action::PageDown => HelpModel {
            offset: panes::scrolled(at + panes::page_step(seen), total, seen),
            ..help
        },
        Action::PageUp => HelpModel {
            offset: panes::scrolled(at - panes::page_step(seen), total, seen),
            ..help
        },
        Action::MoveTop => HelpModel { offset: 0, ..help },
        Action::MoveBottom => HelpModel {
            offset: if total > seen {
                (total - seen) as usize
            } else {
                0
            },
            ..help
        },
        _ => help,
    }
}

/// Scrolls or closes the help.
fn move_help(help: &mut HelpPane, action: Action)
    ensures
        final(help)@ == help_moved(old(help)@, action),
{
    proof {
        let step = panes::page_step(help@.viewport as int);
        assert(step * 1 == step);
        assert(step * -1 == -step);
    }
    let total: usize = keymap::CHEATSHEET.len();
    match action {
        Action::Help | Action::Cancel => help.close(),
        Action::MoveDown => help.scroll_by(1, total),
        Action::MoveUp => help.scroll_by(-1, total),
        Action::PageDown => help.scroll_page(1, total),
        Action::PageUp => help.scroll_page(-1, total),
        Action::MoveTop => help.scroll_to_top(),
        Action::MoveBottom => help.scroll_to_bottom(total),
        _ => {},
    }
}

// ---------------------------------------------------------------------------
// What is decided
// ---------------------------------------------------------------------------
impl AppModel {
    /// The player is to end; once it is to end without saving the settings, that stays.
    #[verifier::opaque]
    pub open spec fn quitting(self, force: bool) -> AppModel {
        self.leaving(self.state.status.force_quit || force)
    }

    /// The player is to end, with or without saving the settings.
    #[verifier::opaque]
    pub open spec fn leaving(self, force: bool) -> AppModel {
        AppModel {
            state: StateModel {
                status: StatusModel {
                    should_quit: true,
                    force_quit: force,
                    ..self.state.status
                },
                ..self.state
            },
            ..self
        }
    }

    /// The help stands differently.
    pub open spec fn with_help(self, help: HelpModel) -> AppModel {
        self.screened(ScreenModel { help, ..self.state.screen })
    }

    /// A key while the help is open: it can be scrolled and closed, and the player can be ended. Here
    /// the last wish counts.
    #[verifier::opaque]
    pub open spec fn helped(self, action: Action) -> AppModel {
        match action {
            Action::Quit => self.leaving(false),
            Action::ForceQuit => self.leaving(true),
            _ => self.with_help(help_moved(self.state.screen.help, action)),
        }
    }

    /// What was asked once more is done.
    #[verifier::opaque]
    pub open spec fn confirmed(self, what: ConfirmAction) -> AppModel {
        match what {
            ConfirmAction::ClearQueue => self.emptying_queue(),
            ConfirmAction::DeleteCloudPlaylist => self.deleting_playlist(),
            ConfirmAction::ClearCache => self.ordering(OrderModel::ClearCache),
            ConfirmAction::Relogin => self.logging_in(),
        }
    }

    /// A key while something is asked once more: only yes and no count.
    #[verifier::opaque]
    pub open spec fn answering(self, what: ConfirmAction, action: Action) -> AppModel {
        let settled = self.asked(DialogsModel { pending_confirm: None, ..self.state.dialogs });
        match action {
            Action::Submit => settled.confirmed(what),
            Action::Cancel => settled.told(StatusLevel::Info, "已取消"@),
            Action::Char(c) => if c == 'n' || c == 'N' {
                settled.told(StatusLevel::Info, "已取消"@)
            } else {
                self
            },
            _ => self,
        }
    }

    /// A key while a dialog takes a text.
    #[verifier::opaque]
    pub open spec fn prompted(self, prompt: PromptModel, action: Action) -> AppModel {
        let closed = self.asked(DialogsModel { prompt: None, ..self.state.dialogs });
        match action {
            Action::Submit => closed.creating_playlist(text::trimmed(prompt.buffer.text)),
            Action::Cancel => closed.told(StatusLevel::Info, "已取消"@),
            Action::Quit => self.quitting(false),
            Action::ForceQuit => self.quitting(true),
            _ => match edited(prompt.buffer, action) {
                Some(buffer) => self.asked(
                    DialogsModel {
                        prompt: Some(PromptModel { buffer, ..prompt }),
                        ..self.state.dialogs
                    },
                ),
                None => self,
            },
        }
    }

    /// A key while a QR code is shown: it can only be given up.
    #[verifier::opaque]
    pub open spec fn login_keyed(self, action: Action) -> AppModel {
        match action {
            Action::Cancel => self.accounted(
                AccountModel { login: None, ..self.state.account },
            ).told(StatusLevel::Info, "已取消登录"@),
            Action::Quit => self.quitting(false),
            Action::ForceQuit => self.quitting(true),
            _ => self,
        }
    }

    /// Letters go into the search line, or no longer.
    #[verifier::opaque]
    pub open spec fn typing(self, editing: bool) -> AppModel {
        let pages = self.state.pages;
        self.paged(PagesModel { search: SearchModel { editing, ..pages.search }, ..pages })
    }

    /// A key while letters go into the search line.
    #[verifier::opaque]
    pub open spec fn search_keyed(self, action: Action, draw: usize) -> AppModel {
        let pages = self.state.pages;
        match action {
            Action::Submit => self.searching(),
            Action::Cancel => self.typing(false),
            _ => match edited(pages.search.input, action) {
                Some(input) => self.paged(
                    PagesModel { search: SearchModel { input, ..pages.search }, ..pages },
                ),
                None => self.acted(action, draw),
            },
        }
    }

    /// Going on with what is selected: a search, a list of songs, or a song.
    #[verifier::opaque]
    pub open spec fn activating(self) -> AppModel {
        let tab = self.state.screen.tab;
        let focus = self.state.screen.focus;
        if tab == Tab::Visualizer {
            self
        } else if focus == Focus::Queue {
            self.playing_queued()
        } else if focus == Focus::Sidebar {
            self.turning_to(Focus::Primary)
        } else {
            match tab {
                Tab::Search => if focus == Focus::Secondary {
                    self.playing_focused()
                } else if !self.state.pages.search.editing
                    && self.state.pages.search.input.text.len() == 0 {
                    self.typing(true)
                } else {
                    self.searching()
                },
                Tab::Playlists => if focus == Focus::Secondary {
                    self.playing_focused()
                } else {
                    self.opening_selected_playlist()
                },
                Tab::Artists => if focus == Focus::Secondary {
                    self.playing_focused()
                } else {
                    self.opening_selected_artist()
                },
                Tab::Ranks => if focus == Focus::Secondary {
                    self.playing_focused()
                } else {
                    self.opening_selected_rank()
                },
                Tab::Cloud => if focus == Focus::Secondary {
                    self.playing_focused()
                } else {
                    self.opening_selected_cloud_playlist()
                },
                Tab::Queue => self.playing_queued(),
                _ => self,
            }
        }
    }

    /// The keys go to the next pane, or to the one before.
    #[verifier::opaque]
    pub open spec fn handing_on(self, forward: bool) -> AppModel {
        AppModel {
            state: self.state.focusing(
                state::next_focus(self.state.reachable(), self.state.screen.focus, forward),
            ),
            ..self
        }
    }

    /// A key that moves about.
    #[verifier::opaque]
    pub open spec fn steered(self, action: Action) -> AppModel {
        let screen = self.state.screen;
        match action {
            Action::Help => self.with_help(HelpModel { open: true, offset: 0, ..screen.help }),
            Action::ToggleSidebar => self.screened(
                ScreenModel { sidebar_visible: !screen.sidebar_visible, ..screen },
            ),
            Action::ToggleLyricPanel => self.screened(
                ScreenModel { show_lyric_panel: !screen.show_lyric_panel, ..screen },
            ),
            Action::Digit(number) => match Tab::numbered(number) {
                Some(tab) => self.showing(tab, true),
                None => self,
            },
            Action::FocusNext => self.handing_on(true),
            Action::FocusPrev => self.handing_on(false),
            Action::MoveDown => self.moved(Move::By(1)),
            Action::MoveUp => self.moved(Move::By(-1isize)),
            Action::MoveTop => self.moved(Move::First),
            Action::MoveBottom => self.moved(Move::Last),
            Action::PageDown => self.moved(Move::By(10)),
            Action::PageUp => self.moved(Move::By(-10isize)),
            Action::Submit => self.activating(),
            Action::Cancel => self.going_back(),
            Action::OpenSearch => self.showing(Tab::Search, true).typing(true),
            Action::OpenSettings => self.showing(Tab::Settings, true),
            Action::OpenRanks => self.showing(Tab::Ranks, true),
            Action::OpenCloud => self.showing(Tab::Cloud, true),
            _ => self,
        }
    }

    /// A key about what is playing. On the page of settings the keys that move in a song change the
    /// selected setting.
    #[verifier::opaque]
    pub open spec fn sounded(self, action: Action, draw: usize) -> AppModel {
        match action {
            Action::PlayPause => self.toggling(),
            Action::Next => self.going_on(true, draw),
            Action::Prev => self.stepping_back(draw),
            Action::SeekForward => if self.state.screen.tab == Tab::Settings {
                self.setting_changed(true)
            } else {
                self.sought_by(SEEK_STEP_MS)
            },
            Action::SeekBackward => if self.state.screen.tab == Tab::Settings {
                self.setting_changed(false)
            } else {
                self.sought_by((0 - SEEK_STEP_MS) as i64)
            },
            Action::SeekBy(delta_ms) => self.sought_by(delta_ms),
            Action::SeekTo(position_ms) => self.sought(position_ms),
            Action::VolumeUp => self.ordering(OrderModel::VolumeUp),
            Action::VolumeDown => self.ordering(OrderModel::VolumeDown),
            Action::ToggleMute => self.ordering(OrderModel::ToggleMute),
            Action::CyclePlaybackMode => self.changing_mode(),
            Action::CycleQuality => self.changing_quality(),
            Action::DownloadCurrent => self.saving_current(),
            Action::LyricDelay => self.moving_lyric((0 - LYRIC_STEP_MS) as i64),
            Action::LyricAdvance => self.moving_lyric(LYRIC_STEP_MS),
            _ => self,
        }
    }

    /// A key about lists of songs, and the user's own.
    #[verifier::opaque]
    pub open spec fn collected(self, action: Action) -> AppModel {
        match action {
            Action::SwitchSource => self.changing_source(),
            Action::SetDefaultSource => self.preferring_source(),
            Action::RaiseSourcePriority => self.moving_source(true),
            Action::LowerSourcePriority => self.moving_source(false),
            Action::ClaimVip => self.ordering(OrderModel::AskDay { manual: true }),
            Action::ContextMenu => self.opening_menu(),
            Action::LoadMoreSearch => self.searching_on(),
            Action::Reload => self.reloading(),
            Action::QueueAppend => self.queueing(false),
            Action::QueuePlayNext => self.queueing(true),
            Action::AddAllToQueue => self.queueing_all(),
            Action::RemoveFromQueue => self.unqueueing(),
            Action::ClearQueue => self.asking(ConfirmAction::ClearQueue),
            Action::ClearCache => self.asking(ConfirmAction::ClearCache),
            Action::ToggleSortOrder => self.turning(),
            Action::Login => self.wanting_login(),
            Action::CycleArtistFilter => self.filtering_artists(),
            Action::SyncToCloud => self.syncing_queue(),
            Action::AddToCloud => self.adding_song(),
            Action::RemoveFromCloud => self.removing_song(),
            Action::DeleteCloudPlaylist => if self.state.account.sync_target is None {
                self.told(StatusLevel::Warning, "请先在「云端」标签页选中一个歌单"@)
            } else {
                self.asking(ConfirmAction::DeleteCloudPlaylist)
            },
            Action::NewCloudPlaylist => self.asked(
                DialogsModel {
                    prompt: Some(
                        panes::empty_prompt("新建云端歌单"@, PromptAction::CreateCloudPlaylist),
                    ),
                    ..self.state.dialogs
                },
            ).told(StatusLevel::Info, "输入歌单名称，Enter 创建 · Esc 取消"@),
            _ => self,
        }
    }

    /// A key while lists are browsed.
    #[verifier::opaque]
    pub open spec fn acted(self, action: Action, draw: usize) -> AppModel {
        match action_topic(action) {
            ActionTopic::Quit => self.quitting(action == Action::ForceQuit),
            ActionTopic::Screen => self.steered(action),
            ActionTopic::Sound => self.sounded(action, draw),
            ActionTopic::Collection => self.collected(action),
            ActionTopic::Nothing => self,
        }
    }

    /// What a key changes. Whatever is open in front takes it: the help, a question, a dialog, the
    /// menu of a song, the choice of a quality or of a service, a QR code, the search line.
    #[verifier::opaque]
    pub open spec fn keyed(self, action: Action, draw: usize) -> AppModel {
        let state = self.state;
        if state.screen.help.open {
            self.helped(action)
        } else if state.dialogs.pending_confirm is Some {
            self.answering(state.dialogs.pending_confirm->0, action)
        } else if state.dialogs.prompt is Some {
            self.prompted(state.dialogs.prompt->0, action)
        } else if state.dialogs.context_menu is Some {
            self.menu_keyed(state.dialogs.context_menu->0, action)
        } else if state.dialogs.quality_picker is Some {
            self.picker_keyed(state.dialogs.quality_picker->0, action)
        } else if state.dialogs.login_picker is Some {
            self.login_picker_keyed(state.dialogs.login_picker->0, action)
        } else if state.account.login is Some {
            self.login_keyed(action)
        } else if state.pages.search.editing {
            self.search_keyed(action, draw)
        } else {
            self.acted(action, draw)
        }
    }
}

/// What an action is about.
pub enum ActionTopic {
    Quit,
    Screen,
    Sound,
    Collection,
    Nothing,
}

/// What an action is about.
pub open spec fn action_topic(action: Action) -> ActionTopic {
    match action {
        Action::Quit | Action::ForceQuit => ActionTopic::Quit,
        Action::Help | Action::ToggleSidebar | Action::ToggleLyricPanel | Action::Digit(_)
        | Action::FocusNext | Action::FocusPrev | Action::MoveDown | Action::MoveUp
        | Action::MoveTop | Action::MoveBottom | Action::PageDown | Action::PageUp
        | Action::Submit | Action::Cancel | Action::OpenSearch | Action::OpenSettings
        | Action::OpenRanks | Action::OpenCloud => ActionTopic::Screen,
        Action::PlayPause | Action::Next | Action::Prev | Action::SeekForward
        | Action::SeekBackward | Action::SeekBy(_) | Action::SeekTo(_) | Action::VolumeUp
        | Action::VolumeDown | Action::ToggleMute | Action::CyclePlaybackMode
        | Action::LyricDelay | Action::LyricAdvance | Action::CycleQuality
        | Action::DownloadCurrent => ActionTopic::Sound,
        Action::SwitchSource | Action::SetDefaultSource | Action::RaiseSourcePriority
        | Action::LowerSourcePriority | Action::ClaimVip | Action::ContextMenu
        | Action::LoadMoreSearch | Action::Reload | Action::QueueAppend
        | Action::QueuePlayNext | Action::AddAllToQueue | Action::RemoveFromQueue
        | Action::ClearQueue | Action::ClearCache | Action::ToggleSortOrder | Action::Login
        | Action::CycleArtistFilter | Action::SyncToCloud | Action::AddToCloud
        | Action::RemoveFromCloud | Action::DeleteCloudPlaylist | Action::NewCloudPlaylist =>
        ActionTopic::Collection,
        _ => ActionTopic::Nothing,
    }
}

/// What an action is about.
fn topic_of(action: Action) -> (r: ActionTopic)
    ensures
        r == action_topic(action),
{
    match action {
        Action::Quit | Action::ForceQuit => ActionTopic::Quit,
        Action::Help | Action::ToggleSidebar | Action::ToggleLyricPanel | Action::Digit(_)
        | Action::FocusNext | Action::FocusPrev | Action::MoveDown | Action::MoveUp
        | Action::MoveTop | Action::MoveBottom | Action::PageDown | Action::PageUp
        | Action::Submit | Action::Cancel | Action::OpenSearch | Action::OpenSettings
        | Action::OpenRanks | Action::OpenCloud => ActionTopic::Screen,
        Action::PlayPause | Action::Next | Action::Prev | Action::SeekForward
        | Action::SeekBackward | Action::SeekBy(_) | Action::SeekTo(_) | Action::VolumeUp
        | Action::VolumeDown | Action::ToggleMute | Action::CyclePlaybackMode
        | Action::LyricDelay | Action::LyricAdvance | Action::CycleQuality
        | Action::DownloadCurrent => ActionTopic::Sound,
        Action::SwitchSource | Action::SetDefaultSource | Action::RaiseSourcePriority
        | Action::LowerSourcePriority | Action::ClaimVip | Action::ContextMenu
        | Action::LoadMoreSearch | Action::Reload | Action::QueueAppend
        | Action::QueuePlayNext | Action::AddAllToQueue | Action::RemoveFromQueue
        | Action::ClearQueue | Action::ClearCache | Action::ToggleSortOrder | Action::Login
        | Action::CycleArtistFilter | Action::SyncToCloud | Action::AddToCloud
        | Action::RemoveFromCloud | Action::DeleteCloudPlaylist | Action::NewCloudPlaylist =>
        ActionTopic::Collection,
        _ => ActionTopic::Nothing,
    }
}

// ---------------------------------------------------------------------------
// Keys
// ---------------------------------------------------------------------------
impl App {
    /// Ends the player.
    pub(crate) fn quit(&mut self, force: bool)
        requires
            old(self).deep_view().wf(),
        ensures
            final(self).deep_view() == old(self).deep_view().quitting(force),
            final(self).deep_view().wf(),
    {
        proof {
            reveal(AppModel::quitting);
            reveal(status_model);
        }
        let force = force || self.state.status.force_quit;
        self.leave(force);
    }

    /// Ends the player, with or without saving the settings.
    fn leave(&mut self, force: bool)
        requires
            old(self).deep_view().wf(),
        ensures
            final(self).deep_view() == old(self).deep_view().leaving(force),
            final(self).deep_view().wf(),
    {
        proof {
            reveal(AppModel::wf);
            reveal(AppModel::leaving);
            reveal(status_model);
        }
        self.state.status.should_quit = true;
        self.state.status.force_quit = force;
    }

    /// Takes a key while the help is open.
    fn handle_help_action(&mut self, action: Action)
        requires
            old(self).deep_view().wf(),
        ensures
            final(self).deep_view() == old(self).deep_view().helped(action),
            final(self).deep_view().wf(),
    {
        proof {
            reveal(AppModel::helped);
        }
        match action {
            Action::Quit => self.leave(false),
            Action::ForceQuit => self.leave(true),
            _ => self.scroll_help(action),
        }
    }

    /// Scrolls or closes the help.
    fn scroll_help(&mut self, action: Action)
        requires
            old(self).deep_view().wf(),
        ensures
            final(self).deep_view() == old(self).deep_view().with_help(
                help_moved(old(self).deep_view().state.screen.help, action),
            ),
            final(self).deep_view().wf(),
    {
        proof {
            reveal(AppModel::wf);
            reveal(screen_model);
        }
        move_help(&mut self.state.screen.help, action);
    }

    /// Does what was asked once more.
    fn confirm(&mut self, what: ConfirmAction)
        requires
            old(self).deep_view().wf(),
        ensures
            final(self).deep_view() == old(self).deep_view().confirmed(what),
            final(self).deep_view().wf(),
    {
        proof {
            reveal(AppModel::confirmed);
        }
        match what {
            ConfirmAction::ClearQueue => self.clear_queue(),
            ConfirmAction::DeleteCloudPlaylist => self.delete_cloud_playlist(),
            ConfirmAction::ClearCache => self.order(Order::ClearCache),
            ConfirmAction::Relogin => self.begin_login(),
        }
    }

    /// The question is settled.
    fn settle(&mut self)
        requires
            old(self).deep_view().wf(),
        ensures
            final(self).deep_view() == old(self).deep_view().asked(
                DialogsModel { pending_confirm: None, ..old(self).deep_view().state.dialogs },
            ),
            final(self).deep_view().wf(),
    {
        proof {
            reveal(AppModel::wf);
            reveal(dialogs_model);
        }
        self.state.dialogs.pending_confirm = None;
    }

    /// Takes a key while something is asked once more.
    fn handle_confirm_action(&mut self, what: ConfirmAction, action: Action)
        requires
            old(self).deep_view().wf(),
        ensures
            final(self).deep_view() == old(self).deep_view().answering(what, action),
            final(self).deep_view().wf(),
    {
        proof {
            reveal(AppModel::answering);
        }
        match action {
            Action::Submit => {
                self.settle();
                self.confirm(what);
            },
            Action::Cancel => {
                self.settle();
                self.tell(StatusLevel::Info, "已取消".to_owned());
            },
            Action::Char(c) => {
                if c == 'n' || c == 'N' {
                    self.settle();
                    self.tell(StatusLevel::Info, "已取消".to_owned());
                }
            },
            _ => {},
        }
    }

    /// Closes the dialog that takes a text, and returns the text.
    fn close_prompt(&mut self) -> (r: String)
        requires
            old(self).deep_view().wf(),
            old(self).deep_view().state.dialogs.prompt is Some,
        ensures
            r@ == text::trimmed(old(self).deep_view().state.dialogs.prompt->0.buffer.text),
            final(self).deep_view() == old(self).deep_view().asked(
                DialogsModel { prompt: None, ..old(self).deep_view().state.dialogs },
            ),
            final(self).deep_view().wf(),
    {
        proof {
            reveal(AppModel::wf);
            reveal(dialogs_model);
        }
        let name = match &self.state.dialogs.prompt {
            Some(prompt) => text::trim_text(prompt.buffer.text()),
            None => String::new(),
        };
        self.state.dialogs.prompt = None;
        name
    }

    /// Edits the text of the dialog.
    fn edit_prompt(&mut self, action: Action)
        requires
            old(self).deep_view().wf(),
            old(self).deep_view().state.dialogs.prompt is Some,
        ensures
            final(self).deep_view() == match edited(
                old(self).deep_view().state.dialogs.prompt->0.buffer,
                action,
            ) {
                Some(buffer) => old(self).deep_view().asked(
                    DialogsModel {
                        prompt: Some(
                            PromptModel {
                                buffer,
                                ..old(self).deep_view().state.dialogs.prompt->0
                            },
                        ),
                        ..old(self).deep_view().state.dialogs
                    },
                ),
                None => old(self).deep_view(),
            },
            final(self).deep_view().wf(),
    {
        proof {
            reveal(AppModel::wf);
            reveal(dialogs_model);
        }
        if let Some(prompt) = &mut self.state.dialogs.prompt {
            let _ = edit(&mut prompt.buffer, action);
        }
    }

    /// Takes a key while a dialog takes a text.
    fn handle_prompt_action(&mut self, action: Action)
        requires
            old(self).deep_view().wf(),
            old(self).deep_view().state.dialogs.prompt is Some,
        ensures
            final(self).deep_view() == old(self).deep_view().prompted(
                old(self).deep_view().state.dialogs.prompt->0,
                action,
            ),
            final(self).deep_view().wf(),
    {
        proof {
            reveal(AppModel::prompted);
        }
        match action {
            Action::Submit => {
                let name = self.close_prompt();
                self.create_cloud_playlist(name);
            },
            Action::Cancel => {
                let _ = self.close_prompt();
                self.tell(StatusLevel::Info, "已取消".to_owned());
            },
            Action::Quit => self.quit(false),
            Action::ForceQuit => self.quit(true),
            _ => self.edit_prompt(action),
        }
    }

    /// Gives a login up.
    fn drop_login(&mut self)
        requires
            old(self).deep_view().wf(),
        ensures
            final(self).deep_view() == old(self).deep_view().accounted(
                AccountModel { login: None, ..old(self).deep_view().state.account },
            ),
            final(self).deep_view().wf(),
    {
        proof {
            reveal(AppModel::wf);
            reveal(account_model);
        }
        self.state.account.login = None;
    }

    /// Takes a key while a QR code is shown.
    fn handle_login_action(&mut self, action: Action)
        requires
            old(self).deep_view().wf(),
        ensures
            final(self).deep_view() == old(self).deep_view().login_keyed(action),
            final(self).deep_view().wf(),
    {
        proof {
            reveal(AppModel::login_keyed);
        }
        match action {
            Action::Cancel => {
                self.drop_login();
                self.tell(StatusLevel::Info, "已取消登录".to_owned());
            },
            Action::Quit => self.quit(false),
            Action::ForceQuit => self.quit(true),
            _ => {},
        }
    }

    /// Lets letters go into the search line, or no longer.
    fn set_typing(&mut self, editing: bool)
        requires
            old(self).deep_view().wf(),
        ensures
            final(self).deep_view() == old(self).deep_view().typing(editing),
            final(self).deep_view().wf(),
    {
        proof {
            reveal(AppModel::wf);
            reveal(AppModel::typing);
            reveal(pages_model);
            reveal(search_model);
        }
        self.state.pages.search.editing = editing;
    }

    /// Edits the search line, and returns whether the key is one that does.
    fn edit_search(&mut self, action: Action) -> (r: bool)
        requires
            old(self).deep_view().wf(),
        ensures
            match edited(old(self).deep_view().state.pages.search.input, action) {
                Some(input) => r && final(self).deep_view() == old(self).deep_view().paged(
                    PagesModel {
                        search: SearchModel {
                            input,
                            ..old(self).deep_view().state.pages.search
                        },
                        ..old(self).deep_view().state.pages
                    },
                ),
                None => !r && final(self).deep_view() == old(self).deep_view(),
            },
            final(self).deep_view().wf(),
    {
        proof {
            reveal(AppModel::wf);
            reveal(pages_model);
            reveal(search_model);
        }
        edit(&mut self.state.pages.search.input, action)
    }

    /// Takes a key while letters go into the search line.
    fn handle_editing_action(&mut self, action: Action, draw: usize)
        requires
            old(self).deep_view().wf(),
        ensures
            final(self).deep_view() == old(self).deep_view().search_keyed(action, draw),
            final(self).deep_view().wf(),
    {
        proof {
            reveal(AppModel::search_keyed);
        }
        match action {
            Action::Submit => self.run_search(),
            Action::Cancel => self.set_typing(false),
            _ => {
                if !self.edit_search(action) {
                    self.handle_normal_action(action, draw);
                }
            },
        }
    }

    /// Whether Enter puts letters into the search line first.
    fn search_line_waits(&self) -> (r: bool)
        ensures
            r == (!self.deep_view().state.pages.search.editing
                && self.deep_view().state.pages.search.input.text.len() == 0),
    {
        proof {
            reveal(pages_model);
            reveal(search_model);
        }
        !self.state.pages.search.editing && self.state.pages.search.input.is_empty()
    }

    /// The pane that has the keys.
    fn focus(&self) -> (r: Focus)
        ensures
            r == self.deep_view().state.screen.focus,
    {
        proof {
            reveal(screen_model);
        }
        self.state.screen.focus
    }

    /// Goes on with what is selected.
    pub(crate) fn activate(&mut self)
        requires
            old(self).deep_view().wf(),
        ensures
            final(self).deep_view() == old(self).deep_view().activating(),
            final(self).deep_view().wf(),
    {
        proof {
            reveal(AppModel::activating);
        }
        let tab = self.shown_tab();
        let focus = self.focus();
        if tab == Tab::Visualizer {
            return ;
        }
        if focus == Focus::Queue {
            self.play_from_queue();
            return ;
        }
        if focus == Focus::Sidebar {
            self.turn_to(Focus::Primary);
            return ;
        }
        let songs = focus == Focus::Secondary;
        match tab {
            Tab::Search => {
                if songs {
                    self.play_from_focused_songs();
                } else if self.search_line_waits() {
                    self.set_typing(true);
                } else {
                    self.run_search();
                }
            },
            Tab::Playlists => {
                if songs {
                    self.play_from_focused_songs();
                } else {
                    self.open_selected_playlist();
                }
            },
            Tab::Artists => {
                if songs {
                    self.play_from_focused_songs();
                } else {
                    self.open_selected_artist();
                }
            },
            Tab::Ranks => {
                if songs {
                    self.play_from_focused_songs();
                } else {
                    self.open_selected_rank();
                }
            },
            Tab::Cloud => {
                if songs {
                    self.play_from_focused_songs();
                } else {
                    self.open_selected_cloud_playlist();
                }
            },
            Tab::Queue => self.play_from_queue(),
            _ => {},
        }
    }

    /// Hands the keys to the next pane, or to the one before.
    fn hand_on(&mut self, forward: bool)
        requires
            old(self).deep_view().wf(),
        ensures
            final(self).deep_view() == old(self).deep_view().handing_on(forward),
            final(self).deep_view().wf(),
    {
        proof {
            reveal(AppModel::wf);
            reveal(AppModel::handing_on);
        }
        self.state.cycle_focus(forward);
    }

    /// Changes what is on the screen.
    fn toggle_screen(&mut self, action: Action)
        requires
            old(self).deep_view().wf(),
            action == Action::Help || action == Action::ToggleSidebar || action
                == Action::ToggleLyricPanel,
        ensures
            final(self).deep_view() == old(self).deep_view().steered(action),
            final(self).deep_view().wf(),
    {
        proof {
            reveal(AppModel::wf);
            reveal(AppModel::steered);
            reveal(screen_model);
        }
        match action {
            Action::Help => self.state.screen.help.open(),
            Action::ToggleSidebar => {
                self.state.screen.sidebar_visible = !self.state.screen.sidebar_visible;
            },
            _ => {
                self.state.screen.show_lyric_panel = !self.state.screen.show_lyric_panel;
            },
        }
    }

    /// Takes a key that moves about.
    fn handle_screen_action(&mut self, action: Action)
        requires
            old(self).deep_view().wf(),
        ensures
            final(self).deep_view() == old(self).deep_view().steered(action),
            final(self).deep_view().wf(),
    {
        proof {
            reveal(AppModel::steered);
        }
        match action {
            Action::Help | Action::ToggleSidebar | Action::ToggleLyricPanel => self.toggle_screen(
                action,
            ),
            Action::Digit(number) => {
                if let Some(tab) = Tab::from_number(number) {
                    self.switch_tab(tab);
                }
            },
            Action::FocusNext => self.hand_on(true),
            Action::FocusPrev => self.hand_on(false),
            Action::MoveDown => self.move_selection(1),
            Action::MoveUp => self.move_selection(-1),
            Action::MoveTop => self.move_selection_edge(true),
            Action::MoveBottom => self.move_selection_edge(false),
            Action::PageDown => self.move_selection(PAGE_STEP),
            Action::PageUp => self.move_selection(-PAGE_STEP),
            Action::Submit => self.activate(),
            Action::Cancel => self.go_back(),
            Action::OpenSearch => {
                self.switch_tab(Tab::Search);
                self.set_typing(true);
            },
            Action::OpenSettings => self.switch_tab(Tab::Settings),
            Action::OpenRanks => self.switch_tab(Tab::Ranks),
            Action::OpenCloud => self.switch_tab(Tab::Cloud),
            _ => {},
        }
    }

    /// Takes a key about what is playing.
    fn handle_sound_action(&mut self, action: Action, draw: usize)
        requires
            old(self).deep_view().wf(),
        ensures
            final(self).deep_view() == old(self).deep_view().sounded(action, draw),
            final(self).deep_view().wf(),
    {
        proof {
            reveal(AppModel::sounded);
        }
        match action {
            Action::PlayPause => self.toggle_playback(),
            Action::Next => self.next_track(true, draw),
            Action::Prev => self.previous_track(draw),
            Action::SeekForward => {
                if self.shown_tab() == Tab::Settings {
                    self.change_setting(true);
                } else {
                    self.seek_by(SEEK_STEP_MS);
                }
            },
            Action::SeekBackward => {
                if self.shown_tab() == Tab::Settings {
                    self.change_setting(false);
                } else {
                    self.seek_by(-SEEK_STEP_MS);
                }
            },
            Action::SeekBy(delta_ms) => self.seek_by(delta_ms),
            Action::SeekTo(position_ms) => self.seek_to(position_ms),
            Action::VolumeUp => self.order(Order::VolumeUp),
            Action::VolumeDown => self.order(Order::VolumeDown),
            Action::ToggleMute => self.order(Order::ToggleMute),
            Action::CyclePlaybackMode => self.cycle_playback_mode(),
            Action::CycleQuality => self.cycle_quality(),
            Action::DownloadCurrent => self.save_current(),
            Action::LyricDelay => self.adjust_lyric_offset(-LYRIC_STEP_MS),
            Action::LyricAdvance => self.adjust_lyric_offset(LYRIC_STEP_MS),
            _ => {},
        }
    }

    /// Whether a playlist is chosen.
    fn has_target(&self) -> (r: bool)
        ensures
            r == (self.deep_view().state.account.sync_target is Some),
    {
        proof {
            reveal(account_model);
        }
        self.state.account.sync_target.is_some()
    }

    /// Opens the dialog for a new playlist.
    fn open_prompt(&mut self)
        requires
            old(self).deep_view().wf(),
        ensures
            final(self).deep_view() == old(self).deep_view().asked(
                DialogsModel {
                    prompt: Some(
                        panes::empty_prompt("新建云端歌单"@, PromptAction::CreateCloudPlaylist),
                    ),
                    ..old(self).deep_view().state.dialogs
                },
            ),
            final(self).deep_view().wf(),
    {
        proof {
            reveal(AppModel::wf);
            reveal(dialogs_model);
        }
        self.state.dialogs.prompt = Some(
            PromptState::new("新建云端歌单", PromptAction::CreateCloudPlaylist),
        );
    }

    /// Takes a key about lists of songs, and the user's own.
    fn handle_collection_action(&mut self, action: Action)
        requires
            old(self).deep_view().wf(),
        ensures
            final(self).deep_view() == old(self).deep_view().collected(action),
            final(self).deep_view().wf(),
    {
        proof {
            reveal(AppModel::collected);
        }
        match action {
            Action::SwitchSource => self.switch_source(),
            Action::SetDefaultSource => self.set_default_source(),
            Action::RaiseSourcePriority => self.move_source(true),
            Action::LowerSourcePriority => self.move_source(false),
            Action::ClaimVip => self.order(Order::AskDay { manual: true }),
            Action::ContextMenu => self.open_menu(),
            Action::LoadMoreSearch => self.load_more_search(),
            Action::Reload => self.reload_current_tab(),
            Action::QueueAppend => self.queue_focused_song(false),
            Action::QueuePlayNext => self.queue_focused_song(true),
            Action::AddAllToQueue => self.queue_all_songs(),
            Action::RemoveFromQueue => self.remove_selected_from_queue(),
            Action::ClearQueue => self.ask(ConfirmAction::ClearQueue),
            Action::ClearCache => self.ask(ConfirmAction::ClearCache),
            Action::ToggleSortOrder => self.toggle_sort_order(),
            Action::Login => self.start_login(),
            Action::CycleArtistFilter => self.cycle_artist_filter(),
            Action::SyncToCloud => self.sync_queue_to_cloud(),
            Action::AddToCloud => self.add_focused_song_to_cloud(),
            Action::RemoveFromCloud => self.remove_focused_song_from_cloud(),
            Action::DeleteCloudPlaylist => {
                if self.has_target() {
                    self.ask(ConfirmAction::DeleteCloudPlaylist);
                } else {
                    self.tell(
                        StatusLevel::Warning,
                        "请先在「云端」标签页选中一个歌单".to_owned(),
                    );
                }
            },
            Action::NewCloudPlaylist => {
                self.open_prompt();
                self.tell(
                    StatusLevel::Info,
                    "输入歌单名称，Enter 创建 · Esc 取消".to_owned(),
                );
            },
            _ => {},
        }
    }

    /// Takes a key while lists are browsed.
    pub(crate) fn handle_normal_action(&mut self, action: Action, draw: usize)
        requires
            old(self).deep_view().wf(),
        ensures
            final(self).deep_view() == old(self).deep_view().acted(action, draw),
            final(self).deep_view().wf(),
    {
        proof {
            reveal(AppModel::acted);
        }
        match topic_of(action) {
            ActionTopic::Quit => self.quit(action == Action::ForceQuit),
            ActionTopic::Screen => self.handle_screen_action(action),
            ActionTopic::Sound => self.handle_sound_action(action, draw),
            ActionTopic::Collection => self.handle_collection_action(action),
            ActionTopic::Nothing => {},
        }
    }

    /// What stands in front and takes the keys.
    fn front(&self) -> (r: Front)
        ensures
            r == self.deep_view().state.front(),
    {
        proof {
            reveal(screen_model);
            reveal(dialogs_model);
            reveal(account_model);
            reveal(pages_model);
            reveal(search_model);
        }
        if self.state.screen.help.is_open() {
            return Front::Help;
        }
        if let Some(what) = self.state.dialogs.pending_confirm {
            return Front::Question(what);
        }
        if self.state.dialogs.prompt.is_some() {
            return Front::Prompt;
        }
        if self.state.dialogs.context_menu.is_some() {
            return Front::Menu;
        }
        if self.state.dialogs.quality_picker.is_some() {
            return Front::Qualities;
        }
        if self.state.dialogs.login_picker.is_some() {
            return Front::Services;
        }
        if self.state.account.login.is_some() {
            return Front::Login;
        }
        if self.state.pages.search.editing {
            return Front::SearchLine;
        }
        Front::Lists
    }

    /// Takes an action; `draw` is what chance offers.
    pub fn handle_action(&mut self, action: Action, draw: usize)
        requires
            old(self).deep_view().wf(),
        ensures
            final(self).deep_view() == old(self).deep_view().keyed(action, draw),
            final(self).deep_view().wf(),
    {
        proof {
            reveal(AppModel::keyed);
        }
        match self.front() {
            Front::Help => self.handle_help_action(action),
            Front::Question(what) => self.handle_confirm_action(what, action),
            Front::Prompt => self.handle_prompt_action(action),
            Front::Menu => self.handle_menu_action(action),
            Front::Qualities => self.handle_picker_action(action),
            Front::Services => self.handle_login_picker_action(action),
            Front::Login => self.handle_login_action(action),
            Front::SearchLine => self.handle_editing_action(action, draw),
            Front::Lists => self.handle_normal_action(action, draw),
        }
    }
}

/// What stands in front and takes the keys.
pub enum Front {
    Help,
    Question(ConfirmAction),
    Prompt,
    /// The menu of a song.
    Menu,
    /// The choice of the quality in which a song is saved.
    Qualities,
    /// The choice of the service to log in to.
    Services,
    Login,
    SearchLine,
    Lists,
}

impl StateModel {
    /// What stands in front and takes the keys.
    pub open spec fn front(self) -> Front {
        if self.screen.help.open {
            Front::Help
        } else if self.dialogs.pending_confirm is Some {
            Front::Question(self.dialogs.pending_confirm->0)
        } else if self.dialogs.prompt is Some {
            Front::Prompt
        } else if self.dialogs.context_menu is Some {
            Front::Menu
        } else if self.dialogs.quality_picker is Some {
            Front::Qualities
        } else if self.dialogs.login_picker is Some {
            Front::Services
        } else if self.account.login is Some {
            Front::Login
        } else if self.pages.search.editing {
            Front::SearchLine
        } else {
            Front::Lists
        }
    }
}

// ---------------------------------------------------------------------------
// Laws
// ---------------------------------------------------------------------------
/// While something is asked once more, every key but yes and no is swallowed.
pub proof fn questions_take_every_key(
    app: AppModel,
    what: ConfirmAction,
    action: Action,
    draw: usize,
)
    requires
        app.state.front() == Front::Question(what),
        action != Action::Submit,
        action != Action::Cancel,
        !(action is Char),
    ensures
        app.keyed(action, draw) == app,
{
    reveal(AppModel::keyed);
    reveal(AppModel::answering);
}

/// While it is asked where to log in, nothing but choosing, giving it up and ending the player does
/// anything.
pub proof fn choices_take_every_key(app: AppModel, action: Action, draw: usize)
    requires
        app.state.front() is Services,
        action != Action::MoveDown,
        action != Action::MoveUp,
        action != Action::Submit,
        action != Action::Cancel,
        action != Action::Quit,
        action != Action::ForceQuit,
    ensures
        app.keyed(action, draw) == app,
{
    reveal(AppModel::keyed);
    reveal(AppModel::login_picker_keyed);
}

/// While a QR code is shown, nothing but giving it up and ending the player does anything.
pub proof fn logins_take_every_key(app: AppModel, action: Action, draw: usize)
    requires
        app.state.front() is Login,
        action != Action::Cancel,
        action != Action::Quit,
        action != Action::ForceQuit,
    ensures
        app.keyed(action, draw) == app,
{
    reveal(AppModel::keyed);
    reveal(AppModel::login_keyed);
}

/// Letters that are typed into the search line go into it and do nothing else.
pub proof fn typed_letters_only_change_the_line(app: AppModel, c: char, draw: usize)
    requires
        app.state.front() is SearchLine,
    ensures
        app.keyed(Action::Char(c), draw).state.pages.search.input
            == app.state.pages.search.input.inserted(c),
        app.keyed(Action::Char(c), draw).state.player == app.state.player,
        app.keyed(Action::Char(c), draw).orders == app.orders,
{
    reveal(AppModel::keyed);
    reveal(AppModel::search_keyed);
}

/// While lists are browsed, letters without a meaning do nothing.
pub proof fn stray_letters_do_nothing(app: AppModel, c: char, draw: usize)
    requires
        app.state.front() is Lists,
    ensures
        app.keyed(Action::Char(c), draw) == app,
{
    reveal(AppModel::keyed);
    reveal(AppModel::acted);
}

} // verus!
