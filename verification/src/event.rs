//! What happens to the player: keys, the mouse, the sound, outcomes and the clock.
use vstd::prelude::*;
use crate::config::ConfigModel;
use crate::control::{
    ANIMATED_TICK_MS, CACHE_MEASURE_TICKS, LOGIN_POLL_TICKS, WHEEL_STEP,
};
use crate::engine::{self, AudioEvent, AudioEventModel, PlaybackState};
use crate::input::InputModel;
use crate::keymap::{self, Action, KeyBindings, KeyEvent, KeyMode};
use crate::model;
use crate::navigate::Move;
use crate::order::{self, Loaded, LoadedModel, Order, OrderModel};
use crate::panes::{ConfirmAction, LyricPaneModel, SearchModel};
use crate::state::{
    self, account_model, config_model, pages_model, player_model, screen_model, search_model,
    status_model, PagesModel, PlayerModel, ScreenModel, StateModel, StatusModel,
};
use crate::tab::{Focus, HitTarget, HitZone, StatusLevel, Tab};
use crate::text;
use crate::update::{App, AppModel};

verus! {

/// What the mouse did.
#[derive(Debug, Clone, Copy, PartialEq, Eq, Structural)]
pub enum MouseKind {
    Moved,
    ScrollDown,
    ScrollUp,
    LeftDown,
    RightDown,
    /// Anything else.
    Other,
}

/// What the mouse did, and where.
#[derive(Debug, Clone, Copy, PartialEq, Eq, Structural)]
pub struct MouseEvent {
    pub kind: MouseKind,
    pub column: u16,
    pub row: u16,
}

/// What the sound says of itself at every tick.
#[derive(Debug, Clone, Copy, PartialEq, Eq, Structural)]
pub struct SoundState {
    pub playback: PlaybackState,
    pub position_ms: u64,
    /// 0 where it is not known.
    pub duration_ms: u64,
}

/// What happens to the player.
#[derive(Debug)]
pub enum Event {
    /// A key was pressed. What it means depends on what is in front.
    Key(KeyEvent),
    /// The screen has another size.
    Resize,
    Mouse(MouseEvent),
    Audio(AudioEvent),
    Loaded(Loaded),
    Tick(SoundState),
    /// An action that came from elsewhere than the keys.
    Action(Action),
}

// ---------------------------------------------------------------------------
// What is decided
// ---------------------------------------------------------------------------
/// The pane that a part of the screen belongs to.
pub open spec fn pane_of(target: HitTarget) -> Option<Focus> {
    match target {
        HitTarget::Entries => Some(Focus::Primary),
        HitTarget::Songs => Some(Focus::Secondary),
        HitTarget::Queue => Some(Focus::Queue),
        _ => None,
    }
}

/// The place in a lyric that belongs to a place in its song. A positive offset shows the lyric
/// earlier.
pub open spec fn lyric_place(position_ms: u64, offset_ms: i64) -> u64 {
    let place = engine::signed(position_ms) + offset_ms;
    if place < 0 {
        0
    } else {
        place as u64
    }
}

impl PlayerModel {
    /// The line that is being sung is marked.
    pub open spec fn singing(self, offset_ms: i64) -> PlayerModel {
        PlayerModel {
            lyric: LyricPaneModel {
                active_line: model::sung(
                    self.lyric.lines,
                    lyric_place(self.position_ms, offset_ms),
                ),
                ..self.lyric
            },
            ..self
        }
    }

    /// The sound is as it says.
    pub open spec fn synced(self, sound: SoundState) -> PlayerModel {
        PlayerModel {
            playback: sound.playback,
            position_ms: sound.position_ms,
            duration_ms: if sound.duration_ms > 0 {
                sound.duration_ms
            } else {
                self.duration_ms
            },
            ..self
        }
    }
}

impl AppModel {
    /// The pane that was pointed at gets the keys. Letters no longer go into the search line where it
    /// loses them.
    #[verifier::opaque]
    pub open spec fn pointed(self, target: HitTarget) -> AppModel {
        match pane_of(target) {
            Some(focus) => {
                let turned = self.screened(ScreenModel { focus, ..self.state.screen });
                if self.state.screen.focus == Focus::Primary && focus != Focus::Primary {
                    turned.paged(self.state.pages.not_editing())
                } else {
                    turned
                }
            },
            None => self,
        }
    }

    /// A row was chosen with the mouse.
    #[verifier::opaque]
    pub open spec fn row_chosen(self, target: HitTarget, index: usize) -> AppModel {
        let tab = self.state.screen.tab;
        match target {
            HitTarget::Entries => self.paged(self.state.pages.entry_chosen(tab, index as int)),
            HitTarget::Songs => self.paged(self.state.pages.song_chosen(tab, index as int)),
            HitTarget::Queue => self.played(
                PlayerModel { queue_cursor: Some(index), ..self.state.player },
            ),
            _ => self,
        }
    }

    /// A click is remembered.
    #[verifier::opaque]
    pub open spec fn click_kept(self, target: HitTarget, index: usize, now_ms: u64) -> AppModel {
        self.screened(
            ScreenModel {
                last_click: Some((target, Some(index))),
                last_click_ms: now_ms,
                ..self.state.screen
            },
        )
    }

    /// A row was clicked on: it is selected, and gone on with at a double click.
    #[verifier::opaque]
    pub open spec fn row_clicked(self, zone: HitZone, row: u16, now_ms: u64) -> AppModel {
        match zone.entry_at(row) {
            None => self,
            Some(index) => {
                let chosen = self.row_chosen(zone.target, index as usize).pointed(
                    zone.target,
                ).click_kept(zone.target, index as usize, now_ms);
                if self.state.screen.clicked_before(zone.target, Some(index as usize), now_ms) {
                    chosen.activating()
                } else {
                    chosen
                }
            },
        }
    }

    /// A setting was clicked on.
    #[verifier::opaque]
    pub open spec fn setting_clicked(self, zone: HitZone, row: u16) -> AppModel {
        match zone.entry_at(row) {
            None => self,
            Some(index) => self.paged(
                PagesModel { settings_cursor: index as usize, ..self.state.pages },
            ),
        }
    }

    /// The progress bar was clicked on.
    #[verifier::opaque]
    pub open spec fn bar_clicked(self, zone: HitZone, column: u16) -> AppModel {
        let duration_ms = self.state.player.duration_ms;
        if duration_ms == 0 || zone.rect.width == 0 {
            self
        } else {
            self.ordering(
                OrderModel::SeekBar {
                    column: if column >= zone.rect.x {
                        (column - zone.rect.x) as u16
                    } else {
                        0
                    },
                    width: zone.rect.width,
                    duration_ms,
                },
            )
        }
    }

    /// The place that a click on the progress bar means is known.
    #[verifier::opaque]
    pub open spec fn bar_sought(self, position_ms: u64) -> AppModel {
        let player = self.state.player;
        let last = if player.duration_ms > 0 {
            (player.duration_ms - 1) as u64
        } else {
            0
        };
        let target = if position_ms < last {
            position_ms
        } else {
            last
        };
        self.played(PlayerModel { position_ms: target, ..player }).ordering(
            OrderModel::SeekTo(target),
        )
    }

    /// The left button was pressed.
    #[verifier::opaque]
    pub open spec fn clicked(self, column: u16, row: u16, now_ms: u64) -> AppModel {
        match state::zone_at(self.state.screen.hit_zones, column, row) {
            None => self,
            Some(zone) => match zone.target {
                HitTarget::Tab(index) => if index < 10 {
                    self.showing(Tab::SIDEBAR_ORDER@[index as int], true)
                } else {
                    self
                },
                HitTarget::Entries | HitTarget::Songs | HitTarget::Queue => self.row_clicked(
                    zone,
                    row,
                    now_ms,
                ),
                HitTarget::Progress => self.bar_clicked(zone, column),
                HitTarget::Settings => self.setting_clicked(zone, row),
                HitTarget::VipClaim => self.ordering(OrderModel::AskDay { manual: true }),
                HitTarget::ProfileRetry => self.retrying_profile(),
            },
        }
    }

    /// The right button was pressed: on a song, its menu is open.
    #[verifier::opaque]
    pub open spec fn right_clicked(self, column: u16, row: u16) -> AppModel {
        match state::zone_at(self.state.screen.hit_zones, column, row) {
            None => self,
            Some(zone) => if zone.target == HitTarget::Songs || zone.target == HitTarget::Queue {
                match zone.entry_at(row) {
                    None => self,
                    Some(index) => self.row_chosen(zone.target, index as usize).pointed(
                        zone.target,
                    ).opening_menu(),
                }
            } else {
                self
            },
        }
    }

    /// The mouse wheel was turned: the list under it gets the keys and moves.
    #[verifier::opaque]
    pub open spec fn wheeled(self, column: u16, row: u16, delta: isize) -> AppModel {
        match state::zone_at(self.state.screen.hit_zones, column, row) {
            Some(zone) => if pane_of(zone.target) is Some {
                self.pointed(zone.target).moved(Move::By(delta))
            } else {
                self
            },
            None => self,
        }
    }

    /// What the mouse changes.
    #[verifier::opaque]
    pub open spec fn moused(self, mouse: MouseEvent, now_ms: u64) -> AppModel {
        match mouse.kind {
            MouseKind::Moved => self.screened(
                ScreenModel { hover: Some((mouse.column, mouse.row)), ..self.state.screen },
            ),
            MouseKind::ScrollDown => self.wheeled(mouse.column, mouse.row, 3),
            MouseKind::ScrollUp => self.wheeled(mouse.column, mouse.row, -3isize),
            MouseKind::LeftDown => self.clicked(mouse.column, mouse.row, now_ms),
            MouseKind::RightDown => self.right_clicked(mouse.column, mouse.row),
            MouseKind::Other => self,
        }
    }

    /// A song has begun.
    #[verifier::opaque]
    pub open spec fn begun(self, duration_ms: u64) -> AppModel {
        let player = self.state.player;
        self.busy_with(None).not_downloading().played(
            PlayerModel {
                playback: PlaybackState::Playing,
                duration_ms: if duration_ms > 0 {
                    duration_ms
                } else {
                    player.duration_ms
                },
                ..player
            },
        ).told(
            StatusLevel::Success,
            "正在播放："@ + (match player.current {
                Some(song) => order::song_label(song),
                None => Seq::empty(),
            }),
        )
    }

    /// A song has come to its end. After a part of a song nothing else begins: the user is told why
    /// it ended.
    #[verifier::opaque]
    pub open spec fn ended(self, draw: usize) -> AppModel {
        let player = self.state.player;
        if player.current_is_trial {
            self.played(
                PlayerModel {
                    position_ms: 0,
                    current_is_trial: false,
                    playback: PlaybackState::Stopped,
                    ..player
                },
            ).told(
                StatusLevel::Warning,
                "试听片段已播完（完整版需要对应会员），按 n 跳下一首"@,
            )
        } else {
            self.played(PlayerModel { position_ms: 0, ..player }).going_on(false, draw)
        }
    }

    /// The sound has failed.
    #[verifier::opaque]
    pub open spec fn sound_failed(self, message: Seq<char>) -> AppModel {
        self.busy_with(None).not_downloading().played(
            PlayerModel { playback: PlaybackState::Stopped, ..self.state.player },
        ).told(StatusLevel::Error, message)
    }

    /// What the sound changes.
    #[verifier::opaque]
    pub open spec fn heard(self, event: AudioEventModel, draw: usize) -> AppModel {
        match event {
            AudioEventModel::Ready { duration_ms } => self.begun(duration_ms),
            AudioEventModel::TrackFinished => self.ended(draw),
            AudioEventModel::Failed(message) => self.sound_failed(message),
        }
    }

    /// The player is as the sound says, and the line that is being sung is marked.
    #[verifier::opaque]
    pub open spec fn followed(self, sound: SoundState) -> AppModel {
        let player = self.state.player.synced(sound);
        self.played(
            if sound.playback == PlaybackState::Playing {
                player.singing(self.state.config.lyric_offset_ms)
            } else {
                player
            },
        )
    }

    /// A tick is counted.
    #[verifier::opaque]
    pub open spec fn counted(self) -> AppModel {
        AppModel {
            state: StateModel {
                status: StatusModel {
                    ticks: if self.state.status.ticks == u64::MAX {
                        0
                    } else {
                        (self.state.status.ticks + 1) as u64
                    },
                    ..self.state.status
                },
                ..self.state
            },
            ..self
        }
    }

    /// What is done every now and then.
    #[verifier::opaque]
    pub open spec fn serviced(self) -> AppModel {
        let ticks = self.state.status.ticks;
        let polled = if self.state.account.login is Some && ticks % LOGIN_POLL_TICKS == 0 {
            self.polling_login()
        } else {
            self
        };
        if ticks % CACHE_MEASURE_TICKS == 0 {
            polled.ordering(OrderModel::MeasureCache)
        } else {
            polled
        }
    }

    /// What a tick changes.
    #[verifier::opaque]
    pub open spec fn ticked(self, sound: SoundState) -> AppModel {
        self.counted().followed(sound).ordering(OrderModel::ShowTrack).serviced()
    }
}

/// What happens to the player, in its model.
pub enum EventModel {
    Key(KeyEvent),
    Resize,
    Mouse(MouseEvent),
    Audio(AudioEventModel),
    Loaded(LoadedModel),
    Tick(SoundState),
    Action(Action),
}

impl DeepView for Event {
    type V = EventModel;

    open spec fn deep_view(&self) -> EventModel {
        match self {
            Event::Key(key) => EventModel::Key(*key),
            Event::Resize => EventModel::Resize,
            Event::Mouse(mouse) => EventModel::Mouse(*mouse),
            Event::Audio(event) => EventModel::Audio(event.deep_view()),
            Event::Loaded(loaded) => EventModel::Loaded(loaded.deep_view()),
            Event::Tick(sound) => EventModel::Tick(*sound),
            Event::Action(action) => EventModel::Action(*action),
        }
    }
}

impl AppModel {
    /// What an event changes, with these bindings of keys, at this time and with this offer of
    /// chance.
    #[verifier::opaque]
    pub open spec fn after(
        self,
        event: EventModel,
        bindings: KeyBindings,
        now_ms: u64,
        draw: usize,
    ) -> AppModel {
        match event {
            EventModel::Key(key) => self.keyed(
                keymap::resolved(bindings, key, self.state.key_mode()),
                draw,
            ),
            EventModel::Resize => self,
            EventModel::Mouse(mouse) => self.moused(mouse, now_ms),
            EventModel::Audio(event) => self.heard(event, draw),
            EventModel::Loaded(loaded) => self.received(loaded),
            EventModel::Tick(sound) => self.ticked(sound),
            EventModel::Action(action) => self.keyed(action, draw),
        }
    }
}

impl StateModel {
    /// Which table of keys applies.
    pub open spec fn key_mode(self) -> KeyMode {
        if self.editing() {
            KeyMode::TextInput
        } else {
            KeyMode::Normal
        }
    }
}

// ---------------------------------------------------------------------------
// The mouse
// ---------------------------------------------------------------------------
impl App {
    /// Hands the keys to the pane that was pointed at.
    fn focus_hit_target(&mut self, target: HitTarget)
        requires
            old(self).deep_view().wf(),
        ensures
            final(self).deep_view() == old(self).deep_view().pointed(target),
            final(self).deep_view().wf(),
    {
        proof {
            reveal(AppModel::wf);
            reveal(AppModel::pointed);
            reveal(screen_model);
            reveal(pages_model);
            reveal(search_model);
        }
        let focus = match target {
            HitTarget::Entries => Focus::Primary,
            HitTarget::Songs => Focus::Secondary,
            HitTarget::Queue => Focus::Queue,
            _ => {
                return ;
            },
        };
        if self.state.screen.focus == Focus::Primary && focus != Focus::Primary {
            self.state.pages.search.editing = false;
        }
        self.state.screen.focus = focus;
    }

    /// Selects a row.
    fn choose_row(&mut self, target: HitTarget, index: usize)
        requires
            old(self).deep_view().wf(),
        ensures
            final(self).deep_view() == old(self).deep_view().row_chosen(target, index),
            final(self).deep_view().wf(),
    {
        proof {
            reveal(AppModel::wf);
            reveal(AppModel::row_chosen);
        }
        match target {
            HitTarget::Entries => self.state.select_entry_index(index),
            HitTarget::Songs => self.state.select_song_index(index),
            HitTarget::Queue => {
                proof {
                    reveal(player_model);
                }
                self.state.player.queue_cursor.select(Some(index));
            },
            _ => {},
        }
    }

    /// Remembers a click.
    fn keep_click(&mut self, target: HitTarget, index: usize, now_ms: u64)
        requires
            old(self).deep_view().wf(),
        ensures
            final(self).deep_view() == old(self).deep_view().click_kept(target, index, now_ms),
            final(self).deep_view().wf(),
    {
        proof {
            reveal(AppModel::wf);
            reveal(AppModel::click_kept);
        }
        self.state.set_last_click(target, Some(index), now_ms);
    }

    /// Takes a click on a row.
    fn click_list_row(&mut self, zone: HitZone, row: u16, now_ms: u64)
        requires
            old(self).deep_view().wf(),
        ensures
            final(self).deep_view() == old(self).deep_view().row_clicked(zone, row, now_ms),
            final(self).deep_view().wf(),
    {
        proof {
            reveal(AppModel::row_clicked);
        }
        let index: usize = match zone.index_at(row) {
            Some(index) => index,
            None => {
                return ;
            },
        };
        let double = self.state.is_double_click(zone.target, Some(index), now_ms);
        self.choose_row(zone.target, index);
        self.focus_hit_target(zone.target);
        self.keep_click(zone.target, index, now_ms);
        if double {
            self.activate();
        }
    }

    /// Takes a click on a setting.
    fn click_setting(&mut self, zone: HitZone, row: u16)
        requires
            old(self).deep_view().wf(),
        ensures
            final(self).deep_view() == old(self).deep_view().setting_clicked(zone, row),
            final(self).deep_view().wf(),
    {
        proof {
            reveal(AppModel::wf);
            reveal(AppModel::setting_clicked);
            reveal(pages_model);
        }
        if let Some(index) = zone.index_at(row) {
            self.state.pages.settings_cursor = index;
        }
    }

    /// Takes a click on the progress bar.
    fn click_progress(&mut self, zone: HitZone, column: u16)
        requires
            old(self).deep_view().wf(),
        ensures
            final(self).deep_view() == old(self).deep_view().bar_clicked(zone, column),
            final(self).deep_view().wf(),
    {
        proof {
            reveal(AppModel::bar_clicked);
            reveal(player_model);
        }
        let duration_ms: u64 = self.state.player.duration_ms;
        if duration_ms == 0 || zone.rect.width == 0 {
            return ;
        }
        self.order(
            Order::SeekBar {
                column: column.saturating_sub(zone.rect.x),
                width: zone.rect.width,
                duration_ms,
            },
        );
    }

    /// Goes to the place that a click on the progress bar means.
    pub fn seek_in_bar(&mut self, position_ms: u64)
        requires
            old(self).deep_view().wf(),
        ensures
            final(self).deep_view() == old(self).deep_view().bar_sought(position_ms),
            final(self).deep_view().wf(),
    {
        proof {
            reveal(AppModel::bar_sought);
            reveal(player_model);
        }
        let last: u64 = self.state.player.duration_ms.saturating_sub(1);
        let target: u64 = if position_ms < last {
            position_ms
        } else {
            last
        };
        self.set_position(target);
        self.order(Order::SeekTo(target));
    }

    /// Takes a press of the left button.
    fn click_at(&mut self, column: u16, row: u16, now_ms: u64)
        requires
            old(self).deep_view().wf(),
        ensures
            final(self).deep_view() == old(self).deep_view().clicked(column, row, now_ms),
            final(self).deep_view().wf(),
    {
        proof {
            reveal(AppModel::clicked);
        }
        let zone = match self.state.hit_test(column, row) {
            Some(zone) => zone,
            None => {
                return ;
            },
        };
        match zone.target {
            HitTarget::Tab(index) => {
                if let Some(tab) = Tab::from_sidebar_index(index) {
                    self.switch_tab(tab);
                }
            },
            HitTarget::Entries | HitTarget::Songs | HitTarget::Queue => self.click_list_row(
                zone,
                row,
                now_ms,
            ),
            HitTarget::Progress => self.click_progress(zone, column),
            HitTarget::Settings => self.click_setting(zone, row),
            HitTarget::VipClaim => self.order(Order::AskDay { manual: true }),
            HitTarget::ProfileRetry => self.retry_profile(),
        }
    }

    /// Takes a press of the right button.
    fn open_menu_at(&mut self, column: u16, row: u16)
        requires
            old(self).deep_view().wf(),
        ensures
            final(self).deep_view() == old(self).deep_view().right_clicked(column, row),
            final(self).deep_view().wf(),
    {
        proof {
            reveal(AppModel::right_clicked);
        }
        let zone = match self.state.hit_test(column, row) {
            Some(zone) => zone,
            None => {
                return ;
            },
        };
        match zone.target {
            HitTarget::Songs | HitTarget::Queue => {},
            _ => {
                return ;
            },
        }
        if let Some(index) = zone.index_at(row) {
            self.choose_row(zone.target, index);
            self.focus_hit_target(zone.target);
            self.open_menu();
        }
    }

    /// Takes a turn of the mouse wheel.
    fn scroll_list_at(&mut self, column: u16, row: u16, delta: isize)
        requires
            old(self).deep_view().wf(),
        ensures
            final(self).deep_view() == old(self).deep_view().wheeled(column, row, delta),
            final(self).deep_view().wf(),
    {
        proof {
            reveal(AppModel::wheeled);
        }
        let zone = match self.state.hit_test(column, row) {
            Some(zone) => zone,
            None => {
                return ;
            },
        };
        match zone.target {
            HitTarget::Entries | HitTarget::Songs | HitTarget::Queue => {
                self.focus_hit_target(zone.target);
                self.move_selection(delta);
            },
            _ => {},
        }
    }

    /// Takes in where the mouse is.
    fn set_hover(&mut self, column: u16, row: u16)
        requires
            old(self).deep_view().wf(),
        ensures
            final(self).deep_view() == old(self).deep_view().screened(
                ScreenModel {
                    hover: Some((column, row)),
                    ..old(self).deep_view().state.screen
                },
            ),
            final(self).deep_view().wf(),
    {
        proof {
            reveal(AppModel::wf);
            reveal(screen_model);
        }
        self.state.screen.hover = Some((column, row));
    }

    /// Takes what the mouse did.
    pub fn handle_mouse(&mut self, mouse: MouseEvent, now_ms: u64)
        requires
            old(self).deep_view().wf(),
        ensures
            final(self).deep_view() == old(self).deep_view().moused(mouse, now_ms),
            final(self).deep_view().wf(),
    {
        proof {
            reveal(AppModel::moused);
        }
        match mouse.kind {
            MouseKind::Moved => self.set_hover(mouse.column, mouse.row),
            MouseKind::ScrollDown => self.scroll_list_at(mouse.column, mouse.row, WHEEL_STEP),
            MouseKind::ScrollUp => self.scroll_list_at(mouse.column, mouse.row, -WHEEL_STEP),
            MouseKind::LeftDown => self.click_at(mouse.column, mouse.row, now_ms),
            MouseKind::RightDown => self.open_menu_at(mouse.column, mouse.row),
            MouseKind::Other => {},
        }
    }
}

// ---------------------------------------------------------------------------
// The sound and the clock
// ---------------------------------------------------------------------------
impl App {
    /// Takes in that a song has begun.
    fn take_begin(&mut self, duration_ms: u64)
        requires
            old(self).deep_view().wf(),
        ensures
            final(self).deep_view() == old(self).deep_view().begun(duration_ms),
            final(self).deep_view().wf(),
    {
        proof {
            reveal(AppModel::begun);
        }
        let label = self.playing_label();
        self.set_busy(None);
        self.end_download();
        self.mark_playing(duration_ms);
        self.tell(StatusLevel::Success, text::join2("正在播放：", label.as_str()));
    }

    /// Singers and title of the song that is playing.
    fn playing_label(&self) -> (r: String)
        ensures
            r@ == match self.deep_view().state.player.current {
                Some(song) => order::song_label(song),
                None => Seq::empty(),
            },
    {
        proof {
            reveal(player_model);
        }
        match &self.state.player.current {
            Some(song) => order::describe_song(song),
            None => String::new(),
        }
    }

    /// Takes in that the sound plays.
    fn mark_playing(&mut self, duration_ms: u64)
        requires
            old(self).deep_view().wf(),
        ensures
            final(self).deep_view() == old(self).deep_view().played(
                PlayerModel {
                    playback: PlaybackState::Playing,
                    duration_ms: if duration_ms > 0 {
                        duration_ms
                    } else {
                        old(self).deep_view().state.player.duration_ms
                    },
                    ..old(self).deep_view().state.player
                },
            ),
            final(self).deep_view().wf(),
    {
        proof {
            reveal(AppModel::wf);
            reveal(player_model);
        }
        if duration_ms > 0 {
            self.state.player.duration_ms = duration_ms;
        }
        self.state.player.playback = PlaybackState::Playing;
    }

    /// Takes in that the sound has stopped.
    fn mark_stopped(&mut self)
        requires
            old(self).deep_view().wf(),
        ensures
            final(self).deep_view() == old(self).deep_view().played(
                PlayerModel {
                    playback: PlaybackState::Stopped,
                    ..old(self).deep_view().state.player
                },
            ),
            final(self).deep_view().wf(),
    {
        proof {
            reveal(AppModel::wf);
            reveal(player_model);
        }
        self.state.player.playback = PlaybackState::Stopped;
    }

    /// Takes in that a song has come to its end.
    fn take_end(&mut self, draw: usize)
        requires
            old(self).deep_view().wf(),
        ensures
            final(self).deep_view() == old(self).deep_view().ended(draw),
            final(self).deep_view().wf(),
    {
        proof {
            reveal(AppModel::ended);
        }
        let trial = self.is_trial();
        self.set_position(0);
        if trial {
            self.mark_trial(false);
            self.mark_stopped();
            self.tell(
                StatusLevel::Warning,
                "试听片段已播完（完整版需要对应会员），按 n 跳下一首".to_owned(),
            );
        } else {
            self.next_track(false, draw);
        }
    }

    /// Whether only a part of a song is being played.
    fn is_trial(&self) -> (r: bool)
        ensures
            r == self.deep_view().state.player.current_is_trial,
    {
        proof {
            reveal(player_model);
        }
        self.state.player.current_is_trial
    }

    /// Takes in that the sound has failed.
    fn take_sound_failure(&mut self, message: String)
        requires
            old(self).deep_view().wf(),
        ensures
            final(self).deep_view() == old(self).deep_view().sound_failed(message@),
            final(self).deep_view().wf(),
    {
        proof {
            reveal(AppModel::sound_failed);
        }
        self.set_busy(None);
        self.end_download();
        self.mark_stopped();
        self.tell(StatusLevel::Error, message);
    }

    /// Takes in what the sound says.
    pub fn handle_audio_event(&mut self, event: AudioEvent, draw: usize)
        requires
            old(self).deep_view().wf(),
        ensures
            final(self).deep_view() == old(self).deep_view().heard(event.deep_view(), draw),
            final(self).deep_view().wf(),
    {
        proof {
            reveal(AppModel::heard);
        }
        match event {
            AudioEvent::Ready { duration_ms } => self.take_begin(duration_ms),
            AudioEvent::TrackFinished => self.take_end(draw),
            AudioEvent::Failed(message) => self.take_sound_failure(message),
        }
    }

    /// Takes in how the sound is.
    fn follow(&mut self, sound: SoundState)
        requires
            old(self).deep_view().wf(),
        ensures
            final(self).deep_view() == old(self).deep_view().followed(sound),
            final(self).deep_view().wf(),
    {
        proof {
            reveal(AppModel::wf);
            reveal(AppModel::followed);
            reveal(player_model);
            reveal(config_model);
        }
        self.state.player.playback = sound.playback;
        self.state.player.position_ms = sound.position_ms;
        if sound.duration_ms > 0 {
            self.state.player.duration_ms = sound.duration_ms;
        }
        if sound.playback == PlaybackState::Playing {
            let place: u64 = place_in_lyric(
                sound.position_ms,
                self.state.config.lyric_offset_ms,
            );
            let line = self.state.player.lyric.lyric.index_at(place);
            self.state.player.lyric.active_line = line;
        }
    }

    /// Counts a tick.
    fn count(&mut self)
        requires
            old(self).deep_view().wf(),
        ensures
            final(self).deep_view() == old(self).deep_view().counted(),
            final(self).deep_view().wf(),
    {
        proof {
            reveal(AppModel::wf);
            reveal(AppModel::counted);
            reveal(status_model);
        }
        let ticks: u64 = self.state.status.ticks;
        self.state.status.ticks = if ticks == u64::MAX {
            0
        } else {
            ticks + 1
        };
    }

    /// Does what is done every now and then.
    fn service(&mut self)
        requires
            old(self).deep_view().wf(),
        ensures
            final(self).deep_view() == old(self).deep_view().serviced(),
            final(self).deep_view().wf(),
    {
        proof {
            reveal(AppModel::serviced);
            reveal(status_model);
            reveal(account_model);
        }
        let ticks: u64 = self.state.status.ticks;
        if self.state.account.login.is_some() && ticks % LOGIN_POLL_TICKS == 0 {
            self.poll_login();
        }
        if ticks % CACHE_MEASURE_TICKS == 0 {
            self.order(Order::MeasureCache);
        }
    }

    /// Takes a tick of the clock.
    pub fn tick(&mut self, sound: SoundState)
        requires
            old(self).deep_view().wf(),
        ensures
            final(self).deep_view() == old(self).deep_view().ticked(sound),
            final(self).deep_view().wf(),
    {
        proof {
            reveal(AppModel::ticked);
        }
        self.count();
        self.follow(sound);
        self.order(Order::ShowTrack);
        self.service();
    }

    /// How long to wait for an event before the screen is drawn again, in milliseconds. It is drawn
    /// more often while something on it moves.
    pub fn frame_interval(&self) -> (r: u64)
        ensures
            r == self.deep_view().state.interval(),
    {
        proof {
            reveal(config_model);
            reveal(screen_model);
            reveal(player_model);
        }
        let base: u64 = self.state.config.tick_ms;
        let moving = self.state.player.playback == PlaybackState::Playing && (
        self.state.screen.tab == Tab::Visualizer || self.state.screen.lyric_visible);
        if moving && base > ANIMATED_TICK_MS {
            ANIMATED_TICK_MS
        } else {
            base
        }
    }

    /// Takes what happens. Chance offers `draw`.
    pub fn handle_event(&mut self, event: Event, bindings: &KeyBindings, now_ms: u64, draw: usize)
        requires
            old(self).deep_view().wf(),
            event matches Event::Loaded(loaded) ==> loaded.deep_view().sound(),
        ensures
            final(self).deep_view() == old(self).deep_view().after(
                event.deep_view(),
                *bindings,
                now_ms,
                draw,
            ),
            final(self).deep_view().wf(),
    {
        proof {
            reveal(AppModel::after);
        }
        match event {
            Event::Key(key) => {
                let mode = if self.state.is_editing() {
                    KeyMode::TextInput
                } else {
                    KeyMode::Normal
                };
                let action = keymap::resolve_with(bindings, key, mode);
                self.handle_action(action, draw);
            },
            Event::Resize => {},
            Event::Mouse(mouse) => self.handle_mouse(mouse, now_ms),
            Event::Audio(event) => self.handle_audio_event(event, draw),
            Event::Loaded(loaded) => self.handle_loaded(loaded),
            Event::Tick(sound) => self.tick(sound),
            Event::Action(action) => self.handle_action(action, draw),
        }
    }
}

impl StateModel {
    /// How long to wait for an event before the screen is drawn again, in milliseconds.
    pub open spec fn interval(self) -> u64 {
        if self.player.playback == PlaybackState::Playing && (self.screen.tab == Tab::Visualizer
            || self.screen.lyric_visible) && self.config.tick_ms > ANIMATED_TICK_MS {
            ANIMATED_TICK_MS
        } else {
            self.config.tick_ms
        }
    }
}

/// The place in a lyric that belongs to a place in its song.
fn place_in_lyric(position_ms: u64, offset_ms: i64) -> (r: u64)
    ensures
        r == lyric_place(position_ms, offset_ms),
{
    let from: i128 = if position_ms <= i64::MAX as u64 {
        position_ms as i128
    } else {
        position_ms as i128 - 0x1_0000_0000_0000_0000
    };
    let place: i128 = from + offset_ms as i128;
    if place < 0 {
        0
    } else {
        place as u64
    }
}

// ---------------------------------------------------------------------------
// Beginning and end
// ---------------------------------------------------------------------------
impl AppModel {
    /// The player has started: the user is told, and what is missing is asked for.
    #[verifier::opaque]
    pub open spec fn opened(self, base: Seq<char>, sound_failed: bool) -> AppModel {
        let ready = self.ready(base);
        let told = if sound_failed {
            ready.told(StatusLevel::Error, "音频线程启动失败，播放不可用（详见日志）"@)
        } else {
            ready
        };
        let asked = told.asking_device().ordering(
            OrderModel::MeasureCache,
        ).asking_membership().asking_profile();
        asked.entering(asked.state.screen.tab)
    }

    /// A search was asked for at the start.
    #[verifier::opaque]
    pub open spec fn searching_first(self, keyword: Seq<char>) -> AppModel {
        self.showing(Tab::Search, true).line_set(keyword).searching()
    }

    /// Another text stands in the search line.
    #[verifier::opaque]
    pub open spec fn line_set(self, line: Seq<char>) -> AppModel {
        let pages = self.state.pages;
        self.paged(
            PagesModel {
                search: SearchModel {
                    input: InputModel { text: line, cursor: line.len() as int },
                    ..pages.search
                },
                ..pages
            },
        )
    }

    /// The player ends: the settings are saved, unless it was to end at once. An address that was
    /// given for this run only is not saved.
    #[verifier::opaque]
    pub open spec fn closed(self) -> AppModel {
        let config = self.state.config;
        if self.state.status.force_quit {
            self
        } else {
            self.configured(
                ConfigModel {
                    playback_mode: self.state.player.queue.mode,
                    api_base: config.sources.profile(config.sources.active).api_base,
                    ..config
                },
            ).ordering(OrderModel::SaveConfig)
        }
    }
}

impl App {
    /// Starts the player; `base` is the address of the server.
    pub fn start(&mut self, base: &str, sound_failed: bool)
        requires
            old(self).deep_view().wf(),
        ensures
            final(self).deep_view() == old(self).deep_view().opened(base@, sound_failed),
            final(self).deep_view().wf(),
    {
        proof {
            reveal(AppModel::opened);
        }
        self.announce_readiness(base);
        if sound_failed {
            self.tell(
                StatusLevel::Error,
                "音频线程启动失败，播放不可用（详见日志）".to_owned(),
            );
        }
        self.ensure_device_fingerprint();
        self.order(Order::MeasureCache);
        self.fetch_vip_status();
        self.fetch_profile();
        let tab = self.shown_tab();
        self.ensure_tab_loaded(tab);
    }

    /// Puts a text into the search line.
    fn set_line(&mut self, line: &str)
        requires
            old(self).deep_view().wf(),
        ensures
            final(self).deep_view() == old(self).deep_view().line_set(line@),
            final(self).deep_view().wf(),
    {
        proof {
            reveal(AppModel::wf);
            reveal(AppModel::line_set);
            reveal(pages_model);
            reveal(search_model);
        }
        self.state.pages.search.input.set(line);
    }

    /// Searches at the start.
    pub fn startup_search(&mut self, keyword: &str)
        requires
            old(self).deep_view().wf(),
        ensures
            final(self).deep_view() == old(self).deep_view().searching_first(keyword@),
            final(self).deep_view().wf(),
    {
        proof {
            reveal(AppModel::searching_first);
        }
        self.switch_tab(Tab::Search);
        self.set_line(keyword);
        self.run_search();
    }

    /// Ends the player.
    pub fn shutdown(&mut self)
        requires
            old(self).deep_view().wf(),
        ensures
            final(self).deep_view() == old(self).deep_view().closed(),
            final(self).deep_view().wf(),
    {
        proof {
            reveal(AppModel::wf);
            reveal(AppModel::closed);
            reveal(status_model);
            reveal(config_model);
            reveal(player_model);
        }
        if self.state.status.force_quit {
            return ;
        }
        self.state.config.playback_mode = self.state.player.queue.mode();
        let active = self.state.config.active_source_kind();
        self.state.config.api_base = self.state.config.sources.profile(active).api_base.clone();
        self.order(Order::SaveConfig);
    }
}

// ---------------------------------------------------------------------------
// Laws
// ---------------------------------------------------------------------------
/// Ctrl+C ends the player at once, whatever is open in front and whatever the user has bound; only a
/// question that waits for yes or no comes before it.
pub proof fn ctrl_c_ends_the_player(
    app: AppModel,
    key: KeyEvent,
    bindings: KeyBindings,
    now_ms: u64,
    draw: usize,
)
    requires
        keymap::is_ctrl_c(key),
        app.state.dialogs.pending_confirm is None || app.state.screen.help.open,
    ensures
        app.after(EventModel::Key(key), bindings, now_ms, draw) == app.quitting(true),
        app.quitting(true).state.status.should_quit,
        app.quitting(true).state.status.force_quit,
{
    reveal(AppModel::after);
    reveal(AppModel::keyed);
    reveal(AppModel::helped);
    reveal(AppModel::prompted);
    reveal(AppModel::menu_keyed);
    reveal(AppModel::picker_keyed);
    reveal(AppModel::login_picker_keyed);
    reveal(AppModel::login_keyed);
    reveal(AppModel::search_keyed);
    reveal(AppModel::acted);
    reveal(AppModel::quitting);
    reveal(AppModel::leaving);
}

/// The keys that destroy something only ask once more: nothing is lost and nothing is ordered.
pub proof fn one_key_destroys_nothing(app: AppModel, draw: usize)
    requires
        app.state.front() is Lists,
        app.state.account.sync_target is Some,
    ensures
        app.keyed(Action::ClearQueue, draw) == app.asking(ConfirmAction::ClearQueue),
        app.keyed(Action::ClearCache, draw) == app.asking(ConfirmAction::ClearCache),
        app.keyed(Action::DeleteCloudPlaylist, draw) == app.asking(
            ConfirmAction::DeleteCloudPlaylist,
        ),
        forall|what: ConfirmAction|
            (#[trigger] app.asking(what)).state.player == app.state.player && app.asking(
                what,
            ).orders == app.orders,
{
    reveal(AppModel::keyed);
    reveal(AppModel::acted);
    reveal(AppModel::collected);
    reveal(AppModel::asking);
}

/// No says no: nothing but the question is gone.
pub proof fn questions_can_be_declined(app: AppModel, what: ConfirmAction)
    ensures
        app.answering(what, Action::Cancel).orders == app.orders,
        app.answering(what, Action::Cancel).state.player == app.state.player,
        app.answering(what, Action::Cancel).state.account == app.state.account,
        app.answering(what, Action::Cancel).state.dialogs.pending_confirm is None,
{
    reveal(AppModel::answering);
    reveal(AppModel::told);
}

/// A greater offset never shows a lyric later: raising it at the same place in the song never moves
/// the line that is marked back.
pub proof fn offsets_bring_lyrics_forward(player: PlayerModel, less: i64, more: i64)
    requires
        less <= more,
        player.lyric.lines.len() <= usize::MAX,
    ensures
        lyric_place(player.position_ms, less) <= lyric_place(player.position_ms, more),
        player.singing(less).lyric.active_line matches Some(line) ==> player.singing(
            more,
        ).lyric.active_line matches Some(other) && line <= other,
{
    model::lemma_sung_on(
        player.lyric.lines,
        lyric_place(player.position_ms, less),
        lyric_place(player.position_ms, more),
    );
}

/// The end of a part of a song does not lead to the next song.
pub proof fn trial_parts_do_not_lead_on(app: AppModel, draw: usize)
    requires
        app.state.player.current_is_trial,
    ensures
        app.heard(AudioEventModel::TrackFinished, draw).orders == app.orders,
        app.heard(AudioEventModel::TrackFinished, draw).state.player.current
            == app.state.player.current,
        app.heard(AudioEventModel::TrackFinished, draw).state.player.queue
            == app.state.player.queue,
{
    reveal(AppModel::heard);
    reveal(AppModel::ended);
    reveal(AppModel::told);
}

} // verus!
