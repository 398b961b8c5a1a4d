//! The menu of a song, and saving songs.
use vstd::prelude::*;
use crate::keymap::Action;
use crate::model::{self, Song, SongModel};
use crate::order::{self, Order, OrderModel};
use crate::panes::{self, ContextMenu, MenuAction, QualityPicker};
use crate::settings;
use crate::state::{
    config_model, dialogs_model, player_model, screen_model, DialogsModel, MenuModel,
    QualityPickerModel,
};
use crate::tab::{Focus, StatusLevel, Tab};
use crate::text;
use crate::update::{App, AppModel};

verus! {

/// The first place from `from` on of a song with the given hash.
pub open spec fn place_of(songs: Seq<SongModel>, hash: Seq<char>, from: int) -> Option<int>
    decreases songs.len() - from,
{
    if from < 0 || from >= songs.len() {
        None
    } else if songs[from].hash == hash {
        Some(from)
    } else {
        place_of(songs, hash, from + 1)
    }
}

/// The first place of a song with the given hash.
fn find_song(songs: &[Song], hash: &str) -> (r: Option<usize>)
    ensures
        match r {
            Some(at) => at < songs@.len() && place_of(songs.deep_view(), hash@, 0) == Some(
                at as int,
            ),
            None => place_of(songs.deep_view(), hash@, 0) is None,
        },
{
    let ghost all = songs.deep_view();
    let mut i: usize = 0;
    while i < songs.len()
        invariant
            i <= songs@.len(),
            all == songs.deep_view(),
            place_of(all, hash@, 0) == place_of(all, hash@, i as int),
        decreases songs@.len() - i,
    {
        proof {
            assert(all[i as int] == songs@[i as int].deep_view());
        }
        if text::same(songs[i].hash.as_str(), hash) {
            return Some(i);
        }
        i += 1;
    }
    None
}

/// The name of a file for a text.
pub open spec fn file_name(label: Seq<char>) -> Seq<char> {
    label.map_values(|c: char| settings::file_char(c))
}

impl MenuModel {
    /// The entry that is selected.
    pub open spec fn chosen(self) -> Option<MenuAction> {
        if self.cursor < self.items.len() {
            Some(self.items[self.cursor as int])
        } else {
            None
        }
    }

    /// The menu with another entry selected, going round.
    pub open spec fn moved(self, delta: int) -> MenuModel {
        if self.items.len() == 0 {
            self
        } else {
            MenuModel {
                cursor: ((self.cursor + delta) % (self.items.len() as int)) as usize,
                ..self
            }
        }
    }
}

impl QualityPickerModel {
    /// The quality that is selected.
    pub open spec fn chosen(self) -> Option<Seq<char>> {
        let row = panes::picked_row(self.selected);
        if row < self.candidates.len() {
            Some(self.candidates[row])
        } else {
            None
        }
    }

    /// The picker with another quality selected.
    pub open spec fn moved(self, delta: int) -> QualityPickerModel {
        QualityPickerModel {
            selected: panes::picker_moved(self.selected, self.candidates.len() as int, delta),
            ..self
        }
    }
}

// ---------------------------------------------------------------------------
// What is decided
// ---------------------------------------------------------------------------
impl AppModel {
    /// The queue is what the keys act on.
    pub open spec fn in_queue(self) -> bool {
        self.state.screen.focus == Focus::Queue || self.state.screen.tab == Tab::Queue
    }

    /// The menu of the selected song is open.
    #[verifier::opaque]
    pub open spec fn opening_menu(self) -> AppModel {
        match self.state.selected_song() {
            None => self.told(StatusLevel::Warning, "当前没有选中的歌曲"@),
            Some(song) => self.asked(
                DialogsModel {
                    context_menu: Some(
                        MenuModel { song, items: MenuAction::offered(self.in_queue()), cursor: 0 },
                    ),
                    ..self.state.dialogs
                },
            ),
        }
    }

    /// A song is played where it stands: in the list that is shown, else in the queue, else alone.
    #[verifier::opaque]
    pub open spec fn playing_song(self, song: SongModel) -> AppModel {
        let list = self.state.songs();
        let queued = place_of(self.state.player.queue.items, song.hash, 0);
        if !self.in_queue() && list is Some && place_of(list->0.songs, song.hash, 0) is Some {
            self.playing_from(
                list->0.songs,
                place_of(list->0.songs, song.hash, 0)->0 as usize,
            )
        } else if queued is Some {
            self.moving_to(queued->0)
        } else {
            self.playing_from(seq![song], 0)
        }
    }

    /// A song is taken out of the queue, where it is in it.
    #[verifier::opaque]
    pub open spec fn unqueueing_song(self, song: SongModel) -> AppModel {
        match place_of(self.state.player.queue.items, song.hash, 0) {
            Some(at) => self.unqueueing_at(at as usize),
            None => self,
        }
    }

    /// It is asked in which quality a song is saved, beginning with the one in use.
    #[verifier::opaque]
    pub open spec fn choosing_quality(self, song: SongModel) -> AppModel {
        self.asked(
            DialogsModel {
                quality_picker: Some(
                    QualityPickerModel {
                        song,
                        candidates: panes::quality_texts(),
                        selected: Some(panes::quality_row(self.state.config.quality) as usize),
                    },
                ),
                ..self.state.dialogs
            },
        )
    }

    /// The song that is playing is to be saved.
    #[verifier::opaque]
    pub open spec fn saving_current(self) -> AppModel {
        match self.state.player.current {
            None => self.told(StatusLevel::Warning, "当前没有正在播放的歌曲"@),
            Some(song) => self.choosing_quality(song),
        }
    }

    /// A song is being saved.
    #[verifier::opaque]
    pub open spec fn saving(self, song: SongModel, quality: Seq<char>) -> AppModel {
        self.busy_with(Some("下载《"@ + order::song_label(song) + "》"@)).ordering(
            OrderModel::SaveSong {
                song,
                quality,
                dir: self.state.config.download_dir,
                name: file_name(order::song_label(song)),
            },
        )
    }

    /// A song was saved.
    #[verifier::opaque]
    pub open spec fn song_saved(self, song: SongModel, path: Seq<char>) -> AppModel {
        self.busy_with(None).not_downloading().told(
            StatusLevel::Success,
            "已下载《"@ + order::song_label(song) + "》到 "@ + path,
        )
    }

    /// An entry of the menu of a song is carried out.
    #[verifier::opaque]
    pub open spec fn menu_done(self, song: SongModel, entry: Option<MenuAction>) -> AppModel {
        match entry {
            Some(MenuAction::Play) => self.playing_song(song),
            Some(MenuAction::QueueAppend) => self.queueing_song(Some(song), false),
            Some(MenuAction::QueuePlayNext) => self.queueing_song(Some(song), true),
            Some(MenuAction::AddToCloud) => self.adding(Some(song)),
            Some(MenuAction::Download) => self.choosing_quality(song),
            Some(MenuAction::RemoveFromQueue) => self.unqueueing_song(song),
            None => self,
        }
    }

    /// The menu is closed.
    pub open spec fn menu_closed(self) -> AppModel {
        self.asked(DialogsModel { context_menu: None, ..self.state.dialogs })
    }

    /// The choice of a quality is closed.
    pub open spec fn picker_closed(self) -> AppModel {
        self.asked(DialogsModel { quality_picker: None, ..self.state.dialogs })
    }

    /// A key while the menu of a song is open.
    #[verifier::opaque]
    pub open spec fn menu_keyed(self, menu: MenuModel, action: Action) -> AppModel {
        match action {
            Action::MoveDown => self.asked(
                DialogsModel { context_menu: Some(menu.moved(1)), ..self.state.dialogs },
            ),
            Action::MoveUp => self.asked(
                DialogsModel { context_menu: Some(menu.moved(-1)), ..self.state.dialogs },
            ),
            Action::Submit => self.menu_closed().menu_done(menu.song, menu.chosen()),
            Action::Cancel => self.menu_closed(),
            Action::Quit => self.quitting(false),
            Action::ForceQuit => self.quitting(true),
            _ => self,
        }
    }

    /// A key while it is asked in which quality a song is saved.
    #[verifier::opaque]
    pub open spec fn picker_keyed(self, picker: QualityPickerModel, action: Action) -> AppModel {
        match action {
            Action::MoveDown => self.asked(
                DialogsModel { quality_picker: Some(picker.moved(1)), ..self.state.dialogs },
            ),
            Action::MoveUp => self.asked(
                DialogsModel { quality_picker: Some(picker.moved(-1)), ..self.state.dialogs },
            ),
            Action::Submit => match picker.chosen() {
                Some(quality) => self.picker_closed().saving(picker.song, quality),
                None => self.picker_closed(),
            },
            Action::Cancel => self.picker_closed().told(StatusLevel::Info, "已取消"@),
            Action::Quit => self.quitting(false),
            Action::ForceQuit => self.quitting(true),
            _ => self,
        }
    }
}

// ---------------------------------------------------------------------------
// How it is done
// ---------------------------------------------------------------------------
impl App {
    /// Whether the queue is what the keys act on.
    fn acts_on_queue(&self) -> (r: bool)
        ensures
            r == self.deep_view().in_queue(),
    {
        proof {
            reveal(screen_model);
        }
        self.state.screen.focus == Focus::Queue || self.state.screen.tab == Tab::Queue
    }

    /// Shows a menu, or none.
    fn set_menu(&mut self, menu: Option<ContextMenu>) -> (r: Option<ContextMenu>)
        requires
            old(self).deep_view().wf(),
        ensures
            crate::state::menu_model(r) == old(self).deep_view().state.dialogs.context_menu,
            final(self).deep_view() == old(self).deep_view().asked(
                DialogsModel {
                    context_menu: crate::state::menu_model(menu),
                    ..old(self).deep_view().state.dialogs
                },
            ),
            final(self).deep_view().wf(),
    {
        proof {
            reveal(AppModel::wf);
            reveal(dialogs_model);
        }
        let mut menu = menu;
        std::mem::swap(&mut menu, &mut self.state.dialogs.context_menu);
        menu
    }

    /// Shows a choice of qualities, or none.
    fn set_picker(&mut self, picker: Option<QualityPicker>) -> (r: Option<QualityPicker>)
        requires
            old(self).deep_view().wf(),
        ensures
            crate::state::quality_picker_model(r)
                == old(self).deep_view().state.dialogs.quality_picker,
            final(self).deep_view() == old(self).deep_view().asked(
                DialogsModel {
                    quality_picker: crate::state::quality_picker_model(picker),
                    ..old(self).deep_view().state.dialogs
                },
            ),
            final(self).deep_view().wf(),
    {
        proof {
            reveal(AppModel::wf);
            reveal(dialogs_model);
        }
        let mut picker = picker;
        std::mem::swap(&mut picker, &mut self.state.dialogs.quality_picker);
        picker
    }

    /// Opens the menu of the selected song.
    pub(crate) fn open_menu(&mut self)
        requires
            old(self).deep_view().wf(),
        ensures
            final(self).deep_view() == old(self).deep_view().opening_menu(),
            final(self).deep_view().wf(),
    {
        proof {
            reveal(AppModel::opening_menu);
        }
        let song = match self.state.selected_song() {
            Some(song) => song,
            None => {
                self.tell(StatusLevel::Warning, "当前没有选中的歌曲".to_owned());
                return ;
            },
        };
        let in_queue = self.acts_on_queue();
        let _ = self.set_menu(Some(ContextMenu::new(song, in_queue)));
    }

    /// The place of a song in the list that is shown, with the songs of that list.
    fn shown_place(&self, hash: &str) -> (r: Option<(Vec<Song>, usize)>)
        ensures
            match r {
                Some(found) => self.deep_view().state.songs() is Some && found.0.deep_view()
                    == self.deep_view().state.songs()->0.songs && place_of(
                    found.0.deep_view(),
                    hash@,
                    0,
                ) == Some(found.1 as int),
                None => self.deep_view().state.songs() is None || place_of(
                    self.deep_view().state.songs()->0.songs,
                    hash@,
                    0,
                ) is None,
            },
    {
        match self.state.songs() {
            Some(list) => match find_song(list.songs.as_slice(), hash) {
                Some(at) => Some((model::copy_songs(list.songs.as_slice()), at)),
                None => None,
            },
            None => None,
        }
    }

    /// The place of a song in the queue.
    fn queued_place(&self, hash: &str) -> (r: Option<usize>)
        ensures
            match r {
                Some(at) => at < self.deep_view().state.player.queue.items.len() && place_of(
                    self.deep_view().state.player.queue.items,
                    hash@,
                    0,
                ) == Some(at as int),
                None => place_of(self.deep_view().state.player.queue.items, hash@, 0) is None,
            },
    {
        proof {
            reveal(player_model);
        }
        find_song(self.state.player.queue.items(), hash)
    }

    /// Plays a song where it stands.
    fn play_song(&mut self, song: Song)
        requires
            old(self).deep_view().wf(),
        ensures
            final(self).deep_view() == old(self).deep_view().playing_song(song.deep_view()),
            final(self).deep_view().wf(),
    {
        proof {
            reveal(AppModel::playing_song);
        }
        if !self.acts_on_queue() {
            if let Some(found) = self.shown_place(song.hash.as_str()) {
                self.play_from(found.0, found.1);
                return ;
            }
        }
        match self.queued_place(song.hash.as_str()) {
            Some(at) => self.play_queued(at),
            None => {
                let ghost one = song.deep_view();
                let songs = vec![song];
                proof {
                    assert(songs.deep_view() =~= seq![one]);
                }
                self.play_from(songs, 0);
            },
        }
    }

    /// Takes a song out of the queue.
    fn unqueue_song(&mut self, song: &Song)
        requires
            old(self).deep_view().wf(),
        ensures
            final(self).deep_view() == old(self).deep_view().unqueueing_song(song.deep_view()),
            final(self).deep_view().wf(),
    {
        proof {
            reveal(AppModel::unqueueing_song);
        }
        if let Some(at) = self.queued_place(song.hash.as_str()) {
            self.remove_from_queue(at);
        }
    }

    /// Asks in which quality a song is saved.
    fn choose_quality(&mut self, song: Song)
        requires
            old(self).deep_view().wf(),
        ensures
            final(self).deep_view() == old(self).deep_view().choosing_quality(song.deep_view()),
            final(self).deep_view().wf(),
    {
        proof {
            reveal(AppModel::choosing_quality);
            reveal(config_model);
        }
        let picker = QualityPicker::new(song, self.state.config.quality.as_str());
        let _ = self.set_picker(Some(picker));
    }

    /// Saves the song that is playing, once it is known in which quality.
    pub(crate) fn save_current(&mut self)
        requires
            old(self).deep_view().wf(),
        ensures
            final(self).deep_view() == old(self).deep_view().saving_current(),
            final(self).deep_view().wf(),
    {
        proof {
            reveal(AppModel::saving_current);
            reveal(player_model);
        }
        let current: Option<Song> = match &self.state.player.current {
            Some(song) => Some(song.clone()),
            None => None,
        };
        match current {
            Some(song) => self.choose_quality(song),
            None => self.tell(StatusLevel::Warning, "当前没有正在播放的歌曲".to_owned()),
        }
    }

    /// Saves a song.
    fn save_song(&mut self, song: Song, quality: String)
        requires
            old(self).deep_view().wf(),
        ensures
            final(self).deep_view() == old(self).deep_view().saving(song.deep_view(), quality@),
            final(self).deep_view().wf(),
    {
        proof {
            reveal(AppModel::saving);
            reveal(config_model);
        }
        let label = order::describe_song(&song);
        let dir = model::copy_text(&self.state.config.download_dir);
        self.set_busy(Some(text::join3("下载《", label.as_str(), "》")));
        let name = settings::sanitize_filename(label.as_str());
        self.order(Order::SaveSong { song, quality, dir, name });
    }

    /// Takes in that a song was saved.
    pub(crate) fn take_saved(&mut self, song: Song, path: String)
        requires
            old(self).deep_view().wf(),
        ensures
            final(self).deep_view() == old(self).deep_view().song_saved(song.deep_view(), path@),
            final(self).deep_view().wf(),
    {
        proof {
            reveal(AppModel::song_saved);
        }
        let label = order::describe_song(&song);
        self.set_busy(None);
        self.end_download();
        self.tell(
            StatusLevel::Success,
            text::join4("已下载《", label.as_str(), "》到 ", path.as_str()),
        );
    }

    /// Carries an entry of the menu of a song out.
    fn run_menu(&mut self, song: Song, entry: Option<MenuAction>)
        requires
            old(self).deep_view().wf(),
        ensures
            final(self).deep_view() == old(self).deep_view().menu_done(song.deep_view(), entry),
            final(self).deep_view().wf(),
    {
        proof {
            reveal(AppModel::menu_done);
        }
        match entry {
            Some(MenuAction::Play) => self.play_song(song),
            Some(MenuAction::QueueAppend) => self.queue_song(Some(song), false),
            Some(MenuAction::QueuePlayNext) => self.queue_song(Some(song), true),
            Some(MenuAction::AddToCloud) => self.add_to_cloud(Some(song)),
            Some(MenuAction::Download) => self.choose_quality(song),
            Some(MenuAction::RemoveFromQueue) => self.unqueue_song(&song),
            None => {},
        }
    }

    /// Selects another entry of the menu.
    fn move_menu(&mut self, delta: isize)
        requires
            old(self).deep_view().wf(),
            old(self).deep_view().state.dialogs.context_menu is Some,
        ensures
            final(self).deep_view() == old(self).deep_view().asked(
                DialogsModel {
                    context_menu: Some(
                        old(self).deep_view().state.dialogs.context_menu->0.moved(delta as int),
                    ),
                    ..old(self).deep_view().state.dialogs
                },
            ),
            final(self).deep_view().wf(),
    {
        proof {
            reveal(AppModel::wf);
            reveal(dialogs_model);
        }
        if let Some(menu) = &mut self.state.dialogs.context_menu {
            menu.move_cursor(delta);
        }
    }

    /// Selects another quality.
    fn move_picker(&mut self, delta: isize)
        requires
            old(self).deep_view().wf(),
            old(self).deep_view().state.dialogs.quality_picker is Some,
        ensures
            final(self).deep_view() == old(self).deep_view().asked(
                DialogsModel {
                    quality_picker: Some(
                        old(self).deep_view().state.dialogs.quality_picker->0.moved(delta as int),
                    ),
                    ..old(self).deep_view().state.dialogs
                },
            ),
            final(self).deep_view().wf(),
    {
        proof {
            reveal(AppModel::wf);
            reveal(dialogs_model);
        }
        if let Some(picker) = &mut self.state.dialogs.quality_picker {
            picker.move_by(delta);
        }
    }

    /// Takes a key while the menu of a song is open.
    pub(crate) fn handle_menu_action(&mut self, action: Action)
        requires
            old(self).deep_view().wf(),
            old(self).deep_view().state.dialogs.context_menu is Some,
        ensures
            final(self).deep_view() == old(self).deep_view().menu_keyed(
                old(self).deep_view().state.dialogs.context_menu->0,
                action,
            ),
            final(self).deep_view().wf(),
    {
        proof {
            reveal(AppModel::menu_keyed);
        }
        match action {
            Action::MoveDown => self.move_menu(1),
            Action::MoveUp => self.move_menu(-1),
            Action::Submit => {
                if let Some(menu) = self.set_menu(None) {
                    let entry = menu.selected();
                    self.run_menu(menu.song, entry);
                }
            },
            Action::Cancel => {
                let _ = self.set_menu(None);
            },
            Action::Quit => self.quit(false),
            Action::ForceQuit => self.quit(true),
            _ => {},
        }
    }

    /// Takes a key while it is asked in which quality a song is saved.
    pub(crate) fn handle_picker_action(&mut self, action: Action)
        requires
            old(self).deep_view().wf(),
            old(self).deep_view().state.dialogs.quality_picker is Some,
        ensures
            final(self).deep_view() == old(self).deep_view().picker_keyed(
                old(self).deep_view().state.dialogs.quality_picker->0,
                action,
            ),
            final(self).deep_view().wf(),
    {
        proof {
            reveal(AppModel::picker_keyed);
        }
        match action {
            Action::MoveDown => self.move_picker(1),
            Action::MoveUp => self.move_picker(-1),
            Action::Submit => {
                if let Some(picker) = self.set_picker(None) {
                    let quality: Option<String> = match picker.selected() {
                        Some(quality) => Some(quality.to_owned()),
                        None => None,
                    };
                    if let Some(quality) = quality {
                        self.save_song(picker.song, quality);
                    }
                }
            },
            Action::Cancel => {
                let _ = self.set_picker(None);
                self.tell(StatusLevel::Info, "已取消".to_owned());
            },
            Action::Quit => self.quit(false),
            Action::ForceQuit => self.quit(true),
            _ => {},
        }
    }
}

// ---------------------------------------------------------------------------
// Laws
// ---------------------------------------------------------------------------
/// Opening the menu of a song and closing it again changes nothing, where no other menu was open.
pub proof fn menus_can_be_left(app: AppModel)
    requires
        app.state.selected_song() is Some,
        app.state.dialogs.context_menu is None,
    ensures
        app.opening_menu().menu_keyed(
            app.opening_menu().state.dialogs.context_menu->0,
            Action::Cancel,
        ) == app,
{
    reveal(AppModel::opening_menu);
    reveal(AppModel::menu_keyed);
}

/// What the menu of a song offers is done to that song, whatever has been selected or loaded since.
pub proof fn menus_act_on_their_song(app: AppModel, menu: MenuModel)
    requires
        menu.cursor < menu.items.len(),
    ensures
        menu.items[menu.cursor as int] == MenuAction::QueueAppend ==> app.menu_keyed(
            menu,
            Action::Submit,
        ).state.player.queue.items == app.state.player.queue.items.push(menu.song),
        menu.items[menu.cursor as int] == MenuAction::Download ==> (app.menu_keyed(
            menu,
            Action::Submit,
        ).state.dialogs.quality_picker matches Some(picker) && picker.song == menu.song),
{
    reveal(AppModel::menu_keyed);
    reveal(AppModel::menu_done);
    reveal(AppModel::queueing_song);
    reveal(AppModel::choosing_quality);
    reveal(AppModel::told);
}

} // verus!
