//! What the keys do.
//!
//! There are two tables: while a list is browsed letters are commands, while a text is entered they
//! are letters. The user's own bindings come before both, except that Ctrl+C always quits.
use vstd::prelude::*;
use crate::text;

verus! {

/// Which of the two tables applies.
#[derive(Debug, Clone, Copy, PartialEq, Eq, Structural)]
pub enum KeyMode {
    /// Letters are commands.
    Normal,
    /// Letters are letters.
    TextInput,
}

/// A key.
#[derive(Debug, Clone, Copy, PartialEq, Eq, Structural)]
pub enum KeyCode {
    Char(char),
    F(u8),
    Enter,
    Esc,
    Tab,
    BackTab,
    Up,
    Down,
    Left,
    Right,
    Home,
    End,
    PageUp,
    PageDown,
    Backspace,
    Delete,
    Insert,
    /// Any other key.
    Other,
}

/// What is held down with a key.
#[derive(Debug, Clone, Copy, PartialEq, Eq, Structural)]
pub struct KeyModifiers {
    pub control: bool,
    pub alt: bool,
    pub shift: bool,
}

impl KeyModifiers {
    /// Nothing is held down.
    pub open spec fn none_spec() -> KeyModifiers {
        KeyModifiers { control: false, alt: false, shift: false }
    }

    /// Nothing is held down.
    #[verifier::when_used_as_spec(none_spec)]
    pub fn none() -> (r: KeyModifiers)
        ensures
            r == KeyModifiers::none_spec(),
    {
        KeyModifiers { control: false, alt: false, shift: false }
    }

    /// The control key is held down.
    pub open spec fn ctrl_spec() -> KeyModifiers {
        KeyModifiers { control: true, alt: false, shift: false }
    }

    /// The control key is held down.
    #[verifier::when_used_as_spec(ctrl_spec)]
    pub fn ctrl() -> (r: KeyModifiers)
        ensures
            r == KeyModifiers::ctrl_spec(),
    {
        KeyModifiers { control: true, alt: false, shift: false }
    }

    /// The alt key is held down.
    pub open spec fn alt_spec() -> KeyModifiers {
        KeyModifiers { control: false, alt: true, shift: false }
    }

    /// The alt key is held down.
    #[verifier::when_used_as_spec(alt_spec)]
    pub fn alt() -> (r: KeyModifiers)
        ensures
            r == KeyModifiers::alt_spec(),
    {
        KeyModifiers { control: false, alt: true, shift: false }
    }

    /// The shift key is held down.
    pub open spec fn shift_spec() -> KeyModifiers {
        KeyModifiers { control: false, alt: false, shift: true }
    }

    /// The shift key is held down.
    #[verifier::when_used_as_spec(shift_spec)]
    pub fn shift() -> (r: KeyModifiers)
        ensures
            r == KeyModifiers::shift_spec(),
    {
        KeyModifiers { control: false, alt: false, shift: true }
    }
}

/// A key that was pressed.
#[derive(Debug, Clone, Copy, PartialEq, Eq, Structural)]
pub struct KeyEvent {
    pub code: KeyCode,
    pub modifiers: KeyModifiers,
}

impl KeyEvent {
    /// The key `code` with `modifiers` held down.
    pub fn new(code: KeyCode, modifiers: KeyModifiers) -> (r: KeyEvent)
        ensures
            r == (KeyEvent { code, modifiers }),
    {
        KeyEvent { code, modifiers }
    }
}

/// What the user wants, whatever key says it.
#[derive(Debug, Clone, Copy, PartialEq, Eq, Structural)]
pub enum Action {
    /// Quit and save the settings.
    Quit,
    /// Quit at once.
    ForceQuit,
    Help,
    MoveUp,
    MoveDown,
    MoveTop,
    MoveBottom,
    PageUp,
    PageDown,
    FocusNext,
    FocusPrev,
    /// Go on with what is selected, or hand in a text.
    Submit,
    /// Go back, or give a text up.
    Cancel,
    ContextMenu,
    Char(char),
    Backspace,
    Delete,
    CursorLeft,
    CursorRight,
    CursorHome,
    CursorEnd,
    PlayPause,
    Next,
    Prev,
    SeekForward,
    SeekBackward,
    /// Move by so many milliseconds.
    SeekBy(i64),
    LoadMoreSearch,
    /// Move to this place in milliseconds.
    SeekTo(u64),
    VolumeUp,
    VolumeDown,
    ToggleMute,
    CyclePlaybackMode,
    CycleQuality,
    ToggleLyricPanel,
    LyricDelay,
    LyricAdvance,
    OpenSearch,
    OpenSettings,
    DownloadCurrent,
    Reload,
    QueueAppend,
    AddAllToQueue,
    QueuePlayNext,
    RemoveFromQueue,
    ClearQueue,
    ClearCache,
    ToggleSortOrder,
    OpenRanks,
    OpenCloud,
    Login,
    ClaimVip,
    CycleArtistFilter,
    SyncToCloud,
    AddToCloud,
    RemoveFromCloud,
    DeleteCloudPlaylist,
    NewCloudPlaylist,
    ToggleSidebar,
    SwitchSource,
    SetDefaultSource,
    RaiseSourcePriority,
    LowerSourcePriority,
    /// A digit, which chooses a page.
    Digit(u8),
    /// The key does nothing.
    Unbound,
}

// ---------------------------------------------------------------------------
// Names of actions and keys
// ---------------------------------------------------------------------------
/// The action that a name in the settings stands for. Actions that carry a value have no name.
pub open spec fn named_action(name: Seq<char>) -> Option<Action> {
    if name == "quit"@ {
        Some(Action::Quit)
    } else if name == "force_quit"@ {
        Some(Action::ForceQuit)
    } else if name == "help"@ {
        Some(Action::Help)
    } else if name == "move_up"@ {
        Some(Action::MoveUp)
    } else if name == "move_down"@ {
        Some(Action::MoveDown)
    } else if name == "move_top"@ {
        Some(Action::MoveTop)
    } else if name == "move_bottom"@ {
        Some(Action::MoveBottom)
    } else if name == "page_up"@ {
        Some(Action::PageUp)
    } else if name == "page_down"@ {
        Some(Action::PageDown)
    } else if name == "focus_next"@ {
        Some(Action::FocusNext)
    } else if name == "focus_prev"@ {
        Some(Action::FocusPrev)
    } else if name == "submit"@ {
        Some(Action::Submit)
    } else if name == "cancel"@ {
        Some(Action::Cancel)
    } else if name == "backspace"@ {
        Some(Action::Backspace)
    } else if name == "delete"@ {
        Some(Action::Delete)
    } else if name == "cursor_left"@ {
        Some(Action::CursorLeft)
    } else if name == "cursor_right"@ {
        Some(Action::CursorRight)
    } else if name == "cursor_home"@ {
        Some(Action::CursorHome)
    } else if name == "cursor_end"@ {
        Some(Action::CursorEnd)
    } else if name == "play_pause"@ {
        Some(Action::PlayPause)
    } else if name == "next"@ {
        Some(Action::Next)
    } else if name == "prev"@ {
        Some(Action::Prev)
    } else if name == "seek_forward"@ {
        Some(Action::SeekForward)
    } else if name == "seek_backward"@ {
        Some(Action::SeekBackward)
    } else if name == "load_more_search"@ {
        Some(Action::LoadMoreSearch)
    } else if name == "volume_up"@ {
        Some(Action::VolumeUp)
    } else if name == "volume_down"@ {
        Some(Action::VolumeDown)
    } else if name == "toggle_mute"@ {
        Some(Action::ToggleMute)
    } else if name == "cycle_playback_mode"@ {
        Some(Action::CyclePlaybackMode)
    } else if name == "cycle_quality"@ {
        Some(Action::CycleQuality)
    } else if name == "toggle_lyric_panel"@ {
        Some(Action::ToggleLyricPanel)
    } else if name == "lyric_delay"@ {
        Some(Action::LyricDelay)
    } else if name == "lyric_advance"@ {
        Some(Action::LyricAdvance)
    } else if name == "open_search"@ {
        Some(Action::OpenSearch)
    } else if name == "open_settings"@ {
        Some(Action::OpenSettings)
    } else if name == "download_current"@ {
        Some(Action::DownloadCurrent)
    } else if name == "reload"@ {
        Some(Action::Reload)
    } else if name == "queue_append"@ {
        Some(Action::QueueAppend)
    } else if name == "add_all_to_queue"@ {
        Some(Action::AddAllToQueue)
    } else if name == "queue_play_next"@ {
        Some(Action::QueuePlayNext)
    } else if name == "remove_from_queue"@ {
        Some(Action::RemoveFromQueue)
    } else if name == "clear_queue"@ {
        Some(Action::ClearQueue)
    } else if name == "clear_cache"@ {
        Some(Action::ClearCache)
    } else if name == "toggle_sort_order"@ {
        Some(Action::ToggleSortOrder)
    } else if name == "open_ranks"@ {
        Some(Action::OpenRanks)
    } else if name == "open_cloud"@ {
        Some(Action::OpenCloud)
    } else if name == "login"@ {
        Some(Action::Login)
    } else if name == "claim_vip"@ {
        Some(Action::ClaimVip)
    } else if name == "cycle_artist_filter"@ {
        Some(Action::CycleArtistFilter)
    } else if name == "sync_to_cloud"@ {
        Some(Action::SyncToCloud)
    } else if name == "add_to_cloud"@ {
        Some(Action::AddToCloud)
    } else if name == "remove_from_cloud"@ {
        Some(Action::RemoveFromCloud)
    } else if name == "delete_cloud_playlist"@ {
        Some(Action::DeleteCloudPlaylist)
    } else if name == "new_cloud_playlist"@ {
        Some(Action::NewCloudPlaylist)
    } else if name == "toggle_sidebar"@ {
        Some(Action::ToggleSidebar)
    } else if name == "switch_source"@ {
        Some(Action::SwitchSource)
    } else if name == "set_default_source"@ {
        Some(Action::SetDefaultSource)
    } else if name == "raise_source_priority"@ {
        Some(Action::RaiseSourcePriority)
    } else if name == "lower_source_priority"@ {
        Some(Action::LowerSourcePriority)
    } else {
        None
    }
}

/// The action that a name in the settings stands for. Actions that carry a value have no name.
pub fn action_from_name(name: &str) -> (r: Option<Action>)
    ensures
        r == named_action(name@),
{
    if text::same(name, "quit") {
        Some(Action::Quit)
    } else if text::same(name, "force_quit") {
        Some(Action::ForceQuit)
    } else if text::same(name, "help") {
        Some(Action::Help)
    } else if text::same(name, "move_up") {
        Some(Action::MoveUp)
    } else if text::same(name, "move_down") {
        Some(Action::MoveDown)
    } else if text::same(name, "move_top") {
        Some(Action::MoveTop)
    } else if text::same(name, "move_bottom") {
        Some(Action::MoveBottom)
    } else if text::same(name, "page_up") {
        Some(Action::PageUp)
    } else if text::same(name, "page_down") {
        Some(Action::PageDown)
    } else if text::same(name, "focus_next") {
        Some(Action::FocusNext)
    } else if text::same(name, "focus_prev") {
        Some(Action::FocusPrev)
    } else if text::same(name, "submit") {
        Some(Action::Submit)
    } else if text::same(name, "cancel") {
        Some(Action::Cancel)
    } else if text::same(name, "backspace") {
        Some(Action::Backspace)
    } else if text::same(name, "delete") {
        Some(Action::Delete)
    } else if text::same(name, "cursor_left") {
        Some(Action::CursorLeft)
    } else if text::same(name, "cursor_right") {
        Some(Action::CursorRight)
    } else if text::same(name, "cursor_home") {
        Some(Action::CursorHome)
    } else if text::same(name, "cursor_end") {
        Some(Action::CursorEnd)
    } else if text::same(name, "play_pause") {
        Some(Action::PlayPause)
    } else if text::same(name, "next") {
        Some(Action::Next)
    } else if text::same(name, "prev") {
        Some(Action::Prev)
    } else if text::same(name, "seek_forward") {
        Some(Action::SeekForward)
    } else if text::same(name, "seek_backward") {
        Some(Action::SeekBackward)
    } else if text::same(name, "load_more_search") {
        Some(Action::LoadMoreSearch)
    } else if text::same(name, "volume_up") {
        Some(Action::VolumeUp)
    } else if text::same(name, "volume_down") {
        Some(Action::VolumeDown)
    } else if text::same(name, "toggle_mute") {
        Some(Action::ToggleMute)
    } else if text::same(name, "cycle_playback_mode") {
        Some(Action::CyclePlaybackMode)
    } else if text::same(name, "cycle_quality") {
        Some(Action::CycleQuality)
    } else if text::same(name, "toggle_lyric_panel") {
        Some(Action::ToggleLyricPanel)
    } else if text::same(name, "lyric_delay") {
        Some(Action::LyricDelay)
    } else if text::same(name, "lyric_advance") {
        Some(Action::LyricAdvance)
    } else if text::same(name, "open_search") {
        Some(Action::OpenSearch)
    } else if text::same(name, "open_settings") {
        Some(Action::OpenSettings)
    } else if text::same(name, "download_current") {
        Some(Action::DownloadCurrent)
    } else if text::same(name, "reload") {
        Some(Action::Reload)
    } else if text::same(name, "queue_append") {
        Some(Action::QueueAppend)
    } else if text::same(name, "add_all_to_queue") {
        Some(Action::AddAllToQueue)
    } else if text::same(name, "queue_play_next") {
        Some(Action::QueuePlayNext)
    } else if text::same(name, "remove_from_queue") {
        Some(Action::RemoveFromQueue)
    } else if text::same(name, "clear_queue") {
        Some(Action::ClearQueue)
    } else if text::same(name, "clear_cache") {
        Some(Action::ClearCache)
    } else if text::same(name, "toggle_sort_order") {
        Some(Action::ToggleSortOrder)
    } else if text::same(name, "open_ranks") {
        Some(Action::OpenRanks)
    } else if text::same(name, "open_cloud") {
        Some(Action::OpenCloud)
    } else if text::same(name, "login") {
        Some(Action::Login)
    } else if text::same(name, "claim_vip") {
        Some(Action::ClaimVip)
    } else if text::same(name, "cycle_artist_filter") {
        Some(Action::CycleArtistFilter)
    } else if text::same(name, "sync_to_cloud") {
        Some(Action::SyncToCloud)
    } else if text::same(name, "add_to_cloud") {
        Some(Action::AddToCloud)
    } else if text::same(name, "remove_from_cloud") {
        Some(Action::RemoveFromCloud)
    } else if text::same(name, "delete_cloud_playlist") {
        Some(Action::DeleteCloudPlaylist)
    } else if text::same(name, "new_cloud_playlist") {
        Some(Action::NewCloudPlaylist)
    } else if text::same(name, "toggle_sidebar") {
        Some(Action::ToggleSidebar)
    } else if text::same(name, "switch_source") {
        Some(Action::SwitchSource)
    } else if text::same(name, "set_default_source") {
        Some(Action::SetDefaultSource)
    } else if text::same(name, "raise_source_priority") {
        Some(Action::RaiseSourcePriority)
    } else if text::same(name, "lower_source_priority") {
        Some(Action::LowerSourcePriority)
    } else {
        None
    }
}

/// The key that a name stands for: a name of its own, a single character, or `f1` to `f12`.
pub open spec fn named_key(name: Seq<char>) -> Option<KeyCode> {
    if name == "space"@ || name == " "@ {
        Some(KeyCode::Char(' '))
    } else if name == "enter"@ || name == "return"@ || name == "cr"@ {
        Some(KeyCode::Enter)
    } else if name == "esc"@ || name == "escape"@ {
        Some(KeyCode::Esc)
    } else if name == "tab"@ {
        Some(KeyCode::Tab)
    } else if name == "backtab"@ {
        Some(KeyCode::BackTab)
    } else if name == "up"@ {
        Some(KeyCode::Up)
    } else if name == "down"@ {
        Some(KeyCode::Down)
    } else if name == "left"@ {
        Some(KeyCode::Left)
    } else if name == "right"@ {
        Some(KeyCode::Right)
    } else if name == "home"@ {
        Some(KeyCode::Home)
    } else if name == "end"@ {
        Some(KeyCode::End)
    } else if name == "pageup"@ || name == "pgup"@ {
        Some(KeyCode::PageUp)
    } else if name == "pagedown"@ || name == "pgdn"@ {
        Some(KeyCode::PageDown)
    } else if name == "backspace"@ || name == "bs"@ {
        Some(KeyCode::Backspace)
    } else if name == "delete"@ || name == "del"@ {
        Some(KeyCode::Delete)
    } else if name == "insert"@ || name == "ins"@ {
        Some(KeyCode::Insert)
    } else if name.len() == 1 {
        Some(KeyCode::Char(name[0]))
    } else if 0 < name.len() <= 3 && name[0] == 'f' {
        match text::natural_u64(name.skip(1)) {
            Some(number) if 1 <= number <= 12 => Some(KeyCode::F(number as u8)),
            _ => None,
        }
    } else {
        None
    }
}

/// What is held down and the rest of the name, where a name begins with a word for it.
pub open spec fn without_modifier(name: Seq<char>) -> (KeyModifiers, Seq<char>) {
    if text::begins(name, "ctrl+"@) {
        (KeyModifiers::ctrl(), name.skip(5))
    } else if text::begins(name, "alt+"@) {
        (KeyModifiers::alt(), name.skip(4))
    } else if text::begins(name, "shift+"@) {
        (KeyModifiers::shift(), name.skip(6))
    } else {
        (KeyModifiers::none(), name)
    }
}

/// The key that a name in the settings stands for, with what is held down.
pub open spec fn key_of(name: Seq<char>) -> Option<(KeyCode, KeyModifiers)> {
    let (modifiers, rest) = without_modifier(text::trimmed(name));
    match named_key(rest) {
        Some(code) => Some((code, modifiers)),
        None => None,
    }
}

/// The key that a name stands for.
fn key_from_name(name: &str) -> (r: Option<KeyCode>)
    ensures
        r == named_key(name@),
{
    if text::same(name, "space") || text::same(name, " ") {
        return Some(KeyCode::Char(' '));
    } else if text::same(name, "enter") || text::same(name, "return") || text::same(name, "cr") {
        return Some(KeyCode::Enter);
    } else if text::same(name, "esc") || text::same(name, "escape") {
        return Some(KeyCode::Esc);
    } else if text::same(name, "tab") {
        return Some(KeyCode::Tab);
    } else if text::same(name, "backtab") {
        return Some(KeyCode::BackTab);
    } else if text::same(name, "up") {
        return Some(KeyCode::Up);
    } else if text::same(name, "down") {
        return Some(KeyCode::Down);
    } else if text::same(name, "left") {
        return Some(KeyCode::Left);
    } else if text::same(name, "right") {
        return Some(KeyCode::Right);
    } else if text::same(name, "home") {
        return Some(KeyCode::Home);
    } else if text::same(name, "end") {
        return Some(KeyCode::End);
    } else if text::same(name, "pageup") || text::same(name, "pgup") {
        return Some(KeyCode::PageUp);
    } else if text::same(name, "pagedown") || text::same(name, "pgdn") {
        return Some(KeyCode::PageDown);
    } else if text::same(name, "backspace") || text::same(name, "bs") {
        return Some(KeyCode::Backspace);
    } else if text::same(name, "delete") || text::same(name, "del") {
        return Some(KeyCode::Delete);
    } else if text::same(name, "insert") || text::same(name, "ins") {
        return Some(KeyCode::Insert);
    }
    let chars = text::to_chars(name);
    if chars.len() == 1 {
        return Some(KeyCode::Char(chars[0]));
    }
    if 0 < chars.len() && chars.len() <= 3 && chars[0] == 'f' {
        let rest = &chars.as_slice()[1..chars.len()];
        proof {
            assert(rest@ =~= name@.skip(1));
        }
        if let Some(number) = text::parse_u64(rest) {
            if 1 <= number && number <= 12 {
                return Some(KeyCode::F(number as u8));
            }
        }
    }
    None
}

/// Reads the name of a key in the settings.
pub fn parse_key(text: &str) -> (r: Option<(KeyCode, KeyModifiers)>)
    ensures
        r == key_of(text@),
{
    let chars = text::to_chars(text);
    let name = text::trim(chars.as_slice());
    let ctrl = text::to_chars("ctrl+");
    let alt = text::to_chars("alt+");
    let shift = text::to_chars("shift+");
    proof {
        reveal_strlit("ctrl+");
        reveal_strlit("alt+");
        reveal_strlit("shift+");
    }
    let mut start: usize = 0;
    let mut modifiers = KeyModifiers::none();
    if text::is_at(name, ctrl.as_slice(), 0) {
        start = 5;
        modifiers = KeyModifiers::ctrl();
    } else if text::is_at(name, alt.as_slice(), 0) {
        start = 4;
        modifiers = KeyModifiers::alt();
    } else if text::is_at(name, shift.as_slice(), 0) {
        start = 6;
        modifiers = KeyModifiers::shift();
    }
    let rest = text::from_chars(&name[start..name.len()]);
    proof {
        assert(rest@ =~= name@.skip(start as int));
        assert(name@.skip(0) =~= name@);
    }
    match key_from_name(rest.as_str()) {
        Some(code) => Some((code, modifiers)),
        None => None,
    }
}

// ---------------------------------------------------------------------------
// The user's own bindings
// ---------------------------------------------------------------------------
/// One binding of the user.
#[derive(Debug, Clone, Copy, PartialEq, Eq, Structural)]
pub struct Binding {
    pub code: KeyCode,
    pub modifiers: KeyModifiers,
    pub action: Action,
}

/// The user's own bindings; every key is bound once.
#[derive(Debug)]
pub struct KeyBindings {
    bindings: Vec<Binding>,
}

/// What `bindings` bind a key to.
pub open spec fn bound(bindings: Seq<Binding>, code: KeyCode, modifiers: KeyModifiers) -> Option<
    Action,
>
    decreases bindings.len(),
{
    if bindings.len() == 0 {
        None
    } else if bindings.last().code == code && bindings.last().modifiers == modifiers {
        Some(bindings.last().action)
    } else {
        bound(bindings.drop_last(), code, modifiers)
    }
}

/// The binding that one entry of the settings, the name of an action and the name of a key, makes.
pub open spec fn entry_binding(action: Seq<char>, key: Seq<char>) -> Option<Binding> {
    match (named_action(action), key_of(key)) {
        (Some(action), Some((code, modifiers))) => Some(Binding { code, modifiers, action }),
        _ => None,
    }
}

/// The bindings that the entries of the settings make. An entry that cannot be read makes none.
pub open spec fn entry_bindings(entries: Seq<(Seq<char>, Seq<char>)>) -> Seq<Binding>
    decreases entries.len(),
{
    if entries.len() == 0 {
        Seq::empty()
    } else {
        let before = entry_bindings(entries.drop_last());
        match entry_binding(entries.last().0, entries.last().1) {
            Some(binding) => before.push(binding),
            None => before,
        }
    }
}

/// How many different keys `bindings` bind.
pub open spec fn bound_keys(bindings: Seq<Binding>) -> nat
    decreases bindings.len(),
{
    if bindings.len() == 0 {
        0
    } else {
        let last = bindings.last();
        bound_keys(bindings.drop_last()) + if bound(
            bindings.drop_last(),
            last.code,
            last.modifiers,
        ) is None {
            1nat
        } else {
            0
        }
    }
}

impl KeyBindings {
    /// What the user has bound a key to.
    pub closed spec fn action_of(&self, code: KeyCode, modifiers: KeyModifiers) -> Option<Action> {
        bound(self.bindings@, code, modifiers)
    }

    /// How many keys the user has bound.
    pub closed spec fn count(&self) -> nat {
        bound_keys(self.bindings@)
    }

    /// No bindings.
    pub fn empty() -> (r: KeyBindings)
        ensures
            forall|code: KeyCode, modifiers: KeyModifiers| #[trigger]
                r.action_of(code, modifiers) is None,
            r.count() == 0,
    {
        KeyBindings { bindings: Vec::new() }
    }

    /// Reads the bindings of the settings, and how many keys they bind. Entries that cannot be read
    /// are left out; of two entries for one key the later counts.
    pub fn install_custom(entries: &Vec<(String, String)>) -> (r: (KeyBindings, usize))
        ensures
            forall|code: KeyCode, modifiers: KeyModifiers| #[trigger]
                r.0.action_of(code, modifiers) == bound(
                    entry_bindings(entries.deep_view()),
                    code,
                    modifiers,
                ),
            r.0.count() == bound_keys(entry_bindings(entries.deep_view())),
            r.1 == r.0.count(),
    {
        let ghost all = entries.deep_view();
        let mut bindings: Vec<Binding> = Vec::new();
        let mut keys: usize = 0;
        let mut i: usize = 0;
        proof {
            assert(all.take(0) =~= Seq::<(Seq<char>, Seq<char>)>::empty());
        }
        while i < entries.len()
            invariant
                i <= entries@.len(),
                all == entries.deep_view(),
                bindings@ == entry_bindings(all.take(i as int)),
                keys == bound_keys(bindings@),
                keys <= i,
            decreases entries@.len() - i,
        {
            proof {
                assert(all.take(i + 1).drop_last() =~= all.take(i as int));
                assert(all.take(i + 1).last() == (entries@[i as int].0@, entries@[i as int].1@));
            }
            let action = action_from_name(entries[i].0.as_str());
            let key = parse_key(entries[i].1.as_str());
            if let (Some(action), Some((code, modifiers))) = (action, key) {
                let known = find_binding(&bindings, code, modifiers).is_some();
                let ghost before = bindings@;
                bindings.push(Binding { code, modifiers, action });
                proof {
                    assert(bindings@.drop_last() =~= before);
                }
                if !known {
                    keys += 1;
                }
            }
            i += 1;
        }
        proof {
            assert(all.take(all.len() as int) =~= all);
        }
        (KeyBindings { bindings }, keys)
    }

    /// What the user has bound a key to. A key with something held down also takes the binding of
    /// the key alone.
    pub fn custom_action(&self, key: KeyEvent) -> (r: Option<Action>)
        ensures
            r == custom_of(*self, key),
    {
        match find_binding(&self.bindings, key.code, key.modifiers) {
            Some(action) => Some(action),
            None => find_binding(&self.bindings, key.code, KeyModifiers::none()),
        }
    }
}

/// What the user's bindings make of a key.
pub open spec fn custom_of(bindings: KeyBindings, key: KeyEvent) -> Option<Action> {
    match bindings.action_of(key.code, key.modifiers) {
        Some(action) => Some(action),
        None => bindings.action_of(key.code, KeyModifiers::none()),
    }
}

/// What `bindings` bind a key to.
fn find_binding(bindings: &Vec<Binding>, code: KeyCode, modifiers: KeyModifiers) -> (r: Option<
    Action,
>)
    ensures
        r == bound(bindings@, code, modifiers),
{
    let mut i: usize = bindings.len();
    proof {
        assert(bindings@.take(bindings@.len() as int) =~= bindings@);
    }
    while i > 0
        invariant
            i <= bindings@.len(),
            bound(bindings@, code, modifiers) == bound(
                bindings@.take(i as int),
                code,
                modifiers,
            ),
        decreases i,
    {
        proof {
            assert(bindings@.take(i as int).drop_last() =~= bindings@.take(i - 1));
            assert(bindings@.take(i as int).last() == bindings@[i - 1]);
        }
        let binding = bindings[i - 1];
        if binding.code == code && binding.modifiers == modifiers {
            return Some(binding.action);
        }
        i -= 1;
    }
    None
}

// ---------------------------------------------------------------------------
// The tables
// ---------------------------------------------------------------------------
/// What a key does while a text is entered.
pub open spec fn text_action(key: KeyEvent) -> Action {
    match key.code {
        KeyCode::Char(c) => if key.modifiers.control {
            Action::Unbound
        } else {
            Action::Char(c)
        },
        KeyCode::Backspace => Action::Backspace,
        KeyCode::Delete => Action::Delete,
        KeyCode::Left => Action::CursorLeft,
        KeyCode::Right => Action::CursorRight,
        KeyCode::Home => Action::CursorHome,
        KeyCode::End => Action::CursorEnd,
        KeyCode::Enter => Action::Submit,
        KeyCode::Esc => Action::Cancel,
        KeyCode::Up => Action::MoveUp,
        KeyCode::Down => Action::MoveDown,
        _ => Action::Unbound,
    }
}

/// What a key does while a text is entered.
fn resolve_text_input(key: KeyEvent) -> (r: Action)
    ensures
        r == text_action(key),
{
    match key.code {
        KeyCode::Char(c) => if key.modifiers.control {
            Action::Unbound
        } else {
            Action::Char(c)
        },
        KeyCode::Backspace => Action::Backspace,
        KeyCode::Delete => Action::Delete,
        KeyCode::Left => Action::CursorLeft,
        KeyCode::Right => Action::CursorRight,
        KeyCode::Home => Action::CursorHome,
        KeyCode::End => Action::CursorEnd,
        KeyCode::Enter => Action::Submit,
        KeyCode::Esc => Action::Cancel,
        KeyCode::Up => Action::MoveUp,
        KeyCode::Down => Action::MoveDown,
        _ => Action::Unbound,
    }
}

/// What a character does while a list is browsed.
pub open spec fn char_action(c: char) -> Action {
    if '0' <= c <= '9' {
        Action::Digit((c as int - '0' as int) as u8)
    } else {
        match c {
            'q' => Action::Quit,
            'Q' => Action::ForceQuit,
            '?' => Action::Help,
            'h' => Action::Help,
            'k' => Action::MoveUp,
            'j' => Action::MoveDown,
            'g' => Action::MoveTop,
            'G' => Action::MoveBottom,
            ' ' => Action::PlayPause,
            'n' => Action::Next,
            'p' => Action::Prev,
            '+' => Action::VolumeUp,
            '=' => Action::VolumeUp,
            '-' => Action::VolumeDown,
            'm' => Action::ToggleMute,
            'r' => Action::CyclePlaybackMode,
            'y' => Action::CycleQuality,
            'l' => Action::ToggleLyricPanel,
            ']' => Action::LyricAdvance,
            '[' => Action::LyricDelay,
            '/' => Action::OpenSearch,
            ',' => Action::OpenSettings,
            'R' => Action::Reload,
            'a' => Action::QueueAppend,
            'A' => Action::AddAllToQueue,
            'i' => Action::QueuePlayNext,
            'x' => Action::RemoveFromQueue,
            'X' => Action::ClearQueue,
            'C' => Action::ClearCache,
            ';' => Action::ContextMenu,
            'M' => Action::LoadMoreSearch,
            'o' => Action::ToggleSortOrder,
            'b' => Action::OpenRanks,
            'c' => Action::OpenCloud,
            'L' => Action::Login,
            'V' => Action::ClaimVip,
            'f' => Action::CycleArtistFilter,
            'S' => Action::SyncToCloud,
            's' => Action::AddToCloud,
            'd' => Action::RemoveFromCloud,
            'D' => Action::DeleteCloudPlaylist,
            'N' => Action::NewCloudPlaylist,
            '\\' => Action::ToggleSidebar,
            'v' => Action::SwitchSource,
            'W' => Action::DownloadCurrent,
            'E' => Action::SetDefaultSource,
            'K' => Action::RaiseSourcePriority,
            'J' => Action::LowerSourcePriority,
            _ => Action::Unbound,
        }
    }
}

/// What a character does while a list is browsed.
fn resolve_char(c: char) -> (r: Action)
    ensures
        r == char_action(c),
{
    if '0' <= c && c <= '9' {
        return Action::Digit((c as u32 - '0' as u32) as u8);
    }
    match c {
        'q' => Action::Quit,
        'Q' => Action::ForceQuit,
        '?' => Action::Help,
        'h' => Action::Help,
        'k' => Action::MoveUp,
        'j' => Action::MoveDown,
        'g' => Action::MoveTop,
        'G' => Action::MoveBottom,
        ' ' => Action::PlayPause,
        'n' => Action::Next,
        'p' => Action::Prev,
        '+' => Action::VolumeUp,
        '=' => Action::VolumeUp,
        '-' => Action::VolumeDown,
        'm' => Action::ToggleMute,
        'r' => Action::CyclePlaybackMode,
        'y' => Action::CycleQuality,
        'l' => Action::ToggleLyricPanel,
        ']' => Action::LyricAdvance,
        '[' => Action::LyricDelay,
        '/' => Action::OpenSearch,
        ',' => Action::OpenSettings,
        'R' => Action::Reload,
        'a' => Action::QueueAppend,
        'A' => Action::AddAllToQueue,
        'i' => Action::QueuePlayNext,
        'x' => Action::RemoveFromQueue,
        'X' => Action::ClearQueue,
        'C' => Action::ClearCache,
        ';' => Action::ContextMenu,
        'M' => Action::LoadMoreSearch,
        'o' => Action::ToggleSortOrder,
        'b' => Action::OpenRanks,
        'c' => Action::OpenCloud,
        'L' => Action::Login,
        'V' => Action::ClaimVip,
        'f' => Action::CycleArtistFilter,
        'S' => Action::SyncToCloud,
        's' => Action::AddToCloud,
        'd' => Action::RemoveFromCloud,
        'D' => Action::DeleteCloudPlaylist,
        'N' => Action::NewCloudPlaylist,
        '\\' => Action::ToggleSidebar,
        'v' => Action::SwitchSource,
        'W' => Action::DownloadCurrent,
        'E' => Action::SetDefaultSource,
        'K' => Action::RaiseSourcePriority,
        'J' => Action::LowerSourcePriority,
        _ => Action::Unbound,
    }
}

/// What a key does while a list is browsed.
pub open spec fn normal_action(key: KeyEvent) -> Action {
    match key.code {
        KeyCode::Char(c) => char_action(c),
        KeyCode::F(n) => if n == 1 {
            Action::Help
        } else {
            Action::Unbound
        },
        KeyCode::Up => Action::MoveUp,
        KeyCode::Down => Action::MoveDown,
        KeyCode::Home => Action::MoveTop,
        KeyCode::End => Action::MoveBottom,
        KeyCode::PageUp => Action::PageUp,
        KeyCode::PageDown => Action::PageDown,
        KeyCode::Tab => Action::FocusNext,
        KeyCode::BackTab => Action::FocusPrev,
        KeyCode::Enter => Action::Submit,
        KeyCode::Esc => Action::Cancel,
        KeyCode::Right => Action::SeekForward,
        KeyCode::Left => Action::SeekBackward,
        _ => Action::Unbound,
    }
}

/// What a key does while a list is browsed.
fn resolve_normal(key: KeyEvent) -> (r: Action)
    ensures
        r == normal_action(key),
{
    match key.code {
        KeyCode::Char(c) => resolve_char(c),
        KeyCode::F(n) => if n == 1 {
            Action::Help
        } else {
            Action::Unbound
        },
        KeyCode::Up => Action::MoveUp,
        KeyCode::Down => Action::MoveDown,
        KeyCode::Home => Action::MoveTop,
        KeyCode::End => Action::MoveBottom,
        KeyCode::PageUp => Action::PageUp,
        KeyCode::PageDown => Action::PageDown,
        KeyCode::Tab => Action::FocusNext,
        KeyCode::BackTab => Action::FocusPrev,
        KeyCode::Enter => Action::Submit,
        KeyCode::Esc => Action::Cancel,
        KeyCode::Right => Action::SeekForward,
        KeyCode::Left => Action::SeekBackward,
        _ => Action::Unbound,
    }
}

/// Whether a key is Ctrl+C.
pub open spec fn is_ctrl_c(key: KeyEvent) -> bool {
    key.modifiers.control && key.code == KeyCode::Char('c')
}

/// What a key does under the user's bindings.
pub open spec fn resolved(bindings: KeyBindings, key: KeyEvent, mode: KeyMode) -> Action {
    if is_ctrl_c(key) {
        Action::ForceQuit
    } else {
        match custom_of(bindings, key) {
            Some(action) => action,
            None => default_action(key, mode),
        }
    }
}

/// What a key does in the tables.
pub open spec fn default_action(key: KeyEvent, mode: KeyMode) -> Action {
    match mode {
        KeyMode::TextInput => text_action(key),
        KeyMode::Normal => normal_action(key),
    }
}

/// What a key does under the user's bindings.
pub fn resolve_with(bindings: &KeyBindings, key: KeyEvent, mode: KeyMode) -> (r: Action)
    ensures
        r == resolved(*bindings, key, mode),
{
    if key.modifiers.control && key.code == KeyCode::Char('c') {
        return Action::ForceQuit;
    }
    match bindings.custom_action(key) {
        Some(action) => action,
        None => match mode {
            KeyMode::TextInput => resolve_text_input(key),
            KeyMode::Normal => resolve_normal(key),
        },
    }
}

/// What a key does where the user has bound none.
pub fn resolve(key: KeyEvent, mode: KeyMode) -> (r: Action)
    ensures
        r == if is_ctrl_c(key) {
            Action::ForceQuit
        } else {
            default_action(key, mode)
        },
{
    resolve_with(&KeyBindings::empty(), key, mode)
}

/// Ctrl+C quits at once, whatever the user has bound and whatever is being done.
pub proof fn ctrl_c_always_quits(
    bindings: KeyBindings,
    key: KeyEvent,
    mode: KeyMode,
)
    requires
        is_ctrl_c(key),
    ensures
        resolved(bindings, key, mode) == Action::ForceQuit,
{
}

/// While a text is entered every character that is typed goes into it, unless the user has bound it.
pub proof fn typed_letters_stay_letters(bindings: KeyBindings, key: KeyEvent, c: char)
    requires
        key.code == KeyCode::Char(c),
        !key.modifiers.control,
        custom_of(bindings, key) is None,
    ensures
        resolved(bindings, key, KeyMode::TextInput) == Action::Char(c),
{
}

/// Every digit chooses a page while a list is browsed.
pub proof fn every_digit_is_bound(digit: u8, modifiers: KeyModifiers)
    requires
        digit <= 9,
    ensures
        normal_action(
            KeyEvent { code: KeyCode::Char((digit + 48) as char), modifiers },
        ) == Action::Digit(digit),
{
}

/// The keys as the help shows them: the keys, what they do, and under which heading.
pub const CHEATSHEET: [(&'static str, &'static str, &'static str); 39] = [
    ("q / Q", "退出 / 强制退出", "全局"),
    ("? / F1", "打开本帮助", "全局"),
    ("\\", "显示/隐藏侧边栏", "全局"),
    ("v", "切换音源", "全局"),
    ("1..9 / 0", "切换标签页", "导航"),
    ("Tab / S-Tab", "切换焦点区域", "导航"),
    ("j / k", "上下移动", "导航"),
    ("g / G", "跳到首行 / 末行", "导航"),
    ("PgUp / PgDn", "翻页", "导航"),
    ("Enter", "播放选中歌曲 / 进入", "导航"),
    ("Esc", "返回上一层", "导航"),
    ("/", "搜索", "业务"),
    (",", "打开设置页", "业务"),
    ("R", "刷新当前列表（绕过服务端 2 分钟缓存）", "业务"),
    ("M", "搜索结果加载下一页", "业务"),
    (";", "打开歌曲右键菜单（也可用鼠标右键）", "业务"),
    ("a / i", "加入队列 / 插播到下一首", "业务"),
    ("A", "把当前列表全部加入队列", "业务"),
    ("x / X", "移出队列 / 清空队列（需确认）", "业务"),
    ("C", "清空音频缓存（需确认）", "业务"),
    ("o", "正序 ↔ 倒序（最后一首在最上）", "业务"),
    ("y", "切换音质（下一首生效）", "业务"),
    ("b / c", "排行榜 / 云端歌单", "业务"),
    ("L", "扫码登录（酷狗 / 网易云）", "业务"),
    ("V", "领取今日概念版 VIP（仅概念版音源）", "业务"),
    ("f", "歌手地区筛选（在歌手页）", "业务"),
    ("E / J / K", "音源设为默认 / 调优先级（在音源页）", "业务"),
    ("s / S", "收藏单曲到云端 / 把整个队列同步到云端", "业务"),
    ("d / D", "从云端歌单移除 / 删除歌单（需确认）", "业务"),
    ("N", "新建云端歌单", "业务"),
    ("Space", "播放 / 暂停", "播放"),
    ("n / p", "下一首 / 上一首", "播放"),
    (
        "← / →",
        "列表内快退/快进 5 秒；设置页中则是修改选中项",
        "播放",
    ),
    ("+ / -", "音量增减 5%", "播放"),
    ("m", "静音开关", "播放"),
    ("r", "循环播放模式", "播放"),
    ("l", "歌词面板开关", "播放"),
    ("[ / ]", "歌词延后 / 提前 100ms", "播放"),
    ("W", "下载当前播放歌曲到设置里的目录", "播放"),
];

/// The key that the help means by a name. Arrows are drawn, and names have capitals to be read by
/// people; a single character means itself.
pub open spec fn help_key(name: Seq<char>) -> Option<KeyCode> {
    if name == "←"@ {
        Some(KeyCode::Left)
    } else if name == "→"@ {
        Some(KeyCode::Right)
    } else if name == "S-Tab"@ {
        Some(KeyCode::BackTab)
    } else if name.len() == 1 {
        Some(KeyCode::Char(name[0]))
    } else {
        named_key(name.map_values(|c: char| text::ascii_lower(c)))
    }
}

/// Whether what the help names does something while a list is browsed: a key, or every key of a
/// range such as `1..9`.
pub open spec fn help_bound(name: Seq<char>) -> bool {
    if name.len() == 4 && name[1] == '.' && name[2] == '.' {
        forall|c: char| name[0] <= c <= name[3] ==> #[trigger] char_action(c) != Action::Unbound
    } else {
        match help_key(name) {
            Some(code) => normal_action(KeyEvent { code, modifiers: KeyModifiers::none() })
                != Action::Unbound,
            None => false,
        }
    }
}

/// The names of keys in `line` from `start` on, which ` / ` keeps apart from `at` on.
pub open spec fn help_names(line: Seq<char>, start: int, at: int) -> Seq<Seq<char>>
    decreases line.len() - at,
{
    if at + 3 > line.len() {
        seq![line.skip(start)]
    } else if line[at] == ' ' && line[at + 1] == '/' && line[at + 2] == ' ' {
        seq![line.subrange(start, at)] + help_names(line, at + 3, at + 3)
    } else {
        help_names(line, start, at + 1)
    }
}

/// Whether all of them do something.
spec fn names_bound(line: Seq<char>, start: int, at: int) -> bool
    decreases line.len() - at,
{
    if at + 3 > line.len() {
        help_bound(line.skip(start))
    } else if line[at] == ' ' && line[at + 1] == '/' && line[at + 2] == ' ' {
        help_bound(line.subrange(start, at)) && names_bound(line, at + 3, at + 3)
    } else {
        names_bound(line, start, at + 1)
    }
}

/// [`names_bound`] says it of each of the names.
proof fn lemma_names_bound(line: Seq<char>, start: int, at: int)
    requires
        names_bound(line, start, at),
    ensures
        forall|k: int|
            0 <= k < help_names(line, start, at).len() ==> help_bound(
                #[trigger] help_names(line, start, at)[k],
            ),
    decreases line.len() - at,
{
    let all = help_names(line, start, at);
    if at + 3 > line.len() {
        assert(all =~= seq![line.skip(start)]);
    } else if line[at] == ' ' && line[at + 1] == '/' && line[at + 2] == ' ' {
        lemma_names_bound(line, at + 3, at + 3);
        let rest = help_names(line, at + 3, at + 3);
        assert(all == seq![line.subrange(start, at)] + rest);
        assert forall|k: int| 0 <= k < all.len() implies help_bound(#[trigger] all[k]) by {
            if k > 0 {
                assert(all[k] == rest[k - 1]);
            }
        }
    } else {
        lemma_names_bound(line, start, at + 1);
        assert(all == help_names(line, start, at + 1));
    }
}

/// A name of one character.
proof fn lemma_one(name: Seq<char>)
    requires
        name.len() == 1,
        char_action(name[0]) != Action::Unbound,
    ensures
        help_bound(name),
{
    reveal_strlit("←");
    reveal_strlit("→");
    reveal_strlit("S-Tab");
}

/// A row that shows one character.
proof fn lemma_alone(line: Seq<char>)
    requires
        line.len() == 1,
        char_action(line[0]) != Action::Unbound,
    ensures
        names_bound(line, 0, 0),
{
    assert(line.skip(0) =~= line);
    lemma_one(line);
}

/// A row that shows two characters.
proof fn lemma_pair(line: Seq<char>)
    requires
        line.len() == 5,
        line[1] == ' ' && line[2] == '/' && line[3] == ' ',
        line[0] != ' ',
        char_action(line[0]) != Action::Unbound,
        char_action(line[4]) != Action::Unbound,
    ensures
        names_bound(line, 0, 0),
{
    reveal_with_fuel(names_bound, 4);
    lemma_one(line.subrange(0, 1));
    lemma_one(line.skip(4));
}

/// The longer names of keys.
#[verifier::spinoff_prover]
proof fn lemma_long_names()
    ensures
        help_bound("F1"@),
        help_bound("1..9"@),
        help_bound("Tab"@),
        help_bound("S-Tab"@),
        help_bound("PgUp"@),
        help_bound("PgDn"@),
        help_bound("Enter"@),
        help_bound("Esc"@),
        help_bound("Space"@),
        help_bound("←"@),
        help_bound("→"@),
{
    reveal_strlit("space");
    reveal_strlit(" ");
    reveal_strlit("enter");
    reveal_strlit("return");
    reveal_strlit("cr");
    reveal_strlit("esc");
    reveal_strlit("escape");
    reveal_strlit("tab");
    reveal_strlit("backtab");
    reveal_strlit("up");
    reveal_strlit("down");
    reveal_strlit("left");
    reveal_strlit("right");
    reveal_strlit("home");
    reveal_strlit("end");
    reveal_strlit("pageup");
    reveal_strlit("pgup");
    reveal_strlit("pagedown");
    reveal_strlit("pgdn");
    reveal_strlit("←");
    reveal_strlit("→");
    reveal_strlit("S-Tab");
    reveal_strlit("F1");
    reveal_strlit("1..9");
    reveal_strlit("Tab");
    reveal_strlit("PgUp");
    reveal_strlit("PgDn");
    reveal_strlit("Enter");
    reveal_strlit("Esc");
    reveal_strlit("Space");
    reveal_strlit("backspace");
    reveal_strlit("bs");
    reveal_strlit("delete");
    reveal_strlit("del");
    reveal_strlit("insert");
    reveal_strlit("ins");
    reveal_with_fuel(text::digits_value, 2);
    let lower = |c: char| text::ascii_lower(c);
    assert("Tab"@.map_values(lower) =~= "tab"@);
    assert("PgUp"@.map_values(lower) =~= "pgup"@);
    assert("PgDn"@.map_values(lower) =~= "pgdn"@);
    assert("Enter"@.map_values(lower) =~= "enter"@);
    assert("Esc"@.map_values(lower) =~= "esc"@);
    assert("Space"@.map_values(lower) =~= "space"@);
    let f1 = "F1"@.map_values(lower);
    assert(f1 =~= seq!['f', '1']);
    assert(f1.skip(1) =~= seq!['1']);
    assert(seq!['1'].drop_last() =~= Seq::<char>::empty());
    assert(text::natural_u64(seq!['1']) == Some(1u64));
}

/// The rows that show more than that.
#[verifier::spinoff_prover]
proof fn lemma_long_rows()
    ensures
        names_bound("? / F1"@, 0, 0),
        names_bound("1..9 / 0"@, 0, 0),
        names_bound("Tab / S-Tab"@, 0, 0),
        names_bound("PgUp / PgDn"@, 0, 0),
        names_bound("Enter"@, 0, 0),
        names_bound("Esc"@, 0, 0),
        names_bound("E / J / K"@, 0, 0),
        names_bound("Space"@, 0, 0),
        names_bound("← / →"@, 0, 0),
{
    lemma_long_names();
    reveal_with_fuel(names_bound, 12);
    reveal_strlit("? / F1");
    reveal_strlit("1..9 / 0");
    reveal_strlit("Tab / S-Tab");
    reveal_strlit("PgUp / PgDn");
    reveal_strlit("Enter");
    reveal_strlit("Esc");
    reveal_strlit("E / J / K");
    reveal_strlit("Space");
    reveal_strlit("← / →");
    reveal_strlit("0");
    reveal_strlit("1..9");
    reveal_strlit("?");
    reveal_strlit("E");
    reveal_strlit("Enter");
    reveal_strlit("Esc");
    reveal_strlit("F1");
    reveal_strlit("J");
    reveal_strlit("K");
    reveal_strlit("PgDn");
    reveal_strlit("PgUp");
    reveal_strlit("S-Tab");
    reveal_strlit("Space");
    reveal_strlit("Tab");
    reveal_strlit("←");
    reveal_strlit("→");
    assert("? / F1"@.subrange(0, 1) =~= "?"@);
    lemma_one("?"@);
    assert("? / F1"@.skip(4) =~= "F1"@);
    assert("1..9 / 0"@.subrange(0, 4) =~= "1..9"@);
    assert("1..9 / 0"@.skip(7) =~= "0"@);
    lemma_one("0"@);
    assert("Tab / S-Tab"@.subrange(0, 3) =~= "Tab"@);
    assert("Tab / S-Tab"@.skip(6) =~= "S-Tab"@);
    assert("PgUp / PgDn"@.subrange(0, 4) =~= "PgUp"@);
    assert("PgUp / PgDn"@.skip(7) =~= "PgDn"@);
    assert("Enter"@.skip(0) =~= "Enter"@);
    assert("Esc"@.skip(0) =~= "Esc"@);
    assert("E / J / K"@.subrange(0, 1) =~= "E"@);
    lemma_one("E"@);
    assert("E / J / K"@.subrange(4, 5) =~= "J"@);
    lemma_one("J"@);
    assert("E / J / K"@.skip(8) =~= "K"@);
    lemma_one("K"@);
    assert("Space"@.skip(0) =~= "Space"@);
    assert("← / →"@.subrange(0, 1) =~= "←"@);
    assert("← / →"@.skip(4) =~= "→"@);
}

/// All rows.
#[verifier::spinoff_prover]
proof fn lemma_rows_bound(row: int)
    requires
        0 <= row < CHEATSHEET@.len(),
    ensures
        names_bound(CHEATSHEET@[row].0@, 0, 0),
{
    lemma_long_rows();
    if row == 0 {
        reveal_strlit("q / Q");
        lemma_pair("q / Q"@);
    } else if row == 1 {
        assert(CHEATSHEET@[1].0@ == "? / F1"@);
    } else if row == 2 {
        reveal_strlit("\\");
        lemma_alone("\\"@);
    } else if row == 3 {
        reveal_strlit("v");
        lemma_alone("v"@);
    } else if row == 4 {
        assert(CHEATSHEET@[4].0@ == "1..9 / 0"@);
    } else if row == 5 {
        assert(CHEATSHEET@[5].0@ == "Tab / S-Tab"@);
    } else if row == 6 {
        reveal_strlit("j / k");
        lemma_pair("j / k"@);
    } else if row == 7 {
        reveal_strlit("g / G");
        lemma_pair("g / G"@);
    } else if row == 8 {
        assert(CHEATSHEET@[8].0@ == "PgUp / PgDn"@);
    } else if row == 9 {
        assert(CHEATSHEET@[9].0@ == "Enter"@);
    } else if row == 10 {
        assert(CHEATSHEET@[10].0@ == "Esc"@);
    } else if row == 11 {
        reveal_strlit("/");
        lemma_alone("/"@);
    } else if row == 12 {
        reveal_strlit(",");
        lemma_alone(","@);
    } else if row == 13 {
        reveal_strlit("R");
        lemma_alone("R"@);
    } else if row == 14 {
        reveal_strlit("M");
        lemma_alone("M"@);
    } else if row == 15 {
        reveal_strlit(";");
        lemma_alone(";"@);
    } else if row == 16 {
        reveal_strlit("a / i");
        lemma_pair("a / i"@);
    } else if row == 17 {
        reveal_strlit("A");
        lemma_alone("A"@);
    } else if row == 18 {
        reveal_strlit("x / X");
        lemma_pair("x / X"@);
    } else if row == 19 {
        reveal_strlit("C");
        lemma_alone("C"@);
    } else if row == 20 {
        reveal_strlit("o");
        lemma_alone("o"@);
    } else if row == 21 {
        reveal_strlit("y");
        lemma_alone("y"@);
    } else if row == 22 {
        reveal_strlit("b / c");
        lemma_pair("b / c"@);
    } else if row == 23 {
        reveal_strlit("L");
        lemma_alone("L"@);
    } else if row == 24 {
        reveal_strlit("V");
        lemma_alone("V"@);
    } else if row == 25 {
        reveal_strlit("f");
        lemma_alone("f"@);
    } else if row == 26 {
        assert(CHEATSHEET@[26].0@ == "E / J / K"@);
    } else if row == 27 {
        reveal_strlit("s / S");
        lemma_pair("s / S"@);
    } else if row == 28 {
        reveal_strlit("d / D");
        lemma_pair("d / D"@);
    } else if row == 29 {
        reveal_strlit("N");
        lemma_alone("N"@);
    } else if row == 30 {
        assert(CHEATSHEET@[30].0@ == "Space"@);
    } else if row == 31 {
        reveal_strlit("n / p");
        lemma_pair("n / p"@);
    } else if row == 32 {
        assert(CHEATSHEET@[32].0@ == "← / →"@);
    } else if row == 33 {
        reveal_strlit("+ / -");
        lemma_pair("+ / -"@);
    } else if row == 34 {
        reveal_strlit("m");
        lemma_alone("m"@);
    } else if row == 35 {
        reveal_strlit("r");
        lemma_alone("r"@);
    } else if row == 36 {
        reveal_strlit("l");
        lemma_alone("l"@);
    } else if row == 37 {
        reveal_strlit("[ / ]");
        lemma_pair("[ / ]"@);
    } else {
        reveal_strlit("W");
        lemma_alone("W"@);
    }
}

/// Every key that the help shows does something while a list is browsed, also where it shows several
/// keys or a range of them.
pub proof fn keys_in_the_help_are_bound(row: int, k: int)
    requires
        0 <= row < CHEATSHEET@.len(),
        0 <= k < help_names(CHEATSHEET@[row].0@, 0, 0).len(),
    ensures
        help_bound(help_names(CHEATSHEET@[row].0@, 0, 0)[k]),
{
    lemma_rows_bound(row);
    lemma_names_bound(CHEATSHEET@[row].0@, 0, 0);
}

/// The name of an action that has one.
pub open spec fn action_name(action: Action) -> Option<Seq<char>> {
    match action {
        Action::Quit => Some("quit"@),
        Action::ForceQuit => Some("force_quit"@),
        Action::Help => Some("help"@),
        Action::MoveUp => Some("move_up"@),
        Action::MoveDown => Some("move_down"@),
        Action::MoveTop => Some("move_top"@),
        Action::MoveBottom => Some("move_bottom"@),
        Action::PageUp => Some("page_up"@),
        Action::PageDown => Some("page_down"@),
        Action::FocusNext => Some("focus_next"@),
        Action::FocusPrev => Some("focus_prev"@),
        Action::Submit => Some("submit"@),
        Action::Cancel => Some("cancel"@),
        Action::Backspace => Some("backspace"@),
        Action::Delete => Some("delete"@),
        Action::CursorLeft => Some("cursor_left"@),
        Action::CursorRight => Some("cursor_right"@),
        Action::CursorHome => Some("cursor_home"@),
        Action::CursorEnd => Some("cursor_end"@),
        Action::PlayPause => Some("play_pause"@),
        Action::Next => Some("next"@),
        Action::Prev => Some("prev"@),
        Action::SeekForward => Some("seek_forward"@),
        Action::SeekBackward => Some("seek_backward"@),
        Action::LoadMoreSearch => Some("load_more_search"@),
        Action::VolumeUp => Some("volume_up"@),
        Action::VolumeDown => Some("volume_down"@),
        Action::ToggleMute => Some("toggle_mute"@),
        Action::CyclePlaybackMode => Some("cycle_playback_mode"@),
        Action::CycleQuality => Some("cycle_quality"@),
        Action::ToggleLyricPanel => Some("toggle_lyric_panel"@),
        Action::LyricDelay => Some("lyric_delay"@),
        Action::LyricAdvance => Some("lyric_advance"@),
        Action::OpenSearch => Some("open_search"@),
        Action::OpenSettings => Some("open_settings"@),
        Action::DownloadCurrent => Some("download_current"@),
        Action::Reload => Some("reload"@),
        Action::QueueAppend => Some("queue_append"@),
        Action::AddAllToQueue => Some("add_all_to_queue"@),
        Action::QueuePlayNext => Some("queue_play_next"@),
        Action::RemoveFromQueue => Some("remove_from_queue"@),
        Action::ClearQueue => Some("clear_queue"@),
        Action::ClearCache => Some("clear_cache"@),
        Action::ToggleSortOrder => Some("toggle_sort_order"@),
        Action::OpenRanks => Some("open_ranks"@),
        Action::OpenCloud => Some("open_cloud"@),
        Action::Login => Some("login"@),
        Action::ClaimVip => Some("claim_vip"@),
        Action::CycleArtistFilter => Some("cycle_artist_filter"@),
        Action::SyncToCloud => Some("sync_to_cloud"@),
        Action::AddToCloud => Some("add_to_cloud"@),
        Action::RemoveFromCloud => Some("remove_from_cloud"@),
        Action::DeleteCloudPlaylist => Some("delete_cloud_playlist"@),
        Action::NewCloudPlaylist => Some("new_cloud_playlist"@),
        Action::ToggleSidebar => Some("toggle_sidebar"@),
        Action::SwitchSource => Some("switch_source"@),
        Action::SetDefaultSource => Some("set_default_source"@),
        Action::RaiseSourcePriority => Some("raise_source_priority"@),
        Action::LowerSourcePriority => Some("lower_source_priority"@),
        _ => None,
    }
}

/// Whether a name is written in small letters, its words joined by underscores.
pub open spec fn is_snake(name: Seq<char>) -> bool {
    name.len() > 0 && forall|i: int|
        0 <= i < name.len() ==> ('a' <= #[trigger] name[i] <= 'z' || name[i] == '_')
}

/// The names of actions are written in small letters.
#[verifier::spinoff_prover]
proof fn lemma_names_are_snake(action: Action)
    ensures
        action_name(action) matches Some(name) ==> is_snake(name),
{
    reveal_strlit("quit");
    reveal_strlit("force_quit");
    reveal_strlit("help");
    reveal_strlit("move_up");
    reveal_strlit("move_down");
    reveal_strlit("move_top");
    reveal_strlit("move_bottom");
    reveal_strlit("page_up");
    reveal_strlit("page_down");
    reveal_strlit("focus_next");
    reveal_strlit("focus_prev");
    reveal_strlit("submit");
    reveal_strlit("cancel");
    reveal_strlit("backspace");
    reveal_strlit("delete");
    reveal_strlit("cursor_left");
    reveal_strlit("cursor_right");
    reveal_strlit("cursor_home");
    reveal_strlit("cursor_end");
    reveal_strlit("play_pause");
    reveal_strlit("next");
    reveal_strlit("prev");
    reveal_strlit("seek_forward");
    reveal_strlit("seek_backward");
    reveal_strlit("load_more_search");
    reveal_strlit("volume_up");
    reveal_strlit("volume_down");
    reveal_strlit("toggle_mute");
    reveal_strlit("cycle_playback_mode");
    reveal_strlit("cycle_quality");
    reveal_strlit("toggle_lyric_panel");
    reveal_strlit("lyric_delay");
    reveal_strlit("lyric_advance");
    reveal_strlit("open_search");
    reveal_strlit("open_settings");
    reveal_strlit("download_current");
    reveal_strlit("reload");
    reveal_strlit("queue_append");
    reveal_strlit("add_all_to_queue");
    reveal_strlit("queue_play_next");
    reveal_strlit("remove_from_queue");
    reveal_strlit("clear_queue");
    reveal_strlit("clear_cache");
    reveal_strlit("toggle_sort_order");
    reveal_strlit("open_ranks");
    reveal_strlit("open_cloud");
    reveal_strlit("login");
    reveal_strlit("claim_vip");
    reveal_strlit("cycle_artist_filter");
    reveal_strlit("sync_to_cloud");
    reveal_strlit("add_to_cloud");
    reveal_strlit("remove_from_cloud");
    reveal_strlit("delete_cloud_playlist");
    reveal_strlit("new_cloud_playlist");
    reveal_strlit("toggle_sidebar");
    reveal_strlit("switch_source");
    reveal_strlit("set_default_source");
    reveal_strlit("raise_source_priority");
    reveal_strlit("lower_source_priority");
}

/// Different names never stand for the same action; a name stands only for an action without a
/// value, never for none; and every name is written in small letters joined by underscores, so that
/// no other spelling stands for anything.
pub proof fn names_tell_actions_apart(first: Seq<char>, second: Seq<char>)
    ensures
        named_action(first) is Some && named_action(first) == named_action(second) ==> first
            == second,
        named_action(first) matches Some(action) ==> action_name(action) == Some(first) && !(
        action is Char) && !(action is SeekTo) && !(action is SeekBy) && !(action is Digit)
            && !(action is Unbound),
        !is_snake(first) ==> named_action(first) is None,
{
    if let Some(action) = named_action(first) {
        lemma_names_are_snake(action);
    }
}

/// The letter that stands for an action while lists are browsed.
pub open spec fn letter_of(action: Action) -> Option<char> {
    match action {
        Action::Quit => Some('q'),
        Action::ForceQuit => Some('Q'),
        Action::Help => Some('?'),
        Action::MoveUp => Some('k'),
        Action::MoveDown => Some('j'),
        Action::MoveTop => Some('g'),
        Action::MoveBottom => Some('G'),
        Action::PlayPause => Some(' '),
        Action::Next => Some('n'),
        Action::Prev => Some('p'),
        Action::VolumeUp => Some('+'),
        Action::VolumeDown => Some('-'),
        Action::ToggleMute => Some('m'),
        Action::CyclePlaybackMode => Some('r'),
        Action::CycleQuality => Some('y'),
        Action::ToggleLyricPanel => Some('l'),
        Action::LyricAdvance => Some(']'),
        Action::LyricDelay => Some('['),
        Action::OpenSearch => Some('/'),
        Action::OpenSettings => Some(','),
        Action::Reload => Some('R'),
        Action::QueueAppend => Some('a'),
        Action::AddAllToQueue => Some('A'),
        Action::QueuePlayNext => Some('i'),
        Action::RemoveFromQueue => Some('x'),
        Action::ClearQueue => Some('X'),
        Action::ClearCache => Some('C'),
        Action::ContextMenu => Some(';'),
        Action::LoadMoreSearch => Some('M'),
        Action::ToggleSortOrder => Some('o'),
        Action::OpenRanks => Some('b'),
        Action::OpenCloud => Some('c'),
        Action::Login => Some('L'),
        Action::ClaimVip => Some('V'),
        Action::CycleArtistFilter => Some('f'),
        Action::SyncToCloud => Some('S'),
        Action::AddToCloud => Some('s'),
        Action::RemoveFromCloud => Some('d'),
        Action::DeleteCloudPlaylist => Some('D'),
        Action::NewCloudPlaylist => Some('N'),
        Action::ToggleSidebar => Some('\\'),
        Action::SwitchSource => Some('v'),
        Action::DownloadCurrent => Some('W'),
        Action::SetDefaultSource => Some('E'),
        Action::RaiseSourcePriority => Some('K'),
        Action::LowerSourcePriority => Some('J'),
        _ => None,
    }
}

/// Every action that has a letter is reached by it, so that no two of them share one; Enter goes on,
/// Escape goes back, the arrows move, and Tab hands the keys on.
pub proof fn actions_are_reached_by_their_keys(action: Action, modifiers: KeyModifiers)
    ensures
        letter_of(action) matches Some(c) ==> normal_action(
            KeyEvent { code: KeyCode::Char(c), modifiers },
        ) == action,
        normal_action(KeyEvent { code: KeyCode::Enter, modifiers }) == Action::Submit,
        normal_action(KeyEvent { code: KeyCode::Esc, modifiers }) == Action::Cancel,
        normal_action(KeyEvent { code: KeyCode::Up, modifiers }) == Action::MoveUp,
        normal_action(KeyEvent { code: KeyCode::Down, modifiers }) == Action::MoveDown,
        normal_action(KeyEvent { code: KeyCode::Left, modifiers }) == Action::SeekBackward,
        normal_action(KeyEvent { code: KeyCode::Right, modifiers }) == Action::SeekForward,
        normal_action(KeyEvent { code: KeyCode::Tab, modifiers }) == Action::FocusNext,
        normal_action(KeyEvent { code: KeyCode::BackTab, modifiers }) == Action::FocusPrev,
        normal_action(KeyEvent { code: KeyCode::PageUp, modifiers }) == Action::PageUp,
        normal_action(KeyEvent { code: KeyCode::PageDown, modifiers }) == Action::PageDown,
        normal_action(KeyEvent { code: KeyCode::Home, modifiers }) == Action::MoveTop,
        normal_action(KeyEvent { code: KeyCode::End, modifiers }) == Action::MoveBottom,
        text_action(KeyEvent { code: KeyCode::Enter, modifiers }) == Action::Submit,
        text_action(KeyEvent { code: KeyCode::Esc, modifiers }) == Action::Cancel,
        text_action(KeyEvent { code: KeyCode::Backspace, modifiers }) == Action::Backspace,
        text_action(KeyEvent { code: KeyCode::Delete, modifiers }) == Action::Delete,
        text_action(KeyEvent { code: KeyCode::Left, modifiers }) == Action::CursorLeft,
        text_action(KeyEvent { code: KeyCode::Right, modifiers }) == Action::CursorRight,
        text_action(KeyEvent { code: KeyCode::Home, modifiers }) == Action::CursorHome,
        text_action(KeyEvent { code: KeyCode::End, modifiers }) == Action::CursorEnd,
{
}

} // verus!
