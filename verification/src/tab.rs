//! The pages, the places on the screen that react to the mouse, and what the status line says.
use vstd::prelude::*;
use crate::text;

verus! {

/// A page.
#[derive(Debug, Clone, Copy, PartialEq, Eq, Structural)]
pub enum Tab {
    /// What is playing.
    Home,
    Search,
    Playlists,
    Artists,
    Ranks,
    Cloud,
    Queue,
    /// The picture of the sound.
    Visualizer,
    Sources,
    Settings,
}

impl Default for Tab {
    fn default() -> (r: Self)
        ensures
            r == Tab::Home,
    {
        Tab::Home
    }
}

impl Tab {
    /// The pages in the order of the number keys 1 to 9 and 0.
    pub const ALL: [Tab; 10] = [
        Tab::Home,
        Tab::Search,
        Tab::Playlists,
        Tab::Artists,
        Tab::Ranks,
        Tab::Cloud,
        Tab::Queue,
        Tab::Sources,
        Tab::Settings,
        Tab::Visualizer,
    ];

    /// How many pages the number keys reach.
    pub const NUMBERED: usize = 10;

    /// The pages in the order in which the side bar shows them.
    pub const SIDEBAR_ORDER: [Tab; 10] = [
        Tab::Home,
        Tab::Visualizer,
        Tab::Search,
        Tab::Playlists,
        Tab::Artists,
        Tab::Ranks,
        Tab::Cloud,
        Tab::Queue,
        Tab::Sources,
        Tab::Settings,
    ];

    /// The title of a page.
    pub open spec fn title_text(self) -> Seq<char> {
        match self {
            Tab::Home => "首页"@,
            Tab::Search => "搜索"@,
            Tab::Playlists => "歌单"@,
            Tab::Artists => "歌手"@,
            Tab::Ranks => "排行榜"@,
            Tab::Cloud => "云端"@,
            Tab::Visualizer => "可视化"@,
            Tab::Queue => "队列"@,
            Tab::Sources => "音源"@,
            Tab::Settings => "设置"@,
        }
    }

    /// The title of this page.
    pub fn title(self) -> (r: &'static str)
        ensures
            r@ == self.title_text(),
    {
        match self {
            Tab::Home => "首页",
            Tab::Search => "搜索",
            Tab::Playlists => "歌单",
            Tab::Artists => "歌手",
            Tab::Ranks => "排行榜",
            Tab::Cloud => "云端",
            Tab::Visualizer => "可视化",
            Tab::Queue => "队列",
            Tab::Sources => "音源",
            Tab::Settings => "设置",
        }
    }

    /// The heading in the side bar under which a page stands.
    pub open spec fn group_text(self) -> Seq<char> {
        match self {
            Tab::Home | Tab::Visualizer => "正在播放"@,
            Tab::Search | Tab::Playlists | Tab::Artists | Tab::Ranks => "发现"@,
            Tab::Cloud | Tab::Queue => "我的"@,
            Tab::Sources | Tab::Settings => "设置"@,
        }
    }

    /// The heading in the side bar under which this page stands.
    pub fn group(self) -> (r: &'static str)
        ensures
            r@ == self.group_text(),
    {
        match self {
            Tab::Home | Tab::Visualizer => "正在播放",
            Tab::Search | Tab::Playlists | Tab::Artists | Tab::Ranks => "发现",
            Tab::Cloud | Tab::Queue => "我的",
            Tab::Sources | Tab::Settings => "设置",
        }
    }

    /// The place of a page in [`Tab::ALL`].
    pub open spec fn place(self) -> int {
        match self {
            Tab::Home => 0,
            Tab::Search => 1,
            Tab::Playlists => 2,
            Tab::Artists => 3,
            Tab::Ranks => 4,
            Tab::Cloud => 5,
            Tab::Queue => 6,
            Tab::Sources => 7,
            Tab::Settings => 8,
            Tab::Visualizer => 9,
        }
    }

    /// The place of this page in [`Tab::ALL`].
    pub fn index(self) -> (r: usize)
        ensures
            r == self.place(),
            r < 10,
            Tab::ALL@[r as int] == self,
    {
        match self {
            Tab::Home => 0,
            Tab::Search => 1,
            Tab::Playlists => 2,
            Tab::Artists => 3,
            Tab::Ranks => 4,
            Tab::Cloud => 5,
            Tab::Queue => 6,
            Tab::Sources => 7,
            Tab::Settings => 8,
            Tab::Visualizer => 9,
        }
    }

    /// The number key of this page: 1 to 9 for the first nine, 0 for the tenth.
    pub fn number_key(self) -> (r: Option<char>)
        ensures
            r == Some(
                if self.place() == 9 {
                    '0'
                } else {
                    ('1' as int + self.place()) as char
                },
            ),
    {
        let index: usize = self.index();
        if index >= Tab::NUMBERED {
            return None;
        }
        Some(
            if index == 9 {
                '0'
            } else {
                (49 + index as u8) as char
            },
        )
    }

    /// The place of this page among all, as text.
    pub fn position_text(self) -> (r: String)
        ensures
            r@ == text::decimal((self.place() + 1) as nat) + "/"@ + text::decimal(10),
    {
        let own = text::write_usize(self.index() + 1);
        let all = text::write_usize(Tab::ALL.len());
        text::join3(own.as_str(), "/", all.as_str())
    }

    /// The page of a number key; 0 is the tenth.
    pub open spec fn numbered(number: u8) -> Option<Tab> {
        if number == 0 {
            Some(Tab::ALL@[9])
        } else if number <= 10 {
            Some(Tab::ALL@[number - 1])
        } else {
            None
        }
    }

    /// The page of a number key; 0 is the tenth.
    pub fn from_number(number: u8) -> (r: Option<Tab>)
        ensures
            r == Tab::numbered(number),
    {
        let index: usize = if number == 0 {
            9
        } else {
            (number - 1) as usize
        };
        if index >= Tab::NUMBERED {
            return None;
        }
        let all = Tab::ALL;
        Some(all[index])
    }

    /// The page at a place of the side bar.
    pub fn from_sidebar_index(index: usize) -> (r: Option<Tab>)
        ensures
            r == if index < 10 {
                Some(Tab::SIDEBAR_ORDER@[index as int])
            } else {
                None
            },
    {
        let order = Tab::SIDEBAR_ORDER;
        if index < order.len() {
            Some(order[index])
        } else {
            None
        }
    }
}

/// The place of a page in the side bar.
pub open spec fn sidebar_place(tab: Tab) -> int {
    match tab {
        Tab::Home => 0,
        Tab::Visualizer => 1,
        Tab::Search => 2,
        Tab::Playlists => 3,
        Tab::Artists => 4,
        Tab::Ranks => 5,
        Tab::Cloud => 6,
        Tab::Queue => 7,
        Tab::Sources => 8,
        Tab::Settings => 9,
    }
}

/// The side bar shows every page once.
pub proof fn the_side_bar_shows_every_page(tab: Tab, i: int)
    requires
        0 <= i < 10,
    ensures
        Tab::SIDEBAR_ORDER@[sidebar_place(tab)] == tab,
        sidebar_place(Tab::SIDEBAR_ORDER@[i]) == i,
        Tab::ALL@[tab.place()] == tab,
        Tab::ALL@[i].place() == i,
{
}

/// The pages under one heading stand together in the side bar.
pub proof fn headings_stand_together(i: int, j: int, k: int)
    requires
        0 <= i <= j <= k < 10,
        Tab::SIDEBAR_ORDER@[i].group_text() == Tab::SIDEBAR_ORDER@[k].group_text(),
    ensures
        Tab::SIDEBAR_ORDER@[j].group_text() == Tab::SIDEBAR_ORDER@[i].group_text(),
{
    reveal_strlit("正在播放");
    reveal_strlit("发现");
    reveal_strlit("我的");
    reveal_strlit("设置");
    assert("发现"@[0] != "我的"@[0]);
    assert("发现"@[0] != "设置"@[0]);
    assert("我的"@[0] != "设置"@[0]);
    assert("正在播放"@.len() == 4);
}

/// The digit that a number key shows leads to the page that shows it.
pub proof fn number_keys_lead_back(tab: Tab)
    ensures
        Tab::numbered(
            if tab.place() == 9 {
                0
            } else {
                (tab.place() + 1) as u8
            },
        ) == Some(tab),
{
}

/// The part of the page that takes the keys.
#[derive(Debug, Clone, Copy, PartialEq, Eq, Structural)]
pub enum Focus {
    Sidebar,
    /// The search line, or the list of playlists, artists or charts.
    Primary,
    /// The list of songs.
    Secondary,
    Queue,
}

impl Default for Focus {
    fn default() -> (r: Self)
        ensures
            r == Focus::Primary,
    {
        Focus::Primary
    }
}

/// What a place on the screen stands for.
#[derive(Debug, Clone, Copy, PartialEq, Eq, Structural)]
pub enum HitTarget {
    /// A page, by its place in [`Tab::SIDEBAR_ORDER`].
    Tab(usize),
    /// The list of playlists, artists or charts.
    Entries,
    Songs,
    Queue,
    /// The bar that shows how far the song has been played.
    Progress,
    Settings,
    VipClaim,
    ProfileRetry,
}

/// A part of the screen, in columns and rows.
#[derive(Debug, Clone, Copy, PartialEq, Eq, Structural)]
pub struct Rect {
    pub x: u16,
    pub y: u16,
    pub width: u16,
    pub height: u16,
}

impl Rect {
    /// The first column to the right, as far as the screen can reach.
    pub open spec fn right_edge(self) -> int {
        if self.x + self.width > u16::MAX {
            u16::MAX as int
        } else {
            self.x + self.width
        }
    }

    /// The first row below, as far as the screen can reach.
    pub open spec fn bottom_edge(self) -> int {
        if self.y + self.height > u16::MAX {
            u16::MAX as int
        } else {
            self.y + self.height
        }
    }

    /// Whether a place lies in this part.
    pub open spec fn covers(self, column: u16, row: u16) -> bool {
        self.x <= column < self.right_edge() && self.y <= row < self.bottom_edge()
    }

    /// Whether a place lies in this part.
    pub fn contains(&self, column: u16, row: u16) -> (r: bool)
        ensures
            r == self.covers(column, row),
    {
        self.x <= column && column < self.x.saturating_add(self.width) && self.y <= row && row
            < self.y.saturating_add(self.height)
    }
}

/// A part of the screen that reacts to the mouse.
#[derive(Debug, Clone, Copy, PartialEq, Eq, Structural)]
pub struct HitZone {
    pub rect: Rect,
    pub target: HitTarget,
    /// The entry shown in the first row.
    pub first_index: usize,
    /// How many entries there are.
    pub len: usize,
}

impl HitZone {
    /// Whether a place lies in this zone.
    pub fn contains(&self, column: u16, row: u16) -> (r: bool)
        ensures
            r == self.rect.covers(column, row),
    {
        self.rect.contains(column, row)
    }

    /// The entry shown in a row; the last for rows below it, the first for rows above.
    pub open spec fn entry_at(self, row: u16) -> Option<int> {
        let below = if row >= self.rect.y {
            row - self.rect.y
        } else {
            0
        };
        if self.len == 0 {
            None
        } else if self.first_index + below < self.len {
            Some(self.first_index + below)
        } else {
            Some(self.len - 1)
        }
    }

    /// The entry shown in a row; none where there are no entries.
    pub fn index_at(&self, row: u16) -> (r: Option<usize>)
        ensures
            match r {
                Some(index) => self.entry_at(row) == Some(index as int) && index < self.len,
                None => self.entry_at(row) is None,
            },
    {
        if self.len == 0 {
            return None;
        }
        let below: usize = row.saturating_sub(self.rect.y) as usize;
        let last: usize = self.len - 1;
        Some(
            if self.first_index >= last || below >= last - self.first_index {
                last
            } else {
                self.first_index + below
            },
        )
    }
}

/// How much weight a message has.
#[derive(Debug, Clone, Copy, PartialEq, Eq, Structural)]
pub enum StatusLevel {
    Info,
    Success,
    Warning,
    Error,
}

impl Default for StatusLevel {
    fn default() -> (r: Self)
        ensures
            r == StatusLevel::Info,
    {
        StatusLevel::Info
    }
}

} // verus!
