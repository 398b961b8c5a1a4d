//! The settings: what there is to set, which values can be chosen and how they are shown.
use vstd::prelude::*;
use vstd::std_specs::cmp::PartialEqSpec;
use vstd::string::StringExecFns;
use crate::queue::PlaybackMode;
use crate::text;

verus! {

/// What can be set, in the order in which it is shown.
#[derive(Debug, Clone, Copy, PartialEq, Eq, Structural)]
pub enum Setting {
    Theme,
    Quality,
    PlaybackMode,
    RefreshMs,
    LyricOffsetMs,
    PageSize,
    CacheLimitMib,
    BasicColor,
    LyricPanel,
    Sidebar,
    LiteMode,
    DownloadDir,
    CoverFill,
    AudioDevice,
}

impl Setting {
    /// All settings in the order in which they are shown.
    pub const ALL: [Setting; 14] = [
        Setting::Theme,
        Setting::Quality,
        Setting::PlaybackMode,
        Setting::RefreshMs,
        Setting::LyricOffsetMs,
        Setting::PageSize,
        Setting::CacheLimitMib,
        Setting::BasicColor,
        Setting::LyricPanel,
        Setting::Sidebar,
        Setting::LiteMode,
        Setting::DownloadDir,
        Setting::CoverFill,
        Setting::AudioDevice,
    ];

    /// The name of a setting.
    pub open spec fn label_text(self) -> Seq<char> {
        match self {
            Setting::Theme => "主题"@,
            Setting::Quality => "音质"@,
            Setting::PlaybackMode => "播放模式"@,
            Setting::RefreshMs => "刷新间隔"@,
            Setting::LyricOffsetMs => "歌词偏移"@,
            Setting::PageSize => "每页条数"@,
            Setting::CacheLimitMib => "缓存上限"@,
            Setting::BasicColor => "16 色模式"@,
            Setting::LyricPanel => "歌词面板"@,
            Setting::Sidebar => "侧边导航"@,
            Setting::LiteMode => "简易模式"@,
            Setting::DownloadDir => "下载目录"@,
            Setting::CoverFill => "封面铺满"@,
            Setting::AudioDevice => "输出设备"@,
        }
    }

    /// The name of this setting.
    pub fn label(self) -> (r: &'static str)
        ensures
            r@ == self.label_text(),
    {
        match self {
            Setting::Theme => "主题",
            Setting::Quality => "音质",
            Setting::PlaybackMode => "播放模式",
            Setting::RefreshMs => "刷新间隔",
            Setting::LyricOffsetMs => "歌词偏移",
            Setting::PageSize => "每页条数",
            Setting::CacheLimitMib => "缓存上限",
            Setting::BasicColor => "16 色模式",
            Setting::LyricPanel => "歌词面板",
            Setting::Sidebar => "侧边导航",
            Setting::LiteMode => "简易模式",
            Setting::DownloadDir => "下载目录",
            Setting::CoverFill => "封面铺满",
            Setting::AudioDevice => "输出设备",
        }
    }

    /// What a setting does.
    pub open spec fn description_text(self) -> Seq<char> {
        match self {
            Setting::Theme => "配色方案，即时生效"@,
            Setting::Quality => "越高越占缓存，切歌后生效"@,
            Setting::PlaybackMode => "顺序 / 列表循环 / 单曲循环 / 随机"@,
            Setting::RefreshMs => "越小越流畅，也越费 CPU"@,
            Setting::LyricOffsetMs => "正值让歌词提前显示"@,
            Setting::PageSize => "搜索与歌单一次取多少条"@,
            Setting::CacheLimitMib => "超了自动删最旧的，0 为不限"@,
            Setting::BasicColor => "老终端画不出真彩时打开"@,
            Setting::LyricPanel => "右侧歌词栏（快捷键 l）"@,
            Setting::Sidebar => "左侧标签导航（快捷键 \\）"@,
            Setting::LiteMode => "关封面与频谱，省内存和 CPU"@,
            Setting::DownloadDir => "下载单曲保存到这里（默认 ~/Music）"@,
            Setting::CoverFill => "铺满 / 不变形 / 不裁剪，只能取两个"@,
            Setting::AudioDevice => "声音送到哪张卡，没声音时先看这里"@,
        }
    }

    /// What this setting does.
    pub fn description(self) -> (r: &'static str)
        ensures
            r@ == self.description_text(),
    {
        match self {
            Setting::Theme => "配色方案，即时生效",
            Setting::Quality => "越高越占缓存，切歌后生效",
            Setting::PlaybackMode => "顺序 / 列表循环 / 单曲循环 / 随机",
            Setting::RefreshMs => "越小越流畅，也越费 CPU",
            Setting::LyricOffsetMs => "正值让歌词提前显示",
            Setting::PageSize => "搜索与歌单一次取多少条",
            Setting::CacheLimitMib => "超了自动删最旧的，0 为不限",
            Setting::BasicColor => "老终端画不出真彩时打开",
            Setting::LyricPanel => "右侧歌词栏（快捷键 l）",
            Setting::Sidebar => "左侧标签导航（快捷键 \\）",
            Setting::LiteMode => "关封面与频谱，省内存和 CPU",
            Setting::DownloadDir => "下载单曲保存到这里（默认 ~/Music）",
            Setting::CoverFill => "铺满 / 不变形 / 不裁剪，只能取两个",
            Setting::AudioDevice => "声音送到哪张卡，没声音时先看这里",
        }
    }
}

// ---------------------------------------------------------------------------
// The values that can be chosen
// ---------------------------------------------------------------------------
/// What stands for the device that the system chooses.
pub const DEFAULT_DEVICE_LABEL: &'static str = "系统默认";

/// How many characters of the name of a device are shown.
pub const MAX_DEVICE_LABEL_CHARS: usize = 18;

/// How often the screen is drawn, in milliseconds.
pub const REFRESH_MS_OPTIONS: [u64; 4] = [200, 100, 50, 33];

/// How many entries a page has.
pub const PAGE_SIZE_OPTIONS: [u32; 4] = [20, 30, 50, 100];

/// How large the cache may grow, in MiB; 0 for no limit.
pub const CACHE_LIMIT_OPTIONS: [u64; 5] = [0, 256, 512, 1024, 2048];

/// By how much one step moves the lyric, in milliseconds.
pub const LYRIC_OFFSET_STEP: i64 = 100;

/// How far the lyric can be moved, in milliseconds.
pub const LYRIC_OFFSET_LIMIT: i64 = 5_000;

/// Where songs can be saved.
pub const DOWNLOAD_DIR_OPTIONS: [&'static str; 3] = ["~/Music", "~/Downloads", "~/Downloads/Music"];

// ---------------------------------------------------------------------------
// Going round
// ---------------------------------------------------------------------------
/// The place `delta` steps away from `index` on a round of `len` places.
pub fn go_round(index: usize, delta: isize, len: usize) -> (r: usize)
    requires
        index < len,
    ensures
        r == (index + delta) % (len as int),
        r < len,
{
    let sum: i128 = index as i128 + delta as i128;
    match sum.checked_rem_euclid(len as i128) {
        Some(place) => place as usize,
        None => 0,
    }
}

/// The first place in `options` from `from` on that holds `current`.
pub open spec fn option_place<T: PartialEq>(options: Seq<T>, current: T, from: int) -> Option<int>
    decreases options.len() - from,
{
    if from < 0 || from >= options.len() {
        None
    } else if options[from].eq_spec(&current) {
        Some(from)
    } else {
        option_place(options, current, from + 1)
    }
}

/// The value `delta` places behind `current` in `options`, going round.
pub open spec fn cycled<T: PartialEq>(options: Seq<T>, current: T, delta: int) -> Option<T> {
    match option_place(options, current, 0) {
        Some(at) => Some(options[(at + delta) % (options.len() as int)]),
        None => None,
    }
}

/// The value `delta` places behind `current` in `options`, going round; none where `current` is not
/// among them.
pub fn cycle<T: PartialEq + Copy>(options: &[T], current: T, delta: isize) -> (r: Option<T>)
    ensures
        T::obeys_eq_spec() ==> r == cycled(options@, current, delta as int),
{
    let mut i: usize = 0;
    while i < options.len()
        invariant
            i <= options@.len(),
            T::obeys_eq_spec() ==> option_place(options@, current, 0) == option_place(
                options@,
                current,
                i as int,
            ),
        decreases options@.len() - i,
    {
        if options[i] == current {
            return Some(options[go_round(i, delta, options.len())]);
        }
        i += 1;
    }
    None
}

/// The first place in `options` from `from` on that holds the text `current`.
pub open spec fn text_place(options: Seq<Seq<char>>, current: Seq<char>, from: int) -> Option<int>
    decreases options.len() - from,
{
    if from < 0 || from >= options.len() {
        None
    } else if options[from] == current {
        Some(from)
    } else {
        text_place(options, current, from + 1)
    }
}

/// The text `delta` places behind `current` in `options`, going round.
pub open spec fn text_cycled(options: Seq<Seq<char>>, current: Seq<char>, delta: int) -> Option<
    Seq<char>,
> {
    match text_place(options, current, 0) {
        Some(at) => Some(options[(at + delta) % (options.len() as int)]),
        None => None,
    }
}

/// The text `delta` places behind `current` in `options`, going round; none where `current` is not
/// among them.
pub fn cycle_str<'a>(options: &'a [&'a str], current: &str, delta: isize) -> (r: Option<&'a str>)
    ensures
        match r {
            Some(picked) => text_cycled(options.deep_view(), current@, delta as int) == Some(
                picked@,
            ),
            None => text_cycled(options.deep_view(), current@, delta as int) is None,
        },
{
    let ghost all = options.deep_view();
    let mut i: usize = 0;
    while i < options.len()
        invariant
            i <= options@.len(),
            all == options.deep_view(),
            text_place(all, current@, 0) == text_place(all, current@, i as int),
        decreases options@.len() - i,
    {
        proof {
            assert(all[i as int] == options@[i as int]@);
        }
        if text::same(options[i], current) {
            let next: usize = go_round(i, delta, options.len());
            proof {
                assert(all[next as int] == options@[next as int]@);
            }
            return Some(options[next]);
        }
        i += 1;
    }
    None
}

/// Stepping on and stepping back as far leads to the same place.
pub proof fn stepping_back_undoes_stepping_on(index: int, delta: int, len: int)
    requires
        0 <= index < len,
    ensures
        ((index + delta) % len - delta) % len == index,
{
    vstd::arithmetic::div_mod::lemma_fundamental_div_mod(index + delta, len);
    let q = (index + delta) / len;
    assert((index + delta) % len - delta == len * (-q) + index) by (nonlinear_arith)
        requires
            index + delta == len * q + (index + delta) % len,
    ;
    vstd::arithmetic::div_mod::lemma_mod_multiples_vanish(-q, index, len);
    vstd::arithmetic::div_mod::lemma_small_mod(index as nat, len as nat);
}

/// A whole round leads to the same place.
proof fn lemma_round(index: int, delta: int, len: int)
    requires
        0 <= index < len,
    ensures
        (index + delta + len) % len == (index + delta) % len,
        0 <= (index + delta) % len < len,
{
    vstd::arithmetic::div_mod::lemma_mod_add_multiples_vanish(index + delta, len);
    vstd::arithmetic::div_mod::lemma_mod_bound(index + delta, len);
}

/// Among different values each is found at its own place, and what is not among them is not found.
proof fn lemma_option_place<T: PartialEq>(options: Seq<T>, current: T, from: int)
    requires
        0 <= from <= options.len(),
        options.no_duplicates(),
        forall|a: T, b: T| #[trigger] a.eq_spec(&b) <==> a == b,
    ensures
        match option_place(options, current, from) {
            Some(at) => from <= at < options.len() && options[at] == current,
            None => forall|k: int| from <= k < options.len() ==> options[k] != current,
        },
    decreases options.len() - from,
{
    if from < options.len() {
        lemma_option_place(options, current, from + 1);
        assert(options[from].eq_spec(&current) <==> options[from] == current);
    }
}

/// Among different values, exactly those that are there can be exchanged; the exchange goes `delta`
/// places on, going as far back brings the value back, and a whole round more changes nothing.
pub proof fn cycling_back_restores<T: PartialEq>(options: Seq<T>, current: T, delta: int)
    requires
        options.no_duplicates(),
        forall|a: T, b: T| #[trigger] a.eq_spec(&b) <==> a == b,
    ensures
        cycled(options, current, delta) is None <==> !options.contains(current),
        forall|i: int|
            0 <= i < options.len() && options[i] == current ==> cycled(options, current, delta)
                == Some(#[trigger] options[(i + delta) % (options.len() as int)]),
        cycled(options, current, delta) matches Some(next) ==> cycled(options, next, -delta)
            == Some(current),
        cycled(options, current, delta + options.len()) == cycled(options, current, delta),
{
    let len = options.len() as int;
    lemma_option_place(options, current, 0);
    if let Some(at) = option_place(options, current, 0) {
        lemma_round(at, delta, len);
        stepping_back_undoes_stepping_on(at, delta, len);
        lemma_option_place(options, options[(at + delta) % len], 0);
    }
}

/// Among different texts each is found at its own place, and what is not among them is not found.
proof fn lemma_text_place(options: Seq<Seq<char>>, current: Seq<char>, from: int)
    requires
        0 <= from <= options.len(),
    ensures
        match text_place(options, current, from) {
            Some(at) => from <= at < options.len() && options[at] == current,
            None => forall|k: int| from <= k < options.len() ==> options[k] != current,
        },
    decreases options.len() - from,
{
    if from < options.len() {
        lemma_text_place(options, current, from + 1);
    }
}

/// The same of texts: going back brings the text back, and a whole round more changes nothing.
pub proof fn cycling_texts_back_restores(
    options: Seq<Seq<char>>,
    current: Seq<char>,
    delta: int,
)
    requires
        options.no_duplicates(),
    ensures
        text_cycled(options, current, delta) is None <==> !options.contains(current),
        text_cycled(options, current, delta) matches Some(next) ==> text_cycled(
            options,
            next,
            -delta,
        ) == Some(current),
        text_cycled(options, current, delta + options.len()) == text_cycled(
            options,
            current,
            delta,
        ),
{
    let len = options.len() as int;
    lemma_text_place(options, current, 0);
    if let Some(at) = text_place(options, current, 0) {
        lemma_round(at, delta, len);
        stepping_back_undoes_stepping_on(at, delta, len);
        lemma_text_place(options, options[(at + delta) % len], 0);
    }
}

// ---------------------------------------------------------------------------
// Colours and covers
// ---------------------------------------------------------------------------
/// A set of colours.
#[derive(Debug, Clone, Copy, PartialEq, Eq, Structural)]
pub enum Theme {
    ColdBlue,
    Graphite,
    Sunset,
    Forest,
    Neon,
    DarkPurple,
}

/// The sets of colours, in the order in which they are offered.
pub const THEMES: [Theme; 6] = [
    Theme::ColdBlue,
    Theme::Graphite,
    Theme::Sunset,
    Theme::Forest,
    Theme::Neon,
    Theme::DarkPurple,
];

impl Theme {
    /// The place among all.
    pub open spec fn place(self) -> int {
        match self {
            Theme::ColdBlue => 0,
            Theme::Graphite => 1,
            Theme::Sunset => 2,
            Theme::Forest => 3,
            Theme::Neon => 4,
            Theme::DarkPurple => 5,
        }
    }

    /// The one so many places on, going round.
    pub open spec fn cycled(self, delta: int) -> Theme {
        THEMES@[(self.place() + delta) % 6]
    }

    /// The one so many places on, going round.
    pub fn cycle(self, delta: isize) -> (r: Theme)
        ensures
            r == self.cycled(delta as int),
    {
        let index: usize = match self {
            Theme::ColdBlue => 0,
            Theme::Graphite => 1,
            Theme::Sunset => 2,
            Theme::Forest => 3,
            Theme::Neon => 4,
            Theme::DarkPurple => 5,
        };
        let all = THEMES;
        all[go_round(index, delta, all.len())]
    }

    /// The name.
    pub open spec fn label_text(self) -> Seq<char> {
        match self {
            Theme::ColdBlue => "冷蓝"@,
            Theme::Graphite => "石墨"@,
            Theme::Sunset => "日落"@,
            Theme::Forest => "森林"@,
            Theme::Neon => "霓虹"@,
            Theme::DarkPurple => "暗紫"@,
        }
    }

    /// The name.
    pub fn label(self) -> (r: &'static str)
        ensures
            r@ == self.label_text(),
    {
        match self {
            Theme::ColdBlue => "冷蓝",
            Theme::Graphite => "石墨",
            Theme::Sunset => "日落",
            Theme::Forest => "森林",
            Theme::Neon => "霓虹",
            Theme::DarkPurple => "暗紫",
        }
    }
}

/// How a cover fills its place: two of filling it, keeping its shape and showing all of it.
#[derive(Debug, Clone, Copy, PartialEq, Eq, Structural)]
pub enum CoverFill {
    Crop,
    Stretch,
    Fit,
}

/// The ways to fill a place, in the order in which they are offered.
pub const COVER_FILLS: [CoverFill; 3] = [
    CoverFill::Crop,
    CoverFill::Stretch,
    CoverFill::Fit,
];

impl CoverFill {
    /// The place among all.
    pub open spec fn place(self) -> int {
        match self {
            CoverFill::Crop => 0,
            CoverFill::Stretch => 1,
            CoverFill::Fit => 2,
        }
    }

    /// The one so many places on, going round.
    pub open spec fn cycled(self, delta: int) -> CoverFill {
        COVER_FILLS@[(self.place() + delta) % 3]
    }

    /// The one so many places on, going round.
    pub fn cycle(self, delta: isize) -> (r: CoverFill)
        ensures
            r == self.cycled(delta as int),
    {
        let index: usize = match self {
            CoverFill::Crop => 0,
            CoverFill::Stretch => 1,
            CoverFill::Fit => 2,
        };
        let all = COVER_FILLS;
        all[go_round(index, delta, all.len())]
    }

    /// The name.
    pub open spec fn label_text(self) -> Seq<char> {
        match self {
            CoverFill::Crop => "裁剪铺满"@,
            CoverFill::Stretch => "拉伸铺满"@,
            CoverFill::Fit => "完整显示"@,
        }
    }

    /// The name.
    pub fn label(self) -> (r: &'static str)
        ensures
            r@ == self.label_text(),
    {
        match self {
            CoverFill::Crop => "裁剪铺满",
            CoverFill::Stretch => "拉伸铺满",
            CoverFill::Fit => "完整显示",
        }
    }
}

// ---------------------------------------------------------------------------
// Output devices
// ---------------------------------------------------------------------------
/// The devices to choose from: the one the system chooses, then those that were found.
pub fn device_options(devices: &[String]) -> (r: Vec<String>)
    ensures
        text::views(r@) == seq![DEFAULT_DEVICE_LABEL@] + text::views(devices@),
{
    let mut options: Vec<String> = Vec::new();
    options.push(DEFAULT_DEVICE_LABEL.to_owned());
    let mut i: usize = 0;
    proof {
        assert(text::views(options@) =~= seq![DEFAULT_DEVICE_LABEL@] + text::views(
            devices@,
        ).take(0));
    }
    while i < devices.len()
        invariant
            i <= devices@.len(),
            text::views(options@) == seq![DEFAULT_DEVICE_LABEL@] + text::views(devices@).take(
                i as int,
            ),
        decreases devices@.len() - i,
    {
        let ghost before = text::views(options@);
        options.push(devices[i].clone());
        proof {
            assert(text::views(options@) =~= before.push(devices@[i as int]@));
            assert(text::views(devices@).take(i + 1) =~= text::views(devices@).take(i as int).push(
                devices@[i as int]@,
            ));
        }
        i += 1;
    }
    proof {
        assert(text::views(devices@).take(devices@.len() as int) =~= text::views(devices@));
    }
    options
}

/// What choosing another device comes to: nothing where the present one is not among the options;
/// otherwise the new one, `None` standing for the one the system chooses.
pub open spec fn device_cycled(
    options: Seq<Seq<char>>,
    current: Option<Seq<char>>,
    delta: int,
) -> Option<Option<Seq<char>>> {
    let label = match current {
        Some(name) => name,
        None => DEFAULT_DEVICE_LABEL@,
    };
    match text_cycled(options, label, delta) {
        Some(picked) => Some(
            if picked == DEFAULT_DEVICE_LABEL@ {
                None
            } else {
                Some(picked)
            },
        ),
        None => None,
    }
}

/// Chooses the device `delta` places behind the present one, going round.
pub fn cycle_device(options: &[String], current: Option<&str>, delta: isize) -> (r: Option<
    Option<String>,
>)
    ensures
        r.deep_view() == device_cycled(text::views(options@), current.deep_view(), delta as int),
{
    let label = match current {
        Some(name) => name,
        None => DEFAULT_DEVICE_LABEL,
    };
    let ghost all = text::views(options@);
    let mut i: usize = 0;
    while i < options.len()
        invariant
            i <= options@.len(),
            all == text::views(options@),
            label@ == match current {
                Some(name) => name@,
                None => DEFAULT_DEVICE_LABEL@,
            },
            text_place(all, label@, 0) == text_place(all, label@, i as int),
        decreases options@.len() - i,
    {
        proof {
            assert(all[i as int] == options@[i as int]@);
        }
        if text::same(options[i].as_str(), label) {
            let next: usize = go_round(i, delta, options.len());
            proof {
                assert(all[next as int] == options@[next as int]@);
            }
            if text::same(options[next].as_str(), DEFAULT_DEVICE_LABEL) {
                return Some(None);
            }
            return Some(Some(options[next].clone()));
        }
        i += 1;
    }
    None
}

/// The name of a device as it is shown: cut behind the seventeenth character where it has more than
/// eighteen.
pub open spec fn shown_device(name: Seq<char>) -> Seq<char> {
    if name.len() <= MAX_DEVICE_LABEL_CHARS {
        name
    } else {
        name.take(MAX_DEVICE_LABEL_CHARS - 1) + "…"@
    }
}

/// Cuts the name of a device down to what is shown.
pub fn trim_device_label(name: &str) -> (r: String)
    ensures
        r@ == shown_device(name@),
{
    let chars = text::to_chars(name);
    if chars.len() <= MAX_DEVICE_LABEL_CHARS {
        return name.to_owned();
    }
    let mut out = text::from_chars(&chars.as_slice()[0..MAX_DEVICE_LABEL_CHARS - 1]);
    proof {
        assert(out@ =~= name@.take(MAX_DEVICE_LABEL_CHARS - 1));
    }
    out.append("…");
    out
}

/// The name of a device never takes more room than it has.
pub proof fn shown_devices_are_short(name: Seq<char>)
    ensures
        shown_device(name).len() <= MAX_DEVICE_LABEL_CHARS,
{
    reveal_strlit("…");
}

// ---------------------------------------------------------------------------
// How values are shown
// ---------------------------------------------------------------------------
/// The name of a quality.
pub open spec fn quality_name(quality: Seq<char>) -> Seq<char> {
    if quality == "128"@ {
        "标准 128kbps"@
    } else if quality == "320"@ {
        "较高 320kbps"@
    } else if quality == "flac"@ {
        "无损 FLAC"@
    } else if quality == "high"@ {
        "高品"@
    } else if quality == "super"@ {
        "超高"@
    } else if quality == "viper_clear"@ {
        "蝰蛇母带"@
    } else if quality == "viper_atmos"@ {
        "蝰蛇全景声"@
    } else if quality == "viper_tape"@ {
        "蝰蛇磁带"@
    } else {
        quality
    }
}

/// The name of a quality; a quality that is not known keeps its own.
pub fn quality_label(quality: &str) -> (r: String)
    ensures
        r@ == quality_name(quality@),
{
    if text::same(quality, "128") {
        "标准 128kbps".to_owned()
    } else if text::same(quality, "320") {
        "较高 320kbps".to_owned()
    } else if text::same(quality, "flac") {
        "无损 FLAC".to_owned()
    } else if text::same(quality, "high") {
        "高品".to_owned()
    } else if text::same(quality, "super") {
        "超高".to_owned()
    } else if text::same(quality, "viper_clear") {
        "蝰蛇母带".to_owned()
    } else if text::same(quality, "viper_atmos") {
        "蝰蛇全景声".to_owned()
    } else if text::same(quality, "viper_tape") {
        "蝰蛇磁带".to_owned()
    } else {
        quality.to_owned()
    }
}

/// What the settings are set to.
#[derive(Debug)]
pub struct SettingValues {
    /// The name of the theme.
    pub theme: String,
    pub quality: String,
    pub playback_mode: PlaybackMode,
    pub tick_ms: u64,
    pub lyric_offset_ms: i64,
    pub page_size: u32,
    pub cache_limit_mib: u64,
    pub basic_color: bool,
    pub lyric_panel: bool,
    pub sidebar: bool,
    pub lite_mode: bool,
    pub download_dir: Option<String>,
    /// The home directory, if it is known.
    pub home: Option<String>,
    /// The name of the way in which covers fill their place.
    pub cover_fill: String,
    /// The device that is open; empty where none is.
    pub output_device: String,
    /// The words for on and off.
    pub on: String,
    pub off: String,
}

/// A number with its sign, plus for what is not negative.
pub open spec fn with_sign(n: int) -> Seq<char> {
    if n < 0 {
        text::signed_decimal(n)
    } else {
        "+"@ + text::signed_decimal(n)
    }
}

/// The larger of a number and 1.
pub open spec fn at_least_one(n: u64) -> int {
    if n == 0 {
        1
    } else {
        n as int
    }
}

/// How the value of a setting is shown.
pub open spec fn shown_value(setting: Setting, values: SettingValues) -> Seq<char> {
    match setting {
        Setting::Theme => values.theme@,
        Setting::Quality => quality_name(values.quality@),
        Setting::PlaybackMode => values.playback_mode.label_text(),
        Setting::RefreshMs => text::decimal(values.tick_ms as nat) + "ms（"@ + text::decimal(
            (1000int / at_least_one(values.tick_ms)) as nat,
        ) + " fps）"@,
        Setting::LyricOffsetMs => with_sign(values.lyric_offset_ms as int) + "ms"@,
        Setting::PageSize => text::decimal(values.page_size as nat) + " 条"@,
        Setting::CacheLimitMib => if values.cache_limit_mib == 0 {
            "不限"@
        } else {
            text::decimal(values.cache_limit_mib as nat) + " MiB"@
        },
        Setting::BasicColor => on_or_off(values, values.basic_color),
        Setting::LyricPanel => on_or_off(values, values.lyric_panel),
        Setting::Sidebar => on_or_off(values, values.sidebar),
        Setting::LiteMode => on_or_off(values, values.lite_mode),
        Setting::DownloadDir => expanded_dir(
            values.download_dir.deep_view(),
            values.home.deep_view(),
        ),
        Setting::CoverFill => values.cover_fill@,
        Setting::AudioDevice => if values.output_device@.len() == 0 {
            "未打开"@
        } else {
            shown_device(values.output_device@)
        },
    }
}

/// The word for on or off.
pub open spec fn on_or_off(values: SettingValues, flag: bool) -> Seq<char> {
    if flag {
        values.on@
    } else {
        values.off@
    }
}

/// The word for on or off.
fn toggle_text(values: &SettingValues, flag: bool) -> (r: String)
    ensures
        r@ == on_or_off(*values, flag),
{
    if flag {
        values.on.clone()
    } else {
        values.off.clone()
    }
}

/// Shows the value of a setting.
pub fn value_text(setting: Setting, values: &SettingValues) -> (r: String)
    ensures
        r@ == shown_value(setting, *values),
{
    match setting {
        Setting::Theme => values.theme.clone(),
        Setting::Quality => quality_label(values.quality.as_str()),
        Setting::PlaybackMode => values.playback_mode.label().to_owned(),
        Setting::RefreshMs => {
            let divisor: u64 = if values.tick_ms == 0 {
                1
            } else {
                values.tick_ms
            };
            let mut out = text::write_u64(values.tick_ms);
            out.append("ms（");
            out.append(text::write_u64(1000 / divisor).as_str());
            out.append(" fps）");
            out
        },
        Setting::LyricOffsetMs => {
            let number = text::write_i64(values.lyric_offset_ms);
            let mut out = if values.lyric_offset_ms < 0 {
                number
            } else {
                text::join2("+", number.as_str())
            };
            out.append("ms");
            out
        },
        Setting::PageSize => text::join2(text::write_u64(values.page_size as u64).as_str(), " 条"),
        Setting::CacheLimitMib => if values.cache_limit_mib == 0 {
            "不限".to_owned()
        } else {
            text::join2(text::write_u64(values.cache_limit_mib).as_str(), " MiB")
        },
        Setting::BasicColor => toggle_text(values, values.basic_color),
        Setting::LyricPanel => toggle_text(values, values.lyric_panel),
        Setting::Sidebar => toggle_text(values, values.sidebar),
        Setting::LiteMode => toggle_text(values, values.lite_mode),
        Setting::DownloadDir => {
            let dir = match &values.download_dir {
                Some(dir) => Some(dir.as_str()),
                None => None,
            };
            let home = match &values.home {
                Some(home) => Some(home.as_str()),
                None => None,
            };
            expand_download_dir(dir, home)
        },
        Setting::CoverFill => values.cover_fill.clone(),
        Setting::AudioDevice => if values.output_device.as_str().is_empty() {
            "未打开".to_owned()
        } else {
            trim_device_label(values.output_device.as_str())
        },
    }
}

/// Shows the values of all settings, in the order of [`Setting::ALL`].
pub fn values(all: &SettingValues) -> (r: Vec<String>)
    ensures
        r@.len() == Setting::ALL@.len(),
        forall|i: int|
            0 <= i < r@.len() ==> (#[trigger] r@[i])@ == shown_value(Setting::ALL@[i], *all),
{
    let settings = Setting::ALL;
    let mut out: Vec<String> = Vec::new();
    let mut i: usize = 0;
    while i < settings.len()
        invariant
            i <= settings@.len(),
            settings@ == Setting::ALL@,
            out@.len() == i,
            forall|k: int|
                0 <= k < i ==> (#[trigger] out@[k])@ == shown_value(Setting::ALL@[k], *all),
        decreases settings@.len() - i,
    {
        out.push(value_text(settings[i], all));
        i += 1;
    }
    out
}

// ---------------------------------------------------------------------------
// Directories and file names
// ---------------------------------------------------------------------------
/// A directory with the home directory put in place of `~` in front; `~/Music` where none is set.
pub open spec fn expanded_dir(value: Option<Seq<char>>, home: Option<Seq<char>>) -> Seq<char> {
    let raw = match value {
        Some(dir) => dir,
        None => "~/Music"@,
    };
    if text::begins(raw, "~/"@) && home is Some {
        home->0 + "/"@ + raw.skip(2)
    } else {
        raw
    }
}

/// Puts the home directory in place of `~` in front of a directory.
pub fn expand_download_dir(value: Option<&str>, home: Option<&str>) -> (r: String)
    ensures
        r@ == expanded_dir(value.deep_view(), home.deep_view()),
{
    let raw = match value {
        Some(dir) => dir,
        None => "~/Music",
    };
    if text::starts_with(raw, "~/") {
        if let Some(home) = home {
            proof {
                reveal_strlit("~/");
            }
            let chars = text::to_chars(raw);
            let length: usize = chars.len();
            let rest = text::from_chars(&chars.as_slice()[2..length]);
            proof {
                assert(rest@ =~= raw@.skip(2));
            }
            return text::join3(home, "/", rest.as_str());
        }
    }
    raw.to_owned()
}

/// What stands for a character in the name of a file.
pub open spec fn file_char(c: char) -> char {
    if c == '/' || c == '\\' || c == ':' || c == '*' || c == '?' || c == '"' || c == '<' || c == '>'
        || c == '|' || c <= '\u{1f}' {
        '_'
    } else {
        c
    }
}

/// Makes the name of a file of a text: what no file system takes becomes an underscore.
pub fn sanitize_filename(label: &str) -> (r: String)
    ensures
        r@ == label@.map_values(|c: char| file_char(c)),
{
    let chars = text::to_chars(label);
    let ghost wanted = label@.map_values(|c: char| file_char(c));
    let mut out = String::new();
    let mut i: usize = 0;
    while i < chars.len()
        invariant
            i <= chars@.len(),
            wanted == chars@.map_values(|c: char| file_char(c)),
            out@ == wanted.take(i as int),
        decreases chars@.len() - i,
    {
        let c = chars[i];
        let safe = if c == '/' || c == '\\' || c == ':' || c == '*' || c == '?' || c == '"' || c
            == '<' || c == '>' || c == '|' || c <= '\u{1f}' {
            '_'
        } else {
            c
        };
        out.push(safe);
        proof {
            assert(out@ =~= wanted.take(i + 1));
        }
        i += 1;
    }
    proof {
        assert(wanted.take(wanted.len() as int) =~= wanted);
    }
    out
}

/// The name of a file never leads into another directory, and making it once more changes nothing.
pub proof fn file_names_are_safe(label: Seq<char>)
    ensures
        forall|i: int|
            0 <= i < label.len() ==> file_char(#[trigger] label[i]) != '/' && file_char(label[i])
                != '\\' && file_char(label[i]) >= '\u{20}' && file_char(file_char(label[i]))
                == file_char(label[i]),
{
}

} // verus!
