//! The settings that the player runs with.
//!
//! Address, login and device print of the service in use stand at the top; the same of every service
//! is kept in its profile, and changing the service exchanges them.
use vstd::prelude::*;
use crate::model::{self, Song, SongModel};
use crate::queue::PlaybackMode;
use crate::settings::{CoverFill, Theme};
use crate::source::{self, ProfileModel, SourceKind, SourceSet, SourcesModel};
use crate::text;

verus! {

/// The settings.
#[derive(Debug)]
pub struct Config {
    /// The address of the server in use.
    pub api_base: String,
    /// The login at it.
    pub cookie: Option<String>,
    /// The device print for it.
    pub dfid: Option<String>,
    pub proxy: Option<String>,
    pub quality: String,
    pub playback_mode: PlaybackMode,
    /// How often the screen is drawn, in milliseconds.
    pub tick_ms: u64,
    pub page_size: u32,
    pub cache_dir: String,
    /// How much is kept, in MiB; 0 for no limit.
    pub cache_limit_mib: u64,
    /// How much the lyric comes before the song, in milliseconds.
    pub lyric_offset_ms: i64,
    pub basic_color: bool,
    pub theme: Theme,
    /// Neither covers nor the spectrum are drawn.
    pub lite_mode: bool,
    /// Where songs are saved.
    pub download_dir: Option<String>,
    pub cover_fill: CoverFill,
    /// The device that the sound comes out of; `None` for the one the system chooses.
    pub audio_device: Option<String>,
    pub sources: SourceSet,
}

pub struct ConfigModel {
    pub api_base: Seq<char>,
    pub cookie: Option<Seq<char>>,
    pub dfid: Option<Seq<char>>,
    pub proxy: Option<Seq<char>>,
    pub quality: Seq<char>,
    pub playback_mode: PlaybackMode,
    pub tick_ms: u64,
    pub page_size: u32,
    pub cache_dir: Seq<char>,
    pub cache_limit_mib: u64,
    pub lyric_offset_ms: i64,
    pub basic_color: bool,
    pub theme: Theme,
    pub lite_mode: bool,
    pub download_dir: Option<Seq<char>>,
    pub cover_fill: CoverFill,
    pub audio_device: Option<Seq<char>>,
    pub sources: SourcesModel,
}

impl DeepView for Config {
    type V = ConfigModel;

    open spec fn deep_view(&self) -> ConfigModel {
        ConfigModel {
            api_base: self.api_base@,
            cookie: self.cookie.deep_view(),
            dfid: self.dfid.deep_view(),
            proxy: self.proxy.deep_view(),
            quality: self.quality@,
            playback_mode: self.playback_mode,
            tick_ms: self.tick_ms,
            page_size: self.page_size,
            cache_dir: self.cache_dir@,
            cache_limit_mib: self.cache_limit_mib,
            lyric_offset_ms: self.lyric_offset_ms,
            basic_color: self.basic_color,
            theme: self.theme,
            lite_mode: self.lite_mode,
            download_dir: self.download_dir.deep_view(),
            cover_fill: self.cover_fill,
            audio_device: self.audio_device.deep_view(),
            sources: self.sources.deep_view(),
        }
    }
}

/// How often the screen is drawn unless the user says otherwise.
pub const DEFAULT_TICK_MS: u64 = 200;

/// How much is kept unless the user says otherwise, in MiB.
pub const DEFAULT_CACHE_LIMIT_MIB: u64 = 512;

impl Default for Config {
    fn default() -> (r: Self)
        ensures
            r.deep_view().api_base == SourceKind::Kugou.default_base(),
            r.deep_view().cookie is None,
            r.deep_view().dfid is None,
            r.deep_view().proxy is None,
            r.deep_view().quality == "128"@,
            r.deep_view().playback_mode == PlaybackMode::Sequential,
            r.deep_view().tick_ms == DEFAULT_TICK_MS,
            r.deep_view().page_size == 30,
            r.deep_view().cache_dir.len() == 0,
            r.deep_view().cache_limit_mib == DEFAULT_CACHE_LIMIT_MIB,
            r.deep_view().lyric_offset_ms == 0,
            !r.deep_view().basic_color,
            r.deep_view().theme == Theme::ColdBlue,
            !r.deep_view().lite_mode,
            r.deep_view().download_dir is None,
            r.deep_view().cover_fill == CoverFill::Crop,
            r.deep_view().audio_device is None,
            r.sources.active == SourceKind::Kugou,
            forall|kind: SourceKind| #[trigger]
                r.sources.profile_of(kind).api_base@ == kind.default_base() && r.sources.profile_of(
                    kind,
                ).cookie is None && r.sources.profile_of(kind).device_id is None,
    {
        Config {
            api_base: SourceKind::Kugou.default_api_base().to_owned(),
            cookie: None,
            dfid: None,
            proxy: None,
            quality: "128".to_owned(),
            playback_mode: PlaybackMode::Sequential,
            tick_ms: DEFAULT_TICK_MS,
            page_size: 30,
            cache_dir: String::new(),
            cache_limit_mib: DEFAULT_CACHE_LIMIT_MIB,
            lyric_offset_ms: 0,
            basic_color: false,
            theme: Theme::ColdBlue,
            lite_mode: false,
            download_dir: None,
            cover_fill: CoverFill::Crop,
            audio_device: None,
            sources: SourceSet::default(),
        }
    }
}

impl ConfigModel {
    /// Whether there is a login at the service in use.
    pub open spec fn logged_in(self) -> bool {
        self.cookie is Some && text::trimmed(self.cookie->0).len() > 0
    }

    /// The settings with the login and the device print of the service in use kept in its profile.
    pub open spec fn kept(self) -> ConfigModel {
        let kind = self.sources.active;
        ConfigModel {
            sources: self.sources.with(
                kind,
                ProfileModel {
                    cookie: self.cookie,
                    device_id: self.dfid,
                    ..self.sources.profile(kind)
                },
            ),
            ..self
        }
    }

    /// The settings with another service in use.
    pub open spec fn using(self, kind: SourceKind) -> ConfigModel {
        let profile = self.sources.profile(kind);
        ConfigModel {
            api_base: profile.api_base,
            cookie: profile.cookie,
            dfid: profile.device_id,
            sources: SourcesModel { active: kind, ..self.sources },
            ..self
        }
    }
}

impl Config {
    /// Whether there is a login at the service in use.
    pub fn is_logged_in(&self) -> (r: bool)
        ensures
            r == self.deep_view().logged_in(),
    {
        match &self.cookie {
            Some(cookie) => !text::is_blank(cookie.as_str()),
            None => false,
        }
    }

    /// The text to send as cookie: the login, with the device print.
    pub fn cookie_header(&self) -> (r: Option<String>)
        ensures
            r.deep_view() == source::cookie_text(self.deep_view().cookie, self.deep_view().dfid),
    {
        source::cookie_header(&self.cookie, &self.dfid)
    }

    /// The service in use.
    pub fn active_source_kind(&self) -> (r: SourceKind)
        ensures
            r == self.deep_view().sources.active,
    {
        self.sources.active
    }

    /// Keeps login and device print in the profile of the service in use. Its address stays: one
    /// that was given for this run only is not kept.
    pub fn sync_active_source(&mut self)
        ensures
            final(self).deep_view() == old(self).deep_view().kept(),
    {
        let cookie = model::copy_text(&self.cookie);
        let dfid = model::copy_text(&self.dfid);
        let kind = self.sources.active;
        let profile = self.sources.profile_mut(kind);
        profile.cookie = cookie;
        profile.device_id = dfid;
    }

    /// Changes the service in use.
    pub fn switch_source(&mut self, kind: SourceKind)
        ensures
            final(self).deep_view() == old(self).deep_view().using(kind),
    {
        self.sources.active = kind;
        let profile = self.sources.profile(kind);
        self.api_base = profile.api_base.clone();
        self.cookie = model::copy_text(&profile.cookie);
        self.dfid = model::copy_text(&profile.device_id);
    }
}

/// Where a service answers, and under whose name it is asked.
#[derive(Debug)]
pub struct Service {
    pub kind: SourceKind,
    pub api_base: String,
    /// The text to send as cookie.
    pub cookie: Option<String>,
}

pub struct ServiceModel {
    pub kind: SourceKind,
    pub api_base: Seq<char>,
    pub cookie: Option<Seq<char>>,
}

impl DeepView for Service {
    type V = ServiceModel;

    open spec fn deep_view(&self) -> ServiceModel {
        ServiceModel {
            kind: self.kind,
            api_base: self.api_base@,
            cookie: self.cookie.deep_view(),
        }
    }
}

impl ConfigModel {
    /// The service of the given kind: the one in use as it is used, any other as its profile has it.
    pub open spec fn service(self, kind: SourceKind) -> ServiceModel {
        let profile = self.sources.profile(kind);
        if kind == self.sources.active {
            ServiceModel {
                kind,
                api_base: self.api_base,
                cookie: source::cookie_text(self.cookie, self.dfid),
            }
        } else {
            ServiceModel {
                kind,
                api_base: profile.api_base,
                cookie: source::cookie_text(profile.cookie, profile.device_id),
            }
        }
    }
}

impl Config {
    /// The service that a song is asked for at: the one it comes from, whichever is in use.
    pub fn service_for(&self, song: &Song) -> (r: Service)
        ensures
            r.deep_view() == self.deep_view().service(song.deep_view().source),
    {
        let kind = song.source;
        if kind == self.sources.active {
            Service { kind, api_base: self.api_base.clone(), cookie: self.cookie_header() }
        } else {
            let profile = self.sources.profile(kind);
            Service { kind, api_base: profile.api_base.clone(), cookie: profile.cookie_header() }
        }
    }
}

/// A song is asked for at its own service, with the login there: changing the service in use in
/// between changes nothing of that.
pub proof fn songs_are_asked_for_at_home(config: ConfigModel, song: SongModel, other: SourceKind)
    requires
        config.api_base == config.sources.profile(config.sources.active).api_base,
    ensures
        config.service(song.source).kind == song.source,
        config.kept().using(other).service(song.source) == config.service(song.source),
{
}

/// Leaving a service and coming back to it brings back its login and its device print.
pub proof fn logins_are_kept(config: ConfigModel, other: SourceKind)
    ensures
        config.kept().using(other).kept().using(config.sources.active).cookie == config.cookie,
        config.kept().using(other).kept().using(config.sources.active).dfid == config.dfid,
{
}

// ---------------------------------------------------------------------------
// What the user is shown of the settings
// ---------------------------------------------------------------------------
/// What is not a setting but shown with them.
#[derive(Debug)]
pub struct Surroundings {
    pub version: String,
    pub config_path: String,
    pub log_path: String,
    /// The volume in words.
    pub volume: String,
}

/// A text, or a word where there is none.
pub open spec fn or_word(value: Option<Seq<char>>, word: Seq<char>) -> Seq<char> {
    match value {
        Some(text) => text,
        None => word,
    }
}

/// The note on what the server of a service has to be started with.
pub open spec fn platform_note(kind: SourceKind) -> Seq<char> {
    if kind == SourceKind::KugouConcept {
        "（服务端需 platform="@ + "lite"@ + "）"@
    } else {
        "（服务端不设 platform）"@
    }
}

impl ConfigModel {
    /// How much is kept, in words.
    pub open spec fn limit_words(self) -> Seq<char> {
        if self.cache_limit_mib == 0 {
            "不限"@
        } else {
            text::decimal(self.cache_limit_mib as nat) + " MiB"@
        }
    }

    /// The settings line by line.
    pub open spec fn lines(self, around: Surroundings) -> Seq<Seq<char>> {
        seq![
            "kugou-tui "@ + around.version@,
            "配置文件  : "@ + around.config_path@,
            "日志文件  : "@ + around.log_path@,
            "API 地址  : "@ + self.api_base,
            "当前音源  : "@ + self.sources.active.label_text() + platform_note(self.sources.active),
            "登录状态  : "@ + (if self.logged_in() {
                "已登录"@
            } else {
                "未登录（云端歌单不可用）"@
            }),
            "设备指纹  : "@ + or_word(self.dfid, "（尚未获取）"@),
            "音质      : "@ + self.quality,
            "音量      : "@ + around.volume@,
            "播放模式  : "@ + self.playback_mode.label_text(),
            "缓存目录  : "@ + self.cache_dir,
            "缓存上限  : "@ + self.limit_words(),
            "刷新间隔  : "@ + text::decimal(self.tick_ms as nat) + " ms"@,
            "每页条目  : "@ + text::decimal(self.page_size as nat),
            "代理      : "@ + or_word(self.proxy, "（未设置）"@),
            "16 色模式 : "@ + (if self.basic_color {
                "是"@
            } else {
                "否"@
            }),
        ]
    }
}

/// A text, or a word where there is none.
fn text_or_word<'a>(value: &'a Option<String>, word: &'a str) -> (r: &'a str)
    ensures
        r@ == or_word(value.deep_view(), word@),
{
    match value {
        Some(text) => text.as_str(),
        None => word,
    }
}

impl Config {
    /// How much is kept, in words.
    fn limit_text(&self) -> (r: String)
        ensures
            r@ == self.deep_view().limit_words(),
    {
        if self.cache_limit_mib == 0 {
            "不限".to_owned()
        } else {
            text::join2(text::write_u64(self.cache_limit_mib).as_str(), " MiB")
        }
    }

    /// The service in use, with the note on its server.
    fn source_text(&self) -> (r: String)
        ensures
            r@ == "当前音源  : "@ + self.deep_view().sources.active.label_text() + platform_note(
                self.deep_view().sources.active,
            ),
    {
        let kind = self.active_source_kind();
        let note = match kind.platform_env() {
            Some(value) => text::join3("（服务端需 platform=", value, "）"),
            None => "（服务端不设 platform）".to_owned(),
        };
        text::join3("当前音源  : ", kind.label(), note.as_str())
    }

    /// The settings line by line, for whoever wants to know which ones are in force.
    pub fn report(&self, around: &Surroundings) -> (r: Vec<String>)
        ensures
            text::views(r@) == self.deep_view().lines(*around),
    {
        let login = if self.is_logged_in() {
            "已登录"
        } else {
            "未登录（云端歌单不可用）"
        };
        let colours = if self.basic_color {
            "是"
        } else {
            "否"
        };
        let r = vec![
            text::join2("kugou-tui ", around.version.as_str()),
            text::join2("配置文件  : ", around.config_path.as_str()),
            text::join2("日志文件  : ", around.log_path.as_str()),
            text::join2("API 地址  : ", self.api_base.as_str()),
            self.source_text(),
            text::join2("登录状态  : ", login),
            text::join2("设备指纹  : ", text_or_word(&self.dfid, "（尚未获取）")),
            text::join2("音质      : ", self.quality.as_str()),
            text::join2("音量      : ", around.volume.as_str()),
            text::join2("播放模式  : ", self.playback_mode.label()),
            text::join2("缓存目录  : ", self.cache_dir.as_str()),
            text::join2("缓存上限  : ", self.limit_text().as_str()),
            text::join3("刷新间隔  : ", text::write_u64(self.tick_ms).as_str(), " ms"),
            text::join2("每页条目  : ", text::write_u64(self.page_size as u64).as_str()),
            text::join2("代理      : ", text_or_word(&self.proxy, "（未设置）")),
            text::join2("16 色模式 : ", colours),
        ];
        proof {
            assert(text::views(r@) =~= self.deep_view().lines(*around));
        }
        r
    }
}

} // verus!
