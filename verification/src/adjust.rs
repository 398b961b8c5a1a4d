//! Changing the settings: on their page, and by the keys that change one of them.
use vstd::prelude::*;
use crate::config::{Config, ConfigModel};
use crate::model;
use crate::order::{Order, OrderModel};
use crate::panes::{self, SUPPORTED_QUALITIES};
use crate::queue::QueueModel;
use crate::settings::{
    self, Setting, SettingValues, CACHE_LIMIT_OPTIONS, DOWNLOAD_DIR_OPTIONS, LYRIC_OFFSET_LIMIT,
    LYRIC_OFFSET_STEP, PAGE_SIZE_OPTIONS, REFRESH_MS_OPTIONS,
};
use crate::state::{
    config_model, pages_model, player_model, screen_model, AppState, PlayerModel, ScreenModel,
};
use crate::tab::StatusLevel;
use crate::text;
use crate::update::{App, AppModel};

verus! {

/// A step on, or back.
pub open spec fn step(forward: bool) -> int {
    if forward {
        1
    } else {
        -1
    }
}

/// A step on, or back.
fn one_step(forward: bool) -> (r: isize)
    ensures
        r == step(forward),
{
    if forward {
        1
    } else {
        -1
    }
}

/// The new value, or the old one where there is none.
pub open spec fn or_same<T>(found: Option<T>, old: T) -> T {
    match found {
        Some(new) => new,
        None => old,
    }
}

/// The directories that songs can be saved in.
pub open spec fn directory_texts() -> Seq<Seq<char>> {
    DOWNLOAD_DIR_OPTIONS@.map_values(|dir: &'static str| dir@)
}

impl ConfigModel {
    /// The settings with one of them a step on or back. A value that is none of those that are
    /// offered stays.
    pub open spec fn turned(self, setting: Setting, forward: bool) -> ConfigModel {
        let by = step(forward);
        match setting {
            Setting::Theme => ConfigModel { theme: self.theme.cycled(by), ..self },
            Setting::Quality => ConfigModel {
                quality: or_same(
                    settings::text_cycled(panes::quality_texts(), self.quality, by),
                    self.quality,
                ),
                ..self
            },
            Setting::PlaybackMode => ConfigModel {
                playback_mode: if forward {
                    self.playback_mode.following()
                } else {
                    self.playback_mode.following().following().following()
                },
                ..self
            },
            Setting::RefreshMs => ConfigModel {
                tick_ms: or_same(
                    settings::cycled(REFRESH_MS_OPTIONS@, self.tick_ms, by),
                    self.tick_ms,
                ),
                ..self
            },
            Setting::LyricOffsetMs => ConfigModel {
                lyric_offset_ms: panes::within(
                    self.lyric_offset_ms + by * LYRIC_OFFSET_STEP,
                    -LYRIC_OFFSET_LIMIT,
                    LYRIC_OFFSET_LIMIT as int,
                ) as i64,
                ..self
            },
            Setting::PageSize => ConfigModel {
                page_size: or_same(
                    settings::cycled(PAGE_SIZE_OPTIONS@, self.page_size, by),
                    self.page_size,
                ),
                ..self
            },
            Setting::CacheLimitMib => ConfigModel {
                cache_limit_mib: or_same(
                    settings::cycled(CACHE_LIMIT_OPTIONS@, self.cache_limit_mib, by),
                    self.cache_limit_mib,
                ),
                ..self
            },
            Setting::BasicColor => ConfigModel { basic_color: !self.basic_color, ..self },
            Setting::LiteMode => ConfigModel { lite_mode: !self.lite_mode, ..self },
            Setting::DownloadDir => ConfigModel {
                download_dir: match settings::text_cycled(
                    directory_texts(),
                    or_same(self.download_dir, "~/Music"@),
                    by,
                ) {
                    Some(dir) => Some(dir),
                    None => self.download_dir,
                },
                ..self
            },
            Setting::CoverFill => ConfigModel { cover_fill: self.cover_fill.cycled(by), ..self },
            Setting::LyricPanel | Setting::Sidebar | Setting::AudioDevice => self,
        }
    }
}

impl Config {
    /// The quality a step on or back.
    fn turn_quality(&mut self, forward: bool)
        ensures
            final(self).deep_view() == old(self).deep_view().turned(Setting::Quality, forward),
    {
        let all = SUPPORTED_QUALITIES;
        let options = all.as_slice();
        proof {
            assert(options.deep_view() =~= panes::quality_texts());
        }
        if let Some(next) = settings::cycle_str(options, self.quality.as_str(), one_step(forward)) {
            self.quality = next.to_owned();
        }
    }

    /// The directory for songs a step on or back.
    fn turn_directory(&mut self, forward: bool)
        ensures
            final(self).deep_view() == old(self).deep_view().turned(Setting::DownloadDir, forward),
    {
        let all = DOWNLOAD_DIR_OPTIONS;
        let options = all.as_slice();
        proof {
            assert(options.deep_view() =~= directory_texts());
        }
        let current = match &self.download_dir {
            Some(dir) => dir.as_str(),
            None => "~/Music",
        };
        if let Some(next) = settings::cycle_str(options, current, one_step(forward)) {
            self.download_dir = Some(next.to_owned());
        }
    }

    /// The offset of the lyric a step on or back.
    fn turn_offset(&mut self, forward: bool)
        ensures
            final(self).deep_view() == old(self).deep_view().turned(
                Setting::LyricOffsetMs,
                forward,
            ),
    {
        let wanted: i128 = if forward {
            self.lyric_offset_ms as i128 + LYRIC_OFFSET_STEP as i128
        } else {
            self.lyric_offset_ms as i128 - LYRIC_OFFSET_STEP as i128
        };
        self.lyric_offset_ms = if wanted > LYRIC_OFFSET_LIMIT as i128 {
            LYRIC_OFFSET_LIMIT
        } else if wanted < -LYRIC_OFFSET_LIMIT as i128 {
            -LYRIC_OFFSET_LIMIT
        } else {
            wanted as i64
        };
    }

    /// One of the settings a step on or back.
    pub fn turn(&mut self, setting: Setting, forward: bool)
        ensures
            final(self).deep_view() == old(self).deep_view().turned(setting, forward),
    {
        let by: isize = one_step(forward);
        match setting {
            Setting::Theme => {
                self.theme = self.theme.cycle(by);
            },
            Setting::Quality => self.turn_quality(forward),
            Setting::PlaybackMode => {
                self.playback_mode = if forward {
                    self.playback_mode.next()
                } else {
                    self.playback_mode.next().next().next()
                };
            },
            Setting::RefreshMs => {
                let all = REFRESH_MS_OPTIONS;
                if let Some(next) = settings::cycle(all.as_slice(), self.tick_ms, by) {
                    self.tick_ms = next;
                }
            },
            Setting::LyricOffsetMs => self.turn_offset(forward),
            Setting::PageSize => {
                let all = PAGE_SIZE_OPTIONS;
                if let Some(next) = settings::cycle(all.as_slice(), self.page_size, by) {
                    self.page_size = next;
                }
            },
            Setting::CacheLimitMib => {
                let all = CACHE_LIMIT_OPTIONS;
                if let Some(next) = settings::cycle(all.as_slice(), self.cache_limit_mib, by) {
                    self.cache_limit_mib = next;
                }
            },
            Setting::BasicColor => {
                self.basic_color = !self.basic_color;
            },
            Setting::LiteMode => {
                self.lite_mode = !self.lite_mode;
            },
            Setting::DownloadDir => self.turn_directory(forward),
            Setting::CoverFill => {
                self.cover_fill = self.cover_fill.cycle(by);
            },
            Setting::LyricPanel | Setting::Sidebar | Setting::AudioDevice => {},
        }
    }
}

impl AppState {
    /// What the settings are set to, for showing them: with the home directory, the device that is
    /// open and the words for on and off.
    pub fn setting_values(
        &self,
        home: Option<String>,
        output_device: String,
        on: String,
        off: String,
    ) -> (r: SettingValues)
        ensures
            r.theme@ == self.config.theme.label_text(),
            r.quality == self.config.quality,
            r.playback_mode == self.config.playback_mode,
            r.tick_ms == self.config.tick_ms,
            r.lyric_offset_ms == self.config.lyric_offset_ms,
            r.page_size == self.config.page_size,
            r.cache_limit_mib == self.config.cache_limit_mib,
            r.basic_color == self.config.basic_color,
            r.lyric_panel == self.screen.show_lyric_panel,
            r.sidebar == self.screen.sidebar_visible,
            r.lite_mode == self.config.lite_mode,
            r.download_dir == self.config.download_dir,
            r.home == home,
            r.cover_fill@ == self.config.cover_fill.label_text(),
            r.output_device == output_device,
            r.on == on,
            r.off == off,
    {
        SettingValues {
            theme: self.config.theme.label().to_owned(),
            quality: self.config.quality.clone(),
            playback_mode: self.config.playback_mode,
            tick_ms: self.config.tick_ms,
            lyric_offset_ms: self.config.lyric_offset_ms,
            page_size: self.config.page_size,
            cache_limit_mib: self.config.cache_limit_mib,
            basic_color: self.config.basic_color,
            lyric_panel: self.screen.show_lyric_panel,
            sidebar: self.screen.sidebar_visible,
            lite_mode: self.config.lite_mode,
            download_dir: model::copy_text(&self.config.download_dir),
            home,
            cover_fill: self.config.cover_fill.label().to_owned(),
            output_device,
            on,
            off,
        }
    }
}

// ---------------------------------------------------------------------------
// What is decided
// ---------------------------------------------------------------------------
impl AppModel {
    /// A setting is a step on or back: those of the screen and of the queue where they are in force.
    /// Which devices there are has to be asked first.
    #[verifier::opaque]
    pub open spec fn set(self, setting: Setting, forward: bool) -> AppModel {
        let screen = self.state.screen;
        let config = self.state.config.turned(setting, forward);
        match setting {
            Setting::AudioDevice => self.ordering(OrderModel::ListDevices { forward }),
            Setting::LyricPanel => self.screened(
                ScreenModel { show_lyric_panel: !screen.show_lyric_panel, ..screen },
            ),
            Setting::Sidebar => self.screened(
                ScreenModel { sidebar_visible: !screen.sidebar_visible, ..screen },
            ),
            Setting::PlaybackMode => self.configured(config).played(
                PlayerModel {
                    queue: QueueModel {
                        mode: config.playback_mode,
                        ..self.state.player.queue
                    },
                    ..self.state.player
                },
            ),
            _ => self.configured(config),
        }
    }

    /// The selected setting is a step on or back, and saved.
    #[verifier::opaque]
    pub open spec fn setting_changed(self, forward: bool) -> AppModel {
        let row = self.state.pages.settings_cursor;
        if row >= Setting::ALL@.len() {
            self
        } else {
            let setting = Setting::ALL@[row as int];
            let changed = self.set(setting, forward);
            if setting == Setting::AudioDevice {
                changed
            } else {
                changed.ordering(OrderModel::SaveConfig).told(
                    StatusLevel::Info,
                    "已修改设置："@ + setting.label_text(),
                )
            }
        }
    }

    /// The next quality is used, from the next song on.
    #[verifier::opaque]
    pub open spec fn changing_quality(self) -> AppModel {
        let changed = self.set(Setting::Quality, true);
        changed.ordering(OrderModel::SaveConfig).told(
            StatusLevel::Info,
            "音质："@ + settings::quality_name(changed.state.config.quality) + "（下一首生效）"@,
        )
    }

    /// These devices were found: the next is used, or the one before. One that is no longer there is
    /// not left for another.
    #[verifier::opaque]
    pub open spec fn devices_listed(self, options: Seq<Seq<char>>, forward: bool) -> AppModel {
        match settings::device_cycled(options, self.state.config.audio_device, step(forward)) {
            Some(name) => self.configured(
                ConfigModel { audio_device: name, ..self.state.config },
            ).ordering(OrderModel::SaveConfig).ordering(OrderModel::OpenDevice { device: name }).told(
                StatusLevel::Info,
                "已修改设置："@ + Setting::AudioDevice.label_text(),
            ),
            None => self.told(StatusLevel::Warning, "当前输出设备不在列表里，保持不变"@),
        }
    }
}

impl App {
    /// Changes what is on the screen.
    fn toggle_part(&mut self, setting: Setting, forward: bool)
        requires
            old(self).deep_view().wf(),
            setting == Setting::LyricPanel || setting == Setting::Sidebar,
        ensures
            final(self).deep_view() == old(self).deep_view().set(setting, forward),
            final(self).deep_view().wf(),
    {
        proof {
            reveal(AppModel::wf);
            reveal(AppModel::set);
            reveal(screen_model);
        }
        if setting == Setting::LyricPanel {
            self.state.screen.show_lyric_panel = !self.state.screen.show_lyric_panel;
        } else {
            self.state.screen.sidebar_visible = !self.state.screen.sidebar_visible;
        }
    }

    /// Changes how the queue goes on.
    fn set_mode(&mut self, forward: bool)
        requires
            old(self).deep_view().wf(),
        ensures
            final(self).deep_view() == old(self).deep_view().set(Setting::PlaybackMode, forward),
            final(self).deep_view().wf(),
    {
        proof {
            reveal(AppModel::wf);
            reveal(AppModel::set);
            reveal(config_model);
            reveal(player_model);
        }
        self.state.config.turn(Setting::PlaybackMode, forward);
        self.state.player.queue.set_mode(self.state.config.playback_mode);
    }

    /// Puts a setting a step on or back.
    fn set(&mut self, setting: Setting, forward: bool)
        requires
            old(self).deep_view().wf(),
        ensures
            final(self).deep_view() == old(self).deep_view().set(setting, forward),
            final(self).deep_view().wf(),
    {
        match setting {
            Setting::AudioDevice => {
                proof {
                    reveal(AppModel::set);
                }
                self.order(Order::ListDevices { forward });
            },
            Setting::LyricPanel | Setting::Sidebar => self.toggle_part(setting, forward),
            Setting::PlaybackMode => self.set_mode(forward),
            _ => {
                proof {
                    reveal(AppModel::wf);
                    reveal(AppModel::set);
                    reveal(config_model);
                }
                self.state.config.turn(setting, forward);
            },
        }
    }

    /// Puts the selected setting a step on or back.
    pub(crate) fn change_setting(&mut self, forward: bool)
        requires
            old(self).deep_view().wf(),
        ensures
            final(self).deep_view() == old(self).deep_view().setting_changed(forward),
            final(self).deep_view().wf(),
    {
        proof {
            reveal(AppModel::setting_changed);
            reveal(pages_model);
        }
        let all = Setting::ALL;
        let row: usize = self.state.pages.settings_cursor;
        if row >= all.len() {
            return ;
        }
        let setting = all[row];
        self.set(setting, forward);
        if setting != Setting::AudioDevice {
            self.order(Order::SaveConfig);
            self.tell(StatusLevel::Info, text::join2("已修改设置：", setting.label()));
        }
    }

    /// Uses the next quality.
    pub(crate) fn cycle_quality(&mut self)
        requires
            old(self).deep_view().wf(),
        ensures
            final(self).deep_view() == old(self).deep_view().changing_quality(),
            final(self).deep_view().wf(),
    {
        proof {
            reveal(AppModel::changing_quality);
            reveal(config_model);
        }
        self.set(Setting::Quality, true);
        let name = settings::quality_label(self.state.config.quality.as_str());
        self.order(Order::SaveConfig);
        self.tell(StatusLevel::Info, text::join3("音质：", name.as_str(), "（下一首生效）"));
    }

    /// Lets the sound out of another device.
    fn set_device(&mut self, name: Option<String>)
        requires
            old(self).deep_view().wf(),
        ensures
            final(self).deep_view() == old(self).deep_view().configured(
                ConfigModel {
                    audio_device: name.deep_view(),
                    ..old(self).deep_view().state.config
                },
            ),
            final(self).deep_view().wf(),
    {
        proof {
            reveal(AppModel::wf);
            reveal(config_model);
        }
        self.state.config.audio_device = name;
    }

    /// Chooses the next of the devices that were found, or the one before.
    pub fn choose_device(&mut self, options: &[String], forward: bool)
        requires
            old(self).deep_view().wf(),
        ensures
            final(self).deep_view() == old(self).deep_view().devices_listed(
                text::views(options@),
                forward,
            ),
            final(self).deep_view().wf(),
    {
        proof {
            reveal(AppModel::devices_listed);
            reveal(config_model);
        }
        let current = match &self.state.config.audio_device {
            Some(name) => Some(name.as_str()),
            None => None,
        };
        match settings::cycle_device(options, current, one_step(forward)) {
            Some(name) => {
                let chosen = model::copy_text(&name);
                self.set_device(name);
                self.order(Order::SaveConfig);
                self.order(Order::OpenDevice { device: chosen });
                self.tell(
                    StatusLevel::Info,
                    text::join2("已修改设置：", Setting::AudioDevice.label()),
                );
            },
            None => self.tell(
                StatusLevel::Warning,
                "当前输出设备不在列表里，保持不变".to_owned(),
            ),
        }
    }
}

// ---------------------------------------------------------------------------
// Laws
// ---------------------------------------------------------------------------
/// The value of a setting is one of those that are offered, and the step leads to another of them:
/// an offset does not step over its limit, and the directory for songs has been chosen.
pub open spec fn steps(config: ConfigModel, setting: Setting, forward: bool) -> bool {
    match setting {
        Setting::Quality => panes::quality_texts().contains(config.quality),
        Setting::RefreshMs => REFRESH_MS_OPTIONS@.contains(config.tick_ms),
        Setting::PageSize => PAGE_SIZE_OPTIONS@.contains(config.page_size),
        Setting::CacheLimitMib => CACHE_LIMIT_OPTIONS@.contains(config.cache_limit_mib),
        Setting::DownloadDir => config.download_dir is Some && directory_texts().contains(
            config.download_dir->0,
        ),
        Setting::LyricOffsetMs => {
            &&& -LYRIC_OFFSET_LIMIT <= config.lyric_offset_ms <= LYRIC_OFFSET_LIMIT
            &&& -LYRIC_OFFSET_LIMIT <= config.lyric_offset_ms + step(forward) * LYRIC_OFFSET_STEP
                <= LYRIC_OFFSET_LIMIT
        },
        _ => true,
    }
}

/// Stepping back undoes stepping on, for every setting whose value is one of those that are offered.
pub proof fn settings_step_back(config: ConfigModel, setting: Setting, forward: bool)
    requires
        steps(config, setting, forward),
    ensures
        config.turned(setting, forward).turned(setting, !forward) == config,
{
    let by = step(forward);
    match setting {
        Setting::Quality => {
            reveal_strlit("128");
            reveal_strlit("320");
            reveal_strlit("flac");
            reveal_strlit("high");
            reveal_strlit("super");
            reveal_strlit("viper_clear");
            reveal_strlit("viper_atmos");
            reveal_strlit("viper_tape");
            let all = panes::quality_texts();
            assert(all.len() == 8);
            assert(all[0] == "128"@ && all[1] == "320"@ && all[2] == "flac"@ && all[3] == "high"@);
            assert(all[4] == "super"@ && all[5] == "viper_clear"@ && all[6] == "viper_atmos"@
                && all[7] == "viper_tape"@);
            assert("viper_clear"@[6] != "viper_atmos"@[6]);
            assert("128"@[0] != "320"@[0]);
            assert("flac"@[0] != "high"@[0]);
            assert(all.no_duplicates());
            settings::cycling_texts_back_restores(all, config.quality, by);
        },
        Setting::DownloadDir => {
            reveal_strlit("~/Music");
            reveal_strlit("~/Downloads");
            reveal_strlit("~/Downloads/Music");
            let all = directory_texts();
            assert(all.len() == 3);
            assert(all[0] == "~/Music"@ && all[1] == "~/Downloads"@ && all[2]
                == "~/Downloads/Music"@);
            assert(all.no_duplicates());
            settings::cycling_texts_back_restores(all, config.download_dir->0, by);
        },
        Setting::RefreshMs => {
            settings::cycling_back_restores(REFRESH_MS_OPTIONS@, config.tick_ms, by);
        },
        Setting::PageSize => {
            settings::cycling_back_restores(PAGE_SIZE_OPTIONS@, config.page_size, by);
        },
        Setting::CacheLimitMib => {
            settings::cycling_back_restores(CACHE_LIMIT_OPTIONS@, config.cache_limit_mib, by);
        },
        _ => {},
    }
}

} // verus!
