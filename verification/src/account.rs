//! Logging in, changing the service, and the user's own playlists.
use vstd::prelude::*;
use crate::config::ConfigModel;
use crate::error::{self, AppError, ErrorModel};
use crate::model::{self, Playlist, PlaylistModel, Song, SongModel};
use crate::order::{self, CloudTask, CloudTaskModel, Order, OrderModel};
use crate::panes::{self, ConfirmAction, LoginState};
use crate::source::{self, SourceKind};
use crate::state::{
    account_model, config_model, dialogs_model, player_model, AccountModel, DialogsModel,
    StateModel,
};
use crate::tab::StatusLevel;
use crate::text;
use crate::update::{App, AppModel};

verus! {

/// What clearing the kept songs came to.
#[derive(Debug, Clone, Copy, PartialEq, Eq, Structural)]
pub struct CacheReport {
    pub removed_files: u64,
    pub failed: u64,
}

// ---------------------------------------------------------------------------
// What is decided
// ---------------------------------------------------------------------------
/// The cookie after a login: the one given out, or one made of token and user; else the old one.
pub open spec fn login_cookie(
    token: Option<Seq<char>>,
    userid: Option<Seq<char>>,
    cookie: Option<Seq<char>>,
    old_cookie: Option<Seq<char>>,
) -> Option<Seq<char>> {
    if cookie is Some {
        cookie
    } else if token is Some && userid is Some {
        Some("token="@ + token->0 + "; userid="@ + userid->0)
    } else {
        old_cookie
    }
}

/// What is said after a login has been saved.
pub open spec fn saved_words(userid: Option<Seq<char>>, path: Seq<char>) -> Seq<char> {
    match userid {
        Some(id) => "登录成功（userid="@ + id + "），凭据已写入 "@ + path,
        None => "登录成功，凭据已写入 "@ + path,
    }
}

impl AppModel {
    /// The same with another account.
    pub open spec fn accounted(self, account: AccountModel) -> AppModel {
        AppModel { state: StateModel { account, ..self.state }, ..self }
    }

    /// The same with other dialogs.
    pub open spec fn asked(self, dialogs: DialogsModel) -> AppModel {
        AppModel { state: StateModel { dialogs, ..self.state }, ..self }
    }

    /// Something is only done after asking once more.
    #[verifier::opaque]
    pub open spec fn asking(self, what: ConfirmAction) -> AppModel {
        self.asked(DialogsModel { pending_confirm: Some(what), ..self.state.dialogs })
    }

    /// The login has come to its end.
    #[verifier::opaque]
    pub open spec fn login_ended(self, succeeded: bool, message: Seq<char>) -> AppModel {
        self.accounted(
            AccountModel {
                login: Some(panes::login_message(message, true, succeeded)),
                ..self.state.account
            },
        )
    }

    /// A login was granted: it is used and saved.
    #[verifier::opaque]
    pub open spec fn login_granted(
        self,
        token: Option<Seq<char>>,
        userid: Option<Seq<char>>,
        cookie: Option<Seq<char>>,
    ) -> AppModel {
        let used = login_cookie(token, userid, cookie, self.state.config.cookie);
        self.configured(ConfigModel { cookie: used, ..self.state.config }).ordering(
            OrderModel::SetCookie(source::cookie_text(used, self.state.config.dfid)),
        ).ordering(OrderModel::SaveLogin { userid })
    }

    /// The login was saved, or could not be.
    #[verifier::opaque]
    pub open spec fn login_kept(
        self,
        userid: Option<Seq<char>>,
        path: Seq<char>,
        saved: Result<(), ErrorModel>,
    ) -> AppModel {
        match saved {
            Ok(_) => self.accounted(
                AccountModel { logged_in: true, ..self.state.account },
            ).login_ended(true, saved_words(userid, path)).told(
                StatusLevel::Success,
                "登录成功，按 Esc 关闭"@,
            ).asking_membership().asking_profile(),
            Err(e) => self.login_ended(false, "保存登录凭据失败："@ + error::description(e)),
        }
    }

    /// The membership is asked for, where there is a login, and that of the day is to be claimed.
    #[verifier::opaque]
    pub open spec fn asking_membership(self) -> AppModel {
        if self.state.account.logged_in {
            self.ordering(OrderModel::FetchVip).ordering(OrderModel::AskDay { manual: false })
        } else {
            self.accounted(AccountModel { vip_label: None, ..self.state.account })
        }
    }

    /// A device print is asked for, where the service wants one and there is none.
    #[verifier::opaque]
    pub open spec fn asking_device(self) -> AppModel {
        if self.state.config.sources.active != SourceKind::Netease && self.state.config.dfid is None {
            self.ordering(OrderModel::FetchFingerprint)
        } else {
            self
        }
    }

    /// The next service is used. What is playing goes on.
    #[verifier::opaque]
    pub open spec fn changing_source(self) -> AppModel {
        self.using_source(self.state.config.sources.following())
    }

    /// Another service is used. What is playing goes on.
    #[verifier::opaque]
    pub open spec fn using_source(self, kind: SourceKind) -> AppModel {
        self.configured(self.state.config.kept().using(kind)).ordering(
            OrderModel::SaveConfig,
        ).ordering(OrderModel::RebuildClient { kind })
    }

    /// Another server is spoken to, or cannot be.
    #[verifier::opaque]
    pub open spec fn source_changed(
        self,
        kind: SourceKind,
        rebuilt: Result<(), ErrorModel>,
    ) -> AppModel {
        match rebuilt {
            Ok(_) => {
                let asked = self.accounted(
                    AccountModel { vip_label: None, ..self.state.account },
                ).asking_membership().asking_device();
                if self.state.config.cookie is None {
                    asked.told(
                        StatusLevel::Warning,
                        "已切换到「"@ + kind.label_text()
                            + "」，但该音源还没登录——按 L 重新扫码（两个平台账号不通用）"@,
                    )
                } else {
                    asked.told(
                        StatusLevel::Success,
                        "已切换到「"@ + kind.label_text() + "」音源，当前播放不受影响"@,
                    )
                }
            },
            Err(e) => self.told(
                StatusLevel::Error,
                "切换到「"@ + kind.label_text() + "」失败："@ + error::description(e),
            ),
        }
    }

    /// What the user sees first: the address and the login. That a service answers is not known yet.
    #[verifier::opaque]
    pub open spec fn ready(self, base: Seq<char>) -> AppModel {
        if self.state.account.logged_in {
            self.told(StatusLevel::Info, "接口地址 "@ + base + "（已登录）"@)
        } else {
            self.told(StatusLevel::Warning, "接口地址 "@ + base + "（未登录，云端歌单不可用）"@)
        }
    }

    /// The kept songs were cleared, or could not be.
    #[verifier::opaque]
    pub open spec fn cleared(
        self,
        report: Result<CacheReport, ErrorModel>,
        freed: Seq<char>,
    ) -> AppModel {
        match report {
            Ok(done) => {
                let measured = self.ordering(OrderModel::MeasureCache);
                if done.failed > 0 {
                    measured.told(
                        StatusLevel::Warning,
                        "已清理 "@ + text::decimal(done.removed_files as nat) + " 个文件（"@
                            + freed + "），"@ + text::decimal(done.failed as nat)
                            + " 个删除失败（检查目录权限）"@,
                    )
                } else if done.removed_files == 0 {
                    measured.told(StatusLevel::Info, "缓存已经是空的"@)
                } else {
                    measured.told(
                        StatusLevel::Success,
                        "已清理缓存："@ + text::decimal(done.removed_files as nat)
                            + " 个文件，释放 "@ + freed,
                    )
                }
            },
            Err(e) => self.told(StatusLevel::Error, "清空缓存失败："@ + error::description(e)),
        }
    }

    /// The playlist that a single song is put into: the one that is open, else the one chosen last.
    pub open spec fn favourite(self) -> Option<PlaylistModel> {
        match self.state.pages.cloud.open_playlist {
            Some(playlist) => Some(playlist),
            None => self.state.account.sync_target,
        }
    }

    /// The selected song is put into a playlist.
    #[verifier::opaque]
    pub open spec fn adding_song(self) -> AppModel {
        self.adding(self.state.selected_song())
    }

    /// A song, if there is one, is put into a playlist.
    #[verifier::opaque]
    pub open spec fn adding(self, song: Option<SongModel>) -> AppModel {
        let target = self.favourite();
        if !self.state.account.logged_in {
            self.told(StatusLevel::Warning, "云端歌单需要登录，请配置 cookie"@)
        } else if target is None {
            self.told(StatusLevel::Warning, "请先在「云端」标签页选中一个歌单作为目标"@)
        } else if target->0.list_id is None {
            self.told(StatusLevel::Error, "该歌单不可写（缺少 listid）"@)
        } else if song is None {
            self.told(StatusLevel::Warning, "当前没有选中的歌曲"@)
        } else {
            let label = order::song_label(song->0);
            self.busy_with(Some("收藏《"@ + label + "》"@)).ordering(
                OrderModel::AddTracks {
                    list_id: target->0.list_id->0,
                    songs: seq![song->0],
                    playlist: target->0,
                    task: CloudTaskModel::AddSong { label, name: target->0.name },
                },
            )
        }
    }

    /// The queue is put into the chosen playlist.
    #[verifier::opaque]
    pub open spec fn syncing_queue(self) -> AppModel {
        let target = self.state.account.sync_target;
        let songs = self.state.player.queue.items;
        if !self.state.account.logged_in {
            self.told(StatusLevel::Warning, "云端歌单需要登录，请配置 cookie"@)
        } else if target is None {
            self.told(StatusLevel::Warning, "请先在「云端」标签页选中一个歌单作为同步目标"@)
        } else if target->0.list_id is None {
            self.told(StatusLevel::Error, "该歌单不可写（缺少 listid）"@)
        } else if songs.len() == 0 {
            self.told(StatusLevel::Warning, "播放队列为空，没有可同步的内容"@)
        } else {
            self.busy_with(
                Some(
                    "同步 "@ + text::decimal(songs.len()) + " 首到《"@ + target->0.name + "》"@,
                ),
            ).ordering(
                OrderModel::AddTracks {
                    list_id: target->0.list_id->0,
                    songs,
                    playlist: target->0,
                    task: CloudTaskModel::SyncQueue { name: target->0.name },
                },
            )
        }
    }

    /// The selected song is taken out of the chosen playlist. Where a service finds it by its place in
    /// the playlist, only songs that came from a playlist have one.
    #[verifier::opaque]
    pub open spec fn removing_song(self) -> AppModel {
        let target = self.state.account.sync_target;
        let list = self.state.focused_songs();
        let song = if list is Some {
            list->0.chosen()
        } else {
            None
        };
        if target is None {
            self.told(StatusLevel::Warning, "请先在「云端」标签页选中一个歌单"@)
        } else if target->0.list_id is None {
            self.told(StatusLevel::Error, "该歌单不可写（缺少 listid）"@)
        } else if !self.state.account.logged_in {
            self.told(StatusLevel::Warning, "需要登录才能修改云端歌单，按 L 扫码登录"@)
        } else if song is None {
            self.told(StatusLevel::Warning, "当前没有选中的歌曲"@)
        } else if song->0.file_id is None && song->0.source != SourceKind::Netease {
            self.told(
                StatusLevel::Warning,
                "这首歌不在歌单里（缺少 fileid），无法从歌单移除"@,
            )
        } else {
            self.busy_with(Some("从《"@ + target->0.name + "》移除歌曲"@)).ordering(
                OrderModel::RemoveTrack {
                    list_id: target->0.list_id->0,
                    song: song->0,
                    playlist: target->0,
                    task: CloudTaskModel::RemoveSong {
                        label: order::song_label(song->0),
                        name: target->0.name,
                    },
                },
            )
        }
    }

    /// The chosen playlist is deleted; after that none is chosen.
    #[verifier::opaque]
    pub open spec fn deleting_playlist(self) -> AppModel {
        let target = self.state.account.sync_target;
        let freed = self.accounted(AccountModel { sync_target: None, ..self.state.account });
        if target is None {
            freed.told(StatusLevel::Warning, "没有选中的云端歌单"@)
        } else if target->0.list_id is None {
            freed.told(StatusLevel::Error, "该歌单不可写（缺少 listid）"@)
        } else if !self.state.account.logged_in {
            freed.told(StatusLevel::Warning, "需要登录才能删除云端歌单，按 L 扫码登录"@)
        } else {
            freed.busy_with(Some("删除歌单《"@ + target->0.name + "》"@)).ordering(
                OrderModel::DeletePlaylist {
                    list_id: target->0.list_id->0,
                    task: CloudTaskModel::Delete { name: target->0.name },
                },
            )
        }
    }

    /// A playlist is made.
    #[verifier::opaque]
    pub open spec fn creating_playlist(self, name: Seq<char>) -> AppModel {
        if text::trimmed(name).len() == 0 {
            self.told(StatusLevel::Warning, "歌单名称不能为空"@)
        } else if !self.state.account.logged_in {
            self.told(StatusLevel::Warning, "需要登录才能新建云端歌单，按 L 扫码登录"@)
        } else {
            self.busy_with(Some("新建云端歌单"@)).ordering(
                OrderModel::CreatePlaylist { name, task: CloudTaskModel::Create { name } },
            )
        }
    }
}

// ---------------------------------------------------------------------------
// Logging in
// ---------------------------------------------------------------------------
/// What became of something, in its model.
pub open spec fn outcome(result: Result<(), AppError>) -> Result<(), ErrorModel> {
    match result {
        Ok(_) => Ok(()),
        Err(e) => Err(e.deep_view()),
    }
}

impl App {
    /// Asks once more before something is done.
    pub(crate) fn ask(&mut self, what: ConfirmAction)
        requires
            old(self).deep_view().wf(),
        ensures
            final(self).deep_view() == old(self).deep_view().asking(what),
            final(self).deep_view().wf(),
    {
        proof {
            reveal(AppModel::wf);
            reveal(AppModel::asking);
            reveal(dialogs_model);
        }
        self.state.dialogs.pending_confirm = Some(what);
    }

    /// Whether there is a login.
    pub(crate) fn logged_in(&self) -> (r: bool)
        ensures
            r == self.deep_view().state.account.logged_in,
    {
        proof {
            reveal(AppModel::wf);
            reveal(account_model);
        }
        self.state.account.logged_in
    }

    /// Ends the login.
    pub(crate) fn finish_login(&mut self, succeeded: bool, message: String)
        requires
            old(self).deep_view().wf(),
        ensures
            final(self).deep_view() == old(self).deep_view().login_ended(succeeded, message@),
            final(self).deep_view().wf(),
    {
        proof {
            reveal(AppModel::wf);
            reveal(AppModel::login_ended);
            reveal(account_model);
        }
        self.state.account.login = Some(LoginState::with_message(message, true, succeeded));
    }

    /// Uses a login and has it saved.
    pub(crate) fn apply_login(
        &mut self,
        token: Option<String>,
        userid: Option<String>,
        cookie: Option<String>,
    )
        requires
            old(self).deep_view().wf(),
        ensures
            final(self).deep_view() == old(self).deep_view().login_granted(
                token.deep_view(),
                userid.deep_view(),
                cookie.deep_view(),
            ),
            final(self).deep_view().wf(),
    {
        proof {
            reveal(AppModel::wf);
            reveal(AppModel::login_granted);
            reveal(config_model);
        }
        match cookie {
            Some(given) => {
                self.state.config.cookie = Some(given);
            },
            None => {
                if let (Some(token), Some(id)) = (&token, &userid) {
                    self.state.config.cookie = Some(
                        text::join4("token=", token.as_str(), "; userid=", id.as_str()),
                    );
                }
            },
        }
        let header = self.state.config.cookie_header();
        self.order(Order::SetCookie(header));
        self.order(Order::SaveLogin { userid });
    }

    /// Takes in whether a login could be saved.
    pub fn login_saved(&mut self, userid: Option<String>, path: &str, saved: Result<(), AppError>)
        requires
            old(self).deep_view().wf(),
        ensures
            final(self).deep_view() == old(self).deep_view().login_kept(
                userid.deep_view(),
                path@,
                outcome(saved),
            ),
            final(self).deep_view().wf(),
    {
        proof {
            reveal(AppModel::login_kept);
        }
        match saved {
            Ok(_) => {
                let words = match &userid {
                    Some(id) => text::join4(
                        "登录成功（userid=",
                        id.as_str(),
                        "），凭据已写入 ",
                        path,
                    ),
                    None => text::join2("登录成功，凭据已写入 ", path),
                };
                self.enter_account();
                self.finish_login(true, words);
                self.tell(StatusLevel::Success, "登录成功，按 Esc 关闭".to_owned());
                self.fetch_vip_status();
                self.fetch_profile();
            },
            Err(e) => self.finish_login(
                false,
                text::join2("保存登录凭据失败：", e.describe().as_str()),
            ),
        }
    }

    /// Takes in that there is a login.
    fn enter_account(&mut self)
        requires
            old(self).deep_view().wf(),
        ensures
            final(self).deep_view() == old(self).deep_view().accounted(
                AccountModel { logged_in: true, ..old(self).deep_view().state.account },
            ),
            final(self).deep_view().wf(),
    {
        proof {
            reveal(AppModel::wf);
            reveal(account_model);
        }
        self.state.account.logged_in = true;
    }

    /// Asks for the membership.
    pub fn fetch_vip_status(&mut self)
        requires
            old(self).deep_view().wf(),
        ensures
            final(self).deep_view() == old(self).deep_view().asking_membership(),
            final(self).deep_view().wf(),
    {
        proof {
            reveal(AppModel::asking_membership);
        }
        if self.logged_in() {
            self.order(Order::FetchVip);
            self.order(Order::AskDay { manual: false });
        } else {
            self.forget_membership();
        }
    }

    /// Forgets the membership.
    fn forget_membership(&mut self)
        requires
            old(self).deep_view().wf(),
        ensures
            final(self).deep_view() == old(self).deep_view().accounted(
                AccountModel { vip_label: None, ..old(self).deep_view().state.account },
            ),
            final(self).deep_view().wf(),
    {
        proof {
            reveal(AppModel::wf);
            reveal(account_model);
        }
        self.state.account.vip_label = None;
    }

    /// Asks for a device print.
    pub fn ensure_device_fingerprint(&mut self)
        requires
            old(self).deep_view().wf(),
        ensures
            final(self).deep_view() == old(self).deep_view().asking_device(),
            final(self).deep_view().wf(),
    {
        proof {
            reveal(AppModel::wf);
            reveal(AppModel::asking_device);
            reveal(config_model);
        }
        if self.state.config.active_source_kind().uses_device_fingerprint()
            && self.state.config.dfid.is_none() {
            self.order(Order::FetchFingerprint);
        }
    }

    /// Changes to the next service.
    pub fn switch_source(&mut self)
        requires
            old(self).deep_view().wf(),
        ensures
            final(self).deep_view() == old(self).deep_view().changing_source(),
            final(self).deep_view().wf(),
    {
        proof {
            reveal(AppModel::changing_source);
            reveal(config_model);
        }
        let next = self.state.config.sources.next_enabled();
        self.use_source(next);
    }

    /// Changes to another service.
    pub(crate) fn use_source(&mut self, kind: SourceKind)
        requires
            old(self).deep_view().wf(),
        ensures
            final(self).deep_view() == old(self).deep_view().using_source(kind),
            final(self).deep_view().wf(),
    {
        proof {
            reveal(AppModel::wf);
            reveal(AppModel::using_source);
            reveal(config_model);
        }
        self.state.config.sync_active_source();
        self.state.config.switch_source(kind);
        self.order(Order::SaveConfig);
        self.order(Order::RebuildClient { kind });
    }

    /// Takes in whether another server can be spoken to.
    pub fn client_rebuilt(&mut self, kind: SourceKind, rebuilt: Result<(), AppError>)
        requires
            old(self).deep_view().wf(),
        ensures
            final(self).deep_view() == old(self).deep_view().source_changed(kind, outcome(rebuilt)),
            final(self).deep_view().wf(),
    {
        proof {
            reveal(AppModel::source_changed);
        }
        match rebuilt {
            Ok(_) => {
                let known = self.has_cookie();
                self.forget_membership();
                self.fetch_vip_status();
                self.ensure_device_fingerprint();
                if known {
                    self.tell(
                        StatusLevel::Success,
                        text::join3("已切换到「", kind.label(), "」音源，当前播放不受影响"),
                    );
                } else {
                    self.tell(
                        StatusLevel::Warning,
                        text::join3(
                            "已切换到「",
                            kind.label(),
                            "」，但该音源还没登录——按 L 重新扫码（两个平台账号不通用）",
                        ),
                    );
                }
            },
            Err(e) => self.tell(
                StatusLevel::Error,
                text::join4("切换到「", kind.label(), "」失败：", e.describe().as_str()),
            ),
        }
    }

    /// Whether a cookie is set.
    fn has_cookie(&self) -> (r: bool)
        ensures
            r == (self.deep_view().state.config.cookie is Some),
    {
        proof {
            reveal(AppModel::wf);
            reveal(config_model);
        }
        self.state.config.cookie.is_some()
    }

    /// Tells what the user sees first.
    pub fn announce_readiness(&mut self, base: &str)
        requires
            old(self).deep_view().wf(),
        ensures
            final(self).deep_view() == old(self).deep_view().ready(base@),
            final(self).deep_view().wf(),
    {
        proof {
            reveal(AppModel::ready);
        }
        if self.logged_in() {
            self.tell(StatusLevel::Info, text::join3("接口地址 ", base, "（已登录）"));
        } else {
            self.tell(
                StatusLevel::Warning,
                text::join3("接口地址 ", base, "（未登录，云端歌单不可用）"),
            );
        }
    }

    /// Takes in what clearing the kept songs came to; `freed` says how much it freed.
    pub fn cache_cleared(&mut self, report: Result<CacheReport, AppError>, freed: &str)
        requires
            old(self).deep_view().wf(),
        ensures
            final(self).deep_view() == old(self).deep_view().cleared(
                match report {
                    Ok(done) => Ok(done),
                    Err(e) => Err(e.deep_view()),
                },
                freed@,
            ),
            final(self).deep_view().wf(),
    {
        proof {
            reveal(AppModel::cleared);
        }
        match report {
            Ok(done) => {
                self.order(Order::MeasureCache);
                let removed = text::write_u64(done.removed_files);
                if done.failed > 0 {
                    let failed = text::write_u64(done.failed);
                    let mut words = text::join6(
                        "已清理 ",
                        removed.as_str(),
                        " 个文件（",
                        freed,
                        "），",
                        failed.as_str(),
                    );
                    words.append(" 个删除失败（检查目录权限）");
                    self.tell(StatusLevel::Warning, words);
                } else if done.removed_files == 0 {
                    self.tell(StatusLevel::Info, "缓存已经是空的".to_owned());
                } else {
                    self.tell(
                        StatusLevel::Success,
                        text::join4("已清理缓存：", removed.as_str(), " 个文件，释放 ", freed),
                    );
                }
            },
            Err(e) => self.tell(
                StatusLevel::Error,
                text::join2("清空缓存失败：", e.describe().as_str()),
            ),
        }
    }
}

// ---------------------------------------------------------------------------
// The user's own playlists
// ---------------------------------------------------------------------------
impl App {
    /// The chosen playlist.
    fn chosen_playlist(&self) -> (r: Option<Playlist>)
        ensures
            r.deep_view() == self.deep_view().state.account.sync_target,
    {
        proof {
            reveal(AppModel::wf);
            reveal(account_model);
        }
        match &self.state.account.sync_target {
            Some(playlist) => Some(playlist.clone()),
            None => None,
        }
    }

    /// Puts the selected song into a playlist.
    pub(crate) fn add_focused_song_to_cloud(&mut self)
        requires
            old(self).deep_view().wf(),
        ensures
            final(self).deep_view() == old(self).deep_view().adding_song(),
            final(self).deep_view().wf(),
    {
        proof {
            reveal(AppModel::adding_song);
        }
        let song = self.state.selected_song();
        self.add_to_cloud(song);
    }

    /// Puts a song, if there is one, into a playlist.
    pub(crate) fn add_to_cloud(&mut self, song: Option<Song>)
        requires
            old(self).deep_view().wf(),
        ensures
            final(self).deep_view() == old(self).deep_view().adding(song.deep_view()),
            final(self).deep_view().wf(),
    {
        proof {
            reveal(AppModel::adding);
        }
        if !self.logged_in() {
            self.tell(StatusLevel::Warning, "云端歌单需要登录，请配置 cookie".to_owned());
            return ;
        }
        let target = match self.open_cloud_playlist() {
            Some(playlist) => playlist,
            None => match self.chosen_playlist() {
                Some(playlist) => playlist,
                None => {
                    self.tell(
                        StatusLevel::Warning,
                        "请先在「云端」标签页选中一个歌单作为目标".to_owned(),
                    );
                    return ;
                },
            },
        };
        let list_id: i64 = match target.list_id {
            Some(id) => id,
            None => {
                self.tell(StatusLevel::Error, "该歌单不可写（缺少 listid）".to_owned());
                return ;
            },
        };
        let song = match song {
            Some(song) => song,
            None => {
                self.tell(StatusLevel::Warning, "当前没有选中的歌曲".to_owned());
                return ;
            },
        };
        let label = order::describe_song(&song);
        self.set_busy(Some(text::join3("收藏《", label.as_str(), "》")));
        let ghost one = song.deep_view();
        let songs = vec![song];
        proof {
            assert(songs.deep_view() =~= seq![one]);
        }
        let name = target.name.clone();
        self.order(
            Order::AddTracks {
                list_id,
                songs,
                playlist: target,
                task: CloudTask::AddSong { label, name },
            },
        );
    }

    /// Puts the queue into the chosen playlist.
    pub(crate) fn sync_queue_to_cloud(&mut self)
        requires
            old(self).deep_view().wf(),
        ensures
            final(self).deep_view() == old(self).deep_view().syncing_queue(),
            final(self).deep_view().wf(),
    {
        proof {
            reveal(AppModel::wf);
            reveal(AppModel::syncing_queue);
            reveal(player_model);
        }
        if !self.logged_in() {
            self.tell(StatusLevel::Warning, "云端歌单需要登录，请配置 cookie".to_owned());
            return ;
        }
        let target = match self.chosen_playlist() {
            Some(playlist) => playlist,
            None => {
                self.tell(
                    StatusLevel::Warning,
                    "请先在「云端」标签页选中一个歌单作为同步目标".to_owned(),
                );
                return ;
            },
        };
        let list_id: i64 = match target.list_id {
            Some(id) => id,
            None => {
                self.tell(StatusLevel::Error, "该歌单不可写（缺少 listid）".to_owned());
                return ;
            },
        };
        if self.state.player.queue.is_empty() {
            self.tell(StatusLevel::Warning, "播放队列为空，没有可同步的内容".to_owned());
            return ;
        }
        let songs = model::copy_songs(self.state.player.queue.items());
        let count = text::write_usize(self.state.player.queue.len());
        self.set_busy(
            Some(text::join5("同步 ", count.as_str(), " 首到《", target.name.as_str(), "》")),
        );
        let name = target.name.clone();
        self.order(
            Order::AddTracks {
                list_id,
                songs,
                playlist: target,
                task: CloudTask::SyncQueue { name },
            },
        );
    }

    /// Takes the selected song out of the chosen playlist.
    pub fn remove_focused_song_from_cloud(&mut self)
        requires
            old(self).deep_view().wf(),
        ensures
            final(self).deep_view() == old(self).deep_view().removing_song(),
            final(self).deep_view().wf(),
    {
        proof {
            reveal(AppModel::removing_song);
        }
        let target = match self.chosen_playlist() {
            Some(playlist) => playlist,
            None => {
                self.tell(StatusLevel::Warning, "请先在「云端」标签页选中一个歌单".to_owned());
                return ;
            },
        };
        let list_id: i64 = match target.list_id {
            Some(id) => id,
            None => {
                self.tell(StatusLevel::Error, "该歌单不可写（缺少 listid）".to_owned());
                return ;
            },
        };
        if !self.logged_in() {
            self.tell(
                StatusLevel::Warning,
                "需要登录才能修改云端歌单，按 L 扫码登录".to_owned(),
            );
            return ;
        }
        let song: Option<Song> = match self.state.focused_songs() {
            Some(list) => match list.selected() {
                Some(song) => Some(song.clone()),
                None => None,
            },
            None => None,
        };
        let song = match song {
            Some(song) => song,
            None => {
                self.tell(StatusLevel::Warning, "当前没有选中的歌曲".to_owned());
                return ;
            },
        };
        if song.file_id.is_none() && song.source != SourceKind::Netease {
            self.tell(
                StatusLevel::Warning,
                "这首歌不在歌单里（缺少 fileid），无法从歌单移除".to_owned(),
            );
            return ;
        }
        let label = order::describe_song(&song);
        self.set_busy(Some(text::join3("从《", target.name.as_str(), "》移除歌曲")));
        let name = target.name.clone();
        self.order(
            Order::RemoveTrack {
                list_id,
                song,
                playlist: target,
                task: CloudTask::RemoveSong { label, name },
            },
        );
    }

    /// Gives up the choice of a playlist.
    fn drop_chosen(&mut self)
        requires
            old(self).deep_view().wf(),
        ensures
            final(self).deep_view() == old(self).deep_view().accounted(
                AccountModel { sync_target: None, ..old(self).deep_view().state.account },
            ),
            final(self).deep_view().wf(),
    {
        proof {
            reveal(AppModel::wf);
            reveal(account_model);
        }
        self.state.account.sync_target = None;
    }

    /// Deletes the chosen playlist.
    pub(crate) fn delete_cloud_playlist(&mut self)
        requires
            old(self).deep_view().wf(),
        ensures
            final(self).deep_view() == old(self).deep_view().deleting_playlist(),
            final(self).deep_view().wf(),
    {
        proof {
            reveal(AppModel::deleting_playlist);
        }
        let chosen = self.chosen_playlist();
        let known = self.logged_in();
        self.drop_chosen();
        let target = match chosen {
            Some(playlist) => playlist,
            None => {
                self.tell(StatusLevel::Warning, "没有选中的云端歌单".to_owned());
                return ;
            },
        };
        let list_id: i64 = match target.list_id {
            Some(id) => id,
            None => {
                self.tell(StatusLevel::Error, "该歌单不可写（缺少 listid）".to_owned());
                return ;
            },
        };
        if !known {
            self.tell(
                StatusLevel::Warning,
                "需要登录才能删除云端歌单，按 L 扫码登录".to_owned(),
            );
            return ;
        }
        self.set_busy(Some(text::join3("删除歌单《", target.name.as_str(), "》")));
        self.order(Order::DeletePlaylist { list_id, task: CloudTask::Delete { name: target.name } });
    }

    /// Makes a playlist.
    pub(crate) fn create_cloud_playlist(&mut self, name: String)
        requires
            old(self).deep_view().wf(),
        ensures
            final(self).deep_view() == old(self).deep_view().creating_playlist(name@),
            final(self).deep_view().wf(),
    {
        proof {
            reveal(AppModel::creating_playlist);
        }
        if text::is_blank(name.as_str()) {
            self.tell(StatusLevel::Warning, "歌单名称不能为空".to_owned());
            return ;
        }
        if !self.logged_in() {
            self.tell(
                StatusLevel::Warning,
                "需要登录才能新建云端歌单，按 L 扫码登录".to_owned(),
            );
            return ;
        }
        self.set_busy(Some("新建云端歌单".to_owned()));
        self.order(
            Order::CreatePlaylist { name: name.clone(), task: CloudTask::Create { name } },
        );
    }
}

// ---------------------------------------------------------------------------
// Laws
// ---------------------------------------------------------------------------
/// Without a login nothing is ever written to the user's playlists.
pub proof fn strangers_write_nothing(app: AppModel, name: Seq<char>)
    requires
        !app.state.account.logged_in,
    ensures
        app.adding_song().orders == app.orders,
        app.syncing_queue().orders == app.orders,
        app.removing_song().orders == app.orders,
        app.deleting_playlist().orders == app.orders,
        app.creating_playlist(name).orders == app.orders,
        app.loading_cloud().orders == app.orders,
{
    reveal(AppModel::adding_song);
    reveal(AppModel::adding);
    reveal(AppModel::syncing_queue);
    reveal(AppModel::removing_song);
    reveal(AppModel::deleting_playlist);
    reveal(AppModel::creating_playlist);
    reveal(AppModel::loading_cloud);
    reveal(AppModel::told);
}

/// Changing the service leaves what is playing and the queue alone.
pub proof fn changing_the_service_keeps_the_music(
    app: AppModel,
    kind: SourceKind,
    rebuilt: Result<(), ErrorModel>,
)
    ensures
        app.changing_source().state.player == app.state.player,
        app.source_changed(kind, rebuilt).state.player == app.state.player,
{
    reveal(AppModel::changing_source);
    reveal(AppModel::using_source);
    reveal(AppModel::source_changed);
    reveal(AppModel::asking_membership);
    reveal(AppModel::asking_device);
    reveal(AppModel::ordering);
    reveal(AppModel::told);
}

/// A login is sent as the cookie that the service set, else as token and number of the user; without
/// either the old one stays.
pub proof fn logins_are_sent_as_they_were_given(
    token: Seq<char>,
    userid: Seq<char>,
    cookie: Seq<char>,
    before: Option<Seq<char>>,
)
    ensures
        login_cookie(Some(token), Some(userid), Some(cookie), before) == Some(cookie),
        login_cookie(None, None, Some(cookie), before) == Some(cookie),
        login_cookie(Some(token), Some(userid), None, before) matches Some(sent) && text::begins(
            sent,
            "token="@ + token,
        ) && text::ends(sent, "userid="@ + userid),
        login_cookie(None, Some(userid), None, before) == before,
        login_cookie(Some(token), None, None, before) == before,
{
    reveal_strlit("userid=");
    reveal_strlit("; userid=");
    let sent = "token="@ + token + "; userid="@ + userid;
    let front = "token="@ + token;
    let tail = "userid="@ + userid;
    assert(sent.subrange(0, front.len() as int) =~= front);
    assert(sent.subrange(sent.len() - tail.len(), sent.len() as int) =~= tail);
}

} // verus!
