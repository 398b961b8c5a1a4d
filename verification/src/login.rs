//! Logging in: which service, and how often a code may be asked for.
use vstd::prelude::*;
use crate::error::{self, AppError, ErrorModel};
use crate::keymap::Action;
use crate::order::{Order, OrderModel};
use crate::panes::{self, ConfirmAction, ListState, LoadModel, LoginPicker, LoginState};
use crate::source::{self, SourceKind};
use crate::state::{
    account_model, config_model, dialogs_model, login_picker_model, AccountModel, DialogsModel,
    LoginPickerModel,
};
use crate::tab::StatusLevel;
use crate::update::{App, AppModel};

verus! {

/// How long to wait before another code is asked for, in milliseconds. Every code begins a login at
/// the service, which refuses logins that come too often.
pub const QR_INTERVAL_MS: u64 = 10_000;

// ---------------------------------------------------------------------------
// The choice of the service
// ---------------------------------------------------------------------------
impl LoginPickerModel {
    /// The service that is selected.
    pub open spec fn chosen(self) -> Option<SourceKind> {
        let row = panes::picked_row(self.selected);
        if row < self.candidates.len() {
            Some(self.candidates[row])
        } else {
            None
        }
    }

    /// The picker with another service selected.
    pub open spec fn moved(self, delta: int) -> LoginPickerModel {
        LoginPickerModel {
            selected: panes::picker_moved(self.selected, self.candidates.len() as int, delta),
            ..self
        }
    }
}

impl LoginPicker {
    /// A picker of the services that one can log in to, beginning at the one in use.
    pub fn new(active: SourceKind) -> (r: LoginPicker)
        ensures
            r.candidates@ == source::all_kinds(),
            r.cursor.selected == Some(source::rank(active) as usize),
    {
        let all = SourceKind::ALL;
        let mut candidates: Vec<SourceKind> = Vec::new();
        let mut i: usize = 0;
        while i < all.len()
            invariant
                i <= all@.len(),
                all@ == SourceKind::ALL@,
                candidates@ == all@.take(i as int),
            decreases all@.len() - i,
        {
            if all[i].capability().login {
                candidates.push(all[i]);
            }
            proof {
                assert(candidates@ =~= all@.take(i + 1));
            }
            i += 1;
        }
        proof {
            assert(candidates@ =~= source::all_kinds());
        }
        let row: usize = match active {
            SourceKind::Kugou => 0,
            SourceKind::KugouConcept => 1,
            SourceKind::Netease => 2,
        };
        LoginPicker { candidates, cursor: ListState { selected: Some(row) } }
    }
}

// ---------------------------------------------------------------------------
// What is decided
// ---------------------------------------------------------------------------
/// Whether the last code was asked for so lately that the next has to wait.
pub open spec fn too_early(last_ms: Option<u64>, now_ms: u64) -> bool {
    last_ms is Some && now_ms < last_ms->0 + QR_INTERVAL_MS
}

impl AppModel {
    /// The user wants to log in: it is asked where.
    #[verifier::opaque]
    pub open spec fn wanting_login(self) -> AppModel {
        let account = self.state.account;
        if account.login is Some && !account.login->0.finished {
            self.told(StatusLevel::Info, "登录已在进行中，扫码或按 Esc 取消"@)
        } else {
            self.asked(
                DialogsModel {
                    login_picker: Some(
                        LoginPickerModel {
                            candidates: source::all_kinds(),
                            selected: Some(
                                source::rank(self.state.config.sources.active) as usize,
                            ),
                        },
                    ),
                    ..self.state.dialogs
                },
            )
        }
    }

    /// Whether there is a login at a service.
    pub open spec fn known_at(self, kind: SourceKind) -> bool {
        if kind == self.state.config.sources.active {
            self.state.account.logged_in
        } else {
            self.state.config.kept().using(kind).logged_in()
        }
    }

    /// The user wants to log in at this service, which is used from now on, so that the login is kept
    /// where it belongs. An old login there is only given up after asking once more.
    #[verifier::opaque]
    pub open spec fn logging_in_at(self, kind: SourceKind) -> AppModel {
        let there = if kind == self.state.config.sources.active {
            self
        } else {
            self.using_source(kind)
        };
        if self.known_at(kind) {
            there.asking(ConfirmAction::Relogin)
        } else {
            there.logging_in()
        }
    }

    /// The choice of the service is closed.
    pub open spec fn login_picker_closed(self) -> AppModel {
        self.asked(DialogsModel { login_picker: None, ..self.state.dialogs })
    }

    /// A key while it is asked where to log in: every key is taken.
    #[verifier::opaque]
    pub open spec fn login_picker_keyed(self, picker: LoginPickerModel, action: Action) -> AppModel {
        match action {
            Action::MoveDown => self.asked(
                DialogsModel { login_picker: Some(picker.moved(1)), ..self.state.dialogs },
            ),
            Action::MoveUp => self.asked(
                DialogsModel { login_picker: Some(picker.moved(-1)), ..self.state.dialogs },
            ),
            Action::Submit => match picker.chosen() {
                Some(kind) => self.login_picker_closed().logging_in_at(kind),
                None => self.login_picker_closed(),
            },
            Action::Cancel => self.login_picker_closed().told(StatusLevel::Info, "已取消登录"@),
            Action::Quit => self.quitting(false),
            Action::ForceQuit => self.quitting(true),
            _ => self,
        }
    }

    /// A code is asked for, as soon as it may be.
    #[verifier::opaque]
    pub open spec fn logging_in(self) -> AppModel {
        self.accounted(
            AccountModel {
                login: Some(panes::login_message("正在获取二维码…"@, false, false)),
                qr_held: false,
                ..self.state.account
            },
        ).ordering(OrderModel::AskQr)
    }

    /// A login waits for its code.
    pub open spec fn awaits_code(self) -> bool {
        match self.state.account.login {
            Some(login) => !login.finished && login.key.len() == 0,
            None => false,
        }
    }

    /// It is known what time it is: the code is asked for, or held back where the last one was asked
    /// for too lately.
    #[verifier::opaque]
    pub open spec fn code_due(self, now_ms: u64) -> AppModel {
        let account = self.state.account;
        if !self.awaits_code() {
            self
        } else if too_early(account.last_qr_key_ms, now_ms) {
            self.accounted(
                AccountModel {
                    login: Some(
                        panes::login_message("登录请求过于频繁，稍后自动获取二维码…"@, false, false),
                    ),
                    qr_held: true,
                    ..account
                },
            )
        } else {
            self.accounted(
                AccountModel {
                    login: Some(panes::login_message("正在获取二维码…"@, false, false)),
                    qr_held: false,
                    last_qr_key_ms: Some(now_ms),
                    ..account
                },
            ).ordering(OrderModel::FetchQr)
        }
    }

    /// It is asked what became of the code, where there is one; a code that was held back is asked
    /// for.
    #[verifier::opaque]
    pub open spec fn polling_login(self) -> AppModel {
        match self.state.account.login {
            Some(login) => if login.finished {
                self
            } else if login.key.len() == 0 {
                if self.state.account.qr_held {
                    self.ordering(OrderModel::AskQr)
                } else {
                    self
                }
            } else {
                self.ordering(OrderModel::CheckQr { key: login.key })
            },
            None => self,
        }
    }

    /// The user's profile is asked for, where there is a login.
    #[verifier::opaque]
    pub open spec fn asking_profile(self) -> AppModel {
        if self.state.account.logged_in {
            self.accounted(
                AccountModel { user_info_load: panes::busy(), ..self.state.account },
            ).ordering(OrderModel::FetchUser)
        } else {
            self
        }
    }

    /// The user's profile is asked for once more, unless it is on its way.
    #[verifier::opaque]
    pub open spec fn retrying_profile(self) -> AppModel {
        if self.state.account.user_info_load.loading {
            self
        } else {
            self.asking_profile()
        }
    }

    /// The user's profile could not be had.
    #[verifier::opaque]
    pub open spec fn profile_failed(self, error: ErrorModel) -> AppModel {
        self.accounted(
            AccountModel {
                user_info_load: LoadModel { loading: false, error: Some(error::hint(error)) },
                ..self.state.account
            },
        )
    }
}

// ---------------------------------------------------------------------------
// How it is done
// ---------------------------------------------------------------------------
impl App {
    /// Shows a choice of services, or none.
    fn set_login_picker(&mut self, picker: Option<LoginPicker>) -> (r: Option<LoginPicker>)
        requires
            old(self).deep_view().wf(),
        ensures
            login_picker_model(r) == old(self).deep_view().state.dialogs.login_picker,
            final(self).deep_view() == old(self).deep_view().asked(
                DialogsModel {
                    login_picker: login_picker_model(picker),
                    ..old(self).deep_view().state.dialogs
                },
            ),
            final(self).deep_view().wf(),
    {
        proof {
            reveal(AppModel::wf);
            reveal(dialogs_model);
        }
        let mut picker = picker;
        std::mem::swap(&mut picker, &mut self.state.dialogs.login_picker);
        picker
    }

    /// Whether a login is under way.
    fn login_runs(&self) -> (r: bool)
        ensures
            r == (self.deep_view().state.account.login is Some
                && !self.deep_view().state.account.login->0.finished),
    {
        proof {
            reveal(account_model);
        }
        match &self.state.account.login {
            Some(login) => !login.finished,
            None => false,
        }
    }

    /// Asks where to log in.
    pub(crate) fn start_login(&mut self)
        requires
            old(self).deep_view().wf(),
        ensures
            final(self).deep_view() == old(self).deep_view().wanting_login(),
            final(self).deep_view().wf(),
    {
        proof {
            reveal(AppModel::wanting_login);
            reveal(config_model);
        }
        if self.login_runs() {
            self.tell(StatusLevel::Info, "登录已在进行中，扫码或按 Esc 取消".to_owned());
        } else {
            let picker = LoginPicker::new(self.state.config.active_source_kind());
            let _ = self.set_login_picker(Some(picker));
        }
    }

    /// The service in use.
    fn active_kind(&self) -> (r: SourceKind)
        ensures
            r == self.deep_view().state.config.sources.active,
    {
        proof {
            reveal(config_model);
        }
        self.state.config.active_source_kind()
    }

    /// Whether there is a login at the service that was just taken into use.
    fn config_logged_in(&self) -> (r: bool)
        ensures
            r == self.deep_view().state.config.logged_in(),
    {
        proof {
            reveal(config_model);
        }
        self.state.config.is_logged_in()
    }

    /// Logs in at a service, after asking once more where there is a login.
    fn log_in_at(&mut self, kind: SourceKind)
        requires
            old(self).deep_view().wf(),
        ensures
            final(self).deep_view() == old(self).deep_view().logging_in_at(kind),
            final(self).deep_view().wf(),
    {
        proof {
            reveal(AppModel::logging_in_at);
        }
        let known = if kind == self.active_kind() {
            self.logged_in()
        } else {
            self.use_source(kind);
            proof {
                reveal(AppModel::using_source);
                reveal(AppModel::ordering);
            }
            self.config_logged_in()
        };
        if known {
            self.ask(ConfirmAction::Relogin);
        } else {
            self.begin_login();
        }
    }

    /// Selects another service.
    fn move_login_picker(&mut self, delta: isize)
        requires
            old(self).deep_view().wf(),
            old(self).deep_view().state.dialogs.login_picker is Some,
        ensures
            final(self).deep_view() == old(self).deep_view().asked(
                DialogsModel {
                    login_picker: Some(
                        old(self).deep_view().state.dialogs.login_picker->0.moved(delta as int),
                    ),
                    ..old(self).deep_view().state.dialogs
                },
            ),
            final(self).deep_view().wf(),
    {
        proof {
            reveal(AppModel::wf);
            reveal(dialogs_model);
        }
        if let Some(picker) = &mut self.state.dialogs.login_picker {
            picker.move_by(delta);
        }
    }

    /// Takes a key while it is asked where to log in.
    pub(crate) fn handle_login_picker_action(&mut self, action: Action)
        requires
            old(self).deep_view().wf(),
            old(self).deep_view().state.dialogs.login_picker is Some,
        ensures
            final(self).deep_view() == old(self).deep_view().login_picker_keyed(
                old(self).deep_view().state.dialogs.login_picker->0,
                action,
            ),
            final(self).deep_view().wf(),
    {
        proof {
            reveal(AppModel::login_picker_keyed);
        }
        match action {
            Action::MoveDown => self.move_login_picker(1),
            Action::MoveUp => self.move_login_picker(-1),
            Action::Submit => {
                if let Some(picker) = self.set_login_picker(None) {
                    if let Some(kind) = picker.selected() {
                        self.log_in_at(kind);
                    }
                }
            },
            Action::Cancel => {
                let _ = self.set_login_picker(None);
                self.tell(StatusLevel::Info, "已取消登录".to_owned());
            },
            Action::Quit => self.quit(false),
            Action::ForceQuit => self.quit(true),
            _ => {},
        }
    }

    /// Asks for a code, as soon as it may be.
    pub(crate) fn begin_login(&mut self)
        requires
            old(self).deep_view().wf(),
        ensures
            final(self).deep_view() == old(self).deep_view().logging_in(),
            final(self).deep_view().wf(),
    {
        proof {
            reveal(AppModel::wf);
            reveal(AppModel::logging_in);
            reveal(account_model);
        }
        self.state.account.login = Some(
            LoginState::with_message("正在获取二维码…".to_owned(), false, false),
        );
        self.state.account.qr_held = false;
        self.order(Order::AskQr);
    }

    /// Whether a login waits for its code.
    fn code_awaited(&self) -> (r: bool)
        ensures
            r == self.deep_view().awaits_code(),
    {
        proof {
            reveal(account_model);
        }
        match &self.state.account.login {
            Some(login) => !login.finished && login.key.as_str().is_empty(),
            None => false,
        }
    }

    /// Asks for the code, now that it is known what time it is, or holds it back.
    pub fn request_code(&mut self, now_ms: u64)
        requires
            old(self).deep_view().wf(),
        ensures
            final(self).deep_view() == old(self).deep_view().code_due(now_ms),
            final(self).deep_view().wf(),
    {
        proof {
            reveal(AppModel::wf);
            reveal(AppModel::code_due);
            reveal(account_model);
        }
        if !self.code_awaited() {
            return ;
        }
        let early = match self.state.account.last_qr_key_ms {
            Some(last) => (now_ms as u128) < last as u128 + QR_INTERVAL_MS as u128,
            None => false,
        };
        if early {
            self.state.account.login = Some(
                LoginState::with_message(
                    "登录请求过于频繁，稍后自动获取二维码…".to_owned(),
                    false,
                    false,
                ),
            );
            self.state.account.qr_held = true;
        } else {
            self.state.account.login = Some(
                LoginState::with_message("正在获取二维码…".to_owned(), false, false),
            );
            self.state.account.qr_held = false;
            self.state.account.last_qr_key_ms = Some(now_ms);
            self.order(Order::FetchQr);
        }
    }

    /// Asks what became of the code, or for one that was held back.
    pub(crate) fn poll_login(&mut self)
        requires
            old(self).deep_view().wf(),
        ensures
            final(self).deep_view() == old(self).deep_view().polling_login(),
            final(self).deep_view().wf(),
    {
        proof {
            reveal(AppModel::polling_login);
            reveal(account_model);
        }
        let key = match &self.state.account.login {
            Some(login) => if login.finished {
                return ;
            } else {
                login.key.clone()
            },
            None => {
                return ;
            },
        };
        if key.as_str().is_empty() {
            if self.state.account.qr_held {
                self.order(Order::AskQr);
            }
        } else {
            self.order(Order::CheckQr { key });
        }
    }

    /// Takes in that the profile is on its way.
    fn begin_profile(&mut self)
        requires
            old(self).deep_view().wf(),
        ensures
            final(self).deep_view() == old(self).deep_view().accounted(
                AccountModel {
                    user_info_load: panes::busy(),
                    ..old(self).deep_view().state.account
                },
            ),
            final(self).deep_view().wf(),
    {
        proof {
            reveal(AppModel::wf);
            reveal(account_model);
        }
        self.state.account.user_info_load.begin();
    }

    /// Asks for the user's profile.
    pub(crate) fn fetch_profile(&mut self)
        requires
            old(self).deep_view().wf(),
        ensures
            final(self).deep_view() == old(self).deep_view().asking_profile(),
            final(self).deep_view().wf(),
    {
        proof {
            reveal(AppModel::asking_profile);
        }
        if self.logged_in() {
            self.begin_profile();
            self.order(Order::FetchUser);
        }
    }

    /// Asks for the user's profile once more.
    pub(crate) fn retry_profile(&mut self)
        requires
            old(self).deep_view().wf(),
        ensures
            final(self).deep_view() == old(self).deep_view().retrying_profile(),
            final(self).deep_view().wf(),
    {
        proof {
            reveal(AppModel::retrying_profile);
            reveal(account_model);
        }
        if !self.state.account.user_info_load.is_loading() {
            self.fetch_profile();
        }
    }

    /// Takes in that the user's profile could not be had.
    pub(crate) fn take_profile_failure(&mut self, error: AppError)
        requires
            old(self).deep_view().wf(),
        ensures
            final(self).deep_view() == old(self).deep_view().profile_failed(error.deep_view()),
            final(self).deep_view().wf(),
    {
        proof {
            reveal(AppModel::wf);
            reveal(AppModel::profile_failed);
            reveal(account_model);
        }
        let reason = error.user_hint();
        self.state.account.user_info_load.fail(reason.as_str());
    }
}

// ---------------------------------------------------------------------------
// Laws
// ---------------------------------------------------------------------------
/// Wanting to log in asks for nothing and changes no login; and a login that is there is never given
/// up without asking once more, at whichever service.
pub proof fn logins_are_not_lost_by_one_key(app: AppModel, kind: SourceKind)
    requires
        app.known_at(kind),
    ensures
        app.wanting_login().orders == app.orders,
        app.wanting_login().state.config == app.state.config,
        app.wanting_login().state.account == app.state.account,
        app.logging_in_at(kind).state.dialogs.pending_confirm == Some(ConfirmAction::Relogin),
        app.logging_in_at(kind).state.account == app.state.account,
{
    reveal(AppModel::wanting_login);
    reveal(AppModel::logging_in_at);
    reveal(AppModel::using_source);
    reveal(AppModel::asking);
    reveal(AppModel::ordering);
    reveal(AppModel::told);
}

/// A login is kept at the service that was chosen: it is the one in use from then on.
pub proof fn logins_go_where_they_belong(app: AppModel, kind: SourceKind)
    ensures
        app.logging_in_at(kind).state.config.sources.active == kind,
{
    reveal(AppModel::logging_in_at);
    reveal(AppModel::using_source);
    reveal(AppModel::logging_in);
    reveal(AppModel::asking);
    reveal(AppModel::ordering);
}

/// Codes keep their distance: after one was asked for, no other is asked for before the interval is
/// over; what is held back is asked for when it is.
pub proof fn codes_keep_their_distance(app: AppModel, first_ms: u64, again: AppModel, now_ms: u64)
    requires
        app.awaits_code(),
        !too_early(app.state.account.last_qr_key_ms, first_ms),
        again.state.account.last_qr_key_ms == app.code_due(
            first_ms,
        ).state.account.last_qr_key_ms,
    ensures
        app.code_due(first_ms).orders == app.orders.push(OrderModel::FetchQr),
        now_ms < first_ms + QR_INTERVAL_MS ==> again.code_due(now_ms).orders == again.orders,
        now_ms < first_ms + QR_INTERVAL_MS && again.awaits_code() ==> again.code_due(
            now_ms,
        ).polling_login().orders == again.orders.push(OrderModel::AskQr),
        now_ms >= first_ms + QR_INTERVAL_MS && again.awaits_code() ==> again.code_due(
            now_ms,
        ).orders == again.orders.push(OrderModel::FetchQr),
{
    reveal(AppModel::code_due);
    reveal(AppModel::polling_login);
    reveal(AppModel::ordering);
}

/// A profile that could not be had can be asked for once more, and only then: while it is on its way
/// nothing is asked for.
pub proof fn failed_profiles_can_be_retried(app: AppModel, error: ErrorModel)
    requires
        app.state.account.logged_in,
    ensures
        !app.profile_failed(error).state.account.user_info_load.loading,
        app.profile_failed(error).retrying_profile().orders == app.orders.push(
            OrderModel::FetchUser,
        ),
        app.profile_failed(error).retrying_profile().retrying_profile()
            == app.profile_failed(error).retrying_profile(),
{
    reveal(AppModel::profile_failed);
    reveal(AppModel::retrying_profile);
    reveal(AppModel::asking_profile);
    reveal(AppModel::ordering);
}

} // verus!
