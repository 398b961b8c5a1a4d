//! The page of services, and the membership that one of them grants every day.
use vstd::prelude::*;
use crate::config::ConfigModel;
use crate::order::{Order, OrderModel};
use crate::source::{ProfileModel, SourceKind, SourceSet, SourcesModel};
use crate::state::{
    account_model, config_model, pages_model, screen_model, AccountModel, PagesModel,
};
use crate::tab::{StatusLevel, Tab};
use crate::text;
use crate::update::{App, AppModel};

verus! {

// ---------------------------------------------------------------------------
// Their order
// ---------------------------------------------------------------------------
/// 1 for what holds.
pub open spec fn one_if(holds: bool) -> int {
    if holds {
        1
    } else {
        0
    }
}

impl SourcesModel {
    /// The row of a service: how many come before it.
    pub open spec fn row(self, kind: SourceKind) -> int {
        one_if(self.before(SourceKind::Kugou, kind)) + one_if(
            self.before(SourceKind::KugouConcept, kind),
        ) + one_if(self.before(SourceKind::Netease, kind))
    }

    /// The service in a row.
    pub open spec fn at_row(self, row: int) -> Option<SourceKind> {
        if self.row(SourceKind::Kugou) == row {
            Some(SourceKind::Kugou)
        } else if self.row(SourceKind::KugouConcept) == row {
            Some(SourceKind::KugouConcept)
        } else if self.row(SourceKind::Netease) == row {
            Some(SourceKind::Netease)
        } else {
            None
        }
    }

    /// The row of `kind` after the services in two rows have changed places.
    pub open spec fn row_after(self, kind: SourceKind, first: int, second: int) -> int {
        if self.row(kind) == first {
            second
        } else if self.row(kind) == second {
            first
        } else {
            self.row(kind)
        }
    }

    /// The profile of `kind` after that: priorities are ten apart.
    pub open spec fn profile_after(self, kind: SourceKind, first: int, second: int) -> ProfileModel {
        ProfileModel {
            priority: (10 * self.row_after(kind, first, second)) as u32,
            ..self.profile(kind)
        }
    }

    /// The services in two rows have changed places.
    pub open spec fn exchanged(self, first: int, second: int) -> SourcesModel {
        SourcesModel {
            kugou: self.profile_after(SourceKind::Kugou, first, second),
            kugou_concept: self.profile_after(SourceKind::KugouConcept, first, second),
            netease: self.profile_after(SourceKind::Netease, first, second),
            ..self
        }
    }
}

impl SourceSet {
    /// How many services come before this one.
    pub fn row_of(&self, kind: SourceKind) -> (r: usize)
        ensures
            r == self.deep_view().row(kind),
            r < 3,
    {
        let mut row: usize = 0;
        if self.comes_before(SourceKind::Kugou, kind) {
            row += 1;
        }
        if self.comes_before(SourceKind::KugouConcept, kind) {
            row += 1;
        }
        if self.comes_before(SourceKind::Netease, kind) {
            row += 1;
        }
        row
    }

    /// The service in a row.
    pub fn kind_at(&self, row: usize) -> (r: Option<SourceKind>)
        ensures
            r == self.deep_view().at_row(row as int),
    {
        if self.row_of(SourceKind::Kugou) == row {
            Some(SourceKind::Kugou)
        } else if self.row_of(SourceKind::KugouConcept) == row {
            Some(SourceKind::KugouConcept)
        } else if self.row_of(SourceKind::Netease) == row {
            Some(SourceKind::Netease)
        } else {
            None
        }
    }

    /// The priority of `kind` after the services in two rows have changed places.
    fn priority_after(&self, kind: SourceKind, first: usize, second: usize) -> (r: u32)
        requires
            first < 3,
            second < 3,
        ensures
            r == 10 * self.deep_view().row_after(kind, first as int, second as int),
    {
        let row: usize = self.row_of(kind);
        let row: usize = if row == first {
            second
        } else if row == second {
            first
        } else {
            row
        };
        10 * row as u32
    }

    /// Lets the services in two rows change places.
    pub fn exchange(&mut self, first: usize, second: usize)
        requires
            first < 3,
            second < 3,
        ensures
            final(self).deep_view() == old(self).deep_view().exchanged(first as int, second as int),
    {
        let kugou: u32 = self.priority_after(SourceKind::Kugou, first, second);
        let concept: u32 = self.priority_after(SourceKind::KugouConcept, first, second);
        let netease: u32 = self.priority_after(SourceKind::Netease, first, second);
        self.kugou.priority = kugou;
        self.kugou_concept.priority = concept;
        self.netease.priority = netease;
    }
}

// ---------------------------------------------------------------------------
// What is decided
// ---------------------------------------------------------------------------
/// The row to which a service goes when it is raised or lowered.
pub open spec fn row_beside(row: int, up: bool) -> int {
    if up {
        row - 1
    } else {
        row + 1
    }
}

impl AppModel {
    /// The service that is selected on the page of services, while that page is shown.
    pub open spec fn chosen_source(self) -> Option<SourceKind> {
        if self.state.screen.tab == Tab::Sources {
            self.state.config.sources.at_row(
                match self.state.pages.sources_cursor {
                    Some(row) => row as int,
                    None => 0,
                },
            )
        } else {
            None
        }
    }

    /// The selected service is the one to use.
    #[verifier::opaque]
    pub open spec fn preferring_source(self) -> AppModel {
        match self.chosen_source() {
            None => self.told(StatusLevel::Warning, "请先在「音源」页选中一个音源"@),
            Some(kind) => if kind == self.state.config.sources.active {
                self.told(StatusLevel::Info, "「"@ + kind.label_text() + "」已经是默认音源"@)
            } else {
                self.using_source(kind)
            },
        }
    }

    /// The selected service changes places with the one in front of it, or behind it, and stays
    /// selected.
    #[verifier::opaque]
    pub open spec fn moving_source(self, up: bool) -> AppModel {
        let config = self.state.config;
        match self.chosen_source() {
            None => self.told(StatusLevel::Warning, "请先在「音源」页选中一个音源"@),
            Some(kind) => {
                let row = config.sources.row(kind);
                let target = row_beside(row, up);
                if 0 <= target < 3 {
                    self.configured(
                        ConfigModel { sources: config.sources.exchanged(row, target), ..config },
                    ).paged(
                        PagesModel { sources_cursor: Some(target as usize), ..self.state.pages },
                    ).ordering(OrderModel::SaveConfig).told(
                        StatusLevel::Success,
                        "已调整「"@ + kind.label_text() + "」的优先级"@,
                    )
                } else {
                    self.told(
                        StatusLevel::Info,
                        "「"@ + kind.label_text() + (if up {
                            "」已经排在最前"@
                        } else {
                            "」已经排在最后"@
                        }),
                    )
                }
            },
        }
    }

    /// It is known which day it is: its membership is claimed, where it can be and has not been yet.
    /// Why it is not is told only where the user has asked.
    #[verifier::opaque]
    pub open spec fn claiming(self, day: Seq<char>, manual: bool) -> AppModel {
        match self.claim_refusal(day) {
            Some(why) => if manual {
                self.told(why.0, why.1)
            } else {
                self
            },
            None => self.accounted(
                AccountModel { vip_claiming: true, ..self.state.account },
            ).ordering(OrderModel::ClaimVip { day }),
        }
    }

    /// Why the membership of a day is not claimed.
    pub open spec fn claim_refusal(self, day: Seq<char>) -> Option<(StatusLevel, Seq<char>)> {
        let account = self.state.account;
        if self.state.config.sources.active != SourceKind::KugouConcept {
            Some((StatusLevel::Warning, "只有酷狗概念版音源能领取每日 VIP，按 v 切换音源"@))
        } else if !self.state.config.logged_in() {
            Some((StatusLevel::Warning, "领取 VIP 需要登录，按 L 扫码登录"@))
        } else if account.vip_claiming {
            Some((StatusLevel::Info, "正在领取今日 VIP…"@))
        } else if account.vip_claimed_day == Some(day) {
            Some((StatusLevel::Info, "今天的 VIP 已经领过了"@))
        } else {
            None
        }
    }

    /// The membership of a day was claimed.
    #[verifier::opaque]
    pub open spec fn claimed(self, day: Seq<char>) -> AppModel {
        self.accounted(
            AccountModel {
                vip_claiming: false,
                vip_claimed_day: Some(day),
                ..self.state.account
            },
        ).ordering(OrderModel::FetchVip).told(StatusLevel::Success, "已领取今日概念版 VIP"@)
    }

    /// The membership of a day could not be claimed.
    #[verifier::opaque]
    pub open spec fn not_claimed(self, message: Seq<char>) -> AppModel {
        self.accounted(AccountModel { vip_claiming: false, ..self.state.account }).told(
            StatusLevel::Warning,
            "领取今日 VIP 失败："@ + message,
        )
    }
}

impl App {
    /// The service that is selected on the page of services.
    fn selected_source(&self) -> (r: Option<SourceKind>)
        ensures
            r == self.deep_view().chosen_source(),
    {
        proof {
            reveal(screen_model);
            reveal(pages_model);
            reveal(config_model);
        }
        if self.state.screen.tab != Tab::Sources {
            return None;
        }
        let row: usize = match self.state.pages.sources_cursor.selected() {
            Some(row) => row,
            None => 0,
        };
        self.state.config.sources.kind_at(row)
    }

    /// Uses the selected service.
    pub(crate) fn set_default_source(&mut self)
        requires
            old(self).deep_view().wf(),
        ensures
            final(self).deep_view() == old(self).deep_view().preferring_source(),
            final(self).deep_view().wf(),
    {
        proof {
            reveal(AppModel::preferring_source);
            reveal(config_model);
        }
        match self.selected_source() {
            None => self.tell(StatusLevel::Warning, "请先在「音源」页选中一个音源".to_owned()),
            Some(kind) => {
                if kind == self.state.config.active_source_kind() {
                    self.tell(
                        StatusLevel::Info,
                        text::join3("「", kind.label(), "」已经是默认音源"),
                    );
                } else {
                    self.use_source(kind);
                }
            },
        }
    }

    /// Lets the services in two rows change places, and selects the second row.
    fn exchange_sources(&mut self, row: usize, target: usize)
        requires
            old(self).deep_view().wf(),
            row < 3,
            target < 3,
        ensures
            final(self).deep_view() == old(self).deep_view().configured(
                ConfigModel {
                    sources: old(self).deep_view().state.config.sources.exchanged(
                        row as int,
                        target as int,
                    ),
                    ..old(self).deep_view().state.config
                },
            ).paged(
                PagesModel {
                    sources_cursor: Some(target),
                    ..old(self).deep_view().state.pages
                },
            ),
            final(self).deep_view().wf(),
    {
        proof {
            reveal(AppModel::wf);
            reveal(config_model);
            reveal(pages_model);
        }
        self.state.config.sources.exchange(row, target);
        self.state.pages.sources_cursor.select(Some(target));
    }

    /// Raises or lowers the selected service.
    pub(crate) fn move_source(&mut self, up: bool)
        requires
            old(self).deep_view().wf(),
        ensures
            final(self).deep_view() == old(self).deep_view().moving_source(up),
            final(self).deep_view().wf(),
    {
        proof {
            reveal(AppModel::moving_source);
            reveal(config_model);
        }
        let kind = match self.selected_source() {
            Some(kind) => kind,
            None => {
                self.tell(StatusLevel::Warning, "请先在「音源」页选中一个音源".to_owned());
                return ;
            },
        };
        let row: usize = self.state.config.sources.row_of(kind);
        if up && row == 0 {
            self.tell(StatusLevel::Info, text::join3("「", kind.label(), "」已经排在最前"));
            return ;
        }
        if !up && row == 2 {
            self.tell(StatusLevel::Info, text::join3("「", kind.label(), "」已经排在最后"));
            return ;
        }
        let target: usize = if up {
            row - 1
        } else {
            row + 1
        };
        self.exchange_sources(row, target);
        self.order(Order::SaveConfig);
        self.tell(StatusLevel::Success, text::join3("已调整「", kind.label(), "」的优先级"));
    }

    /// Why the membership of a day is not claimed.
    fn why_not_claim(&self, day: &str) -> (r: Option<(StatusLevel, &'static str)>)
        ensures
            match r {
                Some(why) => self.deep_view().claim_refusal(day@) == Some((why.0, why.1@)),
                None => self.deep_view().claim_refusal(day@) is None,
            },
    {
        proof {
            reveal(account_model);
            reveal(config_model);
        }
        if self.state.config.active_source_kind() != SourceKind::KugouConcept {
            return Some(
                (StatusLevel::Warning, "只有酷狗概念版音源能领取每日 VIP，按 v 切换音源"),
            );
        }
        if !self.state.config.is_logged_in() {
            return Some((StatusLevel::Warning, "领取 VIP 需要登录，按 L 扫码登录"));
        }
        if self.state.account.vip_claiming {
            return Some((StatusLevel::Info, "正在领取今日 VIP…"));
        }
        if let Some(last) = &self.state.account.vip_claimed_day {
            if text::same(last.as_str(), day) {
                return Some((StatusLevel::Info, "今天的 VIP 已经领过了"));
            }
        }
        None
    }

    /// Takes in whether a claim is under way.
    fn set_claiming(&mut self, claiming: bool)
        requires
            old(self).deep_view().wf(),
        ensures
            final(self).deep_view() == old(self).deep_view().accounted(
                AccountModel {
                    vip_claiming: claiming,
                    ..old(self).deep_view().state.account
                },
            ),
            final(self).deep_view().wf(),
    {
        proof {
            reveal(AppModel::wf);
            reveal(account_model);
        }
        self.state.account.vip_claiming = claiming;
    }

    /// Claims the membership of the day, now that it is known which day it is.
    pub fn claim_vip(&mut self, day: &str, manual: bool)
        requires
            old(self).deep_view().wf(),
        ensures
            final(self).deep_view() == old(self).deep_view().claiming(day@, manual),
            final(self).deep_view().wf(),
    {
        proof {
            reveal(AppModel::claiming);
        }
        match self.why_not_claim(day) {
            Some(why) => {
                if manual {
                    self.tell(why.0, why.1.to_owned());
                }
            },
            None => {
                self.set_claiming(true);
                self.order(Order::ClaimVip { day: day.to_owned() });
            },
        }
    }

    /// Remembers the day whose membership was claimed.
    fn keep_claim(&mut self, day: String)
        requires
            old(self).deep_view().wf(),
        ensures
            final(self).deep_view() == old(self).deep_view().accounted(
                AccountModel {
                    vip_claiming: false,
                    vip_claimed_day: Some(day@),
                    ..old(self).deep_view().state.account
                },
            ),
            final(self).deep_view().wf(),
    {
        proof {
            reveal(AppModel::wf);
            reveal(account_model);
        }
        self.state.account.vip_claiming = false;
        self.state.account.vip_claimed_day = Some(day);
    }

    /// Takes in that the membership of a day was claimed.
    pub(crate) fn take_claim(&mut self, day: String)
        requires
            old(self).deep_view().wf(),
        ensures
            final(self).deep_view() == old(self).deep_view().claimed(day@),
            final(self).deep_view().wf(),
    {
        proof {
            reveal(AppModel::claimed);
        }
        self.keep_claim(day);
        self.order(Order::FetchVip);
        self.tell(StatusLevel::Success, "已领取今日概念版 VIP".to_owned());
    }

    /// Takes in that the membership of a day could not be claimed.
    pub(crate) fn take_claim_failure(&mut self, message: String)
        requires
            old(self).deep_view().wf(),
        ensures
            final(self).deep_view() == old(self).deep_view().not_claimed(message@),
            final(self).deep_view().wf(),
    {
        proof {
            reveal(AppModel::not_claimed);
        }
        self.set_claiming(false);
        self.tell(StatusLevel::Warning, text::join2("领取今日 VIP 失败：", message.as_str()));
    }
}

// ---------------------------------------------------------------------------
// Laws
// ---------------------------------------------------------------------------
/// Every service has a row of its own, and every row a service.
pub proof fn every_service_has_a_row(sources: SourcesModel, kind: SourceKind, row: int)
    ensures
        0 <= sources.row(kind) < 3,
        sources.at_row(sources.row(kind)) == Some(kind),
        0 <= row < 3 ==> sources.at_row(row) is Some && sources.row(sources.at_row(row)->0) == row,
{
}

/// Raising a service lets it change places with the one in front of it and leaves the third where it
/// is; lowering it again restores the order. Addresses and logins stay.
pub proof fn lowering_undoes_raising(sources: SourcesModel, kind: SourceKind, other: SourceKind)
    requires
        sources.row(kind) > 0,
    ensures
        ({
            let row = sources.row(kind);
            let raised = sources.exchanged(row, row - 1);
            let back = raised.exchanged(row - 1, row);
            &&& raised.row(kind) == row - 1
            &&& sources.row(other) != row && sources.row(other) != row - 1 ==> raised.row(other)
                == sources.row(other)
            &&& back.row(other) == sources.row(other)
            &&& raised.profile(other).cookie == sources.profile(other).cookie
            &&& raised.profile(other).api_base == sources.profile(other).api_base
            &&& raised.active == sources.active
        }),
{
}

/// The membership of a day is claimed once: after it has been, the same day orders nothing, whoever
/// asks; and while a claim is under way there is no second one.
pub proof fn a_day_is_claimed_once(app: AppModel, day: Seq<char>, manual: bool)
    ensures
        app.claimed(day).claiming(day, manual).orders == app.claimed(day).orders,
        app.state.account.vip_claiming ==> app.claiming(day, manual).orders == app.orders,
{
    reveal(AppModel::claiming);
    reveal(AppModel::claimed);
    reveal(AppModel::told);
    reveal(AppModel::ordering);
}

} // verus!
