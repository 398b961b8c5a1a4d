//! The music services: what each can do, where it answers and under whose name it is asked.
//!
//! The services share nothing: an address, a login and a device print belong to one of them and
//! are exchanged together when another is chosen.
use vstd::prelude::*;
use crate::error::{AppError, ErrorModel};
use crate::model::{Song, SongModel};
use crate::text;

verus! {

/// A music service.
#[derive(Debug, Clone, Copy, PartialEq, Eq, Structural)]
pub enum SourceKind {
    /// Kugou, the standard edition.
    Kugou,
    /// Kugou, the concept edition.
    KugouConcept,
    /// Netease Cloud Music.
    Netease,
}

/// What a service can do.
#[derive(Debug, Clone, Copy, PartialEq, Eq, Structural)]
pub struct Capability {
    /// Songs can be played.
    pub stream: bool,
    /// Lyrics can be fetched.
    pub lyric: bool,
    /// Search results carry the address of a cover.
    pub cover: bool,
    /// A login by QR code exists.
    pub login: bool,
    /// The login is held by the client, which has to store it.
    pub client_token: bool,
    /// Playlists, artists and charts can be browsed.
    pub catalog: bool,
    /// The user's own playlists can be read and written.
    pub cloud: bool,
}

impl Default for SourceKind {
    fn default() -> (r: Self)
        ensures
            r == SourceKind::Kugou,
    {
        SourceKind::Kugou
    }
}

/// The place of a service in [`SourceKind::ALL`].
pub open spec fn rank(kind: SourceKind) -> int {
    match kind {
        SourceKind::Kugou => 0,
        SourceKind::KugouConcept => 1,
        SourceKind::Netease => 2,
    }
}

/// The services in the order in which they are declared.
pub open spec fn all_kinds() -> Seq<SourceKind> {
    seq![SourceKind::Kugou, SourceKind::KugouConcept, SourceKind::Netease]
}

impl SourceKind {
    /// The services in the order in which they are declared.
    pub const ALL: [SourceKind; 3] = [
        SourceKind::Kugou,
        SourceKind::KugouConcept,
        SourceKind::Netease,
    ];

    /// The place of this service in [`SourceKind::ALL`].
    pub fn position(self) -> (r: usize)
        ensures
            r == rank(self),
            r < 3,
            all_kinds()[r as int] == self,
    {
        match self {
            SourceKind::Kugou => 0,
            SourceKind::KugouConcept => 1,
            SourceKind::Netease => 2,
        }
    }

    /// The service after this one, the first after the last.
    pub fn next(self) -> (r: SourceKind)
        ensures
            r == all_kinds()[(rank(self) + 1) % 3],
    {
        match self {
            SourceKind::Kugou => SourceKind::KugouConcept,
            SourceKind::KugouConcept => SourceKind::Netease,
            SourceKind::Netease => SourceKind::Kugou,
        }
    }

    /// The name shown for a service.
    pub open spec fn label_text(self) -> Seq<char> {
        match self {
            SourceKind::Kugou => "酷狗"@,
            SourceKind::KugouConcept => "酷狗概念版"@,
            SourceKind::Netease => "网易云"@,
        }
    }

    /// The name shown for this service.
    pub fn label(self) -> (r: &'static str)
        ensures
            r@ == self.label_text(),
    {
        match self {
            SourceKind::Kugou => "酷狗",
            SourceKind::KugouConcept => "酷狗概念版",
            SourceKind::Netease => "网易云",
        }
    }

    /// What this service can do: both editions of Kugou everything; Netease no browsing, and its
    /// login is held by the server.
    pub fn capability(self) -> (r: Capability)
        ensures
            r.stream && r.lyric && r.cover && r.login && r.cloud,
            r.client_token == (self != SourceKind::Netease),
            r.catalog == (self != SourceKind::Netease),
    {
        match self {
            SourceKind::Kugou | SourceKind::KugouConcept => Capability {
                stream: true,
                lyric: true,
                cover: true,
                login: true,
                client_token: true,
                catalog: true,
                cloud: true,
            },
            SourceKind::Netease => Capability {
                stream: true,
                lyric: true,
                cover: true,
                login: true,
                client_token: false,
                catalog: false,
                cloud: true,
            },
        }
    }

    /// The address at which the service answers unless told otherwise.
    pub open spec fn default_base(self) -> Seq<char> {
        match self {
            SourceKind::Kugou => "http://127.0.0.1:3000"@,
            SourceKind::KugouConcept => "http://127.0.0.1:3001"@,
            SourceKind::Netease => "http://127.0.0.1:3002"@,
        }
    }

    /// The address at which this service answers unless told otherwise.
    pub fn default_api_base(self) -> (r: &'static str)
        ensures
            r@ == self.default_base(),
    {
        match self {
            SourceKind::Kugou => "http://127.0.0.1:3000",
            SourceKind::KugouConcept => "http://127.0.0.1:3001",
            SourceKind::Netease => "http://127.0.0.1:3002",
        }
    }

    /// The value of `platform` that the server of this service needs, if it needs one.
    pub fn platform_env(self) -> (r: Option<&'static str>)
        ensures
            r is Some <==> self == SourceKind::KugouConcept,
            r matches Some(value) ==> value@ == "lite"@,
    {
        match self {
            SourceKind::KugouConcept => Some("lite"),
            _ => None,
        }
    }

    /// Whether this service wants a device print.
    pub fn uses_device_fingerprint(self) -> (r: bool)
        ensures
            r == (self != SourceKind::Netease),
    {
        match self {
            SourceKind::Kugou | SourceKind::KugouConcept => true,
            SourceKind::Netease => false,
        }
    }

    /// The name of the phone app that scans the login code of a service.
    pub open spec fn scan_app_text(self) -> Seq<char> {
        match self {
            SourceKind::Kugou | SourceKind::KugouConcept => "酷狗"@,
            SourceKind::Netease => "网易云音乐"@,
        }
    }

    /// The phone app that scans the login code of this service.
    pub fn scan_app(self) -> (r: &'static str)
        ensures
            r@ == self.scan_app_text(),
    {
        match self {
            SourceKind::Kugou | SourceKind::KugouConcept => "酷狗",
            SourceKind::Netease => "网易云音乐",
        }
    }

    /// The server project that speaks for this service.
    pub fn service_name(self) -> (r: &'static str)
        ensures
            self == SourceKind::Netease ==> r@ == "NeteaseCloudMusicApi"@,
            self != SourceKind::Netease ==> r@ == "KuGouMusicApi"@,
    {
        match self {
            SourceKind::Kugou | SourceKind::KugouConcept => "KuGouMusicApi",
            SourceKind::Netease => "NeteaseCloudMusicApi",
        }
    }
}

/// Taking the next service three times leads back, and every service is met on the way.
pub proof fn three_steps_lead_back(kind: SourceKind)
    ensures
        all_kinds()[(rank(all_kinds()[(rank(all_kinds()[(rank(kind) + 1) % 3]) + 1) % 3]) + 1) % 3]
            == kind,
        forall|other: SourceKind| #[trigger]
            rank(other) == rank(kind) || other == all_kinds()[(rank(kind) + 1) % 3] || other
                == all_kinds()[(rank(kind) + 2) % 3],
{
}

/// How one service is reached and under whose name.
#[derive(Debug)]
pub struct SourceProfile {
    /// The address of the server.
    pub api_base: String,
    /// The login, such as `token=xxx; userid=xxx`.
    pub cookie: Option<String>,
    /// The device print.
    pub device_id: Option<String>,
    /// Services that are not enabled are left out when stepping from one to the next.
    pub enabled: bool,
    /// The smaller number comes first.
    pub priority: u32,
}

#[verifier::ext_equal]
pub struct ProfileModel {
    pub api_base: Seq<char>,
    pub cookie: Option<Seq<char>>,
    pub device_id: Option<Seq<char>>,
    pub enabled: bool,
    pub priority: u32,
}

impl DeepView for SourceProfile {
    type V = ProfileModel;

    open spec fn deep_view(&self) -> ProfileModel {
        ProfileModel {
            api_base: self.api_base@,
            cookie: self.cookie.deep_view(),
            device_id: self.device_id.deep_view(),
            enabled: self.enabled,
            priority: self.priority,
        }
    }
}

impl Default for SourceProfile {
    /// An unset profile counts as enabled.
    fn default() -> (r: Self)
        ensures
            r.api_base@.len() == 0,
            r.cookie is None,
            r.device_id is None,
            r.enabled,
            r.priority == 0,
    {
        SourceProfile {
            api_base: String::new(),
            cookie: None,
            device_id: None,
            enabled: true,
            priority: 0,
        }
    }
}

/// Whether one part of a cookie text names a device print.
pub open spec fn names_device(part: Seq<char>) -> bool {
    text::begins(text::trimmed(part), "dfid="@)
}

/// Whether a cookie text already holds a device print.
pub open spec fn holds_device(cookie: Seq<char>) -> bool {
    exists|i: int|
        0 <= i < text::pieces(cookie, seq![';']).len() && names_device(
            #[trigger] text::pieces(cookie, seq![';'])[i],
        )
}

/// The text sent as cookie: the login without the white space around it, with the device print
/// behind it unless it is there already; nothing where neither exists.
pub open spec fn cookie_text(
    cookie: Option<Seq<char>>,
    device_id: Option<Seq<char>>,
) -> Option<Seq<char>> {
    let base = match cookie {
        Some(c) => text::trimmed(c),
        None => Seq::empty(),
    };
    match device_id {
        Some(id) => if base.len() == 0 {
            Some("dfid="@ + id)
        } else if holds_device(base) {
            Some(base)
        } else {
            Some(base + "; dfid="@ + id)
        },
        None => if base.len() == 0 {
            None
        } else {
            Some(base)
        },
    }
}

impl SourceProfile {
    /// The profile of a service of which nothing is known yet.
    pub fn new(kind: SourceKind) -> (r: Self)
        ensures
            r.api_base@ == kind.default_base(),
            r.cookie is None,
            r.device_id is None,
            r.enabled,
            r.priority == 10 * rank(kind),
    {
        SourceProfile {
            api_base: kind.default_api_base().to_owned(),
            cookie: None,
            device_id: None,
            enabled: true,
            priority: kind.position() as u32 * 10,
        }
    }

    /// The text to send as cookie, from the credentials of this profile.
    pub fn cookie_header(&self) -> (r: Option<String>)
        ensures
            r.deep_view() == cookie_text(self.cookie.deep_view(), self.device_id.deep_view()),
    {
        cookie_header(&self.cookie, &self.device_id)
    }
}

/// The text to send as cookie, from a login and a device print.
pub fn cookie_header(cookie: &Option<String>, device_id: &Option<String>) -> (r: Option<String>)
    ensures
        r.deep_view() == cookie_text(cookie.deep_view(), device_id.deep_view()),
{
    let base = match cookie {
        Some(c) => text::trim_text(c.as_str()),
        None => String::new(),
    };
    proof {
        assert(cookie is None ==> base@ =~= Seq::<char>::empty());
    }
    match device_id {
        Some(id) => if base.as_str().is_empty() {
            Some(text::join2("dfid=", id.as_str()))
        } else if has_device(base.as_str()) {
            Some(base)
        } else {
            Some(text::join3(base.as_str(), "; dfid=", id.as_str()))
        },
        None => if base.as_str().is_empty() {
            None
        } else {
            Some(base)
        },
    }
}

/// Whether a cookie text already holds a device print.
fn has_device(cookie: &str) -> (r: bool)
    ensures
        r == holds_device(cookie@),
{
    let chars = text::to_chars(cookie);
    let separators = [';'];
    let parts = text::split(chars.as_slice(), &separators);
    let ghost all = text::pieces(cookie@, seq![';']);
    proof {
        assert(separators@ =~= seq![';']);
    }
    let mark = text::to_chars("dfid=");
    let mut i: usize = 0;
    while i < parts.len()
        invariant
            i <= parts@.len(),
            text::rows(parts@) == all,
            all == text::pieces(cookie@, seq![';']),
            mark@ == "dfid="@,
            forall|k: int| 0 <= k < i ==> !names_device(#[trigger] all[k]),
        decreases parts@.len() - i,
    {
        let part = text::trim(parts[i].as_slice());
        proof {
            assert(all[i as int] == parts@[i as int]@);
        }
        if text::is_at(part, mark.as_slice(), 0) {
            proof {
                assert(names_device(all[i as int]));
            }
            return true;
        }
        i += 1;
    }
    false
}

/// The profiles of all services, and which of them is in use.
#[derive(Debug)]
pub struct SourceSet {
    pub kugou: SourceProfile,
    pub kugou_concept: SourceProfile,
    pub netease: SourceProfile,
    /// The service in use.
    pub active: SourceKind,
}

#[verifier::ext_equal]
pub struct SourcesModel {
    pub kugou: ProfileModel,
    pub kugou_concept: ProfileModel,
    pub netease: ProfileModel,
    pub active: SourceKind,
}

impl DeepView for SourceSet {
    type V = SourcesModel;

    open spec fn deep_view(&self) -> SourcesModel {
        SourcesModel {
            kugou: self.kugou.deep_view(),
            kugou_concept: self.kugou_concept.deep_view(),
            netease: self.netease.deep_view(),
            active: self.active,
        }
    }
}

impl SourcesModel {
    /// The profile of a service.
    pub open spec fn profile(self, kind: SourceKind) -> ProfileModel {
        match kind {
            SourceKind::Kugou => self.kugou,
            SourceKind::KugouConcept => self.kugou_concept,
            SourceKind::Netease => self.netease,
        }
    }

    /// The profiles with that of one service exchanged.
    pub open spec fn with(self, kind: SourceKind, profile: ProfileModel) -> SourcesModel {
        match kind {
            SourceKind::Kugou => SourcesModel { kugou: profile, ..self },
            SourceKind::KugouConcept => SourcesModel { kugou_concept: profile, ..self },
            SourceKind::Netease => SourcesModel { netease: profile, ..self },
        }
    }
}

impl SourcesModel {
    /// Whether `a` comes before `b`: by priority, services of one priority as they are declared.
    pub open spec fn before(self, a: SourceKind, b: SourceKind) -> bool {
        ||| self.profile(a).priority < self.profile(b).priority
        ||| self.profile(a).priority == self.profile(b).priority && rank(a) < rank(b)
    }

    /// The service to choose of two, of which either may be out of the question.
    pub open spec fn earlier(self, a: Option<SourceKind>, b: Option<SourceKind>) -> Option<
        SourceKind,
    > {
        match (a, b) {
            (Some(x), Some(y)) => if self.before(x, y) {
                Some(x)
            } else {
                Some(y)
            },
            (Some(x), None) => Some(x),
            (None, other) => other,
        }
    }

    /// A service, where it is enabled and, if so wanted, comes after the one in use.
    pub open spec fn candidate(self, kind: SourceKind, behind: bool) -> Option<SourceKind> {
        if self.profile(kind).enabled && (behind ==> self.before(self.active, kind)) {
            Some(kind)
        } else {
            None
        }
    }

    /// The service that comes after the one in use among those that are enabled, by priority and
    /// going round; the same where no other is enabled.
    pub open spec fn following(self) -> SourceKind {
        let x = all_kinds()[(rank(self.active) + 1) % 3];
        let y = all_kinds()[(rank(self.active) + 2) % 3];
        match self.earlier(self.candidate(x, true), self.candidate(y, true)) {
            Some(kind) => kind,
            None => match self.earlier(self.candidate(x, false), self.candidate(y, false)) {
                Some(kind) => kind,
                None => self.active,
            },
        }
    }
}

impl Default for SourceSet {
    fn default() -> (r: Self)
        ensures
            r.active == SourceKind::Kugou,
            forall|kind: SourceKind| #[trigger]
                r.profile_of(kind).api_base@ == kind.default_base() && r.profile_of(kind).enabled
                    && r.profile_of(kind).priority == 10 * rank(kind),
            forall|kind: SourceKind| #[trigger]
                r.profile_of(kind).cookie is None && r.profile_of(kind).device_id is None,
    {
        SourceSet {
            kugou: SourceProfile::new(SourceKind::Kugou),
            kugou_concept: SourceProfile::new(SourceKind::KugouConcept),
            netease: SourceProfile::new(SourceKind::Netease),
            active: SourceKind::Kugou,
        }
    }
}

impl SourceSet {
    /// The profile of a service.
    pub open spec fn profile_of(&self, kind: SourceKind) -> SourceProfile {
        match kind {
            SourceKind::Kugou => self.kugou,
            SourceKind::KugouConcept => self.kugou_concept,
            SourceKind::Netease => self.netease,
        }
    }

    /// The set with the profile of one service exchanged.
    pub open spec fn with_profile(self, kind: SourceKind, profile: SourceProfile) -> SourceSet {
        match kind {
            SourceKind::Kugou => SourceSet { kugou: profile, ..self },
            SourceKind::KugouConcept => SourceSet { kugou_concept: profile, ..self },
            SourceKind::Netease => SourceSet { netease: profile, ..self },
        }
    }

    /// The profile of `kind`.
    pub fn profile(&self, kind: SourceKind) -> (r: &SourceProfile)
        ensures
            *r == self.profile_of(kind),
    {
        match kind {
            SourceKind::Kugou => &self.kugou,
            SourceKind::KugouConcept => &self.kugou_concept,
            SourceKind::Netease => &self.netease,
        }
    }

    /// The profile of `kind`, to be changed; nothing else changes with it.
    pub fn profile_mut(&mut self, kind: SourceKind) -> (r: &mut SourceProfile)
        ensures
            *r == old(self).profile_of(kind),
            *final(self) == old(self).with_profile(kind, *final(r)),
    {
        match kind {
            SourceKind::Kugou => &mut self.kugou,
            SourceKind::KugouConcept => &mut self.kugou_concept,
            SourceKind::Netease => &mut self.netease,
        }
    }

    /// Whether `a` comes before `b`: by priority, services of one priority as they are declared.
    pub open spec fn before(&self, a: SourceKind, b: SourceKind) -> bool {
        ||| self.profile_of(a).priority < self.profile_of(b).priority
        ||| self.profile_of(a).priority == self.profile_of(b).priority && rank(a) < rank(b)
    }

    /// Whether `a` comes before `b`.
    pub(crate) fn comes_before(&self, a: SourceKind, b: SourceKind) -> (r: bool)
        ensures
            r == self.before(a, b),
    {
        let pa: u32 = self.profile(a).priority;
        let pb: u32 = self.profile(b).priority;
        pa < pb || (pa == pb && a.position() < b.position())
    }

    /// A service, where it is enabled and, if so wanted, comes after the one in use.
    fn candidate(&self, kind: SourceKind, behind: bool) -> (r: Option<SourceKind>)
        ensures
            r == self.deep_view().candidate(kind, behind),
    {
        if self.profile(kind).enabled && (!behind || self.comes_before(self.active, kind)) {
            Some(kind)
        } else {
            None
        }
    }

    /// The service to choose of two, of which either may be out of the question.
    fn earlier(&self, a: Option<SourceKind>, b: Option<SourceKind>) -> (r: Option<SourceKind>)
        ensures
            r == self.deep_view().earlier(a, b),
    {
        match (a, b) {
            (Some(x), Some(y)) => if self.comes_before(x, y) {
                Some(x)
            } else {
                Some(y)
            },
            (Some(x), None) => Some(x),
            (None, other) => other,
        }
    }

    /// The service that comes after the one in use among those that are enabled.
    pub fn next_enabled(&self) -> (r: SourceKind)
        ensures
            r == self.deep_view().following(),
    {
        let x = self.active.next();
        let y = x.next();
        let behind = self.earlier(self.candidate(x, true), self.candidate(y, true));
        match behind {
            Some(kind) => kind,
            None => match self.earlier(self.candidate(x, false), self.candidate(y, false)) {
                Some(kind) => kind,
                None => self.active,
            },
        }
    }

    /// All services by priority, whether enabled or not.
    pub fn ordered(&self) -> (r: Vec<SourceKind>)
        ensures
            r@.len() == 3,
            forall|kind: SourceKind| #[trigger] r@.contains(kind),
            forall|i: int, j: int| 0 <= i < j < r@.len() ==> self.before(r@[i], r@[j]),
    {
        let mut first = SourceKind::Kugou;
        let mut second = SourceKind::KugouConcept;
        if self.comes_before(second, first) {
            first = SourceKind::KugouConcept;
            second = SourceKind::Kugou;
        }
        let last = SourceKind::Netease;
        let r = if self.comes_before(last, first) {
            vec![last, first, second]
        } else if self.comes_before(last, second) {
            vec![first, last, second]
        } else {
            vec![first, second, last]
        };
        proof {
            assert forall|kind: SourceKind| #[trigger] r@.contains(kind) by {
                assert(r@[0] == kind || r@[1] == kind || r@[2] == kind);
            }
        }
        r
    }

    /// The enabled services by priority.
    pub fn enabled(&self) -> (r: Vec<SourceKind>)
        ensures
            forall|kind: SourceKind| #[trigger]
                r@.contains(kind) <==> self.profile_of(kind).enabled,
            forall|i: int, j: int| 0 <= i < j < r@.len() ==> self.before(r@[i], r@[j]),
    {
        let ordered = self.ordered();
        let mut out: Vec<SourceKind> = Vec::new();
        let mut i: usize = 0;
        while i < ordered.len()
            invariant
                i <= ordered@.len(),
                forall|a: int, b: int|
                    0 <= a < b < ordered@.len() ==> self.before(ordered@[a], ordered@[b]),
                forall|k: int|
                    #![trigger out@[k]]
                    0 <= k < out@.len() ==> self.profile_of(out@[k]).enabled && exists|p: int|
                        0 <= p < i && ordered@[p] == out@[k],
                forall|k: int|
                    #![trigger ordered@[k]]
                    0 <= k < i && self.profile_of(ordered@[k]).enabled ==> out@.contains(
                        ordered@[k],
                    ),
                forall|a: int, b: int| 0 <= a < b < out@.len() ==> self.before(out@[a], out@[b]),
            decreases ordered@.len() - i,
        {
            let kind = ordered[i];
            if self.profile(kind).enabled {
                let ghost before = out@;
                out.push(kind);
                proof {
                    assert(out@.last() == kind);
                    assert forall|k: int|
                        #![trigger ordered@[k]]
                        0 <= k < i + 1 && self.profile_of(
                            ordered@[k],
                        ).enabled implies out@.contains(ordered@[k]) by {
                        if k < i {
                            let p = choose|p: int| 0 <= p < before.len() && before[p] == ordered@[k];
                            assert(out@[p] == ordered@[k]);
                        }
                    }
                    assert forall|k: int|
                        #![trigger out@[k]]
                        0 <= k < out@.len() implies self.profile_of(out@[k]).enabled && exists|p: int|
                        0 <= p < i + 1 && ordered@[p] == out@[k] by {
                        if k < before.len() {
                            assert(before[k] == out@[k]);
                        } else {
                            assert(ordered@[i as int] == out@[k]);
                        }
                    }
                    assert forall|a: int, b: int| 0 <= a < b < out@.len() implies self.before(
                        out@[a],
                        out@[b],
                    ) by {
                        assert(out@[a] == before[a]);
                        let p = choose|p: int| 0 <= p < i && ordered@[p] == before[a];
                        if b < before.len() {
                            assert(out@[b] == before[b]);
                        } else {
                            assert(out@[b] == ordered@[i as int]);
                        }
                    }
                }
            }
            i += 1;
        }
        proof {
            assert forall|kind: SourceKind| #[trigger] out@.contains(kind)
                <==> self.profile_of(kind).enabled by {
                assert(ordered@.contains(kind));
                let p = choose|p: int| 0 <= p < ordered@.len() && ordered@[p] == kind;
                assert(ordered@[p] == kind);
                if out@.contains(kind) {
                    let q = choose|q: int| 0 <= q < out@.len() && out@[q] == kind;
                    assert(self.profile_of(out@[q]).enabled);
                }
            }
        }
        out
    }
}

// ---------------------------------------------------------------------------
// Songs and their services
// ---------------------------------------------------------------------------
/// Songs that come from a service.
pub open spec fn stamped(songs: Seq<SongModel>, kind: SourceKind) -> Seq<SongModel> {
    songs.map_values(|song: SongModel| SongModel { source: kind, ..song })
}

/// Notes the service that songs come from. A queue may hold songs of several services, and each is
/// asked for at its own.
pub fn stamp_songs(songs: &mut Vec<Song>, kind: SourceKind)
    ensures
        final(songs).deep_view() == stamped(old(songs).deep_view(), kind),
{
    let ghost before = songs.deep_view();
    let mut i: usize = 0;
    while i < songs.len()
        invariant
            i <= songs@.len(),
            songs@.len() == before.len(),
            forall|k: int|
                0 <= k < i ==> (#[trigger] songs@[k]).deep_view() == (SongModel {
                    source: kind,
                    ..before[k]
                }),
            forall|k: int| i <= k < songs@.len() ==> (#[trigger] songs@[k]).deep_view() == before[k],
        decreases songs@.len() - i,
    {
        songs[i].source = kind;
        i += 1;
    }
    proof {
        assert(songs.deep_view() =~= stamped(before, kind));
    }
}

/// What a service cannot do.
#[derive(Debug, Clone, Copy, PartialEq, Eq, Structural)]
pub enum Feature {
    Plaza,
    PlaylistSongs,
    Artists,
    ArtistSongs,
    Ranks,
    RankSongs,
}

impl Feature {
    /// The name of a feature.
    pub open spec fn name_text(self) -> Seq<char> {
        match self {
            Feature::Plaza => "歌单广场"@,
            Feature::PlaylistSongs => "歌单歌曲"@,
            Feature::Artists => "歌手列表"@,
            Feature::ArtistSongs => "歌手歌曲"@,
            Feature::Ranks => "排行榜"@,
            Feature::RankSongs => "榜单歌曲"@,
        }
    }

    /// The name of this feature.
    pub fn name(self) -> (r: &'static str)
        ensures
            r@ == self.name_text(),
    {
        match self {
            Feature::Plaza => "歌单广场",
            Feature::PlaylistSongs => "歌单歌曲",
            Feature::Artists => "歌手列表",
            Feature::ArtistSongs => "歌手歌曲",
            Feature::Ranks => "排行榜",
            Feature::RankSongs => "榜单歌曲",
        }
    }
}

/// That a service cannot do something.
pub open spec fn refusal(kind: SourceKind, feature: Feature) -> ErrorModel {
    ErrorModel::Other(
        "当前音源不支持"@ + feature.name_text() + "（"@ + kind.label_text() + "）"@,
    )
}

impl SourceKind {
    /// Whether this service can do something; where it cannot, that is said, so that nobody takes an
    /// empty list for a fault.
    pub fn supports(self, feature: Feature) -> (r: Result<(), AppError>)
        ensures
            match r {
                Ok(_) => self != SourceKind::Netease,
                Err(e) => self == SourceKind::Netease && e.deep_view() == refusal(self, feature),
            },
    {
        match self {
            SourceKind::Kugou | SourceKind::KugouConcept => Ok(()),
            SourceKind::Netease => Err(
                AppError::Other(
                    text::join5(
                        "当前音源不支持",
                        feature.name(),
                        "（",
                        self.label(),
                        "）",
                    ),
                ),
            ),
        }
    }
}

/// Every song knows the service it comes from, whatever was noted before, and nothing else of it
/// changes.
pub proof fn songs_know_their_service(songs: Seq<SongModel>, kind: SourceKind, i: int)
    requires
        0 <= i < songs.len(),
    ensures
        stamped(songs, kind).len() == songs.len(),
        stamped(songs, kind)[i].source == kind,
        stamped(songs, kind)[i].hash == songs[i].hash,
        stamped(stamped(songs, kind), kind) == stamped(songs, kind),
{
    assert(stamped(stamped(songs, kind), kind) =~= stamped(songs, kind));
}

/// The cookie that is sent begins with the login and names the device, unless the login names one; a
/// blank login and no device send none.
pub proof fn cookies_name_login_and_device(cookie: Seq<char>, device: Seq<char>)
    ensures
        text::trimmed(cookie).len() > 0 ==> (cookie_text(Some(cookie), Some(device)) matches Some(
            sent,
        ) && text::begins(sent, text::trimmed(cookie))),
        text::trimmed(cookie).len() > 0 && !holds_device(text::trimmed(cookie)) ==> (cookie_text(
            Some(cookie),
            Some(device),
        ) matches Some(sent) && text::ends(sent, "dfid="@ + device)),
        text::trimmed(cookie).len() > 0 && holds_device(text::trimmed(cookie)) ==> cookie_text(
            Some(cookie),
            Some(device),
        ) == Some(text::trimmed(cookie)),
        text::trimmed(cookie).len() > 0 ==> cookie_text(Some(cookie), None) == Some(
            text::trimmed(cookie),
        ),
        cookie_text(None, Some(device)) == Some("dfid="@ + device),
        cookie_text(None, None) is None,
{
    let base = text::trimmed(cookie);
    reveal_strlit("dfid=");
    reveal_strlit("; dfid=");
    let sent = base + "; dfid="@ + device;
    let tail = "dfid="@ + device;
    assert(sent.subrange(0, base.len() as int) =~= base);
    assert(base.subrange(0, base.len() as int) =~= base);
    assert(sent.subrange(sent.len() - tail.len(), sent.len() as int) =~= tail);
}

} // verus!
