//! The user's account: logging in, the membership, and writing to the user's own playlists.
use vstd::prelude::*;
use vstd::string::StringExecFns;
use vstd::string::StringSliceAdditionalSpecFns;
use vstd::utf8::{decode_utf8, encode_utf8, is_char_boundary};
use crate::client::{Mode, Request, RequestModel};
use crate::error::{AppError, ErrorModel};
use crate::json;
use crate::json::Json;
use crate::model;
use crate::model::{Song, SongModel};
use crate::netease;
use crate::source::SourceKind;
use crate::text;

verus! {

// ---------------------------------------------------------------------------
// The user
// ---------------------------------------------------------------------------
/// The kind of a membership.
#[derive(Debug)]
pub enum VipKind {
    /// There is none.
    Absent,
    /// The standard membership.
    Standard,
    /// The membership of the concept edition.
    Concept,
    /// Any other, with its name.
    Other(String),
}

/// The user as the service describes them.
#[derive(Debug)]
pub struct UserInfo {
    pub nickname: String,
    /// The address of the picture.
    pub pic: Option<String>,
    pub grade: Option<u32>,
    /// How long the user has listened, in minutes.
    pub duration_min: Option<u64>,
}

#[verifier::ext_equal]
pub struct UserModel {
    pub nickname: Seq<char>,
    pub pic: Option<Seq<char>>,
    pub grade: Option<u32>,
    pub duration_min: Option<u64>,
}

impl DeepView for UserInfo {
    type V = UserModel;

    open spec fn deep_view(&self) -> UserModel {
        UserModel {
            nickname: self.nickname@,
            pic: self.pic.deep_view(),
            grade: self.grade,
            duration_min: self.duration_min,
        }
    }
}

impl Default for UserInfo {
    fn default() -> (r: Self)
        ensures
            r.deep_view() == (UserModel {
                nickname: Seq::empty(),
                pic: None,
                grade: None,
                duration_min: None,
            }),
    {
        UserInfo { nickname: String::new(), pic: None, grade: None, duration_min: None }
    }
}

/// How long the user has listened, in words.
pub open spec fn listening_text(duration_min: Option<u64>) -> Option<Seq<char>> {
    match duration_min {
        Some(total) if total > 0 => Some(
            if total >= 60 {
                text::decimal((total / 60) as nat) + " 小时 "@ + text::decimal(
                    (total % 60) as nat,
                ) + " 分"@
            } else {
                text::decimal(total as nat) + " 分"@
            },
        ),
        _ => None,
    }
}

impl UserInfo {
    /// How long the user has listened, in words; nothing where that is not known.
    pub fn duration_text(&self) -> (r: Option<String>)
        ensures
            r.deep_view() == listening_text(self.duration_min),
    {
        match self.duration_min {
            Some(total) => {
                if total == 0 {
                    return None;
                }
                let hours: u64 = total / 60;
                let minutes: u64 = total % 60;
                if hours > 0 {
                    let mut out = text::join2(text::write_u64(hours).as_str(), " 小时 ");
                    out.append(text::write_u64(minutes).as_str());
                    out.append(" 分");
                    Some(out)
                } else {
                    Some(text::join2(text::write_u64(minutes).as_str(), " 分"))
                }
            },
            None => None,
        }
    }
}

/// The membership of the user.
#[derive(Debug)]
pub struct VipInfo {
    pub kind: VipKind,
    pub product: String,
    /// When it ends, such as `2026-09-21 10:00:00`.
    pub end_time: String,
}

#[verifier::ext_equal]
pub enum VipKindModel {
    Absent,
    Standard,
    Concept,
    Other(Seq<char>),
}

#[verifier::ext_equal]
pub struct VipModel {
    pub kind: VipKindModel,
    pub product: Seq<char>,
    pub end_time: Seq<char>,
}

impl DeepView for VipInfo {
    type V = VipModel;

    open spec fn deep_view(&self) -> VipModel {
        VipModel {
            kind: match self.kind {
                VipKind::Absent => VipKindModel::Absent,
                VipKind::Standard => VipKindModel::Standard,
                VipKind::Concept => VipKindModel::Concept,
                VipKind::Other(name) => VipKindModel::Other(name@),
            },
            product: self.product@,
            end_time: self.end_time@,
        }
    }
}

/// No membership.
pub open spec fn no_membership() -> VipModel {
    VipModel { kind: VipKindModel::Absent, product: Seq::empty(), end_time: Seq::empty() }
}

impl Default for VipInfo {
    fn default() -> (r: Self)
        ensures
            r.deep_view() == no_membership(),
    {
        VipInfo { kind: VipKind::Absent, product: String::new(), end_time: String::new() }
    }
}

/// The part of a time in front of the first blank.
pub open spec fn date_part(end_time: Seq<char>) -> Seq<char> {
    text::pieces(end_time, seq![' '])[0]
}

/// Whether the bytes that hold month and day are whole characters.
pub open spec fn datable(end_time: Seq<char>) -> bool {
    let bytes = encode_utf8(date_part(end_time));
    bytes.len() >= 10 ==> is_char_boundary(bytes, 5) && is_char_boundary(
        bytes.subrange(5, bytes.len() as int),
        5,
    )
}

/// Month and day of a time: the sixth to the tenth byte of its date; nothing where it has fewer.
pub open spec fn month_and_day(end_time: Seq<char>) -> Seq<char> {
    let bytes = encode_utf8(date_part(end_time));
    if bytes.len() >= 10 {
        decode_utf8(bytes.subrange(5, 10))
    } else {
        Seq::empty()
    }
}

/// The membership in one line.
pub open spec fn vip_label(info: VipModel) -> Seq<char> {
    let kind = match info.kind {
        VipKindModel::Absent => Seq::empty(),
        VipKindModel::Standard => "豪华"@,
        VipKindModel::Concept => "概念版"@,
        VipKindModel::Other(name) => name,
    };
    let head = kind + " "@ + text::uppercase(info.product);
    let end = month_and_day(info.end_time);
    if info.kind == VipKindModel::Absent {
        "非会员"@
    } else if end.len() == 0 {
        head
    } else {
        head + " · 至 "@ + end
    }
}

impl VipInfo {
    /// Whether there is a membership.
    pub fn is_vip(&self) -> (r: bool)
        ensures
            r == !(self.kind is Absent),
    {
        match self.kind {
            VipKind::Absent => false,
            _ => true,
        }
    }

    /// The membership in one line, such as `概念版 SVIP · 至 09-21`.
    pub fn label(&self) -> (r: String)
        requires
            self.kind is Absent || datable(self.end_time@),
        ensures
            r@ == vip_label(self.deep_view()),
    {
        if !self.is_vip() {
            return "非会员".to_owned();
        }
        let kind = match &self.kind {
            VipKind::Standard => "豪华",
            VipKind::Concept => "概念版",
            VipKind::Other(name) => name.as_str(),
            VipKind::Absent => "",
        };
        let product = text::to_uppercase(self.product.as_str());
        let mut out = text::join3(kind, " ", product.as_str());
        let end = month_day(self.end_time.as_str());
        if !end.as_str().is_empty() {
            out.append(" · 至 ");
            out.append(end.as_str());
        }
        out
    }
}

/// Month and day of a time.
fn month_day(end_time: &str) -> (r: String)
    requires
        datable(end_time@),
    ensures
        r@ == month_and_day(end_time@),
{
    let chars = text::to_chars(end_time);
    let blank = [' '];
    let parts = text::split(chars.as_slice(), &blank);
    proof {
        assert(blank@ =~= seq![' ']);
        text::lemma_pieces_nonempty(end_time@, seq![' ']);
        assert(text::rows(parts@)[0] == parts@[0]@);
    }
    let date = text::from_chars(parts[0].as_slice());
    let length: usize = date.as_str().as_bytes().len();
    if length < 10 {
        return String::new();
    }
    let (_, tail) = date.as_str().split_at(5);
    let (middle, _) = tail.split_at(5);
    proof {
        let bytes = encode_utf8(date@);
        assert(middle.spec_bytes() =~= bytes.subrange(5, 10));
        vstd::utf8::encode_utf8_decode_utf8(middle@);
    }
    middle.to_owned()
}

// ---------------------------------------------------------------------------
// Logging in
// ---------------------------------------------------------------------------
/// How far a login by QR code has come.
#[derive(Debug, Clone, Copy, PartialEq, Eq, Structural)]
pub enum QrStatus {
    Expired,
    Waiting,
    Pending,
    Success,
}

/// What the service says of a login by QR code.
#[derive(Debug)]
pub struct QrCheck {
    pub status: QrStatus,
    pub token: Option<String>,
    pub userid: Option<String>,
    /// The cookie that the server gives out, where the login is held by the server.
    pub cookie: Option<String>,
}

#[verifier::ext_equal]
pub struct QrModel {
    pub status: QrStatus,
    pub token: Option<Seq<char>>,
    pub userid: Option<Seq<char>>,
    pub cookie: Option<Seq<char>>,
}

impl DeepView for QrCheck {
    type V = QrModel;

    open spec fn deep_view(&self) -> QrModel {
        QrModel {
            status: self.status,
            token: self.token.deep_view(),
            userid: self.userid.deep_view(),
            cookie: self.cookie.deep_view(),
        }
    }
}

/// The request for the key of a QR code.
pub open spec fn key_request() -> RequestModel {
    RequestModel {
        path: "/login/qr/key"@,
        query: Seq::empty(),
        mode: Mode::Fresh,
    }
}

/// The request for the key of a QR code.
pub fn login_qr_key() -> (r: Request)
    ensures
        r.deep_view() == key_request(),
{
    Request::new("/login/qr/key", Mode::Fresh)
}

/// A text that must be there, or the words for its absence.
pub open spec fn demanded(found: Option<Seq<char>>, words: Seq<char>) -> Result<
    Seq<char>,
    ErrorModel,
> {
    match found {
        Some(s) => Ok(s),
        None => Err(ErrorModel::NotFound(words)),
    }
}

/// A result with texts as character sequences.
pub open spec fn text_result(r: Result<String, AppError>) -> Result<Seq<char>, ErrorModel> {
    match r {
        Ok(s) => Ok(s@),
        Err(error) => Err(error.deep_view()),
    }
}

/// Reads the key of a QR code.
pub fn read_qr_key(root: &Json) -> (r: Result<String, AppError>)
    ensures
        text_result(r) == demanded(
            json::first_text(json::payload(*root), seq!["qrcode", "key"]),
            "`/login/qr/key` 未返回 key"@,
        ),
{
    let keys = ["qrcode", "key"];
    proof {
        assert(keys@ =~= seq!["qrcode", "key"]);
    }
    match json::pick_string(json::data_of(root), &keys) {
        Some(key) => Ok(key),
        None => Err(AppError::NotFound("`/login/qr/key` 未返回 key".to_owned())),
    }
}

/// The request for the content of a QR code.
pub open spec fn qr_request(key: Seq<char>) -> RequestModel {
    RequestModel {
        path: "/login/qr/create"@,
        query: seq![("key"@, key)],
        mode: Mode::Fresh,
    }
}

/// The request for the content of a QR code.
pub fn login_qr_create(key: &str) -> (r: Request)
    ensures
        r.deep_view() == qr_request(key@),
{
    let r = Request::new("/login/qr/create", Mode::Fresh).with("key", key.to_owned());
    proof {
        assert(r.deep_view().query =~= seq![("key"@, key@)]);
    }
    r
}

/// Reads the content of a QR code.
pub fn read_qr_content(root: &Json) -> (r: Result<String, AppError>)
    ensures
        text_result(r) == demanded(
            json::first_text(json::payload(*root), seq!["url", "qrcode", "qrurl"]),
            "`/login/qr/create` 未返回二维码内容"@,
        ),
{
    let keys = ["url", "qrcode", "qrurl"];
    proof {
        assert(keys@ =~= seq!["url", "qrcode", "qrurl"]);
    }
    match json::pick_string(json::data_of(root), &keys) {
        Some(content) => Ok(content),
        None => Err(AppError::NotFound("`/login/qr/create` 未返回二维码内容".to_owned())),
    }
}

/// The request that asks how far a login has come.
pub open spec fn check_request(key: Seq<char>) -> RequestModel {
    RequestModel {
        path: "/login/qr/check"@,
        query: seq![("key"@, key)],
        mode: Mode::Fresh,
    }
}

/// The request that asks how far a login has come.
pub fn login_qr_check(key: &str) -> (r: Request)
    ensures
        r.deep_view() == check_request(key@),
{
    let r = Request::new("/login/qr/check", Mode::Fresh).with("key", key.to_owned());
    proof {
        assert(r.deep_view().query =~= seq![("key"@, key@)]);
    }
    r
}

/// How far a login has come.
pub open spec fn login_state(root: Json) -> QrModel {
    let data = json::payload(root);
    QrModel {
        status: match json::first_number(data, seq!["status", "code"]) {
            Some(code) => if code == 0 {
                QrStatus::Expired
            } else if code == 2 {
                QrStatus::Pending
            } else if code == 4 {
                QrStatus::Success
            } else {
                QrStatus::Waiting
            },
            None => QrStatus::Waiting,
        },
        token: json::first_text(data, seq!["token"]),
        userid: json::first_text(data, seq!["userid"]),
        cookie: None,
    }
}

/// Reads how far a login has come.
pub fn read_qr_check(root: &Json) -> (r: QrCheck)
    ensures
        r.deep_view() == login_state(*root),
{
    let data = json::data_of(root);
    let status_keys = ["status", "code"];
    let token_keys = ["token"];
    let user_keys = ["userid"];
    proof {
        assert(status_keys@ =~= seq!["status", "code"]);
        assert(token_keys@ =~= seq!["token"]);
        assert(user_keys@ =~= seq!["userid"]);
    }
    let status = match json::pick_i64(data, &status_keys) {
        Some(code) => if code == 0 {
            QrStatus::Expired
        } else if code == 2 {
            QrStatus::Pending
        } else if code == 4 {
            QrStatus::Success
        } else {
            QrStatus::Waiting
        },
        None => QrStatus::Waiting,
    };
    QrCheck {
        status,
        token: json::pick_string(data, &token_keys),
        userid: json::pick_string(data, &user_keys),
        cookie: None,
    }
}

// ---------------------------------------------------------------------------
// Asking about the user
// ---------------------------------------------------------------------------
/// The request for the user's description.
pub open spec fn user_request() -> RequestModel {
    RequestModel {
        path: "/user/detail"@,
        query: Seq::empty(),
        mode: Mode::Fresh,
    }
}

/// The request for the user's description.
pub fn user_detail() -> (r: Request)
    ensures
        r.deep_view() == user_request(),
{
    Request::new("/user/detail", Mode::Fresh)
}

/// The user that an answer describes.
pub open spec fn user_of(root: Json) -> UserModel {
    let data = json::payload(root);
    UserModel {
        nickname: model::or_blank(json::first_text(data, seq!["nickname"])),
        pic: match json::first_text(data, seq!["pic"]) {
            Some(url) if text::trimmed(url).len() > 0 => Some(url),
            _ => None,
        },
        grade: match json::first_number(data, seq!["p_grade"]) {
            Some(n) if 0 <= n <= u32::MAX => Some(n as u32),
            _ => None,
        },
        duration_min: match json::first_number(data, seq!["duration"]) {
            Some(n) if n >= 0 => Some(n as u64),
            _ => None,
        },
    }
}

/// Drops a blank text.
pub(crate) fn not_blank(value: Option<String>) -> (r: Option<String>)
    ensures
        r.deep_view() == (match value.deep_view() {
            Some(s) if text::trimmed(s).len() > 0 => Some(s),
            _ => None,
        }),
{
    match value {
        Some(s) => if text::is_blank(s.as_str()) {
            None
        } else {
            Some(s)
        },
        None => None,
    }
}

/// Reads the user that an answer describes.
pub fn read_user(root: &Json) -> (r: UserInfo)
    ensures
        r.deep_view() == user_of(*root),
{
    let data = json::data_of(root);
    let name_keys = ["nickname"];
    let pic_keys = ["pic"];
    let grade_keys = ["p_grade"];
    let time_keys = ["duration"];
    proof {
        assert(name_keys@ =~= seq!["nickname"]);
        assert(pic_keys@ =~= seq!["pic"]);
        assert(grade_keys@ =~= seq!["p_grade"]);
        assert(time_keys@ =~= seq!["duration"]);
    }
    let grade = match json::pick_i64(data, &grade_keys) {
        Some(n) => if 0 <= n && n <= u32::MAX as i64 {
            Some(n as u32)
        } else {
            None
        },
        None => None,
    };
    let duration_min = match json::pick_i64(data, &time_keys) {
        Some(n) => if n >= 0 {
            Some(n as u64)
        } else {
            None
        },
        None => None,
    };
    UserInfo {
        nickname: model::text_or_blank(json::pick_string(data, &name_keys)),
        pic: not_blank(json::pick_string(data, &pic_keys)),
        grade,
        duration_min,
    }
}

/// The request for the membership.
pub open spec fn membership_request() -> RequestModel {
    RequestModel {
        path: "/user/vip/detail"@,
        query: Seq::empty(),
        mode: Mode::Fresh,
    }
}

/// The request for the membership.
pub fn user_vip_detail() -> (r: Request)
    ensures
        r.deep_view() == membership_request(),
{
    Request::new("/user/vip/detail", Mode::Fresh)
}

/// The request that claims the membership of a day.
pub open spec fn claim_request(day: Seq<char>) -> RequestModel {
    RequestModel {
        path: "/youth/day/vip"@,
        query: seq![("receive_day"@, day)],
        mode: Mode::Writing,
    }
}

/// The request that claims the membership of a day.
pub fn claim_day(day: &str) -> (r: Request)
    ensures
        r.deep_view() == claim_request(day@),
{
    let r = Request::new("/youth/day/vip", Mode::Writing).with("receive_day", day.to_owned());
    proof {
        assert(r.deep_view().query =~= seq![("receive_day"@, day@)]);
    }
    r
}

/// The request that makes the membership of the day the one for listening.
pub open spec fn upgrade_request() -> RequestModel {
    RequestModel {
        path: "/youth/day/vip/upgrade"@,
        query: Seq::empty(),
        mode: Mode::Writing,
    }
}

/// The request that makes the membership of the day the one for listening.
pub fn upgrade_day() -> (r: Request)
    ensures
        r.deep_view() == upgrade_request(),
{
    Request::new("/youth/day/vip/upgrade", Mode::Writing)
}

/// The membership that an entry describes.
pub open spec fn other_membership(entry: Json) -> VipModel {
    let name = model::or_blank(json::first_text(entry, seq!["busi_type"]));
    VipModel {
        kind: if name == "concept"@ {
            VipKindModel::Concept
        } else {
            VipKindModel::Other(name)
        },
        product: model::or_blank(json::first_text(entry, seq!["product_type"])),
        end_time: model::or_blank(json::first_text(entry, seq!["vip_end_time"])),
    }
}

/// The first membership in force among `entries`.
pub open spec fn first_membership(entries: Seq<Json>) -> VipModel
    decreases entries.len(),
{
    if entries.len() == 0 {
        no_membership()
    } else if json::first_number(entries[0], seq!["is_vip"]) == Some(1i64) {
        other_membership(entries[0])
    } else {
        first_membership(entries.drop_first())
    }
}

/// The membership that an answer describes: the standard one, else the first of the others that is
/// in force.
pub open spec fn membership_of(root: Json) -> VipModel {
    let data = json::payload(root);
    if json::first_number(data, seq!["is_vip", "vip_type"]) == Some(1i64) {
        VipModel {
            kind: VipKindModel::Standard,
            product: "VIP"@,
            end_time: model::or_blank(json::first_text(data, seq!["vip_end_time"])),
        }
    } else {
        match json::array_at(data, "busi_vip"@) {
            Some(entries) => first_membership(entries@),
            None => no_membership(),
        }
    }
}

/// Reads the membership that an answer describes.
pub fn read_membership(root: &Json) -> (r: VipInfo)
    ensures
        r.deep_view() == membership_of(*root),
{
    let data = json::data_of(root);
    let top_keys = ["is_vip", "vip_type"];
    let own_keys = ["is_vip"];
    let end_keys = ["vip_end_time"];
    let type_keys = ["busi_type"];
    let product_keys = ["product_type"];
    proof {
        assert(top_keys@ =~= seq!["is_vip", "vip_type"]);
        assert(own_keys@ =~= seq!["is_vip"]);
        assert(end_keys@ =~= seq!["vip_end_time"]);
        assert(type_keys@ =~= seq!["busi_type"]);
        assert(product_keys@ =~= seq!["product_type"]);
    }
    if let Some(mark) = json::pick_i64(data, &top_keys) {
        if mark == 1 {
            return VipInfo {
                kind: VipKind::Standard,
                product: "VIP".to_owned(),
                end_time: model::text_or_blank(json::pick_string(data, &end_keys)),
            };
        }
    }
    let entries = match data.get_array("busi_vip") {
        Some(entries) => entries,
        None => {
            return VipInfo::default();
        },
    };
    let mut i: usize = 0;
    proof {
        assert(entries@.skip(0) =~= entries@);
    }
    while i < entries.len()
        invariant
            i <= entries@.len(),
            own_keys@ == seq!["is_vip"],
            end_keys@ == seq!["vip_end_time"],
            type_keys@ == seq!["busi_type"],
            product_keys@ == seq!["product_type"],
            membership_of(*root) == first_membership(entries@.skip(i as int)),
        decreases entries@.len() - i,
    {
        let entry = &entries[i];
        proof {
            assert(entries@.skip(i as int)[0] == *entry);
            assert(entries@.skip(i as int).drop_first() =~= entries@.skip(i + 1));
        }
        if let Some(mark) = json::pick_i64(entry, &own_keys) {
            if mark == 1 {
                let name = model::text_or_blank(json::pick_string(entry, &type_keys));
                let kind = if text::same(name.as_str(), "concept") {
                    VipKind::Concept
                } else {
                    VipKind::Other(name)
                };
                return VipInfo {
                    kind,
                    product: model::text_or_blank(json::pick_string(entry, &product_keys)),
                    end_time: model::text_or_blank(json::pick_string(entry, &end_keys)),
                };
            }
        }
        i += 1;
    }
    VipInfo::default()
}

/// The request for a device print.
pub open spec fn device_request() -> RequestModel {
    RequestModel {
        path: "/register/dev"@,
        query: Seq::empty(),
        mode: Mode::Fresh,
    }
}

/// The request for a device print.
pub fn fetch_device_fingerprint() -> (r: Request)
    ensures
        r.deep_view() == device_request(),
{
    Request::new("/register/dev", Mode::Fresh)
}

/// Reads a device print.
pub fn read_device_fingerprint(root: &Json) -> (r: Result<String, AppError>)
    ensures
        text_result(r) == demanded(
            model::either(
                json::first_text(json::payload(*root), seq!["dfid", "DFID"]),
                json::first_text(*root, seq!["dfid"]),
            ),
            "`/register/dev` 未返回 dfid"@,
        ),
{
    let data_keys = ["dfid", "DFID"];
    let root_keys = ["dfid"];
    proof {
        assert(data_keys@ =~= seq!["dfid", "DFID"]);
        assert(root_keys@ =~= seq!["dfid"]);
    }
    let mut found = json::pick_string(json::data_of(root), &data_keys);
    if found.is_none() {
        found = json::pick_string(root, &root_keys);
    }
    match found {
        Some(id) => Ok(id),
        None => Err(AppError::NotFound("`/register/dev` 未返回 dfid".to_owned())),
    }
}

// ---------------------------------------------------------------------------
// Writing to playlists
// ---------------------------------------------------------------------------
/// The error that the answer to a writing request reports, if it reports one.
pub open spec fn write_error(path: Seq<char>, root: Json) -> Option<ErrorModel> {
    match json::at(root, "error_code"@) {
        Some(value) => match json::exact_i64(value) {
            Some(code) if code != 0 => Some(
                ErrorModel::Api {
                    path,
                    code,
                    message: if code == 30205 {
                        "该歌单不是你自己的，无法往别人的歌单里加歌"@
                    } else {
                        "服务端未提供错误描述"@
                    },
                },
            ),
            _ => None,
        },
        None => None,
    }
}

/// Checks the answer to a writing request.
pub fn check_write_result(path: &str, root: &Json) -> (r: Result<(), AppError>)
    ensures
        match r {
            Ok(_) => write_error(path@, *root) is None,
            Err(error) => write_error(path@, *root) == Some(error.deep_view()),
        },
{
    let code: i64 = match root.get("error_code") {
        Some(value) => match value.as_i64() {
            Some(code) => code,
            None => {
                return Ok(());
            },
        },
        None => {
            return Ok(());
        },
    };
    if code == 0 {
        return Ok(());
    }
    let message = if code == 30205 {
        "该歌单不是你自己的，无法往别人的歌单里加歌"
    } else {
        "服务端未提供错误描述"
    };
    Err(AppError::Api { path: path.to_owned(), code, message: message.to_owned() })
}

/// What stands for a character of a name where the bar and the comma separate things.
pub open spec fn field_char(c: char) -> char {
    if c == '|' || c == ',' {
        ' '
    } else {
        c
    }
}

/// The name of a song without the signs that separate things.
pub open spec fn safe_name(name: Seq<char>) -> Seq<char> {
    name.map_values(|c: char| field_char(c))
}

/// A song as one entry of the request to add songs.
pub open spec fn track_entry(song: SongModel) -> Seq<char> {
    safe_name(song.name) + "|"@ + song.hash + "|"@ + song.album_id + "|"@ + text::signed_decimal(
        song.album_audio_id as int,
    )
}

/// Writes a song as one entry of the request to add songs.
pub fn encode_track_entry(song: &Song) -> (r: String)
    ensures
        r@ == track_entry(song.deep_view()),
{
    let chars = text::to_chars(song.name.as_str());
    let ghost wanted = safe_name(song.name@);
    let mut out = String::new();
    let mut i: usize = 0;
    while i < chars.len()
        invariant
            i <= chars@.len(),
            wanted == safe_name(chars@),
            out@ == wanted.take(i as int),
        decreases chars@.len() - i,
    {
        let c = chars[i];
        out.push(
            if c == '|' || c == ',' {
                ' '
            } else {
                c
            },
        );
        proof {
            assert(out@ =~= wanted.take(i + 1));
        }
        i += 1;
    }
    proof {
        assert(wanted.take(wanted.len() as int) =~= wanted);
    }
    out.append("|");
    out.append(song.hash.as_str());
    out.append("|");
    out.append(song.album_id.as_str());
    out.append("|");
    out.append(text::write_i64(song.album_audio_id).as_str());
    out
}

/// How many songs one request adds.
pub const BATCH_SIZE: usize = 20;

/// The entries of songs.
pub open spec fn track_entries(songs: Seq<SongModel>) -> Seq<Seq<char>> {
    songs.map_values(|song: SongModel| track_entry(song))
}

/// The request to add songs to a playlist.
pub open spec fn add_request(list_id: i64, songs: Seq<SongModel>) -> RequestModel {
    RequestModel {
        path: "/playlist/tracks/add"@,
        query: seq![
            ("listid"@, text::signed_decimal(list_id as int)),
            ("data"@, text::joined(track_entries(songs), ","@)),
        ],
        mode: Mode::Writing,
    }
}

/// The songs of one batch.
pub open spec fn batch(songs: Seq<SongModel>, number: int) -> Seq<SongModel> {
    let from = number * BATCH_SIZE;
    let to = if from + BATCH_SIZE < songs.len() {
        from + BATCH_SIZE
    } else {
        songs.len() as int
    };
    songs.subrange(from, to)
}

/// How many batches so many songs make.
pub open spec fn batch_count(total: int) -> int {
    (total + BATCH_SIZE - 1) / BATCH_SIZE as int
}

/// The request to add the songs from `from` up to `to` to a playlist.
fn add_batch(list_id: i64, songs: &[Song], from: usize, to: usize) -> (r: Request)
    requires
        from <= to <= songs@.len(),
    ensures
        r.deep_view() == add_request(
            list_id,
            songs.deep_view().subrange(from as int, to as int),
        ),
{
    let ghost part = songs.deep_view().subrange(from as int, to as int);
    let mut entries: Vec<String> = Vec::new();
    let mut i: usize = from;
    while i < to
        invariant
            from <= i <= to <= songs@.len(),
            part == songs.deep_view().subrange(from as int, to as int),
            entries@.len() == i - from,
            forall|k: int|
                0 <= k < i - from ==> (#[trigger] entries@[k])@ == track_entry(part[k]),
        decreases to - i,
    {
        entries.push(encode_track_entry(&songs[i]));
        i += 1;
    }
    proof {
        assert(text::views(entries@) =~= track_entries(part));
    }
    let r = Request::new("/playlist/tracks/add", Mode::Writing).with(
        "listid",
        text::write_i64(list_id),
    ).with("data", text::join(entries.as_slice(), ","));
    proof {
        assert(r.deep_view().query =~= add_request(list_id, part).query);
    }
    r
}

/// The requests to add songs to a playlist, in batches.
pub fn add_tracks_to_playlist(source: SourceKind, list_id: i64, songs: &[Song]) -> (r: Vec<Request>)
    ensures
        r@.len() == batch_count(songs@.len() as int),
        forall|i: int|
            0 <= i < r@.len() ==> (#[trigger] r@[i]).deep_view() == if source
                == SourceKind::Netease {
                netease::add_request(list_id, batch(songs.deep_view(), i))
            } else {
                add_request(list_id, batch(songs.deep_view(), i))
            },
{
    let mut out: Vec<Request> = Vec::new();
    let mut from: usize = 0;
    let total: usize = songs.len();
    while from < total
        invariant
            from <= total == songs@.len(),
            from == out@.len() * BATCH_SIZE || (from == total && out@.len() == batch_count(
                total as int,
            )),
            out@.len() <= batch_count(total as int),
            forall|i: int|
                0 <= i < out@.len() ==> (#[trigger] out@[i]).deep_view() == if source
                    == SourceKind::Netease {
                    netease::add_request(list_id, batch(songs.deep_view(), i))
                } else {
                    add_request(list_id, batch(songs.deep_view(), i))
                },
        decreases total - from,
    {
        let to: usize = if total - from > BATCH_SIZE {
            from + BATCH_SIZE
        } else {
            total
        };
        let request = if source == SourceKind::Netease {
            netease::add_batch(list_id, songs, from, to)
        } else {
            add_batch(list_id, songs, from, to)
        };
        out.push(request);
        from = to;
    }
    out
}

/// How many songs have been added once so many batches were accepted.
pub fn written_after(total: usize, batches: usize) -> (r: usize)
    ensures
        r == if batches * BATCH_SIZE < total {
            batches * BATCH_SIZE
        } else {
            total as int
        },
{
    match batches.checked_mul(BATCH_SIZE) {
        Some(sent) => if sent < total {
            sent
        } else {
            total
        },
        None => total,
    }
}

/// The numbers of the playlist entries of songs that have one.
pub open spec fn entry_numbers(songs: Seq<SongModel>) -> Seq<i64>
    decreases songs.len(),
{
    if songs.len() == 0 {
        Seq::empty()
    } else {
        match songs.last().file_id {
            Some(id) => entry_numbers(songs.drop_last()).push(id),
            None => entry_numbers(songs.drop_last()),
        }
    }
}

/// Numbers in decimal.
pub open spec fn written_numbers(numbers: Seq<i64>) -> Seq<Seq<char>> {
    numbers.map_values(|n: i64| text::signed_decimal(n as int))
}

/// The request to remove songs from a playlist and how many songs it removes; none where nothing
/// can be removed.
pub open spec fn removal(source: SourceKind, list_id: i64, songs: Seq<SongModel>) -> Option<
    (RequestModel, int),
> {
    if songs.len() == 0 {
        None
    } else if source == SourceKind::Netease {
        Some((netease::remove_request(list_id, songs), songs.len() as int))
    } else if entry_numbers(songs).len() == 0 {
        None
    } else {
        Some(
            (
                RequestModel {
                    path: "/playlist/tracks/del"@,
                    query: seq![
                        ("listid"@, text::signed_decimal(list_id as int)),
                        (
                            "fileids"@,
                            text::joined(written_numbers(entry_numbers(songs)), ","@),
                        ),
                    ],
                    mode: Mode::Writing,
                },
                entry_numbers(songs).len() as int,
            ),
        )
    }
}

/// The request to remove songs from a playlist and how many songs it removes.
pub fn remove_tracks_from_playlist(source: SourceKind, list_id: i64, songs: &[Song]) -> (r: Option<
    (Request, usize),
>)
    ensures
        match r {
            Some((request, count)) => removal(source, list_id, songs.deep_view()) == Some(
                (request.deep_view(), count as int),
            ),
            None => removal(source, list_id, songs.deep_view()) is None,
        },
{
    if songs.len() == 0 {
        return None;
    }
    if source == SourceKind::Netease {
        return Some((netease::remove_batch(list_id, songs), songs.len()));
    }
    let ghost all = songs.deep_view();
    let mut numbers: Vec<String> = Vec::new();
    let mut i: usize = 0;
    proof {
        assert(all.take(0) =~= Seq::<SongModel>::empty());
        assert(text::views(numbers@) =~= written_numbers(entry_numbers(all.take(0))));
    }
    while i < songs.len()
        invariant
            i <= songs@.len(),
            all == songs.deep_view(),
            text::views(numbers@) == written_numbers(entry_numbers(all.take(i as int))),
        decreases songs@.len() - i,
    {
        proof {
            assert(all.take(i + 1).drop_last() =~= all.take(i as int));
            assert(all.take(i + 1).last() == songs@[i as int].deep_view());
        }
        if let Some(id) = songs[i].file_id {
            let ghost before = text::views(numbers@);
            let ghost ids = entry_numbers(all.take(i as int));
            numbers.push(text::write_i64(id));
            proof {
                assert(text::views(numbers@) =~= before.push(text::signed_decimal(id as int)));
                assert(written_numbers(ids.push(id)) =~= written_numbers(ids).push(
                    text::signed_decimal(id as int),
                ));
            }
        }
        i += 1;
    }
    proof {
        assert(all.take(all.len() as int) =~= all);
        assert(text::views(numbers@).len() == numbers@.len());
    }
    if numbers.len() == 0 {
        return None;
    }
    let request = Request::new("/playlist/tracks/del", Mode::Writing).with(
        "listid",
        text::write_i64(list_id),
    ).with("fileids", text::join(numbers.as_slice(), ","));
    proof {
        assert(request.deep_view().query =~= (removal(source, list_id, all)->0).0.query);
    }
    Some((request, numbers.len()))
}

/// The request to delete a playlist.
pub open spec fn delete_request(source: SourceKind, list_id: i64) -> RequestModel {
    if source == SourceKind::Netease {
        netease::delete_request(list_id)
    } else {
        RequestModel {
            path: "/playlist/del"@,
            query: seq![("listid"@, text::signed_decimal(list_id as int))],
            mode: Mode::Writing,
        }
    }
}

/// The request to delete a playlist.
pub fn delete_playlist(source: SourceKind, list_id: i64) -> (r: Request)
    ensures
        r.deep_view() == delete_request(source, list_id),
{
    if source == SourceKind::Netease {
        return netease::delete_playlist(list_id);
    }
    let r = Request::new("/playlist/del", Mode::Writing).with("listid", text::write_i64(list_id));
    proof {
        assert(r.deep_view().query =~= seq![("listid"@, text::signed_decimal(list_id as int))]);
    }
    r
}

/// The request to create a playlist.
pub open spec fn create_request(source: SourceKind, name: Seq<char>) -> RequestModel {
    if source == SourceKind::Netease {
        netease::create_request(name)
    } else {
        RequestModel {
            path: "/playlist/add"@,
            query: seq![("name"@, name), ("type"@, "0"@)],
            mode: Mode::Writing,
        }
    }
}

/// The request to create a playlist.
pub fn create_playlist(source: SourceKind, name: &str) -> (r: Request)
    ensures
        r.deep_view() == create_request(source, name@),
{
    if source == SourceKind::Netease {
        return netease::create_playlist(name);
    }
    let r = Request::new("/playlist/add", Mode::Writing).with("name", name.to_owned()).with(
        "type",
        "0".to_owned(),
    );
    proof {
        assert(r.deep_view().query =~= seq![("name"@, name@), ("type"@, "0"@)]);
    }
    r
}

/// Reads the number of the playlist that was created, where the service gives it.
pub fn read_created(root: &Json) -> (r: Option<i64>)
    ensures
        r == json::first_number(json::payload(*root), seq!["listid", "list_id", "id"]),
{
    let keys = ["listid", "list_id", "id"];
    proof {
        assert(keys@ =~= seq!["listid", "list_id", "id"]);
    }
    json::pick_i64(json::data_of(root), &keys)
}

// ---------------------------------------------------------------------------
// What holds of the entries
// ---------------------------------------------------------------------------
/// How often `c` stands in `s`.
pub open spec fn count_of(s: Seq<char>, c: char) -> nat
    decreases s.len(),
{
    if s.len() == 0 {
        0
    } else {
        count_of(s.drop_last(), c) + if s.last() == c {
            1nat
        } else {
            0
        }
    }
}

/// Counting in two texts put together.
proof fn lemma_count_joined(a: Seq<char>, b: Seq<char>, c: char)
    ensures
        count_of(a + b, c) == count_of(a, c) + count_of(b, c),
    decreases b.len(),
{
    if b.len() == 0 {
        assert(a + b =~= a);
    } else {
        assert((a + b).drop_last() =~= a + b.drop_last());
        assert((a + b).last() == b.last());
        lemma_count_joined(a, b.drop_last(), c);
    }
}

/// A character that does not stand in a text counts nothing.
proof fn lemma_count_none(s: Seq<char>, c: char)
    requires
        !s.contains(c),
    ensures
        count_of(s, c) == 0,
    decreases s.len(),
{
    if s.len() > 0 {
        assert(s[s.len() - 1] != c);
        assert forall|i: int| 0 <= i < s.drop_last().len() implies s.drop_last()[i] != c by {
            assert(s[i] != c);
        }
        lemma_count_none(s.drop_last(), c);
    }
}

/// A separator cuts a text into one piece more than it stands there.
proof fn lemma_pieces_count(s: Seq<char>, c: char)
    ensures
        text::pieces(s, seq![c]).len() == 1 + count_of(s, c),
    decreases s.len(),
{
    if s.len() > 0 {
        lemma_pieces_count(s.drop_last(), c);
        assert(seq![c].contains(s.last()) <==> s.last() == c) by {
            assert(seq![c][0] == c);
        }
    }
}

/// A written number holds digits and at most a sign.
proof fn lemma_number_count(n: int, c: char)
    requires
        !text::is_digit(c),
        c != '-',
    ensures
        count_of(text::signed_decimal(n), c) == 0,
{
    let magnitude = if n < 0 {
        (-n) as nat
    } else {
        n as nat
    };
    text::reading_undoes_writing(magnitude);
    let digits = text::decimal(magnitude);
    assert forall|i: int| 0 <= i < digits.len() implies digits[i] != c by {
        assert(text::is_digit(digits[i]));
    }
    lemma_count_none(digits, c);
    assert(seq!['-'].drop_last() =~= Seq::<char>::empty());
    lemma_count_none(seq!['-'], c);
    lemma_count_joined(seq!['-'], digits, c);
}

/// An entry has four fields and no comma, whatever the song is called, as long as what identifies
/// the song holds neither bar nor comma.
pub proof fn entries_have_four_fields(song: SongModel)
    requires
        !song.hash.contains('|'),
        !song.hash.contains(','),
        !song.album_id.contains('|'),
        !song.album_id.contains(','),
    ensures
        text::pieces(track_entry(song), seq!['|']).len() == 4,
        count_of(track_entry(song), ',') == 0,
{
    reveal_strlit("|");
    reveal_with_fuel(count_of, 2);
    let name = safe_name(song.name);
    let number = text::signed_decimal(song.album_audio_id as int);
    assert forall|i: int| 0 <= i < name.len() implies name[i] != '|' && name[i] != ',' by {}
    assert("|"@ =~= seq!['|']);
    assert(seq!['|'].drop_last() =~= Seq::<char>::empty());
    let signs = seq!['|', ','];
    assert forall|k: int| 0 <= k < 2 implies #[trigger] count_of(track_entry(song), signs[k])
        == 3 * count_of("|"@, signs[k]) by {
        let c = signs[k];
        lemma_count_none(name, c);
        lemma_count_none(song.hash, c);
        lemma_count_none(song.album_id, c);
        lemma_number_count(song.album_audio_id as int, c);
        lemma_count_joined(name, "|"@, c);
        lemma_count_joined(name + "|"@, song.hash, c);
        lemma_count_joined(name + "|"@ + song.hash, "|"@, c);
        lemma_count_joined(name + "|"@ + song.hash + "|"@, song.album_id, c);
        lemma_count_joined(name + "|"@ + song.hash + "|"@ + song.album_id, "|"@, c);
        lemma_count_joined(name + "|"@ + song.hash + "|"@ + song.album_id + "|"@, number, c);
    }
    assert(count_of(track_entry(song), signs[0]) == 3 * count_of("|"@, '|'));
    assert(count_of(track_entry(song), signs[1]) == 3 * count_of("|"@, ','));
    lemma_pieces_count(track_entry(song), '|');
}

/// The batches together hold every song once, in order.
pub proof fn batches_hold_every_song(songs: Seq<SongModel>, index: int)
    requires
        0 <= index < songs.len(),
    ensures
        0 <= index / BATCH_SIZE as int,
        index / (BATCH_SIZE as int) < batch_count(songs.len() as int),
        index % (BATCH_SIZE as int) < batch(songs, index / BATCH_SIZE as int).len(),
        batch(songs, index / BATCH_SIZE as int)[index % BATCH_SIZE as int] == songs[index],
{
}

// ---------------------------------------------------------------------------
// What the requests say
// ---------------------------------------------------------------------------
/// The content of a code is asked for under its key.
pub proof fn codes_are_asked_for_by_key(key: Seq<char>)
    ensures
        qr_request(key).path == "/login/qr/create"@,
        qr_request(key).says("key"@, key),
        qr_request(key).mode == Mode::Fresh,
{
    reveal_strlit("key");
    let query = qr_request(key).query;
    assert(query[0].0 == "key"@);
}

/// How far a login has come is asked under the key of its code, and no kept answer satisfies that.
pub proof fn logins_are_asked_after_by_key(key: Seq<char>)
    ensures
        check_request(key).path == "/login/qr/check"@,
        check_request(key).says("key"@, key),
        check_request(key).mode == Mode::Fresh,
{
    reveal_strlit("key");
    let query = check_request(key).query;
    assert(query[0].0 == "key"@);
}

/// The membership of a day is claimed under that day, and only once.
pub proof fn days_are_claimed_by_date(day: Seq<char>)
    ensures
        claim_request(day).path == "/youth/day/vip"@,
        claim_request(day).says("receive_day"@, day),
        claim_request(day).mode == Mode::Writing,
{
    reveal_strlit("receive_day");
    let query = claim_request(day).query;
    assert(query[0].0 == "receive_day"@);
}

/// Songs are added to the playlist that was meant.
pub proof fn songs_are_added_to_the_playlist_that_was_meant(list_id: i64, songs: Seq<SongModel>)
    ensures
        add_request(list_id, songs).path == "/playlist/tracks/add"@,
        add_request(list_id, songs).says_number("listid"@, list_id as int),
        add_request(list_id, songs).says("data"@, text::joined(track_entries(songs), ","@)),
        add_request(list_id, songs).mode == Mode::Writing,
{
    reveal_strlit("listid");
    reveal_strlit("data");
    let query = add_request(list_id, songs).query;
    text::numbers_are_read_back(list_id as int);
    assert(query[0].0 == "listid"@);
    assert(query[1].0 == "data"@);
}

/// The playlist that was meant is deleted, at whichever service, and only once.
pub proof fn the_playlist_that_was_meant_is_deleted(list_id: i64, source: SourceKind)
    ensures
        source != SourceKind::Netease ==> delete_request(source, list_id).path == "/playlist/del"@
            && delete_request(source, list_id).says_number("listid"@, list_id as int),
        source == SourceKind::Netease ==> delete_request(source, list_id).path
            == "/playlist/delete"@ && delete_request(source, list_id).says_number(
            "id"@,
            list_id as int,
        ),
        delete_request(source, list_id).mode == Mode::Writing,
{
    netease::the_playlist_that_was_meant_is_deleted(list_id);
    text::numbers_are_read_back(list_id as int);
    assert(delete_request(SourceKind::Kugou, list_id).query[0].0 == "listid"@);
}

/// A playlist is created under the name that was given, at whichever service, and only once.
pub proof fn playlists_are_created_under_their_name(name: Seq<char>, source: SourceKind)
    ensures
        source != SourceKind::Netease ==> create_request(source, name).path == "/playlist/add"@,
        source == SourceKind::Netease ==> create_request(source, name).path == "/playlist/create"@,
        create_request(source, name).says("name"@, name),
        create_request(source, name).mode == Mode::Writing,
{
    netease::playlists_are_created_under_their_name(name);
    reveal_strlit("name");
    reveal_strlit("type");
    assert("name"@[0] != "type"@[0]);
    let query = create_request(SourceKind::Kugou, name).query;
    assert(query[0].0 == "name"@);
    assert(query[1].0 == "type"@);
}

/// What is asked about the user is asked at addresses of their own, and no kept answer satisfies it.
pub proof fn questions_about_the_user_have_addresses()
    ensures
        key_request().path == "/login/qr/key"@ && key_request().mode == Mode::Fresh,
        user_request().path == "/user/detail"@ && user_request().mode == Mode::Fresh,
        membership_request().path == "/user/vip/detail"@ && membership_request().mode
            == Mode::Fresh,
        upgrade_request().path == "/youth/day/vip/upgrade"@ && upgrade_request().mode
            == Mode::Writing,
        device_request().path == "/register/dev"@ && device_request().mode == Mode::Fresh,
{
}

/// Songs are taken out under the numbers of their entries in the playlist that was meant, one after
/// the other and as many as are counted; songs without such a number are left. At Netease the songs'
/// own numbers stand for them.
pub proof fn songs_are_removed_from_the_playlist_that_was_meant(
    source: SourceKind,
    list_id: i64,
    songs: Seq<SongModel>,
)
    requires
        source != SourceKind::Netease,
    ensures
        removal(source, list_id, songs) is Some <==> exists|i: int|
            0 <= i < songs.len() && (#[trigger] songs[i]).file_id is Some,
        removal(source, list_id, songs) matches Some((request, count)) ==> {
            &&& request.path == "/playlist/tracks/del"@
            &&& request.mode == Mode::Writing
            &&& request.says_number("listid"@, list_id as int)
            &&& request.says("fileids"@, text::joined(written_numbers(entry_numbers(songs)), ","@))
            &&& count == entry_numbers(songs).len()
        },
        forall|id: i64|
            entry_numbers(songs).contains(id) <==> exists|i: int|
                0 <= i < songs.len() && (#[trigger] songs[i]).file_id == Some(id),
{
    lemma_entry_numbers(songs);
    reveal_strlit("listid");
    reveal_strlit("fileids");
    text::numbers_are_read_back(list_id as int);
    if removal(source, list_id, songs) is Some {
        let query = (removal(source, list_id, songs)->0).0.query;
        assert(query[0].0 == "listid"@);
        assert(query[1].0 == "fileids"@);
        let id = entry_numbers(songs)[0];
        assert(entry_numbers(songs).contains(id));
    }
    if exists|i: int| 0 <= i < songs.len() && (#[trigger] songs[i]).file_id is Some {
        let i = choose|i: int| 0 <= i < songs.len() && (#[trigger] songs[i]).file_id is Some;
        assert(entry_numbers(songs).contains(songs[i].file_id->0));
    }
}

/// The numbers of the entries are those of the songs.
proof fn lemma_entry_numbers(songs: Seq<SongModel>)
    ensures
        forall|id: i64|
            entry_numbers(songs).contains(id) <==> exists|i: int|
                0 <= i < songs.len() && (#[trigger] songs[i]).file_id == Some(id),
    decreases songs.len(),
{
    if songs.len() > 0 {
        let less = songs.drop_last();
        let before = entry_numbers(less);
        let after = entry_numbers(songs);
        lemma_entry_numbers(less);
        assert forall|id: i64|
            after.contains(id) <==> exists|i: int|
                0 <= i < songs.len() && (#[trigger] songs[i]).file_id == Some(id) by {
            if after.contains(id) {
                let k = choose|k: int| 0 <= k < after.len() && after[k] == id;
                if k < before.len() {
                    assert(before[k] == id);
                    let i = choose|i: int|
                        0 <= i < less.len() && (#[trigger] less[i]).file_id == Some(id);
                    assert(songs[i].file_id == Some(id));
                } else {
                    assert(songs[songs.len() - 1].file_id == Some(id));
                }
            }
            if exists|i: int| 0 <= i < songs.len() && (#[trigger] songs[i]).file_id == Some(id) {
                let i = choose|i: int|
                    0 <= i < songs.len() && (#[trigger] songs[i]).file_id == Some(id);
                if i < less.len() {
                    assert(less[i].file_id == Some(id));
                    assert(before.contains(id));
                    let k = choose|k: int| 0 <= k < before.len() && before[k] == id;
                    assert(after[k] == id);
                } else {
                    assert(after[after.len() - 1] == id);
                }
            }
        }
    }
}

/// An entry names the song, its recording, its album and its number there, in this order, and can be
/// taken apart again; a name without bars and commas is kept as it is.
pub proof fn entries_can_be_taken_apart(song: SongModel)
    requires
        !song.hash.contains('|'),
        !song.album_id.contains('|'),
    ensures
        text::pieces(track_entry(song), seq!['|']) == seq![
            safe_name(song.name),
            song.hash,
            song.album_id,
            text::signed_decimal(song.album_audio_id as int),
        ],
        safe_name(song.name).len() == song.name.len(),
        forall|i: int|
            0 <= i < song.name.len() && song.name[i] != '|' && song.name[i] != ',' ==> (
            #[trigger] safe_name(song.name)[i]) == song.name[i],
        !safe_name(song.name).contains('|'),
        !safe_name(song.name).contains(','),
{
    reveal_strlit("|");
    let number = text::signed_decimal(song.album_audio_id as int);
    let parts = seq![safe_name(song.name), song.hash, song.album_id, number];
    assert("|"@ =~= seq!['|']);
    assert forall|i: int| 0 <= i < number.len() implies number[i] != '|' by {
        if song.album_audio_id < 0 {
            let rest = text::decimal((-(song.album_audio_id as int)) as nat);
            text::reading_undoes_writing((-(song.album_audio_id as int)) as nat);
            if i > 0 {
                assert(number[i] == rest[i - 1]);
                assert(text::is_digit(rest[i - 1]));
            }
        } else {
            text::reading_undoes_writing(song.album_audio_id as nat);
            assert(text::is_digit(number[i]));
        }
    }
    assert forall|i: int| 0 <= i < parts.len() implies !(#[trigger] parts[i]).contains('|') by {
        if i == 0 {
            assert(parts[0] == safe_name(song.name));
        } else if i == 1 {
            assert(parts[1] == song.hash);
        } else if i == 2 {
            assert(parts[2] == song.album_id);
        } else {
            assert(parts[3] == number);
        }
    }
    text::splitting_undoes_joining(parts, '|');
    assert(parts.drop_last() =~= seq![safe_name(song.name), song.hash, song.album_id]);
    assert(parts.drop_last().drop_last() =~= seq![safe_name(song.name), song.hash]);
    assert(parts.drop_last().drop_last().drop_last() =~= seq![safe_name(song.name)]);
    reveal_with_fuel(text::joined, 5);
    assert(text::joined(parts, seq!['|']) =~= track_entry(song));
}

// ---------------------------------------------------------------------------
// What the answers mean
// ---------------------------------------------------------------------------
/// What an answer about a login means: 4 that it is complete, 2 that it waits for the user's
/// confirmation, 0 that the code is gone, and anything else that it has not been scanned. Token and
/// user are those of the answer; the service sets no cookie.
pub proof fn codes_of_a_login_mean_one_thing(root: Json, code: i64, token: String)
    ensures
        json::at(json::payload(root), "status"@) == Some(Json::Int(code)) ==> {
            &&& login_state(root).status == QrStatus::Success <==> code == 4
            &&& login_state(root).status == QrStatus::Pending <==> code == 2
            &&& login_state(root).status == QrStatus::Expired <==> code == 0
            &&& login_state(root).status == QrStatus::Waiting <==> code != 0 && code != 2 && code
                != 4
        },
        json::at(json::payload(root), "token"@) == Some(Json::Text(token)) && text::trimmed(
            token@,
        ).len() > 0 ==> login_state(root).token == Some(text::trimmed(token@)),
        json::at(json::payload(root), "userid"@) == Some(Json::Int(code)) ==> (login_state(
            root,
        ).userid matches Some(id) && text::integer(id) == Some(code as int)),
        json::at(json::payload(root), "token"@) is None ==> login_state(root).token is None,
        login_state(root).cookie is None,
{
    reveal_with_fuel(json::first_number, 3);
    reveal_with_fuel(json::first_text, 2);
    assert(seq!["status", "code"][0]@ == "status"@);
    assert(seq!["token"][0]@ == "token"@);
    assert(seq!["userid"][0]@ == "userid"@);
    text::numbers_are_read_back(code as int);
}

/// A change was refused exactly where the answer has an error code other than 0, and that code is
/// handed on.
pub proof fn refused_changes_have_a_code(path: Seq<char>, root: Json, code: i64)
    ensures
        json::at(root, "error_code"@) == Some(Json::Int(code)) ==> (write_error(path, root) is Some
            <==> code != 0),
        json::at(root, "error_code"@) == Some(Json::Int(code)) && code != 0 ==> (write_error(
            path,
            root,
        ) matches Some(ErrorModel::Api { path: at, code: told, .. }) && at == path && told == code),
        json::at(root, "error_code"@) is None ==> write_error(path, root) is None,
{
}

/// A membership is the standard one where the answer says so at its top, else the first that holds
/// among the others, and there is none where none holds.
pub proof fn memberships_are_those_that_hold(root: Json, i: int)
    ensures
        json::at(json::payload(root), "is_vip"@) == Some(Json::Int(1)) ==> membership_of(root).kind
            == VipKindModel::Standard,
        json::at(json::payload(root), "is_vip"@) == Some(Json::Int(0)) && json::array_at(
            json::payload(root),
            "busi_vip"@,
        ) is None ==> membership_of(root).kind == VipKindModel::Absent,
        ({
            let entries = json::array_at(json::payload(root), "busi_vip"@);
            json::at(json::payload(root), "is_vip"@) == Some(Json::Int(0)) && entries is Some && 0
                <= i < entries->0@.len() && holds(entries->0@[i]) && (forall|k: int|
                0 <= k < i ==> !holds(#[trigger] entries->0@[k])) ==> membership_of(root)
                == other_membership(entries->0@[i])
        }),
{
    reveal_with_fuel(json::first_number, 3);
    assert(seq!["is_vip", "vip_type"][0]@ == "is_vip"@);
    if let Some(entries) = json::array_at(json::payload(root), "busi_vip"@) {
        if 0 <= i < entries@.len() && holds(entries@[i]) && (forall|k: int|
            0 <= k < i ==> !holds(#[trigger] entries@[k])) {
            lemma_first_membership(entries@, i);
        }
    }
}

/// Whether an entry is a membership that holds.
pub open spec fn holds(entry: Json) -> bool {
    json::first_number(entry, seq!["is_vip"]) == Some(1i64)
}

/// The first membership that holds is found.
proof fn lemma_first_membership(entries: Seq<Json>, i: int)
    requires
        0 <= i < entries.len(),
        holds(entries[i]),
        forall|k: int| 0 <= k < i ==> !holds(#[trigger] entries[k]),
    ensures
        first_membership(entries) == other_membership(entries[i]),
    decreases entries.len(),
{
    if i > 0 {
        assert(!holds(entries[0]));
        assert forall|k: int| 0 <= k < i - 1 implies !holds(
            #[trigger] entries.drop_first()[k],
        ) by {
            assert(!holds(entries[k + 1]));
        }
        lemma_first_membership(entries.drop_first(), i - 1);
    }
}

/// The line about a membership names its kind first and its end last, and only no membership is
/// called none.
pub proof fn labels_name_the_membership(info: VipModel)
    ensures
        vip_label(info) == "非会员"@ <== info.kind is Absent,
        info.kind is Standard ==> text::begins(vip_label(info), "豪华 "@),
        info.kind is Concept ==> text::begins(vip_label(info), "概念版 "@),
        !(info.kind is Absent) && month_and_day(info.end_time).len() > 0 ==> text::ends(
            vip_label(info),
            " · 至 "@ + month_and_day(info.end_time),
        ),
{
    reveal_strlit("豪华");
    reveal_strlit("豪华 ");
    reveal_strlit("概念版");
    reveal_strlit("概念版 ");
    reveal_strlit(" ");
    let label = vip_label(info);
    if info.kind is Standard {
        assert(label.subrange(0, "豪华 "@.len() as int) =~= "豪华 "@);
    }
    if info.kind is Concept {
        assert(label.subrange(0, "概念版 "@.len() as int) =~= "概念版 "@);
    }
    if !(info.kind is Absent) && month_and_day(info.end_time).len() > 0 {
        let tail = " · 至 "@ + month_and_day(info.end_time);
        assert(label.subrange(label.len() - tail.len(), label.len() as int) =~= tail);
    }
}

/// A user is described by the name, the picture, the grade and the time of the answer.
pub proof fn users_are_described_as_answered(root: Json, name: String, grade: i64, minutes: i64)
    ensures
        json::at(json::payload(root), "nickname"@) == Some(Json::Text(name)) && text::trimmed(
            name@,
        ).len() > 0 ==> user_of(root).nickname == text::trimmed(name@),
        json::at(json::payload(root), "pic"@) is None ==> user_of(root).pic is None,
        json::at(json::payload(root), "p_grade"@) == Some(Json::Int(grade)) && 0 <= grade
            <= u32::MAX ==> user_of(root).grade == Some(grade as u32),
        json::at(json::payload(root), "duration"@) == Some(Json::Int(minutes)) && minutes >= 0
            ==> user_of(root).duration_min == Some(minutes as u64),
{
    reveal_with_fuel(json::first_number, 2);
    reveal_with_fuel(json::first_text, 2);
    assert(seq!["nickname"][0]@ == "nickname"@);
    assert(seq!["pic"][0]@ == "pic"@);
    assert(seq!["p_grade"][0]@ == "p_grade"@);
    assert(seq!["duration"][0]@ == "duration"@);
}

/// No batch holds more songs than the service takes, and all but the last are full.
pub proof fn batches_are_small(songs: Seq<SongModel>, number: int)
    requires
        0 <= number < batch_count(songs.len() as int),
    ensures
        0 < batch(songs, number).len() <= 20,
        number + 1 < batch_count(songs.len() as int) ==> batch(songs, number).len() == 20,
{
}

} // verus!
