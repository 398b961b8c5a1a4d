//! Everything that can go wrong, what to tell the user about it, and whether to try again.
use vstd::prelude::*;
use vstd::string::StringExecFns;
use crate::text;

verus! {

/// A request that broke down on the way: which of the usual ways it was, and what the HTTP client
/// says of it.
#[derive(Debug)]
pub struct Breakdown {
    /// The time ran out.
    pub timeout: bool,
    /// No connection came about.
    pub connect: bool,
    /// The body broke off while it was read.
    pub body: bool,
    /// The body could not be decoded.
    pub decode: bool,
    /// The words of the HTTP client.
    pub words: String,
}

/// Everything that can go wrong.
#[derive(Debug)]
pub enum AppError {
    /// The request did not get through.
    Http(Breakdown),
    /// The server answered with a status that is no success.
    HttpStatus { path: String, status: u16 },
    /// The server answered with an error code of its own.
    Api { path: String, code: i64, message: String },
    /// The server answered with success, but with something else than JSON.
    NonJsonBody { path: String, status: u16, preview: String },
    /// A file operation failed; what the system says of it.
    Io(String),
    /// An operation on the file at `path` failed; what the system says of it.
    IoAt { path: String, source: String },
    Config(String),
    Audio(String),
    NotFound(String),
    Other(String),
}

/// What an error is about, with texts as character sequences.
#[verifier::ext_equal]
pub enum ErrorModel {
    Http { timeout: bool, connect: bool, body: bool, decode: bool, words: Seq<char> },
    HttpStatus { path: Seq<char>, status: u16 },
    Api { path: Seq<char>, code: i64, message: Seq<char> },
    NonJsonBody { path: Seq<char>, status: u16, preview: Seq<char> },
    Io(Seq<char>),
    IoAt { path: Seq<char>, source: Seq<char> },
    Config(Seq<char>),
    Audio(Seq<char>),
    NotFound(Seq<char>),
    Other(Seq<char>),
}

impl DeepView for AppError {
    type V = ErrorModel;

    open spec fn deep_view(&self) -> ErrorModel {
        match self {
            AppError::Http(b) => ErrorModel::Http {
                timeout: b.timeout,
                connect: b.connect,
                body: b.body,
                decode: b.decode,
                words: b.words@,
            },
            AppError::HttpStatus { path, status } => ErrorModel::HttpStatus {
                path: path@,
                status: *status,
            },
            AppError::Api { path, code, message } => ErrorModel::Api {
                path: path@,
                code: *code,
                message: message@,
            },
            AppError::NonJsonBody { path, status, preview } => ErrorModel::NonJsonBody {
                path: path@,
                status: *status,
                preview: preview@,
            },
            AppError::Io(words) => ErrorModel::Io(words@),
            AppError::IoAt { path, source } => ErrorModel::IoAt { path: path@, source: source@ },
            AppError::Config(words) => ErrorModel::Config(words@),
            AppError::Audio(words) => ErrorModel::Audio(words@),
            AppError::NotFound(words) => ErrorModel::NotFound(words@),
            AppError::Other(words) => ErrorModel::Other(words@),
        }
    }
}

/// Whether a page beyond the last was asked for.
pub open spec fn page_out_of_range(error: ErrorModel) -> bool {
    error matches ErrorModel::Api { code, .. } && code == 149
}

/// Whether the error asks for a login.
pub open spec fn auth_related(error: ErrorModel) -> bool {
    error matches ErrorModel::Api { code, .. } && (code == 152 || code == 20005 || code == 20010
        || code == 20017 || code == 20028 || code == 40004)
}

/// Whether a login existed and is no longer valid.
pub open spec fn login_expired(error: ErrorModel) -> bool {
    error matches ErrorModel::Api { code, .. } && (code == 20005 || code == 20017 || code == 40004)
}

/// Whether the server could not be reached at all.
pub open spec fn connectivity(error: ErrorModel) -> bool {
    error matches ErrorModel::Http { connect, timeout, .. } && (connect || timeout)
}

/// Whether the same request may succeed a moment later.
pub open spec fn transient(error: ErrorModel) -> bool {
    match error {
        ErrorModel::Http { timeout, connect, body, decode, .. } => !timeout && (connect || body
            || decode),
        ErrorModel::HttpStatus { status, .. } => status == 408 || status == 429 || 500 <= status
            < 600,
        _ => false,
    }
}

/// The error in words.
pub open spec fn description(error: ErrorModel) -> Seq<char> {
    match error {
        ErrorModel::Http { words, .. } => "网络请求失败："@ + words,
        ErrorModel::HttpStatus { path, status } => "接口 "@ + path + " 返回状态码 "@ + text::decimal(
            status as nat,
        ),
        ErrorModel::Api { path, code, message } => "接口 "@ + path + " 返回错误：code="@
            + text::signed_decimal(code as int) + " "@ + message,
        ErrorModel::NonJsonBody { path, status, preview } => "接口 "@ + path
            + " 返回的不是 JSON（HTTP "@ + text::decimal(status as nat) + "）："@ + preview,
        ErrorModel::Io(words) => "IO 错误："@ + words,
        ErrorModel::IoAt { path, source } => "文件 "@ + path + " 操作失败："@ + source,
        ErrorModel::Config(words) => "配置错误："@ + words,
        ErrorModel::Audio(words) => "音频引擎错误："@ + words,
        ErrorModel::NotFound(words) => "未找到资源："@ + words,
        ErrorModel::Other(words) => words,
    }
}

/// The one line shown to the user.
pub open spec fn hint(error: ErrorModel) -> Seq<char> {
    if login_expired(error) {
        "登录态已失效：按 L 重新扫码（酷狗会定期轮换 token）"@
    } else if auth_related(error) {
        "需要登录：按 L 扫码，或配置 cookie（--cookie / 配置文件）"@
    } else {
        match error {
            ErrorModel::Http { timeout, connect, .. } => if timeout {
                "请求超时，请检查网络或代理设置"@
            } else if connect {
                "无法连接 KuGouMusicApi 服务，请确认它已启动（默认 127.0.0.1:3000）"@
            } else {
                description(error)
            },
            ErrorModel::NonJsonBody { path, preview, .. } => if text::begins(
                text::trimmed_start(preview),
                "<"@,
            ) {
                "接口 "@ + path
                    + " 返回的是网页不是 JSON：该端口上跑的不是 KuGouMusicApi，检查配置里这个音源的 api_base"@
            } else {
                "接口 "@ + path + " 返回的不是 JSON（HTTP 200）：检查该音源的 api_base"@
            },
            _ => description(error),
        }
    }
}

impl AppError {
    /// Adds the path of the file to what the system says of a failed file operation.
    pub fn io_at(path: String, source: String) -> (r: AppError)
        ensures
            r == (AppError::IoAt { path, source }),
    {
        AppError::IoAt { path, source }
    }

    /// Whether a page beyond the last was asked for.
    pub fn is_page_out_of_range(&self) -> (r: bool)
        ensures
            r == page_out_of_range(self.deep_view()),
    {
        match self {
            AppError::Api { code, .. } => *code == 149,
            _ => false,
        }
    }

    /// Whether the error asks for a login.
    pub fn is_auth_related(&self) -> (r: bool)
        ensures
            r == auth_related(self.deep_view()),
    {
        match self {
            AppError::Api { code, .. } => *code == 152 || *code == 20005 || *code == 20010 || *code
                == 20017 || *code == 20028 || *code == 40004,
            _ => false,
        }
    }

    /// Whether a login existed and is no longer valid.
    pub fn is_login_expired(&self) -> (r: bool)
        ensures
            r == login_expired(self.deep_view()),
    {
        match self {
            AppError::Api { code, .. } => *code == 20005 || *code == 20017 || *code == 40004,
            _ => false,
        }
    }

    /// Whether the server could not be reached at all.
    pub fn is_connectivity(&self) -> (r: bool)
        ensures
            r == connectivity(self.deep_view()),
    {
        match self {
            AppError::Http(b) => b.connect || b.timeout,
            _ => false,
        }
    }

    /// Whether the same request may succeed a moment later.
    pub fn is_transient(&self) -> (r: bool)
        ensures
            r == transient(self.deep_view()),
    {
        match self {
            AppError::Http(b) => !b.timeout && (b.connect || b.body || b.decode),
            AppError::HttpStatus { status, .. } => *status == 408 || *status == 429 || (500
                <= *status && *status < 600),
            _ => false,
        }
    }

    /// The error in words.
    pub fn describe(&self) -> (r: String)
        ensures
            r@ == description(self.deep_view()),
    {
        match self {
            AppError::Http(b) => text::join2("网络请求失败：", b.words.as_str()),
            AppError::HttpStatus { path, status } => {
                let mut out = text::join3("接口 ", path.as_str(), " 返回状态码 ");
                out.append(text::write_u64(*status as u64).as_str());
                out
            },
            AppError::Api { path, code, message } => {
                let mut out = text::join3("接口 ", path.as_str(), " 返回错误：code=");
                out.append(text::write_i64(*code).as_str());
                out.append(" ");
                out.append(message.as_str());
                out
            },
            AppError::NonJsonBody { path, status, preview } => {
                let mut out = text::join3("接口 ", path.as_str(), " 返回的不是 JSON（HTTP ");
                out.append(text::write_u64(*status as u64).as_str());
                out.append("）：");
                out.append(preview.as_str());
                out
            },
            AppError::Io(words) => text::join2("IO 错误：", words.as_str()),
            AppError::IoAt { path, source } => {
                let mut out = text::join3("文件 ", path.as_str(), " 操作失败：");
                out.append(source.as_str());
                out
            },
            AppError::Config(words) => text::join2("配置错误：", words.as_str()),
            AppError::Audio(words) => text::join2("音频引擎错误：", words.as_str()),
            AppError::NotFound(words) => text::join2("未找到资源：", words.as_str()),
            AppError::Other(words) => words.clone(),
        }
    }

    /// The one line shown to the user.
    pub fn user_hint(&self) -> (r: String)
        ensures
            r@ == hint(self.deep_view()),
    {
        if self.is_login_expired() {
            return "登录态已失效：按 L 重新扫码（酷狗会定期轮换 token）".to_owned();
        }
        if self.is_auth_related() {
            return "需要登录：按 L 扫码，或配置 cookie（--cookie / 配置文件）".to_owned();
        }
        match self {
            AppError::Http(b) => if b.timeout {
                "请求超时，请检查网络或代理设置".to_owned()
            } else if b.connect {
                "无法连接 KuGouMusicApi 服务，请确认它已启动（默认 127.0.0.1:3000）".to_owned()
            } else {
                self.describe()
            },
            AppError::NonJsonBody { path, preview, .. } => {
                let chars = text::to_chars(preview.as_str());
                let mark = text::to_chars("<");
                if text::is_at(text::trim_start(chars.as_slice()), mark.as_slice(), 0) {
                    text::join3(
                        "接口 ",
                        path.as_str(),
                        " 返回的是网页不是 JSON：该端口上跑的不是 KuGouMusicApi，检查配置里这个音源的 api_base",
                    )
                } else {
                    text::join3(
                        "接口 ",
                        path.as_str(),
                        " 返回的不是 JSON（HTTP 200）：检查该音源的 api_base",
                    )
                }
            },
            _ => self.describe(),
        }
    }
}

/// An answer with an error code shows that the server is there: it is neither a failure to connect
/// nor a reason to ask again.
pub proof fn refusals_are_answers(path: Seq<char>, code: i64, message: Seq<char>)
    ensures
        !connectivity(ErrorModel::Api { path, code, message }),
        !transient(ErrorModel::Api { path, code, message }),
{
}

/// A login that has expired is one that asks for a login.
pub proof fn expired_logins_ask_for_a_login(error: ErrorModel)
    requires
        login_expired(error),
    ensures
        auth_related(error),
{
}

/// Only failures that pass are a reason to ask again: a connection that was refused or broke off, a
/// server that asks for patience or has trouble of its own. A timeout is none, and neither is any
/// other status.
pub proof fn only_passing_failures_are_tried_again(error: ErrorModel, status: u16)
    ensures
        error matches ErrorModel::Http { timeout, .. } && timeout ==> !transient(error),
        error matches ErrorModel::Http { timeout, connect, .. } && connect && !timeout ==> transient(
            error,
        ),
        error matches ErrorModel::HttpStatus { status: told, .. } && told == status ==> (transient(
            error,
        ) <==> status == 408 || status == 429 || (500 <= status && status <= 599)),
        error is Api ==> !transient(error) && !connectivity(error),
        connectivity(error) ==> error is Http,
        error matches ErrorModel::Http { timeout, connect, .. } && (timeout || connect)
            ==> connectivity(error),
{
}

/// Codes that ask for a login are told as such, and those of a login that has run out as that; the
/// code of a page behind the last is none of them.
pub proof fn codes_tell_what_is_wrong(path: Seq<char>, code: i64, message: Seq<char>)
    ensures
        ({
            let error = ErrorModel::Api { path, code, message };
            &&& code == 20005 || code == 20017 || code == 40004 ==> login_expired(error)
                && auth_related(error)
            &&& code == 152 || code == 20010 || code == 20028 ==> auth_related(error)
                && !login_expired(error)
            &&& page_out_of_range(error) <==> code == 149
            &&& code == 149 || code == 0 ==> !auth_related(error)
        }),
{
}

} // verus!
