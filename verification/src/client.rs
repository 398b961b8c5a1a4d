//! Requests to the services and what becomes of their answers: the address, the cookie, when to try
//! again and how an answer is told from a failure.
use vstd::prelude::*;
use vstd::arithmetic::power::{pow, lemma_pow_increases};
use vstd::string::StringExecFns;
use crate::error;
use crate::error::{AppError, ErrorModel};
use crate::json;
use crate::json::Json;
use crate::model;
use crate::text;

verus! {

// ---------------------------------------------------------------------------
// Requests
// ---------------------------------------------------------------------------
/// How a request is sent.
#[derive(Debug, Clone, Copy, PartialEq, Eq, Structural)]
pub enum Mode {
    /// A reading request that an answer kept by the server may satisfy.
    Cached,
    /// A reading request that is made unique by the time, so that no kept answer satisfies it.
    Fresh,
    /// A writing request: unique as well, and never sent a second time.
    Writing,
}

/// A request to a service.
#[derive(Debug)]
pub struct Request {
    pub path: String,
    pub query: Vec<(String, String)>,
    pub mode: Mode,
}

/// A request with texts as character sequences.
#[verifier::ext_equal]
pub struct RequestModel {
    pub path: Seq<char>,
    pub query: Seq<(Seq<char>, Seq<char>)>,
    pub mode: Mode,
}

impl DeepView for Request {
    type V = RequestModel;

    open spec fn deep_view(&self) -> RequestModel {
        RequestModel { path: self.path@, query: self.query.deep_view(), mode: self.mode }
    }
}

impl RequestModel {
    /// Whether the request carries this value under this name, and no other.
    pub open spec fn says(self, name: Seq<char>, value: Seq<char>) -> bool {
        &&& exists|i: int| 0 <= i < self.query.len() && (#[trigger] self.query[i]).0 == name
        &&& forall|i: int|
            0 <= i < self.query.len() && (#[trigger] self.query[i]).0 == name
                ==> self.query[i].1 == value
    }

    /// Whether the request carries this number under this name, and no other.
    pub open spec fn says_number(self, name: Seq<char>, n: int) -> bool {
        &&& exists|i: int| 0 <= i < self.query.len() && (#[trigger] self.query[i]).0 == name
        &&& forall|i: int|
            0 <= i < self.query.len() && (#[trigger] self.query[i]).0 == name ==> text::integer(
                self.query[i].1,
            ) == Some(n)
    }

    /// Whether the request carries nothing under this name.
    pub open spec fn silent_on(self, name: Seq<char>) -> bool {
        forall|i: int| 0 <= i < self.query.len() ==> (#[trigger] self.query[i]).0 != name
    }
}

/// Requests that say different things differ: in a text, in a number, or in that one of them says
/// nothing.
pub proof fn different_wishes_are_different_requests(
    a: RequestModel,
    b: RequestModel,
    name: Seq<char>,
    first: Seq<char>,
    second: Seq<char>,
    m: int,
    n: int,
)
    ensures
        a.says(name, first) && b.says(name, second) && first != second ==> a != b,
        a.says_number(name, m) && b.says_number(name, n) && m != n ==> a != b,
        a.says(name, first) && b.silent_on(name) ==> a != b,
{
}

impl Request {
    /// A request without parameters.
    pub fn new(path: &str, mode: Mode) -> (r: Request)
        ensures
            r.deep_view() == (RequestModel { path: path@, query: Seq::empty(), mode }),
    {
        let r = Request { path: path.to_owned(), query: Vec::new(), mode };
        proof {
            assert(r.query.deep_view() =~= Seq::<(Seq<char>, Seq<char>)>::empty());
        }
        r
    }

    /// The request with one more parameter.
    pub fn with(self, name: &str, value: String) -> (r: Request)
        ensures
            r.deep_view() == (RequestModel {
                query: self.deep_view().query.push((name@, value@)),
                ..self.deep_view()
            }),
    {
        let mut r = self;
        let pair = (name.to_owned(), value);
        r.query.push(pair);
        proof {
            assert(r.query.deep_view() =~= self.query.deep_view().push((name@, value@)));
        }
        r
    }

    /// The parameters to send at `now_ms`: those of the request, and the time where no kept answer
    /// must satisfy it.
    pub fn parameters(&self, now_ms: u64) -> (r: Vec<(String, String)>)
        ensures
            r.deep_view() == sent_query(self.deep_view(), now_ms as nat),
    {
        let mut r = model::copy_pairs(&self.query);
        proof {
            assert(r.deep_view() =~= self.query.deep_view());
        }
        if self.mode != Mode::Cached {
            let ghost before = r.deep_view();
            let pair = ("timestamp".to_owned(), text::write_u64(now_ms));
            r.push(pair);
            proof {
                assert(r.deep_view() =~= before.push(
                    ("timestamp"@, text::decimal(now_ms as nat)),
                ));
            }
        }
        r
    }

    /// Whether a failure may be answered by sending the request again.
    pub fn is_repeatable(&self) -> (r: bool)
        ensures
            r == (self.mode != Mode::Writing),
    {
        self.mode != Mode::Writing
    }
}

/// The parameters sent for `request` at the time `now_ms`.
pub open spec fn sent_query(request: RequestModel, now_ms: nat) -> Seq<(Seq<char>, Seq<char>)> {
    if request.mode == Mode::Cached {
        request.query
    } else {
        request.query.push(("timestamp"@, text::decimal(now_ms)))
    }
}

/// Two tries of a request that must not be satisfied by a kept answer differ, as the times do.
pub proof fn fresh_requests_differ(request: RequestModel, first_ms: nat, second_ms: nat)
    requires
        request.mode != Mode::Cached,
        first_ms != second_ms,
    ensures
        sent_query(request, first_ms) != sent_query(request, second_ms),
{
    text::reading_undoes_writing(first_ms);
    text::reading_undoes_writing(second_ms);
    assert(sent_query(request, first_ms).last().1 == text::decimal(first_ms));
    assert(sent_query(request, second_ms).last().1 == text::decimal(second_ms));
}

// ---------------------------------------------------------------------------
// The connection
// ---------------------------------------------------------------------------
/// `s` without the slashes at its end.
pub open spec fn without_slashes(s: Seq<char>) -> Seq<char>
    decreases s.len(),
{
    if s.len() > 0 && s.last() == '/' {
        without_slashes(s.drop_last())
    } else {
        s
    }
}

/// A cookie that is not blank.
pub open spec fn used_cookie(cookie: Option<Seq<char>>) -> Option<Seq<char>> {
    match cookie {
        Some(c) if text::trimmed(c).len() > 0 => Some(c),
        _ => None,
    }
}

/// Where a service answers and under whose name it is asked.
#[derive(Debug)]
pub struct ApiClient {
    base: String,
    cookie: Option<String>,
}

impl ApiClient {
    /// The address, without slashes at its end.
    pub closed spec fn base_text(&self) -> Seq<char> {
        self.base@
    }

    /// The cookie that is sent.
    pub closed spec fn cookie_sent(&self) -> Option<Seq<char>> {
        self.cookie.deep_view()
    }

    /// A client for the service at `base`.
    pub fn new(base: &str, cookie: Option<String>) -> (r: ApiClient)
        ensures
            r.base_text() == without_slashes(base@),
            r.cookie_sent() == used_cookie(cookie.deep_view()),
    {
        ApiClient { base: trim_slashes(base), cookie: filter_cookie(cookie) }
    }

    /// The address, without slashes at its end.
    pub fn base(&self) -> (r: &str)
        ensures
            r@ == self.base_text(),
    {
        self.base.as_str()
    }

    /// The cookie to send, if any.
    pub fn cookie(&self) -> (r: Option<&str>)
        ensures
            match r {
                Some(c) => self.cookie_sent() == Some(c@),
                None => self.cookie_sent() is None,
            },
    {
        match &self.cookie {
            Some(c) => Some(c.as_str()),
            None => None,
        }
    }

    /// Exchanges the cookie.
    pub fn set_cookie(&mut self, cookie: Option<String>)
        ensures
            final(self).base_text() == old(self).base_text(),
            final(self).cookie_sent() == used_cookie(cookie.deep_view()),
    {
        self.cookie = filter_cookie(cookie);
    }

    /// The address of `path` at this service.
    pub fn url(&self, path: &str) -> (r: String)
        ensures
            r@ == self.base_text() + path@,
    {
        text::join2(self.base.as_str(), path)
    }
}

/// Drops the slashes at the end.
fn trim_slashes(base: &str) -> (r: String)
    ensures
        r@ == without_slashes(base@),
{
    let chars = text::to_chars(base);
    let mut end: usize = chars.len();
    proof {
        assert(chars@.subrange(0, chars@.len() as int) =~= chars@);
    }
    while end > 0 && chars[end - 1] == '/'
        invariant
            end <= chars@.len(),
            chars@ == base@,
            without_slashes(base@) == without_slashes(chars@.subrange(0, end as int)),
        decreases end,
    {
        proof {
            assert(chars@.subrange(0, end as int).drop_last() =~= chars@.subrange(0, end - 1));
        }
        end -= 1;
    }
    text::from_chars(&chars.as_slice()[0..end])
}

/// Drops a blank cookie.
fn filter_cookie(cookie: Option<String>) -> (r: Option<String>)
    ensures
        r.deep_view() == used_cookie(cookie.deep_view()),
{
    match cookie {
        Some(c) => if text::is_blank(c.as_str()) {
            None
        } else {
            Some(c)
        },
        None => None,
    }
}

// ---------------------------------------------------------------------------
// Trying again
// ---------------------------------------------------------------------------
/// How long to wait before the second try; each further wait is three times as long.
pub const BASE_DELAY_MS: u64 = 300;

/// How long to wait after the given try, in milliseconds.
pub open spec fn delay(attempt: u32) -> nat {
    let exponent = if attempt == 0 {
        0
    } else {
        (attempt - 1) as nat
    };
    let wanted = BASE_DELAY_MS * pow(3, exponent);
    if wanted > u64::MAX {
        u64::MAX as nat
    } else {
        wanted as nat
    }
}

/// When a request is tried again.
pub struct RetryPolicy;

impl RetryPolicy {
    /// How often a request is tried, the first time counted.
    pub const MAX_ATTEMPTS: u32 = 3;

    /// How long to wait after the given try, counted from 1, in milliseconds.
    pub fn delay_after(attempt: u32) -> (r: u64)
        ensures
            r == delay(attempt),
    {
        let steps: u32 = if attempt == 0 {
            0
        } else {
            attempt - 1
        };
        let mut wait: u64 = BASE_DELAY_MS;
        let mut i: u32 = 0;
        proof {
            reveal(pow);
        }
        while i < steps
            invariant
                i <= steps,
                wait == BASE_DELAY_MS * pow(3, i as nat),
                steps == if attempt == 0 {
                    0
                } else {
                    attempt - 1
                },
            decreases steps - i,
        {
            proof {
                reveal(pow);
                assert(pow(3, (i + 1) as nat) == 3 * pow(3, i as nat));
                assert(BASE_DELAY_MS * pow(3, (i + 1) as nat) == 3 * (BASE_DELAY_MS * pow(
                    3,
                    i as nat,
                ))) by (nonlinear_arith)
                    requires
                        pow(3, (i + 1) as nat) == 3 * pow(3, i as nat),
                ;
                lemma_pow_increases(3, (i + 1) as nat, steps as nat);
            }
            match wait.checked_mul(3) {
                Some(longer) => {
                    wait = longer;
                },
                None => {
                    proof {
                        assert(BASE_DELAY_MS * pow(3, steps as nat) >= BASE_DELAY_MS * pow(
                            3,
                            (i + 1) as nat,
                        )) by (nonlinear_arith)
                            requires
                                pow(3, steps as nat) >= pow(3, (i + 1) as nat),
                                BASE_DELAY_MS >= 0,
                        ;
                    }
                    return u64::MAX;
                },
            }
            i += 1;
        }
        wait
    }

    /// What to do when the given try, counted from 1, has failed: wait so many milliseconds and try
    /// again, or give the error back (`None`).
    pub fn after_failure(attempt: u32, error: &AppError) -> (r: Option<u64>)
        ensures
            match r {
                Some(wait) => repeated(attempt, error.deep_view()) && wait == delay(attempt),
                None => !repeated(attempt, error.deep_view()),
            },
    {
        if attempt >= RetryPolicy::MAX_ATTEMPTS || !error.is_transient() {
            None
        } else {
            Some(RetryPolicy::delay_after(attempt))
        }
    }
}

impl RetryPolicy {
    /// How long to wait before `request` is sent again after the given try failed with `error`;
    /// `None` where it is not. One that writes is never sent again: it may have been carried out.
    pub fn after_failure_of(request: &Request, attempt: u32, error: &AppError) -> (r: Option<u64>)
        ensures
            match r {
                Some(wait) => sent_again(request.deep_view(), attempt, error.deep_view()) && wait
                    == delay(attempt),
                None => !sent_again(request.deep_view(), attempt, error.deep_view()),
            },
    {
        if request.is_repeatable() {
            RetryPolicy::after_failure(attempt, error)
        } else {
            None
        }
    }
}

/// Whether `request` is sent again when the given try failed with `error`.
pub open spec fn sent_again(request: RequestModel, attempt: u32, error: ErrorModel) -> bool {
    request.mode != Mode::Writing && repeated(attempt, error)
}

/// A request that writes is sent once, whatever comes back.
pub proof fn writes_are_sent_once(request: RequestModel, attempt: u32, error: ErrorModel)
    requires
        request.mode == Mode::Writing,
    ensures
        !sent_again(request, attempt, error),
{
}

/// Whether another try follows when the given one failed with `error`.
pub open spec fn repeated(attempt: u32, error: ErrorModel) -> bool {
    attempt < RetryPolicy::MAX_ATTEMPTS && error::transient(error)
}

/// How often a request is tried whose tries would fail one after the other with `errors`, when the
/// next of them is number `attempt`.
pub open spec fn tries(errors: Seq<ErrorModel>, attempt: u32) -> nat
    decreases errors.len(),
{
    if errors.len() == 0 {
        1
    } else if repeated(attempt, errors[0]) {
        1 + tries(errors.drop_first(), (attempt + 1) as u32)
    } else {
        1
    }
}

/// A request is tried three times at most, however often it fails, and the waits between the tries
/// come to 1.2 seconds at most.
pub proof fn tries_are_bounded(errors: Seq<ErrorModel>)
    ensures
        1 <= tries(errors, 1) <= RetryPolicy::MAX_ATTEMPTS,
        delay(1) == 300,
        delay(2) == 900,
{
    reveal_with_fuel(tries, 4);
    reveal_with_fuel(pow, 3);
    assert(pow(3, 0) == 1);
    assert(pow(3, 1) == 3);
}

/// An answer that refuses the request is never followed by another try.
pub proof fn refusals_are_final(attempt: u32, path: Seq<char>, code: i64, message: Seq<char>)
    ensures
        !repeated(attempt, ErrorModel::Api { path, code, message }),
{
}

// ---------------------------------------------------------------------------
// Answers
// ---------------------------------------------------------------------------
/// How many characters of an answer are shown.
pub const MAX_PREVIEW: usize = 120;

/// `s` with every run of white space written as one blank.
pub open spec fn collapsed(s: Seq<char>) -> Seq<char>
    decreases s.len(),
{
    if s.len() == 0 {
        Seq::empty()
    } else {
        let before = collapsed(s.drop_last());
        if !text::is_space(s.last()) {
            before.push(s.last())
        } else if before.len() > 0 && before.last() == ' ' {
            before
        } else {
            before.push(' ')
        }
    }
}

/// The beginning of an answer, for people to tell what it is.
pub open spec fn preview(body: Seq<char>) -> Seq<char> {
    let line = collapsed(body);
    if line.len() > MAX_PREVIEW {
        text::trimmed(line.take(MAX_PREVIEW as int).push('…'))
    } else if text::trimmed(line).len() == 0 {
        "（空响应体）"@
    } else {
        text::trimmed(line)
    }
}

/// Cuts an answer down to its beginning, for people to tell what it is.
pub fn body_preview(body: &str) -> (r: String)
    ensures
        r@ == preview(body@),
{
    let chars = text::to_chars(body);
    let mut line: Vec<char> = Vec::new();
    let mut i: usize = 0;
    while i < chars.len()
        invariant
            i <= chars@.len(),
            line@ == collapsed(chars@.take(i as int)),
        decreases chars@.len() - i,
    {
        proof {
            assert(chars@.take(i + 1).drop_last() =~= chars@.take(i as int));
            assert(chars@.take(i + 1).last() == chars@[i as int]);
        }
        let c = chars[i];
        if !text::is_whitespace(c) {
            line.push(c);
        } else if line.len() == 0 || line[line.len() - 1] != ' ' {
            line.push(' ');
        }
        i += 1;
    }
    proof {
        assert(chars@.take(chars@.len() as int) =~= chars@);
    }
    if line.len() > MAX_PREVIEW {
        let ghost whole = line@;
        line.truncate(MAX_PREVIEW);
        line.push('…');
        proof {
            assert(line@ =~= whole.take(MAX_PREVIEW as int).push('…'));
        }
        return text::from_chars(text::trim(line.as_slice()));
    }
    let shown = text::trim(line.as_slice());
    if shown.len() == 0 {
        "（空响应体）".to_owned()
    } else {
        text::from_chars(shown)
    }
}

/// Whether a status is one of success.
pub open spec fn success(status: u16) -> bool {
    200 <= status < 300
}

/// What an answer to a request for JSON amounts to: an error that the document reports comes before
/// the status, and the status before a body that is no document.
pub open spec fn answered(
    path: Seq<char>,
    status: u16,
    document: Option<Json>,
    body: Seq<char>,
) -> Result<Json, ErrorModel> {
    match document {
        Some(root) => match model::reported_error(path, root) {
            Some(error) => Err(error),
            None => if success(status) {
                Ok(root)
            } else {
                Err(ErrorModel::HttpStatus { path, status })
            },
        },
        None => if success(status) {
            Err(ErrorModel::NonJsonBody { path, status, preview: preview(body) })
        } else {
            Err(ErrorModel::HttpStatus { path, status })
        },
    }
}

/// Decides on an answer, given the document that its body holds, if it holds one.
pub fn judge_document(path: &str, status: u16, document: Option<Json>, body: &str) -> (r: Result<
    Json,
    AppError,
>)
    ensures
        match r {
            Ok(root) => answered(path@, status, document, body@) == Ok::<Json, ErrorModel>(root),
            Err(error) => answered(path@, status, document, body@) == Err::<Json, ErrorModel>(
                error.deep_view(),
            ),
        },
{
    let ok = 200 <= status && status < 300;
    match document {
        Some(root) => match model::check_error_code(path, &root) {
            Err(error) => Err(error),
            Ok(_) => if ok {
                Ok(root)
            } else {
                Err(AppError::HttpStatus { path: path.to_owned(), status })
            },
        },
        None => if ok {
            Err(
                AppError::NonJsonBody {
                    path: path.to_owned(),
                    status,
                    preview: body_preview(body),
                },
            )
        } else {
            Err(AppError::HttpStatus { path: path.to_owned(), status })
        },
    }
}

/// Reads the answer to a request for JSON.
pub fn read_json(path: &str, status: u16, body: &str) -> (r: Result<Json, AppError>)
    ensures
        match r {
            Ok(root) => answered(path@, status, json::document(body@), body@) == Ok::<
                Json,
                ErrorModel,
            >(root),
            Err(error) => answered(path@, status, json::document(body@), body@) == Err::<
                Json,
                ErrorModel,
            >(error.deep_view()),
        },
{
    judge_document(path, status, json::parse(body), body)
}

/// Reads the answer to a request for text.
pub fn read_text(path: &str, status: u16, body: String) -> (r: Result<String, AppError>)
    ensures
        match r {
            Ok(text) => success(status) && text == body,
            Err(error) => !success(status) && error.deep_view() == (ErrorModel::HttpStatus {
                path: path@,
                status,
            }),
        },
{
    if 200 <= status && status < 300 {
        Ok(body)
    } else {
        Err(AppError::HttpStatus { path: path.to_owned(), status })
    }
}

/// An error code in the body is told even where the status is one of failure.
pub proof fn error_codes_come_first(path: Seq<char>, status: u16, root: Json, body: Seq<char>)
    requires
        model::reported_error(path, root) is Some,
    ensures
        answered(path, status, Some(root), body) == Err::<Json, ErrorModel>(
            model::reported_error(path, root)->0,
        ),
{
}

} // verus!
