//! Download engine vocabulary and decisions: engine configuration, download
//! items with CDN fallback URLs, and the retry and back-off policy.
//! The HTTP transfer itself happens outside this module.

use vstd::prelude::*;
use crate::config::AppConfig;
use crate::text::{
    pair_views, spec_u64_text, to_owned_string, u64_text, upsert, upsert_pair, views, str_views,
};
use crate::download::live::{header_name, header_value_check, spec_header_name, spec_header_value};

verus! {

/// Download engine configuration.
#[derive(Debug)]
pub struct EngineConfig {
    /// Maximum number of concurrent downloads.
    pub max_concurrent: usize,
    /// Maximum number of attempts per URL.
    pub max_retries: u32,
    /// Request timeout in seconds.
    pub timeout: u64,
    /// Maximum idle connections per host.
    pub max_connections: usize,
    pub user_agent: String,
    pub referer: String,
    pub cookie: String,
    /// Proxy address; empty means no proxy.
    pub proxy: String,
}

/// The built-in browser user agent.
pub open spec fn default_user_agent() -> Seq<char> {
    "Mozilla/5.0 (Windows NT 10.0; Win64; x64) AppleWebKit/537.36 (KHTML, like Gecko) Chrome/130.0.0.0 Safari/537.36"@
}

impl EngineConfig {
    /// The defaults: 5 concurrent downloads, 5 attempts, 5 s timeout, 5
    /// connections, the browser user agent, the douyin referer, no cookie and
    /// no proxy.
    pub fn default() -> (res: Self)
        ensures
            res.max_concurrent == 5,
            res.max_retries == 5,
            res.timeout == 5,
            res.max_connections == 5,
            res.user_agent@ == default_user_agent(),
            res.referer@ == "https://www.douyin.com/"@,
            res.cookie@ == Seq::<char>::empty(),
            res.proxy@ == Seq::<char>::empty(),
    {
        EngineConfig {
            max_concurrent: 5,
            max_retries: 5,
            timeout: 5,
            max_connections: 5,
            user_agent: to_owned_string(
                "Mozilla/5.0 (Windows NT 10.0; Win64; x64) AppleWebKit/537.36 (KHTML, like Gecko) Chrome/130.0.0.0 Safari/537.36",
            ),
            referer: to_owned_string("https://www.douyin.com/"),
            cookie: String::new(),
            proxy: String::new(),
        }
    }
}

/// Engine configuration for an application configuration: concurrency from
/// `max_tasks`, attempts, timeout, connections, cookie and proxy copied, the
/// rest from the engine defaults.
pub fn build_engine_config(config: &AppConfig) -> (res: EngineConfig)
    ensures
        res.max_concurrent == config.max_tasks,
        res.max_retries == config.max_retries,
        res.timeout == config.timeout,
        res.max_connections == config.max_connections,
        res.cookie@ == config.cookie@,
        res.proxy@ == config.proxy@,
        res.user_agent@ == default_user_agent(),
        res.referer@ == "https://www.douyin.com/"@,
{
    let base = EngineConfig::default();
    EngineConfig {
        max_concurrent: config.max_tasks as usize,
        max_retries: config.max_retries,
        timeout: config.timeout as u64,
        max_connections: config.max_connections as usize,
        cookie: config.cookie.clone(),
        proxy: config.proxy.clone(),
        ..base
    }
}

/// Download URL: one URL, or several tried in turn (CDN fallback).
#[derive(Debug)]
pub enum DownloadUrl {
    Single(String),
    Multiple(Vec<String>),
}

/// The URLs of a download, in the order they are tried.
pub open spec fn url_list(u: DownloadUrl) -> Seq<Seq<char>> {
    match u {
        DownloadUrl::Single(s) => seq![s@],
        DownloadUrl::Multiple(v) => views(v@),
    }
}

impl DownloadUrl {
    /// The first URL, if there is one.
    pub fn first(&self) -> (res: Option<&str>)
        ensures
            url_list(*self).len() == 0 ==> res is None,
            url_list(*self).len() > 0 ==> (res matches Some(s) && s@ == url_list(*self)[0]),
    {
        match self {
            DownloadUrl::Single(url) => Some(url.as_str()),
            DownloadUrl::Multiple(urls) => {
                if urls.len() == 0 {
                    None
                } else {
                    Some(urls[0].as_str())
                }
            },
        }
    }

    /// All URLs, in order.
    pub fn all(&self) -> (res: Vec<&str>)
        ensures
            str_views(res@) == url_list(*self),
    {
        match self {
            DownloadUrl::Single(url) => {
                let mut v: Vec<&str> = Vec::new();
                v.push(url.as_str());
                proof {
                    assert(str_views(v@) =~= seq![url@]);
                }
                v
            },
            DownloadUrl::Multiple(urls) => {
                let mut v: Vec<&str> = Vec::new();
                let mut i: usize = 0;
                while i < urls.len()
                    invariant
                        i <= urls@.len(),
                        str_views(v@) == views(urls@).take(i as int),
                    decreases urls@.len() - i,
                {
                    v.push(urls[i].as_str());
                    proof {
                        assert(views(urls@).take(i + 1) =~= views(urls@).take(i as int).push(urls@[i as int]@));
                        assert(str_views(v@) =~= views(urls@).take(i + 1));
                    }
                    i = i + 1;
                }
                proof {
                    assert(views(urls@).take(i as int) =~= views(urls@));
                }
                v
            },
        }
    }
}

/// One file to download.
#[derive(Debug)]
pub struct DownloadItem {
    pub url: DownloadUrl,
    /// Final path of the file.
    pub save_path: String,
    /// Path of the partial file while downloading.
    pub temp_path: String,
    /// Extra request headers.
    pub headers: Vec<(String, String)>,
    pub task_id: String,
    /// Expected size, when known.
    pub file_size: Option<u64>,
}

/// Outcome of one successful download.
#[derive(Debug)]
pub struct DownloadResult {
    pub task_id: String,
    pub path: String,
    pub file_size: u64,
    /// The file already existed and was not downloaded again.
    pub skipped: bool,
}

/// Whether an HTTP failure is worth retrying: timeouts, connection errors,
/// 429 and any 5xx status.
pub open spec fn retryable_spec(is_timeout: bool, is_connect: bool, status: Option<u16>) -> bool {
    is_timeout || is_connect || match status {
        Some(s) => s == 429 || (500 <= s && s < 600),
        None => false,
    }
}

/// Classifies a failed request attempt.
pub fn is_retryable_failure(is_timeout: bool, is_connect: bool, status: Option<u16>) -> (res: bool)
    ensures
        res == retryable_spec(is_timeout, is_connect, status),
{
    is_timeout || is_connect || match status {
        Some(s) => s == 429 || (500 <= s && s < 600),
        None => false,
    }
}

/// Whether attempt `attempt` (counted from 0) of `max_retries` is followed
/// by another one after a failure.
pub fn should_retry(retryable: bool, attempt: u32, max_retries: u32) -> (res: bool)
    requires
        attempt < max_retries,
    ensures
        res == (retryable && attempt + 1 < max_retries),
{
    retryable && attempt < max_retries - 1
}

/// 2 to the power `n`.
pub open spec fn pow2_spec(n: nat) -> nat
    decreases n,
{
    if n == 0 {
        1
    } else {
        2 * pow2_spec((n - 1) as nat)
    }
}

/// Back-off before retry `attempt`: `2^attempt` seconds plus the jitter
/// `random % 1000` milliseconds, in milliseconds.
pub open spec fn backoff_spec(attempt: nat, random: u64) -> int {
    pow2_spec(attempt) * 1000 + (random % 1000) as int
}

/// Back-off in milliseconds for `attempt` given a random number.
pub fn backoff_millis(attempt: u32, random: u64) -> (res: u64)
    requires
        attempt <= 54,
    ensures
        res == backoff_spec(attempt as nat, random),
{
    let mut base: u64 = 1;
    let mut k: u32 = 0;
    proof {
        lemma_pow2_54();
    }
    while k < attempt
        invariant
            k <= attempt,
            attempt <= 54,
            base == pow2_spec(k as nat),
            pow2_spec(54) == 18014398509481984,
        decreases attempt - k,
    {
        proof {
            lemma_pow2_mono((k + 1) as nat, 54);
        }
        base = base * 2;
        k = k + 1;
    }
    proof {
        lemma_pow2_mono(attempt as nat, 54);
    }
    base * 1000 + random % 1000
}

/// Calls `rand::random::<u64>()`. Nothing is claimed of the value.
#[verifier::external_body]
fn random_u64() -> (res: u64) {
    rand::random::<u64>()
}

/// Back-off in milliseconds before retry `attempt`, with a random jitter
/// below one second.
pub fn calculate_backoff(attempt: u32) -> (res: u64)
    requires
        attempt <= 54,
    ensures
        pow2_spec(attempt as nat) * 1000 <= res < pow2_spec(attempt as nat) * 1000 + 1000,
{
    let r = random_u64();
    backoff_millis(attempt, r)
}

/// `2^54`.
pub proof fn lemma_pow2_54()
    ensures
        pow2_spec(54) == 18014398509481984,
{
    reveal_with_fuel(pow2_spec, 55);
}

/// Powers of two grow with the exponent.
pub proof fn lemma_pow2_mono(a: nat, b: nat)
    requires
        a <= b,
    ensures
        pow2_spec(a) <= pow2_spec(b),
    decreases b,
{
    if a < b {
        lemma_pow2_mono(a, (b - 1) as nat);
    }
}

/// Errors of a download.
#[derive(Debug)]
pub enum DownloadError {
    /// An HTTP failure, with its text and whether it may be retried.
    Network { message: String, retryable: bool },
    /// A file system failure, with its text.
    Io(String),
    AllUrlsFailed(String),
    SizeMismatch { expected: u64, actual: u64 },
    Cancelled,
    RetriesExhausted(String),
}

/// The text of a download error.
pub open spec fn download_error_text(e: DownloadError) -> Seq<char> {
    match e {
        DownloadError::Network { message, .. } => "网络错误: "@ + message@,
        DownloadError::Io(m) => "IO 错误: "@ + m@,
        DownloadError::AllUrlsFailed(m) => "所有 URL 都失败: "@ + m@,
        DownloadError::SizeMismatch { expected, actual } => "文件大小不匹配: 期望 "@ + spec_u64_text(expected)
            + ", 实际 "@ + spec_u64_text(actual),
        DownloadError::Cancelled => "下载已取消"@,
        DownloadError::RetriesExhausted(m) => "重试次数耗尽: "@ + m@,
    }
}

impl DownloadError {
    /// The text of the error.
    pub fn message(&self) -> (res: String)
        ensures
            res@ == download_error_text(*self),
    {
        match self {
            DownloadError::Network { message, .. } => {
                let mut s = to_owned_string("网络错误: ");
                s.append(message.as_str());
                s
            },
            DownloadError::Io(m) => {
                let mut s = to_owned_string("IO 错误: ");
                s.append(m.as_str());
                s
            },
            DownloadError::AllUrlsFailed(m) => {
                let mut s = to_owned_string("所有 URL 都失败: ");
                s.append(m.as_str());
                s
            },
            DownloadError::SizeMismatch { expected, actual } => {
                let mut s = to_owned_string("文件大小不匹配: 期望 ");
                s.append(u64_text(*expected).as_str());
                s.append(", 实际 ");
                s.append(u64_text(*actual).as_str());
                s
            },
            DownloadError::Cancelled => to_owned_string("下载已取消"),
            DownloadError::RetriesExhausted(m) => {
                let mut s = to_owned_string("重试次数耗尽: ");
                s.append(m.as_str());
                s
            },
        }
    }

    /// Whether the failure may be retried: only HTTP failures classified so.
    pub fn is_retryable(&self) -> (res: bool)
        ensures
            res == (*self matches DownloadError::Network { retryable, .. } && retryable),
    {
        match self {
            DownloadError::Network { retryable, .. } => *retryable,
            _ => false,
        }
    }
}

/// The item's headers that are valid, normalised, from the `n` first on.
pub open spec fn custom_headers(acc: Seq<(Seq<char>, Seq<char>)>, h: Seq<(Seq<char>, Seq<char>)>, n: int) -> Seq<
    (Seq<char>, Seq<char>),
>
    decreases n,
{
    if n <= 0 || n > h.len() {
        acc
    } else {
        let prev = custom_headers(acc, h, n - 1);
        match (spec_header_name(h[n - 1].0), spec_header_value(h[n - 1].1)) {
            (Ok(name), Ok(())) => upsert(prev, name, h[n - 1].1),
            _ => prev,
        }
    }
}

/// A header value as sent: itself when valid, else empty.
pub open spec fn valid_or_empty(v: Seq<char>) -> Seq<char> {
    if spec_header_value(v) is Ok {
        v
    } else {
        Seq::empty()
    }
}

/// The request headers of one attempt: the item's valid headers, then
/// the cookie when there is one, the referer, and a range from the bytes
/// already on disk when there are some; a later header replaces an earlier
/// one of the same name.
pub open spec fn request_headers_spec(
    h: Seq<(Seq<char>, Seq<char>)>,
    cookie: Seq<char>,
    referer: Seq<char>,
    existing: u64,
) -> Seq<(Seq<char>, Seq<char>)> {
    let base = custom_headers(Seq::empty(), h, h.len() as int);
    let with_cookie = if cookie.len() > 0 {
        upsert(base, "cookie"@, valid_or_empty(cookie))
    } else {
        base
    };
    let with_referer = upsert(with_cookie, "referer"@, valid_or_empty(referer));
    if existing > 0 {
        let range = "bytes="@ + spec_u64_text(existing) + "-"@;
        upsert(with_referer, "range"@, if spec_header_value(range) is Ok { range } else { "bytes=0-"@ })
    } else {
        with_referer
    }
}

/// The request headers of one attempt.
pub fn request_headers(headers: &Vec<(String, String)>, cookie: &str, referer: &str, existing: u64) -> (res: Vec<
    (String, String),
>)
    ensures
        pair_views(res@) == request_headers_spec(pair_views(headers@), cookie@, referer@, existing),
{
    let ghost hv = pair_views(headers@);
    let mut out: Vec<(String, String)> = Vec::new();
    proof {
        assert(pair_views(out@) =~= Seq::<(Seq<char>, Seq<char>)>::empty());
    }
    let mut i: usize = 0;
    while i < headers.len()
        invariant
            hv == pair_views(headers@),
            i <= headers@.len(),
            pair_views(out@) == custom_headers(Seq::empty(), hv, i as int),
        decreases headers@.len() - i,
    {
        proof {
            assert(hv[i as int] == (headers@[i as int].0@, headers@[i as int].1@));
        }
        let name = header_name(headers[i].0.as_str());
        let valid = header_value_check(headers[i].1.as_str());
        match (name, valid) {
            (Ok(n), Ok(())) => {
                upsert_pair(&mut out, n.as_str(), headers[i].1.as_str());
            },
            _ => {},
        }
        i = i + 1;
    }
    if cookie.unicode_len() > 0 {
        let v = match header_value_check(cookie) {
            Ok(()) => to_owned_string(cookie),
            Err(_) => String::new(),
        };
        upsert_pair(&mut out, "cookie", v.as_str());
    }
    let r = match header_value_check(referer) {
        Ok(()) => to_owned_string(referer),
        Err(_) => String::new(),
    };
    upsert_pair(&mut out, "referer", r.as_str());
    if existing > 0 {
        let mut range = to_owned_string("bytes=");
        range.append(u64_text(existing).as_str());
        range.append("-");
        let v = match header_value_check(range.as_str()) {
            Ok(()) => range,
            Err(_) => to_owned_string("bytes=0-"),
        };
        upsert_pair(&mut out, "range", v.as_str());
    }
    out
}

/// How an attempt's response is written: the expected total size and the
/// bytes kept from the partial file (a partial response resumes after
/// them; a full one starts over). Other statuses fail.
pub open spec fn response_plan_spec(status: u16, content_length: Option<u64>, existing: u64) -> Option<(u64, u64)> {
    let len: u64 = match content_length {
        Some(n) => n,
        None => 0,
    };
    if status == 206 {
        Some((if existing + len > u64::MAX { u64::MAX } else { (existing + len) as u64 }, existing))
    } else if status == 200 {
        Some((len, 0))
    } else {
        None
    }
}

/// The total size and resume point of a response, or `None` for a status
/// other than 200 and 206. The total saturates at `u64::MAX`.
pub fn response_plan(status: u16, content_length: Option<u64>, existing: u64) -> (res: Option<(u64, u64)>)
    ensures
        res == response_plan_spec(status, content_length, existing),
{
    let len: u64 = match content_length {
        Some(n) => n,
        None => 0,
    };
    if status == 206 {
        let total: u64 = if existing > u64::MAX - len { u64::MAX } else { existing + len };
        Some((total, existing))
    } else if status == 200 {
        Some((len, 0))
    } else {
        None
    }
}

/// The size check after writing: with an expected size and a known total,
/// the written size must equal the expected one.
pub fn size_check(expected: Option<u64>, total_size: u64, actual: u64) -> (res: Result<(), DownloadError>)
    ensures
        match expected {
            Some(e) => if total_size > 0 && actual != e {
                res matches Err(DownloadError::SizeMismatch { expected: x, actual: y }) && x == e && y == actual
            } else {
                res is Ok
            },
            None => res is Ok,
        },
{
    match expected {
        Some(e) => if total_size > 0 && actual != e {
            Err(DownloadError::SizeMismatch { expected: e, actual })
        } else {
            Ok(())
        },
        None => Ok(()),
    }
}

/// What follows a failed attempt on one URL.
#[derive(Debug)]
pub enum AttemptNext {
    /// Wait this many milliseconds and try the same URL again.
    RetryAfter(u64),
    /// Give up on this URL with the error.
    Fail(DownloadError),
}

/// After attempt `attempt` (from 0) of `max_retries` failed: a retryable
/// failure with attempts left waits its back-off; any other gives up.
pub fn after_failed_attempt(e: DownloadError, attempt: u32, max_retries: u32) -> (res: AttemptNext)
    requires
        attempt < max_retries,
        e.is_retryable_spec() && attempt + 1 < max_retries ==> attempt <= 54,
    ensures
        e.is_retryable_spec() && attempt + 1 < max_retries ==> (res matches AttemptNext::RetryAfter(ms) && pow2_spec(
            attempt as nat,
        ) * 1000 <= ms < pow2_spec(attempt as nat) * 1000 + 1000),
        !(e.is_retryable_spec() && attempt + 1 < max_retries) ==> (res matches AttemptNext::Fail(f) && f == e),
{
    if should_retry(e.is_retryable(), attempt, max_retries) {
        AttemptNext::RetryAfter(calculate_backoff(attempt))
    } else {
        AttemptNext::Fail(e)
    }
}

impl DownloadError {
    /// Whether the failure may be retried.
    pub open spec fn is_retryable_spec(&self) -> bool {
        *self matches DownloadError::Network { retryable, .. } && retryable
    }
}

/// The error of a download whose URLs all failed: the last URL's error, or
/// `AllUrlsFailed` when there was no URL to try.
pub fn all_urls_failed(last: Option<DownloadError>) -> (res: DownloadError)
    ensures
        match last {
            Some(e) => res == e,
            None => res matches DownloadError::AllUrlsFailed(m) && m@ == "所有 URL 都失败"@,
        },
{
    match last {
        Some(e) => e,
        None => DownloadError::AllUrlsFailed(to_owned_string("所有 URL 都失败")),
    }
}

/// The error of a URL with no attempt allowed: `RetriesExhausted`, unless an
/// earlier attempt left its error.
pub fn retries_exhausted(last: Option<DownloadError>) -> (res: DownloadError)
    ensures
        match last {
            Some(e) => res == e,
            None => res matches DownloadError::RetriesExhausted(m) && m@ == "重试次数耗尽"@,
        },
{
    match last {
        Some(e) => e,
        None => DownloadError::RetriesExhausted(to_owned_string("重试次数耗尽")),
    }
}

/// The URLs of a download tried in turn (CDN fallback): `next` of them
/// have been handed out.
pub struct UrlFallback {
    pub urls: Vec<String>,
    pub next: usize,
}

/// What the caller does next with a download's URLs.
#[derive(Debug)]
pub enum UrlAction {
    /// Try this URL (with its retries) and hand back the outcome.
    Try(String),
    /// The download is over with this outcome.
    Finish(Result<DownloadResult, DownloadError>),
}

impl UrlFallback {
    /// Well-formed: no more URLs handed out than there are.
    pub open spec fn wf(&self) -> bool {
        self.next <= self.urls@.len()
    }

    /// Starts on a download's URLs: the first one is tried; without any,
    /// the download fails with `AllUrlsFailed`.
    pub fn start(url: &DownloadUrl) -> (res: (UrlFallback, UrlAction))
        ensures
            res.0.wf(),
            views(res.0.urls@) == url_list(*url),
            url_list(*url).len() == 0 ==> res.0.next == 0 && (res.1 matches UrlAction::Finish(Err(
                DownloadError::AllUrlsFailed(m),
            )) && m@ == "所有 URL 都失败"@),
            url_list(*url).len() > 0 ==> res.0.next == 1 && (res.1 matches UrlAction::Try(u) && u@ == url_list(
                *url,
            )[0]),
    {
        let urls = match url {
            DownloadUrl::Single(u) => {
                let mut v: Vec<String> = Vec::new();
                v.push(u.clone());
                proof {
                    assert(views(v@) =~= seq![u@]);
                }
                v
            },
            DownloadUrl::Multiple(v) => crate::download::tasks::copy_strings(v),
        };
        if urls.len() == 0 {
            let run = UrlFallback { urls, next: 0 };
            return (run, UrlAction::Finish(Err(all_urls_failed(None))));
        }
        let first = urls[0].clone();
        (UrlFallback { urls, next: 1 }, UrlAction::Try(first))
    }

    /// Hands back the outcome of the URL tried last: a success ends the
    /// download; a failure moves on to the next URL, and after the last one
    /// the download fails with that URL's error.
    pub fn on_attempt(&mut self, outcome: Result<DownloadResult, DownloadError>) -> (res: UrlAction)
        requires
            old(self).wf(),
        ensures
            final(self).wf(),
            final(self).urls@ == old(self).urls@,
            match outcome {
                Ok(r) => final(self).next == old(self).next && (res matches UrlAction::Finish(Ok(x)) && x == r),
                Err(e) => if old(self).next < old(self).urls@.len() {
                    final(self).next == old(self).next + 1 && (res matches UrlAction::Try(u) && u@ == old(
                        self,
                    ).urls@[old(self).next as int]@)
                } else {
                    final(self).next == old(self).next && (res matches UrlAction::Finish(Err(x)) && x == e)
                },
            },
    {
        match outcome {
            Ok(r) => UrlAction::Finish(Ok(r)),
            Err(e) => {
                if self.next < self.urls.len() {
                    let u = self.urls[self.next].clone();
                    self.next = self.next + 1;
                    UrlAction::Try(u)
                } else {
                    UrlAction::Finish(Err(all_urls_failed(Some(e))))
                }
            },
        }
    }
}

/// Which failed requests are retried: a timeout or a connection failure
/// always; otherwise exactly the HTTP statuses 429 and 500 to 599 (every
/// server error). Any other status, and no status at all, is final.
pub proof fn lemma_retryable_classes(is_timeout: bool, is_connect: bool, status: Option<u16>)
    ensures
        is_timeout || is_connect ==> retryable_spec(is_timeout, is_connect, status),
        forall|s: u16| 500 <= s < 600 ==> #[trigger] retryable_spec(false, false, Some(s)),
        retryable_spec(false, false, Some(429)),
        forall|s: u16| s != 429 && !(500 <= s < 600) ==> !#[trigger] retryable_spec(false, false, Some(s)),
        !retryable_spec(false, false, None),
{
}

} // verus!
