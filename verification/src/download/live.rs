//! Live recording: the typed live plan and its checks, the request headers
//! built from it, HLS playlist parsing, segment de-duplication, and how a
//! recording run is classified once its output file is closed. Network and
//! file work happens outside this module.

use vstd::prelude::*;
use crate::text::{
    blank, is_blank, spec_u64_text, starts_with, str_eq, strip_prefix, to_owned_string,
    trim_owned, u64_text, views,
};

verus! {

/// Contract version of the live plan.
pub const LIVE_CONTRACT_VERSION: u32 = 1;

/// Deepest chain of master playlists followed.
pub const MAX_PLAYLIST_DEPTH: usize = 4;

/// Segment URLs remembered before the memory is cleared.
pub const MAX_SEGMENT_COUNT: usize = 1000;

/// Output location of a recording.
#[derive(Debug, Clone)]
pub struct LiveOutputV1 {
    pub save_dir: String,
    pub filename: String,
    pub suffix: String,
}

/// Typed live plan from the resolver.
#[derive(Debug, Clone)]
pub struct LivePlanV1 {
    pub success: bool,
    pub contract_version: u32,
    pub mode: String,
    pub web_rid: String,
    pub room_id: String,
    pub title: String,
    pub nickname: String,
    pub sec_user_id: String,
    pub user_id: Option<String>,
    pub cover_url: String,
    pub user_count: i64,
    pub m3u8_url: String,
    pub output: LiveOutputV1,
    pub headers: Vec<(String, String)>,
}

/// Name for what `url::Url::parse` gives: the serialised URL and its scheme,
/// or the text of the parse error.
pub uninterp spec fn spec_parse_url(s: Seq<char>) -> Result<(Seq<char>, Seq<char>), Seq<char>>;

/// Calls `reqwest::Url::parse` (the `url` crate's parser) and returns the
/// serialised URL and its scheme, or the error's text. Claimed of it: the
/// result is the named parse of the input.
#[verifier::external_body]
pub(crate) fn parse_url(s: &str) -> (res: Result<(String, String), String>)
    ensures
        match res {
            Ok((u, scheme)) => spec_parse_url(s@) == Ok::<(Seq<char>, Seq<char>), Seq<char>>((u@, scheme@)),
            Err(e) => spec_parse_url(s@) == Err::<(Seq<char>, Seq<char>), Seq<char>>(e@),
        },
{
    match reqwest::Url::parse(s) {
        Ok(u) => Ok((u.as_str().to_string(), u.scheme().to_string())),
        Err(e) => Err(e.to_string()),
    }
}

/// Name for what `url::Url::join` gives for a base URL and a reference: the
/// serialised joined URL, or the text of the error.
pub uninterp spec fn spec_join_url(base: Seq<char>, reference: Seq<char>) -> Result<Seq<char>, Seq<char>>;

/// Calls `reqwest::Url::join` on `base` (a serialised URL, turned back into a
/// URL) and returns the joined URL serialised, or the error's text. Claimed of
/// it: the result is the named join of the two arguments.
#[verifier::external_body]
pub(crate) fn join_url(base: &str, reference: &str) -> (res: Result<String, String>)
    ensures
        match res {
            Ok(u) => spec_join_url(base@, reference@) == Ok::<Seq<char>, Seq<char>>(u@),
            Err(e) => spec_join_url(base@, reference@) == Err::<Seq<char>, Seq<char>>(e@),
        },
{
    match reqwest::Url::parse(base).and_then(|b| b.join(reference)) {
        Ok(u) => Ok(u.to_string()),
        Err(e) => Err(e.to_string()),
    }
}

/// Name for what `http::HeaderName::from_bytes` gives for a header name: the
/// normalised (lower-case) name, or the text of the error.
pub uninterp spec fn spec_header_name(key: Seq<char>) -> Result<Seq<char>, Seq<char>>;

/// Calls `reqwest::header::HeaderName::from_bytes` and returns the
/// normalised name, or the error's text. Claimed of it: the result is the
/// named conversion of the input.
#[verifier::external_body]
pub(crate) fn header_name(key: &str) -> (res: Result<String, String>)
    ensures
        match res {
            Ok(n) => spec_header_name(key@) == Ok::<Seq<char>, Seq<char>>(n@),
            Err(e) => spec_header_name(key@) == Err::<Seq<char>, Seq<char>>(e@),
        },
{
    match reqwest::header::HeaderName::from_bytes(key.as_bytes()) {
        Ok(n) => Ok(n.as_str().to_string()),
        Err(e) => Err(e.to_string()),
    }
}

/// Name for what `http::HeaderValue::from_str` gives: success, or the text
/// of the error.
pub uninterp spec fn spec_header_value(value: Seq<char>) -> Result<(), Seq<char>>;

/// Calls `reqwest::header::HeaderValue::from_str`. Claimed of it: the result
/// is the named check of the input.
#[verifier::external_body]
pub(crate) fn header_value_check(value: &str) -> (res: Result<(), String>)
    ensures
        match res {
            Ok(()) => spec_header_value(value@) == Ok::<(), Seq<char>>(()),
            Err(e) => spec_header_value(value@) == Err::<(), Seq<char>>(e@),
        },
{
    match reqwest::header::HeaderValue::from_str(value) {
        Ok(_) => Ok(()),
        Err(e) => Err(e.to_string()),
    }
}

/// The kind of a component of a path, as `std::path::Component` tells it.
#[derive(Debug, Clone, Copy, PartialEq, Eq, Structural)]
pub enum ComponentKind {
    Prefix,
    RootDir,
    CurDir,
    ParentDir,
    Normal,
}

/// Name for the kinds of the components that `std::path::Path::components`
/// yields for a path, in order.
pub uninterp spec fn spec_component_kinds(name: Seq<char>) -> Seq<ComponentKind>;

/// Calls `std::path::Path::components` and returns the kind of each
/// component, in order. Claimed of it: the result is the named list of
/// kinds of the input.
#[verifier::external_body]
pub(crate) fn component_kinds(name: &str) -> (res: Vec<ComponentKind>)
    ensures
        res@ == spec_component_kinds(name@),
{
    std::path::Path::new(name).components().map(|c| match c {
        std::path::Component::Prefix(_) => ComponentKind::Prefix,
        std::path::Component::RootDir => ComponentKind::RootDir,
        std::path::Component::CurDir => ComponentKind::CurDir,
        std::path::Component::ParentDir => ComponentKind::ParentDir,
        std::path::Component::Normal(_) => ComponentKind::Normal,
    }).collect()
}

/// Whether a file name is a single path component, a normal one.
pub open spec fn spec_single_normal_component(name: Seq<char>) -> bool {
    let k = spec_component_kinds(name);
    k.len() == 1 && k[0] == ComponentKind::Normal
}

/// Whether a file name is exactly one path component and a normal one.
pub(crate) fn single_normal_component(name: &str) -> (res: bool)
    ensures
        res == spec_single_normal_component(name@),
{
    let kinds = component_kinds(name);
    if kinds.len() != 1 {
        return false;
    }
    match kinds[0] {
        ComponentKind::Normal => true,
        _ => false,
    }
}

/// Name for what `std::path::Path::join` gives (as text) for a directory
/// and a file name.
pub uninterp spec fn spec_path_join(dir: Seq<char>, name: Seq<char>) -> Seq<char>;

/// Calls `std::path::Path::join` and returns the path as text. Claimed of
/// it: the result is the named join of the two arguments.
#[verifier::external_body]
pub(crate) fn path_join(dir: &str, name: &str) -> (res: String)
    ensures
        res@ == spec_path_join(dir@, name@),
{
    std::path::Path::new(dir).join(name).to_string_lossy().to_string()
}

/// Why a recording completed.
#[derive(Debug, Clone, Copy, PartialEq, Eq, Structural)]
pub enum LiveCompletionReason {
    StreamEnded,
    UserStopped,
    ExistingOutput,
}

/// Why a recording failed.
#[derive(Debug, Clone, Copy, PartialEq, Eq, Structural)]
pub enum LiveFailureKind {
    InvalidPlan,
    InvalidPlaylist,
    NetworkRetryExhausted,
    SegmentRetryExhausted,
    FileCreate,
    FileWrite,
    FileFlush,
    FileMetadata,
    StoppedBeforeUsableBytes,
}

/// Facts about the closed output file.
#[derive(Debug, Clone)]
pub struct LiveOutputFacts {
    pub path: String,
    pub file_size: u64,
    pub started_at: i64,
    pub ended_at: i64,
}

/// `a - b` clamped to the range of `i64`.
pub open spec fn saturating_diff(a: i64, b: i64) -> i64 {
    if a - b > i64::MAX {
        i64::MAX
    } else if a - b < i64::MIN {
        i64::MIN
    } else {
        (a - b) as i64
    }
}

impl LiveOutputFacts {
    /// Recording duration in seconds, `ended_at - started_at` saturated.
    pub fn duration_sec(&self) -> (res: i64)
        ensures
            res == saturating_diff(self.ended_at, self.started_at),
    {
        let d: i128 = self.ended_at as i128 - self.started_at as i128;
        if d > i64::MAX as i128 {
            i64::MAX
        } else if d < i64::MIN as i128 {
            i64::MIN
        } else {
            d as i64
        }
    }
}

/// Result of a recording run, reported only after the file was closed.
#[derive(Debug, Clone)]
pub enum LiveRecorderOutcome {
    Completed { reason: LiveCompletionReason, output: LiveOutputFacts },
    Failed { kind: LiveFailureKind, error: String, output: LiveOutputFacts },
}

/// The output facts of an outcome, whichever way the run ended.
pub open spec fn outcome_output(o: LiveRecorderOutcome) -> LiveOutputFacts {
    match o {
        LiveRecorderOutcome::Completed { output, .. } => output,
        LiveRecorderOutcome::Failed { output, .. } => output,
    }
}

impl LiveRecorderOutcome {
    /// The output facts, whichever way the run ended.
    pub fn output(&self) -> (res: &LiveOutputFacts)
        ensures
            *res == outcome_output(*self),
    {
        match self {
            LiveRecorderOutcome::Completed { output, .. } => output,
            LiveRecorderOutcome::Failed { output, .. } => output,
        }
    }
}

/// Errors met while recording, with their detail text.
#[derive(Debug, Clone)]
pub enum RecorderError {
    InvalidPlan(String),
    InvalidPlaylist(String),
    NetworkRetryExhausted(String),
    SegmentRetryExhausted(String),
    FileCreate(String),
    FileWrite(String),
    FileFlush(String),
    FileMetadata(String),
}

/// The failure kind of a recorder error.
pub open spec fn recorder_kind(e: RecorderError) -> LiveFailureKind {
    match e {
        RecorderError::InvalidPlan(_) => LiveFailureKind::InvalidPlan,
        RecorderError::InvalidPlaylist(_) => LiveFailureKind::InvalidPlaylist,
        RecorderError::NetworkRetryExhausted(_) => LiveFailureKind::NetworkRetryExhausted,
        RecorderError::SegmentRetryExhausted(_) => LiveFailureKind::SegmentRetryExhausted,
        RecorderError::FileCreate(_) => LiveFailureKind::FileCreate,
        RecorderError::FileWrite(_) => LiveFailureKind::FileWrite,
        RecorderError::FileFlush(_) => LiveFailureKind::FileFlush,
        RecorderError::FileMetadata(_) => LiveFailureKind::FileMetadata,
    }
}

/// The text of a recorder error.
pub open spec fn recorder_message(e: RecorderError) -> Seq<char> {
    match e {
        RecorderError::InvalidPlan(d) => "直播计划无效: "@ + d@,
        RecorderError::InvalidPlaylist(d) => "直播播放列表无效: "@ + d@,
        RecorderError::NetworkRetryExhausted(d) => "直播播放列表请求重试耗尽: "@ + d@,
        RecorderError::SegmentRetryExhausted(d) => "直播分片请求重试耗尽: "@ + d@,
        RecorderError::FileCreate(d) => "创建直播文件失败: "@ + d@,
        RecorderError::FileWrite(d) => "写入直播文件失败: "@ + d@,
        RecorderError::FileFlush(d) => "刷新直播文件失败: "@ + d@,
        RecorderError::FileMetadata(d) => "读取直播文件信息失败: "@ + d@,
    }
}

fn prefixed(prefix: &str, detail: &String) -> (res: String)
    ensures
        res@ == prefix@ + detail@,
{
    let mut s = to_owned_string(prefix);
    s.append(detail.as_str());
    s
}

impl RecorderError {
    /// The failure kind of the error.
    pub fn kind(&self) -> (res: LiveFailureKind)
        ensures
            res == recorder_kind(*self),
    {
        match self {
            RecorderError::InvalidPlan(_) => LiveFailureKind::InvalidPlan,
            RecorderError::InvalidPlaylist(_) => LiveFailureKind::InvalidPlaylist,
            RecorderError::NetworkRetryExhausted(_) => LiveFailureKind::NetworkRetryExhausted,
            RecorderError::SegmentRetryExhausted(_) => LiveFailureKind::SegmentRetryExhausted,
            RecorderError::FileCreate(_) => LiveFailureKind::FileCreate,
            RecorderError::FileWrite(_) => LiveFailureKind::FileWrite,
            RecorderError::FileFlush(_) => LiveFailureKind::FileFlush,
            RecorderError::FileMetadata(_) => LiveFailureKind::FileMetadata,
        }
    }

    /// The text of the error.
    pub fn message(&self) -> (res: String)
        ensures
            res@ == recorder_message(*self),
    {
        match self {
            RecorderError::InvalidPlan(d) => prefixed("直播计划无效: ", d),
            RecorderError::InvalidPlaylist(d) => prefixed("直播播放列表无效: ", d),
            RecorderError::NetworkRetryExhausted(d) => prefixed("直播播放列表请求重试耗尽: ", d),
            RecorderError::SegmentRetryExhausted(d) => prefixed("直播分片请求重试耗尽: ", d),
            RecorderError::FileCreate(d) => prefixed("创建直播文件失败: ", d),
            RecorderError::FileWrite(d) => prefixed("写入直播文件失败: ", d),
            RecorderError::FileFlush(d) => prefixed("刷新直播文件失败: ", d),
            RecorderError::FileMetadata(d) => prefixed("读取直播文件信息失败: ", d),
        }
    }
}

/// Whether a playlist or segment response status is worth retrying: 404,
/// 408, 429, 504 and any 5xx.
pub open spec fn live_retryable(status: u16) -> bool {
    status == 404 || status == 504 || (500 <= status && status < 600) || status == 408 || status == 429
}

/// Classifies a response status for the playlist and segment retries.
pub fn is_retryable_status(status: u16) -> (res: bool)
    ensures
        res == live_retryable(status),
{
    status == 404 || status == 504 || (500 <= status && status < 600) || status == 408 || status == 429
}

/// The request headers of a plan after normalising and checking each name
/// and value, in order, followed by the default referer and an empty cookie
/// when the plan names neither; or the detail of the first invalid header.
pub open spec fn headers_spec(headers: Seq<(Seq<char>, Seq<char>)>) -> Result<Seq<(Seq<char>, Seq<char>)>, Seq<char>> {
    match checked_headers(headers, headers.len() as int) {
        Err(e) => Err(e),
        Ok(list) => {
            let names = list.map_values(|p: (Seq<char>, Seq<char>)| p.0);
            let with_referer = if names.contains("referer"@) {
                list
            } else {
                list.push(("referer"@, "https://www.douyin.com/"@))
            };
            Ok(if names.contains("cookie"@) {
                with_referer
            } else {
                with_referer.push(("cookie"@, Seq::empty()))
            })
        },
    }
}

/// The first `n` headers normalised, or the detail of the first invalid one.
pub open spec fn checked_headers(headers: Seq<(Seq<char>, Seq<char>)>, n: int) -> Result<Seq<(Seq<char>, Seq<char>)>, Seq<char>>
    decreases n,
{
    if n <= 0 {
        Ok(Seq::empty())
    } else {
        match checked_headers(headers, n - 1) {
            Err(e) => Err(e),
            Ok(prev) => match spec_header_name(headers[n - 1].0) {
                Err(e) => Err("请求头名称无效: "@ + e),
                Ok(name) => match spec_header_value(headers[n - 1].1) {
                    Err(e) => Err("请求头值无效: "@ + e),
                    Ok(()) => Ok(prev.push((name, headers[n - 1].1))),
                },
            },
        }
    }
}

/// The header pairs seen as character sequences.
pub open spec fn header_views(h: Seq<(String, String)>) -> Seq<(Seq<char>, Seq<char>)> {
    h.map_values(|p: (String, String)| (p.0@, p.1@))
}

/// Whether some pair of the list is named `name`.
fn has_header(list: &Vec<(String, String)>, name: &str) -> (res: bool)
    ensures
        res == header_views(list@).map_values(|p: (Seq<char>, Seq<char>)| p.0).contains(name@),
{
    let ghost names = header_views(list@).map_values(|p: (Seq<char>, Seq<char>)| p.0);
    let mut i: usize = 0;
    while i < list.len()
        invariant
            names == header_views(list@).map_values(|p: (Seq<char>, Seq<char>)| p.0),
            i <= list@.len(),
            forall|k: int| 0 <= k < i ==> names[k] != name@,
        decreases list@.len() - i,
    {
        if str_eq(list[i].0.as_str(), name) {
            assert(names[i as int] == name@);
            return true;
        }
        i = i + 1;
    }
    false
}

/// Request headers for a plan, as normalised name/value pairs.
pub fn build_headers(plan: &LivePlanV1) -> (res: Result<Vec<(String, String)>, RecorderError>)
    ensures
        match res {
            Ok(list) => headers_spec(header_views(plan.headers@)) == Ok::<Seq<(Seq<char>, Seq<char>)>, Seq<char>>(header_views(list@)),
            Err(e) => e matches RecorderError::InvalidPlan(d)
                && headers_spec(header_views(plan.headers@)) == Err::<Seq<(Seq<char>, Seq<char>)>, Seq<char>>(d@),
        },
{
    let ghost hv = header_views(plan.headers@);
    let mut list: Vec<(String, String)> = Vec::new();
    proof {
        assert(header_views(list@) =~= Seq::<(Seq<char>, Seq<char>)>::empty());
    }
    let mut i: usize = 0;
    while i < plan.headers.len()
        invariant
            hv == header_views(plan.headers@),
            i <= hv.len(),
            checked_headers(hv, i as int) == Ok::<Seq<(Seq<char>, Seq<char>)>, Seq<char>>(header_views(list@)),
        decreases hv.len() - i,
    {
        let name = match header_name(plan.headers[i].0.as_str()) {
            Ok(n) => n,
            Err(e) => {
                proof {
                    lemma_checked_headers_err_stable(hv, i + 1, hv.len() as int);
                }
                return Err(RecorderError::InvalidPlan(prefixed("请求头名称无效: ", &e)));
            },
        };
        match header_value_check(plan.headers[i].1.as_str()) {
            Ok(()) => {},
            Err(e) => {
                proof {
                    lemma_checked_headers_err_stable(hv, i + 1, hv.len() as int);
                }
                return Err(RecorderError::InvalidPlan(prefixed("请求头值无效: ", &e)));
            },
        }
        let ghost before = list@;
        list.push((name, plan.headers[i].1.clone()));
        proof {
            assert(header_views(list@) =~= header_views(before).push(header_views(list@).last()));
        }
        i = i + 1;
    }
    let has_referer = has_header(&list, "referer");
    let has_cookie = has_header(&list, "cookie");
    let ghost base = header_views(list@);
    if !has_referer {
        list.push((to_owned_string("referer"), to_owned_string("https://www.douyin.com/")));
    }
    let ghost mid = header_views(list@);
    proof {
        if !has_referer {
            assert(mid =~= base.push(("referer"@, "https://www.douyin.com/"@)));
        } else {
            assert(mid =~= base);
        }
    }
    if !has_cookie {
        list.push((to_owned_string("cookie"), String::new()));
    }
    proof {
        if !has_cookie {
            assert(header_views(list@) =~= mid.push(("cookie"@, Seq::<char>::empty())));
        } else {
            assert(header_views(list@) =~= mid);
        }
    }
    Ok(list)
}

/// An error among the first `n` headers stays the first one.
pub proof fn lemma_checked_headers_err_stable(h: Seq<(Seq<char>, Seq<char>)>, n: int, m: int)
    requires
        0 <= n <= m,
        checked_headers(h, n) is Err,
    ensures
        checked_headers(h, m) == checked_headers(h, n),
    decreases m,
{
    if m > n {
        lemma_checked_headers_err_stable(h, n, m - 1);
    }
}

/// The fields that must not be blank, in the order they are checked.
pub open spec fn required_fields(p: LivePlanV1) -> Seq<(Seq<char>, Seq<char>)> {
    seq![
        ("web_rid"@, p.web_rid@),
        ("room_id"@, p.room_id@),
        ("nickname"@, p.nickname@),
        ("sec_user_id"@, p.sec_user_id@),
        ("m3u8_url"@, p.m3u8_url@),
        ("output.save_dir"@, p.output.save_dir@),
        ("output.filename"@, p.output.filename@),
    ]
}

/// The first blank required field, by name.
pub open spec fn first_blank_field(fields: Seq<(Seq<char>, Seq<char>)>, n: int) -> Option<Seq<char>>
    decreases n,
{
    if n <= 0 {
        None
    } else {
        match first_blank_field(fields, n - 1) {
            Some(f) => Some(f),
            None => if blank(fields[n - 1].1) {
                Some(fields[n - 1].0)
            } else {
                None
            },
        }
    }
}

/// Whether a file name is a single normal path component: no separator or
/// NUL, not `.` or `..`, and one normal component.
pub open spec fn valid_filename(name: Seq<char>) -> bool {
    &&& !name.contains('/')
    &&& !name.contains('\\')
    &&& !name.contains('\0')
    &&& name != "."@
    &&& name != ".."@
    &&& spec_single_normal_component(name)
}

/// The message of the first violation of a live plan, if any.
pub open spec fn live_plan_violation(p: LivePlanV1) -> Option<Seq<char>> {
    let fields = required_fields(p);
    if !p.success {
        Some("live V1 contract success 必须为 true"@)
    } else if p.contract_version != LIVE_CONTRACT_VERSION {
        Some("不支持的 live contract_version: "@ + spec_u64_text(p.contract_version as u64))
    } else if p.mode@ != "live"@ {
        Some("live contract mode 无效: "@ + p.mode@)
    } else if first_blank_field(fields, 7) is Some {
        Some("live contract "@ + first_blank_field(fields, 7)->Some_0 + " 不能为空"@)
    } else if p.user_count < 0 {
        Some("live contract user_count 不能为负数"@)
    } else if p.user_id matches Some(u) && blank(u@) {
        Some("live contract user_id 提供时不能为空"@)
    } else if spec_parse_url(p.m3u8_url@) is Err {
        Some("FULL_HD1 URL 无效: "@ + spec_parse_url(p.m3u8_url@)->Err_0)
    } else if !(spec_parse_url(p.m3u8_url@)->Ok_0.1 == "http"@ || spec_parse_url(p.m3u8_url@)->Ok_0.1 == "https"@) {
        Some("FULL_HD1 URL 仅支持 http/https"@)
    } else if p.output.suffix@ != ".flv"@ {
        Some("live output suffix 必须为 .flv"@)
    } else if !valid_filename(p.output.filename@) {
        Some("live output filename 必须是有效的单一路径组件"@)
    } else if headers_spec(header_views(p.headers@)) is Err {
        Some("直播计划无效: "@ + headers_spec(header_views(p.headers@))->Err_0)
    } else {
        None
    }
}

/// Whether `s` contains the character `c`.
fn has_char(s: &str, c: char) -> (res: bool)
    ensures
        res == s@.contains(c),
{
    let n = s.unicode_len();
    let mut i: usize = 0;
    while i < n
        invariant
            n == s@.len(),
            i <= n,
            forall|k: int| 0 <= k < i ==> s@[k] != c,
        decreases n - i,
    {
        if s.get_char(i) == c {
            return true;
        }
        i = i + 1;
    }
    false
}

impl LivePlanV1 {
    /// Checks a live plan; `Err` carries the message of its first violation.
    pub fn validate(&self) -> (res: Result<(), String>)
        ensures
            res is Ok <==> live_plan_violation(*self) is None,
            res matches Err(m) ==> live_plan_violation(*self) == Some(m@),
    {
        if !self.success {
            return Err(to_owned_string("live V1 contract success 必须为 true"));
        }
        if self.contract_version != LIVE_CONTRACT_VERSION {
            let mut s = to_owned_string("不支持的 live contract_version: ");
            s.append(u64_text(self.contract_version as u64).as_str());
            return Err(s);
        }
        if !str_eq(self.mode.as_str(), "live") {
            return Err(prefixed("live contract mode 无效: ", &self.mode));
        }
        let fields: [(&str, &str); 7] = [
            ("web_rid", self.web_rid.as_str()),
            ("room_id", self.room_id.as_str()),
            ("nickname", self.nickname.as_str()),
            ("sec_user_id", self.sec_user_id.as_str()),
            ("m3u8_url", self.m3u8_url.as_str()),
            ("output.save_dir", self.output.save_dir.as_str()),
            ("output.filename", self.output.filename.as_str()),
        ];
        let ghost fv = required_fields(*self);
        proof {
            assert forall|k: int| 0 <= k < 7 implies (#[trigger] fields@[k]).0@ == fv[k].0 && fields@[k].1@ == fv[k].1 by {}
        }
        let mut i: usize = 0;
        while i < 7
            invariant
                fv == required_fields(*self),
                self.success,
                self.contract_version == LIVE_CONTRACT_VERSION,
                self.mode@ == "live"@,
                forall|k: int| 0 <= k < 7 ==> (#[trigger] fields@[k]).0@ == fv[k].0 && fields@[k].1@ == fv[k].1,
                i <= 7,
                first_blank_field(fv, i as int) is None,
            decreases 7 - i,
        {
            let blank_here = is_blank(fields[i].1);
            proof {
                assert(fields@[i as int].1@ == fv[i as int].1);
                assert(fields@[i as int].0@ == fv[i as int].0);
            }
            if blank_here {
                proof {
                    assert(first_blank_field(fv, i + 1) == Some(fv[i as int].0));
                    lemma_first_blank_stable(fv, i + 1, 7);
                }
                let mut s = to_owned_string("live contract ");
                s.append(fields[i].0);
                s.append(" 不能为空");
                return Err(s);
            }
            i = i + 1;
        }
        if self.user_count < 0 {
            return Err(to_owned_string("live contract user_count 不能为负数"));
        }
        let user_id_blank = match &self.user_id {
            Some(u) => is_blank(u.as_str()),
            None => false,
        };
        if user_id_blank {
            return Err(to_owned_string("live contract user_id 提供时不能为空"));
        }
        let scheme = match parse_url(self.m3u8_url.as_str()) {
            Ok((_, scheme)) => scheme,
            Err(e) => {
                return Err(prefixed("FULL_HD1 URL 无效: ", &e));
            },
        };
        if !(str_eq(scheme.as_str(), "http") || str_eq(scheme.as_str(), "https")) {
            return Err(to_owned_string("FULL_HD1 URL 仅支持 http/https"));
        }
        if !str_eq(self.output.suffix.as_str(), ".flv") {
            return Err(to_owned_string("live output suffix 必须为 .flv"));
        }
        let name = self.output.filename.as_str();
        if has_char(name, '/') || has_char(name, '\\') || has_char(name, '\0') || str_eq(name, ".")
            || str_eq(name, "..") || !single_normal_component(name) {
            return Err(to_owned_string("live output filename 必须是有效的单一路径组件"));
        }
        match build_headers(self) {
            Ok(_) => {},
            Err(e) => {
                return Err(e.message());
            },
        }
        Ok(())
    }

    /// The output file: `save_dir` joined with `filename + suffix`.
    pub fn full_path(&self) -> (res: String)
        ensures
            res@ == spec_path_join(self.output.save_dir@, self.output.filename@ + self.output.suffix@),
    {
        let mut name = self.output.filename.clone();
        name.append(self.output.suffix.as_str());
        path_join(self.output.save_dir.as_str(), name.as_str())
    }
}

/// A blank field found among the first `n` stays the first one.
pub proof fn lemma_first_blank_stable(fields: Seq<(Seq<char>, Seq<char>)>, n: int, m: int)
    requires
        0 <= n <= m,
        first_blank_field(fields, n) is Some,
    ensures
        first_blank_field(fields, m) == first_blank_field(fields, n),
    decreases m,
{
    if m > n {
        lemma_first_blank_stable(fields, n, m - 1);
    }
}

} // verus!

verus! {

/// What a valid live plan guarantees: its headers build, its stream URL
/// parses with scheme http or https, and its output is a `.flv` file named
/// by a single path component.
pub proof fn lemma_valid_live_plan(p: LivePlanV1)
    requires
        live_plan_violation(p) is None,
    ensures
        headers_spec(header_views(p.headers@)) is Ok,
        spec_parse_url(p.m3u8_url@) is Ok,
        spec_parse_url(p.m3u8_url@)->Ok_0.1 == "http"@ || spec_parse_url(p.m3u8_url@)->Ok_0.1 == "https"@,
        p.output.suffix@ == ".flv"@,
        valid_filename(p.output.filename@),
        p.mode@ == "live"@,
        p.user_count >= 0,
{
}

} // verus!
