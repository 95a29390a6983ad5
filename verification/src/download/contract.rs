//! Versioned resolver contracts: the typed single-work plan and paged plan
//! that the resolver hands back, and the checks every plan must pass before
//! anything is downloaded. Each check that fails names the first violation,
//! in the order the checks are listed.

use vstd::prelude::*;
use crate::models::{UserInfo, VideoInfo};
use crate::text::{
    blank, contains_before, ends_with, i64_text, is_blank, parse_i64, spec_i64_text,
    spec_parse_i64, spec_u64_text, starts_with, str_eq, strip_prefix, to_owned_string, u64_text,
    views,
};

verus! {

/// Contract version of the single-work plan.
pub const SINGLE_DOWNLOAD_CONTRACT_VERSION: u32 = 1;

/// Contract version shared by the paged plans (post/like/mix/collects).
pub const PAGED_DOWNLOAD_CONTRACT_VERSION: u32 = 1;

/// Kind of a media file.
#[derive(Debug, Clone, Copy, PartialEq, Eq, Structural)]
pub enum MediaKindV1 {
    Video,
    Image,
    LivePhoto,
}

/// Kind of an accessory file.
#[derive(Debug, Clone, Copy, PartialEq, Eq, Structural)]
pub enum SingleAccessoryKind {
    Music,
    Cover,
    Description,
}

/// Where a file goes: name, suffix and optional sub-folder.
#[derive(Debug, Clone)]
pub struct SingleOutputSpec {
    pub filename: String,
    pub suffix: String,
    pub folder_name: Option<String>,
}

/// Accessory of a media item.
#[derive(Debug, Clone)]
pub struct SingleAccessory {
    pub kind: SingleAccessoryKind,
    pub output: SingleOutputSpec,
    pub url: Option<String>,
    pub content: Option<String>,
}

/// One media file of a work.
#[derive(Debug, Clone)]
pub struct MediaDownloadItemV1 {
    pub media_key: String,
    pub aweme_id: String,
    pub urls: Vec<String>,
    pub kind: MediaKindV1,
    pub output: SingleOutputSpec,
    pub headers: Vec<(String, String)>,
    pub accessories: Vec<SingleAccessory>,
    pub metadata: VideoInfo,
}

/// Plan for a single work (`mode = one`).
#[derive(Debug, Clone)]
pub struct SingleDownloadPlanV1 {
    pub success: bool,
    pub contract_version: u32,
    pub mode: String,
    pub save_dir: String,
    pub items: Vec<MediaDownloadItemV1>,
    pub total: i64,
}

/// Plan for one page of a paged mode (post/like/mix/collects).
#[derive(Debug, Clone)]
pub struct PagedDownloadPlanV1 {
    pub success: bool,
    pub contract_version: u32,
    pub mode: String,
    pub save_dir: String,
    pub items: Vec<MediaDownloadItemV1>,
    pub next_cursor: Option<i64>,
    pub has_more: bool,
    pub page_aweme_ids: Vec<String>,
    pub user_profile: Option<UserInfo>,
}

/// Item type of the single-work plan.
pub type SingleDownloadItem = MediaDownloadItemV1;

/// Media kind of the single-work plan.
pub type SingleMediaKind = MediaKindV1;

/// A contract violation, with the identifiers that the message names.
#[derive(Debug, Clone)]
pub enum ContractError {
    SingleVersion(u32),
    SingleMarkedFailed,
    SingleWrongMode(String),
    SingleBlankSaveDir,
    SingleNoItems,
    SingleTotalMismatch(i64, u64),
    SingleDuplicateKey(String),
    PagedVersion(u32),
    PagedMarkedFailed,
    PagedModeMismatch(String, String),
    PagedBlankSaveDir,
    MoreWithoutCursor,
    CursorWithoutMore,
    EmptyItemsWithMore,
    BlankPageId,
    DuplicatePageId(String),
    ItemsWithoutPageIds,
    PagedDuplicateKey(String),
    ItemNotInPage(String),
    PageIdWithoutMedia(String),
    BlankIdentity,
    KeyMismatch(String),
    InvalidIndex(String),
    ConventionMismatch(String),
    MissingUrl(String),
    IncompleteOutput(String),
    MetadataMismatch(String),
    AccessoryOutputIncomplete(String),
    AccessoryUrlMissing(String),
    DescriptionMissing(String),
}

/// Model of a [`ContractError`], with text as character sequences.
pub enum Violation {
    SingleVersion(u32),
    SingleMarkedFailed,
    SingleWrongMode(Seq<char>),
    SingleBlankSaveDir,
    SingleNoItems,
    SingleTotalMismatch(i64, u64),
    SingleDuplicateKey(Seq<char>),
    PagedVersion(u32),
    PagedMarkedFailed,
    PagedModeMismatch(Seq<char>, Seq<char>),
    PagedBlankSaveDir,
    MoreWithoutCursor,
    CursorWithoutMore,
    EmptyItemsWithMore,
    BlankPageId,
    DuplicatePageId(Seq<char>),
    ItemsWithoutPageIds,
    PagedDuplicateKey(Seq<char>),
    ItemNotInPage(Seq<char>),
    PageIdWithoutMedia(Seq<char>),
    BlankIdentity,
    KeyMismatch(Seq<char>),
    InvalidIndex(Seq<char>),
    ConventionMismatch(Seq<char>),
    MissingUrl(Seq<char>),
    IncompleteOutput(Seq<char>),
    MetadataMismatch(Seq<char>),
    AccessoryOutputIncomplete(Seq<char>),
    AccessoryUrlMissing(Seq<char>),
    DescriptionMissing(Seq<char>),
}

impl View for ContractError {
    type V = Violation;

    open spec fn view(&self) -> Violation {
        match self {
            ContractError::SingleVersion(v) => Violation::SingleVersion(*v),
            ContractError::SingleMarkedFailed => Violation::SingleMarkedFailed,
            ContractError::SingleWrongMode(m) => Violation::SingleWrongMode(m@),
            ContractError::SingleBlankSaveDir => Violation::SingleBlankSaveDir,
            ContractError::SingleNoItems => Violation::SingleNoItems,
            ContractError::SingleTotalMismatch(t, n) => Violation::SingleTotalMismatch(*t, *n),
            ContractError::SingleDuplicateKey(k) => Violation::SingleDuplicateKey(k@),
            ContractError::PagedVersion(v) => Violation::PagedVersion(*v),
            ContractError::PagedMarkedFailed => Violation::PagedMarkedFailed,
            ContractError::PagedModeMismatch(e, a) => Violation::PagedModeMismatch(e@, a@),
            ContractError::PagedBlankSaveDir => Violation::PagedBlankSaveDir,
            ContractError::MoreWithoutCursor => Violation::MoreWithoutCursor,
            ContractError::CursorWithoutMore => Violation::CursorWithoutMore,
            ContractError::EmptyItemsWithMore => Violation::EmptyItemsWithMore,
            ContractError::BlankPageId => Violation::BlankPageId,
            ContractError::DuplicatePageId(i) => Violation::DuplicatePageId(i@),
            ContractError::ItemsWithoutPageIds => Violation::ItemsWithoutPageIds,
            ContractError::PagedDuplicateKey(k) => Violation::PagedDuplicateKey(k@),
            ContractError::ItemNotInPage(i) => Violation::ItemNotInPage(i@),
            ContractError::PageIdWithoutMedia(i) => Violation::PageIdWithoutMedia(i@),
            ContractError::BlankIdentity => Violation::BlankIdentity,
            ContractError::KeyMismatch(k) => Violation::KeyMismatch(k@),
            ContractError::InvalidIndex(k) => Violation::InvalidIndex(k@),
            ContractError::ConventionMismatch(k) => Violation::ConventionMismatch(k@),
            ContractError::MissingUrl(k) => Violation::MissingUrl(k@),
            ContractError::IncompleteOutput(k) => Violation::IncompleteOutput(k@),
            ContractError::MetadataMismatch(k) => Violation::MetadataMismatch(k@),
            ContractError::AccessoryOutputIncomplete(k) => Violation::AccessoryOutputIncomplete(k@),
            ContractError::AccessoryUrlMissing(k) => Violation::AccessoryUrlMissing(k@),
            ContractError::DescriptionMissing(k) => Violation::DescriptionMissing(k@),
        }
    }
}

/// The text of a violation.
pub open spec fn violation_message(v: Violation) -> Seq<char> {
    match v {
        Violation::SingleVersion(n) => "不支持的单视频解析契约版本: "@ + spec_u64_text(n as u64) + ", 当前支持 "@
            + spec_u64_text(SINGLE_DOWNLOAD_CONTRACT_VERSION as u64),
        Violation::SingleMarkedFailed => "单视频解析契约标记为失败"@,
        Violation::SingleWrongMode(m) => "单视频解析契约 mode 必须为 one，实际为 "@ + m,
        Violation::SingleBlankSaveDir => "单视频解析契约 save_dir 不能为空"@,
        Violation::SingleNoItems => "单视频解析契约 items 不能为空"@,
        Violation::SingleTotalMismatch(t, n) => "单视频解析契约 total 与 items 数量不一致: "@ + spec_i64_text(t)
            + " != "@ + spec_u64_text(n),
        Violation::SingleDuplicateKey(k) => "单视频解析项 media_key 重复: "@ + k,
        Violation::PagedVersion(n) => "不支持的分页解析契约版本: "@ + spec_u64_text(n as u64) + ", 当前支持 "@
            + spec_u64_text(PAGED_DOWNLOAD_CONTRACT_VERSION as u64),
        Violation::PagedMarkedFailed => "分页解析契约标记为失败"@,
        Violation::PagedModeMismatch(e, a) => "分页解析契约 mode 不匹配: expected="@ + e + ", actual="@ + a,
        Violation::PagedBlankSaveDir => "分页解析契约 save_dir 不能为空"@,
        Violation::MoreWithoutCursor => "has_more=true 但 next_cursor 为空"@,
        Violation::CursorWithoutMore => "has_more=false 但 next_cursor 非空"@,
        Violation::EmptyItemsWithMore => "items 为空但 has_more=true"@,
        Violation::BlankPageId => "page_aweme_ids 包含空标识"@,
        Violation::DuplicatePageId(i) => "page_aweme_ids 重复: "@ + i,
        Violation::ItemsWithoutPageIds => "items 非空但 page_aweme_ids 为空"@,
        Violation::PagedDuplicateKey(k) => "重复 media_key: "@ + k,
        Violation::ItemNotInPage(i) => "分页项 aweme_id="@ + i + " 不在 page_aweme_ids 中"@,
        Violation::PageIdWithoutMedia(i) => "page_aweme_ids 中的作品没有媒体项: "@ + i,
        Violation::BlankIdentity => "媒体项 aweme_id/media_key 不能为空"@,
        Violation::KeyMismatch(k) => "media_key 与 aweme_id/kind 不一致: "@ + k,
        Violation::InvalidIndex(k) => "media_key index 无效: "@ + k,
        Violation::ConventionMismatch(k) => "media_key/kind/index/suffix 约定不一致: "@ + k,
        Violation::MissingUrl(k) => "媒体项 "@ + k + " 至少需要一个下载地址"@,
        Violation::IncompleteOutput(k) => "媒体项 "@ + k + " 的 output 不完整"@,
        Violation::MetadataMismatch(k) => "媒体项 "@ + k + " 的 metadata 标识不一致"@,
        Violation::AccessoryOutputIncomplete(k) => "媒体项 "@ + k + " 的附件 output 不完整"@,
        Violation::AccessoryUrlMissing(k) => "媒体项 "@ + k + " 的音乐或封面附件缺少 URL"@,
        Violation::DescriptionMissing(k) => "媒体项 "@ + k + " 的文案附件缺少内容"@,
    }
}

fn concat2(a: &str, b: &str) -> (res: String)
    ensures
        res@ == a@ + b@,
{
    let mut s = to_owned_string(a);
    s.append(b);
    s
}

fn concat3(a: &str, b: &str, c: &str) -> (res: String)
    ensures
        res@ == a@ + b@ + c@,
{
    let mut s = to_owned_string(a);
    s.append(b);
    s.append(c);
    s
}

impl ContractError {
    /// The message shown for the violation.
    pub fn message(&self) -> (res: String)
        ensures
            res@ == violation_message(self@),
    {
        match self {
            ContractError::SingleVersion(n) => {
                let mut s = to_owned_string("不支持的单视频解析契约版本: ");
                s.append(u64_text(*n as u64).as_str());
                s.append(", 当前支持 ");
                s.append(u64_text(SINGLE_DOWNLOAD_CONTRACT_VERSION as u64).as_str());
                s
            },
            ContractError::SingleMarkedFailed => to_owned_string("单视频解析契约标记为失败"),
            ContractError::SingleWrongMode(m) => concat2("单视频解析契约 mode 必须为 one，实际为 ", m.as_str()),
            ContractError::SingleBlankSaveDir => to_owned_string("单视频解析契约 save_dir 不能为空"),
            ContractError::SingleNoItems => to_owned_string("单视频解析契约 items 不能为空"),
            ContractError::SingleTotalMismatch(t, n) => {
                let mut s = to_owned_string("单视频解析契约 total 与 items 数量不一致: ");
                s.append(i64_text(*t).as_str());
                s.append(" != ");
                s.append(u64_text(*n).as_str());
                s
            },
            ContractError::SingleDuplicateKey(k) => concat2("单视频解析项 media_key 重复: ", k.as_str()),
            ContractError::PagedVersion(n) => {
                let mut s = to_owned_string("不支持的分页解析契约版本: ");
                s.append(u64_text(*n as u64).as_str());
                s.append(", 当前支持 ");
                s.append(u64_text(PAGED_DOWNLOAD_CONTRACT_VERSION as u64).as_str());
                s
            },
            ContractError::PagedMarkedFailed => to_owned_string("分页解析契约标记为失败"),
            ContractError::PagedModeMismatch(e, a) => {
                let mut s = to_owned_string("分页解析契约 mode 不匹配: expected=");
                s.append(e.as_str());
                s.append(", actual=");
                s.append(a.as_str());
                s
            },
            ContractError::PagedBlankSaveDir => to_owned_string("分页解析契约 save_dir 不能为空"),
            ContractError::MoreWithoutCursor => to_owned_string("has_more=true 但 next_cursor 为空"),
            ContractError::CursorWithoutMore => to_owned_string("has_more=false 但 next_cursor 非空"),
            ContractError::EmptyItemsWithMore => to_owned_string("items 为空但 has_more=true"),
            ContractError::BlankPageId => to_owned_string("page_aweme_ids 包含空标识"),
            ContractError::DuplicatePageId(i) => concat2("page_aweme_ids 重复: ", i.as_str()),
            ContractError::ItemsWithoutPageIds => to_owned_string("items 非空但 page_aweme_ids 为空"),
            ContractError::PagedDuplicateKey(k) => concat2("重复 media_key: ", k.as_str()),
            ContractError::ItemNotInPage(i) => concat3("分页项 aweme_id=", i.as_str(), " 不在 page_aweme_ids 中"),
            ContractError::PageIdWithoutMedia(i) => concat2("page_aweme_ids 中的作品没有媒体项: ", i.as_str()),
            ContractError::BlankIdentity => to_owned_string("媒体项 aweme_id/media_key 不能为空"),
            ContractError::KeyMismatch(k) => concat2("media_key 与 aweme_id/kind 不一致: ", k.as_str()),
            ContractError::InvalidIndex(k) => concat2("media_key index 无效: ", k.as_str()),
            ContractError::ConventionMismatch(k) => concat2("media_key/kind/index/suffix 约定不一致: ", k.as_str()),
            ContractError::MissingUrl(k) => concat3("媒体项 ", k.as_str(), " 至少需要一个下载地址"),
            ContractError::IncompleteOutput(k) => concat3("媒体项 ", k.as_str(), " 的 output 不完整"),
            ContractError::MetadataMismatch(k) => concat3("媒体项 ", k.as_str(), " 的 metadata 标识不一致"),
            ContractError::AccessoryOutputIncomplete(k) => concat3("媒体项 ", k.as_str(), " 的附件 output 不完整"),
            ContractError::AccessoryUrlMissing(k) => concat3("媒体项 ", k.as_str(), " 的音乐或封面附件缺少 URL"),
            ContractError::DescriptionMissing(k) => concat3("媒体项 ", k.as_str(), " 的文案附件缺少内容"),
        }
    }
}

/// The name of a media kind inside a media key.
pub open spec fn kind_name(k: MediaKindV1) -> Seq<char> {
    match k {
        MediaKindV1::Video => "video"@,
        MediaKindV1::Image => "image"@,
        MediaKindV1::LivePhoto => "live_photo"@,
    }
}

/// The prefix `{aweme_id}:{kind}:` that a media key must start with.
pub open spec fn media_prefix(item: MediaDownloadItemV1) -> Seq<char> {
    item.aweme_id@ + ":"@ + kind_name(item.kind) + ":"@
}

/// Whether kind, index and suffix follow the convention: a video has index 0
/// and `.mp4`; a live photo has index ≥ 1 and `.mp4`; an image has index ≥ 1
/// and `.webp`.
pub open spec fn convention_ok(kind: MediaKindV1, index: i64, suffix: Seq<char>) -> bool {
    match kind {
        MediaKindV1::Video => index == 0 && suffix == ".mp4"@,
        MediaKindV1::LivePhoto => index >= 1 && suffix == ".mp4"@,
        MediaKindV1::Image => index >= 1 && suffix == ".webp"@,
    }
}

/// The media index encoded in an item's key, or the violation.
pub open spec fn media_index_spec(item: MediaDownloadItemV1) -> Result<i64, Violation> {
    let p = media_prefix(item);
    let key = item.media_key@;
    if !(p.len() <= key.len() && key.subrange(0, p.len() as int) == p) {
        Err(Violation::KeyMismatch(key))
    } else {
        match spec_parse_i64(key.skip(p.len() as int)) {
            None => Err(Violation::InvalidIndex(key)),
            Some(index) => if convention_ok(item.kind, index, item.output.suffix@) {
                Ok(index)
            } else {
                Err(Violation::ConventionMismatch(key))
            },
        }
    }
}

/// The violation of one accessory of the item with key `key`, if any.
pub open spec fn accessory_violation(key: Seq<char>, a: SingleAccessory) -> Option<Violation> {
    if blank(a.output.filename@) || !(a.output.suffix@.len() > 0 && a.output.suffix@[0] == '.') {
        Some(Violation::AccessoryOutputIncomplete(key))
    } else {
        match a.kind {
            SingleAccessoryKind::Music | SingleAccessoryKind::Cover => match a.url {
                None => Some(Violation::AccessoryUrlMissing(key)),
                Some(u) => if blank(u@) {
                    Some(Violation::AccessoryUrlMissing(key))
                } else {
                    None
                },
            },
            SingleAccessoryKind::Description => if a.content is None {
                Some(Violation::DescriptionMissing(key))
            } else {
                None
            },
        }
    }
}

/// The first violation among the first `n` accessories.
pub open spec fn accessories_violation(key: Seq<char>, accs: Seq<SingleAccessory>, n: int) -> Option<Violation>
    decreases n,
{
    if n <= 0 {
        None
    } else {
        match accessories_violation(key, accs, n - 1) {
            Some(v) => Some(v),
            None => accessory_violation(key, accs[n - 1]),
        }
    }
}

/// Whether some URL of the list is blank.
pub open spec fn some_blank(urls: Seq<Seq<char>>) -> bool {
    exists|j: int| 0 <= j < urls.len() && blank(#[trigger] urls[j])
}

/// The first violation of a media item, if any: blank identity, then the
/// media index, then URLs, output, metadata and accessories.
pub open spec fn item_violation(item: MediaDownloadItemV1) -> Option<Violation> {
    let key = item.media_key@;
    if blank(item.aweme_id@) || blank(key) {
        Some(Violation::BlankIdentity)
    } else if media_index_spec(item) is Err {
        Some(media_index_spec(item)->Err_0)
    } else if item.urls@.len() == 0 || some_blank(views(item.urls@)) {
        Some(Violation::MissingUrl(key))
    } else if blank(item.output.filename@) || (item.output.folder_name matches Some(f) && blank(f@)) {
        Some(Violation::IncompleteOutput(key))
    } else if item.metadata.aweme_id@ != item.aweme_id@ {
        Some(Violation::MetadataMismatch(key))
    } else {
        accessories_violation(key, item.accessories@, item.accessories@.len() as int)
    }
}

/// The media keys of the items.
pub open spec fn item_keys(items: Seq<MediaDownloadItemV1>) -> Seq<Seq<char>> {
    items.map_values(|it: MediaDownloadItemV1| it.media_key@)
}

/// The work ids of the items.
pub open spec fn item_works(items: Seq<MediaDownloadItemV1>) -> Seq<Seq<char>> {
    items.map_values(|it: MediaDownloadItemV1| it.aweme_id@)
}

/// The violation found at item `i` of a single-work plan: its own
/// violation, else a key already used by an earlier item.
pub open spec fn single_item_step(items: Seq<MediaDownloadItemV1>, i: int) -> Option<Violation> {
    match item_violation(items[i]) {
        Some(v) => Some(v),
        None => if item_keys(items).take(i).contains(items[i].media_key@) {
            Some(Violation::SingleDuplicateKey(items[i].media_key@))
        } else {
            None
        },
    }
}

/// The first violation among the first `n` items of a single-work plan.
pub open spec fn single_items_violation(items: Seq<MediaDownloadItemV1>, n: int) -> Option<Violation>
    decreases n,
{
    if n <= 0 {
        None
    } else {
        match single_items_violation(items, n - 1) {
            Some(v) => Some(v),
            None => single_item_step(items, n - 1),
        }
    }
}

/// The first violation of a single-work plan, if any.
pub open spec fn single_plan_violation(p: SingleDownloadPlanV1) -> Option<Violation> {
    if p.contract_version != SINGLE_DOWNLOAD_CONTRACT_VERSION {
        Some(Violation::SingleVersion(p.contract_version))
    } else if !p.success {
        Some(Violation::SingleMarkedFailed)
    } else if p.mode@ != "one"@ {
        Some(Violation::SingleWrongMode(p.mode@))
    } else if blank(p.save_dir@) {
        Some(Violation::SingleBlankSaveDir)
    } else if p.items@.len() == 0 {
        Some(Violation::SingleNoItems)
    } else if p.total != p.items@.len() {
        Some(Violation::SingleTotalMismatch(p.total, p.items@.len() as u64))
    } else {
        single_items_violation(p.items@, p.items@.len() as int)
    }
}

/// The violation found at page id `j`: blank, or repeated.
pub open spec fn page_id_step(ids: Seq<Seq<char>>, j: int) -> Option<Violation> {
    if blank(ids[j]) {
        Some(Violation::BlankPageId)
    } else if ids.take(j).contains(ids[j]) {
        Some(Violation::DuplicatePageId(ids[j]))
    } else {
        None
    }
}

/// The first violation among the first `n` page ids.
pub open spec fn page_ids_violation(ids: Seq<Seq<char>>, n: int) -> Option<Violation>
    decreases n,
{
    if n <= 0 {
        None
    } else {
        match page_ids_violation(ids, n - 1) {
            Some(v) => Some(v),
            None => page_id_step(ids, n - 1),
        }
    }
}

/// The violation found at item `i` of a page: its own violation, a repeated
/// key, or a work that is not among the page ids.
pub open spec fn paged_item_step(items: Seq<MediaDownloadItemV1>, ids: Seq<Seq<char>>, i: int) -> Option<Violation> {
    match item_violation(items[i]) {
        Some(v) => Some(v),
        None => if item_keys(items).take(i).contains(items[i].media_key@) {
            Some(Violation::PagedDuplicateKey(items[i].media_key@))
        } else if !ids.contains(items[i].aweme_id@) {
            Some(Violation::ItemNotInPage(items[i].aweme_id@))
        } else {
            None
        },
    }
}

/// The first violation among the first `n` items of a page.
pub open spec fn paged_items_violation(items: Seq<MediaDownloadItemV1>, ids: Seq<Seq<char>>, n: int) -> Option<Violation>
    decreases n,
{
    if n <= 0 {
        None
    } else {
        match paged_items_violation(items, ids, n - 1) {
            Some(v) => Some(v),
            None => paged_item_step(items, ids, n - 1),
        }
    }
}

/// The first page id among the first `n` with no media item.
pub open spec fn uncovered_page_id(items: Seq<MediaDownloadItemV1>, ids: Seq<Seq<char>>, n: int) -> Option<Violation>
    decreases n,
{
    if n <= 0 {
        None
    } else {
        match uncovered_page_id(items, ids, n - 1) {
            Some(v) => Some(v),
            None => if !item_works(items).contains(ids[n - 1]) {
                Some(Violation::PageIdWithoutMedia(ids[n - 1]))
            } else {
                None
            },
        }
    }
}

/// The first violation of a page plan's header fields (version, success
/// flag, mode, save directory and cursor), if any.
pub open spec fn paged_header_violation(p: PagedDownloadPlanV1, expected_mode: Seq<char>) -> Option<Violation> {
    if p.contract_version != PAGED_DOWNLOAD_CONTRACT_VERSION {
        Some(Violation::PagedVersion(p.contract_version))
    } else if !p.success {
        Some(Violation::PagedMarkedFailed)
    } else if p.mode@ != expected_mode {
        Some(Violation::PagedModeMismatch(expected_mode, p.mode@))
    } else if blank(p.save_dir@) {
        Some(Violation::PagedBlankSaveDir)
    } else if p.has_more && p.next_cursor is None {
        Some(Violation::MoreWithoutCursor)
    } else if !p.has_more && p.next_cursor is Some {
        Some(Violation::CursorWithoutMore)
    } else if p.has_more && p.items@.len() == 0 {
        Some(Violation::EmptyItemsWithMore)
    } else {
        None
    }
}

/// The first violation of a page plan resolved for `expected_mode`, if any.
pub open spec fn paged_plan_violation(p: PagedDownloadPlanV1, expected_mode: Seq<char>) -> Option<Violation> {
    let ids = views(p.page_aweme_ids@);
    if paged_header_violation(p, expected_mode) is Some {
        paged_header_violation(p, expected_mode)
    } else if page_ids_violation(ids, ids.len() as int) is Some {
        page_ids_violation(ids, ids.len() as int)
    } else if p.items@.len() != 0 && ids.len() == 0 {
        Some(Violation::ItemsWithoutPageIds)
    } else if paged_items_violation(p.items@, ids, p.items@.len() as int) is Some {
        paged_items_violation(p.items@, ids, p.items@.len() as int)
    } else {
        uncovered_page_id(p.items@, ids, ids.len() as int)
    }
}

/// Whether the key of item `i` is used by an earlier item.
fn key_used_before(items: &Vec<MediaDownloadItemV1>, i: usize) -> (res: bool)
    requires
        i < items@.len(),
    ensures
        res == item_keys(items@).take(i as int).contains(items@[i as int].media_key@),
{
    let key = items[i].media_key.as_str();
    let mut j: usize = 0;
    while j < i
        invariant
            i < items@.len(),
            key@ == items@[i as int].media_key@,
            j <= i,
            forall|k: int| 0 <= k < j ==> item_keys(items@)[k] != key@,
        decreases i - j,
    {
        if str_eq(items[j].media_key.as_str(), key) {
            assert(item_keys(items@).take(i as int)[j as int] == key@);
            return true;
        }
        j = j + 1;
    }
    proof {
        if item_keys(items@).take(i as int).contains(key@) {
            let k = choose|k: int| 0 <= k < i && item_keys(items@).take(i as int)[k] == key@;
            assert(item_keys(items@)[k] == key@);
        }
    }
    false
}

/// Whether some item belongs to work `id`.
fn some_item_of(items: &Vec<MediaDownloadItemV1>, id: &str) -> (res: bool)
    ensures
        res == item_works(items@).contains(id@),
{
    let mut j: usize = 0;
    while j < items.len()
        invariant
            j <= items@.len(),
            forall|k: int| 0 <= k < j ==> item_works(items@)[k] != id@,
        decreases items@.len() - j,
    {
        if str_eq(items[j].aweme_id.as_str(), id) {
            assert(item_works(items@)[j as int] == id@);
            return true;
        }
        j = j + 1;
    }
    false
}

/// Whether `id` is among `ids`.
fn contains_id(ids: &Vec<String>, id: &str) -> (res: bool)
    ensures
        res == views(ids@).contains(id@),
{
    let r = contains_before(ids, ids.len(), id);
    proof {
        assert(views(ids@).take(ids@.len() as int) =~= views(ids@));
    }
    r
}

impl MediaDownloadItemV1 {
    /// The media index encoded in the key `{aweme_id}:{kind}:{index}`,
    /// checked against the kind and the output suffix.
    pub fn check_media_index(&self) -> (res: Result<i64, ContractError>)
        ensures
            match res {
                Ok(i) => media_index_spec(*self) == Ok::<i64, Violation>(i),
                Err(e) => media_index_spec(*self) == Err::<i64, Violation>(e@),
            },
    {
        let kind = match self.kind {
            MediaKindV1::Video => "video",
            MediaKindV1::Image => "image",
            MediaKindV1::LivePhoto => "live_photo",
        };
        let mut prefix = to_owned_string(self.aweme_id.as_str());
        prefix.append(":");
        prefix.append(kind);
        prefix.append(":");
        let rest = match strip_prefix(self.media_key.as_str(), prefix.as_str()) {
            Some(r) => r,
            None => {
                return Err(ContractError::KeyMismatch(self.media_key.clone()));
            },
        };
        let index = match parse_i64(rest) {
            Some(n) => n,
            None => {
                return Err(ContractError::InvalidIndex(self.media_key.clone()));
            },
        };
        let suffix = self.output.suffix.as_str();
        let valid = match self.kind {
            MediaKindV1::Video => index == 0 && str_eq(suffix, ".mp4"),
            MediaKindV1::LivePhoto => index >= 1 && str_eq(suffix, ".mp4"),
            MediaKindV1::Image => index >= 1 && str_eq(suffix, ".webp"),
        };
        if !valid {
            return Err(ContractError::ConventionMismatch(self.media_key.clone()));
        }
        Ok(index)
    }

    /// The media index, or the message of the violation.
    pub fn media_index(&self) -> (res: Result<i64, String>)
        ensures
            match res {
                Ok(i) => media_index_spec(*self) == Ok::<i64, Violation>(i),
                Err(m) => media_index_spec(*self) is Err && m@ == violation_message(media_index_spec(*self)->Err_0),
            },
    {
        match self.check_media_index() {
            Ok(i) => Ok(i),
            Err(e) => Err(e.message()),
        }
    }

    /// Checks one media item; `Err` carries the message of its first
    /// violation.
    pub fn validate(&self) -> (res: Result<(), String>)
        ensures
            res is Ok <==> item_violation(*self) is None,
            res matches Err(m) ==> m@ == violation_message(item_violation(*self)->Some_0),
    {
        match self.check() {
            Ok(()) => Ok(()),
            Err(e) => Err(e.message()),
        }
    }

    /// Checks one media item; `Err` carries its first violation.
    pub fn check(&self) -> (res: Result<(), ContractError>)
        ensures
            match res {
                Ok(()) => item_violation(*self) is None,
                Err(e) => item_violation(*self) == Some(e@),
            },
    {
        if is_blank(self.aweme_id.as_str()) || is_blank(self.media_key.as_str()) {
            return Err(ContractError::BlankIdentity);
        }
        match self.check_media_index() {
            Ok(_) => {},
            Err(e) => {
                return Err(e);
            },
        }
        let mut missing_url = self.urls.len() == 0;
        let mut j: usize = 0;
        while j < self.urls.len() && !missing_url
            invariant
                j <= self.urls@.len(),
                missing_url ==> (self.urls@.len() == 0 || some_blank(views(self.urls@))),
                !missing_url ==> self.urls@.len() != 0,
                !missing_url ==> forall|k: int| 0 <= k < j ==> !blank(#[trigger] views(self.urls@)[k]),
            decreases self.urls@.len() - j,
        {
            if is_blank(self.urls[j].as_str()) {
                assert(blank(views(self.urls@)[j as int]));
                missing_url = true;
            }
            j = j + 1;
        }
        if missing_url {
            return Err(ContractError::MissingUrl(self.media_key.clone()));
        }
        let folder_blank = match &self.output.folder_name {
            Some(f) => is_blank(f.as_str()),
            None => false,
        };
        if is_blank(self.output.filename.as_str()) || folder_blank {
            return Err(ContractError::IncompleteOutput(self.media_key.clone()));
        }
        if !str_eq(self.metadata.aweme_id.as_str(), self.aweme_id.as_str()) {
            return Err(ContractError::MetadataMismatch(self.media_key.clone()));
        }
        let key = self.media_key.as_str();
        let ghost accs = self.accessories@;
        let mut i: usize = 0;
        while i < self.accessories.len()
            invariant
                accs == self.accessories@,
                key@ == self.media_key@,
                i <= accs.len(),
                accessories_violation(key@, accs, i as int) is None,
                item_violation(*self) == accessories_violation(key@, accs, accs.len() as int),
            decreases accs.len() - i,
        {
            let a = &self.accessories[i];
            let suffix = a.output.suffix.as_str();
            let dotted = suffix.unicode_len() > 0 && suffix.get_char(0) == '.';
            if is_blank(a.output.filename.as_str()) || !dotted {
                proof {
                    lemma_accessories_stable(key@, accs, i + 1, accs.len() as int);
                }
                return Err(ContractError::AccessoryOutputIncomplete(self.media_key.clone()));
            }
            match a.kind {
                SingleAccessoryKind::Music | SingleAccessoryKind::Cover => {
                    let url_ok = match &a.url {
                        Some(u) => !is_blank(u.as_str()),
                        None => false,
                    };
                    if !url_ok {
                        proof {
                            lemma_accessories_stable(key@, accs, i + 1, accs.len() as int);
                        }
                        return Err(ContractError::AccessoryUrlMissing(self.media_key.clone()));
                    }
                },
                SingleAccessoryKind::Description => {
                    if a.content.is_none() {
                        proof {
                            lemma_accessories_stable(key@, accs, i + 1, accs.len() as int);
                        }
                        return Err(ContractError::DescriptionMissing(self.media_key.clone()));
                    }
                },
            }
            i = i + 1;
        }
        Ok(())
    }
}

impl SingleDownloadPlanV1 {
    /// Checks a single-work plan; `Err` carries its first violation.
    pub fn check(&self) -> (res: Result<(), ContractError>)
        ensures
            match res {
                Ok(()) => single_plan_violation(*self) is None,
                Err(e) => single_plan_violation(*self) == Some(e@),
            },
    {
        if self.contract_version != SINGLE_DOWNLOAD_CONTRACT_VERSION {
            return Err(ContractError::SingleVersion(self.contract_version));
        }
        if !self.success {
            return Err(ContractError::SingleMarkedFailed);
        }
        if !str_eq(self.mode.as_str(), "one") {
            return Err(ContractError::SingleWrongMode(self.mode.clone()));
        }
        if is_blank(self.save_dir.as_str()) {
            return Err(ContractError::SingleBlankSaveDir);
        }
        if self.items.len() == 0 {
            return Err(ContractError::SingleNoItems);
        }
        let n = self.items.len();
        if self.total < 0 || self.total as u64 != n as u64 {
            return Err(ContractError::SingleTotalMismatch(self.total, n as u64));
        }
        let mut i: usize = 0;
        while i < n
            invariant
                n == self.items@.len(),
                i <= n,
                single_items_violation(self.items@, i as int) is None,
                single_plan_violation(*self) == single_items_violation(self.items@, n as int),
            decreases n - i,
        {
            match self.items[i].check() {
                Ok(()) => {},
                Err(e) => {
                    proof {
                        lemma_single_items_stable(self.items@, i + 1, n as int);
                    }
                    return Err(e);
                },
            }
            if key_used_before(&self.items, i) {
                proof {
                    lemma_single_items_stable(self.items@, i + 1, n as int);
                }
                return Err(ContractError::SingleDuplicateKey(self.items[i].media_key.clone()));
            }
            i = i + 1;
        }
        Ok(())
    }

    /// Checks a single-work plan; `Err` carries the message of its first
    /// violation.
    pub fn validate(&self) -> (res: Result<(), String>)
        ensures
            res is Ok <==> single_plan_violation(*self) is None,
            res matches Err(m) ==> m@ == violation_message(single_plan_violation(*self)->Some_0),
    {
        match self.check() {
            Ok(()) => Ok(()),
            Err(e) => Err(e.message()),
        }
    }
}

impl PagedDownloadPlanV1 {
    /// Checks a page plan resolved for `expected_mode`; `Err` carries its
    /// first violation.
    pub fn check(&self, expected_mode: &str) -> (res: Result<(), ContractError>)
        ensures
            match res {
                Ok(()) => paged_plan_violation(*self, expected_mode@) is None,
                Err(e) => paged_plan_violation(*self, expected_mode@) == Some(e@),
            },
    {
        if self.contract_version != PAGED_DOWNLOAD_CONTRACT_VERSION {
            return Err(ContractError::PagedVersion(self.contract_version));
        }
        if !self.success {
            return Err(ContractError::PagedMarkedFailed);
        }
        if !str_eq(self.mode.as_str(), expected_mode) {
            return Err(ContractError::PagedModeMismatch(to_owned_string(expected_mode), self.mode.clone()));
        }
        if is_blank(self.save_dir.as_str()) {
            return Err(ContractError::PagedBlankSaveDir);
        }
        if self.has_more && self.next_cursor.is_none() {
            return Err(ContractError::MoreWithoutCursor);
        }
        if !self.has_more && self.next_cursor.is_some() {
            return Err(ContractError::CursorWithoutMore);
        }
        if self.has_more && self.items.len() == 0 {
            return Err(ContractError::EmptyItemsWithMore);
        }
        let ghost ids = views(self.page_aweme_ids@);
        let m = self.page_aweme_ids.len();
        let mut j: usize = 0;
        while j < m
            invariant
                ids == views(self.page_aweme_ids@),
                m == ids.len(),
                j <= m,
                page_ids_violation(ids, j as int) is None,
                paged_header_violation(*self, expected_mode@) is None,
            decreases m - j,
        {
            if is_blank(self.page_aweme_ids[j].as_str()) {
                proof {
                    lemma_page_ids_stable(ids, j + 1, m as int);
                }
                return Err(ContractError::BlankPageId);
            }
            if contains_before(&self.page_aweme_ids, j, self.page_aweme_ids[j].as_str()) {
                proof {
                    lemma_page_ids_stable(ids, j + 1, m as int);
                }
                return Err(ContractError::DuplicatePageId(self.page_aweme_ids[j].clone()));
            }
            j = j + 1;
        }
        if self.items.len() != 0 && m == 0 {
            return Err(ContractError::ItemsWithoutPageIds);
        }
        let n = self.items.len();
        let mut i: usize = 0;
        while i < n
            invariant
                ids == views(self.page_aweme_ids@),
                n == self.items@.len(),
                i <= n,
                paged_items_violation(self.items@, ids, i as int) is None,
                paged_header_violation(*self, expected_mode@) is None,
                page_ids_violation(ids, ids.len() as int) is None,
                !(self.items@.len() != 0 && ids.len() == 0),
            decreases n - i,
        {
            match self.items[i].check() {
                Ok(()) => {},
                Err(e) => {
                    proof {
                        lemma_paged_items_stable(self.items@, ids, i + 1, n as int);
                    }
                    return Err(e);
                },
            }
            if key_used_before(&self.items, i) {
                proof {
                    lemma_paged_items_stable(self.items@, ids, i + 1, n as int);
                }
                return Err(ContractError::PagedDuplicateKey(self.items[i].media_key.clone()));
            }
            if !contains_id(&self.page_aweme_ids, self.items[i].aweme_id.as_str()) {
                proof {
                    lemma_paged_items_stable(self.items@, ids, i + 1, n as int);
                }
                return Err(ContractError::ItemNotInPage(self.items[i].aweme_id.clone()));
            }
            i = i + 1;
        }
        let mut k: usize = 0;
        while k < m
            invariant
                ids == views(self.page_aweme_ids@),
                m == ids.len(),
                k <= m,
                uncovered_page_id(self.items@, ids, k as int) is None,
                paged_header_violation(*self, expected_mode@) is None,
                page_ids_violation(ids, ids.len() as int) is None,
                !(self.items@.len() != 0 && ids.len() == 0),
                paged_items_violation(self.items@, ids, self.items@.len() as int) is None,
            decreases m - k,
        {
            if !some_item_of(&self.items, self.page_aweme_ids[k].as_str()) {
                proof {
                    lemma_uncovered_stable(self.items@, ids, k + 1, m as int);
                }
                return Err(ContractError::PageIdWithoutMedia(self.page_aweme_ids[k].clone()));
            }
            k = k + 1;
        }
        Ok(())
    }

    /// Checks a page plan resolved for `expected_mode`; `Err` carries the
    /// message of its first violation.
    pub fn validate(&self, expected_mode: &str) -> (res: Result<(), String>)
        ensures
            res is Ok <==> paged_plan_violation(*self, expected_mode@) is None,
            res matches Err(m) ==> m@ == violation_message(paged_plan_violation(*self, expected_mode@)->Some_0),
    {
        match self.check(expected_mode) {
            Ok(()) => Ok(()),
            Err(e) => Err(e.message()),
        }
    }
}

/// A violation found among the first `n` accessories stays the first one.
pub proof fn lemma_accessories_stable(key: Seq<char>, accs: Seq<SingleAccessory>, n: int, m: int)
    requires
        0 <= n <= m,
        accessories_violation(key, accs, n) is Some,
    ensures
        accessories_violation(key, accs, m) == accessories_violation(key, accs, n),
    decreases m,
{
    if m > n {
        lemma_accessories_stable(key, accs, n, m - 1);
    }
}

/// A violation found among the first `n` items stays the first one.
pub proof fn lemma_single_items_stable(items: Seq<MediaDownloadItemV1>, n: int, m: int)
    requires
        0 <= n <= m,
        single_items_violation(items, n) is Some,
    ensures
        single_items_violation(items, m) == single_items_violation(items, n),
    decreases m,
{
    if m > n {
        lemma_single_items_stable(items, n, m - 1);
    }
}

/// A violation found among the first `n` page ids stays the first one.
pub proof fn lemma_page_ids_stable(ids: Seq<Seq<char>>, n: int, m: int)
    requires
        0 <= n <= m,
        page_ids_violation(ids, n) is Some,
    ensures
        page_ids_violation(ids, m) == page_ids_violation(ids, n),
    decreases m,
{
    if m > n {
        lemma_page_ids_stable(ids, n, m - 1);
    }
}

/// A violation found among the first `n` page items stays the first one.
pub proof fn lemma_paged_items_stable(items: Seq<MediaDownloadItemV1>, ids: Seq<Seq<char>>, n: int, m: int)
    requires
        0 <= n <= m,
        paged_items_violation(items, ids, n) is Some,
    ensures
        paged_items_violation(items, ids, m) == paged_items_violation(items, ids, n),
    decreases m,
{
    if m > n {
        lemma_paged_items_stable(items, ids, n, m - 1);
    }
}

/// An uncovered page id found among the first `n` stays the first one.
pub proof fn lemma_uncovered_stable(items: Seq<MediaDownloadItemV1>, ids: Seq<Seq<char>>, n: int, m: int)
    requires
        0 <= n <= m,
        uncovered_page_id(items, ids, n) is Some,
    ensures
        uncovered_page_id(items, ids, m) == uncovered_page_id(items, ids, n),
    decreases m,
{
    if m > n {
        lemma_uncovered_stable(items, ids, n, m - 1);
    }
}

} // verus!

verus! {

/// Items that pass the single-plan item checks each have a valid media
/// index and a key no earlier item uses.
proof fn lemma_single_items_ok(items: Seq<MediaDownloadItemV1>, n: int)
    requires
        0 <= n <= items.len(),
        single_items_violation(items, n) is None,
    ensures
        forall|i: int| 0 <= i < n ==> #[trigger] media_index_spec(items[i]) is Ok,
        forall|i: int| 0 <= i < n ==> !item_keys(items).take(i).contains(#[trigger] items[i].media_key@),
    decreases n,
{
    if n > 0 {
        lemma_single_items_ok(items, n - 1);
    }
}

/// No key occurs before itself in `keys` for the first `n` positions:
/// then those keys are distinct.
proof fn lemma_keys_distinct(keys: Seq<Seq<char>>, n: int)
    requires
        0 <= n <= keys.len(),
        forall|i: int| 0 <= i < n ==> !keys.take(i).contains(#[trigger] keys[i]),
    ensures
        forall|i: int, j: int| 0 <= i < j < n ==> keys[i] != keys[j],
{
    assert forall|i: int, j: int| 0 <= i < j < n implies keys[i] != keys[j] by {
        assert(keys.take(j)[i] == keys[i]);
        if keys[i] == keys[j] {
            assert(keys.take(j).contains(keys[j]));
        }
    }
}

/// What a valid single-work plan guarantees: it has items, its total is
/// their number, every item has a valid media index, and no two items share
/// a media key.
pub proof fn lemma_valid_single_plan(p: SingleDownloadPlanV1)
    requires
        single_plan_violation(p) is None,
    ensures
        p.items@.len() > 0,
        p.total == p.items@.len(),
        forall|i: int| 0 <= i < p.items@.len() ==> #[trigger] media_index_spec(p.items@[i]) is Ok,
        forall|i: int, j: int|
            0 <= i < j < p.items@.len() ==> p.items@[i].media_key@ != p.items@[j].media_key@,
{
    let items = p.items@;
    lemma_single_items_ok(items, items.len() as int);
    let keys = item_keys(items);
    assert forall|i: int| 0 <= i < items.len() implies !keys.take(i).contains(#[trigger] keys[i]) by {
        assert(keys[i] == items[i].media_key@);
    }
    lemma_keys_distinct(keys, items.len() as int);
    assert forall|i: int, j: int| 0 <= i < j < items.len() implies items[i].media_key@ != items[j].media_key@ by {
        assert(keys[i] == items[i].media_key@);
        assert(keys[j] == items[j].media_key@);
    }
}

proof fn lemma_paged_items_ok(items: Seq<MediaDownloadItemV1>, ids: Seq<Seq<char>>, n: int)
    requires
        0 <= n <= items.len(),
        paged_items_violation(items, ids, n) is None,
    ensures
        forall|i: int| 0 <= i < n ==> #[trigger] media_index_spec(items[i]) is Ok,
        forall|i: int| 0 <= i < n ==> ids.contains(#[trigger] items[i].aweme_id@),
        forall|i: int| 0 <= i < n ==> !item_keys(items).take(i).contains(#[trigger] items[i].media_key@),
    decreases n,
{
    if n > 0 {
        lemma_paged_items_ok(items, ids, n - 1);
    }
}

proof fn lemma_page_ids_ok(ids: Seq<Seq<char>>, n: int)
    requires
        0 <= n <= ids.len(),
        page_ids_violation(ids, n) is None,
    ensures
        forall|j: int| 0 <= j < n ==> !ids.take(j).contains(#[trigger] ids[j]),
    decreases n,
{
    if n > 0 {
        lemma_page_ids_ok(ids, n - 1);
    }
}

proof fn lemma_covered(items: Seq<MediaDownloadItemV1>, ids: Seq<Seq<char>>, n: int)
    requires
        0 <= n <= ids.len(),
        uncovered_page_id(items, ids, n) is None,
    ensures
        forall|j: int| 0 <= j < n ==> item_works(items).contains(#[trigger] ids[j]),
    decreases n,
{
    if n > 0 {
        lemma_covered(items, ids, n - 1);
    }
}

/// What a valid page guarantees: every item has a valid media index and
/// belongs to one of the page's works, no two items share a media key, no
/// work is listed twice, and every listed work has an item.
pub proof fn lemma_valid_paged_plan(p: PagedDownloadPlanV1, expected_mode: Seq<char>)
    requires
        paged_plan_violation(p, expected_mode) is None,
    ensures
        p.mode@ == expected_mode,
        p.has_more ==> p.next_cursor is Some && p.items@.len() > 0,
        forall|i: int| 0 <= i < p.items@.len() ==> #[trigger] media_index_spec(p.items@[i]) is Ok,
        forall|i: int| 0 <= i < p.items@.len() ==> views(p.page_aweme_ids@).contains(#[trigger] p.items@[i].aweme_id@),
        forall|i: int, j: int|
            0 <= i < j < p.items@.len() ==> p.items@[i].media_key@ != p.items@[j].media_key@,
        forall|i: int, j: int|
            0 <= i < j < p.page_aweme_ids@.len() ==> p.page_aweme_ids@[i]@ != p.page_aweme_ids@[j]@,
        forall|j: int|
            0 <= j < p.page_aweme_ids@.len() ==> item_works(p.items@).contains(#[trigger] p.page_aweme_ids@[j]@),
{
    let items = p.items@;
    let ids = views(p.page_aweme_ids@);
    lemma_paged_items_ok(items, ids, items.len() as int);
    lemma_page_ids_ok(ids, ids.len() as int);
    lemma_covered(items, ids, ids.len() as int);
    let keys = item_keys(items);
    assert forall|i: int| 0 <= i < items.len() implies !keys.take(i).contains(#[trigger] keys[i]) by {
        assert(keys[i] == items[i].media_key@);
    }
    lemma_keys_distinct(keys, items.len() as int);
    assert forall|i: int, j: int| 0 <= i < j < items.len() implies items[i].media_key@ != items[j].media_key@ by {
        assert(keys[i] == items[i].media_key@);
        assert(keys[j] == items[j].media_key@);
    }
    lemma_keys_distinct(ids, ids.len() as int);
    assert forall|i: int, j: int|
        0 <= i < j < p.page_aweme_ids@.len() implies p.page_aweme_ids@[i]@ != p.page_aweme_ids@[j]@ by {
        assert(ids[i] == p.page_aweme_ids@[i]@);
        assert(ids[j] == p.page_aweme_ids@[j]@);
    }
    assert forall|j: int| 0 <= j < p.page_aweme_ids@.len() implies item_works(items).contains(
        #[trigger] p.page_aweme_ids@[j]@,
    ) by {
        assert(ids[j] == p.page_aweme_ids@[j]@);
    }
}

/// The media index of an item whose key is `{aweme_id}:{kind}:{t}`, where
/// `t` reads as the number `n`: it is `n` exactly when the kind, index and
/// suffix agree (a video has index 0 and `.mp4`, a live photo index ≥ 1 and
/// `.mp4`, an image index ≥ 1 and `.webp`); otherwise the item breaks the
/// convention.
pub proof fn lemma_media_index_by_kind(item: MediaDownloadItemV1, t: Seq<char>, n: i64)
    requires
        item.media_key@ == media_prefix(item) + t,
        spec_parse_i64(t) == Some(n),
    ensures
        item.kind == MediaKindV1::Video ==> (media_index_spec(item) == Ok::<i64, Violation>(n) <==> (n == 0
            && item.output.suffix@ == ".mp4"@)),
        item.kind == MediaKindV1::LivePhoto ==> (media_index_spec(item) == Ok::<i64, Violation>(n) <==> (n >= 1
            && item.output.suffix@ == ".mp4"@)),
        item.kind == MediaKindV1::Image ==> (media_index_spec(item) == Ok::<i64, Violation>(n) <==> (n >= 1
            && item.output.suffix@ == ".webp"@)),
        media_index_spec(item) is Ok || media_index_spec(item) == Err::<i64, Violation>(
            Violation::ConventionMismatch(item.media_key@),
        ),
{
    let p = media_prefix(item);
    let key = item.media_key@;
    assert(key.subrange(0, p.len() as int) =~= p);
    assert(key.skip(p.len() as int) =~= t);
}

} // verus!
