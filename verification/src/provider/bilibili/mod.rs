//! Videos, episodes, posts, live rooms, songs and articles on Bilibili.
pub mod cdn;
pub mod cookies;
pub mod dynamic;
pub mod pages;
pub mod read_back;
pub mod reading;
pub mod video;

use vstd::prelude::*;

use crate::config::{BilibiliCdnPreference, Config};
use crate::json::{member, signed_value, Json};
use crate::media::{upload_limit, LOCAL_MAX_SIZE, PUBLIC_MAX_SIZE};
use crate::model::{ErrorView, Platform, ProviderError, ProviderResult};
use crate::outside::{
    capture_group, is_match, parse_url, regex_found, regex_group, url_parts,
};
use crate::text::{
    all_digits, ascii_digit, cat2, chars_of, ends_with, has_suffix, is_ascii_digit, lower, lowered,
    opt_text, or_empty, pair_texts, same, texts, trim, trim_end_char, trim_end_of, trimmed,
};

use super::netease::{find_query, query_value};
use super::{
    document_result, get_str, json_response, reply_document, small_host, str_at, to_address,
    web_address, HttpReply, PlatformProvider, Provider,
};

verus! {

/// The name of a video anywhere in a text.
pub const BVID: &'static str = r"(?i)(BV[0-9A-Za-z]{10})";

/// The name of a video standing alone.
pub const BARE_BVID: &'static str = r"(?i)^BV[0-9A-Za-z]{10}(?:\?|$)";

/// The number of a video standing alone.
pub const BARE_AV: &'static str = r"(?i)^av(\d{2,})(?:\?|$)";

/// The number of a video as a part of a path.
pub const AV_PATH: &'static str = r"(?i)^av\d+$";

/// An episode or a season as a part of a path.
pub const EP_PATH: &'static str = r"(?i)^(?:ep|ss)\d+$";

/// A song as a part of a path.
pub const AUDIO_PATH: &'static str = r"(?i)^au\d+$";

/// An article as a part of a path.
pub const ARTICLE_PATH: &'static str = r"(?i)^(?:cv\d+|mobile)$";

/// The parts of a post that are asked for.
pub const OPUS_FEATURES: &'static str =
    "itemOpusStyle,opusBigCover,onlyfansVote,endFooterHidden,decorationCard,onlyfansAssetsV2,ugcDelete,onlyfansQaCard,commentsNewVersion";

/// Whether a host belongs to Bilibili.
pub open spec fn bilibili_host(host: Seq<char>) -> bool {
    host == "bilibili.com"@ || has_suffix(host, ".bilibili.com"@) || host == "b23.tv"@
}

pub fn is_bilibili_host(host: &str) -> (r: bool)
    ensures
        r == bilibili_host(host@),
{
    same(host, "bilibili.com") || ends_with(host, ".bilibili.com") || same(host, "b23.tv")
}

/// Whether a text is the name or the number of a video standing alone.
pub open spec fn bare_video(raw: Seq<char>) -> bool {
    regex_found(BARE_BVID@, trimmed(raw)) || regex_found(BARE_AV@, trimmed(raw))
}

/// Whether a link is one of Bilibili: the name or number of a video standing alone, or a URL on
/// one of its hosts.
pub open spec fn bilibili_handles(raw: Seq<char>) -> bool {
    bare_video(raw) || match url_parts(web_address(raw)) {
        Some(parts) => parts.host is Some && bilibili_host(small_host(parts)),
        None => false,
    }
}

/// What a link leads to.
#[derive(Debug)]
pub enum Resolved {
    Address(String),
    /// A short link, which is opened to find out where it leads.
    Follow(String),
    Failed(ProviderError),
}

/// What a link leads to, as plain characters.
pub enum ResolvedView {
    Address(Seq<char>),
    Follow(Seq<char>),
    Failed(ErrorView),
}

impl View for Resolved {
    type V = ResolvedView;

    open spec fn view(&self) -> ResolvedView {
        match self {
            Resolved::Address(url) => ResolvedView::Address(url@),
            Resolved::Follow(url) => ResolvedView::Follow(url@),
            Resolved::Failed(error) => ResolvedView::Failed(error@),
        }
    }
}

/// What a link leads to: the page of a video that is named alone, the address itself, or what
/// a short link leads to.
pub open spec fn resolution(raw: Seq<char>) -> ResolvedView {
    let t = trimmed(raw);
    if regex_group(BARE_BVID@, t, 0) is Some {
        ResolvedView::Address(
            "https://www.bilibili.com/video/"@ + regex_group(BARE_BVID@, t, 0)->0,
        )
    } else if regex_group(BARE_AV@, t, 1) is Some {
        ResolvedView::Address("https://www.bilibili.com/video/av"@ + regex_group(BARE_AV@, t, 1)->0)
    } else {
        match url_parts(web_address(raw)) {
            None => ResolvedView::Failed(ErrorView::InvalidUrl(raw)),
            Some(parts) => if small_host(parts) == "b23.tv"@ {
                ResolvedView::Follow(web_address(raw))
            } else if bilibili_host(small_host(parts)) {
                ResolvedView::Address(parts.text)
            } else {
                ResolvedView::Failed(ErrorView::InvalidUrl(raw))
            },
        }
    }
}

/// What a short link leads to has to be a page of Bilibili.
pub open spec fn followed(raw: Seq<char>, reached: Seq<char>) -> Result<Seq<char>, ErrorView> {
    match url_parts(reached) {
        Some(parts) => if bilibili_host(small_host(parts)) && small_host(parts) != "b23.tv"@ {
            Ok(parts.text)
        } else {
            Err(ErrorView::InvalidUrl(raw))
        },
        None => Err(ErrorView::InvalidUrl(raw)),
    }
}

/// What a page shows, with its name or number.
#[derive(Debug)]
pub enum BilibiliTarget {
    Video(String),
    Bangumi(String),
    Dynamic(String),
    Live(String),
    Audio(String),
    Article(String),
}

/// What a page shows, as plain characters.
#[verifier::ext_equal]
pub enum TargetView {
    Video(Seq<char>),
    Bangumi(Seq<char>),
    Dynamic(Seq<char>),
    Live(Seq<char>),
    Audio(Seq<char>),
    Article(Seq<char>),
}

impl View for BilibiliTarget {
    type V = TargetView;

    open spec fn view(&self) -> TargetView {
        match self {
            BilibiliTarget::Video(s) => TargetView::Video(s@),
            BilibiliTarget::Bangumi(s) => TargetView::Bangumi(s@),
            BilibiliTarget::Dynamic(s) => TargetView::Dynamic(s@),
            BilibiliTarget::Live(s) => TargetView::Live(s@),
            BilibiliTarget::Audio(s) => TargetView::Audio(s@),
            BilibiliTarget::Article(s) => TargetView::Article(s@),
        }
    }
}

/// A page or an error, as plain values.
pub open spec fn target_result(r: ProviderResult<BilibiliTarget>) -> Result<
    TargetView,
    ErrorView,
> {
    match r {
        Ok(t) => Ok(t@),
        Err(error) => Err(error@),
    }
}

/// The first segment, from number `i` on, that holds nothing but digits.
pub open spec fn first_number_segment(segments: Seq<Seq<char>>, i: int) -> Option<Seq<char>>
    decreases segments.len() - i,
{
    if i < 0 || i >= segments.len() {
        None
    } else if all_digits(segments[i]) {
        Some(segments[i])
    } else {
        first_number_segment(segments, i + 1)
    }
}

/// What segment number `i` and the one behind it name; none where they name nothing.
pub open spec fn segment_target(
    url: Seq<char>,
    segments: Seq<Seq<char>>,
    query: Seq<(Seq<char>, Seq<char>)>,
    i: int,
) -> Option<Result<TargetView, ErrorView>> {
    if i + 1 >= segments.len() {
        None
    } else {
        let word = lowered(segments[i]);
        let next = segments[i + 1];
        if (word == "opus"@ || word == "dynamic"@) && all_digits(next) {
            Some(Ok(TargetView::Dynamic(next)))
        } else if word == "video"@ && (regex_found(BVID@, next) || regex_found(AV_PATH@, next)) {
            Some(Ok(TargetView::Video(next)))
        } else if word == "play"@ && regex_found(EP_PATH@, next) {
            Some(Ok(TargetView::Bangumi(next)))
        } else if word == "audio"@ && regex_found(AUDIO_PATH@, next) {
            Some(Ok(TargetView::Audio(next)))
        } else if word == "read"@ && next == "mobile"@ {
            if i + 2 < segments.len() && all_digits(segments[i + 2]) {
                Some(Ok(TargetView::Article("mobile/"@ + segments[i + 2])))
            } else {
                match query_value(query, "id"@, 0) {
                    Some(id) => Some(Ok(TargetView::Article("mobile?id="@ + id))),
                    None => Some(Err(ErrorView::InvalidUrl(url))),
                }
            }
        } else if word == "read"@ && regex_found(ARTICLE_PATH@, next) {
            Some(Ok(TargetView::Article(next)))
        } else {
            None
        }
    }
}

/// What the first segments that name something, from number `i` on, name.
pub open spec fn path_target(
    url: Seq<char>,
    segments: Seq<Seq<char>>,
    query: Seq<(Seq<char>, Seq<char>)>,
    i: int,
) -> Result<TargetView, ErrorView>
    decreases segments.len() - i,
{
    if i < 0 || i >= segments.len() {
        Err(ErrorView::Unsupported(url))
    } else {
        match segment_target(url, segments, query, i) {
            Some(r) => r,
            None => path_target(url, segments, query, i + 1),
        }
    }
}

/// What a page shows.
pub open spec fn target_of(url: Seq<char>) -> Result<TargetView, ErrorView> {
    match url_parts(url) {
        None => Err(ErrorView::InvalidUrl(url)),
        Some(parts) => {
            let segments = match parts.segments {
                Some(s) => s,
                None => Seq::empty(),
            };
            if small_host(parts) == "live.bilibili.com"@ {
                match first_number_segment(segments, 0) {
                    Some(room) => Ok(TargetView::Live(room)),
                    None => Err(ErrorView::InvalidUrl(url)),
                }
            } else if small_host(parts) == "t.bilibili.com"@ {
                if segments.len() > 0 && all_digits(segments[0]) {
                    Ok(TargetView::Dynamic(segments[0]))
                } else {
                    Err(ErrorView::InvalidUrl(url))
                }
            } else {
                path_target(url, segments, parts.query, 0)
            }
        },
    }
}

proof fn lemma_path_dynamic(
    a: Seq<char>,
    b: Seq<char>,
    segments: Seq<Seq<char>>,
    p: Seq<(Seq<char>, Seq<char>)>,
    q: Seq<(Seq<char>, Seq<char>)>,
    i: int,
    id: Seq<char>,
)
    requires
        path_target(a, segments, p, i) == Ok::<TargetView, ErrorView>(TargetView::Dynamic(id)),
    ensures
        path_target(b, segments, q, i) == Ok::<TargetView, ErrorView>(TargetView::Dynamic(id)),
    decreases segments.len() - i,
{
    if 0 <= i < segments.len() && segment_target(a, segments, p, i) is None {
        lemma_path_dynamic(a, b, segments, p, q, i + 1, id);
    }
}

/// The query of a link does not matter for a post: links with the same host and path lead to the
/// same post.
pub proof fn law_query_is_ignored(a: Seq<char>, b: Seq<char>, id: Seq<char>)
    requires
        url_parts(a) is Some,
        url_parts(b) is Some,
        url_parts(a)->0.host == url_parts(b)->0.host,
        url_parts(a)->0.segments == url_parts(b)->0.segments,
    ensures
        target_of(a) == Ok::<TargetView, ErrorView>(TargetView::Dynamic(id)) <==> target_of(b)
            == Ok::<TargetView, ErrorView>(TargetView::Dynamic(id)),
{
    let x = url_parts(a)->0;
    let y = url_parts(b)->0;
    let segments = match x.segments {
        Some(s) => s,
        None => Seq::empty(),
    };
    if path_target(a, segments, x.query, 0) == Ok::<TargetView, ErrorView>(TargetView::Dynamic(id)) {
        lemma_path_dynamic(a, b, segments, x.query, y.query, 0, id);
    }
    if path_target(b, segments, y.query, 0) == Ok::<TargetView, ErrorView>(TargetView::Dynamic(id)) {
        lemma_path_dynamic(b, a, segments, y.query, x.query, 0, id);
    }
}

fn digits(s: &str) -> (r: bool)
    ensures
        r == all_digits(s@),
{
    let chars = chars_of(s);
    let mut i: usize = 0;
    while i < chars.len()
        invariant
            i <= chars@.len(),
            chars@ == s@,
            forall|j: int| 0 <= j < i ==> is_ascii_digit(#[trigger] chars@[j]),
        decreases chars.len() - i,
    {
        if !ascii_digit(chars[i]) {
            return false;
        }
        i += 1;
    }
    true
}

fn segment_in(url: &str, segments: &Vec<String>, query: &Vec<(String, String)>, i: usize) -> (r:
    Option<ProviderResult<BilibiliTarget>>)
    requires
        i < segments@.len(),
    ensures
        (match r {
            Some(t) => Some(target_result(t)),
            None => None,
        }) == segment_target(url@, texts(segments@), pair_texts(query@), i as int),
{
    let ghost all = texts(segments@);
    let total: usize = segments.len();
    if i >= total - 1 {
        return None;
    }
    assert(all[i as int] == segments@[i as int]@);
    assert(all[i + 1] == segments@[i + 1]@);
    let word = lower(segments[i].as_str());
    let word = word.as_str();
    let next = segments[i + 1].as_str();
    if (same(word, "opus") || same(word, "dynamic")) && digits(next) {
        Some(Ok(BilibiliTarget::Dynamic(next.to_owned())))
    } else if same(word, "video") && (is_match(BVID, next) || is_match(AV_PATH, next)) {
        Some(Ok(BilibiliTarget::Video(next.to_owned())))
    } else if same(word, "play") && is_match(EP_PATH, next) {
        Some(Ok(BilibiliTarget::Bangumi(next.to_owned())))
    } else if same(word, "audio") && is_match(AUDIO_PATH, next) {
        Some(Ok(BilibiliTarget::Audio(next.to_owned())))
    } else if same(word, "read") && same(next, "mobile") {
        if i < total - 2 {
            assert(all[i + 2] == segments@[i + 2]@);
            if digits(segments[i + 2].as_str()) {
                return Some(
                    Ok(BilibiliTarget::Article(cat2("mobile/", segments[i + 2].as_str()))),
                );
            }
        }
        match find_query(query, "id") {
            Some(id) => Some(Ok(BilibiliTarget::Article(cat2("mobile?id=", id.as_str())))),
            None => Some(Err(ProviderError::InvalidUrl(url.to_owned()))),
        }
    } else if same(word, "read") && is_match(ARTICLE_PATH, next) {
        Some(Ok(BilibiliTarget::Article(next.to_owned())))
    } else {
        None
    }
}

/// The address of a page from what it shows.
pub open spec fn page_address(t: TargetView) -> Seq<char> {
    match t {
        TargetView::Video(s) => "https://www.bilibili.com/video/"@ + s,
        TargetView::Bangumi(s) => "https://www.bilibili.com/bangumi/play/"@ + s,
        TargetView::Dynamic(s) => "https://www.bilibili.com/opus/"@ + s,
        TargetView::Live(s) => "https://live.bilibili.com/"@ + s,
        TargetView::Audio(s) => "https://www.bilibili.com/audio/"@ + s,
        TargetView::Article(s) => "https://www.bilibili.com/read/"@ + s,
    }
}

impl BilibiliTarget {
    /// The address of the page.
    pub fn address(&self) -> (r: String)
        ensures
            r@ == page_address(self@),
    {
        match self {
            BilibiliTarget::Video(s) => cat2("https://www.bilibili.com/video/", s.as_str()),
            BilibiliTarget::Bangumi(s) => cat2(
                "https://www.bilibili.com/bangumi/play/",
                s.as_str(),
            ),
            BilibiliTarget::Dynamic(s) => cat2("https://www.bilibili.com/opus/", s.as_str()),
            BilibiliTarget::Live(s) => cat2("https://live.bilibili.com/", s.as_str()),
            BilibiliTarget::Audio(s) => cat2("https://www.bilibili.com/audio/", s.as_str()),
            BilibiliTarget::Article(s) => cat2("https://www.bilibili.com/read/", s.as_str()),
        }
    }
}

/// What follows a reply of the API.
#[derive(Debug)]
pub enum ApiReply {
    Document(Json),
    /// The device cookies are fetched anew, and the request made once more.
    RefreshDevice,
    Failed(ProviderError),
}

/// What follows a reply of the API, as plain values.
pub enum ApiReplyView {
    Document(Json),
    RefreshDevice,
    Failed(ErrorView),
}

impl View for ApiReply {
    type V = ApiReplyView;

    open spec fn view(&self) -> ApiReplyView {
        match self {
            ApiReply::Document(document) => ApiReplyView::Document(*document),
            ApiReply::RefreshDevice => ApiReplyView::RefreshDevice,
            ApiReply::Failed(error) => ApiReplyView::Failed(error@),
        }
    }
}

/// The code of a reply; zero where it has none.
pub open spec fn reply_code(value: Json) -> i64 {
    match signed_value(member(value, "code"@)) {
        Some(code) => code,
        None => 0,
    }
}

/// The error that the code of a reply means.
pub open spec fn code_error(value: Json) -> ErrorView {
    let code = reply_code(value);
    let message = "Bilibili: "@ + (match str_at(value, "/message"@) {
        Some(m) => m,
        None => "未知错误"@,
    });
    if code == -101 {
        ErrorView::Authentication(message)
    } else if code == -352 || code == 412 {
        ErrorView::RateLimited(message)
    } else if code == 404 || code == 4101139 {
        ErrorView::Unavailable(message)
    } else {
        ErrorView::Upstream(message)
    }
}

/// What follows a document of the API, where `refreshed` says whether the device cookies were
/// fetched anew for this request already: only the first refusal leads to that.
pub open spec fn after_document(value: Json, refreshed: bool) -> ApiReplyView {
    if reply_code(value) == 0 {
        ApiReplyView::Document(value)
    } else if reply_code(value) == -352 && !refreshed {
        ApiReplyView::RefreshDevice
    } else {
        ApiReplyView::Failed(code_error(value))
    }
}

/// What follows a reply of the API.
pub open spec fn after_reply(document: Result<Json, ErrorView>, refreshed: bool) -> ApiReplyView {
    match document {
        Ok(value) => after_document(value, refreshed),
        Err(error) => ApiReplyView::Failed(error),
    }
}

/// A request is made at most twice: after the device cookies were fetched anew, whatever the
/// reply, it is final. A second refusal means that the requests are limited.
pub proof fn law_one_retry(document: Result<Json, ErrorView>)
    ensures
        !(after_reply(document, true) is RefreshDevice),
        after_reply(document, false) is RefreshDevice <==> document is Ok && reply_code(
            document->Ok_0,
        ) == -352,
        document is Ok && reply_code(document->Ok_0) == -352 ==> after_reply(document, true)
            == ApiReplyView::Failed(
            ErrorView::RateLimited(
                "Bilibili: "@ + (match str_at(document->Ok_0, "/message"@) {
                    Some(m) => m,
                    None => "未知错误"@,
                }),
            ),
        ),
{
}

/// Decides what follows a document of the API.
pub fn check_document(value: Json, refreshed: bool) -> (r: ApiReply)
    ensures
        r@ == after_document(value, refreshed),
{
    let code: i64 = match value.get("code") {
        Some(v) => match v.as_i64() {
            Some(code) => code,
            None => 0,
        },
        None => 0,
    };
    if code == 0 {
        return ApiReply::Document(value);
    }
    if code == -352 && !refreshed {
        return ApiReply::RefreshDevice;
    }
    let message = match get_str(&value, "/message") {
        Some(m) => cat2("Bilibili: ", m.as_str()),
        None => cat2("Bilibili: ", "未知错误"),
    };
    ApiReply::Failed(
        if code == -101 {
            ProviderError::Authentication(message)
        } else if code == -352 || code == 412 {
            ProviderError::RateLimited(message)
        } else if code == 404 || code == 4101139 {
            ProviderError::Unavailable(message)
        } else {
            ProviderError::Upstream(message)
        },
    )
}

/// The headers with which files are fetched, in the order of their names.
pub open spec fn media_headers(cookie: Option<Seq<char>>) -> Seq<(Seq<char>, Seq<char>)> {
    match cookie {
        Some(c) => seq![("Cookie"@, c), ("Referer"@, "https://www.bilibili.com/"@)],
        None => seq![("Referer"@, "https://www.bilibili.com/"@)],
    }
}

pub fn headers(cookie: &Option<String>) -> (r: Vec<(String, String)>)
    ensures
        pair_texts(r@) == media_headers(opt_text(*cookie)),
{
    let mut out: Vec<(String, String)> = Vec::new();
    match cookie {
        Some(c) => {
            out.push(("Cookie".to_owned(), c.clone()));
        },
        None => {},
    }
    out.push(("Referer".to_owned(), "https://www.bilibili.com/".to_owned()));
    assert(pair_texts(out@) =~= media_headers(opt_text(*cookie)));
    out
}

/// The headers of a browser, with which the API is asked.
pub open spec fn browser_headers(cookie: Option<Seq<char>>) -> Seq<(Seq<char>, Seq<char>)> {
    let plain = seq![
        (
            "User-Agent"@,
            "Mozilla/5.0 (Windows NT 10.0; Win64; x64) AppleWebKit/537.36 (KHTML, like Gecko) Chrome/126.0.0.0 Safari/537.36"@,
        ),
        ("Accept"@, "application/json, text/plain, */*"@),
        ("Origin"@, "https://www.bilibili.com"@),
        ("Referer"@, "https://www.bilibili.com/"@),
    ];
    match cookie {
        Some(c) => plain.push(("Cookie"@, c)),
        None => plain,
    }
}

pub fn api_headers(cookie: &Option<String>) -> (r: Vec<(String, String)>)
    ensures
        pair_texts(r@) == browser_headers(opt_text(*cookie)),
{
    let mut out: Vec<(String, String)> = Vec::new();
    out.push(
        (
            "User-Agent".to_owned(),
            "Mozilla/5.0 (Windows NT 10.0; Win64; x64) AppleWebKit/537.36 (KHTML, like Gecko) Chrome/126.0.0.0 Safari/537.36".to_owned(),
        ),
    );
    out.push(("Accept".to_owned(), "application/json, text/plain, */*".to_owned()));
    out.push(("Origin".to_owned(), "https://www.bilibili.com".to_owned()));
    out.push(("Referer".to_owned(), "https://www.bilibili.com/".to_owned()));
    match cookie {
        Some(c) => {
            out.push(("Cookie".to_owned(), c.clone()));
        },
        None => {},
    }
    assert(pair_texts(out@) =~= browser_headers(opt_text(*cookie)));
    out
}

/// A request to the API: the address, and the parameters of the query.
#[derive(Debug)]
pub struct ApiCall {
    pub url: String,
    pub query: Vec<(String, String)>,
}

/// A request as plain characters.
#[verifier::ext_equal]
pub struct ApiCallView {
    pub url: Seq<char>,
    pub query: Seq<(Seq<char>, Seq<char>)>,
}

impl View for ApiCall {
    type V = ApiCallView;

    open spec fn view(&self) -> ApiCallView {
        ApiCallView { url: self.url@, query: pair_texts(self.query@) }
    }
}

#[derive(Debug)]
pub struct BilibiliProvider {
    pub api_base: String,
    pub live_api_base: String,
    pub www_base: String,
    pub max_media_size: u64,
    pub cdn: BilibiliCdnPreference,
}

/// Whether a provider is set up by the settings.
pub open spec fn bilibili_by_config(provider: BilibiliProvider, config: Config) -> bool {
    &&& provider.api_base@ == trim_end_of(config.bilibili_api_base@, '/')
    &&& provider.live_api_base@ == trim_end_of(config.bilibili_live_api_base@, '/')
    &&& provider.www_base@ == trim_end_of(config.bilibili_www_base@, '/')
    &&& provider.max_media_size == upload_limit(config.local_bot_api)
    &&& provider.cdn@ == config.bilibili_cdn@
}

impl BilibiliProvider {
    pub fn new(config: &Config) -> (r: BilibiliProvider)
        ensures
            bilibili_by_config(r, *config),
    {
        BilibiliProvider {
            api_base: trim_end_char(config.bilibili_api_base.as_str(), '/'),
            live_api_base: trim_end_char(config.bilibili_live_api_base.as_str(), '/'),
            www_base: trim_end_char(config.bilibili_www_base.as_str(), '/'),
            max_media_size: if config.local_bot_api {
                LOCAL_MAX_SIZE
            } else {
                PUBLIC_MAX_SIZE
            },
            cdn: config.bilibili_cdn,
        }
    }

    /// Finds out what a link leads to, as far as that can be seen from the link.
    pub fn resolve(&self, raw: &str) -> (r: Resolved)
        ensures
            r@ == resolution(raw@),
    {
        let t = trim(raw);
        match capture_group(BARE_BVID, t.as_str(), 0) {
            Some(name) => {
                return Resolved::Address(cat2("https://www.bilibili.com/video/", name.as_str()));
            },
            None => {},
        }
        match capture_group(BARE_AV, t.as_str(), 1) {
            Some(number) => {
                return Resolved::Address(
                    cat2("https://www.bilibili.com/video/av", number.as_str()),
                );
            },
            None => {},
        }
        let url = to_address(raw);
        match parse_url(url.as_str()) {
            None => Resolved::Failed(ProviderError::InvalidUrl(raw.to_owned())),
            Some(parts) => {
                let host = lower(or_empty(parts.host).as_str());
                if same(host.as_str(), "b23.tv") {
                    Resolved::Follow(url)
                } else if is_bilibili_host(host.as_str()) {
                    Resolved::Address(parts.text)
                } else {
                    Resolved::Failed(ProviderError::InvalidUrl(raw.to_owned()))
                }
            },
        }
    }

    /// Checks what a short link led to.
    pub fn follow(&self, raw: &str, reached: &str) -> (r: ProviderResult<String>)
        ensures
            (match r {
                Ok(url) => Ok(url@),
                Err(error) => Err(error@),
            }) == followed(raw@, reached@),
    {
        match parse_url(reached) {
            Some(parts) => {
                let host = lower(or_empty(parts.host).as_str());
                if is_bilibili_host(host.as_str()) && !same(host.as_str(), "b23.tv") {
                    Ok(parts.text)
                } else {
                    Err(ProviderError::InvalidUrl(raw.to_owned()))
                }
            },
            None => Err(ProviderError::InvalidUrl(raw.to_owned())),
        }
    }

    /// Finds out what a page shows.
    pub fn target(&self, url: &str) -> (r: ProviderResult<BilibiliTarget>)
        ensures
            target_result(r) == target_of(url@),
    {
        let parts = match parse_url(url) {
            Some(parts) => parts,
            None => {
                return Err(ProviderError::InvalidUrl(url.to_owned()));
            },
        };
        let ghost view = parts@;
        let host = lower(or_empty(parts.host).as_str());
        let query = parts.query;
        let segments = match parts.segments {
            Some(s) => s,
            None => Vec::new(),
        };
        let ghost all = texts(segments@);
        assert(all =~= (match view.segments {
            Some(s) => s,
            None => Seq::empty(),
        }));
        if same(host.as_str(), "live.bilibili.com") {
            let mut i: usize = 0;
            while i < segments.len()
                invariant
                    i <= segments@.len(),
                    all == texts(segments@),
                    first_number_segment(all, 0) == first_number_segment(all, i as int),
                    target_of(url@) == (match first_number_segment(all, 0) {
                        Some(room) => Ok::<TargetView, ErrorView>(TargetView::Live(room)),
                        None => Err(ErrorView::InvalidUrl(url@)),
                    }),
                decreases segments.len() - i,
            {
                assert(all[i as int] == segments@[i as int]@);
                if digits(segments[i].as_str()) {
                    return Ok(BilibiliTarget::Live(segments[i].clone()));
                }
                i += 1;
            }
            return Err(ProviderError::InvalidUrl(url.to_owned()));
        }
        if same(host.as_str(), "t.bilibili.com") {
            if segments.len() > 0 {
                assert(all[0] == segments@[0]@);
                if digits(segments[0].as_str()) {
                    return Ok(BilibiliTarget::Dynamic(segments[0].clone()));
                }
            }
            return Err(ProviderError::InvalidUrl(url.to_owned()));
        }
        let ghost pairs = pair_texts(query@);
        let mut i: usize = 0;
        while i < segments.len()
            invariant
                i <= segments@.len(),
                all == texts(segments@),
                pairs == pair_texts(query@),
                target_of(url@) == path_target(url@, all, pairs, i as int),
            decreases segments.len() - i,
        {
            match segment_in(url, &segments, &query, i) {
                Some(r) => {
                    return r;
                },
                None => {},
            }
            i += 1;
        }
        Err(ProviderError::Unsupported(url.to_owned()))
    }

    /// Decides what follows a reply of the API.
    pub fn response(&self, reply: &HttpReply, refreshed: bool) -> (r: ApiReply)
        ensures
            r@ == after_reply(reply_document(*reply, "Bilibili API"@), refreshed),
    {
        match json_response(reply, "Bilibili API") {
            Ok(value) => check_document(value, refreshed),
            Err(error) => ApiReply::Failed(error),
        }
    }

    /// The document in the reply of the device server.
    pub fn device_document(&self, reply: &HttpReply) -> (r: ProviderResult<Json>)
        ensures
            document_result(r) == reply_document(*reply, "Bilibili device API"@),
    {
        json_response(reply, "Bilibili device API")
    }

    /// The address of the device server.
    pub fn device_endpoint(&self) -> (r: String)
        ensures
            r@ == self.api_base@ + "/x/frontend/finger/spi"@,
    {
        cat2(self.api_base.as_str(), "/x/frontend/finger/spi")
    }
}

impl Provider for BilibiliProvider {
    open spec fn platform_of(&self) -> Platform {
        Platform::Bilibili
    }

    open spec fn entry(&self) -> PlatformProvider {
        PlatformProvider::Bilibili(*self)
    }

    fn platform(&self) -> (r: Platform) {
        Platform::Bilibili
    }

    fn can_handle(&self, raw: &str) -> (r: bool) {
        let t = trim(raw);
        if is_match(BARE_BVID, t.as_str()) || is_match(BARE_AV, t.as_str()) {
            return true;
        }
        match parse_url(to_address(raw).as_str()) {
            Some(parts) => match parts.host {
                Some(host) => is_bilibili_host(lower(host.as_str()).as_str()),
                None => false,
            },
            None => false,
        }
    }

    fn into_provider(self) -> (r: PlatformProvider) {
        PlatformProvider::Bilibili(self)
    }
}

} // verus!
