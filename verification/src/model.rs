//! The shared model between the platform providers and the Telegram side.
use vstd::prelude::*;

use crate::text::{cat2, copy_opt, copy_pairs, copy_texts, opt_text, pair_texts, texts};

verus! {

/// A supported platform.
#[derive(Debug, Clone, Copy, PartialEq, Eq, Hash, Structural)]
pub enum Platform {
    X,
    YouTube,
    Pixiv,
    Bilibili,
    Netease,
}

/// The name of a platform as it is shown and stored.
pub open spec fn platform_name(platform: Platform) -> Seq<char> {
    match platform {
        Platform::X => "x"@,
        Platform::YouTube => "youtube"@,
        Platform::Pixiv => "pixiv"@,
        Platform::Bilibili => "bilibili"@,
        Platform::Netease => "netease"@,
    }
}

impl Platform {
    pub fn as_str(self) -> (r: &'static str)
        ensures
            r@ == platform_name(self),
    {
        match self {
            Platform::X => "x",
            Platform::YouTube => "youtube",
            Platform::Pixiv => "pixiv",
            Platform::Bilibili => "bilibili",
            Platform::Netease => "netease",
        }
    }
}

/// What a piece of content is.
#[derive(Debug, Clone, Copy, PartialEq, Eq, Structural)]
pub enum ContentKind {
    Post,
    Video,
    Artwork,
    Audio,
    Album,
    Playlist,
    Live,
    Article,
}

/// What a media item is.
#[derive(Debug, Clone, Copy, PartialEq, Eq, Structural)]
pub enum MediaKind {
    Photo,
    Video,
    Audio,
    Animation,
    Document,
}

/// The author of a piece of content.
#[derive(Debug, Clone)]
pub struct Author {
    pub id: String,
    pub name: String,
    pub url: Option<String>,
    pub avatar_url: Option<String>,
}

/// An author as plain characters.
#[verifier::ext_equal]
pub struct AuthorView {
    pub id: Seq<char>,
    pub name: Seq<char>,
    pub url: Option<Seq<char>>,
    pub avatar_url: Option<Seq<char>>,
}

impl View for Author {
    type V = AuthorView;

    open spec fn view(&self) -> AuthorView {
        AuthorView {
            id: self.id@,
            name: self.name@,
            url: opt_text(self.url),
            avatar_url: opt_text(self.avatar_url),
        }
    }
}

/// The author of which nothing is known.
pub open spec fn no_author() -> AuthorView {
    AuthorView { id: Seq::empty(), name: Seq::empty(), url: None, avatar_url: None }
}

impl Default for Author {
    fn default() -> (r: Author)
        ensures
            r@ == no_author(),
    {
        Author { id: String::new(), name: String::new(), url: None, avatar_url: None }
    }
}

/// One photo, video, audio track, animation or file of a piece of content.
///
/// `headers` holds the request headers in the order of their names.
#[derive(Debug, Clone)]
pub struct MediaItem {
    pub kind: MediaKind,
    pub source_url: String,
    pub fallback_urls: Vec<String>,
    pub thumbnail_url: Option<String>,
    pub filename: String,
    pub mime_type: Option<String>,
    pub duration_secs: Option<u64>,
    pub width: Option<u32>,
    pub height: Option<u32>,
    pub size: Option<u64>,
    pub headers: Vec<(String, String)>,
    pub cache_key: String,
    pub requires_download: bool,
    pub secondary_url: Option<String>,
    pub secondary_fallback_urls: Vec<String>,
}

/// A media item as plain characters and numbers.
#[verifier::ext_equal]
pub struct MediaItemView {
    pub kind: MediaKind,
    pub source_url: Seq<char>,
    pub fallback_urls: Seq<Seq<char>>,
    pub thumbnail_url: Option<Seq<char>>,
    pub filename: Seq<char>,
    pub mime_type: Option<Seq<char>>,
    pub duration_secs: Option<u64>,
    pub width: Option<u32>,
    pub height: Option<u32>,
    pub size: Option<u64>,
    pub headers: Seq<(Seq<char>, Seq<char>)>,
    pub cache_key: Seq<char>,
    pub requires_download: bool,
    pub secondary_url: Option<Seq<char>>,
    pub secondary_fallback_urls: Seq<Seq<char>>,
}

impl View for MediaItem {
    type V = MediaItemView;

    open spec fn view(&self) -> MediaItemView {
        MediaItemView {
            kind: self.kind,
            source_url: self.source_url@,
            fallback_urls: texts(self.fallback_urls@),
            thumbnail_url: opt_text(self.thumbnail_url),
            filename: self.filename@,
            mime_type: opt_text(self.mime_type),
            duration_secs: self.duration_secs,
            width: self.width,
            height: self.height,
            size: self.size,
            headers: pair_texts(self.headers@),
            cache_key: self.cache_key@,
            requires_download: self.requires_download,
            secondary_url: opt_text(self.secondary_url),
            secondary_fallback_urls: texts(self.secondary_fallback_urls@),
        }
    }
}

/// The media items of a list as plain values.
pub open spec fn item_views(items: Seq<MediaItem>) -> Seq<MediaItemView> {
    Seq::new(items.len(), |i: int| items[i]@)
}

/// The view of a list of items grows with the list.
pub broadcast proof fn lemma_item_views_push(items: Seq<MediaItem>, item: MediaItem)
    ensures
        #[trigger] item_views(items.push(item)) == item_views(items).push(item@),
{
    assert(item_views(items.push(item)) =~= item_views(items).push(item@));
}

/// The view of an empty list of items is empty.
pub broadcast proof fn lemma_item_views_empty()
    ensures
        #[trigger] item_views(Seq::<MediaItem>::empty()) == Seq::<MediaItemView>::empty(),
{
    assert(item_views(Seq::<MediaItem>::empty()) =~= Seq::<MediaItemView>::empty());
}

/// An item of which only the address, the file name and the key are known.
pub open spec fn bare_item(
    kind: MediaKind,
    source_url: Seq<char>,
    filename: Seq<char>,
    cache_key: Seq<char>,
) -> MediaItemView {
    MediaItemView {
        kind,
        source_url,
        fallback_urls: Seq::empty(),
        thumbnail_url: None,
        filename,
        mime_type: None,
        duration_secs: None,
        width: None,
        height: None,
        size: None,
        headers: Seq::empty(),
        cache_key,
        requires_download: true,
        secondary_url: None,
        secondary_fallback_urls: Seq::empty(),
    }
}

/// An item of which only the address, the file name and the key are known.
pub fn new_item(kind: MediaKind, source_url: String, filename: String, cache_key: String) -> (r:
    MediaItem)
    ensures
        r@ == bare_item(kind, source_url@, filename@, cache_key@),
        r.kind == kind,
        r.source_url@ == source_url@,
        r.fallback_urls@.len() == 0,
        r.headers@.len() == 0,
        r.secondary_fallback_urls@.len() == 0,
{
    let r = MediaItem {
        kind,
        source_url,
        fallback_urls: Vec::new(),
        thumbnail_url: None,
        filename,
        mime_type: None,
        duration_secs: None,
        width: None,
        height: None,
        size: None,
        headers: Vec::new(),
        cache_key,
        requires_download: true,
        secondary_url: None,
        secondary_fallback_urls: Vec::new(),
    };
    assert(texts(r.fallback_urls@) =~= Seq::<Seq<char>>::empty());
    assert(texts(r.secondary_fallback_urls@) =~= Seq::<Seq<char>>::empty());
    assert(pair_texts(r.headers@) =~= Seq::<(Seq<char>, Seq<char>)>::empty());
    r
}

/// A copy of a media item.
pub fn copy_item(item: &MediaItem) -> (r: MediaItem)
    ensures
        r@ == item@,
{
    MediaItem {
        kind: item.kind,
        source_url: item.source_url.clone(),
        fallback_urls: copy_texts(&item.fallback_urls),
        thumbnail_url: copy_opt(&item.thumbnail_url),
        filename: item.filename.clone(),
        mime_type: copy_opt(&item.mime_type),
        duration_secs: item.duration_secs,
        width: item.width,
        height: item.height,
        size: item.size,
        headers: copy_pairs(&item.headers),
        cache_key: item.cache_key.clone(),
        requires_download: item.requires_download,
        secondary_url: copy_opt(&item.secondary_url),
        secondary_fallback_urls: copy_texts(&item.secondary_fallback_urls),
    }
}

/// How often a piece of content was liked, shared, answered and seen.
#[derive(Debug, Clone, Copy, PartialEq, Eq, Structural)]
pub struct Stats {
    pub likes: Option<u64>,
    pub reposts: Option<u64>,
    pub replies: Option<u64>,
    pub views: Option<u64>,
}

/// The statistics of which nothing is known.
pub open spec fn no_stats() -> Stats {
    Stats { likes: None, reposts: None, replies: None, views: None }
}

impl Default for Stats {
    fn default() -> (r: Stats)
        ensures
            r == no_stats(),
    {
        Stats { likes: None, reposts: None, replies: None, views: None }
    }
}

/// A parsed post, video, artwork, track, list, live room or article.
///
/// `sensitive` says whether the platform marks the content as adult or sensitive.
#[derive(Debug, Clone)]
pub struct ParsedContent {
    pub platform: Platform,
    pub kind: ContentKind,
    pub id: String,
    pub canonical_url: String,
    pub author: Author,
    pub title: String,
    pub text: String,
    pub sensitive: bool,
    pub stats: Stats,
    pub media: Vec<MediaItem>,
    pub collection_items: Vec<String>,
}

/// Parsed content as plain characters and numbers.
#[verifier::ext_equal]
pub struct ParsedContentView {
    pub platform: Platform,
    pub kind: ContentKind,
    pub id: Seq<char>,
    pub canonical_url: Seq<char>,
    pub author: AuthorView,
    pub title: Seq<char>,
    pub text: Seq<char>,
    pub sensitive: bool,
    pub stats: Stats,
    pub media: Seq<MediaItemView>,
    pub collection_items: Seq<Seq<char>>,
}

impl View for ParsedContent {
    type V = ParsedContentView;

    open spec fn view(&self) -> ParsedContentView {
        ParsedContentView {
            platform: self.platform,
            kind: self.kind,
            id: self.id@,
            canonical_url: self.canonical_url@,
            author: self.author@,
            title: self.title@,
            text: self.text@,
            sensitive: self.sensitive,
            stats: self.stats,
            media: item_views(self.media@),
            collection_items: texts(self.collection_items@),
        }
    }
}

/// The video quality limit where a request names none: at most 480p.
pub const DEFAULT_VIDEO_QUALITY: u32 = 480;

/// The options of one request.
///
/// `page` counts from one and picks one page of content with several images.
/// `media_cache_key` names the media item that a reply to a sent message asks for.
#[derive(Debug, Clone)]
pub struct ParseOptions {
    pub quality: Option<u32>,
    pub file_mode: bool,
    pub cover_only: bool,
    pub force_spoiler: bool,
    pub page: Option<u32>,
    pub media_cache_key: Option<String>,
}

/// The options of one request as plain values.
#[verifier::ext_equal]
pub struct ParseOptionsView {
    pub quality: Option<u32>,
    pub file_mode: bool,
    pub cover_only: bool,
    pub force_spoiler: bool,
    pub page: Option<u32>,
    pub media_cache_key: Option<Seq<char>>,
}

impl View for ParseOptions {
    type V = ParseOptionsView;

    open spec fn view(&self) -> ParseOptionsView {
        ParseOptionsView {
            quality: self.quality,
            file_mode: self.file_mode,
            cover_only: self.cover_only,
            force_spoiler: self.force_spoiler,
            page: self.page,
            media_cache_key: opt_text(self.media_cache_key),
        }
    }
}

/// The options of a request that asks for nothing in particular.
pub open spec fn default_options() -> ParseOptionsView {
    ParseOptionsView {
        quality: None,
        file_mode: false,
        cover_only: false,
        force_spoiler: false,
        page: None,
        media_cache_key: None,
    }
}

impl Default for ParseOptions {
    fn default() -> (r: ParseOptions)
        ensures
            r@ == default_options(),
    {
        ParseOptions {
            quality: None,
            file_mode: false,
            cover_only: false,
            force_spoiler: false,
            page: None,
            media_cache_key: None,
        }
    }
}

/// The quality limit that a request asks for, or the default one.
pub open spec fn quality_limit(quality: Option<u32>) -> u32 {
    match quality {
        Some(q) => q,
        None => DEFAULT_VIDEO_QUALITY,
    }
}

impl ParseOptions {
    pub fn quality_or_default(&self) -> (r: u32)
        ensures
            r == quality_limit(self.quality),
    {
        match self.quality {
            Some(q) => q,
            None => DEFAULT_VIDEO_QUALITY,
        }
    }
}

/// A link and what is asked of it.
#[derive(Debug, Clone)]
pub struct ParseRequest {
    pub url: String,
    pub options: ParseOptions,
}

/// A link and what is asked of it, as plain values.
#[verifier::ext_equal]
pub struct RequestView {
    pub url: Seq<char>,
    pub options: ParseOptionsView,
}

impl View for ParseRequest {
    type V = RequestView;

    open spec fn view(&self) -> RequestView {
        RequestView { url: self.url@, options: self.options@ }
    }
}

/// The requests of a list as plain values.
pub open spec fn request_views(requests: Seq<ParseRequest>) -> Seq<RequestView> {
    Seq::new(requests.len(), |i: int| requests[i]@)
}

/// A copy of the options of a request.
pub fn copy_options(options: &ParseOptions) -> (r: ParseOptions)
    ensures
        r@ == options@,
{
    ParseOptions {
        quality: options.quality,
        file_mode: options.file_mode,
        cover_only: options.cover_only,
        force_spoiler: options.force_spoiler,
        page: options.page,
        media_cache_key: copy_opt(&options.media_cache_key),
    }
}

/// Why a link could not be parsed.
#[derive(Debug, Clone)]
pub enum ProviderError {
    Unsupported(String),
    InvalidUrl(String),
    Unavailable(String),
    Authentication(String),
    RateLimited(String),
    Upstream(String),
    InvalidResponse(String),
    Media(String),
}

pub type ProviderResult<T> = Result<T, ProviderError>;

/// An error with its text as plain characters.
#[verifier::ext_equal]
pub enum ErrorView {
    Unsupported(Seq<char>),
    InvalidUrl(Seq<char>),
    Unavailable(Seq<char>),
    Authentication(Seq<char>),
    RateLimited(Seq<char>),
    Upstream(Seq<char>),
    InvalidResponse(Seq<char>),
    Media(Seq<char>),
}

impl View for ProviderError {
    type V = ErrorView;

    open spec fn view(&self) -> ErrorView {
        match self {
            ProviderError::Unsupported(s) => ErrorView::Unsupported(s@),
            ProviderError::InvalidUrl(s) => ErrorView::InvalidUrl(s@),
            ProviderError::Unavailable(s) => ErrorView::Unavailable(s@),
            ProviderError::Authentication(s) => ErrorView::Authentication(s@),
            ProviderError::RateLimited(s) => ErrorView::RateLimited(s@),
            ProviderError::Upstream(s) => ErrorView::Upstream(s@),
            ProviderError::InvalidResponse(s) => ErrorView::InvalidResponse(s@),
            ProviderError::Media(s) => ErrorView::Media(s@),
        }
    }
}

/// The message of an error.
pub open spec fn provider_message(error: ErrorView) -> Seq<char> {
    match error {
        ErrorView::Unsupported(s) => "不支持的链接: "@ + s,
        ErrorView::InvalidUrl(s) => "链接格式不正确: "@ + s,
        ErrorView::Unavailable(s) => "内容不存在、已删除或不可公开访问: "@ + s,
        ErrorView::Authentication(s) => "需要登录凭证: "@ + s,
        ErrorView::RateLimited(s) => "上游请求受限，请稍后重试: "@ + s,
        ErrorView::Upstream(s) => "上游服务错误: "@ + s,
        ErrorView::InvalidResponse(s) => "响应解析错误: "@ + s,
        ErrorView::Media(s) => "媒体处理错误: "@ + s,
    }
}

impl ProviderError {
    pub fn message(&self) -> (r: String)
        ensures
            r@ == provider_message(self@),
    {
        match self {
            ProviderError::Unsupported(s) => cat2("不支持的链接: ", s.as_str()),
            ProviderError::InvalidUrl(s) => cat2("链接格式不正确: ", s.as_str()),
            ProviderError::Unavailable(s) => cat2(
                "内容不存在、已删除或不可公开访问: ",
                s.as_str(),
            ),
            ProviderError::Authentication(s) => cat2("需要登录凭证: ", s.as_str()),
            ProviderError::RateLimited(s) => cat2("上游请求受限，请稍后重试: ", s.as_str()),
            ProviderError::Upstream(s) => cat2("上游服务错误: ", s.as_str()),
            ProviderError::InvalidResponse(s) => cat2("响应解析错误: ", s.as_str()),
            ProviderError::Media(s) => cat2("媒体处理错误: ", s.as_str()),
        }
    }
}

/// Parsed content or an error, as plain values.
pub open spec fn content_result(r: ProviderResult<ParsedContent>) -> Result<
    ParsedContentView,
    ErrorView,
> {
    match r {
        Ok(content) => Ok(content@),
        Err(error) => Err(error@),
    }
}

} // verus!
