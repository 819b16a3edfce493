//! Videos on YouTube, described by the Data API, by the downloader, or by oEmbed.
use vstd::prelude::*;

use crate::config::Config;
use crate::json::{json_document, parse_json, value_at, Json};
use crate::model::{
    bare_item, content_result, item_views, new_item, quality_limit, Author, AuthorView,
    ContentKind, ErrorView, MediaItem, MediaItemView, MediaKind, ParseRequest, ParsedContent,
    ParsedContentView, Platform, ProviderError, ProviderResult, Stats, DEFAULT_VIDEO_QUALITY,
};
use crate::outside::{capture_group, is_match, regex_found, regex_group};
use crate::text::{
    cat2, cat3, cat5, copy_opt, decimal, first_number, first_of, first_text, law_decimal_read_back,
    number_text, opt_text, or_blank, or_empty, trim, trimmed,
};

use super::{
    document_result, get_str, get_u64, host_of_link, in_domain, json_response, lies_in, link_host,
    low_u32, reply_document, str_at, to_u32, u64_at, HttpReply, PlatformProvider, Provider,
};

verus! {

/// The links of videos; the group is the name of the video.
pub const YOUTUBE_LINK: &'static str =
    r"(?i)(?:youtu\.be/|youtube(?:-nocookie)?\.com/(?:watch\?(?:[^\s#]*&)?v=|shorts/|live/|embed/))([A-Za-z0-9_-]{11})";

/// Whether a host belongs to YouTube.
pub open spec fn youtube_host(host: Seq<char>) -> bool {
    in_domain(host, "youtu.be"@) || in_domain(host, "youtube.com"@) || in_domain(
        host,
        "youtube-nocookie.com"@,
    )
}

pub fn is_youtube_host(host: &str) -> (r: bool)
    ensures
        r == youtube_host(host@),
{
    lies_in(host, "youtu.be") || lies_in(host, "youtube.com") || lies_in(
        host,
        "youtube-nocookie.com",
    )
}

/// Whether a link is one of a video on YouTube: it has the form of one, and its host belongs to
/// the platform.
pub open spec fn youtube_handles(url: Seq<char>) -> bool {
    regex_found(YOUTUBE_LINK@, url) && youtube_host(link_host(url))
}

/// The name of the video that a link names.
pub open spec fn youtube_id(url: Seq<char>) -> Option<Seq<char>> {
    regex_group(YOUTUBE_LINK@, url, 1)
}

#[derive(Debug)]
pub struct YouTubeProvider {
    pub api_key: Option<String>,
}

/// The video in the reply of the Data API.
pub open spec fn api_item(api: Option<Json>) -> Json {
    match api {
        Some(root) => match value_at(root, "/items/0"@) {
            Some(item) => item,
            None => Json::Null,
        },
        None => Json::Null,
    }
}

/// Whether neither the Data API nor the downloader describes the video.
pub open spec fn needs_oembed(api: Option<Json>, ytdlp: Option<Json>) -> bool {
    api_item(api) is Null && ytdlp is None
}

/// What has been read of a video.
#[derive(Debug)]
pub struct YouTubeGathered {
    pub api: Option<Json>,
    /// The downloader was asked.
    pub asked_tool: bool,
    pub tool: Option<Json>,
    pub oembed: Option<Json>,
}

/// What is read next of a video.
#[derive(Debug, Clone, Copy, PartialEq, Eq, Structural)]
pub enum YouTubeNext {
    Api,
    Tool,
    OEmbed,
    /// Nothing more.
    Build,
}

/// What is read next of a video: the Data API where there is a key, then what the downloader
/// says, and oEmbed only where neither describes the video.
pub open spec fn youtube_next(has_key: bool, g: YouTubeGathered) -> YouTubeNext {
    if has_key && g.api is None {
        YouTubeNext::Api
    } else if !g.asked_tool {
        YouTubeNext::Tool
    } else if needs_oembed(g.api, g.tool) && g.oembed is None {
        YouTubeNext::OEmbed
    } else {
        YouTubeNext::Build
    }
}

/// What is known after the downloader was asked; it is done without where it fails.
pub open spec fn with_tool(g: YouTubeGathered, answer: ProviderResult<Json>) -> YouTubeGathered {
    YouTubeGathered {
        asked_tool: true,
        tool: match answer {
            Ok(document) => Some(document),
            Err(_) => None,
        },
        ..g
    }
}

/// The first description of a video.
pub open spec fn youtube_data(api: Option<Json>, ytdlp: Option<Json>, oembed: Option<Json>) -> Json {
    if needs_oembed(api, ytdlp) {
        match oembed {
            Some(o) => o,
            None => Json::Null,
        }
    } else {
        api_item(api)
    }
}

/// The description of the downloader.
pub open spec fn ytdlp_data(ytdlp: Option<Json>) -> Json {
    match ytdlp {
        Some(y) => y,
        None => Json::Null,
    }
}

/// The page of a video.
pub open spec fn watch_page(id: Seq<char>) -> Seq<char> {
    "https://www.youtube.com/watch?v="@ + id
}

/// The video as a medium: it is fetched from its page. Its key names the quality limit, so that
/// with another default limit the files of requests that name none are fetched anew.
pub open spec fn youtube_item(id: Seq<char>, quality: Option<u32>, data: Json, y: Json) -> MediaItemView {
    MediaItemView {
        thumbnail_url: first_of(
            first_of(
                first_of(
                    str_at(data, "/snippet/thumbnails/maxres/url"@),
                    str_at(data, "/snippet/thumbnails/high/url"@),
                ),
                str_at(y, "/thumbnail"@),
            ),
            str_at(data, "/thumbnail_url"@),
        ),
        mime_type: Some("video/mp4"@),
        duration_secs: u64_at(y, "/duration"@),
        width: low_u32(u64_at(y, "/width"@)),
        height: low_u32(u64_at(y, "/height"@)),
        size: u64_at(y, "/filesize_approx"@),
        ..bare_item(
            MediaKind::Video,
            watch_page(id),
            "youtube-"@ + id + ".mp4"@,
            "youtube:"@ + id + ":"@ + decimal(quality_limit(quality) as nat) + "p"@,
        )
    }
}

/// The keys of a video in two qualities are the same only where the quality limits are: a video
/// that was sent in one quality never stands for another.
pub proof fn law_key_tells_qualities_apart(
    id: Seq<char>,
    first: Option<u32>,
    second: Option<u32>,
    data: Json,
    y: Json,
)
    ensures
        youtube_item(id, first, data, y).cache_key == youtube_item(id, second, data, y).cache_key
            <==> quality_limit(first) == quality_limit(second),
{
    let a = decimal(quality_limit(first) as nat);
    let b = decimal(quality_limit(second) as nat);
    let start = "youtube:"@ + id + ":"@;
    let end = "p"@;
    if start + a + end == start + b + end {
        assert(a =~= (start + a + end).subrange(
            start.len() as int,
            (start + a + end).len() - end.len(),
        ));
        assert(b =~= (start + b + end).subrange(
            start.len() as int,
            (start + b + end).len() - end.len(),
        ));
        law_decimal_read_back(quality_limit(first) as nat, u32::MAX as nat);
        law_decimal_read_back(quality_limit(second) as nat, u32::MAX as nat);
    }
}

/// The content of a video.
pub open spec fn youtube_content_of(
    id: Seq<char>,
    quality: Option<u32>,
    data: Json,
    y: Json,
) -> ParsedContentView {
    ParsedContentView {
        platform: Platform::YouTube,
        kind: ContentKind::Video,
        id,
        canonical_url: watch_page(id),
        author: AuthorView {
            id: or_blank(str_at(y, "/channel_id"@)),
            name: or_blank(
                first_of(
                    first_of(str_at(data, "/snippet/channelTitle"@), str_at(y, "/channel"@)),
                    str_at(data, "/author_name"@),
                ),
            ),
            url: str_at(y, "/channel_url"@),
            avatar_url: None,
        },
        title: or_blank(
            first_of(
                first_of(str_at(data, "/snippet/title"@), str_at(y, "/title"@)),
                str_at(data, "/title"@),
            ),
        ),
        text: or_blank(
            first_of(str_at(data, "/snippet/description"@), str_at(y, "/description"@)),
        ),
        sensitive: false,
        stats: Stats {
            likes: first_of(u64_at(data, "/statistics/likeCount"@), u64_at(y, "/like_count"@)),
            reposts: None,
            replies: first_of(
                u64_at(data, "/statistics/commentCount"@),
                u64_at(y, "/comment_count"@),
            ),
            views: first_of(u64_at(data, "/statistics/viewCount"@), u64_at(y, "/view_count"@)),
        },
        media: seq![youtube_item(id, quality, data, y)],
        collection_items: Seq::empty(),
    }
}

fn item_in(id: &str, quality: Option<u32>, data: &Json, y: &Json) -> (r: MediaItem)
    ensures
        r@ == youtube_item(id@, quality, *data, *y),
{
    let q: u32 = match quality {
        Some(q) => q,
        None => DEFAULT_VIDEO_QUALITY,
    };
    let number = number_text(q as u64);
    let mut m = new_item(
        MediaKind::Video,
        cat2("https://www.youtube.com/watch?v=", id),
        cat3("youtube-", id, ".mp4"),
        cat5("youtube:", id, ":", number.as_str(), "p"),
    );
    m.thumbnail_url = first_text(
        first_text(
            first_text(
                get_str(data, "/snippet/thumbnails/maxres/url"),
                get_str(data, "/snippet/thumbnails/high/url"),
            ),
            get_str(y, "/thumbnail"),
        ),
        get_str(data, "/thumbnail_url"),
    );
    m.mime_type = Some("video/mp4".to_owned());
    m.duration_secs = get_u64(y, "/duration");
    m.width = to_u32(get_u64(y, "/width"));
    m.height = to_u32(get_u64(y, "/height"));
    m.size = get_u64(y, "/filesize_approx");
    m
}

/// The content of a video from the documents that describe it.
pub fn youtube_content(id: &str, quality: Option<u32>, data: &Json, y: &Json) -> (r: ParsedContent)
    ensures
        r@ == youtube_content_of(id@, quality, *data, *y),
{
    let mut media: Vec<MediaItem> = Vec::new();
    media.push(item_in(id, quality, data, y));
    assert(item_views(media@) =~= seq![youtube_item(id@, quality, *data, *y)]);
    let content = ParsedContent {
        platform: Platform::YouTube,
        kind: ContentKind::Video,
        id: id.to_owned(),
        canonical_url: cat2("https://www.youtube.com/watch?v=", id),
        author: Author {
            id: or_empty(get_str(y, "/channel_id")),
            name: or_empty(
                first_text(
                    first_text(get_str(data, "/snippet/channelTitle"), get_str(y, "/channel")),
                    get_str(data, "/author_name"),
                ),
            ),
            url: get_str(y, "/channel_url"),
            avatar_url: None,
        },
        title: or_empty(
            first_text(
                first_text(get_str(data, "/snippet/title"), get_str(y, "/title")),
                get_str(data, "/title"),
            ),
        ),
        text: or_empty(
            first_text(get_str(data, "/snippet/description"), get_str(y, "/description")),
        ),
        sensitive: false,
        stats: Stats {
            likes: first_number(
                get_u64(data, "/statistics/likeCount"),
                get_u64(y, "/like_count"),
            ),
            reposts: None,
            replies: first_number(
                get_u64(data, "/statistics/commentCount"),
                get_u64(y, "/comment_count"),
            ),
            views: first_number(
                get_u64(data, "/statistics/viewCount"),
                get_u64(y, "/view_count"),
            ),
        },
        media,
        collection_items: Vec::new(),
    };
    assert(content@.collection_items =~= Seq::<Seq<char>>::empty());
    content
}

/// Whether a provider is set up by the settings.
pub open spec fn youtube_by_config(provider: YouTubeProvider, config: Config) -> bool {
    opt_text(provider.api_key) == opt_text(config.youtube_api_key)
}

impl YouTubeProvider {
    pub fn new(config: &Config) -> (r: YouTubeProvider)
        ensures
            youtube_by_config(r, *config),
    {
        YouTubeProvider { api_key: copy_opt(&config.youtube_api_key) }
    }

    /// The name of the video that a link names.
    pub fn id(&self, url: &str) -> (r: Option<String>)
        ensures
            opt_text(r) == youtube_id(url@),
    {
        capture_group(YOUTUBE_LINK, url, 1)
    }

    /// The name of the video, or the error that the link names none.
    pub fn video(&self, url: &str) -> (r: ProviderResult<String>)
        ensures
            match r {
                Ok(id) => youtube_id(url@) == Some(id@),
                Err(error) => youtube_id(url@) is None && error@ == ErrorView::InvalidUrl(url@),
            },
    {
        match self.id(url) {
            Some(id) => Ok(id),
            None => Err(ProviderError::InvalidUrl(url.to_owned())),
        }
    }

    /// The page of a video.
    pub fn canonical(&self, id: &str) -> (r: String)
        ensures
            r@ == watch_page(id@),
    {
        cat2("https://www.youtube.com/watch?v=", id)
    }

    /// The document in the reply of the Data API.
    pub fn api_document(&self, reply: &HttpReply) -> (r: ProviderResult<Json>)
        ensures
            document_result(r) == reply_document(*reply, "YouTube Data API"@),
    {
        json_response(reply, "YouTube Data API")
    }

    /// The document in the reply of oEmbed.
    pub fn oembed_document(&self, reply: &HttpReply) -> (r: ProviderResult<Json>)
        ensures
            document_result(r) == reply_document(*reply, "YouTube oEmbed"@),
    {
        json_response(reply, "YouTube oEmbed")
    }

    /// The document that the downloader wrote, or what it complained of.
    pub fn yt_dlp_json(&self, success: bool, stdout: &str, stderr: &str) -> (r: ProviderResult<
        Json,
    >)
        ensures
            document_result(r) == (if !success {
                Err(ErrorView::Media(trimmed(stderr@)))
            } else {
                match json_document(stdout@) {
                    Ok(document) => Ok(document),
                    Err(message) => Err(ErrorView::InvalidResponse("yt-dlp JSON: "@ + message)),
                }
            }),
    {
        if !success {
            return Err(ProviderError::Media(trim(stderr)));
        }
        match parse_json(stdout) {
            Ok(document) => Ok(document),
            Err(message) => Err(
                ProviderError::InvalidResponse(cat2("yt-dlp JSON: ", message.as_str())),
            ),
        }
    }

    /// Whether oEmbed is asked, as neither the Data API nor the downloader describes the video.
    pub fn asks_oembed(&self, api: &Option<Json>, ytdlp: &Option<Json>) -> (r: bool)
        ensures
            r == needs_oembed(*api, *ytdlp),
    {
        let none = match api {
            Some(root) => match root.pointer("/items/0") {
                Some(Json::Null) => true,
                Some(_) => false,
                None => true,
            },
            None => true,
        };
        none && ytdlp.is_none()
    }

    /// What is read next of a video.
    pub fn next(&self, g: &YouTubeGathered) -> (r: YouTubeNext)
        ensures
            r == youtube_next(self.api_key is Some, *g),
    {
        if self.api_key.is_some() && g.api.is_none() {
            YouTubeNext::Api
        } else if !g.asked_tool {
            YouTubeNext::Tool
        } else if self.asks_oembed(&g.api, &g.tool) && g.oembed.is_none() {
            YouTubeNext::OEmbed
        } else {
            YouTubeNext::Build
        }
    }

    /// Keeps what the downloader says.
    pub fn keep_tool(&self, g: YouTubeGathered, answer: ProviderResult<Json>) -> (r:
        YouTubeGathered)
        ensures
            r == with_tool(g, answer),
    {
        let tool = match answer {
            Ok(document) => Some(document),
            Err(_) => None,
        };
        YouTubeGathered { asked_tool: true, tool, ..g }
    }

    /// The content of a video from what has been read of it.
    pub fn parse(
        &self,
        request: &ParseRequest,
        api: &Option<Json>,
        ytdlp: &Option<Json>,
        oembed: &Option<Json>,
    ) -> (r: ProviderResult<ParsedContent>)
        ensures
            content_result(r) == (match youtube_id(request.url@) {
                None => Err(ErrorView::InvalidUrl(request.url@)),
                Some(id) => Ok(
                    youtube_content_of(
                        id,
                        request.options.quality,
                        youtube_data(*api, *ytdlp, *oembed),
                        ytdlp_data(*ytdlp),
                    ),
                ),
            }),
    {
        let none = Json::Null;
        let id = match self.id(request.url.as_str()) {
            Some(id) => id,
            None => {
                return Err(ProviderError::InvalidUrl(request.url.clone()));
            },
        };
        let data: &Json = if self.asks_oembed(api, ytdlp) {
            match oembed {
                Some(o) => o,
                None => &none,
            }
        } else {
            match api {
                Some(root) => match root.pointer("/items/0") {
                    Some(item) => item,
                    None => &none,
                },
                None => &none,
            }
        };
        let y: &Json = match ytdlp {
            Some(y) => y,
            None => &none,
        };
        Ok(youtube_content(id.as_str(), request.options.quality, data, y))
    }
}

impl Provider for YouTubeProvider {
    open spec fn platform_of(&self) -> Platform {
        Platform::YouTube
    }

    open spec fn entry(&self) -> PlatformProvider {
        PlatformProvider::YouTube(*self)
    }

    fn platform(&self) -> (r: Platform) {
        Platform::YouTube
    }

    fn can_handle(&self, url: &str) -> (r: bool) {
        is_match(YOUTUBE_LINK, url) && is_youtube_host(host_of_link(url).as_str())
    }

    fn into_provider(self) -> (r: PlatformProvider) {
        PlatformProvider::YouTube(self)
    }
}

} // verus!
