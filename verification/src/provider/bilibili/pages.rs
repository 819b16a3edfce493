//! Live rooms, songs and articles.
use vstd::prelude::*;

use crate::config::CdnView;
use crate::json::{member, value_at, Json};
use crate::model::{
    bare_item, content_result, item_views, lemma_item_views_empty, lemma_item_views_push, new_item,
    no_stats, ContentKind, ErrorView, MediaItem, MediaItemView, MediaKind, ParsedContent,
    ParsedContentView, Platform, ProviderError, ProviderResult, Stats,
};
use crate::outside::{capture_group, regex_group};
use crate::provider::{get_str, get_u64, str_at, u64_at};
use crate::text::{
    cat2, cat3, first_of, first_text, opt_text, or_blank, or_empty, pair_texts, texts,
};

use super::cdn::ordered;
use super::video::{member_author, space_author, string_array, strings_in};
use super::{headers, media_headers, ApiCall, ApiCallView, BilibiliProvider};

verus! {

/// The number of a live room in an address.
pub const LIVE_LINK: &'static str = r"live\.bilibili\.com/(?:blanc/)?(\d+)";

/// The number of a song in an address.
pub const AUDIO_LINK: &'static str = r"/audio/au(\d+)";

/// The number of an article in an address.
pub const ARTICLE_LINK: &'static str = r"/read/(?:cv|mobile/|mobile\?id=)(\d+)";

/// The number that a pattern finds in an address, or the error that it finds none.
pub open spec fn number_in_page(pattern: Seq<char>, url: Seq<char>) -> Result<
    Seq<char>,
    ErrorView,
> {
    match regex_group(pattern, url, 1) {
        Some(id) => Ok(id),
        None => Err(ErrorView::InvalidUrl(url)),
    }
}

/// A text or an error, as plain values.
pub open spec fn text_result(r: ProviderResult<String>) -> Result<Seq<char>, ErrorView> {
    match r {
        Ok(s) => Ok(s@),
        Err(error) => Err(error@),
    }
}

fn page_number(pattern: &str, url: &str) -> (r: ProviderResult<String>)
    ensures
        text_result(r) == number_in_page(pattern@, url@),
{
    match capture_group(pattern, url, 1) {
        Some(id) => Ok(id),
        None => Err(ProviderError::InvalidUrl(url.to_owned())),
    }
}

/// The value, or that of nothing.
pub open spec fn or_null(value: Option<Json>) -> Json {
    match value {
        Some(v) => v,
        None => Json::Null,
    }
}

/// A picture that stands for a page.
pub open spec fn cover_item(
    url: Option<Seq<char>>,
    filename: Seq<char>,
    cache_key: Seq<char>,
    cookie: Option<Seq<char>>,
) -> Seq<MediaItemView> {
    match url {
        Some(u) => seq![
            MediaItemView {
                headers: media_headers(cookie),
                requires_download: false,
                ..bare_item(MediaKind::Photo, u, filename, cache_key)
            },
        ],
        None => Seq::empty(),
    }
}

fn cover_media(url: Option<String>, filename: String, cache_key: String, cookie: &Option<String>) -> (r:
    Vec<MediaItem>)
    ensures
        item_views(r@) == cover_item(opt_text(url), filename@, cache_key@, opt_text(*cookie)),
{
    broadcast use {lemma_item_views_push, lemma_item_views_empty};

    let mut media: Vec<MediaItem> = Vec::new();
    match url {
        Some(u) => {
            let mut m = new_item(MediaKind::Photo, u, filename, cache_key);
            m.headers = headers(cookie);
            m.requires_download = false;
            let ghost item = m@;
            media.push(m);
            assert(item_views(media@) =~= seq![item]);
        },
        None => {},
    }
    media
}

/// The content of a live room.
pub open spec fn live_content_of(id: Seq<char>, root: Json, cookie: Option<Seq<char>>) -> ParsedContentView {
    let room = or_null(value_at(root, "/data/room_info"@));
    let anchor = or_null(value_at(root, "/data/anchor_info/base_info"@));
    ParsedContentView {
        platform: Platform::Bilibili,
        kind: ContentKind::Live,
        id,
        canonical_url: "https://live.bilibili.com/"@ + id,
        author: space_author(
            u64_at(room, "/uid"@),
            str_at(anchor, "/uname"@),
            str_at(anchor, "/face"@),
        ),
        title: or_blank(str_at(room, "/title"@)),
        text: or_blank(str_at(room, "/description"@)),
        sensitive: false,
        stats: Stats { views: u64_at(room, "/online"@), ..no_stats() },
        media: cover_item(
            first_of(str_at(room, "/cover"@), str_at(room, "/keyframe"@)),
            "bilibili-live-"@ + id + ".jpg"@,
            "bilibili:live:"@ + id + ":cover"@,
            cookie,
        ),
        collection_items: Seq::empty(),
    }
}

/// The content of a song.
pub open spec fn audio_content_of(
    cdn: CdnView,
    url: Seq<char>,
    id: Seq<char>,
    root: Json,
    stream: Json,
    cookie: Option<Seq<char>>,
) -> Result<ParsedContentView, ErrorView> {
    let song = or_null(member(root, "data"@));
    let sources = strings_in(value_at(stream, "/data/cdns"@));
    if sources.len() == 0 {
        Err(ErrorView::Unavailable(url))
    } else {
        let urls = ordered(cdn, sources[0], sources.skip(1));
        Ok(
            ParsedContentView {
                platform: Platform::Bilibili,
                kind: ContentKind::Audio,
                id,
                canonical_url: "https://www.bilibili.com/audio/au"@ + id,
                author: space_author(u64_at(song, "/uid"@), str_at(song, "/uname"@), None),
                title: or_blank(str_at(song, "/title"@)),
                text: or_blank(str_at(song, "/intro"@)),
                sensitive: false,
                stats: Stats {
                    replies: u64_at(song, "/comment"@),
                    views: u64_at(song, "/passtime"@),
                    ..no_stats()
                },
                media: seq![
                    MediaItemView {
                        fallback_urls: urls.skip(1),
                        thumbnail_url: str_at(song, "/cover"@),
                        mime_type: Some("audio/mp4"@),
                        duration_secs: u64_at(song, "/duration"@),
                        size: u64_at(song, "/size"@),
                        headers: media_headers(cookie),
                        ..bare_item(
                            MediaKind::Audio,
                            urls[0],
                            "bilibili-au"@ + id + ".m4a"@,
                            "bilibili:audio:"@ + id,
                        )
                    },
                ],
                collection_items: Seq::empty(),
            },
        )
    }
}

/// The content of an article.
pub open spec fn article_content_of(id: Seq<char>, root: Json, cookie: Option<Seq<char>>) -> ParsedContentView {
    let data = or_null(member(root, "data"@));
    ParsedContentView {
        platform: Platform::Bilibili,
        kind: ContentKind::Article,
        id,
        canonical_url: "https://www.bilibili.com/read/cv"@ + id,
        author: space_author(
            u64_at(data, "/mid"@),
            str_at(data, "/author_name"@),
            str_at(data, "/origin_image_urls/0"@),
        ),
        title: or_blank(str_at(data, "/title"@)),
        text: or_blank(str_at(data, "/summary"@)),
        sensitive: false,
        stats: Stats {
            likes: u64_at(data, "/stats/like"@),
            replies: u64_at(data, "/stats/reply"@),
            views: u64_at(data, "/stats/view"@),
            ..no_stats()
        },
        media: cover_item(
            str_at(data, "/banner_url"@),
            "bilibili-cv"@ + id + ".jpg"@,
            "bilibili:article:"@ + id + ":cover"@,
            cookie,
        ),
        collection_items: Seq::empty(),
    }
}

/// The request about a live room.
pub open spec fn live_question(base: Seq<char>, id: Seq<char>) -> ApiCallView {
    ApiCallView {
        url: base + "/xlive/web-room/v1/index/getInfoByRoom"@,
        query: seq![("room_id"@, id)],
    }
}

/// The request about a piece of music.
pub open spec fn song_question(base: Seq<char>, id: Seq<char>) -> ApiCallView {
    ApiCallView {
        url: base + "/audio/music-service-c/web/song/info"@,
        query: seq![("sid"@, id)],
    }
}

/// The request for the file of a piece of music.
pub open spec fn sound_question(base: Seq<char>, id: Seq<char>) -> ApiCallView {
    ApiCallView {
        url: base + "/audio/music-service-c/web/url"@,
        query: seq![("sid"@, id), ("quality"@, "2"@), ("privilege"@, "2"@)],
    }
}

/// The request about an article.
pub open spec fn article_question(base: Seq<char>, id: Seq<char>) -> ApiCallView {
    ApiCallView {
        url: base + "/x/article/viewinfo"@,
        query: seq![("id"@, id), ("mobi_app"@, "pc"@), ("from"@, "web"@)],
    }
}

impl BilibiliProvider {
    /// The number of the live room at an address.
    pub fn live_id(&self, url: &str) -> (r: ProviderResult<String>)
        ensures
            text_result(r) == number_in_page(LIVE_LINK@, url@),
    {
        page_number(LIVE_LINK, url)
    }

    /// The request about a live room.
    pub fn live_call(&self, id: &str) -> (r: ApiCall)
        ensures
            r@ == live_question(self.live_api_base@, id@),
    {
        let mut query: Vec<(String, String)> = Vec::new();
        query.push(("room_id".to_owned(), id.to_owned()));
        assert(pair_texts(query@) =~= seq![("room_id"@, id@)]);
        ApiCall {
            url: cat2(self.live_api_base.as_str(), "/xlive/web-room/v1/index/getInfoByRoom"),
            query,
        }
    }

    /// The content of a live room from the reply about it.
    pub fn live_content(&self, id: &str, root: &Json, cookie: &Option<String>) -> (r: ParsedContent)
        ensures
            r@ == live_content_of(id@, *root, opt_text(*cookie)),
    {
        let none = Json::Null;
        let room = match root.pointer("/data/room_info") {
            Some(v) => v,
            None => &none,
        };
        let anchor = match root.pointer("/data/anchor_info/base_info") {
            Some(v) => v,
            None => &none,
        };
        let content = ParsedContent {
            platform: Platform::Bilibili,
            kind: ContentKind::Live,
            id: id.to_owned(),
            canonical_url: cat2("https://live.bilibili.com/", id),
            author: member_author(
                get_u64(room, "/uid"),
                get_str(anchor, "/uname"),
                get_str(anchor, "/face"),
            ),
            title: or_empty(get_str(room, "/title")),
            text: or_empty(get_str(room, "/description")),
            sensitive: false,
            stats: Stats {
                likes: None,
                reposts: None,
                replies: None,
                views: get_u64(room, "/online"),
            },
            media: cover_media(
                first_text(get_str(room, "/cover"), get_str(room, "/keyframe")),
                cat3("bilibili-live-", id, ".jpg"),
                cat3("bilibili:live:", id, ":cover"),
                cookie,
            ),
            collection_items: Vec::new(),
        };
        assert(content@.collection_items =~= Seq::<Seq<char>>::empty());
        content
    }

    /// The number of the song at an address.
    pub fn audio_id(&self, url: &str) -> (r: ProviderResult<String>)
        ensures
            text_result(r) == number_in_page(AUDIO_LINK@, url@),
    {
        page_number(AUDIO_LINK, url)
    }

    /// The request about a song.
    pub fn audio_call(&self, id: &str) -> (r: ApiCall)
        ensures
            r@ == song_question(self.www_base@, id@),
    {
        let mut query: Vec<(String, String)> = Vec::new();
        query.push(("sid".to_owned(), id.to_owned()));
        assert(pair_texts(query@) =~= seq![("sid"@, id@)]);
        ApiCall {
            url: cat2(self.www_base.as_str(), "/audio/music-service-c/web/song/info"),
            query,
        }
    }

    /// The request for the addresses of a song.
    pub fn audio_stream_call(&self, id: &str) -> (r: ApiCall)
        ensures
            r@ == sound_question(self.www_base@, id@),
    {
        let mut query: Vec<(String, String)> = Vec::new();
        query.push(("sid".to_owned(), id.to_owned()));
        query.push(("quality".to_owned(), "2".to_owned()));
        query.push(("privilege".to_owned(), "2".to_owned()));
        assert(pair_texts(query@) =~= seq![
            ("sid"@, id@),
            ("quality"@, "2"@),
            ("privilege"@, "2"@),
        ]);
        ApiCall { url: cat2(self.www_base.as_str(), "/audio/music-service-c/web/url"), query }
    }

    /// The content of a song from the replies about it.
    pub fn audio_content(
        &self,
        url: &str,
        id: &str,
        root: &Json,
        stream: &Json,
        cookie: &Option<String>,
    ) -> (r: ProviderResult<ParsedContent>)
        ensures
            content_result(r) == audio_content_of(
                self.cdn@,
                url@,
                id@,
                *root,
                *stream,
                opt_text(*cookie),
            ),
    {
        let none = Json::Null;
        let song = match root.get("data") {
            Some(v) => v,
            None => &none,
        };
        let mut sources = string_array(stream.pointer("/data/cdns"));
        let ghost all = texts(sources@);
        assert(all.len() == sources@.len());
        if sources.len() == 0 {
            return Err(ProviderError::Unavailable(url.to_owned()));
        }
        let first = sources.remove(0);
        assert(texts(sources@) =~= all.skip(1));
        assert(first@ == all[0]);
        let ghost urls = ordered(self.cdn@, all[0], all.skip(1));
        let (source, fallbacks) = self.order_media_urls(first, &sources);
        assert(urls == seq![source@] + texts(fallbacks@));
        assert(urls.skip(1) =~= texts(fallbacks@));
        let mut m = new_item(
            MediaKind::Audio,
            source,
            cat3("bilibili-au", id, ".m4a"),
            cat2("bilibili:audio:", id),
        );
        m.fallback_urls = fallbacks;
        m.thumbnail_url = get_str(song, "/cover");
        m.mime_type = Some("audio/mp4".to_owned());
        m.duration_secs = get_u64(song, "/duration");
        m.size = get_u64(song, "/size");
        m.headers = headers(cookie);
        let ghost item = m@;
        let mut media: Vec<MediaItem> = Vec::new();
        media.push(m);
        assert(item_views(media@) =~= seq![item]);
        let content = ParsedContent {
            platform: Platform::Bilibili,
            kind: ContentKind::Audio,
            id: id.to_owned(),
            canonical_url: cat2("https://www.bilibili.com/audio/au", id),
            author: member_author(get_u64(song, "/uid"), get_str(song, "/uname"), None),
            title: or_empty(get_str(song, "/title")),
            text: or_empty(get_str(song, "/intro")),
            sensitive: false,
            stats: Stats {
                likes: None,
                reposts: None,
                replies: get_u64(song, "/comment"),
                views: get_u64(song, "/passtime"),
            },
            media,
            collection_items: Vec::new(),
        };
        assert(content@.collection_items =~= Seq::<Seq<char>>::empty());
        Ok(content)
    }

    /// The number of the article at an address.
    pub fn article_id(&self, url: &str) -> (r: ProviderResult<String>)
        ensures
            text_result(r) == number_in_page(ARTICLE_LINK@, url@),
    {
        page_number(ARTICLE_LINK, url)
    }

    /// The request about an article.
    pub fn article_call(&self, id: &str) -> (r: ApiCall)
        ensures
            r@ == article_question(self.api_base@, id@),
    {
        let mut query: Vec<(String, String)> = Vec::new();
        query.push(("id".to_owned(), id.to_owned()));
        query.push(("mobi_app".to_owned(), "pc".to_owned()));
        query.push(("from".to_owned(), "web".to_owned()));
        assert(pair_texts(query@) =~= seq![
            ("id"@, id@),
            ("mobi_app"@, "pc"@),
            ("from"@, "web"@),
        ]);
        ApiCall { url: cat2(self.api_base.as_str(), "/x/article/viewinfo"), query }
    }

    /// The content of an article from the reply about it.
    pub fn article_content(&self, id: &str, root: &Json, cookie: &Option<String>) -> (r:
        ParsedContent)
        ensures
            r@ == article_content_of(id@, *root, opt_text(*cookie)),
    {
        let none = Json::Null;
        let data = match root.get("data") {
            Some(v) => v,
            None => &none,
        };
        let content = ParsedContent {
            platform: Platform::Bilibili,
            kind: ContentKind::Article,
            id: id.to_owned(),
            canonical_url: cat2("https://www.bilibili.com/read/cv", id),
            author: member_author(
                get_u64(data, "/mid"),
                get_str(data, "/author_name"),
                get_str(data, "/origin_image_urls/0"),
            ),
            title: or_empty(get_str(data, "/title")),
            text: or_empty(get_str(data, "/summary")),
            sensitive: false,
            stats: Stats {
                likes: get_u64(data, "/stats/like"),
                reposts: None,
                replies: get_u64(data, "/stats/reply"),
                views: get_u64(data, "/stats/view"),
            },
            media: cover_media(
                get_str(data, "/banner_url"),
                cat3("bilibili-cv", id, ".jpg"),
                cat3("bilibili:article:", id, ":cover"),
                cookie,
            ),
            collection_items: Vec::new(),
        };
        assert(content@.collection_items =~= Seq::<Seq<char>>::empty());
        content
    }
}

} // verus!
