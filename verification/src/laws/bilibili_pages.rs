//! Links to Bilibili, and the pages behind them.
use vstd::prelude::*;

use crate::config::{CdnView, Config};
use crate::json::{member, signed_value, value_at, Json};
use crate::model::{AuthorView, ContentKind, ErrorView, MediaKind, Platform};
use crate::outside::{regex_found, regex_group, url_parts};
use crate::provider::bilibili::cdn::{law_all_addresses_tried, ordered};
use crate::provider::bilibili::dynamic::{
    embedded_target_of, is_opus, opus_of, opus_question, source_id_of,
};
use crate::provider::bilibili::pages::{
    article_content_of, article_question, audio_content_of, live_content_of, live_question,
    song_question, sound_question, ARTICLE_LINK, AUDIO_LINK, LIVE_LINK,
};
use crate::provider::bilibili::reading::{
    page_after, page_start, post_after, post_content, PageStateView, PageStepView, PostStateView,
    PostStepView, ReadPostView,
};
use crate::provider::bilibili::video::{
    play_call, question_call, question_for, season_video_of, strings_in, video_content_of,
    video_id_of, QuestionView,
};
use crate::provider::bilibili::{
    after_reply, bilibili_by_config, bilibili_host, browser_headers, first_number_segment,
    followed, media_headers, page_address, path_target, reply_code, resolution, segment_target,
    target_of, ApiReplyView, BilibiliProvider, ResolvedView, TargetView, ARTICLE_PATH, AUDIO_PATH,
    AV_PATH, BARE_AV, BARE_BVID, BVID, EP_PATH,
};
use crate::provider::netease::query_value;
use crate::provider::{small_host, str_at, u64_at, web_address};
use crate::text::{all_digits, decimal, has_suffix, lowered, or_blank, trim_end_of, trimmed};

verus! {

/// Whether an author is the member with a number, a name and a picture.
pub open spec fn is_member(
    author: AuthorView,
    number: Option<u64>,
    name: Option<Seq<char>>,
    picture: Option<Seq<char>>,
) -> bool {
    &&& author.name == or_blank(name)
    &&& author.avatar_url == picture
    &&& number is Some ==> author.id == decimal(number->0 as nat) && author.url == Some(
        "https://space.bilibili.com/"@ + decimal(number->0 as nat),
    )
    &&& number is None ==> author.id.len() == 0 && author.url is None
}

/// What is shown of a live room: its owner, its title and description, how many watch, and its
/// cover, or else a picture of what is shown.
pub proof fn law_live_room(
    id: Seq<char>,
    root: Json,
    room: Json,
    owner: Json,
    cookie: Option<Seq<char>>,
)
    requires
        value_at(root, "/data/room_info"@) == Some(room),
        value_at(root, "/data/anchor_info/base_info"@) == Some(owner),
    ensures
        ({
            let c = live_content_of(id, root, cookie);
            let cover = if str_at(room, "/cover"@) is Some {
                str_at(room, "/cover"@)
            } else {
                str_at(room, "/keyframe"@)
            };
            &&& c.platform == Platform::Bilibili && c.kind == ContentKind::Live
            &&& c.id == id
            &&& c.canonical_url == "https://live.bilibili.com/"@ + id
            &&& is_member(
                c.author,
                u64_at(room, "/uid"@),
                str_at(owner, "/uname"@),
                str_at(owner, "/face"@),
            )
            &&& c.title == or_blank(str_at(room, "/title"@))
            &&& c.text == or_blank(str_at(room, "/description"@))
            &&& c.stats.views == u64_at(room, "/online"@)
            &&& c.stats.likes is None && c.stats.reposts is None && c.stats.replies is None
            &&& !c.sensitive && c.collection_items.len() == 0
            &&& cover is None ==> c.media.len() == 0
            &&& cover is Some ==> c.media.len() == 1 && c.media[0].source_url == cover->0
                && c.media[0].kind == MediaKind::Photo && !c.media[0].requires_download
                && c.media[0].filename == "bilibili-live-"@ + id + ".jpg"@ && c.media[0].cache_key
                == "bilibili:live:"@ + id + ":cover"@ && c.media[0].headers == media_headers(cookie)
        }),
{
}

/// What is shown of an article.
pub proof fn law_article(id: Seq<char>, root: Json, data: Json, cookie: Option<Seq<char>>)
    requires
        member(root, "data"@) == Some(data),
    ensures
        ({
            let c = article_content_of(id, root, cookie);
            let banner = str_at(data, "/banner_url"@);
            &&& c.platform == Platform::Bilibili && c.kind == ContentKind::Article
            &&& c.id == id
            &&& c.canonical_url == "https://www.bilibili.com/read/cv"@ + id
            &&& is_member(
                c.author,
                u64_at(data, "/mid"@),
                str_at(data, "/author_name"@),
                str_at(data, "/origin_image_urls/0"@),
            )
            &&& c.title == or_blank(str_at(data, "/title"@))
            &&& c.text == or_blank(str_at(data, "/summary"@))
            &&& c.stats.likes == u64_at(data, "/stats/like"@)
            &&& c.stats.replies == u64_at(data, "/stats/reply"@)
            &&& c.stats.views == u64_at(data, "/stats/view"@)
            &&& c.stats.reposts is None
            &&& !c.sensitive && c.collection_items.len() == 0
            &&& banner is None ==> c.media.len() == 0
            &&& banner is Some ==> c.media.len() == 1 && c.media[0].source_url == banner->0
                && c.media[0].kind == MediaKind::Photo && !c.media[0].requires_download
                && c.media[0].filename == "bilibili-cv"@ + id + ".jpg"@ && c.media[0].cache_key
                == "bilibili:article:"@ + id + ":cover"@ && c.media[0].headers == media_headers(
                cookie,
            )
        }),
{
}

/// What is shown of a piece of music: its file, fetched from any of the addresses that the
/// server gave. Without an address it cannot be had.
pub proof fn law_piece_of_music(
    cdn: CdnView,
    url: Seq<char>,
    id: Seq<char>,
    root: Json,
    song: Json,
    stream: Json,
    cookie: Option<Seq<char>>,
)
    requires
        member(root, "data"@) == Some(song),
    ensures
        ({
            let content = audio_content_of(cdn, url, id, root, stream, cookie);
            let addresses = strings_in(value_at(stream, "/data/cdns"@));
            let c = content->Ok_0;
            let item = c.media[0];
            &&& addresses.len() == 0 ==> content == Err::<
                crate::model::ParsedContentView,
                ErrorView,
            >(ErrorView::Unavailable(url))
            &&& addresses.len() > 0 ==> {
                &&& content is Ok
                &&& c.platform == Platform::Bilibili && c.kind == ContentKind::Audio
                &&& c.id == id
                &&& c.canonical_url == "https://www.bilibili.com/audio/au"@ + id
                &&& is_member(c.author, u64_at(song, "/uid"@), str_at(song, "/uname"@), None)
                &&& c.title == or_blank(str_at(song, "/title"@))
                &&& c.text == or_blank(str_at(song, "/intro"@))
                &&& c.stats.replies == u64_at(song, "/comment"@)
                &&& c.stats.views == u64_at(song, "/passtime"@)
                &&& c.stats.likes is None && c.stats.reposts is None
                &&& !c.sensitive && c.collection_items.len() == 0
                &&& c.media.len() == 1
                &&& item.kind == MediaKind::Audio && item.requires_download
                &&& seq![item.source_url] + item.fallback_urls == ordered(
                    cdn,
                    addresses[0],
                    addresses.skip(1),
                )
                &&& item.thumbnail_url == str_at(song, "/cover"@)
                &&& item.mime_type == Some("audio/mp4"@)
                &&& item.duration_secs == u64_at(song, "/duration"@)
                &&& item.size == u64_at(song, "/size"@)
                &&& item.width is None && item.height is None
                &&& item.filename == "bilibili-au"@ + id + ".m4a"@
                &&& item.cache_key == "bilibili:audio:"@ + id
                &&& item.headers == media_headers(cookie)
                &&& item.secondary_url is None
            }
        }),
{
    let addresses = strings_in(value_at(stream, "/data/cdns"@));
    if addresses.len() > 0 {
        let urls = ordered(cdn, addresses[0], addresses.skip(1));
        law_all_addresses_tried(cdn, addresses[0], addresses.skip(1));
        assert(seq![urls[0]] + urls.skip(1) =~= urls);
    }
}

/// What the API is asked about a room, a piece of music and an article.
pub proof fn law_pages_are_asked(base: Seq<char>, id: Seq<char>)
    ensures
        live_question(base, id).url == base + "/xlive/web-room/v1/index/getInfoByRoom"@,
        live_question(base, id).query == seq![("room_id"@, id)],
        song_question(base, id).url == base + "/audio/music-service-c/web/song/info"@,
        song_question(base, id).query == seq![("sid"@, id)],
        sound_question(base, id).url == base + "/audio/music-service-c/web/url"@,
        sound_question(base, id).query == seq![
            ("sid"@, id),
            ("quality"@, "2"@),
            ("privilege"@, "2"@),
        ],
        article_question(base, id).url == base + "/x/article/viewinfo"@,
        article_question(base, id).query == seq![("id"@, id), ("mobi_app"@, "pc"@), ("from"@, "web"@)],
{
}

/// Reading a page begins with the question that belongs to it, put to the server that knows.
pub proof fn law_reading_begins(p: BilibiliProvider, name: Seq<char>, id: Seq<char>)
    ensures
        ({
            let video = "https://www.bilibili.com/video/"@ + name;
            let episode = "https://www.bilibili.com/bangumi/play/"@ + name;
            let room = "https://live.bilibili.com/"@ + name;
            let song = "https://www.bilibili.com/audio/"@ + name;
            let article = "https://www.bilibili.com/read/"@ + name;
            &&& question_for(video) is Ok ==> page_start(p, TargetView::Video(name))
                == PageStepView::Ask(
                PageStateView::Video { url: video, question: question_for(video)->Ok_0 },
                question_call(p.api_base@, question_for(video)->Ok_0),
            )
            &&& question_for(episode) is Ok ==> page_start(p, TargetView::Bangumi(name))
                == PageStepView::Ask(
                PageStateView::Video { url: episode, question: question_for(episode)->Ok_0 },
                question_call(p.api_base@, question_for(episode)->Ok_0),
            )
            &&& regex_group(LIVE_LINK@, room, 1) == Some(id) ==> page_start(
                p,
                TargetView::Live(name),
            ) == PageStepView::Ask(PageStateView::Live(id), live_question(p.live_api_base@, id))
            &&& regex_group(AUDIO_LINK@, song, 1) == Some(id) ==> page_start(
                p,
                TargetView::Audio(name),
            ) == PageStepView::Ask(
                PageStateView::Song { url: song, id },
                song_question(p.www_base@, id),
            )
            &&& regex_group(ARTICLE_LINK@, article, 1) == Some(id) ==> page_start(
                p,
                TargetView::Article(name),
            ) == PageStepView::Ask(PageStateView::Article(id), article_question(p.api_base@, id))
        }),
{
}

/// An answer leads to the next question or to what is shown; an error is the end.
pub proof fn law_reading_goes_on(
    p: BilibiliProvider,
    state: PageStateView,
    root: Json,
    error: ErrorView,
    quality: u32,
    cookie: Option<Seq<char>>,
)
    ensures
        page_after(p, state, Err(error), quality, cookie) == PageStepView::Failed(error),
        ({
            let step = page_after(p, state, Ok(root), quality, cookie);
            match state {
                PageStateView::Streams(id) => step == PageStepView::Done(
                    video_content_of(p.cdn@, p.max_media_size, id, root, quality, cookie),
                ),
                PageStateView::Live(id) => step == PageStepView::Done(
                    live_content_of(id, root, cookie),
                ),
                PageStateView::Article(id) => step == PageStepView::Done(
                    article_content_of(id, root, cookie),
                ),
                PageStateView::Song { url, id } => step == PageStepView::Ask(
                    PageStateView::Sound { url, id, song: root },
                    sound_question(p.www_base@, id),
                ),
                PageStateView::Sound { url, id, song } => step is Done ==> step->Done_0
                    == audio_content_of(p.cdn@, url, id, song, root, cookie)->Ok_0,
                PageStateView::Video { url, question } => match question {
                    QuestionView::ByName(name) => video_id_of(Some(name), root) is Ok ==> step is Ask
                        && step->Ask_1 == play_call(
                        p.api_base@,
                        video_id_of(Some(name), root)->Ok_0.bvid,
                        video_id_of(Some(name), root)->Ok_0.cid,
                        quality,
                    ),
                    QuestionView::ByNumber(_) => video_id_of(None, root) is Ok ==> step is Ask
                        && step->Ask_1 == play_call(
                        p.api_base@,
                        video_id_of(None, root)->Ok_0.bvid,
                        video_id_of(None, root)->Ok_0.cid,
                        quality,
                    ),
                    QuestionView::Season { episode, id } => season_video_of(url, episode, id, root)
                        is Err ==> step is Failed,
                },
            }
        }),
{
}

/// Whether a step shows a post, or reads the page that the post embeds first.
pub open spec fn shows_post(
    step: PostStepView,
    post: ReadPostView,
    item: Json,
    cookie: Option<Seq<char>>,
) -> bool {
    match embedded_target_of(item) {
        Some(page) => step == PostStepView::Embed(post, page),
        None => step == PostStepView::Done(post_content(post, None, cookie)),
    }
}

/// A long post is asked for a second time, for its whole text; any other post is shown at once,
/// behind the page that it embeds.
pub proof fn law_post_is_read(
    p: BilibiliProvider,
    url: Seq<char>,
    id: Seq<char>,
    root: Json,
    item: Json,
    cookie: Option<Seq<char>>,
)
    requires
        value_at(root, "/data/item"@) == Some(item),
        !(item is Null),
    ensures
        ({
            let step = post_after(p, PostStateView::Post { url, id }, Ok(root), cookie);
            &&& is_opus(item) ==> step == PostStepView::Ask(
                PostStateView::Opus { id, root },
                opus_question(p.api_base@, source_id_of(item, id)),
            )
            &&& !is_opus(item) ==> shows_post(step, ReadPostView { id, root, opus: None }, item, cookie)
        }),
{
}

/// The whole text of a long post is shown where it could be read, and the post without it where
/// it could not.
pub proof fn law_long_post_is_read(
    p: BilibiliProvider,
    id: Seq<char>,
    root: Json,
    item: Json,
    document: Json,
    error: ErrorView,
    cookie: Option<Seq<char>>,
)
    requires
        value_at(root, "/data/item"@) == Some(item),
        !(item is Null),
    ensures
        ({
            let read = post_after(p, PostStateView::Opus { id, root }, Ok(document), cookie);
            let unread = post_after(p, PostStateView::Opus { id, root }, Err(error), cookie);
            &&& opus_of(document) is Ok ==> shows_post(
                read,
                ReadPostView { id, root, opus: Some(opus_of(document)->Ok_0) },
                item,
                cookie,
            )
            &&& opus_of(document) is Err ==> shows_post(
                read,
                ReadPostView { id, root, opus: None },
                item,
                cookie,
            )
            &&& shows_post(unread, ReadPostView { id, root, opus: None }, item, cookie)
        }),
{
}

/// A post that the answer does not hold cannot be had.
pub proof fn law_missing_post(
    p: BilibiliProvider,
    url: Seq<char>,
    id: Seq<char>,
    root: Json,
    error: ErrorView,
    cookie: Option<Seq<char>>,
)
    ensures
        value_at(root, "/data/item"@) is None || value_at(root, "/data/item"@) == Some(Json::Null)
            ==> post_after(p, PostStateView::Post { url, id }, Ok(root), cookie)
            == PostStepView::Failed(ErrorView::Unavailable(url)),
        post_after(p, PostStateView::Post { url, id }, Err(error), cookie) == PostStepView::Failed(
            error,
        ),
{
}

/// The address of each kind of page.
pub proof fn law_address_of_page(name: Seq<char>)
    ensures
        page_address(TargetView::Video(name)) == "https://www.bilibili.com/video/"@ + name,
        page_address(TargetView::Bangumi(name)) == "https://www.bilibili.com/bangumi/play/"@ + name,
        page_address(TargetView::Dynamic(name)) == "https://www.bilibili.com/opus/"@ + name,
        page_address(TargetView::Live(name)) == "https://live.bilibili.com/"@ + name,
        page_address(TargetView::Audio(name)) == "https://www.bilibili.com/audio/"@ + name,
        page_address(TargetView::Article(name)) == "https://www.bilibili.com/read/"@ + name,
{
}

/// What a word in an address and the one behind it name.
pub proof fn law_words_in_address(
    url: Seq<char>,
    segments: Seq<Seq<char>>,
    query: Seq<(Seq<char>, Seq<char>)>,
    i: int,
)
    requires
        0 <= i < segments.len() - 1,
    ensures
        ({
            let word = lowered(segments[i]);
            let next = segments[i + 1];
            let named = segment_target(url, segments, query, i);
            &&& (word == "opus"@ || word == "dynamic"@) && all_digits(next) ==> named == Some(
                Ok::<TargetView, ErrorView>(TargetView::Dynamic(next)),
            )
            &&& word == "video"@ && (regex_found(BVID@, next) || regex_found(AV_PATH@, next))
                ==> named == Some(Ok::<TargetView, ErrorView>(TargetView::Video(next)))
            &&& word == "play"@ && regex_found(EP_PATH@, next) ==> named == Some(
                Ok::<TargetView, ErrorView>(TargetView::Bangumi(next)),
            )
            &&& word == "audio"@ && regex_found(AUDIO_PATH@, next) ==> named == Some(
                Ok::<TargetView, ErrorView>(TargetView::Audio(next)),
            )
            &&& word == "read"@ && next != "mobile"@ && regex_found(ARTICLE_PATH@, next) ==> named
                == Some(Ok::<TargetView, ErrorView>(TargetView::Article(next)))
            &&& word == "read"@ && next == "mobile"@ && i + 2 < segments.len() && all_digits(
                segments[i + 2],
            ) ==> named == Some(
                Ok::<TargetView, ErrorView>(TargetView::Article("mobile/"@ + segments[i + 2])),
            )
            &&& word == "read"@ && next == "mobile"@ && !(i + 2 < segments.len() && all_digits(
                segments[i + 2],
            )) ==> match query_value(query, "id"@, 0) {
                Some(id) => named == Some(
                    Ok::<TargetView, ErrorView>(TargetView::Article("mobile?id="@ + id)),
                ),
                None => named == Some(Err::<TargetView, ErrorView>(ErrorView::InvalidUrl(url))),
            }
            &&& named is Some ==> word == "opus"@ || word == "dynamic"@ || word == "video"@ || word
                == "play"@ || word == "audio"@ || word == "read"@
        }),
{
    reveal_strlit("opus");
    reveal_strlit("dynamic");
    reveal_strlit("video");
    reveal_strlit("play");
    reveal_strlit("audio");
    reveal_strlit("read");
    assert("opus"@[0] == 'o' && "dynamic"@[0] == 'd' && "video"@[0] == 'v' && "play"@[0] == 'p'
        && "audio"@[0] == 'a' && "read"@[0] == 'r');
}

/// An address names what the first of its words names that name anything.
pub proof fn law_first_word_names(
    url: Seq<char>,
    segments: Seq<Seq<char>>,
    query: Seq<(Seq<char>, Seq<char>)>,
    i: int,
    at: int,
)
    requires
        0 <= i <= at < segments.len(),
        forall|j: int| i <= j < at ==> segment_target(url, segments, query, j) is None,
        segment_target(url, segments, query, at) is Some,
    ensures
        path_target(url, segments, query, i) == segment_target(url, segments, query, at)->0,
    decreases at - i,
{
    if i < at {
        law_first_word_names(url, segments, query, i + 1, at);
    }
}

/// An address in which no word names anything is not supported.
pub proof fn law_nothing_named(
    url: Seq<char>,
    segments: Seq<Seq<char>>,
    query: Seq<(Seq<char>, Seq<char>)>,
    i: int,
)
    requires
        0 <= i <= segments.len(),
        forall|j: int| i <= j < segments.len() ==> segment_target(url, segments, query, j) is None,
    ensures
        path_target(url, segments, query, i) == Err::<TargetView, ErrorView>(
            ErrorView::Unsupported(url),
        ),
    decreases segments.len() - i,
{
    if i < segments.len() {
        law_nothing_named(url, segments, query, i + 1);
    }
}

proof fn lemma_first_number(segments: Seq<Seq<char>>, i: int, at: int)
    requires
        0 <= i <= at < segments.len(),
        all_digits(segments[at]),
        forall|j: int| i <= j < at ==> !all_digits(#[trigger] segments[j]),
    ensures
        first_number_segment(segments, i) == Some(segments[at]),
    decreases at - i,
{
    if i < at {
        lemma_first_number(segments, i + 1, at);
    }
}

/// On the host of live rooms the first number names the room; on the host of posts the first
/// word is the post's number; on every other host the path says what the page is.
pub proof fn law_host_decides(url: Seq<char>, at: int)
    requires
        url_parts(url) is Some,
        url_parts(url)->0.segments is Some,
    ensures
        ({
            let parts = url_parts(url)->0;
            let segments = parts.segments->0;
            let host = small_host(parts);
            &&& host == "live.bilibili.com"@ && 0 <= at < segments.len() && all_digits(segments[at])
                && (forall|j: int| 0 <= j < at ==> !all_digits(#[trigger] segments[j])) ==> target_of(
                url,
            ) == Ok::<TargetView, ErrorView>(TargetView::Live(segments[at]))
            &&& host == "t.bilibili.com"@ && segments.len() > 0 && all_digits(segments[0])
                ==> target_of(url) == Ok::<TargetView, ErrorView>(TargetView::Dynamic(segments[0]))
            &&& host == "t.bilibili.com"@ && (segments.len() == 0 || !all_digits(segments[0]))
                ==> target_of(url) == Err::<TargetView, ErrorView>(ErrorView::InvalidUrl(url))
            &&& host != "live.bilibili.com"@ && host != "t.bilibili.com"@ ==> target_of(url)
                == path_target(url, segments, parts.query, 0)
        }),
{
    let parts = url_parts(url)->0;
    let segments = parts.segments->0;
    reveal_strlit("live.bilibili.com");
    reveal_strlit("t.bilibili.com");
    assert("live.bilibili.com"@.len() != "t.bilibili.com"@.len());
    if 0 <= at < segments.len() && all_digits(segments[at]) && (forall|j: int|
        0 <= j < at ==> !all_digits(#[trigger] segments[j])) {
        lemma_first_number(segments, 0, at);
    }
}

/// Whether a host is one of Bilibili.
pub open spec fn own_host(host: Seq<char>) -> bool {
    host == "b23.tv"@ || host == "bilibili.com"@ || has_suffix(host, ".bilibili.com"@)
}

/// A name or number that stands alone leads to its video; a link of Bilibili to itself, unless
/// it is a short one, which is opened; any other link is refused.
pub proof fn law_link_leads(raw: Seq<char>)
    ensures
        ({
            let t = trimmed(raw);
            let name = regex_group(BARE_BVID@, t, 0);
            let number = regex_group(BARE_AV@, t, 1);
            let parts = url_parts(web_address(raw));
            &&& name is Some ==> resolution(raw) == ResolvedView::Address(
                "https://www.bilibili.com/video/"@ + name->0,
            )
            &&& name is None && number is Some ==> resolution(raw) == ResolvedView::Address(
                "https://www.bilibili.com/video/av"@ + number->0,
            )
            &&& name is None && number is None ==> {
                if parts is Some && small_host(parts->0) == "b23.tv"@ {
                    resolution(raw) == ResolvedView::Follow(web_address(raw))
                } else if parts is Some && own_host(small_host(parts->0)) {
                    resolution(raw) == ResolvedView::Address(parts->0.text)
                } else {
                    resolution(raw) == ResolvedView::Failed(ErrorView::InvalidUrl(raw))
                }
            }
        }),
{
}

/// A short link has to lead to a page of Bilibili that is not a short link again.
pub proof fn law_short_link_leads(raw: Seq<char>, reached: Seq<char>)
    ensures
        ({
            let parts = url_parts(reached);
            let good = parts is Some && own_host(small_host(parts->0)) && small_host(parts->0)
                != "b23.tv"@;
            &&& good ==> followed(raw, reached) == Ok::<Seq<char>, ErrorView>(parts->0.text)
            &&& !good ==> followed(raw, reached) == Err::<Seq<char>, ErrorView>(
                ErrorView::InvalidUrl(raw),
            )
        }),
        bilibili_host("b23.tv"@) && bilibili_host("bilibili.com"@),
{
}

/// What the codes of the API mean. The device is named anew once where it was refused.
pub proof fn law_code_of_answer(value: Json, code: i64, message: Seq<char>, refreshed: bool)
    requires
        signed_value(member(value, "code"@)) == Some(code),
        str_at(value, "/message"@) == Some(message),
    ensures
        ({
            let reply = after_reply(Ok(value), refreshed);
            let told = "Bilibili: "@ + message;
            &&& code == 0 ==> reply == ApiReplyView::Document(value)
            &&& code == -352 && !refreshed ==> reply == ApiReplyView::RefreshDevice
            &&& code == -352 && refreshed ==> reply == ApiReplyView::Failed(
                ErrorView::RateLimited(told),
            )
            &&& code == 412 ==> reply == ApiReplyView::Failed(ErrorView::RateLimited(told))
            &&& code == -101 ==> reply == ApiReplyView::Failed(ErrorView::Authentication(told))
            &&& code == 404 || code == 4101139 ==> reply == ApiReplyView::Failed(
                ErrorView::Unavailable(told),
            )
            &&& code != 0 && code != -352 && code != 412 && code != -101 && code != 404 && code
                != 4101139 ==> reply == ApiReplyView::Failed(ErrorView::Upstream(told))
        }),
{
}

/// An answer without a code is taken as it is, and an error without a message is unknown.
pub proof fn law_answer_without_code(value: Json, error: ErrorView, refreshed: bool)
    ensures
        signed_value(member(value, "code"@)) is None ==> after_reply(Ok(value), refreshed)
            == ApiReplyView::Document(value),
        after_reply(Err(error), refreshed) == ApiReplyView::Failed(error),
        reply_code(value) == -101 && str_at(value, "/message"@) is None ==> after_reply(
            Ok(value),
            refreshed,
        ) == ApiReplyView::Failed(ErrorView::Authentication("Bilibili: "@ + "未知错误"@)),
{
}

/// Files are fetched as from a page of Bilibili, with the cookie where there is one.
pub proof fn law_headers_of_files(cookie: Seq<char>)
    ensures
        media_headers(None) == seq![("Referer"@, "https://www.bilibili.com/"@)],
        media_headers(Some(cookie)).contains(("Cookie"@, cookie)),
        media_headers(Some(cookie)).contains(("Referer"@, "https://www.bilibili.com/"@)),
        media_headers(Some(cookie)).len() == 2,
{
    assert(media_headers(Some(cookie))[0] == ("Cookie"@, cookie));
    assert(media_headers(Some(cookie))[1] == ("Referer"@, "https://www.bilibili.com/"@));
}

/// The API is asked as by a browser on a page of Bilibili, with the cookie where there is one.
pub proof fn law_headers_of_questions(cookie: Seq<char>)
    ensures
        browser_headers(Some(cookie)) == browser_headers(None).push(("Cookie"@, cookie)),
        browser_headers(None).len() == 4,
        browser_headers(None).contains(("Accept"@, "application/json, text/plain, */*"@)),
        browser_headers(None).contains(("Origin"@, "https://www.bilibili.com"@)),
        browser_headers(None).contains(("Referer"@, "https://www.bilibili.com/"@)),
        browser_headers(None)[0].0 == "User-Agent"@,
{
    assert(browser_headers(None)[1] == ("Accept"@, "application/json, text/plain, */*"@));
    assert(browser_headers(None)[2] == ("Origin"@, "https://www.bilibili.com"@));
    assert(browser_headers(None)[3] == ("Referer"@, "https://www.bilibili.com/"@));
}

/// Each server is the one of the settings, without a slash at its end; files may be as large as
/// can be sent.
pub proof fn law_servers_of_settings(p: BilibiliProvider, config: Config)
    requires
        bilibili_by_config(p, config),
    ensures
        p.api_base@ == trim_end_of(config.bilibili_api_base@, '/'),
        p.live_api_base@ == trim_end_of(config.bilibili_live_api_base@, '/'),
        p.www_base@ == trim_end_of(config.bilibili_www_base@, '/'),
        config.local_bot_api ==> p.max_media_size == 2_000_000_000,
        !config.local_bot_api ==> p.max_media_size == 50 * 1024 * 1024,
        p.cdn@ == config.bilibili_cdn@,
{
}

} // verus!
