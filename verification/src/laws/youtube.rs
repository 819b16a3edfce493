//! Videos on YouTube.
use vstd::prelude::*;

use crate::json::{value_at, Json};
use crate::model::{ContentKind, MediaKind, Platform};
use crate::provider::youtube::{
    needs_oembed, youtube_content_of, youtube_data, youtube_next, ytdlp_data, YouTubeGathered,
    YouTubeNext,
};
use crate::provider::{low_u32, str_at, u64_at};
use crate::text::decimal;

verus! {

/// What comes first of two texts.
pub open spec fn either(a: Option<Seq<char>>, b: Option<Seq<char>>) -> Option<Seq<char>> {
    match a {
        Some(s) => Some(s),
        None => b,
    }
}

/// What comes first of two numbers.
pub open spec fn either_number(a: Option<u64>, b: Option<u64>) -> Option<u64> {
    match a {
        Some(n) => Some(n),
        None => b,
    }
}

/// A video is one medium, fetched from its own page, with the picture, size and duration that
/// were described, and kept under its name and the quality that was asked for, or 480.
pub proof fn law_video_of_youtube(id: Seq<char>, quality: Option<u32>, data: Json, y: Json)
    ensures
        ({
            let c = youtube_content_of(id, quality, data, y);
            let m = c.media[0];
            &&& c.media.len() == 1
            &&& c.platform == Platform::YouTube && c.kind == ContentKind::Video && c.id == id
            &&& c.canonical_url == "https://www.youtube.com/watch?v="@ + id
            &&& m.source_url == "https://www.youtube.com/watch?v="@ + id
            &&& m.kind == MediaKind::Video && m.requires_download
            &&& m.mime_type == Some("video/mp4"@)
            &&& m.duration_secs == u64_at(y, "/duration"@)
            &&& m.width == low_u32(u64_at(y, "/width"@))
            &&& m.height == low_u32(u64_at(y, "/height"@))
            &&& m.size == u64_at(y, "/filesize_approx"@)
            &&& m.filename == "youtube-"@ + id + ".mp4"@
            &&& m.cache_key == "youtube:"@ + id + ":"@ + decimal(
                match quality {
                    Some(q) => q as nat,
                    None => 480nat,
                },
            ) + "p"@
            &&& m.thumbnail_url == either(
                either(
                    str_at(data, "/snippet/thumbnails/maxres/url"@),
                    str_at(data, "/snippet/thumbnails/high/url"@),
                ),
                either(str_at(y, "/thumbnail"@), str_at(data, "/thumbnail_url"@)),
            )
            &&& m.secondary_url is None && m.headers.len() == 0 && m.fallback_urls.len() == 0
        }),
{
}

/// A video has the title, the text, the author and the statistics that the API gives, and else
/// those of the downloader.
pub proof fn law_video_description(id: Seq<char>, quality: Option<u32>, data: Json, y: Json)
    ensures
        ({
            let c = youtube_content_of(id, quality, data, y);
            let title = either(
                str_at(data, "/snippet/title"@),
                either(str_at(y, "/title"@), str_at(data, "/title"@)),
            );
            let name = either(
                str_at(data, "/snippet/channelTitle"@),
                either(str_at(y, "/channel"@), str_at(data, "/author_name"@)),
            );
            let text = either(str_at(data, "/snippet/description"@), str_at(y, "/description"@));
            &&& title matches Some(t) ==> c.title == t
            &&& name matches Some(n) ==> c.author.name == n
            &&& text matches Some(t) ==> c.text == t
            &&& text is None ==> c.text.len() == 0
            &&& c.author.url == str_at(y, "/channel_url"@)
            &&& str_at(y, "/channel_id"@) matches Some(i) ==> c.author.id == i
            &&& c.stats.likes == either_number(
                u64_at(data, "/statistics/likeCount"@),
                u64_at(y, "/like_count"@),
            )
            &&& c.stats.replies == either_number(
                u64_at(data, "/statistics/commentCount"@),
                u64_at(y, "/comment_count"@),
            )
            &&& c.stats.views == either_number(
                u64_at(data, "/statistics/viewCount"@),
                u64_at(y, "/view_count"@),
            )
            &&& c.stats.reposts is None && !c.sensitive
        }),
{
}

/// The video in the reply of the API describes it; without it, and without the downloader, the
/// embedded page does.
pub proof fn law_who_describes(api: Json, tool: Option<Json>, oembed: Json, item: Json)
    requires
        value_at(api, "/items/0"@) == Some(item),
        !(item is Null),
    ensures
        youtube_data(Some(api), tool, Some(oembed)) == item,
        youtube_data(None, None, Some(oembed)) == oembed,
        !needs_oembed(Some(api), tool),
        needs_oembed(None, None),
        tool is Some ==> !needs_oembed(None, tool) && ytdlp_data(tool) == tool->0,
{
}

/// The API is asked first, where there is a key, then the downloader, whose failure is done
/// without, and the embedded page only where neither describes the video.
pub proof fn law_what_is_asked(has_key: bool, g: YouTubeGathered)
    ensures
        youtube_next(has_key, g) == YouTubeNext::Api <==> has_key && g.api is None,
        youtube_next(has_key, g) == YouTubeNext::Tool <==> !(has_key && g.api is None)
            && !g.asked_tool,
        youtube_next(has_key, g) == YouTubeNext::OEmbed ==> g.asked_tool && g.tool is None
            && g.oembed is None,
        youtube_next(has_key, g) == YouTubeNext::Build ==> g.asked_tool && (g.tool is Some
            || g.oembed is Some || !needs_oembed(g.api, g.tool)),
{
}

} // verus!
