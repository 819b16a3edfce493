//! What values are, and what is said of them.
use vstd::prelude::*;

use crate::model::{
    default_options, item_views, platform_name, provider_message, quality_limit, request_views,
    Author, ErrorView, MediaItem, ParseOptions, ParseRequest, ParsedContent, Platform,
    ProviderError,
};
use crate::text::{opt_text, texts};

verus! {

/// An author is what its fields say.
pub proof fn law_author(a: Author)
    ensures
        a@.id == a.id@,
        a@.name == a.name@,
        a@.url == opt_text(a.url),
        a@.avatar_url == opt_text(a.avatar_url),
{
}

/// A medium is what its fields say.
pub proof fn law_medium(m: MediaItem)
    ensures
        m@.kind == m.kind,
        m@.source_url == m.source_url@,
        m@.fallback_urls == texts(m.fallback_urls@),
        m@.thumbnail_url == opt_text(m.thumbnail_url),
        m@.filename == m.filename@,
        m@.mime_type == opt_text(m.mime_type),
        m@.duration_secs == m.duration_secs,
        m@.width == m.width,
        m@.height == m.height,
        m@.size == m.size,
        m@.headers.len() == m.headers@.len(),
        forall|i: int|
            0 <= i < m.headers@.len() ==> #[trigger] m@.headers[i] == (
                m.headers@[i].0@,
                m.headers@[i].1@,
            ),
        m@.cache_key == m.cache_key@,
        m@.requires_download == m.requires_download,
        m@.secondary_url == opt_text(m.secondary_url),
        m@.secondary_fallback_urls == texts(m.secondary_fallback_urls@),
{
}

/// Content is what its fields say.
pub proof fn law_content(c: ParsedContent)
    ensures
        c@.platform == c.platform,
        c@.kind == c.kind,
        c@.id == c.id@,
        c@.canonical_url == c.canonical_url@,
        c@.author == c.author@,
        c@.title == c.title@,
        c@.text == c.text@,
        c@.sensitive == c.sensitive,
        c@.stats == c.stats,
        c@.media == item_views(c.media@),
        c@.collection_items == texts(c.collection_items@),
{
}

/// What is asked for is what the fields say.
pub proof fn law_options(o: ParseOptions, r: ParseRequest)
    ensures
        o@.quality == o.quality,
        o@.file_mode == o.file_mode,
        o@.cover_only == o.cover_only,
        o@.force_spoiler == o.force_spoiler,
        o@.page == o.page,
        o@.media_cache_key == opt_text(o.media_cache_key),
        r@.url == r.url@,
        r@.options == r.options@,
{
}

/// A list is seen item by item.
pub proof fn law_lists(items: Seq<MediaItem>, requests: Seq<ParseRequest>, words: Seq<String>, i: int)
    ensures
        item_views(items).len() == items.len(),
        0 <= i < items.len() ==> item_views(items)[i] == items[i]@,
        request_views(requests).len() == requests.len(),
        0 <= i < requests.len() ==> request_views(requests)[i] == requests[i]@,
        texts(words).len() == words.len(),
        0 <= i < words.len() ==> texts(words)[i] == words[i]@,
{
}

/// A text that may be missing is missing, or is what it says.
pub proof fn law_optional_text(s: String)
    ensures
        opt_text(Some(s)) == Some(s@),
        opt_text(None) is None,
{
}

/// Without a word about it nothing special is asked for.
pub proof fn law_nothing_special(quality: u32)
    ensures
        ({
            let o = default_options();
            &&& o.quality is None && o.page is None && o.media_cache_key is None
            &&& !o.file_mode && !o.cover_only && !o.force_spoiler
        }),
        quality_limit(Some(quality)) == quality,
        quality_limit(None) == 480,
{
}

/// An error keeps its kind and its text.
pub proof fn law_error(s: String)
    ensures
        ProviderError::Unsupported(s)@ == ErrorView::Unsupported(s@),
        ProviderError::InvalidUrl(s)@ == ErrorView::InvalidUrl(s@),
        ProviderError::Unavailable(s)@ == ErrorView::Unavailable(s@),
        ProviderError::Authentication(s)@ == ErrorView::Authentication(s@),
        ProviderError::RateLimited(s)@ == ErrorView::RateLimited(s@),
        ProviderError::Upstream(s)@ == ErrorView::Upstream(s@),
        ProviderError::InvalidResponse(s)@ == ErrorView::InvalidResponse(s@),
        ProviderError::Media(s)@ == ErrorView::Media(s@),
{
}

/// What a user is told of each error.
pub proof fn law_error_is_told(s: Seq<char>)
    ensures
        provider_message(ErrorView::Unsupported(s)) == "不支持的链接: "@ + s,
        provider_message(ErrorView::InvalidUrl(s)) == "链接格式不正确: "@ + s,
        provider_message(ErrorView::Unavailable(s)) == "内容不存在、已删除或不可公开访问: "@ + s,
        provider_message(ErrorView::Authentication(s)) == "需要登录凭证: "@ + s,
        provider_message(ErrorView::RateLimited(s)) == "上游请求受限，请稍后重试: "@ + s,
        provider_message(ErrorView::Upstream(s)) == "上游服务错误: "@ + s,
        provider_message(ErrorView::InvalidResponse(s)) == "响应解析错误: "@ + s,
        provider_message(ErrorView::Media(s)) == "媒体处理错误: "@ + s,
{
}

/// The platforms have different names.
pub proof fn law_names_of_platforms(a: Platform, b: Platform)
    ensures
        platform_name(Platform::X) == "x"@,
        platform_name(Platform::YouTube) == "youtube"@,
        platform_name(Platform::Pixiv) == "pixiv"@,
        platform_name(Platform::Bilibili) == "bilibili"@,
        platform_name(Platform::Netease) == "netease"@,
        platform_name(a) == platform_name(b) ==> a == b,
{
    reveal_strlit("x");
    reveal_strlit("youtube");
    reveal_strlit("pixiv");
    reveal_strlit("bilibili");
    reveal_strlit("netease");
    assert("x"@.len() == 1 && "pixiv"@.len() == 5 && "bilibili"@.len() == 8);
    assert("youtube"@.len() == 7 && "netease"@.len() == 7);
    assert("youtube"@[0] == 'y' && "netease"@[0] == 'n');
}

} // verus!
