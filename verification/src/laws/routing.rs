//! Which platform a link belongs to, and what it names there.
use vstd::prelude::*;

use crate::cache::{rate_key, rate_window, cached, CacheModel};
use crate::model::{ParseOptionsView, Platform};
use crate::outside::{regex_found, regex_group, url_parts};
use crate::provider::bilibili::{bilibili_host, BARE_AV, BARE_BVID};
use crate::provider::netease::{
    is_short_link, may_lead_to, netease_host, netease_id, query_value, with_scheme, NETEASE_LINK,
    NETEASE_PATH_ID, NETEASE_QUERY_ID,
};
use crate::provider::pixiv::{pixiv_host, pixiv_id, PIXIV_LINK};
use crate::provider::x::{x_host, x_id, x_quality, X_LINK};
use crate::provider::youtube::{youtube_host, youtube_id, YOUTUBE_LINK};
use crate::provider::{
    law_first_handler, link_host, platform_handles, route, small_host, standard_platforms,
    web_address,
};
use crate::telegram::requests::answer_key;
use crate::text::{has_part, has_prefix, has_suffix, lowered, trimmed};

verus! {

/// Whether a host is a domain or stands below it.
pub open spec fn below(host: Seq<char>, domain: Seq<char>) -> bool {
    host == domain || has_suffix(host, "."@ + domain)
}

/// The hosts of each platform.
pub proof fn law_hosts(host: Seq<char>)
    ensures
        x_host(host) <==> below(host, "x.com"@) || below(host, "twitter.com"@),
        youtube_host(host) <==> below(host, "youtube.com"@) || below(host, "youtu.be"@) || below(
            host,
            "youtube-nocookie.com"@,
        ),
        pixiv_host(host) <==> below(host, "pixiv.net"@),
        netease_host(host) <==> below(host, "music.163.com"@) || below(host, "163cn.tv"@),
        bilibili_host(host) <==> host == "bilibili.com"@ || has_suffix(host, ".bilibili.com"@)
            || host == "b23.tv"@,
{
}

/// A link belongs to a platform where it has the form of one of its links and its host is one of
/// its hosts; a video of Bilibili may also be named alone.
pub proof fn law_link_belongs(url: Seq<char>)
    ensures
        ({
            let host = link_host(url);
            let parts = url_parts(web_address(url));
            let t = trimmed(url);
            &&& platform_handles(Platform::X, url) <==> regex_found(X_LINK@, url) && x_host(host)
            &&& platform_handles(Platform::YouTube, url) <==> regex_found(YOUTUBE_LINK@, url)
                && youtube_host(host)
            &&& platform_handles(Platform::Pixiv, url) <==> regex_found(PIXIV_LINK@, url)
                && pixiv_host(host)
            &&& platform_handles(Platform::Netease, url) <==> regex_found(NETEASE_LINK@, url)
                && netease_host(host)
            &&& platform_handles(Platform::Bilibili, url) <==> regex_found(BARE_BVID@, t)
                || regex_found(BARE_AV@, t) || parts is Some && parts->0.host is Some
                && bilibili_host(small_host(parts->0))
        }),
{
}

/// The host of a link is read without regard to case, to white space around the link, or to a
/// missing scheme.
pub proof fn law_host_of_link(url: Seq<char>, host: Seq<char>)
    ensures
        ({
            let parts = url_parts(web_address(lowered(trimmed(url))));
            &&& parts is Some && parts->0.host == Some(host) ==> link_host(url) == lowered(host)
            &&& parts is None ==> link_host(url).len() == 0
        }),
        has_prefix(url, "http://"@) || has_prefix(url, "https://"@) ==> web_address(url) == url,
        !has_prefix(url, "http://"@) && !has_prefix(url, "https://"@) ==> web_address(url)
            == "https://"@ + url,
{
}

/// The platforms are asked in a fixed order, and the first that a link belongs to reads it.
pub proof fn law_first_platform_reads(url: Seq<char>)
    ensures
        platform_handles(Platform::X, url) ==> route(standard_platforms(), url) == Some(Platform::X),
        !platform_handles(Platform::X, url) && platform_handles(Platform::YouTube, url) ==> route(
            standard_platforms(),
            url,
        ) == Some(Platform::YouTube),
        !platform_handles(Platform::X, url) && !platform_handles(Platform::YouTube, url)
            && platform_handles(Platform::Pixiv, url) ==> route(standard_platforms(), url) == Some(
            Platform::Pixiv,
        ),
        !platform_handles(Platform::X, url) && !platform_handles(Platform::YouTube, url)
            && !platform_handles(Platform::Pixiv, url) && platform_handles(Platform::Bilibili, url)
            ==> route(standard_platforms(), url) == Some(Platform::Bilibili),
        route(standard_platforms(), url) is None <==> !platform_handles(Platform::X, url)
            && !platform_handles(Platform::YouTube, url) && !platform_handles(Platform::Pixiv, url)
            && !platform_handles(Platform::Bilibili, url) && !platform_handles(
            Platform::Netease,
            url,
        ),
        route(standard_platforms(), url) matches Some(p) ==> platform_handles(p, url),
{
    let all = standard_platforms();
    law_first_handler(all, url, 0);
    assert(all[0] == Platform::X && all[1] == Platform::YouTube && all[2] == Platform::Pixiv && all[3]
        == Platform::Bilibili && all[4] == Platform::Netease);
}

/// What a link names is what its pattern finds.
pub proof fn law_link_names(url: Seq<char>)
    ensures
        x_id(url) == regex_group(X_LINK@, url, 1),
        youtube_id(url) == regex_group(YOUTUBE_LINK@, url, 1),
        regex_group(PIXIV_LINK@, url, 1) is Some ==> pixiv_id(url) == regex_group(PIXIV_LINK@, url, 1),
        regex_group(PIXIV_LINK@, url, 1) is None ==> pixiv_id(url) == regex_group(PIXIV_LINK@, url, 2),
{
}

/// A work of Netease is named by the number in the query of the address, or else by that which
/// follows its number sign, or else by that in its path.
pub proof fn law_work_is_named(url: Seq<char>)
    ensures
        ({
            let parts = url_parts(url);
            let asked = query_value(parts->0.query, "id"@, 0);
            let behind = regex_group(NETEASE_QUERY_ID@, url, 1);
            &&& parts is None ==> netease_id(url) is None
            &&& parts is Some && asked is Some ==> netease_id(url) == asked
            &&& parts is Some && asked is None && behind is Some ==> netease_id(url) == behind
            &&& parts is Some && asked is None && behind is None ==> netease_id(url) == regex_group(
                NETEASE_PATH_ID@,
                url,
                1,
            )
        }),
{
}

/// The value of a query is that of the first pair with the name.
pub proof fn law_first_pair_counts(
    query: Seq<(Seq<char>, Seq<char>)>,
    name: Seq<char>,
    from: int,
    k: int,
)
    requires
        0 <= from <= k < query.len(),
        query[k].0 == name,
        forall|i: int| from <= i < k ==> (#[trigger] query[i]).0 != name,
    ensures
        query_value(query, name, from) == Some(query[k].1),
    decreases k - from,
{
    if from < k {
        law_first_pair_counts(query, name, from + 1, k);
    }
}

/// A short link of Netease is opened with a scheme, and may lead nowhere else.
pub proof fn law_short_link_of_netease(raw: Seq<char>, url: Seq<char>)
    ensures
        is_short_link(raw) <==> has_part(raw, "y.music.163.com"@) || has_part(raw, "163cn.tv"@),
        has_prefix(raw, "http"@) ==> with_scheme(raw) == raw,
        !has_prefix(raw, "http"@) ==> with_scheme(raw) == "https://"@ + raw,
        is_short_link(raw) ==> (may_lead_to(raw, url) <==> url_parts(url) is Some && netease_host(
            small_host(url_parts(url)->0),
        )),
        !is_short_link(raw) ==> may_lead_to(raw, url),
{
}

/// Videos on X are limited to what is asked for, or to 720 lines.
pub proof fn law_quality_on_x(quality: u32)
    ensures
        x_quality(Some(quality)) == quality,
        x_quality(None) == 720,
{
}

/// What is counted and what is kept never have the same key.
pub proof fn law_keys_do_not_meet(
    subject: Seq<char>,
    url: Seq<char>,
    options: ParseOptionsView,
    revision: u64,
)
    ensures
        rate_key(subject) != answer_key(url, options, revision),
        has_prefix(rate_key(subject), "rate:"@),
        has_prefix(answer_key(url, options, revision), "parsed:"@),
{
    reveal_strlit("rate:");
    reveal_strlit("parsed:");
    super::text::law_parts_of_text(Seq::empty(), "rate:"@, subject);
    let key = answer_key(url, options, revision);
    super::text::law_parts_of_text(Seq::empty(), "parsed:"@, key.skip(7));
    assert(key =~= "parsed:"@ + key.skip(7));
    assert(rate_key(subject)[0] == 'r');
    assert(key[0] == 'p');
}

/// Different subjects are counted apart.
pub proof fn law_subjects_are_told_apart(a: Seq<char>, b: Seq<char>)
    requires
        a != b,
    ensures
        rate_key(a) != rate_key(b),
{
    let n = "rate:"@.len() as int;
    assert(rate_key(a).skip(n) =~= a);
    assert(rate_key(b).skip(n) =~= b);
}

/// Where nothing is counted, counting begins now, at zero.
pub proof fn law_counting_begins(model: CacheModel, subject: Seq<char>, ttl: u64, now: u64)
    requires
        cached(model, "rate:"@ + subject, now) is None,
    ensures
        rate_window(model, subject, ttl, now) == (0nat, now + ttl),
{
}

} // verus!
