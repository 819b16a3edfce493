//! Videos and episodes on Bilibili.
use vstd::prelude::*;

use crate::config::CdnView;
use crate::json::{list_value, member, text_value, value_at, Json};
use crate::model::{ContentKind, ErrorView, MediaKind, Platform};
use crate::outside::url_with_host;
use crate::provider::bilibili::cdn::{law_all_addresses_tried, ordered, preferred};
use crate::provider::bilibili::video::{
    chosen_stream, episode_numbered, estimated_size, is_avc, law_chosen_stream, obeys, offer_of,
    picture_stream, play_call, quality_code, question_call, season_video_of, source_order,
    stream_rule, strings_in, strings_of, video_content_of, video_id_of, video_item_of, QuestionView,
    StreamRule, VideoIdView,
};
use crate::provider::{low_u32, str_at, u64_at};
use crate::text::{decimal, distinct_of, has_prefix, lemma_distinct};

use super::{in_order, lemma_in_order_push};

verus! {

/// The size of a stream in bytes is its bit rate with that of the sound, in bits in a second,
/// times the seconds, divided by eight. It is known where rate and duration are.
pub proof fn law_stream_size_is_in_bytes(stream: Json, audio: u64, duration: Option<u64>)
    ensures
        match (u64_at(stream, "/bandwidth"@), duration) {
            (Some(rate), Some(seconds)) => match estimated_size(stream, audio, duration) {
                Some(size) => (audio + rate) * seconds <= u64::MAX ==> 8 * size <= (audio + rate)
                    * seconds < 8 * (size + 1),
                None => false,
            },
            _ => estimated_size(stream, audio, duration) is None,
        },
{
    match (u64_at(stream, "/bandwidth"@), duration) {
        (Some(rate), Some(seconds)) => {
            let both = audio + rate;
            if both > u64::MAX {
                if seconds > 0 {
                    assert(both * seconds >= both) by (nonlinear_arith)
                        requires
                            seconds > 0,
                            both >= 0,
                    ;
                } else {
                    assert(both * seconds == 0) by (nonlinear_arith)
                        requires
                            seconds == 0,
                    ;
                    assert(u64::MAX * seconds == 0) by (nonlinear_arith)
                        requires
                            seconds == 0,
                    ;
                }
            } else {
                assert(both == rate + audio);
            }
        },
        _ => {},
    }
}

/// Whether a stream is not higher than the limit, and with its sound not larger: the bits of its
/// seconds make at most `max_size` bytes, where rate and duration are known.
pub open spec fn within_limits(
    stream: Json,
    target: u64,
    max_size: u64,
    audio: u64,
    duration: Option<u64>,
) -> bool {
    &&& u64_at(stream, "/height"@) matches Some(h) && h <= target
    &&& match (u64_at(stream, "/bandwidth"@), duration) {
        (Some(rate), Some(seconds)) => (audio + rate) * seconds < 8 * (max_size + 1),
        _ => true,
    }
}

/// Whether a stream is in H.264, by the number or the name of its codec.
pub open spec fn in_h264(stream: Json) -> bool {
    u64_at(stream, "/codecid"@) == Some(7u64) || (str_at(stream, "/codecs"@) matches Some(codec)
        && has_prefix(codec, "avc"@))
}

proof fn lemma_fits(stream: Json, rule: StreamRule)
    requires
        rule.max_size < u64::MAX / 8,
        rule.target < u64::MAX,
    ensures
        is_avc(stream) == in_h264(stream),
        obeys(stream, StreamRule { fitting: true, avc: false, ..rule }) == within_limits(
            stream,
            rule.target,
            rule.max_size,
            rule.audio,
            rule.duration,
        ),
{
    let audio = rule.audio;
    match (u64_at(stream, "/bandwidth"@), rule.duration) {
        (Some(rate), Some(seconds)) => {
            let both = audio + rate;
            law_stream_size_is_in_bytes(stream, audio, rule.duration);
            if both > u64::MAX && seconds > 0 {
                assert(both * seconds >= both) by (nonlinear_arith)
                    requires
                        seconds > 0,
                        both >= 0,
                ;
                assert(u64::MAX * seconds >= u64::MAX) by (nonlinear_arith)
                    requires
                        seconds > 0,
                ;
            } else if both > u64::MAX {
                assert(both * seconds == 0) by (nonlinear_arith)
                    requires
                        seconds == 0,
                ;
            } else {
                assert(both == rate + audio);
            }
        },
        _ => {},
    }
}

/// A limit in bits instead of bytes, or without the sound, would choose another stream: every
/// stream that is not above the quality and whose bits fit into the bytes that may be sent is
/// one that fits, and no other is.
pub proof fn law_fitting_is_by_bytes(stream: Json, rule: StreamRule)
    requires
        rule.max_size < u64::MAX / 8,
        rule.target < u64::MAX,
    ensures
        obeys(stream, StreamRule { fitting: true, avc: false, ..rule }) <==> within_limits(
            stream,
            rule.target,
            rule.max_size,
            rule.audio,
            rule.duration,
        ),
        obeys(stream, StreamRule { fitting: true, avc: true, ..rule }) <==> within_limits(
            stream,
            rule.target,
            rule.max_size,
            rule.audio,
            rule.duration,
        ) && in_h264(stream),
{
    lemma_fits(stream, rule);
}

/// The bit rate of the sound that is fetched with the picture.
pub open spec fn sound_rate(p: Json) -> u64 {
    match u64_at(p, "/dash/audio/0/bandwidth"@) {
        Some(n) => n,
        None => 0,
    }
}

/// The seconds of a video: as the player gives them, or else the description.
pub open spec fn seconds_of(p: Json, data: Json) -> Option<u64> {
    match u64_at(p, "/dash/duration"@) {
        Some(n) => Some(n),
        None => u64_at(data, "/duration"@),
    }
}

/// Whether a stream of a video is within the limits.
pub open spec fn fits_video(
    stream: Json,
    p: Json,
    data: Json,
    quality: u32,
    max_size: u64,
) -> bool {
    within_limits(stream, quality as u64, max_size, sound_rate(p), seconds_of(p, data))
}

/// Whether a stream is not lower than another one.
pub open spec fn not_lower(stream: Json, other: Json) -> bool {
    match (u64_at(stream, "/height"@), u64_at(other, "/height"@)) {
        (Some(ours), Some(theirs)) => theirs <= ours,
        (None, Some(theirs)) => theirs == 0,
        _ => true,
    }
}

/// Whether a stream is not higher than another one, where an unknown height is the highest.
pub open spec fn not_higher(stream: Json, other: Json) -> bool {
    match (u64_at(stream, "/height"@), u64_at(other, "/height"@)) {
        (Some(ours), Some(theirs)) => ours <= theirs,
        (None, Some(theirs)) => theirs == u64::MAX,
        _ => true,
    }
}

proof fn lemma_taken(
    p: Json,
    data: Json,
    quality: u32,
    max_size: u64,
    streams: Seq<Json>,
    i: int,
) -> (k: int)
    requires
        list_value(value_at(p, "/dash/video"@)) == Some(streams),
        max_size < u64::MAX / 8,
        0 <= i < streams.len(),
    ensures
        0 <= k < streams.len(),
        picture_stream(p, data, quality, max_size) == Some(streams[k]),
        fits_video(streams[i], p, data, quality, max_size) ==> fits_video(
            streams[k],
            p,
            data,
            quality,
            max_size,
        ),
        fits_video(streams[i], p, data, quality, max_size) && in_h264(streams[i]) ==> in_h264(
            streams[k],
        ),
        fits_video(streams[i], p, data, quality, max_size) && (in_h264(streams[i]) || !in_h264(
            streams[k],
        )) ==> not_lower(streams[k], streams[i]),
        (forall|j: int|
            0 <= j < streams.len() ==> !fits_video(#[trigger] streams[j], p, data, quality, max_size))
            ==> (in_h264(streams[i]) ==> in_h264(streams[k])) && (in_h264(streams[i]) || !in_h264(
            streams[k],
        ) ==> not_higher(streams[k], streams[i])),
{
    let rule = stream_rule(p, data, quality, max_size);
    let fitting = StreamRule { fitting: true, avc: false, ..rule };
    let best = StreamRule { fitting: true, avc: true, ..rule };
    law_chosen_stream(streams, rule);
    let k = chosen_stream(streams, rule)->0;
    lemma_fits(streams[i], rule);
    lemma_fits(streams[k], rule);
    law_fitting_is_by_bytes(streams[i], rule);
    law_fitting_is_by_bytes(streams[k], rule);
    if forall|j: int|
        0 <= j < streams.len() ==> !fits_video(#[trigger] streams[j], p, data, quality, max_size) {
        assert forall|j: int| 0 <= j < streams.len() implies !obeys(#[trigger] streams[j], fitting) by {
            lemma_fits(streams[j], rule);
            assert(!fits_video(streams[j], p, data, quality, max_size));
        }
    }
    k
}

/// The stream of a video that is fetched is one of those that are offered. Where a stream is
/// within the limits, so is the one that is fetched; it is in H.264 where one of those is, and
/// not lower than any of the same kind within the limits.
pub proof fn law_best_fitting_stream(
    p: Json,
    data: Json,
    quality: u32,
    max_size: u64,
    streams: Seq<Json>,
    i: int,
)
    requires
        list_value(value_at(p, "/dash/video"@)) == Some(streams),
        max_size < u64::MAX / 8,
        0 <= i < streams.len(),
        fits_video(streams[i], p, data, quality, max_size),
    ensures
        match picture_stream(p, data, quality, max_size) {
            Some(taken) => {
                &&& streams.contains(taken)
                &&& fits_video(taken, p, data, quality, max_size)
                &&& in_h264(streams[i]) ==> in_h264(taken)
                &&& in_h264(streams[i]) || !in_h264(taken) ==> not_lower(taken, streams[i])
            },
            None => false,
        },
{
    let k = lemma_taken(p, data, quality, max_size, streams, i);
}

/// Where no stream is within the limits, the one that is fetched is still one of those that are
/// offered: in H.264 where one is, and not higher than any of the same kind.
pub proof fn law_least_stream(
    p: Json,
    data: Json,
    quality: u32,
    max_size: u64,
    streams: Seq<Json>,
    i: int,
)
    requires
        list_value(value_at(p, "/dash/video"@)) == Some(streams),
        max_size < u64::MAX / 8,
        0 <= i < streams.len(),
        forall|j: int|
            0 <= j < streams.len() ==> !fits_video(#[trigger] streams[j], p, data, quality, max_size),
    ensures
        match picture_stream(p, data, quality, max_size) {
            Some(taken) => {
                &&& streams.contains(taken)
                &&& in_h264(streams[i]) ==> in_h264(taken)
                &&& in_h264(streams[i]) || !in_h264(taken) ==> not_higher(taken, streams[i])
            },
            None => false,
        },
{
    let k = lemma_taken(p, data, quality, max_size, streams, i);
}

/// The code that is asked of the player stands for the largest of the qualities 360, 480, 720 and
/// 1080 that is not above the limit, or the smallest.
pub proof fn law_quality_code(quality: u32)
    ensures
        quality < 480 ==> quality_code(quality) == "16"@,
        480 <= quality < 720 ==> quality_code(quality) == "32"@,
        720 <= quality < 1080 ==> quality_code(quality) == "64"@,
        1080 <= quality ==> quality_code(quality) == "80"@,
{
}

/// The streams are asked for the very video, part and quality.
pub proof fn law_player_is_asked(base: Seq<char>, bvid: Seq<char>, cid: u64, quality: u32)
    ensures
        ({
            let call = play_call(base, bvid, cid, quality);
            &&& call.url == base + "/x/player/playurl"@
            &&& call.query.contains(("bvid"@, bvid))
            &&& call.query.contains(("cid"@, decimal(cid as nat)))
            &&& call.query.contains(("qn"@, quality_code(quality)))
            &&& call.query.contains(("fnval"@, "4048"@))
            &&& call.query.contains(("fourk"@, "1"@))
        }),
{
    let query = play_call(base, bvid, cid, quality).query;
    assert(query[0] == ("bvid"@, bvid));
    assert(query[1] == ("cid"@, decimal(cid as nat)));
    assert(query[2] == ("qn"@, quality_code(quality)));
    assert(query[3] == ("fnval"@, "4048"@));
    assert(query[4] == ("fourk"@, "1"@));
}

/// A video is asked for by its name or its number, and an episode or a season by its own number.
pub proof fn law_video_is_asked(base: Seq<char>, id: Seq<char>)
    ensures
        question_call(base, QuestionView::ByName(id)).query =~= seq![("bvid"@, id)],
        question_call(base, QuestionView::ByNumber(id)).query =~= seq![("aid"@, id)],
        question_call(base, QuestionView::ByName(id)).url == base + "/x/web-interface/view"@,
        question_call(base, QuestionView::ByNumber(id)).url == base + "/x/web-interface/view"@,
        question_call(base, QuestionView::Season { episode: true, id }).query =~= seq![
            ("ep_id"@, id),
        ],
        question_call(base, QuestionView::Season { episode: false, id }).query =~= seq![
            ("season_id"@, id),
        ],
        question_call(base, QuestionView::Season { episode: true, id }).url == base
            + "/pgc/view/web/season"@,
        question_call(base, QuestionView::Season { episode: false, id }).url == base
            + "/pgc/view/web/season"@,
{
}

proof fn lemma_episode(episodes: Seq<Json>, id: Seq<char>, i: int)
    requires
        0 <= i <= episodes.len(),
    ensures
        match episode_numbered(episodes, id, i) {
            Some(e) => exists|k: int|
                i <= k < episodes.len() && #[trigger] episodes[k] == e && (u64_at(
                    episodes[k],
                    "/id"@,
                ) matches Some(n) && decimal(n as nat) == id) && forall|j: int|
                    i <= j < k ==> !(u64_at(#[trigger] episodes[j], "/id"@) matches Some(n)
                        && decimal(n as nat) == id),
            None => forall|k: int|
                i <= k < episodes.len() ==> !(u64_at(#[trigger] episodes[k], "/id"@) matches Some(n)
                    && decimal(n as nat) == id),
        },
    decreases episodes.len() - i,
{
    if i < episodes.len() {
        lemma_episode(episodes, id, i + 1);
        if u64_at(episodes[i], "/id"@) is Some && decimal(
            u64_at(episodes[i], "/id"@)->0 as nat,
        ) == id {
            assert(episodes[i] == episodes[i]);
        }
    }
}

/// Whether an episode has a number.
pub open spec fn numbered(episode: Json, id: Seq<char>) -> bool {
    u64_at(episode, "/id"@) matches Some(n) && decimal(n as nat) == id
}

/// An episode leads to the video of the first episode with its number; one whose number is not
/// in the season, and a season, lead to the video of the first episode.
pub proof fn law_episode_leads_to_its_video(
    url: Seq<char>,
    id: Seq<char>,
    root: Json,
    episodes: Seq<Json>,
    k: int,
)
    requires
        list_value(value_at(root, "/result/episodes"@)) == Some(episodes),
        0 <= k < episodes.len(),
        str_at(episodes[k], "/bvid"@) is Some,
    ensures
        ({
            let page = Ok::<Seq<char>, ErrorView>(
                "https://www.bilibili.com/video/"@ + str_at(episodes[k], "/bvid"@)->0,
            );
            &&& numbered(episodes[k], id) && (forall|j: int|
                0 <= j < k ==> !numbered(#[trigger] episodes[j], id)) ==> season_video_of(
                url,
                true,
                id,
                root,
            ) == page
            &&& k == 0 && (forall|j: int|
                0 <= j < episodes.len() ==> !numbered(#[trigger] episodes[j], id))
                ==> season_video_of(url, true, id, root) == page
            &&& k == 0 ==> season_video_of(url, false, id, root) == page
        }),
{
    lemma_episode(episodes, id, 0);
    if numbered(episodes[k], id) && (forall|j: int|
        0 <= j < k ==> !numbered(#[trigger] episodes[j], id)) {
        match episode_numbered(episodes, id, 0) {
            Some(e) => {
                let m = choose|m: int|
                    0 <= m < episodes.len() && #[trigger] episodes[m] == e && (u64_at(
                        episodes[m],
                        "/id"@,
                    ) matches Some(n) && decimal(n as nat) == id) && forall|j: int|
                        0 <= j < m ==> !(u64_at(#[trigger] episodes[j], "/id"@) matches Some(n)
                            && decimal(n as nat) == id);
                assert(numbered(episodes[m], id));
                if m < k {
                    assert(!numbered(episodes[m], id));
                }
                if k < m {
                    assert(!(u64_at(episodes[k], "/id"@) matches Some(n) && decimal(n as nat) == id));
                }
            },
            None => {
                assert(!(u64_at(episodes[k], "/id"@) matches Some(n) && decimal(n as nat) == id));
            },
        }
    }
    if k == 0 && (forall|j: int|
        0 <= j < episodes.len() ==> !numbered(#[trigger] episodes[j], id)) {
        match episode_numbered(episodes, id, 0) {
            Some(e) => {
                let m = choose|m: int|
                    0 <= m < episodes.len() && #[trigger] episodes[m] == e && (u64_at(
                        episodes[m],
                        "/id"@,
                    ) matches Some(n) && decimal(n as nat) == id);
                assert(numbered(episodes[m], id));
            },
            None => {},
        }
    }
}

proof fn lemma_strings(items: Seq<Json>, n: int) -> (places: Seq<int>)
    requires
        0 <= n <= items.len(),
    ensures
        in_order(places, n),
        places.len() == strings_of(items, n).len(),
        forall|j: int|
            0 <= j < places.len() ==> text_value(Some(items[places[j]])) == Some(
                #[trigger] strings_of(items, n)[j],
            ),
        forall|k: int|
            0 <= k < n && text_value(Some(#[trigger] items[k])) is Some ==> places.contains(k),
    decreases n,
{
    if n <= 0 {
        Seq::empty()
    } else {
        let before = lemma_strings(items, n - 1);
        lemma_in_order_push(before, n - 1);
        let had = strings_of(items, n - 1);
        match text_value(Some(items[n - 1])) {
            Some(s) => {
                let places = before.push(n - 1);
                let all = strings_of(items, n);
                assert(all == had.push(s));
                assert forall|j: int| 0 <= j < places.len() implies text_value(
                    Some(items[places[j]]),
                ) == Some(#[trigger] all[j]) by {
                    if j < before.len() {
                        assert(all[j] == had[j]);
                        assert(places[j] == before[j]);
                    }
                }
                assert forall|k: int|
                    0 <= k < n && text_value(Some(#[trigger] items[k])) is Some implies places.contains(
                    k,
                ) by {
                    if k < n - 1 {
                        let q = choose|q: int| 0 <= q < before.len() && before[q] == k;
                        assert(places[q] == k);
                    } else {
                        assert(places[places.len() - 1] == k);
                    }
                }
                places
            },
            None => before,
        }
    }
}

/// The texts of a list are its entries that are texts, all of them, in order.
pub proof fn law_texts_of_list(value: Json, items: Seq<Json>) -> (places: Seq<int>)
    requires
        list_value(Some(value)) == Some(items),
    ensures
        in_order(places, items.len() as int),
        places.len() == strings_in(Some(value)).len(),
        forall|j: int|
            0 <= j < places.len() ==> text_value(Some(items[places[j]])) == Some(
                #[trigger] strings_in(Some(value))[j],
            ),
        forall|k: int|
            0 <= k < items.len() && text_value(Some(#[trigger] items[k])) is Some
                ==> places.contains(k),
{
    lemma_strings(items, items.len() as int)
}

/// Whether a text is an entry of a list.
pub open spec fn lists_text(value: Option<Json>, text: Seq<char>) -> bool {
    match list_value(value) {
        Some(items) => exists|k: int|
            0 <= k < items.len() && text_value(Some(#[trigger] items[k])) == Some(text),
        None => false,
    }
}

proof fn lemma_listed(value: Option<Json>, text: Seq<char>)
    ensures
        strings_in(value).contains(text) <==> lists_text(value, text),
{
    match list_value(value) {
        Some(items) => {
            let places = lemma_strings(items, items.len() as int);
            let all = strings_in(value);
            if all.contains(text) {
                let j = choose|j: int| 0 <= j < all.len() && all[j] == text;
                assert(text_value(Some(items[places[j]])) == Some(text));
            }
            if lists_text(value, text) {
                let k = choose|k: int|
                    0 <= k < items.len() && text_value(Some(#[trigger] items[k])) == Some(text);
                assert(places.contains(k));
                let j = choose|j: int| 0 <= j < places.len() && places[j] == k;
                assert(all[j] == text);
            }
        },
        None => {},
    }
}

/// The address of a stream.
pub open spec fn stream_address(stream: Json) -> Option<Seq<char>> {
    match str_at(stream, "/baseUrl"@) {
        Some(url) => Some(url),
        None => str_at(stream, "/base_url"@),
    }
}

/// Whether an address is a backup address of a stream.
pub open spec fn backup_of(stream: Json, url: Seq<char>) -> bool {
    if member(stream, "backupUrl"@) is Some {
        lists_text(member(stream, "backupUrl"@), url)
    } else {
        lists_text(member(stream, "backup_url"@), url)
    }
}

proof fn lemma_order(cdn: CdnView, url: Seq<char>, backups: Seq<Seq<char>>, other: Seq<char>)
    ensures
        ordered(cdn, url, backups).len() > 0,
        cdn is BaseUrl ==> ordered(cdn, url, backups)[0] == url,
        cdn is BackupUrl && backups.len() > 0 ==> ordered(cdn, url, backups)[0] == backups[0],
        other == url || backups.contains(other) ==> ordered(cdn, url, backups).contains(other),
        cdn !is Mirror && ordered(cdn, url, backups).contains(other) ==> other == url
            || backups.contains(other),
{
    law_all_addresses_tried(cdn, url, backups);
    let all = preferred(cdn, url, backups);
    lemma_distinct(all, all.len() as int);
    if backups.contains(other) {
        let i = choose|i: int| 0 <= i < backups.len() && backups[i] == other;
        assert(ordered(cdn, url, backups).contains(backups[i]));
    }
    if cdn !is Mirror && ordered(cdn, url, backups).contains(other) {
        let i = choose|i: int| 0 <= i < all.len() && all[i] == other;
        if cdn is BaseUrl {
            if i > 0 {
                assert(backups[i - 1] == other);
            }
        } else {
            if i < backups.len() {
                assert(backups[i] == other);
            }
        }
    }
}

proof fn lemma_all_distinct(all: Seq<Seq<char>>, n: int)
    requires
        all.no_duplicates(),
        0 <= n <= all.len(),
    ensures
        distinct_of(all, n) == all.take(n),
    decreases n,
{
    if n > 0 {
        lemma_all_distinct(all, n - 1);
        if all.take(n - 1).contains(all[n - 1]) {
            let i = choose|i: int|
                0 <= i < n - 1 && #[trigger] all.take(n - 1)[i] == all[n - 1];
            assert(all[i] == all[n - 1]);
        }
        assert(all.take(n) =~= all.take(n - 1).push(all[n - 1]));
    } else {
        assert(all.take(0) =~= Seq::empty());
    }
}

/// Addresses are tried in the order that the settings ask for: that which the API gave first and
/// its backups behind it, or the backups first, or that on a mirror before all others.
pub proof fn law_order_of_addresses(
    url: Seq<char>,
    backups: Seq<Seq<char>>,
    host: Seq<char>,
    mirrored: Seq<char>,
)
    requires
        (seq![mirrored, url] + backups).no_duplicates(),
    ensures
        ordered(CdnView::BaseUrl, url, backups) == seq![url] + backups,
        ordered(CdnView::BackupUrl, url, backups) == backups.push(url),
        url_with_host(url, host, None) == Some(mirrored) ==> ordered(
            CdnView::Mirror(host),
            url,
            backups,
        ) == seq![mirrored, url] + backups,
        url_with_host(url, host, None) is None ==> ordered(CdnView::Mirror(host), url, backups)
            == seq![url] + backups,
{
    let all = seq![mirrored, url] + backups;
    let given = seq![url] + backups;
    let turned = backups + seq![url];
    assert forall|i: int, j: int| 0 <= i < j < given.len() implies given[i] != given[j] by {
        assert(all[i + 1] == given[i] && all[j + 1] == given[j]);
    }
    assert forall|i: int, j: int| 0 <= i < j < turned.len() implies turned[i] != turned[j] by {
        assert(all[i + 2] == turned[i]);
        if j < backups.len() {
            assert(all[j + 2] == turned[j]);
        } else {
            assert(all[1] == turned[j]);
        }
    }
    lemma_all_distinct(all, all.len() as int);
    lemma_all_distinct(given, given.len() as int);
    lemma_all_distinct(turned, turned.len() as int);
    assert(all.take(all.len() as int) =~= all);
    assert(given.take(given.len() as int) =~= given);
    assert(turned.take(turned.len() as int) =~= backups.push(url));
    assert(seq![mirrored] + (seq![url] + backups) =~= all);
}

/// Whether an address is tried for a file.
pub open spec fn tried(first: Seq<char>, then: Seq<Seq<char>>, url: Seq<char>) -> bool {
    first == url || then.contains(url)
}

proof fn lemma_tried(urls: Seq<Seq<char>>, url: Seq<char>)
    requires
        urls.len() > 0,
    ensures
        tried(urls[0], urls.skip(1), url) <==> urls.contains(url),
{
    let rest = urls.skip(1);
    if rest.contains(url) {
        let i = choose|i: int| 0 <= i < rest.len() && rest[i] == url;
        assert(urls[i + 1] == url);
    }
    if urls.contains(url) {
        let i = choose|i: int| 0 <= i < urls.len() && urls[i] == url;
        if i > 0 {
            assert(rest[i - 1] == url);
        }
    }
}

/// A video in two streams is fetched from the picture that is chosen and the first sound: each
/// from its own address, with all its backup addresses behind it, and, without a mirror, from no
/// other.
pub proof fn law_video_streams_are_fetched(
    cdn: CdnView,
    max_size: u64,
    id: VideoIdView,
    p: Json,
    quality: u32,
    cookie: Option<Seq<char>>,
    taken: Json,
    other: Seq<char>,
)
    requires
        str_at(p, "/durl/0/url"@) is None,
        picture_stream(p, id.data, quality, max_size) == Some(taken),
        stream_address(taken) is Some,
    ensures
        match video_item_of(cdn, max_size, id, p, quality, cookie) {
            Some(m) => {
                &&& cdn is BaseUrl ==> m.source_url == stream_address(taken)->0
                &&& other == stream_address(taken)->0 || backup_of(taken, other) ==> tried(
                    m.source_url,
                    m.fallback_urls,
                    other,
                )
                &&& cdn !is Mirror && tried(m.source_url, m.fallback_urls, other) ==> other
                    == stream_address(taken)->0 || backup_of(taken, other)
                &&& m.height == (if u64_at(taken, "/height"@) is Some {
                    low_u32(u64_at(taken, "/height"@))
                } else {
                    low_u32(u64_at(id.data, "/dimension/height"@))
                })
                &&& m.width == (if u64_at(taken, "/width"@) is Some {
                    low_u32(u64_at(taken, "/width"@))
                } else {
                    low_u32(u64_at(id.data, "/dimension/width"@))
                })
                &&& m.size == u64_at(taken, "/size"@)
                &&& list_value(value_at(p, "/dash/audio"@)) matches Some(sounds) ==> {
                    if sounds.len() > 0 && stream_address(sounds[0]) is Some {
                        &&& m.secondary_url is Some
                        &&& cdn is BaseUrl ==> m.secondary_url == stream_address(sounds[0])
                        &&& other == stream_address(sounds[0])->0 || backup_of(sounds[0], other)
                            ==> tried(m.secondary_url->0, m.secondary_fallback_urls, other)
                        &&& cdn !is Mirror && tried(
                            m.secondary_url->0,
                            m.secondary_fallback_urls,
                            other,
                        ) ==> other == stream_address(sounds[0])->0 || backup_of(sounds[0], other)
                    } else {
                        m.secondary_url is None
                    }
                }
                &&& list_value(value_at(p, "/dash/audio"@)) is None ==> m.secondary_url is None
            },
            None => false,
        },
{
    let offer = offer_of(p, id.data, quality, max_size);
    let urls = source_order(cdn, offer.primary)->0;
    let value = if member(taken, "backupUrl"@) is Some {
        member(taken, "backupUrl"@)
    } else {
        member(taken, "backup_url"@)
    };
    lemma_listed(value, other);
    lemma_order(cdn, stream_address(taken)->0, offer.primary.backups, other);
    lemma_tried(urls, other);
    match list_value(value_at(p, "/dash/audio"@)) {
        Some(sounds) => {
            if sounds.len() > 0 && stream_address(sounds[0]) is Some {
                let sound = sounds[0];
                let second = offer.secondary->0;
                let backups = if member(sound, "backupUrl"@) is Some {
                    member(sound, "backupUrl"@)
                } else {
                    member(sound, "backup_url"@)
                };
                lemma_listed(backups, other);
                lemma_order(cdn, stream_address(sound)->0, second.backups, other);
                lemma_tried(source_order(cdn, second)->0, other);
            }
        },
        None => {},
    }
}

/// A video that is one file is fetched from the address of that file, with its backup addresses
/// behind it, and has no separate sound.
pub proof fn law_single_file_is_fetched(
    cdn: CdnView,
    max_size: u64,
    id: VideoIdView,
    p: Json,
    quality: u32,
    cookie: Option<Seq<char>>,
    url: Seq<char>,
    other: Seq<char>,
)
    requires
        str_at(p, "/durl/0/url"@) == Some(url),
    ensures
        match video_item_of(cdn, max_size, id, p, quality, cookie) {
            Some(m) => {
                &&& cdn is BaseUrl ==> m.source_url == url
                &&& other == url || lists_text(value_at(p, "/durl/0/backup_url"@), other) ==> tried(
                    m.source_url,
                    m.fallback_urls,
                    other,
                )
                &&& cdn !is Mirror && tried(m.source_url, m.fallback_urls, other) ==> other == url
                    || lists_text(value_at(p, "/durl/0/backup_url"@), other)
                &&& m.secondary_url is None && m.secondary_fallback_urls.len() == 0
                &&& m.size == u64_at(p, "/durl/0/size"@)
                &&& m.height == low_u32(u64_at(id.data, "/dimension/height"@))
                &&& m.width == low_u32(u64_at(id.data, "/dimension/width"@))
            },
            None => false,
        },
{
    let offer = offer_of(p, id.data, quality, max_size);
    lemma_listed(value_at(p, "/durl/0/backup_url"@), other);
    lemma_order(cdn, url, offer.primary.backups, other);
    lemma_tried(source_order(cdn, offer.primary)->0, other);
}

/// Whatever its streams, a video has the picture, the duration and the name of its description,
/// and is asked for as a page of Bilibili, with the login where there is one.
pub proof fn law_video_item(
    cdn: CdnView,
    max_size: u64,
    id: VideoIdView,
    p: Json,
    quality: u32,
    cookie: Option<Seq<char>>,
)
    ensures
        video_item_of(cdn, max_size, id, p, quality, cookie) matches Some(m) ==> {
            &&& m.kind == MediaKind::Video && m.requires_download
            &&& m.thumbnail_url == str_at(id.data, "/pic"@)
            &&& m.duration_secs == u64_at(id.data, "/duration"@)
            &&& m.mime_type == Some("video/mp4"@)
            &&& m.filename == "bilibili-"@ + id.bvid + ".mp4"@
            &&& m.headers.contains(("Referer"@, "https://www.bilibili.com/"@))
            &&& cookie matches Some(c) ==> m.headers.contains(("Cookie"@, c))
            &&& m.headers.len() == (if cookie is Some {
                2int
            } else {
                1int
            })
        },
{
    match video_item_of(cdn, max_size, id, p, quality, cookie) {
        Some(m) => {
            assert(m.headers[m.headers.len() - 1] == ("Referer"@, "https://www.bilibili.com/"@));
            if cookie is Some {
                assert(m.headers[0] == ("Cookie"@, cookie->0));
            }
        },
        None => {},
    }
}

/// A video has the title, the text, the author and the statistics of its description.
pub proof fn law_video_is_as_described(
    cdn: CdnView,
    max_size: u64,
    id: VideoIdView,
    play: Json,
    quality: u32,
    cookie: Option<Seq<char>>,
)
    ensures
        ({
            let c = video_content_of(cdn, max_size, id, play, quality, cookie);
            let d = id.data;
            &&& c.platform == Platform::Bilibili && c.kind == ContentKind::Video && c.id == id.bvid
            &&& c.canonical_url == "https://www.bilibili.com/video/"@ + id.bvid
            &&& str_at(d, "/title"@) matches Some(title) ==> c.title == title
            &&& str_at(d, "/desc"@) matches Some(text) ==> c.text == text
            &&& str_at(d, "/owner/name"@) matches Some(name) ==> c.author.name == name
            &&& c.author.avatar_url == str_at(d, "/owner/face"@)
            &&& u64_at(d, "/owner/mid"@) matches Some(n) ==> c.author.id == decimal(n as nat)
                && c.author.url == Some("https://space.bilibili.com/"@ + decimal(n as nat))
            &&& c.stats.likes == u64_at(d, "/stat/like"@)
            &&& c.stats.reposts == u64_at(d, "/stat/share"@)
            &&& c.stats.replies == u64_at(d, "/stat/reply"@)
            &&& c.stats.views == u64_at(d, "/stat/view"@)
            &&& !c.sensitive && c.collection_items.len() == 0
            &&& member(play, "data"@) matches Some(p) ==> match video_item_of(
                cdn,
                max_size,
                id,
                p,
                quality,
                cookie,
            ) {
                Some(m) => c.media =~= seq![m],
                None => c.media.len() == 0,
            }
        }),
{
}

/// A video is known by the part and the name in its description.
pub proof fn law_video_is_identified(name: Option<Seq<char>>, root: Json)
    ensures
        match video_id_of(name, root) {
            Ok(id) => {
                &&& member(root, "data"@) == Some(id.data)
                &&& u64_at(id.data, "/cid"@) == Some(id.cid)
                &&& str_at(id.data, "/bvid"@) matches Some(b) ==> id.bvid == b
                &&& str_at(id.data, "/bvid"@) is None && name is Some ==> id.bvid == name->0
            },
            Err(_) => member(root, "data"@) is None || u64_at(
                member(root, "data"@)->0,
                "/cid"@,
            ) is None,
        },
{
}

} // verus!
