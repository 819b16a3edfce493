//! Posts on X.
use vstd::prelude::*;

use crate::json::{list_value, member, value_at, Json};
use crate::model::{ContentKind, ErrorView, MediaItemView, MediaKind, ParsedContentView, Platform};
use crate::provider::x::{
    candidate_of, candidates_of, law_adult_word_marks, law_best_within, law_least_rate,
    selected_format, video_size, word_at, x_content_of, x_media, x_photo, x_photos, x_text, x_video,
    x_videos, FormatView,
};
use crate::provider::{list_at, low_u32, member_str, member_u64, str_at, u64_at};
use crate::text::{has_part, lowered};

use super::{in_order, lemma_in_order_all, lemma_in_order_push};

verus! {

/// Whether a medium is the photo of an entry of the list.
pub open spec fn photo_of_entry(m: MediaItemView, entry: Json) -> bool {
    &&& member_str(entry, "url"@) == Some(m.source_url)
    &&& m.width == low_u32(member_u64(entry, "width"@))
    &&& m.height == low_u32(member_u64(entry, "height"@))
    &&& m.kind == (if member_str(entry, "type"@) == Some("gif"@) {
        MediaKind::Animation
    } else {
        MediaKind::Photo
    })
    &&& !m.requires_download && m.headers.len() == 0 && m.fallback_urls.len() == 0
    &&& m.secondary_url is None && m.thumbnail_url is None && m.size is None
}

/// Whether a medium is the video of an entry of the list: it is fetched from one of the formats
/// of the entry, or from its own address where it offers no format.
pub open spec fn video_of_entry(m: MediaItemView, entry: Json) -> bool {
    &&& m.kind == (if member_str(entry, "type"@) == Some("gif"@) {
        MediaKind::Animation
    } else {
        MediaKind::Video
    })
    &&& m.thumbnail_url == member_str(entry, "thumbnail_url"@)
    &&& m.duration_secs == member_u64(entry, "duration"@)
    &&& m.mime_type == Some("video/mp4"@)
    &&& m.requires_download && m.headers.len() == 0 && m.secondary_url is None
    &&& offered_by(m.source_url, entry) || member_str(entry, "url"@) == Some(m.source_url)
}

/// Whether one of the formats of an entry has an address.
pub open spec fn offered_by(url: Seq<char>, entry: Json) -> bool {
    match list_value(member(entry, "formats"@)) {
        Some(formats) => exists|j: int|
            0 <= j < formats.len() && member_str(#[trigger] formats[j], "url"@) == Some(url),
        None => false,
    }
}

proof fn lemma_photos(id: Seq<char>, items: Seq<Json>, n: int) -> (places: Seq<int>)
    requires
        0 <= n <= items.len(),
    ensures
        in_order(places, n),
        places.len() == x_photos(id, items, n).len(),
        forall|j: int|
            0 <= j < places.len() ==> photo_of_entry(
                #[trigger] x_photos(id, items, n)[j],
                items[places[j]],
            ),
        forall|k: int|
            0 <= k < n && member_str(#[trigger] items[k], "url"@) is Some ==> places.contains(k),
    decreases n,
{
    if n <= 0 {
        Seq::empty()
    } else {
        let before = lemma_photos(id, items, n - 1);
        lemma_in_order_push(before, n - 1);
        let had = x_photos(id, items, n - 1);
        match x_photo(id, items[n - 1], n - 1) {
            Some(m) => {
                let places = before.push(n - 1);
                let all = x_photos(id, items, n);
                assert(all == had.push(m));
                assert(photo_of_entry(m, items[n - 1]));
                assert forall|j: int| 0 <= j < places.len() implies photo_of_entry(
                    #[trigger] all[j],
                    items[places[j]],
                ) by {
                    if j < before.len() {
                        assert(all[j] == had[j]);
                        assert(places[j] == before[j]);
                    }
                }
                assert forall|k: int|
                    0 <= k < n && member_str(#[trigger] items[k], "url"@) is Some implies places.contains(
                    k,
                ) by {
                    if k < n - 1 {
                        let p = choose|p: int| 0 <= p < before.len() && before[p] == k;
                        assert(places[p] == k);
                    } else {
                        assert(places[places.len() - 1] == k);
                    }
                }
                places
            },
            None => before,
        }
    }
}

proof fn lemma_candidates(formats: Seq<Json>, n: int, k: int)
    requires
        0 <= n <= formats.len(),
        0 <= k < candidates_of(formats, n).len(),
    ensures
        exists|j: int|
            0 <= j < n && candidate_of(#[trigger] formats[j]) == Some(candidates_of(formats, n)[k]),
    decreases n,
{
    if n > 0 {
        let had = candidates_of(formats, n - 1);
        match candidate_of(formats[n - 1]) {
            Some(c) => {
                if k < had.len() {
                    lemma_candidates(formats, n - 1, k);
                } else {
                    assert(candidates_of(formats, n)[k] == c);
                }
            },
            None => {
                lemma_candidates(formats, n - 1, k);
            },
        }
    }
}

proof fn lemma_candidate_is_listed(formats: Seq<Json>, n: int, j: int)
    requires
        0 <= j < n <= formats.len(),
        candidate_of(formats[j]) is Some,
    ensures
        candidates_of(formats, n).contains(candidate_of(formats[j])->0),
    decreases n,
{
    let c = candidate_of(formats[j])->0;
    if j == n - 1 {
        assert(candidates_of(formats, n)[candidates_of(formats, n).len() - 1] == c);
    } else {
        lemma_candidate_is_listed(formats, n - 1, j);
        let had = candidates_of(formats, n - 1);
        let at = choose|at: int| 0 <= at < had.len() && had[at] == c;
        assert(candidates_of(formats, n)[at] == c);
    }
}

/// Whether a format is an MP4 file that every client plays.
pub open spec fn playable(format: Json) -> bool {
    &&& member_str(format, "url"@) is Some
    &&& has_part(member_str(format, "url"@)->0, ".mp4"@)
    &&& !has_part(member_str(format, "url"@)->0, ".m3u8"@)
    &&& member_str(format, "codec"@) != Some("hevc"@)
    &&& member_str(format, "codec"@) != Some("vp9"@)
    &&& member_str(format, "codec"@) != Some("av1"@)
}

/// The shorter edge that a format gives.
pub open spec fn given_edge(format: Json) -> Option<int> {
    match (member_u64(format, "width"@), member_u64(format, "height"@)) {
        (Some(w), Some(h)) => if w <= u32::MAX && h <= u32::MAX {
            Some(
                if w <= h {
                    w as int
                } else {
                    h as int
                },
            )
        } else {
            None
        },
        _ => None,
    }
}

/// The file of a video is one of the playable formats of its entry, with the numbers of that
/// format, and there is one wherever there is a playable format.
pub proof fn law_selected_file_is_offered(item: Json, quality: u32, formats: Seq<Json>)
    requires
        list_value(member(item, "formats"@)) == Some(formats),
    ensures
        match selected_format(item, quality) {
            Some(f) => exists|j: int|
                0 <= j < formats.len() && playable(#[trigger] formats[j]) && member_str(
                    formats[j],
                    "url"@,
                ) == Some(f.url) && f.bitrate == member_u64(formats[j], "bitrate"@) && f.size
                    == member_u64(formats[j], "size"@) && (given_edge(formats[j]) is Some
                    ==> f.dimensions == Some(
                    (
                        member_u64(formats[j], "width"@)->0 as u32,
                        member_u64(formats[j], "height"@)->0 as u32,
                    ),
                )),
            None => forall|j: int| 0 <= j < formats.len() ==> !playable(#[trigger] formats[j]),
        },
{
    let n = formats.len() as int;
    let c = candidates_of(formats, n);
    law_best_within(c, quality, c.len() as int);
    law_least_rate(c, c.len() as int);
    match selected_format(item, quality) {
        Some(f) => {
            let k = choose|k: int| 0 <= k < c.len() && c[k] == f;
            lemma_candidates(formats, n, k);
            let j = choose|j: int| 0 <= j < n && candidate_of(#[trigger] formats[j]) == Some(f);
            assert(playable(formats[j]));
        },
        None => {
            assert forall|j: int| 0 <= j < n implies !playable(#[trigger] formats[j]) by {
                if playable(formats[j]) {
                    lemma_candidate_is_listed(formats, n, j);
                }
            }
        },
    }
}

/// The file of a video is as large as the quality limit allows: no playable format whose shorter
/// edge is within the limit has a longer one, and the file is not above the limit where one is
/// within it. Among files of the same size none has a higher bit rate.
pub proof fn law_selected_file_is_best(item: Json, quality: u32, formats: Seq<Json>, j: int)
    requires
        list_value(member(item, "formats"@)) == Some(formats),
        0 <= j < formats.len(),
        playable(formats[j]),
        given_edge(formats[j]) is Some,
        given_edge(formats[j])->0 <= quality,
    ensures
        match selected_format(item, quality) {
            Some(f) => match f.dimensions {
                Some(d) => {
                    let edge: int = if d.0 <= d.1 {
                        d.0 as int
                    } else {
                        d.1 as int
                    };
                    &&& given_edge(formats[j])->0 <= edge <= quality
                    &&& edge == given_edge(formats[j])->0 ==> (match (
                        member_u64(formats[j], "bitrate"@),
                        f.bitrate,
                    ) {
                        (Some(theirs), Some(ours)) => theirs <= ours,
                        (Some(theirs), None) => theirs == 0,
                        _ => true,
                    })
                },
                None => false,
            },
            None => false,
        },
{
    let n = formats.len() as int;
    let c = candidates_of(formats, n);
    law_best_within(c, quality, c.len() as int);
    lemma_candidate_is_listed(formats, n, j);
    let at = choose|at: int| 0 <= at < c.len() && c[at] == candidate_of(formats[j])->0;
}

/// The size of a video that is not given is its bit rate, in bits in a second, times its seconds,
/// in bytes.
pub proof fn law_video_size_is_in_bytes(item: Json, f: FormatView, rate: u64, seconds: u64)
    requires
        f.bitrate == Some(rate),
        member_u64(item, "duration"@) == Some(seconds),
        rate * seconds <= u64::MAX,
    ensures
        match video_size(item, Some(f)) {
            Some(size) => if f.size is Some {
                f.size == Some(size)
            } else if member_u64(item, "filesize"@) is Some {
                member_u64(item, "filesize"@) == Some(size)
            } else {
                8 * size <= rate * seconds < 8 * (size + 1)
            },
            None => false,
        },
{
}

proof fn lemma_video(id: Seq<char>, item: Json, quality: u32, index: int)
    ensures
        match x_video(id, item, quality, index) {
            Some(m) => {
                &&& video_of_entry(m, item)
                &&& match selected_format(item, quality) {
                    Some(f) => m.source_url == f.url && m.size == video_size(item, Some(f)) && (
                    f.dimensions matches Some(d) ==> m.width == Some(d.0) && m.height == Some(d.1)),
                    None => member_str(item, "url"@) == Some(m.source_url) && m.size == member_u64(
                        item,
                        "filesize"@,
                    ),
                }
            },
            None => selected_format(item, quality) is None && member_str(item, "url"@) is None,
        },
{
    match list_value(member(item, "formats"@)) {
        Some(formats) => {
            law_selected_file_is_offered(item, quality, formats);
        },
        None => {},
    }
}

proof fn lemma_videos(id: Seq<char>, items: Seq<Json>, quality: u32, n: int) -> (places: Seq<int>)
    requires
        0 <= n <= items.len(),
    ensures
        in_order(places, n),
        places.len() == x_videos(id, items, quality, n).len(),
        forall|j: int|
            0 <= j < places.len() ==> video_of_entry(
                #[trigger] x_videos(id, items, quality, n)[j],
                items[places[j]],
            ) && fetched_as_selected(
                x_videos(id, items, quality, n)[j],
                items[places[j]],
                quality,
            ),
        forall|k: int|
            0 <= k < n && has_file(#[trigger] items[k], quality) ==> places.contains(k),
    decreases n,
{
    if n <= 0 {
        Seq::empty()
    } else {
        let before = lemma_videos(id, items, quality, n - 1);
        lemma_in_order_push(before, n - 1);
        lemma_video(id, items[n - 1], quality, n - 1);
        let had = x_videos(id, items, quality, n - 1);
        match x_video(id, items[n - 1], quality, n - 1) {
            Some(m) => {
                let places = before.push(n - 1);
                let all = x_videos(id, items, quality, n);
                assert(all == had.push(m));
                assert forall|j: int| 0 <= j < places.len() implies video_of_entry(
                    #[trigger] all[j],
                    items[places[j]],
                ) && fetched_as_selected(all[j], items[places[j]], quality) by {
                    if j < before.len() {
                        assert(all[j] == had[j]);
                        assert(places[j] == before[j]);
                    }
                }
                assert forall|k: int|
                    0 <= k < n && has_file(#[trigger] items[k], quality) implies places.contains(
                    k,
                ) by {
                    if k < n - 1 {
                        let p = choose|p: int| 0 <= p < before.len() && before[p] == k;
                        assert(places[p] == k);
                    } else {
                        assert(places[places.len() - 1] == k);
                    }
                }
                places
            },
            None => before,
        }
    }
}

/// Whether an entry of the list of videos names a file.
pub open spec fn has_file(entry: Json, quality: u32) -> bool {
    selected_format(entry, quality) is Some || member_str(entry, "url"@) is Some
}

/// Whether a video is fetched from the file that is best for it.
pub open spec fn fetched_as_selected(m: MediaItemView, entry: Json, quality: u32) -> bool {
    match selected_format(entry, quality) {
        Some(f) => m.source_url == f.url && m.size == video_size(entry, Some(f)) && (
        f.dimensions matches Some(d) ==> m.width == Some(d.0) && m.height == Some(d.1)),
        None => member_str(entry, "url"@) == Some(m.source_url) && m.size == member_u64(
            entry,
            "filesize"@,
        ),
    }
}

/// A post shows its photos and then its videos, each in the order of the list: every medium comes
/// from an entry, and every entry with an address has its own medium, once. Where all entries have
/// an address, medium number `i` belongs to entry number `i`.
pub proof fn law_post_media(id: Seq<char>, status: Json, quality: u32) -> (places: (
    Seq<int>,
    Seq<int>,
))
    ensures
        ({
            let photos = list_at(status, "/media/photos"@);
            let videos = list_at(status, "/media/videos"@);
            let media = x_media(id, status, quality);
            &&& in_order(places.0, photos.len() as int)
            &&& in_order(places.1, videos.len() as int)
            &&& media.len() == places.0.len() + places.1.len()
            &&& forall|j: int|
                0 <= j < places.0.len() ==> photo_of_entry(
                    #[trigger] media[j],
                    photos[places.0[j]],
                )
            &&& forall|j: int|
                places.0.len() <= j < media.len() ==> video_of_entry(
                    #[trigger] media[j],
                    videos[places.1[j - places.0.len()]],
                ) && fetched_as_selected(media[j], videos[places.1[j - places.0.len()]], quality)
            &&& forall|k: int|
                0 <= k < photos.len() && member_str(#[trigger] photos[k], "url"@) is Some
                    ==> places.0.contains(k)
            &&& forall|k: int|
                0 <= k < videos.len() && has_file(#[trigger] videos[k], quality)
                    ==> places.1.contains(k)
            &&& (forall|k: int|
                0 <= k < photos.len() ==> member_str(#[trigger] photos[k], "url"@) is Some) ==> (
            places.0.len() == photos.len() && forall|i: int|
                0 <= i < photos.len() ==> photo_of_entry(#[trigger] media[i], photos[i]))
            &&& (forall|k: int| 0 <= k < videos.len() ==> has_file(#[trigger] videos[k], quality))
                ==> places.1.len() == videos.len() && forall|i: int|
                0 <= i < videos.len() ==> #[trigger] places.1[i] == i
        }),
{
    let photos = list_at(status, "/media/photos"@);
    let videos = list_at(status, "/media/videos"@);
    let media = x_media(id, status, quality);
    let first = x_photos(id, photos, photos.len() as int);
    let second = x_videos(id, videos, quality, videos.len() as int);
    let a = lemma_photos(id, photos, photos.len() as int);
    let b = lemma_videos(id, videos, quality, videos.len() as int);
    assert(media == first + second);
    assert forall|j: int| 0 <= j < a.len() implies photo_of_entry(
        #[trigger] media[j],
        photos[a[j]],
    ) by {
        assert(media[j] == first[j]);
    }
    assert forall|j: int| a.len() <= j < media.len() implies video_of_entry(
        #[trigger] media[j],
        videos[b[j - a.len()]],
    ) && fetched_as_selected(media[j], videos[b[j - a.len()]], quality) by {
        assert(media[j] == second[j - a.len()]);
    }
    if forall|k: int| 0 <= k < photos.len() ==> member_str(#[trigger] photos[k], "url"@) is Some {
        assert forall|k: int| 0 <= k < photos.len() implies a.contains(k) by {
            assert(member_str(photos[k], "url"@) is Some);
        }
        lemma_in_order_all(a, photos.len() as int);
    }
    if forall|k: int| 0 <= k < videos.len() ==> has_file(#[trigger] videos[k], quality) {
        assert forall|k: int| 0 <= k < videos.len() implies b.contains(k) by {
            assert(has_file(videos[k], quality));
        }
        lemma_in_order_all(b, videos.len() as int);
    }
    (a, b)
}

/// The photos and videos of a post have keys of their own, which name the post, the place in the
/// list, and for a video the quality limit.
pub proof fn law_media_keys_name_the_post(id: Seq<char>, item: Json, quality: u32, index: int)
    ensures
        x_photo(id, item, index) matches Some(m) ==> m.cache_key == "x:"@ + id + ":photo:"@
            + crate::text::decimal(index as nat),
        x_video(id, item, quality, index) matches Some(m) ==> m.cache_key == "x:"@ + id
            + ":video:"@ + crate::text::decimal(index as nat) + ":"@ + crate::text::decimal(
            quality as nat,
        ) + "p"@,
{
}

/// A post has the statistics, the author and the text of the document, and the media of its
/// lists, for the quality that is asked for or 720.
pub proof fn law_post_is_as_described(
    url: Seq<char>,
    quality: Option<u32>,
    id: Seq<char>,
    root: Json,
    status: Json,
)
    requires
        u64_at(root, "/code"@) == Some(200u64),
        member(root, "status"@) == Some(status),
    ensures
        match x_content_of(url, quality, id, root) {
            Ok(c) => {
                &&& c.platform == Platform::X && c.kind == ContentKind::Post && c.id == id
                &&& c.stats.likes == u64_at(status, "/likes"@)
                &&& c.stats.reposts == u64_at(status, "/reposts"@)
                &&& c.stats.replies == u64_at(status, "/replies"@)
                &&& c.stats.views == u64_at(status, "/views"@)
                &&& c.canonical_url == (if str_at(status, "/url"@) is Some {
                    str_at(status, "/url"@)->0
                } else {
                    url
                })
                &&& c.title.len() == 0 && c.collection_items.len() == 0
                &&& member(status, "author"@) matches Some(a) ==> {
                    &&& member_str(a, "name"@) matches Some(name) ==> c.author.name == name
                    &&& member_str(a, "id"@) matches Some(number) ==> c.author.id == number
                    &&& member_str(a, "screen_name"@) matches Some(name) ==> c.author.url == Some(
                        "https://x.com/"@ + name,
                    )
                    &&& member_str(a, "screen_name"@) is None ==> c.author.url is None
                    &&& c.author.avatar_url == member_str(a, "avatar_url"@)
                }
                &&& str_at(status, "/text"@) matches Some(text) ==> {
                    &&& str_at(status, "/quote/text"@) is None ==> c.text == text
                    &&& str_at(status, "/quote/text"@) matches Some(quote) ==> c.text == text
                        + "\n\n引用："@ + quote
                }
                &&& c.media == x_media(
                    id,
                    status,
                    match quality {
                        Some(q) => q,
                        None => 720u32,
                    },
                )
            },
            Err(_) => false,
        },
{
    match str_at(status, "/text"@) {
        Some(text) => {
            assert(text + Seq::<char>::empty() =~= text);
            match str_at(status, "/quote/text"@) {
                Some(quote) => {
                    assert(text + ("\n\n引用："@ + quote) =~= text + "\n\n引用："@ + quote);
                },
                None => {},
            }
        },
        None => {},
    }
}

/// Whether the document marks a post, what it quotes or its media, or one of the words of the
/// text is a marker.
pub open spec fn shows_sensitive(status: Json, text: Seq<char>) -> bool {
    ||| value_at(status, "/possibly_sensitive"@) == Some(Json::Bool(true))
    ||| value_at(status, "/sensitive"@) == Some(Json::Bool(true))
    ||| value_at(status, "/media/possibly_sensitive"@) == Some(Json::Bool(true))
    ||| value_at(status, "/quote/possibly_sensitive"@) == Some(Json::Bool(true))
    ||| exists|a: int, b: int|
        #[trigger] word_at(text, a, b) && is_marker(bare(text.subrange(a, b)))
}

/// A post is sensitive exactly where the document marks it or what it quotes, or its media, or
/// one of the words of the text is a marker.
pub proof fn law_post_is_sensitive(
    url: Seq<char>,
    quality: Option<u32>,
    id: Seq<char>,
    root: Json,
    status: Json,
)
    requires
        u64_at(root, "/code"@) == Some(200u64),
        member(root, "status"@) == Some(status),
    ensures
        match x_content_of(url, quality, id, root) {
            Ok(c) => c.sensitive == shows_sensitive(status, c.text),
            Err(_) => false,
        },
{
    let text = x_text(status);
    law_adult_word_marks(text);
    assert forall|w: Seq<char>| crate::provider::x::adult_word(w) == #[trigger] is_marker(
        bare(w),
    ) by {}
    if exists|a: int, b: int|
        #[trigger] word_at(text, a, b) && crate::provider::x::adult_word(text.subrange(a, b)) {
        let (a, b) = choose|a: int, b: int|
            #[trigger] word_at(text, a, b) && crate::provider::x::adult_word(text.subrange(a, b));
        assert(is_marker(bare(text.subrange(a, b))));
    }
    if exists|a: int, b: int|
        #[trigger] word_at(text, a, b) && is_marker(bare(text.subrange(a, b))) {
        let (a, b) = choose|a: int, b: int|
            #[trigger] word_at(text, a, b) && is_marker(bare(text.subrange(a, b)));
        assert(crate::provider::x::adult_word(text.subrange(a, b)));
    }
    assert forall|path: Seq<char>| #[trigger] crate::provider::x::flag_at(status, path) == (
    value_at(status, path) == Some(Json::Bool(true))) by {}
    let marked = exists|a: int, b: int|
        #[trigger] word_at(text, a, b) && is_marker(bare(text.subrange(a, b)));
    assert(marked == crate::provider::x::adult_marked(text));
    assert(crate::provider::x::x_sensitive(status) == (crate::provider::x::flag_at(
        status,
        "/possibly_sensitive"@,
    ) || crate::provider::x::flag_at(status, "/sensitive"@) || crate::provider::x::flag_at(
        status,
        "/media/possibly_sensitive"@,
    ) || crate::provider::x::flag_at(status, "/quote/possibly_sensitive"@) || marked));
}

/// A word without the number signs around it.
pub open spec fn bare(word: Seq<char>) -> Seq<char> {
    crate::text::trim_end_of(crate::text::trim_start_of(word, '#'), '#')
}

/// Whether a word, in whatever letters, is one that marks adult content.
pub open spec fn is_marker(word: Seq<char>) -> bool {
    let w = lowered(word);
    w == "r18"@ || w == "r-18"@ || w == "r18g"@ || w == "r-18g"@ || w == "nsfw"@ || w == "18+"@ || w
        == "成人向"@
}

/// A document that reports no success, or describes no post, gives no content.
pub proof fn law_missing_post_is_refused(
    url: Seq<char>,
    quality: Option<u32>,
    id: Seq<char>,
    root: Json,
)
    ensures
        u64_at(root, "/code"@) != Some(200u64) ==> x_content_of(url, quality, id, root)
            == Err::<ParsedContentView, ErrorView>(ErrorView::Unavailable(url)),
        x_content_of(url, quality, id, root) is Ok <==> u64_at(root, "/code"@) == Some(200u64)
            && member(root, "status"@) is Some,
{
}

} // verus!
