//! Posts on X, read through the FxTwitter API.
use vstd::prelude::*;

use crate::config::Config;
use crate::json::{bool_value, list_value, member, value_at, Json};
use crate::model::{
    bare_item, content_result, item_views, lemma_item_views_empty, lemma_item_views_push, new_item,
    Author, AuthorView, ContentKind, ErrorView, MediaItem, MediaItemView, MediaKind, ParseRequest,
    ParsedContent, ParsedContentView, Platform, ProviderError, ProviderResult, Stats,
};
use crate::outside::{capture_group, is_match, regex_found, regex_group};
use crate::text::{
    cat2, cat4, cat5, chars_of, contains, decimal, first_of, has_part, is_white, lower, lowered,
    number_text, opt_text, or_blank, or_empty, parse_number, parsed_number, same, text_of,
    trim_end_char, trim_end_of, trim_start_char, trim_start_of, white,
};

use super::{
    field_str, field_u64, filename_from_url, get_str, get_u64, host_of_link, in_domain,
    json_response, lies_in, link_host, list_at, low_u32, member_str, member_u64, product_u64,
    reply_document, saturating_product, str_at, to_u32, u64_at, url_filename, HttpReply,
    PlatformProvider, Provider,
};

verus! {

/// The links of posts; the group is the number of the post.
pub const X_LINK: &'static str =
    r"(?i)(?:https?://)?(?:www\.)?(?:x|twitter)\.com/[^/\s]+/status/(\d{2,20})";

/// The size of a video in its address.
pub const VIDEO_RESOLUTION: &'static str = r"/(\d{2,5})x(\d{2,5})/";

/// Whether a host belongs to X.
pub open spec fn x_host(host: Seq<char>) -> bool {
    in_domain(host, "x.com"@) || in_domain(host, "twitter.com"@)
}

pub fn is_x_host(host: &str) -> (r: bool)
    ensures
        r == x_host(host@),
{
    lies_in(host, "x.com") || lies_in(host, "twitter.com")
}

/// Whether a link is one of a post on X: it has the form of one, and its host belongs to
/// the platform.
pub open spec fn x_handles(url: Seq<char>) -> bool {
    regex_found(X_LINK@, url) && x_host(link_host(url))
}

/// The number of the post that a link names.
pub open spec fn x_id(url: Seq<char>) -> Option<Seq<char>> {
    regex_group(X_LINK@, url, 1)
}

/// The quality limit of videos where the request names none.
pub const X_DEFAULT_QUALITY: u32 = 720;

pub open spec fn x_quality(quality: Option<u32>) -> u32 {
    match quality {
        Some(q) => q,
        None => X_DEFAULT_QUALITY,
    }
}

#[derive(Debug)]
pub struct XProvider {
    pub base: String,
}

/// One of the files that a video is offered as.
#[derive(Debug, Clone)]
pub struct VideoFormat {
    pub url: String,
    pub dimensions: Option<(u32, u32)>,
    pub bitrate: Option<u64>,
    pub size: Option<u64>,
}

/// A video file with its address as plain characters.
#[verifier::ext_equal]
pub struct FormatView {
    pub url: Seq<char>,
    pub dimensions: Option<(u32, u32)>,
    pub bitrate: Option<u64>,
    pub size: Option<u64>,
}

impl View for VideoFormat {
    type V = FormatView;

    open spec fn view(&self) -> FormatView {
        FormatView {
            url: self.url@,
            dimensions: self.dimensions,
            bitrate: self.bitrate,
            size: self.size,
        }
    }
}

/// The width and height that an address names.
pub open spec fn url_dimensions(url: Seq<char>) -> Option<(u32, u32)> {
    match (regex_group(VIDEO_RESOLUTION@, url, 1), regex_group(VIDEO_RESOLUTION@, url, 2)) {
        (Some(w), Some(h)) => match (
            parsed_number(w, u32::MAX as nat),
            parsed_number(h, u32::MAX as nat),
        ) {
            (Some(w), Some(h)) => Some((w as u32, h as u32)),
            _ => None,
        },
        _ => None,
    }
}

/// The width and height of a video file: those that are given, where they fit into 32 bits, or
/// else those in its address.
pub open spec fn dimensions_of(format: Json, url: Seq<char>) -> Option<(u32, u32)> {
    match (member_u64(format, "width"@), member_u64(format, "height"@)) {
        (Some(w), Some(h)) => if w <= u32::MAX && h <= u32::MAX {
            Some((w as u32, h as u32))
        } else {
            url_dimensions(url)
        },
        _ => url_dimensions(url),
    }
}

/// Whether the codec of a video file is one that many clients do not play.
pub open spec fn excluded_codec(format: Json) -> bool {
    member_str(format, "codec"@) == Some("hevc"@) || member_str(format, "codec"@) == Some("vp9"@)
        || member_str(format, "codec"@) == Some("av1"@)
}

/// The video file that a format describes: an MP4 file of a common codec.
pub open spec fn candidate_of(format: Json) -> Option<FormatView> {
    if excluded_codec(format) {
        None
    } else {
        match member_str(format, "url"@) {
            Some(url) => if has_part(url, ".m3u8"@) || !has_part(url, ".mp4"@) {
                None
            } else {
                Some(
                    FormatView {
                        url,
                        dimensions: dimensions_of(format, url),
                        bitrate: member_u64(format, "bitrate"@),
                        size: member_u64(format, "size"@),
                    },
                )
            },
            None => None,
        }
    }
}

/// The video files among the first `n` formats.
pub open spec fn candidates_of(formats: Seq<Json>, n: int) -> Seq<FormatView>
    decreases n,
{
    if n <= 0 {
        Seq::empty()
    } else {
        match candidate_of(formats[n - 1]) {
            Some(c) => candidates_of(formats, n - 1).push(c),
            None => candidates_of(formats, n - 1),
        }
    }
}

/// The shorter edge.
pub open spec fn shorter(dimensions: (u32, u32)) -> u32 {
    if dimensions.0 <= dimensions.1 {
        dimensions.0
    } else {
        dimensions.1
    }
}

/// Whether the size of a video file is known and within the quality limit.
pub open spec fn within(c: FormatView, quality: u32) -> bool {
    c.dimensions is Some && shorter(c.dimensions->0) <= quality
}

/// Whether a video file is at least as good as another: by its shorter edge, and then by its
/// bit rate.
pub open spec fn as_good(c: FormatView, than: FormatView) -> bool {
    let a = shorter(c.dimensions->0);
    let b = shorter(than.dimensions->0);
    a > b || (a == b && rate_or(c.bitrate, 0) >= rate_or(than.bitrate, 0))
}

pub open spec fn rate_or(bitrate: Option<u64>, other: u64) -> u64 {
    match bitrate {
        Some(n) => n,
        None => other,
    }
}

/// The best of the first `n` video files within the quality limit; the last of equally good
/// ones.
pub open spec fn best_within(c: Seq<FormatView>, quality: u32, n: int) -> Option<FormatView>
    decreases n,
{
    if n <= 0 {
        None
    } else {
        match best_within(c, quality, n - 1) {
            Some(best) => if within(c[n - 1], quality) && as_good(c[n - 1], best) {
                Some(c[n - 1])
            } else {
                Some(best)
            },
            None => if within(c[n - 1], quality) {
                Some(c[n - 1])
            } else {
                None
            },
        }
    }
}

/// The first of the first `n` video files with the least bit rate; an unknown rate is the
/// highest.
pub open spec fn least_rate(c: Seq<FormatView>, n: int) -> Option<FormatView>
    decreases n,
{
    if n <= 0 {
        None
    } else {
        match least_rate(c, n - 1) {
            Some(best) => if rate_or(c[n - 1].bitrate, u64::MAX) < rate_or(best.bitrate, u64::MAX) {
                Some(c[n - 1])
            } else {
                Some(best)
            },
            None => Some(c[n - 1]),
        }
    }
}

/// The video file that is fetched: the best within the quality limit, or else the one with the
/// least bit rate.
pub open spec fn selected_format(item: Json, quality: u32) -> Option<FormatView> {
    match list_value(member(item, "formats"@)) {
        Some(formats) => {
            let c = candidates_of(formats, formats.len() as int);
            first_of(best_within(c, quality, c.len() as int), least_rate(c, c.len() as int))
        },
        None => None,
    }
}

/// The best video file is within the limit, is one of the files, and no other file within the
/// limit is better.
pub proof fn law_best_within(c: Seq<FormatView>, quality: u32, n: int)
    requires
        0 <= n <= c.len(),
    ensures
        match best_within(c, quality, n) {
            Some(best) => within(best, quality) && c.contains(best) && forall|i: int|
                0 <= i < n && within(#[trigger] c[i], quality) ==> as_good(best, c[i]),
            None => forall|i: int| 0 <= i < n ==> !within(#[trigger] c[i], quality),
        },
    decreases n,
{
    if n > 0 {
        law_best_within(c, quality, n - 1);
        assert(c.contains(c[n - 1]));
    }
}

/// The video file with the least bit rate is one of the files, and none has a lower bit rate,
/// where an unknown rate is the highest. There is one wherever there is a file.
pub proof fn law_least_rate(c: Seq<FormatView>, n: int)
    requires
        0 <= n <= c.len(),
    ensures
        match least_rate(c, n) {
            Some(best) => n > 0 && c.contains(best) && forall|i: int|
                0 <= i < n ==> rate_or(best.bitrate, u64::MAX) <= rate_or(
                    (#[trigger] c[i]).bitrate,
                    u64::MAX,
                ),
            None => n == 0,
        },
    decreases n,
{
    if n > 0 {
        law_least_rate(c, n - 1);
        assert(c.contains(c[n - 1]));
    }
}

/// Where no video file is within the limit, the one that is fetched has the least bit rate of
/// all; where one is, the one that is fetched is within the limit and none within it is better.
pub proof fn law_selected_format(item: Json, quality: u32)
    ensures
        match list_value(member(item, "formats"@)) {
            Some(formats) => {
                let c = candidates_of(formats, formats.len() as int);
                match selected_format(item, quality) {
                    Some(chosen) => c.contains(chosen) && if exists|i: int|
                        0 <= i < c.len() && within(#[trigger] c[i], quality) {
                        within(chosen, quality) && forall|i: int|
                            0 <= i < c.len() && within(#[trigger] c[i], quality) ==> as_good(
                                chosen,
                                c[i],
                            )
                    } else {
                        forall|i: int|
                            0 <= i < c.len() ==> rate_or(chosen.bitrate, u64::MAX) <= rate_or(
                                (#[trigger] c[i]).bitrate,
                                u64::MAX,
                            )
                    },
                    None => c.len() == 0,
                }
            },
            None => selected_format(item, quality) is None,
        },
{
    match list_value(member(item, "formats"@)) {
        Some(formats) => {
            let c = candidates_of(formats, formats.len() as int);
            law_best_within(c, quality, c.len() as int);
            law_least_rate(c, c.len() as int);
        },
        None => {},
    }
}

/// The characters of each video file of a list.
pub open spec fn format_views(formats: Seq<VideoFormat>) -> Seq<FormatView> {
    Seq::new(formats.len(), |i: int| formats[i]@)
}

fn format_dimensions(format: &Json, url: &str) -> (r: Option<(u32, u32)>)
    ensures
        r == dimensions_of(*format, url@),
{
    let width = field_u64(format, "width");
    let height = field_u64(format, "height");
    match (width, height) {
        (Some(w), Some(h)) => {
            if w <= u32::MAX as u64 && h <= u32::MAX as u64 {
                return Some((w as u32, h as u32));
            }
        },
        _ => {},
    }
    match (capture_group(VIDEO_RESOLUTION, url, 1), capture_group(VIDEO_RESOLUTION, url, 2)) {
        (Some(w), Some(h)) => match (
            parse_number(w.as_str(), u32::MAX as u64),
            parse_number(h.as_str(), u32::MAX as u64),
        ) {
            (Some(w), Some(h)) => Some((w as u32, h as u32)),
            _ => None,
        },
        _ => None,
    }
}

fn candidate(format: &Json) -> (r: Option<VideoFormat>)
    ensures
        (match r {
            Some(c) => Some(c@),
            None => None,
        }) == candidate_of(*format),
{
    match field_str(format, "codec") {
        Some(codec) => {
            let codec = codec.as_str();
            if same(codec, "hevc") || same(codec, "vp9") || same(codec, "av1") {
                return None;
            }
        },
        None => {},
    }
    match field_str(format, "url") {
        Some(url) => {
            if contains(url.as_str(), ".m3u8") || !contains(url.as_str(), ".mp4") {
                return None;
            }
            let dimensions = format_dimensions(format, url.as_str());
            Some(
                VideoFormat {
                    url,
                    dimensions,
                    bitrate: field_u64(format, "bitrate"),
                    size: field_u64(format, "size"),
                },
            )
        },
        None => None,
    }
}

fn copy_format(c: &VideoFormat) -> (r: VideoFormat)
    ensures
        r@ == c@,
{
    VideoFormat {
        url: c.url.clone(),
        dimensions: c.dimensions,
        bitrate: c.bitrate,
        size: c.size,
    }
}

fn rate(bitrate: Option<u64>, other: u64) -> (r: u64)
    ensures
        r == rate_or(bitrate, other),
{
    match bitrate {
        Some(n) => n,
        None => other,
    }
}

fn short_edge(dimensions: Option<(u32, u32)>) -> (r: Option<u32>)
    ensures
        r == (match dimensions {
            Some(d) => Some(shorter(d)),
            None => None,
        }),
{
    match dimensions {
        Some(d) => Some(
            if d.0 <= d.1 {
                d.0
            } else {
                d.1
            },
        ),
        None => None,
    }
}

fn better(c: &VideoFormat, than: &VideoFormat) -> (r: bool)
    requires
        c.dimensions is Some,
        than.dimensions is Some,
    ensures
        r == as_good(c@, than@),
{
    match (short_edge(c.dimensions), short_edge(than.dimensions)) {
        (Some(a), Some(b)) => a > b || (a == b && rate(c.bitrate, 0) >= rate(than.bitrate, 0)),
        _ => false,
    }
}

/// Selects the video file that is fetched.
pub fn select_video_format(item: &Json, quality: u32) -> (r: Option<VideoFormat>)
    ensures
        (match r {
            Some(c) => Some(c@),
            None => None,
        }) == selected_format(*item, quality),
{
    let formats = match item.get("formats") {
        Some(value) => match value.as_array() {
            Some(formats) => formats,
            None => {
                return None;
            },
        },
        None => {
            return None;
        },
    };
    let mut all: Vec<VideoFormat> = Vec::new();
    let mut i: usize = 0;
    assert(format_views(all@) =~= Seq::<FormatView>::empty());
    while i < formats.len()
        invariant
            i <= formats@.len(),
            format_views(all@) == candidates_of(formats@, i as int),
        decreases formats.len() - i,
    {
        match candidate(&formats[i]) {
            Some(c) => {
                let ghost before = all@;
                all.push(c);
                assert(format_views(all@) =~= format_views(before).push(c@));
            },
            None => {},
        }
        i += 1;
    }
    let ghost views = format_views(all@);
    let mut best: Option<usize> = None;
    let mut least: Option<usize> = None;
    let mut k: usize = 0;
    while k < all.len()
        invariant
            k <= all@.len(),
            views == format_views(all@),
            match best {
                Some(b) => b < all@.len() && all@[b as int].dimensions is Some && best_within(
                    views,
                    quality,
                    k as int,
                ) == Some(all@[b as int]@),
                None => best_within(views, quality, k as int) is None,
            },
            match least {
                Some(b) => b < all@.len() && least_rate(views, k as int) == Some(all@[b as int]@),
                None => least_rate(views, k as int) is None && k == 0,
            },
        decreases all.len() - k,
    {
        assert(views[k as int] == all@[k as int]@);
        let fits = match short_edge(all[k].dimensions) {
            Some(edge) => edge <= quality,
            None => false,
        };
        if fits {
            best = match best {
                Some(b) => if better(&all[k], &all[b]) {
                    Some(k)
                } else {
                    Some(b)
                },
                None => Some(k),
            };
        }
        least = match least {
            Some(b) => if rate(all[k].bitrate, u64::MAX) < rate(all[b].bitrate, u64::MAX) {
                Some(k)
            } else {
                Some(b)
            },
            None => Some(k),
        };
        k += 1;
    }
    match best {
        Some(b) => Some(copy_format(&all[b])),
        None => match least {
            Some(b) => Some(copy_format(&all[b])),
            None => None,
        },
    }
}

/// Whether an item is an animation.
pub open spec fn is_gif(item: Json) -> bool {
    member_str(item, "type"@) == Some("gif"@)
}

fn gif(item: &Json) -> (r: bool)
    ensures
        r == is_gif(*item),
{
    match field_str(item, "type") {
        Some(t) => same(t.as_str(), "gif"),
        None => false,
    }
}

/// The name of the file of a medium of a post, where its address has none.
pub open spec fn x_name(id: Seq<char>, index: int, extension: Seq<char>) -> Seq<char> {
    "x-"@ + id + "-"@ + decimal(index as nat) + extension
}

/// The photo that an item of the list describes.
pub open spec fn x_photo(id: Seq<char>, item: Json, index: int) -> Option<MediaItemView> {
    match member_str(item, "url"@) {
        Some(url) => Some(
            MediaItemView {
                width: low_u32(member_u64(item, "width"@)),
                height: low_u32(member_u64(item, "height"@)),
                requires_download: false,
                ..bare_item(
                    if is_gif(item) {
                        MediaKind::Animation
                    } else {
                        MediaKind::Photo
                    },
                    url,
                    url_filename(url, x_name(id, index, ".jpg"@)),
                    "x:"@ + id + ":photo:"@ + decimal(index as nat),
                )
            },
        ),
        None => None,
    }
}

/// The photos of the first `n` items.
pub open spec fn x_photos(id: Seq<char>, items: Seq<Json>, n: int) -> Seq<MediaItemView>
    decreases n,
{
    if n <= 0 {
        Seq::empty()
    } else {
        match x_photo(id, items[n - 1], n - 1) {
            Some(m) => x_photos(id, items, n - 1).push(m),
            None => x_photos(id, items, n - 1),
        }
    }
}

/// How many bytes a video file has: as it is given, or else by bit rate and duration.
pub open spec fn video_size(item: Json, selected: Option<FormatView>) -> Option<u64> {
    let given = match selected {
        Some(c) => first_of(c.size, member_u64(item, "filesize"@)),
        None => member_u64(item, "filesize"@),
    };
    if given is Some {
        given
    } else {
        match (selected, member_u64(item, "duration"@)) {
            (Some(c), Some(duration)) => match c.bitrate {
                Some(bitrate) => Some((product_u64(bitrate, duration) / 8) as u64),
                None => None,
            },
            _ => None,
        }
    }
}

/// The video that an item of the list describes.
pub open spec fn x_video(id: Seq<char>, item: Json, quality: u32, index: int) -> Option<
    MediaItemView,
> {
    let selected = selected_format(item, quality);
    let url = match selected {
        Some(c) => Some(c.url),
        None => member_str(item, "url"@),
    };
    let dimensions = match selected {
        Some(c) => c.dimensions,
        None => None,
    };
    match url {
        Some(url) => Some(
            MediaItemView {
                thumbnail_url: member_str(item, "thumbnail_url"@),
                mime_type: Some("video/mp4"@),
                duration_secs: member_u64(item, "duration"@),
                width: match dimensions {
                    Some(d) => Some(d.0),
                    None => low_u32(member_u64(item, "width"@)),
                },
                height: match dimensions {
                    Some(d) => Some(d.1),
                    None => low_u32(member_u64(item, "height"@)),
                },
                size: video_size(item, selected),
                ..bare_item(
                    if is_gif(item) {
                        MediaKind::Animation
                    } else {
                        MediaKind::Video
                    },
                    url,
                    url_filename(url, x_name(id, index, ".mp4"@)),
                    "x:"@ + id + ":video:"@ + decimal(index as nat) + ":"@ + decimal(
                        quality as nat,
                    ) + "p"@,
                )
            },
        ),
        None => None,
    }
}

/// The videos of the first `n` items.
pub open spec fn x_videos(id: Seq<char>, items: Seq<Json>, quality: u32, n: int) -> Seq<
    MediaItemView,
>
    decreases n,
{
    if n <= 0 {
        Seq::empty()
    } else {
        match x_video(id, items[n - 1], quality, n - 1) {
            Some(m) => x_videos(id, items, quality, n - 1).push(m),
            None => x_videos(id, items, quality, n - 1),
        }
    }
}

fn photo_item(id: &str, item: &Json, index: usize) -> (r: Option<MediaItem>)
    ensures
        (match r {
            Some(m) => Some(m@),
            None => None,
        }) == x_photo(id@, *item, index as int),
{
    match field_str(item, "url") {
        Some(url) => {
            let number = number_text(index as u64);
            let name = cat5("x-", id, "-", number.as_str(), ".jpg");
            let filename = filename_from_url(url.as_str(), name.as_str());
            let kind = if gif(item) {
                MediaKind::Animation
            } else {
                MediaKind::Photo
            };
            let mut m = new_item(kind, url, filename, cat4("x:", id, ":photo:", number.as_str()));
            m.width = to_u32(field_u64(item, "width"));
            m.height = to_u32(field_u64(item, "height"));
            m.requires_download = false;
            Some(m)
        },
        None => None,
    }
}

fn video_item(id: &str, item: &Json, quality: u32, index: usize) -> (r: Option<MediaItem>)
    ensures
        (match r {
            Some(m) => Some(m@),
            None => None,
        }) == x_video(id@, *item, quality, index as int),
{
    let selected = select_video_format(item, quality);
    let url = match &selected {
        Some(c) => Some(c.url.clone()),
        None => field_str(item, "url"),
    };
    let duration = field_u64(item, "duration");
    let dimensions: Option<(u32, u32)> = match &selected {
        Some(c) => c.dimensions,
        None => None,
    };
    let mut size: Option<u64> = match &selected {
        Some(c) => c.size,
        None => None,
    };
    if size.is_none() {
        size = field_u64(item, "filesize");
    }
    if size.is_none() {
        match (&selected, duration) {
            (Some(c), Some(duration)) => {
                match c.bitrate {
                    Some(bitrate) => {
                        size = Some(saturating_product(bitrate, duration) / 8);
                    },
                    None => {},
                }
            },
            _ => {},
        }
    }
    match url {
        Some(url) => {
            let number = number_text(index as u64);
            let name = cat5("x-", id, "-", number.as_str(), ".mp4");
            let filename = filename_from_url(url.as_str(), name.as_str());
            let kind = if gif(item) {
                MediaKind::Animation
            } else {
                MediaKind::Video
            };
            let mut key = cat5("x:", id, ":video:", number.as_str(), ":");
            key.append(number_text(quality as u64).as_str());
            key.append("p");
            let mut m = new_item(kind, url, filename, key);
            m.thumbnail_url = field_str(item, "thumbnail_url");
            m.mime_type = Some("video/mp4".to_owned());
            m.duration_secs = duration;
            m.width = match dimensions {
                Some(d) => Some(d.0),
                None => to_u32(field_u64(item, "width")),
            };
            m.height = match dimensions {
                Some(d) => Some(d.1),
                None => to_u32(field_u64(item, "height")),
            };
            m.size = size;
            Some(m)
        },
        None => None,
    }
}

/// Whether a character separates words of a post.
pub open spec fn separates(c: char) -> bool {
    is_white(c) || ",，。!！?？/\\|"@.contains(c)
}

/// Whether a word marks adult content; number signs around it do not matter.
pub open spec fn adult_word(word: Seq<char>) -> bool {
    let w = lowered(trim_end_of(trim_start_of(word, '#'), '#'));
    w == "r18"@ || w == "r-18"@ || w == "r18g"@ || w == "r-18g"@ || w == "nsfw"@ || w == "18+"@ || w
        == "成人向"@
}

/// The characters after the last separator among the first `n`.
pub open spec fn piece(s: Seq<char>, n: int) -> Seq<char>
    decreases n,
{
    if n <= 0 || separates(s[n - 1]) {
        Seq::empty()
    } else {
        piece(s, n - 1).push(s[n - 1])
    }
}

/// Whether one of the words that a separator ends among the first `n` characters marks adult
/// content.
pub open spec fn adult_before(s: Seq<char>, n: int) -> bool
    decreases n,
{
    n > 0 && (adult_before(s, n - 1) || (separates(s[n - 1]) && adult_word(piece(s, n - 1))))
}

/// Whether one of the words of a text marks adult content.
pub open spec fn adult_marked(s: Seq<char>) -> bool {
    adult_before(s, s.len() as int) || adult_word(piece(s, s.len() as int))
}

/// Whether a text has a word from number `a` up to number `b`: separators, or the ends of the
/// text, stand around it, and none within it.
pub open spec fn word_at(s: Seq<char>, a: int, b: int) -> bool {
    &&& 0 <= a <= b <= s.len()
    &&& a == 0 || separates(s[a - 1])
    &&& b == s.len() || separates(s[b])
    &&& forall|i: int| a <= i < b ==> !separates(#[trigger] s[i])
}

proof fn lemma_piece(s: Seq<char>, n: int) -> (a: int)
    requires
        0 <= n <= s.len(),
    ensures
        0 <= a <= n,
        a == 0 || separates(s[a - 1]),
        forall|i: int| a <= i < n ==> !separates(#[trigger] s[i]),
        piece(s, n) == s.subrange(a, n),
    decreases n,
{
    if n <= 0 || separates(s[n - 1]) {
        assert(s.subrange(n, n) =~= Seq::<char>::empty());
        n
    } else {
        let a = lemma_piece(s, n - 1);
        assert(s.subrange(a, n - 1).push(s[n - 1]) =~= s.subrange(a, n));
        a
    }
}

proof fn lemma_word_is_piece(s: Seq<char>, a: int, b: int)
    requires
        word_at(s, a, b),
    ensures
        piece(s, b) == s.subrange(a, b),
{
    let start = lemma_piece(s, b);
    if start < a {
        assert(!separates(s[a - 1]));
    } else if start > a {
        assert(!separates(s[start - 1]));
    }
}

proof fn lemma_adult_before(s: Seq<char>, n: int)
    requires
        0 <= n <= s.len(),
    ensures
        adult_before(s, n) <==> exists|a: int, b: int|
            #[trigger] word_at(s, a, b) && b < n && adult_word(s.subrange(a, b)),
    decreases n,
{
    if n > 0 {
        lemma_adult_before(s, n - 1);
        if separates(s[n - 1]) {
            let a = lemma_piece(s, n - 1);
            assert(word_at(s, a, n - 1));
        }
        if exists|a: int, b: int|
            #[trigger] word_at(s, a, b) && b < n && adult_word(s.subrange(a, b)) {
            let (a, b) = choose|a: int, b: int|
                #[trigger] word_at(s, a, b) && b < n && adult_word(s.subrange(a, b));
            lemma_word_is_piece(s, a, b);
        }
    }
}

/// A text is marked exactly where one of its whole words is a marker.
pub proof fn law_adult_word_marks(s: Seq<char>)
    ensures
        adult_marked(s) <==> exists|a: int, b: int|
            #[trigger] word_at(s, a, b) && adult_word(s.subrange(a, b)),
{
    let n = s.len() as int;
    lemma_adult_before(s, n);
    let last = lemma_piece(s, n);
    assert(word_at(s, last, n));
    if exists|a: int, b: int| #[trigger] word_at(s, a, b) && adult_word(s.subrange(a, b)) {
        let (a, b) = choose|a: int, b: int|
            #[trigger] word_at(s, a, b) && adult_word(s.subrange(a, b));
        lemma_word_is_piece(s, a, b);
        if b < n {
            assert(word_at(s, a, b) && b < n && adult_word(s.subrange(a, b)));
        }
    }
}

fn separator(c: char) -> (r: bool)
    ensures
        r == separates(c),
{
    if white(c) {
        return true;
    }
    let set = chars_of(",，。!！?？/\\|");
    let mut i: usize = 0;
    while i < set.len()
        invariant
            i <= set@.len(),
            set@ == ",，。!！?？/\\|"@,
            forall|j: int| 0 <= j < i ==> set@[j] != c,
            !is_white(c),
        decreases set.len() - i,
    {
        if set[i] == c {
            return true;
        }
        i += 1;
    }
    false
}

fn marks_adult(word: &Vec<char>) -> (r: bool)
    ensures
        r == adult_word(word@),
{
    let inner = trim_end_char(trim_start_char(text_of(word).as_str(), '#').as_str(), '#');
    let w = lower(inner.as_str());
    let w = w.as_str();
    same(w, "r18") || same(w, "r-18") || same(w, "r18g") || same(w, "r-18g") || same(w, "nsfw")
        || same(w, "18+") || same(w, "成人向")
}

/// Whether one of the words of a text marks adult content.
pub fn has_adult_marker(text: &str) -> (r: bool)
    ensures
        r == adult_marked(text@),
{
    let s = chars_of(text);
    let mut word: Vec<char> = Vec::new();
    let mut found = false;
    let mut i: usize = 0;
    while i < s.len()
        invariant
            i <= s@.len(),
            word@ == piece(s@, i as int),
            found == adult_before(s@, i as int),
        decreases s.len() - i,
    {
        if separator(s[i]) {
            found = found || marks_adult(&word);
            word = Vec::new();
        } else {
            word.push(s[i]);
        }
        i += 1;
    }
    found || marks_adult(&word)
}

/// The text of a post, with that of the post it quotes.
pub open spec fn x_text(status: Json) -> Seq<char> {
    or_blank(str_at(status, "/text"@)) + (match str_at(status, "/quote/text"@) {
        Some(q) => "\n\n引用："@ + q,
        None => Seq::empty(),
    })
}

/// Whether the truth value at a path is true.
pub open spec fn flag_at(value: Json, path: Seq<char>) -> bool {
    bool_value(value_at(value, path)) == Some(true)
}

fn flag(value: &Json, path: &str) -> (r: bool)
    ensures
        r == flag_at(*value, path@),
{
    match value.pointer(path) {
        Some(v) => match v.as_bool() {
            Some(b) => b,
            None => false,
        },
        None => false,
    }
}

/// Whether a post is sensitive: it is marked so, or its text has a marker.
pub open spec fn x_sensitive(status: Json) -> bool {
    flag_at(status, "/possibly_sensitive"@) || flag_at(status, "/sensitive"@) || flag_at(
        status,
        "/media/possibly_sensitive"@,
    ) || flag_at(status, "/quote/possibly_sensitive"@) || adult_marked(x_text(status))
}

/// The author of a post.
pub open spec fn x_author(status: Json) -> AuthorView {
    let author = match member(status, "author"@) {
        Some(a) => a,
        None => Json::Null,
    };
    AuthorView {
        id: or_blank(member_str(author, "id"@)),
        name: or_blank(member_str(author, "name"@)),
        url: match member_str(author, "screen_name"@) {
            Some(n) => Some("https://x.com/"@ + n),
            None => None,
        },
        avatar_url: member_str(author, "avatar_url"@),
    }
}

/// The photos and then the videos of a post.
pub open spec fn x_media(id: Seq<char>, status: Json, quality: u32) -> Seq<MediaItemView> {
    let photos = list_at(status, "/media/photos"@);
    let videos = list_at(status, "/media/videos"@);
    x_photos(id, photos, photos.len() as int) + x_videos(id, videos, quality, videos.len() as int)
}

/// The content of the reply to a request for a post.
pub open spec fn x_content_of(
    url: Seq<char>,
    quality: Option<u32>,
    id: Seq<char>,
    root: Json,
) -> Result<ParsedContentView, ErrorView> {
    if u64_at(root, "/code"@) != Some(200u64) {
        Err(ErrorView::Unavailable(url))
    } else {
        match member(root, "status"@) {
            None => Err(ErrorView::InvalidResponse("FxTwitter 缺少 status"@)),
            Some(status) => Ok(
                ParsedContentView {
                    platform: Platform::X,
                    kind: ContentKind::Post,
                    id,
                    canonical_url: match str_at(status, "/url"@) {
                        Some(canonical) => canonical,
                        None => url,
                    },
                    author: x_author(status),
                    title: Seq::empty(),
                    text: x_text(status),
                    sensitive: x_sensitive(status),
                    stats: Stats {
                        likes: u64_at(status, "/likes"@),
                        reposts: u64_at(status, "/reposts"@),
                        replies: u64_at(status, "/replies"@),
                        views: u64_at(status, "/views"@),
                    },
                    media: x_media(id, status, x_quality(quality)),
                    collection_items: Seq::empty(),
                },
            ),
        }
    }
}

fn author_in(status: &Json) -> (r: Author)
    ensures
        r@ == x_author(*status),
{
    let none = Json::Null;
    let author = match status.get("author") {
        Some(a) => a,
        None => &none,
    };
    Author {
        id: or_empty(field_str(author, "id")),
        name: or_empty(field_str(author, "name")),
        url: match field_str(author, "screen_name") {
            Some(n) => Some(cat2("https://x.com/", n.as_str())),
            None => None,
        },
        avatar_url: field_str(author, "avatar_url"),
    }
}

fn media_in(id: &str, status: &Json, quality: u32) -> (r: Vec<MediaItem>)
    ensures
        item_views(r@) == x_media(id@, *status, quality),
{
    broadcast use {lemma_item_views_push, lemma_item_views_empty};

    let none: Vec<Json> = Vec::new();
    let photos = match status.pointer("/media/photos") {
        Some(v) => match v.as_array() {
            Some(items) => items,
            None => &none,
        },
        None => &none,
    };
    let videos = match status.pointer("/media/videos") {
        Some(v) => match v.as_array() {
            Some(items) => items,
            None => &none,
        },
        None => &none,
    };
    let ghost photos_in = list_at(*status, "/media/photos"@);
    let ghost videos_in = list_at(*status, "/media/videos"@);
    assert(photos@ =~= photos_in);
    assert(videos@ =~= videos_in);
    let mut media: Vec<MediaItem> = Vec::new();
    let mut i: usize = 0;
    while i < photos.len()
        invariant
            i <= photos@.len(),
            item_views(media@) == x_photos(id@, photos@, i as int),
        decreases photos.len() - i,
    {
        broadcast use {lemma_item_views_push, lemma_item_views_empty};

        match photo_item(id, &photos[i], i) {
            Some(m) => {
                media.push(m);
            },
            None => {},
        }
        i += 1;
    }
    let ghost first = x_photos(id@, photos@, photos@.len() as int);
    let mut k: usize = 0;
    assert(first + x_videos(id@, videos@, quality, 0) =~= first);
    while k < videos.len()
        invariant
            k <= videos@.len(),
            item_views(media@) == first + x_videos(id@, videos@, quality, k as int),
        decreases videos.len() - k,
    {
        broadcast use {lemma_item_views_push, lemma_item_views_empty};

        let ghost before = x_videos(id@, videos@, quality, k as int);
        match video_item(id, &videos[k], quality, k) {
            Some(m) => {
                media.push(m);
                assert((first + before).push(m@) =~= first + before.push(m@));
            },
            None => {},
        }
        k += 1;
    }
    media
}

/// The content of a post from the document that describes it.
pub fn x_content(url: &str, quality: Option<u32>, id: &str, root: &Json) -> (r: ProviderResult<
    ParsedContent,
>)
    ensures
        content_result(r) == x_content_of(url@, quality, id@, *root),
{
    let success = match get_u64(root, "/code") {
        Some(code) => code == 200,
        None => false,
    };
    if !success {
        return Err(ProviderError::Unavailable(url.to_owned()));
    }
    let status = match root.get("status") {
        Some(status) => status,
        None => {
            return Err(ProviderError::InvalidResponse("FxTwitter 缺少 status".to_owned()));
        },
    };
    let mut text = or_empty(get_str(status, "/text"));
    match get_str(status, "/quote/text") {
        Some(q) => {
            text.append(cat2("\n\n引用：", q.as_str()).as_str());
        },
        None => {
            assert(text@ + Seq::<char>::empty() =~= text@);
        },
    }
    assert(text@ == x_text(*status));
    let sensitive = flag(status, "/possibly_sensitive") || flag(status, "/sensitive") || flag(
        status,
        "/media/possibly_sensitive",
    ) || flag(status, "/quote/possibly_sensitive") || has_adult_marker(text.as_str());
    let content = ParsedContent {
        platform: Platform::X,
        kind: ContentKind::Post,
        id: id.to_owned(),
        canonical_url: match get_str(status, "/url") {
            Some(canonical) => canonical,
            None => url.to_owned(),
        },
        author: author_in(status),
        title: String::new(),
        text,
        sensitive,
        stats: Stats {
            likes: get_u64(status, "/likes"),
            reposts: get_u64(status, "/reposts"),
            replies: get_u64(status, "/replies"),
            views: get_u64(status, "/views"),
        },
        media: media_in(
            id,
            status,
            match quality {
                Some(q) => q,
                None => X_DEFAULT_QUALITY,
            },
        ),
        collection_items: Vec::new(),
    };
    assert(content@.collection_items =~= Seq::<Seq<char>>::empty());
    assert(content@.title =~= Seq::<char>::empty());
    Ok(content)
}

/// The content of a post, or why there is none, by the reply of the server.
pub open spec fn x_parsed(url: Seq<char>, quality: Option<u32>, reply: HttpReply) -> Result<
    ParsedContentView,
    ErrorView,
> {
    match x_id(url) {
        None => Err(ErrorView::InvalidUrl(url)),
        Some(id) => match reply_document(reply, "FxTwitter"@) {
            Err(error) => Err(error),
            Ok(root) => x_content_of(url, quality, id, root),
        },
    }
}

/// Whether a provider is set up by the settings.
pub open spec fn x_by_config(provider: XProvider, config: Config) -> bool {
    provider.base@ == trim_end_of(config.fxtwitter_api_base@, '/')
}

impl XProvider {
    pub fn new(config: &Config) -> (r: XProvider)
        ensures
            x_by_config(r, *config),
    {
        XProvider { base: trim_end_char(config.fxtwitter_api_base.as_str(), '/') }
    }

    /// The number of the post that a link names.
    pub fn id(&self, url: &str) -> (r: Option<String>)
        ensures
            opt_text(r) == x_id(url@),
    {
        capture_group(X_LINK, url, 1)
    }

    /// The address from which a post is read.
    pub fn endpoint(&self, url: &str) -> (r: ProviderResult<String>)
        ensures
            match r {
                Ok(endpoint) => x_id(url@) is Some && endpoint@ == self.base@ + "/2/status/"@
                    + x_id(url@)->0,
                Err(error) => x_id(url@) is None && error@ == ErrorView::InvalidUrl(url@),
            },
    {
        match self.id(url) {
            Some(id) => Ok(crate::text::cat3(self.base.as_str(), "/2/status/", id.as_str())),
            None => Err(ProviderError::InvalidUrl(url.to_owned())),
        }
    }

    /// Parses the reply of the server to a request for a post.
    pub fn parse(&self, request: &ParseRequest, reply: &HttpReply) -> (r: ProviderResult<
        ParsedContent,
    >)
        ensures
            content_result(r) == x_parsed(request.url@, request.options.quality, *reply),
    {
        match self.id(request.url.as_str()) {
            Some(id) => match json_response(reply, "FxTwitter") {
                Ok(root) => x_content(
                    request.url.as_str(),
                    request.options.quality,
                    id.as_str(),
                    &root,
                ),
                Err(error) => Err(error),
            },
            None => Err(ProviderError::InvalidUrl(request.url.clone())),
        }
    }
}

impl Provider for XProvider {
    open spec fn platform_of(&self) -> Platform {
        Platform::X
    }

    open spec fn entry(&self) -> PlatformProvider {
        PlatformProvider::X(*self)
    }

    fn platform(&self) -> (r: Platform) {
        Platform::X
    }

    fn can_handle(&self, url: &str) -> (r: bool) {
        is_match(X_LINK, url) && is_x_host(host_of_link(url).as_str())
    }

    fn into_provider(self) -> (r: PlatformProvider) {
        PlatformProvider::X(self)
    }
}

} // verus!
