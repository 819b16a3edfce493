//! Videos and episodes: which of the streams is fetched, and how the video is described.
use vstd::prelude::*;

use crate::config::CdnView;
use crate::json::{list_value, member, target, text_value, value_at, Json};
use crate::model::{
    bare_item, item_views, lemma_item_views_empty, lemma_item_views_push, new_item, quality_limit,
    Author, AuthorView, ContentKind, ErrorView, MediaItem, MediaItemView, MediaKind, ParseOptions,
    ParsedContent, ParsedContentView, Platform, ProviderError, ProviderResult, Stats,
};
use crate::outside::{capture_group, regex_group};
use crate::provider::{
    get_str, get_u64, low_u32, product_u64, saturating_product, str_at, to_u32, u64_at,
};
use crate::text::{
    cat2, cat3, cat5, decimal, first_number, first_of, first_text, has_prefix, lemma_texts_empty,
    lemma_texts_push, lower, lowered, number_text, opt_text, or_blank, or_empty, pair_texts, same,
    starts_with, texts,
};

use super::cdn::ordered;
use super::{headers, media_headers, ApiCall, ApiCallView, BilibiliProvider, BVID};

verus! {

/// An episode or a season in an address. It has to be a whole part of the path, as the name of
/// a video may hold the same letters.
pub const BANGUMI_LINK: &'static str = r"(?i)/(ep|ss)(\d+)(?:[/?#]|$)";

/// The number of a video in an address.
pub const AV_LINK: &'static str = r"(?i)(?:/|^)av(\d+)";

/// What is asked about a video first.
#[derive(Debug)]
pub enum VideoQuestion {
    /// The episodes of a season; `episode` says whether the number is that of an episode.
    Season { episode: bool, id: String },
    /// The description, by name.
    ByName(String),
    /// The description, by number.
    ByNumber(String),
}

/// What is asked about a video first, as plain characters.
#[verifier::ext_equal]
pub enum QuestionView {
    Season { episode: bool, id: Seq<char> },
    ByName(Seq<char>),
    ByNumber(Seq<char>),
}

impl View for VideoQuestion {
    type V = QuestionView;

    open spec fn view(&self) -> QuestionView {
        match self {
            VideoQuestion::Season { episode, id } => QuestionView::Season {
                episode: *episode,
                id: id@,
            },
            VideoQuestion::ByName(s) => QuestionView::ByName(s@),
            VideoQuestion::ByNumber(s) => QuestionView::ByNumber(s@),
        }
    }
}

/// What is asked about the video that an address names.
pub open spec fn question_for(url: Seq<char>) -> Result<QuestionView, ErrorView> {
    match (regex_group(BANGUMI_LINK@, url, 1), regex_group(BANGUMI_LINK@, url, 2)) {
        (Some(word), Some(id)) => Ok(QuestionView::Season { episode: lowered(word) != "ss"@, id }),
        _ => match regex_group(BVID@, url, 1) {
            Some(name) => Ok(QuestionView::ByName(name)),
            None => match regex_group(AV_LINK@, url, 1) {
                Some(number) => Ok(QuestionView::ByNumber(number)),
                None => Err(ErrorView::InvalidUrl(url)),
            },
        },
    }
}

/// The request of a question.
pub open spec fn question_call(api_base: Seq<char>, question: QuestionView) -> ApiCallView {
    match question {
        QuestionView::Season { episode, id } => ApiCallView {
            url: api_base + "/pgc/view/web/season"@,
            query: seq![
                (
                    if episode {
                        "ep_id"@
                    } else {
                        "season_id"@
                    },
                    id,
                ),
            ],
        },
        QuestionView::ByName(name) => ApiCallView {
            url: api_base + "/x/web-interface/view"@,
            query: seq![("bvid"@, name)],
        },
        QuestionView::ByNumber(number) => ApiCallView {
            url: api_base + "/x/web-interface/view"@,
            query: seq![("aid"@, number)],
        },
    }
}

/// The first episode with a number, from number `i` on.
pub open spec fn episode_numbered(episodes: Seq<Json>, id: Seq<char>, i: int) -> Option<Json>
    decreases episodes.len() - i,
{
    if i < 0 || i >= episodes.len() {
        None
    } else if u64_at(episodes[i], "/id"@) is Some && decimal(
        u64_at(episodes[i], "/id"@)->0 as nat,
    ) == id {
        Some(episodes[i])
    } else {
        episode_numbered(episodes, id, i + 1)
    }
}

/// The page of the video of an episode: the one that is asked for, or else the first.
pub open spec fn season_video_of(url: Seq<char>, episode: bool, id: Seq<char>, root: Json) -> Result<
    Seq<char>,
    ErrorView,
> {
    match list_value(value_at(root, "/result/episodes"@)) {
        None => Err(ErrorView::Unavailable(url)),
        Some(episodes) => {
            let first = if episodes.len() > 0 {
                Some(episodes[0])
            } else {
                None
            };
            let chosen = if episode {
                first_of(episode_numbered(episodes, id, 0), first)
            } else {
                first
            };
            match chosen {
                None => Err(ErrorView::Unavailable(url)),
                Some(e) => match str_at(e, "/bvid"@) {
                    Some(bvid) => Ok("https://www.bilibili.com/video/"@ + bvid),
                    None => Err(ErrorView::InvalidResponse("番剧缺少 bvid"@)),
                },
            }
        },
    }
}

/// The quality code that is asked of the player.
pub open spec fn quality_code(quality: u32) -> Seq<char> {
    if quality >= 1080 {
        "80"@
    } else if quality >= 720 {
        "64"@
    } else if quality >= 480 {
        "32"@
    } else {
        "16"@
    }
}

pub fn quality_number(quality: u32) -> (r: &'static str)
    ensures
        r@ == quality_code(quality),
{
    if quality >= 1080 {
        "80"
    } else if quality >= 720 {
        "64"
    } else if quality >= 480 {
        "32"
    } else {
        "16"
    }
}

/// The description of a video in a reply, the number of its part, and its name.
#[verifier::ext_equal]
pub struct VideoIdView {
    pub data: Json,
    pub cid: u64,
    pub bvid: Seq<char>,
}

/// What a reply says about a video that was asked for by `name`.
pub open spec fn video_id_of(name: Option<Seq<char>>, root: Json) -> Result<VideoIdView, ErrorView> {
    match member(root, "data"@) {
        None => Err(ErrorView::InvalidResponse("视频详情缺少 data"@)),
        Some(data) => match u64_at(data, "/cid"@) {
            None => Err(ErrorView::InvalidResponse("视频详情缺少 cid"@)),
            Some(cid) => Ok(
                VideoIdView {
                    data,
                    cid,
                    bvid: match str_at(data, "/bvid"@) {
                        Some(b) => b,
                        None => or_blank(name),
                    },
                },
            ),
        },
    }
}

/// The request for the streams of a video.
pub open spec fn play_call(api_base: Seq<char>, bvid: Seq<char>, cid: u64, quality: u32) -> ApiCallView {
    ApiCallView {
        url: api_base + "/x/player/playurl"@,
        query: seq![
            ("bvid"@, bvid),
            ("cid"@, decimal(cid as nat)),
            ("qn"@, quality_code(quality)),
            ("fnval"@, "4048"@),
            ("fourk"@, "1"@),
        ],
    }
}

/// The texts among the first `n` items.
pub open spec fn strings_of(items: Seq<Json>, n: int) -> Seq<Seq<char>>
    decreases n,
{
    if n <= 0 {
        Seq::empty()
    } else {
        match text_value(Some(items[n - 1])) {
            Some(s) => strings_of(items, n - 1).push(s),
            None => strings_of(items, n - 1),
        }
    }
}

/// The texts of a list; none where there is no list.
pub open spec fn strings_in(value: Option<Json>) -> Seq<Seq<char>> {
    match list_value(value) {
        Some(items) => strings_of(items, items.len() as int),
        None => Seq::empty(),
    }
}

pub fn string_array(value: Option<&Json>) -> (r: Vec<String>)
    ensures
        texts(r@) == strings_in(target(value)),
{
    broadcast use {lemma_texts_push, lemma_texts_empty};

    let mut out: Vec<String> = Vec::new();
    let items = match value {
        Some(v) => match v.as_array() {
            Some(items) => items,
            None => {
                return out;
            },
        },
        None => {
            return out;
        },
    };
    let mut i: usize = 0;
    while i < items.len()
        invariant
            i <= items@.len(),
            texts(out@) == strings_of(items@, i as int),
        decreases items.len() - i,
    {
        broadcast use {lemma_texts_push, lemma_texts_empty};

        match items[i].as_str() {
            Some(s) => {
                out.push(s);
            },
            None => {},
        }
        i += 1;
    }
    out
}

/// How many bytes a stream has together with the sound, by their bit rates and the duration.
pub open spec fn estimated_size(stream: Json, audio: u64, duration: Option<u64>) -> Option<u64> {
    match (duration, u64_at(stream, "/bandwidth"@)) {
        (Some(d), Some(b)) => Some((product_u64(sum_rate(b, audio), d) / 8) as u64),
        _ => None,
    }
}

/// The sum, as far as the type reaches.
pub open spec fn sum_rate(a: u64, b: u64) -> u64 {
    if a + b <= u64::MAX {
        (a + b) as u64
    } else {
        u64::MAX
    }
}

pub fn estimated_stream_size(stream: &Json, audio_bandwidth: u64, duration_secs: Option<u64>) -> (r:
    Option<u64>)
    ensures
        r == estimated_size(*stream, audio_bandwidth, duration_secs),
{
    match (duration_secs, get_u64(stream, "/bandwidth")) {
        (Some(d), Some(b)) => Some(saturating_product(b.saturating_add(audio_bandwidth), d) / 8),
        _ => None,
    }
}

/// What is asked of a stream: a quality and a size that are not exceeded, or a codec that every
/// client plays.
#[derive(Debug, Clone, Copy)]
pub struct StreamRule {
    pub fitting: bool,
    pub avc: bool,
    pub target: u64,
    pub max_size: u64,
    pub audio: u64,
    pub duration: Option<u64>,
}

/// The height of a stream, or another value where it is unknown.
pub open spec fn height_or(stream: Json, other: u64) -> u64 {
    match u64_at(stream, "/height"@) {
        Some(h) => h,
        None => other,
    }
}

/// Whether a stream is coded in H.264.
pub open spec fn is_avc(stream: Json) -> bool {
    u64_at(stream, "/codecid"@) == Some(7u64) || (str_at(stream, "/codecs"@) is Some && has_prefix(
        str_at(stream, "/codecs"@)->0,
        "avc"@,
    ))
}

/// Whether a stream is what a rule asks for.
pub open spec fn obeys(stream: Json, rule: StreamRule) -> bool {
    let size = estimated_size(stream, rule.audio, rule.duration);
    &&& rule.avc ==> is_avc(stream)
    &&& rule.fitting ==> height_or(stream, u64::MAX) <= rule.target && (size is None || size->0
        <= rule.max_size)
}

/// The number of the highest of the first `n` streams that obey a rule; the last of equally
/// high ones.
pub open spec fn highest(streams: Seq<Json>, rule: StreamRule, n: int) -> Option<int>
    decreases n,
{
    if n <= 0 {
        None
    } else if !obeys(streams[n - 1], rule) {
        highest(streams, rule, n - 1)
    } else {
        match highest(streams, rule, n - 1) {
            Some(k) => if height_or(streams[n - 1], 0) >= height_or(streams[k], 0) {
                Some(n - 1)
            } else {
                Some(k)
            },
            None => Some(n - 1),
        }
    }
}

/// The number of the lowest of the first `n` streams that obey a rule; the first of equally low
/// ones.
pub open spec fn lowest(streams: Seq<Json>, rule: StreamRule, n: int) -> Option<int>
    decreases n,
{
    if n <= 0 {
        None
    } else if !obeys(streams[n - 1], rule) {
        lowest(streams, rule, n - 1)
    } else {
        match lowest(streams, rule, n - 1) {
            Some(k) => if height_or(streams[n - 1], u64::MAX) < height_or(streams[k], u64::MAX) {
                Some(n - 1)
            } else {
                Some(k)
            },
            None => Some(n - 1),
        }
    }
}

/// The number of the stream that is fetched: the highest fitting one in H.264, the highest
/// fitting one, the lowest in H.264, or the lowest.
pub open spec fn chosen_stream(streams: Seq<Json>, rule: StreamRule) -> Option<int> {
    let n = streams.len() as int;
    first_of(
        first_of(
            first_of(
                highest(streams, StreamRule { fitting: true, avc: true, ..rule }, n),
                highest(streams, StreamRule { fitting: true, avc: false, ..rule }, n),
            ),
            lowest(streams, StreamRule { fitting: false, avc: true, ..rule }, n),
        ),
        lowest(streams, StreamRule { fitting: false, avc: false, ..rule }, n),
    )
}

proof fn lemma_highest(streams: Seq<Json>, rule: StreamRule, n: int)
    requires
        0 <= n <= streams.len(),
    ensures
        match highest(streams, rule, n) {
            Some(k) => 0 <= k < n && obeys(streams[k], rule) && forall|i: int|
                0 <= i < n && obeys(#[trigger] streams[i], rule) ==> height_or(streams[i], 0)
                    <= height_or(streams[k], 0),
            None => forall|i: int| 0 <= i < n ==> !obeys(#[trigger] streams[i], rule),
        },
    decreases n,
{
    if n > 0 {
        lemma_highest(streams, rule, n - 1);
    }
}

proof fn lemma_lowest(streams: Seq<Json>, rule: StreamRule, n: int)
    requires
        0 <= n <= streams.len(),
    ensures
        match lowest(streams, rule, n) {
            Some(k) => 0 <= k < n && obeys(streams[k], rule) && forall|i: int|
                0 <= i < n && obeys(#[trigger] streams[i], rule) ==> height_or(
                    streams[i],
                    u64::MAX,
                ) >= height_or(streams[k], u64::MAX),
            None => forall|i: int| 0 <= i < n ==> !obeys(#[trigger] streams[i], rule),
        },
    decreases n,
{
    if n > 0 {
        lemma_lowest(streams, rule, n - 1);
    }
}

/// A stream is fetched wherever there is one. Where any stream fits, the one that is fetched
/// fits, and where one of those is in H.264, so is the one that is fetched; no fitting stream of
/// the same kind is higher. Where none fits, the one that is fetched is in H.264 if any stream is,
/// and no stream of the same kind is lower.
pub proof fn law_chosen_stream(streams: Seq<Json>, rule: StreamRule)
    ensures
        chosen_stream(streams, rule) is Some <==> streams.len() > 0,
        chosen_stream(streams, rule) matches Some(k) ==> {
            let fitting = StreamRule { fitting: true, avc: false, ..rule };
            let best = StreamRule { fitting: true, avc: true, ..rule };
            &&& 0 <= k < streams.len()
            &&& (exists|i: int| 0 <= i < streams.len() && obeys(#[trigger] streams[i], fitting))
                ==> obeys(streams[k], fitting)
            &&& (exists|i: int| 0 <= i < streams.len() && obeys(#[trigger] streams[i], best))
                ==> obeys(streams[k], best)
            &&& forall|i: int|
                0 <= i < streams.len() && obeys(#[trigger] streams[i], fitting) && obeys(
                    streams[k],
                    fitting,
                ) && (is_avc(streams[i]) || !is_avc(streams[k])) ==> height_or(streams[i], 0)
                    <= height_or(streams[k], 0)
            &&& (forall|i: int| 0 <= i < streams.len() ==> !obeys(#[trigger] streams[i], fitting))
                ==> {
                &&& (exists|i: int| 0 <= i < streams.len() && is_avc(#[trigger] streams[i]))
                    ==> is_avc(streams[k])
                &&& forall|i: int|
                    0 <= i < streams.len() && (is_avc(#[trigger] streams[i]) || !is_avc(
                        streams[k],
                    )) ==> height_or(streams[k], u64::MAX) <= height_or(streams[i], u64::MAX)
            }
        },
{
    let n = streams.len() as int;
    lemma_highest(streams, StreamRule { fitting: true, avc: true, ..rule }, n);
    lemma_highest(streams, StreamRule { fitting: true, avc: false, ..rule }, n);
    lemma_lowest(streams, StreamRule { fitting: false, avc: true, ..rule }, n);
    lemma_lowest(streams, StreamRule { fitting: false, avc: false, ..rule }, n);
    if n > 0 {
        assert(obeys(streams[0], StreamRule { fitting: false, avc: false, ..rule }));
    }
    let fitting = StreamRule { fitting: true, avc: false, ..rule };
    let best = StreamRule { fitting: true, avc: true, ..rule };
    assert forall|i: int| 0 <= i < n && obeys(#[trigger] streams[i], fitting) && is_avc(
        streams[i],
    ) implies obeys(streams[i], best) by {}
    if forall|i: int| 0 <= i < n ==> !obeys(#[trigger] streams[i], fitting) {
        let low = StreamRule { fitting: false, avc: true, ..rule };
        let any = StreamRule { fitting: false, avc: false, ..rule };
        assert forall|i: int| 0 <= i < n implies !obeys(#[trigger] streams[i], best) by {
            assert(!obeys(streams[i], fitting));
        }
        assert forall|i: int| 0 <= i < n implies obeys(#[trigger] streams[i], any) && obeys(
            streams[i],
            low,
        ) == is_avc(streams[i]) by {}
    }
}

fn avc(stream: &Json) -> (r: bool)
    ensures
        r == is_avc(*stream),
{
    let by_number = match get_u64(stream, "/codecid") {
        Some(n) => n == 7,
        None => false,
    };
    let by_name = match get_str(stream, "/codecs") {
        Some(codec) => starts_with(codec.as_str(), "avc"),
        None => false,
    };
    by_number || by_name
}

fn height(stream: &Json, other: u64) -> (r: u64)
    ensures
        r == height_or(*stream, other),
{
    match get_u64(stream, "/height") {
        Some(h) => h,
        None => other,
    }
}

fn suits(stream: &Json, rule: &StreamRule) -> (r: bool)
    ensures
        r == obeys(*stream, *rule),
{
    if rule.avc && !avc(stream) {
        return false;
    }
    if rule.fitting {
        if height(stream, u64::MAX) > rule.target {
            return false;
        }
        match estimated_stream_size(stream, rule.audio, rule.duration) {
            Some(size) => {
                if size > rule.max_size {
                    return false;
                }
            },
            None => {},
        }
    }
    true
}

fn find_highest(streams: &Vec<Json>, rule: &StreamRule) -> (r: Option<usize>)
    ensures
        match r {
            Some(k) => k < streams@.len() && highest(streams@, *rule, streams@.len() as int) == Some(
                k as int,
            ),
            None => highest(streams@, *rule, streams@.len() as int) is None,
        },
{
    let mut best: Option<usize> = None;
    let mut i: usize = 0;
    while i < streams.len()
        invariant
            i <= streams@.len(),
            match best {
                Some(k) => k < streams@.len() && highest(streams@, *rule, i as int) == Some(
                    k as int,
                ),
                None => highest(streams@, *rule, i as int) is None,
            },
        decreases streams.len() - i,
    {
        if suits(&streams[i], rule) {
            best = match best {
                Some(k) => if height(&streams[i], 0) >= height(&streams[k], 0) {
                    Some(i)
                } else {
                    Some(k)
                },
                None => Some(i),
            };
        }
        i += 1;
    }
    best
}

fn find_lowest(streams: &Vec<Json>, rule: &StreamRule) -> (r: Option<usize>)
    ensures
        match r {
            Some(k) => k < streams@.len() && lowest(streams@, *rule, streams@.len() as int) == Some(
                k as int,
            ),
            None => lowest(streams@, *rule, streams@.len() as int) is None,
        },
{
    let mut best: Option<usize> = None;
    let mut i: usize = 0;
    while i < streams.len()
        invariant
            i <= streams@.len(),
            match best {
                Some(k) => k < streams@.len() && lowest(streams@, *rule, i as int) == Some(
                    k as int,
                ),
                None => lowest(streams@, *rule, i as int) is None,
            },
        decreases streams.len() - i,
    {
        if suits(&streams[i], rule) {
            best = match best {
                Some(k) => if height(&streams[i], u64::MAX) < height(&streams[k], u64::MAX) {
                    Some(i)
                } else {
                    Some(k)
                },
                None => Some(i),
            };
        }
        i += 1;
    }
    best
}

/// Chooses the stream that is fetched.
pub fn choose_stream(streams: &Vec<Json>, rule: &StreamRule) -> (r: Option<usize>)
    ensures
        match r {
            Some(k) => k < streams@.len() && chosen_stream(streams@, *rule) == Some(k as int),
            None => chosen_stream(streams@, *rule) is None,
        },
{
    let mut best = StreamRule {
        fitting: true,
        avc: true,
        target: rule.target,
        max_size: rule.max_size,
        audio: rule.audio,
        duration: rule.duration,
    };
    let found = find_highest(streams, &best);
    if found.is_some() {
        return found;
    }
    best.avc = false;
    let found = find_highest(streams, &best);
    if found.is_some() {
        return found;
    }
    best.fitting = false;
    best.avc = true;
    let found = find_lowest(streams, &best);
    if found.is_some() {
        return found;
    }
    best.avc = false;
    find_lowest(streams, &best)
}

/// The addresses of a file that a stream describes, before they are put in order.
#[verifier::ext_equal]
pub struct SourceView {
    pub url: Option<Seq<char>>,
    pub backups: Seq<Seq<char>>,
}

/// The addresses of a stream.
pub open spec fn stream_source(stream: Json) -> SourceView {
    SourceView {
        url: first_of(str_at(stream, "/baseUrl"@), str_at(stream, "/base_url"@)),
        backups: strings_in(first_of(member(stream, "backupUrl"@), member(stream, "backup_url"@))),
    }
}

/// What the player offers of a video: a file with sound, or a picture stream and a sound
/// stream.
#[verifier::ext_equal]
pub struct OfferView {
    pub primary: SourceView,
    pub secondary: Option<SourceView>,
    pub width: Option<u32>,
    pub height: Option<u32>,
    pub size: Option<u64>,
}

/// What rules the choice among the streams of a video.
pub open spec fn stream_rule(p: Json, data: Json, quality: u32, max_size: u64) -> StreamRule {
    StreamRule {
        fitting: true,
        avc: true,
        target: quality as u64,
        max_size,
        audio: match u64_at(p, "/dash/audio/0/bandwidth"@) {
            Some(n) => n,
            None => 0,
        },
        duration: first_of(u64_at(p, "/dash/duration"@), u64_at(data, "/duration"@)),
    }
}

/// The stream that is fetched.
pub open spec fn picture_stream(p: Json, data: Json, quality: u32, max_size: u64) -> Option<Json> {
    match list_value(value_at(p, "/dash/video"@)) {
        Some(streams) => match chosen_stream(streams, stream_rule(p, data, quality, max_size)) {
            Some(k) => Some(streams[k]),
            None => None,
        },
        None => None,
    }
}

/// The sound stream: the first.
pub open spec fn sound_stream(p: Json) -> Option<Json> {
    match list_value(value_at(p, "/dash/audio"@)) {
        Some(streams) => if streams.len() > 0 {
            Some(streams[0])
        } else {
            None
        },
        None => None,
    }
}

/// What is fetched of a video.
pub open spec fn offer_of(p: Json, data: Json, quality: u32, max_size: u64) -> OfferView {
    if str_at(p, "/durl/0/url"@) is Some {
        OfferView {
            primary: SourceView {
                url: str_at(p, "/durl/0/url"@),
                backups: strings_in(value_at(p, "/durl/0/backup_url"@)),
            },
            secondary: None,
            width: None,
            height: None,
            size: u64_at(p, "/durl/0/size"@),
        }
    } else {
        let sound = match sound_stream(p) {
            Some(audio) => Some(stream_source(audio)),
            None => None,
        };
        match picture_stream(p, data, quality, max_size) {
            Some(stream) => OfferView {
                primary: stream_source(stream),
                secondary: sound,
                width: low_u32(u64_at(stream, "/width"@)),
                height: low_u32(u64_at(stream, "/height"@)),
                size: u64_at(stream, "/size"@),
            },
            None => OfferView {
                primary: SourceView {
                    url: None,
                    backups: strings_in(value_at(p, "/durl/0/backup_url"@)),
                },
                secondary: sound,
                width: None,
                height: None,
                size: u64_at(p, "/durl/0/size"@),
            },
        }
    }
}

/// A file whose addresses are in order.
pub open spec fn source_order(cdn: CdnView, source: SourceView) -> Option<Seq<Seq<char>>> {
    match source.url {
        Some(url) => Some(ordered(cdn, url, source.backups)),
        None => None,
    }
}

/// The video as a medium; none where there is no address of it.
pub open spec fn video_item_of(
    cdn: CdnView,
    max_size: u64,
    id: VideoIdView,
    p: Json,
    quality: u32,
    cookie: Option<Seq<char>>,
) -> Option<MediaItemView> {
    let offer = offer_of(p, id.data, quality, max_size);
    let second = match offer.secondary {
        Some(s) => source_order(cdn, s),
        None => None,
    };
    match source_order(cdn, offer.primary) {
        Some(urls) => Some(
            MediaItemView {
                fallback_urls: urls.skip(1),
                secondary_url: match second {
                    Some(s) => Some(s[0]),
                    None => None,
                },
                secondary_fallback_urls: match (offer.secondary, second) {
                    (Some(_), Some(s)) => s.skip(1),
                    (Some(s), None) => s.backups,
                    _ => Seq::empty(),
                },
                thumbnail_url: str_at(id.data, "/pic"@),
                mime_type: Some("video/mp4"@),
                duration_secs: u64_at(id.data, "/duration"@),
                width: first_of(offer.width, low_u32(u64_at(id.data, "/dimension/width"@))),
                height: first_of(offer.height, low_u32(u64_at(id.data, "/dimension/height"@))),
                size: offer.size,
                headers: media_headers(cookie),
                ..bare_item(
                    MediaKind::Video,
                    urls[0],
                    "bilibili-"@ + id.bvid + ".mp4"@,
                    "bilibili:"@ + id.bvid + ":"@ + quality_code(quality) + ":"@ + decimal(
                        (match offer.height {
                            Some(h) => h,
                            None => quality,
                        }) as nat,
                    ) + "p"@,
                )
            },
        ),
        None => None,
    }
}

/// A member of Bilibili by number, name and picture.
pub open spec fn space_author(
    mid: Option<u64>,
    name: Option<Seq<char>>,
    avatar: Option<Seq<char>>,
) -> AuthorView {
    AuthorView {
        id: match mid {
            Some(n) => decimal(n as nat),
            None => Seq::empty(),
        },
        name: or_blank(name),
        url: match mid {
            Some(n) => Some("https://space.bilibili.com/"@ + decimal(n as nat)),
            None => None,
        },
        avatar_url: avatar,
    }
}

pub fn member_author(mid: Option<u64>, name: Option<String>, avatar: Option<String>) -> (r: Author)
    ensures
        r@ == space_author(mid, opt_text(name), opt_text(avatar)),
{
    let blank = String::new();
    assert(blank@ =~= Seq::<char>::empty());
    Author {
        id: match mid {
            Some(n) => number_text(n),
            None => blank,
        },
        name: or_empty(name),
        url: match mid {
            Some(n) => Some(cat2("https://space.bilibili.com/", number_text(n).as_str())),
            None => None,
        },
        avatar_url: avatar,
    }
}

/// The streams in the reply of the player.
pub open spec fn play_data(play: Json) -> Json {
    match member(play, "data"@) {
        Some(p) => p,
        None => Json::Null,
    }
}

/// The content of a video.
pub open spec fn video_content_of(
    cdn: CdnView,
    max_size: u64,
    id: VideoIdView,
    play: Json,
    quality: u32,
    cookie: Option<Seq<char>>,
) -> ParsedContentView {
    ParsedContentView {
        platform: Platform::Bilibili,
        kind: ContentKind::Video,
        id: id.bvid,
        canonical_url: "https://www.bilibili.com/video/"@ + id.bvid,
        author: space_author(
            u64_at(id.data, "/owner/mid"@),
            str_at(id.data, "/owner/name"@),
            str_at(id.data, "/owner/face"@),
        ),
        title: or_blank(str_at(id.data, "/title"@)),
        text: or_blank(str_at(id.data, "/desc"@)),
        sensitive: false,
        stats: Stats {
            likes: u64_at(id.data, "/stat/like"@),
            reposts: u64_at(id.data, "/stat/share"@),
            replies: u64_at(id.data, "/stat/reply"@),
            views: u64_at(id.data, "/stat/view"@),
        },
        media: match video_item_of(cdn, max_size, id, play_data(play), quality, cookie) {
            Some(m) => seq![m],
            None => Seq::empty(),
        },
        collection_items: Seq::empty(),
    }
}

/// The addresses of a file.
#[derive(Debug)]
struct Source {
    url: Option<String>,
    backups: Vec<String>,
}

impl Source {
    spec fn model(&self) -> SourceView {
        SourceView { url: opt_text(self.url), backups: texts(self.backups@) }
    }
}

#[derive(Debug)]
struct Offer {
    primary: Source,
    secondary: Option<Source>,
    width: Option<u32>,
    height: Option<u32>,
    size: Option<u64>,
}

impl Offer {
    spec fn model(&self) -> OfferView {
        OfferView {
            primary: self.primary.model(),
            secondary: match self.secondary {
                Some(s) => Some(s.model()),
                None => None,
            },
            width: self.width,
            height: self.height,
            size: self.size,
        }
    }
}

fn first_member<'a>(first: Option<&'a Json>, second: Option<&'a Json>) -> (r: Option<&'a Json>)
    ensures
        target(r) == first_of(target(first), target(second)),
{
    if first.is_some() {
        first
    } else {
        second
    }
}

fn source_in(stream: &Json) -> (r: Source)
    ensures
        r.model() == stream_source(*stream),
{
    Source {
        url: first_text(get_str(stream, "/baseUrl"), get_str(stream, "/base_url")),
        backups: string_array(first_member(stream.get("backupUrl"), stream.get("backup_url"))),
    }
}

fn picture_in<'a>(p: &'a Json, data: &Json, quality: u32, max_size: u64) -> (r: Option<&'a Json>)
    ensures
        target(r) == picture_stream(*p, *data, quality, max_size),
{
    let rule = StreamRule {
        fitting: true,
        avc: true,
        target: quality as u64,
        max_size,
        audio: match get_u64(p, "/dash/audio/0/bandwidth") {
            Some(n) => n,
            None => 0,
        },
        duration: first_number(get_u64(p, "/dash/duration"), get_u64(data, "/duration")),
    };
    assert(rule == stream_rule(*p, *data, quality, max_size));
    match p.pointer("/dash/video") {
        Some(v) => match v.as_array() {
            Some(streams) => match choose_stream(streams, &rule) {
                Some(k) => Some(&streams[k]),
                None => None,
            },
            None => None,
        },
        None => None,
    }
}

fn sound_in<'a>(p: &'a Json) -> (r: Option<&'a Json>)
    ensures
        target(r) == sound_stream(*p),
{
    match p.pointer("/dash/audio") {
        Some(v) => match v.as_array() {
            Some(streams) => if streams.len() > 0 {
                Some(&streams[0])
            } else {
                None
            },
            None => None,
        },
        None => None,
    }
}

fn offer_in(p: &Json, data: &Json, quality: u32, max_size: u64) -> (r: Offer)
    ensures
        r.model() == offer_of(*p, *data, quality, max_size),
{
    let direct = get_str(p, "/durl/0/url");
    let backups = string_array(p.pointer("/durl/0/backup_url"));
    let size = get_u64(p, "/durl/0/size");
    if direct.is_some() {
        return Offer {
            primary: Source { url: direct, backups },
            secondary: None,
            width: None,
            height: None,
            size,
        };
    }
    let secondary = match sound_in(p) {
        Some(audio) => Some(source_in(audio)),
        None => None,
    };
    match picture_in(p, data, quality, max_size) {
        Some(stream) => Offer {
            primary: source_in(stream),
            secondary,
            width: to_u32(get_u64(stream, "/width")),
            height: to_u32(get_u64(stream, "/height")),
            size: get_u64(stream, "/size"),
        },
        None => Offer {
            primary: Source { url: None, backups },
            secondary,
            width: None,
            height: None,
            size,
        },
    }
}

/// What a reply says about a video.
#[derive(Debug)]
pub struct VideoId {
    pub data: Json,
    pub cid: u64,
    pub bvid: String,
}

impl View for VideoId {
    type V = VideoIdView;

    open spec fn view(&self) -> VideoIdView {
        VideoIdView { data: self.data, cid: self.cid, bvid: self.bvid@ }
    }
}

fn first_32(first: Option<u32>, second: Option<u32>) -> (r: Option<u32>)
    ensures
        r == first_of(first, second),
{
    if first.is_some() {
        first
    } else {
        second
    }
}

impl BilibiliProvider {
    /// Finds out what is asked about the video that an address names.
    pub fn video_question(&self, url: &str) -> (r: ProviderResult<VideoQuestion>)
        ensures
            (match r {
                Ok(q) => Ok(q@),
                Err(error) => Err(error@),
            }) == question_for(url@),
    {
        match (capture_group(BANGUMI_LINK, url, 1), capture_group(BANGUMI_LINK, url, 2)) {
            (Some(word), Some(id)) => {
                return Ok(
                    VideoQuestion::Season {
                        episode: !same(lower(word.as_str()).as_str(), "ss"),
                        id,
                    },
                );
            },
            _ => {},
        }
        match capture_group(BVID, url, 1) {
            Some(name) => Ok(VideoQuestion::ByName(name)),
            None => match capture_group(AV_LINK, url, 1) {
                Some(number) => Ok(VideoQuestion::ByNumber(number)),
                None => Err(ProviderError::InvalidUrl(url.to_owned())),
            },
        }
    }

    /// The request of a question about a video.
    pub fn video_call(&self, question: &VideoQuestion) -> (r: ApiCall)
        ensures
            r@ == question_call(self.api_base@, question@),
    {
        let mut query: Vec<(String, String)> = Vec::new();
        let path = match question {
            VideoQuestion::Season { episode, id } => {
                query.push(
                    (
                        if *episode {
                            "ep_id".to_owned()
                        } else {
                            "season_id".to_owned()
                        },
                        id.clone(),
                    ),
                );
                "/pgc/view/web/season"
            },
            VideoQuestion::ByName(name) => {
                query.push(("bvid".to_owned(), name.clone()));
                "/x/web-interface/view"
            },
            VideoQuestion::ByNumber(number) => {
                query.push(("aid".to_owned(), number.clone()));
                "/x/web-interface/view"
            },
        };
        assert(pair_texts(query@) =~= question_call(self.api_base@, question@).query);
        ApiCall { url: cat2(self.api_base.as_str(), path), query }
    }

    /// The page of the video of an episode, from the reply about its season.
    pub fn season_video(&self, url: &str, episode: bool, id: &str, root: &Json) -> (r:
        ProviderResult<String>)
        ensures
            (match r {
                Ok(page) => Ok(page@),
                Err(error) => Err(error@),
            }) == season_video_of(url@, episode, id@, *root),
    {
        let episodes = match root.pointer("/result/episodes") {
            Some(v) => match v.as_array() {
                Some(episodes) => episodes,
                None => {
                    return Err(ProviderError::Unavailable(url.to_owned()));
                },
            },
            None => {
                return Err(ProviderError::Unavailable(url.to_owned()));
            },
        };
        if episodes.len() == 0 {
            return Err(ProviderError::Unavailable(url.to_owned()));
        }
        let mut chosen: usize = 0;
        if episode {
            let mut i: usize = 0;
            let mut found = false;
            while i < episodes.len() && !found
                invariant
                    i <= episodes@.len(),
                    episodes@.len() > 0,
                    chosen < episodes@.len(),
                    !found ==> chosen == 0 && episode_numbered(episodes@, id@, 0)
                        == episode_numbered(episodes@, id@, i as int),
                    found ==> episode_numbered(episodes@, id@, 0) == Some(
                        episodes@[chosen as int],
                    ),
                decreases episodes.len() - i,
            {
                match get_u64(&episodes[i], "/id") {
                    Some(n) => {
                        if same(number_text(n).as_str(), id) {
                            found = true;
                            chosen = i;
                        }
                    },
                    None => {},
                }
                i += 1;
            }
        }
        match get_str(&episodes[chosen], "/bvid") {
            Some(bvid) => Ok(cat2("https://www.bilibili.com/video/", bvid.as_str())),
            None => Err(ProviderError::InvalidResponse("番剧缺少 bvid".to_owned())),
        }
    }

    /// What the reply about a video says, before its streams are asked for.
    pub fn video_id(&self, name: &Option<String>, root: Json) -> (r: ProviderResult<VideoId>)
        ensures
            (match r {
                Ok(id) => Ok(id@),
                Err(error) => Err(error@),
            }) == video_id_of(opt_text(*name), root),
    {
        match root.take("data") {
            None => Err(ProviderError::InvalidResponse("视频详情缺少 data".to_owned())),
            Some(data) => match get_u64(&data, "/cid") {
                None => Err(ProviderError::InvalidResponse("视频详情缺少 cid".to_owned())),
                Some(cid) => {
                    let bvid = match get_str(&data, "/bvid") {
                        Some(b) => b,
                        None => match name {
                            Some(n) => n.clone(),
                            None => String::new(),
                        },
                    };
                    assert(bvid@ =~= (match str_at(data, "/bvid"@) {
                        Some(b) => b,
                        None => or_blank(opt_text(*name)),
                    }));
                    Ok(VideoId { data, cid, bvid })
                },
            },
        }
    }

    /// The request for the streams of a video.
    pub fn play_call(&self, id: &VideoId, options: &ParseOptions) -> (r: ApiCall)
        ensures
            r@ == play_call(self.api_base@, id.bvid@, id.cid, quality_limit(options.quality)),
    {
        let qn = quality_number(options.quality_or_default());
        let mut query: Vec<(String, String)> = Vec::new();
        query.push(("bvid".to_owned(), id.bvid.clone()));
        query.push(("cid".to_owned(), number_text(id.cid)));
        query.push(("qn".to_owned(), qn.to_owned()));
        query.push(("fnval".to_owned(), "4048".to_owned()));
        query.push(("fourk".to_owned(), "1".to_owned()));
        assert(pair_texts(query@) =~= play_call(
            self.api_base@,
            id.bvid@,
            id.cid,
            quality_limit(options.quality),
        ).query);
        ApiCall { url: cat2(self.api_base.as_str(), "/x/player/playurl"), query }
    }

    fn video_item(&self, id: &VideoId, p: &Json, quality: u32, cookie: &Option<String>) -> (r:
        Option<MediaItem>)
        ensures
            (match r {
                Some(m) => Some(m@),
                None => None,
            }) == video_item_of(
                self.cdn@,
                self.max_media_size,
                id@,
                *p,
                quality,
                opt_text(*cookie),
            ),
    {
        let offer = offer_in(p, &id.data, quality, self.max_media_size);
        let ghost model = offer.model();
        let width = offer.width;
        let height = offer.height;
        let size = offer.size;
        let primary = offer.primary;
        let secondary = offer.secondary;
        let url = match primary.url {
            Some(url) => url,
            None => {
                return None;
            },
        };
        let (selected, fallbacks) = self.order_media_urls(url, &primary.backups);
        let ghost urls = ordered(self.cdn@, model.primary.url->0, model.primary.backups);
        assert(urls == seq![selected@] + texts(fallbacks@));
        assert(urls.skip(1) =~= texts(fallbacks@));
        let shown: u32 = match height {
            Some(h) => h,
            None => quality,
        };
        let mut key = cat5("bilibili:", id.bvid.as_str(), ":", quality_number(quality), ":");
        key.append(number_text(shown as u64).as_str());
        key.append("p");
        let mut m = new_item(
            MediaKind::Video,
            selected,
            cat3("bilibili-", id.bvid.as_str(), ".mp4"),
            key,
        );
        m.fallback_urls = fallbacks;
        m.thumbnail_url = get_str(&id.data, "/pic");
        m.mime_type = Some("video/mp4".to_owned());
        m.duration_secs = get_u64(&id.data, "/duration");
        m.width = first_32(width, to_u32(get_u64(&id.data, "/dimension/width")));
        m.height = first_32(height, to_u32(get_u64(&id.data, "/dimension/height")));
        m.size = size;
        m.headers = headers(cookie);
        match secondary {
            Some(source) => match source.url {
                Some(second) => {
                    let ghost s = ordered(
                        self.cdn@,
                        (model.secondary->0).url->0,
                        (model.secondary->0).backups,
                    );
                    let (first, others) = self.order_media_urls(second, &source.backups);
                    assert(s == seq![first@] + texts(others@));
                    assert(s.skip(1) =~= texts(others@));
                    m.secondary_url = Some(first);
                    m.secondary_fallback_urls = others;
                },
                None => {
                    m.secondary_fallback_urls = source.backups;
                },
            },
            None => {},
        }
        Some(m)
    }

    /// The content of a video from the replies about it.
    pub fn video_content(
        &self,
        id: &VideoId,
        play: &Json,
        options: &ParseOptions,
        cookie: &Option<String>,
    ) -> (r: ParsedContent)
        ensures
            r@ == video_content_of(
                self.cdn@,
                self.max_media_size,
                id@,
                *play,
                quality_limit(options.quality),
                opt_text(*cookie),
            ),
    {
        broadcast use {lemma_item_views_push, lemma_item_views_empty};

        let none = Json::Null;
        let p = match play.get("data") {
            Some(p) => p,
            None => &none,
        };
        let mut media: Vec<MediaItem> = Vec::new();
        match self.video_item(id, p, options.quality_or_default(), cookie) {
            Some(m) => {
                let ghost item = m@;
                media.push(m);
                assert(item_views(media@) =~= seq![item]);
            },
            None => {},
        }
        let data = &id.data;
        let content = ParsedContent {
            platform: Platform::Bilibili,
            kind: ContentKind::Video,
            id: id.bvid.clone(),
            canonical_url: cat2("https://www.bilibili.com/video/", id.bvid.as_str()),
            author: member_author(
                get_u64(data, "/owner/mid"),
                get_str(data, "/owner/name"),
                get_str(data, "/owner/face"),
            ),
            title: or_empty(get_str(data, "/title")),
            text: or_empty(get_str(data, "/desc")),
            sensitive: false,
            stats: Stats {
                likes: get_u64(data, "/stat/like"),
                reposts: get_u64(data, "/stat/share"),
                replies: get_u64(data, "/stat/reply"),
                views: get_u64(data, "/stat/view"),
            },
            media,
            collection_items: Vec::new(),
        };
        assert(content@.collection_items =~= Seq::<Seq<char>>::empty());
        content
    }
}

} // verus!
