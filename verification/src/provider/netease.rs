//! Songs, albums, playlists and music videos on Netease Cloud Music, read through an API server.
use vstd::prelude::*;

use crate::config::Config;
use crate::json::{list_value, member, target, value_at, Json};
use crate::model::{
    bare_item, content_result, item_views, lemma_item_views_empty, lemma_item_views_push, new_item,
    no_author, no_stats, quality_limit, Author, AuthorView, ContentKind, ErrorView, MediaItem,
    MediaItemView, MediaKind, ParseRequest, ParsedContent, ParsedContentView, Platform,
    ProviderError, ProviderResult, Stats,
};
use crate::outside::{capture_group, is_match, parse_url, regex_found, regex_group, url_parts};
use crate::text::{
    cat2, cat3, cat4, chars_of, contains, decimal, empty, first_of, first_text, has_part,
    has_prefix, join, joined, lemma_texts_empty, lemma_texts_push, lower, lowered, number_text,
    opt_text, or_blank, or_empty, pair_texts, same, starts_with, text_between, texts, trim_end_char,
    trim_end_of,
};

use super::{
    document_result, field_str, get_str, get_u64, host_of_link, in_domain, json_response, lies_in,
    link_host, list_at, member_str, reply_document, small_host, str_at, u64_at, HttpReply,
    PlatformProvider, Provider,
};

verus! {

/// The links of Netease Cloud Music.
pub const NETEASE_LINK: &'static str =
    r"(?i)(?:https?://)?(?:music\.163\.com|y\.music\.163\.com|163cn\.tv)/[^\s]*";

/// The number of a work behind a question mark or an ampersand.
pub const NETEASE_QUERY_ID: &'static str = r"[?&]id=(\d+)";

/// The number of a work in a path.
pub const NETEASE_PATH_ID: &'static str = r"/(?:song|album|playlist|mv)/(\d+)";

/// Whether a host belongs to Netease Cloud Music.
pub open spec fn netease_host(host: Seq<char>) -> bool {
    in_domain(host, "music.163.com"@) || in_domain(host, "163cn.tv"@)
}

pub fn is_netease_host(host: &str) -> (r: bool)
    ensures
        r == netease_host(host@),
{
    lies_in(host, "music.163.com") || lies_in(host, "163cn.tv")
}

/// Whether a link is one of Netease Cloud Music: it has the form of one, and its host belongs to
/// the platform.
pub open spec fn netease_handles(url: Seq<char>) -> bool {
    regex_found(NETEASE_LINK@, url) && netease_host(link_host(url))
}

/// What a link names.
#[derive(Debug, Clone, Copy, PartialEq, Eq, Structural)]
pub enum NeteaseKind {
    Song,
    Album,
    Playlist,
    Mv,
}

/// A work: its kind, its number, and the link that names it.
#[derive(Debug)]
pub struct NeteaseTarget {
    pub kind: NeteaseKind,
    pub id: String,
    pub url: String,
}

/// The link with a scheme.
pub open spec fn with_scheme(raw: Seq<char>) -> Seq<char> {
    if has_prefix(raw, "http"@) {
        raw
    } else {
        "https://"@ + raw
    }
}

/// Whether a link only leads to another one.
pub open spec fn is_short_link(raw: Seq<char>) -> bool {
    has_part(raw, "y.music.163.com"@) || has_part(raw, "163cn.tv"@)
}

/// The value of the first pair with the given name, from number `from` on.
pub open spec fn query_value(
    query: Seq<(Seq<char>, Seq<char>)>,
    name: Seq<char>,
    from: int,
) -> Option<Seq<char>>
    decreases query.len() - from,
{
    if from < 0 || from >= query.len() {
        None
    } else if query[from].0 == name {
        Some(query[from].1)
    } else {
        query_value(query, name, from + 1)
    }
}

/// The number of the work that a link names; none where it is not a URL or names no work.
pub open spec fn netease_id(url: Seq<char>) -> Option<Seq<char>> {
    match url_parts(url) {
        None => None,
        Some(parts) => first_of(
            first_of(
                query_value(parts.query, "id"@, 0),
                regex_group(NETEASE_QUERY_ID@, url, 1),
            ),
            regex_group(NETEASE_PATH_ID@, url, 1),
        ),
    }
}

/// Whether a link may lead to another one: what a short link leads to has to be on a host of
/// Netease.
pub open spec fn may_lead_to(raw: Seq<char>, url: Seq<char>) -> bool {
    is_short_link(raw) ==> match url_parts(url) {
        Some(parts) => netease_host(small_host(parts)),
        None => false,
    }
}

/// The kind of the work that a link names.
pub open spec fn netease_kind(url: Seq<char>) -> NeteaseKind {
    let l = lowered(url);
    if has_part(l, "playlist"@) {
        NeteaseKind::Playlist
    } else if has_part(l, "album"@) {
        NeteaseKind::Album
    } else if has_part(l, "/mv"@) || has_part(l, "m=mv"@) {
        NeteaseKind::Mv
    } else {
        NeteaseKind::Song
    }
}

/// The value of the first pair with the given name.
pub fn find_query(query: &Vec<(String, String)>, name: &str) -> (r: Option<String>)
    ensures
        opt_text(r) == query_value(pair_texts(query@), name@, 0),
{
    let ghost all = pair_texts(query@);
    let mut i: usize = 0;
    while i < query.len()
        invariant
            i <= query@.len(),
            all == pair_texts(query@),
            query_value(all, name@, 0) == query_value(all, name@, i as int),
        decreases query.len() - i,
    {
        assert(all[i as int] == (query@[i as int].0@, query@[i as int].1@));
        if same(query[i].0.as_str(), name) {
            return Some(query[i].1.clone());
        }
        i += 1;
    }
    None
}

/// Whether a character is a control character.
pub open spec fn is_control_char(c: char) -> bool {
    (c as u32) < 0x20 || 0x7f <= (c as u32) <= 0x9f
}

/// What stands for a character of a title in a file name.
pub open spec fn title_char(c: char) -> char {
    if is_control_char(c) || c == '/' || c == '\\' || c == ':' || c == '*' || c == '?' || c == '"'
        || c == '<' || c == '>' || c == '|' {
        '_'
    } else {
        c
    }
}

/// The first 120 characters of a title, as they are in a file name.
pub open spec fn title_chars(title: Seq<char>) -> Seq<char> {
    let n = if title.len() <= 120 {
        title.len() as int
    } else {
        120
    };
    title.take(n).map_values(|c: char| title_char(c))
}

/// Whether a character is left out at the ends of a file name.
pub open spec fn edge_char(c: char) -> bool {
    c == ' ' || c == '.'
}

/// The text without blanks and full stops at its start.
pub open spec fn trim_edge_start(s: Seq<char>) -> Seq<char>
    decreases s.len(),
{
    if s.len() > 0 && edge_char(s[0]) {
        trim_edge_start(s.skip(1))
    } else {
        s
    }
}

/// The text without blanks and full stops at its end.
pub open spec fn trim_edge_end(s: Seq<char>) -> Seq<char>
    decreases s.len(),
{
    if s.len() > 0 && edge_char(s.last()) {
        trim_edge_end(s.drop_last())
    } else {
        s
    }
}

/// The extension of an audio file: a known format in small letters, or else that of MP3.
pub open spec fn audio_extension(format: Seq<char>) -> Seq<char> {
    let f = lowered(format);
    if f == "mp3"@ || f == "flac"@ || f == "m4a"@ || f == "aac"@ || f == "ogg"@ || f == "opus"@ {
        f
    } else {
        "mp3"@
    }
}

/// The file name of a song: its title, or its number where nothing is left of the title.
pub open spec fn song_name(title: Seq<char>, id: Seq<char>, format: Seq<char>) -> Seq<char> {
    let safe = trim_edge_end(trim_edge_start(title_chars(title)));
    (if safe.len() == 0 {
        "netease-"@ + id
    } else {
        safe
    }) + "."@ + audio_extension(format)
}

fn trim_edges(s: &Vec<char>) -> (r: String)
    ensures
        r@ == trim_edge_end(trim_edge_start(s@)),
{
    let mut from: usize = 0;
    assert(s@.skip(0) =~= s@);
    while from < s.len() && (s[from] == ' ' || s[from] == '.')
        invariant
            from <= s@.len(),
            trim_edge_start(s@) == trim_edge_start(s@.skip(from as int)),
        decreases s.len() - from,
    {
        assert(s@.skip(from as int).skip(1) =~= s@.skip(from + 1));
        from += 1;
    }
    assert(trim_edge_start(s@) == s@.skip(from as int));
    let ghost left = s@.skip(from as int);
    let mut to: usize = s.len();
    assert(s@.subrange(from as int, to as int) =~= left);
    while to > from && (s[to - 1] == ' ' || s[to - 1] == '.')
        invariant
            from <= to <= s@.len(),
            trim_edge_end(left) == trim_edge_end(s@.subrange(from as int, to as int)),
        decreases to,
    {
        assert(s@.subrange(from as int, to as int).drop_last() =~= s@.subrange(
            from as int,
            to - 1,
        ));
        to -= 1;
    }
    text_between(s, from, to)
}

pub fn song_filename(title: &str, id: &str, format: &str) -> (r: String)
    ensures
        r@ == song_name(title@, id@, format@),
{
    let chars = chars_of(title);
    let count: usize = if chars.len() <= 120 {
        chars.len()
    } else {
        120
    };
    let mut out: Vec<char> = Vec::new();
    let mut i: usize = 0;
    while i < count
        invariant
            i <= count <= chars@.len(),
            count == title_chars(chars@).len(),
            out@ == title_chars(chars@).take(i as int),
        decreases count - i,
    {
        let c = chars[i];
        let n: u32 = c as u32;
        if n < 0x20 || (0x7f <= n && n <= 0x9f) || c == '/' || c == '\\' || c == ':' || c == '*' || c
            == '?' || c == '"' || c == '<' || c == '>' || c == '|' {
            out.push('_');
        } else {
            out.push(c);
        }
        i += 1;
        assert(out@ =~= title_chars(chars@).take(i as int));
    }
    assert(out@ =~= title_chars(chars@));
    let mut safe = trim_edges(&out);
    if empty(safe.as_str()) {
        safe = cat2("netease-", id);
    }
    let f = lower(format);
    let known = {
        let f = f.as_str();
        same(f, "mp3") || same(f, "flac") || same(f, "m4a") || same(f, "aac") || same(f, "ogg")
            || same(f, "opus")
    };
    let extension = if known {
        f
    } else {
        "mp3".to_owned()
    };
    cat3(safe.as_str(), ".", extension.as_str())
}

/// The names of the first `n` artists.
pub open spec fn artist_names(items: Seq<Json>, n: int) -> Seq<Seq<char>>
    decreases n,
{
    if n <= 0 {
        Seq::empty()
    } else {
        match member_str(items[n - 1], "name"@) {
            Some(name) => artist_names(items, n - 1).push(name),
            None => artist_names(items, n - 1),
        }
    }
}

/// The names in a list of artists, one after another.
pub open spec fn artists_joined(list: Option<Json>, sep: Seq<char>) -> Seq<char> {
    match list_value(list) {
        Some(items) => {
            let all = artist_names(items, items.len() as int);
            joined(all, sep, all.len() as int)
        },
        None => Seq::empty(),
    }
}

fn artists_in(list: Option<&Json>, sep: &str) -> (r: String)
    ensures
        r@ == artists_joined(target(list), sep@),
{
    broadcast use {lemma_texts_push, lemma_texts_empty};

    let items = match list {
        Some(v) => match v.as_array() {
            Some(items) => items,
            None => {
                return String::new();
            },
        },
        None => {
            return String::new();
        },
    };
    let mut out: Vec<String> = Vec::new();
    let mut i: usize = 0;
    while i < items.len()
        invariant
            i <= items@.len(),
            texts(out@) == artist_names(items@, i as int),
        decreases items.len() - i,
    {
        broadcast use {lemma_texts_push, lemma_texts_empty};

        match field_str(&items[i], "name") {
            Some(name) => {
                out.push(name);
            },
            None => {},
        }
        i += 1;
    }
    assert(texts(out@).len() == out@.len());
    join(&out, sep)
}

/// The type of an audio file.
pub open spec fn audio_mime(format: Seq<char>) -> Seq<char> {
    if format == "mp3"@ {
        "audio/mpeg"@
    } else {
        "audio/"@ + format
    }
}

/// A thousandth of a number of milliseconds.
pub open spec fn seconds_of(ms: Option<u64>) -> Option<u64> {
    match ms {
        Some(n) => Some((n / 1000) as u64),
        None => None,
    }
}

fn to_seconds(ms: Option<u64>) -> (r: Option<u64>)
    ensures
        r == seconds_of(ms),
{
    match ms {
        Some(n) => Some(n / 1000),
        None => None,
    }
}

/// The song of a detail reply.
pub open spec fn song_in(detail: Json) -> Option<Json> {
    value_at(detail, "/songs/0"@)
}

/// The format of the audio file of a song.
pub open spec fn song_format(audio: Json) -> Seq<char> {
    match str_at(audio, "/data/0/type"@) {
        Some(f) => f,
        None => "mp3"@,
    }
}

/// The content of a song.
pub open spec fn song_content_of(
    url: Seq<char>,
    id: Seq<char>,
    resolved: Seq<char>,
    detail: Json,
    audio: Json,
) -> Result<ParsedContentView, ErrorView> {
    match song_in(detail) {
        None => Err(ErrorView::Unavailable(url)),
        Some(song) => match str_at(audio, "/data/0/url"@) {
            None => Err(ErrorView::Unavailable("歌曲无可用播放地址"@)),
            Some(media_url) => Ok(
                ParsedContentView {
                    platform: Platform::Netease,
                    kind: ContentKind::Audio,
                    id,
                    canonical_url: resolved,
                    author: AuthorView {
                        id: Seq::empty(),
                        name: artists_joined(member(song, "ar"@), " / "@),
                        url: None,
                        avatar_url: None,
                    },
                    title: or_blank(str_at(song, "/name"@)),
                    text: or_blank(str_at(song, "/al/name"@)),
                    sensitive: false,
                    stats: no_stats(),
                    media: seq![
                        MediaItemView {
                            thumbnail_url: str_at(song, "/al/picUrl"@),
                            mime_type: Some(audio_mime(song_format(audio))),
                            duration_secs: seconds_of(u64_at(song, "/dt"@)),
                            size: u64_at(audio, "/data/0/size"@),
                            ..bare_item(
                                MediaKind::Audio,
                                media_url,
                                song_name(
                                    or_blank(str_at(song, "/name"@)),
                                    id,
                                    song_format(audio),
                                ),
                                "netease:song:"@ + id + ":standard:v2"@,
                            )
                        },
                    ],
                    collection_items: Seq::empty(),
                },
            ),
        },
    }
}

/// The content of a song from the documents that describe it.
pub fn song_content(url: &str, id: &str, resolved: &str, detail: &Json, audio: &Json) -> (r:
    ProviderResult<ParsedContent>)
    ensures
        content_result(r) == song_content_of(url@, id@, resolved@, *detail, *audio),
{
    let song = match detail.pointer("/songs/0") {
        Some(song) => song,
        None => {
            return Err(ProviderError::Unavailable(url.to_owned()));
        },
    };
    let media_url = match get_str(audio, "/data/0/url") {
        Some(media_url) => media_url,
        None => {
            return Err(ProviderError::Unavailable("歌曲无可用播放地址".to_owned()));
        },
    };
    let title = or_empty(get_str(song, "/name"));
    let format = match get_str(audio, "/data/0/type") {
        Some(f) => f,
        None => "mp3".to_owned(),
    };
    let mut m = new_item(
        MediaKind::Audio,
        media_url,
        song_filename(title.as_str(), id, format.as_str()),
        cat3("netease:song:", id, ":standard:v2"),
    );
    m.thumbnail_url = get_str(song, "/al/picUrl");
    m.mime_type = Some(
        if same(format.as_str(), "mp3") {
            "audio/mpeg".to_owned()
        } else {
            cat2("audio/", format.as_str())
        },
    );
    m.duration_secs = to_seconds(get_u64(song, "/dt"));
    m.size = get_u64(audio, "/data/0/size");
    let ghost item = m@;
    let mut media: Vec<MediaItem> = Vec::new();
    media.push(m);
    assert(item_views(media@) =~= seq![item]);
    let content = ParsedContent {
        platform: Platform::Netease,
        kind: ContentKind::Audio,
        id: id.to_owned(),
        canonical_url: resolved.to_owned(),
        author: Author {
            id: String::new(),
            name: artists_in(song.get("ar"), " / "),
            url: None,
            avatar_url: None,
        },
        title,
        text: or_empty(get_str(song, "/al/name")),
        sensitive: false,
        stats: Stats { likes: None, reposts: None, replies: None, views: None },
        media,
        collection_items: Vec::new(),
    };
    assert(content@.collection_items =~= Seq::<Seq<char>>::empty());
    assert(content@.author.id =~= Seq::<char>::empty());
    Ok(content)
}

/// The description of a music video in a detail reply.
pub open spec fn mv_in(detail: Json) -> Json {
    match member(detail, "data"@) {
        Some(mv) => mv,
        None => detail,
    }
}

/// The content of a music video.
pub open spec fn mv_content_of(
    url: Seq<char>,
    id: Seq<char>,
    resolved: Seq<char>,
    quality: nat,
    detail: Json,
    urls: Json,
) -> Result<ParsedContentView, ErrorView> {
    let mv = mv_in(detail);
    match str_at(urls, "/data/url"@) {
        None => Err(ErrorView::Unavailable(url)),
        Some(media_url) => Ok(
            ParsedContentView {
                platform: Platform::Netease,
                kind: ContentKind::Video,
                id,
                canonical_url: resolved,
                author: AuthorView {
                    name: or_blank(str_at(mv, "/artistName"@)),
                    ..no_author()
                },
                title: or_blank(str_at(mv, "/name"@)),
                text: or_blank(str_at(mv, "/desc"@)),
                sensitive: false,
                stats: Stats { views: u64_at(mv, "/playCount"@), ..no_stats() },
                media: seq![
                    MediaItemView {
                        thumbnail_url: str_at(mv, "/cover"@),
                        mime_type: Some("video/mp4"@),
                        duration_secs: seconds_of(u64_at(mv, "/duration"@)),
                        size: u64_at(urls, "/data/size"@),
                        ..bare_item(
                            MediaKind::Video,
                            media_url,
                            "netease-mv-"@ + id + ".mp4"@,
                            "netease:mv:"@ + id + ":"@ + decimal(quality),
                        )
                    },
                ],
                collection_items: Seq::empty(),
            },
        ),
    }
}

/// The content of a music video from the documents that describe it.
pub fn mv_content(url: &str, id: &str, resolved: &str, quality: u32, detail: &Json, urls: &Json) -> (r:
    ProviderResult<ParsedContent>)
    ensures
        content_result(r) == mv_content_of(
            url@,
            id@,
            resolved@,
            quality as nat,
            *detail,
            *urls,
        ),
{
    let mv = match detail.get("data") {
        Some(mv) => mv,
        None => detail,
    };
    let media_url = match get_str(urls, "/data/url") {
        Some(media_url) => media_url,
        None => {
            return Err(ProviderError::Unavailable(url.to_owned()));
        },
    };
    let mut m = new_item(
        MediaKind::Video,
        media_url,
        cat3("netease-mv-", id, ".mp4"),
        cat4("netease:mv:", id, ":", number_text(quality as u64).as_str()),
    );
    m.thumbnail_url = get_str(mv, "/cover");
    m.mime_type = Some("video/mp4".to_owned());
    m.duration_secs = to_seconds(get_u64(mv, "/duration"));
    m.size = get_u64(urls, "/data/size");
    let ghost item = m@;
    let mut media: Vec<MediaItem> = Vec::new();
    media.push(m);
    assert(item_views(media@) =~= seq![item]);
    let content = ParsedContent {
        platform: Platform::Netease,
        kind: ContentKind::Video,
        id: id.to_owned(),
        canonical_url: resolved.to_owned(),
        author: Author {
            id: String::new(),
            name: or_empty(get_str(mv, "/artistName")),
            url: None,
            avatar_url: None,
        },
        title: or_empty(get_str(mv, "/name")),
        text: or_empty(get_str(mv, "/desc")),
        sensitive: false,
        stats: Stats {
            likes: None,
            reposts: None,
            replies: None,
            views: get_u64(mv, "/playCount"),
        },
        media,
        collection_items: Vec::new(),
    };
    assert(content@.collection_items =~= Seq::<Seq<char>>::empty());
    assert(content@.author.id =~= Seq::<char>::empty());
    Ok(content)
}

/// How many tracks of an album or a playlist are shown.
pub const COLLECTION_TRACKS: usize = 30;

/// A track in the list of an album or a playlist.
pub open spec fn track_line(track: Json) -> Seq<char> {
    or_blank(member_str(track, "name"@)) + " — "@ + artists_joined(
        first_of(member(track, "ar"@), member(track, "artists"@)),
        "/ "@,
    )
}

/// The lines of the first `n` tracks.
pub open spec fn track_lines(tracks: Seq<Json>, n: int) -> Seq<Seq<char>>
    decreases n,
{
    if n <= 0 {
        Seq::empty()
    } else {
        track_lines(tracks, n - 1).push(track_line(tracks[n - 1]))
    }
}

/// Where the parts of an album or a playlist stand in a reply.
pub open spec fn collection_paths(kind: NeteaseKind) -> (Seq<char>, Seq<char>, Seq<char>) {
    if kind == NeteaseKind::Album {
        ("/album/name"@, "/album/picUrl"@, "/songs"@)
    } else {
        ("/playlist/name"@, "/playlist/coverImgUrl"@, "/playlist/tracks"@)
    }
}

/// The content of an album or a playlist: its cover and its first tracks.
pub open spec fn collection_content_of(id: Seq<char>, kind: NeteaseKind, root: Json) -> ParsedContentView {
    let paths = collection_paths(kind);
    let cover = or_blank(str_at(root, paths.1));
    let tracks = list_at(root, paths.2);
    ParsedContentView {
        platform: Platform::Netease,
        kind: if kind == NeteaseKind::Album {
            ContentKind::Album
        } else {
            ContentKind::Playlist
        },
        id,
        canonical_url: (if kind == NeteaseKind::Album {
            "https://music.163.com/#/album?id="@
        } else {
            "https://music.163.com/#/playlist?id="@
        }) + id,
        author: no_author(),
        title: or_blank(str_at(root, paths.0)),
        text: Seq::empty(),
        sensitive: false,
        stats: no_stats(),
        media: if cover.len() == 0 {
            Seq::empty()
        } else {
            seq![
                MediaItemView {
                    mime_type: Some("image/jpeg"@),
                    requires_download: false,
                    ..bare_item(
                        MediaKind::Photo,
                        cover,
                        "netease-collection-"@ + id + ".jpg"@,
                        "netease:collection:"@ + id + ":cover"@,
                    )
                },
            ]
        },
        collection_items: track_lines(
            tracks,
            if tracks.len() <= COLLECTION_TRACKS {
                tracks.len() as int
            } else {
                COLLECTION_TRACKS as int
            },
        ),
    }
}

fn first_json<'a>(first: Option<&'a Json>, second: Option<&'a Json>) -> (r: Option<&'a Json>)
    ensures
        target(r) == first_of(target(first), target(second)),
{
    if first.is_some() {
        first
    } else {
        second
    }
}

fn tracks_in(tracks: &Vec<Json>) -> (r: Vec<String>)
    ensures
        texts(r@) == track_lines(
            tracks@,
            if tracks@.len() <= COLLECTION_TRACKS {
                tracks@.len() as int
            } else {
                COLLECTION_TRACKS as int
            },
        ),
{
    broadcast use {lemma_texts_push, lemma_texts_empty};

    let count: usize = if tracks.len() <= COLLECTION_TRACKS {
        tracks.len()
    } else {
        COLLECTION_TRACKS
    };
    let mut out: Vec<String> = Vec::new();
    let mut i: usize = 0;
    while i < count
        invariant
            i <= count <= tracks@.len(),
            texts(out@) == track_lines(tracks@, i as int),
        decreases count - i,
    {
        broadcast use {lemma_texts_push, lemma_texts_empty};

        let track = &tracks[i];
        let artists = artists_in(first_json(track.get("ar"), track.get("artists")), "/ ");
        out.push(cat3(or_empty(field_str(track, "name")).as_str(), " — ", artists.as_str()));
        i += 1;
    }
    out
}

/// The content of an album or a playlist from the document that describes it.
pub fn collection_content(id: &str, kind: NeteaseKind, root: &Json) -> (r: ParsedContent)
    ensures
        r@ == collection_content_of(id@, kind, *root),
{
    broadcast use {lemma_item_views_push, lemma_item_views_empty};

    let album = kind == NeteaseKind::Album;
    let paths: (&str, &str, &str) = if album {
        ("/album/name", "/album/picUrl", "/songs")
    } else {
        ("/playlist/name", "/playlist/coverImgUrl", "/playlist/tracks")
    };
    let none: Vec<Json> = Vec::new();
    let tracks = match root.pointer(paths.2) {
        Some(v) => match v.as_array() {
            Some(items) => items,
            None => &none,
        },
        None => &none,
    };
    assert(tracks@ =~= list_at(*root, paths.2@));
    let cover = or_empty(get_str(root, paths.1));
    let mut media: Vec<MediaItem> = Vec::new();
    if !empty(cover.as_str()) {
        let mut m = new_item(
            MediaKind::Photo,
            cover,
            cat3("netease-collection-", id, ".jpg"),
            cat3("netease:collection:", id, ":cover"),
        );
        m.mime_type = Some("image/jpeg".to_owned());
        m.requires_download = false;
        let ghost item = m@;
        media.push(m);
        assert(item_views(media@) =~= seq![item]);
    }
    let content = ParsedContent {
        platform: Platform::Netease,
        kind: if album {
            ContentKind::Album
        } else {
            ContentKind::Playlist
        },
        id: id.to_owned(),
        canonical_url: if album {
            cat2("https://music.163.com/#/album?id=", id)
        } else {
            cat2("https://music.163.com/#/playlist?id=", id)
        },
        author: Author::default(),
        title: or_empty(get_str(root, paths.0)),
        text: String::new(),
        sensitive: false,
        stats: Stats { likes: None, reposts: None, replies: None, views: None },
        media,
        collection_items: tracks_in(tracks),
    };
    assert(content@.text =~= Seq::<char>::empty());
    content
}

/// At most thirty tracks are listed.
pub proof fn law_collection_is_short(id: Seq<char>, kind: NeteaseKind, root: Json)
    ensures
        collection_content_of(id, kind, root).collection_items.len() <= COLLECTION_TRACKS,
{
    let tracks = list_at(root, collection_paths(kind).2);
    lemma_track_count(
        tracks,
        if tracks.len() <= COLLECTION_TRACKS {
            tracks.len() as int
        } else {
            COLLECTION_TRACKS as int
        },
    );
}

proof fn lemma_track_count(tracks: Seq<Json>, n: int)
    requires
        0 <= n,
    ensures
        track_lines(tracks, n).len() == n,
    decreases n,
{
    if n > 0 {
        lemma_track_count(tracks, n - 1);
    }
}

/// What is asked of the API server.
#[derive(Debug, Clone, Copy, PartialEq, Eq, Structural)]
pub enum NeteaseQuestion {
    SongDetail,
    SongUrl,
    Album,
    Playlist,
    MvDetail,
    MvUrl,
}

/// What is asked first about a work: what it is.
pub open spec fn first_asked(kind: NeteaseKind) -> NeteaseQuestion {
    match kind {
        NeteaseKind::Song => NeteaseQuestion::SongDetail,
        NeteaseKind::Album => NeteaseQuestion::Album,
        NeteaseKind::Playlist => NeteaseQuestion::Playlist,
        NeteaseKind::Mv => NeteaseQuestion::MvDetail,
    }
}

/// What is asked after the first answer: the address of a song that there is, or of a music
/// video; nothing more of a collection.
pub open spec fn then_asked(url: Seq<char>, kind: NeteaseKind, detail: Json) -> Result<
    Option<NeteaseQuestion>,
    ErrorView,
> {
    match kind {
        NeteaseKind::Song => if song_in(detail) is Some {
            Ok(Some(NeteaseQuestion::SongUrl))
        } else {
            Err(ErrorView::Unavailable(url))
        },
        NeteaseKind::Mv => Ok(Some(NeteaseQuestion::MvUrl)),
        _ => Ok(None),
    }
}

/// A request: the address, and the parameters of the query.
#[derive(Debug)]
pub struct NeteaseCall {
    pub url: String,
    pub query: Vec<(String, String)>,
}

/// The path and the parameters of a question about the work with a number.
pub open spec fn question_of(question: NeteaseQuestion, id: Seq<char>, quality: nat) -> (
    Seq<char>,
    Seq<(Seq<char>, Seq<char>)>,
) {
    match question {
        NeteaseQuestion::SongDetail => ("/song/detail"@, seq![("ids"@, id)]),
        NeteaseQuestion::SongUrl => (
            "/song/url/v1"@,
            seq![("id"@, id), ("level"@, "standard"@)],
        ),
        NeteaseQuestion::Album => ("/album"@, seq![("id"@, id)]),
        NeteaseQuestion::Playlist => ("/playlist/detail"@, seq![("id"@, id)]),
        NeteaseQuestion::MvDetail => ("/mv/detail"@, seq![("mvid"@, id)]),
        NeteaseQuestion::MvUrl => ("/mv/url"@, seq![("id"@, id), ("r"@, decimal(quality))]),
    }
}

/// The parameters with the cookie of the login, where there is one.
pub open spec fn with_cookie(
    query: Seq<(Seq<char>, Seq<char>)>,
    cookie: Option<Seq<char>>,
) -> Seq<(Seq<char>, Seq<char>)> {
    match cookie {
        Some(c) => query.push(("cookie"@, c)),
        None => query,
    }
}

#[derive(Debug)]
pub struct NeteaseProvider {
    pub base: String,
}

/// Whether a provider is set up by the settings.
pub open spec fn netease_by_config(provider: NeteaseProvider, config: Config) -> bool {
    provider.base@ == trim_end_of(config.netease_api_base@, '/')
}

impl NeteaseProvider {
    pub fn new(config: &Config) -> (r: NeteaseProvider)
        ensures
            netease_by_config(r, *config),
    {
        NeteaseProvider { base: trim_end_char(config.netease_api_base.as_str(), '/') }
    }

    /// The address that is opened to find out where a short link leads; none where the link is
    /// not a short one.
    pub fn redirect(&self, raw: &str) -> (r: Option<String>)
        ensures
            opt_text(r) == (if is_short_link(raw@) {
                Some(with_scheme(raw@))
            } else {
                None
            }),
    {
        if contains(raw, "y.music.163.com") || contains(raw, "163cn.tv") {
            Some(self.address(raw))
        } else {
            None
        }
    }

    /// The link with a scheme.
    pub fn address(&self, raw: &str) -> (r: String)
        ensures
            r@ == with_scheme(raw@),
    {
        if starts_with(raw, "http") {
            raw.to_owned()
        } else {
            cat2("https://", raw)
        }
    }

    /// What a link names, by the link it leads to. A short link has to lead to a host of Netease.
    pub fn resolve(&self, raw: &str, url: &str) -> (r: ProviderResult<NeteaseTarget>)
        ensures
            match r {
                Ok(t) => may_lead_to(raw@, url@) && netease_id(url@) == Some(t.id@) && t.kind
                    == netease_kind(url@) && t.url@ == url@,
                Err(error) => (!may_lead_to(raw@, url@) || netease_id(url@) is None) && error@
                    == ErrorView::InvalidUrl(raw@),
            },
    {
        let parts = match parse_url(url) {
            Some(parts) => parts,
            None => {
                return Err(ProviderError::InvalidUrl(raw.to_owned()));
            },
        };
        if self.redirect(raw).is_some() && !is_netease_host(
            lower(or_empty(parts.host).as_str()).as_str(),
        ) {
            return Err(ProviderError::InvalidUrl(raw.to_owned()));
        }
        let id = first_text(
            first_text(find_query(&parts.query, "id"), capture_group(NETEASE_QUERY_ID, url, 1)),
            capture_group(NETEASE_PATH_ID, url, 1),
        );
        let id = match id {
            Some(id) => id,
            None => {
                return Err(ProviderError::InvalidUrl(raw.to_owned()));
            },
        };
        let l = lower(url);
        let l = l.as_str();
        let kind = if contains(l, "playlist") {
            NeteaseKind::Playlist
        } else if contains(l, "album") {
            NeteaseKind::Album
        } else if contains(l, "/mv") || contains(l, "m=mv") {
            NeteaseKind::Mv
        } else {
            NeteaseKind::Song
        };
        Ok(NeteaseTarget { kind, id, url: url.to_owned() })
    }

    /// The request of a question about the work with a number.
    pub fn call(
        &self,
        question: NeteaseQuestion,
        id: &str,
        quality: u32,
        cookie: &Option<String>,
    ) -> (r: NeteaseCall)
        ensures
            r.url@ == self.base@ + question_of(question, id@, quality as nat).0,
            pair_texts(r.query@) == with_cookie(
                question_of(question, id@, quality as nat).1,
                opt_text(*cookie),
            ),
    {
        let mut query: Vec<(String, String)> = Vec::new();
        let path = match question {
            NeteaseQuestion::SongDetail => {
                query.push(("ids".to_owned(), id.to_owned()));
                "/song/detail"
            },
            NeteaseQuestion::SongUrl => {
                query.push(("id".to_owned(), id.to_owned()));
                query.push(("level".to_owned(), "standard".to_owned()));
                "/song/url/v1"
            },
            NeteaseQuestion::Album => {
                query.push(("id".to_owned(), id.to_owned()));
                "/album"
            },
            NeteaseQuestion::Playlist => {
                query.push(("id".to_owned(), id.to_owned()));
                "/playlist/detail"
            },
            NeteaseQuestion::MvDetail => {
                query.push(("mvid".to_owned(), id.to_owned()));
                "/mv/detail"
            },
            NeteaseQuestion::MvUrl => {
                query.push(("id".to_owned(), id.to_owned()));
                query.push(("r".to_owned(), number_text(quality as u64)));
                "/mv/url"
            },
        };
        let ghost plain = question_of(question, id@, quality as nat).1;
        assert(pair_texts(query@) =~= plain);
        match cookie {
            Some(c) => {
                let ghost before = query@;
                query.push(("cookie".to_owned(), c.clone()));
                assert(pair_texts(query@) =~= pair_texts(before).push(("cookie"@, c@)));
            },
            None => {},
        }
        NeteaseCall { url: cat2(self.base.as_str(), path), query }
    }

    /// The document in a reply of the API server.
    pub fn get(&self, reply: &HttpReply) -> (r: ProviderResult<Json>)
        ensures
            document_result(r) == reply_document(*reply, "api-enhanced"@),
    {
        json_response(reply, "api-enhanced")
    }

    /// What is asked first about a work.
    pub fn first_question(&self, kind: NeteaseKind) -> (r: NeteaseQuestion)
        ensures
            r == first_asked(kind),
    {
        match kind {
            NeteaseKind::Song => NeteaseQuestion::SongDetail,
            NeteaseKind::Album => NeteaseQuestion::Album,
            NeteaseKind::Playlist => NeteaseQuestion::Playlist,
            NeteaseKind::Mv => NeteaseQuestion::MvDetail,
        }
    }

    /// What is asked after the first answer, if anything.
    pub fn next_question(&self, url: &str, kind: NeteaseKind, detail: &Json) -> (r: ProviderResult<
        Option<NeteaseQuestion>,
    >)
        ensures
            (match r {
                Ok(question) => Ok(question),
                Err(error) => Err(error@),
            }) == then_asked(url@, kind, *detail),
    {
        match kind {
            NeteaseKind::Song => match detail.pointer("/songs/0") {
                Some(_) => Ok(Some(NeteaseQuestion::SongUrl)),
                None => Err(ProviderError::Unavailable(url.to_owned())),
            },
            NeteaseKind::Mv => Ok(Some(NeteaseQuestion::MvUrl)),
            _ => Ok(None),
        }
    }

    /// The content of a work from the documents that describe it. An album or a playlist is
    /// described by the first alone.
    pub fn parse(
        &self,
        request: &ParseRequest,
        work: &NeteaseTarget,
        detail: &Json,
        urls: &Json,
    ) -> (r: ProviderResult<ParsedContent>)
        ensures
            content_result(r) == (match work.kind {
                NeteaseKind::Song => song_content_of(
                    request.url@,
                    work.id@,
                    work.url@,
                    *detail,
                    *urls,
                ),
                NeteaseKind::Mv => mv_content_of(
                    request.url@,
                    work.id@,
                    work.url@,
                    quality_limit(request.options.quality) as nat,
                    *detail,
                    *urls,
                ),
                _ => Ok(collection_content_of(work.id@, work.kind, *detail)),
            }),
    {
        match work.kind {
            NeteaseKind::Song => song_content(
                request.url.as_str(),
                work.id.as_str(),
                work.url.as_str(),
                detail,
                urls,
            ),
            NeteaseKind::Mv => mv_content(
                request.url.as_str(),
                work.id.as_str(),
                work.url.as_str(),
                request.options.quality_or_default(),
                detail,
                urls,
            ),
            _ => Ok(collection_content(work.id.as_str(), work.kind, detail)),
        }
    }
}

impl Provider for NeteaseProvider {
    open spec fn platform_of(&self) -> Platform {
        Platform::Netease
    }

    open spec fn entry(&self) -> PlatformProvider {
        PlatformProvider::Netease(*self)
    }

    fn platform(&self) -> (r: Platform) {
        Platform::Netease
    }

    fn can_handle(&self, url: &str) -> (r: bool) {
        is_match(NETEASE_LINK, url) && is_netease_host(host_of_link(url).as_str())
    }

    fn into_provider(self) -> (r: PlatformProvider) {
        PlatformProvider::Netease(self)
    }
}

} // verus!
