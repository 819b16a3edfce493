//! Songs, music videos, albums and playlists on Netease Cloud Music.
use vstd::prelude::*;

use crate::json::{list_value, member, value_at, Json};
use crate::model::{ContentKind, ErrorView, MediaKind, ParsedContentView, Platform};
use crate::provider::netease::{
    artist_names, artists_joined, audio_extension, collection_content_of, first_asked,
    mv_content_of, netease_kind, question_of, seconds_of, song_content_of, song_format, song_name,
    then_asked, title_char, track_line, track_lines, trim_edge_end, trim_edge_start, with_cookie,
    NeteaseKind, NeteaseQuestion,
};
use crate::provider::{list_at, member_str, str_at, u64_at};
use crate::text::{decimal, has_part, joined, lowered, or_blank};

use super::{in_order, lemma_in_order_push};

verus! {

/// A song is one audio file, fetched from the address that the audio reply gives, with the size
/// of that reply and the title, cover and duration of the song. There is a song exactly where
/// the detail names one and the reply gives an address.
pub proof fn law_song(
    url: Seq<char>,
    id: Seq<char>,
    resolved: Seq<char>,
    detail: Json,
    audio: Json,
)
    ensures
        song_content_of(url, id, resolved, detail, audio) is Ok <==> value_at(
            detail,
            "/songs/0"@,
        ) is Some && str_at(audio, "/data/0/url"@) is Some,
        song_content_of(url, id, resolved, detail, audio) matches Ok(c) ==> {
            let song = value_at(detail, "/songs/0"@)->0;
            let m = c.media[0];
            &&& c.media.len() == 1
            &&& Some(m.source_url) == str_at(audio, "/data/0/url"@)
            &&& m.kind == MediaKind::Audio && m.requires_download
            &&& m.fallback_urls.len() == 0 && m.secondary_url is None && m.headers.len() == 0
            &&& m.size == u64_at(audio, "/data/0/size"@)
            &&& m.thumbnail_url == str_at(song, "/al/picUrl"@)
            &&& m.duration_secs == seconds_of(u64_at(song, "/dt"@))
            &&& m.cache_key == "netease:song:"@ + id + ":standard:v2"@
            &&& c.platform == Platform::Netease && c.kind == ContentKind::Audio && c.id == id
            &&& c.canonical_url == resolved
            &&& str_at(song, "/name"@) matches Some(name) ==> c.title == name && m.filename
                == song_name(name, id, song_format(audio))
            &&& str_at(song, "/al/name"@) matches Some(album) ==> c.text == album
            &&& c.author.name == artists_joined(member(song, "ar"@), " / "@)
            &&& str_at(audio, "/data/0/type"@) is None || str_at(audio, "/data/0/type"@) == Some(
                "mp3"@,
            ) ==> m.mime_type == Some("audio/mpeg"@)
            &&& str_at(audio, "/data/0/type"@) matches Some(t) ==> (t != "mp3"@ ==> m.mime_type
                == Some("audio/"@ + t))
            &&& c.collection_items.len() == 0 && !c.sensitive
        },
        value_at(detail, "/songs/0"@) is None ==> song_content_of(url, id, resolved, detail, audio)
            == Err::<ParsedContentView, ErrorView>(ErrorView::Unavailable(url)),
{
}

/// Milliseconds are brought down to whole seconds.
pub proof fn law_seconds(ms: u64)
    ensures
        seconds_of(Some(ms)) matches Some(s) && 1000 * s <= ms < 1000 * (s + 1),
        seconds_of(None) is None,
{
}

/// A music video is one video file, fetched from the address that the reply gives, with the size
/// of that reply and the title, cover and duration of the video.
pub proof fn law_music_video(
    url: Seq<char>,
    id: Seq<char>,
    resolved: Seq<char>,
    quality: nat,
    detail: Json,
    urls: Json,
)
    ensures
        mv_content_of(url, id, resolved, quality, detail, urls) is Ok <==> str_at(
            urls,
            "/data/url"@,
        ) is Some,
        mv_content_of(url, id, resolved, quality, detail, urls) is Err ==> mv_content_of(
            url,
            id,
            resolved,
            quality,
            detail,
            urls,
        ) == Err::<ParsedContentView, ErrorView>(ErrorView::Unavailable(url)),
        mv_content_of(url, id, resolved, quality, detail, urls) matches Ok(c) ==> {
            let mv = if member(detail, "data"@) is Some {
                member(detail, "data"@)->0
            } else {
                detail
            };
            let m = c.media[0];
            &&& c.media.len() == 1
            &&& Some(m.source_url) == str_at(urls, "/data/url"@)
            &&& m.kind == MediaKind::Video && m.requires_download
            &&& m.size == u64_at(urls, "/data/size"@)
            &&& m.thumbnail_url == str_at(mv, "/cover"@)
            &&& m.duration_secs == seconds_of(u64_at(mv, "/duration"@))
            &&& m.cache_key == "netease:mv:"@ + id + ":"@ + decimal(quality)
            &&& m.filename == "netease-mv-"@ + id + ".mp4"@
            &&& m.mime_type == Some("video/mp4"@)
            &&& c.platform == Platform::Netease && c.kind == ContentKind::Video && c.id == id
            &&& c.canonical_url == resolved
            &&& str_at(mv, "/name"@) matches Some(name) ==> c.title == name
            &&& str_at(mv, "/desc"@) matches Some(text) ==> c.text == text
            &&& str_at(mv, "/artistName"@) matches Some(name) ==> c.author.name == name
            &&& c.stats.views == u64_at(mv, "/playCount"@)
            &&& c.stats.likes is None && c.stats.reposts is None && c.stats.replies is None
        },
{
}

proof fn lemma_names(items: Seq<Json>, n: int) -> (places: Seq<int>)
    requires
        0 <= n <= items.len(),
    ensures
        in_order(places, n),
        places.len() == artist_names(items, n).len(),
        forall|j: int|
            0 <= j < places.len() ==> member_str(items[places[j]], "name"@) == Some(
                #[trigger] artist_names(items, n)[j],
            ),
        forall|k: int|
            0 <= k < n && member_str(#[trigger] items[k], "name"@) is Some ==> places.contains(k),
    decreases n,
{
    if n <= 0 {
        Seq::empty()
    } else {
        let before = lemma_names(items, n - 1);
        lemma_in_order_push(before, n - 1);
        let had = artist_names(items, n - 1);
        match member_str(items[n - 1], "name"@) {
            Some(name) => {
                let places = before.push(n - 1);
                let all = artist_names(items, n);
                assert(all == had.push(name));
                assert forall|j: int| 0 <= j < places.len() implies member_str(
                    items[places[j]],
                    "name"@,
                ) == Some(#[trigger] all[j]) by {
                    if j < before.len() {
                        assert(all[j] == had[j]);
                        assert(places[j] == before[j]);
                    }
                }
                assert forall|k: int|
                    0 <= k < n && member_str(#[trigger] items[k], "name"@) is Some implies places.contains(
                    k,
                ) by {
                    if k < n - 1 {
                        let q = choose|q: int| 0 <= q < before.len() && before[q] == k;
                        assert(places[q] == k);
                    } else {
                        assert(places[places.len() - 1] == k);
                    }
                }
                places
            },
            None => before,
        }
    }
}

/// The artists are those of the list that have a name, all of them, in order, with a separator
/// between them.
pub proof fn law_artists(list: Json, items: Seq<Json>, sep: Seq<char>) -> (r: (
    Seq<int>,
    Seq<Seq<char>>,
))
    requires
        list_value(Some(list)) == Some(items),
    ensures
        in_order(r.0, items.len() as int),
        r.0.len() == r.1.len(),
        forall|j: int|
            0 <= j < r.0.len() ==> member_str(items[r.0[j]], "name"@) == Some(#[trigger] r.1[j]),
        forall|k: int|
            0 <= k < items.len() && member_str(#[trigger] items[k], "name"@) is Some
                ==> r.0.contains(k),
        artists_joined(Some(list), sep) == joined(r.1, sep, r.1.len() as int),
{
    (lemma_names(items, items.len() as int), artist_names(items, items.len() as int))
}

proof fn lemma_lines(tracks: Seq<Json>, n: int)
    requires
        0 <= n <= tracks.len(),
    ensures
        track_lines(tracks, n).len() == n,
        forall|i: int| 0 <= i < n ==> #[trigger] track_lines(tracks, n)[i] == track_line(tracks[i]),
    decreases n,
{
    if n > 0 {
        lemma_lines(tracks, n - 1);
    }
}

/// A track is shown by its name and its artists.
pub proof fn law_track_line(track: Json)
    ensures
        ({
            let artists = if member(track, "ar"@) is Some {
                member(track, "ar"@)
            } else {
                member(track, "artists"@)
            };
            member_str(track, "name"@) matches Some(name) ==> track_line(track) == name + " — "@
                + artists_joined(artists, "/ "@)
        }),
{
}

/// An album or a playlist shows its name, its cover, and the first thirty of its tracks: line
/// number `i` is that of track number `i`.
pub proof fn law_collection(id: Seq<char>, kind: NeteaseKind, root: Json)
    requires
        kind == NeteaseKind::Album || kind == NeteaseKind::Playlist,
    ensures
        ({
            let c = collection_content_of(id, kind, root);
            let album = kind == NeteaseKind::Album;
            let tracks = list_at(
                root,
                if album {
                    "/songs"@
                } else {
                    "/playlist/tracks"@
                },
            );
            let title = str_at(
                root,
                if album {
                    "/album/name"@
                } else {
                    "/playlist/name"@
                },
            );
            let cover = or_blank(
                str_at(
                    root,
                    if album {
                        "/album/picUrl"@
                    } else {
                        "/playlist/coverImgUrl"@
                    },
                ),
            );
            &&& c.collection_items.len() == (if tracks.len() <= 30 {
                tracks.len() as int
            } else {
                30
            })
            &&& forall|i: int|
                0 <= i < c.collection_items.len() ==> #[trigger] c.collection_items[i]
                    == track_line(tracks[i])
            &&& title matches Some(t) ==> c.title == t
            &&& c.kind == (if album {
                ContentKind::Album
            } else {
                ContentKind::Playlist
            })
            &&& c.canonical_url == (if album {
                "https://music.163.com/#/album?id="@
            } else {
                "https://music.163.com/#/playlist?id="@
            }) + id
            &&& c.id == id && c.platform == Platform::Netease && c.text.len() == 0
            &&& cover.len() == 0 ==> c.media.len() == 0
            &&& cover.len() > 0 ==> c.media.len() == 1 && c.media[0].source_url == cover
                && c.media[0].kind == MediaKind::Photo && !c.media[0].requires_download
                && c.media[0].cache_key == "netease:collection:"@ + id + ":cover"@
        }),
{
    let album = kind == NeteaseKind::Album;
    let tracks = list_at(
        root,
        if album {
            "/songs"@
        } else {
            "/playlist/tracks"@
        },
    );
    lemma_lines(
        tracks,
        if tracks.len() <= 30 {
            tracks.len() as int
        } else {
            30
        },
    );
}

/// A link names a playlist, an album or a music video where it says so, and a song otherwise.
pub proof fn law_kind_of_link(url: Seq<char>)
    ensures
        has_part(lowered(url), "playlist"@) ==> netease_kind(url) == NeteaseKind::Playlist,
        !has_part(lowered(url), "playlist"@) && has_part(lowered(url), "album"@) ==> netease_kind(
            url,
        ) == NeteaseKind::Album,
        !has_part(lowered(url), "playlist"@) && !has_part(lowered(url), "album"@) && (has_part(
            lowered(url),
            "/mv"@,
        ) || has_part(lowered(url), "m=mv"@)) ==> netease_kind(url) == NeteaseKind::Mv,
        !has_part(lowered(url), "playlist"@) && !has_part(lowered(url), "album"@) && !has_part(
            lowered(url),
            "/mv"@,
        ) && !has_part(lowered(url), "m=mv"@) ==> netease_kind(url) == NeteaseKind::Song,
{
}

/// The server is asked for the very work: a song and a music video twice, for what they are and
/// where they are, an album and a playlist once. The login goes with every question.
pub proof fn law_server_is_asked(
    url: Seq<char>,
    id: Seq<char>,
    quality: nat,
    detail: Json,
    cookie: Option<Seq<char>>,
    question: NeteaseQuestion,
)
    ensures
        question_of(first_asked(NeteaseKind::Song), id, quality) == ("/song/detail"@, seq![
            ("ids"@, id),
        ]),
        question_of(first_asked(NeteaseKind::Album), id, quality) == ("/album"@, seq![("id"@, id)]),
        question_of(first_asked(NeteaseKind::Playlist), id, quality) == ("/playlist/detail"@, seq![
            ("id"@, id),
        ]),
        question_of(first_asked(NeteaseKind::Mv), id, quality) == ("/mv/detail"@, seq![
            ("mvid"@, id),
        ]),
        value_at(detail, "/songs/0"@) is Some ==> (then_asked(
            url,
            NeteaseKind::Song,
            detail,
        ) matches Ok(Some(q)) && question_of(q, id, quality) == ("/song/url/v1"@, seq![
            ("id"@, id),
            ("level"@, "standard"@),
        ])),
        then_asked(url, NeteaseKind::Mv, detail) matches Ok(Some(q)) && question_of(q, id, quality)
            == ("/mv/url"@, seq![("id"@, id), ("r"@, decimal(quality))]),
        then_asked(url, NeteaseKind::Album, detail) == Ok::<Option<NeteaseQuestion>, ErrorView>(
            None,
        ),
        then_asked(url, NeteaseKind::Playlist, detail) == Ok::<Option<NeteaseQuestion>, ErrorView>(
            None,
        ),
        cookie matches Some(c) ==> with_cookie(
            question_of(question, id, quality).1,
            cookie,
        ).last() == ("cookie"@, c),
        cookie is None ==> with_cookie(question_of(question, id, quality).1, cookie)
            == question_of(question, id, quality).1,
{
}

proof fn lemma_edges_stay(s: Seq<char>)
    requires
        s.len() > 0,
        s[0] != ' ' && s[0] != '.',
        s.last() != ' ' && s.last() != '.',
    ensures
        trim_edge_end(trim_edge_start(s)) == s,
{
}

/// Whether a character can stand in a file name.
pub open spec fn safe_in_name(c: char) -> bool {
    c as u32 >= 0x20 && !(0x7f <= c as u32 <= 0x9f) && c != '/' && c != '\\' && c != ':' && c != '*'
        && c != '?' && c != '"' && c != '<' && c != '>' && c != '|'
}

/// A title that can be a file name names the file of a song, with the format behind it.
pub proof fn law_title_names_file(title: Seq<char>, id: Seq<char>, format: Seq<char>)
    requires
        0 < title.len() <= 120,
        forall|i: int| 0 <= i < title.len() ==> safe_in_name(#[trigger] title[i]),
        title[0] != ' ' && title[0] != '.',
        title.last() != ' ' && title.last() != '.',
    ensures
        song_name(title, id, format) == title + "."@ + audio_extension(format),
        format == "mp3"@ ==> audio_extension(format) == "mp3"@,
{
    assert forall|i: int| 0 <= i < title.len() implies title_char(title[i]) == title[i] by {
        assert(safe_in_name(title[i]));
    }
    assert(crate::provider::netease::title_chars(title) =~= title);
    lemma_edges_stay(title);
    reveal_strlit("mp3");
    if format == "mp3"@ {
        assert(lowered(format) =~= "mp3"@);
    }
}

/// The characters of a title that stand in a name: those that a name cannot hold become
/// underscores.
pub proof fn law_characters_of_title(c: char)
    ensures
        ({
            let n = c as u32;
            let control = n < 32 || 127 <= n <= 159;
            let held = c != '/' && c != '\\' && c != ':' && c != '*' && c != '?' && c != '"' && c
                != '<' && c != '>' && c != '|';
            &&& held && !control ==> title_char(c) == c
            &&& !held || control ==> title_char(c) == '_'
        }),
{
}

/// Spaces and dots at the ends of a title do not count, and a title of nothing else gives the name
/// to the number of the song.
pub proof fn law_ends_of_title(s: Seq<char>, c: char, id: Seq<char>, format: Seq<char>)
    ensures
        c == ' ' || c == '.' ==> trim_edge_start(seq![c] + s) == trim_edge_start(s),
        c == ' ' || c == '.' ==> trim_edge_end(s.push(c)) == trim_edge_end(s),
        song_name(Seq::empty(), id, format) == "netease-"@ + id + "."@ + audio_extension(format),
{
    assert((seq![c] + s).skip(1) =~= s);
    assert(s.push(c).drop_last() =~= s);
    let none = crate::provider::netease::title_chars(Seq::empty());
    assert(none.len() == 0);
    assert(trim_edge_start(none) == none);
    assert(trim_edge_end(none) == none);
}

/// The cover of an album or a playlist is named after it.
pub proof fn law_cover_of_collection(id: Seq<char>, kind: NeteaseKind, root: Json)
    ensures
        ({
            let c = collection_content_of(id, kind, root);
            let m = c.media[0];
            c.media.len() > 0 ==> {
                &&& c.media.len() == 1
                &&& m.kind == MediaKind::Photo && !m.requires_download
                &&& m.mime_type == Some("image/jpeg"@)
                &&& m.filename == "netease-collection-"@ + id + ".jpg"@
                &&& m.cache_key == "netease:collection:"@ + id + ":cover"@
            }
        }),
{
}

} // verus!
