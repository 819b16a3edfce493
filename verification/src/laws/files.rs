//! The names of files, and the frames of animations.
use vstd::prelude::*;

use crate::json::{member, text_value, unsigned_value, Json};
use crate::media::names::{
    concat_escaped, file_stem_of, frame_list_text, frames_of, host_or_unknown, items_of, key_part,
    last_file_of, last_name, preview_name, sanitized, youtube_format_text,
};
use crate::outside::url_parts;
use crate::text::{decimal, has_prefix, is_ascii_alnum, replaced, split_parts};

use super::text::{law_parts_of_text, law_replaced, law_split, lemma_last, lemma_none};
use super::{in_order, lemma_in_order_push};

verus! {

/// A safe name keeps ASCII letters, digits, dots, dashes and underscores; every other character
/// becomes an underscore.
pub proof fn law_safe_name(name: Seq<char>, i: int)
    requires
        0 <= i < name.len(),
    ensures
        sanitized(name).len() == name.len(),
        ({
            let c = name[i];
            let safe = is_ascii_alnum(c) || c == '.' || c == '-' || c == '_';
            sanitized(name)[i] == if safe {
                c
            } else {
                '_'
            }
        }),
        sanitized(Seq::empty()) == "media.bin"@,
{
}

/// A key becomes part of a file's name: colons and slashes become dashes.
pub proof fn law_key_in_name(key: Seq<char>, i: int)
    requires
        0 <= i < key.len(),
    ensures
        key_part(key).len() == key.len(),
        key[i] == ':' || key[i] == '/' || key[i] == '\\' ==> key_part(key)[i] == '-',
        key[i] != ':' && key[i] != '/' && key[i] != '\\' ==> key_part(key)[i] == key[i],
{
}

/// A path is quoted character by character: backslashes become slashes, and a quote is closed,
/// escaped and opened again.
pub proof fn law_path_is_quoted(path: Seq<char>, c: char)
    ensures
        concat_escaped(Seq::empty()).len() == 0,
        concat_escaped(path.push(c)) == concat_escaped(path) + (if c == '\\' {
            "/"@
        } else if c == '\'' {
            "'\\''"@
        } else {
            seq![c]
        }),
{
    reveal_strlit("/");
    let slashes = replaced(path, '\\', "/"@, path.len() as int);
    let x = if c == '\\' {
        '/'
    } else {
        c
    };
    law_replaced(path, '\\', "/"@, c);
    law_replaced(Seq::empty(), '\\', "/"@, c);
    assert(replaced(path.push(c), '\\', "/"@, path.len() as int + 1) =~= slashes.push(x));
    law_replaced(slashes, '\'', "'\\''"@, x);
    assert("/"@ =~= seq!['/']);
}

proof fn lemma_last_name(parts: Seq<Seq<char>>, more: Seq<char>, n: int)
    requires
        0 <= n <= parts.len(),
    ensures
        last_name(parts.push(more), n) == last_name(parts, n),
    decreases n,
{
    if n > 0 {
        lemma_last_name(parts, more, n - 1);
    }
}

/// The stem of a file is its name without the directories before it and without what follows the
/// last dot; a slash at the end does not matter.
pub proof fn law_stem_of_file(dir: Seq<char>, stem: Seq<char>, ext: Seq<char>, path: Seq<char>)
    requires
        stem.len() > 0,
        ext.len() > 0,
        !stem.contains('/'),
        !ext.contains('/'),
        !ext.contains('.'),
    ensures
        file_stem_of(stem.push('.') + ext) == Some(stem),
        file_stem_of(dir.push('/') + (stem.push('.') + ext)) == Some(stem),
        file_stem_of(path.push('/')) == file_stem_of(path),
{
    let name = stem.push('.') + ext;
    assert(!name.contains('/')) by {
        if name.contains('/') {
            let i = choose|i: int| 0 <= i < name.len() && name[i] == '/';
            if i < stem.len() {
                assert(stem[i] == '/');
            } else if i > stem.len() {
                assert(ext[i - stem.len() - 1] == '/');
            }
        }
    }
    reveal_strlit(".");
    reveal_strlit("..");
    assert(ext.contains(ext.last()));
    assert(name.last() == ext.last());
    law_split(dir, '/', name);
    assert forall|i: int| stem.len() < i < name.len() implies #[trigger] name[i] != '.' by {
        assert(ext.contains(ext[i - stem.len() - 1]));
    }
    lemma_last(name, '.', name.len() as int, stem.len() as int);
    assert(name.take(stem.len() as int) =~= stem);
    law_split(path, '/', Seq::empty());
    assert(path.push('/') + Seq::<char>::empty() =~= path.push('/'));
    let parts = split_parts(path, '/');
    lemma_last_name(parts, Seq::empty(), parts.len() as int);
}

/// A name without a dot, or with one at its beginning alone, is its own stem.
pub proof fn law_stem_of_plain_name(name: Seq<char>)
    requires
        name.len() > 0,
        !name.contains('/'),
        !name.contains('.'),
    ensures
        file_stem_of(name) == Some(name),
        file_stem_of(seq!['.'] + name) == Some(seq!['.'] + name),
{
    reveal_strlit(".");
    reveal_strlit("..");
    assert(name.contains(name[0]));
    let hidden = seq!['.'] + name;
    assert(hidden[1] == name[0]);
    assert(!hidden.contains('/')) by {
        if hidden.contains('/') {
            let i = choose|i: int| 0 <= i < hidden.len() && hidden[i] == '/';
            assert(name[i - 1] == '/');
        }
    }
    law_split(Seq::empty(), '/', name);
    law_split(Seq::empty(), '/', hidden);
    lemma_none(name, '.', name.len() as int);
    assert forall|i: int| 0 < i < hidden.len() implies #[trigger] hidden[i] != '.' by {
        assert(name.contains(name[i - 1]));
    }
    lemma_last(hidden, '.', hidden.len() as int, 0);
}

/// A preview is named after the photo.
pub proof fn law_preview_is_named(stem: Seq<char>, ext: Seq<char>)
    requires
        stem.len() > 0,
        ext.len() > 0,
        !stem.contains('/'),
        !ext.contains('/'),
        !ext.contains('.'),
    ensures
        preview_name(stem.push('.') + ext) == stem + "-preview.jpg"@,
        preview_name(Seq::empty()) == "photo-preview.jpg"@,
{
    law_stem_of_file(Seq::empty(), stem, ext, Seq::empty());
    law_split(Seq::empty(), '/', Seq::empty());
    reveal_strlit("photo");
    reveal_strlit("-preview.jpg");
    reveal_strlit("photo-preview.jpg");
    let parts = split_parts(Seq::empty(), '/');
    assert(parts.len() == 1 && parts[0].len() == 0);
    assert(last_name(parts, 0) is None);
    assert(file_stem_of(Seq::empty()) is None);
    assert("photo"@ + "-preview.jpg"@ =~= "photo-preview.jpg"@);
}

/// The host of an address, where there is one.
pub proof fn law_host_is_named(url: Seq<char>, host: Seq<char>)
    ensures
        url_parts(url) is Some && url_parts(url)->0.host == Some(host) ==> host_or_unknown(url) == host,
        url_parts(url) is None ==> host_or_unknown(url) == "unknown"@,
{
}

/// The frames of an animation are the entries that name a file, in order, each shown as long as it
/// says, or sixty milliseconds.
pub proof fn law_frames(items: Seq<Json>, n: int) -> (places: Seq<int>)
    requires
        0 <= n <= items.len(),
    ensures
        in_order(places, n),
        places.len() == frames_of(items, n).len(),
        forall|j: int|
            0 <= j < places.len() ==> is_frame(items[places[j]], #[trigger] frames_of(items, n)[j]),
        forall|k: int|
            0 <= k < n && text_value(member(#[trigger] items[k], "file"@)) is Some
                ==> places.contains(k),
    decreases n,
{
    if n <= 0 {
        Seq::empty()
    } else {
        let before = law_frames(items, n - 1);
        lemma_in_order_push(before, n - 1);
        let last = items[n - 1];
        if text_value(member(last, "file"@)) is Some {
            let places = before.push(n - 1);
            assert(is_frame(last, frames_of(items, n).last()));
            assert forall|j: int| 0 <= j < places.len() implies is_frame(
                items[places[j]],
                #[trigger] frames_of(items, n)[j],
            ) by {
                if j < before.len() {
                    assert(frames_of(items, n)[j] == frames_of(items, n - 1)[j]);
                }
            }
            assert forall|k: int|
                0 <= k < n && text_value(member(#[trigger] items[k], "file"@))
                    is Some implies places.contains(k) by {
                if k < n - 1 {
                    assert(before.contains(k));
                    let at = choose|at: int| 0 <= at < before.len() && before[at] == k;
                    assert(places[at] == k);
                } else {
                    assert(places[before.len() as int] == k);
                }
            }
            places
        } else {
            before
        }
    }
}

/// Whether an entry of a list describes a frame.
pub open spec fn is_frame(entry: Json, frame: (Seq<char>, u64)) -> bool {
    let delay = unsigned_value(member(entry, "delay"@));
    &&& text_value(member(entry, "file"@)) == Some(frame.0)
    &&& delay is Some ==> frame.1 == delay->0
    &&& delay is None ==> frame.1 == 60
}

/// The last file of a list of frames is the file of its last entry.
pub proof fn law_last_frame(items: Vec<Json>)
    ensures
        items@.len() > 0 ==> last_file_of(Json::List(items)) == text_value(
            member(items@.last(), "file"@),
        ),
        items@.len() == 0 ==> last_file_of(Json::List(items)) is None,
        items_of(Json::List(items)) == items@,
{
}

/// The frames of an animation stand behind their mark.
pub proof fn law_frame_list(list: Seq<char>)
    ensures
        frame_list_text("ugoira:"@ + list) == list,
{
    law_parts_of_text(Seq::empty(), "ugoira:"@, list);
}

/// A video of YouTube is chosen among those that are not higher than wanted: one file with both
/// picture and sound that plays at once, then two files that do, then any.
pub proof fn law_format_of_youtube(quality: nat)
    ensures
        ({
            let bound = "[height<="@ + decimal(quality) + "]"@;
            youtube_format_text(quality) == "best"@ + bound
                + "[ext=mp4][vcodec^=avc1][acodec^=mp4a]"@ + "/"@ + "bestvideo"@ + bound
                + "[vcodec^=avc1]+bestaudio[acodec^=mp4a]"@ + "/"@ + "best"@ + bound + "[ext=mp4]"@
                + "/"@ + "best"@ + bound
        }),
{
    reveal_strlit("[height<=");
    reveal_strlit("]");
    reveal_strlit("best");
    reveal_strlit("bestvideo");
    reveal_strlit("/");
    reveal_strlit("[ext=mp4]");
    reveal_strlit("[ext=mp4][vcodec^=avc1][acodec^=mp4a]");
    reveal_strlit("[vcodec^=avc1]+bestaudio[acodec^=mp4a]");
    reveal_strlit("best[height<=");
    reveal_strlit("][ext=mp4][vcodec^=avc1][acodec^=mp4a]/bestvideo[height<=");
    reveal_strlit("][vcodec^=avc1]+bestaudio[acodec^=mp4a]/best[height<=");
    reveal_strlit("][ext=mp4]/best[height<=");
    let d = decimal(quality);
    assert("best[height<="@ =~= "best"@ + "[height<="@);
    assert("][ext=mp4][vcodec^=avc1][acodec^=mp4a]/bestvideo[height<="@ =~= "]"@
        + "[ext=mp4][vcodec^=avc1][acodec^=mp4a]"@ + "/"@ + "bestvideo"@ + "[height<="@);
    assert("][vcodec^=avc1]+bestaudio[acodec^=mp4a]/best[height<="@ =~= "]"@
        + "[vcodec^=avc1]+bestaudio[acodec^=mp4a]"@ + "/"@ + "best"@ + "[height<="@);
    assert("][ext=mp4]/best[height<="@ =~= "]"@ + "[ext=mp4]"@ + "/"@ + "best"@ + "[height<="@);
    let bound = "[height<="@ + d + "]"@;
    assert(youtube_format_text(quality) =~= "best"@ + bound
        + "[ext=mp4][vcodec^=avc1][acodec^=mp4a]"@ + "/"@ + "bestvideo"@ + bound
        + "[vcodec^=avc1]+bestaudio[acodec^=mp4a]"@ + "/"@ + "best"@ + bound + "[ext=mp4]"@ + "/"@
        + "best"@ + bound);
}

/// A directory above has no name.
pub proof fn law_no_stem_of_directory(dir: Seq<char>)
    ensures
        file_stem_of(".."@) is None,
        file_stem_of(dir.push('/') + ".."@) is None,
{
    reveal_strlit(".");
    reveal_strlit("..");
    assert(!(".."@).contains('/'));
    law_split(dir, '/', ".."@);
}

/// An address without a host has none to name; an item without frames has an empty list.
pub proof fn law_nothing_to_name(url: Seq<char>, text: Seq<char>)
    ensures
        url_parts(url) is Some && url_parts(url)->0.host is None ==> host_or_unknown(url)
            == "unknown"@,
        !has_prefix(text, "ugoira:"@) ==> frame_list_text(text) == "[]"@,
{
}

} // verus!
