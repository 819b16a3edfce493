//! Names of files: made from titles and keys that may hold anything.
use vstd::prelude::*;

use crate::json::{json_document, list_value, member, parse_json, text_value, unsigned_value, Json};
use crate::outside::{parse_url, url_parts};
use crate::text::{
    ascii_alnum, cat2, cat3, chars_of, decimal, find_last, is_ascii_alnum, last_index,
    law_decimal_read_back, lemma_decimal_digits, number_text, opt_text, replace_char, replaced,
    same, split_char, split_parts, strip_prefix, text_between, text_of, texts, without_prefix,
};

use super::{PrepareError, PrepareErrorView};

verus! {

/// What stands for a character in a file name: letters and digits of ASCII, the full stop, the
/// hyphen and the underscore stay.
pub open spec fn safe_char(c: char) -> char {
    if is_ascii_alnum(c) || c == '.' || c == '-' || c == '_' {
        c
    } else {
        '_'
    }
}

/// A file name with every other character replaced; a name is made up where there is none.
pub open spec fn sanitized(name: Seq<char>) -> Seq<char> {
    if name.len() == 0 {
        "media.bin"@
    } else {
        name.map_values(|c: char| safe_char(c))
    }
}

pub fn sanitize(name: &str) -> (r: String)
    ensures
        r@ == sanitized(name@),
{
    let chars = chars_of(name);
    if chars.len() == 0 {
        return "media.bin".to_owned();
    }
    let mut out: Vec<char> = Vec::new();
    let mut i: usize = 0;
    while i < chars.len()
        invariant
            i <= chars@.len(),
            out@ == chars@.map_values(|c: char| safe_char(c)).take(i as int),
        decreases chars.len() - i,
    {
        let c = chars[i];
        if ascii_alnum(c) || c == '.' || c == '-' || c == '_' {
            out.push(c);
        } else {
            out.push('_');
        }
        i += 1;
        assert(out@ =~= chars@.map_values(|c: char| safe_char(c)).take(i as int));
    }
    assert(out@ =~= chars@.map_values(|c: char| safe_char(c)));
    text_of(&out)
}

/// A sanitized name holds only characters that are safe in a file name, and sanitizing it again
/// changes nothing.
pub proof fn law_sanitized_is_safe(name: Seq<char>)
    ensures
        forall|i: int|
            0 <= i < sanitized(name).len() ==> safe_char(#[trigger] sanitized(name)[i])
                == sanitized(name)[i],
        sanitized(name).len() > 0,
        sanitized(sanitized(name)) == sanitized(name),
{
    reveal_strlit("media.bin");
    assert(sanitized(sanitized(name)) =~= sanitized(name));
}

/// A key with `:`, `/` and `\` replaced by hyphens.
pub open spec fn key_part(key: Seq<char>) -> Seq<char> {
    key.map_values(
        |c: char|
            if c == ':' || c == '/' || c == '\\' {
                '-'
            } else {
                c
            },
    )
}

/// The start of the names of the temporary files of one job: the key of the media and the
/// number of the job.
pub fn unique_temp_key(cache_key: &str, sequence: u64) -> (r: String)
    ensures
        r@ == key_part(cache_key@) + "-"@ + decimal(sequence as nat),
{
    let chars = chars_of(cache_key);
    let mut out: Vec<char> = Vec::new();
    let mut i: usize = 0;
    while i < chars.len()
        invariant
            i <= chars@.len(),
            out@ == key_part(chars@).take(i as int),
        decreases chars.len() - i,
    {
        let c = chars[i];
        if c == ':' || c == '/' || c == '\\' {
            out.push('-');
        } else {
            out.push(c);
        }
        i += 1;
        assert(out@ =~= key_part(chars@).take(i as int));
    }
    assert(out@ =~= key_part(chars@));
    cat3(text_of(&out).as_str(), "-", number_text(sequence).as_str())
}

/// The files of two jobs never have the same names, whatever the media are.
pub proof fn law_temp_keys_differ(first: Seq<char>, second: Seq<char>, m: u64, n: u64)
    requires
        m != n,
    ensures
        key_part(first) + "-"@ + decimal(m as nat) != key_part(second) + "-"@ + decimal(n as nat),
{
    reveal_strlit("-");
    let a = key_part(first) + "-"@ + decimal(m as nat);
    let b = key_part(second) + "-"@ + decimal(n as nat);
    let p = decimal(m as nat);
    let q = decimal(n as nat);
    law_decimal_read_back(m as nat, u64::MAX as nat);
    law_decimal_read_back(n as nat, u64::MAX as nat);
    lemma_decimal_digits(m as nat);
    lemma_decimal_digits(n as nat);
    if a == b {
        if p.len() == q.len() {
            assert(p =~= a.skip(a.len() - p.len()));
            assert(q =~= b.skip(b.len() - q.len()));
        } else if p.len() < q.len() {
            let at = a.len() - p.len() - 1;
            assert(a[at] == '-');
            assert(b[at] == q[at - (b.len() - q.len())]);
        } else {
            let at = b.len() - q.len() - 1;
            assert(b[at] == '-');
            assert(a[at] == p[at - (a.len() - p.len())]);
        }
    }
}

/// A path in the single quotes of a concat list: backslashes become slashes, and a quote is
/// written outside the quotes.
pub open spec fn concat_escaped(path: Seq<char>) -> Seq<char> {
    let slashes = replaced(path, '\\', "/"@, path.len() as int);
    replaced(slashes, '\'', "'\\''"@, slashes.len() as int)
}

pub fn concat_escape(path: &str) -> (r: String)
    ensures
        r@ == concat_escaped(path@),
{
    let slashes = replace_char(path, '\\', "/");
    replace_char(slashes.as_str(), '\'', "'\\''")
}

/// The last of the first `n` parts that names something: not empty and not a full stop.
pub open spec fn last_name(parts: Seq<Seq<char>>, n: int) -> Option<Seq<char>>
    decreases n,
{
    if n <= 0 {
        None
    } else if parts[n - 1].len() == 0 || parts[n - 1] == "."@ {
        last_name(parts, n - 1)
    } else if parts[n - 1] == ".."@ {
        None
    } else {
        Some(parts[n - 1])
    }
}

/// The name of the file at a path, without what follows its last full stop. A full stop at the
/// start of the name does not count.
pub open spec fn file_stem_of(path: Seq<char>) -> Option<Seq<char>> {
    match last_name(split_parts(path, '/'), split_parts(path, '/').len() as int) {
        Some(name) => Some(
            match last_index(name, '.', name.len() as int) {
                Some(at) => if at > 0 {
                    name.take(at)
                } else {
                    name
                },
                None => name,
            },
        ),
        None => None,
    }
}

pub fn file_stem(path: &str) -> (r: Option<String>)
    ensures
        opt_text(r) == file_stem_of(path@),
{
    let parts = split_char(path, '/');
    let ghost all = split_parts(path@, '/');
    let mut i: usize = parts.len();
    while i > 0
        invariant
            i <= parts@.len(),
            texts(parts@) == all,
            all == split_parts(path@, '/'),
            last_name(all, all.len() as int) == last_name(all, i as int),
        decreases i,
    {
        assert(parts@[i - 1]@ == all[i - 1]);
        let name = parts[i - 1].as_str();
        let chars = chars_of(name);
        if chars.len() == 0 || same(name, ".") {
            i -= 1;
        } else if same(name, "..") {
            return None;
        } else {
            match find_last(&chars, '.') {
                Some(at) => {
                    if at > 0 {
                        let stem = text_between(&chars, 0, at);
                        assert(stem@ =~= chars@.take(at as int));
                        return Some(stem);
                    }
                },
                None => {},
            }
            return Some(text_of(&chars));
        }
    }
    None
}

/// The name of the preview of a photo.
pub open spec fn preview_name(filename: Seq<char>) -> Seq<char> {
    (match file_stem_of(filename) {
        Some(stem) => if stem.len() > 0 {
            stem
        } else {
            "photo"@
        },
        None => "photo"@,
    }) + "-preview.jpg"@
}

pub fn preview_filename(filename: &str) -> (r: String)
    ensures
        r@ == preview_name(filename@),
{
    match file_stem(filename) {
        Some(stem) => {
            if !crate::text::empty(stem.as_str()) {
                return cat2(stem.as_str(), "-preview.jpg");
            }
        },
        None => {},
    }
    cat2("photo", "-preview.jpg")
}

/// The host of a URL, for messages.
pub open spec fn host_or_unknown(url: Seq<char>) -> Seq<char> {
    match url_parts(url) {
        Some(parts) => match parts.host {
            Some(host) => host,
            None => "unknown"@,
        },
        None => "unknown"@,
    }
}

pub fn url_host(url: &str) -> (r: String)
    ensures
        r@ == host_or_unknown(url@),
{
    match parse_url(url) {
        Some(parts) => match parts.host {
            Some(host) => host,
            None => "unknown".to_owned(),
        },
        None => "unknown".to_owned(),
    }
}

/// One picture of an animation: its file in the archive, and how many milliseconds it is shown.
#[derive(Debug)]
pub struct UgoiraFrame {
    pub file: String,
    pub delay_ms: u64,
}

/// The frame that an item of the list describes.
pub open spec fn frame_of(item: Json) -> Option<(Seq<char>, u64)> {
    match text_value(member(item, "file"@)) {
        Some(file) => Some(
            (
                file,
                match unsigned_value(member(item, "delay"@)) {
                    Some(ms) => ms,
                    None => 60,
                },
            ),
        ),
        None => None,
    }
}

/// The frames of the first `n` items; items without a file are left out.
pub open spec fn frames_of(items: Seq<Json>, n: int) -> Seq<(Seq<char>, u64)>
    decreases n,
{
    if n <= 0 {
        Seq::empty()
    } else {
        match frame_of(items[n - 1]) {
            Some(frame) => frames_of(items, n - 1).push(frame),
            None => frames_of(items, n - 1),
        }
    }
}

/// The frames as plain values.
pub open spec fn frame_views(frames: Seq<UgoiraFrame>) -> Seq<(Seq<char>, u64)> {
    Seq::new(frames.len(), |i: int| (frames[i].file@, frames[i].delay_ms))
}

/// The items of a list, or none where the document is not a list.
pub open spec fn items_of(document: Json) -> Seq<Json> {
    match list_value(Some(document)) {
        Some(items) => items,
        None => Seq::empty(),
    }
}

fn frame_in(item: &Json) -> (r: Option<UgoiraFrame>)
    ensures
        (match r {
            Some(f) => Some((f.file@, f.delay_ms)),
            None => None,
        }) == frame_of(*item),
{
    let file = match item.get("file") {
        Some(value) => value.as_str(),
        None => None,
    };
    let delay = match item.get("delay") {
        Some(value) => value.as_u64(),
        None => None,
    };
    match file {
        Some(file) => Some(
            UgoiraFrame {
                file,
                delay_ms: match delay {
                    Some(ms) => ms,
                    None => 60,
                },
            },
        ),
        None => None,
    }
}

/// The frames that a document lists.
pub fn ugoira_frames(document: &Json) -> (r: Vec<UgoiraFrame>)
    ensures
        frame_views(r@) == frames_of(items_of(*document), items_of(*document).len() as int),
{
    let mut out: Vec<UgoiraFrame> = Vec::new();
    match document.as_array() {
        Some(items) => {
            let mut i: usize = 0;
            assert(frame_views(out@) =~= Seq::<(Seq<char>, u64)>::empty());
            while i < items.len()
                invariant
                    i <= items@.len(),
                    frame_views(out@) == frames_of(items@, i as int),
                decreases items.len() - i,
            {
                match frame_in(&items[i]) {
                    Some(frame) => {
                        let ghost before = out@;
                        out.push(frame);
                        assert(frame_views(out@) =~= frame_views(before).push(
                            (frame.file@, frame.delay_ms),
                        ));
                    },
                    None => {},
                }
                i += 1;
            }
        },
        None => {
            assert(frame_views(out@) =~= Seq::<(Seq<char>, u64)>::empty());
        },
    }
    out
}

/// The file of the last item, which is listed once more at the end.
pub open spec fn last_file_of(document: Json) -> Option<Seq<char>> {
    let items = items_of(document);
    if items.len() > 0 {
        text_value(member(items[items.len() - 1], "file"@))
    } else {
        None
    }
}

pub fn ugoira_last_file(document: &Json) -> (r: Option<String>)
    ensures
        opt_text(r) == last_file_of(*document),
{
    match document.as_array() {
        Some(items) => {
            if items.len() > 0 {
                match items[items.len() - 1].get("file") {
                    Some(value) => value.as_str(),
                    None => None,
                }
            } else {
                None
            }
        },
        None => None,
    }
}

/// The list of frames that the second address of an animation carries behind its mark.
pub open spec fn frame_list_text(metadata: Seq<char>) -> Seq<char> {
    match without_prefix(metadata, "ugoira:"@) {
        Some(rest) => rest,
        None => "[]"@,
    }
}

/// Reads the list of frames that the second address of an animation carries.
pub fn ugoira_document(metadata: &str) -> (r: Result<Json, PrepareError>)
    ensures
        match r {
            Ok(document) => json_document(frame_list_text(metadata@)) == Ok::<Json, Seq<char>>(
                document,
            ),
            Err(error) => json_document(frame_list_text(metadata@)) is Err && error@
                == PrepareErrorView::Failed(json_document(frame_list_text(metadata@))->Err_0),
        },
{
    let list = match strip_prefix(metadata, "ugoira:") {
        Some(rest) => rest,
        None => "[]".to_owned(),
    };
    match parse_json(list.as_str()) {
        Ok(document) => Ok(document),
        Err(message) => Err(PrepareError::Failed(message)),
    }
}

/// One entry of a concat list: a file and how many seconds it is shown.
pub fn concat_entry(path: &str, seconds: &str) -> (r: String)
    ensures
        r@ == "file '"@ + concat_escaped(path@) + "'\nduration "@ + seconds@ + "\n"@,
{
    crate::text::cat5("file '", concat_escape(path).as_str(), "'\nduration ", seconds, "\n")
}

/// The last entry of a concat list: a file.
pub fn concat_last_entry(path: &str) -> (r: String)
    ensures
        r@ == "file '"@ + concat_escaped(path@) + "'\n"@,
{
    cat3("file '", concat_escape(path).as_str(), "'\n")
}

/// The formats that are asked of the YouTube downloader: one file with sound first, then a
/// video to be merged with its sound, none higher than the quality.
pub open spec fn youtube_format_text(quality: nat) -> Seq<char> {
    "best[height<="@ + decimal(quality)
        + "][ext=mp4][vcodec^=avc1][acodec^=mp4a]/bestvideo[height<="@ + decimal(quality)
        + "][vcodec^=avc1]+bestaudio[acodec^=mp4a]/best[height<="@ + decimal(quality)
        + "][ext=mp4]/best[height<="@ + decimal(quality) + "]"@
}

pub fn youtube_format(quality: u32) -> (r: String)
    ensures
        r@ == youtube_format_text(quality as nat),
{
    let q = number_text(quality as u64);
    let q = q.as_str();
    let mut r = crate::text::cat5(
        "best[height<=",
        q,
        "][ext=mp4][vcodec^=avc1][acodec^=mp4a]/bestvideo[height<=",
        q,
        "][vcodec^=avc1]+bestaudio[acodec^=mp4a]/best[height<=",
    );
    r.append(q);
    r.append("][ext=mp4]/best[height<=");
    r.append(q);
    r.append("]");
    r
}

} // verus!
