//! What the library takes from other crates: regular expressions, URLs, HTML entities, digests
//! and QR codes.
use vstd::prelude::*;

use crate::text::{opt_text, pair_texts, texts};

verus! {

/// The characters of each optional string of a list.
pub open spec fn opt_texts(values: Seq<Option<String>>) -> Seq<Option<Seq<char>>> {
    Seq::new(values.len(), |i: int| opt_text(values[i]))
}

/// Where a regular expression first matches: the text before the match, the groups, of which
/// the first is the whole match, and the text after it.
#[derive(Debug)]
pub struct Captures {
    pub before: String,
    pub groups: Vec<Option<String>>,
    pub after: String,
}

/// A match as plain characters.
#[verifier::ext_equal]
pub struct CapturesView {
    pub before: Seq<char>,
    pub groups: Seq<Option<Seq<char>>>,
    pub after: Seq<char>,
}

impl View for Captures {
    type V = CapturesView;

    open spec fn view(&self) -> CapturesView {
        CapturesView {
            before: self.before@,
            groups: opt_texts(self.groups@),
            after: self.after@,
        }
    }
}

/// The first match of a pattern in a text, as `regex::Regex::captures` finds it; none where the
/// pattern is not a regular expression.
pub uninterp spec fn regex_match(pattern: Seq<char>, text: Seq<char>) -> Option<CapturesView>;

/// Whether a pattern matches anywhere in a text.
pub open spec fn regex_found(pattern: Seq<char>, text: Seq<char>) -> bool {
    regex_match(pattern, text) is Some
}

/// The text of a group, where the pattern matches and the group takes part.
pub open spec fn regex_group(pattern: Seq<char>, text: Seq<char>, group: int) -> Option<Seq<char>> {
    match regex_match(pattern, text) {
        Some(m) => if 0 <= group < m.groups.len() {
            m.groups[group]
        } else {
            None
        },
        None => None,
    }
}

/// `regex::Regex::captures`: the leftmost match. It depends on the pattern and the text alone
/// and is given a name; the text is the match with what stands before and after it.
#[verifier::external_body]
pub(crate) fn captures(pattern: &str, text: &str) -> (r: Option<Captures>)
    ensures
        match r {
            Some(m) => {
                &&& regex_match(pattern@, text@) == Some(m@)
                &&& m@.groups.len() >= 1
                &&& m@.groups[0] is Some
                &&& m@.before + m@.groups[0]->0 + m@.after == text@
            },
            None => regex_match(pattern@, text@) is None,
        },
{
    let m = regex::Regex::new(pattern).ok()?.captures(text)?;
    let whole = m.get(0)?;
    Some(
        Captures {
            before: text[..whole.start()].to_string(),
            groups: m.iter().map(|group| group.map(|g| g.as_str().to_string())).collect(),
            after: text[whole.end()..].to_string(),
        },
    )
}

/// Whether a pattern matches anywhere in a text.
pub fn is_match(pattern: &str, text: &str) -> (r: bool)
    ensures
        r == regex_found(pattern@, text@),
{
    captures(pattern, text).is_some()
}

/// The text of a group of the first match.
pub fn capture_group(pattern: &str, text: &str, group: usize) -> (r: Option<String>)
    ensures
        opt_text(r) == regex_group(pattern@, text@, group as int),
{
    match captures(pattern, text) {
        Some(m) => {
            if group < m.groups.len() {
                assert(opt_texts(m.groups@)[group as int] == opt_text(m.groups@[group as int]));
                match &m.groups[group] {
                    Some(s) => Some(s.clone()),
                    None => None,
                }
            } else {
                None
            }
        },
        None => None,
    }
}

/// The matches of a pattern in a text, in order, as `regex::Regex::find_iter` finds them.
pub uninterp spec fn regex_matches(pattern: Seq<char>, text: Seq<char>) -> Seq<Seq<char>>;

/// `regex::Regex::find_iter`: all matches that do not overlap, from left to right. They depend
/// on the pattern and the text alone and are given a name.
#[verifier::external_body]
pub(crate) fn find_all(pattern: &str, text: &str) -> (r: Vec<String>)
    ensures
        texts(r@) == regex_matches(pattern@, text@),
{
    match regex::Regex::new(pattern) {
        Ok(re) => re.find_iter(text).map(|m| m.as_str().to_string()).collect(),
        Err(_) => Vec::new(),
    }
}

/// A text without the matches of a pattern, as `regex::Regex::replace_all` leaves it.
pub uninterp spec fn regex_removed(pattern: Seq<char>, text: Seq<char>) -> Seq<char>;

/// `regex::Regex::replace_all` with an empty replacement. The result depends on the pattern and
/// the text alone and is given a name.
#[verifier::external_body]
pub(crate) fn remove_all(pattern: &str, text: &str) -> (r: String)
    ensures
        r@ == regex_removed(pattern@, text@),
{
    match regex::Regex::new(pattern) {
        Ok(re) => re.replace_all(text, "").into_owned(),
        Err(_) => text.to_string(),
    }
}

/// The parts of a URL that the library reads.
#[derive(Debug)]
pub struct UrlParts {
    /// The URL as it is written after parsing.
    pub text: String,
    pub host: Option<String>,
    /// The segments of the path; none where the URL cannot be a base.
    pub segments: Option<Vec<String>>,
    /// The names and values of the query, decoded.
    pub query: Vec<(String, String)>,
}

/// The parts of a URL as plain characters.
#[verifier::ext_equal]
pub struct UrlView {
    pub text: Seq<char>,
    pub host: Option<Seq<char>>,
    pub segments: Option<Seq<Seq<char>>>,
    pub query: Seq<(Seq<char>, Seq<char>)>,
}

impl View for UrlParts {
    type V = UrlView;

    open spec fn view(&self) -> UrlView {
        UrlView {
            text: self.text@,
            host: opt_text(self.host),
            segments: match self.segments {
                Some(s) => Some(texts(s@)),
                None => None,
            },
            query: pair_texts(self.query@),
        }
    }
}

/// What `url::Url::parse` reads from a text; none where it is not a URL.
pub uninterp spec fn url_parts(text: Seq<char>) -> Option<UrlView>;

/// `url::Url::parse`, with the host, the path segments and the query pairs that the URL then
/// has. They depend on the text alone and are given a name.
#[verifier::external_body]
pub(crate) fn parse_url(text: &str) -> (r: Option<UrlParts>)
    ensures
        match r {
            Some(parts) => url_parts(text@) == Some(parts@),
            None => url_parts(text@) is None,
        },
{
    let url = url::Url::parse(text).ok()?;
    Some(
        UrlParts {
            text: url.to_string(),
            host: url.host_str().map(str::to_string),
            segments: url.path_segments().map(|s| s.map(str::to_string).collect()),
            query: url.query_pairs().into_owned().collect(),
        },
    )
}

/// A URL with another host and port, as `url::Url::set_host` and `url::Url::set_port` make it;
/// none where the text is not a URL that can have them.
pub uninterp spec fn url_with_host(
    text: Seq<char>,
    host: Seq<char>,
    port: Option<u16>,
) -> Option<Seq<char>>;

/// `url::Url::parse`, `set_host` and `set_port`, where no port takes the port off. The result
/// depends on the two texts and the port alone and is given a name.
#[verifier::external_body]
pub(crate) fn rewrite_cdn_host(text: &str, host: &str, port: Option<u16>) -> (r: Option<String>)
    ensures
        opt_text(r) == url_with_host(text@, host@, port),
{
    let mut url = url::Url::parse(text).ok()?;
    url.set_host(Some(host)).ok()?;
    url.set_port(port).ok()?;
    Some(url.into())
}

/// What stands for a character in HTML text.
pub open spec fn escaped_char(c: char) -> Seq<char> {
    if c == '&' {
        "&amp;"@
    } else if c == '<' {
        "&lt;"@
    } else if c == '>' {
        "&gt;"@
    } else {
        seq![c]
    }
}

/// The first `n` characters in HTML text.
pub open spec fn escaped_text(s: Seq<char>, n: int) -> Seq<char>
    decreases n,
{
    if n <= 0 {
        Seq::empty()
    } else {
        escaped_text(s, n - 1) + escaped_char(s[n - 1])
    }
}

/// What stands for a character in a double-quoted HTML attribute.
pub open spec fn quoted_char(c: char) -> Seq<char> {
    if c == '"' {
        "&quot;"@
    } else {
        escaped_char(c)
    }
}

/// The first `n` characters in a double-quoted HTML attribute.
pub open spec fn quoted_text(s: Seq<char>, n: int) -> Seq<char>
    decreases n,
{
    if n <= 0 {
        Seq::empty()
    } else {
        quoted_text(s, n - 1) + quoted_char(s[n - 1])
    }
}

/// `html_escape::encode_text`: `&`, `<` and `>` become entities, all else stays.
#[verifier::external_body]
pub(crate) fn encode_text(text: &str) -> (r: String)
    ensures
        r@ == escaped_text(text@, text@.len() as int),
{
    html_escape::encode_text(text).into_owned()
}

/// `html_escape::encode_double_quoted_attribute`: `&`, `<`, `>` and `"` become entities, all
/// else stays.
#[verifier::external_body]
pub(crate) fn encode_attribute(text: &str) -> (r: String)
    ensures
        r@ == quoted_text(text@, text@.len() as int),
{
    html_escape::encode_double_quoted_attribute(text).into_owned()
}

/// A text with its HTML entities decoded, as `html_escape::decode_html_entities` does.
pub uninterp spec fn entities_decoded(text: Seq<char>) -> Seq<char>;

/// `html_escape::decode_html_entities`. The result depends on the text alone and is given a
/// name.
#[verifier::external_body]
pub(crate) fn decode_entities(text: &str) -> (r: String)
    ensures
        r@ == entities_decoded(text@),
{
    html_escape::decode_html_entities(text).into_owned()
}

/// The SHA-256 digest of bytes.
pub uninterp spec fn sha256(bytes: Seq<u8>) -> Seq<u8>;

/// `sha2::Sha256::digest`: the digest of the bytes, which is given a name.
#[verifier::external_body]
pub(crate) fn sha256_digest(bytes: &[u8]) -> (r: Vec<u8>)
    ensures
        r@ == sha256(bytes@),
        r@.len() == 32,
{
    <sha2::Sha256 as sha2::Digest>::digest(bytes).to_vec()
}

/// The hexadecimal digit of a number below sixteen, in small letters.
pub open spec fn hex_digit(d: int) -> char {
    if d < 10 {
        ((d + 48) as u8) as char
    } else {
        ((d + 87) as u8) as char
    }
}

/// Bytes in hexadecimal: two digits for each byte, the higher first.
pub open spec fn hex_text(bytes: Seq<u8>) -> Seq<char> {
    Seq::new(
        bytes.len() * 2,
        |i: int|
            if i % 2 == 0 {
                hex_digit(bytes[i / 2] as int / 16)
            } else {
                hex_digit(bytes[i / 2] as int % 16)
            },
    )
}

/// `hex::encode`: two digits in small letters for each byte, the higher first.
#[verifier::external_body]
pub(crate) fn hex_encode(bytes: &Vec<u8>) -> (r: String)
    ensures
        r@ == hex_text(bytes@),
{
    hex::encode(bytes)
}

/// The PNG image of a QR code as the crates `qrcode` and `image` make it, of at least the given
/// width and height in pixels, with or without a quiet zone; none where the text does not fit
/// into a QR code.
pub uninterp spec fn qr_png(text: Seq<char>, width: u32, height: u32, quiet: bool) -> Option<
    Seq<u8>,
>;

/// `qrcode::QrCode::new`, its renderer, and `image::DynamicImage::write_to` as PNG. The image
/// depends on the text, the size and the quiet zone alone and is given a name. Sizes whose
/// arithmetic or image could overflow are left out.
#[verifier::external_body]
pub(crate) fn render_qr(text: &str, width: u32, height: u32, quiet: bool) -> (r: Option<Vec<u8>>)
    requires
        width <= 4096,
        height <= 4096,
    ensures
        match r {
            Some(png) => qr_png(text@, width, height, quiet) == Some(png@),
            None => qr_png(text@, width, height, quiet) is None,
        },
{
    let code = qrcode::QrCode::new(text.as_bytes()).ok()?;
    let mut renderer = code.render::<image::Luma<u8>>();
    let picture = renderer.min_dimensions(width, height).quiet_zone(quiet).build();
    let mut output = std::io::Cursor::new(Vec::new());
    image::DynamicImage::ImageLuma8(picture).write_to(&mut output, image::ImageFormat::Png).ok()?;
    Some(output.into_inner())
}

} // verus!
