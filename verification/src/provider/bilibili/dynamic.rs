//! Posts: their text, their pictures, what they forward, and what they embed.
use vstd::prelude::*;

use crate::json::{json_document, list_value, member, parse_json, target, value_at, Json};
use crate::model::{
    bare_item, item_views, lemma_item_views_empty, lemma_item_views_push, new_item, Author,
    AuthorView, ContentKind, ErrorView, MediaItem, MediaItemView, MediaKind, ParsedContent,
    ParsedContentView, Platform, ProviderError, ProviderResult, Stats,
};
use crate::provider::{filename_from_url, get_str, get_u64, list_at, str_at, u64_at, url_filename};
use crate::text::{
    cat2, cat3, cat4, cat5, decimal, empty, first_number, first_of, first_text, has_prefix,
    is_white, join, joined, lemma_texts_empty, lemma_texts_push, number_text, opt_text, or_blank,
    or_empty, pair_texts, same, starts_with, strip_prefix, texts, trim, trim_end_spec,
    trim_start_spec, trimmed, without_prefix,
};

use super::cookies::{filled, if_filled};
use super::pages::or_null;
use super::video::{member_author, space_author};
use super::{
    headers, media_headers, target_of, ApiCall, ApiCallView, BilibiliProvider, BilibiliTarget,
    TargetView, OPUS_FEATURES,
};

verus! {

/// A picture of a post: its address, width and height.
pub type DynamicPictureView = (Seq<char>, Option<u32>, Option<u32>);

/// A picture of a post.
#[derive(Debug)]
pub struct DynamicPicture {
    pub url: String,
    pub width: Option<u32>,
    pub height: Option<u32>,
}

pub open spec fn picture_view(p: DynamicPicture) -> DynamicPictureView {
    (p.url@, p.width, p.height)
}

pub open spec fn dynamic_views(p: Seq<DynamicPicture>) -> Seq<DynamicPictureView> {
    Seq::new(p.len(), |i: int| picture_view(p[i]))
}

/// The ways in which pieces of text are described.
#[derive(Debug, Clone, Copy, PartialEq, Eq, Structural)]
pub enum NodeKind {
    /// In the text of a post.
    Rich,
    /// In a paragraph.
    Paragraph,
    /// In a list.
    Item,
}

/// The text of a piece.
pub open spec fn node_text(kind: NodeKind, node: Json) -> Option<Seq<char>> {
    match kind {
        NodeKind::Rich => first_of(
            first_of(str_at(node, "/text"@), str_at(node, "/orig_text"@)),
            str_at(node, "/emoji/text"@),
        ),
        NodeKind::Paragraph => first_of(
            first_of(str_at(node, "/word/words"@), str_at(node, "/rich/text"@)),
            str_at(node, "/rich/orig_text"@),
        ),
        NodeKind::Item => first_of(str_at(node, "/word/words"@), str_at(node, "/rich/text"@)),
    }
}

/// The texts of the first `n` pieces, one after another.
pub open spec fn nodes_text(kind: NodeKind, nodes: Seq<Json>, n: int) -> Seq<char>
    decreases n,
{
    if n <= 0 {
        Seq::empty()
    } else {
        nodes_text(kind, nodes, n - 1) + or_blank(node_text(kind, nodes[n - 1]))
    }
}

fn text_of_node(kind: NodeKind, node: &Json) -> (r: Option<String>)
    ensures
        opt_text(r) == node_text(kind, *node),
{
    match kind {
        NodeKind::Rich => first_text(
            first_text(get_str(node, "/text"), get_str(node, "/orig_text")),
            get_str(node, "/emoji/text"),
        ),
        NodeKind::Paragraph => first_text(
            first_text(get_str(node, "/word/words"), get_str(node, "/rich/text")),
            get_str(node, "/rich/orig_text"),
        ),
        NodeKind::Item => first_text(get_str(node, "/word/words"), get_str(node, "/rich/text")),
    }
}

/// The texts of pieces, one after another.
pub fn render_nodes(kind: NodeKind, nodes: &Vec<Json>) -> (r: String)
    ensures
        r@ == nodes_text(kind, nodes@, nodes@.len() as int),
{
    let mut out = String::new();
    let mut i: usize = 0;
    while i < nodes.len()
        invariant
            i <= nodes@.len(),
            out@ == nodes_text(kind, nodes@, i as int),
        decreases nodes.len() - i,
    {
        out.append(or_empty(text_of_node(kind, &nodes[i])).as_str());
        i += 1;
    }
    out
}

/// The text of a post: as it is given, or else put together from its pieces.
pub open spec fn dynamic_text_of(dynamic: Json) -> Seq<char> {
    let text = or_blank(
        first_of(str_at(dynamic, "/desc/text"@), str_at(dynamic, "/major/opus/summary/text"@)),
    );
    if text.len() > 0 {
        text
    } else {
        let nodes = list_at(dynamic, "/desc/rich_text_nodes"@);
        nodes_text(NodeKind::Rich, nodes, nodes.len() as int)
    }
}

pub fn dynamic_text(dynamic: &Json) -> (r: String)
    ensures
        r@ == dynamic_text_of(*dynamic),
{
    let text = or_empty(
        first_text(get_str(dynamic, "/desc/text"), get_str(dynamic, "/major/opus/summary/text")),
    );
    if !empty(text.as_str()) {
        return text;
    }
    match dynamic.pointer("/desc/rich_text_nodes") {
        Some(v) => match v.as_array() {
            Some(nodes) => render_nodes(NodeKind::Rich, nodes),
            None => {
                let r = String::new();
                assert(r@ =~= Seq::<char>::empty());
                r
            },
        },
        None => {
            let r = String::new();
            assert(r@ =~= Seq::<char>::empty());
            r
        },
    }
}

/// The recommendation of a live room, which is a document inside the document.
pub open spec fn live_rcmd(major: Json) -> Option<Json> {
    match str_at(major, "/live_rcmd/content"@) {
        Some(content) => match json_document(content) {
            Ok(value) => Some(value),
            Err(_) => None,
        },
        None => None,
    }
}

pub fn live_rcmd_value(major: &Json) -> (r: Option<Json>)
    ensures
        r == live_rcmd(*major),
{
    match get_str(major, "/live_rcmd/content") {
        Some(content) => match parse_json(content.as_str()) {
            Ok(value) => Some(value),
            Err(_) => None,
        },
        None => None,
    }
}

/// The title that the main part of a post gives itself.
pub open spec fn own_title(major: Json) -> Option<Seq<char>> {
    first_of(
        first_of(
            first_of(
                first_of(
                    first_of(
                        first_of(
                            first_of(
                                filled(str_at(major, "/opus/title"@)),
                                filled(str_at(major, "/archive/title"@)),
                            ),
                            filled(str_at(major, "/pgc/title"@)),
                        ),
                        filled(str_at(major, "/article/title"@)),
                    ),
                    filled(str_at(major, "/music/title"@)),
                ),
                filled(str_at(major, "/live/title"@)),
            ),
            filled(str_at(major, "/common/title"@)),
        ),
        filled(str_at(major, "/title"@)),
    )
}

/// The title of the main part of a post, or that of the live room it recommends.
pub open spec fn major_title_of(major: Json, live: Option<Json>) -> Seq<char> {
    match own_title(major) {
        Some(title) => title,
        None => match live {
            Some(value) => or_blank(
                first_of(str_at(value, "/title"@), str_at(value, "/room_info/title"@)),
            ),
            None => Seq::empty(),
        },
    }
}

fn own_title_in(major: &Json) -> (r: Option<String>)
    ensures
        opt_text(r) == own_title(*major),
{
    first_text(
        first_text(
            first_text(
                first_text(
                    first_text(
                        first_text(
                            first_text(
                                if_filled(get_str(major, "/opus/title")),
                                if_filled(get_str(major, "/archive/title")),
                            ),
                            if_filled(get_str(major, "/pgc/title")),
                        ),
                        if_filled(get_str(major, "/article/title")),
                    ),
                    if_filled(get_str(major, "/music/title")),
                ),
                if_filled(get_str(major, "/live/title")),
            ),
            if_filled(get_str(major, "/common/title")),
        ),
        if_filled(get_str(major, "/title")),
    )
}

pub fn major_title(major: &Json, live: &Option<Json>) -> (r: String)
    ensures
        r@ == major_title_of(*major, *live),
{
    match own_title_in(major) {
        Some(title) => title,
        None => match live {
            Some(value) => or_empty(
                first_text(get_str(value, "/title"), get_str(value, "/room_info/title")),
            ),
            None => {
                let r = String::new();
                assert(r@ =~= Seq::<char>::empty());
                r
            },
        },
    }
}

/// The address of a picture or page with HTTPS; none where it is something else.
pub open spec fn asset_url(value: Seq<char>) -> Option<Seq<char>> {
    let v = trimmed(value);
    if v.len() == 0 {
        None
    } else if has_prefix(v, "//"@) {
        Some("https:"@ + v)
    } else {
        match without_prefix(v, "http://"@) {
            Some(rest) => Some("https://"@ + rest),
            None => if has_prefix(v, "https://"@) {
                Some(v)
            } else {
                None
            },
        }
    }
}

proof fn lemma_trim_end_last(s: Seq<char>)
    ensures
        trim_end_spec(s).len() > 0 ==> !is_white(trim_end_spec(s).last()),
    decreases s.len(),
{
    if s.len() > 0 && is_white(s.last()) {
        lemma_trim_end_last(s.drop_last());
    }
}

/// An address with HTTPS stays as it is when it is brought to HTTPS again.
pub proof fn law_asset_url_is_stable(value: Seq<char>)
    ensures
        asset_url(value) matches Some(url) ==> asset_url(url) == Some(url),
{
    reveal_strlit("//");
    reveal_strlit("https:");
    reveal_strlit("http://");
    reveal_strlit("https://");
    let v = trimmed(value);
    lemma_trim_end_last(trim_start_spec(value));
    match asset_url(value) {
        Some(url) => {
            assert(url.len() >= 8);
            if has_prefix(v, "//"@) {
                assert(v[0] == v.subrange(0, 2)[0] && v[1] == v.subrange(0, 2)[1]);
                assert(url.subrange(0, 8) =~= "https://"@);
            } else if has_prefix(v, "http://"@) {
                assert(url.subrange(0, 8) =~= "https://"@);
            }
            assert(url[0] == url.subrange(0, 8)[0]);
            assert(url.last() == v.last() || url.last() == '/');
            assert(trimmed(url) == url);
            assert(!has_prefix(url, "//"@)) by {
                if has_prefix(url, "//"@) {
                    assert(url.subrange(0, 2)[0] == '/');
                }
            }
            assert(!has_prefix(url, "http://"@)) by {
                if has_prefix(url, "http://"@) {
                    assert(url.subrange(0, 7)[4] == ':');
                    assert(url.subrange(0, 8)[4] == 's');
                }
            }
        },
        None => {},
    }
}

pub fn normalize_asset_url(value: &str) -> (r: Option<String>)
    ensures
        opt_text(r) == asset_url(value@),
{
    let v = trim(value);
    if empty(v.as_str()) {
        return None;
    }
    if starts_with(v.as_str(), "//") {
        return Some(cat2("https:", v.as_str()));
    }
    match strip_prefix(v.as_str(), "http://") {
        Some(rest) => Some(cat2("https://", rest.as_str())),
        None => if starts_with(v.as_str(), "https://") {
            Some(v)
        } else {
            None
        },
    }
}

/// The address at a path, with HTTPS.
pub open spec fn asset_at(value: Json, path: Seq<char>) -> Option<Seq<char>> {
    match str_at(value, path) {
        Some(s) => asset_url(s),
        None => None,
    }
}

fn asset(value: &Json, path: &str) -> (r: Option<String>)
    ensures
        opt_text(r) == asset_at(*value, path@),
{
    match get_str(value, path) {
        Some(s) => normalize_asset_url(s.as_str()),
        None => None,
    }
}

/// The cover of the main part of a post, or that of the live room it recommends.
pub open spec fn major_cover_of(major: Json, live: Option<Json>) -> Option<Seq<char>> {
    let own = first_of(
        first_of(
            first_of(
                first_of(
                    first_of(
                        first_of(
                            first_of(
                                asset_at(major, "/archive/cover"@),
                                asset_at(major, "/pgc/cover"@),
                            ),
                            asset_at(major, "/article/cover"@),
                        ),
                        asset_at(major, "/article/covers/0"@),
                    ),
                    asset_at(major, "/music/cover"@),
                ),
                asset_at(major, "/live/cover"@),
            ),
            asset_at(major, "/common/cover"@),
        ),
        asset_at(major, "/cover"@),
    );
    first_of(
        own,
        match live {
            Some(value) => first_of(
                first_of(asset_at(value, "/cover"@), asset_at(value, "/keyframe"@)),
                asset_at(value, "/room_info/cover"@),
            ),
            None => None,
        },
    )
}

pub fn major_cover(major: &Json, live: &Option<Json>) -> (r: Option<String>)
    ensures
        opt_text(r) == major_cover_of(*major, *live),
{
    let own = first_text(
        first_text(
            first_text(
                first_text(
                    first_text(
                        first_text(
                            first_text(
                                asset(major, "/archive/cover"),
                                asset(major, "/pgc/cover"),
                            ),
                            asset(major, "/article/cover"),
                        ),
                        asset(major, "/article/covers/0"),
                    ),
                    asset(major, "/music/cover"),
                ),
                asset(major, "/live/cover"),
            ),
            asset(major, "/common/cover"),
        ),
        asset(major, "/cover"),
    );
    let other = match live {
        Some(value) => first_text(
            first_text(asset(value, "/cover"), asset(value, "/keyframe")),
            asset(value, "/room_info/cover"),
        ),
        None => None,
    };
    first_text(own, other)
}

/// A number that fits into 32 bits.
pub open spec fn fitting_u32(value: Option<u64>) -> Option<u32> {
    match value {
        Some(n) => if n <= u32::MAX {
            Some(n as u32)
        } else {
            None
        },
        None => None,
    }
}

fn try_u32(value: Option<u64>) -> (r: Option<u32>)
    ensures
        r == fitting_u32(value),
{
    match value {
        Some(n) => if n <= u32::MAX as u64 {
            Some(n as u32)
        } else {
            None
        },
        None => None,
    }
}

/// The picture that a value describes.
pub open spec fn picture_of(value: Json) -> Option<DynamicPictureView> {
    match first_of(
        first_of(str_at(value, "/url"@), str_at(value, "/src"@)),
        str_at(value, "/live_url"@),
    ) {
        Some(s) => match asset_url(s) {
            Some(url) => Some(
                (
                    url,
                    fitting_u32(u64_at(value, "/width"@)),
                    fitting_u32(u64_at(value, "/height"@)),
                ),
            ),
            None => None,
        },
        None => None,
    }
}

pub fn dynamic_picture(value: &Json) -> (r: Option<DynamicPicture>)
    ensures
        (match r {
            Some(p) => Some(picture_view(p)),
            None => None,
        }) == picture_of(*value),
{
    match first_text(
        first_text(get_str(value, "/url"), get_str(value, "/src")),
        get_str(value, "/live_url"),
    ) {
        Some(s) => match normalize_asset_url(s.as_str()) {
            Some(url) => Some(
                DynamicPicture {
                    url,
                    width: try_u32(get_u64(value, "/width")),
                    height: try_u32(get_u64(value, "/height")),
                },
            ),
            None => None,
        },
        None => None,
    }
}

/// The pictures that the first `n` values describe.
pub open spec fn pictures_among(values: Seq<Json>, n: int) -> Seq<DynamicPictureView>
    decreases n,
{
    if n <= 0 {
        Seq::empty()
    } else {
        match picture_of(values[n - 1]) {
            Some(p) => pictures_among(values, n - 1).push(p),
            None => pictures_among(values, n - 1),
        }
    }
}

/// Adds the pictures that values describe.
fn add_pictures(out: &mut Vec<DynamicPicture>, values: &Vec<Json>)
    ensures
        dynamic_views(final(out)@) == dynamic_views(old(out)@) + pictures_among(
            values@,
            values@.len() as int,
        ),
{
    let ghost base = dynamic_views(out@);
    let mut i: usize = 0;
    assert(base + pictures_among(values@, 0) =~= base);
    while i < values.len()
        invariant
            i <= values@.len(),
            dynamic_views(out@) == base + pictures_among(values@, i as int),
        decreases values.len() - i,
    {
        let ghost before = out@;
        let ghost so_far = pictures_among(values@, i as int);
        match dynamic_picture(&values[i]) {
            Some(p) => {
                out.push(p);
                assert(dynamic_views(out@) =~= dynamic_views(before).push(picture_view(p)));
                assert((base + so_far).push(picture_view(p)) =~= base + so_far.push(
                    picture_view(p),
                ));
            },
            None => {},
        }
        i += 1;
    }
}

/// The pictures of a post.
pub open spec fn post_pictures(dynamic: Json) -> Seq<DynamicPictureView> {
    match list_value(
        first_of(value_at(dynamic, "/major/opus/pics"@), value_at(dynamic, "/major/draw/items"@)),
    ) {
        Some(items) => pictures_among(items, items.len() as int),
        None => Seq::empty(),
    }
}

fn first_value<'a>(first: Option<&'a Json>, second: Option<&'a Json>) -> (r: Option<&'a Json>)
    ensures
        target(r) == first_of(target(first), target(second)),
{
    if first.is_some() {
        first
    } else {
        second
    }
}

pub fn pictures_from_dynamic(dynamic: &Json) -> (r: Vec<DynamicPicture>)
    ensures
        dynamic_views(r@) == post_pictures(*dynamic),
{
    let mut out: Vec<DynamicPicture> = Vec::new();
    assert(dynamic_views(out@) =~= Seq::<DynamicPictureView>::empty());
    let found = first_value(
        dynamic.pointer("/major/opus/pics"),
        dynamic.pointer("/major/draw/items"),
    );
    match found {
        Some(v) => match v.as_array() {
            Some(items) => {
                add_pictures(&mut out, items);
                assert(dynamic_views(out@) =~= pictures_among(items@, items@.len() as int));
            },
            None => {},
        },
        None => {},
    }
    out
}

/// The photo of a post with a number.
pub open spec fn post_photo(
    id: Seq<char>,
    index: int,
    p: DynamicPictureView,
    cookie: Option<Seq<char>>,
) -> MediaItemView {
    MediaItemView {
        width: p.1,
        height: p.2,
        headers: media_headers(cookie),
        ..bare_item(
            MediaKind::Photo,
            p.0,
            url_filename(p.0, "bilibili-dynamic-"@ + id + "-"@ + decimal(index as nat) + ".jpg"@),
            "bilibili:dynamic:"@ + id + ":photo:"@ + decimal(index as nat),
        )
    }
}

pub fn photo_media(
    id: &str,
    index: usize,
    url: &str,
    width: Option<u32>,
    height: Option<u32>,
    cookie: &Option<String>,
) -> (r: MediaItem)
    ensures
        r@ == post_photo(id@, index as int, (url@, width, height), opt_text(*cookie)),
{
    let number = number_text(index as u64);
    let name = cat5("bilibili-dynamic-", id, "-", number.as_str(), ".jpg");
    let mut m = new_item(
        MediaKind::Photo,
        url.to_owned(),
        filename_from_url(url, name.as_str()),
        cat4("bilibili:dynamic:", id, ":photo:", number.as_str()),
    );
    m.width = width;
    m.height = height;
    m.headers = headers(cookie);
    m
}

/// Whether one of the first `n` pictures has an address.
pub open spec fn address_among(p: Seq<DynamicPictureView>, url: Seq<char>, n: int) -> bool {
    exists|i: int| 0 <= i < n && (#[trigger] p[i]).0 == url
}

/// The photos of the first `n` pictures; a picture whose address came before is left out.
pub open spec fn post_photos(
    id: Seq<char>,
    p: Seq<DynamicPictureView>,
    cookie: Option<Seq<char>>,
    n: int,
) -> Seq<MediaItemView>
    decreases n,
{
    if n <= 0 {
        Seq::empty()
    } else if address_among(p, p[n - 1].0, n - 1) {
        post_photos(id, p, cookie, n - 1)
    } else {
        post_photos(id, p, cookie, n - 1).push(
            post_photo(id, post_photos(id, p, cookie, n - 1).len() as int, p[n - 1], cookie),
        )
    }
}

proof fn lemma_post_photos(
    id: Seq<char>,
    p: Seq<DynamicPictureView>,
    cookie: Option<Seq<char>>,
    n: int,
    i: int,
)
    requires
        0 <= n <= p.len(),
        0 <= i < post_photos(id, p, cookie, n).len(),
    ensures
        exists|k: int|
            0 <= k < n && post_photos(id, p, cookie, n)[i] == post_photo(
                id,
                i,
                #[trigger] p[k],
                cookie,
            ),
    decreases n,
{
    if n > 0 {
        let before = post_photos(id, p, cookie, n - 1);
        if i < before.len() {
            lemma_post_photos(id, p, cookie, n - 1, i);
        } else {
            assert(post_photos(id, p, cookie, n)[i] == post_photo(id, i, p[n - 1], cookie));
        }
    }
}

/// Every photo of a post is fetched as from its page, and is kept under a key of its own that
/// depends on the post and the place of the photo in it alone, not on the address.
pub proof fn law_photos_of_post(
    id: Seq<char>,
    p: Seq<DynamicPictureView>,
    cookie: Option<Seq<char>>,
    i: int,
)
    requires
        0 <= i < post_photos(id, p, cookie, p.len() as int).len(),
    ensures
        ({
            let photo = post_photos(id, p, cookie, p.len() as int)[i];
            &&& photo.kind == MediaKind::Photo
            &&& photo.headers.contains(("Referer"@, "https://www.bilibili.com/"@))
            &&& photo.cache_key == "bilibili:dynamic:"@ + id + ":photo:"@ + decimal(i as nat)
        }),
{
    lemma_post_photos(id, p, cookie, p.len() as int, i);
    let pairs = media_headers(cookie);
    assert(pairs[pairs.len() - 1] == ("Referer"@, "https://www.bilibili.com/"@));
}

pub fn media_from_pictures(id: &str, pictures: &Vec<DynamicPicture>, cookie: &Option<String>) -> (r:
    Vec<MediaItem>)
    ensures
        item_views(r@) == post_photos(
            id@,
            dynamic_views(pictures@),
            opt_text(*cookie),
            pictures@.len() as int,
        ),
{
    broadcast use {lemma_item_views_push, lemma_item_views_empty};

    let ghost all = dynamic_views(pictures@);
    let mut media: Vec<MediaItem> = Vec::new();
    let mut i: usize = 0;
    while i < pictures.len()
        invariant
            i <= pictures@.len(),
            all == dynamic_views(pictures@),
            item_views(media@) == post_photos(id@, all, opt_text(*cookie), i as int),
        decreases pictures.len() - i,
    {
        broadcast use {lemma_item_views_push, lemma_item_views_empty};

        let mut seen = false;
        let mut k: usize = 0;
        while k < i && !seen
            invariant
                k <= i < pictures@.len(),
                all == dynamic_views(pictures@),
                seen ==> address_among(all, all[i as int].0, i as int),
                !seen ==> forall|j: int|
                    0 <= j < k ==> (#[trigger] all[j]).0 != all[i as int].0,
            decreases i - k,
        {
            assert(all[k as int].0 == pictures@[k as int].url@);
            assert(all[i as int].0 == pictures@[i as int].url@);
            if same(pictures[k].url.as_str(), pictures[i].url.as_str()) {
                seen = true;
            }
            k += 1;
        }
        assert(all[i as int] == picture_view(pictures@[i as int]));
        assert(item_views(media@).len() == media@.len());
        if !seen {
            let p = &pictures[i];
            media.push(photo_media(id, media.len(), p.url.as_str(), p.width, p.height, cookie));
        }
        i += 1;
    }
    media
}

/// The author of a post.
pub open spec fn post_author(item: Json) -> AuthorView {
    let value = match value_at(item, "/modules/module_author"@) {
        Some(author) => match member(author, "author"@) {
            Some(inner) => inner,
            None => author,
        },
        None => Json::Null,
    };
    space_author(
        first_of(u64_at(value, "/mid"@), u64_at(item, "/basic/uid"@)),
        first_of(str_at(value, "/name"@), str_at(value, "/uname"@)),
        first_of(str_at(value, "/face"@), str_at(value, "/avatar"@)),
    )
}

pub fn author_from_item(item: &Json) -> (r: Author)
    ensures
        r@ == post_author(*item),
{
    let none = Json::Null;
    let value = match item.pointer("/modules/module_author") {
        Some(author) => match author.get("author") {
            Some(inner) => inner,
            None => author,
        },
        None => &none,
    };
    member_author(
        first_number(get_u64(value, "/mid"), get_u64(item, "/basic/uid")),
        first_text(get_str(value, "/name"), get_str(value, "/uname")),
        first_text(get_str(value, "/face"), get_str(value, "/avatar")),
    )
}

/// The statistics of a post.
pub open spec fn post_stats(item: Json) -> Stats {
    Stats {
        likes: u64_at(item, "/modules/module_stat/like/count"@),
        reposts: u64_at(item, "/modules/module_stat/forward/count"@),
        replies: u64_at(item, "/modules/module_stat/comment/count"@),
        views: u64_at(item, "/modules/module_stat/view/count"@),
    }
}

pub fn stats_from_item(item: &Json) -> (r: Stats)
    ensures
        r == post_stats(*item),
{
    Stats {
        likes: get_u64(item, "/modules/module_stat/like/count"),
        reposts: get_u64(item, "/modules/module_stat/forward/count"),
        replies: get_u64(item, "/modules/module_stat/comment/count"),
        views: get_u64(item, "/modules/module_stat/view/count"),
    }
}

/// An address that ends in a number.
pub open spec fn numbered(start: Seq<char>, n: Option<u64>) -> Option<Seq<char>> {
    match n {
        Some(n) => Some(start + decimal(n as nat)),
        None => None,
    }
}

fn with_number(start: &str, n: Option<u64>) -> (r: Option<String>)
    ensures
        opt_text(r) == numbered(start@, n),
{
    match n {
        Some(n) => Some(cat2(start, number_text(n).as_str())),
        None => None,
    }
}

/// The page that a post embeds: the video by name or number, the page of another part, or a
/// song, an article or a live room by number.
pub open spec fn embedded_url_of(major: Json, live: Option<Json>) -> Option<Seq<char>> {
    let archive = or_null(member(major, "archive"@));
    let by_name = match str_at(archive, "/bvid"@) {
        Some(bvid) => Some("https://www.bilibili.com/video/"@ + bvid),
        None => numbered("https://www.bilibili.com/video/av"@, u64_at(archive, "/aid"@)),
    };
    let by_page = first_of(
        first_of(
            first_of(
                first_of(
                    first_of(
                        first_of(
                            asset_at(major, "/archive/jump_url"@),
                            asset_at(major, "/pgc/jump_url"@),
                        ),
                        asset_at(major, "/article/jump_url"@),
                    ),
                    asset_at(major, "/music/jump_url"@),
                ),
                asset_at(major, "/live/jump_url"@),
            ),
            asset_at(major, "/common/jump_url"@),
        ),
        asset_at(major, "/ugc_season/jump_url"@),
    );
    let by_number = first_of(
        first_of(
            numbered("https://www.bilibili.com/audio/au"@, u64_at(major, "/music/id"@)),
            numbered("https://www.bilibili.com/read/cv"@, u64_at(major, "/article/id"@)),
        ),
        numbered(
            "https://live.bilibili.com/"@,
            first_of(u64_at(major, "/live/room_id"@), u64_at(major, "/live/id"@)),
        ),
    );
    let recommended = match live {
        Some(value) => numbered(
            "https://live.bilibili.com/"@,
            first_of(
                first_of(u64_at(value, "/room_id"@), u64_at(value, "/live_id"@)),
                u64_at(value, "/room_info/room_id"@),
            ),
        ),
        None => None,
    };
    first_of(first_of(first_of(by_name, by_page), by_number), recommended)
}

pub fn embedded_url(major: &Json, live: &Option<Json>) -> (r: Option<String>)
    ensures
        opt_text(r) == embedded_url_of(*major, *live),
{
    let none = Json::Null;
    let archive = match major.get("archive") {
        Some(v) => v,
        None => &none,
    };
    let by_name = match get_str(archive, "/bvid") {
        Some(bvid) => Some(cat2("https://www.bilibili.com/video/", bvid.as_str())),
        None => with_number("https://www.bilibili.com/video/av", get_u64(archive, "/aid")),
    };
    let by_page = first_text(
        first_text(
            first_text(
                first_text(
                    first_text(
                        first_text(
                            asset(major, "/archive/jump_url"),
                            asset(major, "/pgc/jump_url"),
                        ),
                        asset(major, "/article/jump_url"),
                    ),
                    asset(major, "/music/jump_url"),
                ),
                asset(major, "/live/jump_url"),
            ),
            asset(major, "/common/jump_url"),
        ),
        asset(major, "/ugc_season/jump_url"),
    );
    let by_number = first_text(
        first_text(
            with_number("https://www.bilibili.com/audio/au", get_u64(major, "/music/id")),
            with_number("https://www.bilibili.com/read/cv", get_u64(major, "/article/id")),
        ),
        with_number(
            "https://live.bilibili.com/",
            first_number(get_u64(major, "/live/room_id"), get_u64(major, "/live/id")),
        ),
    );
    let recommended = match live {
        Some(value) => with_number(
            "https://live.bilibili.com/",
            first_number(
                first_number(get_u64(value, "/room_id"), get_u64(value, "/live_id")),
                get_u64(value, "/room_info/room_id"),
            ),
        ),
        None => None,
    };
    first_text(first_text(first_text(by_name, by_page), by_number), recommended)
}

/// The lines of the first `n` items of a list, each behind a hyphen; empty ones are left out.
pub open spec fn item_lines(items: Seq<Json>, n: int) -> Seq<Seq<char>>
    decreases n,
{
    if n <= 0 {
        Seq::empty()
    } else {
        let nodes = list_at(items[n - 1], "/nodes"@);
        let text = nodes_text(NodeKind::Item, nodes, nodes.len() as int);
        if text.len() > 0 {
            item_lines(items, n - 1).push("- "@ + text)
        } else {
            item_lines(items, n - 1)
        }
    }
}

/// The text of a paragraph: its pieces, code, a list, or plain text.
pub open spec fn paragraph_text(paragraph: Json) -> Seq<char> {
    let nodes = list_at(paragraph, "/text/nodes"@);
    let text = nodes_text(NodeKind::Paragraph, nodes, nodes.len() as int);
    if text.len() > 0 {
        text
    } else {
        match str_at(paragraph, "/code/content"@) {
            Some(code) => code,
            None => match list_value(value_at(paragraph, "/list/items"@)) {
                Some(items) => {
                    let lines = item_lines(items, items.len() as int);
                    joined(lines, "\n"@, lines.len() as int)
                },
                None => or_blank(str_at(paragraph, "/text/text"@)),
            },
        }
    }
}

fn nodes_at(kind: NodeKind, value: &Json, path: &str) -> (r: String)
    ensures
        r@ == nodes_text(kind, list_at(*value, path@), list_at(*value, path@).len() as int),
{
    match value.pointer(path) {
        Some(v) => match v.as_array() {
            Some(nodes) => render_nodes(kind, nodes),
            None => {
                let r = String::new();
                assert(r@ =~= Seq::<char>::empty());
                r
            },
        },
        None => {
            let r = String::new();
            assert(r@ =~= Seq::<char>::empty());
            r
        },
    }
}

fn list_lines(items: &Vec<Json>) -> (r: Vec<String>)
    ensures
        texts(r@) == item_lines(items@, items@.len() as int),
{
    broadcast use {lemma_texts_push, lemma_texts_empty};

    let mut out: Vec<String> = Vec::new();
    let mut i: usize = 0;
    while i < items.len()
        invariant
            i <= items@.len(),
            texts(out@) == item_lines(items@, i as int),
        decreases items.len() - i,
    {
        broadcast use {lemma_texts_push, lemma_texts_empty};

        let text = nodes_at(NodeKind::Item, &items[i], "/nodes");
        if !empty(text.as_str()) {
            out.push(cat2("- ", text.as_str()));
        }
        i += 1;
    }
    out
}

pub fn opus_paragraph_text(paragraph: &Json) -> (r: String)
    ensures
        r@ == paragraph_text(*paragraph),
{
    let text = nodes_at(NodeKind::Paragraph, paragraph, "/text/nodes");
    if !empty(text.as_str()) {
        return text;
    }
    match get_str(paragraph, "/code/content") {
        Some(code) => {
            return code;
        },
        None => {},
    }
    match paragraph.pointer("/list/items") {
        Some(v) => match v.as_array() {
            Some(items) => {
                let lines = list_lines(items);
                assert(texts(lines@).len() == lines@.len());
                return join(&lines, "\n");
            },
            None => {},
        },
        None => {},
    }
    or_empty(get_str(paragraph, "/text/text"))
}

/// The paragraphs of a module.
pub open spec fn module_paragraphs(module: Json) -> Seq<Json> {
    match member(module, "module_content"@) {
        Some(content) => list_at(content, "/paragraphs"@),
        None => Seq::empty(),
    }
}

/// The texts of the first `n` paragraphs; empty ones are left out.
pub open spec fn paragraph_lines(paragraphs: Seq<Json>, n: int) -> Seq<Seq<char>>
    decreases n,
{
    if n <= 0 {
        Seq::empty()
    } else if paragraph_text(paragraphs[n - 1]).len() > 0 {
        paragraph_lines(paragraphs, n - 1).push(paragraph_text(paragraphs[n - 1]))
    } else {
        paragraph_lines(paragraphs, n - 1)
    }
}

/// The pictures of the first `n` paragraphs.
pub open spec fn paragraph_pictures(paragraphs: Seq<Json>, n: int) -> Seq<DynamicPictureView>
    decreases n,
{
    if n <= 0 {
        Seq::empty()
    } else {
        let pics = list_at(paragraphs[n - 1], "/pic/pics"@);
        paragraph_pictures(paragraphs, n - 1) + pictures_among(pics, pics.len() as int)
    }
}

/// The title after the first `n` modules: the first that is not empty.
pub open spec fn opus_title(base: Seq<char>, modules: Seq<Json>, n: int) -> Seq<char>
    decreases n,
{
    if n <= 0 {
        base
    } else if opus_title(base, modules, n - 1).len() > 0 {
        opus_title(base, modules, n - 1)
    } else {
        or_blank(str_at(modules[n - 1], "/module_title/text"@))
    }
}

/// The texts of the paragraphs of the first `n` modules.
pub open spec fn opus_lines(modules: Seq<Json>, n: int) -> Seq<Seq<char>>
    decreases n,
{
    if n <= 0 {
        Seq::empty()
    } else {
        let p = module_paragraphs(modules[n - 1]);
        opus_lines(modules, n - 1) + paragraph_lines(p, p.len() as int)
    }
}

/// The pictures of the first `n` modules.
pub open spec fn opus_pictures(modules: Seq<Json>, n: int) -> Seq<DynamicPictureView>
    decreases n,
{
    if n <= 0 {
        Seq::empty()
    } else {
        let p = module_paragraphs(modules[n - 1]);
        opus_pictures(modules, n - 1) + paragraph_pictures(p, p.len() as int)
    }
}

/// A long post: its title, its text and its pictures.
#[derive(Debug)]
pub struct OpusProjection {
    pub title: String,
    pub text: String,
    pub pictures: Vec<DynamicPicture>,
}

/// A long post as plain values.
#[verifier::ext_equal]
pub struct OpusView {
    pub title: Seq<char>,
    pub text: Seq<char>,
    pub pictures: Seq<DynamicPictureView>,
}

impl View for OpusProjection {
    type V = OpusView;

    open spec fn view(&self) -> OpusView {
        OpusView { title: self.title@, text: self.text@, pictures: dynamic_views(self.pictures@) }
    }
}

/// The long post in a reply.
pub open spec fn opus_of(root: Json) -> Result<OpusView, ErrorView> {
    match value_at(root, "/data/item"@) {
        None => Err(ErrorView::InvalidResponse("Opus 详情缺少 item"@)),
        Some(item) => match list_value(member(item, "modules"@)) {
            None => Err(ErrorView::InvalidResponse("Opus 详情缺少 modules"@)),
            Some(modules) => {
                let n = modules.len() as int;
                let lines = opus_lines(modules, n);
                Ok(
                    OpusView {
                        title: opus_title(or_blank(str_at(item, "/basic/title"@)), modules, n),
                        text: joined(lines, "\n\n"@, lines.len() as int),
                        pictures: opus_pictures(modules, n),
                    },
                )
            },
        },
    }
}

fn read_paragraphs(paragraphs: &Vec<Json>, lines: &mut Vec<String>, pictures: &mut Vec<
    DynamicPicture,
>)
    ensures
        texts(final(lines)@) == texts(old(lines)@) + paragraph_lines(
            paragraphs@,
            paragraphs@.len() as int,
        ),
        dynamic_views(final(pictures)@) == dynamic_views(old(pictures)@) + paragraph_pictures(
            paragraphs@,
            paragraphs@.len() as int,
        ),
{
    let ghost l = texts(lines@);
    let ghost p = dynamic_views(pictures@);
    let mut i: usize = 0;
    assert(l + paragraph_lines(paragraphs@, 0) =~= l);
    assert(p + paragraph_pictures(paragraphs@, 0) =~= p);
    while i < paragraphs.len()
        invariant
            i <= paragraphs@.len(),
            texts(lines@) == l + paragraph_lines(paragraphs@, i as int),
            dynamic_views(pictures@) == p + paragraph_pictures(paragraphs@, i as int),
        decreases paragraphs.len() - i,
    {
        broadcast use {lemma_texts_push, lemma_texts_empty};

        let ghost l_before = paragraph_lines(paragraphs@, i as int);
        let ghost p_before = paragraph_pictures(paragraphs@, i as int);
        let paragraph = &paragraphs[i];
        let line = opus_paragraph_text(paragraph);
        if !empty(line.as_str()) {
            let ghost text = line@;
            lines.push(line);
            assert((l + l_before).push(text) =~= l + l_before.push(text));
        }
        let none: Vec<Json> = Vec::new();
        let pics = match paragraph.pointer("/pic/pics") {
            Some(v) => match v.as_array() {
                Some(items) => items,
                None => &none,
            },
            None => &none,
        };
        let ghost pics_in = list_at(*paragraph, "/pic/pics"@);
        assert(pics@ =~= pics_in);
        add_pictures(pictures, pics);
        assert(p + p_before + pictures_among(pics_in, pics_in.len() as int) =~= p + (p_before
            + pictures_among(pics_in, pics_in.len() as int)));
        i += 1;
    }
}

/// Reads the long post in a reply.
pub fn opus_projection(root: &Json) -> (r: ProviderResult<OpusProjection>)
    ensures
        (match r {
            Ok(p) => Ok(p@),
            Err(error) => Err(error@),
        }) == opus_of(*root),
{
    let item = match root.pointer("/data/item") {
        Some(item) => item,
        None => {
            return Err(ProviderError::InvalidResponse("Opus 详情缺少 item".to_owned()));
        },
    };
    let modules = match item.get("modules") {
        Some(v) => match v.as_array() {
            Some(modules) => modules,
            None => {
                return Err(ProviderError::InvalidResponse("Opus 详情缺少 modules".to_owned()));
            },
        },
        None => {
            return Err(ProviderError::InvalidResponse("Opus 详情缺少 modules".to_owned()));
        },
    };
    let ghost base = or_blank(str_at(*item, "/basic/title"@));
    let mut title = or_empty(get_str(item, "/basic/title"));
    let mut lines: Vec<String> = Vec::new();
    let mut pictures: Vec<DynamicPicture> = Vec::new();
    let mut i: usize = 0;
    assert(texts(lines@) =~= Seq::<Seq<char>>::empty());
    assert(dynamic_views(pictures@) =~= Seq::<DynamicPictureView>::empty());
    while i < modules.len()
        invariant
            i <= modules@.len(),
            title@ == opus_title(base, modules@, i as int),
            texts(lines@) == opus_lines(modules@, i as int),
            dynamic_views(pictures@) == opus_pictures(modules@, i as int),
        decreases modules.len() - i,
    {
        let module = &modules[i];
        if empty(title.as_str()) {
            title = or_empty(get_str(module, "/module_title/text"));
        }
        let none: Vec<Json> = Vec::new();
        let paragraphs = match module.get("module_content") {
            Some(content) => match content.pointer("/paragraphs") {
                Some(v) => match v.as_array() {
                    Some(items) => items,
                    None => &none,
                },
                None => &none,
            },
            None => &none,
        };
        assert(paragraphs@ =~= module_paragraphs(*module));
        read_paragraphs(paragraphs, &mut lines, &mut pictures);
        i += 1;
    }
    assert(texts(lines@).len() == lines@.len());
    Ok(OpusProjection { title, text: join(&lines, "\n\n"), pictures })
}

/// The value, unless it is nothing.
pub open spec fn present(value: Option<Json>) -> Option<Json> {
    match value {
        Some(Json::Null) => None,
        v => v,
    }
}

fn if_present<'a>(value: Option<&'a Json>) -> (r: Option<&'a Json>)
    ensures
        target(r) == present(target(value)),
{
    match value {
        Some(v) => match v {
            Json::Null => None,
            _ => Some(v),
        },
        None => None,
    }
}

/// The post that is shown: the one that is forwarded, or the post itself.
pub open spec fn source_of(item: Json) -> Json {
    match present(member(item, "orig"@)) {
        Some(orig) => orig,
        None => item,
    }
}

/// Whether a post forwards another.
pub open spec fn forwards(item: Json) -> bool {
    str_at(item, "/type"@) == Some("DYNAMIC_TYPE_FORWARD"@) || present(member(item, "orig"@)) is Some
}

/// The body of a post.
pub open spec fn dynamic_of(item: Json) -> Json {
    or_null(value_at(item, "/modules/module_dynamic"@))
}

/// The main part of the post that is shown.
pub open spec fn major_of(item: Json) -> Json {
    or_null(value_at(dynamic_of(source_of(item)), "/major"@))
}

/// The number of the post that is shown.
pub open spec fn source_id_of(item: Json, id: Seq<char>) -> Seq<char> {
    match first_of(
        str_at(source_of(item), "/id_str"@),
        str_at(source_of(item), "/basic/dyn_id_str"@),
    ) {
        Some(s) => s,
        None => id,
    }
}

/// Whether the post that is shown is a long one, which is read separately.
pub open spec fn is_opus(item: Json) -> bool {
    str_at(major_of(item), "/type"@) == Some("MAJOR_TYPE_OPUS"@)
}

/// The page that the post embeds, where it is one that can be read.
pub open spec fn embedded_target_of(item: Json) -> Option<TargetView> {
    match embedded_url_of(major_of(item), live_rcmd(major_of(item))) {
        Some(url) => match target_of(url) {
            Ok(TargetView::Dynamic(_)) => None,
            Ok(t) => Some(t),
            Err(_) => None,
        },
        None => None,
    }
}

/// One text, or another where it is empty.
pub open spec fn preferred_text(first: Seq<char>, other: Seq<char>) -> Seq<char> {
    if first.len() > 0 {
        first
    } else {
        other
    }
}

/// The title of a post: that of the long post, of its main part, or of what it embeds.
pub open spec fn post_title(
    item: Json,
    opus: Option<OpusView>,
    embedded: Option<ParsedContentView>,
) -> Seq<char> {
    let own = preferred_text(
        match opus {
            Some(o) => o.title,
            None => Seq::empty(),
        },
        major_title_of(major_of(item), live_rcmd(major_of(item))),
    );
    match embedded {
        Some(e) => preferred_text(own, e.title),
        None => own,
    }
}

/// The text of the post that is shown.
pub open spec fn source_text(item: Json, opus: Option<OpusView>) -> Seq<char> {
    preferred_text(
        match opus {
            Some(o) => o.text,
            None => Seq::empty(),
        },
        dynamic_text_of(dynamic_of(source_of(item))),
    )
}

/// The text of a forwarded post, with its author.
pub open spec fn forwarded_text(item: Json, opus: Option<OpusView>) -> Seq<char> {
    let text = source_text(item, opus);
    let author = post_author(source_of(item)).name;
    if text.len() == 0 {
        "原动态已删除或不可见"@
    } else if author.len() == 0 {
        text
    } else {
        "转发自 "@ + author + "：\n"@ + text
    }
}

/// The text of a post; that of a forwarded one follows.
pub open spec fn post_text(item: Json, opus: Option<OpusView>) -> Seq<char> {
    if forwards(item) {
        let outer = dynamic_text_of(dynamic_of(item));
        if outer.len() == 0 {
            forwarded_text(item, opus)
        } else {
            outer + "\n\n"@ + forwarded_text(item, opus)
        }
    } else {
        source_text(item, opus)
    }
}

/// The media of a post: its pictures, then what it embeds; a cover where there is neither.
pub open spec fn post_media(
    id: Seq<char>,
    item: Json,
    opus: Option<OpusView>,
    embedded: Option<ParsedContentView>,
    cookie: Option<Seq<char>>,
) -> Seq<MediaItemView> {
    let own = post_pictures(dynamic_of(source_of(item)));
    let pictures = match opus {
        Some(o) => if o.pictures.len() > 0 {
            o.pictures
        } else {
            own
        },
        None => own,
    };
    let photos = post_photos(source_id_of(item, id), pictures, cookie, pictures.len() as int);
    let media = match embedded {
        Some(e) => photos + e.media,
        None => photos,
    };
    if media.len() > 0 {
        media
    } else {
        match major_cover_of(major_of(item), live_rcmd(major_of(item))) {
            Some(cover) => seq![
                post_photo(source_id_of(item, id), 0, (cover, None, None), cookie),
            ],
            None => Seq::empty(),
        }
    }
}

/// The content of a post.
pub open spec fn dynamic_content_of(
    id: Seq<char>,
    item: Json,
    opus: Option<OpusView>,
    embedded: Option<ParsedContentView>,
    cookie: Option<Seq<char>>,
) -> ParsedContentView {
    ParsedContentView {
        platform: Platform::Bilibili,
        kind: ContentKind::Post,
        id,
        canonical_url: "https://www.bilibili.com/opus/"@ + id,
        author: post_author(item),
        title: post_title(item, opus, embedded),
        text: post_text(item, opus),
        sensitive: false,
        stats: post_stats(item),
        media: post_media(id, item, opus, embedded, cookie),
        collection_items: Seq::empty(),
    }
}

/// Where the long post could not be read, the post is shown with its summary and the pictures
/// that it has itself; where it could be read but lacks one of the two, that one is still the
/// post's own.
pub proof fn law_summary_stands_in(
    id: Seq<char>,
    item: Json,
    opus: OpusView,
    cookie: Option<Seq<char>>,
)
    ensures
        source_text(item, None) == dynamic_text_of(dynamic_of(source_of(item))),
        opus.text.len() == 0 ==> source_text(item, Some(opus)) == source_text(item, None),
        opus.pictures.len() == 0 ==> post_media(id, item, Some(opus), None, cookie) == post_media(
            id,
            item,
            None,
            None,
            cookie,
        ),
{
}

fn source_in<'a>(item: &'a Json) -> (r: &'a Json)
    ensures
        *r == source_of(*item),
{
    match if_present(item.get("orig")) {
        Some(orig) => orig,
        None => item,
    }
}

fn forwards_in(item: &Json) -> (r: bool)
    ensures
        r == forwards(*item),
{
    let by_type = match get_str(item, "/type") {
        Some(t) => same(t.as_str(), "DYNAMIC_TYPE_FORWARD"),
        None => false,
    };
    by_type || if_present(item.get("orig")).is_some()
}

fn dynamic_in<'a>(item: &'a Json, none: &'a Json) -> (r: &'a Json)
    requires
        *none == Json::Null,
    ensures
        *r == dynamic_of(*item),
{
    match item.pointer("/modules/module_dynamic") {
        Some(v) => v,
        None => none,
    }
}

fn major_in<'a>(item: &'a Json, none: &'a Json) -> (r: &'a Json)
    requires
        *none == Json::Null,
    ensures
        *r == major_of(*item),
{
    match dynamic_in(source_in(item), none).pointer("/major") {
        Some(v) => v,
        None => none,
    }
}

fn source_id_in(item: &Json, id: &str) -> (r: String)
    ensures
        r@ == source_id_of(*item, id@),
{
    let source = source_in(item);
    match first_text(get_str(source, "/id_str"), get_str(source, "/basic/dyn_id_str")) {
        Some(s) => s,
        None => id.to_owned(),
    }
}

fn text_in(item: &Json, opus_text: String, Ghost(opus): Ghost<Option<OpusView>>) -> (r: String)
    requires
        opus_text@ == (match opus {
            Some(o) => o.text,
            None => Seq::<char>::empty(),
        }),
    ensures
        r@ == post_text(*item, opus),
{
    let none = Json::Null;
    let text = if empty(opus_text.as_str()) {
        dynamic_text(dynamic_in(source_in(item), &none))
    } else {
        opus_text
    };
    assert(text@ == source_text(*item, opus));
    if !forwards_in(item) {
        return text;
    }
    let author = author_from_item(source_in(item));
    let origin = if empty(text.as_str()) {
        "原动态已删除或不可见".to_owned()
    } else if empty(author.name.as_str()) {
        text
    } else {
        cat4("转发自 ", author.name.as_str(), "：\n", text.as_str())
    };
    assert(origin@ == forwarded_text(*item, opus));
    let outer = dynamic_text(dynamic_in(item, &none));
    if empty(outer.as_str()) {
        origin
    } else {
        cat3(outer.as_str(), "\n\n", origin.as_str())
    }
}

fn add_media(media: &mut Vec<MediaItem>, more: Vec<MediaItem>)
    ensures
        item_views(final(media)@) == item_views(old(media)@) + item_views(more@),
{
    let mut more = more;
    let ghost all = more@;
    let ghost before = media@;
    media.append(&mut more);
    assert(item_views(media@) =~= item_views(before) + item_views(all));
}

/// A long post, where it was read, as plain values.
pub open spec fn opus_view(opus: Option<OpusProjection>) -> Option<OpusView> {
    match opus {
        Some(o) => Some(o@),
        None => None,
    }
}

/// What a post embeds, where it was read, as plain values.
pub open spec fn content_view(content: Option<ParsedContent>) -> Option<ParsedContentView> {
    match content {
        Some(c) => Some(c@),
        None => None,
    }
}

/// The content of a post from what was read of it.
pub fn dynamic_content(
    id: &str,
    item: &Json,
    opus: Option<OpusProjection>,
    embedded: Option<ParsedContent>,
    cookie: &Option<String>,
) -> (r: ParsedContent)
    ensures
        r@ == dynamic_content_of(
            id@,
            *item,
            opus_view(opus),
            content_view(embedded),
            opt_text(*cookie),
        ),
{
    broadcast use {lemma_item_views_push, lemma_item_views_empty};

    let ghost o = opus_view(opus);
    let ghost e = content_view(embedded);
    let none = Json::Null;
    let major = major_in(item, &none);
    let live = live_rcmd_value(major);
    let source_id = source_id_in(item, id);
    let (opus_title, opus_text, opus_pictures) = match opus {
        Some(o) => (o.title, o.text, o.pictures),
        None => (String::new(), String::new(), Vec::new()),
    };
    assert(o is None ==> opus_title@ =~= Seq::<char>::empty());
    assert(o is None ==> opus_text@ =~= Seq::<char>::empty());
    assert(o is Some ==> dynamic_views(opus_pictures@) == (o->0).pictures);
    let mut title = if empty(opus_title.as_str()) {
        major_title(major, &live)
    } else {
        opus_title
    };
    let text = text_in(item, opus_text, Ghost(o));
    assert(dynamic_views(opus_pictures@).len() == opus_pictures@.len());
    let pictures = if opus_pictures.len() > 0 {
        opus_pictures
    } else {
        pictures_from_dynamic(dynamic_in(source_in(item), &none))
    };
    assert(dynamic_views(pictures@).len() == pictures@.len());
    let mut media = media_from_pictures(source_id.as_str(), &pictures, cookie);
    match embedded {
        Some(embedded) => {
            if empty(title.as_str()) {
                title = embedded.title;
            }
            add_media(&mut media, embedded.media);
        },
        None => {},
    }
    assert(title@ == post_title(*item, o, e));
    assert(item_views(media@).len() == media@.len());
    if media.len() == 0 {
        match major_cover(major, &live) {
            Some(cover) => {
                let m = photo_media(source_id.as_str(), 0, cover.as_str(), None, None, cookie);
                let ghost photo = m@;
                media.push(m);
                assert(item_views(media@) =~= seq![photo]);
            },
            None => {
                assert(item_views(media@) =~= Seq::<MediaItemView>::empty());
            },
        }
    }
    assert(item_views(media@) == post_media(id@, *item, o, e, opt_text(*cookie)));
    let content = ParsedContent {
        platform: Platform::Bilibili,
        kind: ContentKind::Post,
        id: id.to_owned(),
        canonical_url: cat2("https://www.bilibili.com/opus/", id),
        author: author_from_item(item),
        title,
        text,
        sensitive: false,
        stats: stats_from_item(item),
        media,
        collection_items: Vec::new(),
    };
    assert(content@.collection_items =~= Seq::<Seq<char>>::empty());
    content
}

/// The request about a post.
pub open spec fn post_question(base: Seq<char>, id: Seq<char>) -> ApiCallView {
    ApiCallView {
        url: base + "/x/polymer/web-dynamic/v1/detail"@,
        query: seq![("id"@, id), ("features"@, OPUS_FEATURES@)],
    }
}

/// The request about a long post.
pub open spec fn opus_question(base: Seq<char>, id: Seq<char>) -> ApiCallView {
    ApiCallView {
        url: base + "/x/polymer/web-dynamic/v1/opus/detail"@,
        query: seq![
            ("id"@, id),
            ("features"@, OPUS_FEATURES@),
            ("timezone_offset"@, "-480"@),
        ],
    }
}

impl BilibiliProvider {
    /// The request about a post.
    pub fn dynamic_call(&self, id: &str) -> (r: ApiCall)
        ensures
            r@ == post_question(self.api_base@, id@),
    {
        let mut query: Vec<(String, String)> = Vec::new();
        query.push(("id".to_owned(), id.to_owned()));
        query.push(("features".to_owned(), OPUS_FEATURES.to_owned()));
        assert(pair_texts(query@) =~= seq![("id"@, id@), ("features"@, OPUS_FEATURES@)]);
        ApiCall { url: cat2(self.api_base.as_str(), "/x/polymer/web-dynamic/v1/detail"), query }
    }

    /// The request about a long post.
    pub fn opus_call(&self, id: &str) -> (r: ApiCall)
        ensures
            r@ == opus_question(self.api_base@, id@),
    {
        let mut query: Vec<(String, String)> = Vec::new();
        query.push(("id".to_owned(), id.to_owned()));
        query.push(("features".to_owned(), OPUS_FEATURES.to_owned()));
        query.push(("timezone_offset".to_owned(), "-480".to_owned()));
        assert(pair_texts(query@) =~= seq![
            ("id"@, id@),
            ("features"@, OPUS_FEATURES@),
            ("timezone_offset"@, "-480"@),
        ]);
        ApiCall {
            url: cat2(self.api_base.as_str(), "/x/polymer/web-dynamic/v1/opus/detail"),
            query,
        }
    }

    /// The post in a reply.
    pub fn dynamic_item<'a>(&self, url: &str, root: &'a Json) -> (r: ProviderResult<&'a Json>)
        ensures
            match r {
                Ok(item) => present(value_at(*root, "/data/item"@)) == Some(*item),
                Err(error) => present(value_at(*root, "/data/item"@)) is None && error@
                    == ErrorView::Unavailable(url@),
            },
    {
        match if_present(root.pointer("/data/item")) {
            Some(item) => Ok(item),
            None => Err(ProviderError::Unavailable(url.to_owned())),
        }
    }

    /// The number of the long post that is read separately; none where there is none.
    pub fn opus_id(&self, item: &Json, id: &str) -> (r: Option<String>)
        ensures
            opt_text(r) == (if is_opus(*item) {
                Some(source_id_of(*item, id@))
            } else {
                None
            }),
    {
        let none = Json::Null;
        match get_str(major_in(item, &none), "/type") {
            Some(t) => if same(t.as_str(), "MAJOR_TYPE_OPUS") {
                Some(source_id_in(item, id))
            } else {
                None
            },
            None => None,
        }
    }

    /// The page that a post embeds, where it is one that can be read.
    pub fn embedded_target(&self, item: &Json) -> (r: Option<BilibiliTarget>)
        ensures
            (match r {
                Some(t) => Some(t@),
                None => None,
            }) == embedded_target_of(*item),
    {
        let none = Json::Null;
        let major = major_in(item, &none);
        let live = live_rcmd_value(major);
        match embedded_url(major, &live) {
            Some(url) => match self.target(url.as_str()) {
                Ok(BilibiliTarget::Dynamic(_)) => None,
                Ok(t) => Some(t),
                Err(_) => None,
            },
            None => None,
        }
    }
}

} // verus!
