//! Artworks on Pixiv, read through the app API where there is a login, or else the web API.
use vstd::prelude::*;

use crate::config::Config;
use crate::json::{json_text, list_value, member, render_json, target, text_value, value_at, Json};
use crate::model::{
    bare_item, content_result, item_views, lemma_item_views_empty, lemma_item_views_push, new_item,
    Author, AuthorView, ContentKind, ErrorView, MediaItem, MediaItemView, MediaKind, ParseRequest,
    ParsedContent, ParsedContentView, Platform, ProviderError, ProviderResult, Stats,
};
use crate::outside::{capture_group, is_match, regex_found, regex_group};
use crate::text::{
    cat2, cat3, cat4, cat5, copy_opt, decimal, first_number, first_of, first_text, join, joined,
    lemma_texts_empty, lemma_texts_push, lower, lowered, number_text, opt_text, or_blank, or_empty,
    pair_texts, same, texts, trim, trim_end_char, trim_end_of, trim_start_char, trim_start_of,
    trimmed, words, words_of,
};

use super::{
    document_result, field_str, filename_from_url, get_str, get_u64, host_of_link, in_domain,
    json_response, lies_in, link_host, list_at, low_u32, member_str, reply_document, str_at, to_u32,
    u64_at, url_filename, HttpReply, PlatformProvider, Provider,
};

verus! {

/// The links of artworks; one of the groups is the number of the artwork.
pub const PIXIV_LINK: &'static str =
    r"(?i)(?:https?://)?(?:www\.)?pixiv\.net/(?:[a-z]{2}/)?artworks/(\d+)|(?:https?://)?(?:www\.)?pixiv\.net/member_illust\.php\?[^\s]*illust_id=(\d+)";

/// Whether a host belongs to Pixiv.
pub open spec fn pixiv_host(host: Seq<char>) -> bool {
    in_domain(host, "pixiv.net"@)
}

pub fn is_pixiv_host(host: &str) -> (r: bool)
    ensures
        r == pixiv_host(host@),
{
    lies_in(host, "pixiv.net")
}

/// Whether a link is one of an artwork on Pixiv: it has the form of one, and its host belongs to
/// the platform.
pub open spec fn pixiv_handles(url: Seq<char>) -> bool {
    regex_found(PIXIV_LINK@, url) && pixiv_host(link_host(url))
}

/// The number of the artwork that a link names.
pub open spec fn pixiv_id(url: Seq<char>) -> Option<Seq<char>> {
    first_of(regex_group(PIXIV_LINK@, url, 1), regex_group(PIXIV_LINK@, url, 2))
}

#[derive(Debug)]
pub struct PixivProvider {
    pub base: String,
    pub refresh_token: Option<String>,
}

/// The first request to the app API.
#[derive(Debug, Clone, Copy, PartialEq, Eq, Structural)]
pub enum AppStart {
    /// There is no login: the app API is not used.
    Unused,
    /// A token is fetched first.
    Login,
    /// The token that is there is used.
    Call,
}

/// What follows a reply of the app API.
#[derive(Debug)]
pub enum AppReply {
    Document(Json),
    /// The token is dropped, and the call made once more with a new one.
    Retry,
    Failed(ProviderError),
}

/// What follows a reply of the app API, as plain values.
pub enum AppReplyView {
    Document(Json),
    Retry,
    Failed(ErrorView),
}

impl View for AppReply {
    type V = AppReplyView;

    open spec fn view(&self) -> AppReplyView {
        match self {
            AppReply::Document(document) => AppReplyView::Document(*document),
            AppReply::Retry => AppReplyView::Retry,
            AppReply::Failed(error) => AppReplyView::Failed(error@),
        }
    }
}

/// What follows the reply to call number `attempt`, counting from zero: only the first failure
/// is tried again.
pub open spec fn after_app_reply(
    attempt: int,
    document: Result<Json, ErrorView>,
) -> AppReplyView {
    match document {
        Ok(root) => AppReplyView::Document(root),
        Err(error) => if attempt == 0 {
            AppReplyView::Retry
        } else {
            AppReplyView::Failed(error)
        },
    }
}

/// The token in the reply of the login server.
pub open spec fn token_in(document: Result<Json, ErrorView>) -> Result<Seq<char>, ErrorView> {
    match document {
        Err(error) => Err(error),
        Ok(root) => match first_of(
            str_at(root, "/access_token"@),
            str_at(root, "/response/access_token"@),
        ) {
            Some(token) => Ok(token),
            None => Err(ErrorView::Authentication("refresh token 无效"@)),
        },
    }
}

/// What has been read of an artwork.
#[derive(Debug)]
pub struct PixivGathered {
    /// The app API was asked for the artwork.
    pub asked_app: bool,
    /// The description comes from the app API.
    pub from_app: bool,
    pub body: Option<Json>,
    pub pages: Option<Json>,
    /// The app API was asked for the frames.
    pub asked_app_frames: bool,
    /// The web API was asked for the frames.
    pub asked_web_frames: bool,
    pub frames: Option<Json>,
}

/// What is read next.
#[derive(Debug, Clone, Copy, PartialEq, Eq, Structural)]
pub enum PixivNext {
    AppDetail,
    WebDetail,
    Pages,
    AppFrames,
    WebFrames,
    /// Nothing more.
    Build,
}

/// Whether an artwork is an animation.
pub open spec fn ugoira_body(body: Json) -> bool {
    str_at(body, "/type"@) == Some("ugoira"@) || u64_at(body, "/illustType"@) == Some(2u64)
}

/// Whether the web API describes an artwork of several pages.
pub open spec fn has_pages(body: Json) -> bool {
    u64_at(body, "/pageCount"@) is Some && u64_at(body, "/pageCount"@)->0 > 1
}

/// What is read next of an artwork: the description, from the web where the app has none; the
/// pages of one that the web describes; and the frames of an animation, from the web where the
/// app has none.
pub open spec fn gather_next(g: PixivGathered) -> PixivNext {
    match g.body {
        None => if !g.asked_app {
            PixivNext::AppDetail
        } else {
            PixivNext::WebDetail
        },
        Some(body) => if !g.from_app && has_pages(body) && g.pages is None {
            PixivNext::Pages
        } else if ugoira_body(body) && g.frames is None && !g.asked_app_frames {
            PixivNext::AppFrames
        } else if ugoira_body(body) && g.frames is None && !g.asked_web_frames {
            PixivNext::WebFrames
        } else {
            PixivNext::Build
        },
    }
}

/// A picture and a smaller one of it.
pub type PictureView = (Seq<char>, Option<Seq<char>>);

/// The smaller picture, where it is another one.
pub open spec fn other_than(thumbnail: Option<Seq<char>>, original: Seq<char>) -> Option<
    Seq<char>,
> {
    match thumbnail {
        Some(t) => if t != original {
            Some(t)
        } else {
            None
        },
        None => None,
    }
}

/// The picture that an item of an image list describes: its address, or an object that holds
/// it.
pub open spec fn image_entry(value: Json) -> Option<PictureView> {
    match first_of(
        first_of(text_value(Some(value)), member_str(value, "original"@)),
        member_str(value, "url"@),
    ) {
        Some(original) => Some(
            (
                original,
                other_than(
                    text_value(
                        first_of(
                            first_of(member(value, "regular"@), member(value, "large"@)),
                            member(value, "medium"@),
                        ),
                    ),
                    original,
                ),
            ),
        ),
        None => None,
    }
}

/// The picture of a page as the app API describes it.
pub open spec fn app_page_entry(page: Json) -> Option<PictureView> {
    match first_of(str_at(page, "/image_urls/original"@), str_at(page, "/image_urls/large"@)) {
        Some(original) => Some(
            (
                original,
                other_than(
                    first_of(
                        str_at(page, "/image_urls/large"@),
                        str_at(page, "/image_urls/medium"@),
                    ),
                    original,
                ),
            ),
        ),
        None => None,
    }
}

/// The picture of a page as the web API describes it.
pub open spec fn web_page_entry(page: Json) -> Option<PictureView> {
    match str_at(page, "/urls/original"@) {
        Some(original) => Some(
            (
                original,
                other_than(
                    first_of(str_at(page, "/urls/regular"@), str_at(page, "/urls/small"@)),
                    original,
                ),
            ),
        ),
        None => None,
    }
}

/// The ways in which a list describes pictures.
#[derive(Debug, Clone, Copy, PartialEq, Eq, Structural)]
pub enum PictureList {
    Images,
    AppPages,
    WebPages,
}

pub open spec fn picture_entry(list: PictureList, value: Json) -> Option<PictureView> {
    match list {
        PictureList::Images => image_entry(value),
        PictureList::AppPages => app_page_entry(value),
        PictureList::WebPages => web_page_entry(value),
    }
}

/// The pictures that the first `n` items describe; items that describe none are left out.
pub open spec fn pictures_of(list: PictureList, items: Seq<Json>, n: int) -> Seq<PictureView>
    decreases n,
{
    if n <= 0 {
        Seq::empty()
    } else {
        match picture_entry(list, items[n - 1]) {
            Some(p) => pictures_of(list, items, n - 1).push(p),
            None => pictures_of(list, items, n - 1),
        }
    }
}

/// All pictures of a list.
pub open spec fn all_pictures(list: PictureList, items: Seq<Json>) -> Seq<PictureView> {
    pictures_of(list, items, items.len() as int)
}

/// The pictures in the lists of a description.
pub open spec fn listed_pictures(body: Json) -> Seq<PictureView> {
    all_pictures(PictureList::Images, list_at(body, "/images"@)) + all_pictures(
        PictureList::Images,
        list_at(body, "/urls"@),
    ) + all_pictures(PictureList::Images, list_at(body, "/imageUrls"@)) + all_pictures(
        PictureList::AppPages,
        list_at(body, "/meta_pages"@),
    )
}

/// The only picture of a description without lists.
pub open spec fn single_picture(body: Json) -> Option<PictureView> {
    match first_of(
        first_of(
            first_of(
                first_of(str_at(body, "/image"@), str_at(body, "/url"@)),
                str_at(body, "/urls/original"@),
            ),
            str_at(body, "/meta_single_page/original_image_url"@),
        ),
        str_at(body, "/image_urls/large"@),
    ) {
        Some(url) => Some(
            (
                url,
                other_than(
                    first_of(str_at(body, "/urls/regular"@), str_at(body, "/image_urls/large"@)),
                    url,
                ),
            ),
        ),
        None => None,
    }
}

/// The pictures of an artwork: those of its pages, where they were read, or else those in the
/// lists of its description, or else the only one.
pub open spec fn pictures(body: Json, pages: Option<Json>) -> Seq<PictureView> {
    let listed = match pages {
        Some(p) => all_pictures(PictureList::WebPages, list_at(p, "/body"@)),
        None => listed_pictures(body),
    };
    if listed.len() > 0 {
        listed
    } else {
        match single_picture(body) {
            Some(p) => seq![p],
            None => Seq::empty(),
        }
    }
}

/// The header without which Pixiv does not give out its files.
pub open spec fn pixiv_headers() -> Seq<(Seq<char>, Seq<char>)> {
    seq![("Referer"@, "https://www.pixiv.net/"@)]
}

/// The photo of a picture.
pub open spec fn pixiv_photo(id: Seq<char>, p: PictureView, index: int) -> MediaItemView {
    MediaItemView {
        thumbnail_url: p.1,
        headers: pixiv_headers(),
        ..bare_item(
            MediaKind::Photo,
            p.0,
            url_filename(p.0, "pixiv-"@ + id + "-p"@ + decimal(index as nat) + ".jpg"@),
            "pixiv:"@ + id + ":p"@ + decimal(index as nat),
        )
    }
}

/// The photos of the first `n` pictures.
pub open spec fn pixiv_photos(id: Seq<char>, p: Seq<PictureView>, n: int) -> Seq<MediaItemView>
    decreases n,
{
    if n <= 0 {
        Seq::empty()
    } else {
        pixiv_photos(id, p, n - 1).push(pixiv_photo(id, p[n - 1], n - 1))
    }
}

/// The address of the archive of an animation.
pub open spec fn archive_url(frames: Json) -> Option<Seq<char>> {
    first_of(
        first_of(str_at(frames, "/zip_urls/medium"@), str_at(frames, "/originalSrc"@)),
        str_at(frames, "/src"@),
    )
}

/// The animation of an artwork. The list of its frames goes with the archive.
pub open spec fn pixiv_animation(id: Seq<char>, body: Json, frames: Json) -> Option<
    MediaItemView,
> {
    match archive_url(frames) {
        Some(url) => Some(
            MediaItemView {
                thumbnail_url: str_at(body, "/image_urls/large"@),
                mime_type: Some("video/mp4"@),
                width: low_u32(u64_at(body, "/width"@)),
                height: low_u32(u64_at(body, "/height"@)),
                headers: pixiv_headers(),
                secondary_url: Some(
                    "ugoira:"@ + (match member(frames, "frames"@) {
                        Some(f) => json_text(f),
                        None => "[]"@,
                    }),
                ),
                ..bare_item(
                    MediaKind::Animation,
                    url,
                    "pixiv-"@ + id + "-ugoira.mp4"@,
                    "pixiv:"@ + id + ":ugoira"@,
                )
            },
        ),
        None => None,
    }
}

/// The media of an artwork: of an animation one video, or its first picture where there is no
/// archive; else all pictures.
pub open spec fn pixiv_media(
    id: Seq<char>,
    body: Json,
    pages: Option<Json>,
    frames: Option<Json>,
) -> Seq<MediaItemView> {
    let all = pictures(body, pages);
    if ugoira_body(body) {
        let animation = match frames {
            Some(f) => pixiv_animation(id, body, f),
            None => None,
        };
        match animation {
            Some(m) => seq![m],
            None => pixiv_photos(
                id,
                all,
                if all.len() > 0 {
                    1
                } else {
                    0
                },
            ),
        }
    } else {
        pixiv_photos(id, all, all.len() as int)
    }
}

/// The name of a tag.
pub open spec fn tag_name(value: Json) -> Option<Seq<char>> {
    first_of(
        first_of(text_value(Some(value)), member_str(value, "tag"@)),
        member_str(value, "name"@),
    )
}

/// The names of the first `n` tags, each behind a number sign.
pub open spec fn tag_words(items: Seq<Json>, n: int) -> Seq<Seq<char>>
    decreases n,
{
    if n <= 0 {
        Seq::empty()
    } else {
        match tag_name(items[n - 1]) {
            Some(t) => tag_words(items, n - 1).push("#"@ + t),
            None => tag_words(items, n - 1),
        }
    }
}

/// The tags of an artwork.
pub open spec fn pixiv_tags(body: Json) -> Seq<char> {
    match list_value(first_of(value_at(body, "/tags/tags"@), value_at(body, "/tags"@))) {
        Some(items) => {
            let all = tag_words(items, items.len() as int);
            joined(all, " "@, all.len() as int)
        },
        None => Seq::empty(),
    }
}

/// Whether a tag marks adult content.
pub open spec fn adult_tag(word: Seq<char>) -> bool {
    let w = lowered(trim_start_of(word, '#'));
    w == "r-18"@ || w == "r18"@ || w == "r-18g"@ || w == "r18g"@ || w == "nsfw"@ || w == "成人向"@
}

/// Whether an artwork is sensitive: it is restricted, or a tag says so.
pub open spec fn pixiv_sensitive(body: Json) -> bool {
    let restrict = first_of(u64_at(body, "/xRestrict"@), u64_at(body, "/x_restrict"@));
    (restrict is Some && restrict->0 > 0) || exists|i: int|
        0 <= i < words_of(pixiv_tags(body)).len() && adult_tag(
            #[trigger] words_of(pixiv_tags(body))[i],
        )
}

/// The author of an artwork.
pub open spec fn pixiv_author(body: Json) -> AuthorView {
    let id = or_blank(
        first_of(
            first_of(str_at(body, "/author/id"@), str_at(body, "/userId"@)),
            str_at(body, "/user/id"@),
        ),
    );
    AuthorView {
        id,
        name: or_blank(
            first_of(
                first_of(str_at(body, "/author/name"@), str_at(body, "/userName"@)),
                str_at(body, "/user/name"@),
            ),
        ),
        url: if id.len() == 0 {
            None
        } else {
            Some("https://www.pixiv.net/users/"@ + id)
        },
        avatar_url: None,
    }
}

/// The text of an artwork: its description, and its tags on a line of their own.
pub open spec fn pixiv_text(body: Json) -> Seq<char> {
    trimmed(
        or_blank(first_of(str_at(body, "/description"@), str_at(body, "/caption"@))) + "\n"@
            + pixiv_tags(body),
    )
}

/// The content of an artwork.
pub open spec fn pixiv_content_of(
    url: Seq<char>,
    id: Seq<char>,
    body: Json,
    pages: Option<Json>,
    frames: Option<Json>,
) -> Result<ParsedContentView, ErrorView> {
    let media = pixiv_media(id, body, pages, frames);
    if media.len() == 0 {
        Err(ErrorView::Unavailable(url))
    } else {
        Ok(
            ParsedContentView {
                platform: Platform::Pixiv,
                kind: ContentKind::Artwork,
                id,
                canonical_url: "https://www.pixiv.net/artworks/"@ + id,
                author: pixiv_author(body),
                title: or_blank(str_at(body, "/title"@)),
                text: pixiv_text(body),
                sensitive: pixiv_sensitive(body),
                stats: Stats {
                    likes: first_of(u64_at(body, "/likeCount"@), u64_at(body, "/bookmarkCount"@)),
                    reposts: None,
                    replies: None,
                    views: u64_at(body, "/viewCount"@),
                },
                media,
                collection_items: Seq::empty(),
            },
        )
    }
}

/// An animation becomes at most one medium, and another artwork as many as it has pictures.
pub proof fn law_pixiv_media_count(
    id: Seq<char>,
    body: Json,
    pages: Option<Json>,
    frames: Option<Json>,
)
    ensures
        ugoira_body(body) ==> pixiv_media(id, body, pages, frames).len() <= 1,
        !ugoira_body(body) ==> pixiv_media(id, body, pages, frames).len() == pictures(
            body,
            pages,
        ).len(),
{
    lemma_photo_count(id, pictures(body, pages), pictures(body, pages).len() as int);
    if pictures(body, pages).len() > 0 {
        lemma_photo_count(id, pictures(body, pages), 1);
    }
}

proof fn lemma_photo_count(id: Seq<char>, p: Seq<PictureView>, n: int)
    requires
        0 <= n,
    ensures
        pixiv_photos(id, p, n).len() == n,
    decreases n,
{
    if n > 0 {
        lemma_photo_count(id, p, n - 1);
    }
}

/// A picture and a smaller one of it.
#[derive(Debug)]
pub struct Picture {
    pub url: String,
    pub thumbnail: Option<String>,
}

pub open spec fn picture_views(p: Seq<Picture>) -> Seq<PictureView> {
    Seq::new(p.len(), |i: int| (p[i].url@, opt_text(p[i].thumbnail)))
}

fn unless_same(thumbnail: Option<String>, original: &str) -> (r: Option<String>)
    ensures
        opt_text(r) == other_than(opt_text(thumbnail), original@),
{
    match thumbnail {
        Some(t) => if same(t.as_str(), original) {
            None
        } else {
            Some(t)
        },
        None => None,
    }
}

fn first_member<'a>(first: Option<&'a Json>, second: Option<&'a Json>) -> (r: Option<&'a Json>)
    ensures
        target(r) == first_of(target(first), target(second)),
{
    if first.is_some() {
        first
    } else {
        second
    }
}

fn image_in(value: &Json) -> (r: Option<Picture>)
    ensures
        (match r {
            Some(p) => Some((p.url@, opt_text(p.thumbnail))),
            None => None,
        }) == image_entry(*value),
{
    let original = first_text(
        first_text(value.as_str(), field_str(value, "original")),
        field_str(value, "url"),
    );
    match original {
        Some(url) => {
            let smaller = first_member(
                first_member(value.get("regular"), value.get("large")),
                value.get("medium"),
            );
            let thumbnail = match smaller {
                Some(v) => v.as_str(),
                None => None,
            };
            let thumbnail = unless_same(thumbnail, url.as_str());
            Some(Picture { url, thumbnail })
        },
        None => None,
    }
}

fn app_page_in(page: &Json) -> (r: Option<Picture>)
    ensures
        (match r {
            Some(p) => Some((p.url@, opt_text(p.thumbnail))),
            None => None,
        }) == app_page_entry(*page),
{
    match first_text(get_str(page, "/image_urls/original"), get_str(page, "/image_urls/large")) {
        Some(url) => {
            let thumbnail = unless_same(
                first_text(get_str(page, "/image_urls/large"), get_str(page, "/image_urls/medium")),
                url.as_str(),
            );
            Some(Picture { url, thumbnail })
        },
        None => None,
    }
}

fn web_page_in(page: &Json) -> (r: Option<Picture>)
    ensures
        (match r {
            Some(p) => Some((p.url@, opt_text(p.thumbnail))),
            None => None,
        }) == web_page_entry(*page),
{
    match get_str(page, "/urls/original") {
        Some(url) => {
            let thumbnail = unless_same(
                first_text(get_str(page, "/urls/regular"), get_str(page, "/urls/small")),
                url.as_str(),
            );
            Some(Picture { url, thumbnail })
        },
        None => None,
    }
}

/// Adds the pictures of the list at a path.
fn add_pictures(out: &mut Vec<Picture>, list: PictureList, value: &Json, path: &str)
    ensures
        picture_views(final(out)@) == picture_views(old(out)@) + all_pictures(
            list,
            list_at(*value, path@),
        ),
{
    let ghost base = picture_views(out@);
    let none: Vec<Json> = Vec::new();
    let items = match value.pointer(path) {
        Some(v) => match v.as_array() {
            Some(items) => items,
            None => &none,
        },
        None => &none,
    };
    assert(items@ =~= list_at(*value, path@));
    let mut i: usize = 0;
    assert(base + pictures_of(list, items@, 0) =~= base);
    while i < items.len()
        invariant
            i <= items@.len(),
            picture_views(out@) == base + pictures_of(list, items@, i as int),
        decreases items.len() - i,
    {
        let found = match list {
            PictureList::Images => image_in(&items[i]),
            PictureList::AppPages => app_page_in(&items[i]),
            PictureList::WebPages => web_page_in(&items[i]),
        };
        let ghost before = out@;
        let ghost so_far = pictures_of(list, items@, i as int);
        match found {
            Some(p) => {
                out.push(p);
                assert(picture_views(out@) =~= picture_views(before).push(
                    (p.url@, opt_text(p.thumbnail)),
                ));
                assert((base + so_far).push((p.url@, opt_text(p.thumbnail))) =~= base
                    + so_far.push((p.url@, opt_text(p.thumbnail))));
            },
            None => {},
        }
        i += 1;
    }
}

fn single_in(body: &Json) -> (r: Option<Picture>)
    ensures
        (match r {
            Some(p) => Some((p.url@, opt_text(p.thumbnail))),
            None => None,
        }) == single_picture(*body),
{
    let url = first_text(
        first_text(
            first_text(
                first_text(get_str(body, "/image"), get_str(body, "/url")),
                get_str(body, "/urls/original"),
            ),
            get_str(body, "/meta_single_page/original_image_url"),
        ),
        get_str(body, "/image_urls/large"),
    );
    match url {
        Some(url) => {
            let thumbnail = unless_same(
                first_text(get_str(body, "/urls/regular"), get_str(body, "/image_urls/large")),
                url.as_str(),
            );
            Some(Picture { url, thumbnail })
        },
        None => None,
    }
}

fn pictures_in(body: &Json, pages: &Option<Json>) -> (r: Vec<Picture>)
    ensures
        picture_views(r@) == pictures(*body, *pages),
{
    let mut out: Vec<Picture> = Vec::new();
    assert(picture_views(out@) =~= Seq::<PictureView>::empty());
    match pages {
        Some(p) => {
            add_pictures(&mut out, PictureList::WebPages, p, "/body");
            assert(picture_views(out@) =~= all_pictures(
                PictureList::WebPages,
                list_at(*p, "/body"@),
            ));
        },
        None => {
            add_pictures(&mut out, PictureList::Images, body, "/images");
            add_pictures(&mut out, PictureList::Images, body, "/urls");
            add_pictures(&mut out, PictureList::Images, body, "/imageUrls");
            add_pictures(&mut out, PictureList::AppPages, body, "/meta_pages");
            assert(picture_views(out@) =~= listed_pictures(*body));
        },
    }
    assert(picture_views(out@).len() == out@.len());
    if out.len() == 0 {
        match single_in(body) {
            Some(p) => {
                out.push(p);
                assert(picture_views(out@) =~= seq![(p.url@, opt_text(p.thumbnail))]);
            },
            None => {
                assert(picture_views(out@) =~= Seq::<PictureView>::empty());
            },
        }
    }
    out
}

fn referer() -> (r: Vec<(String, String)>)
    ensures
        pair_texts(r@) == pixiv_headers(),
{
    let mut headers: Vec<(String, String)> = Vec::new();
    headers.push(("Referer".to_owned(), "https://www.pixiv.net/".to_owned()));
    assert(pair_texts(headers@) =~= pixiv_headers());
    headers
}

fn photo_item(id: &str, p: &Picture, index: usize) -> (r: MediaItem)
    ensures
        r@ == pixiv_photo(id@, (p.url@, opt_text(p.thumbnail)), index as int),
{
    let number = number_text(index as u64);
    let name = cat5("pixiv-", id, "-p", number.as_str(), ".jpg");
    let mut m = new_item(
        MediaKind::Photo,
        p.url.clone(),
        filename_from_url(p.url.as_str(), name.as_str()),
        cat4("pixiv:", id, ":p", number.as_str()),
    );
    m.thumbnail_url = copy_opt(&p.thumbnail);
    m.headers = referer();
    m
}

fn photo_items(id: &str, p: &Vec<Picture>, count: usize) -> (r: Vec<MediaItem>)
    requires
        count <= p@.len(),
    ensures
        item_views(r@) == pixiv_photos(id@, picture_views(p@), count as int),
{
    broadcast use {lemma_item_views_push, lemma_item_views_empty};

    let mut media: Vec<MediaItem> = Vec::new();
    let mut i: usize = 0;
    while i < count
        invariant
            i <= count <= p@.len(),
            item_views(media@) == pixiv_photos(id@, picture_views(p@), i as int),
        decreases count - i,
    {
        broadcast use {lemma_item_views_push, lemma_item_views_empty};

        assert(picture_views(p@)[i as int] == (p@[i as int].url@, opt_text(p@[i as int].thumbnail)));
        media.push(photo_item(id, &p[i], i));
        i += 1;
    }
    media
}

fn animation_item(id: &str, body: &Json, frames: &Json) -> (r: Option<MediaItem>)
    ensures
        (match r {
            Some(m) => Some(m@),
            None => None,
        }) == pixiv_animation(id@, *body, *frames),
{
    let url = first_text(
        first_text(get_str(frames, "/zip_urls/medium"), get_str(frames, "/originalSrc")),
        get_str(frames, "/src"),
    );
    match url {
        Some(url) => {
            let mut m = new_item(
                MediaKind::Animation,
                url,
                cat3("pixiv-", id, "-ugoira.mp4"),
                cat3("pixiv:", id, ":ugoira"),
            );
            m.thumbnail_url = get_str(body, "/image_urls/large");
            m.mime_type = Some("video/mp4".to_owned());
            m.width = to_u32(get_u64(body, "/width"));
            m.height = to_u32(get_u64(body, "/height"));
            m.headers = referer();
            let list = match frames.get("frames") {
                Some(f) => render_json(f),
                None => "[]".to_owned(),
            };
            m.secondary_url = Some(cat2("ugoira:", list.as_str()));
            Some(m)
        },
        None => None,
    }
}

/// Whether an artwork is an animation.
pub fn is_ugoira(body: &Json) -> (r: bool)
    ensures
        r == ugoira_body(*body),
{
    let by_type = match get_str(body, "/type") {
        Some(t) => same(t.as_str(), "ugoira"),
        None => false,
    };
    let by_number = match get_u64(body, "/illustType") {
        Some(n) => n == 2,
        None => false,
    };
    by_type || by_number
}

fn media_in(id: &str, body: &Json, pages: &Option<Json>, frames: &Option<Json>) -> (r: Vec<
    MediaItem,
>)
    ensures
        item_views(r@) == pixiv_media(id@, *body, *pages, *frames),
{
    broadcast use {lemma_item_views_push, lemma_item_views_empty};

    let all = pictures_in(body, pages);
    assert(picture_views(all@).len() == all@.len());
    if is_ugoira(body) {
        let animation = match frames {
            Some(f) => animation_item(id, body, f),
            None => None,
        };
        match animation {
            Some(m) => {
                let mut media: Vec<MediaItem> = Vec::new();
                media.push(m);
                assert(item_views(media@) =~= seq![m@]);
                media
            },
            None => photo_items(
                id,
                &all,
                if all.len() > 0 {
                    1
                } else {
                    0
                },
            ),
        }
    } else {
        photo_items(id, &all, all.len())
    }
}

fn tags_in(body: &Json) -> (r: String)
    ensures
        r@ == pixiv_tags(*body),
{
    broadcast use {lemma_texts_push, lemma_texts_empty};

    let found = first_member(body.pointer("/tags/tags"), body.pointer("/tags"));
    let items = match found {
        Some(v) => match v.as_array() {
            Some(items) => items,
            None => {
                return String::new();
            },
        },
        None => {
            return String::new();
        },
    };
    let mut out: Vec<String> = Vec::new();
    let mut i: usize = 0;
    while i < items.len()
        invariant
            i <= items@.len(),
            texts(out@) == tag_words(items@, i as int),
        decreases items.len() - i,
    {
        broadcast use {lemma_texts_push, lemma_texts_empty};

        let value = &items[i];
        match first_text(
            first_text(value.as_str(), field_str(value, "tag")),
            field_str(value, "name"),
        ) {
            Some(t) => {
                out.push(cat2("#", t.as_str()));
            },
            None => {},
        }
        i += 1;
    }
    assert(texts(out@).len() == out@.len());
    join(&out, " ")
}

fn sensitive_in(body: &Json, tags: &str) -> (r: bool)
    requires
        tags@ == pixiv_tags(*body),
    ensures
        r == pixiv_sensitive(*body),
{
    match first_number(get_u64(body, "/xRestrict"), get_u64(body, "/x_restrict")) {
        Some(n) => {
            if n > 0 {
                return true;
            }
        },
        None => {},
    }
    let all = words(tags);
    let ghost list = words_of(tags@);
    let mut i: usize = 0;
    while i < all.len()
        invariant
            i <= all@.len(),
            texts(all@) == list,
            list == words_of(pixiv_tags(*body)),
            forall|j: int| 0 <= j < i ==> !adult_tag(#[trigger] list[j]),
        decreases all.len() - i,
    {
        assert(all@[i as int]@ == list[i as int]);
        let w = lower(trim_start_char(all[i].as_str(), '#').as_str());
        let w = w.as_str();
        if same(w, "r-18") || same(w, "r18") || same(w, "r-18g") || same(w, "r18g") || same(
            w,
            "nsfw",
        ) || same(w, "成人向") {
            assert(adult_tag(words_of(pixiv_tags(*body))[i as int]));
            return true;
        }
        i += 1;
    }
    assert(list.len() == all@.len());
    false
}

/// The content of an artwork from the documents that describe it.
pub fn pixiv_content(
    url: &str,
    id: &str,
    body: &Json,
    pages: &Option<Json>,
    frames: &Option<Json>,
) -> (r: ProviderResult<ParsedContent>)
    ensures
        content_result(r) == pixiv_content_of(url@, id@, *body, *pages, *frames),
{
    let media = media_in(id, body, pages, frames);
    assert(item_views(media@).len() == media@.len());
    if media.len() == 0 {
        return Err(ProviderError::Unavailable(url.to_owned()));
    }
    let tags = tags_in(body);
    let sensitive = sensitive_in(body, tags.as_str());
    let description = or_empty(
        first_text(get_str(body, "/description"), get_str(body, "/caption")),
    );
    let author_id = or_empty(
        first_text(
            first_text(get_str(body, "/author/id"), get_str(body, "/userId")),
            get_str(body, "/user/id"),
        ),
    );
    let author_name = or_empty(
        first_text(
            first_text(get_str(body, "/author/name"), get_str(body, "/userName")),
            get_str(body, "/user/name"),
        ),
    );
    let author_url = if crate::text::empty(author_id.as_str()) {
        None
    } else {
        Some(cat2("https://www.pixiv.net/users/", author_id.as_str()))
    };
    let content = ParsedContent {
        platform: Platform::Pixiv,
        kind: ContentKind::Artwork,
        id: id.to_owned(),
        canonical_url: cat2("https://www.pixiv.net/artworks/", id),
        author: Author { id: author_id, name: author_name, url: author_url, avatar_url: None },
        title: or_empty(get_str(body, "/title")),
        text: trim(cat3(description.as_str(), "\n", tags.as_str()).as_str()),
        sensitive,
        stats: Stats {
            likes: first_number(get_u64(body, "/likeCount"), get_u64(body, "/bookmarkCount")),
            reposts: None,
            replies: None,
            views: get_u64(body, "/viewCount"),
        },
        media,
        collection_items: Vec::new(),
    };
    assert(content@.collection_items =~= Seq::<Seq<char>>::empty());
    Ok(content)
}

/// The description in the reply of the web API: its body, or the document itself.
pub open spec fn web_body_of(document: Result<Json, ErrorView>) -> Result<Json, ErrorView> {
    match document {
        Ok(root) => Ok(
            match member(root, "body"@) {
                Some(body) => body,
                None => root,
            },
        ),
        Err(error) => Err(error),
    }
}

/// The member that an answer of the app API holds for the artwork; none where the app API was
/// not used or failed.
pub open spec fn app_member_of(answer: ProviderResult<Option<Json>>, key: Seq<char>) -> Option<
    Json,
> {
    match answer {
        Ok(Some(root)) => member(root, key),
        _ => None,
    }
}

/// What has been read, or the error, as plain values.
pub open spec fn gathered_result(r: ProviderResult<PixivGathered>) -> Result<
    PixivGathered,
    ErrorView,
> {
    match r {
        Ok(g) => Ok(g),
        Err(error) => Err(error@),
    }
}

/// Nothing has been read.
pub open spec fn nothing_gathered() -> PixivGathered {
    PixivGathered {
        asked_app: false,
        from_app: false,
        body: None,
        pages: None,
        asked_app_frames: false,
        asked_web_frames: false,
        frames: None,
    }
}

/// What is known after the app API was asked for the artwork.
pub open spec fn with_app_detail(g: PixivGathered, body: Option<Json>) -> PixivGathered {
    PixivGathered { asked_app: true, from_app: body is Some, body, ..g }
}

/// What is known after the web API described the artwork.
pub open spec fn with_web_detail(g: PixivGathered, body: Json) -> PixivGathered {
    PixivGathered { body: Some(body), ..g }
}

/// What is known after the web API listed the pages.
pub open spec fn with_pages(g: PixivGathered, pages: Json) -> PixivGathered {
    PixivGathered { pages: Some(pages), ..g }
}

/// What is known after the app API was asked for the frames.
pub open spec fn with_app_frames(g: PixivGathered, frames: Option<Json>) -> PixivGathered {
    PixivGathered { asked_app_frames: true, frames, ..g }
}

/// What is known after the web API was asked for the frames.
pub open spec fn with_web_frames(g: PixivGathered, frames: Option<Json>) -> PixivGathered {
    PixivGathered { asked_web_frames: true, frames, ..g }
}

/// How far the reading is.
pub open spec fn gathering_stage(next: PixivNext) -> int {
    match next {
        PixivNext::AppDetail => 0,
        PixivNext::WebDetail => 1,
        PixivNext::Pages => 2,
        PixivNext::AppFrames => 3,
        PixivNext::WebFrames => 4,
        PixivNext::Build => 5,
    }
}

/// No question about an artwork is asked twice: whatever the answer, a later one follows.
pub proof fn law_gathering_advances(
    g: PixivGathered,
    body: Option<Json>,
    found: Json,
    frames: Option<Json>,
)
    ensures
        gather_next(g) == PixivNext::AppDetail ==> gathering_stage(
            gather_next(with_app_detail(g, body)),
        ) > 0,
        gather_next(g) == PixivNext::WebDetail ==> gathering_stage(
            gather_next(with_web_detail(g, found)),
        ) > 1,
        gather_next(g) == PixivNext::Pages ==> gathering_stage(gather_next(with_pages(g, found))) > 2,
        gather_next(g) == PixivNext::AppFrames ==> gathering_stage(
            gather_next(with_app_frames(g, frames)),
        ) > 3,
        gather_next(g) == PixivNext::WebFrames ==> gathering_stage(
            gather_next(with_web_frames(g, frames)),
        ) > 4,
{
}

/// Whether a provider is set up by the settings.
pub open spec fn pixiv_by_config(provider: PixivProvider, config: Config) -> bool {
    &&& provider.base@ == trim_end_of(config.pixiv_web_api_base@, '/')
    &&& opt_text(provider.refresh_token) == opt_text(config.pixiv_refresh_token)
}

impl PixivProvider {
    pub fn new(config: &Config) -> (r: PixivProvider)
        ensures
            pixiv_by_config(r, *config),
    {
        PixivProvider {
            base: trim_end_char(config.pixiv_web_api_base.as_str(), '/'),
            refresh_token: copy_opt(&config.pixiv_refresh_token),
        }
    }

    /// The number of the artwork that a link names.
    pub fn id(&self, url: &str) -> (r: Option<String>)
        ensures
            opt_text(r) == pixiv_id(url@),
    {
        first_text(capture_group(PIXIV_LINK, url, 1), capture_group(PIXIV_LINK, url, 2))
    }

    /// The number of the artwork, or the error that the link names none.
    pub fn artwork(&self, url: &str) -> (r: ProviderResult<String>)
        ensures
            match r {
                Ok(id) => pixiv_id(url@) == Some(id@),
                Err(error) => pixiv_id(url@) is None && error@ == ErrorView::InvalidUrl(url@),
            },
    {
        match self.id(url) {
            Some(id) => Ok(id),
            None => Err(ProviderError::InvalidUrl(url.to_owned())),
        }
    }

    /// How the app API is used, with the token that was fetched before.
    pub fn app_start(&self, token: &Option<String>) -> (r: AppStart)
        ensures
            r == (if self.refresh_token is None {
                AppStart::Unused
            } else if token is None {
                AppStart::Login
            } else {
                AppStart::Call
            }),
    {
        if self.refresh_token.is_none() {
            AppStart::Unused
        } else if token.is_none() {
            AppStart::Login
        } else {
            AppStart::Call
        }
    }

    /// The token in the reply of the login server.
    pub fn app_token(&self, reply: &HttpReply) -> (r: ProviderResult<String>)
        ensures
            (match r {
                Ok(token) => Ok(token@),
                Err(error) => Err(error@),
            }) == token_in(reply_document(*reply, "Pixiv OAuth"@)),
    {
        match json_response(reply, "Pixiv OAuth") {
            Ok(root) => match first_text(
                get_str(&root, "/access_token"),
                get_str(&root, "/response/access_token"),
            ) {
                Some(token) => Ok(token),
                None => Err(ProviderError::Authentication("refresh token 无效".to_owned())),
            },
            Err(error) => Err(error),
        }
    }

    /// Decides what follows the reply to call number `attempt` of the app API.
    pub fn app_api_get(&self, attempt: usize, reply: &HttpReply, source: &str) -> (r: AppReply)
        ensures
            r@ == after_app_reply(attempt as int, reply_document(*reply, source@)),
    {
        match json_response(reply, source) {
            Ok(root) => AppReply::Document(root),
            Err(error) => if attempt == 0 {
                AppReply::Retry
            } else {
                AppReply::Failed(error)
            },
        }
    }

    /// The description of an artwork in an answer of the app API.
    pub fn app_detail(&self, answer: ProviderResult<Option<Json>>) -> (r: Option<Json>)
        ensures
            r == app_member_of(answer, "illust"@),
    {
        match answer {
            Ok(Some(root)) => root.take("illust"),
            _ => None,
        }
    }

    /// The frames of an animation in an answer of the app API.
    pub fn app_ugoira(&self, answer: ProviderResult<Option<Json>>) -> (r: Option<Json>)
        ensures
            r == app_member_of(answer, "ugoira_metadata"@),
    {
        match answer {
            Ok(Some(root)) => root.take("ugoira_metadata"),
            _ => None,
        }
    }

    /// The address of the description in the web API.
    pub fn web_endpoint(&self, id: &str) -> (r: String)
        ensures
            r@ == self.base@ + "/ajax/illust/"@ + id@,
    {
        cat3(self.base.as_str(), "/ajax/illust/", id)
    }

    /// The address of the pages in the web API.
    pub fn pages_endpoint(&self, id: &str) -> (r: String)
        ensures
            r@ == self.base@ + "/ajax/illust/"@ + id@ + "/pages"@,
    {
        cat4(self.base.as_str(), "/ajax/illust/", id, "/pages")
    }

    /// The address of the frames in the web API.
    pub fn ugoira_endpoint(&self, id: &str) -> (r: String)
        ensures
            r@ == self.base@ + "/ajax/illust/"@ + id@ + "/ugoira_meta"@,
    {
        cat4(self.base.as_str(), "/ajax/illust/", id, "/ugoira_meta")
    }

    /// The query of every request to the web API: the language of the answer.
    pub fn web_query(&self) -> (r: Vec<(String, String)>)
        ensures
            pair_texts(r@) == seq![("lang"@, "zh"@)],
    {
        let mut query: Vec<(String, String)> = Vec::new();
        query.push(("lang".to_owned(), "zh".to_owned()));
        assert(pair_texts(query@) =~= seq![("lang"@, "zh"@)]);
        query
    }

    /// The description in the reply of the web API.
    pub fn web_body(&self, reply: &HttpReply) -> (r: ProviderResult<Json>)
        ensures
            document_result(r) == web_body_of(reply_document(*reply, "Pixiv Web API"@)),
    {
        match json_response(reply, "Pixiv Web API") {
            Ok(root) => {
                if root.get("body").is_some() {
                    match root.take("body") {
                        Some(body) => Ok(body),
                        None => Ok(Json::Null),
                    }
                } else {
                    Ok(root)
                }
            },
            Err(error) => Err(error),
        }
    }

    /// The pages in the reply of the web API.
    pub fn web_pages(&self, reply: &HttpReply) -> (r: ProviderResult<Json>)
        ensures
            document_result(r) == reply_document(*reply, "Pixiv Pages API"@),
    {
        json_response(reply, "Pixiv Pages API")
    }

    /// The frames in the reply of the web API.
    pub fn web_ugoira(&self, reply: &HttpReply) -> (r: ProviderResult<Option<Json>>)
        ensures
            (match r {
                Ok(frames) => Ok(frames),
                Err(error) => Err(error@),
            }) == (match reply_document(*reply, "Pixiv Ugoira Web API"@) {
                Ok(root) => Ok(member(root, "body"@)),
                Err(error) => Err(error),
            }),
    {
        match json_response(reply, "Pixiv Ugoira Web API") {
            Ok(root) => Ok(root.take("body")),
            Err(error) => Err(error),
        }
    }

    /// The start of reading an artwork.
    pub fn gather(&self) -> (r: PixivGathered)
        ensures
            r == nothing_gathered(),
    {
        PixivGathered {
            asked_app: false,
            from_app: false,
            body: None,
            pages: None,
            asked_app_frames: false,
            asked_web_frames: false,
            frames: None,
        }
    }

    /// Keeps the answer of the app API about the artwork.
    pub fn keep_app_detail(&self, g: PixivGathered, answer: ProviderResult<Option<Json>>) -> (r:
        PixivGathered)
        ensures
            r == with_app_detail(g, app_member_of(answer, "illust"@)),
    {
        let body = self.app_detail(answer);
        let from_app = body.is_some();
        PixivGathered { asked_app: true, from_app, body, ..g }
    }

    /// Keeps the description of the web API.
    pub fn keep_web_detail(&self, g: PixivGathered, reply: &HttpReply) -> (r: ProviderResult<
        PixivGathered,
    >)
        ensures
            gathered_result(r) == (match web_body_of(reply_document(*reply, "Pixiv Web API"@)) {
                Ok(body) => Ok(with_web_detail(g, body)),
                Err(error) => Err(error),
            }),
    {
        match self.web_body(reply) {
            Ok(body) => Ok(PixivGathered { body: Some(body), ..g }),
            Err(error) => Err(error),
        }
    }

    /// Keeps the pages of the web API.
    pub fn keep_pages(&self, g: PixivGathered, reply: &HttpReply) -> (r: ProviderResult<
        PixivGathered,
    >)
        ensures
            gathered_result(r) == (match reply_document(*reply, "Pixiv Pages API"@) {
                Ok(pages) => Ok(with_pages(g, pages)),
                Err(error) => Err(error),
            }),
    {
        match self.web_pages(reply) {
            Ok(pages) => Ok(PixivGathered { pages: Some(pages), ..g }),
            Err(error) => Err(error),
        }
    }

    /// Keeps the answer of the app API about the frames.
    pub fn keep_app_frames(&self, g: PixivGathered, answer: ProviderResult<Option<Json>>) -> (r:
        PixivGathered)
        ensures
            r == with_app_frames(g, app_member_of(answer, "ugoira_metadata"@)),
    {
        let frames = self.app_ugoira(answer);
        PixivGathered { asked_app_frames: true, frames, ..g }
    }

    /// Keeps the frames of the web API.
    pub fn keep_web_frames(&self, g: PixivGathered, reply: &HttpReply) -> (r: ProviderResult<
        PixivGathered,
    >)
        ensures
            gathered_result(r) == (match reply_document(*reply, "Pixiv Ugoira Web API"@) {
                Ok(root) => Ok(with_web_frames(g, member(root, "body"@))),
                Err(error) => Err(error),
            }),
    {
        match self.web_ugoira(reply) {
            Ok(frames) => Ok(PixivGathered { asked_web_frames: true, frames, ..g }),
            Err(error) => Err(error),
        }
    }

    /// Decides what is read next of an artwork.
    pub fn next(&self, g: &PixivGathered) -> (r: PixivNext)
        ensures
            r == gather_next(*g),
    {
        match &g.body {
            None => if !g.asked_app {
                PixivNext::AppDetail
            } else {
                PixivNext::WebDetail
            },
            Some(body) => {
                let pages = match get_u64(body, "/pageCount") {
                    Some(n) => n > 1,
                    None => false,
                };
                if !g.from_app && pages && g.pages.is_none() {
                    PixivNext::Pages
                } else if is_ugoira(body) && g.frames.is_none() && !g.asked_app_frames {
                    PixivNext::AppFrames
                } else if is_ugoira(body) && g.frames.is_none() && !g.asked_web_frames {
                    PixivNext::WebFrames
                } else {
                    PixivNext::Build
                }
            },
        }
    }

    /// The content of an artwork from what has been read of it.
    pub fn parse(&self, request: &ParseRequest, g: &PixivGathered) -> (r: ProviderResult<
        ParsedContent,
    >)
        requires
            g.body is Some,
        ensures
            content_result(r) == (match pixiv_id(request.url@) {
                None => Err(ErrorView::InvalidUrl(request.url@)),
                Some(id) => pixiv_content_of(request.url@, id, g.body->0, g.pages, g.frames),
            }),
    {
        match (self.id(request.url.as_str()), &g.body) {
            (Some(id), Some(body)) => pixiv_content(
                request.url.as_str(),
                id.as_str(),
                body,
                &g.pages,
                &g.frames,
            ),
            _ => Err(ProviderError::InvalidUrl(request.url.clone())),
        }
    }
}

impl Provider for PixivProvider {
    open spec fn platform_of(&self) -> Platform {
        Platform::Pixiv
    }

    open spec fn entry(&self) -> PlatformProvider {
        PlatformProvider::Pixiv(*self)
    }

    fn platform(&self) -> (r: Platform) {
        Platform::Pixiv
    }

    fn can_handle(&self, url: &str) -> (r: bool) {
        is_match(PIXIV_LINK, url) && is_pixiv_host(host_of_link(url).as_str())
    }

    fn into_provider(self) -> (r: PlatformProvider) {
        PlatformProvider::Pixiv(self)
    }
}

} // verus!
