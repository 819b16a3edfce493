//! Artworks on Pixiv.
use vstd::prelude::*;

use crate::json::{json_text, list_value, member, value_at, Json};
use crate::model::{ContentKind, ErrorView, MediaKind, ParsedContentView, Platform};
use crate::provider::pixiv::{
    adult_tag, after_app_reply, all_pictures, gather_next, listed_pictures, picture_entry, pictures,
    pictures_of, pixiv_content_of, pixiv_media, pixiv_photos, pixiv_sensitive, pixiv_tags,
    tag_words, token_in, web_body_of, AppReplyView, PictureList, PixivGathered, PixivNext,
};
use crate::provider::{list_at, low_u32, member_str, str_at, u64_at};
use crate::text::{decimal, joined, lowered, trimmed, words_of};

use super::{in_order, lemma_in_order_all, lemma_in_order_push};

verus! {

/// The address of the picture in full that an entry of a list names.
pub open spec fn full_address(list: PictureList, entry: Json) -> Option<Seq<char>> {
    match list {
        PictureList::Images => match entry {
            Json::Text(s) => Some(s@),
            _ => if member_str(entry, "original"@) is Some {
                member_str(entry, "original"@)
            } else {
                member_str(entry, "url"@)
            },
        },
        PictureList::AppPages => if str_at(entry, "/image_urls/original"@) is Some {
            str_at(entry, "/image_urls/original"@)
        } else {
            str_at(entry, "/image_urls/large"@)
        },
        PictureList::WebPages => str_at(entry, "/urls/original"@),
    }
}

/// The smaller picture that an entry of a list of pages names.
pub open spec fn smaller_address(list: PictureList, entry: Json) -> Option<Seq<char>> {
    match list {
        PictureList::Images => if member(entry, "regular"@) is Some {
            member_str(entry, "regular"@)
        } else if member(entry, "large"@) is Some {
            member_str(entry, "large"@)
        } else {
            member_str(entry, "medium"@)
        },
        PictureList::AppPages => if str_at(entry, "/image_urls/large"@) is Some {
            str_at(entry, "/image_urls/large"@)
        } else {
            str_at(entry, "/image_urls/medium"@)
        },
        PictureList::WebPages => if str_at(entry, "/urls/regular"@) is Some {
            str_at(entry, "/urls/regular"@)
        } else {
            str_at(entry, "/urls/small"@)
        },
    }
}

/// Whether a picture is that of an entry: with its address, and the smaller picture where that
/// is another one.
pub open spec fn picture_of_entry(
    p: (Seq<char>, Option<Seq<char>>),
    list: PictureList,
    entry: Json,
) -> bool {
    &&& full_address(list, entry) == Some(p.0)
    &&& p.1 == (if smaller_address(list, entry) == Some(p.0) {
        None
    } else {
        smaller_address(list, entry)
    })
}

/// The pictures of a list are those of its entries with an address, all of them, in order.
pub proof fn law_pictures_of_list(list: PictureList, items: Seq<Json>, n: int) -> (places: Seq<int>)
    requires
        0 <= n <= items.len(),
    ensures
        in_order(places, n),
        places.len() == pictures_of(list, items, n).len(),
        forall|j: int|
            0 <= j < places.len() ==> picture_of_entry(
                #[trigger] pictures_of(list, items, n)[j],
                list,
                items[places[j]],
            ),
        forall|k: int|
            0 <= k < n && full_address(list, #[trigger] items[k]) is Some ==> places.contains(k),
    decreases n,
{
    if n <= 0 {
        Seq::empty()
    } else {
        let before = law_pictures_of_list(list, items, n - 1);
        lemma_in_order_push(before, n - 1);
        let had = pictures_of(list, items, n - 1);
        match picture_entry(list, items[n - 1]) {
            Some(p) => {
                let places = before.push(n - 1);
                let all = pictures_of(list, items, n);
                assert(all == had.push(p));
                assert(picture_of_entry(p, list, items[n - 1]));
                assert forall|j: int| 0 <= j < places.len() implies picture_of_entry(
                    #[trigger] all[j],
                    list,
                    items[places[j]],
                ) by {
                    if j < before.len() {
                        assert(all[j] == had[j]);
                        assert(places[j] == before[j]);
                    }
                }
                assert forall|k: int|
                    0 <= k < n && full_address(list, #[trigger] items[k]) is Some implies places.contains(
                    k,
                ) by {
                    if k < n - 1 {
                        let q = choose|q: int| 0 <= q < before.len() && before[q] == k;
                        assert(places[q] == k);
                    } else {
                        assert(places[places.len() - 1] == k);
                    }
                }
                places
            },
            None => before,
        }
    }
}

proof fn lemma_photos(id: Seq<char>, p: Seq<(Seq<char>, Option<Seq<char>>)>, n: int)
    requires
        0 <= n <= p.len(),
    ensures
        pixiv_photos(id, p, n).len() == n,
        forall|i: int|
            0 <= i < n ==> {
                let m = #[trigger] pixiv_photos(id, p, n)[i];
                &&& m.source_url == p[i].0 && m.thumbnail_url == p[i].1
                &&& m.kind == MediaKind::Photo && m.requires_download
                &&& m.headers =~= seq![("Referer"@, "https://www.pixiv.net/"@)]
                &&& m.cache_key == "pixiv:"@ + id + ":p"@ + decimal(i as nat)
                &&& m.secondary_url is None
            },
    decreases n,
{
    if n > 0 {
        lemma_photos(id, p, n - 1);
    }
}

/// Whether an artwork is an animation.
pub open spec fn animated(body: Json) -> bool {
    str_at(body, "/type"@) == Some("ugoira"@) || u64_at(body, "/illustType"@) == Some(2u64)
}

/// An artwork whose pages were listed shows one photo for each page, in order: photo number `i`
/// is the original of page number `i`.
pub proof fn law_pages_are_shown(
    id: Seq<char>,
    body: Json,
    pages: Json,
    frames: Option<Json>,
    entries: Seq<Json>,
)
    requires
        !animated(body),
        list_value(value_at(pages, "/body"@)) == Some(entries),
        entries.len() > 0,
        forall|i: int|
            0 <= i < entries.len() ==> str_at(#[trigger] entries[i], "/urls/original"@) is Some,
    ensures
        ({
            let media = pixiv_media(id, body, Some(pages), frames);
            &&& media.len() == entries.len()
            &&& forall|i: int|
                0 <= i < media.len() ==> {
                    &&& str_at(entries[i], "/urls/original"@) == Some(
                        (#[trigger] media[i]).source_url,
                    )
                    &&& media[i].kind == MediaKind::Photo
                    &&& media[i].cache_key == "pixiv:"@ + id + ":p"@ + decimal(i as nat)
                    &&& media[i].headers.contains(("Referer"@, "https://www.pixiv.net/"@))
                }
        }),
{
    let n = entries.len() as int;
    let places = law_pictures_of_list(PictureList::WebPages, entries, n);
    let all = all_pictures(PictureList::WebPages, entries);
    assert forall|k: int| 0 <= k < n implies places.contains(k) by {
        assert(full_address(PictureList::WebPages, entries[k]) is Some);
    }
    lemma_in_order_all(places, n);
    assert(pictures(body, Some(pages)) == all);
    lemma_photos(id, all, n);
    let media = pixiv_media(id, body, Some(pages), frames);
    assert forall|i: int| 0 <= i < media.len() implies {
        &&& str_at(entries[i], "/urls/original"@) == Some((#[trigger] media[i]).source_url)
        &&& media[i].kind == MediaKind::Photo
        &&& media[i].cache_key == "pixiv:"@ + id + ":p"@ + decimal(i as nat)
        &&& media[i].headers.contains(("Referer"@, "https://www.pixiv.net/"@))
    } by {
        assert(picture_of_entry(all[i], PictureList::WebPages, entries[places[i]]));
        assert(media[i].headers[0] == ("Referer"@, "https://www.pixiv.net/"@));
    }
}

/// An artwork that lists its pictures in its description shows all of them: first those listed
/// as images, then as addresses, then the pages of the app API.
pub proof fn law_listed_pictures_are_shown(
    id: Seq<char>,
    body: Json,
    frames: Option<Json>,
    list: PictureList,
    path: Seq<char>,
    k: int,
) -> (j: int)
    requires
        !animated(body),
        (list == PictureList::Images && (path == "/images"@ || path == "/urls"@ || path
            == "/imageUrls"@)) || (list == PictureList::AppPages && path == "/meta_pages"@),
        0 <= k < list_at(body, path).len(),
        full_address(list, list_at(body, path)[k]) is Some,
    ensures
        ({
            let media = pixiv_media(id, body, None, frames);
            &&& 0 <= j < media.len()
            &&& full_address(list, list_at(body, path)[k]) == Some(media[j].source_url)
            &&& media[j].kind == MediaKind::Photo
        }),
{
    let items = list_at(body, path);
    let places = law_pictures_of_list(list, items, items.len() as int);
    let here = all_pictures(list, items);
    assert(places.contains(k));
    let at = choose|at: int| 0 <= at < places.len() && places[at] == k;
    assert(picture_of_entry(here[at], list, items[k]));
    let a = all_pictures(PictureList::Images, list_at(body, "/images"@));
    let b = all_pictures(PictureList::Images, list_at(body, "/urls"@));
    let c = all_pictures(PictureList::Images, list_at(body, "/imageUrls"@));
    let d = all_pictures(PictureList::AppPages, list_at(body, "/meta_pages"@));
    let all = listed_pictures(body);
    assert(all =~= a + b + c + d);
    let j = if path == "/images"@ {
        at
    } else if path == "/urls"@ {
        a.len() + at
    } else if path == "/imageUrls"@ {
        a.len() + b.len() + at
    } else {
        a.len() + b.len() + c.len() + at
    };
    if list == PictureList::AppPages {
        assert(path != "/images"@ && path != "/urls"@ && path != "/imageUrls"@) by {
            reveal_strlit("/images");
            reveal_strlit("/urls");
            reveal_strlit("/imageUrls");
            reveal_strlit("/meta_pages");
            assert("/meta_pages"@.len() == 11 && "/images"@.len() == 7 && "/urls"@.len() == 5
                && "/imageUrls"@.len() == 10);
        }
    }
    assert(all[j] == here[at]);
    lemma_photos(id, all, all.len() as int);
    j
}

/// An artwork that lists no pictures shows the one that its description names.
pub proof fn law_single_picture(id: Seq<char>, body: Json, frames: Option<Json>)
    requires
        !animated(body),
        list_at(body, "/images"@).len() == 0,
        list_at(body, "/urls"@).len() == 0,
        list_at(body, "/imageUrls"@).len() == 0,
        list_at(body, "/meta_pages"@).len() == 0,
    ensures
        ({
            let media = pixiv_media(id, body, None, frames);
            let url = if str_at(body, "/image"@) is Some {
                str_at(body, "/image"@)
            } else if str_at(body, "/url"@) is Some {
                str_at(body, "/url"@)
            } else if str_at(body, "/urls/original"@) is Some {
                str_at(body, "/urls/original"@)
            } else if str_at(body, "/meta_single_page/original_image_url"@) is Some {
                str_at(body, "/meta_single_page/original_image_url"@)
            } else {
                str_at(body, "/image_urls/large"@)
            };
            &&& url is None ==> media.len() == 0
            &&& url is Some ==> media.len() == 1 && media[0].source_url == url->0 && media[0].kind
                == MediaKind::Photo
        }),
{
    assert(listed_pictures(body) =~= Seq::<(Seq<char>, Option<Seq<char>>)>::empty());
    let all = pictures(body, None);
    lemma_photos(id, all, all.len() as int);
}

/// An animation is one medium, fetched from its archive, with its frames; without them it is
/// shown by its first picture alone.
pub proof fn law_animation(
    id: Seq<char>,
    body: Json,
    pages: Option<Json>,
    frames: Option<Json>,
)
    requires
        animated(body),
    ensures
        ({
            let media = pixiv_media(id, body, pages, frames);
            let archive = match frames {
                Some(f) => if str_at(f, "/zip_urls/medium"@) is Some {
                    str_at(f, "/zip_urls/medium"@)
                } else if str_at(f, "/originalSrc"@) is Some {
                    str_at(f, "/originalSrc"@)
                } else {
                    str_at(f, "/src"@)
                },
                None => None,
            };
            match archive {
                Some(url) => {
                    &&& media.len() == 1
                    &&& media[0].source_url == url && media[0].kind == MediaKind::Animation
                    &&& media[0].width == low_u32(u64_at(body, "/width"@))
                    &&& media[0].height == low_u32(u64_at(body, "/height"@))
                    &&& media[0].thumbnail_url == str_at(body, "/image_urls/large"@)
                    &&& media[0].requires_download && media[0].headers =~= seq![
                        ("Referer"@, "https://www.pixiv.net/"@),
                    ]
                    &&& media[0].cache_key == "pixiv:"@ + id + ":ugoira"@
                    &&& member(frames->0, "frames"@) matches Some(list) ==> media[0].secondary_url
                        == Some("ugoira:"@ + json_text(list))
                    &&& member(frames->0, "frames"@) is None ==> media[0].secondary_url == Some(
                        "ugoira:"@ + "[]"@,
                    )
                },
                None => {
                    let all = pictures(body, pages);
                    &&& media.len() == (if all.len() > 0 {
                        1int
                    } else {
                        0
                    })
                    &&& all.len() > 0 ==> media[0].source_url == all[0].0 && media[0].kind
                        == MediaKind::Photo
                },
            }
        }),
{
    let all = pictures(body, pages);
    lemma_photos(
        id,
        all,
        if all.len() > 0 {
            1
        } else {
            0
        },
    );
}

/// The name of a tag.
pub open spec fn name_of_tag(tag: Json) -> Option<Seq<char>> {
    match tag {
        Json::Text(s) => Some(s@),
        _ => if member_str(tag, "tag"@) is Some {
            member_str(tag, "tag"@)
        } else {
            member_str(tag, "name"@)
        },
    }
}

/// Whether a word is a number sign and the name of a tag.
pub open spec fn word_of_tag(word: Seq<char>, tag: Json) -> bool {
    name_of_tag(tag) is Some && word == "#"@ + name_of_tag(tag)->0
}

proof fn lemma_tags(items: Seq<Json>, n: int) -> (places: Seq<int>)
    requires
        0 <= n <= items.len(),
    ensures
        in_order(places, n),
        places.len() == tag_words(items, n).len(),
        forall|j: int|
            0 <= j < places.len() ==> word_of_tag(
                #[trigger] tag_words(items, n)[j],
                items[places[j]],
            ),
        forall|k: int|
            0 <= k < n && name_of_tag(#[trigger] items[k]) is Some ==> places.contains(k),
    decreases n,
{
    if n <= 0 {
        Seq::empty()
    } else {
        let before = lemma_tags(items, n - 1);
        lemma_in_order_push(before, n - 1);
        let had = tag_words(items, n - 1);
        let all = tag_words(items, n);
        if name_of_tag(items[n - 1]) is Some {
            let places = before.push(n - 1);
            assert(all == had.push("#"@ + name_of_tag(items[n - 1])->0));
            assert forall|j: int| 0 <= j < places.len() implies word_of_tag(
                #[trigger] all[j],
                items[places[j]],
            ) by {
                if j < before.len() {
                    assert(all[j] == had[j]);
                    assert(places[j] == before[j]);
                }
            }
            assert forall|k: int|
                0 <= k < n && name_of_tag(#[trigger] items[k]) is Some implies places.contains(
                k,
            ) by {
                if k < n - 1 {
                    let q = choose|q: int| 0 <= q < before.len() && before[q] == k;
                    assert(places[q] == k);
                } else {
                    assert(places[places.len() - 1] == k);
                }
            }
            places
        } else {
            before
        }
    }
}

/// The tags are those of the list that have a name, all of them, in order, each behind a number
/// sign and with a blank between them.
pub proof fn law_tags(body: Json, items: Seq<Json>) -> (r: (Seq<int>, Seq<Seq<char>>))
    requires
        list_value(
            if value_at(body, "/tags/tags"@) is Some {
                value_at(body, "/tags/tags"@)
            } else {
                value_at(body, "/tags"@)
            },
        ) == Some(items),
    ensures
        in_order(r.0, items.len() as int),
        r.0.len() == r.1.len(),
        forall|j: int|
            0 <= j < r.0.len() ==> word_of_tag(#[trigger] r.1[j], items[r.0[j]]),
        forall|k: int|
            0 <= k < items.len() && name_of_tag(#[trigger] items[k]) is Some ==> r.0.contains(k),
        pixiv_tags(body) == joined(r.1, " "@, r.1.len() as int),
{
    (lemma_tags(items, items.len() as int), tag_words(items, items.len() as int))
}

/// An artwork has the title, the text with the tags behind it, the author and the statistics of
/// its description.
pub proof fn law_artwork_is_as_described(
    url: Seq<char>,
    id: Seq<char>,
    body: Json,
    pages: Option<Json>,
    frames: Option<Json>,
)
    ensures
        pixiv_media(id, body, pages, frames).len() == 0 ==> pixiv_content_of(
            url,
            id,
            body,
            pages,
            frames,
        ) == Err::<ParsedContentView, ErrorView>(ErrorView::Unavailable(url)),
        pixiv_media(id, body, pages, frames).len() > 0 ==> pixiv_content_of(
            url,
            id,
            body,
            pages,
            frames,
        ) is Ok,
        pixiv_content_of(url, id, body, pages, frames) matches Ok(c) ==> {
            let author = if str_at(body, "/author/id"@) is Some {
                str_at(body, "/author/id"@)
            } else if str_at(body, "/userId"@) is Some {
                str_at(body, "/userId"@)
            } else {
                str_at(body, "/user/id"@)
            };
            let name = if str_at(body, "/author/name"@) is Some {
                str_at(body, "/author/name"@)
            } else if str_at(body, "/userName"@) is Some {
                str_at(body, "/userName"@)
            } else {
                str_at(body, "/user/name"@)
            };
            let text = if str_at(body, "/description"@) is Some {
                str_at(body, "/description"@)
            } else {
                str_at(body, "/caption"@)
            };
            &&& c.platform == Platform::Pixiv && c.kind == ContentKind::Artwork && c.id == id
            &&& c.canonical_url == "https://www.pixiv.net/artworks/"@ + id
            &&& c.media == pixiv_media(id, body, pages, frames)
            &&& str_at(body, "/title"@) matches Some(title) ==> c.title == title
            &&& name matches Some(n) ==> c.author.name == n
            &&& author matches Some(a) ==> c.author.id == a && (a.len() > 0 ==> c.author.url
                == Some("https://www.pixiv.net/users/"@ + a))
            &&& text matches Some(t) ==> c.text == trimmed(t + "\n"@ + pixiv_tags(body))
            &&& c.stats.views == u64_at(body, "/viewCount"@)
            &&& c.stats.likes == (if u64_at(body, "/likeCount"@) is Some {
                u64_at(body, "/likeCount"@)
            } else {
                u64_at(body, "/bookmarkCount"@)
            })
            &&& c.stats.reposts is None && c.stats.replies is None
        },
{
}

/// Whether a word of the tags marks adult content.
pub open spec fn marks_adult(word: Seq<char>) -> bool {
    let w = lowered(crate::text::trim_start_of(word, '#'));
    w == "r-18"@ || w == "r18"@ || w == "r-18g"@ || w == "r18g"@ || w == "nsfw"@ || w == "成人向"@
}

/// An artwork is sensitive exactly where it is restricted or one of the words of its tags marks
/// adult content.
pub proof fn law_artwork_is_sensitive(body: Json)
    ensures
        ({
            let restrict = if u64_at(body, "/xRestrict"@) is Some {
                u64_at(body, "/xRestrict"@)
            } else {
                u64_at(body, "/x_restrict"@)
            };
            let words = words_of(pixiv_tags(body));
            pixiv_sensitive(body) == ((restrict is Some && restrict->0 > 0) || (exists|i: int|
                0 <= i < words.len() && marks_adult(#[trigger] words[i])))
        }),
{
    let words = words_of(pixiv_tags(body));
    assert forall|i: int| adult_tag(#[trigger] words[i]) == marks_adult(words[i]) by {}
    if exists|i: int| 0 <= i < words.len() && adult_tag(#[trigger] words[i]) {
        let i = choose|i: int| 0 <= i < words.len() && adult_tag(#[trigger] words[i]);
        assert(marks_adult(words[i]));
    }
}

/// What is read of an artwork: the description, from the app API and else from the web API; the
/// pages where the web API says there are several; the frames of an animation, from the app API
/// and else from the web API. Nothing else is asked.
pub proof fn law_what_is_read(g: PixivGathered)
    ensures
        gather_next(g) == PixivNext::AppDetail <==> g.body is None && !g.asked_app,
        gather_next(g) == PixivNext::WebDetail <==> g.body is None && g.asked_app,
        gather_next(g) == PixivNext::Pages <==> g.body is Some && !g.from_app && g.pages is None
            && u64_at(g.body->0, "/pageCount"@) is Some && u64_at(g.body->0, "/pageCount"@)->0 >= 2,
        gather_next(g) == PixivNext::AppFrames ==> animated(g.body->0) && g.frames is None
            && !g.asked_app_frames,
        gather_next(g) == PixivNext::WebFrames ==> animated(g.body->0) && g.frames is None
            && g.asked_app_frames && !g.asked_web_frames,
        gather_next(g) == PixivNext::Build ==> g.body is Some && (animated(g.body->0)
            ==> g.frames is Some || (g.asked_app_frames && g.asked_web_frames)),
{
}

/// A call of the app API that fails is made once more, and only once; the login gives the token
/// that the reply holds.
pub proof fn law_app_api(attempt: int, root: Json, error: ErrorView)
    ensures
        after_app_reply(attempt, Ok(root)) == AppReplyView::Document(root),
        after_app_reply(0, Err(error)) == AppReplyView::Retry,
        attempt != 0 ==> after_app_reply(attempt, Err(error)) == AppReplyView::Failed(error),
        str_at(root, "/access_token"@) matches Some(t) ==> token_in(Ok(root)) == Ok::<
            Seq<char>,
            ErrorView,
        >(t),
        str_at(root, "/access_token"@) is None && str_at(root, "/response/access_token"@) is Some
            ==> token_in(Ok(root)) == Ok::<Seq<char>, ErrorView>(
            str_at(root, "/response/access_token"@)->0,
        ),
        member(root, "body"@) matches Some(body) ==> web_body_of(Ok(root)) == Ok::<Json, ErrorView>(
            body,
        ),
{
}

} // verus!
