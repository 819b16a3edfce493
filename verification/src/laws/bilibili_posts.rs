//! Posts on Bilibili.
use vstd::prelude::*;

use crate::json::{list_value, member, value_at, Json};
use crate::model::{ContentKind, MediaItemView, MediaKind, ParsedContentView, Platform};
use crate::provider::bilibili::dynamic::{
    address_among, asset_url, dynamic_content_of, dynamic_of, dynamic_text_of, embedded_url_of,
    item_lines, node_text, nodes_text, opus_lines, opus_of, opus_pictures, opus_question,
    opus_title, paragraph_lines, paragraph_pictures, paragraph_text, picture_of, pictures_among,
    post_media, post_photo, post_photos, post_pictures, post_question, post_text, post_title,
    source_of, source_text, DynamicPictureView, NodeKind, OpusView,
};
use crate::provider::bilibili::OPUS_FEATURES;
use crate::provider::{list_at, str_at, u64_at};
use crate::text::{decimal, has_prefix, joined, or_blank, trimmed};

use super::{in_order, lemma_in_order_push};

verus! {

/// An address is brought to HTTPS: white space around it does not count, a missing scheme is
/// added, that of HTTP replaced, and anything else is no address.
pub proof fn law_asset_address(rest: Seq<char>)
    requires
        rest.len() > 0,
        forall|i: int| 0 <= i < rest.len() ==> !crate::text::is_white(#[trigger] rest[i]),
    ensures
        asset_url("//"@ + rest) == Some("https://"@ + rest),
        asset_url("http://"@ + rest) == Some("https://"@ + rest),
        asset_url("https://"@ + rest) == Some("https://"@ + rest),
        asset_url(Seq::empty()) is None,
        asset_url(rest) is Some ==> has_prefix(asset_url(rest)->0, "https://"@),
{
    reveal_strlit("//");
    reveal_strlit("https:");
    reveal_strlit("http://");
    reveal_strlit("https://");
    let a = "//"@ + rest;
    let b = "http://"@ + rest;
    let c = "https://"@ + rest;
    assert(a[0] == '/' && b[0] == 'h' && c[0] == 'h');
    assert(a.last() == rest.last() && b.last() == rest.last() && c.last() == rest.last());
    assert(trimmed(a) == a && trimmed(b) == b && trimmed(c) == c && trimmed(rest) == rest);
    assert(a.subrange(0, 2) =~= "//"@);
    assert("https:"@ + a =~= "https://"@ + rest);
    assert(b.subrange(0, 2)[0] == 'h' && c.subrange(0, 2)[0] == 'h');
    assert(b.subrange(0, 7) =~= "http://"@);
    assert(b.skip(7) =~= rest);
    assert(c.subrange(0, 7)[4] == 's');
    assert(c.subrange(0, 8) =~= "https://"@);
    assert(trimmed(Seq::<char>::empty()) =~= Seq::<char>::empty());
    match asset_url(rest) {
        Some(u) => {
            if has_prefix(rest, "//"@) {
                assert(rest[0] == rest.subrange(0, 2)[0] && rest[1] == rest.subrange(0, 2)[1]);
                assert(u.subrange(0, 8) =~= "https://"@);
            } else if has_prefix(rest, "http://"@) {
                assert(u.subrange(0, 8) =~= "https://"@);
            }
        },
        None => {},
    }
}

/// The address that an entry of a list of pictures names.
pub open spec fn entry_address(entry: Json) -> Option<Seq<char>> {
    let named = if str_at(entry, "/url"@) is Some {
        str_at(entry, "/url"@)
    } else if str_at(entry, "/src"@) is Some {
        str_at(entry, "/src"@)
    } else {
        str_at(entry, "/live_url"@)
    };
    match named {
        Some(text) => asset_url(text),
        None => None,
    }
}

/// Whether a picture is that of an entry.
pub open spec fn picture_of_entry(p: DynamicPictureView, entry: Json) -> bool {
    &&& entry_address(entry) == Some(p.0)
    &&& p.1 == (match u64_at(entry, "/width"@) {
        Some(n) => if n <= u32::MAX {
            Some(n as u32)
        } else {
            None
        },
        None => None,
    })
    &&& p.2 == (match u64_at(entry, "/height"@) {
        Some(n) => if n <= u32::MAX {
            Some(n as u32)
        } else {
            None
        },
        None => None,
    })
}

/// The pictures of a list are those of its entries with an address, all of them, in order.
pub proof fn law_pictures_of_list(values: Seq<Json>, n: int) -> (places: Seq<int>)
    requires
        0 <= n <= values.len(),
    ensures
        in_order(places, n),
        places.len() == pictures_among(values, n).len(),
        forall|j: int|
            0 <= j < places.len() ==> picture_of_entry(
                #[trigger] pictures_among(values, n)[j],
                values[places[j]],
            ),
        forall|k: int|
            0 <= k < n && entry_address(#[trigger] values[k]) is Some ==> places.contains(k),
    decreases n,
{
    if n <= 0 {
        Seq::empty()
    } else {
        let before = law_pictures_of_list(values, n - 1);
        lemma_in_order_push(before, n - 1);
        let had = pictures_among(values, n - 1);
        match picture_of(values[n - 1]) {
            Some(p) => {
                let places = before.push(n - 1);
                let all = pictures_among(values, n);
                assert(all == had.push(p));
                assert(picture_of_entry(p, values[n - 1]));
                assert forall|j: int| 0 <= j < places.len() implies picture_of_entry(
                    #[trigger] all[j],
                    values[places[j]],
                ) by {
                    if j < before.len() {
                        assert(all[j] == had[j]);
                        assert(places[j] == before[j]);
                    }
                }
                assert forall|k: int|
                    0 <= k < n && entry_address(#[trigger] values[k]) is Some implies places.contains(
                    k,
                ) by {
                    if k < n - 1 {
                        let q = choose|q: int| 0 <= q < before.len() && before[q] == k;
                        assert(places[q] == k);
                    } else {
                        assert(places[places.len() - 1] == k);
                    }
                }
                places
            },
            None => before,
        }
    }
}

/// Whether a photo shows a picture.
pub open spec fn shows_picture(m: MediaItemView, p: DynamicPictureView) -> bool {
    m.source_url == p.0 && m.width == p.1 && m.height == p.2 && m.kind == MediaKind::Photo
}

/// Whether no picture before one has its address.
pub open spec fn first_with_address(p: Seq<DynamicPictureView>, place: int) -> bool {
    forall|k: int| 0 <= k < place ==> (#[trigger] p[k]).0 != p[place].0
}

/// Whether one of the pictures at the given places has an address.
pub open spec fn address_shown(
    p: Seq<DynamicPictureView>,
    places: Seq<int>,
    url: Seq<char>,
) -> bool {
    exists|j: int| 0 <= j < places.len() && p[#[trigger] places[j]].0 == url
}

proof fn lemma_address_stays(
    p: Seq<DynamicPictureView>,
    places: Seq<int>,
    more: int,
    url: Seq<char>,
)
    requires
        address_shown(p, places, url) || p[more].0 == url,
    ensures
        address_shown(p, places.push(more), url),
{
    let all = places.push(more);
    if address_shown(p, places, url) {
        let j = choose|j: int| 0 <= j < places.len() && p[#[trigger] places[j]].0 == url;
        assert(all[j] == places[j]);
    } else {
        assert(all[places.len() as int] == more);
    }
}

/// The photos of a post show its pictures in order, each address once, where it first appears:
/// every picture has a photo with its address, and every photo is that of a picture.
pub proof fn law_photos_show_pictures(
    id: Seq<char>,
    p: Seq<DynamicPictureView>,
    cookie: Option<Seq<char>>,
    n: int,
) -> (places: Seq<int>)
    requires
        0 <= n <= p.len(),
    ensures
        in_order(places, n),
        places.len() == post_photos(id, p, cookie, n).len(),
        forall|j: int|
            0 <= j < places.len() ==> shows_picture(
                #[trigger] post_photos(id, p, cookie, n)[j],
                p[places[j]],
            ),
        forall|j: int| 0 <= j < places.len() ==> first_with_address(p, #[trigger] places[j]),
        forall|k: int| 0 <= k < n ==> #[trigger] address_shown(p, places, p[k].0),
    decreases n,
{
    if n <= 0 {
        Seq::empty()
    } else {
        let before = law_photos_show_pictures(id, p, cookie, n - 1);
        lemma_in_order_push(before, n - 1);
        let had = post_photos(id, p, cookie, n - 1);
        let all = post_photos(id, p, cookie, n);
        let last = p[n - 1].0;
        if address_among(p, last, n - 1) {
            let i = choose|i: int| 0 <= i < n - 1 && (#[trigger] p[i]).0 == last;
            assert(address_shown(p, before, p[i].0));
            assert(all == had);
            before
        } else {
            let places = before.push(n - 1);
            assert(all == had.push(post_photo(id, had.len() as int, p[n - 1], cookie)));
            assert forall|j: int| 0 <= j < places.len() implies shows_picture(
                #[trigger] all[j],
                p[places[j]],
            ) by {
                if j < before.len() {
                    assert(all[j] == had[j]);
                    assert(places[j] == before[j]);
                }
            }
            assert forall|j: int| 0 <= j < places.len() implies first_with_address(
                p,
                #[trigger] places[j],
            ) by {
                if j < before.len() {
                    assert(places[j] == before[j]);
                } else {
                    assert forall|k: int| 0 <= k < n - 1 implies (#[trigger] p[k]).0 != last by {
                        if p[k].0 == last {
                            assert(address_among(p, last, n - 1));
                        }
                    }
                }
            }
            assert forall|k: int| 0 <= k < n implies #[trigger] address_shown(
                p,
                places,
                p[k].0,
            ) by {
                if k < n - 1 {
                    assert(address_shown(p, before, p[k].0));
                }
                lemma_address_stays(p, before, n - 1, p[k].0);
            }
            places
        }
    }
}

/// Whether an entry of a list of pictures names an address.
pub open spec fn address_named(entries: Seq<Json>, url: Seq<char>) -> bool {
    exists|e: int| 0 <= e < entries.len() && entry_address(#[trigger] entries[e]) == Some(url)
}

/// A post shows every picture that its list names: for each entry with an address there is a
/// photo with exactly that address, and every photo is that of an entry. No address is shown
/// twice.
pub proof fn law_post_shows_every_picture(
    id: Seq<char>,
    item: Json,
    cookie: Option<Seq<char>>,
    entries: Seq<Json>,
    k: int,
) -> (j: int)
    requires
        list_value(
            if value_at(dynamic_of(source_of(item)), "/major/opus/pics"@) is Some {
                value_at(dynamic_of(source_of(item)), "/major/opus/pics"@)
            } else {
                value_at(dynamic_of(source_of(item)), "/major/draw/items"@)
            },
        ) == Some(entries),
        0 <= k < entries.len(),
        entry_address(entries[k]) is Some,
    ensures
        ({
            let media = post_media(id, item, None, None, cookie);
            &&& 0 <= j < media.len()
            &&& media[j].source_url == entry_address(entries[k])->0
            &&& media[j].kind == MediaKind::Photo
            &&& forall|i: int|
                0 <= i < media.len() ==> address_named(entries, (#[trigger] media[i]).source_url)
            &&& forall|a: int, b: int|
                0 <= a < b < media.len() ==> (#[trigger] media[a]).source_url != (
                #[trigger] media[b]).source_url
        }),
{
    let n = entries.len() as int;
    let pictures = pictures_among(entries, n);
    let from = law_pictures_of_list(entries, n);
    let m = pictures.len() as int;
    assert(post_pictures(dynamic_of(source_of(item))) == pictures);
    let source = crate::provider::bilibili::dynamic::source_id_of(item, id);
    let shown = law_photos_show_pictures(source, pictures, cookie, m);
    let photos = post_photos(source, pictures, cookie, m);
    assert(from.contains(k));
    let at = choose|at: int| 0 <= at < from.len() && from[at] == k;
    assert(picture_of_entry(pictures[at], entries[k]));
    assert(address_shown(pictures, shown, pictures[at].0));
    let j = choose|j: int| 0 <= j < shown.len() && pictures[#[trigger] shown[j]].0
        == pictures[at].0;
    assert(shows_picture(photos[j], pictures[shown[j]]));
    let media = post_media(id, item, None, None, cookie);
    assert(media == photos);
    assert forall|i: int| 0 <= i < media.len() implies address_named(
        entries,
        (#[trigger] media[i]).source_url,
    ) by {
        assert(shows_picture(photos[i], pictures[shown[i]]));
        assert(picture_of_entry(pictures[shown[i]], entries[from[shown[i]]]));
    }
    assert forall|a: int, b: int| 0 <= a < b < media.len() implies (#[trigger] media[a]).source_url
        != (#[trigger] media[b]).source_url by {
        assert(shows_picture(photos[a], pictures[shown[a]]));
        assert(shows_picture(photos[b], pictures[shown[b]]));
        assert(first_with_address(pictures, shown[b]));
        assert(shown[a] < shown[b]);
    }
    j
}

/// The photos of a post that shows the content of another page stand before the media of that
/// page, and all media of the page follow.
pub proof fn law_embedded_media_follow(
    id: Seq<char>,
    item: Json,
    opus: Option<OpusView>,
    embedded: ParsedContentView,
    cookie: Option<Seq<char>>,
)
    requires
        embedded.media.len() > 0,
    ensures
        ({
            let media = post_media(id, item, opus, Some(embedded), cookie);
            let own = media.len() - embedded.media.len();
            &&& own >= 0
            &&& media.skip(own) =~= embedded.media
            &&& forall|i: int| 0 <= i < own ==> (#[trigger] media[i]).kind == MediaKind::Photo
        }),
{
    let own = post_pictures(dynamic_of(source_of(item)));
    let pictures = match opus {
        Some(o) => if o.pictures.len() > 0 {
            o.pictures
        } else {
            own
        },
        None => own,
    };
    let source = crate::provider::bilibili::dynamic::source_id_of(item, id);
    let places = law_photos_show_pictures(source, pictures, cookie, pictures.len() as int);
    let photos = post_photos(source, pictures, cookie, pictures.len() as int);
    let media = post_media(id, item, opus, Some(embedded), cookie);
    assert(media =~= photos + embedded.media);
    assert forall|i: int| 0 <= i < photos.len() implies (#[trigger] media[i]).kind
        == MediaKind::Photo by {
        assert(shows_picture(photos[i], pictures[places[i]]));
    }
}

/// The full text of a post shows the pictures of the full text where it has any.
pub proof fn law_full_text_pictures(
    id: Seq<char>,
    item: Json,
    opus: OpusView,
    cookie: Option<Seq<char>>,
    k: int,
) -> (j: int)
    requires
        0 <= k < opus.pictures.len(),
    ensures
        0 <= j < post_media(id, item, Some(opus), None, cookie).len(),
        post_media(id, item, Some(opus), None, cookie)[j].source_url == opus.pictures[k].0,
{
    let source = crate::provider::bilibili::dynamic::source_id_of(item, id);
    let n = opus.pictures.len() as int;
    let places = law_photos_show_pictures(source, opus.pictures, cookie, n);
    let photos = post_photos(source, opus.pictures, cookie, n);
    assert(address_shown(opus.pictures, places, opus.pictures[k].0));
    let j = choose|j: int| 0 <= j < places.len() && opus.pictures[#[trigger] places[j]].0
        == opus.pictures[k].0;
    assert(shows_picture(photos[j], opus.pictures[places[j]]));
    j
}

proof fn lemma_nodes_prefix(kind: NodeKind, a: Seq<Json>, b: Seq<Json>, n: int)
    requires
        0 <= n <= a.len(),
        n <= b.len(),
        forall|i: int| 0 <= i < n ==> a[i] == b[i],
    ensures
        nodes_text(kind, a, n) == nodes_text(kind, b, n),
    decreases n,
{
    if n > 0 {
        lemma_nodes_prefix(kind, a, b, n - 1);
    }
}

/// The text of pieces is the text of each, one after another: of one piece it is its text, and
/// more pieces add theirs behind it.
pub proof fn law_text_of_pieces(kind: NodeKind, nodes: Seq<Json>, piece: Json)
    ensures
        nodes_text(kind, nodes.push(piece), nodes.len() as int + 1) == nodes_text(
            kind,
            nodes,
            nodes.len() as int,
        ) + or_blank(node_text(kind, piece)),
        nodes_text(kind, Seq::empty(), 0).len() == 0,
        kind == NodeKind::Rich && str_at(piece, "/text"@) is Some ==> node_text(kind, piece)
            == str_at(piece, "/text"@),
        kind == NodeKind::Rich && str_at(piece, "/text"@) is None && str_at(
            piece,
            "/orig_text"@,
        ) is Some ==> node_text(kind, piece) == str_at(piece, "/orig_text"@),
        kind != NodeKind::Rich && str_at(piece, "/word/words"@) is Some ==> node_text(kind, piece)
            == str_at(piece, "/word/words"@),
        kind != NodeKind::Rich && str_at(piece, "/word/words"@) is None && str_at(
            piece,
            "/rich/text"@,
        ) is Some ==> node_text(kind, piece) == str_at(piece, "/rich/text"@),
{
    lemma_nodes_prefix(kind, nodes.push(piece), nodes, nodes.len() as int);
    assert(nodes.push(piece)[nodes.len() as int] == piece);
}

/// A post has the text that it gives, then that of its summary, then that of its pieces.
pub proof fn law_text_of_post(dynamic: Json)
    ensures
        or_blank(str_at(dynamic, "/desc/text"@)).len() > 0 ==> Some(dynamic_text_of(dynamic))
            == str_at(dynamic, "/desc/text"@),
        str_at(dynamic, "/desc/text"@) is None && or_blank(
            str_at(dynamic, "/major/opus/summary/text"@),
        ).len() > 0 ==> dynamic_text_of(dynamic) == str_at(
            dynamic,
            "/major/opus/summary/text"@,
        )->0,
        str_at(dynamic, "/desc/text"@) is None && str_at(
            dynamic,
            "/major/opus/summary/text"@,
        ) is None ==> dynamic_text_of(dynamic) == nodes_text(
            NodeKind::Rich,
            list_at(dynamic, "/desc/rich_text_nodes"@),
            list_at(dynamic, "/desc/rich_text_nodes"@).len() as int,
        ),
{
}

proof fn lemma_lines_prefix(a: Seq<Json>, b: Seq<Json>, n: int)
    requires
        0 <= n <= a.len(),
        n <= b.len(),
        forall|i: int| 0 <= i < n ==> a[i] == b[i],
    ensures
        paragraph_lines(a, n) == paragraph_lines(b, n),
        paragraph_pictures(a, n) == paragraph_pictures(b, n),
        item_lines(a, n) == item_lines(b, n),
        opus_lines(a, n) == opus_lines(b, n),
        opus_pictures(a, n) == opus_pictures(b, n),
        forall|base: Seq<char>| #[trigger] opus_title(base, a, n) == opus_title(base, b, n),
    decreases n,
{
    if n > 0 {
        lemma_lines_prefix(a, b, n - 1);
        assert forall|base: Seq<char>| #[trigger] opus_title(base, a, n) == opus_title(
            base,
            b,
            n,
        ) by {
            assert(opus_title(base, a, n - 1) == opus_title(base, b, n - 1));
        }
    }
}

/// Each paragraph of a full text is a line of its own, behind those before it, and each list of
/// pictures in it adds its pictures; paragraphs without text leave no line.
pub proof fn law_paragraphs_are_lines(paragraphs: Seq<Json>, paragraph: Json)
    ensures
        ({
            let n = paragraphs.len() as int;
            let more = paragraphs.push(paragraph);
            let pics = list_at(paragraph, "/pic/pics"@);
            &&& paragraph_lines(more, n + 1) == paragraph_lines(paragraphs, n) + (if paragraph_text(
                paragraph,
            ).len() > 0 {
                seq![paragraph_text(paragraph)]
            } else {
                Seq::empty()
            })
            &&& paragraph_pictures(more, n + 1) == paragraph_pictures(paragraphs, n)
                + pictures_among(pics, pics.len() as int)
        }),
        paragraph_lines(Seq::empty(), 0).len() == 0,
        paragraph_pictures(Seq::empty(), 0).len() == 0,
{
    let n = paragraphs.len() as int;
    let more = paragraphs.push(paragraph);
    lemma_lines_prefix(more, paragraphs, n);
    assert(more[n] == paragraph);
    assert(paragraph_lines(more, n + 1) =~= paragraph_lines(paragraphs, n) + (if paragraph_text(
        paragraph,
    ).len() > 0 {
        seq![paragraph_text(paragraph)]
    } else {
        Seq::empty()
    }));
}

/// Each part of a full text adds the lines and pictures of its paragraphs behind those before.
pub proof fn law_modules_follow_each_other(modules: Seq<Json>, module: Json, content: Json)
    requires
        member(module, "module_content"@) == Some(content),
    ensures
        ({
            let n = modules.len() as int;
            let more = modules.push(module);
            let p = list_at(content, "/paragraphs"@);
            &&& opus_lines(more, n + 1) == opus_lines(modules, n) + paragraph_lines(
                p,
                p.len() as int,
            )
            &&& opus_pictures(more, n + 1) == opus_pictures(modules, n) + paragraph_pictures(
                p,
                p.len() as int,
            )
        }),
        opus_lines(Seq::empty(), 0).len() == 0,
        opus_pictures(Seq::empty(), 0).len() == 0,
{
    let n = modules.len() as int;
    lemma_lines_prefix(modules.push(module), modules, n);
    assert(modules.push(module)[n] == module);
}

/// The text of a paragraph is that of its pieces, or else its code, its list, or its plain text.
pub proof fn law_text_of_paragraph(paragraph: Json)
    ensures
        ({
            let nodes = list_at(paragraph, "/text/nodes"@);
            let pieces = nodes_text(NodeKind::Paragraph, nodes, nodes.len() as int);
            &&& pieces.len() > 0 ==> paragraph_text(paragraph) == pieces
            &&& pieces.len() == 0 && str_at(paragraph, "/code/content"@) is Some ==> paragraph_text(
                paragraph,
            ) == str_at(paragraph, "/code/content"@)->0
            &&& pieces.len() == 0 && str_at(paragraph, "/code/content"@) is None && list_value(
                value_at(paragraph, "/list/items"@),
            ) is None && str_at(paragraph, "/text/text"@) is Some ==> paragraph_text(paragraph)
                == str_at(paragraph, "/text/text"@)->0
        }),
{
}

/// Each entry of a list in a paragraph is a line behind a dash.
pub proof fn law_entries_are_lines(items: Seq<Json>, item: Json)
    ensures
        ({
            let n = items.len() as int;
            let nodes = list_at(item, "/nodes"@);
            let text = nodes_text(NodeKind::Item, nodes, nodes.len() as int);
            &&& text.len() > 0 ==> item_lines(items.push(item), n + 1) == item_lines(items, n).push(
                "- "@ + text,
            )
            &&& text.len() == 0 ==> item_lines(items.push(item), n + 1) == item_lines(items, n)
        }),
        item_lines(Seq::empty(), 0).len() == 0,
{
    let n = items.len() as int;
    lemma_lines_prefix(items.push(item), items, n);
    assert(items.push(item)[n] == item);
}

/// A full text has its title, its lines with empty lines between them, and its pictures.
pub proof fn law_full_text(root: Json, item: Json, modules: Seq<Json>)
    requires
        value_at(root, "/data/item"@) == Some(item),
        list_value(member(item, "modules"@)) == Some(modules),
    ensures
        match opus_of(root) {
            Ok(o) => {
                let lines = opus_lines(modules, modules.len() as int);
                &&& o.text == joined(lines, "\n\n"@, lines.len() as int)
                &&& o.pictures == opus_pictures(modules, modules.len() as int)
                &&& or_blank(str_at(item, "/basic/title"@)).len() > 0 ==> Some(o.title) == str_at(
                    item,
                    "/basic/title"@,
                )
                &&& (forall|i: int|
                    0 <= i < modules.len() ==> str_at(
                        #[trigger] modules[i],
                        "/module_title/text"@,
                    ) is None) && str_at(item, "/basic/title"@) is None ==> o.title.len() == 0
            },
            Err(_) => false,
        },
{
    let base = or_blank(str_at(item, "/basic/title"@));
    lemma_title(base, modules, modules.len() as int);
}

proof fn lemma_title(base: Seq<char>, modules: Seq<Json>, n: int)
    requires
        0 <= n <= modules.len(),
    ensures
        base.len() > 0 ==> opus_title(base, modules, n) == base,
        base.len() == 0 && (forall|i: int|
            0 <= i < modules.len() ==> str_at(#[trigger] modules[i], "/module_title/text"@) is None)
            ==> opus_title(base, modules, n).len() == 0,
        forall|i: int|
            0 <= i < n && base.len() == 0 && or_blank(
                str_at(#[trigger] modules[i], "/module_title/text"@),
            ).len() > 0 && (forall|j: int|
                0 <= j < i ==> or_blank(
                    str_at(#[trigger] modules[j], "/module_title/text"@),
                ).len() == 0) ==> opus_title(base, modules, n) == str_at(
                modules[i],
                "/module_title/text"@,
            )->0,
    decreases n,
{
    if n > 0 {
        lemma_title(base, modules, n - 1);
        lemma_no_title(base, modules, n - 1);
    }
}

proof fn lemma_no_title(base: Seq<char>, modules: Seq<Json>, n: int)
    requires
        0 <= n <= modules.len(),
    ensures
        base.len() == 0 && (forall|j: int|
            0 <= j < n ==> or_blank(
                str_at(#[trigger] modules[j], "/module_title/text"@),
            ).len() == 0) ==> opus_title(base, modules, n).len() == 0,
    decreases n,
{
    if n > 0 {
        lemma_no_title(base, modules, n - 1);
    }
}

/// A full text without a title of its own has that of the first part that has one.
pub proof fn law_title_of_full_text(base: Seq<char>, modules: Seq<Json>, i: int)
    requires
        base.len() == 0,
        0 <= i < modules.len(),
        or_blank(str_at(modules[i], "/module_title/text"@)).len() > 0,
        forall|j: int|
            0 <= j < i ==> or_blank(
                str_at(#[trigger] modules[j], "/module_title/text"@),
            ).len() == 0,
    ensures
        opus_title(base, modules, modules.len() as int) == str_at(
            modules[i],
            "/module_title/text"@,
        )->0,
{
    lemma_title(base, modules, modules.len() as int);
    assert(str_at(modules[i], "/module_title/text"@) is Some);
}

/// A post has the statistics, the author and the name of its description.
pub proof fn law_post_of_bilibili(
    id: Seq<char>,
    item: Json,
    opus: Option<OpusView>,
    embedded: Option<ParsedContentView>,
    cookie: Option<Seq<char>>,
)
    ensures
        ({
            let c = dynamic_content_of(id, item, opus, embedded, cookie);
            &&& c.platform == Platform::Bilibili && c.kind == ContentKind::Post && c.id == id
            &&& c.canonical_url == "https://www.bilibili.com/opus/"@ + id
            &&& c.stats.likes == u64_at(item, "/modules/module_stat/like/count"@)
            &&& c.stats.reposts == u64_at(item, "/modules/module_stat/forward/count"@)
            &&& c.stats.replies == u64_at(item, "/modules/module_stat/comment/count"@)
            &&& c.stats.views == u64_at(item, "/modules/module_stat/view/count"@)
            &&& value_at(item, "/modules/module_author"@) is Some && member(
                value_at(item, "/modules/module_author"@)->0,
                "author"@,
            ) is None ==> {
                let author = value_at(item, "/modules/module_author"@)->0;
                &&& str_at(author, "/name"@) matches Some(name) ==> c.author.name == name
                &&& str_at(author, "/face"@) matches Some(face) ==> c.author.avatar_url == Some(
                    face,
                )
                &&& u64_at(author, "/mid"@) matches Some(n) ==> c.author.id == decimal(n as nat)
                    && c.author.url == Some("https://space.bilibili.com/"@ + decimal(n as nat))
            }
            &&& c.text == post_text(item, opus)
            &&& c.media == post_media(id, item, opus, embedded, cookie)
            &&& c.title == post_title(item, opus, embedded)
            &&& !c.sensitive && c.collection_items.len() == 0
        }),
{
}

/// A post has the title of its full text, then of its main part, then of the page that it shows.
pub proof fn law_title_of_post(
    item: Json,
    opus: Option<OpusView>,
    embedded: Option<ParsedContentView>,
)
    ensures
        opus is Some && opus->0.title.len() > 0 ==> post_title(item, opus, embedded)
            == opus->0.title,
        opus is None && or_blank(
            str_at(crate::provider::bilibili::dynamic::major_of(item), "/opus/title"@),
        ).len() > 0 ==> post_title(item, opus, embedded) == str_at(
            crate::provider::bilibili::dynamic::major_of(item),
            "/opus/title"@,
        )->0,
        embedded is Some && post_title(item, opus, None).len() == 0 ==> post_title(
            item,
            opus,
            embedded,
        ) == embedded->0.title,
        post_title(item, opus, None).len() > 0 ==> post_title(item, opus, embedded) == post_title(
            item,
            opus,
            None,
        ),
{
}

/// A post that forwards another one shows its own text, and behind it whom it forwards and what
/// that post says; a post that forwards nothing shows its own text alone.
pub proof fn law_forwarded_text(item: Json, orig: Json, opus: Option<OpusView>)
    requires
        member(item, "orig"@) == Some(orig),
        !(orig is Null),
    ensures
        ({
            let own = dynamic_text_of(dynamic_of(item));
            let said = source_text(item, opus);
            let name = dynamic_content_of(Seq::empty(), orig, None, None, None).author.name;
            let shown = if said.len() == 0 {
                "原动态已删除或不可见"@
            } else if name.len() == 0 {
                said
            } else {
                "转发自 "@ + name + "：\n"@ + said
            };
            &&& source_of(item) == orig
            &&& own.len() > 0 ==> post_text(item, opus) == own + "\n\n"@ + shown
            &&& own.len() == 0 ==> post_text(item, opus) == shown
            &&& opus is None ==> said == dynamic_text_of(dynamic_of(orig))
        }),
{
}

/// A post that forwards nothing shows its full text where it has one, and else its own text.
pub proof fn law_own_text(item: Json, opus: Option<OpusView>)
    requires
        member(item, "orig"@) is None,
        str_at(item, "/type"@) != Some("DYNAMIC_TYPE_FORWARD"@),
    ensures
        opus is Some && opus->0.text.len() > 0 ==> post_text(item, opus) == opus->0.text,
        opus is None ==> post_text(item, opus) == dynamic_text_of(dynamic_of(item)),
{
}

/// What a post shows is found by the name of the video, or else its number, or else the first
/// page that the post names, or else the number of a song, an article or a live room.
pub proof fn law_embedded_page(major: Json, archive: Json)
    requires
        member(major, "archive"@) == Some(archive),
    ensures
        str_at(archive, "/bvid"@) matches Some(bvid) ==> embedded_url_of(major, None) == Some(
            "https://www.bilibili.com/video/"@ + bvid,
        ),
        str_at(archive, "/bvid"@) is None && u64_at(archive, "/aid"@) is Some
            ==> embedded_url_of(major, None) == Some(
            "https://www.bilibili.com/video/av"@ + decimal(u64_at(archive, "/aid"@)->0 as nat),
        ),
{
}

/// A post without a video, and without a page, that names a live room, an article or a song shows
/// that one.
pub proof fn law_embedded_number(major: Json)
    requires
        member(major, "archive"@) is None,
        str_at(major, "/archive/jump_url"@) is None,
        str_at(major, "/pgc/jump_url"@) is None,
        str_at(major, "/article/jump_url"@) is None,
        str_at(major, "/music/jump_url"@) is None,
        str_at(major, "/live/jump_url"@) is None,
        str_at(major, "/common/jump_url"@) is None,
        str_at(major, "/ugc_season/jump_url"@) is None,
    ensures
        u64_at(major, "/music/id"@) matches Some(n) ==> embedded_url_of(major, None) == Some(
            "https://www.bilibili.com/audio/au"@ + decimal(n as nat),
        ),
        u64_at(major, "/music/id"@) is None && u64_at(major, "/article/id"@) is Some
            ==> embedded_url_of(major, None) == Some(
            "https://www.bilibili.com/read/cv"@ + decimal(u64_at(major, "/article/id"@)->0 as nat),
        ),
        u64_at(major, "/music/id"@) is None && u64_at(major, "/article/id"@) is None && u64_at(
            major,
            "/live/room_id"@,
        ) is Some ==> embedded_url_of(major, None) == Some(
            "https://live.bilibili.com/"@ + decimal(u64_at(major, "/live/room_id"@)->0 as nat),
        ),
{
}

/// A post and its full text are asked for by the number of the post.
pub proof fn law_post_is_asked(base: Seq<char>, id: Seq<char>)
    ensures
        post_question(base, id).url == base + "/x/polymer/web-dynamic/v1/detail"@,
        post_question(base, id).query[0] == ("id"@, id),
        opus_question(base, id).url == base + "/x/polymer/web-dynamic/v1/opus/detail"@,
        opus_question(base, id).query[0] == ("id"@, id),
{
}

/// What the server is to give of a post, and from where it is asked.
pub proof fn law_post_is_asked_whole(base: Seq<char>, id: Seq<char>)
    ensures
        post_question(base, id).query == seq![("id"@, id), ("features"@, OPUS_FEATURES@)],
        opus_question(base, id).query == seq![
            ("id"@, id),
            ("features"@, OPUS_FEATURES@),
            ("timezone_offset"@, "-480"@),
        ],
{
}

} // verus!
