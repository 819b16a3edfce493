//! Which media of a piece of content are sent, in which groups, and whether they are covered.
use vstd::prelude::*;

use crate::config::{Config, MediaSpoilerMode};
use crate::media::prepare::preview_key;
use crate::model::{
    item_views, MediaItem, MediaItemView, MediaKind, ParseOptions, ParseOptionsView, ParsedContent,
    ParsedContentView, Platform,
};
use crate::text::{cat2, cat5, decimal, number_text, same};

verus! {

/// The numbers of the photos among the first `n` media.
pub open spec fn photo_numbers(media: Seq<MediaItemView>, n: int) -> Seq<int>
    decreases n,
{
    if n <= 0 {
        Seq::empty()
    } else if media[n - 1].kind == MediaKind::Photo {
        photo_numbers(media, n - 1).push(n - 1)
    } else {
        photo_numbers(media, n - 1)
    }
}

/// The numbers of the media with a key among the first `n`.
pub open spec fn keyed_numbers(media: Seq<MediaItemView>, key: Seq<char>, n: int) -> Seq<int>
    decreases n,
{
    if n <= 0 {
        Seq::empty()
    } else if media[n - 1].cache_key == key {
        keyed_numbers(media, key, n - 1).push(n - 1)
    } else {
        keyed_numbers(media, key, n - 1)
    }
}

/// The numbers of all media.
pub open spec fn all_numbers(n: nat) -> Seq<int> {
    Seq::new(n, |i: int| i)
}

/// The media among which a page is chosen: the photos, or all where there are none.
pub open spec fn page_pool(media: Seq<MediaItemView>) -> Seq<int> {
    let photos = photo_numbers(media, media.len() as int);
    if photos.len() == 0 {
        all_numbers(media.len())
    } else {
        photos
    }
}

/// The numbers of the media that a request asks for: those of the message it answers, the first
/// photo for a cover, one page where there are several media, or all.
pub open spec fn selected_numbers(media: Seq<MediaItemView>, options: ParseOptionsView) -> Result<
    Seq<int>,
    Seq<char>,
> {
    match options.media_cache_key {
        Some(key) => {
            let found = keyed_numbers(media, key, media.len() as int);
            if found.len() == 0 {
                Err("未找到被回复消息对应的原媒体"@)
            } else {
                Ok(found)
            }
        },
        None => if options.cover_only {
            let photos = photo_numbers(media, media.len() as int);
            Ok(
                if photos.len() == 0 {
                    photos
                } else {
                    photos.take(1)
                },
            )
        } else if options.page is None || media.len() == 1 {
            Ok(all_numbers(media.len()))
        } else {
            let page = options.page->0;
            let pool = page_pool(media);
            if pool.len() == 0 {
                Err("当前内容没有可按页选择的媒体"@)
            } else if page == 0 || page > pool.len() {
                Err(
                    "指定页码 "@ + decimal(page as nat) + " 超出范围（共 "@ + decimal(pool.len())
                        + " 页）"@,
                )
            } else {
                Ok(seq![pool[page - 1]])
            }
        },
    }
}

proof fn lemma_photo_numbers(media: Seq<MediaItemView>, n: int, k: int)
    requires
        0 <= n <= media.len(),
        0 <= k < photo_numbers(media, n).len(),
    ensures
        0 <= photo_numbers(media, n)[k] < n,
        media[photo_numbers(media, n)[k]].kind == MediaKind::Photo,
        photo_numbers(media, photo_numbers(media, n)[k]).len() == k,
    decreases n,
{
    if n > 0 && k < photo_numbers(media, n - 1).len() {
        lemma_photo_numbers(media, n - 1, k);
    }
}

proof fn lemma_no_photos(media: Seq<MediaItemView>, n: int)
    requires
        0 <= n <= media.len(),
        photo_numbers(media, n).len() == 0,
    ensures
        forall|j: int| 0 <= j < n ==> (#[trigger] media[j]).kind != MediaKind::Photo,
    decreases n,
{
    if n > 0 {
        lemma_no_photos(media, n - 1);
    }
}

/// A request for the cover chooses the first photo and nothing else, or nothing where there is no
/// photo.
pub proof fn law_cover_is_first_photo(media: Seq<MediaItemView>, options: ParseOptionsView)
    requires
        options.cover_only,
        options.media_cache_key is None,
    ensures
        selected_numbers(media, options) is Ok,
        match selected_numbers(media, options) {
            Ok(chosen) => if exists|j: int|
                0 <= j < media.len() && (#[trigger] media[j]).kind == MediaKind::Photo {
                &&& chosen.len() == 1
                &&& 0 <= chosen[0] < media.len()
                &&& media[chosen[0]].kind == MediaKind::Photo
                &&& forall|j: int|
                    0 <= j < chosen[0] ==> (#[trigger] media[j]).kind != MediaKind::Photo
            } else {
                chosen.len() == 0
            },
            Err(_) => false,
        },
{
    let n = media.len() as int;
    let photos = photo_numbers(media, n);
    if photos.len() == 0 {
        lemma_no_photos(media, n);
    } else {
        lemma_photo_numbers(media, n, 0);
        lemma_no_photos(media, photos[0]);
    }
}

/// A page number chooses one medium among several: the photo behind exactly as many photos as
/// there are pages before it, or, where there is no photo, the medium with that number. A number
/// that is too large chooses nothing.
pub proof fn law_page_chooses_one(media: Seq<MediaItemView>, options: ParseOptionsView, page: u32)
    requires
        media.len() >= 2,
        options.media_cache_key is None,
        !options.cover_only,
        options.page == Some(page),
    ensures
        selected_numbers(media, options) is Ok <==> 1 <= page <= page_pool(media).len(),
        selected_numbers(media, options) matches Ok(numbers) ==> {
            let n = numbers[0];
            &&& numbers.len() == 1
            &&& 0 <= n < media.len()
            &&& if photo_numbers(media, media.len() as int).len() > 0 {
                media[n].kind == MediaKind::Photo && photo_numbers(media, n).len() == page - 1
            } else {
                n == page - 1
            }
        },
{
    let photos = photo_numbers(media, media.len() as int);
    if 1 <= page <= photos.len() {
        lemma_photo_numbers(media, media.len() as int, page - 1);
    }
}

/// A page number means nothing for content with a single medium: the medium is sent.
pub proof fn law_single_medium_has_no_pages(
    media: Seq<MediaItemView>,
    options: ParseOptionsView,
)
    requires
        media.len() == 1,
        options.media_cache_key is None,
        !options.cover_only,
    ensures
        selected_numbers(media, options) == Ok::<Seq<int>, Seq<char>>(seq![0]),
{
    assert(all_numbers(1) =~= seq![0]);
}

proof fn lemma_keyed_numbers(media: Seq<MediaItemView>, key: Seq<char>, n: int)
    requires
        0 <= n <= media.len(),
    ensures
        forall|m: int|
            #[trigger] keyed_numbers(media, key, n).contains(m) <==> 0 <= m < n && media[m].cache_key
                == key,
    decreases n,
{
    if n > 0 {
        lemma_keyed_numbers(media, key, n - 1);
        let before = keyed_numbers(media, key, n - 1);
        if media[n - 1].cache_key == key {
            assert forall|m: int| #[trigger]
                before.push(n - 1).contains(m) <==> before.contains(m) || m == n - 1 by {
                if before.contains(m) {
                    let k = choose|k: int| 0 <= k < before.len() && before[k] == m;
                    assert(before.push(n - 1)[k] == m);
                }
                assert(before.push(n - 1)[before.len() as int] == n - 1);
            }
        }
    }
}

/// A request for a medium that was sent before asks for exactly the media with its key, and
/// fails only where there is none.
pub proof fn law_key_chooses_medium(
    media: Seq<MediaItemView>,
    options: ParseOptionsView,
    key: Seq<char>,
)
    requires
        options.media_cache_key == Some(key),
    ensures
        selected_numbers(media, options) is Ok <==> exists|m: int|
            0 <= m < media.len() && (#[trigger] media[m]).cache_key == key,
        selected_numbers(media, options) matches Ok(numbers) ==> forall|m: int| #[trigger]
            numbers.contains(m) <==> 0 <= m < media.len() && media[m].cache_key == key,
{
    let found = keyed_numbers(media, key, media.len() as int);
    lemma_keyed_numbers(media, key, media.len() as int);
    if found.len() > 0 {
        assert(found.contains(found[0]));
        assert(media[found[0]].cache_key == key);
    } else {
        assert forall|m: int| 0 <= m < media.len() implies (#[trigger] media[m]).cache_key != key by {
            assert(!found.contains(m));
        }
    }
}

/// Numbers as they are counted with.
pub open spec fn as_ints(numbers: Seq<usize>) -> Seq<int> {
    Seq::new(numbers.len(), |i: int| numbers[i] as int)
}

proof fn lemma_as_ints_push(numbers: Seq<usize>, n: usize)
    ensures
        as_ints(numbers.push(n)) == as_ints(numbers).push(n as int),
{
    assert(as_ints(numbers.push(n)) =~= as_ints(numbers).push(n as int));
}

fn photos_in(media: &Vec<MediaItem>) -> (r: Vec<usize>)
    ensures
        as_ints(r@) == photo_numbers(item_views(media@), media@.len() as int),
        forall|k: int| 0 <= k < r@.len() ==> #[trigger] r@[k] < media@.len(),
{
    let ghost all = item_views(media@);
    let mut out: Vec<usize> = Vec::new();
    let mut i: usize = 0;
    assert(as_ints(out@) =~= Seq::<int>::empty());
    while i < media.len()
        invariant
            i <= media@.len(),
            all == item_views(media@),
            as_ints(out@) == photo_numbers(all, i as int),
            forall|k: int| 0 <= k < out@.len() ==> #[trigger] out@[k] < media@.len(),
        decreases media.len() - i,
    {
        assert(all[i as int] == media@[i as int]@);
        if media[i].kind == MediaKind::Photo {
            proof {
                lemma_as_ints_push(out@, i);
            }
            out.push(i);
        }
        i += 1;
    }
    out
}

fn keyed_in(media: &Vec<MediaItem>, key: &str) -> (r: Vec<usize>)
    ensures
        as_ints(r@) == keyed_numbers(item_views(media@), key@, media@.len() as int),
        forall|k: int| 0 <= k < r@.len() ==> #[trigger] r@[k] < media@.len(),
{
    let ghost all = item_views(media@);
    let mut out: Vec<usize> = Vec::new();
    let mut i: usize = 0;
    assert(as_ints(out@) =~= Seq::<int>::empty());
    while i < media.len()
        invariant
            i <= media@.len(),
            all == item_views(media@),
            as_ints(out@) == keyed_numbers(all, key@, i as int),
            forall|k: int| 0 <= k < out@.len() ==> #[trigger] out@[k] < media@.len(),
        decreases media.len() - i,
    {
        assert(all[i as int] == media@[i as int]@);
        if same(media[i].cache_key.as_str(), key) {
            proof {
                lemma_as_ints_push(out@, i);
            }
            out.push(i);
        }
        i += 1;
    }
    out
}

fn all_in(count: usize) -> (r: Vec<usize>)
    ensures
        as_ints(r@) == all_numbers(count as nat),
        forall|k: int| 0 <= k < r@.len() ==> #[trigger] r@[k] < count,
{
    let mut out: Vec<usize> = Vec::new();
    let mut i: usize = 0;
    while i < count
        invariant
            i <= count,
            out@.len() == i,
            forall|k: int| 0 <= k < i ==> #[trigger] out@[k] == k,
        decreases count - i,
    {
        out.push(i);
        i += 1;
    }
    assert(as_ints(out@) =~= all_numbers(count as nat));
    out
}

/// The numbers of the media that a request asks for.
pub fn select_numbers(content: &ParsedContent, options: &ParseOptions) -> (r: Result<
    Vec<usize>,
    String,
>)
    ensures
        match r {
            Ok(numbers) => selected_numbers(content@.media, options@) == Ok::<
                Seq<int>,
                Seq<char>,
            >(as_ints(numbers@)) && forall|k: int|
                0 <= k < numbers@.len() ==> #[trigger] numbers@[k] < content.media@.len(),
            Err(message) => selected_numbers(content@.media, options@) == Err::<
                Seq<int>,
                Seq<char>,
            >(message@),
        },
{
    let media = &content.media;
    assert(content@.media.len() == media@.len());
    match &options.media_cache_key {
        Some(key) => {
            let found = keyed_in(media, key.as_str());
            assert(as_ints(found@).len() == found@.len());
            if found.len() == 0 {
                return Err("未找到被回复消息对应的原媒体".to_owned());
            }
            return Ok(found);
        },
        None => {},
    }
    if options.cover_only {
        let mut photos = photos_in(media);
        assert(as_ints(photos@).len() == photos@.len());
        if photos.len() > 0 {
            let ghost before = photos@;
            photos.truncate(1);
            assert(as_ints(photos@) =~= as_ints(before).take(1));
            assert(photos@[0] == before[0]);
        }
        return Ok(photos);
    }
    let page: u32 = match options.page {
        Some(page) => page,
        None => {
            return Ok(all_in(media.len()));
        },
    };
    if media.len() == 1 {
        return Ok(all_in(media.len()));
    }
    let photos = photos_in(media);
    assert(as_ints(photos@).len() == photos@.len());
    let pool = if photos.len() == 0 {
        all_in(media.len())
    } else {
        photos
    };
    assert(as_ints(pool@) == page_pool(content@.media));
    assert(as_ints(pool@).len() == pool@.len());
    if pool.len() == 0 {
        return Err("当前内容没有可按页选择的媒体".to_owned());
    }
    if page == 0 || page as u64 > pool.len() as u64 {
        return Err(
            cat5(
                "指定页码 ",
                number_text(page as u64).as_str(),
                " 超出范围（共 ",
                number_text(pool.len() as u64).as_str(),
                " 页）",
            ),
        );
    }
    let chosen: usize = pool[page as usize - 1];
    let mut out: Vec<usize> = Vec::new();
    out.push(chosen);
    assert(as_ints(out@) =~= seq![as_ints(pool@)[page - 1]]);
    Ok(out)
}

/// The media that a request asks for.
pub fn select_media_items<'a>(content: &'a ParsedContent, options: &ParseOptions) -> (r: Result<
    Vec<&'a MediaItem>,
    String,
>)
    ensures
        match r {
            Ok(items) => {
                &&& selected_numbers(content@.media, options@) is Ok
                &&& items@.len() == (selected_numbers(content@.media, options@)->Ok_0).len()
                &&& forall|k: int|
                    0 <= k < items@.len() ==> (#[trigger] items@[k])@ == content@.media[(
                    selected_numbers(content@.media, options@)->Ok_0)[k]]
            },
            Err(message) => selected_numbers(content@.media, options@) == Err::<
                Seq<int>,
                Seq<char>,
            >(message@),
        },
{
    let numbers = match select_numbers(content, options) {
        Ok(numbers) => numbers,
        Err(message) => {
            return Err(message);
        },
    };
    let ghost chosen = as_ints(numbers@);
    let mut out: Vec<&'a MediaItem> = Vec::new();
    let mut i: usize = 0;
    while i < numbers.len()
        invariant
            i <= numbers@.len(),
            out@.len() == i,
            chosen == as_ints(numbers@),
            forall|k: int| 0 <= k < numbers@.len() ==> #[trigger] numbers@[k] < content.media@.len(),
            forall|k: int| 0 <= k < i ==> (#[trigger] out@[k])@ == content@.media[chosen[k]],
        decreases numbers.len() - i,
    {
        let n: usize = numbers[i];
        assert(content@.media[chosen[i as int]] == content.media@[n as int]@);
        out.push(&content.media[n]);
        i += 1;
    }
    Ok(out)
}

/// How many groups a number of media makes: of at most ten each.
pub open spec fn group_count(total: int) -> int {
    (total + 9) / 10
}

/// How many media a group has: all groups are as equal as they can be.
pub open spec fn group_size(total: int, index: int) -> int {
    let groups = group_count(total);
    total / groups + (if index < total % groups {
        1int
    } else {
        0int
    })
}

/// How many media the first `n` groups have.
pub open spec fn grouped_media(total: int, n: int) -> int
    decreases n,
{
    if n <= 0 {
        0
    } else {
        grouped_media(total, n - 1) + group_size(total, n - 1)
    }
}

proof fn lemma_grouped_media(total: int, n: int)
    requires
        total > 0,
        0 <= n <= group_count(total),
    ensures
        grouped_media(total, n) == n * (total / group_count(total)) + (if n <= total % group_count(
            total,
        ) {
            n
        } else {
            total % group_count(total)
        }),
    decreases n,
{
    let base = total / group_count(total);
    if n > 0 {
        lemma_grouped_media(total, n - 1);
        assert((n - 1) * base + base == n * base) by (nonlinear_arith);
    } else {
        assert(0 * base == 0) by (nonlinear_arith);
    }
}

/// The groups together hold all media, and with two media or more every group has two to ten of
/// them: no group of one is left over.
pub proof fn law_groups(total: int)
    requires
        total > 0,
    ensures
        grouped_media(total, group_count(total)) == total,
        forall|i: int|
            0 <= i < group_count(total) ==> 1 <= #[trigger] group_size(total, i) <= 10 && (total >= 2
                ==> group_size(total, i) >= 2),
{
    let g = group_count(total);
    let base = total / g;
    let extra = total % g;
    lemma_grouped_media(total, g);
    assert(g * base + extra == total) by (nonlinear_arith)
        requires
            base == total / g,
            extra == total % g,
            g > 0,
    ;
    assert(0 <= extra < g) by (nonlinear_arith)
        requires
            extra == total % g,
            g > 0,
    ;
    assert(10 * g - 9 <= total <= 10 * g);
    assert(base <= 10 && (base == 10 ==> extra == 0)) by (nonlinear_arith)
        requires
            g * base + extra == total,
            0 <= extra < g,
            total <= 10 * g,
            g > 0,
    ;
    if g == 1 {
        assert(base == total) by (nonlinear_arith)
            requires
                g * base + extra == total,
                0 <= extra < g,
                g == 1,
        ;
    } else {
        assert(base >= 2) by (nonlinear_arith)
            requires
                g * base + extra == total,
                0 <= extra < g,
                10 * g - 9 <= total,
                g >= 2,
        ;
    }
}

/// The sizes of the groups in which a number of media is sent.
pub fn media_group_sizes(total: usize) -> (r: Vec<usize>)
    ensures
        total == 0 ==> r@.len() == 0,
        total > 0 ==> r@.len() == group_count(total as int) && forall|i: int|
            0 <= i < r@.len() ==> #[trigger] r@[i] == group_size(total as int, i),
{
    let mut out: Vec<usize> = Vec::new();
    if total == 0 {
        return out;
    }
    let groups: usize = (total - 1) / 10 + 1;
    assert(groups == group_count(total as int));
    let base: usize = total / groups;
    let extra: usize = total % groups;
    proof {
        law_groups(total as int);
    }
    let mut i: usize = 0;
    while i < groups
        invariant
            i <= groups,
            groups == group_count(total as int),
            groups > 0,
            base == total / groups,
            extra == total % groups,
            out@.len() == i,
            forall|k: int| 0 <= k < groups ==> #[trigger] group_size(total as int, k) <= 10,
            forall|k: int| 0 <= k < i ==> #[trigger] out@[k] == group_size(total as int, k),
        decreases groups - i,
    {
        assert(group_size(total as int, i as int) <= 10);
        out.push(
            if i < extra {
                base + 1
            } else {
                base
            },
        );
        i += 1;
    }
    out
}

/// Whether a medium is seen.
pub open spec fn is_visual(kind: MediaKind) -> bool {
    kind == MediaKind::Photo || kind == MediaKind::Video || kind == MediaKind::Animation
}

/// Whether any medium is seen.
pub open spec fn shows_media(media: Seq<MediaItemView>) -> bool {
    exists|i: int| 0 <= i < media.len() && is_visual((#[trigger] media[i]).kind)
}

pub fn has_visual_media(content: &ParsedContent) -> (r: bool)
    ensures
        r == shows_media(content@.media),
{
    let media = &content.media;
    let ghost all = content@.media;
    let mut i: usize = 0;
    while i < media.len()
        invariant
            i <= media@.len(),
            all == item_views(media@),
            all == content@.media,
            forall|k: int| 0 <= k < i ==> !is_visual((#[trigger] all[k]).kind),
        decreases media.len() - i,
    {
        assert(all[i as int] == media@[i as int]@);
        let kind = media[i].kind;
        if kind == MediaKind::Photo || kind == MediaKind::Video || kind == MediaKind::Animation {
            return true;
        }
        i += 1;
    }
    false
}

/// Whether the settings cover the media of a piece of content.
pub open spec fn spoiler_by_setting(mode: MediaSpoilerMode, c: ParsedContentView) -> bool {
    shows_media(c.media) && match mode {
        MediaSpoilerMode::Always => true,
        MediaSpoilerMode::Off => false,
        MediaSpoilerMode::Auto => c.sensitive && (c.platform == Platform::X || c.platform
            == Platform::Pixiv),
    }
}

pub fn media_has_spoiler(config: &Config, content: &ParsedContent) -> (r: bool)
    ensures
        r == spoiler_by_setting(config.media_spoiler_mode, content@),
{
    if !has_visual_media(content) {
        return false;
    }
    match config.media_spoiler_mode {
        MediaSpoilerMode::Always => true,
        MediaSpoilerMode::Off => false,
        MediaSpoilerMode::Auto => content.sensitive && (content.platform == Platform::X
            || content.platform == Platform::Pixiv),
    }
}

/// Whether the media of a piece of content are covered: by the settings, or as the request asks.
pub open spec fn spoiler_of(mode: MediaSpoilerMode, c: ParsedContentView, forced: bool) -> bool {
    spoiler_by_setting(mode, c) || (forced && shows_media(c.media))
}

/// A covering mark always covers what is seen, and so does the setting to cover everything;
/// without a mark the setting not to cover covers nothing, and otherwise only what X or Pixiv
/// mark as sensitive is covered. What is only heard is never covered.
pub proof fn law_spoiler_modes(mode: MediaSpoilerMode, c: ParsedContentView, forced: bool)
    ensures
        spoiler_of(mode, c, true) <==> shows_media(c.media),
        spoiler_of(MediaSpoilerMode::Always, c, forced) <==> shows_media(c.media),
        !spoiler_of(MediaSpoilerMode::Off, c, false),
        spoiler_of(MediaSpoilerMode::Auto, c, false) <==> shows_media(c.media) && c.sensitive && (
        c.platform == Platform::X || c.platform == Platform::Pixiv),
{
}

/// Whether the media of a piece of content are covered.
pub fn spoiler(config: &Config, content: &ParsedContent, options: &ParseOptions) -> (r: bool)
    ensures
        r == spoiler_of(config.media_spoiler_mode, content@, options.force_spoiler),
{
    media_has_spoiler(config, content) || (options.force_spoiler && has_visual_media(content))
}

/// The name under which the files of a kind are stored.
pub open spec fn kind_word(kind: MediaKind) -> Seq<char> {
    match kind {
        MediaKind::Photo => "photo"@,
        MediaKind::Video => "video"@,
        MediaKind::Audio => "audio"@,
        MediaKind::Animation => "animation"@,
        MediaKind::Document => "document"@,
    }
}

pub fn kind_name(kind: MediaKind) -> (r: &'static str)
    ensures
        r@ == kind_word(kind),
{
    match kind {
        MediaKind::Photo => "photo",
        MediaKind::Video => "video",
        MediaKind::Audio => "audio",
        MediaKind::Animation => "animation",
        MediaKind::Document => "document",
    }
}

/// The key under which the file of a medium is stored.
pub open spec fn stored_key(item: MediaItemView) -> Seq<char> {
    if item.kind == MediaKind::Video {
        item.cache_key + ":telegram-video-v2"@
    } else {
        item.cache_key
    }
}

pub fn telegram_cache_key(item: &MediaItem) -> (r: String)
    ensures
        r@ == stored_key(item@),
{
    if item.kind == MediaKind::Video {
        cat2(item.cache_key.as_str(), ":telegram-video-v2")
    } else {
        item.cache_key.clone()
    }
}

/// Whether the media are sent as files. A file cannot be covered: media that are to be covered
/// are sent as what they are, also where files are asked for.
pub open spec fn sent_as_file(file_mode: bool, covered: bool) -> bool {
    file_mode && !covered
}

/// The key and the kind under which a file that was sent before is stored.
pub type StoredFile = (Seq<char>, MediaKind);

/// Where the file of a medium is looked for, in order: as it is to be sent, and, for a photo, as
/// its preview, and then as the file that it may have been sent as.
pub open spec fn lookups_of(item: MediaItemView, file_mode: bool, covered: bool) -> Seq<
    StoredFile,
> {
    let key = stored_key(item);
    if sent_as_file(file_mode, covered) {
        seq![(key, MediaKind::Document)]
    } else if item.kind == MediaKind::Photo {
        let photos = seq![(key, MediaKind::Photo), (preview_key(item.cache_key), MediaKind::Photo)];
        if covered {
            photos
        } else {
            photos.push((key, MediaKind::Document))
        }
    } else {
        seq![(key, item.kind)]
    }
}

/// A medium that is to be covered is never taken from a file that cannot be covered, and one that
/// is asked for as a file is never taken from anything else.
pub proof fn law_lookups(item: MediaItemView, file_mode: bool, covered: bool, i: int)
    requires
        0 <= i < lookups_of(item, file_mode, covered).len(),
    ensures
        covered && is_visual(item.kind) ==> lookups_of(item, file_mode, covered)[i].1
            != MediaKind::Document,
        sent_as_file(file_mode, covered) ==> lookups_of(item, file_mode, covered)[i].1
            == MediaKind::Document,
{
}

/// Where a file that was sent before is stored.
#[derive(Debug, Clone)]
pub struct FileLookup {
    pub key: String,
    pub kind: MediaKind,
}

impl View for FileLookup {
    type V = StoredFile;

    open spec fn view(&self) -> StoredFile {
        (self.key@, self.kind)
    }
}

/// The lookups of a list as plain values.
pub open spec fn lookup_views(all: Seq<FileLookup>) -> Seq<StoredFile> {
    Seq::new(all.len(), |i: int| all[i]@)
}

/// Where the file of a medium is looked for, in order.
pub fn file_lookups(item: &MediaItem, file_mode: bool, covered: bool) -> (r: Vec<FileLookup>)
    ensures
        lookup_views(r@) == lookups_of(item@, file_mode, covered),
{
    let key = telegram_cache_key(item);
    let mut out: Vec<FileLookup> = Vec::new();
    if file_mode && !covered {
        out.push(FileLookup { key, kind: MediaKind::Document });
    } else if item.kind == MediaKind::Photo {
        out.push(FileLookup { key: key.clone(), kind: MediaKind::Photo });
        let preview = cat2(item.cache_key.as_str(), ":telegram-photo-preview-v1");
        out.push(FileLookup { key: preview, kind: MediaKind::Photo });
        if !covered {
            out.push(FileLookup { key, kind: MediaKind::Document });
        }
    } else {
        out.push(FileLookup { key, kind: item.kind });
    }
    assert(lookup_views(out@) =~= lookups_of(item@, file_mode, covered));
    out
}

/// What a chat shows while something is sent.
#[derive(Debug, Clone, Copy, PartialEq, Eq, Structural)]
pub enum ChatAction {
    Typing,
    UploadPhoto,
    UploadVideo,
    UploadDocument,
    UploadVoice,
}

/// The number of an action.
pub open spec fn code_of(action: ChatAction) -> u8 {
    match action {
        ChatAction::Typing => 0,
        ChatAction::UploadPhoto => 1,
        ChatAction::UploadVideo => 2,
        ChatAction::UploadDocument => 3,
        ChatAction::UploadVoice => 4,
    }
}

/// The action with a number; typing where the number is none of an action.
pub open spec fn action_of(code: u8) -> ChatAction {
    if code == 1 {
        ChatAction::UploadPhoto
    } else if code == 2 {
        ChatAction::UploadVideo
    } else if code == 3 {
        ChatAction::UploadDocument
    } else if code == 4 {
        ChatAction::UploadVoice
    } else {
        ChatAction::Typing
    }
}

/// An action is read back from its number.
pub proof fn law_action_code(action: ChatAction)
    ensures
        action_of(code_of(action)) == action,
{
}

pub fn action_code(action: ChatAction) -> (r: u8)
    ensures
        r == code_of(action),
{
    match action {
        ChatAction::Typing => 0,
        ChatAction::UploadPhoto => 1,
        ChatAction::UploadVideo => 2,
        ChatAction::UploadDocument => 3,
        ChatAction::UploadVoice => 4,
    }
}

pub fn action_from_code(code: u8) -> (r: ChatAction)
    ensures
        r == action_of(code),
{
    match code {
        1 => ChatAction::UploadPhoto,
        2 => ChatAction::UploadVideo,
        3 => ChatAction::UploadDocument,
        4 => ChatAction::UploadVoice,
        _ => ChatAction::Typing,
    }
}

/// What a chat shows while media are sent, by the first of them.
pub open spec fn content_action(media: Seq<MediaItemView>) -> ChatAction {
    if media.len() == 0 {
        ChatAction::Typing
    } else {
        match media[0].kind {
            MediaKind::Video | MediaKind::Animation => ChatAction::UploadVideo,
            MediaKind::Photo => ChatAction::UploadPhoto,
            MediaKind::Audio => ChatAction::UploadVoice,
            MediaKind::Document => ChatAction::UploadDocument,
        }
    }
}

pub fn chat_action_for_content(content: &ParsedContent) -> (r: ChatAction)
    ensures
        r == content_action(content@.media),
{
    assert(content@.media.len() == content.media@.len());
    if content.media.len() == 0 {
        return ChatAction::Typing;
    }
    assert(content@.media[0] == content.media@[0]@);
    match content.media[0].kind {
        MediaKind::Video | MediaKind::Animation => ChatAction::UploadVideo,
        MediaKind::Photo => ChatAction::UploadPhoto,
        MediaKind::Audio => ChatAction::UploadVoice,
        MediaKind::Document => ChatAction::UploadDocument,
    }
}

} // verus!
