//! Sending: which media, in which form.
use vstd::prelude::*;

use crate::media::prepare::preview_key;
use crate::media::{error_message, permanent, PrepareErrorView};
use crate::model::{MediaItemView, MediaKind, ParseOptionsView, ParsedContentView};
use crate::outside::url_parts;
use crate::telegram::captions::caption_of;
use crate::telegram::select::{
    all_numbers, content_action, group_count, group_size, keyed_numbers, kind_word, lookups_of,
    photo_numbers, selected_numbers, stored_key, ChatAction,
};
use crate::telegram::send::{
    after_answer_of, after_failure_of, cover_steps_of, delivered_as, fallback_of, file_of,
    first_alike, first_thumbnail, first_with_key, fits_group, inline_answer_of, input_of, narrowed,
    send_form, short_number, singles, AfterFailureView, CoverStepView, FallbackView, InlineFormView,
    ItemInputView, SendFormView, SentMessage,
};

use crate::text::decimal;

use super::{in_order, lemma_in_order_all, lemma_in_order_push};

verus! {

/// The photos among media are found by their numbers, all of them, in order.
pub proof fn law_photos_are_found(media: Seq<MediaItemView>, n: int)
    requires
        0 <= n <= media.len(),
    ensures
        in_order(photo_numbers(media, n), n),
        forall|k: int|
            0 <= k < photo_numbers(media, n).len() ==> media[#[trigger] photo_numbers(media, n)[k]].kind
                == MediaKind::Photo,
        forall|k: int|
            0 <= k < n && (#[trigger] media[k]).kind == MediaKind::Photo ==> photo_numbers(
                media,
                n,
            ).contains(k),
    decreases n,
{
    if n > 0 {
        law_photos_are_found(media, n - 1);
        let before = photo_numbers(media, n - 1);
        let now = photo_numbers(media, n);
        lemma_in_order_push(before, n - 1);
        assert forall|k: int|
            0 <= k < n && (#[trigger] media[k]).kind == MediaKind::Photo implies now.contains(k) by {
            if k < n - 1 {
                assert(before.contains(k));
                let q = choose|q: int| 0 <= q < before.len() && before[q] == k;
                assert(now[q] == k);
            } else {
                assert(now[now.len() - 1] == k);
            }
        }
    }
}

/// Without a page, a cover or a key every medium is sent, in order.
pub proof fn law_all_media_are_sent(media: Seq<MediaItemView>, options: ParseOptionsView)
    requires
        options.page is None,
        !options.cover_only,
        options.media_cache_key is None,
    ensures
        selected_numbers(media, options) matches Ok(numbers) && numbers.len() == media.len()
            && forall|i: int| 0 <= i < media.len() ==> #[trigger] numbers[i] == i,
{
}

/// Among photos alone, page number `p` is photo number `p`, counted from one.
pub proof fn law_page_of_photos(media: Seq<MediaItemView>, options: ParseOptionsView, page: u32)
    requires
        media.len() >= 2,
        forall|i: int| 0 <= i < media.len() ==> (#[trigger] media[i]).kind == MediaKind::Photo,
        options.page == Some(page),
        !options.cover_only,
        options.media_cache_key is None,
        1 <= page <= media.len(),
    ensures
        selected_numbers(media, options) == Ok::<Seq<int>, Seq<char>>(seq![page - 1]),
{
    let n = media.len() as int;
    law_photos_are_found(media, n);
    assert forall|k: int| 0 <= k < n implies photo_numbers(media, n).contains(k) by {
        assert(media[k].kind == MediaKind::Photo);
    }
    lemma_in_order_all(photo_numbers(media, n), n);
}

/// As few groups are made as possible, and their sizes differ by one at most, the larger first.
pub proof fn law_groups_are_even(total: int, i: int, j: int)
    requires
        total > 0,
        0 <= i < j < group_count(total),
    ensures
        group_size(total, j) <= group_size(total, i) <= group_size(total, j) + 1,
        10 * (group_count(total) - 1) < total <= 10 * group_count(total),
{
}

/// Media that are sent one by one all are, in order, and the caption goes with the first.
pub proof fn law_one_by_one(selected: Seq<int>, i: int)
    requires
        0 <= i < selected.len(),
    ensures
        singles(selected).len() == selected.len(),
        singles(selected)[i].0 == selected[i],
        singles(selected)[i].1 <==> i == 0,
{
}

/// Whether a medium can be in a group: a video, or a photo that Telegram takes as one: no edge
/// together above ten thousand, and not more than twenty times as long as wide.
pub open spec fn can_be_grouped(item: MediaItemView) -> bool {
    item.kind == MediaKind::Video || (item.kind == MediaKind::Photo && item.width is Some
        && item.height is Some && item.width->0 > 0 && item.height->0 > 0 && item.width->0
        + item.height->0 <= 10000 && item.width->0 <= 20 * item.height->0 && item.height->0 <= 20
        * item.width->0)
}

/// In which form content is sent: a text without media; groups where several media can all be in
/// groups and no files are asked for; one by one otherwise.
pub proof fn law_form(c: ParsedContentView, options: ParseOptionsView)
    requires
        options.page is None,
        !options.cover_only,
        options.media_cache_key is None,
    ensures
        c.media.len() == 0 ==> send_form(c, options) == Ok::<SendFormView, Seq<char>>(
            SendFormView::Text(caption_of(c, 4096)),
        ),
        c.media.len() == 1 ==> (send_form(c, options) matches Ok(SendFormView::Singles(items))
            && items =~= seq![(0int, true)]),
        c.media.len() > 1 && !options.file_mode && (forall|i: int|
            0 <= i < c.media.len() ==> can_be_grouped(#[trigger] c.media[i])) ==> (send_form(
            c,
            options,
        ) matches Ok(SendFormView::Album(_))),
        c.media.len() > 1 && (options.file_mode || exists|i: int|
            0 <= i < c.media.len() && !can_be_grouped(#[trigger] c.media[i])) ==> (send_form(
            c,
            options,
        ) matches Ok(SendFormView::Singles(items)) && items.len() == c.media.len()),
{
    let selected = all_numbers(c.media.len());
    assert forall|i: int| 0 <= i < c.media.len() implies fits_group(#[trigger] c.media[i])
        == can_be_grouped(c.media[i]) by {
        lemma_grouped(c.media[i]);
    }
    assert forall|i: int| 0 <= i < selected.len() implies #[trigger] selected[i] == i by {}
    if exists|i: int| 0 <= i < c.media.len() && !can_be_grouped(#[trigger] c.media[i]) {
        let i = choose|i: int| 0 <= i < c.media.len() && !can_be_grouped(#[trigger] c.media[i]);
        assert(!fits_group(c.media[selected[i]]));
    }
    if c.media.len() == 1 {
        assert(singles(selected) =~= seq![(0int, true)]);
    }
}

proof fn lemma_grouped(item: MediaItemView)
    ensures
        fits_group(item) == can_be_grouped(item),
{
}

/// The smaller picture that stands for media is the first that any of them has.
pub proof fn law_first_thumbnail(media: Seq<MediaItemView>, from: int, i: int)
    requires
        0 <= from <= i < media.len(),
        media[i].thumbnail_url is Some,
        forall|j: int| from <= j < i ==> (#[trigger] media[j]).thumbnail_url is None,
    ensures
        first_thumbnail(media, from) == media[i].thumbnail_url,
    decreases i - from,
{
    if from < i {
        assert(media[from].thumbnail_url is None);
        law_first_thumbnail(media, from + 1, i);
    }
}

/// A medium in a group is the stored file of its kind, or else its address where Telegram can
/// fetch it, or else a file that is prepared.
pub proof fn law_source_of_grouped(item: MediaItemView, kind: MediaKind, id: Seq<char>)
    ensures
        kind == item.kind ==> input_of(item, Some((kind, id))) == ItemInputView::Stored(id),
        kind != item.kind ==> input_of(item, Some((kind, id))) == input_of(item, None),
        !item.requires_download && item.headers.len() == 0 ==> input_of(item, None)
            == ItemInputView::Address(item.source_url),
        item.requires_download || item.headers.len() > 0 ==> input_of(item, None)
            == ItemInputView::Prepared,
{
}

/// A file is sent as what it is, and as a document where files are asked for and nothing is to be
/// covered.
pub proof fn law_delivery(kind: MediaKind, file_mode: bool, covered: bool)
    ensures
        file_mode && !covered ==> delivered_as(kind, file_mode, covered) == MediaKind::Document,
        !file_mode || covered ==> delivered_as(kind, file_mode, covered) == kind,
{
}

/// Stored files are looked for under the key of the medium: as documents where files are asked
/// for; photos as photos, then as their previews, and as documents at last; everything else as
/// what it is.
pub proof fn law_where_files_are_looked_for(item: MediaItemView, file_mode: bool, covered: bool)
    ensures
        ({
            let key = if item.kind == MediaKind::Video {
                item.cache_key + ":telegram-video-v2"@
            } else {
                item.cache_key
            };
            let all = lookups_of(item, file_mode, covered);
            &&& stored_key(item) == key
            &&& all.len() > 0
            &&& file_mode && !covered ==> all =~= seq![(key, MediaKind::Document)]
            &&& (!file_mode || covered) ==> all[0] == (key, item.kind)
            &&& (!file_mode || covered) && item.kind == MediaKind::Photo ==> all[1] == (
                item.cache_key + ":telegram-photo-preview-v1"@,
                MediaKind::Photo,
            )
            &&& !file_mode && !covered && item.kind == MediaKind::Photo ==> all.len() == 3 && all[2]
                == (key, MediaKind::Document)
            &&& covered && item.kind == MediaKind::Photo ==> all.len() == 2
            &&& (!file_mode || covered) && item.kind != MediaKind::Photo ==> all.len() == 1
        }),
{
}

/// Kinds of media are stored under words of their own.
pub proof fn law_kind_words(a: MediaKind, b: MediaKind)
    ensures
        a != b ==> kind_word(a) != kind_word(b),
        kind_word(MediaKind::Photo) == "photo"@,
        kind_word(MediaKind::Video) == "video"@,
        kind_word(MediaKind::Audio) == "audio"@,
        kind_word(MediaKind::Animation) == "animation"@,
        kind_word(MediaKind::Document) == "document"@,
{
    reveal_strlit("photo");
    reveal_strlit("video");
    reveal_strlit("audio");
    reveal_strlit("animation");
    reveal_strlit("document");
    assert("photo"@[0] == 'p' && "video"@[0] == 'v' && "audio"@[0] == 'a' && "document"@[0] == 'd');
    assert("audio"@.len() == 5 && "animation"@.len() == 9);
}

/// While content is sent, the chat shows what its first medium is.
pub proof fn law_action_shown(media: Seq<MediaItemView>)
    ensures
        media.len() == 0 ==> content_action(media) == ChatAction::Typing,
        media.len() > 0 && media[0].kind == MediaKind::Photo ==> content_action(media)
            == ChatAction::UploadPhoto,
        media.len() > 0 && (media[0].kind == MediaKind::Video || media[0].kind
            == MediaKind::Animation) ==> content_action(media) == ChatAction::UploadVideo,
        media.len() > 0 && media[0].kind == MediaKind::Audio ==> content_action(media)
            == ChatAction::UploadVoice,
        media.len() > 0 && media[0].kind == MediaKind::Document ==> content_action(media)
            == ChatAction::UploadDocument,
{
}

/// The small picture of a prepared video is a frame of it, or else the picture at its address;
/// that of music is the picture at its address.
pub proof fn law_small_picture(item: MediaItemView, prepared: bool)
    ensures
        ({
            let steps = cover_steps_of(item, prepared);
            &&& item.kind == MediaKind::Video && prepared ==> steps.len() > 0 && steps[0]
                == CoverStepView::Frame
            &&& item.kind == MediaKind::Video && prepared && item.thumbnail_url is Some
                ==> steps.len() == 2 && steps[1] == CoverStepView::Remote(item.thumbnail_url->0)
            &&& item.kind == MediaKind::Audio && item.thumbnail_url is Some ==> steps =~= seq![
                CoverStepView::Remote(item.thumbnail_url->0),
            ]
            &&& item.kind != MediaKind::Video && item.kind != MediaKind::Audio ==> steps.len() == 0
        }),
{
}

/// A medium that cannot be prepared is replaced by its smaller picture, or else by the caption,
/// where the caption would have gone with it, and is left out otherwise.
pub proof fn law_fallback(item: MediaItemView)
    ensures
        fallback_of(item, false) == FallbackView::Skip,
        item.thumbnail_url matches Some(url) ==> fallback_of(item, true) == FallbackView::Cover(url),
        item.thumbnail_url is None ==> fallback_of(item, true) == FallbackView::Text,
{
}

/// A failure that other addresses cannot mend ends the sending; any other asks again.
pub proof fn law_after_failure(error: PrepareErrorView)
    ensures
        permanent(error) ==> after_failure_of(error) == AfterFailureView::GiveUp(error),
        !permanent(error) ==> after_failure_of(error) == AfterFailureView::AskAgain(
            error_message(error),
        ),
{
}

proof fn lemma_with_key(media: Seq<MediaItemView>, item: MediaItemView, i: int)
    requires
        0 <= i <= media.len(),
    ensures
        match first_with_key(media, item, i) {
            Some(k) => i <= k < media.len() && media[k].cache_key == item.cache_key && forall|j: int|
                i <= j < k ==> (#[trigger] media[j]).cache_key != item.cache_key,
            None => forall|j: int|
                i <= j < media.len() ==> (#[trigger] media[j]).cache_key != item.cache_key,
        },
        match first_alike(media, item, i) {
            Some(k) => i <= k < media.len() && media[k].kind == item.kind && media[k].filename
                == item.filename && forall|j: int|
                i <= j < k ==> (#[trigger] media[j]).kind != item.kind || media[j].filename
                    != item.filename,
            None => forall|j: int|
                i <= j < media.len() ==> (#[trigger] media[j]).kind != item.kind || media[j].filename
                    != item.filename,
        },
    decreases media.len() - i,
{
    if i < media.len() {
        lemma_with_key(media, item, i + 1);
    }
}

/// In a fresh answer a medium is found by its key, the first that has it, or else by its kind and
/// file name; it is missed only where no medium has either.
pub proof fn law_medium_is_found_again(
    c: ParsedContentView,
    item: MediaItemView,
    initial: Seq<char>,
    i: int,
)
    ensures
        match after_answer_of(Ok(c), item, initial) {
            Ok(k) => 0 <= k < c.media.len() && (c.media[k].cache_key == item.cache_key || (
            c.media[k].kind == item.kind && c.media[k].filename == item.filename)) && (0 <= i
                < c.media.len() && c.media[i].cache_key == item.cache_key ==> c.media[k].cache_key
                == item.cache_key && k <= i),
            Err(_) => 0 <= i < c.media.len() ==> c.media[i].cache_key != item.cache_key && (
            c.media[i].kind != item.kind || c.media[i].filename != item.filename),
        },
{
    lemma_with_key(c.media, item, 0);
}

/// The file of a message that was sent is its largest photo, or else its video, its music, its
/// animation or its document.
pub proof fn law_file_of_message(message: SentMessage)
    ensures
        message.photos@.len() > 0 ==> file_of(message) == Some(
            (MediaKind::Photo, message.photos@[message.photos@.len() - 1]),
        ),
        message.photos@.len() == 0 ==> match (message.video, message.audio) {
            (Some(file), _) => file_of(message) == Some((MediaKind::Video, file)),
            (None, Some(file)) => file_of(message) == Some((MediaKind::Audio, file)),
            (None, None) => match (message.animation, message.document) {
                (Some(file), _) => file_of(message) == Some((MediaKind::Animation, file)),
                (None, Some(file)) => file_of(message) == Some((MediaKind::Document, file)),
                (None, None) => file_of(message) is None,
            },
        },
{
}

/// Numbers that do not fit into what Telegram takes are left out, and others stay as they are.
pub proof fn law_short_numbers(n: u64)
    ensures
        n <= 65535 ==> short_number(Some(n)) == Some(n as u16) && (n as u16) as u64 == n,
        n > 65535 ==> short_number(Some(n)) is None,
        short_number(None) is None,
{
}

/// An inline answer is named by the title of the content, or its platform and author, and shows
/// its first medium: the stored file, or its address.
pub proof fn law_inline_answer(c: ParsedContentView, found: Option<(MediaKind, Seq<char>)>)
    ensures
        ({
            let a = inline_answer_of(c, false, found);
            &&& a.id == c.id && a.html
            &&& c.title.len() > 0 ==> a.title == c.title
            &&& c.title.len() == 0 ==> a.title == crate::laws::captions::name_shown(c.platform)
                + " · "@ + c.author.name
            &&& a.form is Article ==> a.text == caption_of(c, 4096)
            &&& !(a.form is Article) ==> a.text == caption_of(c, 1024)
            &&& c.media.len() == 0 ==> a.form is Article
            &&& c.media.len() > 0 ==> match found {
                Some((kind, id)) => match kind {
                    MediaKind::Photo => a.form == InlineFormView::StoredPhoto(id),
                    MediaKind::Video => a.form == InlineFormView::StoredVideo(id),
                    MediaKind::Animation => a.form == InlineFormView::StoredVideo(id),
                    MediaKind::Audio => a.form == InlineFormView::StoredAudio(id),
                    MediaKind::Document => a.form is Article,
                },
                None => inline_address(a.form, c.media[0]),
            }
        }),
{
}

/// Whether a form shows a medium at its address.
pub open spec fn inline_address(form: InlineFormView, m: MediaItemView) -> bool {
    let reachable = !m.requires_download && m.headers.len() == 0 && url_parts(
        m.source_url,
    ) is Some;
    let small = m.thumbnail_url is Some && url_parts(m.thumbnail_url->0) is Some;
    &&& !reachable ==> form is Article
    &&& reachable && m.kind == MediaKind::Photo ==> form == InlineFormView::Photo(
        m.source_url,
        if small {
            m.thumbnail_url->0
        } else {
            m.source_url
        },
    )
    &&& reachable && m.kind == MediaKind::Video && small ==> form == InlineFormView::Video(
        m.source_url,
        m.thumbnail_url->0,
    )
    &&& reachable && m.kind == MediaKind::Video && !small ==> form is Article
    &&& m.kind != MediaKind::Photo && m.kind != MediaKind::Video ==> form is Article
}

/// A page narrows content to one of its media and leaves everything else as it is.
pub proof fn law_narrowed(c: ParsedContentView, page: u32)
    requires
        c.media.len() >= 2,
        forall|i: int| 0 <= i < c.media.len() ==> (#[trigger] c.media[i]).kind == MediaKind::Photo,
        1 <= page <= c.media.len(),
    ensures
        narrowed(c, Some(page)) matches Ok(n) && n.media =~= seq![c.media[page - 1]] && n.title
            == c.title && n.text == c.text && n.author == c.author && n.stats == c.stats && n.id
            == c.id && n.platform == c.platform && n.canonical_url == c.canonical_url && n.sensitive
            == c.sensitive,
{
    let options = ParseOptionsView { page: Some(page), ..crate::model::default_options() };
    law_page_of_photos(c.media, options, page);
}

/// One page is chosen among the photos, or among all media where there is no photo.
pub proof fn law_page_is_chosen(media: Seq<MediaItemView>, options: ParseOptionsView, page: u32)
    requires
        options.media_cache_key is None,
        !options.cover_only,
        options.page == Some(page),
        media.len() > 1,
    ensures
        ({
            let photos = photo_numbers(media, media.len() as int);
            let chosen = selected_numbers(media, options);
            &&& photos.len() > 0 && 0 < page <= photos.len() ==> chosen == Ok::<Seq<int>, Seq<char>>(
                seq![photos[page - 1]],
            )
            &&& photos.len() > 0 && (page == 0 || page > photos.len()) ==> chosen == Err::<
                Seq<int>,
                Seq<char>,
            >(
                "指定页码 "@ + decimal(page as nat) + " 超出范围（共 "@ + decimal(photos.len())
                    + " 页）"@,
            )
            &&& photos.len() == 0 && 0 < page <= media.len() ==> chosen == Ok::<
                Seq<int>,
                Seq<char>,
            >(seq![page - 1])
            &&& photos.len() == 0 && (page == 0 || page > media.len()) ==> chosen is Err
        }),
{
}

/// The very medium that was sent is chosen again by its key; where it is gone, that is told.
pub proof fn law_medium_is_chosen(media: Seq<MediaItemView>, options: ParseOptionsView, key: Seq<char>)
    requires
        options.media_cache_key == Some(key),
        forall|i: int| 0 <= i < media.len() ==> (#[trigger] media[i]).cache_key != key,
    ensures
        selected_numbers(media, options) == Err::<Seq<int>, Seq<char>>("未找到被回复消息对应的原媒体"@),
{
    lemma_no_key(media, key, media.len() as int);
}

proof fn lemma_no_key(media: Seq<MediaItemView>, key: Seq<char>, n: int)
    requires
        0 <= n <= media.len(),
        forall|i: int| 0 <= i < media.len() ==> (#[trigger] media[i]).cache_key != key,
    ensures
        keyed_numbers(media, key, n).len() == 0,
    decreases n,
{
    if n > 0 {
        lemma_no_key(media, key, n - 1);
        assert(media[n - 1].cache_key != key);
    }
}

/// The cover is the first photo; without a photo nothing is chosen for it.
pub proof fn law_cover_is_chosen(media: Seq<MediaItemView>, options: ParseOptionsView)
    requires
        options.media_cache_key is None,
        options.cover_only,
    ensures
        ({
            let photos = photo_numbers(media, media.len() as int);
            let chosen = selected_numbers(media, options);
            &&& photos.len() == 0 ==> chosen is Ok && chosen->Ok_0.len() == 0
            &&& photos.len() > 0 ==> chosen == Ok::<Seq<int>, Seq<char>>(seq![photos[0]])
        }),
{
    let photos = photo_numbers(media, media.len() as int);
    if photos.len() > 0 {
        assert(photos.take(1) =~= seq![photos[0]]);
    }
}

} // verus!
