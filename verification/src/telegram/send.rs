//! What is sent in answer: which messages, in which form, with which caption, and what is tried
//! where something fails.
use vstd::prelude::*;

use crate::config::{Config, MediaSpoilerMode};
use crate::media::photo::{photo_fits, telegram_photo_dimensions_valid};
use crate::media::{
    error_message, is_permanent_prepare_error, permanent, PrepareError, PrepareErrorView,
};
use crate::model::{
    copy_item, item_views, lemma_item_views_empty, lemma_item_views_push, platform_name,
    provider_message, ErrorView, MediaItem, MediaItemView, MediaKind, ParseOptions,
    ParseOptionsView, ParsedContent, ParsedContentView, ProviderError,
};
use crate::outside::{parse_url, url_parts};
use crate::text::{cat2, cat3, cat4, copy_opt, empty, opt_text, same};

use super::captions::{caption, caption_of, CAPTION_LIMIT, MESSAGE_LIMIT};
use super::select::{
    all_numbers, as_ints, group_count, group_size, grouped_media, is_visual,
    law_cover_is_first_photo, law_groups, media_group_sizes, select_numbers, selected_numbers,
    sent_as_file, spoiler, spoiler_of,
};

verus! {

/// Whether a medium can be sent in a group: a video, or a photo that is known to fit.
pub open spec fn fits_group(item: MediaItemView) -> bool {
    match item.kind {
        MediaKind::Video => true,
        MediaKind::Photo => item.width is Some && item.height is Some && photo_fits(
            item.width->0 as int,
            item.height->0 as int,
        ),
        _ => false,
    }
}

fn can_group(item: &MediaItem) -> (r: bool)
    ensures
        r == fits_group(item@),
{
    match item.kind {
        MediaKind::Video => true,
        MediaKind::Photo => match (item.width, item.height) {
            (Some(width), Some(height)) => telegram_photo_dimensions_valid(width, height),
            _ => false,
        },
        _ => false,
    }
}

/// A medium in a message: its number, and whether the caption goes with it.
#[derive(Debug, Clone, Copy, PartialEq, Eq, Structural)]
pub struct SendItem {
    pub number: usize,
    pub captioned: bool,
}

/// A group of the album of the media with the given numbers. The caption goes with the first
/// medium of the last group, and with no other.
pub open spec fn album_group(selected: Seq<int>, g: int) -> Seq<(int, bool)> {
    let total = selected.len() as int;
    Seq::new(
        group_size(total, g) as nat,
        |i: int|
            (selected[grouped_media(total, g) + i], g == group_count(total) - 1 && i == 0),
    )
}

/// The groups of the album of the media with the given numbers.
pub open spec fn album(selected: Seq<int>) -> Seq<Seq<(int, bool)>> {
    Seq::new(group_count(selected.len() as int) as nat, |g: int| album_group(selected, g))
}

/// The media one by one. The caption goes with the first.
pub open spec fn singles(selected: Seq<int>) -> Seq<(int, bool)> {
    Seq::new(selected.len(), |i: int| (selected[i], i == 0))
}

/// The numbers of the media in the first `g` groups, one after the other.
pub open spec fn album_numbers(selected: Seq<int>, g: int) -> Seq<int>
    decreases g,
{
    if g <= 0 {
        Seq::empty()
    } else {
        let group = album_group(selected, g - 1);
        album_numbers(selected, g - 1) + Seq::new(group.len(), |i: int| group[i].0)
    }
}

proof fn lemma_grouped_grows(total: int, g: int, n: int)
    requires
        total > 0,
        0 <= g <= n <= group_count(total),
    ensures
        0 <= grouped_media(total, g) <= grouped_media(total, n),
    decreases n,
{
    law_groups(total);
    if g < n {
        assert(group_size(total, n - 1) >= 1);
        lemma_grouped_grows(total, g, n - 1);
    } else if g > 0 {
        assert(group_size(total, g - 1) >= 1);
        lemma_grouped_grows(total, g - 1, g - 1);
    }
}

proof fn lemma_album_numbers(selected: Seq<int>, g: int)
    requires
        selected.len() > 0,
        0 <= g <= group_count(selected.len() as int),
    ensures
        album_numbers(selected, g) == selected.take(grouped_media(selected.len() as int, g)),
    decreases g,
{
    let total = selected.len() as int;
    law_groups(total);
    lemma_grouped_grows(total, g, group_count(total));
    if g > 0 {
        lemma_album_numbers(selected, g - 1);
        lemma_grouped_grows(total, g - 1, g);
        assert(group_size(total, g - 1) >= 1);
        assert(album_numbers(selected, g) =~= selected.take(grouped_media(total, g)));
    } else {
        assert(selected.take(0) =~= Seq::<int>::empty());
    }
}

/// An album holds every medium once and in order, its groups have two to ten media, and the
/// caption goes with exactly one of them, which is in the last group.
pub proof fn law_album(selected: Seq<int>)
    requires
        selected.len() >= 2,
    ensures
        album_numbers(selected, album(selected).len() as int) == selected,
        forall|g: int|
            0 <= g < album(selected).len() ==> 2 <= (#[trigger] album(selected)[g]).len() <= 10,
        forall|g: int, i: int|
            0 <= g < album(selected).len() && 0 <= i < album(selected)[g].len() ==> ((
            #[trigger] album(selected)[g][i]).1 <==> g == album(selected).len() - 1 && i == 0),
{
    let total = selected.len() as int;
    law_groups(total);
    lemma_album_numbers(selected, group_count(total));
    assert(selected.take(total) =~= selected);
    assert forall|g: int| 0 <= g < album(selected).len() implies 2 <= (#[trigger] album(
        selected,
    )[g]).len() <= 10 by {
        assert(group_size(total, g) >= 2);
    }
}

/// What is sent.
#[derive(Debug)]
pub enum SendForm {
    /// A text.
    Text(String),
    /// The picture at an address, with the caption.
    Cover(String),
    /// The media in groups.
    Album(Vec<Vec<SendItem>>),
    /// The media one by one.
    Singles(Vec<SendItem>),
}

/// What is sent, and whether it is covered.
#[derive(Debug)]
pub struct SendPlan {
    pub form: SendForm,
    pub caption: String,
    pub covered: bool,
}

/// What is sent, as plain values.
#[verifier::ext_equal]
pub enum SendFormView {
    Text(Seq<char>),
    Cover(Seq<char>),
    Album(Seq<Seq<(int, bool)>>),
    Singles(Seq<(int, bool)>),
}

/// The items of a message as plain values.
pub open spec fn send_items(items: Seq<SendItem>) -> Seq<(int, bool)> {
    Seq::new(items.len(), |i: int| (items[i].number as int, items[i].captioned))
}

/// The groups of an album as plain values.
pub open spec fn send_groups(groups: Seq<Vec<SendItem>>) -> Seq<Seq<(int, bool)>> {
    Seq::new(groups.len(), |g: int| send_items(groups[g]@))
}

impl View for SendForm {
    type V = SendFormView;

    open spec fn view(&self) -> SendFormView {
        match self {
            SendForm::Text(text) => SendFormView::Text(text@),
            SendForm::Cover(url) => SendFormView::Cover(url@),
            SendForm::Album(groups) => SendFormView::Album(send_groups(groups@)),
            SendForm::Singles(items) => SendFormView::Singles(send_items(items@)),
        }
    }
}

/// The first smaller picture among the media, from number `i` on.
pub open spec fn first_thumbnail(media: Seq<MediaItemView>, i: int) -> Option<Seq<char>>
    decreases media.len() - i,
{
    if i < 0 || i >= media.len() {
        None
    } else if media[i].thumbnail_url is Some {
        media[i].thumbnail_url
    } else {
        first_thumbnail(media, i + 1)
    }
}

/// Whether all media with the given numbers can be sent in groups.
pub open spec fn all_fit_group(media: Seq<MediaItemView>, selected: Seq<int>) -> bool {
    forall|i: int| 0 <= i < selected.len() ==> fits_group(media[#[trigger] selected[i]])
}

/// What is sent of a piece of content.
pub open spec fn send_form(c: ParsedContentView, options: ParseOptionsView) -> Result<
    SendFormView,
    Seq<char>,
> {
    if c.media.len() == 0 {
        Ok(SendFormView::Text(caption_of(c, MESSAGE_LIMIT as int)))
    } else {
        match selected_numbers(c.media, options) {
            Err(message) => Err(message),
            Ok(selected) => Ok(
                if selected.len() == 0 {
                    match first_thumbnail(c.media, 0) {
                        Some(url) => SendFormView::Cover(url),
                        None => SendFormView::Text(caption_of(c, CAPTION_LIMIT as int)),
                    }
                } else if !options.file_mode && selected.len() > 1 && all_fit_group(
                    c.media,
                    selected,
                ) {
                    SendFormView::Album(album(selected))
                } else {
                    SendFormView::Singles(singles(selected))
                },
            ),
        }
    }
}

/// A request for the cover sends one picture at most: the first photo, or else the smaller picture
/// of a medium.
pub proof fn law_cover_is_one_picture(c: ParsedContentView, options: ParseOptionsView)
    requires
        options.cover_only,
        options.media_cache_key is None,
    ensures
        match send_form(c, options) {
            Ok(SendFormView::Text(_)) => first_thumbnail(c.media, 0) is None,
            Ok(SendFormView::Cover(url)) => first_thumbnail(c.media, 0) == Some(url),
            Ok(SendFormView::Singles(items)) => {
                &&& items.len() == 1
                &&& items[0].1
                &&& 0 <= items[0].0 < c.media.len()
                &&& c.media[items[0].0].kind == MediaKind::Photo
            },
            _ => false,
        },
{
    law_cover_is_first_photo(c.media, options);
}

fn find_thumbnail(media: &Vec<MediaItem>) -> (r: Option<String>)
    ensures
        opt_text(r) == first_thumbnail(item_views(media@), 0),
{
    let ghost all = item_views(media@);
    let mut i: usize = 0;
    while i < media.len()
        invariant
            i <= media@.len(),
            all == item_views(media@),
            first_thumbnail(all, 0) == first_thumbnail(all, i as int),
        decreases media.len() - i,
    {
        assert(all[i as int] == media@[i as int]@);
        if media[i].thumbnail_url.is_some() {
            return copy_opt(&media[i].thumbnail_url);
        }
        i += 1;
    }
    None
}

fn groupable(media: &Vec<MediaItem>, numbers: &Vec<usize>) -> (r: bool)
    requires
        forall|k: int| 0 <= k < numbers@.len() ==> #[trigger] numbers@[k] < media@.len(),
    ensures
        r == all_fit_group(item_views(media@), as_ints(numbers@)),
{
    let ghost all = item_views(media@);
    let ghost selected = as_ints(numbers@);
    let mut i: usize = 0;
    while i < numbers.len()
        invariant
            i <= numbers@.len(),
            all == item_views(media@),
            selected == as_ints(numbers@),
            forall|k: int| 0 <= k < numbers@.len() ==> #[trigger] numbers@[k] < media@.len(),
            forall|k: int| 0 <= k < i ==> fits_group(all[#[trigger] selected[k]]),
        decreases numbers.len() - i,
    {
        let n: usize = numbers[i];
        assert(all[selected[i as int]] == media@[n as int]@);
        if !can_group(&media[n]) {
            return false;
        }
        i += 1;
    }
    true
}

fn single_items(numbers: &Vec<usize>) -> (r: Vec<SendItem>)
    ensures
        send_items(r@) == singles(as_ints(numbers@)),
{
    let mut out: Vec<SendItem> = Vec::new();
    let mut i: usize = 0;
    while i < numbers.len()
        invariant
            i <= numbers@.len(),
            out@.len() == i,
            forall|k: int|
                0 <= k < i ==> (#[trigger] out@[k]).number == numbers@[k] && out@[k].captioned == (k
                    == 0),
        decreases numbers.len() - i,
    {
        out.push(SendItem { number: numbers[i], captioned: i == 0 });
        i += 1;
    }
    assert(send_items(out@) =~= singles(as_ints(numbers@)));
    out
}

fn group_items(numbers: &Vec<usize>, from: usize, size: usize, last: bool) -> (r: Vec<SendItem>)
    requires
        from + size <= numbers@.len(),
    ensures
        r@.len() == size,
        forall|k: int|
            0 <= k < size ==> (#[trigger] r@[k]).number == numbers@[from + k] && r@[k].captioned
                == (last && k == 0),
{
    let end: usize = numbers.len();
    let mut out: Vec<SendItem> = Vec::new();
    let mut i: usize = 0;
    while i < size
        invariant
            i <= size,
            from + size <= end,
            end == numbers@.len(),
            out@.len() == i,
            forall|k: int|
                0 <= k < i ==> (#[trigger] out@[k]).number == numbers@[from + k]
                    && out@[k].captioned == (last && k == 0),
        decreases size - i,
    {
        out.push(SendItem { number: numbers[from + i], captioned: last && i == 0 });
        i += 1;
    }
    out
}

fn album_items(numbers: &Vec<usize>) -> (r: Vec<Vec<SendItem>>)
    requires
        numbers@.len() > 0,
    ensures
        send_groups(r@) == album(as_ints(numbers@)),
{
    let ghost selected = as_ints(numbers@);
    let ghost total = selected.len() as int;
    let end: usize = numbers.len();
    let sizes = media_group_sizes(end);
    proof {
        law_groups(total);
    }
    let mut out: Vec<Vec<SendItem>> = Vec::new();
    let mut from: usize = 0;
    let mut g: usize = 0;
    while g < sizes.len()
        invariant
            g <= sizes@.len(),
            out@.len() == g,
            selected == as_ints(numbers@),
            total == selected.len(),
            total == numbers@.len(),
            total == end,
            total > 0,
            sizes@.len() == group_count(total),
            forall|i: int| 0 <= i < sizes@.len() ==> #[trigger] sizes@[i] == group_size(total, i),
            grouped_media(total, group_count(total)) == total,
            from == grouped_media(total, g as int),
            forall|k: int| 0 <= k < g ==> send_items((#[trigger] out@[k])@) == album_group(selected, k),
        decreases sizes.len() - g,
    {
        let size: usize = sizes[g];
        proof {
            lemma_grouped_grows(total, g + 1, group_count(total));
            assert(grouped_media(total, g + 1) == grouped_media(total, g as int) + group_size(
                total,
                g as int,
            ));
        }
        let group = group_items(numbers, from, size, g == sizes.len() - 1);
        assert(send_items(group@) =~= album_group(selected, g as int));
        out.push(group);
        from += size;
        g += 1;
    }
    assert(send_groups(out@) =~= album(selected));
    out
}

/// What is sent of a piece of content.
pub fn send_plan(config: &Config, content: &ParsedContent, options: &ParseOptions) -> (r: Result<
    SendPlan,
    String,
>)
    ensures
        match r {
            Ok(plan) => {
                &&& send_form(content@, options@) == Ok::<SendFormView, Seq<char>>(plan.form@)
                &&& plan.caption@ == caption_of(content@, CAPTION_LIMIT as int)
                &&& plan.covered == spoiler_of(
                    config.media_spoiler_mode,
                    content@,
                    options.force_spoiler,
                )
            },
            Err(message) => send_form(content@, options@) == Err::<SendFormView, Seq<char>>(
                message@,
            ),
        },
{
    let covered = spoiler(config, content, options);
    let text = caption(content, CAPTION_LIMIT);
    assert(content@.media.len() == content.media@.len());
    if content.media.len() == 0 {
        let form = SendForm::Text(caption(content, MESSAGE_LIMIT));
        return Ok(SendPlan { form, caption: text, covered });
    }
    let numbers = match select_numbers(content, options) {
        Ok(numbers) => numbers,
        Err(message) => {
            return Err(message);
        },
    };
    assert(as_ints(numbers@).len() == numbers@.len());
    let form = if numbers.len() == 0 {
        match find_thumbnail(&content.media) {
            Some(url) => SendForm::Cover(url),
            None => SendForm::Text(text.clone()),
        }
    } else if !options.file_mode && numbers.len() > 1 && groupable(&content.media, &numbers) {
        SendForm::Album(album_items(&numbers))
    } else {
        SendForm::Singles(single_items(&numbers))
    };
    Ok(SendPlan { form, caption: text, covered })
}

/// Where a medium in a group comes from.
#[derive(Debug)]
pub enum ItemInput {
    /// A file that Telegram has.
    Stored(String),
    /// An address that Telegram fetches itself.
    Address(String),
    /// A file that has to be prepared.
    Prepared,
}

/// Where a medium in a group comes from, as plain values.
#[verifier::ext_equal]
pub enum ItemInputView {
    Stored(Seq<char>),
    Address(Seq<char>),
    Prepared,
}

impl View for ItemInput {
    type V = ItemInputView;

    open spec fn view(&self) -> ItemInputView {
        match self {
            ItemInput::Stored(id) => ItemInputView::Stored(id@),
            ItemInput::Address(url) => ItemInputView::Address(url@),
            ItemInput::Prepared => ItemInputView::Prepared,
        }
    }
}

/// Whether Telegram can fetch a medium itself.
pub open spec fn fetched_by_telegram(item: MediaItemView) -> bool {
    !item.requires_download && item.headers.len() == 0
}

/// Where a medium in a group comes from. A stored file of another kind would have the whole
/// group refused.
pub open spec fn input_of(item: MediaItemView, found: Option<(MediaKind, Seq<char>)>) -> ItemInputView {
    let without = if fetched_by_telegram(item) {
        ItemInputView::Address(item.source_url)
    } else {
        ItemInputView::Prepared
    };
    match found {
        Some((kind, id)) => if kind == item.kind {
            ItemInputView::Stored(id)
        } else {
            without
        },
        None => without,
    }
}

/// A file that was found in the store, as plain values.
pub open spec fn found_view(found: Option<(MediaKind, String)>) -> Option<(MediaKind, Seq<char>)> {
    match found {
        Some(f) => Some((f.0, f.1@)),
        None => None,
    }
}

/// Where a medium in a group comes from.
pub fn group_input(item: &MediaItem, found: Option<(MediaKind, String)>) -> (r: ItemInput)
    ensures
        r@ == input_of(item@, found_view(found)),
{
    match found {
        Some((kind, id)) => {
            if kind == item.kind {
                return ItemInput::Stored(id);
            }
        },
        None => {},
    }
    assert(item@.headers.len() == item.headers@.len());
    if !item.requires_download && item.headers.len() == 0 {
        ItemInput::Address(item.source_url.clone())
    } else {
        ItemInput::Prepared
    }
}

/// As what a prepared file is sent.
pub open spec fn delivered_as(kind: MediaKind, file_mode: bool, covered: bool) -> MediaKind {
    if sent_as_file(file_mode, covered) {
        MediaKind::Document
    } else {
        kind
    }
}

/// Media that are to be covered are sent as what can be covered.
pub proof fn law_covered_media_stay_visual(kind: MediaKind, file_mode: bool)
    requires
        is_visual(kind),
    ensures
        is_visual(delivered_as(kind, file_mode, true)),
{
}

pub fn delivery(kind: MediaKind, file_mode: bool, covered: bool) -> (r: MediaKind)
    ensures
        r == delivered_as(kind, file_mode, covered),
{
    if file_mode && !covered {
        MediaKind::Document
    } else {
        kind
    }
}

/// Whether the original file is wanted in place of what Telegram shows.
pub fn keeps_original(file_mode: bool, covered: bool) -> (r: bool)
    ensures
        r == sent_as_file(file_mode, covered),
{
    file_mode && !covered
}

/// A way to the small picture that goes with a medium.
#[derive(Debug)]
pub enum CoverStep {
    /// A frame of the prepared video.
    Frame,
    /// The picture at an address.
    Remote(String),
}

/// A way to the small picture, as plain values.
#[verifier::ext_equal]
pub enum CoverStepView {
    Frame,
    Remote(Seq<char>),
}

impl View for CoverStep {
    type V = CoverStepView;

    open spec fn view(&self) -> CoverStepView {
        match self {
            CoverStep::Frame => CoverStepView::Frame,
            CoverStep::Remote(url) => CoverStepView::Remote(url@),
        }
    }
}

/// The ways as plain values.
pub open spec fn cover_step_views(steps: Seq<CoverStep>) -> Seq<CoverStepView> {
    Seq::new(steps.len(), |i: int| steps[i]@)
}

/// The picture at the address that a medium has for it.
pub open spec fn remote_cover(item: MediaItemView) -> Seq<CoverStepView> {
    match item.thumbnail_url {
        Some(url) => seq![CoverStepView::Remote(url)],
        None => Seq::empty(),
    }
}

/// The ways to the small picture, in the order in which they are tried: for a prepared video a
/// frame of it and then the picture at an address, for music the picture at an address.
pub open spec fn cover_steps_of(item: MediaItemView, prepared: bool) -> Seq<CoverStepView> {
    if item.kind == MediaKind::Video && prepared {
        seq![CoverStepView::Frame] + remote_cover(item)
    } else if item.kind == MediaKind::Audio {
        remote_cover(item)
    } else {
        Seq::empty()
    }
}

pub fn cover_steps(item: &MediaItem, prepared: bool) -> (r: Vec<CoverStep>)
    ensures
        cover_step_views(r@) == cover_steps_of(item@, prepared),
{
    let mut out: Vec<CoverStep> = Vec::new();
    let video = item.kind == MediaKind::Video && prepared;
    if video {
        out.push(CoverStep::Frame);
    }
    if video || item.kind == MediaKind::Audio {
        match &item.thumbnail_url {
            Some(url) => out.push(CoverStep::Remote(url.clone())),
            None => {},
        }
    }
    assert(cover_step_views(out@) =~= cover_steps_of(item@, prepared));
    out
}

/// What is done where a medium could not be prepared.
#[derive(Debug)]
pub enum Fallback {
    /// The picture at an address is sent, with the caption.
    Cover(String),
    /// The caption is sent.
    Text,
    Skip,
}

/// What is done where a medium could not be prepared, as plain values.
#[verifier::ext_equal]
pub enum FallbackView {
    Cover(Seq<char>),
    Text,
    Skip,
}

impl View for Fallback {
    type V = FallbackView;

    open spec fn view(&self) -> FallbackView {
        match self {
            Fallback::Cover(url) => FallbackView::Cover(url@),
            Fallback::Text => FallbackView::Text,
            Fallback::Skip => FallbackView::Skip,
        }
    }
}

/// The caption is not lost where the medium that it goes with could not be prepared; the other
/// media are left out.
pub open spec fn fallback_of(item: MediaItemView, captioned: bool) -> FallbackView {
    if !captioned {
        FallbackView::Skip
    } else {
        match item.thumbnail_url {
            Some(url) => FallbackView::Cover(url),
            None => FallbackView::Text,
        }
    }
}

pub fn fallback(item: &MediaItem, captioned: bool) -> (r: Fallback)
    ensures
        r@ == fallback_of(item@, captioned),
{
    if !captioned {
        return Fallback::Skip;
    }
    match &item.thumbnail_url {
        Some(url) => Fallback::Cover(url.clone()),
        None => Fallback::Text,
    }
}

/// What follows where a medium could not be prepared.
#[derive(Debug)]
pub enum AfterFailure {
    /// No other address can help.
    GiveUp(PrepareError),
    /// The content is asked for again, for fresh addresses.
    AskAgain(String),
}

/// What follows where a medium could not be prepared, as plain values.
pub enum AfterFailureView {
    GiveUp(PrepareErrorView),
    AskAgain(Seq<char>),
}

impl View for AfterFailure {
    type V = AfterFailureView;

    open spec fn view(&self) -> AfterFailureView {
        match self {
            AfterFailure::GiveUp(error) => AfterFailureView::GiveUp(error@),
            AfterFailure::AskAgain(initial) => AfterFailureView::AskAgain(initial@),
        }
    }
}

/// A file that is too large stays too large; after any other error the content is asked for
/// again.
pub open spec fn after_failure_of(error: PrepareErrorView) -> AfterFailureView {
    if permanent(error) {
        AfterFailureView::GiveUp(error)
    } else {
        AfterFailureView::AskAgain(error_message(error))
    }
}

pub fn after_failure(error: PrepareError) -> (r: AfterFailure)
    ensures
        r@ == after_failure_of(error@),
{
    if is_permanent_prepare_error(&error) {
        AfterFailure::GiveUp(error)
    } else {
        AfterFailure::AskAgain(error.message())
    }
}

/// Whether a medium is the one with a key.
pub open spec fn has_key(candidate: MediaItemView, item: MediaItemView) -> bool {
    candidate.cache_key == item.cache_key
}

/// Whether a medium has the kind and the file name of another.
pub open spec fn looks_like(candidate: MediaItemView, item: MediaItemView) -> bool {
    candidate.kind == item.kind && candidate.filename == item.filename
}

/// The first medium, from number `i` on, with the key of an item.
pub open spec fn first_with_key(media: Seq<MediaItemView>, item: MediaItemView, i: int) -> Option<int>
    decreases media.len() - i,
{
    if i < 0 || i >= media.len() {
        None
    } else if has_key(media[i], item) {
        Some(i)
    } else {
        first_with_key(media, item, i + 1)
    }
}

/// The first medium, from number `i` on, with the kind and the file name of an item.
pub open spec fn first_alike(media: Seq<MediaItemView>, item: MediaItemView, i: int) -> Option<int>
    decreases media.len() - i,
{
    if i < 0 || i >= media.len() {
        None
    } else if looks_like(media[i], item) {
        Some(i)
    } else {
        first_alike(media, item, i + 1)
    }
}

/// The medium that stands for an item in a fresh answer.
pub open spec fn refreshed_number(media: Seq<MediaItemView>, item: MediaItemView) -> Option<int> {
    match first_with_key(media, item, 0) {
        Some(i) => Some(i),
        None => first_alike(media, item, 0),
    }
}

fn find_refreshed(media: &Vec<MediaItem>, item: &MediaItem) -> (r: Option<usize>)
    ensures
        (match r {
            Some(i) => Some(i as int),
            None => None,
        }) == refreshed_number(item_views(media@), item@),
        r is Some ==> r->0 < media@.len(),
{
    let ghost all = item_views(media@);
    let mut i: usize = 0;
    while i < media.len()
        invariant
            i <= media@.len(),
            all == item_views(media@),
            first_with_key(all, item@, 0) == first_with_key(all, item@, i as int),
        decreases media.len() - i,
    {
        assert(all[i as int] == media@[i as int]@);
        if same(media[i].cache_key.as_str(), item.cache_key.as_str()) {
            return Some(i);
        }
        i += 1;
    }
    let mut k: usize = 0;
    while k < media.len()
        invariant
            k <= media@.len(),
            all == item_views(media@),
            first_with_key(all, item@, 0) is None,
            first_alike(all, item@, 0) == first_alike(all, item@, k as int),
        decreases media.len() - k,
    {
        assert(all[k as int] == media@[k as int]@);
        if media[k].kind == item.kind && same(media[k].filename.as_str(), item.filename.as_str()) {
            return Some(k);
        }
        k += 1;
    }
    None
}

/// The medium to be prepared after the content was asked for again, or what is said where there
/// is none.
pub open spec fn after_answer_of(
    answer: Result<ParsedContentView, ErrorView>,
    item: MediaItemView,
    initial: Seq<char>,
) -> Result<int, Seq<char>> {
    match answer {
        Err(error) => Err(
            "重新解析媒体地址失败: "@ + provider_message(error) + "; 初始错误: "@ + initial,
        ),
        Ok(c) => match refreshed_number(c.media, item) {
            Some(i) => Ok(i),
            None => Err("重新解析后未找到对应媒体；初始错误: "@ + initial),
        },
    }
}

/// An answer, as plain values.
pub open spec fn answer_view(answer: Result<&ParsedContent, &ProviderError>) -> Result<
    ParsedContentView,
    ErrorView,
> {
    match answer {
        Ok(content) => Ok(content@),
        Err(error) => Err(error@),
    }
}

/// The medium to be prepared after the content was asked for again.
pub fn after_answer(
    answer: Result<&ParsedContent, &ProviderError>,
    item: &MediaItem,
    initial: &str,
) -> (r: Result<usize, String>)
    ensures
        (match r {
            Ok(i) => Ok::<int, Seq<char>>(i as int),
            Err(message) => Err(message@),
        }) == after_answer_of(answer_view(answer), item@, initial@),
        answer is Ok && r is Ok ==> r->Ok_0 < answer->Ok_0.media@.len(),
{
    match answer {
        Err(error) => Err(
            cat4(
                "重新解析媒体地址失败: ",
                error.message().as_str(),
                "; 初始错误: ",
                initial,
            ),
        ),
        Ok(content) => match find_refreshed(&content.media, item) {
            Some(i) => Ok(i),
            None => Err(cat2("重新解析后未找到对应媒体；初始错误: ", initial)),
        },
    }
}

/// What is said where a medium could not be prepared from its fresh address either: it is not
/// tried again.
pub fn after_second_failure(error: &PrepareError, initial: &str) -> (r: String)
    ensures
        r@ == "刷新地址后媒体准备仍失败: "@ + error_message(error@) + "; 初始错误: "@ + initial@,
{
    cat4("刷新地址后媒体准备仍失败: ", error.message().as_str(), "; 初始错误: ", initial)
}

/// A number as far as a field of sixteen bits holds it.
pub open spec fn short_number(value: Option<u64>) -> Option<u16> {
    match value {
        Some(n) => if n <= u16::MAX {
            Some(n as u16)
        } else {
            None
        },
        None => None,
    }
}

pub fn album_number(value: Option<u64>) -> (r: Option<u16>)
    ensures
        r == short_number(value),
{
    match value {
        Some(n) => if n <= u16::MAX as u64 {
            Some(n as u16)
        } else {
            None
        },
        None => None,
    }
}

/// The duration as far as its field holds it.
pub fn video_duration(seconds: u64) -> (r: u32)
    ensures
        r == (if seconds <= u32::MAX {
            seconds as u32
        } else {
            u32::MAX
        }),
{
    if seconds <= u32::MAX as u64 {
        seconds as u32
    } else {
        u32::MAX
    }
}

/// A file in a message that was sent: its name, and the name that stays the same.
#[derive(Debug, Clone)]
pub struct SentFile {
    pub id: String,
    pub unique_id: String,
}

/// The files in a message that was sent.
#[derive(Debug)]
pub struct SentMessage {
    /// The photo in its sizes, the largest last.
    pub photos: Vec<SentFile>,
    pub video: Option<SentFile>,
    pub audio: Option<SentFile>,
    pub animation: Option<SentFile>,
    pub document: Option<SentFile>,
}

/// The file of a message that is stored, with the kind that it was sent as.
pub open spec fn file_of(message: SentMessage) -> Option<(MediaKind, SentFile)> {
    if message.photos@.len() > 0 {
        Some((MediaKind::Photo, message.photos@.last()))
    } else if message.video is Some {
        Some((MediaKind::Video, message.video->0))
    } else if message.audio is Some {
        Some((MediaKind::Audio, message.audio->0))
    } else if message.animation is Some {
        Some((MediaKind::Animation, message.animation->0))
    } else if message.document is Some {
        Some((MediaKind::Document, message.document->0))
    } else {
        None
    }
}

/// The file of a message that is stored. The kind is what Telegram made of it, not what was
/// asked for.
pub fn stored_file(message: SentMessage) -> (r: Option<(MediaKind, SentFile)>)
    ensures
        r == file_of(message),
{
    let mut photos = message.photos;
    match photos.pop() {
        Some(photo) => {
            return Some((MediaKind::Photo, photo));
        },
        None => {},
    }
    match message.video {
        Some(file) => {
            return Some((MediaKind::Video, file));
        },
        None => {},
    }
    match message.audio {
        Some(file) => {
            return Some((MediaKind::Audio, file));
        },
        None => {},
    }
    match message.animation {
        Some(file) => {
            return Some((MediaKind::Animation, file));
        },
        None => {},
    }
    match message.document {
        Some(file) => Some((MediaKind::Document, file)),
        None => None,
    }
}

/// The answer to an inline query.
#[derive(Debug)]
pub enum InlineForm {
    Article,
    StoredPhoto(String),
    StoredVideo(String),
    StoredAudio(String),
    /// A photo and its small picture at addresses.
    Photo(String, String),
    /// A video and its small picture at addresses.
    Video(String, String),
}

/// The answer to an inline query, as plain values.
#[verifier::ext_equal]
pub enum InlineFormView {
    Article,
    StoredPhoto(Seq<char>),
    StoredVideo(Seq<char>),
    StoredAudio(Seq<char>),
    Photo(Seq<char>, Seq<char>),
    Video(Seq<char>, Seq<char>),
}

impl View for InlineForm {
    type V = InlineFormView;

    open spec fn view(&self) -> InlineFormView {
        match self {
            InlineForm::Article => InlineFormView::Article,
            InlineForm::StoredPhoto(id) => InlineFormView::StoredPhoto(id@),
            InlineForm::StoredVideo(id) => InlineFormView::StoredVideo(id@),
            InlineForm::StoredAudio(id) => InlineFormView::StoredAudio(id@),
            InlineForm::Photo(url, thumb) => InlineFormView::Photo(url@, thumb@),
            InlineForm::Video(url, thumb) => InlineFormView::Video(url@, thumb@),
        }
    }
}

/// The answer to an inline query, with its title and text.
#[derive(Debug)]
pub struct InlineAnswer {
    pub form: InlineForm,
    pub id: String,
    pub title: String,
    pub text: String,
    /// The text is HTML.
    pub html: bool,
}

/// The answer to an inline query, as plain values.
#[verifier::ext_equal]
pub struct InlineAnswerView {
    pub form: InlineFormView,
    pub id: Seq<char>,
    pub title: Seq<char>,
    pub text: Seq<char>,
    pub html: bool,
}

impl View for InlineAnswer {
    type V = InlineAnswerView;

    open spec fn view(&self) -> InlineAnswerView {
        InlineAnswerView {
            form: self.form@,
            id: self.id@,
            title: self.title@,
            text: self.text@,
            html: self.html,
        }
    }
}

/// The title of an inline answer.
pub open spec fn inline_title(c: ParsedContentView) -> Seq<char> {
    if c.title.len() == 0 {
        platform_name(c.platform) + " · "@ + c.author.name
    } else {
        c.title
    }
}

/// The form in which a stored file is answered.
pub open spec fn stored_form(kind: MediaKind, id: Seq<char>) -> InlineFormView {
    match kind {
        MediaKind::Photo => InlineFormView::StoredPhoto(id),
        MediaKind::Video | MediaKind::Animation => InlineFormView::StoredVideo(id),
        MediaKind::Audio => InlineFormView::StoredAudio(id),
        MediaKind::Document => InlineFormView::Article,
    }
}

/// The form in which a medium at an address is answered.
pub open spec fn address_form(item: MediaItemView) -> InlineFormView {
    if !fetched_by_telegram(item) || url_parts(item.source_url) is None {
        InlineFormView::Article
    } else if item.kind == MediaKind::Photo {
        InlineFormView::Photo(
            item.source_url,
            if item.thumbnail_url is Some && url_parts(item.thumbnail_url->0) is Some {
                item.thumbnail_url->0
            } else {
                item.source_url
            },
        )
    } else if item.kind == MediaKind::Video && item.thumbnail_url is Some && url_parts(
        item.thumbnail_url->0,
    ) is Some {
        InlineFormView::Video(item.source_url, item.thumbnail_url->0)
    } else {
        InlineFormView::Article
    }
}

/// The form of an inline answer. Media in inline answers cannot be covered, so that content that
/// is to be covered is answered with its text.
pub open spec fn inline_form_of(
    c: ParsedContentView,
    covered: bool,
    found: Option<(MediaKind, Seq<char>)>,
) -> InlineFormView {
    if covered || c.media.len() == 0 {
        InlineFormView::Article
    } else {
        match found {
            Some((kind, id)) => stored_form(kind, id),
            None => address_form(c.media[0]),
        }
    }
}

/// The answer to an inline query about a piece of content.
pub open spec fn inline_answer_of(
    c: ParsedContentView,
    covered: bool,
    found: Option<(MediaKind, Seq<char>)>,
) -> InlineAnswerView {
    let form = inline_form_of(c, covered, found);
    InlineAnswerView {
        form,
        id: c.id,
        title: inline_title(c),
        text: if form is Article {
            caption_of(c, MESSAGE_LIMIT as int)
        } else {
            caption_of(c, CAPTION_LIMIT as int)
        },
        html: true,
    }
}

/// Covered content is never answered with its media, whatever is stored.
pub proof fn law_covered_inline_is_text(
    c: ParsedContentView,
    mode: MediaSpoilerMode,
    forced: bool,
    found: Option<(MediaKind, Seq<char>)>,
)
    requires
        spoiler_of(mode, c, forced),
    ensures
        inline_answer_of(c, spoiler_of(mode, c, forced), found).form is Article,
{
}

fn address_in(item: &MediaItem) -> (r: InlineForm)
    ensures
        r@ == address_form(item@),
{
    assert(item@.headers.len() == item.headers@.len());
    if item.requires_download || item.headers.len() > 0 {
        return InlineForm::Article;
    }
    if parse_url(item.source_url.as_str()).is_none() {
        return InlineForm::Article;
    }
    let thumb: Option<String> = match &item.thumbnail_url {
        Some(url) => if parse_url(url.as_str()).is_some() {
            Some(url.clone())
        } else {
            None
        },
        None => None,
    };
    match item.kind {
        MediaKind::Photo => match thumb {
            Some(thumb) => InlineForm::Photo(item.source_url.clone(), thumb),
            None => InlineForm::Photo(item.source_url.clone(), item.source_url.clone()),
        },
        MediaKind::Video => match thumb {
            Some(thumb) => InlineForm::Video(item.source_url.clone(), thumb),
            None => InlineForm::Article,
        },
        _ => InlineForm::Article,
    }
}

fn inline_form(content: &ParsedContent, covered: bool, found: Option<(MediaKind, String)>) -> (r:
    InlineForm)
    ensures
        r@ == inline_form_of(content@, covered, found_view(found)),
{
    assert(content@.media.len() == content.media@.len());
    if covered || content.media.len() == 0 {
        return InlineForm::Article;
    }
    assert(content@.media[0] == content.media@[0]@);
    match found {
        Some((kind, id)) => match kind {
            MediaKind::Photo => InlineForm::StoredPhoto(id),
            MediaKind::Video | MediaKind::Animation => InlineForm::StoredVideo(id),
            MediaKind::Audio => InlineForm::StoredAudio(id),
            MediaKind::Document => InlineForm::Article,
        },
        None => address_in(&content.media[0]),
    }
}

/// The answer to an inline query about a piece of content. `found` is the stored file of its
/// first medium.
pub fn inline_answer(content: &ParsedContent, covered: bool, found: Option<(MediaKind, String)>) -> (r:
    InlineAnswer)
    ensures
        r@ == inline_answer_of(content@, covered, found_view(found)),
{
    let title = if empty(content.title.as_str()) {
        cat3(content.platform.as_str(), " · ", content.author.name.as_str())
    } else {
        content.title.clone()
    };
    let form = inline_form(content, covered, found);
    let text = match &form {
        InlineForm::Article => caption(content, MESSAGE_LIMIT),
        _ => caption(content, CAPTION_LIMIT),
    };
    InlineAnswer { form, id: content.id.clone(), title, text, html: true }
}

/// The answer to an inline query that failed.
pub open spec fn inline_failure(title: Seq<char>, message: Seq<char>) -> InlineAnswerView {
    InlineAnswerView {
        form: InlineFormView::Article,
        id: "error"@,
        title,
        text: message,
        html: false,
    }
}

/// The answer to an inline query for a page that there is not.
pub fn inline_page_error(message: String) -> (r: InlineAnswer)
    ensures
        r@ == inline_failure("页码无效"@, message@),
{
    InlineAnswer {
        form: InlineForm::Article,
        id: "error".to_owned(),
        title: "页码无效".to_owned(),
        text: message,
        html: false,
    }
}

/// The answer to an inline query for a link that could not be parsed.
pub fn inline_parse_error(error: &ProviderError) -> (r: InlineAnswer)
    ensures
        r@ == inline_failure("解析失败"@, provider_message(error@)),
{
    InlineAnswer {
        form: InlineForm::Article,
        id: "error".to_owned(),
        title: "解析失败".to_owned(),
        text: error.message(),
        html: false,
    }
}

/// The media with the given numbers.
pub open spec fn picked(media: Seq<MediaItemView>, numbers: Seq<int>) -> Seq<MediaItemView> {
    Seq::new(numbers.len(), |k: int| media[numbers[k]])
}

/// A piece of content with the media of one page alone.
pub open spec fn narrowed(c: ParsedContentView, page: Option<u32>) -> Result<
    ParsedContentView,
    Seq<char>,
> {
    let options = ParseOptionsView { page, ..crate::model::default_options() };
    match selected_numbers(c.media, options) {
        Ok(numbers) => Ok(ParsedContentView { media: picked(c.media, numbers), ..c }),
        Err(message) => Err(message),
    }
}

/// Without a page, nothing of a piece of content is left out.
pub proof fn law_no_page_keeps_all(c: ParsedContentView)
    ensures
        narrowed(c, None) == Ok::<ParsedContentView, Seq<char>>(c),
{
    assert(picked(c.media, all_numbers(c.media.len())) =~= c.media);
}

/// A piece of content with the media of one page alone.
pub fn narrow(content: ParsedContent, page: Option<u32>) -> (r: Result<ParsedContent, String>)
    ensures
        (match r {
            Ok(c) => Ok::<ParsedContentView, Seq<char>>(c@),
            Err(message) => Err(message@),
        }) == narrowed(content@, page),
{
    broadcast use {lemma_item_views_push, lemma_item_views_empty};

    let mut options = ParseOptions::default();
    options.page = page;
    let ghost view = content@;
    let numbers = match select_numbers(&content, &options) {
        Ok(numbers) => numbers,
        Err(message) => {
            return Err(message);
        },
    };
    let ghost chosen = as_ints(numbers@);
    let mut media: Vec<MediaItem> = Vec::new();
    let mut i: usize = 0;
    while i < numbers.len()
        invariant
            i <= numbers@.len(),
            chosen == as_ints(numbers@),
            view == content@,
            forall|k: int| 0 <= k < numbers@.len() ==> #[trigger] numbers@[k] < content.media@.len(),
            item_views(media@) == picked(view.media, chosen).take(i as int),
        decreases numbers.len() - i,
    {
        broadcast use {lemma_item_views_push, lemma_item_views_empty};

        let n: usize = numbers[i];
        let item = copy_item(&content.media[n]);
        assert(view.media[chosen[i as int]] == item@);
        media.push(item);
        assert(picked(view.media, chosen).take(i + 1) =~= picked(view.media, chosen).take(
            i as int,
        ).push(item@));
        i += 1;
    }
    assert(picked(view.media, chosen).take(i as int) =~= picked(view.media, chosen));
    Ok(ParsedContent { media, ..content })
}

} // verus!
