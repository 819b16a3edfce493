//! Messages: what they ask for.
use vstd::prelude::*;

use crate::model::{
    default_options, ContentKind, ParseOptionsView, ParsedContentView, Platform, RequestView,
};
use crate::outside::{regex_match, CapturesView};
use crate::provider::route;
use crate::telegram::links::{
    bare_link, closes_sentence, first_page, first_quality, links_of, message_links, no_flags,
    options_of, page_mark, page_word, quality_word, spoiler_word, strip_one, stripped, UrlFlags,
    PAGE_SUFFIX,
};
use crate::telegram::requests::{
    answer_life, inline_request_of, link_request, link_requests, message_plan, refreshed_life,
    subject_of, wanted,
};
use crate::text::{
    decimal, has_prefix, has_suffix, law_decimal_read_back, lowered, trimmed, words_of,
};

use super::text::law_distinct_keeps_order;
use super::{in_order, lemma_in_order_push};

verus! {

/// Whether a request is that of a link: for the link without its marks, with the options of the
/// message and the marks of the link.
pub open spec fn request_of_link(
    request: RequestView,
    options: ParseOptionsView,
    link: Seq<char>,
) -> bool {
    let (clean, flags) = stripped(trimmed(link), no_flags());
    &&& request.url == clean
    &&& request.options.quality == options.quality
    &&& request.options.file_mode == options.file_mode
    &&& request.options.cover_only == options.cover_only
    &&& request.options.media_cache_key == options.media_cache_key
    &&& request.options.force_spoiler == (options.force_spoiler || flags.force_spoiler)
    &&& request.options.page == (match flags.page {
        Some(p) => Some(p),
        None => options.page,
    })
}

/// Whether a link, without its marks, belongs to a platform.
pub open spec fn supported(platforms: Seq<Platform>, link: Seq<char>) -> bool {
    route(platforms, stripped(trimmed(link), no_flags()).0) is Some
}

/// Every supported link of a message is asked for, each by its own request, in order, and nothing
/// else is.
pub proof fn law_every_link_is_asked_for(
    platforms: Seq<Platform>,
    options: ParseOptionsView,
    links: Seq<Seq<char>>,
    n: int,
) -> (places: Seq<int>)
    requires
        0 <= n <= links.len(),
    ensures
        in_order(places, n),
        places.len() == link_requests(platforms, options, links, n).len(),
        forall|j: int|
            0 <= j < places.len() ==> request_of_link(
                #[trigger] link_requests(platforms, options, links, n)[j],
                options,
                links[places[j]],
            ),
        forall|j: int| 0 <= j < places.len() ==> supported(platforms, links[#[trigger] places[j]]),
        forall|k: int|
            0 <= k < n && supported(platforms, #[trigger] links[k]) ==> places.contains(k),
    decreases n,
{
    if n <= 0 {
        Seq::empty()
    } else {
        let before = law_every_link_is_asked_for(platforms, options, links, n - 1);
        lemma_in_order_push(before, n - 1);
        let had = link_requests(platforms, options, links, n - 1);
        let all = link_requests(platforms, options, links, n);
        match link_request(platforms, options, links[n - 1]) {
            Some(request) => {
                let places = before.push(n - 1);
                assert(all == had.push(request));
                assert(request_of_link(request, options, links[n - 1]));
                assert forall|j: int| 0 <= j < places.len() implies request_of_link(
                    #[trigger] all[j],
                    options,
                    links[places[j]],
                ) by {
                    if j < before.len() {
                        assert(all[j] == had[j]);
                        assert(places[j] == before[j]);
                    }
                }
                assert forall|j: int| 0 <= j < places.len() implies supported(
                    platforms,
                    links[#[trigger] places[j]],
                ) by {
                    if j < before.len() {
                        assert(places[j] == before[j]);
                    }
                }
                assert forall|k: int|
                    0 <= k < n && supported(platforms, #[trigger] links[k]) implies places.contains(
                    k,
                ) by {
                    if k < n - 1 {
                        let q = choose|q: int| 0 <= q < before.len() && before[q] == k;
                        assert(places[q] == k);
                    } else {
                        assert(places[places.len() - 1] == k);
                    }
                }
                places
            },
            None => before,
        }
    }
}

/// A message with links asks for its own links, whatever it answers.
pub proof fn law_own_links_first(
    text: Seq<char>,
    hidden: Seq<Seq<char>>,
    replied: Option<(Seq<char>, Seq<Seq<char>>)>,
    media: Option<(Seq<char>, Seq<char>)>,
)
    requires
        message_links(text, hidden).len() > 0,
    ensures
        wanted(text, hidden, replied, media).0 == message_links(text, hidden),
        wanted(text, hidden, replied, media).1 == options_of(text),
{
}

/// A command without links asks for the links of the message that it answers, with its own
/// options; talk in answer to a message asks for nothing.
pub proof fn law_links_of_answered_message(
    text: Seq<char>,
    hidden: Seq<Seq<char>>,
    other: Seq<char>,
    others: Seq<Seq<char>>,
)
    requires
        message_links(text, hidden).len() == 0,
    ensures
        has_prefix(text, "/"@) || options_of(text).force_spoiler || options_of(text).page is Some
            ==> wanted(text, hidden, Some((other, others)), None) == (
            message_links(other, others),
            options_of(text),
        ),
        !has_prefix(text, "/"@) && !options_of(text).force_spoiler && options_of(text).page is None
            ==> wanted(text, hidden, Some((other, others)), None).0.len() == 0,
{
}

/// What a message is answered with: the help where it asks for it, the login, the media of its
/// links, a notice where a command in private names no supported link, and nothing otherwise.
pub proof fn law_answer_of_message(
    platforms: Seq<Platform>,
    text: Seq<char>,
    hidden: Seq<Seq<char>>,
    replied: Option<(Seq<char>, Seq<Seq<char>>)>,
    media: Option<(Seq<char>, Seq<char>)>,
    private: bool,
    k: int,
)
    ensures
        text == "/start"@ || text == "/help"@ ==> message_plan(
            platforms,
            text,
            hidden,
            replied,
            media,
            private,
        ) is Help,
        text != "/start"@ && text != "/help"@ && has_prefix(text, "/login"@) ==> message_plan(
            platforms,
            text,
            hidden,
            replied,
            media,
            private,
        ) is Login,
        text != "/start"@ && text != "/help"@ && !has_prefix(text, "/login"@) && (0 <= k < wanted(
            text,
            hidden,
            replied,
            media,
        ).0.len() && supported(platforms, wanted(text, hidden, replied, media).0[k]))
            ==> message_plan(platforms, text, hidden, replied, media, private) is Parse,
        message_plan(platforms, text, hidden, replied, media, private) is NotFound ==> private
            && has_prefix(text, "/"@),
{
    let w = wanted(text, hidden, replied, media);
    let places = law_every_link_is_asked_for(platforms, w.1, w.0, w.0.len() as int);
    if 0 <= k < w.0.len() && supported(platforms, w.0[k]) {
        assert(places.contains(k));
    }
}

/// An inline query asks for the first supported link that it names.
pub proof fn law_inline_asks_for_first(platforms: Seq<Platform>, query: Seq<char>, k: int)
    requires
        0 <= k < links_of(query).len(),
        supported(platforms, links_of(query)[k]),
        forall|i: int| 0 <= i < k ==> !supported(platforms, #[trigger] links_of(query)[i]),
    ensures
        inline_request_of(platforms, query) matches Some(request) && request_of_link(
            request,
            default_options(),
            links_of(query)[k],
        ),
{
    let links = links_of(query);
    let places = law_every_link_is_asked_for(
        platforms,
        default_options(),
        links,
        links.len() as int,
    );
    assert(places.contains(k));
    let at = choose|at: int| 0 <= at < places.len() && places[at] == k;
    assert(supported(platforms, links[places[0]]));
    if at > 0 {
        assert(places[0] < places[at]);
        assert(!supported(platforms, links[places[0]]));
    }
    assert(places[0] == k);
    let requests = link_requests(platforms, default_options(), links, links.len() as int);
    assert(request_of_link(requests[0], default_options(), links[places[0]]));
}

/// The links of a message are those of its text, and then those behind parts of it, none twice.
pub proof fn law_links_of_message(text: Seq<char>, hidden: Seq<Seq<char>>, link: Seq<char>)
    ensures
        message_links(text, hidden).contains(link) <==> links_of(text).contains(link)
            || hidden.contains(link),
        message_links(text, hidden).no_duplicates(),
{
    let all = links_of(text) + hidden;
    let places = law_distinct_keeps_order(all, all.len() as int);
    crate::text::lemma_distinct(all, all.len() as int);
    if message_links(text, hidden).contains(link) {
        let i = choose|i: int| 0 <= i < all.len() && all[i] == link;
        if i < links_of(text).len() {
            assert(links_of(text)[i] == link);
        } else {
            assert(hidden[i - links_of(text).len()] == link);
        }
    }
    if links_of(text).contains(link) {
        let i = choose|i: int| 0 <= i < links_of(text).len() && links_of(text)[i] == link;
        assert(all[i] == link);
    }
    if hidden.contains(link) {
        let i = choose|i: int| 0 <= i < hidden.len() && hidden[i] == link;
        assert(all[links_of(text).len() + i] == link);
    }
}

/// Punctuation behind a link is taken off, all of it, and nothing else.
pub proof fn law_bare_link(link: Seq<char>) -> (k: int)
    ensures
        0 <= k <= link.len(),
        bare_link(link) == link.take(k),
        k > 0 ==> !closes_sentence(link[k - 1]),
        forall|i: int| k <= i < link.len() ==> closes_sentence(#[trigger] link[i]),
        forall|c: char|
            #![trigger closes_sentence(c)]
            'a' <= c <= 'z' || 'A' <= c <= 'Z' || '0' <= c <= '9' || c == '/' || c == '-' || c == '_'
                || c == '=' || c == '&' ==> !closes_sentence(c),
    decreases link.len(),
{
    if link.len() > 0 && closes_sentence(link.last()) {
        let k = law_bare_link(link.drop_last());
        assert(link.drop_last().take(k) =~= link.take(k));
        assert forall|i: int| k <= i < link.len() implies closes_sentence(#[trigger] link[i]) by {
            if i < link.len() - 1 {
                assert(link.drop_last()[i] == link[i]);
            }
        }
        k
    } else {
        assert(link.take(link.len() as int) =~= link);
        link.len() as int
    }
}

proof fn lemma_first_quality(words: Seq<Seq<char>>, from: int, i: int)
    requires
        0 <= from <= i < words.len(),
        quality_word(words[i]) is Some,
        forall|j: int| from <= j < i ==> quality_word(#[trigger] words[j]) is None,
    ensures
        first_quality(words, from) == quality_word(words[i]),
    decreases i - from,
{
    if from < i {
        assert(quality_word(words[from]) is None);
        lemma_first_quality(words, from + 1, i);
    }
}

proof fn lemma_no_quality(words: Seq<Seq<char>>, from: int)
    requires
        0 <= from <= words.len(),
        forall|j: int| from <= j < words.len() ==> quality_word(#[trigger] words[j]) is None,
    ensures
        first_quality(words, from) is None,
    decreases words.len() - from,
{
    if from < words.len() {
        lemma_no_quality(words, from + 1);
    }
}

proof fn lemma_first_page(words: Seq<Seq<char>>, from: int, i: int)
    requires
        0 <= from <= i < words.len(),
        page_word(words[i]) is Some,
        forall|j: int| from <= j < i ==> page_word(#[trigger] words[j]) is None,
    ensures
        first_page(words, from) == page_word(words[i]),
    decreases i - from,
{
    if from < i {
        assert(page_word(words[from]) is None);
        lemma_first_page(words, from + 1, i);
    }
}

proof fn lemma_no_page(words: Seq<Seq<char>>, from: int)
    requires
        0 <= from <= words.len(),
        forall|j: int| from <= j < words.len() ==> page_word(#[trigger] words[j]) is None,
    ensures
        first_page(words, from) is None,
    decreases words.len() - from,
{
    if from < words.len() {
        lemma_no_page(words, from + 1);
    }
}

/// The first word of a message that names a quality or a page counts, in whatever letters; a
/// message without such a word asks for none.
pub proof fn law_first_word_counts(text: Seq<char>, i: int)
    requires
        0 <= i < words_of(lowered(text)).len(),
    ensures
        quality_word(words_of(lowered(text))[i]) is Some && (forall|j: int|
            0 <= j < i ==> quality_word(#[trigger] words_of(lowered(text))[j]) is None)
            ==> options_of(text).quality == quality_word(words_of(lowered(text))[i]),
        page_word(words_of(lowered(text))[i]) is Some && (forall|j: int|
            0 <= j < i ==> page_word(#[trigger] words_of(lowered(text))[j]) is None) ==> options_of(
            text,
        ).page == page_word(words_of(lowered(text))[i]),
        (forall|j: int|
            0 <= j < words_of(lowered(text)).len() ==> quality_word(
                #[trigger] words_of(lowered(text))[j],
            ) is None) ==> options_of(text).quality is None,
        (forall|j: int|
            0 <= j < words_of(lowered(text)).len() ==> page_word(
                #[trigger] words_of(lowered(text))[j],
            ) is None) ==> options_of(text).page is None,
{
    let words = words_of(lowered(text));
    if quality_word(words[i]) is Some && (forall|j: int|
        0 <= j < i ==> quality_word(#[trigger] words[j]) is None) {
        lemma_first_quality(words, 0, i);
    }
    if page_word(words[i]) is Some && (forall|j: int|
        0 <= j < i ==> page_word(#[trigger] words[j]) is None) {
        lemma_first_page(words, 0, i);
    }
    if forall|j: int| 0 <= j < words.len() ==> quality_word(#[trigger] words[j]) is None {
        lemma_no_quality(words, 0);
    }
    if forall|j: int| 0 <= j < words.len() ==> page_word(#[trigger] words[j]) is None {
        lemma_no_page(words, 0);
    }
}

/// A quality is named by its number, with or without a `p` behind it: 360, 480, 720 or 1080.
pub proof fn law_quality_words(q: u32)
    ensures
        q == 360 || q == 480 || q == 720 || q == 1080 ==> quality_word(decimal(q as nat)) == Some(q)
            && quality_word(decimal(q as nat).push('p')) == Some(q),
        forall|w: Seq<char>| #[trigger] quality_word(w) == Some(q) ==> q == 360 || q == 480 || q == 720
            || q == 1080,
{
    reveal_strlit("360");
    reveal_strlit("480");
    reveal_strlit("720");
    reveal_strlit("1080");
    reveal_with_fuel(decimal, 5);
    assert(decimal(360) =~= "360"@);
    assert(decimal(480) =~= "480"@);
    assert(decimal(720) =~= "720"@);
    assert(decimal(1080) =~= "1080"@);
    let d = decimal(q as nat);
    assert(d.push('p').drop_last() =~= d);
    assert("360"@[0] == '3' && "480"@[0] == '4' && "720"@[0] == '7' && "1080"@[0] == '1');
    super::text::law_number_is_written(q as nat);
    assert(d.last() != 'p');
}

/// A page is named by a plus sign, a `p` and its number, counted from one.
pub proof fn law_page_words(n: u32)
    ensures
        n >= 1 ==> page_word("+p"@ + decimal(n as nat)) == Some(n),
        page_word("+p"@ + decimal(0)) is None,
{
    reveal_strlit("+p");
    law_decimal_read_back(n as nat, u32::MAX as nat);
    law_decimal_read_back(0, u32::MAX as nat);
    let w = "+p"@ + decimal(n as nat);
    let z = "+p"@ + decimal(0);
    assert(w.subrange(0, 2) =~= "+p"@);
    assert(z.subrange(0, 2) =~= "+p"@);
    assert(w.skip(2) =~= decimal(n as nat));
    assert(z.skip(2) =~= decimal(0));
    super::text::law_number_is_written(n as nat);
    super::text::law_number_is_written(0);
    lemma_digits(n as nat);
    lemma_digits(0);
}

proof fn lemma_digits(n: nat)
    ensures
        crate::text::all_digits(decimal(n)),
    decreases n,
{
    if n >= 10 {
        lemma_digits(n / 10);
        let d = decimal(n);
        assert forall|i: int| 0 <= i < d.len() implies crate::text::is_ascii_digit(#[trigger] d[i]) by {
            if i < d.len() - 1 {
                assert(d[i] == decimal(n / 10)[i]);
            }
        }
    }
}

/// Files, covers and covered media are asked for by the commands and words for them, in whatever
/// letters.
pub proof fn law_commands(text: Seq<char>)
    ensures
        options_of(text).file_mode <==> has_prefix(lowered(text), "/file"@),
        options_of(text).cover_only <==> has_prefix(lowered(text), "/cover"@),
        has_suffix(lowered(text), "+sp"@) || has_prefix(lowered(text), "/spoiler"@) || has_prefix(
            lowered(text),
            "/mask"@,
        ) ==> options_of(text).force_spoiler,
        (exists|i: int|
            0 <= i < words_of(lowered(text)).len() && #[trigger] words_of(lowered(text))[i]
                == "+sp"@) ==> options_of(text).force_spoiler,
        options_of(text).force_spoiler ==> has_suffix(lowered(text), "+sp"@) || has_prefix(
            lowered(text),
            "/spoiler"@,
        ) || has_prefix(lowered(text), "/mask"@) || exists|i: int|
            0 <= i < words_of(lowered(text)).len() && names_cover(
                #[trigger] words_of(lowered(text))[i],
            ),
        options_of(text).media_cache_key is None,
{
    let words = words_of(lowered(text));
    if exists|i: int| 0 <= i < words.len() && #[trigger] words[i] == "+sp"@ {
        let i = choose|i: int| 0 <= i < words.len() && #[trigger] words[i] == "+sp"@;
        assert(spoiler_word(words[i]));
    }
    if exists|i: int| 0 <= i < words.len() && spoiler_word(#[trigger] words[i]) {
        let i = choose|i: int| 0 <= i < words.len() && spoiler_word(#[trigger] words[i]);
        assert(names_cover(words[i]));
    }
}

/// Whether a word asks for covered media.
pub open spec fn names_cover(w: Seq<char>) -> bool {
    w == "+sp"@ || w == "/spoiler"@ || w == "/mask"@
}

/// The requests of a user are counted for that user, and those of nobody for the chat; two users
/// are never counted together.
pub proof fn law_who_is_counted(a: u64, b: u64, chat: i64, other: i64)
    ensures
        subject_of(Some(a), chat) == subject_of(Some(a), other),
        a != b ==> subject_of(Some(a), chat) != subject_of(Some(b), other),
        chat >= 0 ==> subject_of(None, chat) == decimal(chat as nat),
        chat < 0 ==> subject_of(None, chat) == "-"@ + decimal((-chat) as nat),
{
    if a != b {
        super::text::law_numbers_differ(a as nat, b as nat);
    }
}

/// An answer is kept for five minutes where it is live, for ten where something in it is fetched
/// from addresses that expire, and for an hour otherwise.
pub proof fn law_life_of_answer(c: ParsedContentView, i: int)
    ensures
        c.kind == ContentKind::Live ==> answer_life(c) == 300 && refreshed_life(c) == 300,
        c.kind != ContentKind::Live ==> refreshed_life(c) == 600,
        c.kind != ContentKind::Live && 0 <= i < c.media.len() && c.media[i].requires_download
            ==> answer_life(c) == 600,
        c.kind != ContentKind::Live && (forall|j: int|
            0 <= j < c.media.len() ==> !(#[trigger] c.media[j]).requires_download) ==> answer_life(
            c,
        ) == 3600,
{
}

/// A mark at the end of a link, in any case, asks for a covered answer and is taken off.
pub proof fn law_mark_is_taken_off(link: Seq<char>, flags: UrlFlags)
    ensures
        strip_one(link + "+sp"@, flags) == Some(
            (link, UrlFlags { force_spoiler: true, page: flags.page }),
        ),
        strip_one(link + "+SP"@, flags) == Some(
            (link, UrlFlags { force_spoiler: true, page: flags.page }),
        ),
{
    reveal_strlit("+sp");
    reveal_strlit("+SP");
    let small = link + "+sp"@;
    let large = link + "+SP"@;
    let n = link.len() as int;
    assert(lowered(small).subrange(n, n + 3) =~= "+sp"@);
    assert(lowered(large).subrange(n, n + 3) =~= "+sp"@);
    assert(small.take(n) =~= link);
    assert(large.take(n) =~= link);
}

/// A page at the end of a link is what its pattern finds there, a number from one on.
pub proof fn law_page_at_end(link: Seq<char>, before: Seq<char>, page: u32, m: CapturesView)
    requires
        regex_match(PAGE_SUFFIX@, link) == Some(m),
        m.before == before,
        m.after.len() == 0,
        before.len() < link.len(),
        m.groups.len() > 1,
        m.groups[1] == Some(decimal(page as nat)),
    ensures
        page > 0 ==> page_mark(link) == Some((link.take(before.len() as int), page)),
        page == 0 ==> page_mark(link) is None,
{
    law_decimal_read_back(page as nat, u32::MAX as nat);
}

/// A mark that does not stand at the end is none.
pub proof fn law_page_elsewhere(link: Seq<char>, m: CapturesView)
    ensures
        regex_match(PAGE_SUFFIX@, link) is None ==> page_mark(link) is None,
        regex_match(PAGE_SUFFIX@, link) == Some(m) && m.after.len() > 0 ==> page_mark(link) is None,
{
}

/// A query without a link that can be read asks for nothing.
pub proof fn law_nothing_asked_inline(platforms: Seq<Platform>, query: Seq<char>)
    requires
        forall|i: int|
            0 <= i < links_of(query).len() ==> link_request(
                platforms,
                default_options(),
                #[trigger] links_of(query)[i],
            ) is None,
    ensures
        inline_request_of(platforms, query) is None,
{
    lemma_no_requests(platforms, links_of(query), links_of(query).len() as int);
}

proof fn lemma_no_requests(platforms: Seq<Platform>, links: Seq<Seq<char>>, n: int)
    requires
        0 <= n <= links.len(),
        forall|i: int|
            0 <= i < links.len() ==> link_request(platforms, default_options(), #[trigger] links[i])
                is None,
    ensures
        link_requests(platforms, default_options(), links, n).len() == 0,
    decreases n,
{
    if n > 0 {
        lemma_no_requests(platforms, links, n - 1);
        assert(link_request(platforms, default_options(), links[n - 1]) is None);
    }
}

/// The marks that close a sentence and do not belong to a link.
pub proof fn law_marks_of_sentences(c: char)
    ensures
        closes_sentence(c) <==> c == ',' || c == '.' || c == '!' || c == '?' || c == '，' || c == '。'
            || c == '！' || c == '？' || c == '）' || c == ')' || c == ']' || c == '}',
{
}

/// The words that ask for a covered answer.
pub proof fn law_words_for_covering(w: Seq<char>)
    ensures
        spoiler_word("+sp"@) && spoiler_word("/spoiler"@) && spoiler_word("/mask"@),
        spoiler_word(w) ==> w == "+sp"@ || w == "/spoiler"@ || w == "/mask"@,
{
}

/// A word is a page only where its mark is followed by digits alone.
pub proof fn law_other_words_are_no_pages(w: Seq<char>, rest: Seq<char>, i: int)
    ensures
        !has_prefix(w, "+p"@) ==> page_word(w) is None,
        page_word("+p"@) is None,
        0 <= i < rest.len() && !crate::text::is_ascii_digit(rest[i]) ==> page_word("+p"@ + rest) is None,
{
    reveal_strlit("+p");
    assert(("+p"@).skip(2).len() == 0);
    let word = "+p"@ + rest;
    assert(word.skip(2) =~= rest);
}

/// A word without digits, or with other digits than a quality has, names no quality.
pub proof fn law_other_words_are_no_qualities(w: Seq<char>)
    ensures
        quality_word(Seq::empty()) is None,
        w.len() < 3 || w.len() > 5 ==> quality_word(w) is None,
{
    reveal_strlit("360");
    reveal_strlit("480");
    reveal_strlit("720");
    reveal_strlit("1080");
    assert("360"@.len() == 3 && "480"@.len() == 3 && "720"@.len() == 3 && "1080"@.len() == 4);
}

} // verus!
