//! The links in a message, and the options that come with them.
use vstd::prelude::*;

use crate::model::{ParseOptions, ParseOptionsView};
use crate::outside::{captures, find_all, regex_match, regex_matches};
use crate::text::{
    add_distinct, all_digits, ascii_digit, chars_of, distinct_of, ends_with, has_prefix, has_suffix,
    is_ascii_digit, is_white, lemma_distinct, lemma_texts_empty, lemma_texts_push, lower, lowered,
    opt_text, parse_number, parsed_number, same, starts_with, text_between, texts, trim, trimmed,
    words, words_of,
};

verus! {

/// The links in a text: URLs, and the names and numbers of Bilibili videos standing alone. A
/// number has at least two digits, so that the name of a codec is not taken for one.
pub const LINK: &'static str =
    r"(?i)(?:https?://[^\s<>，。！？、]+|\b(?:BV[0-9A-Za-z]{10}|av\d{2,})\b(?:\?[^\s<>，。！？、]*)?)";

/// A page number at the end of a link.
pub const PAGE_SUFFIX: &'static str = r"(?i)\+p(\d+)$";

/// Whether a character at the end of a link belongs to the sentence around it.
pub open spec fn closes_sentence(c: char) -> bool {
    c == ',' || c == '.' || c == '!' || c == '?' || c == '，' || c == '。' || c == '！' || c == '？' || c
        == '）' || c == ')' || c == ']' || c == '}'
}

/// A link without the punctuation behind it.
pub open spec fn bare_link(s: Seq<char>) -> Seq<char>
    decreases s.len(),
{
    if s.len() > 0 && closes_sentence(s.last()) {
        bare_link(s.drop_last())
    } else {
        s
    }
}

/// Each link without the punctuation behind it.
pub open spec fn bare_links(all: Seq<Seq<char>>) -> Seq<Seq<char>> {
    Seq::new(all.len(), |i: int| bare_link(all[i]))
}

/// The links of a text, in order, each once.
pub open spec fn links_of(text: Seq<char>) -> Seq<Seq<char>> {
    let all = bare_links(regex_matches(LINK@, text));
    distinct_of(all, all.len() as int)
}

/// No link of a text is named twice.
pub proof fn law_links_are_distinct(text: Seq<char>)
    ensures
        links_of(text).no_duplicates(),
{
    let all = bare_links(regex_matches(LINK@, text));
    lemma_distinct(all, all.len() as int);
}

fn trim_link(s: &str) -> (r: String)
    ensures
        r@ == bare_link(s@),
{
    let chars = chars_of(s);
    let mut to: usize = chars.len();
    assert(chars@.take(to as int) =~= chars@);
    while to > 0 && closes(chars[to - 1])
        invariant
            to <= chars@.len(),
            bare_link(chars@) == bare_link(chars@.take(to as int)),
        decreases to,
    {
        assert(chars@.take(to as int).drop_last() =~= chars@.take(to - 1));
        to -= 1;
    }
    let r = text_between(&chars, 0, to);
    assert(r@ =~= chars@.take(to as int));
    r
}

fn closes(c: char) -> (r: bool)
    ensures
        r == closes_sentence(c),
{
    c == ',' || c == '.' || c == '!' || c == '?' || c == '，' || c == '。' || c == '！' || c == '？' || c
        == '）' || c == ')' || c == ']' || c == '}'
}

/// The matches as links, each once.
pub fn clean_links(found: &Vec<String>) -> (r: Vec<String>)
    ensures
        texts(r@) == distinct_of(bare_links(texts(found@)), found@.len() as int),
{
    broadcast use {lemma_texts_push, lemma_texts_empty};

    let ghost all = bare_links(texts(found@));
    let mut out: Vec<String> = Vec::new();
    let mut i: usize = 0;
    while i < found.len()
        invariant
            i <= found@.len(),
            all == bare_links(texts(found@)),
            texts(out@) == distinct_of(all, i as int),
        decreases found.len() - i,
    {
        let link = trim_link(found[i].as_str());
        assert(all[i as int] == link@);
        add_distinct(&mut out, link, Ghost(all), Ghost(i as int));
        i += 1;
    }
    out
}

/// The links of a text, in order, each once.
pub fn extract_urls(text: &str) -> (r: Vec<String>)
    ensures
        texts(r@) == links_of(text@),
{
    let found = find_all(LINK, text);
    let r = clean_links(&found);
    assert(texts(found@).len() == found@.len());
    r
}

/// The links of a message: those of its text, and those behind parts of its text.
pub open spec fn message_links(text: Seq<char>, hidden: Seq<Seq<char>>) -> Seq<Seq<char>> {
    let all = links_of(text) + hidden;
    distinct_of(all, all.len() as int)
}

proof fn lemma_distinct_prefix(a: Seq<Seq<char>>, b: Seq<Seq<char>>, n: int)
    requires
        0 <= n <= a.len(),
        a.no_duplicates(),
    ensures
        distinct_of(a + b, n) == a.take(n),
    decreases n,
{
    if n > 0 {
        lemma_distinct_prefix(a, b, n - 1);
        let before = a.take(n - 1);
        assert((a + b)[n - 1] == a[n - 1]);
        assert(!before.contains(a[n - 1])) by {
            if before.contains(a[n - 1]) {
                let k = choose|k: int| 0 <= k < before.len() && before[k] == a[n - 1];
                assert(a[k] == a[n - 1]);
            }
        }
        assert(before.push(a[n - 1]) =~= a.take(n));
    } else {
        assert(a.take(0) =~= Seq::<Seq<char>>::empty());
    }
}

/// The links of a message: those of its text, and those behind parts of its text.
pub fn extract_message_urls(text: &str, hidden: &Vec<String>) -> (r: Vec<String>)
    ensures
        texts(r@) == message_links(text@, texts(hidden@)),
{
    let mut out = extract_urls(text);
    let ghost first = links_of(text@);
    let ghost all = first + texts(hidden@);
    proof {
        law_links_are_distinct(text@);
        lemma_distinct_prefix(first, texts(hidden@), first.len() as int);
        assert(first.take(first.len() as int) =~= first);
    }
    let mut i: usize = 0;
    while i < hidden.len()
        invariant
            i <= hidden@.len(),
            all == first + texts(hidden@),
            texts(out@) == distinct_of(all, first.len() + i),
        decreases hidden.len() - i,
    {
        assert(all[first.len() + i] == hidden@[i as int]@);
        add_distinct(&mut out, hidden[i].clone(), Ghost(all), Ghost(first.len() + i as int));
        i += 1;
    }
    out
}

/// The marks at the end of a link.
#[derive(Debug, Clone, Copy, PartialEq, Eq, Structural)]
pub struct UrlFlags {
    pub force_spoiler: bool,
    pub page: Option<u32>,
}

/// No marks.
pub open spec fn no_flags() -> UrlFlags {
    UrlFlags { force_spoiler: false, page: None }
}

impl Default for UrlFlags {
    fn default() -> (r: UrlFlags)
        ensures
            r == no_flags(),
    {
        UrlFlags { force_spoiler: false, page: None }
    }
}

/// Whether a link ends with the mark that covers the media.
pub open spec fn ends_with_spoiler(link: Seq<char>) -> bool {
    has_suffix(lowered(link), "+sp"@)
}

/// The page number with which a link ends, and the link before it.
pub open spec fn page_mark(link: Seq<char>) -> Option<(Seq<char>, u32)> {
    match regex_match(PAGE_SUFFIX@, link) {
        Some(m) => if m.after.len() == 0 && m.before.len() < link.len() && m.groups.len() > 1
            && m.groups[1] is Some {
            match parsed_number(m.groups[1]->0, u32::MAX as nat) {
                Some(n) => if n >= 1 {
                    Some((link.take(m.before.len() as int), n as u32))
                } else {
                    None
                },
                None => None,
            }
        } else {
            None
        },
        None => None,
    }
}

/// A link without its last mark, and the marks that are known then; none where the link ends
/// with no mark.
pub open spec fn strip_one(link: Seq<char>, flags: UrlFlags) -> Option<(Seq<char>, UrlFlags)> {
    if ends_with_spoiler(link) {
        Some((link.take(link.len() - 3), UrlFlags { force_spoiler: true, ..flags }))
    } else {
        match page_mark(link) {
            Some((rest, page)) => Some((rest, UrlFlags { page: Some(page), ..flags })),
            None => None,
        }
    }
}

/// A link without the marks at its end, and the marks.
pub open spec fn stripped(link: Seq<char>, flags: UrlFlags) -> (Seq<char>, UrlFlags)
    decreases link.len(),
{
    match strip_one(link, flags) {
        Some((rest, more)) => if rest.len() < link.len() {
            stripped(rest, more)
        } else {
            (link, flags)
        },
        None => (link, flags),
    }
}

proof fn lemma_strip_one(link: Seq<char>, flags: UrlFlags)
    ensures
        strip_one(link, flags) matches Some((rest, more)) ==> {
            &&& rest.len() < link.len()
            &&& rest == link.take(rest.len() as int)
            &&& more != no_flags()
            &&& flags.force_spoiler ==> more.force_spoiler
            &&& flags.page is Some ==> more.page is Some
        },
{
    reveal_strlit("+sp");
}

/// No mark is left at the end of a link whose marks were taken off, and a mark that was seen is
/// not forgotten.
pub proof fn law_all_marks_stripped(link: Seq<char>, flags: UrlFlags, other: UrlFlags)
    ensures
        strip_one(stripped(link, flags).0, other) is None,
        stripped(link, flags).0.len() <= link.len(),
        flags.force_spoiler ==> stripped(link, flags).1.force_spoiler,
        flags.page is Some ==> stripped(link, flags).1.page is Some,
    decreases link.len(),
{
    lemma_strip_one(link, flags);
    match strip_one(link, flags) {
        Some((rest, more)) => {
            law_all_marks_stripped(rest, more, other);
        },
        None => {},
    }
}

/// A link whose marks were taken off is the beginning of the link, and marks are known exactly
/// where something was taken off.
pub proof fn law_stripped_link_is_prefix(link: Seq<char>, flags: UrlFlags)
    ensures
        has_prefix(link, stripped(link, flags).0),
        stripped(link, flags).0 == link ==> stripped(link, flags).1 == flags,
        stripped(link, flags).0 != link ==> stripped(link, flags).1 != no_flags(),
        stripped(link, no_flags()).1 == no_flags() <==> stripped(link, no_flags()).0 == link,
    decreases link.len(),
{
    lemma_strip_one(link, flags);
    lemma_strip_one(link, no_flags());
    assert(link.take(link.len() as int) =~= link);
    match strip_one(link, flags) {
        Some((rest, more)) => {
            law_stripped_link_is_prefix(rest, more);
            law_all_marks_stripped(rest, more, no_flags());
            let n = stripped(rest, more).0.len() as int;
            assert(rest.take(n) =~= link.take(n));
        },
        None => {},
    }
    match strip_one(link, no_flags()) {
        Some((rest, more)) => {
            law_stripped_link_is_prefix(rest, more);
            law_all_marks_stripped(rest, more, no_flags());
        },
        None => {},
    }
}

proof fn lemma_trimmed_without_white(s: Seq<char>)
    requires
        forall|i: int| 0 <= i < s.len() ==> !is_white(#[trigger] s[i]),
    ensures
        trimmed(s) == s,
{
}

/// Taking the marks off a link without white space a second time changes nothing and finds no
/// mark.
pub proof fn law_second_strip_finds_nothing(url: Seq<char>)
    requires
        forall|i: int| 0 <= i < url.len() ==> !is_white(#[trigger] url[i]),
    ensures
        ({
            let clean = stripped(trimmed(url), no_flags()).0;
            &&& has_prefix(url, clean)
            &&& stripped(trimmed(clean), no_flags()) == (clean, no_flags())
            &&& clean == url <==> stripped(trimmed(url), no_flags()).1 == no_flags()
        }),
{
    lemma_trimmed_without_white(url);
    law_stripped_link_is_prefix(url, no_flags());
    let clean = stripped(url, no_flags()).0;
    assert(clean =~= url.take(clean.len() as int));
    assert forall|i: int| 0 <= i < clean.len() implies !is_white(#[trigger] clean[i]) by {
        assert(clean[i] == url[i]);
    }
    lemma_trimmed_without_white(clean);
    law_all_marks_stripped(url, no_flags(), no_flags());
}

/// A covering mark behind a link is always seen, and taking it off leaves the link with the
/// mark known.
pub proof fn law_spoiler_mark_is_read(link: Seq<char>, flags: UrlFlags)
    ensures
        stripped(link + "+sp"@, flags) == stripped(
            link,
            UrlFlags { force_spoiler: true, ..flags },
        ),
{
    reveal_strlit("+sp");
    let l = lowered(link + "+sp"@);
    assert(l.subrange(link.len() as int, l.len() as int) =~= "+sp"@);
    lemma_strip_one(link + "+sp"@, flags);
    assert((link + "+sp"@).take(link.len() as int) =~= link);
}

fn page_of(link: &str) -> (r: Option<(String, u32)>)
    ensures
        (match r {
            Some(p) => Some((p.0@, p.1)),
            None => None,
        }) == page_mark(link@),
{
    match captures(PAGE_SUFFIX, link) {
        Some(m) => {
            let before: usize = m.before.as_str().unicode_len();
            let whole: usize = link.unicode_len();
            let after: usize = m.after.as_str().unicode_len();
            assert(m@.groups.len() == m.groups@.len());
            assert(link@.take(before as int) =~= m.before@);
            if after != 0 || before >= whole || m.groups.len() <= 1 {
                return None;
            }
            assert(m@.groups[1] == opt_text(m.groups@[1]));
            match &m.groups[1] {
                Some(digits) => match parse_number(digits.as_str(), u32::MAX as u64) {
                    Some(n) => if n >= 1 {
                        Some((m.before, n as u32))
                    } else {
                        None
                    },
                    None => None,
                },
                None => None,
            }
        },
        None => None,
    }
}

/// Takes the marks off the end of a link.
pub fn strip_url_flags(url: &str) -> (r: (String, UrlFlags))
    ensures
        (r.0@, r.1) == stripped(trimmed(url@), no_flags()),
        has_prefix(trimmed(url@), r.0@),
        r.1 == no_flags() <==> r.0@ == trimmed(url@),
{
    proof {
        law_stripped_link_is_prefix(trimmed(url@), no_flags());
    }
    let mut clean = trim(url);
    let mut flags = UrlFlags { force_spoiler: false, page: None };
    let ghost goal = stripped(trimmed(url@), no_flags());
    loop
        invariant
            stripped(clean@, flags) == goal,
        ensures
            (clean@, flags) == goal,
        decreases clean@.len(),
    {
        proof {
            lemma_strip_one(clean@, flags);
            reveal_strlit("+sp");
        }
        if ends_with(lower(clean.as_str()).as_str(), "+sp") {
            let chars = chars_of(clean.as_str());
            assert(chars@.len() == lowered(chars@).len());
            let rest = text_between(&chars, 0, chars.len() - 3);
            assert(rest@ =~= clean@.take(clean@.len() - 3));
            clean = rest;
            flags.force_spoiler = true;
        } else {
            match page_of(clean.as_str()) {
                Some((rest, page)) => {
                    clean = rest;
                    flags.page = Some(page);
                },
                None => {
                    break;
                },
            }
        }
    }
    (clean, flags)
}

/// Whether a word asks for covered media.
pub open spec fn spoiler_word(w: Seq<char>) -> bool {
    w == "+sp"@ || w == "/spoiler"@ || w == "/mask"@
}

/// Whether a message asks for covered media.
pub open spec fn wants_spoiler(l: Seq<char>) -> bool {
    (exists|i: int| 0 <= i < words_of(l).len() && spoiler_word(#[trigger] words_of(l)[i]))
        || has_suffix(l, "+sp"@) || has_prefix(l, "/spoiler"@) || has_prefix(l, "/mask"@)
}

/// A word without the letter that marks a quality.
pub open spec fn quality_digits(w: Seq<char>) -> Seq<char> {
    if w.len() > 0 && w.last() == 'p' {
        w.drop_last()
    } else {
        w
    }
}

/// The quality that a word names.
pub open spec fn quality_word(w: Seq<char>) -> Option<u32> {
    let v = quality_digits(w);
    if v == "360"@ {
        Some(360u32)
    } else if v == "480"@ {
        Some(480u32)
    } else if v == "720"@ {
        Some(720u32)
    } else if v == "1080"@ {
        Some(1080u32)
    } else {
        None
    }
}

/// The first quality that the words, from number `i` on, name.
pub open spec fn first_quality(all: Seq<Seq<char>>, i: int) -> Option<u32>
    decreases all.len() - i,
{
    if i < 0 || i >= all.len() {
        None
    } else if quality_word(all[i]) is Some {
        quality_word(all[i])
    } else {
        first_quality(all, i + 1)
    }
}

/// The page that a word names.
pub open spec fn page_word(w: Seq<char>) -> Option<u32> {
    if !has_prefix(w, "+p"@) {
        None
    } else {
        let v = w.skip("+p"@.len() as int);
        if v.len() > 0 && all_digits(v) {
            match parsed_number(v, u32::MAX as nat) {
                Some(n) => if n >= 1 {
                    Some(n as u32)
                } else {
                    None
                },
                None => None,
            }
        } else {
            None
        }
    }
}

/// The first page that the words, from number `i` on, name.
pub open spec fn first_page(all: Seq<Seq<char>>, i: int) -> Option<u32>
    decreases all.len() - i,
{
    if i < 0 || i >= all.len() {
        None
    } else if page_word(all[i]) is Some {
        page_word(all[i])
    } else {
        first_page(all, i + 1)
    }
}

/// The options that a message asks for. A quality or a page counts only as a word of its own,
/// so that the digits in a link are not taken for one.
pub open spec fn options_of(text: Seq<char>) -> ParseOptionsView {
    let l = lowered(text);
    ParseOptionsView {
        quality: first_quality(words_of(l), 0),
        file_mode: has_prefix(l, "/file"@),
        cover_only: has_prefix(l, "/cover"@),
        force_spoiler: wants_spoiler(l),
        page: first_page(words_of(l), 0),
        media_cache_key: None,
    }
}

fn quality_in(w: &str) -> (r: Option<u32>)
    ensures
        r == quality_word(w@),
{
    let chars = chars_of(w);
    let to: usize = if chars.len() > 0 && chars[chars.len() - 1] == 'p' {
        chars.len() - 1
    } else {
        chars.len()
    };
    let v = text_between(&chars, 0, to);
    assert(v@ =~= quality_digits(w@));
    let v = v.as_str();
    if same(v, "360") {
        Some(360)
    } else if same(v, "480") {
        Some(480)
    } else if same(v, "720") {
        Some(720)
    } else if same(v, "1080") {
        Some(1080)
    } else {
        None
    }
}

fn digits_only(chars: &Vec<char>, from: usize) -> (r: bool)
    requires
        from <= chars@.len(),
    ensures
        r == all_digits(chars@.skip(from as int)),
{
    let mut i: usize = from;
    while i < chars.len()
        invariant
            from <= i <= chars@.len(),
            forall|j: int| from <= j < i ==> is_ascii_digit(#[trigger] chars@[j]),
        decreases chars.len() - i,
    {
        if !ascii_digit(chars[i]) {
            assert(chars@.skip(from as int)[i - from] == chars@[i as int]);
            return false;
        }
        i += 1;
    }
    assert forall|k: int| 0 <= k < chars@.skip(from as int).len() implies is_ascii_digit(
        #[trigger] chars@.skip(from as int)[k],
    ) by {
        assert(chars@.skip(from as int)[k] == chars@[from + k]);
    }
    true
}

fn page_in(w: &str) -> (r: Option<u32>)
    ensures
        r == page_word(w@),
{
    if !starts_with(w, "+p") {
        return None;
    }
    let chars = chars_of(w);
    let from: usize = "+p".unicode_len();
    if chars.len() <= from || !digits_only(&chars, from) {
        return None;
    }
    let v = text_between(&chars, from, chars.len());
    assert(v@ =~= w@.skip(from as int));
    match parse_number(v.as_str(), u32::MAX as u64) {
        Some(n) => if n >= 1 {
            Some(n as u32)
        } else {
            None
        },
        None => None,
    }
}

fn spoiler_in(l: &str, all: &Vec<String>) -> (r: bool)
    requires
        texts(all@) == words_of(l@),
    ensures
        r == wants_spoiler(l@),
{
    let ghost list = words_of(l@);
    let mut found = false;
    let mut i: usize = 0;
    while i < all.len()
        invariant
            i <= all@.len(),
            texts(all@) == list,
            list == words_of(l@),
            found ==> exists|k: int| 0 <= k < list.len() && spoiler_word(#[trigger] list[k]),
            !found ==> forall|k: int| 0 <= k < i ==> !spoiler_word(#[trigger] list[k]),
        decreases all.len() - i,
    {
        assert(list[i as int] == all@[i as int]@);
        let w = all[i].as_str();
        if same(w, "+sp") || same(w, "/spoiler") || same(w, "/mask") {
            assert(spoiler_word(list[i as int]));
            found = true;
        }
        i += 1;
    }
    assert(list.len() == all@.len());
    found || ends_with(l, "+sp") || starts_with(l, "/spoiler") || starts_with(l, "/mask")
}

/// Reads the options that a message asks for.
pub fn parse_options(text: &str) -> (r: ParseOptions)
    ensures
        r@ == options_of(text@),
{
    let l = lower(text);
    let all = words(l.as_str());
    let ghost list = words_of(l@);
    let force_spoiler = spoiler_in(l.as_str(), &all);
    let mut quality: Option<u32> = None;
    let mut i: usize = 0;
    while i < all.len() && quality.is_none()
        invariant
            i <= all@.len(),
            texts(all@) == list,
            quality is None ==> first_quality(list, 0) == first_quality(list, i as int),
            quality is Some ==> first_quality(list, 0) == quality,
        decreases all.len() - i,
    {
        assert(list[i as int] == all@[i as int]@);
        quality = quality_in(all[i].as_str());
        i += 1;
    }
    let mut page: Option<u32> = None;
    let mut k: usize = 0;
    while k < all.len() && page.is_none()
        invariant
            k <= all@.len(),
            texts(all@) == list,
            page is None ==> first_page(list, 0) == first_page(list, k as int),
            page is Some ==> first_page(list, 0) == page,
        decreases all.len() - k,
    {
        assert(list[k as int] == all@[k as int]@);
        page = page_in(all[k].as_str());
        k += 1;
    }
    assert(list.len() == all@.len());
    ParseOptions {
        quality,
        file_mode: starts_with(l.as_str(), "/file"),
        cover_only: starts_with(l.as_str(), "/cover"),
        force_spoiler,
        page,
        media_cache_key: None,
    }
}

} // verus!
