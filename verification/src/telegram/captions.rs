//! The text that goes with the media: the title with its link, a summary, the author and the
//! statistics.
use vstd::prelude::*;

use crate::model::{platform_name, AuthorView, ParsedContent, ParsedContentView, Platform, Stats};
use crate::outside::{
    capture_group, decode_entities, encode_attribute, encode_text, entities_decoded, escaped_char,
    escaped_text, quoted_char, quoted_text, regex_group, regex_removed, remove_all,
};
use crate::text::{
    cat2, cat3, cat5, chars_of, decimal, empty, has_prefix, is_white, join, joined, last_index,
    lemma_texts_empty, lemma_texts_push, number_text, opt_text, or_blank, or_empty, strip_prefix,
    text_between, texts, trim_end_spec, trim_start_char, trim_start_of, white, without_prefix,
};

verus! {

/// The longest caption of media.
pub const CAPTION_LIMIT: usize = 1024;

/// The longest text message.
pub const MESSAGE_LIMIT: usize = 4096;

/// The link with which a caption begins.
pub const SOURCE_ANCHOR: &'static str = r#"^<a href="[^"]+">[^<]*</a>"#;

/// A tag of HTML.
pub const HTML_TAG: &'static str = r"<[^>]+>";

/// A text of at most `max` characters: the last one is an ellipsis where something is missing.
pub open spec fn shortened(text: Seq<char>, max: int) -> Seq<char> {
    if text.len() <= max {
        text
    } else if max <= 0 {
        seq!['…']
    } else {
        text.take(max - 1).push('…')
    }
}

pub fn ellipsize(text: &str, max: usize) -> (r: String)
    ensures
        r@ == shortened(text@, max as int),
{
    let chars = chars_of(text);
    if chars.len() <= max {
        return text.to_owned();
    }
    let count: usize = if max == 0 {
        0
    } else {
        max - 1
    };
    let mut r = text_between(&chars, 0, count);
    r.push('…');
    assert(r@ =~= shortened(text@, max as int));
    r
}

/// The first `n` digits of a number with commas between groups of three.
pub open spec fn grouped(digits: Seq<char>, n: int) -> Seq<char>
    decreases n,
{
    if n <= 0 {
        Seq::empty()
    } else if n > 1 && (digits.len() - (n - 1)) % 3 == 0 {
        grouped(digits, n - 1).push(',').push(digits[n - 1])
    } else {
        grouped(digits, n - 1).push(digits[n - 1])
    }
}

/// A number in decimal digits with commas between groups of three.
pub open spec fn count_text(value: nat) -> Seq<char> {
    grouped(decimal(value), decimal(value).len() as int)
}

proof fn lemma_grouped(digits: Seq<char>, n: int)
    requires
        0 <= n <= digits.len(),
        forall|k: int| 0 <= k < digits.len() ==> #[trigger] digits[k] != ',',
    ensures
        grouped(digits, n).filter(|c: char| c != ',') == digits.take(n),
        n > 0 ==> {
            let left = digits.len() - n;
            let total = digits.len() + (digits.len() - 1) / 3;
            &&& grouped(digits, n).len() == total - left - left / 3
            &&& forall|i: int|
                0 <= i < grouped(digits, n).len() ==> (#[trigger] grouped(digits, n)[i] == ','
                    <==> (total - i) % 4 == 0)
        },
    decreases n,
{
    reveal(Seq::filter);
    let shown = |c: char| c != ',';
    let g = grouped(digits, n);
    if n > 0 {
        lemma_grouped(digits, n - 1);
        let before = grouped(digits, n - 1);
        let last = digits[n - 1];
        assert(g.drop_last().push(last) =~= g);
        if n > 1 && (digits.len() - (n - 1)) % 3 == 0 {
            assert(g.drop_last() =~= before.push(','));
            assert(before.push(',').drop_last() =~= before);
            assert(before.push(',').filter(shown) == before.filter(shown));
        } else {
            assert(g.drop_last() =~= before);
        }
        assert(g.filter(shown) == g.drop_last().filter(shown).push(last));
        assert(digits.take(n) =~= digits.take(n - 1).push(last));
    } else {
        assert(digits.take(0) =~= Seq::<char>::empty());
    }
}

proof fn lemma_decimal_has_no_comma(n: nat)
    ensures
        decimal(n).len() > 0,
        forall|k: int| 0 <= k < decimal(n).len() ==> #[trigger] decimal(n)[k] != ',',
    decreases n,
{
    if n >= 10 {
        lemma_decimal_has_no_comma(n / 10);
    }
}

/// A count without its commas is the number in decimal digits, and the commas stand at every
/// fourth place from the end.
pub proof fn law_count_is_grouped(value: nat)
    ensures
        count_text(value).filter(|c: char| c != ',') == decimal(value),
        forall|i: int|
            0 <= i < count_text(value).len() ==> (#[trigger] count_text(value)[i] == ',' <==> (
            count_text(value).len() - i) % 4 == 0),
{
    let digits = decimal(value);
    lemma_decimal_has_no_comma(value);
    lemma_grouped(digits, digits.len() as int);
    assert(digits.take(digits.len() as int) =~= digits);
}

pub fn format_count(value: u64) -> (r: String)
    ensures
        r@ == count_text(value as nat),
{
    let raw = chars_of(number_text(value).as_str());
    let total: usize = raw.len();
    let mut out = String::new();
    let mut i: usize = 0;
    while i < total
        invariant
            i <= total,
            total == raw@.len(),
            out@ == grouped(raw@, i as int),
        decreases total - i,
    {
        if i > 0 && (total - i) % 3 == 0 {
            out.push(',');
        }
        out.push(raw[i]);
        i += 1;
    }
    out
}

/// A percentage of a number, kept between two bounds.
pub open spec fn share(max: int, percent: int, low: int, high: int) -> int {
    let n = max * percent / 100;
    if n < low {
        low
    } else if n > high {
        high
    } else {
        n
    }
}

fn share_of(max: usize, percent: u8, low: usize, high: usize) -> (r: usize)
    requires
        low <= high,
        percent <= 100,
    ensures
        r == share(max as int, percent as int, low as int, high as int),
{
    assert(max * percent <= usize::MAX * 100) by (nonlinear_arith)
        requires
            max <= usize::MAX,
            percent <= 100,
    ;
    let n: u128 = max as u128 * percent as u128 / 100;
    if n < low as u128 {
        low
    } else if n > high as u128 {
        high
    } else {
        n as usize
    }
}

/// A link in HTML.
pub open spec fn anchor(url: Seq<char>, text: Seq<char>) -> Seq<char> {
    "<a href=\""@ + quoted_text(url, url.len() as int) + "\">"@ + escaped_text(
        text,
        text.len() as int,
    ) + "</a>"@
}

fn link(url: &str, text: &str) -> (r: String)
    ensures
        r@ == anchor(url@, text@),
{
    cat5(
        "<a href=\"",
        encode_attribute(url).as_str(),
        "\">",
        encode_text(text).as_str(),
        "</a>",
    )
}

/// The link to the original page: the platform and the title.
pub open spec fn source_line(c: ParsedContentView, max: int) -> Seq<char> {
    let title = shortened(c.title, share(max, 15, 60, 300));
    anchor(
        c.canonical_url,
        if title.len() == 0 {
            platform_name(c.platform)
        } else {
            platform_name(c.platform) + "："@ + title
        },
    )
}

/// The author, with a link where there is one; none where the author has no name.
pub open spec fn author_line(author: AuthorView, max: int) -> Option<Seq<char>> {
    if author.name.len() == 0 {
        None
    } else {
        let name = shortened(author.name, share(max, 10, 40, 160));
        Some(
            "作者："@ + (match author.url {
                Some(url) => anchor(url, name),
                None => escaped_text(name, name.len() as int),
            }),
        )
    }
}

/// A list with one more statistic, where it is known.
pub open spec fn with_stat(list: Seq<Seq<char>>, label: Seq<char>, value: Option<u64>) -> Seq<
    Seq<char>,
> {
    match value {
        Some(n) => list.push(label + " "@ + count_text(n as nat)),
        None => list,
    }
}

/// What the number of views is called on a platform.
pub open spec fn view_label(platform: Platform) -> Seq<char> {
    match platform {
        Platform::Bilibili | Platform::YouTube => "播放"@,
        _ => "浏览"@,
    }
}

/// The known statistics.
pub open spec fn stat_words(platform: Platform, stats: Stats) -> Seq<Seq<char>> {
    with_stat(
        with_stat(
            with_stat(
                with_stat(Seq::empty(), view_label(platform), stats.views),
                "点赞"@,
                stats.likes,
            ),
            "分享"@,
            stats.reposts,
        ),
        "评论"@,
        stats.replies,
    )
}

/// The statistics; none where nothing is known.
pub open spec fn stats_line(platform: Platform, stats: Stats) -> Option<Seq<char>> {
    let list = stat_words(platform, stats);
    if list.len() == 0 {
        None
    } else {
        Some("<blockquote>"@ + joined(list, "　"@, list.len() as int) + "</blockquote>"@)
    }
}

/// How many items of a collection are listed.
pub const LISTED_ITEMS: usize = 30;

/// The first `n` items of a collection, numbered from one.
pub open spec fn numbered_items(items: Seq<Seq<char>>, n: int) -> Seq<Seq<char>>
    decreases n,
{
    if n <= 0 {
        Seq::empty()
    } else {
        numbered_items(items, n - 1).push(decimal(n as nat) + ". "@ + items[n - 1])
    }
}

/// The items of a collection, one on each line.
pub open spec fn item_list(items: Seq<Seq<char>>) -> Seq<char> {
    let n = if items.len() <= LISTED_ITEMS {
        items.len() as int
    } else {
        LISTED_ITEMS as int
    };
    joined(numbered_items(items, n), "\n"@, n)
}

/// The summary: the text, and the items of a collection behind it.
pub open spec fn summary_of(c: ParsedContentView) -> Seq<char> {
    if c.collection_items.len() == 0 {
        c.text
    } else if c.text.len() == 0 {
        item_list(c.collection_items)
    } else {
        c.text + "\n\n"@ + item_list(c.collection_items)
    }
}

/// How many characters, counted from number `i` on, fit in front of an ellipsis, where `used`
/// characters are used up.
pub open spec fn fit_from(s: Seq<char>, used: int, i: int, budget: int) -> int
    decreases s.len() - i,
{
    if i < 0 || i >= s.len() {
        i
    } else if used + escaped_char(s[i]).len() + 1 > budget {
        i
    } else {
        fit_from(s, used + escaped_char(s[i]).len(), i + 1, budget)
    }
}

/// The last white character before number `to`.
pub open spec fn last_white(s: Seq<char>, to: int) -> Option<int>
    decreases to,
{
    if to <= 0 {
        None
    } else if is_white(s[to - 1]) {
        Some(to - 1)
    } else {
        last_white(s, to - 1)
    }
}

/// Where a text is cut of which `n` characters fit: at the end of a paragraph in the last third,
/// or else at white space in the second half, or else where it has to be.
pub open spec fn cut_at(s: Seq<char>, n: int) -> int {
    match last_index(s, '\n', n + 1) {
        Some(p) => if p * 3 >= n * 2 {
            p
        } else {
            white_cut(s, n)
        },
        None => white_cut(s, n),
    }
}

pub open spec fn white_cut(s: Seq<char>, n: int) -> int {
    match last_white(s, n + 1) {
        Some(p) => if p * 2 >= n {
            p
        } else {
            n
        },
        None => n,
    }
}

/// The part of a summary that is shown where not all of it fits.
pub open spec fn kept_part(s: Seq<char>, budget: int) -> Seq<char> {
    trim_end_spec(s.take(cut_at(s, fit_from(s, 0, 0, budget))))
}

/// A summary with room for `budget` characters of HTML.
pub open spec fn summary_html(s: Seq<char>, budget: int) -> Seq<char> {
    if escaped_text(s, s.len() as int).len() <= budget {
        escaped_text(s, s.len() as int)
    } else {
        escaped_text(kept_part(s, budget), kept_part(s, budget).len() as int).push('…')
    }
}

/// A summary is folded where it is longer than this.
pub const FOLD_LENGTH: usize = 300;

/// The tag with which the block of a summary opens.
pub open spec fn block_tag(s: Seq<char>) -> Seq<char> {
    if s.len() > FOLD_LENGTH {
        "<blockquote expandable>"@
    } else {
        "<blockquote>"@
    }
}

/// The block of a summary with room for `room` characters; none where there is no summary, or
/// no room for any of it.
pub open spec fn summary_block(s: Seq<char>, room: int) -> Option<Seq<char>> {
    let budget = room - block_tag(s).len() - "</blockquote>"@.len();
    if s.len() == 0 || budget < 1 {
        None
    } else {
        Some(block_tag(s) + summary_html(s, budget) + "</blockquote>"@)
    }
}

/// A line behind a line break, where there is one.
pub open spec fn next_line(line: Option<Seq<char>>) -> Seq<char> {
    match line {
        Some(l) => "\n"@ + l,
        None => Seq::empty(),
    }
}

/// How many characters the caption has without its summary.
pub open spec fn frame_length(c: ParsedContentView, max: int) -> int {
    (source_line(c, max).len() + next_line(author_line(c.author, max)).len() + next_line(
        stats_line(c.platform, c.stats),
    ).len()) as int
}

/// The caption before it is brought down to its limit: the summary has the room that the other
/// parts leave.
pub open spec fn full_caption(c: ParsedContentView, max: int) -> Seq<char> {
    source_line(c, max) + next_line(
        summary_block(summary_of(c), max - frame_length(c, max) - "\n"@.len()),
    ) + next_line(author_line(c.author, max)) + next_line(stats_line(c.platform, c.stats))
}

/// The text with as many of the characters of `plain`, from number `i` on, as leave room for an
/// ellipsis.
pub open spec fn filled_up(text: Seq<char>, plain: Seq<char>, i: int, max: int) -> Seq<char>
    decreases plain.len() - i,
{
    if i < 0 || i >= plain.len() || text.len() + escaped_char(plain[i]).len() + 1 > max {
        text
    } else {
        filled_up(text + escaped_char(plain[i]), plain, i + 1, max)
    }
}

/// The link to the original page, and as much plain text behind it as there is room for. A link
/// that does not fit is left out: it is never cut.
pub open spec fn plain_caption(source: Seq<char>, plain: Seq<char>, max: int) -> Seq<char> {
    let prefix = if source.len() == 0 {
        Seq::empty()
    } else {
        source + "\n\n"@
    };
    if prefix.len() + 1 >= max {
        if source.len() <= max {
            source
        } else {
            Seq::empty()
        }
    } else {
        filled_up(prefix, plain, 0, max).push('…')
    }
}

/// The link with which a text begins.
pub open spec fn leading_anchor(text: Seq<char>) -> Seq<char> {
    or_blank(regex_group(SOURCE_ANCHOR@, text, 0))
}

/// The plain text behind the link with which a text begins.
pub open spec fn plain_body(text: Seq<char>) -> Seq<char> {
    let rest = match without_prefix(text, leading_anchor(text)) {
        Some(r) => r,
        None => text,
    };
    entities_decoded(regex_removed(HTML_TAG@, trim_start_of(rest, '\n')))
}

/// A text of HTML of at most `max` characters. Where it is longer, only the link to the original
/// page keeps its tags.
pub open spec fn truncated(text: Seq<char>, max: int) -> Seq<char> {
    if text.len() <= max {
        text
    } else {
        plain_caption(leading_anchor(text), plain_body(text), max)
    }
}

/// The caption of a piece of content, of at most `max` characters.
pub open spec fn caption_of(c: ParsedContentView, max: int) -> Seq<char> {
    truncated(full_caption(c, max), max)
}

proof fn lemma_filled_up(text: Seq<char>, plain: Seq<char>, i: int, max: int)
    requires
        text.len() + 1 <= max,
    ensures
        filled_up(text, plain, i, max).len() + 1 <= max,
    decreases plain.len() - i,
{
    if !(i < 0 || i >= plain.len() || text.len() + escaped_char(plain[i]).len() + 1 > max) {
        lemma_filled_up(text + escaped_char(plain[i]), plain, i + 1, max);
    }
}

/// A caption is never longer than its limit.
pub proof fn law_caption_is_bounded(c: ParsedContentView, max: int)
    requires
        0 <= max,
    ensures
        caption_of(c, max).len() <= max,
{
    law_truncated_is_bounded(full_caption(c, max), max);
}

/// Truncated HTML is never longer than its limit, and HTML within the limit stays as it is.
pub proof fn law_truncated_is_bounded(text: Seq<char>, max: int)
    requires
        0 <= max,
    ensures
        truncated(text, max).len() <= max,
        text.len() <= max ==> truncated(text, max) == text,
{
    if text.len() > max {
        let source = leading_anchor(text);
        let prefix = if source.len() == 0 {
            Seq::empty()
        } else {
            source + "\n\n"@
        };
        if prefix.len() + 1 < max {
            lemma_filled_up(prefix, plain_body(text), 0, max);
        }
    }
}

/// Whether a text ends inside a tag: behind the last `<` no `>` follows.
pub open spec fn ends_in_tag(s: Seq<char>) -> bool {
    exists|i: int|
        0 <= i < s.len() && #[trigger] s[i] == '<' && forall|j: int|
            i < j < s.len() ==> #[trigger] s[j] != '>'
}

/// Whether a text ends inside an entity: behind the last `&` no `;` follows.
pub open spec fn ends_in_entity(s: Seq<char>) -> bool {
    exists|i: int|
        0 <= i < s.len() && #[trigger] s[i] == '&' && forall|j: int|
            i < j < s.len() ==> #[trigger] s[j] != ';'
}

/// What stands between the link to the original page and the text behind it.
pub open spec fn link_break(source: Seq<char>) -> Seq<char> {
    if source.len() == 0 {
        Seq::empty()
    } else {
        "\n\n"@
    }
}

proof fn lemma_filled_up_is_escaped(
    start: Seq<char>,
    plain: Seq<char>,
    i: int,
    max: int,
) -> (k: int)
    requires
        0 <= i <= plain.len(),
    ensures
        i <= k <= plain.len(),
        filled_up(start + escaped_text(plain, i), plain, i, max) == start + escaped_text(plain, k),
    decreases plain.len() - i,
{
    let text = start + escaped_text(plain, i);
    if i >= plain.len() || text.len() + escaped_char(plain[i]).len() + 1 > max {
        i
    } else {
        assert(text + escaped_char(plain[i]) =~= start + escaped_text(plain, i + 1));
        lemma_filled_up_is_escaped(start, plain, i + 1, max)
    }
}

/// Truncated HTML is the text itself, the whole link with which it begins, that link with the
/// beginning of the plain text behind it and an ellipsis, or nothing where the link does not fit.
/// A link that fits is always kept whole.
pub proof fn law_truncated_keeps_link_whole(text: Seq<char>, max: int)
    requires
        0 <= max,
    ensures
        ({
            let source = leading_anchor(text);
            let plain = plain_body(text);
            ||| text.len() <= max && truncated(text, max) == text
            ||| text.len() > max && source.len() <= max && truncated(text, max) == source
            ||| text.len() > max && source.len() <= max && exists|k: int|
                0 <= k <= plain.len() && truncated(text, max) == (source + link_break(source)
                    + #[trigger] escaped_text(plain, k)).push('…')
            ||| text.len() > max && source.len() > max && truncated(text, max).len() == 0
        }),
        text.len() > max && leading_anchor(text).len() <= max ==> has_prefix(
            truncated(text, max),
            leading_anchor(text),
        ),
{
    let source = leading_anchor(text);
    let plain = plain_body(text);
    let prefix = source + link_break(source);
    if text.len() > max && prefix.len() + 1 < max {
        assert(prefix =~= (if source.len() == 0 {
            Seq::empty()
        } else {
            source + "\n\n"@
        }));
        assert(prefix + escaped_text(plain, 0) =~= prefix);
        let k = lemma_filled_up_is_escaped(prefix, plain, 0, max);
        let r = (prefix + escaped_text(plain, k)).push('…');
        assert(r.take(source.len() as int) =~= source);
    } else {
        assert(source.take(source.len() as int) =~= source);
    }
}

proof fn lemma_escaped_is_whole(s: Seq<char>, n: int)
    requires
        0 <= n <= s.len(),
    ensures
        !ends_in_entity(escaped_text(s, n)),
    decreases n,
{
    reveal_strlit("&amp;");
    reveal_strlit("&lt;");
    reveal_strlit("&gt;");
    if n > 0 {
        lemma_escaped_is_whole(s, n - 1);
        let a = escaped_text(s, n - 1);
        let b = escaped_char(s[n - 1]);
        assert(b[0] == '&' ==> b.last() == ';');
        assert(forall|i: int| 0 < i < b.len() ==> b[i] != '&');
        let all = a + b;
        assert forall|i: int| 0 <= i < all.len() && #[trigger] all[i] == '&' implies exists|j: int|
            i < j < all.len() && #[trigger] all[j] == ';' by {
            if i < a.len() {
                assert(a[i] == '&');
                let j = choose|j: int| i < j < a.len() && #[trigger] a[j] == ';';
                assert(all[j] == ';');
            } else {
                assert(b[i - a.len()] == '&');
                assert(i == a.len());
                assert(all[all.len() - 1] == ';');
            }
        }
    }
}

proof fn lemma_whole_parts(a: Seq<char>, b: Seq<char>)
    ensures
        !ends_in_tag(a) && !ends_in_tag(b) ==> !ends_in_tag(a + b),
        !ends_in_entity(a) && !ends_in_entity(b) ==> !ends_in_entity(a + b),
{
    let all = a + b;
    if !ends_in_tag(a) && !ends_in_tag(b) {
        assert forall|i: int| 0 <= i < all.len() && #[trigger] all[i] == '<' implies exists|j: int|
            i < j < all.len() && #[trigger] all[j] == '>' by {
            if i < a.len() {
                assert(a[i] == '<');
                let j = choose|j: int| i < j < a.len() && #[trigger] a[j] == '>';
                assert(all[j] == '>');
            } else {
                assert(b[i - a.len()] == '<');
                let j = choose|j: int| i - a.len() < j < b.len() && #[trigger] b[j] == '>';
                assert(all[j + a.len()] == '>');
            }
        }
    }
    if !ends_in_entity(a) && !ends_in_entity(b) {
        assert forall|i: int| 0 <= i < all.len() && #[trigger] all[i] == '&' implies exists|j: int|
            i < j < all.len() && #[trigger] all[j] == ';' by {
            if i < a.len() {
                assert(a[i] == '&');
                let j = choose|j: int| i < j < a.len() && #[trigger] a[j] == ';';
                assert(all[j] == ';');
            } else {
                assert(b[i - a.len()] == '&');
                let j = choose|j: int| i - a.len() < j < b.len() && #[trigger] b[j] == ';';
                assert(all[j + a.len()] == ';');
            }
        }
    }
}

/// Truncated HTML never ends inside a tag or an entity, where neither the text nor the link with
/// which it begins does.
pub proof fn law_truncated_is_not_cut_in_markup(text: Seq<char>, max: int)
    requires
        0 <= max,
        !ends_in_tag(text) && !ends_in_entity(text),
        !ends_in_tag(leading_anchor(text)) && !ends_in_entity(leading_anchor(text)),
    ensures
        !ends_in_tag(truncated(text, max)),
        !ends_in_entity(truncated(text, max)),
{
    reveal_strlit("\n\n");
    let source = leading_anchor(text);
    let plain = plain_body(text);
    law_truncated_keeps_link_whole(text, max);
    if truncated(text, max) != text && truncated(text, max) != source && truncated(text, max).len()
        > 0 {
        let k = choose|k: int|
            0 <= k <= plain.len() && truncated(text, max) == (source + link_break(source)
                + #[trigger] escaped_text(plain, k)).push('…');
        law_escaped_is_text(plain, k);
        lemma_escaped_is_whole(plain, k);
        let gap = link_break(source);
        let rest = escaped_text(plain, k);
        let end = seq!['…'];
        lemma_whole_parts(source, gap);
        lemma_whole_parts(source + gap, rest);
        lemma_whole_parts(source + gap + rest, end);
        assert(source + gap + rest + end =~= (source + gap + rest).push('…'));
    }
}

proof fn lemma_escaped_grows(s: Seq<char>, m: int, n: int)
    requires
        0 <= m <= n,
    ensures
        escaped_text(s, m).len() <= escaped_text(s, n).len(),
    decreases n,
{
    if m < n {
        lemma_escaped_grows(s, m, n - 1);
    }
}

proof fn lemma_escaped_prefix(s: Seq<char>, k: int, n: int)
    requires
        0 <= n <= k <= s.len(),
    ensures
        escaped_text(s.take(k), n) == escaped_text(s, n),
    decreases n,
{
    if n > 0 {
        lemma_escaped_prefix(s, k, n - 1);
        assert(s.take(k)[n - 1] == s[n - 1]);
    }
}

proof fn lemma_trim_end_is_prefix(s: Seq<char>) -> (k: int)
    ensures
        0 <= k <= s.len(),
        trim_end_spec(s) == s.take(k),
    decreases s.len(),
{
    if s.len() > 0 && is_white(s.last()) {
        let k = lemma_trim_end_is_prefix(s.drop_last());
        assert(s.drop_last().take(k) =~= s.take(k));
        k
    } else {
        assert(s.take(s.len() as int) =~= s);
        s.len() as int
    }
}

proof fn lemma_fit(s: Seq<char>, used: int, i: int, budget: int)
    requires
        0 <= i <= s.len(),
        used == escaped_text(s, i).len(),
        used + 1 <= budget,
    ensures
        i <= fit_from(s, used, i, budget) <= s.len(),
        escaped_text(s, fit_from(s, used, i, budget)).len() + 1 <= budget,
        escaped_text(s, s.len() as int).len() > budget ==> fit_from(s, used, i, budget) < s.len(),
    decreases s.len() - i,
{
    if i < s.len() && used + escaped_char(s[i]).len() + 1 <= budget {
        assert(escaped_text(s, i + 1).len() == used + escaped_char(s[i]).len());
        lemma_fit(s, used + escaped_char(s[i]).len(), i + 1, budget);
    }
}

proof fn lemma_last_index_bound(s: Seq<char>, c: char, to: int)
    ensures
        last_index(s, c, to) matches Some(p) ==> 0 <= p < to,
    decreases to,
{
    if to > 0 && s[to - 1] != c {
        lemma_last_index_bound(s, c, to - 1);
    }
}

proof fn lemma_last_white_bound(s: Seq<char>, to: int)
    ensures
        last_white(s, to) matches Some(p) ==> 0 <= p < to,
    decreases to,
{
    if to > 0 && !is_white(s[to - 1]) {
        lemma_last_white_bound(s, to - 1);
    }
}

proof fn lemma_cut_bound(s: Seq<char>, n: int)
    requires
        0 <= n,
    ensures
        0 <= cut_at(s, n) <= n,
{
    lemma_last_index_bound(s, '\n', n + 1);
    lemma_last_white_bound(s, n + 1);
}

/// The HTML of a summary is never longer than the room for it.
pub proof fn law_summary_fits(s: Seq<char>, budget: int)
    requires
        budget >= 1,
    ensures
        summary_html(s, budget).len() <= budget,
{
    if escaped_text(s, s.len() as int).len() > budget {
        lemma_fit(s, 0, 0, budget);
        let n = fit_from(s, 0, 0, budget);
        lemma_cut_bound(s, n);
        let p = cut_at(s, n);
        let k = lemma_trim_end_is_prefix(s.take(p));
        assert(s.take(p).take(k) =~= s.take(k));
        lemma_escaped_prefix(s, k, k);
        lemma_escaped_grows(s, k, n);
    }
}

/// Where the title, the author and the statistics fit into the limit, the caption holds them
/// whole, whatever the length of the summary: only the summary is shortened.
pub proof fn law_caption_keeps_frame(c: ParsedContentView, max: int)
    requires
        frame_length(c, max) <= max,
    ensures
        caption_of(c, max) == full_caption(c, max),
        full_caption(c, max).len() <= max,
{
    let s = summary_of(c);
    let room = max - frame_length(c, max) - "\n"@.len();
    let budget = room - block_tag(s).len() - "</blockquote>"@.len();
    if s.len() > 0 && budget >= 1 {
        law_summary_fits(s, budget);
    }
}

/// A summary that fits is shown whole.
pub proof fn law_short_summary_is_whole(s: Seq<char>, budget: int)
    requires
        escaped_text(s, s.len() as int).len() <= budget,
    ensures
        summary_html(s, budget) == escaped_text(s, s.len() as int),
{
}

/// Escaped text holds no markup, and escaped attributes hold no quotation mark either: what
/// comes from a platform is never read as HTML.
pub proof fn law_escaped_is_text(s: Seq<char>, n: int)
    requires
        0 <= n <= s.len(),
    ensures
        forall|i: int|
            0 <= i < escaped_text(s, n).len() ==> #[trigger] escaped_text(s, n)[i] != '<'
                && escaped_text(s, n)[i] != '>',
        forall|i: int|
            0 <= i < quoted_text(s, n).len() ==> #[trigger] quoted_text(s, n)[i] != '<'
                && quoted_text(s, n)[i] != '>' && quoted_text(s, n)[i] != '"',
    decreases n,
{
    reveal_strlit("&amp;");
    reveal_strlit("&lt;");
    reveal_strlit("&gt;");
    reveal_strlit("&quot;");
    if n > 0 {
        law_escaped_is_text(s, n - 1);
        let a = escaped_text(s, n - 1);
        let b = escaped_char(s[n - 1]);
        assert(forall|i: int| 0 <= i < b.len() ==> b[i] != '<' && b[i] != '>');
        assert forall|i: int| 0 <= i < (a + b).len() implies (#[trigger] (a + b)[i]) != '<' && (a
            + b)[i] != '>' by {
            if i < a.len() {
                assert((a + b)[i] == a[i]);
            } else {
                assert((a + b)[i] == b[i - a.len()]);
            }
        }
        let p = quoted_text(s, n - 1);
        let q = quoted_char(s[n - 1]);
        assert(forall|i: int| 0 <= i < q.len() ==> q[i] != '<' && q[i] != '>' && q[i] != '"');
        assert forall|i: int| 0 <= i < (p + q).len() implies (#[trigger] (p + q)[i]) != '<' && (p
            + q)[i] != '>' && (p + q)[i] != '"' by {
            if i < p.len() {
                assert((p + q)[i] == p[i]);
            } else {
                assert((p + q)[i] == q[i - p.len()]);
            }
        }
    }
}

fn source_in(content: &ParsedContent, max: usize) -> (r: String)
    ensures
        r@ == source_line(content@, max as int),
{
    let title = ellipsize(content.title.as_str(), share_of(max, 15, 60, 300));
    let name = content.platform.as_str();
    if empty(title.as_str()) {
        link(content.canonical_url.as_str(), name)
    } else {
        link(
            content.canonical_url.as_str(),
            cat3(name, "：", title.as_str()).as_str(),
        )
    }
}

fn author_in(content: &ParsedContent, max: usize) -> (r: Option<String>)
    ensures
        opt_text(r) == author_line(content@.author, max as int),
{
    if empty(content.author.name.as_str()) {
        return None;
    }
    let name = ellipsize(content.author.name.as_str(), share_of(max, 10, 40, 160));
    Some(
        match &content.author.url {
            Some(url) => cat2("作者：", link(url.as_str(), name.as_str()).as_str()),
            None => cat2("作者：", encode_text(name.as_str()).as_str()),
        },
    )
}

fn add_stat(list: &mut Vec<String>, label: &str, value: Option<u64>)
    ensures
        texts(final(list)@) == with_stat(texts(old(list)@), label@, value),
{
    broadcast use {lemma_texts_push, lemma_texts_empty};

    match value {
        Some(n) => {
            list.push(cat3(label, " ", format_count(n).as_str()));
        },
        None => {},
    }
}

fn stats_in(platform: Platform, stats: Stats) -> (r: Option<String>)
    ensures
        opt_text(r) == stats_line(platform, stats),
{
    broadcast use {lemma_texts_push, lemma_texts_empty};

    let label = match platform {
        Platform::Bilibili | Platform::YouTube => "播放",
        _ => "浏览",
    };
    let mut list: Vec<String> = Vec::new();
    add_stat(&mut list, label, stats.views);
    add_stat(&mut list, "点赞", stats.likes);
    add_stat(&mut list, "分享", stats.reposts);
    add_stat(&mut list, "评论", stats.replies);
    assert(texts(list@).len() == list@.len());
    if list.len() == 0 {
        return None;
    }
    Some(cat3("<blockquote>", join(&list, "　").as_str(), "</blockquote>"))
}

fn items_in(items: &Vec<String>) -> (r: String)
    ensures
        r@ == item_list(texts(items@)),
{
    broadcast use {lemma_texts_push, lemma_texts_empty};

    let ghost all = texts(items@);
    let count: usize = if items.len() <= LISTED_ITEMS {
        items.len()
    } else {
        LISTED_ITEMS
    };
    let mut lines: Vec<String> = Vec::new();
    let mut i: usize = 0;
    while i < count
        invariant
            i <= count <= items@.len(),
            count <= LISTED_ITEMS,
            all == texts(items@),
            lines@.len() == i,
            texts(lines@) == numbered_items(all, i as int),
        decreases count - i,
    {
        broadcast use {lemma_texts_push, lemma_texts_empty};

        assert(all[i as int] == items@[i as int]@);
        lines.push(cat3(number_text(i as u64 + 1).as_str(), ". ", items[i].as_str()));
        i += 1;
    }
    join(&lines, "\n")
}

fn summary_in(content: &ParsedContent) -> (r: String)
    ensures
        r@ == summary_of(content@),
{
    assert(content@.collection_items.len() == content.collection_items@.len());
    if content.collection_items.len() == 0 {
        return content.text.clone();
    }
    let list = items_in(&content.collection_items);
    if empty(content.text.as_str()) {
        list
    } else {
        cat3(content.text.as_str(), "\n\n", list.as_str())
    }
}

fn escaped_one(c: char) -> (r: String)
    ensures
        r@ == escaped_char(c),
{
    let mut one = String::new();
    one.push(c);
    assert(one@ =~= seq![c]);
    let r = encode_text(one.as_str());
    assert(escaped_text(one@, 0) =~= Seq::<char>::empty());
    assert(escaped_text(one@, 1) =~= escaped_char(c));
    r
}

fn fitting(chars: &Vec<char>, budget: usize) -> (r: usize)
    requires
        budget >= 1,
    ensures
        r == fit_from(chars@, 0, 0, budget as int),
        r <= chars@.len(),
{
    let mut used: usize = 0;
    let mut i: usize = 0;
    while i < chars.len()
        invariant
            i <= chars@.len(),
            used < budget,
            fit_from(chars@, 0, 0, budget as int) == fit_from(
                chars@,
                used as int,
                i as int,
                budget as int,
            ),
        decreases chars.len() - i,
    {
        let one = escaped_one(chars[i]);
        let length: usize = one.as_str().unicode_len();
        if length >= budget - used {
            return i;
        }
        used += length;
        i += 1;
    }
    i
}

fn find_white(chars: &Vec<char>, to: usize) -> (r: Option<usize>)
    requires
        to <= chars@.len(),
    ensures
        match r {
            Some(p) => last_white(chars@, to as int) == Some(p as int) && p < to,
            None => last_white(chars@, to as int) is None,
        },
{
    let mut i: usize = to;
    while i > 0
        invariant
            i <= to <= chars@.len(),
            last_white(chars@, to as int) == last_white(chars@, i as int),
        decreases i,
    {
        if white(chars[i - 1]) {
            return Some(i - 1);
        }
        i -= 1;
    }
    None
}

fn find_break(chars: &Vec<char>, to: usize) -> (r: Option<usize>)
    requires
        to <= chars@.len(),
    ensures
        match r {
            Some(p) => last_index(chars@, '\n', to as int) == Some(p as int) && p < to,
            None => last_index(chars@, '\n', to as int) is None,
        },
{
    let mut i: usize = to;
    while i > 0
        invariant
            i <= to <= chars@.len(),
            last_index(chars@, '\n', to as int) == last_index(chars@, '\n', i as int),
        decreases i,
    {
        if chars[i - 1] == '\n' {
            return Some(i - 1);
        }
        i -= 1;
    }
    None
}

fn cut(chars: &Vec<char>, n: usize) -> (r: usize)
    requires
        n < chars@.len(),
    ensures
        r == cut_at(chars@, n as int),
        r <= n,
{
    let total: usize = chars.len();
    assert(n < total);
    match find_break(chars, n + 1) {
        Some(p) => {
            if p as u128 * 3 >= n as u128 * 2 {
                return p;
            }
        },
        None => {},
    }
    match find_white(chars, n + 1) {
        Some(p) => if p as u128 * 2 >= n as u128 {
            p
        } else {
            n
        },
        None => n,
    }
}

fn trimmed_to(chars: &Vec<char>, to: usize) -> (r: String)
    requires
        to <= chars@.len(),
    ensures
        r@ == trim_end_spec(chars@.take(to as int)),
{
    let mut end: usize = to;
    while end > 0 && white(chars[end - 1])
        invariant
            end <= to <= chars@.len(),
            trim_end_spec(chars@.take(to as int)) == trim_end_spec(chars@.take(end as int)),
        decreases end,
    {
        assert(chars@.take(end as int).drop_last() =~= chars@.take(end - 1));
        end -= 1;
    }
    let r = text_between(chars, 0, end);
    assert(r@ =~= chars@.take(end as int));
    r
}

fn summary_in_room(summary: &str, budget: usize) -> (r: String)
    requires
        budget >= 1,
    ensures
        r@ == summary_html(summary@, budget as int),
{
    let whole = encode_text(summary);
    let length: usize = whole.as_str().unicode_len();
    if length <= budget {
        return whole;
    }
    let chars = chars_of(summary);
    proof {
        lemma_fit(chars@, 0, 0, budget as int);
    }
    let n = fitting(&chars, budget);
    let kept = trimmed_to(&chars, cut(&chars, n));
    let mut r = encode_text(kept.as_str());
    r.push('…');
    r
}

fn block_in(summary: &str, room: Option<usize>) -> (r: Option<String>)
    ensures
        match room {
            Some(n) => opt_text(r) == summary_block(summary@, n as int),
            None => r is None,
        },
{
    let room = match room {
        Some(n) => n,
        None => {
            return None;
        },
    };
    let count: usize = summary.unicode_len();
    if count == 0 {
        return None;
    }
    let tag = if count > FOLD_LENGTH {
        "<blockquote expandable>"
    } else {
        "<blockquote>"
    };
    let tag_length: usize = tag.unicode_len();
    let end_length: usize = "</blockquote>".unicode_len();
    if room < tag_length || room - tag_length < end_length || room - tag_length - end_length < 1 {
        return None;
    }
    let inner = summary_in_room(summary, room - tag_length - end_length);
    Some(cat3(tag, inner.as_str(), "</blockquote>"))
}

fn add_line(text: &mut String, line: &Option<String>)
    ensures
        final(text)@ == old(text)@ + next_line(opt_text(*line)),
{
    match line {
        Some(l) => {
            let ghost before = text@;
            text.append("\n");
            text.append(l.as_str());
            assert(text@ =~= before + ("\n"@ + l@));
        },
        None => {
            assert(text@ =~= text@ + Seq::<char>::empty());
        },
    }
}

/// The link to the original page, and as much plain text behind it as there is room for. A link
/// that does not fit is left out.
pub fn caption_plain(source: &str, plain: &str, max: usize) -> (r: String)
    ensures
        r@ == plain_caption(source@, plain@, max as int),
        r@.len() <= max,
{
    let mut text = String::new();
    if !empty(source) {
        text = cat2(source, "\n\n");
    }
    let ghost prefix = if source@.len() == 0 {
        Seq::empty()
    } else {
        source@ + "\n\n"@
    };
    assert(text@ =~= prefix);
    let length: usize = text.as_str().unicode_len();
    if length >= max || max - length <= 1 {
        let whole: usize = source.unicode_len();
        return if whole <= max {
            source.to_owned()
        } else {
            String::new()
        };
    }
    proof {
        lemma_filled_up(prefix, plain@, 0, max as int);
    }
    let letters = chars_of(plain);
    let mut used: usize = length;
    let mut i: usize = 0;
    let mut full = false;
    while i < letters.len() && !full
        invariant
            i <= letters@.len(),
            letters@ == plain@,
            used == text@.len(),
            used < max,
            !full ==> filled_up(prefix, plain@, 0, max as int) == filled_up(
                text@,
                plain@,
                i as int,
                max as int,
            ),
            full ==> filled_up(prefix, plain@, 0, max as int) == text@,
        decreases letters.len() - i + (if full {
            0int
        } else {
            1int
        }),
    {
        let one = escaped_one(letters[i]);
        let size: usize = one.as_str().unicode_len();
        if size >= max - used {
            full = true;
        } else {
            text.append(one.as_str());
            used += size;
            i += 1;
        }
    }
    text.push('…');
    text
}

/// Brings HTML down to at most `max` characters without breaking a tag or an entity of the text.
pub fn truncate_html(text: &str, max: usize) -> (r: String)
    ensures
        r@ == truncated(text@, max as int),
        r@.len() <= max,
{
    let length: usize = text.unicode_len();
    if length <= max {
        return text.to_owned();
    }
    let source = or_empty(capture_group(SOURCE_ANCHOR, text, 0));
    let rest = match strip_prefix(text, source.as_str()) {
        Some(rest) => rest,
        None => text.to_owned(),
    };
    let body = trim_start_char(rest.as_str(), '\n');
    let plain = decode_entities(remove_all(HTML_TAG, body.as_str()).as_str());
    caption_plain(source.as_str(), plain.as_str(), max)
}

/// The caption of a piece of content before it is brought down to its limit.
pub fn caption_whole(content: &ParsedContent, max: usize) -> (r: String)
    ensures
        r@ == full_caption(content@, max as int),
{
    let source = source_in(content, max);
    let author = author_in(content, max);
    let stats = stats_in(content.platform, content.stats);
    let mut tail = String::new();
    add_line(&mut tail, &author);
    add_line(&mut tail, &stats);
    let ghost frame = frame_length(content@, max as int);
    let source_length: usize = source.as_str().unicode_len();
    let tail_length: usize = tail.as_str().unicode_len();
    assert(source_length + tail_length == frame);
    let break_length: usize = "\n".unicode_len();
    let room: Option<usize> = if max < source_length || max - source_length < tail_length || max
        - source_length - tail_length < break_length {
        None
    } else {
        Some(max - source_length - tail_length - break_length)
    };
    let summary = summary_in(content);
    let block = block_in(summary.as_str(), room);
    let mut text = source;
    add_line(&mut text, &block);
    text.append(tail.as_str());
    assert(text@ =~= full_caption(content@, max as int));
    text
}

/// The caption of a piece of content, of at most `max` characters.
pub fn caption(content: &ParsedContent, max: usize) -> (r: String)
    ensures
        r@ == caption_of(content@, max as int),
        r@.len() <= max,
{
    truncate_html(caption_whole(content, max).as_str(), max)
}

} // verus!
