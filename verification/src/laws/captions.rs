//! Captions.
use vstd::prelude::*;

use crate::model::{AuthorView, ParsedContentView, Platform, Stats};
use crate::outside::{escaped_char, escaped_text, quoted_text, regex_group};
use crate::telegram::captions::{
    author_line, block_tag, caption_of, count_text, cut_at, filled_up, fit_from, frame_length,
    full_caption, item_list, kept_part, last_white, law_caption_keeps_frame, leading_anchor,
    next_line, numbered_items, plain_body, share, shortened, source_line, stat_words, stats_line,
    summary_block, summary_html, summary_of, truncated, SOURCE_ANCHOR,
};
use crate::text::{decimal, has_prefix, is_white, joined, last_index, trim_end_spec};

verus! {

/// The word of a statistic.
pub open spec fn stat_word(label: Seq<char>, n: u64) -> Seq<char> {
    label + " "@ + count_text(n as nat)
}

/// What the number of views is called: it is played on Bilibili and YouTube, and seen elsewhere.
pub open spec fn views_label(platform: Platform) -> Seq<char> {
    if platform == Platform::Bilibili || platform == Platform::YouTube {
        "播放"@
    } else {
        "浏览"@
    }
}

/// The number of statistics that are known among the first `n` of views, likes, reposts and
/// replies.
pub open spec fn known(stats: Stats, n: int) -> int {
    (if n > 0 && stats.views is Some {
        1int
    } else {
        0
    }) + (if n > 1 && stats.likes is Some {
        1int
    } else {
        0
    }) + (if n > 2 && stats.reposts is Some {
        1int
    } else {
        0
    }) + (if n > 3 && stats.replies is Some {
        1int
    } else {
        0
    })
}

/// Each known statistic is shown behind its own label, once, in the order of views, likes, shares
/// and comments; an unknown one is not shown.
pub proof fn law_each_statistic_has_its_label(platform: Platform, stats: Stats)
    ensures
        ({
            let words = stat_words(platform, stats);
            &&& words.len() == known(stats, 4)
            &&& stats.views matches Some(n) ==> words[0] == stat_word(views_label(platform), n)
            &&& stats.likes matches Some(n) ==> words[known(stats, 1)] == stat_word("点赞"@, n)
            &&& stats.reposts matches Some(n) ==> words[known(stats, 2)] == stat_word("分享"@, n)
            &&& stats.replies matches Some(n) ==> words[known(stats, 3)] == stat_word("评论"@, n)
        }),
{
}

/// A label does not appear where its number is unknown.
pub proof fn law_unknown_statistics_are_left_out(platform: Platform, stats: Stats, i: int)
    requires
        0 <= i < stat_words(platform, stats).len(),
    ensures
        has_prefix(stat_words(platform, stats)[i], "点赞"@) ==> stats.likes is Some,
        has_prefix(stat_words(platform, stats)[i], "分享"@) ==> stats.reposts is Some,
        has_prefix(stat_words(platform, stats)[i], "评论"@) ==> stats.replies is Some,
        has_prefix(stat_words(platform, stats)[i], views_label(platform)) ==> stats.views is Some,
{
    reveal_strlit("点赞");
    reveal_strlit("分享");
    reveal_strlit("评论");
    reveal_strlit("播放");
    reveal_strlit("浏览");
    let word = stat_words(platform, stats)[i];
    assert(has_prefix(word, "点赞"@) ==> word[0] == word.subrange(0, 2)[0]);
    assert(has_prefix(word, "分享"@) ==> word[0] == word.subrange(0, 2)[0]);
    assert(has_prefix(word, "评论"@) ==> word[0] == word.subrange(0, 2)[0]);
    assert(has_prefix(word, views_label(platform)) ==> word[0] == word.subrange(0, 2)[0]);
}

/// The statistics are their words with a wide blank between them, in a block; there is none where
/// nothing is known.
pub proof fn law_statistics_block(platform: Platform, stats: Stats)
    ensures
        ({
            let words = stat_words(platform, stats);
            &&& known(stats, 4) == 0 ==> stats_line(platform, stats) is None
            &&& known(stats, 4) > 0 ==> stats_line(platform, stats) == Some(
                "<blockquote>"@ + joined(words, "　"@, words.len() as int) + "</blockquote>"@,
            )
        }),
{
}

/// Four statistics in full.
pub proof fn law_all_statistics(platform: Platform, v: u64, l: u64, r: u64, c: u64)
    ensures
        stats_line(
            platform,
            Stats { views: Some(v), likes: Some(l), reposts: Some(r), replies: Some(c) },
        ) == Some(
            "<blockquote>"@ + (stat_word(views_label(platform), v) + "　"@ + stat_word("点赞"@, l)
                + "　"@ + stat_word("分享"@, r) + "　"@ + stat_word("评论"@, c)) + "</blockquote>"@,
        ),
{
    reveal_with_fuel(joined, 5);
}

/// A text is shortened to its beginning: nothing is lost where it fits, and otherwise the last of
/// the characters that may be shown is an ellipsis.
pub proof fn law_shortened(text: Seq<char>, max: int)
    requires
        max > 0,
    ensures
        text.len() <= max ==> shortened(text, max) == text,
        text.len() > max ==> shortened(text, max).len() == max && shortened(text, max).last() == '…'
            && shortened(text, max).drop_last() == text.take(max - 1),
{
    if text.len() > max {
        assert(shortened(text, max).drop_last() =~= text.take(max - 1));
    }
}

/// A caption begins with the link to the page of the content, which shows the platform and the
/// title; titles of at most sixty characters are shown in full.
pub proof fn law_caption_begins_with_link(c: ParsedContentView, max: int)
    requires
        0 <= max,
    ensures
        has_prefix(full_caption(c, max), source_line(c, max)),
        c.title.len() == 0 ==> source_line(c, max) == "<a href=\""@ + quoted_text(
            c.canonical_url,
            c.canonical_url.len() as int,
        ) + "\">"@ + escaped_text(
            name_shown(c.platform),
            name_shown(c.platform).len() as int,
        ) + "</a>"@,
        0 < c.title.len() <= 60 ==> source_line(c, max) == "<a href=\""@ + quoted_text(
            c.canonical_url,
            c.canonical_url.len() as int,
        ) + "\">"@ + escaped_text(
            name_shown(c.platform) + "："@ + c.title,
            (name_shown(c.platform) + "："@ + c.title).len() as int,
        ) + "</a>"@,
{
    let first = source_line(c, max);
    let all = full_caption(c, max);
    assert(all.subrange(0, first.len() as int) =~= first);
    assert(share(max, 15, 60, 300) >= 60);
}

/// How a platform is shown.
pub open spec fn name_shown(platform: Platform) -> Seq<char> {
    match platform {
        Platform::X => "x"@,
        Platform::YouTube => "youtube"@,
        Platform::Pixiv => "pixiv"@,
        Platform::Bilibili => "bilibili"@,
        Platform::Netease => "netease"@,
    }
}

/// The author is named, as a link where the page of the author is known; names of at most forty
/// characters are shown in full. An author without a name is not shown.
pub proof fn law_author_line(author: AuthorView, max: int)
    requires
        0 <= max,
    ensures
        author.name.len() == 0 ==> author_line(author, max) is None,
        0 < author.name.len() <= 40 && author.url is None ==> author_line(author, max) == Some(
            "作者："@ + escaped_text(author.name, author.name.len() as int),
        ),
        0 < author.name.len() <= 40 && author.url is Some ==> author_line(author, max) == Some(
            "作者："@ + ("<a href=\""@ + quoted_text(author.url->0, author.url->0.len() as int)
                + "\">"@ + escaped_text(author.name, author.name.len() as int) + "</a>"@),
        ),
{
    assert(share(max, 10, 40, 160) >= 40);
}

/// A caption whose parts all fit shows them all: the link, the whole text, the author and the
/// statistics, each on a line of its own and in this order.
pub proof fn law_caption_that_fits(c: ParsedContentView, max: int)
    requires
        c.collection_items.len() == 0,
        c.text.len() > 0,
        frame_length(c, max) + 1 + block_tag(c.text).len() + escaped_text(
            c.text,
            c.text.len() as int,
        ).len() + "</blockquote>"@.len() <= max,
    ensures
        caption_of(c, max) == source_line(c, max) + "\n"@ + (if c.text.len() > 300 {
            "<blockquote expandable>"@
        } else {
            "<blockquote>"@
        }) + escaped_text(c.text, c.text.len() as int) + "</blockquote>"@ + (match author_line(
            c.author,
            max,
        ) {
            Some(line) => "\n"@ + line,
            None => Seq::empty(),
        }) + (match stats_line(c.platform, c.stats) {
            Some(line) => "\n"@ + line,
            None => Seq::empty(),
        }),
{
    reveal_strlit("\n");
    law_caption_keeps_frame(c, max);
    let tag = block_tag(c.text);
    let html = escaped_text(c.text, c.text.len() as int);
    let end = "</blockquote>"@;
    let a = source_line(c, max);
    let author = next_line(author_line(c.author, max));
    let stats = next_line(stats_line(c.platform, c.stats));
    assert(html.len() > 0) by {
        lemma_escaped_is_longer(c.text, c.text.len() as int);
    }
    assert(summary_block(summary_of(c), max - frame_length(c, max) - 1) == Some(tag + html + end));
    assert(a + ("\n"@ + (tag + html + end)) + author + stats =~= a + "\n"@ + tag + html + end
        + author + stats);
}

proof fn lemma_escaped_is_longer(s: Seq<char>, n: int)
    requires
        0 <= n <= s.len(),
    ensures
        escaped_text(s, n).len() >= n,
    decreases n,
{
    if n > 0 {
        reveal_strlit("&amp;");
        reveal_strlit("&lt;");
        reveal_strlit("&gt;");
        lemma_escaped_is_longer(s, n - 1);
    }
}

/// The items of a collection are listed one on each line, numbered from one, at most thirty of
/// them: line number `i` is that of item number `i`.
pub proof fn law_items_are_numbered(items: Seq<Seq<char>>, n: int)
    requires
        0 <= n <= items.len(),
    ensures
        numbered_items(items, n).len() == n,
        forall|i: int|
            0 <= i < n ==> #[trigger] numbered_items(items, n)[i] == decimal((i + 1) as nat) + ". "@
                + items[i],
        items.len() <= 30 ==> item_list(items) == joined(
            numbered_items(items, items.len() as int),
            "\n"@,
            items.len() as int,
        ),
        items.len() > 30 ==> item_list(items) == joined(numbered_items(items, 30), "\n"@, 30),
    decreases n,
{
    if n > 0 {
        law_items_are_numbered(items, n - 1);
    }
}

/// The summary is the text, with the items of a collection behind it.
pub proof fn law_summary(c: ParsedContentView)
    ensures
        c.collection_items.len() == 0 ==> summary_of(c) == c.text,
        c.collection_items.len() > 0 && c.text.len() == 0 ==> summary_of(c) == item_list(
            c.collection_items,
        ),
        c.collection_items.len() > 0 && c.text.len() > 0 ==> summary_of(c) == c.text + "\n\n"@
            + item_list(c.collection_items),
{
}

proof fn lemma_fit(s: Seq<char>, used: int, i: int, budget: int)
    requires
        0 <= i <= s.len(),
        used == escaped_text(s, i).len(),
        used + 1 <= budget,
    ensures
        ({
            let k = fit_from(s, used, i, budget);
            &&& i <= k <= s.len()
            &&& escaped_text(s, k).len() + 1 <= budget
            &&& k < s.len() ==> escaped_text(s, k + 1).len() + 1 > budget
        }),
    decreases s.len() - i,
{
    if i < s.len() && used + escaped_char(s[i]).len() + 1 <= budget {
        lemma_fit(s, used + escaped_char(s[i]).len(), i + 1, budget);
    }
}

/// As many characters of a summary are taken as fit in front of an ellipsis, and not one less.
pub proof fn law_summary_takes_what_fits(s: Seq<char>, budget: int)
    requires
        budget >= 1,
    ensures
        ({
            let k = fit_from(s, 0, 0, budget);
            &&& 0 <= k <= s.len()
            &&& escaped_text(s, k).len() + 1 <= budget
            &&& k < s.len() ==> escaped_text(s, k + 1).len() + 1 > budget
        }),
{
    lemma_fit(s, 0, 0, budget);
}

proof fn lemma_last_white(s: Seq<char>, to: int)
    requires
        0 <= to <= s.len(),
    ensures
        match last_white(s, to) {
            Some(p) => 0 <= p < to && is_white(s[p]) && forall|i: int|
                p < i < to ==> !is_white(#[trigger] s[i]),
            None => forall|i: int| 0 <= i < to ==> !is_white(#[trigger] s[i]),
        },
    decreases to,
{
    if to > 0 && !is_white(s[to - 1]) {
        lemma_last_white(s, to - 1);
    }
}

proof fn lemma_last_break(s: Seq<char>, to: int)
    requires
        0 <= to <= s.len(),
    ensures
        match last_index(s, '\n', to) {
            Some(p) => 0 <= p < to && s[p] == '\n' && forall|i: int|
                p < i < to ==> #[trigger] s[i] != '\n',
            None => forall|i: int| 0 <= i < to ==> #[trigger] s[i] != '\n',
        },
    decreases to,
{
    if to > 0 && s[to - 1] != '\n' {
        lemma_last_break(s, to - 1);
    }
}

/// A summary that does not fit is cut between paragraphs or words where that costs little: at the
/// last line break where a third or less is lost by it, or else at the last white space where at
/// most half is lost, or else where it has to be.
pub proof fn law_summary_is_cut_between_words(s: Seq<char>, n: int, p: int)
    requires
        0 <= n < s.len(),
        0 <= p <= n,
    ensures
        0 <= cut_at(s, n) <= n,
        s[p] == '\n' && 3 * p >= 2 * n ==> cut_at(s, n) >= p && s[cut_at(s, n)] == '\n',
        is_white(s[p]) && 2 * p >= n ==> cut_at(s, n) * 2 >= n && is_white(s[cut_at(s, n)]),
        (forall|i: int| 0 <= i <= n ==> !is_white(#[trigger] s[i])) ==> cut_at(s, n) == n,
{
    lemma_last_white(s, n + 1);
    lemma_last_break(s, n + 1);
    assert(is_white('\n'));
}

/// A summary that does not fit is shown by its beginning and an ellipsis.
pub proof fn law_summary_is_beginning(s: Seq<char>, budget: int) -> (k: int)
    requires
        budget >= 1,
        escaped_text(s, s.len() as int).len() > budget,
    ensures
        0 <= k <= s.len(),
        kept_part(s, budget) == s.take(k),
        k <= fit_from(s, 0, 0, budget),
        summary_html(s, budget) == escaped_text(s.take(k), k).push('…'),
{
    lemma_fit(s, 0, 0, budget);
    let n = fit_from(s, 0, 0, budget);
    lemma_cut(s, n);
    let part = s.take(cut_at(s, n));
    let k = lemma_trim_end(part);
    assert(part.take(k) =~= s.take(k));
    k
}

proof fn lemma_cut(s: Seq<char>, n: int)
    requires
        0 <= n <= s.len(),
    ensures
        0 <= cut_at(s, n) <= n,
{
    lemma_bounds(s, n + 1);
}

proof fn lemma_bounds(s: Seq<char>, to: int)
    ensures
        last_index(s, '\n', to) matches Some(p) ==> 0 <= p < to,
        last_white(s, to) matches Some(p) ==> 0 <= p < to,
    decreases to,
{
    if to > 0 {
        lemma_bounds(s, to - 1);
    }
}

proof fn lemma_trim_end(s: Seq<char>) -> (k: int)
    ensures
        0 <= k <= s.len(),
        trim_end_spec(s) == s.take(k),
    decreases s.len(),
{
    if s.len() > 0 && is_white(s.last()) {
        let k = lemma_trim_end(s.drop_last());
        assert(s.drop_last().take(k) =~= s.take(k));
        k
    } else {
        assert(s.take(s.len() as int) =~= s);
        s.len() as int
    }
}

/// A length is a share of the whole, in hundredths, between two bounds.
proof fn lemma_share(max: int, percent: int, low: int, high: int)
    requires
        0 <= max,
        0 < percent,
        0 < low < high,
    ensures
        ({
            let n = share(max, percent, low, high);
            &&& low <= n <= high
            &&& n > low ==> 100 * n <= max * percent
            &&& n < high ==> 100 * (n + 1) > max * percent
        }),
{
    assert(max * percent >= 0) by (nonlinear_arith)
        requires
            0 <= max,
            0 < percent,
    ;
}

/// The title takes up to fifteen hundredths of the caption, between 60 and 300 characters.
pub proof fn law_title_is_shortened(c: ParsedContentView, max: int) -> (n: int)
    requires
        0 <= max,
        c.title.len() > 0,
    ensures
        60 <= n <= 300,
        n > 60 ==> 100 * n <= 15 * max,
        n < 300 ==> 100 * (n + 1) > 15 * max,
        ({
            let words = name_shown(c.platform) + "："@ + shortened(c.title, n);
            source_line(c, max) == "<a href=\""@ + quoted_text(
                c.canonical_url,
                c.canonical_url.len() as int,
            ) + "\">"@ + escaped_text(words, words.len() as int) + "</a>"@
        }),
{
    lemma_share(max, 15, 60, 300);
    let n = share(max, 15, 60, 300);
    law_shortened(c.title, n);
    n
}

/// The name of the author takes up to ten hundredths of the caption, between 40 and 160
/// characters.
pub proof fn law_author_is_shortened(author: AuthorView, max: int) -> (n: int)
    requires
        0 <= max,
        author.name.len() > 0,
    ensures
        40 <= n <= 160,
        n > 40 ==> 100 * n <= 10 * max,
        n < 160 ==> 100 * (n + 1) > 10 * max,
        ({
            let name = shortened(author.name, n);
            let shown = escaped_text(name, name.len() as int);
            &&& author.url is None ==> author_line(author, max) == Some("作者："@ + shown)
            &&& author.url is Some ==> author_line(author, max) == Some(
                "作者："@ + ("<a href=\""@ + quoted_text(author.url->0, author.url->0.len() as int)
                    + "\">"@ + shown + "</a>"@),
            )
        }),
{
    lemma_share(max, 10, 40, 160);
    share(max, 10, 40, 160)
}

proof fn lemma_filled(start: Seq<char>, plain: Seq<char>, i: int, max: int) -> (k: int)
    requires
        0 <= i <= plain.len(),
    ensures
        i <= k <= plain.len(),
        filled_up(start + escaped_text(plain, i), plain, i, max) == start + escaped_text(plain, k),
        k < plain.len() ==> start.len() + escaped_text(plain, k + 1).len() + 1 > max,
    decreases plain.len() - i,
{
    let text = start + escaped_text(plain, i);
    if i >= plain.len() || text.len() + escaped_char(plain[i]).len() + 1 > max {
        i
    } else {
        assert(text + escaped_char(plain[i]) =~= start + escaped_text(plain, i + 1));
        lemma_filled(start, plain, i + 1, max)
    }
}

/// A text that is too long keeps the link with which it begins, and as much of the plain text
/// behind it as fits with an ellipsis; the next character would not.
pub proof fn law_as_much_as_fits(text: Seq<char>, max: int) -> (k: int)
    requires
        text.len() > max,
        leading_anchor(text).len() > 0,
        leading_anchor(text).len() + 3 < max,
    ensures
        ({
            let start = leading_anchor(text) + "\n\n"@;
            let plain = plain_body(text);
            &&& 0 <= k <= plain.len()
            &&& truncated(text, max) == (start + escaped_text(plain, k)).push('…')
            &&& k < plain.len() ==> start.len() + escaped_text(plain, k + 1).len() + 1 > max
        }),
{
    reveal_strlit("\n\n");
    let start = leading_anchor(text) + "\n\n"@;
    let plain = plain_body(text);
    assert(start + escaped_text(plain, 0) =~= start);
    lemma_filled(start, plain, 0, max)
}

/// A text is cut at the last white space, where no line ends in its last third and the white space
/// is not before its middle.
pub proof fn law_cut_at_white_space(s: Seq<char>, n: int, q: int)
    requires
        0 <= q <= n < s.len(),
        is_white(s[q]),
        2 * q >= n,
        forall|i: int| q < i <= n ==> !is_white(#[trigger] s[i]),
        forall|i: int| 0 <= i <= n && #[trigger] s[i] == '\n' ==> 3 * i < 2 * n,
    ensures
        cut_at(s, n) == q,
{
    lemma_white_at(s, n + 1, q);
    lemma_last_newline(s, n + 1);
}

/// A text whose white space is all before its middle is cut where it is full.
pub proof fn law_cut_where_full(s: Seq<char>, n: int)
    requires
        0 <= n < s.len(),
        forall|i: int| 0 <= i <= n && is_white(#[trigger] s[i]) ==> 2 * i < n,
    ensures
        cut_at(s, n) == n,
{
    lemma_last_newline(s, n + 1);
    lemma_white_before(s, n + 1, n);
}

proof fn lemma_white_at(s: Seq<char>, to: int, q: int)
    requires
        0 <= q < to <= s.len(),
        is_white(s[q]),
        forall|i: int| q < i < to ==> !is_white(#[trigger] s[i]),
    ensures
        last_white(s, to) == Some(q),
    decreases to,
{
    if q < to - 1 {
        lemma_white_at(s, to - 1, q);
    }
}

proof fn lemma_last_newline(s: Seq<char>, to: int)
    requires
        0 <= to <= s.len(),
    ensures
        last_index(s, '\n', to) matches Some(p) ==> 0 <= p < to && s[p] == '\n',
    decreases to,
{
    if to > 0 && s[to - 1] != '\n' {
        lemma_last_newline(s, to - 1);
    }
}

proof fn lemma_white_before(s: Seq<char>, to: int, n: int)
    requires
        0 <= to <= n + 1 <= s.len(),
        forall|i: int| 0 <= i <= n && is_white(#[trigger] s[i]) ==> 2 * i < n,
    ensures
        last_white(s, to) matches Some(p) ==> 2 * p < n,
    decreases to,
{
    if to > 0 && !is_white(s[to - 1]) {
        lemma_white_before(s, to - 1, n);
    }
}

/// The link with which a text begins is all that its pattern finds.
pub proof fn law_link_of_text(text: Seq<char>, link: Seq<char>)
    ensures
        regex_group(SOURCE_ANCHOR@, text, 0) == Some(link) ==> leading_anchor(text) == link,
        regex_group(SOURCE_ANCHOR@, text, 0) is None ==> leading_anchor(text).len() == 0,
{
}

} // verus!
