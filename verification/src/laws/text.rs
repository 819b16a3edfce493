//! Texts.
use vstd::prelude::*;

use crate::text::{
    after_last, decimal, digits_value, distinct_of, find_from, find_part, first_of, has_part,
    has_prefix, has_suffix, is_ascii_digit, is_white, joined, last_index, law_decimal_read_back,
    lowered, number_digits, occurs_at, or_blank, parsed_number, replaced, split_at_part, split_done,
    split_parts, split_tail, trim_end_of, trim_end_spec, trim_start_of, trim_start_spec, trimmed,
    without_prefix, word_tail, words_done, words_of,
};

use super::{in_order, lemma_in_order_push};

verus! {

/// A text begins, ends or goes on with another one exactly where it can be written so.
pub proof fn law_parts_of_text(a: Seq<char>, part: Seq<char>, b: Seq<char>)
    ensures
        has_prefix(part + b, part),
        has_suffix(a + part, part),
        has_part(a + part + b, part),
        without_prefix(part + b, part) == Some(b),
        has_prefix(a, part) ==> a == part + a.skip(part.len() as int),
        has_suffix(a, part) ==> a == a.take(a.len() - part.len()) + part,
        without_prefix(a, part) is Some <==> has_prefix(a, part),
{
    assert((part + b).subrange(0, part.len() as int) =~= part);
    assert((part + b).skip(part.len() as int) =~= b);
    assert((a + part).subrange(a.len() as int, (a + part).len() as int) =~= part);
    assert(occurs_at(a + part + b, part, a.len() as int)) by {
        assert((a + part + b).subrange(a.len() as int, a.len() as int + part.len()) =~= part);
    }
    if has_prefix(a, part) {
        assert(a.subrange(0, part.len() as int) =~= part);
        assert(a =~= a.subrange(0, part.len() as int) + a.skip(part.len() as int));
    }
    if has_suffix(a, part) {
        assert(a =~= a.take(a.len() - part.len()) + a.subrange(
            a.len() - part.len(),
            a.len() as int,
        ));
    }
}

proof fn lemma_find(s: Seq<char>, part: Seq<char>, from: int)
    requires
        0 <= from,
    ensures
        match find_from(s, part, from) {
            Some(at) => from <= at && occurs_at(s, part, at) && forall|i: int|
                from <= i < at ==> !#[trigger] occurs_at(s, part, i),
            None => forall|i: int| from <= i ==> !#[trigger] occurs_at(s, part, i),
        },
    decreases s.len() - from + 1,
{
    if from <= s.len() && !occurs_at(s, part, from) {
        lemma_find(s, part, from + 1);
    }
}

/// A part is found where it first occurs, and exactly where it occurs at all; a text is split
/// there into what stands before and behind.
pub proof fn law_first_occurrence(s: Seq<char>, part: Seq<char>)
    ensures
        find_part(s, part) is Some <==> has_part(s, part),
        find_part(s, part) matches Some(at) ==> {
            &&& s == s.take(at) + part + s.skip(at + part.len())
            &&& forall|i: int| 0 <= i < at ==> !#[trigger] occurs_at(s, part, i)
            &&& split_at_part(s, part) == Some((s.take(at), s.skip(at + part.len())))
        },
        find_part(s, part) is None ==> split_at_part(s, part) is None,
{
    lemma_find(s, part, 0);
    match find_part(s, part) {
        Some(at) => {
            assert(s =~= s.take(at) + s.subrange(at, at + part.len()) + s.skip(at + part.len()));
        },
        None => {
            if has_part(s, part) {
                let at = choose|at: int| occurs_at(s, part, at);
                assert(!occurs_at(s, part, at));
            }
        },
    }
}

/// A text is parted at the first of the characters that part it.
pub proof fn law_parted(a: Seq<char>, c: char, b: Seq<char>)
    requires
        !a.contains(c),
    ensures
        split_at_part(a.push(c) + b, seq![c]) == Some((a, b)),
        split_at_part(a, seq![c]) is None,
{
    let s = a.push(c) + b;
    law_first_occurrence(s, seq![c]);
    law_first_occurrence(a, seq![c]);
    assert(s.subrange(a.len() as int, a.len() as int + 1) =~= seq![c]);
    assert(occurs_at(s, seq![c], a.len() as int));
    assert forall|i: int| 0 <= i < a.len() implies !#[trigger] occurs_at(s, seq![c], i) by {
        assert(a.contains(a[i]));
        if occurs_at(s, seq![c], i) {
            assert(s.subrange(i, i + 1)[0] == s[i]);
            assert(s.subrange(i, i + 1)[0] == c);
        }
    }
    lemma_find(s, seq![c], 0);
    assert(find_part(s, seq![c]) == Some(a.len() as int));
    assert(s.take(a.len() as int) =~= a);
    assert(s.skip(a.len() as int + 1) =~= b);
    assert forall|i: int| !#[trigger] occurs_at(a, seq![c], i) by {
        if occurs_at(a, seq![c], i) {
            assert(a.contains(a[i]));
            assert(a.subrange(i, i + 1)[0] == a[i]);
        }
    }
}

/// What stands behind the last of a character is what follows it, and holds it no more.
pub proof fn law_behind_last(a: Seq<char>, c: char, b: Seq<char>)
    requires
        !b.contains(c),
    ensures
        after_last(a.push(c) + b, c) == Some(b),
        after_last(b, c) is None,
{
    let s = a.push(c) + b;
    lemma_last(s, c, s.len() as int, a.len() as int);
    lemma_none(b, c, b.len() as int);
    assert(s.skip(a.len() as int + 1) =~= b);
}

/// The last of the characters is found.
pub proof fn lemma_last(s: Seq<char>, c: char, to: int, at: int)
    requires
        0 <= at < to <= s.len(),
        s[at] == c,
        forall|i: int| at < i < to ==> #[trigger] s[i] != c,
    ensures
        last_index(s, c, to) == Some(at),
    decreases to,
{
    if to - 1 > at {
        assert(s[to - 1] != c);
        lemma_last(s, c, to - 1, at);
    }
}

/// A character that does not occur is not found.
pub proof fn lemma_none(s: Seq<char>, c: char, to: int)
    requires
        0 <= to <= s.len(),
        !s.contains(c),
    ensures
        last_index(s, c, to) is None,
    decreases to,
{
    if to > 0 {
        assert(s.contains(s[to - 1]));
        lemma_none(s, c, to - 1);
    }
}

proof fn lemma_split_same(a: Seq<char>, b: Seq<char>, c: char, n: int)
    requires
        0 <= n <= a.len(),
        n <= b.len(),
        forall|i: int| 0 <= i < n ==> a[i] == b[i],
    ensures
        split_tail(a, c, n) == split_tail(b, c, n),
        split_done(a, c, n) == split_done(b, c, n),
    decreases n,
{
    if n > 0 {
        lemma_split_same(a, b, c, n - 1);
    }
}

proof fn lemma_split_more(a: Seq<char>, c: char, b: Seq<char>, n: int)
    requires
        !b.contains(c),
        0 <= n <= b.len(),
    ensures
        ({
            let s = a.push(c) + b;
            let m = a.len() as int + 1 + n;
            &&& split_done(s, c, m) == split_done(a, c, a.len() as int).push(
                split_tail(a, c, a.len() as int),
            )
            &&& split_tail(s, c, m) == b.take(n)
        }),
    decreases n,
{
    let s = a.push(c) + b;
    let m = a.len() as int + 1 + n;
    if n == 0 {
        assert(s[a.len() as int] == c);
        lemma_split_same(s, a, c, a.len() as int);
        assert(b.take(0) =~= Seq::<char>::empty());
    } else {
        lemma_split_more(a, c, b, n - 1);
        assert(s[m - 1] == b[n - 1]);
        assert(b.contains(b[n - 1]));
        assert(b.take(n - 1).push(b[n - 1]) =~= b.take(n));
    }
}

/// A text is split at every occurrence of a character and nowhere else: a text without it is one
/// part, and behind each occurrence the next part begins.
pub proof fn law_split(a: Seq<char>, c: char, b: Seq<char>)
    requires
        !b.contains(c),
    ensures
        split_parts(b, c) == seq![b],
        split_parts(a.push(c) + b, c) == split_parts(a, c).push(b),
{
    let s = a.push(c) + b;
    lemma_split_more(a, c, b, b.len() as int);
    assert(b.take(b.len() as int) =~= b);
    lemma_split_alone(b, c, b.len() as int);
    assert(split_parts(b, c) =~= seq![b]);
    assert(split_parts(s, c) =~= split_parts(a, c).push(b));
}

proof fn lemma_split_alone(b: Seq<char>, c: char, n: int)
    requires
        !b.contains(c),
        0 <= n <= b.len(),
    ensures
        split_done(b, c, n) == Seq::<Seq<char>>::empty(),
        split_tail(b, c, n) == b.take(n),
    decreases n,
{
    if n > 0 {
        lemma_split_alone(b, c, n - 1);
        assert(b.contains(b[n - 1]));
        assert(b.take(n - 1).push(b[n - 1]) =~= b.take(n));
    } else {
        assert(b.take(0) =~= Seq::<char>::empty());
    }
}

proof fn lemma_joined_same(a: Seq<Seq<char>>, b: Seq<Seq<char>>, sep: Seq<char>, n: int)
    requires
        0 <= n <= a.len(),
        n <= b.len(),
        forall|i: int| 0 <= i < n ==> a[i] == b[i],
    ensures
        joined(a, sep, n) == joined(b, sep, n),
    decreases n,
{
    if n > 0 {
        lemma_joined_same(a, b, sep, n - 1);
    }
}

/// What stands before the first separator is the first part.
pub proof fn law_first_part(a: Seq<char>, c: char, b: Seq<char>)
    requires
        !a.contains(c),
    ensures
        split_parts(a, c)[0] == a,
        split_parts(a.push(c) + b, c)[0] == a,
{
    let s = a.push(c) + b;
    lemma_split_alone(a, c, a.len() as int);
    assert(a.take(a.len() as int) =~= a);
    lemma_first_part(a, c, s, s.len() as int);
}

proof fn lemma_first_part(a: Seq<char>, c: char, s: Seq<char>, n: int)
    requires
        !a.contains(c),
        a.len() < n <= s.len(),
        forall|i: int| 0 <= i < a.len() ==> a[i] == s[i],
        s[a.len() as int] == c,
    ensures
        split_done(s, c, n).len() > 0,
        split_done(s, c, n)[0] == a,
    decreases n,
{
    if n == a.len() + 1 {
        lemma_split_same(a, s, c, a.len() as int);
        lemma_split_alone(a, c, a.len() as int);
        assert(a.take(a.len() as int) =~= a);
    } else {
        lemma_first_part(a, c, s, n - 1);
    }
}

/// Joined parts stand one after another with the separator between two of them, and nowhere else.
pub proof fn law_joined(parts: Seq<Seq<char>>, part: Seq<char>, sep: Seq<char>)
    ensures
        joined(Seq::empty(), sep, 0) == Seq::<char>::empty(),
        joined(seq![part], sep, 1) == part,
        parts.len() > 0 ==> joined(parts.push(part), sep, parts.len() as int + 1) == joined(
            parts,
            sep,
            parts.len() as int,
        ) + sep + part,
{
    lemma_joined_same(parts.push(part), parts, sep, parts.len() as int);
    assert(parts.push(part)[parts.len() as int] == part);
}

/// Splitting a text and joining the parts gives the text back.
pub proof fn law_split_and_joined(s: Seq<char>, c: char)
    ensures
        joined(split_parts(s, c), seq![c], split_parts(s, c).len() as int) == s,
    decreases s.len(),
{
    if s.contains(c) {
        lemma_has_last(s, c, s.len() as int);
        let at = last_index(s, c, s.len() as int)->0;
        let a = s.take(at);
        let b = s.skip(at + 1);
        assert(!b.contains(c)) by {
            if b.contains(c) {
                let i = choose|i: int| 0 <= i < b.len() && b[i] == c;
                assert(s[at + 1 + i] == c);
            }
        }
        assert(s =~= a.push(c) + b);
        law_split(a, c, b);
        law_split_and_joined(a, c);
        law_joined(split_parts(a, c), b, seq![c]);
        assert(a + seq![c] + b =~= s);
    } else {
        law_split(s, c, s);
        assert(split_parts(s, c)[0] == s);
    }
}

proof fn lemma_has_last(s: Seq<char>, c: char, to: int)
    requires
        0 <= to <= s.len(),
        exists|i: int| 0 <= i < to && s[i] == c,
    ensures
        last_index(s, c, to) matches Some(at) && 0 <= at < to && s[at] == c && forall|i: int|
            at < i < to ==> #[trigger] s[i] != c,
    decreases to,
{
    if to > 0 && s[to - 1] != c {
        lemma_has_last(s, c, to - 1);
    }
}

/// Whether a text holds nothing but white space.
pub open spec fn all_white(s: Seq<char>) -> bool {
    forall|i: int| 0 <= i < s.len() ==> is_white(#[trigger] s[i])
}

proof fn lemma_trim_start(s: Seq<char>) -> (k: int)
    ensures
        0 <= k <= s.len(),
        trim_start_spec(s) == s.skip(k),
        all_white(s.take(k)),
        k < s.len() ==> !is_white(s[k]),
    decreases s.len(),
{
    if s.len() > 0 && is_white(s[0]) {
        let k = lemma_trim_start(s.skip(1));
        assert(s.skip(1).skip(k) =~= s.skip(k + 1));
        assert forall|i: int| 0 <= i < s.take(k + 1).len() implies is_white(
            #[trigger] s.take(k + 1)[i],
        ) by {
            if i > 0 {
                assert(s.skip(1).take(k)[i - 1] == s[i]);
            }
        }
        k + 1
    } else {
        assert(s.skip(0) =~= s);
        0
    }
}

proof fn lemma_trim_end(s: Seq<char>) -> (k: int)
    ensures
        0 <= k <= s.len(),
        trim_end_spec(s) == s.take(k),
        all_white(s.skip(k)),
        k > 0 ==> !is_white(s[k - 1]),
    decreases s.len(),
{
    if s.len() > 0 && is_white(s.last()) {
        let k = lemma_trim_end(s.drop_last());
        assert(s.drop_last().take(k) =~= s.take(k));
        assert forall|i: int| 0 <= i < s.skip(k).len() implies is_white(#[trigger] s.skip(k)[i]) by {
            if k + i < s.len() - 1 {
                assert(s.drop_last().skip(k)[i] == s[k + i]);
            }
        }
        k
    } else {
        assert(s.take(s.len() as int) =~= s);
        s.len() as int
    }
}

/// Trimming takes off white space at both ends, all of it, and nothing else.
pub proof fn law_trimmed(s: Seq<char>) -> (r: (Seq<char>, Seq<char>))
    ensures
        s == r.0 + trimmed(s) + r.1,
        all_white(r.0) && all_white(r.1),
        trimmed(s).len() > 0 ==> !is_white(trimmed(s)[0]) && !is_white(trimmed(s).last()),
{
    let a = lemma_trim_start(s);
    let rest = s.skip(a);
    let b = lemma_trim_end(rest);
    let t = trimmed(s);
    assert(t == rest.take(b));
    assert(s =~= s.take(a) + t + rest.skip(b));
    if t.len() > 0 {
        assert(t[0] == s[a]);
        assert(t.last() == rest[b - 1]);
    }
    (s.take(a), rest.skip(b))
}

/// A character is taken off an end of a text as often as it stands there.
pub proof fn law_trimmed_of_character(s: Seq<char>, c: char)
    ensures
        trim_start_of(seq![c] + s, c) == trim_start_of(s, c),
        trim_end_of(s.push(c), c) == trim_end_of(s, c),
        s.len() == 0 || s[0] != c ==> trim_start_of(s, c) == s,
        s.len() == 0 || s.last() != c ==> trim_end_of(s, c) == s,
{
    let a = seq![c] + s;
    assert(a.skip(1) =~= s);
    assert(s.push(c).drop_last() =~= s);
}

/// Letters from A to Z become small, and nothing else changes.
pub proof fn law_lowered(s: Seq<char>, i: int)
    requires
        0 <= i < s.len(),
    ensures
        lowered(s).len() == s.len(),
        65 <= s[i] as u32 <= 90 ==> lowered(s)[i] as u32 == s[i] as u32 + 32,
        !(65 <= s[i] as u32 <= 90) ==> lowered(s)[i] == s[i],
{
}

/// Every occurrence of a character is replaced, and nothing else.
pub proof fn law_replaced(s: Seq<char>, c: char, with: Seq<char>, next: char)
    ensures
        replaced(s.push(next), c, with, s.len() as int + 1) == replaced(s, c, with, s.len() as int)
            + (if next == c {
            with
        } else {
            seq![next]
        }),
        replaced(Seq::empty(), c, with, 0).len() == 0,
{
    lemma_replaced_same(s.push(next), s, c, with, s.len() as int);
    assert(s.push(next)[s.len() as int] == next);
    assert(replaced(s, c, with, s.len() as int).push(next) =~= replaced(s, c, with, s.len() as int)
        + seq![next]);
}

proof fn lemma_replaced_same(a: Seq<char>, b: Seq<char>, c: char, with: Seq<char>, n: int)
    requires
        0 <= n <= a.len(),
        n <= b.len(),
        forall|i: int| 0 <= i < n ==> a[i] == b[i],
    ensures
        replaced(a, c, with, n) == replaced(b, c, with, n),
    decreases n,
{
    if n > 0 {
        lemma_replaced_same(a, b, c, with, n - 1);
    }
}

/// A number is read digit by digit, each ten times worth the next, up to a largest one.
pub proof fn law_number_is_read(s: Seq<char>, d: nat, max: nat)
    requires
        d < 10,
        parsed_number(s, max) is Some,
    ensures
        ({
            let n = 10 * parsed_number(s, max)->0 + d;
            let digit = ((d + 48) as u8) as char;
            &&& n <= max ==> parsed_number(s.push(digit), max) == Some(n)
            &&& n > max ==> parsed_number(s.push(digit), max) is None
            &&& d <= max ==> parsed_number(seq![digit], max) == Some(d)
        }),
        parsed_number(Seq::empty(), max) is None,
{
    let digit = ((d + 48) as u8) as char;
    let t = s.push(digit);
    let old = number_digits(s);
    let new = number_digits(t);
    assert(new =~= old.push(digit));
    lemma_digits_same(new, old, old.len() as int);
    assert forall|i: int| 0 <= i < new.len() implies is_ascii_digit(#[trigger] new[i]) by {
        if i < old.len() {
            assert(new[i] == old[i]);
        }
    }
    let one = seq![digit];
    assert(number_digits(one) =~= one);
    assert(digits_value(one, 0) == 0);
    assert(digits_value(one, 1) == d);
    assert forall|i: int| 0 <= i < one.len() implies is_ascii_digit(#[trigger] one[i]) by {}
}

proof fn lemma_digits_same(a: Seq<char>, b: Seq<char>, n: int)
    requires
        0 <= n <= a.len(),
        n <= b.len(),
        forall|i: int| 0 <= i < n ==> a[i] == b[i],
    ensures
        digits_value(a, n) == digits_value(b, n),
    decreases n,
{
    if n > 0 {
        lemma_digits_same(a, b, n - 1);
    }
}

/// A number is written with its own digits: the last is what is left by ten.
pub proof fn law_number_is_written(n: nat)
    ensures
        decimal(n).len() > 0,
        decimal(n).last() as u32 == 48 + n % 10,
        n >= 10 ==> decimal(n).drop_last() == decimal(n / 10),
        n < 10 ==> decimal(n).len() == 1,
{
    if n >= 10 {
        assert(decimal(n).drop_last() =~= decimal(n / 10));
    }
}

/// Two different numbers are written differently.
pub proof fn law_numbers_differ(a: nat, b: nat)
    requires
        a != b,
    ensures
        decimal(a) != decimal(b),
{
    let max = if a > b {
        a
    } else {
        b
    };
    law_decimal_read_back(a, max);
    law_decimal_read_back(b, max);
}

/// The first of two values counts where there is one.
pub proof fn law_first_of<T>(a: T, b: Option<T>, s: Seq<char>)
    ensures
        first_of(Some(a), b) == Some(a),
        first_of(None, b) == b,
        or_blank(Some(s)) == s,
        or_blank(None).len() == 0,
{
}

proof fn lemma_words_same(a: Seq<char>, b: Seq<char>, n: int)
    requires
        0 <= n <= a.len(),
        n <= b.len(),
        forall|i: int| 0 <= i < n ==> a[i] == b[i],
    ensures
        word_tail(a, n) == word_tail(b, n),
        words_done(a, n) == words_done(b, n),
    decreases n,
{
    if n > 0 {
        lemma_words_same(a, b, n - 1);
    }
}

proof fn lemma_word_tail(s: Seq<char>, n: int)
    requires
        0 <= n <= s.len(),
    ensures
        word_tail(s, n).len() > 0 <==> n > 0 && !is_white(s[n - 1]),
        word_tail(s, n).len() <= n,
        forall|i: int| 0 <= i < word_tail(s, n).len() ==> !is_white(#[trigger] word_tail(s, n)[i]),
    decreases n,
{
    if n > 0 {
        lemma_word_tail(s, n - 1);
    }
}

/// The words of a text are what stands between white space: white space ends a word, any other
/// character goes on with the word before it or begins a new one.
pub proof fn law_words(s: Seq<char>, c: char)
    ensures
        words_of(Seq::empty()).len() == 0,
        is_white(c) ==> words_of(s.push(c)) == words_of(s),
        !is_white(c) && (s.len() == 0 || is_white(s.last())) ==> words_of(s.push(c)) == words_of(
            s,
        ).push(seq![c]),
        !is_white(c) && s.len() > 0 && !is_white(s.last()) ==> words_of(s).len() > 0 && words_of(
            s.push(c),
        ) == words_of(s).drop_last().push(words_of(s).last().push(c)),
{
    let n = s.len() as int;
    let t = s.push(c);
    lemma_words_same(t, s, n);
    lemma_word_tail(s, n);
    lemma_word_tail(t, n + 1);
    assert(t[n] == c);
    if is_white(c) {
        if word_tail(s, n).len() == 0 {
            assert(words_of(t) =~= words_of(s));
        }
    } else if s.len() == 0 || is_white(s.last()) {
        assert(word_tail(s, n) =~= Seq::<char>::empty());
        assert(word_tail(t, n + 1) =~= seq![c]);
        assert(words_done(t, n + 1) == words_done(s, n));
    } else {
        let before = words_of(s);
        assert(before.last() == word_tail(s, n));
        assert(before.drop_last() =~= words_done(s, n));
    }
}

/// Leaving out repetitions keeps the order of first appearance.
pub proof fn law_distinct_keeps_order(all: Seq<Seq<char>>, n: int) -> (places: Seq<int>)
    requires
        0 <= n <= all.len(),
    ensures
        in_order(places, n),
        places.len() == distinct_of(all, n).len(),
        forall|j: int|
            0 <= j < places.len() ==> #[trigger] distinct_of(all, n)[j] == all[places[j]],
        forall|k: int| 0 <= k < n ==> distinct_of(all, n).contains(#[trigger] all[k]),
        distinct_of(all, n).no_duplicates(),
    decreases n,
{
    crate::text::lemma_distinct(all, n);
    if n <= 0 {
        Seq::empty()
    } else {
        let before = law_distinct_keeps_order(all, n - 1);
        lemma_in_order_push(before, n - 1);
        let had = distinct_of(all, n - 1);
        let now = distinct_of(all, n);
        if had.contains(all[n - 1]) {
            before
        } else {
            let places = before.push(n - 1);
            assert(now == had.push(all[n - 1]));
            assert forall|j: int| 0 <= j < places.len() implies #[trigger] now[j]
                == all[places[j]] by {
                if j < before.len() {
                    assert(now[j] == had[j]);
                    assert(places[j] == before[j]);
                }
            }
            places
        }
    }
}

} // verus!
