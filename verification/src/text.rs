//! Characters and strings: what the standard operations on text mean, and the operations.
use vstd::prelude::*;

verus! {

/// `String::push` appends one character.
pub assume_specification[ String::push ](s: &mut String, c: char)
    ensures
        final(s)@ == old(s)@.push(c),
;

/// The equality of `str` compares the characters.
pub assume_specification[ <str as PartialEq>::eq ](a: &str, b: &str) -> (r: bool)
    ensures
        r == (a@ == b@),
;

/// Whether two strings hold the same characters.
pub fn same(a: &str, b: &str) -> (r: bool)
    ensures
        r == (a@ == b@),
{
    a.eq(b)
}

/// Whether a string holds no character.
pub fn empty(s: &str) -> (r: bool)
    ensures
        r == (s@.len() == 0),
{
    s.unicode_len() == 0
}

/// The characters of a string.
pub fn chars_of(s: &str) -> (r: Vec<char>)
    ensures
        r@ == s@,
{
    let mut out: Vec<char> = Vec::new();
    for c in it: s.chars()
        invariant
            out@ == s@.take(it.index() as int),
            it.seq() == s@,
    {
        out.push(c);
    }
    out
}

/// The string made of the characters from `from` up to `to`.
pub fn text_between(chars: &Vec<char>, from: usize, to: usize) -> (r: String)
    requires
        from <= to <= chars@.len(),
    ensures
        r@ == chars@.subrange(from as int, to as int),
{
    let mut out = String::new();
    let mut i: usize = from;
    while i < to
        invariant
            from <= i <= to <= chars@.len(),
            out@ == chars@.subrange(from as int, i as int),
        decreases to - i,
    {
        out.push(chars[i]);
        i += 1;
        assert(chars@.subrange(from as int, i as int) =~= chars@.subrange(
            from as int,
            i as int - 1,
        ).push(chars@[i as int - 1]));
    }
    out
}

/// The string made of the given characters.
pub fn text_of(chars: &Vec<char>) -> (r: String)
    ensures
        r@ == chars@,
{
    let r = text_between(chars, 0, chars.len());
    assert(chars@.subrange(0, chars@.len() as int) =~= chars@);
    r
}

pub fn cat2(a: &str, b: &str) -> (r: String)
    ensures
        r@ == a@ + b@,
{
    let mut r = a.to_owned();
    r.append(b);
    r
}

pub fn cat3(a: &str, b: &str, c: &str) -> (r: String)
    ensures
        r@ == a@ + b@ + c@,
{
    let mut r = cat2(a, b);
    r.append(c);
    r
}

pub fn cat4(a: &str, b: &str, c: &str, d: &str) -> (r: String)
    ensures
        r@ == a@ + b@ + c@ + d@,
{
    let mut r = cat3(a, b, c);
    r.append(d);
    r
}

pub fn cat5(a: &str, b: &str, c: &str, d: &str, e: &str) -> (r: String)
    ensures
        r@ == a@ + b@ + c@ + d@ + e@,
{
    let mut r = cat4(a, b, c, d);
    r.append(e);
    r
}

/// Whether `part` stands in `s` at position `at`.
pub open spec fn occurs_at(s: Seq<char>, part: Seq<char>, at: int) -> bool {
    &&& 0 <= at
    &&& at + part.len() <= s.len()
    &&& s.subrange(at, at + part.len()) == part
}

pub open spec fn has_prefix(s: Seq<char>, part: Seq<char>) -> bool {
    occurs_at(s, part, 0)
}

pub open spec fn has_suffix(s: Seq<char>, part: Seq<char>) -> bool {
    occurs_at(s, part, s.len() - part.len())
}

/// Whether `part` stands anywhere in `s`.
pub open spec fn has_part(s: Seq<char>, part: Seq<char>) -> bool {
    exists|at: int| occurs_at(s, part, at)
}

/// Whether `part` stands in the characters at position `at`.
pub fn chars_at(s: &Vec<char>, part: &Vec<char>, at: usize) -> (r: bool)
    ensures
        r == occurs_at(s@, part@, at as int),
{
    let total: usize = s.len();
    if at > total || part.len() > total - at {
        return false;
    }
    let mut i: usize = 0;
    while i < part.len()
        invariant
            i <= part@.len(),
            total == s@.len(),
            at + part@.len() <= total,
            forall|j: int| 0 <= j < i ==> s@[at + j] == part@[j],
        decreases part.len() - i,
    {
        if s[at + i] != part[i] {
            assert(s@.subrange(at as int, at + part@.len())[i as int] != part@[i as int]);
            return false;
        }
        i += 1;
    }
    assert(s@.subrange(at as int, at + part@.len()) =~= part@);
    true
}

pub fn starts_with(s: &str, part: &str) -> (r: bool)
    ensures
        r == has_prefix(s@, part@),
{
    chars_at(&chars_of(s), &chars_of(part), 0)
}

pub fn ends_with(s: &str, part: &str) -> (r: bool)
    ensures
        r == has_suffix(s@, part@),
{
    let s = chars_of(s);
    let part = chars_of(part);
    if part.len() > s.len() {
        return false;
    }
    chars_at(&s, &part, s.len() - part.len())
}

/// The first position at or after `from` where `part` stands in `s`.
pub open spec fn find_from(s: Seq<char>, part: Seq<char>, from: int) -> Option<int>
    decreases s.len() - from + 1,
{
    if from > s.len() {
        None
    } else if occurs_at(s, part, from) {
        Some(from)
    } else {
        find_from(s, part, from + 1)
    }
}

pub open spec fn find_part(s: Seq<char>, part: Seq<char>) -> Option<int> {
    find_from(s, part, 0)
}

/// The position that is found is the first one at which the part stands.
pub proof fn lemma_find_from(s: Seq<char>, part: Seq<char>, from: int)
    requires
        0 <= from,
    ensures
        match find_from(s, part, from) {
            Some(at) => from <= at <= s.len() && occurs_at(s, part, at) && forall|i: int|
                from <= i < at ==> !occurs_at(s, part, i),
            None => forall|i: int| from <= i ==> !occurs_at(s, part, i),
        },
    decreases s.len() - from + 1,
{
    if from <= s.len() && !occurs_at(s, part, from) {
        lemma_find_from(s, part, from + 1);
    }
}

pub fn find_chars(s: &Vec<char>, part: &Vec<char>, from: usize) -> (r: Option<usize>)
    requires
        from <= s@.len(),
    ensures
        match r {
            Some(at) => find_from(s@, part@, from as int) == Some(at as int) && from <= at
                && at + part@.len() <= s@.len(),
            None => find_from(s@, part@, from as int) is None,
        },
{
    let mut i: usize = from;
    while i < s.len()
        invariant
            from <= i <= s@.len(),
            find_from(s@, part@, from as int) == find_from(s@, part@, i as int),
        decreases s.len() - i,
    {
        if chars_at(s, part, i) {
            return Some(i);
        }
        i += 1;
    }
    if chars_at(s, part, i) {
        return Some(i);
    }
    assert(find_from(s@, part@, i + 1) is None);
    None
}

pub fn contains(s: &str, part: &str) -> (r: bool)
    ensures
        r == has_part(s@, part@),
        r == (find_part(s@, part@) is Some),
{
    let s = chars_of(s);
    let part = chars_of(part);
    let r = find_chars(&s, &part, 0);
    proof {
        lemma_find_from(s@, part@, 0);
    }
    r.is_some()
}

/// What follows the prefix, where the string has it.
pub open spec fn without_prefix(s: Seq<char>, part: Seq<char>) -> Option<Seq<char>> {
    if has_prefix(s, part) {
        Some(s.skip(part.len() as int))
    } else {
        None
    }
}

pub fn strip_prefix(s: &str, part: &str) -> (r: Option<String>)
    ensures
        match r {
            Some(t) => without_prefix(s@, part@) == Some(t@),
            None => without_prefix(s@, part@) is None,
        },
{
    let s = chars_of(s);
    let part = chars_of(part);
    if chars_at(&s, &part, 0) {
        let t = text_between(&s, part.len(), s.len());
        assert(t@ =~= s@.skip(part@.len() as int));
        Some(t)
    } else {
        None
    }
}

/// What stands before and after the first `part`.
pub open spec fn split_at_part(s: Seq<char>, part: Seq<char>) -> Option<(Seq<char>, Seq<char>)> {
    match find_part(s, part) {
        Some(at) => Some((s.take(at), s.skip(at + part.len()))),
        None => None,
    }
}

pub fn split_once(s: &str, part: &str) -> (r: Option<(String, String)>)
    ensures
        match r {
            Some(t) => split_at_part(s@, part@) == Some((t.0@, t.1@)),
            None => split_at_part(s@, part@) is None,
        },
{
    let s = chars_of(s);
    let part = chars_of(part);
    match find_chars(&s, &part, 0) {
        Some(at) => {
            let total: usize = s.len();
            let a = text_between(&s, 0, at);
            let b = text_between(&s, at + part.len(), total);
            assert(a@ =~= s@.take(at as int));
            assert(b@ =~= s@.skip(at + part@.len()));
            Some((a, b))
        },
        None => None,
    }
}

/// The last position before `to` at which the character stands.
pub open spec fn last_index(s: Seq<char>, c: char, to: int) -> Option<int>
    decreases to,
{
    if to <= 0 {
        None
    } else if s[to - 1] == c {
        Some(to - 1)
    } else {
        last_index(s, c, to - 1)
    }
}

/// What follows the last `c`.
pub open spec fn after_last(s: Seq<char>, c: char) -> Option<Seq<char>> {
    match last_index(s, c, s.len() as int) {
        Some(at) => Some(s.skip(at + 1)),
        None => None,
    }
}

pub fn find_last(s: &Vec<char>, c: char) -> (r: Option<usize>)
    ensures
        match r {
            Some(at) => last_index(s@, c, s@.len() as int) == Some(at as int) && at < s@.len(),
            None => last_index(s@, c, s@.len() as int) is None,
        },
{
    let mut i: usize = s.len();
    while i > 0
        invariant
            i <= s@.len(),
            last_index(s@, c, s@.len() as int) == last_index(s@, c, i as int),
        decreases i,
    {
        if s[i - 1] == c {
            return Some(i - 1);
        }
        i -= 1;
    }
    None
}

pub fn rest_after_last(s: &str, c: char) -> (r: Option<String>)
    ensures
        match r {
            Some(t) => after_last(s@, c) == Some(t@),
            None => after_last(s@, c) is None,
        },
{
    let s = chars_of(s);
    match find_last(&s, c) {
        Some(at) => {
            let total: usize = s.len();
            let t = text_between(&s, at + 1, total);
            assert(t@ =~= s@.skip(at + 1));
            Some(t)
        },
        None => None,
    }
}

/// The part after the last separator among the first `n` characters.
pub open spec fn split_tail(s: Seq<char>, c: char, n: int) -> Seq<char>
    decreases n,
{
    if n <= 0 || s[n - 1] == c {
        Seq::empty()
    } else {
        split_tail(s, c, n - 1).push(s[n - 1])
    }
}

/// The parts that a separator ends among the first `n` characters.
pub open spec fn split_done(s: Seq<char>, c: char, n: int) -> Seq<Seq<char>>
    decreases n,
{
    if n <= 0 {
        Seq::empty()
    } else if s[n - 1] == c {
        split_done(s, c, n - 1).push(split_tail(s, c, n - 1))
    } else {
        split_done(s, c, n - 1)
    }
}

/// The parts between the separators; one more than there are separators.
pub open spec fn split_parts(s: Seq<char>, c: char) -> Seq<Seq<char>> {
    split_done(s, c, s.len() as int).push(split_tail(s, c, s.len() as int))
}

/// The characters of each string of a list.
pub open spec fn texts(values: Seq<String>) -> Seq<Seq<char>> {
    Seq::new(values.len(), |i: int| values[i]@)
}

/// The view of a list grows with the list.
pub broadcast proof fn lemma_texts_push(values: Seq<String>, s: String)
    ensures
        #[trigger] texts(values.push(s)) == texts(values).push(s@),
{
    assert(texts(values.push(s)) =~= texts(values).push(s@));
}

/// The view of an empty list is empty.
pub broadcast proof fn lemma_texts_empty()
    ensures
        #[trigger] texts(Seq::<String>::empty()) == Seq::<Seq<char>>::empty(),
{
    assert(texts(Seq::<String>::empty()) =~= Seq::<Seq<char>>::empty());
}

pub fn split_char(s: &str, c: char) -> (r: Vec<String>)
    ensures
        texts(r@) == split_parts(s@, c),
        r@.len() >= 1,
{
    broadcast use {lemma_texts_push, lemma_texts_empty};

    let s = chars_of(s);
    let mut out: Vec<String> = Vec::new();
    let mut part = String::new();
    let mut i: usize = 0;
    while i < s.len()
        invariant
            i <= s@.len(),
            texts(out@) == split_done(s@, c, i as int),
            part@ == split_tail(s@, c, i as int),
        decreases s.len() - i,
    {
        broadcast use {lemma_texts_push, lemma_texts_empty};

        if s[i] == c {
            out.push(part);
            part = String::new();
        } else {
            part.push(s[i]);
        }
        i += 1;
    }
    out.push(part);
    out
}

/// The white-space characters of Unicode.
pub open spec fn is_white(c: char) -> bool {
    let n = c as u32;
    ||| 9 <= n <= 13
    ||| n == 0x20
    ||| n == 0x85
    ||| n == 0xA0
    ||| n == 0x1680
    ||| 0x2000 <= n <= 0x200A
    ||| n == 0x2028
    ||| n == 0x2029
    ||| n == 0x202F
    ||| n == 0x205F
    ||| n == 0x3000
}

pub fn white(c: char) -> (r: bool)
    ensures
        r == is_white(c),
{
    let n: u32 = c as u32;
    (9 <= n && n <= 13) || n == 0x20 || n == 0x85 || n == 0xA0 || n == 0x1680 || (0x2000 <= n && n
        <= 0x200A) || n == 0x2028 || n == 0x2029 || n == 0x202F || n == 0x205F || n == 0x3000
}

/// The text from its first character that is not white.
pub open spec fn trim_start_spec(s: Seq<char>) -> Seq<char>
    decreases s.len(),
{
    if s.len() > 0 && is_white(s[0]) {
        trim_start_spec(s.skip(1))
    } else {
        s
    }
}

/// The text up to its last character that is not white.
pub open spec fn trim_end_spec(s: Seq<char>) -> Seq<char>
    decreases s.len(),
{
    if s.len() > 0 && is_white(s.last()) {
        trim_end_spec(s.drop_last())
    } else {
        s
    }
}

/// The text without the white space around it.
pub open spec fn trimmed(s: Seq<char>) -> Seq<char> {
    trim_end_spec(trim_start_spec(s))
}

pub fn trim(s: &str) -> (r: String)
    ensures
        r@ == trimmed(s@),
{
    let s = chars_of(s);
    let mut from: usize = 0;
    assert(s@.skip(0) =~= s@);
    while from < s.len() && white(s[from])
        invariant
            from <= s@.len(),
            trim_start_spec(s@) == trim_start_spec(s@.skip(from as int)),
        decreases s.len() - from + 1,
    {
        assert(s@.skip(from as int).skip(1) =~= s@.skip(from + 1));
        from += 1;
    }
    assert(trim_start_spec(s@) == s@.skip(from as int));
    let ghost left = s@.skip(from as int);
    let mut to: usize = s.len();
    assert(s@.subrange(from as int, to as int) =~= left);
    while to > from && white(s[to - 1])
        invariant
            from <= to <= s@.len(),
            trim_end_spec(left) == trim_end_spec(s@.subrange(from as int, to as int)),
        decreases to,
    {
        assert(s@.subrange(from as int, to as int).drop_last() =~= s@.subrange(
            from as int,
            to - 1,
        ));
        to -= 1;
    }
    text_between(&s, from, to)
}

/// The text from its first character other than `c`.
pub open spec fn trim_start_of(s: Seq<char>, c: char) -> Seq<char>
    decreases s.len(),
{
    if s.len() > 0 && s[0] == c {
        trim_start_of(s.skip(1), c)
    } else {
        s
    }
}

/// The text up to its last character other than `c`.
pub open spec fn trim_end_of(s: Seq<char>, c: char) -> Seq<char>
    decreases s.len(),
{
    if s.len() > 0 && s.last() == c {
        trim_end_of(s.drop_last(), c)
    } else {
        s
    }
}

pub fn trim_start_char(s: &str, c: char) -> (r: String)
    ensures
        r@ == trim_start_of(s@, c),
{
    let s = chars_of(s);
    let mut from: usize = 0;
    assert(s@.skip(0) =~= s@);
    while from < s.len() && s[from] == c
        invariant
            from <= s@.len(),
            trim_start_of(s@, c) == trim_start_of(s@.skip(from as int), c),
        decreases s.len() - from,
    {
        assert(s@.skip(from as int).skip(1) =~= s@.skip(from + 1));
        from += 1;
    }
    let r = text_between(&s, from, s.len());
    assert(r@ =~= s@.skip(from as int));
    r
}

pub fn trim_end_char(s: &str, c: char) -> (r: String)
    ensures
        r@ == trim_end_of(s@, c),
{
    let s = chars_of(s);
    let mut to: usize = s.len();
    assert(s@.take(to as int) =~= s@);
    while to > 0 && s[to - 1] == c
        invariant
            to <= s@.len(),
            trim_end_of(s@, c) == trim_end_of(s@.take(to as int), c),
        decreases to,
    {
        assert(s@.take(to as int).drop_last() =~= s@.take(to - 1));
        to -= 1;
    }
    let r = text_between(&s, 0, to);
    assert(r@ =~= s@.take(to as int));
    r
}

/// The words among the first `n` characters that white space ends.
pub open spec fn words_done(s: Seq<char>, n: int) -> Seq<Seq<char>>
    decreases n,
{
    if n <= 0 {
        Seq::empty()
    } else if is_white(s[n - 1]) && word_tail(s, n - 1).len() > 0 {
        words_done(s, n - 1).push(word_tail(s, n - 1))
    } else {
        words_done(s, n - 1)
    }
}

/// The characters after the last white space among the first `n` characters.
pub open spec fn word_tail(s: Seq<char>, n: int) -> Seq<char>
    decreases n,
{
    if n <= 0 || is_white(s[n - 1]) {
        Seq::empty()
    } else {
        word_tail(s, n - 1).push(s[n - 1])
    }
}

/// The words of a text: its longest runs without white space.
pub open spec fn words_of(s: Seq<char>) -> Seq<Seq<char>> {
    if word_tail(s, s.len() as int).len() > 0 {
        words_done(s, s.len() as int).push(word_tail(s, s.len() as int))
    } else {
        words_done(s, s.len() as int)
    }
}

pub fn words(s: &str) -> (r: Vec<String>)
    ensures
        texts(r@) == words_of(s@),
{
    broadcast use {lemma_texts_push, lemma_texts_empty};

    let s = chars_of(s);
    let mut out: Vec<String> = Vec::new();
    let mut part: Vec<char> = Vec::new();
    let mut i: usize = 0;
    while i < s.len()
        invariant
            i <= s@.len(),
            texts(out@) == words_done(s@, i as int),
            part@ == word_tail(s@, i as int),
        decreases s.len() - i,
    {
        broadcast use {lemma_texts_push, lemma_texts_empty};

        if white(s[i]) {
            if part.len() > 0 {
                out.push(text_of(&part));
            }
            part = Vec::new();
        } else {
            part.push(s[i]);
        }
        i += 1;
    }
    if part.len() > 0 {
        out.push(text_of(&part));
    }
    out
}

/// The first `n` strings one after another, with the separator between them.
pub open spec fn joined(parts: Seq<Seq<char>>, sep: Seq<char>, n: int) -> Seq<char>
    decreases n,
{
    if n <= 0 {
        Seq::empty()
    } else if n == 1 {
        parts[0]
    } else {
        joined(parts, sep, n - 1) + sep + parts[n - 1]
    }
}

pub fn join(parts: &Vec<String>, sep: &str) -> (r: String)
    ensures
        r@ == joined(texts(parts@), sep@, parts@.len() as int),
{
    let mut out = String::new();
    let mut i: usize = 0;
    while i < parts.len()
        invariant
            i <= parts@.len(),
            out@ == joined(texts(parts@), sep@, i as int),
        decreases parts.len() - i,
    {
        if i > 0 {
            out.append(sep);
        }
        out.append(parts[i].as_str());
        i += 1;
        assert(out@ =~= joined(texts(parts@), sep@, i as int));
    }
    out
}

pub open spec fn is_ascii_digit(c: char) -> bool {
    '0' <= c <= '9'
}

pub open spec fn is_ascii_alnum(c: char) -> bool {
    '0' <= c <= '9' || 'a' <= c <= 'z' || 'A' <= c <= 'Z'
}

pub fn ascii_digit(c: char) -> (r: bool)
    ensures
        r == is_ascii_digit(c),
{
    '0' <= c && c <= '9'
}

pub fn ascii_alnum(c: char) -> (r: bool)
    ensures
        r == is_ascii_alnum(c),
{
    ('0' <= c && c <= '9') || ('a' <= c && c <= 'z') || ('A' <= c && c <= 'Z')
}

/// A character with its ASCII letter, if it is one, made small.
pub open spec fn lower_char(c: char) -> char {
    if 'A' <= c <= 'Z' {
        ((c as u8) + 32) as char
    } else {
        c
    }
}

pub open spec fn lowered(s: Seq<char>) -> Seq<char> {
    Seq::new(s.len(), |i: int| lower_char(s[i]))
}

pub fn small_char(c: char) -> (r: char)
    ensures
        r == lower_char(c),
{
    if 'A' <= c && c <= 'Z' {
        ((c as u8) + 32) as char
    } else {
        c
    }
}

pub fn lower(s: &str) -> (r: String)
    ensures
        r@ == lowered(s@),
{
    let s = chars_of(s);
    let mut out = String::new();
    let mut i: usize = 0;
    while i < s.len()
        invariant
            i <= s@.len(),
            out@ == lowered(s@).take(i as int),
        decreases s.len() - i,
    {
        out.push(small_char(s[i]));
        i += 1;
        assert(lowered(s@).take(i as int) =~= lowered(s@).take(i - 1).push(lowered(s@)[i - 1]));
    }
    assert(lowered(s@).take(i as int) =~= lowered(s@));
    out
}

/// The first `n` characters with each `c` replaced.
pub open spec fn replaced(s: Seq<char>, c: char, with: Seq<char>, n: int) -> Seq<char>
    decreases n,
{
    if n <= 0 {
        Seq::empty()
    } else if s[n - 1] == c {
        replaced(s, c, with, n - 1) + with
    } else {
        replaced(s, c, with, n - 1).push(s[n - 1])
    }
}

pub fn replace_char(s: &str, c: char, with: &str) -> (r: String)
    ensures
        r@ == replaced(s@, c, with@, s@.len() as int),
{
    let s = chars_of(s);
    let mut out = String::new();
    let mut i: usize = 0;
    while i < s.len()
        invariant
            i <= s@.len(),
            out@ == replaced(s@, c, with@, i as int),
        decreases s.len() - i,
    {
        if s[i] == c {
            out.append(with);
        } else {
            out.push(s[i]);
        }
        i += 1;
    }
    out
}

/// The decimal digit of a number below ten.
pub open spec fn digit_char(d: nat) -> char {
    ((d + 48) as u8) as char
}

/// A number in decimal digits, without leading zeros.
pub open spec fn decimal(n: nat) -> Seq<char>
    decreases n,
{
    if n < 10 {
        seq![digit_char(n)]
    } else {
        decimal(n / 10).push(digit_char(n % 10))
    }
}

pub fn number_text(n: u64) -> (r: String)
    ensures
        r@ == decimal(n as nat),
    decreases n,
{
    if n < 10 {
        let mut r = String::new();
        r.push(((n + 48) as u8) as char);
        assert(r@ =~= decimal(n as nat));
        r
    } else {
        let mut r = number_text(n / 10);
        r.push(((n % 10 + 48) as u8) as char);
        r
    }
}

/// Whether every character is an ASCII digit.
pub open spec fn all_digits(s: Seq<char>) -> bool {
    forall|i: int| 0 <= i < s.len() ==> is_ascii_digit(#[trigger] s[i])
}

/// The number that the first `n` characters write in decimal.
pub open spec fn digits_value(s: Seq<char>, n: int) -> nat
    decreases n,
{
    if n <= 0 {
        0
    } else {
        digits_value(s, n - 1) * 10 + (s[n - 1] as nat - 48) as nat
    }
}

/// The digits of a number text, which may begin with a plus sign.
pub open spec fn number_digits(s: Seq<char>) -> Seq<char> {
    if s.len() > 0 && s[0] == '+' {
        s.skip(1)
    } else {
        s
    }
}

/// The number that a text writes, if it writes one that is at most `max`.
pub open spec fn parsed_number(s: Seq<char>, max: nat) -> Option<nat> {
    let digits = number_digits(s);
    if digits.len() > 0 && all_digits(digits) && digits_value(digits, digits.len() as int) <= max {
        Some(digits_value(digits, digits.len() as int))
    } else {
        None
    }
}

/// More digits never make a smaller number.
pub proof fn lemma_digits_value_grows(s: Seq<char>, m: int, n: int)
    requires
        0 <= m <= n <= s.len(),
    ensures
        digits_value(s, m) <= digits_value(s, n),
    decreases n,
{
    if m < n {
        lemma_digits_value_grows(s, m, n - 1);
    }
}

/// The characters after the first `n` do not matter for the number of the first `n`.
proof fn lemma_digits_value_prefix(s: Seq<char>, c: char, n: int)
    requires
        n <= s.len(),
    ensures
        digits_value(s.push(c), n) == digits_value(s, n),
    decreases n,
{
    if n > 0 {
        lemma_digits_value_prefix(s, c, n - 1);
    }
}

/// The decimal digits of a number are digits, and write the number.
pub proof fn lemma_decimal_digits(n: nat)
    ensures
        decimal(n).len() > 0,
        all_digits(decimal(n)),
        digits_value(decimal(n), decimal(n).len() as int) == n,
    decreases n,
{
    if n < 10 {
        let s = decimal(n);
        assert(s.len() == 1 && s[0] == digit_char(n));
        assert(digits_value(s, 0) == 0);
        assert(digits_value(s, 1) == n);
    } else {
        lemma_decimal_digits(n / 10);
        let s = decimal(n / 10);
        let c = digit_char(n % 10);
        lemma_digits_value_prefix(s, c, s.len() as int);
        let t = s.push(c);
        assert(t.last() == c);
        assert forall|i: int| 0 <= i < t.len() implies is_ascii_digit(#[trigger] t[i]) by {
            if i < s.len() {
                assert(t[i] == s[i]);
            }
        }
        assert(digits_value(t, t.len() as int) == n / 10 * 10 + n % 10);
    }
}

/// Reading a number that was written in decimal gives the number back.
pub proof fn law_decimal_read_back(n: nat, max: nat)
    requires
        n <= max,
    ensures
        parsed_number(decimal(n), max) == Some(n),
{
    lemma_decimal_digits(n);
    let s = decimal(n);
    assert(is_ascii_digit(s[0]));
    assert(number_digits(s) == s);
}

pub fn parse_number(s: &str, max: u64) -> (r: Option<u64>)
    ensures
        match r {
            Some(n) => parsed_number(s@, max as nat) == Some(n as nat),
            None => parsed_number(s@, max as nat) is None,
        },
{
    let chars = chars_of(s);
    let from: usize = if chars.len() > 0 && chars[0] == '+' {
        1
    } else {
        0
    };
    let ghost digits = number_digits(s@);
    assert(digits =~= chars@.skip(from as int));
    if from == chars.len() {
        return None;
    }
    let mut value: u64 = 0;
    let mut i: usize = from;
    while i < chars.len()
        invariant
            from <= i <= chars@.len(),
            from < chars@.len(),
            digits == number_digits(s@),
            digits == chars@.skip(from as int),
            value <= max,
            value == digits_value(digits, i - from),
            forall|j: int| 0 <= j < i - from ==> is_ascii_digit(#[trigger] digits[j]),
        decreases chars.len() - i,
    {
        let c = chars[i];
        assert(c == digits[i - from]);
        if !ascii_digit(c) {
            return None;
        }
        let d: u64 = (c as u32 - 48) as u64;
        assert(digits_value(digits, i + 1 - from) == value * 10 + d);
        proof {
            lemma_digits_value_grows(digits, i + 1 - from, digits.len() as int);
        }
        if value > max / 10 || d > max - value * 10 {
            return None;
        }
        value = value * 10 + d;
        i += 1;
    }
    assert(i - from == digits.len());
    Some(value)
}

/// The text, or an empty one.
pub open spec fn or_blank(value: Option<Seq<char>>) -> Seq<char> {
    match value {
        Some(s) => s,
        None => Seq::empty(),
    }
}

/// The first of two values that there is.
pub open spec fn first_of<T>(first: Option<T>, second: Option<T>) -> Option<T> {
    if first is Some {
        first
    } else {
        second
    }
}

/// The string, or an empty one.
pub fn or_empty(value: Option<String>) -> (r: String)
    ensures
        r@ == or_blank(opt_text(value)),
{
    match value {
        Some(s) => s,
        None => String::new(),
    }
}

/// The first of two strings that there is.
pub fn first_text(first: Option<String>, second: Option<String>) -> (r: Option<String>)
    ensures
        opt_text(r) == first_of(opt_text(first), opt_text(second)),
{
    if first.is_some() {
        first
    } else {
        second
    }
}

/// The first of two numbers that there is.
pub fn first_number(first: Option<u64>, second: Option<u64>) -> (r: Option<u64>)
    ensures
        r == first_of(first, second),
{
    if first.is_some() {
        first
    } else {
        second
    }
}

/// The characters of an optional string.
pub open spec fn opt_text(value: Option<String>) -> Option<Seq<char>> {
    match value {
        Some(s) => Some(s@),
        None => None,
    }
}

/// A copy of an optional string.
pub fn copy_opt(value: &Option<String>) -> (r: Option<String>)
    ensures
        opt_text(r) == opt_text(*value),
{
    match value {
        Some(s) => Some(s.clone()),
        None => None,
    }
}

/// A copy of a list of strings.
pub fn copy_texts(values: &Vec<String>) -> (r: Vec<String>)
    ensures
        texts(r@) == texts(values@),
{
    let mut out: Vec<String> = Vec::new();
    let mut i: usize = 0;
    while i < values.len()
        invariant
            i <= values@.len(),
            out@.len() == i,
            forall|j: int| 0 <= j < i ==> (#[trigger] out@[j])@ == values@[j]@,
        decreases values.len() - i,
    {
        out.push(values[i].clone());
        i += 1;
    }
    assert(texts(out@) =~= texts(values@));
    out
}

/// The characters of each name and value of a list.
pub open spec fn pair_texts(values: Seq<(String, String)>) -> Seq<(Seq<char>, Seq<char>)> {
    Seq::new(values.len(), |i: int| (values[i].0@, values[i].1@))
}

/// The first `n` texts, each only where it occurs first.
pub open spec fn distinct_of(all: Seq<Seq<char>>, n: int) -> Seq<Seq<char>>
    decreases n,
{
    if n <= 0 {
        Seq::empty()
    } else if distinct_of(all, n - 1).contains(all[n - 1]) {
        distinct_of(all, n - 1)
    } else {
        distinct_of(all, n - 1).push(all[n - 1])
    }
}

/// Leaving out repetitions leaves every text once and no other text.
pub proof fn lemma_distinct(all: Seq<Seq<char>>, n: int)
    requires
        0 <= n <= all.len(),
    ensures
        distinct_of(all, n).no_duplicates(),
        forall|i: int| 0 <= i < n ==> distinct_of(all, n).contains(#[trigger] all[i]),
        forall|s: Seq<char>| #[trigger]
            distinct_of(all, n).contains(s) ==> exists|i: int| 0 <= i < n && all[i] == s,
        n > 0 ==> distinct_of(all, n).len() > 0 && distinct_of(all, n)[0] == all[0],
    decreases n,
{
    if n > 0 {
        lemma_distinct(all, n - 1);
        let before = distinct_of(all, n - 1);
        let last = all[n - 1];
        if !before.contains(last) {
            let after = before.push(last);
            assert(after.contains(last)) by {
                assert(after[before.len() as int] == last);
            }
            assert forall|i: int| 0 <= i < n implies after.contains(#[trigger] all[i]) by {
                if i < n - 1 {
                    assert(before.contains(all[i]));
                    let k = choose|k: int| 0 <= k < before.len() && before[k] == all[i];
                    assert(after[k] == all[i]);
                }
            }
            assert forall|s: Seq<char>| #[trigger] after.contains(s) implies exists|i: int|
                0 <= i < n && all[i] == s by {
                let k = choose|k: int| 0 <= k < after.len() && after[k] == s;
                if k < before.len() {
                    assert(before[k] == s);
                    assert(before.contains(s));
                    let i = choose|i: int| 0 <= i < n - 1 && all[i] == s;
                    assert(all[i] == s);
                } else {
                    assert(all[n - 1] == s);
                }
            }
        }
    }
}

/// Adds a text, unless it is there already.
pub(crate) fn add_distinct(out: &mut Vec<String>, url: String, Ghost(all): Ghost<Seq<Seq<char>>>, Ghost(n):
    Ghost<int>)
    requires
        texts(old(out)@) == distinct_of(all, n),
        0 <= n < all.len(),
        all[n] == url@,
    ensures
        texts(final(out)@) == distinct_of(all, n + 1),
{
    broadcast use {lemma_texts_push, lemma_texts_empty};

    let mut i: usize = 0;
    while i < out.len()
        invariant
            i <= out@.len(),
            out@ == old(out)@,
            texts(out@) == distinct_of(all, n),
            0 <= n < all.len(),
            all[n] == url@,
            forall|j: int| 0 <= j < i ==> #[trigger] texts(out@)[j] != url@,
        decreases out.len() - i,
    {
        assert(texts(out@)[i as int] == out@[i as int]@);
        if same(out[i].as_str(), url.as_str()) {
            assert(distinct_of(all, n).contains(all[n]));
            return;
        }
        i += 1;
    }
    assert(!distinct_of(all, n).contains(all[n]));
    out.push(url);
}

/// A copy of a list of names and values.
pub fn copy_pairs(values: &Vec<(String, String)>) -> (r: Vec<(String, String)>)
    ensures
        pair_texts(r@) == pair_texts(values@),
{
    let mut out: Vec<(String, String)> = Vec::new();
    let mut i: usize = 0;
    while i < values.len()
        invariant
            i <= values@.len(),
            out@.len() == i,
            forall|j: int|
                0 <= j < i ==> (#[trigger] out@[j]).0@ == values@[j].0@ && out@[j].1@
                    == values@[j].1@,
        decreases values.len() - i,
    {
        out.push((values[i].0.clone(), values[i].1.clone()));
        i += 1;
    }
    assert(pair_texts(out@) =~= pair_texts(values@));
    out
}

} // verus!
