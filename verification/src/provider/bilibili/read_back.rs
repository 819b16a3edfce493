//! Cookies are kept as a text between requests. What is written there is read back as it was.
use vstd::prelude::*;

use crate::json::Json;
use crate::provider::str_at;
use crate::text::{
    find_part, is_white, joined, lemma_find_from, occurs_at, split_done, split_parts, split_tail,
    trim_end_spec, trim_start_spec, trimmed,
};

use super::cookies::{
    cookie_pair, cookie_pairs, cookie_pairs_of, cookie_text, device_pairs, filled,
    law_device_keeps_login, law_with_pair, pair_lines, pair_value, slot, text_before, with_pair,
    Pairs,
};

verus! {

/// Whether a character does not occur in a text.
pub open spec fn free_of(s: Seq<char>, c: char) -> bool {
    forall|i: int| 0 <= i < s.len() ==> #[trigger] s[i] != c
}

/// Whether there is no white space around a text.
pub open spec fn bare(s: Seq<char>) -> bool {
    s.len() > 0 ==> !is_white(s[0]) && !is_white(s.last())
}

/// Whether a text can be the value of a cookie.
pub open spec fn clean_value(s: Seq<char>) -> bool {
    bare(s) && free_of(s, ';')
}

/// Whether a text can be the name of a cookie.
pub open spec fn clean_name(s: Seq<char>) -> bool {
    s.len() > 0 && bare(s) && free_of(s, ';') && free_of(s, '=')
}

/// Whether pairs are in the order of their names, and each of them can be written.
pub open spec fn clean_pairs(pairs: Pairs) -> bool {
    &&& forall|i: int, j: int|
        #![trigger pairs[i], pairs[j]]
        0 <= i < j < pairs.len() ==> text_before(pairs[i].0, pairs[j].0, 0)
    &&& forall|i: int|
        0 <= i < pairs.len() ==> clean_name((#[trigger] pairs[i]).0) && clean_value(pairs[i].1)
}

proof fn lemma_trim_start(s: Seq<char>, c: char)
    ensures
        trim_start_spec(s).len() > 0 ==> !is_white(trim_start_spec(s)[0]) && s.len() > 0
            && trim_start_spec(s).last() == s.last(),
        free_of(s, c) ==> free_of(trim_start_spec(s), c),
    decreases s.len(),
{
    if s.len() > 0 && is_white(s[0]) {
        lemma_trim_start(s.skip(1), c);
        if free_of(s, c) {
            assert forall|i: int| 0 <= i < s.skip(1).len() implies #[trigger] s.skip(1)[i] != c by {
                assert(s.skip(1)[i] == s[i + 1]);
            }
        }
        if s.skip(1).len() > 0 {
            assert(s.skip(1).last() == s.last());
        }
    }
}

proof fn lemma_trim_end(s: Seq<char>, c: char)
    ensures
        trim_end_spec(s).len() > 0 ==> !is_white(trim_end_spec(s).last()) && s.len() > 0
            && trim_end_spec(s)[0] == s[0],
        free_of(s, c) ==> free_of(trim_end_spec(s), c),
    decreases s.len(),
{
    if s.len() > 0 && is_white(s.last()) {
        lemma_trim_end(s.drop_last(), c);
        if free_of(s, c) {
            assert forall|i: int| 0 <= i < s.drop_last().len() implies #[trigger] s.drop_last()[i]
                != c by {
                assert(s.drop_last()[i] == s[i]);
            }
        }
        if s.drop_last().len() > 0 {
            assert(s.drop_last()[0] == s[0]);
        }
    }
}

proof fn lemma_trimmed(s: Seq<char>, c: char)
    ensures
        bare(trimmed(s)),
        free_of(s, c) ==> free_of(trimmed(s), c),
{
    lemma_trim_start(s, c);
    lemma_trim_end(trim_start_spec(s), c);
}

proof fn lemma_bare_is_trimmed(s: Seq<char>)
    requires
        bare(s),
    ensures
        trimmed(s) == s,
        s.len() > 0 ==> trimmed(seq![' '] + s) == s,
{
    if s.len() > 0 {
        let spaced = seq![' '] + s;
        assert(spaced[0] == ' ');
        assert(spaced.skip(1) =~= s);
        assert(trim_start_spec(spaced) == trim_start_spec(s));
    }
}

proof fn lemma_split_parts_free(s: Seq<char>, c: char, n: int)
    requires
        0 <= n <= s.len(),
    ensures
        free_of(split_tail(s, c, n), c),
        forall|i: int|
            0 <= i < split_done(s, c, n).len() ==> free_of(#[trigger] split_done(s, c, n)[i], c),
    decreases n,
{
    if n > 0 {
        lemma_split_parts_free(s, c, n - 1);
        let before = split_done(s, c, n - 1);
        let all = split_done(s, c, n);
        assert forall|i: int| 0 <= i < all.len() implies free_of(#[trigger] all[i], c) by {
            if i < before.len() {
                assert(all[i] == before[i]);
            }
        }
    }
}

proof fn lemma_split_prefix(a: Seq<char>, b: Seq<char>, c: char, n: int)
    requires
        0 <= n <= a.len(),
    ensures
        split_tail(a + b, c, n) == split_tail(a, c, n),
        split_done(a + b, c, n) == split_done(a, c, n),
    decreases n,
{
    if n > 0 {
        lemma_split_prefix(a, b, c, n - 1);
        assert((a + b)[n - 1] == a[n - 1]);
    }
}

proof fn lemma_split_run(s: Seq<char>, c: char, from: int, n: int)
    requires
        0 <= from <= n <= s.len(),
        forall|i: int| from <= i < n ==> #[trigger] s[i] != c,
    ensures
        split_tail(s, c, n) == split_tail(s, c, from) + s.subrange(from, n),
        split_done(s, c, n) == split_done(s, c, from),
    decreases n,
{
    if from < n {
        lemma_split_run(s, c, from, n - 1);
        assert(s.subrange(from, n) =~= s.subrange(from, n - 1).push(s[n - 1]));
        assert(split_tail(s, c, n) =~= split_tail(s, c, from) + s.subrange(from, n));
    } else {
        assert(s.subrange(from, n) =~= Seq::<char>::empty());
        assert(split_tail(s, c, n) =~= split_tail(s, c, from) + s.subrange(from, n));
    }
}

/// The lines as they stand in a cookie text: a blank goes before each but the first.
pub open spec fn spaced_lines(lines: Seq<Seq<char>>, n: int) -> Seq<Seq<char>> {
    Seq::new(
        n as nat,
        |i: int|
            if i == 0 {
                lines[0]
            } else {
                seq![' '] + lines[i]
            },
    )
}

proof fn lemma_split_joined(lines: Seq<Seq<char>>, n: int)
    requires
        0 < n <= lines.len(),
        forall|i: int| 0 <= i < lines.len() ==> free_of(#[trigger] lines[i], ';'),
    ensures
        split_parts(joined(lines, "; "@, n), ';') == spaced_lines(lines, n),
    decreases n,
{
    reveal_strlit("; ");
    let s = joined(lines, "; "@, n);
    let last = lines[n - 1];
    assert(free_of(last, ';'));
    if n == 1 {
        lemma_split_run(s, ';', 0, s.len() as int);
        assert(s.subrange(0, s.len() as int) =~= s);
        assert(split_tail(s, ';', 0) + s =~= s);
        assert(split_parts(s, ';') =~= spaced_lines(lines, 1));
    } else {
        lemma_split_joined(lines, n - 1);
        let a = joined(lines, "; "@, n - 1);
        let b = "; "@ + last;
        assert(s =~= a + b);
        let at = a.len() as int;
        lemma_split_prefix(a, b, ';', at);
        assert(s[at] == ';');
        assert(split_done(s, ';', at + 1) == split_parts(a, ';'));
        assert(split_tail(s, ';', at + 1) == Seq::<char>::empty());
        assert forall|i: int| at + 1 <= i < s.len() implies #[trigger] s[i] != ';' by {
            if i > at + 1 {
                assert(s[i] == last[i - at - 2]);
            }
        }
        lemma_split_run(s, ';', at + 1, s.len() as int);
        assert(s.subrange(at + 1, s.len() as int) =~= seq![' '] + last);
        assert(split_tail(s, ';', s.len() as int) =~= seq![' '] + last);
        assert(split_parts(s, ';') =~= spaced_lines(lines, n));
    }
}

proof fn lemma_line_read(name: Seq<char>, value: Seq<char>, part: Seq<char>)
    requires
        clean_name(name),
        clean_value(value),
        part == name + "="@ + value || part == seq![' '] + (name + "="@ + value),
    ensures
        cookie_pair(part) == Some((name, value)),
        free_of(name + "="@ + value, ';'),
{
    reveal_strlit("=");
    let line = name + "="@ + value;
    let at = name.len() as int;
    assert(line[0] == name[0]);
    assert(line.last() == (if value.len() > 0 {
        value.last()
    } else {
        '='
    }));
    lemma_bare_is_trimmed(line);
    assert(trimmed(part) == line);
    lemma_find_from(line, "="@, 0);
    assert(line.subrange(at, at + 1) =~= "="@);
    assert(occurs_at(line, "="@, at));
    let found = find_part(line, "="@)->0;
    if found < at {
        assert(line.subrange(found, found + 1)[0] == "="@[0]);
        assert(line[found] == '=');
        assert(line[found] == name[found]);
    }
    assert(line.take(at) =~= name);
    assert(line.skip(at + 1) =~= value);
    lemma_bare_is_trimmed(name);
    lemma_bare_is_trimmed(value);
    assert forall|i: int| 0 <= i < line.len() implies #[trigger] line[i] != ';' by {
        if i < at {
            assert(line[i] == name[i]);
        } else if i > at {
            assert(line[i] == value[i - at - 1]);
        }
    }
}

proof fn lemma_part_is_clean(part: Seq<char>)
    requires
        free_of(part, ';'),
    ensures
        cookie_pair(part) matches Some(p) ==> clean_name(p.0) && clean_value(p.1),
{
    reveal_strlit("=");
    let t = trimmed(part);
    lemma_trimmed(part, ';');
    lemma_find_from(t, "="@, 0);
    match find_part(t, "="@) {
        Some(at) => {
            let first = t.take(at);
            let rest = t.skip(at + 1);
            assert forall|i: int| 0 <= i < first.len() implies #[trigger] first[i] != ';' && first[i]
                != '=' by {
                assert(first[i] == t[i]);
                if t[i] == '=' {
                    assert(t.subrange(i, i + 1) =~= "="@);
                    assert(occurs_at(t, "="@, i));
                }
            }
            assert forall|i: int| 0 <= i < rest.len() implies #[trigger] rest[i] != ';' by {
                assert(rest[i] == t[at + 1 + i]);
            }
            assert(free_of(first, ';'));
            assert(free_of(first, '='));
            lemma_trimmed(first, ';');
            lemma_trimmed(first, '=');
            lemma_trimmed(rest, ';');
        },
        None => {},
    }
}

proof fn lemma_before_transitive(a: Seq<char>, b: Seq<char>, c: Seq<char>, i: int)
    requires
        0 <= i,
        text_before(a, b, i),
        text_before(b, c, i),
    ensures
        text_before(a, c, i),
    decreases c.len() - i,
{
    if i < a.len() && i < c.len() && a[i] == b[i] && b[i] == c[i] {
        lemma_before_transitive(a, b, c, i + 1);
    }
}

proof fn lemma_before_total(a: Seq<char>, b: Seq<char>, i: int)
    requires
        0 <= i <= a.len(),
        i <= b.len(),
        a.take(i) == b.take(i),
    ensures
        a == b || text_before(a, b, i) || text_before(b, a, i),
    decreases a.len() - i,
{
    if i < a.len() && i < b.len() {
        if a[i] == b[i] {
            assert(a.take(i + 1) =~= a.take(i).push(a[i]));
            assert(b.take(i + 1) =~= b.take(i).push(b[i]));
            lemma_before_total(a, b, i + 1);
        }
    } else if a.len() == b.len() {
        assert(a.take(i) =~= a);
        assert(b.take(i) =~= b);
    }
}

proof fn lemma_slot_place(pairs: Pairs, name: Seq<char>, i: int)
    requires
        0 <= i <= pairs.len(),
    ensures
        i <= slot(pairs, name, i) <= pairs.len(),
        forall|j: int|
            i <= j < slot(pairs, name, i) ==> text_before((#[trigger] pairs[j]).0, name, 0),
        slot(pairs, name, i) < pairs.len() ==> !text_before(
            pairs[slot(pairs, name, i)].0,
            name,
            0,
        ),
    decreases pairs.len() - i,
{
    if i < pairs.len() && text_before(pairs[i].0, name, 0) {
        lemma_slot_place(pairs, name, i + 1);
    }
}

/// Setting a value keeps the order of the pairs, and that they can be written.
pub proof fn law_with_pair_stays_clean(pairs: Pairs, name: Seq<char>, value: Seq<char>)
    requires
        clean_pairs(pairs),
        clean_name(name),
        clean_value(value),
    ensures
        clean_pairs(with_pair(pairs, name, value)),
{
    let k = slot(pairs, name, 0);
    let after = with_pair(pairs, name, value);
    lemma_slot_place(pairs, name, 0);
    if k < pairs.len() && pairs[k].0 == name {
        assert forall|i: int, j: int|
            #![trigger after[i], after[j]]
            0 <= i < j < after.len() implies text_before(after[i].0, after[j].0, 0) by {
            assert(after[i].0 == pairs[i].0);
            assert(after[j].0 == pairs[j].0);
        }
        assert forall|i: int| 0 <= i < after.len() implies clean_name((#[trigger] after[i]).0)
            && clean_value(after[i].1) by {
            assert(clean_name(pairs[i].0));
        }
    } else {
        if k < pairs.len() {
            assert(name.take(0) =~= pairs[k].0.take(0));
            lemma_before_total(name, pairs[k].0, 0);
        }
        assert forall|i: int, j: int|
            #![trigger after[i], after[j]]
            0 <= i < j < after.len() implies text_before(after[i].0, after[j].0, 0) by {
            if j < k {
                assert(after[i] == pairs[i] && after[j] == pairs[j]);
            } else if j == k {
                assert(after[i] == pairs[i]);
            } else if i < k {
                assert(after[i] == pairs[i] && after[j] == pairs[j - 1]);
            } else if i == k {
                assert(after[j] == pairs[j - 1]);
                if j - 1 > k {
                    assert(text_before(pairs[k].0, pairs[j - 1].0, 0));
                    lemma_before_transitive(name, pairs[k].0, pairs[j - 1].0, 0);
                }
            } else {
                assert(after[i] == pairs[i - 1] && after[j] == pairs[j - 1]);
            }
        }
        assert forall|i: int| 0 <= i < after.len() implies clean_name((#[trigger] after[i]).0)
            && clean_value(after[i].1) by {
            if i < k {
                assert(after[i] == pairs[i]);
            } else if i > k {
                assert(after[i] == pairs[i - 1]);
            }
        }
    }
}

proof fn lemma_read_pairs_clean(parts: Seq<Seq<char>>, n: int)
    requires
        0 <= n <= parts.len(),
        forall|i: int| 0 <= i < parts.len() ==> free_of(#[trigger] parts[i], ';'),
    ensures
        clean_pairs(cookie_pairs_of(parts, n)),
    decreases n,
{
    if n > 0 {
        lemma_read_pairs_clean(parts, n - 1);
        lemma_part_is_clean(parts[n - 1]);
        match cookie_pair(parts[n - 1]) {
            Some(p) => {
                law_with_pair_stays_clean(cookie_pairs_of(parts, n - 1), p.0, p.1);
            },
            None => {},
        }
    }
}

/// Whatever a cookie text holds, the pairs that are read from it can be written again.
pub proof fn law_read_cookie_is_clean(cookie: Seq<char>)
    ensures
        clean_pairs(cookie_pairs(cookie)),
{
    let parts = split_parts(cookie, ';');
    lemma_split_parts_free(cookie, ';', cookie.len() as int);
    lemma_read_pairs_clean(parts, parts.len() as int);
}

proof fn lemma_pair_added_last(pairs: Pairs, name: Seq<char>, value: Seq<char>)
    requires
        forall|i: int| 0 <= i < pairs.len() ==> text_before((#[trigger] pairs[i]).0, name, 0),
    ensures
        with_pair(pairs, name, value) == pairs.push((name, value)),
{
    lemma_slot_place(pairs, name, 0);
    let k = slot(pairs, name, 0);
    assert(k == pairs.len());
    assert(pairs.insert(k, (name, value)) =~= pairs.push((name, value)));
}

proof fn lemma_written_pairs_read(pairs: Pairs, n: int)
    requires
        clean_pairs(pairs),
        0 <= n <= pairs.len(),
    ensures
        cookie_pairs_of(spaced_lines(pair_lines(pairs), pairs.len() as int), n) == pairs.take(n),
    decreases n,
{
    if n > 0 {
        lemma_written_pairs_read(pairs, n - 1);
        let p = pairs[n - 1];
        let before = pairs.take(n - 1);
        let part = spaced_lines(pair_lines(pairs), pairs.len() as int)[n - 1];
        assert(pair_lines(pairs)[n - 1] == p.0 + "="@ + p.1);
        assert(clean_name(p.0) && clean_value(p.1));
        lemma_line_read(p.0, p.1, part);
        assert forall|i: int| 0 <= i < before.len() implies text_before(
            (#[trigger] before[i]).0,
            p.0,
            0,
        ) by {
            assert(before[i] == pairs[i]);
            assert(text_before(pairs[i].0, pairs[n - 1].0, 0));
        }
        lemma_pair_added_last(before, p.0, p.1);
        assert(pairs.take(n) =~= before.push(p));
    } else {
        assert(pairs.take(0) =~= Seq::<(Seq<char>, Seq<char>)>::empty());
    }
}

/// Pairs that are written as a cookie text are read back from it as they were.
pub proof fn law_cookie_read_back(pairs: Pairs)
    requires
        clean_pairs(pairs),
    ensures
        cookie_pairs(cookie_text(pairs)) == pairs,
{
    let lines = pair_lines(pairs);
    let text = cookie_text(pairs);
    if pairs.len() > 0 {
        assert forall|i: int| 0 <= i < lines.len() implies free_of(#[trigger] lines[i], ';') by {
            let p = pairs[i];
            assert(clean_name(p.0) && clean_value(p.1));
            lemma_line_read(p.0, p.1, p.0 + "="@ + p.1);
        }
        lemma_split_joined(lines, pairs.len() as int);
        lemma_written_pairs_read(pairs, pairs.len() as int);
        assert(pairs.take(pairs.len() as int) =~= pairs);
    } else {
        let parts = split_parts(text, ';');
        assert(parts =~= seq![Seq::<char>::empty()]);
        reveal_strlit("=");
        lemma_find_from(trimmed(Seq::<char>::empty()), "="@, 0);
        assert(cookie_pair(parts[0]) is None);
        assert(cookie_pairs_of(parts, 0) =~= pairs);
        assert(cookie_pairs_of(parts, 1) == cookie_pairs_of(parts, 0));
    }
}

/// After the device cookies were fetched, the cookie text that is kept has the new values of the
/// device, and every cookie of the login, or of any other name, that it had before.
pub proof fn law_kept_text_keeps_login(cookie: Seq<char>, device: Json, name: Seq<char>)
    requires
        name != "buvid3"@,
        name != "buvid4"@,
        device_pairs(Some(cookie), device) is Some,
        clean_value(filled(str_at(device, "/data/b_3"@))->0),
        filled(str_at(device, "/data/b_4"@)) matches Some(v) ==> clean_value(v),
    ensures
        ({
            let kept = cookie_text(device_pairs(Some(cookie), device)->0);
            &&& pair_value(cookie_pairs(kept), name, 0) == pair_value(cookie_pairs(cookie), name, 0)
            &&& pair_value(cookie_pairs(kept), "buvid3"@, 0) == filled(
                str_at(device, "/data/b_3"@),
            )
        }),
{
    reveal_strlit("buvid3");
    reveal_strlit("buvid4");
    let buvid3 = filled(str_at(device, "/data/b_3"@))->0;
    let current = cookie_pairs(cookie);
    let first = with_pair(current, "buvid3"@, buvid3);
    law_read_cookie_is_clean(cookie);
    assert("buvid3"@[5] == '3' && "buvid4"@[5] == '4');
    assert(clean_name("buvid3"@));
    assert(clean_name("buvid4"@));
    law_with_pair_stays_clean(current, "buvid3"@, buvid3);
    law_with_pair(current, "buvid3"@, buvid3, name);
    match filled(str_at(device, "/data/b_4"@)) {
        Some(buvid4) => {
            law_with_pair_stays_clean(first, "buvid4"@, buvid4);
            law_with_pair(first, "buvid4"@, buvid4, "buvid3"@);
        },
        None => {},
    }
    law_device_keeps_login(cookie, device, name);
    law_cookie_read_back(device_pairs(Some(cookie), device)->0);
}

} // verus!
