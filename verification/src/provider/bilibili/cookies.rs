//! Cookies as pairs of names and values, in the order of their names.
use vstd::prelude::*;

use crate::json::Json;
use crate::provider::{get_str, str_at};
use crate::text::{
    cat3, chars_of, empty, join, joined, lemma_texts_empty, lemma_texts_push, opt_text, pair_texts,
    same, split_at_part, split_char, split_once, split_parts, texts, trim, trimmed,
};

verus! {

/// Whether one text comes before another, by their characters from number `i` on.
pub open spec fn text_before(a: Seq<char>, b: Seq<char>, i: int) -> bool
    decreases b.len() - i,
{
    if i < 0 || i >= b.len() {
        false
    } else if i >= a.len() {
        true
    } else if a[i] != b[i] {
        a[i] < b[i]
    } else {
        text_before(a, b, i + 1)
    }
}

fn before(a: &str, b: &str) -> (r: bool)
    ensures
        r == text_before(a@, b@, 0),
{
    let x = chars_of(a);
    let y = chars_of(b);
    let mut i: usize = 0;
    while i < y.len()
        invariant
            i <= y@.len(),
            x@ == a@,
            y@ == b@,
            text_before(a@, b@, 0) == text_before(a@, b@, i as int),
        decreases y.len() - i,
    {
        if i >= x.len() {
            return true;
        }
        if x[i] != y[i] {
            return x[i] < y[i];
        }
        i += 1;
    }
    false
}

/// Names and values as plain characters.
pub type Pairs = Seq<(Seq<char>, Seq<char>)>;

/// The number of the first pair, from number `i` on, that does not come before a name.
pub open spec fn slot(pairs: Pairs, name: Seq<char>, i: int) -> int
    decreases pairs.len() - i,
{
    if i < 0 || i >= pairs.len() || !text_before(pairs[i].0, name, 0) {
        i
    } else {
        slot(pairs, name, i + 1)
    }
}

/// The pairs with a value for a name: the pair of that name is replaced, or one is added at its
/// place in the order.
pub open spec fn with_pair(pairs: Pairs, name: Seq<char>, value: Seq<char>) -> Pairs {
    let k = slot(pairs, name, 0);
    if k < pairs.len() && pairs[k].0 == name {
        pairs.update(k, (name, value))
    } else {
        pairs.insert(k, (name, value))
    }
}

/// The value of the first pair with a name, from number `from` on.
pub open spec fn pair_value(pairs: Pairs, name: Seq<char>, from: int) -> Option<Seq<char>>
    decreases pairs.len() - from,
{
    if from < 0 || from >= pairs.len() {
        None
    } else if pairs[from].0 == name {
        Some(pairs[from].1)
    } else {
        pair_value(pairs, name, from + 1)
    }
}

proof fn lemma_slot(pairs: Pairs, name: Seq<char>, i: int)
    requires
        0 <= i <= pairs.len(),
    ensures
        i <= slot(pairs, name, i) <= pairs.len(),
        forall|j: int|
            i <= j < slot(pairs, name, i) ==> text_before(#[trigger] pairs[j].0, name, 0),
    decreases pairs.len() - i,
{
    if i < pairs.len() && text_before(pairs[i].0, name, 0) {
        lemma_slot(pairs, name, i + 1);
    }
}

proof fn lemma_not_before_itself(a: Seq<char>, i: int)
    requires
        0 <= i,
    ensures
        !text_before(a, a, i),
    decreases a.len() - i,
{
    if i < a.len() {
        lemma_not_before_itself(a, i + 1);
    }
}

proof fn lemma_pair_value_at(pairs: Pairs, name: Seq<char>, from: int, at: int)
    requires
        0 <= from <= at < pairs.len(),
        pairs[at].0 == name,
        forall|j: int| from <= j < at ==> #[trigger] pairs[j].0 != name,
    ensures
        pair_value(pairs, name, from) == Some(pairs[at].1),
    decreases at - from,
{
    if from < at {
        lemma_pair_value_at(pairs, name, from + 1, at);
    }
}

proof fn lemma_pair_value_same(a: Pairs, b: Pairs, name: Seq<char>, i: int, j: int)
    requires
        0 <= i <= a.len(),
        0 <= j <= b.len(),
        a.len() - i == b.len() - j,
        forall|k: int| 0 <= k < a.len() - i ==> #[trigger] a[i + k] == b[j + k],
    ensures
        pair_value(a, name, i) == pair_value(b, name, j),
    decreases a.len() - i,
{
    if i < a.len() {
        assert(a[i + 0] == b[j + 0]);
        assert forall|k: int| 0 <= k < a.len() - (i + 1) implies #[trigger] a[i + 1 + k] == b[j + 1
            + k] by {
            assert(a[i + (k + 1)] == b[j + (k + 1)]);
        }
        lemma_pair_value_same(a, b, name, i + 1, j + 1);
    }
}

proof fn lemma_pair_value_step(a: Pairs, b: Pairs, name: Seq<char>, upto: int, i: int)
    requires
        0 <= i <= upto <= a.len(),
        upto <= b.len(),
        forall|k: int| 0 <= k < upto ==> #[trigger] a[k] == b[k],
        pair_value(a, name, upto) == pair_value(b, name, upto),
    ensures
        pair_value(a, name, i) == pair_value(b, name, i),
    decreases upto - i,
{
    if i < upto {
        lemma_pair_value_step(a, b, name, upto, i + 1);
        assert(a[i] == b[i]);
    }
}

/// Setting a value gives that value for its name and leaves the values of all other names as
/// they were.
pub proof fn law_with_pair(pairs: Pairs, name: Seq<char>, value: Seq<char>, other: Seq<char>)
    ensures
        pair_value(with_pair(pairs, name, value), name, 0) == Some(value),
        other != name ==> pair_value(with_pair(pairs, name, value), other, 0) == pair_value(
            pairs,
            other,
            0,
        ),
{
    let k = slot(pairs, name, 0);
    let after = with_pair(pairs, name, value);
    lemma_slot(pairs, name, 0);
    lemma_not_before_itself(name, 0);
    assert(after[k] == (name, value));
    assert forall|j: int| 0 <= j < k implies #[trigger] after[j].0 != name by {
        assert(after[j] == pairs[j]);
        assert(text_before(pairs[j].0, name, 0));
    }
    lemma_pair_value_at(after, name, 0, k);
    if other != name {
        if k < pairs.len() && pairs[k].0 == name {
            assert forall|m: int| 0 <= m < after.len() - (k + 1) implies #[trigger] after[k + 1 + m]
                == pairs[k + 1 + m] by {}
            lemma_pair_value_same(after, pairs, other, k + 1, k + 1);
            assert(pair_value(after, other, k) == pair_value(after, other, k + 1));
            assert(pair_value(pairs, other, k) == pair_value(pairs, other, k + 1));
        } else {
            assert forall|m: int| 0 <= m < after.len() - (k + 1) implies #[trigger] after[k + 1 + m]
                == pairs[k + m] by {}
            lemma_pair_value_same(after, pairs, other, k + 1, k);
            assert(pair_value(after, other, k) == pair_value(after, other, k + 1));
        }
        lemma_pair_value_step(after, pairs, other, k, 0);
    }
}

/// The name and value that a part of a cookie text writes.
pub open spec fn cookie_pair(part: Seq<char>) -> Option<(Seq<char>, Seq<char>)> {
    match split_at_part(trimmed(part), "="@) {
        Some(p) => if trimmed(p.0).len() > 0 {
            Some((trimmed(p.0), trimmed(p.1)))
        } else {
            None
        },
        None => None,
    }
}

/// The pairs that the first `n` parts of a cookie text write; the last value of a name counts.
pub open spec fn cookie_pairs_of(parts: Seq<Seq<char>>, n: int) -> Pairs
    decreases n,
{
    if n <= 0 {
        Seq::empty()
    } else {
        match cookie_pair(parts[n - 1]) {
            Some(p) => with_pair(cookie_pairs_of(parts, n - 1), p.0, p.1),
            None => cookie_pairs_of(parts, n - 1),
        }
    }
}

/// The pairs of a cookie text.
pub open spec fn cookie_pairs(cookie: Seq<char>) -> Pairs {
    let parts = split_parts(cookie, ';');
    cookie_pairs_of(parts, parts.len() as int)
}

/// Each pair as it is written in a cookie text.
pub open spec fn pair_lines(pairs: Pairs) -> Seq<Seq<char>> {
    Seq::new(pairs.len(), |i: int| pairs[i].0 + "="@ + pairs[i].1)
}

/// Pairs as a cookie text.
pub open spec fn cookie_text(pairs: Pairs) -> Seq<char> {
    joined(pair_lines(pairs), "; "@, pairs.len() as int)
}

/// Sets the value of a name.
pub fn set_pair(pairs: &mut Vec<(String, String)>, name: &str, value: &str)
    ensures
        pair_texts(final(pairs)@) == with_pair(pair_texts(old(pairs)@), name@, value@),
{
    let ghost all = pair_texts(pairs@);
    let mut k: usize = 0;
    while k < pairs.len() && before(pairs[k].0.as_str(), name)
        invariant
            k <= pairs@.len(),
            all == pair_texts(pairs@),
            pairs@ == old(pairs)@,
            slot(all, name@, 0) == slot(all, name@, k as int),
        decreases pairs.len() - k,
    {
        k += 1;
    }
    assert(slot(all, name@, 0) == k);
    if k < pairs.len() && same(pairs[k].0.as_str(), name) {
        pairs.set(k, (name.to_owned(), value.to_owned()));
        assert(pair_texts(pairs@) =~= all.update(k as int, (name@, value@)));
    } else {
        pairs.insert(k, (name.to_owned(), value.to_owned()));
        assert(pair_texts(pairs@) =~= all.insert(k as int, (name@, value@)));
    }
}

/// Reads the pairs of a cookie text.
pub fn parse_cookie_pairs(cookie: &str) -> (r: Vec<(String, String)>)
    ensures
        pair_texts(r@) == cookie_pairs(cookie@),
{
    let parts = split_char(cookie, ';');
    let ghost all = split_parts(cookie@, ';');
    let mut out: Vec<(String, String)> = Vec::new();
    let mut i: usize = 0;
    assert(pair_texts(out@) =~= Seq::<(Seq<char>, Seq<char>)>::empty());
    while i < parts.len()
        invariant
            i <= parts@.len(),
            texts(parts@) == all,
            pair_texts(out@) == cookie_pairs_of(all, i as int),
        decreases parts.len() - i,
    {
        assert(parts@[i as int]@ == all[i as int]);
        match split_once(trim(parts[i].as_str()).as_str(), "=") {
            Some(p) => {
                let name = trim(p.0.as_str());
                let value = trim(p.1.as_str());
                if !empty(name.as_str()) {
                    set_pair(&mut out, name.as_str(), value.as_str());
                }
            },
            None => {},
        }
        i += 1;
    }
    assert(texts(parts@).len() == parts@.len());
    out
}

/// Writes pairs as a cookie text.
pub fn render_cookie(pairs: &Vec<(String, String)>) -> (r: String)
    ensures
        r@ == cookie_text(pair_texts(pairs@)),
{
    broadcast use {lemma_texts_push, lemma_texts_empty};

    let ghost all = pair_texts(pairs@);
    let mut lines: Vec<String> = Vec::new();
    let mut i: usize = 0;
    assert(texts(lines@) =~= pair_lines(all).take(0));
    while i < pairs.len()
        invariant
            i <= pairs@.len(),
            all == pair_texts(pairs@),
            texts(lines@) == pair_lines(all).take(i as int),
        decreases pairs.len() - i,
    {
        broadcast use {lemma_texts_push, lemma_texts_empty};

        lines.push(cat3(pairs[i].0.as_str(), "=", pairs[i].1.as_str()));
        i += 1;
        assert(all[i - 1] == (pairs@[i - 1].0@, pairs@[i - 1].1@));
        assert(texts(lines@) =~= pair_lines(all).take(i as int));
    }
    assert(pair_lines(all).take(i as int) =~= pair_lines(all));
    assert(texts(lines@).len() == lines@.len());
    join(&lines, "; ")
}

/// Whether a cookie text holds a value for a name.
pub open spec fn cookie_holds(cookie: Seq<char>, name: Seq<char>) -> bool {
    match pair_value(cookie_pairs(cookie), name, 0) {
        Some(value) => value.len() > 0,
        None => false,
    }
}

pub fn cookie_has_value(cookie: &str, name: &str) -> (r: bool)
    ensures
        r == cookie_holds(cookie@, name@),
{
    let pairs = parse_cookie_pairs(cookie);
    let ghost all = pair_texts(pairs@);
    let mut i: usize = 0;
    while i < pairs.len()
        invariant
            i <= pairs@.len(),
            all == pair_texts(pairs@),
            all == cookie_pairs(cookie@),
            pair_value(all, name@, 0) == pair_value(all, name@, i as int),
        decreases pairs.len() - i,
    {
        assert(all[i as int] == (pairs@[i as int].0@, pairs@[i as int].1@));
        if same(pairs[i].0.as_str(), name) {
            return !empty(pairs[i].1.as_str());
        }
        i += 1;
    }
    false
}

/// The text of a value that is there and not empty.
pub open spec fn filled(value: Option<Seq<char>>) -> Option<Seq<char>> {
    match value {
        Some(v) => if v.len() > 0 {
            Some(v)
        } else {
            None
        },
        None => None,
    }
}

pub fn if_filled(value: Option<String>) -> (r: Option<String>)
    ensures
        opt_text(r) == filled(opt_text(value)),
{
    match value {
        Some(v) => if empty(v.as_str()) {
            None
        } else {
            Some(v)
        },
        None => None,
    }
}

/// Whether the device cookies are fetched before a request: where there are none, or where the
/// server refused those that are there.
pub open spec fn needs_device(cookie: Option<Seq<char>>, refused: bool) -> bool {
    refused || match cookie {
        Some(c) => !cookie_holds(c, "buvid3"@),
        None => true,
    }
}

/// The cookies with those of the device, as the device server gave them; none where it gave no
/// usable ones. Cookies of other names stay.
pub open spec fn device_pairs(cookie: Option<Seq<char>>, device: Json) -> Option<Pairs> {
    match filled(str_at(device, "/data/b_3"@)) {
        Some(buvid3) => {
            let current = cookie_pairs(
                match cookie {
                    Some(c) => c,
                    None => Seq::empty(),
                },
            );
            let first = with_pair(current, "buvid3"@, buvid3);
            Some(
                match filled(str_at(device, "/data/b_4"@)) {
                    Some(buvid4) => with_pair(first, "buvid4"@, buvid4),
                    None => first,
                },
            )
        },
        None => None,
    }
}

/// Fetching the device cookies never loses or changes a cookie of the login, nor any other
/// cookie.
pub proof fn law_device_keeps_login(cookie: Seq<char>, device: Json, name: Seq<char>)
    requires
        name != "buvid3"@,
        name != "buvid4"@,
        device_pairs(Some(cookie), device) is Some,
    ensures
        pair_value(device_pairs(Some(cookie), device)->0, name, 0) == pair_value(
            cookie_pairs(cookie),
            name,
            0,
        ),
{
    let buvid3 = filled(str_at(device, "/data/b_3"@))->0;
    let current = cookie_pairs(cookie);
    law_with_pair(current, "buvid3"@, buvid3, name);
    match filled(str_at(device, "/data/b_4"@)) {
        Some(buvid4) => {
            law_with_pair(with_pair(current, "buvid3"@, buvid3), "buvid4"@, buvid4, name);
        },
        None => {},
    }
}

/// Whether the device cookies are fetched before a request.
pub fn asks_device(cookie: &Option<String>, refused: bool) -> (r: bool)
    ensures
        r == needs_device(opt_text(*cookie), refused),
{
    refused || match cookie {
        Some(c) => !cookie_has_value(c.as_str(), "buvid3"),
        None => true,
    }
}

/// The cookie text with the cookies of the device.
pub fn merge_device(cookie: &Option<String>, device: &Json) -> (r: Option<String>)
    ensures
        opt_text(r) == (match device_pairs(opt_text(*cookie), *device) {
            Some(pairs) => Some(cookie_text(pairs)),
            None => None,
        }),
{
    let buvid3 = match if_filled(get_str(device, "/data/b_3")) {
        Some(v) => v,
        None => {
            return None;
        },
    };
    let mut pairs = match cookie {
        Some(c) => parse_cookie_pairs(c.as_str()),
        None => {
            let blank = String::new();
            assert(blank@ =~= Seq::<char>::empty());
            parse_cookie_pairs(blank.as_str())
        },
    };
    set_pair(&mut pairs, "buvid3", buvid3.as_str());
    match if_filled(get_str(device, "/data/b_4")) {
        Some(buvid4) => {
            set_pair(&mut pairs, "buvid4", buvid4.as_str());
        },
        None => {},
    }
    Some(render_cookie(&pairs))
}

} // verus!
