//! Documents and replies.
use vstd::prelude::*;

use crate::json::{
    below, bool_value, child, json_document, list_value, lookup_from, member, value_at, Json,
};
use crate::model::ErrorView;
use crate::outside::url_parts;
use crate::provider::{
    list_at, low_u32, member_str, member_u64, reply_document, str_at, u64_at, url_filename,
    HttpReply,
};
use crate::text::{decimal, law_decimal_read_back, split_parts};

use super::text::law_split;

verus! {

proof fn lemma_lookup(entries: Seq<(String, Json)>, key: Seq<char>, from: int)
    requires
        0 <= from <= entries.len(),
    ensures
        match lookup_from(entries, key, from) {
            Some(v) => exists|k: int|
                from <= k < entries.len() && (#[trigger] entries[k]).0@ == key && entries[k].1 == v
                    && forall|j: int| from <= j < k ==> (#[trigger] entries[j]).0@ != key,
            None => forall|k: int| from <= k < entries.len() ==> (#[trigger] entries[k]).0@ != key,
        },
    decreases entries.len() - from,
{
    if from < entries.len() && entries[from].0@ != key {
        lemma_lookup(entries, key, from + 1);
    }
}

/// The member of an object is the value of the entry with its name; what is no object has no
/// member.
pub proof fn law_member(value: Json, key: Seq<char>)
    ensures
        match value {
            Json::Object(entries) => match member(value, key) {
                Some(v) => exists|k: int|
                    0 <= k < entries@.len() && (#[trigger] entries@[k]).0@ == key && entries@[k].1
                        == v && forall|j: int| 0 <= j < k ==> (#[trigger] entries@[j]).0@ != key,
                None => forall|k: int|
                    0 <= k < entries@.len() ==> (#[trigger] entries@[k]).0@ != key,
            },
            _ => member(value, key) is None,
        },
        child(value, key) is Some && value is Object ==> child(value, key) == member(value, key),
{
    match value {
        Json::Object(entries) => {
            lemma_lookup(entries@, key, 0);
        },
        _ => {},
    }
}

/// The item of a list is found by its number, counted from zero.
pub proof fn law_item_of_list(value: Json, items: Seq<Json>, i: nat)
    requires
        list_value(Some(value)) == Some(items),
        i <= u64::MAX,
    ensures
        child(value, decimal(i)) == (if i < items.len() {
            Some(items[i as int])
        } else {
            None
        }),
{
    law_decimal_read_back(i, u64::MAX as nat);
    let s = decimal(i);
    lemma_no_leading_zero(i);
}

proof fn lemma_no_leading_zero(n: nat)
    ensures
        decimal(n).len() > 0,
        '0' <= decimal(n)[0] <= '9',
        decimal(n)[0] == '0' ==> n == 0 && decimal(n).len() == 1,
    decreases n,
{
    if n >= 10 {
        lemma_no_leading_zero(n / 10);
        assert(decimal(n)[0] == decimal(n / 10)[0]);
    }
}

proof fn lemma_below(value: Json, a: Seq<Seq<char>>, step: Seq<char>, i: int)
    requires
        0 <= i <= a.len(),
    ensures
        below(value, a.push(step), i) == (match below(value, a, i) {
            Some(v) => child(v, step),
            None => None,
        }),
    decreases a.len() - i,
{
    let more = a.push(step);
    if i < a.len() {
        assert(more[i] == a[i]);
        match child(value, a[i]) {
            Some(next) => {
                lemma_below(next, a, step, i + 1);
            },
            None => {},
        }
    } else {
        assert(more[i] == step);
        match child(value, step) {
            Some(next) => {
                assert(below(next, more, i + 1) == Some(next));
            },
            None => {},
        }
    }
}

/// A path is followed step by step: an empty one leads to the value itself, and one step more to
/// what lies one step below.
pub proof fn law_path_is_followed(value: Json, path: Seq<char>, step: Seq<char>)
    requires
        !step.contains('/'),
        path.len() == 0 || path[0] == '/',
    ensures
        value_at(value, Seq::empty()) == Some(value),
        value_at(value, path.push('/') + step) == (match value_at(value, path) {
            Some(v) => child(v, step),
            None => None,
        }),
{
    law_split(path, '/', step);
    let whole = path.push('/') + step;
    let steps = split_parts(path, '/');
    assert(whole[0] == '/');
    lemma_below(value, steps, step, 1);
    if path.len() == 0 {
        law_split(path, '/', Seq::empty());
        assert(path =~= Seq::<char>::empty());
        assert(steps =~= seq![Seq::<char>::empty()]);
        assert(below(value, steps, 1) == Some(value));
    } else {
        assert(steps.len() >= 1);
    }
}

/// What is read at a path is what stands there: a text, a whole number or one that is written
/// out, and the items of a list.
pub proof fn law_values(value: Json, path: Seq<char>, key: Seq<char>)
    ensures
        match value_at(value, path) {
            Some(Json::Text(s)) => str_at(value, path) == Some(s@) && list_at(value, path).len() == 0,
            Some(Json::List(items)) => list_at(value, path) == items@ && str_at(value, path) is None
                && u64_at(value, path) is None,
            Some(Json::Number(n)) => (n.unsigned is Some ==> u64_at(value, path) == n.unsigned)
                && str_at(value, path) is None,
            Some(_) => str_at(value, path) is None && u64_at(value, path) is None && list_at(
                value,
                path,
            ).len() == 0,
            None => str_at(value, path) is None && u64_at(value, path) is None && list_at(
                value,
                path,
            ).len() == 0,
        },
        match member(value, key) {
            Some(Json::Text(s)) => member_str(value, key) == Some(s@) && member_u64(value, key) is None,
            Some(Json::Number(n)) => member_u64(value, key) == n.unsigned && member_str(
                value,
                key,
            ) is None,
            _ => member_str(value, key) is None && member_u64(value, key) is None,
        },
        bool_value(Some(Json::Bool(true))) == Some(true),
        bool_value(Some(Json::Bool(false))) == Some(false),
        !(value is Bool) ==> bool_value(Some(value)) is None,
        bool_value(None) is None,
{
}

/// A number that is written out as a text counts as the number.
pub proof fn law_written_number_counts(value: Json, path: Seq<char>, text: String, n: u64)
    requires
        value_at(value, path) == Some(Json::Text(text)),
        text@ == decimal(n as nat),
    ensures
        u64_at(value, path) == Some(n),
{
    law_decimal_read_back(n as nat, u64::MAX as nat);
}

/// A number that fits into 32 bits stays as it is.
pub proof fn law_small_number(n: u64)
    requires
        n <= u32::MAX,
    ensures
        low_u32(Some(n)) == Some(n as u32),
        (n as u32) as u64 == n,
        low_u32(None) is None,
{
}

/// A reply is read as a document where its status means success; every other status means its
/// own error.
pub proof fn law_reply(reply: HttpReply, source: Seq<char>)
    ensures
        200 <= reply.status < 300 ==> match json_document(reply.body@) {
            Ok(document) => reply_document(reply, source) == Ok::<Json, ErrorView>(document),
            Err(message) => reply_document(reply, source) == Err::<Json, ErrorView>(
                ErrorView::InvalidResponse(source + ": "@ + message),
            ),
        },
        reply.status == 401 || reply.status == 403 ==> reply_document(reply, source) == Err::<
            Json,
            ErrorView,
        >(ErrorView::Authentication(source)),
        reply.status == 404 ==> reply_document(reply, source) == Err::<Json, ErrorView>(
            ErrorView::Unavailable(source),
        ),
        reply.status == 429 ==> reply_document(reply, source) == Err::<Json, ErrorView>(
            ErrorView::RateLimited(source),
        ),
        reply.status < 200 || reply.status >= 500 ==> reply_document(reply, source) == Err::<
            Json,
            ErrorView,
        >(ErrorView::Upstream(source + ": HTTP "@ + reply.status_text@)),
        !(200 <= reply.status < 300) ==> reply_document(reply, source) is Err,
{
}

/// A file is named by the last segment of its address, and by the other name where there is none.
pub proof fn law_file_name(url: Seq<char>, fallback: Seq<char>)
    ensures
        match url_parts(url) {
            Some(parts) => match parts.segments {
                Some(segments) => if segments.len() > 0 && segments.last().len() > 0 {
                    url_filename(url, fallback) == segments.last()
                } else {
                    url_filename(url, fallback) == fallback
                },
                None => url_filename(url, fallback) == fallback,
            },
            None => url_filename(url, fallback) == fallback,
        },
{
}

} // verus!
