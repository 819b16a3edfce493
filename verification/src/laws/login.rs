//! Signing in: codes to scan, what came of them, and the cookies that come with success.
use vstd::prelude::*;

use crate::credentials::either;
use crate::json::{member, signed_value, value_at, Json};
use crate::login::{
    bilibili_challenge_of, bilibili_poll_of, netease_challenge_of, netease_poll_of,
    set_cookie_pair, set_cookies_of, signed_decimal, LoginPoll,
};
use crate::outside::qr_png;
use crate::provider::bilibili::cookies::{
    cookie_holds, cookie_pair, cookie_pairs, cookie_pairs_of, cookie_text, device_pairs,
    law_with_pair, needs_device, pair_lines, pair_value, slot, text_before, with_pair, Pairs,
};
use crate::provider::{member_str, str_at};
use crate::telegram::signin::{
    challenge_note, poll_step, sign_in_of, target_named, target_title, target_word, LoginTarget,
    PollState, SignInView,
};
use crate::text::{decimal, lowered, split_parts, trimmed, words_of};

use super::text::{law_first_part, law_joined, law_parted, law_split};

verus! {

/// A whole number is written with a minus sign below zero.
pub proof fn law_whole_number_is_written(n: nat)
    ensures
        signed_decimal(n as int) == decimal(n),
        n > 0 ==> signed_decimal(-n) == "-"@ + decimal(n),
{
}

/// Whether an answer names an error.
pub open spec fn names_error(root: Json) -> bool {
    let code = signed_value(member(root, "code"@));
    code is Some && code->0 != 0
}

/// The code to scan shows the address that Bilibili gave, and is asked for by the key that came
/// with it.
pub proof fn law_challenge_of_bilibili(root: Json, key: Seq<char>, url: Seq<char>, png: Seq<u8>)
    requires
        !names_error(root),
        str_at(root, "/data/qrcode_key"@) == Some(key),
        str_at(root, "/data/url"@) == Some(url),
    ensures
        qr_png(url, 512, 512, true) == Some(png) ==> bilibili_challenge_of(root) == Ok::<
            (Seq<char>, Seq<u8>),
            Seq<char>,
        >((key, png)),
        qr_png(url, 512, 512, true) is None ==> bilibili_challenge_of(root) is Err,
{
}

/// Without a key or an address there is no code, and the message says what is missing.
pub proof fn law_challenge_is_refused(root: Json, message: Seq<char>)
    ensures
        names_error(root) && member_str(root, "message"@) == Some(message) ==> bilibili_challenge_of(
            root,
        ) == Err::<(Seq<char>, Seq<u8>), Seq<char>>("Bilibili"@ + " API: "@ + message),
        !names_error(root) && str_at(root, "/data/qrcode_key"@) is None ==> bilibili_challenge_of(
            root,
        ) == Err::<(Seq<char>, Seq<u8>), Seq<char>>("响应缺少字段 "@ + "/data/qrcode_key"@),
        !names_error(root) && str_at(root, "/data/qrcode_key"@) is Some && str_at(root, "/data/url"@)
            is None ==> bilibili_challenge_of(root) == Err::<(Seq<char>, Seq<u8>), Seq<char>>(
            "响应缺少字段 "@ + "/data/url"@,
        ),
{
}

/// The code of Netease shows the address that belongs to the key.
pub proof fn law_challenge_of_netease(key: Seq<char>, root: Json, url: Seq<char>, png: Seq<u8>)
    ensures
        str_at(root, "/data/qrurl"@) == Some(url) && qr_png(url, 512, 512, true) == Some(png)
            ==> netease_challenge_of(key, root) == Ok::<(Seq<char>, Seq<u8>), Seq<char>>((key, png)),
        str_at(root, "/data/qrurl"@) is None ==> netease_challenge_of(key, root) == Err::<
            (Seq<char>, Seq<u8>),
            Seq<char>,
        >("响应缺少字段 "@ + "/data/qrurl"@),
{
}

/// The states of a code of Bilibili.
pub proof fn law_poll_of_bilibili(cookies: Seq<Seq<char>>, root: Json, code: i64)
    requires
        !names_error(root),
        signed_value(value_at(root, "/data/code"@)) == Some(code),
    ensures
        ({
            let poll = bilibili_poll_of(cookies, root);
            let pairs = set_cookies_of(cookies, cookies.len() as int);
            &&& code == 86038 ==> poll is Ok && poll->Ok_0.0 is Expired
            &&& code == 86090 ==> poll is Ok && poll->Ok_0.0 is Scanned
            &&& code == 86101 ==> poll is Ok && poll->Ok_0.0 is Waiting
            &&& code == 0 ==> {
                &&& poll is Ok <==> pairs.len() > 0
                &&& poll is Ok ==> poll->Ok_0.0 is Success && poll->Ok_0.1 == Some(cookie_text(pairs))
            }
            &&& poll is Ok ==> code == 0 || code == 86038 || code == 86090 || code == 86101
            &&& poll is Ok && code != 0 ==> poll->Ok_0.1 is None
        }),
{
}

/// An unknown state is told with its number and message; an answer without a state, or with an
/// error of the API, is an error.
pub proof fn law_unknown_state_of_bilibili(
    cookies: Seq<Seq<char>>,
    root: Json,
    code: i64,
    message: Seq<char>,
)
    requires
        str_at(root, "/data/message"@) == Some(message),
        code != 0 && code != 86038 && code != 86090 && code != 86101,
    ensures
        !names_error(root) && signed_value(value_at(root, "/data/code"@)) == Some(code)
            ==> bilibili_poll_of(cookies, root) == Err::<(LoginPoll, Option<Seq<char>>), Seq<char>>(
            "Bilibili 扫码状态 "@ + signed_decimal(code as int) + ": "@ + message,
        ),
        names_error(root) ==> bilibili_poll_of(cookies, root) is Err,
        signed_value(value_at(root, "/data/code"@)) is None ==> bilibili_poll_of(cookies, root) is Err,
{
}

/// The states of a code of Netease; the cookie comes with success.
pub proof fn law_poll_of_netease(root: Json, code: i64)
    requires
        signed_value(member(root, "code"@)) == Some(code),
    ensures
        ({
            let poll = netease_poll_of(root);
            let cookie = member_str(root, "cookie"@);
            &&& code == 800 ==> poll is Ok && poll->Ok_0.0 is Expired
            &&& code == 801 ==> poll is Ok && poll->Ok_0.0 is Waiting
            &&& code == 802 ==> poll is Ok && poll->Ok_0.0 is Scanned
            &&& code == 803 ==> {
                &&& poll is Ok <==> cookie is Some && cookie->0.len() > 0
                &&& poll is Ok ==> poll->Ok_0.0 is Success && poll->Ok_0.1 == cookie
            }
            &&& poll is Ok ==> 800 <= code <= 803
            &&& poll is Ok && code != 803 ==> poll->Ok_0.1 is None
        }),
{
}

/// The pair of a header `name=value; …` is its name and its value.
pub proof fn law_pair_of_header(name: Seq<char>, value: Seq<char>, attributes: Seq<char>)
    requires
        !name.contains('='),
        !name.contains(';'),
        !value.contains(';'),
    ensures
        set_cookie_pair(name + "="@ + value) == Some((trimmed(name), trimmed(value))),
        set_cookie_pair(name + "="@ + value + ";"@ + attributes) == Some(
            (trimmed(name), trimmed(value)),
        ),
        set_cookie_pair(name) is None,
{
    reveal_strlit("=");
    reveal_strlit(";");
    let pair = name + "="@ + value;
    assert(!pair.contains(';')) by {
        if pair.contains(';') {
            let i = choose|i: int| 0 <= i < pair.len() && pair[i] == ';';
            if i < name.len() {
                assert(name[i] == ';');
            } else if i > name.len() {
                assert(value[i - name.len() - 1] == ';');
            }
        }
    }
    law_first_part(pair, ';', attributes);
    law_first_part(name, ';', attributes);
    assert(pair + ";"@ + attributes =~= pair.push(';') + attributes);
    law_parted(name, '=', value);
    assert(pair =~= name.push('=') + value);
    assert("="@ =~= seq!['=']);
}

/// Of several headers with one name the last counts, and none changes the value of another name.
pub proof fn law_last_header_counts(
    headers: Seq<Seq<char>>,
    header: Seq<char>,
    name: Seq<char>,
    value: Seq<char>,
    other: Seq<char>,
)
    requires
        set_cookie_pair(header) == Some((name, value)),
        other != name,
    ensures
        ({
            let before = set_cookies_of(headers, headers.len() as int);
            let after = set_cookies_of(headers.push(header), headers.len() as int + 1);
            &&& pair_value(after, name, 0) == Some(value)
            &&& pair_value(after, other, 0) == pair_value(before, other, 0)
        }),
{
    lemma_same_headers(headers, header, headers.len() as int);
    law_with_pair(set_cookies_of(headers, headers.len() as int), name, value, other);
}

proof fn lemma_same_headers(headers: Seq<Seq<char>>, header: Seq<char>, n: int)
    requires
        0 <= n <= headers.len(),
    ensures
        set_cookies_of(headers.push(header), n) == set_cookies_of(headers, n),
    decreases n,
{
    if n > 0 {
        lemma_same_headers(headers, header, n - 1);
    }
}

/// A part of a cookie `name=value` is a pair; without a name or an equals sign it is none.
pub proof fn law_pair_of_cookie(name: Seq<char>, value: Seq<char>, part: Seq<char>)
    requires
        !name.contains('='),
        trimmed(part) == name + "="@ + value,
    ensures
        trimmed(name).len() > 0 ==> cookie_pair(part) == Some((trimmed(name), trimmed(value))),
        trimmed(name).len() == 0 ==> cookie_pair(part) is None,
{
    reveal_strlit("=");
    law_parted(name, '=', value);
    assert(trimmed(part) =~= name.push('=') + value);
    assert("="@ =~= seq!['=']);
}

/// A cookie is read part by part, between its semicolons. Of several parts with one name the last
/// counts, and none changes the value of another name.
pub proof fn law_cookie_is_read(
    cookie: Seq<char>,
    part: Seq<char>,
    name: Seq<char>,
    value: Seq<char>,
    other: Seq<char>,
)
    requires
        !part.contains(';'),
        cookie_pair(part) == Some((name, value)),
        other != name,
    ensures
        ({
            let after = cookie_pairs(cookie + ";"@ + part);
            &&& pair_value(after, name, 0) == Some(value)
            &&& pair_value(after, other, 0) == pair_value(cookie_pairs(cookie), other, 0)
        }),
        cookie_pairs(part) == seq![(name, value)],
{
    reveal_strlit(";");
    law_split(cookie, ';', part);
    assert(cookie + ";"@ + part =~= cookie.push(';') + part);
    let parts = split_parts(cookie, ';');
    lemma_same_parts(parts, part, parts.len() as int);
    law_with_pair(cookie_pairs_of(parts, parts.len() as int), name, value, other);
    let none = cookie_pairs_of(seq![part], 0);
    assert(none =~= Seq::empty());
    assert(with_pair(none, name, value) =~= seq![(name, value)]);
}

proof fn lemma_same_parts(parts: Seq<Seq<char>>, part: Seq<char>, n: int)
    requires
        0 <= n <= parts.len(),
    ensures
        cookie_pairs_of(parts.push(part), n) == cookie_pairs_of(parts, n),
    decreases n,
{
    if n > 0 {
        lemma_same_parts(parts, part, n - 1);
    }
}

/// A cookie is written pair by pair, `name=value; name=value`.
pub proof fn law_cookie_is_written(pairs: Pairs, name: Seq<char>, value: Seq<char>)
    ensures
        cookie_text(seq![(name, value)]) == name + "="@ + value,
        pairs.len() > 0 ==> cookie_text(pairs.push((name, value))) == cookie_text(pairs) + "; "@ + (
        name + "="@ + value),
        cookie_text(Seq::empty()).len() == 0,
{
    let line = name + "="@ + value;
    law_joined(pair_lines(pairs), line, "; "@);
    assert(pair_lines(seq![(name, value)]) =~= seq![line]);
    assert(pair_lines(pairs.push((name, value))) =~= pair_lines(pairs).push(line));
    assert(pair_lines(Seq::empty()) =~= Seq::<Seq<char>>::empty());
}

/// Of two texts the one before the other is its beginning, or has the smaller character where
/// they first differ.
pub proof fn law_order_of_texts(a: Seq<char>, c: char, d: char, more: Seq<char>, rest: Seq<char>)
    requires
        c < d,
    ensures
        more.len() > 0 ==> text_before(a, a + more, 0),
        !text_before(a + more, a, 0),
        text_before(a.push(c) + more, a.push(d) + rest, 0),
        !text_before(a.push(d) + rest, a.push(c) + more, 0),
{
    lemma_common_start(a, a + more, 0, a.len() as int);
    lemma_common_start(a + more, a, 0, a.len() as int);
    lemma_common_start(a.push(c) + more, a.push(d) + rest, 0, a.len() as int);
    lemma_common_start(a.push(d) + rest, a.push(c) + more, 0, a.len() as int);
}

proof fn lemma_common_start(a: Seq<char>, b: Seq<char>, i: int, n: int)
    requires
        0 <= i <= n <= a.len(),
        n <= b.len(),
        forall|k: int| 0 <= k < n ==> a[k] == b[k],
    ensures
        text_before(a, b, i) == text_before(a, b, n),
    decreases n - i,
{
    if i < n {
        lemma_common_start(a, b, i + 1, n);
    }
}

/// A new name stands behind every name before it, and the others keep their order.
pub proof fn law_new_pair_is_placed(pairs: Pairs, name: Seq<char>, value: Seq<char>)
    requires
        pair_value(pairs, name, 0) is None,
    ensures
        ({
            let k = slot(pairs, name, 0);
            &&& 0 <= k <= pairs.len()
            &&& with_pair(pairs, name, value) == pairs.take(k).push((name, value)) + pairs.skip(k)
            &&& forall|j: int| 0 <= j < k ==> text_before(#[trigger] pairs[j].0, name, 0)
            &&& k < pairs.len() ==> !text_before(pairs[k].0, name, 0)
        }),
{
    lemma_place(pairs, name, 0);
    let k = slot(pairs, name, 0);
    if k < pairs.len() && pairs[k].0 == name {
        lemma_named(pairs, name, 0, k);
    }
    assert(with_pair(pairs, name, value) =~= pairs.take(k).push((name, value)) + pairs.skip(k));
}

proof fn lemma_place(pairs: Pairs, name: Seq<char>, i: int)
    requires
        0 <= i <= pairs.len(),
    ensures
        i <= slot(pairs, name, i) <= pairs.len(),
        forall|j: int|
            i <= j < slot(pairs, name, i) ==> text_before(#[trigger] pairs[j].0, name, 0),
        slot(pairs, name, i) < pairs.len() ==> !text_before(
            pairs[slot(pairs, name, i)].0,
            name,
            0,
        ),
    decreases pairs.len() - i,
{
    if i < pairs.len() && text_before(pairs[i].0, name, 0) {
        lemma_place(pairs, name, i + 1);
    }
}

proof fn lemma_named(pairs: Pairs, name: Seq<char>, from: int, at: int)
    requires
        0 <= from <= at < pairs.len(),
        pairs[at].0 == name,
    ensures
        pair_value(pairs, name, from) is Some,
    decreases at - from,
{
    if from < at && pairs[from].0 != name {
        lemma_named(pairs, name, from + 1, at);
    }
}

/// The device is named by what the server gave: the third name always, the fourth where there
/// is one; without the third nothing is changed.
pub proof fn law_device_is_named(cookie: Option<Seq<char>>, device: Json)
    ensures
        ({
            let third = str_at(device, "/data/b_3"@);
            let fourth = str_at(device, "/data/b_4"@);
            let pairs = device_pairs(cookie, device);
            &&& pairs is Some <==> third is Some && third->0.len() > 0
            &&& pairs is Some ==> pair_value(pairs->0, "buvid3"@, 0) == third
            &&& pairs is Some && fourth is Some && fourth->0.len() > 0 ==> pair_value(
                pairs->0,
                "buvid4"@,
                0,
            ) == fourth
        }),
{
    reveal_strlit("buvid3");
    reveal_strlit("buvid4");
    assert("buvid3"@[5] == '3' && "buvid4"@[5] == '4');
    let third = str_at(device, "/data/b_3"@);
    let fourth = str_at(device, "/data/b_4"@);
    if third is Some {
        let current = cookie_pairs(
            match cookie {
                Some(c) => c,
                None => Seq::empty(),
            },
        );
        law_with_pair(current, "buvid3"@, third->0, "buvid4"@);
        if fourth is Some {
            law_with_pair(with_pair(current, "buvid3"@, third->0), "buvid4"@, fourth->0, "buvid3"@);
        }
    }
}

/// The device is named anew where the cookie does not name it, or where the server refused it.
pub proof fn law_device_is_needed(cookie: Seq<char>)
    ensures
        needs_device(None, false),
        needs_device(Some(cookie), true),
        needs_device(Some(cookie), false) <==> !cookie_holds(cookie, "buvid3"@),
        cookie_holds(cookie, "buvid3"@) <==> pair_value(cookie_pairs(cookie), "buvid3"@, 0) is Some
            && pair_value(cookie_pairs(cookie), "buvid3"@, 0)->0.len() > 0,
{
}

/// A stored cookie goes before that of the settings.
pub proof fn law_stored_cookie_first(stored: Seq<char>, set: Option<Seq<char>>)
    ensures
        either(Some(stored), set) == Some(stored),
        either(None, set) == set,
{
}

/// The words that name a platform to sign in to.
pub proof fn law_platform_is_named(word: Seq<char>)
    ensures
        target_named("bili"@) == Some(LoginTarget::Bilibili),
        target_named("bilibili"@) == Some(LoginTarget::Bilibili),
        target_named("b站"@) == Some(LoginTarget::Bilibili),
        target_named("netease"@) == Some(LoginTarget::Netease),
        target_named("163"@) == Some(LoginTarget::Netease),
        target_named("music"@) == Some(LoginTarget::Netease),
        target_named("网易云"@) == Some(LoginTarget::Netease),
        target_named(word) == Some(LoginTarget::Bilibili) ==> word == "bili"@ || word == "bilibili"@
            || word == "b站"@,
        target_named(word) == Some(LoginTarget::Netease) ==> word == "netease"@ || word == "163"@
            || word == "music"@ || word == "网易云"@,
{
    reveal_strlit("bili");
    reveal_strlit("bilibili");
    reveal_strlit("b站");
    reveal_strlit("netease");
    reveal_strlit("163");
    reveal_strlit("music");
    reveal_strlit("网易云");
    assert("netease"@[0] == 'n' && "163"@[0] == '1' && "music"@[0] == 'm' && "网易云"@[0] == '网');
    assert("bili"@[0] == 'b' && "bilibili"@[0] == 'b' && "b站"@[0] == 'b');
}

/// The word behind the command names the platform, in any case; without one it is Bilibili.
pub proof fn law_word_behind_command(text: Seq<char>, command: Seq<char>, word: Seq<char>)
    ensures
        words_of(text) == seq![command, word] ==> target_word(text) == lowered(word),
        words_of(text) == seq![command] ==> target_word(text) == "bili"@,
{
}

/// Who may sign in: the administrator, in a private chat, to a platform that is named. Anyone
/// else is told why not.
pub proof fn law_who_signs_in(user: u64, private: bool, admin: Option<u64>, text: Seq<char>)
    ensures
        ({
            let answer = sign_in_of(Some(user), private, admin, text);
            let named = target_named(target_word(text));
            &&& private && admin == Some(user) && named is Some ==> answer == SignInView::Start(
                named->0,
            )
            &&& private && admin == Some(user) && named is None ==> answer == SignInView::Refuse(
                "用法：/login bili 或 /login netease"@,
            )
            &&& private && admin is None ==> answer == SignInView::Refuse(
                "当前未配置 ADMIN_USER_ID。你的 Telegram 用户 ID 是 "@ + decimal(user as nat) + "。"@,
            )
            &&& private && admin is Some && admin != Some(user) ==> answer == SignInView::Refuse(
                "你无权更新 Bot 的平台凭证。"@,
            )
            &&& !private ==> answer == SignInView::Refuse(
                "为避免登录二维码泄露，请在 Bot 私聊中使用 /login。"@,
            )
            &&& sign_in_of(None, private, admin, text) == SignInView::Ignore
        }),
{
}

/// What a user is told while a code is shown, and when asking ends.
pub proof fn law_state_is_told(state: PollState, target: LoginTarget, error: Seq<char>)
    requires
        state.polls < 65,
    ensures
        ({
            let last = state.polls == 64;
            let waiting = poll_step(state, target, Ok(LoginPoll::Waiting));
            let scanned = poll_step(state, target, Ok(LoginPoll::Scanned));
            let success = poll_step(state, target, Ok(LoginPoll::Success));
            let expired = poll_step(state, target, Ok(LoginPoll::Expired));
            let failed = poll_step(state, target, Err(error));
            &&& waiting.1 is Some <==> !last
            &&& scanned.1 is Some <==> !last
            &&& !last ==> waiting.0.len() == 0 && waiting.1->0.told == state.told
            &&& !last ==> waiting.1->0.polls == state.polls + 1
            &&& !last ==> scanned.1->0.polls == state.polls + 1
            &&& last ==> waiting.0 == seq!["登录超时，请重新发送 /login。"@]
            &&& !state.told && !last ==> scanned.0 == seq!["已扫码，请在手机客户端中确认登录。"@]
            &&& state.told && !last ==> scanned.0.len() == 0
            &&& !last ==> scanned.1->0.told
            &&& success.0 == seq![
                target_title(target) + " 扫码登录成功，Cookie 已持久化并立即生效。"@,
            ]
            &&& expired.0 == seq!["登录二维码已过期，请重新发送 /login。"@]
            &&& failed.0 == seq!["扫码登录失败："@ + error]
            &&& success.1 is None && expired.1 is None && failed.1 is None
        }),
        target_title(LoginTarget::Bilibili) == "Bilibili"@,
        target_title(LoginTarget::Netease) == "网易云"@,
        challenge_note(LoginTarget::Bilibili) == "请使用哔哩哔哩客户端扫码并确认登录，二维码约 3 分钟后过期。"@,
        challenge_note(LoginTarget::Netease) == "请使用网易云音乐客户端扫码并确认登录。"@,
{
}

/// Where the message is missing the error is unknown; an address that cannot be drawn is told.
pub proof fn law_errors_are_told(root: Json, key: Seq<char>, url: Seq<char>)
    ensures
        names_error(root) && member_str(root, "message"@) is None ==> bilibili_challenge_of(root)
            == Err::<(Seq<char>, Seq<u8>), Seq<char>>("Bilibili"@ + " API: "@ + "未知错误"@),
        str_at(root, "/data/qrurl"@) == Some(url) && qr_png(url, 512, 512, true) is None
            ==> netease_challenge_of(key, root) == Err::<(Seq<char>, Seq<u8>), Seq<char>>(
            "生成二维码失败"@,
        ),
        signed_value(member(root, "code"@)) is None ==> netease_poll_of(root) == Err::<
            (LoginPoll, Option<Seq<char>>),
            Seq<char>,
        >("网易云扫码响应缺少状态码"@),
        signed_value(member(root, "code"@)) == Some(1i64) && member_str(root, "message"@) is None
            ==> netease_poll_of(root) == Err::<(LoginPoll, Option<Seq<char>>), Seq<char>>(
            "网易云扫码状态 "@ + signed_decimal(1) + ": "@ + "未知错误"@,
        ),
        signed_value(member(root, "code"@)) == Some(803i64) && member_str(root, "cookie"@) is None
            ==> netease_poll_of(root) == Err::<(LoginPoll, Option<Seq<char>>), Seq<char>>(
            "网易云扫码成功但响应中没有 Cookie"@,
        ),
        !names_error(root) && signed_value(value_at(root, "/data/code"@)) is None
            ==> bilibili_poll_of(Seq::empty(), root) == Err::<
            (LoginPoll, Option<Seq<char>>),
            Seq<char>,
        >("Bilibili 扫码响应缺少状态码"@),
        !names_error(root) && signed_value(value_at(root, "/data/code"@)) == Some(0i64)
            ==> bilibili_poll_of(Seq::empty(), root) == Err::<
            (LoginPoll, Option<Seq<char>>),
            Seq<char>,
        >("Bilibili 登录成功但响应中没有 Cookie"@),
{
}

} // verus!
