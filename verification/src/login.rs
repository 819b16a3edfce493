//! Logging in to a platform with a QR code.
use vstd::prelude::*;

use crate::config::Config;
use crate::json::{json_document, member, parse_json, signed_value, value_at, Json};
use crate::outside::{qr_png, render_qr};
use crate::provider::bilibili::cookies::{
    cookie_text, filled, if_filled, render_cookie, set_pair, with_pair, Pairs,
};
use crate::provider::{field_str, get_str, member_str, str_at};
use crate::text::{
    cat2, cat4, decimal, number_text, opt_text, pair_texts, split_at_part, split_char, split_once,
    split_parts, texts, trim, trim_end_char, trim_end_of, trimmed,
};

verus! {

/// A QR code to be scanned, and the key by which its state is asked for.
#[derive(Debug)]
pub struct LoginChallenge {
    pub key: String,
    pub image: Vec<u8>,
}

/// The state of a QR code.
#[derive(Debug, Clone, Copy, PartialEq, Eq, Structural)]
pub enum LoginPoll {
    Waiting,
    Scanned,
    Success,
    Expired,
}

/// A key and an image as plain values.
pub type ChallengeView = (Seq<char>, Seq<u8>);

/// A challenge or a message, as plain values.
pub open spec fn challenge_result(r: Result<LoginChallenge, String>) -> Result<
    ChallengeView,
    Seq<char>,
> {
    match r {
        Ok(c) => Ok((c.key@, c.image@)),
        Err(message) => Err(message@),
    }
}

/// The state of a QR code, and the cookie that a login gave.
#[derive(Debug)]
pub struct LoginOutcome {
    pub poll: LoginPoll,
    pub cookie: Option<String>,
}

/// A state or a message, as plain values.
pub open spec fn outcome_result(r: Result<LoginOutcome, String>) -> Result<
    (LoginPoll, Option<Seq<char>>),
    Seq<char>,
> {
    match r {
        Ok(o) => Ok((o.poll, opt_text(o.cookie))),
        Err(message) => Err(message@),
    }
}

/// A whole number in decimal digits, with its sign where it is negative.
pub open spec fn signed_decimal(n: int) -> Seq<char> {
    if n < 0 {
        "-"@ + decimal((-n) as nat)
    } else {
        decimal(n as nat)
    }
}

pub fn signed_text(n: i64) -> (r: String)
    ensures
        r@ == signed_decimal(n as int),
{
    if n < 0 {
        let positive: u64 = if n == i64::MIN {
            9223372036854775808
        } else {
            (-n) as u64
        };
        cat2("-", number_text(positive).as_str())
    } else {
        number_text(n as u64)
    }
}

/// The message in a document, or that the error is unknown.
pub open spec fn message_or_unknown(message: Option<Seq<char>>) -> Seq<char> {
    match message {
        Some(m) => m,
        None => "未知错误"@,
    }
}

/// Why a document does not mean success; none where it does.
pub open spec fn api_failure(root: Json, name: Seq<char>) -> Option<Seq<char>> {
    match signed_value(member(root, "code"@)) {
        Some(code) => if code != 0 {
            Some(name + " API: "@ + message_or_unknown(member_str(root, "message"@)))
        } else {
            None
        },
        None => None,
    }
}

fn or_unknown(message: Option<String>) -> (r: String)
    ensures
        r@ == message_or_unknown(opt_text(message)),
{
    match message {
        Some(m) => m,
        None => "未知错误".to_owned(),
    }
}

pub fn ensure_api_success(root: &Json, name: &str) -> (r: Result<(), String>)
    ensures
        match r {
            Ok(_) => api_failure(*root, name@) is None,
            Err(message) => api_failure(*root, name@) == Some(message@),
        },
{
    let code: i64 = match root.get("code") {
        Some(v) => match v.as_i64() {
            Some(code) => code,
            None => 0,
        },
        None => 0,
    };
    if code != 0 {
        return Err(
            crate::text::cat3(name, " API: ", or_unknown(field_str(root, "message")).as_str()),
        );
    }
    Ok(())
}

/// The text at a path, or the message that it is missing.
pub open spec fn needed_str(root: Json, pointer: Seq<char>) -> Result<Seq<char>, Seq<char>> {
    match str_at(root, pointer) {
        Some(s) => Ok(s),
        None => Err("响应缺少字段 "@ + pointer),
    }
}

/// A text or a message, as plain values.
pub open spec fn text_or_message(r: Result<String, String>) -> Result<Seq<char>, Seq<char>> {
    match r {
        Ok(s) => Ok(s@),
        Err(message) => Err(message@),
    }
}

pub fn value_str(root: &Json, pointer: &str) -> (r: Result<String, String>)
    ensures
        text_or_message(r) == needed_str(*root, pointer@),
{
    match get_str(root, pointer) {
        Some(s) => Ok(s),
        None => Err(cat2("响应缺少字段 ", pointer)),
    }
}

/// The least width and height of the image of a QR code, in pixels.
pub const QR_SIZE: u32 = 512;

/// The challenge of a key and the address that its QR code holds. The image is a square with a
/// quiet zone.
pub open spec fn challenge_of(key: Seq<char>, url: Seq<char>) -> Result<ChallengeView, Seq<char>> {
    match qr_png(url, QR_SIZE, QR_SIZE, true) {
        Some(png) => Ok((key, png)),
        None => Err("生成二维码失败"@),
    }
}

fn challenge(key: String, url: &str) -> (r: Result<LoginChallenge, String>)
    ensures
        challenge_result(r) == challenge_of(key@, url@),
{
    match render_qr(url, QR_SIZE, QR_SIZE, true) {
        Some(image) => Ok(LoginChallenge { key, image }),
        None => Err("生成二维码失败".to_owned()),
    }
}

/// The challenge in the reply of Bilibili.
pub open spec fn bilibili_challenge_of(root: Json) -> Result<ChallengeView, Seq<char>> {
    match api_failure(root, "Bilibili"@) {
        Some(message) => Err(message),
        None => match needed_str(root, "/data/qrcode_key"@) {
            Err(message) => Err(message),
            Ok(key) => match needed_str(root, "/data/url"@) {
                Err(message) => Err(message),
                Ok(url) => challenge_of(key, url),
            },
        },
    }
}

pub fn bilibili_challenge_in(root: &Json) -> (r: Result<LoginChallenge, String>)
    ensures
        challenge_result(r) == bilibili_challenge_of(*root),
{
    match ensure_api_success(root, "Bilibili") {
        Err(message) => Err(message),
        Ok(_) => match value_str(root, "/data/qrcode_key") {
            Err(message) => Err(message),
            Ok(key) => match value_str(root, "/data/url") {
                Err(message) => Err(message),
                Ok(url) => challenge(key, url.as_str()),
            },
        },
    }
}

/// The name and value that a `Set-Cookie` header sets.
pub open spec fn set_cookie_pair(header: Seq<char>) -> Option<(Seq<char>, Seq<char>)> {
    match split_at_part(split_parts(header, ';')[0], "="@) {
        Some(p) => Some((trimmed(p.0), trimmed(p.1))),
        None => None,
    }
}

/// The cookies that the first `n` headers set.
pub open spec fn set_cookies_of(values: Seq<Seq<char>>, n: int) -> Pairs
    decreases n,
{
    if n <= 0 {
        Seq::empty()
    } else {
        match set_cookie_pair(values[n - 1]) {
            Some(p) => with_pair(set_cookies_of(values, n - 1), p.0, p.1),
            None => set_cookies_of(values, n - 1),
        }
    }
}

fn cookies_in(values: &Vec<String>) -> (r: Vec<(String, String)>)
    ensures
        pair_texts(r@) == set_cookies_of(texts(values@), values@.len() as int),
{
    let ghost all = texts(values@);
    let mut out: Vec<(String, String)> = Vec::new();
    let mut i: usize = 0;
    assert(pair_texts(out@) =~= Seq::<(Seq<char>, Seq<char>)>::empty());
    while i < values.len()
        invariant
            i <= values@.len(),
            all == texts(values@),
            pair_texts(out@) == set_cookies_of(all, i as int),
        decreases values.len() - i,
    {
        assert(all[i as int] == values@[i as int]@);
        let parts = split_char(values[i].as_str(), ';');
        assert(texts(parts@)[0] == parts@[0]@);
        match split_once(parts[0].as_str(), "=") {
            Some(p) => {
                set_pair(&mut out, trim(p.0.as_str()).as_str(), trim(p.1.as_str()).as_str());
            },
            None => {},
        }
        i += 1;
    }
    out
}

/// The state of the QR code in a reply of Bilibili, whose headers set cookies.
pub open spec fn bilibili_poll_of(cookies: Seq<Seq<char>>, root: Json) -> Result<
    (LoginPoll, Option<Seq<char>>),
    Seq<char>,
> {
    let pairs = set_cookies_of(cookies, cookies.len() as int);
    match api_failure(root, "Bilibili"@) {
        Some(message) => Err(message),
        None => match signed_value(value_at(root, "/data/code"@)) {
            None => Err("Bilibili 扫码响应缺少状态码"@),
            Some(code) => if code == 0 {
                if pairs.len() == 0 {
                    Err("Bilibili 登录成功但响应中没有 Cookie"@)
                } else {
                    Ok((LoginPoll::Success, Some(cookie_text(pairs))))
                }
            } else if code == 86038 {
                Ok((LoginPoll::Expired, None))
            } else if code == 86090 {
                Ok((LoginPoll::Scanned, None))
            } else if code == 86101 {
                Ok((LoginPoll::Waiting, None))
            } else {
                Err(
                    "Bilibili 扫码状态 "@ + signed_decimal(code as int) + ": "@
                        + message_or_unknown(str_at(root, "/data/message"@)),
                )
            },
        },
    }
}

pub fn bilibili_poll_in(cookies: &Vec<String>, root: &Json) -> (r: Result<LoginOutcome, String>)
    ensures
        outcome_result(r) == bilibili_poll_of(texts(cookies@), *root),
{
    match ensure_api_success(root, "Bilibili") {
        Err(message) => {
            return Err(message);
        },
        Ok(_) => {},
    }
    assert(texts(cookies@).len() == cookies@.len());
    let code: i64 = match root.pointer("/data/code") {
        Some(v) => match v.as_i64() {
            Some(code) => code,
            None => {
                return Err("Bilibili 扫码响应缺少状态码".to_owned());
            },
        },
        None => {
            return Err("Bilibili 扫码响应缺少状态码".to_owned());
        },
    };
    if code == 0 {
        let pairs = cookies_in(cookies);
        assert(pair_texts(pairs@).len() == pairs@.len());
        if pairs.len() == 0 {
            return Err("Bilibili 登录成功但响应中没有 Cookie".to_owned());
        }
        return Ok(LoginOutcome { poll: LoginPoll::Success, cookie: Some(render_cookie(&pairs)) });
    }
    if code == 86038 {
        return Ok(LoginOutcome { poll: LoginPoll::Expired, cookie: None });
    }
    if code == 86090 {
        return Ok(LoginOutcome { poll: LoginPoll::Scanned, cookie: None });
    }
    if code == 86101 {
        return Ok(LoginOutcome { poll: LoginPoll::Waiting, cookie: None });
    }
    Err(
        cat4(
            "Bilibili 扫码状态 ",
            signed_text(code).as_str(),
            ": ",
            or_unknown(get_str(root, "/data/message")).as_str(),
        ),
    )
}

/// The challenge in the replies of the Netease server: the key comes first, and then the
/// address for it.
pub open spec fn netease_challenge_of(key: Seq<char>, root: Json) -> Result<
    ChallengeView,
    Seq<char>,
> {
    match needed_str(root, "/data/qrurl"@) {
        Ok(url) => challenge_of(key, url),
        Err(message) => Err(message),
    }
}

pub fn netease_challenge_in(key: String, root: &Json) -> (r: Result<LoginChallenge, String>)
    ensures
        challenge_result(r) == netease_challenge_of(key@, *root),
{
    match value_str(root, "/data/qrurl") {
        Ok(url) => challenge(key, url.as_str()),
        Err(message) => Err(message),
    }
}

/// The state of the QR code in a reply of the Netease server.
pub open spec fn netease_poll_of(root: Json) -> Result<(LoginPoll, Option<Seq<char>>), Seq<char>> {
    match signed_value(member(root, "code"@)) {
        None => Err("网易云扫码响应缺少状态码"@),
        Some(code) => if code == 800 {
            Ok((LoginPoll::Expired, None))
        } else if code == 801 {
            Ok((LoginPoll::Waiting, None))
        } else if code == 802 {
            Ok((LoginPoll::Scanned, None))
        } else if code == 803 {
            match filled(member_str(root, "cookie"@)) {
                Some(cookie) => Ok((LoginPoll::Success, Some(cookie))),
                None => Err("网易云扫码成功但响应中没有 Cookie"@),
            }
        } else {
            Err(
                "网易云扫码状态 "@ + signed_decimal(code as int) + ": "@ + message_or_unknown(
                    member_str(root, "message"@),
                ),
            )
        },
    }
}

pub fn netease_poll_in(root: &Json) -> (r: Result<LoginOutcome, String>)
    ensures
        outcome_result(r) == netease_poll_of(*root),
{
    let code: i64 = match root.get("code") {
        Some(v) => match v.as_i64() {
            Some(code) => code,
            None => {
                return Err("网易云扫码响应缺少状态码".to_owned());
            },
        },
        None => {
            return Err("网易云扫码响应缺少状态码".to_owned());
        },
    };
    if code == 800 {
        return Ok(LoginOutcome { poll: LoginPoll::Expired, cookie: None });
    }
    if code == 801 {
        return Ok(LoginOutcome { poll: LoginPoll::Waiting, cookie: None });
    }
    if code == 802 {
        return Ok(LoginOutcome { poll: LoginPoll::Scanned, cookie: None });
    }
    if code == 803 {
        return match if_filled(field_str(root, "cookie")) {
            Some(cookie) => Ok(LoginOutcome { poll: LoginPoll::Success, cookie: Some(cookie) }),
            None => Err("网易云扫码成功但响应中没有 Cookie".to_owned()),
        };
    }
    Err(
        cat4(
            "网易云扫码状态 ",
            signed_text(code).as_str(),
            ": ",
            or_unknown(field_str(root, "message")).as_str(),
        ),
    )
}

/// A login gives a cookie exactly when it succeeds, and never an empty one on Netease.
pub proof fn law_cookie_with_success(cookies: Seq<Seq<char>>, root: Json)
    ensures
        bilibili_poll_of(cookies, root) matches Ok(o) ==> (o.0 == LoginPoll::Success <==> o.1
            is Some),
        netease_poll_of(root) matches Ok(o) ==> (o.0 == LoginPoll::Success <==> o.1 is Some) && (
        o.1 is Some ==> (o.1->0).len() > 0),
{
}

/// Where the logins of the platforms are made.
#[derive(Debug, Clone)]
pub struct LoginService {
    pub bilibili_passport_base: String,
    pub netease_api_base: String,
}

impl LoginService {
    pub fn new(config: &Config) -> (r: LoginService)
        ensures
            r.bilibili_passport_base@ == trim_end_of(config.bilibili_passport_base@, '/'),
            r.netease_api_base@ == trim_end_of(config.netease_api_base@, '/'),
    {
        LoginService {
            bilibili_passport_base: trim_end_char(config.bilibili_passport_base.as_str(), '/'),
            netease_api_base: trim_end_char(config.netease_api_base.as_str(), '/'),
        }
    }

    /// The address that gives a QR code of Bilibili.
    pub fn bilibili_challenge_url(&self) -> (r: String)
        ensures
            r@ == self.bilibili_passport_base@ + "/x/passport-login/web/qrcode/generate"@,
    {
        cat2(self.bilibili_passport_base.as_str(), "/x/passport-login/web/qrcode/generate")
    }

    /// The address that gives the state of a QR code of Bilibili.
    pub fn bilibili_poll_url(&self) -> (r: String)
        ensures
            r@ == self.bilibili_passport_base@ + "/x/passport-login/web/qrcode/poll"@,
    {
        cat2(self.bilibili_passport_base.as_str(), "/x/passport-login/web/qrcode/poll")
    }

    /// The address that gives a key of Netease.
    pub fn netease_key_url(&self) -> (r: String)
        ensures
            r@ == self.netease_api_base@ + "/login/qr/key"@,
    {
        cat2(self.netease_api_base.as_str(), "/login/qr/key")
    }

    /// The address that gives a QR code of Netease for a key.
    pub fn netease_create_url(&self) -> (r: String)
        ensures
            r@ == self.netease_api_base@ + "/login/qr/create"@,
    {
        cat2(self.netease_api_base.as_str(), "/login/qr/create")
    }

    /// The address that gives the state of a QR code of Netease.
    pub fn netease_check_url(&self) -> (r: String)
        ensures
            r@ == self.netease_api_base@ + "/login/qr/check"@,
    {
        cat2(self.netease_api_base.as_str(), "/login/qr/check")
    }

    /// The challenge in the body of a reply of Bilibili.
    pub fn bilibili_challenge(&self, body: &str) -> (r: Result<LoginChallenge, String>)
        ensures
            challenge_result(r) == (match json_document(body@) {
                Ok(root) => bilibili_challenge_of(root),
                Err(message) => Err(message),
            }),
    {
        match parse_json(body) {
            Ok(root) => bilibili_challenge_in(&root),
            Err(message) => Err(message),
        }
    }

    /// The state of the QR code in a reply of Bilibili: its `Set-Cookie` headers and its body.
    pub fn poll_bilibili(&self, cookies: &Vec<String>, body: &str) -> (r: Result<
        LoginOutcome,
        String,
    >)
        ensures
            outcome_result(r) == (match json_document(body@) {
                Ok(root) => bilibili_poll_of(texts(cookies@), root),
                Err(message) => Err(message),
            }),
    {
        match parse_json(body) {
            Ok(root) => bilibili_poll_in(cookies, &root),
            Err(message) => Err(message),
        }
    }

    /// The key in the body of a reply of the Netease server.
    pub fn netease_key(&self, body: &str) -> (r: Result<String, String>)
        ensures
            text_or_message(r) == (match json_document(body@) {
                Ok(root) => needed_str(root, "/data/unikey"@),
                Err(message) => Err(message),
            }),
    {
        match parse_json(body) {
            Ok(root) => value_str(&root, "/data/unikey"),
            Err(message) => Err(message),
        }
    }

    /// The challenge of a key in the body of a reply of the Netease server.
    pub fn netease_challenge(&self, key: String, body: &str) -> (r: Result<LoginChallenge, String>)
        ensures
            challenge_result(r) == (match json_document(body@) {
                Ok(root) => netease_challenge_of(key@, root),
                Err(message) => Err(message),
            }),
    {
        match parse_json(body) {
            Ok(root) => netease_challenge_in(key, &root),
            Err(message) => Err(message),
        }
    }

    /// Whether the state is asked for once more without cookies, as some accounts need it.
    pub fn netease_asks_again(&self, status: u16) -> (r: bool)
        ensures
            r == (status == 502),
    {
        status == 502
    }

    /// The state of the QR code in the body of a reply of the Netease server.
    pub fn poll_netease(&self, body: &str) -> (r: Result<LoginOutcome, String>)
        ensures
            outcome_result(r) == (match json_document(body@) {
                Ok(root) => netease_poll_of(root),
                Err(message) => Err(message),
            }),
    {
        match parse_json(body) {
            Ok(root) => netease_poll_in(&root),
            Err(message) => Err(message),
        }
    }
}

} // verus!
