//! Signing in to a platform from a chat: who may, and what is said until it is done.
use vstd::prelude::*;

use crate::login::LoginPoll;
use crate::text::{cat2, cat3, decimal, lower, lowered, number_text, same, texts, words, words_of};

verus! {

/// A platform that one can sign in to.
#[derive(Debug, Clone, Copy, PartialEq, Eq, Structural)]
pub enum LoginTarget {
    Bilibili,
    Netease,
}

/// What is done about a wish to sign in.
#[derive(Debug)]
pub enum SignIn {
    Ignore,
    Refuse(String),
    Start(LoginTarget),
}

/// What is done about a wish to sign in, as plain values.
#[verifier::ext_equal]
pub enum SignInView {
    Ignore,
    Refuse(Seq<char>),
    Start(LoginTarget),
}

impl View for SignIn {
    type V = SignInView;

    open spec fn view(&self) -> SignInView {
        match self {
            SignIn::Ignore => SignInView::Ignore,
            SignIn::Refuse(message) => SignInView::Refuse(message@),
            SignIn::Start(target) => SignInView::Start(*target),
        }
    }
}

/// The platform that a word names.
pub open spec fn target_named(word: Seq<char>) -> Option<LoginTarget> {
    if word == "bili"@ || word == "bilibili"@ || word == "b站"@ {
        Some(LoginTarget::Bilibili)
    } else if word == "netease"@ || word == "163"@ || word == "music"@ || word == "网易云"@ {
        Some(LoginTarget::Netease)
    } else {
        None
    }
}

/// The word behind the command, in small letters.
pub open spec fn target_word(text: Seq<char>) -> Seq<char> {
    if words_of(text).len() > 1 {
        lowered(words_of(text)[1])
    } else {
        "bili"@
    }
}

/// What is done about a wish to sign in. The picture with the code is for nobody else to see, and
/// only the administrator may change the credentials.
pub open spec fn sign_in_of(
    user: Option<u64>,
    private: bool,
    admin: Option<u64>,
    text: Seq<char>,
) -> SignInView {
    match user {
        None => SignInView::Ignore,
        Some(id) => if !private {
            SignInView::Refuse("为避免登录二维码泄露，请在 Bot 私聊中使用 /login。"@)
        } else {
            match admin {
                None => SignInView::Refuse(
                    "当前未配置 ADMIN_USER_ID。你的 Telegram 用户 ID 是 "@ + decimal(id as nat)
                        + "。"@,
                ),
                Some(a) => if id != a {
                    SignInView::Refuse("你无权更新 Bot 的平台凭证。"@)
                } else {
                    match target_named(target_word(text)) {
                        Some(target) => SignInView::Start(target),
                        None => SignInView::Refuse("用法：/login bili 或 /login netease"@),
                    }
                },
            }
        },
    }
}

/// Signing in starts for the administrator alone, and only in a private chat.
pub proof fn law_only_admin_signs_in(
    user: Option<u64>,
    private: bool,
    admin: Option<u64>,
    text: Seq<char>,
)
    ensures
        sign_in_of(user, private, admin, text) is Start ==> private && user is Some && admin
            == user,
{
}

fn target_of(word: &str) -> (r: Option<LoginTarget>)
    ensures
        r == target_named(word@),
{
    if same(word, "bili") || same(word, "bilibili") || same(word, "b站") {
        Some(LoginTarget::Bilibili)
    } else if same(word, "netease") || same(word, "163") || same(word, "music") || same(
        word,
        "网易云",
    ) {
        Some(LoginTarget::Netease)
    } else {
        None
    }
}

/// What is done about a wish to sign in.
pub fn sign_in(user: Option<u64>, private: bool, admin: Option<u64>, text: &str) -> (r: SignIn)
    ensures
        r@ == sign_in_of(user, private, admin, text@),
{
    let id: u64 = match user {
        Some(id) => id,
        None => {
            return SignIn::Ignore;
        },
    };
    if !private {
        return SignIn::Refuse("为避免登录二维码泄露，请在 Bot 私聊中使用 /login。".to_owned());
    }
    let admin: u64 = match admin {
        Some(admin) => admin,
        None => {
            return SignIn::Refuse(
                cat3(
                    "当前未配置 ADMIN_USER_ID。你的 Telegram 用户 ID 是 ",
                    number_text(id).as_str(),
                    "。",
                ),
            );
        },
    };
    if id != admin {
        return SignIn::Refuse("你无权更新 Bot 的平台凭证。".to_owned());
    }
    let all = words(text);
    assert(texts(all@).len() == all@.len());
    let word = if all.len() > 1 {
        assert(texts(all@)[1] == all@[1]@);
        lower(all[1].as_str())
    } else {
        "bili".to_owned()
    };
    match target_of(word.as_str()) {
        Some(target) => SignIn::Start(target),
        None => SignIn::Refuse("用法：/login bili 或 /login netease".to_owned()),
    }
}

/// What is said below the picture with the code.
pub open spec fn challenge_note(target: LoginTarget) -> Seq<char> {
    match target {
        LoginTarget::Bilibili => "请使用哔哩哔哩客户端扫码并确认登录，二维码约 3 分钟后过期。"@,
        LoginTarget::Netease => "请使用网易云音乐客户端扫码并确认登录。"@,
    }
}

pub fn challenge_caption(target: LoginTarget) -> (r: &'static str)
    ensures
        r@ == challenge_note(target),
{
    match target {
        LoginTarget::Bilibili => "请使用哔哩哔哩客户端扫码并确认登录，二维码约 3 分钟后过期。",
        LoginTarget::Netease => "请使用网易云音乐客户端扫码并确认登录。",
    }
}

/// The file name of the picture with the code.
pub fn challenge_filename(target: LoginTarget) -> (r: &'static str)
    ensures
        r@ == (match target {
            LoginTarget::Bilibili => "bilibili-login.png"@,
            LoginTarget::Netease => "netease-login.png"@,
        }),
{
    match target {
        LoginTarget::Bilibili => "bilibili-login.png",
        LoginTarget::Netease => "netease-login.png",
    }
}

/// What is said where there is no code.
pub fn challenge_failure(error: &str) -> (r: String)
    ensures
        r@ == "生成登录二维码失败："@ + error@,
{
    cat2("生成登录二维码失败：", error)
}

/// How often the platform is asked whether the code was used.
pub const LOGIN_POLLS: u32 = 65;

/// How many seconds are waited before the platform is asked.
pub const LOGIN_POLL_SECS: u64 = 3;

/// How often the platform was asked, and whether it was said that the code was scanned.
#[derive(Debug, Clone, Copy, PartialEq, Eq, Structural)]
pub struct PollState {
    pub polls: u32,
    pub told: bool,
}

/// Before the platform was asked.
pub fn first_poll() -> (r: PollState)
    ensures
        r == (PollState { polls: 0, told: false }),
{
    PollState { polls: 0, told: false }
}

/// That the code was scanned.
pub const SCANNED: &'static str = "已扫码，请在手机客户端中确认登录。";

/// That the code was not used in time.
pub const TIMED_OUT: &'static str = "登录超时，请重新发送 /login。";

/// That the code is no longer good.
pub const EXPIRED: &'static str = "登录二维码已过期，请重新发送 /login。";

/// The name of a platform in what is said.
pub open spec fn target_title(target: LoginTarget) -> Seq<char> {
    match target {
        LoginTarget::Bilibili => "Bilibili"@,
        LoginTarget::Netease => "网易云"@,
    }
}

/// What is said, and the next state: none where the platform is not asked again.
pub open spec fn poll_step(
    state: PollState,
    target: LoginTarget,
    answer: Result<LoginPoll, Seq<char>>,
) -> (Seq<Seq<char>>, Option<PollState>) {
    let goes_on = state.polls + 1 < LOGIN_POLLS;
    match answer {
        Ok(LoginPoll::Waiting) => if goes_on {
            (Seq::empty(), Some(PollState { polls: (state.polls + 1) as u32, told: state.told }))
        } else {
            (seq![TIMED_OUT@], None)
        },
        Ok(LoginPoll::Scanned) => {
            let notice = if state.told {
                Seq::<Seq<char>>::empty()
            } else {
                seq![SCANNED@]
            };
            if goes_on {
                (notice, Some(PollState { polls: (state.polls + 1) as u32, told: true }))
            } else {
                (notice.push(TIMED_OUT@), None)
            }
        },
        Ok(LoginPoll::Success) => (
            seq![target_title(target) + " 扫码登录成功，Cookie 已持久化并立即生效。"@],
            None,
        ),
        Ok(LoginPoll::Expired) => (seq![EXPIRED@], None),
        Err(error) => (seq!["扫码登录失败："@ + error], None),
    }
}

/// The platform is asked a bounded number of times, and there is a last word when it is not asked
/// again.
pub proof fn law_polls_are_bounded(
    state: PollState,
    target: LoginTarget,
    answer: Result<LoginPoll, Seq<char>>,
)
    requires
        state.polls < LOGIN_POLLS,
    ensures
        match poll_step(state, target, answer).1 {
            Some(next) => next.polls == state.polls + 1 && next.polls < LOGIN_POLLS,
            None => poll_step(state, target, answer).0.len() > 0,
        },
{
}

/// It is said once that the code was scanned, and never again.
pub proof fn law_scanned_once(
    state: PollState,
    target: LoginTarget,
    answer: Result<LoginPoll, Seq<char>>,
)
    ensures
        state.told ==> !poll_step(state, target, answer).0.contains(SCANNED@),
        poll_step(state, target, answer).0.contains(SCANNED@) ==> match poll_step(
            state,
            target,
            answer,
        ).1 {
            Some(next) => next.told,
            None => true,
        },
        state.told ==> match poll_step(state, target, answer).1 {
            Some(next) => next.told,
            None => true,
        },
{
    reveal_strlit("已扫码，请在手机客户端中确认登录。");
    reveal_strlit("登录超时，请重新发送 /login。");
    reveal_strlit("登录二维码已过期，请重新发送 /login。");
    reveal_strlit("Bilibili");
    reveal_strlit("网易云");
    reveal_strlit("扫码登录失败：");
    let said = poll_step(state, target, answer).0;
    if state.told && said.contains(SCANNED@) {
        let k = choose|k: int| 0 <= k < said.len() && said[k] == SCANNED@;
        assert(said[k][0] == '已');
        assert(k == 0);
        assert(said[0][0] != '已');
    }
}

/// An answer of the platform, as plain values.
pub open spec fn poll_answer(answer: Result<LoginPoll, String>) -> Result<LoginPoll, Seq<char>> {
    match answer {
        Ok(poll) => Ok(poll),
        Err(message) => Err(message@),
    }
}

/// What is said after the platform was asked, and the next state.
pub fn poll_next(state: PollState, target: LoginTarget, answer: Result<LoginPoll, String>) -> (r: (
    Vec<String>,
    Option<PollState>,
))
    ensures
        (texts(r.0@), r.1) == poll_step(state, target, poll_answer(answer)),
{
    let ghost expected = poll_step(state, target, poll_answer(answer));
    let goes_on = state.polls < LOGIN_POLLS - 1;
    let mut said: Vec<String> = Vec::new();
    let mut next: Option<PollState> = None;
    match answer {
        Ok(LoginPoll::Waiting) => {
            if goes_on {
                next = Some(PollState { polls: state.polls + 1, told: state.told });
            } else {
                said.push(TIMED_OUT.to_owned());
            }
        },
        Ok(LoginPoll::Scanned) => {
            if !state.told {
                said.push(SCANNED.to_owned());
            }
            if goes_on {
                next = Some(PollState { polls: state.polls + 1, told: true });
            } else {
                said.push(TIMED_OUT.to_owned());
            }
        },
        Ok(LoginPoll::Success) => {
            let title = match target {
                LoginTarget::Bilibili => "Bilibili",
                LoginTarget::Netease => "网易云",
            };
            said.push(cat2(title, " 扫码登录成功，Cookie 已持久化并立即生效。"));
        },
        Ok(LoginPoll::Expired) => {
            said.push(EXPIRED.to_owned());
        },
        Err(error) => {
            said.push(cat2("扫码登录失败：", error.as_str()));
        },
    }
    assert(texts(said@) =~= expected.0);
    (said, next)
}

} // verus!
