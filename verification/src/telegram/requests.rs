//! What a message or an inline query asks for, and how long an answer is remembered.
use vstd::prelude::*;
use vstd::utf8::encode_utf8;

use crate::login::{signed_decimal, signed_text};
use crate::model::{
    copy_options, default_options, item_views, request_views, ContentKind, MediaItemView,
    ParseOptions, ParseOptionsView, ParseRequest, ParsedContent, ParsedContentView, Platform,
    RequestView,
};
use crate::outside::{hex_encode, hex_text, sha256, sha256_digest};
use crate::provider::{route, ProviderRegistry};
use crate::text::{
    cat2, cat3, cat5, decimal, has_prefix, is_ascii_digit, law_decimal_read_back,
    lemma_decimal_digits, lowered, number_text, same, starts_with, texts, trimmed,
};

use super::links::{
    extract_message_urls, extract_urls, links_of, message_links, no_flags, options_of,
    parse_options, strip_url_flags, stripped,
};

verus! {

/// The answer to a call for help.
pub const HELP: &'static str =
    "发送 X、YouTube、Pixiv、哔哩哔哩或网易云链接即可解析；链接后加 +sp 可遮罩，Pixiv 等多图可加 +p2 只发第 2 页。\n命令：/parse、/video [清晰度，默认 480p]、/file、/cover、/login [bili|netease]";

/// The answer to a command without a link that can be read.
pub const NOT_FOUND: &'static str = "未找到支持的链接";

/// The answer to one request too many.
pub const OVER_LIMIT: &'static str = "请求次数已达到上限，请稍后再试";

/// A message: its text or caption, and the links behind parts of it.
#[derive(Debug, Clone)]
pub struct MessageText {
    pub text: String,
    pub hidden: Vec<String>,
}

/// A medium that the bot sent: the link it came from, and its key.
#[derive(Debug, Clone)]
pub struct SentMedia {
    pub url: String,
    pub cache_key: String,
}

/// A message that is answered to.
#[derive(Debug, Clone)]
pub struct RepliedMessage {
    pub message: MessageText,
    /// The medium in the message, where the bot sent it.
    pub media: Option<SentMedia>,
}

/// What is done about a message.
#[derive(Debug)]
pub enum MessagePlan {
    Help,
    Login,
    Parse(Vec<ParseRequest>),
    NotFound,
    Ignore,
}

/// What is done about a message, as plain values.
#[verifier::ext_equal]
pub enum MessagePlanView {
    Help,
    Login,
    Parse(Seq<RequestView>),
    NotFound,
    Ignore,
}

impl View for MessagePlan {
    type V = MessagePlanView;

    open spec fn view(&self) -> MessagePlanView {
        match self {
            MessagePlan::Help => MessagePlanView::Help,
            MessagePlan::Login => MessagePlanView::Login,
            MessagePlan::Parse(requests) => MessagePlanView::Parse(request_views(requests@)),
            MessagePlan::NotFound => MessagePlanView::NotFound,
            MessagePlan::Ignore => MessagePlanView::Ignore,
        }
    }
}

/// The options for a link: those of the message, and the marks of the link over them.
pub open spec fn marked_options(options: ParseOptionsView, link: Seq<char>) -> ParseOptionsView {
    let flags = stripped(trimmed(link), no_flags()).1;
    ParseOptionsView {
        force_spoiler: options.force_spoiler || flags.force_spoiler,
        page: if flags.page is Some {
            flags.page
        } else {
            options.page
        },
        ..options
    }
}

/// The request for a link, without its marks; none where no platform has it.
pub open spec fn link_request(
    platforms: Seq<Platform>,
    options: ParseOptionsView,
    link: Seq<char>,
) -> Option<RequestView> {
    let clean = stripped(trimmed(link), no_flags()).0;
    if route(platforms, clean) is Some {
        Some(RequestView { url: clean, options: marked_options(options, link) })
    } else {
        None
    }
}

/// The requests for the first `n` links.
pub open spec fn link_requests(
    platforms: Seq<Platform>,
    options: ParseOptionsView,
    links: Seq<Seq<char>>,
    n: int,
) -> Seq<RequestView>
    decreases n,
{
    if n <= 0 {
        Seq::empty()
    } else {
        let before = link_requests(platforms, options, links, n - 1);
        match link_request(platforms, options, links[n - 1]) {
            Some(request) => before.push(request),
            None => before,
        }
    }
}

/// Every request is for a link that a platform has, and asks at least for what the message asks
/// for.
pub proof fn law_requests_are_supported(
    platforms: Seq<Platform>,
    options: ParseOptionsView,
    links: Seq<Seq<char>>,
    n: int,
    i: int,
)
    requires
        0 <= n <= links.len(),
        0 <= i < link_requests(platforms, options, links, n).len(),
    ensures
        route(platforms, link_requests(platforms, options, links, n)[i].url) is Some,
        options.force_spoiler ==> link_requests(platforms, options, links, n)[i].options.force_spoiler,
        link_requests(platforms, options, links, n)[i].options.quality == options.quality,
        link_requests(platforms, options, links, n)[i].options.file_mode == options.file_mode,
        link_requests(platforms, options, links, n)[i].options.cover_only == options.cover_only,
    decreases n,
{
    if n > 0 {
        if i < link_requests(platforms, options, links, n - 1).len() {
            law_requests_are_supported(platforms, options, links, n - 1, i);
        }
    }
}

/// Whether a message without a link speaks of the message it answers to: with a command, a
/// covering mark or a page.
pub open spec fn speaks_of_reply(text: Seq<char>) -> bool {
    options_of(text).force_spoiler || options_of(text).page is Some || has_prefix(text, "/"@)
}

/// The links and options of a message: its own links, or else those of the message it answers
/// to. A call for the file behind a medium that the bot sent asks for that medium alone.
pub open spec fn wanted(
    text: Seq<char>,
    hidden: Seq<Seq<char>>,
    replied: Option<(Seq<char>, Seq<Seq<char>>)>,
    media: Option<(Seq<char>, Seq<char>)>,
) -> (Seq<Seq<char>>, ParseOptionsView) {
    let options = options_of(text);
    let own = message_links(text, hidden);
    if own.len() > 0 || !speaks_of_reply(text) {
        (own, options)
    } else if options.file_mode && media is Some {
        let (url, key) = media->0;
        (seq![url], ParseOptionsView { media_cache_key: Some(key), ..options })
    } else {
        match replied {
            Some(r) => (message_links(r.0, r.1), options),
            None => (own, options),
        }
    }
}

/// What is done about a message.
pub open spec fn message_plan(
    platforms: Seq<Platform>,
    text: Seq<char>,
    hidden: Seq<Seq<char>>,
    replied: Option<(Seq<char>, Seq<Seq<char>>)>,
    media: Option<(Seq<char>, Seq<char>)>,
    private: bool,
) -> MessagePlanView {
    if text == "/start"@ || text == "/help"@ {
        MessagePlanView::Help
    } else if has_prefix(text, "/login"@) {
        MessagePlanView::Login
    } else {
        let w = wanted(text, hidden, replied, media);
        let requests = link_requests(platforms, w.1, w.0, w.0.len() as int);
        if requests.len() > 0 {
            MessagePlanView::Parse(requests)
        } else if private && has_prefix(text, "/"@) {
            MessagePlanView::NotFound
        } else {
            MessagePlanView::Ignore
        }
    }
}

/// A message that is neither a command nor has a link of a platform is never answered.
pub proof fn law_plain_talk_is_ignored(
    platforms: Seq<Platform>,
    text: Seq<char>,
    hidden: Seq<Seq<char>>,
    replied: Option<(Seq<char>, Seq<Seq<char>>)>,
    media: Option<(Seq<char>, Seq<char>)>,
    private: bool,
)
    requires
        !has_prefix(text, "/"@),
        forall|i: int|
            0 <= i < wanted(text, hidden, replied, media).0.len() ==> link_request(
                platforms,
                wanted(text, hidden, replied, media).1,
                #[trigger] wanted(text, hidden, replied, media).0[i],
            ) is None,
    ensures
        message_plan(platforms, text, hidden, replied, media, private) is Ignore,
{
    reveal_strlit("/");
    reveal_strlit("/start");
    reveal_strlit("/help");
    reveal_strlit("/login");
    assert("/start"@.subrange(0, 1) =~= "/"@);
    assert("/help"@.subrange(0, 1) =~= "/"@);
    if has_prefix(text, "/login"@) {
        assert(text.subrange(0, 6) == "/login"@);
        assert(text[0] == text.subrange(0, 6)[0]);
        assert(text.subrange(0, 1) =~= "/"@);
    }
    let w = wanted(text, hidden, replied, media);
    lemma_no_requests(platforms, w.1, w.0, w.0.len() as int);
}

/// A call for the file behind a medium that the bot sent asks for exactly that medium, as a
/// file, from the link that it came from.
pub proof fn law_file_of_sent_medium(
    platforms: Seq<Platform>,
    text: Seq<char>,
    hidden: Seq<Seq<char>>,
    replied: Option<(Seq<char>, Seq<Seq<char>>)>,
    url: Seq<char>,
    key: Seq<char>,
    private: bool,
)
    requires
        options_of(text).file_mode,
        message_links(text, hidden).len() == 0,
        route(platforms, stripped(trimmed(url), no_flags()).0) is Some,
    ensures
        message_plan(platforms, text, hidden, replied, Some((url, key)), private) matches
            MessagePlanView::Parse(requests) && requests.len() == 1 && requests[0].url == stripped(
            trimmed(url),
            no_flags(),
        ).0 && requests[0].options.file_mode && requests[0].options.media_cache_key == Some(key),
{
    reveal_strlit("/");
    reveal_strlit("/file");
    reveal_strlit("/start");
    reveal_strlit("/help");
    reveal_strlit("/login");
    let small = lowered(text);
    assert(small.subrange(0, 5) == "/file"@);
    assert(small[0] == "/file"@[0] && small[1] == "/file"@[1]) by {
        assert(small.subrange(0, 5)[0] == small[0]);
        assert(small.subrange(0, 5)[1] == small[1]);
    }
    assert(text[0] == '/');
    assert(text[1] == 'f' || text[1] == 'F');
    assert(text.subrange(0, 1) =~= "/"@);
    if has_prefix(text, "/login"@) {
        assert(text.subrange(0, 6)[1] == text[1]);
    }
    let media = Some((url, key));
    let w = wanted(text, hidden, replied, media);
    assert(w.0 == seq![url]);
    assert(link_request(platforms, w.1, w.0[0]) is Some);
    assert(link_requests(platforms, w.1, w.0, 0).len() == 0);
    assert(link_requests(platforms, w.1, w.0, 1) == link_requests(platforms, w.1, w.0, 0).push(
        link_request(platforms, w.1, w.0[0])->0,
    ));
}

proof fn lemma_no_requests(
    platforms: Seq<Platform>,
    options: ParseOptionsView,
    links: Seq<Seq<char>>,
    n: int,
)
    requires
        0 <= n <= links.len(),
        forall|i: int|
            0 <= i < links.len() ==> link_request(
                platforms,
                options,
                #[trigger] links[i],
            ) is None,
    ensures
        link_requests(platforms, options, links, n).len() == 0,
    decreases n,
{
    if n > 0 {
        lemma_no_requests(platforms, options, links, n - 1);
        assert(link_request(platforms, options, links[n - 1]) is None);
    }
}

fn request_for(registry: &ProviderRegistry, options: &ParseOptions, link: &str) -> (r: Option<
    ParseRequest,
>)
    ensures
        (match r {
            Some(request) => Some(request@),
            None => None,
        }) == link_request(registry@, options@, link@),
{
    let (clean, flags) = strip_url_flags(link);
    if !registry.supports(clean.as_str()) {
        return None;
    }
    let mut marked = copy_options(options);
    if flags.force_spoiler {
        marked.force_spoiler = true;
    }
    if flags.page.is_some() {
        marked.page = flags.page;
    }
    Some(ParseRequest { url: clean, options: marked })
}

fn requests_for(registry: &ProviderRegistry, options: &ParseOptions, links: &Vec<String>) -> (r: Vec<
    ParseRequest,
>)
    ensures
        request_views(r@) == link_requests(
            registry@,
            options@,
            texts(links@),
            links@.len() as int,
        ),
{
    let ghost all = texts(links@);
    let mut out: Vec<ParseRequest> = Vec::new();
    let mut i: usize = 0;
    assert(request_views(out@) =~= Seq::<RequestView>::empty());
    while i < links.len()
        invariant
            i <= links@.len(),
            all == texts(links@),
            request_views(out@) == link_requests(registry@, options@, all, i as int),
        decreases links.len() - i,
    {
        assert(all[i as int] == links@[i as int]@);
        match request_for(registry, options, links[i].as_str()) {
            Some(request) => {
                let ghost before = out@;
                out.push(request);
                assert(request_views(out@) =~= request_views(before).push(request@));
            },
            None => {},
        }
        i += 1;
    }
    out
}

/// The message that is answered to, as plain values.
pub open spec fn replied_view(replied: Option<RepliedMessage>) -> Option<
    (Seq<char>, Seq<Seq<char>>),
> {
    match replied {
        Some(r) => Some((r.message.text@, texts(r.message.hidden@))),
        None => None,
    }
}

/// The medium in the message that is answered to, as plain values.
pub open spec fn replied_media(replied: Option<RepliedMessage>) -> Option<
    (Seq<char>, Seq<char>),
> {
    match replied {
        Some(r) => match r.media {
            Some(m) => Some((m.url@, m.cache_key@)),
            None => None,
        },
        None => None,
    }
}

fn wanted_of(message: &MessageText, replied: &Option<RepliedMessage>) -> (r: (
    Vec<String>,
    ParseOptions,
))
    ensures
        (texts(r.0@), r.1@) == wanted(
            message.text@,
            texts(message.hidden@),
            replied_view(*replied),
            replied_media(*replied),
        ),
{
    let text = message.text.as_str();
    let mut options = parse_options(text);
    let own = extract_message_urls(text, &message.hidden);
    assert(texts(own@).len() == own@.len());
    if own.len() > 0 || !(options.force_spoiler || options.page.is_some() || starts_with(
        text,
        "/",
    )) {
        return (own, options);
    }
    match replied {
        Some(answered) => {
            if options.file_mode {
                match &answered.media {
                    Some(media) => {
                        let mut links: Vec<String> = Vec::new();
                        links.push(media.url.clone());
                        assert(texts(links@) =~= seq![media.url@]);
                        options.media_cache_key = Some(media.cache_key.clone());
                        return (links, options);
                    },
                    None => {},
                }
            }
            let links = extract_message_urls(
                answered.message.text.as_str(),
                &answered.message.hidden,
            );
            (links, options)
        },
        None => (own, options),
    }
}

/// What is done about a message.
pub fn plan_message(
    registry: &ProviderRegistry,
    message: &MessageText,
    replied: &Option<RepliedMessage>,
    private: bool,
) -> (r: MessagePlan)
    ensures
        r@ == message_plan(
            registry@,
            message.text@,
            texts(message.hidden@),
            replied_view(*replied),
            replied_media(*replied),
            private,
        ),
{
    let text = message.text.as_str();
    if same(text, "/start") || same(text, "/help") {
        return MessagePlan::Help;
    }
    if starts_with(text, "/login") {
        return MessagePlan::Login;
    }
    let (links, options) = wanted_of(message, replied);
    let requests = requests_for(registry, &options, &links);
    assert(texts(links@).len() == links@.len());
    assert(request_views(requests@).len() == requests@.len());
    if requests.len() > 0 {
        MessagePlan::Parse(requests)
    } else if private && starts_with(text, "/") {
        MessagePlan::NotFound
    } else {
        MessagePlan::Ignore
    }
}

/// The request of an inline query: the first link that a platform has.
pub open spec fn inline_request_of(platforms: Seq<Platform>, query: Seq<char>) -> Option<
    RequestView,
> {
    let links = links_of(query);
    let requests = link_requests(platforms, default_options(), links, links.len() as int);
    if requests.len() > 0 {
        Some(requests[0])
    } else {
        None
    }
}

/// The request of an inline query.
pub fn inline_request(registry: &ProviderRegistry, query: &str) -> (r: Option<ParseRequest>)
    ensures
        (match r {
            Some(request) => Some(request@),
            None => None,
        }) == inline_request_of(registry@, query@),
{
    let links = extract_urls(query);
    let options = ParseOptions::default();
    let mut requests = requests_for(registry, &options, &links);
    let ghost all = requests@;
    assert(texts(links@).len() == links@.len());
    assert(request_views(all).len() == all.len());
    if requests.len() == 0 {
        return None;
    }
    let first = requests.swap_remove(0);
    assert(first == all[0]);
    Some(first)
}

/// By what requests are counted: the user, or the chat where there is no user.
pub open spec fn subject_of(user: Option<u64>, chat: i64) -> Seq<char> {
    match user {
        Some(id) => decimal(id as nat),
        None => signed_decimal(chat as int),
    }
}

pub fn rate_subject(user: Option<u64>, chat: i64) -> (r: String)
    ensures
        r@ == subject_of(user, chat),
{
    match user {
        Some(id) => number_text(id),
        None => signed_text(chat),
    }
}

/// Whether it is said that a link could not be parsed: in a private chat, or after a command.
pub fn reports_errors(private: bool, text: &str) -> (r: bool)
    ensures
        r == (private || has_prefix(text@, "/"@)),
{
    private || starts_with(text, "/")
}

/// What is said where the media could not be sent.
pub fn send_failure(error: &str) -> (r: String)
    ensures
        r@ == "媒体发送失败："@ + error@,
{
    cat2("媒体发送失败：", error)
}

/// A quality as it stands in a key.
pub open spec fn quality_text(quality: Option<u32>) -> Seq<char> {
    match quality {
        Some(q) => "Some("@ + decimal(q as nat) + ")"@,
        None => "None"@,
    }
}

pub open spec fn truth_text(value: bool) -> Seq<char> {
    if value {
        "true"@
    } else {
        "false"@
    }
}

fn truth(value: bool) -> (r: &'static str)
    ensures
        r@ == truth_text(value),
{
    if value {
        "true"
    } else {
        "false"
    }
}

/// What an answer depends on: the link, what is asked of it, and the login state. The page and
/// the covering only say what is sent of the answer.
pub open spec fn answer_text(url: Seq<char>, options: ParseOptionsView, revision: u64) -> Seq<char> {
    url + ":"@ + quality_text(options.quality) + ":"@ + truth_text(options.file_mode) + ":"@
        + truth_text(options.cover_only) + ":"@ + decimal(revision as nat)
}

/// The key under which an answer is remembered.
pub open spec fn answer_key(url: Seq<char>, options: ParseOptionsView, revision: u64) -> Seq<char> {
    "parsed:"@ + hex_text(sha256(encode_utf8(answer_text(url, options, revision))))
}

/// The answer to a request is used for every request that differs only in the page, the covering
/// or the medium that is asked for.
pub proof fn law_page_shares_answer(
    url: Seq<char>,
    options: ParseOptionsView,
    revision: u64,
    page: Option<u32>,
    force_spoiler: bool,
    media_cache_key: Option<Seq<char>>,
)
    ensures
        answer_key(url, options, revision) == answer_key(
            url,
            (ParseOptionsView { page, force_spoiler, media_cache_key, ..options }),
            revision,
        ),
{
}

proof fn lemma_last_part(a: Seq<char>, b: Seq<char>, c: Seq<char>, d: Seq<char>)
    requires
        a + ":"@ + b == c + ":"@ + d,
        forall|i: int| 0 <= i < b.len() ==> #[trigger] b[i] != ':',
        forall|i: int| 0 <= i < d.len() ==> #[trigger] d[i] != ':',
    ensures
        a == c,
        b == d,
{
    reveal_strlit(":");
    let x = a + ":"@ + b;
    let y = c + ":"@ + d;
    assert(x.len() == a.len() + 1 + b.len());
    assert(y.len() == c.len() + 1 + d.len());
    assert(x[a.len() as int] == ':');
    assert(y[c.len() as int] == ':');
    if a.len() < c.len() {
        assert(x[c.len() as int] == b[c.len() - a.len() - 1]);
    } else if c.len() < a.len() {
        assert(y[a.len() as int] == d[a.len() - c.len() - 1]);
    }
    assert(a =~= x.take(a.len() as int));
    assert(c =~= y.take(c.len() as int));
    assert(b =~= x.skip(a.len() as int + 1));
    assert(d =~= y.skip(c.len() as int + 1));
}

proof fn lemma_decimal_part(n: nat)
    ensures
        forall|i: int| 0 <= i < decimal(n).len() ==> #[trigger] decimal(n)[i] != ':',
{
    lemma_decimal_digits(n);
    assert forall|i: int| 0 <= i < decimal(n).len() implies #[trigger] decimal(n)[i] != ':' by {
        assert(is_ascii_digit(decimal(n)[i]));
    }
}

proof fn lemma_quality_part(a: Option<u32>, b: Option<u32>)
    ensures
        forall|i: int| 0 <= i < quality_text(a).len() ==> #[trigger] quality_text(a)[i] != ':',
        quality_text(a) == quality_text(b) ==> a == b,
{
    reveal_strlit("Some(");
    reveal_strlit(")");
    reveal_strlit("None");
    if a is Some {
        let d = decimal(a->0 as nat);
        lemma_decimal_part(a->0 as nat);
        assert(quality_text(a)[0] == 'S');
        assert forall|i: int| 0 <= i < quality_text(a).len() implies #[trigger] quality_text(a)[i]
            != ':' by {
            if 5 <= i < 5 + d.len() {
                assert(quality_text(a)[i] == d[i - 5]);
            }
        }
    }
    if b is Some {
        assert(quality_text(b)[0] == 'S');
    }
    if a is Some && b is Some && quality_text(a) == quality_text(b) {
        let d = decimal(a->0 as nat);
        let e = decimal(b->0 as nat);
        assert(d =~= quality_text(a).subrange(5, quality_text(a).len() - 1));
        assert(e =~= quality_text(b).subrange(5, quality_text(b).len() - 1));
        law_decimal_read_back(a->0 as nat, u32::MAX as nat);
        law_decimal_read_back(b->0 as nat, u32::MAX as nat);
    }
}

proof fn lemma_truth_part(a: bool, b: bool)
    ensures
        forall|i: int| 0 <= i < truth_text(a).len() ==> #[trigger] truth_text(a)[i] != ':',
        truth_text(a) == truth_text(b) ==> a == b,
{
    reveal_strlit("true");
    reveal_strlit("false");
    assert("true"@.len() == 4 && "false"@.len() == 5);
}

/// What an answer depends on is told apart: two requests share the text of which the key is the
/// digest only where the link, the quality, the form and the login state are the same. So no
/// answer from before a login is given after it.
pub proof fn law_answers_are_told_apart(
    url: Seq<char>,
    options: ParseOptionsView,
    revision: u64,
    other_url: Seq<char>,
    other: ParseOptionsView,
    other_revision: u64,
)
    requires
        answer_text(url, options, revision) == answer_text(other_url, other, other_revision),
    ensures
        url == other_url,
        options.quality == other.quality,
        options.file_mode == other.file_mode,
        options.cover_only == other.cover_only,
        revision == other_revision,
{
    lemma_decimal_part(revision as nat);
    lemma_decimal_part(other_revision as nat);
    lemma_truth_part(options.cover_only, other.cover_only);
    lemma_truth_part(other.cover_only, options.cover_only);
    lemma_truth_part(options.file_mode, other.file_mode);
    lemma_truth_part(other.file_mode, options.file_mode);
    lemma_quality_part(options.quality, other.quality);
    lemma_quality_part(other.quality, options.quality);
    let q = url + ":"@ + quality_text(options.quality);
    let f = q + ":"@ + truth_text(options.file_mode);
    let c = f + ":"@ + truth_text(options.cover_only);
    let p = other_url + ":"@ + quality_text(other.quality);
    let g = p + ":"@ + truth_text(other.file_mode);
    let d = g + ":"@ + truth_text(other.cover_only);
    lemma_last_part(c, decimal(revision as nat), d, decimal(other_revision as nat));
    lemma_last_part(f, truth_text(options.cover_only), g, truth_text(other.cover_only));
    lemma_last_part(q, truth_text(options.file_mode), p, truth_text(other.file_mode));
    lemma_last_part(url, quality_text(options.quality), other_url, quality_text(other.quality));
    law_decimal_read_back(revision as nat, u64::MAX as nat);
    law_decimal_read_back(other_revision as nat, u64::MAX as nat);
}

/// The key with a digest in it.
pub fn digest_key(digest: &Vec<u8>) -> (r: String)
    ensures
        r@ == "parsed:"@ + hex_text(digest@),
{
    cat2("parsed:", hex_encode(digest).as_str())
}

/// The key under which an answer is remembered.
pub fn parse_cache_key(url: &str, options: &ParseOptions, revision: u64) -> (r: String)
    ensures
        r@ == answer_key(url@, options@, revision),
{
    let quality = match options.quality {
        Some(q) => cat3("Some(", number_text(q as u64).as_str(), ")"),
        None => "None".to_owned(),
    };
    let mut raw = cat5(url, ":", quality.as_str(), ":", truth(options.file_mode));
    raw.append(":");
    raw.append(truth(options.cover_only));
    raw.append(":");
    raw.append(number_text(revision).as_str());
    assert(raw@ == answer_text(url@, options@, revision));
    digest_key(&sha256_digest(raw.as_str().as_bytes()))
}

/// Whether any of the media has to be fetched: their addresses are often signed and do not live
/// long.
pub open spec fn any_fetched(media: Seq<MediaItemView>) -> bool {
    exists|i: int| 0 <= i < media.len() && (#[trigger] media[i]).requires_download
}

/// How many seconds an answer is remembered.
pub open spec fn answer_life(c: ParsedContentView) -> u64 {
    if c.kind == ContentKind::Live {
        300
    } else if any_fetched(c.media) {
        600
    } else {
        3600
    }
}

pub fn parse_cache_ttl(content: &ParsedContent) -> (r: u64)
    ensures
        r == answer_life(content@),
{
    if content.kind == ContentKind::Live {
        return 300;
    }
    let media = &content.media;
    let ghost all = content@.media;
    let mut i: usize = 0;
    while i < media.len()
        invariant
            i <= media@.len(),
            all == item_views(media@),
            all == content@.media,
            content.kind != ContentKind::Live,
            forall|k: int| 0 <= k < i ==> !(#[trigger] all[k]).requires_download,
        decreases media.len() - i,
    {
        assert(all[i as int] == media@[i as int]@);
        if media[i].requires_download {
            return 600;
        }
        i += 1;
    }
    3600
}

/// How many seconds an answer is remembered that was asked for because an address had died.
pub open spec fn refreshed_life(c: ParsedContentView) -> u64 {
    if c.kind == ContentKind::Live {
        300
    } else {
        600
    }
}

pub fn refreshed_ttl(content: &ParsedContent) -> (r: u64)
    ensures
        r == refreshed_life(content@),
{
    if content.kind == ContentKind::Live {
        300
    } else {
        600
    }
}

} // verus!
