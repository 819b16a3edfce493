//! The platforms: which links belong to which of them, and what their replies have in common.
pub mod bilibili;
pub mod netease;
pub mod pixiv;
pub mod x;
pub mod youtube;

pub use bilibili::BilibiliProvider;
pub use netease::NeteaseProvider;
pub use pixiv::PixivProvider;
pub use x::XProvider;
pub use youtube::YouTubeProvider;

use vstd::prelude::*;

use crate::config::Config;
use crate::json::{
    json_document, list_value, member, parse_json, text_value, unsigned_value, value_at, Json,
};
use crate::model::{ErrorView, ParseRequest, Platform, ProviderError, ProviderResult};
use crate::outside::{parse_url, url_parts, UrlView};
use crate::text::{
    cat2, cat3, empty, ends_with, has_prefix, has_suffix, lower, lowered, opt_text, or_blank,
    or_empty, parse_number, parsed_number, same, starts_with, texts, trim, trimmed,
};

use bilibili::{bare_video, bilibili_by_config, bilibili_handles, bilibili_host};
use netease::{netease_by_config, netease_handles, netease_host};
use pixiv::{pixiv_by_config, pixiv_handles, pixiv_host};
use x::{x_by_config, x_handles, x_host};
use youtube::{youtube_by_config, youtube_handles, youtube_host};

verus! {

/// A provider of one of the platforms.
#[derive(Debug)]
pub enum PlatformProvider {
    X(XProvider),
    YouTube(YouTubeProvider),
    Pixiv(PixivProvider),
    Bilibili(BilibiliProvider),
    Netease(NeteaseProvider),
}

/// The platform of a provider.
pub open spec fn provider_platform(provider: PlatformProvider) -> Platform {
    match provider {
        PlatformProvider::X(_) => Platform::X,
        PlatformProvider::YouTube(_) => Platform::YouTube,
        PlatformProvider::Pixiv(_) => Platform::Pixiv,
        PlatformProvider::Bilibili(_) => Platform::Bilibili,
        PlatformProvider::Netease(_) => Platform::Netease,
    }
}

/// Whether a link belongs to a platform.
pub open spec fn platform_handles(platform: Platform, url: Seq<char>) -> bool {
    match platform {
        Platform::X => x_handles(url),
        Platform::YouTube => youtube_handles(url),
        Platform::Pixiv => pixiv_handles(url),
        Platform::Bilibili => bilibili_handles(url),
        Platform::Netease => netease_handles(url),
    }
}

/// The link with a scheme.
pub open spec fn web_address(raw: Seq<char>) -> Seq<char> {
    if has_prefix(raw, "http://"@) || has_prefix(raw, "https://"@) {
        raw
    } else {
        "https://"@ + raw
    }
}

pub fn to_address(raw: &str) -> (r: String)
    ensures
        r@ == web_address(raw@),
{
    if starts_with(raw, "http://") || starts_with(raw, "https://") {
        raw.to_owned()
    } else {
        cat2("https://", raw)
    }
}

/// The host of a URL in small letters; empty where it has none.
pub open spec fn small_host(parts: UrlView) -> Seq<char> {
    lowered(or_blank(parts.host))
}

/// The host of a link in small letters; empty where the link has none.
pub open spec fn link_host(url: Seq<char>) -> Seq<char> {
    match url_parts(web_address(lowered(trimmed(url)))) {
        Some(parts) => small_host(parts),
        None => Seq::empty(),
    }
}

pub fn host_of_link(url: &str) -> (r: String)
    ensures
        r@ == link_host(url@),
{
    match parse_url(to_address(lower(trim(url).as_str()).as_str()).as_str()) {
        Some(parts) => lower(or_empty(parts.host).as_str()),
        None => String::new(),
    }
}

/// Whether a host is a domain or lies in it.
pub open spec fn in_domain(host: Seq<char>, domain: Seq<char>) -> bool {
    host == domain || has_suffix(host, "."@ + domain)
}

pub fn lies_in(host: &str, domain: &str) -> (r: bool)
    ensures
        r == in_domain(host@, domain@),
{
    same(host, domain) || ends_with(host, cat2(".", domain).as_str())
}

/// Whether a host belongs to a platform.
pub open spec fn platform_host(platform: Platform, host: Seq<char>) -> bool {
    match platform {
        Platform::X => x_host(host),
        Platform::YouTube => youtube_host(host),
        Platform::Pixiv => pixiv_host(host),
        Platform::Bilibili => bilibili_host(host),
        Platform::Netease => netease_host(host),
    }
}

/// A platform claims no link on a host that is not its own. The name or number of a Bilibili
/// video standing alone is on no host.
pub proof fn law_only_own_hosts(platform: Platform, url: Seq<char>)
    requires
        platform_handles(platform, url),
    ensures
        platform != Platform::Bilibili ==> platform_host(platform, link_host(url)),
        platform == Platform::Bilibili ==> bare_video(url) || match url_parts(web_address(url)) {
            Some(parts) => platform_host(platform, small_host(parts)),
            None => false,
        },
{
}

/// What parses the links of a platform.
pub trait Provider: Sized {
    /// The platform.
    spec fn platform_of(&self) -> Platform;

    /// The provider as an entry of a registry.
    spec fn entry(&self) -> PlatformProvider;

    fn platform(&self) -> (r: Platform)
        ensures
            r == self.platform_of(),
    ;

    /// Whether a link belongs to the platform.
    fn can_handle(&self, url: &str) -> (r: bool)
        ensures
            r == platform_handles(self.platform_of(), url@),
    ;

    /// The provider as an entry of a registry.
    fn into_provider(self) -> (r: PlatformProvider)
        ensures
            r == self.entry(),
            provider_platform(r) == self.platform_of(),
    ;
}

impl PlatformProvider {
    pub fn platform(&self) -> (r: Platform)
        ensures
            r == provider_platform(*self),
    {
        match self {
            PlatformProvider::X(p) => p.platform(),
            PlatformProvider::YouTube(p) => p.platform(),
            PlatformProvider::Pixiv(p) => p.platform(),
            PlatformProvider::Bilibili(p) => p.platform(),
            PlatformProvider::Netease(p) => p.platform(),
        }
    }

    pub fn can_handle(&self, url: &str) -> (r: bool)
        ensures
            r == platform_handles(provider_platform(*self), url@),
    {
        match self {
            PlatformProvider::X(p) => p.can_handle(url),
            PlatformProvider::YouTube(p) => p.can_handle(url),
            PlatformProvider::Pixiv(p) => p.can_handle(url),
            PlatformProvider::Bilibili(p) => p.can_handle(url),
            PlatformProvider::Netease(p) => p.can_handle(url),
        }
    }
}

/// The providers, in the order in which they are asked.
#[derive(Debug)]
pub struct ProviderRegistry {
    providers: Vec<PlatformProvider>,
}

/// The platforms of providers.
pub open spec fn platforms_of(providers: Seq<PlatformProvider>) -> Seq<Platform> {
    Seq::new(providers.len(), |i: int| provider_platform(providers[i]))
}

/// The number of the first platform, from number `from` on, to which a link belongs.
pub open spec fn first_handler(platforms: Seq<Platform>, url: Seq<char>, from: int) -> Option<int>
    decreases platforms.len() - from,
{
    if from < 0 || from >= platforms.len() {
        None
    } else if platform_handles(platforms[from], url) {
        Some(from)
    } else {
        first_handler(platforms, url, from + 1)
    }
}

/// The platform to which a link belongs.
pub open spec fn route(platforms: Seq<Platform>, url: Seq<char>) -> Option<Platform> {
    match first_handler(platforms, url, 0) {
        Some(i) => Some(platforms[i]),
        None => None,
    }
}

/// Whether a provider is set up by the settings.
pub open spec fn by_config(provider: PlatformProvider, config: Config) -> bool {
    match provider {
        PlatformProvider::X(p) => x_by_config(p, config),
        PlatformProvider::YouTube(p) => youtube_by_config(p, config),
        PlatformProvider::Pixiv(p) => pixiv_by_config(p, config),
        PlatformProvider::Bilibili(p) => bilibili_by_config(p, config),
        PlatformProvider::Netease(p) => netease_by_config(p, config),
    }
}

/// The platforms in the order in which they are asked.
pub open spec fn standard_platforms() -> Seq<Platform> {
    seq![
        Platform::X,
        Platform::YouTube,
        Platform::Pixiv,
        Platform::Bilibili,
        Platform::Netease,
    ]
}

/// A link has a provider exactly where it belongs to one of the platforms, and then to the
/// first of those to which it belongs.
pub proof fn law_first_handler(platforms: Seq<Platform>, url: Seq<char>, from: int)
    requires
        0 <= from <= platforms.len(),
    ensures
        match first_handler(platforms, url, from) {
            Some(i) => from <= i < platforms.len() && platform_handles(platforms[i], url)
                && forall|j: int|
                from <= j < i ==> !platform_handles(#[trigger] platforms[j], url),
            None => forall|j: int|
                from <= j < platforms.len() ==> !platform_handles(#[trigger] platforms[j], url),
        },
    decreases platforms.len() - from,
{
    if from < platforms.len() && !platform_handles(platforms[from], url) {
        law_first_handler(platforms, url, from + 1);
    }
}

impl View for ProviderRegistry {
    type V = Seq<Platform>;

    open spec fn view(&self) -> Seq<Platform> {
        platforms_of(self.entries())
    }
}

impl ProviderRegistry {
    /// The providers in the order in which they are asked.
    pub closed spec fn entries(&self) -> Seq<PlatformProvider> {
        self.providers@
    }

    /// The provider of a link: the first to whose platform it belongs.
    pub open spec fn handler(&self, url: Seq<char>) -> Option<PlatformProvider> {
        match first_handler(self@, url, 0) {
            Some(i) => Some(self.entries()[i]),
            None => None,
        }
    }
}

impl Default for ProviderRegistry {
    fn default() -> (r: ProviderRegistry)
        ensures
            r.entries() == Seq::<PlatformProvider>::empty(),
            r@ == Seq::<Platform>::empty(),
    {
        let r = ProviderRegistry { providers: Vec::new() };
        assert(r@ =~= Seq::<Platform>::empty());
        r
    }
}

impl ProviderRegistry {
    /// The registry of all platforms.
    pub fn new(config: &Config) -> (r: ProviderRegistry)
        ensures
            r@ == standard_platforms(),
            forall|i: int| 0 <= i < r.entries().len() ==> by_config(#[trigger] r.entries()[i], *config),
    {
        let mut registry = ProviderRegistry::default();
        registry.register(XProvider::new(config));
        registry.register(YouTubeProvider::new(config));
        registry.register(PixivProvider::new(config));
        registry.register(BilibiliProvider::new(config));
        registry.register(NeteaseProvider::new(config));
        assert(registry@ =~= standard_platforms());
        registry
    }

    /// Adds a provider, which is asked after those that are there.
    pub fn register<P: Provider>(&mut self, provider: P)
        ensures
            final(self).entries() == old(self).entries().push(provider.entry()),
            final(self)@ == old(self)@.push(provider.platform_of()),
    {
        let ghost platform = provider.platform_of();
        let ghost before = self.providers@;
        self.providers.push(provider.into_provider());
        assert(platforms_of(self.providers@) =~= platforms_of(before).push(platform));
    }

    /// The provider of a link.
    pub fn find(&self, url: &str) -> (r: Option<&PlatformProvider>)
        ensures
            (match r {
                Some(p) => Some(*p),
                None => None,
            }) == self.handler(url@),
            (match r {
                Some(p) => Some(provider_platform(*p)),
                None => None,
            }) == route(self@, url@),
    {
        let mut i: usize = 0;
        while i < self.providers.len()
            invariant
                i <= self.providers@.len(),
                first_handler(self@, url@, 0) == first_handler(self@, url@, i as int),
            decreases self.providers.len() - i,
        {
            assert(self@[i as int] == provider_platform(self.providers@[i as int]));
            if self.providers[i].can_handle(url) {
                return Some(&self.providers[i]);
            }
            i += 1;
        }
        None
    }

    /// Whether a link belongs to any of the platforms.
    pub fn supports(&self, url: &str) -> (r: bool)
        ensures
            r == (route(self@, url@) is Some),
    {
        self.find(url).is_some()
    }

    /// The provider of a link, or the error that there is none.
    pub fn parse_one(&self, url: &str) -> (r: ProviderResult<&PlatformProvider>)
        ensures
            match r {
                Ok(p) => self.handler(url@) == Some(*p) && route(self@, url@) == Some(
                    provider_platform(*p),
                ),
                Err(error) => route(self@, url@) is None && error@ == ErrorView::Unsupported(url@),
            },
    {
        match self.find(url) {
            Some(p) => Ok(p),
            None => Err(ProviderError::Unsupported(url.to_owned())),
        }
    }

    /// The provider of the link of each request, or the error that there is none.
    pub fn parse_many(&self, requests: &Vec<ParseRequest>) -> (r: Vec<
        ProviderResult<&PlatformProvider>,
    >)
        ensures
            r@.len() == requests@.len(),
            forall|i: int|
                0 <= i < r@.len() ==> match #[trigger] r@[i] {
                    Ok(p) => self.handler(requests@[i].url@) == Some(*p),
                    Err(error) => route(self@, requests@[i].url@) is None && error@
                        == ErrorView::Unsupported(requests@[i].url@),
                },
    {
        let mut out: Vec<ProviderResult<&PlatformProvider>> = Vec::new();
        let mut i: usize = 0;
        while i < requests.len()
            invariant
                i <= requests@.len(),
                out@.len() == i,
                forall|k: int|
                    0 <= k < i ==> match #[trigger] out@[k] {
                        Ok(p) => self.handler(requests@[k].url@) == Some(*p),
                        Err(error) => route(self@, requests@[k].url@) is None && error@
                            == ErrorView::Unsupported(requests@[k].url@),
                    },
            decreases requests.len() - i,
        {
            out.push(self.parse_one(requests[i].url.as_str()));
            i += 1;
        }
        out
    }
}

/// The text at a path.
pub open spec fn str_at(value: Json, path: Seq<char>) -> Option<Seq<char>> {
    text_value(value_at(value, path))
}

/// The whole number that a value is or writes.
pub open spec fn whole_number(value: Json) -> Option<u64> {
    match value {
        Json::Number(n) => if n.unsigned is Some {
            n.unsigned
        } else {
            match n.signed {
                Some(i) => if i >= 0 {
                    Some(i as u64)
                } else {
                    None
                },
                None => None,
            }
        },
        Json::Text(s) => match parsed_number(s@, u64::MAX as nat) {
            Some(n) => Some(n as u64),
            None => None,
        },
        _ => None,
    }
}

/// The whole number at a path.
pub open spec fn u64_at(value: Json, path: Seq<char>) -> Option<u64> {
    match value_at(value, path) {
        Some(v) => whole_number(v),
        None => None,
    }
}

pub fn get_str(value: &Json, pointer: &str) -> (r: Option<String>)
    ensures
        opt_text(r) == str_at(*value, pointer@),
{
    match value.pointer(pointer) {
        Some(v) => v.as_str(),
        None => None,
    }
}

pub fn get_u64(value: &Json, pointer: &str) -> (r: Option<u64>)
    ensures
        r == u64_at(*value, pointer@),
{
    match value.pointer(pointer) {
        Some(v) => match v {
            Json::Number(n) => if n.unsigned.is_some() {
                n.unsigned
            } else {
                match n.signed {
                    Some(i) => if i >= 0 {
                        Some(i as u64)
                    } else {
                        None
                    },
                    None => None,
                }
            },
            Json::Text(s) => parse_number(s.as_str(), u64::MAX),
            _ => None,
        },
        None => None,
    }
}

/// The text of a member of an object.
pub open spec fn member_str(value: Json, key: Seq<char>) -> Option<Seq<char>> {
    text_value(member(value, key))
}

/// The unsigned integer of a member of an object.
pub open spec fn member_u64(value: Json, key: Seq<char>) -> Option<u64> {
    unsigned_value(member(value, key))
}

pub fn field_str(value: &Json, key: &str) -> (r: Option<String>)
    ensures
        opt_text(r) == member_str(*value, key@),
{
    match value.get(key) {
        Some(v) => v.as_str(),
        None => None,
    }
}

pub fn field_u64(value: &Json, key: &str) -> (r: Option<u64>)
    ensures
        r == member_u64(*value, key@),
{
    match value.get(key) {
        Some(v) => v.as_u64(),
        None => None,
    }
}

/// The items of the list at a path; none where there is no list.
pub open spec fn list_at(value: Json, path: Seq<char>) -> Seq<Json> {
    match list_value(value_at(value, path)) {
        Some(items) => items,
        None => Seq::empty(),
    }
}

/// A number as it fits into 32 bits.
pub open spec fn low_u32(value: Option<u64>) -> Option<u32> {
    match value {
        Some(n) => Some(n as u32),
        None => None,
    }
}

pub fn to_u32(value: Option<u64>) -> (r: Option<u32>)
    ensures
        r == low_u32(value),
{
    match value {
        Some(n) => Some(
            #[verifier::truncate]
            (n as u32),
        ),
        None => None,
    }
}

/// The product, as far as the type reaches.
pub open spec fn product_u64(a: u64, b: u64) -> u64 {
    if a * b <= u64::MAX {
        (a * b) as u64
    } else {
        u64::MAX
    }
}

pub fn saturating_product(a: u64, b: u64) -> (r: u64)
    ensures
        r == product_u64(a, b),
{
    match a.checked_mul(b) {
        Some(n) => n,
        None => u64::MAX,
    }
}

/// The last segment of the path of a URL, or the other name where there is none.
pub open spec fn url_filename(url: Seq<char>, fallback: Seq<char>) -> Seq<char> {
    match url_parts(url) {
        Some(parts) => match parts.segments {
            Some(segments) => if segments.len() > 0 && segments[segments.len() - 1].len() > 0 {
                segments[segments.len() - 1]
            } else {
                fallback
            },
            None => fallback,
        },
        None => fallback,
    }
}

pub fn filename_from_url(url: &str, fallback: &str) -> (r: String)
    ensures
        r@ == url_filename(url@, fallback@),
{
    match parse_url(url) {
        Some(parts) => match &parts.segments {
            Some(segments) => {
                if segments.len() > 0 {
                    assert(texts(segments@)[segments@.len() - 1] == segments@[segments@.len()
                        - 1]@);
                    let last = segments[segments.len() - 1].as_str();
                    if !empty(last) {
                        return last.to_owned();
                    }
                }
                fallback.to_owned()
            },
            None => fallback.to_owned(),
        },
        None => fallback.to_owned(),
    }
}

/// The reply of a server: its status, the status in words, and the body.
#[derive(Debug)]
pub struct HttpReply {
    pub status: u16,
    pub status_text: String,
    pub body: String,
}

/// Why the status of a reply means an error; none where it means success.
pub open spec fn status_error(reply: HttpReply, source: Seq<char>) -> Option<ErrorView> {
    if reply.status == 401 || reply.status == 403 {
        Some(ErrorView::Authentication(source))
    } else if reply.status == 404 {
        Some(ErrorView::Unavailable(source))
    } else if reply.status == 429 {
        Some(ErrorView::RateLimited(source))
    } else if reply.status < 200 || reply.status >= 300 {
        Some(ErrorView::Upstream(source + ": HTTP "@ + reply.status_text@))
    } else {
        None
    }
}

/// The document that a reply holds, or the error that it means.
pub open spec fn reply_document(reply: HttpReply, source: Seq<char>) -> Result<Json, ErrorView> {
    match status_error(reply, source) {
        Some(error) => Err(error),
        None => match json_document(reply.body@) {
            Ok(document) => Ok(document),
            Err(message) => Err(ErrorView::InvalidResponse(source + ": "@ + message)),
        },
    }
}

/// A document or an error, as plain values.
pub open spec fn document_result(r: ProviderResult<Json>) -> Result<Json, ErrorView> {
    match r {
        Ok(document) => Ok(document),
        Err(error) => Err(error@),
    }
}

/// Reads the document of a reply.
pub fn json_response(reply: &HttpReply, source: &str) -> (r: ProviderResult<Json>)
    ensures
        document_result(r) == reply_document(*reply, source@),
{
    if reply.status == 401 || reply.status == 403 {
        return Err(ProviderError::Authentication(source.to_owned()));
    }
    if reply.status == 404 {
        return Err(ProviderError::Unavailable(source.to_owned()));
    }
    if reply.status == 429 {
        return Err(ProviderError::RateLimited(source.to_owned()));
    }
    if reply.status < 200 || reply.status >= 300 {
        return Err(
            ProviderError::Upstream(cat3(source, ": HTTP ", reply.status_text.as_str())),
        );
    }
    match parse_json(reply.body.as_str()) {
        Ok(document) => Ok(document),
        Err(message) => Err(
            ProviderError::InvalidResponse(cat3(source, ": ", message.as_str())),
        ),
    }
}

} // verus!
