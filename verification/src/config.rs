//! The settings of the bot, read from the variables of the environment.
use vstd::prelude::*;

use crate::text::{
    empty, lower, lowered, opt_text, parse_number, parsed_number, same, trim, trimmed,
};

verus! {

/// When photos and videos are covered.
#[derive(Debug, Clone, Copy, PartialEq, Eq, Structural)]
pub enum MediaSpoilerMode {
    /// Where the platform marks the content as sensitive.
    Auto,
    Always,
    Off,
}

/// The mode that a setting names; the case and white space around it do not matter.
pub open spec fn spoiler_named(setting: Seq<char>) -> MediaSpoilerMode {
    let name = lowered(trimmed(setting));
    if name == "always"@ || name == "on"@ || name == "true"@ || name == "1"@ {
        MediaSpoilerMode::Always
    } else if name == "off"@ || name == "false"@ || name == "0"@ {
        MediaSpoilerMode::Off
    } else {
        MediaSpoilerMode::Auto
    }
}

impl MediaSpoilerMode {
    pub fn from_name(setting: &str) -> (r: MediaSpoilerMode)
        ensures
            r == spoiler_named(setting@),
    {
        let name = lower(trim(setting).as_str());
        let name = name.as_str();
        if same(name, "always") || same(name, "on") || same(name, "true") || same(name, "1") {
            MediaSpoilerMode::Always
        } else if same(name, "off") || same(name, "false") || same(name, "0") {
            MediaSpoilerMode::Off
        } else {
            MediaSpoilerMode::Auto
        }
    }
}

/// Which address of a Bilibili video is tried first.
#[derive(Debug, Clone, Copy)]
pub enum BilibiliCdnPreference {
    /// The main address.
    BaseUrl,
    /// The backup addresses.
    BackupUrl,
    /// The main address on another host.
    Mirror(&'static str),
}

/// The preference with the host as plain characters.
#[verifier::ext_equal]
pub enum CdnView {
    BaseUrl,
    BackupUrl,
    Mirror(Seq<char>),
}

impl View for BilibiliCdnPreference {
    type V = CdnView;

    open spec fn view(&self) -> CdnView {
        match self {
            BilibiliCdnPreference::BaseUrl => CdnView::BaseUrl,
            BilibiliCdnPreference::BackupUrl => CdnView::BackupUrl,
            BilibiliCdnPreference::Mirror(host) => CdnView::Mirror(host@),
        }
    }
}

/// The host of a mirror by its short name.
pub open spec fn mirror_host(name: Seq<char>) -> Option<Seq<char>> {
    if name == "ali"@ {
        Some("upos-sz-mirrorali.bilivideo.com"@)
    } else if name == "alib"@ {
        Some("upos-sz-mirroralib.bilivideo.com"@)
    } else if name == "alio1"@ {
        Some("upos-sz-mirroralio1.bilivideo.com"@)
    } else if name == "cos"@ {
        Some("upos-sz-mirrorcos.bilivideo.com"@)
    } else if name == "cosb"@ {
        Some("upos-sz-mirrorcosb.bilivideo.com"@)
    } else if name == "coso1"@ {
        Some("upos-sz-mirrorcoso1.bilivideo.com"@)
    } else if name == "hw"@ {
        Some("upos-sz-mirrorhw.bilivideo.com"@)
    } else if name == "hwb"@ {
        Some("upos-sz-mirrorhwb.bilivideo.com"@)
    } else if name == "hwo1"@ {
        Some("upos-sz-mirrorhwo1.bilivideo.com"@)
    } else if name == "08c"@ {
        Some("upos-sz-mirror08c.bilivideo.com"@)
    } else if name == "08h"@ {
        Some("upos-sz-mirror08h.bilivideo.com"@)
    } else if name == "08ct"@ {
        Some("upos-sz-mirror08ct.bilivideo.com"@)
    } else if name == "tf_hw"@ {
        Some("upos-tf-all-hw.bilivideo.com"@)
    } else if name == "tf_tx"@ {
        Some("upos-tf-all-tx.bilivideo.com"@)
    } else if name == "akamai"@ {
        Some("upos-hz-mirrorakam.akamaized.net"@)
    } else if name == "aliov"@ {
        Some("upos-sz-mirroraliov.bilivideo.com"@)
    } else if name == "cosov"@ {
        Some("upos-sz-mirrorcosov.bilivideo.com"@)
    } else if name == "hwov"@ {
        Some("upos-sz-mirrorhwov.bilivideo.com"@)
    } else if name == "hk_bcache"@ {
        Some("cn-hk-eq-bcache-01.bilivideo.com"@)
    } else {
        None
    }
}

fn mirror(name: &str) -> (r: Option<&'static str>)
    ensures
        match r {
            Some(host) => mirror_host(name@) == Some(host@),
            None => mirror_host(name@) is None,
        },
{
    if same(name, "ali") {
        Some("upos-sz-mirrorali.bilivideo.com")
    } else if same(name, "alib") {
        Some("upos-sz-mirroralib.bilivideo.com")
    } else if same(name, "alio1") {
        Some("upos-sz-mirroralio1.bilivideo.com")
    } else if same(name, "cos") {
        Some("upos-sz-mirrorcos.bilivideo.com")
    } else if same(name, "cosb") {
        Some("upos-sz-mirrorcosb.bilivideo.com")
    } else if same(name, "coso1") {
        Some("upos-sz-mirrorcoso1.bilivideo.com")
    } else if same(name, "hw") {
        Some("upos-sz-mirrorhw.bilivideo.com")
    } else if same(name, "hwb") {
        Some("upos-sz-mirrorhwb.bilivideo.com")
    } else if same(name, "hwo1") {
        Some("upos-sz-mirrorhwo1.bilivideo.com")
    } else if same(name, "08c") {
        Some("upos-sz-mirror08c.bilivideo.com")
    } else if same(name, "08h") {
        Some("upos-sz-mirror08h.bilivideo.com")
    } else if same(name, "08ct") {
        Some("upos-sz-mirror08ct.bilivideo.com")
    } else if same(name, "tf_hw") {
        Some("upos-tf-all-hw.bilivideo.com")
    } else if same(name, "tf_tx") {
        Some("upos-tf-all-tx.bilivideo.com")
    } else if same(name, "akamai") {
        Some("upos-hz-mirrorakam.akamaized.net")
    } else if same(name, "aliov") {
        Some("upos-sz-mirroraliov.bilivideo.com")
    } else if same(name, "cosov") {
        Some("upos-sz-mirrorcosov.bilivideo.com")
    } else if same(name, "hwov") {
        Some("upos-sz-mirrorhwov.bilivideo.com")
    } else if same(name, "hk_bcache") {
        Some("cn-hk-eq-bcache-01.bilivideo.com")
    } else {
        None
    }
}

/// The preference that a setting names: a mirror by its short name, the backup addresses, or
/// else the main address.
pub open spec fn cdn_named(setting: Seq<char>) -> CdnView {
    let name = lowered(trimmed(setting));
    if name == "backupurl"@ {
        CdnView::BackupUrl
    } else {
        match mirror_host(name) {
            Some(host) => CdnView::Mirror(host),
            None => CdnView::BaseUrl,
        }
    }
}

impl BilibiliCdnPreference {
    pub fn from_name(setting: &str) -> (r: BilibiliCdnPreference)
        ensures
            r@ == cdn_named(setting@),
    {
        let name = lower(trim(setting).as_str());
        if same(name.as_str(), "backupurl") {
            BilibiliCdnPreference::BackupUrl
        } else {
            match mirror(name.as_str()) {
                Some(host) => BilibiliCdnPreference::Mirror(host),
                None => BilibiliCdnPreference::BaseUrl,
            }
        }
    }
}

/// The settings.
#[derive(Debug, Clone)]
pub struct Config {
    pub telegram_token: String,
    pub telegram_api_url: Option<String>,
    pub telegram_request_timeout_secs: u64,
    pub media_download_timeout_secs: u64,
    pub media_download_retries: usize,
    pub media_photo_source_max_size_mb: u64,
    pub database_url: String,
    pub fxtwitter_api_base: String,
    pub pixiv_web_api_base: String,
    pub netease_api_base: String,
    pub netease_cookie: Option<String>,
    pub youtube_api_key: Option<String>,
    pub youtube_cookies_file: Option<String>,
    pub pixiv_refresh_token: Option<String>,
    pub bilibili_cookie: Option<String>,
    pub bilibili_cdn: BilibiliCdnPreference,
    pub bilibili_passport_base: String,
    pub bilibili_api_base: String,
    pub bilibili_live_api_base: String,
    pub bilibili_www_base: String,
    pub ffmpeg_path: String,
    pub ffprobe_path: String,
    pub yt_dlp_path: String,
    pub temp_dir: String,
    pub upload_workers: usize,
    pub max_queue_size: usize,
    pub request_limit_count: u64,
    pub request_limit_ttl: u64,
    pub local_bot_api: bool,
    pub webhook_url: Option<String>,
    pub webhook_host: String,
    pub webhook_port: u16,
    pub admin_user_id: Option<u64>,
    pub media_spoiler_mode: MediaSpoilerMode,
}

/// The value of the first variable at or after `from` with the given name.
pub open spec fn variable(
    vars: Seq<(String, String)>,
    name: Seq<char>,
    from: int,
) -> Option<Seq<char>>
    decreases vars.len() - from,
{
    if from < 0 || from >= vars.len() {
        None
    } else if vars[from].0@ == name {
        Some(vars[from].1@)
    } else {
        variable(vars, name, from + 1)
    }
}

/// The value of a variable that holds more than white space.
pub open spec fn set_value(vars: Seq<(String, String)>, name: Seq<char>) -> Option<Seq<char>> {
    match variable(vars, name, 0) {
        Some(v) => if trimmed(v).len() > 0 {
            Some(v)
        } else {
            None
        },
        None => None,
    }
}

/// The value of a variable, or the default where there is none.
pub open spec fn text_or(
    vars: Seq<(String, String)>,
    name: Seq<char>,
    default: Seq<char>,
) -> Seq<char> {
    match variable(vars, name, 0) {
        Some(v) => v,
        None => default,
    }
}

/// The number that a variable writes, or the default where it writes none up to `max`.
pub open spec fn number_or(
    vars: Seq<(String, String)>,
    name: Seq<char>,
    max: nat,
    default: nat,
) -> nat {
    match variable(vars, name, 0) {
        Some(v) => match parsed_number(v, max) {
            Some(n) => n,
            None => default,
        },
        None => default,
    }
}

/// Whether a value means yes.
pub open spec fn is_yes(v: Seq<char>) -> bool {
    let name = lowered(v);
    name == "1"@ || name == "true"@ || name == "yes"@ || name == "on"@
}

/// The token: one of two variables holds it.
pub open spec fn token_of(vars: Seq<(String, String)>) -> Option<Seq<char>> {
    match variable(vars, "TELEGRAM_BOT_TOKEN"@, 0) {
        Some(v) => Some(v),
        None => variable(vars, "TOKEN"@, 0),
    }
}

/// Whether the settings other than the token are those of the variables.
pub open spec fn configured(c: Config, vars: Seq<(String, String)>) -> bool {
    &&& opt_text(c.telegram_api_url) == set_value(vars, "TELEGRAM_API_URL"@)
    &&& c.telegram_request_timeout_secs == number_or(vars, "TELEGRAM_REQUEST_TIMEOUT_SECS"@, u64::MAX as nat, 600)
    &&& c.media_download_timeout_secs == number_or(vars, "MEDIA_DOWNLOAD_TIMEOUT_SECS"@, u64::MAX as nat, 120)
    &&& c.media_download_retries == number_or(vars, "MEDIA_DOWNLOAD_RETRIES"@, usize::MAX as nat, 3)
    &&& c.media_photo_source_max_size_mb == number_or(vars, "MEDIA_PHOTO_SOURCE_MAX_SIZE_MB"@, u64::MAX as nat, 200)
    &&& c.database_url@ == text_or(vars, "DATABASE_URL"@, "sqlite://data/feedbot.db?mode=rwc"@)
    &&& c.fxtwitter_api_base@ == text_or(vars, "FXTWITTER_API_BASE"@, "https://api.fxtwitter.com"@)
    &&& c.pixiv_web_api_base@ == text_or(vars, "PIXIV_WEB_API_BASE"@, text_or(vars, "PHIXIV_API_BASE"@, "https://www.pixiv.net"@))
    &&& c.netease_api_base@ == text_or(vars, "NETEASE_API_BASE"@, "http://127.0.0.1:3000"@)
    &&& opt_text(c.netease_cookie) == set_value(vars, "NETEASE_COOKIE"@)
    &&& opt_text(c.youtube_api_key) == set_value(vars, "YOUTUBE_API_KEY"@)
    &&& opt_text(c.youtube_cookies_file) == set_value(vars, "YOUTUBE_COOKIES_FILE"@)
    &&& opt_text(c.pixiv_refresh_token) == set_value(vars, "PIXIV_REFRESH_TOKEN"@)
    &&& opt_text(c.bilibili_cookie) == set_value(vars, "BILIBILI_COOKIE"@)
    &&& c.bilibili_cdn@ == cdn_named(text_or(vars, "BILIBILI_CDN"@, "baseUrl"@))
    &&& c.bilibili_passport_base@ == text_or(vars, "BILIBILI_PASSPORT_BASE"@, "https://passport.bilibili.com"@)
    &&& c.bilibili_api_base@ == text_or(vars, "BILIBILI_API_BASE"@, "https://api.bilibili.com"@)
    &&& c.bilibili_live_api_base@ == text_or(vars, "BILIBILI_LIVE_API_BASE"@, "https://api.live.bilibili.com"@)
    &&& c.bilibili_www_base@ == text_or(vars, "BILIBILI_WWW_BASE"@, "https://www.bilibili.com"@)
    &&& c.ffmpeg_path@ == text_or(vars, "FFMPEG_PATH"@, "ffmpeg"@)
    &&& c.ffprobe_path@ == text_or(vars, "FFPROBE_PATH"@, "ffprobe"@)
    &&& c.yt_dlp_path@ == text_or(vars, "YT_DLP_PATH"@, "yt-dlp"@)
    &&& c.temp_dir@ == text_or(vars, "TEMP_DIR"@, "tmp"@)
    &&& c.upload_workers == number_or(vars, "UPLOAD_WORKERS"@, usize::MAX as nat, 4)
    &&& c.max_queue_size == number_or(vars, "MAX_QUEUE_SIZE"@, usize::MAX as nat, 200)
    &&& c.request_limit_count == number_or(vars, "REQUEST_LIMIT_COUNT"@, u64::MAX as nat, 0)
    &&& c.request_limit_ttl == number_or(vars, "REQUEST_LIMIT_TTL"@, u64::MAX as nat, 86400)
    &&& c.local_bot_api == (match variable(vars, "LOCAL_MODE"@, 0) { Some(v) => is_yes(v), None => false })
    &&& opt_text(c.webhook_url) == set_value(vars, "WEBHOOK_URL"@)
    &&& c.webhook_host@ == text_or(vars, "WEBHOOK_HOST"@, "0.0.0.0"@)
    &&& c.webhook_port == number_or(vars, "WEBHOOK_PORT"@, u16::MAX as nat, 8080)
    &&& (match c.admin_user_id { Some(v) => Some(v as nat), None => None }) == (match set_value(vars, "ADMIN_USER_ID"@) { Some(v) => parsed_number(v, u64::MAX as nat), None => None })
    &&& c.media_spoiler_mode == spoiler_named(text_or(vars, "MEDIA_SPOILER_MODE"@, "auto"@))
}

fn env_var(vars: &Vec<(String, String)>, name: &str) -> (r: Option<String>)
    ensures
        opt_text(r) == variable(vars@, name@, 0),
{
    let mut i: usize = 0;
    while i < vars.len()
        invariant
            i <= vars@.len(),
            variable(vars@, name@, 0) == variable(vars@, name@, i as int),
        decreases vars.len() - i,
    {
        if same(vars[i].0.as_str(), name) {
            return Some(vars[i].1.clone());
        }
        i += 1;
    }
    None
}

fn value(vars: &Vec<(String, String)>, name: &str) -> (r: Option<String>)
    ensures
        opt_text(r) == set_value(vars@, name@),
{
    match env_var(vars, name) {
        Some(v) => if empty(trim(v.as_str()).as_str()) {
            None
        } else {
            Some(v)
        },
        None => None,
    }
}

fn text(vars: &Vec<(String, String)>, name: &str, default: &str) -> (r: String)
    ensures
        r@ == text_or(vars@, name@, default@),
{
    match env_var(vars, name) {
        Some(v) => v,
        None => default.to_owned(),
    }
}

fn parse(vars: &Vec<(String, String)>, name: &str, max: u64, default: u64) -> (r: u64)
    requires
        default <= max,
    ensures
        r == number_or(vars@, name@, max as nat, default as nat),
        r <= max,
{
    match env_var(vars, name) {
        Some(v) => match parse_number(v.as_str(), max) {
            Some(n) => n,
            None => default,
        },
        None => default,
    }
}

fn parse_bool(vars: &Vec<(String, String)>, name: &str, default: bool) -> (r: bool)
    ensures
        r == (match variable(vars@, name@, 0) {
            Some(v) => is_yes(v),
            None => default,
        }),
{
    match env_var(vars, name) {
        Some(v) => {
            let name = lower(v.as_str());
            let name = name.as_str();
            same(name, "1") || same(name, "true") || same(name, "yes") || same(name, "on")
        },
        None => default,
    }
}

impl Config {
    /// Reads the settings. Only the token has no default.
    pub fn from_env(vars: &Vec<(String, String)>) -> (r: Result<Config, String>)
        ensures
            match r {
                Ok(c) => token_of(vars@) == Some(c.telegram_token@) && configured(c, vars@),
                Err(message) => token_of(vars@) is None && message@
                    == "必须设置 TELEGRAM_BOT_TOKEN（或兼容变量 TOKEN）"@,
            },
    {
        let telegram_token = match env_var(vars, "TELEGRAM_BOT_TOKEN") {
            Some(v) => v,
            None => match env_var(vars, "TOKEN") {
                Some(v) => v,
                None => {
                    return Err("必须设置 TELEGRAM_BOT_TOKEN（或兼容变量 TOKEN）".to_owned());
                },
            },
        };
        Ok(Config {
            telegram_token,
            telegram_api_url: value(vars, "TELEGRAM_API_URL"),
            telegram_request_timeout_secs: parse(vars, "TELEGRAM_REQUEST_TIMEOUT_SECS", u64::MAX, 600),
            media_download_timeout_secs: parse(vars, "MEDIA_DOWNLOAD_TIMEOUT_SECS", u64::MAX, 120),
            media_download_retries: parse(vars, "MEDIA_DOWNLOAD_RETRIES", usize::MAX as u64, 3) as usize,
            media_photo_source_max_size_mb: parse(vars, "MEDIA_PHOTO_SOURCE_MAX_SIZE_MB", u64::MAX, 200),
            database_url: text(vars, "DATABASE_URL", "sqlite://data/feedbot.db?mode=rwc"),
            fxtwitter_api_base: text(vars, "FXTWITTER_API_BASE", "https://api.fxtwitter.com"),
            pixiv_web_api_base: text(vars, "PIXIV_WEB_API_BASE", text(vars, "PHIXIV_API_BASE", "https://www.pixiv.net").as_str()),
            netease_api_base: text(vars, "NETEASE_API_BASE", "http://127.0.0.1:3000"),
            netease_cookie: value(vars, "NETEASE_COOKIE"),
            youtube_api_key: value(vars, "YOUTUBE_API_KEY"),
            youtube_cookies_file: value(vars, "YOUTUBE_COOKIES_FILE"),
            pixiv_refresh_token: value(vars, "PIXIV_REFRESH_TOKEN"),
            bilibili_cookie: value(vars, "BILIBILI_COOKIE"),
            bilibili_cdn: BilibiliCdnPreference::from_name(text(vars, "BILIBILI_CDN", "baseUrl").as_str()),
            bilibili_passport_base: text(vars, "BILIBILI_PASSPORT_BASE", "https://passport.bilibili.com"),
            bilibili_api_base: text(vars, "BILIBILI_API_BASE", "https://api.bilibili.com"),
            bilibili_live_api_base: text(vars, "BILIBILI_LIVE_API_BASE", "https://api.live.bilibili.com"),
            bilibili_www_base: text(vars, "BILIBILI_WWW_BASE", "https://www.bilibili.com"),
            ffmpeg_path: text(vars, "FFMPEG_PATH", "ffmpeg"),
            ffprobe_path: text(vars, "FFPROBE_PATH", "ffprobe"),
            yt_dlp_path: text(vars, "YT_DLP_PATH", "yt-dlp"),
            temp_dir: text(vars, "TEMP_DIR", "tmp"),
            upload_workers: parse(vars, "UPLOAD_WORKERS", usize::MAX as u64, 4) as usize,
            max_queue_size: parse(vars, "MAX_QUEUE_SIZE", usize::MAX as u64, 200) as usize,
            request_limit_count: parse(vars, "REQUEST_LIMIT_COUNT", u64::MAX, 0),
            request_limit_ttl: parse(vars, "REQUEST_LIMIT_TTL", u64::MAX, 86400),
            local_bot_api: parse_bool(vars, "LOCAL_MODE", false),
            webhook_url: value(vars, "WEBHOOK_URL"),
            webhook_host: text(vars, "WEBHOOK_HOST", "0.0.0.0"),
            webhook_port: parse(vars, "WEBHOOK_PORT", u16::MAX as u64, 8080) as u16,
            admin_user_id: match value(vars, "ADMIN_USER_ID") {
                Some(v) => parse_number(v.as_str(), u64::MAX),
                None => None,
            },
            media_spoiler_mode: MediaSpoilerMode::from_name(text(vars, "MEDIA_SPOILER_MODE", "auto").as_str()),
        })
    }
}

} // verus!
