//! The settings: where each comes from, and what it is where it is not made.
use vstd::prelude::*;

use crate::config::{
    cdn_named, configured, is_yes, mirror_host, spoiler_named, token_of, variable, CdnView, Config,
    MediaSpoilerMode,
};
use crate::provider::netease::{NeteaseProvider};
use crate::provider::pixiv::{PixivProvider};
use crate::provider::x::{XProvider};
use crate::provider::youtube::{YouTubeProvider};
use crate::provider::{by_config, PlatformProvider};
use crate::storage::database_path_of;
use crate::text::{lowered, opt_text, parsed_number, trim_end_of, trimmed};

use super::text::{law_first_part, law_parts_of_text};

verus! {

/// A variable has the value that is given first.
pub proof fn law_first_value_counts(vars: Seq<(String, String)>, name: Seq<char>, k: int)
    requires
        0 <= k < vars.len(),
        vars[k].0@ == name,
        forall|i: int| 0 <= i < k ==> (#[trigger] vars[i]).0@ != name,
    ensures
        variable(vars, name, 0) == Some(vars[k].1@),
{
    lemma_first_value(vars, name, 0, k);
}

proof fn lemma_first_value(vars: Seq<(String, String)>, name: Seq<char>, from: int, k: int)
    requires
        0 <= from <= k < vars.len(),
        vars[k].0@ == name,
        forall|i: int| 0 <= i < k ==> (#[trigger] vars[i]).0@ != name,
    ensures
        variable(vars, name, from) == Some(vars[k].1@),
    decreases k - from,
{
    if from < k {
        lemma_first_value(vars, name, from + 1, k);
    }
}

/// A variable that is not given has no value.
pub proof fn law_missing_variable(vars: Seq<(String, String)>, name: Seq<char>, from: int)
    requires
        0 <= from <= vars.len(),
        forall|i: int| 0 <= i < vars.len() ==> (#[trigger] vars[i]).0@ != name,
    ensures
        variable(vars, name, from) is None,
    decreases vars.len() - from,
{
    if from < vars.len() {
        law_missing_variable(vars, name, from + 1);
    }
}

/// Whether a text is that of a variable, or else its default.
pub open spec fn text_setting(
    text: Seq<char>,
    vars: Seq<(String, String)>,
    name: Seq<char>,
    default: Seq<char>,
) -> bool {
    &&& variable(vars, name, 0) is Some ==> text == variable(vars, name, 0)->0
    &&& variable(vars, name, 0) is None ==> text == default
}

/// Whether a text that may be missing is that of a variable which is not blank.
pub open spec fn optional_setting(
    text: Option<Seq<char>>,
    vars: Seq<(String, String)>,
    name: Seq<char>,
) -> bool {
    let v = variable(vars, name, 0);
    &&& v is Some && trimmed(v->0).len() > 0 ==> text == v
    &&& v is None || trimmed(v->0).len() == 0 ==> text is None
}

/// Whether a number is that of a variable, or its default where the variable writes none.
pub open spec fn number_setting(
    n: int,
    vars: Seq<(String, String)>,
    name: Seq<char>,
    max: nat,
    default: int,
) -> bool {
    let v = variable(vars, name, 0);
    &&& v is Some && parsed_number(v->0, max) is Some ==> n == parsed_number(v->0, max)->0
    &&& v is None || parsed_number(v->0, max) is None ==> n == default
}

/// The servers that are asked, and their defaults.
pub proof fn law_servers(c: Config, vars: Seq<(String, String)>)
    requires
        configured(c, vars),
    ensures
        optional_setting(opt_text(c.telegram_api_url), vars, "TELEGRAM_API_URL"@),
        text_setting(
            c.fxtwitter_api_base@,
            vars,
            "FXTWITTER_API_BASE"@,
            "https://api.fxtwitter.com"@,
        ),
        text_setting(c.netease_api_base@, vars, "NETEASE_API_BASE"@, "http://127.0.0.1:3000"@),
        text_setting(
            c.bilibili_passport_base@,
            vars,
            "BILIBILI_PASSPORT_BASE"@,
            "https://passport.bilibili.com"@,
        ),
        text_setting(
            c.bilibili_api_base@,
            vars,
            "BILIBILI_API_BASE"@,
            "https://api.bilibili.com"@,
        ),
        text_setting(
            c.bilibili_live_api_base@,
            vars,
            "BILIBILI_LIVE_API_BASE"@,
            "https://api.live.bilibili.com"@,
        ),
        text_setting(
            c.bilibili_www_base@,
            vars,
            "BILIBILI_WWW_BASE"@,
            "https://www.bilibili.com"@,
        ),
{
}

/// The server of Pixiv has an older name too, which counts where the newer one is not given.
pub proof fn law_server_of_pixiv(c: Config, vars: Seq<(String, String)>)
    requires
        configured(c, vars),
    ensures
        variable(vars, "PIXIV_WEB_API_BASE"@, 0) is Some ==> c.pixiv_web_api_base@ == variable(
            vars,
            "PIXIV_WEB_API_BASE"@,
            0,
        )->0,
        variable(vars, "PIXIV_WEB_API_BASE"@, 0) is None ==> text_setting(
            c.pixiv_web_api_base@,
            vars,
            "PHIXIV_API_BASE"@,
            "https://www.pixiv.net"@,
        ),
{
}

/// The logins, each under its own name.
pub proof fn law_logins(c: Config, vars: Seq<(String, String)>)
    requires
        configured(c, vars),
    ensures
        optional_setting(opt_text(c.netease_cookie), vars, "NETEASE_COOKIE"@),
        optional_setting(opt_text(c.youtube_api_key), vars, "YOUTUBE_API_KEY"@),
        optional_setting(opt_text(c.youtube_cookies_file), vars, "YOUTUBE_COOKIES_FILE"@),
        optional_setting(opt_text(c.pixiv_refresh_token), vars, "PIXIV_REFRESH_TOKEN"@),
        optional_setting(opt_text(c.bilibili_cookie), vars, "BILIBILI_COOKIE"@),
{
}

/// The programs and places on this machine.
pub proof fn law_programs(c: Config, vars: Seq<(String, String)>)
    requires
        configured(c, vars),
    ensures
        text_setting(
            c.database_url@,
            vars,
            "DATABASE_URL"@,
            "sqlite://data/feedbot.db?mode=rwc"@,
        ),
        text_setting(c.ffmpeg_path@, vars, "FFMPEG_PATH"@, "ffmpeg"@),
        text_setting(c.ffprobe_path@, vars, "FFPROBE_PATH"@, "ffprobe"@),
        text_setting(c.yt_dlp_path@, vars, "YT_DLP_PATH"@, "yt-dlp"@),
        text_setting(c.temp_dir@, vars, "TEMP_DIR"@, "tmp"@),
        text_setting(c.webhook_host@, vars, "WEBHOOK_HOST"@, "0.0.0.0"@),
        optional_setting(opt_text(c.webhook_url), vars, "WEBHOOK_URL"@),
{
}

/// Times, counts and sizes.
pub proof fn law_numbers(c: Config, vars: Seq<(String, String)>)
    requires
        configured(c, vars),
    ensures
        number_setting(
            c.telegram_request_timeout_secs as int,
            vars,
            "TELEGRAM_REQUEST_TIMEOUT_SECS"@,
            u64::MAX as nat,
            600,
        ),
        number_setting(
            c.media_download_timeout_secs as int,
            vars,
            "MEDIA_DOWNLOAD_TIMEOUT_SECS"@,
            u64::MAX as nat,
            120,
        ),
        number_setting(
            c.media_download_retries as int,
            vars,
            "MEDIA_DOWNLOAD_RETRIES"@,
            usize::MAX as nat,
            3,
        ),
        number_setting(
            c.media_photo_source_max_size_mb as int,
            vars,
            "MEDIA_PHOTO_SOURCE_MAX_SIZE_MB"@,
            u64::MAX as nat,
            200,
        ),
        number_setting(c.upload_workers as int, vars, "UPLOAD_WORKERS"@, usize::MAX as nat, 4),
        number_setting(c.max_queue_size as int, vars, "MAX_QUEUE_SIZE"@, usize::MAX as nat, 200),
        number_setting(
            c.request_limit_count as int,
            vars,
            "REQUEST_LIMIT_COUNT"@,
            u64::MAX as nat,
            0,
        ),
        number_setting(
            c.request_limit_ttl as int,
            vars,
            "REQUEST_LIMIT_TTL"@,
            u64::MAX as nat,
            86_400,
        ),
        number_setting(c.webhook_port as int, vars, "WEBHOOK_PORT"@, u16::MAX as nat, 8080),
{
}

/// The administrator is named by a number; without one there is none.
pub proof fn law_administrator(c: Config, vars: Seq<(String, String)>)
    requires
        configured(c, vars),
    ensures
        ({
            let v = variable(vars, "ADMIN_USER_ID"@, 0);
            let n = parsed_number(v->0, u64::MAX as nat);
            let given = v is Some && trimmed(v->0).len() > 0 && n is Some;
            &&& given ==> c.admin_user_id is Some && c.admin_user_id->0 == n->0
            &&& !given ==> c.admin_user_id is None
        }),
{
}

/// A server of one's own is used where the variable says yes, in any case.
pub proof fn law_local_server(c: Config, vars: Seq<(String, String)>, word: Seq<char>)
    requires
        configured(c, vars),
    ensures
        variable(vars, "LOCAL_MODE"@, 0) is None ==> !c.local_bot_api,
        variable(vars, "LOCAL_MODE"@, 0) == Some(word) ==> (c.local_bot_api <==> lowered(word)
            == "1"@ || lowered(word) == "true"@ || lowered(word) == "yes"@ || lowered(word) == "on"@),
        is_yes(word) <==> lowered(word) == "1"@ || lowered(word) == "true"@ || lowered(word)
            == "yes"@ || lowered(word) == "on"@,
{
}

/// The token has a name of its own and an older one.
pub proof fn law_token(vars: Seq<(String, String)>, token: Seq<char>, older: Seq<char>)
    ensures
        variable(vars, "TELEGRAM_BOT_TOKEN"@, 0) == Some(token) ==> token_of(vars) == Some(token),
        variable(vars, "TELEGRAM_BOT_TOKEN"@, 0) is None && variable(vars, "TOKEN"@, 0) == Some(older)
            ==> token_of(vars) == Some(older),
        variable(vars, "TELEGRAM_BOT_TOKEN"@, 0) is None && variable(vars, "TOKEN"@, 0) is None
            ==> token_of(vars) is None,
{
}

/// When media are covered: always, never, or where the platform asks for it.
pub proof fn law_covering(c: Config, vars: Seq<(String, String)>, setting: Seq<char>)
    requires
        configured(c, vars),
    ensures
        ({
            let word = lowered(trimmed(setting));
            let always = word == "always"@ || word == "on"@ || word == "true"@ || word == "1"@;
            let off = word == "off"@ || word == "false"@ || word == "0"@;
            &&& spoiler_named(setting) is Always <==> always
            &&& spoiler_named(setting) is Off <==> off
            &&& spoiler_named(setting) is Auto <==> !always && !off
        }),
        variable(vars, "MEDIA_SPOILER_MODE"@, 0) == Some(setting) ==> c.media_spoiler_mode
            == spoiler_named(setting),
        variable(vars, "MEDIA_SPOILER_MODE"@, 0) is None ==> c.media_spoiler_mode
            == MediaSpoilerMode::Auto,
{
    reveal_strlit("always");
    reveal_strlit("on");
    reveal_strlit("true");
    reveal_strlit("1");
    reveal_strlit("off");
    reveal_strlit("false");
    reveal_strlit("0");
    reveal_strlit("auto");
    assert("always"@[0] == 'a' && "on"@[1] == 'n' && "true"@[0] == 't' && "1"@[0] == '1'
        && "off"@[1] == 'f' && "false"@[0] == 'f' && "0"@[0] == '0');
    let auto = "auto"@;
    super::text::law_trimmed(auto);
    assert(!crate::text::is_white('a') && !crate::text::is_white('o'));
    lemma_bare(auto);
    assert(auto[1] == 'u');
    super::text::law_lowered(auto, 0);
    super::text::law_lowered(auto, 1);
    assert(lowered(auto)[1] == 'u');
}

/// A text without white space at its ends is not trimmed.
proof fn lemma_bare(s: Seq<char>)
    requires
        s.len() > 0,
        !crate::text::is_white(s[0]),
        !crate::text::is_white(s.last()),
    ensures
        trimmed(s) == s,
{
    let r = super::text::law_trimmed(s);
    if r.0.len() > 0 {
        assert(r.0[0] == s[0]);
    }
    if r.1.len() > 0 {
        assert(r.1.last() == s.last());
    }
    assert(trimmed(s) =~= s);
}

/// Where files of Bilibili are fetched from: the address that the server gave, its backups, or a
/// mirror that is named.
pub proof fn law_servers_of_files(c: Config, vars: Seq<(String, String)>, setting: Seq<char>)
    requires
        configured(c, vars),
    ensures
        ({
            let word = lowered(trimmed(setting));
            &&& word == "backupurl"@ ==> cdn_named(setting) == CdnView::BackupUrl
            &&& word != "backupurl"@ && mirror_host(word) is Some ==> cdn_named(setting)
                == CdnView::Mirror(mirror_host(word)->0)
            &&& word != "backupurl"@ && mirror_host(word) is None ==> cdn_named(setting)
                == CdnView::BaseUrl
        }),
        variable(vars, "BILIBILI_CDN"@, 0) == Some(setting) ==> c.bilibili_cdn@ == cdn_named(setting),
{
}

/// Most mirrors are named as their hosts are, behind `upos-sz-mirror`.
pub proof fn law_hosts_of_mirrors(name: Seq<char>)
    requires
        name == "ali"@ || name == "alib"@ || name == "alio1"@ || name == "cos"@ || name == "cosb"@
            || name == "coso1"@ || name == "hw"@ || name == "hwb"@ || name == "hwo1"@ || name
            == "08c"@ || name == "08h"@ || name == "08ct"@ || name == "aliov"@ || name == "cosov"@
            || name == "hwov"@,
    ensures
        mirror_host(name) == Some("upos-sz-mirror"@ + name + ".bilivideo.com"@),
{
    lemma_mirror_texts();
    reveal_strlit("ali");
    reveal_strlit("alib");
    reveal_strlit("alio1");
    reveal_strlit("cos");
    reveal_strlit("cosb");
    reveal_strlit("coso1");
    reveal_strlit("hw");
    reveal_strlit("hwb");
    reveal_strlit("hwo1");
    reveal_strlit("08c");
    reveal_strlit("08h");
    reveal_strlit("08ct");
    reveal_strlit("aliov");
    reveal_strlit("cosov");
    reveal_strlit("hwov");
    reveal_strlit("tf_hw");
    reveal_strlit("tf_tx");
    reveal_strlit("akamai");
    assert("ali"@[0] == 'a' && "cos"@[0] == 'c' && "hwb"@[0] == 'h' && "08c"@[0] == '0');
    assert("08h"@[0] == '0' && "08c"@[2] == 'c' && "08h"@[2] == 'h');
    assert("alib"@[0] == 'a' && "cosb"@[0] == 'c' && "hwo1"@[0] == 'h' && "08ct"@[0] == '0');
    assert("hwov"@[0] == 'h' && "hwo1"@[3] == '1' && "hwov"@[3] == 'v');
    assert("alio1"@[0] == 'a' && "coso1"@[0] == 'c' && "aliov"@[0] == 'a' && "cosov"@[0] == 'c');
    assert("alio1"@[4] == '1' && "coso1"@[4] == '1' && "aliov"@[4] == 'v' && "cosov"@[4] == 'v');
    assert("tf_hw"@[0] == 't' && "tf_tx"@[0] == 't');
}

proof fn lemma_mirror_texts()
    ensures
        "upos-sz-mirror"@ + "ali"@ + ".bilivideo.com"@ == "upos-sz-mirrorali.bilivideo.com"@,
        "upos-sz-mirror"@ + "alib"@ + ".bilivideo.com"@ == "upos-sz-mirroralib.bilivideo.com"@,
        "upos-sz-mirror"@ + "alio1"@ + ".bilivideo.com"@ == "upos-sz-mirroralio1.bilivideo.com"@,
        "upos-sz-mirror"@ + "cos"@ + ".bilivideo.com"@ == "upos-sz-mirrorcos.bilivideo.com"@,
        "upos-sz-mirror"@ + "cosb"@ + ".bilivideo.com"@ == "upos-sz-mirrorcosb.bilivideo.com"@,
        "upos-sz-mirror"@ + "coso1"@ + ".bilivideo.com"@ == "upos-sz-mirrorcoso1.bilivideo.com"@,
        "upos-sz-mirror"@ + "hw"@ + ".bilivideo.com"@ == "upos-sz-mirrorhw.bilivideo.com"@,
        "upos-sz-mirror"@ + "hwb"@ + ".bilivideo.com"@ == "upos-sz-mirrorhwb.bilivideo.com"@,
        "upos-sz-mirror"@ + "hwo1"@ + ".bilivideo.com"@ == "upos-sz-mirrorhwo1.bilivideo.com"@,
        "upos-sz-mirror"@ + "08c"@ + ".bilivideo.com"@ == "upos-sz-mirror08c.bilivideo.com"@,
        "upos-sz-mirror"@ + "08h"@ + ".bilivideo.com"@ == "upos-sz-mirror08h.bilivideo.com"@,
        "upos-sz-mirror"@ + "08ct"@ + ".bilivideo.com"@ == "upos-sz-mirror08ct.bilivideo.com"@,
        "upos-sz-mirror"@ + "aliov"@ + ".bilivideo.com"@ == "upos-sz-mirroraliov.bilivideo.com"@,
        "upos-sz-mirror"@ + "cosov"@ + ".bilivideo.com"@ == "upos-sz-mirrorcosov.bilivideo.com"@,
        "upos-sz-mirror"@ + "hwov"@ + ".bilivideo.com"@ == "upos-sz-mirrorhwov.bilivideo.com"@,
{
    reveal_strlit("upos-sz-mirror");
    reveal_strlit(".bilivideo.com");
    reveal_strlit("ali");
    reveal_strlit("upos-sz-mirrorali.bilivideo.com");
    reveal_strlit("alib");
    reveal_strlit("upos-sz-mirroralib.bilivideo.com");
    reveal_strlit("alio1");
    reveal_strlit("upos-sz-mirroralio1.bilivideo.com");
    reveal_strlit("cos");
    reveal_strlit("upos-sz-mirrorcos.bilivideo.com");
    reveal_strlit("cosb");
    reveal_strlit("upos-sz-mirrorcosb.bilivideo.com");
    reveal_strlit("coso1");
    reveal_strlit("upos-sz-mirrorcoso1.bilivideo.com");
    reveal_strlit("hw");
    reveal_strlit("upos-sz-mirrorhw.bilivideo.com");
    reveal_strlit("hwb");
    reveal_strlit("upos-sz-mirrorhwb.bilivideo.com");
    reveal_strlit("hwo1");
    reveal_strlit("upos-sz-mirrorhwo1.bilivideo.com");
    reveal_strlit("08c");
    reveal_strlit("upos-sz-mirror08c.bilivideo.com");
    reveal_strlit("08h");
    reveal_strlit("upos-sz-mirror08h.bilivideo.com");
    reveal_strlit("08ct");
    reveal_strlit("upos-sz-mirror08ct.bilivideo.com");
    reveal_strlit("aliov");
    reveal_strlit("upos-sz-mirroraliov.bilivideo.com");
    reveal_strlit("cosov");
    reveal_strlit("upos-sz-mirrorcosov.bilivideo.com");
    reveal_strlit("hwov");
    reveal_strlit("upos-sz-mirrorhwov.bilivideo.com");
    assert("upos-sz-mirror"@ + "ali"@ + ".bilivideo.com"@
        =~= "upos-sz-mirrorali.bilivideo.com"@);
    assert("upos-sz-mirror"@ + "alib"@ + ".bilivideo.com"@
        =~= "upos-sz-mirroralib.bilivideo.com"@);
    assert("upos-sz-mirror"@ + "alio1"@ + ".bilivideo.com"@
        =~= "upos-sz-mirroralio1.bilivideo.com"@);
    assert("upos-sz-mirror"@ + "cos"@ + ".bilivideo.com"@
        =~= "upos-sz-mirrorcos.bilivideo.com"@);
    assert("upos-sz-mirror"@ + "cosb"@ + ".bilivideo.com"@
        =~= "upos-sz-mirrorcosb.bilivideo.com"@);
    assert("upos-sz-mirror"@ + "coso1"@ + ".bilivideo.com"@
        =~= "upos-sz-mirrorcoso1.bilivideo.com"@);
    assert("upos-sz-mirror"@ + "hw"@ + ".bilivideo.com"@
        =~= "upos-sz-mirrorhw.bilivideo.com"@);
    assert("upos-sz-mirror"@ + "hwb"@ + ".bilivideo.com"@
        =~= "upos-sz-mirrorhwb.bilivideo.com"@);
    assert("upos-sz-mirror"@ + "hwo1"@ + ".bilivideo.com"@
        =~= "upos-sz-mirrorhwo1.bilivideo.com"@);
    assert("upos-sz-mirror"@ + "08c"@ + ".bilivideo.com"@
        =~= "upos-sz-mirror08c.bilivideo.com"@);
    assert("upos-sz-mirror"@ + "08h"@ + ".bilivideo.com"@
        =~= "upos-sz-mirror08h.bilivideo.com"@);
    assert("upos-sz-mirror"@ + "08ct"@ + ".bilivideo.com"@
        =~= "upos-sz-mirror08ct.bilivideo.com"@);
    assert("upos-sz-mirror"@ + "aliov"@ + ".bilivideo.com"@
        =~= "upos-sz-mirroraliov.bilivideo.com"@);
    assert("upos-sz-mirror"@ + "cosov"@ + ".bilivideo.com"@
        =~= "upos-sz-mirrorcosov.bilivideo.com"@);
    assert("upos-sz-mirror"@ + "hwov"@ + ".bilivideo.com"@
        =~= "upos-sz-mirrorhwov.bilivideo.com"@);
}

/// The other mirrors.
pub proof fn law_hosts_of_other_mirrors()
    ensures
        mirror_host("tf_hw"@) == Some("upos-tf-all-hw.bilivideo.com"@),
        mirror_host("tf_tx"@) == Some("upos-tf-all-tx.bilivideo.com"@),
        mirror_host("akamai"@) == Some("upos-hz-mirrorakam.akamaized.net"@),
        mirror_host("hk_bcache"@) == Some("cn-hk-eq-bcache-01.bilivideo.com"@),
        mirror_host("baseurl"@) is None,
{
    reveal_strlit("ali");
    reveal_strlit("alib");
    reveal_strlit("alio1");
    reveal_strlit("cos");
    reveal_strlit("cosb");
    reveal_strlit("coso1");
    reveal_strlit("hw");
    reveal_strlit("hwb");
    reveal_strlit("hwo1");
    reveal_strlit("08c");
    reveal_strlit("08h");
    reveal_strlit("08ct");
    reveal_strlit("aliov");
    reveal_strlit("cosov");
    reveal_strlit("hwov");
    reveal_strlit("tf_hw");
    reveal_strlit("tf_tx");
    reveal_strlit("akamai");
    reveal_strlit("hk_bcache");
    reveal_strlit("baseurl");
    assert("tf_hw"@[0] == 't' && "tf_tx"@[0] == 't' && "tf_tx"@[3] == 't' && "akamai"@[1] == 'k');
    assert("hk_bcache"@.len() == 9 && "baseurl"@.len() == 7 && "akamai"@.len() == 6);
}

/// The platforms are read as the settings say.
pub proof fn law_platforms_of_settings(
    x: XProvider,
    youtube: YouTubeProvider,
    pixiv: PixivProvider,
    netease: NeteaseProvider,
    config: Config,
)
    ensures
        by_config(PlatformProvider::X(x), config) <==> x.base@ == trim_end_of(
            config.fxtwitter_api_base@,
            '/',
        ),
        by_config(PlatformProvider::YouTube(youtube), config) <==> opt_text(youtube.api_key)
            == opt_text(config.youtube_api_key),
        by_config(PlatformProvider::Pixiv(pixiv), config) <==> pixiv.base@ == trim_end_of(
            config.pixiv_web_api_base@,
            '/',
        ) && opt_text(pixiv.refresh_token) == opt_text(config.pixiv_refresh_token),
        by_config(PlatformProvider::Netease(netease), config) <==> netease.base@ == trim_end_of(
            config.netease_api_base@,
            '/',
        ),
{
}

/// The database is the file that its address names, without the parameters.
pub proof fn law_database_file(path: Seq<char>, parameters: Seq<char>)
    requires
        !path.contains('?'),
    ensures
        database_path_of("sqlite://"@ + path) == Some(path),
        database_path_of("sqlite://"@ + (path.push('?') + parameters)) == Some(path),
{
    law_parts_of_text(Seq::empty(), "sqlite://"@, path);
    law_parts_of_text(Seq::empty(), "sqlite://"@, path.push('?') + parameters);
    law_first_part(path, '?', parameters);
}

} // verus!
