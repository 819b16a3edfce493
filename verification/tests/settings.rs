use congmiao_feedbot::cache::{AppCache, CACHE_COLLECT_SIZE};
use congmiao_feedbot::storage::database_path;
use congmiao_feedbot::text::{
    contains, ends_with, join, lower, number_text, parse_number, replace_char, rest_after_last,
    same, split_char, split_once, starts_with, strip_prefix, trim, trim_end_char, words,
};
use congmiao_feedbot::{
    BilibiliCdnPreference, Config, MediaSpoilerMode, ParseOptions, Platform, ProviderError,
    RuntimeCredentials, DEFAULT_VIDEO_QUALITY,
};

fn vars(pairs: &[(&str, &str)]) -> Vec<(String, String)> {
    pairs
        .iter()
        .map(|(name, value)| (name.to_string(), value.to_string()))
        .collect()
}

#[test]
fn settings_have_defaults() {
    let c = Config::from_env(&vars(&[("TELEGRAM_BOT_TOKEN", "a"), ("TOKEN", "b")])).unwrap();
    assert_eq!(c.telegram_token, "a");
    assert_eq!(c.telegram_api_url, None);
    assert_eq!(c.telegram_request_timeout_secs, 600);
    assert_eq!(c.media_download_timeout_secs, 120);
    assert_eq!(c.media_download_retries, 3);
    assert_eq!(c.media_photo_source_max_size_mb, 200);
    assert_eq!(c.database_url, "sqlite://data/feedbot.db?mode=rwc");
    assert_eq!(c.fxtwitter_api_base, "https://api.fxtwitter.com");
    assert_eq!(c.pixiv_web_api_base, "https://www.pixiv.net");
    assert_eq!(c.netease_api_base, "http://127.0.0.1:3000");
    assert!(matches!(c.bilibili_cdn, BilibiliCdnPreference::BaseUrl));
    assert_eq!(c.temp_dir, "tmp");
    assert_eq!(c.upload_workers, 4);
    assert_eq!(c.max_queue_size, 200);
    assert_eq!(c.request_limit_count, 0);
    assert_eq!(c.request_limit_ttl, 86_400);
    assert!(!c.local_bot_api);
    assert_eq!(c.webhook_host, "0.0.0.0");
    assert_eq!(c.webhook_port, 8080);
    assert_eq!(c.admin_user_id, None);
    assert_eq!(c.media_spoiler_mode, MediaSpoilerMode::Auto);
}

#[test]
fn settings_are_read() {
    let c = Config::from_env(&vars(&[
        ("TOKEN", "b"),
        ("TELEGRAM_API_URL", "  "),
        ("PHIXIV_API_BASE", "https://p.test"),
        ("UPLOAD_WORKERS", "x"),
        ("MAX_QUEUE_SIZE", "7"),
        ("WEBHOOK_PORT", "65536"),
        ("LOCAL_MODE", "Yes"),
        ("ADMIN_USER_ID", "42"),
        ("MEDIA_SPOILER_MODE", " OFF "),
        ("BILIBILI_CDN", "Ali"),
        ("BILIBILI_COOKIE", "SESSDATA=1"),
    ]))
    .unwrap();
    assert_eq!(c.telegram_token, "b");
    assert_eq!(c.telegram_api_url, None);
    assert_eq!(c.pixiv_web_api_base, "https://p.test");
    assert_eq!(c.upload_workers, 4);
    assert_eq!(c.max_queue_size, 7);
    assert_eq!(c.webhook_port, 8080);
    assert!(c.local_bot_api);
    assert_eq!(c.admin_user_id, Some(42));
    assert_eq!(c.media_spoiler_mode, MediaSpoilerMode::Off);
    assert!(matches!(
        c.bilibili_cdn,
        BilibiliCdnPreference::Mirror("upos-sz-mirrorali.bilivideo.com")
    ));
    assert_eq!(c.bilibili_cookie.as_deref(), Some("SESSDATA=1"));
    assert_eq!(
        Config::from_env(&vars(&[])).unwrap_err(),
        "必须设置 TELEGRAM_BOT_TOKEN（或兼容变量 TOKEN）"
    );
}

#[test]
fn every_named_mirror_is_known() {
    for name in [
        "ali", "alib", "alio1", "cos", "cosb", "coso1", "hw", "hwb", "hwo1", "08c", "08h", "08ct",
        "tf_hw", "tf_tx", "akamai", "aliov", "cosov", "hwov", "hk_bcache",
    ] {
        assert!(matches!(
            BilibiliCdnPreference::from_name(name),
            BilibiliCdnPreference::Mirror(_)
        ));
    }
    assert!(matches!(
        BilibiliCdnPreference::from_name("backupUrl"),
        BilibiliCdnPreference::BackupUrl
    ));
    assert!(matches!(
        BilibiliCdnPreference::from_name("elsewhere"),
        BilibiliCdnPreference::BaseUrl
    ));
}

#[test]
fn cached_values_expire() {
    let mut cache = AppCache::new();
    cache.set("k", "v".into(), 100, 1_000);
    cache.set("other", "w".into(), 10_000, 1_000);
    assert_eq!(cache.get("k", 1_099).as_deref(), Some("v"));
    assert_eq!(cache.get("k", 1_100), None);
    assert_eq!(cache.get("k", 1_050), None);
    assert_eq!(cache.get("other", 1_100).as_deref(), Some("w"));
    cache.set("other", "new".into(), 10, 1_000);
    assert_eq!(cache.get("other", 1_009).as_deref(), Some("new"));
}

#[test]
fn full_caches_are_collected() {
    let mut cache = AppCache::new();
    for i in 0..CACHE_COLLECT_SIZE {
        cache.set(&format!("k{i}"), "v".into(), 10, 0);
    }
    cache.set("long", "v".into(), 1_000, 5);
    cache.set("late", "v".into(), 10, 50);
    assert_eq!(cache.get("long", 50).as_deref(), Some("v"));
    assert_eq!(cache.get("k1", 5), None);
}

#[test]
fn requests_are_counted_in_windows() {
    let mut cache = AppCache::new();
    assert!(cache.allow("a", 1, 1_000, 0));
    assert!(!cache.allow("a", 1, 1_000, 500));
    assert!(cache.allow("b", 1, 1_000, 500));
    assert!(cache.allow("a", 1, 1_000, 1_000));
    for _ in 0..10 {
        assert!(cache.allow("c", 0, 1_000, 0));
    }
}

#[test]
fn requests_are_counted_whatever_else_is_cached() {
    let mut cache = AppCache::new();
    cache.set("rate", "9".into(), 10, 0);
    assert!(cache.allow("a", 2, 1_000, 100));
    for i in 0..CACHE_COLLECT_SIZE {
        cache.set(&format!("k{i}"), "v".into(), 10, 200);
    }
    assert!(cache.allow("b", 1, 50, 300));
    assert_eq!(cache.get("k1", 300), None);
    assert!(cache.allow("a", 2, 1_000, 400));
    cache.set("rate:b", "7".into(), 10, 500);
    assert!(!cache.allow("b", 1, 50, 505));
    assert!(!cache.allow("a", 2, 1_000, 1_099));
    assert!(cache.allow("a", 2, 1_000, 1_100));
}

#[test]
fn refused_credentials_change_nothing() {
    let c = Config::from_env(&vars(&[("TOKEN", "t"), ("BILIBILI_COOKIE", "old")])).unwrap();
    let mut credentials = RuntimeCredentials::memory(&c, 3);
    assert_eq!(
        credentials.store_bilibili("new".into(), Err("disk full")),
        Err("disk full")
    );
    assert_eq!(
        credentials.store_netease("new".into(), Err("disk full")),
        Err("disk full")
    );
    assert_eq!(credentials.bilibili().as_deref(), Some("old"));
    assert_eq!(credentials.netease(), None);
    assert_eq!(credentials.revision(), 3);
    assert_eq!(
        credentials.store_bilibili("new".into(), Ok::<(), String>(())),
        Ok(())
    );
    assert_eq!(
        credentials.store_netease("other".into(), Ok::<(), String>(())),
        Ok(())
    );
    assert_eq!(credentials.bilibili().as_deref(), Some("new"));
    assert_eq!(credentials.netease().as_deref(), Some("other"));
    assert_eq!(credentials.revision(), 5);
}

#[test]
fn stored_credentials_come_first() {
    let c = Config::from_env(&vars(&[
        ("TOKEN", "t"),
        ("BILIBILI_COOKIE", "env-b"),
        ("NETEASE_COOKIE", "env-n"),
    ]))
    .unwrap();
    let mut credentials = RuntimeCredentials::load(Some("stored".into()), None, &c, u64::MAX);
    assert_eq!(credentials.bilibili().as_deref(), Some("stored"));
    assert_eq!(credentials.netease().as_deref(), Some("env-n"));
    credentials.set_bilibili("new".into());
    assert_eq!(credentials.bilibili().as_deref(), Some("new"));
    assert_eq!(credentials.netease().as_deref(), Some("env-n"));
    assert_eq!(credentials.revision(), 0);
    let memory = RuntimeCredentials::memory(&c, 3);
    assert_eq!(memory.bilibili().as_deref(), Some("env-b"));
    assert_eq!(memory.revision(), 3);
}

#[test]
fn database_files_are_found_in_urls() {
    assert_eq!(
        database_path("sqlite://data/feedbot.db?mode=rwc").as_deref(),
        Some("data/feedbot.db")
    );
    assert_eq!(database_path("sqlite::memory:"), None);
}

#[test]
fn names_and_messages() {
    let names: Vec<_> = [
        Platform::X,
        Platform::YouTube,
        Platform::Pixiv,
        Platform::Bilibili,
        Platform::Netease,
    ]
    .into_iter()
    .map(Platform::as_str)
    .collect();
    assert_eq!(names, ["x", "youtube", "pixiv", "bilibili", "netease"]);
    assert_eq!(
        ParseOptions::default().quality_or_default(),
        DEFAULT_VIDEO_QUALITY
    );
    assert_eq!(DEFAULT_VIDEO_QUALITY, 480);
    let messages: Vec<_> = [
        ProviderError::Unsupported("u".into()),
        ProviderError::InvalidUrl("u".into()),
        ProviderError::Unavailable("u".into()),
        ProviderError::Authentication("u".into()),
        ProviderError::RateLimited("u".into()),
        ProviderError::Upstream("u".into()),
        ProviderError::InvalidResponse("u".into()),
        ProviderError::Media("u".into()),
    ]
    .iter()
    .map(ProviderError::message)
    .collect();
    assert_eq!(
        messages,
        [
            "不支持的链接: u",
            "链接格式不正确: u",
            "内容不存在、已删除或不可公开访问: u",
            "需要登录凭证: u",
            "上游请求受限，请稍后重试: u",
            "上游服务错误: u",
            "响应解析错误: u",
            "媒体处理错误: u",
        ]
    );
}

#[test]
fn texts_behave_like_those_of_the_standard_library() {
    let samples = [
        "", " ", "a", "  a b  ", "a=b=c", "x/y/z", "é 中\u{3000}文", "+12", "007", "-1",
        "18446744073709551615", "18446744073709551616", "A\u{85}b\tC",
    ];
    for s in samples {
        assert_eq!(trim(s), s.trim());
        assert_eq!(lower(s), s.to_ascii_lowercase());
        assert_eq!(words(s), s.split_whitespace().collect::<Vec<_>>());
        assert_eq!(split_char(s, '/'), s.split('/').collect::<Vec<_>>());
        assert_eq!(
            split_once(s, "="),
            s.split_once('=').map(|(a, b)| (a.to_string(), b.to_string()))
        );
        assert_eq!(
            rest_after_last(s, '/'),
            s.rsplit_once('/').map(|(_, b)| b.to_string())
        );
        assert_eq!(parse_number(s, u64::MAX), s.parse::<u64>().ok());
        assert_eq!(parse_number(s, 255), s.parse::<u8>().ok().map(u64::from));
        assert_eq!(replace_char(s, 'a', "bb"), s.replace('a', "bb"));
        assert_eq!(trim_end_char(s, ' '), s.trim_end_matches(' '));
        for part in ["", "a", " ", "=b", "/"] {
            assert_eq!(contains(s, part), s.contains(part));
            assert_eq!(starts_with(s, part), s.starts_with(part));
            assert_eq!(ends_with(s, part), s.ends_with(part));
            assert_eq!(
                strip_prefix(s, part),
                s.strip_prefix(part).map(str::to_string)
            );
            assert_eq!(same(s, part), s == part);
        }
    }
    for n in [0, 9, 10, 305, u64::MAX] {
        assert_eq!(number_text(n), n.to_string());
        assert_eq!(parse_number(&number_text(n), u64::MAX), Some(n));
    }
    assert_eq!(join(&vec!["a".into(), "b".into(), "c".into()], ", "), "a, b, c");
}
