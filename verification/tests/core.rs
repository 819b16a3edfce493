use congmiao_feedbot::cache::AppCache;
use congmiao_feedbot::login::{LoginPoll, LoginService};
use congmiao_feedbot::provider::bilibili::video::VideoQuestion;
use congmiao_feedbot::provider::bilibili::{ApiReply, BilibiliTarget, Resolved};
use congmiao_feedbot::provider::netease::NeteaseQuestion;
use congmiao_feedbot::provider::pixiv::{PixivGathered, PixivNext};
use congmiao_feedbot::provider::{
    BilibiliProvider, HttpReply, NeteaseProvider, PixivProvider, XProvider,
};
use congmiao_feedbot::telegram::{caption, extract_urls, media_has_spoiler};
use congmiao_feedbot::{
    Author, BilibiliCdnPreference, Config, ContentKind, MediaKind, MediaSpoilerMode, ParseOptions,
    ParseRequest, ParsedContent, Platform, ProviderRegistry, RuntimeCredentials,
};

fn config() -> Config {
    Config {
        telegram_token: "test".into(),
        telegram_api_url: None,
        telegram_request_timeout_secs: 600,
        media_download_timeout_secs: 120,
        media_download_retries: 3,
        media_photo_source_max_size_mb: 200,
        database_url: "sqlite::memory:".into(),
        fxtwitter_api_base: "https://api.fxtwitter.com".into(),
        pixiv_web_api_base: "https://www.pixiv.net".into(),
        netease_api_base: "http://127.0.0.1:3000".into(),
        netease_cookie: None,
        youtube_api_key: None,
        youtube_cookies_file: None,
        pixiv_refresh_token: None,
        bilibili_cookie: None,
        bilibili_cdn: BilibiliCdnPreference::BaseUrl,
        bilibili_passport_base: "https://passport.bilibili.com".into(),
        bilibili_api_base: "https://api.bilibili.com".into(),
        bilibili_live_api_base: "https://api.live.bilibili.com".into(),
        bilibili_www_base: "https://www.bilibili.com".into(),
        ffmpeg_path: "ffmpeg".into(),
        ffprobe_path: "ffprobe".into(),
        yt_dlp_path: "missing-yt-dlp".into(),
        temp_dir: "tmp".into(),
        upload_workers: 1,
        max_queue_size: 10,
        request_limit_count: 0,
        request_limit_ttl: 60,
        local_bot_api: false,
        webhook_url: None,
        webhook_host: "127.0.0.1".into(),
        webhook_port: 8080,
        admin_user_id: None,
        media_spoiler_mode: MediaSpoilerMode::Auto,
    }
}

fn ok(body: &str) -> HttpReply {
    HttpReply {
        status: 200,
        status_text: "200 OK".into(),
        body: body.into(),
    }
}

#[test]
fn registry_routes_all_supported_platforms() {
    let registry = ProviderRegistry::new(&config());
    let cases = [
        ("https://x.com/user/status/1234567890123456789", Platform::X),
        ("https://youtu.be/dQw4w9WgXcQ", Platform::YouTube),
        ("https://www.pixiv.net/artworks/123456", Platform::Pixiv),
        (
            "https://www.bilibili.com/video/BV1xx411c7mD",
            Platform::Bilibili,
        ),
        ("https://music.163.com/#/song?id=123", Platform::Netease),
    ];
    for (url, platform) in cases {
        assert_eq!(registry.find(url).unwrap().platform(), platform);
    }
    assert!(registry.find("https://example.com").is_none());
}

#[test]
fn extracts_and_deduplicates_urls() {
    let text = "看看 https://x.com/a/status/123456789012 和 https://x.com/a/status/123456789012，另有 BV1xx411c7mD。";
    assert_eq!(
        extract_urls(text),
        vec!["https://x.com/a/status/123456789012", "BV1xx411c7mD"]
    );
}

#[test]
fn caption_is_escaped_and_bounded() {
    let mut content = ParsedContent {
        platform: Platform::X,
        kind: ContentKind::Post,
        id: "1".into(),
        canonical_url: "https://x.com/a/status/1?a=1&b=2".into(),
        author: Author {
            name: "<Alice>".into(),
            ..Default::default()
        },
        title: "<b>not html</b>".into(),
        text: "x".repeat(5000),
        sensitive: false,
        stats: Default::default(),
        media: vec![],
        collection_items: vec![],
    };
    let value = caption(&content, 1024);
    assert!(value.chars().count() <= 1024);
    assert!(!value.contains("<Alice>"));
    assert!(value.contains("https://x.com/a/status/1"));
    assert!(value.contains("x：&lt;b&gt;not html&lt;/b&gt;"));
    assert!(value.contains("<blockquote expandable>"));
    assert!(value.contains("作者："));

    content.text = "short description".into();
    let value = caption(&content, 1024);
    assert!(value.contains("<blockquote>short description</blockquote>"));
    assert!(!value.contains("<blockquote expandable>"));
}

#[test]
fn x_provider_deserializes_post_and_media() {
    let reply = ok(
        r#"{"code":200,"status":{"id":"123456789012","url":"https://x.com/a/status/123456789012","text":"hello","possibly_sensitive":true,"likes":7,"author":{"id":"9","name":"Alice","screen_name":"a"},"media":{"photos":[{"type":"photo","url":"https://img.test/a.jpg","width":100,"height":80}],"videos":[]}}}"#,
    );
    let mut c = config();
    c.fxtwitter_api_base = "http://127.0.0.1:4000".into();
    let provider = XProvider::new(&c);
    assert_eq!(
        provider
            .endpoint("https://x.com/a/status/123456789012")
            .unwrap(),
        "http://127.0.0.1:4000/2/status/123456789012"
    );
    let parsed = provider
        .parse(
            &ParseRequest {
                url: "https://x.com/a/status/123456789012".into(),
                options: ParseOptions::default(),
            },
            &reply,
        )
        .unwrap();
    assert_eq!(parsed.author.name, "Alice");
    assert_eq!(parsed.stats.likes, Some(7));
    assert_eq!(parsed.media.len(), 1);
    assert!(parsed.sensitive);
    assert!(media_has_spoiler(&c, &parsed));
}

#[test]
fn x_provider_selects_h264_source_at_or_below_requested_quality() {
    let reply = ok(
        r#"{
            "code": 200,
            "status": {
                "id": "123456789012",
                "url": "https://x.com/a/status/123456789012",
                "author": {"id": "9", "name": "Alice", "screen_name": "a"},
                "media": {"photos": [], "videos": [{
                    "type": "video",
                    "url": "https://video.twimg.com/vid/avc1/1920x1080/high.mp4",
                    "duration": 15,
                    "width": 1920,
                    "height": 1080,
                    "formats": [
                        {"container": "mp4", "codec": "h264", "bitrate": 832000, "url": "https://video.twimg.com/vid/avc1/640x360/low.mp4"},
                        {"container": "mp4", "codec": "h264", "bitrate": 2176000, "url": "https://video.twimg.com/vid/avc1/1280x720/medium.mp4"},
                        {"container": "mp4", "codec": "h264", "bitrate": 5000000, "url": "https://video.twimg.com/vid/avc1/1920x1080/high.mp4"},
                        {"container": "m3u8", "url": "https://video.twimg.com/video.m3u8"}
                    ]
                }]}
            }
        }"#,
    );
    let provider = XProvider::new(&config());
    let parsed = provider
        .parse(
            &ParseRequest {
                url: "https://x.com/a/status/123456789012".into(),
                options: ParseOptions::default(),
            },
            &reply,
        )
        .unwrap();
    assert!(parsed.media[0].source_url.contains("1280x720"));
    assert_eq!(parsed.media[0].width, Some(1280));
    assert_eq!(parsed.media[0].height, Some(720));
    assert_eq!(parsed.media[0].duration_secs, Some(15));
    assert_eq!(parsed.media[0].size, Some(4_080_000));
    assert!(parsed.media[0].cache_key.ends_with(":720p"));

    let parsed = provider
        .parse(
            &ParseRequest {
                url: "https://x.com/a/status/123456789012".into(),
                options: ParseOptions {
                    quality: Some(480),
                    ..Default::default()
                },
            },
            &reply,
        )
        .unwrap();
    assert!(parsed.media[0].source_url.contains("640x360"));
    assert!(parsed.media[0].cache_key.ends_with(":480p"));
}

#[test]
fn pixiv_provider_supports_multiple_pages() {
    let detail = ok(
        r##"{"error":false,"body":{"title":"work","userId":"5","userName":"Artist","pageCount":2,"xRestrict":1,"tags":{"tags":[{"name":"R-18"},{"tag":"插画"}]}}}"##,
    );
    let pages = ok(
        r#"{"error":false,"body":[{"urls":{"original":"https://i.pximg.net/1.jpg"}},{"urls":{"original":"https://i.pximg.net/2.jpg"}}]}"#,
    );
    let mut c = config();
    c.pixiv_web_api_base = "http://127.0.0.1:4000".into();
    let provider = PixivProvider::new(&c);
    let request = ParseRequest {
        url: "https://www.pixiv.net/artworks/123".into(),
        options: Default::default(),
    };
    let id = provider.artwork(&request.url).unwrap();
    assert_eq!(
        provider.web_endpoint(&id),
        "http://127.0.0.1:4000/ajax/illust/123"
    );
    assert_eq!(
        provider.pages_endpoint(&id),
        "http://127.0.0.1:4000/ajax/illust/123/pages"
    );
    assert_eq!(provider.web_query(), [("lang".to_string(), "zh".to_string())]);
    let mut gathered = PixivGathered {
        asked_app: false,
        from_app: false,
        body: None,
        pages: None,
        asked_app_frames: false,
        asked_web_frames: false,
        frames: None,
    };
    assert_eq!(provider.next(&gathered), PixivNext::AppDetail);
    gathered.asked_app = true;
    assert_eq!(provider.next(&gathered), PixivNext::WebDetail);
    gathered.body = Some(provider.web_body(&detail).unwrap());
    assert_eq!(provider.next(&gathered), PixivNext::Pages);
    gathered.pages = Some(provider.web_pages(&pages).unwrap());
    assert_eq!(provider.next(&gathered), PixivNext::Build);
    let parsed = provider.parse(&request, &gathered).unwrap();
    assert_eq!(parsed.media.len(), 2);
    assert_eq!(parsed.author.name, "Artist");
    assert!(parsed.text.contains("#R-18"));
    assert!(parsed.text.contains("#插画"));
    assert!(parsed.sensitive);
    assert!(media_has_spoiler(&c, &parsed));
}

#[test]
fn pixiv_provider_supports_anonymous_ugoira_metadata() {
    let detail = ok(
        r#"{
            "error": false,
            "body": {
                "title": "animated work",
                "userId": "5",
                "userName": "Artist",
                "illustType": 2,
                "urls": {"original": "https://i.pximg.net/frame.jpg"}
            }
        }"#,
    );
    let frames = ok(
        r#"{
            "error": false,
            "body": {
                "originalSrc": "https://i.pximg.net/frames.zip",
                "frames": [{"file": "000000.jpg", "delay": 100}]
            }
        }"#,
    );
    let provider = PixivProvider::new(&config());
    let request = ParseRequest {
        url: "https://www.pixiv.net/artworks/456".into(),
        options: Default::default(),
    };
    let id = provider.artwork(&request.url).unwrap();
    assert_eq!(
        provider.ugoira_endpoint(&id),
        "https://www.pixiv.net/ajax/illust/456/ugoira_meta"
    );
    let mut gathered = PixivGathered {
        asked_app: true,
        from_app: false,
        body: Some(provider.web_body(&detail).unwrap()),
        pages: None,
        asked_app_frames: false,
        asked_web_frames: false,
        frames: None,
    };
    assert_eq!(provider.next(&gathered), PixivNext::AppFrames);
    gathered.asked_app_frames = true;
    assert_eq!(provider.next(&gathered), PixivNext::WebFrames);
    gathered.asked_web_frames = true;
    gathered.frames = provider.web_ugoira(&frames).unwrap();
    assert_eq!(provider.next(&gathered), PixivNext::Build);
    let parsed = provider.parse(&request, &gathered).unwrap();
    assert_eq!(parsed.media.len(), 1);
    assert_eq!(parsed.media[0].kind, MediaKind::Animation);
    assert_eq!(parsed.media[0].source_url, "https://i.pximg.net/frames.zip");
    assert!(parsed.media[0]
        .secondary_url
        .as_deref()
        .unwrap()
        .starts_with("ugoira:"));
    assert_eq!(
        parsed.media[0].secondary_url.as_deref(),
        Some(r#"ugoira:[{"delay":100,"file":"000000.jpg"}]"#)
    );
}

#[test]
fn netease_provider_parses_song_through_sidecar() {
    let detail = ok(
        r#"{"songs":[{"name":"Song","dt":1000,"ar":[{"name":"Singer"}],"al":{"name":"Album","picUrl":"https://img/cover.jpg"}}]}"#,
    );
    let urls = ok(r#"{"data":[{"url":"https://audio/song.mp3","size":100}]}"#);
    let mut c = config();
    c.netease_api_base = "http://127.0.0.1:4000".into();
    let mut credentials = RuntimeCredentials::memory(&c, 1);
    credentials.set_netease("MUSIC_U=test".into());
    let provider = NeteaseProvider::new(&c);
    let request = ParseRequest {
        url: "https://music.163.com/#/song?id=123".into(),
        options: Default::default(),
    };
    assert!(provider.redirect(&request.url).is_none());
    let work = provider
        .resolve(&request.url, &provider.address(&request.url))
        .unwrap();
    let quality = request.options.quality_or_default();
    let first = provider.call(
        provider.first_question(work.kind),
        &work.id,
        quality,
        &credentials.netease(),
    );
    assert_eq!(first.url, "http://127.0.0.1:4000/song/detail");
    assert!(first
        .query
        .contains(&("cookie".to_string(), "MUSIC_U=test".to_string())));
    let second = provider.call(
        NeteaseQuestion::SongUrl,
        &work.id,
        quality,
        &credentials.netease(),
    );
    assert_eq!(second.url, "http://127.0.0.1:4000/song/url/v1");
    assert!(second
        .query
        .contains(&("cookie".to_string(), "MUSIC_U=test".to_string())));
    let detail = provider.get(&detail).unwrap();
    assert_eq!(
        provider
            .next_question(&request.url, work.kind, &detail)
            .unwrap(),
        Some(NeteaseQuestion::SongUrl)
    );
    let urls = provider.get(&urls).unwrap();
    let parsed = provider.parse(&request, &work, &detail, &urls).unwrap();
    assert_eq!(parsed.title, "Song");
    assert_eq!(parsed.author.name, "Singer");
    assert_eq!(parsed.media.len(), 1);
    assert_eq!(parsed.media[0].filename, "Song.mp3");
}

fn bilibili_video(c: &Config) -> ParsedContent {
    let view = ok(
        r#"{"code":0,"data":{"bvid":"BV1xx411c7mD","cid":42,"title":"Bili video","desc":"desc","pic":"https://img/cover.jpg","duration":12,"owner":{"mid":1,"name":"UP"},"dimension":{"width":1280,"height":720},"stat":{"view":100,"like":5}}}"#,
    );
    let play = ok(
        r#"{"code":0,"data":{"dash":{"duration":12,"video":[{"baseUrl":"https://media/hevc.m4s","width":1280,"height":720,"bandwidth":40000000,"codecid":12},{"baseUrl":"https://media/video-720.m4s","width":1280,"height":720,"bandwidth":40000000,"codecid":7},{"baseUrl":"https://media/video-480.m4s","backupUrl":["https://backup/video-480.m4s"],"width":854,"height":480,"bandwidth":1000000,"codecid":7}],"audio":[{"baseUrl":"https://media/audio.m4s","backupUrl":["https://backup/audio.m4s"],"bandwidth":128000}]}}}"#,
    );
    let provider = BilibiliProvider::new(c);
    let url = match provider.resolve("BV1xx411c7mD") {
        Resolved::Address(url) => url,
        other => panic!("{other:?}"),
    };
    let target = provider.target(&url).unwrap();
    assert!(matches!(&target, BilibiliTarget::Video(name) if name == "BV1xx411c7mD"));
    let page = target.address();
    let question = provider.video_question(&page).unwrap();
    let name = match &question {
        VideoQuestion::ByName(name) => Some(name.clone()),
        other => panic!("{other:?}"),
    };
    let call = provider.video_call(&question);
    assert_eq!(
        call.url,
        format!("{}/x/web-interface/view", c.bilibili_api_base)
    );
    let root = match provider.response(&view, false) {
        ApiReply::Document(root) => root,
        other => panic!("{other:?}"),
    };
    let options = ParseOptions::default();
    let id = provider.video_id(&name, root).unwrap();
    let call = provider.play_call(&id, &options);
    assert_eq!(
        call.url,
        format!("{}/x/player/playurl", c.bilibili_api_base)
    );
    assert!(call.query.contains(&("cid".to_string(), "42".to_string())));
    let play = match provider.response(&play, false) {
        ApiReply::Document(root) => root,
        other => panic!("{other:?}"),
    };
    provider.video_content(&id, &play, &options, &None)
}

#[test]
fn bilibili_provider_parses_video_and_dash_streams() {
    let mut c = config();
    c.bilibili_api_base = "http://127.0.0.1:4000".into();
    c.bilibili_live_api_base = "http://127.0.0.1:4000".into();
    c.bilibili_www_base = "http://127.0.0.1:4000".into();
    let parsed = bilibili_video(&c);
    assert_eq!(parsed.title, "Bili video");
    assert_eq!(parsed.author.name, "UP");
    assert_eq!(parsed.media[0].source_url, "https://media/video-480.m4s");
    assert_eq!(
        parsed.media[0].fallback_urls,
        ["https://backup/video-480.m4s"]
    );
    assert_eq!(parsed.media[0].width, Some(854));
    assert_eq!(parsed.media[0].height, Some(480));
    assert_eq!(
        parsed.media[0].secondary_url.as_deref(),
        Some("https://media/audio.m4s")
    );
    assert_eq!(
        parsed.media[0].secondary_fallback_urls,
        ["https://backup/audio.m4s"]
    );

    c.bilibili_cdn = BilibiliCdnPreference::BackupUrl;
    let backup_first = bilibili_video(&c);
    assert_eq!(
        backup_first.media[0].source_url,
        "https://backup/video-480.m4s"
    );
    assert_eq!(
        backup_first.media[0].fallback_urls,
        ["https://media/video-480.m4s"]
    );

    c.bilibili_cdn = BilibiliCdnPreference::Mirror("upos-sz-mirrorali.bilivideo.com");
    let mirrored = bilibili_video(&c);
    assert_eq!(
        mirrored.media[0].source_url,
        "https://upos-sz-mirrorali.bilivideo.com/video-480.m4s"
    );
    assert_eq!(
        mirrored.media[0].fallback_urls,
        [
            "https://media/video-480.m4s",
            "https://backup/video-480.m4s"
        ]
    );
    assert_eq!(
        mirrored.media[0].secondary_url.as_deref(),
        Some("https://upos-sz-mirrorali.bilivideo.com/audio.m4s")
    );
}

#[test]
fn sqlite_cache_and_local_rate_limit_work() {
    let mut cache = AppCache::new();
    assert!(cache.allow("u", 2, 60_000, 1_000));
    assert!(cache.allow("u", 2, 60_000, 1_001));
    assert!(!cache.allow("u", 2, 60_000, 1_002));
}

#[test]
fn qr_login_persists_bilibili_and_netease_cookies() {
    let mut c = config();
    c.bilibili_passport_base = "http://127.0.0.1:4000".into();
    c.netease_api_base = "http://127.0.0.1:4000".into();
    let mut credentials = RuntimeCredentials::load(None, None, &c, 1);
    let service = LoginService::new(&c);
    assert_eq!(
        service.bilibili_challenge_url(),
        "http://127.0.0.1:4000/x/passport-login/web/qrcode/generate"
    );
    assert_eq!(
        service.bilibili_poll_url(),
        "http://127.0.0.1:4000/x/passport-login/web/qrcode/poll"
    );

    let bili = service
        .bilibili_challenge(
            r#"{"code": 0, "data": {"qrcode_key": "bili-key", "url": "https://example.com/bili-login"}}"#,
        )
        .unwrap();
    assert_eq!(bili.key, "bili-key");
    assert!(bili.image.starts_with(&[0x89, b'P', b'N', b'G']));
    let cookies = vec![
        "SESSDATA=session; Path=/; HttpOnly".to_string(),
        "bili_jct=csrf; Path=/".to_string(),
    ];
    let outcome = service
        .poll_bilibili(
            &cookies,
            r#"{"code": 0, "data": {"code": 0, "message": ""}}"#,
        )
        .unwrap();
    assert_eq!(outcome.poll, LoginPoll::Success);
    credentials.set_bilibili(outcome.cookie.unwrap());
    assert!(credentials
        .bilibili()
        .unwrap()
        .contains("SESSDATA=session"));

    assert_eq!(
        service.netease_key_url(),
        "http://127.0.0.1:4000/login/qr/key"
    );
    let key = service
        .netease_key(r#"{"code": 200, "data": {"unikey": "netease-key"}}"#)
        .unwrap();
    let netease = service
        .netease_challenge(
            key,
            r#"{"code": 200, "data": {"qrurl": "https://example.com/netease-login"}}"#,
        )
        .unwrap();
    assert_eq!(netease.key, "netease-key");
    assert!(netease.image.starts_with(&[0x89, b'P', b'N', b'G']));
    assert_ne!(netease.image, bili.image);
    let outcome = service
        .poll_netease(r#"{"code": 803, "cookie": "MUSIC_U=music-session; __csrf=music-csrf"}"#)
        .unwrap();
    assert_eq!(outcome.poll, LoginPoll::Success);
    credentials.set_netease(outcome.cookie.unwrap());
    assert!(credentials
        .netease()
        .unwrap()
        .contains("MUSIC_U=music-session"));
    assert_ne!(credentials.revision(), 1);
}
