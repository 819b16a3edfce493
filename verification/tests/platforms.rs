use congmiao_feedbot::json::Json;
use congmiao_feedbot::login::{LoginPoll, LoginService};
use congmiao_feedbot::provider::bilibili::cookies::{
    asks_device, cookie_has_value, merge_device, parse_cookie_pairs, render_cookie, set_pair,
};
use congmiao_feedbot::provider::bilibili::dynamic::{
    dynamic_content, normalize_asset_url, opus_projection,
};
use congmiao_feedbot::provider::bilibili::reading::{PageStep, PostStep};
use congmiao_feedbot::provider::bilibili::video::{
    choose_stream, quality_number, StreamRule, VideoQuestion,
};
use congmiao_feedbot::provider::bilibili::{
    api_headers, headers, ApiReply, BilibiliTarget, Resolved,
};
use congmiao_feedbot::provider::netease::{song_filename, NeteaseKind, NeteaseQuestion};
use congmiao_feedbot::provider::pixiv::{AppReply, AppStart, PixivGathered, PixivNext};
use congmiao_feedbot::provider::x::{has_adult_marker, select_video_format};
use congmiao_feedbot::provider::youtube::{YouTubeGathered, YouTubeNext};
use congmiao_feedbot::provider::{
    filename_from_url, get_u64, json_response, BilibiliProvider, HttpReply, NeteaseProvider,
    PixivProvider, XProvider, YouTubeProvider,
};
use congmiao_feedbot::{
    BilibiliCdnPreference, Config, ContentKind, MediaKind, ParseOptions, ParseRequest, Platform,
    Provider, ProviderError, ProviderRegistry,
};

fn config(more: &[(&str, &str)]) -> Config {
    let mut vars = vec![("TOKEN".to_string(), "t".to_string())];
    vars.extend(
        more.iter()
            .map(|(name, value)| (name.to_string(), value.to_string())),
    );
    Config::from_env(&vars).unwrap()
}

fn reply(status: u16, body: &str) -> HttpReply {
    HttpReply {
        status,
        status_text: format!("{status} Reason"),
        body: body.into(),
    }
}

fn json(body: &str) -> Json {
    json_response(&reply(200, body), "test").unwrap()
}

fn request(url: &str) -> ParseRequest {
    ParseRequest {
        url: url.into(),
        options: ParseOptions::default(),
    }
}

#[test]
fn replies_are_read_or_refused() {
    let fail = |status, body: &str| json_response(&reply(status, body), "S").unwrap_err().message();
    assert_eq!(fail(401, "{}"), "需要登录凭证: S");
    assert_eq!(fail(403, "{}"), "需要登录凭证: S");
    assert_eq!(fail(404, "{}"), "内容不存在、已删除或不可公开访问: S");
    assert_eq!(fail(429, "{}"), "上游请求受限，请稍后重试: S");
    assert_eq!(fail(502, "{}"), "上游服务错误: S: HTTP 502 Reason");
    assert!(fail(200, "{").starts_with("响应解析错误: S: EOF while parsing"));
}

#[test]
fn json_values_are_found() {
    let root = json(r#"{"a":{"b":[1,-2,"3",true,null,1.5,18446744073709551615]},"a/b":0}"#);
    assert_eq!(get_u64(&root, "/a/b/0"), Some(1));
    assert_eq!(get_u64(&root, "/a/b/1"), None);
    assert_eq!(get_u64(&root, "/a/b/2"), Some(3));
    assert_eq!(get_u64(&root, "/a/b/3"), None);
    assert_eq!(get_u64(&root, "/a/b/5"), None);
    assert_eq!(get_u64(&root, "/a/b/6"), Some(u64::MAX));
    assert_eq!(get_u64(&root, "/a/b/00"), None);
    assert!(root.pointer("/a/b/9").is_none());
    assert!(root.pointer("a").is_none());
    assert!(root.pointer("").is_some());
    assert_eq!(root.pointer("/a/b/1").unwrap().as_i64(), Some(-2));
    assert_eq!(root.pointer("/a/b/3").unwrap().as_bool(), Some(true));
    assert_eq!(root.pointer("/a/b/2").unwrap().as_str().as_deref(), Some("3"));
    assert_eq!(root.get("a").unwrap().get("b").unwrap().as_array().unwrap().len(), 7);
    assert!(matches!(root.pointer("/a/b/4"), Some(Json::Null)));
    assert!(root.take("a").unwrap().get("b").is_some());
}

#[test]
fn file_names_come_from_addresses() {
    assert_eq!(filename_from_url("https://a.com/x/y.jpg?z=1", "f"), "y.jpg");
    assert_eq!(filename_from_url("https://a.com/x/", "f"), "f");
    assert_eq!(filename_from_url("nothing", "f"), "f");
}

#[test]
fn registries_route_in_order() {
    let c = config(&[]);
    let mut registry = ProviderRegistry::default();
    assert!(!registry.supports("https://x.com/a/status/12"));
    registry.register(XProvider::new(&c));
    assert!(registry.supports("https://x.com/a/status/12"));
    assert!(!registry.supports("https://youtu.be/dQw4w9WgXcQ"));
    match registry.parse_one("https://example.com") {
        Err(error) => assert_eq!(error.message(), "不支持的链接: https://example.com"),
        Ok(_) => panic!("no provider"),
    }
    let all = registry.parse_many(&vec![request("https://x.com/a/status/12"), request("no")]);
    assert_eq!(all[0].as_ref().unwrap().platform(), Platform::X);
    assert!(all[1].is_err());
}

#[test]
fn links_on_foreign_hosts_are_not_claimed() {
    let registry = ProviderRegistry::new(&config(&[]));
    for url in [
        "https://x.com/a/status/123456789012",
        "x.com/a/status/123456789012",
        "HTTPS://X.COM/a/status/123456789012",
        "https://mobile.twitter.com/a/status/123456789012",
    ] {
        assert_eq!(registry.find(url).unwrap().platform(), Platform::X);
    }
    for url in [
        "youtu.be/dQw4w9WgXcQ",
        "https://m.youtube.com/watch?v=dQw4w9WgXcQ",
        "https://www.youtube-nocookie.com/embed/dQw4w9WgXcQ",
    ] {
        assert_eq!(registry.find(url).unwrap().platform(), Platform::YouTube);
    }
    for url in [
        "pixiv.net/artworks/1",
        "https://www.pixiv.net/en/artworks/1",
        "https://touch.pixiv.net/member_illust.php?mode=medium&illust_id=1",
    ] {
        assert_eq!(registry.find(url).unwrap().platform(), Platform::Pixiv);
    }
    for url in [
        "163cn.tv/abc",
        "https://music.163.com/#/song?id=1",
        "https://y.music.163.com/m/song?id=1",
    ] {
        assert_eq!(registry.find(url).unwrap().platform(), Platform::Netease);
    }
    for url in [
        "https://netflix.com/a/status/123456789012",
        "https://example.com/https://x.com/a/status/123456789012",
        "https://notyoutu.be/dQw4w9WgXcQ",
        "https://myyoutube.com/watch?v=dQw4w9WgXcQ",
        "https://notpixiv.net/artworks/1",
        "https://x163cn.tv/abc",
        "https://example.com/music.163.com/song?id=1",
    ] {
        assert!(!registry.supports(url), "{url}");
    }
}

#[test]
fn x_errors_and_markers() {
    let provider = XProvider::new(&config(&[("FXTWITTER_API_BASE", "https://f.test//")]));
    let url = "https://twitter.com/a/status/12";
    assert_eq!(provider.endpoint(url).unwrap(), "https://f.test/2/status/12");
    assert_eq!(
        provider.endpoint("https://x.com/a").unwrap_err().message(),
        "链接格式不正确: https://x.com/a"
    );
    let fail = |body: &str| {
        provider
            .parse(&request(url), &reply(200, body))
            .unwrap_err()
            .message()
    };
    assert_eq!(
        fail(r#"{"code":404}"#),
        "内容不存在、已删除或不可公开访问: https://twitter.com/a/status/12"
    );
    assert_eq!(fail(r#"{"code":200}"#), "响应解析错误: FxTwitter 缺少 status");
    let post = provider
        .parse(
            &request(url),
            &reply(
                200,
                r#"{"code":"200","status":{"text":"see","quote":{"text":"this #R18"},"media":{"videos":[{"type":"gif","url":"https://v.test/a.mp4","formats":[{"codec":"hevc","url":"https://v.test/h.mp4"},{"url":"https://v.test/vid/100x50/x.mp4","bitrate":5},{"url":"https://v.test/big.mp4","bitrate":3,"width":4000,"height":3000}]}]}}}"#,
            ),
        )
        .unwrap();
    assert_eq!(post.text, "see\n\n引用：this #R18");
    assert!(post.sensitive);
    assert_eq!(post.canonical_url, url);
    assert_eq!(post.media[0].kind, MediaKind::Animation);
    assert_eq!(post.media[0].source_url, "https://v.test/vid/100x50/x.mp4");
    assert_eq!((post.media[0].width, post.media[0].height), (Some(100), Some(50)));
    assert!(has_adult_marker("a，##NSFW##!"));
    assert!(has_adult_marker("18+"));
    assert!(!has_adult_marker("r180"));
    assert!(!has_adult_marker("x r 18, nsfw_"));
    assert!(has_adult_marker("x/成人向|y"));
}

#[test]
fn youtube_videos_are_described_by_what_answers() {
    let provider = YouTubeProvider::new(&config(&[("YOUTUBE_API_KEY", "k")]));
    assert_eq!(provider.api_key.as_deref(), Some("k"));
    let r = request("https://www.youtube.com/watch?a=1&v=dQw4w9WgXcQ");
    let id = provider.video(&r.url).unwrap();
    assert_eq!(
        provider.canonical(&id),
        "https://www.youtube.com/watch?v=dQw4w9WgXcQ"
    );
    assert!(provider.video("https://youtu.be/short").is_err());
    let api = provider
        .api_document(&reply(
            200,
            r#"{"items":[{"snippet":{"title":"T","channelTitle":"C","description":"D","thumbnails":{"high":{"url":"h"}}},"statistics":{"likeCount":"5","viewCount":"6"}}]}"#,
        ))
        .unwrap();
    let ytdlp = provider
        .yt_dlp_json(
            true,
            r#"{"title":"Y","channel_id":"cid","duration":9,"width":640,"height":360,"comment_count":7}"#,
            "",
        )
        .unwrap();
    let content = provider
        .parse(&r, &Some(api), &Some(ytdlp), &None)
        .unwrap();
    assert_eq!(content.title, "T");
    assert_eq!(content.author.id, "cid");
    assert_eq!(content.stats.likes, Some(5));
    assert_eq!(content.stats.replies, Some(7));
    assert_eq!(content.media[0].thumbnail_url.as_deref(), Some("h"));
    assert_eq!(content.media[0].duration_secs, Some(9));
    assert_eq!(content.media[0].cache_key, "youtube:dQw4w9WgXcQ:480p");
    let mut better = request(&r.url);
    better.options.quality = Some(720);
    assert_eq!(
        provider.parse(&better, &None, &None, &None).unwrap().media[0].cache_key,
        "youtube:dQw4w9WgXcQ:720p"
    );

    let empty = provider.api_document(&reply(200, r#"{"items":[]}"#)).unwrap();
    let mut g = YouTubeGathered {
        api: None,
        asked_tool: false,
        tool: None,
        oembed: None,
    };
    assert_eq!(provider.next(&g), YouTubeNext::Api);
    g.api = Some(empty);
    assert_eq!(provider.next(&g), YouTubeNext::Tool);
    let mut g = provider.keep_tool(g, Err(ProviderError::Media("broken".into())));
    assert_eq!(provider.next(&g), YouTubeNext::OEmbed);
    g.oembed = Some(json("{}"));
    assert_eq!(provider.next(&g), YouTubeNext::Build);
    assert!(provider.asks_oembed(&g.api, &None));
    let oembed = provider
        .oembed_document(&reply(200, r#"{"title":"O","author_name":"A","thumbnail_url":"t"}"#))
        .unwrap();
    let content = provider.parse(&r, &None, &None, &Some(oembed)).unwrap();
    assert_eq!((content.title.as_str(), content.author.name.as_str()), ("O", "A"));
    assert!(matches!(
        provider.yt_dlp_json(false, "", " broken \n"),
        Err(ProviderError::Media(message)) if message == "broken"
    ));
    assert!(provider.yt_dlp_json(true, "x", "").is_err());
}

#[test]
fn pixiv_app_is_used_where_there_is_a_login() {
    let anonymous = PixivProvider::new(&config(&[]));
    assert_eq!(anonymous.app_start(&None), AppStart::Unused);
    let provider = PixivProvider::new(&config(&[("PIXIV_REFRESH_TOKEN", "r")]));
    assert_eq!(provider.app_start(&None), AppStart::Login);
    assert_eq!(provider.app_start(&Some("t".into())), AppStart::Call);
    assert_eq!(
        provider
            .app_token(&reply(200, r#"{"response":{"access_token":"a"}}"#))
            .unwrap(),
        "a"
    );
    assert_eq!(
        provider.app_token(&reply(200, "{}")).unwrap_err().message(),
        "需要登录凭证: refresh token 无效"
    );
    assert!(matches!(
        provider.app_api_get(0, &reply(403, ""), "S"),
        AppReply::Retry
    ));
    assert!(matches!(
        provider.app_api_get(1, &reply(403, ""), "S"),
        AppReply::Failed(ProviderError::Authentication(_))
    ));
    let document = match provider.app_api_get(
        0,
        &reply(
            200,
            r#"{"illust":{"title":"T","caption":"C","user":{"id":"3","name":"N"},"meta_pages":[{"image_urls":{"original":"https://i.test/1.png","large":"https://i.test/l.png"}}],"tags":[{"name":"x"}],"x_restrict":0}}"#,
        ),
        "S",
    ) {
        AppReply::Document(document) => document,
        other => panic!("{other:?}"),
    };
    let gathered = PixivGathered {
        asked_app: true,
        from_app: true,
        body: provider.app_detail(Ok(Some(document))),
        pages: None,
        asked_app_frames: false,
        asked_web_frames: false,
        frames: None,
    };
    assert_eq!(provider.next(&gathered), PixivNext::Build);
    let r = request("https://www.pixiv.net/en/artworks/9");
    let content = provider.parse(&r, &gathered).unwrap();
    assert_eq!(provider.web_query(), [("lang".to_string(), "zh".to_string())]);
    assert_eq!(content.canonical_url, "https://www.pixiv.net/artworks/9");
    assert_eq!(content.text, "C\n#x");
    assert!(!content.sensitive);
    assert_eq!(content.media[0].filename, "1.png");
    assert_eq!(
        content.media[0].thumbnail_url.as_deref(),
        Some("https://i.test/l.png")
    );
    assert_eq!(content.media[0].headers[0].0, "Referer");
    assert!(provider
        .app_ugoira(Ok(Some(json(r#"{"ugoira_metadata":{}}"#))))
        .is_some());
    assert!(provider.app_ugoira(Ok(None)).is_none());
    let down = || Err(ProviderError::Upstream("down".into()));
    let g = provider.keep_app_detail(provider.gather(), down());
    assert_eq!(provider.next(&g), PixivNext::WebDetail);
    let g = provider
        .keep_web_detail(
            g,
            &reply(200, r#"{"body":{"illustType":2,"pageCount":2}}"#),
        )
        .unwrap();
    assert_eq!(provider.next(&g), PixivNext::Pages);
    let g = provider.keep_pages(g, &reply(200, "{}")).unwrap();
    assert_eq!(provider.next(&g), PixivNext::AppFrames);
    let g = provider.keep_app_frames(g, down());
    assert_eq!(provider.next(&g), PixivNext::WebFrames);
    assert!(provider.keep_web_frames(g, &reply(404, "")).is_err());
    let nothing = PixivGathered {
        body: Some(json("{}")),
        ..gathered
    };
    assert_eq!(
        provider.parse(&r, &nothing).unwrap_err().message(),
        "内容不存在、已删除或不可公开访问: https://www.pixiv.net/en/artworks/9"
    );
    assert!(provider.artwork("https://www.pixiv.net/users/1").is_err());
}

#[test]
fn netease_links_and_works() {
    let provider = NeteaseProvider::new(&config(&[]));
    assert_eq!(
        provider.redirect("163cn.tv/abc").as_deref(),
        Some("https://163cn.tv/abc")
    );
    let kind = |url: &str| {
        let t = provider.resolve(url, &provider.address(url)).unwrap();
        (t.kind, t.id)
    };
    assert_eq!(
        kind("https://music.163.com/#/playlist?id=5"),
        (NeteaseKind::Playlist, "5".to_string())
    );
    assert_eq!(
        kind("music.163.com/album/6"),
        (NeteaseKind::Album, "6".to_string())
    );
    assert_eq!(
        kind("https://music.163.com/mv/7?x=1"),
        (NeteaseKind::Mv, "7".to_string())
    );
    assert_eq!(
        provider
            .resolve("raw", "https://music.163.com/")
            .unwrap_err()
            .message(),
        "链接格式不正确: raw"
    );
    assert_eq!(
        provider.redirect("HTTP://163cn.tv/x").as_deref(),
        Some("https://HTTP://163cn.tv/x")
    );
    let reached = |url: &str| provider.resolve("163cn.tv/abc", url);
    assert_eq!(reached("https://y.music.163.com/m/song?id=8").unwrap().id, "8");
    for url in [
        "https://example.com/song?id=8",
        "https://notmusic.163.com/song?id=8",
        "https://example.com/?u=music.163.com/song/8",
    ] {
        assert_eq!(
            reached(url).unwrap_err().message(),
            "链接格式不正确: 163cn.tv/abc"
        );
    }
    let call = provider.call(NeteaseQuestion::MvUrl, "7", 1080, &None);
    assert_eq!(call.url, "http://127.0.0.1:3000/mv/url");
    assert_eq!(call.query[1], ("r".to_string(), "1080".to_string()));
    let r = request("https://music.163.com/mv/7");
    let work = provider.resolve(&r.url, &r.url).unwrap();
    let mv = provider
        .parse(
            &r,
            &work,
            &json(r#"{"data":{"name":"M","artistName":"A","duration":5500,"playCount":3}}"#),
            &json(r#"{"data":{"url":"https://v.test/m.mp4","size":8}}"#),
        )
        .unwrap();
    assert_eq!(mv.media[0].duration_secs, Some(5));
    assert_eq!(mv.media[0].cache_key, "netease:mv:7:480");
    assert!(provider.parse(&r, &work, &json("{}"), &json("{}")).is_err());
    let list = request("https://music.163.com/#/playlist?id=5");
    let work = provider.resolve(&list.url, &list.url).unwrap();
    let tracks: Vec<String> = (0..40)
        .map(|i| format!(r#"{{"name":"s{i}","ar":[{{"name":"x"}},{{"name":"y"}}]}}"#))
        .collect();
    let playlist = provider
        .parse(
            &list,
            &work,
            &json(&format!(
                r#"{{"playlist":{{"name":"P","coverImgUrl":"https://c.test/c.jpg","tracks":[{}]}}}}"#,
                tracks.join(",")
            )),
            &Json::Null,
        )
        .unwrap();
    assert_eq!(playlist.kind, ContentKind::Playlist);
    assert_eq!(playlist.collection_items.len(), 30);
    assert_eq!(playlist.collection_items[0], "s0 — x/ y");
    assert_eq!(playlist.media[0].cache_key, "netease:collection:5:cover");
    assert_eq!(
        provider.first_question(NeteaseKind::Song),
        NeteaseQuestion::SongDetail
    );
    let next = |kind, detail: &str| provider.next_question("u", kind, &json(detail));
    assert!(next(NeteaseKind::Song, r#"{"songs":[]}"#).is_err());
    assert_eq!(
        next(NeteaseKind::Song, r#"{"songs":[{}]}"#).unwrap(),
        Some(NeteaseQuestion::SongUrl)
    );
    assert_eq!(
        next(NeteaseKind::Mv, "{}").unwrap(),
        Some(NeteaseQuestion::MvUrl)
    );
    assert_eq!(next(NeteaseKind::Album, "{}").unwrap(), None);
    assert_eq!(song_filename(" a/b?. ", "1", "FLAC"), "a_b_.flac");
    assert_eq!(song_filename("...", "1", "exe"), "netease-1.mp3");
}

#[test]
fn bilibili_links_are_resolved() {
    let provider = BilibiliProvider::new(&config(&[]));
    let address = |raw: &str| match provider.resolve(raw) {
        Resolved::Address(url) => url,
        other => panic!("{other:?}"),
    };
    assert_eq!(address("av170001"), "https://www.bilibili.com/video/av170001");
    assert!(matches!(
        provider.resolve("b23.tv/x"),
        Resolved::Follow(url) if url == "https://b23.tv/x"
    ));
    assert!(matches!(
        provider.resolve("https://example.com"),
        Resolved::Failed(ProviderError::InvalidUrl(_))
    ));
    assert!(provider.follow("raw", "https://www.bilibili.com/video/av1").is_ok());
    assert!(provider.follow("raw", "https://evil.com/video/av1").is_err());
    assert!(provider.follow("raw", "https://b23.tv/y").is_err());
    let target = |url: &str| provider.target(&address(url)).unwrap().address();
    let opus = "https://www.bilibili.com/opus/1231302450179211264";
    assert_eq!(
        target("https://m.bilibili.com/opus/1231302450179211264?&unique_k=2333"),
        opus
    );
    assert_eq!(target("https://t.bilibili.com/1231302450179211264"), opus);
    assert_eq!(
        target("https://www.bilibili.com/dynamic/1231302450179211264"),
        opus
    );
    assert_eq!(
        target("https://live.bilibili.com/blanc/5?x=1"),
        "https://live.bilibili.com/5"
    );
    assert_eq!(
        target("https://www.bilibili.com/read/mobile?id=8"),
        "https://www.bilibili.com/read/mobile?id=8"
    );
    assert!(matches!(
        provider.target("https://www.bilibili.com/bangumi/play/ep12").unwrap(),
        BilibiliTarget::Bangumi(id) if id == "ep12"
    ));
    assert!(matches!(
        provider.target("https://www.bilibili.com/audio/au3").unwrap(),
        BilibiliTarget::Audio(_)
    ));
    assert!(matches!(
        provider.target("https://www.bilibili.com/").unwrap_err(),
        ProviderError::Unsupported(_)
    ));
    assert!(provider.can_handle("BV1xx411c7mD") && provider.can_handle("b23.tv/x"));
    assert!(!provider.can_handle("https://notbilibili.com/x"));
}

#[test]
fn bilibili_refusals_are_tried_again_once() {
    let provider = BilibiliProvider::new(&config(&[]));
    let refused = reply(200, r#"{"code":-352,"message":"-352"}"#);
    assert!(matches!(
        provider.response(&refused, false),
        ApiReply::RefreshDevice
    ));
    match provider.response(&refused, true) {
        ApiReply::Failed(error) => assert_eq!(
            error.message(),
            "上游请求受限，请稍后重试: Bilibili: -352"
        ),
        other => panic!("{other:?}"),
    }
    let failed = |body: &str| match provider.response(&reply(200, body), false) {
        ApiReply::Failed(error) => error.message(),
        other => panic!("{other:?}"),
    };
    assert_eq!(failed(r#"{"code":-101}"#), "需要登录凭证: Bilibili: 未知错误");
    assert!(failed(r#"{"code":4101139}"#).starts_with("内容不存在"));
    assert!(failed(r#"{"code":-1,"message":"m"}"#).ends_with("Bilibili: m"));
    assert_eq!(
        provider.device_endpoint(),
        "https://api.bilibili.com/x/frontend/finger/spi"
    );
    let names: Vec<_> = api_headers(&Some("c".into()))
        .into_iter()
        .map(|(name, _)| name)
        .collect();
    assert_eq!(names, ["User-Agent", "Accept", "Origin", "Referer", "Cookie"]);
    assert_eq!(headers(&None).len(), 1);
}

#[test]
fn device_cookies_keep_the_login() {
    let provider = BilibiliProvider::new(&config(&[]));
    let device = provider
        .device_document(&reply(200, r#"{"data":{"b_3":"three","b_4":"four"}}"#))
        .unwrap();
    let cookie = Some("SESSDATA=s=1; bili_jct=j;buvid3=old".to_string());
    assert!(!asks_device(&cookie, false) && asks_device(&cookie, true));
    assert!(asks_device(&None, false));
    let merged = merge_device(&cookie, &device).unwrap();
    assert_eq!(
        merged,
        "SESSDATA=s=1; bili_jct=j; buvid3=three; buvid4=four"
    );
    assert_eq!(render_cookie(&parse_cookie_pairs(&merged)), merged);
    assert!(cookie_has_value(&merged, "SESSDATA"));
    assert!(!cookie_has_value("a=;b", "a"));
    assert!(merge_device(&cookie, &json(r#"{"data":{"b_3":""}}"#)).is_none());
    let mut pairs = parse_cookie_pairs("b=2");
    set_pair(&mut pairs, "a", "1");
    set_pair(&mut pairs, "b", "3");
    assert_eq!(render_cookie(&pairs), "a=1; b=3");
}

#[test]
fn bilibili_seasons_lead_to_videos() {
    let provider = BilibiliProvider::new(&config(&[]));
    let question = provider
        .video_question("https://www.bilibili.com/bangumi/play/ep2")
        .unwrap();
    let call = provider.video_call(&question);
    assert_eq!(call.url, "https://api.bilibili.com/pgc/view/web/season");
    assert_eq!(call.query, [("ep_id".to_string(), "2".to_string())]);
    let root = json(
        r#"{"result":{"episodes":[{"id":1,"bvid":"BV1xx411c7mD"},{"id":2,"bvid":"BV1yy411c7mD"}]}}"#,
    );
    assert_eq!(
        provider.season_video("u", true, "2", &root).unwrap(),
        "https://www.bilibili.com/video/BV1yy411c7mD"
    );
    assert_eq!(
        provider.season_video("u", false, "9", &root).unwrap(),
        "https://www.bilibili.com/video/BV1xx411c7mD"
    );
    assert!(provider.season_video("u", true, "2", &json("{}")).is_err());
    assert!(matches!(
        provider.video_question("https://www.bilibili.com/video/BV1ss411c7mD").unwrap(),
        VideoQuestion::ByName(_)
    ));
    assert!(matches!(
        provider.video_question("https://www.bilibili.com/video/av7").unwrap(),
        VideoQuestion::ByNumber(number) if number == "7"
    ));
    assert!(provider.video_question("https://www.bilibili.com/").is_err());
    assert_eq!(
        provider.video_id(&None, json(r#"{"data":{}}"#)).unwrap_err().message(),
        "响应解析错误: 视频详情缺少 cid"
    );
    assert_eq!(
        [quality_number(359), quality_number(480), quality_number(720), quality_number(1080)],
        ["16", "32", "64", "80"]
    );
}

#[test]
fn bilibili_pages_are_read() {
    let provider = BilibiliProvider::new(&config(&[]));
    let id = provider.live_id("https://live.bilibili.com/blanc/5").unwrap();
    assert!(provider.live_call(&id).url.ends_with("/getInfoByRoom"));
    let live = provider.live_content(
        &id,
        &json(r#"{"data":{"room_info":{"uid":3,"title":"T","keyframe":"https://k.test/k.jpg","online":9},"anchor_info":{"base_info":{"uname":"U"}}}}"#),
        &Some("c".into()),
    );
    assert_eq!(live.kind, ContentKind::Live);
    assert_eq!(live.author.url.as_deref(), Some("https://space.bilibili.com/3"));
    assert_eq!(live.media[0].source_url, "https://k.test/k.jpg");
    assert_eq!(live.media[0].headers[0], ("Cookie".to_string(), "c".to_string()));

    let id = provider.audio_id("https://www.bilibili.com/audio/au4").unwrap();
    assert_eq!(provider.audio_call(&id).query, [("sid".to_string(), "4".to_string())]);
    assert_eq!(provider.audio_stream_call(&id).query.len(), 3);
    let audio = provider
        .audio_content(
            "u",
            &id,
            &json(r#"{"data":{"title":"S","uname":"U","duration":5}}"#),
            &json(r#"{"data":{"cdns":["https://a.test/1","https://a.test/2"]}}"#),
            &None,
        )
        .unwrap();
    assert_eq!(audio.media[0].fallback_urls, ["https://a.test/2"]);
    assert!(provider
        .audio_content("u", &id, &json("{}"), &json("{}"), &None)
        .is_err());

    let id = provider.article_id("https://www.bilibili.com/read/cv6").unwrap();
    assert!(provider.article_call(&id).url.ends_with("/x/article/viewinfo"));
    let article = provider.article_content(
        &id,
        &json(r#"{"data":{"mid":2,"title":"A","banner_url":"https://b.test/b.jpg","stats":{"view":1}}}"#),
        &None,
    );
    assert_eq!(article.canonical_url, "https://www.bilibili.com/read/cv6");
    assert_eq!(article.media[0].cache_key, "bilibili:article:6:cover");
    assert!(provider.article_id("https://www.bilibili.com/read/").is_err());
}

#[test]
fn bilibili_posts_are_read() {
    let provider = BilibiliProvider::new(&config(&[]));
    assert!(provider.dynamic_call("1").url.ends_with("/x/polymer/web-dynamic/v1/detail"));
    assert!(provider.opus_call("1").url.ends_with("/opus/detail"));
    let root = json(
        r#"{"data":{"item":{"id_str":"1","modules":{"module_author":{"mid":9,"name":"N"},"module_dynamic":{"desc":{"text":"short"},"major":{"type":"MAJOR_TYPE_OPUS","opus":{"title":"T","pics":[{"url":"//i.test/a.jpg","width":10,"height":20},{"url":"http://i.test/a.jpg"}]}}},"module_stat":{"like":{"count":3}}}}}}"#,
    );
    let item = provider.dynamic_item("u", &root).unwrap();
    assert_eq!(provider.opus_id(item, "1").as_deref(), Some("1"));
    assert!(provider.embedded_target(item).is_none());
    let plain = dynamic_content("1", item, None, None, &None);
    assert_eq!((plain.title.as_str(), plain.text.as_str()), ("T", "short"));
    assert_eq!(plain.media.len(), 1);
    assert_eq!(plain.media[0].source_url, "https://i.test/a.jpg");
    assert_eq!(plain.media[0].cache_key, "bilibili:dynamic:1:photo:0");
    assert_eq!(plain.stats.likes, Some(3));
    assert_eq!(
        plain.media[0].headers,
        [("Referer".to_string(), "https://www.bilibili.com/".to_string())]
    );

    let opus = opus_projection(&json(
        r#"{"data":{"item":{"basic":{"title":"Long"},"modules":[{"module_content":{"paragraphs":[{"text":{"nodes":[{"word":{"words":"one"}}]}},{"list":{"items":[{"nodes":[{"word":{"words":"x"}}]}]}},{"pic":{"pics":[{"url":"https://i.test/b.jpg"}]}}]}}]}}}"#,
    ))
    .unwrap();
    let full = dynamic_content("1", item, Some(opus), None, &None);
    assert_eq!((full.title.as_str(), full.text.as_str()), ("Long", "one\n\n- x"));
    assert_eq!(full.media[0].source_url, "https://i.test/b.jpg");
    assert!(opus_projection(&json(r#"{"data":{"item":{}}}"#)).is_err());
    assert!(provider.dynamic_item("u", &json(r#"{"data":{"item":null}}"#)).is_err());
}

#[test]
fn bilibili_forwards_and_cards() {
    let provider = BilibiliProvider::new(&config(&[]));
    let root = json(
        r#"{"data":{"item":{"type":"DYNAMIC_TYPE_FORWARD","modules":{"module_dynamic":{"desc":{"text":"look"}}},"orig":{"id_str":"2","modules":{"module_author":{"name":"O"},"module_dynamic":{"desc":{"text":"original"},"major":{"type":"MAJOR_TYPE_ARCHIVE","archive":{"bvid":"BV1xx411c7mD","cover":"https://c.test/c.jpg"}}}}}}}}"#,
    );
    let item = provider.dynamic_item("u", &root).unwrap();
    match provider.embedded_target(item) {
        Some(BilibiliTarget::Video(name)) => assert_eq!(name, "BV1xx411c7mD"),
        other => panic!("{other:?}"),
    }
    let content = dynamic_content("1", item, None, None, &None);
    assert_eq!(content.text, "look\n\n转发自 O：\noriginal");
    assert_eq!(content.media[0].source_url, "https://c.test/c.jpg");
    assert_eq!(content.media[0].cache_key, "bilibili:dynamic:2:photo:0");

    let live = json(
        r#"{"data":{"item":{"modules":{"module_dynamic":{"major":{"type":"MAJOR_TYPE_LIVE_RCMD","live_rcmd":{"content":"{\"room_id\":77,\"title\":\"On air\",\"cover\":\"https://c.test/l.jpg\"}"}}}}}}}"#,
    );
    let item = provider.dynamic_item("u", &live).unwrap();
    match provider.embedded_target(item) {
        Some(BilibiliTarget::Live(room)) => assert_eq!(room, "77"),
        other => panic!("{other:?}"),
    }
    assert_eq!(dynamic_content("1", item, None, None, &None).title, "On air");
    assert_eq!(normalize_asset_url("  "), None);
    assert_eq!(normalize_asset_url("ftp://x"), None);
    for address in [" //i.test/a ", "http://i.test/a", "https://i.test/a"] {
        let once = normalize_asset_url(address).unwrap();
        assert_eq!(once, "https://i.test/a");
        assert_eq!(normalize_asset_url(&once), Some(once));
    }
}

#[test]
fn streams_that_do_not_fit_are_kept_small() {
    let rule = StreamRule {
        fitting: false,
        avc: false,
        target: 480,
        max_size: 1_000,
        audio: 0,
        duration: None,
    };
    let stream = |height: u32, codec: u32| json(&format!(r#"{{"height":{height},"codecid":{codec}}}"#));
    let streams = vec![stream(720, 12), stream(1080, 7), stream(1440, 7)];
    assert_eq!(choose_stream(&streams, &rule), Some(1));
    let streams = vec![stream(1080, 12), stream(720, 12), stream(720, 13)];
    assert_eq!(choose_stream(&streams, &rule), Some(1));
    let streams = vec![stream(360, 12), stream(1080, 7)];
    assert_eq!(choose_stream(&streams, &rule), Some(0));
    assert_eq!(choose_stream(&vec![], &rule), None);

    let files = json(
        r#"{"formats":[
            {"url":"https://v.test/1920x1080/a.mp4","bitrate":900},
            {"url":"https://v.test/1280x720/b.mp4","bitrate":300},
            {"url":"https://v.test/c.mp4"}]}"#,
    );
    let chosen = |quality: u32| select_video_format(&files, quality).unwrap().url;
    assert_eq!(chosen(480), "https://v.test/1280x720/b.mp4");
    assert_eq!(chosen(1080), "https://v.test/1920x1080/a.mp4");
}

#[test]
fn mirrors_are_asked_on_the_default_port() {
    let mut provider = BilibiliProvider::new(&config(&[]));
    provider.cdn = BilibiliCdnPreference::Mirror("mirror.test");
    assert_eq!(
        provider.order_media_urls("https://a.test:8443/v.m4s?x=1".into(), &vec![]),
        (
            "https://mirror.test/v.m4s?x=1".to_string(),
            vec!["https://a.test:8443/v.m4s?x=1".to_string()]
        )
    );
}

#[test]
fn codes_to_scan_are_large_enough() {
    let service = LoginService::new(&config(&[]));
    let image = service
        .bilibili_challenge(
            r#"{"code":0,"data":{"qrcode_key":"k","url":"https://example.com/bili-login"}}"#,
        )
        .unwrap()
        .image;
    assert_eq!(image[16..20], 518_u32.to_be_bytes());
    assert_eq!(image[20..24], 518_u32.to_be_bytes());
}

#[test]
fn logins_are_read() {
    let service = LoginService::new(&config(&[]));
    let state = |body: &str| service.poll_bilibili(&vec![], body).map(|o| o.poll);
    assert_eq!(state(r#"{"code":0,"data":{"code":86101}}"#), Ok(LoginPoll::Waiting));
    assert_eq!(state(r#"{"code":0,"data":{"code":86090}}"#), Ok(LoginPoll::Scanned));
    assert_eq!(state(r#"{"code":0,"data":{"code":86038}}"#), Ok(LoginPoll::Expired));
    assert_eq!(
        state(r#"{"code":0,"data":{"code":0}}"#),
        Err("Bilibili 登录成功但响应中没有 Cookie".to_string())
    );
    assert_eq!(
        state(r#"{"code":0,"data":{"code":-5,"message":"m"}}"#),
        Err("Bilibili 扫码状态 -5: m".to_string())
    );
    assert_eq!(
        state(r#"{"code":0,"data":{}}"#),
        Err("Bilibili 扫码响应缺少状态码".to_string())
    );
    assert_eq!(
        state(r#"{"code":-1,"message":"no"}"#),
        Err("Bilibili API: no".to_string())
    );
    let state = |body: &str| service.poll_netease(body).map(|o| o.poll);
    assert_eq!(state(r#"{"code":800}"#), Ok(LoginPoll::Expired));
    assert_eq!(state(r#"{"code":801}"#), Ok(LoginPoll::Waiting));
    assert_eq!(state(r#"{"code":802}"#), Ok(LoginPoll::Scanned));
    assert_eq!(
        state(r#"{"code":803,"cookie":""}"#),
        Err("网易云扫码成功但响应中没有 Cookie".to_string())
    );
    assert_eq!(
        state(r#"{"code":500}"#),
        Err("网易云扫码状态 500: 未知错误".to_string())
    );
    assert_eq!(
        state("{}"),
        Err("网易云扫码响应缺少状态码".to_string())
    );
    assert!(service.netease_asks_again(502) && !service.netease_asks_again(500));
    assert_eq!(
        service.netease_key("{}").unwrap_err(),
        "响应缺少字段 /data/unikey"
    );
    assert!(service
        .bilibili_challenge(&format!(
            r#"{{"code":0,"data":{{"qrcode_key":"k","url":"{}"}}}}"#,
            "x".repeat(5000)
        ))
        .is_err());
}

#[test]
fn bilibili_pages_are_read_in_order() {
    let provider = BilibiliProvider::new(&config(&[]));
    let options = ParseOptions::default();
    let asked = |step: PageStep| match step {
        PageStep::Ask(state, call) => (state, call.url),
        other => panic!("{other:?}"),
    };
    let episode = BilibiliTarget::Bangumi("ep2".into());
    let (state, url) = asked(provider.start_page(&episode));
    assert!(url.ends_with("/pgc/view/web/season"));
    let season = json(r#"{"result":{"episodes":[{"id":2,"bvid":"BV1xx411c7mD"}]}}"#);
    let (state, url) = asked(provider.next_page(state, Ok(season), &options, &None));
    assert!(url.ends_with("/x/web-interface/view"));
    let view = json(r#"{"data":{"cid":5,"title":"V"}}"#);
    let (state, url) = asked(provider.next_page(state, Ok(view), &options, &None));
    assert!(url.ends_with("/x/player/playurl"));
    let play = json(r#"{"data":{"durl":[{"url":"https://v.test/1.mp4"}]}}"#);
    match provider.next_page(state, Ok(play), &options, &None) {
        PageStep::Done(content) => {
            assert_eq!(content.title, "V");
            assert_eq!(content.media[0].source_url, "https://v.test/1.mp4");
        }
        other => panic!("{other:?}"),
    }

    let (state, _) = asked(provider.start_page(&BilibiliTarget::Audio("au4".into())));
    let (state, url) = asked(provider.next_page(state, Ok(json("{}")), &options, &None));
    assert!(url.ends_with("/web/url"));
    let refused = Err(ProviderError::RateLimited("r".into()));
    assert!(matches!(
        provider.next_page(state, refused, &options, &None),
        PageStep::Failed(ProviderError::RateLimited(_))
    ));
    assert!(matches!(
        provider.start_page(&BilibiliTarget::Dynamic("1".into())),
        PageStep::Failed(ProviderError::Unsupported(_))
    ));
}

#[test]
fn bilibili_posts_are_shown_whatever_else_fails() {
    let provider = BilibiliProvider::new(&config(&[]));
    assert!(BilibiliTarget::Dynamic("1".into()).wants_device());
    assert!(!BilibiliTarget::Live("1".into()).wants_device());
    let asked = |step: PostStep| match step {
        PostStep::Ask(state, call) => (state, call.url),
        other => panic!("{other:?}"),
    };
    let start = || asked(provider.start_post("u".into(), "1".into()));
    let failed = || Err(ProviderError::Upstream("down".into()));
    assert!(matches!(
        provider.next_post(start().0, failed(), &None),
        PostStep::Failed(ProviderError::Upstream(_))
    ));
    assert!(matches!(
        provider.next_post(start().0, Ok(json("{}")), &None),
        PostStep::Failed(ProviderError::Unavailable(_))
    ));
    let post = json(
        r#"{"data":{"item":{"modules":{"module_dynamic":{"desc":{"text":"short"},"major":{"type":"MAJOR_TYPE_OPUS","opus":{"title":"T"}}}}}}}"#,
    );
    let (state, url) = asked(provider.next_post(start().0, Ok(post), &None));
    assert!(url.ends_with("/opus/detail"));
    match provider.next_post(state, failed(), &None) {
        PostStep::Done(content) => assert_eq!(content.text, "short"),
        other => panic!("{other:?}"),
    }
    let card = json(
        r#"{"data":{"item":{"modules":{"module_dynamic":{"desc":{"text":"new"},"major":{"type":"MAJOR_TYPE_ARCHIVE","archive":{"bvid":"BV1xx411c7mD","title":"A","cover":"https://c.test/c.jpg"}}}}}}}"#,
    );
    match provider.next_post(start().0, Ok(card), &None) {
        PostStep::Embed(post, BilibiliTarget::Video(name)) => {
            assert_eq!(name, "BV1xx411c7mD");
            let content = provider.finish_post(
                post,
                Err(ProviderError::Upstream("down".into())),
                &None,
            );
            assert_eq!((content.title.as_str(), content.text.as_str()), ("A", "new"));
            assert_eq!(content.media[0].source_url, "https://c.test/c.jpg");
        }
        other => panic!("{other:?}"),
    }
}
