use congmiao_feedbot::login::LoginPoll;
use congmiao_feedbot::media::PrepareError;
use congmiao_feedbot::model::ParseOptions as Options;
use congmiao_feedbot::telegram::captions::{
    caption_plain, ellipsize, format_count, truncate_html, CAPTION_LIMIT, MESSAGE_LIMIT,
};
use congmiao_feedbot::telegram::links::{clean_links, extract_message_urls, parse_options};
use congmiao_feedbot::telegram::requests::{
    digest_key, inline_request, parse_cache_key, parse_cache_ttl, plan_message, rate_subject,
    refreshed_ttl, reports_errors, send_failure, MessagePlan, MessageText, RepliedMessage,
    SentMedia, HELP, NOT_FOUND, OVER_LIMIT,
};
use congmiao_feedbot::telegram::select::{
    action_code, action_from_code, chat_action_for_content, file_lookups, has_visual_media,
    kind_name, select_numbers, spoiler, telegram_cache_key, ChatAction,
};
use congmiao_feedbot::telegram::send::{
    after_answer, after_failure, after_second_failure, album_number, cover_steps, delivery,
    fallback, group_input, inline_answer, inline_page_error, inline_parse_error, keeps_original,
    narrow, send_plan, stored_file, video_duration, AfterFailure, CoverStep, Fallback, InlineForm,
    ItemInput, SendForm, SentFile, SentMessage,
};
use congmiao_feedbot::telegram::signin::{
    challenge_caption, challenge_failure, challenge_filename, first_poll, poll_next, sign_in,
    LoginTarget, SignIn, LOGIN_POLLS,
};
use congmiao_feedbot::telegram::{
    caption, extract_urls, media_group_sizes, media_has_spoiler, select_media_items,
    strip_url_flags, UrlFlags,
};
use congmiao_feedbot::{
    Author, Config, ContentKind, MediaItem, MediaKind, MediaSpoilerMode, ParsedContent, Platform,
    ProviderError, ProviderRegistry, Stats,
};

fn config(mode: &str) -> Config {
    Config::from_env(&vec![
        ("TOKEN".to_string(), "t".to_string()),
        ("MEDIA_SPOILER_MODE".to_string(), mode.to_string()),
    ])
    .unwrap()
}

fn registry() -> ProviderRegistry {
    ProviderRegistry::new(&config("auto"))
}

fn item(kind: MediaKind, key: &str) -> MediaItem {
    MediaItem {
        kind,
        source_url: format!("https://img.test/{key}"),
        fallback_urls: vec![],
        thumbnail_url: None,
        filename: format!("{key}.bin"),
        mime_type: None,
        duration_secs: None,
        width: None,
        height: None,
        size: None,
        headers: vec![],
        cache_key: key.into(),
        requires_download: false,
        secondary_url: None,
        secondary_fallback_urls: vec![],
    }
}

fn photo(key: &str) -> MediaItem {
    MediaItem {
        width: Some(100),
        height: Some(100),
        ..item(MediaKind::Photo, key)
    }
}

fn content(media: Vec<MediaItem>) -> ParsedContent {
    ParsedContent {
        platform: Platform::Pixiv,
        kind: ContentKind::Artwork,
        id: "7".into(),
        canonical_url: "https://www.pixiv.net/artworks/7".into(),
        author: Author {
            name: "Artist".into(),
            ..Default::default()
        },
        title: "Work".into(),
        text: "about".into(),
        sensitive: false,
        stats: Stats::default(),
        media,
        collection_items: vec![],
    }
}

fn message(text: &str) -> MessageText {
    MessageText {
        text: text.into(),
        hidden: vec![],
    }
}

fn parsed(plan: MessagePlan) -> Vec<congmiao_feedbot::ParseRequest> {
    match plan {
        MessagePlan::Parse(requests) => requests,
        other => panic!("{other:?}"),
    }
}

#[test]
fn captions_hold_all_lines() {
    let mut c = content(vec![]);
    c.author.url = Some("https://www.pixiv.net/users/5?a=\"1\"".into());
    c.stats.views = Some(1_234_567);
    c.stats.likes = Some(89);
    assert_eq!(
        caption(&c, CAPTION_LIMIT),
        "<a href=\"https://www.pixiv.net/artworks/7\">pixiv：Work</a>\n<blockquote>about</blockquote>\n作者：<a href=\"https://www.pixiv.net/users/5?a=&quot;1&quot;\">Artist</a>\n<blockquote>浏览 1,234,567　点赞 89</blockquote>"
    );
    c.platform = Platform::Bilibili;
    c.title = String::new();
    c.author = Author::default();
    c.text = "a < b".into();
    assert_eq!(
        caption(&c, CAPTION_LIMIT),
        "<a href=\"https://www.pixiv.net/artworks/7\">bilibili</a>\n<blockquote>a &lt; b</blockquote>\n<blockquote>播放 1,234,567　点赞 89</blockquote>"
    );
}

#[test]
fn captions_list_at_most_thirty_entries() {
    let mut c = content(vec![]);
    c.text = String::new();
    c.collection_items = (1..=40).map(|i| format!("track {i}")).collect();
    let text = caption(&c, MESSAGE_LIMIT);
    assert!(text.contains("1. track 1\n2. track 2"));
    assert!(text.contains("30. track 30"));
    assert!(!text.contains("31. track 31"));
}

#[test]
fn captions_never_exceed_their_limit() {
    let mut c = content(vec![]);
    c.text = "<&>\"".repeat(3000);
    c.author.name = "<".repeat(500);
    c.title = "&".repeat(2000);
    for max in [0, 1, 10, 60, 300, CAPTION_LIMIT, MESSAGE_LIMIT] {
        assert!(caption(&c, max).chars().count() <= max);
    }
    let text = caption(&c, MESSAGE_LIMIT);
    assert!(text.contains("作者："));
    assert!(!text.contains("<&"));
}

#[test]
fn long_summaries_are_cut_at_white_space() {
    let mut c = content(vec![]);
    c.text = "word ".repeat(1000);
    let text = caption(&c, CAPTION_LIMIT);
    assert!(text.contains("<blockquote expandable>word word"));
    assert!(text.contains("word…</blockquote>"));
    assert!(text.contains("作者：Artist"));
}

#[test]
fn small_pieces_of_captions() {
    assert_eq!(ellipsize("abcdef", 4), "abc…");
    assert_eq!(ellipsize("abcd", 4), "abcd");
    assert_eq!(format_count(0), "0");
    assert_eq!(format_count(1000), "1,000");
    assert_eq!(format_count(18446744073709551615), "18,446,744,073,709,551,615");
    assert_eq!(truncate_html("<b>x</b>", 100), "<b>x</b>");
    let long = format!(
        "<a href=\"https://e.com\">e</a>\n<blockquote>{}</blockquote>",
        "a&amp;b".repeat(50)
    );
    let short = truncate_html(&long, 60);
    assert_eq!(short.chars().count(), 60);
    assert!(short.starts_with("<a href=\"https://e.com\">e</a>\n\na&amp;ba&amp;b"));
    assert!(short.ends_with("…"));
    assert_eq!(
        caption_plain("", "a<b", 100),
        "a&lt;b…"
    );
}

#[test]
fn links_in_captions_are_kept_whole_or_left_out() {
    let link = "<a href=\"u\">t</a>";
    let text = format!("{link}\n<b>{}</b>", "x&lt;".repeat(20));
    assert_eq!(link.chars().count(), 17);
    assert_eq!(truncate_html(&text, 3), "");
    assert_eq!(truncate_html(&text, 16), "");
    assert_eq!(truncate_html(&text, 17), link);
    assert_eq!(truncate_html(&text, 20), link);
    assert_eq!(truncate_html(&text, 21), format!("{link}\n\nx…"));
    assert_eq!(truncate_html(&text, 24), format!("{link}\n\nx…"));
    assert_eq!(truncate_html(&text, 25), format!("{link}\n\nx&lt;…"));
    assert_eq!(truncate_html("<b>xyz</b>", 1), "");
    assert_eq!(truncate_html("<b>xyz</b>", 3), "xy…");
    assert_eq!(caption_plain(link, "x", 3), "");
}

#[test]
fn stripped_links_begin_the_links_they_come_from() {
    for url in [
        "https://x.com/a/status/12+p3+sp",
        "https://x.com/a/status/12+SP+P2",
        "https://x.com/a/status/12+p0",
        "https://x.com/a/status/12+p4294967296",
        "https://x.com/a/status/12",
        "+sp",
    ] {
        let (clean, flags) = strip_url_flags(url);
        assert!(url.starts_with(&clean));
        assert_eq!(flags == UrlFlags::default(), clean == url);
        assert_eq!(
            strip_url_flags(&clean),
            (clean.clone(), UrlFlags::default())
        );
    }
}

#[test]
fn links_are_found_and_cleaned() {
    assert_eq!(
        extract_urls("(https://x.com/a/status/12). av12 AV1 av170001?p=2，"),
        vec!["https://x.com/a/status/12", "av12", "av170001?p=2"]
    );
    assert!(extract_urls("no links").is_empty());
    assert_eq!(
        extract_message_urls(
            "https://a.com/1",
            &vec!["https://b.com/2".to_string(), "https://a.com/1".to_string()]
        ),
        vec!["https://a.com/1", "https://b.com/2"]
    );
    assert_eq!(
        clean_links(&vec!["u)]}".to_string(), "u".to_string()]),
        vec!["u"]
    );
}

#[test]
fn marks_behind_links_are_taken_off() {
    let strip = |url: &str| strip_url_flags(url);
    assert_eq!(
        strip("https://www.pixiv.net/artworks/123456+p2+sp"),
        (
            "https://www.pixiv.net/artworks/123456".to_string(),
            UrlFlags {
                force_spoiler: true,
                page: Some(2)
            }
        )
    );
    assert_eq!(
        strip(" u+SP+P03 "),
        (
            "u".to_string(),
            UrlFlags {
                force_spoiler: true,
                page: Some(3)
            }
        )
    );
    assert_eq!(strip("u+p0"), ("u+p0".to_string(), UrlFlags::default()));
    assert_eq!(
        strip("u+p99999999999"),
        ("u+p99999999999".to_string(), UrlFlags::default())
    );
}

#[test]
fn options_are_read_from_words() {
    let options = parse_options("/video 720p https://x.com/a/status/480 +p3");
    assert_eq!(options.quality, Some(720));
    assert_eq!(options.page, Some(3));
    assert!(!options.force_spoiler && !options.file_mode && !options.cover_only);
    assert_eq!(parse_options("https://x.com/480p").quality, None);
    assert!(parse_options("/file x").file_mode);
    assert!(parse_options("/COVER x").cover_only);
    for text in ["link +sp", "/spoiler", "/mask x", "https://x.com/a+sp"] {
        assert!(parse_options(text).force_spoiler);
    }
    assert_eq!(parse_options("+p0 +px +p").page, None);
}

#[test]
fn messages_are_planned() {
    let r = registry();
    let plan = |text: &str, private| plan_message(&r, &message(text), &None, private);
    assert!(matches!(plan("/start", false), MessagePlan::Help));
    assert!(matches!(plan("/help", true), MessagePlan::Help));
    assert!(matches!(plan("/login netease", true), MessagePlan::Login));
    assert!(matches!(plan("/parse", true), MessagePlan::NotFound));
    assert!(matches!(plan("/parse", false), MessagePlan::Ignore));
    assert!(matches!(plan("hello", true), MessagePlan::Ignore));
    assert!(matches!(
        plan("https://example.com/x", true),
        MessagePlan::Ignore
    ));
    let requests = parsed(plan(
        "/file https://www.pixiv.net/artworks/1+p2 https://youtu.be/dQw4w9WgXcQ+sp https://example.com",
        false,
    ));
    assert_eq!(requests.len(), 2);
    assert_eq!(requests[0].url, "https://www.pixiv.net/artworks/1");
    assert_eq!(requests[0].options.page, Some(2));
    assert!(requests[0].options.file_mode && !requests[0].options.force_spoiler);
    assert_eq!(requests[1].url, "https://youtu.be/dQw4w9WgXcQ");
    assert!(requests[1].options.force_spoiler);
    assert!(HELP.contains("/login [bili|netease]"));
    assert_eq!(NOT_FOUND, "未找到支持的链接");
    assert_eq!(OVER_LIMIT, "请求次数已达到上限，请稍后再试");
}

#[test]
fn replies_take_the_links_of_the_answered_message() {
    let r = registry();
    let replied = || {
        Some(RepliedMessage {
            message: MessageText {
                text: "look".into(),
                hidden: vec!["https://www.pixiv.net/artworks/9".into()],
            },
            media: Some(SentMedia {
                url: "https://www.pixiv.net/artworks/9".into(),
                cache_key: "pixiv:9:p1".into(),
            }),
        })
    };
    for text in ["+p3", "+sp", "/video 720p"] {
        let requests = parsed(plan_message(&r, &message(text), &replied(), false));
        assert_eq!(requests[0].url, "https://www.pixiv.net/artworks/9");
        assert_eq!(requests[0].options.media_cache_key, None);
    }
    assert!(matches!(
        plan_message(&r, &message("nice"), &replied(), true),
        MessagePlan::Ignore
    ));
    let requests = parsed(plan_message(&r, &message("/file"), &replied(), false));
    assert_eq!(requests.len(), 1);
    assert!(requests[0].options.file_mode);
    assert_eq!(
        requests[0].options.media_cache_key.as_deref(),
        Some("pixiv:9:p1")
    );
    let own = parsed(plan_message(
        &r,
        &message("/file https://www.pixiv.net/artworks/1"),
        &replied(),
        false,
    ));
    assert_eq!(own[0].url, "https://www.pixiv.net/artworks/1");
    assert_eq!(own[0].options.media_cache_key, None);
}

#[test]
fn inline_queries_take_the_first_supported_link() {
    let r = registry();
    let request = inline_request(&r, "https://example.com BV1xx411c7mD https://youtu.be/dQw4w9WgXcQ")
        .unwrap();
    assert_eq!(request.url, "BV1xx411c7mD");
    let request = inline_request(&r, "https://www.pixiv.net/artworks/1+p2+sp").unwrap();
    assert_eq!(request.options.page, Some(2));
    assert!(request.options.force_spoiler);
    assert!(inline_request(&r, "nothing").is_none());
}

#[test]
fn answers_are_kept_under_a_digest() {
    let key = |options: &Options, revision| parse_cache_key("u", options, revision);
    let plain = Options::default();
    // The SHA-256 digest of `u:None:false:false:5`.
    assert_eq!(
        key(&plain, 5),
        "parsed:e7ae18deb59df206e1a6b2fa3681b7d816b36586e784dfc9bb25224d646c06fa"
    );
    let paged = Options {
        page: Some(2),
        force_spoiler: true,
        ..Default::default()
    };
    assert_eq!(key(&plain, 5), key(&paged, 5));
    let better = Options {
        quality: Some(720),
        ..Default::default()
    };
    assert_ne!(key(&plain, 5), key(&better, 5));
    assert_ne!(key(&plain, 5), key(&plain, 6));
    assert_eq!(digest_key(&vec![0, 255, 16]), "parsed:00ff10");
    assert_eq!(rate_subject(Some(12), -5), "12");
    assert_eq!(rate_subject(None, -5), "-5");
    assert_eq!(rate_subject(None, i64::MIN), "-9223372036854775808");
    assert!(reports_errors(true, "x") && reports_errors(false, "/x"));
    assert!(!reports_errors(false, "x"));
    assert_eq!(send_failure("e"), "媒体发送失败：e");
}

#[test]
fn answers_expire_sooner_with_signed_addresses() {
    let mut c = content(vec![photo("a")]);
    assert_eq!(parse_cache_ttl(&c), 3600);
    assert_eq!(refreshed_ttl(&c), 600);
    c.media[0].requires_download = true;
    assert_eq!(parse_cache_ttl(&c), 600);
    c.kind = ContentKind::Live;
    assert_eq!(parse_cache_ttl(&c), 300);
    assert_eq!(refreshed_ttl(&c), 300);
}

#[test]
fn media_are_selected() {
    let c = content(vec![
        item(MediaKind::Video, "v"),
        photo("p0"),
        photo("p1"),
    ]);
    let keys = |options: &Options| -> Result<Vec<String>, String> {
        select_media_items(&c, options)
            .map(|items| items.iter().map(|item| item.cache_key.clone()).collect())
    };
    assert_eq!(keys(&Options::default()).unwrap(), ["v", "p0", "p1"]);
    let page = |page| Options {
        page: Some(page),
        ..Default::default()
    };
    assert_eq!(keys(&page(2)).unwrap(), ["p1"]);
    assert_eq!(
        keys(&page(3)).unwrap_err(),
        "指定页码 3 超出范围（共 2 页）"
    );
    assert_eq!(
        keys(&page(0)).unwrap_err(),
        "指定页码 0 超出范围（共 2 页）"
    );
    let cover = Options {
        cover_only: true,
        ..Default::default()
    };
    assert_eq!(keys(&cover).unwrap(), ["p0"]);
    let reply = |key: &str| Options {
        media_cache_key: Some(key.into()),
        ..Default::default()
    };
    assert_eq!(keys(&reply("p1")).unwrap(), ["p1"]);
    assert_eq!(
        keys(&reply("gone")).unwrap_err(),
        "未找到被回复消息对应的原媒体"
    );
    assert_eq!(
        select_numbers(&content(vec![photo("only")]), &page(5)).unwrap(),
        [0]
    );
    assert_eq!(
        select_numbers(&content(vec![]), &page(1)).unwrap_err(),
        "当前内容没有可按页选择的媒体"
    );
    let videos = content(vec![item(MediaKind::Video, "a"), item(MediaKind::Video, "b")]);
    assert_eq!(select_numbers(&videos, &page(2)).unwrap(), [1]);
}

#[test]
fn groups_are_even_and_never_single() {
    assert!(media_group_sizes(0).is_empty());
    assert_eq!(media_group_sizes(1), [1]);
    assert_eq!(media_group_sizes(10), [10]);
    assert_eq!(media_group_sizes(11), [6, 5]);
    assert_eq!(media_group_sizes(21), [7, 7, 7]);
    for total in 2..200 {
        let sizes = media_group_sizes(total);
        assert_eq!(sizes.iter().sum::<usize>(), total);
        assert!(sizes.iter().all(|size| (2..=10).contains(size)));
    }
}

#[test]
fn sensitive_media_are_covered() {
    let mut c = content(vec![photo("p")]);
    assert!(!media_has_spoiler(&config("auto"), &c));
    c.sensitive = true;
    assert!(media_has_spoiler(&config("auto"), &c));
    assert!(!media_has_spoiler(&config("off"), &c));
    c.platform = Platform::Bilibili;
    assert!(!media_has_spoiler(&config("auto"), &c));
    assert!(media_has_spoiler(&config("always"), &c));
    let forced = Options {
        force_spoiler: true,
        ..Default::default()
    };
    assert!(spoiler(&config("off"), &c, &forced));
    let song = content(vec![item(MediaKind::Audio, "a")]);
    assert!(!has_visual_media(&song));
    assert!(!spoiler(&config("always"), &song, &forced));
    assert_eq!(config("on").media_spoiler_mode, MediaSpoilerMode::Always);
}

#[test]
fn stored_files_are_looked_for_in_order() {
    let names = |item: &MediaItem, file_mode, covered| -> Vec<(String, &'static str)> {
        file_lookups(item, file_mode, covered)
            .into_iter()
            .map(|lookup| (lookup.key, kind_name(lookup.kind)))
            .collect()
    };
    let p = photo("k");
    assert_eq!(
        names(&p, false, false),
        [
            ("k".to_string(), "photo"),
            ("k:telegram-photo-preview-v1".to_string(), "photo"),
            ("k".to_string(), "document")
        ]
    );
    assert_eq!(names(&p, true, false), [("k".to_string(), "document")]);
    assert_eq!(
        names(&p, true, true),
        [
            ("k".to_string(), "photo"),
            ("k:telegram-photo-preview-v1".to_string(), "photo")
        ]
    );
    let v = item(MediaKind::Video, "k");
    assert_eq!(
        names(&v, false, false),
        [("k:telegram-video-v2".to_string(), "video")]
    );
    assert_eq!(telegram_cache_key(&p), "k");
    assert_eq!(kind_name(MediaKind::Animation), "animation");
    assert_eq!(kind_name(MediaKind::Audio), "audio");
}

#[test]
fn chats_show_what_is_sent() {
    for action in [
        ChatAction::Typing,
        ChatAction::UploadPhoto,
        ChatAction::UploadVideo,
        ChatAction::UploadDocument,
        ChatAction::UploadVoice,
    ] {
        assert_eq!(action_from_code(action_code(action)), action);
    }
    assert_eq!(action_from_code(9), ChatAction::Typing);
    assert_eq!(
        chat_action_for_content(&content(vec![])),
        ChatAction::Typing
    );
    assert_eq!(
        chat_action_for_content(&content(vec![item(MediaKind::Animation, "a")])),
        ChatAction::UploadVideo
    );
    assert_eq!(
        chat_action_for_content(&content(vec![item(MediaKind::Audio, "a")])),
        ChatAction::UploadVoice
    );
}

#[test]
fn albums_carry_the_caption_once_in_the_last_group() {
    let c = content((0..11).map(|i| photo(&format!("p{i}"))).collect());
    let plan = send_plan(&config("auto"), &c, &Options::default()).unwrap();
    assert!(!plan.covered);
    assert_eq!(plan.caption, caption(&c, CAPTION_LIMIT));
    let groups = match plan.form {
        SendForm::Album(groups) => groups,
        other => panic!("{other:?}"),
    };
    assert_eq!(groups.len(), 2);
    let numbers: Vec<_> = groups.iter().flatten().map(|item| item.number).collect();
    assert_eq!(numbers, (0..11).collect::<Vec<_>>());
    let captioned: Vec<_> = groups
        .iter()
        .flatten()
        .filter(|item| item.captioned)
        .map(|item| item.number)
        .collect();
    assert_eq!(captioned, [6]);
}

#[test]
fn other_media_are_sent_one_by_one() {
    let options = Options::default();
    let singles = |c: &ParsedContent, options: &Options| match send_plan(&config("auto"), c, options)
        .unwrap()
        .form
    {
        SendForm::Singles(items) => items
            .iter()
            .map(|item| (item.number, item.captioned))
            .collect::<Vec<_>>(),
        other => panic!("{other:?}"),
    };
    let unknown = content(vec![photo("a"), item(MediaKind::Photo, "b")]);
    assert_eq!(singles(&unknown, &options), [(0, true), (1, false)]);
    let files = Options {
        file_mode: true,
        ..Default::default()
    };
    let photos = content(vec![photo("a"), photo("b")]);
    assert_eq!(singles(&photos, &files), [(0, true), (1, false)]);
    let page = Options {
        page: Some(2),
        ..Default::default()
    };
    assert_eq!(singles(&photos, &page), [(1, true)]);
}

#[test]
fn content_without_media_is_sent_as_text() {
    let c = content(vec![]);
    match send_plan(&config("auto"), &c, &Options::default())
        .unwrap()
        .form
    {
        SendForm::Text(text) => assert_eq!(text, caption(&c, MESSAGE_LIMIT)),
        other => panic!("{other:?}"),
    }
    let cover = Options {
        cover_only: true,
        ..Default::default()
    };
    let mut video = item(MediaKind::Video, "v");
    let c = content(vec![item(MediaKind::Audio, "a"), video.clone()]);
    assert!(matches!(
        send_plan(&config("auto"), &c, &cover).unwrap().form,
        SendForm::Text(_)
    ));
    video.thumbnail_url = Some("https://img.test/t.jpg".into());
    let c = content(vec![item(MediaKind::Audio, "a"), video]);
    match send_plan(&config("auto"), &c, &cover).unwrap().form {
        SendForm::Cover(url) => assert_eq!(url, "https://img.test/t.jpg"),
        other => panic!("{other:?}"),
    }
    let page = Options {
        page: Some(9),
        ..Default::default()
    };
    assert_eq!(
        send_plan(&config("auto"), &c, &page).unwrap_err(),
        "指定页码 9 超出范围（共 2 页）"
    );
}

#[test]
fn group_media_come_from_the_cheapest_source() {
    let mut p = photo("k");
    assert!(matches!(
        group_input(&p, Some((MediaKind::Photo, "id".into()))),
        ItemInput::Stored(id) if id == "id"
    ));
    assert!(matches!(
        group_input(&p, Some((MediaKind::Document, "id".into()))),
        ItemInput::Address(url) if url == "https://img.test/k"
    ));
    p.headers = vec![("Referer".into(), "x".into())];
    assert!(matches!(group_input(&p, None), ItemInput::Prepared));
    p.headers = vec![];
    p.requires_download = true;
    assert!(matches!(group_input(&p, None), ItemInput::Prepared));
}

#[test]
fn covered_media_stay_visual() {
    assert_eq!(delivery(MediaKind::Photo, true, false), MediaKind::Document);
    assert_eq!(delivery(MediaKind::Photo, true, true), MediaKind::Photo);
    assert_eq!(delivery(MediaKind::Video, false, false), MediaKind::Video);
    assert!(keeps_original(true, false) && !keeps_original(true, true));
}

#[test]
fn thumbnails_and_fallbacks() {
    let mut v = item(MediaKind::Video, "v");
    assert!(matches!(cover_steps(&v, true)[..], [CoverStep::Frame]));
    v.thumbnail_url = Some("t".into());
    assert!(matches!(
        &cover_steps(&v, true)[..],
        [CoverStep::Frame, CoverStep::Remote(url)] if url == "t"
    ));
    assert!(cover_steps(&v, false).is_empty());
    assert!(matches!(fallback(&v, true), Fallback::Cover(url) if url == "t"));
    assert!(matches!(fallback(&v, false), Fallback::Skip));
    let mut a = item(MediaKind::Audio, "a");
    assert!(cover_steps(&a, false).is_empty());
    assert!(matches!(fallback(&a, true), Fallback::Text));
    a.thumbnail_url = Some("t".into());
    assert!(matches!(
        &cover_steps(&a, false)[..],
        [CoverStep::Remote(url)] if url == "t"
    ));
    assert_eq!(album_number(Some(65_535)), Some(65_535));
    assert_eq!(album_number(Some(65_536)), None);
    assert_eq!(video_duration(u64::MAX), u32::MAX);
    assert_eq!(video_duration(7), 7);
}

#[test]
fn failed_media_are_asked_for_once_more() {
    let large = PrepareError::TooLarge { max_size: 1 };
    assert!(matches!(after_failure(large), AfterFailure::GiveUp(_)));
    let initial = match after_failure(PrepareError::Failed("HTTP 403".into())) {
        AfterFailure::AskAgain(initial) => initial,
        other => panic!("{other:?}"),
    };
    let p = photo("k");
    let fresh = content(vec![photo("x"), photo("k")]);
    assert_eq!(after_answer(Ok(&fresh), &p, &initial), Ok(1));
    let mut renamed = photo("other");
    renamed.filename = "k.bin".into();
    let fresh = content(vec![item(MediaKind::Video, "v"), renamed]);
    assert_eq!(after_answer(Ok(&fresh), &p, &initial), Ok(1));
    assert_eq!(
        after_answer(Ok(&content(vec![])), &p, &initial),
        Err("重新解析后未找到对应媒体；初始错误: HTTP 403".to_string())
    );
    let error = ProviderError::RateLimited("Bilibili".into());
    assert_eq!(
        after_answer(Err(&error), &p, &initial),
        Err(
            "重新解析媒体地址失败: 上游请求受限，请稍后重试: Bilibili; 初始错误: HTTP 403"
                .to_string()
        )
    );
    assert_eq!(
        after_second_failure(&PrepareError::Failed("HTTP 404".into()), &initial),
        "刷新地址后媒体准备仍失败: HTTP 404; 初始错误: HTTP 403"
    );
}

#[test]
fn sent_files_are_stored_as_what_they_became() {
    let file = |id: &str| SentFile {
        id: id.into(),
        unique_id: format!("u-{id}"),
    };
    let none = || SentMessage {
        photos: vec![],
        video: None,
        audio: None,
        animation: None,
        document: None,
    };
    assert!(stored_file(none()).is_none());
    let (kind, found) = stored_file(SentMessage {
        photos: vec![file("small"), file("large")],
        document: Some(file("d")),
        ..none()
    })
    .unwrap();
    assert_eq!((kind, found.id.as_str()), (MediaKind::Photo, "large"));
    let (kind, found) = stored_file(SentMessage {
        animation: Some(file("a")),
        document: Some(file("d")),
        ..none()
    })
    .unwrap();
    assert_eq!(
        (kind, found.unique_id.as_str()),
        (MediaKind::Animation, "u-a")
    );
    let (kind, _) = stored_file(SentMessage {
        document: Some(file("d")),
        ..none()
    })
    .unwrap();
    assert_eq!(kind, MediaKind::Document);
}

#[test]
fn inline_answers() {
    let mut c = content(vec![photo("k")]);
    let answer = inline_answer(&c, false, None);
    assert_eq!(answer.title, "Work");
    assert_eq!(answer.text, caption(&c, CAPTION_LIMIT));
    assert!(matches!(
        answer.form,
        InlineForm::Photo(url, thumb) if url == "https://img.test/k" && thumb == "https://img.test/k"
    ));
    assert!(matches!(
        inline_answer(&c, false, Some((MediaKind::Photo, "id".into()))).form,
        InlineForm::StoredPhoto(id) if id == "id"
    ));
    assert!(matches!(
        inline_answer(&c, false, Some((MediaKind::Animation, "id".into()))).form,
        InlineForm::StoredVideo(_)
    ));
    assert!(matches!(
        inline_answer(&c, false, Some((MediaKind::Document, "id".into()))).form,
        InlineForm::Article
    ));
    let covered = inline_answer(&c, true, Some((MediaKind::Photo, "id".into())));
    assert!(matches!(covered.form, InlineForm::Article));
    assert_eq!(covered.text, caption(&c, MESSAGE_LIMIT));
    c.title = String::new();
    c.media[0].source_url = "not a url".into();
    let answer = inline_answer(&c, false, None);
    assert_eq!(answer.title, "pixiv · Artist");
    assert!(matches!(answer.form, InlineForm::Article));
    let mut video = item(MediaKind::Video, "v");
    assert!(matches!(
        inline_answer(&content(vec![video.clone()]), false, None).form,
        InlineForm::Article
    ));
    video.thumbnail_url = Some("https://img.test/t.jpg".into());
    assert!(matches!(
        inline_answer(&content(vec![video]), false, None).form,
        InlineForm::Video(_, thumb) if thumb == "https://img.test/t.jpg"
    ));
    let failed = inline_parse_error(&ProviderError::Unavailable("u".into()));
    assert_eq!((failed.id.as_str(), failed.title.as_str()), ("error", "解析失败"));
    assert_eq!(failed.text, "内容不存在、已删除或不可公开访问: u");
    let failed = inline_page_error("m".into());
    assert_eq!((failed.title.as_str(), failed.text.as_str()), ("页码无效", "m"));
    assert!(!failed.html);
}

#[test]
fn inline_pages_narrow_the_content() {
    let c = content(vec![photo("a"), photo("b")]);
    assert_eq!(narrow(c.clone(), Some(2)).unwrap().media[0].cache_key, "b");
    assert_eq!(narrow(c.clone(), None).unwrap().media.len(), 2);
    assert!(narrow(c, Some(3)).is_err());
}

#[test]
fn only_the_administrator_signs_in() {
    let refused = |user, private, admin, text: &str| match sign_in(user, private, admin, text) {
        SignIn::Refuse(message) => message,
        other => panic!("{other:?}"),
    };
    assert!(matches!(
        sign_in(None, true, Some(1), "/login"),
        SignIn::Ignore
    ));
    assert_eq!(
        refused(Some(1), false, Some(1), "/login"),
        "为避免登录二维码泄露，请在 Bot 私聊中使用 /login。"
    );
    assert_eq!(
        refused(Some(42), true, None, "/login"),
        "当前未配置 ADMIN_USER_ID。你的 Telegram 用户 ID 是 42。"
    );
    assert_eq!(
        refused(Some(2), true, Some(1), "/login"),
        "你无权更新 Bot 的平台凭证。"
    );
    assert_eq!(
        refused(Some(1), true, Some(1), "/login what"),
        "用法：/login bili 或 /login netease"
    );
    for text in ["/login", "/login BiLi", "/login bilibili", "/login B站"] {
        assert!(matches!(
            sign_in(Some(1), true, Some(1), text),
            SignIn::Start(LoginTarget::Bilibili)
        ));
    }
    for text in ["/login netease", "/login 163", "/login music", "/login 网易云"] {
        assert!(matches!(
            sign_in(Some(1), true, Some(1), text),
            SignIn::Start(LoginTarget::Netease)
        ));
    }
    assert_eq!(
        challenge_caption(LoginTarget::Netease),
        "请使用网易云音乐客户端扫码并确认登录。"
    );
    assert_eq!(
        challenge_filename(LoginTarget::Bilibili),
        "bilibili-login.png"
    );
    assert_eq!(challenge_failure("e"), "生成登录二维码失败：e");
}

#[test]
fn sign_in_is_followed_to_its_end() {
    let target = LoginTarget::Netease;
    let mut state = Some(first_poll());
    let mut said: Vec<String> = vec![];
    let mut polls = 0;
    while let Some(current) = state {
        polls += 1;
        let (messages, next) = poll_next(current, target, Ok(LoginPoll::Scanned));
        said.extend(messages);
        state = next;
    }
    assert_eq!(polls, LOGIN_POLLS);
    assert_eq!(
        said,
        [
            "已扫码，请在手机客户端中确认登录。",
            "登录超时，请重新发送 /login。"
        ]
    );
    let end = |answer| {
        let (messages, next) = poll_next(first_poll(), target, answer);
        assert!(next.is_none());
        messages.join("|")
    };
    assert_eq!(
        end(Ok(LoginPoll::Success)),
        "网易云 扫码登录成功，Cookie 已持久化并立即生效。"
    );
    assert_eq!(
        end(Ok(LoginPoll::Expired)),
        "登录二维码已过期，请重新发送 /login。"
    );
    assert_eq!(end(Err("e".to_string())), "扫码登录失败：e");
    let (messages, next) = poll_next(first_poll(), target, Ok(LoginPoll::Waiting));
    assert!(messages.is_empty() && next.is_some());
}
