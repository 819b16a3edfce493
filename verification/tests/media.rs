use congmiao_feedbot::media::download::{
    address_next, content_range_start, content_range_total, count_chunk, download_attempt,
    download_end, download_next, range_header, AddressNext, Attempt, DownloadNext, ReplyHead,
};
use congmiao_feedbot::media::names::{
    concat_entry, concat_escape, concat_last_entry, file_stem, preview_filename, sanitize,
    ugoira_document, ugoira_frames, ugoira_last_file, unique_temp_key, url_host, youtube_format,
};
use congmiao_feedbot::media::photo::{
    photo_preview_dimensions, preview_accepted, preview_filter, preview_job, thumbnail_size_valid,
};
use congmiao_feedbot::media::prepare::{
    finish, PrepareEvent, PrepareFacts, PrepareNext, PrepareStage, PrepareState, PrepareTask,
};
use congmiao_feedbot::media::video::{
    frame_seek, video_is_telegram_compatible, video_metadata, ProbeOutput, ProbeStream,
    VideoMetadata,
};
use congmiao_feedbot::media::{
    is_permanent_prepare_error, telegram_photo_dimensions_valid, MediaProcessor, PrepareError,
};
use congmiao_feedbot::{
    BilibiliCdnPreference, Config, MediaItem, MediaKind, MediaSpoilerMode, Platform,
};

fn config() -> Config {
    Config {
        telegram_token: "test".into(),
        telegram_api_url: None,
        telegram_request_timeout_secs: 600,
        media_download_timeout_secs: 120,
        media_download_retries: 3,
        media_photo_source_max_size_mb: 200,
        database_url: "sqlite::memory:".into(),
        fxtwitter_api_base: String::new(),
        pixiv_web_api_base: String::new(),
        netease_api_base: String::new(),
        netease_cookie: None,
        youtube_api_key: None,
        youtube_cookies_file: None,
        pixiv_refresh_token: None,
        bilibili_cookie: None,
        bilibili_cdn: BilibiliCdnPreference::BaseUrl,
        bilibili_passport_base: String::new(),
        bilibili_api_base: String::new(),
        bilibili_live_api_base: String::new(),
        bilibili_www_base: String::new(),
        ffmpeg_path: "ffmpeg".into(),
        ffprobe_path: "ffprobe".into(),
        yt_dlp_path: "yt-dlp".into(),
        temp_dir: "tmp".into(),
        upload_workers: 1,
        max_queue_size: 2,
        request_limit_count: 0,
        request_limit_ttl: 60,
        local_bot_api: false,
        webhook_url: None,
        webhook_host: "127.0.0.1".into(),
        webhook_port: 8080,
        admin_user_id: None,
        media_spoiler_mode: MediaSpoilerMode::Auto,
    }
}

fn item(kind: MediaKind, filename: &str, key: &str) -> MediaItem {
    MediaItem {
        kind,
        source_url: format!("http://127.0.0.1/{filename}"),
        fallback_urls: vec![],
        thumbnail_url: None,
        filename: filename.into(),
        mime_type: None,
        duration_secs: None,
        width: None,
        height: None,
        size: None,
        headers: Default::default(),
        cache_key: key.into(),
        requires_download: true,
        secondary_url: None,
        secondary_fallback_urls: vec![],
    }
}

fn go(task: &PrepareTask, state: PrepareState, event: PrepareEvent) -> PrepareState {
    match task.next(state, event) {
        PrepareNext::Continue(state) => state,
        other => panic!("{other:?}"),
    }
}

fn ready(task: &PrepareTask, state: PrepareState, size: u64) -> PrepareFacts {
    match task.next(state, PrepareEvent::Size(size)) {
        PrepareNext::Ready(facts) => facts,
        other => panic!("{other:?}"),
    }
}

fn head(status: u16, range: Option<&str>, length: Option<u64>) -> ReplyHead {
    ReplyHead {
        status,
        content_range: range.map(str::to_string),
        content_length: length,
    }
}

#[test]
fn validates_telegram_photo_dimensions() {
    assert!(telegram_photo_dimensions_valid(5000, 5000));
    assert!(telegram_photo_dimensions_valid(100, 2000));
    assert!(!telegram_photo_dimensions_valid(100, 2001));
    assert!(!telegram_photo_dimensions_valid(5001, 5000));
    assert!(!telegram_photo_dimensions_valid(0, 100));
}

#[test]
fn interrupted_download_resumes_with_http_range() {
    let mut document = item(MediaKind::Document, "resume.bin", "test:resume");
    document.mime_type = Some("application/octet-stream".into());
    document.size = Some(10);
    let mut test_config = config();
    test_config.media_download_retries = 1;
    let processor = MediaProcessor::new(&test_config);
    let task = processor.prepare(Platform::Bilibili, &document);
    let limit = task.download_limit();

    assert!(range_header(0).is_none());
    let first = download_attempt(&head(200, None, Some(10)), 0, limit);
    assert!(matches!(
        first,
        Attempt::Receive {
            resumed: false,
            base: 0,
            expected: Some(10)
        }
    ));
    let mut file = b"hello".to_vec();
    let total = count_chunk(0, 5, limit).unwrap();
    let outcome = download_end(Some(10), total);
    assert!(outcome.is_err());
    assert_eq!(
        download_next(1, processor.download_retries, &outcome),
        DownloadNext::Retry {
            delay_secs: 1,
            attempt: 2
        }
    );

    assert_eq!(range_header(5).as_deref(), Some("bytes=5-"));
    let second = download_attempt(&head(206, Some("bytes 5-9/10"), Some(5)), 5, limit);
    match second {
        Attempt::Receive {
            resumed,
            base,
            expected,
        } => {
            assert!(resumed);
            assert_eq!(base, 5);
            file.extend_from_slice(b"world");
            let total = count_chunk(base, 5, limit).unwrap();
            let outcome = download_end(expected, total);
            assert!(outcome.is_ok());
            assert_eq!(
                download_next(2, processor.download_retries, &outcome),
                DownloadNext::Done
            );
        }
        other => panic!("{other:?}"),
    }
    assert_eq!(file, b"helloworld");

    let state = go(&task, task.start(), PrepareEvent::Done);
    assert_eq!(state.stage, PrepareStage::Rename);
    let state = go(&task, state, PrepareEvent::Done);
    let state = go(&task, state, PrepareEvent::Size(10));
    let facts = ready(&task, state, 10);
    let prepared = finish(&document, facts, "tmp/resume.bin".into());
    assert_eq!(prepared.path, "tmp/resume.bin");
    assert_eq!(prepared.item.cache_key, "test:resume");
}

#[test]
fn oversized_content_length_stops_without_retries() {
    let document = item(MediaKind::Document, "too-large.bin", "test:too-large");
    let processor = MediaProcessor::new(&config());
    let task = processor.prepare(Platform::Bilibili, &document);
    let attempt = download_attempt(
        &head(200, None, Some(52428801)),
        0,
        task.download_limit(),
    );
    let error = match attempt {
        Attempt::Failed(error) => error,
        other => panic!("{other:?}"),
    };
    assert!(error.message().contains("50MB"));
    assert!(is_permanent_prepare_error(&error));
    let outcome = Err(error);
    assert_eq!(
        download_next(1, processor.download_retries, &outcome),
        DownloadNext::GiveUp
    );
    assert_eq!(address_next(0, 2, &outcome), AddressNext::GiveUp);
}

#[test]
fn oversized_photo_dimensions_generate_preview_and_preserve_original_for_file_mode() {
    let mut photo = item(MediaKind::Photo, "tall.jpg", "test:tall-photo");
    photo.mime_type = Some("image/jpeg".into());
    let processor = MediaProcessor::new(&config());
    let task = processor.prepare(Platform::X, &photo);
    let state = go(&task, task.start(), PrepareEvent::Done);
    let state = go(&task, state, PrepareEvent::Done);
    assert_eq!(state.stage, PrepareStage::MeasurePhoto);
    let state = go(
        &task,
        state,
        PrepareEvent::Photo {
            width: 100,
            height: 2102,
            size: 50_000,
        },
    );
    assert_eq!(state.stage, PrepareStage::RenderPreview);
    let job = preview_job(100, 2102, 0).unwrap().unwrap();
    assert_eq!(
        job.filter,
        "scale=100:2102:flags=lanczos,pad=111:2102:(ow-iw)/2:(oh-ih)/2:black"
    );
    assert_eq!(job.quality, 3);
    let (_, _, width, height) = photo_preview_dimensions(100, 2102, 4096).unwrap();
    assert!(telegram_photo_dimensions_valid(width, height));
    assert_eq!(height, 2102);
    assert!(width > 100);
    assert!(preview_accepted(60_000, width, height).is_ok());
    let preview = || PrepareEvent::Photo {
        width: 111,
        height: 2102,
        size: 60_000,
    };
    let state = go(&task, state, preview());
    assert_eq!(state.stage, PrepareStage::CheckPhoto);
    let state = go(&task, state, preview());
    let state = go(&task, state, PrepareEvent::Size(60_000));
    let facts = ready(&task, state, 60_000);
    let prepared = finish(&photo, facts, "tmp/tall.telegram-preview.jpg".into());
    assert!(prepared.is_preview);
    assert_eq!(prepared.item.mime_type.as_deref(), Some("image/jpeg"));
    assert!(prepared
        .item
        .cache_key
        .ends_with(":telegram-photo-preview-v1"));
    assert_eq!(prepared.item.filename, "tall-preview.jpg");
    assert_eq!(
        (prepared.item.width, prepared.item.height),
        (Some(111), Some(2102))
    );

    let task = processor.prepare_original(Platform::X, &photo);
    let state = go(&task, task.start(), PrepareEvent::Done);
    let state = go(&task, state, PrepareEvent::Done);
    assert_eq!(state.stage, PrepareStage::MeasureFile);
    let state = go(&task, state, PrepareEvent::Size(50_000));
    let facts = ready(&task, state, 50_000);
    let original = finish(&photo, facts, "tmp/tall.jpg".into());
    assert!(!original.is_preview);
    assert_eq!(original.item.cache_key, "test:tall-photo");
}

#[test]
fn oversized_photo_source_uses_upstream_preview() {
    let mut photo = item(MediaKind::Photo, "original.jpg", "test:large-photo-source");
    photo.thumbnail_url = Some("http://127.0.0.1/thumbnail.jpg".into());
    photo.mime_type = Some("image/jpeg".into());
    let mut test_config = config();
    test_config.media_photo_source_max_size_mb = 1;
    let processor = MediaProcessor::new(&test_config);
    let task = processor.prepare(Platform::Pixiv, &photo);
    assert_eq!(task.download_limit(), 1024 * 1024);
    let attempt = download_attempt(
        &head(200, None, Some(1024 * 1024 + 1)),
        0,
        task.download_limit(),
    );
    let error = match attempt {
        Attempt::Failed(error) => error,
        other => panic!("{other:?}"),
    };
    let state = go(&task, task.start(), PrepareEvent::Failed(error));
    assert_eq!(state.stage, PrepareStage::Thumbnail);
    assert_eq!(task.thumbnail_download_limit(), 1024 * 1024);
    let state = go(&task, state, PrepareEvent::Done);
    let state = go(&task, state, PrepareEvent::Done);
    let thumbnail = || PrepareEvent::Photo {
        width: 64,
        height: 64,
        size: 900,
    };
    let state = go(&task, state, thumbnail());
    assert_eq!(state.stage, PrepareStage::CheckPhoto);
    let state = go(&task, state, thumbnail());
    let state = go(&task, state, PrepareEvent::Size(900));
    let facts = ready(&task, state, 900);
    let prepared = finish(&photo, facts, "tmp/original.jpg".into());
    assert!(prepared.is_preview);
    assert_eq!(
        (prepared.item.width, prepared.item.height),
        (Some(64), Some(64))
    );
    assert!(prepared
        .item
        .cache_key
        .ends_with(":telegram-photo-preview-v1"));
    assert_eq!(prepared.item.filename, "original.jpg");
}

fn metadata(codec: &str, pixels: &str, audio: Option<&str>) -> VideoMetadata {
    VideoMetadata {
        width: Some(320),
        height: Some(240),
        duration_secs: Some(1),
        format_name: "mov,mp4,m4a,3gp,3g2,mj2".into(),
        video_codec: codec.into(),
        pixel_format: pixels.into(),
        audio_codec: audio.map(str::to_string),
    }
}

#[test]
fn downloads_and_merges_dash_tracks_with_ffmpeg() {
    let mut video = item(MediaKind::Video, "merged.mp4", "test:merge");
    video.mime_type = Some("video/mp4".into());
    video.secondary_url = Some("http://127.0.0.1/missing-audio".into());
    video.secondary_fallback_urls = vec!["http://127.0.0.1/a".into()];
    let mut test_config = config();
    test_config.media_download_retries = 0;
    let processor = MediaProcessor::new(&test_config);
    let task = processor.prepare(Platform::Bilibili, &video);
    let state = go(&task, task.start(), PrepareEvent::Done);
    assert_eq!(state.stage, PrepareStage::Secondary);

    let refused = Err(PrepareError::Failed("HTTP 404".into()));
    assert_eq!(download_next(1, 0, &refused), DownloadNext::GiveUp);
    assert_eq!(address_next(0, 1, &refused), AddressNext::Try(1));
    assert_eq!(address_next(1, 1, &Ok(())), AddressNext::Done);

    let state = go(&task, state, PrepareEvent::Done);
    assert_eq!(state.stage, PrepareStage::Probe);
    let merged = metadata("mpeg4", "yuv420p", Some("aac"));
    assert!(!video_is_telegram_compatible(&merged));
    let state = go(&task, state, PrepareEvent::Probed(merged));
    assert_eq!(state.stage, PrepareStage::Normalize);
    let state = go(&task, state, PrepareEvent::Done);
    assert_eq!(state.stage, PrepareStage::ProbeNormalized);
    let normalized = metadata("h264", "yuv420p", Some("aac"));
    assert!(video_is_telegram_compatible(&normalized));
    let state = go(&task, state, PrepareEvent::Probed(normalized));
    let state = go(&task, state, PrepareEvent::Size(4_000));
    let facts = ready(&task, state, 4_000);
    let prepared = finish(&video, facts, "tmp/merged.mp4".into());
    assert_eq!(prepared.item.width, Some(320));
    assert_eq!(prepared.item.height, Some(240));
    assert_eq!(prepared.item.duration_secs, Some(1));
}

#[test]
fn converts_pixiv_ugoira_zip_to_mp4() {
    let frames = r#"[{"file":"000000.jpg","delay":80},{"file":"000001.jpg","delay":80}]"#;
    let mut animation = item(MediaKind::Animation, "ugoira.mp4", "test:ugoira");
    animation.mime_type = Some("video/mp4".into());
    animation.width = Some(64);
    animation.height = Some(64);
    animation.secondary_url = Some(format!("ugoira:{frames}"));
    let processor = MediaProcessor::new(&config());
    let task = processor.prepare(Platform::Pixiv, &animation);
    let state = task.start();
    assert_eq!(state.stage, PrepareStage::Archive);

    let document = ugoira_document(animation.secondary_url.as_deref().unwrap()).unwrap();
    let listed = ugoira_frames(&document);
    assert_eq!(listed.len(), 2);
    assert_eq!(listed[1].file, "000001.jpg");
    assert_eq!(listed[1].delay_ms, 80);
    assert_eq!(ugoira_last_file(&document).as_deref(), Some("000001.jpg"));
    assert_eq!(
        concat_entry("/tmp/000000.jpg", "0.080"),
        "file '/tmp/000000.jpg'\nduration 0.080\n"
    );
    assert_eq!(
        concat_last_entry("/tmp/000001.jpg"),
        "file '/tmp/000001.jpg'\n"
    );

    let state = go(&task, state, PrepareEvent::Done);
    assert_eq!(state.stage, PrepareStage::MeasureFile);
    let state = go(&task, state, PrepareEvent::Size(2_000));
    let facts = ready(&task, state, 2_000);
    let prepared = finish(&animation, facts, "tmp/ugoira.mp4".into());
    assert_eq!(prepared.item.width, Some(64));
}

#[test]
fn ranges_are_read_from_headers() {
    let range = |s: &str| Some(s.to_string());
    assert_eq!(content_range_start(&range("bytes 5-9/10")), Some(5));
    assert_eq!(content_range_total(&range("bytes 5-9/10")), Some(10));
    assert_eq!(content_range_total(&range("bytes */10")), Some(10));
    assert_eq!(content_range_start(&range("bytes */10")), None);
    assert_eq!(content_range_total(&range("bytes 5-9/*")), None);
    assert_eq!(content_range_start(&range("items 5-9/10")), None);
    assert_eq!(content_range_start(&None), None);
}

#[test]
fn replies_that_do_not_continue_the_file_are_not_written() {
    let complete = download_attempt(&head(416, Some("bytes */10"), None), 10, 100);
    assert!(matches!(complete, Attempt::Complete));
    let refused = download_attempt(&head(416, Some("bytes */10"), None), 5, 100);
    assert!(matches!(refused, Attempt::Refused));
    let refused = download_attempt(&head(503, None, None), 0, 100);
    assert!(matches!(refused, Attempt::Refused));
    match download_attempt(&head(206, Some("bytes 0-9/10"), Some(10)), 5, 100) {
        Attempt::Failed(error) => {
            assert_eq!(
                error.message(),
                "服务器返回的 Content-Range 与本地文件不一致"
            );
            assert!(!is_permanent_prepare_error(&error));
        }
        other => panic!("{other:?}"),
    }
    let fresh = download_attempt(&head(200, None, None), 5, 100);
    assert!(matches!(
        fresh,
        Attempt::Receive {
            resumed: false,
            base: 0,
            expected: None
        }
    ));
    assert!(count_chunk(90, 11, 100).is_err());
    assert_eq!(count_chunk(90, 10, 100).unwrap(), 100);
    assert_eq!(
        download_end(Some(10), 7).unwrap_err().message(),
        "媒体长度不完整：期望 Some(10) 字节，实际下载 7 字节"
    );
}

#[test]
fn retries_wait_longer_and_end() {
    let failed = || Err(PrepareError::Failed("x".into()));
    let delays: Vec<_> = (1..=5)
        .map(|attempt| match download_next(attempt, 9, &failed()) {
            DownloadNext::Retry { delay_secs, .. } => delay_secs,
            other => panic!("{other:?}"),
        })
        .collect();
    assert_eq!(delays, [1, 2, 4, 8, 8]);
    assert_eq!(download_next(10, 9, &failed()), DownloadNext::GiveUp);
    assert_eq!(address_next(2, 2, &failed()), AddressNext::GiveUp);
}

#[test]
fn permanent_errors_are_found_below_their_context() {
    let inner = PrepareError::TooLarge {
        max_size: 52_428_800,
    };
    let error = PrepareError::Context {
        message: "下载失败".into(),
        source: Box::new(inner),
    };
    assert!(is_permanent_prepare_error(&error));
    assert_eq!(error.message(), "下载失败");
    assert!(!is_permanent_prepare_error(&PrepareError::Failed(
        "x".into()
    )));
}

#[test]
fn limits_follow_the_server() {
    let public = MediaProcessor::new(&config());
    assert_eq!(public.max_size(), 52_428_800);
    assert_eq!(public.cover_download_limit(), 52_428_800);
    assert_eq!(public.photo_source_max_size, 209_715_200);
    assert_eq!(public.workers, 1);
    let mut c = config();
    c.local_bot_api = true;
    c.upload_workers = 0;
    c.media_photo_source_max_size_mb = u64::MAX;
    let local = MediaProcessor::new(&c);
    assert_eq!(local.max_size(), 2_000_000_000);
    assert_eq!(local.cover_download_limit(), 52_428_800);
    assert_eq!(local.photo_source_max_size, u64::MAX);
    assert_eq!(local.workers, 1);
    assert!(thumbnail_size_valid(200 * 1024));
    assert!(!thumbnail_size_valid(200 * 1024 + 1));
    let video = item(MediaKind::Video, "v.mp4", "v");
    assert_eq!(
        public.prepare(Platform::X, &video).download_limit(),
        2_000_000_000
    );
}

#[test]
fn videos_that_are_too_large_are_compressed_once() {
    let video = item(MediaKind::Video, "v.mp4", "v");
    let task = MediaProcessor::new(&config()).prepare(Platform::YouTube, &video);
    let state = task.start();
    assert_eq!(state.stage, PrepareStage::YouTube);
    let state = go(&task, state, PrepareEvent::Done);
    let good = || metadata("h264", "yuvj420p", None);
    let state = go(&task, state, PrepareEvent::Probed(good()));
    assert_eq!(state.stage, PrepareStage::MeasureFile);
    let state = go(&task, state, PrepareEvent::Size(60_000_000));
    assert_eq!(state.stage, PrepareStage::Compress);
    let state = go(&task, state, PrepareEvent::Done);
    assert_eq!(state.stage, PrepareStage::ProbeCompressed);
    let mut smaller = good();
    smaller.width = Some(854);
    let state = go(&task, state, PrepareEvent::Probed(smaller));
    match task.next(state, PrepareEvent::Size(60_000_000)) {
        PrepareNext::Failed(error) => {
            assert_eq!(error.message(), "媒体文件 57 MB 超过 Telegram 限制")
        }
        other => panic!("{other:?}"),
    }
    let facts = ready(&task, state, 52_428_800);
    assert_eq!(
        finish(&video, facts, "p".into()).item.width,
        Some(854)
    );
}

#[test]
fn photos_that_stay_too_large_are_refused() {
    let photo = item(MediaKind::Photo, "p.png", "p");
    let task = MediaProcessor::new(&config()).prepare(Platform::X, &photo);
    let state = go(&task, task.start(), PrepareEvent::Done);
    let state = go(&task, state, PrepareEvent::Done);
    let state = go(
        &task,
        state,
        PrepareEvent::Photo {
            width: 100,
            height: 100,
            size: 10_485_761,
        },
    );
    assert_eq!(state.stage, PrepareStage::RenderPreview);
    let state = go(
        &task,
        state,
        PrepareEvent::Photo {
            width: 100,
            height: 100,
            size: 1,
        },
    );
    match task.next(
        state,
        PrepareEvent::Photo {
            width: 6000,
            height: 6000,
            size: 11_000_000,
        },
    ) {
        PrepareNext::Failed(error) => assert_eq!(
            error.message(),
            "图片预览仍不符合 Telegram 限制：6000x6000，10MB"
        ),
        other => panic!("{other:?}"),
    }
    let error = PrepareError::Failed("connection reset".into());
    assert!(matches!(
        task.next(task.start(), PrepareEvent::Failed(error)),
        PrepareNext::Failed(_)
    ));
}

#[test]
fn previews_fit_whatever_the_photo() {
    for (width, height) in [(1, 100_000), (100_000, 1), (8192, 8192), (4294967295, 3)] {
        for max_edge in [4096, 3072, 2048] {
            let (w, h, cw, ch) = photo_preview_dimensions(width, height, max_edge).unwrap();
            assert!(w <= cw && h <= ch);
            assert!(telegram_photo_dimensions_valid(cw, ch));
        }
    }
    assert_eq!(
        photo_preview_dimensions(8192, 4096, 4096).unwrap(),
        (4096, 2048, 4096, 2048)
    );
    assert_eq!(
        photo_preview_dimensions(0, 5, 4096).unwrap_err().message(),
        "图片尺寸无效：0x5"
    );
    assert_eq!(
        preview_filter((1, 2, 3, 4)),
        "scale=1:2:flags=lanczos,pad=3:4:(ow-iw)/2:(oh-ih)/2:black"
    );
    assert_eq!(preview_job(10, 10, 1).unwrap().unwrap().quality, 5);
    assert_eq!(preview_job(10, 10, 2).unwrap().unwrap().quality, 7);
    assert!(preview_job(10, 10, 3).unwrap().is_none());
    assert_eq!(
        preview_accepted(10_485_760, 100, 100)
            .unwrap_err()
            .message(),
        "图片预览输出仍超限：100x100，10MB"
    );
}

#[test]
fn names_of_files_are_safe() {
    assert_eq!(sanitize("a b/c.jpg"), "a_b_c.jpg");
    assert_eq!(sanitize("图.png"), "_.png");
    assert_eq!(sanitize(""), "media.bin");
    assert_eq!(sanitize(&sanitize("a b")), sanitize("a b"));
    assert_eq!(unique_temp_key("x:1/2\\3", 7), "x-1-2-3-7");
    assert_ne!(unique_temp_key("a-1", 2), unique_temp_key("a", 12));
    assert_eq!(concat_escape(r"C:\it's"), r"C:/it'\''s");
    assert_eq!(file_stem("a/b.tar.gz").as_deref(), Some("b.tar"));
    assert_eq!(file_stem(".hidden").as_deref(), Some(".hidden"));
    assert_eq!(file_stem(".."), None);
    assert_eq!(preview_filename("photo.webp"), "photo-preview.jpg");
    assert_eq!(preview_filename(""), "photo-preview.jpg");
    assert_eq!(url_host("https://i.pximg.net:443/x"), "i.pximg.net");
    assert_eq!(url_host("no url"), "unknown");
    assert_eq!(
        youtube_format(720),
        "best[height<=720][ext=mp4][vcodec^=avc1][acodec^=mp4a]/bestvideo[height<=720][vcodec^=avc1]+bestaudio[acodec^=mp4a]/best[height<=720][ext=mp4]/best[height<=720]"
    );
    assert!(ugoira_document("ugoira:{").is_err());
    assert!(ugoira_frames(&ugoira_document("nothing").unwrap()).is_empty());
}

#[test]
fn probes_are_read() {
    let stream = |kind: &str, codec: &str, duration: Option<u64>| ProbeStream {
        codec_type: Some(kind.into()),
        codec_name: Some(codec.into()),
        pix_fmt: Some("yuv420p".into()),
        width: Some(2),
        height: Some(4),
        duration_secs: duration,
    };
    let probe = ProbeOutput {
        streams: vec![stream("audio", "aac", None), stream("video", "h264", None)],
        format_name: Some("mp4".into()),
        format_duration_secs: Some(9),
    };
    let found = video_metadata(&probe).unwrap();
    assert_eq!(found.duration_secs, Some(9));
    assert_eq!(found.audio_codec.as_deref(), Some("aac"));
    assert!(video_is_telegram_compatible(&found));
    let silent = ProbeOutput {
        streams: vec![stream("audio", "aac", None)],
        format_name: None,
        format_duration_secs: None,
    };
    assert_eq!(
        video_metadata(&silent).unwrap_err().message(),
        "媒体文件缺少视频流"
    );
    assert!(!video_is_telegram_compatible(&metadata(
        "h264",
        "yuv420p",
        Some("opus")
    )));
    let mut webm = metadata("h264", "yuv420p", None);
    webm.format_name = "matroska,webm".into();
    assert!(!video_is_telegram_compatible(&webm));
    assert_eq!(frame_seek(0).as_deref(), Some("00:00:01.000"));
    assert_eq!(frame_seek(1).as_deref(), Some("00:00:00.000"));
    assert_eq!(frame_seek(2), None);
}
