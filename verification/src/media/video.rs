//! Videos: what a file holds, and whether Telegram plays it as it is.
use vstd::prelude::*;

use crate::text::{copy_opt, opt_text, same, split_char, split_parts, texts};

use super::{PrepareError, PrepareErrorView};

verus! {

/// What is known of a video file.
#[derive(Debug)]
pub struct VideoMetadata {
    pub width: Option<u32>,
    pub height: Option<u32>,
    pub duration_secs: Option<u64>,
    pub format_name: String,
    pub video_codec: String,
    pub pixel_format: String,
    pub audio_codec: Option<String>,
}

/// What is known of a video file, as plain values.
#[verifier::ext_equal]
pub struct VideoView {
    pub width: Option<u32>,
    pub height: Option<u32>,
    pub duration_secs: Option<u64>,
    pub format_name: Seq<char>,
    pub video_codec: Seq<char>,
    pub pixel_format: Seq<char>,
    pub audio_codec: Option<Seq<char>>,
}

impl View for VideoMetadata {
    type V = VideoView;

    open spec fn view(&self) -> VideoView {
        VideoView {
            width: self.width,
            height: self.height,
            duration_secs: self.duration_secs,
            format_name: self.format_name@,
            video_codec: self.video_codec@,
            pixel_format: self.pixel_format@,
            audio_codec: opt_text(self.audio_codec),
        }
    }
}

/// One stream that the probe found. The duration is in whole seconds, rounded up.
#[derive(Debug)]
pub struct ProbeStream {
    pub codec_type: Option<String>,
    pub codec_name: Option<String>,
    pub pix_fmt: Option<String>,
    pub width: Option<u32>,
    pub height: Option<u32>,
    pub duration_secs: Option<u64>,
}

/// What the probe found in a file.
#[derive(Debug)]
pub struct ProbeOutput {
    pub streams: Vec<ProbeStream>,
    pub format_name: Option<String>,
    pub format_duration_secs: Option<u64>,
}

/// The first stream of a type, from number `from` on.
pub open spec fn first_stream(
    streams: Seq<ProbeStream>,
    codec_type: Seq<char>,
    from: int,
) -> Option<ProbeStream>
    decreases streams.len() - from,
{
    if from < 0 || from >= streams.len() {
        None
    } else if opt_text(streams[from].codec_type) == Some(codec_type) {
        Some(streams[from])
    } else {
        first_stream(streams, codec_type, from + 1)
    }
}

/// The text, or an empty one.
pub open spec fn text_or_empty(value: Option<String>) -> Seq<char> {
    match value {
        Some(s) => s@,
        None => Seq::empty(),
    }
}

/// What is known of a video file by the probe: the first video stream, the codec of the first
/// audio stream, and the duration of the file where the stream has none.
pub open spec fn probed_video(probe: ProbeOutput) -> Option<VideoView> {
    match first_stream(probe.streams@, "video"@, 0) {
        Some(video) => Some(
            VideoView {
                width: video.width,
                height: video.height,
                duration_secs: if video.duration_secs is Some {
                    video.duration_secs
                } else {
                    probe.format_duration_secs
                },
                format_name: text_or_empty(probe.format_name),
                video_codec: text_or_empty(video.codec_name),
                pixel_format: text_or_empty(video.pix_fmt),
                audio_codec: match first_stream(probe.streams@, "audio"@, 0) {
                    Some(audio) => opt_text(audio.codec_name),
                    None => None,
                },
            },
        ),
        None => None,
    }
}

fn find_stream<'a>(streams: &'a Vec<ProbeStream>, codec_type: &str) -> (r: Option<&'a ProbeStream>)
    ensures
        (match r {
            Some(s) => Some(*s),
            None => None,
        }) == first_stream(streams@, codec_type@, 0),
{
    let mut i: usize = 0;
    while i < streams.len()
        invariant
            i <= streams@.len(),
            first_stream(streams@, codec_type@, 0) == first_stream(
                streams@,
                codec_type@,
                i as int,
            ),
        decreases streams.len() - i,
    {
        match &streams[i].codec_type {
            Some(t) => {
                if same(t.as_str(), codec_type) {
                    return Some(&streams[i]);
                }
            },
            None => {},
        }
        i += 1;
    }
    None
}

fn or_empty(value: &Option<String>) -> (r: String)
    ensures
        r@ == text_or_empty(*value),
{
    match value {
        Some(s) => s.clone(),
        None => String::new(),
    }
}

/// What is known of a video file by the probe.
pub fn video_metadata(probe: &ProbeOutput) -> (r: Result<VideoMetadata, PrepareError>)
    ensures
        match r {
            Ok(metadata) => probed_video(*probe) == Some(metadata@),
            Err(error) => probed_video(*probe) is None && error@ == PrepareErrorView::Failed(
                "媒体文件缺少视频流"@,
            ),
        },
{
    match find_stream(&probe.streams, "video") {
        Some(video) => Ok(
            VideoMetadata {
                width: video.width,
                height: video.height,
                duration_secs: if video.duration_secs.is_some() {
                    video.duration_secs
                } else {
                    probe.format_duration_secs
                },
                format_name: or_empty(&probe.format_name),
                video_codec: or_empty(&video.codec_name),
                pixel_format: or_empty(&video.pix_fmt),
                audio_codec: match find_stream(&probe.streams, "audio") {
                    Some(audio) => copy_opt(&audio.codec_name),
                    None => None,
                },
            },
        ),
        None => Err(PrepareError::Failed("媒体文件缺少视频流".to_owned())),
    }
}

/// Whether Telegram plays the file as it is: MP4 with H.264 in a common pixel format, AAC sound
/// or none, and a size and a length that are known.
pub open spec fn plays_in_telegram(v: VideoView) -> bool {
    &&& split_parts(v.format_name, ',').contains("mp4"@)
    &&& v.video_codec == "h264"@
    &&& v.pixel_format == "yuv420p"@ || v.pixel_format == "yuvj420p"@
    &&& v.audio_codec is None || v.audio_codec == Some("aac"@)
    &&& v.width is Some && v.width->0 > 0
    &&& v.height is Some && v.height->0 > 0
    &&& v.duration_secs is Some && v.duration_secs->0 > 0
}

fn names_format(list: &str, name: &str) -> (r: bool)
    ensures
        r == split_parts(list@, ',').contains(name@),
{
    let parts = split_char(list, ',');
    let ghost all = split_parts(list@, ',');
    let mut i: usize = 0;
    while i < parts.len()
        invariant
            i <= parts@.len(),
            texts(parts@) == all,
            all == split_parts(list@, ','),
            forall|j: int| 0 <= j < i ==> #[trigger] all[j] != name@,
        decreases parts.len() - i,
    {
        assert(all[i as int] == parts@[i as int]@);
        if same(parts[i].as_str(), name) {
            return true;
        }
        i += 1;
    }
    false
}

pub fn video_is_telegram_compatible(metadata: &VideoMetadata) -> (r: bool)
    ensures
        r == plays_in_telegram(metadata@),
{
    let audio = match &metadata.audio_codec {
        Some(codec) => same(codec.as_str(), "aac"),
        None => true,
    };
    let width = match metadata.width {
        Some(n) => n > 0,
        None => false,
    };
    let height = match metadata.height {
        Some(n) => n > 0,
        None => false,
    };
    let duration = match metadata.duration_secs {
        Some(n) => n > 0,
        None => false,
    };
    let pixels = metadata.pixel_format.as_str();
    names_format(metadata.format_name.as_str(), "mp4") && same(
        metadata.video_codec.as_str(),
        "h264",
    ) && (same(pixels, "yuv420p") || same(pixels, "yuvj420p")) && audio && width && height
        && duration
}

/// Where in a video the frame for its thumbnail is taken, by the number of the attempt: after the
/// first second, and at the start where the video is shorter.
pub open spec fn frame_place(attempt: int) -> Option<Seq<char>> {
    if attempt == 0 {
        Some("00:00:01.000"@)
    } else if attempt == 1 {
        Some("00:00:00.000"@)
    } else {
        None
    }
}

pub fn frame_seek(attempt: usize) -> (r: Option<String>)
    ensures
        opt_text(r) == frame_place(attempt as int),
{
    if attempt == 0 {
        Some("00:00:01.000".to_owned())
    } else if attempt == 1 {
        Some("00:00:00.000".to_owned())
    } else {
        None
    }
}

} // verus!
