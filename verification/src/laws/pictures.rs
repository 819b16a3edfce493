//! Photos and videos: what can be shown, and how it is made fit.
use vstd::arithmetic::div_mod::{lemma_fundamental_div_mod, lemma_mod_bound};
use vstd::prelude::*;

use crate::media::photo::{
    photo_fits, preview_dimensions, preview_filter_text, preview_rejection, preview_setting,
};
use crate::media::video::{
    first_stream, frame_place, plays_in_telegram, probed_video, ProbeOutput, ProbeStream, VideoView,
};
use crate::media::{megabytes, upload_limit};
use crate::text::{decimal, opt_text, split_parts};

verus! {

/// A public server takes files up to fifty binary megabytes, a server of one's own up to two
/// thousand decimal ones. Settings count in binary megabytes.
pub proof fn law_upload_limits(n: u64)
    ensures
        upload_limit(false) == 50 * 1024 * 1024,
        upload_limit(true) == 2_000 * 1000 * 1000,
        n * (1024 * 1024) <= u64::MAX ==> megabytes(n) == n * (1024 * 1024),
        n * (1024 * 1024) > u64::MAX ==> megabytes(n) == u64::MAX,
{
}

/// A photo can be shown where its sides add up to at most ten thousand and neither is more than
/// twenty times the other.
pub proof fn law_photo_that_fits(width: int, height: int)
    ensures
        photo_fits(width, height) <==> 0 < width && 0 < height && width + height <= 10_000 && width
            <= 20 * height && height <= 20 * width,
        photo_fits(width, height) == photo_fits(height, width),
{
}

/// A picture whose longer side is at most the bound keeps its size. Of a larger one the longer
/// side becomes the bound, and the other side shrinks with it, by less than a pixel more.
pub proof fn law_preview_is_scaled(width: int, height: int, max_edge: int)
    requires
        0 < width,
        0 < height,
        0 < max_edge,
    ensures
        ({
            let p = preview_dimensions(width, height, max_edge);
            &&& width <= max_edge && height <= max_edge ==> p.0 == width && p.1 == height
            &&& width > max_edge && width >= height ==> {
                &&& p.0 == max_edge
                &&& p.1 * width <= height * max_edge || p.1 == 1
                &&& (p.1 + 1) * width > height * max_edge
                &&& p.1 >= 1
            }
            &&& height > max_edge && height >= width ==> {
                &&& p.1 == max_edge
                &&& p.0 * height <= width * max_edge || p.0 == 1
                &&& (p.0 + 1) * height > width * max_edge
                &&& p.0 >= 1
            }
        }),
{
    if width > max_edge && width >= height {
        lemma_share(width, height, max_edge);
        lemma_share(width, width, max_edge);
        lemma_whole(width, max_edge);
    }
    if height > max_edge && height >= width {
        lemma_share(height, width, max_edge);
        lemma_whole(height, max_edge);
    }
}

/// A share of a whole, rounded down, and at least one.
proof fn lemma_share(whole: int, edge: int, max_edge: int)
    requires
        0 < edge,
        0 < whole,
        0 < max_edge,
    ensures
        (edge * max_edge / whole) * whole <= edge * max_edge,
        (edge * max_edge / whole + 1) * whole > edge * max_edge,
        edge * max_edge / whole < 1 ==> 2 * whole > edge * max_edge,
{
    let x = edge * max_edge;
    let q = x / whole;
    lemma_fundamental_div_mod(x, whole);
    lemma_mod_bound(x, whole);
    assert(q * whole <= x < (q + 1) * whole) by (nonlinear_arith)
        requires
            x == whole * q + x % whole,
            0 <= x % whole < whole,
    ;
    if q < 1 {
        assert(2 * whole > x) by (nonlinear_arith)
            requires
                x < (q + 1) * whole,
                q < 1,
                0 < whole,
        ;
    }
}

/// The share of the whole itself is the bound.
proof fn lemma_whole(whole: int, max_edge: int)
    requires
        0 < whole,
        0 < max_edge,
    ensures
        whole * max_edge / whole == max_edge,
{
    lemma_share(whole, whole, max_edge);
    let q = whole * max_edge / whole;
    assert(q == max_edge) by (nonlinear_arith)
        requires
            q * whole <= whole * max_edge,
            (q + 1) * whole > whole * max_edge,
            0 < whole,
    ;
}

/// The frame is the picture, unless one side is more than nineteen times the other: then the
/// shorter side of the frame is the least that is not.
pub proof fn law_preview_is_framed(width: int, height: int, max_edge: int)
    requires
        0 < width,
        0 < height,
        0 < max_edge,
    ensures
        ({
            let p = preview_dimensions(width, height, max_edge);
            &&& p.0 <= 19 * p.1 && p.1 <= 19 * p.0 ==> p.2 == p.0 && p.3 == p.1
            &&& p.1 > 19 * p.0 ==> p.3 == p.1 && 19 * (p.2 - 1) < p.1 <= 19 * p.2
            &&& p.0 > 19 * p.1 ==> p.2 == p.0 && 19 * (p.3 - 1) < p.0 <= 19 * p.3
        }),
{
    law_preview_is_scaled(width, height, max_edge);
}

/// Three previews are tried, each smaller and coarser than the one before.
pub proof fn law_preview_attempts(attempt: int)
    ensures
        preview_setting(attempt) is Some <==> 0 <= attempt < 3,
        preview_setting(attempt) matches Some(setting) ==> setting.0 == 1024 * (4 - attempt)
            && setting.1 == 2 * attempt + 3,
{
}

/// A preview is the scaled picture in the middle of a black frame.
pub proof fn law_preview_filter(width: int, height: int, frame_width: int, frame_height: int)
    ensures
        preview_filter_text((width, height, frame_width, frame_height)) == "scale="@ + decimal(
            width as nat,
        ) + ":"@ + decimal(height as nat) + ":flags=lanczos,pad="@ + decimal(frame_width as nat)
            + ":"@ + decimal(frame_height as nat) + ":(ow-iw)/2:(oh-ih)/2:black"@,
{
}

/// A preview is taken where it has at most nine megabytes and can be shown.
pub proof fn law_preview_is_taken(size: u64, width: u32, height: u32)
    ensures
        preview_rejection(size, width, height) is None <==> size <= 9 * 1024 * 1024 && 0 < width && 0
            < height && width + height <= 10_000 && width <= 20 * height && height <= 20 * width,
        preview_rejection(size, width, height) matches Some(message) ==> message
            == "图片预览输出仍超限："@ + decimal(width as nat) + "x"@ + decimal(height as nat) + "，"@
            + decimal(size as nat / 1_048_576) + "MB"@,
{
    assert((size / 1024 / 1024) as nat == size as nat / 1_048_576);
}

/// Whether a stream is the first of its kind.
pub open spec fn is_first(streams: Seq<ProbeStream>, kind: Seq<char>, k: int) -> bool {
    &&& 0 <= k < streams.len()
    &&& opt_text(streams[k].codec_type) == Some(kind)
    &&& forall|i: int| 0 <= i < k ==> opt_text(#[trigger] streams[i].codec_type) != Some(kind)
}

proof fn lemma_first_stream(streams: Seq<ProbeStream>, kind: Seq<char>, from: int)
    requires
        0 <= from <= streams.len(),
        forall|i: int| 0 <= i < from ==> opt_text(#[trigger] streams[i].codec_type) != Some(kind),
    ensures
        first_stream(streams, kind, from) matches Some(s) ==> exists|k: int|
            #[trigger] is_first(streams, kind, k) && s == streams[k],
        first_stream(streams, kind, from) is None ==> forall|i: int|
            0 <= i < streams.len() ==> opt_text(#[trigger] streams[i].codec_type) != Some(kind),
    decreases streams.len() - from,
{
    if from < streams.len() {
        if opt_text(streams[from].codec_type) == Some(kind) {
            assert(is_first(streams, kind, from));
        } else {
            lemma_first_stream(streams, kind, from + 1);
        }
    }
}

/// A file is described by its first video stream and its first audio stream; where the video
/// does not say how long it is, the file does.
pub proof fn law_video_is_probed(probe: ProbeOutput, v: int, a: int)
    requires
        is_first(probe.streams@, "video"@, v),
    ensures
        probed_video(probe) is Some,
        ({
            let seen = probed_video(probe)->0;
            let video = probe.streams@[v];
            &&& seen.width == video.width
            &&& seen.height == video.height
            &&& video.duration_secs is Some ==> seen.duration_secs == video.duration_secs
            &&& video.duration_secs is None ==> seen.duration_secs == probe.format_duration_secs
            &&& seen.format_name == text_of(probe.format_name)
            &&& seen.video_codec == text_of(video.codec_name)
            &&& seen.pixel_format == text_of(video.pix_fmt)
            &&& is_first(probe.streams@, "audio"@, a) ==> seen.audio_codec == opt_text(
                probe.streams@[a].codec_name,
            )
        }),
{
    lemma_first_stream(probe.streams@, "video"@, 0);
    lemma_first_stream(probe.streams@, "audio"@, 0);
    assert(opt_text(probe.streams@[v].codec_type) == Some("video"@));
    let s = first_stream(probe.streams@, "video"@, 0)->0;
    let k = choose|k: int| #[trigger] is_first(probe.streams@, "video"@, k) && s == probe.streams@[k];
    lemma_only_first(probe.streams@, "video"@, k, v);
    if is_first(probe.streams@, "audio"@, a) {
        assert(opt_text(probe.streams@[a].codec_type) == Some("audio"@));
        let t = first_stream(probe.streams@, "audio"@, 0)->0;
        let j = choose|j: int|
            #[trigger] is_first(probe.streams@, "audio"@, j) && t == probe.streams@[j];
        lemma_only_first(probe.streams@, "audio"@, j, a);
    }
}

/// Only one stream is the first of its kind.
proof fn lemma_only_first(streams: Seq<ProbeStream>, kind: Seq<char>, i: int, j: int)
    requires
        is_first(streams, kind, i),
        is_first(streams, kind, j),
    ensures
        i == j,
{
    assert(opt_text(streams[i].codec_type) == Some(kind));
    assert(opt_text(streams[j].codec_type) == Some(kind));
}

/// The characters of a text that may be missing.
pub open spec fn text_of(s: Option<String>) -> Seq<char> {
    if s is Some {
        s->0@
    } else {
        seq![]
    }
}

/// Without a stream of a kind there is no video, or no sound.
pub proof fn law_missing_streams(probe: ProbeOutput)
    ensures
        (forall|i: int|
            0 <= i < probe.streams@.len() ==> opt_text(#[trigger] probe.streams@[i].codec_type)
                != Some("video"@)) ==> probed_video(probe) is None,
        (forall|i: int|
            0 <= i < probe.streams@.len() ==> opt_text(#[trigger] probe.streams@[i].codec_type)
                != Some("audio"@)) && probed_video(probe) is Some ==> probed_video(
            probe,
        )->0.audio_codec is None,
{
    lemma_first_stream(probe.streams@, "video"@, 0);
    lemma_first_stream(probe.streams@, "audio"@, 0);
    if first_stream(probe.streams@, "video"@, 0) is Some {
        let s = first_stream(probe.streams@, "video"@, 0)->0;
        let k = choose|k: int|
            #[trigger] is_first(probe.streams@, "video"@, k) && s == probe.streams@[k];
        assert(opt_text(probe.streams@[k].codec_type) == Some("video"@));
    }
    if first_stream(probe.streams@, "audio"@, 0) is Some {
        let s = first_stream(probe.streams@, "audio"@, 0)->0;
        let k = choose|k: int|
            #[trigger] is_first(probe.streams@, "audio"@, k) && s == probe.streams@[k];
        assert(opt_text(probe.streams@[k].codec_type) == Some("audio"@));
    }
}

/// A video is sent as it is where it is H.264 in 4:2:0 with AAC or no sound, in an MP4 file, and
/// its size and duration are known and not zero.
pub proof fn law_video_that_plays(v: VideoView)
    ensures
        plays_in_telegram(v) ==> v.video_codec == "h264"@,
        plays_in_telegram(v) ==> v.pixel_format == "yuv420p"@ || v.pixel_format == "yuvj420p"@,
        plays_in_telegram(v) && v.audio_codec is Some ==> v.audio_codec->0 == "aac"@,
        plays_in_telegram(v) ==> split_parts(v.format_name, ',').contains("mp4"@),
        plays_in_telegram(v) ==> v.width is Some && v.height is Some && v.duration_secs is Some,
        plays_in_telegram(v) ==> v.width->0 > 0 && v.height->0 > 0 && v.duration_secs->0 > 0,
        !plays_in_telegram(v) ==> {
            ||| v.video_codec != "h264"@
            ||| v.pixel_format != "yuv420p"@ && v.pixel_format != "yuvj420p"@
            ||| v.audio_codec is Some && v.audio_codec->0 != "aac"@
            ||| !split_parts(v.format_name, ',').contains("mp4"@)
            ||| v.width is None || v.width->0 == 0
            ||| v.height is None || v.height->0 == 0
            ||| v.duration_secs is None || v.duration_secs->0 == 0
        },
{
}

/// A picture of a video is taken after its first second, or at its beginning.
pub proof fn law_frame_places(attempt: int)
    ensures
        frame_place(0) == Some("00:00:01.000"@),
        frame_place(1) == Some("00:00:00.000"@),
        frame_place(attempt) is Some <==> attempt == 0 || attempt == 1,
{
}

} // verus!
