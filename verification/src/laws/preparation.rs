//! Preparing a medium: what is done to it, one step after another.
use vstd::prelude::*;

use crate::media::prepare::{
    fetch_limit, first_state, is_preview_of, next_of, prepared_item, preview_key, send_limit,
    task_of, thumbnail_limit, PrepareEventView, PrepareFacts, PrepareNextView, PrepareStage,
    PrepareState, PrepareTask,
};
use crate::media::names::preview_name;
use crate::media::video::{plays_in_telegram, VideoView};
use crate::media::{permanent, MediaProcessor, PrepareErrorView};
use crate::model::{MediaItemView, Platform};
use crate::text::{decimal, has_prefix};

verus! {

/// What is to be done with an item follows from what the item says.
pub proof fn law_task_of_item(
    p: MediaProcessor,
    platform: Platform,
    item: MediaItemView,
    original: bool,
)
    ensures
        ({
            let task = task_of(p, platform, item, original);
            &&& task.kind == item.kind
            &&& task.secondary <==> item.secondary_url is Some
            &&& task.ugoira <==> item.kind is Animation && item.secondary_url is Some && has_prefix(
                item.secondary_url->0,
                "ugoira:"@,
            )
            &&& task.youtube <==> platform is YouTube
            &&& task.thumbnail <==> item.thumbnail_url is Some && item.thumbnail_url->0
                != item.source_url
            &&& task.preserve_original == original
            &&& task.max_size == p.max_size
            &&& task.photo_source_max_size == p.photo_source_max_size
        }),
{
}

/// An archive of frames is made into a video, a video of YouTube is fetched by the downloader,
/// and everything else from its address.
pub proof fn law_first_step(task: PrepareTask)
    ensures
        ({
            let state = first_state(task);
            &&& state.stage is Archive <==> task.ugoira
            &&& state.stage is YouTube <==> task.youtube && !task.ugoira
            &&& state.stage is Primary <==> !task.youtube && !task.ugoira
            &&& !state.facts.thumbnail && !state.facts.rendered
            &&& state.facts.photo is None && state.facts.video is None
        }),
{
}

/// Videos and animations may be larger than what is sent, and photos too where a smaller one can
/// be made of them. What is shown as a photo has at most ten megabytes.
pub proof fn law_limits(task: PrepareTask)
    ensures
        ({
            let shown = task.kind is Photo && !task.preserve_original;
            let moving = task.kind is Video || task.kind is Animation;
            &&& moving ==> fetch_limit(task) == 2_000_000_000
            &&& shown ==> fetch_limit(task) == task.photo_source_max_size
            &&& !moving && !shown ==> fetch_limit(task) == task.max_size
            &&& thumbnail_limit(task) <= task.max_size
            &&& thumbnail_limit(task) <= task.photo_source_max_size
            &&& thumbnail_limit(task) == task.max_size || thumbnail_limit(task)
                == task.photo_source_max_size
            &&& shown ==> send_limit(task) == 10 * 1024 * 1024
            &&& !shown ==> send_limit(task) == task.max_size
        }),
{
}

/// What follows, where a step goes on.
pub open spec fn after(
    task: PrepareTask,
    stage: PrepareStage,
    facts: PrepareFacts,
    event: PrepareEventView,
) -> PrepareState {
    next_of(task, PrepareState { stage, facts }, event)->Continue_0
}

/// A fetched file gets its sound, where that is apart, or else its name; then a video is probed, a
/// photo that is shown is measured, and of anything else the size is taken. What is known stays.
pub proof fn law_file_is_fetched(task: PrepareTask, facts: PrepareFacts)
    ensures
        ({
            let shown = task.kind is Photo && !task.preserve_original;
            let done = PrepareEventView::Done;
            let primary = after(task, PrepareStage::Primary, facts, done);
            let named = after(task, PrepareStage::Rename, facts, done);
            &&& primary.stage == if task.secondary {
                PrepareStage::Secondary
            } else {
                PrepareStage::Rename
            }
            &&& primary.facts == facts
            &&& named.stage == if task.kind is Video {
                PrepareStage::Probe
            } else if shown {
                PrepareStage::MeasurePhoto
            } else {
                PrepareStage::MeasureFile
            }
            &&& named.facts == facts
            &&& after(task, PrepareStage::Secondary, facts, done) == named
            &&& after(task, PrepareStage::Archive, facts, done) == named
            &&& after(task, PrepareStage::YouTube, facts, done) == named
        }),
{
}

/// In place of a photo that is too large its smaller picture is fetched, where there is one. Any
/// other failure is the end.
pub proof fn law_smaller_picture(
    task: PrepareTask,
    state: PrepareState,
    error: PrepareErrorView,
)
    ensures
        ({
            let shown = task.kind is Photo && !task.preserve_original;
            let helped = state.stage is Primary && shown && task.thumbnail && permanent(error);
            let next = next_of(task, state, PrepareEventView::Failed(error));
            let fetched = after(task, PrepareStage::Thumbnail, state.facts, PrepareEventView::Done);
            &&& helped ==> next == PrepareNextView::Continue(
                PrepareState { stage: PrepareStage::Thumbnail, facts: state.facts },
            )
            &&& !helped ==> next == PrepareNextView::Failed(error)
            &&& fetched.stage == if task.secondary {
                PrepareStage::Secondary
            } else {
                PrepareStage::Rename
            }
            &&& fetched.facts.thumbnail
            &&& fetched.facts.rendered == state.facts.rendered
            &&& fetched.facts.photo == state.facts.photo
            &&& fetched.facts.video == state.facts.video
        }),
{
}

/// Whether the size and duration of a video are known, and nothing else has changed.
pub open spec fn video_known(facts: PrepareFacts, before: PrepareFacts, v: VideoView) -> bool {
    &&& facts.video == Some((v.width, v.height, v.duration_secs))
    &&& facts.photo == before.photo
    &&& facts.thumbnail == before.thumbnail
    &&& facts.rendered == before.rendered
}

/// A video that does not play in Telegram is converted; the size and duration are those of the
/// file that is sent.
pub proof fn law_video_is_converted(task: PrepareTask, facts: PrepareFacts, v: VideoView)
    ensures
        ({
            let seen = PrepareEventView::Probed(v);
            let done = PrepareEventView::Done;
            let probed = after(task, PrepareStage::Probe, facts, seen);
            let converted = after(task, PrepareStage::ProbeNormalized, facts, seen);
            let smaller = after(task, PrepareStage::ProbeCompressed, facts, seen);
            &&& plays_in_telegram(v) ==> probed.stage is MeasureFile && video_known(
                probed.facts,
                facts,
                v,
            )
            &&& !plays_in_telegram(v) ==> probed.stage is Normalize && probed.facts == facts
            &&& after(task, PrepareStage::Normalize, facts, done).stage is ProbeNormalized
            &&& after(task, PrepareStage::Normalize, facts, done).facts == facts
            &&& converted.stage is MeasureFile && video_known(converted.facts, facts, v)
            &&& smaller.stage is CheckFile && video_known(smaller.facts, facts, v)
        }),
{
}

/// Whether a photo of this size can be shown.
pub open spec fn can_be_shown(width: u32, height: u32, size: u64) -> bool {
    &&& size <= 10 * 1024 * 1024
    &&& 0 < width && 0 < height
    &&& width + height <= 10_000
    &&& width <= 20 * height && height <= 20 * width
}

/// A photo that cannot be shown as it is gets a preview; what is sent is measured once more, and
/// refused where it still cannot be shown.
pub proof fn law_photo_is_made_fit(
    task: PrepareTask,
    facts: PrepareFacts,
    width: u32,
    height: u32,
    size: u64,
)
    ensures
        ({
            let seen = PrepareEventView::Photo { width, height, size };
            let measured = after(task, PrepareStage::MeasurePhoto, facts, seen);
            let rendered = after(task, PrepareStage::RenderPreview, facts, seen);
            let checked = next_of(
                task,
                PrepareState { stage: PrepareStage::CheckPhoto, facts },
                seen,
            );
            &&& measured.stage == if can_be_shown(width, height, size) {
                PrepareStage::CheckPhoto
            } else {
                PrepareStage::RenderPreview
            }
            &&& measured.facts.photo == Some((width, height))
            &&& measured.facts.rendered == facts.rendered
            &&& measured.facts.thumbnail == facts.thumbnail
            &&& rendered.stage is CheckPhoto
            &&& rendered.facts.photo == Some((width, height))
            &&& rendered.facts.rendered
            &&& rendered.facts.thumbnail == facts.thumbnail
            &&& can_be_shown(width, height, size) ==> checked == PrepareNextView::Continue(
                PrepareState { stage: PrepareStage::MeasureFile, facts },
            )
            &&& !can_be_shown(width, height, size) ==> checked is Failed
        }),
{
}

/// A video or an animation that is too large to be sent is made smaller once; a file that is then
/// too large is refused, with its size.
pub proof fn law_file_is_made_fit(task: PrepareTask, facts: PrepareFacts, size: u64)
    ensures
        ({
            let shown = task.kind is Photo && !task.preserve_original;
            let limit: int = if shown {
                10_485_760
            } else {
                task.max_size as int
            };
            let moving = task.kind is Video || task.kind is Animation;
            let measured = after(task, PrepareStage::MeasureFile, facts, PrepareEventView::Size(size));
            let smaller = after(task, PrepareStage::Compress, facts, PrepareEventView::Done);
            let checked = next_of(
                task,
                PrepareState { stage: PrepareStage::CheckFile, facts },
                PrepareEventView::Size(size),
            );
            &&& measured.stage == if moving && size > limit {
                PrepareStage::Compress
            } else {
                PrepareStage::CheckFile
            }
            &&& measured.facts == facts
            &&& smaller.stage == if task.kind is Video {
                PrepareStage::ProbeCompressed
            } else {
                PrepareStage::CheckFile
            }
            &&& smaller.facts == facts
            &&& size <= limit ==> checked == PrepareNextView::Ready(facts)
            &&& size > limit ==> checked == PrepareNextView::Failed(
                PrepareErrorView::Failed(
                    "媒体文件 "@ + decimal(size as nat / 1_048_576) + " MB 超过 Telegram 限制"@,
                ),
            )
        }),
{
    assert((size / 1024 / 1024) as nat == size as nat / 1_048_576);
}

/// A prepared item says of itself what was found out: a rendered preview is a JPEG of its own
/// name, what stands for the original has a key of its own, and the size and duration are those
/// that were measured, where they were.
pub proof fn law_prepared_item(item: MediaItemView, facts: PrepareFacts)
    ensures
        ({
            let p = prepared_item(item, facts);
            let preview = facts.rendered || facts.thumbnail && facts.photo is Some;
            &&& is_preview_of(facts) <==> preview
            &&& p.kind == item.kind
            &&& p.source_url == item.source_url
            &&& p.headers == item.headers
            &&& p.thumbnail_url == item.thumbnail_url
            &&& p.secondary_url == item.secondary_url
            &&& p.fallback_urls == item.fallback_urls
            &&& p.secondary_fallback_urls == item.secondary_fallback_urls
            &&& p.requires_download == item.requires_download
            &&& p.size == item.size
            &&& p.filename == if facts.rendered {
                preview_name(item.filename)
            } else {
                item.filename
            }
            &&& p.mime_type == if facts.rendered {
                Some("image/jpeg"@)
            } else {
                item.mime_type
            }
            &&& p.cache_key == if preview {
                item.cache_key + ":telegram-photo-preview-v1"@
            } else {
                item.cache_key
            }
            &&& facts.photo is None && facts.video is None ==> p.width == item.width && p.height
                == item.height && p.duration_secs == item.duration_secs
        }),
        preview_key(item.cache_key) == item.cache_key + ":telegram-photo-preview-v1"@,
{
}

/// A photo has the size that was measured.
pub proof fn law_prepared_photo(item: MediaItemView, facts: PrepareFacts, width: u32, height: u32)
    requires
        facts.photo == Some((width, height)),
        facts.video is None,
    ensures
        prepared_item(item, facts).width == Some(width),
        prepared_item(item, facts).height == Some(height),
        prepared_item(item, facts).duration_secs == item.duration_secs,
{
}

/// A video has the size and duration that were found, and where one was not, that of the item.
pub proof fn law_prepared_video(
    item: MediaItemView,
    facts: PrepareFacts,
    width: Option<u32>,
    height: Option<u32>,
    duration: Option<u64>,
)
    requires
        facts.photo is None,
        facts.video == Some((width, height, duration)),
    ensures
        prepared_item(item, facts).width == if width is Some {
            width
        } else {
            item.width
        },
        prepared_item(item, facts).height == if height is Some {
            height
        } else {
            item.height
        },
        prepared_item(item, facts).duration_secs == if duration is Some {
            duration
        } else {
            item.duration_secs
        },
{
}

} // verus!
