//! The preparation of a media file, step by step: what is fetched, converted, measured and
//! checked before the file is sent.
use vstd::prelude::*;

use crate::model::{copy_item, MediaItem, MediaItemView, MediaKind, Platform};
use crate::text::{cat2, cat3, cat5, decimal, has_prefix, number_text, same, starts_with};

use super::names::{preview_filename, preview_name};
use super::photo::{photo_fits, telegram_photo_dimensions_valid, TELEGRAM_PHOTO_MAX_SIZE};
use super::video::{plays_in_telegram, video_is_telegram_compatible, VideoMetadata, VideoView};
use super::{
    is_permanent_prepare_error, permanent, MediaProcessor, PrepareError, PrepareErrorView,
    PreparedMedia, LOCAL_MAX_SIZE,
};

verus! {

/// What decides how a media item is prepared.
#[derive(Debug, Clone, Copy, PartialEq, Eq, Structural)]
pub struct PrepareTask {
    pub kind: MediaKind,
    /// The item is an archive of pictures to be made into a video.
    pub ugoira: bool,
    /// The item is fetched by the YouTube downloader.
    pub youtube: bool,
    /// There is a smaller picture at another address.
    pub thumbnail: bool,
    /// The sound is at a second address.
    pub secondary: bool,
    /// The original file is wanted, not a photo that Telegram shows.
    pub preserve_original: bool,
    pub max_size: u64,
    pub photo_source_max_size: u64,
}

/// The task of preparing an item.
pub open spec fn task_of(
    p: MediaProcessor,
    platform: Platform,
    item: MediaItemView,
    preserve_original: bool,
) -> PrepareTask {
    PrepareTask {
        kind: item.kind,
        ugoira: item.kind == MediaKind::Animation && item.secondary_url is Some && has_prefix(
            item.secondary_url->0,
            "ugoira:"@,
        ),
        youtube: platform == Platform::YouTube,
        thumbnail: item.thumbnail_url is Some && item.thumbnail_url->0 != item.source_url,
        secondary: item.secondary_url is Some,
        preserve_original,
        max_size: p.max_size,
        photo_source_max_size: p.photo_source_max_size,
    }
}

/// Whether the item is a photo that Telegram is to show.
pub open spec fn shown_photo(task: PrepareTask) -> bool {
    task.kind == MediaKind::Photo && !task.preserve_original
}

/// The largest file that is fetched. Videos may be larger than what is sent: they can be made
/// smaller.
pub open spec fn fetch_limit(task: PrepareTask) -> u64 {
    match task.kind {
        MediaKind::Video | MediaKind::Animation => LOCAL_MAX_SIZE,
        MediaKind::Photo => if task.preserve_original {
            task.max_size
        } else {
            task.photo_source_max_size
        },
        _ => task.max_size,
    }
}

/// The largest picture that is fetched in place of a photo that is too large.
pub open spec fn thumbnail_limit(task: PrepareTask) -> u64 {
    if task.max_size <= task.photo_source_max_size {
        task.max_size
    } else {
        task.photo_source_max_size
    }
}

/// The largest file that is sent.
pub open spec fn send_limit(task: PrepareTask) -> u64 {
    if shown_photo(task) {
        TELEGRAM_PHOTO_MAX_SIZE
    } else {
        task.max_size
    }
}

/// What is done next.
#[derive(Debug, Clone, Copy, PartialEq, Eq, Structural)]
pub enum PrepareStage {
    /// Fetch the archive and make a video of it.
    Archive,
    /// Let the YouTube downloader fetch the video.
    YouTube,
    /// Fetch the file from its addresses.
    Primary,
    /// Fetch the smaller picture.
    Thumbnail,
    /// Fetch the sound and merge it with the picture.
    Secondary,
    /// Give the fetched file its name.
    Rename,
    /// Look what the video holds.
    Probe,
    /// Convert the video.
    Normalize,
    /// Look what the converted video holds.
    ProbeNormalized,
    /// Measure the photo.
    MeasurePhoto,
    /// Render a preview of the photo.
    RenderPreview,
    /// Measure the photo that is going to be sent.
    CheckPhoto,
    /// Measure the file.
    MeasureFile,
    /// Make the video smaller.
    Compress,
    /// Look what the smaller video holds.
    ProbeCompressed,
    /// Measure the file that is going to be sent.
    CheckFile,
}

/// What was found out on the way.
#[derive(Debug, Clone, Copy, PartialEq, Eq)]
pub struct PrepareFacts {
    /// The smaller picture stands for the photo.
    pub thumbnail: bool,
    /// A preview was rendered.
    pub rendered: bool,
    /// The width and height of the photo.
    pub photo: Option<(u32, u32)>,
    /// The width, height and duration of the video.
    pub video: Option<(Option<u32>, Option<u32>, Option<u64>)>,
}

/// The step to be taken, and what was found out so far.
#[derive(Debug, Clone, Copy, PartialEq, Eq)]
pub struct PrepareState {
    pub stage: PrepareStage,
    pub facts: PrepareFacts,
}

/// What came of a step.
#[derive(Debug)]
pub enum PrepareEvent {
    Done,
    Failed(PrepareError),
    Probed(VideoMetadata),
    /// The size of a picture and of its file.
    Photo { width: u32, height: u32, size: u64 },
    /// The size of a file.
    Size(u64),
}

/// What came of a step, as plain values.
pub enum PrepareEventView {
    Done,
    Failed(PrepareErrorView),
    Probed(VideoView),
    Photo { width: u32, height: u32, size: u64 },
    Size(u64),
}

impl View for PrepareEvent {
    type V = PrepareEventView;

    open spec fn view(&self) -> PrepareEventView {
        match self {
            PrepareEvent::Done => PrepareEventView::Done,
            PrepareEvent::Failed(error) => PrepareEventView::Failed(error@),
            PrepareEvent::Probed(metadata) => PrepareEventView::Probed(metadata@),
            PrepareEvent::Photo { width, height, size } => PrepareEventView::Photo {
                width: *width,
                height: *height,
                size: *size,
            },
            PrepareEvent::Size(size) => PrepareEventView::Size(*size),
        }
    }
}

/// What follows a step.
#[derive(Debug)]
pub enum PrepareNext {
    Continue(PrepareState),
    Ready(PrepareFacts),
    Failed(PrepareError),
}

/// What follows a step, as plain values.
pub enum PrepareNextView {
    Continue(PrepareState),
    Ready(PrepareFacts),
    Failed(PrepareErrorView),
}

impl View for PrepareNext {
    type V = PrepareNextView;

    open spec fn view(&self) -> PrepareNextView {
        match self {
            PrepareNext::Continue(state) => PrepareNextView::Continue(*state),
            PrepareNext::Ready(facts) => PrepareNextView::Ready(*facts),
            PrepareNext::Failed(error) => PrepareNextView::Failed(error@),
        }
    }
}

/// Nothing was found out yet.
pub open spec fn no_facts() -> PrepareFacts {
    PrepareFacts { thumbnail: false, rendered: false, photo: None, video: None }
}

/// The first step.
pub open spec fn first_state(task: PrepareTask) -> PrepareState {
    PrepareState {
        stage: if task.ugoira {
            PrepareStage::Archive
        } else if task.youtube {
            PrepareStage::YouTube
        } else {
            PrepareStage::Primary
        },
        facts: no_facts(),
    }
}

/// The step after the file is there under its name.
pub open spec fn fetched(task: PrepareTask, facts: PrepareFacts) -> PrepareState {
    PrepareState {
        stage: if task.kind == MediaKind::Video {
            PrepareStage::Probe
        } else if shown_photo(task) {
            PrepareStage::MeasurePhoto
        } else {
            PrepareStage::MeasureFile
        },
        facts,
    }
}

/// The step after the first address gave a file.
pub open spec fn primary_fetched(task: PrepareTask, facts: PrepareFacts) -> PrepareState {
    PrepareState {
        stage: if task.secondary {
            PrepareStage::Secondary
        } else {
            PrepareStage::Rename
        },
        facts,
    }
}

/// What is remembered of a video.
pub open spec fn video_facts(v: VideoView) -> (Option<u32>, Option<u32>, Option<u64>) {
    (v.width, v.height, v.duration_secs)
}

/// Whether Telegram takes a photo file.
pub open spec fn photo_file_fits(width: u32, height: u32, size: u64) -> bool {
    size <= TELEGRAM_PHOTO_MAX_SIZE && photo_fits(width as int, height as int)
}

/// What follows a step. An event that does not belong to the step leaves it to be taken.
pub open spec fn next_of(
    task: PrepareTask,
    state: PrepareState,
    event: PrepareEventView,
) -> PrepareNextView {
    let facts = state.facts;
    match event {
        PrepareEventView::Failed(error) => if state.stage == PrepareStage::Primary && shown_photo(
            task,
        ) && permanent(error) && task.thumbnail {
            PrepareNextView::Continue(PrepareState { stage: PrepareStage::Thumbnail, facts })
        } else {
            PrepareNextView::Failed(error)
        },
        PrepareEventView::Done => match state.stage {
            PrepareStage::Archive | PrepareStage::YouTube | PrepareStage::Secondary
            | PrepareStage::Rename => PrepareNextView::Continue(fetched(task, facts)),
            PrepareStage::Primary => PrepareNextView::Continue(primary_fetched(task, facts)),
            PrepareStage::Thumbnail => PrepareNextView::Continue(
                primary_fetched(task, PrepareFacts { thumbnail: true, ..facts }),
            ),
            PrepareStage::Normalize => PrepareNextView::Continue(
                PrepareState { stage: PrepareStage::ProbeNormalized, facts },
            ),
            PrepareStage::Compress => PrepareNextView::Continue(
                PrepareState {
                    stage: if task.kind == MediaKind::Video {
                        PrepareStage::ProbeCompressed
                    } else {
                        PrepareStage::CheckFile
                    },
                    facts,
                },
            ),
            _ => PrepareNextView::Continue(state),
        },
        PrepareEventView::Probed(v) => {
            let known = PrepareFacts { video: Some(video_facts(v)), ..facts };
            match state.stage {
                PrepareStage::Probe => PrepareNextView::Continue(
                    if plays_in_telegram(v) {
                        PrepareState { stage: PrepareStage::MeasureFile, facts: known }
                    } else {
                        PrepareState { stage: PrepareStage::Normalize, facts }
                    },
                ),
                PrepareStage::ProbeNormalized => PrepareNextView::Continue(
                    PrepareState { stage: PrepareStage::MeasureFile, facts: known },
                ),
                PrepareStage::ProbeCompressed => PrepareNextView::Continue(
                    PrepareState { stage: PrepareStage::CheckFile, facts: known },
                ),
                _ => PrepareNextView::Continue(state),
            }
        },
        PrepareEventView::Photo { width, height, size } => match state.stage {
            PrepareStage::MeasurePhoto => PrepareNextView::Continue(
                PrepareState {
                    stage: if photo_file_fits(width, height, size) {
                        PrepareStage::CheckPhoto
                    } else {
                        PrepareStage::RenderPreview
                    },
                    facts: PrepareFacts { photo: Some((width, height)), ..facts },
                },
            ),
            PrepareStage::RenderPreview => PrepareNextView::Continue(
                PrepareState {
                    stage: PrepareStage::CheckPhoto,
                    facts: PrepareFacts { rendered: true, photo: Some((width, height)), ..facts },
                },
            ),
            PrepareStage::CheckPhoto => if photo_file_fits(width, height, size) {
                PrepareNextView::Continue(
                    PrepareState { stage: PrepareStage::MeasureFile, facts },
                )
            } else {
                PrepareNextView::Failed(
                    PrepareErrorView::Failed(
                        "图片预览仍不符合 Telegram 限制："@ + decimal(width as nat) + "x"@ + decimal(
                            height as nat,
                        ) + "，"@ + decimal((size / 1024 / 1024) as nat) + "MB"@,
                    ),
                )
            },
            _ => PrepareNextView::Continue(state),
        },
        PrepareEventView::Size(size) => match state.stage {
            PrepareStage::MeasureFile => PrepareNextView::Continue(
                PrepareState {
                    stage: if size > send_limit(task) && (task.kind == MediaKind::Video || task.kind
                        == MediaKind::Animation) {
                        PrepareStage::Compress
                    } else {
                        PrepareStage::CheckFile
                    },
                    facts,
                },
            ),
            PrepareStage::CheckFile => if size > send_limit(task) {
                PrepareNextView::Failed(
                    PrepareErrorView::Failed(
                        "媒体文件 "@ + decimal((size / 1024 / 1024) as nat)
                            + " MB 超过 Telegram 限制"@,
                    ),
                )
            } else {
                PrepareNextView::Ready(facts)
            },
            _ => PrepareNextView::Continue(state),
        },
    }
}

/// How far the preparation is.
pub open spec fn progress(stage: PrepareStage) -> int {
    match stage {
        PrepareStage::Archive => 0,
        PrepareStage::YouTube => 0,
        PrepareStage::Primary => 0,
        PrepareStage::Thumbnail => 1,
        PrepareStage::Secondary => 2,
        PrepareStage::Rename => 2,
        PrepareStage::Probe => 3,
        PrepareStage::Normalize => 4,
        PrepareStage::ProbeNormalized => 5,
        PrepareStage::MeasurePhoto => 3,
        PrepareStage::RenderPreview => 4,
        PrepareStage::CheckPhoto => 5,
        PrepareStage::MeasureFile => 6,
        PrepareStage::Compress => 7,
        PrepareStage::ProbeCompressed => 8,
        PrepareStage::CheckFile => 9,
    }
}

/// The preparation always comes to an end: every step that does anything is followed by a later
/// one, so that no step is taken twice.
pub proof fn law_preparation_advances(
    task: PrepareTask,
    state: PrepareState,
    event: PrepareEventView,
)
    ensures
        next_of(task, state, event) matches PrepareNextView::Continue(next) ==> next == state
            || progress(state.stage) < progress(next.stage) <= 9,
{
}

/// A file is ready only after it was measured and found within the limit; a file that is larger
/// is never sent.
pub proof fn law_ready_file_fits(task: PrepareTask, state: PrepareState, event: PrepareEventView)
    ensures
        next_of(task, state, event) is Ready <==> {
            &&& state.stage == PrepareStage::CheckFile
            &&& event matches PrepareEventView::Size(size)
            &&& size <= send_limit(task)
        },
{
}

/// A photo that Telegram is to show goes on to be sent only after the picture that is going to
/// be sent was measured, and Telegram takes its size.
pub proof fn law_shown_photo_fits(
    task: PrepareTask,
    state: PrepareState,
    event: PrepareEventView,
    next: PrepareState,
)
    requires
        consistent(task, state),
        shown_photo(task),
        next_of(task, state, event) == PrepareNextView::Continue(next),
        progress(state.stage) < 6 <= progress(next.stage),
    ensures
        state.stage == PrepareStage::CheckPhoto,
        event matches PrepareEventView::Photo { width, height, size } && photo_file_fits(
            width,
            height,
            size,
        ),
{
}

/// What the states of a preparation have in common: the facts that the stage rests on.
pub open spec fn consistent(task: PrepareTask, state: PrepareState) -> bool {
    let stage = state.stage;
    let facts = state.facts;
    &&& facts.thumbnail ==> shown_photo(task) && task.thumbnail
    &&& facts.rendered ==> shown_photo(task)
    &&& facts.photo is Some ==> shown_photo(task)
    &&& facts.video is Some ==> task.kind == MediaKind::Video
    &&& stage == PrepareStage::Thumbnail ==> shown_photo(task) && task.thumbnail
    &&& progress(stage) < 3 ==> !facts.rendered && facts.photo is None && facts.video is None
    &&& (stage == PrepareStage::Probe || stage == PrepareStage::Normalize || stage
        == PrepareStage::ProbeNormalized || stage == PrepareStage::ProbeCompressed) ==> task.kind
        == MediaKind::Video
    &&& (stage == PrepareStage::MeasurePhoto || stage == PrepareStage::RenderPreview || stage
        == PrepareStage::CheckPhoto) ==> shown_photo(task)
    &&& stage == PrepareStage::Compress ==> task.kind == MediaKind::Video || task.kind
        == MediaKind::Animation
    &&& (stage == PrepareStage::CheckPhoto || progress(stage) >= 6) && shown_photo(task)
        ==> facts.photo is Some
    &&& (progress(stage) >= 6 && task.kind == MediaKind::Video) ==> facts.video is Some
}

/// Every preparation starts consistent and stays so. What is ready is a video that was probed, a
/// photo that was measured, or a file of another kind.
pub proof fn law_preparation_consistent(
    task: PrepareTask,
    state: PrepareState,
    event: PrepareEventView,
)
    requires
        consistent(task, state),
    ensures
        consistent(task, first_state(task)),
        next_of(task, state, event) matches PrepareNextView::Continue(next) ==> consistent(
            task,
            next,
        ),
        next_of(task, state, event) matches PrepareNextView::Ready(facts) ==> {
            &&& shown_photo(task) <==> facts.photo is Some
            &&& task.kind == MediaKind::Video <==> facts.video is Some
        },
{
}

impl MediaProcessor {
    fn prepare_task(&self, platform: Platform, item: &MediaItem, preserve_original: bool) -> (r:
        PrepareTask)
        ensures
            r == task_of(*self, platform, item@, preserve_original),
    {
        let ugoira = item.kind == MediaKind::Animation && (match &item.secondary_url {
            Some(url) => starts_with(url.as_str(), "ugoira:"),
            None => false,
        });
        let thumbnail = match &item.thumbnail_url {
            Some(url) => !same(url.as_str(), item.source_url.as_str()),
            None => false,
        };
        PrepareTask {
            kind: item.kind,
            ugoira,
            youtube: platform == Platform::YouTube,
            thumbnail,
            secondary: item.secondary_url.is_some(),
            preserve_original,
            max_size: self.max_size,
            photo_source_max_size: self.photo_source_max_size,
        }
    }

    /// The task of preparing an item as Telegram shows it.
    pub fn prepare(&self, platform: Platform, item: &MediaItem) -> (r: PrepareTask)
        ensures
            r == task_of(*self, platform, item@, false),
    {
        self.prepare_task(platform, item, false)
    }

    /// The task of preparing an item as it is, for a file.
    pub fn prepare_original(&self, platform: Platform, item: &MediaItem) -> (r: PrepareTask)
        ensures
            r == task_of(*self, platform, item@, true),
    {
        self.prepare_task(platform, item, true)
    }
}

impl PrepareTask {
    /// The largest file that is fetched.
    pub fn download_limit(&self) -> (r: u64)
        ensures
            r == fetch_limit(*self),
    {
        match self.kind {
            MediaKind::Video | MediaKind::Animation => LOCAL_MAX_SIZE,
            MediaKind::Photo => if self.preserve_original {
                self.max_size
            } else {
                self.photo_source_max_size
            },
            _ => self.max_size,
        }
    }

    /// The largest picture that is fetched in place of a photo.
    pub fn thumbnail_download_limit(&self) -> (r: u64)
        ensures
            r == thumbnail_limit(*self),
    {
        if self.max_size <= self.photo_source_max_size {
            self.max_size
        } else {
            self.photo_source_max_size
        }
    }

    fn photo(&self) -> (r: bool)
        ensures
            r == shown_photo(*self),
    {
        self.kind == MediaKind::Photo && !self.preserve_original
    }

    fn item_limit(&self) -> (r: u64)
        ensures
            r == send_limit(*self),
    {
        if self.photo() {
            TELEGRAM_PHOTO_MAX_SIZE
        } else {
            self.max_size
        }
    }

    /// The first step.
    pub fn start(&self) -> (r: PrepareState)
        ensures
            r == first_state(*self),
            consistent(*self, r),
    {
        PrepareState {
            stage: if self.ugoira {
                PrepareStage::Archive
            } else if self.youtube {
                PrepareStage::YouTube
            } else {
                PrepareStage::Primary
            },
            facts: PrepareFacts { thumbnail: false, rendered: false, photo: None, video: None },
        }
    }

    fn after_fetch(&self, facts: PrepareFacts) -> (r: PrepareState)
        ensures
            r == fetched(*self, facts),
    {
        PrepareState {
            stage: if self.kind == MediaKind::Video {
                PrepareStage::Probe
            } else if self.photo() {
                PrepareStage::MeasurePhoto
            } else {
                PrepareStage::MeasureFile
            },
            facts,
        }
    }

    fn after_primary(&self, facts: PrepareFacts) -> (r: PrepareState)
        ensures
            r == primary_fetched(*self, facts),
    {
        PrepareState {
            stage: if self.secondary {
                PrepareStage::Secondary
            } else {
                PrepareStage::Rename
            },
            facts,
        }
    }

    fn on_done(&self, state: PrepareState) -> (r: PrepareState)
        ensures
            next_of(*self, state, PrepareEventView::Done) == PrepareNextView::Continue(r),
    {
        let facts = state.facts;
        match state.stage {
            PrepareStage::Archive | PrepareStage::YouTube | PrepareStage::Secondary
            | PrepareStage::Rename => self.after_fetch(facts),
            PrepareStage::Primary => self.after_primary(facts),
            PrepareStage::Thumbnail => self.after_primary(
                PrepareFacts {
                    thumbnail: true,
                    rendered: facts.rendered,
                    photo: facts.photo,
                    video: facts.video,
                },
            ),
            PrepareStage::Normalize => PrepareState {
                stage: PrepareStage::ProbeNormalized,
                facts,
            },
            PrepareStage::Compress => PrepareState {
                stage: if self.kind == MediaKind::Video {
                    PrepareStage::ProbeCompressed
                } else {
                    PrepareStage::CheckFile
                },
                facts,
            },
            _ => state,
        }
    }

    fn on_probed(&self, state: PrepareState, metadata: &VideoMetadata) -> (r: PrepareState)
        ensures
            next_of(*self, state, PrepareEventView::Probed(metadata@))
                == PrepareNextView::Continue(r),
    {
        let facts = state.facts;
        let known = PrepareFacts {
            thumbnail: facts.thumbnail,
            rendered: facts.rendered,
            photo: facts.photo,
            video: Some((metadata.width, metadata.height, metadata.duration_secs)),
        };
        match state.stage {
            PrepareStage::Probe => if video_is_telegram_compatible(metadata) {
                PrepareState { stage: PrepareStage::MeasureFile, facts: known }
            } else {
                PrepareState { stage: PrepareStage::Normalize, facts }
            },
            PrepareStage::ProbeNormalized => PrepareState {
                stage: PrepareStage::MeasureFile,
                facts: known,
            },
            PrepareStage::ProbeCompressed => PrepareState {
                stage: PrepareStage::CheckFile,
                facts: known,
            },
            _ => state,
        }
    }

    fn on_photo(&self, state: PrepareState, width: u32, height: u32, size: u64) -> (r: PrepareNext)
        ensures
            r@ == next_of(*self, state, PrepareEventView::Photo { width, height, size }),
    {
        let facts = state.facts;
        let fits = size <= TELEGRAM_PHOTO_MAX_SIZE && telegram_photo_dimensions_valid(
            width,
            height,
        );
        match state.stage {
            PrepareStage::MeasurePhoto => PrepareNext::Continue(
                PrepareState {
                    stage: if fits {
                        PrepareStage::CheckPhoto
                    } else {
                        PrepareStage::RenderPreview
                    },
                    facts: PrepareFacts {
                        thumbnail: facts.thumbnail,
                        rendered: facts.rendered,
                        photo: Some((width, height)),
                        video: facts.video,
                    },
                },
            ),
            PrepareStage::RenderPreview => PrepareNext::Continue(
                PrepareState {
                    stage: PrepareStage::CheckPhoto,
                    facts: PrepareFacts {
                        thumbnail: facts.thumbnail,
                        rendered: true,
                        photo: Some((width, height)),
                        video: facts.video,
                    },
                },
            ),
            PrepareStage::CheckPhoto => if fits {
                PrepareNext::Continue(PrepareState { stage: PrepareStage::MeasureFile, facts })
            } else {
                let mut message = cat5(
                    "图片预览仍不符合 Telegram 限制：",
                    number_text(width as u64).as_str(),
                    "x",
                    number_text(height as u64).as_str(),
                    "，",
                );
                message.append(number_text(size / 1024 / 1024).as_str());
                message.append("MB");
                PrepareNext::Failed(PrepareError::Failed(message))
            },
            _ => PrepareNext::Continue(state),
        }
    }

    fn on_size(&self, state: PrepareState, size: u64) -> (r: PrepareNext)
        ensures
            r@ == next_of(*self, state, PrepareEventView::Size(size)),
    {
        match state.stage {
            PrepareStage::MeasureFile => PrepareNext::Continue(
                PrepareState {
                    stage: if size > self.item_limit() && (self.kind == MediaKind::Video
                        || self.kind == MediaKind::Animation) {
                        PrepareStage::Compress
                    } else {
                        PrepareStage::CheckFile
                    },
                    facts: state.facts,
                },
            ),
            PrepareStage::CheckFile => if size > self.item_limit() {
                PrepareNext::Failed(
                    PrepareError::Failed(
                        cat3(
                            "媒体文件 ",
                            number_text(size / 1024 / 1024).as_str(),
                            " MB 超过 Telegram 限制",
                        ),
                    ),
                )
            } else {
                PrepareNext::Ready(state.facts)
            },
            _ => PrepareNext::Continue(state),
        }
    }

    /// Decides what follows a step.
    pub fn next(&self, state: PrepareState, event: PrepareEvent) -> (r: PrepareNext)
        ensures
            r@ == next_of(*self, state, event@),
            consistent(*self, state) ==> (r matches PrepareNext::Continue(next) ==> consistent(
                *self,
                next,
            )),
    {
        match event {
            PrepareEvent::Failed(error) => {
                if state.stage == PrepareStage::Primary && self.photo()
                    && is_permanent_prepare_error(&error) && self.thumbnail {
                    PrepareNext::Continue(
                        PrepareState { stage: PrepareStage::Thumbnail, facts: state.facts },
                    )
                } else {
                    PrepareNext::Failed(error)
                }
            },
            PrepareEvent::Done => PrepareNext::Continue(self.on_done(state)),
            PrepareEvent::Probed(metadata) => PrepareNext::Continue(
                self.on_probed(state, &metadata),
            ),
            PrepareEvent::Photo { width, height, size } => self.on_photo(
                state,
                width,
                height,
                size,
            ),
            PrepareEvent::Size(size) => self.on_size(state, size),
        }
    }
}

/// The key of the preview of a photo.
pub open spec fn preview_key(cache_key: Seq<char>) -> Seq<char> {
    cache_key + ":telegram-photo-preview-v1"@
}

/// Whether what is sent is a preview of the photo.
pub open spec fn is_preview_of(facts: PrepareFacts) -> bool {
    facts.rendered || (facts.photo is Some && facts.thumbnail)
}

/// The first of two values that there is.
pub open spec fn either_number<T>(first: Option<T>, second: Option<T>) -> Option<T> {
    if first is Some {
        first
    } else {
        second
    }
}

/// The item as it is sent: with the measured size, and as a JPEG under a key of its own where a
/// preview stands for the photo.
pub open spec fn prepared_item(item: MediaItemView, facts: PrepareFacts) -> MediaItemView {
    MediaItemView {
        filename: if facts.rendered {
            preview_name(item.filename)
        } else {
            item.filename
        },
        mime_type: if facts.rendered {
            Some("image/jpeg"@)
        } else {
            item.mime_type
        },
        cache_key: if is_preview_of(facts) {
            preview_key(item.cache_key)
        } else {
            item.cache_key
        },
        width: match facts.video {
            Some(v) => either_number(v.0, photo_width(item, facts)),
            None => photo_width(item, facts),
        },
        height: match facts.video {
            Some(v) => either_number(v.1, photo_height(item, facts)),
            None => photo_height(item, facts),
        },
        duration_secs: match facts.video {
            Some(v) => either_number(v.2, item.duration_secs),
            None => item.duration_secs,
        },
        ..item
    }
}

pub open spec fn photo_width(item: MediaItemView, facts: PrepareFacts) -> Option<u32> {
    match facts.photo {
        Some(p) => Some(p.0),
        None => item.width,
    }
}

pub open spec fn photo_height(item: MediaItemView, facts: PrepareFacts) -> Option<u32> {
    match facts.photo {
        Some(p) => Some(p.1),
        None => item.height,
    }
}

/// The media as it is sent from the file at `path`.
pub fn finish(item: &MediaItem, facts: PrepareFacts, path: String) -> (r: PreparedMedia)
    ensures
        r.item@ == prepared_item(item@, facts),
        r.path@ == path@,
        r.is_preview == is_preview_of(facts),
{
    let mut prepared = copy_item(item);
    let is_preview = facts.rendered || (facts.photo.is_some() && facts.thumbnail);
    if facts.rendered {
        prepared.filename = preview_filename(item.filename.as_str());
        prepared.mime_type = Some("image/jpeg".to_owned());
    }
    if is_preview {
        prepared.cache_key = cat2(item.cache_key.as_str(), ":telegram-photo-preview-v1");
    }
    match facts.photo {
        Some(p) => {
            prepared.width = Some(p.0);
            prepared.height = Some(p.1);
        },
        None => {},
    }
    match facts.video {
        Some(v) => {
            if v.0.is_some() {
                prepared.width = v.0;
            }
            if v.1.is_some() {
                prepared.height = v.1;
            }
            if v.2.is_some() {
                prepared.duration_secs = v.2;
            }
        },
        None => {},
    }
    PreparedMedia { item: prepared, path, is_preview }
}

} // verus!
