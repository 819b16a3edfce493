//! Media files: what they are allowed to be, how they are fetched, and how they are made fit to
//! be sent.
pub mod download;
pub mod names;
pub mod photo;
pub mod prepare;
pub mod video;

pub use photo::telegram_photo_dimensions_valid;

use vstd::prelude::*;

use crate::config::Config;
use crate::model::MediaItem;
use crate::text::{cat3, decimal, number_text};

verus! {

/// Why a media file could not be prepared.
#[derive(Debug)]
pub enum PrepareError {
    /// The file is larger than allowed.
    TooLarge { max_size: u64 },
    Failed(String),
    /// What was being done when something else went wrong.
    Context { message: String, source: Box<PrepareError> },
}

/// An error with its texts as plain characters.
pub enum PrepareErrorView {
    TooLarge { max_size: u64 },
    Failed(Seq<char>),
    Context { message: Seq<char>, source: Box<PrepareErrorView> },
}

/// The error as plain characters.
pub open spec fn error_view(error: PrepareError) -> PrepareErrorView
    decreases error,
{
    match error {
        PrepareError::TooLarge { max_size } => PrepareErrorView::TooLarge { max_size },
        PrepareError::Failed(message) => PrepareErrorView::Failed(message@),
        PrepareError::Context { message, source } => PrepareErrorView::Context {
            message: message@,
            source: Box::new(error_view(*source)),
        },
    }
}

impl View for PrepareError {
    type V = PrepareErrorView;

    open spec fn view(&self) -> PrepareErrorView {
        error_view(*self)
    }
}

/// Whether the error, or one that it comes from, is that the file is too large.
pub open spec fn permanent(error: PrepareErrorView) -> bool
    decreases error,
{
    match error {
        PrepareErrorView::TooLarge { .. } => true,
        PrepareErrorView::Failed(_) => false,
        PrepareErrorView::Context { source, .. } => permanent(*source),
    }
}

/// Whether a fresh address cannot help: the file is larger than what can be sent.
pub fn is_permanent_prepare_error(error: &PrepareError) -> (r: bool)
    ensures
        r == permanent(error@),
    decreases error,
{
    match error {
        PrepareError::TooLarge { .. } => true,
        PrepareError::Failed(_) => false,
        PrepareError::Context { source, .. } => is_permanent_prepare_error(source),
    }
}

/// The message of an error: the outermost one.
pub open spec fn error_message(error: PrepareErrorView) -> Seq<char> {
    match error {
        PrepareErrorView::TooLarge { max_size } => "媒体超过 "@ + decimal(
            (max_size / 1024 / 1024) as nat,
        ) + "MB 上传限制"@,
        PrepareErrorView::Failed(message) => message,
        PrepareErrorView::Context { message, .. } => message,
    }
}

impl PrepareError {
    pub fn message(&self) -> (r: String)
        ensures
            r@ == error_message(self@),
    {
        match self {
            PrepareError::TooLarge { max_size } => cat3(
                "媒体超过 ",
                number_text(*max_size / 1024 / 1024).as_str(),
                "MB 上传限制",
            ),
            PrepareError::Failed(message) => message.clone(),
            PrepareError::Context { message, .. } => message.clone(),
        }
    }
}

/// A media file that is ready to be sent.
#[derive(Debug)]
pub struct PreparedMedia {
    pub item: MediaItem,
    pub path: String,
    pub is_preview: bool,
}

/// The largest file that a local Bot API server takes.
pub const LOCAL_MAX_SIZE: u64 = 2_000_000_000;

/// The largest file that the public Bot API takes.
pub const PUBLIC_MAX_SIZE: u64 = 52_428_800;

/// The largest file that can be sent.
pub open spec fn upload_limit(local_bot_api: bool) -> u64 {
    if local_bot_api {
        LOCAL_MAX_SIZE
    } else {
        PUBLIC_MAX_SIZE
    }
}

/// A number of megabytes in bytes, as far as the type reaches.
pub open spec fn megabytes(n: u64) -> u64 {
    if n * 1_048_576 <= u64::MAX {
        (n * 1_048_576) as u64
    } else {
        u64::MAX
    }
}

/// The limits under which media are prepared.
#[derive(Debug, Clone)]
pub struct MediaProcessor {
    pub max_size: u64,
    pub photo_source_max_size: u64,
    pub download_retries: usize,
    /// How many files are prepared at one time.
    pub workers: usize,
}

impl MediaProcessor {
    pub fn new(config: &Config) -> (r: MediaProcessor)
        ensures
            r.max_size == upload_limit(config.local_bot_api),
            r.photo_source_max_size == megabytes(config.media_photo_source_max_size_mb),
            r.download_retries == config.media_download_retries,
            r.workers == (if config.upload_workers > 0 {
                config.upload_workers
            } else {
                1
            }),
    {
        let mb: u64 = config.media_photo_source_max_size_mb;
        MediaProcessor {
            max_size: if config.local_bot_api {
                LOCAL_MAX_SIZE
            } else {
                PUBLIC_MAX_SIZE
            },
            photo_source_max_size: match mb.checked_mul(1_048_576) {
                Some(n) => n,
                None => u64::MAX,
            },
            download_retries: config.media_download_retries,
            workers: if config.upload_workers > 0 {
                config.upload_workers
            } else {
                1
            },
        }
    }

    pub fn max_size(&self) -> (r: u64)
        ensures
            r == self.max_size,
    {
        self.max_size
    }

    /// The largest picture that is fetched for a thumbnail.
    pub fn cover_download_limit(&self) -> (r: u64)
        ensures
            r == (if self.max_size <= PUBLIC_MAX_SIZE {
                self.max_size
            } else {
                PUBLIC_MAX_SIZE
            }),
    {
        if self.max_size <= PUBLIC_MAX_SIZE {
            self.max_size
        } else {
            PUBLIC_MAX_SIZE
        }
    }
}

} // verus!
