//! The sizes that photos may have, and the previews that are rendered where a photo is larger.
use vstd::prelude::*;

use crate::text::{cat4, cat5, decimal, number_text};

use super::{PrepareError, PrepareErrorView};

verus! {

/// The largest photo file that Telegram takes.
pub const TELEGRAM_PHOTO_MAX_SIZE: u64 = 10_485_760;

/// The largest file that a rendered preview may have.
pub const TELEGRAM_PHOTO_PREVIEW_TARGET_SIZE: u64 = 9_437_184;

/// The longest edge of the first preview that is tried.
pub const TELEGRAM_PHOTO_PREVIEW_MAX_EDGE: u32 = 4096;

/// How many times longer than the other an edge of a preview may be.
pub const TELEGRAM_PHOTO_PREVIEW_MAX_RATIO: u32 = 19;

/// The largest thumbnail file that Telegram takes.
pub const THUMBNAIL_MAX_SIZE: u64 = 204_800;

pub open spec fn max_int(a: int, b: int) -> int {
    if a >= b {
        a
    } else {
        b
    }
}

pub open spec fn min_int(a: int, b: int) -> int {
    if a <= b {
        a
    } else {
        b
    }
}

/// Whether Telegram takes a photo of this size: width and height together are at most 10000,
/// and neither is more than twenty times the other.
pub open spec fn photo_fits(width: int, height: int) -> bool {
    &&& width > 0
    &&& height > 0
    &&& width + height <= 10_000
    &&& max_int(width, height) <= min_int(width, height) * 20
}

pub fn telegram_photo_dimensions_valid(width: u32, height: u32) -> (r: bool)
    ensures
        r == photo_fits(width as int, height as int),
{
    let longest: u64 = if width >= height {
        width as u64
    } else {
        height as u64
    };
    let shortest: u64 = if width >= height {
        height as u64
    } else {
        width as u64
    };
    width > 0 && height > 0 && longest + shortest <= 10_000 && longest <= shortest * 20
}

/// Whether Telegram takes a thumbnail file of this size.
pub fn thumbnail_size_valid(size: u64) -> (r: bool)
    ensures
        r == (size <= THUMBNAIL_MAX_SIZE),
{
    size <= THUMBNAIL_MAX_SIZE
}

/// An edge after the longest edge was brought down to `max_edge`.
pub open spec fn scaled_edge(edge: int, longest: int, max_edge: int) -> int {
    if longest > max_edge {
        max_int(edge * max_edge / longest, 1)
    } else {
        edge
    }
}

/// The quotient, rounded up.
pub open spec fn ceil_div(n: int, d: int) -> int {
    (n + d - 1) / d
}

/// The picture after scaling, and the canvas on which it is centred: a side is widened where
/// the other is more than nineteen times as long.
pub open spec fn preview_dimensions(width: int, height: int, max_edge: int) -> (int, int, int, int) {
    let longest = max_int(width, height);
    let w = scaled_edge(width, longest, max_edge);
    let h = scaled_edge(height, longest, max_edge);
    if h > w * 19 {
        (w, h, ceil_div(h, 19), h)
    } else if w > h * 19 {
        (w, h, w, ceil_div(w, 19))
    } else {
        (w, h, w, h)
    }
}

/// A scaled edge lies between one and the largest edge.
proof fn lemma_scaled_edge(edge: int, longest: int, max_edge: int)
    requires
        0 < edge <= longest,
        0 < max_edge,
    ensures
        0 < scaled_edge(edge, longest, max_edge),
        scaled_edge(edge, longest, max_edge) <= max_edge,
        edge == longest && longest > max_edge ==> scaled_edge(edge, longest, max_edge) == max_edge,
{
    if longest > max_edge {
        assert(edge * max_edge / longest <= max_edge) by (nonlinear_arith)
            requires
                0 < edge <= longest,
                0 < max_edge,
        ;
        if edge == longest {
            assert(longest * max_edge / longest == max_edge) by (nonlinear_arith)
                requires
                    0 < longest,
            ;
        }
    }
}

/// Telegram takes every preview of a photo whose longest edge is at most 5000: the canvas holds
/// the scaled picture, no edge is longer than the limit, and neither is more than nineteen
/// times the other.
pub proof fn law_preview_fits(width: int, height: int, max_edge: int)
    requires
        0 < width,
        0 < height,
        0 < max_edge,
    ensures
        ({
            let p = preview_dimensions(width, height, max_edge);
            &&& 0 < p.0 <= p.2 <= max_edge
            &&& 0 < p.1 <= p.3 <= max_edge
            &&& max_int(p.2, p.3) <= min_int(p.2, p.3) * 19
            &&& max_edge <= 5000 ==> photo_fits(p.2, p.3)
        }),
{
    let longest = max_int(width, height);
    lemma_scaled_edge(width, longest, max_edge);
    lemma_scaled_edge(height, longest, max_edge);
}

pub fn photo_preview_dimensions(width: u32, height: u32, max_edge: u32) -> (r: Result<
    (u32, u32, u32, u32),
    PrepareError,
>)
    ensures
        match r {
            Ok(p) => {
                &&& width > 0 && height > 0 && max_edge > 0
                &&& (p.0 as int, p.1 as int, p.2 as int, p.3 as int) == preview_dimensions(
                    width as int,
                    height as int,
                    max_edge as int,
                )
            },
            Err(error) => {
                &&& width == 0 || height == 0 || max_edge == 0
                &&& error@ == PrepareErrorView::Failed(
                    "图片尺寸无效："@ + decimal(width as nat) + "x"@ + decimal(height as nat),
                )
            },
        },
{
    if width == 0 || height == 0 || max_edge == 0 {
        return Err(
            PrepareError::Failed(
                cat4(
                    "图片尺寸无效：",
                    number_text(width as u64).as_str(),
                    "x",
                    number_text(height as u64).as_str(),
                ),
            ),
        );
    }
    let longest: u32 = if width >= height {
        width
    } else {
        height
    };
    proof {
        law_preview_fits(width as int, height as int, max_edge as int);
        lemma_scaled_edge(width as int, longest as int, max_edge as int);
        lemma_scaled_edge(height as int, longest as int, max_edge as int);
    }
    let w: u32 = scale(width, longest, max_edge);
    let h: u32 = scale(height, longest, max_edge);
    if h as u64 > w as u64 * 19 {
        Ok((w, h, ((h as u64 + 18) / 19) as u32, h))
    } else if w as u64 > h as u64 * 19 {
        Ok((w, h, w, ((w as u64 + 18) / 19) as u32))
    } else {
        Ok((w, h, w, h))
    }
}

fn scale(edge: u32, longest: u32, max_edge: u32) -> (r: u32)
    requires
        0 < edge <= longest,
        0 < max_edge,
    ensures
        r == scaled_edge(edge as int, longest as int, max_edge as int),
{
    proof {
        lemma_scaled_edge(edge as int, longest as int, max_edge as int);
        assert(edge * max_edge <= u32::MAX * u32::MAX) by (nonlinear_arith)
            requires
                edge <= u32::MAX,
                max_edge <= u32::MAX,
        ;
    }
    if longest > max_edge {
        let n: u64 = edge as u64 * max_edge as u64 / longest as u64;
        if n > 1 {
            n as u32
        } else {
            1
        }
    } else {
        edge
    }
}

/// The longest edge and the JPEG quality of the previews that are tried, in order.
pub open spec fn preview_setting(attempt: int) -> Option<(u32, u8)> {
    if attempt == 0 {
        Some((TELEGRAM_PHOTO_PREVIEW_MAX_EDGE, 3u8))
    } else if attempt == 1 {
        Some((3072u32, 5u8))
    } else if attempt == 2 {
        Some((2048u32, 7u8))
    } else {
        None
    }
}

/// A preview to be rendered: the filter, and the quality.
#[derive(Debug)]
pub struct PreviewJob {
    pub filter: String,
    pub quality: u8,
}

/// The filter that scales the picture and centres it on a black canvas.
pub open spec fn preview_filter_text(p: (int, int, int, int)) -> Seq<char> {
    "scale="@ + decimal(p.0 as nat) + ":"@ + decimal(p.1 as nat) + ":flags=lanczos,pad="@
        + decimal(p.2 as nat) + ":"@ + decimal(p.3 as nat) + ":(ow-iw)/2:(oh-ih)/2:black"@
}

pub fn preview_filter(p: (u32, u32, u32, u32)) -> (r: String)
    ensures
        r@ == preview_filter_text((p.0 as int, p.1 as int, p.2 as int, p.3 as int)),
{
    let mut r = cat5(
        "scale=",
        number_text(p.0 as u64).as_str(),
        ":",
        number_text(p.1 as u64).as_str(),
        ":flags=lanczos,pad=",
    );
    r.append(number_text(p.2 as u64).as_str());
    r.append(":");
    r.append(number_text(p.3 as u64).as_str());
    r.append(":(ow-iw)/2:(oh-ih)/2:black");
    r
}

/// The preview that is tried as number `attempt`; none after the last.
pub fn preview_job(width: u32, height: u32, attempt: usize) -> (r: Result<
    Option<PreviewJob>,
    PrepareError,
>)
    ensures
        match r {
            Ok(None) => preview_setting(attempt as int) is None,
            Ok(Some(job)) => {
                &&& width > 0 && height > 0
                &&& preview_setting(attempt as int) is Some
                &&& job.quality == (preview_setting(attempt as int)->0).1
                &&& job.filter@ == preview_filter_text(
                    preview_dimensions(
                        width as int,
                        height as int,
                        (preview_setting(attempt as int)->0).0 as int,
                    ),
                )
            },
            Err(error) => {
                &&& width == 0 || height == 0
                &&& preview_setting(attempt as int) is Some
                &&& error@ == PrepareErrorView::Failed(
                    "图片尺寸无效："@ + decimal(width as nat) + "x"@ + decimal(height as nat),
                )
            },
        },
{
    let setting: (u32, u8) = if attempt == 0 {
        (TELEGRAM_PHOTO_PREVIEW_MAX_EDGE, 3)
    } else if attempt == 1 {
        (3072, 5)
    } else if attempt == 2 {
        (2048, 7)
    } else {
        return Ok(None);
    };
    match photo_preview_dimensions(width, height, setting.0) {
        Ok(p) => Ok(Some(PreviewJob { filter: preview_filter(p), quality: setting.1 })),
        Err(error) => Err(error),
    }
}

/// Why a rendered preview is not used; none where it is.
pub open spec fn preview_rejection(size: u64, width: u32, height: u32) -> Option<Seq<char>> {
    if size <= TELEGRAM_PHOTO_PREVIEW_TARGET_SIZE && photo_fits(width as int, height as int) {
        None
    } else {
        Some(
            "图片预览输出仍超限："@ + decimal(width as nat) + "x"@ + decimal(height as nat) + "，"@
                + decimal((size / 1024 / 1024) as nat) + "MB"@,
        )
    }
}

/// Whether a rendered preview is used, by its measured size.
pub fn preview_accepted(size: u64, width: u32, height: u32) -> (r: Result<(), PrepareError>)
    ensures
        match r {
            Ok(_) => preview_rejection(size, width, height) is None,
            Err(error) => preview_rejection(size, width, height) is Some && error@
                == PrepareErrorView::Failed(preview_rejection(size, width, height)->0),
        },
{
    if size <= TELEGRAM_PHOTO_PREVIEW_TARGET_SIZE && telegram_photo_dimensions_valid(width, height) {
        return Ok(());
    }
    let mut message = cat5(
        "图片预览输出仍超限：",
        number_text(width as u64).as_str(),
        "x",
        number_text(height as u64).as_str(),
        "，",
    );
    message.append(number_text(size / 1024 / 1024).as_str());
    message.append("MB");
    Err(PrepareError::Failed(message))
}

} // verus!
