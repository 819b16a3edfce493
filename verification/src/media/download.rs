//! Downloads: how a reply is taken, when a download is tried again, and when another address
//! is tried.
use vstd::prelude::*;

use crate::text::{
    after_last, cat3, cat5, decimal, number_text, opt_text, parse_number, parsed_number,
    rest_after_last, split_at_part, split_once, strip_prefix, without_prefix,
};

use super::{is_permanent_prepare_error, permanent, PrepareError, PrepareErrorView};

verus! {

/// The number a part of a header writes.
pub open spec fn number_in(text: Seq<char>) -> Option<u64> {
    match parsed_number(text, u64::MAX as nat) {
        Some(n) => Some(n as u64),
        None => None,
    }
}

/// Where the bytes of a reply start in the file, by its `Content-Range`.
pub open spec fn range_start(value: Option<Seq<char>>) -> Option<u64> {
    match value {
        Some(v) => match without_prefix(v, "bytes "@) {
            Some(range) => match split_at_part(range, "-"@) {
                Some(parts) => number_in(parts.0),
                None => None,
            },
            None => None,
        },
        None => None,
    }
}

/// How many bytes the whole file has, by the `Content-Range` of a reply.
pub open spec fn range_total(value: Option<Seq<char>>) -> Option<u64> {
    match value {
        Some(v) => match after_last(v, '/') {
            Some(total) => number_in(total),
            None => None,
        },
        None => None,
    }
}

pub fn content_range_start(value: &Option<String>) -> (r: Option<u64>)
    ensures
        r == range_start(opt_text(*value)),
{
    match value {
        Some(v) => match strip_prefix(v.as_str(), "bytes ") {
            Some(range) => match split_once(range.as_str(), "-") {
                Some(parts) => parse_number(parts.0.as_str(), u64::MAX),
                None => None,
            },
            None => None,
        },
        None => None,
    }
}

pub fn content_range_total(value: &Option<String>) -> (r: Option<u64>)
    ensures
        r == range_total(opt_text(*value)),
{
    match value {
        Some(v) => match rest_after_last(v.as_str(), '/') {
            Some(total) => parse_number(total.as_str(), u64::MAX),
            None => None,
        },
        None => None,
    }
}

/// The range that is asked for where part of the file is there already.
pub open spec fn range_header_text(existing: u64) -> Option<Seq<char>> {
    if existing > 0 {
        Some("bytes="@ + decimal(existing as nat) + "-"@)
    } else {
        None
    }
}

pub fn range_header(existing: u64) -> (r: Option<String>)
    ensures
        opt_text(r) == range_header_text(existing),
{
    if existing > 0 {
        Some(cat3("bytes=", number_text(existing).as_str(), "-"))
    } else {
        None
    }
}

/// The sum, as far as the type reaches.
pub open spec fn sum_u64(a: u64, b: u64) -> u64 {
    if a + b <= u64::MAX {
        (a + b) as u64
    } else {
        u64::MAX
    }
}

/// The head of a reply to a download request.
#[derive(Debug)]
pub struct ReplyHead {
    pub status: u16,
    pub content_range: Option<String>,
    pub content_length: Option<u64>,
}

/// What to do with a reply.
#[derive(Debug)]
pub enum Attempt {
    /// The file is complete already.
    Complete,
    /// The server refused; the message is its own.
    Refused,
    /// The reply cannot be used.
    Failed(PrepareError),
    /// The body is written to the file, behind the first `base` bytes.
    Receive { resumed: bool, base: u64, expected: Option<u64> },
}

/// What to do with a reply, as plain values.
pub enum AttemptView {
    Complete,
    Refused,
    Failed(PrepareErrorView),
    Receive { resumed: bool, base: u64, expected: Option<u64> },
}

impl View for Attempt {
    type V = AttemptView;

    open spec fn view(&self) -> AttemptView {
        match self {
            Attempt::Complete => AttemptView::Complete,
            Attempt::Refused => AttemptView::Refused,
            Attempt::Failed(error) => AttemptView::Failed(error@),
            Attempt::Receive { resumed, base, expected } => AttemptView::Receive {
                resumed: *resumed,
                base: *base,
                expected: *expected,
            },
        }
    }
}

/// How long the file will be: by the range of the reply, or else by its length.
pub open spec fn expected_total(
    range: Option<Seq<char>>,
    length: Option<u64>,
    base: u64,
) -> Option<u64> {
    match range_total(range) {
        Some(total) => Some(total),
        None => match length {
            Some(n) => Some(sum_u64(base, n)),
            None => None,
        },
    }
}

/// What to do with a reply: a download is resumed only where the server continues exactly behind
/// the bytes that are there, and a file that is announced as too large is not read.
pub open spec fn attempt_for(
    status: u16,
    range: Option<Seq<char>>,
    length: Option<u64>,
    existing: u64,
    limit: u64,
) -> AttemptView {
    let resumed = existing > 0 && status == 206;
    let base: u64 = if resumed {
        existing
    } else {
        0
    };
    let expected = expected_total(range, length, base);
    if status == 416 && range_total(range) == Some(existing) {
        AttemptView::Complete
    } else if status < 200 || status >= 300 {
        AttemptView::Refused
    } else if resumed && range_start(range) != Some(existing) {
        AttemptView::Failed(
            PrepareErrorView::Failed("服务器返回的 Content-Range 与本地文件不一致"@),
        )
    } else if expected is Some && expected->0 > limit {
        AttemptView::Failed(PrepareErrorView::TooLarge { max_size: limit })
    } else {
        AttemptView::Receive { resumed, base, expected }
    }
}

/// Decides what to do with a reply, where `existing` bytes of the file are there already.
pub fn download_attempt(head: &ReplyHead, existing: u64, limit: u64) -> (r: Attempt)
    ensures
        r@ == attempt_for(
            head.status,
            opt_text(head.content_range),
            head.content_length,
            existing,
            limit,
        ),
{
    let total = content_range_total(&head.content_range);
    if head.status == 416 {
        match total {
            Some(n) => {
                if n == existing {
                    return Attempt::Complete;
                }
            },
            None => {},
        }
    }
    if head.status < 200 || head.status >= 300 {
        return Attempt::Refused;
    }
    let resumed = existing > 0 && head.status == 206;
    if resumed {
        let continues = match content_range_start(&head.content_range) {
            Some(start) => start == existing,
            None => false,
        };
        if !continues {
            return Attempt::Failed(
                PrepareError::Failed("服务器返回的 Content-Range 与本地文件不一致".to_owned()),
            );
        }
    }
    let base: u64 = if resumed {
        existing
    } else {
        0
    };
    let expected: Option<u64> = match total {
        Some(n) => Some(n),
        None => match head.content_length {
            Some(n) => Some(base.saturating_add(n)),
            None => None,
        },
    };
    match expected {
        Some(n) => {
            if n > limit {
                return Attempt::Failed(PrepareError::TooLarge { max_size: limit });
            }
        },
        None => {},
    }
    Attempt::Receive { resumed, base, expected }
}

/// Counts a piece of the body: the bytes of the file with it, unless they are too many.
pub fn count_chunk(total: u64, length: u64, limit: u64) -> (r: Result<u64, PrepareError>)
    ensures
        match r {
            Ok(n) => n == sum_u64(total, length) && n <= limit,
            Err(error) => sum_u64(total, length) > limit && error@ == (PrepareErrorView::TooLarge {
                max_size: limit,
            }),
        },
{
    let n: u64 = total.saturating_add(length);
    if n > limit {
        Err(PrepareError::TooLarge { max_size: limit })
    } else {
        Ok(n)
    }
}

/// Checks the length of a file after its last byte.
pub fn download_end(expected: Option<u64>, total: u64) -> (r: Result<(), PrepareError>)
    ensures
        match r {
            Ok(_) => expected is None || expected == Some(total),
            Err(error) => expected is Some && expected != Some(total) && error@
                == PrepareErrorView::Failed(
                "媒体长度不完整：期望 Some("@ + decimal(expected->0 as nat) + ") 字节，实际下载 "@
                    + decimal(total as nat) + " 字节"@,
            ),
        },
{
    match expected {
        Some(n) => {
            if n != total {
                return Err(
                    PrepareError::Failed(
                        cat5(
                            "媒体长度不完整：期望 Some(",
                            number_text(n).as_str(),
                            ") 字节，实际下载 ",
                            number_text(total).as_str(),
                            " 字节",
                        ),
                    ),
                );
            }
        },
        None => {},
    }
    Ok(())
}

/// A body is written behind bytes that are there only where the server continues exactly behind
/// them, else from the start, and a file that is announced is within the limit.
pub proof fn law_received_bytes_belong(
    status: u16,
    range: Option<Seq<char>>,
    length: Option<u64>,
    existing: u64,
    limit: u64,
)
    ensures
        attempt_for(status, range, length, existing, limit) matches AttemptView::Receive {
            resumed,
            base,
            expected,
        } ==> {
            &&& resumed ==> base == existing && range_start(range) == Some(existing)
            &&& !resumed ==> base == 0
            &&& expected is Some ==> expected->0 <= limit
        },
{
}

/// How many times a download is tried.
pub open spec fn attempts_for(retries: usize) -> int {
    if retries < usize::MAX {
        retries + 1
    } else {
        usize::MAX as int
    }
}

/// How many seconds are waited after a failed attempt: one, two, four, and then eight.
pub open spec fn retry_delay(attempt: int) -> u64 {
    if attempt <= 1 {
        1
    } else if attempt == 2 {
        2
    } else if attempt == 3 {
        4
    } else {
        8
    }
}

/// What follows an attempt.
#[derive(Debug, Clone, Copy, PartialEq, Eq, Structural)]
pub enum DownloadNext {
    Done,
    /// The error of the attempt stands, and the file is removed.
    GiveUp,
    /// After the delay the attempt with this number follows.
    Retry { delay_secs: u64, attempt: usize },
}

/// What follows attempt number `attempt`: a file that is too large is not tried again, and the
/// number of attempts is limited.
pub open spec fn after_attempt(
    attempt: int,
    retries: usize,
    error: Option<PrepareErrorView>,
) -> DownloadNext {
    match error {
        None => DownloadNext::Done,
        Some(e) => if permanent(e) || attempt >= attempts_for(retries) {
            DownloadNext::GiveUp
        } else {
            DownloadNext::Retry {
                delay_secs: retry_delay(attempt),
                attempt: (attempt + 1) as usize,
            }
        },
    }
}

/// The error of an attempt as plain characters.
pub open spec fn failure(outcome: Result<(), PrepareError>) -> Option<PrepareErrorView> {
    match outcome {
        Ok(_) => None,
        Err(error) => Some(error@),
    }
}

pub fn download_next(attempt: usize, retries: usize, outcome: &Result<(), PrepareError>) -> (r:
    DownloadNext)
    requires
        attempt >= 1,
    ensures
        r == after_attempt(attempt as int, retries, failure(*outcome)),
        r matches DownloadNext::Retry { attempt: next, .. } ==> attempt < next <= attempts_for(
            retries,
        ),
{
    let attempts: usize = retries.saturating_add(1);
    match outcome {
        Ok(_) => DownloadNext::Done,
        Err(error) => {
            if is_permanent_prepare_error(error) || attempt >= attempts {
                DownloadNext::GiveUp
            } else {
                let delay: u64 = if attempt <= 1 {
                    1
                } else if attempt == 2 {
                    2
                } else if attempt == 3 {
                    4
                } else {
                    8
                };
                DownloadNext::Retry { delay_secs: delay, attempt: attempt + 1 }
            }
        },
    }
}

/// What follows the download from one of the addresses of a file.
#[derive(Debug, Clone, Copy, PartialEq, Eq, Structural)]
pub enum AddressNext {
    Done,
    /// The error stands.
    GiveUp,
    /// The address with this number is tried; number zero is the main address.
    Try(usize),
}

/// The addresses are tried in order until one gives the file; a file that is too large is too
/// large from every address.
pub open spec fn after_address(
    index: int,
    fallbacks: int,
    error: Option<PrepareErrorView>,
) -> AddressNext {
    match error {
        None => AddressNext::Done,
        Some(e) => if permanent(e) || index >= fallbacks {
            AddressNext::GiveUp
        } else {
            AddressNext::Try((index + 1) as usize)
        },
    }
}

pub fn address_next(index: usize, fallbacks: usize, outcome: &Result<(), PrepareError>) -> (r:
    AddressNext)
    ensures
        r == after_address(index as int, fallbacks as int, failure(*outcome)),
        r matches AddressNext::Try(next) ==> index < next <= fallbacks,
{
    match outcome {
        Ok(_) => AddressNext::Done,
        Err(error) => {
            if is_permanent_prepare_error(error) || index >= fallbacks {
                AddressNext::GiveUp
            } else {
                AddressNext::Try(index + 1)
            }
        },
    }
}

} // verus!
