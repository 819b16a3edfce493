//! Fetching files: what a reply means, and when an attempt is made again.
use vstd::prelude::*;

use crate::media::download::{
    after_address, after_attempt, attempt_for, attempts_for, range_header_text, range_start,
    range_total, AddressNext, AttemptView, DownloadNext,
};
use crate::media::{error_message, permanent, PrepareErrorView};
use crate::text::{decimal, is_ascii_digit, law_decimal_read_back, lemma_decimal_digits};

use super::text::{law_behind_last, law_parted, law_parts_of_text};

verus! {

/// The digits of a number hold no other character.
proof fn lemma_digits_only(n: nat, c: char)
    requires
        !is_ascii_digit(c),
    ensures
        !decimal(n).contains(c),
{
    lemma_decimal_digits(n);
}

/// The range of a reply, `bytes <first>-<last>/<all>`, says where its bytes belong and how many
/// the whole file has.
pub proof fn law_range_of_reply(first: u64, last: Seq<char>, all: u64)
    ensures
        range_start(Some("bytes "@ + decimal(first as nat) + "-"@ + last)) == Some(first),
        range_total(Some("bytes "@ + decimal(first as nat) + "-"@ + last + "/"@ + decimal(all as nat)))
            == Some(all),
        range_start(None) is None,
        range_total(None) is None,
{
    reveal_strlit("bytes ");
    reveal_strlit("-");
    reveal_strlit("/");
    let digits = decimal(first as nat);
    let text = "bytes "@ + digits + "-"@ + last;
    assert(text =~= "bytes "@ + (digits.push('-') + last));
    law_parts_of_text(Seq::empty(), "bytes "@, digits.push('-') + last);
    lemma_digits_only(first as nat, '-');
    law_parted(digits, '-', last);
    assert("-"@ =~= seq!['-']);
    law_decimal_read_back(first as nat, u64::MAX as nat);
    let whole = text + "/"@ + decimal(all as nat);
    lemma_digits_only(all as nat, '/');
    law_behind_last(text, '/', decimal(all as nat));
    assert(whole =~= text.push('/') + decimal(all as nat));
    law_decimal_read_back(all as nat, u64::MAX as nat);
}

/// The bytes behind those at hand are asked for, and all of them where none is at hand.
pub proof fn law_range_is_asked(existing: u64)
    ensures
        range_header_text(0) is None,
        existing > 0 ==> range_header_text(existing) == Some("bytes="@ + decimal(existing as nat) + "-"@),
{
}

/// A file is complete where the server has no byte behind those at hand; any other status than
/// success is a refusal.
pub proof fn law_reply_of_server(
    status: u16,
    range: Option<Seq<char>>,
    length: Option<u64>,
    existing: u64,
    limit: u64,
)
    ensures
        ({
            let attempt = attempt_for(status, range, length, existing, limit);
            &&& attempt is Complete <==> status == 416 && range_total(range) == Some(existing)
            &&& attempt is Refused <==> !(attempt is Complete) && !(200 <= status < 300)
        }),
{
}

/// The bytes of a partial reply follow those at hand; any other reply holds the whole file. How
/// many bytes there will be is what the range says, or what the reply holds behind those at hand.
pub proof fn law_received_file(
    status: u16,
    range: Option<Seq<char>>,
    length: Option<u64>,
    existing: u64,
    limit: u64,
)
    requires
        200 <= status < 300,
    ensures
        ({
            let attempt = attempt_for(status, range, length, existing, limit);
            let behind = status == 206 && existing > 0;
            let before: int = if behind {
                existing as int
            } else {
                0
            };
            let displaced = behind && range_start(range) != Some(existing);
            &&& displaced ==> attempt == AttemptView::Failed(
                PrepareErrorView::Failed("服务器返回的 Content-Range 与本地文件不一致"@),
            )
            &&& !displaced ==> match (range_total(range), length) {
                (Some(all), _) => if all > limit {
                    attempt == AttemptView::Failed(PrepareErrorView::TooLarge { max_size: limit })
                } else {
                    attempt == AttemptView::Receive {
                        resumed: behind,
                        base: before as u64,
                        expected: Some(all),
                    }
                },
                (None, Some(n)) => if before + n > limit && limit < u64::MAX {
                    attempt == AttemptView::Failed(PrepareErrorView::TooLarge { max_size: limit })
                } else {
                    &&& before + n <= u64::MAX ==> attempt == AttemptView::Receive {
                        resumed: behind,
                        base: before as u64,
                        expected: Some((before + n) as u64),
                    }
                },
                (None, None) => attempt == AttemptView::Receive {
                    resumed: behind,
                    base: before as u64,
                    expected: None,
                },
            }
        }),
{
}

/// An attempt that failed is made again, up to the number of retries; a file that is too large is
/// too large the next time.
pub proof fn law_attempts(attempt: int, retries: usize, error: PrepareErrorView)
    requires
        1 <= attempt <= retries + 1,
        retries < usize::MAX,
    ensures
        after_attempt(attempt, retries, None) == DownloadNext::Done,
        after_attempt(attempt, retries, Some(error)) is GiveUp <==> permanent(error) || attempt
            == retries + 1,
        !permanent(error) && attempt <= retries ==> {
            &&& after_attempt(attempt, retries, Some(error)) is Retry
            &&& after_attempt(attempt, retries, Some(error))->attempt == attempt + 1
        },
        attempts_for(retries) == retries + 1,
{
}

/// The time before the next attempt is one second at first, doubles, and stays at eight.
pub proof fn law_delays_double(attempt: int, retries: usize, error: PrepareErrorView)
    requires
        1 <= attempt < retries < usize::MAX,
        !permanent(error),
    ensures
        ({
            let delay = after_attempt(attempt, retries, Some(error))->delay_secs;
            let next = after_attempt(attempt + 1, retries, Some(error))->delay_secs;
            &&& attempt == 1 ==> delay == 1
            &&& delay < 8 ==> next == 2 * delay
            &&& delay >= 8 ==> delay == 8 && next == 8
        }),
{
}

/// The addresses of a file are tried one after another until one serves it.
pub proof fn law_addresses(index: int, fallbacks: int, error: PrepareErrorView)
    requires
        0 <= index <= fallbacks < usize::MAX,
    ensures
        after_address(index, fallbacks, None) == AddressNext::Done,
        after_address(index, fallbacks, Some(error)) == AddressNext::GiveUp <==> permanent(error)
            || index == fallbacks,
        !permanent(error) && index < fallbacks ==> after_address(index, fallbacks, Some(error))
            == AddressNext::Try((index + 1) as usize),
{
}

/// Only a file that is too large is given up at once, whatever was being done.
pub proof fn law_permanent_errors(max_size: u64, message: Seq<char>, source: PrepareErrorView)
    ensures
        permanent(PrepareErrorView::TooLarge { max_size }),
        !permanent(PrepareErrorView::Failed(message)),
        permanent(PrepareErrorView::Context { message, source: Box::new(source) }) == permanent(source),
{
}

/// What a user is told of an error: the limit in megabytes, or the outermost message.
pub proof fn law_error_message(megabytes: u64, message: Seq<char>, source: PrepareErrorView)
    requires
        megabytes <= 1_000_000,
    ensures
        error_message(PrepareErrorView::TooLarge { max_size: (megabytes * 1_048_576) as u64 })
            == "媒体超过 "@ + decimal(megabytes as nat) + "MB 上传限制"@,
        error_message(PrepareErrorView::Failed(message)) == message,
        error_message(PrepareErrorView::Context { message, source: Box::new(source) }) == message,
{
    assert((megabytes * 1_048_576) as u64 / 1024 / 1024 == megabytes);
}

} // verus!
