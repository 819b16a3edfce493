//! The names under which media and answers are kept.
use vstd::prelude::*;

use crate::json::Json;
use crate::model::{ErrorView, MediaItemView, ParseOptionsView, ParsedContentView};
use crate::outside::regex_group;
use crate::provider::bilibili::dynamic::{post_photo, DynamicPictureView};
use crate::provider::netease::{audio_extension, title_char, title_chars};
use crate::provider::pixiv::{pixiv_photo, PictureView};
use crate::provider::x::{
    dimensions_of, separates, url_dimensions, x_photo, x_video, VIDEO_RESOLUTION,
};
use crate::provider::{member_str, member_u64, url_filename};
use crate::telegram::requests::{answer_text};
use crate::telegram::select::stored_key;
use crate::telegram::send::{after_answer_of, cover_steps_of, CoverStepView};
use crate::text::{
    decimal, is_ascii_alnum, is_ascii_digit, is_white, law_decimal_read_back, lowered,
};

verus! {

/// The media of a post on X are named after the post and their place in it.
pub proof fn law_names_on_x(id: Seq<char>, item: Json, quality: u32, index: int)
    ensures
        ({
            let photo = x_photo(id, item, index);
            let video = x_video(id, item, quality, index);
            let place = decimal(index as nat);
            &&& photo is Some ==> photo->0.cache_key == "x:"@ + id + ":photo:"@ + place
            &&& photo is Some ==> photo->0.filename == url_filename(
                photo->0.source_url,
                "x-"@ + id + "-"@ + place + ".jpg"@,
            )
            &&& video is Some ==> video->0.cache_key == "x:"@ + id + ":video:"@ + place + ":"@
                + decimal(quality as nat) + "p"@
            &&& video is Some ==> video->0.filename == url_filename(
                video->0.source_url,
                "x-"@ + id + "-"@ + place + ".mp4"@,
            )
            &&& video is Some ==> video->0.mime_type == Some("video/mp4"@)
            &&& video is Some ==> video->0.thumbnail_url == member_str(item, "thumbnail_url"@)
            &&& video is Some ==> video->0.duration_secs == member_u64(item, "duration"@)
            &&& video is Some ==> video->0.requires_download
            &&& photo is Some ==> !photo->0.requires_download
        }),
{
}

/// The pictures of an artwork are named after it and their place in it.
pub proof fn law_names_on_pixiv(id: Seq<char>, p: PictureView, index: int)
    ensures
        ({
            let photo = pixiv_photo(id, p, index);
            &&& photo.cache_key == "pixiv:"@ + id + ":p"@ + decimal(index as nat)
            &&& photo.filename == url_filename(
                p.0,
                "pixiv-"@ + id + "-p"@ + decimal(index as nat) + ".jpg"@,
            )
            &&& photo.source_url == p.0 && photo.thumbnail_url == p.1
        }),
{
}

/// The pictures of a post on Bilibili are named after it and their place in it.
pub proof fn law_names_on_bilibili(
    id: Seq<char>,
    index: int,
    p: DynamicPictureView,
    cookie: Option<Seq<char>>,
)
    ensures
        ({
            let photo = post_photo(id, index, p, cookie);
            &&& photo.cache_key == "bilibili:dynamic:"@ + id + ":photo:"@ + decimal(index as nat)
            &&& photo.filename == url_filename(
                p.0,
                "bilibili-dynamic-"@ + id + "-"@ + decimal(index as nat) + ".jpg"@,
            )
            &&& photo.source_url == p.0 && photo.width == p.1 && photo.height == p.2
        }),
{
}

/// The size of a video on X is what the entry says, or else what stands in its address.
pub proof fn law_size_in_address(format: Json, url: Seq<char>, width: u32, height: u32)
    requires
        regex_group(VIDEO_RESOLUTION@, url, 1) == Some(decimal(width as nat)),
        regex_group(VIDEO_RESOLUTION@, url, 2) == Some(decimal(height as nat)),
    ensures
        url_dimensions(url) == Some((width, height)),
        ({
            let w = member_u64(format, "width"@);
            let h = member_u64(format, "height"@);
            &&& w is None || h is None ==> dimensions_of(format, url) == Some((width, height))
            &&& w is Some && h is Some && w->0 <= u32::MAX && h->0 <= u32::MAX ==> dimensions_of(
                format,
                url,
            ) == Some((w->0 as u32, h->0 as u32))
        }),
{
    law_decimal_read_back(width as nat, u32::MAX as nat);
    law_decimal_read_back(height as nat, u32::MAX as nat);
}

/// Words on X end at white space and at these marks.
pub proof fn law_words_on_x_end(c: char)
    ensures
        separates(c) <==> is_white(c) || c == ',' || c == '，' || c == '。' || c == '!' || c == '！'
            || c == '?' || c == '？' || c == '/' || c == '\\' || c == '|',
{
    reveal_strlit(",，。!！?？/\\|");
    let marks = ",，。!！?？/\\|"@;
    assert(marks[0] == ',' && marks[1] == '，' && marks[2] == '。' && marks[3] == '!' && marks[4]
        == '！' && marks[5] == '?' && marks[6] == '？' && marks[7] == '/' && marks[8] == '\\'
        && marks[9] == '|');
    assert(marks.len() == 10);
    if marks.contains(c) {
        let i = choose|i: int| 0 <= i < marks.len() && marks[i] == c;
        assert(0 <= i < 10);
    }
}

/// Letters and digits are those of ASCII.
pub proof fn law_letters_and_digits(c: char)
    ensures
        is_ascii_digit(c) <==> 48 <= c as u32 <= 57,
        is_ascii_alnum(c) <==> 48 <= c as u32 <= 57 || 65 <= c as u32 <= 90 || 97 <= c as u32 <= 122,
{
}

/// A song keeps the format that is known, in small letters; any other is taken for MP3.
pub proof fn law_format_of_song(format: Seq<char>)
    ensures
        ({
            let f = lowered(format);
            let known = f == "mp3"@ || f == "flac"@ || f == "m4a"@ || f == "aac"@ || f == "ogg"@ || f
                == "opus"@;
            &&& known ==> audio_extension(format) == f
            &&& !known ==> audio_extension(format) == "mp3"@
        }),
{
}

/// The title of a song gives up to 120 characters to the name of its file.
pub proof fn law_title_in_name(title: Seq<char>, i: int)
    ensures
        title.len() <= 120 ==> title_chars(title).len() == title.len(),
        title.len() > 120 ==> title_chars(title).len() == 120,
        0 <= i < title_chars(title).len() ==> title_chars(title)[i] == title_char(title[i]),
{
}

/// A video that was sent is kept apart from those that were sent in an older form.
pub proof fn law_sent_video_is_kept(item: MediaItemView)
    ensures
        item.kind is Video ==> stored_key(item) == item.cache_key + ":telegram-video-v2"@,
        !(item.kind is Video) ==> stored_key(item) == item.cache_key,
{
}

/// The picture of a prepared video is a frame of it, or else that at its address; a sound has
/// only that at its address.
pub proof fn law_pictures_of_media(item: MediaItemView, prepared: bool)
    ensures
        ({
            let steps = cover_steps_of(item, prepared);
            let remote = item.thumbnail_url;
            &&& item.kind is Video && prepared && remote is Some ==> steps == seq![
                CoverStepView::Frame,
                CoverStepView::Remote(remote->0),
            ]
            &&& item.kind is Video && prepared && remote is None ==> steps == seq![
                CoverStepView::Frame,
            ]
            &&& item.kind is Audio && remote is Some ==> steps == seq![
                CoverStepView::Remote(remote->0),
            ]
            &&& item.kind is Audio && remote is None ==> steps.len() == 0
            &&& item.kind is Video && !prepared ==> steps.len() == 0
            &&& !(item.kind is Video) && !(item.kind is Audio) ==> steps.len() == 0
        }),
{
    assert(seq![CoverStepView::Frame] + Seq::<CoverStepView>::empty() =~= seq![CoverStepView::Frame]);
}

/// What is told where a medium could not be asked for again: what was wrong now, and what was
/// wrong at first.
pub proof fn law_second_failure_is_told(
    message: Seq<char>,
    c: ParsedContentView,
    item: MediaItemView,
    initial: Seq<char>,
)
    ensures
        after_answer_of(Err(ErrorView::Media(message)), item, initial) == Err::<int, Seq<char>>(
            "重新解析媒体地址失败: "@ + ("媒体处理错误: "@ + message) + "; 初始错误: "@ + initial,
        ),
        c.media.len() == 0 ==> after_answer_of(Ok(c), item, initial) == Err::<int, Seq<char>>(
            "重新解析后未找到对应媒体；初始错误: "@ + initial,
        ),
{
}

/// An answer is kept under all that it depends on: the address, the quality, what is wanted of it,
/// and the logins.
pub proof fn law_answer_is_named(url: Seq<char>, options: ParseOptionsView, revision: u64, q: u32)
    ensures
        options.quality == Some(q) && options.file_mode && !options.cover_only ==> answer_text(
            url,
            options,
            revision,
        ) == url + ":"@ + ("Some("@ + decimal(q as nat) + ")"@) + ":"@ + "true"@ + ":"@ + "false"@
            + ":"@ + decimal(revision as nat),
        options.quality is None && !options.file_mode && options.cover_only ==> answer_text(
            url,
            options,
            revision,
        ) == url + ":"@ + "None"@ + ":"@ + "false"@ + ":"@ + "true"@ + ":"@ + decimal(revision as nat),
{
}

} // verus!
