//! Answers in which something is missing: what is said of it.
use vstd::prelude::*;

use crate::json::{list_value, member, value_at, Json};
use crate::model::{ErrorView, ParsedContentView};
use crate::provider::bilibili::dynamic::{opus_of, OpusView};
use crate::provider::bilibili::video::{season_video_of, video_id_of, VideoIdView};
use crate::provider::netease::song_content_of;
use crate::provider::pixiv::token_in;
use crate::provider::x::x_content_of;
use crate::provider::{str_at, u64_at};

verus! {

/// What is said where a post on X is not in the answer.
pub proof fn law_missing_on_x(url: Seq<char>, quality: Option<u32>, id: Seq<char>, root: Json)
    ensures
        u64_at(root, "/code"@) == Some(200u64) && member(root, "status"@) is None ==> x_content_of(
            url,
            quality,
            id,
            root,
        ) == Err::<ParsedContentView, ErrorView>(
            ErrorView::InvalidResponse("FxTwitter 缺少 status"@),
        ),
        u64_at(root, "/code"@) != Some(200u64) ==> x_content_of(url, quality, id, root) == Err::<
            ParsedContentView,
            ErrorView,
        >(ErrorView::Unavailable(url)),
{
}

/// What is said where a song is not in the answer, or has no address.
pub proof fn law_missing_on_netease(
    url: Seq<char>,
    id: Seq<char>,
    resolved: Seq<char>,
    detail: Json,
    audio: Json,
)
    ensures
        ({
            let content = song_content_of(url, id, resolved, detail, audio);
            let known = value_at(detail, "/songs/0"@) is Some;
            &&& !known ==> content == Err::<ParsedContentView, ErrorView>(
                ErrorView::Unavailable(url),
            )
            &&& known && str_at(audio, "/data/0/url"@) is None ==> content == Err::<
                ParsedContentView,
                ErrorView,
            >(ErrorView::Unavailable("歌曲无可用播放地址"@))
        }),
{
}

/// What is said where a login of Pixiv gives no token.
pub proof fn law_missing_token(root: Json, error: ErrorView)
    ensures
        str_at(root, "/access_token"@) is None && str_at(root, "/response/access_token"@) is None
            ==> token_in(Ok(root)) == Err::<Seq<char>, ErrorView>(
            ErrorView::Authentication("refresh token 无效"@),
        ),
        token_in(Err(error)) == Err::<Seq<char>, ErrorView>(error),
{
}

/// What is said where the description of a video is not in the answer, or not whole.
pub proof fn law_missing_video(name: Option<Seq<char>>, root: Json, data: Json)
    ensures
        member(root, "data"@) is None ==> video_id_of(name, root) == Err::<VideoIdView, ErrorView>(
            ErrorView::InvalidResponse("视频详情缺少 data"@),
        ),
        member(root, "data"@) == Some(data) && u64_at(data, "/cid"@) is None ==> video_id_of(
            name,
            root,
        ) == Err::<VideoIdView, ErrorView>(ErrorView::InvalidResponse("视频详情缺少 cid"@)),
{
}

/// What is said where an episode does not name its video.
pub proof fn law_missing_name_of_episode(
    url: Seq<char>,
    id: Seq<char>,
    root: Json,
    episodes: Seq<Json>,
)
    requires
        list_value(value_at(root, "/result/episodes"@)) == Some(episodes),
        episodes.len() > 0,
        str_at(episodes[0], "/bvid"@) is None,
    ensures
        season_video_of(url, false, id, root) == Err::<Seq<char>, ErrorView>(
            ErrorView::InvalidResponse("番剧缺少 bvid"@),
        ),
{
}

/// What is said where the full text of a post is not in the answer.
pub proof fn law_missing_text(root: Json, item: Json)
    ensures
        value_at(root, "/data/item"@) is None ==> opus_of(root) == Err::<OpusView, ErrorView>(
            ErrorView::InvalidResponse("Opus 详情缺少 item"@),
        ),
        value_at(root, "/data/item"@) == Some(item) && list_value(member(item, "modules"@)) is None
            ==> opus_of(root) == Err::<OpusView, ErrorView>(
            ErrorView::InvalidResponse("Opus 详情缺少 modules"@),
        ),
{
}

} // verus!
