//! Posts on Bilibili: which title, cover and number count.
use vstd::prelude::*;

use crate::json::{json_document, list_value, member, value_at, Json};
use crate::model::{ErrorView, MediaKind, ParsedContentView};
use crate::outside::regex_group;
use crate::provider::bilibili::dynamic::{
    asset_url, dynamic_of, embedded_url_of, is_opus, live_rcmd, major_cover_of, major_of,
    major_title_of, own_title, post_author, post_media, post_pictures, post_title, source_id_of,
    source_of,
};
use crate::provider::bilibili::video::{
    question_for, season_video_of, QuestionView, AV_LINK, BANGUMI_LINK,
};
use crate::provider::bilibili::BVID;
use crate::provider::{str_at, u64_at};
use crate::text::{decimal, lowered};

verus! {

/// Whether a text stands at a path.
pub open spec fn says(value: Json, path: Seq<char>) -> bool {
    str_at(value, path) is Some && str_at(value, path)->0.len() > 0
}

/// The parts of a post that have a title, one before the other.
pub open spec fn titled_part(i: int) -> Seq<char> {
    if i == 0 {
        "/opus/title"@
    } else if i == 1 {
        "/archive/title"@
    } else if i == 2 {
        "/pgc/title"@
    } else if i == 3 {
        "/article/title"@
    } else if i == 4 {
        "/music/title"@
    } else if i == 5 {
        "/live/title"@
    } else if i == 6 {
        "/common/title"@
    } else {
        "/title"@
    }
}

/// The title of what a post shows is that of its first part that has one.
pub proof fn law_first_title(major: Json, i: int)
    requires
        0 <= i < 8,
        says(major, titled_part(i)),
        forall|j: int| 0 <= j < i ==> !says(major, #[trigger] titled_part(j)),
    ensures
        own_title(major) == str_at(major, titled_part(i)),
        major_title_of(major, None) == str_at(major, titled_part(i))->0,
{
    assert(i > 0 ==> !says(major, titled_part(0)));
    assert(i > 1 ==> !says(major, titled_part(1)));
    assert(i > 2 ==> !says(major, titled_part(2)));
    assert(i > 3 ==> !says(major, titled_part(3)));
    assert(i > 4 ==> !says(major, titled_part(4)));
    assert(i > 5 ==> !says(major, titled_part(5)));
    assert(i > 6 ==> !says(major, titled_part(6)));
}

/// Where no part has a title, that of the live room counts.
pub proof fn law_title_of_room(major: Json, live: Json)
    requires
        forall|j: int| 0 <= j < 8 ==> !says(major, #[trigger] titled_part(j)),
    ensures
        str_at(live, "/title"@) is Some ==> major_title_of(major, Some(live)) == str_at(
            live,
            "/title"@,
        )->0,
        str_at(live, "/title"@) is None && str_at(live, "/room_info/title"@) is Some
            ==> major_title_of(major, Some(live)) == str_at(live, "/room_info/title"@)->0,
        major_title_of(major, None).len() == 0,
{
    assert(!says(major, titled_part(0)) && !says(major, titled_part(1)) && !says(
        major,
        titled_part(2),
    ) && !says(major, titled_part(3)) && !says(major, titled_part(4)) && !says(
        major,
        titled_part(5),
    ) && !says(major, titled_part(6)) && !says(major, titled_part(7)));
}

/// Whether an address of a picture stands at a path.
pub open spec fn shows(value: Json, path: Seq<char>) -> bool {
    str_at(value, path) is Some && asset_url(str_at(value, path)->0) is Some
}

/// The parts of a post that have a cover, one before the other.
pub open spec fn covered_part(i: int) -> Seq<char> {
    if i == 0 {
        "/archive/cover"@
    } else if i == 1 {
        "/pgc/cover"@
    } else if i == 2 {
        "/article/cover"@
    } else if i == 3 {
        "/article/covers/0"@
    } else if i == 4 {
        "/music/cover"@
    } else if i == 5 {
        "/live/cover"@
    } else if i == 6 {
        "/common/cover"@
    } else {
        "/cover"@
    }
}

/// The cover of what a post shows is that of its first part that has one.
pub proof fn law_first_cover(major: Json, live: Option<Json>, i: int)
    requires
        0 <= i < 8,
        shows(major, covered_part(i)),
        forall|j: int| 0 <= j < i ==> !shows(major, #[trigger] covered_part(j)),
    ensures
        major_cover_of(major, live) == asset_url(str_at(major, covered_part(i))->0),
{
    assert(i > 0 ==> !shows(major, covered_part(0)));
    assert(i > 1 ==> !shows(major, covered_part(1)));
    assert(i > 2 ==> !shows(major, covered_part(2)));
    assert(i > 3 ==> !shows(major, covered_part(3)));
    assert(i > 4 ==> !shows(major, covered_part(4)));
    assert(i > 5 ==> !shows(major, covered_part(5)));
    assert(i > 6 ==> !shows(major, covered_part(6)));
}

/// Where no part has a cover, that of the live room counts, or what it shows.
pub proof fn law_cover_of_room(major: Json, live: Json)
    requires
        forall|j: int| 0 <= j < 8 ==> !shows(major, #[trigger] covered_part(j)),
    ensures
        shows(live, "/cover"@) ==> major_cover_of(major, Some(live)) == asset_url(
            str_at(live, "/cover"@)->0,
        ),
        !shows(live, "/cover"@) && shows(live, "/keyframe"@) ==> major_cover_of(major, Some(live))
            == asset_url(str_at(live, "/keyframe"@)->0),
        !shows(live, "/cover"@) && !shows(live, "/keyframe"@) && shows(live, "/room_info/cover"@)
            ==> major_cover_of(major, Some(live)) == asset_url(str_at(live, "/room_info/cover"@)->0),
        major_cover_of(major, None) is None,
{
    assert(!shows(major, covered_part(0)) && !shows(major, covered_part(1)) && !shows(
        major,
        covered_part(2),
    ) && !shows(major, covered_part(3)) && !shows(major, covered_part(4)) && !shows(
        major,
        covered_part(5),
    ) && !shows(major, covered_part(6)) && !shows(major, covered_part(7)));
}

/// A post without pictures that embeds nothing shows its cover.
pub proof fn law_cover_stands_in(
    id: Seq<char>,
    item: Json,
    major: Json,
    cover: Seq<char>,
    cookie: Option<Seq<char>>,
)
    requires
        post_pictures(dynamic_of(source_of(item))).len() == 0,
        value_at(dynamic_of(source_of(item)), "/major"@) == Some(major),
        major_cover_of(major, live_rcmd(major)) == Some(cover),
    ensures
        ({
            let media = post_media(id, item, None, None, cookie);
            &&& media.len() == 1
            &&& media[0].source_url == cover
            &&& media[0].kind == MediaKind::Photo
            &&& media[0].cache_key == "bilibili:dynamic:"@ + source_id_of(item, id) + ":photo:"@
                + decimal(0)
        }),
{
}

/// The live room is described by the document that the post holds as a text.
pub proof fn law_room_is_described(major: Json, content: Seq<char>, room: Json)
    requires
        str_at(major, "/live_rcmd/content"@) == Some(content),
    ensures
        json_document(content) == Ok::<Json, Seq<char>>(room) ==> live_rcmd(major) == Some(room),
        json_document(content) is Err ==> live_rcmd(major) is None,
{
}

/// A post that forwards another one shows that one; what it shows is its main part.
pub proof fn law_what_is_forwarded(item: Json, orig: Json)
    ensures
        member(item, "orig"@) == Some(orig) && !(orig is Null) ==> source_of(item) == orig,
        member(item, "orig"@) is None ==> source_of(item) == item,
        is_opus(item) <==> str_at(major_of(item), "/type"@) == Some("MAJOR_TYPE_OPUS"@),
{
}

/// A post is numbered by what it says of itself, or else as it was asked for.
pub proof fn law_number_of_post(item: Json, id: Seq<char>)
    ensures
        ({
            let own = str_at(source_of(item), "/id_str"@);
            let basic = str_at(source_of(item), "/basic/dyn_id_str"@);
            &&& own is Some ==> source_id_of(item, id) == own->0
            &&& own is None && basic is Some ==> source_id_of(item, id) == basic->0
            &&& own is None && basic is None ==> source_id_of(item, id) == id
        }),
{
}

/// The title of a post without its own full text is that of what it shows.
pub proof fn law_title_is_that_of_part(item: Json, embedded: Option<ParsedContentView>)
    ensures
        ({
            let own = major_title_of(major_of(item), live_rcmd(major_of(item)));
            own.len() > 0 ==> post_title(item, None, embedded) == own
        }),
{
}

/// The address of an episode names it or its season; that of a video names it by its name, or
/// else by its number.
pub proof fn law_video_in_address(url: Seq<char>, word: Seq<char>, number: Seq<char>, name: Seq<char>)
    ensures
        regex_group(BANGUMI_LINK@, url, 1) == Some(word) && regex_group(BANGUMI_LINK@, url, 2)
            == Some(number) ==> question_for(url) is Ok && question_for(url)->Ok_0
            == (QuestionView::Season { episode: lowered(word) != "ss"@, id: number }),
        regex_group(BANGUMI_LINK@, url, 1) is None && regex_group(BVID@, url, 1) == Some(name)
            ==> question_for(url) is Ok && question_for(url)->Ok_0 == QuestionView::ByName(name),
        regex_group(BANGUMI_LINK@, url, 1) is None && regex_group(BVID@, url, 1) is None
            && regex_group(AV_LINK@, url, 1) == Some(number) ==> question_for(url) is Ok
            && question_for(url)->Ok_0 == QuestionView::ByNumber(number),
        regex_group(BANGUMI_LINK@, url, 1) is None && regex_group(BVID@, url, 1) is None
            && regex_group(AV_LINK@, url, 1) is None ==> question_for(url) is Err,
{
}

/// The parts of a post that name a page, one before the other.
pub open spec fn linked_part(i: int) -> Seq<char> {
    if i == 0 {
        "/archive/jump_url"@
    } else if i == 1 {
        "/pgc/jump_url"@
    } else if i == 2 {
        "/article/jump_url"@
    } else if i == 3 {
        "/music/jump_url"@
    } else if i == 4 {
        "/live/jump_url"@
    } else if i == 5 {
        "/common/jump_url"@
    } else {
        "/ugc_season/jump_url"@
    }
}

/// A post that names no video shows the first page that one of its parts names.
pub proof fn law_first_page_is_shown(major: Json, archive: Json, live: Option<Json>, i: int)
    requires
        member(major, "archive"@) == Some(archive),
        str_at(archive, "/bvid"@) is None,
        u64_at(archive, "/aid"@) is None,
        0 <= i < 7,
        shows(major, linked_part(i)),
        forall|j: int| 0 <= j < i ==> !shows(major, #[trigger] linked_part(j)),
    ensures
        embedded_url_of(major, live) == asset_url(str_at(major, linked_part(i))->0),
{
    assert(i > 0 ==> !shows(major, linked_part(0)));
    assert(i > 1 ==> !shows(major, linked_part(1)));
    assert(i > 2 ==> !shows(major, linked_part(2)));
    assert(i > 3 ==> !shows(major, linked_part(3)));
    assert(i > 4 ==> !shows(major, linked_part(4)));
    assert(i > 5 ==> !shows(major, linked_part(5)));
}

/// The author of a post is the one within its author, where there is one; an older form names the
/// name and the picture otherwise.
pub proof fn law_author_of_post(item: Json, outer: Json)
    requires
        value_at(item, "/modules/module_author"@) == Some(outer),
    ensures
        ({
            let author = post_author(item);
            let value = if member(outer, "author"@) is Some {
                member(outer, "author"@)->0
            } else {
                outer
            };
            let number = if u64_at(value, "/mid"@) is Some {
                u64_at(value, "/mid"@)
            } else {
                u64_at(item, "/basic/uid"@)
            };
            &&& str_at(value, "/name"@) is Some ==> author.name == str_at(value, "/name"@)->0
            &&& str_at(value, "/name"@) is None && str_at(value, "/uname"@) is Some ==> author.name
                == str_at(value, "/uname"@)->0
            &&& str_at(value, "/face"@) is Some ==> author.avatar_url == str_at(value, "/face"@)
            &&& str_at(value, "/face"@) is None ==> author.avatar_url == str_at(value, "/avatar"@)
            &&& number is Some ==> author.id == decimal(number->0 as nat) && author.url == Some(
                "https://space.bilibili.com/"@ + decimal(number->0 as nat),
            )
        }),
{
}

/// A season without episodes cannot be had.
pub proof fn law_season_without_episodes(url: Seq<char>, episode: bool, id: Seq<char>, root: Json)
    requires
        list_value(value_at(root, "/result/episodes"@)) == Some(Seq::<Json>::empty()),
    ensures
        season_video_of(url, episode, id, root) == Err::<Seq<char>, ErrorView>(
            ErrorView::Unavailable(url),
        ),
{
}

} // verus!
