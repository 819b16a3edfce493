//! The order in which a page is read: what is asked first, what each answer leads to, and what
//! is made of answers that fail.
use vstd::prelude::*;

use crate::json::{value_at, Json};
use crate::model::{
    quality_limit, ErrorView, ParseOptions, ParsedContent, ParsedContentView, ProviderError,
    ProviderResult,
};
use crate::text::opt_text;

use super::dynamic::{
    dynamic_content, dynamic_content_of, embedded_target_of, is_opus, opus_of, opus_projection,
    opus_question, opus_view, post_question, present, source_id_of, OpusProjection, OpusView,
};
use super::pages::{
    article_content_of, article_question, audio_content_of, live_content_of, live_question,
    number_in_page, or_null, song_question, sound_question, ARTICLE_LINK, AUDIO_LINK, LIVE_LINK,
};
use super::video::{
    play_call, question_call, question_for, season_video_of, video_content_of, video_id_of,
    QuestionView, VideoId, VideoIdView, VideoQuestion,
};
use super::{
    page_address, ApiCall, ApiCallView, BilibiliProvider, BilibiliTarget, TargetView,
};

verus! {

/// What was asked last about a page.
#[derive(Debug)]
pub enum PageState {
    /// The description of a video, or the episodes of a season.
    Video { url: String, question: VideoQuestion },
    /// The streams of a video.
    Streams(VideoId),
    /// The live room.
    Live(String),
    /// The description of a piece of music.
    Song { url: String, id: String },
    /// The file of a piece of music.
    Sound { url: String, id: String, song: Json },
    /// The article.
    Article(String),
}

/// What was asked last about a page, as plain values.
#[verifier::ext_equal]
pub enum PageStateView {
    Video { url: Seq<char>, question: QuestionView },
    Streams(VideoIdView),
    Live(Seq<char>),
    Song { url: Seq<char>, id: Seq<char> },
    Sound { url: Seq<char>, id: Seq<char>, song: Json },
    Article(Seq<char>),
}

impl View for PageState {
    type V = PageStateView;

    open spec fn view(&self) -> PageStateView {
        match self {
            PageState::Video { url, question } => PageStateView::Video {
                url: url@,
                question: question@,
            },
            PageState::Streams(id) => PageStateView::Streams(id@),
            PageState::Live(id) => PageStateView::Live(id@),
            PageState::Song { url, id } => PageStateView::Song { url: url@, id: id@ },
            PageState::Sound { url, id, song } => PageStateView::Sound {
                url: url@,
                id: id@,
                song: *song,
            },
            PageState::Article(id) => PageStateView::Article(id@),
        }
    }
}

/// What is done next about a page.
#[derive(Debug)]
pub enum PageStep {
    /// The API is asked.
    Ask(PageState, ApiCall),
    Done(ParsedContent),
    Failed(ProviderError),
}

/// What is done next about a page, as plain values.
#[verifier::ext_equal]
pub enum PageStepView {
    Ask(PageStateView, ApiCallView),
    Done(ParsedContentView),
    Failed(ErrorView),
}

impl View for PageStep {
    type V = PageStepView;

    open spec fn view(&self) -> PageStepView {
        match self {
            PageStep::Ask(state, call) => PageStepView::Ask(state@, call@),
            PageStep::Done(content) => PageStepView::Done(content@),
            PageStep::Failed(error) => PageStepView::Failed(error@),
        }
    }
}

/// An answer of the API, as plain values.
pub open spec fn answer_of(answer: ProviderResult<Json>) -> Result<Json, ErrorView> {
    match answer {
        Ok(document) => Ok(document),
        Err(error) => Err(error@),
    }
}

/// The first question about the page of a video.
pub open spec fn video_asked(p: BilibiliProvider, url: Seq<char>) -> PageStepView {
    match question_for(url) {
        Ok(question) => PageStepView::Ask(
            PageStateView::Video { url, question },
            question_call(p.api_base@, question),
        ),
        Err(error) => PageStepView::Failed(error),
    }
}

/// The question for the streams of a video.
pub open spec fn streams_asked(
    p: BilibiliProvider,
    id: Result<VideoIdView, ErrorView>,
    quality: u32,
) -> PageStepView {
    match id {
        Ok(id) => PageStepView::Ask(
            PageStateView::Streams(id),
            play_call(p.api_base@, id.bvid, id.cid, quality),
        ),
        Err(error) => PageStepView::Failed(error),
    }
}

/// The first question about a page.
pub open spec fn page_start(p: BilibiliProvider, target: TargetView) -> PageStepView {
    let url = page_address(target);
    match target {
        TargetView::Video(_) => video_asked(p, url),
        TargetView::Bangumi(_) => video_asked(p, url),
        TargetView::Live(_) => match number_in_page(LIVE_LINK@, url) {
            Ok(id) => PageStepView::Ask(PageStateView::Live(id), live_question(p.live_api_base@, id)),
            Err(error) => PageStepView::Failed(error),
        },
        TargetView::Audio(_) => match number_in_page(AUDIO_LINK@, url) {
            Ok(id) => PageStepView::Ask(
                PageStateView::Song { url, id },
                song_question(p.www_base@, id),
            ),
            Err(error) => PageStepView::Failed(error),
        },
        TargetView::Article(_) => match number_in_page(ARTICLE_LINK@, url) {
            Ok(id) => PageStepView::Ask(
                PageStateView::Article(id),
                article_question(p.api_base@, id),
            ),
            Err(error) => PageStepView::Failed(error),
        },
        TargetView::Dynamic(_) => PageStepView::Failed(ErrorView::Unsupported(url)),
    }
}

/// What follows an answer about a page. An answer that fails is the end of it.
pub open spec fn page_after(
    p: BilibiliProvider,
    state: PageStateView,
    answer: Result<Json, ErrorView>,
    quality: u32,
    cookie: Option<Seq<char>>,
) -> PageStepView {
    match answer {
        Err(error) => PageStepView::Failed(error),
        Ok(root) => match state {
            PageStateView::Video { url, question } => match question {
                QuestionView::Season { episode, id } => match season_video_of(
                    url,
                    episode,
                    id,
                    root,
                ) {
                    Ok(page) => video_asked(p, page),
                    Err(error) => PageStepView::Failed(error),
                },
                QuestionView::ByName(name) => streams_asked(
                    p,
                    video_id_of(Some(name), root),
                    quality,
                ),
                QuestionView::ByNumber(_) => streams_asked(p, video_id_of(None, root), quality),
            },
            PageStateView::Streams(id) => PageStepView::Done(
                video_content_of(p.cdn@, p.max_media_size, id, root, quality, cookie),
            ),
            PageStateView::Live(id) => PageStepView::Done(live_content_of(id, root, cookie)),
            PageStateView::Song { url, id } => PageStepView::Ask(
                PageStateView::Sound { url, id, song: root },
                sound_question(p.www_base@, id),
            ),
            PageStateView::Sound { url, id, song } => match audio_content_of(
                p.cdn@,
                url,
                id,
                song,
                root,
                cookie,
            ) {
                Ok(content) => PageStepView::Done(content),
                Err(error) => PageStepView::Failed(error),
            },
            PageStateView::Article(id) => PageStepView::Done(article_content_of(id, root, cookie)),
        },
    }
}

/// How many answers are still needed at most, where no season is asked about.
pub open spec fn questions_left(state: PageStateView) -> nat {
    match state {
        PageStateView::Video { .. } => 2,
        PageStateView::Song { .. } => 2,
        _ => 1,
    }
}

/// Every answer brings the end nearer, so that two questions are enough for a page; only the
/// answer about a season leads to the page of a video first.
pub proof fn law_reading_is_short(
    p: BilibiliProvider,
    state: PageStateView,
    answer: Result<Json, ErrorView>,
    quality: u32,
    cookie: Option<Seq<char>>,
)
    ensures
        page_after(p, state, answer, quality, cookie) matches PageStepView::Ask(next, _) ==> {
            ||| questions_left(next) < questions_left(state)
            ||| state matches PageStateView::Video { url, question } && question is Season
        },
{
}

impl BilibiliProvider {
    fn ask_video(&self, url: String) -> (r: PageStep)
        ensures
            r@ == video_asked(*self, url@),
    {
        match self.video_question(url.as_str()) {
            Ok(question) => {
                let call = self.video_call(&question);
                PageStep::Ask(PageState::Video { url, question }, call)
            },
            Err(error) => PageStep::Failed(error),
        }
    }

    fn ask_streams(&self, id: ProviderResult<VideoId>, options: &ParseOptions) -> (r: PageStep)
        ensures
            r@ == streams_asked(
                *self,
                match id {
                    Ok(id) => Ok(id@),
                    Err(error) => Err(error@),
                },
                quality_limit(options.quality),
            ),
    {
        match id {
            Ok(id) => {
                let call = self.play_call(&id, options);
                PageStep::Ask(PageState::Streams(id), call)
            },
            Err(error) => PageStep::Failed(error),
        }
    }

    /// The first question about a page.
    pub fn start_page(&self, target: &BilibiliTarget) -> (r: PageStep)
        ensures
            r@ == page_start(*self, target@),
    {
        let url = target.address();
        match target {
            BilibiliTarget::Video(_) | BilibiliTarget::Bangumi(_) => self.ask_video(url),
            BilibiliTarget::Live(_) => match self.live_id(url.as_str()) {
                Ok(id) => {
                    let call = self.live_call(id.as_str());
                    PageStep::Ask(PageState::Live(id), call)
                },
                Err(error) => PageStep::Failed(error),
            },
            BilibiliTarget::Audio(_) => match self.audio_id(url.as_str()) {
                Ok(id) => {
                    let call = self.audio_call(id.as_str());
                    PageStep::Ask(PageState::Song { url, id }, call)
                },
                Err(error) => PageStep::Failed(error),
            },
            BilibiliTarget::Article(_) => match self.article_id(url.as_str()) {
                Ok(id) => {
                    let call = self.article_call(id.as_str());
                    PageStep::Ask(PageState::Article(id), call)
                },
                Err(error) => PageStep::Failed(error),
            },
            BilibiliTarget::Dynamic(_) => PageStep::Failed(ProviderError::Unsupported(url)),
        }
    }

    /// What follows an answer about a page.
    pub fn next_page(
        &self,
        state: PageState,
        answer: ProviderResult<Json>,
        options: &ParseOptions,
        cookie: &Option<String>,
    ) -> (r: PageStep)
        ensures
            r@ == page_after(
                *self,
                state@,
                answer_of(answer),
                quality_limit(options.quality),
                opt_text(*cookie),
            ),
    {
        let root = match answer {
            Ok(root) => root,
            Err(error) => {
                return PageStep::Failed(error);
            },
        };
        match state {
            PageState::Video { url, question } => match question {
                VideoQuestion::Season { episode, id } => match self.season_video(
                    url.as_str(),
                    episode,
                    id.as_str(),
                    &root,
                ) {
                    Ok(page) => self.ask_video(page),
                    Err(error) => PageStep::Failed(error),
                },
                VideoQuestion::ByName(name) => {
                    let name = Some(name);
                    self.ask_streams(self.video_id(&name, root), options)
                },
                VideoQuestion::ByNumber(_) => {
                    let name: Option<String> = None;
                    self.ask_streams(self.video_id(&name, root), options)
                },
            },
            PageState::Streams(id) => PageStep::Done(
                self.video_content(&id, &root, options, cookie),
            ),
            PageState::Live(id) => PageStep::Done(self.live_content(id.as_str(), &root, cookie)),
            PageState::Song { url, id } => {
                let call = self.audio_stream_call(id.as_str());
                PageStep::Ask(PageState::Sound { url, id, song: root }, call)
            },
            PageState::Sound { url, id, song } => match self.audio_content(
                url.as_str(),
                id.as_str(),
                &song,
                &root,
                cookie,
            ) {
                Ok(content) => PageStep::Done(content),
                Err(error) => PageStep::Failed(error),
            },
            PageState::Article(id) => PageStep::Done(
                self.article_content(id.as_str(), &root, cookie),
            ),
        }
    }
}

/// What was asked last about a post.
#[derive(Debug)]
pub enum PostState {
    /// The post.
    Post { url: String, id: String },
    /// The long post; the answer about the post is known.
    Opus { id: String, root: Json },
}

/// What was asked last about a post, as plain values.
#[verifier::ext_equal]
pub enum PostStateView {
    Post { url: Seq<char>, id: Seq<char> },
    Opus { id: Seq<char>, root: Json },
}

impl View for PostState {
    type V = PostStateView;

    open spec fn view(&self) -> PostStateView {
        match self {
            PostState::Post { url, id } => PostStateView::Post { url: url@, id: id@ },
            PostState::Opus { id, root } => PostStateView::Opus { id: id@, root: *root },
        }
    }
}

/// A post that was read, but for what it embeds.
#[derive(Debug)]
pub struct ReadPost {
    pub id: String,
    pub root: Json,
    pub opus: Option<OpusProjection>,
}

/// A post that was read, as plain values.
#[verifier::ext_equal]
pub struct ReadPostView {
    pub id: Seq<char>,
    pub root: Json,
    pub opus: Option<OpusView>,
}

impl View for ReadPost {
    type V = ReadPostView;

    open spec fn view(&self) -> ReadPostView {
        ReadPostView { id: self.id@, root: self.root, opus: opus_view(self.opus) }
    }
}

/// What is done next about a post.
#[derive(Debug)]
pub enum PostStep {
    /// The API is asked.
    Ask(PostState, ApiCall),
    /// The page that the post embeds is read.
    Embed(ReadPost, BilibiliTarget),
    Done(ParsedContent),
    Failed(ProviderError),
}

/// What is done next about a post, as plain values.
#[verifier::ext_equal]
pub enum PostStepView {
    Ask(PostStateView, ApiCallView),
    Embed(ReadPostView, TargetView),
    Done(ParsedContentView),
    Failed(ErrorView),
}

impl View for PostStep {
    type V = PostStepView;

    open spec fn view(&self) -> PostStepView {
        match self {
            PostStep::Ask(state, call) => PostStepView::Ask(state@, call@),
            PostStep::Embed(post, target) => PostStepView::Embed(post@, target@),
            PostStep::Done(content) => PostStepView::Done(content@),
            PostStep::Failed(error) => PostStepView::Failed(error@),
        }
    }
}

/// The post in the answer about it.
pub open spec fn post_in(root: Json) -> Option<Json> {
    present(value_at(root, "/data/item"@))
}

/// The content of a post that was read, with what it embeds.
pub open spec fn post_content(
    post: ReadPostView,
    embedded: Option<ParsedContentView>,
    cookie: Option<Seq<char>>,
) -> ParsedContentView {
    dynamic_content_of(post.id, or_null(post_in(post.root)), post.opus, embedded, cookie)
}

/// What follows once the long post was read, or could not be.
pub open spec fn post_read(post: ReadPostView, cookie: Option<Seq<char>>) -> PostStepView {
    match embedded_target_of(or_null(post_in(post.root))) {
        Some(target) => PostStepView::Embed(post, target),
        None => PostStepView::Done(post_content(post, None, cookie)),
    }
}

/// What follows an answer about a post. Without the post there is nothing to show; a long post
/// that could not be read is done without.
pub open spec fn post_after(
    p: BilibiliProvider,
    state: PostStateView,
    answer: Result<Json, ErrorView>,
    cookie: Option<Seq<char>>,
) -> PostStepView {
    match state {
        PostStateView::Post { url, id } => match answer {
            Err(error) => PostStepView::Failed(error),
            Ok(root) => match post_in(root) {
                None => PostStepView::Failed(ErrorView::Unavailable(url)),
                Some(item) => if is_opus(item) {
                    PostStepView::Ask(
                        PostStateView::Opus { id, root },
                        opus_question(p.api_base@, source_id_of(item, id)),
                    )
                } else {
                    post_read(ReadPostView { id, root, opus: None }, cookie)
                },
            },
        },
        PostStateView::Opus { id, root } => post_read(
            ReadPostView { id, root, opus: long_post(answer) },
            cookie,
        ),
    }
}

/// The long post in an answer, where it can be read.
pub open spec fn long_post(answer: Result<Json, ErrorView>) -> Option<OpusView> {
    match answer {
        Ok(document) => match opus_of(document) {
            Ok(opus) => Some(opus),
            Err(_) => None,
        },
        Err(_) => None,
    }
}

/// Once a post was found, it is shown, whatever becomes of its long form and of what it embeds:
/// reading it fails only where the post itself cannot be had, and after its long form nothing
/// more is asked about it.
pub proof fn law_post_is_shown(
    p: BilibiliProvider,
    state: PostStateView,
    answer: Result<Json, ErrorView>,
    cookie: Option<Seq<char>>,
)
    ensures
        post_after(p, state, answer, cookie) is Failed ==> state is Post && (answer is Err
            || post_in(answer->Ok_0) is None),
        state is Opus ==> !(post_after(p, state, answer, cookie) is Ask),
{
}

fn post_item<'a>(root: &'a Json, none: &'a Json) -> (r: &'a Json)
    requires
        *none == Json::Null,
    ensures
        *r == or_null(post_in(*root)),
{
    match root.pointer("/data/item") {
        Some(item) => match item {
            Json::Null => none,
            _ => item,
        },
        None => none,
    }
}

impl BilibiliTarget {
    /// Whether the cookies of the device are wanted before the page is asked for.
    pub fn wants_device(&self) -> (r: bool)
        ensures
            r == (self@ is Dynamic),
    {
        match self {
            BilibiliTarget::Dynamic(_) => true,
            _ => false,
        }
    }
}

impl BilibiliProvider {
    /// The first question about a post.
    pub fn start_post(&self, url: String, id: String) -> (r: PostStep)
        ensures
            r@ == PostStepView::Ask(
                PostStateView::Post { url: url@, id: id@ },
                post_question(self.api_base@, id@),
            ),
    {
        let call = self.dynamic_call(id.as_str());
        PostStep::Ask(PostState::Post { url, id }, call)
    }

    fn read_post(&self, post: ReadPost, cookie: &Option<String>) -> (r: PostStep)
        ensures
            r@ == post_read(post@, opt_text(*cookie)),
    {
        let none = Json::Null;
        match self.embedded_target(post_item(&post.root, &none)) {
            Some(target) => PostStep::Embed(post, target),
            None => PostStep::Done(
                dynamic_content(
                    post.id.as_str(),
                    post_item(&post.root, &none),
                    post.opus,
                    None,
                    cookie,
                ),
            ),
        }
    }

    /// What follows an answer about a post.
    pub fn next_post(
        &self,
        state: PostState,
        answer: ProviderResult<Json>,
        cookie: &Option<String>,
    ) -> (r: PostStep)
        ensures
            r@ == post_after(*self, state@, answer_of(answer), opt_text(*cookie)),
    {
        match state {
            PostState::Post { url, id } => match answer {
                Err(error) => PostStep::Failed(error),
                Ok(root) => {
                    let opus = match self.dynamic_item(url.as_str(), &root) {
                        Ok(item) => self.opus_id(item, id.as_str()),
                        Err(error) => {
                            return PostStep::Failed(error);
                        },
                    };
                    match opus {
                        Some(opus) => {
                            let call = self.opus_call(opus.as_str());
                            PostStep::Ask(PostState::Opus { id, root }, call)
                        },
                        None => self.read_post(ReadPost { id, root, opus: None }, cookie),
                    }
                },
            },
            PostState::Opus { id, root } => {
                let opus = match answer {
                    Ok(document) => match opus_projection(&document) {
                        Ok(opus) => Some(opus),
                        Err(_) => None,
                    },
                    Err(_) => None,
                };
                self.read_post(ReadPost { id, root, opus }, cookie)
            },
        }
    }

    /// The content of a post once the page that it embeds was read; a page that could not be
    /// read is left out.
    pub fn finish_post(
        &self,
        post: ReadPost,
        embedded: ProviderResult<ParsedContent>,
        cookie: &Option<String>,
    ) -> (r: ParsedContent)
        ensures
            r@ == post_content(
                post@,
                match embedded {
                    Ok(content) => Some(content@),
                    Err(_) => None,
                },
                opt_text(*cookie),
            ),
    {
        let none = Json::Null;
        let embedded = match embedded {
            Ok(content) => Some(content),
            Err(_) => None,
        };
        dynamic_content(
            post.id.as_str(),
            post_item(&post.root, &none),
            post.opus,
            embedded,
            cookie,
        )
    }
}

} // verus!
