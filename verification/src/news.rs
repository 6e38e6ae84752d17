//! News: an entry is a sequence of slides, each a text or a piece of media.

use crate::client::Client;
use crate::comments::{comments_stats_key, loaded_comments, CommentsManager};
use crate::content::{updated, Color, Update};
use crate::error::{BuilderError, Error, RoomError};
use crate::executor::subscribed;
use crate::keys::{
    clone_option, derive_key, derived_key, history_tag, key_listed, option_view, strings_view,
};
use crate::media::{
    audio_info_view, clone_audio_info, clone_file_info, clone_image_info, clone_video_info,
    file_info_view, image_info_view, safe_of, video_info_view, AudioInfo, AudioInfoView,
    FileInfo, FileInfoView, ImageInfo, ImageInfoView, VideoInfo, VideoInfoView,
};
use crate::models::{
    default_model_execute, default_model_redact, update_model_execute, ActerModel,
    AnyActerModel, AnyActerModelView, Capability, EventMeta, EventMetaView, ExecutableModel,
    RedactedActerModel,
};
use crate::store::{models_view, Store};
use async_broadcast::Receiver;
use vstd::prelude::*;

verus! {

/// The key of the index that lists every news entry.
pub open spec fn news_tag() -> Seq<char> {
    "news"@
}

/// What one slide shows.
#[derive(Debug, PartialEq, Eq)]
pub enum NewsContent {
    /// A text, with an optional formatted rendition.
    Text { body: String, formatted: Option<String> },
    /// An image at `url`, described by `body`.
    Image { body: String, url: String, info: Option<ImageInfo> },
    /// A sound recording at `url`, described by `body`.
    Audio { body: String, url: String, info: Option<AudioInfo> },
    /// A video at `url`, described by `body`.
    Video { body: String, url: String, info: Option<VideoInfo> },
    /// A file at `url`, described by `body`.
    File { body: String, url: String, info: Option<FileInfo> },
}

/// The contents of a [`NewsContent`].
pub enum NewsContentView {
    Text { body: Seq<char>, formatted: Option<Seq<char>> },
    Image { body: Seq<char>, url: Seq<char>, info: Option<ImageInfoView> },
    Audio { body: Seq<char>, url: Seq<char>, info: Option<AudioInfoView> },
    Video { body: Seq<char>, url: Seq<char>, info: Option<VideoInfoView> },
    File { body: Seq<char>, url: Seq<char>, info: Option<FileInfoView> },
}

/// A piece of media as it is shown: its name, where it is read from, and
/// what is known about it.
pub struct DescView<I> {
    pub name: Seq<char>,
    pub source: Seq<char>,
    pub info: I,
}

impl NewsContentView {
    /// The name of the kind of content.
    pub open spec fn type_str(self) -> Seq<char> {
        match self {
            NewsContentView::Text { .. } => "text"@,
            NewsContentView::Image { .. } => "image"@,
            NewsContentView::Audio { .. } => "audio"@,
            NewsContentView::Video { .. } => "video"@,
            NewsContentView::File { .. } => "file"@,
        }
    }

    /// The text to show for the content: the formatted rendition of a text
    /// where it has one, the body otherwise.
    pub open spec fn text(self) -> Seq<char> {
        match self {
            NewsContentView::Text { body, formatted } => match formatted {
                Some(f) => f,
                None => body,
            },
            NewsContentView::Image { body, .. } => body,
            NewsContentView::Audio { body, .. } => body,
            NewsContentView::Video { body, .. } => body,
            NewsContentView::File { body, .. } => body,
        }
    }

    /// The image that the content shows, where it shows one and something
    /// is known about it.
    pub open spec fn image_desc(self) -> Option<DescView<ImageInfoView>> {
        match self {
            NewsContentView::Image { body, url, info: Some(info) } => Some(
                DescView { name: body, source: url, info },
            ),
            _ => None,
        }
    }

    /// The sound recording that the content plays, where it plays one and
    /// something is known about it.
    pub open spec fn audio_desc(self) -> Option<DescView<AudioInfoView>> {
        match self {
            NewsContentView::Audio { body, url, info: Some(info) } => Some(
                DescView { name: body, source: url, info },
            ),
            _ => None,
        }
    }

    /// The video that the content shows, where it shows one and something
    /// is known about it.
    pub open spec fn video_desc(self) -> Option<DescView<VideoInfoView>> {
        match self {
            NewsContentView::Video { body, url, info: Some(info) } => Some(
                DescView { name: body, source: url, info },
            ),
            _ => None,
        }
    }

    /// The file that the content offers, where it offers one and something
    /// is known about it.
    pub open spec fn file_desc(self) -> Option<DescView<FileInfoView>> {
        match self {
            NewsContentView::File { body, url, info: Some(info) } => Some(
                DescView { name: body, source: url, info },
            ),
            _ => None,
        }
    }
}

impl View for NewsContent {
    type V = NewsContentView;

    open spec fn view(&self) -> NewsContentView {
        match self {
            NewsContent::Text { body, formatted } => NewsContentView::Text {
                body: body@,
                formatted: option_view(*formatted),
            },
            NewsContent::Image { body, url, info } => NewsContentView::Image {
                body: body@,
                url: url@,
                info: image_info_view(*info),
            },
            NewsContent::Audio { body, url, info } => NewsContentView::Audio {
                body: body@,
                url: url@,
                info: audio_info_view(*info),
            },
            NewsContent::Video { body, url, info } => NewsContentView::Video {
                body: body@,
                url: url@,
                info: video_info_view(*info),
            },
            NewsContent::File { body, url, info } => NewsContentView::File {
                body: body@,
                url: url@,
                info: file_info_view(*info),
            },
        }
    }
}

impl Clone for NewsContent {
    fn clone(&self) -> (copy: Self)
        ensures
            copy@ == self@,
    {
        match self {
            NewsContent::Text { body, formatted } => NewsContent::Text {
                body: body.clone(),
                formatted: clone_option(formatted),
            },
            NewsContent::Image { body, url, info } => NewsContent::Image {
                body: body.clone(),
                url: url.clone(),
                info: clone_image_info(info),
            },
            NewsContent::Audio { body, url, info } => NewsContent::Audio {
                body: body.clone(),
                url: url.clone(),
                info: clone_audio_info(info),
            },
            NewsContent::Video { body, url, info } => NewsContent::Video {
                body: body.clone(),
                url: url.clone(),
                info: clone_video_info(info),
            },
            NewsContent::File { body, url, info } => NewsContent::File {
                body: body.clone(),
                url: url.clone(),
                info: clone_file_info(info),
            },
        }
    }
}

impl NewsContent {
    /// The name of the kind of content.
    pub fn type_str(&self) -> (name: String)
        ensures
            name@ == self@.type_str(),
    {
        match self {
            NewsContent::Text { .. } => "text".to_owned(),
            NewsContent::Image { .. } => "image".to_owned(),
            NewsContent::Audio { .. } => "audio".to_owned(),
            NewsContent::Video { .. } => "video".to_owned(),
            NewsContent::File { .. } => "file".to_owned(),
        }
    }

    /// The text to show for the content.
    pub fn text(&self) -> (text: String)
        ensures
            text@ == self@.text(),
    {
        match self {
            NewsContent::Text { body, formatted } => match formatted {
                Some(f) => f.clone(),
                None => body.clone(),
            },
            NewsContent::Image { body, .. } => body.clone(),
            NewsContent::Audio { body, .. } => body.clone(),
            NewsContent::Video { body, .. } => body.clone(),
            NewsContent::File { body, .. } => body.clone(),
        }
    }
}

/// One slide of a news entry.
#[derive(Debug, PartialEq, Eq)]
pub struct NewsSlide {
    pub content: NewsContent,
}

impl View for NewsSlide {
    type V = NewsContentView;

    open spec fn view(&self) -> NewsContentView {
        self.content@
    }
}

impl Clone for NewsSlide {
    fn clone(&self) -> (copy: Self)
        ensures
            copy@ == self@,
    {
        NewsSlide { content: self.content.clone() }
    }
}

/// An image as it is shown: its name, where it is read from, and what is
/// known about it.
#[derive(Debug, PartialEq, Eq)]
pub struct ImageDesc {
    pub name: String,
    pub source: String,
    pub info: ImageInfo,
}

impl View for ImageDesc {
    type V = DescView<ImageInfoView>;

    open spec fn view(&self) -> DescView<ImageInfoView> {
        DescView { name: self.name@, source: self.source@, info: self.info@ }
    }
}

impl ImageDesc {
    /// The description with the given fields.
    pub fn new(name: String, source: String, info: ImageInfo) -> (desc: ImageDesc)
        ensures
            desc@ == (DescView { name: name@, source: source@, info: info@ }),
    {
        ImageDesc { name, source, info }
    }
}

/// The contents of an optional [`ImageDesc`].
pub open spec fn image_desc_view(desc: Option<ImageDesc>) -> Option<DescView<ImageInfoView>> {
    match desc {
        Some(d) => Some(d@),
        None => None,
    }
}

/// A sound recording as it is shown: its name, where it is read from, and what is
/// known about it.
#[derive(Debug, PartialEq, Eq)]
pub struct AudioDesc {
    pub name: String,
    pub source: String,
    pub info: AudioInfo,
}

impl View for AudioDesc {
    type V = DescView<AudioInfoView>;

    open spec fn view(&self) -> DescView<AudioInfoView> {
        DescView { name: self.name@, source: self.source@, info: self.info@ }
    }
}

impl AudioDesc {
    /// The description with the given fields.
    pub fn new(name: String, source: String, info: AudioInfo) -> (desc: AudioDesc)
        ensures
            desc@ == (DescView { name: name@, source: source@, info: info@ }),
    {
        AudioDesc { name, source, info }
    }
}

/// The contents of an optional [`AudioDesc`].
pub open spec fn audio_desc_view(desc: Option<AudioDesc>) -> Option<DescView<AudioInfoView>> {
    match desc {
        Some(d) => Some(d@),
        None => None,
    }
}

/// A video as it is shown: its name, where it is read from, and what is
/// known about it.
#[derive(Debug, PartialEq, Eq)]
pub struct VideoDesc {
    pub name: String,
    pub source: String,
    pub info: VideoInfo,
}

impl View for VideoDesc {
    type V = DescView<VideoInfoView>;

    open spec fn view(&self) -> DescView<VideoInfoView> {
        DescView { name: self.name@, source: self.source@, info: self.info@ }
    }
}

impl VideoDesc {
    /// The description with the given fields.
    pub fn new(name: String, source: String, info: VideoInfo) -> (desc: VideoDesc)
        ensures
            desc@ == (DescView { name: name@, source: source@, info: info@ }),
    {
        VideoDesc { name, source, info }
    }
}

/// The contents of an optional [`VideoDesc`].
pub open spec fn video_desc_view(desc: Option<VideoDesc>) -> Option<DescView<VideoInfoView>> {
    match desc {
        Some(d) => Some(d@),
        None => None,
    }
}

/// A file as it is shown: its name, where it is read from, and what is
/// known about it.
#[derive(Debug, PartialEq, Eq)]
pub struct FileDesc {
    pub name: String,
    pub source: String,
    pub info: FileInfo,
}

impl View for FileDesc {
    type V = DescView<FileInfoView>;

    open spec fn view(&self) -> DescView<FileInfoView> {
        DescView { name: self.name@, source: self.source@, info: self.info@ }
    }
}

impl FileDesc {
    /// The description with the given fields.
    pub fn new(name: String, source: String, info: FileInfo) -> (desc: FileDesc)
        ensures
            desc@ == (DescView { name: name@, source: source@, info: info@ }),
    {
        FileDesc { name, source, info }
    }
}

/// The contents of an optional [`FileDesc`].
pub open spec fn file_desc_view(desc: Option<FileDesc>) -> Option<DescView<FileInfoView>> {
    match desc {
        Some(d) => Some(d@),
        None => None,
    }
}

impl NewsSlide {
    /// A slide that shows the text `body`.
    pub fn new_text(body: String) -> (slide: NewsSlide)
        ensures
            slide@ == (NewsContentView::Text { body: body@, formatted: None }),
    {
        NewsSlide { content: NewsContent::Text { body, formatted: None } }
    }

    /// A slide that shows the image at `url`, described by `body`.
    pub fn new_image(body: String, url: String, info: Option<ImageInfo>) -> (slide: NewsSlide)
        ensures
            slide@ == (NewsContentView::Image {
                body: body@,
                url: url@,
                info: image_info_view(info),
            }),
    {
        NewsSlide { content: NewsContent::Image { body, url, info } }
    }

    /// A slide that shows the sound recording at `url`, described by `body`.
    pub fn new_audio(body: String, url: String, info: Option<AudioInfo>) -> (slide: NewsSlide)
        ensures
            slide@ == (NewsContentView::Audio {
                body: body@,
                url: url@,
                info: audio_info_view(info),
            }),
    {
        NewsSlide { content: NewsContent::Audio { body, url, info } }
    }

    /// A slide that shows the video at `url`, described by `body`.
    pub fn new_video(body: String, url: String, info: Option<VideoInfo>) -> (slide: NewsSlide)
        ensures
            slide@ == (NewsContentView::Video {
                body: body@,
                url: url@,
                info: video_info_view(info),
            }),
    {
        NewsSlide { content: NewsContent::Video { body, url, info } }
    }

    /// A slide that shows the file at `url`, described by `body`.
    pub fn new_file(body: String, url: String, info: Option<FileInfo>) -> (slide: NewsSlide)
        ensures
            slide@ == (NewsContentView::File {
                body: body@,
                url: url@,
                info: file_info_view(info),
            }),
    {
        NewsSlide { content: NewsContent::File { body, url, info } }
    }

    /// The name of the kind of content the slide shows.
    pub fn type_str(&self) -> (name: String)
        ensures
            name@ == self@.type_str(),
    {
        self.content.type_str()
    }

    /// The image that the slide shows, where there is one and something is
    /// known about it.
    pub fn image_desc(&self) -> (desc: Option<ImageDesc>)
        ensures
            image_desc_view(desc) == self@.image_desc(),
    {
        match &self.content {
            NewsContent::Image { body, url, info: Some(info) } => Some(
                ImageDesc::new(body.clone(), url.clone(), info.clone()),
            ),
            _ => None,
        }
    }

    /// The sound recording that the slide plays, where there is one and something is
    /// known about it.
    pub fn audio_desc(&self) -> (desc: Option<AudioDesc>)
        ensures
            audio_desc_view(desc) == self@.audio_desc(),
    {
        match &self.content {
            NewsContent::Audio { body, url, info: Some(info) } => Some(
                AudioDesc::new(body.clone(), url.clone(), info.clone()),
            ),
            _ => None,
        }
    }

    /// The video that the slide shows, where there is one and something is
    /// known about it.
    pub fn video_desc(&self) -> (desc: Option<VideoDesc>)
        ensures
            video_desc_view(desc) == self@.video_desc(),
    {
        match &self.content {
            NewsContent::Video { body, url, info: Some(info) } => Some(
                VideoDesc::new(body.clone(), url.clone(), info.clone()),
            ),
            _ => None,
        }
    }

    /// The file that the slide offers, where there is one and something is
    /// known about it.
    pub fn file_desc(&self) -> (desc: Option<FileDesc>)
        ensures
            file_desc_view(desc) == self@.file_desc(),
    {
        match &self.content {
            NewsContent::File { body, url, info: Some(info) } => Some(
                FileDesc::new(body.clone(), url.clone(), info.clone()),
            ),
            _ => None,
        }
    }

    /// The text to show for the slide.
    pub fn text(&self) -> (text: String)
        ensures
            text@ == self@.text(),
    {
        self.content.text()
    }
}

/// The contents of a list of slides.
pub open spec fn slides_view(slides: Seq<NewsSlide>) -> Seq<NewsContentView> {
    slides.map_values(|s: NewsSlide| s@)
}

/// The colours of a news entry.
#[derive(Clone, Copy, Debug, PartialEq, Eq, Structural)]
pub struct Colorize {
    /// The colour of the text.
    pub color: Option<Color>,
    /// The colour behind the text.
    pub background: Option<Color>,
}

/// What a news entry says: its slides and its colours.
#[derive(Debug, PartialEq, Eq)]
pub struct NewsEntryEventContent {
    pub slides: Vec<NewsSlide>,
    pub colors: Option<Colorize>,
}

/// The contents of a [`NewsEntryEventContent`].
pub struct NewsEntryEventContentView {
    pub slides: Seq<NewsContentView>,
    pub colors: Option<Colorize>,
}

impl View for NewsEntryEventContent {
    type V = NewsEntryEventContentView;

    open spec fn view(&self) -> NewsEntryEventContentView {
        NewsEntryEventContentView { slides: slides_view(self.slides@), colors: self.colors }
    }
}

impl Clone for NewsEntryEventContent {
    fn clone(&self) -> (copy: Self)
        ensures
            copy@ == self@,
    {
        NewsEntryEventContent { slides: clone_slides(&self.slides), colors: self.colors }
    }
}

/// A news entry: what it says and the event it was decoded from.
#[derive(Debug, PartialEq, Eq)]
pub struct NewsEntry {
    pub inner: NewsEntryEventContent,
    pub meta: EventMeta,
}

/// The contents of a [`NewsEntry`].
pub struct NewsEntryView {
    pub inner: NewsEntryEventContentView,
    pub meta: EventMetaView,
}

impl View for NewsEntry {
    type V = NewsEntryView;

    open spec fn view(&self) -> NewsEntryView {
        NewsEntryView { inner: self.inner@, meta: self.meta@ }
    }
}

impl Clone for NewsEntry {
    fn clone(&self) -> (copy: Self)
        ensures
            copy@ == self@,
    {
        NewsEntry { inner: self.inner.clone(), meta: self.meta.clone() }
    }
}

/// A copy of a list of slides.
pub fn clone_slides(given: &Vec<NewsSlide>) -> (slides: Vec<NewsSlide>)
    ensures
        slides_view(slides@) == slides_view(given@),
{
    let mut slides: Vec<NewsSlide> = Vec::new();
    let mut i: usize = 0;
    while i < given.len()
        invariant
            i <= given.len(),
            slides_view(slides@) == slides_view(given@).take(i as int),
        decreases given.len() - i,
    {
        let ghost before = slides@;
        let slide = given[i].clone();
        slides.push(slide);
        assert(slides_view(slides@) =~= slides_view(before).push(slide@));
        assert(slides_view(given@).take(i + 1) =~= slides_view(given@).take(i as int).push(
            given@[i as int]@,
        ));
        i += 1;
    }
    assert(slides_view(given@).take(given.len() as int) =~= slides_view(given@));
    slides
}

impl NewsEntry {
    /// The number of comments that is shown with an entry. Entries do not
    /// count their comments yet: every entry shows the same figure.
    pub fn comments_count(&self) -> (count: u32)
        ensures
            count == 4,
    {
        4
    }

    /// The number of likes that is shown with an entry. Entries do not count
    /// their likes yet: every entry shows the same figure.
    pub fn likes_count(&self) -> (count: u32)
        ensures
            count == 19,
    {
        19
    }

    /// The number of slides, as far as a `u8` can hold it.
    pub fn slides_count(&self) -> (count: u8)
        ensures
            count == if self@.inner.slides.len() <= u8::MAX {
                self@.inner.slides.len() as int
            } else {
                u8::MAX as int
            },
    {
        if self.inner.slides.len() <= 255 {
            self.inner.slides.len() as u8
        } else {
            255
        }
    }

    /// The slide at `pos`, if there is one.
    pub fn get_slide(&self, pos: u8) -> (slide: Option<NewsSlide>)
        ensures
            match slide {
                Some(s) => pos < self@.inner.slides.len() && s@ == self@.inner.slides[pos as int],
                None => pos >= self@.inner.slides.len(),
            },
    {
        if (pos as usize) < self.inner.slides.len() {
            Some(self.inner.slides[pos as usize].clone())
        } else {
            None
        }
    }
}

/// A draft of a news entry: the slides in the order they were added, and the
/// colours.
#[derive(Debug)]
pub struct NewsEntryDraft {
    slides: Vec<NewsSlide>,
    colors: Option<Colorize>,
}

impl View for NewsEntryDraft {
    type V = NewsEntryEventContentView;

    closed spec fn view(&self) -> NewsEntryEventContentView {
        NewsEntryEventContentView { slides: slides_view(self.slides@), colors: self.colors }
    }
}

impl NewsEntryDraft {
    /// A draft without slides and without colours.
    pub fn new() -> (draft: NewsEntryDraft)
        ensures
            draft@ == (NewsEntryEventContentView { slides: Seq::empty(), colors: None }),
    {
        let draft = NewsEntryDraft { slides: Vec::new(), colors: None };
        assert(slides_view(draft.slides@) =~= Seq::<NewsContentView>::empty());
        draft
    }

    fn add_slide(&mut self, slide: NewsSlide)
        ensures
            final(self)@ == (NewsEntryEventContentView {
                slides: old(self)@.slides.push(slide@),
                colors: old(self)@.colors,
            }),
    {
        let ghost before = self.slides@;
        self.slides.push(slide);
        assert(slides_view(self.slides@) =~= slides_view(before).push(slide@));
    }

    /// Adds a slide that shows the text `body`.
    pub fn add_text_slide(&mut self, body: String) -> (draft: &mut Self)
        ensures
            draft@ == (NewsEntryEventContentView {
                slides: old(self)@.slides.push(
                    NewsContentView::Text { body: body@, formatted: None },
                ),
                colors: old(self)@.colors,
            }),
            *final(self) == *final(draft),
    {
        self.add_slide(NewsSlide::new_text(body));
        self
    }

    /// Adds a slide that shows the image at `url`.
    pub fn add_image_slide(
        &mut self,
        body: String,
        url: String,
        mimetype: Option<String>,
        size: Option<u64>,
        width: Option<u64>,
        height: Option<u64>,
        blurhash: Option<String>,
    ) -> (draft: &mut Self)
        ensures
            draft@ == (NewsEntryEventContentView {
                slides: old(self)@.slides.push(
                    NewsContentView::Image {
                        body: body@,
                        url: url@,
                        info: Some(
                            ImageInfoView {
                                height: safe_of(height),
                                width: safe_of(width),
                                mimetype: option_view(mimetype),
                                size: safe_of(size),
                                blurhash: option_view(blurhash),
                            },
                        ),
                    },
                ),
                colors: old(self)@.colors,
            }),
            *final(self) == *final(draft),
    {
        let info = ImageInfo::new(mimetype, size, width, height, blurhash);
        self.add_slide(NewsSlide::new_image(body, url, Some(info)));
        self
    }

    /// Adds a slide that plays the sound recording at `url`.
    pub fn add_audio_slide(
        &mut self,
        body: String,
        url: String,
        secs: Option<u64>,
        mimetype: Option<String>,
        size: Option<u64>,
    ) -> (draft: &mut Self)
        ensures
            draft@ == (NewsEntryEventContentView {
                slides: old(self)@.slides.push(
                    NewsContentView::Audio {
                        body: body@,
                        url: url@,
                        info: Some(
                            AudioInfoView {
                                duration_secs: secs,
                                mimetype: option_view(mimetype),
                                size: safe_of(size),
                            },
                        ),
                    },
                ),
                colors: old(self)@.colors,
            }),
            *final(self) == *final(draft),
    {
        let info = AudioInfo::new(secs, mimetype, size);
        self.add_slide(NewsSlide::new_audio(body, url, Some(info)));
        self
    }

    /// Adds a slide that shows the video at `url`.
    pub fn add_video_slide(
        &mut self,
        body: String,
        url: String,
        secs: Option<u64>,
        height: Option<u64>,
        width: Option<u64>,
        mimetype: Option<String>,
        size: Option<u64>,
        blurhash: Option<String>,
    ) -> (draft: &mut Self)
        ensures
            draft@ == (NewsEntryEventContentView {
                slides: old(self)@.slides.push(
                    NewsContentView::Video {
                        body: body@,
                        url: url@,
                        info: Some(
                            VideoInfoView {
                                duration_secs: secs,
                                height: safe_of(height),
                                width: safe_of(width),
                                mimetype: option_view(mimetype),
                                size: safe_of(size),
                                blurhash: option_view(blurhash),
                            },
                        ),
                    },
                ),
                colors: old(self)@.colors,
            }),
            *final(self) == *final(draft),
    {
        let info = VideoInfo::new(secs, height, width, mimetype, size, blurhash);
        self.add_slide(NewsSlide::new_video(body, url, Some(info)));
        self
    }

    /// Adds a slide that offers the file at `url`.
    pub fn add_file_slide(
        &mut self,
        body: String,
        url: String,
        mimetype: Option<String>,
        size: Option<u64>,
    ) -> (draft: &mut Self)
        ensures
            draft@ == (NewsEntryEventContentView {
                slides: old(self)@.slides.push(
                    NewsContentView::File {
                        body: body@,
                        url: url@,
                        info: Some(
                            FileInfoView { mimetype: option_view(mimetype), size: safe_of(size) },
                        ),
                    },
                ),
                colors: old(self)@.colors,
            }),
            *final(self) == *final(draft),
    {
        let info = FileInfo::new(mimetype, size);
        self.add_slide(NewsSlide::new_file(body, url, Some(info)));
        self
    }

    /// Takes every slide out of the draft.
    pub fn unset_slides(&mut self) -> (draft: &mut Self)
        ensures
            draft@ == (NewsEntryEventContentView {
                slides: Seq::empty(),
                colors: old(self)@.colors,
            }),
            *final(self) == *final(draft),
    {
        self.slides.clear();
        assert(slides_view(self.slides@) =~= Seq::<NewsContentView>::empty());
        self
    }

    /// Sets the colours.
    pub fn colors(&mut self, colors: Colorize) -> (draft: &mut Self)
        ensures
            draft@ == (NewsEntryEventContentView {
                slides: old(self)@.slides,
                colors: Some(colors),
            }),
            *final(self) == *final(draft),
    {
        self.colors = Some(colors);
        self
    }

    /// Sets the colours to none.
    pub fn unset_colors(&mut self) -> (draft: &mut Self)
        ensures
            draft@ == (NewsEntryEventContentView { slides: old(self)@.slides, colors: None }),
            *final(self) == *final(draft),
    {
        self.colors = None;
        self
    }

    /// What the entry says, as drafted so far.
    pub fn build(&self) -> (content: NewsEntryEventContent)
        ensures
            content@ == self@,
    {
        NewsEntryEventContent { slides: clone_slides(&self.slides), colors: self.colors }
    }
}

/// An update of a news entry: every field that is present replaces the field
/// of the entry.
#[derive(Debug, PartialEq, Eq)]
pub struct NewsEntryUpdateEventContent {
    /// The entry that is updated.
    pub news_entry: Update,
    /// The new slides, if the slides are to change.
    pub slides: Option<Vec<NewsSlide>>,
    /// The new colours, if the colours are to change.
    pub colors: Option<Option<Colorize>>,
}

/// The contents of a [`NewsEntryUpdateEventContent`].
pub struct NewsEntryUpdateEventContentView {
    pub news_entry: Seq<char>,
    pub slides: Option<Seq<NewsContentView>>,
    pub colors: Option<Option<Colorize>>,
}

/// The contents of an optional list of slides.
pub open spec fn optional_slides_view(slides: Option<Vec<NewsSlide>>) -> Option<
    Seq<NewsContentView>,
> {
    match slides {
        Some(s) => Some(slides_view(s@)),
        None => None,
    }
}

impl View for NewsEntryUpdateEventContent {
    type V = NewsEntryUpdateEventContentView;

    open spec fn view(&self) -> NewsEntryUpdateEventContentView {
        NewsEntryUpdateEventContentView {
            news_entry: self.news_entry.event_id@,
            slides: optional_slides_view(self.slides),
            colors: self.colors,
        }
    }
}

impl NewsEntryUpdateEventContentView {
    /// Whether the update sets any field.
    pub open spec fn sets_any(self) -> bool {
        self.slides is Some || self.colors is Some
    }

    /// What the entry says after the update.
    pub open spec fn applied(self, entry: NewsEntryEventContentView) -> NewsEntryEventContentView {
        NewsEntryEventContentView {
            slides: updated(self.slides, entry.slides),
            colors: updated(self.colors, entry.colors),
        }
    }
}

impl NewsEntryUpdateEventContent {
    /// Merges the update into `entry` and says whether the update set any
    /// field.
    pub fn apply(&self, entry: &mut NewsEntryEventContent) -> (changed: Result<bool, Error>)
        ensures
            changed == Ok::<bool, Error>(self@.sets_any()),
            final(entry)@ == self@.applied(old(entry)@),
    {
        let mut updated = false;
        if let Some(slides) = &self.slides {
            entry.slides = clone_slides(slides);
            updated = true;
        }
        if let Some(colors) = &self.colors {
            entry.colors = *colors;
            updated = true;
        }
        Ok(updated)
    }
}

/// Collects the changes to a news entry. The entry has to be set.
#[derive(Debug, Default)]
pub struct NewsEntryUpdateBuilder {
    news_entry: Option<Update>,
    slides: Option<Option<Vec<NewsSlide>>>,
    colors: Option<Option<Option<Colorize>>>,
}

/// The contents of a [`NewsEntryUpdateBuilder`]: each field as far as it was
/// set.
pub struct NewsEntryUpdateBuilderView {
    pub news_entry: Option<Seq<char>>,
    pub slides: Option<Option<Seq<NewsContentView>>>,
    pub colors: Option<Option<Option<Colorize>>>,
}

impl View for NewsEntryUpdateBuilder {
    type V = NewsEntryUpdateBuilderView;

    closed spec fn view(&self) -> NewsEntryUpdateBuilderView {
        NewsEntryUpdateBuilderView {
            news_entry: match self.news_entry {
                Some(v) => Some(v.event_id@),
                None => None,
            },
            slides: match self.slides {
                Some(v) => Some(optional_slides_view(v)),
                None => None,
            },
            colors: self.colors,
        }
    }
}

impl NewsEntryUpdateBuilderView {
    /// A builder on which nothing was set.
    pub open spec fn empty() -> NewsEntryUpdateBuilderView {
        NewsEntryUpdateBuilderView { news_entry: None, slides: None, colors: None }
    }

    /// The update that the builder builds, given that the entry was set.
    pub open spec fn built(self) -> NewsEntryUpdateEventContentView {
        NewsEntryUpdateEventContentView {
            news_entry: self.news_entry->0,
            slides: updated(self.slides, None),
            colors: updated(self.colors, None),
        }
    }
}

impl NewsEntryUpdateBuilder {
    /// A builder on which nothing is set.
    pub fn new() -> (builder: NewsEntryUpdateBuilder)
        ensures
            builder@ == NewsEntryUpdateBuilderView::empty(),
    {
        NewsEntryUpdateBuilder { news_entry: None, slides: None, colors: None }
    }

    /// Sets the entry that is updated.
    pub fn news_entry(&mut self, news_entry: Update) -> (builder: &mut Self)
        ensures
            builder@ == (NewsEntryUpdateBuilderView {
                news_entry: Some(news_entry.event_id@),
                ..old(self)@
            }),
            *final(self) == *final(builder),
    {
        self.news_entry = Some(news_entry);
        self
    }

    /// Changes the slides.
    pub fn slides(&mut self, slides: Vec<NewsSlide>) -> (builder: &mut Self)
        ensures
            builder@ == (NewsEntryUpdateBuilderView {
                slides: Some(Some(slides_view(slides@))),
                ..old(self)@
            }),
            *final(self) == *final(builder),
    {
        self.slides = Some(Some(slides));
        self
    }

    /// Changes the slides to none.
    pub fn unset_slides(&mut self) -> (builder: &mut Self)
        ensures
            builder@ == (NewsEntryUpdateBuilderView {
                slides: Some(Some(Seq::empty())),
                ..old(self)@
            }),
            *final(self) == *final(builder),
    {
        let none: Vec<NewsSlide> = Vec::new();
        assert(slides_view(none@) =~= Seq::<NewsContentView>::empty());
        self.slides = Some(Some(none));
        self
    }

    /// Leaves the slides as they are.
    pub fn unset_slides_update(&mut self) -> (builder: &mut Self)
        ensures
            builder@ == (NewsEntryUpdateBuilderView { slides: Some(None), ..old(self)@ }),
            *final(self) == *final(builder),
    {
        self.slides = Some(None);
        self
    }

    /// Changes the colours.
    pub fn colors(&mut self, colors: Colorize) -> (builder: &mut Self)
        ensures
            builder@ == (NewsEntryUpdateBuilderView {
                colors: Some(Some(Some(colors))),
                ..old(self)@
            }),
            *final(self) == *final(builder),
    {
        self.colors = Some(Some(Some(colors)));
        self
    }

    /// Changes the colours to none.
    pub fn unset_colors(&mut self) -> (builder: &mut Self)
        ensures
            builder@ == (NewsEntryUpdateBuilderView { colors: Some(Some(None)), ..old(self)@ }),
            *final(self) == *final(builder),
    {
        self.colors = Some(Some(None));
        self
    }

    /// Leaves the colours as they are.
    pub fn unset_colors_update(&mut self) -> (builder: &mut Self)
        ensures
            builder@ == (NewsEntryUpdateBuilderView { colors: Some(None), ..old(self)@ }),
            *final(self) == *final(builder),
    {
        self.colors = Some(None);
        self
    }

    /// Builds the update. Building fails exactly when the entry that is
    /// updated was never set.
    pub fn build(&self) -> (content: Result<NewsEntryUpdateEventContent, BuilderError>)
        ensures
            match content {
                Ok(c) => self@.news_entry is Some && c@ == self@.built(),
                Err(BuilderError::UninitializedField(field)) => self@.news_entry is None
                    && field@ == "news_entry"@,
            },
    {
        let news_entry = match &self.news_entry {
            Some(v) => Update { event_id: v.event_id.clone() },
            None => {
                return Err(BuilderError::UninitializedField("news_entry"));
            },
        };
        let slides = match &self.slides {
            Some(Some(v)) => Some(clone_slides(v)),
            Some(None) => None,
            None => None,
        };
        let colors = match self.colors {
            Some(v) => v,
            None => None,
        };
        Ok(NewsEntryUpdateEventContent { news_entry, slides, colors })
    }
}

/// An update of a news entry, as a model of its own.
#[derive(Debug, PartialEq, Eq)]
pub struct NewsEntryUpdate {
    pub inner: NewsEntryUpdateEventContent,
    pub meta: EventMeta,
}

/// The contents of a [`NewsEntryUpdate`].
pub struct NewsEntryUpdateView {
    pub inner: NewsEntryUpdateEventContentView,
    pub meta: EventMetaView,
}

impl View for NewsEntryUpdate {
    type V = NewsEntryUpdateView;

    open spec fn view(&self) -> NewsEntryUpdateView {
        NewsEntryUpdateView { inner: self.inner@, meta: self.meta@ }
    }
}

impl Clone for NewsEntryUpdateEventContent {
    fn clone(&self) -> (copy: Self)
        ensures
            copy@ == self@,
    {
        NewsEntryUpdateEventContent {
            news_entry: Update { event_id: self.news_entry.event_id.clone() },
            slides: match &self.slides {
                Some(slides) => Some(clone_slides(slides)),
                None => None,
            },
            colors: self.colors,
        }
    }
}

impl Clone for NewsEntryUpdate {
    fn clone(&self) -> (copy: Self)
        ensures
            copy@ == self@,
    {
        NewsEntryUpdate { inner: self.inner.clone(), meta: self.meta.clone() }
    }
}

impl ActerModel for NewsEntryUpdate {
    open spec fn model_view(&self) -> AnyActerModelView {
        AnyActerModelView::NewsEntryUpdate(self@)
    }

    fn event_id(&self) -> (id: &String) {
        &self.meta.event_id
    }

    fn room_id(&self) -> (id: &String) {
        &self.meta.room_id
    }

    fn capabilities(&self) -> (capabilities: Vec<Capability>) {
        Vec::new()
    }

    fn indizes(&self, user_id: &String) -> (keys: Vec<String>) {
        let mut keys: Vec<String> = Vec::new();
        keys.push(derive_key(self.inner.news_entry.event_id.as_str(), "history"));
        assert(strings_view(keys@) =~= seq![derived_key(self@.inner.news_entry, history_tag())]);
        keys
    }

    fn belongs_to(&self) -> (parents: Option<Vec<String>>) {
        let mut parents: Vec<String> = Vec::new();
        parents.push(self.inner.news_entry.event_id.clone());
        assert(strings_view(parents@) =~= seq![self@.inner.news_entry]);
        Some(parents)
    }

    fn transition(&mut self, model: &AnyActerModel) -> (changed: Result<bool, Error>) {
        Ok(false)
    }
}

impl ExecutableModel for NewsEntryUpdate {
    fn execute(self, store: &mut Store) -> (keys: Result<Vec<String>, Error>) {
        let target = self.inner.news_entry.event_id.clone();
        update_model_execute(store, AnyActerModel::NewsEntryUpdate(self), &target)
    }

    fn redact(&self, store: &mut Store, redaction_model: RedactedActerModel) -> (keys: Result<
        Vec<String>,
        Error,
    >) {
        default_model_redact(store, redaction_model)
    }
}

impl NewsEntry {
    /// Registers an observer for changes of the entry and hands out its
    /// receiver.
    pub fn subscribe(&self, client: &mut Client) -> (receiver: Receiver<()>)
        ensures
            subscribed(old(client).channels(), final(client).channels(), self@.meta.event_id),
            final(client).subscriptions() == old(client).subscriptions().insert(
                self@.meta.event_id,
            ),
            final(client).store_view() == old(client).store_view(),
            final(client).attempted() == old(client).attempted(),
    {
        client.subscribe(self.meta.event_id.clone())
    }

    /// The manager of the comments on the entry, as `store` holds them.
    pub fn comments(&self, store: &Store) -> (manager: CommentsManager)
        ensures
            manager.parent() == self@.meta.event_id,
            manager.counted() == loaded_comments(
                store@,
                comments_stats_key(self@.meta.event_id),
            ),
    {
        CommentsManager::from_store_and_event_id(store, &self.meta.event_id)
    }

    /// A builder of an update of the entry, with nothing changed yet. Only
    /// a user who has joined the room of the entry may update it.
    pub fn update_builder(&self, joined: bool) -> (builder: Result<
        NewsEntryUpdateBuilder,
        RoomError,
    >)
        ensures
            joined ==> (builder matches Ok(b) && b@ == (NewsEntryUpdateBuilderView {
                news_entry: Some(self@.meta.event_id),
                ..NewsEntryUpdateBuilderView::empty()
            })),
            !joined ==> builder is Err && builder->Err_0 == RoomError::CannotUpdateNews,
    {
        if !joined {
            return Err(RoomError::CannotUpdateNews);
        }
        let mut builder = NewsEntryUpdateBuilder::new();
        builder.news_entry(Update { event_id: self.meta.event_id.clone() });
        Ok(builder)
    }
}

impl ActerModel for NewsEntry {
    open spec fn model_view(&self) -> AnyActerModelView {
        AnyActerModelView::NewsEntry(self@)
    }

    fn event_id(&self) -> (id: &String) {
        &self.meta.event_id
    }

    fn room_id(&self) -> (id: &String) {
        &self.meta.room_id
    }

    fn capabilities(&self) -> (capabilities: Vec<Capability>) {
        let mut capabilities: Vec<Capability> = Vec::new();
        capabilities.push(Capability::Commentable);
        capabilities.push(Capability::Reactable);
        capabilities.push(Capability::ReadTracking);
        assert(capabilities@ =~= seq![
            Capability::Commentable,
            Capability::Reactable,
            Capability::ReadTracking,
        ]);
        capabilities
    }

    fn indizes(&self, user_id: &String) -> (keys: Vec<String>) {
        let mut keys: Vec<String> = Vec::new();
        keys.push("news".to_owned());
        keys.push(derive_key(self.meta.room_id.as_str(), "news"));
        assert(strings_view(keys@) =~= seq![
            news_tag(),
            derived_key(self@.meta.room_id, news_tag()),
        ]);
        keys
    }

    fn belongs_to(&self) -> (parents: Option<Vec<String>>) {
        None
    }

    fn transition(&mut self, model: &AnyActerModel) -> (changed: Result<bool, Error>) {
        match model {
            AnyActerModel::NewsEntryUpdate(update) => update.inner.apply(&mut self.inner),
            _ => Ok(false),
        }
    }
}

impl ExecutableModel for NewsEntry {
    fn execute(self, store: &mut Store) -> (keys: Result<Vec<String>, Error>) {
        default_model_execute(store, AnyActerModel::NewsEntry(self))
    }

    fn redact(&self, store: &mut Store, redaction_model: RedactedActerModel) -> (keys: Result<
        Vec<String>,
        Error,
    >) {
        default_model_redact(store, redaction_model)
    }
}

/// The news entries among `models`, in their order.
pub open spec fn news_among(models: Seq<AnyActerModelView>) -> Seq<NewsEntryView>
    decreases models.len(),
{
    if models.len() == 0 {
        Seq::empty()
    } else {
        let front = news_among(models.drop_last());
        match models.last() {
            AnyActerModelView::NewsEntry(entry) => front.push(entry),
            _ => front,
        }
    }
}

/// The last `count` of `entries`, or all where there are fewer, the last one
/// first.
pub open spec fn latest(entries: Seq<NewsEntryView>, count: nat) -> Seq<NewsEntryView> {
    Seq::new(
        if count <= entries.len() {
            count
        } else {
            entries.len()
        },
        |i: int| entries[entries.len() - 1 - i],
    )
}

/// The contents of a list of news entries.
pub open spec fn entries_view(entries: Seq<NewsEntry>) -> Seq<NewsEntryView> {
    entries.map_values(|e: NewsEntry| e@)
}

/// The entries of `entries` whose room is among `rooms`, in their order.
pub open spec fn news_in_rooms(entries: Seq<NewsEntryView>, rooms: Seq<Seq<char>>) -> Seq<
    NewsEntryView,
>
    decreases entries.len(),
{
    if entries.len() == 0 {
        Seq::empty()
    } else {
        let front = news_in_rooms(entries.drop_last(), rooms);
        if rooms.contains(entries.last().meta.room_id) {
            front.push(entries.last())
        } else {
            front
        }
    }
}

/// The news entries among `models`, in their order.
pub fn news_of(models: &Vec<AnyActerModel>) -> (news: Vec<NewsEntry>)
    ensures
        entries_view(news@) == news_among(models_view(models@)),
{
    let ghost listed = models_view(models@);
    let mut news: Vec<NewsEntry> = Vec::new();
    let mut i: usize = 0;
    assert(listed.take(0) =~= Seq::<AnyActerModelView>::empty());
    assert(entries_view(news@) =~= Seq::<NewsEntryView>::empty());
    while i < models.len()
        invariant
            i <= models.len(),
            listed == models_view(models@),
            entries_view(news@) == news_among(listed.take(i as int)),
        decreases models.len() - i,
    {
        assert(listed.take(i + 1).drop_last() =~= listed.take(i as int));
        assert(listed.take(i + 1).last() == models@[i as int]@);
        match &models[i] {
            AnyActerModel::NewsEntry(entry) => {
                let ghost before = news@;
                let copy = entry.clone();
                news.push(copy);
                assert(entries_view(news@) =~= entries_view(before).push(copy@));
            },
            _ => {},
        }
        i += 1;
    }
    assert(listed.take(models.len() as int) =~= listed);
    news
}

/// The entries of `entries` whose room is among `rooms`, in their order.
pub fn known_news(entries: &Vec<NewsEntry>, rooms: &Vec<String>) -> (known: Vec<NewsEntry>)
    ensures
        entries_view(known@) == news_in_rooms(entries_view(entries@), strings_view(rooms@)),
{
    let ghost all = entries_view(entries@);
    let ghost names = strings_view(rooms@);
    let mut known: Vec<NewsEntry> = Vec::new();
    let mut i: usize = 0;
    assert(all.take(0) =~= Seq::<NewsEntryView>::empty());
    assert(entries_view(known@) =~= Seq::<NewsEntryView>::empty());
    while i < entries.len()
        invariant
            i <= entries.len(),
            all == entries_view(entries@),
            names == strings_view(rooms@),
            entries_view(known@) == news_in_rooms(all.take(i as int), names),
        decreases entries.len() - i,
    {
        assert(all.take(i + 1).drop_last() =~= all.take(i as int));
        assert(all.take(i + 1).last() == entries@[i as int]@);
        if key_listed(rooms, &entries[i].meta.room_id) {
            let ghost before = known@;
            let copy = entries[i].clone();
            known.push(copy);
            assert(entries_view(known@) =~= entries_view(before).push(copy@));
        }
        i += 1;
    }
    assert(all.take(entries.len() as int) =~= all);
    known
}

/// The last `count` of `entries`, or all where there are fewer, the last one
/// first.
pub fn newest(entries: &Vec<NewsEntry>, count: u32) -> (news: Vec<NewsEntry>)
    ensures
        entries_view(news@) == latest(entries_view(entries@), count as nat),
{
    let ghost all = entries_view(entries@);
    let mut news: Vec<NewsEntry> = Vec::new();
    let mut left = count;
    let mut at: usize = entries.len();
    assert(entries_view(news@) =~= latest(all, 0));
    while at > 0 && left > 0
        invariant
            at <= entries.len(),
            left <= count,
            all == entries_view(entries@),
            news@.len() == entries.len() - at,
            news@.len() == count - left,
            entries_view(news@) == latest(all, news@.len()),
        decreases at,
    {
        at -= 1;
        left -= 1;
        let ghost before = news@;
        let copy = entries[at].clone();
        news.push(copy);
        assert(entries_view(news@) =~= entries_view(before).push(copy@));
        assert(entries_view(news@) =~= latest(all, news@.len()));
    }
    assert(entries_view(news@) =~= latest(all, count as nat));
    news
}

/// The news entries that `store` lists under `index`, newest filing first,
/// `count` of them at most. With the backend down it fails with
/// `StoreBackend`.
pub fn latest_news(store: &Store, index: &String, count: u32) -> (news: Result<
    Vec<NewsEntry>,
    Error,
>)
    ensures
        store@.available ==> (news matches Ok(list) && entries_view(list@) == latest(
            news_among(store@.get_list(index@)),
            count as nat,
        )),
        !store@.available ==> news == Err::<Vec<NewsEntry>, Error>(Error::StoreBackend),
{
    let models = match store.get_list(index) {
        Ok(models) => models,
        Err(e) => {
            return Err(e);
        },
    };
    let all_news = news_of(&models);
    Ok(newest(&all_news, count))
}

/// The news entries that `store` lists under `index` and whose room is
/// among `rooms`, newest filing first, `count` of them at most. An entry of
/// another room is passed over and does not count. With the backend down it
/// fails with `StoreBackend`.
pub fn latest_known_news(store: &Store, index: &String, rooms: &Vec<String>, count: u32) -> (news:
    Result<Vec<NewsEntry>, Error>)
    ensures
        store@.available ==> (news matches Ok(list) && entries_view(list@) == latest(
            news_in_rooms(news_among(store@.get_list(index@)), strings_view(rooms@)),
            count as nat,
        )),
        !store@.available ==> news == Err::<Vec<NewsEntry>, Error>(Error::StoreBackend),
{
    let models = match store.get_list(index) {
        Ok(models) => models,
        Err(e) => {
            return Err(e);
        },
    };
    let all_news = news_of(&models);
    let known = known_news(&all_news, rooms);
    Ok(newest(&known, count))
}

} // verus!
