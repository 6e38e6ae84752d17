//! Drafts of room messages: what the sender has composed, before it is sent.

use crate::keys::option_view;
use vstd::prelude::*;

verus! {

/// What is known about a place besides its description and its URI.
#[derive(Debug, PartialEq, Eq)]
pub struct LocationInfo {
    /// Where a small picture of the place is to be had.
    pub thumbnail_source: Option<String>,
}

/// The contents of a [`LocationInfo`].
pub struct LocationInfoView {
    pub thumbnail_source: Option<Seq<char>>,
}

impl View for LocationInfo {
    type V = LocationInfoView;

    open spec fn view(&self) -> LocationInfoView {
        LocationInfoView { thumbnail_source: option_view(self.thumbnail_source) }
    }
}

/// The contents of an optional [`LocationInfo`].
pub open spec fn location_info_view(info: Option<LocationInfo>) -> Option<LocationInfoView> {
    match info {
        Some(known) => Some(known@),
        None => None,
    }
}

/// The content of a message that is being composed.
#[derive(Debug, PartialEq, Eq)]
pub enum MsgContentDraft {
    /// A plain text.
    TextPlain { body: String },
    /// A text in markdown.
    TextMarkdown { body: String },
    /// A text in HTML, with its plain rendition.
    TextHtml { html: String, plain: String },
    /// An image read from `source`.
    Image { source: String, mimetype: Option<String>, filename: Option<String> },
    /// A sound recording read from `source`.
    Audio { source: String, mimetype: Option<String>, filename: Option<String> },
    /// A video read from `source`.
    Video { source: String, mimetype: Option<String>, filename: Option<String> },
    /// A file read from `source`.
    File { source: String, mimetype: Option<String>, filename: Option<String> },
    /// A place: its description, its `geo:` URI, and what else is known
    /// about it.
    Location { body: String, geo_uri: String, info: Option<LocationInfo> },
}

/// The contents of a [`MsgContentDraft`].
pub enum MsgContentDraftView {
    TextPlain { body: Seq<char> },
    TextMarkdown { body: Seq<char> },
    TextHtml { html: Seq<char>, plain: Seq<char> },
    Image { source: Seq<char>, mimetype: Option<Seq<char>>, filename: Option<Seq<char>> },
    Audio { source: Seq<char>, mimetype: Option<Seq<char>>, filename: Option<Seq<char>> },
    Video { source: Seq<char>, mimetype: Option<Seq<char>>, filename: Option<Seq<char>> },
    File { source: Seq<char>, mimetype: Option<Seq<char>>, filename: Option<Seq<char>> },
    Location { body: Seq<char>, geo_uri: Seq<char>, info: Option<LocationInfoView> },
}

impl View for MsgContentDraft {
    type V = MsgContentDraftView;

    open spec fn view(&self) -> MsgContentDraftView {
        match self {
            MsgContentDraft::TextPlain { body } => MsgContentDraftView::TextPlain { body: body@ },
            MsgContentDraft::TextMarkdown { body } => MsgContentDraftView::TextMarkdown {
                body: body@,
            },
            MsgContentDraft::TextHtml { html, plain } => MsgContentDraftView::TextHtml {
                html: html@,
                plain: plain@,
            },
            MsgContentDraft::Image { source, mimetype, filename } => MsgContentDraftView::Image {
                source: source@,
                mimetype: option_view(*mimetype),
                filename: option_view(*filename),
            },
            MsgContentDraft::Audio { source, mimetype, filename } => MsgContentDraftView::Audio {
                source: source@,
                mimetype: option_view(*mimetype),
                filename: option_view(*filename),
            },
            MsgContentDraft::Video { source, mimetype, filename } => MsgContentDraftView::Video {
                source: source@,
                mimetype: option_view(*mimetype),
                filename: option_view(*filename),
            },
            MsgContentDraft::File { source, mimetype, filename } => MsgContentDraftView::File {
                source: source@,
                mimetype: option_view(*mimetype),
                filename: option_view(*filename),
            },
            MsgContentDraft::Location { body, geo_uri, info } => MsgContentDraftView::Location {
                body: body@,
                geo_uri: geo_uri@,
                info: location_info_view(*info),
            },
        }
    }
}

/// A message that is being composed.
#[derive(Debug, PartialEq, Eq)]
pub struct MsgDraft {
    inner: MsgContentDraft,
}

impl View for MsgDraft {
    type V = MsgContentDraftView;

    closed spec fn view(&self) -> MsgContentDraftView {
        self.inner@
    }
}

impl MsgDraft {
    /// A draft with the content `inner`.
    pub fn new(inner: MsgContentDraft) -> (draft: MsgDraft)
        ensures
            draft@ == inner@,
    {
        MsgDraft { inner }
    }

    /// The content of the draft.
    pub fn content(&self) -> (inner: &MsgContentDraft)
        ensures
            inner@ == self@,
    {
        &self.inner
    }
}

} // verus!
