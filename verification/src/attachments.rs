//! Attachments: the media and places that users attach to a model, and the
//! aggregate that counts the attachments of a model.

use crate::client::Client;
use crate::content::BelongsTo;
use crate::error::{BuilderError, Error, RoomError};
use crate::executor::subscribed;
use crate::keys::{
    dedup, dedup_keys, derive_key, derived_key, lemma_strings_push, option_view, strings_view,
};
use crate::media::{
    audio_info_view, clone_audio_info, clone_file_info, clone_image_info, clone_video_info,
    file_info_view, image_info_view, safe_of, video_info_view, AudioInfo, AudioInfoView,
    FileInfo, FileInfoView, ImageInfo, ImageInfoView, VideoInfo, VideoInfoView,
};
use crate::models::{
    default_model_redact, has_capability, written, ActerModel, AnyActerModel, AnyActerModelView,
    Applied, Capability, EventMeta, EventMetaView, ExecutableModel, RedactedActerModel,
};
use crate::store::{lemma_save_frame, models_view, RawValue, RawValueView, Store, StoreView};
use async_broadcast::Receiver;
use vstd::prelude::*;

verus! {

/// The tag of the index that lists the attachments of one model.
pub open spec fn attachments_tag() -> Seq<char> {
    "attachments"@
}

/// The tag of the key under which the aggregate of the attachments of one
/// model is stored.
pub open spec fn attachments_stats_tag() -> Seq<char> {
    "attachments_stats"@
}

/// The key under which the aggregate of the attachments of the model
/// `parent` is stored: `"{parent}::attachments_stats"`.
pub open spec fn attachments_stats_key(parent: Seq<char>) -> Seq<char> {
    derived_key(parent, attachments_stats_tag())
}

/// The aggregate of the attachments of one model.
#[derive(Clone, Copy, Debug, PartialEq, Eq, Structural)]
pub struct AttachmentsStats {
    /// Whether the model has any attachment.
    pub has_attachments: bool,
    /// How many attachments the model has.
    pub total_attachments_count: u32,
}

impl AttachmentsStats {
    /// The aggregate of a model without attachments.
    pub open spec fn empty() -> AttachmentsStats {
        AttachmentsStats { has_attachments: false, total_attachments_count: 0 }
    }

    /// The aggregate after one more attachment. The count stops at
    /// `u32::MAX`.
    pub open spec fn added(self) -> AttachmentsStats {
        AttachmentsStats {
            has_attachments: true,
            total_attachments_count: if self.total_attachments_count < u32::MAX {
                (self.total_attachments_count + 1) as u32
            } else {
                self.total_attachments_count
            },
        }
    }

    /// Whether the model has any attachment.
    pub fn has_attachments(&self) -> (has_attachments: &bool)
        ensures
            *has_attachments == self.has_attachments,
    {
        &self.has_attachments
    }

    /// How many attachments the model has.
    pub fn total_attachments_count(&self) -> (count: &u32)
        ensures
            *count == self.total_attachments_count,
    {
        &self.total_attachments_count
    }
}

impl Default for AttachmentsStats {
    fn default() -> (stats: Self)
        ensures
            stats == AttachmentsStats::empty(),
    {
        AttachmentsStats { has_attachments: false, total_attachments_count: 0 }
    }
}

/// The aggregate that `store` holds under `key`, or the empty one where it
/// holds none that can be read as attachments.
pub open spec fn loaded_attachments(store: StoreView, key: Seq<char>) -> AttachmentsStats {
    match store.get_raw(key) {
        Ok(RawValueView::Attachments(stats)) => stats,
        _ => AttachmentsStats::empty(),
    }
}

/// What is attached.
#[derive(Debug, PartialEq, Eq)]
pub enum AttachmentContent {
    /// An image at `url`, described by `body`.
    Image { body: String, url: String, info: Option<ImageInfo> },
    /// A sound recording at `url`, described by `body`.
    Audio { body: String, url: String, info: Option<AudioInfo> },
    /// A video at `url`, described by `body`.
    Video { body: String, url: String, info: Option<VideoInfo> },
    /// A file at `url`, described by `body`.
    File { body: String, url: String, info: Option<FileInfo> },
    /// A place: its description and its `geo:` URI.
    Location { body: String, geo_uri: String },
}

/// The contents of an [`AttachmentContent`].
pub enum AttachmentContentView {
    Image { body: Seq<char>, url: Seq<char>, info: Option<ImageInfoView> },
    Audio { body: Seq<char>, url: Seq<char>, info: Option<AudioInfoView> },
    Video { body: Seq<char>, url: Seq<char>, info: Option<VideoInfoView> },
    File { body: Seq<char>, url: Seq<char>, info: Option<FileInfoView> },
    Location { body: Seq<char>, geo_uri: Seq<char> },
}

impl AttachmentContentView {
    /// The name of the kind of attachment.
    pub open spec fn type_str(self) -> Seq<char> {
        match self {
            AttachmentContentView::Image { .. } => "image"@,
            AttachmentContentView::Audio { .. } => "audio"@,
            AttachmentContentView::Video { .. } => "video"@,
            AttachmentContentView::File { .. } => "file"@,
            AttachmentContentView::Location { .. } => "location"@,
        }
    }

    /// Where the bytes of the attachment are read from; a place has none.
    pub open spec fn source(self) -> Option<Seq<char>> {
        match self {
            AttachmentContentView::Image { url, .. } => Some(url),
            AttachmentContentView::Audio { url, .. } => Some(url),
            AttachmentContentView::Video { url, .. } => Some(url),
            AttachmentContentView::File { url, .. } => Some(url),
            AttachmentContentView::Location { .. } => None,
        }
    }
}

impl View for AttachmentContent {
    type V = AttachmentContentView;

    open spec fn view(&self) -> AttachmentContentView {
        match self {
            AttachmentContent::Image { body, url, info } => AttachmentContentView::Image {
                body: body@,
                url: url@,
                info: image_info_view(*info),
            },
            AttachmentContent::Audio { body, url, info } => AttachmentContentView::Audio {
                body: body@,
                url: url@,
                info: audio_info_view(*info),
            },
            AttachmentContent::Video { body, url, info } => AttachmentContentView::Video {
                body: body@,
                url: url@,
                info: video_info_view(*info),
            },
            AttachmentContent::File { body, url, info } => AttachmentContentView::File {
                body: body@,
                url: url@,
                info: file_info_view(*info),
            },
            AttachmentContent::Location { body, geo_uri } => AttachmentContentView::Location {
                body: body@,
                geo_uri: geo_uri@,
            },
        }
    }
}

impl Clone for AttachmentContent {
    fn clone(&self) -> (copy: Self)
        ensures
            copy@ == self@,
    {
        match self {
            AttachmentContent::Image { body, url, info } => AttachmentContent::Image {
                body: body.clone(),
                url: url.clone(),
                info: clone_image_info(info),
            },
            AttachmentContent::Audio { body, url, info } => AttachmentContent::Audio {
                body: body.clone(),
                url: url.clone(),
                info: clone_audio_info(info),
            },
            AttachmentContent::Video { body, url, info } => AttachmentContent::Video {
                body: body.clone(),
                url: url.clone(),
                info: clone_video_info(info),
            },
            AttachmentContent::File { body, url, info } => AttachmentContent::File {
                body: body.clone(),
                url: url.clone(),
                info: clone_file_info(info),
            },
            AttachmentContent::Location { body, geo_uri } => AttachmentContent::Location {
                body: body.clone(),
                geo_uri: geo_uri.clone(),
            },
        }
    }
}

impl AttachmentContent {
    /// The name of the kind of attachment.
    pub fn type_str(&self) -> (name: String)
        ensures
            name@ == self@.type_str(),
    {
        match self {
            AttachmentContent::Image { .. } => "image".to_owned(),
            AttachmentContent::Audio { .. } => "audio".to_owned(),
            AttachmentContent::Video { .. } => "video".to_owned(),
            AttachmentContent::File { .. } => "file".to_owned(),
            AttachmentContent::Location { .. } => "location".to_owned(),
        }
    }

    /// Where the bytes of the attachment are read from; a place has none.
    pub fn source(&self) -> (url: Option<String>)
        ensures
            option_view(url) == self@.source(),
    {
        match self {
            AttachmentContent::Image { url, .. } => Some(url.clone()),
            AttachmentContent::Audio { url, .. } => Some(url.clone()),
            AttachmentContent::Video { url, .. } => Some(url.clone()),
            AttachmentContent::File { url, .. } => Some(url.clone()),
            AttachmentContent::Location { .. } => None,
        }
    }
}

/// What an attachment event says: what is attached, and to which model.
#[derive(Debug, PartialEq, Eq)]
pub struct AttachmentEventContent {
    /// The model the attachment is on.
    pub on: BelongsTo,
    /// What is attached.
    pub content: AttachmentContent,
}

/// The contents of an [`AttachmentEventContent`].
pub struct AttachmentEventContentView {
    pub on: Seq<char>,
    pub content: AttachmentContentView,
}

impl View for AttachmentEventContent {
    type V = AttachmentEventContentView;

    open spec fn view(&self) -> AttachmentEventContentView {
        AttachmentEventContentView { on: self.on.event_id@, content: self.content@ }
    }
}

impl Clone for AttachmentEventContent {
    fn clone(&self) -> (copy: Self)
        ensures
            copy@ == self@,
    {
        AttachmentEventContent { on: self.on.clone(), content: self.content.clone() }
    }
}

/// An attachment: what it says and the event it was decoded from.
#[derive(Debug, PartialEq, Eq)]
pub struct Attachment {
    pub inner: AttachmentEventContent,
    pub meta: EventMeta,
}

/// The contents of an [`Attachment`].
pub struct AttachmentView {
    pub inner: AttachmentEventContentView,
    pub meta: EventMetaView,
}

impl View for Attachment {
    type V = AttachmentView;

    open spec fn view(&self) -> AttachmentView {
        AttachmentView { inner: self.inner@, meta: self.meta@ }
    }
}

impl Clone for Attachment {
    fn clone(&self) -> (copy: Self)
        ensures
            copy@ == self@,
    {
        Attachment { inner: self.inner.clone(), meta: self.meta.clone() }
    }
}

impl AttachmentView {
    /// Applying the attachment to `store`.
    ///
    /// The model it is on must be stored; otherwise the attachment fails as
    /// the lookup does. A model that takes no attachments has the attachment
    /// ignored. Otherwise the attachment is saved and counted in the
    /// aggregate of the model it is on, and the keys are the indices of the
    /// attachment and the key of the aggregate, each once; with the backend
    /// down that fails with `StoreBackend`. The identifier of the attachment
    /// is not among the keys.
    pub open spec fn apply(self, store: StoreView) -> Result<Applied, Error> {
        match store.get(self.inner.on) {
            Err(e) => Err(e),
            Ok(parent) => {
                if !parent.capabilities().contains(Capability::Attachmentable) {
                    Ok(Applied { store, keys: Seq::empty() })
                } else {
                    let key = attachments_stats_key(self.inner.on);
                    let stats = loaded_attachments(store, key);
                    let attachment = AnyActerModelView::Attachment(self);
                    written(
                        store,
                        Applied {
                            store: store.save(attachment).set_raw(
                                key,
                                RawValueView::Attachments(stats.added()),
                            ),
                            keys: dedup(attachment.indizes(store.user_id).push(key)),
                        },
                    )
                }
            },
        }
    }
}

/// A draft of an attachment to one model. What is attached has to be set.
#[derive(Debug)]
pub struct AttachmentDraft {
    on: String,
    content: Option<AttachmentContent>,
}

/// The contents of an [`AttachmentDraft`].
pub struct AttachmentDraftView {
    pub on: Seq<char>,
    pub content: Option<AttachmentContentView>,
}

impl View for AttachmentDraft {
    type V = AttachmentDraftView;

    closed spec fn view(&self) -> AttachmentDraftView {
        AttachmentDraftView {
            on: self.on@,
            content: match self.content {
                Some(c) => Some(c@),
                None => None,
            },
        }
    }
}

impl AttachmentDraft {
    /// A draft of an attachment to the model `on`, with nothing attached
    /// yet.
    pub fn new(on: String) -> (draft: AttachmentDraft)
        ensures
            draft@ == (AttachmentDraftView { on: on@, content: None }),
    {
        AttachmentDraft { on, content: None }
    }

    /// Sets what is attached.
    pub fn content(&mut self, content: AttachmentContent) -> (draft: &mut Self)
        ensures
            draft@ == (AttachmentDraftView { content: Some(content@), ..old(self)@ }),
            *final(self) == *final(draft),
    {
        self.content = Some(content);
        self
    }

    /// Builds the content. Building fails exactly when nothing was attached.
    pub fn build(&self) -> (content: Result<AttachmentEventContent, BuilderError>)
        ensures
            match content {
                Ok(c) => self@.content is Some && c@ == (AttachmentEventContentView {
                    on: self@.on,
                    content: self@.content->0,
                }),
                Err(BuilderError::UninitializedField(field)) => self@.content is None && field@
                    == "content"@,
            },
    {
        match &self.content {
            Some(content) => Ok(
                AttachmentEventContent {
                    on: BelongsTo { event_id: self.on.clone() },
                    content: content.clone(),
                },
            ),
            None => Err(BuilderError::UninitializedField("content")),
        }
    }
}

/// The draft that a manager hands out: none for a user who has not joined
/// the room, else one for the model `on` with `content` attached.
pub open spec fn drafted(
    joined: bool,
    on: Seq<char>,
    content: Option<AttachmentContentView>,
) -> Result<AttachmentDraftView, RoomError> {
    if joined {
        Ok(AttachmentDraftView { on, content })
    } else {
        Err(RoomError::CannotAttach)
    }
}

/// The manager of the attachments of one model: it loads the aggregate,
/// counts an attachment, writes the aggregate back under its own key, and
/// hands out drafts.
#[derive(Debug)]
pub struct AttachmentsManager {
    stats: AttachmentsStats,
    event_id: String,
}

impl AttachmentsManager {
    /// The identifier of the model whose attachments are managed.
    pub closed spec fn parent(&self) -> Seq<char> {
        self.event_id@
    }

    /// The aggregate that the manager holds.
    pub closed spec fn counted(&self) -> AttachmentsStats {
        self.stats
    }

    fn stats_field_for(parent: &str) -> (key: String)
        ensures
            key@ == attachments_stats_key(parent@),
    {
        derive_key(parent, "attachments_stats")
    }

    /// Loads the aggregate of the model `event_id` from `store`. Where the
    /// store holds none that can be read, the manager starts from the empty
    /// aggregate.
    pub fn from_store_and_event_id(store: &Store, event_id: &String) -> (manager:
        AttachmentsManager)
        ensures
            manager.parent() == event_id@,
            manager.counted() == loaded_attachments(store@, attachments_stats_key(event_id@)),
    {
        let key = Self::stats_field_for(event_id.as_str());
        let stats = match store.get_raw(&key) {
            Ok(RawValue::Attachments(stats)) => stats,
            _ => AttachmentsStats::default(),
        };
        AttachmentsManager { stats, event_id: event_id.clone() }
    }

    /// The identifier of the model whose attachments are managed.
    pub fn event_id(&self) -> (id: String)
        ensures
            id@ == self.parent(),
    {
        self.event_id.clone()
    }

    /// A copy of the aggregate.
    pub fn stats(&self) -> (stats: AttachmentsStats)
        ensures
            stats == self.counted(),
    {
        self.stats
    }

    /// Whether the model has any attachment.
    pub fn has_attachments(&self) -> (has_attachments: bool)
        ensures
            has_attachments == self.counted().has_attachments,
    {
        self.stats.has_attachments
    }

    /// How many attachments the model has.
    pub fn attachments_count(&self) -> (count: u32)
        ensures
            count == self.counted().total_attachments_count,
    {
        self.stats.total_attachments_count
    }

    /// The key under which the aggregate is stored, which is also the key
    /// whose observers learn of a change.
    pub fn update_key(&self) -> (key: String)
        ensures
            key@ == attachments_stats_key(self.parent()),
    {
        Self::stats_field_for(self.event_id.as_str())
    }

    /// Registers an observer for changes of the aggregate and hands out its
    /// receiver.
    pub fn subscribe(&self, client: &mut Client) -> (receiver: Receiver<()>)
        ensures
            subscribed(old(client).channels(), final(client).channels(), attachments_stats_key(self.parent())),
            final(client).subscriptions() == old(client).subscriptions().insert(
                attachments_stats_key(self.parent()),
            ),
            final(client).store_view() == old(client).store_view(),
            final(client).attempted() == old(client).attempted(),
    {
        client.subscribe(self.update_key())
    }

    /// Counts one more attachment, and says that the aggregate changed.
    pub fn add_attachment(&mut self, attachment: &Attachment) -> (changed: Result<bool, Error>)
        ensures
            changed == Ok::<bool, Error>(true),
            final(self).parent() == old(self).parent(),
            final(self).counted() == old(self).counted().added(),
    {
        self.stats.has_attachments = true;
        if self.stats.total_attachments_count < u32::MAX {
            self.stats.total_attachments_count = self.stats.total_attachments_count + 1;
        }
        Ok(true)
    }

    /// Writes the aggregate to `store` and returns the key it was written
    /// under. With the backend down it fails with `StoreBackend`, and the
    /// store is as it was.
    pub fn save(&self, store: &mut Store) -> (key: Result<String, Error>)
        ensures
            old(store)@.available ==> (key matches Ok(k) && k@ == attachments_stats_key(
                self.parent(),
            )),
            old(store)@.available ==> final(store)@ == old(store)@.set_raw(
                attachments_stats_key(self.parent()),
                RawValueView::Attachments(self.counted()),
            ),
            !old(store)@.available ==> key == Err::<String, Error>(Error::StoreBackend),
            !old(store)@.available ==> final(store)@ == old(store)@,
    {
        let update_key = self.update_key();
        match store.set_raw(&update_key, &RawValue::Attachments(self.stats)) {
            Ok(()) => Ok(update_key),
            Err(e) => Err(e),
        }
    }

    /// The attachments of the model that `store` holds, oldest first. With
    /// the backend down it fails with `StoreBackend`.
    pub fn attachments(&self, store: &Store) -> (attachments: Result<Vec<Attachment>, Error>)
        ensures
            store@.available ==> (attachments matches Ok(list) && attachments_view(list@)
                == attachments_among(
                    store@.get_list(derived_key(self.parent(), attachments_tag())),
                )),
            !store@.available ==> attachments == Err::<Vec<Attachment>, Error>(
                Error::StoreBackend,
            ),
    {
        let index = Attachment::index_for(self.event_id.as_str());
        let models = match store.get_list(&index) {
            Ok(models) => models,
            Err(e) => {
                return Err(e);
            },
        };
        Ok(attachments_of(&models))
    }

    fn draft_with(&self, joined: bool, content: Option<AttachmentContent>) -> (draft: Result<
        AttachmentDraft,
        RoomError,
    >)
        ensures
            match drafted(
                joined,
                self.parent(),
                match content {
                    Some(c) => Some(c@),
                    None => None,
                },
            ) {
                Ok(expected) => draft matches Ok(d) && d@ == expected,
                Err(e) => draft == Err::<AttachmentDraft, RoomError>(e),
            },
    {
        if !joined {
            return Err(RoomError::CannotAttach);
        }
        let mut draft = AttachmentDraft::new(self.event_id.clone());
        match content {
            Some(content) => {
                draft.content(content);
            },
            None => {},
        }
        Ok(draft)
    }

    /// A draft of an attachment to the model, with nothing attached yet.
    /// Only a user who has joined the room of the model may attach.
    pub fn attachment_draft(&self, joined: bool) -> (draft: Result<
        AttachmentDraft,
        RoomError,
    >)
        ensures
            match drafted(joined, self.parent(), None) {
                Ok(expected) => draft matches Ok(d) && d@ == expected,
                Err(e) => draft == Err::<AttachmentDraft, RoomError>(e),
            },
    {
        self.draft_with(joined, None)
    }

    /// A draft that attaches the image at `url` to the model. Only a user who
    /// has joined the room of the model may attach.
    pub fn image_attachment_draft(
        &self,
        joined: bool,
        body: String,
        url: String,
        mimetype: Option<String>,
        size: Option<u64>,
        width: Option<u64>,
        height: Option<u64>,
        blurhash: Option<String>,
    ) -> (draft: Result<AttachmentDraft, RoomError>)
        ensures
            match drafted(
                joined,
                self.parent(),
                Some(
                    AttachmentContentView::Image {
                        body: body@,
                        url: url@,
                        info: Some(
                            ImageInfoView {
                                height: safe_of(height),
                                width: safe_of(width),
                                mimetype: option_view(mimetype),
                                size: safe_of(size),
                                blurhash: option_view(blurhash),
                            },
                        ),
                    },
                ),
            ) {
                Ok(expected) => draft matches Ok(d) && d@ == expected,
                Err(e) => draft == Err::<AttachmentDraft, RoomError>(e),
            },
    {
        let info = ImageInfo::new(mimetype, size, width, height, blurhash);
        self.draft_with(joined, Some(AttachmentContent::Image { body, url, info: Some(info) }))
    }

    /// A draft that attaches the sound recording at `url` to the model. Only a user who
    /// has joined the room of the model may attach.
    pub fn audio_attachment_draft(
        &self,
        joined: bool,
        body: String,
        url: String,
        mimetype: Option<String>,
        size: Option<u64>,
        secs: Option<u64>,
    ) -> (draft: Result<AttachmentDraft, RoomError>)
        ensures
            match drafted(
                joined,
                self.parent(),
                Some(
                    AttachmentContentView::Audio {
                        body: body@,
                        url: url@,
                        info: Some(
                            AudioInfoView {
                                duration_secs: secs,
                                mimetype: option_view(mimetype),
                                size: safe_of(size),
                            },
                        ),
                    },
                ),
            ) {
                Ok(expected) => draft matches Ok(d) && d@ == expected,
                Err(e) => draft == Err::<AttachmentDraft, RoomError>(e),
            },
    {
        let info = AudioInfo::new(secs, mimetype, size);
        self.draft_with(joined, Some(AttachmentContent::Audio { body, url, info: Some(info) }))
    }

    /// A draft that attaches the video at `url` to the model. Only a user who
    /// has joined the room of the model may attach.
    pub fn video_attachment_draft(
        &self,
        joined: bool,
        body: String,
        url: String,
        mimetype: Option<String>,
        size: Option<u64>,
        secs: Option<u64>,
        width: Option<u64>,
        height: Option<u64>,
        blurhash: Option<String>,
    ) -> (draft: Result<AttachmentDraft, RoomError>)
        ensures
            match drafted(
                joined,
                self.parent(),
                Some(
                    AttachmentContentView::Video {
                        body: body@,
                        url: url@,
                        info: Some(
                            VideoInfoView {
                                duration_secs: secs,
                                height: safe_of(height),
                                width: safe_of(width),
                                mimetype: option_view(mimetype),
                                size: safe_of(size),
                                blurhash: option_view(blurhash),
                            },
                        ),
                    },
                ),
            ) {
                Ok(expected) => draft matches Ok(d) && d@ == expected,
                Err(e) => draft == Err::<AttachmentDraft, RoomError>(e),
            },
    {
        let info = VideoInfo::new(secs, height, width, mimetype, size, blurhash);
        self.draft_with(joined, Some(AttachmentContent::Video { body, url, info: Some(info) }))
    }

    /// A draft that attaches the file at `url` to the model. Only a user who
    /// has joined the room of the model may attach.
    pub fn file_attachment_draft(
        &self,
        joined: bool,
        body: String,
        url: String,
        mimetype: Option<String>,
        size: Option<u64>,
    ) -> (draft: Result<AttachmentDraft, RoomError>)
        ensures
            match drafted(
                joined,
                self.parent(),
                Some(
                    AttachmentContentView::File {
                        body: body@,
                        url: url@,
                        info: Some(
                            FileInfoView {
                                mimetype: option_view(mimetype),
                                size: safe_of(size),
                            },
                        ),
                    },
                ),
            ) {
                Ok(expected) => draft matches Ok(d) && d@ == expected,
                Err(e) => draft == Err::<AttachmentDraft, RoomError>(e),
            },
    {
        let info = FileInfo::new(mimetype, size);
        self.draft_with(joined, Some(AttachmentContent::File { body, url, info: Some(info) }))
    }
}

/// The contents of a list of attachments.
pub open spec fn attachments_view(attachments: Seq<Attachment>) -> Seq<AttachmentView> {
    attachments.map_values(|a: Attachment| a@)
}

/// The attachments among `models`, in their order.
pub open spec fn attachments_among(models: Seq<AnyActerModelView>) -> Seq<AttachmentView>
    decreases models.len(),
{
    if models.len() == 0 {
        Seq::empty()
    } else {
        let front = attachments_among(models.drop_last());
        match models.last() {
            AnyActerModelView::Attachment(attachment) => front.push(attachment),
            _ => front,
        }
    }
}

/// The attachments among `models`, in their order.
pub fn attachments_of(models: &Vec<AnyActerModel>) -> (attachments: Vec<Attachment>)
    ensures
        attachments_view(attachments@) == attachments_among(models_view(models@)),
{
    let ghost listed = models_view(models@);
    let mut attachments: Vec<Attachment> = Vec::new();
    let mut i: usize = 0;
    assert(listed.take(0) =~= Seq::<AnyActerModelView>::empty());
    assert(attachments_view(attachments@) =~= Seq::<AttachmentView>::empty());
    while i < models.len()
        invariant
            i <= models.len(),
            listed == models_view(models@),
            attachments_view(attachments@) == attachments_among(listed.take(i as int)),
        decreases models.len() - i,
    {
        assert(listed.take(i + 1).drop_last() =~= listed.take(i as int));
        assert(listed.take(i + 1).last() == models@[i as int]@);
        match &models[i] {
            AnyActerModel::Attachment(attachment) => {
                let ghost before = attachments@;
                let copy = attachment.clone();
                attachments.push(copy);
                assert(attachments_view(attachments@) =~= attachments_view(before).push(copy@));
            },
            _ => {},
        }
        i += 1;
    }
    assert(listed.take(models.len() as int) =~= listed);
    attachments
}

impl Attachment {
    /// The key of the index that the attachments of the model `parent` are
    /// filed under: `"{parent}::attachments"`.
    pub fn index_for(parent: &str) -> (key: String)
        ensures
            key@ == derived_key(parent@, attachments_tag()),
    {
        derive_key(parent, "attachments")
    }

    /// The name of the kind of attachment.
    pub fn type_str(&self) -> (name: String)
        ensures
            name@ == self@.inner.content.type_str(),
    {
        self.inner.content.type_str()
    }

    /// The user who attached it.
    pub fn sender(&self) -> (sender: String)
        ensures
            sender@ == self@.meta.sender,
    {
        self.meta.sender.clone()
    }

    /// When the origin server saw the attachment, in milliseconds since the
    /// epoch.
    pub fn origin_server_ts(&self) -> (timestamp: u64)
        ensures
            timestamp == self@.meta.origin_server_ts,
    {
        self.meta.origin_server_ts
    }

    /// Where the bytes of the attachment are read from; a place has none.
    pub fn source(&self) -> (url: Option<String>)
        ensures
            option_view(url) == self@.inner.content.source(),
    {
        self.inner.content.source()
    }

    /// Applies the attachment to `store`: it is saved and counted in the
    /// aggregate of the model it is on, and the keys whose observers are to
    /// be woken are returned. On failure the store is as it was.
    pub fn apply(&self, store: &mut Store) -> (keys: Result<Vec<String>, Error>)
        ensures
            match self@.apply(old(store)@) {
                Ok(applied) => {
                    &&& keys matches Ok(k)
                    &&& strings_view(k@) == applied.keys
                    &&& final(store)@ == applied.store
                },
                Err(e) => keys == Err::<Vec<String>, Error>(e) && final(store)@ == old(store)@,
            },
    {
        let model = match store.get(&self.inner.on.event_id) {
            Ok(model) => model,
            Err(e) => {
                return Err(e);
            },
        };
        if !has_capability(&model.capabilities(), Capability::Attachmentable) {
            // the model does not take attachments: ignored
            let none: Vec<String> = Vec::new();
            assert(strings_view(none@) =~= Seq::<Seq<char>>::empty());
            return Ok(none);
        }
        let mut manager = AttachmentsManager::from_store_and_event_id(store, model.event_id());
        let mut updates = self.indizes(store.user_id());
        proof {
            lemma_save_frame(store@, AnyActerModelView::Attachment(self@));
        }
        match store.save(AnyActerModel::Attachment(self.clone())) {
            Ok(_) => {},
            Err(e) => {
                return Err(e);
            },
        }
        let changed = match manager.add_attachment(self) {
            Ok(changed) => changed,
            Err(e) => {
                return Err(e);
            },
        };
        if changed {
            match manager.save(store) {
                Ok(manager_update) => {
                    let ghost before = updates@;
                    updates.push(manager_update);
                    proof {
                        lemma_strings_push(before, manager_update);
                    }
                },
                Err(e) => {
                    return Err(e);
                },
            }
        }
        Ok(dedup_keys(&updates))
    }
}

impl ActerModel for Attachment {
    open spec fn model_view(&self) -> AnyActerModelView {
        AnyActerModelView::Attachment(self@)
    }

    fn event_id(&self) -> (id: &String) {
        &self.meta.event_id
    }

    fn room_id(&self) -> (id: &String) {
        &self.meta.room_id
    }

    fn capabilities(&self) -> (capabilities: Vec<Capability>) {
        Vec::new()
    }

    fn indizes(&self, user_id: &String) -> (keys: Vec<String>) {
        let mut keys: Vec<String> = Vec::new();
        keys.push(Attachment::index_for(self.inner.on.event_id.as_str()));
        assert(strings_view(keys@) =~= seq![derived_key(self@.inner.on, attachments_tag())]);
        keys
    }

    fn belongs_to(&self) -> (parents: Option<Vec<String>>) {
        // The aggregate has a key of its own: the parent is not notified.
        None
    }

    fn transition(&mut self, model: &AnyActerModel) -> (changed: Result<bool, Error>) {
        Ok(false)
    }
}

impl ExecutableModel for Attachment {
    fn execute(self, store: &mut Store) -> (keys: Result<Vec<String>, Error>) {
        self.apply(store)
    }

    fn redact(&self, store: &mut Store, redaction_model: RedactedActerModel) -> (keys: Result<
        Vec<String>,
        Error,
    >) {
        default_model_redact(store, redaction_model)
    }
}

} // verus!
