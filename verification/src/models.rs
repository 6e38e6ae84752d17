//! The models: decoded domain objects, the unit of application state.
//!
//! Every model has an identifier, which is also the key it is stored under, a
//! room it belongs to, a set of capabilities, extra notification keys
//! (indices) and, optionally, parents that are notified along with it. The
//! kinds of model form the closed union [`AnyActerModel`]; what they share is
//! the trait [`ActerModel`].

use crate::comments::{comments_stats_key, comments_tag, Comment, CommentView};
use crate::error::Error;
use crate::keys::{
    clone_keys, dedup, dedup_keys, derived_key, extend_keys, history_tag, lemma_dedup_members,
    strings_view,
};
use crate::attachments::{
    attachments_stats_key, attachments_tag, Attachment, AttachmentView,
};
use crate::calendar::{
    calendar_tag, CalendarEvent, CalendarEventUpdate, CalendarEventUpdateView, CalendarEventView,
};
use crate::news::{
    news_tag, NewsEntry, NewsEntryUpdate, NewsEntryUpdateView, NewsEntryView,
};
use crate::read_receipts::{read_receipts_tag, stats_key, ReadReceipt, ReadReceiptView};
use crate::tasks::{
    tasks_tag, Task, TaskList, TaskListUpdate, TaskListUpdateView, TaskListView, TaskUpdate,
    TaskUpdateView, TaskView,
};
use crate::store::{
    lemma_save_frame, lemma_save_keeps_keyed, lemma_save_then_get, Store, StoreView,
};
use vstd::prelude::*;

verus! {

/// A generic behaviour that may be attached to a model.
#[derive(Clone, Copy, Debug, PartialEq, Eq, Structural)]
pub enum Capability {
    /// Comments on the model are aggregated.
    Commentable,
    /// Reactions to the model are aggregated.
    Reactable,
    /// Read receipts for the model are aggregated.
    ReadTracking,
    /// Attachments to the model are aggregated.
    Attachmentable,
}

/// What the protocol layer records about the event a model was decoded from.
#[derive(Debug, PartialEq, Eq)]
pub struct EventMeta {
    /// The identifier of the event, unique and never reused.
    pub event_id: String,
    /// The user who sent the event.
    pub sender: String,
    /// When the origin server saw the event, in milliseconds since the epoch.
    pub origin_server_ts: u64,
    /// The room the event was sent to.
    pub room_id: String,
}

/// The contents of an [`EventMeta`].
pub struct EventMetaView {
    pub event_id: Seq<char>,
    pub sender: Seq<char>,
    pub origin_server_ts: u64,
    pub room_id: Seq<char>,
}

impl View for EventMeta {
    type V = EventMetaView;

    open spec fn view(&self) -> EventMetaView {
        EventMetaView {
            event_id: self.event_id@,
            sender: self.sender@,
            origin_server_ts: self.origin_server_ts,
            room_id: self.room_id@,
        }
    }
}

impl Clone for EventMeta {
    fn clone(&self) -> (copy: Self)
        ensures
            copy@ == self@,
    {
        EventMeta {
            event_id: self.event_id.clone(),
            sender: self.sender.clone(),
            origin_server_ts: self.origin_server_ts,
            room_id: self.room_id.clone(),
        }
    }
}

/// A plain model for exercising the store and the executor: it carries its
/// indices and parents as data.
#[derive(Debug, PartialEq, Eq)]
pub struct TestModel {
    pub event_id: String,
    pub room_id: String,
    pub indizes: Vec<String>,
    pub belongs_to: Vec<String>,
    pub transition: bool,
}

/// The contents of a [`TestModel`].
pub struct TestModelView {
    pub event_id: Seq<char>,
    pub room_id: Seq<char>,
    pub indizes: Seq<Seq<char>>,
    pub belongs_to: Seq<Seq<char>>,
    pub transition: bool,
}

impl View for TestModel {
    type V = TestModelView;

    open spec fn view(&self) -> TestModelView {
        TestModelView {
            event_id: self.event_id@,
            room_id: self.room_id@,
            indizes: strings_view(self.indizes@),
            belongs_to: strings_view(self.belongs_to@),
            transition: self.transition,
        }
    }
}

impl Clone for TestModel {
    fn clone(&self) -> (copy: Self)
        ensures
            copy@ == self@,
    {
        TestModel {
            event_id: self.event_id.clone(),
            room_id: self.room_id.clone(),
            indizes: clone_keys(&self.indizes),
            belongs_to: clone_keys(&self.belongs_to),
            transition: self.transition,
        }
    }
}

/// The tombstone that takes the place of a redacted model. It keeps the
/// identity of the model it replaces and none of its content.
#[derive(Debug, PartialEq, Eq)]
pub struct RedactedActerModel {
    /// The kind of model that was redacted.
    pub orig_type: String,
    /// The indices the redacted model was filed under.
    pub indizes: Vec<String>,
    /// The event the redacted model was decoded from.
    pub meta: EventMeta,
    /// Why the model was redacted, if a reason was given.
    pub reason: Option<String>,
}

/// The contents of a [`RedactedActerModel`].
pub struct RedactedActerModelView {
    pub orig_type: Seq<char>,
    pub indizes: Seq<Seq<char>>,
    pub meta: EventMetaView,
    pub reason: Option<Seq<char>>,
}

impl View for RedactedActerModel {
    type V = RedactedActerModelView;

    open spec fn view(&self) -> RedactedActerModelView {
        RedactedActerModelView {
            orig_type: self.orig_type@,
            indizes: strings_view(self.indizes@),
            meta: self.meta@,
            reason: match self.reason {
                Some(text) => Some(text@),
                None => None,
            },
        }
    }
}

impl Clone for RedactedActerModel {
    fn clone(&self) -> (copy: Self)
        ensures
            copy@ == self@,
    {
        RedactedActerModel {
            orig_type: self.orig_type.clone(),
            indizes: clone_keys(&self.indizes),
            meta: self.meta.clone(),
            reason: match &self.reason {
                Some(text) => Some(text.clone()),
                None => None,
            },
        }
    }
}

/// Any model: the closed union of the kinds of model.
#[derive(Debug, PartialEq, Eq)]
pub enum AnyActerModel {
    TestModel(TestModel),
    Attachment(Attachment),
    CalendarEvent(CalendarEvent),
    CalendarEventUpdate(CalendarEventUpdate),
    Comment(Comment),
    NewsEntry(NewsEntry),
    NewsEntryUpdate(NewsEntryUpdate),
    ReadReceipt(ReadReceipt),
    RedactedActerModel(RedactedActerModel),
    Task(Task),
    TaskList(TaskList),
    TaskListUpdate(TaskListUpdate),
    TaskUpdate(TaskUpdate),
}

/// The contents of an [`AnyActerModel`].
pub enum AnyActerModelView {
    TestModel(TestModelView),
    Attachment(AttachmentView),
    CalendarEvent(CalendarEventView),
    CalendarEventUpdate(CalendarEventUpdateView),
    Comment(CommentView),
    NewsEntry(NewsEntryView),
    NewsEntryUpdate(NewsEntryUpdateView),
    ReadReceipt(ReadReceiptView),
    RedactedActerModel(RedactedActerModelView),
    Task(TaskView),
    TaskList(TaskListView),
    TaskListUpdate(TaskListUpdateView),
    TaskUpdate(TaskUpdateView),
}

impl View for AnyActerModel {
    type V = AnyActerModelView;

    open spec fn view(&self) -> AnyActerModelView {
        match self {
            AnyActerModel::TestModel(m) => AnyActerModelView::TestModel(m@),
            AnyActerModel::Attachment(m) => AnyActerModelView::Attachment(m@),
            AnyActerModel::CalendarEvent(m) => AnyActerModelView::CalendarEvent(m@),
            AnyActerModel::CalendarEventUpdate(m) => AnyActerModelView::CalendarEventUpdate(m@),
            AnyActerModel::Comment(m) => AnyActerModelView::Comment(m@),
            AnyActerModel::NewsEntry(m) => AnyActerModelView::NewsEntry(m@),
            AnyActerModel::NewsEntryUpdate(m) => AnyActerModelView::NewsEntryUpdate(m@),
            AnyActerModel::ReadReceipt(m) => AnyActerModelView::ReadReceipt(m@),
            AnyActerModel::RedactedActerModel(m) => AnyActerModelView::RedactedActerModel(m@),
            AnyActerModel::Task(m) => AnyActerModelView::Task(m@),
            AnyActerModel::TaskList(m) => AnyActerModelView::TaskList(m@),
            AnyActerModel::TaskListUpdate(m) => AnyActerModelView::TaskListUpdate(m@),
            AnyActerModel::TaskUpdate(m) => AnyActerModelView::TaskUpdate(m@),
        }
    }
}

impl Clone for AnyActerModel {
    fn clone(&self) -> (copy: Self)
        ensures
            copy@ == self@,
    {
        match self {
            AnyActerModel::TestModel(m) => AnyActerModel::TestModel(m.clone()),
            AnyActerModel::Attachment(m) => AnyActerModel::Attachment(m.clone()),
            AnyActerModel::CalendarEvent(m) => AnyActerModel::CalendarEvent(m.clone()),
            AnyActerModel::CalendarEventUpdate(m) => AnyActerModel::CalendarEventUpdate(m.clone()),
            AnyActerModel::Comment(m) => AnyActerModel::Comment(m.clone()),
            AnyActerModel::NewsEntry(m) => AnyActerModel::NewsEntry(m.clone()),
            AnyActerModel::NewsEntryUpdate(m) => AnyActerModel::NewsEntryUpdate(m.clone()),
            AnyActerModel::ReadReceipt(m) => AnyActerModel::ReadReceipt(m.clone()),
            AnyActerModel::RedactedActerModel(m) => AnyActerModel::RedactedActerModel(m.clone()),
            AnyActerModel::Task(m) => AnyActerModel::Task(m.clone()),
            AnyActerModel::TaskList(m) => AnyActerModel::TaskList(m.clone()),
            AnyActerModel::TaskListUpdate(m) => AnyActerModel::TaskListUpdate(m.clone()),
            AnyActerModel::TaskUpdate(m) => AnyActerModel::TaskUpdate(m.clone()),
        }
    }
}

impl AnyActerModelView {
    /// The identifier of the model, which is also its storage key.
    pub open spec fn event_id(self) -> Seq<char> {
        match self {
            AnyActerModelView::TestModel(m) => m.event_id,
            AnyActerModelView::Attachment(m) => m.meta.event_id,
            AnyActerModelView::CalendarEvent(m) => m.meta.event_id,
            AnyActerModelView::CalendarEventUpdate(m) => m.meta.event_id,
            AnyActerModelView::Comment(m) => m.meta.event_id,
            AnyActerModelView::NewsEntry(m) => m.meta.event_id,
            AnyActerModelView::NewsEntryUpdate(m) => m.meta.event_id,
            AnyActerModelView::ReadReceipt(m) => m.meta.event_id,
            AnyActerModelView::RedactedActerModel(m) => m.meta.event_id,
            AnyActerModelView::Task(m) => m.meta.event_id,
            AnyActerModelView::TaskList(m) => m.meta.event_id,
            AnyActerModelView::TaskListUpdate(m) => m.meta.event_id,
            AnyActerModelView::TaskUpdate(m) => m.meta.event_id,
        }
    }

    /// The room the model belongs to.
    pub open spec fn room_id(self) -> Seq<char> {
        match self {
            AnyActerModelView::TestModel(m) => m.room_id,
            AnyActerModelView::Attachment(m) => m.meta.room_id,
            AnyActerModelView::CalendarEvent(m) => m.meta.room_id,
            AnyActerModelView::CalendarEventUpdate(m) => m.meta.room_id,
            AnyActerModelView::Comment(m) => m.meta.room_id,
            AnyActerModelView::NewsEntry(m) => m.meta.room_id,
            AnyActerModelView::NewsEntryUpdate(m) => m.meta.room_id,
            AnyActerModelView::ReadReceipt(m) => m.meta.room_id,
            AnyActerModelView::RedactedActerModel(m) => m.meta.room_id,
            AnyActerModelView::Task(m) => m.meta.room_id,
            AnyActerModelView::TaskList(m) => m.meta.room_id,
            AnyActerModelView::TaskListUpdate(m) => m.meta.room_id,
            AnyActerModelView::TaskUpdate(m) => m.meta.room_id,
        }
    }

    /// The generic behaviours that may be attached to the model.
    pub open spec fn capabilities(self) -> Seq<Capability> {
        match self {
            AnyActerModelView::TestModel(_) => seq![Capability::Commentable, Capability::Reactable],
            AnyActerModelView::Attachment(_) => Seq::empty(),
            AnyActerModelView::CalendarEvent(_) => seq![
                Capability::Commentable,
                Capability::Reactable,
                Capability::Attachmentable,
            ],
            AnyActerModelView::CalendarEventUpdate(_) => Seq::empty(),
            AnyActerModelView::Comment(_) => Seq::empty(),
            AnyActerModelView::NewsEntry(_) => seq![
                Capability::Commentable,
                Capability::Reactable,
                Capability::ReadTracking,
            ],
            AnyActerModelView::NewsEntryUpdate(_) => Seq::empty(),
            AnyActerModelView::ReadReceipt(_) => Seq::empty(),
            AnyActerModelView::RedactedActerModel(_) => Seq::empty(),
            AnyActerModelView::Task(_) => seq![Capability::Commentable, Capability::Attachmentable],
            AnyActerModelView::TaskList(_) => seq![
                Capability::Commentable,
                Capability::Attachmentable,
            ],
            AnyActerModelView::TaskListUpdate(_) => Seq::empty(),
            AnyActerModelView::TaskUpdate(_) => Seq::empty(),
        }
    }

    /// The extra notification keys of the model, as `user_id` sees them.
    pub open spec fn indizes(self, user_id: Seq<char>) -> Seq<Seq<char>> {
        match self {
            AnyActerModelView::TestModel(m) => m.indizes,
            AnyActerModelView::Attachment(m) => seq![derived_key(m.inner.on, attachments_tag())],
            AnyActerModelView::CalendarEvent(m) => seq![
                calendar_tag(),
                derived_key(m.meta.room_id, calendar_tag()),
            ],
            AnyActerModelView::CalendarEventUpdate(m) => seq![
                derived_key(m.inner.calendar_event, history_tag()),
            ],
            AnyActerModelView::Comment(m) => seq![derived_key(m.on, comments_tag())],
            AnyActerModelView::NewsEntry(m) => seq![
                news_tag(),
                derived_key(m.meta.room_id, news_tag()),
            ],
            AnyActerModelView::NewsEntryUpdate(m) => seq![
                derived_key(m.inner.news_entry, history_tag()),
            ],
            AnyActerModelView::ReadReceipt(m) => seq![derived_key(m.on, read_receipts_tag())],
            AnyActerModelView::RedactedActerModel(m) => m.indizes,
            AnyActerModelView::Task(m) => seq![derived_key(m.inner.task_list_id, tasks_tag())],
            AnyActerModelView::TaskList(m) => seq![
                tasks_tag(),
                derived_key(m.meta.room_id, tasks_tag()),
            ],
            AnyActerModelView::TaskListUpdate(m) => seq![
                derived_key(m.inner.task_list, history_tag()),
            ],
            AnyActerModelView::TaskUpdate(m) => seq![derived_key(m.inner.task, history_tag())],
        }
    }

    /// The parents that are notified along with the model, or `None` where
    /// the model asks for no parent to be notified.
    pub open spec fn belongs_to(self) -> Option<Seq<Seq<char>>> {
        match self {
            AnyActerModelView::TestModel(m) => Some(m.belongs_to),
            AnyActerModelView::Attachment(_) => None,
            AnyActerModelView::CalendarEvent(_) => None,
            AnyActerModelView::CalendarEventUpdate(m) => Some(seq![m.inner.calendar_event]),
            AnyActerModelView::Comment(_) => None,
            AnyActerModelView::NewsEntry(_) => None,
            AnyActerModelView::NewsEntryUpdate(m) => Some(seq![m.inner.news_entry]),
            AnyActerModelView::ReadReceipt(_) => None,
            AnyActerModelView::RedactedActerModel(_) => None,
            AnyActerModelView::Task(m) => Some(seq![m.inner.task_list_id]),
            AnyActerModelView::TaskList(_) => None,
            AnyActerModelView::TaskListUpdate(m) => Some(seq![m.inner.task_list]),
            AnyActerModelView::TaskUpdate(m) => Some(seq![m.inner.task]),
        }
    }

    /// Whether a model of this kind can be replaced by a tombstone.
    pub open spec fn supports_redaction(self) -> bool {
        !(self is ReadReceipt)
    }
}

/// What applying a model comes to: the store afterwards, and the keys whose
/// observers are to be woken.
pub struct Applied {
    pub store: StoreView,
    pub keys: Seq<Seq<char>>,
}

/// The parents of `model`, none where it asks for no parent to be notified.
pub open spec fn parents_of(model: AnyActerModelView) -> Seq<Seq<char>> {
    match model.belongs_to() {
        Some(parents) => parents,
        None => Seq::empty(),
    }
}

/// Applying `model` the default way: it is saved, and the keys are its
/// identifier, its indices and its parents, in that order, each once.
pub open spec fn default_execute(store: StoreView, model: AnyActerModelView) -> Applied {
    Applied {
        store: store.save(model),
        keys: dedup(store.save_keys(model) + parents_of(model)),
    }
}

/// What writing to `store` comes to: `applied` where the backend beneath the
/// store is up, and `StoreBackend` where it is down.
pub open spec fn written(store: StoreView, applied: Applied) -> Result<Applied, Error> {
    if store.available {
        Ok(applied)
    } else {
        Err(Error::StoreBackend)
    }
}

/// Applying `update`, an update of the model stored under `target`.
///
/// The model it updates must be stored; otherwise the update fails as the
/// lookup does. With the backend down it fails with `StoreBackend`.
/// Otherwise the update is saved, it is merged into the model it updates,
/// and that model is saved again if the merge changed it. The keys are those
/// of the update, its parents and, where the merge changed the model, the
/// keys of that model, each once.
pub open spec fn update_execute(
    store: StoreView,
    update: AnyActerModelView,
    target: Seq<char>,
) -> Result<Applied, Error> {
    match store.get(target) {
        Err(e) => Err(e),
        Ok(stored) => {
            let saved = store.save(update);
            let touched = store.save_keys(update) + parents_of(update);
            if stored.transition(update) {
                written(
                    store,
                    Applied {
                        store: saved.save(stored.merged(update)),
                        keys: dedup(touched + saved.save_keys(stored.merged(update))),
                    },
                )
            } else {
                written(store, Applied { store: saved, keys: dedup(touched) })
            }
        },
    }
}

impl AnyActerModelView {
    /// The identifier of the model that this model updates, or `None` where
    /// it is no update.
    pub open spec fn updates(self) -> Option<Seq<char>> {
        match self {
            AnyActerModelView::CalendarEventUpdate(update) => Some(update.inner.calendar_event),
            AnyActerModelView::NewsEntryUpdate(update) => Some(update.inner.news_entry),
            AnyActerModelView::TaskListUpdate(update) => Some(update.inner.task_list),
            AnyActerModelView::TaskUpdate(update) => Some(update.inner.task),
            _ => None,
        }
    }

    /// Applying the model to `store`. A read receipt, a comment and an
    /// attachment go into the aggregate of the model they are about, an
    /// update is merged into the model it updates, and every other kind is
    /// applied the default way. Whatever has to write fails with
    /// `StoreBackend` where the backend beneath the store is down.
    pub open spec fn execute(self, store: StoreView) -> Result<Applied, Error> {
        match self {
            AnyActerModelView::ReadReceipt(receipt) => receipt.apply(store),
            AnyActerModelView::Comment(comment) => comment.apply(store),
            AnyActerModelView::Attachment(attachment) => attachment.apply(store),
            _ => match self.updates() {
                Some(target) => update_execute(store, self, target),
                None => written(store, default_execute(store, self)),
            },
        }
    }

    /// Redacting the model: `tombstone` is saved, and its keys are returned;
    /// with the backend down that fails with `StoreBackend`. A kind without
    /// redaction support leaves the store alone and returns no key.
    pub open spec fn redact(self, store: StoreView, tombstone: RedactedActerModelView) -> Result<
        Applied,
        Error,
    > {
        if self.supports_redaction() {
            written(
                store,
                Applied {
                    store: store.save(AnyActerModelView::RedactedActerModel(tombstone)),
                    keys: store.save_keys(AnyActerModelView::RedactedActerModel(tombstone)),
                },
            )
        } else {
            Ok(Applied { store, keys: Seq::empty() })
        }
    }

    /// The model after the later event `incoming` was merged into it. An
    /// update of a calendar event, a news entry, a task or a task list
    /// rewrites the fields it sets; nothing else changes any model.
    pub open spec fn merged(self, incoming: AnyActerModelView) -> AnyActerModelView {
        match (self, incoming) {
            (
                AnyActerModelView::CalendarEvent(event),
                AnyActerModelView::CalendarEventUpdate(update),
            ) => AnyActerModelView::CalendarEvent(
                CalendarEventView { inner: update.inner.applied(event.inner), meta: event.meta },
            ),
            (
                AnyActerModelView::NewsEntry(entry),
                AnyActerModelView::NewsEntryUpdate(update),
            ) => AnyActerModelView::NewsEntry(
                NewsEntryView { inner: update.inner.applied(entry.inner), meta: entry.meta },
            ),
            (
                AnyActerModelView::Task(task),
                AnyActerModelView::TaskUpdate(update),
            ) => AnyActerModelView::Task(
                TaskView { inner: update.inner.applied(task.inner), meta: task.meta },
            ),
            (
                AnyActerModelView::TaskList(list),
                AnyActerModelView::TaskListUpdate(update),
            ) => AnyActerModelView::TaskList(
                TaskListView { inner: update.inner.applied(list.inner), meta: list.meta },
            ),
            _ => self,
        }
    }

    /// Whether merging the later event `incoming` counts as a change. For a
    /// model that has updates it does where the update sets any field. A test
    /// model reports a change whatever comes in, so that the paths that depend
    /// on one can be exercised.
    pub open spec fn transition(self, incoming: AnyActerModelView) -> bool {
        match (self, incoming) {
            (
                AnyActerModelView::CalendarEvent(event),
                AnyActerModelView::CalendarEventUpdate(update),
            ) => update.inner.sets_any(),
            (
                AnyActerModelView::NewsEntry(entry),
                AnyActerModelView::NewsEntryUpdate(update),
            ) => update.inner.sets_any(),
            (
                AnyActerModelView::Task(task),
                AnyActerModelView::TaskUpdate(update),
            ) => update.inner.sets_any(),
            (
                AnyActerModelView::TaskList(list),
                AnyActerModelView::TaskListUpdate(update),
            ) => update.inner.sets_any(),
            (AnyActerModelView::TestModel(_), _) => true,
            _ => false,
        }
    }
}

/// Merging a later event into a model changes neither its identifier nor its
/// room nor its kind, so neither the key it is stored under nor the keys it
/// is filed under.
pub proof fn lemma_merge_keeps_identity(model: AnyActerModelView, incoming: AnyActerModelView)
    ensures
        model.merged(incoming).event_id() == model.event_id(),
        model.merged(incoming).room_id() == model.room_id(),
        model.merged(incoming).capabilities() == model.capabilities(),
        model.merged(incoming).belongs_to() == model.belongs_to(),
        forall|user_id: Seq<char>|
            model.merged(incoming).indizes(user_id) == model.indizes(user_id),
{
}

/// Applying a model the default way yields its identifier, each of its
/// indices and each of its parents, every one of them once, and no other key.
pub proof fn lemma_default_execute_covers(store: StoreView, model: AnyActerModelView)
    ensures
        default_execute(store, model).keys.no_duplicates(),
        default_execute(store, model).keys.contains(model.event_id()),
        forall|key: Seq<char>|
            model.indizes(store.user_id).contains(key) ==> default_execute(
                store,
                model,
            ).keys.contains(key),
        forall|key: Seq<char>|
            parents_of(model).contains(key) ==> default_execute(store, model).keys.contains(key),
        forall|key: Seq<char>|
            default_execute(store, model).keys.contains(key) ==> key == model.event_id()
                || model.indizes(store.user_id).contains(key) || parents_of(model).contains(key),
{
    let indizes = model.indizes(store.user_id);
    let parents = parents_of(model);
    let all = store.save_keys(model) + parents;
    lemma_dedup_members(all);
    assert(all[0] == model.event_id());
    assert(all.contains(model.event_id()));
    assert forall|key: Seq<char>| indizes.contains(key) implies all.contains(key) by {
        let i = choose|i: int| 0 <= i < indizes.len() && indizes[i] == key;
        assert(all[i + 1] == key);
    }
    assert forall|key: Seq<char>| parents.contains(key) implies all.contains(key) by {
        let i = choose|i: int| 0 <= i < parents.len() && parents[i] == key;
        assert(all[1 + indizes.len() + i] == key);
    }
    assert forall|key: Seq<char>| all.contains(key) implies key == model.event_id()
        || indizes.contains(key) || parents.contains(key) by {
        let i = choose|i: int| 0 <= i < all.len() && all[i] == key;
        if 1 <= i < 1 + indizes.len() {
            assert(indizes[i - 1] == key);
        } else if i >= 1 + indizes.len() {
            assert(parents[i - 1 - indizes.len()] == key);
        }
    }
}

/// Where a model that names its parents is applied with success, the keys
/// that are yielded hold its identifier, each of its indices and each of its
/// parents.
pub proof fn lemma_execute_covers(store: StoreView, model: AnyActerModelView)
    requires
        model.belongs_to() is Some,
    ensures
        model.execute(store) matches Ok(applied) ==> {
            &&& applied.keys.contains(model.event_id())
            &&& forall|key: Seq<char>|
                model.indizes(store.user_id).contains(key) ==> applied.keys.contains(key)
            &&& forall|key: Seq<char>|
                model.belongs_to()->0.contains(key) ==> applied.keys.contains(key)
        },
{
    let indizes = model.indizes(store.user_id);
    let parents = parents_of(model);
    let touched = store.save_keys(model) + parents;
    assert(touched[0] == model.event_id());
    assert(touched.contains(model.event_id()));
    assert forall|key: Seq<char>| indizes.contains(key) implies touched.contains(key) by {
        let i = choose|i: int| 0 <= i < indizes.len() && indizes[i] == key;
        assert(touched[i + 1] == key);
    }
    assert forall|key: Seq<char>| parents.contains(key) implies touched.contains(key) by {
        let i = choose|i: int| 0 <= i < parents.len() && parents[i] == key;
        assert(touched[1 + indizes.len() + i] == key);
    }
    lemma_dedup_members(touched);
    if model.updates() is Some {
        let target = store.get(model.updates()->0);
        if target is Ok {
            let more = store.save(model).save_keys(target->Ok_0.merged(model));
            lemma_dedup_members(touched + more);
            assert forall|key: Seq<char>| touched.contains(key) implies (touched
                + more).contains(key) by {
                let i = choose|i: int| 0 <= i < touched.len() && touched[i] == key;
                assert((touched + more)[i] == key);
            }
        }
    }
}

/// Whatever the kind of model, the keys that applying it yields hold no key
/// twice.
pub proof fn lemma_execute_keys_distinct(store: StoreView, model: AnyActerModelView)
    ensures
        model.execute(store) matches Ok(applied) ==> applied.keys.no_duplicates(),
{
    match model.execute(store) {
        Ok(applied) => {
            match model {
                AnyActerModelView::ReadReceipt(receipt) => {
                    let indizes = model.indizes(store.user_id);
                    lemma_dedup_members(indizes);
                    let parent = store.get(receipt.on);
                    if parent is Ok {
                        lemma_dedup_members(indizes.push(stats_key(receipt.on)));
                    }
                },
                AnyActerModelView::Comment(comment) => {
                    let indizes = model.indizes(store.user_id);
                    let parent = store.get(comment.on);
                    if parent is Ok {
                        lemma_dedup_members(indizes.push(comments_stats_key(comment.on)));
                    }
                },
                AnyActerModelView::Attachment(attachment) => {
                    let indizes = model.indizes(store.user_id);
                    let parent = store.get(attachment.inner.on);
                    if parent is Ok {
                        lemma_dedup_members(
                            indizes.push(attachments_stats_key(attachment.inner.on)),
                        );
                    }
                },
                _ => {
                    let touched = store.save_keys(model) + parents_of(model);
                    lemma_dedup_members(touched);
                    if model.updates() is Some {
                        let target = store.get(model.updates()->0);
                        if target is Ok {
                            lemma_dedup_members(
                                touched + store.save(model).save_keys(
                                    target->Ok_0.merged(model),
                                ),
                            );
                        }
                    }
                },
            }
        },
        Err(_) => {},
    }
}

/// After a model was applied the default way, the store holds it under its
/// identifier.
pub proof fn lemma_default_execute_stores(store: StoreView, model: AnyActerModelView)
    ensures
        default_execute(store, model).store.get(model.event_id()) == Ok::<
            AnyActerModelView,
            Error,
        >(model),
{
    lemma_save_then_get(store, model);
}

/// With the backend down nothing is written: applying a model fails, or it
/// leaves the store as it was and yields no key. The same holds of
/// redacting one.
pub proof fn lemma_backend_down_writes_nothing(
    store: StoreView,
    model: AnyActerModelView,
    tombstone: RedactedActerModelView,
)
    requires
        !store.available,
    ensures
        model.execute(store) matches Ok(applied) ==> applied.store == store && applied.keys.len()
            == 0,
        model.redact(store, tombstone) matches Ok(applied) ==> applied.store == store
            && applied.keys.len() == 0,
{
}

/// Applying a model keeps the rule that every model is stored under its own
/// identifier, and neither starts nor stops the backend.
pub proof fn lemma_execute_keeps_keyed(store: StoreView, model: AnyActerModelView)
    requires
        store.keyed(),
    ensures
        model.execute(store) matches Ok(applied) ==> applied.store.keyed()
            && applied.store.available == store.available,
{
    match model.execute(store) {
        Ok(applied) => {
            match model {
                AnyActerModelView::ReadReceipt(receipt) => {
                    lemma_save_keeps_keyed(store, model);
                    lemma_save_frame(store, model);
                },
                AnyActerModelView::Comment(comment) => {
                    lemma_save_keeps_keyed(store, model);
                    lemma_save_frame(store, model);
                },
                AnyActerModelView::Attachment(attachment) => {
                    lemma_save_keeps_keyed(store, model);
                    lemma_save_frame(store, model);
                },
                _ => {
                    lemma_save_keeps_keyed(store, model);
                    lemma_save_frame(store, model);
                    if model.updates() is Some {
                        let target = store.get(model.updates()->0);
                        if target is Ok {
                            let merged = target->Ok_0.merged(model);
                            lemma_save_keeps_keyed(store.save(model), merged);
                            lemma_save_frame(store.save(model), merged);
                        }
                    }
                },
            }
        },
        Err(_) => {},
    }
}

/// Whether `wanted` is among `capabilities`.
pub fn has_capability(capabilities: &Vec<Capability>, wanted: Capability) -> (found: bool)
    ensures
        found == capabilities@.contains(wanted),
{
    let mut i: usize = 0;
    while i < capabilities.len()
        invariant
            i <= capabilities.len(),
            forall|j: int| 0 <= j < i ==> capabilities@[j] != wanted,
        decreases capabilities.len() - i,
    {
        if capabilities[i] == wanted {
            return true;
        }
        i += 1;
    }
    false
}

/// What every kind of model offers.
pub trait ActerModel: Sized {
    /// The model as a member of the union of all kinds.
    spec fn model_view(&self) -> AnyActerModelView;

    /// The identifier of the model, which is also its storage key.
    fn event_id(&self) -> (id: &String)
        ensures
            id@ == self.model_view().event_id(),
    ;

    /// The room the model belongs to.
    fn room_id(&self) -> (id: &String)
        ensures
            id@ == self.model_view().room_id(),
    ;

    /// The generic behaviours that may be attached to the model.
    fn capabilities(&self) -> (capabilities: Vec<Capability>)
        ensures
            capabilities@ == self.model_view().capabilities(),
    ;

    /// The extra notification keys of the model, as `user_id` sees them.
    fn indizes(&self, user_id: &String) -> (keys: Vec<String>)
        ensures
            strings_view(keys@) == self.model_view().indizes(user_id@),
    ;

    /// The parents that are notified along with the model, or `None` where
    /// the model asks for no parent to be notified.
    fn belongs_to(&self) -> (parents: Option<Vec<String>>)
        ensures
            match self.model_view().belongs_to() {
                Some(expected) => parents matches Some(given) && strings_view(given@) == expected,
                None => parents is None,
            },
    ;

    /// Merges the later event `model` into this model and says whether
    /// anything changed.
    fn transition(&mut self, model: &AnyActerModel) -> (changed: Result<bool, Error>)
        ensures
            changed == Ok::<bool, Error>(old(self).model_view().transition(model@)),
            final(self).model_view() == old(self).model_view().merged(model@),
    ;
}

/// How a model is applied to the store, and how it is redacted.
pub trait ExecutableModel: ActerModel {
    /// Applies the model to `store` and returns the keys whose observers are
    /// to be woken. On failure the store is as it was.
    fn execute(self, store: &mut Store) -> (keys: Result<Vec<String>, Error>)
        ensures
            match self.model_view().execute(old(store)@) {
                Ok(applied) => {
                    &&& keys matches Ok(k)
                    &&& strings_view(k@) == applied.keys
                    &&& final(store)@ == applied.store
                },
                Err(e) => keys == Err::<Vec<String>, Error>(e) && final(store)@ == old(store)@,
            },
    ;

    /// Replaces the model by the tombstone `redaction_model` and returns the
    /// keys whose observers are to be woken. A kind without redaction support
    /// leaves the store alone and returns no key. On failure the store is as
    /// it was.
    fn redact(&self, store: &mut Store, redaction_model: RedactedActerModel) -> (keys: Result<
        Vec<String>,
        Error,
    >)
        ensures
            match self.model_view().redact(old(store)@, redaction_model@) {
                Ok(applied) => {
                    &&& keys matches Ok(k)
                    &&& strings_view(k@) == applied.keys
                    &&& final(store)@ == applied.store
                },
                Err(e) => keys == Err::<Vec<String>, Error>(e) && final(store)@ == old(store)@,
            },
            !self.model_view().supports_redaction() ==> (keys matches Ok(k) && k@.len() == 0)
                && final(store)@ == old(store)@,
    ;
}

/// Applies `model` the default way: saves it, and returns its identifier,
/// its indices and its parents, each once. With the backend down it fails
/// with `StoreBackend`, and the store is as it was.
pub fn default_model_execute(store: &mut Store, model: AnyActerModel) -> (keys: Result<
    Vec<String>,
    Error,
>)
    ensures
        match written(old(store)@, default_execute(old(store)@, model@)) {
            Ok(applied) => {
                &&& keys matches Ok(k)
                &&& strings_view(k@) == applied.keys
                &&& final(store)@ == applied.store
            },
            Err(e) => keys == Err::<Vec<String>, Error>(e) && final(store)@ == old(store)@,
        },
{
    let parents = model.belongs_to();
    match store.save(model) {
        Ok(mut touched) => {
            match parents {
                Some(parents) => extend_keys(&mut touched, &parents),
                None => {
                    assert(strings_view(touched@) + Seq::<Seq<char>>::empty() =~= strings_view(
                        touched@,
                    ));
                },
            }
            Ok(dedup_keys(&touched))
        },
        Err(e) => Err(e),
    }
}

/// Applies `update`, an update of the model stored under `target`: saves
/// the update, merges it into the model it updates, and saves that model
/// again if the merge changed it. Where no model is stored under `target`,
/// the lookup's failure is returned; with the backend down, `StoreBackend`.
/// Nothing is written unless everything can be: on failure the store is as
/// it was.
pub fn update_model_execute(store: &mut Store, update: AnyActerModel, target: &String) -> (keys:
    Result<Vec<String>, Error>)
    ensures
        match update_execute(old(store)@, update@, target@) {
            Ok(applied) => {
                &&& keys matches Ok(k)
                &&& strings_view(k@) == applied.keys
                &&& final(store)@ == applied.store
            },
            Err(e) => keys == Err::<Vec<String>, Error>(e) && final(store)@ == old(store)@,
        },
{
    let mut stored = match store.get(target) {
        Ok(stored) => stored,
        Err(e) => {
            return Err(e);
        },
    };
    if !store.is_available() {
        return Err(Error::StoreBackend);
    }
    let changed = match stored.transition(&update) {
        Ok(changed) => changed,
        Err(e) => {
            return Err(e);
        },
    };
    let parents = update.belongs_to();
    proof {
        lemma_save_frame(store@, update@);
    }
    let mut touched = match store.save(update) {
        Ok(touched) => touched,
        Err(e) => {
            return Err(e);
        },
    };
    match parents {
        Some(parents) => extend_keys(&mut touched, &parents),
        None => {
            assert(strings_view(touched@) + Seq::<Seq<char>>::empty() =~= strings_view(touched@));
        },
    }
    if changed {
        match store.save(stored) {
            Ok(more) => extend_keys(&mut touched, &more),
            Err(e) => {
                return Err(e);
            },
        }
    }
    Ok(dedup_keys(&touched))
}

/// Redacts the default way: saves the tombstone and returns its keys. With
/// the backend down it fails with `StoreBackend`, and the store is as it was.
pub fn default_model_redact(store: &mut Store, redaction_model: RedactedActerModel) -> (keys:
    Result<Vec<String>, Error>)
    ensures
        old(store)@.available ==> (keys matches Ok(k) && strings_view(k@) == old(
            store,
        )@.save_keys(AnyActerModelView::RedactedActerModel(redaction_model@))),
        old(store)@.available ==> final(store)@ == old(store)@.save(
            AnyActerModelView::RedactedActerModel(redaction_model@),
        ),
        !old(store)@.available ==> keys == Err::<Vec<String>, Error>(Error::StoreBackend),
        !old(store)@.available ==> final(store)@ == old(store)@,
{
    store.save(AnyActerModel::RedactedActerModel(redaction_model))
}

impl ActerModel for TestModel {
    open spec fn model_view(&self) -> AnyActerModelView {
        AnyActerModelView::TestModel(self@)
    }

    fn event_id(&self) -> (id: &String) {
        &self.event_id
    }

    fn room_id(&self) -> (id: &String) {
        &self.room_id
    }

    fn capabilities(&self) -> (capabilities: Vec<Capability>) {
        let mut capabilities: Vec<Capability> = Vec::new();
        capabilities.push(Capability::Commentable);
        capabilities.push(Capability::Reactable);
        assert(capabilities@ =~= seq![Capability::Commentable, Capability::Reactable]);
        capabilities
    }

    fn indizes(&self, user_id: &String) -> (keys: Vec<String>) {
        clone_keys(&self.indizes)
    }

    fn belongs_to(&self) -> (parents: Option<Vec<String>>) {
        Some(clone_keys(&self.belongs_to))
    }

    fn transition(&mut self, model: &AnyActerModel) -> (changed: Result<bool, Error>) {
        Ok(true)
    }
}

impl ActerModel for RedactedActerModel {
    open spec fn model_view(&self) -> AnyActerModelView {
        AnyActerModelView::RedactedActerModel(self@)
    }

    fn event_id(&self) -> (id: &String) {
        &self.meta.event_id
    }

    fn room_id(&self) -> (id: &String) {
        &self.meta.room_id
    }

    fn capabilities(&self) -> (capabilities: Vec<Capability>) {
        Vec::new()
    }

    fn indizes(&self, user_id: &String) -> (keys: Vec<String>) {
        clone_keys(&self.indizes)
    }

    fn belongs_to(&self) -> (parents: Option<Vec<String>>) {
        None
    }

    fn transition(&mut self, model: &AnyActerModel) -> (changed: Result<bool, Error>) {
        Ok(false)
    }
}

impl ActerModel for AnyActerModel {
    open spec fn model_view(&self) -> AnyActerModelView {
        self@
    }

    fn event_id(&self) -> (id: &String) {
        match self {
            AnyActerModel::TestModel(m) => m.event_id(),
            AnyActerModel::Attachment(m) => m.event_id(),
            AnyActerModel::CalendarEvent(m) => m.event_id(),
            AnyActerModel::CalendarEventUpdate(m) => m.event_id(),
            AnyActerModel::Comment(m) => m.event_id(),
            AnyActerModel::NewsEntry(m) => m.event_id(),
            AnyActerModel::NewsEntryUpdate(m) => m.event_id(),
            AnyActerModel::ReadReceipt(m) => m.event_id(),
            AnyActerModel::RedactedActerModel(m) => m.event_id(),
            AnyActerModel::Task(m) => m.event_id(),
            AnyActerModel::TaskList(m) => m.event_id(),
            AnyActerModel::TaskListUpdate(m) => m.event_id(),
            AnyActerModel::TaskUpdate(m) => m.event_id(),
        }
    }

    fn room_id(&self) -> (id: &String) {
        match self {
            AnyActerModel::TestModel(m) => m.room_id(),
            AnyActerModel::Attachment(m) => m.room_id(),
            AnyActerModel::CalendarEvent(m) => m.room_id(),
            AnyActerModel::CalendarEventUpdate(m) => m.room_id(),
            AnyActerModel::Comment(m) => m.room_id(),
            AnyActerModel::NewsEntry(m) => m.room_id(),
            AnyActerModel::NewsEntryUpdate(m) => m.room_id(),
            AnyActerModel::ReadReceipt(m) => m.room_id(),
            AnyActerModel::RedactedActerModel(m) => m.room_id(),
            AnyActerModel::Task(m) => m.room_id(),
            AnyActerModel::TaskList(m) => m.room_id(),
            AnyActerModel::TaskListUpdate(m) => m.room_id(),
            AnyActerModel::TaskUpdate(m) => m.room_id(),
        }
    }

    fn capabilities(&self) -> (capabilities: Vec<Capability>) {
        match self {
            AnyActerModel::TestModel(m) => m.capabilities(),
            AnyActerModel::Attachment(m) => m.capabilities(),
            AnyActerModel::CalendarEvent(m) => m.capabilities(),
            AnyActerModel::CalendarEventUpdate(m) => m.capabilities(),
            AnyActerModel::Comment(m) => m.capabilities(),
            AnyActerModel::NewsEntry(m) => m.capabilities(),
            AnyActerModel::NewsEntryUpdate(m) => m.capabilities(),
            AnyActerModel::ReadReceipt(m) => m.capabilities(),
            AnyActerModel::RedactedActerModel(m) => m.capabilities(),
            AnyActerModel::Task(m) => m.capabilities(),
            AnyActerModel::TaskList(m) => m.capabilities(),
            AnyActerModel::TaskListUpdate(m) => m.capabilities(),
            AnyActerModel::TaskUpdate(m) => m.capabilities(),
        }
    }

    fn indizes(&self, user_id: &String) -> (keys: Vec<String>) {
        match self {
            AnyActerModel::TestModel(m) => m.indizes(user_id),
            AnyActerModel::Attachment(m) => m.indizes(user_id),
            AnyActerModel::CalendarEvent(m) => m.indizes(user_id),
            AnyActerModel::CalendarEventUpdate(m) => m.indizes(user_id),
            AnyActerModel::Comment(m) => m.indizes(user_id),
            AnyActerModel::NewsEntry(m) => m.indizes(user_id),
            AnyActerModel::NewsEntryUpdate(m) => m.indizes(user_id),
            AnyActerModel::ReadReceipt(m) => m.indizes(user_id),
            AnyActerModel::RedactedActerModel(m) => m.indizes(user_id),
            AnyActerModel::Task(m) => m.indizes(user_id),
            AnyActerModel::TaskList(m) => m.indizes(user_id),
            AnyActerModel::TaskListUpdate(m) => m.indizes(user_id),
            AnyActerModel::TaskUpdate(m) => m.indizes(user_id),
        }
    }

    fn belongs_to(&self) -> (parents: Option<Vec<String>>) {
        match self {
            AnyActerModel::TestModel(m) => m.belongs_to(),
            AnyActerModel::Attachment(m) => m.belongs_to(),
            AnyActerModel::CalendarEvent(m) => m.belongs_to(),
            AnyActerModel::CalendarEventUpdate(m) => m.belongs_to(),
            AnyActerModel::Comment(m) => m.belongs_to(),
            AnyActerModel::NewsEntry(m) => m.belongs_to(),
            AnyActerModel::NewsEntryUpdate(m) => m.belongs_to(),
            AnyActerModel::ReadReceipt(m) => m.belongs_to(),
            AnyActerModel::RedactedActerModel(m) => m.belongs_to(),
            AnyActerModel::Task(m) => m.belongs_to(),
            AnyActerModel::TaskList(m) => m.belongs_to(),
            AnyActerModel::TaskListUpdate(m) => m.belongs_to(),
            AnyActerModel::TaskUpdate(m) => m.belongs_to(),
        }
    }

    fn transition(&mut self, model: &AnyActerModel) -> (changed: Result<bool, Error>) {
        match self {
            AnyActerModel::TestModel(m) => m.transition(model),
            AnyActerModel::Attachment(m) => m.transition(model),
            AnyActerModel::CalendarEvent(m) => m.transition(model),
            AnyActerModel::CalendarEventUpdate(m) => m.transition(model),
            AnyActerModel::Comment(m) => m.transition(model),
            AnyActerModel::NewsEntry(m) => m.transition(model),
            AnyActerModel::NewsEntryUpdate(m) => m.transition(model),
            AnyActerModel::ReadReceipt(m) => m.transition(model),
            AnyActerModel::RedactedActerModel(m) => m.transition(model),
            AnyActerModel::Task(m) => m.transition(model),
            AnyActerModel::TaskList(m) => m.transition(model),
            AnyActerModel::TaskListUpdate(m) => m.transition(model),
            AnyActerModel::TaskUpdate(m) => m.transition(model),
        }
    }
}

impl ExecutableModel for TestModel {
    fn execute(self, store: &mut Store) -> (keys: Result<Vec<String>, Error>) {
        default_model_execute(store, AnyActerModel::TestModel(self))
    }

    fn redact(&self, store: &mut Store, redaction_model: RedactedActerModel) -> (keys: Result<
        Vec<String>,
        Error,
    >) {
        default_model_redact(store, redaction_model)
    }
}

impl ExecutableModel for RedactedActerModel {
    fn execute(self, store: &mut Store) -> (keys: Result<Vec<String>, Error>) {
        default_model_execute(store, AnyActerModel::RedactedActerModel(self))
    }

    fn redact(&self, store: &mut Store, redaction_model: RedactedActerModel) -> (keys: Result<
        Vec<String>,
        Error,
    >) {
        default_model_redact(store, redaction_model)
    }
}

impl ExecutableModel for AnyActerModel {
    fn execute(self, store: &mut Store) -> (keys: Result<Vec<String>, Error>) {
        match self {
            AnyActerModel::TestModel(m) => m.execute(store),
            AnyActerModel::Attachment(m) => m.execute(store),
            AnyActerModel::CalendarEvent(m) => m.execute(store),
            AnyActerModel::CalendarEventUpdate(m) => m.execute(store),
            AnyActerModel::Comment(m) => m.execute(store),
            AnyActerModel::NewsEntry(m) => m.execute(store),
            AnyActerModel::NewsEntryUpdate(m) => m.execute(store),
            AnyActerModel::ReadReceipt(m) => m.execute(store),
            AnyActerModel::RedactedActerModel(m) => m.execute(store),
            AnyActerModel::Task(m) => m.execute(store),
            AnyActerModel::TaskList(m) => m.execute(store),
            AnyActerModel::TaskListUpdate(m) => m.execute(store),
            AnyActerModel::TaskUpdate(m) => m.execute(store),
        }
    }

    fn redact(&self, store: &mut Store, redaction_model: RedactedActerModel) -> (keys: Result<
        Vec<String>,
        Error,
    >) {
        match self {
            AnyActerModel::TestModel(m) => m.redact(store, redaction_model),
            AnyActerModel::Attachment(m) => m.redact(store, redaction_model),
            AnyActerModel::CalendarEvent(m) => m.redact(store, redaction_model),
            AnyActerModel::CalendarEventUpdate(m) => m.redact(store, redaction_model),
            AnyActerModel::Comment(m) => m.redact(store, redaction_model),
            AnyActerModel::NewsEntry(m) => m.redact(store, redaction_model),
            AnyActerModel::NewsEntryUpdate(m) => m.redact(store, redaction_model),
            AnyActerModel::ReadReceipt(m) => m.redact(store, redaction_model),
            AnyActerModel::RedactedActerModel(m) => m.redact(store, redaction_model),
            AnyActerModel::Task(m) => m.redact(store, redaction_model),
            AnyActerModel::TaskList(m) => m.redact(store, redaction_model),
            AnyActerModel::TaskListUpdate(m) => m.redact(store, redaction_model),
            AnyActerModel::TaskUpdate(m) => m.redact(store, redaction_model),
        }
    }
}

impl From<TestModel> for AnyActerModel {
    fn from(model: TestModel) -> (any: AnyActerModel) {
        AnyActerModel::TestModel(model)
    }
}

impl vstd::std_specs::convert::FromSpecImpl<TestModel> for AnyActerModel {
    open spec fn obeys_from_spec() -> bool {
        true
    }

    open spec fn from_spec(model: TestModel) -> AnyActerModel {
        AnyActerModel::TestModel(model)
    }
}

impl From<NewsEntry> for AnyActerModel {
    fn from(model: NewsEntry) -> (any: AnyActerModel) {
        AnyActerModel::NewsEntry(model)
    }
}

impl vstd::std_specs::convert::FromSpecImpl<NewsEntry> for AnyActerModel {
    open spec fn obeys_from_spec() -> bool {
        true
    }

    open spec fn from_spec(model: NewsEntry) -> AnyActerModel {
        AnyActerModel::NewsEntry(model)
    }
}

impl From<ReadReceipt> for AnyActerModel {
    fn from(model: ReadReceipt) -> (any: AnyActerModel) {
        AnyActerModel::ReadReceipt(model)
    }
}

impl vstd::std_specs::convert::FromSpecImpl<ReadReceipt> for AnyActerModel {
    open spec fn obeys_from_spec() -> bool {
        true
    }

    open spec fn from_spec(model: ReadReceipt) -> AnyActerModel {
        AnyActerModel::ReadReceipt(model)
    }
}

impl From<RedactedActerModel> for AnyActerModel {
    fn from(model: RedactedActerModel) -> (any: AnyActerModel) {
        AnyActerModel::RedactedActerModel(model)
    }
}

impl vstd::std_specs::convert::FromSpecImpl<RedactedActerModel> for AnyActerModel {
    open spec fn obeys_from_spec() -> bool {
        true
    }

    open spec fn from_spec(model: RedactedActerModel) -> AnyActerModel {
        AnyActerModel::RedactedActerModel(model)
    }
}

impl From<CalendarEvent> for AnyActerModel {
    fn from(model: CalendarEvent) -> (any: AnyActerModel) {
        AnyActerModel::CalendarEvent(model)
    }
}

impl vstd::std_specs::convert::FromSpecImpl<CalendarEvent> for AnyActerModel {
    open spec fn obeys_from_spec() -> bool {
        true
    }

    open spec fn from_spec(model: CalendarEvent) -> AnyActerModel {
        AnyActerModel::CalendarEvent(model)
    }
}

impl From<CalendarEventUpdate> for AnyActerModel {
    fn from(model: CalendarEventUpdate) -> (any: AnyActerModel) {
        AnyActerModel::CalendarEventUpdate(model)
    }
}

impl vstd::std_specs::convert::FromSpecImpl<CalendarEventUpdate> for AnyActerModel {
    open spec fn obeys_from_spec() -> bool {
        true
    }

    open spec fn from_spec(model: CalendarEventUpdate) -> AnyActerModel {
        AnyActerModel::CalendarEventUpdate(model)
    }
}

impl From<Task> for AnyActerModel {
    fn from(model: Task) -> (any: AnyActerModel) {
        AnyActerModel::Task(model)
    }
}

impl vstd::std_specs::convert::FromSpecImpl<Task> for AnyActerModel {
    open spec fn obeys_from_spec() -> bool {
        true
    }

    open spec fn from_spec(model: Task) -> AnyActerModel {
        AnyActerModel::Task(model)
    }
}

impl From<TaskList> for AnyActerModel {
    fn from(model: TaskList) -> (any: AnyActerModel) {
        AnyActerModel::TaskList(model)
    }
}

impl vstd::std_specs::convert::FromSpecImpl<TaskList> for AnyActerModel {
    open spec fn obeys_from_spec() -> bool {
        true
    }

    open spec fn from_spec(model: TaskList) -> AnyActerModel {
        AnyActerModel::TaskList(model)
    }
}

impl From<NewsEntryUpdate> for AnyActerModel {
    fn from(model: NewsEntryUpdate) -> (any: AnyActerModel) {
        AnyActerModel::NewsEntryUpdate(model)
    }
}

impl vstd::std_specs::convert::FromSpecImpl<NewsEntryUpdate> for AnyActerModel {
    open spec fn obeys_from_spec() -> bool {
        true
    }

    open spec fn from_spec(model: NewsEntryUpdate) -> AnyActerModel {
        AnyActerModel::NewsEntryUpdate(model)
    }
}

impl From<TaskListUpdate> for AnyActerModel {
    fn from(model: TaskListUpdate) -> (any: AnyActerModel) {
        AnyActerModel::TaskListUpdate(model)
    }
}

impl vstd::std_specs::convert::FromSpecImpl<TaskListUpdate> for AnyActerModel {
    open spec fn obeys_from_spec() -> bool {
        true
    }

    open spec fn from_spec(model: TaskListUpdate) -> AnyActerModel {
        AnyActerModel::TaskListUpdate(model)
    }
}

impl From<TaskUpdate> for AnyActerModel {
    fn from(model: TaskUpdate) -> (any: AnyActerModel) {
        AnyActerModel::TaskUpdate(model)
    }
}

impl vstd::std_specs::convert::FromSpecImpl<TaskUpdate> for AnyActerModel {
    open spec fn obeys_from_spec() -> bool {
        true
    }

    open spec fn from_spec(model: TaskUpdate) -> AnyActerModel {
        AnyActerModel::TaskUpdate(model)
    }
}

impl From<Comment> for AnyActerModel {
    fn from(model: Comment) -> (any: AnyActerModel) {
        AnyActerModel::Comment(model)
    }
}

impl vstd::std_specs::convert::FromSpecImpl<Comment> for AnyActerModel {
    open spec fn obeys_from_spec() -> bool {
        true
    }

    open spec fn from_spec(model: Comment) -> AnyActerModel {
        AnyActerModel::Comment(model)
    }
}

impl From<Attachment> for AnyActerModel {
    fn from(model: Attachment) -> (any: AnyActerModel) {
        AnyActerModel::Attachment(model)
    }
}

impl vstd::std_specs::convert::FromSpecImpl<Attachment> for AnyActerModel {
    open spec fn obeys_from_spec() -> bool {
        true
    }

    open spec fn from_spec(model: Attachment) -> AnyActerModel {
        AnyActerModel::Attachment(model)
    }
}

} // verus!
