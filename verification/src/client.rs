//! The client: what the features of an application are built on.
//!
//! A client owns the executor. Besides handing models to it and registering
//! observers, it composes message drafts and answers the questions the
//! features ask of the store.

use crate::attachments::Attachment;
use crate::error::{Error, RoomError};
use crate::executor::{seated, subscribed, Executor, Placement, WaitFor, Wake};
use crate::models::{AnyActerModel, AnyActerModelView};
use crate::msg_draft::{MsgContentDraft, MsgContentDraftView, MsgDraft};
use crate::keys::{key_listed, strings_view};
use crate::news::{
    entries_view, latest, latest_known_news, news_among, news_in_rooms, news_tag, NewsEntry,
};
use crate::store::{Store, StoreView};
use crate::tasks::{
    task_lists_among, task_lists_of, task_lists_view, tasks_tag, Task, TaskList, TaskListView,
};
use async_broadcast::Receiver;
use vstd::prelude::*;

verus! {

/// The client of one account.
pub struct Client {
    executor: Executor,
}

impl Client {
    /// The contents of the store.
    pub closed spec fn store_view(&self) -> StoreView {
        self.executor.store_view()
    }

    /// The registry: the keys for which a channel is registered, each with
    /// the number of its channel.
    pub closed spec fn channels(&self) -> Map<Seq<char>, u64> {
        self.executor.channels()
    }

    /// The keys for which a channel is registered.
    pub open spec fn subscriptions(&self) -> Set<Seq<char>> {
        self.channels().dom()
    }

    /// How the observer that was registered last was placed; `None` as long
    /// as none was.
    pub closed spec fn placed(&self) -> Option<Placement> {
        self.executor.placed()
    }

    /// The keys that the executor has tried to wake the observers of, in the
    /// order of the attempts.
    pub closed spec fn attempted(&self) -> Seq<Seq<char>> {
        self.executor.attempted()
    }

    /// A client on top of `executor`.
    pub fn new(executor: Executor) -> (client: Client)
        ensures
            client.store_view() == executor.store_view(),
            client.channels() == executor.channels(),
            client.placed() == executor.placed(),
            client.attempted() == executor.attempted(),
    {
        Client { executor }
    }

    /// The executor.
    pub fn executor(&self) -> (executor: &Executor)
        ensures
            executor.store_view() == self.store_view(),
            executor.channels() == self.channels(),
            executor.placed() == self.placed(),
            executor.attempted() == self.attempted(),
    {
        &self.executor
    }

    /// The store.
    pub fn store(&self) -> (store: &Store)
        ensures
            store@ == self.store_view(),
    {
        self.executor.store()
    }

    /// Registers an observer for `key` and hands out its receiver, as
    /// [`Executor::subscribe`] does: a live channel is joined, a closed one
    /// replaced, and a key without a channel gets one.
    pub fn subscribe(&mut self, key: String) -> (receiver: Receiver<()>)
        ensures
            final(self).placed() matches Some(how) && final(self).channels() == seated(
                old(self).channels(),
                key@,
                how,
            ) && (how is Create <==> !old(self).subscriptions().contains(key@)),
            subscribed(old(self).channels(), final(self).channels(), key@),
            final(self).subscriptions() == old(self).subscriptions().insert(key@),
            final(self).store_view() == old(self).store_view(),
            final(self).attempted() == old(self).attempted(),
    {
        self.executor.subscribe(key)
    }

    /// How the observer that was registered last was placed.
    pub fn last_placement(&self) -> (placement: Option<Placement>)
        ensures
            placement == self.placed(),
    {
        self.executor.last_placement()
    }

    /// Applies `model` and wakes the observers of the keys it touched. Where
    /// applying the model fails, the failure is returned, the store is as it
    /// was and nobody is woken.
    pub fn handle(&mut self, model: AnyActerModel) -> (done: Result<(), Error>)
        ensures
            match model@.execute(old(self).store_view()) {
                Ok(applied) => {
                    &&& done is Ok
                    &&& final(self).store_view() == applied.store
                    &&& final(self).attempted() == old(self).attempted() + applied.keys
                    &&& final(self).subscriptions().subset_of(old(self).subscriptions())
                    &&& final(self).channels() == old(self).channels().restrict(
                        final(self).subscriptions(),
                    )
                    &&& forall|k: Seq<char>|
                        old(self).subscriptions().contains(k) && !applied.keys.contains(k)
                            ==> final(self).subscriptions().contains(k)
                },
                Err(e) => {
                    &&& done == Err::<(), Error>(e)
                    &&& final(self).store_view() == old(self).store_view()
                    &&& final(self).channels() == old(self).channels()
                    &&& final(self).attempted() == old(self).attempted()
                },
            },
    {
        self.executor.handle(model)
    }

    /// Begins a wait for the model stored under `key`: the observer is
    /// registered, then the store is read.
    pub fn wait_for(&mut self, key: String) -> (wait: WaitFor)
        ensures
            final(self).placed() matches Some(how) && final(self).channels() == seated(
                old(self).channels(),
                key@,
                how,
            ) && (how is Create <==> !old(self).subscriptions().contains(key@)),
            subscribed(old(self).channels(), final(self).channels(), key@),
            final(self).subscriptions() == old(self).subscriptions().insert(key@),
            final(self).store_view() == old(self).store_view(),
            final(self).attempted() == old(self).attempted(),
            match old(self).store_view().get(key@) {
                Ok(stored) => wait matches WaitFor::Ready(model) && model@ == stored,
                Err(_) => wait is Pending,
            },
    {
        self.executor.wait_for(key)
    }

    /// Ends a pending wait for the model stored under `key`.
    pub fn finish_wait(&self, key: &String, wake: Wake) -> (model: Result<AnyActerModel, Error>)
        ensures
            wake is DeadlineElapsed ==> model == Err::<AnyActerModel, Error>(Error::Timeout),
            !(wake is DeadlineElapsed) ==> match self.store_view().get(key@) {
                Ok(stored) => model matches Ok(m) && m@ == stored,
                Err(e) => model == Err::<AnyActerModel, Error>(e),
            },
    {
        self.executor.finish_wait(key, wake)
    }

    /// The news entry that `model` is. A model of another kind is not what
    /// was asked for: `Serialization`.
    pub fn as_news_entry(model: AnyActerModel) -> (entry: Result<NewsEntry, Error>)
        ensures
            match model@ {
                AnyActerModelView::NewsEntry(expected) => entry matches Ok(e) && e@ == expected,
                _ => entry == Err::<NewsEntry, Error>(Error::Serialization),
            },
    {
        match model {
            AnyActerModel::NewsEntry(entry) => Ok(entry),
            _ => Err(Error::Serialization),
        }
    }

    /// Ends a pending wait for the news entry stored under `key`: as
    /// [`Client::finish_wait`], and a model that is no news entry is
    /// reported as `Serialization`.
    pub fn finish_wait_for_news(&self, key: &String, wake: Wake) -> (entry: Result<
        NewsEntry,
        Error,
    >)
        ensures
            wake is DeadlineElapsed ==> entry == Err::<NewsEntry, Error>(Error::Timeout),
            !(wake is DeadlineElapsed) ==> match self.store_view().get(key@) {
                Ok(AnyActerModelView::NewsEntry(expected)) => entry matches Ok(e) && e@
                    == expected,
                Ok(_) => entry == Err::<NewsEntry, Error>(Error::Serialization),
                Err(e) => entry == Err::<NewsEntry, Error>(e),
            },
    {
        match self.executor.finish_wait(key, wake) {
            Ok(model) => Self::as_news_entry(model),
            Err(e) => Err(e),
        }
    }

    /// The attachment that `model` is. A model of another kind is not what
    /// was asked for: `Serialization`.
    pub fn as_attachment(model: AnyActerModel) -> (attachment: Result<Attachment, Error>)
        ensures
            match model@ {
                AnyActerModelView::Attachment(expected) => attachment matches Ok(a) && a@
                    == expected,
                _ => attachment == Err::<Attachment, Error>(Error::Serialization),
            },
    {
        match model {
            AnyActerModel::Attachment(attachment) => Ok(attachment),
            _ => Err(Error::Serialization),
        }
    }

    /// Ends a pending wait for the attachment stored under `key`: as
    /// [`Client::finish_wait`], and a model that is no attachment is reported
    /// as `Serialization`.
    pub fn finish_wait_for_attachment(&self, key: &String, wake: Wake) -> (attachment: Result<
        Attachment,
        Error,
    >)
        ensures
            wake is DeadlineElapsed ==> attachment == Err::<Attachment, Error>(Error::Timeout),
            !(wake is DeadlineElapsed) ==> match self.store_view().get(key@) {
                Ok(AnyActerModelView::Attachment(expected)) => attachment matches Ok(a) && a@
                    == expected,
                Ok(_) => attachment == Err::<Attachment, Error>(Error::Serialization),
                Err(e) => attachment == Err::<Attachment, Error>(e),
            },
    {
        match self.executor.finish_wait(key, wake) {
            Ok(model) => Self::as_attachment(model),
            Err(e) => Err(e),
        }
    }

    /// The task that `model` is. A model of another kind is not what was
    /// asked for: `Serialization`.
    pub fn as_task(model: AnyActerModel) -> (task: Result<Task, Error>)
        ensures
            match model@ {
                AnyActerModelView::Task(expected) => task matches Ok(t) && t@ == expected,
                _ => task == Err::<Task, Error>(Error::Serialization),
            },
    {
        match model {
            AnyActerModel::Task(task) => Ok(task),
            _ => Err(Error::Serialization),
        }
    }

    /// The task list that `model` is. A model of another kind is not what
    /// was asked for: `Serialization`.
    pub fn as_task_list(model: AnyActerModel) -> (list: Result<TaskList, Error>)
        ensures
            match model@ {
                AnyActerModelView::TaskList(expected) => list matches Ok(l) && l@ == expected,
                _ => list == Err::<TaskList, Error>(Error::Serialization),
            },
    {
        match model {
            AnyActerModel::TaskList(list) => Ok(list),
            _ => Err(Error::Serialization),
        }
    }

    /// Ends a pending wait for the task stored under `key`: as
    /// [`Client::finish_wait`], and a model that is no task is reported as
    /// `Serialization`.
    pub fn finish_wait_for_task(&self, key: &String, wake: Wake) -> (task: Result<Task, Error>)
        ensures
            wake is DeadlineElapsed ==> task == Err::<Task, Error>(Error::Timeout),
            !(wake is DeadlineElapsed) ==> match self.store_view().get(key@) {
                Ok(AnyActerModelView::Task(expected)) => task matches Ok(t) && t@ == expected,
                Ok(_) => task == Err::<Task, Error>(Error::Serialization),
                Err(e) => task == Err::<Task, Error>(e),
            },
    {
        match self.executor.finish_wait(key, wake) {
            Ok(model) => Self::as_task(model),
            Err(e) => Err(e),
        }
    }

    /// Ends a pending wait for the task list stored under `key`: as
    /// [`Client::finish_wait`], and a model that is no task list is reported
    /// as `Serialization`.
    pub fn finish_wait_for_task_list(&self, key: &String, wake: Wake) -> (list: Result<
        TaskList,
        Error,
    >)
        ensures
            wake is DeadlineElapsed ==> list == Err::<TaskList, Error>(Error::Timeout),
            !(wake is DeadlineElapsed) ==> match self.store_view().get(key@) {
                Ok(AnyActerModelView::TaskList(expected)) => list matches Ok(l) && l@
                    == expected,
                Ok(_) => list == Err::<TaskList, Error>(Error::Serialization),
                Err(e) => list == Err::<TaskList, Error>(e),
            },
    {
        match self.executor.finish_wait(key, wake) {
            Ok(model) => Self::as_task_list(model),
            Err(e) => Err(e),
        }
    }

    /// The task lists of the rooms `rooms`, which are those the client is
    /// in, oldest first. A list of another room is passed over. With the
    /// backend down it fails with `StoreBackend`.
    pub fn task_lists(&self, rooms: &Vec<String>) -> (lists: Result<Vec<TaskList>, Error>)
        ensures
            self.store_view().available ==> (lists matches Ok(found) && task_lists_view(found@)
                == task_lists_in_rooms(
                    task_lists_among(self.store_view().get_list(tasks_tag())),
                    strings_view(rooms@),
                )),
            !self.store_view().available ==> lists == Err::<Vec<TaskList>, Error>(
                Error::StoreBackend,
            ),
    {
        match self.executor.store().get_list(&"tasks".to_owned()) {
            Ok(models) => Ok(known_task_lists(&task_lists_of(&models), rooms)),
            Err(e) => Err(e),
        }
    }

    /// The task list stored under `key`. A model of another kind is
    /// reported as `Serialization`.
    pub fn task_list(&self, key: &String) -> (list: Result<TaskList, Error>)
        ensures
            match self.store_view().get(key@) {
                Ok(AnyActerModelView::TaskList(expected)) => list matches Ok(l) && l@
                    == expected,
                Ok(_) => list == Err::<TaskList, Error>(Error::Serialization),
                Err(e) => list == Err::<TaskList, Error>(e),
            },
    {
        match self.executor.store().get(key) {
            Ok(model) => Self::as_task_list(model),
            Err(e) => Err(e),
        }
    }

    /// The task `task` as the store holds it now. Where the store holds a
    /// model of another kind under its identifier, `Serialization`.
    pub fn refresh_task(&self, task: &Task) -> (fresh: Result<Task, Error>)
        ensures
            match self.store_view().get(task@.meta.event_id) {
                Ok(AnyActerModelView::Task(expected)) => fresh matches Ok(t) && t@ == expected,
                Ok(_) => fresh == Err::<Task, Error>(Error::Serialization),
                Err(e) => fresh == Err::<Task, Error>(e),
            },
    {
        match self.executor.store().get(&task.meta.event_id) {
            Ok(model) => Self::as_task(model),
            Err(e) => Err(e),
        }
    }

    /// The task list `list` as the store holds it now. Where the store holds
    /// a model of another kind under its identifier, `Serialization`.
    pub fn refresh_task_list(&self, list: &TaskList) -> (fresh: Result<TaskList, Error>)
        ensures
            match self.store_view().get(list@.meta.event_id) {
                Ok(AnyActerModelView::TaskList(expected)) => fresh matches Ok(l) && l@
                    == expected,
                Ok(_) => fresh == Err::<TaskList, Error>(Error::Serialization),
                Err(e) => fresh == Err::<TaskList, Error>(e),
            },
    {
        self.task_list(&list.meta.event_id)
    }

    /// The news entry `entry` as the store holds it now. Where the store
    /// holds a model of another kind under its identifier, `Serialization`.
    pub fn refresh_news_entry(&self, entry: &NewsEntry) -> (fresh: Result<NewsEntry, Error>)
        ensures
            match self.store_view().get(entry@.meta.event_id) {
                Ok(AnyActerModelView::NewsEntry(expected)) => fresh matches Ok(e) && e@
                    == expected,
                Ok(_) => fresh == Err::<NewsEntry, Error>(Error::Serialization),
                Err(e) => fresh == Err::<NewsEntry, Error>(e),
            },
    {
        match self.executor.store().get(&entry.meta.event_id) {
            Ok(model) => Self::as_news_entry(model),
            Err(e) => Err(e),
        }
    }

    /// A draft of a plain text message.
    pub fn text_plain_draft(&self, body: String) -> (draft: MsgDraft)
        ensures
            draft@ == (MsgContentDraftView::TextPlain { body: body@ }),
    {
        MsgDraft::new(MsgContentDraft::TextPlain { body })
    }

    /// A draft of a markdown message.
    pub fn text_markdown_draft(&self, body: String) -> (draft: MsgDraft)
        ensures
            draft@ == (MsgContentDraftView::TextMarkdown { body: body@ }),
    {
        MsgDraft::new(MsgContentDraft::TextMarkdown { body })
    }

    /// A draft of an HTML message with its plain rendition.
    pub fn text_html_draft(&self, html: String, plain: String) -> (draft: MsgDraft)
        ensures
            draft@ == (MsgContentDraftView::TextHtml { html: html@, plain: plain@ }),
    {
        MsgDraft::new(MsgContentDraft::TextHtml { html, plain })
    }

    /// A draft of an image message: the image at `source`, of type `mimetype`.
    pub fn image_draft(&self, source: String, mimetype: String) -> (draft: MsgDraft)
        ensures
            draft@ == (MsgContentDraftView::Image {
                source: source@,
                mimetype: Some(mimetype@),
                filename: None,
            }),
    {
        MsgDraft::new(
            MsgContentDraft::Image { source, mimetype: Some(mimetype), filename: None },
        )
    }

    /// A draft of an audio message: the recording at `source`, of type
    /// `mimetype`.
    pub fn audio_draft(&self, source: String, mimetype: String) -> (draft: MsgDraft)
        ensures
            draft@ == (MsgContentDraftView::Audio {
                source: source@,
                mimetype: Some(mimetype@),
                filename: None,
            }),
    {
        MsgDraft::new(
            MsgContentDraft::Audio { source, mimetype: Some(mimetype), filename: None },
        )
    }

    /// A draft of a video message: the video at `source`, of type `mimetype`.
    pub fn video_draft(&self, source: String, mimetype: String) -> (draft: MsgDraft)
        ensures
            draft@ == (MsgContentDraftView::Video {
                source: source@,
                mimetype: Some(mimetype@),
                filename: None,
            }),
    {
        MsgDraft::new(
            MsgContentDraft::Video { source, mimetype: Some(mimetype), filename: None },
        )
    }

    /// A draft of a file message: the file at `source`, of type `mimetype`.
    pub fn file_draft(&self, source: String, mimetype: String) -> (draft: MsgDraft)
        ensures
            draft@ == (MsgContentDraftView::File {
                source: source@,
                mimetype: Some(mimetype@),
                filename: None,
            }),
    {
        MsgDraft::new(
            MsgContentDraft::File { source, mimetype: Some(mimetype), filename: None },
        )
    }

    /// A draft of a location message: the place `geo_uri`, described by
    /// `body`, with nothing else known about it.
    pub fn location_draft(&self, body: String, geo_uri: String) -> (draft: MsgDraft)
        ensures
            draft@ == (MsgContentDraftView::Location {
                body: body@,
                geo_uri: geo_uri@,
                info: None,
            }),
    {
        MsgDraft::new(MsgContentDraft::Location { body, geo_uri, info: None })
    }

    /// The news entries of the rooms `rooms`, which are those the client is
    /// in, newest first, `count` of them at most. An entry of another room
    /// is passed over and does not count. With the backend down it fails
    /// with `StoreBackend`.
    pub fn latest_news_entries(&self, rooms: &Vec<String>, count: u32) -> (news: Result<
        Vec<NewsEntry>,
        Error,
    >)
        ensures
            self.store_view().available ==> (news matches Ok(list) && entries_view(list@)
                == latest(
                    news_in_rooms(
                        news_among(self.store_view().get_list(news_tag())),
                        strings_view(rooms@),
                    ),
                    count as nat,
                )),
            !self.store_view().available ==> news == Err::<Vec<NewsEntry>, Error>(
                Error::StoreBackend,
            ),
    {
        latest_known_news(self.executor.store(), &"news".to_owned(), rooms, count)
    }
}

/// Whether a model of the room `room_id` may be handed out to a user who is
/// in the rooms `rooms`: it may if the room is among them, and otherwise
/// `missing` says what was kept back.
pub fn require_known_room(rooms: &Vec<String>, room_id: &String, missing: RoomError) -> (go:
    Result<(), RoomError>)
    ensures
        go == if strings_view(rooms@).contains(room_id@) {
            Ok::<(), RoomError>(())
        } else {
            Err(missing)
        },
{
    if key_listed(rooms, room_id) {
        Ok(())
    } else {
        Err(missing)
    }
}

/// The lists of `lists` whose room is among `rooms`, in their order.
pub open spec fn task_lists_in_rooms(lists: Seq<TaskListView>, rooms: Seq<Seq<char>>) -> Seq<
    TaskListView,
>
    decreases lists.len(),
{
    if lists.len() == 0 {
        Seq::empty()
    } else {
        let front = task_lists_in_rooms(lists.drop_last(), rooms);
        if rooms.contains(lists.last().meta.room_id) {
            front.push(lists.last())
        } else {
            front
        }
    }
}

/// The lists of `lists` whose room is among `rooms`, in their order.
pub fn known_task_lists(lists: &Vec<TaskList>, rooms: &Vec<String>) -> (known: Vec<TaskList>)
    ensures
        task_lists_view(known@) == task_lists_in_rooms(
            task_lists_view(lists@),
            strings_view(rooms@),
        ),
{
    let ghost all = task_lists_view(lists@);
    let ghost names = strings_view(rooms@);
    let mut known: Vec<TaskList> = Vec::new();
    let mut i: usize = 0;
    assert(all.take(0) =~= Seq::<TaskListView>::empty());
    assert(task_lists_view(known@) =~= Seq::<TaskListView>::empty());
    while i < lists.len()
        invariant
            i <= lists.len(),
            all == task_lists_view(lists@),
            names == strings_view(rooms@),
            task_lists_view(known@) == task_lists_in_rooms(all.take(i as int), names),
        decreases lists.len() - i,
    {
        assert(all.take(i + 1).drop_last() =~= all.take(i as int));
        assert(all.take(i + 1).last() == lists@[i as int]@);
        if key_listed(rooms, &lists[i].meta.room_id) {
            let ghost before = known@;
            let copy = lists[i].clone();
            known.push(copy);
            assert(task_lists_view(known@) =~= task_lists_view(before).push(copy@));
        }
        i += 1;
    }
    assert(all.take(lists.len() as int) =~= all);
    known
}

} // verus!
