//! Spaces: the rooms that news, tasks and events are published in.

use crate::client::Client;
use crate::error::{Error, RoomError};
use crate::keys::{derive_key, derived_key};
use crate::news::{
    entries_view, latest, latest_news, news_among, news_tag, NewsEntry, NewsEntryDraft,
    NewsEntryEventContentView,
};
use crate::tasks::{
    task_lists_among, task_lists_of, task_lists_view, tasks_tag, TaskList, TaskListDraft,
    TaskListDraftView,
};
use vstd::prelude::*;

verus! {

/// A space, known by the identifier of its room.
#[derive(Debug, PartialEq, Eq)]
pub struct Space {
    room_id: String,
}

impl View for Space {
    type V = Seq<char>;

    closed spec fn view(&self) -> Seq<char> {
        self.room_id@
    }
}

impl Space {
    /// The space of the room `room_id`.
    pub fn new(room_id: String) -> (space: Space)
        ensures
            space@ == room_id@,
    {
        Space { room_id }
    }

    /// The identifier of the room of the space.
    pub fn room_id(&self) -> (room_id: &String)
        ensures
            room_id@ == self@,
    {
        &self.room_id
    }

    /// The news entries of the space that `client` knows, newest first,
    /// `count` of them at most. With the backend down it fails with
    /// `StoreBackend`.
    pub fn latest_news_entries(&self, client: &Client, count: u32) -> (news: Result<
        Vec<NewsEntry>,
        Error,
    >)
        ensures
            client.store_view().available ==> (news matches Ok(list) && entries_view(list@)
                == latest(
                    news_among(client.store_view().get_list(derived_key(self@, news_tag()))),
                    count as nat,
                )),
            !client.store_view().available ==> news == Err::<Vec<NewsEntry>, Error>(
                Error::StoreBackend,
            ),
    {
        let index = derive_key(self.room_id.as_str(), "news");
        latest_news(client.store(), &index, count)
    }

    /// A draft of a news entry for the space. Only a user who has joined the
    /// space may publish in it.
    pub fn news_draft(&self, joined: bool) -> (draft: Result<NewsEntryDraft, RoomError>)
        ensures
            joined ==> (draft matches Ok(d) && d@ == (NewsEntryEventContentView {
                slides: Seq::empty(),
                colors: None,
            })),
            !joined ==> draft is Err && draft->Err_0 == RoomError::CannotCreateNews,
    {
        if !joined {
            return Err(RoomError::CannotCreateNews);
        }
        Ok(NewsEntryDraft::new())
    }

    /// The draft of a news entry `content` for the space. Only a user who
    /// has joined the space may publish in it.
    pub fn news_draft_with_builder(&self, joined: bool, content: NewsEntryDraft) -> (draft:
        Result<NewsEntryDraft, RoomError>)
        ensures
            joined ==> (draft matches Ok(d) && d@ == content@),
            !joined ==> draft is Err && draft->Err_0 == RoomError::CannotCreateNews,
    {
        if !joined {
            return Err(RoomError::CannotCreateNews);
        }
        Ok(content)
    }

    /// A draft of a task list for the space. Only a user who has joined the
    /// space may publish in it.
    pub fn task_list_draft(&self, joined: bool) -> (draft: Result<TaskListDraft, RoomError>)
        ensures
            joined ==> (draft matches Ok(d) && d@ == TaskListDraftView::empty()),
            !joined ==> draft is Err && draft->Err_0 == RoomError::CannotCreateTaskList,
    {
        if !joined {
            return Err(RoomError::CannotCreateTaskList);
        }
        Ok(TaskListDraft::new())
    }

    /// The draft of a task list `content` for the space. Only a user who has
    /// joined the space may publish in it.
    pub fn task_list_draft_with_builder(&self, joined: bool, content: TaskListDraft) -> (draft:
        Result<TaskListDraft, RoomError>)
        ensures
            joined ==> (draft matches Ok(d) && d@ == content@),
            !joined ==> draft is Err && draft->Err_0 == RoomError::CannotCreateTaskList,
    {
        if !joined {
            return Err(RoomError::CannotCreateTaskList);
        }
        Ok(content)
    }

    /// The task lists of the space that `client` knows, oldest first. With
    /// the backend down it fails with `StoreBackend`.
    pub fn task_lists(&self, client: &Client) -> (lists: Result<Vec<TaskList>, Error>)
        ensures
            client.store_view().available ==> (lists matches Ok(found) && task_lists_view(found@)
                == task_lists_among(
                    client.store_view().get_list(derived_key(self@, tasks_tag())),
                )),
            !client.store_view().available ==> lists == Err::<Vec<TaskList>, Error>(
                Error::StoreBackend,
            ),
    {
        let index = derive_key(self.room_id.as_str(), "tasks");
        match client.store().get_list(&index) {
            Ok(models) => Ok(task_lists_of(&models)),
            Err(e) => Err(e),
        }
    }
}

} // verus!
