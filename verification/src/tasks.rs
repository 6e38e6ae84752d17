//! Tasks and task lists: what they say, and the drafts and updates that are
//! composed before they are sent.
//!
//! A draft collects the fields of a new task or task list. An update collects
//! the changes to an existing one: a field that was never set stays as it is,
//! and a field that can be empty is cleared by setting it to nothing.

use crate::attachments::{attachments_stats_key, loaded_attachments, AttachmentsManager};
use crate::client::Client;
use crate::comments::{comments_stats_key, loaded_comments, CommentsManager};
use crate::content::{
    clone_text, optional_strings_view, optional_text_view, text_view, updated, Color,
    TextMessageContent, TextMessageContentView, Update, UtcDateTime,
};
use crate::datetime::{
    formatted_instant, reading, rfc2822_instant, rfc3339_instant, DateTimeError,
};
use crate::error::{BuilderError, Error, RoomError};
use crate::executor::subscribed;
use crate::keys::{
    clone_keys, clone_option, derive_key, derived_key, history_tag, no_keys, option_view,
    strings_view,
};
use crate::models::{
    default_model_execute, default_model_redact, update_model_execute, ActerModel,
    AnyActerModel, AnyActerModelView, Capability, EventMeta, EventMetaView, ExecutableModel,
    RedactedActerModel,
};
use crate::store::{models_view, Store};
use async_broadcast::Receiver;
use vstd::prelude::*;

verus! {

/// How urgent a task is.
#[derive(Clone, Copy, Debug, PartialEq, Eq, Structural)]
pub enum Priority {
    Undefined,
    Highest,
    SecondHighest,
    Three,
    Four,
    Five,
    Six,
    Seven,
    SecondLowest,
    Lowest,
}

impl Priority {
    /// The rank of the priority, from 1 for the highest to 9 for the lowest,
    /// or `None` where none is defined.
    pub open spec fn rank_of(self) -> Option<u8> {
        match self {
            Priority::Undefined => None,
            Priority::Highest => Some(1),
            Priority::SecondHighest => Some(2),
            Priority::Three => Some(3),
            Priority::Four => Some(4),
            Priority::Five => Some(5),
            Priority::Six => Some(6),
            Priority::Seven => Some(7),
            Priority::SecondLowest => Some(8),
            Priority::Lowest => Some(9),
        }
    }

    /// The rank of the priority, from 1 for the highest to 9 for the lowest,
    /// or `None` where none is defined.
    pub fn rank(self) -> (rank: Option<u8>)
        ensures
            rank == self.rank_of(),
    {
        Some(
            match self {
                Priority::Undefined => {
                    return None;
                },
                Priority::Highest => 1,
                Priority::SecondHighest => 2,
                Priority::Three => 3,
                Priority::Four => 4,
                Priority::Five => 5,
                Priority::Six => 6,
                Priority::Seven => 7,
                Priority::SecondLowest => 8,
                Priority::Lowest => 9,
            },
        )
    }
}

/// The plain text `body`.
pub open spec fn plain_text(body: Seq<char>) -> TextMessageContentView {
    TextMessageContentView { body, formatted: None }
}

/// A progress in percent: more than a hundred counts as a hundred.
pub open spec fn clamped(progress_percent: u8) -> u8 {
    if progress_percent > 100 {
        100
    } else {
        progress_percent
    }
}

/// A progress in percent: more than a hundred counts as a hundred.
pub fn clamp_percent(progress_percent: u8) -> (percent: u8)
    ensures
        percent == clamped(progress_percent),
{
    if progress_percent > 100 {
        100
    } else {
        progress_percent
    }
}

/// A copy of an optional list of strings.
pub fn clone_optional_keys(keys: &Option<Vec<String>>) -> (copy: Option<Vec<String>>)
    ensures
        optional_strings_view(copy) == optional_strings_view(*keys),
{
    match keys {
        Some(k) => Some(clone_keys(k)),
        None => None,
    }
}

/// A copy of an optional text that may be cleared.
pub fn clone_optional_text(text: &Option<Option<TextMessageContent>>) -> (copy: Option<
    Option<TextMessageContent>,
>)
    ensures
        optional_text_view(copy) == optional_text_view(*text),
{
    match text {
        Some(t) => Some(clone_text(t)),
        None => None,
    }
}

/// The text of a description, if there is one.
pub open spec fn description_body(description: Option<TextMessageContentView>) -> Option<
    Seq<char>,
> {
    match description {
        Some(text) => Some(text.body),
        None => None,
    }
}

/// Whether a task with this progress is done: it is at a hundred percent or
/// more.
pub open spec fn is_done_at(progress_percent: Option<u8>) -> bool {
    match progress_percent {
        Some(percent) => percent >= 100,
        None => false,
    }
}

/// What a task says.
#[derive(Debug, PartialEq, Eq)]
pub struct TaskEventContent {
    /// The title of the task.
    pub title: String,
    /// More about the task.
    pub description: Option<TextMessageContent>,
    /// The users the task is assigned to.
    pub assignees: Vec<String>,
    /// The users who follow the task.
    pub subscribers: Vec<String>,
    /// Where the task stands in its list.
    pub sort_order: u32,
    /// How urgent the task is.
    pub priority: Priority,
    /// When the task is due.
    pub utc_due: Option<UtcDateTime>,
    /// When work on the task starts.
    pub utc_start: Option<UtcDateTime>,
    /// The colour of the task.
    pub color: Option<Color>,
    /// How far the task has come, in percent.
    pub progress_percent: Option<u8>,
    /// The keywords of the task.
    pub keywords: Vec<String>,
    /// The categories of the task.
    pub categories: Vec<String>,
    /// The identifier of the list the task is on.
    pub task_list_id: String,
}

/// The contents of a [`TaskEventContent`].
pub struct TaskEventContentView {
    pub title: Seq<char>,
    pub description: Option<TextMessageContentView>,
    pub assignees: Seq<Seq<char>>,
    pub subscribers: Seq<Seq<char>>,
    pub sort_order: u32,
    pub priority: Priority,
    pub utc_due: Option<UtcDateTime>,
    pub utc_start: Option<UtcDateTime>,
    pub color: Option<Color>,
    pub progress_percent: Option<u8>,
    pub keywords: Seq<Seq<char>>,
    pub categories: Seq<Seq<char>>,
    pub task_list_id: Seq<char>,
}

impl View for TaskEventContent {
    type V = TaskEventContentView;

    open spec fn view(&self) -> TaskEventContentView {
        TaskEventContentView {
            title: self.title@,
            description: text_view(self.description),
            assignees: strings_view(self.assignees@),
            subscribers: strings_view(self.subscribers@),
            sort_order: self.sort_order,
            priority: self.priority,
            utc_due: self.utc_due,
            utc_start: self.utc_start,
            color: self.color,
            progress_percent: self.progress_percent,
            keywords: strings_view(self.keywords@),
            categories: strings_view(self.categories@),
            task_list_id: self.task_list_id@,
        }
    }
}

impl Clone for TaskEventContent {
    fn clone(&self) -> (copy: Self)
        ensures
            copy@ == self@,
    {
        TaskEventContent {
            title: self.title.clone(),
            description: clone_text(&self.description),
            assignees: clone_keys(&self.assignees),
            subscribers: clone_keys(&self.subscribers),
            sort_order: self.sort_order,
            priority: self.priority,
            utc_due: self.utc_due,
            utc_start: self.utc_start,
            color: self.color,
            progress_percent: self.progress_percent,
            keywords: clone_keys(&self.keywords),
            categories: clone_keys(&self.categories),
            task_list_id: self.task_list_id.clone(),
        }
    }
}

/// What a task list says.
#[derive(Debug, PartialEq, Eq)]
pub struct TaskListEventContent {
    /// The name of the list.
    pub name: String,
    /// More about the list.
    pub description: Option<TextMessageContent>,
    /// The users who follow the list.
    pub subscribers: Vec<String>,
    /// Where the list stands among the lists.
    pub sort_order: u32,
    /// The colour of the list.
    pub color: Option<Color>,
    /// The keywords of the list.
    pub keywords: Vec<String>,
    /// The categories of the list.
    pub categories: Vec<String>,
}

/// The contents of a [`TaskListEventContent`].
pub struct TaskListEventContentView {
    pub name: Seq<char>,
    pub description: Option<TextMessageContentView>,
    pub subscribers: Seq<Seq<char>>,
    pub sort_order: u32,
    pub color: Option<Color>,
    pub keywords: Seq<Seq<char>>,
    pub categories: Seq<Seq<char>>,
}

impl View for TaskListEventContent {
    type V = TaskListEventContentView;

    open spec fn view(&self) -> TaskListEventContentView {
        TaskListEventContentView {
            name: self.name@,
            description: text_view(self.description),
            subscribers: strings_view(self.subscribers@),
            sort_order: self.sort_order,
            color: self.color,
            keywords: strings_view(self.keywords@),
            categories: strings_view(self.categories@),
        }
    }
}

impl Clone for TaskListEventContent {
    fn clone(&self) -> (copy: Self)
        ensures
            copy@ == self@,
    {
        TaskListEventContent {
            name: self.name.clone(),
            description: clone_text(&self.description),
            subscribers: clone_keys(&self.subscribers),
            sort_order: self.sort_order,
            color: self.color,
            keywords: clone_keys(&self.keywords),
            categories: clone_keys(&self.categories),
        }
    }
}

/// An update of a task.
#[derive(Debug, PartialEq, Eq)]
pub struct TaskUpdateEventContent {
    /// The task that is updated.
    pub task: Update,
    /// The new title, if the title is to change.
    pub title: Option<String>,
    /// The new description, if the description is to change.
    pub description: Option<Option<TextMessageContent>>,
    /// The new assignees, if they are to change.
    pub assignees: Option<Vec<String>>,
    /// The new subscribers, if they are to change.
    pub subscribers: Option<Vec<String>>,
    /// The new place in the list, if it is to change.
    pub sort_order: Option<u32>,
    /// The new due date, if it is to change.
    pub utc_due: Option<Option<UtcDateTime>>,
    /// The new start, if it is to change.
    pub utc_start: Option<Option<UtcDateTime>>,
    /// The new colour, if the colour is to change.
    pub color: Option<Option<Color>>,
    /// The new progress, if the progress is to change.
    pub progress_percent: Option<Option<u8>>,
    /// The new keywords, if they are to change.
    pub keywords: Option<Vec<String>>,
    /// The new categories, if they are to change.
    pub categories: Option<Vec<String>>,
}

/// The contents of a [`TaskUpdateEventContent`].
pub struct TaskUpdateEventContentView {
    pub task: Seq<char>,
    pub title: Option<Seq<char>>,
    pub description: Option<Option<TextMessageContentView>>,
    pub assignees: Option<Seq<Seq<char>>>,
    pub subscribers: Option<Seq<Seq<char>>>,
    pub sort_order: Option<u32>,
    pub utc_due: Option<Option<UtcDateTime>>,
    pub utc_start: Option<Option<UtcDateTime>>,
    pub color: Option<Option<Color>>,
    pub progress_percent: Option<Option<u8>>,
    pub keywords: Option<Seq<Seq<char>>>,
    pub categories: Option<Seq<Seq<char>>>,
}

impl View for TaskUpdateEventContent {
    type V = TaskUpdateEventContentView;

    open spec fn view(&self) -> TaskUpdateEventContentView {
        TaskUpdateEventContentView {
            task: self.task.event_id@,
            title: option_view(self.title),
            description: optional_text_view(self.description),
            assignees: optional_strings_view(self.assignees),
            subscribers: optional_strings_view(self.subscribers),
            sort_order: self.sort_order,
            utc_due: self.utc_due,
            utc_start: self.utc_start,
            color: self.color,
            progress_percent: self.progress_percent,
            keywords: optional_strings_view(self.keywords),
            categories: optional_strings_view(self.categories),
        }
    }
}

impl Clone for TaskUpdateEventContent {
    fn clone(&self) -> (copy: Self)
        ensures
            copy@ == self@,
    {
        TaskUpdateEventContent {
            task: Update { event_id: self.task.event_id.clone() },
            title: clone_option(&self.title),
            description: clone_optional_text(&self.description),
            assignees: clone_optional_keys(&self.assignees),
            subscribers: clone_optional_keys(&self.subscribers),
            sort_order: self.sort_order,
            utc_due: self.utc_due,
            utc_start: self.utc_start,
            color: self.color,
            progress_percent: self.progress_percent,
            keywords: clone_optional_keys(&self.keywords),
            categories: clone_optional_keys(&self.categories),
        }
    }
}

/// An update of a task list.
#[derive(Debug, PartialEq, Eq)]
pub struct TaskListUpdateEventContent {
    /// The task list that is updated.
    pub task_list: Update,
    /// The new name, if the name is to change.
    pub name: Option<String>,
    /// The new description, if the description is to change.
    pub description: Option<Option<TextMessageContent>>,
    /// The new subscribers, if they are to change.
    pub subscribers: Option<Vec<String>>,
    /// The new place among the lists, if it is to change.
    pub sort_order: Option<u32>,
    /// The new colour, if the colour is to change.
    pub color: Option<Option<Color>>,
    /// The new keywords, if they are to change.
    pub keywords: Option<Vec<String>>,
    /// The new categories, if they are to change.
    pub categories: Option<Vec<String>>,
}

/// The contents of a [`TaskListUpdateEventContent`].
pub struct TaskListUpdateEventContentView {
    pub task_list: Seq<char>,
    pub name: Option<Seq<char>>,
    pub description: Option<Option<TextMessageContentView>>,
    pub subscribers: Option<Seq<Seq<char>>>,
    pub sort_order: Option<u32>,
    pub color: Option<Option<Color>>,
    pub keywords: Option<Seq<Seq<char>>>,
    pub categories: Option<Seq<Seq<char>>>,
}

impl View for TaskListUpdateEventContent {
    type V = TaskListUpdateEventContentView;

    open spec fn view(&self) -> TaskListUpdateEventContentView {
        TaskListUpdateEventContentView {
            task_list: self.task_list.event_id@,
            name: option_view(self.name),
            description: optional_text_view(self.description),
            subscribers: optional_strings_view(self.subscribers),
            sort_order: self.sort_order,
            color: self.color,
            keywords: optional_strings_view(self.keywords),
            categories: optional_strings_view(self.categories),
        }
    }
}

impl Clone for TaskListUpdateEventContent {
    fn clone(&self) -> (copy: Self)
        ensures
            copy@ == self@,
    {
        TaskListUpdateEventContent {
            task_list: Update { event_id: self.task_list.event_id.clone() },
            name: clone_option(&self.name),
            description: clone_optional_text(&self.description),
            subscribers: clone_optional_keys(&self.subscribers),
            sort_order: self.sort_order,
            color: self.color,
            keywords: clone_optional_keys(&self.keywords),
            categories: clone_optional_keys(&self.categories),
        }
    }
}

impl TaskUpdateEventContentView {
    /// Whether the update sets any field.
    pub open spec fn sets_any(self) -> bool {
        ||| self.title is Some
        ||| self.description is Some
        ||| self.assignees is Some
        ||| self.subscribers is Some
        ||| self.sort_order is Some
        ||| self.utc_due is Some
        ||| self.utc_start is Some
        ||| self.color is Some
        ||| self.progress_percent is Some
        ||| self.keywords is Some
        ||| self.categories is Some
    }

    /// What the task says after the update.
    pub open spec fn applied(self, task: TaskEventContentView) -> TaskEventContentView {
        TaskEventContentView {
            title: updated(self.title, task.title),
            description: updated(self.description, task.description),
            assignees: updated(self.assignees, task.assignees),
            subscribers: updated(self.subscribers, task.subscribers),
            sort_order: updated(self.sort_order, task.sort_order),
            utc_due: updated(self.utc_due, task.utc_due),
            utc_start: updated(self.utc_start, task.utc_start),
            color: updated(self.color, task.color),
            progress_percent: updated(self.progress_percent, task.progress_percent),
            keywords: updated(self.keywords, task.keywords),
            categories: updated(self.categories, task.categories),
            ..task
        }
    }
}

impl TaskUpdateEventContent {
    /// Merges the update into `task` and says whether the update set any
    /// field.
    pub fn apply(&self, task: &mut TaskEventContent) -> (changed: Result<bool, Error>)
        ensures
            changed == Ok::<bool, Error>(self@.sets_any()),
            final(task)@ == self@.applied(old(task)@),
    {
        let mut updated = false;
        if let Some(v) = &self.title {
            task.title = v.clone();
            updated = true;
        }
        if let Some(v) = &self.description {
            task.description = clone_text(v);
            updated = true;
        }
        if let Some(v) = &self.assignees {
            task.assignees = clone_keys(v);
            updated = true;
        }
        if let Some(v) = &self.subscribers {
            task.subscribers = clone_keys(v);
            updated = true;
        }
        if let Some(v) = &self.sort_order {
            task.sort_order = *v;
            updated = true;
        }
        if let Some(v) = &self.utc_due {
            task.utc_due = *v;
            updated = true;
        }
        if let Some(v) = &self.utc_start {
            task.utc_start = *v;
            updated = true;
        }
        if let Some(v) = &self.color {
            task.color = *v;
            updated = true;
        }
        if let Some(v) = &self.progress_percent {
            task.progress_percent = *v;
            updated = true;
        }
        if let Some(v) = &self.keywords {
            task.keywords = clone_keys(v);
            updated = true;
        }
        if let Some(v) = &self.categories {
            task.categories = clone_keys(v);
            updated = true;
        }
        Ok(updated)
    }
}

impl TaskListUpdateEventContentView {
    /// Whether the update sets any field.
    pub open spec fn sets_any(self) -> bool {
        ||| self.name is Some
        ||| self.description is Some
        ||| self.subscribers is Some
        ||| self.sort_order is Some
        ||| self.color is Some
        ||| self.keywords is Some
        ||| self.categories is Some
    }

    /// What the task list says after the update.
    pub open spec fn applied(
        self,
        task_list: TaskListEventContentView,
    ) -> TaskListEventContentView {
        TaskListEventContentView {
            name: updated(self.name, task_list.name),
            description: updated(self.description, task_list.description),
            subscribers: updated(self.subscribers, task_list.subscribers),
            sort_order: updated(self.sort_order, task_list.sort_order),
            color: updated(self.color, task_list.color),
            keywords: updated(self.keywords, task_list.keywords),
            categories: updated(self.categories, task_list.categories),
            ..task_list
        }
    }
}

impl TaskListUpdateEventContent {
    /// Merges the update into `task_list` and says whether the update set any
    /// field.
    pub fn apply(&self, task_list: &mut TaskListEventContent) -> (changed: Result<bool, Error>)
        ensures
            changed == Ok::<bool, Error>(self@.sets_any()),
            final(task_list)@ == self@.applied(old(task_list)@),
    {
        let mut updated = false;
        if let Some(v) = &self.name {
            task_list.name = v.clone();
            updated = true;
        }
        if let Some(v) = &self.description {
            task_list.description = clone_text(v);
            updated = true;
        }
        if let Some(v) = &self.subscribers {
            task_list.subscribers = clone_keys(v);
            updated = true;
        }
        if let Some(v) = &self.sort_order {
            task_list.sort_order = *v;
            updated = true;
        }
        if let Some(v) = &self.color {
            task_list.color = *v;
            updated = true;
        }
        if let Some(v) = &self.keywords {
            task_list.keywords = clone_keys(v);
            updated = true;
        }
        if let Some(v) = &self.categories {
            task_list.categories = clone_keys(v);
            updated = true;
        }
        Ok(updated)
    }
}

/// A task: what it says and the event it was decoded from.
#[derive(Debug, PartialEq, Eq)]
pub struct Task {
    pub inner: TaskEventContent,
    pub meta: EventMeta,
}

/// The contents of a [`Task`].
pub struct TaskView {
    pub inner: TaskEventContentView,
    pub meta: EventMetaView,
}

impl View for Task {
    type V = TaskView;

    open spec fn view(&self) -> TaskView {
        TaskView { inner: self.inner@, meta: self.meta@ }
    }
}

impl Clone for Task {
    fn clone(&self) -> (copy: Self)
        ensures
            copy@ == self@,
    {
        Task { inner: self.inner.clone(), meta: self.meta.clone() }
    }
}

/// A task list: what it says and the event it was decoded from.
#[derive(Debug, PartialEq, Eq)]
pub struct TaskList {
    pub inner: TaskListEventContent,
    pub meta: EventMeta,
}

/// The contents of a [`TaskList`].
pub struct TaskListView {
    pub inner: TaskListEventContentView,
    pub meta: EventMetaView,
}

impl View for TaskList {
    type V = TaskListView;

    open spec fn view(&self) -> TaskListView {
        TaskListView { inner: self.inner@, meta: self.meta@ }
    }
}

impl Clone for TaskList {
    fn clone(&self) -> (copy: Self)
        ensures
            copy@ == self@,
    {
        TaskList { inner: self.inner.clone(), meta: self.meta.clone() }
    }
}

impl Task {
    /// The title of the task.
    pub fn title(&self) -> (title: String)
        ensures
            title@ == self@.inner.title,
    {
        self.inner.title.clone()
    }

    /// The text of the description, if there is one.
    pub fn description_text(&self) -> (text: Option<String>)
        ensures
            option_view(text) == description_body(self@.inner.description),
    {
        match &self.inner.description {
            Some(description) => Some(description.body.clone()),
            None => None,
        }
    }

    /// The users the task is assigned to.
    pub fn assignees(&self) -> (assignees: Vec<String>)
        ensures
            strings_view(assignees@) == self@.inner.assignees,
    {
        clone_keys(&self.inner.assignees)
    }

    /// The users who follow the task.
    pub fn subscribers(&self) -> (subscribers: Vec<String>)
        ensures
            strings_view(subscribers@) == self@.inner.subscribers,
    {
        clone_keys(&self.inner.subscribers)
    }

    /// Where the task stands in its list.
    pub fn sort_order(&self) -> (sort_order: u32)
        ensures
            sort_order == self@.inner.sort_order,
    {
        self.inner.sort_order
    }

    /// The rank of the priority, from 1 for the highest to 9 for the lowest,
    /// or `None` where none is defined.
    pub fn priority(&self) -> (rank: Option<u8>)
        ensures
            rank == self@.inner.priority.rank_of(),
    {
        self.inner.priority.rank()
    }

    /// When the task is due.
    pub fn utc_due(&self) -> (utc_due: Option<UtcDateTime>)
        ensures
            utc_due == self@.inner.utc_due,
    {
        self.inner.utc_due
    }

    /// When work on the task starts.
    pub fn utc_start(&self) -> (utc_start: Option<UtcDateTime>)
        ensures
            utc_start == self@.inner.utc_start,
    {
        self.inner.utc_start
    }

    /// The colour of the task.
    pub fn color(&self) -> (color: Option<Color>)
        ensures
            color == self@.inner.color,
    {
        self.inner.color
    }

    /// How far the task has come, in percent.
    pub fn progress_percent(&self) -> (progress_percent: Option<u8>)
        ensures
            progress_percent == self@.inner.progress_percent,
    {
        self.inner.progress_percent
    }

    /// The keywords of the task.
    pub fn keywords(&self) -> (keywords: Vec<String>)
        ensures
            strings_view(keywords@) == self@.inner.keywords,
    {
        clone_keys(&self.inner.keywords)
    }

    /// The categories of the task.
    pub fn categories(&self) -> (categories: Vec<String>)
        ensures
            strings_view(categories@) == self@.inner.categories,
    {
        clone_keys(&self.inner.categories)
    }

    /// Whether the task is done: its progress is a hundred percent or more.
    pub fn is_done(&self) -> (done: bool)
        ensures
            done == is_done_at(self@.inner.progress_percent),
    {
        match self.inner.progress_percent {
            Some(percent) => percent >= 100,
            None => false,
        }
    }

    /// The manager of the comments on the task, as `store` holds them.
    pub fn comments(&self, store: &Store) -> (manager: CommentsManager)
        ensures
            manager.parent() == self@.meta.event_id,
            manager.counted() == loaded_comments(
                store@,
                comments_stats_key(self@.meta.event_id),
            ),
    {
        CommentsManager::from_store_and_event_id(store, &self.meta.event_id)
    }

    /// Registers an observer for changes of the task and hands out its
    /// receiver.
    pub fn subscribe(&self, client: &mut Client) -> (receiver: Receiver<()>)
        ensures
            subscribed(old(client).channels(), final(client).channels(), self@.meta.event_id),
            final(client).subscriptions() == old(client).subscriptions().insert(
                self@.meta.event_id,
            ),
            final(client).store_view() == old(client).store_view(),
            final(client).attempted() == old(client).attempted(),
    {
        client.subscribe(self.meta.event_id.clone())
    }

    /// The manager of the attachments of the task, as `store` holds them.
    pub fn attachments(&self, store: &Store) -> (manager: AttachmentsManager)
        ensures
            manager.parent() == self@.meta.event_id,
            manager.counted() == loaded_attachments(
                store@,
                attachments_stats_key(self@.meta.event_id),
            ),
    {
        AttachmentsManager::from_store_and_event_id(store, &self.meta.event_id)
    }

    /// A builder of an update of the task, with nothing changed yet. Only a
    /// user who has joined the room of the task may update it.
    pub fn update_builder(&self, joined: bool) -> (builder: Result<TaskUpdateBuilder, RoomError>)
        ensures
            joined ==> (builder matches Ok(b) && b@ == (TaskUpdateBuilderView {
                task: Some(self@.meta.event_id),
                ..TaskUpdateBuilderView::empty()
            })),
            !joined ==> builder is Err && builder->Err_0 == RoomError::CannotUpdateTask,
    {
        if !joined {
            return Err(RoomError::CannotUpdateTask);
        }
        let mut builder = TaskUpdateBuilder::new();
        builder.task(Update { event_id: self.meta.event_id.clone() });
        Ok(builder)
    }
}

impl TaskList {
    /// The name of the list.
    pub fn name(&self) -> (name: String)
        ensures
            name@ == self@.inner.name,
    {
        self.inner.name.clone()
    }

    /// The text of the description, if there is one.
    pub fn description_text(&self) -> (text: Option<String>)
        ensures
            option_view(text) == description_body(self@.inner.description),
    {
        match &self.inner.description {
            Some(description) => Some(description.body.clone()),
            None => None,
        }
    }

    /// The users who follow the list.
    pub fn subscribers(&self) -> (subscribers: Vec<String>)
        ensures
            strings_view(subscribers@) == self@.inner.subscribers,
    {
        clone_keys(&self.inner.subscribers)
    }

    /// Where the list stands among the lists.
    pub fn sort_order(&self) -> (sort_order: u32)
        ensures
            sort_order == self@.inner.sort_order,
    {
        self.inner.sort_order
    }

    /// The colour of the list.
    pub fn color(&self) -> (color: Option<Color>)
        ensures
            color == self@.inner.color,
    {
        self.inner.color
    }

    /// The keywords of the list.
    pub fn keywords(&self) -> (keywords: Vec<String>)
        ensures
            strings_view(keywords@) == self@.inner.keywords,
    {
        clone_keys(&self.inner.keywords)
    }

    /// The categories of the list.
    pub fn categories(&self) -> (categories: Vec<String>)
        ensures
            strings_view(categories@) == self@.inner.categories,
    {
        clone_keys(&self.inner.categories)
    }

    /// Registers an observer for changes of the list and hands out its
    /// receiver.
    pub fn subscribe(&self, client: &mut Client) -> (receiver: Receiver<()>)
        ensures
            subscribed(old(client).channels(), final(client).channels(), self@.meta.event_id),
            final(client).subscriptions() == old(client).subscriptions().insert(
                self@.meta.event_id,
            ),
            final(client).store_view() == old(client).store_view(),
            final(client).attempted() == old(client).attempted(),
    {
        client.subscribe(self.meta.event_id.clone())
    }

    /// The manager of the attachments of the list, as `store` holds them.
    pub fn attachments(&self, store: &Store) -> (manager: AttachmentsManager)
        ensures
            manager.parent() == self@.meta.event_id,
            manager.counted() == loaded_attachments(
                store@,
                attachments_stats_key(self@.meta.event_id),
            ),
    {
        AttachmentsManager::from_store_and_event_id(store, &self.meta.event_id)
    }

    /// The manager of the comments on the list, as `store` holds them.
    pub fn comments(&self, store: &Store) -> (manager: CommentsManager)
        ensures
            manager.parent() == self@.meta.event_id,
            manager.counted() == loaded_comments(
                store@,
                comments_stats_key(self@.meta.event_id),
            ),
    {
        CommentsManager::from_store_and_event_id(store, &self.meta.event_id)
    }

    /// A draft of a task on the list. Only a user who has joined the room of
    /// the list may put a task on it.
    pub fn task_builder(&self, joined: bool) -> (draft: Result<TaskDraft, RoomError>)
        ensures
            joined ==> (draft matches Ok(d) && d@ == (TaskDraftView {
                task_list_id: Some(self@.meta.event_id),
                ..TaskDraftView::empty()
            })),
            !joined ==> draft is Err && draft->Err_0 == RoomError::CannotCreateTask,
    {
        if !joined {
            return Err(RoomError::CannotCreateTask);
        }
        let mut draft = TaskDraft::new();
        draft.task_list_id(self.meta.event_id.clone());
        Ok(draft)
    }

    /// A builder of an update of the list, with nothing changed yet. Only a
    /// user who has joined the room of the list may update it.
    pub fn update_builder(&self, joined: bool) -> (builder: Result<
        TaskListUpdateBuilder,
        RoomError,
    >)
        ensures
            joined ==> (builder matches Ok(b) && b@ == (TaskListUpdateBuilderView {
                task_list: Some(self@.meta.event_id),
                ..TaskListUpdateBuilderView::empty()
            })),
            !joined ==> builder is Err && builder->Err_0 == RoomError::CannotUpdateTask,
    {
        if !joined {
            return Err(RoomError::CannotUpdateTask);
        }
        let mut builder = TaskListUpdateBuilder::new();
        builder.task_list(Update { event_id: self.meta.event_id.clone() });
        Ok(builder)
    }
}

/// Collects the fields of a new task. The title and the list have to be
/// set; every other field has a default.
#[derive(Debug, Default)]
pub struct TaskDraft {
    title: Option<String>,
    description: Option<Option<TextMessageContent>>,
    assignees: Option<Vec<String>>,
    subscribers: Option<Vec<String>>,
    sort_order: Option<u32>,
    priority: Option<Priority>,
    utc_due: Option<Option<UtcDateTime>>,
    utc_start: Option<Option<UtcDateTime>>,
    color: Option<Option<Color>>,
    progress_percent: Option<Option<u8>>,
    keywords: Option<Vec<String>>,
    categories: Option<Vec<String>>,
    task_list_id: Option<String>,
}

/// The contents of a [`TaskDraft`]: each field as far as it was set.
pub struct TaskDraftView {
    pub title: Option<Seq<char>>,
    pub description: Option<Option<TextMessageContentView>>,
    pub assignees: Option<Seq<Seq<char>>>,
    pub subscribers: Option<Seq<Seq<char>>>,
    pub sort_order: Option<u32>,
    pub priority: Option<Priority>,
    pub utc_due: Option<Option<UtcDateTime>>,
    pub utc_start: Option<Option<UtcDateTime>>,
    pub color: Option<Option<Color>>,
    pub progress_percent: Option<Option<u8>>,
    pub keywords: Option<Seq<Seq<char>>>,
    pub categories: Option<Seq<Seq<char>>>,
    pub task_list_id: Option<Seq<char>>,
}

impl View for TaskDraft {
    type V = TaskDraftView;

    closed spec fn view(&self) -> TaskDraftView {
        TaskDraftView {
            title: match self.title {
                Some(v) => Some(v@),
                None => None,
            },
            description: match self.description {
                Some(v) => Some(text_view(v)),
                None => None,
            },
            assignees: match self.assignees {
                Some(v) => Some(strings_view(v@)),
                None => None,
            },
            subscribers: match self.subscribers {
                Some(v) => Some(strings_view(v@)),
                None => None,
            },
            sort_order: match self.sort_order {
                Some(v) => Some(v),
                None => None,
            },
            priority: match self.priority {
                Some(v) => Some(v),
                None => None,
            },
            utc_due: match self.utc_due {
                Some(v) => Some(v),
                None => None,
            },
            utc_start: match self.utc_start {
                Some(v) => Some(v),
                None => None,
            },
            color: match self.color {
                Some(v) => Some(v),
                None => None,
            },
            progress_percent: match self.progress_percent {
                Some(v) => Some(v),
                None => None,
            },
            keywords: match self.keywords {
                Some(v) => Some(strings_view(v@)),
                None => None,
            },
            categories: match self.categories {
                Some(v) => Some(strings_view(v@)),
                None => None,
            },
            task_list_id: match self.task_list_id {
                Some(v) => Some(v@),
                None => None,
            },
        }
    }
}

impl TaskDraftView {
    /// A builder on which nothing was set.
    pub open spec fn empty() -> TaskDraftView {
        TaskDraftView {
            title: None,
            description: None,
            assignees: None,
            subscribers: None,
            sort_order: None,
            priority: None,
            utc_due: None,
            utc_start: None,
            color: None,
            progress_percent: None,
            keywords: None,
            categories: None,
            task_list_id: None,
        }
    }

    /// Whether every field without a default was set.
    pub open spec fn is_complete(self) -> bool {
        self.title is Some && self.task_list_id is Some
    }

    /// The first field without a default that was never set.
    pub open spec fn missing(self) -> Seq<char> {
        if self.title is None {
            "title"@
        } else {
            "task_list_id"@
        }
    }

    /// The content that a complete builder builds.
    pub open spec fn built(self) -> TaskEventContentView {
        TaskEventContentView {
            title: self.title->0,
            description: updated(self.description, None),
            assignees: updated(self.assignees, Seq::empty()),
            subscribers: updated(self.subscribers, Seq::empty()),
            sort_order: updated(self.sort_order, 0u32),
            priority: updated(self.priority, Priority::Undefined),
            utc_due: updated(self.utc_due, None),
            utc_start: updated(self.utc_start, None),
            color: updated(self.color, None),
            progress_percent: updated(self.progress_percent, None),
            keywords: updated(self.keywords, Seq::empty()),
            categories: updated(self.categories, Seq::empty()),
            task_list_id: self.task_list_id->0,
        }
    }
}

impl Clone for TaskDraft {
    fn clone(&self) -> (copy: Self)
        ensures
            copy@ == self@,
    {
        TaskDraft {
            title: match &self.title {
                Some(v) => Some(v.clone()),
                None => None,
            },
            description: match &self.description {
                Some(v) => Some(clone_text(v)),
                None => None,
            },
            assignees: match &self.assignees {
                Some(v) => Some(clone_keys(v)),
                None => None,
            },
            subscribers: match &self.subscribers {
                Some(v) => Some(clone_keys(v)),
                None => None,
            },
            sort_order: match &self.sort_order {
                Some(v) => Some(*v),
                None => None,
            },
            priority: match &self.priority {
                Some(v) => Some(*v),
                None => None,
            },
            utc_due: match &self.utc_due {
                Some(v) => Some(*v),
                None => None,
            },
            utc_start: match &self.utc_start {
                Some(v) => Some(*v),
                None => None,
            },
            color: match &self.color {
                Some(v) => Some(*v),
                None => None,
            },
            progress_percent: match &self.progress_percent {
                Some(v) => Some(*v),
                None => None,
            },
            keywords: match &self.keywords {
                Some(v) => Some(clone_keys(v)),
                None => None,
            },
            categories: match &self.categories {
                Some(v) => Some(clone_keys(v)),
                None => None,
            },
            task_list_id: match &self.task_list_id {
                Some(v) => Some(v.clone()),
                None => None,
            },
        }
    }
}

impl TaskDraft {
    /// A builder on which nothing is set.
    pub fn new() -> (draft: TaskDraft)
        ensures
            draft@ == TaskDraftView::empty(),
    {
        TaskDraft {
            title: None,
            description: None,
            assignees: None,
            subscribers: None,
            sort_order: None,
            priority: None,
            utc_due: None,
            utc_start: None,
            color: None,
            progress_percent: None,
            keywords: None,
            categories: None,
            task_list_id: None,
        }
    }

    /// Sets the list the task is on.
    pub fn task_list_id(&mut self, task_list_id: String) -> (draft: &mut Self)
        ensures
            draft@ == (TaskDraftView { task_list_id: Some(task_list_id@), ..old(self)@ }),
            *final(self) == *final(draft),
    {
        self.task_list_id = Some(task_list_id);
        self
    }

    /// Sets the title.
    pub fn title(&mut self, title: String) -> (draft: &mut Self)
        ensures
            draft@ == (TaskDraftView { title: Some(title@), ..old(self)@ }),
            *final(self) == *final(draft),
    {
        self.title = Some(title);
        self
    }

    /// Sets the description to the plain text `body`.
    pub fn description_text(&mut self, body: String) -> (draft: &mut Self)
        ensures
            draft@ == (TaskDraftView { description: Some(Some(plain_text(body@))), ..old(self)@ }),
            *final(self) == *final(draft),
    {
        self.description = Some(Some(TextMessageContent::plain(body)));
        self
    }

    /// Sets the description to none.
    pub fn unset_description(&mut self) -> (draft: &mut Self)
        ensures
            draft@ == (TaskDraftView { description: Some(None), ..old(self)@ }),
            *final(self) == *final(draft),
    {
        self.description = Some(None);
        self
    }

    /// Sets the place in the list.
    pub fn sort_order(&mut self, sort_order: u32) -> (draft: &mut Self)
        ensures
            draft@ == (TaskDraftView { sort_order: Some(sort_order), ..old(self)@ }),
            *final(self) == *final(draft),
    {
        self.sort_order = Some(sort_order);
        self
    }

    /// Sets the priority.
    pub fn priority(&mut self, priority: Priority) -> (draft: &mut Self)
        ensures
            draft@ == (TaskDraftView { priority: Some(priority), ..old(self)@ }),
            *final(self) == *final(draft),
    {
        self.priority = Some(priority);
        self
    }

    /// Sets the colour.
    pub fn color(&mut self, color: Color) -> (draft: &mut Self)
        ensures
            draft@ == (TaskDraftView { color: Some(Some(color)), ..old(self)@ }),
            *final(self) == *final(draft),
    {
        self.color = Some(Some(color));
        self
    }

    /// Sets the colour to none.
    pub fn unset_color(&mut self) -> (draft: &mut Self)
        ensures
            draft@ == (TaskDraftView { color: Some(None), ..old(self)@ }),
            *final(self) == *final(draft),
    {
        self.color = Some(None);
        self
    }

    /// Sets the due date.
    pub fn utc_due(&mut self, utc_due: UtcDateTime) -> (draft: &mut Self)
        ensures
            draft@ == (TaskDraftView { utc_due: Some(Some(utc_due)), ..old(self)@ }),
            *final(self) == *final(draft),
    {
        self.utc_due = Some(Some(utc_due));
        self
    }

    /// Sets the due date from an RFC 3339 date and time. A text that cannot be
    /// read leaves the builder as it is.
    pub fn utc_due_from_rfc3339(&mut self, utc_due: String) -> (done: Result<(), DateTimeError>)
        ensures
            match reading(rfc3339_instant(utc_due@)) {
                Ok(at) => done is Ok && final(self)@ == (TaskDraftView {
                    utc_due: Some(Some(at)),
                    ..old(self)@
                }),
                Err(e) => done == Err::<(), DateTimeError>(e) && final(self)@ == old(self)@,
            },
    {
        match UtcDateTime::from_rfc3339(utc_due.as_str()) {
            Ok(at) => {
                self.utc_due = Some(Some(at));
                Ok(())
            },
            Err(e) => Err(e),
        }
    }

    /// Sets the due date from an RFC 2822 date and time. A text that cannot be
    /// read leaves the builder as it is.
    pub fn utc_due_from_rfc2822(&mut self, utc_due: String) -> (done: Result<(), DateTimeError>)
        ensures
            match reading(rfc2822_instant(utc_due@)) {
                Ok(at) => done is Ok && final(self)@ == (TaskDraftView {
                    utc_due: Some(Some(at)),
                    ..old(self)@
                }),
                Err(e) => done == Err::<(), DateTimeError>(e) && final(self)@ == old(self)@,
            },
    {
        match UtcDateTime::from_rfc2822(utc_due.as_str()) {
            Ok(at) => {
                self.utc_due = Some(Some(at));
                Ok(())
            },
            Err(e) => Err(e),
        }
    }

    /// Sets the due date from a date and time in the pattern `format`. A text
    /// that cannot be read leaves the builder as it is.
    pub fn utc_due_from_format(&mut self, utc_due: String, format: String) -> (done: Result<
        (),
        DateTimeError,
    >)
        ensures
            match reading(formatted_instant(utc_due@, format@)) {
                Ok(at) => done is Ok && final(self)@ == (TaskDraftView {
                    utc_due: Some(Some(at)),
                    ..old(self)@
                }),
                Err(e) => done == Err::<(), DateTimeError>(e) && final(self)@ == old(self)@,
            },
    {
        match UtcDateTime::from_format(utc_due.as_str(), format.as_str()) {
            Ok(at) => {
                self.utc_due = Some(Some(at));
                Ok(())
            },
            Err(e) => Err(e),
        }
    }

    /// Sets the due date to none.
    pub fn unset_utc_due(&mut self) -> (draft: &mut Self)
        ensures
            draft@ == (TaskDraftView { utc_due: Some(None), ..old(self)@ }),
            *final(self) == *final(draft),
    {
        self.utc_due = Some(None);
        self
    }

    /// Sets the start.
    pub fn utc_start(&mut self, utc_start: UtcDateTime) -> (draft: &mut Self)
        ensures
            draft@ == (TaskDraftView { utc_start: Some(Some(utc_start)), ..old(self)@ }),
            *final(self) == *final(draft),
    {
        self.utc_start = Some(Some(utc_start));
        self
    }

    /// Sets the start from an RFC 3339 date and time. A text that cannot be read
    /// leaves the builder as it is.
    pub fn utc_start_from_rfc3339(&mut self, utc_start: String) -> (done: Result<(), DateTimeError>)
        ensures
            match reading(rfc3339_instant(utc_start@)) {
                Ok(at) => done is Ok && final(self)@ == (TaskDraftView {
                    utc_start: Some(Some(at)),
                    ..old(self)@
                }),
                Err(e) => done == Err::<(), DateTimeError>(e) && final(self)@ == old(self)@,
            },
    {
        match UtcDateTime::from_rfc3339(utc_start.as_str()) {
            Ok(at) => {
                self.utc_start = Some(Some(at));
                Ok(())
            },
            Err(e) => Err(e),
        }
    }

    /// Sets the start from an RFC 2822 date and time. A text that cannot be read
    /// leaves the builder as it is.
    pub fn utc_start_from_rfc2822(&mut self, utc_start: String) -> (done: Result<(), DateTimeError>)
        ensures
            match reading(rfc2822_instant(utc_start@)) {
                Ok(at) => done is Ok && final(self)@ == (TaskDraftView {
                    utc_start: Some(Some(at)),
                    ..old(self)@
                }),
                Err(e) => done == Err::<(), DateTimeError>(e) && final(self)@ == old(self)@,
            },
    {
        match UtcDateTime::from_rfc2822(utc_start.as_str()) {
            Ok(at) => {
                self.utc_start = Some(Some(at));
                Ok(())
            },
            Err(e) => Err(e),
        }
    }

    /// Sets the start from a date and time in the pattern `format`. A text that
    /// cannot be read leaves the builder as it is.
    pub fn utc_start_from_format(&mut self, utc_start: String, format: String) -> (done: Result<
        (),
        DateTimeError,
    >)
        ensures
            match reading(formatted_instant(utc_start@, format@)) {
                Ok(at) => done is Ok && final(self)@ == (TaskDraftView {
                    utc_start: Some(Some(at)),
                    ..old(self)@
                }),
                Err(e) => done == Err::<(), DateTimeError>(e) && final(self)@ == old(self)@,
            },
    {
        match UtcDateTime::from_format(utc_start.as_str(), format.as_str()) {
            Ok(at) => {
                self.utc_start = Some(Some(at));
                Ok(())
            },
            Err(e) => Err(e),
        }
    }

    /// Sets the start to none.
    pub fn unset_utc_start(&mut self) -> (draft: &mut Self)
        ensures
            draft@ == (TaskDraftView { utc_start: Some(None), ..old(self)@ }),
            *final(self) == *final(draft),
    {
        self.utc_start = Some(None);
        self
    }

    /// Sets the progress in percent; more than a hundred counts as a hundred.
    pub fn progress_percent(&mut self, progress_percent: u8) -> (draft: &mut Self)
        ensures
            draft@ == (TaskDraftView {
                progress_percent: Some(Some(clamped(progress_percent))),
                ..old(self)@
            }),
            *final(self) == *final(draft),
    {
        self.progress_percent = Some(Some(clamp_percent(progress_percent)));
        self
    }

    /// Sets the progress to none.
    pub fn unset_progress_percent(&mut self) -> (draft: &mut Self)
        ensures
            draft@ == (TaskDraftView { progress_percent: Some(None), ..old(self)@ }),
            *final(self) == *final(draft),
    {
        self.progress_percent = Some(None);
        self
    }

    /// Sets the keywords.
    pub fn keywords(&mut self, keywords: Vec<String>) -> (draft: &mut Self)
        ensures
            draft@ == (TaskDraftView { keywords: Some(strings_view(keywords@)), ..old(self)@ }),
            *final(self) == *final(draft),
    {
        self.keywords = Some(keywords);
        self
    }

    /// Sets the keywords to none.
    pub fn unset_keywords(&mut self) -> (draft: &mut Self)
        ensures
            draft@ == (TaskDraftView { keywords: Some(Seq::empty()), ..old(self)@ }),
            *final(self) == *final(draft),
    {
        self.keywords = Some(no_keys());
        self
    }

    /// Sets the categories.
    pub fn categories(&mut self, categories: Vec<String>) -> (draft: &mut Self)
        ensures
            draft@ == (TaskDraftView { categories: Some(strings_view(categories@)), ..old(self)@ }),
            *final(self) == *final(draft),
    {
        self.categories = Some(categories);
        self
    }

    /// Sets the categories to none.
    pub fn unset_categories(&mut self) -> (draft: &mut Self)
        ensures
            draft@ == (TaskDraftView { categories: Some(Seq::empty()), ..old(self)@ }),
            *final(self) == *final(draft),
    {
        self.categories = Some(no_keys());
        self
    }

    /// Sets the subscribers.
    pub fn subscribers(&mut self, subscribers: Vec<String>) -> (draft: &mut Self)
        ensures
            draft@ == (TaskDraftView {
                subscribers: Some(strings_view(subscribers@)),
                ..old(self)@
            }),
            *final(self) == *final(draft),
    {
        self.subscribers = Some(subscribers);
        self
    }

    /// Sets the subscribers to none.
    pub fn unset_subscribers(&mut self) -> (draft: &mut Self)
        ensures
            draft@ == (TaskDraftView { subscribers: Some(Seq::empty()), ..old(self)@ }),
            *final(self) == *final(draft),
    {
        self.subscribers = Some(no_keys());
        self
    }

    /// Sets the assignees.
    pub fn assignees(&mut self, assignees: Vec<String>) -> (draft: &mut Self)
        ensures
            draft@ == (TaskDraftView { assignees: Some(strings_view(assignees@)), ..old(self)@ }),
            *final(self) == *final(draft),
    {
        self.assignees = Some(assignees);
        self
    }

    /// Sets the assignees to none.
    pub fn unset_assignees(&mut self) -> (draft: &mut Self)
        ensures
            draft@ == (TaskDraftView { assignees: Some(Seq::empty()), ..old(self)@ }),
            *final(self) == *final(draft),
    {
        self.assignees = Some(no_keys());
        self
    }

    /// Builds the content. Building fails exactly when a field without a
    /// default was never set, and names the first such field.
    pub fn build(&self) -> (content: Result<TaskEventContent, BuilderError>)
        ensures
            match content {
                Ok(c) => self@.is_complete() && c@ == self@.built(),
                Err(BuilderError::UninitializedField(field)) => !self@.is_complete() && field@
                    == self@.missing(),
            },
    {
        let title = match &self.title {
            Some(v) => v.clone(),
            None => {
                return Err(BuilderError::UninitializedField("title"));
            },
        };
        let task_list_id = match &self.task_list_id {
            Some(v) => v.clone(),
            None => {
                return Err(BuilderError::UninitializedField("task_list_id"));
            },
        };
        let description = match &self.description {
            Some(v) => clone_text(v),
            None => None,
        };
        let assignees = match &self.assignees {
            Some(v) => clone_keys(v),
            None => no_keys(),
        };
        let subscribers = match &self.subscribers {
            Some(v) => clone_keys(v),
            None => no_keys(),
        };
        let sort_order = match &self.sort_order {
            Some(v) => *v,
            None => 0,
        };
        let priority = match &self.priority {
            Some(v) => *v,
            None => Priority::Undefined,
        };
        let utc_due = match &self.utc_due {
            Some(v) => *v,
            None => None,
        };
        let utc_start = match &self.utc_start {
            Some(v) => *v,
            None => None,
        };
        let color = match &self.color {
            Some(v) => *v,
            None => None,
        };
        let progress_percent = match &self.progress_percent {
            Some(v) => *v,
            None => None,
        };
        let keywords = match &self.keywords {
            Some(v) => clone_keys(v),
            None => no_keys(),
        };
        let categories = match &self.categories {
            Some(v) => clone_keys(v),
            None => no_keys(),
        };
        Ok(
            TaskEventContent {
                title,
                description,
                assignees,
                subscribers,
                sort_order,
                priority,
                utc_due,
                utc_start,
                color,
                progress_percent,
                keywords,
                categories,
                task_list_id,
            },
        )
    }
}

/// Collects the fields of a new task list. The name has to be set; every
/// other field has a default.
#[derive(Debug, Default)]
pub struct TaskListDraft {
    name: Option<String>,
    description: Option<Option<TextMessageContent>>,
    subscribers: Option<Vec<String>>,
    sort_order: Option<u32>,
    color: Option<Option<Color>>,
    keywords: Option<Vec<String>>,
    categories: Option<Vec<String>>,
}

/// The contents of a [`TaskListDraft`]: each field as far as it was set.
pub struct TaskListDraftView {
    pub name: Option<Seq<char>>,
    pub description: Option<Option<TextMessageContentView>>,
    pub subscribers: Option<Seq<Seq<char>>>,
    pub sort_order: Option<u32>,
    pub color: Option<Option<Color>>,
    pub keywords: Option<Seq<Seq<char>>>,
    pub categories: Option<Seq<Seq<char>>>,
}

impl View for TaskListDraft {
    type V = TaskListDraftView;

    closed spec fn view(&self) -> TaskListDraftView {
        TaskListDraftView {
            name: match self.name {
                Some(v) => Some(v@),
                None => None,
            },
            description: match self.description {
                Some(v) => Some(text_view(v)),
                None => None,
            },
            subscribers: match self.subscribers {
                Some(v) => Some(strings_view(v@)),
                None => None,
            },
            sort_order: match self.sort_order {
                Some(v) => Some(v),
                None => None,
            },
            color: match self.color {
                Some(v) => Some(v),
                None => None,
            },
            keywords: match self.keywords {
                Some(v) => Some(strings_view(v@)),
                None => None,
            },
            categories: match self.categories {
                Some(v) => Some(strings_view(v@)),
                None => None,
            },
        }
    }
}

impl TaskListDraftView {
    /// A builder on which nothing was set.
    pub open spec fn empty() -> TaskListDraftView {
        TaskListDraftView {
            name: None,
            description: None,
            subscribers: None,
            sort_order: None,
            color: None,
            keywords: None,
            categories: None,
        }
    }

    /// Whether every field without a default was set.
    pub open spec fn is_complete(self) -> bool {
        self.name is Some
    }

    /// The first field without a default that was never set.
    pub open spec fn missing(self) -> Seq<char> {
        "name"@
    }

    /// The content that a complete builder builds.
    pub open spec fn built(self) -> TaskListEventContentView {
        TaskListEventContentView {
            name: self.name->0,
            description: updated(self.description, None),
            subscribers: updated(self.subscribers, Seq::empty()),
            sort_order: updated(self.sort_order, 0u32),
            color: updated(self.color, None),
            keywords: updated(self.keywords, Seq::empty()),
            categories: updated(self.categories, Seq::empty()),
        }
    }
}

impl Clone for TaskListDraft {
    fn clone(&self) -> (copy: Self)
        ensures
            copy@ == self@,
    {
        TaskListDraft {
            name: match &self.name {
                Some(v) => Some(v.clone()),
                None => None,
            },
            description: match &self.description {
                Some(v) => Some(clone_text(v)),
                None => None,
            },
            subscribers: match &self.subscribers {
                Some(v) => Some(clone_keys(v)),
                None => None,
            },
            sort_order: match &self.sort_order {
                Some(v) => Some(*v),
                None => None,
            },
            color: match &self.color {
                Some(v) => Some(*v),
                None => None,
            },
            keywords: match &self.keywords {
                Some(v) => Some(clone_keys(v)),
                None => None,
            },
            categories: match &self.categories {
                Some(v) => Some(clone_keys(v)),
                None => None,
            },
        }
    }
}

impl TaskListDraft {
    /// A builder on which nothing is set.
    pub fn new() -> (draft: TaskListDraft)
        ensures
            draft@ == TaskListDraftView::empty(),
    {
        TaskListDraft {
            name: None,
            description: None,
            subscribers: None,
            sort_order: None,
            color: None,
            keywords: None,
            categories: None,
        }
    }

    /// Sets the name.
    pub fn name(&mut self, name: String) -> (draft: &mut Self)
        ensures
            draft@ == (TaskListDraftView { name: Some(name@), ..old(self)@ }),
            *final(self) == *final(draft),
    {
        self.name = Some(name);
        self
    }

    /// Sets the description to the plain text `body`.
    pub fn description_text(&mut self, body: String) -> (draft: &mut Self)
        ensures
            draft@ == (TaskListDraftView {
                description: Some(Some(plain_text(body@))),
                ..old(self)@
            }),
            *final(self) == *final(draft),
    {
        self.description = Some(Some(TextMessageContent::plain(body)));
        self
    }

    /// Sets the description to none.
    pub fn unset_description(&mut self) -> (draft: &mut Self)
        ensures
            draft@ == (TaskListDraftView { description: Some(None), ..old(self)@ }),
            *final(self) == *final(draft),
    {
        self.description = Some(None);
        self
    }

    /// Sets the place among the lists.
    pub fn sort_order(&mut self, sort_order: u32) -> (draft: &mut Self)
        ensures
            draft@ == (TaskListDraftView { sort_order: Some(sort_order), ..old(self)@ }),
            *final(self) == *final(draft),
    {
        self.sort_order = Some(sort_order);
        self
    }

    /// Sets the colour.
    pub fn color(&mut self, color: Color) -> (draft: &mut Self)
        ensures
            draft@ == (TaskListDraftView { color: Some(Some(color)), ..old(self)@ }),
            *final(self) == *final(draft),
    {
        self.color = Some(Some(color));
        self
    }

    /// Sets the colour to none.
    pub fn unset_color(&mut self) -> (draft: &mut Self)
        ensures
            draft@ == (TaskListDraftView { color: Some(None), ..old(self)@ }),
            *final(self) == *final(draft),
    {
        self.color = Some(None);
        self
    }

    /// Sets the keywords.
    pub fn keywords(&mut self, keywords: Vec<String>) -> (draft: &mut Self)
        ensures
            draft@ == (TaskListDraftView { keywords: Some(strings_view(keywords@)), ..old(self)@ }),
            *final(self) == *final(draft),
    {
        self.keywords = Some(keywords);
        self
    }

    /// Sets the keywords to none.
    pub fn unset_keywords(&mut self) -> (draft: &mut Self)
        ensures
            draft@ == (TaskListDraftView { keywords: Some(Seq::empty()), ..old(self)@ }),
            *final(self) == *final(draft),
    {
        self.keywords = Some(no_keys());
        self
    }

    /// Sets the categories.
    pub fn categories(&mut self, categories: Vec<String>) -> (draft: &mut Self)
        ensures
            draft@ == (TaskListDraftView {
                categories: Some(strings_view(categories@)),
                ..old(self)@
            }),
            *final(self) == *final(draft),
    {
        self.categories = Some(categories);
        self
    }

    /// Sets the categories to none.
    pub fn unset_categories(&mut self) -> (draft: &mut Self)
        ensures
            draft@ == (TaskListDraftView { categories: Some(Seq::empty()), ..old(self)@ }),
            *final(self) == *final(draft),
    {
        self.categories = Some(no_keys());
        self
    }

    /// Sets the subscribers.
    pub fn subscribers(&mut self, subscribers: Vec<String>) -> (draft: &mut Self)
        ensures
            draft@ == (TaskListDraftView {
                subscribers: Some(strings_view(subscribers@)),
                ..old(self)@
            }),
            *final(self) == *final(draft),
    {
        self.subscribers = Some(subscribers);
        self
    }

    /// Sets the subscribers to none.
    pub fn unset_subscribers(&mut self) -> (draft: &mut Self)
        ensures
            draft@ == (TaskListDraftView { subscribers: Some(Seq::empty()), ..old(self)@ }),
            *final(self) == *final(draft),
    {
        self.subscribers = Some(no_keys());
        self
    }

    /// Builds the content. Building fails exactly when a field without a
    /// default was never set, and names the first such field.
    pub fn build(&self) -> (content: Result<TaskListEventContent, BuilderError>)
        ensures
            match content {
                Ok(c) => self@.is_complete() && c@ == self@.built(),
                Err(BuilderError::UninitializedField(field)) => !self@.is_complete() && field@
                    == self@.missing(),
            },
    {
        let name = match &self.name {
            Some(v) => v.clone(),
            None => {
                return Err(BuilderError::UninitializedField("name"));
            },
        };
        let description = match &self.description {
            Some(v) => clone_text(v),
            None => None,
        };
        let subscribers = match &self.subscribers {
            Some(v) => clone_keys(v),
            None => no_keys(),
        };
        let sort_order = match &self.sort_order {
            Some(v) => *v,
            None => 0,
        };
        let color = match &self.color {
            Some(v) => *v,
            None => None,
        };
        let keywords = match &self.keywords {
            Some(v) => clone_keys(v),
            None => no_keys(),
        };
        let categories = match &self.categories {
            Some(v) => clone_keys(v),
            None => no_keys(),
        };
        Ok(
            TaskListEventContent {
                name,
                description,
                subscribers,
                sort_order,
                color,
                keywords,
                categories,
            },
        )
    }
}

/// Collects the changes to a task. The task has to be set.
#[derive(Debug, Default)]
pub struct TaskUpdateBuilder {
    task: Option<Update>,
    title: Option<Option<String>>,
    description: Option<Option<Option<TextMessageContent>>>,
    assignees: Option<Option<Vec<String>>>,
    subscribers: Option<Option<Vec<String>>>,
    sort_order: Option<Option<u32>>,
    utc_due: Option<Option<Option<UtcDateTime>>>,
    utc_start: Option<Option<Option<UtcDateTime>>>,
    color: Option<Option<Option<Color>>>,
    progress_percent: Option<Option<Option<u8>>>,
    keywords: Option<Option<Vec<String>>>,
    categories: Option<Option<Vec<String>>>,
}

/// The contents of a [`TaskUpdateBuilder`]: each field as far as it was set.
pub struct TaskUpdateBuilderView {
    pub task: Option<Seq<char>>,
    pub title: Option<Option<Seq<char>>>,
    pub description: Option<Option<Option<TextMessageContentView>>>,
    pub assignees: Option<Option<Seq<Seq<char>>>>,
    pub subscribers: Option<Option<Seq<Seq<char>>>>,
    pub sort_order: Option<Option<u32>>,
    pub utc_due: Option<Option<Option<UtcDateTime>>>,
    pub utc_start: Option<Option<Option<UtcDateTime>>>,
    pub color: Option<Option<Option<Color>>>,
    pub progress_percent: Option<Option<Option<u8>>>,
    pub keywords: Option<Option<Seq<Seq<char>>>>,
    pub categories: Option<Option<Seq<Seq<char>>>>,
}

impl View for TaskUpdateBuilder {
    type V = TaskUpdateBuilderView;

    closed spec fn view(&self) -> TaskUpdateBuilderView {
        TaskUpdateBuilderView {
            task: match self.task {
                Some(v) => Some(v.event_id@),
                None => None,
            },
            title: match self.title {
                Some(v) => Some(option_view(v)),
                None => None,
            },
            description: match self.description {
                Some(v) => Some(optional_text_view(v)),
                None => None,
            },
            assignees: match self.assignees {
                Some(v) => Some(optional_strings_view(v)),
                None => None,
            },
            subscribers: match self.subscribers {
                Some(v) => Some(optional_strings_view(v)),
                None => None,
            },
            sort_order: match self.sort_order {
                Some(v) => Some(v),
                None => None,
            },
            utc_due: match self.utc_due {
                Some(v) => Some(v),
                None => None,
            },
            utc_start: match self.utc_start {
                Some(v) => Some(v),
                None => None,
            },
            color: match self.color {
                Some(v) => Some(v),
                None => None,
            },
            progress_percent: match self.progress_percent {
                Some(v) => Some(v),
                None => None,
            },
            keywords: match self.keywords {
                Some(v) => Some(optional_strings_view(v)),
                None => None,
            },
            categories: match self.categories {
                Some(v) => Some(optional_strings_view(v)),
                None => None,
            },
        }
    }
}

impl TaskUpdateBuilderView {
    /// A builder on which nothing was set.
    pub open spec fn empty() -> TaskUpdateBuilderView {
        TaskUpdateBuilderView {
            task: None,
            title: None,
            description: None,
            assignees: None,
            subscribers: None,
            sort_order: None,
            utc_due: None,
            utc_start: None,
            color: None,
            progress_percent: None,
            keywords: None,
            categories: None,
        }
    }

    /// Whether every field without a default was set.
    pub open spec fn is_complete(self) -> bool {
        self.task is Some
    }

    /// The first field without a default that was never set.
    pub open spec fn missing(self) -> Seq<char> {
        "task"@
    }

    /// The content that a complete builder builds.
    pub open spec fn built(self) -> TaskUpdateEventContentView {
        TaskUpdateEventContentView {
            task: self.task->0,
            title: updated(self.title, None),
            description: updated(self.description, None),
            assignees: updated(self.assignees, None),
            subscribers: updated(self.subscribers, None),
            sort_order: updated(self.sort_order, None),
            utc_due: updated(self.utc_due, None),
            utc_start: updated(self.utc_start, None),
            color: updated(self.color, None),
            progress_percent: updated(self.progress_percent, None),
            keywords: updated(self.keywords, None),
            categories: updated(self.categories, None),
        }
    }
}

impl Clone for TaskUpdateBuilder {
    fn clone(&self) -> (copy: Self)
        ensures
            copy@ == self@,
    {
        TaskUpdateBuilder {
            task: match &self.task {
                Some(v) => Some(Update { event_id: v.event_id.clone() }),
                None => None,
            },
            title: match &self.title {
                Some(v) => Some(clone_option(v)),
                None => None,
            },
            description: match &self.description {
                Some(v) => Some(clone_optional_text(v)),
                None => None,
            },
            assignees: match &self.assignees {
                Some(v) => Some(clone_optional_keys(v)),
                None => None,
            },
            subscribers: match &self.subscribers {
                Some(v) => Some(clone_optional_keys(v)),
                None => None,
            },
            sort_order: match &self.sort_order {
                Some(v) => Some(*v),
                None => None,
            },
            utc_due: match &self.utc_due {
                Some(v) => Some(*v),
                None => None,
            },
            utc_start: match &self.utc_start {
                Some(v) => Some(*v),
                None => None,
            },
            color: match &self.color {
                Some(v) => Some(*v),
                None => None,
            },
            progress_percent: match &self.progress_percent {
                Some(v) => Some(*v),
                None => None,
            },
            keywords: match &self.keywords {
                Some(v) => Some(clone_optional_keys(v)),
                None => None,
            },
            categories: match &self.categories {
                Some(v) => Some(clone_optional_keys(v)),
                None => None,
            },
        }
    }
}

impl TaskUpdateBuilder {
    /// A builder on which nothing is set.
    pub fn new() -> (builder: TaskUpdateBuilder)
        ensures
            builder@ == TaskUpdateBuilderView::empty(),
    {
        TaskUpdateBuilder {
            task: None,
            title: None,
            description: None,
            assignees: None,
            subscribers: None,
            sort_order: None,
            utc_due: None,
            utc_start: None,
            color: None,
            progress_percent: None,
            keywords: None,
            categories: None,
        }
    }

    /// Sets the task that is updated.
    pub fn task(&mut self, task: Update) -> (builder: &mut Self)
        ensures
            builder@ == (TaskUpdateBuilderView { task: Some(task.event_id@), ..old(self)@ }),
            *final(self) == *final(builder),
    {
        self.task = Some(task);
        self
    }

    /// Changes the title.
    pub fn title(&mut self, title: String) -> (builder: &mut Self)
        ensures
            builder@ == (TaskUpdateBuilderView { title: Some(Some(title@)), ..old(self)@ }),
            *final(self) == *final(builder),
    {
        self.title = Some(Some(title));
        self
    }

    /// Leaves the title as it is.
    pub fn unset_title_update(&mut self) -> (builder: &mut Self)
        ensures
            builder@ == (TaskUpdateBuilderView { title: Some(None), ..old(self)@ }),
            *final(self) == *final(builder),
    {
        self.title = Some(None);
        self
    }

    /// Changes the description to the plain text `body`.
    pub fn description_text(&mut self, body: String) -> (builder: &mut Self)
        ensures
            builder@ == (TaskUpdateBuilderView {
                description: Some(Some(Some(plain_text(body@)))),
                ..old(self)@
            }),
            *final(self) == *final(builder),
    {
        self.description = Some(Some(Some(TextMessageContent::plain(body))));
        self
    }

    /// Changes the description to none.
    pub fn unset_description(&mut self) -> (builder: &mut Self)
        ensures
            builder@ == (TaskUpdateBuilderView { description: Some(Some(None)), ..old(self)@ }),
            *final(self) == *final(builder),
    {
        self.description = Some(Some(None));
        self
    }

    /// Leaves the description as it is.
    pub fn unset_description_update(&mut self) -> (builder: &mut Self)
        ensures
            builder@ == (TaskUpdateBuilderView { description: Some(None), ..old(self)@ }),
            *final(self) == *final(builder),
    {
        self.description = Some(None);
        self
    }

    /// Changes the place in the list.
    pub fn sort_order(&mut self, sort_order: u32) -> (builder: &mut Self)
        ensures
            builder@ == (TaskUpdateBuilderView {
                sort_order: Some(Some(sort_order)),
                ..old(self)@
            }),
            *final(self) == *final(builder),
    {
        self.sort_order = Some(Some(sort_order));
        self
    }

    /// Leaves the place in the list as it is.
    pub fn unset_sort_order_update(&mut self) -> (builder: &mut Self)
        ensures
            builder@ == (TaskUpdateBuilderView { sort_order: Some(None), ..old(self)@ }),
            *final(self) == *final(builder),
    {
        self.sort_order = Some(None);
        self
    }

    /// Changes the colour.
    pub fn color(&mut self, color: Color) -> (builder: &mut Self)
        ensures
            builder@ == (TaskUpdateBuilderView { color: Some(Some(Some(color))), ..old(self)@ }),
            *final(self) == *final(builder),
    {
        self.color = Some(Some(Some(color)));
        self
    }

    /// Changes the colour to none.
    pub fn unset_color(&mut self) -> (builder: &mut Self)
        ensures
            builder@ == (TaskUpdateBuilderView { color: Some(Some(None)), ..old(self)@ }),
            *final(self) == *final(builder),
    {
        self.color = Some(Some(None));
        self
    }

    /// Leaves the colour as it is.
    pub fn unset_color_update(&mut self) -> (builder: &mut Self)
        ensures
            builder@ == (TaskUpdateBuilderView { color: Some(None), ..old(self)@ }),
            *final(self) == *final(builder),
    {
        self.color = Some(None);
        self
    }

    /// Changes the keywords.
    pub fn keywords(&mut self, keywords: Vec<String>) -> (builder: &mut Self)
        ensures
            builder@ == (TaskUpdateBuilderView {
                keywords: Some(Some(strings_view(keywords@))),
                ..old(self)@
            }),
            *final(self) == *final(builder),
    {
        self.keywords = Some(Some(keywords));
        self
    }

    /// Changes the keywords to none.
    pub fn unset_keywords(&mut self) -> (builder: &mut Self)
        ensures
            builder@ == (TaskUpdateBuilderView {
                keywords: Some(Some(Seq::empty())),
                ..old(self)@
            }),
            *final(self) == *final(builder),
    {
        self.keywords = Some(Some(no_keys()));
        self
    }

    /// Leaves the keywords as they are.
    pub fn unset_keywords_update(&mut self) -> (builder: &mut Self)
        ensures
            builder@ == (TaskUpdateBuilderView { keywords: Some(None), ..old(self)@ }),
            *final(self) == *final(builder),
    {
        self.keywords = Some(None);
        self
    }

    /// Changes the categories.
    pub fn categories(&mut self, categories: Vec<String>) -> (builder: &mut Self)
        ensures
            builder@ == (TaskUpdateBuilderView {
                categories: Some(Some(strings_view(categories@))),
                ..old(self)@
            }),
            *final(self) == *final(builder),
    {
        self.categories = Some(Some(categories));
        self
    }

    /// Changes the categories to none.
    pub fn unset_categories(&mut self) -> (builder: &mut Self)
        ensures
            builder@ == (TaskUpdateBuilderView {
                categories: Some(Some(Seq::empty())),
                ..old(self)@
            }),
            *final(self) == *final(builder),
    {
        self.categories = Some(Some(no_keys()));
        self
    }

    /// Leaves the categories as they are.
    pub fn unset_categories_update(&mut self) -> (builder: &mut Self)
        ensures
            builder@ == (TaskUpdateBuilderView { categories: Some(None), ..old(self)@ }),
            *final(self) == *final(builder),
    {
        self.categories = Some(None);
        self
    }

    /// Changes the subscribers.
    pub fn subscribers(&mut self, subscribers: Vec<String>) -> (builder: &mut Self)
        ensures
            builder@ == (TaskUpdateBuilderView {
                subscribers: Some(Some(strings_view(subscribers@))),
                ..old(self)@
            }),
            *final(self) == *final(builder),
    {
        self.subscribers = Some(Some(subscribers));
        self
    }

    /// Changes the subscribers to none.
    pub fn unset_subscribers(&mut self) -> (builder: &mut Self)
        ensures
            builder@ == (TaskUpdateBuilderView {
                subscribers: Some(Some(Seq::empty())),
                ..old(self)@
            }),
            *final(self) == *final(builder),
    {
        self.subscribers = Some(Some(no_keys()));
        self
    }

    /// Leaves the subscribers as they are.
    pub fn unset_subscribers_update(&mut self) -> (builder: &mut Self)
        ensures
            builder@ == (TaskUpdateBuilderView { subscribers: Some(None), ..old(self)@ }),
            *final(self) == *final(builder),
    {
        self.subscribers = Some(None);
        self
    }

    /// Changes the assignees.
    pub fn assignees(&mut self, assignees: Vec<String>) -> (builder: &mut Self)
        ensures
            builder@ == (TaskUpdateBuilderView {
                assignees: Some(Some(strings_view(assignees@))),
                ..old(self)@
            }),
            *final(self) == *final(builder),
    {
        self.assignees = Some(Some(assignees));
        self
    }

    /// Changes the assignees to none.
    pub fn unset_assignees(&mut self) -> (builder: &mut Self)
        ensures
            builder@ == (TaskUpdateBuilderView {
                assignees: Some(Some(Seq::empty())),
                ..old(self)@
            }),
            *final(self) == *final(builder),
    {
        self.assignees = Some(Some(no_keys()));
        self
    }

    /// Leaves the assignees as they are.
    pub fn unset_assignees_update(&mut self) -> (builder: &mut Self)
        ensures
            builder@ == (TaskUpdateBuilderView { assignees: Some(None), ..old(self)@ }),
            *final(self) == *final(builder),
    {
        self.assignees = Some(None);
        self
    }

    /// Changes the progress to a hundred percent.
    pub fn mark_done(&mut self) -> (builder: &mut Self)
        ensures
            builder@ == (TaskUpdateBuilderView {
                progress_percent: Some(Some(Some(100u8))),
                ..old(self)@
            }),
            *final(self) == *final(builder),
    {
        self.progress_percent = Some(Some(Some(100)));
        self
    }

    /// Changes the progress to none.
    pub fn mark_undone(&mut self) -> (builder: &mut Self)
        ensures
            builder@ == (TaskUpdateBuilderView {
                progress_percent: Some(Some(None)),
                ..old(self)@
            }),
            *final(self) == *final(builder),
    {
        self.progress_percent = Some(Some(None));
        self
    }

    /// Changes the due date.
    pub fn utc_due(&mut self, utc_due: UtcDateTime) -> (builder: &mut Self)
        ensures
            builder@ == (TaskUpdateBuilderView {
                utc_due: Some(Some(Some(utc_due))),
                ..old(self)@
            }),
            *final(self) == *final(builder),
    {
        self.utc_due = Some(Some(Some(utc_due)));
        self
    }

    /// Sets the new due date from an RFC 3339 date and time. A text that cannot
    /// be read leaves the builder as it is.
    pub fn utc_due_from_rfc3339(&mut self, utc_due: String) -> (done: Result<(), DateTimeError>)
        ensures
            match reading(rfc3339_instant(utc_due@)) {
                Ok(at) => done is Ok && final(self)@ == (TaskUpdateBuilderView {
                    utc_due: Some(Some(Some(at))),
                    ..old(self)@
                }),
                Err(e) => done == Err::<(), DateTimeError>(e) && final(self)@ == old(self)@,
            },
    {
        match UtcDateTime::from_rfc3339(utc_due.as_str()) {
            Ok(at) => {
                self.utc_due = Some(Some(Some(at)));
                Ok(())
            },
            Err(e) => Err(e),
        }
    }

    /// Sets the new due date from an RFC 2822 date and time. A text that cannot
    /// be read leaves the builder as it is.
    pub fn utc_due_from_rfc2822(&mut self, utc_due: String) -> (done: Result<(), DateTimeError>)
        ensures
            match reading(rfc2822_instant(utc_due@)) {
                Ok(at) => done is Ok && final(self)@ == (TaskUpdateBuilderView {
                    utc_due: Some(Some(Some(at))),
                    ..old(self)@
                }),
                Err(e) => done == Err::<(), DateTimeError>(e) && final(self)@ == old(self)@,
            },
    {
        match UtcDateTime::from_rfc2822(utc_due.as_str()) {
            Ok(at) => {
                self.utc_due = Some(Some(Some(at)));
                Ok(())
            },
            Err(e) => Err(e),
        }
    }

    /// Sets the new due date from a date and time in the pattern `format`. A text
    /// that cannot be read leaves the builder as it is.
    pub fn utc_due_from_format(&mut self, utc_due: String, format: String) -> (done: Result<
        (),
        DateTimeError,
    >)
        ensures
            match reading(formatted_instant(utc_due@, format@)) {
                Ok(at) => done is Ok && final(self)@ == (TaskUpdateBuilderView {
                    utc_due: Some(Some(Some(at))),
                    ..old(self)@
                }),
                Err(e) => done == Err::<(), DateTimeError>(e) && final(self)@ == old(self)@,
            },
    {
        match UtcDateTime::from_format(utc_due.as_str(), format.as_str()) {
            Ok(at) => {
                self.utc_due = Some(Some(Some(at)));
                Ok(())
            },
            Err(e) => Err(e),
        }
    }

    /// Changes the due date to none.
    pub fn unset_utc_due(&mut self) -> (builder: &mut Self)
        ensures
            builder@ == (TaskUpdateBuilderView { utc_due: Some(Some(None)), ..old(self)@ }),
            *final(self) == *final(builder),
    {
        self.utc_due = Some(Some(None));
        self
    }

    /// Leaves the due date as it is.
    pub fn unset_utc_due_update(&mut self) -> (builder: &mut Self)
        ensures
            builder@ == (TaskUpdateBuilderView { utc_due: Some(None), ..old(self)@ }),
            *final(self) == *final(builder),
    {
        self.utc_due = Some(None);
        self
    }

    /// Changes the start.
    pub fn utc_start(&mut self, utc_start: UtcDateTime) -> (builder: &mut Self)
        ensures
            builder@ == (TaskUpdateBuilderView {
                utc_start: Some(Some(Some(utc_start))),
                ..old(self)@
            }),
            *final(self) == *final(builder),
    {
        self.utc_start = Some(Some(Some(utc_start)));
        self
    }

    /// Sets the new start from an RFC 3339 date and time. A text that cannot be
    /// read leaves the builder as it is.
    pub fn utc_start_from_rfc3339(&mut self, utc_start: String) -> (done: Result<(), DateTimeError>)
        ensures
            match reading(rfc3339_instant(utc_start@)) {
                Ok(at) => done is Ok && final(self)@ == (TaskUpdateBuilderView {
                    utc_start: Some(Some(Some(at))),
                    ..old(self)@
                }),
                Err(e) => done == Err::<(), DateTimeError>(e) && final(self)@ == old(self)@,
            },
    {
        match UtcDateTime::from_rfc3339(utc_start.as_str()) {
            Ok(at) => {
                self.utc_start = Some(Some(Some(at)));
                Ok(())
            },
            Err(e) => Err(e),
        }
    }

    /// Sets the new start from an RFC 2822 date and time. A text that cannot be
    /// read leaves the builder as it is.
    pub fn utc_start_from_rfc2822(&mut self, utc_start: String) -> (done: Result<(), DateTimeError>)
        ensures
            match reading(rfc2822_instant(utc_start@)) {
                Ok(at) => done is Ok && final(self)@ == (TaskUpdateBuilderView {
                    utc_start: Some(Some(Some(at))),
                    ..old(self)@
                }),
                Err(e) => done == Err::<(), DateTimeError>(e) && final(self)@ == old(self)@,
            },
    {
        match UtcDateTime::from_rfc2822(utc_start.as_str()) {
            Ok(at) => {
                self.utc_start = Some(Some(Some(at)));
                Ok(())
            },
            Err(e) => Err(e),
        }
    }

    /// Sets the new start from a date and time in the pattern `format`. A text
    /// that cannot be read leaves the builder as it is.
    pub fn utc_start_from_format(&mut self, utc_start: String, format: String) -> (done: Result<
        (),
        DateTimeError,
    >)
        ensures
            match reading(formatted_instant(utc_start@, format@)) {
                Ok(at) => done is Ok && final(self)@ == (TaskUpdateBuilderView {
                    utc_start: Some(Some(Some(at))),
                    ..old(self)@
                }),
                Err(e) => done == Err::<(), DateTimeError>(e) && final(self)@ == old(self)@,
            },
    {
        match UtcDateTime::from_format(utc_start.as_str(), format.as_str()) {
            Ok(at) => {
                self.utc_start = Some(Some(Some(at)));
                Ok(())
            },
            Err(e) => Err(e),
        }
    }

    /// Changes the start to none.
    pub fn unset_utc_start(&mut self) -> (builder: &mut Self)
        ensures
            builder@ == (TaskUpdateBuilderView { utc_start: Some(Some(None)), ..old(self)@ }),
            *final(self) == *final(builder),
    {
        self.utc_start = Some(Some(None));
        self
    }

    /// Leaves the start as it is.
    pub fn unset_utc_start_update(&mut self) -> (builder: &mut Self)
        ensures
            builder@ == (TaskUpdateBuilderView { utc_start: Some(None), ..old(self)@ }),
            *final(self) == *final(builder),
    {
        self.utc_start = Some(None);
        self
    }

    /// Changes the progress in percent; more than a hundred counts as a hundred.
    pub fn progress_percent(&mut self, progress_percent: u8) -> (builder: &mut Self)
        ensures
            builder@ == (TaskUpdateBuilderView {
                progress_percent: Some(Some(Some(clamped(progress_percent)))),
                ..old(self)@
            }),
            *final(self) == *final(builder),
    {
        self.progress_percent = Some(Some(Some(clamp_percent(progress_percent))));
        self
    }

    /// Changes the progress to none.
    pub fn unset_progress_percent(&mut self) -> (builder: &mut Self)
        ensures
            builder@ == (TaskUpdateBuilderView {
                progress_percent: Some(Some(None)),
                ..old(self)@
            }),
            *final(self) == *final(builder),
    {
        self.progress_percent = Some(Some(None));
        self
    }

    /// Leaves the progress as it is.
    pub fn unset_progress_percent_update(&mut self) -> (builder: &mut Self)
        ensures
            builder@ == (TaskUpdateBuilderView { progress_percent: Some(None), ..old(self)@ }),
            *final(self) == *final(builder),
    {
        self.progress_percent = Some(None);
        self
    }

    /// Builds the content. Building fails exactly when a field without a
    /// default was never set, and names the first such field.
    pub fn build(&self) -> (content: Result<TaskUpdateEventContent, BuilderError>)
        ensures
            match content {
                Ok(c) => self@.is_complete() && c@ == self@.built(),
                Err(BuilderError::UninitializedField(field)) => !self@.is_complete() && field@
                    == self@.missing(),
            },
    {
        let task = match &self.task {
            Some(v) => Update { event_id: v.event_id.clone() },
            None => {
                return Err(BuilderError::UninitializedField("task"));
            },
        };
        let title = match &self.title {
            Some(v) => clone_option(v),
            None => None,
        };
        let description = match &self.description {
            Some(v) => clone_optional_text(v),
            None => None,
        };
        let assignees = match &self.assignees {
            Some(v) => clone_optional_keys(v),
            None => None,
        };
        let subscribers = match &self.subscribers {
            Some(v) => clone_optional_keys(v),
            None => None,
        };
        let sort_order = match &self.sort_order {
            Some(v) => *v,
            None => None,
        };
        let utc_due = match &self.utc_due {
            Some(v) => *v,
            None => None,
        };
        let utc_start = match &self.utc_start {
            Some(v) => *v,
            None => None,
        };
        let color = match &self.color {
            Some(v) => *v,
            None => None,
        };
        let progress_percent = match &self.progress_percent {
            Some(v) => *v,
            None => None,
        };
        let keywords = match &self.keywords {
            Some(v) => clone_optional_keys(v),
            None => None,
        };
        let categories = match &self.categories {
            Some(v) => clone_optional_keys(v),
            None => None,
        };
        Ok(
            TaskUpdateEventContent {
                task,
                title,
                description,
                assignees,
                subscribers,
                sort_order,
                utc_due,
                utc_start,
                color,
                progress_percent,
                keywords,
                categories,
            },
        )
    }
}

/// Collects the changes to a task list. The task list has to be set.
#[derive(Debug, Default)]
pub struct TaskListUpdateBuilder {
    task_list: Option<Update>,
    name: Option<Option<String>>,
    description: Option<Option<Option<TextMessageContent>>>,
    subscribers: Option<Option<Vec<String>>>,
    sort_order: Option<Option<u32>>,
    color: Option<Option<Option<Color>>>,
    keywords: Option<Option<Vec<String>>>,
    categories: Option<Option<Vec<String>>>,
}

/// The contents of a [`TaskListUpdateBuilder`]: each field as far as it was set.
pub struct TaskListUpdateBuilderView {
    pub task_list: Option<Seq<char>>,
    pub name: Option<Option<Seq<char>>>,
    pub description: Option<Option<Option<TextMessageContentView>>>,
    pub subscribers: Option<Option<Seq<Seq<char>>>>,
    pub sort_order: Option<Option<u32>>,
    pub color: Option<Option<Option<Color>>>,
    pub keywords: Option<Option<Seq<Seq<char>>>>,
    pub categories: Option<Option<Seq<Seq<char>>>>,
}

impl View for TaskListUpdateBuilder {
    type V = TaskListUpdateBuilderView;

    closed spec fn view(&self) -> TaskListUpdateBuilderView {
        TaskListUpdateBuilderView {
            task_list: match self.task_list {
                Some(v) => Some(v.event_id@),
                None => None,
            },
            name: match self.name {
                Some(v) => Some(option_view(v)),
                None => None,
            },
            description: match self.description {
                Some(v) => Some(optional_text_view(v)),
                None => None,
            },
            subscribers: match self.subscribers {
                Some(v) => Some(optional_strings_view(v)),
                None => None,
            },
            sort_order: match self.sort_order {
                Some(v) => Some(v),
                None => None,
            },
            color: match self.color {
                Some(v) => Some(v),
                None => None,
            },
            keywords: match self.keywords {
                Some(v) => Some(optional_strings_view(v)),
                None => None,
            },
            categories: match self.categories {
                Some(v) => Some(optional_strings_view(v)),
                None => None,
            },
        }
    }
}

impl TaskListUpdateBuilderView {
    /// A builder on which nothing was set.
    pub open spec fn empty() -> TaskListUpdateBuilderView {
        TaskListUpdateBuilderView {
            task_list: None,
            name: None,
            description: None,
            subscribers: None,
            sort_order: None,
            color: None,
            keywords: None,
            categories: None,
        }
    }

    /// Whether every field without a default was set.
    pub open spec fn is_complete(self) -> bool {
        self.task_list is Some
    }

    /// The first field without a default that was never set.
    pub open spec fn missing(self) -> Seq<char> {
        "task_list"@
    }

    /// The content that a complete builder builds.
    pub open spec fn built(self) -> TaskListUpdateEventContentView {
        TaskListUpdateEventContentView {
            task_list: self.task_list->0,
            name: updated(self.name, None),
            description: updated(self.description, None),
            subscribers: updated(self.subscribers, None),
            sort_order: updated(self.sort_order, None),
            color: updated(self.color, None),
            keywords: updated(self.keywords, None),
            categories: updated(self.categories, None),
        }
    }
}

impl Clone for TaskListUpdateBuilder {
    fn clone(&self) -> (copy: Self)
        ensures
            copy@ == self@,
    {
        TaskListUpdateBuilder {
            task_list: match &self.task_list {
                Some(v) => Some(Update { event_id: v.event_id.clone() }),
                None => None,
            },
            name: match &self.name {
                Some(v) => Some(clone_option(v)),
                None => None,
            },
            description: match &self.description {
                Some(v) => Some(clone_optional_text(v)),
                None => None,
            },
            subscribers: match &self.subscribers {
                Some(v) => Some(clone_optional_keys(v)),
                None => None,
            },
            sort_order: match &self.sort_order {
                Some(v) => Some(*v),
                None => None,
            },
            color: match &self.color {
                Some(v) => Some(*v),
                None => None,
            },
            keywords: match &self.keywords {
                Some(v) => Some(clone_optional_keys(v)),
                None => None,
            },
            categories: match &self.categories {
                Some(v) => Some(clone_optional_keys(v)),
                None => None,
            },
        }
    }
}

impl TaskListUpdateBuilder {
    /// A builder on which nothing is set.
    pub fn new() -> (builder: TaskListUpdateBuilder)
        ensures
            builder@ == TaskListUpdateBuilderView::empty(),
    {
        TaskListUpdateBuilder {
            task_list: None,
            name: None,
            description: None,
            subscribers: None,
            sort_order: None,
            color: None,
            keywords: None,
            categories: None,
        }
    }

    /// Sets the task list that is updated.
    pub fn task_list(&mut self, task_list: Update) -> (builder: &mut Self)
        ensures
            builder@ == (TaskListUpdateBuilderView {
                task_list: Some(task_list.event_id@),
                ..old(self)@
            }),
            *final(self) == *final(builder),
    {
        self.task_list = Some(task_list);
        self
    }

    /// Changes the name.
    pub fn name(&mut self, name: String) -> (builder: &mut Self)
        ensures
            builder@ == (TaskListUpdateBuilderView { name: Some(Some(name@)), ..old(self)@ }),
            *final(self) == *final(builder),
    {
        self.name = Some(Some(name));
        self
    }

    /// Leaves the name as it is.
    pub fn unset_name(&mut self) -> (builder: &mut Self)
        ensures
            builder@ == (TaskListUpdateBuilderView { name: Some(None), ..old(self)@ }),
            *final(self) == *final(builder),
    {
        self.name = Some(None);
        self
    }

    /// Changes the description to the plain text `body`.
    pub fn description_text(&mut self, body: String) -> (builder: &mut Self)
        ensures
            builder@ == (TaskListUpdateBuilderView {
                description: Some(Some(Some(plain_text(body@)))),
                ..old(self)@
            }),
            *final(self) == *final(builder),
    {
        self.description = Some(Some(Some(TextMessageContent::plain(body))));
        self
    }

    /// Changes the description to none.
    pub fn unset_description(&mut self) -> (builder: &mut Self)
        ensures
            builder@ == (TaskListUpdateBuilderView { description: Some(Some(None)), ..old(self)@ }),
            *final(self) == *final(builder),
    {
        self.description = Some(Some(None));
        self
    }

    /// Leaves the description as it is.
    pub fn unset_description_update(&mut self) -> (builder: &mut Self)
        ensures
            builder@ == (TaskListUpdateBuilderView { description: Some(None), ..old(self)@ }),
            *final(self) == *final(builder),
    {
        self.description = Some(None);
        self
    }

    /// Changes the place among the lists.
    pub fn sort_order(&mut self, sort_order: u32) -> (builder: &mut Self)
        ensures
            builder@ == (TaskListUpdateBuilderView {
                sort_order: Some(Some(sort_order)),
                ..old(self)@
            }),
            *final(self) == *final(builder),
    {
        self.sort_order = Some(Some(sort_order));
        self
    }

    /// Changes the colour.
    pub fn color(&mut self, color: Color) -> (builder: &mut Self)
        ensures
            builder@ == (TaskListUpdateBuilderView {
                color: Some(Some(Some(color))),
                ..old(self)@
            }),
            *final(self) == *final(builder),
    {
        self.color = Some(Some(Some(color)));
        self
    }

    /// Changes the colour to none.
    pub fn unset_color(&mut self) -> (builder: &mut Self)
        ensures
            builder@ == (TaskListUpdateBuilderView { color: Some(Some(None)), ..old(self)@ }),
            *final(self) == *final(builder),
    {
        self.color = Some(Some(None));
        self
    }

    /// Leaves the colour as it is.
    pub fn unset_color_update(&mut self) -> (builder: &mut Self)
        ensures
            builder@ == (TaskListUpdateBuilderView { color: Some(None), ..old(self)@ }),
            *final(self) == *final(builder),
    {
        self.color = Some(None);
        self
    }

    /// Changes the keywords.
    pub fn keywords(&mut self, keywords: Vec<String>) -> (builder: &mut Self)
        ensures
            builder@ == (TaskListUpdateBuilderView {
                keywords: Some(Some(strings_view(keywords@))),
                ..old(self)@
            }),
            *final(self) == *final(builder),
    {
        self.keywords = Some(Some(keywords));
        self
    }

    /// Changes the keywords to none.
    pub fn unset_keywords(&mut self) -> (builder: &mut Self)
        ensures
            builder@ == (TaskListUpdateBuilderView {
                keywords: Some(Some(Seq::empty())),
                ..old(self)@
            }),
            *final(self) == *final(builder),
    {
        self.keywords = Some(Some(no_keys()));
        self
    }

    /// Leaves the keywords as they are.
    pub fn unset_keywords_update(&mut self) -> (builder: &mut Self)
        ensures
            builder@ == (TaskListUpdateBuilderView { keywords: Some(None), ..old(self)@ }),
            *final(self) == *final(builder),
    {
        self.keywords = Some(None);
        self
    }

    /// Changes the categories.
    pub fn categories(&mut self, categories: Vec<String>) -> (builder: &mut Self)
        ensures
            builder@ == (TaskListUpdateBuilderView {
                categories: Some(Some(strings_view(categories@))),
                ..old(self)@
            }),
            *final(self) == *final(builder),
    {
        self.categories = Some(Some(categories));
        self
    }

    /// Changes the categories to none.
    pub fn unset_categories(&mut self) -> (builder: &mut Self)
        ensures
            builder@ == (TaskListUpdateBuilderView {
                categories: Some(Some(Seq::empty())),
                ..old(self)@
            }),
            *final(self) == *final(builder),
    {
        self.categories = Some(Some(no_keys()));
        self
    }

    /// Leaves the categories as they are.
    pub fn unset_categories_update(&mut self) -> (builder: &mut Self)
        ensures
            builder@ == (TaskListUpdateBuilderView { categories: Some(None), ..old(self)@ }),
            *final(self) == *final(builder),
    {
        self.categories = Some(None);
        self
    }

    /// Changes the subscribers.
    pub fn subscribers(&mut self, subscribers: Vec<String>) -> (builder: &mut Self)
        ensures
            builder@ == (TaskListUpdateBuilderView {
                subscribers: Some(Some(strings_view(subscribers@))),
                ..old(self)@
            }),
            *final(self) == *final(builder),
    {
        self.subscribers = Some(Some(subscribers));
        self
    }

    /// Changes the subscribers to none.
    pub fn unset_subscribers(&mut self) -> (builder: &mut Self)
        ensures
            builder@ == (TaskListUpdateBuilderView {
                subscribers: Some(Some(Seq::empty())),
                ..old(self)@
            }),
            *final(self) == *final(builder),
    {
        self.subscribers = Some(Some(no_keys()));
        self
    }

    /// Leaves the subscribers as they are.
    pub fn unset_subscribers_update(&mut self) -> (builder: &mut Self)
        ensures
            builder@ == (TaskListUpdateBuilderView { subscribers: Some(None), ..old(self)@ }),
            *final(self) == *final(builder),
    {
        self.subscribers = Some(None);
        self
    }

    /// Builds the content. Building fails exactly when a field without a
    /// default was never set, and names the first such field.
    pub fn build(&self) -> (content: Result<TaskListUpdateEventContent, BuilderError>)
        ensures
            match content {
                Ok(c) => self@.is_complete() && c@ == self@.built(),
                Err(BuilderError::UninitializedField(field)) => !self@.is_complete() && field@
                    == self@.missing(),
            },
    {
        let task_list = match &self.task_list {
            Some(v) => Update { event_id: v.event_id.clone() },
            None => {
                return Err(BuilderError::UninitializedField("task_list"));
            },
        };
        let name = match &self.name {
            Some(v) => clone_option(v),
            None => None,
        };
        let description = match &self.description {
            Some(v) => clone_optional_text(v),
            None => None,
        };
        let subscribers = match &self.subscribers {
            Some(v) => clone_optional_keys(v),
            None => None,
        };
        let sort_order = match &self.sort_order {
            Some(v) => *v,
            None => None,
        };
        let color = match &self.color {
            Some(v) => *v,
            None => None,
        };
        let keywords = match &self.keywords {
            Some(v) => clone_optional_keys(v),
            None => None,
        };
        let categories = match &self.categories {
            Some(v) => clone_optional_keys(v),
            None => None,
        };
        Ok(
            TaskListUpdateEventContent {
                task_list,
                name,
                description,
                subscribers,
                sort_order,
                color,
                keywords,
                categories,
            },
        )
    }
}

/// An update of a task, as a model of its own.
#[derive(Debug, PartialEq, Eq)]
pub struct TaskUpdate {
    pub inner: TaskUpdateEventContent,
    pub meta: EventMeta,
}

/// The contents of a [`TaskUpdate`].
pub struct TaskUpdateView {
    pub inner: TaskUpdateEventContentView,
    pub meta: EventMetaView,
}

impl View for TaskUpdate {
    type V = TaskUpdateView;

    open spec fn view(&self) -> TaskUpdateView {
        TaskUpdateView { inner: self.inner@, meta: self.meta@ }
    }
}

impl Clone for TaskUpdate {
    fn clone(&self) -> (copy: Self)
        ensures
            copy@ == self@,
    {
        TaskUpdate { inner: self.inner.clone(), meta: self.meta.clone() }
    }
}

impl ActerModel for TaskUpdate {
    open spec fn model_view(&self) -> AnyActerModelView {
        AnyActerModelView::TaskUpdate(self@)
    }

    fn event_id(&self) -> (id: &String) {
        &self.meta.event_id
    }

    fn room_id(&self) -> (id: &String) {
        &self.meta.room_id
    }

    fn capabilities(&self) -> (capabilities: Vec<Capability>) {
        Vec::new()
    }

    fn indizes(&self, user_id: &String) -> (keys: Vec<String>) {
        let mut keys: Vec<String> = Vec::new();
        keys.push(derive_key(self.inner.task.event_id.as_str(), "history"));
        assert(strings_view(keys@) =~= seq![derived_key(self@.inner.task, history_tag())]);
        keys
    }

    fn belongs_to(&self) -> (parents: Option<Vec<String>>) {
        let mut parents: Vec<String> = Vec::new();
        parents.push(self.inner.task.event_id.clone());
        assert(strings_view(parents@) =~= seq![self@.inner.task]);
        Some(parents)
    }

    fn transition(&mut self, model: &AnyActerModel) -> (changed: Result<bool, Error>) {
        Ok(false)
    }
}

impl ExecutableModel for TaskUpdate {
    fn execute(self, store: &mut Store) -> (keys: Result<Vec<String>, Error>) {
        let target = self.inner.task.event_id.clone();
        update_model_execute(store, AnyActerModel::TaskUpdate(self), &target)
    }

    fn redact(&self, store: &mut Store, redaction_model: RedactedActerModel) -> (keys: Result<
        Vec<String>,
        Error,
    >) {
        default_model_redact(store, redaction_model)
    }
}

/// An update of a task list, as a model of its own.
#[derive(Debug, PartialEq, Eq)]
pub struct TaskListUpdate {
    pub inner: TaskListUpdateEventContent,
    pub meta: EventMeta,
}

/// The contents of a [`TaskListUpdate`].
pub struct TaskListUpdateView {
    pub inner: TaskListUpdateEventContentView,
    pub meta: EventMetaView,
}

impl View for TaskListUpdate {
    type V = TaskListUpdateView;

    open spec fn view(&self) -> TaskListUpdateView {
        TaskListUpdateView { inner: self.inner@, meta: self.meta@ }
    }
}

impl Clone for TaskListUpdate {
    fn clone(&self) -> (copy: Self)
        ensures
            copy@ == self@,
    {
        TaskListUpdate { inner: self.inner.clone(), meta: self.meta.clone() }
    }
}

impl ActerModel for TaskListUpdate {
    open spec fn model_view(&self) -> AnyActerModelView {
        AnyActerModelView::TaskListUpdate(self@)
    }

    fn event_id(&self) -> (id: &String) {
        &self.meta.event_id
    }

    fn room_id(&self) -> (id: &String) {
        &self.meta.room_id
    }

    fn capabilities(&self) -> (capabilities: Vec<Capability>) {
        Vec::new()
    }

    fn indizes(&self, user_id: &String) -> (keys: Vec<String>) {
        let mut keys: Vec<String> = Vec::new();
        keys.push(derive_key(self.inner.task_list.event_id.as_str(), "history"));
        assert(strings_view(keys@) =~= seq![derived_key(self@.inner.task_list, history_tag())]);
        keys
    }

    fn belongs_to(&self) -> (parents: Option<Vec<String>>) {
        let mut parents: Vec<String> = Vec::new();
        parents.push(self.inner.task_list.event_id.clone());
        assert(strings_view(parents@) =~= seq![self@.inner.task_list]);
        Some(parents)
    }

    fn transition(&mut self, model: &AnyActerModel) -> (changed: Result<bool, Error>) {
        Ok(false)
    }
}

impl ExecutableModel for TaskListUpdate {
    fn execute(self, store: &mut Store) -> (keys: Result<Vec<String>, Error>) {
        let target = self.inner.task_list.event_id.clone();
        update_model_execute(store, AnyActerModel::TaskListUpdate(self), &target)
    }

    fn redact(&self, store: &mut Store, redaction_model: RedactedActerModel) -> (keys: Result<
        Vec<String>,
        Error,
    >) {
        default_model_redact(store, redaction_model)
    }
}


/// The key of the index that lists every task list, and the tag of the index
/// that lists the tasks of one list.
pub open spec fn tasks_tag() -> Seq<char> {
    "tasks"@
}

impl ActerModel for TaskList {
    open spec fn model_view(&self) -> AnyActerModelView {
        AnyActerModelView::TaskList(self@)
    }

    fn event_id(&self) -> (id: &String) {
        &self.meta.event_id
    }

    fn room_id(&self) -> (id: &String) {
        &self.meta.room_id
    }

    fn capabilities(&self) -> (capabilities: Vec<Capability>) {
        let mut capabilities: Vec<Capability> = Vec::new();
        capabilities.push(Capability::Commentable);
        capabilities.push(Capability::Attachmentable);
        assert(capabilities@ =~= seq![Capability::Commentable, Capability::Attachmentable]);
        capabilities
    }

    fn indizes(&self, user_id: &String) -> (keys: Vec<String>) {
        let mut keys: Vec<String> = Vec::new();
        keys.push("tasks".to_owned());
        keys.push(derive_key(self.meta.room_id.as_str(), "tasks"));
        assert(strings_view(keys@) =~= seq![
            tasks_tag(),
            derived_key(self@.meta.room_id, tasks_tag()),
        ]);
        keys
    }

    fn belongs_to(&self) -> (parents: Option<Vec<String>>) {
        None
    }

    fn transition(&mut self, model: &AnyActerModel) -> (changed: Result<bool, Error>) {
        match model {
            AnyActerModel::TaskListUpdate(update) => update.inner.apply(&mut self.inner),
            _ => Ok(false),
        }
    }
}

impl ActerModel for Task {
    open spec fn model_view(&self) -> AnyActerModelView {
        AnyActerModelView::Task(self@)
    }

    fn event_id(&self) -> (id: &String) {
        &self.meta.event_id
    }

    fn room_id(&self) -> (id: &String) {
        &self.meta.room_id
    }

    fn capabilities(&self) -> (capabilities: Vec<Capability>) {
        let mut capabilities: Vec<Capability> = Vec::new();
        capabilities.push(Capability::Commentable);
        capabilities.push(Capability::Attachmentable);
        assert(capabilities@ =~= seq![Capability::Commentable, Capability::Attachmentable]);
        capabilities
    }

    fn indizes(&self, user_id: &String) -> (keys: Vec<String>) {
        let mut keys: Vec<String> = Vec::new();
        keys.push(derive_key(self.inner.task_list_id.as_str(), "tasks"));
        assert(strings_view(keys@) =~= seq![derived_key(self@.inner.task_list_id, tasks_tag())]);
        keys
    }

    fn belongs_to(&self) -> (parents: Option<Vec<String>>) {
        let mut parents: Vec<String> = Vec::new();
        parents.push(self.inner.task_list_id.clone());
        assert(strings_view(parents@) =~= seq![self@.inner.task_list_id]);
        Some(parents)
    }

    fn transition(&mut self, model: &AnyActerModel) -> (changed: Result<bool, Error>) {
        match model {
            AnyActerModel::TaskUpdate(update) => update.inner.apply(&mut self.inner),
            _ => Ok(false),
        }
    }
}

impl ExecutableModel for TaskList {
    fn execute(self, store: &mut Store) -> (keys: Result<Vec<String>, Error>) {
        default_model_execute(store, AnyActerModel::TaskList(self))
    }

    fn redact(&self, store: &mut Store, redaction_model: RedactedActerModel) -> (keys: Result<
        Vec<String>,
        Error,
    >) {
        default_model_redact(store, redaction_model)
    }
}

impl ExecutableModel for Task {
    fn execute(self, store: &mut Store) -> (keys: Result<Vec<String>, Error>) {
        default_model_execute(store, AnyActerModel::Task(self))
    }

    fn redact(&self, store: &mut Store, redaction_model: RedactedActerModel) -> (keys: Result<
        Vec<String>,
        Error,
    >) {
        default_model_redact(store, redaction_model)
    }
}

impl TaskList {
    /// The key of the index that lists the tasks of the list.
    pub fn tasks_key(&self) -> (key: String)
        ensures
            key@ == derived_key(self@.meta.event_id, tasks_tag()),
    {
        derive_key(self.meta.event_id.as_str(), "tasks")
    }

    /// The tasks on the list that `store` holds, oldest first. With the
    /// backend down it fails with `StoreBackend`.
    pub fn tasks(&self, store: &Store) -> (tasks: Result<Vec<Task>, Error>)
        ensures
            store@.available ==> (tasks matches Ok(list) && tasks_view(list@) == tasks_among(
                store@.get_list(derived_key(self@.meta.event_id, tasks_tag())),
            )),
            !store@.available ==> tasks == Err::<Vec<Task>, Error>(Error::StoreBackend),
    {
        let models = match store.get_list(&self.tasks_key()) {
            Ok(models) => models,
            Err(e) => {
                return Err(e);
            },
        };
        Ok(tasks_of(&models))
    }
}

/// The contents of a list of tasks.
pub open spec fn tasks_view(tasks: Seq<Task>) -> Seq<TaskView> {
    tasks.map_values(|t: Task| t@)
}

/// The contents of a list of task lists.
pub open spec fn task_lists_view(lists: Seq<TaskList>) -> Seq<TaskListView> {
    lists.map_values(|l: TaskList| l@)
}

/// The tasks among `models`, in their order.
pub open spec fn tasks_among(models: Seq<AnyActerModelView>) -> Seq<TaskView>
    decreases models.len(),
{
    if models.len() == 0 {
        Seq::empty()
    } else {
        let front = tasks_among(models.drop_last());
        match models.last() {
            AnyActerModelView::Task(task) => front.push(task),
            _ => front,
        }
    }
}

/// The task lists among `models`, in their order.
pub open spec fn task_lists_among(models: Seq<AnyActerModelView>) -> Seq<TaskListView>
    decreases models.len(),
{
    if models.len() == 0 {
        Seq::empty()
    } else {
        let front = task_lists_among(models.drop_last());
        match models.last() {
            AnyActerModelView::TaskList(list) => front.push(list),
            _ => front,
        }
    }
}

/// The tasks among `models`, in their order.
pub fn tasks_of(models: &Vec<AnyActerModel>) -> (tasks: Vec<Task>)
    ensures
        tasks_view(tasks@) == tasks_among(models_view(models@)),
{
    let ghost listed = models_view(models@);
    let mut tasks: Vec<Task> = Vec::new();
    let mut i: usize = 0;
    assert(listed.take(0) =~= Seq::<AnyActerModelView>::empty());
    assert(tasks_view(tasks@) =~= Seq::<TaskView>::empty());
    while i < models.len()
        invariant
            i <= models.len(),
            listed == models_view(models@),
            tasks_view(tasks@) == tasks_among(listed.take(i as int)),
        decreases models.len() - i,
    {
        assert(listed.take(i + 1).drop_last() =~= listed.take(i as int));
        assert(listed.take(i + 1).last() == models@[i as int]@);
        match &models[i] {
            AnyActerModel::Task(task) => {
                let ghost before = tasks@;
                let copy = task.clone();
                tasks.push(copy);
                assert(tasks_view(tasks@) =~= tasks_view(before).push(copy@));
            },
            _ => {},
        }
        i += 1;
    }
    assert(listed.take(models.len() as int) =~= listed);
    tasks
}

/// The task lists among `models`, in their order.
pub fn task_lists_of(models: &Vec<AnyActerModel>) -> (lists: Vec<TaskList>)
    ensures
        task_lists_view(lists@) == task_lists_among(models_view(models@)),
{
    let ghost listed = models_view(models@);
    let mut lists: Vec<TaskList> = Vec::new();
    let mut i: usize = 0;
    assert(listed.take(0) =~= Seq::<AnyActerModelView>::empty());
    assert(task_lists_view(lists@) =~= Seq::<TaskListView>::empty());
    while i < models.len()
        invariant
            i <= models.len(),
            listed == models_view(models@),
            task_lists_view(lists@) == task_lists_among(listed.take(i as int)),
        decreases models.len() - i,
    {
        assert(listed.take(i + 1).drop_last() =~= listed.take(i as int));
        assert(listed.take(i + 1).last() == models@[i as int]@);
        match &models[i] {
            AnyActerModel::TaskList(list) => {
                let ghost before = lists@;
                let copy = list.clone();
                lists.push(copy);
                assert(task_lists_view(lists@) =~= task_lists_view(before).push(copy@));
            },
            _ => {},
        }
        i += 1;
    }
    assert(listed.take(models.len() as int) =~= listed);
    lists
}

} // verus!
