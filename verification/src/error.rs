//! The failures that the store, the executor and the builders report.

use vstd::prelude::*;

verus! {

/// Why an operation on the store or the executor did not succeed.
#[derive(Clone, Copy, Debug, PartialEq, Eq, Structural)]
pub enum Error {
    /// No record is stored under the key, or the record is not a model.
    NotFound,
    /// A record exists under the key but is not of the kind asked for.
    Serialization,
    /// A bounded wait passed its deadline before any wake-up arrived.
    Timeout,
    /// The durable backend beneath the store failed.
    StoreBackend,
}

/// What a user was kept from doing in a room that the user has not joined,
/// or is no longer in.
#[derive(Clone, Copy, Debug, PartialEq, Eq, Structural)]
pub enum RoomError {
    /// Drafting a task.
    CannotCreateTask,
    /// Updating a task or a task list.
    CannotUpdateTask,
    /// Updating a news entry.
    CannotUpdateNews,
    /// Drafting a news entry.
    CannotCreateNews,
    /// Drafting a task list.
    CannotCreateTaskList,
    /// Drafting an attachment.
    CannotAttach,
    /// Looking at a model of a room that the user is no longer in.
    RoomNotFound,
    /// Looking at a task list of a room that the user is no longer in.
    TaskListRoomNotFound,
}

impl RoomError {
    /// A short human-readable description of the failure.
    pub fn message(&self) -> (text: &'static str)
        ensures
            text@ == match *self {
                RoomError::CannotCreateTask => "Can only create tasks in joined rooms"@,
                RoomError::CannotUpdateTask => "Can only update tasks in joined rooms"@,
                RoomError::CannotUpdateNews => "Can only update news in joined rooms"@,
                RoomError::CannotCreateNews =>
                    "You can't create news for spaces we are not part on"@,
                RoomError::CannotCreateTaskList =>
                    "You can't create tasks for spaces we are not part on"@,
                RoomError::CannotAttach => "Can only attachment in joined rooms"@,
                RoomError::RoomNotFound => "Room not found"@,
                RoomError::TaskListRoomNotFound => "Room not found for task_list item"@,
            },
    {
        match self {
            RoomError::CannotCreateTask => "Can only create tasks in joined rooms",
            RoomError::CannotUpdateTask => "Can only update tasks in joined rooms",
            RoomError::CannotUpdateNews => "Can only update news in joined rooms",
            RoomError::CannotCreateNews => "You can't create news for spaces we are not part on",
            RoomError::CannotCreateTaskList => {
                "You can't create tasks for spaces we are not part on"
            },
            RoomError::CannotAttach => "Can only attachment in joined rooms",
            RoomError::RoomNotFound => "Room not found",
            RoomError::TaskListRoomNotFound => "Room not found for task_list item",
        }
    }
}

/// Why a builder could not build.
#[derive(Clone, Copy, Debug, PartialEq, Eq)]
pub enum BuilderError {
    /// The named field has no default and was never set.
    UninitializedField(&'static str),
}

impl Error {
    /// A short human-readable description of the failure.
    pub fn message(&self) -> (text: &'static str)
        ensures
            text@ == match *self {
                Error::NotFound => "model not found"@,
                Error::Serialization => "stored value could not be decoded"@,
                Error::Timeout => "timed out waiting for the key"@,
                Error::StoreBackend => "store backend failure"@,
            },
    {
        match self {
            Error::NotFound => "model not found",
            Error::Serialization => "stored value could not be decoded",
            Error::Timeout => "timed out waiting for the key",
            Error::StoreBackend => "store backend failure",
        }
    }
}

} // verus!
