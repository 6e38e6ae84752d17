//! The timeline of a room: what a user may do there, and the receipts for its
//! messages.

use crate::identifiers::{event_id_of, parse_event_id};
use crate::keys::option_view;
use vstd::prelude::*;

verus! {

/// The kind of a receipt.
#[derive(Clone, Copy, Debug, PartialEq, Eq, Structural)]
pub enum ReceiptType {
    /// The marker up to which the user has read everything.
    FullyRead,
    /// A read receipt that the other members see.
    Read,
    /// A read receipt that only the user sees.
    ReadPrivate,
}

/// The thread a receipt is sent on.
#[derive(Clone, Copy, Debug, PartialEq, Eq, Structural)]
pub enum ReceiptThread {
    /// The main timeline.
    Main,
    /// No thread in particular.
    Unthreaded,
}

/// Why a receipt could not be put together.
#[derive(Clone, Copy, Debug, PartialEq, Eq, Structural)]
pub enum ReceiptError {
    /// The name is not that of a kind of receipt.
    WrongReceiptType,
    /// The name is not that of a thread.
    WrongReceiptThread,
    /// What was given for the fully-read marker is no event identifier.
    FullyReadNotEventId,
    /// What was given for the public read receipt is no event identifier.
    PublicReadReceiptNotEventId,
    /// What was given for the private read receipt is no event identifier.
    PrivateReadReceiptNotEventId,
}

/// The kind of receipt that `name` names, if it names one.
pub open spec fn receipt_type_named(name: Seq<char>) -> Option<ReceiptType> {
    if name == "FullyRead"@ {
        Some(ReceiptType::FullyRead)
    } else if name == "Read"@ {
        Some(ReceiptType::Read)
    } else if name == "ReadPrivate"@ {
        Some(ReceiptType::ReadPrivate)
    } else {
        None
    }
}

/// The thread that `name` names, if it names one.
pub open spec fn receipt_thread_named(name: Seq<char>) -> Option<ReceiptThread> {
    if name == "Main"@ {
        Some(ReceiptThread::Main)
    } else if name == "Unthreaded"@ {
        Some(ReceiptThread::Unthreaded)
    } else {
        None
    }
}

impl ReceiptError {
    /// A short human-readable description of the failure.
    pub fn message(&self) -> (text: &'static str)
        ensures
            text@ == match *self {
                ReceiptError::WrongReceiptType => "Wrong receipt type"@,
                ReceiptError::WrongReceiptThread => "Wrong receipt thread"@,
                ReceiptError::FullyReadNotEventId => "full read param should be event id"@,
                ReceiptError::PublicReadReceiptNotEventId =>
                    "public read receipt param should be event id"@,
                ReceiptError::PrivateReadReceiptNotEventId =>
                    "private read receipt param should be event id"@,
            },
    {
        match self {
            ReceiptError::WrongReceiptType => "Wrong receipt type",
            ReceiptError::WrongReceiptThread => "Wrong receipt thread",
            ReceiptError::FullyReadNotEventId => "full read param should be event id",
            ReceiptError::PublicReadReceiptNotEventId => {
                "public read receipt param should be event id"
            },
            ReceiptError::PrivateReadReceiptNotEventId => {
                "private read receipt param should be event id"
            },
        }
    }
}

impl ReceiptType {
    /// The kind of receipt that `name` names: `FullyRead`, `Read` or
    /// `ReadPrivate`.
    pub fn parse(name: &String) -> (kind: Option<ReceiptType>)
        ensures
            kind == receipt_type_named(name@),
    {
        if *name == "FullyRead".to_owned() {
            Some(ReceiptType::FullyRead)
        } else if *name == "Read".to_owned() {
            Some(ReceiptType::Read)
        } else if *name == "ReadPrivate".to_owned() {
            Some(ReceiptType::ReadPrivate)
        } else {
            None
        }
    }

    /// The kind of receipt that marks a room as read: a read receipt where
    /// the user asked for it, the fully-read marker otherwise.
    pub fn for_mark_as_read(user_triggered: bool) -> (kind: ReceiptType)
        ensures
            kind == if user_triggered {
                ReceiptType::Read
            } else {
                ReceiptType::FullyRead
            },
    {
        if user_triggered {
            ReceiptType::Read
        } else {
            ReceiptType::FullyRead
        }
    }
}

impl ReceiptThread {
    /// The thread that `name` names: `Main` or `Unthreaded`.
    pub fn parse(name: &String) -> (thread: Option<ReceiptThread>)
        ensures
            thread == receipt_thread_named(name@),
    {
        if *name == "Main".to_owned() {
            Some(ReceiptThread::Main)
        } else if *name == "Unthreaded".to_owned() {
            Some(ReceiptThread::Unthreaded)
        } else {
            None
        }
    }
}

/// The kind and the thread of a single receipt, from their names. A wrong
/// kind is reported before a wrong thread.
pub fn single_receipt(receipt_type: &String, thread: &String) -> (receipt: Result<
    (ReceiptType, ReceiptThread),
    ReceiptError,
>)
    ensures
        receipt == match receipt_type_named(receipt_type@) {
            None => Err::<(ReceiptType, ReceiptThread), ReceiptError>(
                ReceiptError::WrongReceiptType,
            ),
            Some(kind) => match receipt_thread_named(thread@) {
                None => Err(ReceiptError::WrongReceiptThread),
                Some(on) => Ok((kind, on)),
            },
        },
{
    let kind = match ReceiptType::parse(receipt_type) {
        Some(kind) => kind,
        None => {
            return Err(ReceiptError::WrongReceiptType);
        },
    };
    let on = match ReceiptThread::parse(thread) {
        Some(on) => on,
        None => {
            return Err(ReceiptError::WrongReceiptThread);
        },
    };
    Ok((kind, on))
}

/// The receipts that are sent at once: for each kind the event it is for,
/// or nothing.
#[derive(Debug, PartialEq, Eq)]
pub struct Receipts {
    pub fully_read: Option<String>,
    pub public_read_receipt: Option<String>,
    pub private_read_receipt: Option<String>,
}

/// The contents of a [`Receipts`].
pub struct ReceiptsView {
    pub fully_read: Option<Seq<char>>,
    pub public_read_receipt: Option<Seq<char>>,
    pub private_read_receipt: Option<Seq<char>>,
}

impl View for Receipts {
    type V = ReceiptsView;

    open spec fn view(&self) -> ReceiptsView {
        ReceiptsView {
            fully_read: option_view(self.fully_read),
            public_read_receipt: option_view(self.public_read_receipt),
            private_read_receipt: option_view(self.private_read_receipt),
        }
    }
}

/// What was given for one kind of receipt, as read: nothing given, an event
/// identifier, or something that is none.
pub open spec fn read_marker(given: Option<Seq<char>>) -> Option<Option<Seq<char>>> {
    match given {
        Some(text) => Some(event_id_of(text)),
        None => None,
    }
}

/// The receipts to send, from what was given for each kind as read. The
/// first kind for which something was given that is no event identifier is
/// reported: the fully-read marker before the public read receipt before the
/// private one.
pub open spec fn receipts_of(
    fully_read: Option<Option<Seq<char>>>,
    public_read_receipt: Option<Option<Seq<char>>>,
    private_read_receipt: Option<Option<Seq<char>>>,
) -> Result<ReceiptsView, ReceiptError> {
    if fully_read == Some(None::<Seq<char>>) {
        Err(ReceiptError::FullyReadNotEventId)
    } else if public_read_receipt == Some(None::<Seq<char>>) {
        Err(ReceiptError::PublicReadReceiptNotEventId)
    } else if private_read_receipt == Some(None::<Seq<char>>) {
        Err(ReceiptError::PrivateReadReceiptNotEventId)
    } else {
        Ok(
            ReceiptsView {
                fully_read: match fully_read {
                    Some(id) => id,
                    None => None,
                },
                public_read_receipt: match public_read_receipt {
                    Some(id) => id,
                    None => None,
                },
                private_read_receipt: match private_read_receipt {
                    Some(id) => id,
                    None => None,
                },
            },
        )
    }
}

/// The contents of what was given for one kind of receipt, as read.
pub open spec fn marker_view(read: Option<Option<String>>) -> Option<Option<Seq<char>>> {
    match read {
        Some(id) => Some(option_view(id)),
        None => None,
    }
}

fn read_one(given: &Option<String>) -> (read: Option<Option<String>>)
    ensures
        marker_view(read) == read_marker(option_view(*given)),
{
    match given {
        Some(text) => Some(parse_event_id(text.as_str())),
        None => None,
    }
}

impl Receipts {
    /// The receipts to send, from what was given for each kind as read:
    /// `None` where nothing was given, `Some(None)` where what was given is
    /// no event identifier.
    pub fn from_readings(
        fully_read: Option<Option<String>>,
        public_read_receipt: Option<Option<String>>,
        private_read_receipt: Option<Option<String>>,
    ) -> (receipts: Result<Receipts, ReceiptError>)
        ensures
            match receipts_of(
                marker_view(fully_read),
                marker_view(public_read_receipt),
                marker_view(private_read_receipt),
            ) {
                Ok(expected) => receipts matches Ok(r) && r@ == expected,
                Err(e) => receipts == Err::<Receipts, ReceiptError>(e),
            },
    {
        let fully_read = match fully_read {
            Some(Some(id)) => Some(id),
            Some(None) => {
                return Err(ReceiptError::FullyReadNotEventId);
            },
            None => None,
        };
        let public_read_receipt = match public_read_receipt {
            Some(Some(id)) => Some(id),
            Some(None) => {
                return Err(ReceiptError::PublicReadReceiptNotEventId);
            },
            None => None,
        };
        let private_read_receipt = match private_read_receipt {
            Some(Some(id)) => Some(id),
            Some(None) => {
                return Err(ReceiptError::PrivateReadReceiptNotEventId);
            },
            None => None,
        };
        Ok(Receipts { fully_read, public_read_receipt, private_read_receipt })
    }

    /// The receipts to send, from what was given for each kind.
    pub fn parse(
        fully_read: Option<String>,
        public_read_receipt: Option<String>,
        private_read_receipt: Option<String>,
    ) -> (receipts: Result<Receipts, ReceiptError>)
        ensures
            match receipts_of(
                read_marker(option_view(fully_read)),
                read_marker(option_view(public_read_receipt)),
                read_marker(option_view(private_read_receipt)),
            ) {
                Ok(expected) => receipts matches Ok(r) && r@ == expected,
                Err(e) => receipts == Err::<Receipts, ReceiptError>(e),
            },
    {
        let fully_read = read_one(&fully_read);
        let public_read_receipt = read_one(&public_read_receipt);
        let private_read_receipt = read_one(&private_read_receipt);
        Self::from_readings(fully_read, public_read_receipt, private_read_receipt)
    }
}

/// What a user sets out to do on the timeline of a room.
#[derive(Clone, Copy, Debug, PartialEq, Eq, Structural)]
pub enum TimelineAction {
    /// Sending a message.
    Send,
    /// Editing a message.
    Edit,
    /// Replying to a message.
    Reply,
    /// Reacting to a message, or taking a reaction back.
    React,
}

/// Why something could not be done on the timeline of a room.
#[derive(Clone, Copy, Debug, PartialEq, Eq, Structural)]
pub enum TimelineError {
    /// The user is not in the room and so cannot send a message.
    NotInRoomToSend,
    /// The user is not in the room and so cannot edit a message.
    NotInRoomToEdit,
    /// The user is not in the room and so cannot reply.
    NotInRoomToReply,
    /// The user is not in the room and so cannot react.
    NotInRoomToReact,
    /// The room does not let the user send messages.
    MayNotSendMessage,
    /// The room does not let the user send reactions.
    MayNotSendReaction,
    /// The timeline does not hold the event.
    EventNotFound,
    /// The message to edit is somebody else's.
    NotOwnMessage,
}

impl TimelineError {
    /// A short human-readable description of the failure.
    pub fn message(&self) -> (text: &'static str)
        ensures
            text@ == match *self {
                TimelineError::NotInRoomToSend =>
                    "Unable to send message in a room we are not in"@,
                TimelineError::NotInRoomToEdit =>
                    "Unable to edit message in a room we are not in"@,
                TimelineError::NotInRoomToReply =>
                    "Unable to send reply in a room we are not in"@,
                TimelineError::NotInRoomToReact =>
                    "Unable to send reaction in a room we are not in"@,
                TimelineError::MayNotSendMessage =>
                    "No permissions to send message in this room"@,
                TimelineError::MayNotSendReaction =>
                    "No permissions to send reaction in this room"@,
                TimelineError::EventNotFound => "Unable to find event"@,
                TimelineError::NotOwnMessage => "You can't edit other peoples messages"@,
            },
    {
        match self {
            TimelineError::NotInRoomToSend => "Unable to send message in a room we are not in",
            TimelineError::NotInRoomToEdit => "Unable to edit message in a room we are not in",
            TimelineError::NotInRoomToReply => "Unable to send reply in a room we are not in",
            TimelineError::NotInRoomToReact => "Unable to send reaction in a room we are not in",
            TimelineError::MayNotSendMessage => "No permissions to send message in this room",
            TimelineError::MayNotSendReaction => "No permissions to send reaction in this room",
            TimelineError::EventNotFound => "Unable to find event",
            TimelineError::NotOwnMessage => "You can't edit other peoples messages",
        }
    }
}

impl TimelineAction {
    /// The failure of the action for a user who is not in the room.
    pub open spec fn not_in_room(self) -> TimelineError {
        match self {
            TimelineAction::Send => TimelineError::NotInRoomToSend,
            TimelineAction::Edit => TimelineError::NotInRoomToEdit,
            TimelineAction::Reply => TimelineError::NotInRoomToReply,
            TimelineAction::React => TimelineError::NotInRoomToReact,
        }
    }

    /// The failure of the action for a user whom the room does not let send
    /// what the action sends: a reaction for reacting, a message otherwise.
    pub open spec fn not_permitted(self) -> TimelineError {
        match self {
            TimelineAction::React => TimelineError::MayNotSendReaction,
            _ => TimelineError::MayNotSendMessage,
        }
    }

    /// Whether the action can go ahead for a user who is in the room exactly
    /// if `joined` holds.
    pub fn require_joined(self, joined: bool) -> (go: Result<(), TimelineError>)
        ensures
            go == if joined {
                Ok::<(), TimelineError>(())
            } else {
                Err(self.not_in_room())
            },
    {
        if joined {
            return Ok(());
        }
        Err(
            match self {
                TimelineAction::Send => TimelineError::NotInRoomToSend,
                TimelineAction::Edit => TimelineError::NotInRoomToEdit,
                TimelineAction::Reply => TimelineError::NotInRoomToReply,
                TimelineAction::React => TimelineError::NotInRoomToReact,
            },
        )
    }

    /// Whether the action can go ahead for a user whom the room lets send
    /// what the action sends exactly if `permitted` holds.
    pub fn require_permission(self, permitted: bool) -> (go: Result<(), TimelineError>)
        ensures
            go == if permitted {
                Ok::<(), TimelineError>(())
            } else {
                Err(self.not_permitted())
            },
    {
        if permitted {
            return Ok(());
        }
        Err(
            match self {
                TimelineAction::React => TimelineError::MayNotSendReaction,
                _ => TimelineError::MayNotSendMessage,
            },
        )
    }
}

/// Whether a message can be edited: the timeline must hold it, which it does
/// exactly if `own` is present, and it must be the user's own.
pub fn require_own_message(own: Option<bool>) -> (go: Result<(), TimelineError>)
    ensures
        go == match own {
            None => Err::<(), TimelineError>(TimelineError::EventNotFound),
            Some(false) => Err(TimelineError::NotOwnMessage),
            Some(true) => Ok(()),
        },
{
    match own {
        None => Err(TimelineError::EventNotFound),
        Some(false) => Err(TimelineError::NotOwnMessage),
        Some(true) => Ok(()),
    }
}

} // verus!
