//! Device verification: the events of a verification flow as they are
//! handed to the application, and the emoji that both sides compare.

use crate::keys::{clone_option, option_view};
use vstd::prelude::*;
use vstd::string::StringExecFns;
use vstd::string::StrSliceExecFns;

verus! {

/// One emoji of a short authentication string.
#[derive(Debug)]
pub struct VerificationEmoji {
    symbol: u32,
    description: String,
}

impl View for VerificationEmoji {
    type V = (u32, Seq<char>);

    closed spec fn view(&self) -> (u32, Seq<char>) {
        (self.symbol, self.description@)
    }
}

impl Clone for VerificationEmoji {
    fn clone(&self) -> (copy: Self)
        ensures
            copy@ == self@,
    {
        VerificationEmoji { symbol: self.symbol, description: self.description.clone() }
    }
}

impl VerificationEmoji {
    /// The emoji with the code point `symbol` and the name `description`.
    pub fn new(symbol: u32, description: String) -> (emoji: VerificationEmoji)
        ensures
            emoji@ == (symbol, description@),
    {
        VerificationEmoji { symbol, description }
    }

    /// The emoji whose code point is the first character of `symbol`, which
    /// must not be empty.
    pub fn from_symbol(symbol: &str, description: &str) -> (emoji: VerificationEmoji)
        requires
            symbol@.len() > 0,
        ensures
            emoji@ == (symbol@[0] as u32, description@),
    {
        VerificationEmoji {
            symbol: symbol.get_char(0) as u32,
            description: String::from_str(description),
        }
    }

    /// The code point of the emoji.
    pub fn symbol(&self) -> (symbol: u32)
        ensures
            symbol == self@.0,
    {
        self.symbol
    }

    /// The name of the emoji.
    pub fn description(&self) -> (description: String)
        ensures
            description@ == self@.1,
    {
        self.description.clone()
    }
}

/// A step of a verification flow, as decoded from the event that carried it.
/// The flow is the identifier of the request event for a flow in a room, and
/// the transaction for a flow between devices.
#[derive(Debug, PartialEq, Eq)]
pub enum KeyVerification {
    /// A request sent as a message in a room.
    RoomRequest { flow_id: String, sender: String },
    /// A request sent to the device.
    Request { flow_id: String, sender: String, from_device: String },
    /// The other side is ready.
    Ready { flow_id: String, sender: String, from_device: String },
    /// The other side starts.
    Start { flow_id: String, sender: String, from_device: String },
    /// The other side accepts.
    Accept { flow_id: String, sender: String },
    /// The other side cancels, for the reason it gives.
    Cancel { flow_id: String, sender: String, code: String, reason: String },
    /// The other side sent its key.
    Key { flow_id: String, sender: String },
    /// The other side sent its authentication code.
    Mac { flow_id: String, sender: String },
    /// The other side is done.
    Done { flow_id: String, sender: String },
}

/// The contents of a [`VerificationEvent`].
pub struct VerificationEventView {
    pub event_type: Seq<char>,
    pub flow_id: Seq<char>,
    pub sender: Seq<char>,
    pub launcher: Option<Seq<char>>,
    pub cancel_code: Option<Seq<char>>,
    pub reason: Option<Seq<char>>,
}

/// A verification event without a launcher, a code or a reason.
pub open spec fn bare_event(
    event_type: Seq<char>,
    flow_id: Seq<char>,
    sender: Seq<char>,
) -> VerificationEventView {
    VerificationEventView {
        event_type,
        flow_id,
        sender,
        launcher: None,
        cancel_code: None,
        reason: None,
    }
}

/// A verification event that names the device that launched the flow.
pub open spec fn launched_event(
    event_type: Seq<char>,
    flow_id: Seq<char>,
    sender: Seq<char>,
    from_device: Seq<char>,
) -> VerificationEventView {
    VerificationEventView {
        event_type,
        flow_id,
        sender,
        launcher: Some(from_device),
        cancel_code: None,
        reason: None,
    }
}

impl KeyVerification {
    /// What the application is told of the step.
    pub open spec fn event(self) -> VerificationEventView {
        match self {
            KeyVerification::RoomRequest { flow_id, sender } => bare_event(
                "m.key.verification.request"@,
                flow_id@,
                sender@,
            ),
            KeyVerification::Request { flow_id, sender, from_device } => launched_event(
                "m.key.verification.request"@,
                flow_id@,
                sender@,
                from_device@,
            ),
            KeyVerification::Ready { flow_id, sender, from_device } => launched_event(
                "m.key.verification.ready"@,
                flow_id@,
                sender@,
                from_device@,
            ),
            KeyVerification::Start { flow_id, sender, from_device } => launched_event(
                "m.key.verification.start"@,
                flow_id@,
                sender@,
                from_device@,
            ),
            KeyVerification::Accept { flow_id, sender } => bare_event(
                "m.key.verification.accept"@,
                flow_id@,
                sender@,
            ),
            KeyVerification::Cancel { flow_id, sender, code, reason } => VerificationEventView {
                event_type: "m.key.verification.cancel"@,
                flow_id: flow_id@,
                sender: sender@,
                launcher: None,
                cancel_code: Some(code@),
                reason: Some(reason@),
            },
            KeyVerification::Key { flow_id, sender } => bare_event(
                "m.key.verification.key"@,
                flow_id@,
                sender@,
            ),
            KeyVerification::Mac { flow_id, sender } => bare_event(
                "m.key.verification.mac"@,
                flow_id@,
                sender@,
            ),
            KeyVerification::Done { flow_id, sender } => bare_event(
                "m.key.verification.done"@,
                flow_id@,
                sender@,
            ),
        }
    }
}

/// What the application is told of a step of a verification flow.
#[derive(Debug, PartialEq, Eq)]
pub struct VerificationEvent {
    event_type: String,
    /// The request event for a flow in a room, the transaction for a flow
    /// between devices.
    flow_id: String,
    sender: String,
    /// Set for a request, a ready and a start.
    launcher: Option<String>,
    /// Set for a cancel.
    cancel_code: Option<String>,
    /// Set for a cancel.
    reason: Option<String>,
}

impl View for VerificationEvent {
    type V = VerificationEventView;

    closed spec fn view(&self) -> VerificationEventView {
        VerificationEventView {
            event_type: self.event_type@,
            flow_id: self.flow_id@,
            sender: self.sender@,
            launcher: option_view(self.launcher),
            cancel_code: option_view(self.cancel_code),
            reason: option_view(self.reason),
        }
    }
}

impl Clone for VerificationEvent {
    fn clone(&self) -> (copy: Self)
        ensures
            copy@ == self@,
    {
        VerificationEvent {
            event_type: self.event_type.clone(),
            flow_id: self.flow_id.clone(),
            sender: self.sender.clone(),
            launcher: clone_option(&self.launcher),
            cancel_code: clone_option(&self.cancel_code),
            reason: clone_option(&self.reason),
        }
    }
}

impl VerificationEvent {
    /// The event with the given fields.
    pub fn new(
        event_type: String,
        flow_id: String,
        sender: String,
        launcher: Option<String>,
        cancel_code: Option<String>,
        reason: Option<String>,
    ) -> (event: VerificationEvent)
        ensures
            event@ == (VerificationEventView {
                event_type: event_type@,
                flow_id: flow_id@,
                sender: sender@,
                launcher: option_view(launcher),
                cancel_code: option_view(cancel_code),
                reason: option_view(reason),
            }),
    {
        VerificationEvent { event_type, flow_id, sender, launcher, cancel_code, reason }
    }

    /// What the application is told of the step `received`.
    pub fn received(received: KeyVerification) -> (event: VerificationEvent)
        ensures
            event@ == received.event(),
    {
        match received {
            KeyVerification::RoomRequest { flow_id, sender } => VerificationEvent::new(
                "m.key.verification.request".to_owned(),
                flow_id,
                sender,
                None,
                None,
                None,
            ),
            KeyVerification::Request { flow_id, sender, from_device } => VerificationEvent::new(
                "m.key.verification.request".to_owned(),
                flow_id,
                sender,
                Some(from_device),
                None,
                None,
            ),
            KeyVerification::Ready { flow_id, sender, from_device } => VerificationEvent::new(
                "m.key.verification.ready".to_owned(),
                flow_id,
                sender,
                Some(from_device),
                None,
                None,
            ),
            KeyVerification::Start { flow_id, sender, from_device } => VerificationEvent::new(
                "m.key.verification.start".to_owned(),
                flow_id,
                sender,
                Some(from_device),
                None,
                None,
            ),
            KeyVerification::Accept { flow_id, sender } => VerificationEvent::new(
                "m.key.verification.accept".to_owned(),
                flow_id,
                sender,
                None,
                None,
                None,
            ),
            KeyVerification::Cancel { flow_id, sender, code, reason } => VerificationEvent::new(
                "m.key.verification.cancel".to_owned(),
                flow_id,
                sender,
                None,
                Some(code),
                Some(reason),
            ),
            KeyVerification::Key { flow_id, sender } => VerificationEvent::new(
                "m.key.verification.key".to_owned(),
                flow_id,
                sender,
                None,
                None,
                None,
            ),
            KeyVerification::Mac { flow_id, sender } => VerificationEvent::new(
                "m.key.verification.mac".to_owned(),
                flow_id,
                sender,
                None,
                None,
                None,
            ),
            KeyVerification::Done { flow_id, sender } => VerificationEvent::new(
                "m.key.verification.done".to_owned(),
                flow_id,
                sender,
                None,
                None,
                None,
            ),
        }
    }

    /// The type of the event, such as `m.key.verification.ready`.
    pub fn event_type(&self) -> (event_type: String)
        ensures
            event_type@ == self@.event_type,
    {
        self.event_type.clone()
    }

    /// The flow the event belongs to.
    pub fn flow_id(&self) -> (flow_id: String)
        ensures
            flow_id@ == self@.flow_id,
    {
        self.flow_id.clone()
    }

    /// The user who sent the event.
    pub fn sender(&self) -> (sender: String)
        ensures
            sender@ == self@.sender,
    {
        self.sender.clone()
    }

    /// The code of a cancellation.
    pub fn cancel_code(&self) -> (cancel_code: Option<String>)
        ensures
            option_view(cancel_code) == self@.cancel_code,
    {
        clone_option(&self.cancel_code)
    }

    /// The reason of a cancellation.
    pub fn reason(&self) -> (reason: Option<String>)
        ensures
            option_view(reason) == self@.reason,
    {
        clone_option(&self.reason)
    }

    /// Whether the device `device_id` launched the flow, as far as the event
    /// names the device that did.
    pub fn was_triggered_from_this_device(&self, device_id: &String) -> (triggered: Option<bool>)
        ensures
            triggered == match self@.launcher {
                Some(launcher) => Some(launcher == device_id@),
                None => None,
            },
    {
        match &self.launcher {
            Some(launcher) => Some(*launcher == *device_id),
            None => None,
        }
    }
}

} // verus!
