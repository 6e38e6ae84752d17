//! Identifiers of events, as the protocol writes them.
//!
//! Whether a text is an event identifier is decided by ruma. What this file
//! declares about ruma is taken on trust; the decision is given a name, and
//! what the library does with it is stated over that name.

use crate::keys::option_view;
use ruma_common::{EventId, IdParseError};
use vstd::prelude::*;

verus! {

/// `ruma_common::IdParseError`, carried as an opaque value.
#[verifier::external_type_specification]
#[verifier::external_body]
pub struct ExIdParseError(IdParseError);

/// Whether `text` is an event identifier.
pub uninterp spec fn valid_event_id(text: Seq<char>) -> bool;

/// `EventId::parse`: succeeds exactly on the texts that [`valid_event_id`]
/// names, and the identifier it yields reads as the text it was given.
#[verifier::external_body]
fn event_id_parse(text: &str) -> (parsed: Result<String, IdParseError>)
    ensures
        match parsed {
            Ok(id) => valid_event_id(text@) && id@ == text@,
            Err(_) => !valid_event_id(text@),
        },
{
    match EventId::parse(text) {
        Ok(id) => Ok(id.as_str().to_owned()),
        Err(e) => Err(e),
    }
}

/// `text` where it is an event identifier, and nothing otherwise.
pub open spec fn event_id_of(text: Seq<char>) -> Option<Seq<char>> {
    if valid_event_id(text) {
        Some(text)
    } else {
        None
    }
}

/// Reads an event identifier: the text itself where it is one, and nothing
/// otherwise.
pub fn parse_event_id(text: &str) -> (id: Option<String>)
    ensures
        option_view(id) == event_id_of(text@),
{
    match event_id_parse(text) {
        Ok(id) => Some(id),
        Err(_) => None,
    }
}

/// What names an item of a timeline: the identifier of its event, or the
/// transaction it was sent in as long as the event is not known.
#[derive(Debug, PartialEq, Eq)]
pub enum TimelineEventItemId {
    EventId(String),
    TransactionId(String),
}

/// The contents of a [`TimelineEventItemId`].
pub enum TimelineEventItemIdView {
    EventId(Seq<char>),
    TransactionId(Seq<char>),
}

impl View for TimelineEventItemId {
    type V = TimelineEventItemIdView;

    open spec fn view(&self) -> TimelineEventItemIdView {
        match self {
            TimelineEventItemId::EventId(id) => TimelineEventItemIdView::EventId(id@),
            TimelineEventItemId::TransactionId(id) => TimelineEventItemIdView::TransactionId(id@),
        }
    }
}

impl TimelineEventItemId {
    /// What `unique_id` names, given `event_id`, the reading of it as an
    /// event identifier: the event where there is a reading, a transaction
    /// otherwise.
    pub fn from_reading(unique_id: String, event_id: Option<String>) -> (item:
        TimelineEventItemId)
        ensures
            item@ == match event_id {
                Some(id) => TimelineEventItemIdView::EventId(id@),
                None => TimelineEventItemIdView::TransactionId(unique_id@),
            },
    {
        match event_id {
            Some(id) => TimelineEventItemId::EventId(id),
            None => TimelineEventItemId::TransactionId(unique_id),
        }
    }

    /// What `unique_id` names: an event where it is an event identifier, a
    /// transaction otherwise.
    pub fn parse(unique_id: String) -> (item: TimelineEventItemId)
        ensures
            item@ == if valid_event_id(unique_id@) {
                TimelineEventItemIdView::EventId(unique_id@)
            } else {
                TimelineEventItemIdView::TransactionId(unique_id@)
            },
    {
        let event_id = parse_event_id(unique_id.as_str());
        Self::from_reading(unique_id, event_id)
    }
}

} // verus!
