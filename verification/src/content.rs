//! The plain values that the contents of events are made of: texts, colours,
//! points in time, and the reference from an update to what it updates.

use crate::keys::{clone_option, option_view, strings_view};
use vstd::prelude::*;

verus! {

/// A colour, as red, green, blue and alpha in one number.
#[derive(Clone, Copy, Debug, PartialEq, Eq, Structural)]
pub struct Color {
    pub rgba: u32,
}

/// A point in time in UTC, to the nanosecond.
#[derive(Clone, Copy, Debug, PartialEq, Eq, Structural)]
pub struct UtcDateTime {
    /// The whole seconds since the epoch; negative before it.
    pub timestamp: i64,
    /// The nanoseconds since the last whole second. Within a leap second
    /// they go on counting past `999_999_999`.
    pub subsec_nanos: u32,
}

/// An icon: an emoji.
#[derive(Debug, PartialEq, Eq)]
pub struct Icon {
    pub emoji: String,
}

impl View for Icon {
    type V = Seq<char>;

    open spec fn view(&self) -> Seq<char> {
        self.emoji@
    }
}

impl Clone for Icon {
    fn clone(&self) -> (copy: Self)
        ensures
            copy@ == self@,
    {
        Icon { emoji: self.emoji.clone() }
    }
}

/// A text with an optional formatted rendition.
#[derive(Debug, PartialEq, Eq)]
pub struct TextMessageContent {
    pub body: String,
    pub formatted: Option<String>,
}

/// The contents of a [`TextMessageContent`].
pub struct TextMessageContentView {
    pub body: Seq<char>,
    pub formatted: Option<Seq<char>>,
}

impl View for TextMessageContent {
    type V = TextMessageContentView;

    open spec fn view(&self) -> TextMessageContentView {
        TextMessageContentView { body: self.body@, formatted: option_view(self.formatted) }
    }
}

impl Clone for TextMessageContent {
    fn clone(&self) -> (copy: Self)
        ensures
            copy@ == self@,
    {
        TextMessageContent { body: self.body.clone(), formatted: clone_option(&self.formatted) }
    }
}

impl TextMessageContent {
    /// A plain text.
    pub fn plain(body: String) -> (text: TextMessageContent)
        ensures
            text@ == (TextMessageContentView { body: body@, formatted: None }),
    {
        TextMessageContent { body, formatted: None }
    }
}

/// The contents of an optional text.
pub open spec fn text_view(text: Option<TextMessageContent>) -> Option<TextMessageContentView> {
    match text {
        Some(t) => Some(t@),
        None => None,
    }
}

/// The contents of an optional icon.
pub open spec fn icon_view(icon: Option<Icon>) -> Option<Seq<char>> {
    match icon {
        Some(i) => Some(i@),
        None => None,
    }
}

/// A copy of an optional text.
pub fn clone_text(text: &Option<TextMessageContent>) -> (copy: Option<TextMessageContent>)
    ensures
        text_view(copy) == text_view(*text),
{
    match text {
        Some(t) => Some(t.clone()),
        None => None,
    }
}

/// A copy of an optional icon.
pub fn clone_icon(icon: &Option<Icon>) -> (copy: Option<Icon>)
    ensures
        icon_view(copy) == icon_view(*icon),
{
    match icon {
        Some(i) => Some(i.clone()),
        None => None,
    }
}

/// The reference from a child event to the model it is about.
#[derive(Debug, PartialEq, Eq)]
pub struct BelongsTo {
    /// The identifier of the model.
    pub event_id: String,
}

impl Clone for BelongsTo {
    fn clone(&self) -> (copy: Self)
        ensures
            copy.event_id@ == self.event_id@,
    {
        BelongsTo { event_id: self.event_id.clone() }
    }
}

/// The reference from an update to the event it updates.
#[derive(Debug, PartialEq, Eq)]
pub struct Update {
    /// The identifier of the event that is updated.
    pub event_id: String,
}

/// A field after an update: the update's where it has one.
pub open spec fn updated<A>(update: Option<A>, current: A) -> A {
    match update {
        Some(value) => value,
        None => current,
    }
}

/// The contents of a field of an update that holds an optional list of
/// strings.
pub open spec fn optional_strings_view(keys: Option<Vec<String>>) -> Option<Seq<Seq<char>>> {
    match keys {
        Some(k) => Some(strings_view(k@)),
        None => None,
    }
}

/// The contents of a field of an update that holds an optional text that may
/// be cleared.
pub open spec fn optional_text_view(text: Option<Option<TextMessageContent>>) -> Option<
    Option<TextMessageContentView>,
> {
    match text {
        Some(t) => Some(text_view(t)),
        None => None,
    }
}

/// The contents of a field of an update that holds an optional icon that may
/// be cleared.
pub open spec fn optional_icon_view(icon: Option<Option<Icon>>) -> Option<Option<Seq<char>>> {
    match icon {
        Some(i) => Some(icon_view(i)),
        None => None,
    }
}

} // verus!
