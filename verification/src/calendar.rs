//! Calendar events: what an event says, where it takes place, and how a later
//! update is merged into it.

use crate::content::{
    clone_icon, clone_text, icon_view, optional_icon_view, optional_strings_view,
    optional_text_view, text_view, updated, Color, Icon, TextMessageContent,
    TextMessageContentView, Update, UtcDateTime,
};
use crate::error::Error;
use crate::keys::{
    clone_keys, clone_option, derive_key, derived_key, history_tag, option_view, strings_view,
};
use crate::models::{
    default_model_execute, default_model_redact, update_model_execute, ActerModel,
    AnyActerModel, AnyActerModelView, Capability, EventMeta, EventMetaView, ExecutableModel,
    RedactedActerModel,
};
use crate::store::Store;
use vstd::prelude::*;

verus! {

/// Where an event takes place.
#[derive(Debug, PartialEq, Eq)]
pub enum EventLocation {
    /// A place in the world.
    Physical {
        /// The name of the place.
        name: Option<String>,
        /// More about the place.
        description: Option<TextMessageContent>,
        /// The icon to show with the place.
        icon: Option<Icon>,
        /// A `geo:` URI of the place.
        coordinates: Option<String>,
        /// A link to more.
        uri: Option<String>,
    },
    /// A place on the net.
    Virtual {
        /// The URI of the place.
        uri: String,
        /// The name of the place.
        name: Option<String>,
        /// More about the place.
        description: Option<TextMessageContent>,
        /// The icon to show with the place.
        icon: Option<Icon>,
    },
}

/// The contents of an [`EventLocation`].
pub enum EventLocationView {
    Physical {
        name: Option<Seq<char>>,
        description: Option<TextMessageContentView>,
        icon: Option<Seq<char>>,
        coordinates: Option<Seq<char>>,
        uri: Option<Seq<char>>,
    },
    Virtual {
        uri: Seq<char>,
        name: Option<Seq<char>>,
        description: Option<TextMessageContentView>,
        icon: Option<Seq<char>>,
    },
}

impl View for EventLocation {
    type V = EventLocationView;

    open spec fn view(&self) -> EventLocationView {
        match self {
            EventLocation::Physical {
                name,
                description,
                icon,
                coordinates,
                uri,
            } => EventLocationView::Physical {
                name: option_view(*name),
                description: text_view(*description),
                icon: icon_view(*icon),
                coordinates: option_view(*coordinates),
                uri: option_view(*uri),
            },
            EventLocation::Virtual { uri, name, description, icon } => EventLocationView::Virtual {
                uri: uri@,
                name: option_view(*name),
                description: text_view(*description),
                icon: icon_view(*icon),
            },
        }
    }
}

impl Clone for EventLocation {
    fn clone(&self) -> (copy: Self)
        ensures
            copy@ == self@,
    {
        match self {
            EventLocation::Physical {
                name,
                description,
                icon,
                coordinates,
                uri,
            } => EventLocation::Physical {
                name: clone_option(name),
                description: clone_text(description),
                icon: clone_icon(icon),
                coordinates: clone_option(coordinates),
                uri: clone_option(uri),
            },
            EventLocation::Virtual { uri, name, description, icon } => EventLocation::Virtual {
                uri: uri.clone(),
                name: clone_option(name),
                description: clone_text(description),
                icon: clone_icon(icon),
            },
        }
    }
}

/// A location laid out flat, with the kind of location as a string.
#[derive(Debug, PartialEq, Eq)]
pub struct EventLocationInfo {
    /// `Physical` or `Virtual`.
    pub location_type: String,
    pub name: Option<String>,
    pub description: Option<TextMessageContent>,
    pub icon: Option<Icon>,
    pub coordinates: Option<String>,
    /// Always present for a virtual location.
    pub uri: Option<String>,
}

/// The contents of an [`EventLocationInfo`].
pub struct EventLocationInfoView {
    pub location_type: Seq<char>,
    pub name: Option<Seq<char>>,
    pub description: Option<TextMessageContentView>,
    pub icon: Option<Seq<char>>,
    pub coordinates: Option<Seq<char>>,
    pub uri: Option<Seq<char>>,
}

impl EventLocationView {
    /// The location laid out flat.
    pub open spec fn info(self) -> EventLocationInfoView {
        match self {
            EventLocationView::Physical {
                name,
                description,
                icon,
                coordinates,
                uri,
            } => EventLocationInfoView {
                location_type: "Physical"@,
                name,
                description,
                icon,
                coordinates,
                uri,
            },
            EventLocationView::Virtual { uri, name, description, icon } => EventLocationInfoView {
                location_type: "Virtual"@,
                name,
                description,
                icon,
                coordinates: None,
                uri: Some(uri),
            },
        }
    }
}

impl EventLocationInfoView {
    /// Whether the info describes a location: its kind is `Physical`, or it
    /// is `Virtual` and the URI is present.
    pub open spec fn is_location(self) -> bool {
        self.location_type == "Physical"@ || (self.location_type == "Virtual"@ && self.uri
            is Some)
    }

    /// The location that the info describes. The coordinates of a virtual
    /// location are dropped.
    pub open spec fn location(self) -> EventLocationView
        recommends
            self.is_location(),
    {
        if self.location_type == "Physical"@ {
            EventLocationView::Physical {
                name: self.name,
                description: self.description,
                icon: self.icon,
                coordinates: self.coordinates,
                uri: self.uri,
            }
        } else {
            EventLocationView::Virtual {
                uri: self.uri->0,
                name: self.name,
                description: self.description,
                icon: self.icon,
            }
        }
    }
}

/// The two kinds of location have different names.
pub proof fn lemma_location_types_differ()
    ensures
        "Physical"@ != "Virtual"@,
{
    reveal_strlit("Physical");
    reveal_strlit("Virtual");
    assert("Physical"@[0] != "Virtual"@[0]);
}

/// Laying a location out flat and reading it back gives the location.
pub proof fn lemma_location_round_trip(location: EventLocationView)
    ensures
        location.info().is_location(),
        location.info().location() == location,
{
    lemma_location_types_differ();
}

impl View for EventLocationInfo {
    type V = EventLocationInfoView;

    open spec fn view(&self) -> EventLocationInfoView {
        EventLocationInfoView {
            location_type: self.location_type@,
            name: option_view(self.name),
            description: text_view(self.description),
            icon: icon_view(self.icon),
            coordinates: option_view(self.coordinates),
            uri: option_view(self.uri),
        }
    }
}

impl EventLocationInfo {
    /// Lays `location` out flat.
    pub fn new(location: &EventLocation) -> (info: EventLocationInfo)
        ensures
            info@ == location@.info(),
    {
        match location {
            EventLocation::Physical {
                name,
                description,
                icon,
                coordinates,
                uri,
            } => EventLocationInfo {
                location_type: "Physical".to_owned(),
                name: clone_option(name),
                description: clone_text(description),
                icon: clone_icon(icon),
                coordinates: clone_option(coordinates),
                uri: clone_option(uri),
            },
            EventLocation::Virtual { uri, name, description, icon } => EventLocationInfo {
                location_type: "Virtual".to_owned(),
                name: clone_option(name),
                description: clone_text(description),
                icon: clone_icon(icon),
                coordinates: None,
                uri: Some(uri.clone()),
            },
        }
    }

    /// The kind of location.
    pub fn location_type(&self) -> (kind: String)
        ensures
            kind@ == self@.location_type,
    {
        self.location_type.clone()
    }

    /// The name of the location.
    pub fn name(&self) -> (name: Option<String>)
        ensures
            option_view(name) == self@.name,
    {
        clone_option(&self.name)
    }

    /// More about the location.
    pub fn description(&self) -> (description: Option<TextMessageContent>)
        ensures
            text_view(description) == self@.description,
    {
        clone_text(&self.description)
    }

    /// The icon to show with the location.
    pub fn icon(&self) -> (icon: Option<Icon>)
        ensures
            icon_view(icon) == self@.icon,
    {
        clone_icon(&self.icon)
    }

    /// The `geo:` URI of the location.
    pub fn coordinates(&self) -> (coordinates: Option<String>)
        ensures
            option_view(coordinates) == self@.coordinates,
    {
        clone_option(&self.coordinates)
    }

    /// The URI of the location; always present for a virtual location.
    pub fn uri(&self) -> (uri: Option<String>)
        ensures
            option_view(uri) == self@.uri,
    {
        clone_option(&self.uri)
    }

    /// Whether the info describes a location.
    pub fn is_location(&self) -> (valid: bool)
        ensures
            valid == self@.is_location(),
    {
        let physical = "Physical".to_owned();
        let virtual_place = "Virtual".to_owned();
        self.location_type == physical || (self.location_type == virtual_place
            && self.uri.is_some())
    }
}

impl EventLocation {
    /// The location that `location_info` describes, which must describe
    /// one.
    pub fn from_info(location_info: &EventLocationInfo) -> (location: EventLocation)
        requires
            location_info@.is_location(),
        ensures
            location@ == location_info@.location(),
    {
        let physical = "Physical".to_owned();
        if location_info.location_type == physical {
            EventLocation::Physical {
                name: clone_option(&location_info.name),
                description: clone_text(&location_info.description),
                icon: clone_icon(&location_info.icon),
                coordinates: clone_option(&location_info.coordinates),
                uri: clone_option(&location_info.uri),
            }
        } else {
            let uri = match &location_info.uri {
                Some(uri) => uri.clone(),
                None => String::new(),
            };
            EventLocation::Virtual {
                uri,
                name: clone_option(&location_info.name),
                description: clone_text(&location_info.description),
                icon: clone_icon(&location_info.icon),
            }
        }
    }

    /// The location that `location_info` describes, if it describes one.
    pub fn try_from_info(location_info: &EventLocationInfo) -> (location: Option<EventLocation>)
        ensures
            match location {
                Some(l) => location_info@.is_location() && l@ == location_info@.location(),
                None => !location_info@.is_location(),
            },
    {
        if location_info.is_location() {
            Some(EventLocation::from_info(location_info))
        } else {
            None
        }
    }
}

/// The contents of a list of locations.
pub open spec fn locations_view(locations: Seq<EventLocation>) -> Seq<EventLocationView> {
    locations.map_values(|l: EventLocation| l@)
}

/// A copy of a list of locations.
pub fn clone_locations(locations: &Vec<EventLocation>) -> (copy: Vec<EventLocation>)
    ensures
        locations_view(copy@) == locations_view(locations@),
{
    let mut copy: Vec<EventLocation> = Vec::new();
    let mut i: usize = 0;
    while i < locations.len()
        invariant
            i <= locations.len(),
            locations_view(copy@) == locations_view(locations@).take(i as int),
        decreases locations.len() - i,
    {
        let ghost before = copy@;
        let location = locations[i].clone();
        copy.push(location);
        assert(locations_view(copy@) =~= locations_view(before).push(location@));
        assert(locations_view(locations@).take(i + 1) =~= locations_view(locations@).take(
            i as int,
        ).push(locations@[i as int]@));
        i += 1;
    }
    assert(locations_view(locations@).take(locations.len() as int) =~= locations_view(
        locations@,
    ));
    copy
}

/// What a calendar event says.
#[derive(Debug, PartialEq, Eq)]
pub struct CalendarEventEventContent {
    /// The title of the event.
    pub title: String,
    /// The icon to show with the event.
    pub icon: Option<Icon>,
    /// The colour of the event.
    pub color: Option<Color>,
    /// More about the event.
    pub description: Option<TextMessageContent>,
    /// When the event starts.
    pub utc_start: UtcDateTime,
    /// When the event ends.
    pub utc_end: UtcDateTime,
    /// Whether the event is shown without its time.
    pub show_without_time: bool,
    /// Where the event takes place.
    pub locations: Vec<EventLocation>,
    pub keywords: Vec<String>,
    pub categories: Vec<String>,
}

/// The contents of a [`CalendarEventEventContent`].
pub struct CalendarEventEventContentView {
    pub title: Seq<char>,
    pub icon: Option<Seq<char>>,
    pub color: Option<Color>,
    pub description: Option<TextMessageContentView>,
    pub utc_start: UtcDateTime,
    pub utc_end: UtcDateTime,
    pub show_without_time: bool,
    pub locations: Seq<EventLocationView>,
    pub keywords: Seq<Seq<char>>,
    pub categories: Seq<Seq<char>>,
}

impl View for CalendarEventEventContent {
    type V = CalendarEventEventContentView;

    open spec fn view(&self) -> CalendarEventEventContentView {
        CalendarEventEventContentView {
            title: self.title@,
            icon: icon_view(self.icon),
            color: self.color,
            description: text_view(self.description),
            utc_start: self.utc_start,
            utc_end: self.utc_end,
            show_without_time: self.show_without_time,
            locations: locations_view(self.locations@),
            keywords: strings_view(self.keywords@),
            categories: strings_view(self.categories@),
        }
    }
}

impl Clone for CalendarEventEventContent {
    fn clone(&self) -> (copy: Self)
        ensures
            copy@ == self@,
    {
        CalendarEventEventContent {
            title: self.title.clone(),
            icon: clone_icon(&self.icon),
            color: self.color,
            description: clone_text(&self.description),
            utc_start: self.utc_start,
            utc_end: self.utc_end,
            show_without_time: self.show_without_time,
            locations: clone_locations(&self.locations),
            keywords: clone_keys(&self.keywords),
            categories: clone_keys(&self.categories),
        }
    }
}

/// An update of a calendar event: every field that is present replaces the
/// field of the event. A field that can be empty is cleared by a present
/// `None`.
#[derive(Debug, PartialEq, Eq)]
pub struct CalendarEventUpdateEventContent {
    /// The event that is updated.
    pub calendar_event: Update,
    pub title: Option<String>,
    pub description: Option<Option<TextMessageContent>>,
    pub utc_start: Option<UtcDateTime>,
    pub utc_end: Option<UtcDateTime>,
    pub color: Option<Option<Color>>,
    pub icon: Option<Option<Icon>>,
    pub show_without_time: Option<bool>,
    pub locations: Option<Vec<EventLocation>>,
    pub keywords: Option<Vec<String>>,
    pub categories: Option<Vec<String>>,
}

/// The contents of a [`CalendarEventUpdateEventContent`].
pub struct CalendarEventUpdateEventContentView {
    pub calendar_event: Seq<char>,
    pub title: Option<Seq<char>>,
    pub description: Option<Option<TextMessageContentView>>,
    pub utc_start: Option<UtcDateTime>,
    pub utc_end: Option<UtcDateTime>,
    pub color: Option<Option<Color>>,
    pub icon: Option<Option<Seq<char>>>,
    pub show_without_time: Option<bool>,
    pub locations: Option<Seq<EventLocationView>>,
    pub keywords: Option<Seq<Seq<char>>>,
    pub categories: Option<Seq<Seq<char>>>,
}

impl CalendarEventUpdateEventContentView {
    /// Whether the update sets any field.
    pub open spec fn sets_any(self) -> bool {
        ||| self.title is Some
        ||| self.description is Some
        ||| self.utc_start is Some
        ||| self.utc_end is Some
        ||| self.color is Some
        ||| self.icon is Some
        ||| self.show_without_time is Some
        ||| self.locations is Some
        ||| self.keywords is Some
        ||| self.categories is Some
    }

    /// The event after the update.
    pub open spec fn applied(
        self,
        event: CalendarEventEventContentView,
    ) -> CalendarEventEventContentView {
        CalendarEventEventContentView {
            title: updated(self.title, event.title),
            icon: updated(self.icon, event.icon),
            color: updated(self.color, event.color),
            description: updated(self.description, event.description),
            utc_start: updated(self.utc_start, event.utc_start),
            utc_end: updated(self.utc_end, event.utc_end),
            show_without_time: updated(self.show_without_time, event.show_without_time),
            locations: updated(self.locations, event.locations),
            keywords: updated(self.keywords, event.keywords),
            categories: updated(self.categories, event.categories),
        }
    }
}

/// Applying an update a second time changes nothing, and an update that sets
/// no field changes nothing at all.
pub proof fn lemma_update_applies_once(
    update: CalendarEventUpdateEventContentView,
    event: CalendarEventEventContentView,
)
    ensures
        update.applied(update.applied(event)) == update.applied(event),
        !update.sets_any() ==> update.applied(event) == event,
{
}

impl View for CalendarEventUpdateEventContent {
    type V = CalendarEventUpdateEventContentView;

    open spec fn view(&self) -> CalendarEventUpdateEventContentView {
        CalendarEventUpdateEventContentView {
            calendar_event: self.calendar_event.event_id@,
            title: option_view(self.title),
            description: match self.description {
                Some(d) => Some(text_view(d)),
                None => None,
            },
            utc_start: self.utc_start,
            utc_end: self.utc_end,
            color: self.color,
            icon: match self.icon {
                Some(i) => Some(icon_view(i)),
                None => None,
            },
            show_without_time: self.show_without_time,
            locations: match self.locations {
                Some(l) => Some(locations_view(l@)),
                None => None,
            },
            keywords: match self.keywords {
                Some(k) => Some(strings_view(k@)),
                None => None,
            },
            categories: match self.categories {
                Some(c) => Some(strings_view(c@)),
                None => None,
            },
        }
    }
}

impl Clone for CalendarEventUpdateEventContent {
    fn clone(&self) -> (copy: Self)
        ensures
            copy@ == self@,
    {
        CalendarEventUpdateEventContent {
            calendar_event: Update { event_id: self.calendar_event.event_id.clone() },
            title: clone_option(&self.title),
            description: match &self.description {
                Some(d) => Some(clone_text(d)),
                None => None,
            },
            utc_start: self.utc_start,
            utc_end: self.utc_end,
            color: self.color,
            icon: match &self.icon {
                Some(i) => Some(clone_icon(i)),
                None => None,
            },
            show_without_time: self.show_without_time,
            locations: match &self.locations {
                Some(l) => Some(clone_locations(l)),
                None => None,
            },
            keywords: match &self.keywords {
                Some(k) => Some(clone_keys(k)),
                None => None,
            },
            categories: match &self.categories {
                Some(c) => Some(clone_keys(c)),
                None => None,
            },
        }
    }
}

impl CalendarEventUpdateEventContent {
    /// Merges the update into `calendar_event` and says whether the update
    /// set any field.
    pub fn apply(&self, calendar_event: &mut CalendarEventEventContent) -> (changed: Result<
        bool,
        Error,
    >)
        ensures
            changed == Ok::<bool, Error>(self@.sets_any()),
            final(calendar_event)@ == self@.applied(old(calendar_event)@),
    {
        let mut updated = false;
        if let Some(title) = &self.title {
            calendar_event.title = title.clone();
            updated = true;
        }
        if let Some(description) = &self.description {
            calendar_event.description = clone_text(description);
            updated = true;
        }
        if let Some(utc_start) = &self.utc_start {
            calendar_event.utc_start = *utc_start;
            updated = true;
        }
        if let Some(utc_end) = &self.utc_end {
            calendar_event.utc_end = *utc_end;
            updated = true;
        }
        if let Some(locations) = &self.locations {
            calendar_event.locations = clone_locations(locations);
            updated = true;
        }
        if let Some(show_without_time) = &self.show_without_time {
            calendar_event.show_without_time = *show_without_time;
            updated = true;
        }
        if let Some(color) = &self.color {
            calendar_event.color = *color;
            updated = true;
        }
        if let Some(icon) = &self.icon {
            calendar_event.icon = clone_icon(icon);
            updated = true;
        }
        if let Some(keywords) = &self.keywords {
            calendar_event.keywords = clone_keys(keywords);
            updated = true;
        }
        if let Some(categories) = &self.categories {
            calendar_event.categories = clone_keys(categories);
            updated = true;
        }
        Ok(updated)
    }
}

/// The key of the index that lists every calendar event.
pub open spec fn calendar_tag() -> Seq<char> {
    "calendar"@
}

/// A calendar event: what it says and the event it was decoded from.
#[derive(Debug, PartialEq, Eq)]
pub struct CalendarEvent {
    pub inner: CalendarEventEventContent,
    pub meta: EventMeta,
}

/// The contents of a [`CalendarEvent`].
pub struct CalendarEventView {
    pub inner: CalendarEventEventContentView,
    pub meta: EventMetaView,
}

impl View for CalendarEvent {
    type V = CalendarEventView;

    open spec fn view(&self) -> CalendarEventView {
        CalendarEventView { inner: self.inner@, meta: self.meta@ }
    }
}

impl Clone for CalendarEvent {
    fn clone(&self) -> (copy: Self)
        ensures
            copy@ == self@,
    {
        CalendarEvent { inner: self.inner.clone(), meta: self.meta.clone() }
    }
}

/// An update of a calendar event, as a model of its own.
#[derive(Debug, PartialEq, Eq)]
pub struct CalendarEventUpdate {
    pub inner: CalendarEventUpdateEventContent,
    pub meta: EventMeta,
}

/// The contents of a [`CalendarEventUpdate`].
pub struct CalendarEventUpdateView {
    pub inner: CalendarEventUpdateEventContentView,
    pub meta: EventMetaView,
}

impl View for CalendarEventUpdate {
    type V = CalendarEventUpdateView;

    open spec fn view(&self) -> CalendarEventUpdateView {
        CalendarEventUpdateView { inner: self.inner@, meta: self.meta@ }
    }
}

impl Clone for CalendarEventUpdate {
    fn clone(&self) -> (copy: Self)
        ensures
            copy@ == self@,
    {
        CalendarEventUpdate { inner: self.inner.clone(), meta: self.meta.clone() }
    }
}

impl ActerModel for CalendarEvent {
    open spec fn model_view(&self) -> AnyActerModelView {
        AnyActerModelView::CalendarEvent(self@)
    }

    fn event_id(&self) -> (id: &String) {
        &self.meta.event_id
    }

    fn room_id(&self) -> (id: &String) {
        &self.meta.room_id
    }

    fn capabilities(&self) -> (capabilities: Vec<Capability>) {
        let mut capabilities: Vec<Capability> = Vec::new();
        capabilities.push(Capability::Commentable);
        capabilities.push(Capability::Reactable);
        capabilities.push(Capability::Attachmentable);
        assert(capabilities@ =~= seq![
            Capability::Commentable,
            Capability::Reactable,
            Capability::Attachmentable,
        ]);
        capabilities
    }

    fn indizes(&self, user_id: &String) -> (keys: Vec<String>) {
        let mut keys: Vec<String> = Vec::new();
        keys.push("calendar".to_owned());
        keys.push(derive_key(self.meta.room_id.as_str(), "calendar"));
        assert(strings_view(keys@) =~= seq![
            calendar_tag(),
            derived_key(self@.meta.room_id, calendar_tag()),
        ]);
        keys
    }

    fn belongs_to(&self) -> (parents: Option<Vec<String>>) {
        None
    }

    fn transition(&mut self, model: &AnyActerModel) -> (changed: Result<bool, Error>) {
        match model {
            AnyActerModel::CalendarEventUpdate(update) => update.inner.apply(&mut self.inner),
            _ => Ok(false),
        }
    }
}

impl ActerModel for CalendarEventUpdate {
    open spec fn model_view(&self) -> AnyActerModelView {
        AnyActerModelView::CalendarEventUpdate(self@)
    }

    fn event_id(&self) -> (id: &String) {
        &self.meta.event_id
    }

    fn room_id(&self) -> (id: &String) {
        &self.meta.room_id
    }

    fn capabilities(&self) -> (capabilities: Vec<Capability>) {
        Vec::new()
    }

    fn indizes(&self, user_id: &String) -> (keys: Vec<String>) {
        let mut keys: Vec<String> = Vec::new();
        keys.push(derive_key(self.inner.calendar_event.event_id.as_str(), "history"));
        assert(strings_view(keys@) =~= seq![
            derived_key(self@.inner.calendar_event, history_tag()),
        ]);
        keys
    }

    fn belongs_to(&self) -> (parents: Option<Vec<String>>) {
        let mut parents: Vec<String> = Vec::new();
        parents.push(self.inner.calendar_event.event_id.clone());
        assert(strings_view(parents@) =~= seq![self@.inner.calendar_event]);
        Some(parents)
    }

    fn transition(&mut self, model: &AnyActerModel) -> (changed: Result<bool, Error>) {
        Ok(false)
    }
}

impl ExecutableModel for CalendarEvent {
    fn execute(self, store: &mut Store) -> (keys: Result<Vec<String>, Error>) {
        default_model_execute(store, AnyActerModel::CalendarEvent(self))
    }

    fn redact(&self, store: &mut Store, redaction_model: RedactedActerModel) -> (keys: Result<
        Vec<String>,
        Error,
    >) {
        default_model_redact(store, redaction_model)
    }
}

impl ExecutableModel for CalendarEventUpdate {
    fn execute(self, store: &mut Store) -> (keys: Result<Vec<String>, Error>) {
        let target = self.inner.calendar_event.event_id.clone();
        update_model_execute(store, AnyActerModel::CalendarEventUpdate(self), &target)
    }

    fn redact(&self, store: &mut Store, redaction_model: RedactedActerModel) -> (keys: Result<
        Vec<String>,
        Error,
    >) {
        default_model_redact(store, redaction_model)
    }
}

impl CalendarEventEventContent {
    /// The title of the event.
    pub fn title(&self) -> (title: &String)
        ensures
            title@ == self@.title,
    {
        &self.title
    }

    /// The icon to show with the event.
    pub fn icon(&self) -> (icon: &Option<Icon>)
        ensures
            icon_view(*icon) == self@.icon,
    {
        &self.icon
    }

    /// The colour of the event.
    pub fn color(&self) -> (color: &Option<Color>)
        ensures
            *color == self@.color,
    {
        &self.color
    }

    /// More about the event.
    pub fn description(&self) -> (description: &Option<TextMessageContent>)
        ensures
            text_view(*description) == self@.description,
    {
        &self.description
    }

    /// When the event starts.
    pub fn utc_start(&self) -> (utc_start: &UtcDateTime)
        ensures
            *utc_start == self@.utc_start,
    {
        &self.utc_start
    }

    /// When the event ends.
    pub fn utc_end(&self) -> (utc_end: &UtcDateTime)
        ensures
            *utc_end == self@.utc_end,
    {
        &self.utc_end
    }

    /// Whether the event is shown without its time.
    pub fn show_without_time(&self) -> (show_without_time: &bool)
        ensures
            *show_without_time == self@.show_without_time,
    {
        &self.show_without_time
    }

    /// Where the event takes place.
    pub fn locations(&self) -> (locations: &Vec<EventLocation>)
        ensures
            locations_view(locations@) == self@.locations,
    {
        &self.locations
    }

    /// The keywords of the event.
    pub fn keywords(&self) -> (keywords: &Vec<String>)
        ensures
            strings_view(keywords@) == self@.keywords,
    {
        &self.keywords
    }

    /// The categories of the event.
    pub fn categories(&self) -> (categories: &Vec<String>)
        ensures
            strings_view(categories@) == self@.categories,
    {
        &self.categories
    }
}

/// Why a builder of calendar content could not build.
#[derive(Clone, Copy, Debug, PartialEq, Eq)]
pub enum CalendarEventBuilderError {
    /// The named field has no default and was never set.
    UninitializedField(&'static str),
}

/// Collects the fields of a [`CalendarEventEventContent`]. The title, the
/// start and the end have to be set; every other field has a default.
#[derive(Debug, Default)]
pub struct CalendarEventBuilder {
    pub title: Option<String>,
    pub icon: Option<Option<Icon>>,
    pub color: Option<Option<Color>>,
    pub description: Option<Option<TextMessageContent>>,
    pub utc_start: Option<UtcDateTime>,
    pub utc_end: Option<UtcDateTime>,
    pub show_without_time: Option<bool>,
    pub locations: Option<Vec<EventLocation>>,
    pub keywords: Option<Vec<String>>,
    pub categories: Option<Vec<String>>,
}

/// The contents of a [`CalendarEventBuilder`]: each field as far as it was
/// set.
pub struct CalendarEventBuilderView {
    pub title: Option<Seq<char>>,
    pub icon: Option<Option<Seq<char>>>,
    pub color: Option<Option<Color>>,
    pub description: Option<Option<TextMessageContentView>>,
    pub utc_start: Option<UtcDateTime>,
    pub utc_end: Option<UtcDateTime>,
    pub show_without_time: Option<bool>,
    pub locations: Option<Seq<EventLocationView>>,
    pub keywords: Option<Seq<Seq<char>>>,
    pub categories: Option<Seq<Seq<char>>>,
}

impl View for CalendarEventBuilder {
    type V = CalendarEventBuilderView;

    open spec fn view(&self) -> CalendarEventBuilderView {
        CalendarEventBuilderView {
            title: match self.title {
                Some(v) => Some(v@),
                None => None,
            },
            icon: match self.icon {
                Some(v) => Some(icon_view(v)),
                None => None,
            },
            color: match self.color {
                Some(v) => Some(v),
                None => None,
            },
            description: match self.description {
                Some(v) => Some(text_view(v)),
                None => None,
            },
            utc_start: match self.utc_start {
                Some(v) => Some(v),
                None => None,
            },
            utc_end: match self.utc_end {
                Some(v) => Some(v),
                None => None,
            },
            show_without_time: match self.show_without_time {
                Some(v) => Some(v),
                None => None,
            },
            locations: match self.locations {
                Some(v) => Some(locations_view(v@)),
                None => None,
            },
            keywords: match self.keywords {
                Some(v) => Some(strings_view(v@)),
                None => None,
            },
            categories: match self.categories {
                Some(v) => Some(strings_view(v@)),
                None => None,
            },
        }
    }
}

impl CalendarEventBuilderView {
    /// Whether every field without a default was set.
    pub open spec fn is_complete(self) -> bool {
        self.title is Some && self.utc_start is Some && self.utc_end is Some
    }

    /// The first field without a default that was never set.
    pub open spec fn missing(self) -> Seq<char> {
        if self.title is None {
            "title"@
        } else if self.utc_start is None {
            "utc_start"@
        } else {
            "utc_end"@
        }
    }

    /// The content that a complete builder builds.
    pub open spec fn built(self) -> CalendarEventEventContentView {
        CalendarEventEventContentView {
            title: self.title->0,
            icon: updated(self.icon, None),
            color: updated(self.color, None),
            description: updated(self.description, None),
            utc_start: self.utc_start->0,
            utc_end: self.utc_end->0,
            show_without_time: updated(self.show_without_time, false),
            locations: updated(self.locations, Seq::empty()),
            keywords: updated(self.keywords, Seq::empty()),
            categories: updated(self.categories, Seq::empty()),
        }
    }
}

impl Clone for CalendarEventBuilder {
    fn clone(&self) -> (copy: Self)
        ensures
            copy@ == self@,
    {
        CalendarEventBuilder {
            title: clone_option(&self.title),
            icon: match &self.icon {
                Some(v) => Some(clone_icon(v)),
                None => None,
            },
            color: self.color,
            description: match &self.description {
                Some(v) => Some(clone_text(v)),
                None => None,
            },
            utc_start: self.utc_start,
            utc_end: self.utc_end,
            show_without_time: self.show_without_time,
            locations: match &self.locations {
                Some(v) => Some(clone_locations(v)),
                None => None,
            },
            keywords: match &self.keywords {
                Some(v) => Some(clone_keys(v)),
                None => None,
            },
            categories: match &self.categories {
                Some(v) => Some(clone_keys(v)),
                None => None,
            },
        }
    }
}

impl CalendarEventBuilder {
    /// The title of the event; it has to be set.
    pub fn title(&mut self, value: String) -> (builder: &mut Self)
        ensures
            builder@ == (CalendarEventBuilderView { title: Some(value@), ..old(self)@ }),
            *final(self) == *final(builder),
    {
        self.title = Some(value);
        self
    }

    /// The icon to show with the event.
    pub fn icon(&mut self, value: Option<Icon>) -> (builder: &mut Self)
        ensures
            builder@ == (CalendarEventBuilderView { icon: Some(icon_view(value)), ..old(self)@ }),
            *final(self) == *final(builder),
    {
        self.icon = Some(value);
        self
    }

    /// The colour of the event.
    pub fn color(&mut self, value: Option<Color>) -> (builder: &mut Self)
        ensures
            builder@ == (CalendarEventBuilderView { color: Some(value), ..old(self)@ }),
            *final(self) == *final(builder),
    {
        self.color = Some(value);
        self
    }

    /// More about the event.
    pub fn description(&mut self, value: Option<TextMessageContent>) -> (builder: &mut Self)
        ensures
            builder@ == (CalendarEventBuilderView {
                description: Some(text_view(value)),
                ..old(self)@
            }),
            *final(self) == *final(builder),
    {
        self.description = Some(value);
        self
    }

    /// When the event starts; it has to be set.
    pub fn utc_start(&mut self, value: UtcDateTime) -> (builder: &mut Self)
        ensures
            builder@ == (CalendarEventBuilderView { utc_start: Some(value), ..old(self)@ }),
            *final(self) == *final(builder),
    {
        self.utc_start = Some(value);
        self
    }

    /// When the event ends; it has to be set.
    pub fn utc_end(&mut self, value: UtcDateTime) -> (builder: &mut Self)
        ensures
            builder@ == (CalendarEventBuilderView { utc_end: Some(value), ..old(self)@ }),
            *final(self) == *final(builder),
    {
        self.utc_end = Some(value);
        self
    }

    /// Whether the event is shown without its time.
    pub fn show_without_time(&mut self, value: bool) -> (builder: &mut Self)
        ensures
            builder@ == (CalendarEventBuilderView { show_without_time: Some(value), ..old(self)@ }),
            *final(self) == *final(builder),
    {
        self.show_without_time = Some(value);
        self
    }

    /// Where the event takes place.
    pub fn locations(&mut self, value: Vec<EventLocation>) -> (builder: &mut Self)
        ensures
            builder@ == (CalendarEventBuilderView {
                locations: Some(locations_view(value@)),
                ..old(self)@
            }),
            *final(self) == *final(builder),
    {
        self.locations = Some(value);
        self
    }

    /// The keywords of the event.
    pub fn keywords(&mut self, value: Vec<String>) -> (builder: &mut Self)
        ensures
            builder@ == (CalendarEventBuilderView {
                keywords: Some(strings_view(value@)),
                ..old(self)@
            }),
            *final(self) == *final(builder),
    {
        self.keywords = Some(value);
        self
    }

    /// The categories of the event.
    pub fn categories(&mut self, value: Vec<String>) -> (builder: &mut Self)
        ensures
            builder@ == (CalendarEventBuilderView {
                categories: Some(strings_view(value@)),
                ..old(self)@
            }),
            *final(self) == *final(builder),
    {
        self.categories = Some(value);
        self
    }

    /// Adds the location that `loc_info` describes and returns a copy of the
    /// builder. The locations must have been set before, and `loc_info` must
    /// describe a location.
    pub fn into_event_loc(&mut self, loc_info: &EventLocationInfo) -> (copy: Self)
        requires
            old(self)@.locations is Some,
            loc_info@.is_location(),
        ensures
            final(self)@ == (CalendarEventBuilderView {
                locations: Some(old(self)@.locations->0.push(loc_info@.location())),
                ..old(self)@
            }),
            copy@ == final(self)@,
    {
        let event_loc = EventLocation::from_info(loc_info);
        let mut locations = match &self.locations {
            Some(locations) => clone_locations(locations),
            None => Vec::new(),
        };
        let ghost before = locations@;
        locations.push(event_loc);
        assert(locations_view(locations@) =~= locations_view(before).push(event_loc@));
        self.locations = Some(locations);
        self.clone()
    }

    /// Builds the content. Building fails exactly when the title, the start
    /// or the end was never set, and names the first of them that is missing.
    pub fn build(&self) -> (content: Result<CalendarEventEventContent, CalendarEventBuilderError>)
        ensures
            match content {
                Ok(c) => self@.is_complete() && c@ == self@.built(),
                Err(CalendarEventBuilderError::UninitializedField(field)) => !self@.is_complete()
                    && field@ == self@.missing(),
            },
    {
        let title = match &self.title {
            Some(title) => title.clone(),
            None => {
                return Err(CalendarEventBuilderError::UninitializedField("title"));
            },
        };
        let utc_start = match self.utc_start {
            Some(utc_start) => utc_start,
            None => {
                return Err(CalendarEventBuilderError::UninitializedField("utc_start"));
            },
        };
        let utc_end = match self.utc_end {
            Some(utc_end) => utc_end,
            None => {
                return Err(CalendarEventBuilderError::UninitializedField("utc_end"));
            },
        };
        let locations = match &self.locations {
            Some(locations) => clone_locations(locations),
            None => {
                let none: Vec<EventLocation> = Vec::new();
                assert(locations_view(none@) =~= Seq::<EventLocationView>::empty());
                none
            },
        };
        let keywords = match &self.keywords {
            Some(keywords) => clone_keys(keywords),
            None => {
                let none: Vec<String> = Vec::new();
                assert(strings_view(none@) =~= Seq::<Seq<char>>::empty());
                none
            },
        };
        let categories = match &self.categories {
            Some(categories) => clone_keys(categories),
            None => {
                let none: Vec<String> = Vec::new();
                assert(strings_view(none@) =~= Seq::<Seq<char>>::empty());
                none
            },
        };
        Ok(
            CalendarEventEventContent {
                title,
                icon: match &self.icon {
                    Some(icon) => clone_icon(icon),
                    None => None,
                },
                color: match self.color {
                    Some(color) => color,
                    None => None,
                },
                description: match &self.description {
                    Some(description) => clone_text(description),
                    None => None,
                },
                utc_start,
                utc_end,
                show_without_time: match self.show_without_time {
                    Some(flag) => flag,
                    None => false,
                },
                locations,
                keywords,
                categories,
            },
        )
    }
}

/// The contents of a field of an update that holds an optional list of
/// locations.
pub open spec fn optional_locations_view(locations: Option<Vec<EventLocation>>) -> Option<
    Seq<EventLocationView>,
> {
    match locations {
        Some(l) => Some(locations_view(l@)),
        None => None,
    }
}

/// Collects the fields of a [`CalendarEventUpdateEventContent`]. The event
/// that is updated has to be set; a field that was never set stays as it is
/// in the event.
#[derive(Debug, Default)]
pub struct CalendarEventUpdateBuilder {
    pub calendar_event: Option<Update>,
    pub title: Option<Option<String>>,
    pub description: Option<Option<Option<TextMessageContent>>>,
    pub utc_start: Option<Option<UtcDateTime>>,
    pub utc_end: Option<Option<UtcDateTime>>,
    pub color: Option<Option<Option<Color>>>,
    pub icon: Option<Option<Option<Icon>>>,
    pub show_without_time: Option<Option<bool>>,
    pub locations: Option<Option<Vec<EventLocation>>>,
    pub keywords: Option<Option<Vec<String>>>,
    pub categories: Option<Option<Vec<String>>>,
}

impl CalendarEventUpdateBuilder {
    /// The update that the builder builds, given that the event that is
    /// updated was set.
    pub open spec fn built(self) -> CalendarEventUpdateEventContentView {
        CalendarEventUpdateEventContentView {
            calendar_event: self.calendar_event->0.event_id@,
            title: match self.title {
                Some(v) => option_view(v),
                None => None,
            },
            description: match self.description {
                Some(v) => optional_text_view(v),
                None => None,
            },
            utc_start: match self.utc_start {
                Some(v) => v,
                None => None,
            },
            utc_end: match self.utc_end {
                Some(v) => v,
                None => None,
            },
            color: match self.color {
                Some(v) => v,
                None => None,
            },
            icon: match self.icon {
                Some(v) => optional_icon_view(v),
                None => None,
            },
            show_without_time: match self.show_without_time {
                Some(v) => v,
                None => None,
            },
            locations: match self.locations {
                Some(v) => optional_locations_view(v),
                None => None,
            },
            keywords: match self.keywords {
                Some(v) => optional_strings_view(v),
                None => None,
            },
            categories: match self.categories {
                Some(v) => optional_strings_view(v),
                None => None,
            },
        }
    }

    /// The event that is updated; it has to be set.
    pub fn calendar_event(&mut self, value: Update) -> (builder: &mut Self)
        ensures
            builder.calendar_event == Some(value),
            builder.title == old(self).title,
            builder.description == old(self).description,
            builder.utc_start == old(self).utc_start,
            builder.utc_end == old(self).utc_end,
            builder.color == old(self).color,
            builder.icon == old(self).icon,
            builder.show_without_time == old(self).show_without_time,
            builder.locations == old(self).locations,
            builder.keywords == old(self).keywords,
            builder.categories == old(self).categories,
            *final(self) == *final(builder),
    {
        self.calendar_event = Some(value);
        self
    }

    /// The new title, if the title is to change.
    pub fn title(&mut self, value: Option<String>) -> (builder: &mut Self)
        ensures
            builder.title == Some(value),
            builder.calendar_event == old(self).calendar_event,
            builder.description == old(self).description,
            builder.utc_start == old(self).utc_start,
            builder.utc_end == old(self).utc_end,
            builder.color == old(self).color,
            builder.icon == old(self).icon,
            builder.show_without_time == old(self).show_without_time,
            builder.locations == old(self).locations,
            builder.keywords == old(self).keywords,
            builder.categories == old(self).categories,
            *final(self) == *final(builder),
    {
        self.title = Some(value);
        self
    }

    /// The new description, if the description is to change.
    pub fn description(&mut self, value: Option<Option<TextMessageContent>>) -> (builder: &mut Self)
        ensures
            builder.description == Some(value),
            builder.calendar_event == old(self).calendar_event,
            builder.title == old(self).title,
            builder.utc_start == old(self).utc_start,
            builder.utc_end == old(self).utc_end,
            builder.color == old(self).color,
            builder.icon == old(self).icon,
            builder.show_without_time == old(self).show_without_time,
            builder.locations == old(self).locations,
            builder.keywords == old(self).keywords,
            builder.categories == old(self).categories,
            *final(self) == *final(builder),
    {
        self.description = Some(value);
        self
    }

    /// The new start, if the start is to change.
    pub fn utc_start(&mut self, value: Option<UtcDateTime>) -> (builder: &mut Self)
        ensures
            builder.utc_start == Some(value),
            builder.calendar_event == old(self).calendar_event,
            builder.title == old(self).title,
            builder.description == old(self).description,
            builder.utc_end == old(self).utc_end,
            builder.color == old(self).color,
            builder.icon == old(self).icon,
            builder.show_without_time == old(self).show_without_time,
            builder.locations == old(self).locations,
            builder.keywords == old(self).keywords,
            builder.categories == old(self).categories,
            *final(self) == *final(builder),
    {
        self.utc_start = Some(value);
        self
    }

    /// The new end, if the end is to change.
    pub fn utc_end(&mut self, value: Option<UtcDateTime>) -> (builder: &mut Self)
        ensures
            builder.utc_end == Some(value),
            builder.calendar_event == old(self).calendar_event,
            builder.title == old(self).title,
            builder.description == old(self).description,
            builder.utc_start == old(self).utc_start,
            builder.color == old(self).color,
            builder.icon == old(self).icon,
            builder.show_without_time == old(self).show_without_time,
            builder.locations == old(self).locations,
            builder.keywords == old(self).keywords,
            builder.categories == old(self).categories,
            *final(self) == *final(builder),
    {
        self.utc_end = Some(value);
        self
    }

    /// The new colour, if the colour is to change.
    pub fn color(&mut self, value: Option<Option<Color>>) -> (builder: &mut Self)
        ensures
            builder.color == Some(value),
            builder.calendar_event == old(self).calendar_event,
            builder.title == old(self).title,
            builder.description == old(self).description,
            builder.utc_start == old(self).utc_start,
            builder.utc_end == old(self).utc_end,
            builder.icon == old(self).icon,
            builder.show_without_time == old(self).show_without_time,
            builder.locations == old(self).locations,
            builder.keywords == old(self).keywords,
            builder.categories == old(self).categories,
            *final(self) == *final(builder),
    {
        self.color = Some(value);
        self
    }

    /// The new icon, if the icon is to change.
    pub fn icon(&mut self, value: Option<Option<Icon>>) -> (builder: &mut Self)
        ensures
            builder.icon == Some(value),
            builder.calendar_event == old(self).calendar_event,
            builder.title == old(self).title,
            builder.description == old(self).description,
            builder.utc_start == old(self).utc_start,
            builder.utc_end == old(self).utc_end,
            builder.color == old(self).color,
            builder.show_without_time == old(self).show_without_time,
            builder.locations == old(self).locations,
            builder.keywords == old(self).keywords,
            builder.categories == old(self).categories,
            *final(self) == *final(builder),
    {
        self.icon = Some(value);
        self
    }

    /// Whether the event is shown without its time, if that is to change.
    pub fn show_without_time(&mut self, value: Option<bool>) -> (builder: &mut Self)
        ensures
            builder.show_without_time == Some(value),
            builder.calendar_event == old(self).calendar_event,
            builder.title == old(self).title,
            builder.description == old(self).description,
            builder.utc_start == old(self).utc_start,
            builder.utc_end == old(self).utc_end,
            builder.color == old(self).color,
            builder.icon == old(self).icon,
            builder.locations == old(self).locations,
            builder.keywords == old(self).keywords,
            builder.categories == old(self).categories,
            *final(self) == *final(builder),
    {
        self.show_without_time = Some(value);
        self
    }

    /// The new locations, if the locations are to change.
    pub fn locations(&mut self, value: Option<Vec<EventLocation>>) -> (builder: &mut Self)
        ensures
            builder.locations == Some(value),
            builder.calendar_event == old(self).calendar_event,
            builder.title == old(self).title,
            builder.description == old(self).description,
            builder.utc_start == old(self).utc_start,
            builder.utc_end == old(self).utc_end,
            builder.color == old(self).color,
            builder.icon == old(self).icon,
            builder.show_without_time == old(self).show_without_time,
            builder.keywords == old(self).keywords,
            builder.categories == old(self).categories,
            *final(self) == *final(builder),
    {
        self.locations = Some(value);
        self
    }

    /// The new keywords, if the keywords are to change.
    pub fn keywords(&mut self, value: Option<Vec<String>>) -> (builder: &mut Self)
        ensures
            builder.keywords == Some(value),
            builder.calendar_event == old(self).calendar_event,
            builder.title == old(self).title,
            builder.description == old(self).description,
            builder.utc_start == old(self).utc_start,
            builder.utc_end == old(self).utc_end,
            builder.color == old(self).color,
            builder.icon == old(self).icon,
            builder.show_without_time == old(self).show_without_time,
            builder.locations == old(self).locations,
            builder.categories == old(self).categories,
            *final(self) == *final(builder),
    {
        self.keywords = Some(value);
        self
    }

    /// The new categories, if the categories are to change.
    pub fn categories(&mut self, value: Option<Vec<String>>) -> (builder: &mut Self)
        ensures
            builder.categories == Some(value),
            builder.calendar_event == old(self).calendar_event,
            builder.title == old(self).title,
            builder.description == old(self).description,
            builder.utc_start == old(self).utc_start,
            builder.utc_end == old(self).utc_end,
            builder.color == old(self).color,
            builder.icon == old(self).icon,
            builder.show_without_time == old(self).show_without_time,
            builder.locations == old(self).locations,
            builder.keywords == old(self).keywords,
            *final(self) == *final(builder),
    {
        self.categories = Some(value);
        self
    }

    /// Builds the update. Building fails exactly when the event that is
    /// updated was never set.
    pub fn build(&self) -> (content: Result<
        CalendarEventUpdateEventContent,
        CalendarEventBuilderError,
    >)
        ensures
            match content {
                Ok(c) => self.calendar_event is Some && c@ == self.built(),
                Err(CalendarEventBuilderError::UninitializedField(field)) => self.calendar_event
                    is None && field@ == "calendar_event"@,
            },
    {
        let calendar_event = match &self.calendar_event {
            Some(update) => Update { event_id: update.event_id.clone() },
            None => {
                return Err(CalendarEventBuilderError::UninitializedField("calendar_event"));
            },
        };
        Ok(
            CalendarEventUpdateEventContent {
                calendar_event,
                title: match &self.title {
                    Some(v) => clone_option(v),
                    None => None,
                },
                description: match &self.description {
                    Some(Some(v)) => Some(clone_text(v)),
                    Some(None) => None,
                    None => None,
                },
                utc_start: match self.utc_start {
                    Some(v) => v,
                    None => None,
                },
                utc_end: match self.utc_end {
                    Some(v) => v,
                    None => None,
                },
                color: match self.color {
                    Some(v) => v,
                    None => None,
                },
                icon: match &self.icon {
                    Some(Some(v)) => Some(clone_icon(v)),
                    Some(None) => None,
                    None => None,
                },
                show_without_time: match self.show_without_time {
                    Some(v) => v,
                    None => None,
                },
                locations: match &self.locations {
                    Some(Some(v)) => Some(clone_locations(v)),
                    Some(None) => None,
                    None => None,
                },
                keywords: match &self.keywords {
                    Some(Some(v)) => Some(clone_keys(v)),
                    Some(None) => None,
                    None => None,
                },
                categories: match &self.categories {
                    Some(Some(v)) => Some(clone_keys(v)),
                    Some(None) => None,
                    None => None,
                },
            },
        )
    }
}

} // verus!
