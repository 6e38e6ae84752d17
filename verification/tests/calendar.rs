use acter_executor::calendar::{
    CalendarEvent, CalendarEventBuilder, CalendarEventBuilderError, CalendarEventEventContent,
    CalendarEventUpdate, CalendarEventUpdateBuilder, CalendarEventUpdateEventContent,
    EventLocation, EventLocationInfo,
};
use acter_executor::content::{Color, Icon, TextMessageContent, Update, UtcDateTime};
use acter_executor::error::Error;
use acter_executor::executor::Executor;
use acter_executor::models::{ActerModel, AnyActerModel, Capability, EventMeta, ExecutableModel};
use acter_executor::store::Store;
use acter_executor::test_model::TestModelBuilder;
use async_broadcast::TryRecvError;

fn at(timestamp: i64) -> UtcDateTime {
    UtcDateTime {
        timestamp,
        subsec_nanos: 0,
    }
}

fn meta(event_id: &str) -> EventMeta {
    EventMeta {
        event_id: event_id.to_owned(),
        sender: "@author:example.org".to_owned(),
        origin_server_ts: 1,
        room_id: "!room:example.org".to_owned(),
    }
}

fn content() -> CalendarEventEventContent {
    CalendarEventBuilder::default()
        .title("Launch".to_owned())
        .utc_start(at(1000))
        .utc_end(at(2000))
        .build()
        .unwrap()
}

fn physical() -> EventLocation {
    EventLocation::Physical {
        name: Some("HQ".to_owned()),
        description: Some(TextMessageContent::plain("second floor".to_owned())),
        icon: Some(Icon {
            emoji: "🏢".to_owned(),
        }),
        coordinates: Some("geo:51.5,-0.1".to_owned()),
        uri: None,
    }
}

fn online() -> EventLocation {
    EventLocation::Virtual {
        uri: "https://meet.example.org/launch".to_owned(),
        name: None,
        description: None,
        icon: None,
    }
}

fn empty_update(on: &str) -> CalendarEventUpdateEventContent {
    CalendarEventUpdateBuilder::default()
        .calendar_event(Update {
            event_id: on.to_owned(),
        })
        .build()
        .unwrap()
}

#[test]
fn a_location_is_laid_out_flat() {
    let info = EventLocationInfo::new(&physical());
    assert_eq!(info.location_type(), "Physical");
    assert_eq!(info.name(), Some("HQ".to_owned()));
    assert_eq!(
        info.description(),
        Some(TextMessageContent::plain("second floor".to_owned()))
    );
    assert_eq!(
        info.icon(),
        Some(Icon {
            emoji: "🏢".to_owned()
        })
    );
    assert_eq!(info.coordinates(), Some("geo:51.5,-0.1".to_owned()));
    assert_eq!(info.uri(), None);

    let info = EventLocationInfo::new(&online());
    assert_eq!(info.location_type(), "Virtual");
    assert_eq!(info.name(), None);
    assert_eq!(info.coordinates(), None);
    assert_eq!(
        info.uri(),
        Some("https://meet.example.org/launch".to_owned())
    );
}

#[test]
fn a_flat_location_is_read_back() {
    for location in [physical(), online()] {
        let info = EventLocationInfo::new(&location);
        assert!(info.is_location());
        assert_eq!(EventLocation::from_info(&info), location);
        assert_eq!(EventLocation::try_from_info(&info), Some(location));
    }
}

#[test]
fn what_is_no_location_is_not_read() {
    let mut info = EventLocationInfo::new(&online());
    info.uri = None;
    assert!(!info.is_location());
    assert_eq!(EventLocation::try_from_info(&info), None);

    let mut info = EventLocationInfo::new(&physical());
    info.location_type = "Imaginary".to_owned();
    assert!(!info.is_location());
    assert_eq!(EventLocation::try_from_info(&info), None);
}

#[test]
fn the_coordinates_of_a_virtual_location_are_dropped() {
    let mut info = EventLocationInfo::new(&online());
    info.coordinates = Some("geo:0,0".to_owned());
    assert_eq!(EventLocation::from_info(&info), online());
}

#[test]
fn a_calendar_builder_needs_title_start_and_end() {
    assert_eq!(
        CalendarEventBuilder::default().build(),
        Err(CalendarEventBuilderError::UninitializedField("title"))
    );
    assert_eq!(
        CalendarEventBuilder::default()
            .title("Launch".to_owned())
            .utc_end(at(2))
            .build(),
        Err(CalendarEventBuilderError::UninitializedField("utc_start"))
    );
    assert_eq!(
        CalendarEventBuilder::default()
            .title("Launch".to_owned())
            .utc_start(at(1))
            .build(),
        Err(CalendarEventBuilderError::UninitializedField("utc_end"))
    );
    assert_eq!(
        CalendarEventUpdateBuilder::default()
            .title(Some("x".to_owned()))
            .build(),
        Err(CalendarEventBuilderError::UninitializedField(
            "calendar_event"
        ))
    );
}

#[test]
fn a_calendar_builder_fills_in_the_defaults() {
    let built = content();
    assert_eq!(
        built,
        CalendarEventEventContent {
            title: "Launch".to_owned(),
            icon: None,
            color: None,
            description: None,
            utc_start: at(1000),
            utc_end: at(2000),
            show_without_time: false,
            locations: vec![],
            keywords: vec![],
            categories: vec![],
        }
    );
    assert_eq!(built.title(), "Launch");
    assert_eq!(built.icon(), &None);
    assert_eq!(built.color(), &None);
    assert_eq!(built.description(), &None);
    assert_eq!(built.utc_start(), &at(1000));
    assert_eq!(built.utc_end(), &at(2000));
    assert_eq!(built.show_without_time(), &false);
    assert_eq!(built.locations(), &vec![]);
    assert_eq!(built.keywords(), &Vec::<String>::new());
    assert_eq!(built.categories(), &Vec::<String>::new());
}

#[test]
fn a_calendar_builder_takes_every_field() {
    let built = CalendarEventBuilder::default()
        .title("Launch".to_owned())
        .icon(Some(Icon {
            emoji: "🚀".to_owned(),
        }))
        .color(Some(Color { rgba: 0xff0000ff }))
        .description(Some(TextMessageContent::plain("We launch".to_owned())))
        .utc_start(at(1))
        .utc_end(at(2))
        .show_without_time(true)
        .locations(vec![physical()])
        .keywords(vec!["k".to_owned()])
        .categories(vec!["c".to_owned()])
        .build()
        .unwrap();
    assert_eq!(
        built,
        CalendarEventEventContent {
            title: "Launch".to_owned(),
            icon: Some(Icon {
                emoji: "🚀".to_owned()
            }),
            color: Some(Color { rgba: 0xff0000ff }),
            description: Some(TextMessageContent::plain("We launch".to_owned())),
            utc_start: at(1),
            utc_end: at(2),
            show_without_time: true,
            locations: vec![physical()],
            keywords: vec!["k".to_owned()],
            categories: vec!["c".to_owned()],
        }
    );
}

#[test]
fn a_location_is_added_to_the_builder() {
    let mut builder = CalendarEventBuilder::default();
    builder
        .title("Launch".to_owned())
        .utc_start(at(1))
        .utc_end(at(2))
        .locations(vec![physical()]);
    let copy = builder.into_event_loc(&EventLocationInfo::new(&online()));
    assert_eq!(
        builder.build().unwrap().locations,
        vec![physical(), online()]
    );
    assert_eq!(copy.build().unwrap().locations, vec![physical(), online()]);
}

#[test]
fn an_update_without_fields_changes_nothing() {
    let mut event = content();
    let update = empty_update("$e1");
    assert_eq!(update.apply(&mut event), Ok(false));
    assert_eq!(event, content());
}

#[test]
fn an_update_rewrites_the_fields_it_sets() {
    let mut event = CalendarEventBuilder::default()
        .title("Launch".to_owned())
        .description(Some(TextMessageContent::plain("We launch".to_owned())))
        .color(Some(Color { rgba: 1 }))
        .utc_start(at(1000))
        .utc_end(at(2000))
        .keywords(vec!["old".to_owned()])
        .build()
        .unwrap();
    let update = CalendarEventUpdateBuilder::default()
        .calendar_event(Update {
            event_id: "$e1".to_owned(),
        })
        .title(Some("Relaunch".to_owned()))
        .description(Some(None))
        .utc_end(Some(at(3000)))
        .icon(Some(Some(Icon {
            emoji: "🚀".to_owned(),
        })))
        .show_without_time(Some(true))
        .locations(Some(vec![online()]))
        .categories(Some(vec!["c".to_owned()]))
        .build()
        .unwrap();

    assert_eq!(update.apply(&mut event), Ok(true));

    assert_eq!(
        event,
        CalendarEventEventContent {
            title: "Relaunch".to_owned(),
            icon: Some(Icon {
                emoji: "🚀".to_owned()
            }),
            color: Some(Color { rgba: 1 }),
            description: None,
            utc_start: at(1000),
            utc_end: at(3000),
            show_without_time: true,
            locations: vec![online()],
            keywords: vec!["old".to_owned()],
            categories: vec!["c".to_owned()],
        }
    );
    let once = event.clone();
    assert_eq!(update.apply(&mut event), Ok(true));
    assert_eq!(event, once);
}

#[test]
fn an_update_of_one_field_reports_a_change() {
    let mut event = content();
    let update = CalendarEventUpdateBuilder::default()
        .calendar_event(Update {
            event_id: "$e1".to_owned(),
        })
        .color(Some(None))
        .build()
        .unwrap();
    assert_eq!(update.apply(&mut event), Ok(true));
    assert_eq!(event, content());

    let update = CalendarEventUpdateBuilder::default()
        .calendar_event(Update {
            event_id: "$e1".to_owned(),
        })
        .utc_start(Some(at(5)))
        .keywords(Some(vec![]))
        .build()
        .unwrap();
    assert_eq!(update.apply(&mut event), Ok(true));
    assert_eq!(event.utc_start, at(5));
}

#[test]
fn a_calendar_event_is_filed_under_the_calendar() {
    let event = CalendarEvent {
        inner: content(),
        meta: meta("$e1"),
    };
    assert_eq!(event.event_id(), "$e1");
    assert_eq!(event.room_id(), "!room:example.org");
    assert_eq!(
        event.capabilities(),
        vec![
            Capability::Commentable,
            Capability::Reactable,
            Capability::Attachmentable
        ]
    );
    assert_eq!(
        event.indizes(&"@me:x".to_owned()),
        vec![
            "calendar".to_owned(),
            "!room:example.org::calendar".to_owned()
        ]
    );
    assert_eq!(event.belongs_to(), None);

    let update = CalendarEventUpdate {
        inner: empty_update("$e1"),
        meta: meta("$u1"),
    };
    assert_eq!(update.event_id(), "$u1");
    assert_eq!(update.capabilities(), vec![]);
    assert_eq!(
        update.indizes(&"@me:x".to_owned()),
        vec!["$e1::history".to_owned()]
    );
    assert_eq!(update.belongs_to(), Some(vec!["$e1".to_owned()]));
}

#[test]
fn an_update_is_merged_into_the_stored_event() {
    let mut executor = Executor::new(Store::new("@me:example.org".to_owned())).unwrap();
    executor
        .handle(
            CalendarEvent {
                inner: content(),
                meta: meta("$e1"),
            }
            .into(),
        )
        .unwrap();
    let mut on_event = executor.subscribe("$e1".to_owned());
    let mut on_calendar = executor.subscribe("calendar".to_owned());
    let mut on_history = executor.subscribe("$e1::history".to_owned());
    let update = CalendarEventUpdate {
        inner: CalendarEventUpdateBuilder::default()
            .calendar_event(Update {
                event_id: "$e1".to_owned(),
            })
            .title(Some("Relaunch".to_owned()))
            .build()
            .unwrap(),
        meta: meta("$u1"),
    };

    executor.handle(update.clone().into()).unwrap();

    let AnyActerModel::CalendarEvent(stored) = executor.store().get(&"$e1".to_owned()).unwrap()
    else {
        panic!("Not a calendar event");
    };
    assert_eq!(stored.inner.title, "Relaunch");
    assert_eq!(stored.inner.utc_start, at(1000));
    assert_eq!(stored.meta, meta("$e1"));
    assert_eq!(
        executor.store().get(&"$u1".to_owned()),
        Ok(AnyActerModel::CalendarEventUpdate(update.clone()))
    );
    assert_eq!(
        executor.store().get_list(&"$e1::history".to_owned()),
        Ok(vec![AnyActerModel::CalendarEventUpdate(update)])
    );
    assert_eq!(
        executor
            .store()
            .get_list(&"calendar".to_owned())
            .unwrap()
            .len(),
        1
    );
    assert_eq!(on_event.try_recv(), Ok(()));
    assert_eq!(on_event.try_recv(), Err(TryRecvError::Empty));
    assert_eq!(on_calendar.try_recv(), Ok(()));
    assert_eq!(on_history.try_recv(), Ok(()));
}

#[test]
fn an_update_that_sets_nothing_still_wakes_the_event() {
    let mut store = Store::new("@me:example.org".to_owned());
    let event = CalendarEvent {
        inner: content(),
        meta: meta("$e1"),
    };
    store.save(event.clone().into()).unwrap();
    let update = CalendarEventUpdate {
        inner: empty_update("$e1"),
        meta: meta("$u1"),
    };

    let keys = update.execute(&mut store);

    assert_eq!(
        keys,
        Ok(vec![
            "$u1".to_owned(),
            "$e1::history".to_owned(),
            "$e1".to_owned()
        ])
    );
    assert_eq!(
        store.get(&"$e1".to_owned()),
        Ok(AnyActerModel::CalendarEvent(event))
    );
}

#[test]
fn the_keys_of_a_merged_update_come_once_each() {
    let mut store = Store::new("@me:example.org".to_owned());
    store
        .save(
            CalendarEvent {
                inner: content(),
                meta: meta("$e1"),
            }
            .into(),
        )
        .unwrap();
    let update = CalendarEventUpdate {
        inner: CalendarEventUpdateBuilder::default()
            .calendar_event(Update {
                event_id: "$e1".to_owned(),
            })
            .show_without_time(Some(true))
            .build()
            .unwrap(),
        meta: meta("$u1"),
    };
    assert_eq!(
        update.execute(&mut store),
        Ok(vec![
            "$u1".to_owned(),
            "$e1::history".to_owned(),
            "$e1".to_owned(),
            "calendar".to_owned(),
            "!room:example.org::calendar".to_owned(),
        ])
    );
}

#[test]
fn an_update_of_a_missing_event_fails_and_stores_nothing() {
    let mut executor = Executor::new(Store::new("@me:example.org".to_owned())).unwrap();
    let mut on_event = executor.subscribe("$e1".to_owned());
    let update = CalendarEventUpdate {
        inner: empty_update("$e1"),
        meta: meta("$u1"),
    };

    assert_eq!(executor.handle(update.into()), Err(Error::NotFound));

    assert_eq!(on_event.try_recv(), Err(TryRecvError::Empty));
    assert_eq!(executor.store().get(&"$u1".to_owned()), Err(Error::NotFound));
    assert_eq!(
        executor.store().get_list(&"$e1::history".to_owned()),
        Ok(vec![])
    );
}

#[test]
fn only_an_update_changes_a_calendar_event() {
    let mut event = CalendarEvent {
        inner: content(),
        meta: meta("$e1"),
    };
    let other: AnyActerModel = TestModelBuilder::default()
        .simple()
        .build()
        .unwrap()
        .into();
    assert_eq!(event.transition(&other), Ok(false));
    assert_eq!(event.inner, content());

    let update: AnyActerModel = CalendarEventUpdate {
        inner: CalendarEventUpdateBuilder::default()
            .calendar_event(Update {
                event_id: "$e1".to_owned(),
            })
            .title(Some("Relaunch".to_owned()))
            .build()
            .unwrap(),
        meta: meta("$u1"),
    }
    .into();
    assert_eq!(event.transition(&update), Ok(true));
    assert_eq!(event.inner.title, "Relaunch");

    let mut any: AnyActerModel = event.clone().into();
    assert_eq!(any.transition(&update), Ok(true));
    assert_eq!(any, AnyActerModel::CalendarEvent(event));
}
