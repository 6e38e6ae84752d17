use acter_executor::attachments::{
    attachments_of, Attachment, AttachmentContent, AttachmentDraft, AttachmentEventContent,
    AttachmentsManager, AttachmentsStats,
};
use acter_executor::client::Client;
use acter_executor::content::BelongsTo;
use acter_executor::error::{BuilderError, Error, RoomError};
use acter_executor::executor::{Executor, Wake};
use acter_executor::media::{AudioInfo, FileInfo, ImageInfo, VideoInfo, MAX_SAFE_UINT};
use acter_executor::models::{ActerModel, AnyActerModel, EventMeta, ExecutableModel};
use acter_executor::store::{RawValue, Store};
use acter_executor::tasks::{TaskList, TaskListDraft};
use acter_executor::test_model::TestModelBuilder;
use async_broadcast::TryRecvError;

fn s(text: &str) -> String {
    text.to_owned()
}

fn meta(event_id: &str) -> EventMeta {
    EventMeta {
        event_id: s(event_id),
        sender: s("@author:example.org"),
        origin_server_ts: 77,
        room_id: s("!room:example.org"),
    }
}

fn list(event_id: &str) -> TaskList {
    TaskList {
        inner: TaskListDraft::new().name(s("Chores")).build().unwrap(),
        meta: meta(event_id),
    }
}

fn place(event_id: &str, on: &str) -> Attachment {
    Attachment {
        inner: AttachmentEventContent {
            on: BelongsTo { event_id: s(on) },
            content: AttachmentContent::Location {
                body: s("the shed"),
                geo_uri: s("geo:51.5,-0.1"),
            },
        },
        meta: meta(event_id),
    }
}

fn file(event_id: &str, on: &str) -> Attachment {
    Attachment {
        inner: AttachmentEventContent {
            on: BelongsTo { event_id: s(on) },
            content: AttachmentContent::File {
                body: s("the plan"),
                url: s("mxc://x/plan"),
                info: None,
            },
        },
        meta: meta(event_id),
    }
}

#[test]
fn an_attachment_answers_for_itself() {
    let plan = file("$a1", "$list");
    assert_eq!(plan.type_str(), "file");
    assert_eq!(plan.sender(), "@author:example.org");
    assert_eq!(plan.origin_server_ts(), 77);
    assert_eq!(plan.source(), Some(s("mxc://x/plan")));
    assert_eq!(plan.event_id(), "$a1");
    assert_eq!(plan.indizes(&s("@me:x")), vec!["$list::attachments"]);
    assert_eq!(plan.belongs_to(), None);
    assert_eq!(Attachment::index_for("$list"), "$list::attachments");

    let shed = place("$a2", "$list");
    assert_eq!(shed.type_str(), "location");
    assert_eq!(shed.source(), None);

    for (content, kind) in [
        (
            AttachmentContent::Image {
                body: s("b"),
                url: s("u"),
                info: None,
            },
            "image",
        ),
        (
            AttachmentContent::Audio {
                body: s("b"),
                url: s("u"),
                info: None,
            },
            "audio",
        ),
        (
            AttachmentContent::Video {
                body: s("b"),
                url: s("u"),
                info: None,
            },
            "video",
        ),
    ] {
        assert_eq!(content.type_str(), kind);
        assert_eq!(content.source(), Some(s("u")));
        assert_eq!(content.clone(), content);
    }
}

#[test]
fn every_attachment_is_counted() {
    let mut executor = Executor::new(Store::new(s("@me:example.org"))).unwrap();
    executor.handle(list("$list").into()).unwrap();
    let mut on_index = executor.subscribe(s("$list::attachments"));
    let mut on_stats = executor.subscribe(s("$list::attachments_stats"));
    let mut on_list = executor.subscribe(s("$list"));

    executor.handle(file("$a1", "$list").into()).unwrap();
    assert_eq!(on_index.try_recv(), Ok(()));
    assert_eq!(on_stats.try_recv(), Ok(()));
    executor.handle(place("$a2", "$list").into()).unwrap();
    assert_eq!(on_index.try_recv(), Ok(()));
    assert_eq!(on_stats.try_recv(), Ok(()));
    assert_eq!(on_list.try_recv(), Err(TryRecvError::Empty));

    let manager = list("$list").attachments(executor.store());
    assert!(manager.has_attachments());
    assert_eq!(manager.attachments_count(), 2);
    assert_eq!(
        manager.stats(),
        AttachmentsStats {
            has_attachments: true,
            total_attachments_count: 2
        }
    );
    assert_eq!(manager.stats().has_attachments(), &true);
    assert_eq!(manager.stats().total_attachments_count(), &2);
    assert_eq!(manager.event_id(), "$list");
    assert_eq!(manager.update_key(), "$list::attachments_stats");
    assert_eq!(
        manager.attachments(executor.store()),
        Ok(vec![file("$a1", "$list"), place("$a2", "$list")])
    );
    assert_eq!(
        executor.store().get_raw(&s("$list::attachments_stats")),
        Ok(RawValue::Attachments(AttachmentsStats {
            has_attachments: true,
            total_attachments_count: 2
        }))
    );
    assert_eq!(
        RawValue::Attachments(AttachmentsStats::default()).into_attachments(),
        Ok(AttachmentsStats::default())
    );
    assert_eq!(
        RawValue::Attachments(AttachmentsStats::default()).into_comments(),
        Err(Error::Serialization)
    );
}

#[test]
fn an_attachment_needs_its_model() {
    let mut store = Store::new(s("@me:example.org"));
    assert_eq!(
        file("$a1", "$list").execute(&mut store),
        Err(Error::NotFound)
    );
    assert_eq!(store.get(&s("$a1")), Err(Error::NotFound));

    // a test model takes no attachments
    store
        .save(TestModelBuilder::default().simple().build().unwrap().into())
        .unwrap();
    assert_eq!(file("$a1", "$asdefttg").execute(&mut store), Ok(vec![]));
    assert_eq!(store.get(&s("$a1")), Err(Error::NotFound));

    store.save(list("$list").into()).unwrap();
    assert_eq!(
        file("$a1", "$list").execute(&mut store),
        Ok(vec![s("$list::attachments"), s("$list::attachments_stats")])
    );
    assert_eq!(
        store.get(&s("$a1")),
        Ok(AnyActerModel::Attachment(file("$a1", "$list")))
    );
}

#[test]
fn the_count_of_attachments_stops_at_the_largest_number() {
    let mut store = Store::new(s("@me:example.org"));
    store
        .set_raw(
            &s("$list::attachments_stats"),
            &RawValue::Attachments(AttachmentsStats {
                has_attachments: true,
                total_attachments_count: u32::MAX,
            }),
        )
        .unwrap();
    let mut manager = AttachmentsManager::from_store_and_event_id(&store, &s("$list"));
    assert_eq!(manager.add_attachment(&file("$a1", "$list")), Ok(true));
    assert_eq!(manager.attachments_count(), u32::MAX);
    assert_eq!(manager.save(&mut store), Ok(s("$list::attachments_stats")));
}

#[test]
fn only_who_joined_may_attach() {
    let store = Store::new(s("@me:example.org"));
    let manager = AttachmentsManager::from_store_and_event_id(&store, &s("$list"));
    assert!(!manager.has_attachments());
    assert_eq!(manager.attachments_count(), 0);

    assert_eq!(
        manager.attachment_draft(false).unwrap_err(),
        RoomError::CannotAttach
    );
    assert_eq!(
        manager
            .image_attachment_draft(false, s("b"), s("u"), None, None, None, None, None)
            .unwrap_err(),
        RoomError::CannotAttach
    );
    assert_eq!(
        manager
            .audio_attachment_draft(false, s("b"), s("u"), None, None, None)
            .unwrap_err(),
        RoomError::CannotAttach
    );
    assert_eq!(
        manager
            .video_attachment_draft(false, s("b"), s("u"), None, None, None, None, None, None)
            .unwrap_err(),
        RoomError::CannotAttach
    );
    assert_eq!(
        manager
            .file_attachment_draft(false, s("b"), s("u"), None, None)
            .unwrap_err(),
        RoomError::CannotAttach
    );
    assert_eq!(
        RoomError::CannotAttach.message(),
        "Can only attachment in joined rooms"
    );
}

#[test]
fn a_draft_attaches_what_it_was_given() {
    let store = Store::new(s("@me:example.org"));
    let manager = AttachmentsManager::from_store_and_event_id(&store, &s("$list"));

    let empty = manager.attachment_draft(true).unwrap();
    assert_eq!(
        empty.build(),
        Err(BuilderError::UninitializedField("content"))
    );
    let mut draft = AttachmentDraft::new(s("$list"));
    draft.content(AttachmentContent::Location {
        body: s("the shed"),
        geo_uri: s("geo:51.5,-0.1"),
    });
    assert_eq!(draft.build(), Ok(place("$a2", "$list").inner));

    let image = manager
        .image_attachment_draft(
            true,
            s("a bird"),
            s("mxc://x/bird"),
            Some(s("image/png")),
            Some(10),
            Some(4),
            Some(MAX_SAFE_UINT + 1),
            None,
        )
        .unwrap()
        .build()
        .unwrap();
    assert_eq!(
        image,
        AttachmentEventContent {
            on: BelongsTo {
                event_id: s("$list")
            },
            content: AttachmentContent::Image {
                body: s("a bird"),
                url: s("mxc://x/bird"),
                info: Some(ImageInfo {
                    height: None,
                    width: Some(4),
                    mimetype: Some(s("image/png")),
                    size: Some(10),
                    blurhash: None,
                }),
            },
        }
    );
    let audio = manager
        .audio_attachment_draft(true, s("a song"), s("mxc://x/song"), None, Some(9), Some(180))
        .unwrap()
        .build()
        .unwrap();
    assert_eq!(
        audio.content,
        AttachmentContent::Audio {
            body: s("a song"),
            url: s("mxc://x/song"),
            info: Some(AudioInfo {
                duration_secs: Some(180),
                mimetype: None,
                size: Some(9),
            }),
        }
    );
    let video = manager
        .video_attachment_draft(
            true,
            s("a film"),
            s("mxc://x/film"),
            Some(s("video/mp4")),
            Some(5),
            Some(5400),
            Some(1280),
            Some(720),
            Some(s("LEHV6nWB2y")),
        )
        .unwrap()
        .build()
        .unwrap();
    assert_eq!(
        video.content,
        AttachmentContent::Video {
            body: s("a film"),
            url: s("mxc://x/film"),
            info: Some(VideoInfo {
                duration_secs: Some(5400),
                height: Some(720),
                width: Some(1280),
                mimetype: Some(s("video/mp4")),
                size: Some(5),
                blurhash: Some(s("LEHV6nWB2y")),
            }),
        }
    );
    let file = manager
        .file_attachment_draft(true, s("the plan"), s("mxc://x/plan"), None, Some(u64::MAX))
        .unwrap()
        .build()
        .unwrap();
    assert_eq!(
        file.content,
        AttachmentContent::File {
            body: s("the plan"),
            url: s("mxc://x/plan"),
            info: Some(FileInfo {
                mimetype: None,
                size: None,
            }),
        }
    );
}

#[test]
fn a_wait_for_an_attachment_takes_nothing_else() {
    let mut client = Client::new(Executor::new(Store::new(s("@me:x"))).unwrap());
    client.handle(list("$list").into()).unwrap();
    client.handle(file("$a1", "$list").into()).unwrap();
    assert_eq!(
        client.finish_wait_for_attachment(&s("$a1"), Wake::Signalled),
        Ok(file("$a1", "$list"))
    );
    assert_eq!(
        client.finish_wait_for_attachment(&s("$list"), Wake::Signalled),
        Err(Error::Serialization)
    );
    assert_eq!(
        client.finish_wait_for_attachment(&s("$none"), Wake::Signalled),
        Err(Error::NotFound)
    );
    assert_eq!(
        client.finish_wait_for_attachment(&s("$a1"), Wake::DeadlineElapsed),
        Err(Error::Timeout)
    );
    let mixed = vec![
        AnyActerModel::Attachment(file("$a1", "$list")),
        list("$list").into(),
    ];
    assert_eq!(attachments_of(&mixed), vec![file("$a1", "$list")]);
}

#[test]
fn a_model_hands_out_receivers_for_itself() {
    let mut client = Client::new(Executor::new(Store::new(s("@me:x"))).unwrap());
    let chores = list("$list");
    let mut on_list = chores.subscribe(&mut client);
    client.handle(chores.clone().into()).unwrap();
    assert_eq!(on_list.try_recv(), Ok(()));

    let manager = chores.attachments(client.store());
    let mut on_attachments = manager.subscribe(&mut client);
    client.handle(file("$a1", "$list").into()).unwrap();
    assert_eq!(on_attachments.try_recv(), Ok(()));
    assert_eq!(on_list.try_recv(), Err(TryRecvError::Empty));
}

#[test]
fn an_attachment_is_not_counted_while_the_backend_is_down() {
    let mut executor = Executor::new(Store::new(s("@me:example.org"))).unwrap();
    executor.handle(list("$list").into()).unwrap();
    executor.handle(file("$a1", "$list").into()).unwrap();
    let mut on_stats = executor.subscribe(s("$list::attachments_stats"));

    executor.store_mut().set_available(false);
    assert_eq!(
        executor.handle(place("$a2", "$list").into()),
        Err(Error::StoreBackend)
    );
    assert_eq!(executor.store().get(&s("$a2")), Err(Error::NotFound));
    assert_eq!(
        executor.store().get_raw(&s("$list::attachments_stats")),
        Ok(RawValue::Attachments(AttachmentsStats {
            has_attachments: true,
            total_attachments_count: 1
        }))
    );
    assert_eq!(on_stats.try_recv(), Err(TryRecvError::Empty));
    let manager = list("$list").attachments(executor.store());
    assert_eq!(manager.attachments_count(), 1);
    assert_eq!(
        manager.save(executor.store_mut()),
        Err(Error::StoreBackend)
    );
    assert_eq!(
        manager.attachments(executor.store()),
        Err(Error::StoreBackend)
    );

    executor.store_mut().set_available(true);
    executor.handle(place("$a2", "$list").into()).unwrap();
    assert_eq!(on_stats.try_recv(), Ok(()));
    assert_eq!(
        manager.attachments(executor.store()),
        Ok(vec![file("$a1", "$list"), place("$a2", "$list")])
    );
}
