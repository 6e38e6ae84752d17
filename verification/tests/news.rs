use acter_executor::content::{Color, Update};
use acter_executor::error::{BuilderError, Error, RoomError};
use acter_executor::executor::Executor;
use acter_executor::media::{
    safe_uint, AudioInfo, FileInfo, ImageInfo, VideoInfo, MAX_SAFE_UINT,
};
use acter_executor::models::{ActerModel, AnyActerModel, EventMeta, ExecutableModel};
use acter_executor::news::{
    latest_known_news, latest_news, AudioDesc, Colorize, FileDesc, ImageDesc, NewsContent,
    NewsEntry, NewsEntryDraft,
    NewsEntryEventContent, NewsEntryUpdate, NewsEntryUpdateBuilder, NewsEntryUpdateEventContent,
    NewsSlide, VideoDesc,
};
use acter_executor::spaces::Space;
use acter_executor::store::Store;
use acter_executor::tasks::{
    Task, TaskDraft, TaskList, TaskListDraft, TaskListUpdate, TaskUpdate,
    TaskUpdateBuilder,
};
use async_broadcast::TryRecvError;

fn s(text: &str) -> String {
    text.to_owned()
}

fn meta(event_id: &str) -> EventMeta {
    EventMeta {
        event_id: event_id.to_owned(),
        sender: "@author:example.org".to_owned(),
        origin_server_ts: 1,
        room_id: "!room:example.org".to_owned(),
    }
}

#[test]
fn a_number_is_kept_as_far_as_json_holds_it() {
    assert_eq!(MAX_SAFE_UINT, 9_007_199_254_740_991);
    assert_eq!(safe_uint(None), None);
    assert_eq!(safe_uint(Some(0)), Some(0));
    assert_eq!(safe_uint(Some(MAX_SAFE_UINT)), Some(MAX_SAFE_UINT));
    assert_eq!(safe_uint(Some(MAX_SAFE_UINT + 1)), None);
    assert_eq!(safe_uint(Some(u64::MAX)), None);
}

#[test]
fn an_info_leaves_out_what_json_cannot_hold() {
    assert_eq!(
        ImageInfo::new(
            Some(s("image/png")),
            Some(1024),
            Some(MAX_SAFE_UINT + 1),
            Some(600),
            Some(s("LEHV6nWB2y"))
        ),
        ImageInfo {
            height: Some(600),
            width: None,
            mimetype: Some(s("image/png")),
            size: Some(1024),
            blurhash: Some(s("LEHV6nWB2y")),
        }
    );
    assert_eq!(
        AudioInfo::new(Some(u64::MAX), None, Some(u64::MAX)),
        AudioInfo {
            duration_secs: Some(u64::MAX),
            mimetype: None,
            size: None,
        }
    );
    assert_eq!(
        VideoInfo::new(Some(90), Some(720), Some(1280), Some(s("video/mp4")), Some(5), None),
        VideoInfo {
            duration_secs: Some(90),
            height: Some(720),
            width: Some(1280),
            mimetype: Some(s("video/mp4")),
            size: Some(5),
            blurhash: None,
        }
    );
    assert_eq!(
        FileInfo::new(Some(s("application/pdf")), Some(u64::MAX)),
        FileInfo {
            mimetype: Some(s("application/pdf")),
            size: None,
        }
    );
}

#[test]
fn a_draft_collects_its_slides_in_order() {
    let mut draft = NewsEntryDraft::new();
    draft
        .add_text_slide(s("This is text slide"))
        .add_image_slide(
            s("a bird"),
            s("mxc://x/bird"),
            Some(s("image/jpg")),
            Some(10),
            Some(4),
            Some(3),
            None,
        )
        .add_audio_slide(s("a song"), s("mxc://x/song"), Some(180), None, None)
        .add_video_slide(
            s("a film"),
            s("mxc://x/film"),
            Some(5400),
            Some(720),
            Some(1280),
            Some(s("video/mp4")),
            Some(u64::MAX),
            None,
        )
        .add_file_slide(s("a paper"), s("mxc://x/paper"), None, Some(77))
        .colors(Colorize {
            color: Some(Color { rgba: 1 }),
            background: None,
        });
    let built = draft.build();
    assert_eq!(
        built,
        NewsEntryEventContent {
            slides: vec![
                NewsSlide::new_text(s("This is text slide")),
                NewsSlide::new_image(
                    s("a bird"),
                    s("mxc://x/bird"),
                    Some(ImageInfo {
                        height: Some(3),
                        width: Some(4),
                        mimetype: Some(s("image/jpg")),
                        size: Some(10),
                        blurhash: None,
                    })
                ),
                NewsSlide::new_audio(
                    s("a song"),
                    s("mxc://x/song"),
                    Some(AudioInfo {
                        duration_secs: Some(180),
                        mimetype: None,
                        size: None,
                    })
                ),
                NewsSlide::new_video(
                    s("a film"),
                    s("mxc://x/film"),
                    Some(VideoInfo {
                        duration_secs: Some(5400),
                        height: Some(720),
                        width: Some(1280),
                        mimetype: Some(s("video/mp4")),
                        size: None,
                        blurhash: None,
                    })
                ),
                NewsSlide::new_file(
                    s("a paper"),
                    s("mxc://x/paper"),
                    Some(FileInfo {
                        mimetype: None,
                        size: Some(77),
                    })
                ),
            ],
            colors: Some(Colorize {
                color: Some(Color { rgba: 1 }),
                background: None
            }),
        }
    );
    let kinds: Vec<String> = built.slides.iter().map(|slide| slide.type_str()).collect();
    assert_eq!(kinds, vec!["text", "image", "audio", "video", "file"]);

    draft.unset_slides().unset_colors();
    assert_eq!(
        draft.build(),
        NewsEntryEventContent {
            slides: vec![],
            colors: None
        }
    );
    assert_eq!(
        NewsEntryDraft::new().build(),
        NewsEntryEventContent {
            slides: vec![],
            colors: None
        }
    );
}

#[test]
fn a_slide_describes_its_media_when_something_is_known() {
    let image = NewsSlide::new_image(
        s("a bird"),
        s("mxc://x/bird"),
        Some(ImageInfo::new(Some(s("image/png")), None, None, None, None)),
    );
    assert_eq!(
        image.image_desc(),
        Some(ImageDesc::new(
            s("a bird"),
            s("mxc://x/bird"),
            ImageInfo::new(Some(s("image/png")), None, None, None, None)
        ))
    );
    assert_eq!(image.audio_desc(), None);
    assert_eq!(image.video_desc(), None);
    assert_eq!(image.file_desc(), None);

    let bare = NewsSlide::new_image(s("a bird"), s("mxc://x/bird"), None);
    assert_eq!(bare.image_desc(), None);

    let audio = NewsSlide::new_audio(
        s("a song"),
        s("mxc://x/song"),
        Some(AudioInfo::new(Some(3), None, None)),
    );
    assert_eq!(
        audio.audio_desc(),
        Some(AudioDesc::new(
            s("a song"),
            s("mxc://x/song"),
            AudioInfo::new(Some(3), None, None)
        ))
    );
    let video = NewsSlide::new_video(
        s("a film"),
        s("mxc://x/film"),
        Some(VideoInfo::new(None, None, None, None, None, None)),
    );
    assert_eq!(
        video.video_desc(),
        Some(VideoDesc::new(
            s("a film"),
            s("mxc://x/film"),
            VideoInfo::new(None, None, None, None, None, None)
        ))
    );
    let file = NewsSlide::new_file(
        s("a paper"),
        s("mxc://x/paper"),
        Some(FileInfo::new(None, Some(4))),
    );
    assert_eq!(
        file.file_desc(),
        Some(FileDesc::new(
            s("a paper"),
            s("mxc://x/paper"),
            FileInfo::new(None, Some(4))
        ))
    );
    assert_eq!(NewsSlide::new_text(s("text")).image_desc(), None);
    assert_eq!(NewsSlide::new_text(s("text")).file_desc(), None);
    let copy = NewsContent::Image {
        body: s("b"),
        url: s("u"),
        info: Some(ImageInfo::new(None, Some(1), None, None, None)),
    };
    assert_eq!(copy.clone(), copy);
}

#[test]
fn a_news_update_changes_clears_or_leaves() {
    assert_eq!(
        NewsEntryUpdateBuilder::new().unset_slides().build(),
        Err(BuilderError::UninitializedField("news_entry"))
    );
    let mut builder = NewsEntryUpdateBuilder::new();
    builder.news_entry(Update {
        event_id: s("$n1"),
    });
    assert_eq!(
        builder.build(),
        Ok(NewsEntryUpdateEventContent {
            news_entry: Update {
                event_id: s("$n1")
            },
            slides: None,
            colors: None,
        })
    );
    builder
        .slides(vec![NewsSlide::new_text(s("new"))])
        .colors(Colorize {
            color: None,
            background: Some(Color { rgba: 7 }),
        });
    let built = builder.build().unwrap();
    assert_eq!(built.slides, Some(vec![NewsSlide::new_text(s("new"))]));
    assert_eq!(
        built.colors,
        Some(Some(Colorize {
            color: None,
            background: Some(Color { rgba: 7 })
        }))
    );
    builder.unset_slides().unset_colors();
    let built = builder.build().unwrap();
    assert_eq!(built.slides, Some(vec![]));
    assert_eq!(built.colors, Some(None));
    builder.unset_slides_update().unset_colors_update();
    let built = builder.build().unwrap();
    assert_eq!(built.slides, None);
    assert_eq!(built.colors, None);
}

#[test]
fn a_news_update_is_merged_into_the_stored_entry() {
    let mut executor = Executor::new(Store::new(s("@me:example.org"))).unwrap();
    let entry = NewsEntry {
        inner: NewsEntryDraft::new().add_text_slide(s("old")).build(),
        meta: meta("$n1"),
    };
    executor.handle(entry.clone().into()).unwrap();
    let mut on_entry = executor.subscribe(s("$n1"));
    let mut on_news = executor.subscribe(s("news"));
    let update = NewsEntryUpdate {
        inner: entry
            .update_builder(true)
            .unwrap()
            .slides(vec![NewsSlide::new_text(s("new"))])
            .build()
            .unwrap(),
        meta: meta("$u1"),
    };
    assert_eq!(update.belongs_to(), Some(vec![s("$n1")]));
    assert_eq!(update.indizes(&s("@me:x")), vec![s("$n1::history")]);

    executor.handle(update.clone().into()).unwrap();

    let AnyActerModel::NewsEntry(stored) = executor.store().get(&s("$n1")).unwrap() else {
        panic!("Not a news entry");
    };
    assert_eq!(stored.inner.slides, vec![NewsSlide::new_text(s("new"))]);
    assert_eq!(stored.inner.colors, None);
    assert_eq!(stored.meta, meta("$n1"));
    assert_eq!(on_entry.try_recv(), Ok(()));
    assert_eq!(on_entry.try_recv(), Err(TryRecvError::Empty));
    assert_eq!(on_news.try_recv(), Ok(()));

    // an update that sets nothing saves nothing but itself
    let idle = NewsEntryUpdate {
        inner: entry.update_builder(true)
            .unwrap().build().unwrap(),
        meta: meta("$u2"),
    };
    let mut store = Store::new(s("@me:example.org"));
    store.save(entry.clone().into()).unwrap();
    assert_eq!(
        idle.execute(&mut store),
        Ok(vec![s("$u2"), s("$n1::history"), s("$n1")])
    );
    assert_eq!(store.get(&s("$n1")), Ok(AnyActerModel::NewsEntry(entry)));
}

#[test]
fn a_task_update_is_merged_into_the_stored_task() {
    let mut executor = Executor::new(Store::new(s("@me:example.org"))).unwrap();
    let list = TaskList {
        inner: TaskListDraft::new().name(s("Chores")).build().unwrap(),
        meta: meta("$list"),
    };
    let task = Task {
        inner: TaskDraft::new()
            .task_list_id(s("$list"))
            .title(s("Dishes"))
            .sort_order(3)
            .build()
            .unwrap(),
        meta: meta("$task"),
    };
    executor.handle(list.clone().into()).unwrap();
    executor.handle(task.clone().into()).unwrap();
    let mut on_task = executor.subscribe(s("$task"));
    let mut on_list = executor.subscribe(s("$list"));
    let mut on_tasks = executor.subscribe(s("$list::tasks"));

    let done = TaskUpdate {
        inner: task.update_builder(true)
            .unwrap().mark_done().build().unwrap(),
        meta: meta("$done"),
    };
    executor.handle(done.into()).unwrap();

    let AnyActerModel::Task(stored) = executor.store().get(&s("$task")).unwrap() else {
        panic!("Not a task");
    };
    assert!(stored.is_done());
    assert_eq!(stored.title(), "Dishes");
    assert_eq!(stored.sort_order(), 3);
    assert_eq!(stored.inner.task_list_id, "$list");
    assert_eq!(on_task.try_recv(), Ok(()));
    // the index of the tasks of the list hears of the change, the list does not
    assert_eq!(on_tasks.try_recv(), Ok(()));
    assert_eq!(on_list.try_recv(), Err(TryRecvError::Empty));

    let renamed = TaskListUpdate {
        inner: list
            .update_builder(true)
            .unwrap()
            .name(s("Errands"))
            .unset_description()
            .build()
            .unwrap(),
        meta: meta("$renamed"),
    };
    executor.handle(renamed.into()).unwrap();
    let AnyActerModel::TaskList(stored) = executor.store().get(&s("$list")).unwrap() else {
        panic!("Not a task list");
    };
    assert_eq!(stored.name(), "Errands");
    assert_eq!(stored.description_text(), None);
    assert_eq!(on_list.try_recv(), Ok(()));
    assert_eq!(stored.tasks(executor.store()).unwrap().len(), 1);
}

#[test]
fn an_update_of_another_kind_changes_nothing() {
    let mut store = Store::new(s("@me:example.org"));
    let list = TaskList {
        inner: TaskListDraft::new().name(s("Chores")).build().unwrap(),
        meta: meta("$list"),
    };
    store.save(list.clone().into()).unwrap();
    // a task update that points at a task list
    let stray = TaskUpdate {
        inner: TaskUpdateBuilder::new()
            .task(Update {
                event_id: s("$list"),
            })
            .title(s("Hijack"))
            .build()
            .unwrap(),
        meta: meta("$stray"),
    };
    assert_eq!(
        stray.execute(&mut store),
        Ok(vec![s("$stray"), s("$list::history"), s("$list")])
    );
    assert_eq!(store.get(&s("$list")), Ok(AnyActerModel::TaskList(list)));

    let missing = TaskUpdate {
        inner: TaskUpdateBuilder::new()
            .task(Update {
                event_id: s("$nowhere"),
            })
            .build()
            .unwrap(),
        meta: meta("$missing"),
    };
    assert_eq!(missing.execute(&mut store), Err(Error::NotFound));
    assert_eq!(store.get(&s("$missing")), Err(Error::NotFound));
}

#[test]
fn only_who_joined_may_update_news() {
    let entry = NewsEntry {
        inner: NewsEntryDraft::new().build(),
        meta: meta("$n1"),
    };
    assert_eq!(
        entry.update_builder(false).unwrap_err(),
        RoomError::CannotUpdateNews
    );
    let mut draft = NewsEntryDraft::new();
    draft.add_text_slide(s("kept"));
    let space = Space::new(s("!room:example.org"));
    assert_eq!(
        space
            .news_draft_with_builder(true, draft)
            .unwrap()
            .build()
            .slides,
        vec![NewsSlide::new_text(s("kept"))]
    );
    assert_eq!(
        space
            .news_draft_with_builder(false, NewsEntryDraft::new())
            .unwrap_err(),
        RoomError::CannotCreateNews
    );
}

#[test]
fn an_update_writes_everything_or_nothing() {
    let mut store = Store::new(s("@me:example.org"));
    let entry = NewsEntry {
        inner: NewsEntryDraft::new().add_text_slide(s("old")).build(),
        meta: meta("$n1"),
    };
    store.save(entry.clone().into()).unwrap();
    let update = NewsEntryUpdate {
        inner: entry
            .update_builder(true)
            .unwrap()
            .slides(vec![NewsSlide::new_text(s("new"))])
            .build()
            .unwrap(),
        meta: meta("$u1"),
    };

    store.set_available(false);
    assert_eq!(update.clone().execute(&mut store), Err(Error::StoreBackend));
    // neither the update nor the merged entry was written
    assert_eq!(store.get(&s("$u1")), Err(Error::NotFound));
    assert_eq!(
        store.get(&s("$n1")),
        Ok(AnyActerModel::NewsEntry(entry.clone()))
    );
    // what is missing is reported before the backend is asked
    let missing = TaskUpdate {
        inner: TaskUpdateBuilder::new()
            .task(Update {
                event_id: s("$nowhere"),
            })
            .build()
            .unwrap(),
        meta: meta("$missing"),
    };
    assert_eq!(missing.execute(&mut store), Err(Error::NotFound));

    store.set_available(true);
    assert_eq!(store.get_list(&s("$n1::history")), Ok(vec![]));
    assert_eq!(
        update.clone().execute(&mut store),
        Ok(vec![s("$u1"), s("$n1::history"), s("$n1"), s("news"), s("!room:example.org::news")])
    );
    let AnyActerModel::NewsEntry(stored) = store.get(&s("$n1")).unwrap() else {
        panic!("Not a news entry");
    };
    assert_eq!(stored.inner.slides, vec![NewsSlide::new_text(s("new"))]);
    assert_eq!(
        store.get(&s("$u1")),
        Ok(AnyActerModel::NewsEntryUpdate(update))
    );
}

#[test]
fn news_are_not_listed_while_the_backend_is_down() {
    let mut store = Store::new(s("@me:example.org"));
    let entry = NewsEntry {
        inner: NewsEntryDraft::new().add_text_slide(s("old")).build(),
        meta: meta("$n1"),
    };
    store.save(entry.clone().into()).unwrap();
    store.set_available(false);
    assert_eq!(
        latest_news(&store, &s("news"), 3),
        Err(Error::StoreBackend)
    );
    assert_eq!(
        latest_known_news(&store, &s("news"), &vec![s("!room:example.org")], 3),
        Err(Error::StoreBackend)
    );
    store.set_available(true);
    assert_eq!(latest_news(&store, &s("news"), 3), Ok(vec![entry.clone()]));
    assert_eq!(
        latest_known_news(&store, &s("news"), &vec![s("!room:example.org")], 3),
        Ok(vec![entry])
    );
    assert_eq!(
        latest_known_news(&store, &s("news"), &vec![s("!other:example.org")], 3),
        Ok(vec![])
    );
}
