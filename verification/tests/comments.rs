use acter_executor::content::{BelongsTo, TextMessageContent};
use acter_executor::comments::{
    comments_of, Comment, CommentEventContent, CommentsManager, CommentsStats,
};
use acter_executor::error::Error;
use acter_executor::executor::Executor;
use acter_executor::models::{ActerModel, AnyActerModel, ExecutableModel};
use acter_executor::news::{NewsEntry, NewsEntryDraft};
use acter_executor::tasks::{Task, TaskDraft, TaskList, TaskListDraft};
use acter_executor::store::{RawValue, Store};
use acter_executor::test_model::TestModelBuilder;
use async_broadcast::TryRecvError;

fn fresh_executor() -> Executor {
    Executor::new(Store::new("@test:example.org".to_string())).unwrap()
}

fn comment(event_id: &str, on: &str, text: &str) -> Comment {
    let mut meta = TestModelBuilder::fake_meta();
    meta.event_id = event_id.to_owned();
    Comment {
        inner: CommentEventContent {
            content: TextMessageContent::plain(text.to_owned()),
            on: BelongsTo {
                event_id: on.to_owned(),
            },
            reply_to: None,
        },
        meta,
    }
}

#[test]
fn subscribe_models_comments_index() {
    let mut executor = fresh_executor();
    let model = TestModelBuilder::default().simple().build().unwrap();
    let parent_id = model.event_id().to_owned();
    let parent_idx = Comment::index_for(&parent_id);
    let mut sub = executor.subscribe(parent_idx.clone());
    assert!(sub.is_empty());

    executor.handle(model.into()).unwrap();
    assert!(sub.is_empty());

    let comment = Comment {
        inner: CommentEventContent {
            content: TextMessageContent::plain("First".to_owned()),
            on: BelongsTo {
                event_id: parent_id,
            },
            reply_to: None,
        },
        meta: TestModelBuilder::fake_meta(),
    };

    executor.handle(comment.into()).unwrap();

    assert!(sub.try_recv().is_ok()); // we have one
    assert!(sub.is_empty());
}

#[test]
fn the_index_of_the_comments_is_derived_from_the_parent() {
    assert_eq!(Comment::index_for("$e1"), "$e1::comments");
    let first = comment("$c1", "$e1", "First");
    assert_eq!(first.event_id(), "$c1");
    assert_eq!(first.indizes(&"@me:x".to_owned()), vec!["$e1::comments"]);
    assert_eq!(first.belongs_to(), None);
    assert_eq!(first.capabilities(), vec![]);
}

#[test]
fn every_comment_is_counted() {
    let mut executor = fresh_executor();
    let model = TestModelBuilder::default().simple().build().unwrap();
    executor.handle(model.into()).unwrap();
    let mut on_stats = executor.subscribe("$asdefttg::comments_stats".to_owned());
    let mut on_parent = executor.subscribe("$asdefttg".to_owned());

    let first = comment("$c1", "$asdefttg", "First");
    let second = comment("$c2", "$asdefttg", "Second");
    executor.handle(first.clone().into()).unwrap();
    assert_eq!(on_stats.try_recv(), Ok(()));
    executor.handle(second.clone().into()).unwrap();
    assert_eq!(on_stats.try_recv(), Ok(()));
    assert_eq!(on_parent.try_recv(), Err(TryRecvError::Empty));

    let manager =
        CommentsManager::from_store_and_event_id(executor.store(), &"$asdefttg".to_owned());
    assert_eq!(
        manager.stats(),
        CommentsStats {
            has_comments: true,
            total_comments_count: 2
        }
    );
    assert_eq!(manager.stats().has_comments(), &true);
    assert_eq!(manager.stats().total_comments_count(), &2);
    assert_eq!(manager.event_id(), "$asdefttg");
    assert_eq!(manager.update_key(), "$asdefttg::comments_stats");
    assert_eq!(
        manager.comments(executor.store()),
        Ok(vec![first.clone(), second.clone()])
    );
    assert_eq!(
        executor.store().get(&"$c1".to_owned()),
        Ok(AnyActerModel::Comment(first))
    );
    assert_eq!(
        executor.store().get_raw(&"$asdefttg::comments_stats".to_owned()),
        Ok(RawValue::Comments(CommentsStats {
            has_comments: true,
            total_comments_count: 2
        }))
    );
}

#[test]
fn a_manager_of_comments_starts_from_nothing() {
    let mut store = Store::new("@me:example.org".to_owned());
    let mut manager = CommentsManager::from_store_and_event_id(&store, &"$e1".to_owned());
    assert_eq!(manager.stats(), CommentsStats::default());
    assert_eq!(
        manager.stats(),
        CommentsStats {
            has_comments: false,
            total_comments_count: 0
        }
    );
    assert_eq!(manager.comments(&store), Ok(vec![]));
    assert_eq!(
        manager.add_comment(&comment("$c1", "$e1", "First")),
        Ok(true)
    );
    assert_eq!(manager.save(&mut store), Ok("$e1::comments_stats".to_owned()));
    let again = CommentsManager::from_store_and_event_id(&store, &"$e1".to_owned());
    assert_eq!(
        again.stats(),
        CommentsStats {
            has_comments: true,
            total_comments_count: 1
        }
    );
}

#[test]
fn the_count_of_comments_stops_at_the_largest_number() {
    let mut store = Store::new("@me:example.org".to_owned());
    store
        .set_raw(
            &"$e1::comments_stats".to_owned(),
            &RawValue::Comments(CommentsStats {
                has_comments: true,
                total_comments_count: u32::MAX,
            }),
        )
        .unwrap();
    let mut manager = CommentsManager::from_store_and_event_id(&store, &"$e1".to_owned());
    manager
        .add_comment(&comment("$c1", "$e1", "One more"))
        .unwrap();
    assert_eq!(manager.stats().total_comments_count, u32::MAX);
}

#[test]
fn a_comment_on_a_missing_model_fails_and_changes_nothing() {
    let mut executor = fresh_executor();
    let mut sub = executor.subscribe("$e1::comments".to_owned());
    assert_eq!(
        executor.handle(comment("$c1", "$e1", "First").into()),
        Err(Error::NotFound)
    );
    assert_eq!(sub.try_recv(), Err(TryRecvError::Empty));
    assert_eq!(executor.store().get(&"$c1".to_owned()), Err(Error::NotFound));
}

#[test]
fn a_comment_on_a_model_that_takes_none_is_ignored() {
    let mut store = Store::new("@me:example.org".to_owned());
    // a comment takes no comments
    store.save(comment("$c0", "$e1", "Zeroth").into()).unwrap();
    assert_eq!(
        comment("$c1", "$c0", "First").execute(&mut store),
        Ok(vec![])
    );
    assert_eq!(store.get(&"$c1".to_owned()), Err(Error::NotFound));
    assert_eq!(
        store.get_raw(&"$c0::comments_stats".to_owned()),
        Err(Error::NotFound)
    );
}

#[test]
fn a_comment_yields_its_index_and_the_key_of_the_aggregate() {
    let mut store = Store::new("@me:example.org".to_owned());
    store
        .save(TestModelBuilder::default().simple().build().unwrap().into())
        .unwrap();
    assert_eq!(
        comment("$c1", "$asdefttg", "First").execute(&mut store),
        Ok(vec![
            "$asdefttg::comments".to_owned(),
            "$asdefttg::comments_stats".to_owned()
        ])
    );
    let mixed = vec![
        AnyActerModel::Comment(comment("$c1", "$asdefttg", "First")),
        TestModelBuilder::default().simple().build().unwrap().into(),
    ];
    assert_eq!(comments_of(&mixed), vec![comment("$c1", "$asdefttg", "First")]);
}

#[test]
fn news_tasks_and_lists_have_comments() {
    let mut executor = fresh_executor();
    let mut meta = TestModelBuilder::fake_meta();
    meta.event_id = "$n1".to_owned();
    let entry = NewsEntry {
        inner: NewsEntryDraft::new().build(),
        meta: meta.clone(),
    };
    meta.event_id = "$list".to_owned();
    let list = TaskList {
        inner: TaskListDraft::new().name("Chores".to_owned()).build().unwrap(),
        meta: meta.clone(),
    };
    meta.event_id = "$task".to_owned();
    let task = Task {
        inner: TaskDraft::new()
            .task_list_id("$list".to_owned())
            .title("Dishes".to_owned())
            .build()
            .unwrap(),
        meta,
    };
    executor.handle(entry.clone().into()).unwrap();
    executor.handle(list.clone().into()).unwrap();
    executor.handle(task.clone().into()).unwrap();
    executor
        .handle(comment("$c1", "$n1", "Good news").into())
        .unwrap();
    executor
        .handle(comment("$c2", "$task", "Done soon").into())
        .unwrap();
    executor
        .handle(comment("$c3", "$task", "Done").into())
        .unwrap();

    assert_eq!(
        entry.comments(executor.store()).stats().total_comments_count,
        1
    );
    assert_eq!(
        task.comments(executor.store()).stats().total_comments_count,
        2
    );
    assert_eq!(
        list.comments(executor.store()).stats(),
        CommentsStats::default()
    );
    assert_eq!(
        task.comments(executor.store())
            .comments(executor.store())
            .unwrap()
            .len(),
        2
    );
}

#[test]
fn a_comment_is_not_counted_while_the_backend_is_down() {
    let mut executor = fresh_executor();
    let parent = TestModelBuilder::default().simple().build().unwrap();
    let parent_id = parent.event_id().to_owned();
    let stats_key = format!("{parent_id}::comments_stats");
    executor.handle(parent.into()).unwrap();
    executor
        .handle(comment("$c1", &parent_id, "First").into())
        .unwrap();
    let mut on_stats = executor.subscribe(stats_key.clone());

    executor.store_mut().set_available(false);
    assert_eq!(
        executor.handle(comment("$c2", &parent_id, "Second").into()),
        Err(Error::StoreBackend)
    );
    // neither the comment nor the count was written, and nobody was woken
    assert_eq!(
        executor.store().get(&"$c2".to_owned()),
        Err(Error::NotFound)
    );
    assert_eq!(
        executor.store().get_raw(&stats_key),
        Ok(RawValue::Comments(CommentsStats {
            has_comments: true,
            total_comments_count: 1
        }))
    );
    assert_eq!(on_stats.try_recv(), Err(TryRecvError::Empty));
    // a comment on nothing fails as before
    assert_eq!(
        executor.handle(comment("$c3", "$nowhere", "Lost").into()),
        Err(Error::NotFound)
    );
    let manager = CommentsManager::from_store_and_event_id(executor.store(), &parent_id);
    assert_eq!(manager.stats().total_comments_count, 1);
    assert_eq!(
        manager.save(executor.store_mut()),
        Err(Error::StoreBackend)
    );
    assert_eq!(
        manager.comments(executor.store()),
        Err(Error::StoreBackend)
    );

    executor.store_mut().set_available(true);
    executor
        .handle(comment("$c2", &parent_id, "Second").into())
        .unwrap();
    assert_eq!(on_stats.try_recv(), Ok(()));
    assert_eq!(
        executor.store().get_raw(&stats_key),
        Ok(RawValue::Comments(CommentsStats {
            has_comments: true,
            total_comments_count: 2
        }))
    );
    assert_eq!(
        manager.comments(executor.store()),
        Ok(vec![
            comment("$c1", &parent_id, "First"),
            comment("$c2", &parent_id, "Second")
        ])
    );
}
