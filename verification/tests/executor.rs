use acter_executor::error::Error;
use acter_executor::executor::{
    ChannelSettings, Delivery, Executor, Placement, WaitFor, Wake, BACKLOG,
};
use acter_executor::models::{ActerModel, AnyActerModel, TestModel};
use acter_executor::store::Store;
use acter_executor::test_model::TestModelBuilder;
use async_broadcast::TryRecvError;

fn fresh_executor() -> Executor {
    let store = Store::new("@test:example.org".to_string());
    Executor::new(store).unwrap()
}

fn simple_model() -> TestModel {
    TestModelBuilder::default().simple().build().unwrap()
}

#[test]
fn smoke_test() {
    let executor = fresh_executor();
    assert_eq!(executor.store().user_id(), "@test:example.org");
}

#[test]
fn subscribe_simle_model() {
    let mut executor = fresh_executor();
    let model = simple_model();
    let model_id = model.event_id().to_string();
    let sub = executor.subscribe(model_id);
    assert!(sub.is_empty());

    executor.handle(model.into()).unwrap();
    assert!(!sub.is_empty());
}

#[test]
fn subscribe_referenced_model() {
    let mut executor = fresh_executor();
    let model = simple_model();
    let model_id = model.event_id().to_owned();
    let mut sub = executor.subscribe(model_id.to_string());
    assert!(sub.is_empty());

    executor.handle(model.into()).unwrap();
    assert!(sub.try_recv().is_ok()); // we have one
    assert!(sub.is_empty());

    let child = TestModelBuilder::default()
        .simple()
        .belongs_to(vec![model_id.to_string()])
        .event_id("$advf93m".to_owned())
        .build()
        .unwrap();

    executor.handle(child.into()).unwrap();

    assert!(sub.try_recv().is_ok()); // we have one
    assert!(sub.is_empty());
}

#[test]
fn subscribe_models_index() {
    let mut executor = fresh_executor();
    let model = simple_model();
    let parent_id = model.event_id().to_owned();
    let parent_idx = format!("{parent_id}:custom");
    let mut sub = executor.subscribe(parent_idx.clone());
    assert!(sub.is_empty());

    executor.handle(model.into()).unwrap();
    assert!(sub.is_empty());

    let child = TestModelBuilder::default()
        .simple()
        .belongs_to(vec![parent_id.to_string()])
        .event_id("$advf93m".to_owned())
        .indizes(vec![parent_idx.clone()])
        .build()
        .unwrap();

    executor.handle(child.into()).unwrap();

    assert!(sub.try_recv().is_ok()); // we have one
    assert!(sub.is_empty());
}

#[test]
fn wait_for_simple_model() {
    let mut executor = fresh_executor();
    let model = simple_model();
    let model_id = model.event_id().to_string();
    // nothing in the store
    assert!(executor.store().get(&model_id).is_err());

    let waiter = executor.wait_for(model_id.clone());
    let WaitFor::Pending(mut receiver) = waiter else {
        panic!("Nothing to wait for");
    };
    executor.handle(model.clone().into()).unwrap();
    assert!(receiver.try_recv().is_ok());

    let new_model = executor.finish_wait(&model_id, Wake::Signalled).unwrap();

    let AnyActerModel::TestModel(inner_model) = new_model else {
        panic!("Not a test model");
    };

    assert_eq!(inner_model, model);
}

#[test]
fn handle_stores_the_model_and_signals_once() {
    let mut executor = fresh_executor();
    let model = TestModelBuilder::default()
        .event_id("$t1".to_owned())
        .build()
        .unwrap();
    let mut sub = executor.subscribe("$t1".to_owned());

    executor.handle(model.clone().into()).unwrap();

    assert_eq!(
        executor.store().get(&"$t1".to_owned()),
        Ok(AnyActerModel::TestModel(model))
    );
    assert_eq!(sub.len(), 1);
    assert_eq!(sub.try_recv(), Ok(()));
    assert_eq!(sub.try_recv(), Err(TryRecvError::Empty));
}

#[test]
fn handle_notifies_identifier_indices_and_parents() {
    let mut executor = fresh_executor();
    let mut on_id = executor.subscribe("$child".to_owned());
    let mut on_index = executor.subscribe("$child::custom".to_owned());
    let mut on_parent = executor.subscribe("$parent".to_owned());
    let mut on_other = executor.subscribe("$other".to_owned());
    let child = TestModelBuilder::default()
        .event_id("$child".to_owned())
        .indizes(vec!["$child::custom".to_owned()])
        .belongs_to(vec!["$parent".to_owned()])
        .build()
        .unwrap();

    executor.handle(child.into()).unwrap();

    assert_eq!(on_id.try_recv(), Ok(()));
    assert_eq!(on_index.try_recv(), Ok(()));
    assert_eq!(on_parent.try_recv(), Ok(()));
    assert_eq!(on_other.try_recv(), Err(TryRecvError::Empty));
}

#[test]
fn every_notify_wakes_a_subscriber_once() {
    let mut executor = fresh_executor();
    let mut sub = executor.subscribe("k".to_owned());

    assert_eq!(executor.notify(vec!["k".to_owned()]), 1);
    assert_eq!(sub.try_recv(), Ok(()));
    assert_eq!(sub.try_recv(), Err(TryRecvError::Empty));

    assert_eq!(executor.notify(vec!["k".to_owned()]), 1);
    assert_eq!(sub.try_recv(), Ok(()));
    assert_eq!(sub.try_recv(), Err(TryRecvError::Empty));
}

#[test]
fn a_slow_subscriber_sees_the_latest_wake_only() {
    let mut executor = fresh_executor();
    let mut sub = executor.subscribe("k".to_owned());

    assert_eq!(executor.notify(vec!["k".to_owned()]), 1);
    assert_eq!(executor.notify(vec!["k".to_owned()]), 1);
    assert_eq!(executor.notify(vec!["k".to_owned()]), 1);

    assert_eq!(sub.len(), 1);
    assert_eq!(sub.try_recv(), Err(TryRecvError::Overflowed(2)));
    assert_eq!(sub.try_recv(), Ok(()));
    assert_eq!(sub.try_recv(), Err(TryRecvError::Empty));
}

#[test]
fn notify_tries_each_key_once() {
    let mut executor = fresh_executor();
    let mut a = executor.subscribe("a".to_owned());
    let mut b = executor.subscribe("b".to_owned());

    let count = executor.notify(vec![
        "a".to_owned(),
        "b".to_owned(),
        "a".to_owned(),
        "missing".to_owned(),
        "b".to_owned(),
        "a".to_owned(),
    ]);

    assert_eq!(count, 2);
    assert_eq!(a.try_recv(), Ok(()));
    assert_eq!(a.try_recv(), Err(TryRecvError::Empty));
    assert_eq!(b.try_recv(), Ok(()));
    assert_eq!(b.try_recv(), Err(TryRecvError::Empty));
}

#[test]
fn notify_without_subscribers_counts_nothing() {
    let mut executor = fresh_executor();
    assert_eq!(executor.notify(vec!["a".to_owned(), "b".to_owned()]), 0);
    assert_eq!(executor.notify(vec![]), 0);
}

#[test]
fn fan_out_to_every_subscriber_of_a_key() {
    let mut executor = fresh_executor();
    let mut first = executor.subscribe("k".to_owned());
    let mut second = executor.subscribe("k".to_owned());

    assert_eq!(executor.notify(vec!["k".to_owned()]), 1);

    assert_eq!(first.try_recv(), Ok(()));
    assert_eq!(second.try_recv(), Ok(()));
}

#[test]
fn a_closed_channel_is_removed_and_not_counted() {
    let mut executor = fresh_executor();
    let sub = executor.subscribe("k".to_owned());
    drop(sub);

    assert_eq!(executor.signal(&"k".to_owned()), Delivery::Closed);
    assert_eq!(executor.notify(vec!["k".to_owned()]), 0);
    assert_eq!(executor.signal(&"k".to_owned()), Delivery::NoChannel);
}

#[test]
fn a_key_is_usable_again_after_its_listener_went_away() {
    let mut executor = fresh_executor();
    let sub = executor.subscribe("k".to_owned());
    drop(sub);

    let mut again = executor.subscribe("k".to_owned());
    assert!(!again.is_closed());
    assert_eq!(executor.notify(vec!["k".to_owned()]), 1);
    assert_eq!(executor.notify(vec!["k".to_owned()]), 1);
    assert!(again.overflow());
    assert_eq!(again.try_recv(), Err(TryRecvError::Overflowed(1)));
    assert_eq!(again.try_recv(), Ok(()));
    assert!(!again.is_closed());
}

#[test]
fn settle_acts_on_each_outcome() {
    let mut executor = fresh_executor();
    let _a = executor.subscribe("a".to_owned());
    let key = "a".to_owned();

    assert_eq!(executor.settle(&key, Delivery::NoChannel, 3), 3);
    assert_eq!(executor.settle(&key, Delivery::Delivered, 3), 4);
    assert_eq!(executor.settle(&key, Delivery::Delivered, u32::MAX), u32::MAX);
    assert_eq!(executor.signal(&key), Delivery::Delivered);

    assert_eq!(executor.settle(&key, Delivery::Rejected, 3), 3);
    assert_eq!(executor.signal(&key), Delivery::NoChannel);

    let _b = executor.subscribe("b".to_owned());
    let key = "b".to_owned();
    assert_eq!(executor.settle(&key, Delivery::Closed, 0), 0);
    assert_eq!(executor.signal(&key), Delivery::NoChannel);
}

#[test]
fn wait_for_returns_at_once_when_the_model_is_stored() {
    let mut executor = fresh_executor();
    let model = simple_model();
    let model_id = model.event_id().to_string();
    executor.handle(model.clone().into()).unwrap();

    let WaitFor::Ready(found) = executor.wait_for(model_id) else {
        panic!("The model is stored");
    };
    assert_eq!(found, AnyActerModel::TestModel(model));
}

#[test]
fn wait_for_registers_before_it_reads_the_store() {
    let mut executor = fresh_executor();
    let key = "$later".to_owned();
    let WaitFor::Pending(receiver) = executor.wait_for(key.clone()) else {
        panic!("Nothing is stored");
    };
    assert_eq!(executor.signal(&key), Delivery::Delivered);
    assert_eq!(receiver.len(), 1);
}

#[test]
fn wait_for_returns_the_stored_value_whichever_comes_first() {
    let model = TestModelBuilder::default()
        .event_id("$race".to_owned())
        .build()
        .unwrap();
    let key = "$race".to_owned();

    // the write lands before the wait begins
    let mut executor = fresh_executor();
    executor.handle(model.clone().into()).unwrap();
    let WaitFor::Ready(found) = executor.wait_for(key.clone()) else {
        panic!("The model is stored");
    };
    assert_eq!(found, AnyActerModel::TestModel(model.clone()));

    // the write lands after the wait began
    let mut executor = fresh_executor();
    let WaitFor::Pending(mut receiver) = executor.wait_for(key.clone()) else {
        panic!("Nothing is stored");
    };
    executor.handle(model.clone().into()).unwrap();
    assert_eq!(receiver.try_recv(), Ok(()));
    assert_eq!(
        executor.finish_wait(&key, Wake::Signalled),
        Ok(AnyActerModel::TestModel(model))
    );
}

#[test]
fn finish_wait_reads_the_store_whatever_woke_it() {
    let mut executor = fresh_executor();
    let model = simple_model();
    let key = model.event_id().to_string();

    assert_eq!(
        executor.finish_wait(&key, Wake::Signalled),
        Err(Error::NotFound)
    );
    assert_eq!(
        executor.finish_wait(&key, Wake::Disconnected),
        Err(Error::NotFound)
    );

    executor.handle(model.clone().into()).unwrap();
    assert_eq!(
        executor.finish_wait(&key, Wake::Disconnected),
        Ok(AnyActerModel::TestModel(model))
    );
}

#[test]
fn a_wait_past_its_deadline_times_out() {
    let mut executor = fresh_executor();
    let model = simple_model();
    let key = model.event_id().to_string();
    assert_eq!(
        executor.finish_wait(&key, Wake::DeadlineElapsed),
        Err(Error::Timeout)
    );
    executor.handle(model.into()).unwrap();
    assert_eq!(
        executor.finish_wait(&key, Wake::DeadlineElapsed),
        Err(Error::Timeout)
    );
}

#[test]
fn a_new_observer_is_placed_by_what_was_found() {
    assert_eq!(Executor::place(None), Placement::Create);
    assert_eq!(Executor::place(Some(true)), Placement::Replace);
    assert_eq!(Executor::place(Some(false)), Placement::Join);
}

#[test]
fn probe_tells_a_live_channel_from_a_closed_one_and_from_none() {
    let mut executor = fresh_executor();
    let key = "k".to_owned();
    assert_eq!(executor.probe(&key), None);

    let sub = executor.subscribe(key.clone());
    assert_eq!(executor.probe(&key), Some(false));
    assert_eq!(executor.probe(&"other".to_owned()), None);

    drop(sub);
    assert_eq!(executor.probe(&key), Some(true));
}

#[test]
fn subscribe_joins_a_live_channel() {
    let mut executor = fresh_executor();
    let key = "k".to_owned();
    let mut first = executor.subscribe(key.clone());
    assert_eq!(executor.notify(vec![key.clone()]), 1);

    // the channel is live: the second observer joins it
    assert_eq!(Executor::place(executor.probe(&key)), Placement::Join);
    let mut second = executor.subscribe(key.clone());

    // the first observer keeps what it was sent and is still on the channel
    assert!(!first.is_closed());
    assert_eq!(first.receiver_count(), 2);
    assert_eq!(first.try_recv(), Ok(()));
    // the second one joined after that wake-up
    assert_eq!(second.try_recv(), Err(TryRecvError::Empty));

    // one notify wakes both
    assert_eq!(executor.notify(vec![key.clone()]), 1);
    assert_eq!(first.try_recv(), Ok(()));
    assert_eq!(second.try_recv(), Ok(()));
    assert_eq!(first.try_recv(), Err(TryRecvError::Empty));
    assert_eq!(second.try_recv(), Err(TryRecvError::Empty));
}

#[test]
fn subscribe_replaces_a_closed_channel() {
    let mut executor = fresh_executor();
    let key = "k".to_owned();
    let first = executor.subscribe(key.clone());
    drop(first);

    assert_eq!(Executor::place(executor.probe(&key)), Placement::Replace);
    let mut again = executor.subscribe(key.clone());

    assert_eq!(executor.probe(&key), Some(false));
    assert!(!again.is_closed());
    assert_eq!(again.receiver_count(), 1);
    assert_eq!(executor.notify(vec![key.clone()]), 1);
    assert_eq!(again.try_recv(), Ok(()));
}

#[test]
fn subscribe_creates_a_channel_where_there_is_none() {
    let mut executor = fresh_executor();
    let key = "k".to_owned();
    assert_eq!(Executor::place(executor.probe(&key)), Placement::Create);
    let mut sub = executor.subscribe(key.clone());
    assert_eq!(executor.probe(&key), Some(false));
    assert_eq!(executor.signal(&key), Delivery::Delivered);
    assert_eq!(sub.try_recv(), Ok(()));
}

#[test]
fn seat_does_what_the_placement_says() {
    let mut executor = fresh_executor();
    let key = "k".to_owned();

    // nothing to join: a channel is opened
    assert!(executor.join(&key).is_none());
    let mut first = executor.seat(key.clone(), Placement::Join);
    assert_eq!(executor.probe(&key), Some(false));

    // joined: both are on one channel
    let mut second = executor.seat(key.clone(), Placement::Join);
    assert_eq!(second.receiver_count(), 2);
    assert_eq!(executor.notify(vec![key.clone()]), 1);
    assert_eq!(first.try_recv(), Ok(()));
    assert_eq!(second.try_recv(), Ok(()));

    // replaced: the receivers of the channel that left learn that it closed
    let mut third = executor.seat(key.clone(), Placement::Replace);
    assert_eq!(third.receiver_count(), 1);
    assert_eq!(executor.notify(vec![key.clone()]), 1);
    assert_eq!(third.try_recv(), Ok(()));
    assert_eq!(first.try_recv(), Err(TryRecvError::Closed));
    assert_eq!(second.try_recv(), Err(TryRecvError::Closed));

    let mut fourth = executor.seat("other".to_owned(), Placement::Create);
    assert_eq!(executor.notify(vec!["other".to_owned()]), 1);
    assert_eq!(fourth.try_recv(), Ok(()));
}

#[test]
fn notify_counts_the_keys_that_keep_their_channel() {
    let mut executor = fresh_executor();
    let _a = executor.subscribe("a".to_owned());
    let b = executor.subscribe("b".to_owned());
    let _c = executor.subscribe("c".to_owned());
    let _d = executor.subscribe("d".to_owned());
    drop(b);

    let count = executor.notify(vec![
        "a".to_owned(),
        "b".to_owned(),
        "a".to_owned(),
        "missing".to_owned(),
        "c".to_owned(),
    ]);

    // of the keys asked for, "a" and "c" are registered afterwards
    assert_eq!(count, 2);
    assert_eq!(executor.probe(&"a".to_owned()), Some(false));
    assert_eq!(executor.probe(&"b".to_owned()), None);
    assert_eq!(executor.probe(&"c".to_owned()), Some(false));
    assert_eq!(executor.probe(&"missing".to_owned()), None);
    // a key that was not asked for keeps its channel and is not counted
    assert_eq!(executor.probe(&"d".to_owned()), Some(false));
}

#[test]
fn with_the_backend_down_nothing_is_stored_and_nobody_is_woken() {
    let mut executor = fresh_executor();
    let model = simple_model();
    let id = model.event_id().to_string();
    let mut sub = executor.subscribe(id.clone());

    executor.store_mut().set_available(false);
    assert!(!executor.store().is_available());
    assert_eq!(
        executor.handle(model.clone().into()),
        Err(Error::StoreBackend)
    );
    assert_eq!(executor.store().get(&id), Err(Error::NotFound));
    assert_eq!(sub.try_recv(), Err(TryRecvError::Empty));
    // the observer is still registered
    assert_eq!(executor.probe(&id), Some(false));

    executor.store_mut().set_available(true);
    assert_eq!(executor.handle(model.clone().into()), Ok(()));
    assert_eq!(executor.store().get(&id), Ok(AnyActerModel::TestModel(model)));
    assert_eq!(sub.try_recv(), Ok(()));
}

#[test]
fn a_channel_keeps_one_wake_up_and_overwrites_it() {
    assert_eq!(BACKLOG, 1);
    assert_eq!(
        Executor::settings(),
        ChannelSettings {
            backlog: 1,
            overflow: true
        }
    );
    // every channel is set up that way, the first of a key and a later one
    let mut executor = fresh_executor();
    let key = "k".to_owned();
    let mut first = executor.subscribe(key.clone());
    assert_eq!(first.capacity(), 1);
    assert!(first.overflow());
    assert_eq!(executor.notify(vec![key.clone()]), 1);
    assert_eq!(executor.notify(vec![key.clone()]), 1);
    assert_eq!(first.try_recv(), Err(TryRecvError::Overflowed(1)));
    assert_eq!(first.try_recv(), Ok(()));
    drop(first);
    let mut second = executor.subscribe(key.clone());
    assert_eq!(second.capacity(), 1);
    assert!(second.overflow());
    assert_eq!(executor.notify(vec![key.clone()]), 1);
    assert_eq!(executor.notify(vec![key.clone()]), 1);
    assert_eq!(second.len(), 1);
    assert_eq!(second.try_recv(), Err(TryRecvError::Overflowed(1)));
    assert_eq!(second.try_recv(), Ok(()));
}

#[test]
fn a_joined_channel_keeps_its_number_and_a_fresh_one_gets_the_next() {
    let mut executor = fresh_executor();
    let key = "k".to_owned();
    assert_eq!(executor.channel(&key), None);
    assert_eq!(executor.fresh_number(&key), 0);

    // created
    let first = executor.subscribe(key.clone());
    assert_eq!(executor.channel(&key), Some(0));
    assert_eq!(executor.fresh_number(&key), 1);

    // joined: the entry is the channel it was
    let second = executor.subscribe(key.clone());
    assert_eq!(executor.channel(&key), Some(0));
    assert_eq!(first.receiver_count(), 2);

    // closed, then replaced: the entry is another channel
    drop(first);
    drop(second);
    let third = executor.subscribe(key.clone());
    assert_eq!(executor.channel(&key), Some(1));
    assert_eq!(third.receiver_count(), 1);

    // another key is not touched by any of this
    let _other = executor.subscribe("other".to_owned());
    assert_eq!(executor.channel(&"other".to_owned()), Some(0));
    assert_eq!(executor.channel(&key), Some(1));

    // a dead channel leaves the registry, and the key starts over
    drop(third);
    assert_eq!(executor.notify(vec![key.clone()]), 0);
    assert_eq!(executor.channel(&key), None);
    let _fourth = executor.subscribe(key.clone());
    assert_eq!(executor.channel(&key), Some(0));
    assert_eq!(executor.channel(&"other".to_owned()), Some(0));
}

#[test]
fn an_observer_is_registered_by_what_was_found() {
    let mut executor = fresh_executor();
    let key = "k".to_owned();

    // nothing found: created
    let mut first = executor.register(key.clone(), None);
    assert_eq!(executor.channel(&key), Some(0));

    // found live: joined, and the first receiver is still on the channel
    let mut second = executor.register(key.clone(), Some(false));
    assert_eq!(executor.channel(&key), Some(0));
    assert_eq!(executor.notify(vec![key.clone()]), 1);
    assert_eq!(first.try_recv(), Ok(()));
    assert_eq!(second.try_recv(), Ok(()));

    // found closed: replaced, and the receivers of the old channel are cut off
    let mut third = executor.register(key.clone(), Some(true));
    assert_eq!(executor.channel(&key), Some(1));
    assert_eq!(executor.notify(vec![key.clone()]), 1);
    assert_eq!(third.try_recv(), Ok(()));
    assert_eq!(first.try_recv(), Err(TryRecvError::Closed));
    assert_eq!(second.try_recv(), Err(TryRecvError::Closed));

    // found live where nothing is registered: a channel is opened
    let mut fourth = executor.register("other".to_owned(), Some(false));
    assert_eq!(executor.channel(&"other".to_owned()), Some(0));
    assert_eq!(executor.notify(vec!["other".to_owned()]), 1);
    assert_eq!(fourth.try_recv(), Ok(()));
}

#[test]
fn seat_numbers_the_channels_of_a_key() {
    let mut executor = fresh_executor();
    let key = "k".to_owned();
    let _a = executor.seat(key.clone(), Placement::Create);
    assert_eq!(executor.channel(&key), Some(0));
    let _b = executor.seat(key.clone(), Placement::Join);
    assert_eq!(executor.channel(&key), Some(0));
    let _c = executor.seat(key.clone(), Placement::Replace);
    assert_eq!(executor.channel(&key), Some(1));
    let _d = executor.seat(key.clone(), Placement::Create);
    assert_eq!(executor.channel(&key), Some(2));
    let _e = executor.open(key.clone());
    assert_eq!(executor.channel(&key), Some(3));
    let _f = executor.seat(key.clone(), Placement::Join);
    assert_eq!(executor.channel(&key), Some(3));
    // waiting registers like subscribing
    let _g = executor.wait_for(key.clone());
    assert_eq!(executor.channel(&key), Some(3));
    // signalling changes no entry
    assert_eq!(executor.signal(&key), Delivery::Delivered);
    assert_eq!(executor.channel(&key), Some(3));
}

#[test]
fn the_executor_tells_how_the_last_observer_was_placed() {
    let mut executor = fresh_executor();
    let key = "k".to_owned();
    assert_eq!(executor.last_placement(), None);

    let first = executor.subscribe(key.clone());
    assert_eq!(executor.last_placement(), Some(Placement::Create));

    // the channel is live: joined, and the entry is the channel it was
    let second = executor.subscribe(key.clone());
    assert_eq!(executor.last_placement(), Some(Placement::Join));
    assert_eq!(executor.channel(&key), Some(0));
    assert_eq!(first.receiver_count(), 2);

    // all receivers are gone: replaced by a fresh channel
    drop(first);
    drop(second);
    let mut third = executor.subscribe(key.clone());
    assert_eq!(executor.last_placement(), Some(Placement::Replace));
    assert_eq!(executor.channel(&key), Some(1));
    assert_eq!(executor.notify(vec![key.clone()]), 1);
    assert_eq!(third.try_recv(), Ok(()));
    // notifying leaves the record as it is
    assert_eq!(executor.last_placement(), Some(Placement::Replace));

    // a wait registers like a subscription
    let _waiting = executor.wait_for(key.clone());
    assert_eq!(executor.last_placement(), Some(Placement::Join));
    let _other = executor.wait_for("other".to_owned());
    assert_eq!(executor.last_placement(), Some(Placement::Create));

    // whoever seats an observer says how
    let _seated = executor.seat(key.clone(), Placement::Replace);
    assert_eq!(executor.last_placement(), Some(Placement::Replace));
    assert_eq!(executor.channel(&key), Some(2));
    let _opened = executor.open(key.clone());
    assert_eq!(executor.last_placement(), Some(Placement::Replace));
}
