use acter_executor::comments::CommentsStats;
use acter_executor::error::Error;
use acter_executor::keys::{dedup_keys, derive_key, extend_keys, key_listed};
use acter_executor::models::{ActerModel, AnyActerModel, TestModel};
use acter_executor::read_receipts::ReadReceiptStats;
use acter_executor::store::{RawValue, Store};
use acter_executor::test_model::TestModelBuilder;

fn strings(items: &[&str]) -> Vec<String> {
    items.iter().map(|s| s.to_string()).collect()
}

fn model(id: &str, indizes: &[&str]) -> TestModel {
    TestModelBuilder::default()
        .event_id(id.to_owned())
        .indizes(strings(indizes))
        .build()
        .unwrap()
}

#[test]
fn derived_keys_join_with_two_colons() {
    assert_eq!(derive_key("$e1", "read_receipts"), "$e1::read_receipts");
    assert_eq!(derive_key("", ""), "::");
    assert_eq!(derive_key("a::b", "c"), "a::b::c");
}

#[test]
fn dedup_keeps_the_first_of_equal_keys() {
    assert_eq!(
        dedup_keys(&strings(&["a", "b", "a", "c", "b", "a"])),
        strings(&["a", "b", "c"])
    );
    assert_eq!(dedup_keys(&strings(&[])), strings(&[]));
    assert_eq!(dedup_keys(&strings(&["x", "x", "x"])), strings(&["x"]));
    assert_eq!(dedup_keys(&strings(&["a", "b"])), strings(&["a", "b"]));
}

#[test]
fn keys_are_found_and_appended() {
    let mut keys = strings(&["a", "b"]);
    assert!(key_listed(&keys, &"b".to_owned()));
    assert!(!key_listed(&keys, &"c".to_owned()));
    extend_keys(&mut keys, &strings(&["c", "a"]));
    assert_eq!(keys, strings(&["a", "b", "c", "a"]));
}

#[test]
fn an_empty_store_finds_nothing() {
    let store = Store::new("@me:example.org".to_owned());
    assert_eq!(store.user_id(), "@me:example.org");
    assert_eq!(store.get(&"$t1".to_owned()), Err(Error::NotFound));
    assert_eq!(store.get_raw(&"$t1".to_owned()), Err(Error::NotFound));
    assert_eq!(store.get_list(&"idx".to_owned()), Ok(vec![]));
}

#[test]
fn save_returns_the_identifier_and_the_indices() {
    let mut store = Store::new("@me:example.org".to_owned());
    let keys = store
        .save(model("$t1", &["idx", "other", "idx"]).into())
        .unwrap();
    assert_eq!(keys, strings(&["$t1", "idx", "other", "idx"]));
    let keys = store.save(model("$t2", &[]).into()).unwrap();
    assert_eq!(keys, strings(&["$t2"]));
}

#[test]
fn a_saved_model_is_read_back() {
    let mut store = Store::new("@me:example.org".to_owned());
    let first = model("$t1", &["idx"]);
    store.save(first.clone().into()).unwrap();
    assert_eq!(
        store.get(&"$t1".to_owned()),
        Ok(AnyActerModel::TestModel(first))
    );
    assert_eq!(store.get(&"$t2".to_owned()), Err(Error::NotFound));
}

#[test]
fn saving_again_replaces_the_record() {
    let mut store = Store::new("@me:example.org".to_owned());
    store.save(model("$t1", &["idx"]).into()).unwrap();
    let second = model("$t1", &["idx", "more"]);
    store.save(second.clone().into()).unwrap();
    assert_eq!(
        store.get(&"$t1".to_owned()),
        Ok(AnyActerModel::TestModel(second.clone()))
    );
    // listed once under the index it was already filed under
    assert_eq!(
        store.get_list(&"idx".to_owned()),
        Ok(vec![AnyActerModel::TestModel(second.clone())])
    );
    assert_eq!(
        store.get_list(&"more".to_owned()),
        Ok(vec![AnyActerModel::TestModel(second)])
    );
}

#[test]
fn a_list_comes_in_storage_order() {
    let mut store = Store::new("@me:example.org".to_owned());
    let a = model("$a", &["idx"]);
    let b = model("$b", &["other"]);
    let c = model("$c", &["idx"]);
    store.save(a.clone().into()).unwrap();
    store.save(b.clone().into()).unwrap();
    store.save(c.clone().into()).unwrap();
    assert_eq!(
        store.get_list(&"idx".to_owned()),
        Ok(vec![
            AnyActerModel::TestModel(a),
            AnyActerModel::TestModel(c)
        ])
    );
    assert_eq!(
        store.get_list(&"other".to_owned()),
        Ok(vec![AnyActerModel::TestModel(b)])
    );
    assert_eq!(store.get_list(&"$a".to_owned()), Ok(vec![]));
}

#[test]
fn raw_values_are_written_and_read() {
    let mut store = Store::new("@me:example.org".to_owned());
    let stats = ReadReceiptStats {
        user_has_read: true,
        total_views: 2,
        users_viewed: strings(&["@a:x", "@b:x"]),
    };
    let stats = RawValue::ReadReceipts(stats);
    assert_eq!(store.set_raw(&"$e1::read_receipts".to_owned(), &stats), Ok(()));
    assert_eq!(
        store.get_raw(&"$e1::read_receipts".to_owned()),
        Ok(stats.clone())
    );
    // overwritten without a question
    let empty = RawValue::ReadReceipts(ReadReceiptStats::default());
    assert_eq!(store.set_raw(&"$e1::read_receipts".to_owned(), &empty), Ok(()));
    assert_eq!(store.get_raw(&"$e1::read_receipts".to_owned()), Ok(empty));
}

#[test]
fn a_model_is_no_raw_value_and_a_raw_value_no_model() {
    let mut store = Store::new("@me:example.org".to_owned());
    store.save(model("$t1", &[]).into()).unwrap();
    store
        .set_raw(
            &"$t1::read_receipts".to_owned(),
            &RawValue::ReadReceipts(ReadReceiptStats::default()),
        )
        .unwrap();
    assert_eq!(store.get_raw(&"$t1".to_owned()), Err(Error::Serialization));
    assert_eq!(
        store.get(&"$t1::read_receipts".to_owned()),
        Err(Error::NotFound)
    );
}

#[test]
fn a_filing_without_a_model_is_passed_over() {
    let mut store = Store::new("@me:example.org".to_owned());
    let a = model("$a", &["idx"]);
    let b = model("$b", &["idx"]);
    store.save(a.into()).unwrap();
    store.save(b.clone().into()).unwrap();
    store
        .set_raw(
            &"$a".to_owned(),
            &RawValue::ReadReceipts(ReadReceiptStats::default()),
        )
        .unwrap();
    assert_eq!(
        store.get_list(&"idx".to_owned()),
        Ok(vec![AnyActerModel::TestModel(b)])
    );
}

#[test]
fn every_error_says_what_it_is() {
    assert_eq!(Error::NotFound.message(), "model not found");
    assert_eq!(
        Error::Serialization.message(),
        "stored value could not be decoded"
    );
    assert_eq!(Error::Timeout.message(), "timed out waiting for the key");
    assert_eq!(Error::StoreBackend.message(), "store backend failure");
}

#[test]
fn a_raw_value_is_of_one_kind() {
    let receipts = RawValue::ReadReceipts(ReadReceiptStats::default());
    let comments = RawValue::Comments(CommentsStats::default());
    assert_eq!(
        receipts.clone().into_read_receipts(),
        Ok(ReadReceiptStats::default())
    );
    assert_eq!(receipts.into_comments(), Err(Error::Serialization));
    assert_eq!(comments.clone().into_comments(), Ok(CommentsStats::default()));
    assert_eq!(comments.into_read_receipts(), Err(Error::Serialization));
}

#[test]
fn with_the_backend_down_nothing_is_written_and_no_list_is_read() {
    let mut store = Store::new("@me:x".to_owned());
    assert!(store.is_available());
    store.save(model("$a", &["idx"]).into()).unwrap();
    store
        .set_raw(
            &"$a::comments_stats".to_owned(),
            &RawValue::Comments(CommentsStats {
                has_comments: true,
                total_comments_count: 1,
            }),
        )
        .unwrap();

    store.set_available(false);
    assert!(!store.is_available());
    assert_eq!(
        store.save(model("$b", &["idx"]).into()),
        Err(Error::StoreBackend)
    );
    assert_eq!(
        store.save(model("$a", &["other"]).into()),
        Err(Error::StoreBackend)
    );
    assert_eq!(
        store.set_raw(
            &"$a::comments_stats".to_owned(),
            &RawValue::Comments(CommentsStats {
                has_comments: true,
                total_comments_count: 2,
            }),
        ),
        Err(Error::StoreBackend)
    );
    assert_eq!(store.get_list(&"idx".to_owned()), Err(Error::StoreBackend));
    // what the store holds is still read
    assert_eq!(
        store.get(&"$a".to_owned()),
        Ok(AnyActerModel::TestModel(model("$a", &["idx"])))
    );
    assert_eq!(store.get(&"$b".to_owned()), Err(Error::NotFound));
    assert_eq!(
        store.get_raw(&"$a::comments_stats".to_owned()),
        Ok(RawValue::Comments(CommentsStats {
            has_comments: true,
            total_comments_count: 1,
        }))
    );

    store.set_available(true);
    // nothing of what failed has left a trace
    assert_eq!(
        store.get_list(&"idx".to_owned()),
        Ok(vec![AnyActerModel::TestModel(model("$a", &["idx"]))])
    );
    assert_eq!(store.get_list(&"other".to_owned()), Ok(vec![]));
    assert_eq!(
        store.save(model("$b", &["idx"]).into()),
        Ok(strings(&["$b", "idx"]))
    );
}

#[test]
fn a_model_is_found_under_its_own_identifier_only() {
    let mut store = Store::new("@me:x".to_owned());
    for id in ["$a", "$b", "$c"] {
        store.save(model(id, &["idx", id]).into()).unwrap();
    }
    store
        .set_raw(
            &"$a::comments_stats".to_owned(),
            &RawValue::Comments(CommentsStats::default()),
        )
        .unwrap();
    for id in ["$a", "$b", "$c"] {
        let found: TestModel = match store.get(&id.to_owned()).unwrap() {
            AnyActerModel::TestModel(found) => found,
            other => panic!("unexpected {other:?}"),
        };
        assert_eq!(found.event_id(), id);
    }
    // an index and an aggregate key hold no model
    assert_eq!(store.get(&"idx".to_owned()), Err(Error::NotFound));
    assert_eq!(
        store.get(&"$a::comments_stats".to_owned()),
        Err(Error::NotFound)
    );
}
