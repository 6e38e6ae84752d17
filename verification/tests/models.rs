use acter_executor::client::Client;
use acter_executor::error::Error;
use acter_executor::executor::{Executor, WaitFor, Wake};
use acter_executor::media_cache::MediaStoreWrapper;
use acter_executor::models::{
    ActerModel, AnyActerModel, Capability, EventMeta, ExecutableModel, TestModel,
    default_model_execute, has_capability,
};
use acter_executor::msg_draft::{MsgContentDraft, MsgDraft};
use acter_executor::news::{
    known_news, latest_news, newest, news_of, NewsContent, NewsEntry, NewsEntryEventContent,
    NewsSlide,
};
use acter_executor::spaces::Space;
use acter_executor::store::Store;
use acter_executor::stream::{single_receipt, ReceiptError, ReceiptThread, ReceiptType};
use acter_executor::test_model::{TestModelBuilder, TestModelBuilderError};
use acter_executor::verification::VerificationEmoji;

fn strings(items: &[&str]) -> Vec<String> {
    items.iter().map(|s| s.to_string()).collect()
}

fn meta(event_id: &str, room_id: &str) -> EventMeta {
    EventMeta {
        event_id: event_id.to_owned(),
        sender: "@author:example.org".to_owned(),
        origin_server_ts: 1,
        room_id: room_id.to_owned(),
    }
}

fn news(event_id: &str, room_id: &str, text: &str) -> NewsEntry {
    NewsEntry {
        inner: NewsEntryEventContent {
            slides: vec![NewsSlide::new_text(text.to_owned())],
            colors: None,
        },
        meta: meta(event_id, room_id),
    }
}

fn client() -> Client {
    Client::new(Executor::new(Store::new("@me:example.org".to_owned())).unwrap())
}

#[test]
fn a_builder_without_an_identifier_does_not_build() {
    assert_eq!(
        TestModelBuilder::default().build(),
        Err(TestModelBuilderError::UninitializedField("event_id"))
    );
    assert_eq!(
        TestModelBuilder::default()
            .indizes(strings(&["a"]))
            .transition(true)
            .build(),
        Err(TestModelBuilderError::UninitializedField("event_id"))
    );
}

#[test]
fn a_builder_fills_in_the_defaults() {
    let model = TestModelBuilder::default().simple().build().unwrap();
    assert_eq!(
        model,
        TestModel {
            event_id: "$asdefttg".to_owned(),
            room_id: "!5678ijhgasdf093:Asdfa".to_owned(),
            indizes: vec![],
            belongs_to: vec![],
            transition: false,
        }
    );
    let model = TestModelBuilder::default()
        .event_id("$x".to_owned())
        .room_id("!r:x".to_owned())
        .indizes(strings(&["i"]))
        .belongs_to(strings(&["p", "q"]))
        .transition(true)
        .build()
        .unwrap();
    assert_eq!(
        model,
        TestModel {
            event_id: "$x".to_owned(),
            room_id: "!r:x".to_owned(),
            indizes: strings(&["i"]),
            belongs_to: strings(&["p", "q"]),
            transition: true,
        }
    );
}

#[test]
fn the_fake_meta_is_what_it_always_was() {
    let meta = TestModelBuilder::fake_meta();
    assert_eq!(meta.event_id, "$ASDas29ak");
    assert_eq!(meta.sender, "@test:example.org");
    assert_eq!(meta.origin_server_ts, 123567890);
    assert_eq!(meta.room_id, "!5678ijhgasdf093:Asdfa");
}

#[test]
fn a_test_model_answers_for_itself() {
    let mut model = TestModelBuilder::default()
        .event_id("$x".to_owned())
        .indizes(strings(&["i"]))
        .belongs_to(strings(&["p"]))
        .build()
        .unwrap();
    assert_eq!(model.event_id(), "$x");
    assert_eq!(model.room_id(), "!5678ijhgasdf093:Asdfa");
    assert_eq!(
        model.capabilities(),
        vec![Capability::Commentable, Capability::Reactable]
    );
    assert_eq!(model.indizes(&"@me:x".to_owned()), strings(&["i"]));
    assert_eq!(model.belongs_to(), Some(strings(&["p"])));
    let other: AnyActerModel = model.clone().into();
    assert_eq!(model.transition(&other), Ok(true));
    assert!(has_capability(
        &model.capabilities(),
        Capability::Reactable
    ));
    assert!(!has_capability(
        &model.capabilities(),
        Capability::ReadTracking
    ));
}

#[test]
fn the_union_answers_as_its_member_does() {
    let model = TestModelBuilder::default()
        .event_id("$x".to_owned())
        .indizes(strings(&["i"]))
        .build()
        .unwrap();
    let any: AnyActerModel = model.clone().into();
    assert_eq!(any.event_id(), model.event_id());
    assert_eq!(any.room_id(), model.room_id());
    assert_eq!(any.capabilities(), model.capabilities());
    assert_eq!(
        any.indizes(&"@me:x".to_owned()),
        model.indizes(&"@me:x".to_owned())
    );
    assert_eq!(any.belongs_to(), model.belongs_to());
}

#[test]
fn the_default_execute_returns_each_key_once() {
    let mut store = Store::new("@me:example.org".to_owned());
    let model = TestModelBuilder::default()
        .event_id("$x".to_owned())
        .indizes(strings(&["i", "$x", "j", "i"]))
        .belongs_to(strings(&["p", "j", "p", "$x"]))
        .build()
        .unwrap();
    let keys = default_model_execute(&mut store, model.clone().into());
    assert_eq!(keys, Ok(strings(&["$x", "i", "j", "p"])));
    assert_eq!(
        store.get(&"$x".to_owned()),
        Ok(AnyActerModel::TestModel(model))
    );
}

#[test]
fn a_model_without_parents_notifies_itself_and_its_indices() {
    let mut store = Store::new("@me:example.org".to_owned());
    let entry = news("$n1", "!room:x", "hi");
    assert_eq!(entry.belongs_to(), None);
    assert_eq!(
        entry.clone().execute(&mut store),
        Ok(strings(&["$n1", "news", "!room:x::news"]))
    );
    assert_eq!(
        entry.capabilities(),
        vec![
            Capability::Commentable,
            Capability::Reactable,
            Capability::ReadTracking
        ]
    );
}

#[test]
fn the_text_of_a_slide_prefers_the_formatted_rendition() {
    let plain = NewsSlide::new_text("plain".to_owned());
    assert_eq!(plain.text(), "plain");
    assert_eq!(plain.type_str(), "text");
    let formatted = NewsSlide {
        content: NewsContent::Text {
            body: "## plain".to_owned(),
            formatted: Some("<h2>plain</h2>\n".to_owned()),
        },
    };
    assert_eq!(formatted.text(), "<h2>plain</h2>\n");
    let image = NewsSlide {
        content: NewsContent::Image {
            body: "a bird".to_owned(),
            url: "mxc://x/y".to_owned(),
            info: None,
        },
    };
    assert_eq!(image.text(), "a bird");
    assert_eq!(image.type_str(), "image");
    let audio = NewsContent::Audio {
        body: "a".to_owned(),
        url: "u".to_owned(),
        info: None,
    };
    assert_eq!(audio.type_str(), "audio");
    let video = NewsContent::Video {
        body: "v".to_owned(),
        url: "u".to_owned(),
        info: None,
    };
    assert_eq!(video.type_str(), "video");
    let file = NewsContent::File {
        body: "f".to_owned(),
        url: "u".to_owned(),
        info: None,
    };
    assert_eq!(file.type_str(), "file");
    assert_eq!(file.text(), "f");
}

#[test]
fn the_slides_of_an_entry_are_counted_and_found() {
    let mut entry = news("$n1", "!room:x", "one");
    entry.inner.slides.push(NewsSlide::new_text("two".to_owned()));
    assert_eq!(entry.slides_count(), 2);
    assert_eq!(entry.get_slide(0).unwrap().text(), "one");
    assert_eq!(entry.get_slide(1).unwrap().text(), "two");
    assert_eq!(entry.get_slide(2), None);

    let mut long = news("$n2", "!room:x", "x");
    for _ in 0..300 {
        long.inner.slides.push(NewsSlide::new_text("y".to_owned()));
    }
    assert_eq!(long.slides_count(), 255);
    assert_eq!(long.get_slide(255).unwrap().text(), "y");
}

#[test]
fn the_latest_news_come_newest_first() {
    let mut client = client();
    client.handle(news("$n1", "!a:x", "first").into()).unwrap();
    client
        .handle(
            TestModelBuilder::default()
                .event_id("$other".to_owned())
                .indizes(strings(&["news"]))
                .build()
                .unwrap()
                .into(),
        )
        .unwrap();
    client.handle(news("$n2", "!b:x", "second").into()).unwrap();
    client.handle(news("$n3", "!a:x", "third").into()).unwrap();

    let ids = |entries: Vec<NewsEntry>| -> Vec<String> {
        entries.into_iter().map(|e| e.meta.event_id).collect()
    };
    let rooms = strings(&["!a:x", "!b:x"]);
    assert_eq!(
        ids(client.latest_news_entries(&rooms, 10).unwrap()),
        strings(&["$n3", "$n2", "$n1"])
    );
    assert_eq!(
        ids(client.latest_news_entries(&rooms, 2).unwrap()),
        strings(&["$n3", "$n2"])
    );
    assert_eq!(
        ids(client.latest_news_entries(&rooms, 3).unwrap()),
        strings(&["$n3", "$n2", "$n1"])
    );
    assert_eq!(
        ids(client.latest_news_entries(&rooms, 0).unwrap()),
        strings(&[])
    );

    let space = Space::new("!a:x".to_owned());
    assert_eq!(space.room_id(), "!a:x");
    assert_eq!(
        ids(space.latest_news_entries(&client, 10).unwrap()),
        strings(&["$n3", "$n1"])
    );
    assert_eq!(
        ids(space.latest_news_entries(&client, 1).unwrap()),
        strings(&["$n3"])
    );
    assert_eq!(
        ids(Space::new("!c:x".to_owned())
            .latest_news_entries(&client, 5)
            .unwrap()),
        strings(&[])
    );
    assert_eq!(
        ids(latest_news(client.store(), &"!b:x::news".to_owned(), 7).unwrap()),
        strings(&["$n2"])
    );
}

#[test]
fn a_wait_for_news_takes_nothing_but_news() {
    let mut client = client();
    let entry = news("$n1", "!a:x", "first");
    client.handle(entry.clone().into()).unwrap();
    client
        .handle(
            TestModelBuilder::default()
                .event_id("$t1".to_owned())
                .build()
                .unwrap()
                .into(),
        )
        .unwrap();

    assert_eq!(
        client.finish_wait_for_news(&"$n1".to_owned(), Wake::Signalled),
        Ok(entry.clone())
    );
    assert_eq!(
        client.finish_wait_for_news(&"$t1".to_owned(), Wake::Signalled),
        Err(Error::Serialization)
    );
    assert_eq!(
        client.finish_wait_for_news(&"$nope".to_owned(), Wake::Signalled),
        Err(Error::NotFound)
    );
    assert_eq!(
        client.finish_wait_for_news(&"$n1".to_owned(), Wake::DeadlineElapsed),
        Err(Error::Timeout)
    );
    assert_eq!(
        Client::as_news_entry(AnyActerModel::NewsEntry(entry.clone())),
        Ok(entry.clone())
    );
    let WaitFor::Ready(found) = client.wait_for("$n1".to_owned()) else {
        panic!("The entry is stored");
    };
    assert_eq!(found, AnyActerModel::NewsEntry(entry.clone()));
    assert_eq!(
        client.finish_wait(&"$n1".to_owned(), Wake::Disconnected),
        Ok(AnyActerModel::NewsEntry(entry))
    );
}

#[test]
fn a_client_hands_out_receivers() {
    let mut client = client();
    let mut sub = client.subscribe("$t1".to_owned());
    client
        .handle(
            TestModelBuilder::default()
                .event_id("$t1".to_owned())
                .build()
                .unwrap()
                .into(),
        )
        .unwrap();
    assert_eq!(sub.try_recv(), Ok(()));
    assert_eq!(client.executor().store().user_id(), "@me:example.org");
    assert_eq!(client.store().user_id(), "@me:example.org");
}

#[test]
fn drafts_hold_what_they_were_given() {
    let client = client();
    assert_eq!(
        client.text_plain_draft("hi".to_owned()),
        MsgDraft::new(MsgContentDraft::TextPlain {
            body: "hi".to_owned()
        })
    );
    assert_eq!(
        client.text_markdown_draft("## hi".to_owned()).content(),
        &MsgContentDraft::TextMarkdown {
            body: "## hi".to_owned()
        }
    );
    assert_eq!(
        client
            .text_html_draft("<b>hi</b>".to_owned(), "hi".to_owned())
            .content(),
        &MsgContentDraft::TextHtml {
            html: "<b>hi</b>".to_owned(),
            plain: "hi".to_owned()
        }
    );
    assert_eq!(
        client
            .image_draft("/tmp/a.png".to_owned(), "image/png".to_owned())
            .content(),
        &MsgContentDraft::Image {
            source: "/tmp/a.png".to_owned(),
            mimetype: Some("image/png".to_owned()),
            filename: None
        }
    );
    assert_eq!(
        client
            .audio_draft("/tmp/a.ogg".to_owned(), "audio/ogg".to_owned())
            .content(),
        &MsgContentDraft::Audio {
            source: "/tmp/a.ogg".to_owned(),
            mimetype: Some("audio/ogg".to_owned()),
            filename: None
        }
    );
    assert_eq!(
        client
            .video_draft("/tmp/a.mp4".to_owned(), "video/mp4".to_owned())
            .content(),
        &MsgContentDraft::Video {
            source: "/tmp/a.mp4".to_owned(),
            mimetype: Some("video/mp4".to_owned()),
            filename: None
        }
    );
    assert_eq!(
        client
            .file_draft("/tmp/a.pdf".to_owned(), "application/pdf".to_owned())
            .content(),
        &MsgContentDraft::File {
            source: "/tmp/a.pdf".to_owned(),
            mimetype: Some("application/pdf".to_owned()),
            filename: None
        }
    );
    assert_eq!(
        client
            .location_draft("here".to_owned(), "geo:51.5,-0.1".to_owned())
            .content(),
        &MsgContentDraft::Location {
            body: "here".to_owned(),
            geo_uri: "geo:51.5,-0.1".to_owned(),
            info: None
        }
    );
}

#[test]
fn receipts_are_named() {
    assert_eq!(
        ReceiptType::parse(&"FullyRead".to_owned()),
        Some(ReceiptType::FullyRead)
    );
    assert_eq!(
        ReceiptType::parse(&"Read".to_owned()),
        Some(ReceiptType::Read)
    );
    assert_eq!(
        ReceiptType::parse(&"ReadPrivate".to_owned()),
        Some(ReceiptType::ReadPrivate)
    );
    assert_eq!(ReceiptType::parse(&"read".to_owned()), None);
    assert_eq!(
        ReceiptThread::parse(&"Main".to_owned()),
        Some(ReceiptThread::Main)
    );
    assert_eq!(
        ReceiptThread::parse(&"Unthreaded".to_owned()),
        Some(ReceiptThread::Unthreaded)
    );
    assert_eq!(ReceiptThread::parse(&"".to_owned()), None);
    assert_eq!(
        single_receipt(&"Read".to_owned(), &"Main".to_owned()),
        Ok((ReceiptType::Read, ReceiptThread::Main))
    );
    assert_eq!(
        single_receipt(&"Seen".to_owned(), &"Nowhere".to_owned()),
        Err(ReceiptError::WrongReceiptType)
    );
    assert_eq!(
        single_receipt(&"Read".to_owned(), &"Nowhere".to_owned()),
        Err(ReceiptError::WrongReceiptThread)
    );
    assert_eq!(
        ReceiptError::WrongReceiptType.message(),
        "Wrong receipt type"
    );
    assert_eq!(
        ReceiptError::WrongReceiptThread.message(),
        "Wrong receipt thread"
    );
    assert_eq!(ReceiptType::for_mark_as_read(true), ReceiptType::Read);
    assert_eq!(ReceiptType::for_mark_as_read(false), ReceiptType::FullyRead);
}

#[test]
fn an_emoji_is_its_code_point_and_its_name() {
    let emoji = VerificationEmoji::new(0x1F436, "Dog".to_owned());
    assert_eq!(emoji.symbol(), 0x1F436);
    assert_eq!(emoji.description(), "Dog");
    let emoji = VerificationEmoji::from_symbol("\u{1F431}\u{FE0F}", "Cat");
    assert_eq!(emoji.symbol(), 0x1F431);
    assert_eq!(emoji.description(), "Cat");
    let copy = emoji.clone();
    assert_eq!(copy.symbol(), 0x1F431);
}

#[test]
fn a_wrapper_holds_the_store_and_the_cache() {
    let wrapper = MediaStoreWrapper::new("store", vec![1u8, 2, 3]);
    assert_eq!(*wrapper.inner(), "store");
    assert_eq!(*wrapper.media(), vec![1u8, 2, 3]);
}

#[test]
fn news_of_a_room_the_client_has_left_are_passed_over() {
    let mut client = client();
    client.handle(news("$n1", "!a:x", "first").into()).unwrap();
    client.handle(news("$n2", "!b:x", "second").into()).unwrap();
    client.handle(news("$n3", "!a:x", "third").into()).unwrap();
    client.handle(news("$n4", "!b:x", "fourth").into()).unwrap();

    let ids = |entries: Vec<NewsEntry>| -> Vec<String> {
        entries.into_iter().map(|e| e.meta.event_id).collect()
    };
    // an entry that is passed over does not count
    assert_eq!(
        ids(client
            .latest_news_entries(&strings(&["!a:x"]), 2)
            .unwrap()),
        strings(&["$n3", "$n1"])
    );
    assert_eq!(
        ids(client
            .latest_news_entries(&strings(&["!b:x"]), 1)
            .unwrap()),
        strings(&["$n4"])
    );
    assert_eq!(
        ids(client.latest_news_entries(&strings(&[]), 5).unwrap()),
        strings(&[])
    );
    assert_eq!(
        ids(client
            .latest_news_entries(&strings(&["!c:x", "!b:x", "!a:x"]), 3)
            .unwrap()),
        strings(&["$n4", "$n3", "$n2"])
    );
    // the room the entry is in decides, not the index it is read from
    let entries = vec![
        news("$n1", "!a:x", "first"),
        news("$n2", "!b:x", "second"),
    ];
    assert_eq!(
        ids(known_news(&entries, &strings(&["!b:x"]))),
        strings(&["$n2"])
    );
    assert_eq!(ids(newest(&entries, 1)), strings(&["$n2"]));
    assert_eq!(
        ids(news_of(&vec![
            entries[0].clone().into(),
            AnyActerModel::TestModel(
                TestModelBuilder::default()
                    .event_id("$t".to_owned())
                    .build()
                    .unwrap()
            ),
            entries[1].clone().into()
        ])),
        strings(&["$n1", "$n2"])
    );
}

#[test]
fn a_news_entry_is_refreshed_from_the_store() {
    let mut client = client();
    let stale = news("$n1", "!a:x", "first");
    assert_eq!(client.refresh_news_entry(&stale), Err(Error::NotFound));
    client
        .handle(news("$n1", "!a:x", "second").into())
        .unwrap();
    assert_eq!(
        client.refresh_news_entry(&stale),
        Ok(news("$n1", "!a:x", "second"))
    );
    client
        .handle(
            TestModelBuilder::default()
                .event_id("$other".to_owned())
                .build()
                .unwrap()
                .into(),
        )
        .unwrap();
    assert_eq!(
        client.refresh_news_entry(&news("$other", "!a:x", "x")),
        Err(Error::Serialization)
    );
}

#[test]
fn every_entry_shows_the_same_counts() {
    let entry = news("$n1", "!a:x", "first");
    assert_eq!(entry.comments_count(), 4);
    assert_eq!(entry.likes_count(), 19);
    let other = news("$n2", "!b:x", "second");
    assert_eq!(other.comments_count(), 4);
    assert_eq!(other.likes_count(), 19);
}
