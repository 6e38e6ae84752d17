use acter_executor::verification::{KeyVerification, VerificationEvent};

fn s(text: &str) -> String {
    text.to_owned()
}

#[test]
fn a_request_in_a_room_names_no_device() {
    let event = VerificationEvent::received(KeyVerification::RoomRequest {
        flow_id: s("$request"),
        sender: s("@alice:example.org"),
    });
    assert_eq!(
        event,
        VerificationEvent::new(
            s("m.key.verification.request"),
            s("$request"),
            s("@alice:example.org"),
            None,
            None,
            None
        )
    );
    assert_eq!(event.event_type(), "m.key.verification.request");
    assert_eq!(event.flow_id(), "$request");
    assert_eq!(event.sender(), "@alice:example.org");
    assert_eq!(event.cancel_code(), None);
    assert_eq!(event.reason(), None);
    assert_eq!(event.was_triggered_from_this_device(&s("DEVICE")), None);
}

#[test]
fn a_request_a_ready_and_a_start_name_the_device() {
    let steps = [
        (
            KeyVerification::Request {
                flow_id: s("txn"),
                sender: s("@alice:example.org"),
                from_device: s("ALICE1"),
            },
            "m.key.verification.request",
        ),
        (
            KeyVerification::Ready {
                flow_id: s("txn"),
                sender: s("@alice:example.org"),
                from_device: s("ALICE1"),
            },
            "m.key.verification.ready",
        ),
        (
            KeyVerification::Start {
                flow_id: s("txn"),
                sender: s("@alice:example.org"),
                from_device: s("ALICE1"),
            },
            "m.key.verification.start",
        ),
    ];
    for (step, event_type) in steps {
        let event = VerificationEvent::received(step);
        assert_eq!(
            event,
            VerificationEvent::new(
                s(event_type),
                s("txn"),
                s("@alice:example.org"),
                Some(s("ALICE1")),
                None,
                None
            )
        );
        assert_eq!(
            event.was_triggered_from_this_device(&s("ALICE1")),
            Some(true)
        );
        assert_eq!(
            event.was_triggered_from_this_device(&s("BOB1")),
            Some(false)
        );
    }
}

#[test]
fn a_cancel_carries_its_code_and_reason() {
    let event = VerificationEvent::received(KeyVerification::Cancel {
        flow_id: s("txn"),
        sender: s("@alice:example.org"),
        code: s("m.user"),
        reason: s("changed her mind"),
    });
    assert_eq!(event.event_type(), "m.key.verification.cancel");
    assert_eq!(event.cancel_code(), Some(s("m.user")));
    assert_eq!(event.reason(), Some(s("changed her mind")));
    assert_eq!(event.was_triggered_from_this_device(&s("ALICE1")), None);
    assert_eq!(event.clone(), event);
}

#[test]
fn the_other_steps_carry_the_flow_and_the_sender() {
    let steps = [
        (
            KeyVerification::Accept {
                flow_id: s("txn"),
                sender: s("@bob:example.org"),
            },
            "m.key.verification.accept",
        ),
        (
            KeyVerification::Key {
                flow_id: s("txn"),
                sender: s("@bob:example.org"),
            },
            "m.key.verification.key",
        ),
        (
            KeyVerification::Mac {
                flow_id: s("txn"),
                sender: s("@bob:example.org"),
            },
            "m.key.verification.mac",
        ),
        (
            KeyVerification::Done {
                flow_id: s("txn"),
                sender: s("@bob:example.org"),
            },
            "m.key.verification.done",
        ),
    ];
    for (step, event_type) in steps {
        assert_eq!(
            VerificationEvent::received(step),
            VerificationEvent::new(
                s(event_type),
                s("txn"),
                s("@bob:example.org"),
                None,
                None,
                None
            )
        );
    }
}
