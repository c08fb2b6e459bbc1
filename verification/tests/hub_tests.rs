use actix_ws_redis_protobuf::hub::{Hub, HubCommand};
use actix_ws_redis_protobuf::message::ServerMessage;

fn text(s: &str) -> ServerMessage {
    ServerMessage::Text(s.to_string())
}

fn expect_one_text(msgs: &[ServerMessage], want: &str) {
    assert_eq!(msgs.len(), 1);
    match &msgs[0] {
        ServerMessage::Text(s) => assert_eq!(s, want),
        ServerMessage::Binary(_) => panic!("unexpected binary message"),
    }
}

#[test]
fn broadcasts_to_subscribers() {
    let mut hub = Hub::default();
    hub.handle(HubCommand::Subscribe(1));

    hub.broadcast(&text("hi"));

    let msgs = hub.take_messages(1);
    expect_one_text(&msgs, "hi");
}

#[test]
fn fanout_reaches_every_subscriber_exactly_once() {
    let mut hub = Hub::default();
    for id in 0..10u64 {
        hub.subscribe(id);
    }

    hub.broadcast(&text("m"));

    for id in 0..10u64 {
        let msgs = hub.take_messages(id);
        expect_one_text(&msgs, "m");
    }
}

#[test]
fn closed_mailbox_does_not_disturb_the_rest() {
    let mut hub = Hub::default();
    hub.subscribe(1);
    hub.subscribe(2);
    hub.subscribe(3);
    hub.close_mailbox(2);

    hub.broadcast(&text("m"));

    expect_one_text(&hub.take_messages(1), "m");
    assert_eq!(hub.take_messages(2).len(), 0);
    expect_one_text(&hub.take_messages(3), "m");
    // the closed recipient is still a member until it unsubscribes itself
    assert!(hub.is_subscribed(2));
}

#[test]
fn subscribe_is_idempotent() {
    let mut hub = Hub::default();
    hub.subscribe(7);
    hub.subscribe(7);
    assert_eq!(hub.subscriber_count(), 1);
    assert!(hub.is_subscribed(7));
}

#[test]
fn unsubscribe_of_unknown_handle_is_a_no_op() {
    let mut hub = Hub::default();
    hub.subscribe(1);
    hub.unsubscribe(99);
    assert_eq!(hub.subscriber_count(), 1);
    hub.handle(HubCommand::Unsubscribe(1));
    assert_eq!(hub.subscriber_count(), 0);
}

#[test]
fn broadcast_to_empty_hub_is_not_an_error() {
    let mut hub = Hub::default();
    hub.broadcast(&text("x"));
    assert_eq!(hub.subscriber_count(), 0);
}

#[test]
fn take_messages_drains_the_queue() {
    let mut hub = Hub::default();
    hub.subscribe(1);
    hub.broadcast(&text("a"));
    hub.broadcast(&text("b"));

    let msgs = hub.take_messages(1);
    assert_eq!(msgs.len(), 2);
    match (&msgs[0], &msgs[1]) {
        (ServerMessage::Text(a), ServerMessage::Text(b)) => {
            assert_eq!(a, "a");
            assert_eq!(b, "b");
        }
        _ => panic!("unexpected binary message"),
    }
    assert_eq!(hub.take_messages(1).len(), 0);
}

#[test]
fn take_messages_for_unknown_handle_is_empty() {
    let mut hub = Hub::default();
    assert_eq!(hub.take_messages(5).len(), 0);
}

#[test]
fn binary_broadcast_keeps_payload() {
    let mut hub = Hub::default();
    hub.subscribe(1);
    let payload = bytes::Bytes::from(vec![9u8, 8, 7]);
    hub.broadcast(&ServerMessage::Binary(payload));

    let msgs = hub.take_messages(1);
    assert_eq!(msgs.len(), 1);
    match &msgs[0] {
        ServerMessage::Binary(b) => assert_eq!(b.as_ref(), &[9u8, 8, 7]),
        ServerMessage::Text(_) => panic!("unexpected text message"),
    }
}
