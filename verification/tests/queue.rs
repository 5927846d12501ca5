use wise::events::RconEvent;
use wise::exporting::messages::{CommandResponseKind, ServerWsMessage, ServerWsResponse};
use wise::exporting::queue::{Delivery, EventSender, EVENT_QUEUE_CAPACITY};
use wise::parsing::showlog::{LogKind, LogLine};

fn event(n: u64) -> RconEvent {
    RconEvent::Log(LogLine { timestamp: n, kind: LogKind::MatchStart { map: String::from("m") } })
}

#[test]
fn a_subscriber_that_fell_behind_is_told_how_far() {
    let mut queue = EventSender::new();
    assert_eq!(EVENT_QUEUE_CAPACITY, 1000);
    let mut subscriber = queue.receiver().unwrap();
    for n in 1..=1500 {
        queue.send_rcon(event(n));
    }
    assert_eq!(subscriber.receive(&queue), Delivery::Lagged(500));
    for n in 501..=1500 {
        assert_eq!(subscriber.receive(&queue), Delivery::Message(ServerWsMessage::Rcon(event(n))));
    }
    assert_eq!(subscriber.receive(&queue), Delivery::Empty);
}

#[test]
fn a_message_without_subscribers_is_dropped() {
    let mut queue = EventSender::new();
    queue.send_rcon(event(1));
    let mut subscriber = queue.receiver().unwrap();
    assert_eq!(subscriber.receive(&queue), Delivery::Empty);
    queue.send_rcon(event(2));
    assert_eq!(subscriber.receive(&queue), Delivery::Message(ServerWsMessage::Rcon(event(2))));
}

#[test]
fn every_subscriber_sees_every_message_in_order() {
    let mut queue = EventSender::with_capacity(4);
    let mut first = queue.receiver().unwrap();
    queue.send_rcon(event(1));
    let mut second = queue.receiver().unwrap();
    queue.send_rcon(event(2));
    queue.send_response(
        String::from("r1"),
        ServerWsResponse::Execute { failure: false, response: Some(CommandResponseKind::Success) },
    );
    assert_eq!(first.receive(&queue), Delivery::Message(ServerWsMessage::Rcon(event(1))));
    assert_eq!(first.receive(&queue), Delivery::Message(ServerWsMessage::Rcon(event(2))));
    assert_eq!(second.receive(&queue), Delivery::Message(ServerWsMessage::Rcon(event(2))));
    let response = ServerWsMessage::Response {
        id: String::from("r1"),
        value: ServerWsResponse::Execute {
            failure: false,
            response: Some(CommandResponseKind::Success),
        },
    };
    assert_eq!(first.receive(&queue), Delivery::Message(response.clone()));
    assert_eq!(second.receive(&queue), Delivery::Message(response));
    assert_eq!(first.receive(&queue), Delivery::Empty);
}

#[test]
fn lag_is_counted_from_the_subscribers_place() {
    let mut queue = EventSender::with_capacity(2);
    let mut subscriber = queue.receiver().unwrap();
    queue.send_all(vec![event(1), event(2)]);
    assert_eq!(subscriber.receive(&queue), Delivery::Message(ServerWsMessage::Rcon(event(1))));
    queue.send_all(vec![event(3), event(4), event(5)]);
    // The subscriber stands at the second message; the oldest kept is the fourth.
    assert_eq!(subscriber.receive(&queue), Delivery::Lagged(2));
    assert_eq!(subscriber.receive(&queue), Delivery::Message(ServerWsMessage::Rcon(event(4))));
    assert_eq!(subscriber.receive(&queue), Delivery::Message(ServerWsMessage::Rcon(event(5))));
    assert_eq!(subscriber.receive(&queue), Delivery::Empty);
}

#[test]
fn after_the_last_subscriber_left_messages_are_dropped() {
    let mut queue = EventSender::with_capacity(0);
    let subscriber = queue.receiver().unwrap();
    queue.unsubscribe(subscriber);
    queue.send_rcon(event(1));
    let mut late = queue.receiver().unwrap();
    assert_eq!(late.receive(&queue), Delivery::Empty);
    queue.send_rcon(event(2));
    queue.send_rcon(event(3));
    // A capacity of zero is taken as one.
    assert_eq!(late.receive(&queue), Delivery::Lagged(1));
    assert_eq!(late.receive(&queue), Delivery::Message(ServerWsMessage::Rcon(event(3))));
}
