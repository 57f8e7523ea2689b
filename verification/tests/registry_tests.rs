use chat_relay::registry::{delivery, Delivery, Registry};
use tokio::sync::mpsc::error::TryRecvError;
use tokio::sync::mpsc::{unbounded_channel, UnboundedReceiver};
use tokio_tungstenite::tungstenite::Message;

fn connect(registry: &mut Registry) -> (u64, UnboundedReceiver<Message>) {
    let (sender, receiver) = unbounded_channel::<Message>();
    let handle = registry.register(sender).unwrap();
    (handle, receiver)
}

fn next_text(receiver: &mut UnboundedReceiver<Message>) -> Option<String> {
    match receiver.try_recv() {
        Ok(Message::Text(text)) => Some(text.as_str().to_owned()),
        _ => None,
    }
}

#[test]
fn new_registry_is_empty() {
    let registry = Registry::new();
    assert!(registry.is_empty());
    assert_eq!(registry.len(), 0);
    assert_eq!(registry.handle_list(), Vec::<u64>::new());
    assert!(registry.broadcast("nobody").is_empty());
}

#[test]
fn handles_count_up_and_are_never_given_twice() {
    let mut registry = Registry::new();
    let (a, _ra) = connect(&mut registry);
    let (b, _rb) = connect(&mut registry);
    assert_eq!((a, b), (0, 1));
    assert!(registry.unregister(a));
    let (c, _rc) = connect(&mut registry);
    assert_eq!(c, 2);
    assert_eq!(registry.handle_list(), vec![1, 2]);
    assert_eq!(registry.len(), 2);
    assert!(!registry.is_empty());
    assert!(registry.contains(1));
    assert!(!registry.contains(0));
}

#[test]
fn broadcast_reaches_every_peer_once() {
    let mut registry = Registry::new();
    let mut receivers = Vec::new();
    for _ in 0..5 {
        receivers.push(connect(&mut registry));
    }
    let report = registry.broadcast("hello");
    assert_eq!(
        report,
        (0..5u64).map(|handle| Delivery { handle, accepted: true }).collect::<Vec<_>>()
    );
    for (_, receiver) in receivers.iter_mut() {
        assert_eq!(next_text(receiver), Some(String::from("hello")));
        assert!(matches!(receiver.try_recv(), Err(TryRecvError::Empty)));
    }
}

#[test]
fn gone_peer_does_not_stop_the_others() {
    let mut registry = Registry::new();
    let (_, mut first) = connect(&mut registry);
    let (gone, dropped) = connect(&mut registry);
    let (_, mut last) = connect(&mut registry);
    drop(dropped);
    let report = registry.broadcast("still here");
    assert_eq!(
        report,
        vec![
            Delivery { handle: 0, accepted: true },
            Delivery { handle: gone, accepted: false },
            Delivery { handle: 2, accepted: true },
        ]
    );
    assert_eq!(next_text(&mut first), Some(String::from("still here")));
    assert_eq!(next_text(&mut last), Some(String::from("still here")));
    assert_eq!(registry.len(), 3);
}

#[test]
fn closed_queue_refuses() {
    let mut registry = Registry::new();
    let (_, mut receiver) = connect(&mut registry);
    receiver.close();
    assert_eq!(registry.broadcast("x"), vec![Delivery { handle: 0, accepted: false }]);
}

#[test]
fn queue_keeps_the_order_of_sends() {
    let mut registry = Registry::new();
    let (_, mut a) = connect(&mut registry);
    let (_, mut b) = connect(&mut registry);
    registry.broadcast("one");
    registry.broadcast("two");
    for receiver in [&mut a, &mut b] {
        assert_eq!(next_text(receiver), Some(String::from("one")));
        assert_eq!(next_text(receiver), Some(String::from("two")));
        assert_eq!(next_text(receiver), None);
    }
}

#[test]
fn unregistered_peer_gets_nothing_more() {
    let mut registry = Registry::new();
    let (a, mut ra) = connect(&mut registry);
    let (b, mut rb) = connect(&mut registry);
    registry.broadcast("before");
    assert!(registry.unregister(a));
    assert!(!registry.unregister(a));
    assert!(!registry.unregister(99));
    let report = registry.broadcast("after");
    assert_eq!(report, vec![Delivery { handle: b, accepted: true }]);
    assert_eq!(next_text(&mut ra), Some(String::from("before")));
    assert_eq!(next_text(&mut ra), None);
    assert_eq!(next_text(&mut rb), Some(String::from("before")));
    assert_eq!(next_text(&mut rb), Some(String::from("after")));
}

#[test]
fn unregister_keeps_the_order_of_the_rest() {
    let mut registry = Registry::new();
    let mut keep = Vec::new();
    for _ in 0..4 {
        keep.push(connect(&mut registry));
    }
    assert!(registry.unregister(1));
    assert_eq!(registry.handle_list(), vec![0, 2, 3]);
    assert!(registry.unregister(3));
    assert_eq!(registry.handle_list(), vec![0, 2]);
    assert!(registry.unregister(0));
    assert!(registry.unregister(2));
    assert!(registry.is_empty());
}

#[test]
fn delivery_holds_what_it_is_given() {
    assert_eq!(delivery(4, true), Delivery { handle: 4, accepted: true });
    assert_eq!(delivery(0, false), Delivery { handle: 0, accepted: false });
}
