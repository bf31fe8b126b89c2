use scrape_core::input_messages::{GameEvent, PlayerJoined, Shoot};
use scrape_core::message_queue::MessageQueue;
use scrape_core::networking::NetAddress;

fn queue_addr(port: u16) -> NetAddress {
    NetAddress { ip: 0x7f000001, port }
}

fn join_event(id: &str) -> GameEvent {
    GameEvent::Joined(PlayerJoined { id: id.to_string(), username: id.to_string() })
}

#[test]
fn enqueue_assigns_increasing_orders() {
    let mut queue = MessageQueue::new();
    assert_eq!(queue.peek_latest_order(), 0);
    queue.enqueue(join_event("a"), queue_addr(1));
    assert_eq!(queue.peek_latest_order(), 1);
    queue.enqueue(GameEvent::Shoot(Shoot {}), queue_addr(2));
    assert_eq!(queue.peek_latest_order(), 2);
    queue.enqueue(join_event("b"), queue_addr(3));
    assert_eq!(queue.peek_latest_order(), 3);

    let drained = queue.drain_all();
    assert_eq!(drained.len(), 3);
    assert_eq!(drained[0].order, 1);
    assert_eq!(drained[1].order, 2);
    assert_eq!(drained[2].order, 3);
    assert_eq!(drained[0].addr, queue_addr(1));
    assert_eq!(drained[1].addr, queue_addr(2));
    assert_eq!(drained[2].addr, queue_addr(3));
}

#[test]
fn drain_twice_returns_empty_second_time() {
    let mut queue = MessageQueue::new();
    queue.enqueue(join_event("a"), queue_addr(1));
    queue.enqueue(join_event("b"), queue_addr(2));

    let first = queue.drain_all();
    assert_eq!(first.len(), 2);

    let second = queue.drain_all();
    assert!(second.is_empty());
}

#[test]
fn orders_continue_after_drain() {
    let mut queue = MessageQueue::new();
    queue.enqueue(join_event("a"), queue_addr(1));
    queue.enqueue(join_event("b"), queue_addr(2));
    let _ = queue.drain_all();
    assert_eq!(queue.peek_latest_order(), 0);
    queue.enqueue(join_event("c"), queue_addr(3));
    let drained = queue.drain_all();
    assert_eq!(drained.len(), 1);
    assert_eq!(drained[0].order, 1);
}
