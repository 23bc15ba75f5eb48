use relm_core::channel::{Channel, SendError};

#[test]
fn delivers_in_send_order() {
    let mut c: Channel<u32> = Channel::new();
    assert_eq!(c.len(), 0);
    c.send(1).unwrap();
    c.send(2).unwrap();
    c.send(3).unwrap();
    assert_eq!(c.len(), 3);
    assert_eq!(c.try_recv(), Some(1));
    assert_eq!(c.try_recv(), Some(2));
    assert_eq!(c.try_recv(), Some(3));
}

#[test]
fn delivers_each_message_exactly_once() {
    let mut c: Channel<u32> = Channel::new();
    c.send(7).unwrap();
    assert_eq!(c.try_recv(), Some(7));
    assert_eq!(c.try_recv(), None);
    assert_eq!(c.try_recv(), None);
}

#[test]
fn send_after_close_fails_without_losing_queued_messages() {
    let mut c: Channel<u32> = Channel::new();
    c.send(5).unwrap();
    c.close();
    assert_eq!(c.send(6), Err(SendError));
    assert_eq!(c.len(), 1);
    assert_eq!(c.try_recv(), Some(5));
    assert_eq!(c.try_recv(), None);
}

#[test]
fn clear_abandons_pending_messages() {
    let mut c: Channel<u32> = Channel::new();
    c.send(1).unwrap();
    c.send(2).unwrap();
    c.clear();
    assert_eq!(c.len(), 0);
    assert_eq!(c.try_recv(), None);
}
