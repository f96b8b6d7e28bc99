use flyer_control::port::{InputQueue, INPUT_DEPTH};

#[test]
fn input_depth_is_1024() {
    assert_eq!(INPUT_DEPTH, 1024);
    let mut q: InputQueue<usize> = InputQueue::new();
    for n in 0..1024 {
        assert!(q.send(n));
    }
    assert!(!q.send(1024));
    assert_eq!(q.len(), 1024);
    assert_eq!(q.overflowed(), 1);
}

#[test]
fn inputs_leave_in_order_of_arrival() {
    let mut q: InputQueue<&str> = InputQueue::with_depth(3);
    assert_eq!(q.recv(), None);
    assert!(q.send("a"));
    assert!(q.send("b"));
    assert_eq!(q.recv(), Some("a"));
    assert!(q.send("c"));
    assert_eq!(q.recv(), Some("b"));
    assert_eq!(q.recv(), Some("c"));
    assert_eq!(q.recv(), None);
}

#[test]
fn full_queue_drops_what_arrives() {
    let mut q: InputQueue<u8> = InputQueue::with_depth(2);
    assert!(q.send(1));
    assert!(q.send(2));
    assert!(!q.send(3));
    assert!(!q.send(4));
    assert_eq!(q.overflowed(), 2);
    assert_eq!(q.recv(), Some(1));
    assert!(q.send(5));
    assert_eq!(q.recv(), Some(2));
    assert_eq!(q.recv(), Some(5));
    assert_eq!(q.recv(), None);
    assert_eq!(q.overflowed(), 2);
}

#[test]
fn queue_of_no_depth_drops_everything() {
    let mut q: InputQueue<u8> = InputQueue::with_depth(0);
    assert!(!q.send(1));
    assert_eq!(q.len(), 0);
    assert_eq!(q.recv(), None);
}
