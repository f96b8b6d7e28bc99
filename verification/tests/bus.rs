use flyer_control::bus::{Bus, BROADCAST_DEPTH};

#[test]
fn subscriber_receives_in_order_of_arrival() {
    let mut bus: Bus<u32> = Bus::new();
    let rx = bus.add_rx();
    for n in 0..10 {
        assert!(bus.try_broadcast(&n));
    }
    for n in 0..10 {
        assert_eq!(bus.try_recv(rx), Some(n));
    }
    assert_eq!(bus.try_recv(rx), None);
    assert_eq!(bus.rx_dropped(rx), 0);
}

#[test]
fn late_subscriber() {
    let mut bus: Bus<String> = Bus::new();
    let early = bus.add_rx();
    for n in 1..=100 {
        bus.try_broadcast(&format!("message {}", n));
        assert_eq!(bus.try_recv(early), Some(format!("message {}", n)));
    }
    let late = bus.add_rx();
    assert_eq!(bus.try_recv(late), None);
    bus.try_broadcast(&format!("message {}", 101));
    bus.try_broadcast(&format!("message {}", 102));
    assert_eq!(bus.try_recv(late), Some("message 101".to_string()));
    assert_eq!(bus.try_recv(late), Some("message 102".to_string()));
    assert_eq!(bus.try_recv(late), None);
    assert_eq!(bus.try_recv(early), Some("message 101".to_string()));
}

#[test]
fn overflow_drops_the_newest_for_the_full_subscriber_only() {
    let mut bus: Bus<u32> = Bus::with_depth(3);
    let slow = bus.add_rx();
    let fast = bus.add_rx();
    for n in 0..3 {
        assert!(bus.try_broadcast(&n));
        assert_eq!(bus.try_recv(fast), Some(n));
    }
    assert!(!bus.try_broadcast(&3));
    assert!(!bus.try_broadcast(&4));
    assert_eq!(bus.rx_dropped(slow), 2);
    assert_eq!(bus.rx_dropped(fast), 0);
    assert_eq!(bus.try_recv(fast), Some(3));
    assert_eq!(bus.try_recv(fast), Some(4));
    assert_eq!(bus.rx_len(slow), 3);
    assert_eq!(bus.try_recv(slow), Some(0));
    assert_eq!(bus.try_recv(slow), Some(1));
    assert_eq!(bus.try_recv(slow), Some(2));
    assert_eq!(bus.try_recv(slow), None);
    assert!(bus.try_broadcast(&5));
    assert_eq!(bus.try_recv(slow), Some(5));
}

#[test]
fn standard_depth_is_1024() {
    assert_eq!(BROADCAST_DEPTH, 1024);
    let mut bus: Bus<u32> = Bus::new();
    let rx = bus.add_rx();
    for n in 0..1024 {
        assert!(bus.try_broadcast(&n));
    }
    assert!(!bus.try_broadcast(&1024));
    assert_eq!(bus.rx_len(rx), 1024);
    assert_eq!(bus.rx_dropped(rx), 1);
}

#[test]
fn removed_subscriber_receives_nothing() {
    let mut bus: Bus<u32> = Bus::with_depth(2);
    let rx = bus.add_rx();
    bus.try_broadcast(&1);
    bus.try_broadcast(&2);
    assert_eq!(bus.try_recv(rx), Some(1));
    bus.remove_rx(rx);
    assert!(!bus.rx_is_open(rx));
    assert_eq!(bus.rx_len(rx), 0);
    assert_eq!(bus.rx_dropped(rx), 0);
    assert_eq!(bus.try_recv(rx), None);
    for n in 0..5 {
        assert!(bus.try_broadcast(&n));
    }
    assert_eq!(bus.rx_len(rx), 0);
    assert_eq!(bus.try_recv(rx), None);
}

#[test]
fn unknown_subscriber_is_ignored() {
    let mut bus: Bus<u32> = Bus::new();
    assert!(bus.try_broadcast(&1));
    assert_eq!(bus.try_recv(7), None);
    assert_eq!(bus.rx_len(7), 0);
    assert_eq!(bus.rx_dropped(7), 0);
    assert!(!bus.rx_is_open(7));
    bus.remove_rx(7);
}
