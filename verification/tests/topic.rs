use wifi_direct_rs::{EventTopic, P2pDevice, P2pEvent};

#[test]
fn subscriber_created_before_publication_observes_the_event() {
    let mut topic = EventTopic::new(16);
    let mut subscriber = topic.subscribe();
    topic.publish(P2pEvent::GroupCreated);
    assert_eq!(topic.recv(&mut subscriber), Some(P2pEvent::GroupCreated));
    assert_eq!(topic.recv(&mut subscriber), None);
}

#[test]
fn subscriber_created_after_publication_never_observes_the_event() {
    let mut topic = EventTopic::new(16);
    topic.publish(P2pEvent::DiscoveryStarted);
    let mut subscriber = topic.subscribe();
    assert_eq!(topic.recv(&mut subscriber), None);
    topic.publish(P2pEvent::DiscoveryStopped);
    assert_eq!(topic.recv(&mut subscriber), Some(P2pEvent::DiscoveryStopped));
    assert_eq!(topic.recv(&mut subscriber), None);
}

#[test]
fn independent_subscribers_each_see_every_event() {
    let mut topic = EventTopic::new(16);
    let mut first = topic.subscribe();
    let mut second = topic.subscribe();
    topic.publish(P2pEvent::DiscoveryStarted);
    topic.publish(P2pEvent::GroupCreated);
    assert_eq!(topic.recv(&mut first), Some(P2pEvent::DiscoveryStarted));
    assert_eq!(topic.recv(&mut second), Some(P2pEvent::DiscoveryStarted));
    assert_eq!(topic.recv(&mut first), Some(P2pEvent::GroupCreated));
    assert_eq!(topic.recv(&mut second), Some(P2pEvent::GroupCreated));
}

#[test]
fn lagging_subscriber_skips_oldest_unread_events() {
    let mut topic = EventTopic::new(1);
    let mut subscriber = topic.subscribe();
    topic.publish(P2pEvent::DiscoveryStarted);
    topic.publish(P2pEvent::Connected("aa:bb:cc:dd:ee:ff".to_string()));
    topic.publish(P2pEvent::DiscoveryStopped);
    // Only one event of backlog is kept: the two oldest are skipped.
    assert_eq!(topic.recv(&mut subscriber), Some(P2pEvent::DiscoveryStopped));
    assert_eq!(topic.recv(&mut subscriber), None);
}

#[test]
fn publish_never_waits_on_a_slow_subscriber() {
    let mut topic = EventTopic::new(2);
    let mut subscriber = topic.subscribe();
    for _ in 0..10 {
        topic.publish(P2pEvent::GroupCreated);
    }
    // The publisher got through all ten; the subscriber sees the newest two.
    assert_eq!(topic.recv(&mut subscriber), Some(P2pEvent::GroupCreated));
    assert_eq!(topic.recv(&mut subscriber), Some(P2pEvent::GroupCreated));
    assert_eq!(topic.recv(&mut subscriber), None);
}

#[test]
fn peer_found_event_carries_the_device_record() {
    let device = P2pDevice {
        mac_address: "02:11:22:33:44:55".to_string(),
        device_name: Some("printer".to_string()),
        primary_type: Some("1-0050F204-1".to_string()),
    };
    let mut topic = EventTopic::new(4);
    let mut subscriber = topic.subscribe();
    topic.publish(P2pEvent::PeerFound(device.clone()));
    assert_eq!(topic.recv(&mut subscriber), Some(P2pEvent::PeerFound(device)));
}

#[test]
fn duplicate_event_is_equal() {
    let event = P2pEvent::Connected("aa:bb:cc:dd:ee:ff".to_string());
    assert_eq!(event.duplicate(), event);
    let device = P2pDevice {
        mac_address: "02:11:22:33:44:55".to_string(),
        device_name: None,
        primary_type: None,
    };
    let found = P2pEvent::PeerFound(device.clone());
    assert_eq!(found.duplicate(), found);
    assert_eq!(device.duplicate(), device);
}
