use wifi_direct_rs::{
    run_script, CommandQueue, EventTopic, LoopState, ManagerCommand, P2pError, P2pEvent,
    SubmitOutcome,
};

#[test]
fn queue_keeps_submission_order() {
    let mut queue = CommandQueue::new(32);
    // Two handles interleave their submissions.
    assert!(matches!(queue.submit(ManagerCommand::Discover), SubmitOutcome::Enqueued));
    assert!(matches!(
        queue.submit(ManagerCommand::Connect { device_address: "aa:bb:cc:dd:ee:ff".to_string() }),
        SubmitOutcome::Enqueued
    ));
    assert!(matches!(queue.submit(ManagerCommand::StopDiscovery), SubmitOutcome::Enqueued));
    queue.close_producers();
    assert_eq!(queue.next_command(), Some(ManagerCommand::Discover));
    assert_eq!(
        queue.next_command(),
        Some(ManagerCommand::Connect { device_address: "aa:bb:cc:dd:ee:ff".to_string() })
    );
    assert_eq!(queue.next_command(), Some(ManagerCommand::StopDiscovery));
    assert_eq!(queue.next_command(), None);
}

#[test]
fn full_queue_makes_the_caller_wait_without_dropping() {
    let mut queue = CommandQueue::new(1);
    assert!(matches!(queue.submit(ManagerCommand::Discover), SubmitOutcome::Enqueued));
    match queue.submit(ManagerCommand::CreateGroup) {
        SubmitOutcome::MustWait(command) => assert_eq!(command, ManagerCommand::CreateGroup),
        other => panic!("expected MustWait, not {other:?}"),
    }
    // The earlier command is still first in line, unharmed.
    queue.close_producers();
    assert_eq!(queue.next_command(), Some(ManagerCommand::Discover));
    assert_eq!(queue.next_command(), None);
}

#[test]
fn submit_after_consumer_gone_is_refused_as_channel_closed() {
    let mut queue = CommandQueue::new(8);
    queue.close_consumer();
    match queue.submit(ManagerCommand::Discover) {
        SubmitOutcome::Refused(command, error) => {
            assert_eq!(command, ManagerCommand::Discover);
            assert_eq!(error, P2pError::ChannelClosed("manager".to_string()));
        }
        other => panic!("expected Refused, not {other:?}"),
    }
}

#[test]
fn command_enqueued_before_producers_close_is_still_executed() {
    let mut queue = CommandQueue::new(8);
    assert!(matches!(queue.submit(ManagerCommand::Discover), SubmitOutcome::Enqueued));
    queue.close_producers();
    let mut drained = Vec::new();
    while let Some(command) = queue.next_command() {
        drained.push(command);
    }
    let mut topic = EventTopic::new(64);
    let run = run_script(drained, vec![Ok(())], &mut topic);
    assert_eq!(run.replies, vec![Ok(())]);
    assert!(matches!(run.state, LoopState::Stopped));
}

#[test]
fn drained_queue_feeds_the_port_in_submission_order() {
    let mut queue = CommandQueue::new(32);
    let submitted = vec![
        ManagerCommand::Discover,
        ManagerCommand::CreateGroup,
        ManagerCommand::Connect { device_address: "02:11:22:33:44:55".to_string() },
    ];
    for command in &submitted {
        assert!(matches!(queue.submit(command.duplicate()), SubmitOutcome::Enqueued));
    }
    queue.close_producers();
    let mut drained = Vec::new();
    while let Some(command) = queue.next_command() {
        drained.push(command);
    }
    let outcomes: Vec<Result<(), P2pError>> = vec![Ok(()), Ok(()), Ok(())];
    let mut topic = EventTopic::new(64);
    let mut subscriber = topic.subscribe();
    let run = run_script(drained, outcomes, &mut topic);
    assert_eq!(run.invocations, submitted);
    assert_eq!(topic.recv(&mut subscriber), Some(P2pEvent::DiscoveryStarted));
    assert_eq!(topic.recv(&mut subscriber), Some(P2pEvent::GroupCreated));
    assert_eq!(
        topic.recv(&mut subscriber),
        Some(P2pEvent::Connected("02:11:22:33:44:55".to_string()))
    );
    assert_eq!(topic.recv(&mut subscriber), None);
}
