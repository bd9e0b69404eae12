use onion_client::app::{ChannelTypes, CircuitInfo};
use onion_client::channel::NotificationChannel;

fn event_with(record_count: usize) -> ChannelTypes {
    let mut records = Vec::new();
    for i in 0..record_count {
        records.push(CircuitInfo {
            ip_address: format!("10.0.0.{}", i),
            city: "C".to_string(),
            country: "N".to_string(),
        });
    }
    ChannelTypes::CircuitInformation(records)
}

fn record_count(event: &ChannelTypes) -> usize {
    match event {
        ChannelTypes::CircuitInformation(records) => records.len(),
    }
}

#[test]
fn publish_into_full_queue_comes_back() {
    let mut queue = NotificationChannel::with_capacity(5);
    for i in 0..5 {
        assert!(queue.try_publish(event_with(i)).is_ok());
    }
    assert_eq!(queue.len(), 5);
    let rejected = queue.try_publish(event_with(9));
    match rejected {
        Err(event) => assert_eq!(record_count(&event), 9),
        Ok(()) => panic!("a full queue must not accept a sixth event"),
    }
    assert_eq!(queue.len(), 5);

    let drained = queue.take_next().expect("five events are queued");
    assert_eq!(record_count(&drained), 0);
    assert!(queue.try_publish(event_with(9)).is_ok());
}

#[test]
fn events_keep_arrival_order() {
    let mut queue = NotificationChannel::with_capacity(3);
    assert!(queue.try_publish(event_with(1)).is_ok());
    assert!(queue.try_publish(event_with(2)).is_ok());
    assert_eq!(record_count(&queue.take_next().unwrap()), 1);
    assert_eq!(record_count(&queue.take_next().unwrap()), 2);
    assert!(queue.take_next().is_none());
}

#[test]
fn scenario_d_bounded_send_suspends_until_drained() {
    let runtime = tokio::runtime::Builder::new_current_thread()
        .enable_time()
        .build()
        .unwrap();
    runtime.block_on(async {
        let (sender, mut receiver) = tokio::sync::mpsc::channel::<ChannelTypes>(5);
        for i in 0..5 {
            sender.send(event_with(i)).await.unwrap();
        }
        // The sixth publish suspends while nothing drains.
        let sixth = tokio::time::timeout(
            std::time::Duration::from_millis(50),
            sender.send(event_with(5)),
        )
        .await;
        assert!(sixth.is_err());

        // After the receiver drains one message the publish goes through.
        let first = receiver.recv().await.unwrap();
        assert_eq!(record_count(&first), 0);
        let retried = tokio::time::timeout(
            std::time::Duration::from_millis(50),
            sender.send(event_with(5)),
        )
        .await;
        assert!(matches!(retried, Ok(Ok(()))));
    });
}
