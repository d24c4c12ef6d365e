//! Many producers and consumers on one bus. Sends and polls are interleaved on the test
//! thread, so these check the delivered counts and contents, not concurrent access.

use std::sync::Arc;

use atomic_bus::{AtomicBus, AtomicSubscription};

fn drain(subscription: &AtomicSubscription<String>, into: &mut Vec<Arc<String>>) -> usize {
    let mut count = 0;
    while let Some(x) = subscription.poll() {
        into.push(x);
        count += 1;
    }
    count
}

#[test]
fn single_producer_single_consumer() {
    let bus = Arc::new(AtomicBus::new());
    let producer_messages: Vec<String> = (0..10000).into_iter().map(|x| x.to_string()).collect();
    let consumer = bus.subscribe();
    let mut consumer_msgs = Vec::new();

    for msg in producer_messages {
        bus.send(msg);
        drain(&consumer, &mut consumer_msgs);
    }
    drain(&consumer, &mut consumer_msgs);

    assert_eq!(10000, consumer_msgs.len());
    for i in 0..10000 {
        assert_eq!(consumer_msgs.get(i).unwrap().as_ref(), &i.to_string());
    }
}

#[test]
fn single_producer_multi_consumer() {
    let bus = Arc::new(AtomicBus::new());
    let producer_messages: Vec<String> = (0..10000).into_iter().map(|x| x.to_string()).collect();
    let consumer1 = bus.subscribe();
    let consumer2 = bus.subscribe();
    let mut consumer1_msgs = Vec::new();
    let mut consumer2_msgs = Vec::new();

    let mut consumed = 0;
    for msg in producer_messages {
        bus.send(msg);
        consumed += drain(&consumer1, &mut consumer1_msgs);
        consumed += drain(&consumer2, &mut consumer2_msgs);
    }
    assert_eq!(20000, consumed);

    assert_eq!(10000, consumer1_msgs.len());
    assert_eq!(10000, consumer2_msgs.len());
    for i in 0..10000 {
        assert_eq!(consumer1_msgs.get(i).unwrap().as_ref(), &i.to_string());
        assert_eq!(consumer2_msgs.get(i).unwrap().as_ref(), &i.to_string());
    }
}

#[test]
fn multi_producer_single_consumer() {
    let bus = Arc::new(AtomicBus::new());
    let producer1_messages: Vec<String> = (0..10000).into_iter().map(|x| format!("p1:{x:05}")).collect();
    let producer2_messages: Vec<String> = (0..10000).into_iter().map(|x| format!("p2:{x:05}")).collect();
    let producer3_messages: Vec<String> = (0..10000).into_iter().map(|x| format!("p3:{x:05}")).collect();
    let producer1 = bus.create_sender();
    let producer2 = bus.create_sender();
    let producer3 = bus.create_sender();
    let consumer = bus.subscribe();
    let mut consumer_msgs = Vec::new();

    for ((m1, m2), m3) in producer1_messages.into_iter().zip(producer2_messages).zip(producer3_messages) {
        producer3.send(m3);
        producer1.send(m1);
        producer2.send(m2);
        drain(&consumer, &mut consumer_msgs);
    }
    drain(&consumer, &mut consumer_msgs);
    consumer_msgs.sort();

    assert_eq!(30000, consumer_msgs.len());
    for i in 0..10000 {
        assert_eq!(consumer_msgs.get(i).unwrap().as_ref(), &format!("p1:{i:05}"));
    }
    for i in 0..10000 {
        assert_eq!(consumer_msgs.get(10000 + i).unwrap().as_ref(), &format!("p2:{i:05}"));
    }
    for i in 0..10000 {
        assert_eq!(consumer_msgs.get(20000 + i).unwrap().as_ref(), &format!("p3:{i:05}"));
    }
}

#[test]
fn high_stress() {
    let bus: Arc<AtomicBus<String>> = Arc::new(AtomicBus::new());
    let producer_count = 4;
    let consumer_count = 4;
    let message_count = 100000;

    let producers: Vec<_> = (0..producer_count).map(|_| bus.create_sender()).collect();
    let consumers: Vec<_> = (0..consumer_count).map(|_| bus.subscribe()).collect();
    let mut consumed_count = 0;
    for x in 0..message_count {
        for (i, producer) in producers.iter().enumerate() {
            producer.send(format!("p{i:03}:{x:09}"));
        }
        for consumer in consumers.iter() {
            while consumer.poll().is_some() {
                consumed_count += 1;
            }
        }
    }

    assert_eq!(producer_count * consumer_count * message_count, consumed_count);
}
