use iceoryx_rs::marker::ShmSend;
use iceoryx_rs::publisher::PublisherBuilder;
use iceoryx_rs::runtime::Runtime;
use iceoryx_rs::subscriber::SubscriberBuilder;

/// The payload of these tests: a four-byte counter.
type Counter = u32;

#[test]
fn single_threaded_subscriber() {
    let mut rt = Runtime::init("basic_pub_sub");

    let (subscriber, sample_receive_token) =
        SubscriberBuilder::<Counter>::new("Test", "BasicPubSub", "Counter")
            .queue_capacity(5)
            .create(&mut rt)
            .unwrap();

    let publisher = PublisherBuilder::<Counter>::new("Test", "BasicPubSub", "Counter")
        .create(&mut rt)
        .unwrap();

    let sample = publisher.loan(&mut rt).unwrap();

    const SEND_COUNTER: u32 = 42;
    sample.set(&mut rt, SEND_COUNTER);
    publisher.publish(&mut rt, sample);

    let sample_receiver = subscriber.get_sample_receiver(&mut rt, sample_receive_token);

    assert!(sample_receiver.has_data(&rt));

    match sample_receiver.take(&mut rt) {
        Some(sample) => assert_eq!(sample.get(&rt), SEND_COUNTER),
        _ => panic!("Could not read sample"),
    }

    publisher.stop_offer(&mut rt);
    subscriber.unsubscribe(&mut rt, sample_receiver);
}

#[test]
fn loan_sample_but_not_publish() {
    let mut rt = Runtime::init("basic_pub_sub");

    let (subscriber, sample_receive_token) =
        SubscriberBuilder::<Counter>::new("Test", "BasicPubSub", "Counter")
            .queue_capacity(5)
            .create(&mut rt)
            .unwrap();

    let publisher = PublisherBuilder::<Counter>::new("Test", "BasicPubSub", "Counter")
        .create(&mut rt)
        .unwrap();

    {
        let sample = publisher.loan(&mut rt).unwrap();
        publisher.release(&mut rt, sample);
    }

    let sample_receiver = subscriber.get_sample_receiver(&mut rt, sample_receive_token);

    assert!(!sample_receiver.has_data(&rt));

    publisher.stop_offer(&mut rt);
    subscriber.unsubscribe(&mut rt, sample_receiver);
}

#[test]
fn loan_sample_but_not_publish_raw() {
    let mut rt = Runtime::init("basic_pub_sub");

    let (subscriber, sample_receive_token) =
        SubscriberBuilder::<Counter>::new("Test", "BasicPubSub", "Counter")
            .queue_capacity(5)
            .create(&mut rt)
            .unwrap();

    let publisher = PublisherBuilder::<Counter>::new("Test", "BasicPubSub", "Counter")
        .create(&mut rt)
        .unwrap();

    {
        let sample = publisher.loan(&mut rt).unwrap().into_raw();
        publisher.release_raw(&mut rt, sample);
    }

    let sample_receiver = subscriber.get_sample_receiver(&mut rt, sample_receive_token);

    assert!(!sample_receiver.has_data(&rt));

    publisher.stop_offer(&mut rt);
    subscriber.unsubscribe(&mut rt, sample_receiver);
}

#[test]
fn loan_uninit_sample_and_publish() {
    let mut rt = Runtime::init("basic_pub_sub");

    let (subscriber, sample_receive_token) =
        SubscriberBuilder::<Counter>::new("Test", "BasicPubSub", "Counter")
            .queue_capacity(5)
            .create(&mut rt)
            .unwrap();

    let publisher = PublisherBuilder::<Counter>::new("Test", "BasicPubSub", "Counter")
        .create(&mut rt)
        .unwrap();

    const SEND_COUNTER: u32 = 73;
    let sample = publisher.loan_uninit(&mut rt).unwrap();
    let sample = sample.write(&mut rt, SEND_COUNTER);
    publisher.publish(&mut rt, sample);

    let sample_receiver = subscriber.get_sample_receiver(&mut rt, sample_receive_token);

    assert!(sample_receiver.has_data(&rt));

    match sample_receiver.take(&mut rt) {
        Some(sample) => assert_eq!(sample.get(&rt), SEND_COUNTER),
        _ => panic!("Could not read sample"),
    }

    publisher.stop_offer(&mut rt);
    subscriber.unsubscribe(&mut rt, sample_receiver);
}

#[test]
fn loan_byte_slice_and_publish() {
    let mut rt = Runtime::init("basic_pub_sub");

    let (subscriber, sample_receive_token) =
        SubscriberBuilder::<[u8]>::new("Test", "BasicPubSub", "Counter")
            .queue_capacity(5)
            .create(&mut rt)
            .unwrap();

    let publisher = PublisherBuilder::<[u8]>::new("Test", "BasicPubSub", "Counter")
        .create(&mut rt)
        .unwrap();

    const SEND_COUNTER: u32 = 37;
    let sample = publisher
        .loan_slice_with_alignment(&mut rt, std::mem::size_of::<u32>(), std::mem::align_of::<u32>())
        .unwrap();
    for (i, b) in SEND_COUNTER.to_le_bytes().iter().enumerate() {
        sample.set_at(&mut rt, i, *b);
    }
    publisher.publish(&mut rt, sample);

    let sample_receiver = subscriber.get_sample_receiver(&mut rt, sample_receive_token);

    assert!(sample_receiver.has_data(&rt));

    match sample_receiver.take(&mut rt) {
        Some(sample) => {
            let bytes = sample.as_bytes(&rt);
            assert_eq!(u32::from_le_bytes([bytes[0], bytes[1], bytes[2], bytes[3]]), SEND_COUNTER)
        }
        _ => panic!("Could not read sample"),
    }

    publisher.stop_offer(&mut rt);
    subscriber.unsubscribe(&mut rt, sample_receiver);
}

#[test]
fn loan_uninit_byte_slice_and_publish() {
    let mut rt = Runtime::init("basic_pub_sub");

    let (subscriber, sample_receive_token) =
        SubscriberBuilder::<[u8]>::new("Test", "BasicPubSub", "Counter")
            .queue_capacity(5)
            .create(&mut rt)
            .unwrap();

    let publisher = PublisherBuilder::<[u8]>::new("Test", "BasicPubSub", "Counter")
        .create(&mut rt)
        .unwrap();

    const SEND_COUNTER: u32 = 3773;
    let sample = publisher
        .loan_uninit_slice_with_alignment(
            &mut rt,
            std::mem::size_of::<u32>(),
            std::mem::align_of::<u32>(),
        )
        .unwrap();
    sample.write_bytes(&mut rt, 0, &SEND_COUNTER.to_le_bytes());
    let sample = sample.assume_init();
    publisher.publish(&mut rt, sample);

    let sample_receiver = subscriber.get_sample_receiver(&mut rt, sample_receive_token);

    assert!(sample_receiver.has_data(&rt));

    match sample_receiver.take(&mut rt) {
        Some(sample) => {
            assert_eq!(sample.len(&rt), std::mem::size_of::<u32>());
            let bytes = sample.as_bytes(&rt);
            assert_eq!(u32::from_le_bytes([bytes[0], bytes[1], bytes[2], bytes[3]]), SEND_COUNTER);
        }
        _ => panic!("Could not read sample"),
    }

    publisher.stop_offer(&mut rt);
    subscriber.unsubscribe(&mut rt, sample_receiver);
}

#[test]
fn loan_uninit_byte_slice_with_type_cast_and_publish() {
    let mut rt = Runtime::init("basic_pub_sub");

    let (subscriber, sample_receive_token) =
        SubscriberBuilder::<[u8]>::new("Test", "BasicPubSub", "Counter")
            .queue_capacity(5)
            .create(&mut rt)
            .unwrap();

    let publisher = PublisherBuilder::<[u8]>::new("Test", "BasicPubSub", "Counter")
        .create(&mut rt)
        .unwrap();

    const SEND_COUNTER: u32 = 7337;
    let sample = publisher
        .loan_uninit_slice_with_alignment(
            &mut rt,
            std::mem::size_of::<Counter>(),
            std::mem::align_of::<Counter>(),
        )
        .unwrap();
    assert!(sample.try_write_as::<Counter>(&mut rt, SEND_COUNTER));
    let sample = sample.assume_init();
    publisher.publish(&mut rt, sample);

    let sample_receiver = subscriber.get_sample_receiver(&mut rt, sample_receive_token);

    assert!(sample_receiver.has_data(&rt));

    match sample_receiver.take(&mut rt) {
        Some(sample) => {
            let sample = sample.try_as::<Counter>(&rt);
            assert!(sample.is_some());
            if let Some(sample) = sample {
                assert_eq!(sample, SEND_COUNTER);
            }
        }
        _ => panic!("Could not read sample"),
    }

    publisher.stop_offer(&mut rt);
    subscriber.unsubscribe(&mut rt, sample_receiver);
}

#[test]
fn publish_and_subscribe_raw_samples() {
    let mut rt = Runtime::init("basic_pub_sub");

    let (subscriber, sample_receive_token) =
        SubscriberBuilder::<Counter>::new("Test", "BasicPubSub", "Counter")
            .queue_capacity(5)
            .create(&mut rt)
            .unwrap();

    let publisher = PublisherBuilder::<Counter>::new("Test", "BasicPubSub", "Counter")
        .create(&mut rt)
        .unwrap();

    const SEND_COUNTER: u32 = 4224;
    let sample = publisher.loan_uninit(&mut rt).unwrap().into_raw().cast::<Counter>();
    rt.write_payload(sample.chunk_handle(), 0, &SEND_COUNTER.to_le_bytes());

    publisher.publish_raw(&mut rt, sample);

    let sample_receiver = subscriber.get_sample_receiver(&mut rt, sample_receive_token);

    assert!(sample_receiver.has_data(&rt));

    match sample_receiver.take(&mut rt) {
        Some(sample) => {
            let sample = sample.into_raw();
            let counter = Counter::from_bytes(rt.payload(sample.chunk_handle()));
            assert_eq!(counter, SEND_COUNTER);
            sample_receiver.release_raw(&mut rt, sample);
        }
        _ => panic!("Could not read sample"),
    }

    publisher.stop_offer(&mut rt);
    subscriber.unsubscribe(&mut rt, sample_receiver);
}
