use iceoryx_rs::introspection::{MemPoolIntrospectionTopic, PortIntrospectionTopic};
use iceoryx_rs::layout::{can_view_as, check_alignment, slice_len};
use iceoryx_rs::marker::ShmSend;
use iceoryx_rs::options::SubscribeState;
use iceoryx_rs::publisher::PublisherBuilder;
use iceoryx_rs::reactor::{Condition, DispatchStep, Reactor};
use iceoryx_rs::runtime::{Runtime, MAX_PORTS};
use iceoryx_rs::sample::{SampleReceiverWaitState, WaitStep};
use iceoryx_rs::subscriber::SubscriberBuilder;
use iceoryx_rs::IceoryxError;

#[test]
fn round_trip_keeps_every_byte() {
    let mut rt = Runtime::init("props");
    let (sub, token) = SubscriberBuilder::<u64>::new("a", "b", "c").create(&mut rt).unwrap();
    let publisher = PublisherBuilder::<u64>::new("a", "b", "c").create(&mut rt).unwrap();
    let receiver = sub.get_sample_receiver(&mut rt, token);
    for v in [0u64, 1, 0x0102_0304_0506_0708, u64::MAX] {
        let sample = publisher.loan(&mut rt).unwrap();
        sample.set(&mut rt, v);
        publisher.publish(&mut rt, sample);
        let taken = receiver.take(&mut rt).unwrap();
        assert_eq!(taken.as_bytes(&rt), &v.to_le_bytes()[..]);
        assert_eq!(taken.get(&rt), v);
        taken.release(&mut rt);
    }
}

#[test]
fn release_without_publish_restores_free_chunks() {
    let mut rt = Runtime::init("props");
    let publisher = PublisherBuilder::<u32>::new("a", "b", "c").create(&mut rt).unwrap();
    let before = rt.free_chunk_count();
    let sample = publisher.loan(&mut rt).unwrap();
    assert_eq!(rt.free_chunk_count(), before - 1);
    publisher.release(&mut rt, sample);
    assert_eq!(rt.free_chunk_count(), before);
}

#[test]
fn publish_without_subscribers_restores_free_chunks() {
    let mut rt = Runtime::init("props");
    let publisher = PublisherBuilder::<u32>::new("a", "b", "c").create(&mut rt).unwrap();
    let before = rt.free_chunk_count();
    let sample = publisher.loan(&mut rt).unwrap();
    publisher.publish(&mut rt, sample);
    assert_eq!(rt.free_chunk_count(), before);
}

#[test]
fn published_chunk_is_freed_once_when_taken_and_released() {
    let mut rt = Runtime::init("props");
    let (sub, token) = SubscriberBuilder::<u32>::new("a", "b", "c").create(&mut rt).unwrap();
    let publisher = PublisherBuilder::<u32>::new("a", "b", "c").create(&mut rt).unwrap();
    let receiver = sub.get_sample_receiver(&mut rt, token);
    let before = rt.free_chunk_count();
    let sample = publisher.loan(&mut rt).unwrap();
    publisher.publish(&mut rt, sample);
    assert_eq!(rt.free_chunk_count(), before - 1);
    receiver.take(&mut rt).unwrap().release(&mut rt);
    assert_eq!(rt.free_chunk_count(), before);
}

#[test]
fn mem_pool_introspection_counts_used_chunks() {
    let mut rt = Runtime::with_memory_pool("props", 3, 16);
    let publisher = PublisherBuilder::<u32>::new("a", "b", "c").create(&mut rt).unwrap();
    let _sample = publisher.loan(&mut rt).unwrap();
    let topic = MemPoolIntrospectionTopic::new(&rt);
    let segments = topic.memory_segments();
    assert_eq!(segments.len(), 1);
    assert_eq!(segments[0].segment_id(), 0);
    let pool = segments[0].mempools()[0];
    assert_eq!(pool.used_chunks, 1);
    assert_eq!(pool.total_number_of_chunks, 3);
    assert_eq!(pool.payload_size, 16);
}

#[test]
fn slice_loan_below_natural_alignment_is_rejected() {
    let mut rt = Runtime::init("props");
    let publisher = PublisherBuilder::<[u32]>::new("a", "b", "c").create(&mut rt).unwrap();
    let before = rt.free_chunk_count();
    let min = std::mem::align_of::<u32>();
    let r = publisher.loan_uninit_slice_with_alignment(&mut rt, 4, min - 1);
    assert!(matches!(
        r,
        Err(IceoryxError::InvalidAlignment { requested, min_required })
            if requested == min - 1 && min_required == min
    ));
    let r = publisher.loan_slice_with_alignment(&mut rt, 4, 1);
    assert!(matches!(r, Err(IceoryxError::InvalidAlignment { requested: 1, .. })));
    assert_eq!(rt.free_chunk_count(), before);
    assert_eq!(check_alignment::<u64>(2), Err(IceoryxError::InvalidAlignment {
        requested: 2,
        min_required: std::mem::align_of::<u64>(),
    }));
    assert_eq!(check_alignment::<u8>(1), Ok(()));
}

#[test]
fn slice_loan_with_larger_alignment_is_recorded() {
    let mut rt = Runtime::init("props");
    let publisher = PublisherBuilder::<[u16]>::new("a", "b", "c").create(&mut rt).unwrap();
    let sample = publisher.loan_slice_with_alignment(&mut rt, 3, 8).unwrap();
    let header = sample.chunk_header(&rt);
    assert_eq!(header.get_user_payload_size(), 6);
    assert_eq!(header.get_user_payload_alignment(), 8);
    assert_eq!(sample.get_at(&rt, 2), 0);
    publisher.release(&mut rt, sample);
}

#[test]
fn alignment_checked_view() {
    assert!(can_view_as::<u32>(4, 4));
    assert!(can_view_as::<u32>(8, 8));
    assert!(!can_view_as::<u32>(3, 4));
    assert!(!can_view_as::<u64>(8, 1));
    assert_eq!(slice_len::<u16>(6, 2), Some(3));
    assert_eq!(slice_len::<u16>(5, 2), None);
    assert_eq!(slice_len::<u32>(8, 1), None);
    assert_eq!(slice_len::<()>(0, 1), None);
}

#[test]
fn try_as_fails_without_touching_the_sample() {
    let mut rt = Runtime::init("props");
    let (sub, token) = SubscriberBuilder::<[u8]>::new("a", "b", "c").create(&mut rt).unwrap();
    let publisher = PublisherBuilder::<[u8]>::new("a", "b", "c").create(&mut rt).unwrap();
    let receiver = sub.get_sample_receiver(&mut rt, token);
    let sample = publisher.loan_uninit_slice_with_alignment(&mut rt, 4, 4).unwrap();
    sample.write_bytes(&mut rt, 0, &[1, 2, 3, 4]);
    publisher.publish(&mut rt, sample.assume_init());
    let taken = receiver.take(&mut rt).unwrap();
    let free = rt.free_chunk_count();
    assert_eq!(taken.try_as::<u64>(&rt), None);
    assert_eq!(rt.free_chunk_count(), free);
    assert_eq!(taken.as_bytes(&rt), &[1, 2, 3, 4]);
    assert_eq!(taken.try_as::<u32>(&rt), Some(0x0403_0201));
    assert_eq!(taken.try_as::<u16>(&rt), Some(0x0201));
}

#[test]
fn take_of_mismatching_chunk_releases_it() {
    let mut rt = Runtime::init("props");
    let (sub, token) = SubscriberBuilder::<u64>::new("a", "b", "c").create(&mut rt).unwrap();
    let publisher = PublisherBuilder::<u32>::new("a", "b", "c").create(&mut rt).unwrap();
    let receiver = sub.get_sample_receiver(&mut rt, token);
    let before = rt.free_chunk_count();
    let sample = publisher.loan(&mut rt).unwrap();
    publisher.publish(&mut rt, sample);
    assert!(receiver.has_data(&rt));
    assert!(receiver.take(&mut rt).is_none());
    assert!(!receiver.has_data(&rt));
    assert_eq!(rt.free_chunk_count(), before);
}

#[test]
fn slice_take_of_mismatching_chunk_releases_it() {
    let mut rt = Runtime::init("props");
    let (sub, token) = SubscriberBuilder::<[u32]>::new("a", "b", "c").create(&mut rt).unwrap();
    let publisher = PublisherBuilder::<[u8]>::new("a", "b", "c").create(&mut rt).unwrap();
    let receiver = sub.get_sample_receiver(&mut rt, token);
    let before = rt.free_chunk_count();
    let sample = publisher.loan_slice(&mut rt, 6).unwrap();
    publisher.publish(&mut rt, sample);
    assert!(receiver.take(&mut rt).is_none());
    assert_eq!(rt.free_chunk_count(), before);
}

#[test]
fn take_on_empty_queue_is_idempotent() {
    let mut rt = Runtime::init("props");
    let (sub, token) = SubscriberBuilder::<u32>::new("a", "b", "c").create(&mut rt).unwrap();
    let receiver = sub.get_sample_receiver(&mut rt, token);
    let free = rt.free_chunk_count();
    for _ in 0..3 {
        assert!(receiver.take(&mut rt).is_none());
        assert!(!receiver.has_data(&rt));
    }
    assert_eq!(rt.free_chunk_count(), free);
}

#[test]
fn wait_decisions() {
    let mut rt = Runtime::init("props");
    let (sub, token) = SubscriberBuilder::<u32>::new("a", "b", "c").create(&mut rt).unwrap();
    let publisher = PublisherBuilder::<u32>::new("a", "b", "c").create(&mut rt).unwrap();
    let receiver = sub.get_sample_receiver(&mut rt, token);
    assert_eq!(receiver.wait_for_samples(&rt, 0, 100), WaitStep::Wait(100));
    assert_eq!(receiver.wait_for_samples(&rt, 40, 100), WaitStep::Wait(60));
    assert_eq!(
        receiver.wait_for_samples(&rt, 100, 100),
        WaitStep::Done(SampleReceiverWaitState::Timeout)
    );
    let sample = publisher.loan(&mut rt).unwrap();
    publisher.publish(&mut rt, sample);
    assert_eq!(
        receiver.wait_for_samples(&rt, 10, 100),
        WaitStep::Done(SampleReceiverWaitState::SamplesAvailable)
    );
    sub.stop_sample_receiver(&mut rt);
    assert_eq!(
        receiver.wait_for_samples(&rt, 10, 100),
        WaitStep::Done(SampleReceiverWaitState::Stopped)
    );
}

#[test]
fn end_to_end_counter() {
    let mut rt = Runtime::init("props");
    let (sub, token) =
        SubscriberBuilder::<u32>::new("a", "b", "c").queue_capacity(5).create(&mut rt).unwrap();
    let publisher = PublisherBuilder::<u32>::new("a", "b", "c").create(&mut rt).unwrap();
    let sample = publisher.loan(&mut rt).unwrap();
    sample.set(&mut rt, 42);
    publisher.publish(&mut rt, sample);
    let receiver = sub.get_sample_receiver(&mut rt, token);
    assert!(receiver.has_data(&rt));
    let taken = receiver.take(&mut rt).unwrap();
    assert_eq!(taken.get(&rt), 42);
    assert!(receiver.take(&mut rt).is_none());
}

#[test]
fn shared_samples_are_released_independently() {
    let mut rt = Runtime::init("props");
    let (sub, token) = SubscriberBuilder::<u32>::new("a", "b", "c").create(&mut rt).unwrap();
    let publisher = PublisherBuilder::<u32>::new("a", "b", "c").create(&mut rt).unwrap();
    let receiver = sub.get_sample_receiver(&mut rt, token);
    for v in [11u32, 22] {
        let sample = publisher.loan(&mut rt).unwrap();
        sample.set(&mut rt, v);
        publisher.publish(&mut rt, sample);
    }
    let first = receiver.take(&mut rt).unwrap();
    let second = receiver.take(&mut rt).unwrap();
    assert_eq!(first.get(&rt), 11);
    first.release(&mut rt);
    let other = publisher.loan(&mut rt).unwrap();
    other.set(&mut rt, 99);
    assert_eq!(second.get(&rt), 22);
    publisher.release(&mut rt, other);
    assert_eq!(second.get(&rt), 22);
}

#[test]
fn two_subscribers_share_one_chunk() {
    let mut rt = Runtime::init("props");
    let (sub1, t1) = SubscriberBuilder::<u32>::new("a", "b", "c").create(&mut rt).unwrap();
    let (sub2, t2) = SubscriberBuilder::<u32>::new("a", "b", "c").create_mt(&mut rt).unwrap();
    let (sub3, t3) = SubscriberBuilder::<u32>::new("a", "b", "other").create(&mut rt).unwrap();
    let publisher = PublisherBuilder::<u32>::new("a", "b", "c").create(&mut rt).unwrap();
    let r1 = sub1.get_sample_receiver(&mut rt, t1);
    let r2 = sub2.get_sample_receiver(&mut rt, t2);
    let r3 = sub3.get_sample_receiver(&mut rt, t3);
    let before = rt.free_chunk_count();
    let sample = publisher.loan(&mut rt).unwrap();
    sample.set(&mut rt, 5);
    publisher.publish(&mut rt, sample);
    assert!(!r3.has_data(&rt));
    let a = r1.take(&mut rt).unwrap();
    let b = r2.take(&mut rt).unwrap();
    assert_eq!(a.get(&rt), 5);
    a.release(&mut rt);
    assert_eq!(rt.free_chunk_count(), before - 1);
    assert_eq!(b.get(&rt), 5);
    b.release(&mut rt);
    assert_eq!(rt.free_chunk_count(), before);
}

#[test]
fn full_queue_discards_oldest() {
    let mut rt = Runtime::init("props");
    let (sub, token) =
        SubscriberBuilder::<u32>::new("a", "b", "c").queue_capacity(2).create(&mut rt).unwrap();
    let publisher = PublisherBuilder::<u32>::new("a", "b", "c").create(&mut rt).unwrap();
    let receiver = sub.get_sample_receiver(&mut rt, token);
    let before = rt.free_chunk_count();
    for v in [1u32, 2, 3] {
        let sample = publisher.loan(&mut rt).unwrap();
        sample.set(&mut rt, v);
        publisher.publish(&mut rt, sample);
    }
    assert_eq!(rt.free_chunk_count(), before - 2);
    assert_eq!(receiver.take(&mut rt).unwrap().get(&rt), 2);
    assert_eq!(receiver.take(&mut rt).unwrap().get(&rt), 3);
    assert!(receiver.take(&mut rt).is_none());
}

#[test]
fn clear_releases_the_backlog() {
    let mut rt = Runtime::init("props");
    let (sub, token) = SubscriberBuilder::<u32>::new("a", "b", "c").create(&mut rt).unwrap();
    let publisher = PublisherBuilder::<u32>::new("a", "b", "c").create(&mut rt).unwrap();
    let receiver = sub.get_sample_receiver(&mut rt, token);
    let before = rt.free_chunk_count();
    for _ in 0..3 {
        let sample = publisher.loan(&mut rt).unwrap();
        publisher.publish(&mut rt, sample);
    }
    assert_eq!(rt.free_chunk_count(), before - 3);
    receiver.clear(&mut rt);
    assert!(!receiver.has_data(&rt));
    assert_eq!(rt.free_chunk_count(), before);
}

#[test]
fn exhausted_pool_fails_the_loan() {
    let mut rt = Runtime::with_memory_pool("props", 1, 8);
    let publisher = PublisherBuilder::<u32>::new("a", "b", "c").create(&mut rt).unwrap();
    let first = publisher.loan(&mut rt).unwrap();
    assert_eq!(publisher.loan(&mut rt).err(), Some(IceoryxError::LoanSampleFailed));
    publisher.release(&mut rt, first);
    assert!(publisher.loan(&mut rt).is_ok());
    let bytes = PublisherBuilder::<[u8]>::new("a", "b", "d").create(&mut rt).unwrap();
    assert_eq!(bytes.loan_uninit_slice(&mut rt, 9).err(), Some(IceoryxError::LoanSampleFailed));
}

#[test]
fn port_creation_fails_when_ports_run_out() {
    let mut rt = Runtime::init("props");
    for _ in 0..MAX_PORTS {
        assert!(PublisherBuilder::<u8>::new("a", "b", "c").create(&mut rt).is_ok());
        assert!(SubscriberBuilder::<u8>::new("a", "b", "c").create_without_subscribe(&mut rt).is_ok());
    }
    assert_eq!(
        PublisherBuilder::<u8>::new("a", "b", "c").create_without_offer(&mut rt).err().map(|e| e),
        Some(IceoryxError::PublisherCreationFailed)
    );
    assert!(matches!(
        SubscriberBuilder::<u8>::new("a", "b", "c").create(&mut rt),
        Err(IceoryxError::SubscriberCreationFailed)
    ));
}

#[test]
fn subscription_and_offer_states() {
    let mut rt = Runtime::init("props");
    let inactive = SubscriberBuilder::<u32>::new("a", "b", "c").create_without_subscribe(&mut rt).unwrap();
    assert_eq!(inactive.subscription_state(&rt), SubscribeState::NotSubscribed);
    let (sub, token) = inactive.subscribe(&mut rt);
    assert_eq!(sub.subscription_state(&rt), SubscribeState::WaitForOffer);
    let publisher = PublisherBuilder::<u32>::new("a", "b", "c").create_without_offer(&mut rt).unwrap();
    assert_eq!(sub.subscription_state(&rt), SubscribeState::WaitForOffer);
    let publisher = publisher.offer(&mut rt);
    assert!(publisher.is_offered(&rt));
    assert!(publisher.has_subscribers(&rt));
    assert_eq!(sub.subscription_state(&rt), SubscribeState::Subscribed);
    let receiver = sub.get_sample_receiver(&mut rt, token);
    assert_eq!(receiver.subscription_state(&rt), SubscribeState::Subscribed);
    let inactive = sub.unsubscribe(&mut rt, receiver);
    assert_eq!(inactive.subscription_state(&rt), SubscribeState::NotSubscribed);
    assert!(!publisher.has_subscribers(&rt));
    let publisher = publisher.stop_offer(&mut rt).offer(&mut rt).stop_offer(&mut rt);
    let (sub, _token) = inactive.subscribe_mt(&mut rt);
    assert_eq!(sub.subscription_state(&rt), SubscribeState::WaitForOffer);
    let _ = publisher;
}

#[test]
fn port_introspection_lists_ports() {
    let mut rt = Runtime::init("introspected");
    let _publisher = PublisherBuilder::<u32>::new("svc", "inst", "ev")
        .node_name("node".to_string())
        .history_capacity(3)
        .create(&mut rt)
        .unwrap();
    let _sub = SubscriberBuilder::<u32>::new("svc", "inst", "ev")
        .node_name("reader")
        .history_request(1)
        .queue_full_policy(iceoryx_rs::QueueFullPolicy::BlockProducer)
        .requires_publisher_history_support(true)
        .create_without_subscribe(&mut rt)
        .unwrap();
    let topic = PortIntrospectionTopic::new(&rt);
    let pubs = topic.publisher_ports();
    assert_eq!(pubs.len(), 1);
    assert_eq!(pubs[0].process_name(), "introspected");
    assert_eq!(pubs[0].node_name(), "node");
    let d = pubs[0].service_description();
    assert_eq!((d.service.as_str(), d.instance.as_str(), d.event.as_str()), ("svc", "inst", "ev"));
    let subs = topic.subscriber_ports();
    assert_eq!(subs.len(), 1);
    assert_eq!(subs[0].node_name(), "reader");
    assert_eq!(subs[0].process_name(), "introspected");
    assert_eq!(subs[0].service_description().event, "ev");
    assert_eq!(rt.subscriber_options(0).history_request, 1);
    assert!(rt.subscriber_options(0).requires_publisher_history_support);
    assert_eq!(rt.publisher_options(0).history_capacity, 3);
}

#[test]
fn shm_send_byte_images() {
    assert_eq!(0x1234u16.to_bytes(), vec![0x34, 0x12]);
    assert_eq!(u16::from_bytes(&[0x34, 0x12]), 0x1234);
    assert_eq!(0xdead_beefu32.to_bytes(), vec![0xef, 0xbe, 0xad, 0xde]);
    assert_eq!(u64::from_bytes(&0x0102_0304_0506_0708u64.to_le_bytes()), 0x0102_0304_0506_0708);
    assert_eq!(7u8.to_bytes(), vec![7]);
    assert_eq!((-2i32).to_bytes(), vec![0xfe, 0xff, 0xff, 0xff]);
    assert_eq!(i32::from_bytes(&[0xfe, 0xff, 0xff, 0xff]), -2);
    assert_eq!(i64::from_bytes(&(-5i64).to_bytes()), -5);
}

#[test]
fn reactor_dispatches_in_registration_order() {
    let mut rt = Runtime::init("props");
    let (sub1, t1) = SubscriberBuilder::<u32>::new("a", "b", "one").create(&mut rt).unwrap();
    let (sub2, t2) = SubscriberBuilder::<u32>::new("a", "b", "two").create(&mut rt).unwrap();
    let pub_one = PublisherBuilder::<u32>::new("a", "b", "one").create(&mut rt).unwrap();
    let pub_two = PublisherBuilder::<u32>::new("a", "b", "two").create(&mut rt).unwrap();
    let r1 = sub1.get_sample_receiver(&mut rt, t1);
    let r2 = sub2.get_sample_receiver(&mut rt, t2);
    let (mut control, mut dispatcher) = Reactor::new().split();
    let (tok1, h1) = control.attach(&mut rt, r1, true).unwrap();
    let (tok2, h2) = control.attach(&mut rt, r2, false).unwrap();
    assert_eq!(tok1.notification_index(), 0);
    assert_eq!(tok2.notification_index(), 1);
    assert!(dispatcher.add_handler(h1));
    assert!(dispatcher.add_handler(h2));
    assert_eq!(dispatcher.next_with_timeout(&rt, 0, 50), DispatchStep::Wait(50));
    assert_eq!(dispatcher.next_with_timeout(&rt, 60, 50), DispatchStep::Timeout);
    let s = pub_two.loan(&mut rt).unwrap();
    pub_two.publish(&mut rt, s);
    assert_eq!(h2.condition(&rt), Condition::Event(true));
    assert_eq!(h1.condition(&rt), Condition::State(false));
    assert_eq!(dispatcher.next_with_timeout(&rt, 0, 50), DispatchStep::Ready(1));
    let s = pub_one.loan(&mut rt).unwrap();
    pub_one.publish(&mut rt, s);
    assert_eq!(dispatcher.next_with_timeout(&rt, 0, 50), DispatchStep::Ready(0));
    let r1 = control.detach(&mut rt, tok1);
    dispatcher.remove_handler(0);
    assert_eq!(dispatcher.next_with_timeout(&rt, 0, 50), DispatchStep::Ready(1));
    assert!(r1.has_data(&rt));
    let (tok3, _) = control.attach(&mut rt, r1, true).unwrap();
    assert_eq!(tok3.notification_index(), 0);
}

#[test]
fn typed_take_accepts_a_chunk_of_exactly_the_type_size() {
    let mut rt = Runtime::init("props");
    let (sub, token) = SubscriberBuilder::<u32>::new("a", "b", "c").create(&mut rt).unwrap();
    let publisher = PublisherBuilder::<[u8]>::new("a", "b", "c").create(&mut rt).unwrap();
    let receiver = sub.get_sample_receiver(&mut rt, token);
    let sample = publisher.loan_uninit_slice_with_alignment(&mut rt, 4, 1).unwrap();
    sample.write_bytes(&mut rt, 0, &[0x78, 0x56, 0x34, 0x12]);
    publisher.publish(&mut rt, sample.assume_init());
    let taken = receiver.take(&mut rt).unwrap();
    assert_eq!(taken.get(&rt), 0x1234_5678);
    assert_eq!(taken.chunk_header(&rt).get_user_payload_alignment(), 1);
}

#[test]
fn loaned_samples_hold_the_default_value() {
    let mut rt = Runtime::init("props");
    let publisher = PublisherBuilder::<u16>::new("a", "b", "c").create(&mut rt).unwrap();
    let sample = publisher.loan(&mut rt).unwrap();
    assert_eq!(sample.get(&rt), 0);
    assert_eq!(sample.as_bytes(&rt), &[0, 0]);
    sample.set(&mut rt, 0xabcd);
    assert_eq!(sample.as_bytes(&rt), &[0xcd, 0xab]);
    publisher.release(&mut rt, sample);
    let slices = PublisherBuilder::<[u16]>::new("a", "b", "d").create(&mut rt).unwrap();
    let sample = slices.loan_slice(&mut rt, 3).unwrap();
    assert_eq!(sample.as_bytes(&rt), &[0, 0, 0, 0, 0, 0]);
    sample.set_at(&mut rt, 1, 0x0102);
    assert_eq!(sample.get_at(&rt, 1), 0x0102);
    assert_eq!(sample.as_bytes(&rt), &[0, 0, 2, 1, 0, 0]);
    let uninit = slices.loan_uninit_slice(&mut rt, 2).unwrap();
    assert_eq!(uninit.chunk_header(&rt).get_user_payload_size(), 4);
    assert_eq!(uninit.chunk_header(&rt).get_user_payload_alignment(), std::mem::align_of::<u16>());
}
