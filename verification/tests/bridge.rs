use speaker_bridge::decode::decode_samples;
use speaker_bridge::device::parse_device_index;
use speaker_bridge::device::DeviceSelector;
use speaker_bridge::device::SpeakerInput;
use speaker_bridge::queue::SampleQueue;
use speaker_bridge::queue::MAX_SAMPLES;
use speaker_bridge::session::capture_step;
use speaker_bridge::session::session_rate;
use speaker_bridge::session::CaptureAction;
use speaker_bridge::session::InitOutcome;
use speaker_bridge::session::FALLBACK_SAMPLE_RATE;
use speaker_bridge::stream::poll_step;
use speaker_bridge::stream::PollOutcome;
use speaker_bridge::wake::WakeState;

#[test]
fn decode_empty() {
    let bytes: Vec<u8> = Vec::new();
    assert_eq!(decode_samples(&bytes), Vec::<u32>::new());
}

#[test]
fn decode_little_endian() {
    let bytes = vec![0x01, 0x02, 0x03, 0x04, 0xff, 0x00, 0x00, 0x80];
    assert_eq!(decode_samples(&bytes), vec![0x0403_0201, 0x8000_00ff]);
}

#[test]
fn decode_drops_trailing_partial_sample() {
    let bytes = vec![0x01, 0x02, 0x03, 0x04, 0x05, 0x06, 0x07];
    assert_eq!(decode_samples(&bytes), vec![0x0403_0201]);
}

#[test]
fn decode_round_trips_float_bits() {
    let mut bytes = Vec::new();
    bytes.extend_from_slice(&1.5f32.to_le_bytes());
    bytes.extend_from_slice(&(-0.25f32).to_le_bytes());
    let samples = decode_samples(&bytes);
    assert_eq!(samples.len(), 2);
    assert_eq!(f32::from_bits(samples[0]), 1.5);
    assert_eq!(f32::from_bits(samples[1]), -0.25);
}

#[test]
fn resolver_absent_id_is_default() {
    let input = SpeakerInput::new(None);
    assert_eq!(input.device_index, None);
    assert_eq!(input.selector(), DeviceSelector::SystemDefault);
}

#[test]
fn resolver_well_formed_id() {
    let input = SpeakerInput::new(Some(String::from("windows_output_7")));
    assert_eq!(input.device_index, Some(7));
    assert_eq!(input.selector(), DeviceSelector::OutputIndex(7));
    assert_eq!(parse_device_index("windows_output_0"), Some(0));
    assert_eq!(parse_device_index("windows_output_007"), Some(7));
    assert_eq!(parse_device_index("windows_output_131072"), Some(131072));
}

#[test]
fn resolver_malformed_ids_degrade_to_default() {
    for id in [
        "",
        "windows_output_",
        "windows_output_abc",
        "windows_output_5x",
        "windows_output_ 5",
        "windows_output_-1",
        "windows_output_+5",
        "output_5",
        "WINDOWS_OUTPUT_5",
        "windows_input_5",
        "5",
    ] {
        assert_eq!(parse_device_index(id), None, "id {:?} must degrade", id);
        let input = SpeakerInput::new(Some(String::from(id)));
        assert_eq!(input.selector(), DeviceSelector::SystemDefault);
    }
}

#[test]
fn resolver_overflowing_ordinal_degrades_to_default() {
    assert_eq!(
        parse_device_index("windows_output_18446744073709551615"),
        Some(usize::MAX)
    );
    assert_eq!(parse_device_index("windows_output_18446744073709551616"), None);
    assert_eq!(
        parse_device_index("windows_output_99999999999999999999999999"),
        None
    );
}

#[test]
fn push_within_cap_keeps_all_samples_in_order() {
    let mut q = SampleQueue::new();
    let first: Vec<u32> = (0..1000).collect();
    let second: Vec<u32> = (1000..2500).collect();
    assert_eq!(q.push_many(&first), 0);
    assert_eq!(q.push_many(&second), 0);
    assert_eq!(q.len(), 2500);
    for expected in 0..2500 {
        assert_eq!(q.pop_front(), Some(expected));
    }
    assert_eq!(q.pop_front(), None);
}

#[test]
fn push_to_exact_cap_evicts_nothing() {
    let mut q = SampleQueue::new();
    let batch: Vec<u32> = (0..MAX_SAMPLES as u32).collect();
    assert_eq!(q.push_many(&batch), 0);
    assert_eq!(q.len(), MAX_SAMPLES);
    assert_eq!(q.pop_front(), Some(0));
}

#[test]
fn push_past_cap_evicts_oldest_and_reports_count() {
    let mut q = SampleQueue::new();
    let batch: Vec<u32> = (0..140_000).collect();
    let evicted = q.push_many(&batch);
    assert_eq!(evicted, 140_000 - MAX_SAMPLES);
    assert_eq!(evicted, 8928);
    assert_eq!(q.len(), MAX_SAMPLES);
    // The oldest surviving sample is the first one that was not evicted.
    assert_eq!(q.pop_front(), Some(8928));
}

#[test]
fn eviction_spans_old_and_new_samples() {
    let mut q = SampleQueue::new();
    let old: Vec<u32> = (0..MAX_SAMPLES as u32).collect();
    assert_eq!(q.push_many(&old), 0);
    let fresh = vec![900_001, 900_002, 900_003];
    assert_eq!(q.push_many(&fresh), 3);
    assert_eq!(q.len(), MAX_SAMPLES);
    assert_eq!(q.pop_front(), Some(3));
}

#[test]
fn fifo_order_with_interleaved_pushes_and_pops() {
    let mut q = SampleQueue::new();
    q.push_many(&vec![1, 2, 3]);
    assert_eq!(q.pop_front(), Some(1));
    q.push_many(&vec![4, 5]);
    assert_eq!(q.pop_front(), Some(2));
    q.push_many(&vec![6]);
    assert_eq!(q.pop_front(), Some(3));
    assert_eq!(q.pop_front(), Some(4));
    assert_eq!(q.pop_front(), Some(5));
    assert_eq!(q.pop_front(), Some(6));
    assert_eq!(q.pop_front(), None);
}

#[test]
fn session_rate_uses_negotiated_rate() {
    assert_eq!(session_rate(&InitOutcome::Negotiated(48_000)), 48_000);
}

#[test]
fn session_rate_falls_back_on_failure_and_timeout() {
    assert_eq!(session_rate(&InitOutcome::Failed), FALLBACK_SAMPLE_RATE);
    assert_eq!(session_rate(&InitOutcome::TimedOut), 44_100);
}

#[test]
fn capture_step_stops_on_shutdown_and_timeout() {
    let bytes = vec![1, 2, 3, 4];
    assert!(matches!(
        capture_step(true, true, Some(&bytes)),
        CaptureAction::Stop
    ));
    assert!(matches!(capture_step(false, false, None), CaptureAction::Stop));
}

#[test]
fn capture_step_skips_failed_empty_and_partial_reads() {
    assert!(matches!(capture_step(false, true, None), CaptureAction::Skip));
    let empty: Vec<u8> = Vec::new();
    assert!(matches!(
        capture_step(false, true, Some(&empty)),
        CaptureAction::Skip
    ));
    let partial = vec![1, 2, 3];
    assert!(matches!(
        capture_step(false, true, Some(&partial)),
        CaptureAction::Skip
    ));
}

#[test]
fn capture_step_delivers_decoded_samples() {
    let bytes = vec![0x01, 0x02, 0x03, 0x04, 0x05, 0x06, 0x07, 0x08];
    match capture_step(false, true, Some(&bytes)) {
        CaptureAction::Deliver(samples) => {
            assert_eq!(samples, vec![0x0403_0201, 0x0807_0605]);
        }
        _ => panic!("a complete read must be delivered"),
    }
}

#[test]
fn wake_mark_is_idempotent_per_refill() {
    let mut w: WakeState<u32> = WakeState::new();
    assert!(!w.is_shutdown());
    // Nothing parked yet: marking flags data but wakes nobody.
    assert_eq!(w.mark_data_available(), None);
    assert_eq!(w.mark_data_available(), None);
    // A parked consumer is woken exactly once per refill.
    assert_eq!(w.register(41), false);
    assert_eq!(w.mark_data_available(), Some(41));
    assert_eq!(w.mark_data_available(), None);
}

#[test]
fn poll_yields_queued_samples_without_suspending() {
    let mut q = SampleQueue::new();
    let mut w: WakeState<u32> = WakeState::new();
    q.push_many(&vec![11, 22]);
    assert_eq!(poll_step(&mut q, &mut w, 1), PollOutcome::Sample(11));
    assert_eq!(poll_step(&mut q, &mut w, 2), PollOutcome::Sample(22));
    assert_eq!(poll_step(&mut q, &mut w, 3), PollOutcome::Pending);
}

#[test]
fn parked_consumer_is_resumed_by_the_next_push() {
    let mut q = SampleQueue::new();
    let mut w: WakeState<u32> = WakeState::new();
    // The consumer sees an empty queue and parks its continuation.
    assert_eq!(poll_step(&mut q, &mut w, 41), PollOutcome::Pending);
    // The producer pushes and takes exactly the parked continuation out.
    assert_eq!(q.push_many(&vec![10, 20]), 0);
    assert_eq!(w.mark_data_available(), Some(41));
    // The resumed consumer sees the data: no lost wakeup.
    assert_eq!(poll_step(&mut q, &mut w, 42), PollOutcome::Sample(10));
    assert_eq!(poll_step(&mut q, &mut w, 43), PollOutcome::Sample(20));
}

#[test]
fn shutdown_ends_stream_without_waking_parked_consumer_again() {
    let mut q = SampleQueue::new();
    let mut w: WakeState<u32> = WakeState::new();
    // A consumer parks its continuation, then shutdown is signaled.
    assert_eq!(poll_step(&mut q, &mut w, 7), PollOutcome::Pending);
    w.signal_shutdown();
    assert!(w.is_shutdown());
    // The next demand ends the sequence even though samples arrived
    // meanwhile, and it leaves the stored continuation untouched.
    q.push_many(&vec![99]);
    assert_eq!(poll_step(&mut q, &mut w, 8), PollOutcome::Ended);
    assert_eq!(poll_step(&mut q, &mut w, 9), PollOutcome::Ended);
    // Still parked: the demand did not take (or invoke) it a second time.
    assert_eq!(w.mark_data_available(), Some(7));
}

#[test]
fn register_under_shutdown_reports_ended() {
    let mut w: WakeState<u32> = WakeState::new();
    w.signal_shutdown();
    assert_eq!(w.register(5), true);
    // Nothing was stored, so nothing can ever be woken.
    assert_eq!(w.mark_data_available(), None);
}

#[test]
fn end_to_end_synthetic_capture() {
    // Construct with no device identifier: the default device is selected.
    let input = SpeakerInput::new(None);
    assert_eq!(input.selector(), DeviceSelector::SystemDefault);

    // 10,000 raw bytes encoding 2,500 little-endian floats.
    let mut bytes = Vec::new();
    for i in 0..2500 {
        bytes.extend_from_slice(&(i as f32 * 0.125).to_le_bytes());
    }
    assert_eq!(bytes.len(), 10_000);

    let mut q = SampleQueue::new();
    let mut w: WakeState<u32> = WakeState::new();

    // One producer turn: the event fired and the read succeeded.
    match capture_step(w.is_shutdown(), true, Some(&bytes)) {
        CaptureAction::Deliver(samples) => {
            assert_eq!(samples.len(), 2500);
            assert_eq!(q.push_many(&samples), 0);
            w.mark_data_available();
        }
        _ => panic!("a complete read must be delivered"),
    }

    // The consumer drains exactly 2,500 samples in encoding order.
    let mut drained = 0u32;
    loop {
        match poll_step(&mut q, &mut w, drained) {
            PollOutcome::Sample(bits) => {
                assert_eq!(f32::from_bits(bits), drained as f32 * 0.125);
                drained += 1;
            }
            PollOutcome::Pending => break,
            PollOutcome::Ended => panic!("stream must not end before shutdown"),
        }
    }
    assert_eq!(drained, 2500);

    // Shutdown: the producer stops and the sequence ends.
    w.signal_shutdown();
    assert!(matches!(
        capture_step(w.is_shutdown(), true, Some(&bytes)),
        CaptureAction::Stop
    ));
    assert_eq!(poll_step(&mut q, &mut w, drained), PollOutcome::Ended);
}
