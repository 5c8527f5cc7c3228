//! Producer-side decisions of a capture session.
//!
//! The producer thread alternates hardware waits and reads with the
//! decisions below: whether a loop turn stops the session, skips to the
//! next wait, or delivers decoded samples to the queue. The hardware calls
//! themselves (opening the device, waiting on the event, reading raw bytes)
//! happen in the unverified surroundings, which hand their outcomes in as
//! plain values.

use crate::decode::decode_samples;
use crate::decode::decoded;
use vstd::prelude::*;

verus! {

/// The sample rate assumed when initialization fails or times out: the
/// stream must stay usable even when capture could not start.
pub const FALLBACK_SAMPLE_RATE: u32 = 44100;

/// Channels of the negotiated capture format: mono passthrough.
pub const CAPTURE_CHANNELS: usize = 1;

/// Container and sample width of the negotiated format: 32-bit float
/// samples in 32-bit frames; only the device's native rate varies.
pub const CAPTURE_SAMPLE_BITS: usize = 32;

/// What the one-shot initialization channel delivered: the negotiated rate,
/// an initialization failure, or nothing within the wait.
pub enum InitOutcome {
    Negotiated(u32),
    Failed,
    TimedOut,
}

/// The rate a session reports: the negotiated one, or the fallback when
/// initialization failed or timed out.
pub open spec fn spec_session_rate(o: InitOutcome) -> u32 {
    match o {
        InitOutcome::Negotiated(rate) => rate,
        InitOutcome::Failed => FALLBACK_SAMPLE_RATE,
        InitOutcome::TimedOut => FALLBACK_SAMPLE_RATE,
    }
}

/// Decides the sample rate reported to the consumer: the negotiated rate
/// when initialization succeeded, the fallback otherwise. Degrading instead
/// of failing is deliberate: the stream stays usable for its consumer even
/// when capture never started.
pub fn session_rate(outcome: &InitOutcome) -> (rate: u32)
    ensures
        rate == spec_session_rate(*outcome),
{
    match outcome {
        InitOutcome::Negotiated(rate) => *rate,
        InitOutcome::Failed => FALLBACK_SAMPLE_RATE,
        InitOutcome::TimedOut => FALLBACK_SAMPLE_RATE,
    }
}

/// What the producer does with one loop turn.
pub enum CaptureAction {
    /// End the capture loop: shutdown was signaled, or the hardware event
    /// timed out (a stall treated as fatal for the session).
    Stop,
    /// Skip to the next wait: the read failed (tolerated as transient) or
    /// produced no complete sample.
    Skip,
    /// Push these decoded samples and signal the wake coordinator.
    Deliver(Vec<u32>),
}

/// Decides one turn of the producer loop from what the surroundings
/// observed: the shutdown flag, whether the hardware event was signaled
/// within its wait, and the raw bytes read (`None` for a failed read).
/// Delivered samples are exactly the decoded bytes, in capture order.
pub fn capture_step(shutdown: bool, event_signaled: bool, read: Option<&Vec<u8>>) -> (a:
    CaptureAction)
    ensures
        shutdown ==> a is Stop,
        !shutdown && !event_signaled ==> a is Stop,
        !shutdown && event_signaled ==> match read {
            None => a is Skip,
            Some(bytes) => if decoded(bytes@).len() == 0 {
                a is Skip
            } else {
                a matches CaptureAction::Deliver(samples) && samples@ == decoded(bytes@)
            },
        },
{
    if shutdown {
        return CaptureAction::Stop;
    }
    if !event_signaled {
        return CaptureAction::Stop;
    }
    match read {
        None => CaptureAction::Skip,
        Some(bytes) => {
            let samples = decode_samples(bytes);
            if samples.len() == 0 {
                CaptureAction::Skip
            } else {
                CaptureAction::Deliver(samples)
            }
        },
    }
}

} // verus!
