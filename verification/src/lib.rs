//! Core of a cross-thread audio capture bridge: a producer thread pulls raw
//! PCM bytes from a loopback device, decodes them into 32-bit samples, and
//! hands them to a single consumer through a bounded queue and a wake
//! protocol. This crate holds the verified logic: device-identifier
//! resolution, sample decoding, the bounded queue with oldest-first eviction,
//! the wake coordinator, and the producer/consumer step functions. The
//! unverified surroundings (OS audio calls, threads, locks) drive these
//! functions from outside.

pub mod decode;
pub mod device;
pub mod queue;
pub mod session;
pub mod stream;
pub mod wake;
