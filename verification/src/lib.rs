//! Bridge between a fixed-size digital fieldbus I/O image and an MQTT broker.
//!
//! The library holds the verified core of the bridge: double-buffered
//! change detection over the polled input image, the topic and payload
//! codec, the pub/sub session state machine with its message counters,
//! configuration validation, and an in-memory loopback port that stands
//! in for the hardware during tests.  The unverified binary around it
//! performs the actual hardware, network and clock I/O and feeds the
//! results to these functions as plain values.

pub mod bits;
pub mod codec;
pub mod config;
pub mod dal;
pub mod event;
pub mod loopback;
pub mod poller;
pub mod session;
pub mod stats;

pub use event::KBusEvent;
