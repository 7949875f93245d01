//! Session controller for a per-connection measurement stream.
//!
//! The library holds the verified control logic: parsing inbound control
//! messages, the session state that guarantees at most one measurement
//! loop per session, the measurement loop's state machine with cooperative
//! cancellation, synthetic metric sampling, and the framing of outbound
//! messages. The surrounding program supplies the transport and the
//! scheduling; it feeds events in and carries framed bytes out.

pub mod command;
pub mod laws;
pub mod machine;
pub mod sampler;
pub mod session;
pub mod wire;

pub use command::Command;
pub use command::parse_command;
pub use machine::LoopMachine;
pub use machine::LoopPhase;
pub use sampler::RawSample;
pub use sampler::Sample;
pub use sampler::draw_raw;
pub use sampler::finish_sample;
pub use session::Session;
pub use session::dispatch;
pub use wire::frame_data_message;
pub use wire::frame_end_message;
