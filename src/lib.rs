//! Verified core of a remote-desktop host and viewer: record framing,
//! the encrypted channel, access codes, the session state machine, the
//! tile-delta frame pipeline and the adaptive quality controller.
pub mod framing;
pub mod frame_processor;
pub mod clock;
pub mod quality;
pub mod auth;
pub mod session;
pub mod crypto;
pub mod pixels;
pub mod codec;
pub mod encoder;
pub mod pipeline;
pub mod input;
pub mod metrics;
