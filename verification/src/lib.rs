//! WebRTC transport logic for a browser-to-browser lightyear link: the
//! offer/answer handshake of both roles, ICE gathering, the data channel
//! settings, and the decisions that turn connection events into link state.
//!
//! The browser calls, the signaling exchange and the ECS systems run around
//! this logic: they perform the step a machine asks for and hand back what
//! came of it.
pub mod channel;
pub mod config;
pub mod error;
pub mod handshake;
pub mod ice;
pub mod link;
pub mod prelude;
pub mod signaling;

pub use config::{IceConfig, IceServer};
pub use error::WebRtcError;
