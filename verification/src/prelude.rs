//! The items most users need.
pub use crate::config::{IceConfig, IceServer};
pub use crate::error::WebRtcError;
pub use crate::signaling::SignalingError;
