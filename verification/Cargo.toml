[package]
name = "lightyear_webrtc"
version = "0.26.0"
edition = "2021"
publish = false

[dependencies]
bevy_app = { version = "=0.18.1", default-features = false }
bevy_ecs = { version = "=0.18.1", default-features = false }
bytes = "=1.12.1"
futures-channel = "=0.3.34"
futures-core = "=0.3.34"
js-sys = "=0.3.107"
lightyear_core = { version = "=0.26.4", default-features = false }
lightyear_link = { version = "=0.26.4", default-features = false }
thiserror = "=2.0.21"
tracing = "=0.1.44"
wasm-bindgen = "=0.2.130"
wasm-bindgen-futures = "=0.4.80"
web-sys = { version = "=0.3.107", features = ["MessageEvent", "RtcConfiguration", "RtcDataChannel", "RtcDataChannelEvent", "RtcDataChannelInit", "RtcDataChannelState", "RtcDataChannelType", "RtcIceGatheringState", "RtcIceServer", "RtcPeerConnection", "RtcSdpType", "RtcSessionDescription", "RtcSessionDescriptionInit"] }
