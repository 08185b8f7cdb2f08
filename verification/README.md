# lightyear_webrtc

Browser-to-browser WebRTC transport for lightyear, with its logic verified
in Verus.

- `src/` is the verified library: the host and guest offer/answer handshakes
  (`handshake`), waiting for ICE gathering (`ice`), the data channel settings
  and connection events (`channel`), the ICE server configuration and the order
  in which it fills the browser's configuration (`config`), the link-state
  decisions of an IO entity (`link`), and the errors (`error`, `signaling`).
  Each asynchronous procedure is a state machine: it names the next piece of
  outside work (`step`) and takes back what came of it (`advance`).
- `app/` holds what runs around it: the Bevy plugins and systems, the IO
  components, the `SignalingClient` trait, and the `web_sys` calls that
  perform each step.
- `tests/` exercises the library on concrete values.
