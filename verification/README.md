# web_rtc_server

A signaling server for a WebRTC selective forwarding unit: SDP offer/answer
over HTTP, trickle ICE over a WebSocket, track fan-out to every peer and a
public chat relayed over data channels.

The library under `src/` holds the server's decisions, each with a contract
proved by Verus:

- `types`, `error` — the values exchanged with the browser and the error type
  (its message and the HTTP status it is answered with).
- `operations` — validation of SDP offers (through the `sdp` crate's parser)
  and of ICE candidates.
- `session::registry` — the table of connected peers (a `dashmap::DashMap`)
  and what is read from it: chat recipients, track targets, track removals,
  the connection an answer applies to.
- `session::fanout` — the step-by-step decisions of adding a published track
  to every other peer.
- `signaling::offer`, `signaling::ice_socket` — the decisions of the
  `POST /offer` exchange and of the ICE WebSocket.
- `peer` — the server's peer, its STUN configuration and the chat messages it
  relays.
- `handles` — the `webrtc` and `tokio` handles the registry carries.
- `config` — the shutdown drain timeout read from `SHUTDOWN_TIMEOUT_SECS`.
- `laws` — properties that span several operations: registration and
  removal, reads after writes, whole successful fan-outs and offer
  exchanges, track removal after a fan-out, and when the ICE socket stops
  and how it writes what is queued for it.

`app/` is the program around it: configuration from the environment, the
axum endpoints, the JSON forms of the library's values, graceful shutdown,
and the asynchronous calls on the peer connections (adding and forwarding
tracks, sending server ICE candidates), which it performs as the library
directs.
