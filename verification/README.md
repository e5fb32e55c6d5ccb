# webrtcsink

WebRTC signalling and congestion control. The library under `src/` is written in
Verus: its functions carry contracts, and Verus proves that they keep them.

- `protocol`: the messages between peers and the signalling server.
- `handlers`: the state of the signalling server. `model` says what every request
  does, `handler` does it, `wellformed` and `laws` state what holds whatever peers
  ask for.
- `signalling`: the server's connections, and the protocol of its error answers.
- `webrtcsrc`: the receiving side. `signaller` is the client of the signalling
  server, `media` reads offers and answers, `source` is the element's state, `laws`
  states how client and server get along.
- `webrtcsink::gcc`: Google Congestion Control for the sending side. `packet`,
  `grouping` and `window` follow packets, `detector` finds overuse, `pacer` spreads
  what is sent, `controller` sets the rate.
- `peers`, `numbers`, `text`, `urls`, `json`: what the others are built on.

`app/` is the program around it: `main.rs` and `server.rs` run the signalling
server, `wire.rs` and `answers.rs` are the messages as JSON, `congestion.rs` holds
the filters that take real numbers, and `plugin/` the elements of the pipeline.

Durations and instants are counted in nanoseconds.
