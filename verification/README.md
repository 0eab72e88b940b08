# rynk

A verified protocol core for Rynk, the host protocol of RMK keyboards.

Frames are a five-byte header (command, sequence number, payload length) and a
postcard payload. The core turns requests into frames, reassembles what arrives,
matches replies to requests, queues topics, and runs the connect handshake. It
does no I/O.

| where | what |
| --- | --- |
| `src/wire.rs`, `src/frame.rs` | the encoding of plain values; frames, and how a byte stream is cut into them |
| `src/codec.rs`, `src/reply.rs` | calls into `postcard`, with what is claimed of them; how each reply is read |
| `src/client.rs`, `src/requests.rs` | the client, and its typed requests |
| `src/handshake.rs` | version, then capabilities |
| `src/event.rs`, `src/status.rs` | topics; the status values that a device reports |
| `src/service.rs` | the device's handlers for morse and status requests |
| `src/serial.rs` | which ports to probe, and which of several probes wins |
| `src/laws.rs` | what holds over several calls |
| `app/` | async drivers: the byte-link trait, a client over any link, USB serial ports |

`src/` is verified with Verus. A client's state is modelled by `ClientView`; every
operation's contract says which view it leads to and what it returns. The laws
are proved over the same views, so they hold of the code.

What is not proved: that `postcard` and the payload types of `rmk-types` do what
`src/codec.rs` says of them, and anything in `app/`.
