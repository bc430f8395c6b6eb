# mii-sound

A small text-to-speech service: a client that turns a JSON request into audio, a
broker that queues and batches requests, and a worker that holds the model.

The logic is a Verus library. `app/` is the program around it.

| Where | What |
| --- | --- |
| `src/proto/` | the wire protocol: what messages look like, reading and writing them |
| `src/server/` | the broker: queue, batches, streams, idle unloading, relaying |
| `src/client/` | the client: checking requests, writing streams, exit codes |
| `src/worker.rs`, `src/synth.rs` | the worker: what the model is asked for and what it answers |
| `src/sample.rs`, `src/wav.rs` | samples and WAV headers |
| `src/cli.rs`, `src/duration.rs`, `src/transport.rs` | the command line and the socket |
| `src/buffer.rs`, `src/json.rs`, `src/text.rs`, `src/le.rs` | bytes, JSON, text, integers |
| `app/` | sockets, processes, clocks, HTTP and the model |

Reading is split from receiving: a reader looks at the bytes that have come in
and either gives a value, refuses them, or says how many more it needs. Whatever
takes time is split in the same way: a state takes an event and gives an action,
and the program carries it out.

Single-precision numbers are kept as their 32 bits. Times and durations are
nanoseconds.
