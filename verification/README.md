# sndio_host

The decisions of an audio host for sndio devices, verified with Verus.

- `src/` is the library. It performs no I/O: where the device, the runner
  thread or a callback has to act, a function returns what is to be done, and a
  later call takes what came of it.
  - `host`: the host and its one device
  - `device`: configuration requests and the building of streams
  - `stream`: streams and their release
  - `negotiation`: settling the parameters of a device, step by step
  - `state`, `callbacks`: the state that a device and its streams share
  - `par`, `config`, `rounding`, `decimal`, `error`: the values that go round
- `tests/` runs the library on concrete values.
- `app/` binds the library to libsndio: the lock round the shared state, the
  calls, the callbacks and the destructors. The thread that moves the samples
  is handed in.
