# rustjay

The logic of the RustJay live video mixer as a Verus-verified library.

- `src/` — the library, checked by Verus. Its functions carry
  `requires`/`ensures` contracts, apart from two kinds: the trusted
  wrappers around `crossbeam`, `rosc` and std (their bodies are not
  checked; their doc comments say what their contracts take on trust),
  and the functions that make or touch flags and queues shared with
  another thread (whether an NDI source was lost, whether a frame is
  waiting, whether a sender still runs), whose values no contract can
  fix. The public `lemma_*`
  proof functions state properties that hold across calls (the readback
  ring hands each submitted copy, buffer included, to the next frame's
  harvest, the Spout name table stays contiguous, MIDI learning never
  maps a controller twice, an NDI receiver loses its source after fifty
  failed captures in a row, ...).
  - `engine` — GPU texture row-pitch arithmetic.
  - `output` — readback ring and output manager, NDI sender queue, Spout
    sender registration, BGRA→YUYV conversion for V4L2 loopback.
  - `ndi_runtime` — the runtime directories searched on Windows and the
    error that lists them.
  - `panels` — the decisions of the settings, presets and audio tabs.
  - `input` — input manager, NDI receiver queue, source search and
    error rule, Spout
    sender discovery and shared-texture info blocks, webcam pixel
    conversion, Syphon receiver.
  - `midi`, `osc`, `presets`, `web`, `config` — the controllers: MIDI learn
    and mapping, OSC packet decoding (`rosc`) and bundle flattening,
    addresses/registry/log, preset bank with quick slots,
    web-remote URLs, configuration defaults.
  - `control` — what window events and posted commands do to the
    application's state.
  - `audio` — the analysis results and settings the capture callback
    exchanges (as plain values with their defaults, reset and beat
    take-and-clear) and the cutting of the sample stream into analysis
    frames.
  - `shared` — the shared state enums, the frame queues (`crossbeam`
    channels) and flags, and the clock.
- `tests/` — tests run against the compiled library.
- `app/` — the I/O around it: settings and preset files (`serde_json`,
  `dirs`), the UDP OSC server, and the `/dev` listing of video
  nodes.
