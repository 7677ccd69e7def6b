# peekaboox

The verified core of PeekabooX, a Linux desktop observation and automation
daemon: element selectors and their matching, semantic click targets, the
AT-SPI tree read and its normalization, screenshot backend selection and the
commands each tool runs, frame validation, cropping and PNG codec calls,
DMA-BUF import descriptors and EGL attribute lists, the xdg-desktop-portal
response reading, the accessibility cache, incremental capture streams, the
daemon's configuration, policy and sandbox plan, and the planning of every
daemon request (`dispatch`): its checks, the permission gates on real input
and plugin execution, and whether a fresh accessibility cache answers an
element lookup; and the fields of each request's audit record (`audit`),
which keep typed and pasted texts and selectors only by their length.

Every function in `src/` carries a contract that Verus proves; the public
`lemma_*` proof functions state the properties that span several calls.

- `src/` — the library, one module per concern (`query`, `element`, `tree`,
  `atspi`, `backends`, `capture_plan`, `capture_run`, `frame`, `codec`,
  `dmabuf`, `egl`, `portal`, `cache`, `streams`, `daemon`, `pointer`, ...).
- `tests/` — tests that run the library with its outside crates linked.
- `app/` — the `peekabooxd` program: environment and argument handling, the
  screenshot tools, D-Bus conversations with the portal and AT-SPI, Linux
  input devices, sandbox system calls, DMA-BUF descriptor duplication and
  closing, floating-point confidences and ratios, the JSONL audit log, and
  the request loop that
  carries out the library's plans. Element lookups and captures to a file are
  answered there; input,
  plugin, vision and desktop work is handed, past the library's gates, to the
  workspace crates that serve it.
