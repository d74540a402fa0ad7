# tao_softbuffer_bar

A desktop status bar that is drawn into an off-screen image by cairo and copied
into a tao window through softbuffer.

- `src/` is the verified library: what the bar does about each event, when it
  tries to reach the window manager, how an image becomes pixels of the window,
  and the two workers that feed the event loop. It is proved with Verus against
  the contracts that stand beside it, except for two small wrappers whose
  contracts are trusted: `cast_words` in `src/frame.rs` (bytemuck) and
  `platform_codes` in `src/shared.rs` (libc).
- `app/` is the program: the window, the threads, the clock and the drawing. It
  asks the library what to do, does it, and reports back what came of it.
- `tests/` runs the library on concrete values.

The workers in `src/tick.rs` and `src/shared.rs` are state machines: `action`
names the one thing to do next, `step` takes its outcome. `src/protocol.rs` puts
the second of them next to the event loop and proves that at most one update is
ever queued.
