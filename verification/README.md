# tgui_player

A video player for a Termux GUI window, driven by a GStreamer pipeline. The
decisions the player makes are a verified library under `src/`; the program
that talks to GStreamer and to the window is under `app/`.

- `src/control.rs` — the player: for each report of the pipeline or the
  window, the next state and the commands to carry out (seek, change the
  pipeline's state, show the progress bar, end the program), stated as spec
  functions (`bus_step`, `click_step`, `ui_step`) and proved; laws about
  pausing, skipping and stopping.
- `src/gesture.rs` — the double-click gesture and its timer.
- `src/frame.rs` — the frame shared between the decoder and the window.
- `src/timecode.rs` — `HH:MM:SS` rendering, with the law that distinct times
  render differently.
- `src/args.rs`, `src/text.rs` — the command line.
- `src/uri.rs` — resolving the media location and describing the pipeline.
- `app/` — `main`, the pipeline and the window, which carry out the commands.
