# openvy

The decision logic of a desktop automation agent, verified with Verus.

- `src/accessibility.rs`, `src/accessibility/uia.rs`: the record kept of
  each user-interface element, how it is read from the properties UI
  Automation reports (with the defaults for missing ones), and the
  depth-limited pre-order walk over the element tree of the foreground
  window. `src/accessibility/mock.rs` is the fixed tree used where no
  accessibility service is read; `src/accessibility/linux.rs` is the
  (still empty) tree of the Linux accessibility bus.
- `src/automation.rs`: how a batch of planner actions ("click", "type", ...)
  becomes mouse, keyboard and pause steps.
- `src/ingestion.rs`: the screen-capture round as a state machine that asks
  for outside work (monitors, screenshot, active window, text recognition,
  clock) and judges each answer; the report of a round.
- `src/text.rs`: blank-text and substring checks on character sequences.
- `src/vision.rs`: the screen-recording companion's events.

`app/` is the desktop program around the library: the Tauri shell, the
UI Automation and screenshot calls, the recognition engine, the mouse and
keyboard driver, and the capture loop.
