# touchpilot

The decision logic of TouchPilot's input service, which keeps the mouse
independent of a Windows touchscreen and returns keyboard focus to the editor
that had it before a touch. The library is written in Verus: Verus checks
every function in `src/`, and its contracts state what each decision returns.
One call into std, appending a character to a `String`, is trusted rather than
proved.

- `src/hook/touch.rs`: recognising promoted touch and pen messages, and the
  saved cursor positions of promoted and native touch bursts.
- `src/hook/touch_policy.rs`: the per-gesture override, and the policy parsed
  from a configuration (delay, modifier, app rules).
- `src/hook/focus_restore.rs`: which focus a touch started from, and when a
  restoration may still happen.
- `src/hook/windows/`: the per-thread gesture state of the message pump, the
  pointer routing of the mouse hook, the restore worker's wait and steps, the
  raw HID packet layout and device table, contact frames, and the hook watchdog.
- `src/settings.rs`, `src/shared.rs`: the configuration and the shared service state.

`app/` is the Windows program around it: stdin configuration, the low-level
mouse hook, raw input, window and focus queries, the restore worker thread, and
the selected display rectangles, whose floating-point coordinates stay there.
