# share_frame

Share Frame is a Windows tool that shows the screen region behind its
window inside that window, so that the region can be shared as an ordinary
window in a video call. This crate holds its logic, verified with Verus;
`app/` is the Win32 program around it.

## Layout

- `src/geometry.rs` — default window size and placement, logical/physical
  DPI conversion, caption-button and "Send to Back" button layout, with
  laws on each (limits and 16:9 shape of the default size, centering,
  rounding to nearest, round trips at whole scales, buttons tiling the
  caption strip without overlap).
- `src/capture.rs` — the capture bookkeeping as a state machine: each call
  of `CaptureState::capture_frame` takes what the caller's last Win32 step
  found out and says what to do next; laws cover whole captures.
- `src/window.rs` — routing of the frame window's messages, non-client hit
  testing (resize borders, caption buttons, the "Send to Back" button, and
  the interior, which drags the window), content sizes, the minimum track
  size, and the title-bar hover state.
- `src/tray.rs` — routing of the tray window's messages and its tooltip.
- `src/theme.rs` — title-bar palettes and color packing.
- `src/render.rs` — what a paint draws, where the grid lines go, and the
  3 px dark-gray border with 6 px corner grips.
- `src/settings.rs`, `src/settings_dialog.rs` — the auto-start command
  line, the path-buffer growth, and what the settings dialog changes.
- `src/messages.rs` — the Win32 message ids the routing acts on.
- `app/` — window creation, the message loop, GDI, the registry, the
  shell icon: every call into the `windows` crate.
