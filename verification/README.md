# vst3_host

A minimal VST3 plugin host. It scans the standard VST3 folders, loads the
first instrument whose name contains "surge", opens its editor in a window
and plays one note through it on a background thread.

- `src/` is the verified library (Verus): decoding the SDK's fixed-size
  character fields, the input event list, choosing the plugin, the load and
  editor-opening protocols as state machines, the host's replies to plugin
  calls, window event handling and the note schedule.
- `app/` is the program around it: the COM calls into the plugin (through
  the `vst3` crate), library loading (`libloading`), the window (`winit`,
  `raw-window-handle`), folder scanning and the audio thread. It performs
  each call the library's state machines ask for and hands back the result.
- `tests/` runs the library on concrete inputs.
