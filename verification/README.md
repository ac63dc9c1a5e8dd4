# video_live_delay

The verified core of a delayed video feedback system: a camera feed is shown on a
touchscreen a few seconds late, with buttons to change the delay and rotate the picture.

- `src/` is the library, verified with Verus: the delay controller and its text
  (`delay`, `text`), the pipeline descriptions (`pipelines`), the frame history
  (`video_buffer`), the per-frame playback decisions (`video`) and the rotation
  cycle (`ui`), with the laws they obey.
- `app/` is the GTK and GStreamer program around it: windows, buttons, camera capture
  and playback.
- `tests/` runs the library on concrete values.
