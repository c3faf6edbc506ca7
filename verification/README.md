# WhisperMe

Local speech-to-text for Linux: a daemon records on command, transcribes with
Whisper and types the text into the focused window.

- `src/` is the verified library (Verus): configuration reading and defaults,
  the socket protocol and the daemon's recording state machine, the
  transcription loop's emission rules, RNNoise framing, keystroke encoding for
  ydotoold, the layout's character table and its detection, monitor selection,
  the recording indicator's event handling, the configuration dialog's model
  catalogue and the file it saves, and the text primitives they share.
- `app/` is the program around it: PipeWire capture, denoising and
  resampling, Whisper, the recording indicator window, the configuration
  dialog, the socket server and client, and text output through libxdo, the
  clipboard or ydotoold. One binary serves as `whispermed` (default),
  `whisperme`, `whisperme-config`, `audio-level` and `ui-test`, chosen by the
  name it is started under.
- `tests/` exercises the library on concrete values.
