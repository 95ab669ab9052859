# Scribe

The logic of a macOS dictation app, written in Verus: press a hotkey, speak, and get the text.

- `src/` is the verified library: the recording state machine, resampling and framing of audio, the
  messages and the state of realtime transcription sessions, requests and replies of the
  transcription and cleanup services, settings, the API key, and the retention of recordings.
- `app/` is the app around it: the window, the microphone, the keychain, files and the network. It
  also does the floating-point work. Samples and levels reach the library as the bits of `f32`
  numbers.
- `tests/` are the library's tests.
