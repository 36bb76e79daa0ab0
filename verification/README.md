# openwispr

The verified core of a local-first desktop dictation app.

`src/` is a Verus library; every function carries a contract and is proved:

- `shortcut`, `shortcut_laws`: normalising, parsing and canonically formatting
  key-combination strings such as `" Ctrl + Shift + K "`, with the laws that
  tie them together (normalising is idempotent, the canonical form parses
  back to the same shortcut, parsing ignores the order of the parts, and a
  normalised string has no empty parts, no upper-case letters and no stray
  `+`).
- `settings`: user settings, their defaults and the updates the settings
  commands make, including the validation of shortcut changes.
- `hotkey`, `keymap`: the held-key state, push-to-talk and hands-free
  decisions, the recorder actions, and key names from macOS and Windows
  key codes.
- `llm`, `text_processor`: prompt templates, the model catalogue and the
  formatting modes.
- `stt`: speech model names, the model cache directory and MLX ready
  marker, which model source is used and when it is refused, download
  progress, decoding retries, the GPU-then-CPU context retry and the
  handling of backend output.
- `transcription`: the parameters of each whisper decoding attempt, the
  transcripts built from whisper segments and from the MLX helper's output,
  and what the whisper and MLX backends keep between calls.
- `desktop`, `analytics`, `platform`: overlay placement, the Ollama address,
  the active model store and its selection rules, how a model download
  ends, the day streak and session counters.
- `text`: the string operations the rest is built on, each with an exact
  specification.

`app/` is the unverified shell: the settings file, model directories,
audio preparation on floating-point samples, transcripts with times in
seconds, logging, and the glue that feeds platform keyboard events to the
hotkey state. Model downloads, whisper and llama.cpp inference and the
platform event hooks are not part of `app/`; the decisions they take are
in `src/`.
