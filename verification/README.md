# audiobud

The deterministic core of the AudioBud dictation app, written in Verus: every function in
`src/` carries a contract, and Verus proves each one except those of the few trusted
wrappers named below.

- `src/` is the verified library: the text pipeline (filler removal, stutter collapsing,
  number formatting and spoken punctuation for English text, raw mode, deterministic word
  replacements), correction capture (aligning an edited transcript, deciding which
  substitutions are learnable mishears, and turning them into rules that cannot cascade with
  the existing ones), the post-processing plan and reply handling, vocabulary mining for
  personalization, per-application output profiles, the delivery queue and dictation
  contexts, key chords with guaranteed release, clipboard snapshot and restore, the
  transcription watchdog's handshake and generation gate, command parsing, and the decisions
  of the paste path (tools, key combinations, focus, clipboard). Calls into `regex` and the
  Unicode character classes of `std` stand behind small trusted wrappers whose contracts name
  what they return, and so do the phonetic encoders (`rphonetic`), the edit distance
  (`strsim`), canonical decomposition (`unicode-normalization`) and JSON field reading
  (`serde_json`); the keyboard and clipboard backends are traits whose contracts describe
  what an implementation must do.
- `tests/` runs the library on concrete inputs.
- `app/` is the program around it: argument handling from the environment, threads (the
  delivery worker and the watchdog runner), processes (input tools, system mute), the
  serializable copies of the library's types, the fuzzy custom-word matcher, which
  compares floating-point similarity scores, and the Jaro-Winkler judgement of close
  spellings that correction capture hands to the library.
