# oxisynth

A SoundFont synthesizer whose decisions are verified with Verus.

- `src/` is the verified library: SoundFont records turned into presets
  (`loader`, `soundfont`), the font stack with its bank offsets
  (`font_bank`), MIDI channels and their controllers (`channel`), what a
  note-on starts (`noteon`), the voice pool and the life cycle of a voice
  (`voice_pool`, `voice`), modulators and generators (`modulator`,
  `generator`), tunings (`tuning`), and the synthesizer that ties them
  together (`synth`). `laws` states properties that span several calls.
- `app/` renders the sound: it reads font files with the `soundfont` crate,
  computes the voices' envelopes, oscillators, filter and interpolation in
  floating point, runs the chorus and reverb, and writes the output. It
  calls the library for every decision.
- `tests/` exercises the library.
