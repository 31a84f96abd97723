# yadaw

The logic of a digital audio workstation, written in Verus and proved
against its contracts.

- `src/` is the verified library: actions and keyboard shortcuts, MIDI note
  names and velocity curves, the flags of tracks that editing commands set
  (mute, solo, arming, groups, MIDI input ports), the notes held while MIDI
  is recorded, the MIDI engine's filter and echo, reading the notes of a
  Standard MIDI File (through `midly`) and naming its tracks, checking
  plugin URIs, the plugin chains of the engine's tracks, mixer routing, the
  id counter, recovery points, performance history, settings repair and
  error messages.
- `tests/` exercises the library on concrete values.
- `app/` is the program around it: settings and shortcut files, paths,
  egui input, touch gestures, and the floating-point parts (mixing, gain and
  pan arithmetic, ticks to beats, performance judgement).
