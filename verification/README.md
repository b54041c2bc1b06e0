# daw

The data model and editing logic of a pattern-based digital audio
workstation, verified with Verus.

- `src/` is the verified library: notes and pitch names, patterns and their
  step sequencer, channels, playlist tracks and clips, the project that
  holds them, the commands that edit a project, the dispatcher that runs
  commands by name and keeps their undo history, MIDI events and their wire
  format, voice allocation, transport state machines, sound-card discovery
  text, the bars:beats:ticks display, and the view models of the arrangement
  and piano-roll editors. Floating-point quantities are carried as bit patterns.
- `app/` is the unverified shell around it: a line-oriented front end, the
  JSON project format and command arguments (serde), audio file I/O (hound,
  symphonia), sound-card scanning, synthesis, the transport clock and the
  real-time processors, which all compute with floats.
- `tests/` exercises the library from the outside.
