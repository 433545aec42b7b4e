# songmap

A desktop tool for laying out a song section by section. The crate is in two
parts:

- `src/` — the verified library (Verus): section kinds with their labels,
  save keys and colours (`kind`, `color`), sections and bar totals
  (`section`), saved projects and the save/load conversion (`project`), the
  editing rules of an arrangement — selection, moving, deleting, resizing
  (`arrangement`) — the `MM:SS` clock text (`clock`) and the column layout
  of production tips (`tips`). Each public
  function has a contract; the round-trip and bookkeeping laws are proof
  functions beside the code they speak of.
- `app/` — the egui/eframe program around it: windows and painting, file
  dialogs, JSON reading and writing, and everything that computes with
  floating-point seconds and pixels.
- `tests/` — tests of the library on concrete values.
