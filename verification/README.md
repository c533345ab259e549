# controller

The decision logic of a game overlay controller, written in Verus and proved
against its contracts.

- `src/` is the verified library:
  - `settings`: toggle modes, weapon categories and their per-category tables,
    grenade metadata and sorting, configuration defaults;
  - `trigger`: the trigger bot's firing state machine, its recoil control gate
    and target checks, with the laws that every update keeps and the laws
    over a run of updates (commands alternate, releases are followed by the
    shot duration, presses wait the full delay);
  - `workers`: the anti-AFK and auto-accept workers' decisions;
  - `esp`, `bomb`, `crosshair`: what the overlay draws and labels;
  - `grenade`: the grenade helper's navigation, spot ids, spot edits and the
    import/export workflow, where an import replaces the current spots or is
    added to them map by map;
  - `cloud`: the cloud configuration request parameters;
  - `application`: per-frame bookkeeping, reading and checking the launch
    token and the server's answer to it, the watermark's items and labels;
  - `text`: character-level string helpers (lexicographic order, decimal notation, joining).
- `app/` is the program around it: game memory access, rendering, input,
  threads, files and network requests, and everything computed in floating point.
- `tests/` runs the library on concrete values.

## Per-category tables

The weapon settings per weapon category are a `CategoryTable`: a vector with
one optional entry per category, indexed by the category's slot number, whose
length is a type invariant. A lookup is a plain index, so its contract is
exact with no assumption about how a key type orders; a category without an
entry falls back to the `Other` entry, as a lookup in the configuration does.
