# focustrail

The core of FocusTrail, a desktop focus timer, as a library verified with
Verus, and the desktop program around it.

## Layout

- `src/` — the verified library.
  - `time.rs`: instants and local date-times as plain values, day numbers,
    weekdays, and the clock (read through chrono).
  - `domain.rs`: the focus-session timer (start, pause, resume, cancel,
    save and reset, reports) and the session records it produces, with a
    mathematical model of each operation.
  - `stats.rs`: daily progress: completed focus and rest time per reporting
    day, the remaining goal and the streak of days that met it.
  - `storage.rs`: settings and the rules that normalise them.
  - `git_sync.rs`: commit messages, error masking, the background sync
    queue and the arguments of the detached sync helper.
  - `sync_run.rs`: one Git sync run as a state machine: each step names the
    outside work to do, and the next step follows from its result.
  - `overlay.rs`: the rest screen: its duration, requests, accepted files
    and image data URLs (base64).
  - `file_picker.rs`: what the file and folder choosers ask for.
  - `text.rs`: text helpers with their meaning as specifications.
  - `laws.rs`: properties that span operations, proved.
- `tests/` — tests of the library on concrete values.
- `app/` — the Tauri program: windows, commands, files, processes and the
  single-instance guard. It performs the outside work the library asks for.

## Checking

Verus verifies `src/`; the tests run against the compiled library with the
real outside crates (chrono, uuid) linked.
