# webtale

The rules of a small battle engine in the style of Undertale, whose content (the enemy,
the items, the phases of a fight, the bullet patterns) is written as Python scripts in a
project folder `projects/<name>/`. The library is written in Verus: every function carries
a contract, and Verus proves the code meets it.

## Layout

- `src/` — the verified library.
  - `state.rs` — what a battle holds: the player, the enemy, the menu, the turn flow.
  - `scripts.rs` — where a project's scripts live and reading them from a loaded store.
  - `setup.rs` — a new battle's defaults and taking in what the scripts define.
  - `phase.rs` — choosing the starting phase, the context a phase script is given, and
    applying its answer.
  - `menu.rs` — the command menu: cursor movement, FIGHT / ACT / ITEM / MERCY.
  - `render.rs` — the lines the menu shows and when it must be drawn again.
  - `combat.rs` — the turn flow: the enemy's speech, its attack, the player's hit.
  - `animation.rs` — typed text, the defeated heart, the game over screen, the frog bullet.
  - `editor.rs` — the editor's tabs, play controls and project browser.
  - `input.rs` — program-wide shortcuts and window closing.
  - `python.rs` — running the project's Python scripts (properties, enemy status,
    portrait, phase updates, bullet patterns) and reading what they answer.
  - `names.rs`, `text.rs` — a small map keyed by name, and text helpers.
- `tests/` — tests of the library on concrete values.
- `app/` — a host program: it reads a project from disk, sets up the interpreter, and plays
  the battle on the terminal, one line of keys per frame, through the library's step
  functions; it keeps the floating-point parts (hit points, positions, bullet movement).

Laws that span several functions are stated and proved as `law_*` proof functions next to
the functions they speak of.
