# battle_cats_complete

The rules behind the Battle Cats Complete desktop toolkit, written in Verus: each
public function carries a contract, and Verus proves that the code meets it.

## Layout

- `src/` is the verified library. Each module holds one concern of the application:
  - `navigation`, `home`, `init_errors`: pages, the popup stack, and start-up notices;
  - `updater`: the update check as a state machine, the choice of the release to install, and the updater popup;
  - `watcher`, `reload`, `lifecycle`: the file watcher's debouncer, the sorting of changed files, and when the file index is rebuilt, swapped in and written back;
  - `autosave`, `settings`, `config`, `theme`, `logging`: what is saved and when, the settings forms and the log plan;
  - `cat`, `roster`, `combos`, `lineup`, `orbs`, `sheets`, `stage_text`: the cat, enemy, combo, lineup, orb and stage views' selection logic and the text they show;
  - `mining`, `files`: comparing the game data with a snapshot, and the file browser;
  - `battle`, `sandbox`, `setup`, `replay`, `manage`: the battle sandbox's controls and set-up, and the replay list and its jobs;
  - `text`, `seqs`, `feedback`: shared helpers and short-lived button feedback.
  Public proof functions named `law_*` state properties that hold across calls.
- `tests/` runs the library on concrete inputs.
- `app/` is a console program around the library: logging, file watching, update
  checks over the network, opening links and the stored settings. It is not verified.

Calls into outside crates (a hash, a version comparison, lower-casing) stand behind a
few trusted wrappers, each with a doc comment that says what its contract claims.
