# openlogi

The decision-making core of the OpenLogi mouse and keyboard companion,
written in Verus and proved against its contracts.

`src/` is the verified library:

- `tuning`, `binding`, `device`, `keys`, `table`, `config`: gesture
  thresholds, bindings, and the per-device configuration with its getters
  and setters (each device answers for itself; a removed device answers the
  defaults).
- `settings`: the settings commits of the desktop app. A commit edits the
  configuration and asks for a write; `AppState::settle` rolls the edit back
  when the write fails and names the follow-up.
- `pointer`: which target an action aimed at the pointer may reach, the
  window-list classification and the front-to-back hit test.
- `capture`, `swipe`, `keyboard`: diverted control reports turned into button
  edges and gestures, and keyboard edges turned into dispatcher calls.
- `scroll_phase`: the balanced phase stream a smooth scroll shows
  applications, and the integer fields of a synthetic scroll event.
- `slider`, `shortcut`: the write-on-release slider thumb and the shortcut
  recorder.
- `paths`, `registration`, `installation`: the per-profile directory layout
  (through `etcetera`), and the launchd registration rules.

`app/` holds what cannot be verified: reading the environment and the app
bundle, files and `launchctl`, and the floating-point parts (slider
positions, window geometry, the smooth-scroll glide).

`tests/` exercises the library on concrete values.

## Why two tables are sorted vectors

The per-device table (`table::KeyedTable`, keyed by a device's text key) and
the per-button bindings (`binding::BindingMap`, keyed by `ButtonId`) are kept
as vectors sorted by key, with that order as a type invariant, rather than as
`BTreeMap`s. vstd specifies `BTreeMap` only for key types whose `Ord` obeys
its comparison laws (`key_obeys_cmp_spec`), and it proves those laws for the
integer types. Neither key type here qualifies: vstd gives `String` no
ordering specification, and `ButtonId`'s `Ord` is derived, which Verus does
not read. Over a sorted vector the
lookups, inserts and removals are proved against a `Map` view instead:
keys compare by code points (`keys::key_lt`) and buttons by a fixed rank
(`binding::button_rank_of`).
