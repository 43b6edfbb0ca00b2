# tiger_lib

A verified core of a validator for the script and data files of Paradox
games (Crusader Kings 3, Victoria 3, Imperator: Rome, Europa Universalis 5
and Hearts of Iron 4).

The library in `src/` is written in Verus: each function carries a contract
that Verus proves. It covers

- `files/`: the set of game, DLC and mod files, which of several files with
  the same path wins, lookups of files and directories, checks for
  misplaced and unused files, and the decoding of file contents;
- `pathname`, `text`: paths as components, their order, and the text
  operations the rest needs;
- `block`, `token`, `report`: the parsed script and the reports on it;
- `db`: the database of script items, and the kinds of items of each game
  under `ck3/`, `data/`, `eu5/`, `hoi4/` and `imperator/`;
- `imperator/provinces`: the map data of Imperator: `definition.csv`,
  `adjacencies.csv`, the provinces image and `default.map`;
- `validator`: checking the fields of a block against rules (required
  fields, forms of values, items that must exist, unknown fields, the
  files and icons that fields name), used by the `validate` function of
  each kind of item (artifacts, casus belli, character templates, court
  scenes, doctrines, domiciles, dynasty legacies, governments, great
  projects, houses, schemes and more in `ck3/data`; artist types, game
  concepts, modifier types in `eu5/data`; focuses and dynamic modifiers in
  `hoi4/data`; laws in `imperator/data`; achievements, scripted GUIs and
  trigger localizations in `data`), by events (`eu5`), effects (`hoi4`)
  and define values (`defines`);
- `data/scripted_effects`: the registry of scripted effects by name;
- `game`, `modif`, `scopes`, `defines`, `tooltipped`: sets of games, kinds
  of modifiers and scopes, define types.

`app/` holds what touches the file system: walking directories, reading
files, locating secondary mods and reading the benchmark configuration;
the provinces image is decoded in the library, from the bytes `app/`
reads. What the library does not check itself (the contents of triggers,
effects, script values and descriptions) is left to the caller. `tests/`
runs the library on concrete inputs.
