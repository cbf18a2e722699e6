# ocs_plugin_host

The host side of a CAD plugin interface: what a plugin may ask of an open
drawing, what the host answers, and what it refuses. The library is written in
Verus. Every public function states in its contract what it returns or changes,
and Verus proves it.

## What it does

- A plugin works on one drawing through a `HostSession` (`session.rs`). It reads
  and adds entities, replaces them in one undoable transaction, keeps records of
  its own on them, changes layers and styles, and asks for solids.
- A request is either carried out whole, in one undo step, or refused with a
  message that says why. A refused transaction, table operation or solid
  operation leaves the drawing as it was.
- Names are compared as the drawing's symbol tables compare them, by the upper
  case form that `acadrust` computes.

## Layout

`src/` is the verified library.

- `scalar`, `geometry`, `text`, `search`, `agree`: numbers as bit patterns,
  vectors, strings, searches over sequences, and comparison of values.
- `entities`, `records`, `document`, `scene`, `studio`, `outside`: the drawing,
  the tab that shows it, its undo history, and the collections of `acadrust` that
  it holds.
- `creation_rules`, `mutation_rules`, `reference_rules`, `hatch_rules`,
  `leader_rules`, `dimension_rules`, `table_rules`, `naming`: which entities and
  names are accepted.
- `binding`, `normalize`, `images`, `fresh`, `attributes`, `scripting`,
  `transaction`, `transaction_laws`: how entities enter the drawing and change in it.
- `layers`, `layer_ops`, `styles`, `dim_styles`, `style_uses`, `style_ops`,
  `table_ops`, `filing`: symbol tables.
- `solids`, `xdata`, `plugin_state`, `session`, `command`, `dim_constraint`: the
  other requests of a plugin, and the commands that it drives.

`app/` is ordinary Rust around the library: files, shared memory, serialisation,
floating-point geometry and the processes that plugins run in.

`tests/` runs the library on concrete drawings.

## Numbers

A floating-point number is held as its bits. Comparison, finiteness and sign are
decided from them and proved. A quantity that takes floating-point arithmetic (the
length of a vector, the gap between two edges) is computed in `app/` and handed to
the library as a value.
