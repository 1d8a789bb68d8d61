# superfastgen

A code generator for Flutter/Dart projects: Freezed data classes, JSON
serialization parts, Riverpod providers and an `assets.gen.dart` class of asset
constants. The generators are written in Verus; each public function states what
it produces in its contract, over spec functions that describe the generated text.

## Layout

- `src/` — the verified library.
  - `text.rs` — character and text operations (search, split, trim, replace)
    with their specifications.
  - `primitives.rs` — the trusted calls into `std` (paths, case mappings) and
    into the `sha1` crate, with the contracts that the rest relies on.
  - `config.rs` — `superfastgen.yaml` settings, how they combine with the
    command line, and which generators a run performs.
  - `commands/assets.rs` — the asset class: categories, constant names, file
    collection.
  - `commands/freezed_gen.rs`, `freezed_templates.rs`, `freezed_json.rs` — the
    text scan of Freezed classes and the `.freezed.dart` / `.g.dart` code.
  - `commands/syntax_tree.rs`, `generate.rs`, `generate_templates.rs` — Dart
    syntax trees, class discovery, the `.g.dart` parts and Riverpod providers.
  - `commands/provider_gen.rs` — standalone provider declarations.
- `tests/` — tests of the library on concrete inputs.
- `app/` — the command-line program: argument parsing (clap), YAML reading
  (serde), the Dart parser (tree-sitter), file walking, watching and writing.

Laws that span several functions are stated as public proof functions next to
the functions they speak of (their names begin with `lemma_`).
