# sp_format

A formatter for SourcePawn, with its writers verified by Verus.

The source is parsed with tree-sitter and its grammar for SourcePawn; the
syntax tree is then read into a plain tree of the library's own
(`syntax::SyntaxNode`), and the writers walk that tree to produce the
formatted text.

## Layout

- `src/syntax.rs`: the syntax tree the writers read, and what a tree must
  satisfy to be written (`wf`).
- `src/settings.rs`: the formatting options.
- `src/text.rs`: the string operations of std that the writers use, with
  their contracts.
- `src/writers.rs` and `src/writers/`: the writers, one module per kind of
  construct. Each writer is specified by a spec function `fmt_*` of the
  same name, from the state of the writer before to the state after; its
  `ensures` says that it produces exactly that state, and how the
  indentation, the `;` mode and the text written before may change.
- `src/parser.rs`: the calls into tree-sitter, and the reading of its tree.
- `src/formatter.rs`: `format_tree`, whose result is stated exactly for
  every tree, and `format_string`, which parses and then formats.
- `app/main.rs`: the command-line program, which reads `sp_format.toml`
  and rewrites the files it is given.

The tests under `tests/` build syntax trees by hand, or parse small
sources, and compare the formatted text with the expected one.
