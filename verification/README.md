# vim9_gen

Translates vim9script into Lua modules for Neovim, with every step of the
translation specified and proved in Verus.

Function calls and method calls are not represented in the syntax tree; the
front end reports a program that holds one as one that cannot be translated.

- `src/ast.rs` — the vim9script syntax tree the generator reads.
- `src/expr.rs` — the Lua text of expressions: specification and generation.
- `src/cmd.rs` — the Lua text of commands, and the one piece of state they change
  (the current autocommand group).
- `src/generate.rs` — generation of commands against `cmd.rs`.
- `src/generator.rs` — the `Generate` trait over every node.
- `src/program.rs` — a whole module: prelude, hoisted declarations, commands.
- `src/format.rs` — formatting with StyLua.
- `src/supported.rs` — deciding whether a program can be translated.
- `src/text.rs`, `src/state.rs` — text building blocks and the generator's state.
- `src/laws.rs` — properties proved across all inputs.
- `app/` — the command-line front end; it needs the vim9script lexer and parser.
