//! Translation of vim9script into Lua for Neovim.
//!
//! A parsed vim9script program (`ast`) becomes the text of a Lua module
//! that runs against the `vim9script` runtime library. The text of every
//! construct is specified in `expr` and `cmd`, produced by `expr`,
//! `generate` and `program`, and formatted with StyLua in `format`.
//!
//! Function calls and method calls (`F(x)`, `x->F()`, `call F()`) are not
//! part of the syntax tree: a front end reports a program that holds one as
//! one that cannot be translated.
pub mod ast;
pub mod cmd;
pub mod expr;
pub mod format;
pub mod generate;
pub mod generator;
pub mod laws;
pub mod program;
pub mod state;
pub mod supported;
pub mod text;

pub use format::generate;
pub use generator::Generate;
pub use program::eval;
pub use state::{State, VimscriptScope};
