//! What the generator remembers while it walks a program.
use vstd::prelude::*;
use crate::ast::Literal;

verus! {

/// One level of function nesting.
pub struct VimscriptScope {}

/// The generator's state.
pub struct State {
    /// The autocommand group that the commands being generated belong to.
    pub augroup: Option<Literal>,
    /// Whether `Test*` functions become test cases.
    pub is_test: bool,
    /// How many user commands enclose the command being generated.
    pub command_depth: i32,
    /// How many method calls enclose the expression being generated.
    pub method_depth: i32,
    /// One entry per enclosing function definition.
    pub scopes: Vec<VimscriptScope>,
}

/// The state as the contracts see it.
pub struct StateView {
    pub augroup: Option<Seq<char>>,
    pub is_test: bool,
    pub command_depth: int,
    pub method_depth: int,
    pub scope_depth: nat,
}

impl StateView {
    pub open spec fn with_augroup(self, augroup: Option<Seq<char>>) -> StateView {
        StateView { augroup, ..self }
    }
}

pub open spec fn literal_text(l: Option<Literal>) -> Option<Seq<char>> {
    match l {
        Some(l) => Some(l.text@),
        None => None,
    }
}

impl View for State {
    type V = StateView;

    open spec fn view(&self) -> StateView {
        StateView {
            augroup: literal_text(self.augroup),
            is_test: self.is_test,
            command_depth: self.command_depth as int,
            method_depth: self.method_depth as int,
            scope_depth: self.scopes@.len(),
        }
    }
}

impl State {
    /// The state in which a program is generated.
    pub fn new(is_test: bool) -> (s: State)
        ensures
            s@ == (StateView {
                augroup: None,
                is_test,
                command_depth: 0,
                method_depth: 0,
                scope_depth: 0,
            }),
    {
        State { augroup: None, is_test, command_depth: 0, method_depth: 0, scopes: Vec::new() }
    }

    /// Whether no function definition encloses the current command.
    pub fn is_top_level(&self) -> (r: bool)
        ensures
            r == (self@.scope_depth == 0),
    {
        self.scopes.len() == 0
    }
}

} // verus!
