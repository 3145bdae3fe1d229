//! Generating the Lua module of a whole program, and formatting it.
use vstd::prelude::*;
use crate::ast::{ExCommand, Program};
use crate::cmd::{body_lua, body_ok, cmd_ok};
use crate::expr::{gen_ident, ident_lua, ident_ok};
use crate::generate::{gen_cmd, lemma_body_ok_index};
use crate::state::{State, StateView};
use crate::text::{lines, lemma_lines_push};

verus! {

/// The state in which the commands of a program are generated.
pub open spec fn initial_state(is_test: bool) -> StateView {
    StateView { augroup: None, is_test, command_depth: 0, method_depth: 0, scope_depth: 0 }
}

/// Whether the generator can translate every command of `p`, in test mode or not.
pub open spec fn program_ok(p: Program, is_test: bool) -> bool {
    body_ok(p.commands@, 0, is_test)
}

/// The name that a top-level command declares, if it declares one: a
/// declaration, a function, a heredoc, or an export of one of them.
pub open spec fn toplevel_name(c: ExCommand) -> Option<Seq<char>>
    decreases c,
{
    match c {
        ExCommand::Decl(d) => Some(ident_lua(d.name)),
        ExCommand::Def(d) => Some(ident_lua(d.name)),
        ExCommand::ExportCommand(x) => toplevel_name(*x.command),
        ExCommand::Heredoc(h) => Some(ident_lua(h.name)),
        _ => None,
    }
}

/// Whether the name that a top-level command declares, if any, can be
/// translated. Only the name is generated, so nothing else is asked of
/// the command.
pub open spec fn toplevel_ok(c: ExCommand) -> bool
    decreases c,
{
    match c {
        ExCommand::Decl(d) => ident_ok(d.name),
        ExCommand::Def(d) => ident_ok(d.name),
        ExCommand::ExportCommand(x) => toplevel_ok(*x.command),
        ExCommand::Heredoc(h) => ident_ok(h.name),
        _ => true,
    }
}

/// A command that can be translated has a translatable declared name.
pub proof fn lemma_cmd_ok_toplevel_ok(c: ExCommand, depth: int, is_test: bool)
    requires
        cmd_ok(c, depth, is_test),
    ensures
        toplevel_ok(c),
    decreases c,
{
    if let ExCommand::ExportCommand(x) = c {
        lemma_cmd_ok_toplevel_ok(*x.command, depth, is_test);
    }
}

/// One `local name = nil` line per top-level declared name, so that every
/// such name is in scope from the start of the module.
pub open spec fn hoisted(cmds: Seq<ExCommand>) -> Seq<char>
    decreases cmds.len(),
{
    if cmds.len() == 0 {
        Seq::empty()
    } else {
        hoisted(cmds.drop_last()) + match toplevel_name(cmds.last()) {
            Some(n) => "local "@ + n + " = nil\n"@,
            None => Seq::empty(),
        }
    }
}

/// The text that opens every generated module.
pub open spec fn prelude() -> Seq<char> {
    "local NVIM9 = require('vim9script')"@ + "local __VIM9_MODULE = {}\n"@
}

/// The text that closes every generated module: it hands back the module table.
pub open spec fn module_return() -> Seq<char> {
    "return __VIM9_MODULE"@
}

/// The Lua module of a program: the prelude, a test suite opened in test
/// mode, the hoisted declarations, each command's text on its own line,
/// the test suite closed, and the module handed back.
pub open spec fn eval_lua(p: Program, is_test: bool) -> Seq<char> {
    prelude() + (if is_test {
        "describe(\"filename\", function()\n"@
    } else {
        Seq::empty()
    }) + hoisted(p.commands@) + lines(body_lua(p.commands@, initial_state(is_test)).0) + (
    if is_test {
        "end)"@
    } else {
        Seq::empty()
    }) + module_return()
}

/// The name a top-level command declares, if any.
pub fn toplevel_id(s: &State, command: &ExCommand) -> (r: Option<String>)
    requires
        toplevel_ok(*command),
    ensures
        match r {
            Some(n) => toplevel_name(*command) == Some(n@),
            None => toplevel_name(*command) is None,
        },
    decreases command,
{
    match command {
        ExCommand::Decl(decl) => Some(gen_ident(&decl.name)),
        ExCommand::Def(def) => Some(gen_ident(&def.name)),
        ExCommand::ExportCommand(e) => toplevel_id(s, &e.command),
        ExCommand::Heredoc(here) => Some(gen_ident(&here.name)),
        _ => None,
    }
}

/// The Lua module of a program, before formatting.
pub fn eval(program: Program, is_test: bool) -> (r: String)
    requires
        program_ok(program, is_test),
    ensures
        r@ == eval_lua(program, is_test),
        prelude().is_prefix_of(r@),
        module_return().is_suffix_of(r@),
{
    let mut state = State::new(is_test);
    let mut output = String::new();
    output.append("local NVIM9 = require('vim9script')");
    output.append("local __VIM9_MODULE = {}\n");
    if is_test {
        output.append("describe(\"filename\", function()\n");
    }
    let ghost head = output@;
    let n = program.commands.len();
    let mut i: usize = 0;
    while i < n
        invariant
            0 <= i <= n,
            n == program.commands@.len(),
            program_ok(program, is_test),
            state@ == initial_state(is_test),
            output@ == head + hoisted(program.commands@.take(i as int)),
        decreases n - i,
    {
        proof {
            lemma_body_ok_index(program.commands@, 0, is_test, i as int);
            lemma_cmd_ok_toplevel_ok(program.commands@[i as int], 0, is_test);
            assert(program.commands@.take(i + 1).drop_last() =~= program.commands@.take(i as int));
        }
        match toplevel_id(&state, &program.commands[i]) {
            Some(toplevel) => {
                output.append("local ");
                output.append(toplevel.as_str());
                output.append(" = nil\n");
            },
            None => {},
        }
        i += 1;
    }
    assert(program.commands@.take(n as int) =~= program.commands@);
    let ghost mid = output@;
    let ghost st0 = state@;
    let mut i: usize = 0;
    while i < n
        invariant
            0 <= i <= n,
            n == program.commands@.len(),
            program_ok(program, is_test),
            st0 == initial_state(is_test),
            output@ == mid + lines(body_lua(program.commands@.take(i as int), st0).0),
            state@ == st0.with_augroup(body_lua(program.commands@.take(i as int), st0).1),
        decreases n - i,
    {
        proof {
            lemma_body_ok_index(program.commands@, 0, is_test, i as int);
            assert(program.commands@.take(i + 1).drop_last() =~= program.commands@.take(i as int));
        }
        let t = gen_cmd(&program.commands[i], &mut state);
        proof {
            lemma_lines_push(body_lua(program.commands@.take(i as int), st0).0, t@);
        }
        output.append(t.as_str());
        output.append("\n");
        i += 1;
    }
    assert(program.commands@.take(n as int) =~= program.commands@);
    if is_test {
        output.append("end)");
    }
    output.append("return __VIM9_MODULE");
    proof {
        reveal_strlit("");
        assert(prelude().is_prefix_of(output@));
    }
    output
}

} // verus!
