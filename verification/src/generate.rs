//! Generating Lua text for commands, as `cmd.rs` specifies it.
use vstd::prelude::*;
use crate::ast::{
    AssignStatement, AugroupCommand, AutocmdBlock, AutocmdCommand, Body, BreakCommand,
    DeclCommand, DefCommand, EchoCommand, ElseCommand, ElseIfCommand, ExCommand, ExportCommand,
    Expression, ForCommand, Heredoc, Identifier, IfCommand, ImportCommand, IndexType, InnerType,
    Literal, MutationModifier, MutationStatement, ReturnCommand, SharedCommand,
    StatementCommand, TryCommand, UserCommand, VarCommand, Vim9ScriptCommand, WhileCommand,
};
use crate::cmd::{
    assign_left_ok, assign_lua, augroup_lua, autocmd_lua, body_lua, body_ok, body_text, cmd_lua,
    cmd_ok, def_lua, else_lua, elseif_lua, elseifs_lua, elseifs_ok, event_list, export_lua,
    file_stem, for_lua, import_ok,
    heredoc_lines, heredoc_lua, idents_ok, if_lua, import_lua, import_names, mutation_lua,
    mutation_operator, user_command_lua, var_lua, while_lua,
};
use crate::expr::{
    expr_lua, expr_ok, gen_expr, gen_ident, gen_signature, ident_lua, ident_ok,
    make_user_command_arg, operator_name,
};
use crate::state::{State, StateView, VimscriptScope};
use crate::text::{
    bool_to_str, has_prefix, join, lemma_join_push, push_joined, trim, trim_str,
};

verus! {

pub(crate) proof fn lemma_body_ok_index(cmds: Seq<ExCommand>, depth: int, is_test: bool, i: int)
    requires
        body_ok(cmds, depth, is_test),
        0 <= i < cmds.len(),
    ensures
        cmd_ok(cmds[i], depth, is_test),
    decreases cmds.len(),
{
    if i < cmds.len() - 1 {
        lemma_body_ok_index(cmds.drop_last(), depth, is_test, i);
    }
}

proof fn lemma_body_lua_len(cmds: Seq<ExCommand>, st: StateView)
    ensures
        body_lua(cmds, st).0.len() == cmds.len(),
    decreases cmds.len(),
{
    if cmds.len() > 0 {
        lemma_body_lua_len(cmds.drop_last(), st);
    }
}

proof fn lemma_elseifs_lua_len(es: Seq<ElseIfCommand>, st: StateView)
    ensures
        elseifs_lua(es, st).0.len() == es.len(),
    decreases es.len(),
{
    if es.len() > 0 {
        lemma_elseifs_lua_len(es.drop_last(), st);
    }
}

proof fn lemma_elseifs_ok_index(es: Seq<ElseIfCommand>, depth: int, is_test: bool, i: int)
    requires
        elseifs_ok(es, depth, is_test),
        0 <= i < es.len(),
    ensures
        expr_ok(es[i].condition),
        body_ok(es[i].body.commands@, depth, is_test),
    decreases es.len(),
{
    if i < es.len() - 1 {
        lemma_elseifs_ok_index(es.drop_last(), depth, is_test, i);
    }
}

/// The commands of a body, each on its own line, generated in order.
pub fn gen_body(b: &Body, state: &mut State) -> (r: String)
    requires
        body_ok(b.commands@, old(state)@.command_depth, old(state)@.is_test),
    ensures
        r@ == body_text(b.commands@, old(state)@).0,
        final(state)@ == old(state)@.with_augroup(body_text(b.commands@, old(state)@).1),
    decreases b,
{
    let ghost st0 = state@;
    let mut out = String::new();
    let mut i: usize = 0;
    while i < b.commands.len()
        invariant
            0 <= i <= b.commands.len(),
            body_ok(b.commands@, st0.command_depth, st0.is_test),
            out@ == join(body_lua(b.commands@.take(i as int), st0).0, "\n"@),
            state@ == st0.with_augroup(body_lua(b.commands@.take(i as int), st0).1),
        decreases b.commands.len() - i,
    {
        proof {
            lemma_body_ok_index(b.commands@, st0.command_depth, st0.is_test, i as int);
            lemma_body_lua_len(b.commands@.take(i as int), st0);
            assert(b.commands@.take(i + 1).drop_last() =~= b.commands@.take(i as int));
            assert(decreases_to!(b => b.commands));
            assert(decreases_to!(b.commands => b.commands@));
        }
        let t = gen_cmd(&b.commands[i], state);
        proof {
            lemma_join_push(body_lua(b.commands@.take(i as int), st0).0, "\n"@, t@);
        }
        push_joined(&mut out, "\n", t.as_str(), i == 0);
        i += 1;
    }
    assert(b.commands@.take(b.commands@.len() as int) =~= b.commands@);
    out
}

/// An `if` command: the `else` part is generated first, then the
/// condition, the body and the `elseif`s; the text is trimmed.
pub fn gen_if(i: &IfCommand, state: &mut State) -> (r: String)
    requires
        cmd_ok(ExCommand::If(*i), old(state)@.command_depth, old(state)@.is_test),
    ensures
        r@ == if_lua(*i, old(state)@).0,
        final(state)@ == old(state)@.with_augroup(if_lua(*i, old(state)@).1),
    decreases i,
{
    let ghost st0 = state@;
    let else_text = match &i.else_command {
        Some(e) => gen_else(e, state),
        None => String::new(),
    };
    let cond = gen_expr(&i.condition, state.command_depth);
    let body = gen_body(&i.body, state);
    let ghost st2 = state@;
    let mut elseifs = String::new();
    let mut k: usize = 0;
    while k < i.elseifs.len()
        invariant
            0 <= k <= i.elseifs.len(),
            elseifs_ok(i.elseifs@, st0.command_depth, st0.is_test),
            st2.command_depth == st0.command_depth,
            st2 == st0.with_augroup(st2.augroup),
            elseifs@ == join(elseifs_lua(i.elseifs@.take(k as int), st2).0, "\n"@),
            state@ == st2.with_augroup(elseifs_lua(i.elseifs@.take(k as int), st2).1),
        decreases i.elseifs.len() - k,
    {
        let e = &i.elseifs[k];
        proof {
            lemma_elseifs_ok_index(i.elseifs@, st0.command_depth, st0.is_test, k as int);
            lemma_elseifs_lua_len(i.elseifs@.take(k as int), st2);
            assert(i.elseifs@.take(k + 1).drop_last() =~= i.elseifs@.take(k as int));
            assert(decreases_to!(i => i.elseifs));
            assert(decreases_to!(i.elseifs => i.elseifs@));
        }
        let piece = gen_elseif(e, state);
        proof {
            lemma_join_push(elseifs_lua(i.elseifs@.take(k as int), st2).0, "\n"@, piece@);
        }
        push_joined(&mut elseifs, "\n", piece.as_str(), k == 0);
        k += 1;
    }
    assert(i.elseifs@.take(i.elseifs@.len() as int) =~= i.elseifs@);
    let mut out = String::new();
    out.append("if ");
    out.append(cond.as_str());
    out.append(" then\n  ");
    out.append(body.as_str());
    out.append("\n");
    out.append(elseifs.as_str());
    out.append("\n");
    out.append(else_text.as_str());
    out.append("\nend");
    out
}

/// An `elseif` branch.
pub fn gen_elseif(e: &ElseIfCommand, state: &mut State) -> (r: String)
    requires
        expr_ok(e.condition),
        body_ok(e.body.commands@, old(state)@.command_depth, old(state)@.is_test),
    ensures
        r@ == elseif_lua(*e, old(state)@).0,
        final(state)@ == old(state)@.with_augroup(elseif_lua(*e, old(state)@).1),
    decreases e,
{
    let mut out = String::new();
    out.append("\n        elseif ");
    let c = gen_expr(&e.condition, state.command_depth);
    out.append(c.as_str());
    out.append(" then\n            ");
    let t = gen_body(&e.body, state);
    out.append(t.as_str());
    out.append("\n        ");
    out
}

/// An `else` branch.
pub fn gen_else(e: &ElseCommand, state: &mut State) -> (r: String)
    requires
        body_ok(e.body.commands@, old(state)@.command_depth, old(state)@.is_test),
    ensures
        r@ == else_lua(*e, old(state)@).0,
        final(state)@ == old(state)@.with_augroup(else_lua(*e, old(state)@).1),
    decreases e,
{
    let mut out = String::new();
    out.append("else\n");
    let t = gen_body(&e.body, state);
    out.append(t.as_str());
    out.append("\n");
    out
}

/// A function definition: a test case, or a Lua function whose body is
/// generated one scope deeper.
pub fn gen_def(d: &DefCommand, state: &mut State) -> (r: String)
    requires
        cmd_ok(ExCommand::Def(*d), old(state)@.command_depth, old(state)@.is_test),
    ensures
        r@ == def_lua(*d, old(state)@).0,
        final(state)@ == old(state)@.with_augroup(def_lua(*d, old(state)@).1),
    decreases d,
{
    let name = gen_ident(&d.name);
    let mut out = String::new();
    if state.is_test && has_prefix(name.as_str(), "Test") {
        out.append("\n                    it(\"");
        out.append(name.as_str());
        out.append(
            "\", function()\n                       -- Set errors to empty\n                       vim.v.errors = {}\n\n                       -- Actual test\n                       ",
        );
        let body = gen_body(&d.body, state);
        out.append(body.as_str());
        out.append(
            "\n\n                       -- Assert that errors is still empty\n                       assert.are.same({}, vim.v.errors)\n                    end)\n                ",
        );
    } else {
        let (signature, defaults) = gen_signature(&d.args, state.command_depth);
        proof {
            reveal_strlit("");
        }
        let local = if state.is_top_level() {
            ""
        } else {
            "local"
        };
        state.scopes.push(VimscriptScope {});
        let body = gen_body(&d.body, state);
        let _ = state.scopes.pop();
        out.append("\n                ");
        out.append(local);
        out.append(" ");
        out.append(name.as_str());
        out.append(" = function(");
        out.append(signature.as_str());
        out.append(")\n                    ");
        out.append(defaults.as_str());
        out.append("\n                    ");
        out.append(body.as_str());
        out.append("\n                end\n                ");
    }
    out
}

/// An augroup block: its body is generated with the group current, and the
/// group is cleared after it.
pub fn gen_augroup(g: &AugroupCommand, state: &mut State) -> (r: String)
    requires
        cmd_ok(ExCommand::Augroup(*g), old(state)@.command_depth, old(state)@.is_test),
    ensures
        r@ == augroup_lua(*g, old(state)@).0,
        final(state)@ == old(state)@.with_augroup(augroup_lua(*g, old(state)@).1),
    decreases g,
{
    state.augroup = Some(Literal { text: g.augroup_name.text.clone() });
    let mut out = String::new();
    out.append("\n    vim.api.nvim_create_augroup(\"");
    out.append(g.augroup_name.text.as_str());
    out.append("\", { clear = false })\n\n    ");
    let body = gen_body(&g.body, state);
    out.append(body.as_str());
    out.append("\n");
    state.augroup = None;
    out
}

/// An autocommand, in the current group if there is one.
pub fn gen_autocmd(a: &AutocmdCommand, state: &mut State) -> (r: String)
    requires
        cmd_ok(ExCommand::Autocmd(*a), old(state)@.command_depth, old(state)@.is_test),
    ensures
        r@ == autocmd_lua(*a, old(state)@).0,
        final(state)@ == old(state)@.with_augroup(autocmd_lua(*a, old(state)@).1),
    decreases a,
{
    let mut group = String::new();
    match &state.augroup {
        Some(g) => {
            group.append("group = '");
            group.append(g.text.as_str());
            group.append("',");
        },
        None => {},
    }
    let mut events = String::new();
    let mut k: usize = 0;
    while k < a.events.len()
        invariant
            0 <= k <= a.events.len(),
            events@ == join(event_list(a.events@.take(k as int)), ", "@),
        decreases a.events.len() - k,
    {
        let mut piece = String::new();
        piece.append("'");
        piece.append(a.events[k].text.as_str());
        piece.append("'");
        proof {
            lemma_event_list_len(a.events@.take(k as int));
            assert(a.events@.take(k + 1).drop_last() =~= a.events@.take(k as int));
            lemma_join_push(event_list(a.events@.take(k as int)), ", "@, piece@);
        }
        push_joined(&mut events, ", ", piece.as_str(), k == 0);
        k += 1;
    }
    assert(a.events@.take(a.events@.len() as int) =~= a.events@);
    let mut callback = String::new();
    callback.append("function()\n");
    match &a.block {
        AutocmdBlock::Command(inner) => {
            let t = gen_cmd(inner, state);
            callback.append(t.as_str());
        },
        AutocmdBlock::Block(b) => {
            let t = gen_body(b, state);
            callback.append(t.as_str());
        },
    }
    callback.append("\nend");
    let mut out = String::new();
    out.append("\nvim.api.nvim_create_autocmd({ ");
    out.append(events.as_str());
    out.append(" }, {\n    ");
    out.append(group.as_str());
    out.append("\n    callback = ");
    out.append(callback.as_str());
    out.append(",\n})\n");
    out
}

proof fn lemma_event_list_len(events: Seq<Literal>)
    ensures
        event_list(events).len() == events.len(),
    decreases events.len(),
{
    if events.len() > 0 {
        lemma_event_list_len(events.drop_last());
    }
}

/// A user command; its command is generated one user command deeper.
pub fn gen_user_command(u: &UserCommand, state: &mut State) -> (r: String)
    requires
        cmd_ok(ExCommand::UserCommand(*u), old(state)@.command_depth, old(state)@.is_test),
    ensures
        r@ == user_command_lua(*u, old(state)@).0,
        final(state)@ == old(state)@.with_augroup(user_command_lua(*u, old(state)@).1),
    decreases u,
{
    state.command_depth = state.command_depth + 1;
    let arg = make_user_command_arg(state.command_depth);
    let t = gen_cmd(&u.command, state);
    let mut out = String::new();
    out.append("\n            vim.api.nvim_create_user_command(\n                \"");
    out.append(u.name.as_str());
    out.append("\",\n                function(");
    out.append(arg.as_str());
    out.append(")\n                    ");
    out.append(t.as_str());
    out.append("\n                end,\n                {\n                     nargs = '");
    match &u.command_nargs {
        Some(n) => out.append(n.as_str()),
        None => out.append("0"),
    }
    out.append("',\n                     bang = ");
    out.append(bool_to_str(u.command_bang));
    out.append(",\n                }\n            )");
    state.command_depth = state.command_depth - 1;
    out
}

/// An export: the command, then its name entered into the module table.
pub fn gen_export(x: &ExportCommand, state: &mut State) -> (r: String)
    requires
        cmd_ok(ExCommand::ExportCommand(*x), old(state)@.command_depth, old(state)@.is_test),
    ensures
        r@ == export_lua(*x, old(state)@).0,
        final(state)@ == old(state)@.with_augroup(export_lua(*x, old(state)@).1),
    decreases x,
{
    proof {
        reveal_with_fuel(cmd_ok, 2);
    }
    let exported = gen_cmd(&x.command, state);
    let ident = match &*x.command {
        ExCommand::Var(v) => gen_ident(&v.name),
        ExCommand::Def(d) => gen_ident(&d.name),
        _ => {
            assert(false);
            String::new()
        },
    };
    let mut out = String::new();
    out.append(exported.as_str());
    out.append(";\n__VIM9_MODULE['");
    out.append(ident.as_str());
    out.append("'] = ");
    out.append(ident.as_str());
    out.append(";");
    out
}

/// A `for` loop over a list.
pub fn gen_for(f: &ForCommand, state: &mut State) -> (r: String)
    requires
        cmd_ok(ExCommand::For(*f), old(state)@.command_depth, old(state)@.is_test),
    ensures
        r@ == for_lua(*f, old(state)@).0,
        final(state)@ == old(state)@.with_augroup(for_lua(*f, old(state)@).1),
    decreases f,
{
    let mut out = String::new();
    out.append("for _, ");
    let id = gen_ident(&f.for_identifier);
    out.append(id.as_str());
    out.append(" in NVIM9.iter(");
    let e = gen_expr(&f.for_expr, state.command_depth);
    out.append(e.as_str());
    out.append(") do\n");
    let body = gen_body(&f.body, state);
    out.append(body.as_str());
    out.append("\nend\n");
    out
}

/// A `while` loop.
pub fn gen_while(w: &WhileCommand, state: &mut State) -> (r: String)
    requires
        cmd_ok(ExCommand::While(*w), old(state)@.command_depth, old(state)@.is_test),
    ensures
        r@ == while_lua(*w, old(state)@).0,
        final(state)@ == old(state)@.with_augroup(while_lua(*w, old(state)@).1),
    decreases w,
{
    let mut out = String::new();
    out.append("while ");
    let c = gen_expr(&w.condition, state.command_depth);
    out.append(c.as_str());
    out.append("\ndo\n");
    let body = gen_body(&w.body, state);
    out.append(body.as_str());
    out.append("\nend");
    out
}

/// The Lua text of a command.
pub fn gen_cmd(c: &ExCommand, state: &mut State) -> (r: String)
    requires
        cmd_ok(*c, old(state)@.command_depth, old(state)@.is_test),
    ensures
        r@ == cmd_lua(*c, old(state)@).0,
        final(state)@ == old(state)@.with_augroup(cmd_lua(*c, old(state)@).1),
    decreases c,
{
    let depth = state.command_depth;
    match c {
        ExCommand::Vim9Script(v) => gen_vim9script(v),
        ExCommand::Var(v) => gen_var(v, depth),
        ExCommand::Echo(e) => gen_echo(e, depth),
        ExCommand::Statement(s) => gen_statement(s, depth),
        ExCommand::Return(r) => gen_return(r, depth),
        ExCommand::Def(d) => gen_def(d, state),
        ExCommand::If(i) => gen_if(i, state),
        ExCommand::Augroup(g) => gen_augroup(g, state),
        ExCommand::Autocmd(a) => gen_autocmd(a, state),
        ExCommand::Decl(x) => gen_decl(x),
        ExCommand::Comment(l) => {
            let mut out = String::new();
            out.append("-- ");
            out.append(l.text.as_str());
            out
        },
        ExCommand::NoOp(t) => {
            let mut out = String::new();
            if !t.is_whitespace {
                out.append("\n-- ");
                out.append(t.debug_text.as_str());
            }
            out
        },
        ExCommand::Heredoc(h) => gen_heredoc(h),
        ExCommand::UserCommand(u) => gen_user_command(u, state),
        ExCommand::Eval(e) => {
            let mut out = gen_expr(&e.expr, depth);
            out.append(";");
            out
        },
        ExCommand::SharedCommand(s) => gen_shared(s),
        ExCommand::ExportCommand(x) => gen_export(x, state),
        ExCommand::ImportCommand(i) => gen_import(i),
        ExCommand::Finish => {
            let mut out = String::new();
            out.append("return __VIM9_MODULE");
            out
        },
        ExCommand::For(f) => gen_for(f, state),
        ExCommand::Try(t) => gen_try(t, state),
        ExCommand::While(w) => gen_while(w, state),
        ExCommand::Break(b) => gen_break(b),
        ExCommand::Skip => {
            assert(false);
            String::new()
        },
        ExCommand::EndOfFile => {
            assert(false);
            String::new()
        },
    }
}

/// The `vim9script` line, kept as a comment.
pub fn gen_vim9script(v: &Vim9ScriptCommand) -> (r: String)
    ensures
        r@ == "-- vim9script"@,
{
    let mut out = String::new();
    out.append("-- vim9script");
    out
}

/// `echo`, as `print`.
pub fn gen_echo(e: &EchoCommand, depth: i32) -> (r: String)
    requires
        expr_ok(e.expr),
    ensures
        r@ == "print("@ + expr_lua(e.expr, depth as int) + ")"@,
{
    let mut out = String::new();
    out.append("print(");
    let t = gen_expr(&e.expr, depth);
    out.append(t.as_str());
    out.append(")");
    out
}

/// An assignment or a compound assignment.
pub fn gen_statement(s: &StatementCommand, depth: i32) -> (r: String)
    requires
        match *s {
            StatementCommand::Assign(a) => assign_left_ok(a.left) && expr_ok(a.right),
            StatementCommand::Mutate(m) => expr_ok(m.left) && expr_ok(m.right),
        },
    ensures
        r@ == match *s {
            StatementCommand::Assign(a) => assign_lua(a, depth as int),
            StatementCommand::Mutate(m) => mutation_lua(m, depth as int),
        },
{
    match s {
        StatementCommand::Assign(a) => gen_assign(a, depth),
        StatementCommand::Mutate(m) => gen_mutation(m, depth),
    }
}

/// `return`, with or without a value.
pub fn gen_return(r: &ReturnCommand, depth: i32) -> (out: String)
    requires
        r.expr matches Some(e) ==> expr_ok(e),
    ensures
        out@ == match r.expr {
            Some(e) => "return "@ + expr_lua(e, depth as int),
            None => "return"@,
        },
{
    let mut out = String::new();
    match &r.expr {
        Some(e) => {
            out.append("return ");
            let t = gen_expr(e, depth);
            out.append(t.as_str());
        },
        None => out.append("return"),
    }
    out
}

/// A declaration without a value, initialized to `nil`.
pub fn gen_decl(x: &DeclCommand) -> (r: String)
    requires
        ident_ok(x.name),
    ensures
        r@ == "local "@ + ident_lua(x.name) + " = nil"@,
{
    let mut out = String::new();
    out.append("local ");
    let t = gen_ident(&x.name);
    out.append(t.as_str());
    out.append(" = nil");
    out
}

/// Legacy Vim script, trimmed and run through `vim.cmd`.
pub fn gen_shared(s: &SharedCommand) -> (r: String)
    ensures
        r@ == "vim.cmd [[ "@ + trim(s.contents@) + " ]]"@,
{
    let mut out = String::new();
    out.append("vim.cmd [[ ");
    let t = trim_str(s.contents.as_str());
    out.append(t.as_str());
    out.append(" ]]");
    out
}

/// A `try` block: its body, as is.
pub fn gen_try(t: &TryCommand, state: &mut State) -> (r: String)
    requires
        body_ok(t.body.commands@, old(state)@.command_depth, old(state)@.is_test),
    ensures
        r@ == body_text(t.body.commands@, old(state)@).0,
        final(state)@ == old(state)@.with_augroup(body_text(t.body.commands@, old(state)@).1),
    decreases t,
{
    gen_body(&t.body, state)
}

/// `break`.
pub fn gen_break(b: &BreakCommand) -> (r: String)
    ensures
        r@ == "break"@,
{
    let mut out = String::new();
    out.append("break");
    out
}

/// A variable declaration; a `bool` one converts its value to a boolean.
pub fn gen_var(v: &VarCommand, depth: i32) -> (r: String)
    requires
        ident_ok(v.name),
        expr_ok(v.expr),
    ensures
        r@ == var_lua(*v, depth as int),
{
    let mut out = String::new();
    out.append("local ");
    let name = gen_ident(&v.name);
    out.append(name.as_str());
    let e = gen_expr(&v.expr, depth);
    let is_bool = match &v.ty {
        Some(t) => match t.inner {
            InnerType::Bool => true,
            _ => false,
        },
        None => false,
    };
    if is_bool {
        out.append(" = NVIM9.convert.decl_bool(");
        out.append(e.as_str());
        out.append(")");
    } else {
        out.append(" = ");
        out.append(e.as_str());
    }
    out
}

/// An assignment; an indexed target is indexed one past, as Lua counts from 1.
pub fn gen_assign(a: &AssignStatement, depth: i32) -> (r: String)
    requires
        assign_left_ok(a.left),
        expr_ok(a.right),
    ensures
        r@ == assign_lua(*a, depth as int),
{
    let mut out = String::new();
    match &a.left {
        Expression::Index(x) => {
            let c = gen_expr(&x.container, depth);
            out.append(c.as_str());
            out.append("[");
            match &*x.index {
                IndexType::Item(item) => {
                    let t = gen_expr(item, depth);
                    out.append(t.as_str());
                },
                IndexType::Slice(_) => {
                    assert(false);
                },
            }
            out.append(" + 1]");
        },
        _ => {
            let t = gen_expr(&a.left, depth);
            out.append(t.as_str());
        },
    }
    out.append(" = ");
    let r = gen_expr(&a.right, depth);
    out.append(r.as_str());
    out
}

fn mutation_operator_str(m: MutationModifier) -> (r: &'static str)
    ensures
        r@ == operator_name(mutation_operator(m)),
{
    match m {
        MutationModifier::PlusEquals => "Plus",
        MutationModifier::MinusEquals => "Minus",
        MutationModifier::MulEquals => "Multiply",
        MutationModifier::DivEquals => "Divide",
        MutationModifier::PercentEquals => "Modulo",
        MutationModifier::StringConcatEquals => "StringConcat",
    }
}

/// A compound assignment `x op= y`, written as `x = x op y`.
pub fn gen_mutation(m: &MutationStatement, depth: i32) -> (r: String)
    requires
        expr_ok(m.left),
        expr_ok(m.right),
    ensures
        r@ == mutation_lua(*m, depth as int),
{
    let left = gen_expr(&m.left, depth);
    let right = gen_expr(&m.right, depth);
    let mut out = String::new();
    out.append(left.as_str());
    out.append(" = ");
    out.append("NVIM9.ops['");
    out.append(mutation_operator_str(m.modifier));
    out.append("'](");
    out.append(left.as_str());
    out.append(", ");
    out.append(right.as_str());
    out.append(")");
    out
}

/// A heredoc: a list of long-bracket strings, trimmed by the runtime when asked.
pub fn gen_heredoc(h: &Heredoc) -> (r: String)
    requires
        ident_ok(h.name),
    ensures
        r@ == heredoc_lua(*h),
{
    let mut inner = String::new();
    let mut k: usize = 0;
    while k < h.contents.len()
        invariant
            0 <= k <= h.contents.len(),
            inner@ == join(heredoc_lines(h.contents@.take(k as int)), ", "@),
        decreases h.contents.len() - k,
    {
        let mut piece = String::new();
        piece.append("[==[");
        piece.append(h.contents[k].as_str());
        piece.append("]==]");
        proof {
            lemma_heredoc_lines_len(h.contents@.take(k as int));
            assert(h.contents@.take(k + 1).drop_last() =~= h.contents@.take(k as int));
            lemma_join_push(heredoc_lines(h.contents@.take(k as int)), ", "@, piece@);
        }
        push_joined(&mut inner, ", ", piece.as_str(), k == 0);
        k += 1;
    }
    assert(h.contents@.take(h.contents@.len() as int) =~= h.contents@);
    let mut list = String::new();
    if h.trim {
        list.append("NVIM9.heredoc.trim(");
    }
    list.append("{ ");
    list.append(inner.as_str());
    list.append(" }");
    if h.trim {
        list.append(")");
    }
    let mut out = String::new();
    out.append("local ");
    let name = gen_ident(&h.name);
    out.append(name.as_str());
    out.append(" = ");
    out.append(list.as_str());
    out
}

proof fn lemma_heredoc_lines_len(ls: Seq<String>)
    ensures
        heredoc_lines(ls).len() == ls.len(),
    decreases ls.len(),
{
    if ls.len() > 0 {
        lemma_heredoc_lines_len(ls.drop_last());
    }
}

proof fn lemma_import_names_len(names: Seq<Identifier>, file: Seq<char>)
    ensures
        import_names(names, file).len() == names.len(),
    decreases names.len(),
{
    if names.len() > 0 {
        lemma_import_names_len(names.drop_last(), file);
    }
}

/// An import: of a whole file, bound to the file's stem, or of names from it.
pub fn gen_import(i: &ImportCommand) -> (r: String)
    requires
        import_ok(*i),
    ensures
        r@ == import_lua(*i),
{
    let mut out = String::new();
    match i {
        ImportCommand::ImportImplicit { file, name: _, autoload } => {
            match file_stem(file.as_str()) {
                Some(stem) => {
                    out.append("local ");
                    out.append(stem.as_str());
                    out.append(" = NVIM9.import({ name = '");
                    out.append(file.as_str());
                    out.append("', autoload = ");
                    out.append(bool_to_str(*autoload));
                    out.append(" })");
                },
                None => {
                    assert(false);
                },
            }
        },
        ImportCommand::ImportUnpacked { names, file } => {
            let mut k: usize = 0;
            while k < names.len()
                invariant
                    0 <= k <= names.len(),
                    idents_ok(names@),
                    out@ == join(import_names(names@.take(k as int), file@), "\n"@),
                decreases names.len() - k,
            {
                let n = gen_ident(&names[k]);
                let mut piece = String::new();
                piece.append("local ");
                piece.append(n.as_str());
                piece.append(" = NVIM9.import({ name = '");
                piece.append(file.as_str());
                piece.append("' })['");
                piece.append(n.as_str());
                piece.append("']");
                proof {
                    lemma_import_names_len(names@.take(k as int), file@);
                    assert(names@.take(k + 1).drop_last() =~= names@.take(k as int));
                    lemma_join_push(import_names(names@.take(k as int), file@), "\n"@, piece@);
                }
                push_joined(&mut out, "\n", piece.as_str(), k == 0);
                k += 1;
            }
            assert(names@.take(names@.len() as int) =~= names@);
        },
    }
    out
}

} // verus!
