//! Deciding whether the generator can translate a program.
//!
//! The generator stops on a few constructs (an unpacked identifier, a scope
//! other than `g:` and `v:`, a slice outside an index, ...). These checks
//! decide exactly the conditions that the generating functions require.
use vstd::prelude::*;
use crate::ast::{
    AutocmdBlock, Body, ElseIfCommand, ExCommand, Expression, Identifier, ImportCommand, IndexType,
    KeyValue, Param, Program, StatementCommand, VimScope, };
use crate::cmd::{assign_left_ok, body_ok, cmd_ok, elseifs_ok, file_stem, idents_ok};
use crate::expr::{
    bound_ok, expandable_kind_of, expr_ok, gen_ident, exprs_ok, ident_ok, key_values_ok,
    params_ok, };
use crate::text::has_prefix;
use crate::format::{generate, formatted_or_raw, stylua_format, INDENT_WIDTH, COLUMN_WIDTH};
use crate::program::{eval, eval_lua, program_ok};

verus! {

/// Whether the generator can translate an identifier.
pub fn ident_supported(i: &Identifier) -> (r: bool)
    ensures
        r == ident_ok(*i),
    decreases i,
{
    match i {
        Identifier::Raw(_) => true,
        Identifier::Scope(s) => {
            let scope_ok = match s.scope {
                VimScope::Global => true,
                VimScope::VimVar => true,
                _ => false,
            };
            scope_ok && ident_supported(&s.accessor)
        },
        Identifier::Unpacked(_) => false,
    }
}

fn bound_supported(b: &Option<Box<Expression>>) -> (r: bool)
    ensures
        r == bound_ok(*b),
    decreases b,
{
    match b {
        Some(e) => expr_supported(e),
        None => true,
    }
}

/// Whether the generator can translate an expression.
pub fn expr_supported(e: &Expression) -> (r: bool)
    ensures
        r == expr_ok(*e),
    decreases e,
{
    match e {
        Expression::Empty => true,
        Expression::Identifier(i) => ident_supported(i),
        Expression::Number(_) => true,
        Expression::String(_) => true,
        Expression::Boolean(_) => true,
        Expression::Grouped(g) => expr_supported(&g.expr),
        Expression::Prefix(p) => expr_supported(&p.right),
        Expression::Infix(x) => expr_supported(&x.left) && expr_supported(&x.right),
        Expression::Array(a) => {
            let mut i: usize = 0;
            while i < a.elements.len()
                invariant
                    0 <= i <= a.elements.len(),
                    *e == Expression::Array(*a),
                    exprs_ok(a.elements@.take(i as int)),
                decreases a.elements.len() - i,
            {
                proof {
                    assert(a.elements@.take(i + 1).drop_last() =~= a.elements@.take(i as int));
                    assert(decreases_to!(*e => (*e)->Array_0));
                    assert(decreases_to!(a.elements => a.elements@));
                }
                if !expr_supported(&a.elements[i]) {
                    proof {
                        if exprs_ok(a.elements@) {
                    lemma_exprs_ok_prefix(a.elements@, i as int + 1);
                }
                    }
                    return false;
                }
                i += 1;
            }
            assert(a.elements@.take(a.elements@.len() as int) =~= a.elements@);
            true
        },
        Expression::Dict(d) => {
            let mut i: usize = 0;
            while i < d.elements.len()
                invariant
                    0 <= i <= d.elements.len(),
                    *e == Expression::Dict(*d),
                    key_values_ok(d.elements@.take(i as int)),
                decreases d.elements.len() - i,
            {
                proof {
                    assert(d.elements@.take(i + 1).drop_last() =~= d.elements@.take(i as int));
                    assert(decreases_to!(*e => (*e)->Dict_0));
                    assert(decreases_to!(d.elements => d.elements@));
                    assert(decreases_to!(d.elements@[i as int] => d.elements@[i as int].value));
                }
                if !expr_supported(&d.elements[i].value) {
                    proof {
                        if key_values_ok(d.elements@) {
                    lemma_key_values_ok_prefix(d.elements@, i as int + 1);
                }
                    }
                    return false;
                }
                i += 1;
            }
            assert(d.elements@.take(d.elements@.len() as int) =~= d.elements@);
            true
        },
        Expression::VimOption(_) => true,
        Expression::Index(x) => {
            expr_supported(&x.container) && match &*x.index {
                IndexType::Item(item) => expr_supported(item),
                IndexType::Slice(sl) => bound_supported(&sl.start) && bound_supported(&sl.finish),
            }
        },
        Expression::Slice(_) => false,
        Expression::DictAccess(a) => expr_supported(&a.container),
        Expression::Register(_) => true,
        Expression::Lambda(l) => params_supported(&l.args.params) && expr_supported(&l.body),
        Expression::Expandable(x) => expandable_kind_of(x) != 0 || ident_supported(&x.ident),
        Expression::Ternary(t) => expr_supported(&t.cond) && expr_supported(&t.if_true)
            && expr_supported(&t.if_false),
    }
}

fn params_supported(ps: &Vec<Param>) -> (r: bool)
    ensures
        r == params_ok(ps@),
    decreases ps,
{
    let mut i: usize = 0;
    while i < ps.len()
        invariant
            0 <= i <= ps.len(),
            params_ok(ps@.take(i as int)),
        decreases ps.len() - i,
    {
        proof {
            assert(ps@.take(i + 1).drop_last() =~= ps@.take(i as int));
            assert(decreases_to!(ps => ps@));
            assert(decreases_to!(ps@[i as int] => ps@[i as int].default_val));
        }
        let p = &ps[i];
        let ok = ident_supported(&p.name) && match &p.default_val {
            Some(d) => {
                assert(decreases_to!(p.default_val => p.default_val->0));
                expr_supported(d)
            },
            None => true,
        };
        if !ok {
            proof {
                if params_ok(ps@) {
                    lemma_params_ok_prefix(ps@, i as int + 1);
                }
            }
            return false;
        }
        i += 1;
    }
    assert(ps@.take(ps@.len() as int) =~= ps@);
    true
}

proof fn lemma_exprs_ok_prefix(es: Seq<Expression>, n: int)
    requires
        0 <= n <= es.len(),
        exprs_ok(es),
    ensures
        exprs_ok(es.take(n)),
    decreases es.len(),
{
    if n < es.len() {
        assert(es.drop_last().take(n) =~= es.take(n));
        lemma_exprs_ok_prefix(es.drop_last(), n);
    } else {
        assert(es.take(n) =~= es);
    }
}

proof fn lemma_key_values_ok_prefix(kvs: Seq<KeyValue>, n: int)
    requires
        0 <= n <= kvs.len(),
        key_values_ok(kvs),
    ensures
        key_values_ok(kvs.take(n)),
    decreases kvs.len(),
{
    if n < kvs.len() {
        assert(kvs.drop_last().take(n) =~= kvs.take(n));
        lemma_key_values_ok_prefix(kvs.drop_last(), n);
    } else {
        assert(kvs.take(n) =~= kvs);
    }
}

proof fn lemma_params_ok_prefix(ps: Seq<Param>, n: int)
    requires
        0 <= n <= ps.len(),
        params_ok(ps),
    ensures
        params_ok(ps.take(n)),
    decreases ps.len(),
{
    if n < ps.len() {
        assert(ps.drop_last().take(n) =~= ps.take(n));
        lemma_params_ok_prefix(ps.drop_last(), n);
    } else {
        assert(ps.take(n) =~= ps);
    }
}

proof fn lemma_body_ok_prefix(cmds: Seq<ExCommand>, depth: int, is_test: bool, n: int)
    requires
        0 <= n <= cmds.len(),
        body_ok(cmds, depth, is_test),
    ensures
        body_ok(cmds.take(n), depth, is_test),
    decreases cmds.len(),
{
    if n < cmds.len() {
        assert(cmds.drop_last().take(n) =~= cmds.take(n));
        lemma_body_ok_prefix(cmds.drop_last(), depth, is_test, n);
    } else {
        assert(cmds.take(n) =~= cmds);
    }
}

proof fn lemma_elseifs_ok_prefix(es: Seq<ElseIfCommand>, depth: int, is_test: bool, n: int)
    requires
        0 <= n <= es.len(),
        elseifs_ok(es, depth, is_test),
    ensures
        elseifs_ok(es.take(n), depth, is_test),
    decreases es.len(),
{
    if n < es.len() {
        assert(es.drop_last().take(n) =~= es.take(n));
        lemma_elseifs_ok_prefix(es.drop_last(), depth, is_test, n);
    } else {
        assert(es.take(n) =~= es);
    }
}

/// Whether the generator can translate a body enclosed by `depth` user commands.
pub fn body_supported(b: &Body, depth: i32, is_test: bool) -> (r: bool)
    ensures
        r == body_ok(b.commands@, depth as int, is_test),
    decreases b,
{
    let mut i: usize = 0;
    while i < b.commands.len()
        invariant
            0 <= i <= b.commands.len(),
            body_ok(b.commands@.take(i as int), depth as int, is_test),
        decreases b.commands.len() - i,
    {
        proof {
            assert(b.commands@.take(i + 1).drop_last() =~= b.commands@.take(i as int));
            assert(decreases_to!(b => b.commands));
            assert(decreases_to!(b.commands => b.commands@));
        }
        if !cmd_supported(&b.commands[i], depth, is_test) {
            proof {
                if body_ok(b.commands@, depth as int, is_test) {
                    lemma_body_ok_prefix(b.commands@, depth as int, is_test, i as int + 1);
                }
            }
            return false;
        }
        i += 1;
    }
    assert(b.commands@.take(b.commands@.len() as int) =~= b.commands@);
    true
}

fn elseifs_supported(es: &Vec<ElseIfCommand>, depth: i32, is_test: bool) -> (r: bool)
    ensures
        r == elseifs_ok(es@, depth as int, is_test),
    decreases es,
{
    let mut i: usize = 0;
    while i < es.len()
        invariant
            0 <= i <= es.len(),
            elseifs_ok(es@.take(i as int), depth as int, is_test),
        decreases es.len() - i,
    {
        proof {
            assert(es@.take(i + 1).drop_last() =~= es@.take(i as int));
            assert(decreases_to!(es => es@));
            assert(decreases_to!(es@[i as int] => es@[i as int].body));
        }
        let e = &es[i];
        if !(expr_supported(&e.condition) && body_supported(&e.body, depth, is_test)) {
            proof {
                if elseifs_ok(es@, depth as int, is_test) {
                    lemma_elseifs_ok_prefix(es@, depth as int, is_test, i as int + 1);
                }
            }
            return false;
        }
        i += 1;
    }
    assert(es@.take(es@.len() as int) =~= es@);
    true
}

fn idents_supported(ids: &Vec<Identifier>) -> (r: bool)
    ensures
        r == idents_ok(ids@),
{
    let mut i: usize = 0;
    while i < ids.len()
        invariant
            0 <= i <= ids.len(),
            forall|k: int| 0 <= k < i ==> ident_ok(#[trigger] ids@[k]),
        decreases ids.len() - i,
    {
        if !ident_supported(&ids[i]) {
            return false;
        }
        i += 1;
    }
    true
}

/// Whether the generator can translate a command enclosed by `depth` user commands.
pub fn cmd_supported(c: &ExCommand, depth: i32, is_test: bool) -> (r: bool)
    ensures
        r == cmd_ok(*c, depth as int, is_test),
    decreases c,
{
    match c {
        ExCommand::Vim9Script(_) => true,
        ExCommand::Var(v) => ident_supported(&v.name) && expr_supported(&v.expr),
        ExCommand::Echo(e) => expr_supported(&e.expr),
        ExCommand::Statement(s) => match s {
            StatementCommand::Assign(a) => {
                let left_ok = match &a.left {
                    Expression::Index(x) => expr_supported(&x.container) && match &*x.index {
                        IndexType::Item(item) => expr_supported(item),
                        IndexType::Slice(_) => false,
                    },
                    _ => expr_supported(&a.left),
                };
                assert(left_ok == assign_left_ok(a.left));
                left_ok && expr_supported(&a.right)
            },
            StatementCommand::Mutate(m) => expr_supported(&m.left) && expr_supported(&m.right),
        },
        ExCommand::Return(r) => match &r.expr {
            Some(e) => expr_supported(e),
            None => true,
        },
        ExCommand::Def(d) => {
            if !ident_supported(&d.name) {
                false
            } else {
                let test_case = is_test && has_prefix(gen_ident(&d.name).as_str(), "Test");
                (test_case || params_supported(&d.args.params)) && body_supported(
                    &d.body,
                    depth,
                    is_test,
                )
            }
        },
        ExCommand::If(i) => expr_supported(&i.condition) && body_supported(&i.body, depth, is_test)
            && elseifs_supported(&i.elseifs, depth, is_test) && match &i.else_command {
            Some(e) => body_supported(&e.body, depth, is_test),
            None => true,
        },
        ExCommand::Augroup(g) => body_supported(&g.body, depth, is_test),
        ExCommand::Autocmd(a) => match &a.block {
            AutocmdBlock::Command(inner) => cmd_supported(inner, depth, is_test),
            AutocmdBlock::Block(b) => body_supported(b, depth, is_test),
        },
        ExCommand::Decl(x) => ident_supported(&x.name),
        ExCommand::Comment(_) => true,
        ExCommand::NoOp(_) => true,
        ExCommand::Heredoc(h) => ident_supported(&h.name),
        ExCommand::UserCommand(u) => depth < i32::MAX && cmd_supported(&u.command, depth + 1, is_test),
        ExCommand::Eval(e) => expr_supported(&e.expr),
        ExCommand::SharedCommand(_) => true,
        ExCommand::ExportCommand(x) => {
            let exportable = match &*x.command {
                ExCommand::Var(_) => true,
                ExCommand::Def(_) => true,
                _ => false,
            };
            cmd_supported(&x.command, depth, is_test) && exportable
        },
        ExCommand::ImportCommand(i) => match i {
            ImportCommand::ImportImplicit { file, name, autoload: _ } => {
                name.is_none() && file_stem(file.as_str()).is_some()
            },
            ImportCommand::ImportUnpacked { names, file: _ } => idents_supported(names),
        },
        ExCommand::Finish => true,
        ExCommand::For(f) => ident_supported(&f.for_identifier) && expr_supported(&f.for_expr)
            && body_supported(&f.body, depth, is_test),
        ExCommand::Try(t) => body_supported(&t.body, depth, is_test),
        ExCommand::While(w) => expr_supported(&w.condition) && body_supported(&w.body, depth, is_test),
        ExCommand::Break(_) => true,
        ExCommand::Skip => false,
        ExCommand::EndOfFile => false,
    }
}

/// Whether the generator can translate every command of a program.
pub fn program_supported(p: &Program, is_test: bool) -> (r: bool)
    ensures
        r == program_ok(*p, is_test),
{
    let mut i: usize = 0;
    while i < p.commands.len()
        invariant
            0 <= i <= p.commands.len(),
            body_ok(p.commands@.take(i as int), 0, is_test),
        decreases p.commands.len() - i,
    {
        proof {
            assert(p.commands@.take(i + 1).drop_last() =~= p.commands@.take(i as int));
        }
        if !cmd_supported(&p.commands[i], 0, is_test) {
            proof {
                if body_ok(p.commands@, 0, is_test) {
                    lemma_body_ok_prefix(p.commands@, 0, is_test, i as int + 1);
                }
            }
            return false;
        }
        i += 1;
    }
    assert(p.commands@.take(p.commands@.len() as int) =~= p.commands@);
    true
}

/// The Lua module of a program, or `None` where the generator cannot
/// translate it.
pub fn try_eval(program: Program, is_test: bool) -> (r: Option<String>)
    ensures
        r is None <==> !program_ok(program, is_test),
        r matches Some(s) ==> s@ == eval_lua(program, is_test),
{
    if program_supported(&program, is_test) {
        Some(eval(program, is_test))
    } else {
        None
    }
}

/// The formatted Lua module of a program, or `None` where the generator
/// cannot translate it.
pub fn try_generate(program: Program, is_test: bool) -> (r: Option<String>)
    ensures
        r is None <==> !program_ok(program, is_test),
        r matches Some(s) ==> s@ == formatted_or_raw(
            eval_lua(program, is_test),
            stylua_format(eval_lua(program, is_test), INDENT_WIDTH as nat, COLUMN_WIDTH as nat),
        ),
{
    if program_supported(&program, is_test) {
        Some(generate(program, is_test))
    } else {
        None
    }
}

} // verus!
