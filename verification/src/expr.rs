//! Lua text of vim9script expressions.
//!
//! An expression's text depends on the generator's state only through the
//! nesting depth of user commands, which names the argument that `<q-args>`
//! and its kin read; it is passed here as `depth`.
use vstd::prelude::*;
use crate::ast::{
    ArrayLiteral, DictAccess, DictLiteral, Expandable, Expression, GroupedExpression, Identifier,
    IndexExpression, IndexType, InfixExpression, KeyValue, Lambda, Literal, Operator, Param,
    PrefixExpression, RawIdentifier, Register, ScopedIdentifier, Signature, Ternary, VimBoolean,
    VimKey, VimNumber, VimOption, VimScope, VimString,
};
use crate::text::{
    bool_text, bool_to_str, debug_quoted, debug_string, escape_backslashes, escape_backslashes_str,
    int_text, int_to_string, join, lemma_join_push, push_joined, same_text,
};

verus! {

/// The Lua table that holds variables of a supported scope.
pub open spec fn scope_prefix(s: VimScope) -> Seq<char> {
    match s {
        VimScope::Global => "vim.g"@,
        VimScope::VimVar => "vim.v"@,
        _ => Seq::empty(),
    }
}

/// The scopes the generator translates; the others stop it.
pub open spec fn scope_supported(s: VimScope) -> bool {
    s is Global || s is VimVar
}

/// Whether the generator can translate `i`.
pub open spec fn ident_ok(i: Identifier) -> bool
    decreases i,
{
    match i {
        Identifier::Raw(_) => true,
        Identifier::Scope(s) => scope_supported(s.scope) && ident_ok(*s.accessor),
        Identifier::Unpacked(_) => false,
    }
}

/// The Lua text of an identifier: a raw name as it is, a scoped one as an
/// index into its scope's table.
pub open spec fn ident_lua(i: Identifier) -> Seq<char>
    decreases i,
{
    match i {
        Identifier::Raw(r) => r.name@,
        Identifier::Scope(s) => scope_prefix(s.scope) + "['"@ + ident_lua(*s.accessor) + "']"@,
        Identifier::Unpacked(_) => Seq::empty(),
    }
}

/// The name of an operator, as its `Debug` rendering writes it.
pub open spec fn operator_name(op: Operator) -> Seq<char> {
    match op {
        Operator::Plus => "Plus"@,
        Operator::Minus => "Minus"@,
        Operator::Multiply => "Multiply"@,
        Operator::Divide => "Divide"@,
        Operator::Modulo => "Modulo"@,
        Operator::StringConcat => "StringConcat"@,
        Operator::And => "And"@,
        Operator::Or => "Or"@,
        Operator::EqualTo => "EqualTo"@,
        Operator::LessThan => "LessThan"@,
        Operator::GreaterThan => "GreaterThan"@,
        Operator::LessThanOrEqual => "LessThanOrEqual"@,
        Operator::GreaterThanOrEqual => "GreaterThanOrEqual"@,
        Operator::Bang => "Bang"@,
        Operator::Named(n) => n@,
    }
}

/// The name of the Lua parameter through which a user command at nesting
/// depth `depth` receives its arguments.
pub open spec fn user_command_arg(depth: int) -> Seq<char> {
    "__vim9_arg_"@ + int_text(depth)
}

/// The text of a single-quoted or double-quoted Vim string.
pub open spec fn string_lua(s: VimString) -> Seq<char> {
    match s {
        VimString::SingleQuote(t) => "'"@ + escape_backslashes(t@) + "'"@,
        VimString::DoubleQuote(t) => "\""@ + t@ + "\""@,
    }
}

/// Whether the generator can translate `e`: every identifier in it is
/// supported, and a slice stands only inside an index.
pub open spec fn expr_ok(e: Expression) -> bool
    decreases e,
{
    match e {
        Expression::Empty => true,
        Expression::Identifier(i) => ident_ok(i),
        Expression::Number(_) => true,
        Expression::String(_) => true,
        Expression::Boolean(_) => true,
        Expression::Grouped(g) => expr_ok(*g.expr),
        Expression::Prefix(p) => expr_ok(*p.right),
        Expression::Infix(x) => expr_ok(*x.left) && expr_ok(*x.right),
        Expression::Array(a) => exprs_ok(a.elements@),
        Expression::Dict(d) => key_values_ok(d.elements@),
        Expression::VimOption(_) => true,
        Expression::Index(x) => expr_ok(*x.container) && match *x.index {
            IndexType::Item(item) => expr_ok(item),
            IndexType::Slice(sl) => bound_ok(sl.start) && bound_ok(sl.finish),
        },
        Expression::Slice(_) => false,
        Expression::DictAccess(a) => expr_ok(*a.container),
        Expression::Register(_) => true,
        Expression::Lambda(l) => params_ok(l.args.params@) && expr_ok(*l.body),
        Expression::Expandable(x) => expandable_kind(x) != 0 || ident_ok(x.ident),
        Expression::Ternary(t) => expr_ok(*t.cond) && expr_ok(*t.if_true) && expr_ok(*t.if_false),
    }
}

pub open spec fn exprs_ok(es: Seq<Expression>) -> bool
    decreases es,
{
    if es.len() == 0 {
        true
    } else {
        exprs_ok(es.drop_last()) && expr_ok(es.last())
    }
}

pub open spec fn key_values_ok(kvs: Seq<KeyValue>) -> bool
    decreases kvs,
{
    if kvs.len() == 0 {
        true
    } else {
        key_values_ok(kvs.drop_last()) && expr_ok(kvs.last().value)
    }
}

pub open spec fn bound_ok(b: Option<Box<Expression>>) -> bool
    decreases b,
{
    match b {
        Some(e) => expr_ok(*e),
        None => true,
    }
}

pub open spec fn params_ok(ps: Seq<Param>) -> bool
    decreases ps,
{
    if ps.len() == 0 {
        true
    } else {
        params_ok(ps.drop_last()) && ident_ok(ps.last().name) && match ps.last().default_val {
            Some(d) => expr_ok(d),
            None => true,
        }
    }
}

/// Which of the user-command expansions an expandable names:
/// 1 for `q-args`, 2 for `q-mods`, 3 for `q-bang`, 0 for any other.
pub open spec fn expandable_kind(x: Expandable) -> int {
    match x.ident {
        Identifier::Raw(r) => if r.name@ == "q-args"@ {
            1
        } else if r.name@ == "q-mods"@ {
            2
        } else if r.name@ == "q-bang"@ {
            3
        } else {
            0
        },
        _ => 0,
    }
}

/// The Lua text of an expression.
pub open spec fn expr_lua(e: Expression, depth: int) -> Seq<char>
    decreases e,
{
    match e {
        Expression::Empty => Seq::empty(),
        Expression::Identifier(i) => ident_lua(i),
        Expression::Number(n) => n.value@,
        Expression::String(s) => string_lua(s),
        Expression::Boolean(b) => bool_text(b.value),
        Expression::Grouped(g) => "("@ + expr_lua(*g.expr, depth) + ")"@,
        Expression::Prefix(p) => "NVIM9.prefix['"@ + operator_name(p.operator) + "']("@ + expr_lua(
            *p.right,
            depth,
        ) + ")"@,
        Expression::Infix(x) => "NVIM9.ops['"@ + operator_name(x.operator) + "']("@ + expr_lua(
            *x.left,
            depth,
        ) + ", "@ + expr_lua(*x.right, depth) + ")"@,
        Expression::Array(a) => "{ "@ + join(exprs_lua(a.elements@, depth), ", "@) + " }"@,
        Expression::Dict(d) => "{ "@ + join(key_values_lua(d.elements@, depth), ", "@) + " }"@,
        Expression::VimOption(o) => "vim.o['"@ + o.option.text@ + "']"@,
        Expression::Index(x) => match *x.index {
            IndexType::Item(item) => "NVIM9.index("@ + expr_lua(*x.container, depth) + ", "@
                + expr_lua(item, depth) + ")"@,
            IndexType::Slice(sl) => "NVIM9.slice("@ + expr_lua(*x.container, depth) + ", "@
                + bound_lua(sl.start, depth) + ", "@ + bound_lua(sl.finish, depth) + ")"@,
        },
        Expression::Slice(_) => Seq::empty(),
        Expression::DictAccess(a) => expr_lua(*a.container, depth) + "['"@ + a.index.text@
            + "']"@,
        Expression::Register(r) => "vim.fn.getreg("@ + debug_quoted(r.register@) + ")"@,
        Expression::Lambda(l) => "(function("@ + join(param_names(l.args.params@), ", "@)
            + ")\n                "@ + join(param_defaults(l.args.params@, depth), "\n"@)
            + "\n                "@ + expr_lua(*l.body, depth) + "\n                end)"@,
        Expression::Expandable(x) => {
            let k = expandable_kind(x);
            if k == 1 {
                user_command_arg(depth) + ".args"@
            } else if k == 2 {
                user_command_arg(depth) + ".mods"@
            } else if k == 3 {
                "("@ + user_command_arg(depth) + ".bang and '!' or '')"@
            } else {
                "vim.fn.expand('<"@ + ident_lua(x.ident) + ">')"@
            }
        },
        Expression::Ternary(t) => "NVIM9.ternary("@ + expr_lua(*t.cond, depth)
            + ", function() return "@ + expr_lua(*t.if_true, depth)
            + " end, function() return "@ + expr_lua(*t.if_false, depth) + " end)"@,
    }
}

/// The texts of a list of expressions, in order.
pub open spec fn exprs_lua(es: Seq<Expression>, depth: int) -> Seq<Seq<char>>
    decreases es,
{
    if es.len() == 0 {
        Seq::empty()
    } else {
        exprs_lua(es.drop_last(), depth).push(expr_lua(es.last(), depth))
    }
}

/// The `key = value` texts of a dictionary's entries, in order.
pub open spec fn key_values_lua(kvs: Seq<KeyValue>, depth: int) -> Seq<Seq<char>>
    decreases kvs,
{
    if kvs.len() == 0 {
        Seq::empty()
    } else {
        let kv = kvs.last();
        let key = match kv.key {
            VimKey::Literal(l) => l.text@,
        };
        key_values_lua(kvs.drop_last(), depth).push(key + " = "@ + expr_lua(kv.value, depth))
    }
}

/// A slice bound, `nil` where it is missing.
pub open spec fn bound_lua(b: Option<Box<Expression>>, depth: int) -> Seq<char>
    decreases b,
{
    match b {
        Some(e) => expr_lua(*e, depth),
        None => "nil"@,
    }
}

/// The parameter names of a signature.
pub open spec fn param_names(ps: Seq<Param>) -> Seq<Seq<char>>
    decreases ps.len(),
{
    if ps.len() == 0 {
        Seq::empty()
    } else {
        param_names(ps.drop_last()).push(ident_lua(ps.last().name))
    }
}

/// One statement per parameter with a default value, which puts the
/// default in place of a missing argument.
pub open spec fn param_defaults(ps: Seq<Param>, depth: int) -> Seq<Seq<char>>
    decreases ps,
{
    if ps.len() == 0 {
        Seq::empty()
    } else {
        let p = ps.last();
        let rest = param_defaults(ps.drop_last(), depth);
        match p.default_val {
            Some(d) => {
                let name = ident_lua(p.name);
                rest.push(
                    name + " = vim.F.if_nil("@ + name + ", "@ + expr_lua(d, depth) + ", "@ + name
                        + ")"@,
                )
            },
            None => rest,
        }
    }
}

fn scope_prefix_str(s: VimScope) -> (r: &'static str)
    requires
        scope_supported(s),
    ensures
        r@ == scope_prefix(s),
{
    match s {
        VimScope::Global => "vim.g",
        _ => "vim.v",
    }
}

/// The Lua text of an identifier.
pub fn gen_ident(i: &Identifier) -> (r: String)
    requires
        ident_ok(*i),
    ensures
        r@ == ident_lua(*i),
    decreases i,
{
    match i {
        Identifier::Raw(raw) => gen_raw_ident(raw),
        Identifier::Scope(scoped) => gen_scoped_ident(scoped),
        Identifier::Unpacked(_) => {
            assert(false);
            String::new()
        },
    }
}

/// A plain name, as it is.
pub fn gen_raw_ident(raw: &RawIdentifier) -> (r: String)
    ensures
        r@ == raw.name@,
{
    raw.name.clone()
}

/// A scoped name, as an index into the table of its scope.
pub fn gen_scoped_ident(scoped: &ScopedIdentifier) -> (r: String)
    requires
        ident_ok(Identifier::Scope(*scoped)),
    ensures
        r@ == ident_lua(Identifier::Scope(*scoped)),
    decreases scoped,
{
    let mut out = String::new();
    out.append(scope_prefix_str(scoped.scope));
    out.append("['");
    let inner = gen_ident(&scoped.accessor);
    out.append(inner.as_str());
    out.append("']");
    out
}

/// The name of an operator.
pub fn operator_str(op: &Operator) -> (r: &str)
    ensures
        r@ == operator_name(*op),
{
    match op {
        Operator::Plus => "Plus",
        Operator::Minus => "Minus",
        Operator::Multiply => "Multiply",
        Operator::Divide => "Divide",
        Operator::Modulo => "Modulo",
        Operator::StringConcat => "StringConcat",
        Operator::And => "And",
        Operator::Or => "Or",
        Operator::EqualTo => "EqualTo",
        Operator::LessThan => "LessThan",
        Operator::GreaterThan => "GreaterThan",
        Operator::LessThanOrEqual => "LessThanOrEqual",
        Operator::GreaterThanOrEqual => "GreaterThanOrEqual",
        Operator::Bang => "Bang",
        Operator::Named(n) => n.as_str(),
    }
}

/// The argument name of a user command at nesting depth `depth`.
pub fn make_user_command_arg(depth: i32) -> (r: String)
    ensures
        r@ == user_command_arg(depth as int),
{
    let mut out = String::new();
    out.append("__vim9_arg_");
    let n = int_to_string(depth);
    out.append(n.as_str());
    out
}

pub(crate) fn expandable_kind_of(x: &Expandable) -> (k: u8)
    ensures
        k as int == expandable_kind(*x),
{
    match &x.ident {
        Identifier::Raw(r) => {
            if same_text(r.name.as_str(), "q-args") {
                1
            } else if same_text(r.name.as_str(), "q-mods") {
                2
            } else if same_text(r.name.as_str(), "q-bang") {
                3
            } else {
                0
            }
        },
        _ => 0,
    }
}

/// The Lua text of a Vim string literal.
pub fn gen_string(s: &VimString) -> (r: String)
    ensures
        r@ == string_lua(*s),
{
    let mut out = String::new();
    match s {
        VimString::SingleQuote(t) => {
            out.append("'");
            let body = escape_backslashes_str(t.as_str());
            out.append(body.as_str());
            out.append("'");
        },
        VimString::DoubleQuote(t) => {
            out.append("\"");
            out.append(t.as_str());
            out.append("\"");
        },
    }
    out
}

/// The Lua text of an expression.
pub fn gen_expr(e: &Expression, depth: i32) -> (r: String)
    requires
        expr_ok(*e),
    ensures
        r@ == expr_lua(*e, depth as int),
    decreases e,
{
    match e {
        Expression::Empty => String::new(),
        Expression::Identifier(i) => gen_ident(i),
        Expression::Number(n) => gen_number(n),
        Expression::String(s) => gen_string(s),
        Expression::Boolean(b) => gen_boolean(b),
        Expression::Grouped(g) => gen_grouped(g, depth),
        Expression::Prefix(p) => gen_prefix(p, depth),
        Expression::Infix(x) => gen_infix(x, depth),
        Expression::Array(a) => gen_array(a, depth),
        Expression::Dict(d) => gen_dict(d, depth),
        Expression::VimOption(o) => gen_vim_option(o),
        Expression::Index(x) => gen_index(x, depth),
        Expression::Slice(_) => {
            assert(false);
            String::new()
        },
        Expression::DictAccess(a) => gen_dict_access(a, depth),
        Expression::Register(r) => gen_register(r),
        Expression::Lambda(l) => gen_lambda(l, depth),
        Expression::Expandable(x) => gen_expandable(x, depth),
        Expression::Ternary(t) => gen_ternary(t, depth),
    }
}

/// A number, as written in the source.
pub fn gen_number(n: &VimNumber) -> (r: String)
    ensures
        r@ == n.value@,
{
    n.value.clone()
}

/// `true` or `false`.
pub fn gen_boolean(b: &VimBoolean) -> (r: String)
    ensures
        r@ == bool_text(b.value),
{
    let mut out = String::new();
    out.append(bool_to_str(b.value));
    out
}

/// A token's text.
pub fn gen_literal(l: &Literal) -> (r: String)
    ensures
        r@ == l.text@,
{
    l.text.clone()
}

/// A dictionary key's text.
pub fn gen_key(k: &VimKey) -> (r: String)
    ensures
        r@ == match *k {
            VimKey::Literal(l) => l.text@,
        },
{
    match k {
        VimKey::Literal(l) => gen_literal(l),
    }
}

/// A parenthesized expression.
pub fn gen_grouped(g: &GroupedExpression, depth: i32) -> (r: String)
    requires
        expr_ok(Expression::Grouped(*g)),
    ensures
        r@ == expr_lua(Expression::Grouped(*g), depth as int),
    decreases g,
{
    let mut out = String::new();
    out.append("(");
    let t = gen_expr(&g.expr, depth);
    out.append(t.as_str());
    out.append(")");
    out
}

/// A prefix operator, applied through the runtime's table of prefix operators.
pub fn gen_prefix(p: &PrefixExpression, depth: i32) -> (r: String)
    requires
        expr_ok(Expression::Prefix(*p)),
    ensures
        r@ == expr_lua(Expression::Prefix(*p), depth as int),
    decreases p,
{
    let mut out = String::new();
    out.append("NVIM9.prefix['");
    out.append(operator_str(&p.operator));
    out.append("'](");
    let t = gen_expr(&p.right, depth);
    out.append(t.as_str());
    out.append(")");
    out
}

/// A binary operator, applied through the runtime's table of operators.
pub fn gen_infix(x: &InfixExpression, depth: i32) -> (r: String)
    requires
        expr_ok(Expression::Infix(*x)),
    ensures
        r@ == expr_lua(Expression::Infix(*x), depth as int),
    decreases x,
{
    let mut out = String::new();
    out.append("NVIM9.ops['");
    out.append(operator_str(&x.operator));
    out.append("'](");
    let l = gen_expr(&x.left, depth);
    out.append(l.as_str());
    out.append(", ");
    let r = gen_expr(&x.right, depth);
    out.append(r.as_str());
    out.append(")");
    out
}

/// A list literal, as a Lua table.
pub fn gen_array(a: &ArrayLiteral, depth: i32) -> (r: String)
    requires
        expr_ok(Expression::Array(*a)),
    ensures
        r@ == expr_lua(Expression::Array(*a), depth as int),
    decreases a,
{
    let mut out = String::new();
    out.append("{ ");
    let mut i: usize = 0;
    while i < a.elements.len()
        invariant
            0 <= i <= a.elements.len(),
            exprs_ok(a.elements@),
            out@ == "{ "@ + join(exprs_lua(a.elements@.take(i as int), depth as int), ", "@),
        decreases a.elements.len() - i,
    {
        proof {
            lemma_exprs_ok_index(a.elements@, i as int);
            lemma_exprs_lua_len(a.elements@.take(i as int), depth as int);
            assert(a.elements@.take(i + 1).drop_last() =~= a.elements@.take(i as int));
            lemma_join_push(
                exprs_lua(a.elements@.take(i as int), depth as int),
                ", "@,
                expr_lua(a.elements@[i as int], depth as int),
            );
            assert(decreases_to!(a => a.elements));
            assert(decreases_to!(a.elements => a.elements@));
        }
        let t = gen_expr(&a.elements[i], depth);
        push_joined(&mut out, ", ", t.as_str(), i == 0);
        i += 1;
    }
    assert(a.elements@.take(a.elements@.len() as int) =~= a.elements@);
    out.append(" }");
    out
}

/// A dictionary literal, as a Lua table with `key = value` entries.
pub fn gen_dict(d: &DictLiteral, depth: i32) -> (r: String)
    requires
        expr_ok(Expression::Dict(*d)),
    ensures
        r@ == expr_lua(Expression::Dict(*d), depth as int),
    decreases d,
{
    let mut out = String::new();
    out.append("{ ");
    let mut i: usize = 0;
    while i < d.elements.len()
        invariant
            0 <= i <= d.elements.len(),
            key_values_ok(d.elements@),
            out@ == "{ "@ + join(key_values_lua(d.elements@.take(i as int), depth as int), ", "@),
        decreases d.elements.len() - i,
    {
        let kv = &d.elements[i];
        proof {
            lemma_key_values_ok_index(d.elements@, i as int);
            lemma_key_values_lua_len(d.elements@.take(i as int), depth as int);
            assert(d.elements@.take(i + 1).drop_last() =~= d.elements@.take(i as int));
            assert(decreases_to!(d => d.elements));
            assert(decreases_to!(d.elements => d.elements@));
            assert(decreases_to!(d.elements@[i as int] => d.elements@[i as int].value));
        }
        let mut piece = gen_key(&kv.key);
        piece.append(" = ");
        let v = gen_expr(&kv.value, depth);
        piece.append(v.as_str());
        proof {
            lemma_join_push(
                key_values_lua(d.elements@.take(i as int), depth as int),
                ", "@,
                piece@,
            );
        }
        push_joined(&mut out, ", ", piece.as_str(), i == 0);
        i += 1;
    }
    assert(d.elements@.take(d.elements@.len() as int) =~= d.elements@);
    out.append(" }");
    out
}

/// An option read (`&name`), through `vim.o`.
pub fn gen_vim_option(o: &VimOption) -> (r: String)
    ensures
        r@ == "vim.o['"@ + o.option.text@ + "']"@,
{
    let mut out = String::new();
    out.append("vim.o['");
    let t = gen_literal(&o.option);
    out.append(t.as_str());
    out.append("']");
    out
}

/// An index or a slice, through the runtime's `index` and `slice`.
pub fn gen_index(x: &IndexExpression, depth: i32) -> (r: String)
    requires
        expr_ok(Expression::Index(*x)),
    ensures
        r@ == expr_lua(Expression::Index(*x), depth as int),
    decreases x,
{
    let mut out = String::new();
    match &*x.index {
        IndexType::Item(item) => {
            out.append("NVIM9.index(");
            let c = gen_expr(&x.container, depth);
            out.append(c.as_str());
            out.append(", ");
            let t = gen_expr(item, depth);
            out.append(t.as_str());
            out.append(")");
        },
        IndexType::Slice(sl) => {
            out.append("NVIM9.slice(");
            let c = gen_expr(&x.container, depth);
            out.append(c.as_str());
            out.append(", ");
            let s1 = gen_bound(&sl.start, depth);
            out.append(s1.as_str());
            out.append(", ");
            let s2 = gen_bound(&sl.finish, depth);
            out.append(s2.as_str());
            out.append(")");
        },
    }
    out
}

/// A dictionary entry read with a dot (`d.key`).
pub fn gen_dict_access(a: &DictAccess, depth: i32) -> (r: String)
    requires
        expr_ok(Expression::DictAccess(*a)),
    ensures
        r@ == expr_lua(Expression::DictAccess(*a), depth as int),
    decreases a,
{
    let mut out = gen_expr(&a.container, depth);
    out.append("['");
    let t = gen_literal(&a.index);
    out.append(t.as_str());
    out.append("']");
    out
}

/// A register read, through `vim.fn.getreg`.
pub fn gen_register(r: &Register) -> (out: String)
    ensures
        out@ == "vim.fn.getreg("@ + debug_quoted(r.register@) + ")"@,
{
    let mut out = String::new();
    out.append("vim.fn.getreg(");
    let t = debug_string(&r.register);
    out.append(t.as_str());
    out.append(")");
    out
}

/// A lambda, as an anonymous Lua function.
pub fn gen_lambda(l: &Lambda, depth: i32) -> (r: String)
    requires
        expr_ok(Expression::Lambda(*l)),
    ensures
        r@ == expr_lua(Expression::Lambda(*l), depth as int),
    decreases l,
{
    let (signature, defaults) = gen_signature(&l.args, depth);
    let mut out = String::new();
    out.append("(function(");
    out.append(signature.as_str());
    out.append(")\n                ");
    out.append(defaults.as_str());
    out.append("\n                ");
    let b = gen_expr(&l.body, depth);
    out.append(b.as_str());
    out.append("\n                end)");
    out
}

/// `<q-args>`, `<q-mods>` and `<q-bang>` read the enclosing user command's
/// argument; any other expandable goes through `vim.fn.expand`.
pub fn gen_expandable(x: &Expandable, depth: i32) -> (r: String)
    requires
        expr_ok(Expression::Expandable(*x)),
    ensures
        r@ == expr_lua(Expression::Expandable(*x), depth as int),
{
    let mut out = String::new();
    let k = expandable_kind_of(x);
    if k == 1 {
        let a = make_user_command_arg(depth);
        out.append(a.as_str());
        out.append(".args");
    } else if k == 2 {
        let a = make_user_command_arg(depth);
        out.append(a.as_str());
        out.append(".mods");
    } else if k == 3 {
        out.append("(");
        let a = make_user_command_arg(depth);
        out.append(a.as_str());
        out.append(".bang and '!' or '')");
    } else {
        out.append("vim.fn.expand('<");
        let t = gen_ident(&x.ident);
        out.append(t.as_str());
        out.append(">')");
    }
    out
}

/// `c ? a : b`, through the runtime's `ternary`, which evaluates only the
/// branch that the condition picks.
pub fn gen_ternary(t: &Ternary, depth: i32) -> (r: String)
    requires
        expr_ok(Expression::Ternary(*t)),
    ensures
        r@ == expr_lua(Expression::Ternary(*t), depth as int),
    decreases t,
{
    let mut out = String::new();
    out.append("NVIM9.ternary(");
    let c = gen_expr(&t.cond, depth);
    out.append(c.as_str());
    out.append(", function() return ");
    let a = gen_expr(&t.if_true, depth);
    out.append(a.as_str());
    out.append(" end, function() return ");
    let b = gen_expr(&t.if_false, depth);
    out.append(b.as_str());
    out.append(" end)");
    out
}

/// The text of a slice bound.
fn gen_bound(b: &Option<Box<Expression>>, depth: i32) -> (r: String)
    requires
        bound_ok(*b),
    ensures
        r@ == bound_lua(*b, depth as int),
    decreases b,
{
    match b {
        Some(e) => gen_expr(e, depth),
        None => {
            let mut out = String::new();
            out.append("nil");
            out
        },
    }
}

/// The parameter list of a signature, and the statements that fill in
/// missing arguments with their default values.
pub fn gen_signature(args: &Signature, depth: i32) -> (r: (String, String))
    requires
        params_ok(args.params@),
    ensures
        r.0@ == join(param_names(args.params@), ", "@),
        r.1@ == join(param_defaults(args.params@, depth as int), "\n"@),
    decreases args,
{
    let mut names = String::new();
    let mut defaults = String::new();
    let mut any_default = false;
    let mut i: usize = 0;
    while i < args.params.len()
        invariant
            0 <= i <= args.params.len(),
            params_ok(args.params@),
            names@ == join(param_names(args.params@.take(i as int)), ", "@),
            defaults@ == join(param_defaults(args.params@.take(i as int), depth as int), "\n"@),
            any_default == (param_defaults(args.params@.take(i as int), depth as int).len() > 0),
        decreases args.params.len() - i,
    {
        let p = &args.params[i];
        proof {
            lemma_params_ok_index(args.params@, i as int);
            lemma_param_names_len(args.params@.take(i as int));
            assert(args.params@.take(i + 1).drop_last() =~= args.params@.take(i as int));
            lemma_join_push(param_names(args.params@.take(i as int)), ", "@, ident_lua(p.name));
            assert(decreases_to!(args => args.params));
            assert(decreases_to!(args.params => args.params@));
            assert(decreases_to!(args.params@[i as int] => args.params@[i as int].default_val));
        }
        let name = gen_ident(&p.name);
        push_joined(&mut names, ", ", name.as_str(), i == 0);
        match &p.default_val {
            Some(d) => {
                assert(decreases_to!(p.default_val => p.default_val->0));
                let v = gen_expr(d, depth);
                let mut stmt = String::new();
                stmt.append(name.as_str());
                stmt.append(" = vim.F.if_nil(");
                stmt.append(name.as_str());
                stmt.append(", ");
                stmt.append(v.as_str());
                stmt.append(", ");
                stmt.append(name.as_str());
                stmt.append(")");
                proof {
                    let prev = param_defaults(args.params@.take(i as int), depth as int);
                    lemma_join_push(prev, "\n"@, stmt@);
                }
                push_joined(
                    &mut defaults,
                    "\n",
                    stmt.as_str(),
                    !any_default,
                );
                any_default = true;
            },
            None => {},
        }
        i += 1;
    }
    assert(args.params@.take(args.params@.len() as int) =~= args.params@);
    (names, defaults)
}

proof fn lemma_exprs_ok_index(es: Seq<Expression>, i: int)
    requires
        exprs_ok(es),
        0 <= i < es.len(),
    ensures
        expr_ok(es[i]),
    decreases es.len(),
{
    if i < es.len() - 1 {
        lemma_exprs_ok_index(es.drop_last(), i);
    }
}

proof fn lemma_key_values_ok_index(kvs: Seq<KeyValue>, i: int)
    requires
        key_values_ok(kvs),
        0 <= i < kvs.len(),
    ensures
        expr_ok(kvs[i].value),
    decreases kvs.len(),
{
    if i < kvs.len() - 1 {
        lemma_key_values_ok_index(kvs.drop_last(), i);
    }
}

proof fn lemma_params_ok_index(ps: Seq<Param>, i: int)
    requires
        params_ok(ps),
        0 <= i < ps.len(),
    ensures
        ident_ok(ps[i].name),
        ps[i].default_val matches Some(d) ==> expr_ok(d),
    decreases ps.len(),
{
    if i < ps.len() - 1 {
        lemma_params_ok_index(ps.drop_last(), i);
    }
}

proof fn lemma_exprs_lua_len(es: Seq<Expression>, depth: int)
    ensures
        exprs_lua(es, depth).len() == es.len(),
    decreases es.len(),
{
    if es.len() > 0 {
        lemma_exprs_lua_len(es.drop_last(), depth);
    }
}

proof fn lemma_key_values_lua_len(kvs: Seq<KeyValue>, depth: int)
    ensures
        key_values_lua(kvs, depth).len() == kvs.len(),
    decreases kvs.len(),
{
    if kvs.len() > 0 {
        lemma_key_values_lua_len(kvs.drop_last(), depth);
    }
}

proof fn lemma_param_names_len(ps: Seq<Param>)
    ensures
        param_names(ps).len() == ps.len(),
    decreases ps.len(),
{
    if ps.len() > 0 {
        lemma_param_names_len(ps.drop_last());
    }
}

} // verus!
