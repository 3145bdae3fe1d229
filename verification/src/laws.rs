//! Properties of the generator that hold across all inputs.
use vstd::prelude::*;
use crate::ast::{
    AutocmdBlock, AutocmdCommand, DefCommand, ElseIfCommand, ExCommand, ExportCommand, Expression,
    IfCommand, InfixExpression, MutationStatement, Operator, Param,
    PrefixExpression,
};
use crate::cmd::{
    autocmd_lua, body_lua, cmd_lua, def_lua, else_lua, elseif_lua, elseifs_lua, export_lua,
    if_lua, is_test_case, mutation_lua,
};
use crate::expr::{expr_lua, ident_lua, operator_name, param_defaults, param_names};
use crate::program::{hoisted, toplevel_name};
use crate::state::StateView;
use crate::text::{
    join, digit_text, escape_backslashes, int_text, is_white_space, nat_text, trim, trim_end, trim_start,
};

verus! {

/// Generating a command either leaves the current autocommand group as it
/// was or clears it; it never makes another group current.
pub proof fn lemma_augroup_kept_or_cleared(c: ExCommand, st: StateView)
    ensures
        cmd_lua(c, st).1 == st.augroup || cmd_lua(c, st).1 is None,
    decreases c,
{
    match c {
        ExCommand::Def(d) => lemma_def_augroup(d, st),
        ExCommand::If(i) => lemma_if_augroup(i, st),
        ExCommand::Autocmd(a) => lemma_autocmd_augroup(a, st),
        ExCommand::UserCommand(u) => {
            lemma_augroup_kept_or_cleared(
                *u.command,
                StateView { command_depth: st.command_depth + 1, ..st },
            );
        },
        ExCommand::ExportCommand(x) => {
            lemma_augroup_kept_or_cleared(*x.command, st);
        },
        ExCommand::For(f) => {
            lemma_body_augroup(f.body.commands@, st);
        },
        ExCommand::Try(t) => {
            lemma_body_augroup(t.body.commands@, st);
        },
        ExCommand::While(w) => {
            lemma_body_augroup(w.body.commands@, st);
        },
        _ => {},
    }
}

proof fn lemma_def_augroup(d: DefCommand, st: StateView)
    ensures
        def_lua(d, st).1 == st.augroup || def_lua(d, st).1 is None,
    decreases d,
{
    lemma_body_augroup(d.body.commands@, st);
    lemma_body_augroup(d.body.commands@, StateView { scope_depth: st.scope_depth + 1, ..st });
}

proof fn lemma_if_augroup(i: IfCommand, st: StateView)
    ensures
        if_lua(i, st).1 == st.augroup || if_lua(i, st).1 is None,
    decreases i,
{
    let aug1 = match i.else_command {
        Some(e) => {
            lemma_body_augroup(e.body.commands@, st);
            else_lua(e, st).1
        },
        None => st.augroup,
    };
    lemma_body_augroup(i.body.commands@, st.with_augroup(aug1));
    let aug2 = body_lua(i.body.commands@, st.with_augroup(aug1)).1;
    lemma_elseifs_augroup(i.elseifs@, st.with_augroup(aug2));
}

proof fn lemma_autocmd_augroup(a: AutocmdCommand, st: StateView)
    ensures
        autocmd_lua(a, st).1 == st.augroup || autocmd_lua(a, st).1 is None,
    decreases a,
{
    match a.block {
        AutocmdBlock::Command(inner) => {
            lemma_augroup_kept_or_cleared(*inner, st);
        },
        AutocmdBlock::Block(b) => {
            lemma_body_augroup(b.commands@, st);
        },
    }
}

/// The same holds of a whole body: after it the group is the one before it, or none.
pub proof fn lemma_body_augroup(cmds: Seq<ExCommand>, st: StateView)
    ensures
        body_lua(cmds, st).1 == st.augroup || body_lua(cmds, st).1 is None,
    decreases cmds,
{
    if cmds.len() > 0 {
        lemma_body_augroup(cmds.drop_last(), st);
        let aug = body_lua(cmds.drop_last(), st).1;
        lemma_augroup_kept_or_cleared(cmds.last(), st.with_augroup(aug));
    }
}

proof fn lemma_elseifs_augroup(es: Seq<ElseIfCommand>, st: StateView)
    ensures
        elseifs_lua(es, st).1 == st.augroup || elseifs_lua(es, st).1 is None,
    decreases es,
{
    if es.len() > 0 {
        lemma_elseifs_augroup(es.drop_last(), st);
        let aug = elseifs_lua(es.drop_last(), st).1;
        let e = es.last();
        lemma_body_augroup(e.body.commands@, st.with_augroup(aug));
        assert(elseif_lua(e, st.with_augroup(aug)).1 == body_lua(
            e.body.commands@,
            st.with_augroup(aug),
        ).1);
    }
}

proof fn lemma_trim_start_shape(s: Seq<char>)
    ensures
        trim_start(s).len() == 0 || !is_white_space(trim_start(s)[0]),
        trim_start(s).is_suffix_of(s),
    decreases s.len(),
{
    if s.len() > 0 && is_white_space(s[0]) {
        lemma_trim_start_shape(s.drop_first());
        let t = trim_start(s.drop_first());
        assert(s.subrange(s.len() - t.len(), s.len() as int) =~= s.drop_first().subrange(
            s.drop_first().len() - t.len(),
            s.drop_first().len() as int,
        ));
    } else {
        assert(s.subrange(0, s.len() as int) =~= s);
    }
}

proof fn lemma_trim_end_keeps_start(s: Seq<char>)
    requires
        s.len() == 0 || !is_white_space(s[0]),
    ensures
        trim_end(s).len() == 0 || (!is_white_space(trim_end(s)[0]) && !is_white_space(
            trim_end(s).last(),
        )),
        trim_end(s).is_prefix_of(s),
    decreases s.len(),
{
    if s.len() > 0 && is_white_space(s.last()) {
        lemma_trim_end_keeps_start(s.drop_last());
    }
}

proof fn lemma_trim_start_of_clean(s: Seq<char>)
    requires
        s.len() == 0 || !is_white_space(s[0]),
    ensures
        trim_start(s) == s,
{
}

proof fn lemma_trim_end_of_clean(s: Seq<char>)
    requires
        s.len() == 0 || !is_white_space(s.last()),
    ensures
        trim_end(s) == s,
{
}

/// Trimming is idempotent: a trimmed text starts and ends with something
/// other than white space, so trimming it again changes nothing.
pub proof fn lemma_trim_idempotent(s: Seq<char>)
    ensures
        trim(trim(s)) == trim(s),
        trim(s).len() == 0 || (!is_white_space(trim(s)[0]) && !is_white_space(trim(s).last())),
{
    lemma_trim_start_shape(s);
    lemma_trim_end_keeps_start(trim_start(s));
    let t = trim(s);
    lemma_trim_start_of_clean(t);
    lemma_trim_end_of_clean(t);
}

/// A single-quoted string without backslashes is emitted unchanged.
pub proof fn lemma_escape_without_backslash(s: Seq<char>)
    requires
        !s.contains('\\'),
    ensures
        escape_backslashes(s) == s,
    decreases s.len(),
{
    if s.len() > 0 {
        assert(!s.drop_last().contains('\\')) by {
            if s.drop_last().contains('\\') {
                let k = choose|k: int| 0 <= k < s.drop_last().len() && s.drop_last()[k] == '\\';
                assert(s[k] == '\\');
            }
        }
        lemma_escape_without_backslash(s.drop_last());
        assert(s.last() != '\\') by {
            if s.last() == '\\' {
                assert(s[s.len() - 1] == '\\');
            }
        }
        assert(s.drop_last().push(s.last()) =~= s);
    }
}

/// Escaping a concatenation escapes each part.
pub proof fn lemma_escape_concat(s: Seq<char>, t: Seq<char>)
    ensures
        escape_backslashes(s + t) == escape_backslashes(s) + escape_backslashes(t),
    decreases t.len(),
{
    if t.len() == 0 {
        assert(s + t =~= s);
    } else {
        lemma_escape_concat(s, t.drop_last());
        assert((s + t).drop_last() =~= s + t.drop_last());
        assert((s + t).last() == t.last());
    }
}

proof fn lemma_digit_text(d: int)
    requires
        0 <= d < 10,
    ensures
        digit_text(d).len() == 1,
        digit_text(d)[0] as int == 48 + d,
{
    reveal_strlit("0");
    reveal_strlit("1");
    reveal_strlit("2");
    reveal_strlit("3");
    reveal_strlit("4");
    reveal_strlit("5");
    reveal_strlit("6");
    reveal_strlit("7");
    reveal_strlit("8");
    reveal_strlit("9");
}

proof fn lemma_nat_text_shape(n: nat)
    ensures
        nat_text(n).len() >= 1,
        n < 10 <==> nat_text(n).len() == 1,
        nat_text(n).last() as int == 48 + n % 10,
        forall|k: int| 0 <= k < nat_text(n).len() ==> 48 <= #[trigger] nat_text(n)[k] as int <= 57,
    decreases n,
{
    if n < 10 {
        lemma_digit_text(n as int);
    } else {
        lemma_nat_text_shape(n / 10);
        lemma_digit_text((n % 10) as int);
        let p = nat_text(n / 10);
        let d = digit_text((n % 10) as int);
        assert forall|k: int| 0 <= k < nat_text(n).len() implies 48 <= #[trigger] nat_text(
            n,
        )[k] as int <= 57 by {
            if k < p.len() {
                assert(nat_text(n)[k] == p[k]);
            } else {
                assert(nat_text(n)[k] == d[k - p.len()]);
            }
        }
    }
}

proof fn lemma_nat_text_injective(a: nat, b: nat)
    requires
        nat_text(a) == nat_text(b),
    ensures
        a == b,
    decreases a,
{
    lemma_nat_text_shape(a);
    lemma_nat_text_shape(b);
    if a >= 10 && b >= 10 {
        let x = nat_text(a);
        lemma_digit_text((a % 10) as int);
        lemma_digit_text((b % 10) as int);
        assert(nat_text(a / 10) =~= x.drop_last());
        assert(nat_text(b / 10) =~= x.drop_last());
        lemma_nat_text_injective(a / 10, b / 10);
    } else if a < 10 && b < 10 {
    } else {
        assert(false);
    }
}

/// Different integers have different decimal texts, so user commands at
/// different nesting depths bind their arguments to different names.
pub proof fn lemma_int_text_injective(a: int, b: int)
    requires
        int_text(a) == int_text(b),
    ensures
        a == b,
{
    reveal_strlit("-");
    if a < 0 && b < 0 {
        let x = int_text(a);
        assert(nat_text((-a) as nat) =~= x.drop_first());
        assert(nat_text((-b) as nat) =~= x.drop_first());
        lemma_nat_text_injective((-a) as nat, (-b) as nat);
    } else if a >= 0 && b >= 0 {
        lemma_nat_text_injective(a as nat, b as nat);
    } else if a < 0 {
        lemma_nat_text_shape(b as nat);
        assert(int_text(a)[0] == '-');
        assert(48 <= nat_text(b as nat)[0] as int);
    } else {
        lemma_nat_text_shape(a as nat);
        assert(int_text(b)[0] == '-');
        assert(48 <= nat_text(a as nat)[0] as int);
    }
}

/// Every name that a top-level command declares gets a `local name = nil`
/// line among the hoisted declarations, which precede all generated code.
pub proof fn lemma_hoisted_declares(cmds: Seq<ExCommand>, i: int)
    requires
        0 <= i < cmds.len(),
        toplevel_name(cmds[i]) is Some,
    ensures
        ({
            let line = "local "@ + toplevel_name(cmds[i]).unwrap() + " = nil\n"@;
            exists|k: int|
                0 <= k && k + line.len() <= hoisted(cmds).len() && #[trigger] hoisted(cmds).subrange(
                    k,
                    k + line.len(),
                ) == line
        }),
    decreases cmds.len(),
{
    let line = "local "@ + toplevel_name(cmds[i]).unwrap() + " = nil\n"@;
    let prev = hoisted(cmds.drop_last());
    if i == cmds.len() - 1 {
        let k = prev.len() as int;
        assert(hoisted(cmds).subrange(k, k + line.len()) =~= line);
    } else {
        assert(cmds.drop_last()[i] == cmds[i]);
        lemma_hoisted_declares(cmds.drop_last(), i);
        let k = choose|k: int|
            0 <= k && k + line.len() <= prev.len() && #[trigger] prev.subrange(k, k + line.len())
                == line;
        assert(hoisted(cmds).subrange(k, k + line.len()) =~= prev.subrange(k, k + line.len()));
    }
}


/// Text `s` ends `t`.
proof fn lemma_ends(a: Seq<char>, s: Seq<char>)
    ensures
        s.is_suffix_of(a + s),
{
    assert((a + s).subrange(a.len() as int, (a + s).len() as int) =~= s);
}

/// Text `p` begins `p + b`.
proof fn lemma_begins(p: Seq<char>, b: Seq<char>)
    ensures
        p.is_prefix_of(p + b),
{
    assert((p + b).subrange(0, p.len() as int) =~= p);
}

/// A compound assignment `x op= y` becomes `x = NVIM9.ops['<op>'](x, y)`,
/// where `<op>` is the operator the modifier stands for: `+=` Plus, `-=`
/// Minus, `*=` Multiply, `/=` Divide, `%=` Modulo, `..=` StringConcat. The
/// target comes first and the value second.
pub proof fn lemma_mutation_applies_its_operator(m: MutationStatement, depth: int)
    ensures
        m.modifier is PlusEquals ==> mutation_lua(m, depth) == expr_lua(m.left, depth)
            + " = NVIM9.ops['Plus']("@ + expr_lua(m.left, depth) + ", "@ + expr_lua(m.right, depth)
            + ")"@,
        m.modifier is MinusEquals ==> mutation_lua(m, depth) == expr_lua(m.left, depth)
            + " = NVIM9.ops['Minus']("@ + expr_lua(m.left, depth) + ", "@ + expr_lua(m.right, depth)
            + ")"@,
        m.modifier is MulEquals ==> mutation_lua(m, depth) == expr_lua(m.left, depth)
            + " = NVIM9.ops['Multiply']("@ + expr_lua(m.left, depth) + ", "@ + expr_lua(
            m.right,
            depth,
        ) + ")"@,
        m.modifier is DivEquals ==> mutation_lua(m, depth) == expr_lua(m.left, depth)
            + " = NVIM9.ops['Divide']("@ + expr_lua(m.left, depth) + ", "@ + expr_lua(
            m.right,
            depth,
        ) + ")"@,
        m.modifier is PercentEquals ==> mutation_lua(m, depth) == expr_lua(m.left, depth)
            + " = NVIM9.ops['Modulo']("@ + expr_lua(m.left, depth) + ", "@ + expr_lua(
            m.right,
            depth,
        ) + ")"@,
        m.modifier is StringConcatEquals ==> mutation_lua(m, depth) == expr_lua(m.left, depth)
            + " = NVIM9.ops['StringConcat']("@ + expr_lua(m.left, depth) + ", "@ + expr_lua(
            m.right,
            depth,
        ) + ")"@,
{
    let l = expr_lua(m.left, depth);
    let r = expr_lua(m.right, depth);
    reveal_strlit(" = ");
    reveal_strlit("NVIM9.ops['");
    reveal_strlit("'](");
    reveal_strlit(", ");
    reveal_strlit(")");
    reveal_strlit(" = NVIM9.ops['Plus'](");
    reveal_strlit(" = NVIM9.ops['Minus'](");
    reveal_strlit(" = NVIM9.ops['Multiply'](");
    reveal_strlit(" = NVIM9.ops['Divide'](");
    reveal_strlit(" = NVIM9.ops['Modulo'](");
    reveal_strlit(" = NVIM9.ops['StringConcat'](");
    reveal_strlit("Plus");
    reveal_strlit("Minus");
    reveal_strlit("Multiply");
    reveal_strlit("Divide");
    reveal_strlit("Modulo");
    reveal_strlit("StringConcat");
    let name = operator_name(crate::cmd::mutation_operator(m.modifier));
    assert(mutation_lua(m, depth) =~= l + " = "@ + "NVIM9.ops['"@ + name + "']("@ + l + ", "@ + r
        + ")"@);
    assert(mutation_lua(m, depth) =~= l + (" = "@ + "NVIM9.ops['"@ + name + "']("@) + l + ", "@ + r
        + ")"@);
}

/// A binary operation becomes a call of the operator's function with the
/// left operand first and the right operand second, in source order,
/// whatever the operator.
pub proof fn lemma_infix_operands_in_order(x: InfixExpression, depth: int)
    ensures
        expr_lua(Expression::Infix(x), depth) == "NVIM9.ops['"@ + operator_name(x.operator) + "']("@
            + expr_lua(*x.left, depth) + ", "@ + expr_lua(*x.right, depth) + ")"@,
        ("NVIM9.ops['"@ + operator_name(x.operator) + "']("@ + expr_lua(*x.left, depth)
            + ", "@).is_prefix_of(expr_lua(Expression::Infix(x), depth)),
        (expr_lua(*x.right, depth) + ")"@).is_suffix_of(expr_lua(Expression::Infix(x), depth)),
{
    let head = "NVIM9.ops['"@ + operator_name(x.operator) + "']("@ + expr_lua(*x.left, depth)
        + ", "@;
    let r = expr_lua(*x.right, depth);
    assert(expr_lua(Expression::Infix(x), depth) =~= head + (r + ")"@));
    lemma_begins(head, r + ")"@);
    lemma_ends(head, r + ")"@);
}

/// A prefix operation becomes a call of the operator's prefix function on
/// its operand.
pub proof fn lemma_prefix_applies_operator(p: PrefixExpression, depth: int)
    ensures
        expr_lua(Expression::Prefix(p), depth) == "NVIM9.prefix['"@ + operator_name(p.operator)
            + "']("@ + expr_lua(*p.right, depth) + ")"@,
{
}

/// An `if` command starts with its condition, and when it has an `else`
/// branch, whatever the number of `elseif` branches, it ends with `else`,
/// that branch's body and the closing `end`. The `else` body is generated in
/// the state the command starts in.
pub proof fn lemma_if_keeps_else(i: IfCommand, st: StateView)
    ensures
        ("if "@ + expr_lua(i.condition, st.command_depth) + " then\n  "@).is_prefix_of(
            if_lua(i, st).0,
        ),
        i.else_command matches Some(e) ==> ("else\n"@ + join(body_lua(e.body.commands@, st).0, "\n"@)
            + "\n\nend"@).is_suffix_of(if_lua(i, st).0),
        i.else_command is None ==> "\n\nend"@.is_suffix_of(if_lua(i, st).0),
{
    let head = "if "@ + expr_lua(i.condition, st.command_depth) + " then\n  "@;
    let (else_text, aug1) = match i.else_command {
        Some(e) => else_lua(e, st),
        None => (Seq::empty(), st.augroup),
    };
    let (parts, aug2) = body_lua(i.body.commands@, st.with_augroup(aug1));
    let (eis, aug3) = elseifs_lua(i.elseifs@, st.with_augroup(aug2));
    let mid = join(parts, "\n"@) + "\n"@ + join(eis, "\n"@) + "\n"@;
    assert(if_lua(i, st).0 == head + join(parts, "\n"@) + "\n"@ + join(eis, "\n"@) + "\n"@
        + else_text + "\nend"@);
    lemma_if_shape(head, join(parts, "\n"@), join(eis, "\n"@), else_text, if_lua(i, st).0);
    reveal_strlit("\nend");
    reveal_strlit("\n\nend");
    reveal_strlit("\n");
    match i.else_command {
        Some(e) => {
            let eb = join(body_lua(e.body.commands@, st).0, "\n"@);
            assert(else_text == "else\n"@ + eb + "\n"@);
            assert(else_text + "\nend"@ =~= "else\n"@ + eb + "\n\nend"@);
        },
        None => {
            assert("\n"@ + else_text + "\nend"@ =~= "\n\nend"@);
        },
    }
}

proof fn lemma_if_shape(head: Seq<char>, b: Seq<char>, eis: Seq<char>, e: Seq<char>, t: Seq<char>)
    requires
        t == head + b + "\n"@ + eis + "\n"@ + e + "\nend"@,
    ensures
        head.is_prefix_of(t),
        (e + "\nend"@).is_suffix_of(t),
        ("\n"@ + e + "\nend"@).is_suffix_of(t),
{
    let mid = b + "\n"@ + eis + "\n"@;
    assert(t =~= (head + b + "\n"@ + eis) + ("\n"@ + e + "\nend"@));
    lemma_ends(head + b + "\n"@ + eis, "\n"@ + e + "\nend"@);
    assert(t =~= head + (mid + (e + "\nend"@)));
    lemma_begins(head, mid + (e + "\nend"@));
    assert(t =~= (head + mid) + (e + "\nend"@));
    lemma_ends(head + mid, e + "\nend"@);
}

/// An export is the exported command's text followed by the entry of its
/// name into the module table, `;\n__VIM9_MODULE['<name>'] = <name>;`, for
/// a function as for a variable; it changes the current autocommand group
/// as the exported command does.
pub proof fn lemma_export_enters_module(x: ExportCommand, st: StateView)
    ensures
        cmd_lua(*x.command, st).0.is_prefix_of(export_lua(x, st).0),
        export_lua(x, st).1 == cmd_lua(*x.command, st).1,
        (*x.command) matches ExCommand::Var(v) ==> (";\n__VIM9_MODULE['"@ + ident_lua(v.name)
            + "'] = "@ + ident_lua(v.name) + ";"@).is_suffix_of(export_lua(x, st).0),
        (*x.command) matches ExCommand::Def(d) ==> (";\n__VIM9_MODULE['"@ + ident_lua(d.name)
            + "'] = "@ + ident_lua(d.name) + ";"@).is_suffix_of(export_lua(x, st).0),
{
    let t = cmd_lua(*x.command, st).0;
    let ident = crate::cmd::exported_name(*x.command);
    let tail = ";\n__VIM9_MODULE['"@ + ident + "'] = "@ + ident + ";"@;
    assert(export_lua(x, st).0 =~= t + tail);
    lemma_begins(t, tail);
    lemma_ends(t, tail);
}

/// The parameters of a signature that have a default value, in order.
pub open spec fn defaulted(ps: Seq<Param>) -> Seq<Param>
    decreases ps.len(),
{
    if ps.len() == 0 {
        Seq::empty()
    } else if ps.last().default_val is Some {
        defaulted(ps.drop_last()).push(ps.last())
    } else {
        defaulted(ps.drop_last())
    }
}

/// A function's default statements are one per parameter that has a
/// default value, and only those, in parameter order: each is
/// `name = vim.F.if_nil(name, <default>, name)`.
pub proof fn lemma_defaults_one_per_defaulted_param(ps: Seq<Param>, depth: int)
    ensures
        param_defaults(ps, depth).len() == defaulted(ps).len(),
        forall|k: int|
            0 <= k < defaulted(ps).len() ==> (#[trigger] defaulted(ps)[k]).default_val is Some,
        forall|k: int|
            0 <= k < defaulted(ps).len() ==> #[trigger] param_defaults(ps, depth)[k] == ident_lua(defaulted(ps)[k].name)
                + " = vim.F.if_nil("@ + ident_lua(defaulted(ps)[k].name) + ", "@ + expr_lua(
                defaulted(ps)[k].default_val->0,
                depth,
            ) + ", "@ + ident_lua(defaulted(ps)[k].name) + ")"@,
    decreases ps.len(),
{
    if ps.len() > 0 {
        let init = ps.drop_last();
        lemma_defaults_one_per_defaulted_param(init, depth);
        let rest = param_defaults(init, depth);
        let dr = defaulted(init);
        assert forall|k: int| 0 <= k < defaulted(ps).len() implies (#[trigger] defaulted(ps)[k]).default_val is Some by {
            if k < dr.len() {
                assert(defaulted(ps)[k] == dr[k]);
            }
        }
        assert forall|k: int| 0 <= k < defaulted(ps).len() implies #[trigger] param_defaults(ps, depth)[k] == ident_lua(defaulted(ps)[k].name)
            + " = vim.F.if_nil("@ + ident_lua(defaulted(ps)[k].name) + ", "@ + expr_lua(
            defaulted(ps)[k].default_val->0,
            depth,
        ) + ", "@ + ident_lua(defaulted(ps)[k].name) + ")"@ by {
            if k < dr.len() {
                assert(defaulted(ps)[k] == dr[k]);
                assert(param_defaults(ps, depth)[k] == rest[k]);
            }
        }
    } else {
        assert(defaulted(ps).len() == 0);
    }
}

/// A function's parameter list names each parameter, in order.
pub proof fn lemma_param_names_in_order(ps: Seq<Param>)
    ensures
        param_names(ps).len() == ps.len(),
        forall|k: int| 0 <= k < ps.len() ==> #[trigger] param_names(ps)[k] == ident_lua(ps[k].name),
    decreases ps.len(),
{
    if ps.len() > 0 {
        lemma_param_names_in_order(ps.drop_last());
        assert forall|k: int| 0 <= k < ps.len() - 1 implies ps.drop_last()[k] == ps[k] by {}
    }
}

/// A function that is not a test case opens with its name, its parameter
/// list, and then its default statements, before its body.
pub proof fn lemma_def_applies_defaults(d: DefCommand, st: StateView)
    ensures
        !is_test_case(d, st.is_test) ==> ("\n                "@ + (if st.scope_depth == 0 {
            Seq::empty()
        } else {
            "local"@
        }) + " "@ + ident_lua(d.name) + " = function("@ + join(param_names(d.args.params@), ", "@)
            + ")\n                    "@ + join(
            param_defaults(d.args.params@, st.command_depth),
            "\n"@,
        ) + "\n                    "@).is_prefix_of(def_lua(d, st).0),
{
    if !is_test_case(d, st.is_test) {
        let local = if st.scope_depth == 0 {
            Seq::<char>::empty()
        } else {
            "local"@
        };
        let head = "\n                "@ + local + " "@ + ident_lua(d.name) + " = function("@ + join(
            param_names(d.args.params@),
            ", "@,
        ) + ")\n                    "@ + join(param_defaults(d.args.params@, st.command_depth), "\n"@)
            + "\n                    "@;
        let (parts, aug) = body_lua(
            d.body.commands@,
            StateView { scope_depth: st.scope_depth + 1, ..st },
        );
        let rest = join(parts, "\n"@) + "\n                end\n                "@;
        assert(def_lua(d, st).0 =~= head + rest);
        lemma_begins(head, rest);
    }
}

/// Every operator is generated under its own name: the name of its
/// variant, or the name a `Named` operator holds.
pub proof fn lemma_operator_names(op: Operator)
    ensures
        op is Plus ==> operator_name(op) == "Plus"@,
        op is Minus ==> operator_name(op) == "Minus"@,
        op is Multiply ==> operator_name(op) == "Multiply"@,
        op is Divide ==> operator_name(op) == "Divide"@,
        op is Modulo ==> operator_name(op) == "Modulo"@,
        op is StringConcat ==> operator_name(op) == "StringConcat"@,
        op is And ==> operator_name(op) == "And"@,
        op is Or ==> operator_name(op) == "Or"@,
        op is EqualTo ==> operator_name(op) == "EqualTo"@,
        op is LessThan ==> operator_name(op) == "LessThan"@,
        op is GreaterThan ==> operator_name(op) == "GreaterThan"@,
        op is LessThanOrEqual ==> operator_name(op) == "LessThanOrEqual"@,
        op is GreaterThanOrEqual ==> operator_name(op) == "GreaterThanOrEqual"@,
        op is Bang ==> operator_name(op) == "Bang"@,
        op matches Operator::Named(n) ==> operator_name(op) == n@,
{
}

/// The `elseif` branches give one text each, in order, each opening with
/// `elseif`, its condition and `then`.
pub proof fn lemma_elseifs_in_order(es: Seq<ElseIfCommand>, st: StateView)
    ensures
        elseifs_lua(es, st).0.len() == es.len(),
        forall|k: int|
            0 <= k < es.len() ==> ("\n        elseif "@ + expr_lua(es[k].condition, st.command_depth)
                + " then\n            "@).is_prefix_of(#[trigger] elseifs_lua(es, st).0[k]),
    decreases es.len(),
{
    if es.len() > 0 {
        let init = es.drop_last();
        lemma_elseifs_in_order(init, st);
        let (outs, aug) = elseifs_lua(init, st);
        let e = es.last();
        let (parts, aug2) = body_lua(e.body.commands@, st.with_augroup(aug));
        let head = "\n        elseif "@ + expr_lua(e.condition, st.command_depth)
            + " then\n            "@;
        let rest = join(parts, "\n"@) + "\n        "@;
        assert(elseif_lua(e, st.with_augroup(aug)).0 =~= head + rest);
        lemma_begins(head, rest);
        assert forall|k: int| 0 <= k < es.len() implies ("\n        elseif "@ + expr_lua(
            es[k].condition,
            st.command_depth,
        ) + " then\n            "@).is_prefix_of(#[trigger] elseifs_lua(es, st).0[k]) by {
            if k < init.len() {
                assert(es[k] == init[k]);
                assert(elseifs_lua(es, st).0[k] == outs[k]);
            }
        }
    }
}

/// An `if` with neither `elseif` nor `else` branches is its condition and
/// body between `if ... then` and `end`.
pub proof fn lemma_plain_if(i: IfCommand, st: StateView)
    requires
        i.elseifs@.len() == 0,
        i.else_command is None,
    ensures
        if_lua(i, st).0 == "if "@ + expr_lua(i.condition, st.command_depth) + " then\n  "@ + join(
            body_lua(i.body.commands@, st).0,
            "\n"@,
        ) + "\n\n\nend"@,
{
    reveal_strlit("\n");
    reveal_strlit("\nend");
    reveal_strlit("\n\n\nend");
    assert(st.with_augroup(st.augroup) == st);
    let b = join(body_lua(i.body.commands@, st).0, "\n"@);
    let eis = elseifs_lua(i.elseifs@, st.with_augroup(body_lua(i.body.commands@, st).1)).0;
    assert(eis.len() == 0);
    assert(join(eis, "\n"@) == Seq::<char>::empty());
    assert(if_lua(i, st).0 =~= "if "@ + expr_lua(i.condition, st.command_depth) + " then\n  "@ + b
        + "\n\n\nend"@);
}

} // verus!
