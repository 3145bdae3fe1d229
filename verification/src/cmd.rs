//! Lua text of vim9script commands.
//!
//! Generating a command may change one part of the state: the current
//! autocommand group, which an `augroup` block sets and then clears. Each
//! spec function below gives the text and the group that is current after it.
use vstd::prelude::*;
use crate::ast::{
    AssignStatement, AugroupCommand, AutocmdBlock, AutocmdCommand, DefCommand, ElseCommand,
    ElseIfCommand, ExCommand, ExportCommand, Expression, ForCommand, Heredoc, Identifier,
    IfCommand, ImportCommand, IndexType, InfixExpression, Literal, MutationModifier,
    MutationStatement, Operator, StatementCommand, UserCommand, VarCommand, WhileCommand,
};
use crate::expr::{
    expr_lua, expr_ok, ident_lua, ident_ok, param_defaults, param_names, params_ok,
    user_command_arg,
};
use crate::state::StateView;
use crate::text::{bool_text, join, trim};

verus! {

/// The name of what `Path::file_stem` gives for a path, when it gives one.
/// It is left unstated because it follows the path rules of the target the
/// crate is built for: which characters separate components (`/` on Unix,
/// also `\` on Windows), and how prefixes such as drive letters are read.
/// Within one build the stem depends on the path text alone.
pub uninterp spec fn path_file_stem(path: Seq<char>) -> Option<Seq<char>>;

/// Calls `std::path::Path::file_stem` on `path`; the contract claims only
/// that the result is what `path_file_stem` names for that path. The stem
/// of a path given as UTF-8 text is UTF-8 text too, so the conversion back
/// to a `String` loses nothing.
#[verifier::external_body]
pub(crate) fn file_stem(path: &str) -> (r: Option<String>)
    ensures
        match r {
            Some(s) => path_file_stem(path@) == Some(s@),
            None => path_file_stem(path@) is None,
        },
{
    match std::path::Path::new(path).file_stem() {
        Some(stem) => Some(stem.to_string_lossy().into_owned()),
        None => None,
    }
}

/// Whether a list of identifiers can all be translated.
pub open spec fn idents_ok(ids: Seq<Identifier>) -> bool {
    forall|k: int| 0 <= k < ids.len() ==> ident_ok(#[trigger] ids[k])
}

/// The left side of an assignment: an index is assigned one past it,
/// since Lua lists start at 1; a slice cannot be assigned.
pub open spec fn assign_left_ok(left: Expression) -> bool {
    match left {
        Expression::Index(x) => expr_ok(*x.container) && match *x.index {
            IndexType::Item(item) => expr_ok(item),
            IndexType::Slice(_) => false,
        },
        _ => expr_ok(left),
    }
}

/// Whether an import can be translated: an implicit import names a file
/// with a stem and has no alias.
pub open spec fn import_ok(i: ImportCommand) -> bool {
    match i {
        ImportCommand::ImportImplicit { file, name, autoload: _ } => name is None && path_file_stem(
            file@,
        ) is Some,
        ImportCommand::ImportUnpacked { names, file: _ } => idents_ok(names@),
    }
}

/// Whether a function definition becomes a test case: in test mode, a
/// function whose name starts with `Test`.
pub open spec fn is_test_case(d: DefCommand, is_test: bool) -> bool {
    is_test && "Test"@.is_prefix_of(ident_lua(d.name))
}

/// Whether the generator can translate `c` when `depth` user commands
/// enclose it, in test mode or not: every identifier and expression that it
/// generates is supported (a test case's parameters are not generated), an
/// export exports a variable or a function, an implicit import names a
/// file with a stem and no alias, and user commands do not nest deeper
/// than an `i32` counts.
pub open spec fn cmd_ok(c: ExCommand, depth: int, is_test: bool) -> bool
    decreases c,
{
    match c {
        ExCommand::Vim9Script(_) => true,
        ExCommand::Var(v) => ident_ok(v.name) && expr_ok(v.expr),
        ExCommand::Echo(e) => expr_ok(e.expr),
        ExCommand::Statement(s) => match s {
            StatementCommand::Assign(a) => assign_left_ok(a.left) && expr_ok(a.right),
            StatementCommand::Mutate(m) => expr_ok(m.left) && expr_ok(m.right),
        },
        ExCommand::Return(r) => match r.expr {
            Some(e) => expr_ok(e),
            None => true,
        },
        ExCommand::Def(d) => ident_ok(d.name) && (is_test_case(d, is_test) || params_ok(
            d.args.params@,
        )) && body_ok(d.body.commands@, depth, is_test),
        ExCommand::If(i) => expr_ok(i.condition) && body_ok(i.body.commands@, depth, is_test)
            && elseifs_ok(i.elseifs@, depth, is_test) && match i.else_command {
            Some(e) => body_ok(e.body.commands@, depth, is_test),
            None => true,
        },
        ExCommand::Augroup(g) => body_ok(g.body.commands@, depth, is_test),
        ExCommand::Autocmd(a) => match a.block {
            AutocmdBlock::Command(inner) => cmd_ok(*inner, depth, is_test),
            AutocmdBlock::Block(b) => body_ok(b.commands@, depth, is_test),
        },
        ExCommand::Decl(x) => ident_ok(x.name),
        ExCommand::Comment(_) => true,
        ExCommand::NoOp(_) => true,
        ExCommand::Heredoc(h) => ident_ok(h.name),
        ExCommand::UserCommand(u) => depth < i32::MAX && cmd_ok(*u.command, depth + 1, is_test),
        ExCommand::Eval(e) => expr_ok(e.expr),
        ExCommand::SharedCommand(_) => true,
        ExCommand::ExportCommand(x) => cmd_ok(*x.command, depth, is_test) && ((*x.command) is Var
            || (*x.command) is Def),
        ExCommand::ImportCommand(i) => import_ok(i),
        ExCommand::Finish => true,
        ExCommand::For(f) => ident_ok(f.for_identifier) && expr_ok(f.for_expr) && body_ok(
            f.body.commands@,
            depth,
            is_test,
        ),
        ExCommand::Try(t) => body_ok(t.body.commands@, depth, is_test),
        ExCommand::While(w) => expr_ok(w.condition) && body_ok(w.body.commands@, depth, is_test),
        ExCommand::Break(_) => true,
        ExCommand::Skip => false,
        ExCommand::EndOfFile => false,
    }
}

pub open spec fn body_ok(cmds: Seq<ExCommand>, depth: int, is_test: bool) -> bool
    decreases cmds,
{
    if cmds.len() == 0 {
        true
    } else {
        body_ok(cmds.drop_last(), depth, is_test) && cmd_ok(cmds.last(), depth, is_test)
    }
}

pub open spec fn elseifs_ok(es: Seq<ElseIfCommand>, depth: int, is_test: bool) -> bool
    decreases es,
{
    if es.len() == 0 {
        true
    } else {
        elseifs_ok(es.drop_last(), depth, is_test) && expr_ok(es.last().condition) && body_ok(
            es.last().body.commands@,
            depth,
            is_test,
        )
    }
}

/// The operator that a compound assignment applies.
pub open spec fn mutation_operator(m: MutationModifier) -> Operator {
    match m {
        MutationModifier::PlusEquals => Operator::Plus,
        MutationModifier::MinusEquals => Operator::Minus,
        MutationModifier::MulEquals => Operator::Multiply,
        MutationModifier::DivEquals => Operator::Divide,
        MutationModifier::PercentEquals => Operator::Modulo,
        MutationModifier::StringConcatEquals => Operator::StringConcat,
    }
}

/// `x op= y` is written as `x = x op y`.
pub open spec fn mutation_lua(m: MutationStatement, depth: int) -> Seq<char> {
    expr_lua(m.left, depth) + " = "@ + expr_lua(
        Expression::Infix(
            InfixExpression {
                operator: mutation_operator(m.modifier),
                left: Box::new(m.left),
                right: Box::new(m.right),
            },
        ),
        depth,
    )
}

pub open spec fn assign_lua(a: AssignStatement, depth: int) -> Seq<char> {
    let left = match a.left {
        Expression::Index(x) => match *x.index {
            IndexType::Item(item) => expr_lua(*x.container, depth) + "["@ + expr_lua(item, depth)
                + " + 1]"@,
            IndexType::Slice(_) => Seq::empty(),
        },
        _ => expr_lua(a.left, depth),
    };
    left + " = "@ + expr_lua(a.right, depth)
}

pub open spec fn var_lua(v: VarCommand, depth: int) -> Seq<char> {
    match v.ty {
        Some(t) if t.inner is Bool => "local "@ + ident_lua(v.name) + " = NVIM9.convert.decl_bool("@
            + expr_lua(v.expr, depth) + ")"@,
        _ => "local "@ + ident_lua(v.name) + " = "@ + expr_lua(v.expr, depth),
    }
}

/// The `[==[line]==]` long-bracket strings of a heredoc's lines.
pub open spec fn heredoc_lines(ls: Seq<String>) -> Seq<Seq<char>>
    decreases ls.len(),
{
    if ls.len() == 0 {
        Seq::empty()
    } else {
        heredoc_lines(ls.drop_last()).push("[==["@ + ls.last()@ + "]==]"@)
    }
}

pub open spec fn heredoc_lua(h: Heredoc) -> Seq<char> {
    let list = "{ "@ + join(heredoc_lines(h.contents@), ", "@) + " }"@;
    let list = if h.trim {
        "NVIM9.heredoc.trim("@ + list + ")"@
    } else {
        list
    };
    "local "@ + ident_lua(h.name) + " = "@ + list
}

/// One `local name = ...` line per name of an unpacked import.
pub open spec fn import_names(names: Seq<Identifier>, file: Seq<char>) -> Seq<Seq<char>>
    decreases names.len(),
{
    if names.len() == 0 {
        Seq::empty()
    } else {
        let n = ident_lua(names.last());
        import_names(names.drop_last(), file).push(
            "local "@ + n + " = NVIM9.import({ name = '"@ + file + "' })['"@ + n + "']"@,
        )
    }
}

pub open spec fn import_lua(i: ImportCommand) -> Seq<char> {
    match i {
        ImportCommand::ImportImplicit { file, name: _, autoload } => "local "@ + path_file_stem(
            file@,
        ).unwrap() + " = NVIM9.import({ name = '"@ + file@ + "', autoload = "@ + bool_text(
            autoload,
        ) + " })"@,
        ImportCommand::ImportUnpacked { names, file } => join(
            import_names(names@, file@),
            "\n"@,
        ),
    }
}

/// The quoted event names of an autocommand.
pub open spec fn event_list(events: Seq<Literal>) -> Seq<Seq<char>>
    decreases events.len(),
{
    if events.len() == 0 {
        Seq::empty()
    } else {
        event_list(events.drop_last()).push("'"@ + events.last().text@ + "'"@)
    }
}

/// The line that puts an autocommand into the current group, if there is one.
pub open spec fn group_line(augroup: Option<Seq<char>>) -> Seq<char> {
    match augroup {
        Some(g) => "group = '"@ + g + "',"@,
        None => Seq::empty(),
    }
}

/// The lines of a body, joined by newlines, and the group current after it.
pub open spec fn body_text(cmds: Seq<ExCommand>, st: StateView) -> (Seq<char>, Option<Seq<char>>) {
    let (outs, aug) = body_lua(cmds, st);
    (join(outs, "\n"@), aug)
}

/// The texts of a body's commands in order, each generated in the state
/// that the commands before it left.
pub open spec fn body_lua(cmds: Seq<ExCommand>, st: StateView) -> (
    Seq<Seq<char>>,
    Option<Seq<char>>,
)
    decreases cmds,
{
    if cmds.len() == 0 {
        (Seq::empty(), st.augroup)
    } else {
        let (outs, aug) = body_lua(cmds.drop_last(), st);
        let (out, aug2) = cmd_lua(cmds.last(), st.with_augroup(aug));
        (outs.push(out), aug2)
    }
}

pub open spec fn elseifs_lua(es: Seq<ElseIfCommand>, st: StateView) -> (
    Seq<Seq<char>>,
    Option<Seq<char>>,
)
    decreases es,
{
    if es.len() == 0 {
        (Seq::empty(), st.augroup)
    } else {
        let (outs, aug) = elseifs_lua(es.drop_last(), st);
        let (out, aug2) = elseif_lua(es.last(), st.with_augroup(aug));
        (outs.push(out), aug2)
    }
}

pub open spec fn elseif_lua(e: ElseIfCommand, st: StateView) -> (Seq<char>, Option<Seq<char>>)
    decreases e,
{
    let (parts, aug) = body_lua(e.body.commands@, st);
    let b = join(parts, "\n"@);
    (
        "\n        elseif "@ + expr_lua(e.condition, st.command_depth) + " then\n            "@ + b
            + "\n        "@,
        aug,
    )
}

pub open spec fn else_lua(e: ElseCommand, st: StateView) -> (Seq<char>, Option<Seq<char>>)
    decreases e,
{
    let (parts, aug) = body_lua(e.body.commands@, st);
    ("else\n"@ + join(parts, "\n"@) + "\n"@, aug)
}

/// The `else` part first, then the condition, the body and the `elseif`s:
/// the order in which they are generated.
pub open spec fn if_lua(i: IfCommand, st: StateView) -> (Seq<char>, Option<Seq<char>>)
    decreases i,
{
    let (else_text, aug1) = match i.else_command {
        Some(e) => else_lua(e, st),
        None => (Seq::empty(), st.augroup),
    };
    let (parts, aug2) = body_lua(i.body.commands@, st.with_augroup(aug1));
    let b = join(parts, "\n"@);
    let (eis, aug3) = elseifs_lua(i.elseifs@, st.with_augroup(aug2));
    (
        "if "@ + expr_lua(i.condition, st.command_depth) + " then\n  "@ + b + "\n"@ + join(
            eis,
            "\n"@,
        ) + "\n"@ + else_text + "\nend"@,
        aug3,
    )
}

/// A function definition: a test case where the state asks for tests and
/// the name starts with `Test`, else a Lua function, local unless at top level.
pub open spec fn def_lua(d: DefCommand, st: StateView) -> (Seq<char>, Option<Seq<char>>)
    decreases d,
{
    let name = ident_lua(d.name);
    if is_test_case(d, st.is_test) {
        let (parts, aug) = body_lua(d.body.commands@, st);
        let b = join(parts, "\n"@);
        (
            "\n                    it(\""@ + name
                + "\", function()\n                       -- Set errors to empty\n                       vim.v.errors = {}\n\n                       -- Actual test\n                       "@
                + b
                + "\n\n                       -- Assert that errors is still empty\n                       assert.are.same({}, vim.v.errors)\n                    end)\n                "@,
            aug,
        )
    } else {
        let signature = join(param_names(d.args.params@), ", "@);
        let defaults = join(param_defaults(d.args.params@, st.command_depth), "\n"@);
        let local = if st.scope_depth == 0 {
            Seq::empty()
        } else {
            "local"@
        };
        let (parts, aug) = body_lua(
            d.body.commands@,
            StateView { scope_depth: st.scope_depth + 1, ..st },
        );
        let b = join(parts, "\n"@);
        (
            "\n                "@ + local + " "@ + name + " = function("@ + signature
                + ")\n                    "@ + defaults + "\n                    "@ + b
                + "\n                end\n                "@,
            aug,
        )
    }
}

/// An augroup block: its body is generated with the group current, and
/// no group is current after it.
pub open spec fn augroup_lua(g: AugroupCommand, st: StateView) -> (Seq<char>, Option<Seq<char>>)
    decreases g,
{
    let name = g.augroup_name.text@;
    let (parts, _aug) = body_lua(g.body.commands@, st.with_augroup(Some(name)));
    let b = join(parts, "\n"@);
    (
        "\n    vim.api.nvim_create_augroup(\""@ + name + "\", { clear = false })\n\n    "@ + b
            + "\n"@,
        None,
    )
}

pub open spec fn autocmd_lua(a: AutocmdCommand, st: StateView) -> (Seq<char>, Option<Seq<char>>)
    decreases a,
{
    let (callback, aug) = match a.block {
        AutocmdBlock::Command(inner) => {
            let (t, aug) = cmd_lua(*inner, st);
            ("function()\n"@ + t + "\nend"@, aug)
        },
        AutocmdBlock::Block(b) => {
            let (parts, aug) = body_lua(b.commands@, st);
            let t = join(parts, "\n"@);
            ("function()\n"@ + t + "\nend"@, aug)
        },
    };
    (
        "\nvim.api.nvim_create_autocmd({ "@ + join(event_list(a.events@), ", "@) + " }, {\n    "@
            + group_line(st.augroup) + "\n    callback = "@ + callback + ",\n})\n"@,
        aug,
    )
}

/// A user command: its command is generated one user command deeper,
/// and reads its arguments from the parameter named after that depth.
pub open spec fn user_command_lua(u: UserCommand, st: StateView) -> (
    Seq<char>,
    Option<Seq<char>>,
)
    decreases u,
{
    let depth = st.command_depth + 1;
    let (t, aug) = cmd_lua(*u.command, StateView { command_depth: depth, ..st });
    let nargs = match u.command_nargs {
        Some(n) => n@,
        None => "0"@,
    };
    (
        "\n            vim.api.nvim_create_user_command(\n                \""@ + u.name@
            + "\",\n                function("@ + user_command_arg(depth) + ")\n                    "@
            + t + "\n                end,\n                {\n                     nargs = '"@
            + nargs + "',\n                     bang = "@ + bool_text(u.command_bang)
            + ",\n                }\n            )"@,
        aug,
    )
}

/// The name an exported command defines.
pub open spec fn exported_name(c: ExCommand) -> Seq<char> {
    match c {
        ExCommand::Var(v) => ident_lua(v.name),
        ExCommand::Def(d) => ident_lua(d.name),
        _ => Seq::empty(),
    }
}

/// An export: the command, then its name entered into the module table.
pub open spec fn export_lua(x: ExportCommand, st: StateView) -> (Seq<char>, Option<Seq<char>>)
    decreases x,
{
    let (t, aug) = cmd_lua(*x.command, st);
    let ident = exported_name(*x.command);
    (t + ";\n__VIM9_MODULE['"@ + ident + "'] = "@ + ident + ";"@, aug)
}

pub open spec fn for_lua(f: ForCommand, st: StateView) -> (Seq<char>, Option<Seq<char>>)
    decreases f,
{
    let (parts, aug) = body_lua(f.body.commands@, st);
    let b = join(parts, "\n"@);
    (
        "for _, "@ + ident_lua(f.for_identifier) + " in NVIM9.iter("@ + expr_lua(
            f.for_expr,
            st.command_depth,
        ) + ") do\n"@ + b + "\nend\n"@,
        aug,
    )
}

pub open spec fn while_lua(w: WhileCommand, st: StateView) -> (Seq<char>, Option<Seq<char>>)
    decreases w,
{
    let (parts, aug) = body_lua(w.body.commands@, st);
    let b = join(parts, "\n"@);
    ("while "@ + expr_lua(w.condition, st.command_depth) + "\ndo\n"@ + b + "\nend"@, aug)
}

/// The Lua text of a command, and the autocommand group current after it.
pub open spec fn cmd_lua(c: ExCommand, st: StateView) -> (Seq<char>, Option<Seq<char>>)
    decreases c,
{
    let depth = st.command_depth;
    match c {
        ExCommand::Vim9Script(_) => ("-- vim9script"@, st.augroup),
        ExCommand::Var(v) => (var_lua(v, depth), st.augroup),
        ExCommand::Echo(e) => ("print("@ + expr_lua(e.expr, depth) + ")"@, st.augroup),
        ExCommand::Statement(s) => (
            match s {
                StatementCommand::Assign(a) => assign_lua(a, depth),
                StatementCommand::Mutate(m) => mutation_lua(m, depth),
            },
            st.augroup,
        ),
        ExCommand::Return(r) => (
            match r.expr {
                Some(e) => "return "@ + expr_lua(e, depth),
                None => "return"@,
            },
            st.augroup,
        ),
        ExCommand::Def(d) => def_lua(d, st),
        ExCommand::If(i) => if_lua(i, st),
        ExCommand::Augroup(g) => augroup_lua(g, st),
        ExCommand::Autocmd(a) => autocmd_lua(a, st),
        ExCommand::Decl(x) => ("local "@ + ident_lua(x.name) + " = nil"@, st.augroup),
        ExCommand::Comment(l) => ("-- "@ + l.text@, st.augroup),
        ExCommand::NoOp(t) => (
            if t.is_whitespace {
                Seq::empty()
            } else {
                "\n-- "@ + t.debug_text@
            },
            st.augroup,
        ),
        ExCommand::Heredoc(h) => (heredoc_lua(h), st.augroup),
        ExCommand::UserCommand(u) => user_command_lua(u, st),
        ExCommand::Eval(e) => (expr_lua(e.expr, depth) + ";"@, st.augroup),
        ExCommand::SharedCommand(s) => ("vim.cmd [[ "@ + trim(s.contents@) + " ]]"@, st.augroup),
        ExCommand::ExportCommand(x) => export_lua(x, st),
        ExCommand::ImportCommand(i) => (import_lua(i), st.augroup),
        ExCommand::Finish => ("return __VIM9_MODULE"@, st.augroup),
        ExCommand::For(f) => for_lua(f, st),
        ExCommand::Try(t) => {
            let (bs, aug) = body_lua(t.body.commands@, st);
            (join(bs, "\n"@), aug)
        },
        ExCommand::While(w) => while_lua(w, st),
        ExCommand::Break(_) => ("break"@, st.augroup),
        ExCommand::Skip => (Seq::empty(), st.augroup),
        ExCommand::EndOfFile => (Seq::empty(), st.augroup),
    }
}

} // verus!
