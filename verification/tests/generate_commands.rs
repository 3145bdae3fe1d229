use vim9_gen::ast::{
    AugroupCommand, AutocmdBlock, AutocmdCommand, Body, DefCommand, EchoCommand, ElseCommand,
    ElseIfCommand, ExCommand, ExportCommand, Expression, Heredoc, Identifier, IfCommand,
    ImportCommand, InfixExpression, Literal, Operator, Param, Program, RawIdentifier,
    ReturnCommand, SharedCommand, Signature, UserCommand, VarCommand, Vim9ScriptCommand,
    VimNumber, VimString, Expandable, DeclCommand, NoOpToken, StatementCommand,
    MutationStatement, MutationModifier, AssignStatement, IndexExpression, IndexType, ForCommand,
    WhileCommand, TryCommand, BreakCommand, EvalCommand, VimBoolean, Type, InnerType,
};
use vim9_gen::generator::Generate;
use vim9_gen::program::{eval, toplevel_id};
use vim9_gen::state::State;
use vim9_gen::supported::{try_eval, program_supported};

fn raw(name: &str) -> Identifier {
    Identifier::Raw(RawIdentifier { name: name.to_string() })
}

fn num(v: &str) -> Expression {
    Expression::Number(VimNumber { value: v.to_string() })
}

fn lit(t: &str) -> Literal {
    Literal { text: t.to_string() }
}

fn echo(e: Expression) -> ExCommand {
    ExCommand::Echo(EchoCommand { expr: e })
}

fn dstr(s: &str) -> Expression {
    Expression::String(VimString::DoubleQuote(s.to_string()))
}

fn body(commands: Vec<ExCommand>) -> Body {
    Body { commands }
}

const PRELUDE: &str = "local NVIM9 = require('vim9script')local __VIM9_MODULE = {}\n";

#[test]
fn export_var_with_sum() {
    // vim9script / export var x = 5 + 1
    let p = Program {
        commands: vec![
            ExCommand::Vim9Script(Vim9ScriptCommand { noclear: false }),
            ExCommand::ExportCommand(ExportCommand {
                command: Box::new(ExCommand::Var(VarCommand {
                    name: raw("x"),
                    ty: None,
                    expr: Expression::Infix(InfixExpression {
                        operator: Operator::Plus,
                        left: Box::new(num("5")),
                        right: Box::new(num("1")),
                    }),
                })),
            }),
        ],
    };
    let out = eval(p, false);
    let expected = format!(
        "{}-- vim9script\nlocal x = NVIM9.ops['Plus'](5, 1);\n__VIM9_MODULE['x'] = x;\nreturn __VIM9_MODULE",
        PRELUDE
    );
    assert_eq!(out, expected);
}

#[test]
fn top_level_def_is_hoisted_and_not_local() {
    let def = ExCommand::Def(DefCommand {
        name: raw("MyCoolFunc"),
        args: Signature { params: vec![] },
        body: body(vec![ExCommand::Return(ReturnCommand { expr: Some(num("5")) })]),
    });
    let out = eval(Program { commands: vec![def] }, false);
    let expected = format!(
        "{}local MyCoolFunc = nil\n\n                 MyCoolFunc = function()\n                    \n                    return 5\n                end\n                \nreturn __VIM9_MODULE",
        PRELUDE
    );
    assert_eq!(out, expected);
}

#[test]
fn nested_def_is_local() {
    let inner = ExCommand::Def(DefCommand {
        name: raw("Inner"),
        args: Signature { params: vec![] },
        body: body(vec![]),
    });
    let outer = DefCommand { name: raw("Outer"), args: Signature { params: vec![] }, body: body(vec![inner]) };
    let mut state = State::new(false);
    let out = outer.gen(&mut state);
    assert!(out.contains("local Inner = function()"));
    assert!(out.contains("\n                 Outer = function()"));
    assert_eq!(state.scopes.len(), 0);
}

#[test]
fn default_arguments_are_filled_in() {
    let def = DefCommand {
        name: raw("F"),
        args: Signature {
            params: vec![
                Param { name: raw("a"), default_val: None },
                Param { name: raw("b"), default_val: Some(num("2")) },
            ],
        },
        body: body(vec![]),
    };
    let mut state = State::new(false);
    let out = def.gen(&mut state);
    assert_eq!(
        out,
        "\n                 F = function(a, b)\n                    b = vim.F.if_nil(b, 2, b)\n                    \n                end\n                "
    );
}

#[test]
fn test_function_in_test_mode() {
    let def = DefCommand {
        name: raw("TestIt"),
        args: Signature { params: vec![] },
        body: body(vec![echo(num("1"))]),
    };
    let mut state = State::new(true);
    let out = def.gen(&mut state);
    assert_eq!(
        out,
        "\n                    it(\"TestIt\", function()\n                       -- Set errors to empty\n                       vim.v.errors = {}\n\n                       -- Actual test\n                       print(1)\n\n                       -- Assert that errors is still empty\n                       assert.are.same({}, vim.v.errors)\n                    end)\n                "
    );
}

#[test]
fn test_mode_wraps_module_in_describe() {
    let out = eval(Program { commands: vec![] }, true);
    assert_eq!(
        out,
        format!("{}describe(\"filename\", function()\nend)return __VIM9_MODULE", PRELUDE)
    );
}

#[test]
fn if_elseif_else() {
    let cmd = IfCommand {
        condition: num("1"),
        body: body(vec![echo(num("2"))]),
        elseifs: vec![ElseIfCommand { condition: num("3"), body: body(vec![echo(num("4"))]) }],
        else_command: Some(ElseCommand { body: body(vec![echo(num("5"))]) }),
    };
    let mut state = State::new(false);
    let out = cmd.gen(&mut state);
    assert_eq!(
        out,
        "if 1 then\n  print(2)\n\n        elseif 3 then\n            print(4)\n        \nelse\nprint(5)\n\nend"
    );
}

#[test]
fn if_without_branches() {
    let cmd = IfCommand { condition: num("1"), body: body(vec![]), elseifs: vec![], else_command: None };
    let mut state = State::new(false);
    assert_eq!(cmd.gen(&mut state), "if 1 then\n  \n\n\nend");
}

#[test]
fn augroup_sets_and_clears_group() {
    let autocmd_block = ExCommand::Autocmd(AutocmdCommand {
        events: vec![lit("CursorMoved"), lit("WinEnter")],
        block: AutocmdBlock::Block(body(vec![echo(dstr("Block"))])),
    });
    let autocmd_cmd = ExCommand::Autocmd(AutocmdCommand {
        events: vec![lit("WinLeave")],
        block: AutocmdBlock::Command(Box::new(echo(dstr("Command")))),
    });
    let group = AugroupCommand { augroup_name: lit("matchparen"), body: body(vec![autocmd_block, autocmd_cmd]) };
    let mut state = State::new(false);
    let out = group.gen(&mut state);
    assert_eq!(
        out,
        "\n    vim.api.nvim_create_augroup(\"matchparen\", { clear = false })\n\n    \nvim.api.nvim_create_autocmd({ 'CursorMoved', 'WinEnter' }, {\n    group = 'matchparen',\n    callback = function()\nprint(\"Block\")\nend,\n})\n\n\nvim.api.nvim_create_autocmd({ 'WinLeave' }, {\n    group = 'matchparen',\n    callback = function()\nprint(\"Command\")\nend,\n})\n\n"
    );
    assert!(state.augroup.is_none());
}

#[test]
fn autocmd_outside_group_has_no_group_line() {
    let a = AutocmdCommand { events: vec![lit("BufEnter")], block: AutocmdBlock::Block(body(vec![])) };
    let mut state = State::new(false);
    assert_eq!(
        a.gen(&mut state),
        "\nvim.api.nvim_create_autocmd({ 'BufEnter' }, {\n    \n    callback = function()\n\nend,\n})\n"
    );
}

#[test]
fn user_command_with_args() {
    let u = UserCommand {
        name: "Hello".to_string(),
        command: Box::new(echo(Expression::Expandable(Expandable { ident: raw("q-args") }))),
        command_nargs: Some("*".to_string()),
        command_bang: true,
    };
    let mut state = State::new(false);
    let out = u.gen(&mut state);
    assert_eq!(
        out,
        "\n            vim.api.nvim_create_user_command(\n                \"Hello\",\n                function(__vim9_arg_1)\n                    print(__vim9_arg_1.args)\n                end,\n                {\n                     nargs = '*',\n                     bang = true,\n                }\n            )"
    );
    assert_eq!(state.command_depth, 0);
}

#[test]
fn nested_user_commands_use_distinct_args() {
    let inner = UserCommand {
        name: "B".to_string(),
        command: Box::new(echo(Expression::Expandable(Expandable { ident: raw("q-bang") }))),
        command_nargs: None,
        command_bang: false,
    };
    let outer = UserCommand {
        name: "A".to_string(),
        command: Box::new(ExCommand::UserCommand(inner)),
        command_nargs: None,
        command_bang: false,
    };
    let mut state = State::new(false);
    let out = outer.gen(&mut state);
    assert!(out.contains("function(__vim9_arg_1)"));
    assert!(out.contains("function(__vim9_arg_2)"));
    assert!(out.contains("print((__vim9_arg_2.bang and '!' or ''))"));
    assert!(out.contains("nargs = '0'"));
    assert!(out.contains("bang = false"));
}

#[test]
fn heredoc_plain_and_trimmed() {
    let h = Heredoc { name: raw("lines"), trim: false, contents: vec!["a".to_string(), "b c".to_string()] };
    let mut state = State::new(false);
    assert_eq!(h.gen(&mut state), "local lines = { [==[a]==], [==[b c]==] }");
    let t = Heredoc { name: raw("lines"), trim: true, contents: vec![] };
    assert_eq!(t.gen(&mut state), "local lines = NVIM9.heredoc.trim({  })");
}

#[test]
fn shared_command_is_trimmed() {
    let s = SharedCommand { contents: "  \t set nocompatible \n".to_string() };
    let mut state = State::new(false);
    assert_eq!(s.gen(&mut state), "vim.cmd [[ set nocompatible ]]");
    let blank = SharedCommand { contents: " \u{3000}\u{a0} ".to_string() };
    assert_eq!(blank.gen(&mut state), "vim.cmd [[  ]]");
}

#[test]
fn imports() {
    let implicit = ImportCommand::ImportImplicit {
        file: "dist/vimhelp.vim".to_string(),
        name: None,
        autoload: false,
    };
    let mut state = State::new(false);
    assert_eq!(
        implicit.gen(&mut state),
        "local vimhelp = NVIM9.import({ name = 'dist/vimhelp.vim', autoload = false })"
    );
    let unpacked = ImportCommand::ImportUnpacked {
        names: vec![raw("Foo"), raw("Bar")],
        file: "./other.vim".to_string(),
    };
    assert_eq!(
        unpacked.gen(&mut state),
        "local Foo = NVIM9.import({ name = './other.vim' })['Foo']\nlocal Bar = NVIM9.import({ name = './other.vim' })['Bar']"
    );
}

#[test]
fn import_without_stem_is_refused() {
    let p = Program {
        commands: vec![ExCommand::ImportCommand(ImportCommand::ImportImplicit {
            file: "".to_string(),
            name: None,
            autoload: true,
        })],
    };
    assert!(!program_supported(&p, false));
    assert!(try_eval(p, false).is_none());
}

#[test]
fn mutation_and_assignment() {
    let m = StatementCommand::Mutate(MutationStatement {
        left: Expression::Identifier(raw("x")),
        modifier: MutationModifier::StringConcatEquals,
        right: dstr("y"),
    });
    let mut state = State::new(false);
    assert_eq!(m.gen(&mut state), "x = NVIM9.ops['StringConcat'](x, \"y\")");
    let a = AssignStatement {
        left: Expression::Index(IndexExpression {
            container: Box::new(Expression::Identifier(raw("l"))),
            index: Box::new(IndexType::Item(num("0"))),
        }),
        right: num("7"),
    };
    assert_eq!(a.gen(&mut state), "l[0 + 1] = 7");
}

#[test]
fn loops_and_simple_commands() {
    let f = ForCommand { for_identifier: raw("i"), for_expr: Expression::Identifier(raw("xs")), body: body(vec![ExCommand::Break(BreakCommand {})]) };
    let mut state = State::new(false);
    assert_eq!(f.gen(&mut state), "for _, i in NVIM9.iter(xs) do\nbreak\nend\n");
    let w = WhileCommand { condition: Expression::Boolean(VimBoolean { value: true }), body: body(vec![]) };
    assert_eq!(w.gen(&mut state), "while true\ndo\n\nend");
    let t = TryCommand { body: body(vec![echo(num("1")), echo(num("2"))]) };
    assert_eq!(t.gen(&mut state), "print(1)\nprint(2)");
    let d = DeclCommand { name: raw("v") };
    assert_eq!(d.gen(&mut state), "local v = nil");
    let r = ReturnCommand { expr: None };
    assert_eq!(r.gen(&mut state), "return");
}

#[test]
fn commands_without_own_type() {
    let mut state = State::new(false);
    assert_eq!(ExCommand::Comment(lit("# note")).gen(&mut state), "-- # note");
    assert_eq!(ExCommand::Finish.gen(&mut state), "return __VIM9_MODULE");
    assert_eq!(
        ExCommand::NoOp(NoOpToken { is_whitespace: true, debug_text: "ws".to_string() }).gen(&mut state),
        ""
    );
    assert_eq!(
        ExCommand::NoOp(NoOpToken { is_whitespace: false, debug_text: "Token".to_string() }).gen(&mut state),
        "\n-- Token"
    );
    assert_eq!(ExCommand::Eval(EvalCommand { expr: num("3") }).gen(&mut state), "3;");
}

#[test]
fn bool_typed_var_is_converted() {
    let v = VarCommand { name: raw("b"), ty: Some(Type { inner: InnerType::Bool }), expr: num("1") };
    let mut state = State::new(false);
    assert_eq!(v.gen(&mut state), "local b = NVIM9.convert.decl_bool(1)");
    let n = VarCommand { name: raw("n"), ty: Some(Type { inner: InnerType::Number }), expr: num("1") };
    assert_eq!(n.gen(&mut state), "local n = 1");
}

#[test]
fn toplevel_names() {
    let state = State::new(false);
    let decl = ExCommand::Decl(DeclCommand { name: raw("a") });
    assert_eq!(toplevel_id(&state, &decl), Some("a".to_string()));
    let exported_def = ExCommand::ExportCommand(ExportCommand {
        command: Box::new(ExCommand::Def(DefCommand { name: raw("F"), args: Signature { params: vec![] }, body: body(vec![]) })),
    });
    assert_eq!(toplevel_id(&state, &exported_def), Some("F".to_string()));
    let var = ExCommand::Var(VarCommand { name: raw("x"), ty: None, expr: num("1") });
    assert_eq!(toplevel_id(&state, &var), None);
}

#[test]
fn unsupported_commands_are_refused() {
    assert!(try_eval(Program { commands: vec![ExCommand::Skip] }, false).is_none());
    assert!(try_eval(Program { commands: vec![ExCommand::EndOfFile] }, false).is_none());
    let export_echo = ExCommand::ExportCommand(ExportCommand { command: Box::new(echo(num("1"))) });
    assert!(try_eval(Program { commands: vec![export_echo] }, false).is_none());
    let ok = try_eval(Program { commands: vec![echo(num("1"))] }, false);
    assert_eq!(ok, Some(format!("{}print(1)\nreturn __VIM9_MODULE", PRELUDE)));
}

#[test]
fn toplevel_names_ignore_what_is_not_declared() {
    let state = State::new(false);
    let unsupported_body = ExCommand::Def(DefCommand {
        name: raw("G"),
        args: Signature { params: vec![Param { name: Identifier::Unpacked(vec![raw("a")]), default_val: None }] },
        body: body(vec![ExCommand::ImportCommand(ImportCommand::ImportImplicit {
            file: "".to_string(),
            name: None,
            autoload: true,
        })]),
    });
    assert_eq!(toplevel_id(&state, &unsupported_body), Some("G".to_string()));
    let exported_heredoc = ExCommand::ExportCommand(ExportCommand {
        command: Box::new(ExCommand::Heredoc(Heredoc { name: raw("text"), trim: false, contents: vec![] })),
    });
    assert_eq!(toplevel_id(&state, &exported_heredoc), Some("text".to_string()));
    assert_eq!(toplevel_id(&state, &ExCommand::Skip), None);
    assert_eq!(toplevel_id(&state, &ExCommand::EndOfFile), None);
    assert_eq!(toplevel_id(&state, &ExCommand::Finish), None);
}

#[test]
fn test_case_parameters_are_not_generated() {
    let make = || Program {
        commands: vec![ExCommand::Def(DefCommand {
            name: raw("Test_a"),
            args: Signature { params: vec![Param { name: Identifier::Unpacked(vec![raw("x")]), default_val: None }] },
            body: body(vec![]),
        })],
    };
    assert!(program_supported(&make(), true));
    assert!(!program_supported(&make(), false));
    assert!(try_eval(make(), false).is_none());
    let lua = try_eval(make(), true).unwrap();
    let expected_case = [
        "\n                    it(\"Test_a\", function()\n",
        "                       -- Set errors to empty\n",
        "                       vim.v.errors = {}\n\n",
        "                       -- Actual test\n",
        "                       \n\n",
        "                       -- Assert that errors is still empty\n",
        "                       assert.are.same({}, vim.v.errors)\n",
        "                    end)\n                ",
    ]
    .concat();
    let expected = format!(
        "local NVIM9 = require('vim9script')local __VIM9_MODULE = {{}}\ndescribe(\"filename\", function()\nlocal Test_a = nil\n{}\nend)return __VIM9_MODULE",
        expected_case
    );
    assert_eq!(lua, expected);
}
