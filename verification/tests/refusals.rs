use vim9_gen::ast::{
    AssignStatement, Body, DefCommand, EchoCommand, ExCommand, Expression, Identifier,
    ImportCommand, IndexExpression, IndexType, Literal, Program, RawIdentifier, ScopedIdentifier,
    Signature, StatementCommand, UserCommand, VimKey, VimScope, VimSlice,
};
use vim9_gen::generator::Generate;
use vim9_gen::state::State;
use vim9_gen::supported::{cmd_supported, try_eval, try_generate};

fn raw(name: &str) -> Identifier {
    Identifier::Raw(RawIdentifier { name: name.to_string() })
}

#[test]
fn slice_cannot_be_assigned() {
    let a = ExCommand::Statement(StatementCommand::Assign(AssignStatement {
        left: Expression::Index(IndexExpression {
            container: Box::new(Expression::Identifier(raw("l"))),
            index: Box::new(IndexType::Slice(VimSlice { start: None, finish: None })),
        }),
        right: Expression::Empty,
    }));
    assert!(!cmd_supported(&a, 0, false));
    assert!(try_generate(Program { commands: vec![a] }, false).is_none());
}

#[test]
fn user_commands_cannot_nest_past_i32() {
    let u = ExCommand::UserCommand(UserCommand {
        name: "X".to_string(),
        command: Box::new(ExCommand::Echo(EchoCommand { expr: Expression::Empty })),
        command_nargs: None,
        command_bang: false,
    });
    assert!(cmd_supported(&u, 0, false));
    assert!(cmd_supported(&u, i32::MAX - 1, false));
    assert!(!cmd_supported(&u, i32::MAX, false));
}

#[test]
fn aliased_implicit_import_is_refused() {
    let i = ExCommand::ImportCommand(ImportCommand::ImportImplicit {
        file: "a.vim".to_string(),
        name: Some(raw("A")),
        autoload: false,
    });
    assert!(try_eval(Program { commands: vec![i] }, false).is_none());
}

#[test]
fn unsupported_scope_in_definition_name_is_refused() {
    let d = ExCommand::Def(DefCommand {
        name: Identifier::Scope(ScopedIdentifier { scope: VimScope::Script, accessor: Box::new(raw("F")) }),
        args: Signature { params: vec![] },
        body: Body { commands: vec![] },
    });
    assert!(try_eval(Program { commands: vec![d] }, false).is_none());
}

#[test]
fn small_nodes_through_the_trait() {
    let mut state = State::new(false);
    assert_eq!(raw("n").gen(&mut state), "n");
    let scoped = ScopedIdentifier { scope: VimScope::Global, accessor: Box::new(raw("x")) };
    assert_eq!(scoped.gen(&mut state), "vim.g['x']");
    assert_eq!(RawIdentifier { name: "r".to_string() }.gen(&mut state), "r");
    assert_eq!(Literal { text: "t".to_string() }.gen(&mut state), "t");
    assert_eq!(VimKey::Literal(Literal { text: "k".to_string() }).gen(&mut state), "k");
}
