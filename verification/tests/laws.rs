use vim9_gen::ast::{
    AugroupCommand, Body, DeclCommand, EchoCommand, ExCommand, Expression, Identifier, Literal,
    Program, RawIdentifier, VimNumber,
};
use vim9_gen::eval;
use vim9_gen::generator::Generate;
use vim9_gen::state::State;
use vim9_gen::text::{escape_backslashes_str, int_to_string, trim_str};

#[test]
fn trimming_twice_changes_nothing() {
    for s in ["  a b  ", "\u{2003}x\u{2029}", "", "   ", "no-space"] {
        let once = trim_str(s);
        let twice = trim_str(&once);
        assert_eq!(once, twice);
        assert_eq!(once, s.trim());
    }
}

#[test]
fn escaping_concatenation_escapes_parts() {
    let a = "x\\";
    let b = "\\y";
    let joined = format!("{}{}", a, b);
    assert_eq!(escape_backslashes_str(&joined), format!("{}{}", escape_backslashes_str(a), escape_backslashes_str(b)));
    assert_eq!(escape_backslashes_str("no backslash"), "no backslash");
}

#[test]
fn distinct_depths_have_distinct_texts() {
    let texts: Vec<String> = [-11, -1, 0, 1, 10, 11, 101, 110].iter().map(|d| int_to_string(*d)).collect();
    for (i, a) in texts.iter().enumerate() {
        for (j, b) in texts.iter().enumerate() {
            assert_eq!(i == j, a == b);
        }
    }
}

#[test]
fn group_is_kept_or_cleared() {
    let mut state = State::new(false);
    state.augroup = Some(Literal { text: "outer".to_string() });
    let echo = ExCommand::Echo(EchoCommand { expr: Expression::Number(VimNumber { value: "1".to_string() }) });
    echo.gen(&mut state);
    assert_eq!(state.augroup.as_ref().map(|l| l.text.clone()), Some("outer".to_string()));
    let group = ExCommand::Augroup(AugroupCommand { augroup_name: Literal { text: "inner".to_string() }, body: Body { commands: vec![] } });
    group.gen(&mut state);
    assert!(state.augroup.is_none());
}

#[test]
fn declared_names_are_hoisted_before_code() {
    let decl = ExCommand::Decl(DeclCommand { name: Identifier::Raw(RawIdentifier { name: "later".to_string() }) });
    let echo = ExCommand::Echo(EchoCommand { expr: Expression::Number(VimNumber { value: "1".to_string() }) });
    let out = eval(Program { commands: vec![echo, decl] }, false);
    let hoist = out.find("local later = nil\n").unwrap();
    let code = out.find("print(1)").unwrap();
    assert!(hoist < code);
    assert!(out.starts_with("local NVIM9 = require('vim9script')local __VIM9_MODULE = {}\n"));
    assert!(out.ends_with("return __VIM9_MODULE"));
}

#[test]
fn state_helpers() {
    let state = State::new(true);
    assert!(state.is_top_level());
    assert!(state.is_test);
    assert_eq!(state.command_depth, 0);
    assert_eq!(state.method_depth, 0);
}
