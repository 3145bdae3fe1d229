use vim9_gen::ast::{
    EchoCommand, ExCommand, Expression, Identifier, Program, RawIdentifier, VarCommand, VimNumber,
};
use vim9_gen::format::{finish_formatting, format_module, generate};
use vim9_gen::supported::try_generate;

fn var(name: &str, value: &str) -> ExCommand {
    ExCommand::Var(VarCommand {
        name: Identifier::Raw(RawIdentifier { name: name.to_string() }),
        ty: None,
        expr: Expression::Number(VimNumber { value: value.to_string() }),
    })
}

#[test]
fn generate_formats_with_stylua() {
    let out = generate(Program { commands: vec![var("x", "1")] }, false);
    assert_eq!(
        out,
        "local NVIM9 = require(\"vim9script\")\nlocal __VIM9_MODULE = {}\nlocal x = 1\nreturn __VIM9_MODULE\n"
    );
}

#[test]
fn unparsable_module_is_returned_with_the_error() {
    let echo_empty = ExCommand::Echo(EchoCommand { expr: Expression::Empty });
    let broken = ExCommand::Var(VarCommand {
        name: Identifier::Raw(RawIdentifier { name: "x".to_string() }),
        ty: None,
        expr: Expression::Empty,
    });
    let out = try_generate(Program { commands: vec![echo_empty, broken] }, false).unwrap();
    let raw = "local NVIM9 = require('vim9script')local __VIM9_MODULE = {}\nprint()\nlocal x = \nreturn __VIM9_MODULE";
    assert!(out.starts_with(&format!("{}\n\n", raw)));
    assert!(out.len() > raw.len() + 2);
}

#[test]
fn format_module_reindents() {
    let out = format_module("if   x then\nprint(1)\nend".to_string());
    assert_eq!(out, "if x then\n  print(1)\nend\n");
}

#[test]
fn finish_formatting_picks_answer() {
    assert_eq!(finish_formatting("a".to_string(), Ok("b".to_string())), "b");
    assert_eq!(finish_formatting("a".to_string(), Err("bad".to_string())), "a\n\nbad");
}
