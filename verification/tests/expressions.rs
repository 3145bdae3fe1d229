use vim9_gen::ast::{
    ArrayLiteral, DictAccess, DictLiteral, Expandable, Expression, GroupedExpression, Identifier,
    IndexExpression, IndexType, InfixExpression, KeyValue, Lambda, Literal, Operator, Param,
    PrefixExpression, RawIdentifier, Register, ScopedIdentifier, Signature, Ternary, VimBoolean,
    VimKey, VimNumber, VimOption, VimScope, VimSlice, VimString,
};
use vim9_gen::expr::{gen_expr, gen_ident, make_user_command_arg, operator_str};
use vim9_gen::generator::Generate;
use vim9_gen::state::State;
use vim9_gen::supported::{expr_supported, ident_supported};

fn raw(name: &str) -> Identifier {
    Identifier::Raw(RawIdentifier { name: name.to_string() })
}

fn num(v: &str) -> Expression {
    Expression::Number(VimNumber { value: v.to_string() })
}

fn ident(name: &str) -> Expression {
    Expression::Identifier(raw(name))
}

#[test]
fn scoped_identifiers() {
    let g = Identifier::Scope(ScopedIdentifier { scope: VimScope::Global, accessor: Box::new(raw("foo")) });
    assert_eq!(gen_ident(&g), "vim.g['foo']");
    let v = Identifier::Scope(ScopedIdentifier { scope: VimScope::VimVar, accessor: Box::new(raw("errors")) });
    assert_eq!(gen_ident(&v), "vim.v['errors']");
    let b = Identifier::Scope(ScopedIdentifier { scope: VimScope::Buffer, accessor: Box::new(raw("x")) });
    assert!(!ident_supported(&b));
    assert!(!ident_supported(&Identifier::Unpacked(vec![raw("a")])));
}

#[test]
fn literals() {
    assert_eq!(gen_expr(&num("0x1F"), 0), "0x1F");
    assert_eq!(gen_expr(&Expression::Boolean(VimBoolean { value: false }), 0), "false");
    assert_eq!(gen_expr(&Expression::Empty, 0), "");
    let sq = Expression::String(VimString::SingleQuote("a\\b\\\\c".to_string()));
    assert_eq!(gen_expr(&sq, 0), "'a\\\\b\\\\\\\\c'");
    let sq_plain = Expression::String(VimString::SingleQuote("plain".to_string()));
    assert_eq!(gen_expr(&sq_plain, 0), "'plain'");
    let dq = Expression::String(VimString::DoubleQuote("x\\ny".to_string()));
    assert_eq!(gen_expr(&dq, 0), "\"x\\ny\"");
}

#[test]
fn operators() {
    let all = [
        (Operator::Plus, "Plus"), (Operator::Minus, "Minus"), (Operator::Multiply, "Multiply"),
        (Operator::Divide, "Divide"), (Operator::Modulo, "Modulo"), (Operator::StringConcat, "StringConcat"),
        (Operator::And, "And"), (Operator::Or, "Or"), (Operator::EqualTo, "EqualTo"),
        (Operator::LessThan, "LessThan"), (Operator::GreaterThan, "GreaterThan"),
        (Operator::LessThanOrEqual, "LessThanOrEqual"), (Operator::GreaterThanOrEqual, "GreaterThanOrEqual"),
        (Operator::Bang, "Bang"),
    ];
    for (op, name) in all {
        assert_eq!(operator_str(&op), name);
        assert_eq!(format!("{:?}", op), name);
    }
    let named = Operator::Named("RegexpMatches".to_string());
    assert_eq!(operator_str(&named), "RegexpMatches");
    let other = Expression::Infix(InfixExpression {
        operator: Operator::Named("RegexpMatches".to_string()),
        left: Box::new(ident("a")),
        right: Box::new(ident("b")),
    });
    assert_eq!(gen_expr(&other, 0), "NVIM9.ops['RegexpMatches'](a, b)");
    let infix = Expression::Infix(InfixExpression {
        operator: Operator::EqualTo,
        left: Box::new(ident("a")),
        right: Box::new(num("1")),
    });
    assert_eq!(gen_expr(&infix, 0), "NVIM9.ops['EqualTo'](a, 1)");
    let prefix = Expression::Prefix(PrefixExpression { operator: Operator::Bang, right: Box::new(ident("a")) });
    assert_eq!(gen_expr(&prefix, 0), "NVIM9.prefix['Bang'](a)");
    let grouped = Expression::Grouped(GroupedExpression { expr: Box::new(prefix) });
    assert_eq!(gen_expr(&grouped, 0), "(NVIM9.prefix['Bang'](a))");
}

#[test]
fn collections() {
    let arr = Expression::Array(ArrayLiteral { elements: vec![num("1"), num("2"), num("3")] });
    assert_eq!(gen_expr(&arr, 0), "{ 1, 2, 3 }");
    let empty = Expression::Array(ArrayLiteral { elements: vec![] });
    assert_eq!(gen_expr(&empty, 0), "{  }");
    let dict = Expression::Dict(DictLiteral {
        elements: vec![
            KeyValue { key: VimKey::Literal(Literal { text: "a".to_string() }), value: num("1") },
            KeyValue { key: VimKey::Literal(Literal { text: "b".to_string() }), value: arr },
        ],
    });
    assert_eq!(gen_expr(&dict, 0), "{ a = 1, b = { 1, 2, 3 } }");
}

#[test]
fn indexing_and_slicing() {
    let idx = Expression::Index(IndexExpression {
        container: Box::new(ident("xs")),
        index: Box::new(IndexType::Item(num("2"))),
    });
    assert_eq!(gen_expr(&idx, 0), "NVIM9.index(xs, 2)");
    let slice = Expression::Index(IndexExpression {
        container: Box::new(ident("xs")),
        index: Box::new(IndexType::Slice(VimSlice { start: Some(Box::new(num("1"))), finish: None })),
    });
    assert_eq!(gen_expr(&slice, 0), "NVIM9.slice(xs, 1, nil)");
    let alone = Expression::Slice(VimSlice { start: None, finish: None });
    assert!(!expr_supported(&alone));
    let access = Expression::DictAccess(DictAccess {
        container: Box::new(ident("d")),
        index: Literal { text: "key".to_string() },
    });
    assert_eq!(gen_expr(&access, 0), "d['key']");
    let opt = Expression::VimOption(VimOption { option: Literal { text: "tabstop".to_string() } });
    assert_eq!(gen_expr(&opt, 0), "vim.o['tabstop']");
}

#[test]
fn register_is_read_by_quoted_name() {
    let r = Expression::Register(Register { register: "a".to_string() });
    assert_eq!(gen_expr(&r, 0), "vim.fn.getreg(\"a\")");
    let q = Expression::Register(Register { register: "\"".to_string() });
    assert_eq!(gen_expr(&q, 0), "vim.fn.getreg(\"\\\"\")");
}

#[test]
fn lambda_and_ternary() {
    let lambda = Expression::Lambda(Lambda {
        args: Signature {
            params: vec![
                Param { name: raw("x"), default_val: None },
                Param { name: raw("y"), default_val: Some(num("1")) },
            ],
        },
        body: Box::new(ident("x")),
    });
    assert_eq!(
        gen_expr(&lambda, 0),
        "(function(x, y)\n                y = vim.F.if_nil(y, 1, y)\n                x\n                end)"
    );
    let ternary = Expression::Ternary(Ternary {
        cond: Box::new(ident("c")),
        if_true: Box::new(num("1")),
        if_false: Box::new(num("2")),
    });
    assert_eq!(
        gen_expr(&ternary, 0),
        "NVIM9.ternary(c, function() return 1 end, function() return 2 end)"
    );
}

#[test]
fn expandables() {
    assert_eq!(gen_expr(&Expression::Expandable(Expandable { ident: raw("q-args") }), 3), "__vim9_arg_3.args");
    assert_eq!(gen_expr(&Expression::Expandable(Expandable { ident: raw("q-mods") }), 0), "__vim9_arg_0.mods");
    assert_eq!(
        gen_expr(&Expression::Expandable(Expandable { ident: raw("q-bang") }), 12),
        "(__vim9_arg_12.bang and '!' or '')"
    );
    assert_eq!(
        gen_expr(&Expression::Expandable(Expandable { ident: raw("sfile") }), 0),
        "vim.fn.expand('<sfile>')"
    );
}

#[test]
fn user_command_argument_names() {
    assert_eq!(make_user_command_arg(0), "__vim9_arg_0");
    assert_eq!(make_user_command_arg(9), "__vim9_arg_9");
    assert_eq!(make_user_command_arg(10), "__vim9_arg_10");
    assert_eq!(make_user_command_arg(-7), "__vim9_arg_-7");
    assert_eq!(make_user_command_arg(i32::MAX), "__vim9_arg_2147483647");
    assert_eq!(make_user_command_arg(i32::MIN), "__vim9_arg_-2147483648");
    assert_ne!(make_user_command_arg(1), make_user_command_arg(11));
}

#[test]
fn expressions_through_the_trait_leave_state_alone() {
    let mut state = State::new(false);
    state.command_depth = 2;
    let e = Expression::Expandable(Expandable { ident: raw("q-args") });
    assert_eq!(e.gen(&mut state), "__vim9_arg_2.args");
    assert_eq!(state.command_depth, 2);
    assert!(state.augroup.is_none());
}
